//! The logic of a toolkit for AWS services: what each operation asks for,
//! and what is decided, said and written of each answer. The calls to the
//! services themselves, and the files, are left to the caller.
pub mod amplify;
pub mod aws_polly;
pub mod credentials;
pub mod dynamodb;
pub mod memorydb_ops;
pub mod pattern;
pub mod pdf_writer;
pub mod pinpoint_ops;
pub mod rds_ops;
pub mod rekognition_ops;
pub mod route53;
pub mod s3_ops;
pub mod sesv2_ops;
pub mod sns_ops;
pub mod text;
pub mod time;
pub mod transcribe_ops;
pub mod translate_ops;

pub use credentials::CredentInitialize;
pub use memorydb_ops::MemDbClusterInfo;
pub use pdf_writer::{create_celebrity_pdf, create_celebrity_single_pdf,
    create_detect_face_image_pdf, create_email_identities_pdf, create_email_pdf,
    create_face_result_pdf, create_text_result_pdf};
pub use rds_ops::{DbClusterInfo, DbInstanceInfo};
pub use rekognition_ops::{FaceDetails, TextDetect};
pub use sesv2_ops::SimpleOrTemplate::{Simple_, Template_};
pub use sesv2_ops::{SimpleMail, TemplateMail};
