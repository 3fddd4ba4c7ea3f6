//! What the Rekognition results hold, and the text and table records that
//! are made of them. A number that the service gives as a fraction (a
//! confidence, a part of a bounding box) is held as the text that stands for
//! it in a report.
use crate::pdf_writer::{create_celebrity_pdf, create_face_result_pdf, create_text_result_pdf,
    face_result_report, is_celebrity_pdf, text_result_report, CelebrityPdf, Report};
use crate::text::{copy_of, decimal, decimal_i64, line_if, listed, number_view, push_all, record_if,
    reversed, said_if, said_of, same_text, say_if, text_or_empty, truth, truth_text, views,
    write_if};
use vstd::prelude::*;
use vstd::string::*;

verus! {

/// The frame of a face or of a text: each side as the text of its number.
#[derive(Clone, Debug)]
pub struct BoundingBox {
    pub width: Option<String>,
    pub height: Option<String>,
    pub left: Option<String>,
    pub top: Option<String>,
}

/// The estimated age, in years.
#[derive(Clone, Copy, Debug)]
pub struct AgeRange {
    pub low: Option<i32>,
    pub high: Option<i32>,
}

/// A yes-or-no trait of a face (a smile, a beard, glasses) and how sure the
/// service is of it.
#[derive(Clone, Debug)]
pub struct Trait {
    pub value: bool,
    pub confidence: Option<String>,
}

/// The gender that the service predicts, and how sure it is.
#[derive(Clone, Debug)]
pub struct Gender {
    pub value: Option<String>,
    pub confidence: Option<String>,
}

/// What the service says of one face.
#[derive(Clone, Debug)]
pub struct FaceDetail {
    pub bounding_box: Option<BoundingBox>,
    pub age_range: Option<AgeRange>,
    pub smile: Option<Trait>,
    pub eyeglasses: Option<Trait>,
    pub sunglasses: Option<Trait>,
    pub gender: Option<Gender>,
    pub beard: Option<Trait>,
    pub mustache: Option<Trait>,
}

/// One face of a video, with the moment it was seen at, in milliseconds
/// from the start.
#[derive(Clone, Debug)]
pub struct FaceDetection {
    pub timestamp: i64,
    pub face: Option<FaceDetail>,
}

/// An object of a bucket.
#[derive(Clone, Debug)]
pub struct S3Object {
    pub bucket: Option<String>,
    pub name: Option<String>,
}

/// The video that a job read.
#[derive(Clone, Debug)]
pub struct Video {
    pub s3_object: Option<S3Object>,
}

/// The four sides of a frame where all four are there, else nothing.
pub open spec fn whole_box(b: Option<BoundingBox>) -> Option<(String, String, String, String)> {
    match b {
        Some(BoundingBox { width: Some(w), height: Some(h), left: Some(l), top: Some(t) }) => Some(
            (w, h, l, t),
        ),
        _ => None,
    }
}

/// What a yes-or-no trait gives: its value and its confidence, or nothing
/// where the trait is missing.
pub open spec fn trait_pair(t: Option<Trait>) -> (Option<bool>, Option<String>) {
    match t {
        Some(t) => (Some(t.value), t.confidence),
        None => (None, None),
    }
}

/// What a gender gives: its value and its confidence where both are there.
pub open spec fn gender_pair(g: Option<Gender>) -> (Option<String>, Option<String>) {
    match g {
        Some(Gender { value: Some(v), confidence: Some(c) }) => (Some(v), Some(c)),
        _ => (None, None),
    }
}

/// What an age range gives.
pub open spec fn age_pair(a: Option<AgeRange>) -> (Option<i32>, Option<i32>) {
    match a {
        Some(a) => (a.low, a.high),
        None => (None, None),
    }
}

/// What a frame gives, side by side.
pub open spec fn box_sides(b: Option<BoundingBox>) -> (
    Option<String>,
    Option<String>,
    Option<String>,
    Option<String>,
) {
    match b {
        Some(b) => (b.width, b.height, b.left, b.top),
        None => (None, None, None, None),
    }
}

/// A face whose parts are handed out one by one: what was handed out is no
/// longer there.
pub struct FaceDetails(pub FaceDetail);

impl FaceDetails {
    pub fn build(type_: FaceDetail) -> (out: Self)
        ensures
            out.0 == type_,
    {
        Self(type_)
    }

    /// Hands out the frame: width, height, left and top.
    pub fn bounding_box(&mut self) -> (sides: (
        Option<String>,
        Option<String>,
        Option<String>,
        Option<String>,
    ))
        ensures
            sides == box_sides(old(self).0.bounding_box),
            final(self).0 == (FaceDetail { bounding_box: None, ..old(self).0 }),
    {
        match self.0.bounding_box.take() {
            Some(bbox) => (bbox.width, bbox.height, bbox.left, bbox.top),
            None => (None, None, None, None),
        }
    }

    /// Hands out the lowest and the highest estimated age.
    pub fn age_range(&mut self) -> (ages: (Option<i32>, Option<i32>))
        ensures
            ages == age_pair(old(self).0.age_range),
            final(self).0 == (FaceDetail { age_range: None, ..old(self).0 }),
    {
        match self.0.age_range.take() {
            Some(age) => (age.low, age.high),
            None => (None, None),
        }
    }

    /// Hands out whether the face smiles, and the confidence.
    pub fn smile(&mut self) -> (pair: (Option<bool>, Option<String>))
        ensures
            pair == trait_pair(old(self).0.smile),
            final(self).0 == (FaceDetail { smile: None, ..old(self).0 }),
    {
        match self.0.smile.take() {
            Some(t) => (Some(t.value), t.confidence),
            None => (None, None),
        }
    }

    /// Hands out whether the face wears eyeglasses, and the confidence.
    pub fn eyeglasses(&mut self) -> (pair: (Option<bool>, Option<String>))
        ensures
            pair == trait_pair(old(self).0.eyeglasses),
            final(self).0 == (FaceDetail { eyeglasses: None, ..old(self).0 }),
    {
        match self.0.eyeglasses.take() {
            Some(t) => (Some(t.value), t.confidence),
            None => (None, None),
        }
    }

    /// Hands out whether the face wears sunglasses, and the confidence.
    pub fn sunglasses(&mut self) -> (pair: (Option<bool>, Option<String>))
        ensures
            pair == trait_pair(old(self).0.sunglasses),
            final(self).0 == (FaceDetail { sunglasses: None, ..old(self).0 }),
    {
        match self.0.sunglasses.take() {
            Some(t) => (Some(t.value), t.confidence),
            None => (None, None),
        }
    }

    /// Hands out the gender and the confidence, where both are there.
    pub fn gender(&mut self) -> (pair: (Option<String>, Option<String>))
        ensures
            pair == gender_pair(old(self).0.gender),
            final(self).0 == (FaceDetail { gender: None, ..old(self).0 }),
    {
        match self.0.gender.take() {
            Some(g) => match (g.value, g.confidence) {
                (Some(v), Some(c)) => (Some(v), Some(c)),
                _ => (None, None),
            },
            None => (None, None),
        }
    }

    /// Hands out whether the face has a beard, and the confidence.
    pub fn beard(&mut self) -> (pair: (Option<bool>, Option<String>))
        ensures
            pair == trait_pair(old(self).0.beard),
            final(self).0 == (FaceDetail { beard: None, ..old(self).0 }),
    {
        match self.0.beard.take() {
            Some(t) => (Some(t.value), t.confidence),
            None => (None, None),
        }
    }

    /// Hands out whether the face has a mustache, and the confidence.
    pub fn mustache(&mut self) -> (pair: (Option<bool>, Option<String>))
        ensures
            pair == trait_pair(old(self).0.mustache),
            final(self).0 == (FaceDetail { mustache: None, ..old(self).0 }),
    {
        match self.0.mustache.take() {
            Some(t) => (Some(t.value), t.confidence),
            None => (None, None),
        }
    }
}

/// How the gender stands in a report: the gender, ` and `, the confidence;
/// empty where either is missing.
pub open spec fn gender_text(g: Option<Gender>) -> Seq<char> {
    match gender_pair(g) {
        (Some(v), Some(c)) => v@ + " and "@ + c@,
        _ => Seq::empty(),
    }
}

/// How the age stands in a report; empty where a bound is missing.
pub open spec fn age_text(a: Option<AgeRange>) -> Seq<char> {
    match age_pair(a) {
        (Some(low), Some(high)) => "The lowest age prediction is "@ + decimal(low as int)
            + ", and the highest age prediction is "@ + decimal(high as int),
        _ => Seq::empty(),
    }
}

/// How a yes-or-no trait stands in a report: the value, a comma, the
/// confidence; empty where the trait or its confidence is missing.
pub open spec fn trait_text(t: Option<Trait>) -> Seq<char> {
    match trait_pair(t) {
        (Some(v), Some(c)) => truth_text(v) + ","@ + c@,
        _ => Seq::empty(),
    }
}

/// How the frame of a face stands in a report; empty where a side is
/// missing.
pub open spec fn box_text(b: Option<BoundingBox>) -> Seq<char> {
    match whole_box(b) {
        Some((w, h, l, t)) => "Width: "@ + w@ + ", Height: "@ + h@ + ", Left: "@ + l@ + ", Top: "@
            + t@,
        None => Seq::empty(),
    }
}

/// The lines that one face of a video adds to the text file: its moment, and
/// where the face is described, one line for each of its eight parts.
pub open spec fn face_entry_text(d: FaceDetection) -> Seq<char> {
    let moment = "Timestamp: "@ + decimal(d.timestamp as int) + "\n"@;
    match d.face {
        Some(f) => moment + "Gender and Confidence Level: "@ + gender_text(f.gender) + "\n"@
            + "Age Range in Years: "@ + age_text(f.age_range) + "\n"@
            + "Is the Face Smiling and Confidence Level: "@ + trait_text(f.smile) + "\n"@
            + "Has a Beard and Confidence Level: "@ + trait_text(f.beard) + "\n"@
            + "Has a Mustache and Confidence Level: "@ + trait_text(f.mustache) + "\n"@
            + "Has Sunglasses and Confidence Level: "@ + trait_text(f.sunglasses) + "\n"@
            + "Has Eyeglasses and Confidence Level: "@ + trait_text(f.eyeglasses) + "\n"@
            + "Bounding Box Details: "@ + box_text(f.bounding_box) + "\n\n\n"@,
        None => moment,
    }
}

/// The nine table records of one face of a video; none where the face is
/// not described.
pub open spec fn face_entry_records(d: FaceDetection) -> Seq<Seq<char>> {
    match d.face {
        Some(f) => seq![
            decimal(d.timestamp as int),
            gender_text(f.gender),
            age_text(f.age_range),
            trait_text(f.smile),
            trait_text(f.beard),
            trait_text(f.mustache),
            trait_text(f.sunglasses),
            trait_text(f.eyeglasses),
            box_text(f.bounding_box),
        ],
        None => Seq::empty(),
    }
}

/// The text file of all the faces, in their order.
pub open spec fn faces_text(faces: Seq<FaceDetection>) -> Seq<char>
    decreases faces.len(),
{
    if faces.len() == 0 {
        Seq::empty()
    } else {
        faces_text(faces.drop_last()) + face_entry_text(faces.last())
    }
}

/// The table records of all the faces, in their order.
pub open spec fn faces_records(faces: Seq<FaceDetection>) -> Seq<Seq<char>>
    decreases faces.len(),
{
    if faces.len() == 0 {
        Seq::empty()
    } else {
        faces_records(faces.drop_last()) + face_entry_records(faces.last())
    }
}

fn gender_string(pair: (Option<String>, Option<String>)) -> (out: String)
    ensures
        out@ == (match pair {
            (Some(v), Some(c)) => v@ + " and "@ + c@,
            _ => Seq::empty(),
        }),
{
    let mut out = String::new();
    match pair {
        (Some(v), Some(c)) => {
            out.append(v.as_str());
            out.append(" and ");
            out.append(c.as_str());
            assert(out@ =~= v@ + " and "@ + c@);
        },
        _ => {},
    }
    out
}

fn age_string(pair: (Option<i32>, Option<i32>)) -> (out: String)
    ensures
        out@ == (match pair {
            (Some(low), Some(high)) => "The lowest age prediction is "@ + decimal(low as int)
                + ", and the highest age prediction is "@ + decimal(high as int),
            _ => Seq::empty(),
        }),
{
    let mut out = String::new();
    match pair {
        (Some(low), Some(high)) => {
            out.append("The lowest age prediction is ");
            out.append(decimal_i64(low as i64).as_str());
            out.append(", and the highest age prediction is ");
            out.append(decimal_i64(high as i64).as_str());
            assert(out@ =~= "The lowest age prediction is "@ + decimal(low as int)
                + ", and the highest age prediction is "@ + decimal(high as int));
        },
        _ => {},
    }
    out
}

fn trait_string(pair: (Option<bool>, Option<String>)) -> (out: String)
    ensures
        out@ == (match pair {
            (Some(v), Some(c)) => truth_text(v) + ","@ + c@,
            _ => Seq::empty(),
        }),
{
    let mut out = String::new();
    match pair {
        (Some(v), Some(c)) => {
            out.append(truth(v).as_str());
            out.append(",");
            out.append(c.as_str());
            assert(out@ =~= truth_text(v) + ","@ + c@);
        },
        _ => {},
    }
    out
}

fn box_string(sides: (Option<String>, Option<String>, Option<String>, Option<String>)) -> (out:
    String)
    ensures
        out@ == (match sides {
            (Some(w), Some(h), Some(l), Some(t)) => "Width: "@ + w@ + ", Height: "@ + h@
                + ", Left: "@ + l@ + ", Top: "@ + t@,
            _ => Seq::empty(),
        }),
{
    let mut out = String::new();
    match sides {
        (Some(w), Some(h), Some(l), Some(t)) => {
            out.append("Width: ");
            out.append(w.as_str());
            out.append(", Height: ");
            out.append(h.as_str());
            out.append(", Left: ");
            out.append(l.as_str());
            out.append(", Top: ");
            out.append(t.as_str());
            assert(out@ =~= "Width: "@ + w@ + ", Height: "@ + h@ + ", Left: "@ + l@ + ", Top: "@
                + t@);
        },
        _ => {},
    }
    out
}

fn push_line(file: &mut String, label: &str, value: &str, end: &str)
    ensures
        final(file)@ == old(file)@ + label@ + value@ + end@,
{
    file.append(label);
    file.append(value);
    file.append(end);
}

fn push_record(records: &mut Vec<String>, value: String)
    ensures
        views(final(records)@) == views(old(records)@).push(value@),
{
    records.push(value);
    assert(views(records@) =~= views(old(records)@).push(value@));
}

fn push_nine(
    records: &mut Vec<String>,
    a: String,
    b: String,
    c: String,
    d: String,
    e: String,
    f: String,
    g: String,
    h: String,
    i: String,
)
    ensures
        views(final(records)@) == views(old(records)@) + seq![a@, b@, c@, d@, e@, f@, g@, h@, i@],
{
    push_record(records, a);
    push_record(records, b);
    push_record(records, c);
    push_record(records, d);
    push_record(records, e);
    push_record(records, f);
    push_record(records, g);
    push_record(records, h);
    push_record(records, i);
    assert(views(records@) =~= views(old(records)@) + seq![a@, b@, c@, d@, e@, f@, g@, h@, i@]);
}

/// Writes one face of a video to the text file and to the table records.
fn write_face(d: FaceDetection, file: &mut String, records: &mut Vec<String>)
    ensures
        final(file)@ == old(file)@ + face_entry_text(d),
        views(final(records)@) == views(old(records)@) + face_entry_records(d),
{
    let moment = decimal_i64(d.timestamp);
    let mut entry = String::from_str("Timestamp: ");
    entry.append(moment.as_str());
    entry.append("\n");
    match d.face {
        Some(face) => {
            let mut parts = FaceDetails::build(face);
            let gender = gender_string(parts.gender());
            let age = age_string(parts.age_range());
            let smile = trait_string(parts.smile());
            let beard = trait_string(parts.beard());
            let mustache = trait_string(parts.mustache());
            let sunglasses = trait_string(parts.sunglasses());
            let eyeglasses = trait_string(parts.eyeglasses());
            let frame = box_string(parts.bounding_box());
            entry.append("Gender and Confidence Level: ");
            entry.append(gender.as_str());
            entry.append("\n");
            entry.append("Age Range in Years: ");
            entry.append(age.as_str());
            entry.append("\n");
            entry.append("Is the Face Smiling and Confidence Level: ");
            entry.append(smile.as_str());
            entry.append("\n");
            entry.append("Has a Beard and Confidence Level: ");
            entry.append(beard.as_str());
            entry.append("\n");
            entry.append("Has a Mustache and Confidence Level: ");
            entry.append(mustache.as_str());
            entry.append("\n");
            entry.append("Has Sunglasses and Confidence Level: ");
            entry.append(sunglasses.as_str());
            entry.append("\n");
            entry.append("Has Eyeglasses and Confidence Level: ");
            entry.append(eyeglasses.as_str());
            entry.append("\n");
            entry.append("Bounding Box Details: ");
            entry.append(frame.as_str());
            entry.append("\n\n\n");
            assert(entry@ == face_entry_text(d));
            file.append(entry.as_str());
            push_nine(
                records,
                moment,
                gender,
                age,
                smile,
                beard,
                mustache,
                sunglasses,
                eyeglasses,
                frame,
            );
        },
        None => {
            file.append(entry.as_str());
            assert(views(records@) =~= views(old(records)@) + face_entry_records(d));
        },
    }
}

/// The bucket and the object name of a video; each is empty where it is not
/// known.
pub open spec fn video_names(v: Option<Video>) -> (Seq<char>, Seq<char>) {
    match v {
        Some(Video { s3_object: Some(o) }) => (text_or_empty(o.bucket), text_or_empty(o.name)),
        _ => (Seq::empty(), Seq::empty()),
    }
}

/// The column of headers beside the face records.
pub open spec fn face_headers() -> Seq<Seq<char>> {
    seq![
        "Timestamp"@,
        "Gender and Confidence Level"@,
        "Age Range in Years"@,
        "Is the Face Smiling and Confidence Level"@,
        "Has a Beard and Confidence Level"@,
        "Has a Mustache and Confidence Level"@,
        "Has Sunglasses and Confidence Level"@,
        "Has Eyeglasses and Confidence Level"@,
        "Bounding Box Details"@,
    ]
}

/// The column of headers beside the text records.
pub open spec fn text_headers() -> Seq<Seq<char>> {
    seq!["Timestamp"@, "Detected text"@, "Text Type"@, "Confidence Level"@]
}

/// What is written of a job's results: a text file and a report.
pub struct Written {
    /// The name of the text file.
    pub text_file: String,
    /// What the text file holds.
    pub text: String,
    pub report: Report,
}

fn names_of(video: Option<Video>) -> (names: (String, String))
    ensures
        (names.0@, names.1@) == video_names(video),
{
    let mut bucket_name = String::new();
    let mut video_name = String::new();
    match video {
        Some(video) => match video.s3_object {
            Some(object) => {
                match object.bucket {
                    Some(b) => {
                        bucket_name.append(b.as_str());
                        assert(bucket_name@ =~= b@);
                    },
                    None => {},
                }
                match object.name {
                    Some(n) => {
                        video_name.append(n.as_str());
                        assert(video_name@ =~= n@);
                    },
                    None => {},
                }
            },
            None => {},
        },
        None => {},
    }
    (bucket_name, video_name)
}

/// The answer to a question for the faces of a video.
pub struct GetFaceInfo {
    pub job_status: Option<String>,
    pub status_message: Option<String>,
    pub job_id: Option<String>,
    pub video: Option<Video>,
    pub faces: Option<Vec<FaceDetection>>,
}

impl GetFaceInfo {
    /// Hands out the state of the job.
    pub fn job_status(&mut self) -> (status: Option<String>)
        ensures
            status == old(self).job_status,
            *final(self) == (GetFaceInfo { job_status: None, ..*old(self) }),
    {
        self.job_status.take()
    }

    /// Hands out what the service says of the job's state.
    pub fn status_message(&mut self) -> (message: Option<String>)
        ensures
            message == old(self).status_message,
            *final(self) == (GetFaceInfo { status_message: None, ..*old(self) }),
    {
        self.status_message.take()
    }

    /// Hands out the bucket and the name of the video.
    fn s3_object_details(&mut self) -> (names: (String, String))
        ensures
            (names.0@, names.1@) == video_names(old(self).video),
            *final(self) == (GetFaceInfo { video: None, ..*old(self) }),
    {
        names_of(self.video.take())
    }

    /// Hands out the faces.
    fn face_detection(&mut self) -> (faces: Vec<FaceDetection>)
        ensures
            faces@ == listed(old(self).faces),
            *final(self) == (GetFaceInfo { faces: None, ..*old(self) }),
    {
        match self.faces.take() {
            Some(faces) => faces,
            None => Vec::new(),
        }
    }

    /// Makes the text file and the report of the faces of a video, and hands
    /// out the job's identifier, its video and its faces on the way. The
    /// text file holds the entries of all faces; the report holds one table
    /// record for each part of each described face.
    pub fn write_face_detection_results_as_text_and_pdf(&mut self) -> (written: Written)
        ensures
            written.text_file@ == "Get_Face_Detection_Results.txt"@,
            written.text@ == faces_text(listed(old(self).faces)),
            written.report@ == face_result_report(
                face_headers(),
                faces_records(listed(old(self).faces)),
                text_or_empty(old(self).job_id),
                video_names(old(self).video).0,
                video_names(old(self).video).1,
            ),
            *final(self) == (GetFaceInfo { job_id: None, video: None, faces: None, ..*old(self) }),
    {
        let mut job_id = String::new();
        match self.job_id.take() {
            Some(id) => {
                job_id.append(id.as_str());
                assert(job_id@ =~= id@);
            },
            None => {},
        }
        let names = self.s3_object_details();
        let headers: Vec<&str> = vec![
            "Timestamp",
            "Gender and Confidence Level",
            "Age Range in Years",
            "Is the Face Smiling and Confidence Level",
            "Has a Beard and Confidence Level",
            "Has a Mustache and Confidence Level",
            "Has Sunglasses and Confidence Level",
            "Has Eyeglasses and Confidence Level",
            "Bounding Box Details",
        ];
        assert(crate::text::str_views(headers@) =~= face_headers());
        let faces = self.face_detection();
        let ghost all = faces@;
        let total: usize = faces.len();
        let mut rest = reversed(faces);
        let mut records: Vec<String> = Vec::new();
        let mut file = String::new();
        assert(all.take(0) =~= Seq::<FaceDetection>::empty());
        assert(views(records@) =~= faces_records(all.take(0)));
        while rest.len() > 0
            invariant
                rest@.len() <= total,
                total == all.len(),
                forall|j: int| 0 <= j < rest@.len() ==> rest@[j] == all[total - 1 - j],
                file@ == faces_text(all.take(total - rest@.len())),
                views(records@) == faces_records(all.take(total - rest@.len())),
            decreases rest.len(),
        {
            let ghost done = total - rest@.len();
            match rest.pop() {
                Some(face) => {
                    assert(face == all[done]);
                    assert(all.take(done + 1).drop_last() =~= all.take(done));
                    write_face(face, &mut file, &mut records);
                },
                None => {},
            }
        }
        assert(all.take(total as int) =~= all);
        let report = create_face_result_pdf(&headers, records, job_id.as_str(), names);
        Written { text_file: String::from_str("Get_Face_Detection_Results.txt"), text: file, report }
    }
}

/// Where a text stands in a picture.
#[derive(Clone, Debug)]
pub struct Geometry {
    pub bounding_box: Option<BoundingBox>,
}

/// What the service says of one text that it found.
#[derive(Clone, Debug)]
pub struct TextDetection {
    pub detected_text: Option<String>,
    /// Whether the text is a line or a word.
    pub text_type: Option<String>,
    pub confidence: Option<String>,
    pub geometry: Option<Geometry>,
}

/// One text of a video, with the moment it was seen at.
#[derive(Clone, Debug)]
pub struct TextDetectionResult {
    pub timestamp: i64,
    pub text_detection: Option<TextDetection>,
}

/// The frame of a text, where the text has a frame with all four sides.
pub open spec fn geometry_box(g: Option<Geometry>) -> Option<(String, String, String, String)> {
    match g {
        Some(g) => whole_box(g.bounding_box),
        None => None,
    }
}

/// A found text whose words are handed out once.
pub struct TextDetect(pub TextDetection);

impl TextDetect {
    pub fn build(type_: TextDetection) -> (out: Self)
        ensures
            out.0 == type_,
    {
        Self(type_)
    }

    /// Hands out the text that was found.
    pub fn detected_text(&mut self) -> (found: Option<String>)
        ensures
            found == old(self).0.detected_text,
            final(self).0 == (TextDetection { detected_text: None, ..old(self).0 }),
    {
        self.0.detected_text.take()
    }

    /// Whether the text is a line or a word.
    pub fn text_type(&self) -> (kind: Option<String>)
        ensures
            kind == self.0.text_type,
    {
        copy_of(&self.0.text_type)
    }

    /// How sure the service is of the text.
    pub fn confidence(&self) -> (level: Option<String>)
        ensures
            level == self.0.confidence,
    {
        copy_of(&self.0.confidence)
    }

    /// The frame of the text: width, height, left and top, all four or none.
    pub fn get_geometry_region(&self) -> (sides: (
        Option<String>,
        Option<String>,
        Option<String>,
        Option<String>,
    ))
        ensures
            sides == (match geometry_box(self.0.geometry) {
                Some((w, h, l, t)) => (Some(w), Some(h), Some(l), Some(t)),
                None => (None, None, None, None),
            }),
    {
        match &self.0.geometry {
            Some(region) => match &region.bounding_box {
                Some(bbox) => match (&bbox.width, &bbox.height, &bbox.left, &bbox.top) {
                    (Some(w), Some(h), Some(l), Some(t)) => (
                        Some(w.clone()),
                        Some(h.clone()),
                        Some(l.clone()),
                        Some(t.clone()),
                    ),
                    _ => (None, None, None, None),
                },
                None => (None, None, None, None),
            },
            None => (None, None, None, None),
        }
    }
}

/// The lines that one text of a video adds to the text file; none where the
/// text is not described.
pub open spec fn text_entry_text(r: TextDetectionResult) -> Seq<char> {
    match r.text_detection {
        Some(t) => "Timestamp: "@ + decimal(r.timestamp as int) + "\n"@ + line_if(
            "Detected Text: "@,
            t.detected_text,
            "\n"@,
        ) + line_if("Text Type: "@, t.text_type, "\n"@) + line_if(
            "Confidence Level: "@,
            t.confidence,
            "\n\n"@,
        ),
        None => Seq::empty(),
    }
}

/// The table records of one text of a video: its moment, then what is known
/// of its words, its kind and its confidence.
pub open spec fn text_entry_records(r: TextDetectionResult) -> Seq<Seq<char>> {
    match r.text_detection {
        Some(t) => seq![decimal(r.timestamp as int)] + record_if(t.detected_text) + record_if(
            t.text_type,
        ) + record_if(t.confidence),
        None => Seq::empty(),
    }
}

/// The text file of all the texts, in their order.
pub open spec fn texts_text(results: Seq<TextDetectionResult>) -> Seq<char>
    decreases results.len(),
{
    if results.len() == 0 {
        Seq::empty()
    } else {
        texts_text(results.drop_last()) + text_entry_text(results.last())
    }
}

/// The table records of all the texts, in their order.
pub open spec fn texts_records(results: Seq<TextDetectionResult>) -> Seq<Seq<char>>
    decreases results.len(),
{
    if results.len() == 0 {
        Seq::empty()
    } else {
        texts_records(results.drop_last()) + text_entry_records(results.last())
    }
}

/// Writes one text of a video to the text file and to the table records.
fn write_text(r: TextDetectionResult, file: &mut String, records: &mut Vec<String>)
    ensures
        final(file)@ == old(file)@ + text_entry_text(r),
        views(final(records)@) == views(old(records)@) + text_entry_records(r),
{
    match r.text_detection {
        Some(detection) => {
            let mut details = TextDetect::build(detection);
            let texts = details.detected_text();
            let text_type = details.text_type();
            let confidence = details.confidence();
            let moment = decimal_i64(r.timestamp);
            let mut entry = String::from_str("Timestamp: ");
            entry.append(moment.as_str());
            entry.append("\n");
            let mut kept: Vec<String> = Vec::new();
            kept.push(moment);
            assert(views(kept@) =~= seq![decimal(r.timestamp as int)]);
            write_if("Detected Text: ", texts, "\n", &mut entry, &mut kept);
            write_if("Text Type: ", text_type, "\n", &mut entry, &mut kept);
            write_if("Confidence Level: ", confidence, "\n\n", &mut entry, &mut kept);
            file.append(entry.as_str());
            push_all(records, kept);
        },
        None => {
            assert(file@ =~= old(file)@ + text_entry_text(r));
            assert(views(records@) =~= views(old(records)@) + text_entry_records(r));
        },
    }
}

/// The answer to a question for the texts of a video.
pub struct GetTextInfo {
    pub job_status: Option<String>,
    pub status_message: Option<String>,
    pub job_id: Option<String>,
    pub video: Option<Video>,
    pub text_detections: Option<Vec<TextDetectionResult>>,
}

/// The job's identifier, or what is written in its place.
pub open spec fn job_id_or_note(id: Option<String>) -> Seq<char> {
    match id {
        Some(id) => id@,
        None => "No Job ID is presented"@,
    }
}

impl GetTextInfo {
    /// Hands out the state of the job.
    pub fn job_status(&mut self) -> (status: Option<String>)
        ensures
            status == old(self).job_status,
            *final(self) == (GetTextInfo { job_status: None, ..*old(self) }),
    {
        self.job_status.take()
    }

    /// Hands out what the service says of the job's state.
    pub fn status_message(&mut self) -> (message: Option<String>)
        ensures
            message == old(self).status_message,
            *final(self) == (GetTextInfo { status_message: None, ..*old(self) }),
    {
        self.status_message.take()
    }

    /// Hands out the bucket and the name of the video.
    fn s3_details(&mut self) -> (names: (String, String))
        ensures
            (names.0@, names.1@) == video_names(old(self).video),
            *final(self) == (GetTextInfo { video: None, ..*old(self) }),
    {
        names_of(self.video.take())
    }

    /// Hands out the texts.
    fn text_detect_result(&mut self) -> (results: Vec<TextDetectionResult>)
        ensures
            results@ == listed(old(self).text_detections),
            *final(self) == (GetTextInfo { text_detections: None, ..*old(self) }),
    {
        match self.text_detections.take() {
            Some(results) => results,
            None => Vec::new(),
        }
    }

    /// Makes the text file and the report of the texts of a video, and hands
    /// out the job's identifier, its video and its texts on the way.
    pub fn write_text_detection_results_as_text_and_pdf(&mut self) -> (written: Written)
        ensures
            written.text_file@ == "Get_Text_Detection_Results.txt"@,
            written.text@ == texts_text(listed(old(self).text_detections)),
            written.report@ == text_result_report(
                text_headers(),
                texts_records(listed(old(self).text_detections)),
                job_id_or_note(old(self).job_id),
                video_names(old(self).video).0,
                video_names(old(self).video).1,
            ),
            *final(self) == (GetTextInfo {
                job_id: None,
                video: None,
                text_detections: None,
                ..*old(self)
            }),
    {
        let job_id = match self.job_id.take() {
            Some(id) => id,
            None => String::from_str("No Job ID is presented"),
        };
        let results = self.text_detect_result();
        let headers: Vec<&str> = vec![
            "Timestamp",
            "Detected text",
            "Text Type",
            "Confidence Level",
        ];
        assert(crate::text::str_views(headers@) =~= text_headers());
        let names = self.s3_details();
        let ghost all = results@;
        let total: usize = results.len();
        let mut rest = reversed(results);
        let mut records: Vec<String> = Vec::new();
        let mut file = String::new();
        assert(all.take(0) =~= Seq::<TextDetectionResult>::empty());
        assert(views(records@) =~= texts_records(all.take(0)));
        while rest.len() > 0
            invariant
                rest@.len() <= total,
                total == all.len(),
                forall|j: int| 0 <= j < rest@.len() ==> rest@[j] == all[total - 1 - j],
                file@ == texts_text(all.take(total - rest@.len())),
                views(records@) == texts_records(all.take(total - rest@.len())),
            decreases rest.len(),
        {
            let ghost done = total - rest@.len();
            match rest.pop() {
                Some(result) => {
                    assert(result == all[done]);
                    assert(all.take(done + 1).drop_last() =~= all.take(done));
                    write_text(result, &mut file, &mut records);
                },
                None => {},
            }
        }
        assert(all.take(total as int) =~= all);
        let report = create_text_result_pdf(&headers, records, job_id, names);
        Written { text_file: String::from_str("Get_Text_Detection_Results.txt"), text: file, report }
    }
}

/// A picture that a liveness check kept.
#[derive(Clone, Debug)]
pub struct AuditImage {
    pub s3_object: Option<S3Object>,
    pub bounding_box: Option<BoundingBox>,
}

/// The outcome of a liveness check.
pub struct LivenessOutput {
    pub status: Option<String>,
    pub confidence: Option<String>,
    pub reference_image: Option<AuditImage>,
}

/// Where the reference picture of a liveness check lies, and the frame of
/// the face in it.
pub struct RefImageType {
    pub bucket_name: Option<String>,
    pub key_name: Option<String>,
    pub width: Option<String>,
    pub height: Option<String>,
    pub left: Option<String>,
    pub top: Option<String>,
}

/// What is known of a reference picture: nothing where the check kept no
/// picture; an empty answer where the picture lacks its object or its frame.
pub open spec fn reference_of(image: Option<AuditImage>) -> Option<Option<RefImageType>> {
    match image {
        Some(AuditImage { s3_object: Some(o), bounding_box: Some(b) }) => Some(
            Some(
                RefImageType {
                    bucket_name: o.bucket,
                    key_name: o.name,
                    width: b.width,
                    height: b.height,
                    left: b.left,
                    top: b.top,
                },
            ),
        ),
        Some(_) => Some(None),
        None => None,
    }
}

impl LivenessOutput {
    /// The state of the check.
    pub fn get_liveness_status(&self) -> (status: Option<&str>)
        ensures
            status is Some == self.status is Some,
            status is Some ==> status->0@ == self.status->0@,
    {
        match &self.status {
            Some(s) => Some(s.as_str()),
            None => None,
        }
    }

    /// How sure the service is that the face is live.
    pub fn get_confidence(&self) -> (level: Option<String>)
        ensures
            level == self.confidence,
    {
        copy_of(&self.confidence)
    }

    /// Where the reference picture lies and the frame of the face in it.
    pub fn get_reference_image_type(&self) -> (reference: Option<Option<RefImageType>>)
        ensures
            reference == reference_of(self.reference_image),
    {
        match &self.reference_image {
            Some(image) => match (&image.s3_object, &image.bounding_box) {
                (Some(object), Some(bbox)) => Some(
                    Some(
                        RefImageType {
                            bucket_name: copy_of(&object.bucket),
                            key_name: copy_of(&object.name),
                            width: copy_of(&bbox.width),
                            height: copy_of(&bbox.height),
                            left: copy_of(&bbox.left),
                            top: copy_of(&bbox.top),
                        },
                    ),
                ),
                _ => Some(None),
            },
            None => None,
        }
    }
}

impl RefImageType {
    /// The bucket and the key of the picture.
    pub fn get_s3_info(&self) -> (info: (Option<&str>, Option<&str>))
        ensures
            info.0 is Some == self.bucket_name is Some,
            info.0 is Some ==> info.0->0@ == self.bucket_name->0@,
            info.1 is Some == self.key_name is Some,
            info.1 is Some ==> info.1->0@ == self.key_name->0@,
    {
        let bucket = match &self.bucket_name {
            Some(s) => Some(s.as_str()),
            None => None,
        };
        let key = match &self.key_name {
            Some(s) => Some(s.as_str()),
            None => None,
        };
        (bucket, key)
    }

    /// The frame of the face: width, height, left and top.
    pub fn get_bounding_box_info(&self) -> (sides: (
        Option<String>,
        Option<String>,
        Option<String>,
        Option<String>,
    ))
        ensures
            sides == (self.width, self.height, self.left, self.top),
    {
        (copy_of(&self.width), copy_of(&self.height), copy_of(&self.left), copy_of(&self.top))
    }
}

/// The part that a well-known actor is famous for, in brackets; empty for
/// every other name.
pub open spec fn role_of(name: Seq<char>) -> Seq<char> {
    if name == "Ralph Fiennes"@ {
        "(voldemort)"@
    } else if name == "Chris Hemsworth"@ {
        "(Odin Son Thor)"@
    } else if name == "Tom Hiddleston"@ {
        "(Loki)"@
    } else if name == "Johnny Depp"@ {
        "(Captain Jack Sparrow)"@
    } else if name == "Tom Holland"@ {
        "(Little Spider Man)"@
    } else if name == "Tobey Maguire"@ {
        "(Amazing Spider Man)"@
    } else if name == "Andrew Garfield"@ {
        "(Amazing Spider Man)"@
    } else if name == "Robert Downey Jr."@ {
        "(Iron Man)"@
    } else if name == "Tom Felton"@ {
        "(Draco Malfoy)"@
    } else if name == "Rupert Grint"@ {
        "(Ron Weasley)"@
    } else if name == "Emma Watson"@ {
        "(Hermione Granger)"@
    } else if name == "Daniel Radcliffe"@ {
        "(Harry Potter)"@
    } else if name == "Mark Alan"@ {
        "(Hulk)"@
    } else if name == "Chris Evans"@ {
        "(Captain America)"@
    } else if name == "Chadwick Boseman"@ {
        "(Black Panther)"@
    } else if name == "Vin Diesel"@ {
        "(Dominic Toretto,I'm Groot)"@
    } else if name == "Paul Walker"@ {
        "(Car Racer)"@
    } else if name == "Joseph Vijay"@ {
        "(Ilaya Thalapathy)"@
    } else if name == "Rajinikanth"@ {
        "(Super Star)"@
    } else if name == "Kamal Haasan"@ {
        "(Ulaga Nayagan)"@
    } else if name == "Ajith Kumar"@ {
        "(Ultimate Star)"@
    } else {
        Seq::empty()
    }
}

fn role(name: &str) -> (out: &'static str)
    ensures
        out@ == role_of(name@),
{
    if same_text(name, "Ralph Fiennes") {
        "(voldemort)"
    } else if same_text(name, "Chris Hemsworth") {
        "(Odin Son Thor)"
    } else if same_text(name, "Tom Hiddleston") {
        "(Loki)"
    } else if same_text(name, "Johnny Depp") {
        "(Captain Jack Sparrow)"
    } else if same_text(name, "Tom Holland") {
        "(Little Spider Man)"
    } else if same_text(name, "Tobey Maguire") {
        "(Amazing Spider Man)"
    } else if same_text(name, "Andrew Garfield") {
        "(Amazing Spider Man)"
    } else if same_text(name, "Robert Downey Jr.") {
        "(Iron Man)"
    } else if same_text(name, "Tom Felton") {
        "(Draco Malfoy)"
    } else if same_text(name, "Rupert Grint") {
        "(Ron Weasley)"
    } else if same_text(name, "Emma Watson") {
        "(Hermione Granger)"
    } else if same_text(name, "Daniel Radcliffe") {
        "(Harry Potter)"
    } else if same_text(name, "Mark Alan") {
        "(Hulk)"
    } else if same_text(name, "Chris Evans") {
        "(Captain America)"
    } else if same_text(name, "Chadwick Boseman") {
        "(Black Panther)"
    } else if same_text(name, "Vin Diesel") {
        "(Dominic Toretto,I'm Groot)"
    } else if same_text(name, "Paul Walker") {
        "(Car Racer)"
    } else if same_text(name, "Joseph Vijay") {
        "(Ilaya Thalapathy)"
    } else if same_text(name, "Rajinikanth") {
        "(Super Star)"
    } else if same_text(name, "Kamal Haasan") {
        "(Ulaga Nayagan)"
    } else if same_text(name, "Ajith Kumar") {
        "(Ultimate Star)"
    } else {
        proof {
            reveal_strlit("");
        }
        assert(""@ =~= Seq::<char>::empty());
        ""
    }
}

/// A face that was compared with the faces of well-known people.
#[derive(Clone, Debug)]
pub struct ComparedFace {
    pub bounding_box: Option<BoundingBox>,
    pub smile: Option<Trait>,
}

/// A well-known person that the service recognised in a picture.
#[derive(Clone, Debug)]
pub struct Celebrity {
    pub name: Option<String>,
    pub id: Option<String>,
    pub known_gender: Option<String>,
    pub face: Option<ComparedFace>,
}

/// A name with the part that its bearer is famous for.
pub open spec fn famous_for(name: Seq<char>) -> Seq<char> {
    name + role_of(name)
}

/// How the frame of a celebrity's face stands in a report; empty where a
/// side is missing.
pub open spec fn celebrity_box_text(b: Option<BoundingBox>) -> Seq<char> {
    match whole_box(b) {
        Some((w, h, l, t)) => "Width: "@ + w@ + ",Height: "@ + h@ + ",Left: "@ + l@ + ",Top: "@
            + t@,
        None => Seq::empty(),
    }
}

/// The end of a line: a line feed in the text file of an album entry,
/// nothing in that of a single picture.
pub open spec fn line_end(album: bool) -> Seq<char> {
    if album {
        "\n"@
    } else {
        Seq::empty()
    }
}

/// The line of a celebrity's name.
pub open spec fn name_line(name: Option<String>) -> Seq<char> {
    match name {
        Some(n) => "Celebrity Name: "@ + famous_for(n@) + "\n"@,
        None => Seq::empty(),
    }
}

/// The line of the frame of a celebrity's face; none without a whole frame.
pub open spec fn box_line(b: Option<BoundingBox>, album: bool) -> Seq<char> {
    if whole_box(b) is Some {
        (if album {
            "Celebrity Bounding Box Details: "@
        } else {
            "Bouding Box Details: "@
        }) + celebrity_box_text(b) + "\n"@
    } else {
        Seq::empty()
    }
}

/// The line of a celebrity's smile.
pub open spec fn smile_line(smile: Option<Trait>, album: bool) -> Seq<char> {
    match smile {
        Some(s) => (if album {
            "Is Celebrity Smiling?: "@
        } else {
            "Is the Celebrity Smiling: "@
        }) + truth_text(s.value) + line_end(album),
        None => Seq::empty(),
    }
}

/// The lines of a celebrity's face.
pub open spec fn face_lines(face: Option<ComparedFace>, album: bool) -> Seq<char> {
    match face {
        Some(f) => box_line(f.bounding_box, album) + smile_line(f.smile, album),
        None => Seq::empty(),
    }
}

/// The lines that one celebrity adds to the text file.
pub open spec fn celebrity_entry_text(c: Celebrity, album: bool) -> Seq<char> {
    name_line(c.name) + line_if("Celebrity Amazon ID: "@, c.id, "\n"@) + line_if(
        "Celebrity Gender: "@,
        c.known_gender,
        line_end(album),
    ) + face_lines(c.face, album)
}

/// The record of a celebrity's name.
pub open spec fn name_record(name: Option<String>) -> Seq<Seq<char>> {
    match name {
        Some(n) => seq![famous_for(n@)],
        None => Seq::empty(),
    }
}

/// The records of a celebrity's face: the frame, which is empty where a side
/// is missing, and the smile where it is known.
pub open spec fn face_records(face: Option<ComparedFace>) -> Seq<Seq<char>> {
    match face {
        Some(f) => match f.smile {
            Some(s) => seq![celebrity_box_text(f.bounding_box), truth_text(s.value)],
            None => seq![celebrity_box_text(f.bounding_box)],
        },
        None => Seq::empty(),
    }
}

/// The table records of one celebrity.
pub open spec fn celebrity_entry_records(c: Celebrity) -> Seq<Seq<char>> {
    name_record(c.name) + record_if(c.id) + record_if(c.known_gender) + face_records(c.face)
}

/// The text file of all the celebrities, in their order.
pub open spec fn celebrities_text(found: Seq<Celebrity>, album: bool) -> Seq<char>
    decreases found.len(),
{
    if found.len() == 0 {
        Seq::empty()
    } else {
        celebrities_text(found.drop_last(), album) + celebrity_entry_text(found.last(), album)
    }
}

/// The table records of all the celebrities, in their order.
pub open spec fn celebrities_records(found: Seq<Celebrity>) -> Seq<Seq<char>>
    decreases found.len(),
{
    if found.len() == 0 {
        Seq::empty()
    } else {
        celebrities_records(found.drop_last()) + celebrity_entry_records(found.last())
    }
}

/// The column of headers beside the celebrity records.
pub open spec fn celebrity_headers() -> Seq<Seq<char>> {
    seq![
        "Celebrity Name"@,
        "Unique Celebrity Identifier"@,
        "Gender of the Celebrity"@,
        "Face Location of the Celebrity's Face"@,
        "Is the Celebrity Smiling?"@,
    ]
}

fn end_of_line(album: bool) -> (end: &'static str)
    ensures
        end@ == line_end(album),
{
    if album {
        "\n"
    } else {
        proof {
            reveal_strlit("");
        }
        assert(""@ =~= Seq::<char>::empty());
        ""
    }
}

fn celebrity_box_string(b: &Option<BoundingBox>) -> (out: Option<String>)
    ensures
        out is Some == whole_box(*b) is Some,
        out is Some ==> out->0@ == celebrity_box_text(*b),
{
    match b {
        Some(bbox) => match (&bbox.width, &bbox.height, &bbox.left, &bbox.top) {
            (Some(w), Some(h), Some(l), Some(t)) => {
                let mut out = String::from_str("Width: ");
                out.append(w.as_str());
                out.append(",Height: ");
                out.append(h.as_str());
                out.append(",Left: ");
                out.append(l.as_str());
                out.append(",Top: ");
                out.append(t.as_str());
                Some(out)
            },
            _ => None,
        },
        None => None,
    }
}

fn write_celebrity_name(name: &Option<String>, file: &mut String, records: &mut Vec<String>)
    ensures
        final(file)@ == old(file)@ + name_line(*name),
        views(final(records)@) == views(old(records)@) + name_record(*name),
{
    match name {
        Some(n) => {
            let mut famous = n.clone();
            famous.append(role(n.as_str()));
            file.append("Celebrity Name: ");
            file.append(famous.as_str());
            file.append("\n");
            assert(file@ =~= old(file)@ + name_line(*name));
            records.push(famous);
            assert(views(records@) =~= views(old(records)@) + name_record(*name));
        },
        None => {
            assert(file@ =~= old(file)@ + name_line(*name));
            assert(views(records@) =~= views(old(records)@) + name_record(*name));
        },
    }
}

fn write_celebrity_face(
    face: &Option<ComparedFace>,
    album: bool,
    file: &mut String,
    records: &mut Vec<String>,
)
    ensures
        final(file)@ == old(file)@ + face_lines(*face, album),
        views(final(records)@) == views(old(records)@) + face_records(*face),
{
    match face {
        Some(f) => {
            let mut frame = String::new();
            match celebrity_box_string(&f.bounding_box) {
                Some(text) => {
                    file.append(
                        if album {
                            "Celebrity Bounding Box Details: "
                        } else {
                            "Bouding Box Details: "
                        },
                    );
                    file.append(text.as_str());
                    file.append("\n");
                    frame.append(text.as_str());
                    assert(frame@ =~= celebrity_box_text(f.bounding_box));
                },
                None => {},
            }
            assert(file@ =~= old(file)@ + box_line(f.bounding_box, album));
            records.push(frame);
            match &f.smile {
                Some(s) => {
                    let smiling = truth(s.value);
                    file.append(
                        if album {
                            "Is Celebrity Smiling?: "
                        } else {
                            "Is the Celebrity Smiling: "
                        },
                    );
                    file.append(smiling.as_str());
                    file.append(end_of_line(album));
                    records.push(smiling);
                },
                None => {},
            }
            assert(file@ =~= old(file)@ + face_lines(*face, album));
            assert(views(records@) =~= views(old(records)@) + face_records(*face));
        },
        None => {
            assert(file@ =~= old(file)@ + face_lines(*face, album));
            assert(views(records@) =~= views(old(records)@) + face_records(*face));
        },
    }
}

/// Writes one celebrity to the text file and to the table records.
fn write_celebrity(c: &Celebrity, album: bool, file: &mut String, records: &mut Vec<String>)
    ensures
        final(file)@ == old(file)@ + celebrity_entry_text(*c, album),
        views(final(records)@) == views(old(records)@) + celebrity_entry_records(*c),
{
    let mut entry = String::new();
    let mut kept: Vec<String> = Vec::new();
    assert(views(kept@) =~= Seq::<Seq<char>>::empty());
    write_celebrity_name(&c.name, &mut entry, &mut kept);
    write_if("Celebrity Amazon ID: ", copy_of(&c.id), "\n", &mut entry, &mut kept);
    write_if(
        "Celebrity Gender: ",
        copy_of(&c.known_gender),
        end_of_line(album),
        &mut entry,
        &mut kept,
    );
    write_celebrity_face(&c.face, album, &mut entry, &mut kept);
    assert(entry@ =~= celebrity_entry_text(*c, album));
    assert(views(kept@) =~= celebrity_entry_records(*c));
    file.append(entry.as_str());
    push_all(records, kept);
}

/// The text file and the table records of the celebrities of one picture.
/// `album` says whether the picture is one of many that share a report.
pub fn celebrity_details(found: &Vec<Celebrity>, album: bool) -> (out: (String, Vec<String>))
    ensures
        out.0@ == celebrities_text(found@, album),
        views(out.1@) == celebrities_records(found@),
{
    let mut file = String::new();
    let mut records: Vec<String> = Vec::new();
    let mut i: usize = 0;
    assert(found@.take(0) =~= Seq::<Celebrity>::empty());
    assert(views(records@) =~= celebrities_records(found@.take(0)));
    while i < found.len()
        invariant
            i <= found.len(),
            file@ == celebrities_text(found@.take(i as int), album),
            views(records@) == celebrities_records(found@.take(i as int)),
        decreases found.len() - i,
    {
        assert(found@.take(i + 1).drop_last() =~= found@.take(i as int));
        write_celebrity(&found[i], album, &mut file, &mut records);
        i = i + 1;
    }
    assert(found@.take(i as int) =~= found@);
    (file, records)
}

/// The five headers beside the celebrity records.
pub fn celebrity_header_list() -> (headers: Vec<String>)
    ensures
        views(headers@) == celebrity_headers(),
{
    let mut headers: Vec<String> = Vec::new();
    headers.push(String::from_str("Celebrity Name"));
    headers.push(String::from_str("Unique Celebrity Identifier"));
    headers.push(String::from_str("Gender of the Celebrity"));
    headers.push(String::from_str("Face Location of the Celebrity's Face"));
    headers.push(String::from_str("Is the Celebrity Smiling?"));
    assert(views(headers@) =~= celebrity_headers());
    headers
}

/// What is written of the celebrities of one picture: a text file and,
/// where the picture can be shown, a report.
pub struct Recognized {
    /// The name of the text file.
    pub text_file: String,
    /// What the text file holds.
    pub text: String,
    pub pdf: Option<CelebrityPdf>,
}

/// What is written of the celebrities that were recognised in one picture:
/// to `CelebrityDetails.txt`, the lines of every celebrity; to the report,
/// the picture and the records of every celebrity. Nothing is written where
/// the service names no celebrities.
pub fn recognize_celebrities(
    celebrity_faces: &Option<Vec<Celebrity>>,
    local_image_path: Option<&str>,
    bucket_name: Option<&str>,
    image_key_name: Option<&str>,
) -> (out: Option<Recognized>)
    ensures
        match *celebrity_faces {
            Some(found) => out is Some && out->0.text_file@ == "CelebrityDetails.txt"@
                && out->0.text@ == celebrities_text(found@, false) && is_celebrity_pdf(
                out->0.pdf,
                celebrity_headers(),
                celebrities_records(found@),
                local_image_path,
                bucket_name,
                image_key_name,
            ),
            None => out is None,
        },
{
    match celebrity_faces {
        Some(found) => {
            let headers = celebrity_header_list();
            let (text, records) = celebrity_details(found, false);
            let pdf = create_celebrity_pdf(
                headers,
                records,
                local_image_path,
                (bucket_name, image_key_name),
            );
            Some(Recognized { text_file: String::from_str("CelebrityDetails.txt"), text, pdf })
        },
        None => None,
    }
}

/// The faces that were detected in a picture, each ready to hand out its
/// parts.
pub fn detect_faces(face_details: Option<Vec<FaceDetail>>) -> (out: Vec<FaceDetails>)
    ensures
        out@.len() == listed(face_details).len(),
        forall|k: int| 0 <= k < out@.len() ==> out@[k] == FaceDetails(listed(face_details)[k]),
{
    let mut out: Vec<FaceDetails> = Vec::new();
    match face_details {
        Some(list) => {
            let total: usize = list.len();
            let mut rest = reversed(list);
            while rest.len() > 0
                invariant
                    rest@.len() <= total,
                    total == face_details->0@.len(),
                    out@.len() == total - rest@.len(),
                    forall|j: int|
                        0 <= j < rest@.len() ==> rest@[j] == face_details->0@[total - 1 - j],
                    forall|k: int|
                        0 <= k < out@.len() ==> out@[k] == FaceDetails(face_details->0@[k]),
                decreases rest.len(),
            {
                match rest.pop() {
                    Some(face) => out.push(FaceDetails::build(face)),
                    None => {},
                }
            }
        },
        None => {},
    }
    out
}

/// The texts that were detected in a picture, each ready to hand out its
/// words.
pub fn detect_texts(text_detections: Option<Vec<TextDetection>>) -> (out: Vec<TextDetect>)
    ensures
        out@.len() == listed(text_detections).len(),
        forall|k: int| 0 <= k < out@.len() ==> out@[k] == TextDetect(listed(text_detections)[k]),
{
    let mut out: Vec<TextDetect> = Vec::new();
    match text_detections {
        Some(list) => {
            let total: usize = list.len();
            let mut rest = reversed(list);
            while rest.len() > 0
                invariant
                    rest@.len() <= total,
                    total == text_detections->0@.len(),
                    out@.len() == total - rest@.len(),
                    forall|j: int|
                        0 <= j < rest@.len() ==> rest@[j] == text_detections->0@[total - 1 - j],
                    forall|k: int|
                        0 <= k < out@.len() ==> out@[k] == TextDetect(text_detections->0@[k]),
                decreases rest.len(),
            {
                match rest.pop() {
                    Some(text) => out.push(TextDetect::build(text)),
                    None => {},
                }
            }
        },
        None => {},
    }
    out
}

/// What is said of a collection that was created: its resource name, the
/// version of its face model and the status code, as far as they are known.
pub fn create_collection(
    collection_arn: &Option<String>,
    face_model_version: &Option<String>,
    status_code: Option<i32>,
) -> (lines: Vec<String>)
    ensures
        views(lines@) == said_if("Collection Arn: "@, *collection_arn, Seq::empty()) + said_if(
            "Model Version: "@,
            *face_model_version,
            Seq::empty(),
        ) + said_of("Status Code: "@, number_view(status_code), "\n\n"@),
{
    proof {
        reveal_strlit("");
        assert(""@ =~= Seq::<char>::empty());
    }
    let mut lines: Vec<String> = Vec::new();
    assert(views(lines@) =~= Seq::<Seq<char>>::empty());
    say_if(&mut lines, "Collection Arn: ", collection_arn, "");
    assert(views(lines@) =~= said_if("Collection Arn: "@, *collection_arn, Seq::empty()));
    say_if(&mut lines, "Model Version: ", face_model_version, "");
    say_if(&mut lines, "Status Code: ", &crate::text::number_text(status_code), "\n\n");
    lines
}

/// What is written of a text-detection job that was started, to
/// `start_text_detection_job_id.txt`.
pub fn start_text_detection_task(job_id: &str) -> (record: String)
    ensures
        record@ == "The Job ID for initiating text detection is: "@ + job_id@,
{
    crate::text::joined("The Job ID for initiating text detection is: ", job_id)
}

/// What is written of a face-detection job that was started, to
/// `start_face_detection_job_id.txt`.
pub fn start_face_detection_task(job_id: &str) -> (record: String)
    ensures
        record@ == "The Job ID for initiating face detection is: "@ + job_id@,
{
    crate::text::joined("The Job ID for initiating face detection is: ", job_id)
}

/// What is written of a liveness session that was created, to
/// `session_id.txt`.
pub fn create_face_liveness(session_id: &str, bucket_name: &str) -> (record: String)
    ensures
        record@ == "The session identifier is: "@ + session_id@
            + "\nThe key prefix for the S3 object is set to 'faceliveness/' in the bucket named "@
            + bucket_name@,
{
    let mut record = String::from_str("The session identifier is: ");
    record.append(session_id);
    record.append(
        "\nThe key prefix for the S3 object is set to 'faceliveness/' in the bucket named ",
    );
    record.append(bucket_name);
    record
}

} // verus!
