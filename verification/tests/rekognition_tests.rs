use aws_apis::rekognition_ops::{celebrity_details, create_collection, create_face_liveness,
    detect_faces, detect_texts, recognize_celebrities, start_face_detection_task,
    start_text_detection_task, AgeRange, AuditImage, BoundingBox, Celebrity, ComparedFace,
    FaceDetail, FaceDetection, FaceDetails, Gender, Geometry, GetFaceInfo, GetTextInfo,
    LivenessOutput, S3Object, TextDetect, TextDetection, TextDetectionResult, Trait, Video};

fn some(s: &str) -> Option<String> {
    Some(s.to_string())
}

fn strings(items: &[&str]) -> Vec<String> {
    items.iter().map(|s| s.to_string()).collect()
}

fn full_box() -> BoundingBox {
    BoundingBox { width: some("0.5"), height: some("0.25"), left: some("0.1"), top: some("0.2") }
}

fn full_face() -> FaceDetail {
    FaceDetail {
        bounding_box: Some(full_box()),
        age_range: Some(AgeRange { low: Some(20), high: Some(30) }),
        smile: Some(Trait { value: true, confidence: some("98.5") }),
        eyeglasses: Some(Trait { value: false, confidence: some("99") }),
        sunglasses: Some(Trait { value: false, confidence: None }),
        gender: Some(Gender { value: some("Female"), confidence: some("97.25") }),
        beard: None,
        mustache: Some(Trait { value: false, confidence: some("90.1") }),
    }
}

#[test]
fn face_details_hand_out_each_part_once() {
    let mut details = FaceDetails::build(full_face());
    assert_eq!(details.gender(), (some("Female"), some("97.25")));
    assert_eq!(details.gender(), (None, None));
    assert_eq!(details.age_range(), (Some(20), Some(30)));
    assert_eq!(details.age_range(), (None, None));
    assert_eq!(details.smile(), (Some(true), some("98.5")));
    assert_eq!(details.smile(), (None, None));
    assert_eq!(details.eyeglasses(), (Some(false), some("99")));
    assert_eq!(details.sunglasses(), (Some(false), None));
    assert_eq!(details.beard(), (None, None));
    assert_eq!(details.mustache(), (Some(false), some("90.1")));
    assert_eq!(details.bounding_box(), (some("0.5"), some("0.25"), some("0.1"), some("0.2")));
    assert_eq!(details.bounding_box(), (None, None, None, None));
}

#[test]
fn gender_needs_value_and_confidence() {
    let mut face = full_face();
    face.gender = Some(Gender { value: some("Male"), confidence: None });
    assert_eq!(FaceDetails::build(face).gender(), (None, None));
    let mut face = full_face();
    face.gender = Some(Gender { value: None, confidence: some("1") });
    assert_eq!(FaceDetails::build(face).gender(), (None, None));
}

fn face_info(faces: Option<Vec<FaceDetection>>) -> GetFaceInfo {
    GetFaceInfo {
        job_status: some("SUCCEEDED"),
        status_message: some("fine"),
        job_id: some("job-7"),
        video: Some(Video {
            s3_object: Some(S3Object { bucket: some("bucket"), name: some("clip.mp4") }),
        }),
        faces,
    }
}

#[test]
fn face_detection_results_as_text_and_pdf() {
    let mut info = face_info(Some(vec![
        FaceDetection { timestamp: 0, face: Some(full_face()) },
        FaceDetection { timestamp: 500, face: None },
    ]));
    let written = info.write_face_detection_results_as_text_and_pdf();
    assert_eq!(written.text_file, "Get_Face_Detection_Results.txt");
    assert_eq!(
        written.text,
        "Timestamp: 0\n\
Gender and Confidence Level: Female and 97.25\n\
Age Range in Years: The lowest age prediction is 20, and the highest age prediction is 30\n\
Is the Face Smiling and Confidence Level: true,98.5\n\
Has a Beard and Confidence Level: \n\
Has a Mustache and Confidence Level: false,90.1\n\
Has Sunglasses and Confidence Level: \n\
Has Eyeglasses and Confidence Level: false,99\n\
Bounding Box Details: Width: 0.5, Height: 0.25, Left: 0.1, Top: 0.2\n\n\n\
Timestamp: 500\n"
    );
    assert_eq!(written.report.file_name, "Face_Detection_Results.pdf");
    assert_eq!(written.report.blocks.len(), 7);
    match &written.report.blocks[6] {
        aws_apis::pdf_writer::Block::Grid { table } => {
            // two title rows, nine records, one empty row after the ninth
            assert_eq!(table.rows.len(), 12);
            match &table.rows[2] {
                aws_apis::pdf_writer::Row::Cells(cells) => {
                    assert_eq!(cells[0].text, "Timestamp");
                    assert_eq!(cells[1].text, "0");
                }
                _ => panic!("a row of cells"),
            }
            match &table.rows[10] {
                aws_apis::pdf_writer::Row::Cells(cells) => {
                    assert_eq!(cells[0].text, "Bounding Box Details");
                    assert_eq!(cells[1].text, "Width: 0.5, Height: 0.25, Left: 0.1, Top: 0.2");
                }
                _ => panic!("a row of cells"),
            }
            assert!(matches!(table.rows[11], aws_apis::pdf_writer::Row::Gap));
        }
        _ => panic!("the table comes last"),
    }
    match &written.report.blocks[2] {
        aws_apis::pdf_writer::Block::Paragraph { text, .. } => assert_eq!(text, "Job ID:  job-7"),
        _ => panic!("a paragraph"),
    }
    // what was written has been handed out
    assert!(info.job_id.is_none());
    assert!(info.video.is_none());
    assert!(info.faces.is_none());
    assert_eq!(info.job_status(), some("SUCCEEDED"));
    assert_eq!(info.job_status(), None);
    assert_eq!(info.status_message(), some("fine"));
    let again = info.write_face_detection_results_as_text_and_pdf();
    assert_eq!(again.text, "");
    match &again.report.blocks[2] {
        aws_apis::pdf_writer::Block::Paragraph { text, .. } => assert_eq!(text, "Job ID:  "),
        _ => panic!("a paragraph"),
    }
}

#[test]
fn text_detection_results_as_text_and_pdf() {
    let mut info = GetTextInfo {
        job_status: some("SUCCEEDED"),
        status_message: None,
        job_id: None,
        video: Some(Video { s3_object: None }),
        text_detections: Some(vec![
            TextDetectionResult {
                timestamp: 40,
                text_detection: Some(TextDetection {
                    detected_text: some("EXIT"),
                    text_type: some("LINE"),
                    confidence: some("99.5"),
                    geometry: None,
                }),
            },
            TextDetectionResult { timestamp: 80, text_detection: None },
            TextDetectionResult {
                timestamp: -3,
                text_detection: Some(TextDetection {
                    detected_text: None,
                    text_type: some("WORD"),
                    confidence: None,
                    geometry: None,
                }),
            },
        ]),
    };
    let written = info.write_text_detection_results_as_text_and_pdf();
    assert_eq!(written.text_file, "Get_Text_Detection_Results.txt");
    assert_eq!(
        written.text,
        "Timestamp: 40\nDetected Text: EXIT\nText Type: LINE\nConfidence Level: 99.5\n\nTimestamp: -3\nText Type: WORD\n"
    );
    match &written.report.blocks[2] {
        aws_apis::pdf_writer::Block::Paragraph { text, .. } => {
            assert_eq!(text, "Job ID:  No Job ID is presented")
        }
        _ => panic!("a paragraph"),
    }
    match &written.report.blocks[3] {
        aws_apis::pdf_writer::Block::Paragraph { text, .. } => assert_eq!(text, "Bucket Name:  "),
        _ => panic!("a paragraph"),
    }
    match &written.report.blocks[6] {
        aws_apis::pdf_writer::Block::Grid { table } => {
            // two title rows, six records, one empty row after the fourth
            assert_eq!(table.rows.len(), 9);
            assert!(matches!(table.rows[6], aws_apis::pdf_writer::Row::Gap));
            match &table.rows[7] {
                aws_apis::pdf_writer::Row::Cells(cells) => {
                    assert_eq!(cells[0].text, "Timestamp");
                    assert_eq!(cells[1].text, "-3");
                }
                _ => panic!("a row of cells"),
            }
            match &table.rows[8] {
                aws_apis::pdf_writer::Row::Cells(cells) => {
                    assert_eq!(cells[0].text, "Detected text");
                    assert_eq!(cells[1].text, "WORD");
                }
                _ => panic!("a row of cells"),
            }
        }
        _ => panic!("the table comes last"),
    }
    assert!(info.text_detections.is_none());
    assert_eq!(info.job_status(), some("SUCCEEDED"));
    assert_eq!(info.status_message(), None);
}

#[test]
fn text_detect_hands_out_words_once() {
    let mut text = TextDetect::build(TextDetection {
        detected_text: some("STOP"),
        text_type: some("WORD"),
        confidence: some("88"),
        geometry: Some(Geometry { bounding_box: Some(full_box()) }),
    });
    assert_eq!(text.detected_text(), some("STOP"));
    assert_eq!(text.detected_text(), None);
    assert_eq!(text.text_type(), some("WORD"));
    assert_eq!(text.text_type(), some("WORD"));
    assert_eq!(text.confidence(), some("88"));
    assert_eq!(
        text.get_geometry_region(),
        (some("0.5"), some("0.25"), some("0.1"), some("0.2"))
    );
    let mut partial = full_box();
    partial.left = None;
    let text = TextDetect::build(TextDetection {
        detected_text: None,
        text_type: None,
        confidence: None,
        geometry: Some(Geometry { bounding_box: Some(partial) }),
    });
    assert_eq!(text.get_geometry_region(), (None, None, None, None));
}

#[test]
fn liveness_output_reference_image() {
    let output = LivenessOutput {
        status: some("SUCCEEDED"),
        confidence: some("99.9"),
        reference_image: Some(AuditImage {
            s3_object: Some(S3Object { bucket: some("b"), name: some("k") }),
            bounding_box: Some(full_box()),
        }),
    };
    assert_eq!(output.get_liveness_status(), Some("SUCCEEDED"));
    assert_eq!(output.get_confidence(), some("99.9"));
    let reference = output.get_reference_image_type().unwrap().unwrap();
    assert_eq!(reference.get_s3_info(), (Some("b"), Some("k")));
    assert_eq!(
        reference.get_bounding_box_info(),
        (some("0.5"), some("0.25"), some("0.1"), some("0.2"))
    );
    let without_box = LivenessOutput {
        status: None,
        confidence: None,
        reference_image: Some(AuditImage { s3_object: None, bounding_box: Some(full_box()) }),
    };
    assert!(matches!(without_box.get_reference_image_type(), Some(None)));
    let nothing = LivenessOutput { status: None, confidence: None, reference_image: None };
    assert!(nothing.get_reference_image_type().is_none());
    assert_eq!(nothing.get_liveness_status(), None);
}

fn celebrity(name: &str) -> Celebrity {
    Celebrity {
        name: some(name),
        id: some("xy1"),
        known_gender: some("Male"),
        face: Some(ComparedFace {
            bounding_box: Some(full_box()),
            smile: Some(Trait { value: false, confidence: some("1") }),
        }),
    }
}

#[test]
fn celebrity_details_of_a_single_picture() {
    let (text, records) = celebrity_details(&vec![celebrity("Rajinikanth")], false);
    assert_eq!(
        text,
        "Celebrity Name: Rajinikanth(Super Star)\nCelebrity Amazon ID: xy1\nCelebrity Gender: MaleBouding Box Details: Width: 0.5,Height: 0.25,Left: 0.1,Top: 0.2\nIs the Celebrity Smiling: false"
    );
    assert_eq!(
        records,
        strings(&[
            "Rajinikanth(Super Star)",
            "xy1",
            "Male",
            "Width: 0.5,Height: 0.25,Left: 0.1,Top: 0.2",
            "false",
        ])
    );
}

#[test]
fn celebrity_roles() {
    let cases = [
        ("Ralph Fiennes", "Ralph Fiennes(voldemort)"),
        ("Chris Hemsworth", "Chris Hemsworth(Odin Son Thor)"),
        ("Vin Diesel", "Vin Diesel(Dominic Toretto,I'm Groot)"),
        ("Robert Downey Jr.", "Robert Downey Jr.(Iron Man)"),
        ("Ajith Kumar", "Ajith Kumar(Ultimate Star)"),
        ("Nobody Known", "Nobody Known"),
        ("tom holland", "tom holland"),
    ];
    for (name, famous) in cases {
        let only_name = Celebrity { name: some(name), id: None, known_gender: None, face: None };
        let (text, records) = celebrity_details(&vec![only_name], true);
        assert_eq!(records, strings(&[famous]));
        assert_eq!(text, format!("Celebrity Name: {}\n", famous));
    }
}

#[test]
fn celebrity_without_whole_box_keeps_an_empty_record() {
    let mut partial = full_box();
    partial.top = None;
    let c = Celebrity {
        name: None,
        id: None,
        known_gender: None,
        face: Some(ComparedFace { bounding_box: Some(partial), smile: None }),
    };
    let (text, records) = celebrity_details(&vec![c], true);
    assert_eq!(text, "");
    assert_eq!(records, strings(&[""]));
}

#[test]
fn recognize_celebrities_writes_text_and_pdf() {
    let out = recognize_celebrities(&Some(vec![celebrity("Emma Watson")]), Some("me.png"), None, None)
        .expect("celebrities were named");
    assert_eq!(out.text_file, "CelebrityDetails.txt");
    assert!(out.text.starts_with("Celebrity Name: Emma Watson(Hermione Granger)\n"));
    let pdf = out.pdf.expect("a local picture gives a report");
    assert_eq!(pdf.report.file_name, "CelebrityResults_me.png.pdf");
    assert!(recognize_celebrities(&None, Some("me.png"), None, None).is_none());
    let no_picture = recognize_celebrities(&Some(Vec::new()), None, None, None).unwrap();
    assert_eq!(no_picture.text, "");
    assert!(no_picture.pdf.is_none());
}

#[test]
fn detected_faces_and_texts_keep_their_order() {
    let mut second = full_face();
    second.beard = Some(Trait { value: true, confidence: some("5") });
    let mut faces = detect_faces(Some(vec![full_face(), second]));
    assert_eq!(faces.len(), 2);
    assert_eq!(faces[0].beard(), (None, None));
    assert_eq!(faces[1].beard(), (Some(true), some("5")));
    assert!(detect_faces(None).is_empty());
    let mut texts = detect_texts(Some(vec![
        TextDetection { detected_text: some("a"), text_type: None, confidence: None, geometry: None },
        TextDetection { detected_text: some("b"), text_type: None, confidence: None, geometry: None },
    ]));
    assert_eq!(texts[0].detected_text(), some("a"));
    assert_eq!(texts[1].detected_text(), some("b"));
}

#[test]
fn collection_and_job_records() {
    assert_eq!(
        create_collection(&some("arn:1"), &None, Some(200)),
        strings(&["Collection Arn: arn:1", "Status Code: 200\n\n"])
    );
    assert_eq!(create_collection(&None, &some("6.0"), None), strings(&["Model Version: 6.0"]));
    assert_eq!(
        start_text_detection_task("j1"),
        "The Job ID for initiating text detection is: j1"
    );
    assert_eq!(
        start_face_detection_task("j2"),
        "The Job ID for initiating face detection is: j2"
    );
    assert_eq!(
        create_face_liveness("s1", "bucket"),
        "The session identifier is: s1\nThe key prefix for the S3 object is set to 'faceliveness/' in the bucket named bucket"
    );
}
