use aws_apis::aws_polly::{task_description, SynthesisTask};
use aws_apis::dynamodb::{table_description, TableDescription};
use aws_apis::pdf_writer::{create_table, push_table_data_face_results, Row};
use aws_apis::sesv2_ops::{is_contact_list_name_exist, is_email_template_exist};
use aws_apis::text::{replace_all, split_runs};
use aws_apis::transcribe_ops::{TranscriptionJob, TranscriptionOutput};
use aws_apis::translate_ops::{job_description, job_record, TranslationJob};

fn some(s: &str) -> Option<String> {
    Some(s.to_string())
}

fn strings(items: &[&str]) -> Vec<String> {
    items.iter().map(|s| s.to_string()).collect()
}

fn named_job() -> TranslationJob {
    TranslationJob {
        data_access_role_arn: None,
        job_name: some("nightly"),
        job_id: None,
        source_language_code: None,
        target_language_codes: None,
        job_details: None,
        output_s3_uri: None,
        submitted_time: None,
        end_time: None,
        job_status: some("COMPLETED"),
        message: None,
    }
}

#[test]
fn job_record_with_given_dates() {
    assert_eq!(
        job_record(&named_job(), &some("yesterday"), &some("today")),
        "Job Name: nightly\nSubmitted Time: yesterday\nFinished Time: today\nJob Status: COMPLETED\n"
    );
    assert_eq!(
        job_record(&named_job(), &None, &some("today")),
        "Job Name: nightly\nFinished Time: today\nJob Status: COMPLETED\n"
    );
    assert_eq!(job_record(&named_job(), &None, &None), "Job Name: nightly\nJob Status: COMPLETED\n");
}

#[test]
fn job_description_with_given_dates() {
    assert_eq!(
        job_description(&named_job(), &some("yesterday"), &None),
        strings(&[
            "Job Name: nightly",
            "Submitted Date and Time: yesterday",
            "Job Status: COMPLETED",
            "",
        ])
    );
}

#[test]
fn task_description_with_given_date() {
    let task = SynthesisTask {
        task_id: some("t1"),
        engine: None,
        task_status: None,
        task_status_reason: some("ok"),
        output_uri: None,
        creation_time: None,
        output_format: None,
        text_type: None,
        voice_id: None,
        language_code: None,
    };
    assert_eq!(
        task_description(&task, &some("now")),
        strings(&["Creation Time: now", "Task ID: t1", "Status Reason: ok"])
    );
    assert_eq!(task_description(&task, &None), strings(&["Task ID: t1", "Status Reason: ok"]));
}

#[test]
fn table_description_with_given_date() {
    let d = TableDescription {
        creation_date_time: None,
        table_status: some("ACTIVE"),
        table_size_bytes: Some(-1),
        table_id: None,
        table_arn: None,
        item_count: None,
        deletion_protection_enabled: Some(true),
    };
    assert_eq!(
        table_description("t", &d, &some("then")),
        strings(&[
            "Creation Time Of the Table: then",
            "Current Status of 't' table: ACTIVE",
            "Table Size In Bytes: -1",
            "whether deletion protection is enabled: true\n",
        ])
    );
}

#[test]
fn transcription_info_with_given_dates() {
    let mut output = TranscriptionOutput::wrap(TranscriptionJob {
        transcription_job_name: some("talk"),
        transcription_job_status: None,
        language_code: None,
        media_format: None,
        media: None,
        transcript: None,
        start_time: None,
        creation_time: None,
        completion_time: None,
        failure_reason: some("none"),
        subtitles: None,
    });
    assert_eq!(
        output.transcription_info(&some("a"), &None, &some("c")),
        strings(&[
            "Transcription Job Name: talk",
            "Start Time: a",
            "Completion Time: c",
            "Failure Reason: none",
        ])
    );
    assert_eq!(
        output.transcription_info(&None, &some("b"), &None),
        strings(&["Creation Time: b"])
    );
}

#[test]
fn rows_of_n_records_are_n_and_one_for_every_full_group() {
    let headers = vec!["a", "b", "c"];
    for n in 0..40usize {
        let records: Vec<String> = (0..n).map(|i| format!("r{}", i)).collect();
        let mut table = create_table("k", "v");
        push_table_data_face_results(&headers, records, &mut table);
        let rows = &table.rows[2..];
        assert_eq!(rows.len(), n + n / 9);
        for k in 0..n {
            match &rows[k + k / 9] {
                Row::Cells(cells) => {
                    assert_eq!(cells[0].text, headers[k % 3]);
                    assert_eq!(cells[1].text, format!("r{}", k));
                }
                Row::Gap => panic!("record {} stands in a row of cells", k),
            }
            if (k + 1) % 9 == 0 {
                assert!(matches!(rows[k + k / 9 + 1], Row::Gap));
            }
        }
    }
}

#[test]
fn every_listed_name_exists() {
    let names = strings(&["friends", "", "family and more", "x"]);
    for name in names.iter() {
        assert!(is_contact_list_name_exist(&names, name));
        assert!(is_email_template_exist(&names, name));
    }
}

#[test]
fn pieces_hold_no_separator() {
    for text in ["  a b\tc ", "no-blank", " \u{3000}x y\u{85}z", ""] {
        for piece in split_runs(text, false) {
            assert!(!piece.is_empty());
            assert!(!piece.chars().any(|c| c.is_whitespace()));
        }
        for piece in split_runs(text, true) {
            assert!(!piece.is_empty());
            assert!(!piece.contains(' '));
        }
    }
}

#[test]
fn replacement_leaves_text_without_occurrence() {
    for text in ["", "abc", "nam e", "emai"] {
        assert_eq!(replace_all(text, "name", "x"), text);
        assert_eq!(replace_all(text, "email", "x"), text);
    }
}
