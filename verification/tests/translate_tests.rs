use aws_apis::time::{http_date_text, http_date_text_of, Timestamp};
use aws_apis::translate_ops::{client_token, content_type, describe_text_translation_job,
    document_kind, job_id_record, list_languages, list_translation_jobs,
    start_text_translation_job, translate_document, translate_text, unsupported_document,
    unsupported_job, DocumentKind, JobDetails, Language, TranslationJob};

fn some(s: &str) -> Option<String> {
    Some(s.to_string())
}

fn strings(items: &[&str]) -> Vec<String> {
    items.iter().map(|s| s.to_string()).collect()
}

#[test]
fn http_date_of_a_known_moment() {
    let at = Timestamp { seconds: 1576540098, nanos: 0 };
    assert_eq!(http_date_text(at).as_deref(), Some("Mon, 16 Dec 2019 23:48:18 GMT"));
    let with_nanos = Timestamp { seconds: 1576540098, nanos: 999_999_999 };
    assert_eq!(http_date_text(with_nanos).as_deref(), Some("Mon, 16 Dec 2019 23:48:18 GMT"));
    assert_eq!(
        http_date_text(Timestamp { seconds: 0, nanos: 0 }).as_deref(),
        Some("Thu, 01 Jan 1970 00:00:00 GMT")
    );
}

#[test]
fn http_date_refuses_what_is_no_moment() {
    assert_eq!(http_date_text(Timestamp { seconds: 0, nanos: 1_000_000_000 }), None);
    assert_eq!(http_date_text(Timestamp { seconds: 0, nanos: u32::MAX }), None);
    assert_eq!(http_date_text(Timestamp { seconds: i64::MAX, nanos: 0 }), None);
    assert_eq!(http_date_text(Timestamp { seconds: i64::MIN, nanos: 0 }), None);
    assert_eq!(http_date_text_of(None), None);
    assert_eq!(
        http_date_text_of(Some(Timestamp { seconds: 86400, nanos: 5 })).as_deref(),
        Some("Fri, 02 Jan 1970 00:00:00 GMT")
    );
}

#[test]
fn document_kinds_are_named_in_three_ways() {
    for word in ["html", "HTML", "Html"] {
        assert_eq!(document_kind(word), Some(DocumentKind::Html));
    }
    for word in ["plain", "Plain", "PLAIN"] {
        assert_eq!(document_kind(word), Some(DocumentKind::Plain));
    }
    for word in ["word", "WORD", "Word"] {
        assert_eq!(document_kind(word), Some(DocumentKind::Word));
    }
    for word in ["ppt", "PPT", "Ppt"] {
        assert_eq!(document_kind(word), Some(DocumentKind::Slides));
    }
    for word in ["xlsx", "XLSX", "Xlsx"] {
        assert_eq!(document_kind(word), Some(DocumentKind::Sheet));
    }
    for word in ["xlf", "XLF", "Xlf"] {
        assert_eq!(document_kind(word), Some(DocumentKind::Xliff));
    }
    for word in ["", "hTml", "pdf", "html ", "wOrd"] {
        assert_eq!(document_kind(word), None);
    }
}

#[test]
fn content_types() {
    assert_eq!(content_type(DocumentKind::Html), "text/html");
    assert_eq!(content_type(DocumentKind::Plain), "text/plain");
    assert_eq!(
        content_type(DocumentKind::Word),
        "application/vnd.openxmlformats-officedocument.wordprocessingml.document"
    );
    assert_eq!(
        content_type(DocumentKind::Slides),
        "application/vnd.openxmlformats-officedocument.presentationml.presentation"
    );
    assert_eq!(
        content_type(DocumentKind::Sheet),
        "application/vnd.openxmlformats-officedocument.spreadsheetml.sheet"
    );
    assert_eq!(content_type(DocumentKind::Xliff), "application/x-xliff+xml");
}

#[test]
fn single_documents_are_html_plain_or_word() {
    let plan = translate_document("HTML").unwrap();
    assert_eq!(plan.content_type, "text/html");
    assert_eq!(plan.file_name, "TranslatedDocument.html");
    let plan = translate_document("plain").unwrap();
    assert_eq!(plan.content_type, "text/plain");
    assert_eq!(plan.file_name, "TranslatedDocument.txt");
    let plan = translate_document("Word").unwrap();
    assert_eq!(
        plan.content_type,
        "application/vnd.openxmlformats-officedocument.wordprocessingml.document"
    );
    assert_eq!(plan.file_name, "TranslatedDocument.docx");
    assert!(translate_document("ppt").is_none());
    assert!(translate_document("xlsx").is_none());
    assert!(translate_document("xlf").is_none());
    assert!(translate_document("other").is_none());
}

#[test]
fn translation_job_plan() {
    let plan = start_text_translation_job("nightly", "Ppt").unwrap();
    assert_eq!(
        plan.content_type,
        "application/vnd.openxmlformats-officedocument.presentationml.presentation"
    );
    assert_eq!(plan.file_name, "TranscriptionJobIDFornightly.txt");
    assert!(start_text_translation_job("nightly", "pdf").is_none());
    assert_eq!(job_id_record("abc"), "Transcription Job ID for the Job Name: abc");
    assert_eq!(translate_text("hola"), "The translation for the provided text:\nhola");
    assert_eq!(client_token(some("env"), "cred".to_string()), "env");
    assert_eq!(client_token(None, "cred".to_string()), "cred");
}

#[test]
fn unsupported_kinds_are_explained() {
    assert_eq!(
        unsupported_document("pdf"),
        strings(&[
            "Unsupported Document Type: pdf\n",
            "Supported Document Types are,",
            "1) html or HTML or Html",
            "2) plain or Plain or PLAIN",
            "3) word or WORD or Word\n",
        ])
    );
    assert_eq!(
        unsupported_job("pdf"),
        strings(&[
            "Unsupported Document Type: pdf\n",
            "Supported Document Types are\n",
            "1) html or HTML or Html",
            "2) plain or Plain or PLAIN",
            "3) word or WORD or Word",
            "4) ppt or PPT or Ppt",
            "5) xlsx or XLSX or Xlsx ",
            "6) xlf or XLF or Xlf\n",
        ])
    );
}

#[test]
fn languages_are_listed_and_written() {
    let languages = Some(vec![
        Language { language_name: some("German"), language_code: some("de") },
        Language { language_name: None, language_code: some("xx") },
        Language { language_name: some("Tamil"), language_code: None },
    ]);
    let out = list_languages(&languages);
    assert_eq!(out.names, strings(&["German", "Tamil"]));
    assert_eq!(out.codes, strings(&["de", "xx"]));
    assert_eq!(
        out.text,
        "Language Name: German\nLanguage Code: de\n\nLanguage Code: xx\n\nLanguage Name: Tamil\n"
    );
    let none = list_languages(&None);
    assert!(none.names.is_empty());
    assert!(none.codes.is_empty());
    assert_eq!(none.text, "");
}

fn full_job() -> TranslationJob {
    TranslationJob {
        data_access_role_arn: some("arn:role"),
        job_name: some("nightly"),
        job_id: some("id-1"),
        source_language_code: some("auto"),
        target_language_codes: Some(strings(&["de", "fr"])),
        job_details: Some(JobDetails {
            input_documents_count: Some(3),
            translated_documents_count: Some(2),
            documents_with_errors_count: Some(1),
        }),
        output_s3_uri: some("s3://out/"),
        submitted_time: Some(Timestamp { seconds: 1576540098, nanos: 0 }),
        end_time: Some(Timestamp { seconds: 1576540099, nanos: 0 }),
        job_status: some("COMPLETED"),
        message: some("done"),
    }
}

fn empty_job() -> TranslationJob {
    TranslationJob {
        data_access_role_arn: None,
        job_name: None,
        job_id: None,
        source_language_code: None,
        target_language_codes: None,
        job_details: None,
        output_s3_uri: None,
        submitted_time: None,
        end_time: None,
        job_status: None,
        message: None,
    }
}

#[test]
fn translation_jobs_are_written() {
    let mut partial = empty_job();
    partial.job_name = some("second");
    partial.target_language_codes = Some(Vec::new());
    partial.job_details = Some(JobDetails {
        input_documents_count: None,
        translated_documents_count: Some(0),
        documents_with_errors_count: None,
    });
    partial.submitted_time = Some(Timestamp { seconds: 0, nanos: 2_000_000_000 });
    let text = list_translation_jobs(&Some(vec![full_job(), partial]));
    assert_eq!(
        text,
        "Data Access Role Arn: arn:role\nJob Name: nightly\nJob ID: id-1\nSubmitted Time: Mon, 16 Dec 2019 23:48:18 GMT\nFinished Time: Mon, 16 Dec 2019 23:48:19 GMT\nSource Language Code: auto\nTarget Language Codes:\nde\nfr\nOutput S3 Uri: s3://out/\nInput Document Counts: 3\nDocument Success Count: 2\nDocument Error Count: 1\nJob Status: COMPLETED\nJob Message: done\n\n\nJob Name: second\nTarget Language Codes:\nDocument Success Count: 0\n"
    );
    assert_eq!(list_translation_jobs(&None), "");
    assert_eq!(list_translation_jobs(&Some(vec![empty_job()])), "");
}

#[test]
fn translation_job_is_described() {
    assert_eq!(
        describe_text_translation_job(&Some(full_job())),
        strings(&[
            "Data Access Role Amazon Resource Name(ARN): arn:role",
            "Job Name: nightly",
            "Job ID: id-1",
            "Source Language Code: auto",
            "The source language of the document is automatically identified using the ;DetectDominantLanguages' API of the Comprehend service\n",
            "Target Language Codes\n",
            "Language Code: de",
            "Language Code: fr",
            "Execute the 'Get Language Info' option to determine the language associated with the provided language codes\n",
            "Input Document Count: 3",
            "Document Success Count: 2",
            "Document Error Count: 1",
            "Output S3 Uri: s3://out/",
            "Submitted Date and Time: Mon, 16 Dec 2019 23:48:18 GMT",
            "Finished Date and Time: Mon, 16 Dec 2019 23:48:19 GMT",
            "Job Status: COMPLETED",
            "Message: done",
            "",
        ])
    );
    assert_eq!(describe_text_translation_job(&Some(empty_job())), strings(&[""]));
    assert_eq!(describe_text_translation_job(&None), Vec::<String>::new());
}
