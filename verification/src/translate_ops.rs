//! What the Translate operations decide and write: the content type of a
//! document, the files that results are saved to, and what is written and
//! said of translation jobs.
use crate::text::{each_followed_by, followed_each, line_if, line_of, listed, number_text,
    number_view, same_text, said_if, said_of, say, say_if, say_plain, text_view, views,
    write_line_if};
use crate::time::{date_text_of, http_date_text_of, Timestamp};
use vstd::prelude::*;
use vstd::string::*;

verus! {

/// The kinds of document that the service translates.
#[derive(Clone, Copy, Debug, PartialEq, Eq, Structural)]
pub enum DocumentKind {
    Html,
    Plain,
    Word,
    Slides,
    Sheet,
    Xliff,
}

/// The kind that a word names: each kind is named in lower case, in upper
/// case, or with a capital letter. Another word names no kind.
pub open spec fn kind_named(word: Seq<char>) -> Option<DocumentKind> {
    if word == "html"@ || word == "HTML"@ || word == "Html"@ {
        Some(DocumentKind::Html)
    } else if word == "plain"@ || word == "Plain"@ || word == "PLAIN"@ {
        Some(DocumentKind::Plain)
    } else if word == "word"@ || word == "WORD"@ || word == "Word"@ {
        Some(DocumentKind::Word)
    } else if word == "ppt"@ || word == "PPT"@ || word == "Ppt"@ {
        Some(DocumentKind::Slides)
    } else if word == "xlsx"@ || word == "XLSX"@ || word == "Xlsx"@ {
        Some(DocumentKind::Sheet)
    } else if word == "xlf"@ || word == "XLF"@ || word == "Xlf"@ {
        Some(DocumentKind::Xliff)
    } else {
        None
    }
}

/// The content type of a kind of document.
pub open spec fn content_type_of(kind: DocumentKind) -> Seq<char> {
    match kind {
        DocumentKind::Html => "text/html"@,
        DocumentKind::Plain => "text/plain"@,
        DocumentKind::Word => "application/vnd.openxmlformats-officedocument.wordprocessingml.document"@,
        DocumentKind::Slides => "application/vnd.openxmlformats-officedocument.presentationml.presentation"@,
        DocumentKind::Sheet => "application/vnd.openxmlformats-officedocument.spreadsheetml.sheet"@,
        DocumentKind::Xliff => "application/x-xliff+xml"@,
    }
}

/// Whether a single document of this kind can be translated at once: a
/// page, a plain text or a word-processor document.
pub open spec fn translates_at_once(kind: DocumentKind) -> bool {
    kind == DocumentKind::Html || kind == DocumentKind::Plain || kind == DocumentKind::Word
}

/// The file that a translated document of a kind is written to.
pub open spec fn translated_name_of(kind: DocumentKind) -> Seq<char> {
    match kind {
        DocumentKind::Html => "TranslatedDocument.html"@,
        DocumentKind::Plain => "TranslatedDocument.txt"@,
        _ => "TranslatedDocument.docx"@,
    }
}

/// The kind that a word names.
pub fn document_kind(word: &str) -> (kind: Option<DocumentKind>)
    ensures
        kind == kind_named(word@),
{
    if same_text(word, "html") || same_text(word, "HTML") || same_text(word, "Html") {
        Some(DocumentKind::Html)
    } else if same_text(word, "plain") || same_text(word, "Plain") || same_text(word, "PLAIN") {
        Some(DocumentKind::Plain)
    } else if same_text(word, "word") || same_text(word, "WORD") || same_text(word, "Word") {
        Some(DocumentKind::Word)
    } else if same_text(word, "ppt") || same_text(word, "PPT") || same_text(word, "Ppt") {
        Some(DocumentKind::Slides)
    } else if same_text(word, "xlsx") || same_text(word, "XLSX") || same_text(word, "Xlsx") {
        Some(DocumentKind::Sheet)
    } else if same_text(word, "xlf") || same_text(word, "XLF") || same_text(word, "Xlf") {
        Some(DocumentKind::Xliff)
    } else {
        None
    }
}

/// The content type of a kind of document.
pub fn content_type(kind: DocumentKind) -> (out: &'static str)
    ensures
        out@ == content_type_of(kind),
{
    match kind {
        DocumentKind::Html => "text/html",
        DocumentKind::Plain => "text/plain",
        DocumentKind::Word => "application/vnd.openxmlformats-officedocument.wordprocessingml.document",
        DocumentKind::Slides => "application/vnd.openxmlformats-officedocument.presentationml.presentation",
        DocumentKind::Sheet => "application/vnd.openxmlformats-officedocument.spreadsheetml.sheet",
        DocumentKind::Xliff => "application/x-xliff+xml",
    }
}

/// What translating one document needs to know of its kind.
pub struct DocumentPlan {
    pub content_type: String,
    /// The file that the translation is written to.
    pub file_name: String,
}

/// The plan for translating a document of the kind that `word` names;
/// nothing where the word names no kind that is translated at once.
pub open spec fn document_plan_of(word: Seq<char>) -> Option<(Seq<char>, Seq<char>)> {
    match kind_named(word) {
        Some(kind) => if translates_at_once(kind) {
            Some((content_type_of(kind), translated_name_of(kind)))
        } else {
            None
        },
        None => None,
    }
}

/// The content type and the file of a document that is translated at once.
pub fn translate_document(document_type: &str) -> (plan: Option<DocumentPlan>)
    ensures
        match plan {
            Some(p) => document_plan_of(document_type@) == Some((p.content_type@, p.file_name@)),
            None => document_plan_of(document_type@) is None,
        },
{
    match document_kind(document_type) {
        Some(DocumentKind::Html) => Some(
            DocumentPlan {
                content_type: String::from_str(content_type(DocumentKind::Html)),
                file_name: String::from_str("TranslatedDocument.html"),
            },
        ),
        Some(DocumentKind::Plain) => Some(
            DocumentPlan {
                content_type: String::from_str(content_type(DocumentKind::Plain)),
                file_name: String::from_str("TranslatedDocument.txt"),
            },
        ),
        Some(DocumentKind::Word) => Some(
            DocumentPlan {
                content_type: String::from_str(content_type(DocumentKind::Word)),
                file_name: String::from_str("TranslatedDocument.docx"),
            },
        ),
        _ => None,
    }
}

/// What is said where a single document is of no kind that is translated
/// at once.
pub open spec fn unsupported_document_lines(word: Seq<char>) -> Seq<Seq<char>> {
    seq![
        "Unsupported Document Type: "@ + word + "\n"@,
        "Supported Document Types are,"@,
        "1) html or HTML or Html"@,
        "2) plain or Plain or PLAIN"@,
        "3) word or WORD or Word\n"@,
    ]
}

/// What is said where a single document is of no kind that is translated
/// at once.
pub fn unsupported_document(document_type: &str) -> (lines: Vec<String>)
    ensures
        views(lines@) == unsupported_document_lines(document_type@),
{
    let mut lines: Vec<String> = Vec::new();
    say(&mut lines, "Unsupported Document Type: ", document_type, "\n");
    say_plain(&mut lines, "Supported Document Types are,");
    say_plain(&mut lines, "1) html or HTML or Html");
    say_plain(&mut lines, "2) plain or Plain or PLAIN");
    say_plain(&mut lines, "3) word or WORD or Word\n");
    assert(views(lines@) =~= unsupported_document_lines(document_type@));
    lines
}

/// What is said where the documents of a job are of no known kind.
pub open spec fn unsupported_job_lines(word: Seq<char>) -> Seq<Seq<char>> {
    seq![
        "Unsupported Document Type: "@ + word + "\n"@,
        "Supported Document Types are\n"@,
        "1) html or HTML or Html"@,
        "2) plain or Plain or PLAIN"@,
        "3) word or WORD or Word"@,
        "4) ppt or PPT or Ppt"@,
        "5) xlsx or XLSX or Xlsx "@,
        "6) xlf or XLF or Xlf\n"@,
    ]
}

/// What is said where the documents of a job are of no known kind.
pub fn unsupported_job(document_type: &str) -> (lines: Vec<String>)
    ensures
        views(lines@) == unsupported_job_lines(document_type@),
{
    let mut lines: Vec<String> = Vec::new();
    say(&mut lines, "Unsupported Document Type: ", document_type, "\n");
    say_plain(&mut lines, "Supported Document Types are\n");
    say_plain(&mut lines, "1) html or HTML or Html");
    say_plain(&mut lines, "2) plain or Plain or PLAIN");
    say_plain(&mut lines, "3) word or WORD or Word");
    say_plain(&mut lines, "4) ppt or PPT or Ppt");
    say_plain(&mut lines, "5) xlsx or XLSX or Xlsx ");
    say_plain(&mut lines, "6) xlf or XLF or Xlf\n");
    assert(views(lines@) =~= unsupported_job_lines(document_type@));
    lines
}

/// The token that makes a request for a job unique: the access key of the
/// environment, else the one of the credentials.
pub fn client_token(from_env: Option<String>, from_credentials: String) -> (token: String)
    ensures
        token == (match from_env {
            Some(key) => key,
            None => from_credentials,
        }),
{
    match from_env {
        Some(key) => key,
        None => from_credentials,
    }
}

/// What starting a translation job needs to know and what it writes.
pub struct JobPlan {
    pub content_type: String,
    /// The file that the job's identifier is written to.
    pub file_name: String,
}

/// The file that the identifier of the job `job_name` is written to.
pub open spec fn job_file_name(job_name: Seq<char>) -> Seq<char> {
    "TranscriptionJobIDFor"@ + job_name + ".txt"@
}

/// The content type of the documents of a job and the file that the job's
/// identifier is written to; nothing where `document_type` names no kind.
pub fn start_text_translation_job(job_name: &str, document_type: &str) -> (plan: Option<JobPlan>)
    ensures
        match plan {
            Some(p) => kind_named(document_type@) is Some && p.content_type@ == content_type_of(
                kind_named(document_type@)->0,
            ) && p.file_name@ == job_file_name(job_name@),
            None => kind_named(document_type@) is None,
        },
{
    match document_kind(document_type) {
        Some(kind) => {
            let mut file_name = String::from_str("TranscriptionJobIDFor");
            file_name.append(job_name);
            file_name.append(".txt");
            Some(JobPlan { content_type: String::from_str(content_type(kind)), file_name })
        },
        None => None,
    }
}

/// What is written of a job that was started: its identifier.
pub fn job_id_record(job_id: &str) -> (record: String)
    ensures
        record@ == "Transcription Job ID for the Job Name: "@ + job_id@,
{
    let mut record = String::from_str("Transcription Job ID for the Job Name: ");
    record.append(job_id);
    record
}

/// What is written of a translated text.
pub fn translate_text(translated_text: &str) -> (record: String)
    ensures
        record@ == "The translation for the provided text:\n"@ + translated_text@,
{
    let mut record = String::from_str("The translation for the provided text:\n");
    record.append(translated_text);
    record
}

/// A language that the service translates.
#[derive(Clone, Debug)]
pub struct Language {
    pub language_name: Option<String>,
    pub language_code: Option<String>,
}

/// The names of the languages that have one, in their order.
pub open spec fn language_names(languages: Seq<Language>) -> Seq<Seq<char>>
    decreases languages.len(),
{
    if languages.len() == 0 {
        Seq::empty()
    } else {
        language_names(languages.drop_last()) + crate::text::record_if(
            languages.last().language_name,
        )
    }
}

/// The codes of the languages that have one, in their order.
pub open spec fn language_codes(languages: Seq<Language>) -> Seq<Seq<char>>
    decreases languages.len(),
{
    if languages.len() == 0 {
        Seq::empty()
    } else {
        language_codes(languages.drop_last()) + crate::text::record_if(
            languages.last().language_code,
        )
    }
}

/// What is written of the languages: a line for each name and each code.
pub open spec fn languages_text(languages: Seq<Language>) -> Seq<char>
    decreases languages.len(),
{
    if languages.len() == 0 {
        Seq::empty()
    } else {
        languages_text(languages.drop_last()) + line_if(
            "Language Name: "@,
            languages.last().language_name,
            "\n"@,
        ) + line_if("Language Code: "@, languages.last().language_code, "\n\n"@)
    }
}

/// The languages of the service: their names, their codes, and what is
/// written of them to `Supported_Languages_Details.txt`.
pub struct Languages {
    pub names: Vec<String>,
    pub codes: Vec<String>,
    pub text: String,
}

/// The names and the codes of the languages, and what is written of them.
pub fn list_languages(languages: &Option<Vec<Language>>) -> (out: Languages)
    ensures
        views(out.names@) == language_names(listed(*languages)),
        views(out.codes@) == language_codes(listed(*languages)),
        out.text@ == languages_text(listed(*languages)),
{
    let mut names: Vec<String> = Vec::new();
    let mut codes: Vec<String> = Vec::new();
    let mut text = String::new();
    assert(views(names@) =~= Seq::<Seq<char>>::empty());
    assert(views(codes@) =~= Seq::<Seq<char>>::empty());
    match languages {
        Some(list) => {
            let mut i: usize = 0;
            assert(list@.take(0) =~= Seq::<Language>::empty());
            while i < list.len()
                invariant
                    i <= list.len(),
                    views(names@) == language_names(list@.take(i as int)),
                    views(codes@) == language_codes(list@.take(i as int)),
                    text@ == languages_text(list@.take(i as int)),
                decreases list.len() - i,
            {
                assert(list@.take(i + 1).drop_last() =~= list@.take(i as int));
                let language = &list[i];
                crate::text::write_if(
                    "Language Name: ",
                    crate::text::copy_of(&language.language_name),
                    "\n",
                    &mut text,
                    &mut names,
                );
                crate::text::write_if(
                    "Language Code: ",
                    crate::text::copy_of(&language.language_code),
                    "\n\n",
                    &mut text,
                    &mut codes,
                );
                i = i + 1;
            }
            assert(list@.take(i as int) =~= list@);
        },
        None => {},
    }
    Languages { names, codes, text }
}

/// How many documents a job read, translated and failed on.
#[derive(Clone, Copy, Debug)]
pub struct JobDetails {
    pub input_documents_count: Option<i32>,
    pub translated_documents_count: Option<i32>,
    pub documents_with_errors_count: Option<i32>,
}

/// What the service knows of a translation job.
#[derive(Clone, Debug)]
pub struct TranslationJob {
    pub data_access_role_arn: Option<String>,
    pub job_name: Option<String>,
    pub job_id: Option<String>,
    pub source_language_code: Option<String>,
    pub target_language_codes: Option<Vec<String>>,
    pub job_details: Option<JobDetails>,
    /// Where the translations are put, where that is known.
    pub output_s3_uri: Option<String>,
    pub submitted_time: Option<Timestamp>,
    pub end_time: Option<Timestamp>,
    pub job_status: Option<String>,
    pub message: Option<String>,
}

/// What is written of the target languages: a heading and one code a line.
pub open spec fn targets_text(codes: Option<Vec<String>>) -> Seq<char> {
    match codes {
        Some(list) => "Target Language Codes:\n"@ + each_followed_by(views(list@), "\n"@),
        None => Seq::empty(),
    }
}

/// What is written of the counts of a job.
pub open spec fn counts_text(details: Option<JobDetails>) -> Seq<char> {
    match details {
        Some(d) => line_of("Input Document Counts: "@, number_view(d.input_documents_count), "\n"@)
            + line_of(
            "Document Success Count: "@,
            number_view(d.translated_documents_count),
            "\n"@,
        ) + line_of("Document Error Count: "@, number_view(d.documents_with_errors_count), "\n"@),
        None => Seq::empty(),
    }
}

/// What is written of one job to the list of jobs, given how its times are
/// written.
pub open spec fn job_text_with(
    job: TranslationJob,
    submitted: Option<Seq<char>>,
    ended: Option<Seq<char>>,
) -> Seq<char> {
    line_if("Data Access Role Arn: "@, job.data_access_role_arn, "\n"@) + line_if(
        "Job Name: "@,
        job.job_name,
        "\n"@,
    ) + line_if("Job ID: "@, job.job_id, "\n"@) + line_of("Submitted Time: "@, submitted, "\n"@)
        + line_of("Finished Time: "@, ended, "\n"@) + line_if(
        "Source Language Code: "@,
        job.source_language_code,
        "\n"@,
    ) + targets_text(job.target_language_codes) + line_if(
        "Output S3 Uri: "@,
        job.output_s3_uri,
        "\n"@,
    ) + counts_text(job.job_details) + line_if("Job Status: "@, job.job_status, "\n"@) + line_if(
        "Job Message: "@,
        job.message,
        "\n\n\n"@,
    )
}

/// What is written of one job to the list of jobs: a line for each thing
/// that is known of it, its times as dates of the HTTP kind.
pub open spec fn job_text(job: TranslationJob) -> Seq<char> {
    job_text_with(job, date_text_of(job.submitted_time), date_text_of(job.end_time))
}

/// What is written of all the jobs, in their order.
pub open spec fn jobs_text(jobs: Seq<TranslationJob>) -> Seq<char>
    decreases jobs.len(),
{
    if jobs.len() == 0 {
        Seq::empty()
    } else {
        jobs_text(jobs.drop_last()) + job_text(jobs.last())
    }
}

fn write_targets(file: &mut String, codes: &Option<Vec<String>>)
    ensures
        final(file)@ == old(file)@ + targets_text(*codes),
{
    match codes {
        Some(list) => {
            file.append("Target Language Codes:\n");
            file.append(followed_each(list, "\n").as_str());
            assert(file@ =~= old(file)@ + targets_text(*codes));
        },
        None => {
            assert(file@ =~= old(file)@ + targets_text(*codes));
        },
    }
}

fn write_counts(file: &mut String, details: &Option<JobDetails>)
    ensures
        final(file)@ == old(file)@ + counts_text(*details),
{
    match details {
        Some(d) => {
            let mut part = String::new();
            write_line_if(
                &mut part,
                "Input Document Counts: ",
                &number_text(d.input_documents_count),
                "\n",
            );
            write_line_if(
                &mut part,
                "Document Success Count: ",
                &number_text(d.translated_documents_count),
                "\n",
            );
            write_line_if(
                &mut part,
                "Document Error Count: ",
                &number_text(d.documents_with_errors_count),
                "\n",
            );
            assert(part@ =~= counts_text(*details));
            file.append(part.as_str());
        },
        None => {
            assert(file@ =~= old(file)@ + counts_text(*details));
        },
    }
}

/// What is written of one job to the list of jobs, given how its times are
/// written: a line for each thing that is known of it.
pub fn job_record(job: &TranslationJob, submitted: &Option<String>, ended: &Option<String>) -> (entry:
    String)
    ensures
        entry@ == job_text_with(*job, text_view(*submitted), text_view(*ended)),
{
    let mut entry = String::new();
    write_line_if(&mut entry, "Data Access Role Arn: ", &job.data_access_role_arn, "\n");
    assert(entry@ =~= line_if("Data Access Role Arn: "@, job.data_access_role_arn, "\n"@));
    write_line_if(&mut entry, "Job Name: ", &job.job_name, "\n");
    write_line_if(&mut entry, "Job ID: ", &job.job_id, "\n");
    write_line_if(&mut entry, "Submitted Time: ", submitted, "\n");
    write_line_if(&mut entry, "Finished Time: ", ended, "\n");
    write_line_if(&mut entry, "Source Language Code: ", &job.source_language_code, "\n");
    write_targets(&mut entry, &job.target_language_codes);
    write_line_if(&mut entry, "Output S3 Uri: ", &job.output_s3_uri, "\n");
    write_counts(&mut entry, &job.job_details);
    write_line_if(&mut entry, "Job Status: ", &job.job_status, "\n");
    write_line_if(&mut entry, "Job Message: ", &job.message, "\n\n\n");
    entry
}

/// What is written of the translation jobs to
/// `ListTranslationJobsDetails.txt`: for every job, a line for each thing
/// that is known of it.
pub fn list_translation_jobs(jobs: &Option<Vec<TranslationJob>>) -> (text: String)
    ensures
        text@ == jobs_text(listed(*jobs)),
{
    let mut text = String::new();
    match jobs {
        Some(list) => {
            let mut i: usize = 0;
            assert(list@.take(0) =~= Seq::<TranslationJob>::empty());
            while i < list.len()
                invariant
                    i <= list.len(),
                    text@ == jobs_text(list@.take(i as int)),
                decreases list.len() - i,
            {
                assert(list@.take(i + 1).drop_last() =~= list@.take(i as int));
                let job = &list[i];
                let entry = job_record(
                    job,
                    &http_date_text_of(job.submitted_time),
                    &http_date_text_of(job.end_time),
                );
                text.append(entry.as_str());
                i = i + 1;
            }
            assert(list@.take(i as int) =~= list@);
        },
        None => {},
    }
    text
}

/// One line for each target language.
pub open spec fn code_lines(codes: Seq<Seq<char>>) -> Seq<Seq<char>> {
    codes.map_values(|c: Seq<char>| "Language Code: "@ + c)
}

/// What is said of the target languages of a job.
pub open spec fn targets_said(codes: Option<Vec<String>>) -> Seq<Seq<char>> {
    match codes {
        Some(list) => seq!["Target Language Codes\n"@] + code_lines(views(list@)) + seq![
            "Execute the 'Get Language Info' option to determine the language associated with the provided language codes\n"@,
        ],
        None => Seq::empty(),
    }
}

/// What is said of the source language of a job.
pub open spec fn source_said(code: Option<String>) -> Seq<Seq<char>> {
    match code {
        Some(c) => seq![
            "Source Language Code: "@ + c@,
            "The source language of the document is automatically identified using the ;DetectDominantLanguages' API of the Comprehend service\n"@,
        ],
        None => Seq::empty(),
    }
}

/// What is said of the counts of a job.
pub open spec fn counts_said(details: Option<JobDetails>) -> Seq<Seq<char>> {
    match details {
        Some(d) => said_of(
            "Input Document Count: "@,
            number_view(d.input_documents_count),
            Seq::empty(),
        ) + said_of(
            "Document Success Count: "@,
            number_view(d.translated_documents_count),
            Seq::empty(),
        ) + said_of(
            "Document Error Count: "@,
            number_view(d.documents_with_errors_count),
            Seq::empty(),
        ),
        None => Seq::empty(),
    }
}

/// What is said of a job, line by line, down to a last empty line, given
/// how its times are written.
pub open spec fn job_said_with(
    job: TranslationJob,
    submitted: Option<Seq<char>>,
    ended: Option<Seq<char>>,
) -> Seq<Seq<char>> {
    said_if(
        "Data Access Role Amazon Resource Name(ARN): "@,
        job.data_access_role_arn,
        Seq::empty(),
    ) + said_if("Job Name: "@, job.job_name, Seq::empty()) + said_if(
        "Job ID: "@,
        job.job_id,
        Seq::empty(),
    ) + source_said(job.source_language_code) + targets_said(job.target_language_codes)
        + counts_said(job.job_details) + said_if(
        "Output S3 Uri: "@,
        job.output_s3_uri,
        Seq::empty(),
    ) + said_of("Submitted Date and Time: "@, submitted, Seq::empty()) + said_of(
        "Finished Date and Time: "@,
        ended,
        Seq::empty(),
    ) + said_if(
        "Job Status: "@,
        job.job_status,
        Seq::empty(),
    ) + said_if("Message: "@, job.message, Seq::empty()) + seq![Seq::empty()]
}

/// What is said of a job, line by line, down to a last empty line, its
/// times as dates of the HTTP kind.
pub open spec fn job_said(job: TranslationJob) -> Seq<Seq<char>> {
    job_said_with(job, date_text_of(job.submitted_time), date_text_of(job.end_time))
}

fn say_targets(lines: &mut Vec<String>, codes: &Option<Vec<String>>)
    ensures
        views(final(lines)@) == views(old(lines)@) + targets_said(*codes),
{
    match codes {
        Some(list) => {
            say_plain(lines, "Target Language Codes\n");
            let ghost start = views(lines@);
            proof {
                reveal_strlit("");
                assert(""@ =~= Seq::<char>::empty());
            }
            let mut i: usize = 0;
            assert(views(lines@) =~= start + code_lines(views(list@.take(0))));
            while i < list.len()
                invariant
                    i <= list.len(),
                    views(lines@) == start + code_lines(views(list@.take(i as int))),
                decreases list.len() - i,
            {
                say(lines, "Language Code: ", list[i].as_str(), "");
                proof {
                    reveal_strlit("");
                    let line = "Language Code: "@ + list@[i as int]@;
                    assert("Language Code: "@ + list@[i as int]@ + ""@ =~= line);
                    let after = code_lines(views(list@.take(i + 1)));
                    assert(after =~= code_lines(views(list@.take(i as int))).push(line));
                    assert(views(lines@) =~= start + after);
                }
                i = i + 1;
            }
            assert(list@.take(i as int) =~= list@);
            say_plain(
                lines,
                "Execute the 'Get Language Info' option to determine the language associated with the provided language codes\n",
            );
            assert(views(lines@) =~= views(old(lines)@) + targets_said(*codes));
        },
        None => {
            assert(views(lines@) =~= views(old(lines)@) + targets_said(*codes));
        },
    }
}

fn say_source(lines: &mut Vec<String>, code: &Option<String>)
    ensures
        views(final(lines)@) == views(old(lines)@) + source_said(*code),
{
    proof {
        reveal_strlit("");
        assert(""@ =~= Seq::<char>::empty());
    }
    match code {
        Some(c) => {
            say(lines, "Source Language Code: ", c.as_str(), "");
            say_plain(
                lines,
                "The source language of the document is automatically identified using the ;DetectDominantLanguages' API of the Comprehend service\n",
            );
            assert(views(lines@) =~= views(old(lines)@) + source_said(*code));
        },
        None => {
            assert(views(lines@) =~= views(old(lines)@) + source_said(*code));
        },
    }
}

fn say_counts(lines: &mut Vec<String>, details: &Option<JobDetails>)
    ensures
        views(final(lines)@) == views(old(lines)@) + counts_said(*details),
{
    proof {
        reveal_strlit("");
        assert(""@ =~= Seq::<char>::empty());
    }
    match details {
        Some(d) => {
            say_if(lines, "Input Document Count: ", &number_text(d.input_documents_count), "");
            say_if(
                lines,
                "Document Success Count: ",
                &number_text(d.translated_documents_count),
                "",
            );
            say_if(
                lines,
                "Document Error Count: ",
                &number_text(d.documents_with_errors_count),
                "",
            );
            assert(views(lines@) =~= views(old(lines)@) + counts_said(*details));
        },
        None => {
            assert(views(lines@) =~= views(old(lines)@) + counts_said(*details));
        },
    }
}

/// What is said of a translation job, given how its times are written: a
/// line for each thing that is known of it, then an empty line.
pub fn job_description(job: &TranslationJob, submitted: &Option<String>, ended: &Option<String>)
    -> (lines: Vec<String>)
    ensures
        views(lines@) == job_said_with(*job, text_view(*submitted), text_view(*ended)),
{
    let mut lines: Vec<String> = Vec::new();
    assert(views(lines@) =~= Seq::<Seq<char>>::empty());
    proof {
        reveal_strlit("");
        assert(""@ =~= Seq::<char>::empty());
    }
    say_if(
        &mut lines,
        "Data Access Role Amazon Resource Name(ARN): ",
        &job.data_access_role_arn,
        "",
    );
    assert(views(lines@) =~= said_if(
        "Data Access Role Amazon Resource Name(ARN): "@,
        job.data_access_role_arn,
        Seq::empty(),
    ));
    say_if(&mut lines, "Job Name: ", &job.job_name, "");
    say_if(&mut lines, "Job ID: ", &job.job_id, "");
    say_source(&mut lines, &job.source_language_code);
    say_targets(&mut lines, &job.target_language_codes);
    say_counts(&mut lines, &job.job_details);
    say_if(&mut lines, "Output S3 Uri: ", &job.output_s3_uri, "");
    say_if(&mut lines, "Submitted Date and Time: ", submitted, "");
    say_if(&mut lines, "Finished Date and Time: ", ended, "");
    say_if(&mut lines, "Job Status: ", &job.job_status, "");
    say_if(&mut lines, "Message: ", &job.message, "");
    let ghost said = views(lines@);
    say_plain(&mut lines, "");
    assert(views(lines@) =~= said + seq![Seq::<char>::empty()]);
    lines
}

/// What is said of a translation job: a line for each thing that is known
/// of it, then an empty line. Nothing is said where the service knows
/// nothing of the job.
pub fn describe_text_translation_job(job: &Option<TranslationJob>) -> (lines: Vec<String>)
    ensures
        views(lines@) == (match *job {
            Some(j) => job_said(j),
            None => Seq::empty(),
        }),
{
    match job {
        Some(j) => job_description(
            j,
            &http_date_text_of(j.submitted_time),
            &http_date_text_of(j.end_time),
        ),
        None => {
            let lines: Vec<String> = Vec::new();
            assert(views(lines@) =~= Seq::<Seq<char>>::empty());
            lines
        },
    }
}

} // verus!
