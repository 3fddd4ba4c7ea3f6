//! What Transcribe tells of a transcription job.
use crate::text::{each_labelled, number_text, number_view, said_if, said_of, say_each, say_if,
    say_plain, text_view, views};
use crate::time::{date_text_of, http_date_text_of, Timestamp};
use vstd::prelude::*;
use vstd::string::*;

verus! {

/// The media that a job transcribes.
#[derive(Clone, Debug)]
pub struct Media {
    pub media_file_uri: Option<String>,
    pub redacted_media_file_uri: Option<String>,
}

/// Where the transcript of a job lies.
#[derive(Clone, Debug)]
pub struct Transcript {
    pub transcript_file_uri: Option<String>,
    pub redacted_transcript_file_uri: Option<String>,
}

/// The subtitles that a job makes.
#[derive(Clone, Debug)]
pub struct SubtitlesOutput {
    pub formats: Option<Vec<String>>,
    pub subtitle_file_uris: Option<Vec<String>>,
    pub output_start_index: Option<i32>,
}

/// A transcription job.
#[derive(Clone, Debug)]
pub struct TranscriptionJob {
    pub transcription_job_name: Option<String>,
    pub transcription_job_status: Option<String>,
    pub language_code: Option<String>,
    pub media_format: Option<String>,
    pub media: Option<Media>,
    pub transcript: Option<Transcript>,
    pub start_time: Option<Timestamp>,
    pub creation_time: Option<Timestamp>,
    pub completion_time: Option<Timestamp>,
    pub failure_reason: Option<String>,
    pub subtitles: Option<SubtitlesOutput>,
}

/// What is said of the media of a job.
pub open spec fn media_said(media: Option<Media>) -> Seq<Seq<char>> {
    match media {
        Some(m) => seq!["Media Information Inlcuded In the Request:\n"@] + said_if(
            "Media_file Uri: "@,
            m.media_file_uri,
            Seq::empty(),
        ) + said_if("Redacted Media File Uri: "@, m.redacted_media_file_uri, Seq::empty()),
        None => Seq::empty(),
    }
}

/// What is said of the transcript of a job.
pub open spec fn transcript_said(transcript: Option<Transcript>) -> Seq<Seq<char>> {
    match transcript {
        Some(t) => said_if("Transcript File Uri: "@, t.transcript_file_uri, Seq::empty())
            + said_if(
            "Redacted Transcript File Uri: "@,
            t.redacted_transcript_file_uri,
            Seq::empty(),
        ),
        None => Seq::empty(),
    }
}

/// The lines of a list that may be missing, each behind the label.
pub open spec fn labelled_if(label: Seq<char>, items: Option<Vec<String>>) -> Seq<Seq<char>> {
    match items {
        Some(list) => each_labelled(label, views(list@)),
        None => Seq::empty(),
    }
}

/// What is said of the subtitles of a job.
pub open spec fn subtitles_said(subtitles: Option<SubtitlesOutput>) -> Seq<Seq<char>> {
    match subtitles {
        Some(s) => labelled_if("Subtitle Format: "@, s.formats) + labelled_if(
            "Subtitle Uri: "@,
            s.subtitle_file_uris,
        ) + said_of("Starting Index: "@, number_view(s.output_start_index), Seq::empty())
            + seq![
            Seq::empty(),
            "The bucket URL cannot be accessed until it is made public or only accessible through the web console\n"@,
            "To achieve this, please execute the 'Modify Object Visibility' option in the S3 operations menu to make the object public\n"@,
        ],
        None => Seq::empty(),
    }
}

/// What is said of a job, given how its times are written.
pub open spec fn job_said_with(
    job: TranscriptionJob,
    started: Option<Seq<char>>,
    created: Option<Seq<char>>,
    completed: Option<Seq<char>>,
) -> Seq<Seq<char>> {
    said_if("Transcription Job Name: "@, job.transcription_job_name, Seq::empty()) + said_if(
        "Transcription Job Status: "@,
        job.transcription_job_status,
        Seq::empty(),
    ) + said_if("Language_code: "@, job.language_code, Seq::empty()) + said_if(
        "Media Format: "@,
        job.media_format,
        Seq::empty(),
    ) + media_said(job.media) + transcript_said(job.transcript) + said_of(
        "Start Time: "@,
        started,
        Seq::empty(),
    ) + said_of("Creation Time: "@, created, Seq::empty()) + said_of(
        "Completion Time: "@,
        completed,
        Seq::empty(),
    ) + said_if("Failure Reason: "@, job.failure_reason, Seq::empty()) + subtitles_said(
        job.subtitles,
    )
}

/// What is said of a job: a line for each thing that is known of it, its
/// times as dates of the HTTP kind.
pub open spec fn job_said(job: TranscriptionJob) -> Seq<Seq<char>> {
    job_said_with(
        job,
        date_text_of(job.start_time),
        date_text_of(job.creation_time),
        date_text_of(job.completion_time),
    )
}

/// What is left of a job when everything that is said of it but its times
/// has been handed out.
pub open spec fn emptied(job: TranscriptionJob) -> TranscriptionJob {
    TranscriptionJob {
        transcription_job_name: None,
        transcription_job_status: None,
        language_code: None,
        media_format: None,
        media: None,
        transcript: None,
        failure_reason: None,
        subtitles: None,
        ..job
    }
}

fn say_media(lines: &mut Vec<String>, media: &Option<(Option<String>, Option<String>)>)
    ensures
        views(final(lines)@) == views(old(lines)@) + (match *media {
            Some(m) => seq!["Media Information Inlcuded In the Request:\n"@] + said_if(
                "Media_file Uri: "@,
                m.0,
                Seq::empty(),
            ) + said_if("Redacted Media File Uri: "@, m.1, Seq::empty()),
            None => Seq::empty(),
        }),
{
    proof {
        reveal_strlit("");
        assert(""@ =~= Seq::<char>::empty());
    }
    match media {
        Some(m) => {
            let mut said: Vec<String> = Vec::new();
            say_plain(&mut said, "Media Information Inlcuded In the Request:\n");
            assert(views(said@) =~= seq!["Media Information Inlcuded In the Request:\n"@]);
            say_if(&mut said, "Media_file Uri: ", &m.0, "");
            say_if(&mut said, "Redacted Media File Uri: ", &m.1, "");
            crate::text::push_all(lines, said);
        },
        None => {
            assert(views(lines@) =~= views(old(lines)@) + Seq::<Seq<char>>::empty());
        },
    }
}

fn say_transcript(lines: &mut Vec<String>, uris: &Option<(Option<String>, Option<String>)>)
    ensures
        views(final(lines)@) == views(old(lines)@) + (match *uris {
            Some(t) => said_if("Transcript File Uri: "@, t.0, Seq::empty()) + said_if(
                "Redacted Transcript File Uri: "@,
                t.1,
                Seq::empty(),
            ),
            None => Seq::empty(),
        }),
{
    proof {
        reveal_strlit("");
        assert(""@ =~= Seq::<char>::empty());
    }
    match uris {
        Some(t) => {
            let mut said: Vec<String> = Vec::new();
            assert(views(said@) =~= Seq::<Seq<char>>::empty());
            say_if(&mut said, "Transcript File Uri: ", &t.0, "");
            assert(views(said@) =~= said_if("Transcript File Uri: "@, t.0, Seq::empty()));
            say_if(&mut said, "Redacted Transcript File Uri: ", &t.1, "");
            crate::text::push_all(lines, said);
        },
        None => {
            assert(views(lines@) =~= views(old(lines)@) + Seq::<Seq<char>>::empty());
        },
    }
}

fn say_labelled_if(lines: &mut Vec<String>, label: &str, items: &Option<Vec<String>>)
    ensures
        views(final(lines)@) == views(old(lines)@) + labelled_if(label@, *items),
{
    match items {
        Some(list) => say_each(lines, label, list),
        None => {
            assert(views(lines@) =~= views(old(lines)@) + labelled_if(label@, *items));
        },
    }
}

fn say_subtitles(lines: &mut Vec<String>, subtitles: &Option<SubtitlesOutput>)
    ensures
        views(final(lines)@) == views(old(lines)@) + subtitles_said(*subtitles),
{
    proof {
        reveal_strlit("");
        assert(""@ =~= Seq::<char>::empty());
    }
    match subtitles {
        Some(s) => {
            let mut said: Vec<String> = Vec::new();
            assert(views(said@) =~= Seq::<Seq<char>>::empty());
            say_labelled_if(&mut said, "Subtitle Format: ", &s.formats);
            assert(views(said@) =~= labelled_if("Subtitle Format: "@, s.formats));
            say_labelled_if(&mut said, "Subtitle Uri: ", &s.subtitle_file_uris);
            say_if(&mut said, "Starting Index: ", &number_text(s.output_start_index), "");
            let ghost before = views(said@);
            say_plain(&mut said, "");
            say_plain(
                &mut said,
                "The bucket URL cannot be accessed until it is made public or only accessible through the web console\n",
            );
            say_plain(
                &mut said,
                "To achieve this, please execute the 'Modify Object Visibility' option in the S3 operations menu to make the object public\n",
            );
            assert(views(said@) =~= before + seq![
                Seq::empty(),
                "The bucket URL cannot be accessed until it is made public or only accessible through the web console\n"@,
                "To achieve this, please execute the 'Modify Object Visibility' option in the S3 operations menu to make the object public\n"@,
            ]);
            crate::text::push_all(lines, said);
        },
        None => {
            assert(views(lines@) =~= views(old(lines)@) + subtitles_said(*subtitles));
        },
    }
}

/// A transcription job whose parts are handed out once.
pub struct TranscriptionOutput(pub TranscriptionJob);

impl TranscriptionOutput {
    pub fn wrap(type_: TranscriptionJob) -> (out: Self)
        ensures
            out.0 == type_,
    {
        Self(type_)
    }

    /// Hands out the state of the job.
    pub fn job_status(&mut self) -> (status: Option<String>)
        ensures
            status == old(self).0.transcription_job_status,
            final(self).0 == (TranscriptionJob { transcription_job_status: None, ..old(self).0 }),
    {
        self.0.transcription_job_status.take()
    }

    fn lang_code(&mut self) -> (code: Option<String>)
        ensures
            code == old(self).0.language_code,
            final(self).0 == (TranscriptionJob { language_code: None, ..old(self).0 }),
    {
        self.0.language_code.take()
    }

    fn media_format(&mut self) -> (format: Option<String>)
        ensures
            format == old(self).0.media_format,
            final(self).0 == (TranscriptionJob { media_format: None, ..old(self).0 }),
    {
        self.0.media_format.take()
    }

    fn media(&mut self) -> (uris: Option<(Option<String>, Option<String>)>)
        ensures
            uris == (match old(self).0.media {
                Some(m) => Some((m.media_file_uri, m.redacted_media_file_uri)),
                None => None,
            }),
            final(self).0 == (TranscriptionJob { media: None, ..old(self).0 }),
    {
        match self.0.media.take() {
            Some(media) => Some((media.media_file_uri, media.redacted_media_file_uri)),
            None => None,
        }
    }

    fn transcript_uri(&mut self) -> (uris: Option<(Option<String>, Option<String>)>)
        ensures
            uris == (match old(self).0.transcript {
                Some(t) => Some((t.transcript_file_uri, t.redacted_transcript_file_uri)),
                None => None,
            }),
            final(self).0 == (TranscriptionJob { transcript: None, ..old(self).0 }),
    {
        match self.0.transcript.take() {
            Some(t) => Some((t.transcript_file_uri, t.redacted_transcript_file_uri)),
            None => None,
        }
    }

    fn start_time(&self) -> (time: Option<String>)
        ensures
            text_view(time) == date_text_of(self.0.start_time),
    {
        http_date_text_of(self.0.start_time)
    }

    fn creation_time(&self) -> (time: Option<String>)
        ensures
            text_view(time) == date_text_of(self.0.creation_time),
    {
        http_date_text_of(self.0.creation_time)
    }

    fn completion_time(&self) -> (time: Option<String>)
        ensures
            text_view(time) == date_text_of(self.0.completion_time),
    {
        http_date_text_of(self.0.completion_time)
    }

    /// Hands out why the job failed.
    pub fn failure_reason(&mut self) -> (reason: Option<String>)
        ensures
            reason == old(self).0.failure_reason,
            final(self).0 == (TranscriptionJob { failure_reason: None, ..old(self).0 }),
    {
        self.0.failure_reason.take()
    }

    /// What is said of the job, given how its times are written: a line for
    /// each thing that is known of it. Everything that is said but the
    /// times is handed out on the way.
    pub fn transcription_info(
        &mut self,
        started: &Option<String>,
        created: &Option<String>,
        completed: &Option<String>,
    ) -> (lines: Vec<String>)
        ensures
            views(lines@) == job_said_with(
                old(self).0,
                text_view(*started),
                text_view(*created),
                text_view(*completed),
            ),
            final(self).0 == emptied(old(self).0),
    {
        proof {
            reveal_strlit("");
            assert(""@ =~= Seq::<char>::empty());
        }
        let mut lines: Vec<String> = Vec::new();
        assert(views(lines@) =~= Seq::<Seq<char>>::empty());
        let name = self.0.transcription_job_name.take();
        say_if(&mut lines, "Transcription Job Name: ", &name, "");
        assert(views(lines@) =~= said_if(
            "Transcription Job Name: "@,
            old(self).0.transcription_job_name,
            Seq::empty(),
        ));
        let status = self.job_status();
        say_if(&mut lines, "Transcription Job Status: ", &status, "");
        let code = self.lang_code();
        say_if(&mut lines, "Language_code: ", &code, "");
        let format = self.media_format();
        say_if(&mut lines, "Media Format: ", &format, "");
        let media = self.media();
        say_media(&mut lines, &media);
        let uris = self.transcript_uri();
        say_transcript(&mut lines, &uris);
        say_if(&mut lines, "Start Time: ", started, "");
        say_if(&mut lines, "Creation Time: ", created, "");
        say_if(&mut lines, "Completion Time: ", completed, "");
        let reason = self.failure_reason();
        say_if(&mut lines, "Failure Reason: ", &reason, "");
        let subtitles = self.0.subtitles.take();
        say_subtitles(&mut lines, &subtitles);
        lines
    }

    /// What is said of the job: a line for each thing that is known of it.
    /// Everything that is said but the times is handed out on the way.
    pub fn print_transcription_info_as_text(&mut self) -> (lines: Vec<String>)
        ensures
            views(lines@) == job_said(old(self).0),
            final(self).0 == emptied(old(self).0),
    {
        let started = self.start_time();
        let created = self.creation_time();
        let completed = self.completion_time();
        self.transcription_info(&started, &created, &completed)
    }
}

/// The job that Transcribe tells of, where it tells of one.
pub fn get_transcribe_results(job: Option<TranscriptionJob>) -> (out: Option<TranscriptionOutput>)
    ensures
        match job {
            Some(j) => out == Some(TranscriptionOutput(j)),
            None => out is None,
        },
{
    match job {
        Some(j) => Some(TranscriptionOutput::wrap(j)),
        None => None,
    }
}

} // verus!
