//! What Polly tells of voices and of speech-synthesis tasks, and where
//! synthesized speech is written.
use crate::text::{as_text, chars_of, copy_of, listed, said_if, said_of, say_if, str_view,
    str_views, text_view, views};
use crate::time::{date_text_of, http_date_text_of, Timestamp};
use vstd::prelude::*;
use vstd::string::*;

verus! {

/// A text without its slashes.
pub open spec fn without_slashes(s: Seq<char>) -> Seq<char>
    decreases s.len(),
{
    if s.len() == 0 {
        Seq::empty()
    } else if s.last() == '/' {
        without_slashes(s.drop_last())
    } else {
        without_slashes(s.drop_last()).push(s.last())
    }
}

/// The extension that a content type names: what follows its first slash,
/// without any further slash; empty where it has no slash.
pub open spec fn extension_of(content_type: Seq<char>) -> Seq<char>
    decreases content_type.len(),
{
    if content_type.len() == 0 {
        Seq::empty()
    } else if content_type[0] == '/' {
        without_slashes(content_type.skip(1))
    } else {
        extension_of(content_type.skip(1))
    }
}

/// The extension that a content type names.
pub fn extension(content_type: &str) -> (out: String)
    ensures
        out@ == extension_of(content_type@),
{
    let chars = chars_of(content_type);
    let n: usize = chars.len();
    let mut a: usize = 0;
    assert(content_type@.skip(0) =~= content_type@);
    while a < n && chars[a] != '/'
        invariant
            a <= n,
            n == content_type@.len(),
            chars@ == content_type@,
            extension_of(content_type@) == extension_of(content_type@.skip(a as int)),
        decreases n - a,
    {
        assert(content_type@.skip(a as int).skip(1) =~= content_type@.skip(a + 1));
        a = a + 1;
    }
    let mut out = String::new();
    if a == n {
        return out;
    }
    assert(content_type@.skip(a as int).skip(1) =~= content_type@.skip(a + 1));
    let start: usize = a + 1;
    let ghost rest = content_type@.skip(start as int);
    let mut i: usize = start;
    assert(rest.take(0) =~= Seq::<char>::empty());
    while i < n
        invariant
            start <= i <= n,
            n == content_type@.len(),
            chars@ == content_type@,
            rest == content_type@.skip(start as int),
            out@ == without_slashes(rest.take(i - start)),
        decreases n - i,
    {
        assert(rest.take(i + 1 - start).drop_last() =~= rest.take(i - start));
        assert(rest.take(i + 1 - start).last() == content_type@[i as int]);
        if chars[i] != '/' {
            let ghost before = out@;
            out.append(content_type.substring_char(i, i + 1));
            assert(content_type@.subrange(i as int, i + 1) =~= seq![content_type@[i as int]]);
            assert(out@ =~= before.push(content_type@[i as int]));
        }
        i = i + 1;
    }
    assert(rest.take(n - start) =~= rest);
    out
}

/// Speech that Polly synthesized.
pub struct SpeechOuputInfo {
    pub speech_bytes: Option<Vec<u8>>,
    pub character_synthesized: i32,
    pub content_type: Option<String>,
}

/// A file of synthesized speech that is to be written, and what is said
/// when it has been written.
pub struct AudioFile {
    pub path_name: String,
    pub bytes: Vec<u8>,
    pub said: String,
}

/// The path of the speech of one voice.
pub open spec fn voice_path(prefix: Seq<char>, alias: Seq<char>, extension: Seq<char>) -> Seq<
    char,
> {
    prefix + alias + "_voice_audio."@ + extension
}

/// What is said when the speech of one voice has been written.
pub open spec fn voice_said(prefix: Seq<char>, alias: Seq<char>, extension: Seq<char>) -> Seq<
    char,
> {
    "An audio file with the name "@ + prefix + "/"@ + alias + "_voice_audio."@ + extension
        + " has been successfully created\n"@
}

/// What is said when speech has been written.
pub open spec fn audio_said(extension: Seq<char>) -> Seq<char> {
    "An audio file with the extension "@ + extension
        + " has been successfully written to the current directory\n"@
}

impl SpeechOuputInfo {
    pub fn build_speech_output_info(
        speech_bytes: Option<Vec<u8>>,
        character_synthesized: i32,
        content_type: Option<String>,
    ) -> (out: Self)
        ensures
            out == (SpeechOuputInfo { speech_bytes, character_synthesized, content_type }),
    {
        Self { speech_bytes, character_synthesized, content_type }
    }

    /// Hands out the speech as the file of one voice: its path is the
    /// prefix, the alias, `_voice_audio.` and the extension that the
    /// content type names. Nothing is written where the content type is
    /// not known.
    pub fn generate_audio_with_path_name(&mut self, path_prefix: &str, path_alias: &str) -> (file:
        Option<AudioFile>)
        requires
            old(self).speech_bytes is Some,
        ensures
            *final(self) == (SpeechOuputInfo { speech_bytes: None, ..*old(self) }),
            match old(self).content_type {
                Some(t) => file is Some && file->0.bytes == old(self).speech_bytes->0
                    && file->0.path_name@ == voice_path(
                    path_prefix@,
                    path_alias@,
                    extension_of(t@),
                ) && file->0.said@ == voice_said(path_prefix@, path_alias@, extension_of(t@)),
                None => file is None,
            },
    {
        let bytes = match self.speech_bytes.take() {
            Some(b) => b,
            None => Vec::new(),
        };
        match &self.content_type {
            Some(content_type) => {
                let ext = extension(content_type.as_str());
                let mut path_name = String::from_str(path_prefix);
                path_name.append(path_alias);
                path_name.append("_voice_audio.");
                path_name.append(ext.as_str());
                let mut said = String::from_str("An audio file with the name ");
                said.append(path_prefix);
                said.append("/");
                said.append(path_alias);
                said.append("_voice_audio.");
                said.append(ext.as_str());
                said.append(" has been successfully created\n");
                Some(AudioFile { path_name, bytes, said })
            },
            None => None,
        }
    }

    /// Hands out the speech as the file `synthesized_audio.` and the
    /// extension that the content type names. Nothing is written where the
    /// content type is not known.
    pub fn generate_audio(&mut self) -> (file: Option<AudioFile>)
        requires
            old(self).speech_bytes is Some,
        ensures
            *final(self) == (SpeechOuputInfo { speech_bytes: None, ..*old(self) }),
            match old(self).content_type {
                Some(t) => file is Some && file->0.bytes == old(self).speech_bytes->0
                    && file->0.path_name@ == "synthesized_audio."@ + extension_of(t@)
                    && file->0.said@ == audio_said(extension_of(t@)),
                None => file is None,
            },
    {
        let bytes = match self.speech_bytes.take() {
            Some(b) => b,
            None => Vec::new(),
        };
        match &self.content_type {
            Some(content_type) => {
                let ext = extension(content_type.as_str());
                let mut path_name = String::from_str("synthesized_audio.");
                path_name.append(ext.as_str());
                let mut said = String::from_str("An audio file with the extension ");
                said.append(ext.as_str());
                said.append(" has been successfully written to the current directory\n");
                Some(AudioFile { path_name, bytes, said })
            },
            None => None,
        }
    }

    pub fn get_synthesized_count(&self) -> (count: i32)
        ensures
            count == self.character_synthesized,
    {
        self.character_synthesized
    }

    pub fn get_content_type(&self) -> (content_type: Option<String>)
        ensures
            content_type == self.content_type,
    {
        copy_of(&self.content_type)
    }
}

/// A speech-synthesis task.
#[derive(Clone, Debug)]
pub struct SynthesisTask {
    pub task_id: Option<String>,
    pub engine: Option<String>,
    pub task_status: Option<String>,
    pub task_status_reason: Option<String>,
    pub output_uri: Option<String>,
    pub creation_time: Option<Timestamp>,
    pub output_format: Option<String>,
    pub text_type: Option<String>,
    pub voice_id: Option<String>,
    pub language_code: Option<String>,
}

/// A speech-synthesis task, as Polly describes it.
pub struct SynthesizeTask(pub SynthesisTask);

impl SynthesizeTask {
    pub fn wrap(type_: SynthesisTask) -> (out: Self)
        ensures
            out.0 == type_,
    {
        Self(type_)
    }

    pub fn get_task_id(&self) -> (out: Option<&str>)
        ensures
            str_view(out) == text_view(self.0.task_id),
    {
        as_text(&self.0.task_id)
    }

    pub fn get_engine(&self) -> (out: Option<&str>)
        ensures
            str_view(out) == text_view(self.0.engine),
    {
        as_text(&self.0.engine)
    }

    pub fn get_task_status(&self) -> (out: Option<&str>)
        ensures
            str_view(out) == text_view(self.0.task_status),
    {
        as_text(&self.0.task_status)
    }

    pub fn get_task_status_reason(&self) -> (out: Option<&str>)
        ensures
            str_view(out) == text_view(self.0.task_status_reason),
    {
        as_text(&self.0.task_status_reason)
    }

    pub fn get_output_uri(&self) -> (out: Option<&str>)
        ensures
            str_view(out) == text_view(self.0.output_uri),
    {
        as_text(&self.0.output_uri)
    }

    pub fn get_output_format(&self) -> (out: Option<&str>)
        ensures
            str_view(out) == text_view(self.0.output_format),
    {
        as_text(&self.0.output_format)
    }

    pub fn get_text_type(&self) -> (out: Option<&str>)
        ensures
            str_view(out) == text_view(self.0.text_type),
    {
        as_text(&self.0.text_type)
    }

    pub fn get_voice_id(&self) -> (out: Option<&str>)
        ensures
            str_view(out) == text_view(self.0.voice_id),
    {
        as_text(&self.0.voice_id)
    }

    pub fn get_language_code(&self) -> (out: Option<&str>)
        ensures
            str_view(out) == text_view(self.0.language_code),
    {
        as_text(&self.0.language_code)
    }
}

/// A voice of Polly.
#[derive(Clone, Debug)]
pub struct Voice {
    pub gender: Option<String>,
    pub id: Option<String>,
    pub language_code: Option<String>,
    pub language_name: Option<String>,
    pub name: Option<String>,
    pub supported_engines: Option<Vec<String>>,
}

/// A voice, as Polly describes it.
pub struct DescribeVoices(pub Voice);

impl DescribeVoices {
    pub fn wrap(type_: Voice) -> (out: Self)
        ensures
            out.0 == type_,
    {
        Self(type_)
    }

    pub fn get_gender(&self) -> (out: Option<&str>)
        ensures
            str_view(out) == text_view(self.0.gender),
    {
        as_text(&self.0.gender)
    }

    pub fn get_voiceid(&self) -> (out: Option<&str>)
        ensures
            str_view(out) == text_view(self.0.id),
    {
        as_text(&self.0.id)
    }

    pub fn get_language_code(&self) -> (out: Option<&str>)
        ensures
            str_view(out) == text_view(self.0.language_code),
    {
        as_text(&self.0.language_code)
    }

    pub fn get_language_name(&self) -> (out: Option<&str>)
        ensures
            str_view(out) == text_view(self.0.language_name),
    {
        as_text(&self.0.language_name)
    }

    pub fn get_voice_name(&self) -> (out: Option<&str>)
        ensures
            str_view(out) == text_view(self.0.name),
    {
        as_text(&self.0.name)
    }

    /// The engines that speak with the voice.
    pub fn get_supported_engines(&self) -> (out: Option<Vec<&str>>)
        ensures
            out is Some == self.0.supported_engines is Some,
            out is Some ==> str_views(out->0@) == views(self.0.supported_engines->0@),
    {
        match &self.0.supported_engines {
            Some(engines) => {
                let mut out: Vec<&str> = Vec::new();
                let mut i: usize = 0;
                while i < engines.len()
                    invariant
                        i <= engines.len(),
                        out@.len() == i,
                        forall|k: int| 0 <= k < i ==> out@[k]@ == engines@[k]@,
                    decreases engines.len() - i,
                {
                    out.push(engines[i].as_str());
                    i = i + 1;
                }
                assert(str_views(out@) =~= views(engines@));
                Some(out)
            },
            None => None,
        }
    }
}

/// The identifiers and the language codes of the voices, in their order.
pub fn get_voice_info_given_engine(voices: &Option<Vec<Voice>>) -> (out: (
    Vec<Option<String>>,
    Vec<Option<String>>,
))
    ensures
        out.0@.len() == listed(*voices).len(),
        out.1@.len() == listed(*voices).len(),
        forall|k: int|
            0 <= k < listed(*voices).len() ==> out.0@[k] == listed(*voices)[k].id && out.1@[k]
                == listed(*voices)[k].language_code,
{
    let mut ids: Vec<Option<String>> = Vec::new();
    let mut codes: Vec<Option<String>> = Vec::new();
    match voices {
        Some(list) => {
            let mut i: usize = 0;
            while i < list.len()
                invariant
                    i <= list.len(),
                    ids@.len() == i,
                    codes@.len() == i,
                    forall|k: int|
                        0 <= k < i ==> ids@[k] == list@[k].id && codes@[k]
                            == list@[k].language_code,
                decreases list.len() - i,
            {
                ids.push(copy_of(&list[i].id));
                codes.push(copy_of(&list[i].language_code));
                i = i + 1;
            }
        },
        None => {},
    }
    (ids, codes)
}

/// What is said of one task, given how its time is written.
pub open spec fn task_said_with(task: SynthesisTask, created: Option<Seq<char>>) -> Seq<
    Seq<char>,
> {
    said_of("Creation Time: "@, created, Seq::empty()) + said_if(
        "Task ID: "@,
        task.task_id,
        Seq::empty(),
    ) + said_if("Status Reason: "@, task.task_status_reason, Seq::empty()) + said_if(
        "Task Status: "@,
        task.task_status,
        Seq::empty(),
    ) + said_if("Output URI: "@, task.output_uri, "\n"@)
}

/// What is said of one task: a line for each thing that is known of it,
/// its time as a date of the HTTP kind.
pub open spec fn task_said(task: SynthesisTask) -> Seq<Seq<char>> {
    task_said_with(task, date_text_of(task.creation_time))
}

/// What is said of all the tasks, in their order.
pub open spec fn tasks_said(tasks: Seq<SynthesisTask>) -> Seq<Seq<char>>
    decreases tasks.len(),
{
    if tasks.len() == 0 {
        Seq::empty()
    } else {
        tasks_said(tasks.drop_last()) + task_said(tasks.last())
    }
}

/// What is said of one task, given how its time is written: a line for
/// each thing that is known of it.
pub fn task_description(task: &SynthesisTask, created: &Option<String>) -> (said: Vec<String>)
    ensures
        views(said@) == task_said_with(*task, text_view(*created)),
{
    proof {
        reveal_strlit("");
        assert(""@ =~= Seq::<char>::empty());
    }
    let mut said: Vec<String> = Vec::new();
    assert(views(said@) =~= Seq::<Seq<char>>::empty());
    say_if(&mut said, "Creation Time: ", created, "");
    assert(views(said@) =~= said_of("Creation Time: "@, text_view(*created), Seq::empty()));
    say_if(&mut said, "Task ID: ", &task.task_id, "");
    say_if(&mut said, "Status Reason: ", &task.task_status_reason, "");
    say_if(&mut said, "Task Status: ", &task.task_status, "");
    say_if(&mut said, "Output URI: ", &task.output_uri, "\n");
    said
}

fn say_task(lines: &mut Vec<String>, task: &SynthesisTask)
    ensures
        views(final(lines)@) == views(old(lines)@) + task_said(*task),
{
    let said = task_description(task, &http_date_text_of(task.creation_time));
    crate::text::push_all(lines, said);
}

/// What is said of the completed tasks: a heading, then a line for each
/// thing that is known of each task. Nothing is said where Polly names no
/// tasks.
pub fn list_synthesise_speech(tasks: &Option<Vec<SynthesisTask>>) -> (lines: Vec<String>)
    ensures
        views(lines@) == (match *tasks {
            Some(list) => seq!["Synthesize Task Details\n\n"@] + tasks_said(list@),
            None => Seq::empty(),
        }),
{
    let mut lines: Vec<String> = Vec::new();
    assert(views(lines@) =~= Seq::<Seq<char>>::empty());
    match tasks {
        Some(list) => {
            crate::text::say_plain(&mut lines, "Synthesize Task Details\n\n");
            let mut i: usize = 0;
            assert(list@.take(0) =~= Seq::<SynthesisTask>::empty());
            assert(views(lines@) =~= seq!["Synthesize Task Details\n\n"@] + tasks_said(
                list@.take(0),
            ));
            while i < list.len()
                invariant
                    i <= list.len(),
                    views(lines@) == seq!["Synthesize Task Details\n\n"@] + tasks_said(
                        list@.take(i as int),
                    ),
                decreases list.len() - i,
            {
                assert(list@.take(i + 1).drop_last() =~= list@.take(i as int));
                say_task(&mut lines, &list[i]);
                assert(views(lines@) =~= seq!["Synthesize Task Details\n\n"@] + tasks_said(
                    list@.take(i + 1),
                ));
                i = i + 1;
            }
            assert(list@.take(i as int) =~= list@);
        },
        None => {},
    }
    lines
}

/// What is written of a task that was started, to `task_id.txt`.
pub fn start_speech_synthesise_task(task_id: &str, bucket_name: &str) -> (record: String)
    ensures
        record@ == "The speech synthesis task with ID "@ + task_id@
            + " has been initiated for the bucket named "@ + bucket_name@,
{
    let mut record = String::from_str("The speech synthesis task with ID ");
    record.append(task_id);
    record.append(" has been initiated for the bucket named ");
    record.append(bucket_name);
    record
}

} // verus!
