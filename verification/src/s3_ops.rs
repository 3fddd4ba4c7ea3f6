//! What the S3 operations decide and write: the file a downloaded object is
//! saved to, the region of a new bucket, the note on an access-control list,
//! and the text that records a presigned address.
use crate::pattern::{find_all, regex_matches};
use crate::text::{begins_with, concat_texts, concat_all, decimal, decimal_i64, decimal_u64,
    present, present_texts, same_text, views, without_first};
use vstd::prelude::*;
use vstd::string::*;

verus! {

/// What is said in place of a region where neither the credentials nor the
/// environment name one.
pub open spec fn region_missing_text() -> Seq<char> {
    "The region value is read from the .env file in the current directory if it is not provided in the credential file"@
}

/// The region that a new bucket is created in: the one of the credentials,
/// else the one of the environment, else the text that says none was found.
pub open spec fn bucket_region_of(configured: Option<&str>, from_env: Option<&str>) -> Seq<char> {
    match configured {
        Some(region) => region@,
        None => match from_env {
            Some(region) => region@,
            None => region_missing_text(),
        },
    }
}

/// The region that a new bucket is created in.
pub fn bucket_region(configured: Option<&str>, from_env: Option<&str>) -> (region: String)
    ensures
        region@ == bucket_region_of(configured, from_env),
{
    match configured {
        Some(region) => String::from_str(region),
        None => match from_env {
            Some(region) => String::from_str(region),
            None => String::from_str(
                "The region value is read from the .env file in the current directory if it is not provided in the credential file",
            ),
        },
    }
}

/// A text without its leading slash, if it has one.
pub open spec fn without_leading_slash(name: Seq<char>) -> Seq<char> {
    if name.len() > 0 && name[0] == '/' {
        name.skip(1)
    } else {
        name
    }
}

/// The file name that three searches of an object key give: the matches of
/// the first search that found anything (name with extension, then last
/// path segment, then bare name), written together, without a leading slash.
pub open spec fn file_name_from(
    dotted: Seq<Seq<char>>,
    last_segment: Seq<Seq<char>>,
    bare: Seq<Seq<char>>,
) -> Seq<char> {
    let chosen = if dotted.len() > 0 {
        dotted
    } else if last_segment.len() > 0 {
        last_segment
    } else {
        bare
    };
    without_leading_slash(concat_all(chosen))
}

/// The pattern of a name with an extension.
pub open spec fn dotted_pattern() -> Seq<char> {
    r#"([^./]+)\.([^/]+)"#@
}

/// The pattern of the last path segment.
pub open spec fn last_segment_pattern() -> Seq<char> {
    r#"/([^/]+)$"#@
}

/// The pattern of a name without dot or slash.
pub open spec fn bare_pattern() -> Seq<char> {
    r#"^[^./]*$"#@
}

/// The file name of an object key; `None` where a pattern does not compile.
pub open spec fn key_file_name(key: Seq<char>) -> Option<Seq<char>> {
    match (
        regex_matches(dotted_pattern(), key),
        regex_matches(last_segment_pattern(), key),
        regex_matches(bare_pattern(), key),
    ) {
        (Some(dotted), Some(last_segment), Some(bare)) => Some(
            file_name_from(dotted, last_segment, bare),
        ),
        _ => None,
    }
}

/// The file name that three searches of an object key give.
pub fn file_name_from_matches(
    dotted: &Vec<String>,
    last_segment: &Vec<String>,
    bare: &Vec<String>,
) -> (name: String)
    ensures
        name@ == file_name_from(views(dotted@), views(last_segment@), views(bare@)),
{
    let whole = if dotted.len() > 0 {
        concat_texts(dotted)
    } else if last_segment.len() > 0 {
        concat_texts(last_segment)
    } else {
        concat_texts(bare)
    };
    if begins_with(whole.as_str(), '/') {
        without_first(whole.as_str())
    } else {
        whole
    }
}

/// The name of the file that the object `key` is saved under.
pub fn file_name_of_key(key: &str) -> (name: Option<String>)
    ensures
        match name {
            Some(n) => key_file_name(key@) == Some(n@),
            None => key_file_name(key@) is None,
        },
{
    let dotted = find_all(r#"([^./]+)\.([^/]+)"#, key);
    let last_segment = find_all(r#"/([^/]+)$"#, key);
    let bare = find_all(r#"^[^./]*$"#, key);
    match (dotted, last_segment, bare) {
        (Some(d), Some(l), Some(b)) => Some(file_name_from_matches(&d, &l, &b)),
        _ => None,
    }
}

/// Where a downloaded object is written: its file name behind the path
/// prefix, if one is given.
pub open spec fn download_path_of(key: Seq<char>, prefix: Option<&str>) -> Option<Seq<char>> {
    match key_file_name(key) {
        Some(name) => match prefix {
            Some(p) => Some(p@ + name),
            None => Some(name),
        },
        None => None,
    }
}

/// Where the object `object_name` is written when it is downloaded.
pub fn download_path(object_name: &str, path_prefix: Option<&str>) -> (path: Option<String>)
    ensures
        match path {
            Some(p) => download_path_of(object_name@, path_prefix) == Some(p@),
            None => download_path_of(object_name@, path_prefix) is None,
        },
{
    match file_name_of_key(object_name) {
        Some(name) => match path_prefix {
            Some(prefix) => {
                let mut path = String::from_str(prefix);
                path.append(name.as_str());
                Some(path)
            },
            None => Some(name),
        },
        None => None,
    }
}

/// What is said of an object whose access-control list makes it public;
/// nothing is said of another list.
pub open spec fn acl_note_of(acl: Seq<char>) -> Option<Seq<char>> {
    if acl == "public-read"@ {
        Some(
            "The permission is set to 'public-read' making the object accessible to anyone who has the object's URL"@,
        )
    } else if acl == "public-read-write"@ {
        Some(
            "The permission is configured as 'public-read-write' granting read and write access to anyone who accesses the object's URL"@,
        )
    } else {
        None
    }
}

/// What is said of an object after its access-control list was set.
pub fn acl_note(acl_permission: &str) -> (said: Option<String>)
    ensures
        match said {
            Some(t) => acl_note_of(acl_permission@) == Some(t@),
            None => acl_note_of(acl_permission@) is None,
        },
{
    if same_text(acl_permission, "public-read") {
        Some(
            String::from_str(
                "The permission is set to 'public-read' making the object accessible to anyone who has the object's URL",
            ),
        )
    } else if same_text(acl_permission, "public-read-write") {
        Some(
            String::from_str(
                "The permission is configured as 'public-read-write' granting read and write access to anyone who accesses the object's URL",
            ),
        )
    } else {
        None
    }
}

/// The seconds in `hours` hours, where they fit; `None` where they do not.
pub fn expiry_seconds(hours: u64) -> (seconds: Option<u64>)
    ensures
        match seconds {
            Some(s) => s == hours * 3600,
            None => hours * 3600 > u64::MAX,
        },
{
    if hours <= u64::MAX / 3600 {
        Some(hours * 3600)
    } else {
        None
    }
}

/// The hours after which a presigned address expires, as the record states
/// them: the seconds asked for, divided by the seconds that were granted.
pub fn expiry_hours(hours: u64, granted_seconds: u64) -> (stated: u64)
    requires
        hours * 3600 <= u64::MAX,
        granted_seconds > 0,
    ensures
        stated == (hours * 3600) / (granted_seconds as int),
{
    (hours * 3600) / granted_seconds
}

/// The moment at which a presigned address was made, in its calendar parts.
pub struct Moment {
    pub year: i32,
    pub month: u32,
    /// The day of the week, as it is written.
    pub week_day: String,
    pub day: u32,
    pub hour: u32,
    pub minute: u32,
    pub second: u32,
}

/// The record of a presigned address: the address, the moment it was made
/// at, and the hours after which it expires.
pub open spec fn presigned_record(url: Seq<char>, at: Moment, hours: u64) -> Seq<char> {
    "The URL for the content is: "@ + url + "\n\n\nStarted at\nyear: "@ + decimal(at.year as int)
        + "\nmonth: "@ + decimal(at.month as int) + "\nweek_day: "@ + at.week_day@ + "\nday: "@
        + decimal(at.day as int) + "\nminutes: "@ + decimal(at.minute as int) + "\nhours: "@
        + decimal(at.hour as int) + "\nseconds: "@ + decimal(at.second as int)
        + "\n\nExpired at: "@ + decimal(hours as int) + " h"@
}

/// The text that records a presigned address.
pub fn presigned_url_record(url: &str, at: &Moment, hours: u64) -> (record: String)
    ensures
        record@ == presigned_record(url@, *at, hours),
{
    let mut out = String::from_str("The URL for the content is: ");
    out.append(url);
    out.append("\n\n\nStarted at\nyear: ");
    out.append(decimal_i64(at.year as i64).as_str());
    out.append("\nmonth: ");
    out.append(decimal_u64(at.month as u64).as_str());
    out.append("\nweek_day: ");
    out.append(at.week_day.as_str());
    out.append("\nday: ");
    out.append(decimal_u64(at.day as u64).as_str());
    out.append("\nminutes: ");
    out.append(decimal_u64(at.minute as u64).as_str());
    out.append("\nhours: ");
    out.append(decimal_u64(at.hour as u64).as_str());
    out.append("\nseconds: ");
    out.append(decimal_u64(at.second as u64).as_str());
    out.append("\n\nExpired at: ");
    out.append(decimal_u64(hours).as_str());
    out.append(" h");
    out
}

/// The keys of the objects of a bucket that have a key, in their order;
/// none where the service names no objects.
pub fn retrieve_keys_in_a_bucket(contents: &Option<Vec<Option<String>>>) -> (keys: Vec<String>)
    ensures
        views(keys@) == (match *contents {
            Some(list) => present_texts(list@),
            None => Seq::empty(),
        }),
{
    match contents {
        Some(list) => present(list),
        None => {
            let keys: Vec<String> = Vec::new();
            assert(views(keys@) =~= Seq::<Seq<char>>::empty());
            keys
        },
    }
}

/// The keys of the objects under a prefix that have a key, in their order.
pub fn list_objects_given_prefix(contents: &Option<Vec<Option<String>>>) -> (keys: Vec<String>)
    ensures
        views(keys@) == (match *contents {
            Some(list) => present_texts(list@),
            None => Seq::empty(),
        }),
{
    retrieve_keys_in_a_bucket(contents)
}

/// The names of the buckets, all of which have to be known.
pub fn get_buckets(buckets: &Option<Vec<Option<String>>>) -> (names: Vec<String>)
    requires
        buckets is Some ==> forall|i: int|
            0 <= i < buckets->0@.len() ==> (#[trigger] buckets->0@[i]) is Some,
    ensures
        match *buckets {
            Some(list) => names@.len() == list@.len() && forall|i: int|
                0 <= i < list@.len() ==> Some(#[trigger] names@[i]) == list@[i],
            None => names@.len() == 0,
        },
{
    let mut names: Vec<String> = Vec::new();
    match buckets {
        Some(list) => {
            let mut i: usize = 0;
            while i < list.len()
                invariant
                    i <= list.len(),
                    names@.len() == i,
                    forall|k: int| 0 <= k < list@.len() ==> (#[trigger] list@[k]) is Some,
                    forall|k: int| 0 <= k < i ==> Some(#[trigger] names@[k]) == list@[k],
                decreases list.len() - i,
            {
                match &list[i] {
                    Some(name) => names.push(name.clone()),
                    None => {},
                }
                i = i + 1;
            }
        },
        None => {},
    }
    names
}

} // verus!
