use aws_apis::s3_ops::{acl_note, bucket_region, download_path, expiry_hours, expiry_seconds,
    file_name_from_matches, file_name_of_key, get_buckets, list_objects_given_prefix,
    presigned_url_record, retrieve_keys_in_a_bucket, Moment};

fn strings(items: &[&str]) -> Vec<String> {
    items.iter().map(|s| s.to_string()).collect()
}

#[test]
fn file_name_of_keys_with_extension() {
    assert_eq!(file_name_of_key("photos/cat.jpg").as_deref(), Some("cat.jpg"));
    assert_eq!(file_name_of_key("cat.jpg").as_deref(), Some("cat.jpg"));
    assert_eq!(file_name_of_key("a/b/c/report.final.pdf").as_deref(), Some("report.final.pdf"));
}

#[test]
fn file_name_of_keys_without_extension() {
    assert_eq!(file_name_of_key("dir/file").as_deref(), Some("file"));
    assert_eq!(file_name_of_key("plain").as_deref(), Some("plain"));
    assert_eq!(file_name_of_key("").as_deref(), Some(""));
    assert_eq!(file_name_of_key("a/b/").as_deref(), Some(""));
}

#[test]
fn file_name_joins_every_match() {
    assert_eq!(file_name_of_key("a.b/c.d").as_deref(), Some("a.bc.d"));
}

#[test]
fn file_name_from_matches_prefers_first_search() {
    let dotted = strings(&["x.y", "z.w"]);
    let last = strings(&["/tail"]);
    let bare = strings(&["bare"]);
    let none: Vec<String> = Vec::new();
    assert_eq!(file_name_from_matches(&dotted, &last, &bare), "x.yz.w");
    assert_eq!(file_name_from_matches(&none, &last, &bare), "tail");
    assert_eq!(file_name_from_matches(&none, &none, &bare), "bare");
    assert_eq!(file_name_from_matches(&none, &none, &none), "");
    assert_eq!(file_name_from_matches(&strings(&["/", "/a"]), &none, &none), "/a");
}

#[test]
fn download_path_puts_prefix_before_name() {
    assert_eq!(download_path("imgs/a.png", Some("face_details_images/")).as_deref(),
        Some("face_details_images/a.png"));
    assert_eq!(download_path("imgs/a.png", None).as_deref(), Some("a.png"));
}

#[test]
fn bucket_region_prefers_credentials() {
    assert_eq!(bucket_region(Some("us-east-1"), Some("eu-west-1")), "us-east-1");
    assert_eq!(bucket_region(None, Some("eu-west-1")), "eu-west-1");
    assert_eq!(
        bucket_region(None, None),
        "The region value is read from the .env file in the current directory if it is not provided in the credential file"
    );
}

#[test]
fn acl_note_only_for_public_lists() {
    assert_eq!(
        acl_note("public-read").as_deref(),
        Some("The permission is set to 'public-read' making the object accessible to anyone who has the object's URL")
    );
    assert_eq!(
        acl_note("public-read-write").as_deref(),
        Some("The permission is configured as 'public-read-write' granting read and write access to anyone who accesses the object's URL")
    );
    assert_eq!(acl_note("private"), None);
    assert_eq!(acl_note(""), None);
}

#[test]
fn expiry_in_seconds_and_hours() {
    assert_eq!(expiry_seconds(0), Some(0));
    assert_eq!(expiry_seconds(1), Some(3600));
    assert_eq!(expiry_seconds(24), Some(86400));
    assert_eq!(expiry_seconds(u64::MAX / 3600), Some((u64::MAX / 3600) * 3600));
    assert_eq!(expiry_seconds(u64::MAX / 3600 + 1), None);
    assert_eq!(expiry_seconds(u64::MAX), None);
    assert_eq!(expiry_hours(5, 18000), 1);
    assert_eq!(expiry_hours(5, 3600), 5);
    assert_eq!(expiry_hours(1, 7200), 0);
}

#[test]
fn presigned_record_lists_the_moment() {
    let at = Moment {
        year: 2023,
        month: 9,
        week_day: "Tue".to_string(),
        day: 5,
        hour: 14,
        minute: 3,
        second: 59,
    };
    assert_eq!(
        presigned_url_record("https://x/y?z", &at, 1),
        "The URL for the content is: https://x/y?z\n\n\nStarted at\nyear: 2023\nmonth: 9\nweek_day: Tue\nday: 5\nminutes: 3\nhours: 14\nseconds: 59\n\nExpired at: 1 h"
    );
}

#[test]
fn keys_that_are_there_are_listed() {
    let contents = Some(vec![Some("a".to_string()), None, Some("b/c".to_string())]);
    assert_eq!(retrieve_keys_in_a_bucket(&contents), strings(&["a", "b/c"]));
    assert_eq!(list_objects_given_prefix(&contents), strings(&["a", "b/c"]));
    assert_eq!(retrieve_keys_in_a_bucket(&None), Vec::<String>::new());
    let buckets = Some(vec![Some("one".to_string()), Some("two".to_string())]);
    assert_eq!(get_buckets(&buckets), strings(&["one", "two"]));
    assert_eq!(get_buckets(&None), Vec::<String>::new());
}
