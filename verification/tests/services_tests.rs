use aws_apis::amplify;
use aws_apis::aws_polly::{extension, get_voice_info_given_engine, list_synthesise_speech,
    start_speech_synthesise_task, DescribeVoices, SpeechOuputInfo, SynthesisTask, SynthesizeTask,
    Voice};
use aws_apis::credentials::CredentInitialize;
use aws_apis::dynamodb::{attribute_definitions, create_table, key_schema,
    parse_attribute_defintion_json, parse_key_schema_defintion_json, provisioned_throughput,
    JsonMember, TableDescription};
use aws_apis::memorydb_ops::{authentication_kind, create_memdb_user, delete_acl, describe_acl,
    describe_memdb_user, split_words, status_of, AclInfo, Authentication, AuthenticationKind,
    Endpoint, MemDBUser, MemDbClusterInfo};
use aws_apis::pinpoint_ops::{create_app, create_email_template, ApplicationResponse,
    TemplateMessage};
use aws_apis::rds_ops::{default_db_instance_id, describe_db_instance, get_db_cluster_id,
    get_db_instance_id, status_of_db_instance, DbClusterInfo, DbClusterMember, DbInstanceInfo};
use aws_apis::route53::create_hosted_zone;
use aws_apis::sns_ops::{create_topic, list_sms_sandbox_numbers, subscription, SandboxNumber};
use aws_apis::time::Timestamp;
use aws_apis::transcribe_ops::{get_transcribe_results, Media, SubtitlesOutput, Transcript,
    TranscriptionJob, TranscriptionOutput};

fn some(s: &str) -> Option<String> {
    Some(s.to_string())
}

fn strings(items: &[&str]) -> Vec<String> {
    items.iter().map(|s| s.to_string()).collect()
}

#[test]
fn credentials_update_and_empty() {
    let mut c = CredentInitialize::default();
    assert!(c.print_credentials().is_empty());
    let parts = c.build();
    assert_eq!(parts.access_id, "");
    assert_eq!(parts.secret_key, "");
    assert_eq!(parts.region, "");
    assert_eq!(parts.provider_name, "aws");
    c.update("AKIA", "SECRET-REDACTED", Some("us-east-1"), Some("eu-west-1"));
    let parts = c.credential();
    assert_eq!(parts.access_id, "AKIA");
    assert_eq!(parts.secret_key, "SECRET-REDACTED");
    assert_eq!(parts.region, "us-east-1");
    assert_eq!(
        c.print_credentials(),
        strings(&["Access Key Id: AKIA", "Secret AccessKey Id: SECRET-REDACTED", "Region: us-east-1\n"])
    );
    c.update("A", "B", None, Some("eu-west-1"));
    assert_eq!(c.credential().region, "eu-west-1");
    c.update("A", "B", None, None);
    assert_eq!(
        c.credential().region,
        "The region value is read from the .env file in the current directory if it is not provided in the credential file."
    );
    assert_eq!(c.get_region_name(Some("ap-south-1")), "ap-south-1");
    c.empty();
    assert!(c.print_credentials().is_empty());
    assert_eq!(c.credential().access_id, "");
}

#[test]
fn memdb_authentication_kinds() {
    assert_eq!(authentication_kind("iam"), Some(AuthenticationKind::Iam));
    assert_eq!(authentication_kind("Iam"), Some(AuthenticationKind::Iam));
    assert_eq!(authentication_kind("password"), Some(AuthenticationKind::Password));
    assert_eq!(authentication_kind("Password"), Some(AuthenticationKind::Password));
    assert_eq!(authentication_kind("IAM"), None);
    assert_eq!(authentication_kind(""), None);
}

#[test]
fn memdb_user_passwords_are_the_words() {
    assert_eq!(split_words("  first second\tthird\n"), strings(&["first", "second", "third"]));
    assert_eq!(split_words(""), Vec::<String>::new());
    assert_eq!(split_words("one"), strings(&["one"]));
    let user = create_memdb_user("password", "abcdefghijklmnop  qrstuvwxyz012345");
    assert_eq!(user.kind, AuthenticationKind::Password);
    assert_eq!(user.passwords, strings(&["abcdefghijklmnop", "qrstuvwxyz012345"]));
    let user = create_memdb_user("Iam", "");
    assert_eq!(user.kind, AuthenticationKind::Iam);
    assert!(user.passwords.is_empty());
}

#[test]
fn memdb_cluster_info() {
    let info = MemDbClusterInfo::build_memdbclusterinfo(
        Some(Endpoint { address: some("db.example.com"), port: 6379 }),
        some("open-access"),
        some("available"),
        some("6.2"),
    );
    assert_eq!(info.get_status(), some("available"));
    assert_eq!(info.get_port(), Some(6379));
    assert_eq!(info.get_endpoint_with_port(), some("db.example.com:6379"));
    assert_eq!(info.get_acl_name(), some("open-access"));
    assert_eq!(info.get_redis_version(), Some("6.2"));
    let no_address = MemDbClusterInfo::build_memdbclusterinfo(
        Some(Endpoint { address: None, port: 1 }),
        None,
        None,
        None,
    );
    assert_eq!(no_address.get_port(), Some(1));
    assert_eq!(no_address.get_endpoint_with_port(), None);
    let nothing = MemDbClusterInfo::build_memdbclusterinfo(None, None, None, None);
    assert_eq!(nothing.get_port(), None);
    assert_eq!(nothing.get_endpoint_with_port(), None);
    assert_eq!(nothing.get_status(), None);
}

#[test]
fn memdb_user_info() {
    let user = MemDBUser::build_memdbuser_info(
        some("ann"),
        some("active"),
        some("on ~* +@all"),
        Some(Authentication { kind: some("password"), password_count: Some(2) }),
    );
    assert_eq!(user.get_username(), Some("ann"));
    assert_eq!(user.get_status(), Some("active"));
    assert_eq!(user.get_access_string(), Some("on ~* +@all"));
    assert_eq!(
        user.print_auth_info(),
        strings(&["Authentication Type: password\n", "Password count: 2\n"])
    );
    let bare = MemDBUser::build_memdbuser_info(None, None, None, None);
    assert!(bare.print_auth_info().is_empty());
    let first = describe_memdb_user(Some(vec![user, bare]));
    assert_eq!(first.len(), 1);
    assert_eq!(first[0].get_username(), Some("ann"));
    assert!(describe_memdb_user(None).is_empty());
}

#[test]
fn memdb_acl_info() {
    let acl = AclInfo::build_aclinfo(
        some("open-access"),
        some("active"),
        Some(strings(&["ann", "bob"])),
        Some(strings(&["c1"])),
    );
    assert_eq!(acl.get_acl_name(), some("open-access"));
    assert_eq!(acl.get_status_of_acl(), some("active"));
    assert_eq!(acl.get_user_names(), Some(strings(&["ann", "bob"])));
    assert_eq!(acl.get_clusters(), Some(strings(&["c1"])));
    let deleted = delete_acl(Some(acl));
    assert_eq!(deleted.get_acl_name(), some("open-access"));
    assert_eq!(deleted.get_status_of_acl(), some("active"));
    assert_eq!(deleted.get_user_names(), Some(strings(&["ann", "bob"])));
    assert_eq!(deleted.get_clusters(), Some(strings(&["c1"])));
    let none = delete_acl(None);
    assert_eq!(none.get_acl_name(), None);
    assert_eq!(none.get_status_of_acl(), None);
    assert_eq!(none.get_user_names(), None);
    let last = describe_acl(Some(vec![
        AclInfo::build_aclinfo(some("a"), None, None, None),
        AclInfo::build_aclinfo(some("b"), None, None, None),
    ]));
    assert_eq!(last.get_acl_name(), some("b"));
    assert_eq!(describe_acl(Some(Vec::new())).get_acl_name(), None);
    assert_eq!(describe_acl(None).get_acl_name(), None);
    assert_eq!(AclInfo::default().get_clusters(), None);
    assert_eq!(status_of(Some(some("creating"))), some("creating"));
    assert_eq!(status_of(Some(None)), None);
    assert_eq!(status_of(None), None);
}

#[test]
fn pinpoint_application_response() {
    let r = ApplicationResponse::build_application_response(
        some("arn"),
        some("id"),
        some("name"),
        some("2023-09-05"),
    );
    assert_eq!(r.get_arn(), Some("arn"));
    assert_eq!(r.get_id(), Some("id"));
    assert_eq!(r.get_app_name(), Some("name"));
    assert_eq!(r.get_creation_date(), Some("2023-09-05"));
    let d = ApplicationResponse::default();
    assert_eq!(d.get_arn(), None);
    assert_eq!(d.get_id(), None);
    assert_eq!(d.get_app_name(), None);
    assert_eq!(d.get_creation_date(), None);
    assert_eq!(create_app(Some(r)).get_id(), Some("id"));
    assert_eq!(create_app(None).get_id(), None);
    assert_eq!(
        create_email_template(Some(TemplateMessage { message: some("m"), arn: None })),
        (some("m"), None)
    );
    assert_eq!(create_email_template(None), (None, None));
}

#[test]
fn rds_instance_info() {
    let info = DbInstanceInfo::build_instance(
        Some(aws_apis::rds_ops::Endpoint { address: some("pg.example.com"), port: 5432 }),
        20,
        some("db-1"),
        some("db.t3.micro"),
        some("available"),
        some("shop"),
        some("us-east-1a"),
        None,
        some("admin"),
        true,
        5432,
    );
    assert_eq!(info.get_instance_status(), Some("available"));
    assert_eq!(info.get_port(), Some(5432));
    assert_eq!(info.get_allocated_storage(), 20);
    assert_eq!(info.get_endpoint_with_port(), some("pg.example.com:5432"));
    assert_eq!(info.get_username(), some("admin"));
    assert!(info.is_publicly_accessible());
    assert_eq!(info.get_db_instance_identifier(), "db-1");
    assert_eq!(info.get_availability_zone(), Some("us-east-1a"));
    assert_eq!(info.get_instance_class(), some("db.t3.micro"));
    assert_eq!(info.get_db_name(), some("shop"));
    assert_eq!(status_of_db_instance(None), None);
    let other = DbInstanceInfo::build_instance(
        None, 0, some("db-2"), None, some("stopped"), None, None, None, None, false, 0,
    );
    assert_eq!(other.get_endpoint_with_port(), None);
    assert_eq!(other.get_port(), None);
    assert_eq!(status_of_db_instance(Some(vec![other])), some("stopped"));
    assert_eq!(describe_db_instance(Some(vec![info])).get_db_instance_identifier(), "db-1");
}

#[test]
fn rds_negative_port_is_written_with_its_sign() {
    let info = DbInstanceInfo::build_instance(
        Some(aws_apis::rds_ops::Endpoint { address: some("h"), port: -1 }),
        0, None, None, None, None, None, None, None, false, 0,
    );
    assert_eq!(info.get_endpoint_with_port(), some("h:-1"));
}

#[test]
fn rds_cluster_info() {
    let info = DbClusterInfo::build_cluster_info(
        some("available"),
        Some(vec![
            DbClusterMember { db_instance_identifier: some("m1") },
            DbClusterMember { db_instance_identifier: None },
            DbClusterMember { db_instance_identifier: some("m2") },
        ]),
        Some(strings(&["us-east-1a", "us-east-1b"])),
        some("shop"),
        some("cluster.example.com"),
        some("admin"),
        Some(3306),
    );
    assert_eq!(info.get_status(), some("available"));
    assert_eq!(
        info.get_db_members(),
        strings(&["Db instance identifier: m1\n", "Db instance identifier: m2\n"])
    );
    assert_eq!(
        info.get_availability_zones(),
        strings(&["Zone Region: ", "us-east-1a", "Zone Region: ", "us-east-1b"])
    );
    assert_eq!(info.get_cluster_endpoint_with_port(), some("cluster.example.com:3306"));
    assert_eq!(info.get_db_name(), Some("shop"));
    assert_eq!(info.get_master_username(), Some("admin"));
    let bare = DbClusterInfo::build_cluster_info(None, None, None, None, some("h"), None, None);
    assert!(bare.get_db_members().is_empty());
    assert!(bare.get_availability_zones().is_empty());
    assert_eq!(bare.get_cluster_endpoint_with_port(), None);
}

#[test]
fn rds_default_identifiers() {
    assert_eq!(get_db_instance_id(Some("db-9")), "db-9");
    assert_eq!(
        get_db_instance_id(None),
        "It appears that you haven't set the 'DB_INSTANCE_ID' environment variable.\nYou can only skip this input if you have configured the variable\n"
    );
    assert_eq!(
        get_db_cluster_id(None),
        "It appears that you haven't set the 'DB_CLUSTER_ID' environment variable.\nYou can only skip this input if you have configured the variable.\n"
    );
    assert_eq!(get_db_cluster_id(Some("c")), "c");
    assert_eq!(default_db_instance_id(Some("given"), Some("env")), "given");
    assert_eq!(default_db_instance_id(None, Some("env")), "env");
}

#[test]
fn dynamodb_definitions_from_json() {
    let attributes =
        parse_attribute_defintion_json(r#"{"id": "S", "count": 5, "name": "S", "flag": true}"#)
            .expect("a JSON document");
    let pairs: Vec<(String, String)> = attributes
        .iter()
        .map(|a| (a.attribute_name.clone(), a.attribute_type.clone()))
        .collect();
    assert_eq!(pairs.len(), 2);
    assert!(pairs.contains(&("id".to_string(), "S".to_string())));
    assert!(pairs.contains(&("name".to_string(), "S".to_string())));
    let schema = parse_key_schema_defintion_json(r#"{"id": "HASH"}"#).expect("a JSON document");
    assert_eq!(schema.len(), 1);
    assert_eq!(schema[0].attribute_name, "id");
    assert_eq!(schema[0].key_type, "HASH");
    assert!(parse_attribute_defintion_json("{not json").is_none());
    assert!(parse_key_schema_defintion_json("").is_none());
    assert!(parse_attribute_defintion_json("[1, 2]").unwrap().is_empty());
    assert!(parse_key_schema_defintion_json("\"text\"").unwrap().is_empty());
    assert!(parse_attribute_defintion_json("{}").unwrap().is_empty());
}

#[test]
fn dynamodb_definitions_from_members() {
    let members = Some(vec![
        JsonMember { name: "b".to_string(), text: some("N") },
        JsonMember { name: "skip".to_string(), text: None },
        JsonMember { name: "a".to_string(), text: some("S") },
    ]);
    let attributes = attribute_definitions(&members);
    assert_eq!(attributes.len(), 2);
    assert_eq!(attributes[0].attribute_name, "b");
    assert_eq!(attributes[0].attribute_type, "N");
    assert_eq!(attributes[1].attribute_name, "a");
    let schema = key_schema(&members);
    assert_eq!(schema.len(), 2);
    assert_eq!(schema[1].key_type, "S");
    assert!(attribute_definitions(&None).is_empty());
    assert!(key_schema(&None).is_empty());
    assert_eq!(provisioned_throughput(), (10, 10));
}

#[test]
fn dynamodb_table_is_described() {
    let d = TableDescription {
        creation_date_time: Some(Timestamp { seconds: 1576540098, nanos: 0 }),
        table_status: some("CREATING"),
        table_size_bytes: Some(0),
        table_id: some("tid"),
        table_arn: some("arn:t"),
        item_count: Some(12),
        deletion_protection_enabled: Some(false),
    };
    assert_eq!(
        create_table("orders", &Some(d)),
        strings(&[
            "Creation Time Of the Table: Mon, 16 Dec 2019 23:48:18 GMT",
            "Current Status of 'orders' table: CREATING",
            "Table Size In Bytes: 0",
            "Table Identifier: tid",
            "Amazon Resource Name(ARN) for the Table: arn:t",
            "Number of Items in the Table: 12",
            "whether deletion protection is enabled: false\n",
        ])
    );
    assert!(create_table("orders", &None).is_empty());
}

#[test]
fn polly_extension_of_content_type() {
    assert_eq!(extension("audio/mpeg"), "mpeg");
    assert_eq!(extension("audio/ogg/vorbis"), "oggvorbis");
    assert_eq!(extension("audio"), "");
    assert_eq!(extension("audio/"), "");
    assert_eq!(extension("/x"), "x");
    assert_eq!(extension(""), "");
    for t in ["a/b", "a//b/", "none", "/", "x/y/z"] {
        let expected: String = t.split('/').skip(1).collect();
        assert_eq!(extension(t), expected);
    }
}

#[test]
fn polly_speech_output_files() {
    let mut speech =
        SpeechOuputInfo::build_speech_output_info(Some(vec![1, 2, 3]), 11, some("audio/mpeg"));
    assert_eq!(speech.get_synthesized_count(), 11);
    assert_eq!(speech.get_content_type(), some("audio/mpeg"));
    let file = speech.generate_audio_with_path_name("out/", "Joanna").unwrap();
    assert_eq!(file.path_name, "out/Joanna_voice_audio.mpeg");
    assert_eq!(file.bytes, vec![1, 2, 3]);
    assert_eq!(
        file.said,
        "An audio file with the name out//Joanna_voice_audio.mpeg has been successfully created\n"
    );
    assert!(speech.speech_bytes.is_none());
    let mut speech =
        SpeechOuputInfo::build_speech_output_info(Some(vec![9]), 1, some("audio/ogg"));
    let file = speech.generate_audio().unwrap();
    assert_eq!(file.path_name, "synthesized_audio.ogg");
    assert_eq!(
        file.said,
        "An audio file with the extension ogg has been successfully written to the current directory\n"
    );
    let mut unknown = SpeechOuputInfo::build_speech_output_info(Some(Vec::new()), 0, None);
    assert!(unknown.generate_audio().is_none());
    assert!(unknown.speech_bytes.is_none());
}

fn task() -> SynthesisTask {
    SynthesisTask {
        task_id: some("t1"),
        engine: some("neural"),
        task_status: some("completed"),
        task_status_reason: None,
        output_uri: some("s3://out/a.mp3"),
        creation_time: Some(Timestamp { seconds: 0, nanos: 0 }),
        output_format: some("mp3"),
        text_type: some("ssml"),
        voice_id: some("Joanna"),
        language_code: some("en-US"),
    }
}

#[test]
fn polly_tasks_and_voices() {
    let wrapped = SynthesizeTask::wrap(task());
    assert_eq!(wrapped.get_task_id(), Some("t1"));
    assert_eq!(wrapped.get_engine(), Some("neural"));
    assert_eq!(wrapped.get_task_status(), Some("completed"));
    assert_eq!(wrapped.get_task_status_reason(), None);
    assert_eq!(wrapped.get_output_uri(), Some("s3://out/a.mp3"));
    assert_eq!(wrapped.get_output_format(), Some("mp3"));
    assert_eq!(wrapped.get_text_type(), Some("ssml"));
    assert_eq!(wrapped.get_voice_id(), Some("Joanna"));
    assert_eq!(wrapped.get_language_code(), Some("en-US"));
    assert_eq!(
        list_synthesise_speech(&Some(vec![task()])),
        strings(&[
            "Synthesize Task Details\n\n",
            "Creation Time: Thu, 01 Jan 1970 00:00:00 GMT",
            "Task ID: t1",
            "Task Status: completed",
            "Output URI: s3://out/a.mp3\n",
        ])
    );
    assert_eq!(list_synthesise_speech(&Some(Vec::new())), strings(&["Synthesize Task Details\n\n"]));
    assert!(list_synthesise_speech(&None).is_empty());
    assert_eq!(
        start_speech_synthesise_task("t1", "bucket"),
        "The speech synthesis task with ID t1 has been initiated for the bucket named bucket"
    );
    let voice = Voice {
        gender: some("Female"),
        id: some("Joanna"),
        language_code: some("en-US"),
        language_name: some("US English"),
        name: some("Joanna"),
        supported_engines: Some(strings(&["neural", "standard"])),
    };
    let described = DescribeVoices::wrap(voice.clone());
    assert_eq!(described.get_gender(), Some("Female"));
    assert_eq!(described.get_voiceid(), Some("Joanna"));
    assert_eq!(described.get_language_code(), Some("en-US"));
    assert_eq!(described.get_language_name(), Some("US English"));
    assert_eq!(described.get_voice_name(), Some("Joanna"));
    assert_eq!(described.get_supported_engines(), Some(vec!["neural", "standard"]));
    let mut other = voice.clone();
    other.id = None;
    other.supported_engines = None;
    assert_eq!(DescribeVoices::wrap(other.clone()).get_supported_engines(), None);
    let (ids, codes) = get_voice_info_given_engine(&Some(vec![voice, other]));
    assert_eq!(ids, vec![some("Joanna"), None]);
    assert_eq!(codes, vec![some("en-US"), some("en-US")]);
    let (ids, codes) = get_voice_info_given_engine(&None);
    assert!(ids.is_empty() && codes.is_empty());
}

#[test]
fn transcription_job_is_described() {
    let job = TranscriptionJob {
        transcription_job_name: some("talk"),
        transcription_job_status: some("COMPLETED"),
        language_code: some("en-US"),
        media_format: some("mp4"),
        media: Some(Media { media_file_uri: some("s3://in/talk.mp4"), redacted_media_file_uri: None }),
        transcript: Some(Transcript {
            transcript_file_uri: some("s3://out/talk.json"),
            redacted_transcript_file_uri: None,
        }),
        start_time: Some(Timestamp { seconds: 0, nanos: 0 }),
        creation_time: None,
        completion_time: Some(Timestamp { seconds: 60, nanos: 0 }),
        failure_reason: None,
        subtitles: Some(SubtitlesOutput {
            formats: Some(strings(&["srt", "vtt"])),
            subtitle_file_uris: Some(strings(&["s3://out/talk.srt"])),
            output_start_index: Some(1),
        }),
    };
    let mut output = get_transcribe_results(Some(job)).expect("a job");
    assert_eq!(
        output.print_transcription_info_as_text(),
        strings(&[
            "Transcription Job Name: talk",
            "Transcription Job Status: COMPLETED",
            "Language_code: en-US",
            "Media Format: mp4",
            "Media Information Inlcuded In the Request:\n",
            "Media_file Uri: s3://in/talk.mp4",
            "Transcript File Uri: s3://out/talk.json",
            "Start Time: Thu, 01 Jan 1970 00:00:00 GMT",
            "Completion Time: Thu, 01 Jan 1970 00:01:00 GMT",
            "Subtitle Format: srt",
            "Subtitle Format: vtt",
            "Subtitle Uri: s3://out/talk.srt",
            "Starting Index: 1",
            "",
            "The bucket URL cannot be accessed until it is made public or only accessible through the web console\n",
            "To achieve this, please execute the 'Modify Object Visibility' option in the S3 operations menu to make the object public\n",
        ])
    );
    // everything but the times has been handed out
    assert_eq!(
        output.print_transcription_info_as_text(),
        strings(&[
            "Start Time: Thu, 01 Jan 1970 00:00:00 GMT",
            "Completion Time: Thu, 01 Jan 1970 00:01:00 GMT",
        ])
    );
    assert_eq!(output.job_status(), None);
    assert!(get_transcribe_results(None).is_none());
    let mut failed = TranscriptionOutput::wrap(TranscriptionJob {
        transcription_job_name: None,
        transcription_job_status: some("FAILED"),
        language_code: None,
        media_format: None,
        media: None,
        transcript: None,
        start_time: None,
        creation_time: None,
        completion_time: None,
        failure_reason: some("bad media"),
        subtitles: None,
    });
    assert_eq!(failed.job_status(), some("FAILED"));
    assert_eq!(failed.job_status(), None);
    assert_eq!(failed.failure_reason(), some("bad media"));
    assert!(failed.print_transcription_info_as_text().is_empty());
}

#[test]
fn sns_numbers_and_records() {
    let numbers = Some(vec![
        SandboxNumber { phone_number: some("+15550100"), status: some("Verified") },
        SandboxNumber { phone_number: some("+15550101"), status: None },
        SandboxNumber { phone_number: None, status: some("Pending") },
        SandboxNumber { phone_number: some("+15550102"), status: some("Pending") },
    ]);
    assert_eq!(list_sms_sandbox_numbers(&numbers), "+15550100    Verified\n+15550102    Pending");
    assert_eq!(list_sms_sandbox_numbers(&None), "");
    assert_eq!(list_sms_sandbox_numbers(&Some(Vec::new())), "");
    assert_eq!(
        create_topic("arn:topic"),
        "The Amazon Resource Name (ARN) for the SNS topic is: arn:topic\n"
    );
    assert_eq!(
        subscription("arn:sub"),
        "The Amazon Resource Name for the Subscription is: arn:sub\n"
    );
}

#[test]
fn amplify_and_route53_records() {
    let file = amplify::create_app("shop", &some("d123")).unwrap();
    assert_eq!(file.path_name, "shop_app_id.txt");
    assert_eq!(file.text, "The application identifier for the app named 'shop' is:  d123");
    assert!(amplify::create_app("shop", &None).is_none());
    assert_eq!(
        create_hosted_zone("example.com"),
        "The domain name example.com has been registered sucessfully"
    );
}
