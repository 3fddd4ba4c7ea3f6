use aws_apis::sesv2_ops::{create_contact_list_name, delete_contact, delete_contacts, template_parts,
    ContactsDeletion,
    get_contacts_in_the_list, get_emails_given_list_name, get_from_address, get_list_name,
    get_template_name, get_template_subject_html_and_text,
    get_template_variables_of_subject_and_html_body, has_identity, is_contact_list_name_exist,
    is_email_template_exist, is_email_verfied, keys_from_matches, list_contact_lists,
    list_email_identity, list_email_templates, match_template_data_with_template,
    retrieve_emails_from_list_email_identities, retrieve_emails_from_provided_list,
    send_mono_email, send_to_listed, template_data_for, template_data_keys, trim_marks,
    update_template, writing_email_addresses_from_provided_list_as_text_pdf,
    writing_email_identies_details_as_text_pdf, BulkStep, ContactDeletion, EmailIdentity,
    IdentityInfo, MailContent, MailStep, SimpleMail, TemplateContent, TemplateMail};
use aws_apis::{Simple_, Template_};

fn some(s: &str) -> Option<String> {
    Some(s.to_string())
}

fn strings(items: &[&str]) -> Vec<String> {
    items.iter().map(|s| s.to_string()).collect()
}

#[test]
fn names_of_the_environment_or_notes() {
    assert_eq!(get_from_address(Some("me@x.com")), "me@x.com");
    assert_eq!(
        get_from_address(None),
        "It appears that you haven't set the 'FROM_ADDRESS' environment variable. You can only skip this input if you have configured the variable"
    );
    assert_eq!(get_template_name(Some("welcome")), "welcome");
    assert_eq!(
        get_template_name(None),
        "It appears that you haven't set the 'TEMPLATE_NAME' environment variable. You can only skip this input if you have configured the variable"
    );
    assert_eq!(get_list_name(Some("friends")), "friends");
    assert_eq!(
        get_list_name(None),
        "It appears that you haven't set the 'LIST_NAME' environment variable. You can only skip this input if you have configured the variable"
    );
}

#[test]
fn lists_and_templates_that_have_a_name() {
    let lists = Some(vec![some("friends"), None, some("family")]);
    assert_eq!(list_contact_lists(&lists), strings(&["friends", "family"]));
    assert_eq!(list_email_templates(&lists), strings(&["friends", "family"]));
    assert!(list_contact_lists(&None).is_empty());
    assert!(list_email_templates(&Some(Vec::new())).is_empty());
}

#[test]
fn a_list_exists_where_its_name_stands_in_the_names() {
    let names = strings(&["friends", "family"]);
    assert!(is_contact_list_name_exist(&names, "friends"));
    assert!(is_contact_list_name_exist(&names, "family"));
    // any piece of the joined names counts
    assert!(is_contact_list_name_exist(&names, "fam"));
    assert!(is_contact_list_name_exist(&names, "friends family"));
    assert!(is_contact_list_name_exist(&names, ""));
    assert!(!is_contact_list_name_exist(&names, "family friends"));
    assert!(!is_contact_list_name_exist(&names, "work"));
    assert!(!is_contact_list_name_exist(&Vec::new(), "friends"));
    assert!(is_contact_list_name_exist(&Vec::new(), ""));
    assert!(is_email_template_exist(&names, "friends"));
    assert!(!is_email_template_exist(&names, "Friends"));
}

#[test]
fn a_list_may_be_created_only_where_there_is_none() {
    assert!(create_contact_list_name(&Vec::new()));
    assert!(!create_contact_list_name(&strings(&["friends"])));
    assert!(!create_contact_list_name(&strings(&[""])));
}

fn identities() -> Option<Vec<IdentityInfo>> {
    Some(vec![
        IdentityInfo {
            identity_type: some("EMAIL_ADDRESS"),
            identity_name: some("a@x.com"),
            sending_enabled: true,
            verification_status: some("SUCCESS"),
        },
        IdentityInfo {
            identity_type: None,
            identity_name: None,
            sending_enabled: false,
            verification_status: None,
        },
        IdentityInfo {
            identity_type: some("DOMAIN"),
            identity_name: some("y.org"),
            sending_enabled: false,
            verification_status: some("PENDING"),
        },
    ])
}

#[test]
fn identities_are_listed_and_written() {
    let (records, text) = list_email_identity(&identities());
    assert_eq!(
        records,
        strings(&["EMAIL_ADDRESS", "a@x.com", "true", "SUCCESS", "false", "DOMAIN", "y.org", "false", "PENDING"])
    );
    assert_eq!(
        text,
        "Identity Type: EMAIL_ADDRESSIdentity Name: a@x.comIs Sending Enabled: trueVerification Status: SUCCESS\n\nIs Sending Enabled: falseIdentity Type: DOMAINIdentity Name: y.orgIs Sending Enabled: falseVerification Status: PENDING\n\n"
    );
    let (records, text) = list_email_identity(&None);
    assert!(records.is_empty());
    assert_eq!(text, "");
    assert_eq!(retrieve_emails_from_list_email_identities(&identities()), "a@x.com y.org ");
    assert_eq!(retrieve_emails_from_list_email_identities(&None), "");
}

#[test]
fn contacts_of_a_list() {
    let contacts = vec![some("a@x.com"), None, some("b@y.org")];
    assert_eq!(
        retrieve_emails_from_provided_list(&contacts),
        strings(&["a@x.com", "", "b@y.org"])
    );
    assert_eq!(get_emails_given_list_name(&contacts), "a@x.comb@y.org");
    assert_eq!(get_contacts_in_the_list(&Some(contacts)), "a@x.com  b@y.org ");
    assert_eq!(get_contacts_in_the_list(&None), "");
    match delete_contacts(true, "a@x.com  b@y.org ") {
        ContactsDeletion::DeleteAll { contacts } => {
            assert_eq!(contacts, strings(&["a@x.com", "b@y.org"]))
        }
        other => panic!("{:?}", other),
    }
    match delete_contacts(true, "   ") {
        ContactsDeletion::DeleteAll { contacts } => assert!(contacts.is_empty()),
        other => panic!("{:?}", other),
    }
    assert!(matches!(delete_contacts(true, ""), ContactsDeletion::NothingToDelete));
    assert!(matches!(delete_contacts(false, ""), ContactsDeletion::ListMissing));
    assert!(matches!(delete_contacts(false, "a@x.com "), ContactsDeletion::ListMissing));
}

#[test]
fn deleting_a_contact() {
    assert_eq!(delete_contact(false, "a@x.com ", "a@x.com"), ContactDeletion::NoSuchList);
    assert_eq!(delete_contact(true, "", "a@x.com"), ContactDeletion::EmptyList);
    assert_eq!(delete_contact(true, "a@x.com b@y.org ", "b@y.org"), ContactDeletion::Delete);
    assert_eq!(delete_contact(true, "a@x.com ", "c@z.net"), ContactDeletion::NotInList);
}

#[test]
fn identity_and_verification() {
    assert!(has_identity("a@x.com b@y.org ", "b@y.org"));
    assert!(!has_identity("a@x.com ", "b@y.org"));
    assert_eq!(is_email_verfied("a@x.com ", "a@x.com", true), Some(true));
    assert_eq!(is_email_verfied("a@x.com ", "a@x.com", false), Some(false));
    assert_eq!(is_email_verfied("a@x.com ", "b@y.org", true), None);
}

#[test]
fn sending_one_mail() {
    match send_mono_email("a@x.com", "a@x.com ", Some(true), None, "default@x.com") {
        MailStep::Send { from_address } => assert_eq!(from_address, "default@x.com"),
        other => panic!("{:?}", other),
    }
    match send_mono_email("a@x.com", "a@x.com ", Some(true), Some("me@x.com"), "default@x.com") {
        MailStep::Send { from_address } => assert_eq!(from_address, "me@x.com"),
        other => panic!("{:?}", other),
    }
    match send_mono_email("a@x.com", "a@x.com ", Some(false), None, "d") {
        MailStep::Reverify { notice } => assert_eq!(
            notice,
            "The email ---a@x.com--- has not been verified; we have re-sent the verification email"
        ),
        other => panic!("{:?}", other),
    }
    let missing = "The email identity 'a@x.com' doesn't exist.\nThis email should be verified through 'create email identity' option before sending an email";
    match send_mono_email("a@x.com", "a@x.com ", None, None, "d") {
        MailStep::Refuse { reason } => assert_eq!(reason, missing),
        other => panic!("{:?}", other),
    }
    match send_mono_email("a@x.com", "b@y.org ", Some(true), None, "d") {
        MailStep::Refuse { reason } => assert_eq!(reason, missing),
        other => panic!("{:?}", other),
    }
}

#[test]
fn sending_to_a_list() {
    assert!(matches!(send_to_listed("a@x.com", "a@x.com ", Some(true), true), BulkStep::Send));
    match send_to_listed("a@x.com", "a@x.com ", Some(false), true) {
        BulkStep::PassOver { said } => assert_eq!(
            said,
            "The email address 'a@x.com' in the list hasn't been verified, yet it continues to send templated emails to other verified email addresses in the list\n"
        ),
        other => panic!("{:?}", other),
    }
    match send_to_listed("a@x.com", "a@x.com ", Some(false), false) {
        BulkStep::PassOver { said } => assert_eq!(
            said,
            "The email address 'a@x.com' in the list hasn't been verified, yet it continues to send Simple Emails to other verified email addresses in the list\n"
        ),
        other => panic!("{:?}", other),
    }
    match send_to_listed("a@x.com", "a@x.com ", None, false) {
        BulkStep::Unknown { first, second } => {
            assert_eq!(first, "The email identity for 'a@x.com' does not exist");
            assert_eq!(
                second,
                "Please use the 'Create Email Identity' option or function to establish an identity for this email\n"
            );
        }
        other => panic!("{:?}", other),
    }
    match send_to_listed("a@x.com", "", Some(true), false) {
        BulkStep::CreateIdentity { line } => assert_eq!(
            line,
            "The email address 'a@x.com' in this list doesn't have an identity; therefore, it creates an identity by executing the 'Create Email Identity' option on your behalf\n"
        ),
        other => panic!("{:?}", other),
    }
}

#[test]
fn template_data_of_an_address() {
    assert_eq!(
        template_data_for(r#"{"Name":"name","Email":"email"}"#, "someone@example.com"),
        r#"{"Name":"someone@e","Email":"someone@example.com"}"#
    );
    // an address that holds `name` is changed by the second replacement too
    assert_eq!(template_data_for("email", "name@x.io"), "name@x.io@x.io");
    assert_eq!(template_data_for("nothing", "a@b.c"), "nothing");
}

#[test]
fn update_message_names_what_was_given() {
    assert_eq!(
        update_template("s", &some("t")),
        "The template has been successfully updated with the provided subject, HTML body, and text body"
    );
    assert_eq!(
        update_template("", &some("t")),
        "The template has been successfully updated with the provided HTML body, and text body"
    );
    assert_eq!(
        update_template("s", &None),
        "The template has been successfully updated with the provided subject, HTML body"
    );
    assert_eq!(
        update_template("s", &some("")),
        "The template has been successfully updated with the provided subject, HTML body"
    );
    assert_eq!(
        update_template("", &None),
        "The template has been successfully updated with the provided HTML body"
    );
}

#[test]
fn template_parts_and_page() {
    let content = Some(TemplateContent {
        subject: some("Hi {{name}}"),
        html: some("<b>x</b>"),
        text: None,
    });
    let parts = template_parts("welcome", &content, true);
    assert_eq!(parts.subject, "Hi {{name}}");
    assert_eq!(parts.html, "<b>x</b>");
    assert_eq!(parts.text, "");
    assert_eq!(parts.file_name, "EmailTemplateOfwelcome.html");
    assert_eq!(
        parts.page.as_deref(),
        Some("<h1 style=\"text-align: center;\">Subject Part</h1><br><br><p style=\"text-align: center;padding-left: 100px;padding-right: 100px;\">Hi {{name}}</p><br><br><h1 style=\"text-align: center;\">Html Part</h1><br><br><b>x</b><br><br>")
    );
    let quiet = template_parts("welcome", &content, false);
    assert_eq!(quiet.page, None);
    assert_eq!(quiet.subject, "Hi {{name}}");
    let text_only = Some(TemplateContent { subject: None, html: None, text: some("plain") });
    let parts = template_parts("t", &text_only, true);
    assert_eq!(
        parts.page.as_deref(),
        Some("<h1 style=\"text-align: center;\">Text Part</h1><br><br><p style=\"padding-left: 100px;padding-right: 100px;\">plain</p><br><br><br><br><br>")
    );
    let none = template_parts("t", &None, true);
    assert_eq!(none.page.as_deref(), Some(""));
    assert_eq!(none.subject, "");
}

#[test]
fn template_parts_only_of_a_template_that_exists() {
    let names = strings(&["welcome", "goodbye"]);
    let content = Some(TemplateContent { subject: some("s"), html: some("h"), text: some("t") });
    let parts = get_template_subject_html_and_text(&names, "goodbye", &content, false)
        .expect("the template is there");
    assert_eq!(parts.subject, "s");
    assert_eq!(parts.html, "h");
    assert_eq!(parts.text, "t");
    assert_eq!(parts.file_name, "EmailTemplateOfgoodbye.html");
    assert_eq!(parts.page, None);
    let shown = get_template_subject_html_and_text(&names, "welcome", &content, true).unwrap();
    assert!(shown.page.is_some());
    assert!(get_template_subject_html_and_text(&names, "farewell", &content, true).is_none());
    assert!(get_template_subject_html_and_text(&Vec::new(), "welcome", &content, true).is_none());
    // any piece of the names written one after another counts
    assert!(get_template_subject_html_and_text(&names, "come good", &None, false).is_some());
}

#[test]
fn template_variables_are_found() {
    let (subject, html) = get_template_variables_of_subject_and_html_body(
        "Hello {{name}}!",
        "<p>{{ greeting }} {{name}}, mail {{email}}</p> {{}} {x}",
    )
    .expect("the pattern compiles");
    assert_eq!(subject, strings(&["{{name}}"]));
    assert_eq!(html, strings(&["{{ greeting }}", "{{name}}", "{{email}}", "{{}}"]));
    let (subject, html) =
        get_template_variables_of_subject_and_html_body("none", "").expect("the pattern compiles");
    assert!(subject.is_empty());
    assert!(html.is_empty());
}

#[test]
fn marks_are_trimmed() {
    assert_eq!(trim_marks("\"name\" :"), "name");
    assert_eq!(trim_marks("\"a b\":"), "a b");
    assert_eq!(trim_marks(" : \""), "");
    assert_eq!(trim_marks(""), "");
    assert_eq!(trim_marks("x"), "x");
    assert_eq!(trim_marks("a\"b"), "a\"b");
    for t in ["\"k\":", " \"k\" : ", "::a::", "\"\"", "a :b"] {
        let marks: &[char] = &['"', ':', ' '];
        assert_eq!(trim_marks(t), t.trim_matches(marks));
    }
    assert_eq!(keys_from_matches(&strings(&["\"a\":", "\"b\"  :"])), strings(&["a", "b"]));
}

#[test]
fn keys_of_template_data() {
    assert_eq!(
        template_data_keys(r#"{"name": "Ann", "email" :"a@x.com", "n":1}"#),
        Some(strings(&["name", "email", "n"]))
    );
    assert_eq!(template_data_keys("no keys here"), Some(Vec::new()));
}

#[test]
fn keys_are_matched_with_template_variables() {
    let lines = match_template_data_with_template(
        &strings(&["name", "city"]),
        &strings(&["{{name}}"]),
        &strings(&["{{email}}", "{{name}}"]),
        "welcome",
    );
    assert_eq!(
        lines,
        strings(&[
            "The template data variable name in the specified JSON document matches the template variable of template welcome",
            "The variable in the template city in the given JSON document does not match the variable in the template named welcome\n",
            "This option will not match the spaces around the keys. Execute the 'Get Email Template Variables' option to see the template variables\n",
        ])
    );
    let only_note = match_template_data_with_template(&Vec::new(), &Vec::new(), &Vec::new(), "t");
    assert_eq!(only_note.len(), 1);
}

#[test]
fn addresses_of_a_list_are_written() {
    let emails = strings(&["a@x.com", "b@y.org", "c@z.net"]);
    let details = vec![
        Some(EmailIdentity {
            identity_type: some("EMAIL_ADDRESS"),
            verified_for_sending_status: true,
            verification_status: some("SUCCESS"),
        }),
        None,
        Some(EmailIdentity {
            identity_type: None,
            verified_for_sending_status: false,
            verification_status: None,
        }),
    ];
    let written = writing_email_addresses_from_provided_list_as_text_pdf(
        &emails,
        "a@x.com c@z.net ",
        &details,
        None,
        Some("friends"),
        None,
    );
    assert_eq!(
        written.text,
        "Emails\n\na@x.com\n\nIdentity Type: EMAIL_ADDRESSIs Sending Enabled: trueVerification Status: SUCCESS\n\nb@y.org\n\nc@z.net\n\nIs Sending Enabled: false"
    );
    assert_eq!(written.report.file_name, "Emails.pdf");
    let texts: Vec<String> = written
        .report
        .blocks
        .iter()
        .filter_map(|b| match b {
            aws_apis::pdf_writer::Block::Paragraph { text, .. } => Some(text.clone()),
            _ => None,
        })
        .collect();
    assert_eq!(
        texts,
        strings(&[
            "Emails in the Specified List",
            "Contact List Name: friends",
            "Region Name: No region is found in the Credential",
        ])
    );
    let rows: Vec<String> = match written.report.blocks.last().unwrap() {
        aws_apis::pdf_writer::Block::Grid { table } => table
            .rows
            .iter()
            .map(|r| match r {
                aws_apis::pdf_writer::Row::Cells(c) => c[0].text.clone(),
                aws_apis::pdf_writer::Row::Gap => "-".to_string(),
            })
            .collect(),
        _ => panic!("the table comes last"),
    };
    assert_eq!(
        rows,
        strings(&[
            "Emails",
            "-",
            "EMAIL_ADDRESS",
            "a@x.com",
            "true",
            "SUCCESS",
            "No Identity Exists",
            "b@y.org",
            "No Identity Exists",
            "No Identity Exists",
            "c@z.net",
            "false",
        ])
    );
    let named = writing_email_addresses_from_provided_list_as_text_pdf(
        &Vec::new(),
        "",
        &Vec::new(),
        Some("given"),
        Some("friends"),
        Some("us-east-1"),
    );
    assert_eq!(named.text, "Emails\n\n");
    match &named.report.blocks[2] {
        aws_apis::pdf_writer::Block::Paragraph { text, .. } => {
            assert_eq!(text, "Contact List Name: given")
        }
        _ => panic!("a paragraph"),
    }
    let unnamed = writing_email_addresses_from_provided_list_as_text_pdf(
        &Vec::new(), "", &Vec::new(), None, None, Some("r"),
    );
    match &unnamed.report.blocks[2] {
        aws_apis::pdf_writer::Block::Paragraph { text, .. } => {
            assert_eq!(text, "Contact List Name: No 'LIST_NAME' environment variable found")
        }
        _ => panic!("a paragraph"),
    }
}

#[test]
fn identities_report_names_the_region() {
    let report = writing_email_identies_details_as_text_pdf(strings(&["EMAIL_ADDRESS"]), None);
    match &report.blocks[2] {
        aws_apis::pdf_writer::Block::Paragraph { text, .. } => {
            assert_eq!(text, "Region Name:  No Region is found")
        }
        _ => panic!("a paragraph"),
    }
    match report.blocks.last().unwrap() {
        aws_apis::pdf_writer::Block::Grid { table } => match &table.rows[2] {
            aws_apis::pdf_writer::Row::Cells(cells) => {
                assert_eq!(cells[0].text, "Identity Type");
                assert_eq!(cells[1].text, "EMAIL_ADDRESS");
            }
            _ => panic!("a row of cells"),
        },
        _ => panic!("the table comes last"),
    }
}

#[test]
fn mail_builders() {
    match SimpleMail::builder("<p>body</p>", "subject").build() {
        MailContent::Simple { subject, html_body, charset } => {
            assert_eq!(subject, "subject");
            assert_eq!(html_body, "<p>body</p>");
            assert_eq!(charset, "UTF-8");
        }
        other => panic!("{:?}", other),
    }
    let content = TemplateMail::builder("welcome", "{\"a\":1}").build();
    match &content {
        MailContent::Template { template_name, template_data } => {
            assert_eq!(template_name, "welcome");
            assert_eq!(template_data, "{\"a\":1}");
        }
        other => panic!("{:?}", other),
    }
    assert!(matches!(Template_(content.clone()), aws_apis::sesv2_ops::SimpleOrTemplate::Template_(_)));
    assert!(matches!(Simple_(content), aws_apis::sesv2_ops::SimpleOrTemplate::Simple_(_)));
}
