//! What the e-mail operations decide and write: which lists, templates and
//! identities exist, what is sent to whom, and what is written of contacts,
//! identities and templates.
use crate::pattern::{find_all, regex_matches};
use crate::pdf_writer::{create_email_identities_pdf, create_email_pdf, email_identities_report,
    email_report, Report};
use crate::text::{chars_of, concat_all, contains, copy_of, each_followed_by, first_chars,
    followed_each, line_if, listed, occurs_at, occurs_in, present, present_texts, push_all, record_if,
    replace_all, replaced, runs, say_plain, split_runs, text_or_empty, text_view, truth,
    truth_text, views, write_if, write_line_if};
use vstd::prelude::*;
use vstd::string::*;

verus! {

/// What stands for the sender's address where the environment names none.
pub open spec fn from_address_note() -> Seq<char> {
    "It appears that you haven't set the 'FROM_ADDRESS' environment variable. You can only skip this input if you have configured the variable"@
}

/// What stands for the template's name where the environment names none.
pub open spec fn template_name_note() -> Seq<char> {
    "It appears that you haven't set the 'TEMPLATE_NAME' environment variable. You can only skip this input if you have configured the variable"@
}

/// What stands for the list's name where the environment names none.
pub open spec fn list_name_note() -> Seq<char> {
    "It appears that you haven't set the 'LIST_NAME' environment variable. You can only skip this input if you have configured the variable"@
}

/// The value of the environment, or else `note`.
pub open spec fn env_or(from_env: Option<&str>, note: Seq<char>) -> Seq<char> {
    match from_env {
        Some(v) => v@,
        None => note,
    }
}

/// The address that mail is sent from: the one of the environment, or the
/// note that it names none.
pub fn get_from_address(from_env: Option<&str>) -> (address: String)
    ensures
        address@ == env_or(from_env, from_address_note()),
{
    match from_env {
        Some(v) => String::from_str(v),
        None => String::from_str(
            "It appears that you haven't set the 'FROM_ADDRESS' environment variable. You can only skip this input if you have configured the variable",
        ),
    }
}

/// The name of the template: the one of the environment, or the note that
/// it names none.
pub fn get_template_name(from_env: Option<&str>) -> (name: String)
    ensures
        name@ == env_or(from_env, template_name_note()),
{
    match from_env {
        Some(v) => String::from_str(v),
        None => String::from_str(
            "It appears that you haven't set the 'TEMPLATE_NAME' environment variable. You can only skip this input if you have configured the variable",
        ),
    }
}

/// The name of the contact list: the one of the environment, or the note
/// that it names none.
pub fn get_list_name(from_env: Option<&str>) -> (name: String)
    ensures
        name@ == env_or(from_env, list_name_note()),
{
    match from_env {
        Some(v) => String::from_str(v),
        None => String::from_str(
            "It appears that you haven't set the 'LIST_NAME' environment variable. You can only skip this input if you have configured the variable",
        ),
    }
}

/// The texts of a list of texts that may be missing, each of which may be
/// missing too.
pub open spec fn present_in(list: Option<Vec<Option<String>>>) -> Seq<Seq<char>> {
    match list {
        Some(items) => present_texts(items@),
        None => Seq::empty(),
    }
}

fn present_of(list: &Option<Vec<Option<String>>>) -> (out: Vec<String>)
    ensures
        views(out@) == present_in(*list),
{
    match list {
        Some(items) => present(items),
        None => {
            let out: Vec<String> = Vec::new();
            assert(views(out@) =~= Seq::<Seq<char>>::empty());
            out
        },
    }
}

/// The names of the contact lists that have a name.
pub fn list_contact_lists(contact_lists: &Option<Vec<Option<String>>>) -> (names: Vec<String>)
    ensures
        views(names@) == present_in(*contact_lists),
{
    present_of(contact_lists)
}

/// The names of the templates that have a name.
pub fn list_email_templates(templates: &Option<Vec<Option<String>>>) -> (names: Vec<String>)
    ensures
        views(names@) == present_in(*templates),
{
    present_of(templates)
}

/// The names written one after another, each followed by a blank.
pub open spec fn spaced(names: Seq<Seq<char>>) -> Seq<char> {
    each_followed_by(names, " "@)
}

/// Every name of a list stands in the names written one after another: a
/// list, or a template, that is there is taken to exist.
pub proof fn lemma_listed_name_exists(names: Seq<Seq<char>>, i: int)
    requires
        0 <= i < names.len(),
    ensures
        occurs_in(spaced(names), names[i]),
    decreases names.len(),
{
    let before = each_followed_by(names.drop_last(), " "@);
    let whole = spaced(names);
    assert(whole == before + names.last() + " "@);
    if i == names.len() - 1 {
        let at = before.len() as int;
        assert(whole.subrange(at, at + names[i].len()) =~= names[i]);
        assert(occurs_at(whole, names[i], at));
    } else {
        lemma_listed_name_exists(names.drop_last(), i);
        assert(names.drop_last()[i] == names[i]);
        let at = choose|at: int| occurs_at(before, names[i], at);
        assert(whole.subrange(at, at + names[i].len()) =~= before.subrange(
            at,
            at + names[i].len(),
        ));
        assert(occurs_at(whole, names[i], at));
    }
}

/// Whether a contact list of this name is taken to exist: whether the name
/// stands somewhere in the names of the lists, written one after another
/// with a blank behind each.
pub fn is_contact_list_name_exist(list_names: &Vec<String>, contact_list_name: &str) -> (exists:
    bool)
    ensures
        exists == occurs_in(spaced(views(list_names@)), contact_list_name@),
{
    let available = followed_each(list_names, " ");
    contains(available.as_str(), contact_list_name)
}

/// Whether a template of this name is taken to exist: whether the name
/// stands somewhere in the names of the templates, written one after
/// another with a blank behind each.
pub fn is_email_template_exist(template_names: &Vec<String>, template_name: &str) -> (exists: bool)
    ensures
        exists == occurs_in(spaced(views(template_names@)), template_name@),
{
    let available = followed_each(template_names, " ");
    contains(available.as_str(), template_name)
}

/// Whether a contact list may be created: only where the account has none
/// yet.
pub fn create_contact_list_name(list_names: &Vec<String>) -> (may_create: bool)
    ensures
        may_create == (spaced(views(list_names@)).len() == 0),
{
    let available = followed_each(list_names, " ");
    available.as_str().unicode_len() == 0
}

/// What the service tells of an e-mail identity in a list of identities.
#[derive(Clone, Debug)]
pub struct IdentityInfo {
    pub identity_type: Option<String>,
    pub identity_name: Option<String>,
    pub sending_enabled: bool,
    pub verification_status: Option<String>,
}

/// What is written of one identity.
pub open spec fn identity_text(i: IdentityInfo) -> Seq<char> {
    line_if("Identity Type: "@, i.identity_type, Seq::empty()) + line_if(
        "Identity Name: "@,
        i.identity_name,
        Seq::empty(),
    ) + "Is Sending Enabled: "@ + truth_text(i.sending_enabled) + line_if(
        "Verification Status: "@,
        i.verification_status,
        "\n\n"@,
    )
}

/// The details that are kept of one identity: its type and name where they
/// are known, whether it may send, and its state where that is known.
pub open spec fn identity_records(i: IdentityInfo) -> Seq<Seq<char>> {
    record_if(i.identity_type) + record_if(i.identity_name) + seq![truth_text(i.sending_enabled)]
        + record_if(i.verification_status)
}

/// What is written of all the identities, in their order.
pub open spec fn identities_text(list: Seq<IdentityInfo>) -> Seq<char>
    decreases list.len(),
{
    if list.len() == 0 {
        Seq::empty()
    } else {
        identities_text(list.drop_last()) + identity_text(list.last())
    }
}

/// The details that are kept of all the identities, in their order.
pub open spec fn identities_records(list: Seq<IdentityInfo>) -> Seq<Seq<char>>
    decreases list.len(),
{
    if list.len() == 0 {
        Seq::empty()
    } else {
        identities_records(list.drop_last()) + identity_records(list.last())
    }
}

fn write_identity(i: &IdentityInfo, file: &mut String, records: &mut Vec<String>)
    ensures
        final(file)@ == old(file)@ + identity_text(*i),
        views(final(records)@) == views(old(records)@) + identity_records(*i),
{
    proof {
        reveal_strlit("");
        assert(""@ =~= Seq::<char>::empty());
    }
    let mut entry = String::new();
    let mut kept: Vec<String> = Vec::new();
    assert(views(kept@) =~= Seq::<Seq<char>>::empty());
    write_if("Identity Type: ", copy_of(&i.identity_type), "", &mut entry, &mut kept);
    assert(entry@ =~= line_if("Identity Type: "@, i.identity_type, Seq::empty()));
    assert(views(kept@) =~= record_if(i.identity_type));
    write_if("Identity Name: ", copy_of(&i.identity_name), "", &mut entry, &mut kept);
    let sending = truth(i.sending_enabled);
    entry.append("Is Sending Enabled: ");
    entry.append(sending.as_str());
    let ghost before = views(kept@);
    kept.push(sending);
    assert(views(kept@) =~= before + seq![truth_text(i.sending_enabled)]);
    write_if("Verification Status: ", copy_of(&i.verification_status), "\n\n", &mut entry, &mut kept);
    file.append(entry.as_str());
    push_all(records, kept);
}

/// The details of the e-mail identities and what is written of them to
/// `EmailIdentyDetails.txt`.
pub fn list_email_identity(identities: &Option<Vec<IdentityInfo>>) -> (out: (Vec<String>, String))
    ensures
        views(out.0@) == identities_records(listed(*identities)),
        out.1@ == identities_text(listed(*identities)),
{
    let mut records: Vec<String> = Vec::new();
    let mut file = String::new();
    assert(views(records@) =~= Seq::<Seq<char>>::empty());
    match identities {
        Some(list) => {
            let mut i: usize = 0;
            assert(list@.take(0) =~= Seq::<IdentityInfo>::empty());
            while i < list.len()
                invariant
                    i <= list.len(),
                    views(records@) == identities_records(list@.take(i as int)),
                    file@ == identities_text(list@.take(i as int)),
                decreases list.len() - i,
            {
                assert(list@.take(i + 1).drop_last() =~= list@.take(i as int));
                write_identity(&list[i], &mut file, &mut records);
                i = i + 1;
            }
            assert(list@.take(i as int) =~= list@);
        },
        None => {},
    }
    (records, file)
}

/// The names of the identities that have one, each followed by a blank.
pub open spec fn identity_names(list: Seq<IdentityInfo>) -> Seq<char>
    decreases list.len(),
{
    if list.len() == 0 {
        Seq::empty()
    } else {
        identity_names(list.drop_last()) + line_if(
            Seq::empty(),
            list.last().identity_name,
            " "@,
        )
    }
}

/// The names of the e-mail identities, written one after another with a
/// blank behind each.
pub fn retrieve_emails_from_list_email_identities(identities: &Option<Vec<IdentityInfo>>) -> (names:
    String)
    ensures
        names@ == identity_names(listed(*identities)),
{
    proof {
        reveal_strlit("");
        assert(""@ =~= Seq::<char>::empty());
    }
    let mut names = String::new();
    match identities {
        Some(list) => {
            let mut i: usize = 0;
            assert(list@.take(0) =~= Seq::<IdentityInfo>::empty());
            while i < list.len()
                invariant
                    i <= list.len(),
                    ""@ == Seq::<char>::empty(),
                    names@ == identity_names(list@.take(i as int)),
                decreases list.len() - i,
            {
                assert(list@.take(i + 1).drop_last() =~= list@.take(i as int));
                write_line_if(&mut names, "", &list[i].identity_name, " ");
                i = i + 1;
            }
            assert(list@.take(i as int) =~= list@);
        },
        None => {},
    }
    names
}

/// The addresses of the contacts; a contact without address has an empty
/// one.
pub open spec fn addresses(contacts: Seq<Option<String>>) -> Seq<Seq<char>> {
    contacts.map_values(|c: Option<String>| text_or_empty(c))
}

/// The addresses of the contacts of a list, in their order.
pub fn retrieve_emails_from_provided_list(contacts: &Vec<Option<String>>) -> (emails: Vec<String>)
    ensures
        views(emails@) == addresses(contacts@),
{
    let mut emails: Vec<String> = Vec::new();
    let mut i: usize = 0;
    while i < contacts.len()
        invariant
            i <= contacts.len(),
            emails@.len() == i,
            forall|k: int| 0 <= k < i ==> emails@[k]@ == text_or_empty(contacts@[k]),
        decreases contacts.len() - i,
    {
        match &contacts[i] {
            Some(address) => emails.push(address.clone()),
            None => emails.push(String::new()),
        }
        i = i + 1;
    }
    assert(views(emails@) =~= addresses(contacts@));
    emails
}

/// The addresses of the contacts of a list, written one after another.
pub fn get_emails_given_list_name(contacts: &Vec<Option<String>>) -> (emails: String)
    ensures
        emails@ == concat_all(addresses(contacts@)),
{
    let list = retrieve_emails_from_provided_list(contacts);
    crate::text::concat_texts(&list)
}

/// The addresses of the contacts of a list, written one after another with
/// a blank behind each; empty where the service names no contacts.
pub fn get_contacts_in_the_list(contacts: &Option<Vec<Option<String>>>) -> (out: String)
    ensures
        out@ == (match *contacts {
            Some(list) => spaced(addresses(list@)),
            None => Seq::empty(),
        }),
{
    match contacts {
        Some(list) => {
            let emails = retrieve_emails_from_provided_list(list);
            followed_each(&emails, " ")
        },
        None => String::new(),
    }
}

/// What emptying a contact list comes to.
#[derive(Debug)]
pub enum ContactsDeletion {
    /// The list has contacts: these are deleted, one after another.
    DeleteAll { contacts: Vec<String> },
    /// The list has no contacts.
    NothingToDelete,
    /// There is no such list.
    ListMissing,
}

/// Whether `outcome` is what emptying a list comes to: every piece of the
/// list's addresses that blanks set apart is deleted, where the list exists
/// and has addresses.
pub open spec fn is_contacts_deletion(
    outcome: ContactsDeletion,
    list_exists: bool,
    available_contacts: Seq<char>,
) -> bool {
    if !list_exists {
        outcome is ListMissing
    } else if available_contacts.len() == 0 {
        outcome is NothingToDelete
    } else {
        outcome is DeleteAll && views(outcome->contacts@) == runs(available_contacts, true)
    }
}

/// What emptying a contact list comes to, given whether the list exists and
/// the addresses of its contacts, written one after another with a blank
/// behind each.
pub fn delete_contacts(list_exists: bool, available_contacts: &str) -> (outcome: ContactsDeletion)
    ensures
        is_contacts_deletion(outcome, list_exists, available_contacts@),
{
    if !list_exists {
        ContactsDeletion::ListMissing
    } else if available_contacts.unicode_len() == 0 {
        ContactsDeletion::NothingToDelete
    } else {
        ContactsDeletion::DeleteAll { contacts: split_runs(available_contacts, true) }
    }
}

/// What deleting a contact comes to.
#[derive(Clone, Copy, Debug, PartialEq, Eq, Structural)]
pub enum ContactDeletion {
    /// The contact is in the list and is deleted.
    Delete,
    /// The list has contacts, but not this one.
    NotInList,
    /// The list has no contacts.
    EmptyList,
    /// There is no such list.
    NoSuchList,
}

/// What deleting the contact `email` comes to, given whether its list
/// exists and which contacts the list has.
pub fn delete_contact(list_exists: bool, available_contacts: &str, email: &str) -> (outcome:
    ContactDeletion)
    ensures
        outcome == (if !list_exists {
            ContactDeletion::NoSuchList
        } else if available_contacts@.len() == 0 {
            ContactDeletion::EmptyList
        } else if occurs_in(available_contacts@, email@) {
            ContactDeletion::Delete
        } else {
            ContactDeletion::NotInList
        }),
{
    if !list_exists {
        ContactDeletion::NoSuchList
    } else if available_contacts.unicode_len() == 0 {
        ContactDeletion::EmptyList
    } else if contains(available_contacts, email) {
        ContactDeletion::Delete
    } else {
        ContactDeletion::NotInList
    }
}

/// Whether an address has an identity: whether it stands somewhere in the
/// names of the identities.
pub fn has_identity(email_identities: &str, email: &str) -> (yes: bool)
    ensures
        yes == occurs_in(email_identities@, email@),
{
    contains(email_identities, email)
}

/// Whether an address that has an identity is verified; nothing is known of
/// an address without identity.
pub fn is_email_verfied(email_identities: &str, email: &str, verified_for_sending: bool) -> (verified:
    Option<bool>)
    ensures
        verified == (if occurs_in(email_identities@, email@) {
            Some(verified_for_sending)
        } else {
            None
        }),
{
    if contains(email_identities, email) {
        Some(verified_for_sending)
    } else {
        None
    }
}

/// What sending one e-mail comes to.
#[derive(Debug)]
pub enum MailStep {
    /// The address is verified: the mail is sent from `from_address`.
    Send { from_address: String },
    /// The address has an identity that is not verified: its identity is
    /// deleted and created anew, and the mail is not sent.
    Reverify { notice: String },
    /// The address has no identity: the mail is not sent.
    Refuse { reason: String },
}

/// What is said of an address that is not verified.
pub open spec fn unverified_notice(email: Seq<char>) -> Seq<char> {
    "The email ---"@ + email
        + "--- has not been verified; we have re-sent the verification email"@
}

/// What is said of an address without identity.
pub open spec fn no_identity_reason(email: Seq<char>) -> Seq<char> {
    "The email identity '"@ + email
        + "' doesn't exist.\nThis email should be verified through 'create email identity' option before sending an email"@
}

/// The address that a mail is sent from: the given one, or else the default.
pub open spec fn sender(from_address: Option<&str>, default_from: Seq<char>) -> Seq<char> {
    match from_address {
        Some(a) => a@,
        None => default_from,
    }
}

/// Whether `step` is what sending a mail to `email` comes to: the mail is
/// sent where the address has an identity and is verified; the identity is
/// renewed where it is not verified; the mail is refused where the address
/// has no identity or nothing is known of its verification.
pub open spec fn is_mail_step(
    step: MailStep,
    email: Seq<char>,
    identities: Seq<char>,
    verified: Option<bool>,
    from_address: Option<&str>,
    default_from: Seq<char>,
) -> bool {
    if occurs_in(identities, email) && verified == Some(true) {
        step is Send && step->from_address@ == sender(from_address, default_from)
    } else if occurs_in(identities, email) && verified == Some(false) {
        step is Reverify && step->notice@ == unverified_notice(email)
    } else {
        step is Refuse && step->reason@ == no_identity_reason(email)
    }
}

fn no_identity(email: &str) -> (reason: String)
    ensures
        reason@ == no_identity_reason(email@),
{
    let mut reason = String::from_str("The email identity '");
    reason.append(email);
    reason.append(
        "' doesn't exist.\nThis email should be verified through 'create email identity' option before sending an email",
    );
    reason
}

/// What sending a mail to `email` comes to, given the names of the
/// identities and whether the address is verified for sending.
pub fn send_mono_email(
    email: &str,
    email_identities: &str,
    verified: Option<bool>,
    from_address: Option<&str>,
    default_from_address: &str,
) -> (step: MailStep)
    ensures
        is_mail_step(
            step,
            email@,
            email_identities@,
            verified,
            from_address,
            default_from_address@,
        ),
{
    if contains(email_identities, email) {
        match verified {
            Some(status) => {
                if status {
                    let from = match from_address {
                        Some(a) => a,
                        None => default_from_address,
                    };
                    MailStep::Send { from_address: String::from_str(from) }
                } else {
                    let mut notice = String::from_str("The email ---");
                    notice.append(email);
                    notice.append(
                        "--- has not been verified; we have re-sent the verification email",
                    );
                    MailStep::Reverify { notice }
                }
            },
            None => MailStep::Refuse { reason: no_identity(email) },
        }
    } else {
        MailStep::Refuse { reason: no_identity(email) }
    }
}

/// What happens to one address of a list when mail is sent to the whole
/// list.
#[derive(Debug)]
pub enum BulkStep {
    /// The address is verified: the mail is sent to it.
    Send,
    /// The address is not verified: it is passed over.
    PassOver { said: String },
    /// Nothing is known of the address's identity.
    Unknown { first: String, second: String },
    /// The address has no identity: one is created for it.
    CreateIdentity { line: String },
}

/// The kind of mail that is sent to a list, as it is named in what is said.
pub open spec fn mail_kind(templated: bool) -> Seq<char> {
    if templated {
        "templated emails"@
    } else {
        "Simple Emails"@
    }
}

/// What is said of an address that is passed over.
pub open spec fn pass_over_text(email: Seq<char>, templated: bool) -> Seq<char> {
    "The email address '"@ + email
        + "' in the list hasn't been verified, yet it continues to send "@ + mail_kind(templated)
        + " to other verified email addresses in the list\n"@
}

/// What is said of an address for which an identity is created.
pub open spec fn create_identity_text(email: Seq<char>) -> Seq<char> {
    "The email address '"@ + email
        + "' in this list doesn't have an identity; therefore, it creates an identity by executing the 'Create Email Identity' option on your behalf\n"@
}

/// Whether `step` is what happens to `email` when mail is sent to its list.
pub open spec fn is_bulk_step(
    step: BulkStep,
    email: Seq<char>,
    identities: Seq<char>,
    verified: Option<bool>,
    templated: bool,
) -> bool {
    if !occurs_in(identities, email) {
        step is CreateIdentity && step->line@ == create_identity_text(email)
    } else {
        match verified {
            Some(true) => step is Send,
            Some(false) => step is PassOver && step->said@ == pass_over_text(email, templated),
            None => step is Unknown && step->first@ == "The email identity for '"@ + email
                + "' does not exist"@ && step->second@
                == "Please use the 'Create Email Identity' option or function to establish an identity for this email\n"@,
        }
    }
}

/// What happens to one address of a list when mail is sent to the whole
/// list, given the names of the identities and whether the address is
/// verified for sending.
pub fn send_to_listed(email: &str, email_identities: &str, verified: Option<bool>, templated: bool)
    -> (step: BulkStep)
    ensures
        is_bulk_step(step, email@, email_identities@, verified, templated),
{
    if contains(email_identities, email) {
        match verified {
            Some(status) => {
                if status {
                    BulkStep::Send
                } else {
                    let mut said = String::from_str("The email address '");
                    said.append(email);
                    said.append("' in the list hasn't been verified, yet it continues to send ");
                    said.append(
                        if templated {
                            "templated emails"
                        } else {
                            "Simple Emails"
                        },
                    );
                    said.append(" to other verified email addresses in the list\n");
                    BulkStep::PassOver { said }
                }
            },
            None => {
                let mut first = String::from_str("The email identity for '");
                first.append(email);
                first.append("' does not exist");
                BulkStep::Unknown {
                    first,
                    second: String::from_str(
                        "Please use the 'Create Email Identity' option or function to establish an identity for this email\n",
                    ),
                }
            },
        }
    } else {
        let mut line = String::from_str("The email address '");
        line.append(email);
        line.append(
            "' in this list doesn't have an identity; therefore, it creates an identity by executing the 'Create Email Identity' option on your behalf\n",
        );
        BulkStep::CreateIdentity { line }
    }
}

/// The first nine characters of an address: the name that a templated mail
/// speaks to.
pub open spec fn short_name(email: Seq<char>) -> Seq<char> {
    email.take(if email.len() >= 9 {
        9
    } else {
        email.len() as int
    })
}

/// The data of a templated mail to `email`: the sample data with every
/// `email` replaced by the address, and then every `name` by the first
/// nine characters of the address.
pub open spec fn template_data_of(sample: Seq<char>, email: Seq<char>) -> Seq<char> {
    replaced(replaced(sample, "email"@, email), "name"@, short_name(email))
}

/// The data of a templated mail to `email`.
pub fn template_data_for(sample: &str, email: &str) -> (data: String)
    ensures
        data@ == template_data_of(sample@, email@),
{
    let name = first_chars(email, 9);
    let data = replace_all(sample, "email", email);
    replace_all(data.as_str(), "name", name.as_str())
}

/// What is said after a template was updated: which of its parts were
/// given.
pub open spec fn update_message(subject: Seq<char>, text: Seq<char>) -> Seq<char> {
    if subject.len() > 0 && text.len() > 0 {
        "The template has been successfully updated with the provided subject, HTML body, and text body"@
    } else if text.len() > 0 {
        "The template has been successfully updated with the provided HTML body, and text body"@
    } else if subject.len() > 0 {
        "The template has been successfully updated with the provided subject, HTML body"@
    } else {
        "The template has been successfully updated with the provided HTML body"@
    }
}

/// What is said after a template was updated. A text that is not given
/// counts as empty.
pub fn update_template(subject: &str, text: &Option<String>) -> (said: &'static str)
    ensures
        said@ == update_message(subject@, text_or_empty(*text)),
{
    let no_subject = subject.unicode_len() == 0;
    let no_text = match text {
        Some(t) => t.as_str().unicode_len() == 0,
        None => true,
    };
    if !no_subject && !no_text {
        "The template has been successfully updated with the provided subject, HTML body, and text body"
    } else if !no_text {
        "The template has been successfully updated with the provided HTML body, and text body"
    } else if !no_subject {
        "The template has been successfully updated with the provided subject, HTML body"
    } else {
        "The template has been successfully updated with the provided HTML body"
    }
}

/// The parts of an e-mail template.
#[derive(Clone, Debug)]
pub struct TemplateContent {
    pub subject: Option<String>,
    pub html: Option<String>,
    pub text: Option<String>,
}

/// The parts of a template as texts, and the page that shows them.
#[derive(Debug)]
pub struct TemplateParts {
    pub subject: String,
    pub html: String,
    pub text: String,
    /// The file that the page is written to.
    pub file_name: String,
    /// The page, where one is asked for.
    pub page: Option<String>,
}

/// The page that shows the parts of a template: a heading and the part, for
/// each part that is there.
pub open spec fn template_page(content: Option<TemplateContent>) -> Seq<char> {
    match content {
        Some(c) => line_if(
            r#"<h1 style="text-align: center;">Subject Part</h1><br><br><p style="text-align: center;padding-left: 100px;padding-right: 100px;">"#@,
            c.subject,
            "</p><br><br>"@,
        ) + line_if(
            r#"<h1 style="text-align: center;">Html Part</h1><br><br>"#@,
            c.html,
            "<br><br>"@,
        ) + line_if(
            r#"<h1 style="text-align: center;">Text Part</h1><br><br><p style="padding-left: 100px;padding-right: 100px;">"#@,
            c.text,
            "</p><br><br><br><br><br>"@,
        ),
        None => Seq::empty(),
    }
}

/// One part of a template, empty where it is missing.
pub open spec fn part_or_empty(content: Option<TemplateContent>, which: int) -> Seq<char> {
    match content {
        Some(c) => text_or_empty(
            if which == 0 {
                c.subject
            } else if which == 1 {
                c.html
            } else {
                c.text
            },
        ),
        None => Seq::empty(),
    }
}

fn or_empty(t: &Option<String>) -> (out: String)
    ensures
        out@ == text_or_empty(*t),
{
    match t {
        Some(t) => t.clone(),
        None => String::new(),
    }
}

/// Whether `parts` are the parts of the template `template_name` with this
/// content: its subject, its HTML body and its text body, each empty where
/// it is missing; the file `EmailTemplateOf`, the template's name and
/// `.html`; and, only where `write_info` asks for it, the page that shows
/// the parts.
pub open spec fn is_template_parts(
    parts: TemplateParts,
    template_name: Seq<char>,
    content: Option<TemplateContent>,
    write_info: bool,
) -> bool {
    &&& parts.subject@ == part_or_empty(content, 0)
    &&& parts.html@ == part_or_empty(content, 1)
    &&& parts.text@ == part_or_empty(content, 2)
    &&& parts.file_name@ == "EmailTemplateOf"@ + template_name + ".html"@
    &&& text_view(parts.page) == (if write_info {
        Some(template_page(content))
    } else {
        None
    })
}

/// The parts of a template with this content, and, where `write_info` asks
/// for it, the page that shows them.
pub fn template_parts(template_name: &str, content: &Option<TemplateContent>, write_info: bool) -> (parts:
    TemplateParts)
    ensures
        is_template_parts(parts, template_name@, *content, write_info),
{
    let mut file_name = String::from_str("EmailTemplateOf");
    file_name.append(template_name);
    file_name.append(".html");
    match content {
        Some(c) => {
            let mut page = String::new();
            write_line_if(
                &mut page,
                r#"<h1 style="text-align: center;">Subject Part</h1><br><br><p style="text-align: center;padding-left: 100px;padding-right: 100px;">"#,
                &c.subject,
                "</p><br><br>",
            );
            assert(page@ =~= line_if(
                r#"<h1 style="text-align: center;">Subject Part</h1><br><br><p style="text-align: center;padding-left: 100px;padding-right: 100px;">"#@,
                c.subject,
                "</p><br><br>"@,
            ));
            write_line_if(
                &mut page,
                r#"<h1 style="text-align: center;">Html Part</h1><br><br>"#,
                &c.html,
                "<br><br>",
            );
            write_line_if(
                &mut page,
                r#"<h1 style="text-align: center;">Text Part</h1><br><br><p style="padding-left: 100px;padding-right: 100px;">"#,
                &c.text,
                "</p><br><br><br><br><br>",
            );
            TemplateParts {
                subject: or_empty(&c.subject),
                html: or_empty(&c.html),
                text: or_empty(&c.text),
                file_name,
                page: if write_info {
                    Some(page)
                } else {
                    None
                },
            }
        },
        None => TemplateParts {
            subject: String::new(),
            html: String::new(),
            text: String::new(),
            file_name,
            page: if write_info {
                Some(String::new())
            } else {
                None
            },
        },
    }
}

/// The subject, the HTML body and the text body of a template, given the
/// names of the templates that are there and the content that was fetched
/// for this one. Nothing is returned exactly where no template of this name
/// is taken to exist: where the name stands nowhere in the names written
/// one after another with a blank behind each.
pub fn get_template_subject_html_and_text(
    template_names: &Vec<String>,
    template_name: &str,
    content: &Option<TemplateContent>,
    write_info: bool,
) -> (out: Option<TemplateParts>)
    ensures
        out is Some == occurs_in(spaced(views(template_names@)), template_name@),
        out is Some ==> is_template_parts(out->0, template_name@, *content, write_info),
{
    if is_email_template_exist(template_names, template_name) {
        Some(template_parts(template_name, content, write_info))
    } else {
        None
    }
}

/// The pattern of a template variable: two opening braces, as little as
/// may be, two closing braces.
pub open spec fn variable_pattern() -> Seq<char> {
    r#"\{\{.*?\}\}"#@
}

/// The variables of the subject and of the HTML body of a template;
/// nothing where the pattern does not compile.
pub fn get_template_variables_of_subject_and_html_body(subject: &str, template: &str) -> (out:
    Option<(Vec<String>, Vec<String>)>)
    ensures
        match out {
            Some(v) => regex_matches(variable_pattern(), subject@) == Some(views(v.0@))
                && regex_matches(variable_pattern(), template@) == Some(views(v.1@)),
            None => regex_matches(variable_pattern(), subject@) is None || regex_matches(
                variable_pattern(),
                template@,
            ) is None,
        },
{
    let subject_variables = find_all(r#"\{\{.*?\}\}"#, subject);
    let html_variables = find_all(r#"\{\{.*?\}\}"#, template);
    match (subject_variables, html_variables) {
        (Some(s), Some(h)) => Some((s, h)),
        _ => None,
    }
}

/// Whether a character is one of the marks that stand around a key of the
/// template data: a quotation mark, a colon or a blank.
pub open spec fn is_mark(c: char) -> bool {
    c == '"' || c == ':' || c == ' '
}

/// A text without the marks at its start.
pub open spec fn without_marks_before(s: Seq<char>) -> Seq<char>
    decreases s.len(),
{
    if s.len() > 0 && is_mark(s[0]) {
        without_marks_before(s.skip(1))
    } else {
        s
    }
}

/// A text without the marks at its end.
pub open spec fn without_marks_behind(s: Seq<char>) -> Seq<char>
    decreases s.len(),
{
    if s.len() > 0 && is_mark(s.last()) {
        without_marks_behind(s.drop_last())
    } else {
        s
    }
}

/// A text without the marks at its start and at its end.
pub open spec fn without_marks(s: Seq<char>) -> Seq<char> {
    without_marks_behind(without_marks_before(s))
}

/// A text without its marks begins and ends with no mark.
pub proof fn lemma_without_marks(s: Seq<char>)
    ensures
        without_marks(s).len() > 0 ==> !is_mark(without_marks(s)[0]) && !is_mark(
            without_marks(s).last(),
        ),
{
    lemma_no_mark_before(s);
    lemma_no_mark_behind(without_marks_before(s));
}

proof fn lemma_no_mark_before(s: Seq<char>)
    ensures
        without_marks_before(s).len() > 0 ==> !is_mark(without_marks_before(s)[0]),
    decreases s.len(),
{
    if s.len() > 0 && is_mark(s[0]) {
        lemma_no_mark_before(s.skip(1));
    }
}

proof fn lemma_no_mark_behind(s: Seq<char>)
    ensures
        without_marks_behind(s).len() > 0 ==> !is_mark(without_marks_behind(s).last()),
        without_marks_behind(s).len() > 0 ==> s.len() > 0 && without_marks_behind(s)[0] == s[0],
    decreases s.len(),
{
    if s.len() > 0 && is_mark(s.last()) {
        lemma_no_mark_behind(s.drop_last());
    }
}

/// A text without the marks at its start and at its end.
pub fn trim_marks(text: &str) -> (out: String)
    ensures
        out@ == without_marks(text@),
{
    let chars = chars_of(text);
    let n: usize = chars.len();
    let mut a: usize = 0;
    assert(text@.skip(0) =~= text@);
    while a < n && (chars[a] == '"' || chars[a] == ':' || chars[a] == ' ')
        invariant
            a <= n,
            n == text@.len(),
            chars@ == text@,
            without_marks_before(text@) == without_marks_before(text@.skip(a as int)),
        decreases n - a,
    {
        assert(text@.skip(a as int).skip(1) =~= text@.skip(a + 1));
        a = a + 1;
    }
    assert(without_marks_before(text@) == text@.skip(a as int));
    let mut b: usize = n;
    assert(text@.subrange(a as int, n as int) =~= text@.skip(a as int));
    while b > a && (chars[b - 1] == '"' || chars[b - 1] == ':' || chars[b - 1] == ' ')
        invariant
            a <= b <= n,
            n == text@.len(),
            chars@ == text@,
            without_marks(text@) == without_marks_behind(text@.subrange(a as int, b as int)),
        decreases b,
    {
        assert(text@.subrange(a as int, b as int).drop_last() =~= text@.subrange(
            a as int,
            b - 1,
        ));
        b = b - 1;
    }
    String::from_str(text.substring_char(a, b))
}

/// The pattern of a key of the template data: a word between quotation
/// marks before a colon.
pub open spec fn key_pattern() -> Seq<char> {
    r#""(\w+)"\s*:"#@
}

/// Every text without the marks around it.
pub open spec fn all_without_marks(found: Seq<Seq<char>>) -> Seq<Seq<char>> {
    found.map_values(|s: Seq<char>| without_marks(s))
}

/// The keys that were found in the template data, without the marks around
/// them.
pub fn keys_from_matches(found: &Vec<String>) -> (keys: Vec<String>)
    ensures
        views(keys@) == all_without_marks(views(found@)),
{
    let mut keys: Vec<String> = Vec::new();
    let mut i: usize = 0;
    while i < found.len()
        invariant
            i <= found.len(),
            keys@.len() == i,
            forall|k: int| 0 <= k < i ==> keys@[k]@ == without_marks(found@[k]@),
        decreases found.len() - i,
    {
        keys.push(trim_marks(found[i].as_str()));
        i = i + 1;
    }
    assert(views(keys@) =~= all_without_marks(views(found@)));
    keys
}

/// The keys of the template data; nothing where the pattern does not
/// compile.
pub fn template_data_keys(template_data: &str) -> (keys: Option<Vec<String>>)
    ensures
        match keys {
            Some(k) => regex_matches(key_pattern(), template_data@) is Some && views(k@)
                == all_without_marks(regex_matches(key_pattern(), template_data@)->0),
            None => regex_matches(key_pattern(), template_data@) is None,
        },
{
    match find_all(r#""(\w+)"\s*:"#, template_data) {
        Some(found) => Some(keys_from_matches(&found)),
        None => None,
    }
}

/// What is said of one key of the template data: whether it stands among
/// the variables of the template.
pub open spec fn key_line(key: Seq<char>, variables: Seq<char>, template_name: Seq<char>) -> Seq<
    char,
> {
    if occurs_in(variables, key) {
        "The template data variable "@ + key
            + " in the specified JSON document matches the template variable of template "@
            + template_name
    } else {
        "The variable in the template "@ + key
            + " in the given JSON document does not match the variable in the template named "@
            + template_name + "\n"@
    }
}

/// What is said of every key.
pub open spec fn key_lines(keys: Seq<Seq<char>>, variables: Seq<char>, template_name: Seq<char>)
    -> Seq<Seq<char>> {
    keys.map_values(|k: Seq<char>| key_line(k, variables, template_name))
}

/// What is said last of all.
pub open spec fn keys_note() -> Seq<char> {
    "This option will not match the spaces around the keys. Execute the 'Get Email Template Variables' option to see the template variables\n"@
}

/// What is said of the keys of the template data: for each key, whether it
/// stands among the variables of the subject and of the HTML body, written
/// one after another with a blank behind each; then a note.
pub fn match_template_data_with_template(
    keys: &Vec<String>,
    subject_variables: &Vec<String>,
    html_variables: &Vec<String>,
    template_name: &str,
) -> (lines: Vec<String>)
    ensures
        views(lines@) == key_lines(
            views(keys@),
            spaced(views(subject_variables@)) + spaced(views(html_variables@)),
            template_name@,
        ).push(keys_note()),
{
    let mut template_variables = followed_each(subject_variables, " ");
    template_variables.append(followed_each(html_variables, " ").as_str());
    let ghost variables = template_variables@;
    let mut lines: Vec<String> = Vec::new();
    let mut i: usize = 0;
    while i < keys.len()
        invariant
            i <= keys.len(),
            variables == template_variables@,
            lines@.len() == i,
            forall|k: int| 0 <= k < i ==> lines@[k]@ == key_line(keys@[k]@, variables, template_name@),
        decreases keys.len() - i,
    {
        let key = keys[i].as_str();
        let line = if contains(template_variables.as_str(), key) {
            let mut line = String::from_str("The template data variable ");
            line.append(key);
            line.append(
                " in the specified JSON document matches the template variable of template ",
            );
            line.append(template_name);
            line
        } else {
            let mut line = String::from_str("The variable in the template ");
            line.append(key);
            line.append(
                " in the given JSON document does not match the variable in the template named ",
            );
            line.append(template_name);
            line.append("\n");
            line
        };
        lines.push(line);
        i = i + 1;
    }
    lines.push(
        String::from_str(
            "This option will not match the spaces around the keys. Execute the 'Get Email Template Variables' option to see the template variables\n",
        ),
    );
    assert(views(lines@) =~= key_lines(views(keys@), variables, template_name@).push(
        keys_note(),
    ));
    lines
}

/// What the service tells of one e-mail identity.
#[derive(Clone, Debug)]
pub struct EmailIdentity {
    pub identity_type: Option<String>,
    pub verified_for_sending_status: bool,
    pub verification_status: Option<String>,
}

/// What stands for a detail of an address without identity.
pub open spec fn no_identity_mark() -> Seq<char> {
    "No Identity Exists"@
}

/// The identity of address `i` of a list: the one that was fetched for it,
/// where the address stands among the names of the identities.
pub open spec fn identity_at(
    emails: Seq<Seq<char>>,
    identities: Seq<char>,
    details: Seq<Option<EmailIdentity>>,
    i: int,
) -> Option<EmailIdentity> {
    if 0 <= i < emails.len() && i < details.len() && occurs_in(identities, emails[i]) {
        details[i]
    } else {
        None
    }
}

/// What is written of one address of a list: the address, and what is known
/// of its identity.
pub open spec fn address_text(email: Seq<char>, identity: Option<EmailIdentity>) -> Seq<char> {
    match identity {
        Some(d) => email + "\n\n"@ + line_if("Identity Type: "@, d.identity_type, Seq::empty())
            + "Is Sending Enabled: "@ + truth_text(d.verified_for_sending_status) + line_if(
            "Verification Status: "@,
            d.verification_status,
            "\n\n"@,
        ),
        None => email + "\n\n"@,
    }
}

/// The records of one address of a list: the type of its identity, the
/// address, whether it may send, and its state; an address without identity
/// has a mark in place of each detail.
pub open spec fn address_records(email: Seq<char>, identity: Option<EmailIdentity>) -> Seq<
    Seq<char>,
> {
    match identity {
        Some(d) => record_if(d.identity_type) + seq![
            email,
            truth_text(d.verified_for_sending_status),
        ] + record_if(d.verification_status),
        None => seq![no_identity_mark(), email, no_identity_mark(), no_identity_mark()],
    }
}

/// What is written of the first `n` addresses of a list, under the heading
/// `Emails`.
pub open spec fn addresses_text(
    emails: Seq<Seq<char>>,
    identities: Seq<char>,
    details: Seq<Option<EmailIdentity>>,
    n: int,
) -> Seq<char>
    decreases n,
{
    if n <= 0 {
        "Emails\n\n"@
    } else {
        addresses_text(emails, identities, details, n - 1) + address_text(
            emails[n - 1],
            identity_at(emails, identities, details, n - 1),
        )
    }
}

/// The records of the first `n` addresses of a list.
pub open spec fn addresses_records(
    emails: Seq<Seq<char>>,
    identities: Seq<char>,
    details: Seq<Option<EmailIdentity>>,
    n: int,
) -> Seq<Seq<char>>
    decreases n,
{
    if n <= 0 {
        Seq::empty()
    } else {
        addresses_records(emails, identities, details, n - 1) + address_records(
            emails[n - 1],
            identity_at(emails, identities, details, n - 1),
        )
    }
}

/// What is written of the addresses of a contact list: a text file and a
/// report.
pub struct EmailsWritten {
    /// What `emails.txt` holds.
    pub text: String,
    pub report: Report,
}

/// The name of the list in the report: the given one, else the one of the
/// environment, else the note that there is none.
pub open spec fn report_list_name(list_name: Option<&str>, from_env: Option<&str>) -> Seq<char> {
    match list_name {
        Some(n) => n@,
        None => env_or(from_env, "No 'LIST_NAME' environment variable found"@),
    }
}

fn write_address(
    email: &str,
    identity: &Option<EmailIdentity>,
    file: &mut String,
    records: &mut Vec<String>,
)
    ensures
        final(file)@ == old(file)@ + address_text(email@, *identity),
        views(final(records)@) == views(old(records)@) + address_records(email@, *identity),
{
    proof {
        reveal_strlit("");
        assert(""@ =~= Seq::<char>::empty());
    }
    let mut entry = String::from_str(email);
    entry.append("\n\n");
    let mut kept: Vec<String> = Vec::new();
    assert(views(kept@) =~= Seq::<Seq<char>>::empty());
    match identity {
        Some(d) => {
            write_if("Identity Type: ", copy_of(&d.identity_type), "", &mut entry, &mut kept);
            assert(views(kept@) =~= record_if(d.identity_type));
            say_plain(&mut kept, email);
            let sending = truth(d.verified_for_sending_status);
            entry.append("Is Sending Enabled: ");
            entry.append(sending.as_str());
            say_plain(&mut kept, sending.as_str());
            let ghost before = views(kept@);
            assert(before =~= record_if(d.identity_type) + seq![
                email@,
                truth_text(d.verified_for_sending_status),
            ]);
            write_if(
                "Verification Status: ",
                copy_of(&d.verification_status),
                "\n\n",
                &mut entry,
                &mut kept,
            );
        },
        None => {
            say_plain(&mut kept, "No Identity Exists");
            say_plain(&mut kept, email);
            say_plain(&mut kept, "No Identity Exists");
            say_plain(&mut kept, "No Identity Exists");
            assert(views(kept@) =~= address_records(email@, *identity));
        },
    }
    file.append(entry.as_str());
    push_all(records, kept);
}

/// What is written of the addresses of a contact list: to `emails.txt`,
/// every address and what is known of its identity; to the report, the
/// records of every address. `details` holds, for every address that stands
/// among the names of the identities, the identity that was fetched for it.
pub fn writing_email_addresses_from_provided_list_as_text_pdf(
    emails: &Vec<String>,
    email_identities: &str,
    details: &Vec<Option<EmailIdentity>>,
    list_name: Option<&str>,
    list_name_from_env: Option<&str>,
    region_name: Option<&str>,
) -> (written: EmailsWritten)
    ensures
        written.text@ == addresses_text(
            views(emails@),
            email_identities@,
            details@,
            emails@.len() as int,
        ),
        written.report@ == email_report(
            addresses_records(views(emails@), email_identities@, details@, emails@.len() as int),
            report_list_name(list_name, list_name_from_env),
            env_or(region_name, "No region is found in the Credential"@),
        ),
{
    let mut file = String::from_str("Emails\n\n");
    let mut records: Vec<String> = Vec::new();
    assert(views(records@) =~= Seq::<Seq<char>>::empty());
    let mut i: usize = 0;
    while i < emails.len()
        invariant
            i <= emails.len(),
            file@ == addresses_text(views(emails@), email_identities@, details@, i as int),
            views(records@) == addresses_records(
                views(emails@),
                email_identities@,
                details@,
                i as int,
            ),
        decreases emails.len() - i,
    {
        let email = emails[i].as_str();
        let none: Option<EmailIdentity> = None;
        let identity = if i < details.len() && contains(email_identities, email) {
            &details[i]
        } else {
            &none
        };
        assert(*identity == identity_at(views(emails@), email_identities@, details@, i as int));
        write_address(email, identity, &mut file, &mut records);
        i = i + 1;
    }
    let list = match list_name {
        Some(n) => String::from_str(n),
        None => match list_name_from_env {
            Some(n) => String::from_str(n),
            None => String::from_str("No 'LIST_NAME' environment variable found"),
        },
    };
    let region = match region_name {
        Some(r) => r,
        None => "No region is found in the Credential",
    };
    let report = create_email_pdf(records, list.as_str(), region);
    EmailsWritten { text: file, report }
}

/// The column of headers beside the details of the identities.
pub open spec fn identity_headers() -> Seq<Seq<char>> {
    seq!["Identity Type"@, "Identity Name"@, "Is Sending Enabled"@, "Verification Status"@]
}

/// The report on the e-mail identities of a region, whose name is a note
/// where none is known.
pub fn writing_email_identies_details_as_text_pdf(
    identities: Vec<String>,
    region_name: Option<&str>,
) -> (report: Report)
    ensures
        report@ == email_identities_report(
            identity_headers(),
            views(identities@),
            env_or(region_name, "No Region is found"@),
        ),
{
    let headers: Vec<&str> = vec![
        "Identity Type",
        "Identity Name",
        "Is Sending Enabled",
        "Verification Status",
    ];
    assert(crate::text::str_views(headers@) =~= identity_headers());
    let region = match region_name {
        Some(r) => r,
        None => "No Region is found",
    };
    create_email_identities_pdf(&headers, identities, region)
}

/// What a mail holds.
#[derive(Clone, Debug)]
pub enum MailContent {
    /// A subject and an HTML body, both in the character set `charset`.
    Simple { subject: String, html_body: String, charset: String },
    /// The name of a template and the data that fill it.
    Template { template_name: String, template_data: String },
}

/// A mail, marked as simple or as made from a template.
#[derive(Clone, Debug)]
pub enum SimpleOrTemplate {
    Simple_(MailContent),
    Template_(MailContent),
}

/// A mail with a subject and an HTML body.
pub struct SimpleMail {
    body: String,
    subject: String,
}

impl SimpleMail {
    /// The body of the mail.
    pub closed spec fn body_text(&self) -> Seq<char> {
        self.body@
    }

    /// The subject of the mail.
    pub closed spec fn subject_text(&self) -> Seq<char> {
        self.subject@
    }

    pub fn builder(body: &str, subject: &str) -> (mail: Self)
        ensures
            mail.body_text() == body@,
            mail.subject_text() == subject@,
    {
        Self { body: String::from_str(body), subject: String::from_str(subject) }
    }

    /// The content of the mail: its subject and its body, in `UTF-8`.
    pub fn build(self) -> (content: MailContent)
        ensures
            content is Simple,
            content->subject@ == self.subject_text(),
            content->html_body@ == self.body_text(),
            content->charset@ == "UTF-8"@,
    {
        MailContent::Simple {
            subject: self.subject,
            html_body: self.body,
            charset: String::from_str("UTF-8"),
        }
    }
}

/// A mail that is made from a template.
pub struct TemplateMail<'a> {
    template_name: &'a str,
    template_data: &'a str,
}

impl<'a> TemplateMail<'a> {
    /// The name of the template.
    pub closed spec fn name_text(&self) -> Seq<char> {
        self.template_name@
    }

    /// The data that fill the template.
    pub closed spec fn data_text(&self) -> Seq<char> {
        self.template_data@
    }

    pub fn builder(template_name: &'a str, template_data: &'a str) -> (mail: Self)
        ensures
            mail.name_text() == template_name@,
            mail.data_text() == template_data@,
    {
        Self { template_name, template_data }
    }

    /// The content of the mail: the template's name and its data.
    pub fn build(self) -> (content: MailContent)
        ensures
            content is Template,
            content->template_name@ == self.name_text(),
            content->template_data@ == self.data_text(),
    {
        MailContent::Template {
            template_name: String::from_str(self.template_name),
            template_data: String::from_str(self.template_data),
        }
    }
}

} // verus!
