//! What Pinpoint answers when an application or a template is created.
use crate::text::{as_text, str_view, text_view};
use vstd::prelude::*;

verus! {

/// The application that Pinpoint created.
#[derive(Debug)]
pub struct ApplicationResponse {
    pub arn: Option<String>,
    pub id: Option<String>,
    pub name: Option<String>,
    pub creation_date: Option<String>,
}

impl Default for ApplicationResponse {
    fn default() -> (out: Self)
        ensures
            out == (ApplicationResponse { arn: None, id: None, name: None, creation_date: None }),
    {
        ApplicationResponse { arn: None, id: None, name: None, creation_date: None }
    }
}

impl ApplicationResponse {
    pub fn build_application_response(
        arn: Option<String>,
        id: Option<String>,
        name: Option<String>,
        creation_date: Option<String>,
    ) -> (out: Self)
        ensures
            out == (ApplicationResponse { arn, id, name, creation_date }),
    {
        Self { arn, id, name, creation_date }
    }

    /// The resource name of the application.
    pub fn get_arn(&self) -> (arn: Option<&str>)
        ensures
            str_view(arn) == text_view(self.arn),
    {
        as_text(&self.arn)
    }

    /// The name of the application.
    pub fn get_app_name(&self) -> (name: Option<&str>)
        ensures
            str_view(name) == text_view(self.name),
    {
        as_text(&self.name)
    }

    /// The day the application was created on.
    pub fn get_creation_date(&self) -> (date: Option<&str>)
        ensures
            str_view(date) == text_view(self.creation_date),
    {
        as_text(&self.creation_date)
    }

    /// The identifier of the application.
    pub fn get_id(&self) -> (id: Option<&str>)
        ensures
            str_view(id) == text_view(self.id),
    {
        as_text(&self.id)
    }
}

/// What Pinpoint says of a template that it created: a message and a
/// resource name.
#[derive(Debug)]
pub struct TemplateMessage {
    pub message: Option<String>,
    pub arn: Option<String>,
}

/// The application that was created, or one of which nothing is known where
/// Pinpoint answered without one.
pub fn create_app(response: Option<ApplicationResponse>) -> (out: ApplicationResponse)
    ensures
        out == (match response {
            Some(r) => r,
            None => ApplicationResponse { arn: None, id: None, name: None, creation_date: None },
        }),
{
    match response {
        Some(r) => ApplicationResponse::build_application_response(
            r.arn,
            r.id,
            r.name,
            r.creation_date,
        ),
        None => ApplicationResponse::default(),
    }
}

/// The message and the resource name of a template that was created;
/// neither where Pinpoint answered without them.
pub fn create_email_template(body: Option<TemplateMessage>) -> (out: (
    Option<String>,
    Option<String>,
))
    ensures
        out == (match body {
            Some(b) => (b.message, b.arn),
            None => (None, None),
        }),
{
    match body {
        Some(b) => (b.message, b.arn),
        None => (None, None),
    }
}

} // verus!
