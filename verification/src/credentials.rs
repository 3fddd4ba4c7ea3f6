//! The credentials that every service is reached with.
use crate::text::{as_text, said_of, text_view, views};
use vstd::prelude::*;
use vstd::string::*;

verus! {

/// The access key, the secret key and the region that the services are
/// reached with, and who provides them.
#[derive(Debug)]
pub struct CredentInitialize {
    access_id: Option<String>,
    secret_key: Option<String>,
    region: Option<String>,
    provider_name: Option<String>,
}

/// What a `CredentInitialize` holds, as plain values.
pub struct CredentView {
    pub access_id: Option<Seq<char>>,
    pub secret_key: Option<Seq<char>>,
    pub region: Option<Seq<char>>,
    pub provider_name: Option<Seq<char>>,
}

impl View for CredentInitialize {
    type V = CredentView;

    closed spec fn view(&self) -> CredentView {
        CredentView {
            access_id: text_view(self.access_id),
            secret_key: text_view(self.secret_key),
            region: text_view(self.region),
            provider_name: text_view(self.provider_name),
        }
    }
}

/// Credentials of which nothing is known yet.
pub open spec fn no_credentials() -> CredentView {
    CredentView { access_id: None, secret_key: None, region: None, provider_name: None }
}

/// What is given as the region where the environment names none.
pub open spec fn region_note() -> Seq<char> {
    "The region value is read from the .env file in the current directory if it is not provided in the credential file."@
}

/// The region of the environment, or the note that none was found.
pub open spec fn region_or_note(from_env: Option<&str>) -> Seq<char> {
    match from_env {
        Some(region) => region@,
        None => region_note(),
    }
}

/// A text that may be missing, as a plain value; a missing one is empty.
pub open spec fn plain_or_empty(t: Option<Seq<char>>) -> Seq<char> {
    match t {
        Some(t) => t,
        None => Seq::empty(),
    }
}

/// What the services are reached with: the parts of a configuration.
pub struct CredentialParts {
    pub access_id: String,
    pub secret_key: String,
    pub region: String,
    pub provider_name: String,
}

/// What is shown of credentials: both keys where both are known, then the
/// region where it is known.
pub open spec fn credential_lines(c: CredentView) -> Seq<Seq<char>> {
    (if c.access_id is Some && c.secret_key is Some {
        seq!["Access Key Id: "@ + c.access_id->0, "Secret AccessKey Id: "@ + c.secret_key->0]
    } else {
        Seq::empty()
    }) + said_of("Region: "@, c.region, "\n"@)
}

impl Default for CredentInitialize {
    fn default() -> (out: Self)
        ensures
            out@ == no_credentials(),
    {
        CredentInitialize { access_id: None, secret_key: None, region: None, provider_name: None }
    }
}

impl CredentInitialize {
    /// Sets the keys and the region, and names `aws` as the provider. Where
    /// no region is given, the one of the environment stands in, or the
    /// note that none was found.
    pub fn update(
        &mut self,
        access_id: &str,
        secret_key: &str,
        region: Option<&str>,
        region_from_env: Option<&str>,
    )
        ensures
            final(self)@ == (CredentView {
                access_id: Some(access_id@),
                secret_key: Some(secret_key@),
                region: Some(
                    match region {
                        Some(r) => r@,
                        None => region_or_note(region_from_env),
                    },
                ),
                provider_name: Some("aws"@),
            }),
    {
        self.access_id = Some(String::from_str(access_id));
        self.secret_key = Some(String::from_str(secret_key));
        self.region = match region {
            Some(region) => Some(String::from_str(region)),
            None => Some(self.get_region_name(region_from_env)),
        };
        self.provider_name = Some(String::from_str("aws"));
    }

    /// The parts of the configuration that the services are reached with: a
    /// key or a region that is not known is empty, and the provider is `aws`.
    pub fn credential(&mut self) -> (parts: CredentialParts)
        ensures
            final(self)@ == old(self)@,
            parts.access_id@ == plain_or_empty(old(self)@.access_id),
            parts.secret_key@ == plain_or_empty(old(self)@.secret_key),
            parts.region@ == plain_or_empty(old(self)@.region),
            parts.provider_name@ == "aws"@,
    {
        let access_id = match &self.access_id {
            Some(t) => t.clone(),
            None => String::new(),
        };
        let secret_key = match &self.secret_key {
            Some(t) => t.clone(),
            None => String::new(),
        };
        let region = match &self.region {
            Some(t) => t.clone(),
            None => String::new(),
        };
        CredentialParts { access_id, secret_key, region, provider_name: String::from_str("aws") }
    }

    /// The same as `credential`.
    pub fn build(&mut self) -> (parts: CredentialParts)
        ensures
            final(self)@ == old(self)@,
            parts.access_id@ == plain_or_empty(old(self)@.access_id),
            parts.secret_key@ == plain_or_empty(old(self)@.secret_key),
            parts.region@ == plain_or_empty(old(self)@.region),
            parts.provider_name@ == "aws"@,
    {
        self.credential()
    }

    /// What is shown of the credentials.
    pub fn print_credentials(&self) -> (lines: Vec<String>)
        ensures
            views(lines@) == credential_lines(self@),
    {
        let mut lines: Vec<String> = Vec::new();
        assert(views(lines@) =~= Seq::<Seq<char>>::empty());
        match (as_text(&self.access_id), as_text(&self.secret_key)) {
            (Some(access_id), Some(secret_key)) => {
                lines.push(crate::text::joined("Access Key Id: ", access_id));
                lines.push(crate::text::joined("Secret AccessKey Id: ", secret_key));
                assert(views(lines@) =~= seq![
                    "Access Key Id: "@ + access_id@,
                    "Secret AccessKey Id: "@ + secret_key@,
                ]);
            },
            _ => {},
        }
        crate::text::say_if(&mut lines, "Region: ", &self.region, "\n");
        lines
    }

    /// The region of the environment, or the note that none was found.
    pub fn get_region_name(&self, region_from_env: Option<&str>) -> (region: String)
        ensures
            region@ == region_or_note(region_from_env),
    {
        match region_from_env {
            Some(region) => String::from_str(region),
            None => String::from_str(
                "The region value is read from the .env file in the current directory if it is not provided in the credential file.",
            ),
        }
    }

    /// Forgets the keys, the region and the provider.
    pub fn empty(&mut self)
        ensures
            final(self)@ == no_credentials(),
    {
        self.access_id = None;
        self.secret_key = None;
        self.region = None;
        self.provider_name = None;
    }
}

} // verus!
