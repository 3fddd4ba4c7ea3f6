//! What MemoryDB tells of clusters, users and access-control lists, and what
//! a request for a new user is made of.
use crate::text::{as_text, copy_of, copy_of_list, decimal, decimal_i64, number_text, number_view,
    runs, said_if, said_of, same_text, say_if, split_runs, str_view, text_view, views};
use vstd::prelude::*;
use vstd::string::*;

verus! {

/// How a user proves who they are.
#[derive(Clone, Copy, Debug, PartialEq, Eq, Structural)]
pub enum AuthenticationKind {
    Iam,
    Password,
}

/// The kind that a word names; a word other than `iam`, `Iam`, `password`
/// and `Password` names none.
pub open spec fn kind_named(word: Seq<char>) -> Option<AuthenticationKind> {
    if word == "iam"@ || word == "Iam"@ {
        Some(AuthenticationKind::Iam)
    } else if word == "password"@ || word == "Password"@ {
        Some(AuthenticationKind::Password)
    } else {
        None
    }
}

/// The kind of authentication that a word names.
pub fn authentication_kind(authenticate_type: &str) -> (kind: Option<AuthenticationKind>)
    ensures
        kind == kind_named(authenticate_type@),
{
    if same_text(authenticate_type, "iam") || same_text(authenticate_type, "Iam") {
        Some(AuthenticationKind::Iam)
    } else if same_text(authenticate_type, "password") || same_text(authenticate_type, "Password") {
        Some(AuthenticationKind::Password)
    } else {
        None
    }
}

/// The words of a text: its longest runs of characters that are not white
/// space, from left to right.
pub open spec fn words(s: Seq<char>) -> Seq<Seq<char>> {
    runs(s, false)
}

/// The words of a text. The passwords of a new user are given as the words
/// of one text.
pub fn split_words(text: &str) -> (out: Vec<String>)
    ensures
        views(out@) == words(text@),
{
    split_runs(text, false)
}

/// What a request for a new user is made of.
pub struct NewUser {
    pub kind: AuthenticationKind,
    pub passwords: Vec<String>,
}

/// The kind of authentication and the passwords of a new user.
/// `authenticate_type` has to name a kind: `iam`, `Iam`, `password` or
/// `Password`. The passwords are the words of `authenticate_passwords`.
pub fn create_memdb_user(authenticate_type: &str, authenticate_passwords: &str) -> (user: NewUser)
    requires
        kind_named(authenticate_type@) is Some,
    ensures
        kind_named(authenticate_type@) == Some(user.kind),
        views(user.passwords@) == words(authenticate_passwords@),
{
    let kind = match authentication_kind(authenticate_type) {
        Some(kind) => kind,
        None => AuthenticationKind::Iam,
    };
    NewUser { kind, passwords: split_words(authenticate_passwords) }
}

/// Where a cluster is reached.
#[derive(Clone, Debug)]
pub struct Endpoint {
    pub address: Option<String>,
    pub port: i32,
}

/// How a user of MemoryDB proves who they are.
#[derive(Clone, Debug)]
pub struct Authentication {
    pub kind: Option<String>,
    pub password_count: Option<i32>,
}

/// A user of MemoryDB.
#[derive(Debug)]
pub struct MemDBUser {
    pub user_name: Option<String>,
    pub status: Option<String>,
    pub access_string: Option<String>,
    pub authentication: Option<Authentication>,
}

/// What is shown of how a user proves who they are.
pub open spec fn auth_lines(a: Option<Authentication>) -> Seq<Seq<char>> {
    match a {
        Some(a) => said_if("Authentication Type: "@, a.kind, "\n"@) + said_of(
            "Password count: "@,
            number_view(a.password_count),
            "\n"@,
        ),
        None => Seq::empty(),
    }
}

impl MemDBUser {
    pub fn build_memdbuser_info(
        user_name: Option<String>,
        status: Option<String>,
        access_string: Option<String>,
        authentication: Option<Authentication>,
    ) -> (out: Self)
        ensures
            out == (MemDBUser { user_name, status, access_string, authentication }),
    {
        Self { user_name, status, access_string, authentication }
    }

    pub fn get_username(&self) -> (name: Option<&str>)
        ensures
            str_view(name) == text_view(self.user_name),
    {
        as_text(&self.user_name)
    }

    /// What is shown of how the user proves who they are: the kind of
    /// authentication and the number of passwords, as far as they are known.
    pub fn print_auth_info(&self) -> (lines: Vec<String>)
        ensures
            views(lines@) == auth_lines(self.authentication),
    {
        let mut lines: Vec<String> = Vec::new();
        assert(views(lines@) =~= Seq::<Seq<char>>::empty());
        match &self.authentication {
            Some(a) => {
                say_if(&mut lines, "Authentication Type: ", &a.kind, "\n");
                assert(views(lines@) =~= said_if("Authentication Type: "@, a.kind, "\n"@));
                say_if(&mut lines, "Password count: ", &number_text(a.password_count), "\n");
            },
            None => {},
        }
        lines
    }

    pub fn get_access_string(&self) -> (access: Option<&str>)
        ensures
            str_view(access) == text_view(self.access_string),
    {
        as_text(&self.access_string)
    }

    pub fn get_status(&self) -> (status: Option<&str>)
        ensures
            str_view(status) == text_view(self.status),
    {
        as_text(&self.status)
    }
}

/// A cluster of MemoryDB.
#[derive(Debug)]
pub struct MemDbClusterInfo {
    pub cluster_end_point: Option<Endpoint>,
    pub acl_name: Option<String>,
    pub status: Option<String>,
    pub redis_engine_version: Option<String>,
}

/// An address and a port, as a cluster is reached with them.
pub open spec fn address_with_port(address: Seq<char>, port: int) -> Seq<char> {
    address + ":"@ + decimal(port)
}

/// Where a cluster is reached: its address and port, where the address is
/// known.
pub open spec fn endpoint_text(e: Option<Endpoint>) -> Option<Seq<char>> {
    match e {
        Some(Endpoint { address: Some(a), port }) => Some(address_with_port(a@, port as int)),
        _ => None,
    }
}

impl MemDbClusterInfo {
    pub fn build_memdbclusterinfo(
        cluster_end_point: Option<Endpoint>,
        acl_name: Option<String>,
        status: Option<String>,
        redis_engine_version: Option<String>,
    ) -> (out: Self)
        ensures
            out == (MemDbClusterInfo { cluster_end_point, acl_name, status, redis_engine_version }),
    {
        Self { cluster_end_point, acl_name, status, redis_engine_version }
    }

    pub fn get_status(&self) -> (status: Option<String>)
        ensures
            status == self.status,
    {
        copy_of(&self.status)
    }

    pub fn get_port(&self) -> (port: Option<i32>)
        ensures
            port == (match self.cluster_end_point {
                Some(e) => Some(e.port),
                None => None,
            }),
    {
        match &self.cluster_end_point {
            Some(endpoint) => Some(endpoint.port),
            None => None,
        }
    }

    /// The address and the port that the cluster is reached with.
    pub fn get_endpoint_with_port(&self) -> (url: Option<String>)
        ensures
            text_view(url) == endpoint_text(self.cluster_end_point),
    {
        match &self.cluster_end_point {
            Some(endpoint) => match &endpoint.address {
                Some(address) => {
                    let mut url = address.clone();
                    url.append(":");
                    url.append(decimal_i64(endpoint.port as i64).as_str());
                    Some(url)
                },
                None => None,
            },
            None => None,
        }
    }

    pub fn get_acl_name(&self) -> (name: Option<String>)
        ensures
            name == self.acl_name,
    {
        copy_of(&self.acl_name)
    }

    pub fn get_redis_version(&self) -> (version: Option<&str>)
        ensures
            str_view(version) == text_view(self.redis_engine_version),
    {
        as_text(&self.redis_engine_version)
    }
}

/// An access-control list of MemoryDB.
#[derive(Debug)]
pub struct AclInfo {
    pub acl_name: Option<String>,
    pub status: Option<String>,
    pub user_names: Option<Vec<String>>,
    pub clusters: Option<Vec<String>>,
}

/// An access-control list of which nothing is known.
pub open spec fn no_acl() -> AclInfo {
    AclInfo { acl_name: None, status: None, user_names: None, clusters: None }
}

impl Default for AclInfo {
    fn default() -> (out: Self)
        ensures
            out == no_acl(),
    {
        AclInfo { acl_name: None, status: None, user_names: None, clusters: None }
    }
}

impl AclInfo {
    pub fn build_aclinfo(
        acl_name: Option<String>,
        status: Option<String>,
        user_names: Option<Vec<String>>,
        clusters: Option<Vec<String>>,
    ) -> (out: Self)
        ensures
            out == (AclInfo { acl_name, status, user_names, clusters }),
    {
        Self { acl_name, user_names, status, clusters }
    }

    pub fn get_status_of_acl(&self) -> (status: Option<String>)
        ensures
            status == self.status,
    {
        copy_of(&self.status)
    }

    pub fn get_acl_name(&self) -> (name: Option<String>)
        ensures
            name == self.acl_name,
    {
        copy_of(&self.acl_name)
    }

    pub fn get_user_names(&self) -> (names: Option<Vec<String>>)
        ensures
            names is Some == self.user_names is Some,
            names is Some ==> views(names->0@) == views(self.user_names->0@),
    {
        copy_of_list(&self.user_names)
    }

    pub fn get_clusters(&self) -> (clusters: Option<Vec<String>>)
        ensures
            clusters is Some == self.clusters is Some,
            clusters is Some ==> views(clusters->0@) == views(self.clusters->0@),
    {
        copy_of_list(&self.clusters)
    }
}

/// The access-control list that a description tells of: the last of the
/// lists that MemoryDB names, or one of which nothing is known.
pub fn describe_acl(acls: Option<Vec<AclInfo>>) -> (acl: AclInfo)
    ensures
        acl == (match acls {
            Some(list) => if list@.len() > 0 {
                list@.last()
            } else {
                no_acl()
            },
            None => no_acl(),
        }),
{
    match acls {
        Some(list) => {
            let mut list = list;
            match list.pop() {
                Some(last) => last,
                None => AclInfo::default(),
            }
        },
        None => AclInfo::default(),
    }
}

/// What is told of an access-control list that was deleted: its name, its
/// state, its users and its clusters, as MemoryDB answers them; a list of
/// which nothing is known where it answers without one.
pub fn delete_acl(deleted: Option<AclInfo>) -> (acl: AclInfo)
    ensures
        acl == (match deleted {
            Some(d) => d,
            None => no_acl(),
        }),
{
    match deleted {
        Some(d) => AclInfo::build_aclinfo(d.acl_name, d.status, d.user_names, d.clusters),
        None => AclInfo::default(),
    }
}

/// The user that a description tells of: the first that MemoryDB names.
pub fn describe_memdb_user(users: Option<Vec<MemDBUser>>) -> (out: Vec<MemDBUser>)
    requires
        users is Some ==> users->0@.len() > 0,
    ensures
        out@ == (match users {
            Some(list) => seq![list@[0]],
            None => Seq::empty(),
        }),
{
    let mut out: Vec<MemDBUser> = Vec::new();
    match users {
        Some(list) => {
            let mut list = list;
            let first = list.swap_remove(0);
            out.push(first);
            assert(out@ =~= seq![users->0@[0]]);
        },
        None => {
            assert(out@ =~= Seq::<MemDBUser>::empty());
        },
    }
    out
}

/// The state of a cluster, of a user or of a list, where an answer holds
/// one: what is shown after a change.
pub fn status_of(answer: Option<Option<String>>) -> (status: Option<String>)
    ensures
        status == (match answer {
            Some(s) => s,
            None => None,
        }),
{
    match answer {
        Some(s) => s,
        None => None,
    }
}

/// What is said when a cluster was created.
pub fn create_memdb_cluster(cluster_name: &str) -> (said: String)
    ensures
        said@ == "The cluster with the name "@ + cluster_name@
            + " has been created, and the process of starting it is now underway"@,
{
    let mut said = String::from_str("The cluster with the name ");
    said.append(cluster_name);
    said.append(" has been created, and the process of starting it is now underway");
    said
}

/// What is said when a cluster is being deleted.
pub fn delete_memdb_cluster(cluster_name: &str) -> (said: String)
    ensures
        said@ == "The MemDB cluster named "@ + cluster_name@
            + " has initiated the cluster deletion process."@,
{
    let mut said = String::from_str("The MemDB cluster named ");
    said.append(cluster_name);
    said.append(" has initiated the cluster deletion process.");
    said
}

/// What is said of the state of a cluster after a change; nothing where the
/// state is not known.
pub fn cluster_status_said(status: &Option<String>) -> (said: Option<String>)
    ensures
        text_view(said) == (match *status {
            Some(s) => Some("The Present State of the MemDb Cluster: "@ + s@ + "\n"@),
            None => None,
        }),
{
    match status {
        Some(s) => {
            let mut said = String::from_str("The Present State of the MemDb Cluster: ");
            said.append(s.as_str());
            said.append("\n");
            Some(said)
        },
        None => None,
    }
}

/// What is said of a user that was deleted, where both its name and its
/// state are known.
pub fn delete_memdb_user(status: &Option<String>, name: &Option<String>) -> (said: Option<String>)
    ensures
        text_view(said) == (match (*status, *name) {
            (Some(s), Some(n)) => Some(
                "The Name of User: "@ + n@ + "\nThe current status: "@ + s@ + "\n"@,
            ),
            _ => None,
        }),
{
    match (status, name) {
        (Some(s), Some(n)) => {
            let mut said = String::from_str("The Name of User: ");
            said.append(n.as_str());
            said.append("\nThe current status: ");
            said.append(s.as_str());
            said.append("\n");
            Some(said)
        },
        _ => None,
    }
}

} // verus!
