//! What RDS tells of database instances and clusters.
use crate::text::{as_text, copy_of, decimal, decimal_i64, str_view, text_view, views};
use vstd::prelude::*;
use vstd::string::*;

verus! {

/// What stands for the identifier of a database instance where the
/// environment names none.
pub open spec fn instance_id_note() -> Seq<char> {
    "It appears that you haven't set the 'DB_INSTANCE_ID' environment variable.\nYou can only skip this input if you have configured the variable\n"@
}

/// What stands for the identifier of a database cluster where the
/// environment names none.
pub open spec fn cluster_id_note() -> Seq<char> {
    "It appears that you haven't set the 'DB_CLUSTER_ID' environment variable.\nYou can only skip this input if you have configured the variable.\n"@
}

/// The identifier of the environment, or else `note`.
pub open spec fn id_or(from_env: Option<&str>, note: Seq<char>) -> Seq<char> {
    match from_env {
        Some(id) => id@,
        None => note,
    }
}

/// The identifier of the database instance that the environment names, or
/// the note that it names none.
pub fn get_db_instance_id(from_env: Option<&str>) -> (id: String)
    ensures
        id@ == id_or(from_env, instance_id_note()),
{
    match from_env {
        Some(id) => String::from_str(id),
        None => String::from_str(
            "It appears that you haven't set the 'DB_INSTANCE_ID' environment variable.\nYou can only skip this input if you have configured the variable\n",
        ),
    }
}

/// The identifier of the database cluster that the environment names, or
/// the note that it names none.
pub fn get_db_cluster_id(from_env: Option<&str>) -> (id: String)
    ensures
        id@ == id_or(from_env, cluster_id_note()),
{
    match from_env {
        Some(id) => String::from_str(id),
        None => String::from_str(
            "It appears that you haven't set the 'DB_CLUSTER_ID' environment variable.\nYou can only skip this input if you have configured the variable.\n",
        ),
    }
}

/// The identifier that an operation works on: the given one, or else the
/// one of the database instance that the environment names. Operations on
/// clusters fall back on the instance's identifier too.
pub fn default_db_instance_id(given: Option<&str>, from_env: Option<&str>) -> (id: String)
    ensures
        id@ == (match given {
            Some(id) => id@,
            None => id_or(from_env, instance_id_note()),
        }),
{
    match given {
        Some(id) => String::from_str(id),
        None => get_db_instance_id(from_env),
    }
}

/// Where a database instance is reached.
#[derive(Clone, Debug)]
pub struct Endpoint {
    pub address: Option<String>,
    pub port: i32,
}

/// The secret that holds the master user's password.
#[derive(Clone, Debug)]
pub struct MasterUserSecret {
    pub secret_arn: Option<String>,
    pub secret_status: Option<String>,
    pub kms_key_id: Option<String>,
}

/// A database instance.
#[derive(Debug)]
pub struct DbInstanceInfo {
    pub end_point: Option<Endpoint>,
    pub allocated_storage: i32,
    pub db_instance_identifier: Option<String>,
    pub db_instance_class: Option<String>,
    pub db_instance_status: Option<String>,
    pub db_name: Option<String>,
    pub availability_zones: Option<String>,
    pub master_secret: Option<MasterUserSecret>,
    pub master_username: Option<String>,
    pub publicly_accessible: bool,
    pub db_instance_port: i32,
}

/// Where a database instance is reached: its address and port, where the
/// address is known.
pub open spec fn endpoint_text(e: Option<Endpoint>) -> Option<Seq<char>> {
    match e {
        Some(Endpoint { address: Some(a), port }) => Some(a@ + ":"@ + decimal(port as int)),
        _ => None,
    }
}

impl DbInstanceInfo {
    pub fn build_instance(
        end_point: Option<Endpoint>,
        allocated_storage: i32,
        db_instance_identifier: Option<String>,
        db_instance_class: Option<String>,
        db_instance_status: Option<String>,
        db_name: Option<String>,
        availability_zones: Option<String>,
        master_secret: Option<MasterUserSecret>,
        master_username: Option<String>,
        publicly_accessible: bool,
        db_instance_port: i32,
    ) -> (out: Self)
        ensures
            out == (DbInstanceInfo {
                end_point,
                allocated_storage,
                db_instance_identifier,
                db_instance_class,
                db_instance_status,
                db_name,
                availability_zones,
                master_secret,
                master_username,
                publicly_accessible,
                db_instance_port,
            }),
    {
        Self {
            end_point,
            allocated_storage,
            db_instance_identifier,
            db_instance_status,
            db_name,
            availability_zones,
            db_instance_class,
            master_secret,
            master_username,
            publicly_accessible,
            db_instance_port,
        }
    }

    pub fn get_instance_status(&self) -> (status: Option<&str>)
        ensures
            str_view(status) == text_view(self.db_instance_status),
    {
        as_text(&self.db_instance_status)
    }

    pub fn get_port(&self) -> (port: Option<i32>)
        ensures
            port == (match self.end_point {
                Some(e) => Some(e.port),
                None => None,
            }),
    {
        match &self.end_point {
            Some(endpoint) => Some(endpoint.port),
            None => None,
        }
    }

    pub fn get_allocated_storage(&self) -> (size: i32)
        ensures
            size == self.allocated_storage,
    {
        self.allocated_storage
    }

    /// The address and the port that the instance is reached with.
    pub fn get_endpoint_with_port(&self) -> (url: Option<String>)
        ensures
            text_view(url) == endpoint_text(self.end_point),
    {
        match &self.end_point {
            Some(endpoint) => match &endpoint.address {
                Some(address) => {
                    let mut url = address.clone();
                    url.append(":");
                    url.append(decimal_i64(endpoint.port as i64).as_str());
                    Some(url)
                },
                None => None,
            },
            None => None,
        }
    }

    pub fn get_username(&self) -> (name: Option<String>)
        ensures
            name == self.master_username,
    {
        copy_of(&self.master_username)
    }

    pub fn is_publicly_accessible(&self) -> (public: bool)
        ensures
            public == self.publicly_accessible,
    {
        self.publicly_accessible
    }

    /// The identifier of the instance, which has to be known.
    pub fn get_db_instance_identifier(&self) -> (id: String)
        requires
            self.db_instance_identifier is Some,
        ensures
            Some(id) == self.db_instance_identifier,
    {
        match &self.db_instance_identifier {
            Some(id) => id.clone(),
            None => String::new(),
        }
    }

    pub fn get_availability_zone(&self) -> (zone: Option<&str>)
        ensures
            str_view(zone) == text_view(self.availability_zones),
    {
        as_text(&self.availability_zones)
    }

    pub fn get_instance_class(&self) -> (class: Option<String>)
        ensures
            class == self.db_instance_class,
    {
        copy_of(&self.db_instance_class)
    }

    pub fn get_db_name(&self) -> (name: Option<String>)
        ensures
            name == self.db_name,
    {
        copy_of(&self.db_name)
    }
}

/// A database instance that belongs to a cluster.
#[derive(Clone, Debug)]
pub struct DbClusterMember {
    pub db_instance_identifier: Option<String>,
}

/// A database cluster.
#[derive(Debug)]
pub struct DbClusterInfo {
    pub availability_zones: Option<Vec<String>>,
    pub cluster_members: Option<Vec<DbClusterMember>>,
    pub cluster_status: Option<String>,
    pub database_name: Option<String>,
    pub cluster_endpoint: Option<String>,
    pub master_username: Option<String>,
    pub port: Option<i32>,
}

/// One line for each member whose identifier is known.
pub open spec fn member_lines(members: Seq<DbClusterMember>) -> Seq<Seq<char>>
    decreases members.len(),
{
    if members.len() == 0 {
        Seq::empty()
    } else {
        match members.last().db_instance_identifier {
            Some(id) => member_lines(members.drop_last()).push(
                "Db instance identifier: "@ + id@ + "\n"@,
            ),
            None => member_lines(members.drop_last()),
        }
    }
}

/// The label `Zone Region: ` before each zone.
pub open spec fn zone_pairs(zones: Seq<Seq<char>>) -> Seq<Seq<char>>
    decreases zones.len(),
{
    if zones.len() == 0 {
        Seq::empty()
    } else {
        zone_pairs(zones.drop_last()).push("Zone Region: "@).push(zones.last())
    }
}

/// The items of a list that may be missing.
pub open spec fn members_of(list: Option<Vec<DbClusterMember>>) -> Seq<DbClusterMember> {
    match list {
        Some(v) => v@,
        None => Seq::empty(),
    }
}

/// The texts of a list that may be missing.
pub open spec fn zones_of(list: Option<Vec<String>>) -> Seq<Seq<char>> {
    match list {
        Some(v) => views(v@),
        None => Seq::empty(),
    }
}

impl DbClusterInfo {
    pub fn build_cluster_info(
        cluster_status: Option<String>,
        cluster_members: Option<Vec<DbClusterMember>>,
        availability_zones: Option<Vec<String>>,
        database_name: Option<String>,
        cluster_endpoint: Option<String>,
        master_username: Option<String>,
        port: Option<i32>,
    ) -> (out: Self)
        ensures
            out == (DbClusterInfo {
                availability_zones,
                cluster_members,
                cluster_status,
                database_name,
                cluster_endpoint,
                master_username,
                port,
            }),
    {
        Self {
            availability_zones,
            cluster_members,
            cluster_status,
            database_name,
            cluster_endpoint,
            master_username,
            port,
        }
    }

    pub fn get_status(&self) -> (status: Option<String>)
        ensures
            status == self.cluster_status,
    {
        copy_of(&self.cluster_status)
    }

    /// One line for each member of the cluster whose identifier is known.
    pub fn get_db_members(&self) -> (lines: Vec<String>)
        ensures
            views(lines@) == member_lines(members_of(self.cluster_members)),
    {
        let mut lines: Vec<String> = Vec::new();
        assert(views(lines@) =~= Seq::<Seq<char>>::empty());
        match &self.cluster_members {
            Some(members) => {
                let mut i: usize = 0;
                assert(members@.take(0) =~= Seq::<DbClusterMember>::empty());
                while i < members.len()
                    invariant
                        i <= members.len(),
                        views(lines@) == member_lines(members@.take(i as int)),
                    decreases members.len() - i,
                {
                    assert(members@.take(i + 1).drop_last() =~= members@.take(i as int));
                    match &members[i].db_instance_identifier {
                        Some(id) => {
                            crate::text::say(
                                &mut lines,
                                "Db instance identifier: ",
                                id.as_str(),
                                "\n",
                            );
                        },
                        None => {},
                    }
                    i = i + 1;
                }
                assert(members@.take(i as int) =~= members@);
            },
            None => {},
        }
        lines
    }

    /// The zones of the cluster, each behind the label `Zone Region: `.
    pub fn get_availability_zones(&self) -> (out: Vec<String>)
        ensures
            views(out@) == zone_pairs(zones_of(self.availability_zones)),
    {
        let mut out: Vec<String> = Vec::new();
        assert(views(out@) =~= Seq::<Seq<char>>::empty());
        match &self.availability_zones {
            Some(zones) => {
                let mut i: usize = 0;
                assert(zones@.take(0) =~= Seq::<String>::empty());
                while i < zones.len()
                    invariant
                        i <= zones.len(),
                        views(out@) == zone_pairs(views(zones@.take(i as int))),
                    decreases zones.len() - i,
                {
                    let ghost before = views(zones@.take(i as int));
                    let ghost after = views(zones@.take(i + 1));
                    assert(after.drop_last() =~= before);
                    assert(after.last() == zones@[i as int]@);
                    crate::text::say_plain(&mut out, "Zone Region: ");
                    crate::text::say_plain(&mut out, zones[i].as_str());
                    i = i + 1;
                }
                assert(zones@.take(i as int) =~= zones@);
            },
            None => {},
        }
        out
    }

    /// The address and the port that the cluster is reached with, where both
    /// are known.
    pub fn get_cluster_endpoint_with_port(&self) -> (url: Option<String>)
        ensures
            text_view(url) == (match (self.cluster_endpoint, self.port) {
                (Some(e), Some(p)) => Some(e@ + ":"@ + decimal(p as int)),
                _ => None,
            }),
    {
        match (&self.cluster_endpoint, self.port) {
            (Some(endpoint), Some(port)) => {
                let mut url = endpoint.clone();
                url.append(":");
                url.append(decimal_i64(port as i64).as_str());
                Some(url)
            },
            _ => None,
        }
    }

    pub fn get_db_name(&self) -> (name: Option<&str>)
        ensures
            str_view(name) == text_view(self.database_name),
    {
        as_text(&self.database_name)
    }

    pub fn get_master_username(&self) -> (name: Option<&str>)
        ensures
            str_view(name) == text_view(self.master_username),
    {
        as_text(&self.master_username)
    }
}

/// The state of the first database instance that RDS names; none where it
/// names no list.
pub fn status_of_db_instance(instances: Option<Vec<DbInstanceInfo>>) -> (status: Option<String>)
    requires
        instances is Some ==> instances->0@.len() > 0,
    ensures
        status == (match instances {
            Some(list) => list@[0].db_instance_status,
            None => None,
        }),
{
    match instances {
        Some(list) => {
            let mut list = list;
            let first = list.swap_remove(0);
            first.db_instance_status
        },
        None => None,
    }
}

/// The first database instance that RDS names.
pub fn describe_db_instance(instances: Option<Vec<DbInstanceInfo>>) -> (first: DbInstanceInfo)
    requires
        instances is Some,
        instances->0@.len() > 0,
    ensures
        first == instances->0@[0],
{
    match instances {
        Some(list) => {
            let mut list = list;
            list.swap_remove(0)
        },
        None => DbInstanceInfo::build_instance(
            None,
            0,
            None,
            None,
            None,
            None,
            None,
            None,
            None,
            false,
            0,
        ),
    }
}

/// What is said when a database instance was created.
pub fn create_db_instance(db_instance_identifier: &str) -> (said: String)
    ensures
        said@ == "DbInstance with the identifier: "@ + db_instance_identifier@
            + " has been created successfully.\nIt will take some time to set up and become fully operational.\nYou can check the status of the database instance by using the 'Status Of Db Instance' option\n"@,
{
    let mut said = String::from_str("DbInstance with the identifier: ");
    said.append(db_instance_identifier);
    said.append(
        " has been created successfully.\nIt will take some time to set up and become fully operational.\nYou can check the status of the database instance by using the 'Status Of Db Instance' option\n",
    );
    said
}

/// What is said when a database instance is being started.
pub fn start_db_instance(db_instance_identifier: &str) -> (said: String)
    ensures
        said@ == "An instance with the ID of "@ + db_instance_identifier@
            + " initiates the process of starting the database instance if it was stopped before\n"@,
{
    let mut said = String::from_str("An instance with the ID of ");
    said.append(db_instance_identifier);
    said.append(
        " initiates the process of starting the database instance if it was stopped before\n",
    );
    said
}

/// What is said when a database instance is being stopped.
pub fn stop_db_instance(db_instance_identifier: &str) -> (said: String)
    ensures
        said@ == "The db_instance with the db_instance_id: "@ + db_instance_identifier@
            + " is initiating the process of stopping\n"@,
{
    let mut said = String::from_str("The db_instance with the db_instance_id: ");
    said.append(db_instance_identifier);
    said.append(" is initiating the process of stopping\n");
    said
}

/// What is said when a database instance is being deleted.
pub fn delete_db_instance(db_instance_identifier: &str) -> (said: String)
    ensures
        said@ == "The database instance with the ID "@ + db_instance_identifier@
            + " has initiated the deletion process."@,
{
    let mut said = String::from_str("The database instance with the ID ");
    said.append(db_instance_identifier);
    said.append(" has initiated the deletion process.");
    said
}

/// What is said when a database cluster is being deleted.
pub fn delete_db_cluster(db_cluster_identifier: &str) -> (said: String)
    ensures
        said@ == "The db_cluster identified by ID "@ + db_cluster_identifier@
            + " is initiating the deletion process for both the clusters and the associated DB instances\n"@,
{
    let mut said = String::from_str("The db_cluster identified by ID ");
    said.append(db_cluster_identifier);
    said.append(
        " is initiating the deletion process for both the clusters and the associated DB instances\n",
    );
    said
}

/// What is said of the state of a database instance or cluster after a
/// change; nothing where the state is not known.
pub fn status_said(cluster: bool, status: &Option<String>) -> (said: Option<String>)
    ensures
        text_view(said) == (match *status {
            Some(s) => Some(
                (if cluster {
                    "The current status of the Database Cluster: "@
                } else {
                    "The current status of the Database Instance: "@
                }) + s@ + "\n"@,
            ),
            None => None,
        }),
{
    match status {
        Some(s) => {
            let mut said = String::from_str(
                if cluster {
                    "The current status of the Database Cluster: "
                } else {
                    "The current status of the Database Instance: "
                },
            );
            said.append(s.as_str());
            said.append("\n");
            Some(said)
        },
        None => None,
    }
}

} // verus!
