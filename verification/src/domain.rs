//! The data that agents report and that object storage announces: MinIO
//! notifications and the network topology payload (hosts, containers,
//! processes, ports, routes, database schemas).

use std::collections::BTreeMap;
use vstd::prelude::*;

verus! {

/// One record of a MinIO bucket notification.
#[derive(Debug, Clone)]
pub struct MinioEventRecord {
    pub s3: MinioS3Details,
}

/// The S3 part of a notification record: which bucket, which object.
#[derive(Debug, Clone)]
pub struct MinioS3Details {
    pub bucket: MinioBucketDetails,
    pub object: MinioObjectDetails,
}

/// Bucket of a notification record.
#[derive(Debug, Clone)]
pub struct MinioBucketDetails {
    pub name: String,
}

/// Object of a notification record.
#[derive(Debug, Clone)]
pub struct MinioObjectDetails {
    pub key: String,
}

/// MinIO notification sent to the queue on upload.
#[derive(Debug, Clone)]
pub struct MinioNotification {
    pub records: Option<Vec<MinioEventRecord>>,
    pub key: Option<String>,
}

/// Topology data reported by an agent.
#[derive(Debug, Clone)]
pub struct NetworkTopologyPayload {
    pub hosts: Vec<ProtoHost>,
    pub routes: Vec<ProtoRoute>,
    pub database_schemas: Vec<DatabaseSchema>,
}

/// A database discovered on a host.
#[derive(Debug, Clone)]
pub struct DatabaseSchema {
    pub engine: String,
    pub host: Option<String>,
    pub port: Option<i32>,
    pub database_name: Option<String>,
    pub username: Option<String>,
    pub source_container_id: String,
    pub source_container_name: String,
    pub tables: Vec<DatabaseTable>,
}

/// A table of a discovered database.
#[derive(Debug, Clone)]
pub struct DatabaseTable {
    pub name: String,
    pub columns: Vec<DatabaseColumn>,
    pub indexes: Vec<DatabaseIndex>,
    pub foreign_keys: Vec<DatabaseForeignKey>,
}

/// A column of a discovered table.
#[derive(Debug, Clone)]
pub struct DatabaseColumn {
    pub name: String,
    pub data_type: String,
    pub nullable: bool,
    pub primary_key: bool,
    pub default_value: Option<String>,
}

/// An index of a discovered table.
#[derive(Debug, Clone)]
pub struct DatabaseIndex {
    pub name: String,
    pub columns: Vec<String>,
    pub unique: bool,
}

/// A foreign key of a discovered table.
#[derive(Debug, Clone)]
pub struct DatabaseForeignKey {
    pub name: String,
    pub columns: Vec<String>,
    pub referenced_table: String,
    pub referenced_columns: Vec<String>,
}

/// A host seen by an agent.
#[derive(Debug, Clone)]
pub struct ProtoHost {
    pub id: String,
    pub hostname: String,
    pub ip_addresses: Vec<String>,
    pub containers: Vec<ProtoContainer>,
    pub processes: Vec<ProtoProcess>,
}

/// A container running on a host.
#[derive(Debug, Clone)]
pub struct ProtoContainer {
    pub id: String,
    pub name: String,
    pub image: String,
    pub image_version: Option<String>,
    pub image_hash: Option<String>,
    pub image_sha256: Option<String>,
    pub image_archive_ref: Option<String>,
    pub image_archive_object: Option<String>,
    pub env: BTreeMap<String, String>,
    pub labels: BTreeMap<String, String>,
    pub networks: Vec<String>,
    pub processes: Vec<ProtoProcess>,
    pub ports: Vec<ProtoPort>,
    pub exposed_ports: Vec<ProtoPort>,
    pub privileged: Option<bool>,
    pub run_as_root: Option<bool>,
    pub sensitive_volumes: Vec<String>,
}

/// A process running on a host or in a container.
#[derive(Debug, Clone)]
pub struct ProtoProcess {
    pub pid: i32,
    pub name: String,
    pub command_line: Option<String>,
    pub user: Option<String>,
}

/// A port of a container.
#[derive(Debug, Clone)]
pub struct ProtoPort {
    pub number: i32,
    pub protocol: String,
    pub state: Option<String>,
    pub host_ip: Option<String>,
    pub host_port: Option<i32>,
    pub source: Option<String>,
}

/// A network route between two workloads.
#[derive(Debug, Clone)]
pub struct ProtoRoute {
    pub kind: String,
    pub source_kind: String,
    pub source_name: String,
    pub source_namespace: Option<String>,
    pub target_kind: String,
    pub target_name: String,
    pub target_namespace: Option<String>,
    pub host: Option<String>,
    pub path: Option<String>,
    pub path_type: Option<String>,
    pub protocol: String,
    pub source_port: Option<i32>,
    pub target_port: Option<String>,
    pub published_port: Option<i32>,
}

impl ProtoPort {
    /// A field-for-field copy of the port.
    pub fn duplicate(&self) -> (r: ProtoPort)
        ensures
            r == *self,
    {
        ProtoPort {
            number: self.number,
            protocol: self.protocol.clone(),
            state: crate::text::copy_opt_string(&self.state),
            host_ip: crate::text::copy_opt_string(&self.host_ip),
            host_port: self.host_port,
            source: crate::text::copy_opt_string(&self.source),
        }
    }
}

impl ProtoRoute {
    /// A field-for-field copy of the route.
    pub fn duplicate(&self) -> (r: ProtoRoute)
        ensures
            r == *self,
    {
        ProtoRoute {
            kind: self.kind.clone(),
            source_kind: self.source_kind.clone(),
            source_name: self.source_name.clone(),
            source_namespace: crate::text::copy_opt_string(&self.source_namespace),
            target_kind: self.target_kind.clone(),
            target_name: self.target_name.clone(),
            target_namespace: crate::text::copy_opt_string(&self.target_namespace),
            host: crate::text::copy_opt_string(&self.host),
            path: crate::text::copy_opt_string(&self.path),
            path_type: crate::text::copy_opt_string(&self.path_type),
            protocol: self.protocol.clone(),
            source_port: self.source_port,
            target_port: crate::text::copy_opt_string(&self.target_port),
            published_port: self.published_port,
        }
    }
}

/// A copy of a list of ports, in the same order.
pub fn copy_ports(ports: &Vec<ProtoPort>) -> (r: Vec<ProtoPort>)
    ensures
        r@ == ports@,
{
    let mut r: Vec<ProtoPort> = Vec::new();
    let mut i: usize = 0;
    while i < ports.len()
        invariant
            i <= ports.len(),
            r@ == ports@.take(i as int),
        decreases ports.len() - i,
    {
        r.push(ports[i].duplicate());
        assert(ports@.take(i + 1) =~= ports@.take(i as int).push(ports@[i as int]));
        i = i + 1;
    }
    assert(ports@.take(ports.len() as int) =~= ports@);
    r
}

} // verus!
