//! The records of the Clinic diagnosis service: how to reach it, and the
//! clusters it reports.
use vstd::prelude::*;

use std::collections::HashMap;

verus! {

/// How to reach the Clinic service: its address and the credentials it
/// accepts.
#[derive(Debug, Clone)]
pub struct ClinicClientConfig {
    pub base_url: String,
    pub apikey: Option<String>,
    pub cookie: Option<String>,
    pub csrf_token: Option<String>,
}

/// A cluster as Clinic lists it.
#[derive(Debug, Clone)]
pub struct Cluster {
    pub cluster_id: String,
    pub cluster_name: String,
    pub cluster_provider_name: String,
    pub cluster_region_name: String,
    pub cluster_deploy_type: String,
    pub org_id: String,
    pub tenant_id: String,
    pub project_id: String,
    pub created_at: i64,
    pub deleted_at: Option<i64>,
    pub status: String,
}

/// A cluster with its components by name.
#[derive(Debug, Clone)]
pub struct ClusterDetail {
    pub id: String,
    pub name: String,
    pub components: HashMap<String, ClusterComponent>,
}

/// A component of a cluster: how many replicas, and on what.
#[derive(Debug, Clone)]
pub struct ClusterComponent {
    pub replicas: i32,
    pub tier_name: String,
    pub storage_instance_type: String,
}

} // verus!
