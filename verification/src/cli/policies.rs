//! Arguments of `policies`.

use vstd::prelude::*;

verus! {

pub enum PoliciesCommand {
    /// List all policies.
    List(ListArgs),
    /// Fetch a single policy by type and ID.
    Fetch(FetchArgs),
}

pub struct ListArgs {
    /// Output format filter (not sent to the API).
    pub filter: Option<String>,
}

pub struct FetchArgs {
    /// Policy type.
    pub policy_type: PolicyType,
    /// Policy ID.
    pub id: String,
}

#[derive(Debug, Clone, Copy, PartialEq, Eq, Structural)]
pub enum PolicyType {
    Activity,
    Anomaly,
    Discovery,
    DiscoveryAnomaly,
    File,
    AppPermissions,
    Session,
}

impl PolicyType {
    /// The path segment of the policy endpoint for a type; also its display text.
    pub open spec fn segment(self) -> Seq<char> {
        match self {
            PolicyType::Activity => "activity"@,
            PolicyType::Anomaly => "anomaly"@,
            PolicyType::Discovery => "discovery"@,
            PolicyType::DiscoveryAnomaly => "discovery_anomaly"@,
            PolicyType::File => "file"@,
            PolicyType::AppPermissions => "app_permissions"@,
            PolicyType::Session => "session"@,
        }
    }

    pub fn api_path_segment(&self) -> (r: &'static str)
        ensures
            r@ == self.segment(),
    {
        match self {
            PolicyType::Activity => "activity",
            PolicyType::Anomaly => "anomaly",
            PolicyType::Discovery => "discovery",
            PolicyType::DiscoveryAnomaly => "discovery_anomaly",
            PolicyType::File => "file",
            PolicyType::AppPermissions => "app_permissions",
            PolicyType::Session => "session",
        }
    }

    /// The display text of a policy type: its path segment.
    pub fn as_str(&self) -> (r: &'static str)
        ensures
            r@ == self.segment(),
    {
        self.api_path_segment()
    }
}

} // verus!
