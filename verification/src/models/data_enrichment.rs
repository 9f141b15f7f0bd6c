//! Data enrichment (IP range) enums.

use vstd::prelude::*;
use vstd::string::*;
use crate::text::{lowercase, str_eq};

verus! {

/// Category of an IP address range.
#[derive(Debug, Clone, Copy, PartialEq, Eq, Structural)]
pub enum SubnetCategory {
    Corporate,
    Administrative,
    Risky,
    Vpn,
    CloudProvider,
    Other,
}

impl SubnetCategory {
    /// The SubnetCategory that an API value denotes.
    pub open spec fn of_api(value: i32) -> Option<SubnetCategory> {
        if value == 1 {
            Some(SubnetCategory::Corporate)
        } else if value == 2 {
            Some(SubnetCategory::Administrative)
        } else if value == 3 {
            Some(SubnetCategory::Risky)
        } else if value == 4 {
            Some(SubnetCategory::Vpn)
        } else if value == 5 {
            Some(SubnetCategory::CloudProvider)
        } else if value == 6 {
            Some(SubnetCategory::Other)
        } else {
            None
        }
    }

    /// The API value of a SubnetCategory.
    pub open spec fn api_value(self) -> i32 {
        match self {
            SubnetCategory::Corporate => 1,
            SubnetCategory::Administrative => 2,
            SubnetCategory::Risky => 3,
            SubnetCategory::Vpn => 4,
            SubnetCategory::CloudProvider => 5,
            SubnetCategory::Other => 6,
        }
    }

    /// The SubnetCategory named by an already lowercased word.
    pub open spec fn of_lowercase(s: Seq<char>) -> Option<SubnetCategory> {
        if s == "corporate"@ {
            Some(SubnetCategory::Corporate)
        } else if s == "administrative"@ || s == "admin"@ {
            Some(SubnetCategory::Administrative)
        } else if s == "risky"@ {
            Some(SubnetCategory::Risky)
        } else if s == "vpn"@ {
            Some(SubnetCategory::Vpn)
        } else if s == "cloud-provider"@ || s == "cloud_provider"@ {
            Some(SubnetCategory::CloudProvider)
        } else if s == "other"@ {
            Some(SubnetCategory::Other)
        } else {
            None
        }
    }

    /// The label that the table output shows for a SubnetCategory.
    pub open spec fn label(self) -> Seq<char> {
        match self {
            SubnetCategory::Corporate => "CORPORATE"@,
            SubnetCategory::Administrative => "ADMINISTRATIVE"@,
            SubnetCategory::Risky => "RISKY"@,
            SubnetCategory::Vpn => "VPN"@,
            SubnetCategory::CloudProvider => "CLOUD_PROVIDER"@,
            SubnetCategory::Other => "OTHER"@,
        }
    }

    pub fn from_api(value: i32) -> (r: Option<Self>)
        ensures
            r == Self::of_api(value),
    {
        match value {
            1 => Some(Self::Corporate),
            2 => Some(Self::Administrative),
            3 => Some(Self::Risky),
            4 => Some(Self::Vpn),
            5 => Some(Self::CloudProvider),
            6 => Some(Self::Other),
            _ => None,
        }
    }

    pub fn to_api(self) -> (r: i32)
        ensures
            r == self.api_value(),
    {
        match self {
            Self::Corporate => 1,
            Self::Administrative => 2,
            Self::Risky => 3,
            Self::Vpn => 4,
            Self::CloudProvider => 5,
            Self::Other => 6,
        }
    }

    pub fn from_str_loose(s: &str) -> (r: Option<Self>)
        ensures
            r == Self::of_lowercase(crate::text::unicode_lowercase(s@)),
            vstd::utf8::is_ascii_chars(s@) ==> r == Self::of_lowercase(
                crate::text::ascii_lowercase(s@),
            ),
    {
        let lower = lowercase(s);
        Self::from_lowercase(lower.as_str())
    }

    /// The value named by an already lowercased word.
    pub fn from_lowercase(l: &str) -> (r: Option<Self>)
        ensures
            r == Self::of_lowercase(l@),
    {
        if str_eq(l, "corporate") {
            Some(Self::Corporate)
        } else if str_eq(l, "administrative") || str_eq(l, "admin") {
            Some(Self::Administrative)
        } else if str_eq(l, "risky") {
            Some(Self::Risky)
        } else if str_eq(l, "vpn") {
            Some(Self::Vpn)
        } else if str_eq(l, "cloud-provider") || str_eq(l, "cloud_provider") {
            Some(Self::CloudProvider)
        } else if str_eq(l, "other") {
            Some(Self::Other)
        } else {
            None
        }
    }

    /// The label of the SubnetCategory, as the table output shows it.
    pub fn as_str(&self) -> (r: &'static str)
        ensures
            r@ == self.label(),
    {
        match self {
            Self::Corporate => "CORPORATE",
            Self::Administrative => "ADMINISTRATIVE",
            Self::Risky => "RISKY",
            Self::Vpn => "VPN",
            Self::CloudProvider => "CLOUD_PROVIDER",
            Self::Other => "OTHER",
        }
    }
}

/// Every SubnetCategory survives the trip through its API value, and an API value
/// that denotes a SubnetCategory is that SubnetCategory's value.
pub proof fn subnet_category_api_roundtrip(x: SubnetCategory, v: i32)
    ensures
        SubnetCategory::of_api(x.api_value()) == Some(x),
        SubnetCategory::of_api(v) == Some(x) ==> x.api_value() == v,
        SubnetCategory::of_api(v) is None <==> !(0 <= v - 1 < 6),
{
}

/// The label of every SubnetCategory is ASCII and reads back, through `from_str_loose`,
/// as the same SubnetCategory.
#[verifier::rlimit(40)]
pub proof fn subnet_category_label_parses_back(x: SubnetCategory)
    ensures
        vstd::utf8::is_ascii_chars(x.label()),
        SubnetCategory::of_lowercase(crate::text::ascii_lowercase(x.label())) == Some(x),
{
    reveal_strlit("CORPORATE");
    reveal_strlit("ADMINISTRATIVE");
    reveal_strlit("RISKY");
    reveal_strlit("VPN");
    reveal_strlit("CLOUD_PROVIDER");
    reveal_strlit("OTHER");
    reveal_strlit("corporate");
    reveal_strlit("administrative");
    reveal_strlit("admin");
    reveal_strlit("risky");
    reveal_strlit("vpn");
    reveal_strlit("cloud-provider");
    reveal_strlit("cloud_provider");
    reveal_strlit("other");
    match x {
        SubnetCategory::Corporate => {
            assert(crate::text::ascii_lowercase("CORPORATE"@) =~= "corporate"@);
        },
        SubnetCategory::Administrative => {
            assert(crate::text::ascii_lowercase("ADMINISTRATIVE"@) =~= "administrative"@);
        },
        SubnetCategory::Risky => {
            assert(crate::text::ascii_lowercase("RISKY"@) =~= "risky"@);
            assert("risky"@[0] != "admin"@[0]);
        },
        SubnetCategory::Vpn => {
            assert(crate::text::ascii_lowercase("VPN"@) =~= "vpn"@);
        },
        SubnetCategory::CloudProvider => {
            assert(crate::text::ascii_lowercase("CLOUD_PROVIDER"@) =~= "cloud_provider"@);
            assert("cloud_provider"@[0] != "administrative"@[0]);
        },
        SubnetCategory::Other => {
            assert(crate::text::ascii_lowercase("OTHER"@) =~= "other"@);
            assert("other"@[0] != "admin"@[0]);
            assert("other"@[0] != "risky"@[0]);
        },
    }
}

} // verus!
