//! Entity enums.

use vstd::prelude::*;
use vstd::string::*;
use crate::text::{lowercase, str_eq};

verus! {

/// Status of an entity (user or account).
#[derive(Debug, Clone, Copy, PartialEq, Eq, Structural)]
pub enum EntityStatus {
    Na,
    Staged,
    Active,
    Suspended,
    Deleted,
}

impl EntityStatus {
    /// The EntityStatus that an API value denotes.
    pub open spec fn of_api(value: i32) -> Option<EntityStatus> {
        if value == 0 {
            Some(EntityStatus::Na)
        } else if value == 1 {
            Some(EntityStatus::Staged)
        } else if value == 2 {
            Some(EntityStatus::Active)
        } else if value == 3 {
            Some(EntityStatus::Suspended)
        } else if value == 4 {
            Some(EntityStatus::Deleted)
        } else {
            None
        }
    }

    /// The API value of a EntityStatus.
    pub open spec fn api_value(self) -> i32 {
        match self {
            EntityStatus::Na => 0,
            EntityStatus::Staged => 1,
            EntityStatus::Active => 2,
            EntityStatus::Suspended => 3,
            EntityStatus::Deleted => 4,
        }
    }

    /// The EntityStatus named by an already lowercased word.
    pub open spec fn of_lowercase(s: Seq<char>) -> Option<EntityStatus> {
        if s == "na"@ || s == "n/a"@ {
            Some(EntityStatus::Na)
        } else if s == "staged"@ {
            Some(EntityStatus::Staged)
        } else if s == "active"@ {
            Some(EntityStatus::Active)
        } else if s == "suspended"@ {
            Some(EntityStatus::Suspended)
        } else if s == "deleted"@ {
            Some(EntityStatus::Deleted)
        } else {
            None
        }
    }

    /// The label that the table output shows for a EntityStatus.
    pub open spec fn label(self) -> Seq<char> {
        match self {
            EntityStatus::Na => "N/A"@,
            EntityStatus::Staged => "STAGED"@,
            EntityStatus::Active => "ACTIVE"@,
            EntityStatus::Suspended => "SUSPENDED"@,
            EntityStatus::Deleted => "DELETED"@,
        }
    }

    pub fn from_api(value: i32) -> (r: Option<Self>)
        ensures
            r == Self::of_api(value),
    {
        match value {
            0 => Some(Self::Na),
            1 => Some(Self::Staged),
            2 => Some(Self::Active),
            3 => Some(Self::Suspended),
            4 => Some(Self::Deleted),
            _ => None,
        }
    }

    pub fn to_api(self) -> (r: i32)
        ensures
            r == self.api_value(),
    {
        match self {
            Self::Na => 0,
            Self::Staged => 1,
            Self::Active => 2,
            Self::Suspended => 3,
            Self::Deleted => 4,
        }
    }

    pub fn from_str_loose(s: &str) -> (r: Option<Self>)
        ensures
            r == Self::of_lowercase(crate::text::unicode_lowercase(s@)),
            vstd::utf8::is_ascii_chars(s@) ==> r == Self::of_lowercase(
                crate::text::ascii_lowercase(s@),
            ),
    {
        let lower = lowercase(s);
        Self::from_lowercase(lower.as_str())
    }

    /// The value named by an already lowercased word.
    pub fn from_lowercase(l: &str) -> (r: Option<Self>)
        ensures
            r == Self::of_lowercase(l@),
    {
        if str_eq(l, "na") || str_eq(l, "n/a") {
            Some(Self::Na)
        } else if str_eq(l, "staged") {
            Some(Self::Staged)
        } else if str_eq(l, "active") {
            Some(Self::Active)
        } else if str_eq(l, "suspended") {
            Some(Self::Suspended)
        } else if str_eq(l, "deleted") {
            Some(Self::Deleted)
        } else {
            None
        }
    }

    /// The label of the EntityStatus, as the table output shows it.
    pub fn as_str(&self) -> (r: &'static str)
        ensures
            r@ == self.label(),
    {
        match self {
            Self::Na => "N/A",
            Self::Staged => "STAGED",
            Self::Active => "ACTIVE",
            Self::Suspended => "SUSPENDED",
            Self::Deleted => "DELETED",
        }
    }
}

/// Every EntityStatus survives the trip through its API value, and an API value
/// that denotes a EntityStatus is that EntityStatus's value.
pub proof fn entity_status_api_roundtrip(x: EntityStatus, v: i32)
    ensures
        EntityStatus::of_api(x.api_value()) == Some(x),
        EntityStatus::of_api(v) == Some(x) ==> x.api_value() == v,
        EntityStatus::of_api(v) is None <==> !(0 <= v - 0 < 5),
{
}

/// The label of every EntityStatus is ASCII and reads back, through `from_str_loose`,
/// as the same EntityStatus.
#[verifier::rlimit(40)]
pub proof fn entity_status_label_parses_back(x: EntityStatus)
    ensures
        vstd::utf8::is_ascii_chars(x.label()),
        EntityStatus::of_lowercase(crate::text::ascii_lowercase(x.label())) == Some(x),
{
    reveal_strlit("N/A");
    reveal_strlit("STAGED");
    reveal_strlit("ACTIVE");
    reveal_strlit("SUSPENDED");
    reveal_strlit("DELETED");
    reveal_strlit("na");
    reveal_strlit("n/a");
    reveal_strlit("staged");
    reveal_strlit("active");
    reveal_strlit("suspended");
    reveal_strlit("deleted");
    match x {
        EntityStatus::Na => {
            assert(crate::text::ascii_lowercase("N/A"@) =~= "n/a"@);
        },
        EntityStatus::Staged => {
            assert(crate::text::ascii_lowercase("STAGED"@) =~= "staged"@);
        },
        EntityStatus::Active => {
            assert(crate::text::ascii_lowercase("ACTIVE"@) =~= "active"@);
            assert("active"@[0] != "staged"@[0]);
        },
        EntityStatus::Suspended => {
            assert(crate::text::ascii_lowercase("SUSPENDED"@) =~= "suspended"@);
        },
        EntityStatus::Deleted => {
            assert(crate::text::ascii_lowercase("DELETED"@) =~= "deleted"@);
        },
    }
}

} // verus!
