//! Alert-related enums: severity, resolution status and close type.

use vstd::prelude::*;
use vstd::string::*;
use crate::text::{lowercase, str_eq};

verus! {

/// Alert severity as the API reports it (`severityValue`).
#[derive(Debug, Clone, Copy, PartialEq, Eq, Structural)]
pub enum Severity {
    Low,
    Medium,
    High,
    Informational,
}

impl Severity {
    /// The Severity that an API value denotes.
    pub open spec fn of_api(value: i32) -> Option<Severity> {
        if value == 0 {
            Some(Severity::Low)
        } else if value == 1 {
            Some(Severity::Medium)
        } else if value == 2 {
            Some(Severity::High)
        } else if value == 3 {
            Some(Severity::Informational)
        } else {
            None
        }
    }

    /// The API value of a Severity.
    pub open spec fn api_value(self) -> i32 {
        match self {
            Severity::Low => 0,
            Severity::Medium => 1,
            Severity::High => 2,
            Severity::Informational => 3,
        }
    }

    /// The Severity named by an already lowercased word.
    pub open spec fn of_lowercase(s: Seq<char>) -> Option<Severity> {
        if s == "low"@ {
            Some(Severity::Low)
        } else if s == "medium"@ {
            Some(Severity::Medium)
        } else if s == "high"@ {
            Some(Severity::High)
        } else if s == "informational"@ {
            Some(Severity::Informational)
        } else {
            None
        }
    }

    /// The label that the table output shows for a Severity.
    pub open spec fn label(self) -> Seq<char> {
        match self {
            Severity::Low => "LOW"@,
            Severity::Medium => "MEDIUM"@,
            Severity::High => "HIGH"@,
            Severity::Informational => "INFORMATIONAL"@,
        }
    }

    pub fn from_api(value: i32) -> (r: Option<Self>)
        ensures
            r == Self::of_api(value),
    {
        match value {
            0 => Some(Self::Low),
            1 => Some(Self::Medium),
            2 => Some(Self::High),
            3 => Some(Self::Informational),
            _ => None,
        }
    }

    pub fn to_api(self) -> (r: i32)
        ensures
            r == self.api_value(),
    {
        match self {
            Self::Low => 0,
            Self::Medium => 1,
            Self::High => 2,
            Self::Informational => 3,
        }
    }

    pub fn from_str_loose(s: &str) -> (r: Option<Self>)
        ensures
            r == Self::of_lowercase(crate::text::unicode_lowercase(s@)),
            vstd::utf8::is_ascii_chars(s@) ==> r == Self::of_lowercase(
                crate::text::ascii_lowercase(s@),
            ),
    {
        let lower = lowercase(s);
        Self::from_lowercase(lower.as_str())
    }

    /// The value named by an already lowercased word.
    pub fn from_lowercase(l: &str) -> (r: Option<Self>)
        ensures
            r == Self::of_lowercase(l@),
    {
        if str_eq(l, "low") {
            Some(Self::Low)
        } else if str_eq(l, "medium") {
            Some(Self::Medium)
        } else if str_eq(l, "high") {
            Some(Self::High)
        } else if str_eq(l, "informational") {
            Some(Self::Informational)
        } else {
            None
        }
    }

    /// The label of the Severity, as the table output shows it.
    pub fn as_str(&self) -> (r: &'static str)
        ensures
            r@ == self.label(),
    {
        match self {
            Self::Low => "LOW",
            Self::Medium => "MEDIUM",
            Self::High => "HIGH",
            Self::Informational => "INFORMATIONAL",
        }
    }
}

/// Every Severity survives the trip through its API value, and an API value
/// that denotes a Severity is that Severity's value.
pub proof fn severity_api_roundtrip(x: Severity, v: i32)
    ensures
        Severity::of_api(x.api_value()) == Some(x),
        Severity::of_api(v) == Some(x) ==> x.api_value() == v,
        Severity::of_api(v) is None <==> !(0 <= v - 0 < 4),
{
}

/// The label of every Severity is ASCII and reads back, through `from_str_loose`,
/// as the same Severity.
#[verifier::rlimit(40)]
pub proof fn severity_label_parses_back(x: Severity)
    ensures
        vstd::utf8::is_ascii_chars(x.label()),
        Severity::of_lowercase(crate::text::ascii_lowercase(x.label())) == Some(x),
{
    reveal_strlit("LOW");
    reveal_strlit("MEDIUM");
    reveal_strlit("HIGH");
    reveal_strlit("INFORMATIONAL");
    reveal_strlit("low");
    reveal_strlit("medium");
    reveal_strlit("high");
    reveal_strlit("informational");
    match x {
        Severity::Low => {
            assert(crate::text::ascii_lowercase("LOW"@) =~= "low"@);
        },
        Severity::Medium => {
            assert(crate::text::ascii_lowercase("MEDIUM"@) =~= "medium"@);
        },
        Severity::High => {
            assert(crate::text::ascii_lowercase("HIGH"@) =~= "high"@);
        },
        Severity::Informational => {
            assert(crate::text::ascii_lowercase("INFORMATIONAL"@) =~= "informational"@);
        },
    }
}

/// Alert resolution status as the API reports it (`resolutionStatusValue`).
#[derive(Debug, Clone, Copy, PartialEq, Eq, Structural)]
pub enum ResolutionStatus {
    Open,
    Dismissed,
    Resolved,
    FalsePositive,
    Benign,
    TruePositive,
}

impl ResolutionStatus {
    /// The ResolutionStatus that an API value denotes.
    pub open spec fn of_api(value: i32) -> Option<ResolutionStatus> {
        if value == 0 {
            Some(ResolutionStatus::Open)
        } else if value == 1 {
            Some(ResolutionStatus::Dismissed)
        } else if value == 2 {
            Some(ResolutionStatus::Resolved)
        } else if value == 3 {
            Some(ResolutionStatus::FalsePositive)
        } else if value == 4 {
            Some(ResolutionStatus::Benign)
        } else if value == 5 {
            Some(ResolutionStatus::TruePositive)
        } else {
            None
        }
    }

    /// The API value of a ResolutionStatus.
    pub open spec fn api_value(self) -> i32 {
        match self {
            ResolutionStatus::Open => 0,
            ResolutionStatus::Dismissed => 1,
            ResolutionStatus::Resolved => 2,
            ResolutionStatus::FalsePositive => 3,
            ResolutionStatus::Benign => 4,
            ResolutionStatus::TruePositive => 5,
        }
    }

    /// The ResolutionStatus named by an already lowercased word.
    pub open spec fn of_lowercase(s: Seq<char>) -> Option<ResolutionStatus> {
        if s == "open"@ {
            Some(ResolutionStatus::Open)
        } else if s == "dismissed"@ {
            Some(ResolutionStatus::Dismissed)
        } else if s == "resolved"@ {
            Some(ResolutionStatus::Resolved)
        } else if s == "false-positive"@ || s == "false_positive"@ {
            Some(ResolutionStatus::FalsePositive)
        } else if s == "benign"@ {
            Some(ResolutionStatus::Benign)
        } else if s == "true-positive"@ || s == "true_positive"@ {
            Some(ResolutionStatus::TruePositive)
        } else {
            None
        }
    }

    /// The label that the table output shows for a ResolutionStatus.
    pub open spec fn label(self) -> Seq<char> {
        match self {
            ResolutionStatus::Open => "OPEN"@,
            ResolutionStatus::Dismissed => "DISMISSED"@,
            ResolutionStatus::Resolved => "RESOLVED"@,
            ResolutionStatus::FalsePositive => "FALSE_POSITIVE"@,
            ResolutionStatus::Benign => "BENIGN"@,
            ResolutionStatus::TruePositive => "TRUE_POSITIVE"@,
        }
    }

    pub fn from_api(value: i32) -> (r: Option<Self>)
        ensures
            r == Self::of_api(value),
    {
        match value {
            0 => Some(Self::Open),
            1 => Some(Self::Dismissed),
            2 => Some(Self::Resolved),
            3 => Some(Self::FalsePositive),
            4 => Some(Self::Benign),
            5 => Some(Self::TruePositive),
            _ => None,
        }
    }

    pub fn to_api(self) -> (r: i32)
        ensures
            r == self.api_value(),
    {
        match self {
            Self::Open => 0,
            Self::Dismissed => 1,
            Self::Resolved => 2,
            Self::FalsePositive => 3,
            Self::Benign => 4,
            Self::TruePositive => 5,
        }
    }

    pub fn from_str_loose(s: &str) -> (r: Option<Self>)
        ensures
            r == Self::of_lowercase(crate::text::unicode_lowercase(s@)),
            vstd::utf8::is_ascii_chars(s@) ==> r == Self::of_lowercase(
                crate::text::ascii_lowercase(s@),
            ),
    {
        let lower = lowercase(s);
        Self::from_lowercase(lower.as_str())
    }

    /// The value named by an already lowercased word.
    pub fn from_lowercase(l: &str) -> (r: Option<Self>)
        ensures
            r == Self::of_lowercase(l@),
    {
        if str_eq(l, "open") {
            Some(Self::Open)
        } else if str_eq(l, "dismissed") {
            Some(Self::Dismissed)
        } else if str_eq(l, "resolved") {
            Some(Self::Resolved)
        } else if str_eq(l, "false-positive") || str_eq(l, "false_positive") {
            Some(Self::FalsePositive)
        } else if str_eq(l, "benign") {
            Some(Self::Benign)
        } else if str_eq(l, "true-positive") || str_eq(l, "true_positive") {
            Some(Self::TruePositive)
        } else {
            None
        }
    }

    /// The label of the ResolutionStatus, as the table output shows it.
    pub fn as_str(&self) -> (r: &'static str)
        ensures
            r@ == self.label(),
    {
        match self {
            Self::Open => "OPEN",
            Self::Dismissed => "DISMISSED",
            Self::Resolved => "RESOLVED",
            Self::FalsePositive => "FALSE_POSITIVE",
            Self::Benign => "BENIGN",
            Self::TruePositive => "TRUE_POSITIVE",
        }
    }
}

/// Every ResolutionStatus survives the trip through its API value, and an API value
/// that denotes a ResolutionStatus is that ResolutionStatus's value.
pub proof fn resolution_status_api_roundtrip(x: ResolutionStatus, v: i32)
    ensures
        ResolutionStatus::of_api(x.api_value()) == Some(x),
        ResolutionStatus::of_api(v) == Some(x) ==> x.api_value() == v,
        ResolutionStatus::of_api(v) is None <==> !(0 <= v - 0 < 6),
{
}

/// The label of every ResolutionStatus is ASCII and reads back, through `from_str_loose`,
/// as the same ResolutionStatus.
#[verifier::rlimit(40)]
pub proof fn resolution_status_label_parses_back(x: ResolutionStatus)
    ensures
        vstd::utf8::is_ascii_chars(x.label()),
        ResolutionStatus::of_lowercase(crate::text::ascii_lowercase(x.label())) == Some(x),
{
    reveal_strlit("OPEN");
    reveal_strlit("DISMISSED");
    reveal_strlit("RESOLVED");
    reveal_strlit("FALSE_POSITIVE");
    reveal_strlit("BENIGN");
    reveal_strlit("TRUE_POSITIVE");
    reveal_strlit("open");
    reveal_strlit("dismissed");
    reveal_strlit("resolved");
    reveal_strlit("false-positive");
    reveal_strlit("false_positive");
    reveal_strlit("benign");
    reveal_strlit("true-positive");
    reveal_strlit("true_positive");
    match x {
        ResolutionStatus::Open => {
            assert(crate::text::ascii_lowercase("OPEN"@) =~= "open"@);
        },
        ResolutionStatus::Dismissed => {
            assert(crate::text::ascii_lowercase("DISMISSED"@) =~= "dismissed"@);
        },
        ResolutionStatus::Resolved => {
            assert(crate::text::ascii_lowercase("RESOLVED"@) =~= "resolved"@);
        },
        ResolutionStatus::FalsePositive => {
            assert(crate::text::ascii_lowercase("FALSE_POSITIVE"@) =~= "false_positive"@);
        },
        ResolutionStatus::Benign => {
            assert(crate::text::ascii_lowercase("BENIGN"@) =~= "benign"@);
        },
        ResolutionStatus::TruePositive => {
            assert(crate::text::ascii_lowercase("TRUE_POSITIVE"@) =~= "true_positive"@);
        },
    }
}

/// The ways an alert can be closed.
#[derive(Debug, Clone, Copy, PartialEq, Eq, Structural)]
pub enum CloseType {
    Benign,
    FalsePositive,
    TruePositive,
}

impl CloseType {
    /// The CloseType named by an already lowercased word.
    pub open spec fn of_lowercase(s: Seq<char>) -> Option<CloseType> {
        if s == "benign"@ {
            Some(CloseType::Benign)
        } else if s == "false-positive"@ || s == "false_positive"@ {
            Some(CloseType::FalsePositive)
        } else if s == "true-positive"@ || s == "true_positive"@ {
            Some(CloseType::TruePositive)
        } else {
            None
        }
    }

    pub fn from_str_loose(s: &str) -> (r: Option<Self>)
        ensures
            r == Self::of_lowercase(crate::text::unicode_lowercase(s@)),
            vstd::utf8::is_ascii_chars(s@) ==> r == Self::of_lowercase(
                crate::text::ascii_lowercase(s@),
            ),
    {
        let lower = lowercase(s);
        Self::from_lowercase(lower.as_str())
    }

    /// The value named by an already lowercased word.
    pub fn from_lowercase(l: &str) -> (r: Option<Self>)
        ensures
            r == Self::of_lowercase(l@),
    {
        if str_eq(l, "benign") {
            Some(Self::Benign)
        } else if str_eq(l, "false-positive") || str_eq(l, "false_positive") {
            Some(Self::FalsePositive)
        } else if str_eq(l, "true-positive") || str_eq(l, "true_positive") {
            Some(Self::TruePositive)
        } else {
            None
        }
    }

    /// The path segment of the close endpoint for this close type.
    pub open spec fn path_segment(self) -> Seq<char> {
        match self {
            CloseType::Benign => "close_benign"@,
            CloseType::FalsePositive => "close_false_positive"@,
            CloseType::TruePositive => "close_true_positive"@,
        }
    }

    pub fn api_path_segment(self) -> (r: &'static str)
        ensures
            r@ == self.path_segment(),
    {
        match self {
            Self::Benign => "close_benign",
            Self::FalsePositive => "close_false_positive",
            Self::TruePositive => "close_true_positive",
        }
    }
}

/// Law of `alerts close --as`: each close type is named by its documented
/// words (`benign`; `false-positive` or `false_positive`; `true-positive` or
/// `true_positive`), in any ASCII case, and by nothing else, so two close
/// types never share a word; the close request goes to that type's endpoint.
#[verifier::rlimit(40)]
pub proof fn close_type_words(w: Seq<char>)
    ensures
        CloseType::of_lowercase("benign"@) == Some(CloseType::Benign),
        CloseType::of_lowercase("false-positive"@) == Some(CloseType::FalsePositive),
        CloseType::of_lowercase("false_positive"@) == Some(CloseType::FalsePositive),
        CloseType::of_lowercase("true-positive"@) == Some(CloseType::TruePositive),
        CloseType::of_lowercase("true_positive"@) == Some(CloseType::TruePositive),
        CloseType::of_lowercase(crate::text::ascii_lowercase("TRUE-POSITIVE"@)) == Some(
            CloseType::TruePositive,
        ),
        CloseType::of_lowercase(w) == Some(CloseType::Benign) ==> w == "benign"@,
        CloseType::of_lowercase(w) == Some(CloseType::FalsePositive) ==> w == "false-positive"@
            || w == "false_positive"@,
        CloseType::of_lowercase(w) == Some(CloseType::TruePositive) ==> w == "true-positive"@
            || w == "true_positive"@,
        CloseType::TruePositive.path_segment() == "close_true_positive"@,
        CloseType::FalsePositive.path_segment() == "close_false_positive"@,
        CloseType::Benign.path_segment() == "close_benign"@,
{
    reveal_strlit("benign");
    reveal_strlit("false-positive");
    reveal_strlit("false_positive");
    reveal_strlit("true-positive");
    reveal_strlit("true_positive");
    reveal_strlit("TRUE-POSITIVE");
    assert(crate::text::ascii_lowercase("TRUE-POSITIVE"@) =~= "true-positive"@);
    assert("false-positive"@.len() != "benign"@.len());
    assert("false_positive"@.len() != "benign"@.len());
    assert("true-positive"@.len() != "benign"@.len());
    assert("true_positive"@.len() != "benign"@.len());
    assert("true-positive"@[0] != "false-positive"@[0]);
    assert("true-positive"@[0] != "false_positive"@[0]);
    assert("true_positive"@[0] != "false-positive"@[0]);
    assert("true_positive"@[0] != "false_positive"@[0]);
}

} // verus!
