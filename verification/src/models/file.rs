//! File enums: file type and sharing level.

use vstd::prelude::*;
use vstd::string::*;
use crate::text::{lowercase, str_eq};

verus! {

/// Type of a file as the API reports it.
#[derive(Debug, Clone, Copy, PartialEq, Eq, Structural)]
pub enum FileType {
    Other,
    Document,
    Spreadsheet,
    Presentation,
    Text,
    Image,
    Folder,
}

impl FileType {
    /// The FileType that an API value denotes.
    pub open spec fn of_api(value: i32) -> Option<FileType> {
        if value == 0 {
            Some(FileType::Other)
        } else if value == 1 {
            Some(FileType::Document)
        } else if value == 2 {
            Some(FileType::Spreadsheet)
        } else if value == 3 {
            Some(FileType::Presentation)
        } else if value == 4 {
            Some(FileType::Text)
        } else if value == 5 {
            Some(FileType::Image)
        } else if value == 6 {
            Some(FileType::Folder)
        } else {
            None
        }
    }

    /// The API value of a FileType.
    pub open spec fn api_value(self) -> i32 {
        match self {
            FileType::Other => 0,
            FileType::Document => 1,
            FileType::Spreadsheet => 2,
            FileType::Presentation => 3,
            FileType::Text => 4,
            FileType::Image => 5,
            FileType::Folder => 6,
        }
    }

    /// The FileType named by an already lowercased word.
    pub open spec fn of_lowercase(s: Seq<char>) -> Option<FileType> {
        if s == "other"@ {
            Some(FileType::Other)
        } else if s == "document"@ || s == "doc"@ {
            Some(FileType::Document)
        } else if s == "spreadsheet"@ {
            Some(FileType::Spreadsheet)
        } else if s == "presentation"@ {
            Some(FileType::Presentation)
        } else if s == "text"@ {
            Some(FileType::Text)
        } else if s == "image"@ {
            Some(FileType::Image)
        } else if s == "folder"@ {
            Some(FileType::Folder)
        } else {
            None
        }
    }

    /// The label that the table output shows for a FileType.
    pub open spec fn label(self) -> Seq<char> {
        match self {
            FileType::Other => "OTHER"@,
            FileType::Document => "DOCUMENT"@,
            FileType::Spreadsheet => "SPREADSHEET"@,
            FileType::Presentation => "PRESENTATION"@,
            FileType::Text => "TEXT"@,
            FileType::Image => "IMAGE"@,
            FileType::Folder => "FOLDER"@,
        }
    }

    pub fn from_api(value: i32) -> (r: Option<Self>)
        ensures
            r == Self::of_api(value),
    {
        match value {
            0 => Some(Self::Other),
            1 => Some(Self::Document),
            2 => Some(Self::Spreadsheet),
            3 => Some(Self::Presentation),
            4 => Some(Self::Text),
            5 => Some(Self::Image),
            6 => Some(Self::Folder),
            _ => None,
        }
    }

    pub fn to_api(self) -> (r: i32)
        ensures
            r == self.api_value(),
    {
        match self {
            Self::Other => 0,
            Self::Document => 1,
            Self::Spreadsheet => 2,
            Self::Presentation => 3,
            Self::Text => 4,
            Self::Image => 5,
            Self::Folder => 6,
        }
    }

    pub fn from_str_loose(s: &str) -> (r: Option<Self>)
        ensures
            r == Self::of_lowercase(crate::text::unicode_lowercase(s@)),
            vstd::utf8::is_ascii_chars(s@) ==> r == Self::of_lowercase(
                crate::text::ascii_lowercase(s@),
            ),
    {
        let lower = lowercase(s);
        Self::from_lowercase(lower.as_str())
    }

    /// The value named by an already lowercased word.
    pub fn from_lowercase(l: &str) -> (r: Option<Self>)
        ensures
            r == Self::of_lowercase(l@),
    {
        if str_eq(l, "other") {
            Some(Self::Other)
        } else if str_eq(l, "document") || str_eq(l, "doc") {
            Some(Self::Document)
        } else if str_eq(l, "spreadsheet") {
            Some(Self::Spreadsheet)
        } else if str_eq(l, "presentation") {
            Some(Self::Presentation)
        } else if str_eq(l, "text") {
            Some(Self::Text)
        } else if str_eq(l, "image") {
            Some(Self::Image)
        } else if str_eq(l, "folder") {
            Some(Self::Folder)
        } else {
            None
        }
    }

    /// The label of the FileType, as the table output shows it.
    pub fn as_str(&self) -> (r: &'static str)
        ensures
            r@ == self.label(),
    {
        match self {
            Self::Other => "OTHER",
            Self::Document => "DOCUMENT",
            Self::Spreadsheet => "SPREADSHEET",
            Self::Presentation => "PRESENTATION",
            Self::Text => "TEXT",
            Self::Image => "IMAGE",
            Self::Folder => "FOLDER",
        }
    }
}

/// Every FileType survives the trip through its API value, and an API value
/// that denotes a FileType is that FileType's value.
pub proof fn file_type_api_roundtrip(x: FileType, v: i32)
    ensures
        FileType::of_api(x.api_value()) == Some(x),
        FileType::of_api(v) == Some(x) ==> x.api_value() == v,
        FileType::of_api(v) is None <==> !(0 <= v - 0 < 7),
{
}

/// The label of every FileType is ASCII and reads back, through `from_str_loose`,
/// as the same FileType.
#[verifier::rlimit(40)]
pub proof fn file_type_label_parses_back(x: FileType)
    ensures
        vstd::utf8::is_ascii_chars(x.label()),
        FileType::of_lowercase(crate::text::ascii_lowercase(x.label())) == Some(x),
{
    reveal_strlit("OTHER");
    reveal_strlit("DOCUMENT");
    reveal_strlit("SPREADSHEET");
    reveal_strlit("PRESENTATION");
    reveal_strlit("TEXT");
    reveal_strlit("IMAGE");
    reveal_strlit("FOLDER");
    reveal_strlit("other");
    reveal_strlit("document");
    reveal_strlit("doc");
    reveal_strlit("spreadsheet");
    reveal_strlit("presentation");
    reveal_strlit("text");
    reveal_strlit("image");
    reveal_strlit("folder");
    match x {
        FileType::Other => {
            assert(crate::text::ascii_lowercase("OTHER"@) =~= "other"@);
        },
        FileType::Document => {
            assert(crate::text::ascii_lowercase("DOCUMENT"@) =~= "document"@);
        },
        FileType::Spreadsheet => {
            assert(crate::text::ascii_lowercase("SPREADSHEET"@) =~= "spreadsheet"@);
        },
        FileType::Presentation => {
            assert(crate::text::ascii_lowercase("PRESENTATION"@) =~= "presentation"@);
        },
        FileType::Text => {
            assert(crate::text::ascii_lowercase("TEXT"@) =~= "text"@);
        },
        FileType::Image => {
            assert(crate::text::ascii_lowercase("IMAGE"@) =~= "image"@);
            assert("image"@[0] != "other"@[0]);
        },
        FileType::Folder => {
            assert(crate::text::ascii_lowercase("FOLDER"@) =~= "folder"@);
        },
    }
}

/// Sharing level of a file.
#[derive(Debug, Clone, Copy, PartialEq, Eq, Structural)]
pub enum SharingLevel {
    Private,
    Internal,
    External,
    Public,
    Internet,
}

impl SharingLevel {
    /// The SharingLevel that an API value denotes.
    pub open spec fn of_api(value: i32) -> Option<SharingLevel> {
        if value == 0 {
            Some(SharingLevel::Private)
        } else if value == 1 {
            Some(SharingLevel::Internal)
        } else if value == 2 {
            Some(SharingLevel::External)
        } else if value == 3 {
            Some(SharingLevel::Public)
        } else if value == 4 {
            Some(SharingLevel::Internet)
        } else {
            None
        }
    }

    /// The API value of a SharingLevel.
    pub open spec fn api_value(self) -> i32 {
        match self {
            SharingLevel::Private => 0,
            SharingLevel::Internal => 1,
            SharingLevel::External => 2,
            SharingLevel::Public => 3,
            SharingLevel::Internet => 4,
        }
    }

    /// The SharingLevel named by an already lowercased word.
    pub open spec fn of_lowercase(s: Seq<char>) -> Option<SharingLevel> {
        if s == "private"@ {
            Some(SharingLevel::Private)
        } else if s == "internal"@ {
            Some(SharingLevel::Internal)
        } else if s == "external"@ {
            Some(SharingLevel::External)
        } else if s == "public"@ {
            Some(SharingLevel::Public)
        } else if s == "internet"@ {
            Some(SharingLevel::Internet)
        } else {
            None
        }
    }

    /// The label that the table output shows for a SharingLevel.
    pub open spec fn label(self) -> Seq<char> {
        match self {
            SharingLevel::Private => "PRIVATE"@,
            SharingLevel::Internal => "INTERNAL"@,
            SharingLevel::External => "EXTERNAL"@,
            SharingLevel::Public => "PUBLIC"@,
            SharingLevel::Internet => "INTERNET"@,
        }
    }

    pub fn from_api(value: i32) -> (r: Option<Self>)
        ensures
            r == Self::of_api(value),
    {
        match value {
            0 => Some(Self::Private),
            1 => Some(Self::Internal),
            2 => Some(Self::External),
            3 => Some(Self::Public),
            4 => Some(Self::Internet),
            _ => None,
        }
    }

    pub fn to_api(self) -> (r: i32)
        ensures
            r == self.api_value(),
    {
        match self {
            Self::Private => 0,
            Self::Internal => 1,
            Self::External => 2,
            Self::Public => 3,
            Self::Internet => 4,
        }
    }

    pub fn from_str_loose(s: &str) -> (r: Option<Self>)
        ensures
            r == Self::of_lowercase(crate::text::unicode_lowercase(s@)),
            vstd::utf8::is_ascii_chars(s@) ==> r == Self::of_lowercase(
                crate::text::ascii_lowercase(s@),
            ),
    {
        let lower = lowercase(s);
        Self::from_lowercase(lower.as_str())
    }

    /// The value named by an already lowercased word.
    pub fn from_lowercase(l: &str) -> (r: Option<Self>)
        ensures
            r == Self::of_lowercase(l@),
    {
        if str_eq(l, "private") {
            Some(Self::Private)
        } else if str_eq(l, "internal") {
            Some(Self::Internal)
        } else if str_eq(l, "external") {
            Some(Self::External)
        } else if str_eq(l, "public") {
            Some(Self::Public)
        } else if str_eq(l, "internet") {
            Some(Self::Internet)
        } else {
            None
        }
    }

    /// The label of the SharingLevel, as the table output shows it.
    pub fn as_str(&self) -> (r: &'static str)
        ensures
            r@ == self.label(),
    {
        match self {
            Self::Private => "PRIVATE",
            Self::Internal => "INTERNAL",
            Self::External => "EXTERNAL",
            Self::Public => "PUBLIC",
            Self::Internet => "INTERNET",
        }
    }
}

/// Every SharingLevel survives the trip through its API value, and an API value
/// that denotes a SharingLevel is that SharingLevel's value.
pub proof fn sharing_level_api_roundtrip(x: SharingLevel, v: i32)
    ensures
        SharingLevel::of_api(x.api_value()) == Some(x),
        SharingLevel::of_api(v) == Some(x) ==> x.api_value() == v,
        SharingLevel::of_api(v) is None <==> !(0 <= v - 0 < 5),
{
}

/// The label of every SharingLevel is ASCII and reads back, through `from_str_loose`,
/// as the same SharingLevel.
#[verifier::rlimit(40)]
pub proof fn sharing_level_label_parses_back(x: SharingLevel)
    ensures
        vstd::utf8::is_ascii_chars(x.label()),
        SharingLevel::of_lowercase(crate::text::ascii_lowercase(x.label())) == Some(x),
{
    reveal_strlit("PRIVATE");
    reveal_strlit("INTERNAL");
    reveal_strlit("EXTERNAL");
    reveal_strlit("PUBLIC");
    reveal_strlit("INTERNET");
    reveal_strlit("private");
    reveal_strlit("internal");
    reveal_strlit("external");
    reveal_strlit("public");
    reveal_strlit("internet");
    match x {
        SharingLevel::Private => {
            assert(crate::text::ascii_lowercase("PRIVATE"@) =~= "private"@);
        },
        SharingLevel::Internal => {
            assert(crate::text::ascii_lowercase("INTERNAL"@) =~= "internal"@);
        },
        SharingLevel::External => {
            assert(crate::text::ascii_lowercase("EXTERNAL"@) =~= "external"@);
            assert("external"@[0] != "internal"@[0]);
        },
        SharingLevel::Public => {
            assert(crate::text::ascii_lowercase("PUBLIC"@) =~= "public"@);
        },
        SharingLevel::Internet => {
            assert(crate::text::ascii_lowercase("INTERNET"@) =~= "internet"@);
            assert("internet"@[6] != "internal"@[6]);
            assert("internet"@[0] != "external"@[0]);
        },
    }
}

} // verus!
