//! `files`: the list filter, the table and the paths.

use vstd::prelude::*;
use vstd::string::*;
use crate::cli::files::ListArgs;
use crate::commands::listing::{
    apply_raw_filter, cells6, eq_int, eq_str, join_path, member_i32_of, paging_filter,
    str_cell_of, unknown_value,
};
use crate::error::AppError;
use crate::json::{JsonValue, JsonView};
use crate::models::file::{FileType, SharingLevel};
use crate::models::filter::FilterRequest;
use crate::output::table::{format_timestamp, table_row, try_truncate};

verus! {

/// The API path that lists files.
pub fn list_path() -> (r: &'static str)
    ensures
        r@ == "/api/v1/files/"@,
{
    "/api/v1/files/"
}

/// The field conditions of `files list`, or the message of the invalid-input
/// error. The file type is checked before the sharing level, both before the
/// raw filter.
pub open spec fn list_conditions(args: ListArgs, raw: Option<Result<JsonValue, String>>) -> Result<
    Map<Seq<char>, Seq<(Seq<char>, JsonView)>>,
    Seq<char>,
> {
    let ft = match args.filetype {
        Some(s) => FileType::of_lowercase(crate::text::unicode_lowercase(s@)),
        None => None,
    };
    let sl = match args.sharing {
        Some(s) => SharingLevel::of_lowercase(crate::text::unicode_lowercase(s@)),
        None => None,
    };
    if args.filetype is Some && ft is None {
        Err(crate::commands::listing::unknown_text("file type"@, args.filetype->Some_0@))
    } else if args.sharing is Some && sl is None {
        Err(crate::commands::listing::unknown_text("sharing level"@, args.sharing->Some_0@))
    } else if raw is Some && raw->Some_0 is Err {
        Err(raw->Some_0->Err_0@)
    } else {
        let c1 = match args.service {
            Some(s) => Map::empty().insert("service"@, crate::commands::listing::eq_int_view(s)),
            None => Map::empty(),
        };
        let c2 = match ft {
            Some(x) => c1.insert(
                "fileType"@,
                crate::commands::listing::eq_int_view(x.api_value() as i64),
            ),
            None => c1,
        };
        let c3 = match args.filename {
            Some(n) => c2.insert("filename"@, crate::commands::listing::eq_str_view(n@)),
            None => c2,
        };
        let c4 = match args.extension {
            Some(e) => c3.insert("extension"@, crate::commands::listing::eq_str_view(e@)),
            None => c3,
        };
        let c5 = match sl {
            Some(x) => c4.insert(
                "sharing"@,
                crate::commands::listing::eq_int_view(x.api_value() as i64),
            ),
            None => c4,
        };
        Ok(
            match raw {
                Some(Ok(v)) => crate::commands::listing::raw_filter_conditions(
                    c5,
                    crate::json::json_view(v),
                ),
                _ => c5,
            },
        )
    }
}

/// The request filter of `files list`. `raw` is what parsing `--filter` gave.
pub fn list_filter(args: &ListArgs, raw: Option<Result<JsonValue, String>>) -> (r: Result<
    FilterRequest,
    AppError,
>)
    ensures
        match list_conditions(*args, raw) {
            Ok(c) => r matches Ok(f) && f.conditions() == c && f.skip == args.skip && f.limit
                == args.limit,
            Err(m) => r matches Err(e) && e is InvalidInput && e->InvalidInput_0@ == m,
        },
        r matches Ok(f) ==> crate::models::filter::unique_keys(f.filters@),
{
    let mut filter = paging_filter(args.limit, args.skip);
    if let Some(s) = args.service {
        filter.add_filter("service", eq_int(s));
    }
    if let Some(s) = &args.filetype {
        match FileType::from_str_loose(s.as_str()) {
            Some(x) => {
                filter.add_filter("fileType", eq_int(x.to_api() as i64));
            },
            None => {
                return Err(unknown_value("file type", s.as_str()));
            },
        }
    }
    if let Some(n) = &args.filename {
        filter.add_filter("filename", eq_str(n.as_str()));
    }
    if let Some(e) = &args.extension {
        filter.add_filter("extension", eq_str(e.as_str()));
    }
    if let Some(s) = &args.sharing {
        match SharingLevel::from_str_loose(s.as_str()) {
            Some(x) => {
                filter.add_filter("sharing", eq_int(x.to_api() as i64));
            },
            None => {
                return Err(unknown_value("sharing level", s.as_str()));
            },
        }
    }
    match apply_raw_filter(&mut filter, raw) {
        Ok(()) => Ok(filter),
        Err(e) => Err(e),
    }
}

/// The TYPE cell: the label of `fileType`, or `-`.
pub open spec fn type_cell(item: JsonView) -> Seq<char> {
    match crate::commands::listing::member_i32(item, "fileType"@) {
        Some(v) => match FileType::of_api(v) {
            Some(s) => s.label(),
            None => "-"@,
        },
        None => "-"@,
    }
}

/// The SHARING cell: the label of `sharing`, or `-`.
pub open spec fn sharing_cell(item: JsonView) -> Seq<char> {
    match crate::commands::listing::member_i32(item, "sharing"@) {
        Some(v) => match SharingLevel::of_api(v) {
            Some(s) => s.label(),
            None => "-"@,
        },
        None => "-"@,
    }
}

/// The column widths of the files table.
pub open spec fn widths() -> Seq<nat> {
    seq![20nat, 30nat, 14nat, 10nat, 20nat, 24nat]
}

/// The header of the files table.
pub open spec fn header_text() -> Seq<char> {
    crate::output::table::row_text(
        seq!["ID"@, "FILENAME"@, "TYPE"@, "SHARING"@, "OWNER"@, "MODIFIED"@],
        widths(),
    )
}

/// The row of one file; `None` where a truncated cell would be cut inside a
/// character.
pub open spec fn row_text(item: JsonView) -> Option<Seq<char>> {
    let id = crate::commands::listing::str_cell(item, "_id"@);
    let name = crate::commands::listing::str_cell(item, "fileName"@);
    let owner = crate::commands::listing::str_cell(item, "ownerName"@);
    if crate::output::table::truncatable(id, 18) && crate::output::table::truncatable(name, 28)
        && crate::output::table::truncatable(owner, 18) {
        Some(
            crate::output::table::row_text(
                seq![
                    crate::output::table::truncate_spec(id, 18),
                    crate::output::table::truncate_spec(name, 28),
                    type_cell(item),
                    sharing_cell(item),
                    crate::output::table::truncate_spec(owner, 18),
                    crate::output::table::timestamp_text(
                        crate::json::member_i64(item, "modifiedDate"@),
                    ),
                ],
                widths(),
            ),
        )
    } else {
        None
    }
}

fn width_vec() -> (r: Vec<usize>)
    ensures
        r@.map_values(|w: usize| w as nat) == widths(),
{
    let r = vec![20usize, 30, 14, 10, 20, 24];
    assert(r@.map_values(|w: usize| w as nat) =~= widths());
    r
}

/// The header line of the files table.
pub fn header() -> (r: String)
    ensures
        r@ == header_text(),
{
    let cells = cells6(
        String::from_str("ID"),
        String::from_str("FILENAME"),
        String::from_str("TYPE"),
        String::from_str("SHARING"),
        String::from_str("OWNER"),
        String::from_str("MODIFIED"),
    );
    table_row(&cells, &width_vec())
}

/// The row of one file of a list response.
pub fn row(item: &JsonValue) -> (r: Option<String>)
    ensures
        crate::commands::listing::opt_text(r) == row_text(crate::json::json_view(*item)),
{
    let id = match try_truncate(str_cell_of(item, "_id"), 18) {
        Some(t) => t,
        None => {
            return None;
        },
    };
    let name = match try_truncate(str_cell_of(item, "fileName"), 28) {
        Some(t) => t,
        None => {
            return None;
        },
    };
    let ftype = match member_i32_of(item, "fileType") {
        Some(v) => match FileType::from_api(v) {
            Some(s) => s.as_str(),
            None => "-",
        },
        None => "-",
    };
    let sharing = match member_i32_of(item, "sharing") {
        Some(v) => match SharingLevel::from_api(v) {
            Some(s) => s.as_str(),
            None => "-",
        },
        None => "-",
    };
    let owner = match try_truncate(str_cell_of(item, "ownerName"), 18) {
        Some(t) => t,
        None => {
            return None;
        },
    };
    let modified = format_timestamp(item.member_i64("modifiedDate"));
    let cells = cells6(
        id,
        name,
        String::from_str(ftype),
        String::from_str(sharing),
        owner,
        modified,
    );
    Some(table_row(&cells, &width_vec()))
}

/// The lines of the files table of a list response.
pub fn table(value: &JsonValue) -> (r: Vec<Option<String>>)
    ensures
        r@.map_values(|l: Option<String>| crate::commands::listing::opt_text(l))
            == crate::commands::listing::table_lines(
            header_text(),
            crate::commands::listing::data_items(crate::json::json_view(*value)),
            |i: JsonView| row_text(i),
        ),
{
    crate::commands::listing::table_of(
        header(),
        crate::commands::listing::data_array(value),
        row,
        Ghost(|i: JsonView| row_text(i)),
    )
}

/// The path of one file.
pub fn fetch_path(id: &str) -> (r: String)
    ensures
        r@ == "/api/v1/files/"@ + id@ + "/"@,
{
    join_path("/api/v1/files/", id, "/")
}

} // verus!
