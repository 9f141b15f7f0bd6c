//! `policies`: the table and the paths.

use vstd::prelude::*;
use vstd::string::*;
use crate::cli::policies::FetchArgs;
use crate::commands::listing::{cells4, str_cell_of};
use crate::json::{JsonValue, JsonView};
use crate::output::table::{table_row, try_truncate};

verus! {

/// The API path that lists policies.
pub fn list_path() -> (r: &'static str)
    ensures
        r@ == "/api/v1/policies/"@,
{
    "/api/v1/policies/"
}

/// The ENABLED cell: `true`, `false`, or `-` when `enabled` is not a boolean.
pub open spec fn enabled_cell(item: JsonView) -> Seq<char> {
    match crate::json::view_member(item, "enabled"@) {
        Some(v) => match crate::json::view_bool(v) {
            Some(b) => if b {
                "true"@
            } else {
                "false"@
            },
            None => "-"@,
        },
        None => "-"@,
    }
}

/// The column widths of the policies table.
pub open spec fn widths() -> Seq<nat> {
    seq![26nat, 12nat, 10nat, 50nat]
}

/// The header of the policies table.
pub open spec fn header_text() -> Seq<char> {
    crate::output::table::row_text(seq!["ID"@, "TYPE"@, "ENABLED"@, "NAME"@], widths())
}

/// The row of one policy; `None` where a truncated cell would be cut inside a
/// character.
pub open spec fn row_text(item: JsonView) -> Option<Seq<char>> {
    let id = crate::commands::listing::str_cell(item, "_id"@);
    let ptype = crate::commands::listing::str_cell(item, "policyType"@);
    let name = crate::commands::listing::str_cell(item, "name"@);
    if crate::output::table::truncatable(id, 24) && crate::output::table::truncatable(ptype, 10)
        && crate::output::table::truncatable(name, 48) {
        Some(
            crate::output::table::row_text(
                seq![
                    crate::output::table::truncate_spec(id, 24),
                    crate::output::table::truncate_spec(ptype, 10),
                    enabled_cell(item),
                    crate::output::table::truncate_spec(name, 48),
                ],
                widths(),
            ),
        )
    } else {
        None
    }
}

/// The items that the table lists: the response itself when it is an array,
/// else its `data` array.
pub open spec fn table_items(value: JsonView) -> Option<Seq<JsonView>> {
    match value {
        JsonView::Array(items) => Some(items),
        _ => crate::commands::listing::data_items(value),
    }
}

fn width_vec() -> (r: Vec<usize>)
    ensures
        r@.map_values(|w: usize| w as nat) == widths(),
{
    let r = vec![26usize, 12, 10, 50];
    assert(r@.map_values(|w: usize| w as nat) =~= widths());
    r
}

/// The header line of the policies table.
pub fn header() -> (r: String)
    ensures
        r@ == header_text(),
{
    let cells = cells4(
        String::from_str("ID"),
        String::from_str("TYPE"),
        String::from_str("ENABLED"),
        String::from_str("NAME"),
    );
    table_row(&cells, &width_vec())
}

/// The row of one policy.
pub fn row(item: &JsonValue) -> (r: Option<String>)
    ensures
        crate::commands::listing::opt_text(r) == row_text(crate::json::json_view(*item)),
{
    let id = match try_truncate(str_cell_of(item, "_id"), 24) {
        Some(t) => t,
        None => {
            return None;
        },
    };
    let ptype = match try_truncate(str_cell_of(item, "policyType"), 10) {
        Some(t) => t,
        None => {
            return None;
        },
    };
    let enabled = match item.get("enabled") {
        Some(v) => match v.as_bool() {
            Some(b) => if b {
                "true"
            } else {
                "false"
            },
            None => "-",
        },
        None => "-",
    };
    let name = match try_truncate(str_cell_of(item, "name"), 48) {
        Some(t) => t,
        None => {
            return None;
        },
    };
    let cells = cells4(id, ptype, String::from_str(enabled), name);
    Some(table_row(&cells, &width_vec()))
}

/// The lines of the policies table of a response.
pub fn table(value: &JsonValue) -> (r: Vec<Option<String>>)
    ensures
        r@.map_values(|l: Option<String>| crate::commands::listing::opt_text(l))
            == crate::commands::listing::table_lines(
            header_text(),
            table_items(crate::json::json_view(*value)),
            |i: JsonView| row_text(i),
        ),
{
    let items = match value.as_array() {
        Some(a) => Some(a),
        None => crate::commands::listing::data_array(value),
    };
    crate::commands::listing::table_of(header(), items, row, Ghost(|i: JsonView| row_text(i)))
}

/// The path of one policy: `/api/v1/policy/<type>/<id>/`.
pub fn fetch_path(args: &FetchArgs) -> (r: String)
    ensures
        r@ == "/api/v1/policy/"@ + args.policy_type.segment() + "/"@ + args.id@ + "/"@,
{
    let mut p = String::from_str("/api/v1/policy/");
    p.append(args.policy_type.api_path_segment());
    p.append("/");
    p.append(args.id.as_str());
    p.append("/");
    p
}

} // verus!
