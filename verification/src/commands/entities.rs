//! `entities`: the list filter, the table and the paths.

use vstd::prelude::*;
use vstd::string::*;
use crate::cli::entities::ListArgs;
use crate::commands::listing::{
    apply_raw_filter, cells5, eq_int, eq_str, join_path, member_i32_of, paging_filter,
    str_cell_of, unknown_value,
};
use crate::error::AppError;
use crate::json::{JsonValue, JsonView};
use crate::models::entity::EntityStatus;
use crate::models::filter::{FilterCondition, FilterRequest};
use crate::output::table::{table_row, try_truncate};

verus! {

/// The API path that lists entities.
pub fn list_path() -> (r: &'static str)
    ensures
        r@ == "/api/v1/entities/"@,
{
    "/api/v1/entities/"
}

/// The field conditions of `entities list`, or the message of the
/// invalid-input error. `--admin` filters on the string `"true"`.
pub open spec fn list_conditions(args: ListArgs, raw: Option<Result<JsonValue, String>>) -> Result<
    Map<Seq<char>, Seq<(Seq<char>, JsonView)>>,
    Seq<char>,
> {
    let st = match args.status {
        Some(s) => EntityStatus::of_lowercase(crate::text::unicode_lowercase(s@)),
        None => None,
    };
    if args.status is Some && st is None {
        Err(crate::commands::listing::unknown_text("status"@, args.status->Some_0@))
    } else if raw is Some && raw->Some_0 is Err {
        Err(raw->Some_0->Err_0@)
    } else {
        let c1 = match args.entity_type {
            Some(t) => Map::empty().insert("type"@, crate::commands::listing::eq_str_view(t@)),
            None => Map::empty(),
        };
        let c2 = if args.is_admin {
            c1.insert("isAdmin"@, crate::commands::listing::eq_str_view("true"@))
        } else {
            c1
        };
        let c3 = if args.is_external {
            c2.insert("isExternal"@, crate::commands::listing::eq_bool_view(true))
        } else {
            c2
        };
        let c4 = match args.domain {
            Some(d) => c3.insert("domain"@, crate::commands::listing::eq_str_view(d@)),
            None => c3,
        };
        let c5 = match st {
            Some(x) => c4.insert(
                "status"@,
                crate::commands::listing::eq_int_view(x.api_value() as i64),
            ),
            None => c4,
        };
        Ok(
            match raw {
                Some(Ok(v)) => crate::commands::listing::raw_filter_conditions(
                    c5,
                    crate::json::json_view(v),
                ),
                _ => c5,
            },
        )
    }
}

/// The request filter of `entities list`. `raw` is what parsing `--filter` gave.
pub fn list_filter(args: &ListArgs, raw: Option<Result<JsonValue, String>>) -> (r: Result<
    FilterRequest,
    AppError,
>)
    ensures
        match list_conditions(*args, raw) {
            Ok(c) => r matches Ok(f) && f.conditions() == c && f.skip == args.skip && f.limit
                == args.limit,
            Err(m) => r matches Err(e) && e is InvalidInput && e->InvalidInput_0@ == m,
        },
        r matches Ok(f) ==> crate::models::filter::unique_keys(f.filters@),
{
    let mut filter = paging_filter(args.limit, args.skip);
    if let Some(t) = &args.entity_type {
        filter.add_filter("type", eq_str(t.as_str()));
    }
    if args.is_admin {
        filter.add_filter("isAdmin", eq_str("true"));
    }
    if args.is_external {
        filter.add_filter("isExternal", FilterCondition::eq_bool(true));
    }
    if let Some(d) = &args.domain {
        filter.add_filter("domain", eq_str(d.as_str()));
    }
    if let Some(s) = &args.status {
        match EntityStatus::from_str_loose(s.as_str()) {
            Some(x) => {
                filter.add_filter("status", eq_int(x.to_api() as i64));
            },
            None => {
                return Err(unknown_value("status", s.as_str()));
            },
        }
    }
    match apply_raw_filter(&mut filter, raw) {
        Ok(()) => Ok(filter),
        Err(e) => Err(e),
    }
}

/// The STATUS cell: the label of `status`, or `-`.
pub open spec fn status_cell(item: JsonView) -> Seq<char> {
    match crate::commands::listing::member_i32(item, "status"@) {
        Some(v) => match EntityStatus::of_api(v) {
            Some(s) => s.label(),
            None => "-"@,
        },
        None => "-"@,
    }
}

/// The column widths of the entities table.
pub open spec fn widths() -> Seq<nat> {
    seq![20nat, 12nat, 30nat, 20nat, 10nat]
}

/// The header of the entities table.
pub open spec fn header_text() -> Seq<char> {
    crate::output::table::row_text(seq!["ID"@, "TYPE"@, "NAME"@, "DOMAIN"@, "STATUS"@], widths())
}

/// The row of one entity; `None` where a truncated cell would be cut inside
/// a character.
pub open spec fn row_text(item: JsonView) -> Option<Seq<char>> {
    let id = crate::commands::listing::str_cell(item, "_id"@);
    let etype = crate::commands::listing::str_cell(item, "entityType"@);
    let name = crate::commands::listing::str_cell(item, "displayName"@);
    let domain = crate::commands::listing::str_cell(item, "domain"@);
    if crate::output::table::truncatable(id, 18) && crate::output::table::truncatable(etype, 10)
        && crate::output::table::truncatable(name, 28) && crate::output::table::truncatable(
        domain,
        18,
    ) {
        Some(
            crate::output::table::row_text(
                seq![
                    crate::output::table::truncate_spec(id, 18),
                    crate::output::table::truncate_spec(etype, 10),
                    crate::output::table::truncate_spec(name, 28),
                    crate::output::table::truncate_spec(domain, 18),
                    status_cell(item),
                ],
                widths(),
            ),
        )
    } else {
        None
    }
}

fn width_vec() -> (r: Vec<usize>)
    ensures
        r@.map_values(|w: usize| w as nat) == widths(),
{
    let r = vec![20usize, 12, 30, 20, 10];
    assert(r@.map_values(|w: usize| w as nat) =~= widths());
    r
}

/// The header line of the entities table.
pub fn header() -> (r: String)
    ensures
        r@ == header_text(),
{
    let cells = cells5(
        String::from_str("ID"),
        String::from_str("TYPE"),
        String::from_str("NAME"),
        String::from_str("DOMAIN"),
        String::from_str("STATUS"),
    );
    table_row(&cells, &width_vec())
}

/// The row of one entity of a list response.
pub fn row(item: &JsonValue) -> (r: Option<String>)
    ensures
        crate::commands::listing::opt_text(r) == row_text(crate::json::json_view(*item)),
{
    let id = match try_truncate(str_cell_of(item, "_id"), 18) {
        Some(t) => t,
        None => {
            return None;
        },
    };
    let etype = match try_truncate(str_cell_of(item, "entityType"), 10) {
        Some(t) => t,
        None => {
            return None;
        },
    };
    let name = match try_truncate(str_cell_of(item, "displayName"), 28) {
        Some(t) => t,
        None => {
            return None;
        },
    };
    let domain = match try_truncate(str_cell_of(item, "domain"), 18) {
        Some(t) => t,
        None => {
            return None;
        },
    };
    let status = match member_i32_of(item, "status") {
        Some(v) => match EntityStatus::from_api(v) {
            Some(s) => s.as_str(),
            None => "-",
        },
        None => "-",
    };
    let cells = cells5(id, etype, name, domain, String::from_str(status));
    Some(table_row(&cells, &width_vec()))
}

/// The lines of the entities table of a list response.
pub fn table(value: &JsonValue) -> (r: Vec<Option<String>>)
    ensures
        r@.map_values(|l: Option<String>| crate::commands::listing::opt_text(l))
            == crate::commands::listing::table_lines(
            header_text(),
            crate::commands::listing::data_items(crate::json::json_view(*value)),
            |i: JsonView| row_text(i),
        ),
{
    crate::commands::listing::table_of(
        header(),
        crate::commands::listing::data_array(value),
        row,
        Ghost(|i: JsonView| row_text(i)),
    )
}

/// The path of one entity.
pub fn fetch_path(id: &str) -> (r: String)
    ensures
        r@ == "/api/v1/entities/"@ + id@ + "/"@,
{
    join_path("/api/v1/entities/", id, "/")
}

/// The path of an entity's tree.
pub fn fetch_tree_path(id: &str) -> (r: String)
    ensures
        r@ == "/api/v1/entities/"@ + id@ + "/tree/"@,
{
    join_path("/api/v1/entities/", id, "/tree/")
}

} // verus!
