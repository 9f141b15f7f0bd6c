//! `activities`: the list filter, the table and the paths.

use vstd::prelude::*;
use vstd::string::*;
use crate::cli::activities::ListArgs;
use crate::commands::listing::{
    apply_raw_filter, cells5, eq_str, join_path, nested_str_cell_of, paging_filter, str_cell_of,
};
use crate::error::AppError;
use crate::json::{JsonValue, JsonView};
use crate::models::filter::{FilterCondition, FilterRequest};
use crate::output::table::{format_timestamp, table_row, try_truncate};

verus! {

/// The API path that lists activities.
pub fn list_path() -> (r: &'static str)
    ensures
        r@ == "/api/v1/activities/"@,
{
    "/api/v1/activities/"
}

/// The field conditions of `activities list`, or the message of the
/// invalid-input error. Here the raw filter comes first, and the named
/// options override what it set.
pub open spec fn list_conditions(args: ListArgs, raw: Option<Result<JsonValue, String>>) -> Result<
    Map<Seq<char>, Seq<(Seq<char>, JsonView)>>,
    Seq<char>,
> {
    if raw is Some && raw->Some_0 is Err {
        Err(raw->Some_0->Err_0@)
    } else {
        let c0 = match raw {
            Some(Ok(v)) => crate::commands::listing::raw_filter_conditions(
                Map::empty(),
                crate::json::json_view(v),
            ),
            _ => Map::empty(),
        };
        let c1 = match args.user {
            Some(u) => c0.insert("user.username"@, crate::commands::listing::eq_str_view(u@)),
            None => c0,
        };
        let c2 = match args.ip {
            Some(x) => c1.insert("ip.address"@, crate::commands::listing::eq_str_view(x@)),
            None => c1,
        };
        let c3 = match args.country {
            Some(x) => c2.insert("location.country"@, crate::commands::listing::eq_str_view(x@)),
            None => c2,
        };
        Ok(
            match args.query {
                Some(q) => c3.insert("text"@, crate::commands::listing::text_view(q@)),
                None => c3,
            },
        )
    }
}

/// The request filter of `activities list`. `raw` is what parsing `--filter` gave.
pub fn list_filter(args: &ListArgs, raw: Option<Result<JsonValue, String>>) -> (r: Result<
    FilterRequest,
    AppError,
>)
    ensures
        match list_conditions(*args, raw) {
            Ok(c) => r matches Ok(f) && f.conditions() == c && f.skip == args.skip && f.limit
                == args.limit,
            Err(m) => r matches Err(e) && e is InvalidInput && e->InvalidInput_0@ == m,
        },
        r matches Ok(f) ==> crate::models::filter::unique_keys(f.filters@),
{
    let mut filter = paging_filter(args.limit, args.skip);
    match apply_raw_filter(&mut filter, raw) {
        Ok(()) => {},
        Err(e) => {
            return Err(e);
        },
    }
    if let Some(u) = &args.user {
        filter.add_filter("user.username", eq_str(u.as_str()));
    }
    if let Some(x) = &args.ip {
        filter.add_filter("ip.address", eq_str(x.as_str()));
    }
    if let Some(x) = &args.country {
        filter.add_filter("location.country", eq_str(x.as_str()));
    }
    if let Some(q) = &args.query {
        filter.add_filter("text", FilterCondition::text(q.as_str()));
    }
    Ok(filter)
}

/// The column widths of the activities table.
pub open spec fn widths() -> Seq<nat> {
    seq![24nat, 30nat, 20nat, 16nat, 6nat]
}

/// The header of the activities table.
pub open spec fn header_text() -> Seq<char> {
    crate::output::table::row_text(
        seq!["TIMESTAMP"@, "USER"@, "ACTION"@, "IP"@, "COUNTRY"@],
        widths(),
    )
}

/// The row of one activity; `None` where the user or the action would be cut
/// inside a character.
pub open spec fn row_text(item: JsonView) -> Option<Seq<char>> {
    let user = crate::commands::listing::nested_str_cell(item, "user"@, "userName"@);
    let action = crate::commands::listing::str_cell(item, "actionType"@);
    if crate::output::table::truncatable(user, 28) && crate::output::table::truncatable(
        action,
        18,
    ) {
        Some(
            crate::output::table::row_text(
                seq![
                    crate::output::table::timestamp_text(
                        crate::json::member_i64(item, "timestamp"@),
                    ),
                    crate::output::table::truncate_spec(user, 28),
                    crate::output::table::truncate_spec(action, 18),
                    crate::commands::listing::str_cell(item, "ipAddress"@),
                    crate::commands::listing::nested_str_cell(item, "location"@, "country"@),
                ],
                widths(),
            ),
        )
    } else {
        None
    }
}

fn width_vec() -> (r: Vec<usize>)
    ensures
        r@.map_values(|w: usize| w as nat) == widths(),
{
    let r = vec![24usize, 30, 20, 16, 6];
    assert(r@.map_values(|w: usize| w as nat) =~= widths());
    r
}

/// The header line of the activities table.
pub fn header() -> (r: String)
    ensures
        r@ == header_text(),
{
    let cells = cells5(
        String::from_str("TIMESTAMP"),
        String::from_str("USER"),
        String::from_str("ACTION"),
        String::from_str("IP"),
        String::from_str("COUNTRY"),
    );
    table_row(&cells, &width_vec())
}

/// The row of one activity of a list response.
pub fn row(item: &JsonValue) -> (r: Option<String>)
    ensures
        crate::commands::listing::opt_text(r) == row_text(crate::json::json_view(*item)),
{
    let ts = format_timestamp(item.member_i64("timestamp"));
    let user = match try_truncate(nested_str_cell_of(item, "user", "userName"), 28) {
        Some(t) => t,
        None => {
            return None;
        },
    };
    let action = match try_truncate(str_cell_of(item, "actionType"), 18) {
        Some(t) => t,
        None => {
            return None;
        },
    };
    let ip = String::from_str(str_cell_of(item, "ipAddress"));
    let country = String::from_str(nested_str_cell_of(item, "location", "country"));
    let cells = cells5(ts, user, action, ip, country);
    Some(table_row(&cells, &width_vec()))
}

/// The lines of the activities table of a list response.
pub fn table(value: &JsonValue) -> (r: Vec<Option<String>>)
    ensures
        r@.map_values(|l: Option<String>| crate::commands::listing::opt_text(l))
            == crate::commands::listing::table_lines(
            header_text(),
            crate::commands::listing::data_items(crate::json::json_view(*value)),
            |i: JsonView| row_text(i),
        ),
{
    crate::commands::listing::table_of(
        header(),
        crate::commands::listing::data_array(value),
        row,
        Ghost(|i: JsonView| row_text(i)),
    )
}

/// The path of one activity.
pub fn fetch_path(id: &str) -> (r: String)
    ensures
        r@ == "/api/v1/activities/"@ + id@ + "/"@,
{
    join_path("/api/v1/activities/", id, "/")
}

} // verus!
