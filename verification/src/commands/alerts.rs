//! `alerts`: the list filter, the table, the close request and the paths.

use vstd::prelude::*;
use vstd::string::*;
use crate::cli::alerts::{CloseArgs, ListArgs};
use crate::commands::listing::{
    apply_raw_filter, eq_int, member_i32_of, paging_filter, str_cell_of, unknown_value,
};
use crate::error::AppError;
use crate::json::{JsonValue, JsonView};
use crate::models::alert::{CloseType, ResolutionStatus, Severity};
use crate::models::filter::{FilterCondition, FilterRequest};
use crate::output::table::{format_timestamp, table_row, try_truncate};

verus! {

/// The API path that lists alerts.
pub fn list_path() -> (r: &'static str)
    ensures
        r@ == "/api/v1/alerts/"@,
{
    "/api/v1/alerts/"
}

/// The field conditions of `alerts list`, or the message of the invalid-input
/// error it stops with. Severity is checked before resolution, both before
/// the raw filter; `--closed` wins over `--open`; the raw filter is merged last.
pub open spec fn list_conditions(args: ListArgs, raw: Option<Result<JsonValue, String>>) -> Result<
    Map<Seq<char>, Seq<(Seq<char>, JsonView)>>,
    Seq<char>,
> {
    let sev = match args.severity {
        Some(s) => Severity::of_lowercase(crate::text::unicode_lowercase(s@)),
        None => None,
    };
    let res = match args.resolution {
        Some(s) => ResolutionStatus::of_lowercase(crate::text::unicode_lowercase(s@)),
        None => None,
    };
    if args.severity is Some && sev is None {
        Err(crate::commands::listing::unknown_text("severity"@, args.severity->Some_0@))
    } else if args.resolution is Some && res is None {
        Err(crate::commands::listing::unknown_text("resolution status"@, args.resolution->Some_0@))
    } else if raw is Some && raw->Some_0 is Err {
        Err(raw->Some_0->Err_0@)
    } else {
        let c1 = match sev {
            Some(x) => Map::empty().insert(
                "severity"@,
                crate::commands::listing::eq_int_view(x.api_value() as i64),
            ),
            None => Map::empty(),
        };
        let c2 = match res {
            Some(x) => c1.insert(
                "resolutionStatus"@,
                crate::commands::listing::eq_int_view(x.api_value() as i64),
            ),
            None => c1,
        };
        let c3 = if args.open {
            c2.insert("alertOpen"@, crate::commands::listing::eq_bool_view(true))
        } else {
            c2
        };
        let c4 = if args.closed {
            c3.insert("alertOpen"@, crate::commands::listing::eq_bool_view(false))
        } else {
            c3
        };
        let c5 = match args.query {
            Some(q) => c4.insert("text"@, crate::commands::listing::text_view(q@)),
            None => c4,
        };
        Ok(
            match raw {
                Some(Ok(v)) => crate::commands::listing::raw_filter_conditions(
                    c5,
                    crate::json::json_view(v),
                ),
                _ => c5,
            },
        )
    }
}

/// The request filter of `alerts list`. `raw` is what parsing `--filter` gave.
pub fn list_filter(args: &ListArgs, raw: Option<Result<JsonValue, String>>) -> (r: Result<
    FilterRequest,
    AppError,
>)
    ensures
        match list_conditions(*args, raw) {
            Ok(c) => r matches Ok(f) && f.conditions() == c && f.skip == args.skip && f.limit
                == args.limit,
            Err(m) => r matches Err(e) && e is InvalidInput && e->InvalidInput_0@ == m,
        },
        r matches Ok(f) ==> crate::models::filter::unique_keys(f.filters@),
{
    let mut filter = paging_filter(args.limit, args.skip);
    let mut sev: Option<Severity> = None;
    if let Some(s) = &args.severity {
        match Severity::from_str_loose(s.as_str()) {
            Some(x) => {
                sev = Some(x);
            },
            None => {
                return Err(unknown_value("severity", s.as_str()));
            },
        }
    }
    let mut res: Option<ResolutionStatus> = None;
    if let Some(s) = &args.resolution {
        match ResolutionStatus::from_str_loose(s.as_str()) {
            Some(x) => {
                res = Some(x);
            },
            None => {
                return Err(unknown_value("resolution status", s.as_str()));
            },
        }
    }
    if let Some(x) = sev {
        filter.add_filter("severity", eq_int(x.to_api() as i64));
    }
    if let Some(x) = res {
        filter.add_filter("resolutionStatus", eq_int(x.to_api() as i64));
    }
    if args.open {
        filter.add_filter("alertOpen", FilterCondition::eq_bool(true));
    }
    if args.closed {
        filter.add_filter("alertOpen", FilterCondition::eq_bool(false));
    }
    if let Some(q) = &args.query {
        filter.add_filter("text", FilterCondition::text(q.as_str()));
    }
    match apply_raw_filter(&mut filter, raw) {
        Ok(()) => Ok(filter),
        Err(e) => Err(e),
    }
}

/// The SEVERITY cell: the label of `severityValue`, or `-`.
pub open spec fn severity_cell(item: JsonView) -> Seq<char> {
    match crate::commands::listing::member_i32(item, "severityValue"@) {
        Some(v) => match Severity::of_api(v) {
            Some(s) => s.label(),
            None => "-"@,
        },
        None => "-"@,
    }
}

/// The RESOLUTION cell: the label of `resolutionStatusValue`, or `-`.
pub open spec fn resolution_cell(item: JsonView) -> Seq<char> {
    match crate::commands::listing::member_i32(item, "resolutionStatusValue"@) {
        Some(v) => match ResolutionStatus::of_api(v) {
            Some(s) => s.label(),
            None => "-"@,
        },
        None => "-"@,
    }
}

/// The column widths of the alerts table.
pub open spec fn widths() -> Seq<nat> {
    seq![14nat, 40nat, 15nat, 16nat, 24nat]
}

/// The header of the alerts table.
pub open spec fn header_text() -> Seq<char> {
    crate::output::table::row_text(
        seq!["ID"@, "TITLE"@, "SEVERITY"@, "RESOLUTION"@, "TIMESTAMP"@],
        widths(),
    )
}

/// The row of one alert; `None` where the id or the title would be cut
/// inside a character.
pub open spec fn row_text(item: JsonView) -> Option<Seq<char>> {
    let id = crate::commands::listing::str_cell(item, "_id"@);
    let title = crate::commands::listing::str_cell(item, "title"@);
    if crate::output::table::truncatable(id, 12) && crate::output::table::truncatable(title, 38) {
        Some(
            crate::output::table::row_text(
                seq![
                    crate::output::table::truncate_spec(id, 12),
                    crate::output::table::truncate_spec(title, 38),
                    severity_cell(item),
                    resolution_cell(item),
                    crate::output::table::timestamp_text(
                        crate::json::member_i64(item, "timestamp"@),
                    ),
                ],
                widths(),
            ),
        )
    } else {
        None
    }
}

fn width_vec() -> (r: Vec<usize>)
    ensures
        r@.map_values(|w: usize| w as nat) == widths(),
{
    let r = vec![14usize, 40, 15, 16, 24];
    assert(r@.map_values(|w: usize| w as nat) =~= widths());
    r
}

/// The header line of the alerts table.
pub fn header() -> (r: String)
    ensures
        r@ == header_text(),
{
    let mut cells: Vec<String> = Vec::new();
    cells.push(String::from_str("ID"));
    cells.push(String::from_str("TITLE"));
    cells.push(String::from_str("SEVERITY"));
    cells.push(String::from_str("RESOLUTION"));
    cells.push(String::from_str("TIMESTAMP"));
    let w = width_vec();
    let r = table_row(&cells, &w);
    assert(cells@.map_values(|c: String| c@) =~= seq![
        "ID"@,
        "TITLE"@,
        "SEVERITY"@,
        "RESOLUTION"@,
        "TIMESTAMP"@,
    ]);
    r
}

/// The row of one alert of a list response.
pub fn row(item: &JsonValue) -> (r: Option<String>)
    ensures
        crate::commands::listing::opt_text(r) == row_text(crate::json::json_view(*item)),
{
    let id = match try_truncate(str_cell_of(item, "_id"), 12) {
        Some(t) => t,
        None => {
            return None;
        },
    };
    let title = match try_truncate(str_cell_of(item, "title"), 38) {
        Some(t) => t,
        None => {
            return None;
        },
    };
    let severity = match member_i32_of(item, "severityValue") {
        Some(v) => match Severity::from_api(v) {
            Some(s) => s.as_str(),
            None => "-",
        },
        None => "-",
    };
    let resolution = match member_i32_of(item, "resolutionStatusValue") {
        Some(v) => match ResolutionStatus::from_api(v) {
            Some(s) => s.as_str(),
            None => "-",
        },
        None => "-",
    };
    let ts = format_timestamp(item.member_i64("timestamp"));
    let ghost cs = seq![id@, title@, severity@, resolution@, ts@];
    let mut cells: Vec<String> = Vec::new();
    cells.push(id);
    cells.push(title);
    cells.push(String::from_str(severity));
    cells.push(String::from_str(resolution));
    cells.push(ts);
    let w = width_vec();
    assert(cells@.map_values(|c: String| c@) =~= cs);
    Some(table_row(&cells, &w))
}

/// The lines of the alerts table of a list response.
pub fn table(value: &JsonValue) -> (r: Vec<Option<String>>)
    ensures
        r@.map_values(|l: Option<String>| crate::commands::listing::opt_text(l))
            == crate::commands::listing::table_lines(
            header_text(),
            crate::commands::listing::data_items(crate::json::json_view(*value)),
            |i: JsonView| row_text(i),
        ),
{
    crate::commands::listing::table_of(
        header(),
        crate::commands::listing::data_array(value),
        row,
        Ghost(|i: JsonView| row_text(i)),
    )
}

/// The message of an unrecognised `--as` of `alerts close`.
pub open spec fn close_type_error_text(close_as: Seq<char>) -> Seq<char> {
    "unknown close type: "@ + close_as + ". Use: benign, false-positive, true-positive"@
}

/// The body of `alerts close`: `{"filters": {"id": {"eq": ids}}}`, with the
/// comment when one is given.
pub open spec fn close_body_view(ids: Seq<String>, comment: Option<String>) -> JsonView {
    let filters = JsonView::Object(
        seq![
            ("id"@, JsonView::Object(
                seq![("eq"@, JsonView::Array(ids.map_values(|s: String| JsonView::Str(s@))))],
            )),
        ],
    );
    match comment {
        Some(c) => JsonView::Object(
            seq![("filters"@, filters), ("comment"@, JsonView::Str(c@))],
        ),
        None => JsonView::Object(seq![("filters"@, filters)]),
    }
}

/// The path and body of `alerts close`, or the error for an unknown close type.
pub fn close_request(args: &CloseArgs) -> (r: Result<(String, JsonValue), AppError>)
    ensures
        match CloseType::of_lowercase(crate::text::unicode_lowercase(args.close_as@)) {
            Some(t) => r matches Ok((path, body)) && path@ == "/api/v1/alerts/"@ + t.path_segment()
                + "/"@ && crate::json::json_view(body) == close_body_view(args.ids@, args.comment),
            None => r matches Err(e) && e is InvalidInput && e->InvalidInput_0@
                == close_type_error_text(args.close_as@),
        },
{
    let close_type = match CloseType::from_str_loose(args.close_as.as_str()) {
        Some(t) => t,
        None => {
            let mut m = String::from_str("unknown close type: ");
            m.append(args.close_as.as_str());
            m.append(". Use: benign, false-positive, true-positive");
            return Err(AppError::InvalidInput(m));
        },
    };
    let mut ids: Vec<JsonValue> = Vec::new();
    let mut i: usize = 0;
    while i < args.ids.len()
        invariant
            i <= args.ids.len(),
            crate::json::json_views(ids@) == args.ids@.take(i as int).map_values(
                |s: String| JsonView::Str(s@),
            ),
        decreases args.ids.len() - i,
    {
        let ghost before = ids@;
        let item = JsonValue::string(args.ids[i].as_str());
        ids.push(item);
        proof {
            assert(ids@.drop_last() =~= before);
            assert(args.ids@.take(i + 1).map_values(|s: String| JsonView::Str(s@)) =~= args.ids@.take(
                i as int,
            ).map_values(|s: String| JsonView::Str(s@)).push(JsonView::Str(args.ids@[i as int]@)));
        }
        i = i + 1;
    }
    proof {
        assert(args.ids@.take(args.ids.len() as int) =~= args.ids@);
    }
    let ghost idv = crate::json::json_views(ids@);
    let mut eq_members: Vec<(String, JsonValue)> = Vec::new();
    eq_members.push((String::from_str("eq"), JsonValue::Array(ids)));
    let eq_obj = JsonValue::Object(eq_members);
    let ghost eqv = crate::json::json_view(eq_obj);
    proof {
        crate::json::lemma_member_views(eq_members@);
        assert(crate::json::member_views(eq_members@) =~= seq![("eq"@, JsonView::Array(idv))]);
    }
    let mut id_members: Vec<(String, JsonValue)> = Vec::new();
    id_members.push((String::from_str("id"), eq_obj));
    let filters = JsonValue::Object(id_members);
    let ghost fv = crate::json::json_view(filters);
    proof {
        crate::json::lemma_member_views(id_members@);
        assert(crate::json::member_views(id_members@) =~= seq![("id"@, eqv)]);
    }
    let mut body: Vec<(String, JsonValue)> = Vec::new();
    body.push((String::from_str("filters"), filters));
    if let Some(c) = &args.comment {
        body.push((String::from_str("comment"), JsonValue::string(c.as_str())));
    }
    proof {
        crate::json::lemma_member_views(body@);
        if args.comment is Some {
            let c = args.comment->Some_0;
            {
                assert(crate::json::member_views(body@) =~= seq![
                    ("filters"@, fv),
                    ("comment"@, JsonView::Str(c@)),
                ]);
            }
        } else {
            assert(crate::json::member_views(body@) =~= seq![("filters"@, fv)]);
        }
    }
    let mut path = String::from_str("/api/v1/alerts/");
    path.append(close_type.api_path_segment());
    path.append("/");
    Ok((path, JsonValue::Object(body)))
}

/// The path of one alert.
pub fn fetch_path(id: &str) -> (r: String)
    ensures
        r@ == "/api/v1/alerts/"@ + id@ + "/"@,
{
    let mut p = String::from_str("/api/v1/alerts/");
    p.append(id);
    p.append("/");
    p
}

/// The filter that finds the activities of an alert:
/// `{"activity.alertId": {"eq": id}}`.
pub fn activities_filter(id: &str) -> (r: FilterRequest)
    ensures
        r.conditions() == Map::<Seq<char>, Seq<(Seq<char>, JsonView)>>::empty().insert(
            "activity.alertId"@,
            crate::models::filter::single("eq"@, JsonView::Str(id@)),
        ),
        r.skip is None,
        r.limit is None,
        crate::models::filter::unique_keys(r.filters@),
{
    let mut f = FilterRequest::new();
    f.add_filter(
        "activity.alertId",
        FilterCondition::raw(String::from_str("eq"), JsonValue::string(id)),
    );
    f
}

/// `{"alert": alert, "activities": [...]}`, what `alerts fetch --with-activities` prints.
pub fn with_activities(alert: JsonValue, activities: Vec<JsonValue>) -> (r: JsonValue)
    ensures
        crate::json::json_view(r) == JsonView::Object(
            seq![
                ("alert"@, crate::json::json_view(alert)),
                ("activities"@, JsonView::Array(crate::json::json_views(activities@))),
            ],
        ),
{
    let ghost a = crate::json::json_view(alert);
    let arr = JsonValue::Array(activities);
    let ghost b = crate::json::json_view(arr);
    let mut m: Vec<(String, JsonValue)> = Vec::new();
    m.push((String::from_str("alert"), alert));
    m.push((String::from_str("activities"), arr));
    proof {
        crate::json::lemma_member_views(m@);
        assert(crate::json::member_views(m@) =~= seq![("alert"@, a), ("activities"@, b)]);
    }
    JsonValue::Object(m)
}

/// The path and message of marking one alert read or unread.
pub fn bulk_action_step(id: &str, action: &str) -> (r: (String, String))
    ensures
        r.0@ == "/api/v1/alerts/"@ + id@ + "/"@ + action@ + "/"@,
        r.1@ == "Marked alert "@ + id@ + " as "@ + action@,
{
    let mut p = String::from_str("/api/v1/alerts/");
    p.append(id);
    p.append("/");
    p.append(action);
    p.append("/");
    let mut m = String::from_str("Marked alert ");
    m.append(id);
    m.append(" as ");
    m.append(action);
    (p, m)
}

} // verus!

verus! {

/// Law of `alerts list`: `--open` asks for the open alerts only
/// (`{"alertOpen": {"eq": true}}`), `--closed` for the closed ones only
/// (`{"alertOpen": {"eq": false}}`, also when both are given), and with
/// neither flag nothing is asked of `alertOpen`. Without a raw filter the
/// request is built whenever severity and resolution were not given.
pub proof fn open_and_closed_flags_select_alerts(args: ListArgs)
    ensures
        args.severity is None && args.resolution is None ==> list_conditions(args, None) is Ok,
        list_conditions(args, None) matches Ok(c) ==> {
            &&& args.open && !args.closed ==> c.contains_key("alertOpen"@) && c["alertOpen"@]
                == seq![("eq"@, JsonView::Bool(true))]
            &&& args.closed ==> c.contains_key("alertOpen"@) && c["alertOpen"@] == seq![
                ("eq"@, JsonView::Bool(false)),
            ]
            &&& !args.open && !args.closed ==> !c.contains_key("alertOpen"@)
        },
{
    reveal_strlit("alertOpen");
    reveal_strlit("text");
    reveal_strlit("severity");
    reveal_strlit("resolutionStatus");
    assert("alertOpen"@[0] != "text"@[0]);
    assert("alertOpen"@[0] != "severity"@[0]);
    assert("alertOpen"@[0] != "resolutionStatus"@[0]);
}

} // verus!
