//! What the `list` subcommands share: paging, the raw `--filter` argument,
//! the errors for unknown enum words, and the cells of table rows.

use vstd::prelude::*;
use vstd::string::*;
use crate::error::AppError;
use crate::json::{JsonValue, JsonView};
use crate::models::filter::{FilterCondition, FilterRequest};
use crate::text::str_eq;

verus! {

/// The conditions that a list of raw filter members adds to `conds`, member by
/// member: `skip` and `limit` are ignored, as is a member whose value is not a
/// JSON object; any other member sets the condition of its field.
pub open spec fn merged_conditions(
    conds: Map<Seq<char>, Seq<(Seq<char>, JsonView)>>,
    members: Seq<(Seq<char>, JsonView)>,
) -> Map<Seq<char>, Seq<(Seq<char>, JsonView)>>
    decreases members.len(),
{
    if members.len() == 0 {
        conds
    } else {
        let before = merged_conditions(conds, members.drop_last());
        let (k, v) = members.last();
        if k == "skip"@ || k == "limit"@ {
            before
        } else {
            match v {
                JsonView::Object(m) => before.insert(k, m),
                _ => before,
            }
        }
    }
}

/// The conditions after merging a parsed raw filter: only an object has members.
pub open spec fn raw_filter_conditions(
    conds: Map<Seq<char>, Seq<(Seq<char>, JsonView)>>,
    raw: JsonView,
) -> Map<Seq<char>, Seq<(Seq<char>, JsonView)>> {
    match raw {
        JsonView::Object(members) => merged_conditions(conds, members),
        _ => conds,
    }
}

/// A request with only the paging that the arguments give.
pub fn paging_filter(limit: Option<u64>, skip: Option<u64>) -> (r: FilterRequest)
    ensures
        r.conditions() == Map::<Seq<char>, Seq<(Seq<char>, JsonView)>>::empty(),
        r.limit == limit,
        r.skip == skip,
        crate::models::filter::unique_keys(r.filters@),
{
    let mut filter = FilterRequest::new();
    if let Some(l) = limit {
        filter = filter.with_limit(l);
    }
    if let Some(s) = skip {
        filter = filter.with_skip(s);
    }
    filter
}

/// Merge a parsed `--filter` value into `filter`.
pub fn merge_raw_filter(filter: &mut FilterRequest, raw: JsonValue)
    ensures
        final(filter).conditions() == raw_filter_conditions(
            old(filter).conditions(),
            crate::json::json_view(raw),
        ),
        final(filter).skip == old(filter).skip,
        final(filter).limit == old(filter).limit,
        crate::models::filter::unique_keys(old(filter).filters@) ==> crate::models::filter::unique_keys(
            final(filter).filters@,
        ),
{
    match raw {
        JsonValue::Object(members) => {
            let ghost start = filter.conditions();
            let mut rest = members;
            let ghost mut taken: Seq<(String, JsonValue)> = Seq::empty();
            let ghost all = members@;
            while rest.len() > 0
                invariant
                    taken + rest@ == all,
                    filter.conditions() == merged_conditions(start, crate::json::member_views(taken)),
                    filter.skip == old(filter).skip,
                    filter.limit == old(filter).limit,
                    crate::models::filter::unique_keys(old(filter).filters@)
                        ==> crate::models::filter::unique_keys(filter.filters@),
                decreases rest.len(),
            {
                let ghost before_taken = taken;
                let ghost before_rest = rest@;
                let (k, v) = rest.remove(0);
                proof {
                    assert(before_rest =~= seq![(k, v)] + rest@);
                }
                let skip_key = str_eq(k.as_str(), "skip") || str_eq(k.as_str(), "limit");
                let ghost kv = k@;
                let ghost vv = crate::json::json_view(v);
                let ghost k2 = k;
                let ghost v2 = v;
                if !skip_key {
                    match v {
                        JsonValue::Object(cm) => {
                            let ghost cmv = crate::json::member_views(cm@);
                            let cond = FilterCondition::from_members(cm);
                            filter.add_filter(k.as_str(), cond);
                            proof {
                                assert(vv == JsonView::Object(cmv));
                            }
                        },
                        _ => {},
                    }
                }
                proof {
                    taken = taken.push((k2, v2));
                    reveal_strlit("skip");
                    reveal_strlit("limit");
                    assert(taken.drop_last() =~= before_taken);
                    assert(taken.last() == (k2, v2));
                    assert(crate::json::member_views(taken) == crate::json::member_views(
                        before_taken,
                    ).push((kv, vv)));
                    assert(taken + rest@ =~= before_taken + before_rest);
                    let mt = crate::json::member_views(taken);
                    assert(mt.drop_last() =~= crate::json::member_views(before_taken));
                    assert(mt.last() == (kv, vv));
                    assert(merged_conditions(start, mt) == {
                        let b = merged_conditions(start, crate::json::member_views(before_taken));
                        if kv == "skip"@ || kv == "limit"@ {
                            b
                        } else {
                            match vv {
                                JsonView::Object(m) => b.insert(kv, m),
                                _ => b,
                            }
                        }
                    });
                }
            }
            proof {
                assert(taken =~= all);
            }
        },
        _ => {},
    }
}

/// Apply the `--filter` argument as the list commands do: `None` when the
/// argument was not given, else what parsing it as JSON gave (the parser's
/// message on failure, which becomes an invalid-input error).
pub fn apply_raw_filter(filter: &mut FilterRequest, raw: Option<Result<JsonValue, String>>) -> (r:
    Result<(), AppError>)
    ensures
        match raw {
            None => r is Ok && *final(filter) == *old(filter),
            Some(Err(m)) => r == Err::<(), AppError>(AppError::InvalidInput(m)) && *final(filter)
                == *old(filter),
            Some(Ok(v)) => r is Ok && final(filter).conditions() == raw_filter_conditions(
                old(filter).conditions(),
                crate::json::json_view(v),
            ) && final(filter).skip == old(filter).skip && final(filter).limit == old(
                filter,
            ).limit,
        },
        crate::models::filter::unique_keys(old(filter).filters@) ==> crate::models::filter::unique_keys(
            final(filter).filters@,
        ),
{
    match raw {
        None => Ok(()),
        Some(Err(m)) => Err(AppError::InvalidInput(m)),
        Some(Ok(v)) => {
            merge_raw_filter(filter, v);
            Ok(())
        },
    }
}

/// `unknown <what>: <value>`, the message of an unrecognised enum word.
pub open spec fn unknown_text(what: Seq<char>, value: Seq<char>) -> Seq<char> {
    "unknown "@ + what + ": "@ + value
}

/// The invalid-input error for an unrecognised enum word.
pub fn unknown_value(what: &str, value: &str) -> (r: AppError)
    ensures
        r is InvalidInput,
        r->InvalidInput_0@ == unknown_text(what@, value@),
{
    let mut m = String::from_str("unknown ");
    m.append(what);
    m.append(": ");
    m.append(value);
    proof {
        reveal_strlit("unknown ");
        reveal_strlit(": ");
    }
    AppError::InvalidInput(m)
}

/// A string cell: the string member `key`, or `-`.
pub open spec fn str_cell(item: JsonView, key: Seq<char>) -> Seq<char> {
    match crate::json::member_str(item, key) {
        Some(s) => s,
        None => "-"@,
    }
}

/// The string cell of `item`.
pub fn str_cell_of<'a>(item: &'a JsonValue, key: &str) -> (r: &'a str)
    ensures
        r@ == str_cell(crate::json::json_view(*item), key@),
{
    match item.member_str(key) {
        Some(s) => s,
        None => "-",
    }
}

/// The integer member `key` of `item` taken as `i32` the way `v as i32` does.
pub open spec fn member_i32(item: JsonView, key: Seq<char>) -> Option<i32> {
    match crate::json::member_i64(item, key) {
        Some(v) => Some(v as i32),
        None => None,
    }
}

/// `member_i64(key)` cast to `i32` as `v as i32` does (keeping the low 32 bits).
pub fn member_i32_of(item: &JsonValue, key: &str) -> (r: Option<i32>)
    ensures
        r == member_i32(crate::json::json_view(*item), key@),
{
    match item.member_i64(key) {
        Some(v) => Some(#[verifier::truncate] (v as i32)),
        None => None,
    }
}

/// The lines of a table: the header, then one row per item. A row is `None`
/// where a cell could not be truncated on a character boundary.
pub open spec fn table_lines(
    header: Seq<char>,
    items: Option<Seq<JsonView>>,
    row: spec_fn(JsonView) -> Option<Seq<char>>,
) -> Seq<Option<Seq<char>>> {
    match items {
        Some(s) => seq![Some(header)] + s.map_values(|i: JsonView| row(i)),
        None => seq![Some(header)],
    }
}

/// The items of the `data` array of a list response.
pub open spec fn data_items(value: JsonView) -> Option<Seq<JsonView>> {
    match crate::json::view_member(value, "data"@) {
        Some(JsonView::Array(items)) => Some(items),
        _ => None,
    }
}

/// The `data` array of a list response.
pub fn data_array(value: &JsonValue) -> (r: Option<&Vec<JsonValue>>)
    ensures
        match r {
            Some(items) => data_items(crate::json::json_view(*value)) == Some(
                crate::json::json_views(items@),
            ),
            None => data_items(crate::json::json_view(*value)) is None,
        },
{
    match value.get("data") {
        Some(d) => d.as_array(),
        None => None,
    }
}

/// The text of an optional line, for comparing with a spec of lines.
pub open spec fn opt_text(l: Option<String>) -> Option<Seq<char>> {
    match l {
        Some(s) => Some(s@),
        None => None,
    }
}

/// What JSON output prints of a list response: the whole response in raw
/// mode, else its `data` member when it has one.
pub open spec fn json_data_view(value: JsonView, raw: bool) -> JsonView {
    if raw {
        value
    } else {
        match crate::json::view_member(value, "data"@) {
            Some(d) => d,
            None => value,
        }
    }
}

/// The part of a list response that JSON output prints.
pub fn json_data(value: &JsonValue, raw: bool) -> (r: &JsonValue)
    ensures
        crate::json::json_view(*r) == json_data_view(crate::json::json_view(*value), raw),
{
    if raw {
        value
    } else {
        match value.get("data") {
            Some(d) => d,
            None => value,
        }
    }
}

/// `{"eq": [v]}` with one integer.
pub open spec fn eq_int_view(v: i64) -> Seq<(Seq<char>, JsonView)> {
    crate::models::filter::single("eq"@, JsonView::Array(seq![JsonView::Int(v)]))
}

/// `{"eq": [s]}` with one string.
pub open spec fn eq_str_view(s: Seq<char>) -> Seq<(Seq<char>, JsonView)> {
    crate::models::filter::single("eq"@, JsonView::Array(seq![JsonView::Str(s)]))
}

/// `{"eq": b}` with a boolean.
pub open spec fn eq_bool_view(b: bool) -> Seq<(Seq<char>, JsonView)> {
    crate::models::filter::single("eq"@, JsonView::Bool(b))
}

/// `{"text": q}`.
pub open spec fn text_view(q: Seq<char>) -> Seq<(Seq<char>, JsonView)> {
    crate::models::filter::single("text"@, JsonView::Str(q))
}

/// `FilterCondition::eq(vec![v])` for an integer.
pub fn eq_int(v: i64) -> (r: FilterCondition)
    ensures
        r.view() == eq_int_view(v),
{
    let mut items: Vec<JsonValue> = Vec::new();
    items.push(JsonValue::Int(v));
    proof {
        crate::json::lemma_json_views(items@);
        assert(crate::json::json_views(items@) =~= seq![JsonView::Int(v)]);
    }
    FilterCondition::eq(items)
}

/// `FilterCondition::eq(vec![s])` for a string.
pub fn eq_str(s: &str) -> (r: FilterCondition)
    ensures
        r.view() == eq_str_view(s@),
{
    let mut items: Vec<JsonValue> = Vec::new();
    items.push(JsonValue::string(s));
    proof {
        crate::json::lemma_json_views(items@);
        assert(crate::json::json_views(items@) =~= seq![JsonView::Str(s@)]);
    }
    FilterCondition::eq(items)
}

/// The response that `--all` prints: `{"data": [...], "total": n}`.
pub open spec fn all_response_view(data: Seq<JsonView>) -> JsonView {
    JsonView::Object(
        seq![
            ("data"@, JsonView::Array(data)),
            ("total"@, if data.len() <= i64::MAX {
                JsonView::Int(data.len() as i64)
            } else {
                JsonView::UInt(data.len() as u64)
            }),
        ],
    )
}

/// `{"data": data, "total": data.len()}`.
pub fn all_response(data: Vec<JsonValue>) -> (r: JsonValue)
    ensures
        crate::json::json_view(r) == all_response_view(crate::json::json_views(data@)),
{
    let ghost dv = crate::json::json_views(data@);
    proof {
        crate::json::lemma_json_views(data@);
    }
    let n = data.len() as u64;
    let total = JsonValue::from_u64(n);
    let arr = JsonValue::Array(data);
    let ghost av = crate::json::json_view(arr);
    let ghost tv = crate::json::json_view(total);
    let mut members: Vec<(String, JsonValue)> = Vec::new();
    members.push((String::from_str("data"), arr));
    members.push((String::from_str("total"), total));
    proof {
        crate::json::lemma_member_views(members@);
        assert(crate::json::member_views(members@) =~= seq![("data"@, av), ("total"@, tv)]);
    }
    JsonValue::Object(members)
}

/// The lines of a table with `header` and one row per item of `items`, as
/// the row function `row` renders them.
pub fn table_of<F: Fn(&JsonValue) -> Option<String>>(
    header: String,
    items: Option<&Vec<JsonValue>>,
    row: F,
    Ghost(row_spec): Ghost<spec_fn(JsonView) -> Option<Seq<char>>>,
) -> (r: Vec<Option<String>>)
    requires
        forall|x: &JsonValue| #[trigger] row.requires((x,)),
        forall|x: &JsonValue, l: Option<String>|
            #[trigger] row.ensures((x,), l) ==> opt_text(l) == row_spec(crate::json::json_view(*x)),
    ensures
        r@.map_values(|l: Option<String>| opt_text(l)) == table_lines(
            header@,
            match items {
                Some(v) => Some(crate::json::json_views(v@)),
                None => None,
            },
            row_spec,
        ),
{
    let ghost h = header@;
    let mut lines: Vec<Option<String>> = Vec::new();
    lines.push(Some(header));
    match items {
        Some(items) => {
            let ghost iv = crate::json::json_views(items@);
            proof {
                crate::json::lemma_json_views(items@);
            }
            let mut i: usize = 0;
            while i < items.len()
                invariant
                    i <= items.len(),
                    iv == crate::json::json_views(items@),
                    iv.len() == items@.len(),
                    forall|j: int|
                        0 <= j < items@.len() ==> #[trigger] iv[j] == crate::json::json_view(
                            items@[j],
                        ),
                    forall|x: &JsonValue| #[trigger] row.requires((x,)),
                    forall|x: &JsonValue, l: Option<String>|
                        #[trigger] row.ensures((x,), l) ==> opt_text(l) == row_spec(
                            crate::json::json_view(*x),
                        ),
                    lines@.map_values(|l: Option<String>| opt_text(l)) == seq![Some(h)] + iv.take(
                        i as int,
                    ).map_values(|x: JsonView| row_spec(x)),
                decreases items.len() - i,
            {
                let ghost before = lines@;
                let line = row(&items[i]);
                lines.push(line);
                proof {
                    assert(lines@.drop_last() == before);
                    assert(iv.take(i + 1).map_values(|x: JsonView| row_spec(x)) =~= iv.take(
                        i as int,
                    ).map_values(|x: JsonView| row_spec(x)).push(row_spec(iv[i as int])));
                    assert(lines@.map_values(|l: Option<String>| opt_text(l)) =~= before.map_values(
                        |l: Option<String>| opt_text(l),
                    ).push(opt_text(line)));
                }
                i = i + 1;
            }
            proof {
                assert(iv.take(items.len() as int) =~= iv);
                assert(lines@.map_values(|l: Option<String>| opt_text(l)) =~= seq![Some(h)]
                    + iv.map_values(|x: JsonView| row_spec(x)));
            }
        },
        None => {
            assert(lines@.map_values(|l: Option<String>| opt_text(l)) =~= seq![Some(h)]);
        },
    }
    lines
}

/// `prefix`, `id` and `suffix` one after another: the path of one resource.
pub fn join_path(prefix: &str, id: &str, suffix: &str) -> (r: String)
    ensures
        r@ == prefix@ + id@ + suffix@,
{
    let mut p = String::from_str(prefix);
    p.append(id);
    p.append(suffix);
    p
}

/// The string at `key` of the object at `outer` (`get(outer)?.get(key)?.as_str()`),
/// or `-`.
pub open spec fn nested_str_cell(item: JsonView, outer: Seq<char>, key: Seq<char>) -> Seq<char> {
    match crate::json::view_member(item, outer) {
        Some(o) => str_cell(o, key),
        None => "-"@,
    }
}

/// The nested string cell of `item`.
pub fn nested_str_cell_of<'a>(item: &'a JsonValue, outer: &str, key: &str) -> (r: &'a str)
    ensures
        r@ == nested_str_cell(crate::json::json_view(*item), outer@, key@),
{
    match item.get(outer) {
        Some(o) => str_cell_of(o, key),
        None => "-",
    }
}

/// The cells of a row as one vector, with their texts.
pub fn cells5(a: String, b: String, c: String, d: String, e: String) -> (r: Vec<String>)
    ensures
        r@.map_values(|x: String| x@) == seq![a@, b@, c@, d@, e@],
{
    let ghost want = seq![a@, b@, c@, d@, e@];
    let mut v: Vec<String> = Vec::new();
    v.push(a);
    v.push(b);
    v.push(c);
    v.push(d);
    v.push(e);
    assert(v@.map_values(|x: String| x@) =~= want);
    v
}

/// The six cells of a row as one vector, with their texts.
pub fn cells6(a: String, b: String, c: String, d: String, e: String, f: String) -> (r: Vec<
    String,
>)
    ensures
        r@.map_values(|x: String| x@) == seq![a@, b@, c@, d@, e@, f@],
{
    let ghost want = seq![a@, b@, c@, d@, e@, f@];
    let mut v: Vec<String> = Vec::new();
    v.push(a);
    v.push(b);
    v.push(c);
    v.push(d);
    v.push(e);
    v.push(f);
    assert(v@.map_values(|x: String| x@) =~= want);
    v
}

/// The four cells of a row as one vector, with their texts.
pub fn cells4(a: String, b: String, c: String, d: String) -> (r: Vec<String>)
    ensures
        r@.map_values(|x: String| x@) == seq![a@, b@, c@, d@],
{
    let ghost want = seq![a@, b@, c@, d@];
    let mut v: Vec<String> = Vec::new();
    v.push(a);
    v.push(b);
    v.push(c);
    v.push(d);
    assert(v@.map_values(|x: String| x@) =~= want);
    v
}

} // verus!

verus! {

/// Law of raw filters: merging a raw filter never sets a condition on the
/// `skip` or `limit` fields (those keys are ignored), and keeps every other
/// condition it does not name.
pub proof fn raw_filter_leaves_paging_alone(
    conds: Map<Seq<char>, Seq<(Seq<char>, JsonView)>>,
    members: Seq<(Seq<char>, JsonView)>,
    k: Seq<char>,
)
    ensures
        (k == "skip"@ || k == "limit"@) ==> (merged_conditions(conds, members).contains_key(k)
            == conds.contains_key(k) && (conds.contains_key(k) ==> merged_conditions(
            conds,
            members,
        )[k] == conds[k])),
        (forall|i: int| 0 <= i < members.len() ==> (#[trigger] members[i]).0 != k) ==> (
        merged_conditions(conds, members).contains_key(k) == conds.contains_key(k) && (
        conds.contains_key(k) ==> merged_conditions(conds, members)[k] == conds[k])),
    decreases members.len(),
{
    if members.len() > 0 {
        let init = members.drop_last();
        raw_filter_leaves_paging_alone(conds, init, k);
        if forall|i: int| 0 <= i < members.len() ==> (#[trigger] members[i]).0 != k {
            assert forall|i: int| 0 <= i < init.len() implies (#[trigger] init[i]).0 != k by {
                assert(init[i] == members[i]);
            }
            assert(members.last() == members[members.len() - 1]);
        }
    }
}

} // verus!
