//! Filters sent with list requests: `{"filters": {field: {operator: value}}, "skip": n, "limit": n}`.

use vstd::prelude::*;
use vstd::string::*;
use crate::json::{JsonValue, JsonView};
use crate::text::str_eq;

verus! {

/// A filter condition: operators with their values (in practice one pair).
pub struct FilterCondition {
    members: Vec<(String, JsonValue)>,
}

/// The view of a one-operator condition.
pub open spec fn single(op: Seq<char>, value: JsonView) -> Seq<(Seq<char>, JsonView)> {
    seq![(op, value)]
}

proof fn lemma_single(op: String, value: JsonValue)
    ensures
        crate::json::member_views(seq![(op, value)]) == single(op@, crate::json::json_view(value)),
{
    let s = seq![(op, value)];
    crate::json::lemma_member_views(s);
    assert(crate::json::member_views(s) =~= single(op@, crate::json::json_view(value)));
}

impl FilterCondition {
    /// The operator/value pairs of the condition.
    pub closed spec fn view(&self) -> Seq<(Seq<char>, JsonView)> {
        crate::json::member_views(self.members@)
    }

    fn single_op(op: &str, value: JsonValue) -> (r: Self)
        ensures
            r.view() == single(op@, crate::json::json_view(value)),
    {
        let k = String::from_str(op);
        let ghost gk = k;
        let ghost gv = value;
        let mut members = Vec::new();
        members.push((k, value));
        proof {
            lemma_single(gk, gv);
            assert(members@ =~= seq![(gk, gv)]);
        }
        FilterCondition { members }
    }

    /// `{"eq": [values...]}`.
    pub fn eq(values: Vec<JsonValue>) -> (r: Self)
        ensures
            r.view() == single("eq"@, JsonView::Array(crate::json::json_views(values@))),
    {
        let ghost vs = values@;
        let v = JsonValue::Array(values);
        assert(crate::json::json_view(v) == JsonView::Array(crate::json::json_views(vs)));
        Self::single_op("eq", v)
    }

    /// `{"neq": [values...]}`.
    pub fn neq(values: Vec<JsonValue>) -> (r: Self)
        ensures
            r.view() == single("neq"@, JsonView::Array(crate::json::json_views(values@))),
    {
        let ghost vs = values@;
        let v = JsonValue::Array(values);
        assert(crate::json::json_view(v) == JsonView::Array(crate::json::json_views(vs)));
        Self::single_op("neq", v)
    }

    /// `{"gte": value}`.
    pub fn gte(value: JsonValue) -> (r: Self)
        ensures
            r.view() == single("gte"@, crate::json::json_view(value)),
    {
        Self::single_op("gte", value)
    }

    /// `{"lte": value}`.
    pub fn lte(value: JsonValue) -> (r: Self)
        ensures
            r.view() == single("lte"@, crate::json::json_view(value)),
    {
        Self::single_op("lte", value)
    }

    /// `{"gte_ndays": days}`.
    pub fn gte_ndays(days: u64) -> (r: Self)
        ensures
            days <= i64::MAX ==> r.view() == single("gte_ndays"@, JsonView::Int(days as i64)),
            days > i64::MAX ==> r.view() == single("gte_ndays"@, JsonView::UInt(days)),
    {
        Self::single_op("gte_ndays", JsonValue::from_u64(days))
    }

    /// `{"text": query}`.
    pub fn text(query: &str) -> (r: Self)
        ensures
            r.view() == single("text"@, JsonView::Str(query@)),
    {
        Self::single_op("text", JsonValue::string(query))
    }

    /// `{"eq": value}` with a boolean.
    pub fn eq_bool(value: bool) -> (r: Self)
        ensures
            r.view() == single("eq"@, JsonView::Bool(value)),
    {
        Self::single_op("eq", JsonValue::Bool(value))
    }

    fn strings(values: &Vec<String>) -> (r: Vec<JsonValue>)
        ensures
            crate::json::json_views(r@) == values@.map_values(|s: String| JsonView::Str(s@)),
    {
        let mut out: Vec<JsonValue> = Vec::new();
        let mut i: usize = 0;
        while i < values.len()
            invariant
                i <= values.len(),
                crate::json::json_views(out@) == values@.take(i as int).map_values(
                    |s: String| JsonView::Str(s@),
                ),
            decreases values.len() - i,
        {
            let ghost before = out@;
            let item = JsonValue::Str(values[i].clone());
            assert(crate::json::json_view(item) == JsonView::Str(values@[i as int]@));
            out.push(item);
            assert(out@.drop_last() =~= before);
            assert(crate::json::json_views(out@) == crate::json::json_views(before).push(
                JsonView::Str(values@[i as int]@),
            ));
            assert(values@.take(i + 1).map_values(|s: String| JsonView::Str(s@)) =~= values@.take(
                i as int,
            ).map_values(|s: String| JsonView::Str(s@)).push(JsonView::Str(values@[i as int]@)));
            i = i + 1;
        }
        assert(values@.take(values.len() as int) =~= values@);
        out
    }

    /// `{"contains": [values...]}` with strings.
    pub fn contains(values: Vec<String>) -> (r: Self)
        ensures
            r.view() == single(
                "contains"@,
                JsonView::Array(values@.map_values(|s: String| JsonView::Str(s@))),
            ),
    {
        let items = Self::strings(&values);
        let ghost iv = items@;
        let v = JsonValue::Array(items);
        assert(crate::json::json_view(v) == JsonView::Array(crate::json::json_views(iv)));
        Self::single_op("contains", v)
    }

    /// `{"startswith": [values...]}` with strings.
    pub fn startswith(values: Vec<String>) -> (r: Self)
        ensures
            r.view() == single(
                "startswith"@,
                JsonView::Array(values@.map_values(|s: String| JsonView::Str(s@))),
            ),
    {
        let items = Self::strings(&values);
        let ghost iv = items@;
        let v = JsonValue::Array(items);
        assert(crate::json::json_view(v) == JsonView::Array(crate::json::json_views(iv)));
        Self::single_op("startswith", v)
    }

    /// A condition from a raw operator/value pair.
    pub fn raw(operator: String, value: JsonValue) -> (r: Self)
        ensures
            r.view() == single(operator@, crate::json::json_view(value)),
    {
        let ghost go = operator;
        let ghost gv = value;
        let mut members = Vec::new();
        members.push((operator, value));
        proof {
            lemma_single(go, gv);
            assert(members@ =~= seq![(go, gv)]);
        }
        FilterCondition { members }
    }

    /// A condition from the members of a JSON object, as a raw filter gives it.
    pub fn from_members(members: Vec<(String, JsonValue)>) -> (r: Self)
        ensures
            r.view() == crate::json::member_views(members@),
    {
        FilterCondition { members }
    }

    /// The operator/value pairs, for serialisation.
    pub fn members(&self) -> (r: &Vec<(String, JsonValue)>)
        ensures
            crate::json::member_views(r@) == self.view(),
    {
        &self.members
    }
}

/// The keys of a list of filters.
pub open spec fn filter_keys(s: Seq<(String, FilterCondition)>) -> Seq<Seq<char>> {
    s.map_values(|e: (String, FilterCondition)| e.0@)
}

/// The field-to-condition map that a list of filters stands for (the first
/// filter of a field counts).
pub open spec fn conditions_of(s: Seq<(String, FilterCondition)>) -> Map<
    Seq<char>,
    Seq<(Seq<char>, JsonView)>,
> {
    Map::new(
        |k: Seq<char>| crate::json::first_key_index(filter_keys(s), k, 0) < s.len(),
        |k: Seq<char>| s[crate::json::first_key_index(filter_keys(s), k, 0)].1.view(),
    )
}

/// No field has two filters: the keys of the list are pairwise distinct, so the
/// list is a map from field to condition.
pub open spec fn unique_keys(s: Seq<(String, FilterCondition)>) -> bool {
    forall|i: int, j: int| 0 <= i < j < s.len() ==> #[trigger] s[i].0@ != #[trigger] s[j].0@
}

/// A collection of filters to send in API requests, with paging.
pub struct FilterRequest {
    pub filters: Vec<(String, FilterCondition)>,
    pub skip: Option<u64>,
    pub limit: Option<u64>,
}

impl FilterRequest {
    /// The condition of each filtered field.
    pub open spec fn conditions(&self) -> Map<Seq<char>, Seq<(Seq<char>, JsonView)>> {
        conditions_of(self.filters@)
    }

    /// An empty request: no filters, no paging.
    pub fn new() -> (r: Self)
        ensures
            r.conditions() == Map::<Seq<char>, Seq<(Seq<char>, JsonView)>>::empty(),
            r.filters@.len() == 0,
            unique_keys(r.filters@),
            r.skip is None,
            r.limit is None,
    {
        let r = FilterRequest { filters: Vec::new(), skip: None, limit: None };
        assert(r.conditions() =~= Map::<Seq<char>, Seq<(Seq<char>, JsonView)>>::empty());
        r
    }

    /// Set the condition of a field, replacing any earlier one.
    pub fn add_filter(&mut self, field: &str, condition: FilterCondition)
        ensures
            final(self).conditions() == old(self).conditions().insert(field@, condition.view()),
            unique_keys(old(self).filters@) ==> unique_keys(final(self).filters@),
            final(self).skip == old(self).skip,
            final(self).limit == old(self).limit,
    {
        let ghost old_f = self.filters@;
        let ghost keys = filter_keys(old_f);
        let ghost cv = condition.view();
        proof {
            crate::json::lemma_first_key_index(keys, field@, 0);
        }
        let mut i: usize = 0;
        while i < self.filters.len()
            invariant
                i <= self.filters.len(),
                self.filters@ == old_f,
                keys == filter_keys(old_f),
                forall|j: int| 0 <= j < i ==> keys[j] != field@,
            ensures
                i <= self.filters.len(),
                self.filters@ == old_f,
                forall|j: int| 0 <= j < i ==> keys[j] != field@,
                i < self.filters.len() ==> keys[i as int] == field@,
            decreases self.filters.len() - i,
        {
            assert(keys[i as int] == self.filters@[i as int].0@);
            if str_eq(self.filters[i].0.as_str(), field) {
                break;
            }
            i = i + 1;
        }
        if i < self.filters.len() {
            proof {
                assert(keys[i as int] == field@);
                crate::json::lemma_first_key_index_unique(keys, field@, 0, i as int);
            }
            let ghost at = i as int;
            self.filters.set(i, (String::from_str(field), condition));
            proof {
                let nf = self.filters@;
                assert(filter_keys(nf) =~= keys);
                assert forall|k: Seq<char>| conditions_of(nf).contains_key(k) implies conditions_of(
                    nf,
                )[k] == conditions_of(old_f).insert(field@, cv)[k] by {
                    crate::json::lemma_first_key_index(keys, k, 0);
                    if k != field@ {
                        assert(crate::json::first_key_index(keys, k, 0) != at);
                    }
                }
                assert(conditions_of(nf) =~= conditions_of(old_f).insert(field@, cv));
                assert forall|j: int| 0 <= j < nf.len() implies #[trigger] nf[j].0@ == old_f[j].0@ by {
                    assert(filter_keys(nf)[j] == keys[j]);
                }
            }
        } else {
            proof {
                crate::json::lemma_first_key_index_unique(keys, field@, 0, keys.len() as int);
            }
            self.filters.push((String::from_str(field), condition));
            proof {
                let nf = self.filters@;
                assert(filter_keys(nf) =~= keys.push(field@));
                let target = conditions_of(old_f).insert(field@, cv);
                assert forall|k: Seq<char>|
                    #[trigger] conditions_of(nf).contains_key(k) == target.contains_key(k) by {
                    crate::json::lemma_first_key_index_push(keys, k, field@);
                    crate::json::lemma_first_key_index(keys, k, 0);
                }
                assert forall|k: Seq<char>| #[trigger]
                    conditions_of(nf).contains_key(k) implies conditions_of(nf)[k] == target[k] by {
                    crate::json::lemma_first_key_index_push(keys, k, field@);
                    crate::json::lemma_first_key_index(keys, k, 0);
                }
                assert(conditions_of(nf) =~= conditions_of(old_f).insert(field@, cv));
                if unique_keys(old_f) {
                    assert forall|a: int, b: int| 0 <= a < b < nf.len() implies #[trigger] nf[a].0@
                        != #[trigger] nf[b].0@ by {
                        if b == old_f.len() {
                            assert(keys[a] == old_f[a].0@);
                        } else {
                            assert(nf[a] == old_f[a] && nf[b] == old_f[b]);
                        }
                    }
                }
            }
        }
    }

    pub fn with_skip(self, skip: u64) -> (r: Self)
        ensures
            r.conditions() == self.conditions(),
            r.filters == self.filters,
            r.skip == Some(skip),
            r.limit == self.limit,
    {
        FilterRequest { skip: Some(skip), ..self }
    }

    pub fn with_limit(self, limit: u64) -> (r: Self)
        ensures
            r.conditions() == self.conditions(),
            r.filters == self.filters,
            r.skip == self.skip,
            r.limit == Some(limit),
    {
        FilterRequest { limit: Some(limit), ..self }
    }

    /// No filters and no paging.
    pub fn is_empty(&self) -> (r: bool)
        ensures
            r == (self.conditions().dom().is_empty() && self.skip is None && self.limit is None),
    {
        proof {
            if self.filters@.len() > 0 {
                let keys = filter_keys(self.filters@);
                crate::json::lemma_first_key_index_unique(keys, keys[0], 0, 0);
                assert(self.conditions().contains_key(keys[0]));
            } else {
                assert(self.conditions().dom() =~= Set::<Seq<char>>::empty());
            }
        }
        self.filters.len() == 0 && self.skip.is_none() && self.limit.is_none()
    }

    /// The filters, for serialisation.
    pub fn entries(&self) -> (r: &Vec<(String, FilterCondition)>)
        ensures
            conditions_of(r@) == self.conditions(),
    {
        &self.filters
    }
}

} // verus!
