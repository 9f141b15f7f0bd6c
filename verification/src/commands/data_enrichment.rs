//! `data-enrichment`: validating the list options, the table, and the bodies
//! and paths of the create, update and delete requests.

use vstd::prelude::*;
use vstd::string::*;
use crate::cli::data_enrichment::{CreateArgs, ListArgs, UpdateArgs};
use crate::commands::listing::{
    cells5, eq_int, eq_str, join_path, member_i32_of, paging_filter, str_cell_of, unknown_value,
};
use crate::error::AppError;
use crate::json::{JsonValue, JsonView};
use crate::models::data_enrichment::SubnetCategory;
use crate::models::filter::{FilterCondition, FilterRequest};
use crate::output::table::{table_row, try_truncate};
use crate::text::{join, split_trimmed};

verus! {

/// The API path that lists IP ranges (fetched with GET; the list options are
/// checked but not sent).
pub fn list_path() -> (r: &'static str)
    ensures
        r@ == "/api/subnet/"@,
{
    "/api/subnet/"
}

/// The field conditions that `data-enrichment list` builds from its options,
/// or the message of the invalid-input error for an unknown category.
pub open spec fn list_conditions(args: ListArgs) -> Result<
    Map<Seq<char>, Seq<(Seq<char>, JsonView)>>,
    Seq<char>,
> {
    let cat = match args.category {
        Some(s) => SubnetCategory::of_lowercase(crate::text::unicode_lowercase(s@)),
        None => None,
    };
    if args.category is Some && cat is None {
        Err(crate::commands::listing::unknown_text("category"@, args.category->Some_0@))
    } else {
        let c1 = match cat {
            Some(x) => Map::empty().insert(
                "category"@,
                crate::commands::listing::eq_int_view(x.api_value() as i64),
            ),
            None => Map::empty(),
        };
        let c2 = match args.tag {
            Some(t) => c1.insert("tags"@, crate::commands::listing::eq_str_view(t@)),
            None => c1,
        };
        let c3 = if args.builtin {
            c2.insert("builtIn"@, crate::commands::listing::eq_bool_view(true))
        } else {
            c2
        };
        Ok(
            if args.custom {
                c3.insert("builtIn"@, crate::commands::listing::eq_bool_view(false))
            } else {
                c3
            },
        )
    }
}

/// The filter that `data-enrichment list` builds from its options.
pub fn list_filter(args: &ListArgs) -> (r: Result<FilterRequest, AppError>)
    ensures
        match list_conditions(*args) {
            Ok(c) => r matches Ok(f) && f.conditions() == c && f.skip == args.skip && f.limit
                == args.limit,
            Err(m) => r matches Err(e) && e is InvalidInput && e->InvalidInput_0@ == m,
        },
        r matches Ok(f) ==> crate::models::filter::unique_keys(f.filters@),
{
    let mut filter = paging_filter(args.limit, args.skip);
    if let Some(s) = &args.category {
        match SubnetCategory::from_str_loose(s.as_str()) {
            Some(x) => {
                filter.add_filter("category", eq_int(x.to_api() as i64));
            },
            None => {
                return Err(unknown_value("category", s.as_str()));
            },
        }
    }
    if let Some(t) = &args.tag {
        filter.add_filter("tags", eq_str(t.as_str()));
    }
    if args.builtin {
        filter.add_filter("builtIn", FilterCondition::eq_bool(true));
    }
    if args.custom {
        filter.add_filter("builtIn", FilterCondition::eq_bool(false));
    }
    Ok(filter)
}

/// The text of one subnet entry: its `originalString`, else the entry itself
/// when it is a string.
pub open spec fn subnet_text(s: JsonView) -> Option<Seq<char>> {
    match crate::json::member_str(s, "originalString"@) {
        Some(o) => Some(o),
        None => crate::json::view_str(s),
    }
}

/// The texts of the subnet entries that have one, in order.
pub open spec fn subnet_texts(items: Seq<JsonView>) -> Seq<Seq<char>>
    decreases items.len(),
{
    if items.len() == 0 {
        Seq::empty()
    } else {
        match subnet_text(items.last()) {
            Some(t) => subnet_texts(items.drop_last()).push(t),
            None => subnet_texts(items.drop_last()),
        }
    }
}

/// The SUBNETS cell before truncation: the subnet texts joined with `, `, or
/// `-` when the item has no `subnets` array.
pub open spec fn subnets_cell(item: JsonView) -> Seq<char> {
    match crate::json::view_member(item, "subnets"@) {
        Some(JsonView::Array(a)) => crate::text::join_spec(subnet_texts(a), ", "@),
        _ => "-"@,
    }
}

fn subnets_of(item: &JsonValue) -> (r: String)
    ensures
        r@ == subnets_cell(crate::json::json_view(*item)),
{
    let arr = match item.get("subnets") {
        Some(s) => s.as_array(),
        None => None,
    };
    match arr {
        Some(items) => {
            let ghost iv = crate::json::json_views(items@);
            proof {
                crate::json::lemma_json_views(items@);
            }
            let mut texts: Vec<String> = Vec::new();
            let mut i: usize = 0;
            while i < items.len()
                invariant
                    i <= items.len(),
                    iv == crate::json::json_views(items@),
                    iv.len() == items@.len(),
                    forall|j: int|
                        0 <= j < items@.len() ==> #[trigger] iv[j] == crate::json::json_view(
                            items@[j],
                        ),
                    texts@.map_values(|t: String| t@) == subnet_texts(iv.take(i as int)),
                decreases items.len() - i,
            {
                let ghost before = texts@;
                let it = &items[i];
                let t = match it.member_str("originalString") {
                    Some(o) => Some(o),
                    None => it.as_str(),
                };
                if let Some(t) = t {
                    texts.push(String::from_str(t));
                }
                proof {
                    let tk = iv.take(i + 1);
                    assert(tk.drop_last() =~= iv.take(i as int));
                    assert(tk.last() == crate::json::json_view(items@[i as int]));
                    if t is Some {
                        assert(texts@.map_values(|x: String| x@) =~= before.map_values(
                            |x: String| x@,
                        ).push(t->Some_0@));
                    } else {
                        assert(texts@ == before);
                    }
                }
                i = i + 1;
            }
            proof {
                assert(iv.take(items.len() as int) =~= iv);
            }
            join(&texts, ", ")
        },
        None => String::from_str("-"),
    }
}

/// The CATEGORY cell: the label of `category`, or `-`.
pub open spec fn category_cell(item: JsonView) -> Seq<char> {
    match crate::commands::listing::member_i32(item, "category"@) {
        Some(v) => match SubnetCategory::of_api(v) {
            Some(s) => s.label(),
            None => "-"@,
        },
        None => "-"@,
    }
}

/// The column widths of the IP-range table.
pub open spec fn widths() -> Seq<nat> {
    seq![20nat, 25nat, 30nat, 16nat, 20nat]
}

/// The header of the IP-range table.
pub open spec fn header_text() -> Seq<char> {
    crate::output::table::row_text(
        seq!["ID"@, "NAME"@, "SUBNETS"@, "CATEGORY"@, "ORGANIZATION"@],
        widths(),
    )
}

/// The row of one IP range; `None` where a truncated cell would be cut inside
/// a character.
pub open spec fn row_text(item: JsonView) -> Option<Seq<char>> {
    let id = crate::commands::listing::str_cell(item, "_id"@);
    let name = crate::commands::listing::str_cell(item, "name"@);
    let subnets = subnets_cell(item);
    let org = crate::commands::listing::str_cell(item, "organization"@);
    if crate::output::table::truncatable(id, 18) && crate::output::table::truncatable(name, 23)
        && crate::output::table::truncatable(subnets, 28) && crate::output::table::truncatable(
        org,
        18,
    ) {
        Some(
            crate::output::table::row_text(
                seq![
                    crate::output::table::truncate_spec(id, 18),
                    crate::output::table::truncate_spec(name, 23),
                    crate::output::table::truncate_spec(subnets, 28),
                    category_cell(item),
                    crate::output::table::truncate_spec(org, 18),
                ],
                widths(),
            ),
        )
    } else {
        None
    }
}

/// The items that the table lists: the `data` array of the response, else
/// the response itself when it is an array.
pub open spec fn table_items(value: JsonView) -> Option<Seq<JsonView>> {
    match crate::commands::listing::data_items(value) {
        Some(items) => Some(items),
        None => match value {
            JsonView::Array(items) => Some(items),
            _ => None,
        },
    }
}

fn width_vec() -> (r: Vec<usize>)
    ensures
        r@.map_values(|w: usize| w as nat) == widths(),
{
    let r = vec![20usize, 25, 30, 16, 20];
    assert(r@.map_values(|w: usize| w as nat) =~= widths());
    r
}

/// The header line of the IP-range table.
pub fn header() -> (r: String)
    ensures
        r@ == header_text(),
{
    let cells = cells5(
        String::from_str("ID"),
        String::from_str("NAME"),
        String::from_str("SUBNETS"),
        String::from_str("CATEGORY"),
        String::from_str("ORGANIZATION"),
    );
    table_row(&cells, &width_vec())
}

/// The row of one IP range.
pub fn row(item: &JsonValue) -> (r: Option<String>)
    ensures
        crate::commands::listing::opt_text(r) == row_text(crate::json::json_view(*item)),
{
    let id = match try_truncate(str_cell_of(item, "_id"), 18) {
        Some(t) => t,
        None => {
            return None;
        },
    };
    let name = match try_truncate(str_cell_of(item, "name"), 23) {
        Some(t) => t,
        None => {
            return None;
        },
    };
    let all_subnets = subnets_of(item);
    let subnets = match try_truncate(all_subnets.as_str(), 28) {
        Some(t) => t,
        None => {
            return None;
        },
    };
    let category = match member_i32_of(item, "category") {
        Some(v) => match SubnetCategory::from_api(v) {
            Some(s) => s.as_str(),
            None => "-",
        },
        None => "-",
    };
    let org = match try_truncate(str_cell_of(item, "organization"), 18) {
        Some(t) => t,
        None => {
            return None;
        },
    };
    let cells = cells5(id, name, subnets, String::from_str(category), org);
    Some(table_row(&cells, &width_vec()))
}

/// The lines of the IP-range table of a response.
pub fn table(value: &JsonValue) -> (r: Vec<Option<String>>)
    ensures
        r@.map_values(|l: Option<String>| crate::commands::listing::opt_text(l))
            == crate::commands::listing::table_lines(
            header_text(),
            table_items(crate::json::json_view(*value)),
            |i: JsonView| row_text(i),
        ),
{
    let items = match crate::commands::listing::data_array(value) {
        Some(d) => Some(d),
        None => value.as_array(),
    };
    crate::commands::listing::table_of(header(), items, row, Ghost(|i: JsonView| row_text(i)))
}

/// A comma-separated option as a JSON array of its trimmed pieces.
pub open spec fn pieces_view(s: Seq<char>) -> JsonView {
    JsonView::Array(
        crate::text::split_spec(s, ',').map_values(
            |p: Seq<char>| JsonView::Str(crate::text::trim_spec(p)),
        ),
    )
}

fn pieces(s: &str) -> (r: JsonValue)
    ensures
        crate::json::json_view(r) == pieces_view(s@),
{
    let parts = split_trimmed(s, ',');
    let ghost pv = parts@.map_values(|p: String| p@);
    let mut items: Vec<JsonValue> = Vec::new();
    let mut i: usize = 0;
    while i < parts.len()
        invariant
            i <= parts.len(),
            pv == parts@.map_values(|p: String| p@),
            crate::json::json_views(items@) == pv.take(i as int).map_values(
                |p: Seq<char>| JsonView::Str(p),
            ),
        decreases parts.len() - i,
    {
        let ghost before = items@;
        items.push(JsonValue::string(parts[i].as_str()));
        proof {
            assert(items@.drop_last() =~= before);
            assert(pv.take(i + 1).map_values(|p: Seq<char>| JsonView::Str(p)) =~= pv.take(
                i as int,
            ).map_values(|p: Seq<char>| JsonView::Str(p)).push(JsonView::Str(pv[i as int])));
        }
        i = i + 1;
    }
    proof {
        assert(pv.take(parts.len() as int) =~= pv);
        assert(pv.map_values(|p: Seq<char>| JsonView::Str(p)) =~= crate::text::split_spec(
            s@,
            ',',
        ).map_values(|p: Seq<char>| JsonView::Str(crate::text::trim_spec(p))));
    }
    JsonValue::Array(items)
}

/// The API path that creates an IP range.
pub fn create_path() -> (r: &'static str)
    ensures
        r@ == "/api/subnet/create_rule/"@,
{
    "/api/subnet/create_rule/"
}

/// The body of `data-enrichment create`.
pub open spec fn create_body_view(args: CreateArgs, category: SubnetCategory) -> JsonView {
    JsonView::Object(
        seq![
            ("name"@, JsonView::Str(args.name@)),
            ("subnets"@, pieces_view(args.subnets@)),
            ("category"@, JsonView::Int(category.api_value() as i64)),
            ("organization"@, match args.organization {
                Some(o) => JsonView::Str(o@),
                None => JsonView::Null,
            }),
            ("tags"@, match args.tags {
                Some(t) => pieces_view(t@),
                None => JsonView::Null,
            }),
        ],
    )
}

/// The body of `data-enrichment create`, or the error for an unknown category.
pub fn create_body(args: &CreateArgs) -> (r: Result<JsonValue, AppError>)
    ensures
        match SubnetCategory::of_lowercase(crate::text::unicode_lowercase(args.category@)) {
            Some(c) => r matches Ok(b) && crate::json::json_view(b) == create_body_view(*args, c),
            None => r matches Err(e) && e is InvalidInput && e->InvalidInput_0@
                == crate::commands::listing::unknown_text("category"@, args.category@),
        },
{
    let category = match SubnetCategory::from_str_loose(args.category.as_str()) {
        Some(c) => c,
        None => {
            return Err(unknown_value("category", args.category.as_str()));
        },
    };
    let name = JsonValue::string(args.name.as_str());
    let subnets = pieces(args.subnets.as_str());
    let cat = JsonValue::Int(category.to_api() as i64);
    let org = match &args.organization {
        Some(o) => JsonValue::string(o.as_str()),
        None => JsonValue::Null,
    };
    let tags = match &args.tags {
        Some(t) => pieces(t.as_str()),
        None => JsonValue::Null,
    };
    let ghost vs = seq![
        ("name"@, crate::json::json_view(name)),
        ("subnets"@, crate::json::json_view(subnets)),
        ("category"@, crate::json::json_view(cat)),
        ("organization"@, crate::json::json_view(org)),
        ("tags"@, crate::json::json_view(tags)),
    ];
    let mut m: Vec<(String, JsonValue)> = Vec::new();
    m.push((String::from_str("name"), name));
    m.push((String::from_str("subnets"), subnets));
    m.push((String::from_str("category"), cat));
    m.push((String::from_str("organization"), org));
    m.push((String::from_str("tags"), tags));
    proof {
        crate::json::lemma_member_views(m@);
        assert(crate::json::member_views(m@) =~= vs);
        assert(vs[3].1 == match args.organization {
            Some(o) => JsonView::Str(o@),
            None => JsonView::Null,
        });
        assert(vs[4].1 == match args.tags {
            Some(t) => pieces_view(t@),
            None => JsonView::Null,
        });
        assert(vs =~= create_body_view(*args, category)->Object_0);
    }
    Ok(JsonValue::Object(m))
}

/// The members of the body of `data-enrichment update`, in the order they are
/// set: name, subnets, category, organization, each only when given.
pub open spec fn update_members(args: UpdateArgs, category: Option<SubnetCategory>) -> Seq<
    (Seq<char>, JsonView),
> {
    let m1 = match args.name {
        Some(n) => seq![("name"@, JsonView::Str(n@))],
        None => Seq::empty(),
    };
    let m2 = match args.subnets {
        Some(s) => m1.push(("subnets"@, pieces_view(s@))),
        None => m1,
    };
    let m3 = match category {
        Some(c) => m2.push(("category"@, JsonView::Int(c.api_value() as i64))),
        None => m2,
    };
    match args.organization {
        Some(o) => m3.push(("organization"@, JsonView::Str(o@))),
        None => m3,
    }
}

/// The path and body of `data-enrichment update`, or the error for an unknown
/// category.
pub fn update_request(args: &UpdateArgs) -> (r: Result<(String, JsonValue), AppError>)
    ensures
        ({
            let cat = match args.category {
                Some(s) => SubnetCategory::of_lowercase(crate::text::unicode_lowercase(s@)),
                None => None,
            };
            if args.category is Some && cat is None {
                r matches Err(e) && e is InvalidInput && e->InvalidInput_0@
                    == crate::commands::listing::unknown_text("category"@, args.category->Some_0@)
            } else {
                r matches Ok((path, body)) && path@ == "/api/subnet/"@ + args.id@
                    + "/update_rule/"@ && crate::json::json_view(body) == JsonView::Object(
                    update_members(*args, cat),
                )
            }
        }),
{
    let mut cat: Option<SubnetCategory> = None;
    if let Some(s) = &args.category {
        match SubnetCategory::from_str_loose(s.as_str()) {
            Some(c) => {
                cat = Some(c);
            },
            None => {
                return Err(unknown_value("category", s.as_str()));
            },
        }
    }
    let mut m: Vec<(String, JsonValue)> = Vec::new();
    let ghost mut want: Seq<(Seq<char>, JsonView)> = Seq::empty();
    if let Some(n) = &args.name {
        m.push((String::from_str("name"), JsonValue::string(n.as_str())));
        proof {
            want = want.push(("name"@, JsonView::Str(n@)));
        }
    }
    if let Some(s) = &args.subnets {
        let p = pieces(s.as_str());
        m.push((String::from_str("subnets"), p));
        proof {
            want = want.push(("subnets"@, pieces_view(s@)));
        }
    }
    if let Some(c) = cat {
        m.push((String::from_str("category"), JsonValue::Int(c.to_api() as i64)));
        proof {
            want = want.push(("category"@, JsonView::Int(c.api_value() as i64)));
        }
    }
    if let Some(o) = &args.organization {
        m.push((String::from_str("organization"), JsonValue::string(o.as_str())));
        proof {
            want = want.push(("organization"@, JsonView::Str(o@)));
        }
    }
    proof {
        crate::json::lemma_member_views(m@);
        assert(crate::json::member_views(m@).len() == want.len());
        assert(want =~= update_members(*args, cat));
        assert(crate::json::member_views(m@) =~= want);
    }
    let path = join_path("/api/subnet/", args.id.as_str(), "/update_rule/");
    Ok((path, JsonValue::Object(m)))
}

/// The path of `data-enrichment delete` and the message it prints.
pub fn delete_step(id: &str) -> (r: (String, String))
    ensures
        r.0@ == "/api/subnet/"@ + id@ + "/"@,
        r.1@ == "Deleted IP range "@ + id@,
{
    let path = join_path("/api/subnet/", id, "/");
    let mut m = String::from_str("Deleted IP range ");
    m.append(id);
    (path, m)
}

} // verus!
