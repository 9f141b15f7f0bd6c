//! Cell formatting for table output.

use vstd::prelude::*;
use vstd::string::*;

verus! {

/// The `(seconds, nanoseconds)` pair of an epoch-milliseconds value: whole
/// seconds rounded down, and the milliseconds past them (0 to 999) as
/// nanoseconds, so that instants before 1970 keep their place too.
pub open spec fn timestamp_parts(ms: i64) -> (i64, u32) {
    ((ms / 1000) as i64, ((ms % 1000) * 1000000) as u32)
}

/// What chrono renders for `DateTime::<Utc>::from_timestamp(secs, nsecs)` with
/// `to_rfc3339_opts(SecondsFormat::Secs, true)`; `None` when `from_timestamp`
/// rejects the arguments.
pub uninterp spec fn chrono_rfc3339(secs: i64, nsecs: u32) -> Option<Seq<char>>;

/// `chrono::DateTime::<Utc>::from_timestamp` followed by
/// `to_rfc3339_opts(SecondsFormat::Secs, true)`. The text is named; chrono
/// documents that an invalid nanosecond part gives `None`, and a part of two
/// seconds or more is invalid in every case.
#[verifier::external_body]
fn rfc3339_utc(secs: i64, nsecs: u32) -> (r: Option<String>)
    ensures
        match r {
            Some(s) => chrono_rfc3339(secs, nsecs) == Some(s@),
            None => chrono_rfc3339(secs, nsecs) is None,
        },
        nsecs >= 2_000_000_000 ==> r is None,
{
    match chrono::DateTime::<chrono::Utc>::from_timestamp(secs, nsecs) {
        Some(dt) => Some(dt.to_rfc3339_opts(chrono::SecondsFormat::Secs, true)),
        None => None,
    }
}

/// The text of a timestamp cell.
pub open spec fn timestamp_text(epoch_ms: Option<i64>) -> Seq<char> {
    match epoch_ms {
        None => "-"@,
        Some(ms) => match chrono_rfc3339(timestamp_parts(ms).0, timestamp_parts(ms).1) {
            Some(t) => t,
            None => "INVALID"@,
        },
    }
}

/// The cell text of what chrono rendered: the text, or `INVALID` when chrono
/// rejected the timestamp.
pub fn rendered_or_invalid(rendered: Option<String>) -> (r: String)
    ensures
        r@ == match rendered {
            Some(t) => t@,
            None => "INVALID"@,
        },
{
    match rendered {
        Some(t) => t,
        None => String::from_str("INVALID"),
    }
}

/// Convert epoch milliseconds to an ISO 8601 (RFC 3339, UTC, whole seconds)
/// string; `-` when there is no timestamp and `INVALID` when chrono rejects it.
pub fn format_timestamp(epoch_ms: Option<i64>) -> (r: String)
    ensures
        r@ == timestamp_text(epoch_ms),
        epoch_ms matches Some(ms) ==> timestamp_parts(ms).1 < 1_000_000_000,
{
    match epoch_ms {
        Some(ms) => {
            let (secs, rem): (i64, i64) = if ms >= 0 {
                (ms / 1000, ms % 1000)
            } else {
                let m: i64 = -(ms + 1);
                let k: i64 = m / 1000;
                let j: i64 = m % 1000;
                proof {
                    assert(m == k * 1000 + j);
                    assert(ms == (-k - 1) * 1000 + (999 - j));
                    vstd::arithmetic::div_mod::lemma_fundamental_div_mod_converse(
                        ms as int,
                        1000,
                        -k - 1,
                        999 - j,
                    );
                }
                (-k - 1, 999 - j)
            };
            assert(secs == ms / 1000 && rem == ms % 1000);
            let nsecs: u32 = (rem * 1000000) as u32;
            rendered_or_invalid(rfc3339_utc(secs, nsecs))
        },
        None => String::from_str("-"),
    }
}

} // verus!

verus! {

/// Where `truncate` cuts a string whose UTF-8 length exceeds `max_len`.
pub open spec fn truncate_cut(max_len: nat) -> nat {
    if max_len > 3 {
        (max_len - 3) as nat
    } else {
        max_len
    }
}

/// The text of a truncated cell: the string itself when its UTF-8 length is at
/// most `max_len`; otherwise its first `max_len - 3` bytes followed by `...`,
/// or, when `max_len` is 3 or less, its first `max_len` bytes.
pub open spec fn truncate_spec(s: Seq<char>, max_len: nat) -> Seq<char> {
    let b = vstd::utf8::encode_utf8(s);
    if b.len() <= max_len {
        s
    } else if max_len > 3 {
        vstd::utf8::decode_utf8(b.subrange(0, truncate_cut(max_len) as int)) + "..."@
    } else {
        vstd::utf8::decode_utf8(b.subrange(0, truncate_cut(max_len) as int))
    }
}

/// Truncate a string to `max_len` bytes, appending `...` if truncated. The cut
/// must fall on a character boundary.
pub fn truncate(s: &str, max_len: usize) -> (r: String)
    requires
        s.spec_bytes().len() > max_len ==> vstd::utf8::is_char_boundary(
            s.spec_bytes(),
            truncate_cut(max_len as nat) as int,
        ),
    ensures
        r@ == truncate_spec(s@, max_len as nat),
        s.spec_bytes().len() > max_len && max_len > 3 ==> vstd::utf8::encode_utf8(r@)
            =~= s.spec_bytes().subrange(0, max_len - 3) + vstd::utf8::encode_utf8("..."@),
{
    broadcast use vstd::utf8::encode_utf8_valid_utf8;

    let byte_len = s.as_bytes().len();
    if byte_len <= max_len {
        String::from_str(s)
    } else if max_len > 3 {
        let (head, _) = s.split_at(max_len - 3);
        proof {
            vstd::utf8::encode_utf8_decode_utf8(head@);
            lemma_encode_utf8_concat(head@, "..."@);
        }
        let mut r = String::from_str(head);
        r.append("...");
        r
    } else {
        let (head, _) = s.split_at(max_len);
        proof {
            vstd::utf8::encode_utf8_decode_utf8(head@);
        }
        String::from_str(head)
    }
}

/// The UTF-8 encoding of a concatenation is the concatenation of the encodings.
pub proof fn lemma_encode_utf8_concat(a: Seq<char>, b: Seq<char>)
    ensures
        vstd::utf8::encode_utf8(a + b) == vstd::utf8::encode_utf8(a) + vstd::utf8::encode_utf8(b),
    decreases a.len(),
{
    if a.len() == 0 {
        assert(a + b =~= b);
        assert(vstd::utf8::encode_utf8(a) =~= Seq::<u8>::empty());
        assert(vstd::utf8::encode_utf8(a) + vstd::utf8::encode_utf8(b) =~= vstd::utf8::encode_utf8(b));
    } else {
        lemma_encode_utf8_concat(a.drop_first(), b);
        assert((a + b).drop_first() =~= a.drop_first() + b);
        assert((a + b)[0] == a[0]);
        reveal_with_fuel(vstd::utf8::encode_utf8, 2);
        assert(vstd::utf8::encode_utf8(a + b) =~= vstd::utf8::encode_utf8(a) + vstd::utf8::encode_utf8(b));
    }
}

} // verus!

verus! {

/// Whether `truncate(s, max_len)` can cut `s` without splitting a character.
pub open spec fn truncatable(s: Seq<char>, max_len: nat) -> bool {
    let b = vstd::utf8::encode_utf8(s);
    b.len() <= max_len || vstd::utf8::is_char_boundary(b, truncate_cut(max_len) as int)
}

/// `truncate` on any string: `None` exactly where the cut would split a
/// character (where slicing the string would panic).
pub fn try_truncate(s: &str, max_len: usize) -> (r: Option<String>)
    ensures
        match r {
            Some(t) => truncatable(s@, max_len as nat) && t@ == truncate_spec(s@, max_len as nat),
            None => !truncatable(s@, max_len as nat),
        },
{
    let n = s.as_bytes().len();
    if n <= max_len {
        return Some(truncate(s, max_len));
    }
    let cut = if max_len > 3 {
        max_len - 3
    } else {
        max_len
    };
    if s.is_char_boundary(cut) {
        Some(truncate(s, max_len))
    } else {
        None
    }
}

/// A table row: each cell left-aligned in its column width, the columns
/// separated by one space (`"{:<w1} {:<w2} ..."`).
pub open spec fn row_text(cells: Seq<Seq<char>>, widths: Seq<nat>) -> Seq<char>
    decreases cells.len(),
{
    if cells.len() == 0 {
        Seq::empty()
    } else if cells.len() == 1 {
        crate::text::pad_right_spec(cells[0], widths[0])
    } else {
        row_text(cells.drop_last(), widths.drop_last()) + " "@ + crate::text::pad_right_spec(
            cells.last(),
            widths.last(),
        )
    }
}

/// The row of `cells` in columns of `widths`.
pub fn table_row(cells: &Vec<String>, widths: &Vec<usize>) -> (r: String)
    requires
        cells.len() == widths.len(),
    ensures
        r@ == row_text(cells@.map_values(|c: String| c@), widths@.map_values(|w: usize| w as nat)),
{
    let ghost cs = cells@.map_values(|c: String| c@);
    let ghost ws = widths@.map_values(|w: usize| w as nat);
    let mut r = String::new();
    let mut i: usize = 0;
    while i < cells.len()
        invariant
            i <= cells.len(),
            cells.len() == widths.len(),
            cs == cells@.map_values(|c: String| c@),
            ws == widths@.map_values(|w: usize| w as nat),
            r@ == row_text(cs.take(i as int), ws.take(i as int)),
        decreases cells.len() - i,
    {
        let ghost before = r@;
        if i > 0 {
            r.append(" ");
        }
        let padded = crate::text::pad_right(cells[i].as_str(), widths[i]);
        r.append(padded.as_str());
        proof {
            reveal_strlit(" ");
            let c2 = cs.take(i + 1);
            let w2 = ws.take(i + 1);
            assert(c2.drop_last() =~= cs.take(i as int));
            assert(w2.drop_last() =~= ws.take(i as int));
            assert(c2.last() == cells@[i as int]@);
            assert(w2.last() == widths@[i as int] as nat);
            if i == 0 {
                assert(before =~= Seq::<char>::empty());
                assert(r@ =~= row_text(c2, w2));
            } else {
                assert(r@ =~= row_text(c2, w2));
            }
        }
        i = i + 1;
    }
    proof {
        assert(cs.take(cells.len() as int) =~= cs);
        assert(ws.take(cells.len() as int) =~= ws);
    }
    r
}

} // verus!

verus! {

/// Table law: a truncated cell never takes more bytes than its limit allows:
/// at most `max_len` bytes, or exactly `max_len` with the `...` when the
/// limit is above 3.
pub proof fn truncated_cell_fits(s: Seq<char>, max_len: nat)
    requires
        truncatable(s, max_len),
    ensures
        vstd::utf8::encode_utf8(truncate_spec(s, max_len)).len() <= max_len,
        vstd::utf8::encode_utf8(s).len() > max_len && max_len > 3 ==> vstd::utf8::encode_utf8(
            truncate_spec(s, max_len),
        ).len() == max_len,
{
    let b = vstd::utf8::encode_utf8(s);
    if b.len() > max_len {
        let cut = truncate_cut(max_len) as int;
        vstd::utf8::encode_utf8_valid_utf8(s);
        vstd::utf8::valid_utf8_split(b, cut);
        let head = b.subrange(0, cut);
        vstd::utf8::decode_utf8_encode_utf8(head);
        if max_len > 3 {
            reveal_strlit("...");
            lemma_encode_utf8_concat(vstd::utf8::decode_utf8(head), "..."@);
            assert(vstd::utf8::encode_utf8("..."@).len() == 3) by {
                reveal_with_fuel(vstd::utf8::encode_utf8, 4);
            }
        }
    }
}

} // verus!
