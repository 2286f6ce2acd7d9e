//! Human-readable formatting at the engine's boundary: byte counts scaled
//! to binary units, shortened filesystem paths, and the log rendering of a
//! settings value.

use vstd::prelude::*;

use crate::text::{dec_digits, digit_char, digit_to_char, push_char, u64_to_string};
use crate::value::SettingsValue;

verus! {

/// Bytes in one kibibyte.
pub const KB: u64 = 1024;

/// Bytes in one mebibyte.
pub const MB: u64 = 1024 * 1024;

/// Bytes in one gibibyte.
pub const GB: u64 = 1024 * 1024 * 1024;

/// Bytes in one tebibyte.
pub const TB: u64 = 1024 * 1024 * 1024 * 1024;

/// A byte count scaled to a unit, in hundredths, rounded half up.
pub open spec fn scaled_centi(bytes: nat, unit: nat) -> nat
    recommends
        unit > 0,
{
    (bytes * 100 + unit / 2) / unit
}

/// A scaled count rendered with two decimal places.
pub open spec fn scaled_digits(c: nat) -> Seq<char> {
    dec_digits(c / 100) + seq!['.', digit_char((c / 10) % 10), digit_char(c % 10)]
}

/// The rendering of a byte count: scaled to the largest fitting binary
/// unit with two decimal places, or the plain count below one kibibyte.
pub open spec fn format_bytes_view(bytes: u64) -> Seq<char> {
    if bytes >= TB {
        scaled_digits(scaled_centi(bytes as nat, TB as nat)) + " TB"@
    } else if bytes >= GB {
        scaled_digits(scaled_centi(bytes as nat, GB as nat)) + " GB"@
    } else if bytes >= MB {
        scaled_digits(scaled_centi(bytes as nat, MB as nat)) + " MB"@
    } else if bytes >= KB {
        scaled_digits(scaled_centi(bytes as nat, KB as nat)) + " KB"@
    } else {
        dec_digits(bytes as nat) + " B"@
    }
}

/// Renders a byte count for display, scaling to B, KB, MB, GB or TB.
pub fn format_bytes(bytes: u64) -> (r: String)
    ensures
        r@ == format_bytes_view(bytes),
{
    if bytes >= TB {
        scaled_string(bytes, TB, " TB")
    } else if bytes >= GB {
        scaled_string(bytes, GB, " GB")
    } else if bytes >= MB {
        scaled_string(bytes, MB, " MB")
    } else if bytes >= KB {
        scaled_string(bytes, KB, " KB")
    } else {
        let mut s = u64_to_string(bytes);
        s.append(" B");
        s
    }
}

/// Renders `bytes / unit` with two decimal places and the unit's suffix.
fn scaled_string(bytes: u64, unit: u64, suffix: &str) -> (r: String)
    requires
        unit >= 1024,
    ensures
        r@ == scaled_digits(scaled_centi(bytes as nat, unit as nat)) + suffix@,
{
    let wide: u128 = (bytes as u128) * 100 + (unit as u128) / 2;
    let scaled_wide: u128 = wide / (unit as u128);
    proof {
        assert(scaled_wide <= wide / 1024) by (nonlinear_arith)
            requires
                unit >= 1024,
                scaled_wide == wide / (unit as u128),
        ;
        assert(wide / 1024 < 0xffff_ffff_ffff_ffff) by (nonlinear_arith)
            requires
                wide <= 0xffff_ffff_ffff_ffff * 100 + 0x7fff_ffff_ffff_ffff,
        ;
        assert(scaled_wide == scaled_centi(bytes as nat, unit as nat));
    }
    let scaled: u64 = scaled_wide as u64;
    let mut s = u64_to_string(scaled / 100);
    push_char(&mut s, '.');
    push_char(&mut s, digit_to_char(((scaled / 10) % 10) as u8));
    push_char(&mut s, digit_to_char((scaled % 10) as u8));
    s.append(suffix);
    proof {
        assert(s@ =~= scaled_digits(scaled_centi(bytes as nat, unit as nat)) + suffix@);
    }
    s
}

/// Path segments joined with the host separator.
pub open spec fn joined_segments(parts: Seq<Seq<char>>) -> Seq<char>
    decreases parts,
{
    if parts.len() == 0 {
        Seq::empty()
    } else if parts.len() == 1 {
        parts[0]
    } else {
        joined_segments(parts.drop_last()) + seq!['\\'] + parts.last()
    }
}

/// The shortened rendering of a path's named segments: the full join when
/// the path is shallow enough, otherwise an ellipsis marker followed by the
/// last `max_segments` segments.
pub open spec fn short_path_view(parts: Seq<Seq<char>>, max_segments: int) -> Seq<char> {
    if parts.len() <= max_segments {
        joined_segments(parts)
    } else {
        "…\\"@ + joined_segments(parts.skip(parts.len() - max_segments))
    }
}

/// Shortens a path, given its named segments in order: a path deeper than
/// `max_segments` collapses to an ellipsis and its last segments.
pub fn short_path(segments: &Vec<String>, max_segments: usize) -> (r: String)
    ensures
        r@ == short_path_view(segments.deep_view(), max_segments as int),
{
    let ghost parts = segments.deep_view();
    if segments.len() <= max_segments {
        let r = join_segments(segments, 0);
        proof {
            assert(parts.skip(0) =~= parts);
        }
        r
    } else {
        let start = segments.len() - max_segments;
        let mut r = "…\\".to_owned();
        let tail = join_segments(segments, start);
        r.append(tail.as_str());
        r
    }
}

/// Joins the segments from `start` on with the host separator.
fn join_segments(segments: &Vec<String>, start: usize) -> (r: String)
    requires
        start <= segments@.len(),
    ensures
        r@ == joined_segments(segments.deep_view().skip(start as int)),
{
    let ghost parts = segments.deep_view().skip(start as int);
    let mut s = String::new();
    let mut i: usize = start;
    while i < segments.len()
        invariant
            start <= i <= segments@.len(),
            parts == segments.deep_view().skip(start as int),
            s@ == joined_segments(parts.take(i - start)),
        decreases segments@.len() - i,
    {
        if i > start {
            push_char(&mut s, '\\');
        }
        s.append(segments[i].as_str());
        proof {
            let k = i - start;
            assert(parts.take(k + 1).drop_last() =~= parts.take(k as int));
            assert(parts.take(k + 1).last() == parts[k as int]);
            assert(parts[k as int] == segments.deep_view()[i as int]);
            if k == 0 {
                assert(s@ =~= joined_segments(parts.take(k + 1)));
            } else {
                assert(s@ =~= joined_segments(parts.take(k + 1)));
            }
        }
        i += 1;
    }
    proof {
        assert(parts.take(parts.len() as int) =~= parts);
    }
    s
}

/// The escape of one character inside a rendered text value.
pub open spec fn escape_char(c: char) -> Seq<char> {
    if c == '"' {
        seq!['\\', '"']
    } else if c == '\\' {
        seq!['\\', '\\']
    } else if c == '\n' {
        seq!['\\', 'n']
    } else if c == '\r' {
        seq!['\\', 'r']
    } else if c == '\t' {
        seq!['\\', 't']
    } else if c == '\u{8}' {
        seq!['\\', 'b']
    } else if c == '\u{c}' {
        seq!['\\', 'f']
    } else if (c as u32) < 0x20 {
        seq!['\\', 'u', '0', '0', crate::text::hex_digit_char((c as u32 / 16) as nat),
            crate::text::hex_digit_char((c as u32 % 16) as nat)]
    } else {
        seq![c]
    }
}

/// A text value with every character escaped.
pub open spec fn escape_seq(s: Seq<char>) -> Seq<char>
    decreases s,
{
    if s.len() == 0 {
        Seq::empty()
    } else {
        escape_seq(s.drop_last()) + escape_char(s.last())
    }
}

/// Appends the escaped form of `text` to `out`.
fn append_escaped(out: &mut String, text: &str)
    ensures
        final(out)@ == old(out)@ + escape_seq(text@),
{
    let len = text.unicode_len();
    let mut i: usize = 0;
    while i < len
        invariant
            len == text@.len(),
            i <= len,
            out@ == old(out)@ + escape_seq(text@.take(i as int)),
        decreases len - i,
    {
        let c = text.get_char(i);
        if c == '"' {
            out.append("\\\"");
        } else if c == '\\' {
            out.append("\\\\");
        } else if c == '\n' {
            out.append("\\n");
        } else if c == '\r' {
            out.append("\\r");
        } else if c == '\t' {
            out.append("\\t");
        } else if c == '\u{8}' {
            out.append("\\b");
        } else if c == '\u{c}' {
            out.append("\\f");
        } else if (c as u32) < 0x20 {
            out.append("\\u00");
            push_char(out, crate::text::hex_digit_to_char((c as u32 / 16) as u8));
            push_char(out, crate::text::hex_digit_to_char((c as u32 % 16) as u8));
        } else {
            push_char(out, c);
        }
        proof {
            assert(text@.take(i + 1).drop_last() =~= text@.take(i as int));
            assert(text@.take(i + 1).last() == text@[i as int]);
            reveal_strlit("\\\"");
            reveal_strlit("\\\\");
            reveal_strlit("\\n");
            reveal_strlit("\\r");
            reveal_strlit("\\t");
            reveal_strlit("\\b");
            reveal_strlit("\\f");
            reveal_strlit("\\u00");
            assert(out@ =~= old(out)@ + escape_seq(text@.take(i + 1)));
        }
        i += 1;
    }
    proof {
        assert(text@.take(text@.len() as int) =~= text@);
    }
}

/// The structured rendering of a value, with the given leading indentation
/// carried down one object or array level at a time.
pub open spec fn pretty_view(v: SettingsValue, ind: Seq<char>) -> Seq<char>
    decreases v,
{
    match v {
        SettingsValue::Null => "null"@,
        SettingsValue::Bool(b) => if b {
            "true"@
        } else {
            "false"@
        },
        SettingsValue::Num(s) => s@,
        SettingsValue::Text(s) => seq!['"'] + escape_seq(s@) + seq!['"'],
        SettingsValue::Arr(items) => if items@.len() == 0 {
            "[]"@
        } else {
            "[\n"@ + pretty_items(items@, ind + "  "@) + seq!['\n'] + ind + seq![']']
        },
        SettingsValue::Obj(pairs) => if pairs@.len() == 0 {
            "{}"@
        } else {
            "{\n"@ + pretty_pairs(pairs@, ind + "  "@) + seq!['\n'] + ind + seq!['}']
        },
    }
}

/// The lines of an array's items, separated by commas.
pub open spec fn pretty_items(items: Seq<SettingsValue>, ind: Seq<char>) -> Seq<char>
    decreases items,
{
    if items.len() == 0 {
        Seq::empty()
    } else if items.len() == 1 {
        ind + pretty_view(items[0], ind)
    } else {
        pretty_items(items.drop_last(), ind) + ",\n"@ + ind + pretty_view(items.last(), ind)
    }
}

/// The lines of an object's pairs, separated by commas.
pub open spec fn pretty_pairs(pairs: Seq<(String, SettingsValue)>, ind: Seq<char>) -> Seq<char>
    decreases pairs,
{
    if pairs.len() == 0 {
        Seq::empty()
    } else if pairs.len() == 1 {
        ind + seq!['"'] + escape_seq(pairs[0].0@) + "\": "@ + pretty_view(pairs[0].1, ind)
    } else {
        pretty_pairs(pairs.drop_last(), ind) + ",\n"@ + ind + seq!['"'] + escape_seq(
            pairs.last().0@,
        ) + "\": "@ + pretty_view(pairs.last().1, ind)
    }
}

/// Renders a value as structured multi-line text.
pub fn pretty_value(v: &SettingsValue, ind: &str) -> (r: String)
    ensures
        r@ == pretty_view(*v, ind@),
    decreases *v,
{
    match v {
        SettingsValue::Null => "null".to_owned(),
        SettingsValue::Bool(b) => if *b {
            "true".to_owned()
        } else {
            "false".to_owned()
        },
        SettingsValue::Num(s) => s.clone(),
        SettingsValue::Text(s) => {
            let mut out = "\"".to_owned();
            append_escaped(&mut out, s.as_str());
            out.append("\"");
            proof {
                reveal_strlit("\"");
                assert(out@ =~= pretty_view(*v, ind@));
            }
            out
        },
        SettingsValue::Arr(items) => {
            if items.len() == 0 {
                "[]".to_owned()
            } else {
                let mut child_ind = ind.to_owned();
                child_ind.append("  ");
                let mut out = "[\n".to_owned();
                let body = pretty_items_exec(items, child_ind.as_str());
                out.append(body.as_str());
                push_char(&mut out, '\n');
                out.append(ind);
                push_char(&mut out, ']');
                proof {
                    assert(out@ =~= pretty_view(*v, ind@));
                }
                out
            }
        },
        SettingsValue::Obj(pairs) => {
            if pairs.len() == 0 {
                "{}".to_owned()
            } else {
                let mut child_ind = ind.to_owned();
                child_ind.append("  ");
                let mut out = "{\n".to_owned();
                let body = pretty_pairs_exec(pairs, child_ind.as_str());
                out.append(body.as_str());
                push_char(&mut out, '\n');
                out.append(ind);
                push_char(&mut out, '}');
                proof {
                    assert(out@ =~= pretty_view(*v, ind@));
                }
                out
            }
        },
    }
}

/// Renders an array's items, one line each.
fn pretty_items_exec(items: &Vec<SettingsValue>, ind: &str) -> (r: String)
    requires
        items@.len() > 0,
    ensures
        r@ == pretty_items(items@, ind@),
    decreases *items,
{
    let mut out = String::new();
    let mut i: usize = 0;
    while i < items.len()
        invariant
            i <= items@.len(),
            items@.len() > 0,
            out@ == pretty_items(items@.take(i as int), ind@),
        decreases items@.len() - i,
    {
        if i > 0 {
            out.append(",\n");
        }
        out.append(ind);
        proof {
            assert(decreases_to!(*items => items@[i as int]));
        }
        let line = pretty_value(&items[i], ind);
        out.append(line.as_str());
        proof {
            assert(items@.take(i + 1).drop_last() =~= items@.take(i as int));
            assert(items@.take(i + 1).last() == items@[i as int]);
            reveal_strlit(",\n");
            assert(out@ =~= pretty_items(items@.take(i + 1), ind@));
        }
        i += 1;
    }
    proof {
        assert(items@.take(items@.len() as int) =~= items@);
    }
    out
}

/// Renders an object's pairs, one line each.
fn pretty_pairs_exec(pairs: &Vec<(String, SettingsValue)>, ind: &str) -> (r: String)
    requires
        pairs@.len() > 0,
    ensures
        r@ == pretty_pairs(pairs@, ind@),
    decreases *pairs,
{
    let mut out = String::new();
    let mut i: usize = 0;
    while i < pairs.len()
        invariant
            i <= pairs@.len(),
            pairs@.len() > 0,
            out@ == pretty_pairs(pairs@.take(i as int), ind@),
        decreases pairs@.len() - i,
    {
        if i > 0 {
            out.append(",\n");
        }
        out.append(ind);
        out.append("\"");
        append_escaped(&mut out, pairs[i].0.as_str());
        out.append("\": ");
        proof {
            assert(decreases_to!(*pairs => pairs@[i as int].1));
        }
        let line = pretty_value(&pairs[i].1, ind);
        out.append(line.as_str());
        proof {
            assert(pairs@.take(i + 1).drop_last() =~= pairs@.take(i as int));
            assert(pairs@.take(i + 1).last() == pairs@[i as int]);
            reveal_strlit(",\n");
            reveal_strlit("\"");
            reveal_strlit("\": ");
            assert(out@ =~= pretty_pairs(pairs@.take(i + 1), ind@));
        }
        i += 1;
    }
    proof {
        assert(pairs@.take(pairs@.len() as int) =~= pairs@);
    }
    out
}

/// The log rendering of one resolved setting: null reads as unset, scalars
/// read literally, and structured values are rendered as indented text.
pub open spec fn format_value_view(v: SettingsValue) -> Seq<char> {
    match v {
        SettingsValue::Null => "not set"@,
        SettingsValue::Bool(b) => if b {
            "true"@
        } else {
            "false"@
        },
        SettingsValue::Num(s) => s@,
        SettingsValue::Text(s) => s@,
        SettingsValue::Arr(_) => pretty_view(v, Seq::empty()),
        SettingsValue::Obj(_) => pretty_view(v, Seq::empty()),
    }
}

/// Renders one resolved setting for the run log.
pub fn format_value(v: &SettingsValue) -> (r: String)
    ensures
        r@ == format_value_view(*v),
{
    match v {
        SettingsValue::Null => "not set".to_owned(),
        SettingsValue::Bool(b) => if *b {
            "true".to_owned()
        } else {
            "false".to_owned()
        },
        SettingsValue::Num(s) => s.clone(),
        SettingsValue::Text(s) => s.clone(),
        SettingsValue::Arr(_) => {
            let r = pretty_value(v, "");
            proof {
                reveal_strlit("");
                assert(""@ =~= Seq::<char>::empty());
            }
            r
        },
        SettingsValue::Obj(_) => {
            let r = pretty_value(v, "");
            proof {
                reveal_strlit("");
                assert(""@ =~= Seq::<char>::empty());
            }
            r
        },
    }
}

} // verus!
