//! Small verified text helpers shared by the engine: string equality and
//! decimal rendering of unsigned integers.

use vstd::prelude::*;

verus! {

/// Character-wise string equality.
pub fn str_eq(a: &str, b: &str) -> (r: bool)
    ensures
        r == (a@ == b@),
{
    let a_len = a.unicode_len();
    let b_len = b.unicode_len();
    if a_len != b_len {
        return false;
    }
    let mut i: usize = 0;
    while i < a_len
        invariant
            a_len == a@.len(),
            b_len == b@.len(),
            a_len == b_len,
            i <= a_len,
            forall|j: int| 0 <= j < i ==> a@[j] == b@[j],
        decreases a_len - i,
    {
        if a.get_char(i) != b.get_char(i) {
            return false;
        }
        i += 1;
    }
    proof {
        assert(a@ =~= b@);
    }
    true
}

/// The decimal digit characters of `n`, most significant first.
pub open spec fn dec_digits(n: nat) -> Seq<char>
    decreases n,
{
    if n < 10 {
        seq![digit_char(n)]
    } else {
        dec_digits(n / 10).push(digit_char(n % 10))
    }
}

/// The character for one decimal digit.
pub open spec fn digit_char(d: nat) -> char {
    if d == 0 {
        '0'
    } else if d == 1 {
        '1'
    } else if d == 2 {
        '2'
    } else if d == 3 {
        '3'
    } else if d == 4 {
        '4'
    } else if d == 5 {
        '5'
    } else if d == 6 {
        '6'
    } else if d == 7 {
        '7'
    } else if d == 8 {
        '8'
    } else {
        '9'
    }
}

/// Renders `n` in decimal.
pub fn u64_to_string(n: u64) -> (r: String)
    ensures
        r@ == dec_digits(n as nat),
    decreases n,
{
    if n < 10 {
        let s = match n {
            0 => "0",
            1 => "1",
            2 => "2",
            3 => "3",
            4 => "4",
            5 => "5",
            6 => "6",
            7 => "7",
            8 => "8",
            _ => "9",
        };
        proof {
            reveal_strlit("0");
            reveal_strlit("1");
            reveal_strlit("2");
            reveal_strlit("3");
            reveal_strlit("4");
            reveal_strlit("5");
            reveal_strlit("6");
            reveal_strlit("7");
            reveal_strlit("8");
            reveal_strlit("9");
        }
        s.to_owned()
    } else {
        let mut s = u64_to_string(n / 10);
        let d = digit_to_char((n % 10) as u8);
        push_char(&mut s, d);
        s
    }
}

/// The character for one decimal digit value below ten.
pub fn digit_to_char(d: u8) -> (c: char)
    requires
        d < 10,
    ensures
        c == digit_char(d as nat),
{
    match d {
        0 => '0',
        1 => '1',
        2 => '2',
        3 => '3',
        4 => '4',
        5 => '5',
        6 => '6',
        7 => '7',
        8 => '8',
        _ => '9',
    }
}

/// The character for one hexadecimal digit, in lower case.
pub open spec fn hex_digit_char(d: nat) -> char {
    if d < 10 {
        digit_char(d)
    } else if d == 10 {
        'a'
    } else if d == 11 {
        'b'
    } else if d == 12 {
        'c'
    } else if d == 13 {
        'd'
    } else if d == 14 {
        'e'
    } else {
        'f'
    }
}

/// The character for one hexadecimal digit value below sixteen.
pub fn hex_digit_to_char(d: u8) -> (c: char)
    requires
        d < 16,
    ensures
        c == hex_digit_char(d as nat),
{
    if d < 10 {
        digit_to_char(d)
    } else {
        match d {
            10 => 'a',
            11 => 'b',
            12 => 'c',
            13 => 'd',
            14 => 'e',
            _ => 'f',
        }
    }
}

/// Relies on `String::push`: appends exactly one character.
#[verifier::external_body]
pub fn push_char(s: &mut String, c: char)
    ensures
        final(s)@ == old(s)@.push(c),
{
    s.push(c);
}

/// The decimal rendering of a signed value: a minus sign ahead of the
/// digits of its magnitude.
pub open spec fn int_dec_digits(n: int) -> Seq<char> {
    if n < 0 {
        seq!['-'] + dec_digits((-n) as nat)
    } else {
        dec_digits(n as nat)
    }
}

/// Renders a signed value in decimal.
pub fn i64_to_string(n: i64) -> (r: String)
    ensures
        r@ == int_dec_digits(n as int),
{
    if n >= 0 {
        u64_to_string(n as u64)
    } else {
        let mag: u64 = ((-(n + 1)) as u64) + 1;
        let mut s = "-".to_owned();
        s.append(u64_to_string(mag).as_str());
        proof {
            reveal_strlit("-");
            assert(s@ =~= int_dec_digits(n as int));
        }
        s
    }
}

/// An ASCII whitespace character, as the engine trims it.
pub open spec fn is_ws(c: char) -> bool {
    c == ' ' || c == '\t' || c == '\n' || c == '\r'
}

/// The length of the maximal leading run of characters the predicate
/// accepts.
pub open spec fn lead_len(s: Seq<char>, p: spec_fn(char) -> bool) -> nat
    decreases s,
{
    if s.len() == 0 || !p(s[0]) {
        0
    } else {
        1 + lead_len(s.drop_first(), p)
    }
}

/// The leading run is never longer than the string.
pub proof fn lemma_lead_len_bound(s: Seq<char>, p: spec_fn(char) -> bool)
    ensures
        lead_len(s, p) <= s.len(),
    decreases s,
{
    if s.len() > 0 && p(s[0]) {
        lemma_lead_len_bound(s.drop_first(), p);
    }
}

/// A block of accepted characters closed off by the end or a rejected one
/// is exactly the leading run.
pub proof fn lemma_lead_len_exact(s: Seq<char>, p: spec_fn(char) -> bool, k: int)
    requires
        0 <= k <= s.len(),
        forall|j: int| 0 <= j < k ==> p(#[trigger] s[j]),
        k == s.len() || !p(s[k]),
    ensures
        lead_len(s, p) == k,
    decreases s,
{
    if k > 0 {
        lemma_lead_len_exact(s.drop_first(), p, k - 1);
    }
}

/// A string with the whitespace trimmed from both ends.
pub open spec fn trim_spec(s: Seq<char>) -> Seq<char> {
    let lead = lead_len(s, |c: char| is_ws(c));
    let front = s.skip(lead as int);
    let trail = lead_len(front.reverse(), |c: char| is_ws(c));
    front.take(front.len() - trail)
}

/// Whether a character is trimmed whitespace.
pub fn is_ws_exec(c: char) -> (r: bool)
    ensures
        r == is_ws(c),
{
    c == ' ' || c == '\t' || c == '\n' || c == '\r'
}

/// Trims whitespace from both ends.
pub fn trim_ws(value: &str) -> (r: String)
    ensures
        r@ == trim_spec(value@),
{
    let len = value.unicode_len();
    let mut lead: usize = 0;
    while lead < len && is_ws_exec(value.get_char(lead))
        invariant
            len == value@.len(),
            lead <= len,
            forall|j: int| 0 <= j < lead ==> is_ws(#[trigger] value@[j]),
        decreases len - lead,
    {
        lead += 1;
    }
    let mut end = len;
    while end > lead && is_ws_exec(value.get_char(end - 1))
        invariant
            len == value@.len(),
            lead <= end <= len,
            forall|j: int| 0 <= j < lead ==> is_ws(#[trigger] value@[j]),
            lead == len || !is_ws(value@[lead as int]),
            forall|j: int| end <= j < len ==> is_ws(#[trigger] value@[j]),
        decreases end,
    {
        end -= 1;
    }
    let mut out = String::new();
    let mut i = lead;
    while i < end
        invariant
            len == value@.len(),
            lead <= i <= end <= len,
            forall|j: int| 0 <= j < lead ==> is_ws(#[trigger] value@[j]),
            lead == len || !is_ws(value@[lead as int]),
            forall|j: int| end <= j < len ==> is_ws(#[trigger] value@[j]),
            end == lead || !is_ws(value@[end - 1]),
            out@ == value@.subrange(lead as int, i as int),
        decreases end - i,
    {
        push_char(&mut out, value.get_char(i));
        proof {
            assert(out@ =~= value@.subrange(lead as int, i + 1));
        }
        i += 1;
    }
    proof {
        assert(out@ =~= value@.subrange(lead as int, end as int));
        lemma_trim_spec_shape(value@, lead as int, end as int);
    }
    out
}

/// A string whose whitespace ends at `lead` and resumes at `end` trims to
/// the middle part.
proof fn lemma_trim_spec_shape(s: Seq<char>, lead: int, end: int)
    requires
        0 <= lead <= end <= s.len(),
        forall|j: int| 0 <= j < lead ==> is_ws(#[trigger] s[j]),
        lead == s.len() || !is_ws(s[lead]),
        forall|j: int| end <= j < s.len() ==> is_ws(#[trigger] s[j]),
        end == lead || !is_ws(s[end - 1]),
    ensures
        trim_spec(s) == s.subrange(lead, end),
{
    let wsp = |c: char| is_ws(c);
    lemma_lead_len_exact(s, wsp, lead);
    let front = s.skip(lead);
    let trail = s.len() - end;
    assert forall|j: int| 0 <= j < trail implies wsp(#[trigger] front.reverse()[j]) by {
        assert(front.reverse()[j] == front[front.len() - 1 - j]);
        assert(front[front.len() - 1 - j] == s[s.len() - 1 - j]);
    }
    if trail < front.len() {
        assert(front.reverse()[trail] == front[front.len() - 1 - trail]);
        assert(front[front.len() - 1 - trail] == s[end - 1]);
        assert(!wsp(front.reverse()[trail]));
    }
    lemma_lead_len_exact(front.reverse(), wsp, trail);
    assert(trim_spec(s) =~= s.subrange(lead, end));
}

/// The Unicode lower-case folding of a string. What it maps given
/// characters to is left unstated; it is a function of the characters
/// alone.
pub uninterp spec fn lower_of(s: Seq<char>) -> Seq<char>;

/// Relies on `str::to_lowercase`: the result depends on the input
/// characters alone.
#[verifier::external_body]
pub fn lowercase(s: &str) -> (r: String)
    ensures
        r@ == lower_of(s@),
{
    s.to_lowercase()
}

/// Lexicographic order on character sequences, by code point, with a
/// prefix ahead of its extensions.
pub open spec fn lex_le(a: Seq<char>, b: Seq<char>) -> bool
    decreases a.len(),
{
    if a.len() == 0 {
        true
    } else if b.len() == 0 {
        false
    } else if a[0] == b[0] {
        lex_le(a.drop_first(), b.drop_first())
    } else {
        (a[0] as u32) < (b[0] as u32)
    }
}

/// The order is total: two sequences compare one way or the other.
pub proof fn lemma_lex_le_total(a: Seq<char>, b: Seq<char>)
    ensures
        lex_le(a, b) || lex_le(b, a),
    decreases a.len(),
{
    if a.len() > 0 && b.len() > 0 {
        if a[0] == b[0] {
            lemma_lex_le_total(a.drop_first(), b.drop_first());
        } else {
            vstd::utf8::char_u32_cast(a[0], a[0] as u32);
            vstd::utf8::char_u32_cast(b[0], b[0] as u32);
        }
    }
}

/// The order is transitive.
pub proof fn lemma_lex_le_trans(a: Seq<char>, b: Seq<char>, c: Seq<char>)
    requires
        lex_le(a, b),
        lex_le(b, c),
    ensures
        lex_le(a, c),
    decreases a.len(),
{
    if a.len() > 0 && b.len() > 0 && c.len() > 0 {
        if a[0] == b[0] && b[0] == c[0] {
            lemma_lex_le_trans(a.drop_first(), b.drop_first(), c.drop_first());
        }
    }
}

/// Compares two strings in lexicographic code point order.
pub fn str_lex_le(a: &str, b: &str) -> (r: bool)
    ensures
        r == lex_le(a@, b@),
{
    let a_len = a.unicode_len();
    let b_len = b.unicode_len();
    let mut i: usize = 0;
    proof {
        assert(a@.skip(0) =~= a@);
        assert(b@.skip(0) =~= b@);
    }
    loop
        invariant
            a_len == a@.len(),
            b_len == b@.len(),
            i <= a_len,
            i <= b_len,
            lex_le(a@, b@) == lex_le(a@.skip(i as int), b@.skip(i as int)),
        decreases a_len - i,
    {
        if i >= a_len {
            proof {
                assert(a@.skip(i as int).len() == 0);
            }
            return true;
        }
        if i >= b_len {
            proof {
                assert(b@.skip(i as int).len() == 0);
                assert(a@.skip(i as int).len() > 0);
            }
            return false;
        }
        let ca = a.get_char(i);
        let cb = b.get_char(i);
        if ca == cb {
            proof {
                assert(a@.skip(i as int).drop_first() =~= a@.skip(i + 1));
                assert(b@.skip(i as int).drop_first() =~= b@.skip(i + 1));
                assert(a@.skip(i as int)[0] == a@[i as int]);
                assert(b@.skip(i as int)[0] == b@[i as int]);
            }
            i += 1;
        } else {
            proof {
                assert(a@.skip(i as int)[0] == a@[i as int]);
                assert(b@.skip(i as int)[0] == b@[i as int]);
            }
            return (ca as u32) < (cb as u32);
        }
    }
}

/// The value of one decimal digit character.
pub open spec fn digit_value(c: char) -> Option<nat> {
    if '0' <= c <= '9' {
        Some((c as u32 - '0' as u32) as nat)
    } else {
        None
    }
}

/// The number a pure digit string denotes; anything else denotes nothing.
pub open spec fn dec_value(s: Seq<char>) -> Option<nat>
    decreases s,
{
    if s.len() == 0 {
        None
    } else if s.len() == 1 {
        digit_value(s[0])
    } else {
        match (dec_value(s.drop_last()), digit_value(s.last())) {
            (Some(v), Some(d)) => Some(v * 10 + d),
            _ => None,
        }
    }
}

/// A string that denotes a number is digits throughout.
pub proof fn lemma_dec_value_digits(s: Seq<char>, i: int)
    requires
        dec_value(s) is Some,
        0 <= i < s.len(),
    ensures
        digit_value(s[i]) is Some,
    decreases s,
{
    if s.len() > 1 && i < s.len() - 1 {
        lemma_dec_value_digits(s.drop_last(), i);
    }
}

/// What parsing a byte accepts: an optional plus sign, then digits whose
/// value fits in one byte.
pub open spec fn parse_u8_spec(s: Seq<char>) -> Option<u8> {
    let body = if s.len() > 0 && s[0] == '+' {
        s.skip(1)
    } else {
        s
    };
    match dec_value(body) {
        Some(v) => if v <= 255 {
            Some(v as u8)
        } else {
            None
        },
        None => None,
    }
}

/// Parses a byte from decimal text: an optional plus sign, then digits.
pub fn parse_u8(s: &str) -> (r: Option<u8>)
    ensures
        r == parse_u8_spec(s@),
{
    let len = s.unicode_len();
    let mut i: usize = 0;
    if len > 0 && s.get_char(0) == '+' {
        i = 1;
    }
    let ghost body = if s@.len() > 0 && s@[0] == '+' {
        s@.skip(1)
    } else {
        s@
    };
    let start = i;
    if i == len {
        proof {
            assert(body.len() == 0);
        }
        return None;
    }
    let mut acc: u32 = 0;
    let ghost mut val: nat = 0nat;
    while i < len
        invariant
            len == s@.len(),
            start <= i <= len,
            start < len,
            start == if s@.len() > 0 && s@[0] == '+' {
                1int
            } else {
                0int
            },
            body == s@.skip(start as int),
            body == (if s@.len() > 0 && s@[0] == '+' {
                s@.skip(1)
            } else {
                s@
            }),
            i > start ==> dec_value(body.take(i - start)) == Some(val),
            i == start ==> val == 0,
            val <= 255 ==> acc == val,
            val > 255 ==> acc > 255,
            acc <= 2559,
        decreases len - i,
    {
        let c = s.get_char(i);
        let cu = c as u32;
        if cu < 48 || cu > 57 {
            proof {
                assert(body.len() == len - start);
                assert(body[i - start] == s@[i as int]);
                assert(digit_value(body[i - start]) is None);
                if dec_value(body) is Some {
                    lemma_dec_value_digits(body, i - start);
                }
                assert(dec_value(body) is None);
            }
            return None;
        }
        let d: u32 = cu - 48;
        proof {
            assert(digit_value(body[i - start]) == Some(d as nat));
            if i > start {
                assert(body.take(i - start + 1).drop_last() =~= body.take(i - start));
                assert(body.take(i - start + 1).last() == body[i - start]);
            } else {
                assert(body.take(1).len() == 1);
                assert(body.take(1)[0] == body[0]);
            }
        }
        if acc <= 255 {
            acc = acc * 10 + d;
        }
        proof {
            val = (val * 10 + d) as nat;
        }
        i += 1;
    }
    proof {
        assert(body.take(len - start) =~= body);
    }
    if acc <= 255 {
        Some(acc as u8)
    } else {
        None
    }
}

/// A separator between the tokens of a color triple.
pub open spec fn is_sep(c: char) -> bool {
    c == ' ' || c == ','
}

/// The length of the maximal leading run of non-separator characters.
pub open spec fn run_len(s: Seq<char>) -> nat
    decreases s,
{
    if s.len() == 0 || is_sep(s[0]) {
        0
    } else {
        1 + run_len(s.drop_first())
    }
}

/// The maximal non-separator runs of a string, in order, empties dropped.
pub open spec fn tokens(s: Seq<char>) -> Seq<Seq<char>>
    decreases s.len(),
    via tokens_decreases
{
    if s.len() == 0 {
        Seq::empty()
    } else if is_sep(s[0]) {
        tokens(s.drop_first())
    } else {
        seq![s.take(run_len(s) as int)] + tokens(s.skip(run_len(s) as int))
    }
}

#[via_fn]
proof fn tokens_decreases(s: Seq<char>) {
    if s.len() > 0 && !is_sep(s[0]) {
        lemma_run_len_bound(s);
        assert(run_len(s) >= 1);
    }
}

/// The leading run is never longer than the string.
pub proof fn lemma_run_len_bound(s: Seq<char>)
    ensures
        run_len(s) <= s.len(),
    decreases s,
{
    if s.len() > 0 && !is_sep(s[0]) {
        lemma_run_len_bound(s.drop_first());
    }
}

/// A block of non-separators closed off by the end or a separator is
/// exactly the leading run.
pub proof fn lemma_run_len_exact(s: Seq<char>, k: int)
    requires
        0 <= k <= s.len(),
        forall|j: int| 0 <= j < k ==> !is_sep(#[trigger] s[j]),
        k == s.len() || is_sep(s[k]),
    ensures
        run_len(s) == k,
    decreases s,
{
    if k > 0 {
        lemma_run_len_exact(s.drop_first(), k - 1);
    }
}

/// Splits a string into its non-separator tokens.
pub fn split_tokens(s: &str) -> (r: Vec<String>)
    ensures
        r.deep_view() == tokens(s@),
{
    let len = s.unicode_len();
    let mut toks: Vec<String> = Vec::new();
    let mut i: usize = 0;
    proof {
        assert(s@.skip(0) =~= s@);
        assert(toks.deep_view() =~= Seq::<Seq<char>>::empty());
        assert(toks.deep_view() + tokens(s@) =~= tokens(s@));
    }
    while i < len
        invariant
            len == s@.len(),
            i <= len,
            tokens(s@) == toks.deep_view() + tokens(s@.skip(i as int)),
        decreases len - i,
    {
        let c = s.get_char(i);
        if c == ' ' || c == ',' {
            proof {
                assert(s@.skip(i as int).drop_first() =~= s@.skip(i + 1));
            }
            i += 1;
        } else {
            let ghost rest = s@.skip(i as int);
            let start = i;
            let mut t = String::new();
            loop
                invariant_except_break
                    len == s@.len(),
                    start <= i <= len,
                    start < len,
                    rest == s@.skip(start as int),
                    rest.len() > 0 && !is_sep(rest[0]),
                    t@ == rest.take(i - start),
                    forall|j: int| 0 <= j < i - start ==> !is_sep(#[trigger] rest[j]),
                ensures
                    len == s@.len(),
                    start < i <= len,
                    start < len,
                    rest == s@.skip(start as int),
                    rest.len() > 0 && !is_sep(rest[0]),
                    t@ == rest.take(i - start),
                    forall|j: int| 0 <= j < i - start ==> !is_sep(#[trigger] rest[j]),
                    i == len || is_sep(rest[i - start]),
                decreases len - i,
            {
                if i >= len {
                    break ;
                }
                let c2 = s.get_char(i);
                if c2 == ' ' || c2 == ',' {
                    break ;
                }
                push_char(&mut t, c2);
                proof {
                    assert(rest.take(i - start + 1).drop_last() =~= rest.take(i - start));
                    assert(rest.take(i - start + 1).last() == rest[i - start]);
                }
                i += 1;
            }
            let ghost toks0 = toks.deep_view();
            let ghost tv = t@;
            toks.push(t);
            proof {
                lemma_run_len_exact(rest, i - start);
                lemma_run_len_bound(rest);
                assert(rest.skip(i - start) =~= s@.skip(i as int));
                assert(toks.deep_view() =~= toks0.push(tv));
                assert(rest.take(run_len(rest) as int) == tv);
                assert(tokens(s@) =~= toks.deep_view() + tokens(s@.skip(i as int)));
            }
        }
    }
    proof {
        assert(tokens(s@.skip(len as int)) =~= Seq::<Seq<char>>::empty());
        assert(toks.deep_view() =~= toks.deep_view() + tokens(s@.skip(len as int)));
    }
    toks
}

} // verus!
