//! String helpers that the gateway's key formats and filters rest on:
//! splitting on a separator, decimal parsing and formatting, and
//! character replacement.

use vstd::prelude::*;

verus! {

/// Smallest index at which `sep` occurs in `s`, or `s.len()` if it never does.
pub open spec fn first_index_of(s: Seq<char>, sep: char) -> int
    decreases s.len(),
{
    if s.len() == 0 {
        0
    } else if s[0] == sep {
        0
    } else {
        1 + first_index_of(s.subrange(1, s.len() as int), sep)
    }
}

pub proof fn lemma_first_index_of(s: Seq<char>, sep: char)
    ensures
        0 <= first_index_of(s, sep) <= s.len(),
        first_index_of(s, sep) < s.len() ==> s[first_index_of(s, sep)] == sep,
        forall|j: int| 0 <= j < first_index_of(s, sep) ==> s[j] != sep,
        (exists|i: int| 0 <= i < s.len() && s[i] == sep) ==> first_index_of(s, sep) < s.len(),
    decreases s.len(),
{
    if s.len() == 0 {
    } else if s[0] == sep {
    } else {
        let rest = s.subrange(1, s.len() as int);
        lemma_first_index_of(rest, sep);
        assert(forall|j: int| 0 <= j < first_index_of(rest, sep) ==> #[trigger] rest[j] != sep);
        assert(forall|j: int| 1 <= j < 1 + first_index_of(rest, sep) ==> #[trigger] s[j] != sep)
            by {
            assert(forall|j: int|
                1 <= j < 1 + first_index_of(rest, sep) ==> #[trigger] s[j] == rest[j - 1]);
        }
        if exists|i: int| 0 <= i < s.len() && s[i] == sep {
            let w = choose|i: int| 0 <= i < s.len() && s[i] == sep;
            assert(rest[w - 1] == sep);
        }
    }
}

/// The characters of `s` split on `sep`: a sequence of segments, one more
/// than the number of separators, none holding `sep`.
pub open spec fn split_chars(s: Seq<char>, sep: char) -> Seq<Seq<char>>
    decreases s.len(),
{
    let i = first_index_of(s, sep);
    if 0 <= i < s.len() {
        seq![s.subrange(0, i)] + split_chars(s.subrange(i + 1, s.len() as int), sep)
    } else {
        seq![s]
    }
}

/// The character sequences of a list of strings.
pub open spec fn strings_view(vs: Seq<String>) -> Seq<Seq<char>> {
    vs.map_values(|p: String| p@)
}

/// Split `s` on commas, each piece as its own `String`.
#[verifier::rlimit(30)]
pub fn string_to_vec(s: &str) -> (r: Vec<String>)
    ensures
        strings_view(r@) == split_chars(s@, ','),
{
    let mut pieces: Vec<String> = Vec::new();
    let n = s.unicode_len();
    let mut start: usize = 0;
    let mut i: usize = 0;
    proof {
        assert(s@.subrange(0, n as int) =~= s@);
        assert(Seq::<Seq<char>>::empty() + split_chars(s@, ',') =~= split_chars(s@, ','));
    }
    while i < n
        invariant
            0 <= start <= i <= n,
            n == s@.len(),
            forall|j: int| start <= j < i ==> s@[j] != ',',
            split_chars(s@, ',') == strings_view(pieces@) + split_chars(
                s@.subrange(start as int, n as int),
                ',',
            ),
        decreases n - i,
    {
        let c = s.get_char(i);
        if c == ',' {
            let piece = s.substring_char(start, i);
            pieces.push(piece.to_owned());
            proof {
                let rest = s@.subrange(start as int, n as int);
                let k = i - start;
                lemma_first_index_of(rest, ',');
                assert(rest[k] == ',');
                assert(first_index_of(rest, ',') == k) by {
                    let f = first_index_of(rest, ',');
                    if f < k {
                        assert(rest[f] == ',');
                        assert(s@[start + f] == ',');
                    }
                    if f > k {
                        assert(rest[k] != ',');
                    }
                }
                assert(rest.subrange(0, k as int) =~= s@.subrange(start as int, i as int));
                assert(rest.subrange(k + 1, rest.len() as int) =~= s@.subrange(
                    i + 1,
                    n as int,
                ));
                assert(piece@ == s@.subrange(start as int, i as int));
                assert(strings_view(pieces@) + split_chars(
                    s@.subrange(i + 1, n as int),
                    ',',
                ) =~= strings_view(pieces@).drop_last() + split_chars(rest, ','));
            }
            start = i + 1;
        }
        i = i + 1;
    }
    let piece = s.substring_char(start, n);
    pieces.push(piece.to_owned());
    proof {
        let rest = s@.subrange(start as int, n as int);
        lemma_first_index_of(rest, ',');
        assert(first_index_of(rest, ',') == rest.len()) by {
            let f = first_index_of(rest, ',');
            if f < rest.len() {
                assert(rest[f] == ',');
                assert(s@[start + f] == ',');
            }
        }
        assert(split_chars(rest, ',') == seq![rest]);
        assert(strings_view(pieces@) =~= pieces@.map_values(
            |p: String| p@,
        ).drop_last() + seq![rest]);
    }
    pieces
}

/// The character for one decimal digit.
pub open spec fn digit_char(d: int) -> char {
    if d == 0 {
        '0'
    } else if d == 1 {
        '1'
    } else if d == 2 {
        '2'
    } else if d == 3 {
        '3'
    } else if d == 4 {
        '4'
    } else if d == 5 {
        '5'
    } else if d == 6 {
        '6'
    } else if d == 7 {
        '7'
    } else if d == 8 {
        '8'
    } else {
        '9'
    }
}

/// The decimal rendering of `n`, most significant digit first, no
/// leading zeros (a single `'0'` for zero).
pub open spec fn dec_chars(n: int) -> Seq<char>
    decreases n,
{
    if n < 10 {
        seq![digit_char(n)]
    } else {
        dec_chars(n / 10).push(digit_char(n % 10))
    }
}

fn digit_str(d: u64) -> (r: &'static str)
    requires
        d < 10,
    ensures
        r@ =~= seq![digit_char(d as int)],
{
    proof {
        reveal_strlit("0");
        reveal_strlit("1");
        reveal_strlit("2");
        reveal_strlit("3");
        reveal_strlit("4");
        reveal_strlit("5");
        reveal_strlit("6");
        reveal_strlit("7");
        reveal_strlit("8");
        reveal_strlit("9");
    }
    match d {
        0 => "0",
        1 => "1",
        2 => "2",
        3 => "3",
        4 => "4",
        5 => "5",
        6 => "6",
        7 => "7",
        8 => "8",
        _ => "9",
    }
}

/// Render `n` in decimal.
pub fn u64_to_string(n: u64) -> (r: String)
    ensures
        r@ == dec_chars(n as int),
    decreases n,
{
    if n < 10 {
        digit_str(n).to_owned()
    } else {
        let mut s = u64_to_string(n / 10);
        s.append(digit_str(n % 10));
        proof {
            assert(dec_chars(n as int / 10) + seq![digit_char(n as int % 10)] =~= dec_chars(
                n as int / 10,
            ).push(digit_char(n as int % 10)));
        }
        s
    }
}

/// The decimal rendering of `n` padded on the left with `'0'` to two places.
pub open spec fn pad2_chars(n: int) -> Seq<char> {
    if n < 10 {
        seq!['0', digit_char(n)]
    } else {
        seq![digit_char(n / 10), digit_char(n % 10)]
    }
}

/// Render `n` in decimal, zero-padded to two places.
pub fn u64_to_string_pad2(n: u64) -> (r: String)
    requires
        n < 100,
    ensures
        r@ == pad2_chars(n as int),
{
    if n < 10 {
        let mut s = "0".to_owned();
        proof {
            reveal_strlit("0");
        }
        s.append(digit_str(n));
        proof {
            assert(s@ =~= pad2_chars(n as int));
        }
        s
    } else {
        let mut s = digit_str(n / 10).to_owned();
        s.append(digit_str(n % 10));
        proof {
            assert(s@ =~= pad2_chars(n as int));
        }
        s
    }
}

/// Whether every character of `s` is a decimal digit.
pub open spec fn all_digits(s: Seq<char>) -> bool {
    forall|i: int| 0 <= i < s.len() ==> '0' <= #[trigger] s[i] <= '9'
}

/// The value of a sequence of decimal digits.
pub open spec fn dec_value(s: Seq<char>) -> int
    decreases s.len(),
{
    if s.len() == 0 {
        0
    } else {
        dec_value(s.drop_last()) * 10 + (s.last() as int - '0' as int)
    }
}

/// Parse a decimal `u64`: `Some` exactly on nonempty all-digit strings
/// whose value fits.
pub fn parse_u64(s: &str) -> (r: Option<u64>)
    ensures
        r is Some <==> s@.len() > 0 && all_digits(s@) && dec_value(s@) <= u64::MAX,
        r is Some ==> r->0 == dec_value(s@),
{
    let n = s.unicode_len();
    if n == 0 {
        return None;
    }
    let mut acc: u64 = 0;
    let mut i: usize = 0;
    while i < n
        invariant
            0 <= i <= n,
            n == s@.len(),
            all_digits(s@.subrange(0, i as int)),
            acc == dec_value(s@.subrange(0, i as int)),
        decreases n - i,
    {
        let c = s.get_char(i);
        if c < '0' || c > '9' {
            proof {
                assert(!all_digits(s@));
            }
            return None;
        }
        let d: u64 = (c as u32 as u64) - 48;
        proof {
            assert('0' as int == 48 && '9' as int == 57);
            assert(d == c as int - '0' as int);
        }
        if acc > (u64::MAX - d) / 10 {
            proof {
                let pre = s@.subrange(0, i + 1);
                assert(pre.drop_last() =~= s@.subrange(0, i as int));
                assert(dec_value(pre) == acc * 10 + d);
                if all_digits(s@) && dec_value(s@) <= u64::MAX {
                    lemma_dec_value_grows(s@, i + 1);
                    assert(dec_value(s@) >= acc * 10 + d);
                    assert(false);
                }
            }
            return None;
        }
        acc = acc * 10 + d;
        proof {
            let pre = s@.subrange(0, i + 1);
            assert(pre.drop_last() =~= s@.subrange(0, i as int));
        }
        i = i + 1;
    }
    proof {
        assert(s@.subrange(0, n as int) =~= s@);
    }
    Some(acc)
}

/// A digit string's value never shrinks as more digits follow.
proof fn lemma_dec_value_grows(s: Seq<char>, i: int)
    requires
        0 <= i <= s.len(),
        all_digits(s),
    ensures
        dec_value(s) >= dec_value(s.subrange(0, i)),
        dec_value(s) >= 0,
    decreases s.len() - i,
{
    if i == s.len() {
        assert(s.subrange(0, i) =~= s);
        lemma_dec_value_nonneg(s);
    } else {
        lemma_dec_value_grows(s, i + 1);
        let pre = s.subrange(0, i + 1);
        assert(pre.drop_last() =~= s.subrange(0, i));
        lemma_dec_value_nonneg(s.subrange(0, i));
        assert(dec_value(pre) == dec_value(s.subrange(0, i)) * 10 + (s[i] as int - '0' as int));
        assert(dec_value(pre) >= dec_value(s.subrange(0, i)));
    }
}

proof fn lemma_dec_value_nonneg(s: Seq<char>)
    requires
        all_digits(s),
    ensures
        dec_value(s) >= 0,
    decreases s.len(),
{
    if s.len() > 0 {
        assert(all_digits(s.drop_last())) by {
            assert(forall|i: int| 0 <= i < s.len() - 1 ==> s.drop_last()[i] == s[i]);
        }
        lemma_dec_value_nonneg(s.drop_last());
    }
}

/// `s` without its trailing run of `c`.
pub open spec fn trimmed_trailing(s: Seq<char>, c: char) -> Seq<char>
    decreases s.len(),
{
    if s.len() > 0 && s.last() == c {
        trimmed_trailing(s.drop_last(), c)
    } else {
        s
    }
}

/// Strip every trailing occurrence of `c` from `s`.
pub fn trim_trailing_char(s: &str, c: char) -> (r: String)
    ensures
        r@ == trimmed_trailing(s@, c),
{
    let mut end = s.unicode_len();
    proof {
        assert(s@.subrange(0, s@.len() as int) =~= s@);
    }
    while end > 0 && s.get_char(end - 1) == c
        invariant
            0 <= end <= s@.len(),
            trimmed_trailing(s@, c) == trimmed_trailing(s@.subrange(0, end as int), c),
        decreases end,
    {
        proof {
            assert(s@.subrange(0, end as int).last() == s@[end - 1]);
            assert(s@.subrange(0, end as int).drop_last() =~= s@.subrange(0, end - 1));
        }
        end = end - 1;
    }
    let kept = s.substring_char(0, end);
    proof {
        if end > 0 {
            assert(s@.subrange(0, end as int).last() == s@[end - 1]);
        }
        assert(trimmed_trailing(s@.subrange(0, end as int), c) == s@.subrange(0, end as int));
    }
    kept.to_owned()
}

/// Character-for-character equality of two strings.
pub fn str_eq(a: &str, b: &str) -> (r: bool)
    ensures
        r <==> a@ == b@,
{
    let na = a.unicode_len();
    let nb = b.unicode_len();
    if na != nb {
        return false;
    }
    let mut i: usize = 0;
    while i < na
        invariant
            0 <= i <= na,
            na == a@.len() == b@.len(),
            forall|j: int| 0 <= j < i ==> a@[j] == b@[j],
        decreases na - i,
    {
        if a.get_char(i) != b.get_char(i) {
            return false;
        }
        i = i + 1;
    }
    proof {
        assert(a@ =~= b@);
    }
    true
}

/// Relies on `String::push`: appends one character at the end.
#[verifier::external_body]
pub fn push_char(s: &mut String, c: char)
    ensures
        final(s)@ == old(s)@.push(c),
{
    s.push(c);
}

/// `s` with every space and colon replaced by a hyphen.
pub open spec fn sanitized_chars(s: Seq<char>) -> Seq<char> {
    s.map_values(|c: char| if c == ' ' || c == ':' { '-' } else { c })
}

/// Replace every space and colon in `s` with a hyphen.
pub fn sanitize_identity(s: &str) -> (r: String)
    ensures
        r@ == sanitized_chars(s@),
{
    let n = s.unicode_len();
    let mut out = String::new();
    let mut i: usize = 0;
    while i < n
        invariant
            0 <= i <= n,
            n == s@.len(),
            out@ == sanitized_chars(s@.subrange(0, i as int)),
        decreases n - i,
    {
        let c = s.get_char(i);
        if c == ' ' || c == ':' {
            push_char(&mut out, '-');
        } else {
            push_char(&mut out, c);
        }
        proof {
            assert(out@ =~= sanitized_chars(s@.subrange(0, i + 1)));
        }
        i = i + 1;
    }
    proof {
        assert(s@.subrange(0, n as int) =~= s@);
    }
    out
}

/// Uppercase form of one ASCII letter; other characters unchanged.
pub open spec fn ascii_upper(c: char) -> char {
    if 'a' <= c <= 'z' {
        ((c as u8) - 0x20) as char
    } else {
        c
    }
}

/// `s` with every ASCII lowercase letter uppercased.
pub open spec fn ascii_upper_chars(s: Seq<char>) -> Seq<char> {
    s.map_values(|c: char| ascii_upper(c))
}

/// Uppercase the ASCII letters of `s` (HTTP method names are ASCII).
pub fn ascii_uppercase(s: &str) -> (r: String)
    ensures
        r@ == ascii_upper_chars(s@),
{
    let n = s.unicode_len();
    let mut out = String::new();
    let mut i: usize = 0;
    while i < n
        invariant
            0 <= i <= n,
            n == s@.len(),
            out@ == ascii_upper_chars(s@.subrange(0, i as int)),
        decreases n - i,
    {
        let c = s.get_char(i);
        if 'a' <= c && c <= 'z' {
            let b: u8 = (c as u8) - 0x20;
            push_char(&mut out, b as char);
        } else {
            push_char(&mut out, c);
        }
        proof {
            assert(out@ =~= ascii_upper_chars(s@.subrange(0, i + 1)));
        }
        i = i + 1;
    }
    proof {
        assert(s@.subrange(0, n as int) =~= s@);
    }
    out
}

} // verus!
