//! Verified text utilities for the market-data record formats: splitting on
//! a delimiter, parsing unsigned decimal numbers, substring search, and
//! trimming the quotes that JSON leaves around string members.

use vstd::prelude::*;
use vstd::string::StrSliceExecFns;

verus! {

/// The pieces of `s` between occurrences of the delimiter `d`: one piece
/// more than there are delimiters, in order, each piece free of `d`.
pub open spec fn spec_split(s: Seq<char>, d: char) -> Seq<Seq<char>>
    decreases s.len(),
{
    if s.len() == 0 {
        seq![Seq::<char>::empty()]
    } else if s[0] == d {
        seq![Seq::<char>::empty()] + spec_split(s.skip(1), d)
    } else {
        let rest = spec_split(s.skip(1), d);
        seq![seq![s[0]] + rest[0]] + rest.skip(1)
    }
}

/// A string without the delimiter splits into exactly itself.
proof fn lemma_split_whole(s: Seq<char>, d: char)
    requires
        forall|i: int| 0 <= i < s.len() ==> s[i] != d,
    ensures
        spec_split(s, d) == seq![s],
    decreases s.len(),
{
    if s.len() == 0 {
        assert(s =~= Seq::<char>::empty());
    } else {
        lemma_split_whole(s.skip(1), d);
        let rest = spec_split(s.skip(1), d);
        assert(seq![s[0]] + rest[0] =~= s);
        assert(seq![seq![s[0]] + rest[0]] + rest.skip(1) =~= seq![s]);
    }
}

/// Splitting a string that starts with a delimiter-free piece, then the
/// delimiter, yields that piece followed by the split of the remainder.
proof fn lemma_split_glue(p: Seq<char>, r: Seq<char>, d: char)
    requires
        forall|i: int| 0 <= i < p.len() ==> p[i] != d,
    ensures
        spec_split(p + seq![d] + r, d) == seq![p] + spec_split(r, d),
    decreases p.len(),
{
    let s = p + seq![d] + r;
    if p.len() == 0 {
        assert(s =~= seq![d] + r);
        assert(s[0] == d);
        assert(s.skip(1) =~= r);
        assert(p =~= Seq::<char>::empty());
    } else {
        assert(s[0] == p[0]);
        assert(s.skip(1) =~= p.skip(1) + seq![d] + r);
        lemma_split_glue(p.skip(1), r, d);
        let rest = spec_split(s.skip(1), d);
        assert(rest == seq![p.skip(1)] + spec_split(r, d));
        assert(rest[0] == p.skip(1));
        assert(seq![s[0]] + rest[0] =~= p);
        assert(rest.skip(1) =~= spec_split(r, d));
        assert(seq![seq![s[0]] + rest[0]] + rest.skip(1) =~= seq![p] + spec_split(r, d));
    }
}

/// Splits a string on a delimiter character, keeping empty pieces.
pub fn split_str(s: &str, d: char) -> (pieces: Vec<String>)
    ensures
        pieces@.map_values(|p: String| p@) == spec_split(s@, d),
{
    let n = s.unicode_len();
    let mut out: Vec<String> = Vec::new();
    let mut start: usize = 0;
    let mut i: usize = 0;
    proof {
        assert(s@.skip(0) =~= s@);
        assert(out@.map_values(|p: String| p@) + spec_split(s@, d) =~= spec_split(s@, d));
    }
    while i < n
        invariant
            n == s@.len(),
            0 <= start <= i <= n,
            spec_split(s@, d) == out@.map_values(|p: String| p@) + spec_split(
                s@.skip(start as int),
                d,
            ),
            forall|j: int| start <= j < i ==> s@[j] != d,
        decreases n - i,
    {
        if s.get_char(i) == d {
            let piece = s.substring_char(start, i).to_owned();
            proof {
                let tail = s@.skip(start as int);
                assert(piece@ =~= tail.subrange(0, i - start));
                assert(tail =~= piece@ + seq![d] + s@.skip(i + 1));
                lemma_split_glue(piece@, s@.skip(i + 1), d);
                assert((out@.push(piece)).map_values(|p: String| p@) =~= out@.map_values(
                    |p: String| p@,
                ).push(piece@));
            }
            out.push(piece);
            start = i + 1;
        }
        i = i + 1;
    }
    let last = s.substring_char(start, n).to_owned();
    proof {
        assert(last@ =~= s@.skip(start as int));
        lemma_split_whole(last@, d);
        assert((out@.push(last)).map_values(|p: String| p@) =~= out@.map_values(
            |p: String| p@,
        ).push(last@));
        assert(out@.map_values(|p: String| p@).push(last@) =~= out@.map_values(|p: String| p@)
            + seq![last@]);
    }
    out.push(last);
    out
}

/// The non-empty pieces of `s` between occurrences of `d`: what the record
/// parsers treat as the fields of a delimited record.
pub open spec fn spec_fields(s: Seq<char>, d: char) -> Seq<Seq<char>> {
    spec_split(s, d).filter(|p: Seq<char>| p.len() != 0)
}

/// Splits a string on a delimiter and drops the empty pieces.
pub fn split_nonempty(s: &str, d: char) -> (fields: Vec<String>)
    ensures
        fields@.map_values(|p: String| p@) == spec_fields(s@, d),
{
    let pieces = split_str(s, d);
    let mut out: Vec<String> = Vec::new();
    let ghost views = pieces@.map_values(|p: String| p@);
    let ghost pred = |p: Seq<char>| p.len() != 0;
    let mut i: usize = 0;
    while i < pieces.len()
        invariant
            views == pieces@.map_values(|p: String| p@),
            views == spec_split(s@, d),
            pred == (|p: Seq<char>| p.len() != 0),
            0 <= i <= pieces.len(),
            out@.map_values(|p: String| p@) == views.take(i as int).filter(pred),
        decreases pieces.len() - i,
    {
        let piece = pieces[i].clone();
        proof {
            reveal(Seq::filter);
            assert(views.take(i + 1).drop_last() =~= views.take(i as int));
            assert(views.take(i + 1).last() == piece@);
            if pred(piece@) {
                assert((out@.push(piece)).map_values(|p: String| p@) =~= out@.map_values(
                    |p: String| p@,
                ).push(piece@));
            }
        }
        if !piece.as_str().is_empty() {
            out.push(piece);
        }
        i = i + 1;
    }
    proof {
        assert(views.take(pieces@.len() as int) =~= views);
    }
    out
}

/// Whether a character is a decimal digit.
pub open spec fn spec_is_digit(c: char) -> bool {
    '0' <= c <= '9'
}

/// The value of a decimal digit character.
pub open spec fn spec_digit_val(c: char) -> int {
    c as int - '0' as int
}

/// Whether every character of `s` is a decimal digit.
pub open spec fn spec_all_digits(s: Seq<char>) -> bool {
    forall|i: int| 0 <= i < s.len() ==> spec_is_digit(#[trigger] s[i])
}

/// The value of a string of decimal digits, most significant first.
pub open spec fn spec_digits_val(s: Seq<char>) -> int
    decreases s.len(),
{
    if s.len() == 0 {
        0
    } else {
        spec_digits_val(s.drop_last()) * 10 + spec_digit_val(s.last())
    }
}

/// The digits of a numeric field: the field with one optional leading
/// plus sign removed, as unsigned decimal parsing reads it.
pub open spec fn spec_unsigned_digits(s: Seq<char>) -> Seq<char> {
    if s.len() > 0 && s[0] == '+' {
        s.skip(1)
    } else {
        s
    }
}

/// Whether a field parses as an unsigned decimal number of at most `max`:
/// after the optional leading plus sign, a non-empty string of digits
/// whose value fits.
pub open spec fn spec_parses(s: Seq<char>, max: int) -> bool {
    let t = spec_unsigned_digits(s);
    t.len() > 0 && spec_all_digits(t) && spec_digits_val(t) <= max
}

/// How the record layouts read a numeric field: the parsed value, and
/// zero for a field that does not parse.
pub open spec fn spec_parse_or_zero(s: Seq<char>, max: int) -> int {
    if spec_parses(s, max) {
        spec_digits_val(spec_unsigned_digits(s))
    } else {
        0
    }
}

/// An all-digit string has a non-negative value.
proof fn lemma_digits_val_nonneg(s: Seq<char>)
    requires
        spec_all_digits(s),
    ensures
        spec_digits_val(s) >= 0,
    decreases s.len(),
{
    if s.len() != 0 {
        assert(spec_all_digits(s.drop_last()));
        lemma_digits_val_nonneg(s.drop_last());
    }
}

/// Extending an all-digit string never shrinks its value.
proof fn lemma_digits_val_grows(s: Seq<char>, k: int)
    requires
        0 <= k <= s.len(),
        spec_all_digits(s),
    ensures
        spec_digits_val(s.take(k)) <= spec_digits_val(s),
    decreases s.len() - k,
{
    if k == s.len() {
        assert(s.take(k) =~= s);
    } else {
        assert(s.take(k + 1).drop_last() =~= s.take(k));
        assert(spec_all_digits(s.take(k)));
        lemma_digits_val_nonneg(s.take(k));
        assert(spec_digits_val(s.take(k + 1)) >= spec_digits_val(s.take(k)));
        lemma_digits_val_grows(s, k + 1);
    }
}

/// Parses a field as an unsigned decimal number: the exact value when the
/// field is, after one optional leading plus sign, a non-empty string of
/// digits no larger than `max`, and nothing otherwise.
pub fn parse_uint(s: &str, max: u64) -> (r: Option<u64>)
    ensures
        r is Some <==> spec_parses(s@, max as int),
        r matches Some(v) ==> v == spec_digits_val(spec_unsigned_digits(s@)) && v <= max,
{
    let n = s.unicode_len();
    if n == 0 {
        return None;
    }
    let start: usize = if s.get_char(0) == '+' {
        1
    } else {
        0
    };
    let ghost t = spec_unsigned_digits(s@);
    proof {
        assert(t =~= s@.skip(start as int));
        vstd::arithmetic::div_mod::lemma_fundamental_div_mod(max as int, 10);
    }
    if n == start {
        return None;
    }
    let mut acc: u64 = 0;
    let mut i: usize = start;
    while i < n
        invariant
            n == s@.len(),
            start <= i <= n,
            start < n,
            t == spec_unsigned_digits(s@),
            t =~= s@.skip(start as int),
            spec_all_digits(t.take(i - start)),
            acc == spec_digits_val(t.take(i - start)),
            acc <= max,
            max == 10 * (max / 10) + (max % 10),
        decreases n - i,
    {
        let c = s.get_char(i);
        let u = c as u32;
        proof {
            assert(t[i - start] == s@[i as int]);
        }
        if u < 48 || u > 57 {
            assert(!spec_is_digit(t[i - start]));
            return None;
        }
        let d = (u - 48) as u64;
        proof {
            assert(t.take(i - start + 1).drop_last() =~= t.take(i - start));
            assert(t.take(i - start + 1).last() == t[i - start]);
            assert(spec_digit_val(t[i - start]) == d);
        }
        if acc > max / 10 || (acc == max / 10 && d > max % 10) {
            proof {
                assert(spec_digits_val(t.take(i - start + 1)) > max);
                if spec_all_digits(t) {
                    lemma_digits_val_grows(t, i - start + 1);
                }
            }
            return None;
        }
        acc = acc * 10 + d;
        i = i + 1;
    }
    proof {
        assert(t.take(n - start) =~= t);
    }
    Some(acc)
}

/// Parses a field as the record layouts read their numeric fields: the
/// exact parsed value, and zero for a field that does not parse.
pub fn parse_uint_or_zero(s: &str, max: u64) -> (r: u64)
    ensures
        r == spec_parse_or_zero(s@, max as int),
        r <= max,
{
    match parse_uint(s, max) {
        Some(v) => v,
        None => 0,
    }
}

/// Whether `n` occurs in `h` as a contiguous substring.
pub open spec fn spec_contains_sub(h: Seq<char>, n: Seq<char>) -> bool {
    exists|k: int| 0 <= k <= h.len() - n.len() && #[trigger] h.subrange(k, k + n.len()) == n
}

/// Whether the needle matches the haystack at position `k`.
fn match_at(hay: &str, needle: &str, k: usize) -> (m: bool)
    requires
        k + needle@.len() <= hay@.len() <= usize::MAX,
    ensures
        m == (hay@.subrange(k as int, k as int + needle@.len()) == needle@),
{
    let nlen = needle.unicode_len();
    let mut j: usize = 0;
    while j < nlen
        invariant
            nlen == needle@.len(),
            k + nlen <= hay@.len() <= usize::MAX,
            0 <= j <= nlen,
            forall|jj: int| 0 <= jj < j ==> hay@[k + jj] == needle@[jj],
        decreases nlen - j,
    {
        if hay.get_char(k + j) != needle.get_char(j) {
            proof {
                assert(hay@.subrange(k as int, k as int + nlen as int)[j as int] != needle@[j as int]);
            }
            return false;
        }
        j = j + 1;
    }
    proof {
        assert(hay@.subrange(k as int, k as int + nlen as int) =~= needle@);
    }
    true
}

/// Whether the haystack contains the needle as a contiguous substring.
pub fn contains_str(hay: &str, needle: &str) -> (found: bool)
    ensures
        found == spec_contains_sub(hay@, needle@),
{
    let hlen = hay.unicode_len();
    let nlen = needle.unicode_len();
    if nlen > hlen {
        return false;
    }
    if nlen == 0 {
        proof {
            assert(hay@.subrange(0, 0 + needle@.len() as int) =~= needle@);
        }
        return true;
    }
    let mut k: usize = 0;
    while k <= hlen - nlen
        invariant
            hlen == hay@.len(),
            nlen == needle@.len(),
            1 <= nlen <= hlen,
            0 <= k <= hlen - nlen + 1,
            forall|kk: int|
                0 <= kk < k ==> #[trigger] hay@.subrange(kk, kk + nlen as int) != needle@,
        decreases hlen - nlen - k + 1,
    {
        if match_at(hay, needle, k) {
            return true;
        }
        k = k + 1;
    }
    false
}

/// Whether two strings hold the same characters.
pub fn str_eq(a: &str, b: &str) -> (r: bool)
    ensures
        r == (a@ == b@),
{
    let alen = a.unicode_len();
    let blen = b.unicode_len();
    if alen != blen {
        return false;
    }
    let m = match_at(a, b, 0);
    proof {
        assert(a@.subrange(0, b@.len() as int) =~= a@);
    }
    m
}

/// A JSON string member with its surrounding quotes removed: the string
/// without its first and last character, or empty if it has fewer than two.
pub open spec fn spec_strip_ends(s: Seq<char>) -> Seq<char> {
    if s.len() >= 2 {
        s.subrange(1, s.len() - 1)
    } else {
        Seq::empty()
    }
}

/// Removes the first and last character of a string: the quotes that JSON
/// text keeps around a string member.
pub fn remove_second_quotes(st: &str) -> (r: String)
    ensures
        r@ == spec_strip_ends(st@),
{
    let n = st.unicode_len();
    if n >= 2 {
        st.substring_char(1, n - 1).to_owned()
    } else {
        String::new()
    }
}

} // verus!
