//! Character-level helpers: decimal formatting, port parsing, whitespace.
use vstd::prelude::*;

verus! {

/// The ASCII digit character for a value below ten.
pub open spec fn digit_char(d: nat) -> char {
    (('0' as nat) + d) as char
}

/// Decimal representation of `n` without leading zeros, as std formats integers.
pub open spec fn decimal(n: nat) -> Seq<char>
    decreases n,
{
    if n < 10 {
        seq![digit_char(n)]
    } else {
        decimal(n / 10).push(digit_char(n % 10))
    }
}

/// Appends the decimal representation of `n` to `out`.
pub fn push_decimal(n: u64, out: &mut Vec<char>)
    ensures
        final(out)@ == old(out)@ + decimal(n as nat),
    decreases n,
{
    if n >= 10 {
        push_decimal(n / 10, out);
    }
    let d: u64 = n % 10;
    let c: char = if d == 0 { '0' } else if d == 1 { '1' } else if d == 2 { '2' } else if d == 3 {
        '3'
    } else if d == 4 { '4' } else if d == 5 { '5' } else if d == 6 { '6' } else if d == 7 {
        '7'
    } else if d == 8 { '8' } else { '9' };
    out.push(c);
}

/// Collects the characters of a string slice.
pub fn str_chars(s: &str) -> (r: Vec<char>)
    ensures
        r@ == s@,
{
    let mut r: Vec<char> = Vec::new();
    for c in it: s.chars()
        invariant
            r@ == it.seq().take(it.index() as int),
    {
        r.push(c);
    }
    r
}


/// The first index at or after `i` holding `c`, or the length when there is none.
pub open spec fn find_from(s: Seq<char>, c: char, i: int) -> int
    decreases s.len() - i,
{
    if i >= s.len() {
        s.len() as int
    } else if s[i] == c {
        i
    } else {
        find_from(s, c, i + 1)
    }
}

/// The first index holding `c`, or the length when there is none.
pub open spec fn find(s: Seq<char>, c: char) -> int {
    find_from(s, c, 0)
}

pub proof fn lemma_find_from_bounds(s: Seq<char>, c: char, i: int)
    requires
        0 <= i <= s.len(),
    ensures
        i <= find_from(s, c, i) <= s.len(),
        find_from(s, c, i) < s.len() ==> s[find_from(s, c, i)] == c,
        forall|j: int| i <= j < find_from(s, c, i) ==> s[j] != c,
    decreases s.len() - i,
{
    if i < s.len() && s[i] != c {
        lemma_find_from_bounds(s, c, i + 1);
    }
}

/// Index of the first `c` in `s`, or `s.len()` when `c` does not occur.
pub fn index_of(s: &Vec<char>, c: char) -> (r: usize)
    ensures
        r == find(s@, c),
        r <= s.len(),
        r < s.len() ==> s@[r as int] == c,
        forall|j: int| 0 <= j < r ==> s@[j] != c,
{
    proof {
        lemma_find_from_bounds(s@, c, 0);
    }
    let mut i: usize = 0;
    while i < s.len()
        invariant
            i <= s.len(),
            forall|j: int| 0 <= j < i ==> s@[j] != c,
            find_from(s@, c, 0) == find_from(s@, c, i as int),
        decreases s.len() - i,
    {
        if s[i] == c {
            return i;
        }
        i = i + 1;
    }
    i
}

/// Copies `s[from..to]` into a new vector.
pub fn slice_chars(s: &Vec<char>, from: usize, to: usize) -> (r: Vec<char>)
    requires
        from <= to <= s.len(),
    ensures
        r@ == s@.subrange(from as int, to as int),
{
    let mut r: Vec<char> = Vec::new();
    let mut i: usize = from;
    while i < to
        invariant
            from <= i <= to <= s.len(),
            r@ == s@.subrange(from as int, i as int),
        decreases to - i,
    {
        r.push(s[i]);
        i = i + 1;
    }
    r
}

/// `String::push`: appends one character.
#[verifier::external_body]
fn string_push(s: &mut String, c: char)
    ensures
        final(s)@ == old(s)@.push(c),
{
    s.push(c);
}

/// Builds a `String` holding exactly the given characters.
pub fn chars_to_string(chars: &Vec<char>) -> (r: String)
    ensures
        r@ == chars@,
{
    let mut r = String::new();
    let mut i: usize = 0;
    while i < chars.len()
        invariant
            i <= chars.len(),
            r@ == chars@.take(i as int),
        decreases chars.len() - i,
    {
        string_push(&mut r, chars[i]);
        proof {
            assert(chars@.take(i + 1) == chars@.take(i as int).push(chars@[i as int]));
        }
        i = i + 1;
    }
    proof {
        assert(chars@.take(chars.len() as int) == chars@);
    }
    r
}

/// `String::from_utf8`: the bytes decoded when they are well-formed UTF-8.
#[verifier::external_body]
pub(crate) fn utf8_to_string(bytes: Vec<u8>) -> (r: Option<String>)
    ensures
        r is Some <==> vstd::utf8::valid_utf8(bytes@),
        r matches Some(s) ==> s@ == vstd::utf8::decode_utf8(bytes@),
{
    String::from_utf8(bytes).ok()
}

/// Decimal representation of `n` as a string.
pub fn decimal_string(n: u64) -> (r: String)
    ensures
        r@ == decimal(n as nat),
{
    let mut v: Vec<char> = Vec::new();
    push_decimal(n, &mut v);
    proof {
        assert(v@ == decimal(n as nat));
    }
    chars_to_string(&v)
}

/// An ASCII decimal digit.
pub open spec fn is_digit(c: char) -> bool {
    '0' <= c <= '9'
}

/// Value of a string of decimal digits (leading zeros allowed).
pub open spec fn digits_value(s: Seq<char>) -> nat
    decreases s.len(),
{
    if s.len() == 0 {
        0
    } else {
        digits_value(s.drop_last()) * 10 + ((s.last() as nat) - ('0' as nat)) as nat
    }
}

pub open spec fn all_digits(s: Seq<char>) -> bool {
    forall|i: int| 0 <= i < s.len() ==> is_digit(#[trigger] s[i])
}

/// What `str::parse::<u16>` returns: an optional leading `+`, then at least one
/// ASCII digit and nothing else, with a value that fits in 16 bits.
pub open spec fn parse_u16_spec(s: Seq<char>) -> Option<u16> {
    let d = if s.len() > 0 && s[0] == '+' {
        s.drop_first()
    } else {
        s
    };
    if d.len() > 0 && all_digits(d) && digits_value(d) <= 65535 {
        Some(digits_value(d) as u16)
    } else {
        None
    }
}

/// Parses a port number as `str::parse::<u16>` does.
pub fn parse_u16(s: &Vec<char>) -> (r: Option<u16>)
    ensures
        r == parse_u16_spec(s@),
{
    let start: usize = if s.len() > 0 && s[0] == '+' { 1 } else { 0 };
    let ghost d = if s@.len() > 0 && s@[0] == '+' { s@.drop_first() } else { s@ };
    proof {
        assert(d == s@.skip(start as int));
    }
    if start >= s.len() {
        return None;
    }
    let mut acc: u32 = 0;
    let mut i: usize = start;
    while i < s.len()
        invariant
            start <= i <= s.len(),
            d == s@.skip(start as int),
            d == (if s@.len() > 0 && s@[0] == '+' { s@.drop_first() } else { s@ }),
            all_digits(s@.subrange(start as int, i as int)),
            acc as nat == if digits_value(s@.subrange(start as int, i as int)) <= 65535 {
                digits_value(s@.subrange(start as int, i as int))
            } else {
                65536
            },
        decreases s.len() - i,
    {
        let c = s[i];
        if !('0' <= c && c <= '9') {
            proof {
                assert(d[i - start] == c);
                assert(!is_digit(d[i - start]));
            }
            return None;
        }
        let dv: u32 = (c as u32) - ('0' as u32);
        let ghost prev = s@.subrange(start as int, i as int);
        let ghost next = s@.subrange(start as int, i + 1);
        proof {
            assert(next.drop_last() == prev);
            assert(next.last() == c);
            assert(digits_value(next) == digits_value(prev) * 10 + dv);
            if digits_value(prev) > 65535 {
                assert(digits_value(prev) * 10 + dv > 65535) by (nonlinear_arith)
                    requires
                        digits_value(prev) > 65535,
                ;
            }
            assert forall|j: int| 0 <= j < next.len() implies is_digit(#[trigger] next[j]) by {
                if j < prev.len() {
                    assert(next[j] == prev[j]);
                }
            }
        }
        let candidate: u32 = acc * 10 + dv;
        acc = if candidate > 65535 { 65536 } else { candidate };
        i = i + 1;
    }
    proof {
        assert(s@.subrange(start as int, s.len() as int) == d);
    }
    if acc > 65535 {
        None
    } else {
        Some(acc as u16)
    }
}

/// Unicode `White_Space`, the set `char::is_whitespace` tests.
pub open spec fn is_whitespace(c: char) -> bool {
    ||| '\t' <= c <= '\r'
    ||| c == ' '
    ||| c == '\u{85}'
    ||| c == '\u{a0}'
    ||| c == '\u{1680}'
    ||| '\u{2000}' <= c <= '\u{200a}'
    ||| c == '\u{2028}'
    ||| c == '\u{2029}'
    ||| c == '\u{202f}'
    ||| c == '\u{205f}'
    ||| c == '\u{3000}'
}

/// Whether `c` is white space, as `char::is_whitespace` decides.
pub fn is_whitespace_char(c: char) -> (r: bool)
    ensures
        r == is_whitespace(c),
{
    ('\t' <= c && c <= '\r') || c == ' ' || c == '\u{85}' || c == '\u{a0}' || c == '\u{1680}' || (
    '\u{2000}' <= c && c <= '\u{200a}') || c == '\u{2028}' || c == '\u{2029}' || c == '\u{202f}'
        || c == '\u{205f}' || c == '\u{3000}'
}

/// The first index in `i..end` not holding white space, or `end`.
pub open spec fn skip_ws(s: Seq<char>, i: int, end: int) -> int
    decreases end - i,
{
    if i >= end {
        end
    } else if is_whitespace(s[i]) {
        skip_ws(s, i + 1, end)
    } else {
        i
    }
}

/// The first index in `i..end` holding white space, or `end`.
pub open spec fn token_end(s: Seq<char>, i: int, end: int) -> int
    decreases end - i,
{
    if i >= end {
        end
    } else if is_whitespace(s[i]) {
        i
    } else {
        token_end(s, i + 1, end)
    }
}

/// The end of `start..j` once trailing white space is dropped.
pub open spec fn trim_end(s: Seq<char>, start: int, j: int) -> int
    decreases j - start,
{
    if j <= start {
        start
    } else if is_whitespace(s[j - 1]) {
        trim_end(s, start, j - 1)
    } else {
        j
    }
}

pub proof fn lemma_skip_ws_bounds(s: Seq<char>, i: int, end: int)
    requires
        0 <= i <= end <= s.len(),
    ensures
        i <= skip_ws(s, i, end) <= end,
        skip_ws(s, i, end) < end ==> !is_whitespace(s[skip_ws(s, i, end)]),
    decreases end - i,
{
    if i < end && is_whitespace(s[i]) {
        lemma_skip_ws_bounds(s, i + 1, end);
    }
}

pub proof fn lemma_token_end_bounds(s: Seq<char>, i: int, end: int)
    requires
        0 <= i <= end <= s.len(),
    ensures
        i <= token_end(s, i, end) <= end,
    decreases end - i,
{
    if i < end && !is_whitespace(s[i]) {
        lemma_token_end_bounds(s, i + 1, end);
    }
}

pub proof fn lemma_trim_end_bounds(s: Seq<char>, start: int, j: int)
    requires
        0 <= start <= j <= s.len(),
    ensures
        start <= trim_end(s, start, j) <= j,
    decreases j - start,
{
    if j > start && is_whitespace(s[j - 1]) {
        lemma_trim_end_bounds(s, start, j - 1);
    }
}

/// Skips white space from `i` up to `end`.
pub fn skip_whitespace(s: &Vec<char>, i: usize, end: usize) -> (r: usize)
    requires
        i <= end <= s.len(),
    ensures
        r == skip_ws(s@, i as int, end as int),
        i <= r <= end,
{
    proof {
        lemma_skip_ws_bounds(s@, i as int, end as int);
    }
    let mut k = i;
    while k < end && is_whitespace_char(s[k])
        invariant
            i <= k <= end <= s.len(),
            skip_ws(s@, i as int, end as int) == skip_ws(s@, k as int, end as int),
        decreases end - k,
    {
        k = k + 1;
    }
    k
}

/// Advances from `i` to the next white space before `end`.
pub fn find_token_end(s: &Vec<char>, i: usize, end: usize) -> (r: usize)
    requires
        i <= end <= s.len(),
    ensures
        r == token_end(s@, i as int, end as int),
        i <= r <= end,
{
    proof {
        lemma_token_end_bounds(s@, i as int, end as int);
    }
    let mut k = i;
    while k < end && !is_whitespace_char(s[k])
        invariant
            i <= k <= end <= s.len(),
            token_end(s@, i as int, end as int) == token_end(s@, k as int, end as int),
        decreases end - k,
    {
        k = k + 1;
    }
    k
}

/// Drops trailing white space from `start..j`, giving the new end.
pub fn trim_end_index(s: &Vec<char>, start: usize, j: usize) -> (r: usize)
    requires
        start <= j <= s.len(),
    ensures
        r == trim_end(s@, start as int, j as int),
        start <= r <= j,
{
    proof {
        lemma_trim_end_bounds(s@, start as int, j as int);
    }
    let mut k = j;
    while k > start && is_whitespace_char(s[k - 1])
        invariant
            start <= k <= j <= s.len(),
            trim_end(s@, start as int, j as int) == trim_end(s@, start as int, k as int),
        decreases k - start,
    {
        k = k - 1;
    }
    k
}

/// First index at or after `i` holding `c`, or `s.len()`.
pub fn index_of_from(s: &Vec<char>, c: char, i: usize) -> (r: usize)
    requires
        i <= s.len(),
    ensures
        r == find_from(s@, c, i as int),
        i <= r <= s.len(),
        r < s.len() ==> s@[r as int] == c,
        forall|j: int| i <= j < r ==> s@[j] != c,
{
    proof {
        lemma_find_from_bounds(s@, c, i as int);
    }
    let mut k: usize = i;
    while k < s.len()
        invariant
            i <= k <= s.len(),
            forall|j: int| i <= j < k ==> s@[j] != c,
            find_from(s@, c, i as int) == find_from(s@, c, k as int),
        decreases s.len() - k,
    {
        if s[k] == c {
            return k;
        }
        k = k + 1;
    }
    k
}

proof fn lemma_digit_char(d: nat)
    requires
        d < 10,
    ensures
        (digit_char(d) as nat) - ('0' as nat) == d,
        is_digit(digit_char(d)),
{
    assert((('0' as nat) + d) as char as nat == ('0' as nat) + d);
}

/// The decimal representation of a number is a non-empty string of digits
/// whose value is the number.
pub proof fn lemma_decimal_digits(n: nat)
    ensures
        decimal(n).len() > 0,
        all_digits(decimal(n)),
        digits_value(decimal(n)) == n,
    decreases n,
{
    if n >= 10 {
        lemma_decimal_digits(n / 10);
        lemma_digit_char(n % 10);
        let d = decimal(n);
        assert(d.drop_last() == decimal(n / 10));
        assert(d.last() == digit_char(n % 10));
        assert(n / 10 * 10 + n % 10 == n) by (nonlinear_arith);
        assert(digits_value(d) == digits_value(decimal(n / 10)) * 10 + (n % 10));
        assert forall|i: int| 0 <= i < d.len() implies is_digit(#[trigger] d[i]) by {
            if i < d.len() - 1 {
                assert(d[i] == decimal(n / 10)[i]);
            }
        }
    } else {
        lemma_digit_char(n);
        let d = decimal(n);
        assert(d.drop_last() =~= Seq::<char>::empty());
        assert(d.last() == digit_char(n));
        assert(digits_value(d.drop_last()) == 0);
    }
}

/// Parsing the decimal representation of a port gives the port back.
pub proof fn lemma_parse_decimal_roundtrip(p: u16)
    ensures
        parse_u16_spec(decimal(p as nat)) == Some(p),
{
    lemma_decimal_digits(p as nat);
    let d = decimal(p as nat);
    assert(is_digit(d[0]));
}

/// If `s[k]` is the first `c` at or after `i`, the search from `i` finds `k`.
pub proof fn lemma_find_from_at(s: Seq<char>, c: char, i: int, k: int)
    requires
        0 <= i <= k < s.len(),
        s[k] == c,
        forall|j: int| i <= j < k ==> s[j] != c,
    ensures
        find_from(s, c, i) == k,
    decreases k - i,
{
    if i < k {
        lemma_find_from_at(s, c, i + 1, k);
    }
}

/// If `c` does not occur at or after `i`, the search from `i` finds nothing.
pub proof fn lemma_find_from_absent(s: Seq<char>, c: char, i: int)
    requires
        0 <= i <= s.len(),
        forall|j: int| i <= j < s.len() ==> s[j] != c,
    ensures
        find_from(s, c, i) == s.len(),
    decreases s.len() - i,
{
    if i < s.len() {
        lemma_find_from_absent(s, c, i + 1);
    }
}

/// `skip_ws` stops at the first character from `i` that is not white space.
pub proof fn lemma_skip_ws_at(s: Seq<char>, i: int, end: int, k: int)
    requires
        0 <= i <= k < end <= s.len(),
        !is_whitespace(s[k]),
        forall|j: int| i <= j < k ==> is_whitespace(s[j]),
    ensures
        skip_ws(s, i, end) == k,
    decreases k - i,
{
    if i < k {
        lemma_skip_ws_at(s, i + 1, end, k);
    }
}

/// `token_end` stops at the first white space from `i`.
pub proof fn lemma_token_end_at(s: Seq<char>, i: int, end: int, k: int)
    requires
        0 <= i <= k < end <= s.len(),
        is_whitespace(s[k]),
        forall|j: int| i <= j < k ==> !is_whitespace(s[j]),
    ensures
        token_end(s, i, end) == k,
    decreases k - i,
{
    if i < k {
        lemma_token_end_at(s, i + 1, end, k);
    }
}

/// Appends the characters of `s` to `out`.
pub fn push_text(out: &mut Vec<char>, s: &str)
    ensures
        final(out)@ == old(out)@ + s@,
{
    let cs = str_chars(s);
    let mut i: usize = 0;
    while i < cs.len()
        invariant
            i <= cs.len(),
            cs@ == s@,
            out@ == old(out)@ + cs@.take(i as int),
        decreases cs.len() - i,
    {
        out.push(cs[i]);
        proof {
            assert(cs@.take(i + 1) == cs@.take(i as int).push(cs@[i as int]));
        }
        i = i + 1;
    }
    proof {
        assert(cs@.take(cs.len() as int) == cs@);
    }
}

} // verus!
