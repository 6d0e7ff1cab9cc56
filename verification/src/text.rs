//! Small string helpers shared by the modules.
use vstd::prelude::*;

verus! {

/// Copies an optional string.
pub fn clone_opt_string(s: &Option<String>) -> (r: Option<String>)
    ensures
        r == *s,
        match (r, *s) {
            (Some(a), Some(b)) => a@ == b@,
            (None, None) => true,
            _ => false,
        },
{
    match s {
        Some(v) => Some(v.clone()),
        None => None,
    }
}

/// The view of an optional string.
pub open spec fn opt_view(s: Option<String>) -> Option<Seq<char>> {
    match s {
        Some(v) => Some(v@),
        None => None,
    }
}

/// Copies an optional string, keeping only a non-empty value.
pub fn non_empty_clone(s: &Option<String>) -> (r: Option<String>)
    ensures
        opt_view(r) == (match *s {
            Some(v) => if v@.len() > 0 { Some(v@) } else { None },
            None => None,
        }),
{
    match s {
        Some(v) => if v.as_str().is_empty() { None } else { Some(v.clone()) },
        None => None,
    }
}

/// Whether an optional string holds a non-empty value.
pub open spec fn spec_is_some_non_empty(s: Option<String>) -> bool {
    match s {
        Some(v) => v@.len() > 0,
        None => false,
    }
}

pub fn is_some_non_empty(s: &Option<String>) -> (r: bool)
    ensures
        r == spec_is_some_non_empty(*s),
{
    match s {
        Some(v) => !v.as_str().is_empty(),
        None => false,
    }
}

/// A copy of the string, or the empty string when absent.
pub fn unwrap_or_empty(s: &Option<String>) -> (r: String)
    ensures
        r@ == (match *s {
            Some(v) => v@,
            None => Seq::<char>::empty(),
        }),
{
    match s {
        Some(v) => v.clone(),
        None => String::new(),
    }
}

/// The characters of a string.
pub fn chars_of(s: &str) -> (r: Vec<char>)
    ensures
        r@ == s@,
{
    let n = s.unicode_len();
    let mut v: Vec<char> = Vec::new();
    for i in 0..n
        invariant
            n == s@.len(),
            v@ == s@.take(i as int),
    {
        let c = s.get_char(i);
        v.push(c);
        assert(v@ == s@.take(i + 1));
    }
    assert(s@.take(n as int) == s@);
    v
}

/// Whether `pat` occurs in `s` at position `i`.
pub open spec fn occurs_at(s: Seq<char>, pat: Seq<char>, i: int) -> bool {
    0 <= i && i + pat.len() <= s.len() && s.subrange(i, i + pat.len()) == pat
}

/// Whether `pat` occurs anywhere in `s`.
pub open spec fn spec_contains(s: Seq<char>, pat: Seq<char>) -> bool {
    exists|i: int| occurs_at(s, pat, i)
}

fn matches_at(s: &Vec<char>, pat: &Vec<char>, i: usize) -> (r: bool)
    requires
        i + pat@.len() <= s@.len(),
    ensures
        r == (s@.subrange(i as int, i + pat@.len()) == pat@),
{
    let mut j: usize = 0;
    while j < pat.len()
        invariant
            i + pat@.len() <= s@.len(),
            j <= pat@.len(),
            forall|k: int| 0 <= k < j ==> s@[i + k] == pat@[k],
        decreases pat@.len() - j,
    {
        assert(i + j < s.len());
        let idx: usize = i + j;
        if s[idx] != pat[j] {
            assert(s@.subrange(i as int, i + pat@.len())[j as int] != pat@[j as int]);
            return false;
        }
        j = j + 1;
    }
    assert(s@.subrange(i as int, i + pat@.len()) =~= pat@);
    true
}

/// Whether `pat` occurs in `s`.
pub fn contains_chars(s: &Vec<char>, pat: &Vec<char>) -> (r: bool)
    ensures
        r == spec_contains(s@, pat@),
{
    if pat.len() > s.len() {
        assert forall|i: int| !occurs_at(s@, pat@, i) by {}
        return false;
    }
    let last = s.len() - pat.len();
    let mut i: usize = 0;
    loop
        invariant
            last == s@.len() - pat@.len(),
            pat@.len() <= s@.len(),
            i <= last,
            forall|k: int| 0 <= k < i ==> !occurs_at(s@, pat@, k),
        ensures
            forall|k: int| 0 <= k <= last ==> !occurs_at(s@, pat@, k),
        decreases last - i,
    {
        if matches_at(s, pat, i) {
            assert(occurs_at(s@, pat@, i as int));
            return true;
        }
        if i == last {
            break;
        }
        i = i + 1;
    }
    assert forall|k: int| !occurs_at(s@, pat@, k) by {
        if 0 <= k && k + pat@.len() <= s@.len() {
            assert(k <= last);
        }
    }
    false
}

/// Whether `pat` occurs in `s`.
pub fn str_contains(s: &str, pat: &str) -> (r: bool)
    ensures
        r == spec_contains(s@, pat@),
{
    let a = chars_of(s);
    let b = chars_of(pat);
    contains_chars(&a, &b)
}

/// Whether a character is an ASCII digit.
pub open spec fn is_digit(c: char) -> bool {
    '0' <= c && c <= '9'
}

/// The value of a sequence of ASCII digits.
pub open spec fn digits_value(s: Seq<char>) -> nat
    decreases s.len(),
{
    if s.len() == 0 {
        0
    } else {
        digits_value(s.drop_last()) * 10 + ((s.last() as u32) - 48) as nat
    }
}

/// Whether every character is an ASCII digit.
pub open spec fn all_digits(d: Seq<char>) -> bool {
    forall|i: int| 0 <= i < d.len() ==> is_digit(#[trigger] d[i])
}

/// The value of a prefix of digits is at most the value of all of them.
pub proof fn lemma_digits_prefix_le(s: Seq<char>, m: int)
    requires
        0 <= m <= s.len(),
        forall|k: int| 0 <= k < s.len() ==> is_digit(#[trigger] s[k]),
    ensures
        digits_value(s.take(m)) <= digits_value(s),
    decreases s.len(),
{
    if m == s.len() {
        assert(s.take(m) =~= s);
    } else {
        let t = s.drop_last();
        assert forall|k: int| 0 <= k < t.len() implies is_digit(#[trigger] t[k]) by {
            assert(t[k] == s[k]);
        }
        lemma_digits_prefix_le(t, m);
        assert(t.take(m) =~= s.take(m));
    }
}

/// What `str::parse::<i64>` accepts: an optional sign, then at least one ASCII digit and
/// nothing else, with a value that fits in `i64`.
pub open spec fn spec_parse_i64(s: Seq<char>) -> Option<i64> {
    let neg = s.len() > 0 && s[0] == '-';
    let digits = if s.len() > 0 && (s[0] == '-' || s[0] == '+') { s.skip(1) } else { s };
    if digits.len() > 0 && all_digits(digits) {
        let v = digits_value(digits);
        if neg {
            if v <= 0x8000_0000_0000_0000 { Some((-v) as i64) } else { None }
        } else {
            if v <= i64::MAX { Some(v as i64) } else { None }
        }
    } else {
        None
    }
}

/// Parses a decimal `i64` as `str::parse` does.
pub fn parse_i64_chars(cs: &Vec<char>) -> (r: Option<i64>)
    ensures
        r == spec_parse_i64(cs@),
{
    let neg = cs.len() > 0 && cs[0] == '-';
    let start: usize = if cs.len() > 0 && (cs[0] == '-' || cs[0] == '+') { 1 } else { 0 };
    let ghost digits = if cs@.len() > 0 && (cs@[0] == '-' || cs@[0] == '+') { cs@.skip(1) } else { cs@ };
    assert(cs@.skip(start as int) =~= digits);
    if start >= cs.len() {
        return None;
    }
    let limit: u64 = if neg { 0x8000_0000_0000_0000 } else { 0x7fff_ffff_ffff_ffff };
    let mut value: u64 = 0;
    let mut i: usize = start;
    while i < cs.len()
        invariant
            start <= i <= cs@.len(),
            start == (if cs@.len() > 0 && (cs@[0] == '-' || cs@[0] == '+') { 1int } else { 0int }),
            digits == cs@.skip(start as int),
            digits == (if cs@.len() > 0 && (cs@[0] == '-' || cs@[0] == '+') { cs@.skip(1) } else { cs@ }),
            neg == (cs@.len() > 0 && cs@[0] == '-'),
            limit == (if neg { 0x8000_0000_0000_0000u64 } else { 0x7fff_ffff_ffff_ffffu64 }),
            forall|k: int| 0 <= k < i - start ==> is_digit(#[trigger] digits[k]),
            value == digits_value(cs@.subrange(start as int, i as int)),
            value <= limit,
        decreases cs@.len() - i,
    {
        let c = cs[i];
        if !('0' <= c && c <= '9') {
            assert(!is_digit(digits[i - start]));
            assert(!all_digits(digits));
            return None;
        }
        let d: u64 = ((c as u32) - 48) as u64;
        assert(cs@.subrange(start as int, i + 1).drop_last() =~= cs@.subrange(start as int, i as int));
        if value > (limit - d) / 10 {
            proof {
                let m = (i - start + 1) as int;
                assert(cs@.subrange(start as int, i + 1) =~= digits.take(m));
                assert(digits_value(digits.take(m)) == value * 10 + d);
                assert(digits_value(digits.take(m)) > limit) by (nonlinear_arith)
                    requires
                        digits_value(digits.take(m)) == value * 10 + d,
                        value > (limit - d) / 10,
                        d <= 9,
                        d <= limit,
                {}
                if all_digits(digits) {
                    lemma_digits_prefix_le(digits, m);
                }
            }
            return None;
        }
        value = value * 10 + d;
        i = i + 1;
    }
    assert(cs@.subrange(start as int, cs@.len() as int) =~= digits);
    if neg {
        if value == 0x8000_0000_0000_0000 {
            Some(-0x7fff_ffff_ffff_ffffi64 - 1)
        } else {
            Some(-(value as i64))
        }
    } else {
        Some(value as i64)
    }
}

/// Whether `s` starts with `prefix`.
pub open spec fn spec_starts_with(s: Seq<char>, prefix: Seq<char>) -> bool {
    prefix.len() <= s.len() && s.subrange(0, prefix.len() as int) == prefix
}

pub fn str_starts_with(s: &str, prefix: &str) -> (r: bool)
    ensures
        r == spec_starts_with(s@, prefix@),
{
    let a = chars_of(s);
    let b = chars_of(prefix);
    if b.len() > a.len() {
        return false;
    }
    matches_at(&a, &b, 0)
}

/// The character of a decimal digit.
pub open spec fn digit_char(d: nat) -> char {
    (48 + d) as char
}

/// The decimal representation of a natural number, without leading zeros.
pub open spec fn spec_decimal(n: nat) -> Seq<char>
    decreases n,
{
    if n < 10 {
        seq![digit_char(n)]
    } else {
        spec_decimal(n / 10).push(digit_char(n % 10))
    }
}

/// The decimal representation of an integer, with a leading minus sign when negative.
pub open spec fn spec_decimal_int(i: int) -> Seq<char> {
    if i < 0 {
        seq!['-'] + spec_decimal((-i) as nat)
    } else {
        spec_decimal(i as nat)
    }
}

/// Appends the decimal digits of `n`, most significant first.
fn push_decimal(n: u64, out: &mut Vec<char>)
    ensures
        final(out)@ == old(out)@ + spec_decimal(n as nat),
    decreases n,
{
    if n >= 10 {
        push_decimal(n / 10, out);
    }
    let d: u8 = (n % 10) as u8;
    let c = (48u8 + d) as char;
    let ghost before = out@;
    out.push(c);
    proof {
        if n >= 10 {
            assert(before == old(out)@ + spec_decimal((n / 10) as nat));
            assert(out@ =~= old(out)@ + spec_decimal((n / 10) as nat).push(digit_char((n % 10) as nat)));
        } else {
            assert(out@ =~= old(out)@ + seq![digit_char(n as nat)]);
        }
    }
}

/// The decimal representation of the number.
pub(crate) fn usize_to_string(n: usize) -> (r: String)
    ensures
        r@ == spec_decimal(n as nat),
{
    let mut v: Vec<char> = Vec::new();
    push_decimal(n as u64, &mut v);
    assert(v@ =~= spec_decimal(n as nat));
    string_from_chars(&v)
}

/// The decimal representation of the number, with a leading minus sign when negative.
pub(crate) fn i64_to_string(n: i64) -> (r: String)
    ensures
        r@ == spec_decimal_int(n as int),
{
    let mut v: Vec<char> = Vec::new();
    if n < 0 {
        v.push('-');
        let m: u64 = (0i128 - n as i128) as u64;
        push_decimal(m, &mut v);
        assert(v@ =~= seq!['-'] + spec_decimal((-n) as nat));
    } else {
        push_decimal(n as u64, &mut v);
        assert(v@ =~= spec_decimal(n as nat));
    }
    string_from_chars(&v)
}

/// `String::from_iter` over characters: the string made of the given characters.
#[verifier::external_body]
pub(crate) fn string_from_chars(v: &Vec<char>) -> (r: String)
    ensures
        r@ == v@,
{
    v.iter().collect::<String>()
}

/// The number of bytes of the UTF-8 encoding of a string (`str::len`).
pub open spec fn byte_len(s: Seq<char>) -> usize {
    vstd::utf8::encode_utf8(s).len() as usize
}

/// The characters with the Unicode `White_Space` property (what `char::is_whitespace` tests).
pub open spec fn spec_is_whitespace(c: char) -> bool {
    let v = c as u32;
    (0x9 <= v && v <= 0xD) || v == 0x20 || v == 0x85 || v == 0xA0 || v == 0x1680
        || (0x2000 <= v && v <= 0x200A) || v == 0x2028 || v == 0x2029 || v == 0x202F
        || v == 0x205F || v == 0x3000
}

/// Whether a character is Unicode white space.
pub fn is_whitespace(c: char) -> (r: bool)
    ensures
        r == spec_is_whitespace(c),
{
    let v = c as u32;
    (0x9 <= v && v <= 0xD) || v == 0x20 || v == 0x85 || v == 0xA0 || v == 0x1680
        || (0x2000 <= v && v <= 0x200A) || v == 0x2028 || v == 0x2029 || v == 0x202F
        || v == 0x205F || v == 0x3000
}

/// A sequence without its leading white space.
pub open spec fn spec_trim_start(s: Seq<char>) -> Seq<char>
    decreases s.len(),
{
    if s.len() > 0 && spec_is_whitespace(s[0]) {
        spec_trim_start(s.drop_first())
    } else {
        s
    }
}

/// A sequence without its trailing white space.
pub open spec fn spec_trim_end(s: Seq<char>) -> Seq<char>
    decreases s.len(),
{
    if s.len() > 0 && spec_is_whitespace(s.last()) {
        spec_trim_end(s.drop_last())
    } else {
        s
    }
}

/// A sequence without its leading and trailing white space (`str::trim`).
pub open spec fn spec_trim(s: Seq<char>) -> Seq<char> {
    spec_trim_end(spec_trim_start(s))
}

/// Trims leading and trailing white space.
pub fn trim_chars(s: &Vec<char>) -> (r: Vec<char>)
    ensures
        r@ == spec_trim(s@),
{
    let n = s.len();
    let mut start: usize = 0;
    assert(s@.subrange(0, n as int) =~= s@);
    while start < n && is_whitespace(s[start])
        invariant
            n == s@.len(),
            start <= n,
            spec_trim_start(s@) == spec_trim_start(s@.subrange(start as int, n as int)),
        decreases n - start,
    {
        assert(s@.subrange(start as int, n as int).drop_first() =~= s@.subrange(start + 1, n as int));
        start = start + 1;
    }
    assert(spec_trim_start(s@) == s@.subrange(start as int, n as int));
    let mut end: usize = n;
    while end > start && is_whitespace(s[end - 1])
        invariant
            n == s@.len(),
            start <= end <= n,
            spec_trim(s@) == spec_trim_end(s@.subrange(start as int, end as int)),
        decreases end - start,
    {
        assert(s@.subrange(start as int, end as int).drop_last() =~= s@.subrange(start as int, end - 1));
        end = end - 1;
    }
    assert(spec_trim(s@) == s@.subrange(start as int, end as int));
    let mut out: Vec<char> = Vec::new();
    let mut i = start;
    while i < end
        invariant
            n == s@.len(),
            start <= i <= end <= n,
            out@ == s@.subrange(start as int, i as int),
        decreases end - i,
    {
        out.push(s[i]);
        assert(out@ =~= s@.subrange(start as int, i + 1));
        i = i + 1;
    }
    out
}

/// The pieces of a sequence separated by `sep` (`str::split` with a character): as many
/// pieces as separators plus one, possibly empty.
pub open spec fn spec_split(s: Seq<char>, sep: char) -> Seq<Seq<char>>
    decreases s.len(),
{
    if s.len() == 0 {
        seq![Seq::<char>::empty()]
    } else {
        let p = spec_split(s.drop_last(), sep);
        if s.last() == sep {
            p.push(Seq::<char>::empty())
        } else {
            p.update(p.len() - 1, p.last().push(s.last()))
        }
    }
}

pub proof fn lemma_split_nonempty(s: Seq<char>, sep: char)
    ensures
        spec_split(s, sep).len() >= 1,
    decreases s.len(),
{
    if s.len() > 0 {
        lemma_split_nonempty(s.drop_last(), sep);
    }
}

/// The views of a sequence of character vectors.
pub open spec fn views(v: Seq<Vec<char>>) -> Seq<Seq<char>> {
    v.map_values(|x: Vec<char>| x@)
}

/// Splits characters at every `sep`.
pub fn split_chars(s: &Vec<char>, sep: char) -> (r: Vec<Vec<char>>)
    ensures
        views(r@) == spec_split(s@, sep),
{
    let mut pieces: Vec<Vec<char>> = Vec::new();
    let mut cur: Vec<char> = Vec::new();
    for i in 0..s.len()
        invariant
            views(pieces@).push(cur@) == spec_split(s@.take(i as int), sep),
    {
        let c = s[i];
        proof {
            assert(s@.take(i + 1).drop_last() =~= s@.take(i as int));
            assert(s@.take(i + 1).last() == c);
            lemma_split_nonempty(s@.take(i as int), sep);
        }
        let ghost before = views(pieces@);
        if c == sep {
            let done = cur;
            pieces.push(done);
            cur = Vec::new();
            assert(views(pieces@) =~= before.push(done@));
            assert(views(pieces@).push(cur@) =~= spec_split(s@.take(i + 1), sep));
        } else {
            let ghost old_cur = cur@;
            cur.push(c);
            assert(views(pieces@).push(cur@) =~= before.push(old_cur).update(
                before.len() as int, old_cur.push(c)));
        }
    }
    assert(s@.take(s@.len() as int) =~= s@);
    let ghost before = views(pieces@);
    let last = cur;
    pieces.push(last);
    assert(views(pieces@) =~= before.push(last@));
    pieces
}

} // verus!
