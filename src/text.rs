//! Character-level helpers shared by the scanners: Unicode whitespace,
//! trimming, substring search and line joining, each stated over `Seq<char>`.
use vstd::prelude::*;
use vstd::std_specs::iter::IteratorSpec;
use vstd::string::*;

verus! {

/// The characters with the Unicode `White_Space` property, which is what
/// `char::is_whitespace` tests.
pub open spec fn is_ws(c: char) -> bool {
    let u = c as u32;
    (9 <= u && u <= 13) || u == 32 || u == 0x85 || u == 0xA0 || u == 0x1680 || (0x2000 <= u
        && u <= 0x200A) || u == 0x2028 || u == 0x2029 || u == 0x202F || u == 0x205F || u
        == 0x3000
}

pub fn is_whitespace(c: char) -> (r: bool)
    ensures
        r == is_ws(c),
{
    let u = c as u32;
    (9 <= u && u <= 13) || u == 32 || u == 0x85 || u == 0xA0 || u == 0x1680 || (0x2000 <= u
        && u <= 0x200A) || u == 0x2028 || u == 0x2029 || u == 0x202F || u == 0x205F || u
        == 0x3000
}

/// `s` without its leading whitespace.
pub open spec fn trim_start(s: Seq<char>) -> Seq<char>
    decreases s.len(),
{
    if s.len() > 0 && is_ws(s[0]) {
        trim_start(s.drop_first())
    } else {
        s
    }
}

/// `s` without its trailing whitespace.
pub open spec fn trim_end(s: Seq<char>) -> Seq<char>
    decreases s.len(),
{
    if s.len() > 0 && is_ws(s.last()) {
        trim_end(s.drop_last())
    } else {
        s
    }
}

/// `s` without leading and trailing whitespace, as `str::trim` gives it.
pub open spec fn trim(s: Seq<char>) -> Seq<char> {
    trim_end(trim_start(s))
}

/// The characters of a string, one per element.
pub fn chars_of(s: &str) -> (r: Vec<char>)
    ensures
        r@ == s@,
{
    let mut out: Vec<char> = Vec::new();
    let mut it = s.chars();
    let ghost all = it.remaining();
    loop
        invariant
            all == s@,
            out@ + it.remaining() == all,
            it.obeys_prophetic_iter_laws(),
            it.decrease() is Some,
        ensures
            out@ == all,
        decreases it.decrease()->0,
    {
        let ghost before = it.remaining();
        match it.next() {
            Some(c) => {
                out.push(c);
                assert(out@ + it.remaining() =~= all);
            },
            None => {
                assert(out@ =~= all);
                break ;
            },
        }
    }
    out
}

/// `pat` stands in `s` at index `k`.
pub open spec fn occurs_at(s: Seq<char>, pat: Seq<char>, k: int) -> bool {
    0 <= k && k + pat.len() <= s.len() && s.subrange(k, k + pat.len()) == pat
}

/// The first index at or after `i` where `pat` stands in `s`.
pub open spec fn find_from(s: Seq<char>, pat: Seq<char>, i: int) -> Option<int>
    decreases s.len() + 1 - i,
{
    if i < 0 || i + pat.len() > s.len() {
        None
    } else if occurs_at(s, pat, i) {
        Some(i)
    } else {
        find_from(s, pat, i + 1)
    }
}

pub proof fn lemma_find_from_bounds(s: Seq<char>, pat: Seq<char>, i: int)
    requires
        0 <= i,
    ensures
        find_from(s, pat, i) matches Some(k) ==> i <= k && occurs_at(s, pat, k) && forall|
            j: int,
        | i <= j < k ==> !occurs_at(s, pat, j),
        find_from(s, pat, i) is None ==> forall|j: int| i <= j ==> !occurs_at(s, pat, j),
    decreases s.len() + 1 - i,
{
    if i < 0 || i + pat.len() > s.len() {
    } else if occurs_at(s, pat, i) {
    } else {
        lemma_find_from_bounds(s, pat, i + 1);
    }
}

/// Whether `pat` stands in `v` at index `k`.
pub fn matches_at(v: &Vec<char>, pat: &Vec<char>, k: usize) -> (r: bool)
    ensures
        r == occurs_at(v@, pat@, k as int),
{
    let n: usize = v.len();
    if k > n || pat.len() > n - k {
        return false;
    }
    let mut j: usize = 0;
    while j < pat.len()
        invariant
            n == v@.len(),
            j <= pat@.len(),
            k + pat@.len() <= v@.len(),
            forall|t: int| 0 <= t < j ==> v@[k + t] == pat@[t],
        decreases pat@.len() - j,
    {
        if v[k + j] != pat[j] {
            assert(v@.subrange(k as int, k + pat@.len())[j as int] != pat@[j as int]);
            return false;
        }
        j = j + 1;
    }
    assert(v@.subrange(k as int, k + pat@.len()) =~= pat@);
    true
}

/// The first index at or after `i` where `pat` stands in `v`.
pub fn find_at_or_after(v: &Vec<char>, pat: &Vec<char>, i: usize) -> (r: Option<usize>)
    ensures
        r matches Some(k) ==> find_from(v@, pat@, i as int) == Some(k as int),
        r is None ==> find_from(v@, pat@, i as int) is None,
{
    if pat.len() > v.len() {
        return None;
    }
    let last: usize = v.len() - pat.len();
    let mut k: usize = i;
    while k <= last
        invariant
            i <= k,
            last + pat@.len() == v@.len(),
            find_from(v@, pat@, i as int) == find_from(v@, pat@, k as int),
        decreases last + 1 - k,
    {
        if matches_at(v, pat, k) {
            return Some(k);
        }
        if k == last {
            assert(find_from(v@, pat@, k + 1) is None);
            return None;
        }
        k = k + 1;
    }
    None
}

/// The bounds `(a, b)` of `v[from..to]` without leading and trailing whitespace.
pub fn trim_range(v: &Vec<char>, from: usize, to: usize) -> (r: (usize, usize))
    requires
        from <= to <= v@.len(),
    ensures
        from <= r.0 <= r.1 <= to,
        v@.subrange(r.0 as int, r.1 as int) == trim(v@.subrange(from as int, to as int)),
{
    let mut a: usize = from;
    while a < to && is_whitespace(v[a])
        invariant
            from <= a <= to <= v@.len(),
            trim_start(v@.subrange(from as int, to as int)) == trim_start(
                v@.subrange(a as int, to as int),
            ),
        decreases to - a,
    {
        assert(v@.subrange(a as int, to as int).drop_first() =~= v@.subrange(a + 1, to as int));
        a = a + 1;
    }
    assert(trim_start(v@.subrange(a as int, to as int)) == v@.subrange(a as int, to as int));
    let mut b: usize = to;
    while b > a && is_whitespace(v[b - 1])
        invariant
            a <= b <= to <= v@.len(),
            trim(v@.subrange(from as int, to as int)) == trim_end(v@.subrange(a as int, b as int)),
        decreases b - a,
    {
        assert(v@.subrange(a as int, b as int).drop_last() =~= v@.subrange(a as int, b - 1));
        b = b - 1;
    }
    assert(trim_end(v@.subrange(a as int, b as int)) == v@.subrange(a as int, b as int));
    (a, b)
}

/// The string made of `s[a..b]`, counted in characters.
pub fn substring(s: &str, a: usize, b: usize) -> (r: String)
    requires
        a <= b <= s@.len(),
    ensures
        r@ == s@.subrange(a as int, b as int),
{
    let part = s.substring_char(a, b);
    String::from_str(part)
}

/// Lines joined by `\n`, as `[&str]::join("\n")` joins them.
pub open spec fn join_lines(parts: Seq<Seq<char>>) -> Seq<char>
    decreases parts.len(),
{
    if parts.len() == 0 {
        Seq::empty()
    } else if parts.len() == 1 {
        parts[0]
    } else {
        join_lines(parts.drop_last()) + seq!['\n'] + parts.last()
    }
}

/// Appends `part` as the next line of `text`, which holds `parts` joined.
pub fn push_line(text: &mut String, started: bool, part: &str, Ghost(parts): Ghost<Seq<Seq<char>>>)
    requires
        old(text)@ == join_lines(parts),
        started == (parts.len() > 0),
    ensures
        final(text)@ == join_lines(parts.push(part@)),
{
    assert(parts.push(part@).drop_last() =~= parts);
    if started {
        let nl = "\n";
        proof {
            reveal_strlit("\n");
        }
        text.append(nl);
        assert(nl@ =~= seq!['\n']);
    } else {
        assert(parts.push(part@).len() == 1);
    }
    text.append(part);
}

/// Relies on String::push: the character is appended.
#[verifier::external_body]
pub fn push_char(s: &mut String, c: char)
    ensures
        final(s)@ == old(s)@.push(c),
{
    s.push(c)
}

/// The lowercase hexadecimal digit of `d` (`0`-`9`, `a`-`f`).
pub open spec fn digit_char(d: nat) -> char {
    if d < 10 {
        ('0' as u32 + d) as char
    } else {
        ('a' as u32 + (d - 10)) as char
    }
}

pub fn digit(d: u64) -> (r: char)
    requires
        d < 16,
    ensures
        r == digit_char(d as nat),
{
    if d < 10 {
        ((48 + d) as u8) as char
    } else {
        ((97 + (d - 10)) as u8) as char
    }
}

/// The digits of `n` in base `b`, most significant first, without leading zeros.
pub open spec fn digits(n: nat, b: nat) -> Seq<char>
    decreases n,
{
    if b < 2 || n < b {
        seq![digit_char(n)]
    } else {
        proof {
            assert(n / b < n) by (nonlinear_arith)
                requires
                    b >= 2,
                    n >= b,
            ;
        }
        digits(n / b, b).push(digit_char(n % b))
    }
}

/// Appends the base-`b` digits of `n` (`b` is 10 or 16).
pub fn push_digits(s: &mut String, n: u64, b: u64)
    requires
        b == 10 || b == 16,
    ensures
        final(s)@ == old(s)@ + digits(n as nat, b as nat),
    decreases n,
{
    if n >= b {
        push_digits(s, n / b, b);
    }
    let ghost mid = s@;
    push_char(s, digit(n % b));
    assert(s@ =~= old(s)@ + digits(n as nat, b as nat));
}

/// The decimal form of `n`.
pub fn decimal(n: u64) -> (r: String)
    ensures
        r@ == digits(n as nat, 10),
{
    let mut s = String::new();
    push_digits(&mut s, n, 10);
    assert(s@ =~= digits(n as nat, 10));
    s
}

/// The lowercase hexadecimal form of `n`.
pub fn hexadecimal(n: u64) -> (r: String)
    ensures
        r@ == digits(n as nat, 16),
{
    let mut s = String::new();
    push_digits(&mut s, n, 16);
    assert(s@ =~= digits(n as nat, 16));
    s
}

/// `s` without leading and trailing whitespace.
pub fn trim_string(s: &str) -> (r: String)
    ensures
        r@ == trim(s@),
{
    let c = chars_of(s);
    let n = c.len();
    assert(c@.subrange(0, n as int) =~= s@);
    let (a, b) = trim_range(&c, 0, n);
    substring(s, a, b)
}

/// Whether `s` begins with `prefix`.
pub fn starts_with(s: &str, prefix: &str) -> (r: bool)
    ensures
        r == (prefix@.len() <= s@.len() && s@.subrange(0, prefix@.len() as int) == prefix@),
{
    let c = chars_of(s);
    let p = chars_of(prefix);
    matches_at(&c, &p, 0)
}

/// `s` without the trailing characters equal to `c`.
pub open spec fn strip_trailing(s: Seq<char>, c: char) -> Seq<char>
    decreases s.len(),
{
    if s.len() > 0 && s.last() == c {
        strip_trailing(s.drop_last(), c)
    } else {
        s
    }
}

/// `s` without the trailing characters equal to `c`, as
/// `str::trim_end_matches(c)` gives it.
pub fn strip_trailing_string(s: &str, c: char) -> (r: String)
    ensures
        r@ == strip_trailing(s@, c),
{
    let v = chars_of(s);
    let mut n: usize = v.len();
    assert(v@.subrange(0, n as int) =~= v@);
    while n > 0 && v[n - 1] == c
        invariant
            n <= v@.len(),
            v@ == s@,
            strip_trailing(s@, c) == strip_trailing(v@.subrange(0, n as int), c),
        decreases n,
    {
        assert(v@.subrange(0, n as int).drop_last() =~= v@.subrange(0, n - 1));
        n = n - 1;
    }
    substring(s, 0, n)
}

/// The number of bytes of `c` in UTF-8.
pub open spec fn utf8_width(c: char) -> int {
    let u = c as u32;
    if u < 0x80 {
        1
    } else if u < 0x800 {
        2
    } else if u < 0x10000 {
        3
    } else {
        4
    }
}

/// How many leading characters of `s` fit, in UTF-8, within `budget` bytes.
pub open spec fn fit_chars(s: Seq<char>, budget: int) -> nat
    decreases s.len(),
{
    if s.len() == 0 || utf8_width(s[0]) > budget {
        0
    } else {
        1 + fit_chars(s.drop_first(), budget - utf8_width(s[0]))
    }
}

pub proof fn lemma_fit_chars_bound(s: Seq<char>, budget: int)
    ensures
        fit_chars(s, budget) <= s.len(),
    decreases s.len(),
{
    if s.len() > 0 && utf8_width(s[0]) <= budget {
        lemma_fit_chars_bound(s.drop_first(), budget - utf8_width(s[0]));
    }
}

/// The longest prefix of `s` whose UTF-8 form holds at most `budget` bytes:
/// `s` cut at the last character boundary within the budget.
pub open spec fn byte_prefix(s: Seq<char>, budget: int) -> Seq<char> {
    s.subrange(0, fit_chars(s, budget) as int)
}

/// Whether the UTF-8 form of `s` is longer than `budget` bytes (not every
/// character fits).
pub open spec fn exceeds_bytes(s: Seq<char>, budget: int) -> bool {
    fit_chars(s, budget) < s.len()
}

fn width(c: char) -> (r: usize)
    ensures
        r == utf8_width(c),
{
    let u = c as u32;
    if u < 0x80 {
        1
    } else if u < 0x800 {
        2
    } else if u < 0x10000 {
        3
    } else {
        4
    }
}

/// How many leading characters of `v` fit within `budget` bytes.
pub fn fit_count(v: &Vec<char>, budget: usize) -> (k: usize)
    ensures
        k == fit_chars(v@, budget as int),
        k <= v@.len(),
{
    let mut i: usize = 0;
    let mut used: usize = 0;
    assert(v@.subrange(0, v@.len() as int) =~= v@);
    while i < v.len()
        invariant
            i <= v@.len(),
            used <= budget,
            fit_chars(v@, budget as int) == i + fit_chars(
                v@.subrange(i as int, v@.len() as int),
                budget - used,
            ),
        decreases v@.len() - i,
    {
        let w = width(v[i]);
        assert(v@.subrange(i as int, v@.len() as int)[0] == v@[i as int]);
        assert(v@.subrange(i as int, v@.len() as int).drop_first() =~= v@.subrange(
            i + 1,
            v@.len() as int,
        ));
        if w > budget - used {
            return i;
        }
        used = used + w;
        i = i + 1;
    }
    i
}

/// `s` cut at the last character boundary within `budget` bytes, and
/// whether anything was cut.
pub fn cut_to_bytes(s: &str, budget: usize) -> (r: (String, bool))
    ensures
        r.0@ == byte_prefix(s@, budget as int),
        r.1 == exceeds_bytes(s@, budget as int),
{
    let c = chars_of(s);
    let k = fit_count(&c, budget);
    (substring(s, 0, k), k < c.len())
}

} // verus!
