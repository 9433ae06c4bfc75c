//! Character-level text operations with their meaning over character sequences.
use vstd::prelude::*;

verus! {

/// The characters of `s`, in order.
pub fn chars_of(s: &str) -> (out: Vec<char>)
    ensures
        out@ == s@,
{
    let mut out: Vec<char> = Vec::new();
    for c in it: s.chars()
        invariant
            out@ == it.seq().take(it.index() as int),
            it.seq() == s@,
    {
        out.push(c);
    }
    out
}

/// Whether two strings hold the same characters.
pub fn str_equals(a: &str, b: &str) -> (r: bool)
    ensures
        r == (a@ == b@),
{
    let x = chars_of(a);
    let y = chars_of(b);
    if x.len() != y.len() {
        return false;
    }
    let mut i: usize = 0;
    while i < x.len()
        invariant
            x@ == a@,
            y@ == b@,
            x@.len() == y@.len(),
            i <= x@.len(),
            forall|j: int| 0 <= j < i ==> x@[j] == y@[j],
        decreases x@.len() - i,
    {
        if x[i] != y[i] {
            return false;
        }
        i = i + 1;
    }
    assert(x@ =~= y@);
    true
}

/// Appends one character to `s` (std's `String::push`).
#[verifier::external_body]
pub(crate) fn push_char(s: &mut String, c: char)
    ensures
        final(s)@ == old(s)@.push(c),
{
    s.push(c)
}

/// Appends every character of `cs` to `s`.
pub fn push_all(s: &mut String, cs: &Vec<char>)
    ensures
        final(s)@ == old(s)@ + cs@,
{
    let mut i: usize = 0;
    while i < cs.len()
        invariant
            i <= cs@.len(),
            s@ == old(s)@ + cs@.take(i as int),
        decreases cs@.len() - i,
    {
        push_char(s, cs[i]);
        assert(cs@.take(i as int).push(cs@[i as int]) =~= cs@.take(i + 1));
        i = i + 1;
    }
    assert(cs@.take(cs@.len() as int) =~= cs@);
}

/// A new string holding the characters of `s`.
pub fn string_of(s: &str) -> (r: String)
    ensures
        r@ == s@,
{
    let cs = chars_of(s);
    let mut r = String::new();
    push_all(&mut r, &cs);
    assert(r@ =~= s@);
    r
}

/// Appends the characters of `t` to `s`.
pub fn push_str(s: &mut String, t: &str)
    ensures
        final(s)@ == old(s)@ + t@,
{
    let cs = chars_of(t);
    push_all(s, &cs);
}

/// `a` followed by `b`.
pub fn join2(a: &str, b: &str) -> (r: String)
    ensures
        r@ == a@ + b@,
{
    let mut r = string_of(a);
    push_str(&mut r, b);
    r
}

/// `a`, then `b`, then `c`.
pub fn join3(a: &str, b: &str, c: &str) -> (r: String)
    ensures
        r@ == a@ + b@ + c@,
{
    let mut r = join2(a, b);
    push_str(&mut r, c);
    r
}

// ---------------------------------------------------------------------------
// Decimal numerals

/// The character of a decimal digit.
pub open spec fn digit_char(d: nat) -> char {
    if d == 0 { '0' }
    else if d == 1 { '1' }
    else if d == 2 { '2' }
    else if d == 3 { '3' }
    else if d == 4 { '4' }
    else if d == 5 { '5' }
    else if d == 6 { '6' }
    else if d == 7 { '7' }
    else if d == 8 { '8' }
    else { '9' }
}

/// The decimal digits of `n`, most significant first, without leading zeros.
pub open spec fn digits(n: nat) -> Seq<char>
    decreases n,
{
    if n < 10 {
        seq![digit_char(n)]
    } else {
        digits(n / 10).push(digit_char(n % 10))
    }
}

/// `n` written in decimal, with a leading `-` when negative.
pub open spec fn decimal(n: int) -> Seq<char> {
    if n < 0 {
        seq!['-'] + digits((-n) as nat)
    } else {
        digits(n as nat)
    }
}

fn digit_of(d: u128) -> (c: char)
    requires
        d < 10,
    ensures
        c == digit_char(d as nat),
{
    if d == 0 { '0' }
    else if d == 1 { '1' }
    else if d == 2 { '2' }
    else if d == 3 { '3' }
    else if d == 4 { '4' }
    else if d == 5 { '5' }
    else if d == 6 { '6' }
    else if d == 7 { '7' }
    else if d == 8 { '8' }
    else { '9' }
}

fn push_digits(s: &mut String, n: u128)
    ensures
        final(s)@ == old(s)@ + digits(n as nat),
    decreases n,
{
    if n >= 10 {
        push_digits(s, n / 10);
    }
    push_char(s, digit_of(n % 10));
    assert(s@ =~= old(s)@ + digits(n as nat));
}

/// Appends `n` written in decimal to `s`.
pub fn push_decimal_wide(s: &mut String, n: i128)
    requires
        n > i128::MIN,
    ensures
        final(s)@ == old(s)@ + decimal(n as int),
{
    if n < 0 {
        push_char(s, '-');
        let magnitude: u128 = (-n) as u128;
        push_digits(s, magnitude);
        assert(s@ =~= old(s)@ + decimal(n as int));
    } else {
        push_digits(s, n as u128);
    }
}

/// Appends `n` written in decimal to `s`.
pub fn push_decimal(s: &mut String, n: i64)
    ensures
        final(s)@ == old(s)@ + decimal(n as int),
{
    push_decimal_wide(s, n as i128);
}

/// `n` written in decimal.
pub fn decimal_string(n: i64) -> (r: String)
    ensures
        r@ == decimal(n as int),
{
    let mut r = String::new();
    push_decimal(&mut r, n);
    assert(r@ =~= decimal(n as int));
    r
}

// ---------------------------------------------------------------------------
// Searching

/// Whether `needle` occurs in `hay` at position `i`.
pub open spec fn occurs_at(hay: Seq<char>, needle: Seq<char>, i: int) -> bool {
    0 <= i && i + needle.len() <= hay.len() && hay.subrange(i, i + needle.len()) == needle
}

/// Whether `needle` occurs somewhere in `hay`.
pub open spec fn contains_seq(hay: Seq<char>, needle: Seq<char>) -> bool {
    exists|i: int| occurs_at(hay, needle, i)
}

fn matches_at(h: &Vec<char>, n: &Vec<char>, i: usize) -> (r: bool)
    requires
        i + n@.len() <= h@.len(),
    ensures
        r == occurs_at(h@, n@, i as int),
{
    let mut j: usize = 0;
    let ghost hl = h@.len();
    assert(h@.len() == h.len());
    while j < n.len()
        invariant
            i + n@.len() <= h@.len(),
            h@.len() == hl,
            hl <= usize::MAX,
            j <= n@.len(),
            forall|k: int| 0 <= k < j ==> h@[i + k] == n@[k],
        decreases n@.len() - j,
    {
        if h[i + j] != n[j] {
            assert(h@.subrange(i as int, i + n@.len())[j as int] != n@[j as int]);
            return false;
        }
        j = j + 1;
    }
    assert(h@.subrange(i as int, i + n@.len()) =~= n@);
    true
}

/// Whether `needle` occurs in `hay` (std's `str::contains` with a string pattern).
pub fn contains_text(hay: &str, needle: &str) -> (r: bool)
    ensures
        r == contains_seq(hay@, needle@),
{
    let h = chars_of(hay);
    let n = chars_of(needle);
    if n.len() > h.len() {
        assert(!contains_seq(hay@, needle@));
        return false;
    }
    if n.len() == 0 {
        assert(occurs_at(h@, n@, 0)) by {
            assert(h@.subrange(0, 0) =~= n@);
        }
        return true;
    }
    let mut i: usize = 0;
    assert(h@.len() == h.len());
    let last = h.len() - n.len();
    while i <= last
        invariant
            h@ == hay@,
            n@ == needle@,
            n@.len() <= h@.len(),
            last == h@.len() - n@.len(),
            n@.len() > 0,
            h@.len() <= usize::MAX,
            i <= last + 1,
            forall|k: int| 0 <= k < i ==> !occurs_at(h@, n@, k),
        decreases last + 1 - i,
    {
        if matches_at(&h, &n, i) {
            return true;
        }
        i = i + 1;
    }
    assert forall|k: int| !occurs_at(h@, n@, k) by {
        if 0 <= k && k + n@.len() <= h@.len() {
            assert(k < i);
        }
    }
    false
}

// ---------------------------------------------------------------------------
// Whitespace and words

/// Unicode `White_Space`, which is what std's `char::is_whitespace` tests.
pub open spec fn is_ws(c: char) -> bool {
    let u = c as u32;
    (0x9 <= u && u <= 0xd) || u == 0x20 || u == 0x85 || u == 0xa0 || u == 0x1680
        || (0x2000 <= u && u <= 0x200a) || u == 0x2028 || u == 0x2029 || u == 0x202f
        || u == 0x205f || u == 0x3000
}

/// Whether `c` is white space.
pub fn is_whitespace(c: char) -> (r: bool)
    ensures
        r == is_ws(c),
{
    let u = c as u32;
    (0x9 <= u && u <= 0xd) || u == 0x20 || u == 0x85 || u == 0xa0 || u == 0x1680
        || (0x2000 <= u && u <= 0x200a) || u == 0x2028 || u == 0x2029 || u == 0x202f
        || u == 0x205f || u == 0x3000
}

/// `s` without its leading white space.
pub open spec fn trim_start_seq(s: Seq<char>) -> Seq<char>
    decreases s.len(),
{
    if s.len() > 0 && is_ws(s[0]) {
        trim_start_seq(s.drop_first())
    } else {
        s
    }
}

/// `s` without its trailing white space.
pub open spec fn trim_end_seq(s: Seq<char>) -> Seq<char>
    decreases s.len(),
{
    if s.len() > 0 && is_ws(s.last()) {
        trim_end_seq(s.drop_last())
    } else {
        s
    }
}

/// `s` without leading and trailing white space (std's `str::trim`).
pub open spec fn trim_seq(s: Seq<char>) -> Seq<char> {
    trim_end_seq(trim_start_seq(s))
}

/// The longest suffix of `s` in which `c` does not occur.
pub open spec fn after_last(s: Seq<char>, c: char) -> Seq<char>
    decreases s.len(),
{
    if s.len() > 0 && s.last() != c {
        after_last(s.drop_last(), c).push(s.last())
    } else {
        Seq::empty()
    }
}

/// The longest suffix of `s` that holds no white space.
pub open spec fn trailing_word(s: Seq<char>) -> Seq<char>
    decreases s.len(),
{
    if s.len() > 0 && !is_ws(s.last()) {
        trailing_word(s.drop_last()).push(s.last())
    } else {
        Seq::empty()
    }
}

/// The last white-space separated word of `s`, if any (std's `split_whitespace().last()`).
pub open spec fn last_word_seq(s: Seq<char>) -> Option<Seq<char>> {
    let t = trim_end_seq(s);
    if t.len() == 0 {
        None
    } else {
        Some(trailing_word(t))
    }
}

/// The first `n` characters of `s`, or all of it when shorter.
pub open spec fn prefix_seq(s: Seq<char>, n: nat) -> Seq<char> {
    if s.len() <= n {
        s
    } else {
        s.take(n as int)
    }
}

/// The characters of `cs` from `i` on, without the leading white space.
fn trim_start_from(cs: &Vec<char>) -> (start: usize)
    ensures
        start <= cs@.len(),
        cs@.skip(start as int) == trim_start_seq(cs@),
{
    let mut i: usize = 0;
    assert(cs@.skip(0) =~= cs@);
    while i < cs.len() && is_whitespace(cs[i])
        invariant
            i <= cs@.len(),
            trim_start_seq(cs@.skip(i as int)) == trim_start_seq(cs@),
        decreases cs@.len() - i,
    {
        assert(cs@.skip(i as int).drop_first() =~= cs@.skip(i + 1));
        i = i + 1;
    }
    i
}

fn trim_end_to(cs: &Vec<char>, start: usize) -> (end: usize)
    requires
        start <= cs@.len(),
    ensures
        start <= end <= cs@.len(),
        cs@.subrange(start as int, end as int) == trim_end_seq(cs@.skip(start as int)),
{
    let mut e: usize = cs.len();
    assert(cs@.subrange(start as int, e as int) =~= cs@.skip(start as int));
    while e > start && is_whitespace(cs[e - 1])
        invariant
            start <= e <= cs@.len(),
            trim_end_seq(cs@.subrange(start as int, e as int)) == trim_end_seq(cs@.skip(start as int)),
        decreases e,
    {
        assert(cs@.subrange(start as int, e as int).drop_last() =~= cs@.subrange(start as int, e - 1));
        e = e - 1;
    }
    e
}

fn push_range(s: &mut String, cs: &Vec<char>, from: usize, to: usize)
    requires
        from <= to <= cs@.len(),
    ensures
        final(s)@ == old(s)@ + cs@.subrange(from as int, to as int),
{
    let mut i: usize = from;
    while i < to
        invariant
            from <= i <= to <= cs@.len(),
            s@ == old(s)@ + cs@.subrange(from as int, i as int),
        decreases to - i,
    {
        push_char(s, cs[i]);
        assert(cs@.subrange(from as int, i as int).push(cs@[i as int]) =~= cs@.subrange(from as int, i + 1));
        i = i + 1;
    }
}

/// `s` without leading and trailing white space.
pub fn trim_text(s: &str) -> (r: String)
    ensures
        r@ == trim_seq(s@),
{
    let cs = chars_of(s);
    let start = trim_start_from(&cs);
    let end = trim_end_to(&cs, start);
    let mut r = String::new();
    push_range(&mut r, &cs, start, end);
    assert(r@ =~= cs@.subrange(start as int, end as int));
    r
}

/// The first `n` characters of `s` (std's `chars().take(n).collect()`).
pub fn prefix_text(s: &str, n: usize) -> (r: String)
    ensures
        r@ == prefix_seq(s@, n as nat),
{
    let cs = chars_of(s);
    let end = if cs.len() <= n { cs.len() } else { n };
    let mut r = String::new();
    push_range(&mut r, &cs, 0, end);
    assert(r@ =~= prefix_seq(s@, n as nat));
    r
}

/// Start of the longest suffix of `cs[..end]` whose characters all fail `stop`.
proof fn lemma_after_last_split(s: Seq<char>, c: char, k: int)
    requires
        0 <= k <= s.len(),
        forall|j: int| k <= j < s.len() ==> s[j] != c,
        k == 0 || s[k - 1] == c,
    ensures
        after_last(s, c) == s.skip(k),
    decreases s.len(),
{
    if s.len() > 0 && s.last() != c {
        lemma_after_last_split(s.drop_last(), c, k);
        assert(s.drop_last().skip(k).push(s.last()) =~= s.skip(k));
    } else {
        assert(s.skip(k) =~= Seq::<char>::empty());
    }
}

proof fn lemma_trailing_word_split(s: Seq<char>, k: int)
    requires
        0 <= k <= s.len(),
        forall|j: int| k <= j < s.len() ==> !is_ws(s[j]),
        k == 0 || is_ws(s[k - 1]),
    ensures
        trailing_word(s) == s.skip(k),
    decreases s.len(),
{
    if s.len() > 0 && !is_ws(s.last()) {
        lemma_trailing_word_split(s.drop_last(), k);
        assert(s.drop_last().skip(k).push(s.last()) =~= s.skip(k));
    } else {
        assert(s.skip(k) =~= Seq::<char>::empty());
    }
}

/// The segment of `s` after the last `sep`, or all of `s` when `sep` does not occur
/// (std's `split(sep).last()`, which always has a value).
pub fn after_last_text(s: &str, sep: char) -> (r: String)
    ensures
        r@ == after_last(s@, sep),
{
    let cs = chars_of(s);
    let mut k: usize = cs.len();
    while k > 0 && cs[k - 1] != sep
        invariant
            k <= cs@.len(),
            forall|j: int| k <= j < cs@.len() ==> cs@[j] != sep,
        decreases k,
    {
        k = k - 1;
    }
    proof {
        lemma_after_last_split(cs@, sep, k as int);
    }
    let mut r = String::new();
    push_range(&mut r, &cs, k, cs.len());
    assert(cs@.subrange(k as int, cs@.len() as int) =~= cs@.skip(k as int));
    r
}

/// The last white-space separated word of `s`, if it has one.
pub fn last_word_text(s: &str) -> (r: Option<String>)
    ensures
        match r {
            Some(w) => last_word_seq(s@) == Some(w@),
            None => last_word_seq(s@) is None,
        },
{
    let cs = chars_of(s);
    let end = trim_end_to(&cs, 0);
    assert(cs@.skip(0) =~= cs@);
    let ghost t = cs@.subrange(0, end as int);
    if end == 0 {
        return None;
    }
    let mut k: usize = end;
    while k > 0 && !is_whitespace(cs[k - 1])
        invariant
            k <= end <= cs@.len(),
            t == cs@.subrange(0, end as int),
            forall|j: int| k <= j < end ==> !is_ws(cs@[j]),
        decreases k,
    {
        k = k - 1;
    }
    proof {
        lemma_trailing_word_split(t, k as int);
        assert(t.skip(k as int) =~= cs@.subrange(k as int, end as int));
    }
    let mut r = String::new();
    push_range(&mut r, &cs, k, end);
    Some(r)
}

// ---------------------------------------------------------------------------
// XML text escaping

/// What one character becomes inside XML text.
pub open spec fn xml_escape_char(c: char) -> Seq<char> {
    if c == '&' {
        seq!['&', 'a', 'm', 'p', ';']
    } else if c == '<' {
        seq!['&', 'l', 't', ';']
    } else if c == '>' {
        seq!['&', 'g', 't', ';']
    } else if c == '"' {
        seq!['&', 'q', 'u', 'o', 't', ';']
    } else {
        seq![c]
    }
}

/// `s` with `&`, `<`, `>` and `"` replaced by their XML entities.
pub open spec fn xml_escape_seq(s: Seq<char>) -> Seq<char>
    decreases s.len(),
{
    if s.len() == 0 {
        Seq::empty()
    } else {
        xml_escape_seq(s.drop_last()) + xml_escape_char(s.last())
    }
}

/// Escapes the XML special characters `&`, `<`, `>` and `"` for safe insertion into SVG text.
pub fn xml_escape(s: &str) -> (r: String)
    ensures
        r@ == xml_escape_seq(s@),
{
    let cs = chars_of(s);
    let mut r = String::new();
    let mut i: usize = 0;
    while i < cs.len()
        invariant
            cs@ == s@,
            i <= cs@.len(),
            r@ == xml_escape_seq(cs@.take(i as int)),
        decreases cs@.len() - i,
    {
        let c = cs[i];
        if c == '&' {
            push_str(&mut r, "&amp;");
        } else if c == '<' {
            push_str(&mut r, "&lt;");
        } else if c == '>' {
            push_str(&mut r, "&gt;");
        } else if c == '"' {
            push_str(&mut r, "&quot;");
        } else {
            push_char(&mut r, c);
        }
        proof {
            reveal_strlit("&amp;");
            reveal_strlit("&lt;");
            reveal_strlit("&gt;");
            reveal_strlit("&quot;");
            assert(cs@.take(i + 1).drop_last() =~= cs@.take(i as int));
        }
        assert(r@ =~= xml_escape_seq(cs@.take(i + 1)));
        i = i + 1;
    }
    assert(cs@.take(cs@.len() as int) =~= cs@);
    r
}

// ---------------------------------------------------------------------------
// Replacing

/// `s` with every non-overlapping occurrence of `pat`, scanned from the left, replaced by `rep`
/// (std's `str::replace` with a non-empty pattern).
pub open spec fn replace_seq(s: Seq<char>, pat: Seq<char>, rep: Seq<char>) -> Seq<char>
    recommends
        pat.len() > 0,
    decreases s.len(),
{
    if s.len() == 0 || pat.len() == 0 {
        s
    } else if pat.len() <= s.len() && s.take(pat.len() as int) == pat {
        rep + replace_seq(s.skip(pat.len() as int), pat, rep)
    } else {
        seq![s[0]] + replace_seq(s.drop_first(), pat, rep)
    }
}

/// Replaces every occurrence of `pat` in `s` by `rep`.
pub fn replace_text(s: &str, pat: &str, rep: &str) -> (r: String)
    requires
        pat@.len() > 0,
    ensures
        r@ == replace_seq(s@, pat@, rep@),
{
    let h = chars_of(s);
    let p = chars_of(pat);
    let q = chars_of(rep);
    let mut r = String::new();
    let mut i: usize = 0;
    assert(h@.skip(0) =~= h@);
    assert(r@ + replace_seq(h@.skip(0), p@, q@) =~= replace_seq(h@, p@, q@));
    while i < h.len()
        invariant
            h@ == s@,
            p@ == pat@,
            q@ == rep@,
            p@.len() > 0,
            i <= h@.len(),
            r@ + replace_seq(h@.skip(i as int), p@, q@) == replace_seq(h@, p@, q@),
        decreases h@.len() - i,
    {
        let ghost rest = h@.skip(i as int);
        if p.len() <= h.len() - i && matches_at(&h, &p, i) {
            proof {
                assert(rest.take(p@.len() as int) =~= h@.subrange(i as int, i + p@.len()));
                assert(rest.skip(p@.len() as int) =~= h@.skip(i + p@.len()));
            }
            push_all(&mut r, &q);
            i = i + p.len();
            assert(r@ + replace_seq(h@.skip(i as int), p@, q@) =~= replace_seq(h@, p@, q@));
        } else {
            proof {
                if p@.len() <= rest.len() {
                    assert(rest.take(p@.len() as int) =~= h@.subrange(i as int, i + p@.len()));
                }
                assert(rest.drop_first() =~= h@.skip(i + 1));
            }
            push_char(&mut r, h[i]);
            i = i + 1;
            assert(r@ + replace_seq(h@.skip(i as int), p@, q@) =~= replace_seq(h@, p@, q@));
        }
    }
    assert(h@.skip(h@.len() as int) =~= Seq::<char>::empty());
    assert(r@ =~= replace_seq(h@, p@, q@));
    r
}

// ---------------------------------------------------------------------------
// Splitting at the first separator

/// The characters of `s` before the first `c` (all of `s` when `c` does not occur).
pub open spec fn before_first(s: Seq<char>, c: char) -> Seq<char>
    decreases s.len(),
{
    if s.len() == 0 || s[0] == c {
        Seq::empty()
    } else {
        seq![s[0]] + before_first(s.drop_first(), c)
    }
}

/// The characters of `s` after the first `c`, if `c` occurs.
pub open spec fn after_first(s: Seq<char>, c: char) -> Option<Seq<char>>
    decreases s.len(),
{
    if s.len() == 0 {
        None
    } else if s[0] == c {
        Some(s.drop_first())
    } else {
        after_first(s.drop_first(), c)
    }
}

/// Splits `s` at its first `c` (std's `splitn(2, c)`): the part before it, and the part
/// after it if `c` occurs.
pub fn split_once_text(s: &str, c: char) -> (r: (String, Option<String>))
    ensures
        r.0@ == before_first(s@, c),
        match r.1 {
            Some(t) => after_first(s@, c) == Some(t@),
            None => after_first(s@, c) is None,
        },
{
    let cs = chars_of(s);
    let mut i: usize = 0;
    assert(cs@.skip(0) =~= cs@);
    assert(cs@.take(0) + before_first(cs@.skip(0), c) =~= before_first(cs@, c));
    while i < cs.len() && cs[i] != c
        invariant
            cs@ == s@,
            i <= cs@.len(),
            cs@.take(i as int) + before_first(cs@.skip(i as int), c) == before_first(cs@, c),
            after_first(cs@.skip(i as int), c) == after_first(cs@, c),
        decreases cs@.len() - i,
    {
        proof {
            let rest = cs@.skip(i as int);
            assert(rest[0] == cs@[i as int]);
            assert(rest.drop_first() =~= cs@.skip(i + 1));
            assert(cs@.take(i as int) + seq![cs@[i as int]] =~= cs@.take(i + 1));
            assert(cs@.take(i + 1) + before_first(cs@.skip(i + 1), c)
                =~= cs@.take(i as int) + before_first(rest, c));
        }
        i = i + 1;
    }
    let mut head = String::new();
    push_range(&mut head, &cs, 0, i);
    assert(cs@.subrange(0, i as int) =~= cs@.take(i as int));
    if i < cs.len() {
        let mut tail = String::new();
        push_range(&mut tail, &cs, i + 1, cs.len());
        proof {
            let rest = cs@.skip(i as int);
            assert(rest[0] == c);
            assert(rest.drop_first() =~= cs@.subrange(i + 1, cs@.len() as int));
            assert(cs@.take(i as int) + Seq::<char>::empty() =~= cs@.take(i as int));
        }
        (head, Some(tail))
    } else {
        proof {
            assert(cs@.skip(i as int) =~= Seq::<char>::empty());
            assert(cs@.take(i as int) + Seq::<char>::empty() =~= cs@.take(i as int));
        }
        (head, None)
    }
}

} // verus!
