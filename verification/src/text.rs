//! Text primitives over the character view of strings.
//!
//! Every string of the library is reasoned about as its `Seq<char>` view.
//! The executable functions here convert between `String` and `Vec<char>`
//! and implement the few string operations the rest of the crate needs.
use vstd::prelude::*;

verus! {

// ── Specifications ────────────────────────────────────────────────────────

/// Unicode `White_Space` property, as used by `char::is_whitespace` and `str::trim`.
pub open spec fn is_ws(c: char) -> bool {
    let n = c as u32;
    ||| (0x09 <= n && n <= 0x0d)
    ||| n == 0x20
    ||| n == 0x85
    ||| n == 0xa0
    ||| n == 0x1680
    ||| (0x2000 <= n && n <= 0x200a)
    ||| n == 0x2028
    ||| n == 0x2029
    ||| n == 0x202f
    ||| n == 0x205f
    ||| n == 0x3000
}

/// `s` with its leading white space removed.
pub open spec fn trim_start(s: Seq<char>) -> Seq<char>
    decreases s.len(),
{
    if s.len() > 0 && is_ws(s[0]) {
        trim_start(s.drop_first())
    } else {
        s
    }
}

/// `s` with its trailing white space removed.
pub open spec fn trim_end(s: Seq<char>) -> Seq<char>
    decreases s.len(),
{
    if s.len() > 0 && is_ws(s.last()) {
        trim_end(s.drop_last())
    } else {
        s
    }
}

/// `s` with leading and trailing white space removed.
pub open spec fn trim(s: Seq<char>) -> Seq<char> {
    trim_end(trim_start(s))
}

/// `pat` occurs in `s` at position `i`.
pub open spec fn occurs_at(s: Seq<char>, pat: Seq<char>, i: int) -> bool {
    0 <= i && i + pat.len() <= s.len() && s.subrange(i, i + pat.len()) == pat
}

/// `pat` occurs somewhere in `s`.
pub open spec fn contains(s: Seq<char>, pat: Seq<char>) -> bool {
    exists|i: int| occurs_at(s, pat, i)
}

/// `s` begins with `pat`.
pub open spec fn starts_with(s: Seq<char>, pat: Seq<char>) -> bool {
    occurs_at(s, pat, 0)
}

/// Greedy subsequence test: every character of `needle` is found in
/// `haystack`, in order, each after the previous one.
pub open spec fn is_subseq(needle: Seq<char>, haystack: Seq<char>) -> bool
    decreases haystack.len(),
{
    if needle.len() == 0 {
        true
    } else if haystack.len() == 0 {
        false
    } else if needle[0] == haystack[0] {
        is_subseq(needle.drop_first(), haystack.drop_first())
    } else {
        is_subseq(needle, haystack.drop_first())
    }
}

/// `s` with every `pat` replaced by `rep`, scanning left to right without
/// overlap; an empty `pat` puts `rep` before every character and at the end.
pub open spec fn replace_all(s: Seq<char>, pat: Seq<char>, rep: Seq<char>) -> Seq<char>
    decreases s.len(),
{
    if pat.len() == 0 {
        if s.len() == 0 {
            rep
        } else {
            rep + seq![s[0]] + replace_all(s.drop_first(), pat, rep)
        }
    } else if s.len() < pat.len() {
        s
    } else if s.take(pat.len() as int) == pat {
        rep + replace_all(s.skip(pat.len() as int), pat, rep)
    } else {
        seq![s[0]] + replace_all(s.drop_first(), pat, rep)
    }
}

/// Lexicographic order on code points (the order of `str::cmp`).
pub open spec fn seq_le(a: Seq<char>, b: Seq<char>) -> bool
    decreases a.len(),
{
    if a.len() == 0 {
        true
    } else if b.len() == 0 {
        false
    } else if a[0] != b[0] {
        (a[0] as u32) < (b[0] as u32)
    } else {
        seq_le(a.drop_first(), b.drop_first())
    }
}

/// The decimal digits of `n`, most significant first, without sign or padding.
pub open spec fn decimal(n: nat) -> Seq<char>
    decreases n,
{
    if n < 10 {
        seq![digit_char(n)]
    } else {
        decimal(n / 10) + seq![digit_char(n % 10)]
    }
}

pub open spec fn digit_char(d: nat) -> char {
    if d == 0 { '0' } else if d == 1 { '1' } else if d == 2 { '2' } else if d == 3 { '3' }
    else if d == 4 { '4' } else if d == 5 { '5' } else if d == 6 { '6' } else if d == 7 { '7' }
    else if d == 8 { '8' } else { '9' }
}

/// Inserting `c` into `s` at position `i`, or at the end when `i` is past it.
pub open spec fn insert_at(s: Seq<char>, i: int, c: char) -> Seq<char> {
    if i <= s.len() {
        s.insert(i, c)
    } else {
        s.push(c)
    }
}

/// The length of the UTF-8 encoding of `s`, in bytes.
pub open spec fn byte_len(s: Seq<char>) -> nat {
    vstd::utf8::encode_utf8(s).len()
}

/// The length of `s` in bytes (`str::len`).
pub fn byte_length(s: &str) -> (n: usize)
    ensures
        n == byte_len(s@),
{
    s.as_bytes().len()
}

// ── Trusted std items ─────────────────────────────────────────────────────

/// What `str::to_lowercase` returns for a string with the given characters.
pub uninterp spec fn lowercase(s: Seq<char>) -> Seq<char>;

/// Calls `String::push`, which appends one character at the end of the string.
#[verifier::external_body]
pub(crate) fn string_push(s: &mut String, c: char)
    ensures
        final(s)@ == old(s)@.push(c),
{
    s.push(c);
}

/// Calls `str::to_lowercase`. Its result is taken to depend on the characters of
/// its argument alone (Unicode's lowercase mapping in the standard library); the
/// mapping itself is only named here, not stated.
#[verifier::external_body]
pub(crate) fn to_lowercase(s: &str) -> (r: String)
    ensures
        r@ == lowercase(s@),
{
    s.to_lowercase()
}

// ── Conversions ───────────────────────────────────────────────────────────

/// The characters of `s`, in order.
pub fn to_chars(s: &str) -> (r: Vec<char>)
    ensures
        r@ == s@,
{
    let mut r: Vec<char> = Vec::new();
    for c in it: s.chars()
        invariant
            it.seq() == s@,
            r@ == it.seq().take(it.index() as int),
    {
        r.push(c);
    }
    r
}

/// The string made of the characters of `v`, in order.
pub fn from_chars(v: &[char]) -> (r: String)
    ensures
        r@ == v@,
{
    let mut r = String::new();
    let mut i: usize = 0;
    while i < v.len()
        invariant
            i <= v@.len(),
            r@ == v@.take(i as int),
        decreases v@.len() - i,
    {
        string_push(&mut r, v[i]);
        i = i + 1;
        assert(v@.take(i as int) == v@.take(i - 1).push(v@[i - 1]));
    }
    assert(v@.take(v@.len() as int) == v@);
    r
}

/// An owned copy of `s`.
pub fn owned(s: &str) -> (r: String)
    ensures
        r@ == s@,
{
    s.to_owned()
}

/// The number of characters of `s`.
pub fn char_count(s: &str) -> (n: usize)
    ensures
        n == s@.len(),
{
    to_chars(s).len()
}

/// `a` and `b` hold the same characters.
pub fn str_eq(a: &str, b: &str) -> (r: bool)
    ensures
        r == (a@ == b@),
{
    let va = to_chars(a);
    let vb = to_chars(b);
    chars_eq(&va, &vb)
}

/// `a` and `b` hold the same characters.
pub fn chars_eq(a: &[char], b: &[char]) -> (r: bool)
    ensures
        r == (a@ == b@),
{
    if a.len() != b.len() {
        return false;
    }
    let mut i: usize = 0;
    while i < a.len()
        invariant
            a@.len() == b@.len(),
            i <= a@.len(),
            forall|j: int| 0 <= j < i ==> a@[j] == b@[j],
        decreases a@.len() - i,
    {
        if a[i] != b[i] {
            return false;
        }
        i = i + 1;
    }
    assert(a@ =~= b@);
    true
}

/// The concatenation of `a` and `b`.
pub fn concat(a: &str, b: &str) -> (r: String)
    ensures
        r@ == a@ + b@,
{
    let mut v = to_chars(a);
    let mut w = to_chars(b);
    v.append(&mut w);
    from_chars(&v)
}

/// The concatenation of `a`, `b` and `c`.
pub fn concat3(a: &str, b: &str, c: &str) -> (r: String)
    ensures
        r@ == a@ + b@ + c@,
{
    let ab = concat(a, b);
    concat(ab.as_str(), c)
}

/// The concatenation of `a`, `b`, `c` and `d`.
pub fn concat4(a: &str, b: &str, c: &str, d: &str) -> (r: String)
    ensures
        r@ == a@ + b@ + c@ + d@,
{
    let abc = concat3(a, b, c);
    concat(abc.as_str(), d)
}

/// Appends the characters of `s` to `v`.
pub fn push_str(v: &mut Vec<char>, s: &str)
    ensures
        final(v)@ == old(v)@ + s@,
{
    let mut w = to_chars(s);
    v.append(&mut w);
}

/// Appends the characters of `s` to `v`.
pub fn append_slice(v: &mut Vec<char>, s: &[char])
    ensures
        final(v)@ == old(v)@ + s@,
{
    let ghost v0 = v@;
    let mut i: usize = 0;
    while i < s.len()
        invariant
            i <= s@.len(),
            v@ == v0 + s@.take(i as int),
        decreases s@.len() - i,
    {
        v.push(s[i]);
        i = i + 1;
        assert(v@ =~= v0 + s@.take(i as int));
    }
    assert(s@.take(s@.len() as int) =~= s@);
}

// ── White space ───────────────────────────────────────────────────────────

/// `char::is_whitespace`.
pub fn is_whitespace(c: char) -> (r: bool)
    ensures
        r == is_ws(c),
{
    let n = c as u32;
    (0x09 <= n && n <= 0x0d) || n == 0x20 || n == 0x85 || n == 0xa0 || n == 0x1680 || (0x2000
        <= n && n <= 0x200a) || n == 0x2028 || n == 0x2029 || n == 0x202f || n == 0x205f || n
        == 0x3000
}

proof fn lemma_trim_start_skip(s: Seq<char>, k: int)
    requires
        0 <= k <= s.len(),
        forall|j: int| 0 <= j < k ==> is_ws(#[trigger] s[j]),
    ensures
        trim_start(s) == trim_start(s.skip(k)),
    decreases k,
{
    if k > 0 {
        assert(s.drop_first().skip(k - 1) =~= s.skip(k));
        lemma_trim_start_skip(s.drop_first(), k - 1);
    } else {
        assert(s.skip(0) =~= s);
    }
}

proof fn lemma_trim_end_take(s: Seq<char>, k: int)
    requires
        0 <= k <= s.len(),
        forall|j: int| k <= j < s.len() ==> is_ws(#[trigger] s[j]),
    ensures
        trim_end(s) == trim_end(s.take(k)),
    decreases s.len() - k,
{
    if k < s.len() {
        assert(s.drop_last().take(k) =~= s.take(k));
        lemma_trim_end_take(s.drop_last(), k);
    } else {
        assert(s.take(k) =~= s);
    }
}

/// `s` without leading and trailing white space (`str::trim`).
pub fn trim_chars(s: &[char]) -> (r: Vec<char>)
    ensures
        r@ == trim(s@),
{
    let n = s.len();
    let mut a: usize = 0;
    while a < n && is_whitespace(s[a])
        invariant
            n == s@.len(),
            a <= n,
            forall|j: int| 0 <= j < a ==> is_ws(#[trigger] s@[j]),
        decreases n - a,
    {
        a = a + 1;
    }
    proof {
        lemma_trim_start_skip(s@, a as int);
    }
    let ghost t = s@.skip(a as int);
    assert(a == n || !is_ws(t[0]));
    let mut b: usize = n;
    while b > a && is_whitespace(s[b - 1])
        invariant
            n == s@.len(),
            a <= b <= n,
            forall|j: int| b <= j < n ==> is_ws(#[trigger] s@[j]),
        decreases b,
    {
        b = b - 1;
    }
    proof {
        assert(trim_start(t) == t);
        lemma_trim_end_take(t, b - a);
        let u = t.take(b - a);
        assert(u.len() == 0 || !is_ws(u.last()));
        assert(trim_end(u) == u);
        assert(u =~= s@.subrange(a as int, b as int));
    }
    let mut r: Vec<char> = Vec::new();
    let mut i: usize = a;
    while i < b
        invariant
            a <= i <= b <= n,
            n == s@.len(),
            r@ == s@.subrange(a as int, i as int),
        decreases b - i,
    {
        r.push(s[i]);
        i = i + 1;
        assert(r@ =~= s@.subrange(a as int, i as int));
    }
    r
}

/// `s` without leading and trailing white space (`str::trim`).
pub fn trim_str(s: &str) -> (r: String)
    ensures
        r@ == trim(s@),
{
    let v = to_chars(s);
    let t = trim_chars(&v);
    from_chars(&t)
}

// ── Searching ─────────────────────────────────────────────────────────────

/// Whether `pat` occurs in `s` at position `i`.
pub fn occurs_at_exec(s: &[char], pat: &[char], i: usize) -> (r: bool)
    ensures
        r == occurs_at(s@, pat@, i as int),
{
    if i > s.len() || pat.len() > s.len() - i {
        return false;
    }
    let mut j: usize = 0;
    while j < pat.len()
        invariant
            i + pat@.len() <= s@.len(),
            i + pat.len() <= s.len(),
            j <= pat@.len(),
            forall|k: int| 0 <= k < j ==> s@[i + k] == pat@[k],
        decreases pat@.len() - j,
    {
        if s[i + j] != pat[j] {
            assert(s@.subrange(i as int, i + pat@.len())[j as int] != pat@[j as int]);
            return false;
        }
        j = j + 1;
    }
    assert(s@.subrange(i as int, i + pat@.len()) =~= pat@);
    true
}

/// Whether `pat` occurs anywhere in `s` (`str::contains`).
pub fn contains_exec(s: &[char], pat: &[char]) -> (r: bool)
    ensures
        r == contains(s@, pat@),
{
    if pat.len() > s.len() {
        assert forall|i: int| !occurs_at(s@, pat@, i) by {}
        return false;
    }
    let last = s.len() - pat.len();
    let mut i: usize = 0;
    while i <= last
        invariant
            last == s@.len() - pat@.len(),
            forall|k: int| 0 <= k < i ==> !occurs_at(s@, pat@, k),
        decreases last + 1 - i,
    {
        if occurs_at_exec(s, pat, i) {
            return true;
        }
        if i == last {
            assert forall|k: int| !occurs_at(s@, pat@, k) by {
                if 0 <= k < i {
                } else if k == i {
                } else {
                }
            }
            return false;
        }
        i = i + 1;
    }
    false
}

/// Whether `s` begins with `pat` (`str::starts_with`).
pub fn starts_with_exec(s: &[char], pat: &[char]) -> (r: bool)
    ensures
        r == starts_with(s@, pat@),
{
    occurs_at_exec(s, pat, 0)
}

/// Greedy subsequence test.
pub fn is_subseq_exec(needle: &[char], haystack: &[char]) -> (r: bool)
    ensures
        r == is_subseq(needle@, haystack@),
{
    let mut i: usize = 0;
    let mut j: usize = 0;
    assert(needle@.skip(0) =~= needle@);
    assert(haystack@.skip(0) =~= haystack@);
    while i < needle.len() && j < haystack.len()
        invariant
            i <= needle@.len(),
            j <= haystack@.len(),
            is_subseq(needle@, haystack@) == is_subseq(needle@.skip(i as int), haystack@.skip(j as int)),
        decreases haystack@.len() - j,
    {
        let ghost n = needle@.skip(i as int);
        let ghost h = haystack@.skip(j as int);
        if needle[i] == haystack[j] {
            assert(n.drop_first() =~= needle@.skip(i + 1));
            i = i + 1;
        }
        assert(h.drop_first() =~= haystack@.skip(j + 1));
        j = j + 1;
    }
    let ghost n = needle@.skip(i as int);
    let ghost h = haystack@.skip(j as int);
    assert(i == needle@.len() ==> n.len() == 0);
    assert(i < needle@.len() ==> n.len() > 0 && h.len() == 0);
    i == needle.len()
}

// ── Replacing ─────────────────────────────────────────────────────────────

/// `s` with every non-overlapping occurrence of `pat`, scanned left to right,
/// replaced by `rep` (`str::replace`).
pub fn replace_chars(s: &[char], pat: &[char], rep: &[char]) -> (r: Vec<char>)
    ensures
        r@ == replace_all(s@, pat@, rep@),
{
    let mut r: Vec<char> = Vec::new();
    let mut i: usize = 0;
    let n = s.len();
    assert(s@.skip(0) =~= s@);
    while i < n
        invariant
            n == s@.len(),
            i <= n,
            r@ + replace_all(s@.skip(i as int), pat@, rep@) == replace_all(s@, pat@, rep@),
        decreases n - i,
    {
        let ghost t = s@.skip(i as int);
        if pat.len() == 0 {
            append_slice(&mut r, rep);
            r.push(s[i]);
            assert(t.drop_first() =~= s@.skip(i + 1));
            assert(r@ + replace_all(s@.skip(i + 1), pat@, rep@) =~= replace_all(s@, pat@, rep@));
            i = i + 1;
        } else if pat.len() <= n - i && occurs_at_exec(s, pat, i) {
            append_slice(&mut r, rep);
            assert(t.take(pat@.len() as int) =~= s@.subrange(i as int, i + pat@.len()));
            assert(t.skip(pat@.len() as int) =~= s@.skip(i + pat@.len()));
            assert(r@ + replace_all(s@.skip(i + pat@.len()), pat@, rep@) =~= replace_all(s@, pat@, rep@));
            i = i + pat.len();
        } else if pat.len() > n - i {
            let ghost r0 = r@;
            let mut k: usize = i;
            while k < n
                invariant
                    n == s@.len(),
                    i <= k <= n,
                    r@ == r0 + s@.subrange(i as int, k as int),
                decreases n - k,
            {
                r.push(s[k]);
                k = k + 1;
                assert(r@ =~= r0 + s@.subrange(i as int, k as int));
            }
            assert(t =~= s@.subrange(i as int, n as int));
            assert(replace_all(t, pat@, rep@) == t);
            return r;
        } else {
            r.push(s[i]);
            assert(t.take(pat@.len() as int) =~= s@.subrange(i as int, i + pat@.len()));
            assert(t.drop_first() =~= s@.skip(i + 1));
            assert(r@ + replace_all(s@.skip(i + 1), pat@, rep@) =~= replace_all(s@, pat@, rep@));
            i = i + 1;
        }
    }
    assert(s@.skip(n as int) =~= Seq::<char>::empty());
    if pat.len() == 0 {
        append_slice(&mut r, rep);
    }
    r
}

// ── Building text ─────────────────────────────────────────────────────────

/// The characters of the parts, one after another.
pub open spec fn joined(parts: Seq<&str>) -> Seq<char> {
    parts.map_values(|p: &str| p@).flatten()
}

/// The parts, one after another, as one string.
pub fn join_parts(parts: &[&str]) -> (r: String)
    ensures
        r@ == joined(parts@),
{
    let mut v: Vec<char> = Vec::new();
    let mut i: usize = 0;
    while i < parts.len()
        invariant
            i <= parts@.len(),
            v@ == joined(parts@.take(i as int)),
        decreases parts@.len() - i,
    {
        let ghost v0 = v@;
        push_str(&mut v, parts[i]);
        proof {
            let t = parts@.take(i + 1);
            assert(t.drop_last() =~= parts@.take(i as int));
            assert(t.map_values(|p: &str| p@).drop_last() =~= parts@.take(i as int).map_values(|p: &str| p@));
            parts@.take(i as int).map_values(|p: &str| p@).lemma_flatten_push(parts@[i as int]@);
            assert(t.map_values(|p: &str| p@) =~= parts@.take(i as int).map_values(|p: &str| p@).push(parts@[i as int]@));
        }
        i = i + 1;
    }
    assert(parts@.take(parts@.len() as int) =~= parts@);
    from_chars(&v)
}

proof fn lemma_decimal_nonempty(n: nat)
    ensures
        decimal(n).len() > 0,
    decreases n,
{
    if n >= 10 {
        lemma_decimal_nonempty(n / 10);
    }
}

fn digit(d: u64) -> (c: char)
    requires
        d < 10,
    ensures
        c == digit_char(d as nat),
{
    if d == 0 { '0' } else if d == 1 { '1' } else if d == 2 { '2' } else if d == 3 { '3' }
    else if d == 4 { '4' } else if d == 5 { '5' } else if d == 6 { '6' } else if d == 7 { '7' }
    else if d == 8 { '8' } else { '9' }
}

/// The decimal digits of `n` (`u64::to_string`).
pub fn decimal_string(n: u64) -> (r: String)
    ensures
        r@ == decimal(n as nat),
{
    let mut v: Vec<char> = Vec::new();
    let mut m: u64 = n;
    // digits are produced least significant first, then reversed
    while m >= 10
        invariant
            decimal(n as nat) == decimal(m as nat) + v@.reverse(),
        decreases m,
    {
        let ghost v0 = v@;
        v.push(digit(m % 10));
        assert(v@.reverse() =~= seq![digit_char((m % 10) as nat)] + v0.reverse());
        m = m / 10;
    }
    let mut r: Vec<char> = Vec::new();
    r.push(digit(m));
    let mut k: usize = v.len();
    while k > 0
        invariant
            k <= v@.len(),
            decimal(n as nat) == r@ + v@.take(k as int).reverse(),
        decreases k,
    {
        let ghost r0 = r@;
        r.push(v[k - 1]);
        assert(v@.take(k as int).reverse() =~= seq![v@[k - 1]] + v@.take(k - 1).reverse());
        k = k - 1;
    }
    assert(v@.take(0).reverse() =~= Seq::<char>::empty());
    from_chars(&r)
}


// ── Replacing a key ───────────────────────────────────────────────────────

/// No `*` in `s`.
pub open spec fn star_free(s: Seq<char>) -> bool {
    forall|i: int| 0 <= i < s.len() ==> s[i] != '*'
}

/// As long as the result shows no `*`, replacing by `***` has not started:
/// it agrees with the text.
proof fn lemma_replace_prefix(t: Seq<char>, k: Seq<char>, n: int)
    requires
        k.len() > 0,
        0 <= n <= replace_all(t, k, "***"@).len(),
        star_free(replace_all(t, k, "***"@).take(n)),
    ensures
        n <= t.len(),
        replace_all(t, k, "***"@).take(n) == t.take(n),
    decreases t.len(),
{
    reveal_strlit("***");
    let r = replace_all(t, k, "***"@);
    if t.len() < k.len() {
    } else if t.take(k.len() as int) == k {
        if n > 0 {
            assert(r.take(n)[0] == '*');
        }
    } else if n > 0 {
        let rest = replace_all(t.drop_first(), k, "***"@);
        assert(r == seq![t[0]] + rest);
        assert(star_free(rest.take(n - 1))) by {
            assert forall|i: int| 0 <= i < rest.take(n - 1).len() implies #[trigger] rest.take(n - 1)[i] != '*' by {
                assert(rest.take(n - 1)[i] == r.take(n)[i + 1]);
            }
        }
        lemma_replace_prefix(t.drop_first(), k, n - 1);
        assert(r.take(n) =~= seq![t[0]] + rest.take(n - 1));
        assert(t.take(n) =~= seq![t[0]] + t.drop_first().take(n - 1));
    }
}

/// Replacing a key without `*` by `***` leaves no occurrence of the key.
pub proof fn lemma_replace_removes_key(t: Seq<char>, k: Seq<char>)
    requires
        k.len() > 0,
        star_free(k),
    ensures
        !contains(replace_all(t, k, "***"@), k),
    decreases t.len(),
{
    reveal_strlit("***");
    let r = replace_all(t, k, "***"@);
    if t.len() < k.len() {
        assert forall|i: int| !occurs_at(r, k, i) by {}
    } else if t.take(k.len() as int) == k {
        let rest = replace_all(t.skip(k.len() as int), k, "***"@);
        lemma_replace_removes_key(t.skip(k.len() as int), k);
        assert(r == "***"@ + rest);
        assert forall|i: int| !occurs_at(r, k, i) by {
            if occurs_at(r, k, i) {
                if i < 3 {
                    assert(r.subrange(i, i + k.len())[0] == r[i]);
                } else {
                    assert(r.subrange(i, i + k.len()) =~= rest.subrange(i - 3, i - 3 + k.len()));
                    assert(occurs_at(rest, k, i - 3));
                }
            }
        }
    } else {
        let rest = replace_all(t.drop_first(), k, "***"@);
        lemma_replace_removes_key(t.drop_first(), k);
        assert(r == seq![t[0]] + rest);
        assert forall|i: int| !occurs_at(r, k, i) by {
            if occurs_at(r, k, i) {
                if i == 0 {
                    let m = k.len() as int;
                    assert(r.take(m) == k);
                    assert(star_free(rest.take(m - 1))) by {
                        assert forall|j: int| 0 <= j < rest.take(m - 1).len() implies #[trigger] rest.take(m - 1)[j] != '*' by {
                            assert(rest.take(m - 1)[j] == k[j + 1]);
                        }
                    }
                    lemma_replace_prefix(t.drop_first(), k, m - 1);
                    assert(t.take(m) =~= seq![t[0]] + t.drop_first().take(m - 1));
                    assert(r.take(m) =~= seq![t[0]] + rest.take(m - 1));
                    assert(t.take(m) == k);
                } else {
                    assert(r.subrange(i, i + k.len()) =~= rest.subrange(i - 1, i - 1 + k.len()));
                    assert(occurs_at(rest, k, i - 1));
                }
            }
        }
    }
}

} // verus!
