//! The settings file `~/.config/bytewarden/config.toml`: where it lives,
//! what a text of it means, and how its login and auto-lock lines are
//! rewritten. Reading and writing the file itself is left to the caller.
use vstd::prelude::*;
use crate::text::{
    trim, trim_start, trim_end, starts_with, to_chars, from_chars, trim_chars, starts_with_exec,
    chars_eq, push_str,
    append_slice,
};
use crate::app::Config;

verus! {

// ── Lines ─────────────────────────────────────────────────────────────────

/// A line that ended with a line feed loses one carriage return before it.
pub open spec fn strip_cr(l: Seq<char>) -> Seq<char> {
    if l.len() > 0 && l.last() == '\r' {
        l.drop_last()
    } else {
        l
    }
}

/// The finished lines of `s`, and the line still open at its end.
pub open spec fn split_state(s: Seq<char>) -> (Seq<Seq<char>>, Seq<char>)
    decreases s.len(),
{
    if s.len() == 0 {
        (Seq::empty(), Seq::empty())
    } else {
        let (ls, cur) = split_state(s.drop_last());
        if s.last() == '\n' {
            (ls.push(strip_cr(cur)), Seq::empty())
        } else {
            (ls, cur.push(s.last()))
        }
    }
}

/// The lines of `s` as `str::lines` gives them: split at each line feed,
/// a carriage return before it dropped, the last line feed optional.
pub open spec fn lines(s: Seq<char>) -> Seq<Seq<char>> {
    let (ls, cur) = split_state(s);
    if cur.len() > 0 {
        ls.push(cur)
    } else {
        ls
    }
}

pub open spec fn line_views(v: Seq<Vec<char>>) -> Seq<Seq<char>> {
    v.map_values(|l: Vec<char>| l@)
}

/// The lines of `s` (`str::lines`).
pub fn split_lines(s: &[char]) -> (r: Vec<Vec<char>>)
    ensures
        line_views(r@) == lines(s@),
{
    let mut ls: Vec<Vec<char>> = Vec::new();
    let mut cur: Vec<char> = Vec::new();
    let mut i: usize = 0;
    while i < s.len()
        invariant
            i <= s@.len(),
            (line_views(ls@), cur@) == split_state(s@.take(i as int)),
        decreases s@.len() - i,
    {
        let ghost before = line_views(ls@);
        assert(s@.take(i + 1).drop_last() =~= s@.take(i as int));
        if s[i] == '\n' {
            if cur.len() > 0 && cur[cur.len() - 1] == '\r' {
                cur.pop();
            }
            ls.push(cur);
            cur = Vec::new();
            assert(line_views(ls@) =~= before.push(line_views(ls@).last()));
        } else {
            cur.push(s[i]);
            assert(line_views(ls@) =~= before);
        }
        i = i + 1;
    }
    assert(s@.take(s@.len() as int) =~= s@);
    if cur.len() > 0 {
        let ghost before = line_views(ls@);
        ls.push(cur);
        assert(line_views(ls@) =~= before.push(line_views(ls@).last()));
    }
    ls
}

// ── Numbers ───────────────────────────────────────────────────────────────

pub open spec fn is_digit(c: char) -> bool {
    '0' <= c <= '9'
}

/// The value of a string of decimal digits.
pub open spec fn digits_value(d: Seq<char>) -> nat
    decreases d.len(),
{
    if d.len() == 0 {
        0
    } else {
        digits_value(d.drop_last()) * 10 + ((d.last() as u32 - '0' as u32) as nat)
    }
}

/// The digits of a number, after an optional `+`.
pub open spec fn unsigned_digits(s: Seq<char>) -> Seq<char> {
    if s.len() > 0 && s[0] == '+' {
        s.skip(1)
    } else {
        s
    }
}

pub open spec fn all_digits(d: Seq<char>) -> bool {
    forall|i: int| 0 <= i < d.len() ==> is_digit(#[trigger] d[i])
}

/// `str::parse::<u64>`: an optional `+`, then one or more ASCII digits,
/// whose value fits in 64 bits.
pub open spec fn parse_u64(s: Seq<char>) -> Option<nat> {
    let d = unsigned_digits(s);
    if d.len() == 0 || !all_digits(d) {
        None
    } else if digits_value(d) > u64::MAX {
        None
    } else {
        Some(digits_value(d))
    }
}

proof fn lemma_digits_value_grows(d: Seq<char>, i: int)
    requires
        0 <= i <= d.len(),
        all_digits(d),
    ensures
        digits_value(d.take(i)) <= digits_value(d),
    decreases d.len() - i,
{
    if i < d.len() {
        lemma_digits_value_grows(d, i + 1);
        assert(d.take(i + 1).drop_last() =~= d.take(i));
    } else {
        assert(d.take(i) =~= d);
    }
}

/// Parses a decimal `u64` as `str::parse` does.
pub fn parse_u64_exec(s: &[char]) -> (r: Option<u64>)
    ensures
        match parse_u64(s@) {
            Some(n) => r == Some(n as u64),
            None => r is None,
        },
{
    let start: usize = if s.len() > 0 && s[0] == '+' { 1 } else { 0 };
    let ghost d = unsigned_digits(s@);
    assert(d =~= s@.skip(start as int));
    if start >= s.len() {
        return None;
    }
    let mut v: u64 = 0;
    let mut i: usize = start;
    while i < s.len()
        invariant
            start <= i <= s@.len(),
            start < s@.len(),
            d == s@.skip(start as int),
            d == unsigned_digits(s@),
            forall|k: int| start <= k < i ==> is_digit(#[trigger] s@[k]),
            v == digits_value(d.take(i - start)),
        decreases s@.len() - i,
    {
        let c = s[i];
        assert(d[i - start] == c);
        if !('0' <= c && c <= '9') {
            assert(!is_digit(d[i - start]));
            assert(!all_digits(d));
            return None;
        }
        let dig: u64 = (c as u32 - '0' as u32) as u64;
        assert(d.take(i + 1 - start).drop_last() =~= d.take(i - start));
        let ghost next = digits_value(d.take(i + 1 - start));
        assert(d.take(i + 1 - start).last() == c);
        assert(next == v * 10 + dig);
        if v > (u64::MAX - dig) / 10 {
            assert(v * 10 + dig > u64::MAX) by (nonlinear_arith)
                requires
                    v > (u64::MAX - dig) / 10,
                    dig <= 9,
            ;
            proof {
                if all_digits(d) {
                    lemma_digits_value_grows(d, i + 1 - start);
                    assert(digits_value(d) > u64::MAX);
                }
            }
            return None;
        }
        assert(v * 10 + dig <= u64::MAX) by (nonlinear_arith)
            requires
                v <= (u64::MAX - dig) / 10,
                dig <= 9,
        ;
        v = v * 10 + dig;
        i = i + 1;
    }
    assert(d.take(i - start) =~= d);
    Some(v)
}


// ── Reading ───────────────────────────────────────────────────────────────

pub open spec fn strip_lead_quotes(s: Seq<char>) -> Seq<char>
    decreases s.len(),
{
    if s.len() > 0 && s[0] == '"' {
        strip_lead_quotes(s.drop_first())
    } else {
        s
    }
}

pub open spec fn strip_trail_quotes(s: Seq<char>) -> Seq<char>
    decreases s.len(),
{
    if s.len() > 0 && s.last() == '"' {
        strip_trail_quotes(s.drop_last())
    } else {
        s
    }
}

/// `s` without the double quotes at either end (`trim_matches('"')`).
pub open spec fn trim_quotes(s: Seq<char>) -> Seq<char> {
    strip_trail_quotes(strip_lead_quotes(s))
}

/// Removes the double quotes at either end.
pub fn trim_quotes_exec(s: &[char]) -> (r: Vec<char>)
    ensures
        r@ == trim_quotes(s@),
{
    let n = s.len();
    let mut a: usize = 0;
    assert(s@.skip(0) =~= s@);
    while a < n && s[a] == '"'
        invariant
            a <= n == s@.len(),
            strip_lead_quotes(s@) == strip_lead_quotes(s@.skip(a as int)),
        decreases n - a,
    {
        assert(s@.skip(a as int).drop_first() =~= s@.skip(a + 1));
        a = a + 1;
    }
    let ghost t = s@.skip(a as int);
    assert(strip_lead_quotes(t) == t);
    let mut b: usize = n;
    assert(t.take(b - a) =~= t);
    while b > a && s[b - 1] == '"'
        invariant
            a <= b <= n == s@.len(),
            t == s@.skip(a as int),
            strip_trail_quotes(t) == strip_trail_quotes(t.take(b - a)),
        decreases b,
    {
        assert(t.take(b - a).drop_last() =~= t.take(b - 1 - a));
        b = b - 1;
    }
    let mut r: Vec<char> = Vec::new();
    let mut i: usize = a;
    while i < b
        invariant
            a <= i <= b <= n == s@.len(),
            r@ == s@.subrange(a as int, i as int),
        decreases b - i,
    {
        r.push(s[i]);
        i = i + 1;
        assert(r@ =~= s@.subrange(a as int, i as int));
    }
    assert(r@ =~= t.take(b - a));
    r
}

pub open spec fn save_key() -> Seq<char> {
    "save_email = "@
}

pub open spec fn email_key() -> Seq<char> {
    "email = "@
}

pub open spec fn auto_lock_key() -> Seq<char> {
    "auto_lock = "@
}

pub open spec fn minutes_key() -> Seq<char> {
    "lock_after_minutes = "@
}

/// The settings as plain values: save e-mail, the e-mail, auto-lock, and
/// the seconds of inactivity before locking.
pub open spec fn config_view(c: Config) -> (bool, Option<Seq<char>>, bool, int) {
    (c.save_email, crate::model::opt_view(c.email), c.auto_lock, c.lock_after_secs as int)
}

/// The settings before any line is read: nothing saved, auto-lock off,
/// fifteen minutes.
pub open spec fn default_config() -> (bool, Option<Seq<char>>, bool, int) {
    (false, None, false, 900)
}

/// The value after `key` on the trimmed line `t`, trimmed.
pub open spec fn value_after(t: Seq<char>, key: Seq<char>) -> Seq<char> {
    trim(t.skip(key.len() as int))
}

/// The minutes a `lock_after_minutes` line sets, if it is one and its value
/// is a number.
pub open spec fn line_minutes(l: Seq<char>) -> Option<nat> {
    let t = trim(l);
    if starts_with(t, save_key()) || starts_with(t, email_key()) || starts_with(t, auto_lock_key()) {
        None
    } else if starts_with(t, minutes_key()) {
        parse_u64(value_after(t, minutes_key()))
    } else {
        None
    }
}

/// One line of the settings: `save_email = `, `email = ` (quotes dropped;
/// an empty value is ignored), `auto_lock = ` (`true` turns it on, anything
/// else off), `lock_after_minutes = ` (a number; anything else is ignored).
pub open spec fn apply_line(c: (bool, Option<Seq<char>>, bool, int), l: Seq<char>) -> (bool, Option<Seq<char>>, bool, int) {
    let t = trim(l);
    if starts_with(t, save_key()) {
        (value_after(t, save_key()) == "true"@, c.1, c.2, c.3)
    } else if starts_with(t, email_key()) {
        let v = trim_quotes(value_after(t, email_key()));
        if v.len() > 0 {
            (c.0, Some(v), c.2, c.3)
        } else {
            c
        }
    } else if starts_with(t, auto_lock_key()) {
        (c.0, c.1, value_after(t, auto_lock_key()) == "true"@, c.3)
    } else {
        match line_minutes(l) {
            Some(m) => (c.0, c.1, c.2, (m * 60) as int),
            None => c,
        }
    }
}

/// The settings the lines give, each line applied in turn.
pub open spec fn config_of_lines(ls: Seq<Seq<char>>) -> (bool, Option<Seq<char>>, bool, int)
    decreases ls.len(),
{
    if ls.len() == 0 {
        default_config()
    } else {
        apply_line(config_of_lines(ls.drop_last()), ls.last())
    }
}

/// Every `lock_after_minutes` value, counted in seconds, fits in 64 bits.
pub open spec fn minutes_fit(ls: Seq<Seq<char>>) -> bool {
    forall|i: int| 0 <= i < ls.len() ==> match #[trigger] line_minutes(ls[i]) {
        Some(m) => m * 60 <= u64::MAX,
        None => true,
    }
}

fn prefixed(t: &[char], key: &str) -> (r: Option<Vec<char>>)
    ensures
        starts_with(t@, key@) ==> r is Some && r->0@ == value_after(t@, key@),
        !starts_with(t@, key@) ==> r is None,
{
    let k = to_chars(key);
    if starts_with_exec(t, &k) {
        let mut rest: Vec<char> = Vec::new();
        let mut i: usize = k.len();
        while i < t.len()
            invariant
                k@.len() <= i <= t@.len(),
                rest@ == t@.subrange(k@.len() as int, i as int),
            decreases t@.len() - i,
        {
            rest.push(t[i]);
            i = i + 1;
            assert(rest@ =~= t@.subrange(k@.len() as int, i as int));
        }
        assert(rest@ =~= t@.skip(key@.len() as int));
        Some(trim_chars(&rest))
    } else {
        None
    }
}

fn minutes_of_line(l: &[char]) -> (r: Option<u64>)
    ensures
        match line_minutes(l@) {
            Some(m) => r == Some(m as u64),
            None => r is None,
        },
{
    let t = trim_chars(l);
    if prefixed(&t, "save_email = ").is_some() || prefixed(&t, "email = ").is_some()
        || prefixed(&t, "auto_lock = ").is_some() {
        return None;
    }
    match prefixed(&t, "lock_after_minutes = ") {
        Some(v) => parse_u64_exec(&v),
        None => None,
    }
}

fn is_true(v: &[char]) -> (b: bool)
    ensures
        b == (v@ == "true"@),
{
    let t = to_chars("true");
    chars_eq(v, &t)
}

fn apply_line_exec(cfg: &mut Config, l: &[char])
    requires
        match line_minutes(l@) {
            Some(m) => m * 60 <= u64::MAX,
            None => true,
        },
    ensures
        config_view(*final(cfg)) == apply_line(config_view(*old(cfg)), l@),
{
    let t = trim_chars(l);
    if let Some(v) = prefixed(&t, "save_email = ") {
        cfg.save_email = is_true(&v);
    } else if let Some(v) = prefixed(&t, "email = ") {
        let q = trim_quotes_exec(&v);
        if q.len() > 0 {
            cfg.email = Some(from_chars(&q));
        }
    } else if let Some(v) = prefixed(&t, "auto_lock = ") {
        cfg.auto_lock = is_true(&v);
    } else if let Some(m) = minutes_of_line(l) {
        cfg.lock_after_secs = m * 60;
    }
}

/// Whether every `lock_after_minutes` value of the text, in seconds, fits
/// in 64 bits (a larger one overflows when the settings are read).
pub fn lock_minutes_fit(text: &str) -> (b: bool)
    ensures
        b == minutes_fit(lines(text@)),
{
    let ls = split_lines(&to_chars(text));
    let mut i: usize = 0;
    while i < ls.len()
        invariant
            i <= ls@.len(),
            line_views(ls@) == lines(text@),
            forall|k: int| 0 <= k < i ==> match #[trigger] line_minutes(line_views(ls@)[k]) {
                Some(m) => m * 60 <= u64::MAX,
                None => true,
            },
        decreases ls@.len() - i,
    {
        assert(line_views(ls@)[i as int] == ls@[i as int]@);
        if let Some(m) = minutes_of_line(&ls[i]) {
            if m > u64::MAX / 60 {
                assert(line_minutes(line_views(ls@)[i as int]) == Some(m as nat));
                return false;
            }
        }
        i = i + 1;
    }
    true
}

/// The settings a text of the settings file gives.
pub fn read(text: &str) -> (c: Config)
    requires
        minutes_fit(lines(text@)),
    ensures
        config_view(c) == config_of_lines(lines(text@)),
{
    let ls = split_lines(&to_chars(text));
    let mut cfg = Config { save_email: false, email: None, auto_lock: false, lock_after_secs: 900 };
    let mut i: usize = 0;
    while i < ls.len()
        invariant
            i <= ls@.len(),
            line_views(ls@) == lines(text@),
            minutes_fit(lines(text@)),
            config_view(cfg) == config_of_lines(line_views(ls@).take(i as int)),
        decreases ls@.len() - i,
    {
        assert(line_views(ls@)[i as int] == ls@[i as int]@);
        assert(line_views(ls@).take(i + 1).drop_last() =~= line_views(ls@).take(i as int));
        assert(line_minutes(line_views(ls@)[i as int]) == line_minutes(lines(text@)[i as int]));
        apply_line_exec(&mut cfg, &ls[i]);
        i = i + 1;
    }
    assert(line_views(ls@).take(i as int) =~= line_views(ls@));
    cfg
}


// ── Writing ───────────────────────────────────────────────────────────────

/// The lines joined by line feeds.
pub open spec fn join_lines(ls: Seq<Seq<char>>) -> Seq<char>
    decreases ls.len(),
{
    if ls.len() == 0 {
        Seq::empty()
    } else if ls.len() == 1 {
        ls[0]
    } else {
        join_lines(ls.drop_last()) + seq!['\n'] + ls.last()
    }
}

/// The text of a file with these lines, each ended by a line feed.
pub open spec fn file_text(ls: Seq<Seq<char>>) -> Seq<char> {
    join_lines(ls) + seq!['\n']
}

pub open spec fn bool_text(b: bool) -> Seq<char> {
    if b {
        "true"@
    } else {
        "false"@
    }
}

/// An `auto_lock =` line, however it is spaced.
pub open spec fn is_auto_lock_line(l: Seq<char>) -> bool {
    starts_with(trim(l), "auto_lock ="@)
}

/// A `save_email =` line, however it is spaced.
pub open spec fn is_save_line(l: Seq<char>) -> bool {
    starts_with(trim(l), "save_email ="@)
}

/// A `save_email =` or `email =` line, however it is spaced.
pub open spec fn is_login_line(l: Seq<char>) -> bool {
    is_save_line(l) || starts_with(trim(l), "email ="@)
}

pub open spec fn drop_auto_lock(ls: Seq<Seq<char>>) -> Seq<Seq<char>>
    decreases ls.len(),
{
    if ls.len() == 0 {
        Seq::empty()
    } else if is_auto_lock_line(ls.last()) {
        drop_auto_lock(ls.drop_last())
    } else {
        drop_auto_lock(ls.drop_last()).push(ls.last())
    }
}

pub open spec fn drop_login(ls: Seq<Seq<char>>) -> Seq<Seq<char>>
    decreases ls.len(),
{
    if ls.len() == 0 {
        Seq::empty()
    } else if is_login_line(ls.last()) {
        drop_login(ls.drop_last())
    } else {
        drop_login(ls.drop_last()).push(ls.last())
    }
}

/// The position of the first `save_email =` line, or -1.
pub open spec fn first_save_line(ls: Seq<Seq<char>>) -> int
    decreases ls.len(),
{
    if ls.len() == 0 {
        -1
    } else if is_save_line(ls[0]) {
        0
    } else {
        let r = first_save_line(ls.drop_first());
        if r < 0 {
            -1
        } else {
            r + 1
        }
    }
}

/// The lines without the blank ones at the start.
pub open spec fn drop_blank_prefix(ls: Seq<Seq<char>>) -> Seq<Seq<char>>
    decreases ls.len(),
{
    if ls.len() > 0 && trim(ls[0]).len() == 0 {
        drop_blank_prefix(ls.drop_first())
    } else {
        ls
    }
}

/// The settings text with its auto-lock setting replaced: every
/// `auto_lock =` line goes, and `auto_lock = true|false` is put right after
/// the first `save_email =` line, or first when there is none.
pub open spec fn auto_lock_text(existing: Seq<char>, on: bool) -> Seq<char> {
    let kept = drop_auto_lock(lines(existing));
    file_text(kept.insert(first_save_line(kept) + 1, "auto_lock = "@ + bool_text(on)))
}

/// The settings text with its login settings replaced: `save_email =` and
/// `email =` lines go, as do the blank lines then at the start;
/// `save_email = true|false` comes first, then `email = "<e-mail>"` when it
/// is saved, then a blank line and the other lines, if any.
pub open spec fn login_text(existing: Seq<char>, save: bool, email: Option<Seq<char>>) -> Seq<char> {
    let preserved = drop_blank_prefix(drop_login(lines(existing)));
    let head = seq!["save_email = "@ + bool_text(save)] + if save && email is Some {
        seq!["email = \""@ + email->0 + "\""@]
    } else {
        Seq::empty()
    };
    file_text(
        if preserved.len() > 0 {
            head + seq![Seq::<char>::empty()] + preserved
        } else {
            head
        },
    )
}

fn join_text(ls: &Vec<Vec<char>>) -> (r: String)
    ensures
        r@ == file_text(line_views(ls@)),
{
    let mut out: Vec<char> = Vec::new();
    let mut i: usize = 0;
    while i < ls.len()
        invariant
            i <= ls@.len(),
            out@ == join_lines(line_views(ls@).take(i as int)),
        decreases ls@.len() - i,
    {
        let ghost prev = line_views(ls@).take(i as int);
        assert(line_views(ls@).take(i + 1).drop_last() =~= prev);
        assert(line_views(ls@)[i as int] == ls@[i as int]@);
        if i > 0 {
            out.push('\n');
        }
        append_slice(&mut out, ls[i].as_slice());
        proof {
            let t1 = line_views(ls@).take(i + 1);
            if i == 0 {
                assert(out@ =~= t1[0]);
            } else {
                assert(t1.drop_last() =~= prev);
                assert(t1.last() == ls@[i as int]@);
                assert(out@ =~= join_lines(prev) + seq!['\n'] + ls@[i as int]@);
            }
        }
        i = i + 1;
    }
    assert(line_views(ls@).take(i as int) =~= line_views(ls@));
    out.push('\n');
    from_chars(&out)
}

fn is_line_with(l: &[char], key: &str) -> (b: bool)
    ensures
        b == starts_with(trim(l@), key@),
{
    let t = trim_chars(l);
    let k = to_chars(key);
    starts_with_exec(&t, &k)
}

fn bool_chars(v: &mut Vec<char>, b: bool)
    ensures
        final(v)@ == old(v)@ + bool_text(b),
{
    if b {
        push_str(v, "true");
    } else {
        push_str(v, "false");
    }
}

/// The settings text `existing` with its auto-lock setting replaced.
pub fn write_auto_lock(existing: &str, auto_lock: bool) -> (r: String)
    ensures
        r@ == auto_lock_text(existing@, auto_lock),
{
    let ls = split_lines(&to_chars(existing));
    let mut kept: Vec<Vec<char>> = Vec::new();
    let mut i: usize = 0;
    while i < ls.len()
        invariant
            i <= ls@.len(),
            line_views(ls@) == lines(existing@),
            line_views(kept@) == drop_auto_lock(line_views(ls@).take(i as int)),
        decreases ls@.len() - i,
    {
        assert(line_views(ls@).take(i + 1).drop_last() =~= line_views(ls@).take(i as int));
        assert(line_views(ls@)[i as int] == ls@[i as int]@);
        let ghost k0 = line_views(kept@);
        if !is_line_with(&ls[i], "auto_lock =") {
            kept.push(ls[i].clone());
            assert(line_views(kept@) =~= k0.push(ls@[i as int]@));
        }
        i = i + 1;
    }
    assert(line_views(ls@).take(i as int) =~= line_views(ls@));
    let mut pos: usize = 0;
    let mut j: usize = 0;
    let mut found = false;
    assert(line_views(kept@).skip(0) =~= line_views(kept@));
    while j < kept.len() && !found
        invariant
            j <= kept@.len(),
            pos <= kept@.len(),
            !found ==> pos == 0,
            found ==> pos == first_save_line(line_views(kept@)) + 1,
            !found ==> first_save_line(line_views(kept@)) == (if first_save_line(line_views(kept@).skip(j as int)) < 0 {
                -1
            } else {
                first_save_line(line_views(kept@).skip(j as int)) + j
            }),
        decreases kept@.len() - j + (if found { 0int } else { 1int }),
    {
        let ghost rest = line_views(kept@).skip(j as int);
        assert(rest[0] == kept@[j as int]@);
        assert(rest.drop_first() =~= line_views(kept@).skip(j + 1));
        if is_line_with(&kept[j], "save_email =") {
            pos = j + 1;
            found = true;
        } else {
            j = j + 1;
        }
    }
    proof {
        if !found {
            assert(line_views(kept@).skip(j as int).len() == 0);
        }
    }
    let mut line: Vec<char> = to_chars("auto_lock = ");
    bool_chars(&mut line, auto_lock);
    let ghost kv = line_views(kept@);
    kept.insert(pos, line);
    assert(line_views(kept@) =~= kv.insert(pos as int, "auto_lock = "@ + bool_text(auto_lock)));
    join_text(&kept)
}

/// The settings text `existing` with its login settings replaced.
pub fn write(existing: &str, save_email: bool, email: Option<&str>) -> (r: String)
    ensures
        r@ == login_text(existing@, save_email, match email {
            Some(e) => Some(e@),
            None => None,
        }),
{
    let ls = split_lines(&to_chars(existing));
    let mut kept: Vec<Vec<char>> = Vec::new();
    let mut i: usize = 0;
    while i < ls.len()
        invariant
            i <= ls@.len(),
            line_views(ls@) == lines(existing@),
            line_views(kept@) == drop_login(line_views(ls@).take(i as int)),
        decreases ls@.len() - i,
    {
        assert(line_views(ls@).take(i + 1).drop_last() =~= line_views(ls@).take(i as int));
        assert(line_views(ls@)[i as int] == ls@[i as int]@);
        let ghost k0 = line_views(kept@);
        if !is_line_with(&ls[i], "save_email =") && !is_line_with(&ls[i], "email =") {
            kept.push(ls[i].clone());
            assert(line_views(kept@) =~= k0.push(ls@[i as int]@));
        }
        i = i + 1;
    }
    assert(line_views(ls@).take(i as int) =~= line_views(ls@));
    let mut s: usize = 0;
    assert(line_views(kept@).skip(0) =~= line_views(kept@));
    while s < kept.len() && trim_chars(kept[s].as_slice()).len() == 0
        invariant
            s <= kept@.len(),
            drop_blank_prefix(line_views(kept@)) == drop_blank_prefix(line_views(kept@).skip(s as int)),
        decreases kept@.len() - s,
    {
        assert(line_views(kept@).skip(s as int)[0] == kept@[s as int]@);
        assert(line_views(kept@).skip(s as int).drop_first() =~= line_views(kept@).skip(s + 1));
        s = s + 1;
    }
    let ghost preserved = line_views(kept@).skip(s as int);
    proof {
        if s < kept@.len() {
            assert(preserved[0] == kept@[s as int]@);
        }
        assert(drop_blank_prefix(preserved) == preserved);
    }
    let mut out: Vec<Vec<char>> = Vec::new();
    let mut first: Vec<char> = to_chars("save_email = ");
    bool_chars(&mut first, save_email);
    out.push(first);
    if save_email {
        if let Some(e) = email {
            let mut second: Vec<char> = to_chars("email = \"");
            push_str(&mut second, e);
            push_str(&mut second, "\"");
            out.push(second);
        }
    }
    let ghost head = line_views(out@);
    if s < kept.len() {
        out.push(Vec::new());
        let mut k: usize = s;
        while k < kept.len()
            invariant
                s <= k <= kept@.len(),
                line_views(out@) == head + seq![Seq::<char>::empty()] + line_views(kept@).subrange(s as int, k as int),
            decreases kept@.len() - k,
        {
            let ghost o0 = line_views(out@);
            out.push(kept[k].clone());
            assert(line_views(out@) =~= o0.push(kept@[k as int]@));
            assert(line_views(kept@).subrange(s as int, k + 1) =~= line_views(kept@).subrange(s as int, k as int).push(kept@[k as int]@));
            k = k + 1;
        }
        assert(line_views(kept@).subrange(s as int, k as int) =~= preserved);
    }
    assert(head =~= seq!["save_email = "@ + bool_text(save_email)] + if save_email && email is Some {
        seq!["email = \""@ + email->0@ + "\""@]
    } else {
        Seq::empty()
    });
    join_text(&out)
}


// ── Where the file lives ──────────────────────────────────────────────────

/// `base` joined with the relative component `comp` (`Path::join`): a `/`
/// goes between them unless `base` is empty or already ends with one.
pub open spec fn path_join(base: Seq<char>, comp: Seq<char>) -> Seq<char> {
    if base.len() == 0 {
        comp
    } else if base.last() == '/' {
        base + comp
    } else {
        base + seq!['/'] + comp
    }
}

/// The settings directory `$HOME/.config/bytewarden`, with `.` for a
/// missing home.
pub open spec fn config_dir(home: Option<Seq<char>>) -> Seq<char> {
    path_join(path_join(match home {
        Some(h) => h,
        None => "."@,
    }, ".config"@), "bytewarden"@)
}

fn join_path(base: String, comp: &str) -> (r: String)
    ensures
        r@ == path_join(base@, comp@),
{
    let mut v = to_chars(base.as_str());
    if v.len() > 0 && v[v.len() - 1] != '/' {
        v.push('/');
    }
    push_str(&mut v, comp);
    from_chars(&v)
}

/// The settings directory, given the value of `HOME` if it is set.
pub fn config_path(home: Option<&str>) -> (r: String)
    ensures
        r@ == config_dir(match home {
            Some(h) => Some(h@),
            None => None,
        }),
{
    let base = match home {
        Some(h) => crate::text::owned(h),
        None => crate::text::owned("."),
    };
    join_path(join_path(base, ".config"), "bytewarden")
}

/// The settings file `config.toml` in the settings directory.
pub fn config_file(home: Option<&str>) -> (r: String)
    ensures
        r@ == path_join(config_dir(match home {
            Some(h) => Some(h@),
            None => None,
        }), "config.toml"@),
{
    join_path(config_path(home), "config.toml")
}


// ── Reading back what was written ─────────────────────────────────────────

/// No line feed in `l`.
pub open spec fn no_nl(l: Seq<char>) -> bool {
    forall|i: int| 0 <= i < l.len() ==> l[i] != '\n'
}

proof fn lemma_state_append_plain(a: Seq<char>, b: Seq<char>)
    requires
        no_nl(b),
    ensures
        split_state(a + b) == (split_state(a).0, split_state(a).1 + b),
    decreases b.len(),
{
    if b.len() == 0 {
        assert(a + b =~= a);
        assert(split_state(a).1 + b =~= split_state(a).1);
    } else {
        assert((a + b).drop_last() =~= a + b.drop_last());
        assert((a + b).last() == b.last());
        lemma_state_append_plain(a, b.drop_last());
        assert((split_state(a).1 + b.drop_last()).push(b.last()) =~= split_state(a).1 + b);
    }
}

proof fn lemma_state_line(a: Seq<char>, x: Seq<char>)
    requires
        no_nl(x),
    ensures
        split_state(a + x + seq!['\n']) == (
            split_state(a).0.push(strip_cr(split_state(a).1 + x)),
            Seq::<char>::empty(),
        ),
{
    assert((a + x + seq!['\n']).drop_last() =~= a + x);
    lemma_state_append_plain(a, x);
}

/// The lines of a file written from lines without line feeds are those
/// lines, each without a final carriage return.
proof fn lemma_lines_file_text(ls: Seq<Seq<char>>)
    requires
        ls.len() > 0,
        forall|i: int| 0 <= i < ls.len() ==> no_nl(#[trigger] ls[i]),
    ensures
        split_state(file_text(ls)) == (Seq::new(ls.len(), |i: int| strip_cr(ls[i])), Seq::<char>::empty()),
        lines(file_text(ls)) == Seq::new(ls.len(), |i: int| strip_cr(ls[i])),
    decreases ls.len(),
{
    if ls.len() == 1 {
        assert(file_text(ls) =~= Seq::<char>::empty() + ls[0] + seq!['\n']);
        lemma_state_line(Seq::empty(), ls[0]);
        assert(Seq::<char>::empty() + ls[0] =~= ls[0]);
        assert(Seq::<Seq<char>>::empty().push(strip_cr(ls[0])) =~= Seq::new(ls.len(), |i: int| strip_cr(ls[i])));
    } else {
        let init = ls.drop_last();
        lemma_lines_file_text(init);
        assert(file_text(ls) =~= file_text(init) + ls.last() + seq!['\n']);
        lemma_state_line(file_text(init), ls.last());
        assert(Seq::<char>::empty() + ls.last() =~= ls.last());
        assert(Seq::new(init.len(), |i: int| strip_cr(init[i])).push(strip_cr(ls.last())) =~= Seq::new(
            ls.len(),
            |i: int| strip_cr(ls[i]),
        ));
    }
}

proof fn lemma_state_no_nl(s: Seq<char>)
    ensures
        forall|i: int| 0 <= i < split_state(s).0.len() ==> no_nl(#[trigger] split_state(s).0[i]),
        no_nl(split_state(s).1),
    decreases s.len(),
{
    if s.len() > 0 {
        lemma_state_no_nl(s.drop_last());
        let (ls, cur) = split_state(s.drop_last());
        if s.last() == '\n' {
            assert(no_nl(strip_cr(cur)));
            assert forall|i: int| 0 <= i < ls.push(strip_cr(cur)).len() implies no_nl(#[trigger] ls.push(strip_cr(cur))[i]) by {
                if i < ls.len() {
                    assert(ls.push(strip_cr(cur))[i] == ls[i]);
                }
            }
        } else {
            assert(no_nl(cur.push(s.last())));
        }
    }
}

proof fn lemma_lines_no_nl(s: Seq<char>)
    ensures
        forall|i: int| 0 <= i < lines(s).len() ==> no_nl(#[trigger] lines(s)[i]),
{
    lemma_state_no_nl(s);
    let (ls, cur) = split_state(s);
    if cur.len() > 0 {
        assert forall|i: int| 0 <= i < ls.push(cur).len() implies no_nl(#[trigger] ls.push(cur)[i]) by {
            if i < ls.len() {
                assert(ls.push(cur)[i] == ls[i]);
            }
        }
    }
}

proof fn lemma_trim_start_push(m: Seq<char>, c: char)
    ensures
        trim_start(m.push(c)) == if trim_start(m).len() == 0 {
            trim_start(seq![c])
        } else {
            trim_start(m).push(c)
        },
    decreases m.len(),
{
    if m.len() == 0 {
        assert(m.push(c) =~= seq![c]);
    } else if crate::text::is_ws(m[0]) {
        assert(m.push(c).drop_first() =~= m.drop_first().push(c));
        lemma_trim_start_push(m.drop_first(), c);
    } else {
        assert(m.push(c)[0] == m[0]);
    }
}

proof fn lemma_trim_strip_cr(l: Seq<char>)
    ensures
        trim(strip_cr(l)) == trim(l),
{
    if l.len() > 0 && l.last() == '\r' {
        let m = l.drop_last();
        assert(m.push('\r') =~= l);
        lemma_trim_start_push(m, '\r');
        assert(crate::text::is_ws('\r'));
        assert(seq!['\r'].drop_first() =~= Seq::<char>::empty());
        assert(trim_start(seq!['\r']) == trim_start(Seq::<char>::empty()));
        if trim_start(m).len() > 0 {
            assert(trim_start(m).push('\r').drop_last() =~= trim_start(m));
        }
    }
}

/// Trimming leaves a text that starts and ends with other than white space.
proof fn lemma_trim_plain(s: Seq<char>)
    requires
        s.len() > 0,
        !crate::text::is_ws(s[0]),
        !crate::text::is_ws(s.last()),
    ensures
        trim(s) == s,
{
}

/// A line that does not start (trimmed) with `key` leaves each setting it
/// does not name as it was.
proof fn lemma_fold_keeps(ls: Seq<Seq<char>>, k: int, which: int)
    requires
        0 <= k <= ls.len(),
        0 <= which < 3,
        forall|j: int| k <= j < ls.len() ==> !starts_with(trim(#[trigger] ls[j]), if which == 0 {
            save_key()
        } else if which == 1 {
            email_key()
        } else {
            auto_lock_key()
        }),
    ensures
        which == 0 ==> config_of_lines(ls).0 == config_of_lines(ls.take(k)).0,
        which == 1 ==> config_of_lines(ls).1 == config_of_lines(ls.take(k)).1,
        which == 2 ==> config_of_lines(ls).2 == config_of_lines(ls.take(k)).2,
    decreases ls.len() - k,
{
    if k < ls.len() {
        let init = ls.drop_last();
        assert(init.take(k) =~= ls.take(k));
        assert forall|j: int| k <= j < init.len() implies !starts_with(trim(#[trigger] init[j]), if which == 0 {
            save_key()
        } else if which == 1 {
            email_key()
        } else {
            auto_lock_key()
        }) by {
            assert(init[j] == ls[j]);
        }
        lemma_fold_keeps(init, k, which);
        assert(!starts_with(trim(ls.last()), if which == 0 {
            save_key()
        } else if which == 1 {
            email_key()
        } else {
            auto_lock_key()
        }));
    } else {
        assert(ls.take(k) =~= ls);
    }
}


proof fn lemma_drop_auto_lock_props(ls: Seq<Seq<char>>)
    requires
        forall|i: int| 0 <= i < ls.len() ==> no_nl(#[trigger] ls[i]),
    ensures
        forall|k: int| 0 <= k < drop_auto_lock(ls).len() ==> no_nl(#[trigger] drop_auto_lock(ls)[k])
            && !is_auto_lock_line(drop_auto_lock(ls)[k]),
    decreases ls.len(),
{
    if ls.len() > 0 {
        let init = ls.drop_last();
        assert forall|i: int| 0 <= i < init.len() implies no_nl(#[trigger] init[i]) by {
            assert(init[i] == ls[i]);
        }
        lemma_drop_auto_lock_props(init);
        let r = drop_auto_lock(init);
        if !is_auto_lock_line(ls.last()) {
            assert forall|k: int| 0 <= k < r.push(ls.last()).len() implies no_nl(#[trigger] r.push(ls.last())[k])
                && !is_auto_lock_line(r.push(ls.last())[k]) by {
                if k < r.len() {
                    assert(r.push(ls.last())[k] == r[k]);
                }
            }
        }
    }
}

proof fn lemma_drop_login_props(ls: Seq<Seq<char>>)
    requires
        forall|i: int| 0 <= i < ls.len() ==> no_nl(#[trigger] ls[i]),
    ensures
        forall|k: int| 0 <= k < drop_login(ls).len() ==> no_nl(#[trigger] drop_login(ls)[k])
            && !is_login_line(drop_login(ls)[k]),
    decreases ls.len(),
{
    if ls.len() > 0 {
        let init = ls.drop_last();
        assert forall|i: int| 0 <= i < init.len() implies no_nl(#[trigger] init[i]) by {
            assert(init[i] == ls[i]);
        }
        lemma_drop_login_props(init);
        let r = drop_login(init);
        if !is_login_line(ls.last()) {
            assert forall|k: int| 0 <= k < r.push(ls.last()).len() implies no_nl(#[trigger] r.push(ls.last())[k])
                && !is_login_line(r.push(ls.last())[k]) by {
                if k < r.len() {
                    assert(r.push(ls.last())[k] == r[k]);
                }
            }
        }
    }
}

proof fn lemma_drop_blank_props(ls: Seq<Seq<char>>)
    requires
        forall|i: int| 0 <= i < ls.len() ==> no_nl(#[trigger] ls[i]) && !is_login_line(ls[i]),
    ensures
        forall|k: int| 0 <= k < drop_blank_prefix(ls).len() ==> no_nl(#[trigger] drop_blank_prefix(ls)[k])
            && !is_login_line(drop_blank_prefix(ls)[k]),
    decreases ls.len(),
{
    if ls.len() > 0 && trim(ls[0]).len() == 0 {
        let rest = ls.drop_first();
        assert forall|i: int| 0 <= i < rest.len() implies no_nl(#[trigger] rest[i]) && !is_login_line(rest[i]) by {
            assert(rest[i] == ls[i + 1]);
        }
        lemma_drop_blank_props(rest);
        assert(drop_blank_prefix(ls) == drop_blank_prefix(rest));
    } else {
        assert(drop_blank_prefix(ls) == ls);
        assert forall|k: int| 0 <= k < drop_blank_prefix(ls).len() implies no_nl(#[trigger] drop_blank_prefix(ls)[k])
            && !is_login_line(drop_blank_prefix(ls)[k]) by {
            assert(drop_blank_prefix(ls)[k] == ls[k]);
        }
    }
}

proof fn lemma_first_save_line_bound(ls: Seq<Seq<char>>)
    ensures
        -1 <= first_save_line(ls) < ls.len(),
    decreases ls.len(),
{
    if ls.len() > 0 && !is_save_line(ls[0]) {
        lemma_first_save_line_bound(ls.drop_first());
    }
}

/// A text that starts with `key` followed by a space starts with `key`.
proof fn lemma_key_prefixes(t: Seq<char>)
    ensures
        starts_with(t, auto_lock_key()) ==> starts_with(t, "auto_lock ="@),
        starts_with(t, save_key()) ==> starts_with(t, "save_email ="@),
        starts_with(t, email_key()) ==> starts_with(t, "email ="@),
{
    reveal_strlit("auto_lock = ");
    reveal_strlit("auto_lock =");
    reveal_strlit("save_email = ");
    reveal_strlit("save_email =");
    reveal_strlit("email = ");
    reveal_strlit("email =");
    if starts_with(t, auto_lock_key()) {
        assert(t.subrange(0, 11) =~= t.subrange(0, 12).subrange(0, 11));
        assert(t.subrange(0, 11) =~= "auto_lock ="@);
    }
    if starts_with(t, save_key()) {
        assert(t.subrange(0, 12) =~= t.subrange(0, 13).subrange(0, 12));
        assert(t.subrange(0, 12) =~= "save_email ="@);
    }
    if starts_with(t, email_key()) {
        assert(t.subrange(0, 7) =~= t.subrange(0, 8).subrange(0, 7));
        assert(t.subrange(0, 7) =~= "email ="@);
    }
}

/// A line that is no `auto_lock =` line, with or without a final carriage
/// return, does not set auto-lock.
proof fn lemma_not_auto_lock(l: Seq<char>)
    requires
        !is_auto_lock_line(l),
    ensures
        !starts_with(trim(strip_cr(l)), auto_lock_key()),
{
    lemma_trim_strip_cr(l);
    lemma_key_prefixes(trim(l));
}

/// A line that is no `save_email =` or `email =` line, with or without a
/// final carriage return, sets neither.
proof fn lemma_not_login(l: Seq<char>)
    requires
        !is_login_line(l),
    ensures
        !starts_with(trim(strip_cr(l)), save_key()),
        !starts_with(trim(strip_cr(l)), email_key()),
{
    lemma_trim_strip_cr(l);
    lemma_key_prefixes(trim(l));
}

proof fn lemma_auto_lock_line(c: (bool, Option<Seq<char>>, bool, int), on: bool)
    ensures
        no_nl("auto_lock = "@ + bool_text(on)),
        strip_cr("auto_lock = "@ + bool_text(on)) == "auto_lock = "@ + bool_text(on),
        apply_line(c, "auto_lock = "@ + bool_text(on)).2 == on,
{
    reveal_strlit("auto_lock = ");
    reveal_strlit("save_email = ");
    reveal_strlit("email = ");
    reveal_strlit("true");
    reveal_strlit("false");
    let l = "auto_lock = "@ + bool_text(on);
    lemma_trim_plain(l);
    lemma_trim_plain(bool_text(on));
    assert(l.skip(12) =~= bool_text(on));
    assert(l.subrange(0, 12) =~= auto_lock_key());
    assert(!starts_with(l, save_key())) by {
        assert(l.subrange(0, 13)[0] != save_key()[0]);
    }
    assert(!starts_with(l, email_key())) by {
        assert(l.subrange(0, 8)[0] != email_key()[0]);
    }
    assert(bool_text(on) == "true"@ <==> on) by {
        if !on {
            assert(bool_text(on).len() != "true"@.len());
        }
    }
}

/// Writing the auto-lock setting into any settings text and reading the
/// result gives back that setting.
pub proof fn law_auto_lock_round_trip(existing: Seq<char>, on: bool)
    ensures
        config_of_lines(lines(auto_lock_text(existing, on))).2 == on,
{
    let kept = drop_auto_lock(lines(existing));
    lemma_lines_no_nl(existing);
    lemma_drop_auto_lock_props(lines(existing));
    lemma_first_save_line_bound(kept);
    let pos = first_save_line(kept) + 1;
    let line = "auto_lock = "@ + bool_text(on);
    lemma_auto_lock_line(default_config(), on);
    let new = kept.insert(pos, line);
    assert forall|i: int| 0 <= i < new.len() implies no_nl(#[trigger] new[i]) by {
        if i < pos {
            assert(new[i] == kept[i]);
        } else if i > pos {
            assert(new[i] == kept[i - 1]);
        }
    }
    lemma_lines_file_text(new);
    let ls = lines(file_text(new));
    assert(ls == Seq::new(new.len(), |i: int| strip_cr(new[i])));
    assert forall|j: int| pos + 1 <= j < ls.len() implies !starts_with(trim(#[trigger] ls[j]), if 2 == 0 {
        save_key()
    } else if 2 == 1 {
        email_key()
    } else {
        auto_lock_key()
    }) by {
        assert(new[j] == kept[j - 1]);
        lemma_not_auto_lock(kept[j - 1]);
    }
    lemma_fold_keeps(ls, pos + 1, 2);
    assert(ls.take(pos + 1).drop_last() =~= ls.take(pos));
    assert(ls.take(pos + 1).last() == line);
    lemma_auto_lock_line(config_of_lines(ls.take(pos)), on);
}


/// An e-mail the settings file keeps as it is: no line feed, and no double
/// quote at either end.
pub open spec fn plain_email(e: Seq<char>) -> bool {
    no_nl(e) && (e.len() > 0 ==> e[0] != '"' && e.last() != '"')
}

proof fn lemma_save_line(c: (bool, Option<Seq<char>>, bool, int), save: bool)
    ensures
        no_nl("save_email = "@ + bool_text(save)),
        strip_cr("save_email = "@ + bool_text(save)) == "save_email = "@ + bool_text(save),
        apply_line(c, "save_email = "@ + bool_text(save)).0 == save,
        apply_line(c, "save_email = "@ + bool_text(save)).1 == c.1,
        !sets_lock(trim("save_email = "@ + bool_text(save))),
{
    reveal_strlit("save_email = ");
    reveal_strlit("true");
    reveal_strlit("false");
    let l = "save_email = "@ + bool_text(save);
    lemma_trim_plain(l);
    lemma_trim_plain(bool_text(save));
    assert(l.skip(13) =~= bool_text(save));
    assert(l.subrange(0, 13) =~= save_key());
    assert(bool_text(save) == "true"@ <==> save) by {
        if !save {
            assert(bool_text(save).len() != "true"@.len());
        }
    }
}

proof fn lemma_email_line(c: (bool, Option<Seq<char>>, bool, int), e: Seq<char>)
    requires
        plain_email(e),
    ensures
        no_nl("email = \""@ + e + "\""@),
        strip_cr("email = \""@ + e + "\""@) == "email = \""@ + e + "\""@,
        !starts_with(trim("email = \""@ + e + "\""@), save_key()),
        !sets_lock(trim("email = \""@ + e + "\""@)),
        apply_line(c, "email = \""@ + e + "\""@).0 == c.0,
        apply_line(c, "email = \""@ + e + "\""@).1 == if e.len() > 0 {
            Some(e)
        } else {
            c.1
        },
{
    reveal_strlit("email = \"");
    reveal_strlit("\"");
    reveal_strlit("save_email = ");
    reveal_strlit("email = ");
    let l = "email = \""@ + e + "\""@;
    let q = seq!['"'] + e + seq!['"'];
    assert(l.len() == 10 + e.len());
    assert forall|i: int| 0 <= i < l.len() implies l[i] != '\n' by {
        if 9 <= i < 9 + e.len() {
            assert(l[i] == e[i - 9]);
        }
    }
    lemma_trim_plain(l);
    assert(l.skip(8) =~= q);
    lemma_trim_plain(q);
    assert(l.subrange(0, 8) =~= email_key());
    assert(l[0] == 'e');
    assert(!starts_with(l, save_key())) by {
        if starts_with(l, save_key()) {
            assert(l.subrange(0, 13)[0] == l[0]);
        }
    }
    assert(q.drop_first() =~= e + seq!['"']);
    assert(strip_lead_quotes(q) == strip_lead_quotes(e + seq!['"']));
    if e.len() > 0 {
        assert((e + seq!['"'])[0] == e[0]);
        assert((e + seq!['"']).drop_last() =~= e);
        assert(strip_lead_quotes(e + seq!['"']) == e + seq!['"']);
        assert(strip_trail_quotes(e + seq!['"']) == strip_trail_quotes(e));
        assert(strip_trail_quotes(e) == e);
    } else {
        assert(e + seq!['"'] =~= seq!['"']);
        assert(seq!['"'].drop_first() =~= Seq::<char>::empty());
        assert(strip_lead_quotes(seq!['"']) == strip_lead_quotes(Seq::<char>::empty()));
        assert(strip_trail_quotes(Seq::<char>::empty()) =~= e);
    }
    assert(value_after(l, email_key()) == q);
    assert(trim_quotes(value_after(l, email_key())) == e);
}

// ── What the login settings leave alone ──────────────────────────────────

/// The minutes a trimmed `lock_after_minutes` line sets (`line_minutes` of
/// a line whose trimmed text is `t`).
pub open spec fn minutes_t(t: Seq<char>) -> Option<nat> {
    if starts_with(t, save_key()) || starts_with(t, email_key()) || starts_with(t, auto_lock_key()) {
        None
    } else if starts_with(t, minutes_key()) {
        parse_u64(value_after(t, minutes_key()))
    } else {
        None
    }
}

/// A trimmed line that sets the auto-lock flag or the minutes.
pub open spec fn sets_lock(t: Seq<char>) -> bool {
    !starts_with(t, save_key()) && !starts_with(t, email_key()) && (starts_with(t, auto_lock_key())
        || minutes_t(t) is Some)
}

/// The auto-lock part of the settings: the flag and the seconds.
pub open spec fn lock_part(c: (bool, Option<Seq<char>>, bool, int)) -> (bool, int) {
    (c.2, c.3)
}

/// The trimmed lines that set the auto-lock flag or the minutes, in order.
pub open spec fn lock_lines(ls: Seq<Seq<char>>) -> Seq<Seq<char>>
    decreases ls.len(),
{
    if ls.len() == 0 {
        Seq::empty()
    } else if sets_lock(trim(ls.last())) {
        lock_lines(ls.drop_last()).push(trim(ls.last()))
    } else {
        lock_lines(ls.drop_last())
    }
}

/// `apply_line` for a line whose trimmed text is `t`.
pub open spec fn apply_t(c: (bool, Option<Seq<char>>, bool, int), t: Seq<char>) -> (bool, Option<Seq<char>>, bool, int) {
    if starts_with(t, save_key()) {
        (value_after(t, save_key()) == "true"@, c.1, c.2, c.3)
    } else if starts_with(t, email_key()) {
        let v = trim_quotes(value_after(t, email_key()));
        if v.len() > 0 {
            (c.0, Some(v), c.2, c.3)
        } else {
            c
        }
    } else if starts_with(t, auto_lock_key()) {
        (c.0, c.1, value_after(t, auto_lock_key()) == "true"@, c.3)
    } else {
        match minutes_t(t) {
            Some(m) => (c.0, c.1, c.2, (m * 60) as int),
            None => c,
        }
    }
}

/// The settings the trimmed lines give.
pub open spec fn fold_trimmed(ts: Seq<Seq<char>>) -> (bool, Option<Seq<char>>, bool, int)
    decreases ts.len(),
{
    if ts.len() == 0 {
        default_config()
    } else {
        apply_t(fold_trimmed(ts.drop_last()), ts.last())
    }
}

/// The auto-lock part after a line depends on the part before and the
/// line's trimmed text.
proof fn lemma_lock_step(c1: (bool, Option<Seq<char>>, bool, int), c2: (bool, Option<Seq<char>>, bool, int), t: Seq<char>)
    requires
        lock_part(c1) == lock_part(c2),
    ensures
        lock_part(apply_t(c1, t)) == lock_part(apply_t(c2, t)),
        !sets_lock(t) ==> lock_part(apply_t(c1, t)) == lock_part(c1),
{
}

proof fn lemma_lock_fold(ls: Seq<Seq<char>>)
    ensures
        lock_part(config_of_lines(ls)) == lock_part(fold_trimmed(lock_lines(ls))),
    decreases ls.len(),
{
    if ls.len() > 0 {
        lemma_lock_fold(ls.drop_last());
        let t = trim(ls.last());
        assert(line_minutes(ls.last()) == minutes_t(t));
        assert(apply_line(config_of_lines(ls.drop_last()), ls.last()) == apply_t(config_of_lines(ls.drop_last()), t));
        lemma_lock_step(config_of_lines(ls.drop_last()), fold_trimmed(lock_lines(ls.drop_last())), t);
        if sets_lock(t) {
            let ll = lock_lines(ls.drop_last()).push(t);
            assert(ll.drop_last() =~= lock_lines(ls.drop_last()));
        }
    }
}

proof fn lemma_lock_lines_add(a: Seq<Seq<char>>, b: Seq<Seq<char>>)
    ensures
        lock_lines(a + b) == lock_lines(a) + lock_lines(b),
    decreases b.len(),
{
    if b.len() == 0 {
        assert(a + b =~= a);
        assert(lock_lines(a) + lock_lines(b) =~= lock_lines(a));
    } else {
        lemma_lock_lines_add(a, b.drop_last());
        assert((a + b).drop_last() =~= a + b.drop_last());
        assert((a + b).last() == b.last());
        if sets_lock(trim(b.last())) {
            assert(lock_lines(a) + lock_lines(b.drop_last()).push(trim(b.last())) =~= (lock_lines(a)
                + lock_lines(b.drop_last())).push(trim(b.last())));
        }
    }
}

/// Lines with the same trimmed text set the same.
proof fn lemma_lock_lines_trim_eq(a: Seq<Seq<char>>, b: Seq<Seq<char>>)
    requires
        a.len() == b.len(),
        forall|i: int| 0 <= i < a.len() ==> trim(#[trigger] a[i]) == trim(b[i]),
    ensures
        lock_lines(a) == lock_lines(b),
    decreases a.len(),
{
    if a.len() > 0 {
        assert forall|i: int| 0 <= i < a.drop_last().len() implies trim(#[trigger] a.drop_last()[i]) == trim(b.drop_last()[i]) by {
            assert(a.drop_last()[i] == a[i] && b.drop_last()[i] == b[i]);
        }
        lemma_lock_lines_trim_eq(a.drop_last(), b.drop_last());
        assert(trim(a.last()) == trim(b.last()));
    }
}

/// Lines none of which sets the auto-lock part give no lock lines.
proof fn lemma_lock_lines_none(a: Seq<Seq<char>>)
    requires
        forall|i: int| 0 <= i < a.len() ==> !sets_lock(trim(#[trigger] a[i])),
    ensures
        lock_lines(a) == Seq::<Seq<char>>::empty(),
    decreases a.len(),
{
    if a.len() > 0 {
        assert forall|i: int| 0 <= i < a.drop_last().len() implies !sets_lock(trim(#[trigger] a.drop_last()[i])) by {
            assert(a.drop_last()[i] == a[i]);
        }
        lemma_lock_lines_none(a.drop_last());
        assert(!sets_lock(trim(a[a.len() - 1])));
    }
}

/// A `save_email =` or `email =` line sets no part of auto-lock.
proof fn lemma_login_not_lock(l: Seq<char>)
    requires
        is_login_line(l),
    ensures
        !sets_lock(trim(l)),
{
    let t = trim(l);
    reveal_strlit("save_email =");
    reveal_strlit("email =");
    reveal_strlit("auto_lock = ");
    reveal_strlit("lock_after_minutes = ");
    if starts_with(t, auto_lock_key()) {
        assert(t.subrange(0, auto_lock_key().len() as int)[0] == t[0]);
        assert(auto_lock_key()[0] == 'a');
    }
    if starts_with(t, minutes_key()) {
        assert(t.subrange(0, minutes_key().len() as int)[0] == t[0]);
        assert(minutes_key()[0] == 'l');
    }
    if starts_with(t, "save_email ="@) {
        assert(t.subrange(0, 12)[0] == t[0]);
        assert("save_email ="@[0] == 's');
    } else {
        assert(starts_with(t, "email ="@));
        assert(t.subrange(0, 7)[0] == t[0]);
        assert("email ="@[0] == 'e');
    }
}

proof fn lemma_lock_lines_drop_login(ls: Seq<Seq<char>>)
    ensures
        lock_lines(drop_login(ls)) == lock_lines(ls),
    decreases ls.len(),
{
    if ls.len() > 0 {
        lemma_lock_lines_drop_login(ls.drop_last());
        if is_login_line(ls.last()) {
            lemma_login_not_lock(ls.last());
        } else {
            let d = drop_login(ls.drop_last()).push(ls.last());
            assert(d.drop_last() =~= drop_login(ls.drop_last()));
        }
    }
}

proof fn lemma_lock_lines_drop_blank(ls: Seq<Seq<char>>)
    ensures
        lock_lines(drop_blank_prefix(ls)) == lock_lines(ls),
    decreases ls.len(),
{
    if ls.len() > 0 && trim(ls[0]).len() == 0 {
        lemma_lock_lines_drop_blank(ls.drop_first());
        assert(ls =~= seq![ls[0]] + ls.drop_first());
        lemma_lock_lines_add(seq![ls[0]], ls.drop_first());
        reveal_strlit("save_email = ");
        reveal_strlit("email = ");
        reveal_strlit("auto_lock = ");
        reveal_strlit("lock_after_minutes = ");
        assert(!sets_lock(trim(ls[0])));
        lemma_lock_lines_none(seq![ls[0]]);
        assert(Seq::<Seq<char>>::empty() + lock_lines(ls.drop_first()) =~= lock_lines(ls.drop_first()));
    }
}

/// Writing the login settings into any settings text and reading the
/// result gives back whether the e-mail is saved, and the e-mail when it
/// is saved (an empty one counts as none); the auto-lock flag and minutes
/// read as before; and the other lines of the text close the new one, in
/// their order, without the blank lines that opened them (a line read back
/// loses a final carriage return).
pub proof fn law_login_round_trip(existing: Seq<char>, save: bool, email: Option<Seq<char>>)
    requires
        email is Some ==> plain_email(email->0),
    ensures
        config_of_lines(lines(login_text(existing, save, email))).0 == save,
        config_of_lines(lines(login_text(existing, save, email))).1 == if save && email is Some
            && email->0.len() > 0 {
            email
        } else {
            None
        },
        lock_part(config_of_lines(lines(login_text(existing, save, email)))) == lock_part(
            config_of_lines(lines(existing)),
        ),
        ({
            let ls = lines(login_text(existing, save, email));
            let kept = drop_blank_prefix(drop_login(lines(existing)));
            &&& ls.len() >= kept.len()
            &&& ls.skip(ls.len() - kept.len()) == kept.map_values(|l: Seq<char>| strip_cr(l))
        }),
{
    lemma_lines_no_nl(existing);
    lemma_drop_login_props(lines(existing));
    let preserved = drop_blank_prefix(drop_login(lines(existing)));
    lemma_drop_blank_props(drop_login(lines(existing)));
    let sline = "save_email = "@ + bool_text(save);
    lemma_save_line(default_config(), save);
    let has_email = save && email is Some;
    let eline = if has_email { "email = \""@ + email->0 + "\""@ } else { Seq::empty() };
    if has_email {
        lemma_email_line(default_config(), email->0);
    }
    let head = seq![sline] + if has_email { seq![eline] } else { Seq::empty() };
    let new = if preserved.len() > 0 { head + seq![Seq::<char>::empty()] + preserved } else { head };
    assert(login_text(existing, save, email) == file_text(new));
    let hl = head.len() as int;
    assert forall|i: int| 0 <= i < new.len() implies no_nl(#[trigger] new[i]) by {
        if i >= hl + 1 {
            assert(new[i] == preserved[i - hl - 1]);
        } else if i == hl {
        } else if i == 1 {
            assert(new[i] == eline);
        } else {
            assert(new[i] == sline);
        }
    }
    lemma_lines_file_text(new);
    let ls = lines(file_text(new));
    assert(ls == Seq::new(new.len(), |i: int| strip_cr(new[i])));
    assert(ls[0] == sline);
    reveal_strlit("save_email = ");
    reveal_strlit("email = ");
    // After the head, no line names either setting.
    assert forall|j: int| hl <= j < ls.len() implies !starts_with(trim(#[trigger] ls[j]), save_key())
        && !starts_with(trim(ls[j]), email_key()) by {
        if j == hl {
            assert(new[j] =~= Seq::<char>::empty());
            assert(trim(Seq::<char>::empty()) =~= Seq::<char>::empty());
        } else {
            assert(new[j] == preserved[j - hl - 1]);
            lemma_not_login(preserved[j - hl - 1]);
        }
    }
    // Whether the e-mail is saved comes from the first line.
    assert forall|j: int| 1 <= j < ls.len() implies !starts_with(trim(#[trigger] ls[j]), if 0 == 0 {
        save_key()
    } else if 0 == 1 {
        email_key()
    } else {
        auto_lock_key()
    }) by {
        if j < hl {
            assert(ls[j] == eline);
        }
    }
    lemma_fold_keeps(ls, 1, 0);
    assert(ls.take(1).drop_last() =~= Seq::<Seq<char>>::empty());
    assert(ls.take(1).last() == sline);
    assert(config_of_lines(ls.take(1).drop_last()) == default_config());
    assert(config_of_lines(ls.take(1)) == apply_line(default_config(), sline));
    // The e-mail comes from the second line, when there is one.
    assert forall|j: int| hl <= j < ls.len() implies !starts_with(trim(#[trigger] ls[j]), if 1 == 0 {
        save_key()
    } else if 1 == 1 {
        email_key()
    } else {
        auto_lock_key()
    }) by {
    }
    lemma_fold_keeps(ls, hl, 1);
    if has_email {
        assert(ls[1] == eline);
        assert(ls.take(2).drop_last() =~= ls.take(1));
        assert(ls.take(2).last() == eline);
        lemma_email_line(config_of_lines(ls.take(1)), email->0);
        assert(config_of_lines(ls.take(2)) == apply_line(config_of_lines(ls.take(1)), eline));
    }
    // The auto-lock part comes from the preserved lines, as before.
    let k: int = if preserved.len() > 0 { hl + 1 } else { hl };
    assert(ls =~= ls.take(k) + ls.skip(k));
    lemma_lock_lines_add(ls.take(k), ls.skip(k));
    assert forall|i: int| 0 <= i < ls.take(k).len() implies !sets_lock(trim(#[trigger] ls.take(k)[i])) by {
        assert(ls.take(k)[i] == ls[i]);
        if i == 0 {
        } else if i < hl {
            assert(ls[i] == eline);
        } else {
            assert(new[i] =~= Seq::<char>::empty());
            assert(ls[i] == strip_cr(new[i]));
            assert(trim(Seq::<char>::empty()) =~= Seq::<char>::empty());
            reveal_strlit("auto_lock = ");
            reveal_strlit("lock_after_minutes = ");
        }
    }
    lemma_lock_lines_none(ls.take(k));
    assert forall|i: int| 0 <= i < ls.skip(k).len() implies trim(#[trigger] ls.skip(k)[i]) == trim(preserved[i]) by {
        assert(ls.skip(k)[i] == ls[i + k]);
        assert(new[i + k] == preserved[i]);
        lemma_trim_strip_cr(preserved[i]);
    }
    lemma_lock_lines_trim_eq(ls.skip(k), preserved);
    assert(ls.skip(k) =~= preserved.map_values(|l: Seq<char>| strip_cr(l)));
    lemma_lock_lines_drop_blank(drop_login(lines(existing)));
    lemma_lock_lines_drop_login(lines(existing));
    assert(lock_lines(ls) =~= lock_lines(lines(existing)));
    lemma_lock_fold(ls);
    lemma_lock_fold(lines(existing));
}

} // verus!
