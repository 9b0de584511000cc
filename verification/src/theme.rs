//! The colours of the interface: the built-in theme, and the overrides read
//! from the `[theme]` section of the settings file.
use vstd::prelude::*;
use vstd::string::StringSliceAdditionalSpecFns;
use crate::text::{trim, to_chars, from_chars, trim_chars, chars_eq, byte_len, byte_length};
use crate::config::{lines, split_lines, line_views, strip_lead_quotes};

verus! {

/// A terminal colour.
#[derive(Debug, Clone, Copy, PartialEq, Eq, Structural)]
pub enum Color {
    /// The terminal's own colour.
    Reset,
    Cyan,
    Green,
    Red,
    DarkGray,
    White,
    Rgb(u8, u8, u8),
}

/// The colours of each part of the interface.
#[derive(Debug, Clone, Copy, PartialEq, Eq, Structural)]
pub struct Theme {
    /// Active borders, the cursor, highlights.
    pub accent: Color,
    /// Inactive panel borders.
    pub inactive: Color,
    /// The selected row's background.
    pub selected_bg: Color,
    pub success: Color,
    pub error: Color,
    /// Secondary text.
    pub dim: Color,
    pub item_login: Color,
    pub item_card: Color,
    pub item_identity: Color,
    pub item_note: Color,
    pub item_ssh: Color,
    pub item_favorite: Color,
}

/// The built-in theme.
pub open spec fn default_theme() -> Theme {
    Theme {
        accent: Color::Cyan,
        inactive: Color::Rgb(140, 140, 160),
        selected_bg: Color::Rgb(30, 60, 80),
        success: Color::Green,
        error: Color::Red,
        dim: Color::DarkGray,
        item_login: Color::Rgb(91, 143, 255),
        item_card: Color::Rgb(192, 96, 224),
        item_identity: Color::Rgb(224, 184, 64),
        item_note: Color::Rgb(0, 200, 150),
        item_ssh: Color::Rgb(160, 96, 224),
        item_favorite: Color::Rgb(255, 200, 0),
    }
}

impl Default for Theme {
    fn default() -> (t: Self)
        ensures
            t == default_theme(),
    {
        Theme {
            accent: Color::Cyan,
            inactive: Color::Rgb(140, 140, 160),
            selected_bg: Color::Rgb(30, 60, 80),
            success: Color::Green,
            error: Color::Red,
            dim: Color::DarkGray,
            item_login: Color::Rgb(91, 143, 255),
            item_card: Color::Rgb(192, 96, 224),
            item_identity: Color::Rgb(224, 184, 64),
            item_note: Color::Rgb(0, 200, 150),
            item_ssh: Color::Rgb(160, 96, 224),
            item_favorite: Color::Rgb(255, 200, 0),
        }
    }
}

// ── Hex colours ───────────────────────────────────────────────────────────

pub open spec fn hex_val(b: u8) -> Option<nat> {
    if 0x30 <= b <= 0x39 {
        Some((b - 0x30) as nat)
    } else if 0x61 <= b <= 0x66 {
        Some((b - 0x61 + 10) as nat)
    } else if 0x41 <= b <= 0x46 {
        Some((b - 0x41 + 10) as nat)
    } else {
        None
    }
}

/// Two bytes read as a hexadecimal `u8` (`u8::from_str_radix(.., 16)`,
/// which takes a leading `+`), or nothing when they are not one.
pub open spec fn hex_pair(a: u8, b: u8) -> Option<u8> {
    if a == 0x2b {
        match hex_val(b) {
            Some(v) => Some(v as u8),
            None => None,
        }
    } else {
        match (hex_val(a), hex_val(b)) {
            (Some(x), Some(y)) => Some((x * 16 + y) as u8),
            _ => None,
        }
    }
}

/// The bytes without the `#` characters that open them.
pub open spec fn strip_hashes(b: Seq<u8>) -> Seq<u8>
    decreases b.len(),
{
    if b.len() > 0 && b[0] == 0x23 {
        strip_hashes(b.drop_first())
    } else {
        b
    }
}

/// A colour value such as `#cba6f7`: after the opening `#` characters, six
/// bytes read as three hexadecimal pairs; the terminal's colour when there
/// are not six bytes or a pair is no hexadecimal number.
pub open spec fn hex_color(b: Seq<u8>) -> Color {
    let s = strip_hashes(b);
    if s.len() != 6 {
        Color::Reset
    } else {
        match (hex_pair(s[0], s[1]), hex_pair(s[2], s[3]), hex_pair(s[4], s[5])) {
            (Some(r), Some(g), Some(bl)) => Color::Rgb(r, g, bl),
            _ => Color::Reset,
        }
    }
}

fn hex_val_exec(b: u8) -> (r: Option<u8>)
    ensures
        match hex_val(b) {
            Some(v) => r == Some(v as u8),
            None => r is None,
        },
{
    if 0x30 <= b && b <= 0x39 {
        Some(b - 0x30)
    } else if 0x61 <= b && b <= 0x66 {
        Some(b - 0x61 + 10)
    } else if 0x41 <= b && b <= 0x46 {
        Some(b - 0x41 + 10)
    } else {
        None
    }
}

fn hex_pair_exec(a: u8, b: u8) -> (r: Option<u8>)
    ensures
        r == hex_pair(a, b),
{
    if a == 0x2b {
        match hex_val_exec(b) {
            Some(v) => Some(v),
            None => None,
        }
    } else {
        match (hex_val_exec(a), hex_val_exec(b)) {
            (Some(x), Some(y)) => Some(x * 16 + y),
            _ => None,
        }
    }
}

/// The colour a hex value names; the terminal's colour when it names none.
pub fn hex(s: &str) -> (c: Color)
    ensures
        c == hex_color(s.spec_bytes()),
{
    let b = s.as_bytes();
    let mut i: usize = 0;
    assert(b@.skip(0) =~= b@);
    while i < b.len() && b[i] == 0x23
        invariant
            i <= b@.len(),
            strip_hashes(b@) == strip_hashes(b@.skip(i as int)),
        decreases b@.len() - i,
    {
        assert(b@.skip(i as int).drop_first() =~= b@.skip(i + 1));
        i = i + 1;
    }
    if b.len() - i != 6 {
        return Color::Reset;
    }
    match (hex_pair_exec(b[i], b[i + 1]), hex_pair_exec(b[i + 2], b[i + 3]), hex_pair_exec(b[i + 4], b[i + 5])) {
        (Some(r), Some(g), Some(bl)) => Color::Rgb(r, g, bl),
        _ => Color::Reset,
    }
}

// ── The [theme] section ───────────────────────────────────────────────────

/// The position of the first `c` in `s`, if any.
pub open spec fn find_char(s: Seq<char>, c: char) -> Option<int>
    decreases s.len(),
{
    if s.len() == 0 {
        None
    } else if s[0] == c {
        Some(0)
    } else {
        match find_char(s.drop_first(), c) {
            Some(i) => Some(i + 1),
            None => None,
        }
    }
}

/// `s` up to its first `c`, or all of it (`splitn(2, c).next()`).
pub open spec fn before_char(s: Seq<char>, c: char) -> Seq<char> {
    match find_char(s, c) {
        Some(i) => s.take(i),
        None => s,
    }
}

/// The key and the colour value of a `key = value` line: a quoted value
/// ends at its closing quote, an unquoted one at the first space; both are
/// trimmed.
pub open spec fn theme_entry(t: Seq<char>) -> Option<(Seq<char>, Seq<char>)> {
    match find_char(t, '=') {
        None => None,
        Some(i) => {
            let key = trim(t.take(i));
            let rest = trim(t.skip(i + 1));
            let val = if rest.len() > 0 && rest[0] == '"' {
                trim(before_char(strip_lead_quotes(rest), '"'))
            } else {
                trim(before_char(rest, ' '))
            };
            Some((key, val))
        },
    }
}

/// A value that counts as a colour: seven bytes, starting with `#`.
pub open spec fn colour_value(v: Seq<char>) -> bool {
    byte_len(v) == 7 && v.len() > 0 && v[0] == '#'
}

/// The theme with the colour of `key` replaced; an unknown key changes
/// nothing.
pub open spec fn set_colour(t: Theme, key: Seq<char>, c: Color) -> Theme {
    if key == "accent"@ {
        Theme { accent: c, ..t }
    } else if key == "inactive"@ {
        Theme { inactive: c, ..t }
    } else if key == "selected_bg"@ {
        Theme { selected_bg: c, ..t }
    } else if key == "success"@ {
        Theme { success: c, ..t }
    } else if key == "error"@ {
        Theme { error: c, ..t }
    } else if key == "dim"@ {
        Theme { dim: c, ..t }
    } else if key == "item_login"@ {
        Theme { item_login: c, ..t }
    } else if key == "item_card"@ {
        Theme { item_card: c, ..t }
    } else if key == "item_identity"@ {
        Theme { item_identity: c, ..t }
    } else if key == "item_note"@ {
        Theme { item_note: c, ..t }
    } else if key == "item_ssh"@ {
        Theme { item_ssh: c, ..t }
    } else if key == "item_favorite"@ {
        Theme { item_favorite: c, ..t }
    } else {
        t
    }
}

/// Reading the settings line by line: whether the `[theme]` section is
/// open, and the theme so far.
pub open spec fn theme_fold(ls: Seq<Seq<char>>) -> (bool, Theme)
    decreases ls.len(),
{
    if ls.len() == 0 {
        (false, default_theme())
    } else {
        let (open, t) = theme_fold(ls.drop_last());
        let line = trim(ls.last());
        if line == "[theme]"@ {
            (true, t)
        } else if line.len() > 0 && line[0] == '[' {
            (false, t)
        } else if !open {
            (open, t)
        } else {
            match theme_entry(line) {
                None => (open, t),
                Some((key, val)) => if !colour_value(val) {
                    (open, t)
                } else {
                    (open, set_colour(t, key, hex_color(vstd::utf8::encode_utf8(val))))
                },
            }
        }
    }
}

fn find_char_exec(s: &[char], c: char) -> (r: Option<usize>)
    ensures
        match find_char(s@, c) {
            Some(i) => 0 <= i < s@.len() <= usize::MAX && r is Some && r->0 == i,
            None => r is None,
        },
{
    proof {
        lemma_find_char_bound(s@, c);
    }
    let mut i: usize = 0;
    assert(s@.skip(0) =~= s@);
    while i < s.len()
        invariant
            i <= s@.len(),
            find_char(s@, c) == match find_char(s@.skip(i as int), c) {
                Some(j) => Some(j + i),
                None => None,
            },
        decreases s@.len() - i,
    {
        assert(s@.skip(i as int)[0] == s@[i as int]);
        if s[i] == c {
            return Some(i);
        }
        assert(s@.skip(i as int).drop_first() =~= s@.skip(i + 1));
        i = i + 1;
    }
    None
}

fn take_chars(s: &[char], n: usize) -> (r: Vec<char>)
    requires
        n <= s@.len(),
    ensures
        r@ == s@.take(n as int),
{
    let mut r: Vec<char> = Vec::new();
    let mut i: usize = 0;
    while i < n
        invariant
            i <= n <= s@.len(),
            r@ == s@.take(i as int),
        decreases n - i,
    {
        r.push(s[i]);
        i = i + 1;
        assert(r@ =~= s@.take(i as int));
    }
    r
}

fn skip_chars(s: &[char], n: usize) -> (r: Vec<char>)
    requires
        n <= s@.len(),
    ensures
        r@ == s@.skip(n as int),
{
    let mut r: Vec<char> = Vec::new();
    let mut i: usize = n;
    while i < s.len()
        invariant
            n <= i <= s@.len(),
            r@ == s@.subrange(n as int, i as int),
        decreases s@.len() - i,
    {
        r.push(s[i]);
        i = i + 1;
        assert(r@ =~= s@.subrange(n as int, i as int));
    }
    assert(r@ =~= s@.skip(n as int));
    r
}

fn before_char_exec(s: &[char], c: char) -> (r: Vec<char>)
    ensures
        r@ == before_char(s@, c),
{
    match find_char_exec(s, c) {
        Some(i) => {
            proof {
                lemma_find_char_bound(s@, c);
            }
            take_chars(s, i)
        },
        None => {
            assert(s@.skip(0) =~= s@);
            skip_chars(s, 0)
        },
    }
}

proof fn lemma_find_char_bound(s: Seq<char>, c: char)
    ensures
        match find_char(s, c) {
            Some(i) => 0 <= i < s.len(),
            None => true,
        },
    decreases s.len(),
{
    if s.len() > 0 && s[0] != c {
        lemma_find_char_bound(s.drop_first(), c);
    }
}

fn strip_lead_quotes_exec(s: &[char]) -> (r: Vec<char>)
    ensures
        r@ == strip_lead_quotes(s@),
{
    let mut a: usize = 0;
    assert(s@.skip(0) =~= s@);
    while a < s.len() && s[a] == '"'
        invariant
            a <= s@.len(),
            strip_lead_quotes(s@) == strip_lead_quotes(s@.skip(a as int)),
        decreases s@.len() - a,
    {
        assert(s@.skip(a as int).drop_first() =~= s@.skip(a + 1));
        a = a + 1;
    }
    skip_chars(s, a)
}

fn theme_entry_exec(t: &[char]) -> (r: Option<(Vec<char>, Vec<char>)>)
    ensures
        match theme_entry(t@) {
            None => r is None,
            Some((k, v)) => match r {
                Some(p) => p.0@ == k && p.1@ == v,
                None => false,
            },
        },
{
    match find_char_exec(t, '=') {
        None => None,
        Some(i) => {
            proof {
                lemma_find_char_bound(t@, '=');
            }
            assert(find_char(t@, '=') == Some(i as int));
            assert(i < t@.len());
            let key = trim_chars(&take_chars(t, i));
            let rest = trim_chars(&skip_chars(t, i + 1));
            let val = if rest.len() > 0 && rest[0] == '"' {
                trim_chars(&before_char_exec(&strip_lead_quotes_exec(&rest), '"'))
            } else {
                trim_chars(&before_char_exec(&rest, ' '))
            };
            Some((key, val))
        },
    }
}

fn key_is(key: &[char], name: &str) -> (b: bool)
    ensures
        b == (key@ == name@),
{
    chars_eq(key, &to_chars(name))
}

fn set_colour_exec(t: &mut Theme, key: &[char], c: Color)
    ensures
        *final(t) == set_colour(*old(t), key@, c),
{
    if key_is(key, "accent") {
        t.accent = c;
    } else if key_is(key, "inactive") {
        t.inactive = c;
    } else if key_is(key, "selected_bg") {
        t.selected_bg = c;
    } else if key_is(key, "success") {
        t.success = c;
    } else if key_is(key, "error") {
        t.error = c;
    } else if key_is(key, "dim") {
        t.dim = c;
    } else if key_is(key, "item_login") {
        t.item_login = c;
    } else if key_is(key, "item_card") {
        t.item_card = c;
    } else if key_is(key, "item_identity") {
        t.item_identity = c;
    } else if key_is(key, "item_note") {
        t.item_note = c;
    } else if key_is(key, "item_ssh") {
        t.item_ssh = c;
    } else if key_is(key, "item_favorite") {
        t.item_favorite = c;
    }
}

/// One line of the settings, read for the theme: the section it opens or
/// closes, or the colour it sets.
fn theme_line(open: &mut bool, t: &mut Theme, l: &[char])
    ensures
        ({
            let line = trim(l@);
            let st = (*old(open), *old(t));
            let after = if line == "[theme]"@ {
                (true, st.1)
            } else if line.len() > 0 && line[0] == '[' {
                (false, st.1)
            } else if !st.0 {
                st
            } else {
                match theme_entry(line) {
                    None => st,
                    Some((key, val)) => if !colour_value(val) {
                        st
                    } else {
                        (st.0, set_colour(st.1, key, hex_color(vstd::utf8::encode_utf8(val))))
                    },
                }
            };
            (*final(open), *final(t)) == after
        }),
{
    let line = trim_chars(l);
    if chars_eq(&line, &to_chars("[theme]")) {
        *open = true;
        return;
    }
    if line.len() > 0 && line[0] == '[' {
        *open = false;
        return;
    }
    if !*open {
        return;
    }
    match theme_entry_exec(&line) {
        None => {},
        Some((key, val)) => {
            let v = from_chars(&val);
            let n = byte_length(v.as_str());
            if n != 7 || !(val.len() > 0 && val[0] == '#') {
                return;
            }
            let c = hex(v.as_str());
            set_colour_exec(t, &key, c);
        },
    }
}

fn read_theme(text: &str) -> (t: Theme)
    ensures
        t == theme_fold(lines(text@)).1,
{
    let ls = split_lines(&to_chars(text));
    let mut open = false;
    let mut t = Theme::default();
    let mut i: usize = 0;
    while i < ls.len()
        invariant
            i <= ls@.len(),
            line_views(ls@) == lines(text@),
            (open, t) == theme_fold(line_views(ls@).take(i as int)),
        decreases ls@.len() - i,
    {
        assert(line_views(ls@)[i as int] == ls@[i as int]@);
        assert(line_views(ls@).take(i + 1).drop_last() =~= line_views(ls@).take(i as int));
        theme_line(&mut open, &mut t, ls[i].as_slice());
        i = i + 1;
    }
    assert(line_views(ls@).take(i as int) =~= line_views(ls@));
    t
}

/// The theme the settings text gives: the built-in colours, with those of
/// the `[theme]` section in their place.
pub fn parse_theme_section(text: &str) -> (t: Theme)
    ensures
        t == theme_fold(lines(text@)).1,
{
    read_theme(text)
}

} // verus!
