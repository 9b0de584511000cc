//! What the screens show, apart from drawing it: the spinner, the texts of
//! the feedback, the key hints and their fitting into the bottom bar, the
//! visible part of the command log, the list's counters and type column,
//! the starfield, and the main loop's timing.
use vstd::prelude::*;
use vstd::string::StringSliceAdditionalSpecFns;
use crate::app::{App, ActionState, Focus, action_view};
use crate::text::{to_chars, from_chars, push_str, decimal, decimal_string, owned};
use crate::model::type_label;

verus! {

// ── Spinner and feedback ──────────────────────────────────────────────────

/// The spinner's frames, each shown for three ticks.
pub open spec fn spinner_frames() -> Seq<Seq<char>> {
    seq!["-"@, "\\"@, "|"@, "/"@]
}

pub open spec fn spinner_at(tick: u8) -> Seq<char> {
    spinner_frames()[((tick / 3) % 4) as int]
}

/// The spinner frame for the animation tick.
pub fn spinner_frame(tick: u8) -> (r: &'static str)
    ensures
        r@ == spinner_at(tick),
{
    let i = (tick / 3) % 4;
    if i == 0 {
        "-"
    } else if i == 1 {
        "\\"
    } else if i == 2 {
        "|"
    } else {
        "/"
    }
}

/// The feedback as one text: the spinner frame or a mark, a space, and the
/// message; nothing when idle.
pub open spec fn action_text_of(a: (int, Seq<char>), tick: u8) -> Seq<char> {
    if a.0 == 1 {
        spinner_at(tick) + " "@ + a.1
    } else if a.0 == 2 {
        "✓ "@ + a.1
    } else if a.0 == 3 {
        "✕ "@ + a.1
    } else {
        Seq::empty()
    }
}

/// The feedback text shown in the detail header.
pub fn action_text(state: &ActionState, tick: u8) -> (r: String)
    ensures
        r@ == action_text_of(action_view(*state), tick),
{
    match state {
        ActionState::Idle => {
            let r = String::new();
            proof {
                reveal_strlit("");
            }
            r
        },
        ActionState::Running(m) => {
            let mut v = to_chars(spinner_frame(tick));
            push_str(&mut v, " ");
            push_str(&mut v, m.as_str());
            from_chars(&v)
        },
        ActionState::Done(m) => crate::text::concat("✓ ", m.as_str()),
        ActionState::Error(m) => crate::text::concat("✕ ", m.as_str()),
    }
}

/// How long the main loop waits for input: 500 ms when idle, 80 ms while
/// feedback is shown, so the spinner turns.
pub fn poll_timeout(state: &ActionState) -> (ms: u64)
    ensures
        ms == if action_view(*state).0 == 0 { 500u64 } else { 80u64 },
{
    match state {
        ActionState::Idle => 500,
        _ => 80,
    }
}

/// How many idle ticks a ✓ or ✕ stays before it is cleared.
pub const DONE_TICKS: u8 = 19;

/// One tick of the feedback, as (kind, ticks counted): a ✓ or ✕ (kind 2
/// or 3) counts up and is cleared (kind 0) on the `DONE_TICKS`th tick;
/// otherwise nothing changes.
pub open spec fn tick_step(kind: int, done: nat) -> (int, nat) {
    if kind >= 2 {
        if done + 1 >= DONE_TICKS { (0, 0) } else { (kind, done + 1) }
    } else {
        (kind, done)
    }
}

/// `k` ticks in a row.
pub open spec fn ticks(kind: int, done: nat, k: nat) -> (int, nat)
    decreases k,
{
    if k == 0 {
        (kind, done)
    } else {
        let p = ticks(kind, done, (k - 1) as nat);
        tick_step(p.0, p.1)
    }
}

/// Feedback expires: a ✓ or ✕ stays for `DONE_TICKS - 1` idle ticks, with
/// the ticks counted, and is cleared on the next one.
pub proof fn law_feedback_expires(kind: int, k: nat)
    requires
        kind == 2 || kind == 3,
        k <= DONE_TICKS,
    ensures
        k < DONE_TICKS ==> ticks(kind, 0, k) == (kind, k),
        k == DONE_TICKS ==> ticks(kind, 0, k) == (0int, 0nat),
    decreases k,
{
    if k > 0 {
        law_feedback_expires(kind, (k - 1) as nat);
    }
}

/// One idle tick of the main loop: the spinner turns while running; a ✓ or
/// ✕ is cleared after `DONE_TICKS` ticks, counted in `done_ticks`.
pub fn tick_state(app: &mut App, done_ticks: &mut u8)
    requires
        *old(done_ticks) < 255,
    ensures
        (action_view(final(app).action_state).0, *final(done_ticks) as nat)
            == tick_step(action_view(old(app).action_state).0, *old(done_ticks) as nat),
        action_view(old(app).action_state).0 == 1 ==> *final(app) == (App {
            action_tick: ((old(app).action_tick + 1) % 256) as u8,
            ..*old(app)
        }) && *final(done_ticks) == *old(done_ticks),
        action_view(old(app).action_state).0 == 0 ==> *final(app) == *old(app) && *final(done_ticks)
            == *old(done_ticks),
        action_view(old(app).action_state).0 >= 2 ==> if *old(done_ticks) + 1 >= DONE_TICKS {
            action_view(final(app).action_state).0 == 0 && *final(app) == (App {
                action_state: final(app).action_state,
                action_tick: 0,
                ..*old(app)
            }) && *final(done_ticks) == 0
        } else {
            *final(app) == *old(app) && *final(done_ticks) == *old(done_ticks) + 1
        },
{
    match &app.action_state {
        ActionState::Running(_) => app.tick_action(),
        ActionState::Done(_) | ActionState::Error(_) => {
            *done_ticks = *done_ticks + 1;
            if *done_ticks >= DONE_TICKS {
                app.set_action(ActionState::Idle);
                *done_ticks = 0;
            }
        },
        ActionState::Idle => {},
    }
}

// ── Key hints ─────────────────────────────────────────────────────────────

/// The key hints of the vault screen for the focused panel.
pub open spec fn hints_for(f: Focus) -> Seq<(Seq<char>, Seq<char>)> {
    match f {
        Focus::Search => seq![
            ("Esc"@, "clear"@),
            ("j/k"@, "navigate"@),
            ("Enter"@, "open detail"@),
            ("type"@, "filter"@),
        ],
        Focus::Items => seq![("j/k"@, "select filter"@), ("Enter"@, "apply"@), ("Tab"@, "next panel"@)],
        Focus::Vaults => seq![("Tab"@, "next panel"@)],
        Focus::CmdLog => seq![("j/k"@, "scroll"@), ("PgUp/Dn"@, "scroll×5"@), ("Tab"@, "next panel"@)],
        Focus::List | Focus::Status => seq![
            ("j/k"@, "navigate"@),
            ("Enter"@, "detail"@),
            ("Alt+N"@, "new"@),
            ("Alt+U"@, "user"@),
            ("Alt+C"@, "pass"@),
            ("Alt+F"@, "fav"@),
            ("Alt+S"@, "sync"@),
            ("Alt+D"@, "delete"@),
            ("Alt+L"@, "lock"@),
            ("?"@, "help"@),
        ],
    }
}

pub open spec fn pair_views(v: Seq<(&str, &str)>) -> Seq<(Seq<char>, Seq<char>)> {
    v.map_values(|p: (&str, &str)| (p.0@, p.1@))
}

/// The key hints of the vault screen for the focused panel.
pub fn key_hints(focus: &Focus) -> (r: Vec<(&'static str, &'static str)>)
    ensures
        pair_views(r@) == hints_for(*focus),
{
    let r = match focus {
        Focus::Search => vec![("Esc", "clear"), ("j/k", "navigate"), ("Enter", "open detail"), ("type", "filter")],
        Focus::Items => vec![("j/k", "select filter"), ("Enter", "apply"), ("Tab", "next panel")],
        Focus::Vaults => vec![("Tab", "next panel")],
        Focus::CmdLog => vec![("j/k", "scroll"), ("PgUp/Dn", "scroll×5"), ("Tab", "next panel")],
        Focus::List | Focus::Status => vec![
            ("j/k", "navigate"),
            ("Enter", "detail"),
            ("Alt+N", "new"),
            ("Alt+U", "user"),
            ("Alt+C", "pass"),
            ("Alt+F", "fav"),
            ("Alt+S", "sync"),
            ("Alt+D", "delete"),
            ("Alt+L", "lock"),
            ("?", "help"),
        ],
    };
    assert(pair_views(r@) =~= hints_for(*focus));
    r
}

/// One hint: `key: what` in the full bar, `key:what` in the short one.
pub open spec fn hint_text(p: (Seq<char>, Seq<char>), full: bool) -> Seq<char> {
    if full {
        p.0 + ": "@ + p.1
    } else {
        p.0 + ":"@ + p.1
    }
}

/// The hints joined by `  |  ` (full) or two spaces (short).
pub open spec fn hints_line(ps: Seq<(Seq<char>, Seq<char>)>, full: bool) -> Seq<char>
    decreases ps.len(),
{
    if ps.len() == 0 {
        Seq::empty()
    } else if ps.len() == 1 {
        hint_text(ps[0], full)
    } else {
        hints_line(ps.drop_last(), full) + (if full { "  |  "@ } else { "  "@ }) + hint_text(ps.last(), full)
    }
}

/// The hints as one line of the bottom bar.
pub fn hints_text(pairs: &[(&str, &str)], full: bool) -> (r: String)
    ensures
        r@ == hints_line(pair_views(pairs@), full),
{
    let mut v: Vec<char> = Vec::new();
    let mut i: usize = 0;
    while i < pairs.len()
        invariant
            i <= pairs@.len(),
            v@ == hints_line(pair_views(pairs@).take(i as int), full),
        decreases pairs@.len() - i,
    {
        let ghost prev = pair_views(pairs@).take(i as int);
        assert(pair_views(pairs@).take(i + 1).drop_last() =~= prev);
        let (k, w) = pairs[i];
        assert(pair_views(pairs@).take(i + 1).last() == (k@, w@));
        let ghost v0 = v@;
        if i > 0 {
            push_str(&mut v, if full { "  |  " } else { "  " });
        }
        push_str(&mut v, k);
        push_str(&mut v, if full { ": " } else { ":" });
        push_str(&mut v, w);
        proof {
            if i == 0 {
                assert(v@ =~= hint_text((k@, w@), full));
            } else {
                assert(v@ =~= v0 + (if full { "  |  "@ } else { "  "@ }) + hint_text((k@, w@), full));
            }
        }
        i = i + 1;
    }
    assert(pair_views(pairs@).take(i as int) =~= pair_views(pairs@));
    from_chars(&v)
}

/// The bottom bar for a terminal `width` columns wide: the full hints when
/// their bytes fit in `width - 2`, else the short ones, else the short ones
/// cut to one byte less than that; always after a space.
pub open spec fn bar_text(width: u16, full: Seq<char>, short: Seq<char>) -> Seq<char> {
    let avail = if width >= 2 { width - 2 } else { 0 };
    if crate::text::byte_len(full) <= avail {
        " "@ + full
    } else if crate::text::byte_len(short) <= avail {
        " "@ + short
    } else {
        " "@ + vstd::utf8::decode_utf8(
            vstd::utf8::encode_utf8(short).subrange(0, if avail >= 1 { avail - 1 } else { 0 }),
        )
    }
}

/// The bottom bar's text, the hints fitted to the terminal's width.
pub fn cmd_bar_text(width: u16, full: &str, short: &str) -> (r: String)
    requires
        ({
            let avail = if width >= 2 { width - 2 } else { 0 };
            crate::text::byte_len(full@) > avail && crate::text::byte_len(short@) > avail
                ==> vstd::utf8::is_char_boundary(short.spec_bytes(), if avail >= 1 { avail - 1 } else { 0 })
        }),
    ensures
        r@ == bar_text(width, full@, short@),
{
    let avail = width.saturating_sub(2) as usize;
    assert(avail == (if width >= 2 { width - 2 } else { 0 }));
    if crate::text::byte_length(full) <= avail {
        crate::text::concat(" ", full)
    } else if crate::text::byte_length(short) <= avail {
        crate::text::concat(" ", short)
    } else {
        let cut = avail.saturating_sub(1);
        let (head, _) = short.split_at(cut);
        proof {
            vstd::utf8::encode_utf8_decode_utf8(head@);
            assert(head.spec_bytes() == vstd::utf8::encode_utf8(head@));
            assert(short.spec_bytes() == vstd::utf8::encode_utf8(short@));
            assert(vstd::utf8::decode_utf8(vstd::utf8::encode_utf8(short@).subrange(0, cut as int)) == head@);
        }
        crate::text::concat(" ", head)
    }
}

// ── The vault list ────────────────────────────────────────────────────────

/// The lines of the command log to show, `start..end`: `visible` lines,
/// ending `scroll` lines before the newest.
pub fn log_window(total: usize, scroll: usize, visible: usize) -> (r: (usize, usize))
    ensures
        r.1 == if total >= scroll { total - scroll } else { 0 },
        r.0 == if r.1 >= visible { r.1 - visible } else { 0 },
{
    let end = total.saturating_sub(scroll);
    let start = end.saturating_sub(visible);
    (start, end)
}

/// The height of the command log panel: small while it is empty.
pub fn cmd_log_height(empty: bool) -> (h: u16)
    ensures
        h == if empty { 4u16 } else { 9u16 },
{
    if empty { 4 } else { 9 }
}

/// `<position> of <count>`, counting from one; `0 of 0` for an empty list.
pub open spec fn position_of(selected: nat, len: nat) -> Seq<char> {
    if len == 0 {
        "0 of 0"@
    } else {
        decimal(selected + 1) + " of "@ + decimal(len)
    }
}

/// The counter under the vault list and the Items panel.
pub fn position_text(selected: u64, len: u64) -> (r: String)
    requires
        selected < u64::MAX,
    ensures
        r@ == position_of(selected as nat, len as nat),
{
    if len == 0 {
        owned("0 of 0")
    } else {
        let mut v = to_chars(decimal_string(selected + 1).as_str());
        push_str(&mut v, " of ");
        push_str(&mut v, decimal_string(len).as_str());
        from_chars(&v)
    }
}

/// `s` padded with spaces to `width` characters (`{:<width}`).
pub open spec fn pad_right(s: Seq<char>, width: nat) -> Seq<char> {
    if s.len() >= width {
        s
    } else {
        s + Seq::new((width - s.len()) as nat, |i: int| ' ')
    }
}

/// The type column of a list row: `[<type>]`, padded to 14 characters.
pub fn type_column(t: u8) -> (r: String)
    ensures
        r@ == pad_right("["@ + type_label(t) + "]"@, 14),
{
    let mut v = to_chars("[");
    push_str(&mut v, crate::model::item_type_label(t));
    push_str(&mut v, "]");
    let ghost s = v@;
    while v.len() < 14
        invariant
            v@.len() <= 14 ==> v@ == s + Seq::new((v@.len() - s.len()) as nat, |i: int| ' '),
            v@.len() >= s.len(),
            s.len() >= 14 ==> v@ == s,
            s.len() <= 14 ==> v@.len() <= 14,
        decreases 14 - v@.len(),
    {
        v.push(' ');
        assert(v@ =~= s + Seq::new((v@.len() - s.len()) as nat, |i: int| ' '));
    }
    proof {
        if s.len() < 14 {
            assert(v@.len() == 14);
        }
    }
    from_chars(&v)
}

// ── Text with a cursor ────────────────────────────────────────────────────

/// `n` bullets, the mask of a hidden value.
pub fn bullets(n: usize) -> (r: String)
    ensures
        r@ == Seq::new(n as nat, |i: int| '●'),
{
    let mut v: Vec<char> = Vec::new();
    while v.len() < n
        invariant
            v@.len() <= n,
            v@ == Seq::new(v@.len(), |i: int| '●'),
        decreases n - v@.len(),
    {
        v.push('●');
        assert(v@ =~= Seq::new(v@.len(), |i: int| '●'));
    }
    from_chars(&v)
}

/// What a form field shows: its value, or, while it is hidden and not
/// revealed, one bullet per character and at least `min` bullets.
pub open spec fn field_shown(value: Seq<char>, hidden: bool, revealed: bool, min: nat) -> Seq<char> {
    if hidden && !revealed {
        Seq::new(if value.len() >= min { value.len() } else { min }, |i: int| '●')
    } else {
        value
    }
}

/// The text of a form field as the edit form (`min` 8) or the create form
/// (`min` 0) shows it.
pub fn field_display(f: &crate::fields::EditField, min: usize) -> (r: String)
    ensures
        r@ == field_shown(f.value@, f.hidden, f.revealed, min as nat),
{
    if f.hidden && !f.revealed {
        let n = crate::text::char_count(f.value.as_str());
        bullets(if n >= min { n } else { min })
    } else {
        f.value.clone()
    }
}

/// The text before and after a cursor at character `pos`.
pub fn split_at_cursor(text: &str, pos: usize) -> (r: (String, String))
    requires
        pos <= text@.len(),
    ensures
        r.0@ == text@.take(pos as int),
        r.1@ == text@.skip(pos as int),
{
    let v = to_chars(text);
    let mut a: Vec<char> = Vec::new();
    let mut b: Vec<char> = Vec::new();
    let mut i: usize = 0;
    while i < v.len()
        invariant
            v@ == text@,
            pos <= v@.len(),
            i <= v@.len(),
            a@ == v@.take(if i < pos { i as int } else { pos as int }),
            b@ == if i < pos { Seq::<char>::empty() } else { v@.subrange(pos as int, i as int) },
        decreases v@.len() - i,
    {
        if i < pos {
            a.push(v[i]);
            assert(a@ =~= v@.take(i + 1));
        } else {
            b.push(v[i]);
            assert(b@ =~= v@.subrange(pos as int, i + 1));
        }
        i = i + 1;
    }
    proof {
        if pos == v@.len() {
            assert(b@ =~= v@.skip(pos as int));
        } else {
            assert(v@.subrange(pos as int, i as int) =~= v@.skip(pos as int));
        }
    }
    (from_chars(&a), from_chars(&b))
}

/// A form field's cursor split: the cursor, kept within the text.
pub fn cursor_parts(display: &str, cursor: usize) -> (r: (String, String))
    ensures
        ({
            let pos = if cursor <= display@.len() { cursor as int } else { display@.len() as int };
            r.0@ == display@.take(pos) && r.1@ == display@.skip(pos)
        }),
{
    let n = crate::text::char_count(display);
    let pos = if cursor <= n { cursor } else { n };
    split_at_cursor(display, pos)
}


// ── The starfield and the logo ────────────────────────────────────────────

/// How bright a star of the background is.
#[derive(Debug, Clone, Copy, PartialEq, Eq, Structural)]
pub enum Star {
    Bright,
    Mid,
    Dim,
    /// No star: a blank cell.
    Blank,
}

/// The starfield's hash of a cell, with wrapping arithmetic.
pub open spec fn star_hash(row: usize, col: usize) -> usize {
    vstd::wrapping::usize_specs::wrapping_add(
        vstd::wrapping::usize_specs::wrapping_add(
            vstd::wrapping::usize_specs::wrapping_mul(row, 17),
            vstd::wrapping::usize_specs::wrapping_mul(col, 31),
        ),
        vstd::wrapping::usize_specs::wrapping_mul(row, col),
    ) % 120
}

/// The star at a cell of the background: about one cell in thirty holds
/// one.
pub open spec fn star_of(row: usize, col: usize) -> (char, Star) {
    let h = star_hash(row, col);
    if h == 0 {
        ('\u{2726}', Star::Bright)
    } else if h == 1 || h == 2 {
        ('\u{00b7}', Star::Mid)
    } else if h == 3 {
        ('\u{22c6}', Star::Dim)
    } else {
        (' ', Star::Dim)
    }
}

/// The character and brightness of the background at a cell.
pub fn star_at(row: usize, col: usize) -> (r: (char, Star))
    ensures
        r == star_of(row, col),
{
    let h = row.wrapping_mul(17).wrapping_add(col.wrapping_mul(31)).wrapping_add(row.wrapping_mul(col)) % 120;
    if h == 0 {
        ('\u{2726}', Star::Bright)
    } else if h == 1 || h == 2 {
        ('\u{00b7}', Star::Mid)
    } else if h == 3 {
        ('\u{22c6}', Star::Dim)
    } else {
        (' ', Star::Dim)
    }
}

pub open spec fn blank(l: Seq<char>) -> bool {
    crate::text::trim(l).len() == 0
}

/// How many blank lines open `ls`.
pub open spec fn lead_blank(ls: Seq<Seq<char>>) -> nat
    decreases ls.len(),
{
    if ls.len() > 0 && blank(ls[0]) {
        1 + lead_blank(ls.drop_first())
    } else {
        0
    }
}

/// How many blank lines close `ls`.
pub open spec fn trail_blank(ls: Seq<Seq<char>>) -> nat
    decreases ls.len(),
{
    if ls.len() > 0 && blank(ls.last()) {
        1 + trail_blank(ls.drop_last())
    } else {
        0
    }
}

/// The lines of a rendered banner without the blank lines around it; all
/// of them when every line is blank.
pub open spec fn trimmed_banner(ls: Seq<Seq<char>>) -> Seq<Seq<char>> {
    if lead_blank(ls) == ls.len() {
        ls
    } else {
        ls.subrange(lead_blank(ls) as int, ls.len() - trail_blank(ls))
    }
}

pub open spec fn string_views(v: Seq<String>) -> Seq<Seq<char>> {
    v.map_values(|s: String| s@)
}

proof fn lemma_lead_blank(ls: Seq<Seq<char>>, k: int)
    requires
        0 <= k <= ls.len(),
        forall|j: int| 0 <= j < k ==> blank(#[trigger] ls[j]),
    ensures
        lead_blank(ls) == k + lead_blank(ls.skip(k)),
    decreases k,
{
    if k > 0 {
        assert(ls.drop_first().skip(k - 1) =~= ls.skip(k));
        lemma_lead_blank(ls.drop_first(), k - 1);
    } else {
        assert(ls.skip(0) =~= ls);
    }
}

proof fn lemma_trail_blank(ls: Seq<Seq<char>>, k: int)
    requires
        0 <= k <= ls.len(),
        forall|j: int| k <= j < ls.len() ==> blank(#[trigger] ls[j]),
    ensures
        trail_blank(ls) == (ls.len() - k) + trail_blank(ls.take(k)),
    decreases ls.len() - k,
{
    if k < ls.len() {
        assert(ls.drop_last().take(k) =~= ls.take(k));
        lemma_trail_blank(ls.drop_last(), k);
    } else {
        assert(ls.take(k) =~= ls);
    }
}

fn is_blank(s: &String) -> (b: bool)
    ensures
        b == blank(s@),
{
    crate::text::trim_str(s.as_str()).as_str().is_empty()
}

/// Drops the blank lines before and after a rendered banner.
pub fn trim_banner(lines: &Vec<String>) -> (r: Vec<String>)
    ensures
        string_views(r@) == trimmed_banner(string_views(lines@)),
{
    let n = lines.len();
    let ghost ls = string_views(lines@);
    let mut a: usize = 0;
    while a < n && is_blank(&lines[a])
        invariant
            a <= n == lines@.len(),
            ls == string_views(lines@),
            forall|j: int| 0 <= j < a ==> blank(#[trigger] ls[j]),
        decreases n - a,
    {
        a = a + 1;
    }
    proof {
        lemma_lead_blank(ls, a as int);
        if a < n {
            assert(ls.skip(a as int)[0] == ls[a as int]);
        }
        assert(lead_blank(ls.skip(a as int)) == 0);
    }
    if a == n {
        let mut all: Vec<String> = Vec::new();
        let mut i: usize = 0;
        while i < n
            invariant
                i <= n == lines@.len(),
                string_views(all@) == string_views(lines@).take(i as int),
            decreases n - i,
        {
            let ghost prev = string_views(all@);
            all.push(owned(lines[i].as_str()));
            assert(string_views(all@) =~= prev.push(lines@[i as int]@));
            assert(string_views(lines@).take(i + 1) =~= string_views(lines@).take(i as int).push(lines@[i as int]@));
            i = i + 1;
        }
        assert(string_views(lines@).take(n as int) =~= ls);
        return all;
    }
    let mut b: usize = n;
    while b > a && is_blank(&lines[b - 1])
        invariant
            a < n == lines@.len(),
            a <= b <= n,
            ls == string_views(lines@),
            forall|j: int| b <= j < n ==> blank(#[trigger] ls[j]),
        decreases b,
    {
        b = b - 1;
    }
    proof {
        lemma_trail_blank(ls, b as int);
        if b == a {
            assert(!blank(ls[a as int]));
        }
        assert(ls.take(b as int).last() == ls[b - 1]);
        assert(trail_blank(ls.take(b as int)) == 0);
    }
    let mut r: Vec<String> = Vec::new();
    let mut i: usize = a;
    while i < b
        invariant
            a <= i <= b <= n == lines@.len(),
            string_views(r@) == string_views(lines@).subrange(a as int, i as int),
        decreases b - i,
    {
        let ghost prev = string_views(r@);
        r.push(owned(lines[i].as_str()));
        assert(string_views(r@) =~= prev.push(lines@[i as int]@));
        assert(string_views(lines@).subrange(a as int, i + 1) =~= string_views(lines@).subrange(a as int, i as int).push(lines@[i as int]@));
        i = i + 1;
    }
    r
}


// ── The logo ──────────────────────────────────────────────────────────────

proof fn lemma_lead_le(ls: Seq<Seq<char>>)
    ensures
        lead_blank(ls) <= ls.len(),
    decreases ls.len(),
{
    if ls.len() > 0 && blank(ls[0]) {
        lemma_lead_le(ls.drop_first());
    }
}

proof fn lemma_trail_le(ls: Seq<Seq<char>>)
    ensures
        trail_blank(ls) <= ls.len(),
        forall|j: int| ls.len() - trail_blank(ls) <= j < ls.len() ==> blank(#[trigger] ls[j]),
    decreases ls.len(),
{
    if ls.len() > 0 && blank(ls.last()) {
        lemma_trail_le(ls.drop_last());
        assert forall|j: int| ls.len() - trail_blank(ls) <= j < ls.len() implies blank(#[trigger] ls[j]) by {
            if j < ls.len() - 1 {
                assert(ls[j] == ls.drop_last()[j]);
            }
        }
    }
}

proof fn lemma_lead_stops(ls: Seq<Seq<char>>)
    ensures
        lead_blank(ls) < ls.len() ==> !blank(ls[lead_blank(ls) as int]),
        forall|j: int| 0 <= j < lead_blank(ls) ==> blank(#[trigger] ls[j]),
    decreases ls.len(),
{
    if ls.len() > 0 && blank(ls[0]) {
        lemma_lead_stops(ls.drop_first());
        lemma_lead_le(ls.drop_first());
        assert forall|j: int| 0 <= j < lead_blank(ls) implies blank(#[trigger] ls[j]) by {
            if j > 0 {
                assert(ls[j] == ls.drop_first()[j - 1]);
            }
        }
    }
}

/// Dropping the blank lines makes a banner no longer.
proof fn lemma_trimmed_len(ls: Seq<Seq<char>>)
    ensures
        trimmed_banner(ls).len() <= ls.len(),
{
    lemma_lead_le(ls);
    lemma_trail_le(ls);
    lemma_lead_stops(ls);
    if lead_blank(ls) < ls.len() {
        let t = trail_blank(ls);
        let l = lead_blank(ls);
        // the first line that is not blank does not lie among the blank tail
        assert(!blank(ls[l as int]));
        assert(l >= ls.len() - t ==> blank(ls[l as int]));
    }
}

/// The name of the standard FIGlet font's rendering of a word, line by
/// line; nothing when the font cannot render it.
pub uninterp spec fn figlet_render(word: Seq<char>) -> Option<Seq<Seq<char>>>;

/// Renders the word in `figlet-rs`'s built-in standard font
/// (`FIGfont::standard`, then `FIGfont::convert`), cut into lines. The
/// lines depend on the word alone; what they are is only named.
#[verifier::external_body]
fn figlet_lines(word: &str) -> (r: Option<Vec<String>>)
    ensures
        match r {
            Some(v) => figlet_render(word@) == Some(string_views(v@)),
            None => figlet_render(word@) is None,
        },
{
    let font = figlet_rs::FIGfont::standard().ok()?;
    let figure = font.convert(word)?;
    Some(figure.to_string().lines().map(|l| l.to_string()).collect())
}

/// A word as the logo draws it: its FIGlet lines, or the word itself on
/// one line when the font cannot render it.
pub open spec fn banner_of(word: Seq<char>) -> Seq<Seq<char>> {
    match figlet_render(word) {
        Some(ls) => ls,
        None => seq![word],
    }
}

/// The lines of a word in the standard FIGlet font (the word itself when
/// the font cannot render it).
pub fn banner_lines(word: &str) -> (r: Vec<String>)
    ensures
        string_views(r@) == banner_of(word@),
{
    match figlet_lines(word) {
        Some(v) => v,
        None => {
            let v = vec![owned(word)];
            assert(string_views(v@) =~= seq![word@]);
            v
        },
    }
}

/// One cell of the logo: the starry sky, or a letter of the wordmark.
#[derive(Debug, Clone, Copy, PartialEq, Eq, Structural)]
pub enum LogoCell {
    Sky(char, Star),
    Letter(char),
}

/// One row of the logo: its cells, or the version line.
#[derive(Debug)]
pub enum LogoRow {
    Version,
    Cells(Vec<LogoCell>),
}

/// The sky at a cell.
pub open spec fn sky(row: int, col: int) -> LogoCell {
    LogoCell::Sky(star_of(row as usize, col as usize).0, star_of(row as usize, col as usize).1)
}

/// The widest line of a banner, in bytes.
pub open spec fn widest(ls: Seq<Seq<char>>) -> nat
    decreases ls.len(),
{
    if ls.len() == 0 {
        0
    } else {
        let a = widest(ls.drop_last());
        let b = crate::text::byte_len(ls.last());
        if a >= b { a } else { b }
    }
}

/// A banner's width: its widest line, or `d` for a banner without lines.
pub open spec fn banner_width(ls: Seq<Seq<char>>, d: nat) -> nat {
    if ls.len() == 0 { d } else { widest(ls) }
}

/// The left margin that centres `fw` columns in `w`.
pub open spec fn centre(w: nat, fw: nat) -> nat {
    if w > fw { ((w - fw) / 2) as nat } else { 0 }
}

/// The row of the version line: half-way down the space below the two
/// banners, which start on the second row.
pub open spec fn version_row(h: nat, n1: nat, n2: nat) -> nat {
    let tend = 1 + n1 + n2;
    (tend + if h >= tend + 1 { (h - (tend + 1)) / 2 } else { 0 }) as nat
}

/// A cell of a banner row: the banner's character at that column (counted
/// from its left margin `fc`, within its width `fw`), the sky where the
/// character is a space or the column lies outside the banner.
pub open spec fn letter_cell(row: int, col: int, fig: Seq<char>, fc: nat, fw: nat) -> LogoCell {
    if col >= fc && col - fc < fw {
        let c = if col - fc < fig.len() { fig[col - fc] } else { ' ' };
        if c != ' ' { LogoCell::Letter(c) } else { sky(row, col) }
    } else {
        sky(row, col)
    }
}

/// A row of the logo, `w` cells wide: the version line, a line of the top
/// banner (from the second row), a line of the bottom banner (right below
/// it), or sky. The banners are centred; one without lines counts as 40
/// (top) or 60 (bottom) columns wide.
pub open spec fn logo_row(w: nat, h: nat, r1: Seq<Seq<char>>, r2: Seq<Seq<char>>, row: int) -> Option<Seq<LogoCell>> {
    let w1 = banner_width(r1, 40);
    let w2 = banner_width(r2, 60);
    if row == version_row(h, r1.len(), r2.len()) {
        None
    } else if 1 <= row < 1 + r1.len() {
        Some(Seq::new(w, |c: int| letter_cell(row, c, r1[row - 1], centre(w, w1), w1)))
    } else if 1 + r1.len() <= row < 1 + r1.len() + r2.len() {
        Some(Seq::new(w, |c: int| letter_cell(row, c, r2[row - 1 - r1.len()], centre(w, w2), w2)))
    } else {
        Some(Seq::new(w, |c: int| sky(row, c)))
    }
}

pub open spec fn row_view(r: LogoRow) -> Option<Seq<LogoCell>> {
    match r {
        LogoRow::Version => None,
        LogoRow::Cells(v) => Some(v@),
    }
}

fn sky_cell(row: usize, col: usize) -> (r: LogoCell)
    ensures
        r == sky(row as int, col as int),
{
    let (c, st) = star_at(row, col);
    LogoCell::Sky(c, st)
}

fn banner_width_exec(ls: &Vec<String>, d: usize) -> (r: usize)
    ensures
        r == banner_width(string_views(ls@), d as nat),
{
    if ls.len() == 0 {
        return d;
    }
    let mut m: usize = 0;
    let mut i: usize = 0;
    while i < ls.len()
        invariant
            i <= ls@.len(),
            m == widest(string_views(ls@).take(i as int)),
        decreases ls@.len() - i,
    {
        let b = crate::text::byte_length(ls[i].as_str());
        assert(string_views(ls@).take(i + 1).drop_last() =~= string_views(ls@).take(i as int));
        if b > m {
            m = b;
        }
        i = i + 1;
    }
    assert(string_views(ls@).take(i as int) =~= string_views(ls@));
    m
}

fn figure_row(row: usize, w: usize, fig: &str, fc: usize, fw: usize) -> (r: Vec<LogoCell>)
    ensures
        r@ == Seq::new(w as nat, |c: int| letter_cell(row as int, c, fig@, fc as nat, fw as nat)),
{
    let chars = to_chars(fig);
    let mut v: Vec<LogoCell> = Vec::new();
    let mut col: usize = 0;
    while col < w
        invariant
            col <= w,
            chars@ == fig@,
            v@ == Seq::new(col as nat, |c: int| letter_cell(row as int, c, fig@, fc as nat, fw as nat)),
        decreases w - col,
    {
        let cell = if col >= fc && col - fc < fw {
            let fi = col - fc;
            let c = if fi < chars.len() { chars[fi] } else { ' ' };
            if c != ' ' { LogoCell::Letter(c) } else { sky_cell(row, col) }
        } else {
            sky_cell(row, col)
        };
        assert(cell == letter_cell(row as int, col as int, fig@, fc as nat, fw as nat));
        v.push(cell);
        col = col + 1;
        assert(v@ =~= Seq::new(col as nat, |c: int| letter_cell(row as int, c, fig@, fc as nat, fw as nat)));
    }
    v
}

fn sky_row(row: usize, w: usize) -> (r: Vec<LogoCell>)
    ensures
        r@ == Seq::new(w as nat, |c: int| sky(row as int, c)),
{
    let mut v: Vec<LogoCell> = Vec::new();
    let mut col: usize = 0;
    while col < w
        invariant
            col <= w,
            v@ == Seq::new(col as nat, |c: int| sky(row as int, c)),
        decreases w - col,
    {
        v.push(sky_cell(row, col));
        col = col + 1;
        assert(v@ =~= Seq::new(col as nat, |c: int| sky(row as int, c)));
    }
    v
}

/// The rows of the logo, `width` cells wide and `height` rows high, with
/// the two banners (their blank lines dropped) centred on the starry sky
/// and the version line below them.
pub fn logo_rows(width: usize, height: usize, top: &Vec<String>, bottom: &Vec<String>) -> (r: Vec<LogoRow>)
    requires
        top@.len() + bottom@.len() + 2 <= usize::MAX,
    ensures
        r@.len() == height,
        forall|row: int| 0 <= row < height ==> row_view(#[trigger] r@[row]) == logo_row(
            width as nat,
            height as nat,
            trimmed_banner(string_views(top@)),
            trimmed_banner(string_views(bottom@)),
            row,
        ),
{
    let r1 = trim_banner(top);
    let r2 = trim_banner(bottom);
    let ghost s1 = trimmed_banner(string_views(top@));
    let ghost s2 = trimmed_banner(string_views(bottom@));
    proof {
        lemma_trimmed_len(string_views(top@));
        lemma_trimmed_len(string_views(bottom@));
    }
    let r2s = 1 + r1.len();
    let tend = r2s + r2.len();
    let trow = tend + height.saturating_sub(tend + 1) / 2;
    let w1 = banner_width_exec(&r1, 40);
    let w2 = banner_width_exec(&r2, 60);
    let c1 = if width > w1 { (width - w1) / 2 } else { 0 };
    let c2 = if width > w2 { (width - w2) / 2 } else { 0 };
    let mut rows: Vec<LogoRow> = Vec::new();
    let mut row: usize = 0;
    while row < height
        invariant
            row <= height,
            rows@.len() == row,
            string_views(r1@) == s1,
            string_views(r2@) == s2,
            r2s == 1 + s1.len(),
            tend == 1 + s1.len() + s2.len(),
            trow == version_row(height as nat, s1.len(), s2.len()),
            w1 == banner_width(s1, 40),
            w2 == banner_width(s2, 60),
            c1 == centre(width as nat, w1 as nat),
            c2 == centre(width as nat, w2 as nat),
            forall|k: int| 0 <= k < row ==> row_view(#[trigger] rows@[k]) == logo_row(width as nat, height as nat, s1, s2, k),
        decreases height - row,
    {
        let next = if row == trow {
            LogoRow::Version
        } else if row >= 1 && row < r2s {
            LogoRow::Cells(figure_row(row, width, r1[row - 1].as_str(), c1, w1))
        } else if row >= r2s && row < tend {
            LogoRow::Cells(figure_row(row, width, r2[row - r2s].as_str(), c2, w2))
        } else {
            LogoRow::Cells(sky_row(row, width))
        };
        rows.push(next);
        row = row + 1;
    }
    rows
}

} // verus!
