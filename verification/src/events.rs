//! Keyboard and mouse handling: which command each event means on each
//! screen, and carrying the command out.
use vstd::prelude::*;
use crate::app::{
    App, Screen, Focus, LoginField, ConfigWrite, LIST_ROWS, login_write, queued, failed, inside,
    body_row, typed_login, backspaced_login, deleted_login, moved_down, paged_down, paged_up,
    copied_field, selected_type, queued_create, entered_edit, locked_vault,
};
use crate::fields::{FieldKey, CREATE_ITEM_TYPE_COUNT, key_ok_at, key_effect_at, detail_count};
use crate::search::{ITEM_FILTER_COUNT, filter_at};
use crate::text::{to_chars, from_chars, string_push};
use crate::model::Item;

verus! {

/// A key, as the terminal reports it.
#[derive(Debug, Clone, Copy, PartialEq, Eq, Structural)]
pub enum KeyCode {
    Char(char),
    Enter,
    Tab,
    BackTab,
    Esc,
    Backspace,
    Delete,
    Left,
    Right,
    Up,
    Down,
    Home,
    End,
    PageUp,
    PageDown,
    F(u8),
    Other,
}

/// The modifier bits of a key event: Shift 1, Control 2, Alt 4, and so on.
pub const MOD_NONE: u8 = 0;
pub const MOD_CONTROL: u8 = 2;
pub const MOD_ALT: u8 = 4;

#[derive(Debug, Clone, Copy, PartialEq, Eq, Structural)]
pub struct KeyEvent {
    pub code: KeyCode,
    pub modifiers: u8,
    /// A press, as opposed to a repeat or a release.
    pub pressed: bool,
}

#[derive(Debug, Clone, Copy, PartialEq, Eq, Structural)]
pub enum MouseKind {
    LeftDown,
    ScrollDown,
    ScrollUp,
    Other,
}

#[derive(Debug, Clone, Copy, PartialEq, Eq, Structural)]
pub struct MouseEvent {
    pub kind: MouseKind,
    pub column: u16,
    pub row: u16,
}

#[derive(Debug, Clone, Copy, PartialEq, Eq, Structural)]
pub enum Event {
    Key(KeyEvent),
    Mouse(MouseEvent),
    Other,
}

/// The key was pressed with Alt (Right Alt reports Alt and Control).
pub open spec fn alt(k: KeyEvent) -> bool {
    k.modifiers & MOD_ALT != 0
}

pub fn is_alt(k: &KeyEvent) -> (b: bool)
    ensures
        b == alt(*k),
{
    k.modifiers & MOD_ALT != 0
}

// ── Index navigation ──────────────────────────────────────────────────────

/// Tab / BackTab over `len` entries: one step, wrapping around.
pub open spec fn wrap_step(idx: int, len: int, forward: bool) -> int {
    if len == 0 {
        idx
    } else if forward {
        (idx + 1) % len
    } else {
        (idx + len - 1) % len
    }
}

/// Arrow keys over `len` entries: one step, stopping at either end.
pub open spec fn clamp_step(idx: int, len: int, forward: bool) -> int {
    if len == 0 {
        idx
    } else if forward {
        if idx + 1 < len { idx + 1 } else { idx }
    } else {
        if idx > 0 { idx - 1 } else { idx }
    }
}

/// Wrapping navigation: moves `idx` one entry forward or back, wrapping
/// from the last to the first and the first to the last.
pub fn nav_wrap(idx: &mut usize, len: usize, forward: bool)
    requires
        *old(idx) + len <= usize::MAX,
    ensures
        *final(idx) == wrap_step(*old(idx) as int, len as int, forward),
{
    if len == 0 {
        return ;
    }
    if forward {
        *idx = (*idx + 1) % len;
    } else {
        *idx = (*idx + len - 1) % len;
    }
}

/// Clamping navigation: moves `idx` one entry forward or back, stopping at
/// 0 and at `len - 1`.
pub fn nav_clamp(idx: &mut usize, len: usize, forward: bool)
    requires
        *old(idx) < usize::MAX,
    ensures
        *final(idx) == clamp_step(*old(idx) as int, len as int, forward),
{
    if len == 0 {
        return ;
    }
    if forward {
        if *idx + 1 < len {
            *idx = *idx + 1;
        }
    } else {
        if *idx > 0 {
            *idx = *idx - 1;
        }
    }
}

/// Wrapping keeps an index in range.
pub proof fn law_wrap_stays_in_range(idx: int, len: int, forward: bool)
    requires
        0 <= idx,
        0 < len,
    ensures
        0 <= wrap_step(idx, len, forward) < len,
{
}

/// Within range, a wrapping step forward is undone by one back, and the
/// other way round.
pub proof fn law_wrap_back_undoes_forward(idx: int, len: int, forward: bool)
    requires
        0 <= idx < len,
    ensures
        wrap_step(wrap_step(idx, len, forward), len, !forward) == idx,
{
    if forward {
        if idx + 1 < len {
            assert((idx + 1) % len == idx + 1) by {
                vstd::arithmetic::div_mod::lemma_small_mod((idx + 1) as nat, len as nat);
            }
            assert((idx + 1 + len - 1) % len == idx) by {
                vstd::arithmetic::div_mod::lemma_mod_add_multiples_vanish(idx, len);
                vstd::arithmetic::div_mod::lemma_small_mod(idx as nat, len as nat);
            }
        } else {
            assert((idx + 1) % len == 0) by {
                vstd::arithmetic::div_mod::lemma_mod_self_0(len);
            }
            assert((0 + len - 1) % len == len - 1) by {
                vstd::arithmetic::div_mod::lemma_small_mod((len - 1) as nat, len as nat);
            }
        }
    } else {
        if idx > 0 {
            assert((idx + len - 1) % len == idx - 1) by {
                vstd::arithmetic::div_mod::lemma_mod_add_multiples_vanish(idx - 1, len);
                vstd::arithmetic::div_mod::lemma_small_mod((idx - 1) as nat, len as nat);
            }
            assert((idx - 1 + 1) % len == idx) by {
                vstd::arithmetic::div_mod::lemma_small_mod(idx as nat, len as nat);
            }
        } else {
            assert((0 + len - 1) % len == len - 1) by {
                vstd::arithmetic::div_mod::lemma_small_mod((len - 1) as nat, len as nat);
            }
            assert((len - 1 + 1) % len == 0) by {
                vstd::arithmetic::div_mod::lemma_mod_self_0(len);
            }
        }
    }
}

/// Clamping keeps an index in range.
pub proof fn law_clamp_stays_in_range(idx: int, len: int, forward: bool)
    requires
        0 <= idx < len,
    ensures
        0 <= clamp_step(idx, len, forward) < len,
{
}


// ── Commands ──────────────────────────────────────────────────────────────

/// What an input event asks of the application.
#[derive(Debug, Clone)]
pub enum Command {
    Nothing,
    /// Ctrl+C.
    Quit,
    // The login form.
    NextLoginField,
    PrevLoginField,
    SelectLoginField(LoginField),
    ToggleSaveEmail,
    /// A click on "Save email": focus it and flip it.
    ClickSaveEmail,
    ToggleAutoLock,
    /// A click on "Auto-lock": focus it and flip it.
    ClickAutoLock,
    AttemptLogin,
    LoginCursorLeft,
    LoginCursorRight,
    LoginCursorHome,
    LoginCursorEnd,
    LoginDeleteAt,
    LoginDeleteBefore,
    LoginType(char),
    // The vault screen.
    FocusPanel(u8),
    FocusOn(Focus),
    SyncVault,
    LockVault,
    CycleFocus,
    ShowHelp,
    FilterDown,
    FilterUp,
    ApplyFilter,
    ClearSearch,
    MoveDown,
    MoveUp,
    PageDown,
    PageUp,
    /// Enter in the search box: open the selection, if anything is listed.
    OpenFromSearch,
    SearchBackspace,
    SearchType(char),
    GoToDetail,
    LogUp(usize),
    LogDown(usize),
    ConfirmDelete,
    CopyUsername,
    CopyPassword,
    ToggleFavorite,
    OpenCreate,
    /// A click on the listed item at this position: open it when it is
    /// already selected, else select it.
    ClickListRow(usize),
    /// A click on the filter at this position of the Items panel.
    ClickFilter(usize),
    // The detail screen.
    LeaveEdit,
    SaveEdit,
    EditWrap(bool),
    EditClamp(bool),
    EditKey(FieldKey),
    LeaveDetail,
    DetailWrap(bool),
    DetailClamp(bool),
    ToggleShowPassword,
    CopyField,
    EnterEdit,
    /// A click on the detail field at this position.
    ClickDetailField(usize),
    /// The mouse wheel on the detail screen, down or up.
    ScrollDetail(bool),
    // The create screen, help and the delete confirmation.
    GoBack,
    SelectType,
    TypeWrap(bool),
    TypeClamp(bool),
    QueueCreate,
    CreateWrap(bool),
    CreateClamp(bool),
    CreateKey(FieldKey),
    CancelDelete,
    DeleteItem(bool),
}

/// What the caller must do after an event: write the settings, and run
/// `bw lock` when the vault was locked.
#[derive(Debug, Clone)]
pub struct EventEffects {
    pub config: ConfigWrite,
    pub locked: bool,
}

// ── The key map ───────────────────────────────────────────────────────────

pub open spec fn next_login_field(f: LoginField) -> LoginField {
    match f {
        LoginField::Email => LoginField::Password,
        LoginField::Password => LoginField::SaveEmail,
        LoginField::SaveEmail => LoginField::AutoLock,
        LoginField::AutoLock => LoginField::Email,
    }
}

pub open spec fn prev_login_field(f: LoginField) -> LoginField {
    match f {
        LoginField::AutoLock => LoginField::SaveEmail,
        LoginField::SaveEmail => LoginField::Password,
        LoginField::Password => LoginField::Email,
        LoginField::Email => LoginField::AutoLock,
    }
}

/// The editing key that a key means in a form field, if any.
pub open spec fn text_key(code: KeyCode) -> Option<FieldKey> {
    match code {
        KeyCode::Left => Some(FieldKey::Left),
        KeyCode::Right => Some(FieldKey::Right),
        KeyCode::Home => Some(FieldKey::Home),
        KeyCode::End => Some(FieldKey::End),
        KeyCode::Backspace => Some(FieldKey::DeleteBefore),
        KeyCode::Delete => Some(FieldKey::DeleteAt),
        KeyCode::Char(c) => Some(FieldKey::Insert(c)),
        _ => None,
    }
}

/// The login screen's keys.
pub open spec fn login_command(a: App, code: KeyCode) -> Command {
    match code {
        KeyCode::Tab => Command::NextLoginField,
        KeyCode::BackTab => Command::PrevLoginField,
        KeyCode::Char(c) => if c == ' ' && a.active_field == LoginField::SaveEmail {
            Command::ToggleSaveEmail
        } else if c == ' ' && a.active_field == LoginField::AutoLock {
            Command::ToggleAutoLock
        } else if a.active_field != LoginField::SaveEmail && a.active_field != LoginField::AutoLock {
            Command::LoginType(c)
        } else {
            Command::Nothing
        },
        KeyCode::Enter => Command::AttemptLogin,
        KeyCode::Left => Command::LoginCursorLeft,
        KeyCode::Right => Command::LoginCursorRight,
        KeyCode::Home => Command::LoginCursorHome,
        KeyCode::End => Command::LoginCursorEnd,
        KeyCode::Delete => Command::LoginDeleteAt,
        KeyCode::Backspace => Command::LoginDeleteBefore,
        _ => Command::Nothing,
    }
}

/// The panel that a digit key jumps to.
pub open spec fn digit_panel(code: KeyCode) -> Option<u8> {
    match code {
        KeyCode::Char(c) => if '0' <= c <= '4' { Some((c as u32 - '0' as u32) as u8) } else { None },
        _ => None,
    }
}

/// The Alt shortcuts of the search box and the vault list.
pub open spec fn alt_command(code: KeyCode) -> Command {
    match code {
        KeyCode::Char(c) => if c == 'q' {
            Command::LockVault
        } else if c == 'd' {
            Command::ConfirmDelete
        } else if c == 'u' {
            Command::CopyUsername
        } else if c == 'c' {
            Command::CopyPassword
        } else if c == 'f' {
            Command::ToggleFavorite
        } else if c == 'n' {
            Command::OpenCreate
        } else {
            Command::Nothing
        },
        _ => Command::Nothing,
    }
}

pub open spec fn down_key(code: KeyCode) -> bool {
    code == KeyCode::Char('j') || code == KeyCode::Down
}

pub open spec fn up_key(code: KeyCode) -> bool {
    code == KeyCode::Char('k') || code == KeyCode::Up
}

/// The keys of the focused vault panel.
pub open spec fn panel_command(a: App, k: KeyEvent) -> Command {
    let code = k.code;
    match a.focus {
        Focus::Status | Focus::Vaults => if code == KeyCode::Tab || code == KeyCode::Esc {
            Command::CycleFocus
        } else if code == KeyCode::Char('?') {
            Command::ShowHelp
        } else {
            Command::Nothing
        },
        Focus::Items => if down_key(code) || code == KeyCode::PageDown {
            Command::FilterDown
        } else if up_key(code) || code == KeyCode::PageUp {
            Command::FilterUp
        } else if code == KeyCode::Enter {
            Command::ApplyFilter
        } else if code == KeyCode::Tab || code == KeyCode::Esc {
            Command::CycleFocus
        } else if code == KeyCode::Char('?') {
            Command::ShowHelp
        } else {
            Command::Nothing
        },
        Focus::Search => if code == KeyCode::Esc {
            Command::ClearSearch
        } else if code == KeyCode::Tab {
            Command::CycleFocus
        } else if down_key(code) {
            Command::MoveDown
        } else if up_key(code) {
            Command::MoveUp
        } else if code == KeyCode::PageDown {
            Command::PageDown
        } else if code == KeyCode::PageUp {
            Command::PageUp
        } else if code == KeyCode::Enter {
            Command::OpenFromSearch
        } else if code == KeyCode::Backspace {
            Command::SearchBackspace
        } else if alt(k) {
            alt_command(code)
        } else {
            match code {
                KeyCode::Char(c) => if k.modifiers == MOD_NONE {
                    Command::SearchType(c)
                } else {
                    Command::Nothing
                },
                _ => Command::Nothing,
            }
        },
        Focus::List => if down_key(code) {
            Command::MoveDown
        } else if up_key(code) {
            Command::MoveUp
        } else if code == KeyCode::PageDown {
            Command::PageDown
        } else if code == KeyCode::PageUp {
            Command::PageUp
        } else if code == KeyCode::Enter || code == KeyCode::Char('l') {
            Command::GoToDetail
        } else if code == KeyCode::Tab {
            Command::CycleFocus
        } else if code == KeyCode::Char('?') {
            Command::ShowHelp
        } else if alt(k) {
            alt_command(code)
        } else {
            Command::Nothing
        },
        Focus::CmdLog => if down_key(code) {
            Command::LogUp(1)
        } else if up_key(code) {
            Command::LogDown(1)
        } else if code == KeyCode::PageDown {
            Command::LogDown(5)
        } else if code == KeyCode::PageUp {
            Command::LogUp(5)
        } else if code == KeyCode::Tab || code == KeyCode::Esc {
            Command::CycleFocus
        } else if code == KeyCode::Char('?') {
            Command::ShowHelp
        } else {
            Command::Nothing
        },
    }
}

/// The vault screen's keys: the digits 0 to 4 (without modifiers, outside
/// the search box) jump to a panel, Alt+S syncs, Alt+L locks, `/` starts a
/// search; the rest depends on the focused panel.
pub open spec fn vault_command(a: App, k: KeyEvent) -> Command {
    if k.modifiers == MOD_NONE && a.focus != Focus::Search && digit_panel(k.code) is Some {
        Command::FocusPanel(digit_panel(k.code)->0)
    } else if k.code == KeyCode::Char('s') && alt(k) {
        Command::SyncVault
    } else if k.code == KeyCode::Char('l') && alt(k) {
        Command::LockVault
    } else if k.code == KeyCode::Char('/') && k.modifiers == MOD_NONE {
        Command::FocusOn(Focus::Search)
    } else {
        panel_command(a, k)
    }
}

/// The detail screen's keys, in edit mode and when reading.
pub open spec fn detail_command(a: App, k: KeyEvent) -> Command {
    let code = k.code;
    if a.edit_mode {
        match code {
            KeyCode::Esc => Command::LeaveEdit,
            KeyCode::Enter => Command::SaveEdit,
            KeyCode::Tab => Command::EditWrap(true),
            KeyCode::BackTab => Command::EditWrap(false),
            KeyCode::Down => Command::EditClamp(true),
            KeyCode::Up => Command::EditClamp(false),
            KeyCode::F(n) => if n == 2 { Command::EditKey(FieldKey::ToggleReveal) } else { Command::Nothing },
            _ => match text_key(code) {
                Some(fk) => Command::EditKey(fk),
                None => Command::Nothing,
            },
        }
    } else if code == KeyCode::Esc || code == KeyCode::Char('h') {
        Command::LeaveDetail
    } else if code == KeyCode::Tab {
        Command::DetailWrap(true)
    } else if code == KeyCode::BackTab {
        Command::DetailWrap(false)
    } else if down_key(code) || code == KeyCode::PageDown {
        Command::DetailClamp(true)
    } else if up_key(code) || code == KeyCode::PageUp {
        Command::DetailClamp(false)
    } else if code == KeyCode::F(2) {
        Command::ToggleShowPassword
    } else if code == KeyCode::Char('c') && alt(k) {
        Command::CopyField
    } else if code == KeyCode::Char('e') && alt(k) {
        Command::EnterEdit
    } else if code == KeyCode::Char('d') && alt(k) {
        Command::ConfirmDelete
    } else {
        Command::Nothing
    }
}

/// The create screen's keys: choosing the type, then filling its fields.
pub open spec fn create_command(a: App, code: KeyCode) -> Command {
    if a.create_choosing_type {
        if code == KeyCode::Esc {
            Command::GoBack
        } else if code == KeyCode::Enter {
            Command::SelectType
        } else if code == KeyCode::Tab {
            Command::TypeWrap(true)
        } else if code == KeyCode::BackTab {
            Command::TypeWrap(false)
        } else if down_key(code) {
            Command::TypeClamp(true)
        } else if up_key(code) {
            Command::TypeClamp(false)
        } else {
            Command::Nothing
        }
    } else {
        match code {
            KeyCode::Esc => Command::GoBack,
            KeyCode::Enter => Command::QueueCreate,
            KeyCode::Tab => Command::CreateWrap(true),
            KeyCode::BackTab => Command::CreateWrap(false),
            KeyCode::Down => Command::CreateClamp(true),
            KeyCode::Up => Command::CreateClamp(false),
            KeyCode::F(n) => if n == 2 { Command::CreateKey(FieldKey::ToggleReveal) } else { Command::Nothing },
            _ => match text_key(code) {
                Some(fk) => Command::CreateKey(fk),
                None => Command::Nothing,
            },
        }
    }
}

/// The delete confirmation's keys: Esc or `n` cancels, Enter moves the
/// item to the trash, `D` deletes it for good.
pub open spec fn confirm_command(code: KeyCode) -> Command {
    if code == KeyCode::Esc || code == KeyCode::Char('n') {
        Command::CancelDelete
    } else if code == KeyCode::Enter {
        Command::DeleteItem(false)
    } else if code == KeyCode::Char('D') {
        Command::DeleteItem(true)
    } else {
        Command::Nothing
    }
}

/// The command a key event means: only presses count, Ctrl+C quits
/// anywhere, any key closes the help, and otherwise each screen has its map.
pub open spec fn key_command(a: App, k: KeyEvent) -> Command {
    if !k.pressed {
        Command::Nothing
    } else if k.code == KeyCode::Char('c') && k.modifiers == MOD_CONTROL {
        Command::Quit
    } else {
        match a.screen {
            Screen::Login => login_command(a, k.code),
            Screen::Vault => vault_command(a, k),
            Screen::Detail => detail_command(a, k),
            Screen::Help => Command::GoBack,
            Screen::Create => create_command(a, k.code),
            Screen::ConfirmDelete => confirm_command(k.code),
        }
    }
}

// ── The mouse map ─────────────────────────────────────────────────────────

/// How many fields the detail view navigates over.
pub open spec fn detail_total(a: App) -> int {
    match a.selected() {
        Some(item) => detail_count(item),
        None => 0,
    }
}

/// A click on the login form: the e-mail block, the password block, then
/// the two check boxes, counted in rows from the first row inside the border.
pub open spec fn login_click(a: App, col: u16, row: u16) -> Command {
    match a.mouse_areas.login {
        None => Command::Nothing,
        Some(r) => if !inside(r, col, row) {
            Command::Nothing
        } else {
            let inner = if row >= r.y + 1 { row - (r.y + 1) } else { 0 };
            if inner < 4 {
                Command::SelectLoginField(LoginField::Email)
            } else if inner < 8 {
                Command::SelectLoginField(LoginField::Password)
            } else if inner < 10 {
                Command::ClickSaveEmail
            } else {
                Command::ClickAutoLock
            }
        },
    }
}

/// A click on the vault screen focuses the panel under it; on the list it
/// also picks the listed item, on the Items panel the filter.
pub open spec fn vault_click(a: App, col: u16, row: u16) -> Command {
    match a.mouse_areas.focus_at(col, row) {
        None => Command::Nothing,
        Some(f) => match f {
            Focus::List => match body_row(a.mouse_areas.list, row) {
                Some(ri) => if a.scroll_offset + ri < a.listed().len() {
                    Command::ClickListRow((a.scroll_offset + ri) as usize)
                } else {
                    Command::FocusOn(Focus::List)
                },
                None => Command::FocusOn(Focus::List),
            },
            Focus::Items => match body_row(a.mouse_areas.items, row) {
                Some(ri) => if ri < ITEM_FILTER_COUNT {
                    Command::ClickFilter(ri)
                } else {
                    Command::FocusOn(Focus::Items)
                },
                None => Command::FocusOn(Focus::Items),
            },
            _ => Command::FocusOn(f),
        },
    }
}

/// A click on the detail screen: the header row goes back; in the fields'
/// area, each field takes four rows.
pub open spec fn detail_click(a: App, col: u16, row: u16) -> Command {
    if row < 2 {
        Command::LeaveDetail
    } else {
        match a.mouse_areas.detail {
            None => Command::Nothing,
            Some(r) => if !inside(r, col, row) {
                Command::Nothing
            } else if (row - r.y) / 4 < detail_total(a) {
                Command::ClickDetailField(((row - r.y) / 4) as usize)
            } else {
                Command::Nothing
            },
        }
    }
}

/// The mouse wheel: on the vault screen it moves in the panel under it
/// (the Items cursor, the command log, else the list), on the detail
/// screen between fields.
pub open spec fn scroll_command(a: App, col: u16, row: u16, down: bool) -> Command {
    match a.screen {
        Screen::Vault => match a.mouse_areas.focus_at(col, row) {
            Some(Focus::Items) => if down { Command::FilterDown } else { Command::FilterUp },
            Some(Focus::CmdLog) => if down { Command::LogUp(1) } else { Command::LogDown(1) },
            _ => if down { Command::MoveDown } else { Command::MoveUp },
        },
        Screen::Detail => Command::ScrollDetail(down),
        _ => Command::Nothing,
    }
}

/// The command a mouse event means.
pub open spec fn mouse_command(a: App, m: MouseEvent) -> Command {
    match m.kind {
        MouseKind::LeftDown => match a.screen {
            Screen::Login => login_click(a, m.column, m.row),
            Screen::Vault => vault_click(a, m.column, m.row),
            Screen::Detail => detail_click(a, m.column, m.row),
            _ => Command::Nothing,
        },
        MouseKind::ScrollDown => scroll_command(a, m.column, m.row, true),
        MouseKind::ScrollUp => scroll_command(a, m.column, m.row, false),
        MouseKind::Other => Command::Nothing,
    }
}


// ── Deciding ──────────────────────────────────────────────────────────────

fn text_key_of(code: KeyCode) -> (r: Option<FieldKey>)
    ensures
        r == text_key(code),
{
    match code {
        KeyCode::Left => Some(FieldKey::Left),
        KeyCode::Right => Some(FieldKey::Right),
        KeyCode::Home => Some(FieldKey::Home),
        KeyCode::End => Some(FieldKey::End),
        KeyCode::Backspace => Some(FieldKey::DeleteBefore),
        KeyCode::Delete => Some(FieldKey::DeleteAt),
        KeyCode::Char(c) => Some(FieldKey::Insert(c)),
        _ => None,
    }
}

fn login_command_of(app: &App, code: KeyCode) -> (c: Command)
    ensures
        c == login_command(*app, code),
{
    match code {
        KeyCode::Tab => Command::NextLoginField,
        KeyCode::BackTab => Command::PrevLoginField,
        KeyCode::Char(ch) => {
            if ch == ' ' && app.active_field == LoginField::SaveEmail {
                Command::ToggleSaveEmail
            } else if ch == ' ' && app.active_field == LoginField::AutoLock {
                Command::ToggleAutoLock
            } else if app.active_field != LoginField::SaveEmail && app.active_field != LoginField::AutoLock {
                Command::LoginType(ch)
            } else {
                Command::Nothing
            }
        },
        KeyCode::Enter => Command::AttemptLogin,
        KeyCode::Left => Command::LoginCursorLeft,
        KeyCode::Right => Command::LoginCursorRight,
        KeyCode::Home => Command::LoginCursorHome,
        KeyCode::End => Command::LoginCursorEnd,
        KeyCode::Delete => Command::LoginDeleteAt,
        KeyCode::Backspace => Command::LoginDeleteBefore,
        _ => Command::Nothing,
    }
}

fn digit_panel_of(code: KeyCode) -> (r: Option<u8>)
    ensures
        r == digit_panel(code),
{
    match code {
        KeyCode::Char(c) => {
            if c == '0' {
                Some(0)
            } else if c == '1' {
                Some(1)
            } else if c == '2' {
                Some(2)
            } else if c == '3' {
                Some(3)
            } else if c == '4' {
                Some(4)
            } else {
                assert(!('0' <= c <= '4'));
                None
            }
        },
        _ => None,
    }
}

fn alt_command_of(code: KeyCode) -> (c: Command)
    ensures
        c == alt_command(code),
{
    match code {
        KeyCode::Char(ch) => {
            if ch == 'q' {
                Command::LockVault
            } else if ch == 'd' {
                Command::ConfirmDelete
            } else if ch == 'u' {
                Command::CopyUsername
            } else if ch == 'c' {
                Command::CopyPassword
            } else if ch == 'f' {
                Command::ToggleFavorite
            } else if ch == 'n' {
                Command::OpenCreate
            } else {
                Command::Nothing
            }
        },
        _ => Command::Nothing,
    }
}

fn is_down_key(code: KeyCode) -> (b: bool)
    ensures
        b == down_key(code),
{
    code == KeyCode::Char('j') || code == KeyCode::Down
}

fn is_up_key(code: KeyCode) -> (b: bool)
    ensures
        b == up_key(code),
{
    code == KeyCode::Char('k') || code == KeyCode::Up
}

fn panel_command_of(app: &App, k: &KeyEvent) -> (c: Command)
    ensures
        c == panel_command(*app, *k),
{
    let code = k.code;
    match app.focus {
        Focus::Status | Focus::Vaults => {
            if code == KeyCode::Tab || code == KeyCode::Esc {
                Command::CycleFocus
            } else if code == KeyCode::Char('?') {
                Command::ShowHelp
            } else {
                Command::Nothing
            }
        },
        Focus::Items => {
            if is_down_key(code) || code == KeyCode::PageDown {
                Command::FilterDown
            } else if is_up_key(code) || code == KeyCode::PageUp {
                Command::FilterUp
            } else if code == KeyCode::Enter {
                Command::ApplyFilter
            } else if code == KeyCode::Tab || code == KeyCode::Esc {
                Command::CycleFocus
            } else if code == KeyCode::Char('?') {
                Command::ShowHelp
            } else {
                Command::Nothing
            }
        },
        Focus::Search => {
            if code == KeyCode::Esc {
                Command::ClearSearch
            } else if code == KeyCode::Tab {
                Command::CycleFocus
            } else if is_down_key(code) {
                Command::MoveDown
            } else if is_up_key(code) {
                Command::MoveUp
            } else if code == KeyCode::PageDown {
                Command::PageDown
            } else if code == KeyCode::PageUp {
                Command::PageUp
            } else if code == KeyCode::Enter {
                Command::OpenFromSearch
            } else if code == KeyCode::Backspace {
                Command::SearchBackspace
            } else if is_alt(k) {
                alt_command_of(code)
            } else {
                match code {
                    KeyCode::Char(ch) => if k.modifiers == MOD_NONE {
                        Command::SearchType(ch)
                    } else {
                        Command::Nothing
                    },
                    _ => Command::Nothing,
                }
            }
        },
        Focus::List => {
            if is_down_key(code) {
                Command::MoveDown
            } else if is_up_key(code) {
                Command::MoveUp
            } else if code == KeyCode::PageDown {
                Command::PageDown
            } else if code == KeyCode::PageUp {
                Command::PageUp
            } else if code == KeyCode::Enter || code == KeyCode::Char('l') {
                Command::GoToDetail
            } else if code == KeyCode::Tab {
                Command::CycleFocus
            } else if code == KeyCode::Char('?') {
                Command::ShowHelp
            } else if is_alt(k) {
                alt_command_of(code)
            } else {
                Command::Nothing
            }
        },
        Focus::CmdLog => {
            if is_down_key(code) {
                Command::LogUp(1)
            } else if is_up_key(code) {
                Command::LogDown(1)
            } else if code == KeyCode::PageDown {
                Command::LogDown(5)
            } else if code == KeyCode::PageUp {
                Command::LogUp(5)
            } else if code == KeyCode::Tab || code == KeyCode::Esc {
                Command::CycleFocus
            } else if code == KeyCode::Char('?') {
                Command::ShowHelp
            } else {
                Command::Nothing
            }
        },
    }
}

fn vault_command_of(app: &App, k: &KeyEvent) -> (c: Command)
    ensures
        c == vault_command(*app, *k),
{
    if k.modifiers == MOD_NONE && app.focus != Focus::Search {
        if let Some(n) = digit_panel_of(k.code) {
            return Command::FocusPanel(n);
        }
    }
    if k.code == KeyCode::Char('s') && is_alt(k) {
        Command::SyncVault
    } else if k.code == KeyCode::Char('l') && is_alt(k) {
        Command::LockVault
    } else if k.code == KeyCode::Char('/') && k.modifiers == MOD_NONE {
        Command::FocusOn(Focus::Search)
    } else {
        panel_command_of(app, k)
    }
}

fn detail_command_of(app: &App, k: &KeyEvent) -> (c: Command)
    ensures
        c == detail_command(*app, *k),
{
    let code = k.code;
    if app.edit_mode {
        match code {
            KeyCode::Esc => Command::LeaveEdit,
            KeyCode::Enter => Command::SaveEdit,
            KeyCode::Tab => Command::EditWrap(true),
            KeyCode::BackTab => Command::EditWrap(false),
            KeyCode::Down => Command::EditClamp(true),
            KeyCode::Up => Command::EditClamp(false),
            KeyCode::F(n) => if n == 2 {
                Command::EditKey(FieldKey::ToggleReveal)
            } else {
                Command::Nothing
            },
            _ => match text_key_of(code) {
                Some(fk) => Command::EditKey(fk),
                None => Command::Nothing,
            },
        }
    } else if code == KeyCode::Esc || code == KeyCode::Char('h') {
        Command::LeaveDetail
    } else if code == KeyCode::Tab {
        Command::DetailWrap(true)
    } else if code == KeyCode::BackTab {
        Command::DetailWrap(false)
    } else if is_down_key(code) || code == KeyCode::PageDown {
        Command::DetailClamp(true)
    } else if is_up_key(code) || code == KeyCode::PageUp {
        Command::DetailClamp(false)
    } else if code == KeyCode::F(2) {
        Command::ToggleShowPassword
    } else if code == KeyCode::Char('c') && is_alt(k) {
        Command::CopyField
    } else if code == KeyCode::Char('e') && is_alt(k) {
        Command::EnterEdit
    } else if code == KeyCode::Char('d') && is_alt(k) {
        Command::ConfirmDelete
    } else {
        Command::Nothing
    }
}

fn create_command_of(app: &App, code: KeyCode) -> (c: Command)
    ensures
        c == create_command(*app, code),
{
    if app.create_choosing_type {
        if code == KeyCode::Esc {
            Command::GoBack
        } else if code == KeyCode::Enter {
            Command::SelectType
        } else if code == KeyCode::Tab {
            Command::TypeWrap(true)
        } else if code == KeyCode::BackTab {
            Command::TypeWrap(false)
        } else if is_down_key(code) {
            Command::TypeClamp(true)
        } else if is_up_key(code) {
            Command::TypeClamp(false)
        } else {
            Command::Nothing
        }
    } else {
        match code {
            KeyCode::Esc => Command::GoBack,
            KeyCode::Enter => Command::QueueCreate,
            KeyCode::Tab => Command::CreateWrap(true),
            KeyCode::BackTab => Command::CreateWrap(false),
            KeyCode::Down => Command::CreateClamp(true),
            KeyCode::Up => Command::CreateClamp(false),
            KeyCode::F(n) => if n == 2 {
                Command::CreateKey(FieldKey::ToggleReveal)
            } else {
                Command::Nothing
            },
            _ => match text_key_of(code) {
                Some(fk) => Command::CreateKey(fk),
                None => Command::Nothing,
            },
        }
    }
}

fn confirm_command_of(code: KeyCode) -> (c: Command)
    ensures
        c == confirm_command(code),
{
    if code == KeyCode::Esc || code == KeyCode::Char('n') {
        Command::CancelDelete
    } else if code == KeyCode::Enter {
        Command::DeleteItem(false)
    } else if code == KeyCode::Char('D') {
        Command::DeleteItem(true)
    } else {
        Command::Nothing
    }
}

/// The command a key event means on the current screen.
pub fn key_command_of(app: &App, k: &KeyEvent) -> (c: Command)
    ensures
        c == key_command(*app, *k),
{
    if !k.pressed {
        Command::Nothing
    } else if k.code == KeyCode::Char('c') && k.modifiers == MOD_CONTROL {
        Command::Quit
    } else {
        match app.screen {
            Screen::Login => login_command_of(app, k.code),
            Screen::Vault => vault_command_of(app, k),
            Screen::Detail => detail_command_of(app, k),
            Screen::Help => Command::GoBack,
            Screen::Create => create_command_of(app, k.code),
            Screen::ConfirmDelete => confirm_command_of(k.code),
        }
    }
}


/// A click on the vault list does not push the clicked position past the
/// largest index.
pub open spec fn list_click_fits(a: App, col: u16, row: u16) -> bool {
    a.mouse_areas.focus_at(col, row) == Some(Focus::List) ==> match body_row(a.mouse_areas.list, row) {
        Some(ri) => a.scroll_offset + ri <= usize::MAX,
        None => true,
    }
}

fn login_click_of(app: &App, col: u16, row: u16) -> (c: Command)
    requires
        app.mouse_areas.wf(),
    ensures
        c == login_click(*app, col, row),
{
    match app.mouse_areas.login {
        None => Command::Nothing,
        Some(r) => {
            if !crate::app::rect_contains(r, col, row) {
                return Command::Nothing;
            }
            let inner = row.saturating_sub(r.y + 1);
            if inner < 4 {
                Command::SelectLoginField(LoginField::Email)
            } else if inner < 8 {
                Command::SelectLoginField(LoginField::Password)
            } else if inner < 10 {
                Command::ClickSaveEmail
            } else {
                Command::ClickAutoLock
            }
        },
    }
}

fn vault_click_of(app: &App, col: u16, row: u16) -> (c: Command)
    requires
        app.mouse_areas.wf(),
        list_click_fits(*app, col, row),
    ensures
        c == vault_click(*app, col, row),
{
    match app.mouse_areas.focus_for(col, row) {
        None => Command::Nothing,
        Some(f) => match f {
            Focus::List => match app.mouse_areas.list_row(row) {
                Some(ri) => {
                    let visible = app.scroll_offset + ri;
                    if visible < app.filtered_len() {
                        Command::ClickListRow(visible)
                    } else {
                        Command::FocusOn(Focus::List)
                    }
                },
                None => Command::FocusOn(Focus::List),
            },
            Focus::Items => match app.mouse_areas.items_row(row) {
                Some(ri) => if ri < ITEM_FILTER_COUNT {
                    Command::ClickFilter(ri)
                } else {
                    Command::FocusOn(Focus::Items)
                },
                None => Command::FocusOn(Focus::Items),
            },
            _ => Command::FocusOn(f),
        },
    }
}

fn detail_click_of(app: &App, col: u16, row: u16) -> (c: Command)
    requires
        app.mouse_areas.wf(),
    ensures
        c == detail_click(*app, col, row),
{
    if row < 2 {
        return Command::LeaveDetail;
    }
    match app.mouse_areas.detail {
        None => Command::Nothing,
        Some(r) => {
            if !crate::app::rect_contains(r, col, row) {
                return Command::Nothing;
            }
            let idx = ((row - r.y) / 4) as usize;
            if idx < app.detail_field_count() {
                Command::ClickDetailField(idx)
            } else {
                Command::Nothing
            }
        },
    }
}

fn scroll_command_of(app: &App, col: u16, row: u16, down: bool) -> (c: Command)
    requires
        app.mouse_areas.wf(),
    ensures
        c == scroll_command(*app, col, row, down),
{
    match app.screen {
        Screen::Vault => match app.mouse_areas.focus_for(col, row) {
            Some(Focus::Items) => if down { Command::FilterDown } else { Command::FilterUp },
            Some(Focus::CmdLog) => if down { Command::LogUp(1) } else { Command::LogDown(1) },
            _ => if down { Command::MoveDown } else { Command::MoveUp },
        },
        Screen::Detail => Command::ScrollDetail(down),
        _ => Command::Nothing,
    }
}

/// The command a mouse event means on the current screen.
pub fn mouse_command_of(app: &App, m: &MouseEvent) -> (c: Command)
    requires
        app.mouse_areas.wf(),
        m.kind == MouseKind::LeftDown && app.screen == Screen::Vault ==> list_click_fits(*app, m.column, m.row),
    ensures
        c == mouse_command(*app, *m),
{
    match m.kind {
        MouseKind::LeftDown => match app.screen {
            Screen::Login => login_click_of(app, m.column, m.row),
            Screen::Vault => vault_click_of(app, m.column, m.row),
            Screen::Detail => detail_click_of(app, m.column, m.row),
            _ => Command::Nothing,
        },
        MouseKind::ScrollDown => scroll_command_of(app, m.column, m.row, true),
        MouseKind::ScrollUp => scroll_command_of(app, m.column, m.row, false),
        MouseKind::Other => Command::Nothing,
    }
}


// ── Carrying commands out ─────────────────────────────────────────────────

/// The state after leaving the current screen (Esc, or any key in the help).
pub open spec fn back_from(b: App) -> App {
    match b.screen {
        Screen::Detail => if b.edit_mode {
            App { edit_mode: false, ..b }
        } else {
            App { screen: Screen::Vault, ..b }
        },
        Screen::Help | Screen::Create | Screen::ConfirmDelete => App { screen: Screen::Vault, ..b },
        _ => b,
    }
}

pub open spec fn next_focus(f: Focus) -> Focus {
    match f {
        Focus::Status | Focus::CmdLog => Focus::Search,
        Focus::Search => Focus::Vaults,
        Focus::Vaults => Focus::Items,
        Focus::Items => Focus::List,
        Focus::List => Focus::CmdLog,
    }
}

pub open spec fn panel_focus(n: u8) -> Focus {
    if n == 0 {
        Focus::Status
    } else if n == 1 {
        Focus::Vaults
    } else if n == 2 {
        Focus::Items
    } else if n == 3 {
        Focus::List
    } else {
        Focus::CmdLog
    }
}

/// The login form's cursor moves; a check box is left alone.
pub open spec fn login_cursor_moved(b: App, a: App, k: FieldKey) -> bool {
    match b.active_field {
        LoginField::Email => a == (App {
            email_cursor: match k {
                FieldKey::Left => if b.email_cursor > 0 { (b.email_cursor - 1) as usize } else { 0 },
                FieldKey::Right => if b.email_cursor < b.email_input@.len() {
                    (b.email_cursor + 1) as usize
                } else {
                    b.email_cursor
                },
                FieldKey::Home => 0,
                _ => b.email_input@.len() as usize,
            },
            ..b
        }),
        LoginField::Password => a == (App {
            password_cursor: match k {
                FieldKey::Left => if b.password_cursor > 0 { (b.password_cursor - 1) as usize } else { 0 },
                FieldKey::Right => if b.password_cursor < b.password_input@.len() {
                    (b.password_cursor + 1) as usize
                } else {
                    b.password_cursor
                },
                FieldKey::Home => 0,
                _ => b.password_input@.len() as usize,
            },
            ..b
        }),
        _ => a == b,
    }
}

/// "Save email" flipped, with the settings write that goes with it.
pub open spec fn save_email_toggled(b: App, a: App, w: ConfigWrite) -> bool {
    &&& a == (App { save_email: !b.save_email, ..b })
    &&& if a.save_email {
        login_write(true, Some(b.email_input@), w)
    } else {
        login_write(false, None, w)
    }
}

pub open spec fn writes_auto_lock(w: ConfigWrite, on: bool) -> bool {
    match w {
        ConfigWrite::AutoLock(x) => x == on,
        _ => false,
    }
}

/// The selection moved up one item, scrolling to keep it visible.
pub open spec fn moved_up(b: App, a: App) -> bool {
    if b.selected_index == 0 {
        a == b
    } else {
        a == (App {
            selected_index: (b.selected_index - 1) as usize,
            scroll_offset: if b.selected_index - 1 < b.scroll_offset {
                (b.selected_index - 1) as usize
            } else {
                b.scroll_offset
            },
            ..b
        })
    }
}

/// The detail view opened on the selection, if anything is listed.
pub open spec fn detail_opened(b: App, a: App) -> bool {
    if b.listed().len() == 0 {
        a == b
    } else {
        a == (App { screen: Screen::Detail, show_password: false, detail_field: 0, ..b })
    }
}

/// A command that needs the selection did nothing without one, and queued
/// `p` behind the feedback `msg` with one.
pub open spec fn queued_on_selection(b: App, a: App, p: (int, Seq<char>, Seq<char>, bool), msg: Seq<char>) -> bool {
    if b.selected() is None {
        a == b
    } else {
        queued(b, a, p, msg)
    }
}

/// What each command does to the state `b`, giving `a` and the effects `fx`.
pub open spec fn performed(b: App, a: App, cmd: Command, fx: EventEffects) -> bool {
    &&& fx.locked == (cmd is LockVault)
    &&& match cmd {
        Command::ToggleSaveEmail | Command::ClickSaveEmail | Command::ToggleAutoLock | Command::ClickAutoLock
        | Command::LoginDeleteAt | Command::LoginDeleteBefore | Command::LoginType(_) => true,
        _ => fx.config is Nothing,
    }
    &&& match cmd {
        Command::Nothing => a == b,
        Command::Quit => a == (App { should_quit: true, ..b }),
        Command::NextLoginField => a == (App { active_field: next_login_field(b.active_field), ..b }),
        Command::PrevLoginField => a == (App { active_field: prev_login_field(b.active_field), ..b }),
        Command::SelectLoginField(f) => a == (App { active_field: f, ..b }),
        Command::ToggleSaveEmail => save_email_toggled(b, a, fx.config),
        Command::ClickSaveEmail => save_email_toggled(App { active_field: LoginField::SaveEmail, ..b }, a, fx.config),
        Command::ToggleAutoLock => a == (App { auto_lock: !b.auto_lock, ..b }) && writes_auto_lock(fx.config, !b.auto_lock),
        Command::ClickAutoLock => a == (App { active_field: LoginField::AutoLock, auto_lock: !b.auto_lock, ..b })
            && writes_auto_lock(fx.config, !b.auto_lock),
        Command::AttemptLogin => if trim_blank(b.email_input@) || b.password_input@.len() == 0 {
            a == (App { login_error: true, ..b })
        } else {
            queued(b, a, (1, Seq::empty(), Seq::empty(), false), "Logging in…"@)
        },
        Command::LoginCursorLeft => login_cursor_moved(b, a, FieldKey::Left),
        Command::LoginCursorRight => login_cursor_moved(b, a, FieldKey::Right),
        Command::LoginCursorHome => login_cursor_moved(b, a, FieldKey::Home),
        Command::LoginCursorEnd => login_cursor_moved(b, a, FieldKey::End),
        Command::LoginDeleteAt => deleted_login(App { login_error: false, ..b }, a, fx.config),
        Command::LoginDeleteBefore => backspaced_login(App { login_error: false, ..b }, a, fx.config),
        Command::LoginType(c) => typed_login(App { login_error: false, ..b }, a, c, fx.config),
        Command::FocusPanel(n) => if n <= 4 { a == (App { focus: panel_focus(n), ..b }) } else { a == b },
        Command::FocusOn(f) => a == (App { focus: f, ..b }),
        Command::SyncVault => queued(b, a, (4, Seq::empty(), Seq::empty(), false), "Syncing…"@),
        Command::LockVault => locked_vault(b, a),
        Command::CycleFocus => a == (App { focus: next_focus(b.focus), ..b }),
        Command::ShowHelp => a == (App { screen: Screen::Help, ..b }),
        Command::FilterDown => a == (App {
            filter_selected: if b.filter_selected < ITEM_FILTER_COUNT - 1 {
                (b.filter_selected + 1) as usize
            } else {
                b.filter_selected
            },
            ..b
        }),
        Command::FilterUp => a == (App {
            filter_selected: if b.filter_selected > 0 { (b.filter_selected - 1) as usize } else { 0 },
            ..b
        }),
        Command::ApplyFilter => a == (App {
            active_filter: filter_at(b.filter_selected as int),
            selected_index: 0,
            scroll_offset: 0,
            focus: Focus::List,
            ..b
        }),
        Command::ClearSearch => a.search_query@.len() == 0 && a == (App {
            search_query: a.search_query,
            focus: Focus::List,
            selected_index: 0,
            scroll_offset: 0,
            ..b
        }),
        Command::MoveDown => moved_down(b, a),
        Command::MoveUp => moved_up(b, a),
        Command::PageDown => paged_down(b, a),
        Command::PageUp => paged_up(b, a),
        Command::OpenFromSearch => if b.listed().len() > 0 {
            a == (App { screen: Screen::Detail, show_password: false, ..b })
        } else {
            a == b
        },
        Command::SearchBackspace => a.search_query@ == (if b.search_query@.len() > 0 {
            b.search_query@.drop_last()
        } else {
            b.search_query@
        }) && a == (App { search_query: a.search_query, selected_index: 0, scroll_offset: 0, ..b }),
        Command::SearchType(c) => a.search_query@ == b.search_query@.push(c) && a == (App {
            search_query: a.search_query,
            selected_index: 0,
            scroll_offset: 0,
            ..b
        }),
        Command::GoToDetail => detail_opened(b, a),
        Command::LogUp(n) => ({
            let max = if b.cmd_log@.len() > 0 { b.cmd_log@.len() - 1 } else { 0 };
            a == (App {
                cmd_log_scroll: if b.cmd_log_scroll + n <= max { (b.cmd_log_scroll + n) as usize } else { max as usize },
                ..b
            })
        }),
        Command::LogDown(n) => a == (App {
            cmd_log_scroll: if b.cmd_log_scroll >= n { (b.cmd_log_scroll - n) as usize } else { 0 },
            ..b
        }),
        Command::ConfirmDelete => if b.selected() is None {
            a == b
        } else {
            a == (App { screen: Screen::ConfirmDelete, ..b })
        },
        Command::CopyUsername => queued_on_selection(b, a, (2, Seq::empty(), Seq::empty(), false), "Copying user…"@),
        Command::CopyPassword => queued_on_selection(b, a, (3, Seq::empty(), Seq::empty(), false), "Copying pass…"@),
        Command::ToggleFavorite => queued_on_selection(b, a, (5, Seq::empty(), Seq::empty(), false), "Updating…"@),
        Command::OpenCreate => a.create_fields@.len() == 0 && a == (App {
            create_type_idx: 0,
            create_type: crate::fields::CreateItemType::Login,
            create_choosing_type: true,
            create_fields: a.create_fields,
            create_field_idx: 0,
            screen: Screen::Create,
            ..b
        }),
        Command::ClickListRow(v) => if b.selected_index == v {
            detail_opened(App { focus: Focus::List, ..b }, a)
        } else {
            a == (App { focus: Focus::List, selected_index: v, ..b })
        },
        Command::ClickFilter(i) => a == (App {
            focus: Focus::Items,
            filter_selected: i,
            active_filter: filter_at(i as int),
            selected_index: 0,
            scroll_offset: 0,
            ..b
        }),
        Command::LeaveEdit => a == (App { edit_mode: false, ..b }),
        Command::SaveEdit => queued(b, a, (8, Seq::empty(), Seq::empty(), false), "Saving…"@),
        Command::EditWrap(fwd) => a == (App {
            edit_field_idx: wrap_step(b.edit_field_idx as int, b.edit_fields@.len() as int, fwd) as usize,
            ..b
        }),
        Command::EditClamp(fwd) => a == (App {
            edit_field_idx: clamp_step(b.edit_field_idx as int, b.edit_fields@.len() as int, fwd) as usize,
            ..b
        }),
        Command::EditKey(k) => key_effect_at(b.edit_fields@, a.edit_fields@, b.edit_field_idx as int, k)
            && a == (App { edit_fields: a.edit_fields, ..b }),
        Command::LeaveDetail => a == back_from(App { show_password: false, detail_field: 0, ..b }),
        Command::DetailWrap(fwd) => a == (App {
            show_password: false,
            detail_field: wrap_step(b.detail_field as int, detail_total(b), fwd) as usize,
            ..b
        }),
        Command::DetailClamp(fwd) => a == (App {
            show_password: false,
            detail_field: clamp_step(b.detail_field as int, detail_total(b), fwd) as usize,
            ..b
        }),
        Command::ToggleShowPassword => a == (App { show_password: !b.show_password, ..b }),
        Command::CopyField => copied_field(b, a),
        Command::EnterEdit => entered_edit(b, a),
        Command::ClickDetailField(i) => if i == b.detail_field {
            a == (App { show_password: !b.show_password, ..b })
        } else {
            a == (App { show_password: false, detail_field: i, ..b })
        },
        Command::ScrollDetail(down) => if down && b.detail_field + 1 < detail_total(b) {
            a == (App { show_password: false, detail_field: (b.detail_field + 1) as usize, ..b })
        } else if !down && b.detail_field > 0 {
            a == (App { show_password: false, detail_field: (b.detail_field - 1) as usize, ..b })
        } else {
            a == b
        },
        Command::GoBack => a == back_from(b),
        Command::SelectType => selected_type(b, a),
        Command::TypeWrap(fwd) => a == (App {
            create_type_idx: wrap_step(b.create_type_idx as int, CREATE_ITEM_TYPE_COUNT as int, fwd) as usize,
            ..b
        }),
        Command::TypeClamp(fwd) => a == (App {
            create_type_idx: clamp_step(b.create_type_idx as int, CREATE_ITEM_TYPE_COUNT as int, fwd) as usize,
            ..b
        }),
        Command::QueueCreate => queued_create(b, a),
        Command::CreateWrap(fwd) => a == (App {
            create_field_idx: wrap_step(b.create_field_idx as int, b.create_fields@.len() as int, fwd) as usize,
            ..b
        }),
        Command::CreateClamp(fwd) => a == (App {
            create_field_idx: clamp_step(b.create_field_idx as int, b.create_fields@.len() as int, fwd) as usize,
            ..b
        }),
        Command::CreateKey(k) => key_effect_at(b.create_fields@, a.create_fields@, b.create_field_idx as int, k)
            && a == (App { create_fields: a.create_fields, ..b }),
        Command::CancelDelete => a == (App { screen: Screen::Vault, ..b }),
        Command::DeleteItem(permanent) => queued(
            App { screen: Screen::Vault, ..b },
            a,
            (10, Seq::empty(), Seq::empty(), permanent),
            if permanent { "Deleting…"@ } else { "Trashing…"@ },
        ),
    }
}

pub open spec fn trim_blank(s: Seq<char>) -> bool {
    crate::text::trim(s).len() == 0
}

/// The command can be carried out on `b` without overflow or a bad index.
pub open spec fn command_ok(b: App, cmd: Command) -> bool {
    match cmd {
        Command::LoginType(_) => (b.active_field == LoginField::Email ==> b.email_cursor < usize::MAX)
            && (b.active_field == LoginField::Password ==> b.password_cursor < usize::MAX),
        Command::LoginDeleteBefore => (b.active_field == LoginField::Email && b.email_cursor > 0
            ==> b.email_input@.len() > 0) && (b.active_field == LoginField::Password && b.password_cursor > 0
            ==> b.password_input@.len() > 0),
        Command::MoveDown => b.scroll_offset + LIST_ROWS <= usize::MAX,
        Command::PageDown => b.scroll_offset + LIST_ROWS + 10 <= usize::MAX,
        Command::ApplyFilter => b.filter_selected < ITEM_FILTER_COUNT,
        Command::ClickFilter(i) => i < ITEM_FILTER_COUNT,
        Command::LogUp(n) => b.cmd_log_scroll + n <= usize::MAX,
        Command::EditWrap(_) => b.edit_field_idx + b.edit_fields@.len() <= usize::MAX,
        Command::EditClamp(_) => b.edit_field_idx < usize::MAX,
        Command::EditKey(k) => key_ok_at(b.edit_fields@, b.edit_field_idx as int, k),
        Command::DetailWrap(_) => b.detail_field + detail_total(b) <= usize::MAX,
        Command::DetailClamp(_) | Command::ScrollDetail(_) => b.detail_field < usize::MAX,
        Command::SelectType => b.create_type_idx < CREATE_ITEM_TYPE_COUNT,
        Command::TypeWrap(_) => b.create_type_idx + CREATE_ITEM_TYPE_COUNT <= usize::MAX,
        Command::TypeClamp(_) => b.create_type_idx < usize::MAX,
        Command::CreateWrap(_) => b.create_field_idx + b.create_fields@.len() <= usize::MAX,
        Command::CreateClamp(_) => b.create_field_idx < usize::MAX,
        Command::CreateKey(k) => key_ok_at(b.create_fields@, b.create_field_idx as int, k),
        _ => true,
    }
}


fn no_effects() -> (fx: EventEffects)
    ensures
        fx.config is Nothing,
        !fx.locked,
{
    EventEffects { config: ConfigWrite::Nothing, locked: false }
}

fn config_effect(w: ConfigWrite) -> (fx: EventEffects)
    ensures
        fx.config == w,
        !fx.locked,
{
    EventEffects { config: w, locked: false }
}

#[verifier::rlimit(50)]
fn run_login_command(app: &mut App, cmd: Command) -> (fx: EventEffects)
    requires
        command_ok(*old(app), cmd),
        match cmd {
            Command::NextLoginField | Command::PrevLoginField | Command::SelectLoginField(_)
            | Command::ToggleSaveEmail | Command::ClickSaveEmail | Command::ToggleAutoLock
            | Command::ClickAutoLock | Command::AttemptLogin
            | Command::LoginCursorLeft | Command::LoginCursorRight | Command::LoginCursorHome
            | Command::LoginCursorEnd | Command::LoginDeleteAt | Command::LoginDeleteBefore
            | Command::LoginType(_) => true,
            _ => false,
        },
    ensures
        performed(*old(app), *final(app), cmd, fx),
{
    match cmd {
        Command::NextLoginField => {
            app.active_field = match app.active_field {
                LoginField::Email => LoginField::Password,
                LoginField::Password => LoginField::SaveEmail,
                LoginField::SaveEmail => LoginField::AutoLock,
                LoginField::AutoLock => LoginField::Email,
            };
            no_effects()
        },
        Command::PrevLoginField => {
            app.active_field = match app.active_field {
                LoginField::AutoLock => LoginField::SaveEmail,
                LoginField::SaveEmail => LoginField::Password,
                LoginField::Password => LoginField::Email,
                LoginField::Email => LoginField::AutoLock,
            };
            no_effects()
        },
        Command::SelectLoginField(f) => {
            app.active_field = f;
            no_effects()
        },
        Command::ToggleSaveEmail => config_effect(app.toggle_save_email()),
        Command::ClickSaveEmail => {
            app.active_field = LoginField::SaveEmail;
            config_effect(app.toggle_save_email())
        },
        Command::ToggleAutoLock => {
            app.auto_lock = !app.auto_lock;
            config_effect(ConfigWrite::AutoLock(app.auto_lock))
        },
        Command::ClickAutoLock => {
            app.active_field = LoginField::AutoLock;
            app.auto_lock = !app.auto_lock;
            config_effect(ConfigWrite::AutoLock(app.auto_lock))
        },
        Command::AttemptLogin => {
            app.attempt_login();
            no_effects()
        },
        Command::LoginCursorLeft => {
            app.cursor_left();
            no_effects()
        },
        Command::LoginCursorRight => {
            app.cursor_right();
            no_effects()
        },
        Command::LoginCursorHome => {
            app.cursor_home();
            no_effects()
        },
        Command::LoginCursorEnd => {
            app.cursor_end();
            no_effects()
        },
        Command::LoginDeleteAt => {
            app.clear_login_error();
            config_effect(app.delete_char_at())
        },
        Command::LoginDeleteBefore => {
            app.clear_login_error();
            config_effect(app.delete_char_before())
        },
        Command::LoginType(c) => {
            app.clear_login_error();
            config_effect(app.insert_char(c))
        },
        _ => no_effects(),
    }
}


fn pop_search(app: &mut App)
    ensures
        final(app).search_query@ == (if old(app).search_query@.len() > 0 {
            old(app).search_query@.drop_last()
        } else {
            old(app).search_query@
        }),
        *final(app) == (App { search_query: final(app).search_query, ..*old(app) }),
{
    let mut v = to_chars(app.search_query.as_str());
    if v.len() > 0 {
        v.pop();
    }
    app.search_query = from_chars(&v);
}

#[verifier::rlimit(50)]
fn run_vault_command(app: &mut App, cmd: Command) -> (fx: EventEffects)
    requires
        command_ok(*old(app), cmd),
        match cmd {
            Command::FocusPanel(_) | Command::FocusOn(_) | Command::SyncVault | Command::LockVault
            | Command::CycleFocus | Command::ShowHelp | Command::FilterDown | Command::FilterUp
            | Command::ApplyFilter | Command::ClearSearch | Command::MoveDown | Command::MoveUp
            | Command::PageDown | Command::PageUp | Command::OpenFromSearch | Command::SearchBackspace
            | Command::SearchType(_) | Command::GoToDetail | Command::LogUp(_) | Command::LogDown(_)
            | Command::ConfirmDelete | Command::CopyUsername | Command::CopyPassword
            | Command::ToggleFavorite | Command::OpenCreate | Command::ClickListRow(_)
            | Command::ClickFilter(_) => true,
            _ => false,
        },
    ensures
        performed(*old(app), *final(app), cmd, fx),
{
    match cmd {
        Command::FocusPanel(n) => app.focus_panel(n),
        Command::FocusOn(f) => app.focus = f,
        Command::SyncVault => app.sync_vault(),
        Command::LockVault => {
            app.lock_vault();
            return EventEffects { config: ConfigWrite::Nothing, locked: true };
        },
        Command::CycleFocus => app.cycle_focus(),
        Command::ShowHelp => app.screen = Screen::Help,
        Command::FilterDown => app.filter_move_down(),
        Command::FilterUp => app.filter_move_up(),
        Command::ApplyFilter => app.apply_filter(),
        Command::ClearSearch => app.clear_search(),
        Command::MoveDown => app.move_down(),
        Command::MoveUp => app.move_up(),
        Command::PageDown => app.move_down_page(),
        Command::PageUp => app.move_up_page(),
        Command::OpenFromSearch => {
            if app.filtered_len() > 0 {
                app.screen = Screen::Detail;
                app.show_password = false;
            }
        },
        Command::SearchBackspace => {
            pop_search(app);
            app.perform_search();
        },
        Command::SearchType(c) => {
            string_push(&mut app.search_query, c);
            app.perform_search();
        },
        Command::GoToDetail => app.go_to_detail(),
        Command::LogUp(n) => app.cmd_log_scroll_up(n),
        Command::LogDown(n) => app.cmd_log_scroll_down(n),
        Command::ConfirmDelete => app.open_confirm_delete(),
        Command::CopyUsername => app.copy_username_to_clipboard(),
        Command::CopyPassword => app.copy_password_to_clipboard(),
        Command::ToggleFavorite => app.toggle_favorite(),
        Command::OpenCreate => app.open_create(),
        Command::ClickListRow(v) => {
            app.focus = Focus::List;
            if app.selected_index == v {
                app.go_to_detail();
            } else {
                app.selected_index = v;
            }
        },
        Command::ClickFilter(i) => {
            app.focus = Focus::Items;
            app.filter_selected = i;
            app.active_filter = crate::search::item_filter(i);
            app.selected_index = 0;
            app.scroll_offset = 0;
        },
        _ => {},
    }
    no_effects()
}


/// The commands of the detail screen, and Quit.
pub open spec fn detail_group(cmd: Command) -> bool {
    match cmd {
        Command::Nothing | Command::Quit | Command::LeaveEdit | Command::SaveEdit | Command::EditWrap(_)
        | Command::EditClamp(_) | Command::EditKey(_) | Command::LeaveDetail | Command::DetailWrap(_)
        | Command::DetailClamp(_) | Command::ToggleShowPassword | Command::CopyField
        | Command::EnterEdit | Command::ClickDetailField(_) | Command::ScrollDetail(_) => true,
        _ => false,
    }
}

#[verifier::rlimit(50)]
fn run_edit_command(app: &mut App, cmd: Command) -> (fx: EventEffects)
    requires
        command_ok(*old(app), cmd),
        match cmd {
            Command::Nothing | Command::Quit | Command::LeaveEdit | Command::SaveEdit
            | Command::EditWrap(_) | Command::EditClamp(_) | Command::EditKey(_) => true,
            _ => false,
        },
    ensures
        performed(*old(app), *final(app), cmd, fx),
{
    match cmd {
        Command::Quit => app.should_quit = true,
        Command::LeaveEdit => app.edit_mode = false,
        Command::SaveEdit => app.queue_save_edit(),
        Command::EditWrap(fwd) => {
            let n = app.edit_fields.len();
            nav_wrap(&mut app.edit_field_idx, n, fwd);
        },
        Command::EditClamp(fwd) => {
            let n = app.edit_fields.len();
            nav_clamp(&mut app.edit_field_idx, n, fwd);
        },
        Command::EditKey(k) => app.edit_key(k),
        _ => {},
    }
    no_effects()
}

#[verifier::rlimit(50)]
fn run_detail_nav(app: &mut App, cmd: Command) -> (fx: EventEffects)
    requires
        command_ok(*old(app), cmd),
        match cmd {
            Command::DetailWrap(_) | Command::DetailClamp(_) | Command::ScrollDetail(_) => true,
            _ => false,
        },
    ensures
        performed(*old(app), *final(app), cmd, fx),
{
    let n = app.detail_field_count();
    match cmd {
        Command::DetailWrap(fwd) => {
            app.show_password = false;
            nav_wrap(&mut app.detail_field, n, fwd);
        },
        Command::DetailClamp(fwd) => {
            app.show_password = false;
            nav_clamp(&mut app.detail_field, n, fwd);
        },
        Command::ScrollDetail(down) => {
            if down {
                if app.detail_field + 1 < n {
                    app.show_password = false;
                    app.detail_field = app.detail_field + 1;
                }
            } else {
                if app.detail_field > 0 {
                    app.show_password = false;
                    app.detail_field = app.detail_field - 1;
                }
            }
        },
        _ => {},
    }
    no_effects()
}

#[verifier::rlimit(50)]
fn run_detail_command(app: &mut App, cmd: Command) -> (fx: EventEffects)
    requires
        command_ok(*old(app), cmd),
        detail_group(cmd),
    ensures
        performed(*old(app), *final(app), cmd, fx),
{
    match cmd {
        Command::LeaveDetail => {
            app.show_password = false;
            app.detail_field = 0;
            app.go_back();
        },
        Command::ToggleShowPassword => app.show_password = !app.show_password,
        Command::CopyField => app.copy_selected_field(),
        Command::EnterEdit => app.enter_edit_mode(),
        Command::ClickDetailField(i) => {
            if i == app.detail_field {
                app.show_password = !app.show_password;
            } else {
                app.show_password = false;
                app.detail_field = i;
            }
        },
        Command::DetailWrap(_) | Command::DetailClamp(_) | Command::ScrollDetail(_) => {
            return run_detail_nav(app, cmd);
        },
        _ => {
            return run_edit_command(app, cmd);
        },
    }
    no_effects()
}

#[verifier::rlimit(50)]
fn run_create_command(app: &mut App, cmd: Command) -> (fx: EventEffects)
    requires
        command_ok(*old(app), cmd),
        !detail_group(cmd),
        !login_or_vault(cmd),
    ensures
        performed(*old(app), *final(app), cmd, fx),
{
    match cmd {
        Command::GoBack => app.go_back(),
        Command::SelectType => app.create_select_type(),
        Command::TypeWrap(fwd) => nav_wrap(&mut app.create_type_idx, CREATE_ITEM_TYPE_COUNT, fwd),
        Command::TypeClamp(fwd) => nav_clamp(&mut app.create_type_idx, CREATE_ITEM_TYPE_COUNT, fwd),
        Command::QueueCreate => app.queue_create_item(),
        Command::CreateWrap(fwd) => {
            let n = app.create_fields.len();
            nav_wrap(&mut app.create_field_idx, n, fwd);
        },
        Command::CreateClamp(fwd) => {
            let n = app.create_fields.len();
            nav_clamp(&mut app.create_field_idx, n, fwd);
        },
        Command::CreateKey(k) => app.create_key(k),
        Command::CancelDelete => app.screen = Screen::Vault,
        Command::DeleteItem(permanent) => app.queue_delete_item(permanent),
        _ => {},
    }
    no_effects()
}

fn run_form_command(app: &mut App, cmd: Command) -> (fx: EventEffects)
    requires
        command_ok(*old(app), cmd),
        !login_or_vault(cmd),
    ensures
        performed(*old(app), *final(app), cmd, fx),
{
    if is_detail_group(&cmd) {
        run_detail_command(app, cmd)
    } else {
        run_create_command(app, cmd)
    }
}

fn is_detail_group(cmd: &Command) -> (b: bool)
    ensures
        b == detail_group(*cmd),
{
    match cmd {
        Command::Nothing | Command::Quit | Command::LeaveEdit | Command::SaveEdit | Command::EditWrap(_)
        | Command::EditClamp(_) | Command::EditKey(_) | Command::LeaveDetail | Command::DetailWrap(_)
        | Command::DetailClamp(_) | Command::ToggleShowPassword | Command::CopyField
        | Command::EnterEdit | Command::ClickDetailField(_) | Command::ScrollDetail(_) => true,
        _ => false,
    }
}

/// The commands of the login and vault screens.
pub open spec fn login_or_vault(cmd: Command) -> bool {
    match cmd {
        Command::NextLoginField | Command::PrevLoginField | Command::SelectLoginField(_)
        | Command::ToggleSaveEmail | Command::ClickSaveEmail | Command::ToggleAutoLock
        | Command::ClickAutoLock | Command::AttemptLogin
        | Command::LoginCursorLeft | Command::LoginCursorRight | Command::LoginCursorHome
        | Command::LoginCursorEnd | Command::LoginDeleteAt | Command::LoginDeleteBefore
        | Command::LoginType(_) | Command::FocusPanel(_) | Command::FocusOn(_) | Command::SyncVault
        | Command::LockVault | Command::CycleFocus | Command::ShowHelp | Command::FilterDown
        | Command::FilterUp | Command::ApplyFilter | Command::ClearSearch | Command::MoveDown
        | Command::MoveUp | Command::PageDown | Command::PageUp | Command::OpenFromSearch
        | Command::SearchBackspace | Command::SearchType(_) | Command::GoToDetail | Command::LogUp(_)
        | Command::LogDown(_) | Command::ConfirmDelete | Command::CopyUsername
        | Command::CopyPassword | Command::ToggleFavorite | Command::OpenCreate
        | Command::ClickListRow(_) | Command::ClickFilter(_) => true,
        _ => false,
    }
}

fn run_vault_or_login(app: &mut App, cmd: Command) -> (fx: EventEffects)
    requires
        command_ok(*old(app), cmd),
    ensures
        performed(*old(app), *final(app), cmd, fx),
{
    match cmd {
        Command::NextLoginField | Command::PrevLoginField | Command::SelectLoginField(_)
        | Command::ToggleSaveEmail | Command::ClickSaveEmail | Command::ToggleAutoLock
        | Command::ClickAutoLock | Command::AttemptLogin
        | Command::LoginCursorLeft | Command::LoginCursorRight | Command::LoginCursorHome
        | Command::LoginCursorEnd | Command::LoginDeleteAt | Command::LoginDeleteBefore
        | Command::LoginType(_) => run_login_command(app, cmd),
        Command::FocusPanel(_) | Command::FocusOn(_) | Command::SyncVault | Command::LockVault
        | Command::CycleFocus | Command::ShowHelp | Command::FilterDown | Command::FilterUp
        | Command::ApplyFilter | Command::ClearSearch | Command::MoveDown | Command::MoveUp
        | Command::PageDown | Command::PageUp | Command::OpenFromSearch | Command::SearchBackspace
        | Command::SearchType(_) | Command::GoToDetail | Command::LogUp(_) | Command::LogDown(_)
        | Command::ConfirmDelete | Command::CopyUsername | Command::CopyPassword
        | Command::ToggleFavorite | Command::OpenCreate | Command::ClickListRow(_)
        | Command::ClickFilter(_) => run_vault_command(app, cmd),
        _ => run_form_command(app, cmd),
    }
}

/// Carries out a command, and says what the caller must do after it.
pub fn run_command(app: &mut App, cmd: Command) -> (fx: EventEffects)
    requires
        command_ok(*old(app), cmd),
    ensures
        performed(*old(app), *final(app), cmd, fx),
{
    run_vault_or_login(app, cmd)
}


// ── Events ────────────────────────────────────────────────────────────────

/// The state a mouse event is decided on: a left click is first recorded
/// as the last click.
pub open spec fn clicked(b: App, m: MouseEvent) -> App {
    if m.kind == MouseKind::LeftDown {
        App { last_click: Some((m.column, m.row)), ..b }
    } else {
        b
    }
}

/// The event can be handled on `b`: the recorded panel areas are sound, and
/// the command it means can be carried out.
pub open spec fn event_ok(b: App, ev: Event) -> bool {
    match ev {
        Event::Key(k) => command_ok(b, key_command(b, k)),
        Event::Mouse(m) => {
            &&& b.mouse_areas.wf()
            &&& (m.kind == MouseKind::LeftDown && b.screen == Screen::Vault ==> list_click_fits(b, m.column, m.row))
            &&& command_ok(clicked(b, m), mouse_command(clicked(b, m), m))
        },
        Event::Other => true,
    }
}

/// Handles one input event: decides what it means on the current screen
/// and carries it out. The caller then writes the settings as the effects
/// say, and runs `bw lock` when the vault was locked.
pub fn handle_events(app: &mut App, ev: Event) -> (fx: EventEffects)
    requires
        event_ok(*old(app), ev),
    ensures
        match ev {
            Event::Key(k) => performed(*old(app), *final(app), key_command(*old(app), k), fx),
            Event::Mouse(m) => performed(
                clicked(*old(app), m),
                *final(app),
                mouse_command(clicked(*old(app), m), m),
                fx,
            ),
            Event::Other => *final(app) == *old(app) && fx.config is Nothing && !fx.locked,
        },
{
    match ev {
        Event::Key(k) => {
            let cmd = key_command_of(app, &k);
            run_command(app, cmd)
        },
        Event::Mouse(m) => {
            if m.kind == MouseKind::LeftDown {
                app.last_click = Some((m.column, m.row));
            }
            let cmd = mouse_command_of(app, &m);
            run_command(app, cmd)
        },
        Event::Other => no_effects(),
    }
}


// ── Laws of the key map ───────────────────────────────────────────────────

/// Ctrl+C quits on every screen.
pub proof fn law_ctrl_c_quits(a: App, k: KeyEvent)
    requires
        k.pressed,
        k.code == KeyCode::Char('c'),
        k.modifiers == MOD_CONTROL,
    ensures
        key_command(a, k) == Command::Quit,
{
}

/// Only key presses count: a repeat or a release does nothing.
pub proof fn law_only_presses_count(a: App, k: KeyEvent)
    requires
        !k.pressed,
    ensures
        key_command(a, k) == Command::Nothing,
{
}

/// Tab cycles the login form through its four parts and back; Shift+Tab
/// goes the other way, undoing Tab.
pub proof fn law_login_tab_cycles(f: LoginField)
    ensures
        next_login_field(next_login_field(next_login_field(next_login_field(f)))) == f,
        prev_login_field(next_login_field(f)) == f,
        next_login_field(prev_login_field(f)) == f,
{
}

/// While the search box has the focus, the digits are typed into it
/// instead of switching panels.
pub proof fn law_digits_type_in_search(a: App, k: KeyEvent, d: char)
    requires
        a.focus == Focus::Search,
        k.code == KeyCode::Char(d),
        '0' <= d <= '4',
        k.modifiers == MOD_NONE,
    ensures
        vault_command(a, k) == Command::SearchType(d),
{
    let m = k.modifiers;
    assert(m & 4u8 == 0u8) by (bit_vector)
        requires
            m == 0u8,
    ;
}

/// Outside the search box, a digit from 0 to 4 focuses its panel.
pub proof fn law_digits_focus_panels(a: App, k: KeyEvent, d: char)
    requires
        a.focus != Focus::Search,
        k.code == KeyCode::Char(d),
        '0' <= d <= '4',
        k.modifiers == MOD_NONE,
    ensures
        vault_command(a, k) == Command::FocusPanel((d as u32 - '0' as u32) as u8),
{
}

/// The Alt shortcuts of the vault list work the same in the search box.
pub proof fn law_alt_shortcuts_in_search(a: App, k: KeyEvent, c: char)
    requires
        alt(k),
        k.code == KeyCode::Char(c),
        c == 'q' || c == 'd' || c == 'u' || c == 'c' || c == 'f' || c == 'n',
    ensures
        vault_command(App { focus: Focus::Search, ..a }, k) == vault_command(App { focus: Focus::List, ..a }, k),
        vault_command(App { focus: Focus::List, ..a }, k) == alt_command(k.code),
{
    let m = k.modifiers;
    assert(m != 0u8) by (bit_vector)
        requires
            m & 4u8 != 0u8,
    ;
}

/// On the vault list and in the search box, each Alt shortcut does its own
/// thing: Alt+U copies the username, Alt+C the password, Alt+F toggles the
/// favorite, Alt+N opens the create form, Alt+D asks to delete, Alt+S syncs,
/// Alt+L and Alt+Q lock the vault.
pub proof fn law_vault_alt_shortcuts(a: App, k: KeyEvent)
    requires
        a.screen == Screen::Vault,
        a.focus == Focus::List || a.focus == Focus::Search,
        k.pressed,
        alt(k),
    ensures
        k.code == KeyCode::Char('u') ==> key_command(a, k) == Command::CopyUsername,
        k.code == KeyCode::Char('c') ==> key_command(a, k) == Command::CopyPassword,
        k.code == KeyCode::Char('f') ==> key_command(a, k) == Command::ToggleFavorite,
        k.code == KeyCode::Char('n') ==> key_command(a, k) == Command::OpenCreate,
        k.code == KeyCode::Char('d') ==> key_command(a, k) == Command::ConfirmDelete,
        k.code == KeyCode::Char('s') ==> key_command(a, k) == Command::SyncVault,
        k.code == KeyCode::Char('l') ==> key_command(a, k) == Command::LockVault,
        k.code == KeyCode::Char('q') ==> key_command(a, k) == Command::LockVault,
{
    let m = k.modifiers;
    assert(m != 0u8 && m != 2u8) by (bit_vector)
        requires
            m & 4u8 != 0u8,
    ;
}

/// With an item selected on the vault list, Alt+C queues copying its
/// password and Alt+U copying its username.
pub proof fn law_alt_copy_queues(b: App, a: App, k: KeyEvent, fx: EventEffects)
    requires
        b.screen == Screen::Vault,
        b.focus == Focus::List || b.focus == Focus::Search,
        k.pressed,
        alt(k),
        b.selected() is Some,
        performed(b, a, key_command(b, k), fx),
    ensures
        k.code == KeyCode::Char('c') ==> a.pending_action is CopyPassword,
        k.code == KeyCode::Char('u') ==> a.pending_action is CopyUsername,
{
    law_vault_alt_shortcuts(b, k);
}

/// On the detail view (not editing), Alt+C copies the selected field, Alt+E
/// starts editing, Alt+D asks to delete.
pub proof fn law_detail_alt_shortcuts(a: App, k: KeyEvent)
    requires
        a.screen == Screen::Detail,
        !a.edit_mode,
        k.pressed,
        alt(k),
    ensures
        k.code == KeyCode::Char('c') ==> key_command(a, k) == Command::CopyField,
        k.code == KeyCode::Char('e') ==> key_command(a, k) == Command::EnterEdit,
        k.code == KeyCode::Char('d') ==> key_command(a, k) == Command::ConfirmDelete,
{
    let m = k.modifiers;
    assert(m != 0u8 && m != 2u8) by (bit_vector)
        requires
            m & 4u8 != 0u8,
    ;
}

/// Moving between detail fields, by key or by wheel, hides a revealed
/// value again.
pub proof fn law_moving_rehides(b: App, a: App, fwd: bool, fx: EventEffects)
    requires
        performed(b, a, Command::DetailWrap(fwd), fx) || performed(b, a, Command::DetailClamp(fwd), fx),
    ensures
        !a.show_password,
{
}

/// Esc in edit mode leaves it and changes nothing else: no edit is saved.
pub proof fn law_escape_discards_edit(b: App, a: App, fx: EventEffects)
    requires
        b.screen == Screen::Detail,
        b.edit_mode,
        performed(b, a, key_command(b, KeyEvent { code: KeyCode::Esc, modifiers: MOD_NONE, pressed: true }), fx),
    ensures
        a == (App { edit_mode: false, ..b }),
        fx.config is Nothing && !fx.locked,
{
}


// ── Checking an event before handling it ──────────────────────────────────

fn rect_fits(r: Option<crate::app::Rect>) -> (b: bool)
    ensures
        b == crate::app::opt_wf(r),
{
    match r {
        Some(r) => (r.x as u32) + (r.width as u32) <= 65535 && (r.y as u32) + (r.height as u32) <= 65535
            && r.y < 65535,
        None => true,
    }
}

/// Whether the recorded panel areas are sound.
pub fn areas_fit(app: &App) -> (b: bool)
    ensures
        b == app.mouse_areas.wf(),
{
    let m = &app.mouse_areas;
    rect_fits(m.status) && rect_fits(m.search) && rect_fits(m.vaults) && rect_fits(m.items)
        && rect_fits(m.list) && rect_fits(m.cmdlog) && rect_fits(m.detail) && rect_fits(m.login)
}

fn field_key_fits(fields: &Vec<crate::fields::EditField>, idx: usize, k: FieldKey) -> (b: bool)
    ensures
        b == key_ok_at(fields@, idx as int, k),
{
    if idx >= fields.len() {
        return true;
    }
    let f = &fields[idx];
    match k {
        FieldKey::Insert(_) => f.cursor < usize::MAX,
        FieldKey::DeleteBefore => f.read_only || f.cursor == 0 || f.cursor <= crate::text::char_count(f.value.as_str()),
        _ => true,
    }
}

/// Whether the command can be carried out (see `command_ok`).
pub fn command_fits(app: &App, cmd: &Command) -> (b: bool)
    ensures
        b == command_ok(*app, *cmd),
{
    match cmd {
        Command::LoginType(_) => (app.active_field != LoginField::Email || app.email_cursor < usize::MAX)
            && (app.active_field != LoginField::Password || app.password_cursor < usize::MAX),
        Command::LoginDeleteBefore => !(app.active_field == LoginField::Email && app.email_cursor > 0
            && app.email_input.as_str().is_empty()) && !(app.active_field == LoginField::Password
            && app.password_cursor > 0 && app.password_input.as_str().is_empty()),
        Command::MoveDown => app.scroll_offset <= usize::MAX - LIST_ROWS,
        Command::PageDown => app.scroll_offset <= usize::MAX - LIST_ROWS - 10,
        Command::ApplyFilter => app.filter_selected < ITEM_FILTER_COUNT,
        Command::ClickFilter(i) => *i < ITEM_FILTER_COUNT,
        Command::LogUp(n) => app.cmd_log_scroll <= usize::MAX - *n,
        Command::EditWrap(_) => app.edit_field_idx <= usize::MAX - app.edit_fields.len(),
        Command::EditClamp(_) => app.edit_field_idx < usize::MAX,
        Command::EditKey(k) => field_key_fits(&app.edit_fields, app.edit_field_idx, *k),
        Command::DetailWrap(_) => app.detail_field <= usize::MAX - app.detail_field_count(),
        Command::DetailClamp(_) | Command::ScrollDetail(_) => app.detail_field < usize::MAX,
        Command::SelectType => app.create_type_idx < CREATE_ITEM_TYPE_COUNT,
        Command::TypeWrap(_) => app.create_type_idx <= usize::MAX - CREATE_ITEM_TYPE_COUNT,
        Command::TypeClamp(_) => app.create_type_idx < usize::MAX,
        Command::CreateWrap(_) => app.create_field_idx <= usize::MAX - app.create_fields.len(),
        Command::CreateClamp(_) => app.create_field_idx < usize::MAX,
        Command::CreateKey(k) => field_key_fits(&app.create_fields, app.create_field_idx, *k),
        _ => true,
    }
}

fn list_click_fits_exec(app: &App, col: u16, row: u16) -> (b: bool)
    requires
        app.mouse_areas.wf(),
    ensures
        b == list_click_fits(*app, col, row),
{
    match app.mouse_areas.focus_for(col, row) {
        Some(Focus::List) => match app.mouse_areas.list_row(row) {
            Some(ri) => app.scroll_offset <= usize::MAX - ri,
            None => true,
        },
        _ => true,
    }
}

/// Whether the event can be handled (see `event_ok`): a caller that gets
/// `false` must not call `handle_events`.
pub fn event_fits(app: &App, ev: &Event) -> (b: bool)
    ensures
        b == event_ok(*app, *ev),
{
    match ev {
        Event::Key(k) => {
            let cmd = key_command_of(app, k);
            command_fits(app, &cmd)
        },
        Event::Mouse(m) => {
            if !areas_fit(app) {
                return false;
            }
            if m.kind == MouseKind::LeftDown && app.screen == Screen::Vault && !list_click_fits_exec(app, m.column, m.row) {
                return false;
            }
            let cmd = mouse_command_of(app, m);
            proof {
                let mid = clicked(*app, *m);
                assert(mid.listed() == app.listed());
                assert(mid.selected() == app.selected());
                assert(detail_total(mid) == detail_total(*app));
                assert(mouse_command(mid, *m) == mouse_command(*app, *m));
            }
            command_fits(app, &cmd)
        },
        Event::Other => true,
    }
}

} // verus!
