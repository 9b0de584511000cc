//! The application state: screens, focus, the vault list and its selection,
//! the login form, the command log, and the action feedback.
use vstd::prelude::*;
use crate::text::{
    replace_all, to_chars, from_chars, owned, char_count, concat, insert_at, replace_chars,
    trim, trim_str,
};
use crate::model::{Item, opt_view};
use crate::client::BwClient;
use crate::fields::{
    EditField, CreateItemType, FieldKey, key_ok_at, key_effect_at, apply_key_at, CopyWhat,
    CopyTarget, detail_entries, detail_count, detail_count_of, build_detail_fields,
    build_edit_fields, build_create_fields, edit_views, field_views, all_fresh, create_views,
    create_type_at, create_item_type, CREATE_ITEM_TYPE_COUNT,
};
use crate::search::{
    ItemFilter, ITEM_FILTER_COUNT, filter_at, item_filter, listed, listed_positions, sort_by_name,
    sorted_by_name,
};
use crate::model::{BwStatusInfo, VaultStatus};
use crate::text::{byte_len, byte_length, decimal, decimal_string, concat3, concat4};

verus! {

#[derive(Debug, Clone, PartialEq, Eq, Structural)]
pub enum Screen {
    Login,
    Vault,
    Detail,
    Help,
    Create,
    ConfirmDelete,
}

/// The panels of the vault screen.
#[derive(Debug, Clone, PartialEq, Eq, Structural)]
pub enum Focus {
    Status,
    Search,
    Vaults,
    Items,
    List,
    CmdLog,
}

/// The parts of the login form.
#[derive(Debug, Clone, PartialEq, Eq, Structural)]
pub enum LoginField {
    Email,
    Password,
    SaveEmail,
    AutoLock,
}

/// The feedback shown for the last action.
#[derive(Debug, Clone)]
pub enum ActionState {
    Idle,
    Running(String),
    Done(String),
    Error(String),
}

/// A `bw` operation queued to run after the next frame is drawn.
#[derive(Debug, Clone)]
pub enum PendingAction {
    Nothing,
    Login,
    CopyUsername,
    CopyPassword,
    SyncVault,
    ToggleFavorite,
    /// Copy the text, then announce the message.
    CopyRaw(String, String),
    /// Copy the current TOTP code of the item with this id.
    CopyTotp(String),
    SaveEdit,
    CreateItem,
    DeleteItem { permanent: bool },
}

/// One entry of the command log.
#[derive(Debug, Clone)]
pub struct CmdEntry {
    pub cmd: String,
    pub ok: bool,
    pub detail: String,
}

/// A screen rectangle; it never reaches past the last terminal cell, and
/// its top row is not the last one.
#[derive(Debug, Clone, Copy, PartialEq, Eq, Structural)]
pub struct Rect {
    pub x: u16,
    pub y: u16,
    pub width: u16,
    pub height: u16,
}

impl Rect {
    pub open spec fn wf(self) -> bool {
        self.x + self.width <= u16::MAX && self.y + self.height <= u16::MAX && self.y < u16::MAX
    }
}

/// The cell lies inside the rectangle.
pub open spec fn inside(r: Rect, col: u16, row: u16) -> bool {
    r.x <= col < r.x + r.width && r.y <= row < r.y + r.height
}

/// Whether the cell at `col`, `row` lies inside `r`.
pub fn rect_contains(r: Rect, col: u16, row: u16) -> (b: bool)
    requires
        r.wf(),
    ensures
        b == inside(r, col, row),
{
    col >= r.x && col < r.x + r.width && row >= r.y && row < r.y + r.height
}

/// Where the panels were drawn in the last frame, for mouse hit-testing.
#[derive(Debug, Clone, Copy)]
pub struct MouseAreas {
    pub status: Option<Rect>,
    pub search: Option<Rect>,
    pub vaults: Option<Rect>,
    pub items: Option<Rect>,
    pub list: Option<Rect>,
    pub cmdlog: Option<Rect>,
    pub detail: Option<Rect>,
    pub login: Option<Rect>,
}

pub open spec fn opt_wf(r: Option<Rect>) -> bool {
    match r {
        Some(r) => r.wf(),
        None => true,
    }
}

pub open spec fn hit(r: Option<Rect>, col: u16, row: u16) -> bool {
    match r {
        Some(r) => inside(r, col, row),
        None => false,
    }
}

/// The row of a list body that screen row `row` falls on, inside the border.
pub open spec fn body_row(r: Option<Rect>, row: u16) -> Option<usize> {
    match r {
        None => None,
        Some(r) => if row < r.y + 1 || row >= r.y + (if r.height >= 1 { r.height - 1 } else { 0 }) {
            None
        } else {
            Some((row - r.y - 1) as usize)
        },
    }
}

fn hit_exec(r: Option<Rect>, col: u16, row: u16) -> (b: bool)
    requires
        opt_wf(r),
    ensures
        b == hit(r, col, row),
{
    match r {
        Some(r) => rect_contains(r, col, row),
        None => false,
    }
}

fn body_row_exec(r: Option<Rect>, row: u16) -> (o: Option<usize>)
    requires
        opt_wf(r),
    ensures
        o == body_row(r, row),
{
    match r {
        None => None,
        Some(r) => {
            if row < r.y + 1 || row >= r.y + r.height.saturating_sub(1) {
                None
            } else {
                Some((row - r.y - 1) as usize)
            }
        },
    }
}

impl MouseAreas {
    pub open spec fn wf(self) -> bool {
        opt_wf(self.status) && opt_wf(self.search) && opt_wf(self.vaults) && opt_wf(self.items)
            && opt_wf(self.list) && opt_wf(self.cmdlog) && opt_wf(self.detail) && opt_wf(
            self.login,
        )
    }

    /// The vault panel under a cell, checked in the order status, search,
    /// vaults, items, list, command log.
    pub open spec fn focus_at(self, col: u16, row: u16) -> Option<Focus> {
        if hit(self.status, col, row) {
            Some(Focus::Status)
        } else if hit(self.search, col, row) {
            Some(Focus::Search)
        } else if hit(self.vaults, col, row) {
            Some(Focus::Vaults)
        } else if hit(self.items, col, row) {
            Some(Focus::Items)
        } else if hit(self.list, col, row) {
            Some(Focus::List)
        } else if hit(self.cmdlog, col, row) {
            Some(Focus::CmdLog)
        } else {
            None
        }
    }

    /// No areas recorded yet.
    pub fn empty() -> (r: Self)
        ensures
            r.wf(),
            r.status is None && r.search is None && r.vaults is None && r.items is None
                && r.list is None && r.cmdlog is None && r.detail is None && r.login is None,
    {
        MouseAreas {
            status: None,
            search: None,
            vaults: None,
            items: None,
            list: None,
            cmdlog: None,
            detail: None,
            login: None,
        }
    }

    /// The vault panel under the cell at `col`, `row`.
    pub fn focus_for(&self, col: u16, row: u16) -> (r: Option<Focus>)
        requires
            self.wf(),
        ensures
            r == self.focus_at(col, row),
    {
        if hit_exec(self.status, col, row) {
            return Some(Focus::Status);
        }
        if hit_exec(self.search, col, row) {
            return Some(Focus::Search);
        }
        if hit_exec(self.vaults, col, row) {
            return Some(Focus::Vaults);
        }
        if hit_exec(self.items, col, row) {
            return Some(Focus::Items);
        }
        if hit_exec(self.list, col, row) {
            return Some(Focus::List);
        }
        if hit_exec(self.cmdlog, col, row) {
            return Some(Focus::CmdLog);
        }
        None
    }

    /// The row of the vault list under screen row `row`, counted from the
    /// first row inside the border.
    pub fn list_row(&self, row: u16) -> (r: Option<usize>)
        requires
            self.wf(),
        ensures
            r == body_row(self.list, row),
    {
        body_row_exec(self.list, row)
    }

    /// The row of the Items panel under screen row `row`, counted from the
    /// first row inside the border.
    pub fn items_row(&self, row: u16) -> (r: Option<usize>)
        requires
            self.wf(),
        ensures
            r == body_row(self.items, row),
    {
        body_row_exec(self.items, row)
    }
}

/// The settings kept in the configuration file.
#[derive(Debug, Clone)]
pub struct Config {
    pub save_email: bool,
    pub email: Option<String>,
    pub auto_lock: bool,
    pub lock_after_secs: u64,
}

/// A change the configuration file must receive after a state change.
#[derive(Debug, Clone)]
pub enum ConfigWrite {
    Nothing,
    /// Rewrite the login settings: `save_email`, and the e-mail when saved.
    Login { save_email: bool, email: Option<String> },
    /// Rewrite the auto-lock setting.
    AutoLock(bool),
}

pub open spec fn login_write(save: bool, email: Option<Seq<char>>, w: ConfigWrite) -> bool {
    match w {
        ConfigWrite::Login { save_email, email: e } => save_email == save && opt_view(e) == email,
        _ => false,
    }
}

/// How many command-log entries are kept.
pub const CMD_LOG_MAX: usize = 50;

/// How many rows the vault list shows before it scrolls.
pub const LIST_ROWS: usize = 20;

/// The whole application state.
pub struct App {
    pub screen: Screen,
    pub should_quit: bool,
    pub focus: Focus,
    pub active_filter: ItemFilter,
    pub filter_selected: usize,
    pub items: Vec<Item>,
    pub selected_index: usize,
    pub scroll_offset: usize,
    pub email_input: String,
    pub email_cursor: usize,
    pub password_input: String,
    pub password_cursor: usize,
    pub active_field: LoginField,
    pub login_error: bool,
    pub save_email: bool,
    pub search_query: String,
    pub show_password: bool,
    pub detail_field: usize,
    pub cmd_log: Vec<CmdEntry>,
    pub cmd_log_scroll: usize,
    pub action_state: ActionState,
    pub action_tick: u8,
    pub pending_action: PendingAction,
    pub auto_lock: bool,
    pub lock_after_secs: u64,
    pub mouse_areas: MouseAreas,
    pub last_click: Option<(u16, u16)>,
    pub bw: BwClient,
    pub edit_fields: Vec<EditField>,
    pub edit_field_idx: usize,
    pub edit_item_id: String,
    pub create_fields: Vec<EditField>,
    pub create_field_idx: usize,
    pub create_type: CreateItemType,
    pub create_type_idx: usize,
    pub create_choosing_type: bool,
    pub edit_mode: bool,
}

/// The command text with the session key (or, without a session, a
/// placeholder that never occurs) replaced by `***`.
pub open spec fn redact(cmd: Seq<char>, key: Option<String>) -> Seq<char> {
    replace_all(
        cmd,
        match key {
            Some(k) => k@,
            None => "__NO_SESSION__"@,
        },
        "***"@,
    )
}

pub open spec fn log_views(l: Seq<CmdEntry>) -> Seq<(Seq<char>, bool, Seq<char>)> {
    l.map_values(|e: CmdEntry| (e.cmd@, e.ok, e.detail@))
}

/// The log after appending `e`, keeping only the last entries.
pub open spec fn log_after(l: Seq<(Seq<char>, bool, Seq<char>)>, e: (Seq<char>, bool, Seq<char>)) -> Seq<(Seq<char>, bool, Seq<char>)> {
    if l.len() + 1 > CMD_LOG_MAX {
        l.push(e).drop_first()
    } else {
        l.push(e)
    }
}

/// The kind and message of an action state.
pub open spec fn action_view(a: ActionState) -> (int, Seq<char>) {
    match a {
        ActionState::Idle => (0, Seq::empty()),
        ActionState::Running(m) => (1, m@),
        ActionState::Done(m) => (2, m@),
        ActionState::Error(m) => (3, m@),
    }
}

pub open spec fn running(m: Seq<char>) -> (int, Seq<char>) {
    (1, m)
}

pub open spec fn done(m: Seq<char>) -> (int, Seq<char>) {
    (2, m)
}

pub open spec fn failed(m: Seq<char>) -> (int, Seq<char>) {
    (3, m)
}

pub open spec fn idle() -> (int, Seq<char>) {
    (0, Seq::empty())
}

/// A pending action, with its texts as character sequences.
pub open spec fn pending_view(p: PendingAction) -> (int, Seq<char>, Seq<char>, bool) {
    match p {
        PendingAction::Nothing => (0, Seq::empty(), Seq::empty(), false),
        PendingAction::Login => (1, Seq::empty(), Seq::empty(), false),
        PendingAction::CopyUsername => (2, Seq::empty(), Seq::empty(), false),
        PendingAction::CopyPassword => (3, Seq::empty(), Seq::empty(), false),
        PendingAction::SyncVault => (4, Seq::empty(), Seq::empty(), false),
        PendingAction::ToggleFavorite => (5, Seq::empty(), Seq::empty(), false),
        PendingAction::CopyRaw(t, m) => (6, t@, m@, false),
        PendingAction::CopyTotp(id) => (7, id@, Seq::empty(), false),
        PendingAction::SaveEdit => (8, Seq::empty(), Seq::empty(), false),
        PendingAction::CreateItem => (9, Seq::empty(), Seq::empty(), false),
        PendingAction::DeleteItem { permanent } => (10, Seq::empty(), Seq::empty(), permanent),
    }
}

pub open spec fn no_pending() -> (int, Seq<char>, Seq<char>, bool) {
    (0, Seq::empty(), Seq::empty(), false)
}

impl App {
    /// The positions in `items` of the listed items, best match first.
    pub open spec fn listed(&self) -> Seq<usize> {
        listed(self.items@, self.active_filter, self.search_query@)
    }

    /// The selected item, if the selection points at a listed item.
    pub open spec fn selected(&self) -> Option<Item> {
        let l = self.listed();
        if self.selected_index < l.len() {
            Some(self.items@[l[self.selected_index as int] as int])
        } else {
            None
        }
    }

    /// A fresh state, on the login screen, with the saved settings.
    pub fn new(cfg: Config) -> (app: Self)
        ensures
            app.screen == Screen::Login,
            app.focus == Focus::List,
            app.active_filter == ItemFilter::All,
            app.items@.len() == 0,
            app.email_input@ == crate::model::or_default(cfg.email, Seq::empty()),
            app.email_cursor == crate::text::byte_len(app.email_input@),
            app.password_input@.len() == 0,
            app.active_field == if cfg.save_email {
                LoginField::Password
            } else {
                LoginField::Email
            },
            app.save_email == cfg.save_email,
            app.auto_lock == cfg.auto_lock,
            app.lock_after_secs == cfg.lock_after_secs,
            app.bw.session_key is None,
            app.cmd_log@.len() == 0,
            action_view(app.action_state) == idle(),
            pending_view(app.pending_action) == no_pending(),
            app.mouse_areas.wf(),
            app.create_choosing_type,
            !app.edit_mode,
            !app.should_quit,
    {
        let saved_email = match cfg.email {
            Some(e) => e,
            None => String::new(),
        };
        let email_cursor = crate::text::byte_length(saved_email.as_str());
        App {
            screen: Screen::Login,
            should_quit: false,
            focus: Focus::List,
            active_filter: ItemFilter::All,
            filter_selected: 0,
            items: Vec::new(),
            selected_index: 0,
            scroll_offset: 0,
            email_input: saved_email,
            email_cursor,
            password_input: String::new(),
            password_cursor: 0,
            active_field: if cfg.save_email {
                LoginField::Password
            } else {
                LoginField::Email
            },
            login_error: false,
            save_email: cfg.save_email,
            search_query: String::new(),
            show_password: false,
            detail_field: 0,
            cmd_log: Vec::new(),
            cmd_log_scroll: 0,
            action_state: ActionState::Idle,
            action_tick: 0,
            pending_action: PendingAction::Nothing,
            auto_lock: cfg.auto_lock,
            lock_after_secs: cfg.lock_after_secs,
            mouse_areas: MouseAreas::empty(),
            last_click: None,
            bw: BwClient::new(),
            edit_fields: Vec::new(),
            edit_field_idx: 0,
            edit_item_id: String::new(),
            create_fields: Vec::new(),
            create_field_idx: 0,
            create_type: CreateItemType::Login,
            create_type_idx: 0,
            create_choosing_type: true,
            edit_mode: false,
        }
    }
}

/// `a` is `b` after the selection moved down one listed item.
pub open spec fn moved_down(b: App, a: App) -> bool {
    &&& (b.listed().len() > 0 && b.selected_index < b.listed().len() - 1
            ==> a == (App {
            selected_index: (b.selected_index + 1) as usize,
            scroll_offset: if b.selected_index + 1 >= b.scroll_offset
                + LIST_ROWS {
                (b.scroll_offset + 1) as usize
            } else {
                b.scroll_offset
            },
            ..b
        }))
    &&& (!(b.listed().len() > 0 && b.selected_index < b.listed().len()
            - 1) ==> a == b)
}

/// Moving down keeps the selection on a listed item and inside the visible
/// window of `LIST_ROWS` rows.
pub proof fn law_move_down_keeps_selection_visible(b: App, a: App)
    requires
        b.listed().len() <= usize::MAX,
        b.listed().len() == 0 || b.selected_index < b.listed().len(),
        b.scroll_offset <= b.selected_index < b.scroll_offset + LIST_ROWS,
        moved_down(b, a),
    ensures
        a.listed() == b.listed(),
        a.listed().len() == 0 || a.selected_index < a.listed().len(),
        a.scroll_offset <= a.selected_index < a.scroll_offset + LIST_ROWS,
        a.selected_index == if b.listed().len() > 0 && b.selected_index + 1 < b.listed().len() {
            b.selected_index + 1
        } else {
            b.selected_index as int
        },
{
}

/// `a` agrees with `b` after the selection moved ten listed items down.
pub open spec fn paged_down(b: App, a: App) -> bool {
    &&& (a.selected_index == if b.listed().len() == 0 {
            b.selected_index as int
        } else if b.selected_index + 10 < b.listed().len() - 1 {
            b.selected_index + 10
        } else if b.selected_index >= b.listed().len() - 1 {
            b.selected_index as int
        } else {
            b.listed().len() - 1
        })
    &&& a.items == b.items
    &&& a.screen == b.screen
    &&& a.focus == b.focus
}

/// `a` agrees with `b` after the selection moved ten items up.
pub open spec fn paged_up(b: App, a: App) -> bool {
    &&& (a.selected_index == if b.selected_index >= 10 {
            (b.selected_index - 10) as usize
        } else {
            0
        })
    &&& a.items == b.items
    &&& a.screen == b.screen
    &&& a.focus == b.focus
    &&& (a.scroll_offset <= a.selected_index || a.scroll_offset
            == b.scroll_offset)
}

impl App {
    /// Shows the vault list from its top, with the list focused.
    pub fn go_to_vault(&mut self)
        ensures
            *final(self) == (App {
                screen: Screen::Vault,
                selected_index: 0,
                scroll_offset: 0,
                focus: Focus::List,
                ..*old(self)
            }),
    {
        self.screen = Screen::Vault;
        self.selected_index = 0;
        self.scroll_offset = 0;
        self.focus = Focus::List;
    }

    /// Cycles the vault panels: Search, Vaults, Items, List, Command Log, and
    /// back to Search (Status also goes to Search).
    pub fn cycle_focus(&mut self)
        ensures
            *final(self) == (App {
                focus: match old(self).focus {
                    Focus::Status | Focus::CmdLog => Focus::Search,
                    Focus::Search => Focus::Vaults,
                    Focus::Vaults => Focus::Items,
                    Focus::Items => Focus::List,
                    Focus::List => Focus::CmdLog,
                },
                ..*old(self)
            }),
    {
        self.focus = match self.focus {
            Focus::Status | Focus::CmdLog => Focus::Search,
            Focus::Search => Focus::Vaults,
            Focus::Vaults => Focus::Items,
            Focus::Items => Focus::List,
            Focus::List => Focus::CmdLog,
        };
    }

    /// Focuses the panel with number `n` (0 Status, 1 Vaults, 2 Items,
    /// 3 List, 4 Command Log); other numbers do nothing.
    pub fn focus_panel(&mut self, n: u8)
        ensures
            n > 4 ==> *final(self) == *old(self),
            n <= 4 ==> *final(self) == (App {
                focus: if n == 0 {
                    Focus::Status
                } else if n == 1 {
                    Focus::Vaults
                } else if n == 2 {
                    Focus::Items
                } else if n == 3 {
                    Focus::List
                } else {
                    Focus::CmdLog
                },
                ..*old(self)
            }),
    {
        self.focus = match n {
            0 => Focus::Status,
            1 => Focus::Vaults,
            2 => Focus::Items,
            3 => Focus::List,
            4 => Focus::CmdLog,
            _ => return ,
        };
    }

    /// Moves the Items-panel cursor down, stopping at the last filter.
    pub fn filter_move_down(&mut self)
        ensures
            *final(self) == (App {
                filter_selected: if old(self).filter_selected < ITEM_FILTER_COUNT - 1 {
                    (old(self).filter_selected + 1) as usize
                } else {
                    old(self).filter_selected
                },
                ..*old(self)
            }),
    {
        if self.filter_selected < ITEM_FILTER_COUNT - 1 {
            self.filter_selected = self.filter_selected + 1;
        }
    }

    /// Moves the Items-panel cursor up, stopping at the first filter.
    pub fn filter_move_up(&mut self)
        ensures
            *final(self) == (App {
                filter_selected: if old(self).filter_selected > 0 {
                    (old(self).filter_selected - 1) as usize
                } else {
                    0
                },
                ..*old(self)
            }),
    {
        if self.filter_selected > 0 {
            self.filter_selected = self.filter_selected - 1;
        }
    }

    /// Applies the filter under the Items-panel cursor and returns to the top
    /// of the list.
    pub fn apply_filter(&mut self)
        requires
            old(self).filter_selected < ITEM_FILTER_COUNT,
        ensures
            *final(self) == (App {
                active_filter: filter_at(old(self).filter_selected as int),
                selected_index: 0,
                scroll_offset: 0,
                focus: Focus::List,
                ..*old(self)
            }),
    {
        self.active_filter = item_filter(self.filter_selected);
        self.selected_index = 0;
        self.scroll_offset = 0;
        self.focus = Focus::List;
    }

    /// The positions in `items` of the listed items, best match first.
    pub fn filtered_positions(&self) -> (r: Vec<usize>)
        ensures
            r@ == self.listed(),
            forall|k: int| 0 <= k < r@.len() ==> #[trigger] r@[k] < self.items@.len(),
    {
        listed_positions(&self.items, &self.active_filter, self.search_query.as_str())
    }

    /// The listed items: those passing the active filter, and, while a search
    /// is typed, only those matching it, best match first.
    pub fn filtered_items(&self) -> (r: Vec<&Item>)
        ensures
            r@.len() == self.listed().len(),
            forall|k: int| 0 <= k < r@.len() ==> *(#[trigger] r@[k]) == self.items@[self.listed()[k] as int],
    {
        let pos = self.filtered_positions();
        let mut r: Vec<&Item> = Vec::new();
        let mut i: usize = 0;
        while i < pos.len()
            invariant
                i <= pos@.len(),
                pos@ == self.listed(),
                forall|k: int| 0 <= k < pos@.len() ==> #[trigger] pos@[k] < self.items@.len(),
                r@.len() == i,
                forall|k: int| 0 <= k < i ==> *(#[trigger] r@[k]) == self.items@[pos@[k] as int],
            decreases pos@.len() - i,
        {
            r.push(&self.items[pos[i]]);
            i = i + 1;
        }
        r
    }

    /// How many items are listed.
    pub fn filtered_len(&self) -> (n: usize)
        ensures
            n == self.listed().len(),
    {
        self.filtered_positions().len()
    }

    /// The selected item, if the selection points at a listed item.
    pub fn selected_item(&self) -> (r: Option<&Item>)
        ensures
            match self.selected() {
                Some(it) => r is Some && *r->0 == it,
                None => r is None,
            },
    {
        let pos = self.filtered_positions();
        if self.selected_index < pos.len() {
            Some(&self.items[pos[self.selected_index]])
        } else {
            None
        }
    }

    /// How many items the filter selects, ignoring the search.
    pub fn count_for(&self, filter: &ItemFilter) -> (n: usize)
        ensures
            n == crate::search::count_passing(*filter, self.items@),
    {
        crate::search::count_items(filter, &self.items)
    }

    /// Moves the selection down one listed item, scrolling when it leaves
    /// the visible rows.
    pub fn move_down(&mut self)
        requires
            old(self).scroll_offset + LIST_ROWS <= usize::MAX,
        ensures
            moved_down(*old(self), *final(self)),
    {
        let len = self.filtered_len();
        if len > 0 && self.selected_index < len - 1 {
            self.selected_index = self.selected_index + 1;
            if self.selected_index >= self.scroll_offset + LIST_ROWS {
                self.scroll_offset = self.scroll_offset + 1;
            }
        }
    }

    /// Moves the selection up one item, scrolling to keep it visible.
    pub fn move_up(&mut self)
        ensures
            old(self).selected_index == 0 ==> *final(self) == *old(self),
            old(self).selected_index > 0 ==> *final(self) == (App {
                selected_index: (old(self).selected_index - 1) as usize,
                scroll_offset: if old(self).selected_index - 1 < old(self).scroll_offset {
                    (old(self).selected_index - 1) as usize
                } else {
                    old(self).scroll_offset
                },
                ..*old(self)
            }),
    {
        if self.selected_index > 0 {
            self.selected_index = self.selected_index - 1;
            if self.selected_index < self.scroll_offset {
                self.scroll_offset = self.selected_index;
            }
        }
    }

    /// Ten steps down.
    pub fn move_down_page(&mut self)
        requires
            old(self).scroll_offset + LIST_ROWS + 10 <= usize::MAX,
        ensures
            paged_down(*old(self), *final(self)),
    {
        let mut k: usize = 0;
        while k < 10
            invariant
                k <= 10,
                self.items == old(self).items,
                self.active_filter == old(self).active_filter,
                self.search_query == old(self).search_query,
                self.screen == old(self).screen,
                self.focus == old(self).focus,
                self.scroll_offset <= old(self).scroll_offset + k,
                old(self).scroll_offset + LIST_ROWS + 10 <= usize::MAX,
                self.listed() == old(self).listed(),
                self.selected_index == if old(self).listed().len() == 0 {
                    old(self).selected_index as int
                } else if old(self).selected_index + k < old(self).listed().len() - 1 {
                    old(self).selected_index + k
                } else if old(self).selected_index >= old(self).listed().len() - 1 {
                    old(self).selected_index as int
                } else {
                    old(self).listed().len() - 1
                },
            decreases 10 - k,
        {
            let ghost len = old(self).listed().len();
            let ghost s0 = self.selected_index;
            // Reading the length brings its machine bound into the proof.
            let item_count: usize = self.items.len();
            proof {
                assert(item_count == self.items@.len());
                crate::search::lemma_listed_len(self.items@, self.active_filter, self.search_query@);
            }
            self.move_down();
            assert(self.listed() == old(self).listed());
            assert(len > 0 && s0 < len - 1 ==> self.selected_index == s0 + 1);
            assert(!(len > 0 && s0 < len - 1) ==> self.selected_index == s0);
            k = k + 1;
        }
    }

    /// Ten steps up.
    pub fn move_up_page(&mut self)
        ensures
            paged_up(*old(self), *final(self)),
    {
        let mut k: usize = 0;
        while k < 10
            invariant
                k <= 10,
                self.items == old(self).items,
                self.screen == old(self).screen,
                self.focus == old(self).focus,
                self.selected_index == if old(self).selected_index >= k {
                    (old(self).selected_index - k) as usize
                } else {
                    0
                },
                self.scroll_offset <= self.selected_index || self.scroll_offset
                    == old(self).scroll_offset,
            decreases 10 - k,
        {
            self.move_up();
            k = k + 1;
        }
    }

    /// Returns to the top of the list after the search text changed.
    pub fn perform_search(&mut self)
        ensures
            *final(self) == (App { selected_index: 0, scroll_offset: 0, ..*old(self) }),
    {
        self.selected_index = 0;
        self.scroll_offset = 0;
    }

    /// Clears the search and returns to the top of the list.
    pub fn clear_search(&mut self)
        ensures
            final(self).search_query@.len() == 0,
            *final(self) == (App {
                search_query: final(self).search_query,
                focus: Focus::List,
                selected_index: 0,
                scroll_offset: 0,
                ..*old(self)
            }),
    {
        self.search_query = String::new();
        self.focus = Focus::List;
        self.selected_index = 0;
        self.scroll_offset = 0;
    }
}

// ── Login form text ───────────────────────────────────────────────────────

/// The text after Backspace at `cursor`: the character before the cursor is
/// removed, or the first one when the cursor stands past the end.
pub open spec fn back_delete(s: Seq<char>, cursor: int) -> Seq<char> {
    if cursor - 1 < s.len() {
        s.remove(cursor - 1)
    } else {
        s.remove(0)
    }
}

fn text_insert(s: &mut String, cursor: &mut usize, c: char)
    requires
        *old(cursor) < usize::MAX,
    ensures
        final(s)@ == insert_at(old(s)@, *old(cursor) as int, c),
        *final(cursor) == *old(cursor) + 1,
{
    let mut v = to_chars(s.as_str());
    if *cursor <= v.len() {
        v.insert(*cursor, c);
    } else {
        v.push(c);
    }
    *s = from_chars(&v);
    *cursor = *cursor + 1;
}

fn text_delete_before(s: &mut String, cursor: &mut usize)
    requires
        *old(cursor) > 0 ==> old(s)@.len() > 0,
    ensures
        *old(cursor) == 0 ==> final(s)@ == old(s)@ && *final(cursor) == 0,
        *old(cursor) > 0 ==> final(s)@ == back_delete(old(s)@, *old(cursor) as int),
        *old(cursor) > 0 ==> *final(cursor) == *old(cursor) - 1,
{
    if *cursor > 0 {
        let mut v = to_chars(s.as_str());
        if *cursor - 1 < v.len() {
            v.remove(*cursor - 1);
        } else {
            v.remove(0);
        }
        *s = from_chars(&v);
        *cursor = *cursor - 1;
    }
}

fn text_delete_at(s: &mut String, cursor: &usize)
    ensures
        *cursor < old(s)@.len() ==> final(s)@ == old(s)@.remove(*cursor as int),
        *cursor >= old(s)@.len() ==> final(s)@ == old(s)@,
{
    let mut v = to_chars(s.as_str());
    if *cursor < v.len() {
        v.remove(*cursor);
        *s = from_chars(&v);
    }
}

/// `a` is `b` after typing `c` on the login form, with the settings write `w`.
pub open spec fn typed_login(b: App, a: App, c: char, w: ConfigWrite) -> bool {
    &&& (b.active_field == LoginField::Email ==> {
            &&& a.email_input@ == insert_at(b.email_input@, b.email_cursor as int, c)
            &&& a == (App {
                email_input: a.email_input,
                email_cursor: (b.email_cursor + 1) as usize,
                ..b
            })
            &&& if b.save_email {
                login_write(true, Some(a.email_input@), w)
            } else {
                w is Nothing
            }
        })
    &&& (b.active_field == LoginField::Password ==> {
            &&& a.password_input@ == insert_at(b.password_input@, b.password_cursor as int, c)
            &&& a == (App {
                password_input: a.password_input,
                password_cursor: (b.password_cursor + 1) as usize,
                ..b
            })
            &&& w is Nothing
        })
    &&& (b.active_field != LoginField::Email && b.active_field
            != LoginField::Password ==> a == b && w is Nothing)
}

/// `a` is `b` after Backspace on the login form, with the settings write `w`.
pub open spec fn backspaced_login(b: App, a: App, w: ConfigWrite) -> bool {
    &&& (b.active_field == LoginField::Email ==> {
            &&& a.email_input@ == if b.email_cursor > 0 {
                back_delete(b.email_input@, b.email_cursor as int)
            } else {
                b.email_input@
            }
            &&& a == (App {
                email_input: a.email_input,
                email_cursor: if b.email_cursor > 0 {
                    (b.email_cursor - 1) as usize
                } else {
                    0
                },
                ..b
            })
            &&& if b.save_email {
                login_write(true, Some(a.email_input@), w)
            } else {
                w is Nothing
            }
        })
    &&& (b.active_field == LoginField::Password ==> {
            &&& a.password_input@ == if b.password_cursor > 0 {
                back_delete(b.password_input@, b.password_cursor as int)
            } else {
                b.password_input@
            }
            &&& a == (App {
                password_input: a.password_input,
                password_cursor: if b.password_cursor > 0 {
                    (b.password_cursor - 1) as usize
                } else {
                    0
                },
                ..b
            })
            &&& w is Nothing
        })
    &&& (b.active_field != LoginField::Email && b.active_field
            != LoginField::Password ==> a == b && w is Nothing)
}

/// `a` is `b` after Delete on the login form, with the settings write `w`.
pub open spec fn deleted_login(b: App, a: App, w: ConfigWrite) -> bool {
    &&& (b.active_field == LoginField::Email ==> {
            &&& a.email_input@ == if b.email_cursor < b.email_input@.len() {
                b.email_input@.remove(b.email_cursor as int)
            } else {
                b.email_input@
            }
            &&& a == (App { email_input: a.email_input, ..b })
            &&& if b.save_email {
                login_write(true, Some(a.email_input@), w)
            } else {
                w is Nothing
            }
        })
    &&& (b.active_field == LoginField::Password ==> {
            &&& a.password_input@ == if b.password_cursor < b.password_input@.len() {
                b.password_input@.remove(b.password_cursor as int)
            } else {
                b.password_input@
            }
            &&& a == (App { password_input: a.password_input, ..b })
            &&& w is Nothing
        })
    &&& (b.active_field != LoginField::Email && b.active_field
            != LoginField::Password ==> a == b && w is Nothing)
}

impl App {
    /// Types `c` at the cursor of the focused text field of the login form.
    /// When the e-mail is saved, the new e-mail must be written to the settings.
    pub fn insert_char(&mut self, c: char) -> (w: ConfigWrite)
        requires
            old(self).active_field == LoginField::Email ==> old(self).email_cursor < usize::MAX,
            old(self).active_field == LoginField::Password ==> old(self).password_cursor
                < usize::MAX,
        ensures
            typed_login(*old(self), *final(self), c, w),
    {
        let save = self.active_field == LoginField::Email && self.save_email;
        match self.active_field {
            LoginField::Email => text_insert(&mut self.email_input, &mut self.email_cursor, c),
            LoginField::Password => text_insert(&mut self.password_input, &mut self.password_cursor, c),
            _ => {},
        }
        if save {
            ConfigWrite::Login { save_email: true, email: Some(self.email_input.clone()) }
        } else {
            ConfigWrite::Nothing
        }
    }

    /// Backspace in the focused text field of the login form.
    pub fn delete_char_before(&mut self) -> (w: ConfigWrite)
        requires
            old(self).active_field == LoginField::Email && old(self).email_cursor > 0 ==> old(self).email_input@.len() > 0,
            old(self).active_field == LoginField::Password && old(self).password_cursor > 0 ==> old(self).password_input@.len() > 0,
        ensures
            backspaced_login(*old(self), *final(self), w),
    {
        let save = self.active_field == LoginField::Email && self.save_email;
        match self.active_field {
            LoginField::Email => text_delete_before(&mut self.email_input, &mut self.email_cursor),
            LoginField::Password => text_delete_before(&mut self.password_input, &mut self.password_cursor),
            _ => {},
        }
        if save {
            ConfigWrite::Login { save_email: true, email: Some(self.email_input.clone()) }
        } else {
            ConfigWrite::Nothing
        }
    }

    /// Delete in the focused text field of the login form.
    pub fn delete_char_at(&mut self) -> (w: ConfigWrite)
        ensures
            deleted_login(*old(self), *final(self), w),
    {
        let save = self.active_field == LoginField::Email && self.save_email;
        match self.active_field {
            LoginField::Email => text_delete_at(&mut self.email_input, &self.email_cursor),
            LoginField::Password => text_delete_at(&mut self.password_input, &self.password_cursor),
            _ => {},
        }
        if save {
            ConfigWrite::Login { save_email: true, email: Some(self.email_input.clone()) }
        } else {
            ConfigWrite::Nothing
        }
    }

    /// Moves the cursor of the focused login text field one character left.
    pub fn cursor_left(&mut self)
        ensures
            *final(self) == match old(self).active_field {
                LoginField::Email => App {
                    email_cursor: if old(self).email_cursor > 0 { (old(self).email_cursor - 1) as usize } else { 0 },
                    ..*old(self)
                },
                LoginField::Password => App {
                    password_cursor: if old(self).password_cursor > 0 { (old(self).password_cursor - 1) as usize } else { 0 },
                    ..*old(self)
                },
                _ => *old(self),
            },
    {
        match self.active_field {
            LoginField::Email => {
                if self.email_cursor > 0 {
                    self.email_cursor = self.email_cursor - 1;
                }
            },
            LoginField::Password => {
                if self.password_cursor > 0 {
                    self.password_cursor = self.password_cursor - 1;
                }
            },
            _ => {},
        }
    }

    /// Moves the cursor of the focused login text field one character right,
    /// stopping at the end.
    pub fn cursor_right(&mut self)
        ensures
            *final(self) == match old(self).active_field {
                LoginField::Email => App {
                    email_cursor: if old(self).email_cursor < old(self).email_input@.len() { (old(self).email_cursor + 1) as usize } else { old(self).email_cursor },
                    ..*old(self)
                },
                LoginField::Password => App {
                    password_cursor: if old(self).password_cursor < old(self).password_input@.len() { (old(self).password_cursor + 1) as usize } else { old(self).password_cursor },
                    ..*old(self)
                },
                _ => *old(self),
            },
    {
        match self.active_field {
            LoginField::Email => {
                if self.email_cursor < char_count(self.email_input.as_str()) {
                    self.email_cursor = self.email_cursor + 1;
                }
            },
            LoginField::Password => {
                if self.password_cursor < char_count(self.password_input.as_str()) {
                    self.password_cursor = self.password_cursor + 1;
                }
            },
            _ => {},
        }
    }

    /// Moves the cursor of the focused login text field to the start.
    pub fn cursor_home(&mut self)
        ensures
            *final(self) == match old(self).active_field {
                LoginField::Email => App { email_cursor: 0, ..*old(self) },
                LoginField::Password => App { password_cursor: 0, ..*old(self) },
                _ => *old(self),
            },
    {
        match self.active_field {
            LoginField::Email => self.email_cursor = 0,
            LoginField::Password => self.password_cursor = 0,
            _ => {},
        }
    }

    /// Moves the cursor of the focused login text field past its last character.
    pub fn cursor_end(&mut self)
        ensures
            *final(self) == match old(self).active_field {
                LoginField::Email => App { email_cursor: old(self).email_input@.len() as usize, ..*old(self) },
                LoginField::Password => App { password_cursor: old(self).password_input@.len() as usize, ..*old(self) },
                _ => *old(self),
            },
    {
        match self.active_field {
            LoginField::Email => self.email_cursor = char_count(self.email_input.as_str()),
            LoginField::Password => self.password_cursor = char_count(self.password_input.as_str()),
            _ => {},
        }
    }

    /// Flips "Save email"; the settings then keep the e-mail, or forget it.
    pub fn toggle_save_email(&mut self) -> (w: ConfigWrite)
        ensures
            *final(self) == (App { save_email: !old(self).save_email, ..*old(self) }),
            if final(self).save_email {
                login_write(true, Some(old(self).email_input@), w)
            } else {
                login_write(false, None, w)
            },
    {
        self.save_email = !self.save_email;
        if self.save_email {
            ConfigWrite::Login { save_email: true, email: Some(self.email_input.clone()) }
        } else {
            ConfigWrite::Login { save_email: false, email: None }
        }
    }

    /// Marks the login as failed and clears the password.
    pub fn set_login_error(&mut self)
        ensures
            final(self).password_input@.len() == 0,
            *final(self) == (App {
                login_error: true,
                password_input: final(self).password_input,
                password_cursor: 0,
                ..*old(self)
            }),
    {
        self.login_error = true;
        self.password_input = String::new();
        self.password_cursor = 0;
    }

    pub fn clear_login_error(&mut self)
        ensures
            *final(self) == (App { login_error: false, ..*old(self) }),
    {
        self.login_error = false;
    }

    // ── Command log and feedback ──────────────────────────────────────────

    /// Logs a command with its outcome. The session key never shows: each
    /// occurrence in `cmd` becomes `***`. Only the last entries are kept, and
    /// the log scrolls back to its newest line.
    #[verifier::rlimit(40)]
    pub fn push_cmd(&mut self, cmd: &str, ok: bool, detail: &str)
        ensures
            log_views(final(self).cmd_log@) == log_after(
                log_views(old(self).cmd_log@),
                (redact(cmd@, old(self).bw.session_key), ok, detail@),
            ),
            *final(self) == (App {
                cmd_log: final(self).cmd_log,
                cmd_log_scroll: 0,
                ..*old(self)
            }),
    {
        let pat = match &self.bw.session_key {
            Some(k) => to_chars(k.as_str()),
            None => to_chars("__NO_SESSION__"),
        };
        let rep = to_chars("***");
        let red = replace_chars(&to_chars(cmd), &pat, &rep);
        let ghost l0 = log_views(self.cmd_log@);
        self.cmd_log.push(CmdEntry { cmd: from_chars(&red), ok, detail: owned(detail) });
        assert(log_views(self.cmd_log@) =~= l0.push((redact(cmd@, self.bw.session_key), ok, detail@)));
        if self.cmd_log.len() > CMD_LOG_MAX {
            let ghost l1 = self.cmd_log@;
            self.cmd_log.remove(0);
            assert(log_views(self.cmd_log@) =~= log_views(l1).drop_first());
        }
        self.cmd_log_scroll = 0;
    }

    /// Scrolls the command log `n` lines towards older entries.
    pub fn cmd_log_scroll_up(&mut self, n: usize)
        requires
            old(self).cmd_log_scroll + n <= usize::MAX,
        ensures
            ({
                let max = if old(self).cmd_log@.len() > 0 { old(self).cmd_log@.len() - 1 } else { 0 };
                *final(self) == (App {
                    cmd_log_scroll: if old(self).cmd_log_scroll + n <= max {
                        (old(self).cmd_log_scroll + n) as usize
                    } else {
                        max as usize
                    },
                    ..*old(self)
                })
            }),
    {
        let max = self.cmd_log.len().saturating_sub(1);
        let up = self.cmd_log_scroll + n;
        self.cmd_log_scroll = if up <= max { up } else { max };
    }

    /// Scrolls the command log `n` lines towards newer entries.
    pub fn cmd_log_scroll_down(&mut self, n: usize)
        ensures
            *final(self) == (App {
                cmd_log_scroll: if old(self).cmd_log_scroll >= n {
                    (old(self).cmd_log_scroll - n) as usize
                } else {
                    0
                },
                ..*old(self)
            }),
    {
        self.cmd_log_scroll = self.cmd_log_scroll.saturating_sub(n);
    }

    /// Shows new feedback, restarting its animation.
    pub fn set_action(&mut self, state: ActionState)
        ensures
            *final(self) == (App { action_state: state, action_tick: 0, ..*old(self) }),
    {
        self.action_state = state;
        self.action_tick = 0;
    }

    /// Advances the feedback animation by one frame.
    pub fn tick_action(&mut self)
        ensures
            *final(self) == (App {
                action_tick: ((old(self).action_tick + 1) % 256) as u8,
                ..*old(self)
            }),
    {
        self.action_tick = self.action_tick.wrapping_add(1);
    }
}

/// `a` is `b` with the action `p` queued behind the feedback "running `msg`".
pub open spec fn queued(b: App, a: App, p: (int, Seq<char>, Seq<char>, bool), msg: Seq<char>) -> bool {
    &&& action_view(a.action_state) == running(msg)
    &&& pending_view(a.pending_action) == p
    &&& a == (App { action_state: a.action_state, action_tick: 0, pending_action: a.pending_action, ..b })
}

/// `a` is `b` after queuing the copy of the selected detail field.
pub open spec fn copied_field(b: App, a: App) -> bool {
    match b.selected() {
        None => a == b,
        Some(item) => {
            let es = detail_entries(item);
            let i = b.detail_field as int;
            if i < es.len() {
                match es[i].copy {
                    CopyWhat::Raw(l) => queued(b, a, (6, es[i].value, l + " copied ✓"@, false), "Copying…"@),
                    CopyWhat::Nothing => a == b,
                    CopyWhat::Username => queued(b, a, (2, Seq::empty(), Seq::empty(), false), "Copying user…"@),
                    CopyWhat::Password => queued(b, a, (3, Seq::empty(), Seq::empty(), false), "Copying pass…"@),
                    CopyWhat::Totp => queued(b, a, (7, item.id@, Seq::empty(), false), "Copying TOTP…"@),
                }
            } else {
                a == b
            }
        },
    }
}

/// `a` is `b` after taking the create type under the cursor.
pub open spec fn selected_type(b: App, a: App) -> bool {
    &&& field_views(a.create_fields@) == create_views(create_type_at(b.create_type_idx as int))
    &&& all_fresh(a.create_fields@, -1)
    &&& (a == (App {
            create_type: create_type_at(b.create_type_idx as int),
            create_fields: a.create_fields,
            create_field_idx: 0,
            create_choosing_type: false,
            ..b
        }))
}

/// `a` is `b` after asking to create the item.
pub open spec fn queued_create(b: App, a: App) -> bool {
    &&& (({
            let name = if b.create_fields@.len() > 0 {
                trim(b.create_fields@[0].value@)
            } else {
                Seq::empty()
            };
            if name.len() == 0 {
                action_view(a.action_state) == failed("Name is required"@)
                    && a == (App { action_state: a.action_state, action_tick: 0, ..b })
            } else {
                queued(b, a, (9, Seq::empty(), Seq::empty(), false), "Creating…"@)
            }
        }))
}

/// `a` is `b` after starting to edit the selection.
pub open spec fn entered_edit(b: App, a: App) -> bool {
    &&& (b.selected() is None ==> a == b)
    &&& (b.selected() is Some ==> {
            let item = b.selected()->0;
            &&& field_views(a.edit_fields@) == edit_views(item)
            &&& all_fresh(a.edit_fields@, 1)
            &&& a.edit_item_id@ == item.id@
            &&& a.edit_field_idx == if b.detail_field < edit_views(item).len() - 1 {
                b.detail_field as int
            } else {
                edit_views(item).len() - 1
            }
            &&& a == (App {
                edit_item_id: a.edit_item_id,
                edit_fields: a.edit_fields,
                edit_field_idx: a.edit_field_idx,
                edit_mode: true,
                ..b
            })
        })
}

impl App {
    /// Opens the detail view of the selection, if anything is listed.
    pub fn go_to_detail(&mut self)
        ensures
            old(self).listed().len() == 0 ==> *final(self) == *old(self),
            old(self).listed().len() > 0 ==> *final(self) == (App {
                screen: Screen::Detail,
                show_password: false,
                detail_field: 0,
                ..*old(self)
            }),
    {
        if self.filtered_len() > 0 {
            self.screen = Screen::Detail;
            self.show_password = false;
            self.detail_field = 0;
        }
    }

    /// Leaves the current screen: edit mode back to the detail view, the
    /// detail view, help, create and delete confirmation back to the vault.
    pub fn go_back(&mut self)
        ensures
            *final(self) == match old(self).screen {
                Screen::Detail => if old(self).edit_mode {
                    App { edit_mode: false, ..*old(self) }
                } else {
                    App { screen: Screen::Vault, ..*old(self) }
                },
                Screen::Help | Screen::Create | Screen::ConfirmDelete => App {
                    screen: Screen::Vault,
                    ..*old(self)
                },
                _ => *old(self),
            },
    {
        match self.screen {
            Screen::Detail => {
                if self.edit_mode {
                    self.edit_mode = false;
                } else {
                    self.screen = Screen::Vault;
                }
            },
            Screen::Help | Screen::Create | Screen::ConfirmDelete => {
                self.screen = Screen::Vault;
            },
            _ => {},
        }
    }

    /// Queues the login, unless the e-mail is blank or the password empty,
    /// which marks the login as failed.
    pub fn attempt_login(&mut self)
        ensures
            trim(old(self).email_input@).len() == 0 || old(self).password_input@.len() == 0 ==> *final(self) == (App { login_error: true, ..*old(self) }),
            !(trim(old(self).email_input@).len() == 0 || old(self).password_input@.len() == 0) ==> queued(
                *old(self),
                *final(self),
                (1, Seq::empty(), Seq::empty(), false),
                "Logging in…"@,
            ),
    {
        let t = trim_str(self.email_input.as_str());
        if t.as_str().is_empty() || self.password_input.as_str().is_empty() {
            self.login_error = true;
            return;
        }
        self.set_action(ActionState::Running(owned("Logging in…")));
        self.pending_action = PendingAction::Login;
    }

    fn queue_copy(&mut self, action: PendingAction, msg: &str)
        ensures
            queued(*old(self), *final(self), pending_view(action), msg@),
    {
        self.set_action(ActionState::Running(owned(msg)));
        self.pending_action = action;
    }

    /// Queues copying the selection's username.
    pub fn copy_username_to_clipboard(&mut self)
        ensures
            old(self).selected() is None ==> *final(self) == *old(self),
            old(self).selected() is Some ==> queued(*old(self), *final(self), (2, Seq::empty(), Seq::empty(), false), "Copying user…"@),
    {
        if self.selected_item().is_some() {
            self.queue_copy(PendingAction::CopyUsername, "Copying user…");
        }
    }

    /// Queues copying the selection's password.
    pub fn copy_password_to_clipboard(&mut self)
        ensures
            old(self).selected() is None ==> *final(self) == *old(self),
            old(self).selected() is Some ==> queued(*old(self), *final(self), (3, Seq::empty(), Seq::empty(), false), "Copying pass…"@),
    {
        if self.selected_item().is_some() {
            self.queue_copy(PendingAction::CopyPassword, "Copying pass…");
        }
    }

    /// Queues flipping the selection's favorite flag.
    pub fn toggle_favorite(&mut self)
        ensures
            old(self).selected() is None ==> *final(self) == *old(self),
            old(self).selected() is Some ==> queued(*old(self), *final(self), (5, Seq::empty(), Seq::empty(), false), "Updating…"@),
    {
        if self.selected_item().is_some() {
            self.queue_copy(PendingAction::ToggleFavorite, "Updating…");
        }
    }

    /// Queues a sync with the server.
    pub fn sync_vault(&mut self)
        ensures
            queued(*old(self), *final(self), (4, Seq::empty(), Seq::empty(), false), "Syncing…"@),
    {
        self.queue_copy(PendingAction::SyncVault, "Syncing…");
    }

    /// Queues copying the selected field of the detail view: its own value
    /// for most fields, the username, password or TOTP code fetched from `bw`
    /// for those; nothing for the type or a position past the last field.
    pub fn copy_selected_field(&mut self)
        ensures
            copied_field(*old(self), *final(self)),
    {
        let (rows, id) = match self.selected_item() {
            Some(item) => (build_detail_fields(item, false, 0), item.id.clone()),
            None => return ,
        };
        let ghost item = self.selected()->0;
        if self.detail_field >= rows.len() {
            return ;
        }
        assert(crate::fields::target_of(rows@[self.detail_field as int].copy, detail_entries(item)[self.detail_field as int]));
        match &rows[self.detail_field].copy {
            CopyTarget::Raw { value, label } => {
                let msg = concat(label.as_str(), " copied ✓");
                self.queue_copy(PendingAction::CopyRaw(value.clone(), msg), "Copying…");
            },
            CopyTarget::Nothing => {},
            CopyTarget::Username => self.copy_username_to_clipboard(),
            CopyTarget::Password => self.copy_password_to_clipboard(),
            CopyTarget::Totp => self.queue_copy(PendingAction::CopyTotp(id), "Copying TOTP…"),
        }
    }

    /// How many fields the detail view of the selection navigates over; 0
    /// without a selection.
    pub fn detail_field_count(&self) -> (n: usize)
        ensures
            n == match self.selected() {
                Some(item) => detail_count(item),
                None => 0,
            },
    {
        match self.selected_item() {
            Some(item) => detail_count_of(item),
            None => 0,
        }
    }

    // ── Create ────────────────────────────────────────────────────────────

    /// Opens the create screen at the type choice.
    pub fn open_create(&mut self)
        ensures
            final(self).create_fields@.len() == 0,
            *final(self) == (App {
                create_type_idx: 0,
                create_type: CreateItemType::Login,
                create_choosing_type: true,
                create_fields: final(self).create_fields,
                create_field_idx: 0,
                screen: Screen::Create,
                ..*old(self)
            }),
    {
        self.create_type_idx = 0;
        self.create_type = CreateItemType::Login;
        self.create_choosing_type = true;
        self.create_fields = Vec::new();
        self.create_field_idx = 0;
        self.screen = Screen::Create;
    }

    /// Takes the type under the cursor and shows its empty fields.
    pub fn create_select_type(&mut self)
        requires
            old(self).create_type_idx < CREATE_ITEM_TYPE_COUNT,
        ensures
            selected_type(*old(self), *final(self)),
    {
        self.create_type = create_item_type(self.create_type_idx);
        self.create_fields = build_create_fields(&self.create_type);
        self.create_field_idx = 0;
        self.create_choosing_type = false;
    }

    /// Applies an editing key to the focused create field, if any.
    pub fn create_key(&mut self, k: FieldKey)
        requires
            key_ok_at(old(self).create_fields@, old(self).create_field_idx as int, k),
        ensures
            key_effect_at(old(self).create_fields@, final(self).create_fields@, old(self).create_field_idx as int, k),
            *final(self) == (App { create_fields: final(self).create_fields, ..*old(self) }),
    {
        apply_key_at(&mut self.create_fields, self.create_field_idx, k);
    }

    pub fn create_insert_char(&mut self, c: char)
        requires
            key_ok_at(old(self).create_fields@, old(self).create_field_idx as int, FieldKey::Insert(c)),
        ensures
            key_effect_at(old(self).create_fields@, final(self).create_fields@, old(self).create_field_idx as int, FieldKey::Insert(c)),
            *final(self) == (App { create_fields: final(self).create_fields, ..*old(self) }),
    {
        self.create_key(FieldKey::Insert(c));
    }

    pub fn create_delete_before(&mut self)
        requires
            key_ok_at(old(self).create_fields@, old(self).create_field_idx as int, FieldKey::DeleteBefore),
        ensures
            key_effect_at(old(self).create_fields@, final(self).create_fields@, old(self).create_field_idx as int, FieldKey::DeleteBefore),
            *final(self) == (App { create_fields: final(self).create_fields, ..*old(self) }),
    {
        self.create_key(FieldKey::DeleteBefore);
    }

    pub fn create_delete_at(&mut self)
        ensures
            key_effect_at(old(self).create_fields@, final(self).create_fields@, old(self).create_field_idx as int, FieldKey::DeleteAt),
            *final(self) == (App { create_fields: final(self).create_fields, ..*old(self) }),
    {
        self.create_key(FieldKey::DeleteAt);
    }

    pub fn create_cursor_left(&mut self)
        ensures
            key_effect_at(old(self).create_fields@, final(self).create_fields@, old(self).create_field_idx as int, FieldKey::Left),
            *final(self) == (App { create_fields: final(self).create_fields, ..*old(self) }),
    {
        self.create_key(FieldKey::Left);
    }

    pub fn create_cursor_right(&mut self)
        ensures
            key_effect_at(old(self).create_fields@, final(self).create_fields@, old(self).create_field_idx as int, FieldKey::Right),
            *final(self) == (App { create_fields: final(self).create_fields, ..*old(self) }),
    {
        self.create_key(FieldKey::Right);
    }

    pub fn create_cursor_home(&mut self)
        ensures
            key_effect_at(old(self).create_fields@, final(self).create_fields@, old(self).create_field_idx as int, FieldKey::Home),
            *final(self) == (App { create_fields: final(self).create_fields, ..*old(self) }),
    {
        self.create_key(FieldKey::Home);
    }

    pub fn create_cursor_end(&mut self)
        ensures
            key_effect_at(old(self).create_fields@, final(self).create_fields@, old(self).create_field_idx as int, FieldKey::End),
            *final(self) == (App { create_fields: final(self).create_fields, ..*old(self) }),
    {
        self.create_key(FieldKey::End);
    }

    /// Queues creating the item, unless its name is blank.
    pub fn queue_create_item(&mut self)
        ensures
            queued_create(*old(self), *final(self)),
    {
        let blank = if self.create_fields.len() > 0 {
            trim_str(self.create_fields[0].value.as_str()).as_str().is_empty()
        } else {
            true
        };
        if blank {
            self.set_action(ActionState::Error(owned("Name is required")));
            return ;
        }
        self.set_action(ActionState::Running(owned("Creating…")));
        self.pending_action = PendingAction::CreateItem;
    }

    // ── Edit ──────────────────────────────────────────────────────────────

    /// Starts editing the selection: its fields become editable, with the
    /// focus on the field that was selected in the detail view.
    pub fn enter_edit_mode(&mut self)
        ensures
            entered_edit(*old(self), *final(self)),
    {
        let (id, fields) = match self.selected_item() {
            Some(item) => (item.id.clone(), build_edit_fields(item)),
            None => return ,
        };
        let detail = self.detail_field;
        let last = fields.len().saturating_sub(1);
        self.edit_item_id = id;
        self.edit_fields = fields;
        self.edit_field_idx = if detail < last { detail } else { last };
        self.edit_mode = true;
    }

    /// Applies an editing key to the focused edit field, if any.
    pub fn edit_key(&mut self, k: FieldKey)
        requires
            key_ok_at(old(self).edit_fields@, old(self).edit_field_idx as int, k),
        ensures
            key_effect_at(old(self).edit_fields@, final(self).edit_fields@, old(self).edit_field_idx as int, k),
            *final(self) == (App { edit_fields: final(self).edit_fields, ..*old(self) }),
    {
        apply_key_at(&mut self.edit_fields, self.edit_field_idx, k);
    }

    pub fn edit_insert_char(&mut self, c: char)
        requires
            key_ok_at(old(self).edit_fields@, old(self).edit_field_idx as int, FieldKey::Insert(c)),
        ensures
            key_effect_at(old(self).edit_fields@, final(self).edit_fields@, old(self).edit_field_idx as int, FieldKey::Insert(c)),
            *final(self) == (App { edit_fields: final(self).edit_fields, ..*old(self) }),
    {
        self.edit_key(FieldKey::Insert(c));
    }

    pub fn edit_delete_before(&mut self)
        requires
            key_ok_at(old(self).edit_fields@, old(self).edit_field_idx as int, FieldKey::DeleteBefore),
        ensures
            key_effect_at(old(self).edit_fields@, final(self).edit_fields@, old(self).edit_field_idx as int, FieldKey::DeleteBefore),
            *final(self) == (App { edit_fields: final(self).edit_fields, ..*old(self) }),
    {
        self.edit_key(FieldKey::DeleteBefore);
    }

    pub fn edit_delete_at(&mut self)
        ensures
            key_effect_at(old(self).edit_fields@, final(self).edit_fields@, old(self).edit_field_idx as int, FieldKey::DeleteAt),
            *final(self) == (App { edit_fields: final(self).edit_fields, ..*old(self) }),
    {
        self.edit_key(FieldKey::DeleteAt);
    }

    pub fn edit_cursor_left(&mut self)
        ensures
            key_effect_at(old(self).edit_fields@, final(self).edit_fields@, old(self).edit_field_idx as int, FieldKey::Left),
            *final(self) == (App { edit_fields: final(self).edit_fields, ..*old(self) }),
    {
        self.edit_key(FieldKey::Left);
    }

    pub fn edit_cursor_right(&mut self)
        ensures
            key_effect_at(old(self).edit_fields@, final(self).edit_fields@, old(self).edit_field_idx as int, FieldKey::Right),
            *final(self) == (App { edit_fields: final(self).edit_fields, ..*old(self) }),
    {
        self.edit_key(FieldKey::Right);
    }

    pub fn edit_cursor_home(&mut self)
        ensures
            key_effect_at(old(self).edit_fields@, final(self).edit_fields@, old(self).edit_field_idx as int, FieldKey::Home),
            *final(self) == (App { edit_fields: final(self).edit_fields, ..*old(self) }),
    {
        self.edit_key(FieldKey::Home);
    }

    pub fn edit_cursor_end(&mut self)
        ensures
            key_effect_at(old(self).edit_fields@, final(self).edit_fields@, old(self).edit_field_idx as int, FieldKey::End),
            *final(self) == (App { edit_fields: final(self).edit_fields, ..*old(self) }),
    {
        self.edit_key(FieldKey::End);
    }

    /// Shows or masks the focused edit field, if it is a hidden one.
    pub fn edit_toggle_reveal(&mut self)
        ensures
            key_effect_at(old(self).edit_fields@, final(self).edit_fields@, old(self).edit_field_idx as int, FieldKey::ToggleReveal),
            *final(self) == (App { edit_fields: final(self).edit_fields, ..*old(self) }),
    {
        self.edit_key(FieldKey::ToggleReveal);
    }

    /// Queues saving the edited item.
    pub fn queue_save_edit(&mut self)
        ensures
            queued(*old(self), *final(self), (8, Seq::empty(), Seq::empty(), false), "Saving…"@),
    {
        self.set_action(ActionState::Running(owned("Saving…")));
        self.pending_action = PendingAction::SaveEdit;
    }

    // ── Delete ────────────────────────────────────────────────────────────

    /// Asks to confirm deleting the selection, if there is one.
    pub fn open_confirm_delete(&mut self)
        ensures
            old(self).selected() is None ==> *final(self) == *old(self),
            old(self).selected() is Some ==> *final(self) == (App { screen: Screen::ConfirmDelete, ..*old(self) }),
    {
        if self.selected_item().is_some() {
            self.screen = Screen::ConfirmDelete;
        }
    }

    /// Queues deleting the selection, to the trash or for good, and returns
    /// to the vault.
    pub fn queue_delete_item(&mut self, permanent: bool)
        ensures
            ({
                let mid = App { screen: Screen::Vault, ..*old(self) };
                queued(
                    mid,
                    *final(self),
                    (10, Seq::empty(), Seq::empty(), permanent),
                    if permanent { "Deleting…"@ } else { "Trashing…"@ },
                )
            }),
    {
        self.set_action(ActionState::Running(owned(if permanent { "Deleting…" } else { "Trashing…" })));
        self.pending_action = PendingAction::DeleteItem { permanent };
        self.screen = Screen::Vault;
    }
}

// ── Outcomes of `bw` operations ──────────────────────────────────────────

/// The session key as shown in a logged command line: the key, or `***`
/// without a session. (Logging then redacts the key itself.)
pub open spec fn display_key(k: Option<String>) -> Seq<char> {
    match k {
        Some(k) => k@,
        None => "***"@,
    }
}

/// `a` is `b` after logging the failed command `cmd` with error `e`, and
/// showing the error as "`label`: `e`".
pub open spec fn after_cmd_err(b: App, a: App, cmd: Seq<char>, e: Seq<char>, label: Seq<char>) -> bool {
    &&& log_views(a.cmd_log@) == log_after(log_views(b.cmd_log@), (redact(cmd, b.bw.session_key), false, e))
    &&& action_view(a.action_state) == failed(label + ": "@ + e)
    &&& a == (App {
        cmd_log: a.cmd_log,
        cmd_log_scroll: 0,
        action_state: a.action_state,
        action_tick: 0,
        ..b
    })
}

/// `a` is `b` after logging `cmd` with `ok` and `detail`.
pub open spec fn after_log(b: App, a: App, cmd: Seq<char>, ok: bool, detail: Seq<char>) -> bool {
    &&& log_views(a.cmd_log@) == log_after(log_views(b.cmd_log@), (redact(cmd, b.bw.session_key), ok, detail))
    &&& a == (App { cmd_log: a.cmd_log, cmd_log_scroll: 0, ..b })
}

/// What the clipboard tool did with a copy.
#[derive(Debug, Clone)]
pub enum ClipboardOutcome {
    /// No clipboard tool was found.
    NoTool,
    /// The text was handed to the named tool.
    Written(String),
    /// The named tool could not be started; the error text.
    SpawnFailed(String, String),
}

/// The clipboard command for the session: `wl-copy` under Wayland; under
/// X11 `xclip -selection clipboard` when xclip is installed, else
/// `xsel --clipboard --input`; `pbcopy` on macOS; none otherwise.
pub open spec fn clipboard_tool(wayland: bool, x11: bool, xclip_installed: bool, macos: bool) -> Option<Seq<Seq<char>>> {
    if wayland {
        Some(seq!["wl-copy"@])
    } else if x11 {
        if xclip_installed {
            Some(seq!["xclip"@, "-selection"@, "clipboard"@])
        } else {
            Some(seq!["xsel"@, "--clipboard"@, "--input"@])
        }
    } else if macos {
        Some(seq!["pbcopy"@])
    } else {
        None
    }
}

pub open spec fn str_views(v: Seq<&str>) -> Seq<Seq<char>> {
    v.map_values(|s: &str| s@)
}

/// The program and arguments that put text on the clipboard, given whether
/// `WAYLAND_DISPLAY` and `DISPLAY` are set, whether xclip is installed, and
/// whether this is macOS.
pub fn clipboard_command(wayland: bool, x11: bool, xclip_installed: bool, macos: bool) -> (r: Option<Vec<&'static str>>)
    ensures
        match r {
            Some(v) => clipboard_tool(wayland, x11, xclip_installed, macos) == Some(str_views(v@)),
            None => clipboard_tool(wayland, x11, xclip_installed, macos) is None,
        },
{
    let r = if wayland {
        vec!["wl-copy"]
    } else if x11 {
        if xclip_installed {
            vec!["xclip", "-selection", "clipboard"]
        } else {
            vec!["xsel", "--clipboard", "--input"]
        }
    } else if macos {
        vec!["pbcopy"]
    } else {
        return None;
    };
    assert(str_views(r@) =~= clipboard_tool(wayland, x11, xclip_installed, macos)->0);
    Some(r)
}

/// Text to put on the clipboard, and the message to log once it is there.
#[derive(Debug, Clone)]
pub struct ClipboardRequest {
    pub text: String,
    pub success_msg: String,
}

/// Why saving an edit failed: fetching the stored item, or writing it back.
#[derive(Debug, Clone)]
pub enum SaveFailure {
    Fetch(String),
    Save(String),
}

/// The position of the first item with the given id.
pub open spec fn first_with_id(items: Seq<Item>, id: Seq<char>) -> int
    decreases items.len(),
{
    if items.len() == 0 {
        -1
    } else if items[0].id@ == id {
        0
    } else {
        let r = first_with_id(items.drop_first(), id);
        if r < 0 { -1 } else { r + 1 }
    }
}

proof fn lemma_first_with_id(items: Seq<Item>, key: Seq<char>, k: int)
    requires
        0 <= k <= items.len(),
        forall|j: int| 0 <= j < k ==> (#[trigger] items[j]).id@ != key,
    ensures
        first_with_id(items, key) == if first_with_id(items.skip(k), key) < 0 {
            -1
        } else {
            first_with_id(items.skip(k), key) + k
        },
    decreases k,
{
    if k == 0 {
        assert(items.skip(0) =~= items);
    } else {
        let t = items.drop_first();
        assert(t.skip(k - 1) =~= items.skip(k));
        lemma_first_with_id(t, key, k - 1);
    }
}

fn find_id(items: &Vec<Item>, key: &str) -> (r: Option<usize>)
    ensures
        match r {
            Some(i) => i == first_with_id(items@, key@) && i < items@.len(),
            None => first_with_id(items@, key@) == -1,
        },
{
    let mut i: usize = 0;
    while i < items.len()
        invariant
            i <= items@.len(),
            forall|j: int| 0 <= j < i ==> (#[trigger] items@[j]).id@ != key@,
        decreases items@.len() - i,
    {
        if crate::text::str_eq(items[i].id.as_str(), key) {
            proof {
                lemma_first_with_id(items@, key@, i as int);
                assert(items@.skip(i as int)[0] == items@[i as int]);
            }
            return Some(i);
        }
        i = i + 1;
    }
    proof {
        lemma_first_with_id(items@, key@, items@.len() as int);
        assert(items@.skip(items@.len() as int) =~= Seq::<Item>::empty());
    }
    None
}

/// Sets the favorite flag of the first item with the given id, if any.
fn set_favorite_of(items: &mut Vec<Item>, id: &str, fav: bool)
    ensures
        ({
            let k = first_with_id(old(items)@, id@);
            &&& final(items)@.len() == old(items)@.len()
            &&& forall|j: int| 0 <= j < old(items)@.len() && j != k ==> final(items)@[j] == old(items)@[j]
            &&& (k >= 0 ==> final(items)@[k] == (Item { favorite: fav, ..old(items)@[k] }))
        }),
{
    if let Some(k) = find_id(items, id) {
        let mut it = items.remove(k);
        it.favorite = fav;
        items.insert(k, it);
    }
}

/// The items whose id differs from `id`, in order.
pub open spec fn without_id(items: Seq<Item>, id: Seq<char>) -> Seq<Item> {
    items.filter(|it: Item| it.id@ != id)
}

/// Drops every item with the given id, keeping the order of the others.
fn remove_id(items: Vec<Item>, id: &str) -> (r: Vec<Item>)
    ensures
        r@ == without_id(items@, id@),
{
    let mut src = items;
    let ghost orig = src@;
    let n0 = src.len();
    let mut rev: Vec<Item> = Vec::new();
    while src.len() > 0
        invariant
            orig.len() == src@.len() + rev@.len(),
            src@ == orig.take(src@.len() as int),
            forall|k: int| 0 <= k < rev@.len() ==> #[trigger] rev@[k] == orig[orig.len() - 1 - k],
        decreases src@.len(),
    {
        let x = src.pop().unwrap();
        rev.push(x);
        assert(src@ =~= orig.take(src@.len() as int));
    }
    let mut out: Vec<Item> = Vec::new();
    let mut done: usize = 0;
    assert(orig.take(0) =~= Seq::<Item>::empty());
    while rev.len() > 0
        invariant
            orig.len() == done + rev@.len(),
            orig.len() == n0,
            forall|k: int| 0 <= k < rev@.len() ==> #[trigger] rev@[k] == orig[orig.len() - 1 - k],
            out@ == without_id(orig.take(done as int), id@),
        decreases rev@.len(),
    {
        let x = rev.pop().unwrap();
        assert(x == orig[done as int]);
        proof {
            let t = orig.take(done + 1);
            assert(t.drop_last() =~= orig.take(done as int));
            assert(t.last() == x);
            reveal_with_fuel(Seq::filter, 1);
            assert(without_id(t, id@) == if x.id@ != id@ {
                without_id(orig.take(done as int), id@).push(x)
            } else {
                without_id(orig.take(done as int), id@)
            });
        }
        if !crate::text::str_eq(x.id.as_str(), id) {
            out.push(x);
        }
        done = done + 1;
    }
    assert(orig.take(orig.len() as int) =~= orig);
    out
}

impl App {
    /// The session key, or `***` without a session.
    pub fn session_key_display(&self) -> (r: &str)
        ensures
            r@ == display_key(self.bw.session_key),
    {
        match &self.bw.session_key {
            Some(k) => k.as_str(),
            None => "***",
        }
    }

    /// Logs a failed command and shows "`label`: `e`".
    pub fn cmd_err(&mut self, cmd: &str, e: &str, label: &str)
        ensures
            after_cmd_err(*old(self), *final(self), cmd@, e@, label@),
    {
        self.push_cmd(cmd, false, e);
        let msg = concat3(label, ": ", e);
        self.set_action(ActionState::Error(msg));
    }

    /// Sorts the items alphabetically by lowercase name (stable).
    pub fn sort_items(&mut self)
        ensures
            final(self).items@ == sorted_by_name(old(self).items@),
            *final(self) == (App { items: final(self).items, ..*old(self) }),
    {
        let mut taken: Vec<Item> = Vec::new();
        std::mem::swap(&mut taken, &mut self.items);
        self.items = sort_by_name(taken);
    }

    /// Takes the result of `bw list items`: the items, sorted, or the error.
    pub fn load_items(&mut self, listed: Result<Vec<Item>, String>)
        ensures
            ({
                let cmd = "bw list items --session "@ + display_key(old(self).bw.session_key);
                match listed {
                    Ok(items) => {
                        &&& final(self).items@ == sorted_by_name(items@)
                        &&& log_views(final(self).cmd_log@) == log_after(log_views(old(self).cmd_log@), (redact(cmd, old(self).bw.session_key), true, decimal(items@.len()) + " items loaded"@))
                        &&& action_view(final(self).action_state) == running("Loading vault…"@)
                        &&& *final(self) == (App {
                            items: final(self).items,
                            cmd_log: final(self).cmd_log,
                            cmd_log_scroll: 0,
                            action_state: final(self).action_state,
                            action_tick: 0,
                            ..*old(self)
                        })
                    },
                    Err(e) => after_cmd_err(*old(self), *final(self), cmd, e@, "Load failed"@),
                }
            }),
    {
        let cmd = concat("bw list items --session ", self.session_key_display());
        self.set_action(ActionState::Running(owned("Loading vault…")));
        match listed {
            Ok(items) => {
                let count = decimal_string(items.len() as u64);
                self.items = items;
                self.sort_items();
                let detail = concat(count.as_str(), " items loaded");
                self.push_cmd(cmd.as_str(), true, detail.as_str());
            },
            Err(e) => self.cmd_err(cmd.as_str(), e.as_str(), "Load failed"),
        }
    }

    /// Whether logging in must unlock an account already known to `bw`
    /// (status locked or unlocked), rather than log in afresh.
    pub fn login_needs_unlock(status: &Result<BwStatusInfo, String>) -> (b: bool)
        ensures
            b == (status is Ok && (status->Ok_0.status == VaultStatus::Locked || status->Ok_0.status == VaultStatus::Unlocked)),
    {
        match status {
            Ok(info) => info.status == VaultStatus::Locked || info.status == VaultStatus::Unlocked,
            Err(_) => false,
        }
    }

    /// Takes the result of the login (or unlock): on success the e-mail is
    /// saved if asked, the password cleared, the vault `listed` loaded and
    /// shown; on failure the login is marked failed.
    pub fn do_login(&mut self, auth: Result<String, String>, listed: Option<Result<Vec<Item>, String>>) -> (w: ConfigWrite)
        requires
            auth is Ok <==> listed is Some,
        ensures
            auth is Ok ==> {
                &&& (if old(self).save_email { login_write(true, Some(old(self).email_input@), w) } else { w is Nothing })
                &&& final(self).screen == Screen::Vault
                &&& final(self).focus == Focus::List
                &&& final(self).selected_index == 0
                &&& final(self).scroll_offset == 0
                &&& final(self).password_input@.len() == 0
                &&& final(self).password_cursor == 0
                &&& action_view(final(self).action_state) == done("Loaded ✓"@)
                &&& match listed->0 {
                    Ok(items) => final(self).items@ == sorted_by_name(items@),
                    Err(_) => final(self).items == old(self).items,
                }
            },
            auth is Err ==> {
                &&& w is Nothing
                &&& log_views(final(self).cmd_log@) == log_after(log_views(old(self).cmd_log@), (redact("bw auth *** --raw"@, old(self).bw.session_key), false, "invalid credentials"@))
                &&& final(self).password_input@.len() == 0
                &&& *final(self) == (App {
                    cmd_log: final(self).cmd_log,
                    cmd_log_scroll: 0,
                    action_state: ActionState::Idle,
                    action_tick: 0,
                    login_error: true,
                    password_input: final(self).password_input,
                    password_cursor: 0,
                    ..*old(self)
                })
            },
    {
        match auth {
            Ok(_) => {
                let w = if self.save_email {
                    ConfigWrite::Login { save_email: true, email: Some(self.email_input.clone()) }
                } else {
                    ConfigWrite::Nothing
                };
                self.password_input = String::new();
                self.password_cursor = 0;
                match listed {
                    Some(l) => self.load_items(l),
                    None => {},
                }
                self.set_action(ActionState::Done(owned("Loaded ✓")));
                self.go_to_vault();
                w
            },
            Err(_) => {
                self.push_cmd("bw auth *** --raw", false, "invalid credentials");
                self.set_action(ActionState::Idle);
                self.set_login_error();
                ConfigWrite::Nothing
            },
        }
    }

    /// Logs the clipboard write of a copy, or shows why it failed.
    pub fn clipboard_result(&mut self, outcome: ClipboardOutcome, success_msg: &str)
        ensures
            match outcome {
                ClipboardOutcome::NoTool => {
                    &&& log_views(final(self).cmd_log@) == log_after(log_views(old(self).cmd_log@), (redact("clipboard"@, old(self).bw.session_key), false, "No clipboard tool found (install wl-copy or xclip)"@))
                    &&& action_view(final(self).action_state) == failed("No clipboard tool found (install wl-copy or xclip)"@)
                    &&& *final(self) == (App { cmd_log: final(self).cmd_log, cmd_log_scroll: 0, action_state: final(self).action_state, action_tick: 0, ..*old(self) })
                },
                ClipboardOutcome::Written(tool) => after_log(*old(self), *final(self), "echo [hidden] | "@ + tool@, true, success_msg@),
                ClipboardOutcome::SpawnFailed(tool, e) => {
                    &&& log_views(final(self).cmd_log@) == log_after(log_views(old(self).cmd_log@), (redact(tool@, old(self).bw.session_key), false, "spawn failed: "@ + e@))
                    &&& action_view(final(self).action_state) == failed("Clipboard error: "@ + e@)
                    &&& *final(self) == (App { cmd_log: final(self).cmd_log, cmd_log_scroll: 0, action_state: final(self).action_state, action_tick: 0, ..*old(self) })
                },
            },
    {
        match outcome {
            ClipboardOutcome::NoTool => {
                let msg = "No clipboard tool found (install wl-copy or xclip)";
                self.push_cmd("clipboard", false, msg);
                self.set_action(ActionState::Error(owned(msg)));
            },
            ClipboardOutcome::Written(tool) => {
                let cmd = concat("echo [hidden] | ", tool.as_str());
                self.push_cmd(cmd.as_str(), true, success_msg);
            },
            ClipboardOutcome::SpawnFailed(tool, e) => {
                let detail = concat("spawn failed: ", e.as_str());
                self.push_cmd(tool.as_str(), false, detail.as_str());
                self.set_action(ActionState::Error(concat("Clipboard error: ", e.as_str())));
            },
        }
    }

    /// Shared end of a copy whose value `bw` fetched: on success the value
    /// goes to the clipboard; otherwise the error is shown.
    fn do_bw_copy(&mut self, cmd: &str, result: Result<String, String>, label: &str, success_msg: &str) -> (r: Option<ClipboardRequest>)
        ensures
            match result {
                Ok(v) => {
                    &&& r is Some && r->0.text@ == v@ && r->0.success_msg@ == success_msg@
                    &&& action_view(final(self).action_state) == done("Copied ✓"@)
                    &&& log_views(final(self).cmd_log@) == log_after(log_views(old(self).cmd_log@), (redact(cmd@, old(self).bw.session_key), true, label@))
                    &&& *final(self) == (App { cmd_log: final(self).cmd_log, cmd_log_scroll: 0, action_state: final(self).action_state, action_tick: 0, ..*old(self) })
                },
                Err(e) => r is None && after_cmd_err(*old(self), *final(self), cmd@, e@, "Failed"@),
            },
    {
        match result {
            Ok(v) => {
                self.set_action(ActionState::Done(owned("Copied ✓")));
                self.push_cmd(cmd, true, label);
                Some(ClipboardRequest { text: v, success_msg: owned(success_msg) })
            },
            Err(e) => {
                self.cmd_err(cmd, e.as_str(), "Failed");
                None
            },
        }
    }

    /// Takes the username that `bw get username` fetched for the selection.
    pub fn do_copy_username(&mut self, fetched: Result<String, String>) -> (r: Option<ClipboardRequest>)
        ensures
            old(self).selected() is None ==> r is None && *final(self) == *old(self),
            old(self).selected() is Some ==> {
                let item = old(self).selected()->0;
                let cmd = "bw get username "@ + item.id@ + " --session "@ + display_key(old(self).bw.session_key);
                match fetched {
                    Ok(v) => r is Some && r->0.text@ == v@ && r->0.success_msg@ == "Username copied ✓"@
                        && log_views(final(self).cmd_log@) == log_after(log_views(old(self).cmd_log@), (redact(cmd, old(self).bw.session_key), true, "username for "@ + item.name@))
                        && action_view(final(self).action_state) == done("Copied ✓"@),
                    Err(e) => r is None && after_cmd_err(*old(self), *final(self), cmd, e@, "Failed"@),
                }
            },
    {
        let (id, name) = match self.selected_item() {
            Some(item) => (item.id.clone(), item.name.clone()),
            None => return None,
        };
        let cmd = concat4("bw get username ", id.as_str(), " --session ", self.session_key_display());
        let label = concat("username for ", name.as_str());
        self.do_bw_copy(cmd.as_str(), fetched, label.as_str(), "Username copied ✓")
    }

    /// Takes the password that `bw get password` fetched for the selection;
    /// the log never shows it.
    pub fn do_copy_password(&mut self, fetched: Result<String, String>) -> (r: Option<ClipboardRequest>)
        ensures
            old(self).selected() is None ==> r is None && *final(self) == *old(self),
            old(self).selected() is Some ==> {
                let item = old(self).selected()->0;
                let cmd = "bw get password "@ + item.id@ + " --session "@ + display_key(old(self).bw.session_key);
                match fetched {
                    Ok(v) => r is Some && r->0.text@ == v@ && r->0.success_msg@ == "Password copied ✓"@
                        && log_views(final(self).cmd_log@) == log_after(log_views(old(self).cmd_log@), (redact(cmd, old(self).bw.session_key), true, "password for "@ + item.name@ + " [hidden]"@))
                        && action_view(final(self).action_state) == done("Copied ✓"@),
                    Err(e) => r is None && after_cmd_err(*old(self), *final(self), cmd, e@, "Failed"@),
                }
            },
    {
        let (id, name) = match self.selected_item() {
            Some(item) => (item.id.clone(), item.name.clone()),
            None => return None,
        };
        let cmd = concat4("bw get password ", id.as_str(), " --session ", self.session_key_display());
        let label = concat3("password for ", name.as_str(), " [hidden]");
        self.do_bw_copy(cmd.as_str(), fetched, label.as_str(), "Password copied ✓")
    }

    /// Takes the TOTP code that `bw get totp` fetched for the item.
    pub fn do_copy_totp(&mut self, item_id: String, fetched: Result<String, String>) -> (r: Option<ClipboardRequest>)
        ensures
            ({
                let cmd = "bw get totp "@ + item_id@ + " --session "@ + display_key(old(self).bw.session_key);
                match fetched {
                    Ok(v) => r is Some && r->0.text@ == v@ && r->0.success_msg@ == "TOTP copied ✓"@
                        && log_views(final(self).cmd_log@) == log_after(log_views(old(self).cmd_log@), (redact(cmd, old(self).bw.session_key), true, "totp [hidden]"@))
                        && action_view(final(self).action_state) == done("Copied ✓"@),
                    Err(e) => r is None && after_cmd_err(*old(self), *final(self), cmd, e@, "Failed"@),
                }
            }),
    {
        let cmd = concat4("bw get totp ", item_id.as_str(), " --session ", self.session_key_display());
        self.do_bw_copy(cmd.as_str(), fetched, "totp [hidden]", "TOTP copied ✓")
    }

    /// Copies text the app already holds: logged under `msg`, never shown.
    pub fn do_copy_raw(&mut self, text: String, msg: String) -> (r: ClipboardRequest)
        ensures
            r.text == text,
            r.success_msg == msg,
            action_view(final(self).action_state) == done("Copied ✓"@),
            after_log(App { action_state: final(self).action_state, action_tick: 0, ..*old(self) }, *final(self), "clipboard"@, true, msg@),
    {
        self.set_action(ActionState::Done(owned("Copied ✓")));
        self.push_cmd("clipboard", true, msg.as_str());
        ClipboardRequest { text, success_msg: msg }
    }

    /// Takes the result of flipping the selection's favorite flag: on success
    /// the first item with its id takes the new flag.
    pub fn do_toggle_favorite(&mut self, result: Result<String, String>)
        ensures
            old(self).selected() is None ==> *final(self) == *old(self),
            old(self).selected() is Some ==> {
                let item = old(self).selected()->0;
                let new_fav = !item.favorite;
                let cmd = "bw edit item "@ + item.id@ + " --session "@ + display_key(old(self).bw.session_key);
                let label = if new_fav { "★ Favorited"@ } else { "Unfavorited"@ };
                let k = first_with_id(old(self).items@, item.id@);
                match result {
                    Ok(_) => {
                        &&& final(self).items@.len() == old(self).items@.len()
                        &&& forall|j: int| 0 <= j < old(self).items@.len() && j != k ==> final(self).items@[j] == old(self).items@[j]
                        &&& (k >= 0 ==> final(self).items@[k] == (Item { favorite: new_fav, ..old(self).items@[k] }))
                        &&& action_view(final(self).action_state) == done(label)
                        &&& log_views(final(self).cmd_log@) == log_after(log_views(old(self).cmd_log@), (redact(cmd, old(self).bw.session_key), true, item.name@ + " "@ + label))
                        &&& *final(self) == (App { items: final(self).items, cmd_log: final(self).cmd_log, cmd_log_scroll: 0, action_state: final(self).action_state, action_tick: 0, ..*old(self) })
                    },
                    Err(e) => after_cmd_err(*old(self), *final(self), cmd, e@, "Failed"@),
                }
            },
    {
        let (id, name, new_fav) = match self.selected_item() {
            Some(item) => (item.id.clone(), item.name.clone(), !item.favorite),
            None => return ,
        };
        let cmd = concat4("bw edit item ", id.as_str(), " --session ", self.session_key_display());
        match result {
            Ok(_) => {
                set_favorite_of(&mut self.items, id.as_str(), new_fav);
                let label = if new_fav { "★ Favorited" } else { "Unfavorited" };
                self.set_action(ActionState::Done(owned(label)));
                let detail = concat3(name.as_str(), " ", label);
                self.push_cmd(cmd.as_str(), true, detail.as_str());
            },
            Err(e) => self.cmd_err(cmd.as_str(), e.as_str(), "Failed"),
        }
    }

    /// Takes the result of `bw sync`; after a sync the vault `listed` is loaded.
    pub fn do_sync_vault(&mut self, synced: Result<(), String>, listed: Option<Result<Vec<Item>, String>>)
        requires
            synced is Ok <==> listed is Some,
        ensures
            synced is Err ==> after_cmd_err(*old(self), *final(self), "bw sync --session "@ + display_key(old(self).bw.session_key), synced->Err_0@, "Sync failed"@),
            synced is Ok && listed->0 is Ok ==> {
                &&& final(self).items@ == sorted_by_name(listed->0->Ok_0@)
                &&& log_views(final(self).cmd_log@) == log_after(
                    log_after(log_views(old(self).cmd_log@), (redact("bw sync --session "@ + display_key(old(self).bw.session_key), old(self).bw.session_key), true, "vault synced"@)),
                    (redact("bw list items --session "@ + display_key(old(self).bw.session_key), old(self).bw.session_key), true, decimal(listed->0->Ok_0@.len()) + " items loaded"@),
                )
                &&& action_view(final(self).action_state) == running("Loading vault…"@)
            },
            synced is Ok && listed->0 is Err ==> {
                &&& final(self).items == old(self).items
                &&& log_views(final(self).cmd_log@) == log_after(
                    log_after(log_views(old(self).cmd_log@), (redact("bw sync --session "@ + display_key(old(self).bw.session_key), old(self).bw.session_key), true, "vault synced"@)),
                    (redact("bw list items --session "@ + display_key(old(self).bw.session_key), old(self).bw.session_key), false, listed->0->Err_0@),
                )
                &&& action_view(final(self).action_state) == failed("Load failed"@ + ": "@ + listed->0->Err_0@)
            },
    {
        let cmd = concat("bw sync --session ", self.session_key_display());
        match synced {
            Ok(()) => {
                self.set_action(ActionState::Done(owned("Synced ✓")));
                self.push_cmd(cmd.as_str(), true, "vault synced");
                assert(self.bw.session_key == old(self).bw.session_key);
                match listed {
                    Some(l) => self.load_items(l),
                    None => {},
                }
            },
            Err(e) => self.cmd_err(cmd.as_str(), e.as_str(), "Sync failed"),
        }
    }

    /// Takes the item `bw create item` returned: it joins the list, which is
    /// re-sorted with the first item of that name selected, and the vault is shown.
    pub fn do_create_item(&mut self, created: Result<Item, String>)
        ensures
            ({
                let cmd = "bw create item --session "@ + display_key(old(self).bw.session_key);
                match created {
                    Ok(item) => {
                        let items = sorted_by_name(old(self).items@.push(item));
                        let k = first_with_id(items, item.id@);
                        &&& final(self).items@ == items
                        &&& (k >= 0 ==> final(self).selected_index == k && final(self).scroll_offset == if k >= 5 { k - 5 } else { 0 })
                        &&& (k < 0 ==> final(self).selected_index == old(self).selected_index && final(self).scroll_offset == old(self).scroll_offset)
                        &&& final(self).screen == Screen::Vault
                        &&& action_view(final(self).action_state) == done("Created ✓"@)
                        &&& log_views(final(self).cmd_log@) == log_after(log_views(old(self).cmd_log@), (redact(cmd, old(self).bw.session_key), true, "created: "@ + item.name@))
                    },
                    Err(e) => after_cmd_err(*old(self), *final(self), cmd, e@, "Create failed"@),
                }
            }),
    {
        let cmd = concat("bw create item --session ", self.session_key_display());
        match created {
            Ok(item) => {
                let name = item.name.clone();
                let id = item.id.clone();
                self.items.push(item);
                self.sort_items();
                if let Some(idx) = find_id(&self.items, id.as_str()) {
                    self.selected_index = idx;
                    self.scroll_offset = idx.saturating_sub(5);
                }
                let detail = concat("created: ", name.as_str());
                self.push_cmd(cmd.as_str(), true, detail.as_str());
                self.set_action(ActionState::Done(owned("Created ✓")));
                self.screen = Screen::Vault;
            },
            Err(e) => self.cmd_err(cmd.as_str(), e.as_str(), "Create failed"),
        }
    }

    /// Takes the result of saving the edit: the updated item replaces the
    /// first item with the edited id, the list is re-sorted, and edit mode ends.
    pub fn do_save_edit(&mut self, result: Result<Item, SaveFailure>)
        ensures
            ({
                let cmd = "bw edit item "@ + old(self).edit_item_id@ + " --session "@ + display_key(old(self).bw.session_key);
                let k = first_with_id(old(self).items@, old(self).edit_item_id@);
                match result {
                    Ok(updated) => {
                        &&& final(self).items@ == sorted_by_name(if k >= 0 { old(self).items@.update(k, updated) } else { old(self).items@ })
                        &&& !final(self).edit_mode
                        &&& action_view(final(self).action_state) == done("Saved ✓"@)
                        &&& log_views(final(self).cmd_log@) == log_after(log_views(old(self).cmd_log@), (redact(cmd, old(self).bw.session_key), true, "saved: "@ + updated.name@))
                    },
                    Err(SaveFailure::Fetch(e)) => after_cmd_err(*old(self), *final(self), cmd, e@, "Fetch failed"@),
                    Err(SaveFailure::Save(e)) => after_cmd_err(*old(self), *final(self), cmd, e@, "Save failed"@),
                }
            }),
    {
        let cmd = concat4("bw edit item ", self.edit_item_id.as_str(), " --session ", self.session_key_display());
        match result {
            Ok(updated) => {
                let name = updated.name.clone();
                if let Some(k) = find_id(&self.items, self.edit_item_id.as_str()) {
                    self.items.set(k, updated);
                }
                self.sort_items();
                let detail = concat("saved: ", name.as_str());
                self.push_cmd(cmd.as_str(), true, detail.as_str());
                self.set_action(ActionState::Done(owned("Saved ✓")));
                self.edit_mode = false;
            },
            Err(SaveFailure::Fetch(e)) => self.cmd_err(cmd.as_str(), e.as_str(), "Fetch failed"),
            Err(SaveFailure::Save(e)) => self.cmd_err(cmd.as_str(), e.as_str(), "Save failed"),
        }
    }
}

/// `a` is `b` after locking the vault.
pub open spec fn locked_vault(b: App, a: App) -> bool {
    &&& a.bw.session_key is None
    &&& a.items@.len() == 0
    &&& a.password_input@.len() == 0
    &&& log_views(a.cmd_log@) == log_after(log_views(b.cmd_log@), (redact("bw lock"@, None), true, "vault locked"@))
    &&& action_view(a.action_state) == done("Locked ✓"@)
    &&& (a == (App {
            bw: a.bw,
            screen: Screen::Login,
            items: a.items,
            password_input: a.password_input,
            password_cursor: 0,
            active_field: LoginField::Password,
            cmd_log: a.cmd_log,
            cmd_log_scroll: 0,
            action_state: a.action_state,
            action_tick: 0,
            ..b
        }))
}

impl App {
    /// Drops every item with the given id, keeping the selection within the list.
    fn drop_items_with_id(&mut self, id: &str)
        ensures
            final(self).items@ == without_id(old(self).items@, id@),
            final(self).selected_index == if old(self).selected_index >= final(self).items@.len() && final(self).items@.len() > 0 {
                (final(self).items@.len() - 1) as usize
            } else {
                old(self).selected_index
            },
            *final(self) == (App { items: final(self).items, selected_index: final(self).selected_index, ..*old(self) }),
    {
        let mut taken: Vec<Item> = Vec::new();
        std::mem::swap(&mut taken, &mut self.items);
        self.items = remove_id(taken, id);
        if self.selected_index >= self.items.len() && self.items.len() > 0 {
            self.selected_index = self.items.len() - 1;
        }
    }

    /// Takes the result of deleting the selection: on success every item
    /// with its id leaves the list, and the selection stays within it.
    #[verifier::rlimit(40)]
    pub fn do_delete_item(&mut self, permanent: bool, deleted: Result<(), String>)
        ensures
            old(self).selected() is None ==> *final(self) == *old(self),
            old(self).selected() is Some ==> {
                let item = old(self).selected()->0;
                let cmd = "bw delete item "@ + item.id@ + (if permanent { " --permanent"@ } else { ""@ }) + " --session "@ + display_key(old(self).bw.session_key);
                match deleted {
                    Ok(_) => {
                        let items = without_id(old(self).items@, item.id@);
                        &&& final(self).items@ == items
                        &&& final(self).selected_index == if old(self).selected_index >= items.len() && items.len() > 0 {
                            (items.len() - 1) as usize
                        } else {
                            old(self).selected_index
                        }
                        &&& action_view(final(self).action_state) == done(if permanent { "Deleted ✓"@ } else { "Trashed ✓"@ })
                        &&& log_views(final(self).cmd_log@) == log_after(log_views(old(self).cmd_log@), (redact(cmd, old(self).bw.session_key), true, item.name@ + " "@ + if permanent { "deleted permanently"@ } else { "moved to trash"@ }))
                        &&& *final(self) == (App {
                            items: final(self).items,
                            selected_index: final(self).selected_index,
                            cmd_log: final(self).cmd_log,
                            cmd_log_scroll: 0,
                            action_state: final(self).action_state,
                            action_tick: 0,
                            ..*old(self)
                        })
                    },
                    Err(e) => after_cmd_err(*old(self), *final(self), cmd, e@, "Delete failed"@),
                }
            },
    {
        let (id, name) = match self.selected_item() {
            Some(item) => (item.id.clone(), item.name.clone()),
            None => return ,
        };
        let perm_str = if permanent { " --permanent" } else { "" };
        let head = concat3("bw delete item ", id.as_str(), perm_str);
        let cmd = concat3(head.as_str(), " --session ", self.session_key_display());
        match deleted {
            Ok(()) => {
                self.drop_items_with_id(id.as_str());
                let label = if permanent { "deleted permanently" } else { "moved to trash" };
                let detail = concat3(name.as_str(), " ", label);
                self.push_cmd(cmd.as_str(), true, detail.as_str());
                self.set_action(ActionState::Done(owned(if permanent { "Deleted ✓" } else { "Trashed ✓" })));
            },
            Err(e) => self.cmd_err(cmd.as_str(), e.as_str(), "Delete failed"),
        }
    }

    /// Locks the vault: forgets the session and the items, clears the
    /// password, and shows the login screen on the password field.
    pub fn lock_vault(&mut self)
        ensures
            locked_vault(*old(self), *final(self)),
    {
        self.bw.lock();
        self.screen = Screen::Login;
        self.items = Vec::new();
        self.password_input = String::new();
        self.password_cursor = 0;
        self.active_field = LoginField::Password;
        self.push_cmd("bw lock", true, "vault locked");
        self.set_action(ActionState::Done(owned("Locked ✓")));
    }

    /// Whether auto-lock is due: it is on, the vault or a detail is shown,
    /// and `idle_secs` of inactivity reach the limit.
    pub fn auto_lock_due(&self, idle_secs: u64) -> (b: bool)
        ensures
            b == (self.auto_lock && (self.screen == Screen::Vault || self.screen == Screen::Detail)
                && idle_secs >= self.lock_after_secs),
    {
        if !self.auto_lock {
            return false;
        }
        if self.screen != Screen::Vault && self.screen != Screen::Detail {
            return false;
        }
        idle_secs >= self.lock_after_secs
    }

    /// Locks the vault when auto-lock is due after `idle_secs` without input;
    /// returns whether it did.
    pub fn check_auto_lock(&mut self, idle_secs: u64) -> (locked: bool)
        ensures
            locked == old(self).auto_lock_due_spec(idle_secs),
            !locked ==> *final(self) == *old(self),
            locked ==> locked_vault(*old(self), *final(self)),
    {
        if self.auto_lock_due(idle_secs) {
            self.lock_vault();
            true
        } else {
            false
        }
    }

    pub open spec fn auto_lock_due_spec(&self, idle_secs: u64) -> bool {
        self.auto_lock && (self.screen == Screen::Vault || self.screen == Screen::Detail)
            && idle_secs >= self.lock_after_secs
    }

    /// Pre-fills the e-mail reported by `bw status` when none is typed, and
    /// puts the cursor on the password.
    fn apply_locked_state(&mut self, user_email: Option<String>)
        ensures
            ({
                let fill = user_email is Some && user_email->0@.len() > 0 && old(self).email_input@.len() == 0;
                &&& fill ==> final(self).email_input == user_email->0 && final(self).email_cursor == byte_len(user_email->0@)
                &&& !fill ==> final(self).email_input == old(self).email_input && final(self).email_cursor == old(self).email_cursor
                &&& *final(self) == (App {
                    email_input: final(self).email_input,
                    email_cursor: final(self).email_cursor,
                    active_field: LoginField::Password,
                    ..*old(self)
                })
            }),
    {
        if let Some(email) = user_email {
            if !email.as_str().is_empty() && self.email_input.as_str().is_empty() {
                self.email_cursor = byte_length(email.as_str());
                self.email_input = email;
            }
        }
        self.active_field = LoginField::Password;
    }

    /// Takes what `bw status` reported at startup, and the `BW_SESSION`
    /// environment value. Returns whether the session was resumed, in which
    /// case the vault is to be loaded (`finish_resume`).
    pub fn resume_from_status(&mut self, info: Result<BwStatusInfo, String>, env_session: Option<String>) -> (resumed: bool)
        ensures
            match info {
                Err(e) => !resumed && after_log(*old(self), *final(self), "bw status"@, false, e@),
                Ok(i) => {
                    let key_ok = i.status == VaultStatus::Unlocked && env_session is Some && trim(env_session->0@).len() > 0;
                    let first = log_after(log_views(old(self).cmd_log@), (redact("bw status"@, old(self).bw.session_key), true, status_word(i.status)));
                    let fill_any = old(self).email_input@.len() == 0 && i.user_email is Some;
                    let fill = fill_any && i.user_email->0@.len() > 0;
                    let filled = if key_ok { fill_any } else { i.status != VaultStatus::Unauthenticated && fill };
                    &&& resumed == key_ok
                    &&& (key_ok ==> final(self).bw.session_key is Some && final(self).bw.session_key->0@ == trim(env_session->0@))
                    &&& (!key_ok ==> final(self).bw.session_key == old(self).bw.session_key)
                    &&& (key_ok ==> log_views(final(self).cmd_log@) == log_after(first, (redact("bw status"@, final(self).bw.session_key), true, "session resumed from BW_SESSION"@)))
                    &&& (!key_ok ==> log_views(final(self).cmd_log@) == first)
                    &&& (filled ==> final(self).email_input == i.user_email->0 && final(self).email_cursor == byte_len(i.user_email->0@))
                    &&& (!filled ==> final(self).email_input == old(self).email_input && final(self).email_cursor == old(self).email_cursor)
                    &&& (i.status == VaultStatus::Unauthenticated || key_ok ==> final(self).active_field == old(self).active_field)
                    &&& (i.status != VaultStatus::Unauthenticated && !key_ok ==> final(self).active_field == LoginField::Password)
                    &&& *final(self) == (App {
                        cmd_log: final(self).cmd_log,
                        cmd_log_scroll: 0,
                        email_input: final(self).email_input,
                        email_cursor: final(self).email_cursor,
                        active_field: final(self).active_field,
                        bw: final(self).bw,
                        ..*old(self)
                    })
                },
            },
    {
        let i = match info {
            Ok(i) => i,
            Err(e) => {
                self.push_cmd("bw status", false, e.as_str());
                return false;
            },
        };
        let shown = match i.status {
            VaultStatus::Unlocked => "Unlocked",
            VaultStatus::Locked => "Locked",
            VaultStatus::Unauthenticated => "Unauthenticated",
        };
        self.push_cmd("bw status", true, shown);
        match i.status {
            VaultStatus::Unlocked => {
                if let Some(key) = env_session {
                    let k = trim_str(key.as_str());
                    if !k.as_str().is_empty() {
                        self.bw.session_key = Some(k);
                        if self.email_input.as_str().is_empty() {
                            if let Some(email) = i.user_email {
                                self.email_cursor = byte_length(email.as_str());
                                self.email_input = email;
                            }
                        }
                        self.push_cmd("bw status", true, "session resumed from BW_SESSION");
                        return true;
                    }
                }
                self.apply_locked_state(i.user_email);
                false
            },
            VaultStatus::Locked => {
                self.apply_locked_state(i.user_email);
                false
            },
            VaultStatus::Unauthenticated => false,
        }
    }

    /// Loads the vault of a resumed session and shows it.
    pub fn finish_resume(&mut self, listed: Result<Vec<Item>, String>)
        ensures
            final(self).screen == Screen::Vault,
            final(self).focus == Focus::List,
            final(self).selected_index == 0,
            final(self).scroll_offset == 0,
            ({
                let cmd = "bw list items --session "@ + display_key(old(self).bw.session_key);
                let loaded = App {
                    screen: old(self).screen,
                    focus: old(self).focus,
                    selected_index: old(self).selected_index,
                    scroll_offset: old(self).scroll_offset,
                    ..*final(self)
                };
                match listed {
                    Ok(items) => {
                        &&& final(self).items@ == sorted_by_name(items@)
                        &&& log_views(final(self).cmd_log@) == log_after(log_views(old(self).cmd_log@), (redact(cmd, old(self).bw.session_key), true, decimal(items@.len()) + " items loaded"@))
                        &&& action_view(final(self).action_state) == running("Loading vault…"@)
                        &&& loaded == (App {
                            items: final(self).items,
                            cmd_log: final(self).cmd_log,
                            cmd_log_scroll: 0,
                            action_state: final(self).action_state,
                            action_tick: 0,
                            ..*old(self)
                        })
                    },
                    Err(e) => after_cmd_err(*old(self), loaded, cmd, e@, "Load failed"@),
                }
            }),
    {
        self.load_items(listed);
        self.go_to_vault();
    }
}


/// The status word logged for `bw status`.
pub open spec fn status_word(s: VaultStatus) -> Seq<char> {
    match s {
        VaultStatus::Unlocked => "Unlocked"@,
        VaultStatus::Locked => "Locked"@,
        VaultStatus::Unauthenticated => "Unauthenticated"@,
    }
}

// ── Laws of the command log ───────────────────────────────────────────────

/// A logged command never shows the session key: each occurrence becomes
/// `***` (for a key that is not empty and holds no `*`).
pub proof fn law_session_key_never_logged(cmd: Seq<char>, key: String)
    requires
        key@.len() > 0,
        crate::text::star_free(key@),
    ensures
        !crate::text::contains(redact(cmd, Some(key)), key@),
{
    crate::text::lemma_replace_removes_key(cmd, key@);
}

/// The command log keeps its last entries only, at most `CMD_LOG_MAX`,
/// with the newest last.
pub proof fn law_log_keeps_last_entries(l: Seq<(Seq<char>, bool, Seq<char>)>, e: (Seq<char>, bool, Seq<char>))
    requires
        l.len() <= CMD_LOG_MAX,
    ensures
        log_after(l, e).len() <= CMD_LOG_MAX,
        log_after(l, e).last() == e,
        log_after(l, e) == l.push(e).skip(l.push(e).len() - log_after(l, e).len()),
{
    assert(l.push(e).skip(0) =~= l.push(e));
    assert(l.push(e).drop_first() =~= l.push(e).skip(1));
}


proof fn lemma_first_with_id_found(s: Seq<Item>, id: Seq<char>, j: int)
    requires
        0 <= j < s.len(),
        s[j].id@ == id,
    ensures
        0 <= first_with_id(s, id) <= j,
        s[first_with_id(s, id)].id@ == id,
    decreases s.len(),
{
    if s[0].id@ != id {
        lemma_first_with_id_found(s.drop_first(), id, j - 1);
    }
}

/// A created item goes into the list: afterwards the list holds it, and the
/// selection (the first item with its id) is on an item with its id.
pub proof fn law_created_item_selected(items: Seq<Item>, item: Item)
    ensures
        ({
            let s = sorted_by_name(items.push(item));
            let k = first_with_id(s, item.id@);
            &&& s.contains(item)
            &&& 0 <= k < s.len()
            &&& s[k].id@ == item.id@
        }),
{
    broadcast use vstd::seq_lib::group_to_multiset_ensures;

    let all = items.push(item);
    let s = sorted_by_name(all);
    crate::search::law_sorted_by_name(all);
    assert(all[items.len() as int] == item);
    assert(all.contains(item));
    assert(s.to_multiset().count(item) == all.to_multiset().count(item));
    assert(s.contains(item));
    let j = choose|j: int| 0 <= j < s.len() && s[j] == item;
    lemma_first_with_id_found(s, item.id@, j);
}

impl App {
    /// Takes the queued action out, leaving none queued; the main loop then
    /// carries it out.
    pub fn take_pending(&mut self) -> (p: PendingAction)
        ensures
            pending_view(p) == pending_view(old(self).pending_action),
            pending_view(final(self).pending_action) == no_pending(),
            *final(self) == (App { pending_action: final(self).pending_action, ..*old(self) }),
    {
        let mut p = PendingAction::Nothing;
        std::mem::swap(&mut p, &mut self.pending_action);
        p
    }
}

} // verus!
