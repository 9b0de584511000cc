use bytewarden::app::{clipboard_command, App, Config, Screen, Focus, LoginField, ActionState, PendingAction, ConfigWrite, ClipboardOutcome, SaveFailure};
use bytewarden::model::{Item, LoginData, UriData, BwStatusInfo, VaultStatus};

fn cfg() -> Config {
    Config { save_email: false, email: None, auto_lock: false, lock_after_secs: 900 }
}

fn item(id: &str, name: &str, t: u8) -> Item {
    Item {
        id: id.to_string(),
        name: name.to_string(),
        item_type: t,
        login: None,
        card: None,
        identity: None,
        notes: None,
        folder_id: None,
        favorite: false,
        fields: Vec::new(),
    }
}

fn vault(names: &[&str]) -> App {
    let mut a = App::new(cfg());
    a.screen = Screen::Vault;
    a.bw.session_key = Some("SK".to_string());
    a.items = names.iter().enumerate().map(|(i, n)| item(&format!("id{i}"), n, 1)).collect();
    a
}

fn action(a: &App) -> (u8, String) {
    match &a.action_state {
        ActionState::Idle => (0, String::new()),
        ActionState::Running(m) => (1, m.clone()),
        ActionState::Done(m) => (2, m.clone()),
        ActionState::Error(m) => (3, m.clone()),
    }
}

#[test]
fn new_app_starts_on_login() {
    let a = App::new(cfg());
    assert_eq!(a.screen, Screen::Login);
    assert_eq!(a.active_field, LoginField::Email);
    assert_eq!(a.focus, Focus::List);
    assert!(a.create_choosing_type && !a.edit_mode && !a.should_quit);
    let saved = App::new(Config { save_email: true, email: Some("jö@x.org".to_string()), auto_lock: true, lock_after_secs: 60 });
    assert_eq!(saved.active_field, LoginField::Password);
    assert_eq!(saved.email_input, "jö@x.org");
    assert_eq!(saved.email_cursor, 9);
    assert!(saved.auto_lock);
}

#[test]
fn tab_cycles_vault_panels() {
    let mut a = vault(&[]);
    a.focus = Focus::Search;
    let mut seen = Vec::new();
    for _ in 0..5 {
        a.cycle_focus();
        seen.push(a.focus.clone());
    }
    assert_eq!(seen, vec![Focus::Vaults, Focus::Items, Focus::List, Focus::CmdLog, Focus::Search]);
    a.focus = Focus::Status;
    a.cycle_focus();
    assert_eq!(a.focus, Focus::Search);
    a.focus_panel(2);
    assert_eq!(a.focus, Focus::Items);
    a.focus_panel(9);
    assert_eq!(a.focus, Focus::Items);
}

#[test]
fn logged_commands_hide_the_session_key() {
    let mut a = vault(&[]);
    a.bw.session_key = Some("SECRETKEY".to_string());
    a.push_cmd("bw sync --session SECRETKEY", true, "ok");
    assert_eq!(a.cmd_log[0].cmd, "bw sync --session ***");
    assert!(!a.cmd_log[0].cmd.contains("SECRETKEY"));
    a.bw.session_key = None;
    a.push_cmd("x __NO_SESSION__ y", false, "e");
    assert_eq!(a.cmd_log[1].cmd, "x *** y");
    assert!(!a.cmd_log[1].ok);
}

#[test]
fn command_log_keeps_the_last_fifty() {
    let mut a = vault(&[]);
    for i in 0..60 {
        a.push_cmd(&format!("cmd {i}"), true, "d");
    }
    assert_eq!(a.cmd_log.len(), 50);
    assert_eq!(a.cmd_log[0].cmd, "cmd 10");
    assert_eq!(a.cmd_log[49].cmd, "cmd 59");
    a.cmd_log_scroll_up(100);
    assert_eq!(a.cmd_log_scroll, 49);
    a.cmd_log_scroll_down(5);
    assert_eq!(a.cmd_log_scroll, 44);
    a.cmd_log_scroll_down(100);
    assert_eq!(a.cmd_log_scroll, 0);
}

#[test]
fn login_needs_email_and_password() {
    let mut a = App::new(cfg());
    a.attempt_login();
    assert!(a.login_error);
    assert!(matches!(a.pending_action, PendingAction::Nothing));
    a.email_input = "me@x.org".to_string();
    a.password_input = "pw".to_string();
    a.login_error = false;
    a.attempt_login();
    assert!(matches!(a.pending_action, PendingAction::Login));
    assert_eq!(action(&a), (1, "Logging in…".to_string()));
}

#[test]
fn successful_login_shows_sorted_vault() {
    let mut a = App::new(Config { save_email: true, email: None, auto_lock: false, lock_after_secs: 900 });
    a.email_input = "me@x.org".to_string();
    a.password_input = "pw".to_string();
    a.bw.session_key = Some("K".to_string());
    let w = a.do_login(Ok("K".to_string()), Some(Ok(vec![item("1", "zeta", 1), item("2", "Alpha", 1)])));
    assert!(matches!(w, ConfigWrite::Login { save_email: true, email: Some(ref e) } if e == "me@x.org"));
    assert_eq!(a.screen, Screen::Vault);
    assert_eq!(a.items[0].name, "Alpha");
    assert_eq!(a.password_input, "");
    assert_eq!(action(&a), (2, "Loaded ✓".to_string()));
    assert_eq!(a.cmd_log.last().unwrap().detail, "2 items loaded");
    assert_eq!(a.cmd_log.last().unwrap().cmd, "bw list items --session ***");
}

#[test]
fn failed_login_marks_the_form() {
    let mut a = App::new(cfg());
    a.password_input = "bad".to_string();
    let w = a.do_login(Err("nope".to_string()), None);
    assert!(matches!(w, ConfigWrite::Nothing));
    assert!(a.login_error);
    assert_eq!(a.password_input, "");
    assert_eq!(a.cmd_log[0].cmd, "bw auth *** --raw");
    assert_eq!(a.cmd_log[0].detail, "invalid credentials");
}

#[test]
fn load_failure_is_reported() {
    let mut a = vault(&[]);
    a.load_items(Err("boom".to_string()));
    assert_eq!(action(&a), (3, "Load failed: boom".to_string()));
    assert!(!a.cmd_log[0].ok);
}

#[test]
fn locking_clears_the_vault() {
    let mut a = vault(&["a", "b"]);
    a.password_input = "pw".to_string();
    a.lock_vault();
    assert_eq!(a.screen, Screen::Login);
    assert!(a.items.is_empty());
    assert_eq!(a.bw.session_key, None);
    assert_eq!(a.active_field, LoginField::Password);
    assert_eq!(a.cmd_log[0].cmd, "bw lock");
    assert_eq!(action(&a), (2, "Locked ✓".to_string()));
}

#[test]
fn auto_lock_after_the_limit() {
    let mut a = vault(&["a"]);
    a.auto_lock = true;
    assert!(!a.check_auto_lock(899));
    assert_eq!(a.screen, Screen::Vault);
    assert!(a.check_auto_lock(900));
    assert_eq!(a.screen, Screen::Login);
    let mut off = vault(&["a"]);
    assert!(!off.check_auto_lock(100000));
}

#[test]
fn list_scrolls_with_the_selection() {
    let names: Vec<String> = (0..25).map(|i| format!("item{i:02}")).collect();
    let refs: Vec<&str> = names.iter().map(|s| s.as_str()).collect();
    let mut a = vault(&refs);
    for _ in 0..20 {
        a.move_down();
    }
    assert_eq!(a.selected_index, 20);
    assert_eq!(a.scroll_offset, 1);
    a.move_down_page();
    assert_eq!(a.selected_index, 24);
    a.move_up_page();
    assert_eq!(a.selected_index, 14);
    a.move_up();
    assert_eq!(a.selected_index, 13);
}

#[test]
fn filtering_and_search() {
    let mut a = vault(&["Mail", "Bank"]);
    a.items[1].item_type = 3;
    a.filter_selected = 3;
    a.apply_filter();
    assert_eq!(a.filtered_len(), 1);
    assert_eq!(a.selected_item().unwrap().name, "Bank");
    a.filter_selected = 0;
    a.apply_filter();
    a.search_query = "mai".to_string();
    assert_eq!(a.filtered_len(), 1);
    a.clear_search();
    assert_eq!(a.filtered_len(), 2);
    assert_eq!(a.focus, Focus::List);
    assert_eq!(a.count_for(&bytewarden::search::ItemFilter::Card), 1);
}

#[test]
fn copying_queues_actions() {
    let mut a = vault(&["Mail"]);
    a.items[0].login = Some(LoginData {
        username: Some("me".to_string()),
        password: Some("pw".to_string()),
        uris: Some(vec![UriData { uri: Some("https://m.x".to_string()) }]),
        totp: None,
    });
    a.copy_username_to_clipboard();
    assert!(matches!(a.pending_action, PendingAction::CopyUsername));
    a.detail_field = 4;
    a.copy_selected_field();
    match &a.pending_action {
        PendingAction::CopyRaw(t, m) => {
            assert_eq!(t, "https://m.x");
            assert_eq!(m, "URL copied ✓");
        },
        _ => panic!("expected a raw copy"),
    }
    a.detail_field = 1;
    a.pending_action = PendingAction::Nothing;
    a.copy_selected_field();
    assert!(matches!(a.pending_action, PendingAction::Nothing));
    let req = a.do_copy_username(Ok("me".to_string())).unwrap();
    assert_eq!(req.text, "me");
    assert_eq!(req.success_msg, "Username copied ✓");
    assert!(a.do_copy_password(Err("no".to_string())).is_none());
    assert_eq!(action(&a), (3, "Failed: no".to_string()));
}

#[test]
fn clipboard_outcomes() {
    let mut a = vault(&[]);
    a.clipboard_result(ClipboardOutcome::NoTool, "ok");
    assert_eq!(action(&a), (3, "No clipboard tool found (install wl-copy or xclip)".to_string()));
    a.clipboard_result(ClipboardOutcome::Written("wl-copy".to_string()), "Copied!");
    assert_eq!(a.cmd_log[1].cmd, "echo [hidden] | wl-copy");
    a.clipboard_result(ClipboardOutcome::SpawnFailed("xclip".to_string(), "e".to_string()), "x");
    assert_eq!(action(&a), (3, "Clipboard error: e".to_string()));
    assert_eq!(a.cmd_log[2].detail, "spawn failed: e");
}

#[test]
fn favorite_create_edit_delete_results() {
    let mut a = vault(&["b", "a"]);
    a.sort_items();
    a.do_toggle_favorite(Ok("a".to_string()));
    assert!(a.items[0].favorite);
    assert_eq!(action(&a), (2, "★ Favorited".to_string()));
    a.do_create_item(Ok(item("n", "c", 2)));
    assert_eq!(a.items.len(), 3);
    assert_eq!(a.selected_index, 2);
    assert_eq!(a.screen, Screen::Vault);
    a.do_create_item(Err("x".to_string()));
    assert_eq!(action(&a), (3, "Create failed: x".to_string()));
    a.edit_item_id = "id1".to_string();
    a.edit_mode = true;
    a.do_save_edit(Ok(item("id1", "aa", 1)));
    assert!(!a.edit_mode);
    assert_eq!(a.items[0].name, "aa");
    a.do_save_edit(Err(SaveFailure::Fetch("f".to_string())));
    assert_eq!(action(&a), (3, "Fetch failed: f".to_string()));
    a.do_save_edit(Err(SaveFailure::Save("s".to_string())));
    assert_eq!(action(&a), (3, "Save failed: s".to_string()));
    a.do_sync_vault(Err("net".to_string()), None);
    assert_eq!(action(&a), (3, "Sync failed: net".to_string()));
}

#[test]
fn startup_session_resume() {
    let mut a = App::new(cfg());
    let info = BwStatusInfo { status: VaultStatus::Unlocked, user_email: Some("u@x".to_string()), last_sync: None, server_url: None };
    assert!(a.resume_from_status(Ok(info), Some(" KEY ".to_string())));
    assert_eq!(a.bw.session_key, Some("KEY".to_string()));
    a.finish_resume(Ok(vec![item("1", "x", 1)]));
    assert_eq!(a.screen, Screen::Vault);
    let mut b = App::new(cfg());
    let locked = BwStatusInfo { status: VaultStatus::Locked, user_email: Some("u@x".to_string()), last_sync: None, server_url: None };
    assert!(!b.resume_from_status(Ok(locked), None));
    assert_eq!(b.email_input, "u@x");
    assert_eq!(b.active_field, LoginField::Password);
    let mut c = App::new(cfg());
    assert!(!c.resume_from_status(Err("timeout".to_string()), None));
    assert!(!c.cmd_log[0].ok);
}

#[test]
fn create_flow_requires_a_name() {
    let mut a = vault(&[]);
    a.open_create();
    assert_eq!(a.screen, Screen::Create);
    a.create_type_idx = 1;
    a.create_select_type();
    assert!(!a.create_choosing_type);
    assert_eq!(a.create_fields.len(), 2);
    a.queue_create_item();
    assert_eq!(action(&a), (3, "Name is required".to_string()));
    a.create_insert_char('N');
    a.queue_create_item();
    assert!(matches!(a.pending_action, PendingAction::CreateItem));
    a.go_back();
    assert_eq!(a.screen, Screen::Vault);
}

#[test]
fn pending_action_is_taken_once() {
    let mut a = vault(&[]);
    a.sync_vault();
    assert!(matches!(a.take_pending(), PendingAction::SyncVault));
    assert!(matches!(a.take_pending(), PendingAction::Nothing));
}

#[test]
fn clipboard_command_prefers_wayland_then_x11_then_macos() {
    assert_eq!(clipboard_command(true, true, true, true), Some(vec!["wl-copy"]));
    assert_eq!(clipboard_command(false, true, true, false), Some(vec!["xclip", "-selection", "clipboard"]));
    assert_eq!(clipboard_command(false, true, false, false), Some(vec!["xsel", "--clipboard", "--input"]));
    assert_eq!(clipboard_command(false, false, true, true), Some(vec!["pbcopy"]));
    assert_eq!(clipboard_command(false, false, true, false), None);
}

#[test]
fn created_item_is_selected_in_the_sorted_list() {
    let mut a = vault(&["delta", "alpha", "charlie"]);
    a.sort_items();
    a.do_create_item(Ok(item("new", "Bravo", 1)));
    assert_eq!(a.items.len(), 4);
    assert_eq!(a.selected_index, 1);
    assert_eq!(a.selected_item().map(|i| i.name.clone()), Some("Bravo".to_string()));
}

#[test]
fn created_item_is_selected_even_when_its_name_repeats() {
    let mut a = vault(&["Mail", "Bank"]);
    a.sort_items();
    a.do_create_item(Ok(item("fresh", "Mail", 1)));
    assert_eq!(a.selected_item().map(|i| i.id.clone()), Some("fresh".to_string()));
}
