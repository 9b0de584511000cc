use bytewarden::app::{App, Config, Screen, Focus, LoginField, Rect, PendingAction, ConfigWrite};
use bytewarden::events::{
    handle_events, nav_wrap, nav_clamp, Event, KeyEvent, KeyCode, MouseEvent, MouseKind, MOD_NONE,
    MOD_CONTROL, MOD_ALT, key_command_of, Command,
};
use bytewarden::model::{Item, LoginData};

fn cfg() -> Config {
    Config { save_email: false, email: None, auto_lock: false, lock_after_secs: 900 }
}

fn item(id: &str, name: &str) -> Item {
    Item {
        id: id.to_string(),
        name: name.to_string(),
        item_type: 1,
        login: Some(LoginData { username: Some("u".to_string()), password: Some("p".to_string()), uris: None, totp: None }),
        card: None,
        identity: None,
        notes: None,
        folder_id: None,
        favorite: false,
        fields: Vec::new(),
    }
}

fn key(code: KeyCode) -> Event {
    Event::Key(KeyEvent { code, modifiers: MOD_NONE, pressed: true })
}

fn alt_key(c: char) -> Event {
    Event::Key(KeyEvent { code: KeyCode::Char(c), modifiers: MOD_ALT, pressed: true })
}

fn click(column: u16, row: u16) -> Event {
    Event::Mouse(MouseEvent { kind: MouseKind::LeftDown, column, row })
}

fn vault() -> App {
    let mut a = App::new(cfg());
    a.screen = Screen::Vault;
    a.bw.session_key = Some("K".to_string());
    a.items = vec![item("1", "alpha"), item("2", "beta"), item("3", "gamma")];
    a
}

#[test]
fn nav_helpers_wrap_and_clamp() {
    let mut i = 2usize;
    nav_wrap(&mut i, 3, true);
    assert_eq!(i, 0);
    nav_wrap(&mut i, 3, false);
    assert_eq!(i, 2);
    nav_clamp(&mut i, 3, true);
    assert_eq!(i, 2);
    i = 0;
    nav_clamp(&mut i, 3, false);
    assert_eq!(i, 0);
    nav_wrap(&mut i, 0, true);
    assert_eq!(i, 0);
}

#[test]
fn ctrl_c_quits_everywhere() {
    for screen in [Screen::Login, Screen::Vault, Screen::Detail, Screen::Create] {
        let mut a = vault();
        a.screen = screen;
        handle_events(&mut a, Event::Key(KeyEvent { code: KeyCode::Char('c'), modifiers: MOD_CONTROL, pressed: true }));
        assert!(a.should_quit);
    }
}

#[test]
fn releases_are_ignored() {
    let mut a = vault();
    let ev = KeyEvent { code: KeyCode::Char('2'), modifiers: MOD_NONE, pressed: false };
    assert!(matches!(key_command_of(&a, &ev), Command::Nothing));
    handle_events(&mut a, Event::Key(ev));
    assert_eq!(a.focus, Focus::List);
}

#[test]
fn login_tab_order_and_typing() {
    let mut a = App::new(cfg());
    let mut order = Vec::new();
    for _ in 0..4 {
        handle_events(&mut a, key(KeyCode::Tab));
        order.push(a.active_field.clone());
    }
    assert_eq!(order, vec![LoginField::Password, LoginField::SaveEmail, LoginField::AutoLock, LoginField::Email]);
    handle_events(&mut a, key(KeyCode::BackTab));
    assert_eq!(a.active_field, LoginField::AutoLock);
    let fx = handle_events(&mut a, key(KeyCode::Char(' ')));
    assert!(a.auto_lock);
    assert!(matches!(fx.config, ConfigWrite::AutoLock(true)));
    a.active_field = LoginField::Email;
    for c in "me".chars() {
        handle_events(&mut a, key(KeyCode::Char(c)));
    }
    assert_eq!(a.email_input, "me");
    handle_events(&mut a, key(KeyCode::Backspace));
    assert_eq!(a.email_input, "m");
    let pw = a.password_input.clone();
    let field_before = a.active_field.clone();
    handle_events(&mut a, key(KeyCode::F(2)));
    assert_eq!(a.password_input, pw);
    assert_eq!(a.active_field, field_before);
    handle_events(&mut a, key(KeyCode::Enter));
    assert!(a.login_error);
}

#[test]
fn digits_focus_panels_but_type_in_search() {
    let mut a = vault();
    handle_events(&mut a, key(KeyCode::Char('2')));
    assert_eq!(a.focus, Focus::Items);
    handle_events(&mut a, key(KeyCode::Char('0')));
    assert_eq!(a.focus, Focus::Status);
    handle_events(&mut a, key(KeyCode::Char('/')));
    assert_eq!(a.focus, Focus::Search);
    handle_events(&mut a, key(KeyCode::Char('3')));
    assert_eq!(a.focus, Focus::Search);
    assert_eq!(a.search_query, "3");
    handle_events(&mut a, key(KeyCode::Backspace));
    assert_eq!(a.search_query, "");
    handle_events(&mut a, key(KeyCode::Esc));
    assert_eq!(a.focus, Focus::List);
}

#[test]
fn alt_shortcuts_work_in_search_too() {
    let mut a = vault();
    a.focus = Focus::Search;
    handle_events(&mut a, alt_key('u'));
    assert!(matches!(a.pending_action, PendingAction::CopyUsername));
    let mut b = vault();
    handle_events(&mut b, alt_key('n'));
    assert_eq!(b.screen, Screen::Create);
    let mut c = vault();
    let fx = handle_events(&mut c, alt_key('l'));
    assert!(fx.locked);
    assert_eq!(c.screen, Screen::Login);
    let mut d = vault();
    handle_events(&mut d, alt_key('s'));
    assert!(matches!(d.pending_action, PendingAction::SyncVault));
}

#[test]
fn list_keys_move_and_open() {
    let mut a = vault();
    handle_events(&mut a, key(KeyCode::Char('j')));
    assert_eq!(a.selected_index, 1);
    handle_events(&mut a, key(KeyCode::Up));
    assert_eq!(a.selected_index, 0);
    handle_events(&mut a, key(KeyCode::Char('?')));
    assert_eq!(a.screen, Screen::Help);
    handle_events(&mut a, key(KeyCode::Char('x')));
    assert_eq!(a.screen, Screen::Vault);
    handle_events(&mut a, key(KeyCode::Enter));
    assert_eq!(a.screen, Screen::Detail);
}

#[test]
fn detail_keys_hide_again_when_moving() {
    let mut a = vault();
    a.go_to_detail();
    handle_events(&mut a, key(KeyCode::F(2)));
    assert!(a.show_password);
    handle_events(&mut a, key(KeyCode::Tab));
    assert!(!a.show_password);
    assert_eq!(a.detail_field, 1);
    handle_events(&mut a, key(KeyCode::BackTab));
    handle_events(&mut a, key(KeyCode::BackTab));
    assert_eq!(a.detail_field, 3);
    handle_events(&mut a, key(KeyCode::Esc));
    assert_eq!(a.screen, Screen::Vault);
    assert_eq!(a.detail_field, 0);
}

#[test]
fn edit_mode_keys() {
    let mut a = vault();
    a.go_to_detail();
    handle_events(&mut a, alt_key('e'));
    assert!(a.edit_mode);
    assert_eq!(a.edit_field_idx, 0);
    handle_events(&mut a, key(KeyCode::Char('!')));
    assert_eq!(a.edit_fields[0].value, "alpha!");
    handle_events(&mut a, key(KeyCode::Down));
    handle_events(&mut a, key(KeyCode::Char('z')));
    assert_eq!(a.edit_fields[1].value, "Login");
    handle_events(&mut a, key(KeyCode::Esc));
    assert!(!a.edit_mode);
    assert_eq!(a.screen, Screen::Detail);
    assert_eq!(a.items[0].name, "alpha");
}

#[test]
fn confirm_delete_keys() {
    let mut a = vault();
    handle_events(&mut a, alt_key('d'));
    assert_eq!(a.screen, Screen::ConfirmDelete);
    handle_events(&mut a, key(KeyCode::Char('n')));
    assert_eq!(a.screen, Screen::Vault);
    handle_events(&mut a, alt_key('d'));
    handle_events(&mut a, key(KeyCode::Char('D')));
    assert!(matches!(a.pending_action, PendingAction::DeleteItem { permanent: true }));
    assert_eq!(a.screen, Screen::Vault);
}

#[test]
fn create_screen_keys() {
    let mut a = vault();
    a.open_create();
    handle_events(&mut a, key(KeyCode::Char('j')));
    handle_events(&mut a, key(KeyCode::Char('j')));
    assert_eq!(a.create_type_idx, 2);
    handle_events(&mut a, key(KeyCode::BackTab));
    handle_events(&mut a, key(KeyCode::Enter));
    assert!(!a.create_choosing_type);
    assert_eq!(a.create_fields.len(), 2);
    handle_events(&mut a, key(KeyCode::Char('N')));
    handle_events(&mut a, key(KeyCode::Enter));
    assert!(matches!(a.pending_action, PendingAction::CreateItem));
}

#[test]
fn mouse_on_the_vault() {
    let mut a = vault();
    a.mouse_areas.list = Some(Rect { x: 30, y: 3, width: 50, height: 10 });
    a.mouse_areas.items = Some(Rect { x: 0, y: 10, width: 25, height: 10 });
    handle_events(&mut a, click(40, 5));
    assert_eq!(a.focus, Focus::List);
    assert_eq!(a.selected_index, 1);
    assert_eq!(a.last_click, Some((40, 5)));
    handle_events(&mut a, click(40, 5));
    assert_eq!(a.screen, Screen::Detail);
    let mut b = vault();
    b.mouse_areas.items = Some(Rect { x: 0, y: 10, width: 25, height: 10 });
    handle_events(&mut b, click(3, 13));
    assert_eq!(b.focus, Focus::Items);
    assert_eq!(b.filter_selected, 2);
    handle_events(&mut b, Event::Mouse(MouseEvent { kind: MouseKind::ScrollDown, column: 3, row: 13 }));
    assert_eq!(b.filter_selected, 3);
}

#[test]
fn mouse_on_login_and_detail() {
    let mut a = App::new(cfg());
    a.mouse_areas.login = Some(Rect { x: 10, y: 5, width: 40, height: 15 });
    handle_events(&mut a, click(20, 11));
    assert_eq!(a.active_field, LoginField::Password);
    let fx = handle_events(&mut a, click(20, 15));
    assert_eq!(a.active_field, LoginField::SaveEmail);
    assert!(a.save_email);
    assert!(matches!(fx.config, ConfigWrite::Login { save_email: true, .. }));
    let mut d = vault();
    d.go_to_detail();
    d.mouse_areas.detail = Some(Rect { x: 0, y: 2, width: 80, height: 30 });
    handle_events(&mut d, click(5, 10));
    assert_eq!(d.detail_field, 2);
    handle_events(&mut d, click(5, 10));
    assert!(d.show_password);
    handle_events(&mut d, Event::Mouse(MouseEvent { kind: MouseKind::ScrollDown, column: 5, row: 10 }));
    assert_eq!(d.detail_field, 3);
    assert!(!d.show_password);
    handle_events(&mut d, click(5, 0));
    assert_eq!(d.screen, Screen::Vault);
}
