use bytewarden::view::{logo_rows, LogoCell, LogoRow};
use bytewarden::app::{App, Config, ActionState, Focus};
use bytewarden::view::{
    spinner_frame, action_text, poll_timeout, tick_state, key_hints, hints_text, cmd_bar_text,
    log_window, cmd_log_height, position_text, type_column, bullets, split_at_cursor, cursor_parts,
    star_at, Star, trim_banner,
};

#[test]
fn spinner_turns_every_three_ticks() {
    let frames: Vec<&str> = (0u8..12).map(spinner_frame).collect();
    assert_eq!(frames, vec!["-", "-", "-", "\\", "\\", "\\", "|", "|", "|", "/", "/", "/"]);
    assert_eq!(spinner_frame(255), "\\");
}

#[test]
fn feedback_texts() {
    assert_eq!(action_text(&ActionState::Idle, 0), "");
    assert_eq!(action_text(&ActionState::Running("Syncing…".to_string()), 4), "\\ Syncing…");
    assert_eq!(action_text(&ActionState::Done("Saved".to_string()), 0), "✓ Saved");
    assert_eq!(action_text(&ActionState::Error("x".to_string()), 0), "✕ x");
    assert_eq!(poll_timeout(&ActionState::Idle), 500);
    assert_eq!(poll_timeout(&ActionState::Done("d".to_string())), 80);
}

#[test]
fn done_feedback_clears_after_nineteen_ticks() {
    let mut a = App::new(Config { save_email: false, email: None, auto_lock: false, lock_after_secs: 900 });
    a.set_action(ActionState::Done("ok".to_string()));
    let mut ticks = 0u8;
    for _ in 0..18 {
        tick_state(&mut a, &mut ticks);
    }
    assert!(matches!(a.action_state, ActionState::Done(_)));
    assert_eq!(ticks, 18);
    tick_state(&mut a, &mut ticks);
    assert!(matches!(a.action_state, ActionState::Idle));
    assert_eq!(ticks, 0);
    a.set_action(ActionState::Running("r".to_string()));
    tick_state(&mut a, &mut ticks);
    assert_eq!(a.action_tick, 1);
}

#[test]
fn key_hint_lines() {
    let h = key_hints(&Focus::Items);
    assert_eq!(hints_text(&h, true), "j/k: select filter  |  Enter: apply  |  Tab: next panel");
    assert_eq!(hints_text(&h, false), "j/k:select filter  Enter:apply  Tab:next panel");
    assert_eq!(key_hints(&Focus::List).len(), 10);
    assert_eq!(hints_text(&[], true), "");
}

#[test]
fn bottom_bar_fits_the_width() {
    assert_eq!(cmd_bar_text(40, "full hints", "short"), " full hints");
    assert_eq!(cmd_bar_text(9, "full hints", "short"), " short");
    assert_eq!(cmd_bar_text(6, "full hints", "short"), " sho");
    assert_eq!(cmd_bar_text(0, "ab", "cd"), " ");
}

#[test]
fn command_log_window() {
    assert_eq!(log_window(10, 0, 7), (3, 10));
    assert_eq!(log_window(10, 4, 7), (0, 6));
    assert_eq!(log_window(3, 5, 7), (0, 0));
    assert_eq!(cmd_log_height(true), 4);
    assert_eq!(cmd_log_height(false), 9);
}

#[test]
fn counters_and_columns() {
    assert_eq!(position_text(0, 0), "0 of 0");
    assert_eq!(position_text(4, 12), "5 of 12");
    assert_eq!(type_column(1), "[Login]       ");
    assert_eq!(type_column(2), "[Secure Note] ");
    assert_eq!(type_column(2).chars().count(), 14);
}

#[test]
fn masks_and_cursor_splits() {
    assert_eq!(bullets(3), "●●●");
    assert_eq!(bullets(0), "");
    assert_eq!(split_at_cursor("héllo", 2), ("hé".to_string(), "llo".to_string()));
    assert_eq!(cursor_parts("ab", 9), ("ab".to_string(), String::new()));
    assert_eq!(cursor_parts("ab", 0), (String::new(), "ab".to_string()));
}

#[test]
fn starfield_cells() {
    assert_eq!(star_at(0, 0), ('\u{2726}', Star::Bright));
    assert_eq!(star_at(0, 1), (' ', Star::Dim));
    assert_eq!(star_at(1, 3), (' ', Star::Dim));
    let (c, s) = star_at(3, 0);
    assert_eq!(((3usize * 17) % 120, c, s), (51, ' ', Star::Dim));
    assert_eq!(star_at(0, 120 * 31 / 31 * 4), ('\u{2726}', Star::Bright));
}

#[test]
fn banner_trimming() {
    let lines: Vec<String> = vec!["  ".into(), "ab".into(), "".into(), "cd".into(), " ".into()];
    assert_eq!(trim_banner(&lines), vec!["ab", "", "cd"]);
    let blank: Vec<String> = vec![" ".into(), "".into()];
    assert_eq!(trim_banner(&blank), vec![" ", ""]);
    assert!(trim_banner(&Vec::new()).is_empty());
}

#[test]
fn hidden_form_fields_show_bullets() {
    let mut f = bytewarden::fields::EditField::new("Password", "abc", true);
    assert_eq!(bytewarden::view::field_display(&f, 8), "●●●●●●●●");
    assert_eq!(bytewarden::view::field_display(&f, 0), "●●●");
    f.revealed = true;
    assert_eq!(bytewarden::view::field_display(&f, 8), "abc");
}

#[test]
fn logo_rows_centre_the_banners_under_a_starry_sky() {
    let top = vec!["".to_string(), " ab".to_string(), "".to_string()];
    let bottom = vec!["xyz".to_string()];
    let rows = logo_rows(7, 6, &top, &bottom);
    assert_eq!(rows.len(), 6);
    // row 0: sky
    match &rows[0] {
        LogoRow::Cells(c) => {
            let (ch, s) = star_at(0, 3);
            assert_eq!(c[3], LogoCell::Sky(ch, s));
        }
        LogoRow::Version => panic!("row 0 is sky"),
    }
    // row 1: " ab", 3 wide, centred at column 2
    match &rows[1] {
        LogoRow::Cells(c) => {
            assert_eq!(c.len(), 7);
            assert_eq!(c[3], LogoCell::Letter('a'));
            assert_eq!(c[4], LogoCell::Letter('b'));
        }
        LogoRow::Version => panic!("row 1 is the top banner"),
    }
    // row 2: "xyz" centred at column 2
    match &rows[2] {
        LogoRow::Cells(c) => assert_eq!(&c[2..5], &[LogoCell::Letter('x'), LogoCell::Letter('y'), LogoCell::Letter('z')]),
        LogoRow::Version => panic!("row 2 is the bottom banner"),
    }
    // version row: 3 + (6 - 4) / 2 = 4
    assert!(matches!(rows[4], LogoRow::Version));
    assert!(matches!(rows[3], LogoRow::Cells(_)));
}

#[test]
fn banner_lines_render_the_word_in_figlet() {
    let lines = bytewarden::view::banner_lines("byte");
    assert!(lines.len() > 1);
    assert!(lines.iter().any(|l| l.contains('_') || l.contains('|')));
}
