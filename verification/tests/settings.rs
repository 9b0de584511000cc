use bytewarden::config::{read, write_auto_lock, lock_minutes_fit, config_path, config_file, parse_u64_exec};

#[test]
fn reading_the_settings() {
    let c = read("save_email = true\nemail = \"me@x.org\"\n\nauto_lock = true\nlock_after_minutes = 5\n");
    assert!(c.save_email);
    assert_eq!(c.email, Some("me@x.org".to_string()));
    assert!(c.auto_lock);
    assert_eq!(c.lock_after_secs, 300);
}

#[test]
fn reading_defaults_and_oddities() {
    let d = read("");
    assert!(!d.save_email && !d.auto_lock);
    assert_eq!(d.email, None);
    assert_eq!(d.lock_after_secs, 900);
    let c = read("  save_email = yes\r\nemail = \"\"\nauto_lock = TRUE\nlock_after_minutes = +2\nlock_after_minutes = x\n[theme]\n");
    assert!(!c.save_email);
    assert_eq!(c.email, None);
    assert!(!c.auto_lock);
    assert_eq!(c.lock_after_secs, 120);
}

#[test]
fn overflowing_minutes_are_detected() {
    assert!(lock_minutes_fit("lock_after_minutes = 10\n"));
    assert!(!lock_minutes_fit("lock_after_minutes = 18446744073709551615\n"));
    assert!(lock_minutes_fit("lock_after_minutes = 99999999999999999999999\n"));
}

#[test]
fn parsing_numbers_like_std() {
    assert_eq!(parse_u64_exec(&['4', '2']), Some(42));
    assert_eq!(parse_u64_exec(&['+', '7']), Some(7));
    assert_eq!(parse_u64_exec(&['+']), None);
    assert_eq!(parse_u64_exec(&['-', '1']), None);
    assert_eq!(parse_u64_exec(&[]), None);
    let big: Vec<char> = "18446744073709551616".chars().collect();
    assert_eq!(parse_u64_exec(&big), None);
    let max: Vec<char> = "18446744073709551615".chars().collect();
    assert_eq!(parse_u64_exec(&max), Some(u64::MAX));
}

#[test]
fn writing_the_login_settings() {
    let existing = "\nsave_email = false\nemail = \"old@x\"\nauto_lock = true\n\n[theme]\naccent = \"#ffffff\"\n";
    let out = bytewarden::config::write(existing, true, Some("new@x"));
    assert_eq!(out, "save_email = true\nemail = \"new@x\"\n\nauto_lock = true\n\n[theme]\naccent = \"#ffffff\"\n");
    let off = bytewarden::config::write(existing, false, Some("new@x"));
    assert_eq!(off, "save_email = false\n\nauto_lock = true\n\n[theme]\naccent = \"#ffffff\"\n");
    assert_eq!(bytewarden::config::write("", true, None), "save_email = true\n");
}

#[test]
fn writing_the_auto_lock_setting() {
    let out = write_auto_lock("save_email = true\nemail = \"a\"\nauto_lock = false\n", true);
    assert_eq!(out, "save_email = true\nauto_lock = true\nemail = \"a\"\n");
    assert_eq!(write_auto_lock("", false), "auto_lock = false\n");
    assert_eq!(write_auto_lock("x = 1\n", true), "auto_lock = true\nx = 1\n");
}

#[test]
fn written_settings_read_back() {
    let t = write_auto_lock("save_email = false\nlock_after_minutes = 3\n", true);
    let c = read(&t);
    assert!(c.auto_lock);
    assert_eq!(c.lock_after_secs, 180);
    let t2 = bytewarden::config::write(&t, true, Some("me@x.org"));
    let c2 = read(&t2);
    assert!(c2.save_email);
    assert_eq!(c2.email, Some("me@x.org".to_string()));
    assert!(c2.auto_lock);
}

#[test]
fn settings_location() {
    assert_eq!(config_path(Some("/home/u")), "/home/u/.config/bytewarden");
    assert_eq!(config_path(Some("/home/u/")), "/home/u/.config/bytewarden");
    assert_eq!(config_path(None), "./.config/bytewarden");
    assert_eq!(config_file(Some("/root")), "/root/.config/bytewarden/config.toml");
}

#[test]
fn writing_login_settings_keeps_auto_lock() {
    let before = "auto_lock = true\nlock_after_minutes = 5\nsave_email = false\n";
    let after = bytewarden::config::write(before, true, Some("me@x.org"));
    let c = bytewarden::config::read(&after);
    assert!(c.save_email);
    assert_eq!(c.email, Some("me@x.org".to_string()));
    assert!(c.auto_lock);
    assert_eq!(c.lock_after_secs, 300);
}
