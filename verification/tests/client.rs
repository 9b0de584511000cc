use bytewarden::client::status_from_output;
use bytewarden::client::{BwClient, CmdOutput, RawStatus, status_info, login_args, unlock_args, status_args, lock_args};
use bytewarden::model::VaultStatus;

fn unlocked() -> BwClient {
    let mut c = BwClient::new();
    c.session_key = Some("KEY".to_string());
    c
}

fn out(success: bool, stdout: &str, stderr: &str) -> CmdOutput {
    CmdOutput { success, stdout: stdout.to_string(), stderr: stderr.to_string() }
}

#[test]
fn commands_need_a_session() {
    let c = BwClient::new();
    assert_eq!(c.session(), Err("Vault is locked".to_string()));
    assert_eq!(c.sync(), Err("Vault is locked".to_string()));
    assert_eq!(c.get_username("id1"), Err("Vault is locked".to_string()));
    assert_eq!(c.delete_item("id1", true), Err("Vault is locked".to_string()));
}

#[test]
fn command_lines_carry_the_session() {
    let c = unlocked();
    assert_eq!(c.sync().unwrap(), vec!["sync", "--session", "KEY"]);
    assert_eq!(c.list_items().unwrap(), vec!["list", "items", "--session", "KEY"]);
    assert_eq!(c.list_trash().unwrap(), vec!["list", "items", "--trash", "--session", "KEY"]);
    assert_eq!(c.get_username("i1").unwrap(), vec!["get", "username", "i1", "--session", "KEY"]);
    assert_eq!(c.get_password("i1").unwrap(), vec!["get", "password", "i1", "--session", "KEY"]);
    assert_eq!(c.get_totp("i1").unwrap(), vec!["get", "totp", "i1", "--session", "KEY"]);
    assert_eq!(c.get_item_json("i1").unwrap(), vec!["get", "item", "i1", "--session", "KEY"]);
    assert_eq!(c.restore_item("i1").unwrap(), vec!["restore", "item", "i1", "--session", "KEY"]);
}

#[test]
fn delete_adds_permanent_only_when_asked() {
    let c = unlocked();
    assert_eq!(c.delete_item("i1", false).unwrap(), vec!["delete", "item", "i1", "--session", "KEY"]);
    assert_eq!(
        c.delete_item("i1", true).unwrap(),
        vec!["delete", "item", "i1", "--session", "KEY", "--permanent"]
    );
}

#[test]
fn create_and_edit_pass_base64_json() {
    let c = unlocked();
    assert_eq!(c.create_item("{}").unwrap(), vec!["create", "item", "e30=", "--session", "KEY"]);
    assert_eq!(c.edit_item("i9", "{}").unwrap(), vec!["edit", "item", "i9", "e30=", "--session", "KEY"]);
}

#[test]
fn auth_command_lines() {
    assert_eq!(login_args("me@x.org", "pw"), vec!["login", "me@x.org", "pw", "--raw"]);
    assert_eq!(unlock_args("pw"), vec!["unlock", "pw", "--raw"]);
    assert_eq!(status_args(), vec!["status", "--nointeraction"]);
    assert_eq!(lock_args(), vec!["lock"]);
}

#[test]
fn login_success_keeps_the_trimmed_key() {
    let mut c = BwClient::new();
    let r = c.login(&out(true, "  abc123\n", ""));
    assert_eq!(r, Ok("abc123".to_string()));
    assert_eq!(c.session_key, Some("abc123".to_string()));
}

#[test]
fn login_failure_reports_stderr() {
    let mut c = BwClient::new();
    let r = c.login(&out(false, "", " Username or password is incorrect. \n"));
    assert_eq!(r, Err("Username or password is incorrect.".to_string()));
    assert_eq!(c.session_key, None);
}

#[test]
fn unlock_then_lock_forgets_session() {
    let mut c = BwClient::new();
    assert_eq!(c.unlock(&out(true, "k2\n", "")), Ok("k2".to_string()));
    assert_eq!(c.session_key, Some("k2".to_string()));
    c.lock();
    assert_eq!(c.session_key, None);
}

#[test]
fn results_of_commands() {
    assert_eq!(BwClient::unit_result(&out(true, "x", "")), Ok(()));
    assert_eq!(BwClient::unit_result(&out(false, "", " nope ")), Err("nope".to_string()));
    assert_eq!(BwClient::field_result(&out(true, " user \n", "")), Ok("user".to_string()));
    assert_eq!(BwClient::item_json_result(&out(true, " {\"a\":1}\n", "")), Ok(" {\"a\":1}\n".to_string()));
    assert_eq!(BwClient::item_json_result(&out(false, "", "gone\n")), Err("gone".to_string()));
}

#[test]
fn status_reading() {
    let raw = RawStatus {
        status: Some("locked".to_string()),
        user_email: Some("a@b.c".to_string()),
        last_sync: Some(String::new()),
        server_url: None,
    };
    let info = status_info(&raw);
    assert_eq!(info.status, VaultStatus::Locked);
    assert_eq!(info.user_email, Some("a@b.c".to_string()));
    assert_eq!(info.last_sync, None);
    let other = RawStatus { status: Some("weird".to_string()), user_email: None, last_sync: None, server_url: None };
    assert_eq!(status_info(&other).status, VaultStatus::Unauthenticated);
    let unlocked = RawStatus { status: Some("unlocked".to_string()), user_email: None, last_sync: None, server_url: None };
    assert_eq!(status_info(&unlocked).status, VaultStatus::Unlocked);
}

#[test]
fn status_from_output_reads_the_status_object() {
    let info = status_from_output("  {\"status\":\"locked\",\"userEmail\":\"a@b.c\",\"lastSync\":null,\"serverUrl\":\"\"}\n").unwrap();
    assert_eq!(info.status, VaultStatus::Locked);
    assert_eq!(info.user_email, Some("a@b.c".to_string()));
    assert_eq!(info.last_sync, None);
    assert_eq!(info.server_url, None);
    let info = status_from_output("{\"status\":\"weird\"}").unwrap();
    assert_eq!(info.status, VaultStatus::Unauthenticated);
    let e = status_from_output("not json").unwrap_err();
    assert!(e.starts_with("bw status JSON parse error: "));
}
