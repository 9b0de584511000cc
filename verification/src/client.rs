//! The Bitwarden CLI client: which `bw` command lines to run, and what their
//! outcomes mean for the session.
//!
//! Running a process is left to the caller: each operation is split into the
//! argument list to hand to `bw`, and a function that takes the process's
//! outcome (exit status and captured output) and returns the operation's result.
use vstd::prelude::*;
use vstd::string::StringSliceAdditionalSpecFns;
use crate::text::{trim, owned, trim_str, str_eq};
use crate::model::{VaultStatus, BwStatusInfo, opt_view};
use crate::base64::{b64, base64_encode};

verus! {

/// What a finished `bw` process left behind: whether it exited successfully,
/// and its standard output and error decoded as text.
#[derive(Debug, Clone)]
pub struct CmdOutput {
    pub success: bool,
    pub stdout: String,
    pub stderr: String,
}

/// The string fields of the JSON object that `bw status` prints
/// (`status`, `userEmail`, `lastSync`, `serverUrl`), each absent when the
/// key is missing or its value is not a string.
#[derive(Debug, Clone)]
pub struct RawStatus {
    pub status: Option<String>,
    pub user_email: Option<String>,
    pub last_sync: Option<String>,
    pub server_url: Option<String>,
}

/// The session key of an unlocked vault, when there is one.
pub struct BwClient {
    pub session_key: Option<String>,
}

/// The message of a command refused for want of a session.
pub open spec fn locked_msg() -> Seq<char> {
    "Vault is locked"@
}

/// The character views of an argument list.
pub open spec fn views(v: Seq<String>) -> Seq<Seq<char>> {
    v.map_values(|s: String| s@)
}

/// `Ok` with the trimmed standard output on success, else `Err` with the
/// trimmed standard error.
pub open spec fn text_outcome(out: CmdOutput) -> Result<Seq<char>, Seq<char>> {
    if out.success {
        Ok(trim(out.stdout@))
    } else {
        Err(trim(out.stderr@))
    }
}

/// `Ok(())` on success, else `Err` with the trimmed standard error.
pub open spec fn unit_outcome(out: CmdOutput) -> Result<(), Seq<char>> {
    if out.success {
        Ok(())
    } else {
        Err(trim(out.stderr@))
    }
}

pub open spec fn res_view(r: Result<String, String>) -> Result<Seq<char>, Seq<char>> {
    match r {
        Ok(s) => Ok(s@),
        Err(e) => Err(e@),
    }
}

pub open spec fn unit_view(r: Result<(), String>) -> Result<(), Seq<char>> {
    match r {
        Ok(()) => Ok(()),
        Err(e) => Err(e@),
    }
}

/// An optional JSON string field, kept only when it is not empty.
pub open spec fn non_empty(o: Option<String>) -> Option<Seq<char>> {
    match o {
        Some(s) => if s@.len() > 0 { Some(s@) } else { None },
        None => None,
    }
}

/// The vault status named by the `status` field; anything but `unlocked` or
/// `locked`, or no such field, counts as unauthenticated.
pub open spec fn status_of(s: Option<String>) -> VaultStatus {
    match s {
        Some(t) => if t@ == "unlocked"@ {
            VaultStatus::Unlocked
        } else if t@ == "locked"@ {
            VaultStatus::Locked
        } else {
            VaultStatus::Unauthenticated
        },
        None => VaultStatus::Unauthenticated,
    }
}

fn arg(s: &str) -> (r: String)
    ensures
        r@ == s@,
{
    owned(s)
}

fn trimmed_outcome(out: &CmdOutput) -> (r: Result<String, String>)
    ensures
        res_view(r) == text_outcome(*out),
{
    if out.success {
        Ok(trim_str(out.stdout.as_str()))
    } else {
        Err(trim_str(out.stderr.as_str()))
    }
}

fn keep_non_empty(o: &Option<String>) -> (r: Option<String>)
    ensures
        opt_view(r) == non_empty(*o),
{
    match o {
        Some(s) => if s.as_str().is_empty() {
            None
        } else {
            Some(s.clone())
        },
        None => None,
    }
}

/// The arguments of `bw status`, which runs without prompting.
pub fn status_args() -> (r: Vec<String>)
    ensures
        views(r@) == seq!["status"@, "--nointeraction"@],
{
    let r = vec![arg("status"), arg("--nointeraction")];
    assert(views(r@) =~= seq!["status"@, "--nointeraction"@]);
    r
}

/// The arguments of `bw login <email> <password> --raw`.
pub fn login_args(email: &str, password: &str) -> (r: Vec<String>)
    ensures
        views(r@) == seq!["login"@, email@, password@, "--raw"@],
{
    let r = vec![arg("login"), arg(email), arg(password), arg("--raw")];
    assert(views(r@) =~= seq!["login"@, email@, password@, "--raw"@]);
    r
}

/// The arguments of `bw unlock <password> --raw`.
pub fn unlock_args(password: &str) -> (r: Vec<String>)
    ensures
        views(r@) == seq!["unlock"@, password@, "--raw"@],
{
    let r = vec![arg("unlock"), arg(password), arg("--raw")];
    assert(views(r@) =~= seq!["unlock"@, password@, "--raw"@]);
    r
}

/// The arguments of `bw lock`.
pub fn lock_args() -> (r: Vec<String>)
    ensures
        views(r@) == seq!["lock"@],
{
    let r = vec![arg("lock")];
    assert(views(r@) =~= seq!["lock"@]);
    r
}

/// The session state read from the fields of `bw status` output.
pub fn status_info(raw: &RawStatus) -> (r: BwStatusInfo)
    ensures
        r.status == status_of(raw.status),
        opt_view(r.user_email) == non_empty(raw.user_email),
        opt_view(r.last_sync) == non_empty(raw.last_sync),
        opt_view(r.server_url) == non_empty(raw.server_url),
{
    let status = match &raw.status {
        Some(t) => if str_eq(t.as_str(), "unlocked") {
            VaultStatus::Unlocked
        } else if str_eq(t.as_str(), "locked") {
            VaultStatus::Locked
        } else {
            VaultStatus::Unauthenticated
        },
        None => VaultStatus::Unauthenticated,
    };
    BwStatusInfo {
        status,
        user_email: keep_non_empty(&raw.user_email),
        last_sync: keep_non_empty(&raw.last_sync),
        server_url: keep_non_empty(&raw.server_url),
    }
}

/// The vault status named by a `status` text, as `status_of` reads it.
pub open spec fn status_of_text(s: Option<Seq<char>>) -> VaultStatus {
    match s {
        Some(t) => if t == "unlocked"@ {
            VaultStatus::Unlocked
        } else if t == "locked"@ {
            VaultStatus::Locked
        } else {
            VaultStatus::Unauthenticated
        },
        None => VaultStatus::Unauthenticated,
    }
}

/// A text kept only when it is not empty.
pub open spec fn non_empty_text(s: Option<Seq<char>>) -> Option<Seq<char>> {
    match s {
        Some(t) => if t.len() > 0 { Some(t) } else { None },
        None => None,
    }
}

/// The session state from what `bw status` printed: its JSON object's
/// `status`, `userEmail`, `lastSync` and `serverUrl` strings, read by
/// `status_info`; or `bw status JSON parse error: <message>` for output
/// (trimmed) that is no JSON.
pub fn status_from_output(stdout: &str) -> (r: Result<BwStatusInfo, String>)
    ensures
        match crate::json::json_parsed(trim(stdout@)) {
            Err(e) => r matches Err(m) && m@ == "bw status JSON parse error: "@ + e,
            Ok(doc) => r matches Ok(info) && {
                &&& info.status == status_of_text(crate::json::str_member(doc, "status"@))
                &&& opt_view(info.user_email) == non_empty_text(crate::json::str_member(doc, "userEmail"@))
                &&& opt_view(info.last_sync) == non_empty_text(crate::json::str_member(doc, "lastSync"@))
                &&& opt_view(info.server_url) == non_empty_text(crate::json::str_member(doc, "serverUrl"@))
            },
        },
{
    let t = trim_str(stdout);
    match crate::json::parse_json(t.as_str()) {
        Err(e) => Err(crate::text::concat("bw status JSON parse error: ", e.as_str())),
        Ok(doc) => {
            let raw = RawStatus {
                status: crate::json::str_member_exec(&doc, "status"),
                user_email: crate::json::str_member_exec(&doc, "userEmail"),
                last_sync: crate::json::str_member_exec(&doc, "lastSync"),
                server_url: crate::json::str_member_exec(&doc, "serverUrl"),
            };
            Ok(status_info(&raw))
        },
    }
}

impl BwClient {
    /// A client without a session.
    pub fn new() -> (r: Self)
        ensures
            r.session_key is None,
    {
        BwClient { session_key: None }
    }

    /// The session key, or the locked-vault error.
    pub fn session(&self) -> (r: Result<String, String>)
        ensures
            res_view(r) == match self.session_key {
                Some(k) => Ok(k@),
                None => Err(locked_msg()),
            },
    {
        match &self.session_key {
            Some(k) => Ok(k.clone()),
            None => Err(owned("Vault is locked")),
        }
    }

    /// The arguments `prefix` followed by `--session <key>`, or the
    /// locked-vault error when there is no session.
    pub fn with_session(&self, prefix: Vec<String>) -> (r: Result<Vec<String>, String>)
        ensures
            match self.session_key {
                Some(k) => r is Ok && views(r->Ok_0@) == views(prefix@) + seq!["--session"@, k@],
                None => r is Err && r->Err_0@ == locked_msg(),
            },
    {
        match self.session() {
            Ok(k) => {
                let mut v = prefix;
                let ghost p = v@;
                v.push(arg("--session"));
                v.push(k);
                assert(views(v@) =~= views(p) + seq!["--session"@, self.session_key->0@]);
                Ok(v)
            },
            Err(e) => Err(e),
        }
    }

    /// The result of `bw login`: on success the trimmed output is the new
    /// session key, which the client keeps; otherwise the trimmed error text.
    pub fn login(&mut self, out: &CmdOutput) -> (r: Result<String, String>)
        ensures
            res_view(r) == text_outcome(*out),
            r is Ok ==> final(self).session_key == Some(r->Ok_0),
            r is Err ==> final(self).session_key == old(self).session_key,
    {
        let r = trimmed_outcome(out);
        if let Ok(key) = &r {
            self.session_key = Some(key.clone());
        }
        r
    }

    /// The result of `bw unlock`, read as for `login`.
    pub fn unlock(&mut self, out: &CmdOutput) -> (r: Result<String, String>)
        ensures
            res_view(r) == text_outcome(*out),
            r is Ok ==> final(self).session_key == Some(r->Ok_0),
            r is Err ==> final(self).session_key == old(self).session_key,
    {
        self.login(out)
    }

    /// Forgets the session, whatever `bw lock` reported.
    pub fn lock(&mut self)
        ensures
            final(self).session_key is None,
    {
        self.session_key = None;
    }

    /// The arguments of `bw list items --session <key>`.
    pub fn list_items(&self) -> (r: Result<Vec<String>, String>)
        ensures
            match self.session_key {
                Some(k) => r is Ok && views(r->Ok_0@) == seq!["list"@, "items"@, "--session"@, k@],
                None => r is Err && r->Err_0@ == locked_msg(),
            },
    {
        let v = vec![arg("list"), arg("items")];
        assert(views(v@) =~= seq!["list"@, "items"@]);
        self.with_session(v)
    }

    /// The arguments of `bw list items --trash --session <key>`.
    pub fn list_trash(&self) -> (r: Result<Vec<String>, String>)
        ensures
            match self.session_key {
                Some(k) => r is Ok && views(r->Ok_0@) == seq![
                    "list"@,
                    "items"@,
                    "--trash"@,
                    "--session"@,
                    k@,
                ],
                None => r is Err && r->Err_0@ == locked_msg(),
            },
    {
        let v = vec![arg("list"), arg("items"), arg("--trash")];
        assert(views(v@) =~= seq!["list"@, "items"@, "--trash"@]);
        self.with_session(v)
    }

    /// The arguments of `bw restore item <id> --session <key>`.
    pub fn restore_item(&self, item_id: &str) -> (r: Result<Vec<String>, String>)
        ensures
            match self.session_key {
                Some(k) => r is Ok && views(r->Ok_0@) == seq![
                    "restore"@,
                    "item"@,
                    item_id@,
                    "--session"@,
                    k@,
                ],
                None => r is Err && r->Err_0@ == locked_msg(),
            },
    {
        let v = vec![arg("restore"), arg("item"), arg(item_id)];
        assert(views(v@) =~= seq!["restore"@, "item"@, item_id@]);
        self.with_session(v)
    }

    /// The arguments of `bw sync --session <key>`.
    pub fn sync(&self) -> (r: Result<Vec<String>, String>)
        ensures
            match self.session_key {
                Some(k) => r is Ok && views(r->Ok_0@) == seq!["sync"@, "--session"@, k@],
                None => r is Err && r->Err_0@ == locked_msg(),
            },
    {
        let v = vec![arg("sync")];
        assert(views(v@) =~= seq!["sync"@]);
        self.with_session(v)
    }

    /// The arguments of `bw get <field> <id> --session <key>`.
    pub fn bw_get_field(&self, field: &str, item_id: &str) -> (r: Result<Vec<String>, String>)
        ensures
            match self.session_key {
                Some(k) => r is Ok && views(r->Ok_0@) == seq![
                    "get"@,
                    field@,
                    item_id@,
                    "--session"@,
                    k@,
                ],
                None => r is Err && r->Err_0@ == locked_msg(),
            },
    {
        let v = vec![arg("get"), arg(field), arg(item_id)];
        assert(views(v@) =~= seq!["get"@, field@, item_id@]);
        self.with_session(v)
    }

    /// The arguments of `bw get username <id> --session <key>`.
    pub fn get_username(&self, item_id: &str) -> (r: Result<Vec<String>, String>)
        ensures
            match self.session_key {
                Some(k) => r is Ok && views(r->Ok_0@) == seq![
                    "get"@,
                    "username"@,
                    item_id@,
                    "--session"@,
                    k@,
                ],
                None => r is Err && r->Err_0@ == locked_msg(),
            },
    {
        self.bw_get_field("username", item_id)
    }

    /// The arguments of `bw get password <id> --session <key>`.
    pub fn get_password(&self, item_id: &str) -> (r: Result<Vec<String>, String>)
        ensures
            match self.session_key {
                Some(k) => r is Ok && views(r->Ok_0@) == seq![
                    "get"@,
                    "password"@,
                    item_id@,
                    "--session"@,
                    k@,
                ],
                None => r is Err && r->Err_0@ == locked_msg(),
            },
    {
        self.bw_get_field("password", item_id)
    }

    /// The arguments of `bw get totp <id> --session <key>`.
    pub fn get_totp(&self, item_id: &str) -> (r: Result<Vec<String>, String>)
        ensures
            match self.session_key {
                Some(k) => r is Ok && views(r->Ok_0@) == seq![
                    "get"@,
                    "totp"@,
                    item_id@,
                    "--session"@,
                    k@,
                ],
                None => r is Err && r->Err_0@ == locked_msg(),
            },
    {
        self.bw_get_field("totp", item_id)
    }

    /// The arguments of `bw get item <id> --session <key>`.
    pub fn get_item_json(&self, item_id: &str) -> (r: Result<Vec<String>, String>)
        ensures
            match self.session_key {
                Some(k) => r is Ok && views(r->Ok_0@) == seq![
                    "get"@,
                    "item"@,
                    item_id@,
                    "--session"@,
                    k@,
                ],
                None => r is Err && r->Err_0@ == locked_msg(),
            },
    {
        self.bw_get_field("item", item_id)
    }

    /// The arguments of `bw create item <base64 json> --session <key>`.
    pub fn create_item(&self, item_json: &str) -> (r: Result<Vec<String>, String>)
        ensures
            match self.session_key {
                Some(k) => r is Ok && views(r->Ok_0@) == seq![
                    "create"@,
                    "item"@,
                    b64(item_json.spec_bytes()),
                    "--session"@,
                    k@,
                ],
                None => r is Err && r->Err_0@ == locked_msg(),
            },
    {
        let v = vec![arg("create"), arg("item"), base64_encode(item_json)];
        assert(views(v@) =~= seq!["create"@, "item"@, b64(item_json.spec_bytes())]);
        self.with_session(v)
    }

    /// The arguments of `bw edit item <id> <base64 json> --session <key>`.
    pub fn edit_item(&self, item_id: &str, item_json: &str) -> (r: Result<
        Vec<String>,
        String,
    >)
        ensures
            match self.session_key {
                Some(k) => r is Ok && views(r->Ok_0@) == seq![
                    "edit"@,
                    "item"@,
                    item_id@,
                    b64(item_json.spec_bytes()),
                    "--session"@,
                    k@,
                ],
                None => r is Err && r->Err_0@ == locked_msg(),
            },
    {
        let v = vec![arg("edit"), arg("item"), arg(item_id), base64_encode(item_json)];
        assert(views(v@) =~= seq!["edit"@, "item"@, item_id@, b64(item_json.spec_bytes())]);
        self.with_session(v)
    }

    /// The arguments of `bw delete item <id> --session <key>`, followed by
    /// `--permanent` when the item is to skip the trash.
    pub fn delete_item(&self, item_id: &str, permanent: bool) -> (r: Result<
        Vec<String>,
        String,
    >)
        ensures
            match self.session_key {
                Some(k) => r is Ok && views(r->Ok_0@) == seq![
                    "delete"@,
                    "item"@,
                    item_id@,
                    "--session"@,
                    k@,
                ] + if permanent {
                    seq!["--permanent"@]
                } else {
                    Seq::empty()
                },
                None => r is Err && r->Err_0@ == locked_msg(),
            },
    {
        let v = vec![arg("delete"), arg("item"), arg(item_id)];
        assert(views(v@) =~= seq!["delete"@, "item"@, item_id@]);
        match self.with_session(v) {
            Ok(mut args) => {
                let ghost a = args@;
                if permanent {
                    args.push(arg("--permanent"));
                }
                assert(views(args@) =~= views(a) + if permanent {
                    seq!["--permanent"@]
                } else {
                    Seq::empty()
                });
                Ok(args)
            },
            Err(e) => Err(e),
        }
    }

    /// The result of a command that returns nothing (`restore`, `sync`, `delete`).
    pub fn unit_result(out: &CmdOutput) -> (r: Result<(), String>)
        ensures
            unit_view(r) == unit_outcome(*out),
    {
        if out.success {
            Ok(())
        } else {
            Err(trim_str(out.stderr.as_str()))
        }
    }

    /// The result of `bw get <field>`: the trimmed value, or the trimmed error.
    pub fn field_result(out: &CmdOutput) -> (r: Result<String, String>)
        ensures
            res_view(r) == text_outcome(*out),
    {
        trimmed_outcome(out)
    }

    /// The result of `bw get item`: the item's JSON text as printed, or the
    /// trimmed error.
    pub fn item_json_result(out: &CmdOutput) -> (r: Result<String, String>)
        ensures
            out.success ==> r is Ok && r->Ok_0@ == out.stdout@,
            !out.success ==> r is Err && r->Err_0@ == trim(out.stderr@),
    {
        if out.success {
            Ok(out.stdout.clone())
        } else {
            Err(trim_str(out.stderr.as_str()))
        }
    }
}

} // verus!
