use bytewarden::json::{build_item_json_from_fields, patch_edits, push_escaped, find_field};
use bytewarden::fields::{EditField, CreateItemType, build_create_fields};

fn filled(t: CreateItemType, values: &[&str]) -> Vec<EditField> {
    let mut f = build_create_fields(&t);
    for (i, v) in values.iter().enumerate() {
        f[i].value = v.to_string();
    }
    f
}

#[test]
fn login_item_json() {
    let f = filled(CreateItemType::Login, &["Git\"Hub", "octo", "p\\w", "https://x", "line1\nline2"]);
    assert_eq!(
        build_item_json_from_fields(&CreateItemType::Login, &f),
        "{\"type\":1,\"name\":\"Git\\\"Hub\",\"notes\":\"line1\\nline2\",\"login\":{\"username\":\"octo\",\"password\":\"p\\\\w\",\"uris\":[{\"uri\":\"https://x\",\"match\":null}]}}"
    );
}

#[test]
fn note_and_missing_fields_json() {
    let f = filled(CreateItemType::SecureNote, &["N", "text"]);
    assert_eq!(
        build_item_json_from_fields(&CreateItemType::SecureNote, &f),
        "{\"type\":2,\"name\":\"N\",\"notes\":\"text\",\"secureNote\":{\"type\":0}}"
    );
    let card = build_item_json_from_fields(&CreateItemType::Card, &[]);
    assert_eq!(
        card,
        "{\"type\":3,\"name\":\"\",\"notes\":\"\",\"card\":{\"cardholderName\":\"\",\"brand\":\"\",\"number\":\"\",\"expMonth\":\"\",\"expYear\":\"\",\"code\":\"\"}}"
    );
    let id = build_item_json_from_fields(&CreateItemType::Identity, &filled(CreateItemType::Identity, &["Me", "Jo"]));
    assert!(id.starts_with("{\"type\":4,\"name\":\"Me\",\"notes\":\"\",\"identity\":{\"firstName\":\"Jo\",\"lastName\":\"\""));
    assert!(id.ends_with("\"country\":\"\"}}"));
}

#[test]
fn escaping_and_lookup() {
    let mut v: Vec<char> = Vec::new();
    push_escaped(&mut v, "a\"b\\c\nd\te");
    assert_eq!(v.iter().collect::<String>(), "a\\\"b\\\\c\\nd\\te");
    let f = vec![EditField::new("URL", "one", false), EditField::new("URL", "two", false)];
    assert_eq!(find_field(&f, "URL"), Some("one"));
    assert_eq!(find_field(&f, "Name"), None);
}

#[test]
fn patch_plan_for_a_login() {
    let f = vec![
        EditField::new("Name", "N", false),
        EditField::read_only("Type", "Login"),
        EditField::new("Password", "pw", true),
        EditField::new("URL", "https://a", false),
        EditField::new("URL", "https://b", false),
        EditField::new("Notes", "", false),
    ];
    let e = patch_edits(Some(1), &f);
    let keys: Vec<(Option<String>, String)> = e.iter().map(|x| (x.object.clone(), x.key.clone())).collect();
    assert_eq!(
        keys,
        vec![
            (None, "name".to_string()),
            (None, "notes".to_string()),
            (Some("login".to_string()), "password".to_string()),
        ]
    );
    assert_eq!(e[2].value, "pw");
    assert!(e[1].value.is_empty());
    assert_eq!(patch_edits(None, &f).len(), 2);
    assert_eq!(patch_edits(Some(2), &f).len(), 2);
}

#[test]
fn patch_plan_for_card_and_identity() {
    let c = vec![EditField::new("CVV", "123", true), EditField::new("Exp Year", "30", false)];
    let e = patch_edits(Some(3), &c);
    assert_eq!(e.len(), 2);
    assert_eq!(e[0].key, "expYear");
    assert_eq!(e[1].key, "code");
    let i = vec![EditField::new("License", "L", true), EditField::new("ZIP", "1", false), EditField::new("Title", "Dr", false)];
    let ie = patch_edits(Some(4), &i);
    let keys: Vec<&str> = ie.iter().map(|x| x.key.as_str()).collect();
    assert_eq!(keys, vec!["title", "postalCode", "licenseNumber"]);
    assert!(ie.iter().all(|x| x.object.as_deref() == Some("identity")));
}

fn field(label: &str, value: &str) -> EditField {
    EditField::new(label, value, false)
}

#[test]
fn patch_item_json_writes_name_and_login_fields() {
    let base = r#"{"id":"1","type":1,"name":"Old","notes":null,"login":{"username":"a","password":"b","uris":[{"uri":"old","match":null}],"totp":null},"favorite":false}"#;
    let fields = vec![
        EditField::read_only("Type", "Login"),
        field("Name", "New"),
        field("Username", "octo"),
        field("Password", "s3cret"),
        field("URL", "https://example.com"),
    ];
    let out = bytewarden::json::patch_item_json(base, &fields);
    let v: serde_json::Value = serde_json::from_str(&out).unwrap();
    assert_eq!(v["name"], "New");
    assert_eq!(v["login"]["username"], "octo");
    assert_eq!(v["login"]["password"], "s3cret");
    assert_eq!(v["login"]["uris"][0]["uri"], "https://example.com");
    assert!(v["login"]["uris"][0]["match"].is_null());
    assert_eq!(v["id"], "1");
    assert_eq!(v["favorite"], false);
}

#[test]
fn patch_item_json_card_fields_go_under_card() {
    let base = r#"{"type":3,"name":"Visa","card":{"number":"1"}}"#;
    let fields = vec![field("Number", "4111"), field("CVV", "123"), field("Username", "ignored")];
    let out = bytewarden::json::patch_item_json(base, &fields);
    let v: serde_json::Value = serde_json::from_str(&out).unwrap();
    assert_eq!(v["card"]["number"], "4111");
    assert_eq!(v["card"]["code"], "123");
    assert!(v.get("login").is_none());
}

#[test]
fn patch_item_json_keeps_text_that_is_not_json() {
    let fields = vec![field("Name", "New")];
    assert_eq!(bytewarden::json::patch_item_json("not json", &fields), "not json");
}

#[test]
fn patch_item_json_keeps_json_that_is_no_object() {
    let fields = vec![field("Name", "New")];
    assert_eq!(bytewarden::json::patch_item_json("[1, 2]", &fields), "[1, 2]");
}

#[test]
fn favorite_json_sets_the_flag() {
    let out = bytewarden::json::favorite_json(r#"{"name":"A","favorite":false}"#, true).unwrap();
    let v: serde_json::Value = serde_json::from_str(&out).unwrap();
    assert_eq!(v["favorite"], true);
    assert_eq!(v["name"], "A");
}

#[test]
fn favorite_json_reports_a_parse_error() {
    let e = bytewarden::json::favorite_json("{", true).unwrap_err();
    assert!(e.starts_with("JSON parse error: "));
    assert!(e.len() > "JSON parse error: ".len());
}

#[test]
fn patch_item_json_saves_identity_title_middle_and_second_address() {
    let base = r#"{"type":4,"name":"Me","identity":{"title":"Mr","middleName":null,"address2":null}}"#;
    let fields = vec![field("Title", "Dr"), field("Middle", "Q"), field("Address 2", "Flat 3")];
    let out = bytewarden::json::patch_item_json(base, &fields);
    let v: serde_json::Value = serde_json::from_str(&out).unwrap();
    assert_eq!(v["identity"]["title"], "Dr");
    assert_eq!(v["identity"]["middleName"], "Q");
    assert_eq!(v["identity"]["address2"], "Flat 3");
}

#[test]
fn patch_item_json_edits_one_url_and_keeps_the_others() {
    let base = r#"{"type":1,"name":"A","login":{"uris":[{"uri":"a.com","match":1},{"uri":"b.com","match":null}]}}"#;
    let fields = vec![field("Name", "A"), field("URL", "a.com"), field("URL", "c.com")];
    let out = bytewarden::json::patch_item_json(base, &fields);
    let v: serde_json::Value = serde_json::from_str(&out).unwrap();
    let uris = v["login"]["uris"].as_array().unwrap();
    assert_eq!(uris.len(), 2);
    assert_eq!(uris[0]["uri"], "a.com");
    assert_eq!(uris[0]["match"], 1);
    assert_eq!(uris[1]["uri"], "c.com");
    assert!(uris[1]["match"].is_null());
}

#[test]
fn patch_item_json_saves_custom_fields() {
    let base = r#"{"type":2,"name":"N","notes":"x","fields":[{"name":"pin","value":"1","type":1},{"name":"code","value":"2","type":0}]}"#;
    let fields = vec![
        field("Name", "N"),
        EditField::read_only("Type", "Secure Note"),
        field("pin", "9"),
        field("code", "8"),
        field("Notes", "y"),
    ];
    let out = bytewarden::json::patch_item_json(base, &fields);
    let v: serde_json::Value = serde_json::from_str(&out).unwrap();
    assert_eq!(v["fields"][0]["value"], "9");
    assert_eq!(v["fields"][0]["name"], "pin");
    assert_eq!(v["fields"][1]["value"], "8");
    assert_eq!(v["notes"], "y");
}

#[test]
fn control_characters_are_escaped() {
    let mut out: Vec<char> = Vec::new();
    push_escaped(&mut out, "a\tb\rc\u{1}\u{8}\u{c}\u{1f}\"\\\n");
    let s: String = out.into_iter().collect();
    assert_eq!(s, "a\\tb\\rc\\u0001\\b\\f\\u001f\\\"\\\\\\n");
}

#[test]
fn new_item_json_with_control_characters_parses() {
    let f = filled(CreateItemType::SecureNote, &["\t", "x\r\u{2}y"]);
    let text = build_item_json_from_fields(&CreateItemType::SecureNote, &f);
    let v: serde_json::Value = serde_json::from_str(&text).unwrap();
    assert_eq!(v["name"], "\t");
    assert_eq!(v["notes"], "x\r\u{2}y");
}
