use bytewarden::fields::{
    EditField, CreateItemType, FieldKey, apply_key, build_create_fields, build_edit_fields,
    build_full_name, identity_fields, build_detail_fields, detail_count_of, push_opt_field,
    DetailField,
};
use bytewarden::model::{Item, LoginData, UriData, CardData, IdentityData, Field, item_type_label};

fn item(id: &str, name: &str, t: u8) -> Item {
    Item {
        id: id.to_string(),
        name: name.to_string(),
        item_type: t,
        login: None,
        card: None,
        identity: None,
        notes: None,
        folder_id: None,
        favorite: false,
        fields: Vec::new(),
    }
}

fn login_item() -> Item {
    let mut it = item("l1", "GitHub", 1);
    it.login = Some(LoginData {
        username: Some("octo".to_string()),
        password: Some("secret".to_string()),
        uris: Some(vec![
            UriData { uri: Some("https://github.com".to_string()) },
            UriData { uri: None },
        ]),
        totp: Some("JBSWY3DP".to_string()),
    });
    it.notes = Some("work".to_string());
    it
}

fn labels(fs: &[EditField]) -> Vec<String> {
    fs.iter().map(|f| f.label.clone()).collect()
}

#[test]
fn edit_field_starts_with_cursor_at_end() {
    let f = EditField::new("Name", "héllo", false);
    assert_eq!(f.cursor, 5);
    assert!(!f.read_only && !f.revealed);
    let r = EditField::read_only("Type", "Login");
    assert!(r.read_only);
}

#[test]
fn typing_and_backspace_restore_the_value() {
    let mut f = EditField::new("Name", "ab", false);
    f.cursor_left();
    f.insert('X');
    assert_eq!(f.value, "aXb");
    assert_eq!(f.cursor, 2);
    f.delete_before();
    assert_eq!(f.value, "ab");
    assert_eq!(f.cursor, 1);
}

#[test]
fn cursor_moves_stay_in_range() {
    let mut f = EditField::new("Name", "ab", false);
    f.cursor_right();
    assert_eq!(f.cursor, 2);
    f.cursor_home();
    f.cursor_left();
    assert_eq!(f.cursor, 0);
    f.delete_at();
    assert_eq!(f.value, "b");
    f.cursor_end();
    assert_eq!(f.cursor, 1);
    f.delete_at();
    assert_eq!(f.value, "b");
}

#[test]
fn read_only_field_ignores_edits() {
    let mut f = EditField::read_only("Type", "Card");
    for k in [FieldKey::Insert('z'), FieldKey::DeleteBefore, FieldKey::Home, FieldKey::DeleteAt] {
        apply_key(&mut f, k);
    }
    assert_eq!(f.value, "Card");
}

#[test]
fn toggle_reveal_only_for_hidden_fields() {
    let mut h = EditField::new("Password", "pw", true);
    apply_key(&mut h, FieldKey::ToggleReveal);
    assert!(h.revealed);
    let mut p = EditField::new("Name", "n", false);
    apply_key(&mut p, FieldKey::ToggleReveal);
    assert!(!p.revealed);
}

#[test]
fn create_type_labels() {
    assert_eq!(CreateItemType::Login.label(), "Login");
    assert_eq!(CreateItemType::SecureNote.label(), "Secure Note");
    assert_eq!(CreateItemType::Card.label(), "Card");
    assert_eq!(CreateItemType::Identity.label(), "Identity");
}

#[test]
fn create_forms_per_type() {
    let l = build_create_fields(&CreateItemType::Login);
    assert_eq!(labels(&l), vec!["Name", "Username", "Password", "URL", "Notes"]);
    assert!(l[2].hidden && !l[1].hidden);
    assert!(l.iter().all(|f| f.value.is_empty() && f.cursor == 0));
    let n = build_create_fields(&CreateItemType::SecureNote);
    assert_eq!(labels(&n), vec!["Name", "Notes"]);
    let c = build_create_fields(&CreateItemType::Card);
    assert_eq!(labels(&c), vec!["Name", "Cardholder", "Brand", "Number", "Exp Month", "Exp Year", "CVV", "Notes"]);
    assert!(c[3].hidden && c[6].hidden);
    let i = build_create_fields(&CreateItemType::Identity);
    assert_eq!(i.len(), 12);
    assert_eq!(i[0].label, "Name");
    assert_eq!(i[11].label, "Notes");
}

#[test]
fn edit_form_of_a_login() {
    let f = build_edit_fields(&login_item());
    assert_eq!(labels(&f), vec!["Name", "Type", "Username", "Password", "URL", "URL", "TOTP seed", "Notes"]);
    assert_eq!(f[1].value, "Login");
    assert!(f[1].read_only);
    assert_eq!(f[3].value, "secret");
    assert!(f[3].hidden);
    assert_eq!(f[5].value, "");
    assert_eq!(f[7].value, "work");
}

#[test]
fn edit_form_of_a_card_and_custom_fields() {
    let mut it = item("c1", "Visa", 3);
    it.card = Some(CardData {
        cardholder_name: Some("Jo".to_string()),
        brand: None,
        number: Some("4111".to_string()),
        exp_month: Some("12".to_string()),
        exp_year: None,
        code: Some("123".to_string()),
    });
    it.fields = vec![Field { name: None, value: Some("v".to_string()), field_type: 1 }];
    let f = build_edit_fields(&it);
    assert_eq!(
        labels(&f),
        vec!["Name", "Type", "Cardholder", "Brand", "Number", "Exp Month", "Exp Year", "CVV", "Field", "Notes"]
    );
    assert!(f[8].hidden);
    assert_eq!(f[9].value, "");
}

#[test]
fn full_name_skips_missing_and_empty_parts() {
    assert_eq!(build_full_name(Some("Dr"), Some("Jane"), Some(""), Some("Doe")), "Dr Jane Doe");
    assert_eq!(build_full_name(None, None, None, None), "");
    assert_eq!(build_full_name(None, Some("Solo"), None, None), "Solo");
}

#[test]
fn identity_field_order() {
    let id = IdentityData {
        title: None, first_name: None, middle_name: None, last_name: None,
        email: Some("e@x".to_string()), phone: None, company: None, ssn: Some("1".to_string()),
        passport: None, license: None, address1: None, address2: None, city: None, state: None,
        postal_code: None, country: None,
    };
    let f = identity_fields(&id);
    let ls: Vec<&str> = f.iter().map(|p| p.0).collect();
    assert_eq!(ls, vec!["Email", "Phone", "Company", "Address", "Address 2", "City", "State", "ZIP", "Country", "SSN", "Passport", "License"]);
    assert_eq!(f[0].1, &Some("e@x".to_string()));
}

#[test]
fn detail_fields_mask_secrets() {
    let it = login_item();
    let f = build_detail_fields(&it, false, 0);
    let ls: Vec<&str> = f.iter().map(|d| d.label.as_str()).collect();
    assert_eq!(ls, vec!["Name", "Type", "Username", "Password", "URL", "TOTP", "Notes"]);
    assert_eq!(f[3].value, "●●●●●●●●");
    assert!(f[3].hidden);
    assert_eq!(f[5].value, "●●●●●●");
    let shown = build_detail_fields(&it, true, 3);
    assert_eq!(shown[3].value, "secret");
    assert!(!shown[3].hidden);
    assert_eq!(shown[5].value, "●●●●●●");
    assert_eq!(detail_count_of(&it), 7);
}

#[test]
fn detail_fields_of_a_card() {
    let mut it = item("c1", "Visa", 3);
    it.card = Some(CardData {
        cardholder_name: Some("Jo".to_string()),
        brand: Some(String::new()),
        number: Some("4111111111111111".to_string()),
        exp_month: Some("12".to_string()),
        exp_year: None,
        code: Some("123".to_string()),
    });
    let f = build_detail_fields(&it, false, 0);
    let ls: Vec<&str> = f.iter().map(|d| d.label.as_str()).collect();
    assert_eq!(ls, vec!["Name", "Type", "Cardholder", "Number", "Expiry", "CVV"]);
    assert_eq!(f[1].value, "Card");
    assert_eq!(f[3].value.chars().count(), 16);
    assert_eq!(f[4].value, "12/?");
    assert_eq!(f[5].value, "●●●●");
}

#[test]
fn push_opt_field_skips_empty_values() {
    let mut v: Vec<DetailField> = Vec::new();
    push_opt_field(&mut v, "Brand", &Some(String::new()), false, false, 0);
    push_opt_field(&mut v, "Brand", &None, false, false, 0);
    assert!(v.is_empty());
    push_opt_field(&mut v, "SSN", &Some("12".to_string()), true, true, 0);
    assert_eq!(v[0].value, "12");
    push_opt_field(&mut v, "SSN", &Some("12".to_string()), true, true, 0);
    assert_eq!(v[1].value, "●●●●");
}

#[test]
fn type_labels() {
    assert_eq!(item_type_label(1), "Login");
    assert_eq!(item_type_label(2), "Secure Note");
    assert_eq!(item_type_label(5), "SSH Key");
    assert_eq!(item_type_label(9), "Other");
}

#[test]
fn char_byte_counts_utf8_bytes_before_the_character() {
    let f = EditField::new("Name", "héllo", false);
    assert_eq!(f.char_byte(0), 0);
    assert_eq!(f.char_byte(2), 3);
    assert_eq!(f.char_byte(5), 6);
    assert_eq!(f.char_byte(40), 6);
}

#[test]
fn detail_count_includes_custom_fields_without_a_value() {
    let mut it = item("n1", "Note", 2);
    it.fields = vec![Field { name: Some("pin".to_string()), value: None, field_type: 0 }];
    it.notes = Some("body".to_string());
    let f = build_detail_fields(&it, false, 0);
    assert_eq!(detail_count_of(&it), f.len());
    assert_eq!(f.last().map(|d| d.label.as_str()), Some("Notes"));
}
