//! The JSON the library hands to `bw create item` and `bw edit item`: a new
//! item written out from the create form, and an item as `bw get item`
//! printed it, patched with the edit form's values.
use vstd::prelude::*;
use crate::fields::{EditField, CreateItemType};
use crate::text::{to_chars, from_chars, push_str, append_slice, str_eq};

verus! {

// ── Escaping ──────────────────────────────────────────────────────────────

/// The lowercase hexadecimal digit for `d` (below 16).
pub open spec fn hex_digit(d: u32) -> char {
    if d < 10 {
        (0x30 + d) as char
    } else {
        (0x61 + d - 10) as char
    }
}

/// One character inside a JSON string (RFC 8259): backslash and double
/// quote are escaped, line feed, tab, carriage return, backspace and form
/// feed by their short forms, every other character below U+0020 as
/// `\u00XX`; the rest stays.
pub open spec fn esc_char(c: char) -> Seq<char> {
    if c == '\\' {
        seq!['\\', '\\']
    } else if c == '"' {
        seq!['\\', '"']
    } else if c == '\n' {
        seq!['\\', 'n']
    } else if c == '\t' {
        seq!['\\', 't']
    } else if c == '\r' {
        seq!['\\', 'r']
    } else if c == '\u{8}' {
        seq!['\\', 'b']
    } else if c == '\u{c}' {
        seq!['\\', 'f']
    } else if (c as u32) < 0x20 {
        seq!['\\', 'u', '0', '0', hex_digit((c as u32) / 16), hex_digit((c as u32) % 16)]
    } else {
        seq![c]
    }
}

/// `s` as it stands between the quotes of a JSON string, each character
/// escaped as `esc_char` says.
pub open spec fn json_escape(s: Seq<char>) -> Seq<char>
    decreases s.len(),
{
    if s.len() == 0 {
        Seq::empty()
    } else {
        json_escape(s.drop_last()) + esc_char(s.last())
    }
}

/// An escaped text holds no control character below U+0020, as a JSON
/// string must not.
pub proof fn law_escaped_has_no_control_chars(s: Seq<char>)
    ensures
        forall|i: int| 0 <= i < json_escape(s).len() ==> (#[trigger] json_escape(s)[i]) as u32 >= 0x20,
    decreases s.len(),
{
    if s.len() > 0 {
        law_escaped_has_no_control_chars(s.drop_last());
        let a = json_escape(s.drop_last());
        let e = esc_char(s.last());
        let c = s.last();
        if !(c == '\\' || c == '"' || c == '\n' || c == '\t' || c == '\r' || c == '\u{8}' || c == '\u{c}') && (c as u32) < 0x20 {
            assert((c as u32) / 16 < 10);
            assert(hex_digit((c as u32) / 16) as u32 >= 0x30);
            assert(hex_digit((c as u32) % 16) as u32 >= 0x30);
        }
        assert forall|i: int| 0 <= i < json_escape(s).len() implies (#[trigger] json_escape(s)[i]) as u32 >= 0x20 by {
            if i >= a.len() {
                assert(json_escape(s)[i] == e[i - a.len()]);
            } else {
                assert(json_escape(s)[i] == a[i]);
            }
        }
    }
}

fn hex_digit_exec(d: u32) -> (r: char)
    requires
        d < 16,
    ensures
        r == hex_digit(d),
{
    if d < 10 {
        ((0x30 + d) as u8) as char
    } else {
        ((0x61 + d - 10) as u8) as char
    }
}

fn esc_char_exec(out: &mut Vec<char>, c: char)
    ensures
        final(out)@ == old(out)@ + esc_char(c),
{
    let ghost o0 = out@;
    if c == '\\' {
        out.push('\\');
        out.push('\\');
    } else if c == '"' {
        out.push('\\');
        out.push('"');
    } else if c == '\n' {
        out.push('\\');
        out.push('n');
    } else if c == '\t' {
        out.push('\\');
        out.push('t');
    } else if c == '\r' {
        out.push('\\');
        out.push('r');
    } else if c == '\u{8}' {
        out.push('\\');
        out.push('b');
    } else if c == '\u{c}' {
        out.push('\\');
        out.push('f');
    } else if (c as u32) < 0x20 {
        out.push('\\');
        out.push('u');
        out.push('0');
        out.push('0');
        out.push(hex_digit_exec((c as u32) / 16));
        out.push(hex_digit_exec((c as u32) % 16));
    } else {
        out.push(c);
    }
    assert(out@ =~= o0 + esc_char(c));
}

/// Appends `s`, escaped, to `out`.
pub fn push_escaped(out: &mut Vec<char>, s: &str)
    ensures
        final(out)@ == old(out)@ + json_escape(s@),
{
    let v = to_chars(s);
    let ghost o0 = out@;
    let mut i: usize = 0;
    while i < v.len()
        invariant
            i <= v@.len(),
            v@ == s@,
            out@ == o0 + json_escape(v@.take(i as int)),
        decreases v@.len() - i,
    {
        let c = v[i];
        assert(v@.take(i + 1).drop_last() =~= v@.take(i as int));
        assert(v@.take(i + 1).last() == c);
        esc_char_exec(out, c);
        i = i + 1;
    }
    assert(v@.take(i as int) =~= s@);
}

// ── Reading the form ──────────────────────────────────────────────────────

/// The value of the first field with this label, or nothing.
pub open spec fn field_value(fields: Seq<EditField>, label: Seq<char>) -> Option<Seq<char>>
    decreases fields.len(),
{
    if fields.len() == 0 {
        None
    } else if fields[0].label@ == label {
        Some(fields[0].value@)
    } else {
        field_value(fields.drop_first(), label)
    }
}

/// The value of the first field with this label, or the empty text.
pub open spec fn value_or_empty(fields: Seq<EditField>, label: Seq<char>) -> Seq<char> {
    match field_value(fields, label) {
        Some(v) => v,
        None => Seq::empty(),
    }
}

/// The first field with this label, if any.
pub fn find_field<'a>(fields: &'a [EditField], label: &str) -> (r: Option<&'a str>)
    ensures
        match field_value(fields@, label@) {
            Some(v) => r is Some && r->0@ == v,
            None => r is None,
        },
{
    let mut i: usize = 0;
    assert(fields@.skip(0) =~= fields@);
    while i < fields.len()
        invariant
            i <= fields@.len(),
            field_value(fields@, label@) == field_value(fields@.skip(i as int), label@),
        decreases fields@.len() - i,
    {
        assert(fields@.skip(i as int)[0] == fields@[i as int]);
        if str_eq(fields[i].label.as_str(), label) {
            return Some(fields[i].value.as_str());
        }
        assert(fields@.skip(i as int).drop_first() =~= fields@.skip(i + 1));
        i = i + 1;
    }
    None
}

fn push_field(out: &mut Vec<char>, fields: &[EditField], label: &str)
    ensures
        final(out)@ == old(out)@ + json_escape(value_or_empty(fields@, label@)),
{
    match find_field(fields, label) {
        Some(v) => push_escaped(out, v),
        None => {
            proof {
                reveal_strlit("");
            }
            push_escaped(out, "");
            assert(json_escape(""@) =~= Seq::<char>::empty());
        },
    }
}

// ── A new item ────────────────────────────────────────────────────────────

pub open spec fn esc_of(fields: Seq<EditField>, label: Seq<char>) -> Seq<char> {
    json_escape(value_or_empty(fields, label))
}

/// The JSON of a new item of this type, from the create form's fields:
/// each value is that of the first field with its label (empty when there
/// is none), escaped.
pub open spec fn new_item_json(t: CreateItemType, f: Seq<EditField>) -> Seq<char> {
    match t {
        CreateItemType::Login => "{\"type\":1,\"name\":\""@ + esc_of(f, "Name"@) + "\",\"notes\":\""@
            + esc_of(f, "Notes"@) + "\",\"login\":{\"username\":\""@ + esc_of(f, "Username"@)
            + "\",\"password\":\""@ + esc_of(f, "Password"@) + "\",\"uris\":[{\"uri\":\""@
            + esc_of(f, "URL"@) + "\",\"match\":null}]}}"@,
        CreateItemType::SecureNote => "{\"type\":2,\"name\":\""@ + esc_of(f, "Name"@)
            + "\",\"notes\":\""@ + esc_of(f, "Notes"@) + "\",\"secureNote\":{\"type\":0}}"@,
        CreateItemType::Card => "{\"type\":3,\"name\":\""@ + esc_of(f, "Name"@) + "\",\"notes\":\""@
            + esc_of(f, "Notes"@) + "\",\"card\":{\"cardholderName\":\""@ + esc_of(f, "Cardholder"@)
            + "\",\"brand\":\""@ + esc_of(f, "Brand"@) + "\",\"number\":\""@ + esc_of(f, "Number"@)
            + "\",\"expMonth\":\""@ + esc_of(f, "Exp Month"@) + "\",\"expYear\":\""@
            + esc_of(f, "Exp Year"@) + "\",\"code\":\""@ + esc_of(f, "CVV"@) + "\"}}"@,
        CreateItemType::Identity => "{\"type\":4,\"name\":\""@ + esc_of(f, "Name"@)
            + "\",\"notes\":\""@ + esc_of(f, "Notes"@) + "\",\"identity\":{\"firstName\":\""@
            + esc_of(f, "First Name"@) + "\",\"lastName\":\""@ + esc_of(f, "Last Name"@)
            + "\",\"email\":\""@ + esc_of(f, "Email"@) + "\",\"phone\":\""@ + esc_of(f, "Phone"@)
            + "\",\"company\":\""@ + esc_of(f, "Company"@) + "\",\"address1\":\""@
            + esc_of(f, "Address"@) + "\",\"city\":\""@ + esc_of(f, "City"@) + "\",\"state\":\""@
            + esc_of(f, "State"@) + "\",\"postalCode\":\""@ + esc_of(f, "ZIP"@)
            + "\",\"country\":\""@ + esc_of(f, "Country"@) + "\"}}"@,
    }
}

/// The JSON text of a new item of this type, built from the create form.
pub fn build_item_json_from_fields(item_type: &CreateItemType, fields: &[EditField]) -> (r: String)
    ensures
        r@ == new_item_json(*item_type, fields@),
{
    let mut o: Vec<char> = Vec::new();
    match item_type {
        CreateItemType::Login => {
            push_str(&mut o, "{\"type\":1,\"name\":\"");
            push_field(&mut o, fields, "Name");
            push_str(&mut o, "\",\"notes\":\"");
            push_field(&mut o, fields, "Notes");
            push_str(&mut o, "\",\"login\":{\"username\":\"");
            push_field(&mut o, fields, "Username");
            push_str(&mut o, "\",\"password\":\"");
            push_field(&mut o, fields, "Password");
            push_str(&mut o, "\",\"uris\":[{\"uri\":\"");
            push_field(&mut o, fields, "URL");
            push_str(&mut o, "\",\"match\":null}]}}");
        },
        CreateItemType::SecureNote => {
            push_str(&mut o, "{\"type\":2,\"name\":\"");
            push_field(&mut o, fields, "Name");
            push_str(&mut o, "\",\"notes\":\"");
            push_field(&mut o, fields, "Notes");
            push_str(&mut o, "\",\"secureNote\":{\"type\":0}}");
        },
        CreateItemType::Card => {
            push_str(&mut o, "{\"type\":3,\"name\":\"");
            push_field(&mut o, fields, "Name");
            push_str(&mut o, "\",\"notes\":\"");
            push_field(&mut o, fields, "Notes");
            push_str(&mut o, "\",\"card\":{\"cardholderName\":\"");
            push_field(&mut o, fields, "Cardholder");
            push_str(&mut o, "\",\"brand\":\"");
            push_field(&mut o, fields, "Brand");
            push_str(&mut o, "\",\"number\":\"");
            push_field(&mut o, fields, "Number");
            push_str(&mut o, "\",\"expMonth\":\"");
            push_field(&mut o, fields, "Exp Month");
            push_str(&mut o, "\",\"expYear\":\"");
            push_field(&mut o, fields, "Exp Year");
            push_str(&mut o, "\",\"code\":\"");
            push_field(&mut o, fields, "CVV");
            push_str(&mut o, "\"}}");
        },
        CreateItemType::Identity => {
            push_str(&mut o, "{\"type\":4,\"name\":\"");
            push_field(&mut o, fields, "Name");
            push_str(&mut o, "\",\"notes\":\"");
            push_field(&mut o, fields, "Notes");
            push_str(&mut o, "\",\"identity\":{\"firstName\":\"");
            push_field(&mut o, fields, "First Name");
            push_str(&mut o, "\",\"lastName\":\"");
            push_field(&mut o, fields, "Last Name");
            push_str(&mut o, "\",\"email\":\"");
            push_field(&mut o, fields, "Email");
            push_str(&mut o, "\",\"phone\":\"");
            push_field(&mut o, fields, "Phone");
            push_str(&mut o, "\",\"company\":\"");
            push_field(&mut o, fields, "Company");
            push_str(&mut o, "\",\"address1\":\"");
            push_field(&mut o, fields, "Address");
            push_str(&mut o, "\",\"city\":\"");
            push_field(&mut o, fields, "City");
            push_str(&mut o, "\",\"state\":\"");
            push_field(&mut o, fields, "State");
            push_str(&mut o, "\",\"postalCode\":\"");
            push_field(&mut o, fields, "ZIP");
            push_str(&mut o, "\",\"country\":\"");
            push_field(&mut o, fields, "Country");
            push_str(&mut o, "\"}}");
        },
    }
    from_chars(&o)
}


// ── Patching an item ──────────────────────────────────────────────────────

/// Set `key` to `value`, in the item object itself, or in its member
/// object named `object`.
#[derive(Debug, Clone)]
pub struct JsonEdit {
    pub object: Option<String>,
    pub key: String,
    pub value: String,
}

/// An edit as plain values: the member object, the key, and the text.
pub open spec fn edit_view(e: JsonEdit) -> (Option<Seq<char>>, Seq<char>, Seq<char>) {
    (
        match e.object {
            Some(o) => Some(o@),
            None => None,
        },
        e.key@,
        e.value@,
    )
}

pub open spec fn edit_views(v: Seq<JsonEdit>) -> Seq<(Option<Seq<char>>, Seq<char>, Seq<char>)> {
    v.map_values(|e: JsonEdit| edit_view(e))
}

/// The edit for the field with this label, when the form has one.
pub open spec fn edit_for(f: Seq<EditField>, label: Seq<char>, object: Option<Seq<char>>, key: Seq<char>) -> Seq<(Option<Seq<char>>, Seq<char>, Seq<char>)> {
    match field_value(f, label) {
        Some(v) => seq![(object, key, v)],
        None => Seq::empty(),
    }
}

/// The identity members the edit form can change, with their labels.
pub open spec fn identity_keys() -> Seq<(Seq<char>, Seq<char>)> {
    seq![
        ("title"@, "Title"@),
        ("firstName"@, "First Name"@),
        ("middleName"@, "Middle"@),
        ("lastName"@, "Last Name"@),
        ("email"@, "Email"@),
        ("phone"@, "Phone"@),
        ("company"@, "Company"@),
        ("address1"@, "Address"@),
        ("address2"@, "Address 2"@),
        ("city"@, "City"@),
        ("state"@, "State"@),
        ("postalCode"@, "ZIP"@),
        ("country"@, "Country"@),
        ("ssn"@, "SSN"@),
        ("passportNumber"@, "Passport"@),
        ("licenseNumber"@, "License"@),
    ]
}

pub open spec fn identity_edits(f: Seq<EditField>, keys: Seq<(Seq<char>, Seq<char>)>) -> Seq<(Option<Seq<char>>, Seq<char>, Seq<char>)>
    decreases keys.len(),
{
    if keys.len() == 0 {
        Seq::empty()
    } else {
        identity_edits(f, keys.drop_last()) + edit_for(f, keys.last().1, Some("identity"@), keys.last().0)
    }
}

/// The changes the edit form makes to an item's JSON whose `type` member is
/// the integer `item_type` (if it is one): the name and notes, then for a
/// login (1) its username, password and TOTP seed, for a card
/// (3) its fields, for an identity (4) its fields; each only when the form
/// has a field with its label, set to the first such field's value.
pub open spec fn patch_plan(item_type: Option<i64>, f: Seq<EditField>) -> Seq<(Option<Seq<char>>, Seq<char>, Seq<char>)> {
    let common = edit_for(f, "Name"@, None, "name"@) + edit_for(f, "Notes"@, None, "notes"@);
    if item_type == Some(1i64) {
        common + edit_for(f, "Username"@, Some("login"@), "username"@)
            + edit_for(f, "Password"@, Some("login"@), "password"@)
            + edit_for(f, "TOTP seed"@, Some("login"@), "totp"@)
    } else if item_type == Some(3i64) {
        common + edit_for(f, "Cardholder"@, Some("card"@), "cardholderName"@)
            + edit_for(f, "Brand"@, Some("card"@), "brand"@)
            + edit_for(f, "Number"@, Some("card"@), "number"@)
            + edit_for(f, "Exp Month"@, Some("card"@), "expMonth"@)
            + edit_for(f, "Exp Year"@, Some("card"@), "expYear"@)
            + edit_for(f, "CVV"@, Some("card"@), "code"@)
    } else if item_type == Some(4i64) {
        common + identity_edits(f, identity_keys())
    } else {
        common
    }
}

fn push_edit(edits: &mut Vec<JsonEdit>, f: &[EditField], label: &str, object: Option<&str>, key: &str)
    ensures
        edit_views(final(edits)@) == edit_views(old(edits)@) + edit_for(f@, label@, match object {
            Some(o) => Some(o@),
            None => None,
        }, key@),
{
    let ghost e0 = edit_views(edits@);
    match find_field(f, label) {
        Some(v) => {
            let text = crate::text::owned(v);
            edits.push(JsonEdit {
                object: match object {
                    Some(o) => Some(crate::text::owned(o)),
                    None => None,
                },
                key: crate::text::owned(key),
                value: text,
            });
            assert(edit_views(edits@) =~= e0 + edit_for(f@, label@, match object {
                Some(o) => Some(o@),
                None => None,
            }, key@));
        },
        None => {
            assert(edit_views(edits@) =~= e0 + Seq::empty());
        },
    }
}

/// The changes to make to an item's JSON from the edit form, given the
/// item's `type` member as an integer, if it is one.
pub fn patch_edits(item_type: Option<i64>, fields: &[EditField]) -> (r: Vec<JsonEdit>)
    ensures
        edit_views(r@) == patch_plan(item_type, fields@),
{
    let mut e: Vec<JsonEdit> = Vec::new();
    assert(edit_views(e@) =~= Seq::empty());
    push_edit(&mut e, fields, "Name", None, "name");
    push_edit(&mut e, fields, "Notes", None, "notes");
    assert(edit_views(e@) =~= Seq::empty() + edit_for(fields@, "Name"@, None, "name"@) + edit_for(fields@, "Notes"@, None, "notes"@));
    if item_type == Some(1i64) {
        push_edit(&mut e, fields, "Username", Some("login"), "username");
        push_edit(&mut e, fields, "Password", Some("login"), "password");
        push_edit(&mut e, fields, "TOTP seed", Some("login"), "totp");
    } else if item_type == Some(3i64) {
        push_edit(&mut e, fields, "Cardholder", Some("card"), "cardholderName");
        push_edit(&mut e, fields, "Brand", Some("card"), "brand");
        push_edit(&mut e, fields, "Number", Some("card"), "number");
        push_edit(&mut e, fields, "Exp Month", Some("card"), "expMonth");
        push_edit(&mut e, fields, "Exp Year", Some("card"), "expYear");
        push_edit(&mut e, fields, "CVV", Some("card"), "code");
    } else if item_type == Some(4i64) {
        let keys: [(&str, &str); 16] = [
            ("title", "Title"),
            ("firstName", "First Name"),
            ("middleName", "Middle"),
            ("lastName", "Last Name"),
            ("email", "Email"),
            ("phone", "Phone"),
            ("company", "Company"),
            ("address1", "Address"),
            ("address2", "Address 2"),
            ("city", "City"),
            ("state", "State"),
            ("postalCode", "ZIP"),
            ("country", "Country"),
            ("ssn", "SSN"),
            ("passportNumber", "Passport"),
            ("licenseNumber", "License"),
        ];
        let ghost kv = Seq::new(16, |i: int| (keys@[i].0@, keys@[i].1@));
        assert(kv =~= identity_keys());
        let ghost common = edit_views(e@);
        let mut i: usize = 0;
        while i < 16
            invariant
                i <= 16,
                kv == Seq::new(16, |j: int| (keys@[j].0@, keys@[j].1@)),
                edit_views(e@) == common + identity_edits(fields@, kv.take(i as int)),
            decreases 16 - i,
        {
            let (key, label) = keys[i];
            assert(kv.take(i + 1).drop_last() =~= kv.take(i as int));
            assert(kv.take(i + 1).last() == (key@, label@));
            push_edit(&mut e, fields, label, Some("identity"), key);
            proof {
                reveal_strlit("identity");
            }
            i = i + 1;
        }
        assert(kv.take(16) =~= kv);
    }
    e
}

// ── JSON values ───────────────────────────────────────────────────────────

#[verifier::external_type_specification]
#[verifier::external_body]
pub struct ExJsonValue(serde_json::Value);

/// A JSON value as the library holds it; a number keeps the text that
/// `serde_json` prints for it.
#[derive(Debug)]
pub enum Json {
    Null,
    Bool(bool),
    Number(String),
    Str(String),
    Array(Vec<Json>),
    Object(Vec<(String, Json)>),
}

/// A JSON value as mathematical values.
pub enum JsonV {
    Null,
    Bool(bool),
    Number(Seq<char>),
    Str(Seq<char>),
    Array(Seq<JsonV>),
    Object(Seq<(Seq<char>, JsonV)>),
}

pub open spec fn json_view(j: Json) -> JsonV
    decreases j,
{
    match j {
        Json::Null => JsonV::Null,
        Json::Bool(b) => JsonV::Bool(b),
        Json::Number(n) => JsonV::Number(n@),
        Json::Str(t) => JsonV::Str(t@),
        Json::Array(v) => JsonV::Array(
            Seq::new(v@.len(), |i: int| if 0 <= i < v@.len() { json_view(v@[i]) } else { JsonV::Null }),
        ),
        Json::Object(m) => JsonV::Object(
            Seq::new(
                m@.len(),
                |i: int| if 0 <= i < m@.len() { (m@[i].0@, json_view(m@[i].1)) } else { (Seq::empty(), JsonV::Null) },
            ),
        ),
    }
}

/// The members of an object as mathematical values.
pub open spec fn entries_view(m: Seq<(String, Json)>) -> Seq<(Seq<char>, JsonV)> {
    Seq::new(m.len(), |i: int| (m[i].0@, json_view(m[i].1)))
}

proof fn lemma_object_view(m: Vec<(String, Json)>)
    ensures
        json_view(Json::Object(m)) == JsonV::Object(entries_view(m@)),
{
    let v = json_view(Json::Object(m));
    assert(v is Object);
    let s2 = v->Object_0;
    assert(s2.len() == m@.len());
    assert forall|i: int| 0 <= i < m@.len() implies s2[i] == entries_view(m@)[i] by {
    }
    assert(s2 =~= entries_view(m@));
}

/// What `serde_json::from_str` reads from a text: the value, or the error
/// message.
pub uninterp spec fn json_parsed(text: Seq<char>) -> Result<JsonV, Seq<char>>;

/// What `serde_json::to_string` writes for a value: the text, or the error
/// message.
pub uninterp spec fn json_written(v: JsonV) -> Result<Seq<char>, Seq<char>>;

/// The conversion from `serde_json`'s value, variant by variant.
#[verifier::external_body]
fn from_value(v: serde_json::Value) -> Json {
    match v {
        serde_json::Value::Null => Json::Null,
        serde_json::Value::Bool(b) => Json::Bool(b),
        serde_json::Value::Number(n) => Json::Number(n.to_string()),
        serde_json::Value::String(t) => Json::Str(t),
        serde_json::Value::Array(a) => Json::Array(a.into_iter().map(from_value).collect()),
        serde_json::Value::Object(m) => Json::Object(m.into_iter().map(|(k, x)| (k, from_value(x))).collect()),
    }
}

/// The conversion to `serde_json`'s value, variant by variant; a number is
/// read back from its text (null if that text is no number).
#[verifier::external_body]
fn to_value(j: &Json) -> serde_json::Value {
    match j {
        Json::Null => serde_json::Value::Null,
        Json::Bool(b) => serde_json::Value::Bool(*b),
        Json::Number(n) => n.parse::<serde_json::Number>().map(serde_json::Value::Number).unwrap_or(serde_json::Value::Null),
        Json::Str(t) => serde_json::Value::String(t.clone()),
        Json::Array(a) => serde_json::Value::Array(a.iter().map(to_value).collect()),
        Json::Object(m) => serde_json::Value::Object(m.iter().map(|(k, x)| (k.clone(), to_value(x))).collect()),
    }
}

/// Calls `serde_json::from_str::<serde_json::Value>`, converted to `Json`:
/// the value read, or the error message; both depend on the text alone.
#[verifier::external_body]
pub(crate) fn parse_json(text: &str) -> (r: Result<Json, String>)
    ensures
        match r {
            Ok(j) => json_parsed(text@) == Ok::<JsonV, Seq<char>>(json_view(j)),
            Err(e) => json_parsed(text@) == Err::<JsonV, Seq<char>>(e@),
        },
{
    serde_json::from_str::<serde_json::Value>(text).map(from_value).map_err(|e| e.to_string())
}

/// Calls `serde_json::to_string` on the value converted from `Json`: the
/// text written, or the error message; both depend on the value alone.
#[verifier::external_body]
fn write_json(j: &Json) -> (r: Result<String, String>)
    ensures
        match r {
            Ok(t) => json_written(json_view(*j)) == Ok::<Seq<char>, Seq<char>>(t@),
            Err(e) => json_written(json_view(*j)) == Err::<Seq<char>, Seq<char>>(e@),
        },
{
    serde_json::to_string(&to_value(j)).map_err(|e| e.to_string())
}

// ── Members ───────────────────────────────────────────────────────────────

/// The position of the first member named `key`, or -1.
pub open spec fn key_pos(m: Seq<(Seq<char>, JsonV)>, key: Seq<char>) -> int
    decreases m.len(),
{
    if m.len() == 0 {
        -1
    } else if m[0].0 == key {
        0
    } else {
        let r = key_pos(m.drop_first(), key);
        if r < 0 { -1 } else { r + 1 }
    }
}

/// The member `key` of a value (`Index<&str>` of `serde_json::Value`):
/// null when it is no object or has no such member.
pub open spec fn get_member(v: JsonV, key: Seq<char>) -> JsonV {
    match v {
        JsonV::Object(m) => if key_pos(m, key) >= 0 { m[key_pos(m, key)].1 } else { JsonV::Null },
        _ => JsonV::Null,
    }
}

/// `v[key] = x` (`IndexMut<&str>` of `serde_json::Value`): null first
/// becomes an empty object; the member is replaced, or added when missing.
/// Nothing on any other value, where `serde_json` panics.
pub open spec fn set_member(v: JsonV, key: Seq<char>, x: JsonV) -> Option<JsonV> {
    match v {
        JsonV::Null => Some(JsonV::Object(seq![(key, x)])),
        JsonV::Object(m) => Some(JsonV::Object(
            if key_pos(m, key) >= 0 { m.update(key_pos(m, key), (key, x)) } else { m.push((key, x)) },
        )),
        _ => None,
    }
}

proof fn lemma_key_pos(m: Seq<(Seq<char>, JsonV)>, key: Seq<char>, k: int)
    requires
        0 <= k <= m.len(),
        forall|j: int| 0 <= j < k ==> (#[trigger] m[j]).0 != key,
    ensures
        key_pos(m, key) == if key_pos(m.skip(k), key) < 0 { -1 } else { key_pos(m.skip(k), key) + k },
    decreases k,
{
    if k == 0 {
        assert(m.skip(0) =~= m);
    } else {
        assert(m.drop_first().skip(k - 1) =~= m.skip(k));
        lemma_key_pos(m.drop_first(), key, k - 1);
    }
}

fn find_key(m: &Vec<(String, Json)>, key: &str) -> (r: Option<usize>)
    ensures
        match r {
            Some(i) => {
                &&& i == key_pos(entries_view(m@), key@)
                &&& i < m@.len()
                &&& m@[i as int].0@ == key@
                &&& forall|j: int| 0 <= j < i ==> (#[trigger] entries_view(m@)[j]).0 != key@
            },
            None => key_pos(entries_view(m@), key@) == -1,
        },
{
    let ghost e = entries_view(m@);
    let mut i: usize = 0;
    while i < m.len()
        invariant
            i <= m@.len(),
            e == entries_view(m@),
            forall|j: int| 0 <= j < i ==> (#[trigger] e[j]).0 != key@,
        decreases m@.len() - i,
    {
        if crate::text::str_eq(m[i].0.as_str(), key) {
            proof {
                lemma_key_pos(e, key@, i as int);
                assert(e.skip(i as int)[0] == e[i as int]);
            }
            return Some(i);
        }
        i = i + 1;
    }
    proof {
        lemma_key_pos(e, key@, i as int);
        assert(e.skip(i as int) =~= Seq::<(Seq<char>, JsonV)>::empty());
    }
    None
}

/// Sets the member `key` of the value; false, with the value unchanged,
/// when the value is neither an object nor null.
fn set_member_exec(v: &mut Json, key: String, x: Json) -> (ok: bool)
    ensures
        match set_member(json_view(*old(v)), key@, json_view(x)) {
            Some(w) => ok && json_view(*final(v)) == w,
            None => !ok && *final(v) == *old(v),
        },
{
    let mut cur = Json::Null;
    std::mem::swap(&mut cur, v);
    match cur {
        Json::Null => {
            let ghost kx = (key@, json_view(x));
            let m = vec![(key, x)];
            proof {
                lemma_object_view(m);
                assert(entries_view(m@) =~= seq![kx]);
            }
            *v = Json::Object(m);
            true
        },
        Json::Object(mut m) => {
            proof { lemma_object_view(m); }
            let ghost e = entries_view(m@);
            let ghost kx = (key@, json_view(x));
            match find_key(&m, key.as_str()) {
                Some(i) => {
                    m.set(i, (key, x));
                    assert(entries_view(m@) =~= e.update(i as int, kx));
                },
                None => {
                    m.push((key, x));
                    assert(entries_view(m@) =~= e.push(kx));
                },
            }
            proof { lemma_object_view(m); }
            *v = Json::Object(m);
            true
        },
        other => {
            *v = other;
            false
        },
    }
}


proof fn lemma_array_view(v: Vec<Json>)
    ensures
        json_view(Json::Array(v)) == JsonV::Array(Seq::new(v@.len(), |i: int| json_view(v@[i]))),
{
    let w = json_view(Json::Array(v));
    let s2 = w->Array_0;
    assert forall|i: int| 0 <= i < v@.len() implies s2[i] == json_view(v@[i]) by {}
    assert(s2 =~= Seq::new(v@.len(), |i: int| json_view(v@[i])));
}

/// Takes the member `key` out of an object, leaving null in its place; a
/// value that is no object, or has no such member, stays as it is and
/// gives null.
fn take_member(v: &mut Json, key: &str) -> (r: Json)
    ensures
        json_view(r) == get_member(json_view(*old(v)), key@),
        forall|x: JsonV| #[trigger] set_member(json_view(*final(v)), key@, x) == set_member(json_view(*old(v)), key@, x),
{
    let mut cur = Json::Null;
    std::mem::swap(&mut cur, v);
    match cur {
        Json::Object(mut m) => {
            proof { lemma_object_view(m); }
            let ghost e = entries_view(m@);
            match find_key(&m, key) {
                Some(i) => {
                    let (k, x) = m.remove(i);
                    assert(k@ == key@);
                    m.insert(i, (k, Json::Null));
                    proof {
                        assert(entries_view(m@) =~= e.update(i as int, (key@, JsonV::Null)));
                        lemma_key_pos(e, key@, i as int);
                        lemma_key_pos(e.update(i as int, (key@, JsonV::Null)), key@, i as int);
                        assert(e.update(i as int, (key@, JsonV::Null)).skip(i as int)[0].0 == key@);
                        assert(e.skip(i as int)[0].0 == key@);
                        assert forall|y: JsonV| #[trigger] e.update(i as int, (key@, JsonV::Null)).update(i as int, (key@, y)) == e.update(i as int, (key@, y)) by {
                            assert(e.update(i as int, (key@, JsonV::Null)).update(i as int, (key@, y)) =~= e.update(i as int, (key@, y)));
                        }
                        lemma_object_view(m);
                    }
                    *v = Json::Object(m);
                    x
                },
                None => {
                    *v = Json::Object(m);
                    Json::Null
                },
            }
        },
        other => {
            *v = other;
            Json::Null
        },
    }
}

/// The value an edit writes: its text.
pub open spec fn edit_json(e: (Option<Seq<char>>, Seq<char>, Seq<char>)) -> JsonV {
    JsonV::Str(e.2)
}

/// One edit made to a value (`v[key] = ..`, or `v[object][key] = ..`);
/// nothing where `serde_json` would panic.
pub open spec fn apply_edit(doc: JsonV, e: (Option<Seq<char>>, Seq<char>, Seq<char>)) -> Option<JsonV> {
    match e.0 {
        None => set_member(doc, e.1, edit_json(e)),
        Some(o) => match set_member(get_member(doc, o), e.1, edit_json(e)) {
            Some(c) => set_member(doc, o, c),
            None => None,
        },
    }
}

/// The edits made in order; nothing as soon as one cannot be made.
pub open spec fn apply_all(doc: JsonV, es: Seq<(Option<Seq<char>>, Seq<char>, Seq<char>)>) -> Option<JsonV>
    decreases es.len(),
{
    if es.len() == 0 {
        Some(doc)
    } else {
        match apply_all(doc, es.drop_last()) {
            Some(d) => apply_edit(d, es.last()),
            None => None,
        }
    }
}

proof fn lemma_apply_none(doc: JsonV, es: Seq<(Option<Seq<char>>, Seq<char>, Seq<char>)>, k: int)
    requires
        0 <= k <= es.len(),
        apply_all(doc, es.take(k)) is None,
    ensures
        apply_all(doc, es) is None,
    decreases es.len() - k,
{
    if k == es.len() {
        assert(es.take(k) =~= es);
    } else {
        assert(es.take(k + 1).drop_last() =~= es.take(k));
        lemma_apply_none(doc, es, k + 1);
    }
}

/// The integer a number's text stands for, as `serde_json::Value::as_i64`
/// gives it: decimal digits, after a `-` for a negative one, within `i64`.
pub open spec fn int_text(t: Seq<char>) -> Option<i64> {
    if t.len() > 0 && t[0] == '-' {
        let d = t.skip(1);
        if d.len() > 0 && d[0] != '+' {
            match crate::config::parse_u64(d) {
                Some(n) => if n <= 0x8000_0000_0000_0000 { Some((-n) as i64) } else { None },
                None => None,
            }
        } else {
            None
        }
    } else if t.len() > 0 && t[0] != '+' {
        match crate::config::parse_u64(t) {
            Some(n) => if n <= 0x7fff_ffff_ffff_ffff { Some(n as i64) } else { None },
            None => None,
        }
    } else {
        None
    }
}

/// The item's `type` member as an integer, if it is one.
pub open spec fn json_item_type(doc: JsonV) -> Option<i64> {
    match get_member(doc, "type"@) {
        JsonV::Number(t) => int_text(t),
        _ => None,
    }
}

fn int_text_exec(t: &str) -> (r: Option<i64>)
    ensures
        r == int_text(t@),
{
    let c = to_chars(t);
    if c.len() > 0 && c[0] == '-' {
        let mut d: Vec<char> = Vec::new();
        let mut i: usize = 1;
        while i < c.len()
            invariant
                1 <= i <= c@.len(),
                d@ == c@.subrange(1, i as int),
            decreases c@.len() - i,
        {
            d.push(c[i]);
            i = i + 1;
            assert(d@ =~= c@.subrange(1, i as int));
        }
        assert(d@ =~= t@.skip(1));
        if d.len() > 0 && d[0] != '+' {
            match crate::config::parse_u64_exec(d.as_slice()) {
                Some(n) => if n <= 0x8000_0000_0000_0000 {
                    if n == 0x8000_0000_0000_0000 {
                        Some(i64::MIN)
                    } else {
                        Some(-(n as i64))
                    }
                } else {
                    None
                },
                None => None,
            }
        } else {
            None
        }
    } else if c.len() > 0 && c[0] != '+' {
        match crate::config::parse_u64_exec(c.as_slice()) {
            Some(n) => if n <= 0x7fff_ffff_ffff_ffff { Some(n as i64) } else { None },
            None => None,
        }
    } else {
        None
    }
}

fn item_type_of(doc: &Json) -> (r: Option<i64>)
    ensures
        r == json_item_type(json_view(*doc)),
{
    match doc {
        Json::Object(m) => {
            proof { lemma_object_view(*m); }
            match find_key(m, "type") {
                Some(i) => match &m[i].1 {
                    Json::Number(t) => int_text_exec(t.as_str()),
                    _ => None,
                },
                None => None,
            }
        },
        _ => None,
    }
}

/// Makes one edit; false when it cannot be made.
fn apply_edit_exec(doc: &mut Json, e: &JsonEdit) -> (ok: bool)
    ensures
        match apply_edit(json_view(*old(doc)), edit_view(*e)) {
            Some(w) => ok && json_view(*final(doc)) == w,
            None => !ok,
        },
{
    let x = Json::Str(e.value.clone());
    match &e.object {
        None => set_member_exec(doc, e.key.clone(), x),
        Some(o) => {
            let mut c = take_member(doc, o.as_str());
            if !set_member_exec(&mut c, e.key.clone(), x) {
                return false;
            }
            set_member_exec(doc, o.clone(), c)
        },
    }
}

// ── Edits inside arrays: the URIs and the custom fields ───────────────────

/// An edit of one member of one element of an array:
/// `doc[outer][array][index][key] = text` (`doc[array][index][key]` without
/// an outer member).
pub type ElemEdit = (Option<Seq<char>>, Seq<char>, nat, Seq<char>, Seq<char>);

/// How many elements an array has; 0 for any other value.
pub open spec fn array_len(v: JsonV) -> nat {
    match v {
        JsonV::Array(s) => s.len(),
        _ => 0,
    }
}

/// `arr[i][key] = text`: nothing when `arr` is no array, has no element
/// `i`, or that element is neither an object nor null (where `serde_json`
/// panics).
pub open spec fn set_elem(arr: JsonV, i: nat, key: Seq<char>, text: Seq<char>) -> Option<JsonV> {
    match arr {
        JsonV::Array(s) => if i < s.len() {
            match set_member(s[i as int], key, JsonV::Str(text)) {
                Some(e) => Some(JsonV::Array(s.update(i as int, e))),
                None => None,
            }
        } else {
            None
        },
        _ => None,
    }
}

/// `v[array][i][key] = text`.
pub open spec fn set_in_array(v: JsonV, array: Seq<char>, i: nat, key: Seq<char>, text: Seq<char>) -> Option<JsonV> {
    match set_elem(get_member(v, array), i, key, text) {
        Some(a) => set_member(v, array, a),
        None => None,
    }
}

/// One element edit made to a value.
pub open spec fn apply_elem(doc: JsonV, e: ElemEdit) -> Option<JsonV> {
    match e.0 {
        None => set_in_array(doc, e.1, e.2, e.3, e.4),
        Some(o) => match set_in_array(get_member(doc, o), e.1, e.2, e.3, e.4) {
            Some(c) => set_member(doc, o, c),
            None => None,
        },
    }
}

/// The element edits made in order; nothing as soon as one cannot be made.
pub open spec fn apply_elems(doc: JsonV, es: Seq<ElemEdit>) -> Option<JsonV>
    decreases es.len(),
{
    if es.len() == 0 {
        Some(doc)
    } else {
        match apply_elems(doc, es.drop_last()) {
            Some(d) => apply_elem(d, es.last()),
            None => None,
        }
    }
}

proof fn lemma_elems_none(doc: JsonV, es: Seq<ElemEdit>, k: int)
    requires
        0 <= k <= es.len(),
        apply_elems(doc, es.take(k)) is None,
    ensures
        apply_elems(doc, es) is None,
    decreases es.len() - k,
{
    if k == es.len() {
        assert(es.take(k) =~= es);
    } else {
        assert(es.take(k + 1).drop_last() =~= es.take(k));
        lemma_elems_none(doc, es, k + 1);
    }
}

/// The values of the fields with this label, in order.
pub open spec fn labelled(f: Seq<EditField>, label: Seq<char>) -> Seq<Seq<char>>
    decreases f.len(),
{
    if f.len() == 0 {
        Seq::empty()
    } else if f.last().label@ == label {
        labelled(f.drop_last(), label).push(f.last().value@)
    } else {
        labelled(f.drop_last(), label)
    }
}

/// The URL edits of a login: the `i`th URL field of the form sets the URI
/// of the `i`th entry of `login.uris`, for the entries there are.
pub open spec fn url_edits(doc: JsonV, f: Seq<EditField>) -> Seq<ElemEdit> {
    let urls = labelled(f, "URL"@);
    let n = array_len(get_member(get_member(doc, "login"@), "uris"@));
    let m = if urls.len() <= n { urls.len() } else { n };
    Seq::new(m, |i: int| (Some("login"@), "uris"@, i as nat, "uri"@, urls[i]))
}

/// The custom-field edits: the form ends with the item's custom fields and
/// then the notes, so the `j`th of the `n` entries of `fields` takes the
/// value of the form's field `n + 1 - j` places from its end.
pub open spec fn custom_edits(doc: JsonV, f: Seq<EditField>) -> Seq<ElemEdit> {
    let n = array_len(get_member(doc, "fields"@));
    if f.len() >= n + 1 {
        Seq::new(n, |j: int| (None::<Seq<char>>, "fields"@, j as nat, "value"@, f[f.len() - 1 - n + j].value@))
    } else {
        Seq::empty()
    }
}

/// The element edits of the form for an item's JSON.
pub open spec fn elem_plan(doc: JsonV, item_type: Option<i64>, f: Seq<EditField>) -> Seq<ElemEdit> {
    (if item_type == Some(1i64) { url_edits(doc, f) } else { Seq::empty() }) + custom_edits(doc, f)
}

fn array_len_exec(v: &Json) -> (n: usize)
    ensures
        n == array_len(json_view(*v)),
{
    match v {
        Json::Array(s) => {
            proof { lemma_array_view(*s); }
            s.len()
        },
        _ => 0,
    }
}

/// The member `key` of a value, borrowed; none where it is null.
fn member_ref<'a>(v: &'a Json, key: &str) -> (r: Option<&'a Json>)
    ensures
        match r {
            Some(x) => json_view(*x) == get_member(json_view(*v), key@),
            None => get_member(json_view(*v), key@) == JsonV::Null,
        },
{
    match v {
        Json::Object(m) => {
            proof { lemma_object_view(*m); }
            match find_key(m, key) {
                Some(i) => Some(&m[i].1),
                None => None,
            }
        },
        _ => None,
    }
}

fn array_len_of_member(v: &Json, key: &str) -> (n: usize)
    ensures
        n == array_len(get_member(json_view(*v), key@)),
{
    match member_ref(v, key) {
        Some(x) => array_len_exec(x),
        None => 0,
    }
}

/// `arr[i][key] = text`; false when it cannot be made.
fn set_elem_exec(arr: &mut Json, i: usize, key: &str, text: String) -> (ok: bool)
    ensures
        match set_elem(json_view(*old(arr)), i as nat, key@, text@) {
            Some(w) => ok && json_view(*final(arr)) == w,
            None => !ok,
        },
{
    let mut cur = Json::Null;
    std::mem::swap(&mut cur, arr);
    match cur {
        Json::Array(mut s) => {
            proof { lemma_array_view(s); }
            let ghost sv = Seq::new(s@.len(), |k: int| json_view(s@[k]));
            if i >= s.len() {
                return false;
            }
            let mut e = s.remove(i);
            assert(json_view(e) == sv[i as int]);
            if !set_member_exec(&mut e, crate::text::owned(key), Json::Str(text)) {
                return false;
            }
            let ghost ev = json_view(e);
            s.insert(i, e);
            proof {
                lemma_array_view(s);
                assert(Seq::new(s@.len(), |k: int| json_view(s@[k])) =~= sv.update(i as int, ev));
            }
            *arr = Json::Array(s);
            true
        },
        other => {
            *arr = other;
            false
        },
    }
}

/// `v[array][i][key] = text`; false when it cannot be made.
fn set_in_array_exec(v: &mut Json, array: &str, i: usize, key: &str, text: String) -> (ok: bool)
    ensures
        match set_in_array(json_view(*old(v)), array@, i as nat, key@, text@) {
            Some(w) => ok && json_view(*final(v)) == w,
            None => !ok,
        },
{
    let mut a = take_member(v, array);
    if !set_elem_exec(&mut a, i, key, text) {
        return false;
    }
    set_member_exec(v, crate::text::owned(array), a)
}

/// One element edit; false when it cannot be made.
fn apply_elem_exec(doc: &mut Json, outer: Option<&str>, array: &str, i: usize, key: &str, text: String) -> (ok: bool)
    ensures
        match apply_elem(json_view(*old(doc)), (match outer { Some(o) => Some(o@), None => None }, array@, i as nat, key@, text@)) {
            Some(w) => ok && json_view(*final(doc)) == w,
            None => !ok,
        },
{
    match outer {
        None => set_in_array_exec(doc, array, i, key, text),
        Some(o) => {
            let mut c = take_member(doc, o);
            if !set_in_array_exec(&mut c, array, i, key, text) {
                return false;
            }
            set_member_exec(doc, crate::text::owned(o), c)
        },
    }
}

/// The values of the fields with this label, in order.
fn labelled_exec(f: &[EditField], label: &str) -> (r: Vec<String>)
    ensures
        crate::view::string_views(r@) == labelled(f@, label@),
{
    let mut r: Vec<String> = Vec::new();
    let mut k: usize = 0;
    while k < f.len()
        invariant
            k <= f@.len(),
            crate::view::string_views(r@) == labelled(f@.take(k as int), label@),
        decreases f@.len() - k,
    {
        assert(f@.take(k + 1).drop_last() =~= f@.take(k as int));
        assert(f@.take(k + 1).last() == f@[k as int]);
        if crate::text::str_eq(f[k].label.as_str(), label) {
            r.push(f[k].value.clone());
            assert(crate::view::string_views(r@) =~= labelled(f@.take(k as int), label@).push(f@[k as int].value@));
        }
        k = k + 1;
    }
    assert(f@.take(k as int) =~= f@);
    r
}

/// An item's JSON as `bw get item` printed it, with the edit form's values
/// written in.
pub open spec fn patched_text(base: Seq<char>, fields: Seq<EditField>) -> Seq<char> {
    match json_parsed(base) {
        Err(_) => base,
        Ok(doc) => match apply_all(doc, patch_plan(json_item_type(doc), fields)) {
            Some(d) => match apply_elems(d, elem_plan(doc, json_item_type(doc), fields)) {
                Some(d2) => match json_written(d2) {
                    Ok(t) => t,
                    Err(_) => base,
                },
                None => base,
            },
            None => base,
        },
    }
}

/// An item's JSON as `bw get item` printed it, with the edit form's values
/// written in: the changes of `patch_plan`, for the item's `type` member,
/// then those of `elem_plan` (each URL into its entry of the login's URI
/// list, each custom field into its entry of `fields`), made in order as
/// `serde_json` makes them, and the value written out. Text that is no
/// JSON comes back unchanged, and so does the item when a change would
/// have to go into a value that is neither an object nor null, or when the
/// patched value cannot be written out.
pub fn patch_item_json(base_json: &str, fields: &[EditField]) -> (r: String)
    ensures
        r@ == patched_text(base_json@, fields@),
{
    let mut doc = match parse_json(base_json) {
        Ok(v) => v,
        Err(_) => return crate::text::owned(base_json),
    };
    let ghost doc0 = json_view(doc);
    let item_type = item_type_of(&doc);
    let n_uris = match member_ref(&doc, "login") {
        Some(l) => array_len_of_member(l, "uris"),
        None => 0,
    };
    let n_fields = array_len_of_member(&doc, "fields");
    let edits = patch_edits(item_type, fields);
    let ghost plan = edit_views(edits@);
    assert(plan.take(0) =~= Seq::empty());
    let mut i: usize = 0;
    while i < edits.len()
        invariant
            i <= edits@.len(),
            plan == edit_views(edits@),
            plan == patch_plan(json_item_type(doc0), fields@),
            json_parsed(base_json@) == Ok::<JsonV, Seq<char>>(doc0),
            apply_all(doc0, plan.take(i as int)) == Some(json_view(doc)),
        decreases edits@.len() - i,
    {
        assert(plan.take(i + 1).drop_last() =~= plan.take(i as int));
        assert(plan.take(i + 1).last() == edit_view(edits@[i as int]));
        if !apply_edit_exec(&mut doc, &edits[i]) {
            proof {
                assert(apply_all(doc0, plan.take(i + 1)) is None);
                lemma_apply_none(doc0, plan, i + 1);
            }
            return crate::text::owned(base_json);
        }
        i = i + 1;
    }
    assert(plan.take(i as int) =~= plan);
    let ghost d1 = json_view(doc);
    let ghost plan2 = elem_plan(doc0, json_item_type(doc0), fields@);
    let urls = labelled_exec(fields, "URL");
    let m: usize = if item_type == Some(1i64) {
        if urls.len() <= n_uris { urls.len() } else { n_uris }
    } else {
        0
    };
    let ghost ue = if item_type == Some(1i64) { url_edits(doc0, fields@) } else { Seq::<ElemEdit>::empty() };
    assert(ue.len() == m);
    assert(plan2 =~= ue + custom_edits(doc0, fields@));
    assert(plan2.take(0) =~= Seq::empty());
    let mut k: usize = 0;
    while k < m
        invariant
            k <= m,
            m == ue.len(),
            m <= urls@.len(),
            plan2 == ue + custom_edits(doc0, fields@),
            ue == (if item_type == Some(1i64) { url_edits(doc0, fields@) } else { Seq::<ElemEdit>::empty() }),
            crate::view::string_views(urls@) == labelled(fields@, "URL"@),
            json_parsed(base_json@) == Ok::<JsonV, Seq<char>>(doc0),
            apply_all(doc0, patch_plan(json_item_type(doc0), fields@)) == Some(d1),
            plan2 == elem_plan(doc0, json_item_type(doc0), fields@),
            apply_elems(d1, plan2.take(k as int)) == Some(json_view(doc)),
        decreases m - k,
    {
        assert(plan2.take(k + 1).drop_last() =~= plan2.take(k as int));
        assert(item_type == Some(1i64));
        assert(plan2.take(k + 1).last() == (Some("login"@), "uris"@, k as nat, "uri"@, urls@[k as int]@));
        if !apply_elem_exec(&mut doc, Some("login"), "uris", k, "uri", urls[k].clone()) {
            proof { lemma_elems_none(d1, plan2, k + 1); }
            return crate::text::owned(base_json);
        }
        k = k + 1;
    }
    let ghost ce = custom_edits(doc0, fields@);
    if fields.len() > n_fields {
        let mut j: usize = 0;
        while j < n_fields
            invariant
                j <= n_fields,
                fields@.len() > n_fields,
                n_fields == array_len(get_member(doc0, "fields"@)),
                ce == custom_edits(doc0, fields@),
                ce.len() == n_fields,
                plan2 == ue + ce,
                m == ue.len(),
                json_parsed(base_json@) == Ok::<JsonV, Seq<char>>(doc0),
                apply_all(doc0, patch_plan(json_item_type(doc0), fields@)) == Some(d1),
                plan2 == elem_plan(doc0, json_item_type(doc0), fields@),
                apply_elems(d1, plan2.take(m + j)) == Some(json_view(doc)),
            decreases n_fields - j,
        {
            assert(plan2.take(m + j + 1).drop_last() =~= plan2.take(m + j));
            assert(plan2.take(m + j + 1).last() == ce[j as int]);
            let text = fields[fields.len() - 1 - n_fields + j].value.clone();
            if !apply_elem_exec(&mut doc, None, "fields", j, "value", text) {
                proof { lemma_elems_none(d1, plan2, m + j + 1); }
                return crate::text::owned(base_json);
            }
            j = j + 1;
        }
        assert(plan2.take(m + j) =~= plan2);
    } else {
        assert(ce =~= Seq::<ElemEdit>::empty());
        assert(plan2.take(k as int) =~= plan2);
    }
    match write_json(&doc) {
        Ok(t) => t,
        Err(_) => crate::text::owned(base_json),
    }
}

/// An item's JSON with its `favorite` member set to the flag, or the error:
/// `JSON parse error: <message>` for text that is no JSON,
/// `JSON parse error: not an object` for JSON that is neither an object nor
/// null (which has no member to set), `JSON serialize error: <message>` when
/// the value cannot be written out.
pub open spec fn favorite_result(text: Seq<char>, favorite: bool) -> Result<Seq<char>, Seq<char>> {
    match json_parsed(text) {
        Err(e) => Err("JSON parse error: "@ + e),
        Ok(doc) => match set_member(doc, "favorite"@, JsonV::Bool(favorite)) {
            None => Err("JSON parse error: not an object"@),
            Some(d) => match json_written(d) {
                Ok(t) => Ok(t),
                Err(e) => Err("JSON serialize error: "@ + e),
            },
        },
    }
}

pub open spec fn result_view(r: Result<String, String>) -> Result<Seq<char>, Seq<char>> {
    match r {
        Ok(t) => Ok(t@),
        Err(e) => Err(e@),
    }
}

/// An item's JSON with its `favorite` member set to the flag.
pub fn favorite_json(json: &str, favorite: bool) -> (r: Result<String, String>)
    ensures
        result_view(r) == favorite_result(json@, favorite),
{
    let mut doc = match parse_json(json) {
        Ok(v) => v,
        Err(e) => return Err(crate::text::concat("JSON parse error: ", e.as_str())),
    };
    if !set_member_exec(&mut doc, crate::text::owned("favorite"), Json::Bool(favorite)) {
        return Err(crate::text::owned("JSON parse error: not an object"));
    }
    match write_json(&doc) {
        Ok(t) => Ok(t),
        Err(e) => Err(crate::text::concat("JSON serialize error: ", e.as_str())),
    }
}


/// The member `key` of a value when it is a string (`v[key].as_str()`).
pub open spec fn str_member(doc: JsonV, key: Seq<char>) -> Option<Seq<char>> {
    match get_member(doc, key) {
        JsonV::Str(t) => Some(t),
        _ => None,
    }
}

/// The member `key` of a value when it is a string.
pub(crate) fn str_member_exec(doc: &Json, key: &str) -> (r: Option<String>)
    ensures
        crate::model::opt_view(r) == str_member(json_view(*doc), key@),
{
    match doc {
        Json::Object(m) => {
            proof { lemma_object_view(*m); }
            match find_key(m, key) {
                Some(i) => match &m[i].1 {
                    Json::Str(t) => Some(t.clone()),
                    _ => None,
                },
                None => None,
            }
        },
        _ => None,
    }
}


// ── What a new item holds ─────────────────────────────────────────────────

/// The JSON member `"key":"value"`, its value escaped.
pub open spec fn json_member(key: Seq<char>, value: Seq<char>) -> Seq<char> {
    "\""@ + key + "\":\""@ + json_escape(value) + "\""@
}

/// Text that ends with `"key":"` followed by an escaped value and a text that
/// begins with `"` holds that member.
proof fn lemma_member_between(
    q: Seq<char>,
    l1: Seq<char>,
    l1p: Seq<char>,
    key: Seq<char>,
    v: Seq<char>,
    l2: Seq<char>,
    l2s: Seq<char>,
)
    requires
        l1 =~= l1p + "\""@ + key + "\":\""@,
        l2 =~= "\""@ + l2s,
    ensures
        crate::text::contains(q + l1 + json_escape(v) + l2, json_member(key, v)),
        crate::text::contains(l1 + json_escape(v) + l2, json_member(key, v)),
{
    let p = json_member(key, v);
    let a = q + l1p;
    assert(q + l1 + json_escape(v) + l2 =~= a + p + l2s);
    assert((a + p + l2s).subrange(a.len() as int, (a.len() + p.len()) as int) =~= p);
    assert(crate::text::occurs_at(q + l1 + json_escape(v) + l2, p, a.len() as int));
    assert(l1 + json_escape(v) + l2 =~= l1p + p + l2s);
    assert((l1p + p + l2s).subrange(l1p.len() as int, (l1p.len() + p.len()) as int) =~= p);
    assert(crate::text::occurs_at(l1 + json_escape(v) + l2, p, l1p.len() as int));
}

proof fn lemma_contains_extend(x: Seq<char>, y: Seq<char>, p: Seq<char>)
    requires
        crate::text::contains(x, p),
    ensures
        crate::text::contains(x + y, p),
{
    let i = choose|i: int| crate::text::occurs_at(x, p, i);
    assert((x + y).subrange(i, i + p.len()) =~= x.subrange(i, i + p.len()));
    assert(crate::text::occurs_at(x + y, p, i));
}

/// In the JSON of a new login, each member's value is the escaped
/// value of the create form's field with that member's own label.
pub proof fn law_new_login_members(f: Seq<EditField>)
    ensures
        crate::text::contains(new_item_json(CreateItemType::Login, f), json_member("name"@, value_or_empty(f, "Name"@))),
        crate::text::contains(new_item_json(CreateItemType::Login, f), json_member("notes"@, value_or_empty(f, "Notes"@))),
        crate::text::contains(new_item_json(CreateItemType::Login, f), json_member("username"@, value_or_empty(f, "Username"@))),
        crate::text::contains(new_item_json(CreateItemType::Login, f), json_member("password"@, value_or_empty(f, "Password"@))),
        crate::text::contains(new_item_json(CreateItemType::Login, f), json_member("uri"@, value_or_empty(f, "URL"@))),
{
    reveal_strlit("\"");
    reveal_strlit("\":\"");
    assert(crate::text::contains(new_item_json(CreateItemType::Login, f), json_member("name"@, value_or_empty(f, "Name"@)))) by {
        reveal_strlit("{\"type\":1,\"name\":\"");
        reveal_strlit("{\"type\":1,");
        reveal_strlit("\",\"notes\":\"");
        reveal_strlit(",\"notes\":\"");
        reveal_strlit("name");
        let p = json_member("name"@, value_or_empty(f, "Name"@));
        lemma_member_between(Seq::empty(), "{\"type\":1,\"name\":\""@, "{\"type\":1,"@, "name"@, value_or_empty(f, "Name"@), "\",\"notes\":\""@, ",\"notes\":\""@);
        lemma_contains_extend(("{\"type\":1,\"name\":\""@ + esc_of(f, "Name"@) + "\",\"notes\":\""@), esc_of(f, "Notes"@), p);
        lemma_contains_extend(("{\"type\":1,\"name\":\""@ + esc_of(f, "Name"@) + "\",\"notes\":\""@ + esc_of(f, "Notes"@)), "\",\"login\":{\"username\":\""@, p);
        lemma_contains_extend(("{\"type\":1,\"name\":\""@ + esc_of(f, "Name"@) + "\",\"notes\":\""@ + esc_of(f, "Notes"@) + "\",\"login\":{\"username\":\""@), esc_of(f, "Username"@), p);
        lemma_contains_extend(("{\"type\":1,\"name\":\""@ + esc_of(f, "Name"@) + "\",\"notes\":\""@ + esc_of(f, "Notes"@) + "\",\"login\":{\"username\":\""@ + esc_of(f, "Username"@)), "\",\"password\":\""@, p);
        lemma_contains_extend(("{\"type\":1,\"name\":\""@ + esc_of(f, "Name"@) + "\",\"notes\":\""@ + esc_of(f, "Notes"@) + "\",\"login\":{\"username\":\""@ + esc_of(f, "Username"@) + "\",\"password\":\""@), esc_of(f, "Password"@), p);
        lemma_contains_extend(("{\"type\":1,\"name\":\""@ + esc_of(f, "Name"@) + "\",\"notes\":\""@ + esc_of(f, "Notes"@) + "\",\"login\":{\"username\":\""@ + esc_of(f, "Username"@) + "\",\"password\":\""@ + esc_of(f, "Password"@)), "\",\"uris\":[{\"uri\":\""@, p);
        lemma_contains_extend(("{\"type\":1,\"name\":\""@ + esc_of(f, "Name"@) + "\",\"notes\":\""@ + esc_of(f, "Notes"@) + "\",\"login\":{\"username\":\""@ + esc_of(f, "Username"@) + "\",\"password\":\""@ + esc_of(f, "Password"@) + "\",\"uris\":[{\"uri\":\""@), esc_of(f, "URL"@), p);
        lemma_contains_extend(("{\"type\":1,\"name\":\""@ + esc_of(f, "Name"@) + "\",\"notes\":\""@ + esc_of(f, "Notes"@) + "\",\"login\":{\"username\":\""@ + esc_of(f, "Username"@) + "\",\"password\":\""@ + esc_of(f, "Password"@) + "\",\"uris\":[{\"uri\":\""@ + esc_of(f, "URL"@)), "\",\"match\":null}]}}"@, p);
    }
    assert(crate::text::contains(new_item_json(CreateItemType::Login, f), json_member("notes"@, value_or_empty(f, "Notes"@)))) by {
        reveal_strlit("\",\"notes\":\"");
        reveal_strlit("\",");
        reveal_strlit("\",\"login\":{\"username\":\"");
        reveal_strlit(",\"login\":{\"username\":\"");
        reveal_strlit("notes");
        let p = json_member("notes"@, value_or_empty(f, "Notes"@));
        let q = "{\"type\":1,\"name\":\""@ + esc_of(f, "Name"@);
        lemma_member_between(q, "\",\"notes\":\""@, "\","@, "notes"@, value_or_empty(f, "Notes"@), "\",\"login\":{\"username\":\""@, ",\"login\":{\"username\":\""@);
        lemma_contains_extend(("{\"type\":1,\"name\":\""@ + esc_of(f, "Name"@) + "\",\"notes\":\""@ + esc_of(f, "Notes"@) + "\",\"login\":{\"username\":\""@), esc_of(f, "Username"@), p);
        lemma_contains_extend(("{\"type\":1,\"name\":\""@ + esc_of(f, "Name"@) + "\",\"notes\":\""@ + esc_of(f, "Notes"@) + "\",\"login\":{\"username\":\""@ + esc_of(f, "Username"@)), "\",\"password\":\""@, p);
        lemma_contains_extend(("{\"type\":1,\"name\":\""@ + esc_of(f, "Name"@) + "\",\"notes\":\""@ + esc_of(f, "Notes"@) + "\",\"login\":{\"username\":\""@ + esc_of(f, "Username"@) + "\",\"password\":\""@), esc_of(f, "Password"@), p);
        lemma_contains_extend(("{\"type\":1,\"name\":\""@ + esc_of(f, "Name"@) + "\",\"notes\":\""@ + esc_of(f, "Notes"@) + "\",\"login\":{\"username\":\""@ + esc_of(f, "Username"@) + "\",\"password\":\""@ + esc_of(f, "Password"@)), "\",\"uris\":[{\"uri\":\""@, p);
        lemma_contains_extend(("{\"type\":1,\"name\":\""@ + esc_of(f, "Name"@) + "\",\"notes\":\""@ + esc_of(f, "Notes"@) + "\",\"login\":{\"username\":\""@ + esc_of(f, "Username"@) + "\",\"password\":\""@ + esc_of(f, "Password"@) + "\",\"uris\":[{\"uri\":\""@), esc_of(f, "URL"@), p);
        lemma_contains_extend(("{\"type\":1,\"name\":\""@ + esc_of(f, "Name"@) + "\",\"notes\":\""@ + esc_of(f, "Notes"@) + "\",\"login\":{\"username\":\""@ + esc_of(f, "Username"@) + "\",\"password\":\""@ + esc_of(f, "Password"@) + "\",\"uris\":[{\"uri\":\""@ + esc_of(f, "URL"@)), "\",\"match\":null}]}}"@, p);
    }
    assert(crate::text::contains(new_item_json(CreateItemType::Login, f), json_member("username"@, value_or_empty(f, "Username"@)))) by {
        reveal_strlit("\",\"login\":{\"username\":\"");
        reveal_strlit("\",\"login\":{");
        reveal_strlit("\",\"password\":\"");
        reveal_strlit(",\"password\":\"");
        reveal_strlit("username");
        let p = json_member("username"@, value_or_empty(f, "Username"@));
        let q = "{\"type\":1,\"name\":\""@ + esc_of(f, "Name"@) + "\",\"notes\":\""@ + esc_of(f, "Notes"@);
        lemma_member_between(q, "\",\"login\":{\"username\":\""@, "\",\"login\":{"@, "username"@, value_or_empty(f, "Username"@), "\",\"password\":\""@, ",\"password\":\""@);
        lemma_contains_extend(("{\"type\":1,\"name\":\""@ + esc_of(f, "Name"@) + "\",\"notes\":\""@ + esc_of(f, "Notes"@) + "\",\"login\":{\"username\":\""@ + esc_of(f, "Username"@) + "\",\"password\":\""@), esc_of(f, "Password"@), p);
        lemma_contains_extend(("{\"type\":1,\"name\":\""@ + esc_of(f, "Name"@) + "\",\"notes\":\""@ + esc_of(f, "Notes"@) + "\",\"login\":{\"username\":\""@ + esc_of(f, "Username"@) + "\",\"password\":\""@ + esc_of(f, "Password"@)), "\",\"uris\":[{\"uri\":\""@, p);
        lemma_contains_extend(("{\"type\":1,\"name\":\""@ + esc_of(f, "Name"@) + "\",\"notes\":\""@ + esc_of(f, "Notes"@) + "\",\"login\":{\"username\":\""@ + esc_of(f, "Username"@) + "\",\"password\":\""@ + esc_of(f, "Password"@) + "\",\"uris\":[{\"uri\":\""@), esc_of(f, "URL"@), p);
        lemma_contains_extend(("{\"type\":1,\"name\":\""@ + esc_of(f, "Name"@) + "\",\"notes\":\""@ + esc_of(f, "Notes"@) + "\",\"login\":{\"username\":\""@ + esc_of(f, "Username"@) + "\",\"password\":\""@ + esc_of(f, "Password"@) + "\",\"uris\":[{\"uri\":\""@ + esc_of(f, "URL"@)), "\",\"match\":null}]}}"@, p);
    }
    assert(crate::text::contains(new_item_json(CreateItemType::Login, f), json_member("password"@, value_or_empty(f, "Password"@)))) by {
        reveal_strlit("\",\"password\":\"");
        reveal_strlit("\",");
        reveal_strlit("\",\"uris\":[{\"uri\":\"");
        reveal_strlit(",\"uris\":[{\"uri\":\"");
        reveal_strlit("password");
        let p = json_member("password"@, value_or_empty(f, "Password"@));
        let q = "{\"type\":1,\"name\":\""@ + esc_of(f, "Name"@) + "\",\"notes\":\""@ + esc_of(f, "Notes"@) + "\",\"login\":{\"username\":\""@ + esc_of(f, "Username"@);
        lemma_member_between(q, "\",\"password\":\""@, "\","@, "password"@, value_or_empty(f, "Password"@), "\",\"uris\":[{\"uri\":\""@, ",\"uris\":[{\"uri\":\""@);
        lemma_contains_extend(("{\"type\":1,\"name\":\""@ + esc_of(f, "Name"@) + "\",\"notes\":\""@ + esc_of(f, "Notes"@) + "\",\"login\":{\"username\":\""@ + esc_of(f, "Username"@) + "\",\"password\":\""@ + esc_of(f, "Password"@) + "\",\"uris\":[{\"uri\":\""@), esc_of(f, "URL"@), p);
        lemma_contains_extend(("{\"type\":1,\"name\":\""@ + esc_of(f, "Name"@) + "\",\"notes\":\""@ + esc_of(f, "Notes"@) + "\",\"login\":{\"username\":\""@ + esc_of(f, "Username"@) + "\",\"password\":\""@ + esc_of(f, "Password"@) + "\",\"uris\":[{\"uri\":\""@ + esc_of(f, "URL"@)), "\",\"match\":null}]}}"@, p);
    }
    assert(crate::text::contains(new_item_json(CreateItemType::Login, f), json_member("uri"@, value_or_empty(f, "URL"@)))) by {
        reveal_strlit("\",\"uris\":[{\"uri\":\"");
        reveal_strlit("\",\"uris\":[{");
        reveal_strlit("\",\"match\":null}]}}");
        reveal_strlit(",\"match\":null}]}}");
        reveal_strlit("uri");
        let p = json_member("uri"@, value_or_empty(f, "URL"@));
        let q = "{\"type\":1,\"name\":\""@ + esc_of(f, "Name"@) + "\",\"notes\":\""@ + esc_of(f, "Notes"@) + "\",\"login\":{\"username\":\""@ + esc_of(f, "Username"@) + "\",\"password\":\""@ + esc_of(f, "Password"@);
        lemma_member_between(q, "\",\"uris\":[{\"uri\":\""@, "\",\"uris\":[{"@, "uri"@, value_or_empty(f, "URL"@), "\",\"match\":null}]}}"@, ",\"match\":null}]}}"@);
    }
}

/// In the JSON of a new secure note, each member's value is the escaped
/// value of the create form's field with that member's own label.
pub proof fn law_new_secure_note_members(f: Seq<EditField>)
    ensures
        crate::text::contains(new_item_json(CreateItemType::SecureNote, f), json_member("name"@, value_or_empty(f, "Name"@))),
        crate::text::contains(new_item_json(CreateItemType::SecureNote, f), json_member("notes"@, value_or_empty(f, "Notes"@))),
{
    reveal_strlit("\"");
    reveal_strlit("\":\"");
    assert(crate::text::contains(new_item_json(CreateItemType::SecureNote, f), json_member("name"@, value_or_empty(f, "Name"@)))) by {
        reveal_strlit("{\"type\":2,\"name\":\"");
        reveal_strlit("{\"type\":2,");
        reveal_strlit("\",\"notes\":\"");
        reveal_strlit(",\"notes\":\"");
        reveal_strlit("name");
        let p = json_member("name"@, value_or_empty(f, "Name"@));
        lemma_member_between(Seq::empty(), "{\"type\":2,\"name\":\""@, "{\"type\":2,"@, "name"@, value_or_empty(f, "Name"@), "\",\"notes\":\""@, ",\"notes\":\""@);
        lemma_contains_extend(("{\"type\":2,\"name\":\""@ + esc_of(f, "Name"@) + "\",\"notes\":\""@), esc_of(f, "Notes"@), p);
        lemma_contains_extend(("{\"type\":2,\"name\":\""@ + esc_of(f, "Name"@) + "\",\"notes\":\""@ + esc_of(f, "Notes"@)), "\",\"secureNote\":{\"type\":0}}"@, p);
    }
    assert(crate::text::contains(new_item_json(CreateItemType::SecureNote, f), json_member("notes"@, value_or_empty(f, "Notes"@)))) by {
        reveal_strlit("\",\"notes\":\"");
        reveal_strlit("\",");
        reveal_strlit("\",\"secureNote\":{\"type\":0}}");
        reveal_strlit(",\"secureNote\":{\"type\":0}}");
        reveal_strlit("notes");
        let p = json_member("notes"@, value_or_empty(f, "Notes"@));
        let q = "{\"type\":2,\"name\":\""@ + esc_of(f, "Name"@);
        lemma_member_between(q, "\",\"notes\":\""@, "\","@, "notes"@, value_or_empty(f, "Notes"@), "\",\"secureNote\":{\"type\":0}}"@, ",\"secureNote\":{\"type\":0}}"@);
    }
}

/// In the JSON of a new card, each member's value is the escaped
/// value of the create form's field with that member's own label.
pub proof fn law_new_card_members(f: Seq<EditField>)
    ensures
        crate::text::contains(new_item_json(CreateItemType::Card, f), json_member("name"@, value_or_empty(f, "Name"@))),
        crate::text::contains(new_item_json(CreateItemType::Card, f), json_member("notes"@, value_or_empty(f, "Notes"@))),
        crate::text::contains(new_item_json(CreateItemType::Card, f), json_member("cardholderName"@, value_or_empty(f, "Cardholder"@))),
        crate::text::contains(new_item_json(CreateItemType::Card, f), json_member("brand"@, value_or_empty(f, "Brand"@))),
        crate::text::contains(new_item_json(CreateItemType::Card, f), json_member("number"@, value_or_empty(f, "Number"@))),
        crate::text::contains(new_item_json(CreateItemType::Card, f), json_member("expMonth"@, value_or_empty(f, "Exp Month"@))),
        crate::text::contains(new_item_json(CreateItemType::Card, f), json_member("expYear"@, value_or_empty(f, "Exp Year"@))),
        crate::text::contains(new_item_json(CreateItemType::Card, f), json_member("code"@, value_or_empty(f, "CVV"@))),
{
    reveal_strlit("\"");
    reveal_strlit("\":\"");
    assert(crate::text::contains(new_item_json(CreateItemType::Card, f), json_member("name"@, value_or_empty(f, "Name"@)))) by {
        reveal_strlit("{\"type\":3,\"name\":\"");
        reveal_strlit("{\"type\":3,");
        reveal_strlit("\",\"notes\":\"");
        reveal_strlit(",\"notes\":\"");
        reveal_strlit("name");
        let p = json_member("name"@, value_or_empty(f, "Name"@));
        lemma_member_between(Seq::empty(), "{\"type\":3,\"name\":\""@, "{\"type\":3,"@, "name"@, value_or_empty(f, "Name"@), "\",\"notes\":\""@, ",\"notes\":\""@);
        lemma_contains_extend(("{\"type\":3,\"name\":\""@ + esc_of(f, "Name"@) + "\",\"notes\":\""@), esc_of(f, "Notes"@), p);
        lemma_contains_extend(("{\"type\":3,\"name\":\""@ + esc_of(f, "Name"@) + "\",\"notes\":\""@ + esc_of(f, "Notes"@)), "\",\"card\":{\"cardholderName\":\""@, p);
        lemma_contains_extend(("{\"type\":3,\"name\":\""@ + esc_of(f, "Name"@) + "\",\"notes\":\""@ + esc_of(f, "Notes"@) + "\",\"card\":{\"cardholderName\":\""@), esc_of(f, "Cardholder"@), p);
        lemma_contains_extend(("{\"type\":3,\"name\":\""@ + esc_of(f, "Name"@) + "\",\"notes\":\""@ + esc_of(f, "Notes"@) + "\",\"card\":{\"cardholderName\":\""@ + esc_of(f, "Cardholder"@)), "\",\"brand\":\""@, p);
        lemma_contains_extend(("{\"type\":3,\"name\":\""@ + esc_of(f, "Name"@) + "\",\"notes\":\""@ + esc_of(f, "Notes"@) + "\",\"card\":{\"cardholderName\":\""@ + esc_of(f, "Cardholder"@) + "\",\"brand\":\""@), esc_of(f, "Brand"@), p);
        lemma_contains_extend(("{\"type\":3,\"name\":\""@ + esc_of(f, "Name"@) + "\",\"notes\":\""@ + esc_of(f, "Notes"@) + "\",\"card\":{\"cardholderName\":\""@ + esc_of(f, "Cardholder"@) + "\",\"brand\":\""@ + esc_of(f, "Brand"@)), "\",\"number\":\""@, p);
        lemma_contains_extend(("{\"type\":3,\"name\":\""@ + esc_of(f, "Name"@) + "\",\"notes\":\""@ + esc_of(f, "Notes"@) + "\",\"card\":{\"cardholderName\":\""@ + esc_of(f, "Cardholder"@) + "\",\"brand\":\""@ + esc_of(f, "Brand"@) + "\",\"number\":\""@), esc_of(f, "Number"@), p);
        lemma_contains_extend(("{\"type\":3,\"name\":\""@ + esc_of(f, "Name"@) + "\",\"notes\":\""@ + esc_of(f, "Notes"@) + "\",\"card\":{\"cardholderName\":\""@ + esc_of(f, "Cardholder"@) + "\",\"brand\":\""@ + esc_of(f, "Brand"@) + "\",\"number\":\""@ + esc_of(f, "Number"@)), "\",\"expMonth\":\""@, p);
        lemma_contains_extend(("{\"type\":3,\"name\":\""@ + esc_of(f, "Name"@) + "\",\"notes\":\""@ + esc_of(f, "Notes"@) + "\",\"card\":{\"cardholderName\":\""@ + esc_of(f, "Cardholder"@) + "\",\"brand\":\""@ + esc_of(f, "Brand"@) + "\",\"number\":\""@ + esc_of(f, "Number"@) + "\",\"expMonth\":\""@), esc_of(f, "Exp Month"@), p);
        lemma_contains_extend(("{\"type\":3,\"name\":\""@ + esc_of(f, "Name"@) + "\",\"notes\":\""@ + esc_of(f, "Notes"@) + "\",\"card\":{\"cardholderName\":\""@ + esc_of(f, "Cardholder"@) + "\",\"brand\":\""@ + esc_of(f, "Brand"@) + "\",\"number\":\""@ + esc_of(f, "Number"@) + "\",\"expMonth\":\""@ + esc_of(f, "Exp Month"@)), "\",\"expYear\":\""@, p);
        lemma_contains_extend(("{\"type\":3,\"name\":\""@ + esc_of(f, "Name"@) + "\",\"notes\":\""@ + esc_of(f, "Notes"@) + "\",\"card\":{\"cardholderName\":\""@ + esc_of(f, "Cardholder"@) + "\",\"brand\":\""@ + esc_of(f, "Brand"@) + "\",\"number\":\""@ + esc_of(f, "Number"@) + "\",\"expMonth\":\""@ + esc_of(f, "Exp Month"@) + "\",\"expYear\":\""@), esc_of(f, "Exp Year"@), p);
        lemma_contains_extend(("{\"type\":3,\"name\":\""@ + esc_of(f, "Name"@) + "\",\"notes\":\""@ + esc_of(f, "Notes"@) + "\",\"card\":{\"cardholderName\":\""@ + esc_of(f, "Cardholder"@) + "\",\"brand\":\""@ + esc_of(f, "Brand"@) + "\",\"number\":\""@ + esc_of(f, "Number"@) + "\",\"expMonth\":\""@ + esc_of(f, "Exp Month"@) + "\",\"expYear\":\""@ + esc_of(f, "Exp Year"@)), "\",\"code\":\""@, p);
        lemma_contains_extend(("{\"type\":3,\"name\":\""@ + esc_of(f, "Name"@) + "\",\"notes\":\""@ + esc_of(f, "Notes"@) + "\",\"card\":{\"cardholderName\":\""@ + esc_of(f, "Cardholder"@) + "\",\"brand\":\""@ + esc_of(f, "Brand"@) + "\",\"number\":\""@ + esc_of(f, "Number"@) + "\",\"expMonth\":\""@ + esc_of(f, "Exp Month"@) + "\",\"expYear\":\""@ + esc_of(f, "Exp Year"@) + "\",\"code\":\""@), esc_of(f, "CVV"@), p);
        lemma_contains_extend(("{\"type\":3,\"name\":\""@ + esc_of(f, "Name"@) + "\",\"notes\":\""@ + esc_of(f, "Notes"@) + "\",\"card\":{\"cardholderName\":\""@ + esc_of(f, "Cardholder"@) + "\",\"brand\":\""@ + esc_of(f, "Brand"@) + "\",\"number\":\""@ + esc_of(f, "Number"@) + "\",\"expMonth\":\""@ + esc_of(f, "Exp Month"@) + "\",\"expYear\":\""@ + esc_of(f, "Exp Year"@) + "\",\"code\":\""@ + esc_of(f, "CVV"@)), "\"}}"@, p);
    }
    assert(crate::text::contains(new_item_json(CreateItemType::Card, f), json_member("notes"@, value_or_empty(f, "Notes"@)))) by {
        reveal_strlit("\",\"notes\":\"");
        reveal_strlit("\",");
        reveal_strlit("\",\"card\":{\"cardholderName\":\"");
        reveal_strlit(",\"card\":{\"cardholderName\":\"");
        reveal_strlit("notes");
        let p = json_member("notes"@, value_or_empty(f, "Notes"@));
        let q = "{\"type\":3,\"name\":\""@ + esc_of(f, "Name"@);
        lemma_member_between(q, "\",\"notes\":\""@, "\","@, "notes"@, value_or_empty(f, "Notes"@), "\",\"card\":{\"cardholderName\":\""@, ",\"card\":{\"cardholderName\":\""@);
        lemma_contains_extend(("{\"type\":3,\"name\":\""@ + esc_of(f, "Name"@) + "\",\"notes\":\""@ + esc_of(f, "Notes"@) + "\",\"card\":{\"cardholderName\":\""@), esc_of(f, "Cardholder"@), p);
        lemma_contains_extend(("{\"type\":3,\"name\":\""@ + esc_of(f, "Name"@) + "\",\"notes\":\""@ + esc_of(f, "Notes"@) + "\",\"card\":{\"cardholderName\":\""@ + esc_of(f, "Cardholder"@)), "\",\"brand\":\""@, p);
        lemma_contains_extend(("{\"type\":3,\"name\":\""@ + esc_of(f, "Name"@) + "\",\"notes\":\""@ + esc_of(f, "Notes"@) + "\",\"card\":{\"cardholderName\":\""@ + esc_of(f, "Cardholder"@) + "\",\"brand\":\""@), esc_of(f, "Brand"@), p);
        lemma_contains_extend(("{\"type\":3,\"name\":\""@ + esc_of(f, "Name"@) + "\",\"notes\":\""@ + esc_of(f, "Notes"@) + "\",\"card\":{\"cardholderName\":\""@ + esc_of(f, "Cardholder"@) + "\",\"brand\":\""@ + esc_of(f, "Brand"@)), "\",\"number\":\""@, p);
        lemma_contains_extend(("{\"type\":3,\"name\":\""@ + esc_of(f, "Name"@) + "\",\"notes\":\""@ + esc_of(f, "Notes"@) + "\",\"card\":{\"cardholderName\":\""@ + esc_of(f, "Cardholder"@) + "\",\"brand\":\""@ + esc_of(f, "Brand"@) + "\",\"number\":\""@), esc_of(f, "Number"@), p);
        lemma_contains_extend(("{\"type\":3,\"name\":\""@ + esc_of(f, "Name"@) + "\",\"notes\":\""@ + esc_of(f, "Notes"@) + "\",\"card\":{\"cardholderName\":\""@ + esc_of(f, "Cardholder"@) + "\",\"brand\":\""@ + esc_of(f, "Brand"@) + "\",\"number\":\""@ + esc_of(f, "Number"@)), "\",\"expMonth\":\""@, p);
        lemma_contains_extend(("{\"type\":3,\"name\":\""@ + esc_of(f, "Name"@) + "\",\"notes\":\""@ + esc_of(f, "Notes"@) + "\",\"card\":{\"cardholderName\":\""@ + esc_of(f, "Cardholder"@) + "\",\"brand\":\""@ + esc_of(f, "Brand"@) + "\",\"number\":\""@ + esc_of(f, "Number"@) + "\",\"expMonth\":\""@), esc_of(f, "Exp Month"@), p);
        lemma_contains_extend(("{\"type\":3,\"name\":\""@ + esc_of(f, "Name"@) + "\",\"notes\":\""@ + esc_of(f, "Notes"@) + "\",\"card\":{\"cardholderName\":\""@ + esc_of(f, "Cardholder"@) + "\",\"brand\":\""@ + esc_of(f, "Brand"@) + "\",\"number\":\""@ + esc_of(f, "Number"@) + "\",\"expMonth\":\""@ + esc_of(f, "Exp Month"@)), "\",\"expYear\":\""@, p);
        lemma_contains_extend(("{\"type\":3,\"name\":\""@ + esc_of(f, "Name"@) + "\",\"notes\":\""@ + esc_of(f, "Notes"@) + "\",\"card\":{\"cardholderName\":\""@ + esc_of(f, "Cardholder"@) + "\",\"brand\":\""@ + esc_of(f, "Brand"@) + "\",\"number\":\""@ + esc_of(f, "Number"@) + "\",\"expMonth\":\""@ + esc_of(f, "Exp Month"@) + "\",\"expYear\":\""@), esc_of(f, "Exp Year"@), p);
        lemma_contains_extend(("{\"type\":3,\"name\":\""@ + esc_of(f, "Name"@) + "\",\"notes\":\""@ + esc_of(f, "Notes"@) + "\",\"card\":{\"cardholderName\":\""@ + esc_of(f, "Cardholder"@) + "\",\"brand\":\""@ + esc_of(f, "Brand"@) + "\",\"number\":\""@ + esc_of(f, "Number"@) + "\",\"expMonth\":\""@ + esc_of(f, "Exp Month"@) + "\",\"expYear\":\""@ + esc_of(f, "Exp Year"@)), "\",\"code\":\""@, p);
        lemma_contains_extend(("{\"type\":3,\"name\":\""@ + esc_of(f, "Name"@) + "\",\"notes\":\""@ + esc_of(f, "Notes"@) + "\",\"card\":{\"cardholderName\":\""@ + esc_of(f, "Cardholder"@) + "\",\"brand\":\""@ + esc_of(f, "Brand"@) + "\",\"number\":\""@ + esc_of(f, "Number"@) + "\",\"expMonth\":\""@ + esc_of(f, "Exp Month"@) + "\",\"expYear\":\""@ + esc_of(f, "Exp Year"@) + "\",\"code\":\""@), esc_of(f, "CVV"@), p);
        lemma_contains_extend(("{\"type\":3,\"name\":\""@ + esc_of(f, "Name"@) + "\",\"notes\":\""@ + esc_of(f, "Notes"@) + "\",\"card\":{\"cardholderName\":\""@ + esc_of(f, "Cardholder"@) + "\",\"brand\":\""@ + esc_of(f, "Brand"@) + "\",\"number\":\""@ + esc_of(f, "Number"@) + "\",\"expMonth\":\""@ + esc_of(f, "Exp Month"@) + "\",\"expYear\":\""@ + esc_of(f, "Exp Year"@) + "\",\"code\":\""@ + esc_of(f, "CVV"@)), "\"}}"@, p);
    }
    assert(crate::text::contains(new_item_json(CreateItemType::Card, f), json_member("cardholderName"@, value_or_empty(f, "Cardholder"@)))) by {
        reveal_strlit("\",\"card\":{\"cardholderName\":\"");
        reveal_strlit("\",\"card\":{");
        reveal_strlit("\",\"brand\":\"");
        reveal_strlit(",\"brand\":\"");
        reveal_strlit("cardholderName");
        let p = json_member("cardholderName"@, value_or_empty(f, "Cardholder"@));
        let q = "{\"type\":3,\"name\":\""@ + esc_of(f, "Name"@) + "\",\"notes\":\""@ + esc_of(f, "Notes"@);
        lemma_member_between(q, "\",\"card\":{\"cardholderName\":\""@, "\",\"card\":{"@, "cardholderName"@, value_or_empty(f, "Cardholder"@), "\",\"brand\":\""@, ",\"brand\":\""@);
        lemma_contains_extend(("{\"type\":3,\"name\":\""@ + esc_of(f, "Name"@) + "\",\"notes\":\""@ + esc_of(f, "Notes"@) + "\",\"card\":{\"cardholderName\":\""@ + esc_of(f, "Cardholder"@) + "\",\"brand\":\""@), esc_of(f, "Brand"@), p);
        lemma_contains_extend(("{\"type\":3,\"name\":\""@ + esc_of(f, "Name"@) + "\",\"notes\":\""@ + esc_of(f, "Notes"@) + "\",\"card\":{\"cardholderName\":\""@ + esc_of(f, "Cardholder"@) + "\",\"brand\":\""@ + esc_of(f, "Brand"@)), "\",\"number\":\""@, p);
        lemma_contains_extend(("{\"type\":3,\"name\":\""@ + esc_of(f, "Name"@) + "\",\"notes\":\""@ + esc_of(f, "Notes"@) + "\",\"card\":{\"cardholderName\":\""@ + esc_of(f, "Cardholder"@) + "\",\"brand\":\""@ + esc_of(f, "Brand"@) + "\",\"number\":\""@), esc_of(f, "Number"@), p);
        lemma_contains_extend(("{\"type\":3,\"name\":\""@ + esc_of(f, "Name"@) + "\",\"notes\":\""@ + esc_of(f, "Notes"@) + "\",\"card\":{\"cardholderName\":\""@ + esc_of(f, "Cardholder"@) + "\",\"brand\":\""@ + esc_of(f, "Brand"@) + "\",\"number\":\""@ + esc_of(f, "Number"@)), "\",\"expMonth\":\""@, p);
        lemma_contains_extend(("{\"type\":3,\"name\":\""@ + esc_of(f, "Name"@) + "\",\"notes\":\""@ + esc_of(f, "Notes"@) + "\",\"card\":{\"cardholderName\":\""@ + esc_of(f, "Cardholder"@) + "\",\"brand\":\""@ + esc_of(f, "Brand"@) + "\",\"number\":\""@ + esc_of(f, "Number"@) + "\",\"expMonth\":\""@), esc_of(f, "Exp Month"@), p);
        lemma_contains_extend(("{\"type\":3,\"name\":\""@ + esc_of(f, "Name"@) + "\",\"notes\":\""@ + esc_of(f, "Notes"@) + "\",\"card\":{\"cardholderName\":\""@ + esc_of(f, "Cardholder"@) + "\",\"brand\":\""@ + esc_of(f, "Brand"@) + "\",\"number\":\""@ + esc_of(f, "Number"@) + "\",\"expMonth\":\""@ + esc_of(f, "Exp Month"@)), "\",\"expYear\":\""@, p);
        lemma_contains_extend(("{\"type\":3,\"name\":\""@ + esc_of(f, "Name"@) + "\",\"notes\":\""@ + esc_of(f, "Notes"@) + "\",\"card\":{\"cardholderName\":\""@ + esc_of(f, "Cardholder"@) + "\",\"brand\":\""@ + esc_of(f, "Brand"@) + "\",\"number\":\""@ + esc_of(f, "Number"@) + "\",\"expMonth\":\""@ + esc_of(f, "Exp Month"@) + "\",\"expYear\":\""@), esc_of(f, "Exp Year"@), p);
        lemma_contains_extend(("{\"type\":3,\"name\":\""@ + esc_of(f, "Name"@) + "\",\"notes\":\""@ + esc_of(f, "Notes"@) + "\",\"card\":{\"cardholderName\":\""@ + esc_of(f, "Cardholder"@) + "\",\"brand\":\""@ + esc_of(f, "Brand"@) + "\",\"number\":\""@ + esc_of(f, "Number"@) + "\",\"expMonth\":\""@ + esc_of(f, "Exp Month"@) + "\",\"expYear\":\""@ + esc_of(f, "Exp Year"@)), "\",\"code\":\""@, p);
        lemma_contains_extend(("{\"type\":3,\"name\":\""@ + esc_of(f, "Name"@) + "\",\"notes\":\""@ + esc_of(f, "Notes"@) + "\",\"card\":{\"cardholderName\":\""@ + esc_of(f, "Cardholder"@) + "\",\"brand\":\""@ + esc_of(f, "Brand"@) + "\",\"number\":\""@ + esc_of(f, "Number"@) + "\",\"expMonth\":\""@ + esc_of(f, "Exp Month"@) + "\",\"expYear\":\""@ + esc_of(f, "Exp Year"@) + "\",\"code\":\""@), esc_of(f, "CVV"@), p);
        lemma_contains_extend(("{\"type\":3,\"name\":\""@ + esc_of(f, "Name"@) + "\",\"notes\":\""@ + esc_of(f, "Notes"@) + "\",\"card\":{\"cardholderName\":\""@ + esc_of(f, "Cardholder"@) + "\",\"brand\":\""@ + esc_of(f, "Brand"@) + "\",\"number\":\""@ + esc_of(f, "Number"@) + "\",\"expMonth\":\""@ + esc_of(f, "Exp Month"@) + "\",\"expYear\":\""@ + esc_of(f, "Exp Year"@) + "\",\"code\":\""@ + esc_of(f, "CVV"@)), "\"}}"@, p);
    }
    assert(crate::text::contains(new_item_json(CreateItemType::Card, f), json_member("brand"@, value_or_empty(f, "Brand"@)))) by {
        reveal_strlit("\",\"brand\":\"");
        reveal_strlit("\",");
        reveal_strlit("\",\"number\":\"");
        reveal_strlit(",\"number\":\"");
        reveal_strlit("brand");
        let p = json_member("brand"@, value_or_empty(f, "Brand"@));
        let q = "{\"type\":3,\"name\":\""@ + esc_of(f, "Name"@) + "\",\"notes\":\""@ + esc_of(f, "Notes"@) + "\",\"card\":{\"cardholderName\":\""@ + esc_of(f, "Cardholder"@);
        lemma_member_between(q, "\",\"brand\":\""@, "\","@, "brand"@, value_or_empty(f, "Brand"@), "\",\"number\":\""@, ",\"number\":\""@);
        lemma_contains_extend(("{\"type\":3,\"name\":\""@ + esc_of(f, "Name"@) + "\",\"notes\":\""@ + esc_of(f, "Notes"@) + "\",\"card\":{\"cardholderName\":\""@ + esc_of(f, "Cardholder"@) + "\",\"brand\":\""@ + esc_of(f, "Brand"@) + "\",\"number\":\""@), esc_of(f, "Number"@), p);
        lemma_contains_extend(("{\"type\":3,\"name\":\""@ + esc_of(f, "Name"@) + "\",\"notes\":\""@ + esc_of(f, "Notes"@) + "\",\"card\":{\"cardholderName\":\""@ + esc_of(f, "Cardholder"@) + "\",\"brand\":\""@ + esc_of(f, "Brand"@) + "\",\"number\":\""@ + esc_of(f, "Number"@)), "\",\"expMonth\":\""@, p);
        lemma_contains_extend(("{\"type\":3,\"name\":\""@ + esc_of(f, "Name"@) + "\",\"notes\":\""@ + esc_of(f, "Notes"@) + "\",\"card\":{\"cardholderName\":\""@ + esc_of(f, "Cardholder"@) + "\",\"brand\":\""@ + esc_of(f, "Brand"@) + "\",\"number\":\""@ + esc_of(f, "Number"@) + "\",\"expMonth\":\""@), esc_of(f, "Exp Month"@), p);
        lemma_contains_extend(("{\"type\":3,\"name\":\""@ + esc_of(f, "Name"@) + "\",\"notes\":\""@ + esc_of(f, "Notes"@) + "\",\"card\":{\"cardholderName\":\""@ + esc_of(f, "Cardholder"@) + "\",\"brand\":\""@ + esc_of(f, "Brand"@) + "\",\"number\":\""@ + esc_of(f, "Number"@) + "\",\"expMonth\":\""@ + esc_of(f, "Exp Month"@)), "\",\"expYear\":\""@, p);
        lemma_contains_extend(("{\"type\":3,\"name\":\""@ + esc_of(f, "Name"@) + "\",\"notes\":\""@ + esc_of(f, "Notes"@) + "\",\"card\":{\"cardholderName\":\""@ + esc_of(f, "Cardholder"@) + "\",\"brand\":\""@ + esc_of(f, "Brand"@) + "\",\"number\":\""@ + esc_of(f, "Number"@) + "\",\"expMonth\":\""@ + esc_of(f, "Exp Month"@) + "\",\"expYear\":\""@), esc_of(f, "Exp Year"@), p);
        lemma_contains_extend(("{\"type\":3,\"name\":\""@ + esc_of(f, "Name"@) + "\",\"notes\":\""@ + esc_of(f, "Notes"@) + "\",\"card\":{\"cardholderName\":\""@ + esc_of(f, "Cardholder"@) + "\",\"brand\":\""@ + esc_of(f, "Brand"@) + "\",\"number\":\""@ + esc_of(f, "Number"@) + "\",\"expMonth\":\""@ + esc_of(f, "Exp Month"@) + "\",\"expYear\":\""@ + esc_of(f, "Exp Year"@)), "\",\"code\":\""@, p);
        lemma_contains_extend(("{\"type\":3,\"name\":\""@ + esc_of(f, "Name"@) + "\",\"notes\":\""@ + esc_of(f, "Notes"@) + "\",\"card\":{\"cardholderName\":\""@ + esc_of(f, "Cardholder"@) + "\",\"brand\":\""@ + esc_of(f, "Brand"@) + "\",\"number\":\""@ + esc_of(f, "Number"@) + "\",\"expMonth\":\""@ + esc_of(f, "Exp Month"@) + "\",\"expYear\":\""@ + esc_of(f, "Exp Year"@) + "\",\"code\":\""@), esc_of(f, "CVV"@), p);
        lemma_contains_extend(("{\"type\":3,\"name\":\""@ + esc_of(f, "Name"@) + "\",\"notes\":\""@ + esc_of(f, "Notes"@) + "\",\"card\":{\"cardholderName\":\""@ + esc_of(f, "Cardholder"@) + "\",\"brand\":\""@ + esc_of(f, "Brand"@) + "\",\"number\":\""@ + esc_of(f, "Number"@) + "\",\"expMonth\":\""@ + esc_of(f, "Exp Month"@) + "\",\"expYear\":\""@ + esc_of(f, "Exp Year"@) + "\",\"code\":\""@ + esc_of(f, "CVV"@)), "\"}}"@, p);
    }
    assert(crate::text::contains(new_item_json(CreateItemType::Card, f), json_member("number"@, value_or_empty(f, "Number"@)))) by {
        reveal_strlit("\",\"number\":\"");
        reveal_strlit("\",");
        reveal_strlit("\",\"expMonth\":\"");
        reveal_strlit(",\"expMonth\":\"");
        reveal_strlit("number");
        let p = json_member("number"@, value_or_empty(f, "Number"@));
        let q = "{\"type\":3,\"name\":\""@ + esc_of(f, "Name"@) + "\",\"notes\":\""@ + esc_of(f, "Notes"@) + "\",\"card\":{\"cardholderName\":\""@ + esc_of(f, "Cardholder"@) + "\",\"brand\":\""@ + esc_of(f, "Brand"@);
        lemma_member_between(q, "\",\"number\":\""@, "\","@, "number"@, value_or_empty(f, "Number"@), "\",\"expMonth\":\""@, ",\"expMonth\":\""@);
        lemma_contains_extend(("{\"type\":3,\"name\":\""@ + esc_of(f, "Name"@) + "\",\"notes\":\""@ + esc_of(f, "Notes"@) + "\",\"card\":{\"cardholderName\":\""@ + esc_of(f, "Cardholder"@) + "\",\"brand\":\""@ + esc_of(f, "Brand"@) + "\",\"number\":\""@ + esc_of(f, "Number"@) + "\",\"expMonth\":\""@), esc_of(f, "Exp Month"@), p);
        lemma_contains_extend(("{\"type\":3,\"name\":\""@ + esc_of(f, "Name"@) + "\",\"notes\":\""@ + esc_of(f, "Notes"@) + "\",\"card\":{\"cardholderName\":\""@ + esc_of(f, "Cardholder"@) + "\",\"brand\":\""@ + esc_of(f, "Brand"@) + "\",\"number\":\""@ + esc_of(f, "Number"@) + "\",\"expMonth\":\""@ + esc_of(f, "Exp Month"@)), "\",\"expYear\":\""@, p);
        lemma_contains_extend(("{\"type\":3,\"name\":\""@ + esc_of(f, "Name"@) + "\",\"notes\":\""@ + esc_of(f, "Notes"@) + "\",\"card\":{\"cardholderName\":\""@ + esc_of(f, "Cardholder"@) + "\",\"brand\":\""@ + esc_of(f, "Brand"@) + "\",\"number\":\""@ + esc_of(f, "Number"@) + "\",\"expMonth\":\""@ + esc_of(f, "Exp Month"@) + "\",\"expYear\":\""@), esc_of(f, "Exp Year"@), p);
        lemma_contains_extend(("{\"type\":3,\"name\":\""@ + esc_of(f, "Name"@) + "\",\"notes\":\""@ + esc_of(f, "Notes"@) + "\",\"card\":{\"cardholderName\":\""@ + esc_of(f, "Cardholder"@) + "\",\"brand\":\""@ + esc_of(f, "Brand"@) + "\",\"number\":\""@ + esc_of(f, "Number"@) + "\",\"expMonth\":\""@ + esc_of(f, "Exp Month"@) + "\",\"expYear\":\""@ + esc_of(f, "Exp Year"@)), "\",\"code\":\""@, p);
        lemma_contains_extend(("{\"type\":3,\"name\":\""@ + esc_of(f, "Name"@) + "\",\"notes\":\""@ + esc_of(f, "Notes"@) + "\",\"card\":{\"cardholderName\":\""@ + esc_of(f, "Cardholder"@) + "\",\"brand\":\""@ + esc_of(f, "Brand"@) + "\",\"number\":\""@ + esc_of(f, "Number"@) + "\",\"expMonth\":\""@ + esc_of(f, "Exp Month"@) + "\",\"expYear\":\""@ + esc_of(f, "Exp Year"@) + "\",\"code\":\""@), esc_of(f, "CVV"@), p);
        lemma_contains_extend(("{\"type\":3,\"name\":\""@ + esc_of(f, "Name"@) + "\",\"notes\":\""@ + esc_of(f, "Notes"@) + "\",\"card\":{\"cardholderName\":\""@ + esc_of(f, "Cardholder"@) + "\",\"brand\":\""@ + esc_of(f, "Brand"@) + "\",\"number\":\""@ + esc_of(f, "Number"@) + "\",\"expMonth\":\""@ + esc_of(f, "Exp Month"@) + "\",\"expYear\":\""@ + esc_of(f, "Exp Year"@) + "\",\"code\":\""@ + esc_of(f, "CVV"@)), "\"}}"@, p);
    }
    assert(crate::text::contains(new_item_json(CreateItemType::Card, f), json_member("expMonth"@, value_or_empty(f, "Exp Month"@)))) by {
        reveal_strlit("\",\"expMonth\":\"");
        reveal_strlit("\",");
        reveal_strlit("\",\"expYear\":\"");
        reveal_strlit(",\"expYear\":\"");
        reveal_strlit("expMonth");
        let p = json_member("expMonth"@, value_or_empty(f, "Exp Month"@));
        let q = "{\"type\":3,\"name\":\""@ + esc_of(f, "Name"@) + "\",\"notes\":\""@ + esc_of(f, "Notes"@) + "\",\"card\":{\"cardholderName\":\""@ + esc_of(f, "Cardholder"@) + "\",\"brand\":\""@ + esc_of(f, "Brand"@) + "\",\"number\":\""@ + esc_of(f, "Number"@);
        lemma_member_between(q, "\",\"expMonth\":\""@, "\","@, "expMonth"@, value_or_empty(f, "Exp Month"@), "\",\"expYear\":\""@, ",\"expYear\":\""@);
        lemma_contains_extend(("{\"type\":3,\"name\":\""@ + esc_of(f, "Name"@) + "\",\"notes\":\""@ + esc_of(f, "Notes"@) + "\",\"card\":{\"cardholderName\":\""@ + esc_of(f, "Cardholder"@) + "\",\"brand\":\""@ + esc_of(f, "Brand"@) + "\",\"number\":\""@ + esc_of(f, "Number"@) + "\",\"expMonth\":\""@ + esc_of(f, "Exp Month"@) + "\",\"expYear\":\""@), esc_of(f, "Exp Year"@), p);
        lemma_contains_extend(("{\"type\":3,\"name\":\""@ + esc_of(f, "Name"@) + "\",\"notes\":\""@ + esc_of(f, "Notes"@) + "\",\"card\":{\"cardholderName\":\""@ + esc_of(f, "Cardholder"@) + "\",\"brand\":\""@ + esc_of(f, "Brand"@) + "\",\"number\":\""@ + esc_of(f, "Number"@) + "\",\"expMonth\":\""@ + esc_of(f, "Exp Month"@) + "\",\"expYear\":\""@ + esc_of(f, "Exp Year"@)), "\",\"code\":\""@, p);
        lemma_contains_extend(("{\"type\":3,\"name\":\""@ + esc_of(f, "Name"@) + "\",\"notes\":\""@ + esc_of(f, "Notes"@) + "\",\"card\":{\"cardholderName\":\""@ + esc_of(f, "Cardholder"@) + "\",\"brand\":\""@ + esc_of(f, "Brand"@) + "\",\"number\":\""@ + esc_of(f, "Number"@) + "\",\"expMonth\":\""@ + esc_of(f, "Exp Month"@) + "\",\"expYear\":\""@ + esc_of(f, "Exp Year"@) + "\",\"code\":\""@), esc_of(f, "CVV"@), p);
        lemma_contains_extend(("{\"type\":3,\"name\":\""@ + esc_of(f, "Name"@) + "\",\"notes\":\""@ + esc_of(f, "Notes"@) + "\",\"card\":{\"cardholderName\":\""@ + esc_of(f, "Cardholder"@) + "\",\"brand\":\""@ + esc_of(f, "Brand"@) + "\",\"number\":\""@ + esc_of(f, "Number"@) + "\",\"expMonth\":\""@ + esc_of(f, "Exp Month"@) + "\",\"expYear\":\""@ + esc_of(f, "Exp Year"@) + "\",\"code\":\""@ + esc_of(f, "CVV"@)), "\"}}"@, p);
    }
    assert(crate::text::contains(new_item_json(CreateItemType::Card, f), json_member("expYear"@, value_or_empty(f, "Exp Year"@)))) by {
        reveal_strlit("\",\"expYear\":\"");
        reveal_strlit("\",");
        reveal_strlit("\",\"code\":\"");
        reveal_strlit(",\"code\":\"");
        reveal_strlit("expYear");
        let p = json_member("expYear"@, value_or_empty(f, "Exp Year"@));
        let q = "{\"type\":3,\"name\":\""@ + esc_of(f, "Name"@) + "\",\"notes\":\""@ + esc_of(f, "Notes"@) + "\",\"card\":{\"cardholderName\":\""@ + esc_of(f, "Cardholder"@) + "\",\"brand\":\""@ + esc_of(f, "Brand"@) + "\",\"number\":\""@ + esc_of(f, "Number"@) + "\",\"expMonth\":\""@ + esc_of(f, "Exp Month"@);
        lemma_member_between(q, "\",\"expYear\":\""@, "\","@, "expYear"@, value_or_empty(f, "Exp Year"@), "\",\"code\":\""@, ",\"code\":\""@);
        lemma_contains_extend(("{\"type\":3,\"name\":\""@ + esc_of(f, "Name"@) + "\",\"notes\":\""@ + esc_of(f, "Notes"@) + "\",\"card\":{\"cardholderName\":\""@ + esc_of(f, "Cardholder"@) + "\",\"brand\":\""@ + esc_of(f, "Brand"@) + "\",\"number\":\""@ + esc_of(f, "Number"@) + "\",\"expMonth\":\""@ + esc_of(f, "Exp Month"@) + "\",\"expYear\":\""@ + esc_of(f, "Exp Year"@) + "\",\"code\":\""@), esc_of(f, "CVV"@), p);
        lemma_contains_extend(("{\"type\":3,\"name\":\""@ + esc_of(f, "Name"@) + "\",\"notes\":\""@ + esc_of(f, "Notes"@) + "\",\"card\":{\"cardholderName\":\""@ + esc_of(f, "Cardholder"@) + "\",\"brand\":\""@ + esc_of(f, "Brand"@) + "\",\"number\":\""@ + esc_of(f, "Number"@) + "\",\"expMonth\":\""@ + esc_of(f, "Exp Month"@) + "\",\"expYear\":\""@ + esc_of(f, "Exp Year"@) + "\",\"code\":\""@ + esc_of(f, "CVV"@)), "\"}}"@, p);
    }
    assert(crate::text::contains(new_item_json(CreateItemType::Card, f), json_member("code"@, value_or_empty(f, "CVV"@)))) by {
        reveal_strlit("\",\"code\":\"");
        reveal_strlit("\",");
        reveal_strlit("\"}}");
        reveal_strlit("}}");
        reveal_strlit("code");
        let p = json_member("code"@, value_or_empty(f, "CVV"@));
        let q = "{\"type\":3,\"name\":\""@ + esc_of(f, "Name"@) + "\",\"notes\":\""@ + esc_of(f, "Notes"@) + "\",\"card\":{\"cardholderName\":\""@ + esc_of(f, "Cardholder"@) + "\",\"brand\":\""@ + esc_of(f, "Brand"@) + "\",\"number\":\""@ + esc_of(f, "Number"@) + "\",\"expMonth\":\""@ + esc_of(f, "Exp Month"@) + "\",\"expYear\":\""@ + esc_of(f, "Exp Year"@);
        lemma_member_between(q, "\",\"code\":\""@, "\","@, "code"@, value_or_empty(f, "CVV"@), "\"}}"@, "}}"@);
    }
}

/// In the JSON of a new identity, each member's value is the escaped
/// value of the create form's field with that member's own label.
#[verifier::rlimit(60)]
pub proof fn law_new_identity_members(f: Seq<EditField>)
    ensures
        crate::text::contains(new_item_json(CreateItemType::Identity, f), json_member("name"@, value_or_empty(f, "Name"@))),
        crate::text::contains(new_item_json(CreateItemType::Identity, f), json_member("notes"@, value_or_empty(f, "Notes"@))),
        crate::text::contains(new_item_json(CreateItemType::Identity, f), json_member("firstName"@, value_or_empty(f, "First Name"@))),
        crate::text::contains(new_item_json(CreateItemType::Identity, f), json_member("lastName"@, value_or_empty(f, "Last Name"@))),
        crate::text::contains(new_item_json(CreateItemType::Identity, f), json_member("email"@, value_or_empty(f, "Email"@))),
        crate::text::contains(new_item_json(CreateItemType::Identity, f), json_member("phone"@, value_or_empty(f, "Phone"@))),
        crate::text::contains(new_item_json(CreateItemType::Identity, f), json_member("company"@, value_or_empty(f, "Company"@))),
        crate::text::contains(new_item_json(CreateItemType::Identity, f), json_member("address1"@, value_or_empty(f, "Address"@))),
        crate::text::contains(new_item_json(CreateItemType::Identity, f), json_member("city"@, value_or_empty(f, "City"@))),
        crate::text::contains(new_item_json(CreateItemType::Identity, f), json_member("state"@, value_or_empty(f, "State"@))),
        crate::text::contains(new_item_json(CreateItemType::Identity, f), json_member("postalCode"@, value_or_empty(f, "ZIP"@))),
        crate::text::contains(new_item_json(CreateItemType::Identity, f), json_member("country"@, value_or_empty(f, "Country"@))),
{
    reveal_strlit("\"");
    reveal_strlit("\":\"");
    assert(crate::text::contains(new_item_json(CreateItemType::Identity, f), json_member("name"@, value_or_empty(f, "Name"@)))) by {
        reveal_strlit("{\"type\":4,\"name\":\"");
        reveal_strlit("{\"type\":4,");
        reveal_strlit("\",\"notes\":\"");
        reveal_strlit(",\"notes\":\"");
        reveal_strlit("name");
        let p = json_member("name"@, value_or_empty(f, "Name"@));
        lemma_member_between(Seq::empty(), "{\"type\":4,\"name\":\""@, "{\"type\":4,"@, "name"@, value_or_empty(f, "Name"@), "\",\"notes\":\""@, ",\"notes\":\""@);
        lemma_contains_extend(("{\"type\":4,\"name\":\""@ + esc_of(f, "Name"@) + "\",\"notes\":\""@), esc_of(f, "Notes"@), p);
        lemma_contains_extend(("{\"type\":4,\"name\":\""@ + esc_of(f, "Name"@) + "\",\"notes\":\""@ + esc_of(f, "Notes"@)), "\",\"identity\":{\"firstName\":\""@, p);
        lemma_contains_extend(("{\"type\":4,\"name\":\""@ + esc_of(f, "Name"@) + "\",\"notes\":\""@ + esc_of(f, "Notes"@) + "\",\"identity\":{\"firstName\":\""@), esc_of(f, "First Name"@), p);
        lemma_contains_extend(("{\"type\":4,\"name\":\""@ + esc_of(f, "Name"@) + "\",\"notes\":\""@ + esc_of(f, "Notes"@) + "\",\"identity\":{\"firstName\":\""@ + esc_of(f, "First Name"@)), "\",\"lastName\":\""@, p);
        lemma_contains_extend(("{\"type\":4,\"name\":\""@ + esc_of(f, "Name"@) + "\",\"notes\":\""@ + esc_of(f, "Notes"@) + "\",\"identity\":{\"firstName\":\""@ + esc_of(f, "First Name"@) + "\",\"lastName\":\""@), esc_of(f, "Last Name"@), p);
        lemma_contains_extend(("{\"type\":4,\"name\":\""@ + esc_of(f, "Name"@) + "\",\"notes\":\""@ + esc_of(f, "Notes"@) + "\",\"identity\":{\"firstName\":\""@ + esc_of(f, "First Name"@) + "\",\"lastName\":\""@ + esc_of(f, "Last Name"@)), "\",\"email\":\""@, p);
        lemma_contains_extend(("{\"type\":4,\"name\":\""@ + esc_of(f, "Name"@) + "\",\"notes\":\""@ + esc_of(f, "Notes"@) + "\",\"identity\":{\"firstName\":\""@ + esc_of(f, "First Name"@) + "\",\"lastName\":\""@ + esc_of(f, "Last Name"@) + "\",\"email\":\""@), esc_of(f, "Email"@), p);
        lemma_contains_extend(("{\"type\":4,\"name\":\""@ + esc_of(f, "Name"@) + "\",\"notes\":\""@ + esc_of(f, "Notes"@) + "\",\"identity\":{\"firstName\":\""@ + esc_of(f, "First Name"@) + "\",\"lastName\":\""@ + esc_of(f, "Last Name"@) + "\",\"email\":\""@ + esc_of(f, "Email"@)), "\",\"phone\":\""@, p);
        lemma_contains_extend(("{\"type\":4,\"name\":\""@ + esc_of(f, "Name"@) + "\",\"notes\":\""@ + esc_of(f, "Notes"@) + "\",\"identity\":{\"firstName\":\""@ + esc_of(f, "First Name"@) + "\",\"lastName\":\""@ + esc_of(f, "Last Name"@) + "\",\"email\":\""@ + esc_of(f, "Email"@) + "\",\"phone\":\""@), esc_of(f, "Phone"@), p);
        lemma_contains_extend(("{\"type\":4,\"name\":\""@ + esc_of(f, "Name"@) + "\",\"notes\":\""@ + esc_of(f, "Notes"@) + "\",\"identity\":{\"firstName\":\""@ + esc_of(f, "First Name"@) + "\",\"lastName\":\""@ + esc_of(f, "Last Name"@) + "\",\"email\":\""@ + esc_of(f, "Email"@) + "\",\"phone\":\""@ + esc_of(f, "Phone"@)), "\",\"company\":\""@, p);
        lemma_contains_extend(("{\"type\":4,\"name\":\""@ + esc_of(f, "Name"@) + "\",\"notes\":\""@ + esc_of(f, "Notes"@) + "\",\"identity\":{\"firstName\":\""@ + esc_of(f, "First Name"@) + "\",\"lastName\":\""@ + esc_of(f, "Last Name"@) + "\",\"email\":\""@ + esc_of(f, "Email"@) + "\",\"phone\":\""@ + esc_of(f, "Phone"@) + "\",\"company\":\""@), esc_of(f, "Company"@), p);
        lemma_contains_extend(("{\"type\":4,\"name\":\""@ + esc_of(f, "Name"@) + "\",\"notes\":\""@ + esc_of(f, "Notes"@) + "\",\"identity\":{\"firstName\":\""@ + esc_of(f, "First Name"@) + "\",\"lastName\":\""@ + esc_of(f, "Last Name"@) + "\",\"email\":\""@ + esc_of(f, "Email"@) + "\",\"phone\":\""@ + esc_of(f, "Phone"@) + "\",\"company\":\""@ + esc_of(f, "Company"@)), "\",\"address1\":\""@, p);
        lemma_contains_extend(("{\"type\":4,\"name\":\""@ + esc_of(f, "Name"@) + "\",\"notes\":\""@ + esc_of(f, "Notes"@) + "\",\"identity\":{\"firstName\":\""@ + esc_of(f, "First Name"@) + "\",\"lastName\":\""@ + esc_of(f, "Last Name"@) + "\",\"email\":\""@ + esc_of(f, "Email"@) + "\",\"phone\":\""@ + esc_of(f, "Phone"@) + "\",\"company\":\""@ + esc_of(f, "Company"@) + "\",\"address1\":\""@), esc_of(f, "Address"@), p);
        lemma_contains_extend(("{\"type\":4,\"name\":\""@ + esc_of(f, "Name"@) + "\",\"notes\":\""@ + esc_of(f, "Notes"@) + "\",\"identity\":{\"firstName\":\""@ + esc_of(f, "First Name"@) + "\",\"lastName\":\""@ + esc_of(f, "Last Name"@) + "\",\"email\":\""@ + esc_of(f, "Email"@) + "\",\"phone\":\""@ + esc_of(f, "Phone"@) + "\",\"company\":\""@ + esc_of(f, "Company"@) + "\",\"address1\":\""@ + esc_of(f, "Address"@)), "\",\"city\":\""@, p);
        lemma_contains_extend(("{\"type\":4,\"name\":\""@ + esc_of(f, "Name"@) + "\",\"notes\":\""@ + esc_of(f, "Notes"@) + "\",\"identity\":{\"firstName\":\""@ + esc_of(f, "First Name"@) + "\",\"lastName\":\""@ + esc_of(f, "Last Name"@) + "\",\"email\":\""@ + esc_of(f, "Email"@) + "\",\"phone\":\""@ + esc_of(f, "Phone"@) + "\",\"company\":\""@ + esc_of(f, "Company"@) + "\",\"address1\":\""@ + esc_of(f, "Address"@) + "\",\"city\":\""@), esc_of(f, "City"@), p);
        lemma_contains_extend(("{\"type\":4,\"name\":\""@ + esc_of(f, "Name"@) + "\",\"notes\":\""@ + esc_of(f, "Notes"@) + "\",\"identity\":{\"firstName\":\""@ + esc_of(f, "First Name"@) + "\",\"lastName\":\""@ + esc_of(f, "Last Name"@) + "\",\"email\":\""@ + esc_of(f, "Email"@) + "\",\"phone\":\""@ + esc_of(f, "Phone"@) + "\",\"company\":\""@ + esc_of(f, "Company"@) + "\",\"address1\":\""@ + esc_of(f, "Address"@) + "\",\"city\":\""@ + esc_of(f, "City"@)), "\",\"state\":\""@, p);
        lemma_contains_extend(("{\"type\":4,\"name\":\""@ + esc_of(f, "Name"@) + "\",\"notes\":\""@ + esc_of(f, "Notes"@) + "\",\"identity\":{\"firstName\":\""@ + esc_of(f, "First Name"@) + "\",\"lastName\":\""@ + esc_of(f, "Last Name"@) + "\",\"email\":\""@ + esc_of(f, "Email"@) + "\",\"phone\":\""@ + esc_of(f, "Phone"@) + "\",\"company\":\""@ + esc_of(f, "Company"@) + "\",\"address1\":\""@ + esc_of(f, "Address"@) + "\",\"city\":\""@ + esc_of(f, "City"@) + "\",\"state\":\""@), esc_of(f, "State"@), p);
        lemma_contains_extend(("{\"type\":4,\"name\":\""@ + esc_of(f, "Name"@) + "\",\"notes\":\""@ + esc_of(f, "Notes"@) + "\",\"identity\":{\"firstName\":\""@ + esc_of(f, "First Name"@) + "\",\"lastName\":\""@ + esc_of(f, "Last Name"@) + "\",\"email\":\""@ + esc_of(f, "Email"@) + "\",\"phone\":\""@ + esc_of(f, "Phone"@) + "\",\"company\":\""@ + esc_of(f, "Company"@) + "\",\"address1\":\""@ + esc_of(f, "Address"@) + "\",\"city\":\""@ + esc_of(f, "City"@) + "\",\"state\":\""@ + esc_of(f, "State"@)), "\",\"postalCode\":\""@, p);
        lemma_contains_extend(("{\"type\":4,\"name\":\""@ + esc_of(f, "Name"@) + "\",\"notes\":\""@ + esc_of(f, "Notes"@) + "\",\"identity\":{\"firstName\":\""@ + esc_of(f, "First Name"@) + "\",\"lastName\":\""@ + esc_of(f, "Last Name"@) + "\",\"email\":\""@ + esc_of(f, "Email"@) + "\",\"phone\":\""@ + esc_of(f, "Phone"@) + "\",\"company\":\""@ + esc_of(f, "Company"@) + "\",\"address1\":\""@ + esc_of(f, "Address"@) + "\",\"city\":\""@ + esc_of(f, "City"@) + "\",\"state\":\""@ + esc_of(f, "State"@) + "\",\"postalCode\":\""@), esc_of(f, "ZIP"@), p);
        lemma_contains_extend(("{\"type\":4,\"name\":\""@ + esc_of(f, "Name"@) + "\",\"notes\":\""@ + esc_of(f, "Notes"@) + "\",\"identity\":{\"firstName\":\""@ + esc_of(f, "First Name"@) + "\",\"lastName\":\""@ + esc_of(f, "Last Name"@) + "\",\"email\":\""@ + esc_of(f, "Email"@) + "\",\"phone\":\""@ + esc_of(f, "Phone"@) + "\",\"company\":\""@ + esc_of(f, "Company"@) + "\",\"address1\":\""@ + esc_of(f, "Address"@) + "\",\"city\":\""@ + esc_of(f, "City"@) + "\",\"state\":\""@ + esc_of(f, "State"@) + "\",\"postalCode\":\""@ + esc_of(f, "ZIP"@)), "\",\"country\":\""@, p);
        lemma_contains_extend(("{\"type\":4,\"name\":\""@ + esc_of(f, "Name"@) + "\",\"notes\":\""@ + esc_of(f, "Notes"@) + "\",\"identity\":{\"firstName\":\""@ + esc_of(f, "First Name"@) + "\",\"lastName\":\""@ + esc_of(f, "Last Name"@) + "\",\"email\":\""@ + esc_of(f, "Email"@) + "\",\"phone\":\""@ + esc_of(f, "Phone"@) + "\",\"company\":\""@ + esc_of(f, "Company"@) + "\",\"address1\":\""@ + esc_of(f, "Address"@) + "\",\"city\":\""@ + esc_of(f, "City"@) + "\",\"state\":\""@ + esc_of(f, "State"@) + "\",\"postalCode\":\""@ + esc_of(f, "ZIP"@) + "\",\"country\":\""@), esc_of(f, "Country"@), p);
        lemma_contains_extend(("{\"type\":4,\"name\":\""@ + esc_of(f, "Name"@) + "\",\"notes\":\""@ + esc_of(f, "Notes"@) + "\",\"identity\":{\"firstName\":\""@ + esc_of(f, "First Name"@) + "\",\"lastName\":\""@ + esc_of(f, "Last Name"@) + "\",\"email\":\""@ + esc_of(f, "Email"@) + "\",\"phone\":\""@ + esc_of(f, "Phone"@) + "\",\"company\":\""@ + esc_of(f, "Company"@) + "\",\"address1\":\""@ + esc_of(f, "Address"@) + "\",\"city\":\""@ + esc_of(f, "City"@) + "\",\"state\":\""@ + esc_of(f, "State"@) + "\",\"postalCode\":\""@ + esc_of(f, "ZIP"@) + "\",\"country\":\""@ + esc_of(f, "Country"@)), "\"}}"@, p);
    }
    assert(crate::text::contains(new_item_json(CreateItemType::Identity, f), json_member("notes"@, value_or_empty(f, "Notes"@)))) by {
        reveal_strlit("\",\"notes\":\"");
        reveal_strlit("\",");
        reveal_strlit("\",\"identity\":{\"firstName\":\"");
        reveal_strlit(",\"identity\":{\"firstName\":\"");
        reveal_strlit("notes");
        let p = json_member("notes"@, value_or_empty(f, "Notes"@));
        let q = "{\"type\":4,\"name\":\""@ + esc_of(f, "Name"@);
        lemma_member_between(q, "\",\"notes\":\""@, "\","@, "notes"@, value_or_empty(f, "Notes"@), "\",\"identity\":{\"firstName\":\""@, ",\"identity\":{\"firstName\":\""@);
        lemma_contains_extend(("{\"type\":4,\"name\":\""@ + esc_of(f, "Name"@) + "\",\"notes\":\""@ + esc_of(f, "Notes"@) + "\",\"identity\":{\"firstName\":\""@), esc_of(f, "First Name"@), p);
        lemma_contains_extend(("{\"type\":4,\"name\":\""@ + esc_of(f, "Name"@) + "\",\"notes\":\""@ + esc_of(f, "Notes"@) + "\",\"identity\":{\"firstName\":\""@ + esc_of(f, "First Name"@)), "\",\"lastName\":\""@, p);
        lemma_contains_extend(("{\"type\":4,\"name\":\""@ + esc_of(f, "Name"@) + "\",\"notes\":\""@ + esc_of(f, "Notes"@) + "\",\"identity\":{\"firstName\":\""@ + esc_of(f, "First Name"@) + "\",\"lastName\":\""@), esc_of(f, "Last Name"@), p);
        lemma_contains_extend(("{\"type\":4,\"name\":\""@ + esc_of(f, "Name"@) + "\",\"notes\":\""@ + esc_of(f, "Notes"@) + "\",\"identity\":{\"firstName\":\""@ + esc_of(f, "First Name"@) + "\",\"lastName\":\""@ + esc_of(f, "Last Name"@)), "\",\"email\":\""@, p);
        lemma_contains_extend(("{\"type\":4,\"name\":\""@ + esc_of(f, "Name"@) + "\",\"notes\":\""@ + esc_of(f, "Notes"@) + "\",\"identity\":{\"firstName\":\""@ + esc_of(f, "First Name"@) + "\",\"lastName\":\""@ + esc_of(f, "Last Name"@) + "\",\"email\":\""@), esc_of(f, "Email"@), p);
        lemma_contains_extend(("{\"type\":4,\"name\":\""@ + esc_of(f, "Name"@) + "\",\"notes\":\""@ + esc_of(f, "Notes"@) + "\",\"identity\":{\"firstName\":\""@ + esc_of(f, "First Name"@) + "\",\"lastName\":\""@ + esc_of(f, "Last Name"@) + "\",\"email\":\""@ + esc_of(f, "Email"@)), "\",\"phone\":\""@, p);
        lemma_contains_extend(("{\"type\":4,\"name\":\""@ + esc_of(f, "Name"@) + "\",\"notes\":\""@ + esc_of(f, "Notes"@) + "\",\"identity\":{\"firstName\":\""@ + esc_of(f, "First Name"@) + "\",\"lastName\":\""@ + esc_of(f, "Last Name"@) + "\",\"email\":\""@ + esc_of(f, "Email"@) + "\",\"phone\":\""@), esc_of(f, "Phone"@), p);
        lemma_contains_extend(("{\"type\":4,\"name\":\""@ + esc_of(f, "Name"@) + "\",\"notes\":\""@ + esc_of(f, "Notes"@) + "\",\"identity\":{\"firstName\":\""@ + esc_of(f, "First Name"@) + "\",\"lastName\":\""@ + esc_of(f, "Last Name"@) + "\",\"email\":\""@ + esc_of(f, "Email"@) + "\",\"phone\":\""@ + esc_of(f, "Phone"@)), "\",\"company\":\""@, p);
        lemma_contains_extend(("{\"type\":4,\"name\":\""@ + esc_of(f, "Name"@) + "\",\"notes\":\""@ + esc_of(f, "Notes"@) + "\",\"identity\":{\"firstName\":\""@ + esc_of(f, "First Name"@) + "\",\"lastName\":\""@ + esc_of(f, "Last Name"@) + "\",\"email\":\""@ + esc_of(f, "Email"@) + "\",\"phone\":\""@ + esc_of(f, "Phone"@) + "\",\"company\":\""@), esc_of(f, "Company"@), p);
        lemma_contains_extend(("{\"type\":4,\"name\":\""@ + esc_of(f, "Name"@) + "\",\"notes\":\""@ + esc_of(f, "Notes"@) + "\",\"identity\":{\"firstName\":\""@ + esc_of(f, "First Name"@) + "\",\"lastName\":\""@ + esc_of(f, "Last Name"@) + "\",\"email\":\""@ + esc_of(f, "Email"@) + "\",\"phone\":\""@ + esc_of(f, "Phone"@) + "\",\"company\":\""@ + esc_of(f, "Company"@)), "\",\"address1\":\""@, p);
        lemma_contains_extend(("{\"type\":4,\"name\":\""@ + esc_of(f, "Name"@) + "\",\"notes\":\""@ + esc_of(f, "Notes"@) + "\",\"identity\":{\"firstName\":\""@ + esc_of(f, "First Name"@) + "\",\"lastName\":\""@ + esc_of(f, "Last Name"@) + "\",\"email\":\""@ + esc_of(f, "Email"@) + "\",\"phone\":\""@ + esc_of(f, "Phone"@) + "\",\"company\":\""@ + esc_of(f, "Company"@) + "\",\"address1\":\""@), esc_of(f, "Address"@), p);
        lemma_contains_extend(("{\"type\":4,\"name\":\""@ + esc_of(f, "Name"@) + "\",\"notes\":\""@ + esc_of(f, "Notes"@) + "\",\"identity\":{\"firstName\":\""@ + esc_of(f, "First Name"@) + "\",\"lastName\":\""@ + esc_of(f, "Last Name"@) + "\",\"email\":\""@ + esc_of(f, "Email"@) + "\",\"phone\":\""@ + esc_of(f, "Phone"@) + "\",\"company\":\""@ + esc_of(f, "Company"@) + "\",\"address1\":\""@ + esc_of(f, "Address"@)), "\",\"city\":\""@, p);
        lemma_contains_extend(("{\"type\":4,\"name\":\""@ + esc_of(f, "Name"@) + "\",\"notes\":\""@ + esc_of(f, "Notes"@) + "\",\"identity\":{\"firstName\":\""@ + esc_of(f, "First Name"@) + "\",\"lastName\":\""@ + esc_of(f, "Last Name"@) + "\",\"email\":\""@ + esc_of(f, "Email"@) + "\",\"phone\":\""@ + esc_of(f, "Phone"@) + "\",\"company\":\""@ + esc_of(f, "Company"@) + "\",\"address1\":\""@ + esc_of(f, "Address"@) + "\",\"city\":\""@), esc_of(f, "City"@), p);
        lemma_contains_extend(("{\"type\":4,\"name\":\""@ + esc_of(f, "Name"@) + "\",\"notes\":\""@ + esc_of(f, "Notes"@) + "\",\"identity\":{\"firstName\":\""@ + esc_of(f, "First Name"@) + "\",\"lastName\":\""@ + esc_of(f, "Last Name"@) + "\",\"email\":\""@ + esc_of(f, "Email"@) + "\",\"phone\":\""@ + esc_of(f, "Phone"@) + "\",\"company\":\""@ + esc_of(f, "Company"@) + "\",\"address1\":\""@ + esc_of(f, "Address"@) + "\",\"city\":\""@ + esc_of(f, "City"@)), "\",\"state\":\""@, p);
        lemma_contains_extend(("{\"type\":4,\"name\":\""@ + esc_of(f, "Name"@) + "\",\"notes\":\""@ + esc_of(f, "Notes"@) + "\",\"identity\":{\"firstName\":\""@ + esc_of(f, "First Name"@) + "\",\"lastName\":\""@ + esc_of(f, "Last Name"@) + "\",\"email\":\""@ + esc_of(f, "Email"@) + "\",\"phone\":\""@ + esc_of(f, "Phone"@) + "\",\"company\":\""@ + esc_of(f, "Company"@) + "\",\"address1\":\""@ + esc_of(f, "Address"@) + "\",\"city\":\""@ + esc_of(f, "City"@) + "\",\"state\":\""@), esc_of(f, "State"@), p);
        lemma_contains_extend(("{\"type\":4,\"name\":\""@ + esc_of(f, "Name"@) + "\",\"notes\":\""@ + esc_of(f, "Notes"@) + "\",\"identity\":{\"firstName\":\""@ + esc_of(f, "First Name"@) + "\",\"lastName\":\""@ + esc_of(f, "Last Name"@) + "\",\"email\":\""@ + esc_of(f, "Email"@) + "\",\"phone\":\""@ + esc_of(f, "Phone"@) + "\",\"company\":\""@ + esc_of(f, "Company"@) + "\",\"address1\":\""@ + esc_of(f, "Address"@) + "\",\"city\":\""@ + esc_of(f, "City"@) + "\",\"state\":\""@ + esc_of(f, "State"@)), "\",\"postalCode\":\""@, p);
        lemma_contains_extend(("{\"type\":4,\"name\":\""@ + esc_of(f, "Name"@) + "\",\"notes\":\""@ + esc_of(f, "Notes"@) + "\",\"identity\":{\"firstName\":\""@ + esc_of(f, "First Name"@) + "\",\"lastName\":\""@ + esc_of(f, "Last Name"@) + "\",\"email\":\""@ + esc_of(f, "Email"@) + "\",\"phone\":\""@ + esc_of(f, "Phone"@) + "\",\"company\":\""@ + esc_of(f, "Company"@) + "\",\"address1\":\""@ + esc_of(f, "Address"@) + "\",\"city\":\""@ + esc_of(f, "City"@) + "\",\"state\":\""@ + esc_of(f, "State"@) + "\",\"postalCode\":\""@), esc_of(f, "ZIP"@), p);
        lemma_contains_extend(("{\"type\":4,\"name\":\""@ + esc_of(f, "Name"@) + "\",\"notes\":\""@ + esc_of(f, "Notes"@) + "\",\"identity\":{\"firstName\":\""@ + esc_of(f, "First Name"@) + "\",\"lastName\":\""@ + esc_of(f, "Last Name"@) + "\",\"email\":\""@ + esc_of(f, "Email"@) + "\",\"phone\":\""@ + esc_of(f, "Phone"@) + "\",\"company\":\""@ + esc_of(f, "Company"@) + "\",\"address1\":\""@ + esc_of(f, "Address"@) + "\",\"city\":\""@ + esc_of(f, "City"@) + "\",\"state\":\""@ + esc_of(f, "State"@) + "\",\"postalCode\":\""@ + esc_of(f, "ZIP"@)), "\",\"country\":\""@, p);
        lemma_contains_extend(("{\"type\":4,\"name\":\""@ + esc_of(f, "Name"@) + "\",\"notes\":\""@ + esc_of(f, "Notes"@) + "\",\"identity\":{\"firstName\":\""@ + esc_of(f, "First Name"@) + "\",\"lastName\":\""@ + esc_of(f, "Last Name"@) + "\",\"email\":\""@ + esc_of(f, "Email"@) + "\",\"phone\":\""@ + esc_of(f, "Phone"@) + "\",\"company\":\""@ + esc_of(f, "Company"@) + "\",\"address1\":\""@ + esc_of(f, "Address"@) + "\",\"city\":\""@ + esc_of(f, "City"@) + "\",\"state\":\""@ + esc_of(f, "State"@) + "\",\"postalCode\":\""@ + esc_of(f, "ZIP"@) + "\",\"country\":\""@), esc_of(f, "Country"@), p);
        lemma_contains_extend(("{\"type\":4,\"name\":\""@ + esc_of(f, "Name"@) + "\",\"notes\":\""@ + esc_of(f, "Notes"@) + "\",\"identity\":{\"firstName\":\""@ + esc_of(f, "First Name"@) + "\",\"lastName\":\""@ + esc_of(f, "Last Name"@) + "\",\"email\":\""@ + esc_of(f, "Email"@) + "\",\"phone\":\""@ + esc_of(f, "Phone"@) + "\",\"company\":\""@ + esc_of(f, "Company"@) + "\",\"address1\":\""@ + esc_of(f, "Address"@) + "\",\"city\":\""@ + esc_of(f, "City"@) + "\",\"state\":\""@ + esc_of(f, "State"@) + "\",\"postalCode\":\""@ + esc_of(f, "ZIP"@) + "\",\"country\":\""@ + esc_of(f, "Country"@)), "\"}}"@, p);
    }
    assert(crate::text::contains(new_item_json(CreateItemType::Identity, f), json_member("firstName"@, value_or_empty(f, "First Name"@)))) by {
        reveal_strlit("\",\"identity\":{\"firstName\":\"");
        reveal_strlit("\",\"identity\":{");
        reveal_strlit("\",\"lastName\":\"");
        reveal_strlit(",\"lastName\":\"");
        reveal_strlit("firstName");
        let p = json_member("firstName"@, value_or_empty(f, "First Name"@));
        let q = "{\"type\":4,\"name\":\""@ + esc_of(f, "Name"@) + "\",\"notes\":\""@ + esc_of(f, "Notes"@);
        lemma_member_between(q, "\",\"identity\":{\"firstName\":\""@, "\",\"identity\":{"@, "firstName"@, value_or_empty(f, "First Name"@), "\",\"lastName\":\""@, ",\"lastName\":\""@);
        lemma_contains_extend(("{\"type\":4,\"name\":\""@ + esc_of(f, "Name"@) + "\",\"notes\":\""@ + esc_of(f, "Notes"@) + "\",\"identity\":{\"firstName\":\""@ + esc_of(f, "First Name"@) + "\",\"lastName\":\""@), esc_of(f, "Last Name"@), p);
        lemma_contains_extend(("{\"type\":4,\"name\":\""@ + esc_of(f, "Name"@) + "\",\"notes\":\""@ + esc_of(f, "Notes"@) + "\",\"identity\":{\"firstName\":\""@ + esc_of(f, "First Name"@) + "\",\"lastName\":\""@ + esc_of(f, "Last Name"@)), "\",\"email\":\""@, p);
        lemma_contains_extend(("{\"type\":4,\"name\":\""@ + esc_of(f, "Name"@) + "\",\"notes\":\""@ + esc_of(f, "Notes"@) + "\",\"identity\":{\"firstName\":\""@ + esc_of(f, "First Name"@) + "\",\"lastName\":\""@ + esc_of(f, "Last Name"@) + "\",\"email\":\""@), esc_of(f, "Email"@), p);
        lemma_contains_extend(("{\"type\":4,\"name\":\""@ + esc_of(f, "Name"@) + "\",\"notes\":\""@ + esc_of(f, "Notes"@) + "\",\"identity\":{\"firstName\":\""@ + esc_of(f, "First Name"@) + "\",\"lastName\":\""@ + esc_of(f, "Last Name"@) + "\",\"email\":\""@ + esc_of(f, "Email"@)), "\",\"phone\":\""@, p);
        lemma_contains_extend(("{\"type\":4,\"name\":\""@ + esc_of(f, "Name"@) + "\",\"notes\":\""@ + esc_of(f, "Notes"@) + "\",\"identity\":{\"firstName\":\""@ + esc_of(f, "First Name"@) + "\",\"lastName\":\""@ + esc_of(f, "Last Name"@) + "\",\"email\":\""@ + esc_of(f, "Email"@) + "\",\"phone\":\""@), esc_of(f, "Phone"@), p);
        lemma_contains_extend(("{\"type\":4,\"name\":\""@ + esc_of(f, "Name"@) + "\",\"notes\":\""@ + esc_of(f, "Notes"@) + "\",\"identity\":{\"firstName\":\""@ + esc_of(f, "First Name"@) + "\",\"lastName\":\""@ + esc_of(f, "Last Name"@) + "\",\"email\":\""@ + esc_of(f, "Email"@) + "\",\"phone\":\""@ + esc_of(f, "Phone"@)), "\",\"company\":\""@, p);
        lemma_contains_extend(("{\"type\":4,\"name\":\""@ + esc_of(f, "Name"@) + "\",\"notes\":\""@ + esc_of(f, "Notes"@) + "\",\"identity\":{\"firstName\":\""@ + esc_of(f, "First Name"@) + "\",\"lastName\":\""@ + esc_of(f, "Last Name"@) + "\",\"email\":\""@ + esc_of(f, "Email"@) + "\",\"phone\":\""@ + esc_of(f, "Phone"@) + "\",\"company\":\""@), esc_of(f, "Company"@), p);
        lemma_contains_extend(("{\"type\":4,\"name\":\""@ + esc_of(f, "Name"@) + "\",\"notes\":\""@ + esc_of(f, "Notes"@) + "\",\"identity\":{\"firstName\":\""@ + esc_of(f, "First Name"@) + "\",\"lastName\":\""@ + esc_of(f, "Last Name"@) + "\",\"email\":\""@ + esc_of(f, "Email"@) + "\",\"phone\":\""@ + esc_of(f, "Phone"@) + "\",\"company\":\""@ + esc_of(f, "Company"@)), "\",\"address1\":\""@, p);
        lemma_contains_extend(("{\"type\":4,\"name\":\""@ + esc_of(f, "Name"@) + "\",\"notes\":\""@ + esc_of(f, "Notes"@) + "\",\"identity\":{\"firstName\":\""@ + esc_of(f, "First Name"@) + "\",\"lastName\":\""@ + esc_of(f, "Last Name"@) + "\",\"email\":\""@ + esc_of(f, "Email"@) + "\",\"phone\":\""@ + esc_of(f, "Phone"@) + "\",\"company\":\""@ + esc_of(f, "Company"@) + "\",\"address1\":\""@), esc_of(f, "Address"@), p);
        lemma_contains_extend(("{\"type\":4,\"name\":\""@ + esc_of(f, "Name"@) + "\",\"notes\":\""@ + esc_of(f, "Notes"@) + "\",\"identity\":{\"firstName\":\""@ + esc_of(f, "First Name"@) + "\",\"lastName\":\""@ + esc_of(f, "Last Name"@) + "\",\"email\":\""@ + esc_of(f, "Email"@) + "\",\"phone\":\""@ + esc_of(f, "Phone"@) + "\",\"company\":\""@ + esc_of(f, "Company"@) + "\",\"address1\":\""@ + esc_of(f, "Address"@)), "\",\"city\":\""@, p);
        lemma_contains_extend(("{\"type\":4,\"name\":\""@ + esc_of(f, "Name"@) + "\",\"notes\":\""@ + esc_of(f, "Notes"@) + "\",\"identity\":{\"firstName\":\""@ + esc_of(f, "First Name"@) + "\",\"lastName\":\""@ + esc_of(f, "Last Name"@) + "\",\"email\":\""@ + esc_of(f, "Email"@) + "\",\"phone\":\""@ + esc_of(f, "Phone"@) + "\",\"company\":\""@ + esc_of(f, "Company"@) + "\",\"address1\":\""@ + esc_of(f, "Address"@) + "\",\"city\":\""@), esc_of(f, "City"@), p);
        lemma_contains_extend(("{\"type\":4,\"name\":\""@ + esc_of(f, "Name"@) + "\",\"notes\":\""@ + esc_of(f, "Notes"@) + "\",\"identity\":{\"firstName\":\""@ + esc_of(f, "First Name"@) + "\",\"lastName\":\""@ + esc_of(f, "Last Name"@) + "\",\"email\":\""@ + esc_of(f, "Email"@) + "\",\"phone\":\""@ + esc_of(f, "Phone"@) + "\",\"company\":\""@ + esc_of(f, "Company"@) + "\",\"address1\":\""@ + esc_of(f, "Address"@) + "\",\"city\":\""@ + esc_of(f, "City"@)), "\",\"state\":\""@, p);
        lemma_contains_extend(("{\"type\":4,\"name\":\""@ + esc_of(f, "Name"@) + "\",\"notes\":\""@ + esc_of(f, "Notes"@) + "\",\"identity\":{\"firstName\":\""@ + esc_of(f, "First Name"@) + "\",\"lastName\":\""@ + esc_of(f, "Last Name"@) + "\",\"email\":\""@ + esc_of(f, "Email"@) + "\",\"phone\":\""@ + esc_of(f, "Phone"@) + "\",\"company\":\""@ + esc_of(f, "Company"@) + "\",\"address1\":\""@ + esc_of(f, "Address"@) + "\",\"city\":\""@ + esc_of(f, "City"@) + "\",\"state\":\""@), esc_of(f, "State"@), p);
        lemma_contains_extend(("{\"type\":4,\"name\":\""@ + esc_of(f, "Name"@) + "\",\"notes\":\""@ + esc_of(f, "Notes"@) + "\",\"identity\":{\"firstName\":\""@ + esc_of(f, "First Name"@) + "\",\"lastName\":\""@ + esc_of(f, "Last Name"@) + "\",\"email\":\""@ + esc_of(f, "Email"@) + "\",\"phone\":\""@ + esc_of(f, "Phone"@) + "\",\"company\":\""@ + esc_of(f, "Company"@) + "\",\"address1\":\""@ + esc_of(f, "Address"@) + "\",\"city\":\""@ + esc_of(f, "City"@) + "\",\"state\":\""@ + esc_of(f, "State"@)), "\",\"postalCode\":\""@, p);
        lemma_contains_extend(("{\"type\":4,\"name\":\""@ + esc_of(f, "Name"@) + "\",\"notes\":\""@ + esc_of(f, "Notes"@) + "\",\"identity\":{\"firstName\":\""@ + esc_of(f, "First Name"@) + "\",\"lastName\":\""@ + esc_of(f, "Last Name"@) + "\",\"email\":\""@ + esc_of(f, "Email"@) + "\",\"phone\":\""@ + esc_of(f, "Phone"@) + "\",\"company\":\""@ + esc_of(f, "Company"@) + "\",\"address1\":\""@ + esc_of(f, "Address"@) + "\",\"city\":\""@ + esc_of(f, "City"@) + "\",\"state\":\""@ + esc_of(f, "State"@) + "\",\"postalCode\":\""@), esc_of(f, "ZIP"@), p);
        lemma_contains_extend(("{\"type\":4,\"name\":\""@ + esc_of(f, "Name"@) + "\",\"notes\":\""@ + esc_of(f, "Notes"@) + "\",\"identity\":{\"firstName\":\""@ + esc_of(f, "First Name"@) + "\",\"lastName\":\""@ + esc_of(f, "Last Name"@) + "\",\"email\":\""@ + esc_of(f, "Email"@) + "\",\"phone\":\""@ + esc_of(f, "Phone"@) + "\",\"company\":\""@ + esc_of(f, "Company"@) + "\",\"address1\":\""@ + esc_of(f, "Address"@) + "\",\"city\":\""@ + esc_of(f, "City"@) + "\",\"state\":\""@ + esc_of(f, "State"@) + "\",\"postalCode\":\""@ + esc_of(f, "ZIP"@)), "\",\"country\":\""@, p);
        lemma_contains_extend(("{\"type\":4,\"name\":\""@ + esc_of(f, "Name"@) + "\",\"notes\":\""@ + esc_of(f, "Notes"@) + "\",\"identity\":{\"firstName\":\""@ + esc_of(f, "First Name"@) + "\",\"lastName\":\""@ + esc_of(f, "Last Name"@) + "\",\"email\":\""@ + esc_of(f, "Email"@) + "\",\"phone\":\""@ + esc_of(f, "Phone"@) + "\",\"company\":\""@ + esc_of(f, "Company"@) + "\",\"address1\":\""@ + esc_of(f, "Address"@) + "\",\"city\":\""@ + esc_of(f, "City"@) + "\",\"state\":\""@ + esc_of(f, "State"@) + "\",\"postalCode\":\""@ + esc_of(f, "ZIP"@) + "\",\"country\":\""@), esc_of(f, "Country"@), p);
        lemma_contains_extend(("{\"type\":4,\"name\":\""@ + esc_of(f, "Name"@) + "\",\"notes\":\""@ + esc_of(f, "Notes"@) + "\",\"identity\":{\"firstName\":\""@ + esc_of(f, "First Name"@) + "\",\"lastName\":\""@ + esc_of(f, "Last Name"@) + "\",\"email\":\""@ + esc_of(f, "Email"@) + "\",\"phone\":\""@ + esc_of(f, "Phone"@) + "\",\"company\":\""@ + esc_of(f, "Company"@) + "\",\"address1\":\""@ + esc_of(f, "Address"@) + "\",\"city\":\""@ + esc_of(f, "City"@) + "\",\"state\":\""@ + esc_of(f, "State"@) + "\",\"postalCode\":\""@ + esc_of(f, "ZIP"@) + "\",\"country\":\""@ + esc_of(f, "Country"@)), "\"}}"@, p);
    }
    assert(crate::text::contains(new_item_json(CreateItemType::Identity, f), json_member("lastName"@, value_or_empty(f, "Last Name"@)))) by {
        reveal_strlit("\",\"lastName\":\"");
        reveal_strlit("\",");
        reveal_strlit("\",\"email\":\"");
        reveal_strlit(",\"email\":\"");
        reveal_strlit("lastName");
        let p = json_member("lastName"@, value_or_empty(f, "Last Name"@));
        let q = "{\"type\":4,\"name\":\""@ + esc_of(f, "Name"@) + "\",\"notes\":\""@ + esc_of(f, "Notes"@) + "\",\"identity\":{\"firstName\":\""@ + esc_of(f, "First Name"@);
        lemma_member_between(q, "\",\"lastName\":\""@, "\","@, "lastName"@, value_or_empty(f, "Last Name"@), "\",\"email\":\""@, ",\"email\":\""@);
        lemma_contains_extend(("{\"type\":4,\"name\":\""@ + esc_of(f, "Name"@) + "\",\"notes\":\""@ + esc_of(f, "Notes"@) + "\",\"identity\":{\"firstName\":\""@ + esc_of(f, "First Name"@) + "\",\"lastName\":\""@ + esc_of(f, "Last Name"@) + "\",\"email\":\""@), esc_of(f, "Email"@), p);
        lemma_contains_extend(("{\"type\":4,\"name\":\""@ + esc_of(f, "Name"@) + "\",\"notes\":\""@ + esc_of(f, "Notes"@) + "\",\"identity\":{\"firstName\":\""@ + esc_of(f, "First Name"@) + "\",\"lastName\":\""@ + esc_of(f, "Last Name"@) + "\",\"email\":\""@ + esc_of(f, "Email"@)), "\",\"phone\":\""@, p);
        lemma_contains_extend(("{\"type\":4,\"name\":\""@ + esc_of(f, "Name"@) + "\",\"notes\":\""@ + esc_of(f, "Notes"@) + "\",\"identity\":{\"firstName\":\""@ + esc_of(f, "First Name"@) + "\",\"lastName\":\""@ + esc_of(f, "Last Name"@) + "\",\"email\":\""@ + esc_of(f, "Email"@) + "\",\"phone\":\""@), esc_of(f, "Phone"@), p);
        lemma_contains_extend(("{\"type\":4,\"name\":\""@ + esc_of(f, "Name"@) + "\",\"notes\":\""@ + esc_of(f, "Notes"@) + "\",\"identity\":{\"firstName\":\""@ + esc_of(f, "First Name"@) + "\",\"lastName\":\""@ + esc_of(f, "Last Name"@) + "\",\"email\":\""@ + esc_of(f, "Email"@) + "\",\"phone\":\""@ + esc_of(f, "Phone"@)), "\",\"company\":\""@, p);
        lemma_contains_extend(("{\"type\":4,\"name\":\""@ + esc_of(f, "Name"@) + "\",\"notes\":\""@ + esc_of(f, "Notes"@) + "\",\"identity\":{\"firstName\":\""@ + esc_of(f, "First Name"@) + "\",\"lastName\":\""@ + esc_of(f, "Last Name"@) + "\",\"email\":\""@ + esc_of(f, "Email"@) + "\",\"phone\":\""@ + esc_of(f, "Phone"@) + "\",\"company\":\""@), esc_of(f, "Company"@), p);
        lemma_contains_extend(("{\"type\":4,\"name\":\""@ + esc_of(f, "Name"@) + "\",\"notes\":\""@ + esc_of(f, "Notes"@) + "\",\"identity\":{\"firstName\":\""@ + esc_of(f, "First Name"@) + "\",\"lastName\":\""@ + esc_of(f, "Last Name"@) + "\",\"email\":\""@ + esc_of(f, "Email"@) + "\",\"phone\":\""@ + esc_of(f, "Phone"@) + "\",\"company\":\""@ + esc_of(f, "Company"@)), "\",\"address1\":\""@, p);
        lemma_contains_extend(("{\"type\":4,\"name\":\""@ + esc_of(f, "Name"@) + "\",\"notes\":\""@ + esc_of(f, "Notes"@) + "\",\"identity\":{\"firstName\":\""@ + esc_of(f, "First Name"@) + "\",\"lastName\":\""@ + esc_of(f, "Last Name"@) + "\",\"email\":\""@ + esc_of(f, "Email"@) + "\",\"phone\":\""@ + esc_of(f, "Phone"@) + "\",\"company\":\""@ + esc_of(f, "Company"@) + "\",\"address1\":\""@), esc_of(f, "Address"@), p);
        lemma_contains_extend(("{\"type\":4,\"name\":\""@ + esc_of(f, "Name"@) + "\",\"notes\":\""@ + esc_of(f, "Notes"@) + "\",\"identity\":{\"firstName\":\""@ + esc_of(f, "First Name"@) + "\",\"lastName\":\""@ + esc_of(f, "Last Name"@) + "\",\"email\":\""@ + esc_of(f, "Email"@) + "\",\"phone\":\""@ + esc_of(f, "Phone"@) + "\",\"company\":\""@ + esc_of(f, "Company"@) + "\",\"address1\":\""@ + esc_of(f, "Address"@)), "\",\"city\":\""@, p);
        lemma_contains_extend(("{\"type\":4,\"name\":\""@ + esc_of(f, "Name"@) + "\",\"notes\":\""@ + esc_of(f, "Notes"@) + "\",\"identity\":{\"firstName\":\""@ + esc_of(f, "First Name"@) + "\",\"lastName\":\""@ + esc_of(f, "Last Name"@) + "\",\"email\":\""@ + esc_of(f, "Email"@) + "\",\"phone\":\""@ + esc_of(f, "Phone"@) + "\",\"company\":\""@ + esc_of(f, "Company"@) + "\",\"address1\":\""@ + esc_of(f, "Address"@) + "\",\"city\":\""@), esc_of(f, "City"@), p);
        lemma_contains_extend(("{\"type\":4,\"name\":\""@ + esc_of(f, "Name"@) + "\",\"notes\":\""@ + esc_of(f, "Notes"@) + "\",\"identity\":{\"firstName\":\""@ + esc_of(f, "First Name"@) + "\",\"lastName\":\""@ + esc_of(f, "Last Name"@) + "\",\"email\":\""@ + esc_of(f, "Email"@) + "\",\"phone\":\""@ + esc_of(f, "Phone"@) + "\",\"company\":\""@ + esc_of(f, "Company"@) + "\",\"address1\":\""@ + esc_of(f, "Address"@) + "\",\"city\":\""@ + esc_of(f, "City"@)), "\",\"state\":\""@, p);
        lemma_contains_extend(("{\"type\":4,\"name\":\""@ + esc_of(f, "Name"@) + "\",\"notes\":\""@ + esc_of(f, "Notes"@) + "\",\"identity\":{\"firstName\":\""@ + esc_of(f, "First Name"@) + "\",\"lastName\":\""@ + esc_of(f, "Last Name"@) + "\",\"email\":\""@ + esc_of(f, "Email"@) + "\",\"phone\":\""@ + esc_of(f, "Phone"@) + "\",\"company\":\""@ + esc_of(f, "Company"@) + "\",\"address1\":\""@ + esc_of(f, "Address"@) + "\",\"city\":\""@ + esc_of(f, "City"@) + "\",\"state\":\""@), esc_of(f, "State"@), p);
        lemma_contains_extend(("{\"type\":4,\"name\":\""@ + esc_of(f, "Name"@) + "\",\"notes\":\""@ + esc_of(f, "Notes"@) + "\",\"identity\":{\"firstName\":\""@ + esc_of(f, "First Name"@) + "\",\"lastName\":\""@ + esc_of(f, "Last Name"@) + "\",\"email\":\""@ + esc_of(f, "Email"@) + "\",\"phone\":\""@ + esc_of(f, "Phone"@) + "\",\"company\":\""@ + esc_of(f, "Company"@) + "\",\"address1\":\""@ + esc_of(f, "Address"@) + "\",\"city\":\""@ + esc_of(f, "City"@) + "\",\"state\":\""@ + esc_of(f, "State"@)), "\",\"postalCode\":\""@, p);
        lemma_contains_extend(("{\"type\":4,\"name\":\""@ + esc_of(f, "Name"@) + "\",\"notes\":\""@ + esc_of(f, "Notes"@) + "\",\"identity\":{\"firstName\":\""@ + esc_of(f, "First Name"@) + "\",\"lastName\":\""@ + esc_of(f, "Last Name"@) + "\",\"email\":\""@ + esc_of(f, "Email"@) + "\",\"phone\":\""@ + esc_of(f, "Phone"@) + "\",\"company\":\""@ + esc_of(f, "Company"@) + "\",\"address1\":\""@ + esc_of(f, "Address"@) + "\",\"city\":\""@ + esc_of(f, "City"@) + "\",\"state\":\""@ + esc_of(f, "State"@) + "\",\"postalCode\":\""@), esc_of(f, "ZIP"@), p);
        lemma_contains_extend(("{\"type\":4,\"name\":\""@ + esc_of(f, "Name"@) + "\",\"notes\":\""@ + esc_of(f, "Notes"@) + "\",\"identity\":{\"firstName\":\""@ + esc_of(f, "First Name"@) + "\",\"lastName\":\""@ + esc_of(f, "Last Name"@) + "\",\"email\":\""@ + esc_of(f, "Email"@) + "\",\"phone\":\""@ + esc_of(f, "Phone"@) + "\",\"company\":\""@ + esc_of(f, "Company"@) + "\",\"address1\":\""@ + esc_of(f, "Address"@) + "\",\"city\":\""@ + esc_of(f, "City"@) + "\",\"state\":\""@ + esc_of(f, "State"@) + "\",\"postalCode\":\""@ + esc_of(f, "ZIP"@)), "\",\"country\":\""@, p);
        lemma_contains_extend(("{\"type\":4,\"name\":\""@ + esc_of(f, "Name"@) + "\",\"notes\":\""@ + esc_of(f, "Notes"@) + "\",\"identity\":{\"firstName\":\""@ + esc_of(f, "First Name"@) + "\",\"lastName\":\""@ + esc_of(f, "Last Name"@) + "\",\"email\":\""@ + esc_of(f, "Email"@) + "\",\"phone\":\""@ + esc_of(f, "Phone"@) + "\",\"company\":\""@ + esc_of(f, "Company"@) + "\",\"address1\":\""@ + esc_of(f, "Address"@) + "\",\"city\":\""@ + esc_of(f, "City"@) + "\",\"state\":\""@ + esc_of(f, "State"@) + "\",\"postalCode\":\""@ + esc_of(f, "ZIP"@) + "\",\"country\":\""@), esc_of(f, "Country"@), p);
        lemma_contains_extend(("{\"type\":4,\"name\":\""@ + esc_of(f, "Name"@) + "\",\"notes\":\""@ + esc_of(f, "Notes"@) + "\",\"identity\":{\"firstName\":\""@ + esc_of(f, "First Name"@) + "\",\"lastName\":\""@ + esc_of(f, "Last Name"@) + "\",\"email\":\""@ + esc_of(f, "Email"@) + "\",\"phone\":\""@ + esc_of(f, "Phone"@) + "\",\"company\":\""@ + esc_of(f, "Company"@) + "\",\"address1\":\""@ + esc_of(f, "Address"@) + "\",\"city\":\""@ + esc_of(f, "City"@) + "\",\"state\":\""@ + esc_of(f, "State"@) + "\",\"postalCode\":\""@ + esc_of(f, "ZIP"@) + "\",\"country\":\""@ + esc_of(f, "Country"@)), "\"}}"@, p);
    }
    assert(crate::text::contains(new_item_json(CreateItemType::Identity, f), json_member("email"@, value_or_empty(f, "Email"@)))) by {
        reveal_strlit("\",\"email\":\"");
        reveal_strlit("\",");
        reveal_strlit("\",\"phone\":\"");
        reveal_strlit(",\"phone\":\"");
        reveal_strlit("email");
        let p = json_member("email"@, value_or_empty(f, "Email"@));
        let q = "{\"type\":4,\"name\":\""@ + esc_of(f, "Name"@) + "\",\"notes\":\""@ + esc_of(f, "Notes"@) + "\",\"identity\":{\"firstName\":\""@ + esc_of(f, "First Name"@) + "\",\"lastName\":\""@ + esc_of(f, "Last Name"@);
        lemma_member_between(q, "\",\"email\":\""@, "\","@, "email"@, value_or_empty(f, "Email"@), "\",\"phone\":\""@, ",\"phone\":\""@);
        lemma_contains_extend(("{\"type\":4,\"name\":\""@ + esc_of(f, "Name"@) + "\",\"notes\":\""@ + esc_of(f, "Notes"@) + "\",\"identity\":{\"firstName\":\""@ + esc_of(f, "First Name"@) + "\",\"lastName\":\""@ + esc_of(f, "Last Name"@) + "\",\"email\":\""@ + esc_of(f, "Email"@) + "\",\"phone\":\""@), esc_of(f, "Phone"@), p);
        lemma_contains_extend(("{\"type\":4,\"name\":\""@ + esc_of(f, "Name"@) + "\",\"notes\":\""@ + esc_of(f, "Notes"@) + "\",\"identity\":{\"firstName\":\""@ + esc_of(f, "First Name"@) + "\",\"lastName\":\""@ + esc_of(f, "Last Name"@) + "\",\"email\":\""@ + esc_of(f, "Email"@) + "\",\"phone\":\""@ + esc_of(f, "Phone"@)), "\",\"company\":\""@, p);
        lemma_contains_extend(("{\"type\":4,\"name\":\""@ + esc_of(f, "Name"@) + "\",\"notes\":\""@ + esc_of(f, "Notes"@) + "\",\"identity\":{\"firstName\":\""@ + esc_of(f, "First Name"@) + "\",\"lastName\":\""@ + esc_of(f, "Last Name"@) + "\",\"email\":\""@ + esc_of(f, "Email"@) + "\",\"phone\":\""@ + esc_of(f, "Phone"@) + "\",\"company\":\""@), esc_of(f, "Company"@), p);
        lemma_contains_extend(("{\"type\":4,\"name\":\""@ + esc_of(f, "Name"@) + "\",\"notes\":\""@ + esc_of(f, "Notes"@) + "\",\"identity\":{\"firstName\":\""@ + esc_of(f, "First Name"@) + "\",\"lastName\":\""@ + esc_of(f, "Last Name"@) + "\",\"email\":\""@ + esc_of(f, "Email"@) + "\",\"phone\":\""@ + esc_of(f, "Phone"@) + "\",\"company\":\""@ + esc_of(f, "Company"@)), "\",\"address1\":\""@, p);
        lemma_contains_extend(("{\"type\":4,\"name\":\""@ + esc_of(f, "Name"@) + "\",\"notes\":\""@ + esc_of(f, "Notes"@) + "\",\"identity\":{\"firstName\":\""@ + esc_of(f, "First Name"@) + "\",\"lastName\":\""@ + esc_of(f, "Last Name"@) + "\",\"email\":\""@ + esc_of(f, "Email"@) + "\",\"phone\":\""@ + esc_of(f, "Phone"@) + "\",\"company\":\""@ + esc_of(f, "Company"@) + "\",\"address1\":\""@), esc_of(f, "Address"@), p);
        lemma_contains_extend(("{\"type\":4,\"name\":\""@ + esc_of(f, "Name"@) + "\",\"notes\":\""@ + esc_of(f, "Notes"@) + "\",\"identity\":{\"firstName\":\""@ + esc_of(f, "First Name"@) + "\",\"lastName\":\""@ + esc_of(f, "Last Name"@) + "\",\"email\":\""@ + esc_of(f, "Email"@) + "\",\"phone\":\""@ + esc_of(f, "Phone"@) + "\",\"company\":\""@ + esc_of(f, "Company"@) + "\",\"address1\":\""@ + esc_of(f, "Address"@)), "\",\"city\":\""@, p);
        lemma_contains_extend(("{\"type\":4,\"name\":\""@ + esc_of(f, "Name"@) + "\",\"notes\":\""@ + esc_of(f, "Notes"@) + "\",\"identity\":{\"firstName\":\""@ + esc_of(f, "First Name"@) + "\",\"lastName\":\""@ + esc_of(f, "Last Name"@) + "\",\"email\":\""@ + esc_of(f, "Email"@) + "\",\"phone\":\""@ + esc_of(f, "Phone"@) + "\",\"company\":\""@ + esc_of(f, "Company"@) + "\",\"address1\":\""@ + esc_of(f, "Address"@) + "\",\"city\":\""@), esc_of(f, "City"@), p);
        lemma_contains_extend(("{\"type\":4,\"name\":\""@ + esc_of(f, "Name"@) + "\",\"notes\":\""@ + esc_of(f, "Notes"@) + "\",\"identity\":{\"firstName\":\""@ + esc_of(f, "First Name"@) + "\",\"lastName\":\""@ + esc_of(f, "Last Name"@) + "\",\"email\":\""@ + esc_of(f, "Email"@) + "\",\"phone\":\""@ + esc_of(f, "Phone"@) + "\",\"company\":\""@ + esc_of(f, "Company"@) + "\",\"address1\":\""@ + esc_of(f, "Address"@) + "\",\"city\":\""@ + esc_of(f, "City"@)), "\",\"state\":\""@, p);
        lemma_contains_extend(("{\"type\":4,\"name\":\""@ + esc_of(f, "Name"@) + "\",\"notes\":\""@ + esc_of(f, "Notes"@) + "\",\"identity\":{\"firstName\":\""@ + esc_of(f, "First Name"@) + "\",\"lastName\":\""@ + esc_of(f, "Last Name"@) + "\",\"email\":\""@ + esc_of(f, "Email"@) + "\",\"phone\":\""@ + esc_of(f, "Phone"@) + "\",\"company\":\""@ + esc_of(f, "Company"@) + "\",\"address1\":\""@ + esc_of(f, "Address"@) + "\",\"city\":\""@ + esc_of(f, "City"@) + "\",\"state\":\""@), esc_of(f, "State"@), p);
        lemma_contains_extend(("{\"type\":4,\"name\":\""@ + esc_of(f, "Name"@) + "\",\"notes\":\""@ + esc_of(f, "Notes"@) + "\",\"identity\":{\"firstName\":\""@ + esc_of(f, "First Name"@) + "\",\"lastName\":\""@ + esc_of(f, "Last Name"@) + "\",\"email\":\""@ + esc_of(f, "Email"@) + "\",\"phone\":\""@ + esc_of(f, "Phone"@) + "\",\"company\":\""@ + esc_of(f, "Company"@) + "\",\"address1\":\""@ + esc_of(f, "Address"@) + "\",\"city\":\""@ + esc_of(f, "City"@) + "\",\"state\":\""@ + esc_of(f, "State"@)), "\",\"postalCode\":\""@, p);
        lemma_contains_extend(("{\"type\":4,\"name\":\""@ + esc_of(f, "Name"@) + "\",\"notes\":\""@ + esc_of(f, "Notes"@) + "\",\"identity\":{\"firstName\":\""@ + esc_of(f, "First Name"@) + "\",\"lastName\":\""@ + esc_of(f, "Last Name"@) + "\",\"email\":\""@ + esc_of(f, "Email"@) + "\",\"phone\":\""@ + esc_of(f, "Phone"@) + "\",\"company\":\""@ + esc_of(f, "Company"@) + "\",\"address1\":\""@ + esc_of(f, "Address"@) + "\",\"city\":\""@ + esc_of(f, "City"@) + "\",\"state\":\""@ + esc_of(f, "State"@) + "\",\"postalCode\":\""@), esc_of(f, "ZIP"@), p);
        lemma_contains_extend(("{\"type\":4,\"name\":\""@ + esc_of(f, "Name"@) + "\",\"notes\":\""@ + esc_of(f, "Notes"@) + "\",\"identity\":{\"firstName\":\""@ + esc_of(f, "First Name"@) + "\",\"lastName\":\""@ + esc_of(f, "Last Name"@) + "\",\"email\":\""@ + esc_of(f, "Email"@) + "\",\"phone\":\""@ + esc_of(f, "Phone"@) + "\",\"company\":\""@ + esc_of(f, "Company"@) + "\",\"address1\":\""@ + esc_of(f, "Address"@) + "\",\"city\":\""@ + esc_of(f, "City"@) + "\",\"state\":\""@ + esc_of(f, "State"@) + "\",\"postalCode\":\""@ + esc_of(f, "ZIP"@)), "\",\"country\":\""@, p);
        lemma_contains_extend(("{\"type\":4,\"name\":\""@ + esc_of(f, "Name"@) + "\",\"notes\":\""@ + esc_of(f, "Notes"@) + "\",\"identity\":{\"firstName\":\""@ + esc_of(f, "First Name"@) + "\",\"lastName\":\""@ + esc_of(f, "Last Name"@) + "\",\"email\":\""@ + esc_of(f, "Email"@) + "\",\"phone\":\""@ + esc_of(f, "Phone"@) + "\",\"company\":\""@ + esc_of(f, "Company"@) + "\",\"address1\":\""@ + esc_of(f, "Address"@) + "\",\"city\":\""@ + esc_of(f, "City"@) + "\",\"state\":\""@ + esc_of(f, "State"@) + "\",\"postalCode\":\""@ + esc_of(f, "ZIP"@) + "\",\"country\":\""@), esc_of(f, "Country"@), p);
        lemma_contains_extend(("{\"type\":4,\"name\":\""@ + esc_of(f, "Name"@) + "\",\"notes\":\""@ + esc_of(f, "Notes"@) + "\",\"identity\":{\"firstName\":\""@ + esc_of(f, "First Name"@) + "\",\"lastName\":\""@ + esc_of(f, "Last Name"@) + "\",\"email\":\""@ + esc_of(f, "Email"@) + "\",\"phone\":\""@ + esc_of(f, "Phone"@) + "\",\"company\":\""@ + esc_of(f, "Company"@) + "\",\"address1\":\""@ + esc_of(f, "Address"@) + "\",\"city\":\""@ + esc_of(f, "City"@) + "\",\"state\":\""@ + esc_of(f, "State"@) + "\",\"postalCode\":\""@ + esc_of(f, "ZIP"@) + "\",\"country\":\""@ + esc_of(f, "Country"@)), "\"}}"@, p);
    }
    assert(crate::text::contains(new_item_json(CreateItemType::Identity, f), json_member("phone"@, value_or_empty(f, "Phone"@)))) by {
        reveal_strlit("\",\"phone\":\"");
        reveal_strlit("\",");
        reveal_strlit("\",\"company\":\"");
        reveal_strlit(",\"company\":\"");
        reveal_strlit("phone");
        let p = json_member("phone"@, value_or_empty(f, "Phone"@));
        let q = "{\"type\":4,\"name\":\""@ + esc_of(f, "Name"@) + "\",\"notes\":\""@ + esc_of(f, "Notes"@) + "\",\"identity\":{\"firstName\":\""@ + esc_of(f, "First Name"@) + "\",\"lastName\":\""@ + esc_of(f, "Last Name"@) + "\",\"email\":\""@ + esc_of(f, "Email"@);
        lemma_member_between(q, "\",\"phone\":\""@, "\","@, "phone"@, value_or_empty(f, "Phone"@), "\",\"company\":\""@, ",\"company\":\""@);
        lemma_contains_extend(("{\"type\":4,\"name\":\""@ + esc_of(f, "Name"@) + "\",\"notes\":\""@ + esc_of(f, "Notes"@) + "\",\"identity\":{\"firstName\":\""@ + esc_of(f, "First Name"@) + "\",\"lastName\":\""@ + esc_of(f, "Last Name"@) + "\",\"email\":\""@ + esc_of(f, "Email"@) + "\",\"phone\":\""@ + esc_of(f, "Phone"@) + "\",\"company\":\""@), esc_of(f, "Company"@), p);
        lemma_contains_extend(("{\"type\":4,\"name\":\""@ + esc_of(f, "Name"@) + "\",\"notes\":\""@ + esc_of(f, "Notes"@) + "\",\"identity\":{\"firstName\":\""@ + esc_of(f, "First Name"@) + "\",\"lastName\":\""@ + esc_of(f, "Last Name"@) + "\",\"email\":\""@ + esc_of(f, "Email"@) + "\",\"phone\":\""@ + esc_of(f, "Phone"@) + "\",\"company\":\""@ + esc_of(f, "Company"@)), "\",\"address1\":\""@, p);
        lemma_contains_extend(("{\"type\":4,\"name\":\""@ + esc_of(f, "Name"@) + "\",\"notes\":\""@ + esc_of(f, "Notes"@) + "\",\"identity\":{\"firstName\":\""@ + esc_of(f, "First Name"@) + "\",\"lastName\":\""@ + esc_of(f, "Last Name"@) + "\",\"email\":\""@ + esc_of(f, "Email"@) + "\",\"phone\":\""@ + esc_of(f, "Phone"@) + "\",\"company\":\""@ + esc_of(f, "Company"@) + "\",\"address1\":\""@), esc_of(f, "Address"@), p);
        lemma_contains_extend(("{\"type\":4,\"name\":\""@ + esc_of(f, "Name"@) + "\",\"notes\":\""@ + esc_of(f, "Notes"@) + "\",\"identity\":{\"firstName\":\""@ + esc_of(f, "First Name"@) + "\",\"lastName\":\""@ + esc_of(f, "Last Name"@) + "\",\"email\":\""@ + esc_of(f, "Email"@) + "\",\"phone\":\""@ + esc_of(f, "Phone"@) + "\",\"company\":\""@ + esc_of(f, "Company"@) + "\",\"address1\":\""@ + esc_of(f, "Address"@)), "\",\"city\":\""@, p);
        lemma_contains_extend(("{\"type\":4,\"name\":\""@ + esc_of(f, "Name"@) + "\",\"notes\":\""@ + esc_of(f, "Notes"@) + "\",\"identity\":{\"firstName\":\""@ + esc_of(f, "First Name"@) + "\",\"lastName\":\""@ + esc_of(f, "Last Name"@) + "\",\"email\":\""@ + esc_of(f, "Email"@) + "\",\"phone\":\""@ + esc_of(f, "Phone"@) + "\",\"company\":\""@ + esc_of(f, "Company"@) + "\",\"address1\":\""@ + esc_of(f, "Address"@) + "\",\"city\":\""@), esc_of(f, "City"@), p);
        lemma_contains_extend(("{\"type\":4,\"name\":\""@ + esc_of(f, "Name"@) + "\",\"notes\":\""@ + esc_of(f, "Notes"@) + "\",\"identity\":{\"firstName\":\""@ + esc_of(f, "First Name"@) + "\",\"lastName\":\""@ + esc_of(f, "Last Name"@) + "\",\"email\":\""@ + esc_of(f, "Email"@) + "\",\"phone\":\""@ + esc_of(f, "Phone"@) + "\",\"company\":\""@ + esc_of(f, "Company"@) + "\",\"address1\":\""@ + esc_of(f, "Address"@) + "\",\"city\":\""@ + esc_of(f, "City"@)), "\",\"state\":\""@, p);
        lemma_contains_extend(("{\"type\":4,\"name\":\""@ + esc_of(f, "Name"@) + "\",\"notes\":\""@ + esc_of(f, "Notes"@) + "\",\"identity\":{\"firstName\":\""@ + esc_of(f, "First Name"@) + "\",\"lastName\":\""@ + esc_of(f, "Last Name"@) + "\",\"email\":\""@ + esc_of(f, "Email"@) + "\",\"phone\":\""@ + esc_of(f, "Phone"@) + "\",\"company\":\""@ + esc_of(f, "Company"@) + "\",\"address1\":\""@ + esc_of(f, "Address"@) + "\",\"city\":\""@ + esc_of(f, "City"@) + "\",\"state\":\""@), esc_of(f, "State"@), p);
        lemma_contains_extend(("{\"type\":4,\"name\":\""@ + esc_of(f, "Name"@) + "\",\"notes\":\""@ + esc_of(f, "Notes"@) + "\",\"identity\":{\"firstName\":\""@ + esc_of(f, "First Name"@) + "\",\"lastName\":\""@ + esc_of(f, "Last Name"@) + "\",\"email\":\""@ + esc_of(f, "Email"@) + "\",\"phone\":\""@ + esc_of(f, "Phone"@) + "\",\"company\":\""@ + esc_of(f, "Company"@) + "\",\"address1\":\""@ + esc_of(f, "Address"@) + "\",\"city\":\""@ + esc_of(f, "City"@) + "\",\"state\":\""@ + esc_of(f, "State"@)), "\",\"postalCode\":\""@, p);
        lemma_contains_extend(("{\"type\":4,\"name\":\""@ + esc_of(f, "Name"@) + "\",\"notes\":\""@ + esc_of(f, "Notes"@) + "\",\"identity\":{\"firstName\":\""@ + esc_of(f, "First Name"@) + "\",\"lastName\":\""@ + esc_of(f, "Last Name"@) + "\",\"email\":\""@ + esc_of(f, "Email"@) + "\",\"phone\":\""@ + esc_of(f, "Phone"@) + "\",\"company\":\""@ + esc_of(f, "Company"@) + "\",\"address1\":\""@ + esc_of(f, "Address"@) + "\",\"city\":\""@ + esc_of(f, "City"@) + "\",\"state\":\""@ + esc_of(f, "State"@) + "\",\"postalCode\":\""@), esc_of(f, "ZIP"@), p);
        lemma_contains_extend(("{\"type\":4,\"name\":\""@ + esc_of(f, "Name"@) + "\",\"notes\":\""@ + esc_of(f, "Notes"@) + "\",\"identity\":{\"firstName\":\""@ + esc_of(f, "First Name"@) + "\",\"lastName\":\""@ + esc_of(f, "Last Name"@) + "\",\"email\":\""@ + esc_of(f, "Email"@) + "\",\"phone\":\""@ + esc_of(f, "Phone"@) + "\",\"company\":\""@ + esc_of(f, "Company"@) + "\",\"address1\":\""@ + esc_of(f, "Address"@) + "\",\"city\":\""@ + esc_of(f, "City"@) + "\",\"state\":\""@ + esc_of(f, "State"@) + "\",\"postalCode\":\""@ + esc_of(f, "ZIP"@)), "\",\"country\":\""@, p);
        lemma_contains_extend(("{\"type\":4,\"name\":\""@ + esc_of(f, "Name"@) + "\",\"notes\":\""@ + esc_of(f, "Notes"@) + "\",\"identity\":{\"firstName\":\""@ + esc_of(f, "First Name"@) + "\",\"lastName\":\""@ + esc_of(f, "Last Name"@) + "\",\"email\":\""@ + esc_of(f, "Email"@) + "\",\"phone\":\""@ + esc_of(f, "Phone"@) + "\",\"company\":\""@ + esc_of(f, "Company"@) + "\",\"address1\":\""@ + esc_of(f, "Address"@) + "\",\"city\":\""@ + esc_of(f, "City"@) + "\",\"state\":\""@ + esc_of(f, "State"@) + "\",\"postalCode\":\""@ + esc_of(f, "ZIP"@) + "\",\"country\":\""@), esc_of(f, "Country"@), p);
        lemma_contains_extend(("{\"type\":4,\"name\":\""@ + esc_of(f, "Name"@) + "\",\"notes\":\""@ + esc_of(f, "Notes"@) + "\",\"identity\":{\"firstName\":\""@ + esc_of(f, "First Name"@) + "\",\"lastName\":\""@ + esc_of(f, "Last Name"@) + "\",\"email\":\""@ + esc_of(f, "Email"@) + "\",\"phone\":\""@ + esc_of(f, "Phone"@) + "\",\"company\":\""@ + esc_of(f, "Company"@) + "\",\"address1\":\""@ + esc_of(f, "Address"@) + "\",\"city\":\""@ + esc_of(f, "City"@) + "\",\"state\":\""@ + esc_of(f, "State"@) + "\",\"postalCode\":\""@ + esc_of(f, "ZIP"@) + "\",\"country\":\""@ + esc_of(f, "Country"@)), "\"}}"@, p);
    }
    assert(crate::text::contains(new_item_json(CreateItemType::Identity, f), json_member("company"@, value_or_empty(f, "Company"@)))) by {
        reveal_strlit("\",\"company\":\"");
        reveal_strlit("\",");
        reveal_strlit("\",\"address1\":\"");
        reveal_strlit(",\"address1\":\"");
        reveal_strlit("company");
        let p = json_member("company"@, value_or_empty(f, "Company"@));
        let q = "{\"type\":4,\"name\":\""@ + esc_of(f, "Name"@) + "\",\"notes\":\""@ + esc_of(f, "Notes"@) + "\",\"identity\":{\"firstName\":\""@ + esc_of(f, "First Name"@) + "\",\"lastName\":\""@ + esc_of(f, "Last Name"@) + "\",\"email\":\""@ + esc_of(f, "Email"@) + "\",\"phone\":\""@ + esc_of(f, "Phone"@);
        lemma_member_between(q, "\",\"company\":\""@, "\","@, "company"@, value_or_empty(f, "Company"@), "\",\"address1\":\""@, ",\"address1\":\""@);
        lemma_contains_extend(("{\"type\":4,\"name\":\""@ + esc_of(f, "Name"@) + "\",\"notes\":\""@ + esc_of(f, "Notes"@) + "\",\"identity\":{\"firstName\":\""@ + esc_of(f, "First Name"@) + "\",\"lastName\":\""@ + esc_of(f, "Last Name"@) + "\",\"email\":\""@ + esc_of(f, "Email"@) + "\",\"phone\":\""@ + esc_of(f, "Phone"@) + "\",\"company\":\""@ + esc_of(f, "Company"@) + "\",\"address1\":\""@), esc_of(f, "Address"@), p);
        lemma_contains_extend(("{\"type\":4,\"name\":\""@ + esc_of(f, "Name"@) + "\",\"notes\":\""@ + esc_of(f, "Notes"@) + "\",\"identity\":{\"firstName\":\""@ + esc_of(f, "First Name"@) + "\",\"lastName\":\""@ + esc_of(f, "Last Name"@) + "\",\"email\":\""@ + esc_of(f, "Email"@) + "\",\"phone\":\""@ + esc_of(f, "Phone"@) + "\",\"company\":\""@ + esc_of(f, "Company"@) + "\",\"address1\":\""@ + esc_of(f, "Address"@)), "\",\"city\":\""@, p);
        lemma_contains_extend(("{\"type\":4,\"name\":\""@ + esc_of(f, "Name"@) + "\",\"notes\":\""@ + esc_of(f, "Notes"@) + "\",\"identity\":{\"firstName\":\""@ + esc_of(f, "First Name"@) + "\",\"lastName\":\""@ + esc_of(f, "Last Name"@) + "\",\"email\":\""@ + esc_of(f, "Email"@) + "\",\"phone\":\""@ + esc_of(f, "Phone"@) + "\",\"company\":\""@ + esc_of(f, "Company"@) + "\",\"address1\":\""@ + esc_of(f, "Address"@) + "\",\"city\":\""@), esc_of(f, "City"@), p);
        lemma_contains_extend(("{\"type\":4,\"name\":\""@ + esc_of(f, "Name"@) + "\",\"notes\":\""@ + esc_of(f, "Notes"@) + "\",\"identity\":{\"firstName\":\""@ + esc_of(f, "First Name"@) + "\",\"lastName\":\""@ + esc_of(f, "Last Name"@) + "\",\"email\":\""@ + esc_of(f, "Email"@) + "\",\"phone\":\""@ + esc_of(f, "Phone"@) + "\",\"company\":\""@ + esc_of(f, "Company"@) + "\",\"address1\":\""@ + esc_of(f, "Address"@) + "\",\"city\":\""@ + esc_of(f, "City"@)), "\",\"state\":\""@, p);
        lemma_contains_extend(("{\"type\":4,\"name\":\""@ + esc_of(f, "Name"@) + "\",\"notes\":\""@ + esc_of(f, "Notes"@) + "\",\"identity\":{\"firstName\":\""@ + esc_of(f, "First Name"@) + "\",\"lastName\":\""@ + esc_of(f, "Last Name"@) + "\",\"email\":\""@ + esc_of(f, "Email"@) + "\",\"phone\":\""@ + esc_of(f, "Phone"@) + "\",\"company\":\""@ + esc_of(f, "Company"@) + "\",\"address1\":\""@ + esc_of(f, "Address"@) + "\",\"city\":\""@ + esc_of(f, "City"@) + "\",\"state\":\""@), esc_of(f, "State"@), p);
        lemma_contains_extend(("{\"type\":4,\"name\":\""@ + esc_of(f, "Name"@) + "\",\"notes\":\""@ + esc_of(f, "Notes"@) + "\",\"identity\":{\"firstName\":\""@ + esc_of(f, "First Name"@) + "\",\"lastName\":\""@ + esc_of(f, "Last Name"@) + "\",\"email\":\""@ + esc_of(f, "Email"@) + "\",\"phone\":\""@ + esc_of(f, "Phone"@) + "\",\"company\":\""@ + esc_of(f, "Company"@) + "\",\"address1\":\""@ + esc_of(f, "Address"@) + "\",\"city\":\""@ + esc_of(f, "City"@) + "\",\"state\":\""@ + esc_of(f, "State"@)), "\",\"postalCode\":\""@, p);
        lemma_contains_extend(("{\"type\":4,\"name\":\""@ + esc_of(f, "Name"@) + "\",\"notes\":\""@ + esc_of(f, "Notes"@) + "\",\"identity\":{\"firstName\":\""@ + esc_of(f, "First Name"@) + "\",\"lastName\":\""@ + esc_of(f, "Last Name"@) + "\",\"email\":\""@ + esc_of(f, "Email"@) + "\",\"phone\":\""@ + esc_of(f, "Phone"@) + "\",\"company\":\""@ + esc_of(f, "Company"@) + "\",\"address1\":\""@ + esc_of(f, "Address"@) + "\",\"city\":\""@ + esc_of(f, "City"@) + "\",\"state\":\""@ + esc_of(f, "State"@) + "\",\"postalCode\":\""@), esc_of(f, "ZIP"@), p);
        lemma_contains_extend(("{\"type\":4,\"name\":\""@ + esc_of(f, "Name"@) + "\",\"notes\":\""@ + esc_of(f, "Notes"@) + "\",\"identity\":{\"firstName\":\""@ + esc_of(f, "First Name"@) + "\",\"lastName\":\""@ + esc_of(f, "Last Name"@) + "\",\"email\":\""@ + esc_of(f, "Email"@) + "\",\"phone\":\""@ + esc_of(f, "Phone"@) + "\",\"company\":\""@ + esc_of(f, "Company"@) + "\",\"address1\":\""@ + esc_of(f, "Address"@) + "\",\"city\":\""@ + esc_of(f, "City"@) + "\",\"state\":\""@ + esc_of(f, "State"@) + "\",\"postalCode\":\""@ + esc_of(f, "ZIP"@)), "\",\"country\":\""@, p);
        lemma_contains_extend(("{\"type\":4,\"name\":\""@ + esc_of(f, "Name"@) + "\",\"notes\":\""@ + esc_of(f, "Notes"@) + "\",\"identity\":{\"firstName\":\""@ + esc_of(f, "First Name"@) + "\",\"lastName\":\""@ + esc_of(f, "Last Name"@) + "\",\"email\":\""@ + esc_of(f, "Email"@) + "\",\"phone\":\""@ + esc_of(f, "Phone"@) + "\",\"company\":\""@ + esc_of(f, "Company"@) + "\",\"address1\":\""@ + esc_of(f, "Address"@) + "\",\"city\":\""@ + esc_of(f, "City"@) + "\",\"state\":\""@ + esc_of(f, "State"@) + "\",\"postalCode\":\""@ + esc_of(f, "ZIP"@) + "\",\"country\":\""@), esc_of(f, "Country"@), p);
        lemma_contains_extend(("{\"type\":4,\"name\":\""@ + esc_of(f, "Name"@) + "\",\"notes\":\""@ + esc_of(f, "Notes"@) + "\",\"identity\":{\"firstName\":\""@ + esc_of(f, "First Name"@) + "\",\"lastName\":\""@ + esc_of(f, "Last Name"@) + "\",\"email\":\""@ + esc_of(f, "Email"@) + "\",\"phone\":\""@ + esc_of(f, "Phone"@) + "\",\"company\":\""@ + esc_of(f, "Company"@) + "\",\"address1\":\""@ + esc_of(f, "Address"@) + "\",\"city\":\""@ + esc_of(f, "City"@) + "\",\"state\":\""@ + esc_of(f, "State"@) + "\",\"postalCode\":\""@ + esc_of(f, "ZIP"@) + "\",\"country\":\""@ + esc_of(f, "Country"@)), "\"}}"@, p);
    }
    assert(crate::text::contains(new_item_json(CreateItemType::Identity, f), json_member("address1"@, value_or_empty(f, "Address"@)))) by {
        reveal_strlit("\",\"address1\":\"");
        reveal_strlit("\",");
        reveal_strlit("\",\"city\":\"");
        reveal_strlit(",\"city\":\"");
        reveal_strlit("address1");
        let p = json_member("address1"@, value_or_empty(f, "Address"@));
        let q = "{\"type\":4,\"name\":\""@ + esc_of(f, "Name"@) + "\",\"notes\":\""@ + esc_of(f, "Notes"@) + "\",\"identity\":{\"firstName\":\""@ + esc_of(f, "First Name"@) + "\",\"lastName\":\""@ + esc_of(f, "Last Name"@) + "\",\"email\":\""@ + esc_of(f, "Email"@) + "\",\"phone\":\""@ + esc_of(f, "Phone"@) + "\",\"company\":\""@ + esc_of(f, "Company"@);
        lemma_member_between(q, "\",\"address1\":\""@, "\","@, "address1"@, value_or_empty(f, "Address"@), "\",\"city\":\""@, ",\"city\":\""@);
        lemma_contains_extend(("{\"type\":4,\"name\":\""@ + esc_of(f, "Name"@) + "\",\"notes\":\""@ + esc_of(f, "Notes"@) + "\",\"identity\":{\"firstName\":\""@ + esc_of(f, "First Name"@) + "\",\"lastName\":\""@ + esc_of(f, "Last Name"@) + "\",\"email\":\""@ + esc_of(f, "Email"@) + "\",\"phone\":\""@ + esc_of(f, "Phone"@) + "\",\"company\":\""@ + esc_of(f, "Company"@) + "\",\"address1\":\""@ + esc_of(f, "Address"@) + "\",\"city\":\""@), esc_of(f, "City"@), p);
        lemma_contains_extend(("{\"type\":4,\"name\":\""@ + esc_of(f, "Name"@) + "\",\"notes\":\""@ + esc_of(f, "Notes"@) + "\",\"identity\":{\"firstName\":\""@ + esc_of(f, "First Name"@) + "\",\"lastName\":\""@ + esc_of(f, "Last Name"@) + "\",\"email\":\""@ + esc_of(f, "Email"@) + "\",\"phone\":\""@ + esc_of(f, "Phone"@) + "\",\"company\":\""@ + esc_of(f, "Company"@) + "\",\"address1\":\""@ + esc_of(f, "Address"@) + "\",\"city\":\""@ + esc_of(f, "City"@)), "\",\"state\":\""@, p);
        lemma_contains_extend(("{\"type\":4,\"name\":\""@ + esc_of(f, "Name"@) + "\",\"notes\":\""@ + esc_of(f, "Notes"@) + "\",\"identity\":{\"firstName\":\""@ + esc_of(f, "First Name"@) + "\",\"lastName\":\""@ + esc_of(f, "Last Name"@) + "\",\"email\":\""@ + esc_of(f, "Email"@) + "\",\"phone\":\""@ + esc_of(f, "Phone"@) + "\",\"company\":\""@ + esc_of(f, "Company"@) + "\",\"address1\":\""@ + esc_of(f, "Address"@) + "\",\"city\":\""@ + esc_of(f, "City"@) + "\",\"state\":\""@), esc_of(f, "State"@), p);
        lemma_contains_extend(("{\"type\":4,\"name\":\""@ + esc_of(f, "Name"@) + "\",\"notes\":\""@ + esc_of(f, "Notes"@) + "\",\"identity\":{\"firstName\":\""@ + esc_of(f, "First Name"@) + "\",\"lastName\":\""@ + esc_of(f, "Last Name"@) + "\",\"email\":\""@ + esc_of(f, "Email"@) + "\",\"phone\":\""@ + esc_of(f, "Phone"@) + "\",\"company\":\""@ + esc_of(f, "Company"@) + "\",\"address1\":\""@ + esc_of(f, "Address"@) + "\",\"city\":\""@ + esc_of(f, "City"@) + "\",\"state\":\""@ + esc_of(f, "State"@)), "\",\"postalCode\":\""@, p);
        lemma_contains_extend(("{\"type\":4,\"name\":\""@ + esc_of(f, "Name"@) + "\",\"notes\":\""@ + esc_of(f, "Notes"@) + "\",\"identity\":{\"firstName\":\""@ + esc_of(f, "First Name"@) + "\",\"lastName\":\""@ + esc_of(f, "Last Name"@) + "\",\"email\":\""@ + esc_of(f, "Email"@) + "\",\"phone\":\""@ + esc_of(f, "Phone"@) + "\",\"company\":\""@ + esc_of(f, "Company"@) + "\",\"address1\":\""@ + esc_of(f, "Address"@) + "\",\"city\":\""@ + esc_of(f, "City"@) + "\",\"state\":\""@ + esc_of(f, "State"@) + "\",\"postalCode\":\""@), esc_of(f, "ZIP"@), p);
        lemma_contains_extend(("{\"type\":4,\"name\":\""@ + esc_of(f, "Name"@) + "\",\"notes\":\""@ + esc_of(f, "Notes"@) + "\",\"identity\":{\"firstName\":\""@ + esc_of(f, "First Name"@) + "\",\"lastName\":\""@ + esc_of(f, "Last Name"@) + "\",\"email\":\""@ + esc_of(f, "Email"@) + "\",\"phone\":\""@ + esc_of(f, "Phone"@) + "\",\"company\":\""@ + esc_of(f, "Company"@) + "\",\"address1\":\""@ + esc_of(f, "Address"@) + "\",\"city\":\""@ + esc_of(f, "City"@) + "\",\"state\":\""@ + esc_of(f, "State"@) + "\",\"postalCode\":\""@ + esc_of(f, "ZIP"@)), "\",\"country\":\""@, p);
        lemma_contains_extend(("{\"type\":4,\"name\":\""@ + esc_of(f, "Name"@) + "\",\"notes\":\""@ + esc_of(f, "Notes"@) + "\",\"identity\":{\"firstName\":\""@ + esc_of(f, "First Name"@) + "\",\"lastName\":\""@ + esc_of(f, "Last Name"@) + "\",\"email\":\""@ + esc_of(f, "Email"@) + "\",\"phone\":\""@ + esc_of(f, "Phone"@) + "\",\"company\":\""@ + esc_of(f, "Company"@) + "\",\"address1\":\""@ + esc_of(f, "Address"@) + "\",\"city\":\""@ + esc_of(f, "City"@) + "\",\"state\":\""@ + esc_of(f, "State"@) + "\",\"postalCode\":\""@ + esc_of(f, "ZIP"@) + "\",\"country\":\""@), esc_of(f, "Country"@), p);
        lemma_contains_extend(("{\"type\":4,\"name\":\""@ + esc_of(f, "Name"@) + "\",\"notes\":\""@ + esc_of(f, "Notes"@) + "\",\"identity\":{\"firstName\":\""@ + esc_of(f, "First Name"@) + "\",\"lastName\":\""@ + esc_of(f, "Last Name"@) + "\",\"email\":\""@ + esc_of(f, "Email"@) + "\",\"phone\":\""@ + esc_of(f, "Phone"@) + "\",\"company\":\""@ + esc_of(f, "Company"@) + "\",\"address1\":\""@ + esc_of(f, "Address"@) + "\",\"city\":\""@ + esc_of(f, "City"@) + "\",\"state\":\""@ + esc_of(f, "State"@) + "\",\"postalCode\":\""@ + esc_of(f, "ZIP"@) + "\",\"country\":\""@ + esc_of(f, "Country"@)), "\"}}"@, p);
    }
    assert(crate::text::contains(new_item_json(CreateItemType::Identity, f), json_member("city"@, value_or_empty(f, "City"@)))) by {
        reveal_strlit("\",\"city\":\"");
        reveal_strlit("\",");
        reveal_strlit("\",\"state\":\"");
        reveal_strlit(",\"state\":\"");
        reveal_strlit("city");
        let p = json_member("city"@, value_or_empty(f, "City"@));
        let q = "{\"type\":4,\"name\":\""@ + esc_of(f, "Name"@) + "\",\"notes\":\""@ + esc_of(f, "Notes"@) + "\",\"identity\":{\"firstName\":\""@ + esc_of(f, "First Name"@) + "\",\"lastName\":\""@ + esc_of(f, "Last Name"@) + "\",\"email\":\""@ + esc_of(f, "Email"@) + "\",\"phone\":\""@ + esc_of(f, "Phone"@) + "\",\"company\":\""@ + esc_of(f, "Company"@) + "\",\"address1\":\""@ + esc_of(f, "Address"@);
        lemma_member_between(q, "\",\"city\":\""@, "\","@, "city"@, value_or_empty(f, "City"@), "\",\"state\":\""@, ",\"state\":\""@);
        lemma_contains_extend(("{\"type\":4,\"name\":\""@ + esc_of(f, "Name"@) + "\",\"notes\":\""@ + esc_of(f, "Notes"@) + "\",\"identity\":{\"firstName\":\""@ + esc_of(f, "First Name"@) + "\",\"lastName\":\""@ + esc_of(f, "Last Name"@) + "\",\"email\":\""@ + esc_of(f, "Email"@) + "\",\"phone\":\""@ + esc_of(f, "Phone"@) + "\",\"company\":\""@ + esc_of(f, "Company"@) + "\",\"address1\":\""@ + esc_of(f, "Address"@) + "\",\"city\":\""@ + esc_of(f, "City"@) + "\",\"state\":\""@), esc_of(f, "State"@), p);
        lemma_contains_extend(("{\"type\":4,\"name\":\""@ + esc_of(f, "Name"@) + "\",\"notes\":\""@ + esc_of(f, "Notes"@) + "\",\"identity\":{\"firstName\":\""@ + esc_of(f, "First Name"@) + "\",\"lastName\":\""@ + esc_of(f, "Last Name"@) + "\",\"email\":\""@ + esc_of(f, "Email"@) + "\",\"phone\":\""@ + esc_of(f, "Phone"@) + "\",\"company\":\""@ + esc_of(f, "Company"@) + "\",\"address1\":\""@ + esc_of(f, "Address"@) + "\",\"city\":\""@ + esc_of(f, "City"@) + "\",\"state\":\""@ + esc_of(f, "State"@)), "\",\"postalCode\":\""@, p);
        lemma_contains_extend(("{\"type\":4,\"name\":\""@ + esc_of(f, "Name"@) + "\",\"notes\":\""@ + esc_of(f, "Notes"@) + "\",\"identity\":{\"firstName\":\""@ + esc_of(f, "First Name"@) + "\",\"lastName\":\""@ + esc_of(f, "Last Name"@) + "\",\"email\":\""@ + esc_of(f, "Email"@) + "\",\"phone\":\""@ + esc_of(f, "Phone"@) + "\",\"company\":\""@ + esc_of(f, "Company"@) + "\",\"address1\":\""@ + esc_of(f, "Address"@) + "\",\"city\":\""@ + esc_of(f, "City"@) + "\",\"state\":\""@ + esc_of(f, "State"@) + "\",\"postalCode\":\""@), esc_of(f, "ZIP"@), p);
        lemma_contains_extend(("{\"type\":4,\"name\":\""@ + esc_of(f, "Name"@) + "\",\"notes\":\""@ + esc_of(f, "Notes"@) + "\",\"identity\":{\"firstName\":\""@ + esc_of(f, "First Name"@) + "\",\"lastName\":\""@ + esc_of(f, "Last Name"@) + "\",\"email\":\""@ + esc_of(f, "Email"@) + "\",\"phone\":\""@ + esc_of(f, "Phone"@) + "\",\"company\":\""@ + esc_of(f, "Company"@) + "\",\"address1\":\""@ + esc_of(f, "Address"@) + "\",\"city\":\""@ + esc_of(f, "City"@) + "\",\"state\":\""@ + esc_of(f, "State"@) + "\",\"postalCode\":\""@ + esc_of(f, "ZIP"@)), "\",\"country\":\""@, p);
        lemma_contains_extend(("{\"type\":4,\"name\":\""@ + esc_of(f, "Name"@) + "\",\"notes\":\""@ + esc_of(f, "Notes"@) + "\",\"identity\":{\"firstName\":\""@ + esc_of(f, "First Name"@) + "\",\"lastName\":\""@ + esc_of(f, "Last Name"@) + "\",\"email\":\""@ + esc_of(f, "Email"@) + "\",\"phone\":\""@ + esc_of(f, "Phone"@) + "\",\"company\":\""@ + esc_of(f, "Company"@) + "\",\"address1\":\""@ + esc_of(f, "Address"@) + "\",\"city\":\""@ + esc_of(f, "City"@) + "\",\"state\":\""@ + esc_of(f, "State"@) + "\",\"postalCode\":\""@ + esc_of(f, "ZIP"@) + "\",\"country\":\""@), esc_of(f, "Country"@), p);
        lemma_contains_extend(("{\"type\":4,\"name\":\""@ + esc_of(f, "Name"@) + "\",\"notes\":\""@ + esc_of(f, "Notes"@) + "\",\"identity\":{\"firstName\":\""@ + esc_of(f, "First Name"@) + "\",\"lastName\":\""@ + esc_of(f, "Last Name"@) + "\",\"email\":\""@ + esc_of(f, "Email"@) + "\",\"phone\":\""@ + esc_of(f, "Phone"@) + "\",\"company\":\""@ + esc_of(f, "Company"@) + "\",\"address1\":\""@ + esc_of(f, "Address"@) + "\",\"city\":\""@ + esc_of(f, "City"@) + "\",\"state\":\""@ + esc_of(f, "State"@) + "\",\"postalCode\":\""@ + esc_of(f, "ZIP"@) + "\",\"country\":\""@ + esc_of(f, "Country"@)), "\"}}"@, p);
    }
    assert(crate::text::contains(new_item_json(CreateItemType::Identity, f), json_member("state"@, value_or_empty(f, "State"@)))) by {
        reveal_strlit("\",\"state\":\"");
        reveal_strlit("\",");
        reveal_strlit("\",\"postalCode\":\"");
        reveal_strlit(",\"postalCode\":\"");
        reveal_strlit("state");
        let p = json_member("state"@, value_or_empty(f, "State"@));
        let q = "{\"type\":4,\"name\":\""@ + esc_of(f, "Name"@) + "\",\"notes\":\""@ + esc_of(f, "Notes"@) + "\",\"identity\":{\"firstName\":\""@ + esc_of(f, "First Name"@) + "\",\"lastName\":\""@ + esc_of(f, "Last Name"@) + "\",\"email\":\""@ + esc_of(f, "Email"@) + "\",\"phone\":\""@ + esc_of(f, "Phone"@) + "\",\"company\":\""@ + esc_of(f, "Company"@) + "\",\"address1\":\""@ + esc_of(f, "Address"@) + "\",\"city\":\""@ + esc_of(f, "City"@);
        lemma_member_between(q, "\",\"state\":\""@, "\","@, "state"@, value_or_empty(f, "State"@), "\",\"postalCode\":\""@, ",\"postalCode\":\""@);
        lemma_contains_extend(("{\"type\":4,\"name\":\""@ + esc_of(f, "Name"@) + "\",\"notes\":\""@ + esc_of(f, "Notes"@) + "\",\"identity\":{\"firstName\":\""@ + esc_of(f, "First Name"@) + "\",\"lastName\":\""@ + esc_of(f, "Last Name"@) + "\",\"email\":\""@ + esc_of(f, "Email"@) + "\",\"phone\":\""@ + esc_of(f, "Phone"@) + "\",\"company\":\""@ + esc_of(f, "Company"@) + "\",\"address1\":\""@ + esc_of(f, "Address"@) + "\",\"city\":\""@ + esc_of(f, "City"@) + "\",\"state\":\""@ + esc_of(f, "State"@) + "\",\"postalCode\":\""@), esc_of(f, "ZIP"@), p);
        lemma_contains_extend(("{\"type\":4,\"name\":\""@ + esc_of(f, "Name"@) + "\",\"notes\":\""@ + esc_of(f, "Notes"@) + "\",\"identity\":{\"firstName\":\""@ + esc_of(f, "First Name"@) + "\",\"lastName\":\""@ + esc_of(f, "Last Name"@) + "\",\"email\":\""@ + esc_of(f, "Email"@) + "\",\"phone\":\""@ + esc_of(f, "Phone"@) + "\",\"company\":\""@ + esc_of(f, "Company"@) + "\",\"address1\":\""@ + esc_of(f, "Address"@) + "\",\"city\":\""@ + esc_of(f, "City"@) + "\",\"state\":\""@ + esc_of(f, "State"@) + "\",\"postalCode\":\""@ + esc_of(f, "ZIP"@)), "\",\"country\":\""@, p);
        lemma_contains_extend(("{\"type\":4,\"name\":\""@ + esc_of(f, "Name"@) + "\",\"notes\":\""@ + esc_of(f, "Notes"@) + "\",\"identity\":{\"firstName\":\""@ + esc_of(f, "First Name"@) + "\",\"lastName\":\""@ + esc_of(f, "Last Name"@) + "\",\"email\":\""@ + esc_of(f, "Email"@) + "\",\"phone\":\""@ + esc_of(f, "Phone"@) + "\",\"company\":\""@ + esc_of(f, "Company"@) + "\",\"address1\":\""@ + esc_of(f, "Address"@) + "\",\"city\":\""@ + esc_of(f, "City"@) + "\",\"state\":\""@ + esc_of(f, "State"@) + "\",\"postalCode\":\""@ + esc_of(f, "ZIP"@) + "\",\"country\":\""@), esc_of(f, "Country"@), p);
        lemma_contains_extend(("{\"type\":4,\"name\":\""@ + esc_of(f, "Name"@) + "\",\"notes\":\""@ + esc_of(f, "Notes"@) + "\",\"identity\":{\"firstName\":\""@ + esc_of(f, "First Name"@) + "\",\"lastName\":\""@ + esc_of(f, "Last Name"@) + "\",\"email\":\""@ + esc_of(f, "Email"@) + "\",\"phone\":\""@ + esc_of(f, "Phone"@) + "\",\"company\":\""@ + esc_of(f, "Company"@) + "\",\"address1\":\""@ + esc_of(f, "Address"@) + "\",\"city\":\""@ + esc_of(f, "City"@) + "\",\"state\":\""@ + esc_of(f, "State"@) + "\",\"postalCode\":\""@ + esc_of(f, "ZIP"@) + "\",\"country\":\""@ + esc_of(f, "Country"@)), "\"}}"@, p);
    }
    assert(crate::text::contains(new_item_json(CreateItemType::Identity, f), json_member("postalCode"@, value_or_empty(f, "ZIP"@)))) by {
        reveal_strlit("\",\"postalCode\":\"");
        reveal_strlit("\",");
        reveal_strlit("\",\"country\":\"");
        reveal_strlit(",\"country\":\"");
        reveal_strlit("postalCode");
        let p = json_member("postalCode"@, value_or_empty(f, "ZIP"@));
        let q = "{\"type\":4,\"name\":\""@ + esc_of(f, "Name"@) + "\",\"notes\":\""@ + esc_of(f, "Notes"@) + "\",\"identity\":{\"firstName\":\""@ + esc_of(f, "First Name"@) + "\",\"lastName\":\""@ + esc_of(f, "Last Name"@) + "\",\"email\":\""@ + esc_of(f, "Email"@) + "\",\"phone\":\""@ + esc_of(f, "Phone"@) + "\",\"company\":\""@ + esc_of(f, "Company"@) + "\",\"address1\":\""@ + esc_of(f, "Address"@) + "\",\"city\":\""@ + esc_of(f, "City"@) + "\",\"state\":\""@ + esc_of(f, "State"@);
        lemma_member_between(q, "\",\"postalCode\":\""@, "\","@, "postalCode"@, value_or_empty(f, "ZIP"@), "\",\"country\":\""@, ",\"country\":\""@);
        lemma_contains_extend(("{\"type\":4,\"name\":\""@ + esc_of(f, "Name"@) + "\",\"notes\":\""@ + esc_of(f, "Notes"@) + "\",\"identity\":{\"firstName\":\""@ + esc_of(f, "First Name"@) + "\",\"lastName\":\""@ + esc_of(f, "Last Name"@) + "\",\"email\":\""@ + esc_of(f, "Email"@) + "\",\"phone\":\""@ + esc_of(f, "Phone"@) + "\",\"company\":\""@ + esc_of(f, "Company"@) + "\",\"address1\":\""@ + esc_of(f, "Address"@) + "\",\"city\":\""@ + esc_of(f, "City"@) + "\",\"state\":\""@ + esc_of(f, "State"@) + "\",\"postalCode\":\""@ + esc_of(f, "ZIP"@) + "\",\"country\":\""@), esc_of(f, "Country"@), p);
        lemma_contains_extend(("{\"type\":4,\"name\":\""@ + esc_of(f, "Name"@) + "\",\"notes\":\""@ + esc_of(f, "Notes"@) + "\",\"identity\":{\"firstName\":\""@ + esc_of(f, "First Name"@) + "\",\"lastName\":\""@ + esc_of(f, "Last Name"@) + "\",\"email\":\""@ + esc_of(f, "Email"@) + "\",\"phone\":\""@ + esc_of(f, "Phone"@) + "\",\"company\":\""@ + esc_of(f, "Company"@) + "\",\"address1\":\""@ + esc_of(f, "Address"@) + "\",\"city\":\""@ + esc_of(f, "City"@) + "\",\"state\":\""@ + esc_of(f, "State"@) + "\",\"postalCode\":\""@ + esc_of(f, "ZIP"@) + "\",\"country\":\""@ + esc_of(f, "Country"@)), "\"}}"@, p);
    }
    assert(crate::text::contains(new_item_json(CreateItemType::Identity, f), json_member("country"@, value_or_empty(f, "Country"@)))) by {
        reveal_strlit("\",\"country\":\"");
        reveal_strlit("\",");
        reveal_strlit("\"}}");
        reveal_strlit("}}");
        reveal_strlit("country");
        let p = json_member("country"@, value_or_empty(f, "Country"@));
        let q = "{\"type\":4,\"name\":\""@ + esc_of(f, "Name"@) + "\",\"notes\":\""@ + esc_of(f, "Notes"@) + "\",\"identity\":{\"firstName\":\""@ + esc_of(f, "First Name"@) + "\",\"lastName\":\""@ + esc_of(f, "Last Name"@) + "\",\"email\":\""@ + esc_of(f, "Email"@) + "\",\"phone\":\""@ + esc_of(f, "Phone"@) + "\",\"company\":\""@ + esc_of(f, "Company"@) + "\",\"address1\":\""@ + esc_of(f, "Address"@) + "\",\"city\":\""@ + esc_of(f, "City"@) + "\",\"state\":\""@ + esc_of(f, "State"@) + "\",\"postalCode\":\""@ + esc_of(f, "ZIP"@);
        lemma_member_between(q, "\",\"country\":\""@, "\","@, "country"@, value_or_empty(f, "Country"@), "\"}}"@, "}}"@);
    }
}


// ── What a save writes ────────────────────────────────────────────────────

/// The edit `e` sets member `key` (of the item itself, or of its member
/// object `obj`) to the value of the first form field labelled `label`.
pub open spec fn edit_sets(
    e: (Option<Seq<char>>, Seq<char>, Seq<char>),
    f: Seq<EditField>,
    obj: Option<Seq<char>>,
    key: Seq<char>,
    label: Seq<char>,
) -> bool {
    e.0 == obj && e.1 == key && field_value(f, label) == Some(e.2)
}

proof fn lemma_edit_for_sets(f: Seq<EditField>, label: Seq<char>, obj: Option<Seq<char>>, key: Seq<char>, k: int)
    requires
        0 <= k < edit_for(f, label, obj, key).len(),
    ensures
        edit_sets(edit_for(f, label, obj, key)[k], f, obj, key, label),
{
}

proof fn lemma_edit_for_has(f: Seq<EditField>, label: Seq<char>, obj: Option<Seq<char>>, key: Seq<char>)
    requires
        field_value(f, label) is Some,
    ensures
        edit_for(f, label, obj, key).contains((obj, key, field_value(f, label)->0)),
{
    assert(edit_for(f, label, obj, key)[0] == (obj, key, field_value(f, label)->0));
}

proof fn lemma_concat_has<A>(a: Seq<A>, b: Seq<A>, x: A)
    ensures
        a.contains(x) ==> (a + b).contains(x),
        b.contains(x) ==> (a + b).contains(x),
{
    if a.contains(x) {
        let k = choose|k: int| 0 <= k < a.len() && a[k] == x;
        assert((a + b)[k] == x);
    }
    if b.contains(x) {
        let k = choose|k: int| 0 <= k < b.len() && b[k] == x;
        assert((a + b)[a.len() + k] == x);
    }
}

/// Each identity edit comes from one row of `keys`: the row's key, set to
/// the value of the field with the row's label.
proof fn lemma_identity_edits_sound(f: Seq<EditField>, keys: Seq<(Seq<char>, Seq<char>)>, k: int) -> (j: int)
    requires
        0 <= k < identity_edits(f, keys).len(),
    ensures
        0 <= j < keys.len(),
        edit_sets(identity_edits(f, keys)[k], f, Some("identity"@), keys[j].0, keys[j].1),
    decreases keys.len(),
{
    let pre = identity_edits(f, keys.drop_last());
    if k < pre.len() {
        let j = lemma_identity_edits_sound(f, keys.drop_last(), k);
        assert(keys.drop_last()[j] == keys[j]);
        j
    } else {
        lemma_edit_for_sets(f, keys.last().1, Some("identity"@), keys.last().0, k - pre.len());
        keys.len() - 1
    }
}

/// A row of `keys` whose label the form has gives an identity edit.
proof fn lemma_identity_edits_has(f: Seq<EditField>, keys: Seq<(Seq<char>, Seq<char>)>, j: int)
    requires
        0 <= j < keys.len(),
        field_value(f, keys[j].1) is Some,
    ensures
        identity_edits(f, keys).contains((Some("identity"@), keys[j].0, field_value(f, keys[j].1)->0)),
    decreases keys.len(),
{
    let x = (Some("identity"@), keys[j].0, field_value(f, keys[j].1)->0);
    let pre = identity_edits(f, keys.drop_last());
    let last = edit_for(f, keys.last().1, Some("identity"@), keys.last().0);
    if j == keys.len() - 1 {
        lemma_edit_for_has(f, keys.last().1, Some("identity"@), keys.last().0);
        lemma_concat_has(pre, last, x);
    } else {
        assert(keys.drop_last()[j] == keys[j]);
        lemma_identity_edits_has(f, keys.drop_last(), j);
        lemma_concat_has(pre, last, x);
    }
}

/// Saving a login from the edit form: every change written to the item
/// sets a member from the form field with that member's own label (name
/// from "Name", notes from "Notes", and so on), to that field's value.
pub proof fn law_login_edits_use_own_labels(f: Seq<EditField>, i: int)
    requires
        0 <= i < patch_plan(Some(1i64), f).len(),
    ensures
        ({
            let e = patch_plan(Some(1i64), f)[i];
            ||| edit_sets(e, f, None, "name"@, "Name"@)
            ||| edit_sets(e, f, None, "notes"@, "Notes"@)
            ||| edit_sets(e, f, Some("login"@), "username"@, "Username"@)
            ||| edit_sets(e, f, Some("login"@), "password"@, "Password"@)
            ||| edit_sets(e, f, Some("login"@), "totp"@, "TOTP seed"@)
        }),
{
    let s0 = edit_for(f, "Name"@, None, "name"@);
    let s1 = s0 + edit_for(f, "Notes"@, None, "notes"@);
    let s2 = s1 + edit_for(f, "Username"@, Some("login"@), "username"@);
    let s3 = s2 + edit_for(f, "Password"@, Some("login"@), "password"@);
    let s4 = s3 + edit_for(f, "TOTP seed"@, Some("login"@), "totp"@);
    assert(patch_plan(Some(1i64), f) == s4);
    if i < s0.len() {
        lemma_edit_for_sets(f, "Name"@, None, "name"@, i - 0);
    } else if i < s1.len() {
        lemma_edit_for_sets(f, "Notes"@, None, "notes"@, i - s0.len());
    } else if i < s2.len() {
        lemma_edit_for_sets(f, "Username"@, Some("login"@), "username"@, i - s1.len());
    } else if i < s3.len() {
        lemma_edit_for_sets(f, "Password"@, Some("login"@), "password"@, i - s2.len());
    } else {
        lemma_edit_for_sets(f, "TOTP seed"@, Some("login"@), "totp"@, i - s3.len());
    }
}

/// Saving a login from the edit form: each member that the form has a
/// field for (by that member's own label) is set to that field's value.
pub proof fn law_login_edits_complete(f: Seq<EditField>)
    ensures
        field_value(f, "Name"@) is Some ==> patch_plan(Some(1i64), f).contains((None, "name"@, field_value(f, "Name"@)->0)),
        field_value(f, "Notes"@) is Some ==> patch_plan(Some(1i64), f).contains((None, "notes"@, field_value(f, "Notes"@)->0)),
        field_value(f, "Username"@) is Some ==> patch_plan(Some(1i64), f).contains((Some("login"@), "username"@, field_value(f, "Username"@)->0)),
        field_value(f, "Password"@) is Some ==> patch_plan(Some(1i64), f).contains((Some("login"@), "password"@, field_value(f, "Password"@)->0)),
        field_value(f, "TOTP seed"@) is Some ==> patch_plan(Some(1i64), f).contains((Some("login"@), "totp"@, field_value(f, "TOTP seed"@)->0)),
{
    let s0 = edit_for(f, "Name"@, None, "name"@);
    let s1 = s0 + edit_for(f, "Notes"@, None, "notes"@);
    let s2 = s1 + edit_for(f, "Username"@, Some("login"@), "username"@);
    let s3 = s2 + edit_for(f, "Password"@, Some("login"@), "password"@);
    let s4 = s3 + edit_for(f, "TOTP seed"@, Some("login"@), "totp"@);
    assert(patch_plan(Some(1i64), f) == s4);
    if field_value(f, "Name"@) is Some {
        lemma_edit_for_has(f, "Name"@, None, "name"@);
        lemma_concat_has(s0, edit_for(f, "Notes"@, None, "notes"@), (None, "name"@, field_value(f, "Name"@)->0));
        lemma_concat_has(s1, edit_for(f, "Username"@, Some("login"@), "username"@), (None, "name"@, field_value(f, "Name"@)->0));
        lemma_concat_has(s2, edit_for(f, "Password"@, Some("login"@), "password"@), (None, "name"@, field_value(f, "Name"@)->0));
        lemma_concat_has(s3, edit_for(f, "TOTP seed"@, Some("login"@), "totp"@), (None, "name"@, field_value(f, "Name"@)->0));
    }
    if field_value(f, "Notes"@) is Some {
        lemma_edit_for_has(f, "Notes"@, None, "notes"@);
        lemma_concat_has(s0, edit_for(f, "Notes"@, None, "notes"@), (None, "notes"@, field_value(f, "Notes"@)->0));
        lemma_concat_has(s1, edit_for(f, "Username"@, Some("login"@), "username"@), (None, "notes"@, field_value(f, "Notes"@)->0));
        lemma_concat_has(s2, edit_for(f, "Password"@, Some("login"@), "password"@), (None, "notes"@, field_value(f, "Notes"@)->0));
        lemma_concat_has(s3, edit_for(f, "TOTP seed"@, Some("login"@), "totp"@), (None, "notes"@, field_value(f, "Notes"@)->0));
    }
    if field_value(f, "Username"@) is Some {
        lemma_edit_for_has(f, "Username"@, Some("login"@), "username"@);
        lemma_concat_has(s1, edit_for(f, "Username"@, Some("login"@), "username"@), (Some("login"@), "username"@, field_value(f, "Username"@)->0));
        lemma_concat_has(s2, edit_for(f, "Password"@, Some("login"@), "password"@), (Some("login"@), "username"@, field_value(f, "Username"@)->0));
        lemma_concat_has(s3, edit_for(f, "TOTP seed"@, Some("login"@), "totp"@), (Some("login"@), "username"@, field_value(f, "Username"@)->0));
    }
    if field_value(f, "Password"@) is Some {
        lemma_edit_for_has(f, "Password"@, Some("login"@), "password"@);
        lemma_concat_has(s2, edit_for(f, "Password"@, Some("login"@), "password"@), (Some("login"@), "password"@, field_value(f, "Password"@)->0));
        lemma_concat_has(s3, edit_for(f, "TOTP seed"@, Some("login"@), "totp"@), (Some("login"@), "password"@, field_value(f, "Password"@)->0));
    }
    if field_value(f, "TOTP seed"@) is Some {
        lemma_edit_for_has(f, "TOTP seed"@, Some("login"@), "totp"@);
        lemma_concat_has(s3, edit_for(f, "TOTP seed"@, Some("login"@), "totp"@), (Some("login"@), "totp"@, field_value(f, "TOTP seed"@)->0));
    }
}

/// Saving a card from the edit form: every change written to the item
/// sets a member from the form field with that member's own label (name
/// from "Name", notes from "Notes", and so on), to that field's value.
pub proof fn law_card_edits_use_own_labels(f: Seq<EditField>, i: int)
    requires
        0 <= i < patch_plan(Some(3i64), f).len(),
    ensures
        ({
            let e = patch_plan(Some(3i64), f)[i];
            ||| edit_sets(e, f, None, "name"@, "Name"@)
            ||| edit_sets(e, f, None, "notes"@, "Notes"@)
            ||| edit_sets(e, f, Some("card"@), "cardholderName"@, "Cardholder"@)
            ||| edit_sets(e, f, Some("card"@), "brand"@, "Brand"@)
            ||| edit_sets(e, f, Some("card"@), "number"@, "Number"@)
            ||| edit_sets(e, f, Some("card"@), "expMonth"@, "Exp Month"@)
            ||| edit_sets(e, f, Some("card"@), "expYear"@, "Exp Year"@)
            ||| edit_sets(e, f, Some("card"@), "code"@, "CVV"@)
        }),
{
    let s0 = edit_for(f, "Name"@, None, "name"@);
    let s1 = s0 + edit_for(f, "Notes"@, None, "notes"@);
    let s2 = s1 + edit_for(f, "Cardholder"@, Some("card"@), "cardholderName"@);
    let s3 = s2 + edit_for(f, "Brand"@, Some("card"@), "brand"@);
    let s4 = s3 + edit_for(f, "Number"@, Some("card"@), "number"@);
    let s5 = s4 + edit_for(f, "Exp Month"@, Some("card"@), "expMonth"@);
    let s6 = s5 + edit_for(f, "Exp Year"@, Some("card"@), "expYear"@);
    let s7 = s6 + edit_for(f, "CVV"@, Some("card"@), "code"@);
    assert(patch_plan(Some(3i64), f) == s7);
    if i < s0.len() {
        lemma_edit_for_sets(f, "Name"@, None, "name"@, i - 0);
    } else if i < s1.len() {
        lemma_edit_for_sets(f, "Notes"@, None, "notes"@, i - s0.len());
    } else if i < s2.len() {
        lemma_edit_for_sets(f, "Cardholder"@, Some("card"@), "cardholderName"@, i - s1.len());
    } else if i < s3.len() {
        lemma_edit_for_sets(f, "Brand"@, Some("card"@), "brand"@, i - s2.len());
    } else if i < s4.len() {
        lemma_edit_for_sets(f, "Number"@, Some("card"@), "number"@, i - s3.len());
    } else if i < s5.len() {
        lemma_edit_for_sets(f, "Exp Month"@, Some("card"@), "expMonth"@, i - s4.len());
    } else if i < s6.len() {
        lemma_edit_for_sets(f, "Exp Year"@, Some("card"@), "expYear"@, i - s5.len());
    } else {
        lemma_edit_for_sets(f, "CVV"@, Some("card"@), "code"@, i - s6.len());
    }
}

/// Saving a card from the edit form: each member that the form has a
/// field for (by that member's own label) is set to that field's value.
pub proof fn law_card_edits_complete(f: Seq<EditField>)
    ensures
        field_value(f, "Name"@) is Some ==> patch_plan(Some(3i64), f).contains((None, "name"@, field_value(f, "Name"@)->0)),
        field_value(f, "Notes"@) is Some ==> patch_plan(Some(3i64), f).contains((None, "notes"@, field_value(f, "Notes"@)->0)),
        field_value(f, "Cardholder"@) is Some ==> patch_plan(Some(3i64), f).contains((Some("card"@), "cardholderName"@, field_value(f, "Cardholder"@)->0)),
        field_value(f, "Brand"@) is Some ==> patch_plan(Some(3i64), f).contains((Some("card"@), "brand"@, field_value(f, "Brand"@)->0)),
        field_value(f, "Number"@) is Some ==> patch_plan(Some(3i64), f).contains((Some("card"@), "number"@, field_value(f, "Number"@)->0)),
        field_value(f, "Exp Month"@) is Some ==> patch_plan(Some(3i64), f).contains((Some("card"@), "expMonth"@, field_value(f, "Exp Month"@)->0)),
        field_value(f, "Exp Year"@) is Some ==> patch_plan(Some(3i64), f).contains((Some("card"@), "expYear"@, field_value(f, "Exp Year"@)->0)),
        field_value(f, "CVV"@) is Some ==> patch_plan(Some(3i64), f).contains((Some("card"@), "code"@, field_value(f, "CVV"@)->0)),
{
    let s0 = edit_for(f, "Name"@, None, "name"@);
    let s1 = s0 + edit_for(f, "Notes"@, None, "notes"@);
    let s2 = s1 + edit_for(f, "Cardholder"@, Some("card"@), "cardholderName"@);
    let s3 = s2 + edit_for(f, "Brand"@, Some("card"@), "brand"@);
    let s4 = s3 + edit_for(f, "Number"@, Some("card"@), "number"@);
    let s5 = s4 + edit_for(f, "Exp Month"@, Some("card"@), "expMonth"@);
    let s6 = s5 + edit_for(f, "Exp Year"@, Some("card"@), "expYear"@);
    let s7 = s6 + edit_for(f, "CVV"@, Some("card"@), "code"@);
    assert(patch_plan(Some(3i64), f) == s7);
    if field_value(f, "Name"@) is Some {
        lemma_edit_for_has(f, "Name"@, None, "name"@);
        lemma_concat_has(s0, edit_for(f, "Notes"@, None, "notes"@), (None, "name"@, field_value(f, "Name"@)->0));
        lemma_concat_has(s1, edit_for(f, "Cardholder"@, Some("card"@), "cardholderName"@), (None, "name"@, field_value(f, "Name"@)->0));
        lemma_concat_has(s2, edit_for(f, "Brand"@, Some("card"@), "brand"@), (None, "name"@, field_value(f, "Name"@)->0));
        lemma_concat_has(s3, edit_for(f, "Number"@, Some("card"@), "number"@), (None, "name"@, field_value(f, "Name"@)->0));
        lemma_concat_has(s4, edit_for(f, "Exp Month"@, Some("card"@), "expMonth"@), (None, "name"@, field_value(f, "Name"@)->0));
        lemma_concat_has(s5, edit_for(f, "Exp Year"@, Some("card"@), "expYear"@), (None, "name"@, field_value(f, "Name"@)->0));
        lemma_concat_has(s6, edit_for(f, "CVV"@, Some("card"@), "code"@), (None, "name"@, field_value(f, "Name"@)->0));
    }
    if field_value(f, "Notes"@) is Some {
        lemma_edit_for_has(f, "Notes"@, None, "notes"@);
        lemma_concat_has(s0, edit_for(f, "Notes"@, None, "notes"@), (None, "notes"@, field_value(f, "Notes"@)->0));
        lemma_concat_has(s1, edit_for(f, "Cardholder"@, Some("card"@), "cardholderName"@), (None, "notes"@, field_value(f, "Notes"@)->0));
        lemma_concat_has(s2, edit_for(f, "Brand"@, Some("card"@), "brand"@), (None, "notes"@, field_value(f, "Notes"@)->0));
        lemma_concat_has(s3, edit_for(f, "Number"@, Some("card"@), "number"@), (None, "notes"@, field_value(f, "Notes"@)->0));
        lemma_concat_has(s4, edit_for(f, "Exp Month"@, Some("card"@), "expMonth"@), (None, "notes"@, field_value(f, "Notes"@)->0));
        lemma_concat_has(s5, edit_for(f, "Exp Year"@, Some("card"@), "expYear"@), (None, "notes"@, field_value(f, "Notes"@)->0));
        lemma_concat_has(s6, edit_for(f, "CVV"@, Some("card"@), "code"@), (None, "notes"@, field_value(f, "Notes"@)->0));
    }
    if field_value(f, "Cardholder"@) is Some {
        lemma_edit_for_has(f, "Cardholder"@, Some("card"@), "cardholderName"@);
        lemma_concat_has(s1, edit_for(f, "Cardholder"@, Some("card"@), "cardholderName"@), (Some("card"@), "cardholderName"@, field_value(f, "Cardholder"@)->0));
        lemma_concat_has(s2, edit_for(f, "Brand"@, Some("card"@), "brand"@), (Some("card"@), "cardholderName"@, field_value(f, "Cardholder"@)->0));
        lemma_concat_has(s3, edit_for(f, "Number"@, Some("card"@), "number"@), (Some("card"@), "cardholderName"@, field_value(f, "Cardholder"@)->0));
        lemma_concat_has(s4, edit_for(f, "Exp Month"@, Some("card"@), "expMonth"@), (Some("card"@), "cardholderName"@, field_value(f, "Cardholder"@)->0));
        lemma_concat_has(s5, edit_for(f, "Exp Year"@, Some("card"@), "expYear"@), (Some("card"@), "cardholderName"@, field_value(f, "Cardholder"@)->0));
        lemma_concat_has(s6, edit_for(f, "CVV"@, Some("card"@), "code"@), (Some("card"@), "cardholderName"@, field_value(f, "Cardholder"@)->0));
    }
    if field_value(f, "Brand"@) is Some {
        lemma_edit_for_has(f, "Brand"@, Some("card"@), "brand"@);
        lemma_concat_has(s2, edit_for(f, "Brand"@, Some("card"@), "brand"@), (Some("card"@), "brand"@, field_value(f, "Brand"@)->0));
        lemma_concat_has(s3, edit_for(f, "Number"@, Some("card"@), "number"@), (Some("card"@), "brand"@, field_value(f, "Brand"@)->0));
        lemma_concat_has(s4, edit_for(f, "Exp Month"@, Some("card"@), "expMonth"@), (Some("card"@), "brand"@, field_value(f, "Brand"@)->0));
        lemma_concat_has(s5, edit_for(f, "Exp Year"@, Some("card"@), "expYear"@), (Some("card"@), "brand"@, field_value(f, "Brand"@)->0));
        lemma_concat_has(s6, edit_for(f, "CVV"@, Some("card"@), "code"@), (Some("card"@), "brand"@, field_value(f, "Brand"@)->0));
    }
    if field_value(f, "Number"@) is Some {
        lemma_edit_for_has(f, "Number"@, Some("card"@), "number"@);
        lemma_concat_has(s3, edit_for(f, "Number"@, Some("card"@), "number"@), (Some("card"@), "number"@, field_value(f, "Number"@)->0));
        lemma_concat_has(s4, edit_for(f, "Exp Month"@, Some("card"@), "expMonth"@), (Some("card"@), "number"@, field_value(f, "Number"@)->0));
        lemma_concat_has(s5, edit_for(f, "Exp Year"@, Some("card"@), "expYear"@), (Some("card"@), "number"@, field_value(f, "Number"@)->0));
        lemma_concat_has(s6, edit_for(f, "CVV"@, Some("card"@), "code"@), (Some("card"@), "number"@, field_value(f, "Number"@)->0));
    }
    if field_value(f, "Exp Month"@) is Some {
        lemma_edit_for_has(f, "Exp Month"@, Some("card"@), "expMonth"@);
        lemma_concat_has(s4, edit_for(f, "Exp Month"@, Some("card"@), "expMonth"@), (Some("card"@), "expMonth"@, field_value(f, "Exp Month"@)->0));
        lemma_concat_has(s5, edit_for(f, "Exp Year"@, Some("card"@), "expYear"@), (Some("card"@), "expMonth"@, field_value(f, "Exp Month"@)->0));
        lemma_concat_has(s6, edit_for(f, "CVV"@, Some("card"@), "code"@), (Some("card"@), "expMonth"@, field_value(f, "Exp Month"@)->0));
    }
    if field_value(f, "Exp Year"@) is Some {
        lemma_edit_for_has(f, "Exp Year"@, Some("card"@), "expYear"@);
        lemma_concat_has(s5, edit_for(f, "Exp Year"@, Some("card"@), "expYear"@), (Some("card"@), "expYear"@, field_value(f, "Exp Year"@)->0));
        lemma_concat_has(s6, edit_for(f, "CVV"@, Some("card"@), "code"@), (Some("card"@), "expYear"@, field_value(f, "Exp Year"@)->0));
    }
    if field_value(f, "CVV"@) is Some {
        lemma_edit_for_has(f, "CVV"@, Some("card"@), "code"@);
        lemma_concat_has(s6, edit_for(f, "CVV"@, Some("card"@), "code"@), (Some("card"@), "code"@, field_value(f, "CVV"@)->0));
    }
}

/// Saving an identity from the edit form: every change written to the item
/// sets a member from the form field with that member's own label (name
/// from "Name", notes from "Notes", and so on), to that field's value.
pub proof fn law_identity_edits_use_own_labels(f: Seq<EditField>, i: int)
    requires
        0 <= i < patch_plan(Some(4i64), f).len(),
    ensures
        ({
            let e = patch_plan(Some(4i64), f)[i];
            ||| edit_sets(e, f, None, "name"@, "Name"@)
            ||| edit_sets(e, f, None, "notes"@, "Notes"@)
            ||| edit_sets(e, f, Some("identity"@), "title"@, "Title"@)
            ||| edit_sets(e, f, Some("identity"@), "firstName"@, "First Name"@)
            ||| edit_sets(e, f, Some("identity"@), "middleName"@, "Middle"@)
            ||| edit_sets(e, f, Some("identity"@), "lastName"@, "Last Name"@)
            ||| edit_sets(e, f, Some("identity"@), "email"@, "Email"@)
            ||| edit_sets(e, f, Some("identity"@), "phone"@, "Phone"@)
            ||| edit_sets(e, f, Some("identity"@), "company"@, "Company"@)
            ||| edit_sets(e, f, Some("identity"@), "address1"@, "Address"@)
            ||| edit_sets(e, f, Some("identity"@), "address2"@, "Address 2"@)
            ||| edit_sets(e, f, Some("identity"@), "city"@, "City"@)
            ||| edit_sets(e, f, Some("identity"@), "state"@, "State"@)
            ||| edit_sets(e, f, Some("identity"@), "postalCode"@, "ZIP"@)
            ||| edit_sets(e, f, Some("identity"@), "country"@, "Country"@)
            ||| edit_sets(e, f, Some("identity"@), "ssn"@, "SSN"@)
            ||| edit_sets(e, f, Some("identity"@), "passportNumber"@, "Passport"@)
            ||| edit_sets(e, f, Some("identity"@), "licenseNumber"@, "License"@)
        }),
{
    let s0 = edit_for(f, "Name"@, None, "name"@);
    let s1 = s0 + edit_for(f, "Notes"@, None, "notes"@);
    let s2 = s1 + identity_edits(f, identity_keys());
    assert(patch_plan(Some(4i64), f) == s2);
    if i < s0.len() {
        lemma_edit_for_sets(f, "Name"@, None, "name"@, i - 0);
    } else if i < s1.len() {
        lemma_edit_for_sets(f, "Notes"@, None, "notes"@, i - s0.len());
    } else {
        let j = lemma_identity_edits_sound(f, identity_keys(), i - s1.len());
        if j == 0 {
            assert(identity_keys()[0] == ("title"@, "Title"@));
        } else if j == 1 {
            assert(identity_keys()[1] == ("firstName"@, "First Name"@));
        } else if j == 2 {
            assert(identity_keys()[2] == ("middleName"@, "Middle"@));
        } else if j == 3 {
            assert(identity_keys()[3] == ("lastName"@, "Last Name"@));
        } else if j == 4 {
            assert(identity_keys()[4] == ("email"@, "Email"@));
        } else if j == 5 {
            assert(identity_keys()[5] == ("phone"@, "Phone"@));
        } else if j == 6 {
            assert(identity_keys()[6] == ("company"@, "Company"@));
        } else if j == 7 {
            assert(identity_keys()[7] == ("address1"@, "Address"@));
        } else if j == 8 {
            assert(identity_keys()[8] == ("address2"@, "Address 2"@));
        } else if j == 9 {
            assert(identity_keys()[9] == ("city"@, "City"@));
        } else if j == 10 {
            assert(identity_keys()[10] == ("state"@, "State"@));
        } else if j == 11 {
            assert(identity_keys()[11] == ("postalCode"@, "ZIP"@));
        } else if j == 12 {
            assert(identity_keys()[12] == ("country"@, "Country"@));
        } else if j == 13 {
            assert(identity_keys()[13] == ("ssn"@, "SSN"@));
        } else if j == 14 {
            assert(identity_keys()[14] == ("passportNumber"@, "Passport"@));
        } else if j == 15 {
            assert(identity_keys()[15] == ("licenseNumber"@, "License"@));
        }
    }
}

/// Saving an identity from the edit form: each member that the form has a
/// field for (by that member's own label) is set to that field's value.
pub proof fn law_identity_edits_complete(f: Seq<EditField>)
    ensures
        field_value(f, "Name"@) is Some ==> patch_plan(Some(4i64), f).contains((None, "name"@, field_value(f, "Name"@)->0)),
        field_value(f, "Notes"@) is Some ==> patch_plan(Some(4i64), f).contains((None, "notes"@, field_value(f, "Notes"@)->0)),
        field_value(f, "Title"@) is Some ==> patch_plan(Some(4i64), f).contains((Some("identity"@), "title"@, field_value(f, "Title"@)->0)),
        field_value(f, "First Name"@) is Some ==> patch_plan(Some(4i64), f).contains((Some("identity"@), "firstName"@, field_value(f, "First Name"@)->0)),
        field_value(f, "Middle"@) is Some ==> patch_plan(Some(4i64), f).contains((Some("identity"@), "middleName"@, field_value(f, "Middle"@)->0)),
        field_value(f, "Last Name"@) is Some ==> patch_plan(Some(4i64), f).contains((Some("identity"@), "lastName"@, field_value(f, "Last Name"@)->0)),
        field_value(f, "Email"@) is Some ==> patch_plan(Some(4i64), f).contains((Some("identity"@), "email"@, field_value(f, "Email"@)->0)),
        field_value(f, "Phone"@) is Some ==> patch_plan(Some(4i64), f).contains((Some("identity"@), "phone"@, field_value(f, "Phone"@)->0)),
        field_value(f, "Company"@) is Some ==> patch_plan(Some(4i64), f).contains((Some("identity"@), "company"@, field_value(f, "Company"@)->0)),
        field_value(f, "Address"@) is Some ==> patch_plan(Some(4i64), f).contains((Some("identity"@), "address1"@, field_value(f, "Address"@)->0)),
        field_value(f, "Address 2"@) is Some ==> patch_plan(Some(4i64), f).contains((Some("identity"@), "address2"@, field_value(f, "Address 2"@)->0)),
        field_value(f, "City"@) is Some ==> patch_plan(Some(4i64), f).contains((Some("identity"@), "city"@, field_value(f, "City"@)->0)),
        field_value(f, "State"@) is Some ==> patch_plan(Some(4i64), f).contains((Some("identity"@), "state"@, field_value(f, "State"@)->0)),
        field_value(f, "ZIP"@) is Some ==> patch_plan(Some(4i64), f).contains((Some("identity"@), "postalCode"@, field_value(f, "ZIP"@)->0)),
        field_value(f, "Country"@) is Some ==> patch_plan(Some(4i64), f).contains((Some("identity"@), "country"@, field_value(f, "Country"@)->0)),
        field_value(f, "SSN"@) is Some ==> patch_plan(Some(4i64), f).contains((Some("identity"@), "ssn"@, field_value(f, "SSN"@)->0)),
        field_value(f, "Passport"@) is Some ==> patch_plan(Some(4i64), f).contains((Some("identity"@), "passportNumber"@, field_value(f, "Passport"@)->0)),
        field_value(f, "License"@) is Some ==> patch_plan(Some(4i64), f).contains((Some("identity"@), "licenseNumber"@, field_value(f, "License"@)->0)),
{
    let s0 = edit_for(f, "Name"@, None, "name"@);
    let s1 = s0 + edit_for(f, "Notes"@, None, "notes"@);
    let s2 = s1 + identity_edits(f, identity_keys());
    assert(patch_plan(Some(4i64), f) == s2);
    if field_value(f, "Name"@) is Some {
        lemma_edit_for_has(f, "Name"@, None, "name"@);
        lemma_concat_has(s0, edit_for(f, "Notes"@, None, "notes"@), (None, "name"@, field_value(f, "Name"@)->0));
        lemma_concat_has(s1, identity_edits(f, identity_keys()), (None, "name"@, field_value(f, "Name"@)->0));
    }
    if field_value(f, "Notes"@) is Some {
        lemma_edit_for_has(f, "Notes"@, None, "notes"@);
        lemma_concat_has(s0, edit_for(f, "Notes"@, None, "notes"@), (None, "notes"@, field_value(f, "Notes"@)->0));
        lemma_concat_has(s1, identity_edits(f, identity_keys()), (None, "notes"@, field_value(f, "Notes"@)->0));
    }
    if field_value(f, "Title"@) is Some {
        assert(identity_keys()[0] == ("title"@, "Title"@));
        lemma_identity_edits_has(f, identity_keys(), 0);
        lemma_concat_has(s1, identity_edits(f, identity_keys()), (Some("identity"@), "title"@, field_value(f, "Title"@)->0));
    }
    if field_value(f, "First Name"@) is Some {
        assert(identity_keys()[1] == ("firstName"@, "First Name"@));
        lemma_identity_edits_has(f, identity_keys(), 1);
        lemma_concat_has(s1, identity_edits(f, identity_keys()), (Some("identity"@), "firstName"@, field_value(f, "First Name"@)->0));
    }
    if field_value(f, "Middle"@) is Some {
        assert(identity_keys()[2] == ("middleName"@, "Middle"@));
        lemma_identity_edits_has(f, identity_keys(), 2);
        lemma_concat_has(s1, identity_edits(f, identity_keys()), (Some("identity"@), "middleName"@, field_value(f, "Middle"@)->0));
    }
    if field_value(f, "Last Name"@) is Some {
        assert(identity_keys()[3] == ("lastName"@, "Last Name"@));
        lemma_identity_edits_has(f, identity_keys(), 3);
        lemma_concat_has(s1, identity_edits(f, identity_keys()), (Some("identity"@), "lastName"@, field_value(f, "Last Name"@)->0));
    }
    if field_value(f, "Email"@) is Some {
        assert(identity_keys()[4] == ("email"@, "Email"@));
        lemma_identity_edits_has(f, identity_keys(), 4);
        lemma_concat_has(s1, identity_edits(f, identity_keys()), (Some("identity"@), "email"@, field_value(f, "Email"@)->0));
    }
    if field_value(f, "Phone"@) is Some {
        assert(identity_keys()[5] == ("phone"@, "Phone"@));
        lemma_identity_edits_has(f, identity_keys(), 5);
        lemma_concat_has(s1, identity_edits(f, identity_keys()), (Some("identity"@), "phone"@, field_value(f, "Phone"@)->0));
    }
    if field_value(f, "Company"@) is Some {
        assert(identity_keys()[6] == ("company"@, "Company"@));
        lemma_identity_edits_has(f, identity_keys(), 6);
        lemma_concat_has(s1, identity_edits(f, identity_keys()), (Some("identity"@), "company"@, field_value(f, "Company"@)->0));
    }
    if field_value(f, "Address"@) is Some {
        assert(identity_keys()[7] == ("address1"@, "Address"@));
        lemma_identity_edits_has(f, identity_keys(), 7);
        lemma_concat_has(s1, identity_edits(f, identity_keys()), (Some("identity"@), "address1"@, field_value(f, "Address"@)->0));
    }
    if field_value(f, "Address 2"@) is Some {
        assert(identity_keys()[8] == ("address2"@, "Address 2"@));
        lemma_identity_edits_has(f, identity_keys(), 8);
        lemma_concat_has(s1, identity_edits(f, identity_keys()), (Some("identity"@), "address2"@, field_value(f, "Address 2"@)->0));
    }
    if field_value(f, "City"@) is Some {
        assert(identity_keys()[9] == ("city"@, "City"@));
        lemma_identity_edits_has(f, identity_keys(), 9);
        lemma_concat_has(s1, identity_edits(f, identity_keys()), (Some("identity"@), "city"@, field_value(f, "City"@)->0));
    }
    if field_value(f, "State"@) is Some {
        assert(identity_keys()[10] == ("state"@, "State"@));
        lemma_identity_edits_has(f, identity_keys(), 10);
        lemma_concat_has(s1, identity_edits(f, identity_keys()), (Some("identity"@), "state"@, field_value(f, "State"@)->0));
    }
    if field_value(f, "ZIP"@) is Some {
        assert(identity_keys()[11] == ("postalCode"@, "ZIP"@));
        lemma_identity_edits_has(f, identity_keys(), 11);
        lemma_concat_has(s1, identity_edits(f, identity_keys()), (Some("identity"@), "postalCode"@, field_value(f, "ZIP"@)->0));
    }
    if field_value(f, "Country"@) is Some {
        assert(identity_keys()[12] == ("country"@, "Country"@));
        lemma_identity_edits_has(f, identity_keys(), 12);
        lemma_concat_has(s1, identity_edits(f, identity_keys()), (Some("identity"@), "country"@, field_value(f, "Country"@)->0));
    }
    if field_value(f, "SSN"@) is Some {
        assert(identity_keys()[13] == ("ssn"@, "SSN"@));
        lemma_identity_edits_has(f, identity_keys(), 13);
        lemma_concat_has(s1, identity_edits(f, identity_keys()), (Some("identity"@), "ssn"@, field_value(f, "SSN"@)->0));
    }
    if field_value(f, "Passport"@) is Some {
        assert(identity_keys()[14] == ("passportNumber"@, "Passport"@));
        lemma_identity_edits_has(f, identity_keys(), 14);
        lemma_concat_has(s1, identity_edits(f, identity_keys()), (Some("identity"@), "passportNumber"@, field_value(f, "Passport"@)->0));
    }
    if field_value(f, "License"@) is Some {
        assert(identity_keys()[15] == ("licenseNumber"@, "License"@));
        lemma_identity_edits_has(f, identity_keys(), 15);
        lemma_concat_has(s1, identity_edits(f, identity_keys()), (Some("identity"@), "licenseNumber"@, field_value(f, "License"@)->0));
    }
}

} // verus!
