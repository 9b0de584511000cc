//! Item fields as the screens show and edit them: editable text fields with a
//! cursor, the field lists of the edit and create forms, and the fields of the
//! detail view with their masking of secrets.
use vstd::prelude::*;
use crate::text::{to_chars, from_chars, owned, char_count, concat, insert_at};
use crate::model::{
    Item, LoginData, UriData, Field, CardData, IdentityData, type_label, item_type_label,
    or_default, present, as_str_or, is_present,
};

verus! {

// ── EditField ─────────────────────────────────────────────────────────────

/// One text field of the edit or create form. `cursor` counts characters.
#[derive(Debug, Clone)]
pub struct EditField {
    pub label: String,
    pub value: String,
    pub hidden: bool,
    pub revealed: bool,
    pub cursor: usize,
    pub read_only: bool,
}

/// The label, value and hidden flag of an edit field.
pub open spec fn ef_view(e: EditField) -> (Seq<char>, Seq<char>, bool) {
    (e.label@, e.value@, e.hidden)
}

/// A freshly built field: not revealed, cursor after its last character.
pub open spec fn fresh(e: EditField) -> bool {
    !e.revealed && e.cursor == e.value@.len()
}

impl EditField {
    /// The cursor does not stand past the end of the value.
    pub open spec fn wf(&self) -> bool {
        self.cursor <= self.value@.len()
    }

    /// An editable field holding `value`, with the cursor at its end.
    pub fn new(label: &str, value: &str, hidden: bool) -> (r: Self)
        ensures
            ef_view(r) == (label@, value@, hidden),
            fresh(r),
            !r.read_only,
    {
        EditField {
            label: owned(label),
            value: owned(value),
            hidden,
            revealed: false,
            cursor: char_count(value),
            read_only: false,
        }
    }

    /// A field that shows `value` and takes no edits.
    pub fn read_only(label: &str, value: &str) -> (r: Self)
        ensures
            ef_view(r) == (label@, value@, false),
            fresh(r),
            r.read_only,
    {
        let mut f = Self::new(label, value, false);
        f.read_only = true;
        f
    }

    /// Types `c` at the cursor and moves the cursor past it; a cursor past the
    /// end types at the end. A read-only field is left as it is.
    pub fn insert(&mut self, c: char)
        requires
            old(self).cursor < usize::MAX,
        ensures
            old(self).read_only ==> *final(self) == *old(self),
            !old(self).read_only ==> {
                &&& final(self).value@ == insert_at(old(self).value@, old(self).cursor as int, c)
                &&& final(self).cursor == old(self).cursor + 1
                &&& final(self).label == old(self).label
                &&& final(self).hidden == old(self).hidden
                &&& final(self).revealed == old(self).revealed
                &&& final(self).read_only == old(self).read_only
            },
    {
        if self.read_only {
            return;
        }
        let mut v = to_chars(self.value.as_str());
        if self.cursor <= v.len() {
            v.insert(self.cursor, c);
        } else {
            v.push(c);
        }
        self.value = from_chars(&v);
        self.cursor = self.cursor + 1;
    }

    /// Deletes the character before the cursor and moves the cursor back.
    pub fn delete_before(&mut self)
        requires
            old(self).read_only || old(self).cursor == 0 || old(self).cursor <= old(self).value@.len(),
        ensures
            old(self).read_only || old(self).cursor == 0 ==> *final(self) == *old(self),
            !old(self).read_only && old(self).cursor > 0 ==> {
                &&& final(self).value@ == old(self).value@.remove(old(self).cursor - 1)
                &&& final(self).cursor == old(self).cursor - 1
                &&& final(self).label == old(self).label
                &&& final(self).hidden == old(self).hidden
                &&& final(self).revealed == old(self).revealed
                &&& final(self).read_only == old(self).read_only
            },
    {
        if self.read_only || self.cursor == 0 {
            return;
        }
        let mut v = to_chars(self.value.as_str());
        v.remove(self.cursor - 1);
        self.value = from_chars(&v);
        self.cursor = self.cursor - 1;
    }

    /// Deletes the character at the cursor, if there is one.
    pub fn delete_at(&mut self)
        ensures
            old(self).read_only || old(self).cursor >= old(self).value@.len() ==> *final(self)
                == *old(self),
            !old(self).read_only && old(self).cursor < old(self).value@.len() ==> {
                &&& final(self).value@ == old(self).value@.remove(old(self).cursor as int)
                &&& final(self).cursor == old(self).cursor
                &&& final(self).label == old(self).label
                &&& final(self).hidden == old(self).hidden
                &&& final(self).revealed == old(self).revealed
                &&& final(self).read_only == old(self).read_only
            },
    {
        if self.read_only {
            return;
        }
        let mut v = to_chars(self.value.as_str());
        if self.cursor >= v.len() {
            return;
        }
        v.remove(self.cursor);
        self.value = from_chars(&v);
    }

    /// Moves the cursor one character left, stopping at the start.
    pub fn cursor_left(&mut self)
        ensures
            final(self).cursor == if old(self).cursor > 0 {
                (old(self).cursor - 1) as usize
            } else {
                0
            },
            final(self).value == old(self).value,
            final(self).label == old(self).label,
            final(self).hidden == old(self).hidden,
            final(self).revealed == old(self).revealed,
            final(self).read_only == old(self).read_only,
    {
        if self.cursor > 0 {
            self.cursor = self.cursor - 1;
        }
    }

    /// Moves the cursor one character right, stopping at the end.
    pub fn cursor_right(&mut self)
        ensures
            final(self).cursor == if old(self).cursor < old(self).value@.len() {
                (old(self).cursor + 1) as usize
            } else {
                old(self).cursor
            },
            old(self).cursor < old(self).value@.len() ==> final(self).cursor == old(self).cursor + 1,
            old(self).wf() ==> final(self).wf(),
            final(self).value == old(self).value,
            final(self).label == old(self).label,
            final(self).hidden == old(self).hidden,
            final(self).revealed == old(self).revealed,
            final(self).read_only == old(self).read_only,
    {
        if self.cursor < char_count(self.value.as_str()) {
            self.cursor = self.cursor + 1;
        }
    }

    /// Moves the cursor to the start.
    pub fn cursor_home(&mut self)
        ensures
            final(self).cursor == 0,
            final(self).value == old(self).value,
            final(self).label == old(self).label,
            final(self).hidden == old(self).hidden,
            final(self).revealed == old(self).revealed,
            final(self).read_only == old(self).read_only,
    {
        self.cursor = 0;
    }

    /// Moves the cursor past the last character.
    pub fn cursor_end(&mut self)
        ensures
            final(self).cursor == old(self).value@.len(),
            final(self).value == old(self).value,
            final(self).label == old(self).label,
            final(self).hidden == old(self).hidden,
            final(self).revealed == old(self).revealed,
            final(self).read_only == old(self).read_only,
    {
        self.cursor = char_count(self.value.as_str());
    }

    /// The byte offset in the value of the character at `char_idx`; the
    /// value's byte length when there is no such character.
    pub fn char_byte(&self, char_idx: usize) -> (n: usize)
        ensures
            n == crate::text::byte_len(
                self.value@.take(if char_idx <= self.value@.len() { char_idx as int } else { self.value@.len() as int }),
            ),
    {
        let v = to_chars(self.value.as_str());
        let k = if char_idx <= v.len() { char_idx } else { v.len() };
        let mut head: Vec<char> = Vec::new();
        let mut i: usize = 0;
        while i < k
            invariant
                k <= v@.len(),
                i <= k,
                head@ == v@.take(i as int),
            decreases k - i,
        {
            head.push(v[i]);
            i = i + 1;
            assert(head@ =~= v@.take(i as int));
        }
        let prefix = from_chars(&head);
        crate::text::byte_length(prefix.as_str())
    }
}

/// An editing key applied to a form field.
#[derive(Debug, Clone, Copy, PartialEq, Eq, Structural)]
pub enum FieldKey {
    Insert(char),
    DeleteBefore,
    DeleteAt,
    Left,
    Right,
    Home,
    End,
    /// F2: show or mask a hidden field's value.
    ToggleReveal,
}

/// The key can be applied to the field without overflow or a bad index.
pub open spec fn key_ok(f: EditField, k: FieldKey) -> bool {
    match k {
        FieldKey::Insert(_) => f.cursor < usize::MAX,
        FieldKey::DeleteBefore => f.read_only || f.cursor == 0 || f.cursor <= f.value@.len(),
        _ => true,
    }
}

/// `a` is the field `b` after the key `k`.
pub open spec fn key_effect(b: EditField, a: EditField, k: FieldKey) -> bool {
    match k {
        FieldKey::Insert(c) => if b.read_only {
            a == b
        } else {
            a.value@ == insert_at(b.value@, b.cursor as int, c) && a.cursor == b.cursor + 1
                && a.label == b.label && a.hidden == b.hidden && a.revealed == b.revealed
                && a.read_only == b.read_only
        },
        FieldKey::DeleteBefore => if b.read_only || b.cursor == 0 {
            a == b
        } else {
            a.value@ == b.value@.remove(b.cursor - 1) && a.cursor == b.cursor - 1 && a.label
                == b.label && a.hidden == b.hidden && a.revealed == b.revealed && a.read_only
                == b.read_only
        },
        FieldKey::DeleteAt => if b.read_only || b.cursor >= b.value@.len() {
            a == b
        } else {
            a.value@ == b.value@.remove(b.cursor as int) && a.cursor == b.cursor && a.label
                == b.label && a.hidden == b.hidden && a.revealed == b.revealed && a.read_only
                == b.read_only
        },
        FieldKey::Left => a == (EditField {
            cursor: if b.cursor > 0 {
                (b.cursor - 1) as usize
            } else {
                0
            },
            ..b
        }),
        FieldKey::Right => a == (EditField {
            cursor: if b.cursor < b.value@.len() {
                (b.cursor + 1) as usize
            } else {
                b.cursor
            },
            ..b
        }),
        FieldKey::Home => a == (EditField { cursor: 0, ..b }),
        FieldKey::End => a == (EditField { cursor: b.value@.len() as usize, ..b }),
        FieldKey::ToggleReveal => a == (EditField {
            revealed: if b.hidden {
                !b.revealed
            } else {
                b.revealed
            },
            ..b
        }),
    }
}

/// Applies an editing key to the field.
pub fn apply_key(f: &mut EditField, k: FieldKey)
    requires
        key_ok(*old(f), k),
    ensures
        key_effect(*old(f), *final(f), k),
{
    match k {
        FieldKey::Insert(c) => f.insert(c),
        FieldKey::DeleteBefore => f.delete_before(),
        FieldKey::DeleteAt => f.delete_at(),
        FieldKey::Left => f.cursor_left(),
        FieldKey::Right => f.cursor_right(),
        FieldKey::Home => f.cursor_home(),
        FieldKey::End => f.cursor_end(),
        FieldKey::ToggleReveal => {
            if f.hidden {
                f.revealed = !f.revealed;
            }
        },
    }
}

/// The key can be applied to the field at `idx`, if there is one.
pub open spec fn key_ok_at(fields: Seq<EditField>, idx: int, k: FieldKey) -> bool {
    0 <= idx < fields.len() ==> key_ok(fields[idx], k)
}

/// `a` is `b` after the key `k` on the field at `idx`; no field there, no change.
pub open spec fn key_effect_at(b: Seq<EditField>, a: Seq<EditField>, idx: int, k: FieldKey) -> bool {
    if 0 <= idx < b.len() {
        &&& a.len() == b.len()
        &&& forall|j: int| 0 <= j < b.len() && j != idx ==> a[j] == b[j]
        &&& key_effect(b[idx], a[idx], k)
    } else {
        a == b
    }
}

/// Applies an editing key to the field at `idx`, if there is one.
pub fn apply_key_at(fields: &mut Vec<EditField>, idx: usize, k: FieldKey)
    requires
        key_ok_at(old(fields)@, idx as int, k),
    ensures
        key_effect_at(old(fields)@, final(fields)@, idx as int, k),
{
    if idx < fields.len() {
        let mut f = fields.remove(idx);
        apply_key(&mut f, k);
        fields.insert(idx, f);
    }
}

/// Typing a character and deleting it again with Backspace gives back the
/// field as it was.
pub proof fn law_insert_then_delete_restores(before: EditField, typed: EditField, after: EditField, c: char)
    requires
        before.wf(),
        !before.read_only,
        typed.value@ == insert_at(before.value@, before.cursor as int, c),
        typed.cursor == before.cursor + 1,
        after.value@ == typed.value@.remove(typed.cursor - 1),
        after.cursor == typed.cursor - 1,
    ensures
        after.value@ == before.value@,
        after.cursor == before.cursor,
        typed.wf(),
{
    assert(after.value@ =~= before.value@);
}

/// Editing keeps the cursor within the value: each cursor or edit operation
/// of a well-formed field gives a well-formed field.
pub proof fn law_edits_keep_cursor_in_range(before: EditField, c: char)
    requires
        before.wf(),
    ensures
        !before.read_only ==> before.cursor + 1 <= insert_at(before.value@, before.cursor as int, c).len(),
        !before.read_only && before.cursor > 0 ==> before.cursor - 1 <= before.value@.remove(
            before.cursor - 1,
        ).len(),
        !before.read_only && before.cursor < before.value@.len() ==> before.cursor
            <= before.value@.remove(before.cursor as int).len(),
{
}

// ── CreateItemType ────────────────────────────────────────────────────────

/// The kinds of item the create form offers.
#[derive(Debug, Clone, PartialEq, Eq, Structural)]
pub enum CreateItemType {
    Login,
    SecureNote,
    Card,
    Identity,
}

pub open spec fn create_type_label(t: CreateItemType) -> Seq<char> {
    match t {
        CreateItemType::Login => "Login"@,
        CreateItemType::SecureNote => "Secure Note"@,
        CreateItemType::Card => "Card"@,
        CreateItemType::Identity => "Identity"@,
    }
}

impl CreateItemType {
    /// The display name of the type.
    pub fn label(&self) -> (r: &'static str)
        ensures
            r@ == create_type_label(*self),
    {
        match self {
            CreateItemType::Login => "Login",
            CreateItemType::SecureNote => "Secure Note",
            CreateItemType::Card => "Card",
            CreateItemType::Identity => "Identity",
        }
    }
}

/// How many item types the create form offers.
pub const CREATE_ITEM_TYPE_COUNT: usize = 4;

/// The create form's item types, in the order it lists them.
pub open spec fn create_type_at(i: int) -> CreateItemType {
    if i == 0 {
        CreateItemType::Login
    } else if i == 1 {
        CreateItemType::SecureNote
    } else if i == 2 {
        CreateItemType::Card
    } else {
        CreateItemType::Identity
    }
}

/// The item type at position `i` of the create form's list.
pub fn create_item_type(i: usize) -> (r: CreateItemType)
    requires
        i < CREATE_ITEM_TYPE_COUNT,
    ensures
        r == create_type_at(i as int),
{
    match i {
        0 => CreateItemType::Login,
        1 => CreateItemType::SecureNote,
        2 => CreateItemType::Card,
        _ => CreateItemType::Identity,
    }
}

// ── Create form fields ────────────────────────────────────────────────────

/// A field with the given label and hidden flag and no value.
pub open spec fn blank(label: Seq<char>, hidden: bool) -> (Seq<char>, Seq<char>, bool) {
    (label, Seq::empty(), hidden)
}

/// The labels, (empty) values and hidden flags of the create form for each item type.
pub open spec fn create_views(t: CreateItemType) -> Seq<(Seq<char>, Seq<char>, bool)> {
    match t {
        CreateItemType::Login => seq![
            blank("Name"@, false),
            blank("Username"@, false),
            blank("Password"@, true),
            blank("URL"@, false),
            blank("Notes"@, false),
        ],
        CreateItemType::SecureNote => seq![blank("Name"@, false), blank("Notes"@, false)],
        CreateItemType::Card => seq![
            blank("Name"@, false),
            blank("Cardholder"@, false),
            blank("Brand"@, false),
            blank("Number"@, true),
            blank("Exp Month"@, false),
            blank("Exp Year"@, false),
            blank("CVV"@, true),
            blank("Notes"@, false),
        ],
        CreateItemType::Identity => seq![
            blank("Name"@, false),
            blank("First Name"@, false),
            blank("Last Name"@, false),
            blank("Email"@, false),
            blank("Phone"@, false),
            blank("Company"@, false),
            blank("Address"@, false),
            blank("City"@, false),
            blank("State"@, false),
            blank("ZIP"@, false),
            blank("Country"@, false),
            blank("Notes"@, false),
        ],
    }
}

/// The label, value and hidden flag of each field.
pub open spec fn field_views(f: Seq<EditField>) -> Seq<(Seq<char>, Seq<char>, bool)> {
    f.map_values(|e: EditField| ef_view(e))
}

/// Every field is fresh, and editable except possibly the one at `ro`.
pub open spec fn all_fresh(f: Seq<EditField>, ro: int) -> bool {
    forall|i: int| 0 <= i < f.len() ==> fresh(#[trigger] f[i]) && (f[i].read_only <==> i == ro)
}

fn push_new(f: &mut Vec<EditField>, label: &str, value: &str, hidden: bool, Ghost(ro): Ghost<int>)
    requires
        all_fresh(old(f)@, ro),
        ro < old(f)@.len(),
    ensures
        field_views(final(f)@) == field_views(old(f)@).push((label@, value@, hidden)),
        final(f)@.len() == old(f)@.len() + 1,
        all_fresh(final(f)@, ro),
{
    f.push(EditField::new(label, value, hidden));
    assert(field_views(f@) =~= field_views(old(f)@).push((label@, value@, hidden)));
}

fn blank_fields(labels: &[&str], hidden: &[bool]) -> (r: Vec<EditField>)
    requires
        labels@.len() == hidden@.len(),
    ensures
        field_views(r@) == Seq::new(labels@.len(), |i: int| blank(labels@[i]@, hidden@[i])),
        all_fresh(r@, -1),
{
    let mut f: Vec<EditField> = Vec::new();
    let mut i: usize = 0;
    proof {
        reveal_strlit("");
    }
    while i < labels.len()
        invariant
            labels@.len() == hidden@.len(),
            i <= labels@.len(),
            field_views(f@) == Seq::new(i as nat, |k: int| blank(labels@[k]@, hidden@[k])),
            all_fresh(f@, -1),
        decreases labels@.len() - i,
    {
        push_new(&mut f, labels[i], "", hidden[i], Ghost(-1));
        proof {
            reveal_strlit("");
            assert(""@ =~= Seq::<char>::empty());
        }
        i = i + 1;
        assert(field_views(f@) =~= Seq::new(i as nat, |k: int| blank(labels@[k]@, hidden@[k])));
    }
    f
}

/// The empty fields of the create form for an item type.
pub fn build_create_fields(item_type: &CreateItemType) -> (r: Vec<EditField>)
    ensures
        field_views(r@) == create_views(*item_type),
        all_fresh(r@, -1),
{
    let (labels, hidden): (&[&str], &[bool]) = match item_type {
        CreateItemType::Login => (
            &["Name", "Username", "Password", "URL", "Notes"],
            &[false, false, true, false, false],
        ),
        CreateItemType::SecureNote => (&["Name", "Notes"], &[false, false]),
        CreateItemType::Card => (
            &["Name", "Cardholder", "Brand", "Number", "Exp Month", "Exp Year", "CVV", "Notes"],
            &[false, false, false, true, false, false, true, false],
        ),
        CreateItemType::Identity => (
            &[
                "Name",
                "First Name",
                "Last Name",
                "Email",
                "Phone",
                "Company",
                "Address",
                "City",
                "State",
                "ZIP",
                "Country",
                "Notes",
            ],
            &[false, false, false, false, false, false, false, false, false, false, false, false],
        ),
    };
    let r = blank_fields(labels, hidden);
    assert(field_views(r@) =~= create_views(*item_type));
    r
}

// ── Edit form fields ──────────────────────────────────────────────────────

pub open spec fn no_chars() -> Seq<char> {
    Seq::empty()
}

/// The edit-form fields of the URLs of a login, one per entry.
pub open spec fn uri_edit_views(uris: Option<Vec<UriData>>) -> Seq<(Seq<char>, Seq<char>, bool)> {
    match uris {
        None => Seq::empty(),
        Some(v) => v@.map_values(|u: UriData| ("URL"@, or_default(u.uri, no_chars()), false)),
    }
}

/// The edit-form fields of a login section.
pub open spec fn login_edit_views(l: Option<LoginData>) -> Seq<(Seq<char>, Seq<char>, bool)> {
    match l {
        None => Seq::empty(),
        Some(l) => seq![
            ("Username"@, or_default(l.username, no_chars()), false),
            ("Password"@, or_default(l.password, no_chars()), true),
        ] + uri_edit_views(l.uris) + match l.totp {
            Some(t) => seq![("TOTP seed"@, t@, true)],
            None => Seq::empty(),
        },
    }
}

/// The edit-form fields of a card section.
pub open spec fn card_edit_views(c: Option<CardData>) -> Seq<(Seq<char>, Seq<char>, bool)> {
    match c {
        None => Seq::empty(),
        Some(c) => seq![
            ("Cardholder"@, or_default(c.cardholder_name, no_chars()), false),
            ("Brand"@, or_default(c.brand, no_chars()), false),
            ("Number"@, or_default(c.number, no_chars()), true),
            ("Exp Month"@, or_default(c.exp_month, no_chars()), false),
            ("Exp Year"@, or_default(c.exp_year, no_chars()), false),
            ("CVV"@, or_default(c.code, no_chars()), true),
        ],
    }
}

/// The edit-form fields of an identity section.
pub open spec fn identity_edit_views(i: Option<IdentityData>) -> Seq<(Seq<char>, Seq<char>, bool)> {
    match i {
        None => Seq::empty(),
        Some(i) => seq![
            ("Title"@, or_default(i.title, no_chars()), false),
            ("First Name"@, or_default(i.first_name, no_chars()), false),
            ("Middle"@, or_default(i.middle_name, no_chars()), false),
            ("Last Name"@, or_default(i.last_name, no_chars()), false),
            ("Email"@, or_default(i.email, no_chars()), false),
            ("Phone"@, or_default(i.phone, no_chars()), false),
            ("Company"@, or_default(i.company, no_chars()), false),
            ("Address"@, or_default(i.address1, no_chars()), false),
            ("Address 2"@, or_default(i.address2, no_chars()), false),
            ("City"@, or_default(i.city, no_chars()), false),
            ("State"@, or_default(i.state, no_chars()), false),
            ("ZIP"@, or_default(i.postal_code, no_chars()), false),
            ("Country"@, or_default(i.country, no_chars()), false),
            ("SSN"@, or_default(i.ssn, no_chars()), true),
            ("Passport"@, or_default(i.passport, no_chars()), true),
            ("License"@, or_default(i.license, no_chars()), true),
        ],
    }
}

/// The edit-form field of a custom field: its name (or `Field`), its value, and
/// hidden when it is of the hidden type.
pub open spec fn custom_edit_view(f: Field) -> (Seq<char>, Seq<char>, bool) {
    (or_default(f.name, "Field"@), or_default(f.value, no_chars()), f.field_type == 1)
}

/// All fields of the edit form for `item`, in order: name, type, the login,
/// card and identity sections, the custom fields, and the notes.
pub open spec fn edit_views(item: Item) -> Seq<(Seq<char>, Seq<char>, bool)> {
    seq![("Name"@, item.name@, false), ("Type"@, type_label(item.item_type), false)]
        + login_edit_views(item.login) + card_edit_views(item.card) + identity_edit_views(
        item.identity,
    ) + item.fields@.map_values(|f: Field| custom_edit_view(f)) + seq![
        ("Notes"@, or_default(item.notes, no_chars()), false),
    ]
}

fn push_opt(f: &mut Vec<EditField>, label: &str, value: &Option<String>, hidden: bool)
    requires
        all_fresh(old(f)@, 1),
        1 < old(f)@.len(),
    ensures
        field_views(final(f)@) == field_views(old(f)@).push(
            (label@, or_default(*value, no_chars()), hidden),
        ),
        final(f)@.len() == old(f)@.len() + 1,
        all_fresh(final(f)@, 1),
{
    proof {
        reveal_strlit("");
        assert(""@ =~= no_chars());
    }
    push_new(f, label, as_str_or(value, ""), hidden, Ghost(1));
}

fn push_login_edit(f: &mut Vec<EditField>, l: &LoginData)
    requires
        all_fresh(old(f)@, 1),
        1 < old(f)@.len(),
    ensures
        field_views(final(f)@) == field_views(old(f)@) + login_edit_views(Some(*l)),
        final(f)@.len() >= old(f)@.len(),
        all_fresh(final(f)@, 1),
{
    let ghost f0 = field_views(f@);
    push_opt(f, "Username", &l.username, false);
    push_opt(f, "Password", &l.password, true);
    let ghost f1 = field_views(f@);
    let ghost uv = uri_edit_views(l.uris);
    if let Some(uris) = &l.uris {
        let mut i: usize = 0;
        while i < uris.len()
            invariant
                i <= uris@.len(),
                l.uris == Some(*uris),
                1 < f@.len(),
                all_fresh(f@, 1),
                field_views(f@) == f1 + uris@.take(i as int).map_values(
                    |u: UriData| ("URL"@, or_default(u.uri, no_chars()), false),
                ),
            decreases uris@.len() - i,
        {
            push_opt(f, "URL", &uris[i].uri, false);
            i = i + 1;
            assert(uris@.take(i as int).map_values(
                |u: UriData| ("URL"@, or_default(u.uri, no_chars()), false),
            ) =~= uris@.take(i - 1).map_values(
                |u: UriData| ("URL"@, or_default(u.uri, no_chars()), false),
            ).push(("URL"@, or_default(uris@[i - 1].uri, no_chars()), false)));
        }
        assert(uris@.take(uris@.len() as int) =~= uris@);
    }
    assert(field_views(f@) =~= f1 + uv);
    if let Some(t) = &l.totp {
        push_new(f, "TOTP seed", t.as_str(), true, Ghost(1));
    }
    assert(field_views(f@) =~= f0 + login_edit_views(Some(*l)));
}

fn push_card_edit(f: &mut Vec<EditField>, c: &CardData)
    requires
        all_fresh(old(f)@, 1),
        1 < old(f)@.len(),
    ensures
        field_views(final(f)@) == field_views(old(f)@) + card_edit_views(Some(*c)),
        final(f)@.len() >= old(f)@.len(),
        all_fresh(final(f)@, 1),
{
    let ghost f0 = field_views(f@);
    push_opt(f, "Cardholder", &c.cardholder_name, false);
    push_opt(f, "Brand", &c.brand, false);
    push_opt(f, "Number", &c.number, true);
    push_opt(f, "Exp Month", &c.exp_month, false);
    push_opt(f, "Exp Year", &c.exp_year, false);
    push_opt(f, "CVV", &c.code, true);
    assert(field_views(f@) =~= f0 + card_edit_views(Some(*c)));
}

fn push_identity_edit(f: &mut Vec<EditField>, id: &IdentityData)
    requires
        all_fresh(old(f)@, 1),
        1 < old(f)@.len(),
    ensures
        field_views(final(f)@) == field_views(old(f)@) + identity_edit_views(Some(*id)),
        final(f)@.len() >= old(f)@.len(),
        all_fresh(final(f)@, 1),
{
    let ghost f0 = field_views(f@);
    push_opt(f, "Title", &id.title, false);
    push_opt(f, "First Name", &id.first_name, false);
    push_opt(f, "Middle", &id.middle_name, false);
    push_opt(f, "Last Name", &id.last_name, false);
    push_opt(f, "Email", &id.email, false);
    push_opt(f, "Phone", &id.phone, false);
    push_opt(f, "Company", &id.company, false);
    push_opt(f, "Address", &id.address1, false);
    push_opt(f, "Address 2", &id.address2, false);
    push_opt(f, "City", &id.city, false);
    push_opt(f, "State", &id.state, false);
    push_opt(f, "ZIP", &id.postal_code, false);
    push_opt(f, "Country", &id.country, false);
    push_opt(f, "SSN", &id.ssn, true);
    push_opt(f, "Passport", &id.passport, true);
    push_opt(f, "License", &id.license, true);
    assert(field_views(f@) =~= f0 + identity_edit_views(Some(*id)));
}

/// The fields of the edit form for `item`; only `Type` is read-only.
pub fn build_edit_fields(item: &Item) -> (r: Vec<EditField>)
    ensures
        field_views(r@) == edit_views(*item),
        all_fresh(r@, 1),
{
    let mut f: Vec<EditField> = Vec::new();
    f.push(EditField::new("Name", item.name.as_str(), false));
    f.push(EditField::read_only("Type", item_type_label(item.item_type)));
    let ghost f0 = field_views(f@);
    assert(f0 =~= seq![("Name"@, item.name@, false), ("Type"@, type_label(item.item_type), false)]);
    if let Some(l) = &item.login {
        push_login_edit(&mut f, l);
    }
    assert(field_views(f@) =~= f0 + login_edit_views(item.login));
    let ghost f1 = field_views(f@);
    if let Some(c) = &item.card {
        push_card_edit(&mut f, c);
    }
    assert(field_views(f@) =~= f1 + card_edit_views(item.card));
    let ghost f2 = field_views(f@);
    if let Some(id) = &item.identity {
        push_identity_edit(&mut f, id);
    }
    assert(field_views(f@) =~= f2 + identity_edit_views(item.identity));
    let ghost f3 = field_views(f@);
    let mut i: usize = 0;
    while i < item.fields.len()
        invariant
            i <= item.fields@.len(),
            1 < f@.len(),
            all_fresh(f@, 1),
            field_views(f@) == f3 + item.fields@.take(i as int).map_values(
                |x: Field| custom_edit_view(x),
            ),
        decreases item.fields@.len() - i,
    {
        let fd = &item.fields[i];
        proof {
            reveal_strlit("");
            assert(""@ =~= no_chars());
        }
        push_new(
            &mut f,
            as_str_or(&fd.name, "Field"),
            as_str_or(&fd.value, ""),
            fd.field_type == 1,
            Ghost(1),
        );
        i = i + 1;
        assert(item.fields@.take(i as int).map_values(|x: Field| custom_edit_view(x))
            =~= item.fields@.take(i - 1).map_values(|x: Field| custom_edit_view(x)).push(
            custom_edit_view(item.fields@[i - 1]),
        ));
    }
    assert(item.fields@.take(item.fields@.len() as int) =~= item.fields@);
    push_opt(&mut f, "Notes", &item.notes, false);
    assert(field_views(f@) =~= edit_views(*item));
    f
}

// ── Identity helpers ──────────────────────────────────────────────────────

/// The characters of an optional string slice, or none when absent.
pub open spec fn opt_str_view(o: Option<&str>) -> Seq<char> {
    match o {
        Some(s) => s@,
        None => Seq::empty(),
    }
}

/// The non-empty parts joined with single spaces.
pub open spec fn join_nonempty(parts: Seq<Seq<char>>) -> Seq<char>
    decreases parts.len(),
{
    if parts.len() == 0 {
        Seq::empty()
    } else {
        let j = join_nonempty(parts.drop_last());
        let w = parts.last();
        if w.len() == 0 {
            j
        } else if j.len() == 0 {
            w
        } else {
            j + seq![' '] + w
        }
    }
}

/// The full name of an identity: the present parts of title, first, middle
/// and last name, separated by spaces.
pub open spec fn full_name(t: Seq<char>, f: Seq<char>, m: Seq<char>, l: Seq<char>) -> Seq<char> {
    join_nonempty(seq![t, f, m, l])
}

fn join_step(acc: &mut Vec<char>, part: Option<&str>, Ghost(parts): Ghost<Seq<Seq<char>>>)
    requires
        old(acc)@ == join_nonempty(parts),
    ensures
        final(acc)@ == join_nonempty(parts.push(opt_str_view(part))),
{
    let ghost q = parts.push(opt_str_view(part));
    assert(q.drop_last() =~= parts);
    if let Some(w) = part {
        if !w.is_empty() {
            if acc.len() > 0 {
                acc.push(' ');
            }
            crate::text::push_str(acc, w);
        }
    }
}

/// The parts that are present and not empty, joined with single spaces.
pub fn build_full_name(
    title: Option<&str>,
    first: Option<&str>,
    middle: Option<&str>,
    last: Option<&str>,
) -> (r: String)
    ensures
        r@ == full_name(
            opt_str_view(title),
            opt_str_view(first),
            opt_str_view(middle),
            opt_str_view(last),
        ),
{
    let mut acc: Vec<char> = Vec::new();
    let ghost p0 = Seq::<Seq<char>>::empty();
    assert(acc@ =~= join_nonempty(p0));
    join_step(&mut acc, title, Ghost(p0));
    let ghost p1 = p0.push(opt_str_view(title));
    join_step(&mut acc, first, Ghost(p1));
    let ghost p2 = p1.push(opt_str_view(first));
    join_step(&mut acc, middle, Ghost(p2));
    let ghost p3 = p2.push(opt_str_view(middle));
    join_step(&mut acc, last, Ghost(p3));
    let ghost p4 = p3.push(opt_str_view(last));
    assert(p4 =~= seq![
        opt_str_view(title),
        opt_str_view(first),
        opt_str_view(middle),
        opt_str_view(last),
    ]);
    from_chars(&acc)
}

/// A borrowed view of an optional string (`Option::as_deref`).
pub fn opt_as_str(o: &Option<String>) -> (r: Option<&str>)
    ensures
        opt_str_view(r) == or_default(*o, Seq::empty()),
        r is Some <==> o is Some,
{
    match o {
        Some(s) => Some(s.as_str()),
        None => None,
    }
}

/// The labelled identity fields shown after the full name, in order.
pub open spec fn identity_pairs(id: IdentityData) -> Seq<(Seq<char>, Option<String>)> {
    seq![
        ("Email"@, id.email),
        ("Phone"@, id.phone),
        ("Company"@, id.company),
        ("Address"@, id.address1),
        ("Address 2"@, id.address2),
        ("City"@, id.city),
        ("State"@, id.state),
        ("ZIP"@, id.postal_code),
        ("Country"@, id.country),
        ("SSN"@, id.ssn),
        ("Passport"@, id.passport),
        ("License"@, id.license),
    ]
}

/// The labelled identity fields shown after the full name, in order.
pub fn identity_fields(id: &IdentityData) -> (r: Vec<(&'static str, &Option<String>)>)
    ensures
        r@.len() == identity_pairs(*id).len(),
        forall|i: int|
            0 <= i < r@.len() ==> (#[trigger] r@[i]).0@ == identity_pairs(*id)[i].0
                && *r@[i].1 == identity_pairs(*id)[i].1,
{
    vec![
        ("Email", &id.email),
        ("Phone", &id.phone),
        ("Company", &id.company),
        ("Address", &id.address1),
        ("Address 2", &id.address2),
        ("City", &id.city),
        ("State", &id.state),
        ("ZIP", &id.postal_code),
        ("Country", &id.country),
        ("SSN", &id.ssn),
        ("Passport", &id.passport),
        ("License", &id.license),
    ]
}

// ── Detail view ───────────────────────────────────────────────────────────

/// How the detail view masks a field's value until it is revealed.
#[derive(Debug, Clone, Copy, PartialEq, Eq, Structural)]
pub enum Mask {
    /// Always shown.
    Plain,
    /// A password: masked with at least 8 bullets unless empty.
    Password,
    /// A TOTP seed: masked with 6 bullets.
    Totp,
    /// Another secret: masked with at least 4 bullets.
    Secret,
}

/// What copying a detail field puts on the clipboard.
pub enum CopyWhat {
    /// The field's own value, announced as "<label> copied ✓".
    Raw(Seq<char>),
    /// Nothing: the field is not worth copying.
    Nothing,
    /// The username, fetched with `bw get username`.
    Username,
    /// The password, fetched with `bw get password`.
    Password,
    /// The current TOTP code, fetched with `bw get totp`.
    Totp,
}

/// One field of the detail view, before masking.
pub struct Entry {
    pub label: Seq<char>,
    pub value: Seq<char>,
    pub mask: Mask,
    pub copy: CopyWhat,
}

pub open spec fn ent(label: Seq<char>, value: Seq<char>, mask: Mask, copy: CopyWhat) -> Entry {
    Entry { label, value, mask, copy }
}

/// The entry for an optional field, present only when the value is not empty.
pub open spec fn opt_ent(label: Seq<char>, o: Option<String>, mask: Mask) -> Seq<Entry> {
    if present(o) {
        seq![ent(label, o->0@, mask, CopyWhat::Raw(label))]
    } else {
        Seq::empty()
    }
}

/// The URL entries: one per URL entry that has a URI.
pub open spec fn uri_list(us: Seq<UriData>) -> Seq<Entry>
    decreases us.len(),
{
    if us.len() == 0 {
        Seq::empty()
    } else {
        uri_list(us.drop_last()) + match us.last().uri {
            Some(u) => seq![ent("URL"@, u@, Mask::Plain, CopyWhat::Raw("URL"@))],
            None => Seq::empty(),
        }
    }
}

pub open spec fn uri_entries(uris: Option<Vec<UriData>>) -> Seq<Entry> {
    match uris {
        Some(v) => uri_list(v@),
        None => Seq::empty(),
    }
}

pub open spec fn username_entries(u: Option<String>) -> Seq<Entry> {
    match u {
        Some(u) => seq![ent("Username"@, u@, Mask::Plain, CopyWhat::Username)],
        None => Seq::empty(),
    }
}

pub open spec fn totp_entries(t: Option<String>) -> Seq<Entry> {
    match t {
        Some(t) => seq![ent("TOTP"@, t@, Mask::Totp, CopyWhat::Totp)],
        None => Seq::empty(),
    }
}

pub open spec fn login_entries(l: Option<LoginData>) -> Seq<Entry> {
    match l {
        None => Seq::empty(),
        Some(l) => username_entries(l.username) + seq![
            ent("Password"@, or_default(l.password, no_chars()), Mask::Password, CopyWhat::Password),
        ] + uri_entries(l.uris) + totp_entries(l.totp),
    }
}

/// The expiry as shown: month and year separated by `/`, `?` for a missing one.
pub open spec fn expiry(c: CardData) -> Seq<char> {
    or_default(c.exp_month, "?"@) + "/"@ + or_default(c.exp_year, "?"@)
}

pub open spec fn expiry_entries(c: CardData) -> Seq<Entry> {
    if c.exp_month is Some || c.exp_year is Some {
        seq![ent("Expiry"@, expiry(c), Mask::Plain, CopyWhat::Raw("Expiry"@))]
    } else {
        Seq::empty()
    }
}

pub open spec fn card_entries(c: Option<CardData>) -> Seq<Entry> {
    match c {
        None => Seq::empty(),
        Some(c) => opt_ent("Cardholder"@, c.cardholder_name, Mask::Plain) + opt_ent(
            "Brand"@,
            c.brand,
            Mask::Plain,
        ) + opt_ent("Number"@, c.number, Mask::Secret) + expiry_entries(c) + opt_ent(
            "CVV"@,
            c.code,
            Mask::Secret,
        ),
    }
}

/// Identity fields that are masked in the detail view.
pub open spec fn secret_label(l: Seq<char>) -> bool {
    l == "SSN"@ || l == "Passport"@ || l == "License"@
}

pub open spec fn pair_entries(ps: Seq<(Seq<char>, Option<String>)>) -> Seq<Entry>
    decreases ps.len(),
{
    if ps.len() == 0 {
        Seq::empty()
    } else {
        pair_entries(ps.drop_last()) + opt_ent(
            ps.last().0,
            ps.last().1,
            if secret_label(ps.last().0) {
                Mask::Secret
            } else {
                Mask::Plain
            },
        )
    }
}

pub open spec fn identity_full_name(id: IdentityData) -> Seq<char> {
    full_name(
        or_default(id.title, no_chars()),
        or_default(id.first_name, no_chars()),
        or_default(id.middle_name, no_chars()),
        or_default(id.last_name, no_chars()),
    )
}

pub open spec fn full_name_entries(id: IdentityData) -> Seq<Entry> {
    if identity_full_name(id).len() > 0 {
        seq![ent("Full Name"@, identity_full_name(id), Mask::Plain, CopyWhat::Raw("Name"@))]
    } else {
        Seq::empty()
    }
}

pub open spec fn identity_entries(i: Option<IdentityData>) -> Seq<Entry> {
    match i {
        None => Seq::empty(),
        Some(id) => full_name_entries(id) + pair_entries(identity_pairs(id)),
    }
}

/// The detail entry of a custom field; all custom fields are listed.
pub open spec fn custom_entry(f: Field) -> Entry {
    ent(
        or_default(f.name, "Field"@),
        or_default(f.value, no_chars()),
        if f.field_type == 1 {
            Mask::Secret
        } else {
            Mask::Plain
        },
        CopyWhat::Raw(or_default(f.name, "Field"@)),
    )
}

/// The fields of the detail view of `item`, in order, before masking.
pub open spec fn detail_entries(item: Item) -> Seq<Entry> {
    seq![
        ent("Name"@, item.name@, Mask::Plain, CopyWhat::Raw("Name"@)),
        ent("Type"@, type_label(item.item_type), Mask::Plain, CopyWhat::Nothing),
    ] + login_entries(item.login) + card_entries(item.card) + identity_entries(item.identity)
        + item.fields@.map_values(|f: Field| custom_entry(f)) + opt_ent(
        "Notes"@,
        item.notes,
        Mask::Plain,
    )
}

/// `n` bullet characters.
pub open spec fn bullets(n: nat) -> Seq<char> {
    Seq::new(n, |i: int| '●')
}

pub open spec fn max_nat(a: nat, b: nat) -> nat {
    if a >= b { a } else { b }
}

/// The label, displayed value and hidden flag of an entry; `rev` says whether
/// the field is revealed.
pub open spec fn shown(label: Seq<char>, value: Seq<char>, mask: Mask, rev: bool) -> (Seq<char>, Seq<char>, bool) {
    match mask {
        Mask::Plain => (label, value, false),
        Mask::Password => if rev || value.len() == 0 {
            (label, value, false)
        } else {
            (label, bullets(max_nat(value.len(), 8)), true)
        },
        Mask::Totp => if rev {
            (label, value, false)
        } else {
            (label, bullets(6), true)
        },
        Mask::Secret => if rev {
            (label, value, false)
        } else {
            (label, bullets(max_nat(value.len(), 4)), true)
        },
    }
}

/// The entries as displayed: the one at `reveal_idx` is revealed when `show` is set.
pub open spec fn shown_all(es: Seq<Entry>, show: bool, reveal_idx: int) -> Seq<(Seq<char>, Seq<char>, bool)> {
    Seq::new(es.len(), |i: int| shown(es[i].label, es[i].value, es[i].mask, show && reveal_idx == i))
}

/// What copying a detail field does, with the text for a raw copy.
#[derive(Debug, Clone)]
pub enum CopyTarget {
    /// Copy `value` and announce "<label> copied ✓".
    Raw { value: String, label: String },
    Nothing,
    Username,
    Password,
    Totp,
}

/// `t` is what copying the entry `e` does.
pub open spec fn target_of(t: CopyTarget, e: Entry) -> bool {
    match t {
        CopyTarget::Raw { value, label } => e.copy == CopyWhat::Raw(label@) && e.value == value@,
        CopyTarget::Nothing => e.copy == CopyWhat::Nothing,
        CopyTarget::Username => e.copy == CopyWhat::Username,
        CopyTarget::Password => e.copy == CopyWhat::Password,
        CopyTarget::Totp => e.copy == CopyWhat::Totp,
    }
}

/// One field of the detail view, as displayed, with what copying it does.
#[derive(Debug, Clone)]
pub struct DetailField {
    pub label: String,
    pub value: String,
    pub hidden: bool,
    pub copy: CopyTarget,
}

pub open spec fn df_views(f: Seq<DetailField>) -> Seq<(Seq<char>, Seq<char>, bool)> {
    f.map_values(|d: DetailField| (d.label@, d.value@, d.hidden))
}

/// `n` bullets.
pub fn bullet_string(n: usize) -> (r: String)
    ensures
        r@ == bullets(n as nat),
{
    let mut v: Vec<char> = Vec::new();
    let mut i: usize = 0;
    while i < n
        invariant
            i <= n,
            v@ == bullets(i as nat),
        decreases n - i,
    {
        v.push('●');
        i = i + 1;
        assert(v@ =~= bullets(i as nat));
    }
    from_chars(&v)
}

fn push_shown(
    f: &mut Vec<DetailField>,
    label: &str,
    value: &str,
    mask: Mask,
    show: bool,
    reveal_idx: usize,
    copy: CopyTarget,
)
    ensures
        df_views(final(f)@) == df_views(old(f)@).push(
            shown(label@, value@, mask, show && reveal_idx == old(f)@.len()),
        ),
        final(f)@.len() == old(f)@.len() + 1,
        final(f)@.drop_last() == old(f)@,
        final(f)@.last().copy == copy,
{
    let rev = show && reveal_idx == f.len();
    let n = char_count(value);
    let (shown_value, hidden) = match mask {
        Mask::Plain => (owned(value), false),
        Mask::Password => if rev || n == 0 {
            (owned(value), false)
        } else {
            (bullet_string(if n >= 8 { n } else { 8 }), true)
        },
        Mask::Totp => if rev {
            (owned(value), false)
        } else {
            (bullet_string(6), true)
        },
        Mask::Secret => if rev {
            (owned(value), false)
        } else {
            (bullet_string(if n >= 4 { n } else { 4 }), true)
        },
    };
    f.push(DetailField { label: owned(label), value: shown_value, hidden, copy });
    assert(df_views(f@) =~= df_views(old(f)@).push(
        shown(label@, value@, mask, show && reveal_idx == old(f)@.len()),
    ));
}

proof fn lemma_shown_push(es: Seq<Entry>, e: Entry, show: bool, reveal_idx: int)
    ensures
        shown_all(es.push(e), show, reveal_idx) == shown_all(es, show, reveal_idx).push(
            shown(e.label, e.value, e.mask, show && reveal_idx == es.len()),
        ),
{
    assert(shown_all(es.push(e), show, reveal_idx) =~= shown_all(es, show, reveal_idx).push(
        shown(e.label, e.value, e.mask, show && reveal_idx == es.len()),
    ));
}

/// Adds the field for an optional value, if it is present and not empty;
/// `is_hidden` masks it until revealed.
pub fn push_opt_field(
    fields: &mut Vec<DetailField>,
    label: &str,
    val: &Option<String>,
    is_hidden: bool,
    show: bool,
    reveal_idx: usize,
)
    ensures
        ({
            let es = opt_ent(label@, *val, if is_hidden { Mask::Secret } else { Mask::Plain });
            df_views(final(fields)@) == df_views(old(fields)@) + Seq::new(
                es.len(),
                |i: int| shown(es[i].label, es[i].value, es[i].mask, show && reveal_idx == old(fields)@.len() + i),
            )
        }),
        final(fields)@.len() == old(fields)@.len() + opt_ent(label@, *val, Mask::Plain).len(),
{
    let ghost es = opt_ent(label@, *val, if is_hidden { Mask::Secret } else { Mask::Plain });
    if is_present(val) {
        match val {
            Some(v) => {
                push_shown(
                    fields,
                    label,
                    v.as_str(),
                    if is_hidden {
                        Mask::Secret
                    } else {
                        Mask::Plain
                    },
                    show,
                    reveal_idx,
                    CopyTarget::Raw { value: v.clone(), label: owned(label) },
                );
            },
            None => {},
        }
    }
    assert(df_views(fields@) =~= df_views(old(fields)@) + Seq::new(
        es.len(),
        |i: int| shown(es[i].label, es[i].value, es[i].mask, show && reveal_idx == old(fields)@.len() + i),
    ));
}

/// The displayed fields `f` are the entries `es` as shown.
pub open spec fn tracks(f: Seq<DetailField>, es: Seq<Entry>, show: bool, r: int) -> bool {
    &&& f.len() == es.len()
    &&& df_views(f) == shown_all(es, show, r)
    &&& forall|i: int| 0 <= i < f.len() ==> target_of(#[trigger] f[i].copy, es[i])
}

fn add_entry(
    f: &mut Vec<DetailField>,
    label: &str,
    value: &str,
    mask: Mask,
    show: bool,
    r: usize,
    tgt: CopyTarget,
    Ghost(es): Ghost<Seq<Entry>>,
    Ghost(e): Ghost<Entry>,
)
    requires
        tracks(old(f)@, es, show, r as int),
        e.label == label@,
        e.value == value@,
        e.mask == mask,
        target_of(tgt, e),
    ensures
        tracks(final(f)@, es.push(e), show, r as int),
{
    push_shown(f, label, value, mask, show, r, tgt);
    assert forall|i: int| 0 <= i < f@.len() implies target_of(#[trigger] f@[i].copy, es.push(e)[i]) by {
        if i < old(f)@.len() {
            assert(f@[i] == f@.drop_last()[i]);
        }
    }
    proof {
        lemma_shown_push(es, e, show, r as int);
    }
}

fn add_opt(
    f: &mut Vec<DetailField>,
    label: &str,
    val: &Option<String>,
    mask: Mask,
    show: bool,
    r: usize,
    Ghost(es): Ghost<Seq<Entry>>,
)
    requires
        tracks(old(f)@, es, show, r as int),
    ensures
        tracks(final(f)@, es + opt_ent(label@, *val, mask), show, r as int),
{
    if is_present(val) {
        match val {
            Some(v) => {
                add_entry(f, label, v.as_str(), mask, show, r, CopyTarget::Raw { value: v.clone(), label: owned(label) }, Ghost(es), Ghost(ent(label@, v@, mask, CopyWhat::Raw(label@))));
                assert(es.push(ent(label@, v@, mask, CopyWhat::Raw(label@))) =~= es + opt_ent(label@, *val, mask));
            },
            None => {},
        }
    } else {
        assert(es + opt_ent(label@, *val, mask) =~= es);
    }
}

fn add_login(f: &mut Vec<DetailField>, l: &LoginData, show: bool, r: usize, Ghost(es): Ghost<Seq<Entry>>)
    requires
        tracks(old(f)@, es, show, r as int),
    ensures
        tracks(final(f)@, es + login_entries(Some(*l)), show, r as int),
{
    let ghost e0 = es + username_entries(l.username);
    if let Some(u) = &l.username {
        add_entry(f, "Username", u.as_str(), Mask::Plain, show, r, CopyTarget::Username, Ghost(es), Ghost(ent("Username"@, u@, Mask::Plain, CopyWhat::Username)));
        assert(es.push(ent("Username"@, u@, Mask::Plain, CopyWhat::Username)) =~= e0);
    } else {
        assert(es =~= e0);
    }
    proof {
        reveal_strlit("");
        assert(""@ =~= no_chars());
    }
    let ghost pe = ent("Password"@, or_default(l.password, no_chars()), Mask::Password, CopyWhat::Password);
    add_entry(f, "Password", as_str_or(&l.password, ""), Mask::Password, show, r, CopyTarget::Password, Ghost(e0), Ghost(pe));
    let ghost e1 = e0.push(pe);
    if let Some(uris) = &l.uris {
        let mut i: usize = 0;
        while i < uris.len()
            invariant
                i <= uris@.len(),
                tracks(f@, e1 + uri_list(uris@.take(i as int)), show, r as int),
            decreases uris@.len() - i,
        {
            let ghost cur = e1 + uri_list(uris@.take(i as int));
            assert(uris@.take(i + 1).drop_last() =~= uris@.take(i as int));
            if let Some(u) = &uris[i].uri {
                let ghost ue = ent("URL"@, u@, Mask::Plain, CopyWhat::Raw("URL"@));
                add_entry(f, "URL", u.as_str(), Mask::Plain, show, r, CopyTarget::Raw { value: u.clone(), label: owned("URL") }, Ghost(cur), Ghost(ue));
                assert(cur.push(ue) =~= e1 + uri_list(uris@.take(i + 1)));
            } else {
                assert(cur =~= e1 + uri_list(uris@.take(i + 1)));
            }
            i = i + 1;
        }
        assert(uris@.take(uris@.len() as int) =~= uris@);
    } else {
        assert(e1 + uri_entries(l.uris) =~= e1);
    }
    let ghost e2 = e1 + uri_entries(l.uris);
    if let Some(t) = &l.totp {
        let ghost te = ent("TOTP"@, t@, Mask::Totp, CopyWhat::Totp);
        add_entry(f, "TOTP", t.as_str(), Mask::Totp, show, r, CopyTarget::Totp, Ghost(e2), Ghost(te));
        assert(e2.push(te) =~= e2 + totp_entries(l.totp));
    } else {
        assert(e2 =~= e2 + totp_entries(l.totp));
    }
    assert(e2 + totp_entries(l.totp) =~= es + login_entries(Some(*l)));
}

fn add_card(f: &mut Vec<DetailField>, c: &CardData, show: bool, r: usize, Ghost(es): Ghost<Seq<Entry>>)
    requires
        tracks(old(f)@, es, show, r as int),
    ensures
        tracks(final(f)@, es + card_entries(Some(*c)), show, r as int),
{
    add_opt(f, "Cardholder", &c.cardholder_name, Mask::Plain, show, r, Ghost(es));
    let ghost e1 = es + opt_ent("Cardholder"@, c.cardholder_name, Mask::Plain);
    add_opt(f, "Brand", &c.brand, Mask::Plain, show, r, Ghost(e1));
    let ghost e2 = e1 + opt_ent("Brand"@, c.brand, Mask::Plain);
    add_opt(f, "Number", &c.number, Mask::Secret, show, r, Ghost(e2));
    let ghost e3 = e2 + opt_ent("Number"@, c.number, Mask::Secret);
    if c.exp_month.is_some() || c.exp_year.is_some() {
        let m = as_str_or(&c.exp_month, "?");
        let y = as_str_or(&c.exp_year, "?");
        let my = concat(m, "/");
        let v = concat(my.as_str(), y);
        let ghost xe = ent("Expiry"@, expiry(*c), Mask::Plain, CopyWhat::Raw("Expiry"@));
        add_entry(f, "Expiry", v.as_str(), Mask::Plain, show, r, CopyTarget::Raw { value: v.clone(), label: owned("Expiry") }, Ghost(e3), Ghost(xe));
        assert(e3.push(xe) =~= e3 + expiry_entries(*c));
    } else {
        assert(e3 =~= e3 + expiry_entries(*c));
    }
    let ghost e4 = e3 + expiry_entries(*c);
    add_opt(f, "CVV", &c.code, Mask::Secret, show, r, Ghost(e4));
    assert(e4 + opt_ent("CVV"@, c.code, Mask::Secret) =~= es + card_entries(Some(*c)));
}

/// Whether a label names an identity field that is masked.
fn is_secret_label(l: &str) -> (b: bool)
    ensures
        b == secret_label(l@),
{
    crate::text::str_eq(l, "SSN") || crate::text::str_eq(l, "Passport") || crate::text::str_eq(l, "License")
}

fn add_identity(f: &mut Vec<DetailField>, id: &IdentityData, show: bool, r: usize, Ghost(es): Ghost<Seq<Entry>>)
    requires
        tracks(old(f)@, es, show, r as int),
    ensures
        tracks(final(f)@, es + identity_entries(Some(*id)), show, r as int),
{
    let full = build_full_name(
        opt_as_str(&id.title),
        opt_as_str(&id.first_name),
        opt_as_str(&id.middle_name),
        opt_as_str(&id.last_name),
    );
    assert(full@ == identity_full_name(*id));
    if !full.as_str().is_empty() {
        let ghost fe = ent("Full Name"@, identity_full_name(*id), Mask::Plain, CopyWhat::Raw("Name"@));
        add_entry(f, "Full Name", full.as_str(), Mask::Plain, show, r, CopyTarget::Raw { value: full.clone(), label: owned("Name") }, Ghost(es), Ghost(fe));
        assert(es.push(fe) =~= es + full_name_entries(*id));
    } else {
        assert(es =~= es + full_name_entries(*id));
    }
    let ghost e1 = es + full_name_entries(*id);
    let pairs = identity_fields(id);
    let ghost ps = identity_pairs(*id);
    let mut i: usize = 0;
    while i < pairs.len()
        invariant
            i <= pairs@.len(),
            pairs@.len() == ps.len(),
            ps == identity_pairs(*id),
            forall|k: int| 0 <= k < pairs@.len() ==> (#[trigger] pairs@[k]).0@ == ps[k].0 && *pairs@[k].1 == ps[k].1,
            tracks(f@, e1 + pair_entries(ps.take(i as int)), show, r as int),
        decreases pairs@.len() - i,
    {
        let (lbl, val) = pairs[i];
        let ghost cur = e1 + pair_entries(ps.take(i as int));
        let secret = is_secret_label(lbl);
        add_opt(f, lbl, val, if secret { Mask::Secret } else { Mask::Plain }, show, r, Ghost(cur));
        assert(ps.take(i + 1).drop_last() =~= ps.take(i as int));
        assert(ps.take(i + 1).last() == ps[i as int]);
        assert(cur + opt_ent(lbl@, *val, if secret { Mask::Secret } else { Mask::Plain })
            =~= e1 + pair_entries(ps.take(i + 1)));
        i = i + 1;
    }
    assert(ps.take(ps.len() as int) =~= ps);
    assert(e1 + pair_entries(ps) =~= es + identity_entries(Some(*id)));
}

/// The fields of the detail view of `item`. When `show` is set, the field at
/// `reveal_idx` is revealed; every other secret is masked.
pub fn build_detail_fields(item: &Item, show: bool, reveal_idx: usize) -> (r: Vec<DetailField>)
    ensures
        r@.len() == detail_entries(*item).len(),
        df_views(r@) == shown_all(detail_entries(*item), show, reveal_idx as int),
        forall|i: int| 0 <= i < r@.len() ==> target_of(#[trigger] r@[i].copy, detail_entries(*item)[i]),
{
    let mut f: Vec<DetailField> = Vec::new();
    let ghost e0 = Seq::<Entry>::empty();
    assert(df_views(f@) =~= shown_all(e0, show, reveal_idx as int));
    let ghost ne = ent("Name"@, item.name@, Mask::Plain, CopyWhat::Raw("Name"@));
    add_entry(&mut f, "Name", item.name.as_str(), Mask::Plain, show, reveal_idx, CopyTarget::Raw { value: item.name.clone(), label: owned("Name") }, Ghost(e0), Ghost(ne));
    let ghost te = ent("Type"@, type_label(item.item_type), Mask::Plain, CopyWhat::Nothing);
    add_entry(&mut f, "Type", item_type_label(item.item_type), Mask::Plain, show, reveal_idx, CopyTarget::Nothing, Ghost(e0.push(ne)), Ghost(te));
    let ghost e1 = e0.push(ne).push(te);
    if let Some(l) = &item.login {
        add_login(&mut f, l, show, reveal_idx, Ghost(e1));
    } else {
        assert(e1 + login_entries(item.login) =~= e1);
    }
    let ghost e2 = e1 + login_entries(item.login);
    if let Some(c) = &item.card {
        add_card(&mut f, c, show, reveal_idx, Ghost(e2));
    } else {
        assert(e2 + card_entries(item.card) =~= e2);
    }
    let ghost e3 = e2 + card_entries(item.card);
    if let Some(id) = &item.identity {
        add_identity(&mut f, id, show, reveal_idx, Ghost(e3));
    } else {
        assert(e3 + identity_entries(item.identity) =~= e3);
    }
    let ghost e4 = e3 + identity_entries(item.identity);
    let mut i: usize = 0;
    while i < item.fields.len()
        invariant
            i <= item.fields@.len(),
            tracks(f@, e4 + item.fields@.take(i as int).map_values(|x: Field| custom_entry(x)), show, reveal_idx as int),
        decreases item.fields@.len() - i,
    {
        let fd = &item.fields[i];
        let ghost cur = e4 + item.fields@.take(i as int).map_values(|x: Field| custom_entry(x));
        proof {
            reveal_strlit("");
            assert(""@ =~= no_chars());
        }
        let fname = as_str_or(&fd.name, "Field");
        let fvalue = as_str_or(&fd.value, "");
        add_entry(
            &mut f,
            fname,
            fvalue,
            if fd.field_type == 1 { Mask::Secret } else { Mask::Plain },
            show,
            reveal_idx,
            CopyTarget::Raw { value: owned(fvalue), label: owned(fname) },
            Ghost(cur),
            Ghost(custom_entry(*fd)),
        );
        assert(cur.push(custom_entry(*fd)) =~= e4 + item.fields@.take(i + 1).map_values(|x: Field| custom_entry(x)));
        i = i + 1;
    }
    assert(item.fields@.take(item.fields@.len() as int) =~= item.fields@);
    let ghost e5 = e4 + item.fields@.map_values(|x: Field| custom_entry(x));
    add_opt(&mut f, "Notes", &item.notes, Mask::Plain, show, reveal_idx, Ghost(e5));
    assert(e5 + opt_ent("Notes"@, item.notes, Mask::Plain) =~= detail_entries(*item));
    f
}

/// How many fields the detail view lists and navigates over: every one.
pub open spec fn detail_count(item: Item) -> int {
    detail_entries(item).len() as int
}

/// The number of fields the detail view of `item` navigates over.
pub fn detail_count_of(item: &Item) -> (n: usize)
    ensures
        n == detail_count(*item),
{
    build_detail_fields(item, false, 0).len()
}


/// A read-only field (the item's type) keeps its value whatever key is
/// pressed on it.
pub proof fn law_read_only_value_kept(b: EditField, a: EditField, k: FieldKey)
    requires
        b.read_only,
        key_effect(b, a, k),
    ensures
        a.value@ == b.value@,
        a.read_only,
{
}


proof fn lemma_contains_left(a: Seq<char>, b: Seq<char>, p: Seq<char>)
    requires
        crate::text::contains(a, p),
    ensures
        crate::text::contains(a + b, p),
{
    let i = choose|i: int| crate::text::occurs_at(a, p, i);
    assert((a + b).subrange(i, i + p.len()) =~= a.subrange(i, i + p.len()));
    assert(crate::text::occurs_at(a + b, p, i));
}

proof fn lemma_contains_end(a: Seq<char>, p: Seq<char>)
    ensures
        crate::text::contains(a + p, p),
{
    assert((a + p).subrange(a.len() as int, (a.len() + p.len()) as int) =~= p);
    assert(crate::text::occurs_at(a + p, p, a.len() as int));
}

/// Joining keeps every non-empty part, and ends with the last part when it
/// is not empty.
proof fn lemma_join_keeps_parts(parts: Seq<Seq<char>>)
    ensures
        forall|i: int| 0 <= i < parts.len() && parts[i].len() > 0 ==> crate::text::contains(
            join_nonempty(parts),
            #[trigger] parts[i],
        ),
        parts.len() > 0 && parts.last().len() > 0 ==> {
            let j = join_nonempty(parts);
            j.len() >= parts.last().len() && j.skip(j.len() - parts.last().len()) == parts.last()
        },
    decreases parts.len(),
{
    if parts.len() > 0 {
        let init = parts.drop_last();
        let w = parts.last();
        let j = join_nonempty(init);
        lemma_join_keeps_parts(init);
        assert forall|i: int| 0 <= i < parts.len() && parts[i].len() > 0 implies crate::text::contains(
            join_nonempty(parts),
            #[trigger] parts[i],
        ) by {
            if i == parts.len() - 1 {
                if j.len() == 0 {
                    assert(Seq::<char>::empty() + w =~= w);
                    lemma_contains_end(Seq::empty(), w);
                } else {
                    lemma_contains_end(j + seq![' '], w);
                }
            } else {
                assert(init[i] == parts[i]);
                if w.len() > 0 && j.len() > 0 {
                    lemma_contains_left(j, seq![' '] + w, parts[i]);
                    assert(j + seq![' '] + w =~= j + (seq![' '] + w));
                }
            }
        }
        if w.len() > 0 {
            let r = join_nonempty(parts);
            if j.len() > 0 {
                assert(r.skip(r.len() - w.len()) =~= w);
            } else {
                assert(r.skip(0) =~= w);
            }
        }
    }
}

/// An identity's detail view shows, right after the login and card fields,
/// a "Full Name" field holding every non-empty part of the name (title,
/// first, middle and last name) and ending with the last name when there
/// is one; it is listed when any part is not empty.
pub proof fn law_full_name_shown(item: Item, id: IdentityData, show: bool, r: int)
    requires
        item.identity == Some(id),
        or_default(id.title, no_chars()).len() > 0 || or_default(id.first_name, no_chars()).len() > 0
            || or_default(id.middle_name, no_chars()).len() > 0 || or_default(id.last_name, no_chars()).len() > 0,
    ensures
        ({
            let j = (2 + login_entries(item.login).len() + card_entries(item.card).len()) as int;
            let d = shown_all(detail_entries(item), show, r);
            let v = d[j].1;
            &&& j < d.len()
            &&& d[j].0 == "Full Name"@
            &&& (or_default(id.title, no_chars()).len() > 0 ==> crate::text::contains(v, or_default(id.title, no_chars())))
            &&& (or_default(id.first_name, no_chars()).len() > 0 ==> crate::text::contains(v, or_default(id.first_name, no_chars())))
            &&& (or_default(id.middle_name, no_chars()).len() > 0 ==> crate::text::contains(v, or_default(id.middle_name, no_chars())))
            &&& (or_default(id.last_name, no_chars()).len() > 0 ==> {
                &&& crate::text::contains(v, or_default(id.last_name, no_chars()))
                &&& v.skip(v.len() - or_default(id.last_name, no_chars()).len()) == or_default(id.last_name, no_chars())
            })
        }),
{
    let parts = seq![
        or_default(id.title, no_chars()),
        or_default(id.first_name, no_chars()),
        or_default(id.middle_name, no_chars()),
        or_default(id.last_name, no_chars()),
    ];
    lemma_join_keeps_parts(parts);
    let name = identity_full_name(id);
    assert(name == join_nonempty(parts));
    let k: int = if parts[0].len() > 0 { 0 } else if parts[1].len() > 0 { 1 } else if parts[2].len() > 0 { 2 } else { 3 };
    assert(crate::text::contains(name, parts[k]));
    assert(name.len() > 0);
    let head = seq![
        ent("Name"@, item.name@, Mask::Plain, CopyWhat::Raw("Name"@)),
        ent("Type"@, type_label(item.item_type), Mask::Plain, CopyWhat::Nothing),
    ] + login_entries(item.login) + card_entries(item.card);
    let es = detail_entries(item);
    let j = (2 + login_entries(item.login).len() + card_entries(item.card).len()) as int;
    assert(head.len() == j);
    assert(es[j] == ent("Full Name"@, name, Mask::Plain, CopyWhat::Raw("Name"@)));
}

} // verus!
