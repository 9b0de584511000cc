//! The vault data model: the items that `bw list items` returns, and the
//! session state that `bw status` reports.
use vstd::prelude::*;

verus! {

/// A vault item. `item_type`: 1 = Login, 2 = Secure Note, 3 = Card,
/// 4 = Identity, 5 = SSH Key.
#[derive(Debug, Clone)]
pub struct Item {
    pub id: String,
    pub name: String,
    pub item_type: u8,
    pub login: Option<LoginData>,
    pub card: Option<CardData>,
    pub identity: Option<IdentityData>,
    pub notes: Option<String>,
    pub folder_id: Option<String>,
    pub favorite: bool,
    pub fields: Vec<Field>,
}

#[derive(Debug, Clone)]
pub struct LoginData {
    pub username: Option<String>,
    pub password: Option<String>,
    pub uris: Option<Vec<UriData>>,
    pub totp: Option<String>,
}

#[derive(Debug, Clone)]
pub struct UriData {
    pub uri: Option<String>,
}

/// Custom field — type: 0 = text, 1 = hidden, 2 = boolean, 3 = linked.
#[derive(Debug, Clone)]
pub struct Field {
    pub name: Option<String>,
    pub value: Option<String>,
    pub field_type: u8,
}

#[derive(Debug, Clone)]
pub struct CardData {
    pub cardholder_name: Option<String>,
    pub brand: Option<String>,
    pub number: Option<String>,
    pub exp_month: Option<String>,
    pub exp_year: Option<String>,
    /// The card's security code (CVV).
    pub code: Option<String>,
}

#[derive(Debug, Clone)]
pub struct IdentityData {
    pub title: Option<String>,
    pub first_name: Option<String>,
    pub middle_name: Option<String>,
    pub last_name: Option<String>,
    pub email: Option<String>,
    pub phone: Option<String>,
    pub company: Option<String>,
    pub ssn: Option<String>,
    pub passport: Option<String>,
    pub license: Option<String>,
    pub address1: Option<String>,
    pub address2: Option<String>,
    pub city: Option<String>,
    pub state: Option<String>,
    pub postal_code: Option<String>,
    pub country: Option<String>,
}

/// What `bw status` says of the local vault.
#[derive(Debug, Clone, PartialEq, Eq, Structural)]
pub enum VaultStatus {
    Unlocked,
    Locked,
    Unauthenticated,
}

#[derive(Debug, Clone)]
pub struct BwStatusInfo {
    pub status: VaultStatus,
    pub user_email: Option<String>,
    pub last_sync: Option<String>,
    pub server_url: Option<String>,
}

/// The display name of an item type number.
pub open spec fn type_label(t: u8) -> Seq<char> {
    if t == 1 {
        "Login"@
    } else if t == 2 {
        "Secure Note"@
    } else if t == 3 {
        "Card"@
    } else if t == 4 {
        "Identity"@
    } else if t == 5 {
        "SSH Key"@
    } else {
        "Other"@
    }
}

/// The display name of an item type number.
pub fn item_type_label(t: u8) -> (r: &'static str)
    ensures
        r@ == type_label(t),
{
    match t {
        1 => "Login",
        2 => "Secure Note",
        3 => "Card",
        4 => "Identity",
        5 => "SSH Key",
        _ => "Other",
    }
}

/// The character view of an optional string.
pub open spec fn opt_view(o: Option<String>) -> Option<Seq<char>> {
    match o {
        Some(s) => Some(s@),
        None => None,
    }
}

/// An optional string's characters, or `d` when it is absent.
pub open spec fn or_default(o: Option<String>, d: Seq<char>) -> Seq<char> {
    match o {
        Some(s) => s@,
        None => d,
    }
}

/// The string is present and not empty.
pub open spec fn present(o: Option<String>) -> bool {
    o is Some && o->0@.len() > 0
}

/// A copy of an optional string.
pub fn clone_opt(o: &Option<String>) -> (r: Option<String>)
    ensures
        r == *o,
{
    match o {
        Some(s) => Some(s.clone()),
        None => None,
    }
}

/// The characters of an optional string, or of `d` when it is absent.
pub fn as_str_or<'a>(o: &'a Option<String>, d: &'a str) -> (r: &'a str)
    ensures
        r@ == or_default(*o, d@),
{
    match o {
        Some(s) => s.as_str(),
        None => d,
    }
}

/// Whether an optional string is present and not empty.
pub fn is_present(o: &Option<String>) -> (r: bool)
    ensures
        r == present(*o),
{
    match o {
        Some(s) => !s.as_str().is_empty(),
        None => false,
    }
}

} // verus!
