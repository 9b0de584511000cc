//! Listing the vault: the item-type filters, the fuzzy search score, the
//! alphabetical order of the items, and the filtered, ranked list.
use vstd::prelude::*;
use crate::text::{
    lowercase, to_lowercase, to_chars, contains, starts_with, contains_exec,
    starts_with_exec, is_subseq_exec, seq_le,
};
use crate::model::{Item, LoginData, UriData};

verus! {

/// The entries of the Items panel.
#[derive(Debug, Clone, PartialEq, Eq, Structural)]
pub enum ItemFilter {
    All,
    Favorites,
    Login,
    Card,
    Identity,
    SecureNote,
    SshKey,
}

pub open spec fn filter_label(f: ItemFilter) -> Seq<char> {
    match f {
        ItemFilter::All => "All Items"@,
        ItemFilter::Favorites => "★ Favorites"@,
        ItemFilter::Login => "Login"@,
        ItemFilter::Card => "Card"@,
        ItemFilter::Identity => "Identity"@,
        ItemFilter::SecureNote => "Secure Note"@,
        ItemFilter::SshKey => "SSH Key"@,
    }
}

/// The item type number a filter selects, if it selects by type.
pub open spec fn filter_type(f: ItemFilter) -> Option<u8> {
    match f {
        ItemFilter::Login => Some(1u8),
        ItemFilter::SecureNote => Some(2u8),
        ItemFilter::Card => Some(3u8),
        ItemFilter::Identity => Some(4u8),
        ItemFilter::SshKey => Some(5u8),
        _ => None,
    }
}

impl ItemFilter {
    /// The filter's display name.
    pub fn label(&self) -> (r: &'static str)
        ensures
            r@ == filter_label(*self),
    {
        match self {
            ItemFilter::All => "All Items",
            ItemFilter::Favorites => "★ Favorites",
            ItemFilter::Login => "Login",
            ItemFilter::Card => "Card",
            ItemFilter::Identity => "Identity",
            ItemFilter::SecureNote => "Secure Note",
            ItemFilter::SshKey => "SSH Key",
        }
    }

    /// The item type number the filter selects, if it selects by type.
    pub fn type_id(&self) -> (r: Option<u8>)
        ensures
            r == filter_type(*self),
    {
        match self {
            ItemFilter::Login => Some(1),
            ItemFilter::SecureNote => Some(2),
            ItemFilter::Card => Some(3),
            ItemFilter::Identity => Some(4),
            ItemFilter::SshKey => Some(5),
            _ => None,
        }
    }
}

/// A filter that selects by type is named like the type it selects.
pub proof fn law_filter_label_is_type_label(f: ItemFilter)
    requires
        filter_type(f) is Some,
    ensures
        filter_label(f) == crate::model::type_label(filter_type(f)->0),
{
}

/// How many entries the Items panel has.
pub const ITEM_FILTER_COUNT: usize = 7;

/// The Items panel's entries, in order.
pub open spec fn filter_at(i: int) -> ItemFilter {
    if i == 0 {
        ItemFilter::All
    } else if i == 1 {
        ItemFilter::Favorites
    } else if i == 2 {
        ItemFilter::Login
    } else if i == 3 {
        ItemFilter::Card
    } else if i == 4 {
        ItemFilter::Identity
    } else if i == 5 {
        ItemFilter::SecureNote
    } else {
        ItemFilter::SshKey
    }
}

/// The entry at position `i` of the Items panel.
pub fn item_filter(i: usize) -> (r: ItemFilter)
    requires
        i < ITEM_FILTER_COUNT,
    ensures
        r == filter_at(i as int),
{
    match i {
        0 => ItemFilter::All,
        1 => ItemFilter::Favorites,
        2 => ItemFilter::Login,
        3 => ItemFilter::Card,
        4 => ItemFilter::Identity,
        5 => ItemFilter::SecureNote,
        _ => ItemFilter::SshKey,
    }
}

/// The item passes the filter.
pub open spec fn passes(f: ItemFilter, item: Item) -> bool {
    match f {
        ItemFilter::All => true,
        ItemFilter::Favorites => item.favorite,
        _ => filter_type(f) == Some(item.item_type),
    }
}

pub fn passes_exec(f: &ItemFilter, item: &Item) -> (r: bool)
    ensures
        r == passes(*f, *item),
{
    match f {
        ItemFilter::All => true,
        ItemFilter::Favorites => item.favorite,
        _ => match f.type_id() {
            Some(t) => t == item.item_type,
            None => false,
        },
    }
}

/// How many of `items` pass the filter.
pub open spec fn count_passing(f: ItemFilter, items: Seq<Item>) -> nat
    decreases items.len(),
{
    if items.len() == 0 {
        0
    } else {
        count_passing(f, items.drop_last()) + if passes(f, items.last()) {
            1nat
        } else {
            0nat
        }
    }
}

proof fn lemma_count_le(f: ItemFilter, items: Seq<Item>)
    ensures
        count_passing(f, items) <= items.len(),
    decreases items.len(),
{
    if items.len() > 0 {
        lemma_count_le(f, items.drop_last());
    }
}

/// How many of `items` pass the filter.
pub fn count_items(f: &ItemFilter, items: &Vec<Item>) -> (n: usize)
    ensures
        n == count_passing(*f, items@),
{
    let mut n: usize = 0;
    let mut i: usize = 0;
    while i < items.len()
        invariant
            i <= items@.len(),
            n == count_passing(*f, items@.take(i as int)),
        decreases items@.len() - i,
    {
        proof {
            assert(items@.take(i + 1).drop_last() =~= items@.take(i as int));
            lemma_count_le(*f, items@.take(i as int));
        }
        if passes_exec(f, &items[i]) {
            n = n + 1;
        }
        i = i + 1;
    }
    assert(items@.take(items@.len() as int) =~= items@);
    n
}

// ── Fuzzy score ───────────────────────────────────────────────────────────

/// Whether the characters of `needle` occur in `haystack` in order, each
/// found after the previous one.
pub fn is_subseq(needle: &str, haystack: &str) -> (r: bool)
    ensures
        r == crate::text::is_subseq(needle@, haystack@),
{
    is_subseq_exec(&to_chars(needle), &to_chars(haystack))
}

/// Search points from the name: 100 when it contains the query (20 more when
/// it starts with it), else 50 when the query's characters occur in it in order.
pub open spec fn name_points(name: Seq<char>, q: Seq<char>) -> int {
    if contains(name, q) {
        100 + if starts_with(name, q) { 20int } else { 0int }
    } else if crate::text::is_subseq(q, name) {
        50
    } else {
        0
    }
}

/// Search points from a username: 30 when it contains the query, else 10
/// when the query's characters occur in it in order.
pub open spec fn user_points(u: Seq<char>, q: Seq<char>) -> int {
    if contains(u, q) {
        30
    } else if crate::text::is_subseq(q, u) {
        10
    } else {
        0
    }
}

/// Some URI among `us` contains the query.
pub open spec fn some_uri_matches(us: Seq<UriData>, q: Seq<char>) -> bool {
    exists|i: int|
        0 <= i < us.len() && (#[trigger] us[i]).uri is Some && contains(
            lowercase(us[i].uri->0@),
            q,
        )
}

pub open spec fn login_points(l: Option<LoginData>, q: Seq<char>) -> int {
    match l {
        None => 0,
        Some(l) => (match l.username {
            Some(u) => user_points(lowercase(u@), q),
            None => 0,
        }) + match l.uris {
            Some(v) => if some_uri_matches(v@, q) {
                10int
            } else {
                0int
            },
            None => 0,
        },
    }
}

/// The search score of `item` for the lowercase query `q`: points from the
/// name, the username, the URIs (10 if any matches) and the notes (5).
pub open spec fn score(item: Item, q: Seq<char>) -> int {
    name_points(lowercase(item.name@), q) + login_points(item.login, q) + match item.notes {
        Some(n) => if contains(lowercase(n@), q) {
            5int
        } else {
            0int
        },
        None => 0,
    }
}

fn uris_match(us: &Vec<UriData>, q: &[char]) -> (r: bool)
    ensures
        r == some_uri_matches(us@, q@),
{
    let mut i: usize = 0;
    while i < us.len()
        invariant
            i <= us@.len(),
            forall|k: int|
                0 <= k < i ==> !((#[trigger] us@[k]).uri is Some && contains(
                    lowercase(us@[k].uri->0@),
                    q@,
                )),
        decreases us@.len() - i,
    {
        if let Some(u) = &us[i].uri {
            let lu = to_chars(to_lowercase(u.as_str()).as_str());
            if contains_exec(&lu, q) {
                return true;
            }
        }
        i = i + 1;
    }
    false
}

/// The search score of `item` for the lowercase query `query`.
pub fn fuzzy_score(item: &Item, query: &str) -> (s: i32)
    ensures
        s == score(*item, query@),
        0 <= s <= 165,
{
    let q = to_chars(query);
    let name = to_chars(to_lowercase(item.name.as_str()).as_str());
    let mut s: i32 = 0;
    if contains_exec(&name, &q) {
        s = s + 100;
        if starts_with_exec(&name, &q) {
            s = s + 20;
        }
    } else if is_subseq_exec(&q, &name) {
        s = s + 50;
    }
    if let Some(login) = &item.login {
        if let Some(u) = &login.username {
            let lu = to_chars(to_lowercase(u.as_str()).as_str());
            if contains_exec(&lu, &q) {
                s = s + 30;
            } else if is_subseq_exec(&q, &lu) {
                s = s + 10;
            }
        }
        if let Some(us) = &login.uris {
            if uris_match(us, &q) {
                s = s + 10;
            }
        }
    }
    if let Some(notes) = &item.notes {
        let ln = to_chars(to_lowercase(notes.as_str()).as_str());
        if contains_exec(&ln, &q) {
            s = s + 5;
        }
    }
    s
}

// ── Alphabetical order ────────────────────────────────────────────────────

/// The sort key of an item: its name in lowercase.
pub open spec fn name_key(it: Item) -> Seq<char> {
    lowercase(it.name@)
}

/// `x` placed into `s` after every element whose key is not greater than its own,
/// scanning from the end (the insertion step of a stable sort).
pub open spec fn insert_by_name(s: Seq<Item>, x: Item) -> Seq<Item>
    decreases s.len(),
{
    if s.len() == 0 {
        seq![x]
    } else if seq_le(name_key(s.last()), name_key(x)) {
        s.push(x)
    } else {
        insert_by_name(s.drop_last(), x).push(s.last())
    }
}

/// The items in alphabetical order of their lowercase names; items with equal
/// keys keep their relative order (a stable sort).
pub open spec fn sorted_by_name(s: Seq<Item>) -> Seq<Item>
    decreases s.len(),
{
    if s.len() == 0 {
        s
    } else {
        insert_by_name(sorted_by_name(s.drop_last()), s.last())
    }
}

proof fn lemma_seq_le_skip(a: Seq<char>, b: Seq<char>, i: int)
    requires
        0 <= i <= a.len(),
        i <= b.len(),
        a.take(i) == b.take(i),
    ensures
        seq_le(a, b) == seq_le(a.skip(i), b.skip(i)),
    decreases i,
{
    if i > 0 {
        assert(a[0] == a.take(i)[0]);
        assert(b[0] == b.take(i)[0]);
        assert(a.drop_first().take(i - 1) =~= a.take(i).drop_first());
        assert(b.drop_first().take(i - 1) =~= b.take(i).drop_first());
        lemma_seq_le_skip(a.drop_first(), b.drop_first(), i - 1);
        assert(a.drop_first().skip(i - 1) =~= a.skip(i));
        assert(b.drop_first().skip(i - 1) =~= b.skip(i));
    } else {
        assert(a.skip(0) =~= a);
        assert(b.skip(0) =~= b);
    }
}

/// Lexicographic comparison of code points: `a <= b`.
pub fn chars_le(a: &[char], b: &[char]) -> (r: bool)
    ensures
        r == seq_le(a@, b@),
{
    let mut i: usize = 0;
    while i < a.len() && i < b.len() && a[i] == b[i]
        invariant
            i <= a@.len(),
            i <= b@.len(),
            a@.take(i as int) == b@.take(i as int),
        decreases a@.len() - i,
    {
        assert(a@.take(i + 1) =~= a@.take(i as int).push(a@[i as int]));
        assert(b@.take(i + 1) =~= b@.take(i as int).push(b@[i as int]));
        i = i + 1;
    }
    proof {
        lemma_seq_le_skip(a@, b@, i as int);
    }
    if i == a.len() {
        true
    } else if i == b.len() {
        false
    } else {
        (a[i] as u32) < (b[i] as u32)
    }
}

proof fn lemma_insert_by_name_at(s: Seq<Item>, x: Item, j: int)
    requires
        0 <= j <= s.len(),
        forall|k: int| j <= k < s.len() ==> !seq_le(name_key(#[trigger] s[k]), name_key(x)),
        j == 0 || seq_le(name_key(s[j - 1]), name_key(x)),
    ensures
        insert_by_name(s, x) == s.take(j) + seq![x] + s.skip(j),
    decreases s.len(),
{
    if s.len() == 0 {
        assert(s.take(j) + seq![x] + s.skip(j) =~= seq![x]);
    } else if j == s.len() {
        assert(s.take(j) + seq![x] + s.skip(j) =~= s.push(x));
    } else {
        let t = s.drop_last();
        assert(forall|k: int| j <= k < t.len() ==> t[k] == s[k]);
        lemma_insert_by_name_at(t, x, j);
        assert(t.take(j) + seq![x] + t.skip(j) + seq![s.last()] =~= s.take(j) + seq![x] + s.skip(j));
    }
}

/// Sorts `items` alphabetically by lowercase name, keeping the relative order
/// of items whose lowercase names are equal.
pub fn sort_by_name(items: Vec<Item>) -> (r: Vec<Item>)
    ensures
        r@ == sorted_by_name(items@),
{
    let mut src = items;
    let ghost orig = src@;
    let n0 = src.len();
    assert(orig.len() <= usize::MAX);
    // reverse, so that popping yields the items in their original order
    let mut rev: Vec<Item> = Vec::new();
    while src.len() > 0
        invariant
            orig.len() == src@.len() + rev@.len(),
            orig.len() <= usize::MAX,
            src@ == orig.take(src@.len() as int),
            forall|k: int| 0 <= k < rev@.len() ==> #[trigger] rev@[k] == orig[orig.len() - 1 - k],
        decreases src@.len(),
    {
        let x = src.pop().unwrap();
        rev.push(x);
        assert(src@ =~= orig.take(src@.len() as int));
    }
    let mut out: Vec<Item> = Vec::new();
    let mut keys: Vec<Vec<char>> = Vec::new();
    let mut done: usize = 0;
    assert(orig.take(0) =~= Seq::<Item>::empty());
    while rev.len() > 0
        invariant
            orig.len() == done + rev@.len(),
            orig.len() <= usize::MAX,
            forall|k: int| 0 <= k < rev@.len() ==> #[trigger] rev@[k] == orig[orig.len() - 1 - k],
            out@ == sorted_by_name(orig.take(done as int)),
            keys@.len() == out@.len(),
            forall|k: int| 0 <= k < keys@.len() ==> (#[trigger] keys@[k])@ == name_key(out@[k]),
        decreases rev@.len(),
    {
        let x = rev.pop().unwrap();
        assert(x == orig[done as int]);
        let kx = to_chars(to_lowercase(x.name.as_str()).as_str());
        let mut j: usize = out.len();
        while j > 0 && !chars_le(&keys[j - 1], &kx)
            invariant
                j <= out@.len(),
                keys@.len() == out@.len(),
                forall|k: int| 0 <= k < keys@.len() ==> (#[trigger] keys@[k])@ == name_key(out@[k]),
                kx@ == name_key(x),
                forall|k: int| j <= k < out@.len() ==> !seq_le(name_key(#[trigger] out@[k]), name_key(x)),
            decreases j,
        {
            j = j - 1;
        }
        proof {
            lemma_insert_by_name_at(out@, x, j as int);
            assert(orig.take(done + 1).drop_last() =~= orig.take(done as int));
        }
        let ghost out0 = out@;
        let ghost keys0 = keys@;
        out.insert(j, x);
        keys.insert(j, kx);
        assert(out@ =~= out0.take(j as int) + seq![x] + out0.skip(j as int));
        assert forall|k: int| 0 <= k < keys@.len() implies (#[trigger] keys@[k])@ == name_key(out@[k]) by {
            if k < j {
                assert(keys@[k] == keys0[k]);
            } else if k > j {
                assert(keys@[k] == keys0[k - 1]);
            }
        }
        done = done + 1;
    }
    assert(orig.take(orig.len() as int) =~= orig);
    out
}

// ── Ranked search results ─────────────────────────────────────────────────

/// `x` placed into `s` after every element scoring at least as much
/// (the insertion step of a stable sort by descending score).
pub open spec fn insert_by_score(s: Seq<(int, usize)>, x: (int, usize)) -> Seq<(int, usize)>
    decreases s.len(),
{
    if s.len() == 0 {
        seq![x]
    } else if s.last().0 >= x.0 {
        s.push(x)
    } else {
        insert_by_score(s.drop_last(), x).push(s.last())
    }
}

/// The scored entries by descending score; equal scores keep their order.
pub open spec fn sorted_by_score(s: Seq<(int, usize)>) -> Seq<(int, usize)>
    decreases s.len(),
{
    if s.len() == 0 {
        s
    } else {
        insert_by_score(sorted_by_score(s.drop_last()), s.last())
    }
}

/// The positions, in order, of the items that pass the filter.
pub open spec fn passing_indices(f: ItemFilter, items: Seq<Item>) -> Seq<usize>
    decreases items.len(),
{
    if items.len() == 0 {
        Seq::empty()
    } else {
        passing_indices(f, items.drop_last()) + if passes(f, items.last()) {
            seq![(items.len() - 1) as usize]
        } else {
            Seq::empty()
        }
    }
}

/// The entries `(score, position)` of the positions whose item scores above zero.
pub open spec fn scored(items: Seq<Item>, idx: Seq<usize>, q: Seq<char>) -> Seq<(int, usize)>
    decreases idx.len(),
{
    if idx.len() == 0 {
        Seq::empty()
    } else {
        scored(items, idx.drop_last(), q) + if score(items[idx.last() as int], q) > 0 {
            seq![(score(items[idx.last() as int], q), idx.last())]
        } else {
            Seq::empty()
        }
    }
}

/// The positions of the items listed for a filter and search query: with no
/// query, every item that passes the filter, in order; otherwise those of them
/// that score above zero for the lowercased query, best first, ties in order.
pub open spec fn listed(items: Seq<Item>, f: ItemFilter, query: Seq<char>) -> Seq<usize> {
    if query.len() == 0 {
        passing_indices(f, items)
    } else {
        sorted_by_score(scored(items, passing_indices(f, items), lowercase(query))).map_values(
            |p: (int, usize)| p.1,
        )
    }
}

proof fn lemma_insert_by_score_at(s: Seq<(int, usize)>, x: (int, usize), j: int)
    requires
        0 <= j <= s.len(),
        forall|k: int| j <= k < s.len() ==> (#[trigger] s[k]).0 < x.0,
        j == 0 || s[j - 1].0 >= x.0,
    ensures
        insert_by_score(s, x) == s.take(j) + seq![x] + s.skip(j),
    decreases s.len(),
{
    if s.len() == 0 {
        assert(s.take(j) + seq![x] + s.skip(j) =~= seq![x]);
    } else if j == s.len() {
        assert(s.take(j) + seq![x] + s.skip(j) =~= s.push(x));
    } else {
        let t = s.drop_last();
        assert(forall|k: int| j <= k < t.len() ==> t[k] == s[k]);
        lemma_insert_by_score_at(t, x, j);
        assert(t.take(j) + seq![x] + t.skip(j) + seq![s.last()] =~= s.take(j) + seq![x] + s.skip(j));
    }
}

proof fn lemma_passing_bounded(f: ItemFilter, items: Seq<Item>)
    ensures
        forall|k: int| 0 <= k < passing_indices(f, items).len() ==> #[trigger] passing_indices(f, items)[k] < items.len(),
        passing_indices(f, items).len() <= items.len(),
    decreases items.len(),
{
    if items.len() > 0 {
        lemma_passing_bounded(f, items.drop_last());
    }
}

/// The positions of the items that pass the filter, in order.
pub fn passing_positions(f: &ItemFilter, items: &Vec<Item>) -> (r: Vec<usize>)
    ensures
        r@ == passing_indices(*f, items@),
        forall|k: int| 0 <= k < r@.len() ==> #[trigger] r@[k] < items@.len(),
{
    let mut r: Vec<usize> = Vec::new();
    let mut i: usize = 0;
    while i < items.len()
        invariant
            i <= items@.len(),
            r@ == passing_indices(*f, items@.take(i as int)),
        decreases items@.len() - i,
    {
        assert(items@.take(i + 1).drop_last() =~= items@.take(i as int));
        if passes_exec(f, &items[i]) {
            r.push(i);
        }
        i = i + 1;
        assert(r@ =~= passing_indices(*f, items@.take(i as int)));
    }
    assert(items@.take(items@.len() as int) =~= items@);
    proof {
        lemma_passing_bounded(*f, items@);
    }
    r
}

/// The positions of the items listed for the filter and search query, best
/// match first (see `listed`).
pub fn listed_positions(items: &Vec<Item>, f: &ItemFilter, query: &str) -> (r: Vec<usize>)
    ensures
        r@ == listed(items@, *f, query@),
        forall|k: int| 0 <= k < r@.len() ==> #[trigger] r@[k] < items@.len(),
{
    let base = passing_positions(f, items);
    if query.is_empty() {
        return base;
    }
    let lq = to_lowercase(query);
    let ghost q = lq@;
    // scored entries, in order
    let mut sc: Vec<(i32, usize)> = Vec::new();
    let mut i: usize = 0;
    while i < base.len()
        invariant
            i <= base@.len(),
            q == lq@,
            forall|k: int| 0 <= k < base@.len() ==> #[trigger] base@[k] < items@.len(),
            sc@.map_values(|p: (i32, usize)| (p.0 as int, p.1)) == scored(items@, base@.take(i as int), q),
            forall|k: int| 0 <= k < sc@.len() ==> (#[trigger] sc@[k]).1 < items@.len(),
        decreases base@.len() - i,
    {
        let ix = base[i];
        let s = fuzzy_score(&items[ix], lq.as_str());
        assert(base@.take(i + 1).drop_last() =~= base@.take(i as int));
        let ghost sc0 = sc@;
        if s > 0 {
            sc.push((s, ix));
        }
        i = i + 1;
        assert(sc@.map_values(|p: (i32, usize)| (p.0 as int, p.1)) =~= scored(items@, base@.take(i as int), q));
    }
    assert(base@.take(base@.len() as int) =~= base@);
    let ghost all = scored(items@, base@, q);
    // stable insertion by descending score
    let mut out: Vec<(i32, usize)> = Vec::new();
    let mut done: usize = 0;
    assert(all.take(0) =~= Seq::<(int, usize)>::empty());
    while done < sc.len()
        invariant
            done <= sc@.len(),
            sc@.map_values(|p: (i32, usize)| (p.0 as int, p.1)) == all,
            out@.map_values(|p: (i32, usize)| (p.0 as int, p.1)) == sorted_by_score(all.take(done as int)),
            forall|k: int| 0 <= k < sc@.len() ==> (#[trigger] sc@[k]).1 < items@.len(),
            forall|k: int| 0 <= k < out@.len() ==> (#[trigger] out@[k]).1 < items@.len(),
        decreases sc@.len() - done,
    {
        let x = sc[done];
        let ghost xs = (x.0 as int, x.1);
        assert(all[done as int] == xs);
        let ghost om = out@.map_values(|p: (i32, usize)| (p.0 as int, p.1));
        let mut j: usize = out.len();
        while j > 0 && out[j - 1].0 < x.0
            invariant
                j <= out@.len(),
                om == out@.map_values(|p: (i32, usize)| (p.0 as int, p.1)),
                forall|k: int| j <= k < out@.len() ==> (#[trigger] out@[k]).0 < x.0,
            decreases j,
        {
            j = j - 1;
        }
        proof {
            assert forall|k: int| j <= k < om.len() implies (#[trigger] om[k]).0 < xs.0 by {
                assert(om[k] == (out@[k].0 as int, out@[k].1));
            }
            if j > 0 {
                assert(om[j - 1] == (out@[j - 1].0 as int, out@[j - 1].1));
            }
            lemma_insert_by_score_at(om, xs, j as int);
            assert(all.take(done + 1).drop_last() =~= all.take(done as int));
        }
        let ghost out0 = out@;
        out.insert(j, x);
        assert(out@ =~= out0.take(j as int) + seq![x] + out0.skip(j as int));
        assert(out@.map_values(|p: (i32, usize)| (p.0 as int, p.1)) =~= om.take(j as int) + seq![xs] + om.skip(j as int));
        done = done + 1;
    }
    assert(all.take(done as int) =~= all);
    let mut r: Vec<usize> = Vec::new();
    let mut k: usize = 0;
    while k < out.len()
        invariant
            k <= out@.len(),
            r@ == out@.take(k as int).map_values(|p: (i32, usize)| p.1),
            forall|m: int| 0 <= m < out@.len() ==> (#[trigger] out@[m]).1 < items@.len(),
        decreases out@.len() - k,
    {
        r.push(out[k].1);
        k = k + 1;
        assert(r@ =~= out@.take(k as int).map_values(|p: (i32, usize)| p.1));
    }
    assert(out@.take(out@.len() as int) =~= out@);
    assert(r@ =~= sorted_by_score(all).map_values(|p: (int, usize)| p.1));
    r
}

proof fn lemma_insert_by_score_len(s: Seq<(int, usize)>, x: (int, usize))
    ensures
        insert_by_score(s, x).len() == s.len() + 1,
    decreases s.len(),
{
    if s.len() > 0 && s.last().0 < x.0 {
        lemma_insert_by_score_len(s.drop_last(), x);
    }
}

proof fn lemma_sorted_by_score_len(s: Seq<(int, usize)>)
    ensures
        sorted_by_score(s).len() == s.len(),
    decreases s.len(),
{
    if s.len() > 0 {
        lemma_sorted_by_score_len(s.drop_last());
        lemma_insert_by_score_len(sorted_by_score(s.drop_last()), s.last());
    }
}

proof fn lemma_scored_len(items: Seq<Item>, idx: Seq<usize>, q: Seq<char>)
    ensures
        scored(items, idx, q).len() <= idx.len(),
    decreases idx.len(),
{
    if idx.len() > 0 {
        lemma_scored_len(items, idx.drop_last(), q);
    }
}

/// At most all items are listed.
pub proof fn lemma_listed_len(items: Seq<Item>, f: ItemFilter, query: Seq<char>)
    ensures
        listed(items, f, query).len() <= items.len(),
{
    lemma_passing_bounded(f, items);
    let q = lowercase(query);
    lemma_scored_len(items, passing_indices(f, items), q);
    lemma_sorted_by_score_len(scored(items, passing_indices(f, items), q));
}


// ── Laws of the listing ───────────────────────────────────────────────────

proof fn lemma_passing_pass(f: ItemFilter, items: Seq<Item>)
    requires
        items.len() <= usize::MAX,
    ensures
        forall|k: int| 0 <= k < passing_indices(f, items).len() ==> {
            &&& (#[trigger] passing_indices(f, items)[k]) < items.len()
            &&& passes(f, items[passing_indices(f, items)[k] as int])
        },
    decreases items.len(),
{
    if items.len() > 0 {
        let init = items.drop_last();
        lemma_passing_pass(f, init);
        let p = passing_indices(f, init);
        let tail = if passes(f, items.last()) { seq![(items.len() - 1) as usize] } else { Seq::empty() };
        assert forall|k: int| 0 <= k < (p + tail).len() implies {
            &&& (#[trigger] (p + tail)[k]) < items.len()
            &&& passes(f, items[(p + tail)[k] as int])
        } by {
            if k < p.len() {
                assert((p + tail)[k] == p[k]);
                assert(items[p[k] as int] == init[p[k] as int]);
            } else {
                assert((p + tail)[k] == (items.len() - 1) as usize);
                assert(items[items.len() - 1] == items.last());
            }
        }
    }
}

proof fn lemma_scored_from(items: Seq<Item>, idx: Seq<usize>, q: Seq<char>)
    ensures
        forall|k: int| 0 <= k < scored(items, idx, q).len() ==> {
            &&& idx.contains((#[trigger] scored(items, idx, q)[k]).1)
            &&& score(items[scored(items, idx, q)[k].1 as int], q) > 0
        },
    decreases idx.len(),
{
    if idx.len() > 0 {
        let init = idx.drop_last();
        lemma_scored_from(items, init, q);
        let s0 = scored(items, init, q);
        let tail = if score(items[idx.last() as int], q) > 0 {
            seq![(score(items[idx.last() as int], q), idx.last())]
        } else {
            Seq::empty()
        };
        assert forall|k: int| 0 <= k < (s0 + tail).len() implies {
            &&& idx.contains((#[trigger] (s0 + tail)[k]).1)
            &&& score(items[(s0 + tail)[k].1 as int], q) > 0
        } by {
            if k < s0.len() {
                assert((s0 + tail)[k] == s0[k]);
                let j = choose|j: int| 0 <= j < init.len() && init[j] == s0[k].1;
                assert(idx[j] == init[j]);
            } else {
                assert(idx[idx.len() - 1] == idx.last());
            }
        }
    }
}

proof fn lemma_insert_by_score_members(s: Seq<(int, usize)>, x: (int, usize))
    ensures
        forall|k: int| 0 <= k < insert_by_score(s, x).len() ==> {
            ||| #[trigger] insert_by_score(s, x)[k] == x
            ||| s.contains(insert_by_score(s, x)[k])
        },
    decreases s.len(),
{
    if s.len() > 0 && !(s.last().0 >= x.0) {
        let t = s.drop_last();
        lemma_insert_by_score_members(t, x);
        let r = insert_by_score(t, x).push(s.last());
        assert forall|k: int| 0 <= k < r.len() implies {
            ||| #[trigger] r[k] == x
            ||| s.contains(r[k])
        } by {
            if k < r.len() - 1 {
                assert(r[k] == insert_by_score(t, x)[k]);
                if t.contains(r[k]) {
                    let j = choose|j: int| 0 <= j < t.len() && t[j] == r[k];
                    assert(s[j] == t[j]);
                }
            } else {
                assert(s[s.len() - 1] == s.last());
            }
        }
    } else if s.len() > 0 {
        assert forall|k: int| 0 <= k < s.push(x).len() implies {
            ||| #[trigger] s.push(x)[k] == x
            ||| s.contains(s.push(x)[k])
        } by {
            if k < s.len() {
                assert(s.push(x)[k] == s[k]);
            }
        }
    }
}

proof fn lemma_sorted_by_score_members(s: Seq<(int, usize)>)
    ensures
        forall|k: int| 0 <= k < sorted_by_score(s).len() ==> s.contains(#[trigger] sorted_by_score(s)[k]),
    decreases s.len(),
{
    if s.len() > 0 {
        let t = s.drop_last();
        lemma_sorted_by_score_members(t);
        lemma_insert_by_score_members(sorted_by_score(t), s.last());
        assert forall|k: int| 0 <= k < sorted_by_score(s).len() implies s.contains(#[trigger] sorted_by_score(s)[k]) by {
            let e = sorted_by_score(s)[k];
            if e == s.last() {
                assert(s[s.len() - 1] == e);
            } else {
                let i = choose|i: int| 0 <= i < sorted_by_score(t).len() && sorted_by_score(t)[i] == e;
                let j = choose|j: int| 0 <= j < t.len() && t[j] == sorted_by_score(t)[i];
                assert(s[j] == t[j]);
            }
        }
    }
}

/// Every listed item passes the active filter, and, while a search is
/// typed, matches it: it scores above zero for the lowercased query.
pub proof fn law_listed_items_match(items: Seq<Item>, f: ItemFilter, query: Seq<char>)
    requires
        items.len() <= usize::MAX,
    ensures
        forall|k: int| 0 <= k < listed(items, f, query).len() ==> {
            &&& (#[trigger] listed(items, f, query)[k]) < items.len()
            &&& passes(f, items[listed(items, f, query)[k] as int])
            &&& (query.len() > 0 ==> score(items[listed(items, f, query)[k] as int], lowercase(query)) > 0)
        },
{
    lemma_passing_pass(f, items);
    if query.len() > 0 {
        let idx = passing_indices(f, items);
        let q = lowercase(query);
        let sc = scored(items, idx, q);
        lemma_scored_from(items, idx, q);
        lemma_sorted_by_score_members(sc);
        let l = listed(items, f, query);
        assert forall|k: int| 0 <= k < l.len() implies {
            &&& (#[trigger] l[k]) < items.len()
            &&& passes(f, items[l[k] as int])
            &&& (query.len() > 0 ==> score(items[l[k] as int], q) > 0)
        } by {
            let e = sorted_by_score(sc)[k];
            assert(l[k] == e.1);
            let i = choose|i: int| 0 <= i < sc.len() && sc[i] == e;
            let j = choose|j: int| 0 <= j < idx.len() && idx[j] == sc[i].1;
        }
    }
}


// ── Laws of the alphabetical order ────────────────────────────────────────

/// Every item's lowercase name is at most the next one's.
pub open spec fn sorted_names(s: Seq<Item>) -> bool {
    forall|i: int, j: int| 0 <= i < j < s.len() ==> seq_le(name_key(#[trigger] s[i]), name_key(#[trigger] s[j]))
}

proof fn lemma_seq_le_total(a: Seq<char>, b: Seq<char>)
    ensures
        seq_le(a, b) || seq_le(b, a),
    decreases a.len(),
{
    if a.len() > 0 && b.len() > 0 && a[0] == b[0] {
        lemma_seq_le_total(a.drop_first(), b.drop_first());
    } else if a.len() > 0 && b.len() > 0 {
        vstd::utf8::char_u32_cast(a[0], a[0] as u32);
        vstd::utf8::char_u32_cast(b[0], b[0] as u32);
    }
}

proof fn lemma_seq_le_trans(a: Seq<char>, b: Seq<char>, c: Seq<char>)
    requires
        seq_le(a, b),
        seq_le(b, c),
    ensures
        seq_le(a, c),
    decreases a.len(),
{
    if a.len() > 0 && b.len() > 0 && c.len() > 0 && a[0] == b[0] && b[0] == c[0] {
        lemma_seq_le_trans(a.drop_first(), b.drop_first(), c.drop_first());
    }
}

proof fn lemma_insert_by_name_members(s: Seq<Item>, x: Item)
    ensures
        insert_by_name(s, x).len() == s.len() + 1,
        forall|k: int| 0 <= k < insert_by_name(s, x).len() ==> {
            ||| #[trigger] insert_by_name(s, x)[k] == x
            ||| s.contains(insert_by_name(s, x)[k])
        },
    decreases s.len(),
{
    if s.len() > 0 && !seq_le(name_key(s.last()), name_key(x)) {
        let t = s.drop_last();
        lemma_insert_by_name_members(t, x);
        let r = insert_by_name(t, x).push(s.last());
        assert forall|k: int| 0 <= k < r.len() implies {
            ||| #[trigger] r[k] == x
            ||| s.contains(r[k])
        } by {
            if k < r.len() - 1 {
                assert(r[k] == insert_by_name(t, x)[k]);
                if t.contains(r[k]) {
                    let j = choose|j: int| 0 <= j < t.len() && t[j] == r[k];
                    assert(s[j] == t[j]);
                }
            } else {
                assert(s[s.len() - 1] == s.last());
            }
        }
    } else if s.len() > 0 {
        assert forall|k: int| 0 <= k < s.push(x).len() implies {
            ||| #[trigger] s.push(x)[k] == x
            ||| s.contains(s.push(x)[k])
        } by {
            if k < s.len() {
                assert(s.push(x)[k] == s[k]);
            }
        }
    }
}

proof fn lemma_insert_by_name_sorted(s: Seq<Item>, x: Item)
    requires
        sorted_names(s),
    ensures
        sorted_names(insert_by_name(s, x)),
        insert_by_name(s, x).to_multiset() =~= s.to_multiset().insert(x),
    decreases s.len(),
{
    broadcast use vstd::seq_lib::group_to_multiset_ensures;

    if s.len() == 0 {
        assert(seq![x] =~= Seq::<Item>::empty().push(x));
    } else if seq_le(name_key(s.last()), name_key(x)) {
        let r = s.push(x);
        assert forall|i: int, j: int| 0 <= i < j < r.len() implies seq_le(name_key(#[trigger] r[i]), name_key(#[trigger] r[j])) by {
            if j == s.len() {
                if i < s.len() - 1 {
                    lemma_seq_le_trans(name_key(s[i]), name_key(s.last()), name_key(x));
                }
            } else {
                assert(r[i] == s[i] && r[j] == s[j]);
            }
        }
    } else {
        let t = s.drop_last();
        assert(sorted_names(t)) by {
            assert forall|i: int, j: int| 0 <= i < j < t.len() implies seq_le(name_key(#[trigger] t[i]), name_key(#[trigger] t[j])) by {
                assert(t[i] == s[i] && t[j] == s[j]);
            }
        }
        lemma_insert_by_name_sorted(t, x);
        lemma_insert_by_name_members(t, x);
        lemma_seq_le_total(name_key(s.last()), name_key(x));
        let u = insert_by_name(t, x);
        let r = u.push(s.last());
        assert forall|i: int, j: int| 0 <= i < j < r.len() implies seq_le(name_key(#[trigger] r[i]), name_key(#[trigger] r[j])) by {
            if j == u.len() {
                assert(r[i] == u[i]);
                if u[i] != x {
                    let k = choose|k: int| 0 <= k < t.len() && t[k] == u[i];
                    assert(s[k] == t[k]);
                    assert(s[s.len() - 1] == s.last());
                }
            } else {
                assert(r[i] == u[i] && r[j] == u[j]);
            }
        }
        assert(s =~= t.push(s.last()));
        assert(r.to_multiset() =~= u.to_multiset().insert(s.last()));
        assert(s.to_multiset() =~= t.to_multiset().insert(s.last()));
    }
}

/// The alphabetical order holds every item once, as many times as before,
/// and puts the lowercase names in order.
pub proof fn law_sorted_by_name(s: Seq<Item>)
    ensures
        sorted_names(sorted_by_name(s)),
        sorted_by_name(s).to_multiset() =~= s.to_multiset(),
    decreases s.len(),
{
    broadcast use vstd::seq_lib::group_to_multiset_ensures;

    if s.len() > 0 {
        law_sorted_by_name(s.drop_last());
        lemma_insert_by_name_sorted(sorted_by_name(s.drop_last()), s.last());
        assert(s =~= s.drop_last().push(s.last()));
    }
}


/// The scores never rise along the sequence.
pub open spec fn scores_descending(s: Seq<(int, usize)>) -> bool {
    forall|i: int, j: int| 0 <= i < j < s.len() ==> (#[trigger] s[i]).0 >= (#[trigger] s[j]).0
}

proof fn lemma_insert_by_score_sorted(s: Seq<(int, usize)>, x: (int, usize))
    requires
        scores_descending(s),
    ensures
        scores_descending(insert_by_score(s, x)),
        insert_by_score(s, x).to_multiset() =~= s.to_multiset().insert(x),
    decreases s.len(),
{
    broadcast use vstd::seq_lib::group_to_multiset_ensures;

    if s.len() == 0 {
        assert(seq![x] =~= Seq::<(int, usize)>::empty().push(x));
    } else if s.last().0 >= x.0 {
        let r = s.push(x);
        assert forall|i: int, j: int| 0 <= i < j < r.len() implies (#[trigger] r[i]).0 >= (#[trigger] r[j]).0 by {
            if j == s.len() {
                assert(r[i] == s[i]);
                if i < s.len() - 1 {
                    assert(s[i].0 >= s[s.len() - 1].0);
                }
            } else {
                assert(r[i] == s[i] && r[j] == s[j]);
            }
        }
    } else {
        let t = s.drop_last();
        assert(scores_descending(t)) by {
            assert forall|i: int, j: int| 0 <= i < j < t.len() implies (#[trigger] t[i]).0 >= (#[trigger] t[j]).0 by {
                assert(t[i] == s[i] && t[j] == s[j]);
            }
        }
        lemma_insert_by_score_sorted(t, x);
        lemma_insert_by_score_members(t, x);
        let u = insert_by_score(t, x);
        let r = u.push(s.last());
        assert forall|i: int, j: int| 0 <= i < j < r.len() implies (#[trigger] r[i]).0 >= (#[trigger] r[j]).0 by {
            if j == u.len() {
                assert(r[i] == u[i]);
                if u[i] != x {
                    let k = choose|k: int| 0 <= k < t.len() && t[k] == u[i];
                    assert(s[k] == t[k]);
                    assert(s[k].0 >= s[s.len() - 1].0);
                }
            } else {
                assert(r[i] == u[i] && r[j] == u[j]);
            }
        }
        assert(s =~= t.push(s.last()));
        assert(r.to_multiset() =~= u.to_multiset().insert(s.last()));
        assert(s.to_multiset() =~= t.to_multiset().insert(s.last()));
    }
}

/// The search order puts the scored matches best first and keeps each of
/// them, as many times as before.
pub proof fn law_search_order(s: Seq<(int, usize)>)
    ensures
        scores_descending(sorted_by_score(s)),
        sorted_by_score(s).to_multiset() =~= s.to_multiset(),
    decreases s.len(),
{
    broadcast use vstd::seq_lib::group_to_multiset_ensures;

    if s.len() > 0 {
        law_search_order(s.drop_last());
        lemma_insert_by_score_sorted(sorted_by_score(s.drop_last()), s.last());
        assert(s =~= s.drop_last().push(s.last()));
    }
}


/// A username that holds the query's characters in order, but not the
/// query itself, adds exactly 10 to an item's score; so such an item scores
/// above zero.
pub proof fn law_username_in_order_adds_ten(item: Item, l: LoginData, u: String, q: Seq<char>)
    requires
        !contains(lowercase(u@), q),
        crate::text::is_subseq(q, lowercase(u@)),
    ensures
        score(Item { login: Some(LoginData { username: Some(u), ..l }), ..item }, q) == score(
            Item { login: Some(LoginData { username: None, ..l }), ..item },
            q,
        ) + 10,
        score(Item { login: Some(LoginData { username: Some(u), ..l }), ..item }, q) > 0,
{
}

proof fn lemma_passing_has(f: ItemFilter, items: Seq<Item>, i: int)
    requires
        0 <= i < items.len() <= usize::MAX,
        passes(f, items[i]),
    ensures
        passing_indices(f, items).contains(i as usize),
    decreases items.len(),
{
    let init = items.drop_last();
    let tail = if passes(f, items.last()) { seq![(items.len() - 1) as usize] } else { Seq::<usize>::empty() };
    if i == items.len() - 1 {
        assert((passing_indices(f, init) + tail)[passing_indices(f, init).len() as int] == i as usize);
    } else {
        assert(init[i] == items[i]);
        lemma_passing_has(f, init, i);
        let k = choose|k: int| 0 <= k < passing_indices(f, init).len() && passing_indices(f, init)[k] == i as usize;
        assert((passing_indices(f, init) + tail)[k] == i as usize);
    }
}

proof fn lemma_scored_has(items: Seq<Item>, idx: Seq<usize>, q: Seq<char>, k: int)
    requires
        0 <= k < idx.len(),
        idx[k] < items.len(),
        score(items[idx[k] as int], q) > 0,
    ensures
        scored(items, idx, q).contains((score(items[idx[k] as int], q), idx[k])),
    decreases idx.len(),
{
    let init = idx.drop_last();
    let last = idx.last();
    let tail = if score(items[last as int], q) > 0 {
        seq![(score(items[last as int], q), last)]
    } else {
        Seq::<(int, usize)>::empty()
    };
    if k == idx.len() - 1 {
        assert((scored(items, init, q) + tail)[scored(items, init, q).len() as int] == (score(items[idx[k] as int], q), idx[k]));
    } else {
        assert(init[k] == idx[k]);
        lemma_scored_has(items, init, q, k);
        let x = (score(items[idx[k] as int], q), idx[k]);
        let j = choose|j: int| 0 <= j < scored(items, init, q).len() && scored(items, init, q)[j] == x;
        assert((scored(items, init, q) + tail)[j] == x);
    }
}

/// Every item that passes the filter and scores above zero for the
/// lowercased query is listed.
pub proof fn law_scoring_items_are_listed(items: Seq<Item>, f: ItemFilter, query: Seq<char>, i: int)
    requires
        0 <= i < items.len() <= usize::MAX,
        query.len() > 0,
        passes(f, items[i]),
        score(items[i], lowercase(query)) > 0,
    ensures
        listed(items, f, query).contains(i as usize),
{
    broadcast use vstd::seq_lib::group_to_multiset_ensures;

    let q = lowercase(query);
    let idx = passing_indices(f, items);
    lemma_passing_has(f, items, i);
    let k = choose|k: int| 0 <= k < idx.len() && idx[k] == i as usize;
    lemma_scored_has(items, idx, q, k);
    let sc = scored(items, idx, q);
    let x = (score(items[i], q), i as usize);
    law_search_order(sc);
    let so = sorted_by_score(sc);
    assert(sc.to_multiset().count(x) > 0);
    assert(so.to_multiset().count(x) > 0);
    assert(so.contains(x));
    let j = choose|j: int| 0 <= j < so.len() && so[j] == x;
    assert(so.map_values(|p: (int, usize)| p.1)[j] == i as usize);
}

} // verus!
