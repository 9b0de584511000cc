use bytewarden::search::{ItemFilter, fuzzy_score, sort_by_name, listed_positions, count_items, item_filter, is_subseq};
use bytewarden::model::{Item, LoginData, UriData};

fn item(id: &str, name: &str, t: u8) -> Item {
    Item {
        id: id.to_string(),
        name: name.to_string(),
        item_type: t,
        login: None,
        card: None,
        identity: None,
        notes: None,
        folder_id: None,
        favorite: false,
        fields: Vec::new(),
    }
}

fn with_login(mut it: Item, user: &str, uri: &str) -> Item {
    it.login = Some(LoginData {
        username: Some(user.to_string()),
        password: None,
        uris: Some(vec![UriData { uri: Some(uri.to_string()) }]),
        totp: None,
    });
    it
}

#[test]
fn filter_labels_and_types() {
    assert_eq!(ItemFilter::All.label(), "All Items");
    assert_eq!(ItemFilter::Favorites.label(), "★ Favorites");
    assert_eq!(ItemFilter::SecureNote.label(), "Secure Note");
    assert_eq!(ItemFilter::SshKey.label(), "SSH Key");
    assert_eq!(ItemFilter::Login.type_id(), Some(1));
    assert_eq!(ItemFilter::Card.type_id(), Some(3));
    assert_eq!(ItemFilter::Favorites.type_id(), None);
    assert_eq!(ItemFilter::All.type_id(), None);
    assert_eq!(item_filter(6), ItemFilter::SshKey);
}

#[test]
fn fuzzy_score_points() {
    let gh = with_login(item("1", "GitHub", 1), "octo", "https://github.com");
    assert_eq!(fuzzy_score(&gh, "git"), 120 + 10);
    assert_eq!(fuzzy_score(&gh, "hub"), 100 + 10);
    assert_eq!(fuzzy_score(&gh, "gtb"), 50);
    assert_eq!(fuzzy_score(&gh, "oct"), 30);
    assert_eq!(fuzzy_score(&gh, "zzz"), 0);
    let mut noted = item("2", "Bank", 2);
    noted.notes = Some("PIN in the SAFE".to_string());
    assert_eq!(fuzzy_score(&noted, "safe"), 5);
    let umlaut = item("3", "ÄÖ Bank", 2);
    assert_eq!(fuzzy_score(&umlaut, "äö"), 120);
}

#[test]
fn subsequence_is_greedy_in_order() {
    assert!(is_subseq("ace", "abcde"));
    assert!(!is_subseq("aec", "abcde"));
    assert!(is_subseq("", "x"));
}

#[test]
fn sorting_is_alphabetical_and_stable() {
    let v = vec![item("1", "beta", 1), item("2", "Alpha", 1), item("3", "alpha", 2), item("4", "Gamma", 1)];
    let s = sort_by_name(v);
    let ids: Vec<&str> = s.iter().map(|i| i.id.as_str()).collect();
    assert_eq!(ids, vec!["2", "3", "1", "4"]);
}

#[test]
fn listing_filters_and_ranks() {
    let mut fav = item("f", "Notes app", 2);
    fav.favorite = true;
    let items = vec![
        with_login(item("a", "Mail", 1), "me", "https://mail.example"),
        item("b", "Visa", 3),
        fav,
        with_login(item("c", "Gmail", 1), "gm", "https://gmail.com"),
    ];
    assert_eq!(listed_positions(&items, &ItemFilter::All, ""), vec![0, 1, 2, 3]);
    assert_eq!(listed_positions(&items, &ItemFilter::Login, ""), vec![0, 3]);
    assert_eq!(listed_positions(&items, &ItemFilter::Favorites, ""), vec![2]);
    assert_eq!(listed_positions(&items, &ItemFilter::All, "MAIL"), vec![0, 3]);
    assert_eq!(listed_positions(&items, &ItemFilter::All, "gm"), vec![3]);
    let ranked = vec![item("x", "Amail", 1), item("y", "Mailbox", 1), item("z", "Zzz", 1)];
    assert_eq!(listed_positions(&ranked, &ItemFilter::All, "mail"), vec![1, 0]);
    assert_eq!(count_items(&ItemFilter::Card, &items), 1);
    assert_eq!(count_items(&ItemFilter::All, &items), 4);
}
