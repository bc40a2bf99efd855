use lol_lookup::riot_id::{lookup_redirect, split_riot_id};

#[test]
fn splits_name_and_tag() {
    assert_eq!(split_riot_id("Foo#EUW"), Some(("Foo".to_string(), "EUW".to_string())));
}

#[test]
fn split_keeps_text_between_first_two_hashes() {
    assert_eq!(split_riot_id("a#b#c"), Some(("a".to_string(), "b".to_string())));
    assert_eq!(split_riot_id("#"), Some((String::new(), String::new())));
}

#[test]
fn split_without_hash_is_none() {
    assert_eq!(split_riot_id("Foo"), None);
    assert_eq!(split_riot_id(""), None);
}

#[test]
fn redirect_leads_to_user_page() {
    assert_eq!(lookup_redirect("Euw1", "Foo Bar#1234"), Some("/user/Euw1/Foo Bar/1234".to_string()));
    assert_eq!(lookup_redirect("Euw1", "FooBar"), None);
}
