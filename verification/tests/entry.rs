use ck3_community_title_project::localization::{Entry, Language};

fn entry(key: &str, version: u8, content: &[(Language, &str)], comment: &str) -> Entry {
    let content = content.iter().map(|(language, text)| (*language, text.to_string())).collect();
    Entry::new(key, version, content, comment)
}

#[test]
fn entry_keeps_key_version_and_comment() {
    let e = entry("sdfs", 7, &[(Language::English, "Vive")], "test");
    assert_eq!(e.key(), "sdfs");
    assert_eq!(e.version(), 7);
    assert_eq!(e.comment(), "test");
}

#[test]
fn content_of_returns_the_registered_text() {
    let e = entry("sdfs", 0, &[(Language::English, "Vive"), (Language::French, "Viva")], "test");
    assert_eq!(e.content_of(&Language::English), "Vive");
    assert_eq!(e.content_of(&Language::French), "Viva");
}

#[test]
fn content_of_falls_back_to_english() {
    let e = entry("sdfs", 0, &[(Language::English, "Vive"), (Language::French, "Viva")], "test");
    for language in [
        Language::German,
        Language::Korean,
        Language::Russian,
        Language::SimpChinese,
        Language::Spanish,
    ] {
        assert_eq!(e.content_of(&language), "Vive");
    }
}

#[test]
fn content_of_is_empty_without_english() {
    let e = entry("a3s", 2, &[(Language::Korean, "only korean")], "");
    assert_eq!(e.content_of(&Language::Korean), "only korean");
    assert_eq!(e.content_of(&Language::English), "");
    assert_eq!(e.content_of(&Language::French), "");
}

#[test]
fn content_of_is_empty_for_an_entry_without_content() {
    let e = entry("", 0, &[], "only comment");
    for language in Language::all() {
        assert_eq!(e.content_of(&language), "");
    }
    assert_eq!(e.key(), "");
    assert_eq!(e.comment(), "only comment");
}

#[test]
fn content_of_follows_the_fallback_chain_for_every_language() {
    let registered = [(Language::German, "Hoch"), (Language::English, "Vive"), (Language::Spanish, "Viva")];
    let e = entry("k", 1, &registered, "");
    for language in Language::all() {
        let expected = registered
            .iter()
            .find(|(l, _)| *l == language)
            .map(|(_, text)| *text)
            .unwrap_or("Vive");
        assert_eq!(e.content_of(&language), expected);
    }
}

#[test]
fn a_language_registered_twice_keeps_its_last_text() {
    let e = entry(
        "k",
        0,
        &[(Language::French, "un"), (Language::English, "one"), (Language::French, "deux")],
        "",
    );
    assert_eq!(e.content_of(&Language::French), "deux");
    assert_eq!(e.content_of(&Language::English), "one");
}

#[test]
fn a_registered_empty_text_is_not_a_missing_text() {
    let e = entry("k", 0, &[(Language::English, "one"), (Language::French, "")], "");
    assert_eq!(e.content_of(&Language::French), "");
    assert_eq!(e.content_of(&Language::German), "one");
}

#[test]
fn a_cloned_entry_answers_like_the_entry_it_was_made_from() {
    let e = entry("sdfs", 3, &[(Language::English, "Vive"), (Language::French, "Viva")], "test");
    let copy = e.clone();
    assert_eq!(copy.key(), e.key());
    assert_eq!(copy.version(), e.version());
    assert_eq!(copy.comment(), e.comment());
    for language in Language::all() {
        assert_eq!(copy.content_of(&language), e.content_of(&language));
    }
}

#[test]
fn entry_text_may_be_any_unicode() {
    let e = entry("bedouin", 0, &[(Language::English, "Badawī"), (Language::Russian, "Бедуины")], "ʿ");
    assert_eq!(e.content_of(&Language::English), "Badawī");
    assert_eq!(e.content_of(&Language::Russian), "Бедуины");
    assert_eq!(e.content_of(&Language::French), "Badawī");
    assert_eq!(e.comment(), "ʿ");
}

#[test]
fn registered_tells_what_was_registered() {
    let e = entry("k", 0, &[(Language::English, "one"), (Language::French, "")], "");
    assert_eq!(e.registered(&Language::English), Some("one"));
    assert_eq!(e.registered(&Language::French), Some(""));
    assert_eq!(e.registered(&Language::German), None);
    let blank = entry("", 0, &[], "only comment");
    for language in Language::all() {
        assert_eq!(blank.registered(&language), None);
    }
}
