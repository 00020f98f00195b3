use ck3_community_title_project::localization::culture::{Culture, Heritage, Language as LanguageLabel};
use ck3_community_title_project::localization::{to_entries, Entry, Language, ToEntries};

fn assert_english_only(entry: &Entry, key: &str, text: &str, comment: &str) {
    assert_eq!(entry.key(), key);
    assert_eq!(entry.version(), 0);
    assert_eq!(entry.comment(), comment);
    for language in Language::all() {
        if language == Language::English {
            assert_eq!(entry.registered(&language), Some(text));
        } else {
            assert_eq!(entry.registered(&language), None);
        }
        assert_eq!(entry.content_of(&language), text);
    }
}

#[test]
fn culture_becomes_three_entries() {
    let entries = Culture::new("bedouin", "Badawī", "Badawī", "al-Badū", "").into_entries();
    assert_eq!(entries.len(), 3);
    assert_english_only(&entries[0], "bedouin", "Badawī", "");
    assert_english_only(&entries[1], "bedouin_prefix", "Badawī", "");
    assert_english_only(&entries[2], "bedouin_collective_noun", "al-Badū", "");
}

#[test]
fn culture_entries_take_each_their_own_field() {
    let entries = Culture::new("norse", "Norse", "Norse-ish", "Norsemen", "northern").into_entries();
    let seen: Vec<(&str, &str, &str)> = entries
        .iter()
        .map(|e| (e.key(), e.content_of(&Language::English), e.comment()))
        .collect();
    assert_eq!(
        seen,
        vec![
            ("norse", "Norse", "northern"),
            ("norse_prefix", "Norse-ish", "northern"),
            ("norse_collective_noun", "Norsemen", "northern"),
        ]
    );
}

#[test]
fn heritage_becomes_two_entries() {
    let entries = Heritage::new("arabic", "ʿArab", "ʿArab", "").into_entries();
    assert_eq!(entries.len(), 2);
    assert_english_only(&entries[0], "heritage_arabic_name", "ʿArab", "");
    assert_english_only(&entries[1], "heritage_arabic_collective_noun", "ʿArab", "");
}

#[test]
fn heritage_entries_take_each_their_own_field() {
    let entries = Heritage::new("west_slavic", "West Slavic", "West Slavs", "slavs").into_entries();
    assert_english_only(&entries[0], "heritage_west_slavic_name", "West Slavic", "slavs");
    assert_english_only(&entries[1], "heritage_west_slavic_collective_noun", "West Slavs", "slavs");
}

#[test]
fn language_label_becomes_one_entry() {
    let entries = LanguageLabel::new("czech_slovak", "Czech", "spoken").into_entries();
    assert_eq!(entries.len(), 1);
    assert_english_only(&entries[0], "language_czech_slovak_name", "Czech", "spoken");
}

#[test]
fn an_empty_record_key_still_gives_the_fixed_affixes() {
    let culture = Culture::new("", "n", "a", "c", "").into_entries();
    assert_eq!(culture[0].key(), "");
    assert_eq!(culture[1].key(), "_prefix");
    assert_eq!(culture[2].key(), "_collective_noun");
    let heritage = Heritage::new("", "n", "c", "").into_entries();
    assert_eq!(heritage[0].key(), "heritage__name");
    assert_eq!(heritage[1].key(), "heritage__collective_noun");
    let label = LanguageLabel::new("", "n", "").into_entries();
    assert_eq!(label[0].key(), "language__name");
}

#[test]
fn records_hand_back_their_fields() {
    let culture = Culture::new("bedouin", "Badawī", "Badawī-adj", "al-Badū", "c");
    assert_eq!(
        (culture.key(), culture.name(), culture.adjective(), culture.collective_noun(), culture.comment()),
        ("bedouin", "Badawī", "Badawī-adj", "al-Badū", "c")
    );
    let heritage = Heritage::new("arabic", "ʿArab", "ʿArab-noun", "h");
    assert_eq!(
        (heritage.key(), heritage.name(), heritage.collective_noun(), heritage.comment()),
        ("arabic", "ʿArab", "ʿArab-noun", "h")
    );
    let label = LanguageLabel::new("tocharian", "Tocharian", "l");
    assert_eq!((label.key(), label.name(), label.comment()), ("tocharian", "Tocharian", "l"));
    assert_eq!(label, LanguageLabel::new("tocharian", "Tocharian", "l"));
    assert_ne!(label, LanguageLabel::new("tocharian", "Tocharian", ""));
}

#[test]
fn to_entries_joins_the_records_in_order() {
    let entries = to_entries(vec![
        Heritage::new("arabic", "ʿArab", "ʿArab", ""),
        Heritage::new("iranian", "Iranian", "Iranians", "x"),
    ]);
    let keys: Vec<&str> = entries.iter().map(|e| e.key()).collect();
    assert_eq!(
        keys,
        vec![
            "heritage_arabic_name",
            "heritage_arabic_collective_noun",
            "heritage_iranian_name",
            "heritage_iranian_collective_noun",
        ]
    );
    assert_eq!(entries[3].content_of(&Language::Korean), "Iranians");
    assert_eq!(entries[3].comment(), "x");
}

#[test]
fn to_entries_of_nothing_is_empty() {
    assert!(to_entries(Vec::<Culture>::new()).is_empty());
}

#[test]
fn ready_made_entry_lists_are_records_too() {
    let first = vec![
        Entry::new("a", 1, vec![(Language::English, "A".to_string())], ""),
        Entry::new("", 0, vec![], "only comment"),
    ];
    let second = vec![Entry::new("b", 2, vec![(Language::French, "B".to_string())], "bee")];
    let entries = to_entries(vec![first, Vec::new(), second]);
    let seen: Vec<(&str, u8, &str, &str)> = entries
        .iter()
        .map(|e| (e.key(), e.version(), e.content_of(&Language::French), e.comment()))
        .collect();
    assert_eq!(
        seen,
        vec![("a", 1, "A", ""), ("", 0, "", "only comment"), ("b", 2, "B", "bee")]
    );
}
