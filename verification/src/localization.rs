//! The localization data model: languages, entries and localization sets.

use crate::common::LocError;
use crate::text::str_eq;
use std::collections::HashMap;
use vstd::prelude::*;
use vstd::string::*;

pub mod culture;

verus! {

/// A language the game can be localized into.
#[derive(Clone, Copy, Debug, PartialEq, Eq, Hash, Structural)]
pub enum Language {
    English,
    French,
    German,
    Korean,
    Russian,
    SimpChinese,
    Spanish,
}

impl Language {
    /// The supported languages, in their fixed order.
    pub open spec fn all_spec() -> Seq<Language> {
        seq![
            Language::English,
            Language::French,
            Language::German,
            Language::Korean,
            Language::Russian,
            Language::SimpChinese,
            Language::Spanish,
        ]
    }

    /// The lowercase name that stands for the language in file names and
    /// directories.
    pub open spec fn name_spec(self) -> Seq<char> {
        match self {
            Language::English => "english"@,
            Language::French => "french"@,
            Language::German => "german"@,
            Language::Korean => "korean"@,
            Language::Russian => "russian"@,
            Language::SimpChinese => "simp_chinese"@,
            Language::Spanish => "spanish"@,
        }
    }

    /// The header that opens a file of the language: `l_` and the name.
    pub open spec fn header_spec(self) -> Seq<char> {
        "l_"@ + self.name_spec()
    }

    /// The language a header stands for, if it stands for one.
    pub open spec fn from_header_spec(header: Seq<char>) -> Option<Language> {
        if header == Language::English.header_spec() {
            Some(Language::English)
        } else if header == Language::French.header_spec() {
            Some(Language::French)
        } else if header == Language::German.header_spec() {
            Some(Language::German)
        } else if header == Language::Korean.header_spec() {
            Some(Language::Korean)
        } else if header == Language::Russian.header_spec() {
            Some(Language::Russian)
        } else if header == Language::SimpChinese.header_spec() {
            Some(Language::SimpChinese)
        } else if header == Language::Spanish.header_spec() {
            Some(Language::Spanish)
        } else {
            None
        }
    }

    /// The position of the language in the fixed order.
    pub open spec fn code_spec(self) -> u8 {
        match self {
            Language::English => 0,
            Language::French => 1,
            Language::German => 2,
            Language::Korean => 3,
            Language::Russian => 4,
            Language::SimpChinese => 5,
            Language::Spanish => 6,
        }
    }

    /// The supported languages, in their fixed order.
    pub fn all() -> (languages: Vec<Language>)
        ensures
            languages@ == Language::all_spec(),
    {
        let mut languages: Vec<Language> = Vec::with_capacity(7);
        languages.push(Language::English);
        languages.push(Language::French);
        languages.push(Language::German);
        languages.push(Language::Korean);
        languages.push(Language::Russian);
        languages.push(Language::SimpChinese);
        languages.push(Language::Spanish);
        assert(languages@ =~= Language::all_spec());
        languages
    }

    /// The position of the language in the fixed order.
    pub fn code(&self) -> (code: u8)
        ensures
            code == self.code_spec(),
    {
        match self {
            Language::English => 0,
            Language::French => 1,
            Language::German => 2,
            Language::Korean => 3,
            Language::Russian => 4,
            Language::SimpChinese => 5,
            Language::Spanish => 6,
        }
    }

    /// The lowercase name of the language.
    pub fn as_str(&self) -> (name: &'static str)
        ensures
            name@ == self.name_spec(),
    {
        match self {
            Language::English => "english",
            Language::French => "french",
            Language::German => "german",
            Language::Korean => "korean",
            Language::Russian => "russian",
            Language::SimpChinese => "simp_chinese",
            Language::Spanish => "spanish",
        }
    }

    /// The lowercase name of the language, as an owned string.
    pub fn to_string(&self) -> (name: String)
        ensures
            name@ == self.name_spec(),
    {
        String::from_str(self.as_str())
    }

    /// The header that opens a file of the language.
    pub fn to_header_string(&self) -> (header: String)
        ensures
            header@ == self.header_spec(),
    {
        let mut header = String::from_str("l_");
        header.append(self.as_str());
        header
    }

    /// Reads a header back into its language. Any text that is not the header
    /// of a supported language is an `UnknownLanguage` error that holds the
    /// text.
    pub fn from_header(s: &str) -> (parsed: Result<Language, LocError>)
        ensures
            match Language::from_header_spec(s@) {
                Some(language) => parsed matches Ok(l) && l == language,
                None => parsed matches Err(LocError::UnknownLanguage(header)) && header@ == s@,
            },
    {
        proof {
            lemma_header_literals();
        }
        if str_eq(s, "l_english") {
            Ok(Language::English)
        } else if str_eq(s, "l_french") {
            Ok(Language::French)
        } else if str_eq(s, "l_german") {
            Ok(Language::German)
        } else if str_eq(s, "l_korean") {
            Ok(Language::Korean)
        } else if str_eq(s, "l_russian") {
            Ok(Language::Russian)
        } else if str_eq(s, "l_simp_chinese") {
            Ok(Language::SimpChinese)
        } else if str_eq(s, "l_spanish") {
            Ok(Language::Spanish)
        } else {
            Err(LocError::UnknownLanguage(String::from_str(s)))
        }
    }
}

/// Each header written out as one literal is `l_` followed by the name.
proof fn lemma_header_literals()
    ensures
        "l_english"@ == Language::English.header_spec(),
        "l_french"@ == Language::French.header_spec(),
        "l_german"@ == Language::German.header_spec(),
        "l_korean"@ == Language::Korean.header_spec(),
        "l_russian"@ == Language::Russian.header_spec(),
        "l_simp_chinese"@ == Language::SimpChinese.header_spec(),
        "l_spanish"@ == Language::Spanish.header_spec(),
{
    reveal_strlit("l_");
    reveal_strlit("english");
    reveal_strlit("french");
    reveal_strlit("german");
    reveal_strlit("korean");
    reveal_strlit("russian");
    reveal_strlit("simp_chinese");
    reveal_strlit("spanish");
    reveal_strlit("l_english");
    reveal_strlit("l_french");
    reveal_strlit("l_german");
    reveal_strlit("l_korean");
    reveal_strlit("l_russian");
    reveal_strlit("l_simp_chinese");
    reveal_strlit("l_spanish");
    assert("l_english"@ =~= "l_"@ + "english"@);
    assert("l_french"@ =~= "l_"@ + "french"@);
    assert("l_german"@ =~= "l_"@ + "german"@);
    assert("l_korean"@ =~= "l_"@ + "korean"@);
    assert("l_russian"@ =~= "l_"@ + "russian"@);
    assert("l_simp_chinese"@ =~= "l_"@ + "simp_chinese"@);
    assert("l_spanish"@ =~= "l_"@ + "spanish"@);
}

/// No two languages share a name.
pub proof fn lemma_names_distinct(a: Language, b: Language)
    ensures
        a.name_spec() == b.name_spec() ==> a == b,
{
    reveal_strlit("english");
    reveal_strlit("french");
    reveal_strlit("german");
    reveal_strlit("korean");
    reveal_strlit("russian");
    reveal_strlit("simp_chinese");
    reveal_strlit("spanish");
    if a != b && a.name_spec() == b.name_spec() {
        assert(a.name_spec()[0] == b.name_spec()[0]);
        assert(a.name_spec()[1] == b.name_spec()[1]);
    }
}

/// No two languages share a header.
pub proof fn lemma_headers_distinct(a: Language, b: Language)
    ensures
        a.header_spec() == b.header_spec() ==> a == b,
{
    if a.header_spec() == b.header_spec() {
        let p = "l_"@;
        assert(a.name_spec() =~= a.header_spec().subrange(p.len() as int, a.header_spec().len() as int));
        assert(b.name_spec() =~= b.header_spec().subrange(p.len() as int, b.header_spec().len() as int));
        lemma_names_distinct(a, b);
    }
}

/// Reading back the header of a language gives that language.
pub proof fn law_header_round_trip(language: Language)
    ensures
        Language::from_header_spec(language.header_spec()) == Some(language),
{
    lemma_headers_distinct(language, Language::English);
    lemma_headers_distinct(language, Language::French);
    lemma_headers_distinct(language, Language::German);
    lemma_headers_distinct(language, Language::Korean);
    lemma_headers_distinct(language, Language::Russian);
    lemma_headers_distinct(language, Language::SimpChinese);
    lemma_headers_distinct(language, Language::Spanish);
}

/// A header is read as a language exactly when it is that language's header;
/// every other text is read as no language.
pub proof fn law_header_recognized(header: Seq<char>)
    ensures
        forall|language: Language|
            Language::from_header_spec(header) == Some(language) <==> header
                == #[trigger] language.header_spec(),
        Language::from_header_spec(header) is None <==> forall|language: Language|
            header != #[trigger] language.header_spec(),
{
    assert forall|language: Language|
        Language::from_header_spec(header) == Some(language) <==> header
            == #[trigger] language.header_spec() by {
        law_header_round_trip(language);
    }
}

/// What an entry is: a key, a version stamp, the text registered for some of
/// the languages, and a comment. An empty key marks a line that carries only
/// its comment.
pub struct EntryView {
    pub key: Seq<char>,
    pub version: u8,
    pub content: Map<Language, Seq<char>>,
    pub comment: Seq<char>,
}

impl EntryView {
    /// The text of the entry in a language: the text registered for it, else
    /// the English text, else the empty text.
    pub open spec fn content_of(self, language: Language) -> Seq<char> {
        if self.content.contains_key(language) {
            self.content[language]
        } else if self.content.contains_key(Language::English) {
            self.content[Language::English]
        } else {
            Seq::empty()
        }
    }
}

/// The content that a list of language and text pairs registers: where a
/// language occurs more than once, its last text stays.
pub open spec fn content_map(pairs: Seq<(Language, String)>) -> Map<Language, Seq<char>>
    decreases pairs.len(),
{
    if pairs.len() == 0 {
        Map::empty()
    } else {
        content_map(pairs.drop_last()).insert(pairs.last().0, pairs.last().1@)
    }
}

/// The content held under language codes, read by language.
spec fn content_by_language(held: Map<u8, String>) -> Map<Language, Seq<char>> {
    Map::new(
        |language: Language| held.contains_key(language.code_spec()),
        |language: Language| held[language.code_spec()]@,
    )
}

/// One localizable unit.
#[derive(Debug)]
pub struct Entry {
    key: String,
    version: u8,
    content: HashMap<u8, String>,
    comment: String,
}

impl View for Entry {
    type V = EntryView;

    closed spec fn view(&self) -> EntryView {
        EntryView {
            key: self.key@,
            version: self.version,
            content: content_by_language(self.content@),
            comment: self.comment@,
        }
    }
}

impl Clone for Entry {
    fn clone(&self) -> (copy: Self)
        ensures
            copy@ == self@,
    {
        proof {
            use_type_invariant(self);
        }
        Entry {
            key: self.key.clone(),
            version: self.version,
            content: self.content.clone(),
            comment: self.comment.clone(),
        }
    }
}

impl Entry {
    /// The content is held under the codes of the languages, and under
    /// nothing else.
    #[verifier::type_invariant]
    spec fn held_under_language_codes(self) -> bool {
        forall|code: u8| self.content@.contains_key(code) ==> code < 7
    }

    /// An entry with the given key, version and comment, whose content is
    /// what `content` registers.
    pub fn new(key: &str, version: u8, content: Vec<(Language, String)>, comment: &str) -> (entry:
        Entry)
        ensures
            entry@ == (EntryView {
                key: key@,
                version,
                content: content_map(content@),
                comment: comment@,
            }),
    {
        broadcast use vstd::std_specs::hash::group_hash_axioms;

        let mut held: HashMap<u8, String> = HashMap::new();
        assert(content_by_language(held@) =~= content_map(content@.take(0)));
        for pair in it: content
            invariant
                content_by_language(held@) == content_map(it.seq().take(it.index() as int)),
                it.seq() == content@,
                forall|code: u8| held@.contains_key(code) ==> code < 7,
        {
            let ghost before = held@;
            let ghost done = it.seq().take(it.index() as int);
            let ghost next = it.seq().take(it.index() + 1);
            let (language, text) = pair;
            held.insert(language.code(), text);
            proof {
                assert(next.drop_last() =~= done);
                assert(next.last() == (language, text));
                assert(content_by_language(held@) =~= content_by_language(before).insert(
                    language,
                    text@,
                ));
            }
        }
        assert(content@.take(content@.len() as int) =~= content@);
        Entry { key: String::from_str(key), version, content: held, comment: String::from_str(comment) }
    }

    /// The key of the entry; empty for a line that carries only its comment.
    pub fn key(&self) -> (key: &str)
        ensures
            key@ == self@.key,
    {
        self.key.as_str()
    }

    /// The text registered for `lang`, if there is one.
    pub fn registered(&self, lang: &Language) -> (text: Option<&str>)
        ensures
            match text {
                Some(t) => self@.content.contains_key(*lang) && t@ == self@.content[*lang],
                None => !self@.content.contains_key(*lang),
            },
    {
        broadcast use vstd::std_specs::hash::group_hash_axioms;

        let code = lang.code();
        match self.content.get(&code) {
            Some(text) => Some(text.as_str()),
            None => None,
        }
    }

    /// The text of the entry in `lang`: the text registered for it, else the
    /// English text, else the empty text.
    pub fn content_of(&self, lang: &Language) -> (text: &str)
        ensures
            text@ == self@.content_of(*lang),
    {
        match self.registered(lang) {
            Some(text) => text,
            None => match self.registered(&Language::English) {
                Some(text) => text,
                None => {
                    proof {
                        reveal_strlit("");
                        assert(""@ =~= Seq::<char>::empty());
                    }
                    ""
                },
            },
        }
    }

    /// The version stamp of the entry.
    pub fn version(&self) -> (version: u8)
        ensures
            version == self@.version,
    {
        self.version
    }

    /// The comment of the entry.
    pub fn comment(&self) -> (comment: &str)
        ensures
            comment@ == self@.comment,
    {
        self.comment.as_str()
    }
}

/// The views of a sequence of entries, in order.
pub open spec fn entry_views(entries: Seq<Entry>) -> Seq<EntryView> {
    entries.map_values(|entry: Entry| entry@)
}

/// The languages of a list without repetition: each language stands where it
/// first occurs.
pub open spec fn distinct_languages(given: Seq<Language>) -> Seq<Language>
    decreases given.len(),
{
    if given.len() == 0 {
        Seq::empty()
    } else {
        let before = distinct_languages(given.drop_last());
        if before.contains(given.last()) {
            before
        } else {
            before.push(given.last())
        }
    }
}

/// `distinct_languages` keeps exactly the languages of the list, each once,
/// and changes nothing where no language is repeated.
pub proof fn lemma_distinct_languages(given: Seq<Language>)
    ensures
        distinct_languages(given).no_duplicates(),
        forall|language: Language| #[trigger]
            distinct_languages(given).contains(language) <==> given.contains(language),
        given.no_duplicates() ==> distinct_languages(given) == given,
    decreases given.len(),
{
    if given.len() > 0 {
        let front = given.drop_last();
        let last = given.last();
        let before = distinct_languages(front);
        let kept = distinct_languages(given);
        lemma_distinct_languages(front);
        assert forall|language: Language| #[trigger]
            kept.contains(language) <==> given.contains(language) by {
            assert(before.contains(language) <==> front.contains(language));
            if given.contains(language) {
                let i = choose|i: int| 0 <= i < given.len() && given[i] == language;
                if i < front.len() {
                    assert(front[i] == language);
                    let j = choose|j: int| 0 <= j < before.len() && before[j] == language;
                    assert(kept[j] == language);
                } else if !before.contains(language) {
                    assert(kept[before.len() as int] == language);
                }
            }
            if kept.contains(language) {
                let j = choose|j: int| 0 <= j < kept.len() && kept[j] == language;
                if j < before.len() {
                    assert(before[j] == language);
                    let i = choose|i: int| 0 <= i < front.len() && front[i] == language;
                    assert(given[i] == language);
                } else {
                    assert(given[given.len() - 1] == language);
                }
            }
        }
        if given.no_duplicates() {
            assert(front.no_duplicates());
            assert(before.contains(last) <==> front.contains(last));
            if front.contains(last) {
                let i = choose|i: int| 0 <= i < front.len() && front[i] == last;
                assert(given[i] == given[given.len() - 1]);
            }
            assert(kept =~= given);
        }
    }
}

/// What a localization set is: a relative output directory, the languages it
/// is written in (an ordered set), the base name of its files, and its entries
/// in the order in which they are written out.
pub struct LocalizationView {
    pub path: Seq<char>,
    pub languages: Seq<Language>,
    pub name: Seq<char>,
    pub entries: Seq<EntryView>,
}

/// A content record that stands for a fixed sequence of entries.
pub trait ToEntries: Sized {
    /// The entries the record stands for, in order.
    spec fn entries_spec(&self) -> Seq<EntryView>;

    /// Turns the record into its entries.
    fn into_entries(self) -> (entries: Vec<Entry>)
        ensures
            entry_views(entries@) == self.entries_spec(),
    ;
}

impl ToEntries for Vec<Entry> {
    open spec fn entries_spec(&self) -> Seq<EntryView> {
        entry_views(self@)
    }

    fn into_entries(self) -> (entries: Vec<Entry>) {
        self
    }
}

/// The entries of a list of records: those of the first record, then those of
/// the second, and so on.
pub open spec fn flatten_entries<T: ToEntries>(values: Seq<T>) -> Seq<EntryView> {
    values.flat_map(|value: T| value.entries_spec())
}

/// Turns each record into its entries and joins them in the order of the
/// records.
pub fn to_entries<T: ToEntries>(values: Vec<T>) -> (entries: Vec<Entry>)
    ensures
        entry_views(entries@) == flatten_entries(values@),
{
    let mut entries: Vec<Entry> = Vec::new();
    let ghost each = |value: T| value.entries_spec();
    assert(entry_views(entries@) =~= values@.take(0).map_values(each).flatten());
    for value in it: values
        invariant
            it.seq() == values@,
            each == |value: T| value.entries_spec(),
            entry_views(entries@) == it.seq().take(it.index() as int).map_values(each).flatten(),
    {
        let ghost done = it.seq().take(it.index() as int);
        let ghost before = entries@;
        let mut more = value.into_entries();
        let ghost added = more@;
        entries.append(&mut more);
        proof {
            assert(it.seq().take(it.index() + 1).map_values(each) =~= done.map_values(each).push(
                each(value),
            ));
            done.map_values(each).lemma_flatten_push(each(value));
            assert(entry_views(entries@) =~= entry_views(before) + entry_views(added));
        }
    }
    assert(values@.take(values@.len() as int) =~= values@);
    entries
}

/// A named, ordered bundle of entries, meant for a set of languages and a
/// relative output directory.
#[derive(Debug)]
pub struct Localization {
    path: String,
    lang: Vec<Language>,
    name: String,
    entries: Vec<Entry>,
}

impl View for Localization {
    type V = LocalizationView;

    closed spec fn view(&self) -> LocalizationView {
        LocalizationView {
            path: self.path@,
            languages: self.lang@,
            name: self.name@,
            entries: entry_views(self.entries@),
        }
    }
}

/// Copies a list of languages, leaving out each language that occurred
/// before.
fn copy_distinct(lang: &[Language]) -> (kept: Vec<Language>)
    ensures
        kept@ == distinct_languages(lang@),
{
    let mut kept: Vec<Language> = Vec::new();
    let mut i: usize = 0;
    assert(lang@.take(0) =~= Seq::<Language>::empty());
    while i < lang.len()
        invariant
            i <= lang.len(),
            kept@ == distinct_languages(lang@.take(i as int)),
        decreases lang.len() - i,
    {
        let language = lang[i];
        let mut seen = false;
        let mut j: usize = 0;
        while j < kept.len()
            invariant
                j <= kept.len(),
                seen <==> exists|k: int| 0 <= k < j && kept@[k] == language,
            decreases kept.len() - j,
        {
            if kept[j] == language {
                seen = true;
            }
            j += 1;
        }
        proof {
            assert(lang@.take(i + 1).drop_last() =~= lang@.take(i as int));
            assert(lang@.take(i + 1).last() == language);
            assert(seen <==> kept@.contains(language));
        }
        if !seen {
            kept.push(language);
        }
        i += 1;
    }
    assert(lang@.take(lang@.len() as int) =~= lang@);
    kept
}

/// Copies a list of entries.
fn copy_entries(entries: &[Entry]) -> (copies: Vec<Entry>)
    ensures
        entry_views(copies@) == entry_views(entries@),
{
    let mut copies: Vec<Entry> = Vec::with_capacity(entries.len());
    let mut i: usize = 0;
    while i < entries.len()
        invariant
            i <= entries.len(),
            copies@.len() == i,
            forall|k: int| 0 <= k < i ==> copies@[k]@ == entries@[k]@,
        decreases entries.len() - i,
    {
        copies.push(entries[i].clone());
        i += 1;
    }
    assert(entry_views(copies@) =~= entry_views(entries@));
    copies
}

impl Localization {
    /// The languages of a localization set form an ordered set.
    #[verifier::type_invariant]
    spec fn languages_are_distinct(self) -> bool {
        self.lang@.no_duplicates()
    }

    /// A localization set with the given entries. A language that is given
    /// more than once counts where it is given first.
    pub fn new(path: &str, lang: &[Language], name: &str, entries: &[Entry]) -> (loc: Localization)
        ensures
            loc@ == (LocalizationView {
                path: path@,
                languages: distinct_languages(lang@),
                name: name@,
                entries: entry_views(entries@),
            }),
    {
        proof {
            lemma_distinct_languages(lang@);
        }
        Localization {
            path: String::from_str(path),
            lang: copy_distinct(lang),
            name: String::from_str(name),
            entries: copy_entries(entries),
        }
    }

    /// A localization set whose entries are those of the given records, in
    /// the order of the records. A language that is given more than once
    /// counts where it is given first.
    pub fn new_from<T: ToEntries>(path: &str, lang: &[Language], name: &str, entries: Vec<T>) -> (loc:
        Localization)
        ensures
            loc@ == (LocalizationView {
                path: path@,
                languages: distinct_languages(lang@),
                name: name@,
                entries: flatten_entries(entries@),
            }),
    {
        proof {
            lemma_distinct_languages(lang@);
        }
        Localization {
            path: String::from_str(path),
            lang: copy_distinct(lang),
            name: String::from_str(name),
            entries: to_entries(entries),
        }
    }

    /// The relative output directory.
    pub fn path(&self) -> (path: &str)
        ensures
            path@ == self@.path,
    {
        self.path.as_str()
    }

    /// The languages the set is written in: no language occurs twice.
    pub fn lang(&self) -> (languages: &Vec<Language>)
        ensures
            languages@ == self@.languages,
            languages@.no_duplicates(),
    {
        proof {
            use_type_invariant(self);
        }
        &self.lang
    }

    /// The base name of the files of the set.
    pub fn name(&self) -> (name: &str)
        ensures
            name@ == self@.name,
    {
        self.name.as_str()
    }

    /// The entries, in the order in which they are written out.
    pub fn entries(&self) -> (entries: &Vec<Entry>)
        ensures
            entry_views(entries@) == self@.entries,
    {
        &self.entries
    }
}

/// A store that localization sets are saved to and loaded from. How a store
/// keeps them is its own business, so nothing is promised here.
pub trait Repository {
    /// Loads the set `name` from below `path`, in the languages `lang`.
    fn load_localization(&self, path: &str, lang: &[Language], name: &str) -> Result<
        Localization,
        LocError,
    >;

    /// Saves the set.
    fn save_localization(&self, loc: &Localization) -> Result<(), LocError>;
}

} // verus!
