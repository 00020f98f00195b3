//! Content records about cultures, and the entries each of them stands for.

use super::{content_map, entry_views, Entry, EntryView, ToEntries};
use crate::text::{concat2, concat3};
use vstd::prelude::*;
use vstd::string::*;

verus! {

/// An entry of version 0 whose only content is an English text.
pub open spec fn english_entry(key: Seq<char>, text: Seq<char>, comment: Seq<char>) -> EntryView {
    EntryView {
        key,
        version: 0,
        content: Map::empty().insert(super::Language::English, text),
        comment,
    }
}

/// Builds an entry of version 0 whose only content is an English text.
fn make_english_entry(key: &str, text: String, comment: &str) -> (entry: Entry)
    ensures
        entry@ == english_entry(key@, text@, comment@),
{
    let mut content: Vec<(super::Language, String)> = Vec::with_capacity(1);
    content.push((super::Language::English, text));
    proof {
        assert(content@.drop_last() =~= Seq::empty());
        reveal_with_fuel(content_map, 2);
    }
    Entry::new(key, 0, content, comment)
}

/// What a heritage record holds.
pub struct HeritageView {
    pub key: Seq<char>,
    pub name: Seq<char>,
    pub collective_noun: Seq<char>,
    pub comment: Seq<char>,
}

/// A cultural heritage: its key, its name and the noun for its people.
#[derive(Debug)]
pub struct Heritage {
    key: String,
    name: String,
    collective_noun: String,
    comment: String,
}

impl View for Heritage {
    type V = HeritageView;

    closed spec fn view(&self) -> HeritageView {
        HeritageView {
            key: self.key@,
            name: self.name@,
            collective_noun: self.collective_noun@,
            comment: self.comment@,
        }
    }
}

impl Heritage {
    /// A heritage record with the given parts.
    pub fn new(key: &str, name: &str, collective_noun: &str, comment: &str) -> (heritage: Self)
        ensures
            heritage@ == (HeritageView {
                key: key@,
                name: name@,
                collective_noun: collective_noun@,
                comment: comment@,
            }),
    {
        Self {
            key: String::from_str(key),
            name: String::from_str(name),
            collective_noun: String::from_str(collective_noun),
            comment: String::from_str(comment),
        }
    }

    /// The key of the heritage.
    pub fn key(&self) -> (key: &str)
        ensures
            key@ == self@.key,
    {
        self.key.as_str()
    }

    /// The name of the heritage.
    pub fn name(&self) -> (name: &str)
        ensures
            name@ == self@.name,
    {
        self.name.as_str()
    }

    /// The noun for the people of the heritage.
    pub fn collective_noun(&self) -> (collective_noun: &str)
        ensures
            collective_noun@ == self@.collective_noun,
    {
        self.collective_noun.as_str()
    }

    /// The comment that goes with each entry of the heritage.
    pub fn comment(&self) -> (comment: &str)
        ensures
            comment@ == self@.comment,
    {
        self.comment.as_str()
    }
}

impl ToEntries for Heritage {
    /// Two entries, `heritage_<key>_name` and `heritage_<key>_collective_noun`,
    /// with the name and the collective noun as English content.
    open spec fn entries_spec(&self) -> Seq<EntryView> {
        seq![
            english_entry("heritage_"@ + self@.key + "_name"@, self@.name, self@.comment),
            english_entry(
                "heritage_"@ + self@.key + "_collective_noun"@,
                self@.collective_noun,
                self@.comment,
            ),
        ]
    }

    fn into_entries(self) -> (entries: Vec<Entry>) {
        let name_key = concat3("heritage_", self.key.as_str(), "_name");
        let noun_key = concat3("heritage_", self.key.as_str(), "_collective_noun");
        let mut entries: Vec<Entry> = Vec::with_capacity(2);
        entries.push(make_english_entry(name_key.as_str(), self.name, self.comment.as_str()));
        entries.push(
            make_english_entry(noun_key.as_str(), self.collective_noun, self.comment.as_str()),
        );
        assert(entry_views(entries@) =~= self.entries_spec());
        entries
    }
}

/// What a language label holds.
pub struct LanguageView {
    pub key: Seq<char>,
    pub name: Seq<char>,
    pub comment: Seq<char>,
}

/// The label of a language that a culture speaks.
#[derive(PartialEq, Debug)]
pub struct Language {
    key: String,
    name: String,
    comment: String,
}

impl View for Language {
    type V = LanguageView;

    closed spec fn view(&self) -> LanguageView {
        LanguageView { key: self.key@, name: self.name@, comment: self.comment@ }
    }
}

impl Language {
    /// A language label with the given parts.
    pub fn new(key: &str, name: &str, comment: &str) -> (label: Self)
        ensures
            label@ == (LanguageView { key: key@, name: name@, comment: comment@ }),
    {
        Self {
            key: String::from_str(key),
            name: String::from_str(name),
            comment: String::from_str(comment),
        }
    }

    /// The key of the language.
    pub fn key(&self) -> (key: &str)
        ensures
            key@ == self@.key,
    {
        self.key.as_str()
    }

    /// The name of the language.
    pub fn name(&self) -> (name: &str)
        ensures
            name@ == self@.name,
    {
        self.name.as_str()
    }

    /// The comment that goes with the entry of the language.
    pub fn comment(&self) -> (comment: &str)
        ensures
            comment@ == self@.comment,
    {
        self.comment.as_str()
    }
}

impl ToEntries for Language {
    /// One entry, `language_<key>_name`, with the name as English content.
    open spec fn entries_spec(&self) -> Seq<EntryView> {
        seq![english_entry("language_"@ + self@.key + "_name"@, self@.name, self@.comment)]
    }

    fn into_entries(self) -> (entries: Vec<Entry>) {
        let name_key = concat3("language_", self.key.as_str(), "_name");
        let mut entries: Vec<Entry> = Vec::with_capacity(1);
        entries.push(make_english_entry(name_key.as_str(), self.name, self.comment.as_str()));
        assert(entry_views(entries@) =~= self.entries_spec());
        entries
    }
}

/// What a culture record holds.
pub struct CultureView {
    pub key: Seq<char>,
    pub name: Seq<char>,
    pub adjective: Seq<char>,
    pub collective_noun: Seq<char>,
    pub comment: Seq<char>,
}

/// A culture: its key, its name, its adjective and the noun for its people.
#[derive(Debug)]
pub struct Culture {
    key: String,
    name: String,
    adjective: String,
    collective_noun: String,
    comment: String,
}

impl View for Culture {
    type V = CultureView;

    closed spec fn view(&self) -> CultureView {
        CultureView {
            key: self.key@,
            name: self.name@,
            adjective: self.adjective@,
            collective_noun: self.collective_noun@,
            comment: self.comment@,
        }
    }
}

impl Culture {
    /// A culture record with the given parts.
    pub fn new(key: &str, name: &str, adjective: &str, collective_noun: &str, comment: &str) -> (culture:
        Self)
        ensures
            culture@ == (CultureView {
                key: key@,
                name: name@,
                adjective: adjective@,
                collective_noun: collective_noun@,
                comment: comment@,
            }),
    {
        Self {
            key: String::from_str(key),
            name: String::from_str(name),
            adjective: String::from_str(adjective),
            collective_noun: String::from_str(collective_noun),
            comment: String::from_str(comment),
        }
    }

    /// The key of the culture.
    pub fn key(&self) -> (key: &str)
        ensures
            key@ == self@.key,
    {
        self.key.as_str()
    }

    /// The name of the culture.
    pub fn name(&self) -> (name: &str)
        ensures
            name@ == self@.name,
    {
        self.name.as_str()
    }

    /// The adjective of the culture.
    pub fn adjective(&self) -> (adjective: &str)
        ensures
            adjective@ == self@.adjective,
    {
        self.adjective.as_str()
    }

    /// The noun for the people of the culture.
    pub fn collective_noun(&self) -> (collective_noun: &str)
        ensures
            collective_noun@ == self@.collective_noun,
    {
        self.collective_noun.as_str()
    }

    /// The comment that goes with each entry of the culture.
    pub fn comment(&self) -> (comment: &str)
        ensures
            comment@ == self@.comment,
    {
        self.comment.as_str()
    }
}

impl ToEntries for Culture {
    /// Three entries, `<key>`, `<key>_prefix` and `<key>_collective_noun`,
    /// with the name, the adjective and the collective noun as English
    /// content.
    open spec fn entries_spec(&self) -> Seq<EntryView> {
        seq![
            english_entry(self@.key, self@.name, self@.comment),
            english_entry(self@.key + "_prefix"@, self@.adjective, self@.comment),
            english_entry(self@.key + "_collective_noun"@, self@.collective_noun, self@.comment),
        ]
    }

    fn into_entries(self) -> (entries: Vec<Entry>) {
        let prefix_key = concat2(self.key.as_str(), "_prefix");
        let noun_key = concat2(self.key.as_str(), "_collective_noun");
        let mut entries: Vec<Entry> = Vec::with_capacity(3);
        entries.push(make_english_entry(self.key.as_str(), self.name, self.comment.as_str()));
        entries.push(make_english_entry(prefix_key.as_str(), self.adjective, self.comment.as_str()));
        entries.push(
            make_english_entry(noun_key.as_str(), self.collective_noun, self.comment.as_str()),
        );
        assert(entry_views(entries@) =~= self.entries_spec());
        entries
    }
}

} // verus!
