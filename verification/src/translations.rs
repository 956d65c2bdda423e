//! The interface texts of the bot: one table of keyed texts per language, and
//! the labels of the keyboard buttons.

use crate::process::Language;
use vstd::hash_map::StringHashMap;
use vstd::prelude::*;

verus! {

pub const ABOUT_EN: &'static str = "About";

pub const ABOUT_RU: &'static str = "О проекте";

pub const MAIN_MENU_EN: &'static str = "Main menu";

pub const MAIN_MENU_RU: &'static str = "Главное меню";

pub const CARD_EN: &'static str = "Draw a card";

pub const CARD_RU: &'static str = "Вытянуть карту";

pub const SHUFFLE_EN: &'static str = "Shuffle drawn cards back";

pub const SHUFFLE_RU: &'static str = "Замешать вытянутые карты в колоду";

pub const SETTINGS_EN: &'static str = "Settings";

pub const SETTINGS_RU: &'static str = "Настройки";

pub const LANGUAGE_EN: &'static str = "Language";

pub const LANGUAGE_RU: &'static str = "Язык";

pub const DESCRIPTIONS_EN: &'static str = "Descriptions";

pub const DESCRIPTIONS_RU: &'static str = "Описания";

pub const EN_EN: &'static str = "English";

pub const RU_RU: &'static str = "Русский";

pub const FULL_DESCRIPTIONS_EN: &'static str = "Full descriptions";

pub const FULL_DESCRIPTIONS_RU: &'static str = "Полные описания";

pub const NAMES_ONLY_EN: &'static str = "Names only";

pub const NAMES_ONLY_RU: &'static str = "Только имена";

pub const NO_DESCRIPTIONS_EN: &'static str = "No descriptions";

pub const NO_DESCRIPTIONS_RU: &'static str = "Без описаний";

/// `<str as PartialEq>::eq` of the standard library: two string slices are
/// equal exactly when they hold the same characters.
pub assume_specification[ <str as PartialEq>::eq ](a: &str, b: &str) -> (equal: bool)
    ensures
        equal == (a@ == b@),
;

/// A text was asked for under a key that the table of the language does not hold.
#[derive(Debug, Clone, Copy, PartialEq, Eq, Structural)]
pub struct MissingTranslation;

impl MissingTranslation {
    pub fn message(&self) -> (text: String)
        ensures
            text@ == "Missing translation!"@,
    {
        "Missing translation!".to_owned()
    }
}

/// Key and text of each entry, in the order of `entries`.
pub open spec fn entries_view(entries: Seq<(String, String)>) -> Seq<(Seq<char>, Seq<char>)> {
    entries.map_values(|entry: (String, String)| (entry.0@, entry.1@))
}

/// The table that holds `entries`; of two entries with one key the later one stays.
pub open spec fn table_of(entries: Seq<(Seq<char>, Seq<char>)>) -> Map<Seq<char>, Seq<char>>
    decreases entries.len(),
{
    if entries.len() == 0 {
        Map::empty()
    } else {
        table_of(entries.drop_last()).insert(entries.last().0, entries.last().1)
    }
}

/// The two tables as the contracts see them.
pub struct TranslationView {
    pub en: Map<Seq<char>, Seq<char>>,
    pub ru: Map<Seq<char>, Seq<char>>,
}

impl TranslationView {
    pub open spec fn table(self, language: Language) -> Map<Seq<char>, Seq<char>> {
        match language {
            Language::En => self.en,
            Language::Ru => self.ru,
        }
    }

    /// The text under `key` in `language`, if the table of that language has the key.
    pub open spec fn lookup(self, key: Seq<char>, language: Language) -> Option<Seq<char>> {
        if self.table(language).contains_key(key) {
            Some(self.table(language)[key])
        } else {
            None
        }
    }

    /// The same tables with `text` under `key` in `language`.
    pub open spec fn with(
        self,
        language: Language,
        key: Seq<char>,
        text: Seq<char>,
    ) -> TranslationView {
        match language {
            Language::En => TranslationView { en: self.en.insert(key, text), ru: self.ru },
            Language::Ru => TranslationView { en: self.en, ru: self.ru.insert(key, text) },
        }
    }
}

/// The keyed texts of the interface, one table per language.
pub struct Translation {
    en: StringHashMap<String>,
    ru: StringHashMap<String>,
}

/// The texts of a table of strings.
pub closed spec fn texts(table: Map<Seq<char>, String>) -> Map<Seq<char>, Seq<char>> {
    table.map_values(|text: String| text@)
}

proof fn lemma_texts_insert(table: Map<Seq<char>, String>, key: Seq<char>, text: String)
    ensures
        texts(table.insert(key, text)) == texts(table).insert(key, text@),
{
    assert(texts(table.insert(key, text)) =~= texts(table).insert(key, text@));
}

proof fn lemma_texts_empty()
    ensures
        texts(Map::<Seq<char>, String>::empty()) == Map::<Seq<char>, Seq<char>>::empty(),
{
    assert(texts(Map::<Seq<char>, String>::empty()) =~= Map::<Seq<char>, Seq<char>>::empty());
}

impl View for Translation {
    type V = TranslationView;

    closed spec fn view(&self) -> TranslationView {
        TranslationView { en: texts(self.en@), ru: texts(self.ru@) }
    }
}

impl Translation {
    /// Two empty tables.
    pub fn new() -> (translation: Translation)
        ensures
            translation@.en == Map::<Seq<char>, Seq<char>>::empty(),
            translation@.ru == Map::<Seq<char>, Seq<char>>::empty(),
    {
        proof {
            lemma_texts_empty();
        }
        Translation { en: StringHashMap::new(), ru: StringHashMap::new() }
    }

    /// Puts `text` under `key` in the table of `language`, in place of what stood there.
    pub fn insert(&mut self, language: Language, key: String, text: String)
        ensures
            final(self)@ == old(self)@.with(language, key@, text@),
    {
        proof {
            match language {
                Language::En => lemma_texts_insert(self.en@, key@, text),
                Language::Ru => lemma_texts_insert(self.ru@, key@, text),
            }
        }
        match language {
            Language::En => self.en.insert(key, text),
            Language::Ru => self.ru.insert(key, text),
        }
    }

    /// The text under `key` in `language`. A key that the table lacks is an
    /// error; no other text takes its place.
    pub fn get(&self, key: &str, language: Language) -> (text: Result<String, MissingTranslation>)
        ensures
            match text {
                Ok(t) => self@.lookup(key@, language) == Some(t@),
                Err(_) => self@.lookup(key@, language) is None,
            },
    {
        let selected_translation = match language {
            Language::En => &self.en,
            Language::Ru => &self.ru,
        };
        match selected_translation.get(key) {
            Some(t) => Ok(t.clone()),
            None => Err(MissingTranslation),
        }
    }

    /// The tables that hold the given entries, and nothing else.
    pub fn from_entries(en: &Vec<(String, String)>, ru: &Vec<(String, String)>) -> (translation:
        Translation)
        ensures
            translation@.en == table_of(entries_view(en@)),
            translation@.ru == table_of(entries_view(ru@)),
    {
        let en_table = table_from_entries(en);
        let ru_table = table_from_entries(ru);
        Translation { en: en_table, ru: ru_table }
    }
}

fn table_from_entries(entries: &Vec<(String, String)>) -> (table: StringHashMap<String>)
    ensures
        texts(table@) == table_of(entries_view(entries@)),
{
    let mut table: StringHashMap<String> = StringHashMap::new();
    proof {
        lemma_texts_empty();
    }
    let mut i: usize = 0;
    while i < entries.len()
        invariant
            i <= entries.len(),
            texts(table@) == table_of(entries_view(entries@).take(i as int)),
        decreases entries.len() - i,
    {
        let key = entries[i].0.clone();
        let text = entries[i].1.clone();
        proof {
            let all = entries_view(entries@);
            assert(all.take(i + 1).drop_last() =~= all.take(i as int));
            assert(all.take(i + 1).last() == (key@, text@));
            lemma_texts_insert(table@, key@, text);
        }
        table.insert(key, text);
        i += 1;
    }
    proof {
        let all = entries_view(entries@);
        assert(all.take(i as int) =~= all);
    }
    table
}

/// The error type of `serde_yaml`; nothing is read from it.
#[verifier::external_type_specification]
#[verifier::external_body]
pub struct ExYamlError(serde_yaml::Error);

/// The table that `serde_yaml::from_str` reads from a text when it is asked
/// for a map from strings to strings; `None` where it reports an error.
pub uninterp spec fn yaml_table(text: Seq<char>) -> Option<Map<Seq<char>, Seq<char>>>;

/// `serde_yaml::from_str` at the type `HashMap<String, String>`, its entries
/// handed out as pairs in the order in which the map yields them. Trusted:
/// the entries make up the table named `yaml_table`, and an error is
/// returned exactly where that name is `None`.
#[verifier::external_body]
fn read_yaml_table(text: &str) -> (entries: Result<Vec<(String, String)>, serde_yaml::Error>)
    ensures
        match entries {
            Ok(e) => yaml_table(text@) == Some(table_of(entries_view(e@))),
            Err(_) => yaml_table(text@) is None,
        },
{
    let table = serde_yaml::from_str::<std::collections::HashMap<String, String>>(text)?;
    Ok(table.into_iter().collect())
}

/// Why the tables could not be read.
#[derive(Debug, Clone, Copy, PartialEq, Eq, Structural)]
pub enum TranslationError {
    /// The Russian text is no table of strings.
    Russian,
    /// The English text is no table of strings.
    English,
}

/// Reads the two tables from their YAML texts, the Russian one first. Each
/// text must hold one map from strings to strings.
pub fn translation(file_string_ru: &str, file_string_en: &str) -> (tables: Result<
    Translation,
    TranslationError,
>)
    ensures
        match tables {
            Ok(t) => yaml_table(file_string_ru@) == Some(t@.ru) && yaml_table(file_string_en@)
                == Some(t@.en),
            Err(TranslationError::Russian) => yaml_table(file_string_ru@) is None,
            Err(TranslationError::English) => yaml_table(file_string_ru@) is Some && yaml_table(
                file_string_en@,
            ) is None,
        },
{
    let result_ru = match read_yaml_table(file_string_ru) {
        Ok(entries) => entries,
        Err(_) => {
            return Err(TranslationError::Russian);
        },
    };
    let result_en = match read_yaml_table(file_string_en) {
        Ok(entries) => entries,
        Err(_) => {
            return Err(TranslationError::English);
        },
    };
    Ok(Translation::from_entries(&result_en, &result_ru))
}

} // verus!
