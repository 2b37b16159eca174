//! The interface texts: a flat catalogue of keys and their translations.
use crate::text::{contains_char, replace_char, same_text, with_char_replaced};
use vstd::prelude::*;

verus! {

/// The languages the interface is written in.
#[derive(Clone, Copy, Debug, PartialEq, Eq, Structural)]
pub enum AppLocale {
    English,
}

/// A catalogue of translations by flat key, such as `common_save`.
#[derive(Debug, PartialEq, Eq)]
pub struct TranslationData {
    pub translations: Vec<(String, String)>,
}

/// The translation that stands first under `key`, if any does.
pub open spec fn lookup(entries: Seq<(Seq<char>, Seq<char>)>, key: Seq<char>) -> Option<Seq<char>>
    decreases entries.len(),
{
    if entries.len() == 0 {
        None
    } else if entries[0].0 == key {
        Some(entries[0].1)
    } else {
        lookup(entries.skip(1), key)
    }
}

/// The text shown for `key`: its translation; failing that, the translation
/// of the key with every dot turned into an underscore; failing that, the
/// key itself.
pub open spec fn translation_of(entries: Seq<(Seq<char>, Seq<char>)>, key: Seq<char>) -> Seq<char> {
    match lookup(entries, key) {
        Some(text) => text,
        None => match lookup(entries, with_char_replaced(key, '.', '_')) {
            Some(text) => text,
            None => key,
        },
    }
}

impl TranslationData {
    /// The catalogue as pairs of key and translation.
    pub open spec fn entries(&self) -> Seq<(Seq<char>, Seq<char>)> {
        self.translations.deep_view()
    }

    /// The catalogue of a locale, taken from the English one: English is
    /// the only language there is.
    pub fn load_translation(locale: AppLocale, english: &TranslationData) -> (res: Self)
        ensures
            res.entries() == english.entries(),
    {
        match locale {
            AppLocale::English => english.clone(),
        }
    }

    /// The translation that stands first under `key`, if any does.
    pub fn find(&self, key: &str) -> (res: Option<String>)
        ensures
            res.deep_view() == lookup(self.entries(), key@),
    {
        let mut i: usize = 0;
        assert(self.entries().skip(0) =~= self.entries());
        while i < self.translations.len()
            invariant
                i <= self.translations.len(),
                lookup(self.entries(), key@) == lookup(self.entries().skip(i as int), key@),
            decreases self.translations.len() - i,
        {
            let ghost rest = self.entries().skip(i as int);
            assert(rest[0] == self.entries()[i as int]);
            assert(rest.skip(1) =~= self.entries().skip(i + 1));
            if same_text(self.translations[i].0.as_str(), key) {
                return Some(self.translations[i].1.clone());
            }
            i += 1;
        }
        None
    }

    /// The text shown for a key such as `common_save` or `common.save`.
    pub fn get_translation(&self, key: &str) -> (text: String)
        ensures
            text@ == translation_of(self.entries(), key@),
    {
        if let Some(text) = self.find(key) {
            return text;
        }
        if contains_char(key, '.') {
            proof {
                reveal_strlit("_");
            }
            let flat_key = replace_char(key, '.', "_");
            if let Some(text) = self.find(flat_key.as_str()) {
                return text;
            }
        } else {
            assert(with_char_replaced(key@, '.', '_') =~= key@);
        }
        key.to_owned()
    }
}

impl Clone for TranslationData {
    fn clone(&self) -> (res: Self)
        ensures
            res.entries() == self.entries(),
    {
        let mut translations: Vec<(String, String)> = Vec::new();
        let mut i: usize = 0;
        while i < self.translations.len()
            invariant
                i <= self.translations.len(),
                translations.len() == i,
                forall|k: int|
                    0 <= k < i ==> translations[k].deep_view() == self.translations[k].deep_view(),
            decreases self.translations.len() - i,
        {
            let pair = &self.translations[i];
            translations.push((pair.0.clone(), pair.1.clone()));
            i += 1;
        }
        assert(translations.deep_view() =~= self.translations.deep_view());
        TranslationData { translations }
    }
}

/// The language in use and its catalogue.
#[derive(Debug, PartialEq, Eq)]
pub struct LanguageConfigs {
    locale: AppLocale,
    translations: TranslationData,
}

/// What can happen to the language settings.
#[derive(Clone, Copy, Debug, PartialEq, Eq, Structural)]
pub enum LanguageConfigsAction {
    ChangeLocale(AppLocale),
}

impl LanguageConfigs {
    /// The catalogue in use, as pairs of key and translation.
    pub closed spec fn entries(&self) -> Seq<(Seq<char>, Seq<char>)> {
        self.translations.entries()
    }

    /// The language in use.
    pub closed spec fn locale(&self) -> AppLocale {
        self.locale
    }

    /// The settings for a language and its catalogue.
    pub fn new(locale: AppLocale, translations: TranslationData) -> (res: Self)
        ensures
            res.locale() == locale,
            res.entries() == translations.entries(),
    {
        LanguageConfigs { locale, translations }
    }

    /// The catalogue in use.
    pub fn translations(&self) -> (res: &TranslationData)
        ensures
            res.entries() == self.entries(),
    {
        &self.translations
    }

    /// The language in use.
    pub fn current_locale(&self) -> (res: AppLocale)
        ensures
            res == self.locale(),
    {
        self.locale
    }

    /// The text shown for a key.
    pub fn t(&self, key: &str) -> (text: String)
        ensures
            text@ == translation_of(self.entries(), key@),
    {
        self.translations.get_translation(key)
    }

    /// The settings after an action: the new language with its catalogue.
    pub fn reduce(&self, action: LanguageConfigsAction, english: &TranslationData) -> (next: Self)
        ensures
            action matches LanguageConfigsAction::ChangeLocale(locale) && next.locale() == locale,
            next.entries() == english.entries(),
    {
        match action {
            LanguageConfigsAction::ChangeLocale(locale) => LanguageConfigs {
                locale,
                translations: TranslationData::load_translation(locale, english),
            },
        }
    }
}

} // verus!
