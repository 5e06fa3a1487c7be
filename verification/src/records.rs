//! The records of the history store, as plain values.
//!
//! The store itself — its database and queries — belongs to the consumer of
//! the pipeline; these types are the shape of what it keeps.

use vstd::prelude::*;

verus! {

/// One stored translation.
#[derive(Clone, Debug)]
pub struct Translation {
    /// The record's identifier.
    pub id: i64,
    /// Creation time of the record, as text.
    pub timestamp: String,
    /// The text in the source language.
    pub source_text: String,
    /// The source language.
    pub source_lang: String,
    /// The text in the target language.
    pub target_text: String,
    /// The target language.
    pub target_lang: String,
}

/// A named list of translations.
#[derive(Clone, Debug)]
pub struct TranslationList {
    /// The list's identifier.
    pub id: i64,
    /// The list's name.
    pub name: String,
    /// Creation time of the list, as text.
    pub created_at: String,
}

/// Membership of one translation in one list.
#[derive(Clone, Copy, Debug, PartialEq, Eq, Structural)]
pub struct ListEntry {
    /// The entry's identifier.
    pub id: i64,
    /// The list the translation belongs to.
    pub list_id: i64,
    /// The translation.
    pub translation_id: i64,
}

} // verus!
