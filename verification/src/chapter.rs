//! A chapter of a manga, and the search for another one.
use vstd::prelude::*;

use crate::text::{decimal, decimal_text};

verus! {

/// The languages that chapters are translated to.
#[derive(Debug, Clone, Copy, PartialEq, Eq, Structural)]
pub enum Languages {
    Arabic,
    BrazilianPortuguese,
    English,
    French,
    German,
    Italian,
    Japanese,
    Korean,
    Portuguese,
    Russian,
    SimplifiedChinese,
    Spanish,
    SpanishLa,
    TraditionalChinese,
}

impl Default for Languages {
    fn default() -> (language: Self)
        ensures
            language == Languages::English,
    {
        Languages::English
    }
}

/// A chapter as the server describes it.
#[derive(Debug, Clone, PartialEq)]
pub struct Chapter {
    pub id: String,
    pub base_url: String,
    pub number: u32,
    pub volume_number: Option<u32>,
    pub pages_url: Vec<String>,
    pub language: Languages,
}

impl Default for Chapter {
    fn default() -> (chapter: Self)
        ensures
            chapter.id@ == Seq::<char>::empty(),
            chapter.base_url@ == Seq::<char>::empty(),
            chapter.number == 1,
            chapter.volume_number == Some(1u32),
            chapter.pages_url@ == Seq::<String>::empty(),
            chapter.language == Languages::English,
    {
        Chapter {
            id: String::default(),
            base_url: String::default(),
            number: 1,
            volume_number: Some(1),
            pages_url: Vec::new(),
            language: Languages::default(),
        }
    }
}

/// What a search for a chapter asks the server.
#[derive(Debug, PartialEq)]
pub struct ChapterSearch {
    pub manga_id: String,
    pub volume_number: String,
    pub chapter_number: String,
    pub language: Languages,
}

/// The volume that a search names: the chapter's own, or zero where it belongs to none.
pub open spec fn searched_volume(volume_number: Option<u32>) -> nat {
    match volume_number {
        Some(volume) => volume as nat,
        None => 0,
    }
}

impl Chapter {
    /// `search` asks for this chapter among those of the manga `manga_id`.
    pub open spec fn searched_by(self, search: ChapterSearch, manga_id: String) -> bool {
        &&& search.manga_id == manga_id
        &&& search.volume_number@ == decimal(searched_volume(self.volume_number))
        &&& search.chapter_number@ == decimal(self.number as nat)
        &&& search.language == self.language
    }

    /// The search for this chapter among those of the manga `manga_id`.
    pub fn search_in(&self, manga_id: &String) -> (search: ChapterSearch)
        ensures
            self.searched_by(search, *manga_id),
            search.manga_id == *manga_id,
            self.volume_number matches Some(volume) ==> search.volume_number@ == decimal(
                volume as nat,
            ),
            self.volume_number is None ==> search.volume_number@ == seq!['0'],
            search.chapter_number@ == decimal(self.number as nat),
            search.language == self.language,
    {
        let volume: u32 = match self.volume_number {
            Some(volume) => volume,
            None => 0,
        };
        ChapterSearch {
            manga_id: manga_id.clone(),
            volume_number: decimal_text(volume),
            chapter_number: decimal_text(self.number),
            language: self.language,
        }
    }
}

} // verus!
