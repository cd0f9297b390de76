//! What reaches the reader page: keys, the mouse, ticks, and news from the background.
use vstd::prelude::*;

use crate::chapter::Chapter;
use crate::page::PageData;

verus! {

/// A key, as far as the page tells keys apart.
#[derive(Debug, Clone, Copy, PartialEq, Eq, Structural)]
pub enum KeyCode {
    Up,
    Down,
    Char(char),
    Other,
}

/// What the mouse did, as far as the page tells it apart.
#[derive(Debug, Clone, Copy, PartialEq, Eq, Structural)]
pub enum MouseEventKind {
    ScrollUp,
    ScrollDown,
    Other,
}

/// An event of the terminal.
#[derive(Debug, Clone, Copy, PartialEq, Eq, Structural)]
pub enum Events {
    Key(KeyCode),
    Mouse(MouseEventKind),
    Tick,
    Other,
}

/// What the user can ask of the page.
#[derive(Debug, Clone, Copy, PartialEq, Eq, Structural)]
pub enum MangaReaderActions {
    SearchNextChapter,
    NextPage,
    PreviousPage,
}

/// News for the page: its own wishes, and the outcome of work done in the background.
#[derive(Debug, PartialEq)]
pub enum MangaReaderEvents {
    ErrorSearchingChapter,
    ChapterNotFound,
    LoadChapter(Chapter),
    SearchNextChapter,
    FetchPages,
    LoadPage(Option<PageData>),
}

/// What an event of the terminal leads to.
#[derive(Debug, Clone, Copy, PartialEq, Eq, Structural)]
pub enum Reaction {
    /// Nothing happens.
    Ignore,
    /// The action is queued.
    Send(MangaReaderActions),
    /// The page takes its next piece of news, if there is one.
    Tick,
}

/// The action that a key stands for.
pub open spec fn key_action(key: KeyCode) -> Option<MangaReaderActions> {
    if key == KeyCode::Down || key == KeyCode::Char('j') {
        Some(MangaReaderActions::NextPage)
    } else if key == KeyCode::Up || key == KeyCode::Char('k') {
        Some(MangaReaderActions::PreviousPage)
    } else if key == KeyCode::Char('w') {
        Some(MangaReaderActions::SearchNextChapter)
    } else {
        None
    }
}

/// The action that the mouse stands for.
pub open spec fn mouse_action(kind: MouseEventKind) -> Option<MangaReaderActions> {
    match kind {
        MouseEventKind::ScrollUp => Some(MangaReaderActions::PreviousPage),
        MouseEventKind::ScrollDown => Some(MangaReaderActions::NextPage),
        MouseEventKind::Other => None,
    }
}

/// What an event of the terminal leads to.
pub open spec fn reaction_to(event: Events) -> Reaction {
    match event {
        Events::Key(key) => match key_action(key) {
            Some(action) => Reaction::Send(action),
            None => Reaction::Ignore,
        },
        Events::Mouse(kind) => match mouse_action(kind) {
            Some(action) => Reaction::Send(action),
            None => Reaction::Ignore,
        },
        Events::Tick => Reaction::Tick,
        Events::Other => Reaction::Ignore,
    }
}

/// The news that the server's reply to a search for a chapter brings.
pub open spec fn search_outcome<E>(reply: Result<Option<Chapter>, E>) -> MangaReaderEvents {
    match reply {
        Ok(Some(chapter)) => MangaReaderEvents::LoadChapter(chapter),
        Ok(None) => MangaReaderEvents::ChapterNotFound,
        Err(_) => MangaReaderEvents::ErrorSearchingChapter,
    }
}

/// The news that the server's reply to a search for a chapter brings.
pub fn chapter_searched<E>(reply: Result<Option<Chapter>, E>) -> (event: MangaReaderEvents)
    ensures
        event == search_outcome(reply),
        reply matches Ok(Some(chapter)) ==> event == MangaReaderEvents::LoadChapter(chapter),
        event == MangaReaderEvents::ChapterNotFound <==> (reply is Ok && reply->Ok_0 is None),
        event == MangaReaderEvents::ErrorSearchingChapter <==> reply is Err,
{
    match reply {
        Ok(found) => match found {
            Some(chapter) => MangaReaderEvents::LoadChapter(chapter),
            None => MangaReaderEvents::ChapterNotFound,
        },
        Err(_) => MangaReaderEvents::ErrorSearchingChapter,
    }
}

} // verus!
