//! The reader page.
use std::collections::VecDeque;

use image::DynamicImage;
use tokio::sync::mpsc::UnboundedSender;
use tui_widget_list::ListState;
use vstd::prelude::*;

use crate::area::{inner_area, layout_may_give, split_columns, Area, Columns};
use crate::chapter::{searched_volume, Chapter, ChapterSearch};
use crate::events::{
    key_action, reaction_to, Events, KeyCode, MangaReaderActions, MangaReaderEvents,
    MouseEventKind, Reaction,
};
use crate::list_state::{
    after_next, after_previous, list_circular, list_len, list_selected, new_list_state,
    selected_position,
};
use crate::page::{
    endpoint_text, loading_items, page_endpoint, page_requests, requests_for, texts_of, views_of,
    with_loaded, Page, PageData, PageItemState, PageRequest, PageType, PagesItem, PagesList,
};
use crate::text::decimal;
use crate::url::{parse_url, parsed_url, text_of};

verus! {

/// The sending half of a `tokio` channel. The page only keeps it: nothing is said of it.
#[verifier::external_type_specification]
#[verifier::external_body]
#[verifier::reject_recursive_types(T)]
pub struct ExUnboundedSender<T>(UnboundedSender<T>);

/// What the page is waiting for.
#[derive(Debug, Clone, Copy, PartialEq, Eq, Structural)]
pub enum State {
    SearchingChapter,
    SearchingPages,
}

/// How much wider than high a page must be, in pixels, to be shown across the screen.
pub const WIDE_MARGIN: u32 = 250;

/// The weight of the middle column beside columns of weight one.
pub const NARROW_PAGE: u16 = 2;

/// The weight of the middle column for a page that is shown across the screen.
pub const WIDE_PAGE: u16 = 5;

/// The page's weight on the screen after an image of these dimensions has been shown.
pub open spec fn page_size_for(current: u16, dimensions: (u32, u32)) -> u16 {
    if dimensions.0 <= dimensions.1 {
        NARROW_PAGE
    } else if dimensions.0 - dimensions.1 > WIDE_MARGIN {
        WIDE_PAGE
    } else {
        current
    }
}

/// What stands in the middle of the screen.
#[derive(Debug, Clone, Copy, PartialEq, Eq, Structural)]
pub enum PageContent {
    /// The image of the page at this position.
    Image(usize),
    /// A frame that says that the page is loading.
    Loading,
}

/// What is to be drawn, and where.
#[derive(Debug, Clone, Copy, PartialEq, Eq, Structural)]
pub struct ReaderFrame {
    /// A border on the left, the page in the middle, the instructions on the right.
    pub columns: Columns,
    /// The list of pages, inside the border on the left.
    pub page_list: Area,
    pub content: PageContent,
}

/// The page on which a chapter is read. `S` is the form in which the terminal shows images.
pub struct MangaReader<S> {
    pub manga_id: String,
    pub chapter: Chapter,
    pub pages: Vec<Page<S>>,
    pub pages_list: PagesList,
    pub current_page_size: u16,
    pub page_list_state: ListState,
    pub state: State,
    /// Where the page can send events of the terminal to, if it was told.
    pub _global_event_tx: Option<UnboundedSender<Events>>,
}

impl<S> MangaReader<S> {
    /// The pages are those of the chapter, in order, or none. Every page has its dimensions exactly
    /// if it has its image. The list has a line for each page, in order, or none. The page's weight
    /// on the screen is one of the two that there are.
    pub open spec fn wf(self) -> bool {
        &&& self.pages@.len() == 0 || self.pages@.len() == self.chapter.pages_url@.len()
        &&& forall|i: int|
            0 <= i < self.pages@.len() ==> {
                &&& (#[trigger] self.pages@[i]).wf()
                &&& self.pages@[i].url == self.chapter.pages_url@[i]
            }
        &&& self.pages_list.pages@.len() == 0 || self.pages_list.pages@.len() == self.pages@.len()
        &&& forall|i: int|
            0 <= i < self.pages_list.pages@.len() ==> (#[trigger] self.pages_list.pages@[i]).number
                == i as usize
        &&& self.current_page_size == NARROW_PAGE || self.current_page_size == WIDE_PAGE
    }

    /// The position of the page that is shown: the selected one, or the first.
    pub open spec fn shown_position(self) -> int {
        match list_selected(self.page_list_state) {
            Some(position) => position as int,
            None => 0,
        }
    }

    /// The page that is shown has its image.
    pub open spec fn shows_image(self) -> bool {
        &&& self.shown_position() < self.pages@.len()
        &&& self.pages@[self.shown_position()].image_state is Some
    }

    /// If the page that is shown has its image, its dimensions are known.
    pub open spec fn can_render(self) -> bool {
        self.shows_image() ==> self.pages@[self.shown_position()].dimensions is Some
    }

    /// What stands in the middle of the screen.
    pub open spec fn content(self) -> PageContent {
        if self.shows_image() {
            PageContent::Image(self.shown_position() as usize)
        } else {
            PageContent::Loading
        }
    }

    /// The page's weight on the screen after it has been shown.
    pub open spec fn size_when_shown(self) -> u16 {
        if self.shows_image() {
            page_size_for(
                self.current_page_size,
                self.pages@[self.shown_position()].dimensions->0,
            )
        } else {
            self.current_page_size
        }
    }

    /// The page stands at the beginning of `chapter`: no page is loaded, listed or selected.
    pub open spec fn is_fresh(self, chapter: Chapter, manga_id: String) -> bool {
        &&& self.chapter == chapter
        &&& self.manga_id == manga_id
        &&& self.pages@.len() == chapter.pages_url@.len()
        &&& forall|i: int|
            0 <= i < self.pages@.len() ==> {
                &&& (#[trigger] self.pages@[i]).url == chapter.pages_url@[i]
                &&& self.pages@[i].page_type == PageType::LowQuality
                &&& self.pages@[i].image_state is None
                &&& self.pages@[i].dimensions is None
            }
        &&& self.pages_list.pages@ == Seq::<PagesItem>::empty()
        &&& self.current_page_size == NARROW_PAGE
        &&& self.state == State::SearchingPages
        &&& list_selected(self.page_list_state) is None
        &&& list_len(self.page_list_state) == 0
        &&& list_circular(self.page_list_state)
        &&& self._global_event_tx is None
    }

    /// A reader page for `chapter`, with all its pages still to be loaded in low quality.
    pub fn new(chapter: Chapter, manga_id: String) -> (reader: Self)
        ensures
            reader.is_fresh(chapter, manga_id),
            reader.chapter == chapter,
            reader.manga_id == manga_id,
            reader.pages@.len() == chapter.pages_url@.len(),
            forall|i: int|
                0 <= i < chapter.pages_url@.len() ==> {
                    &&& (#[trigger] reader.pages@[i]).url == chapter.pages_url@[i]
                    &&& reader.pages@[i].page_type == PageType::LowQuality
                    &&& reader.pages@[i].image_state is None
                    &&& reader.pages@[i].dimensions is None
                },
            reader.pages_list.pages@.len() == 0,
            reader.current_page_size == 2,
            reader.state == State::SearchingPages,
            list_selected(reader.page_list_state) is None,
            list_len(reader.page_list_state) == 0,
            list_circular(reader.page_list_state),
            reader._global_event_tx is None,
            reader.wf(),
    {
        let mut pages: Vec<Page<S>> = Vec::new();
        let mut i: usize = 0;
        while i < chapter.pages_url.len()
            invariant
                i <= chapter.pages_url.len(),
                pages@.len() == i,
                forall|j: int|
                    0 <= j < i ==> {
                        &&& (#[trigger] pages@[j]).url == chapter.pages_url@[j]
                        &&& pages@[j].page_type == PageType::LowQuality
                        &&& pages@[j].image_state is None
                        &&& pages@[j].dimensions is None
                    },
            decreases chapter.pages_url.len() - i,
        {
            pages.push(Page::new(chapter.pages_url[i].clone(), PageType::LowQuality));
            i += 1;
        }
        MangaReader {
            manga_id,
            chapter,
            pages,
            pages_list: PagesList::default(),
            current_page_size: NARROW_PAGE,
            page_list_state: new_list_state(),
            state: State::SearchingPages,
            _global_event_tx: None,
        }
    }

    /// The page with the given place to send events of the terminal to.
    pub fn with_global_sender(self, sender: UnboundedSender<Events>) -> (reader: Self)
        ensures
            reader == (MangaReader { _global_event_tx: Some(sender), ..self }),
            self.wf() ==> reader.wf(),
    {
        let mut reader = self;
        reader._global_event_tx = Some(sender);
        reader
    }

    /// Lays the page out in `area` and says what is to be drawn. An image that is shown sets the
    /// page's weight for the next time.
    pub fn render(&mut self, area: Area) -> (frame: ReaderFrame)
        requires
            old(self).can_render(),
        ensures
            frame.columns.divide(area),
            layout_may_give(
                area,
                seq![1u16, old(self).current_page_size, 1u16],
                1,
                frame.columns,
            ),
            frame.page_list == frame.columns.left.within_margin(1, 1),
            frame.content == old(self).content(),
            old(self).rendered(*final(self)),
            forall|i: usize|
                (list_selected(old(self).page_list_state) == Some(i) || (list_selected(
                    old(self).page_list_state,
                ) is None && i == 0)) && i < old(self).pages@.len() && (
                #[trigger] old(self).pages@[i as int]).image_state is Some ==> {
                    let (width, height) = old(self).pages@[i as int].dimensions->0;
                    &&& frame.content == PageContent::Image(i)
                    &&& width <= height ==> final(self).current_page_size == 2
                    &&& width > height + 250 ==> final(self).current_page_size == 5
                    &&& height < width <= height + 250 ==> final(self).current_page_size == old(self).current_page_size
                },
            frame.content matches PageContent::Image(i) ==> i < old(self).pages@.len() && old(self).pages@[i as int].image_state is Some && (list_selected(old(self).page_list_state)
                == Some(i) || (list_selected(old(self).page_list_state) is None && i == 0)),
            frame.content == PageContent::Loading ==> final(self).current_page_size == old(self).current_page_size,
            old(self).wf() ==> final(self).wf(),
    {
        let columns = split_columns(area, [1, self.current_page_size, 1], 1);
        self.render_columns(columns)
    }

    /// From this page to `after`, the page was shown, which sets its weight on the screen alone.
    pub open spec fn rendered(self, after: Self) -> bool {
        after == (MangaReader { current_page_size: self.size_when_shown(), ..self })
    }

    /// Says what is to be drawn in the given columns.
    pub fn render_columns(&mut self, columns: Columns) -> (frame: ReaderFrame)
        requires
            old(self).can_render(),
        ensures
            frame == (ReaderFrame {
                columns,
                page_list: columns.left.within_margin(1, 1),
                content: old(self).content(),
            }),
            old(self).rendered(*final(self)),
            forall|i: usize|
                (list_selected(old(self).page_list_state) == Some(i) || (list_selected(
                    old(self).page_list_state,
                ) is None && i == 0)) && i < old(self).pages@.len() && (
                #[trigger] old(self).pages@[i as int]).image_state is Some ==> {
                    let (width, height) = old(self).pages@[i as int].dimensions->0;
                    &&& frame.content == PageContent::Image(i)
                    &&& width <= height ==> final(self).current_page_size == 2
                    &&& width > height + 250 ==> final(self).current_page_size == 5
                    &&& height < width <= height + 250 ==> final(self).current_page_size == old(self).current_page_size
                },
            frame.content matches PageContent::Image(i) ==> i < old(self).pages@.len() && old(self).pages@[i as int].image_state is Some && (list_selected(old(self).page_list_state)
                == Some(i) || (list_selected(old(self).page_list_state) is None && i == 0)),
            frame.content == PageContent::Loading ==> final(self).current_page_size == old(self).current_page_size,
            old(self).wf() ==> final(self).wf(),
    {
        let page_list = inner_area(columns.left, 1, 1);
        let position: usize = match selected_position(&self.page_list_state) {
            Some(position) => position,
            None => 0,
        };
        let mut content = PageContent::Loading;
        if position < self.pages.len() && self.pages[position].image_state.is_some() {
            content = PageContent::Image(position);
            let (width, height) = self.pages[position].dimensions.unwrap();
            if width > height {
                if width - height > WIDE_MARGIN {
                    self.current_page_size = WIDE_PAGE;
                }
            } else {
                self.current_page_size = NARROW_PAGE;
            }
        }
        ReaderFrame { columns, page_list, content }
    }

    /// The two pages differ in the selection of the list at most.
    pub open spec fn same_but_selection(self, other: Self) -> bool {
        &&& self == (MangaReader { page_list_state: self.page_list_state, ..other })
        &&& list_len(self.page_list_state) == list_len(other.page_list_state)
        &&& list_circular(self.page_list_state) == list_circular(other.page_list_state)
    }

    /// From this page to `after`, the list was drawn: it now has as many elements to step through
    /// as it has lines, and the selection is where it was.
    pub open spec fn drew_list(self, after: Self) -> bool {
        &&& after == (MangaReader { page_list_state: after.page_list_state, ..self })
        &&& list_len(after.page_list_state) == self.pages_list.pages@.len()
        &&& list_selected(after.page_list_state) == list_selected(self.page_list_state)
        &&& list_circular(after.page_list_state) == list_circular(self.page_list_state)
    }

    /// From this page to `after`, the selection of the list went one step on.
    pub open spec fn went_on(self, after: Self) -> bool {
        &&& after.same_but_selection(self)
        &&& list_selected(after.page_list_state) == after_next(
            list_selected(self.page_list_state),
            list_len(self.page_list_state),
            list_circular(self.page_list_state),
        )
    }

    /// From this page to `after`, the selection of the list went one step back.
    pub open spec fn went_back(self, after: Self) -> bool {
        &&& after.same_but_selection(self)
        &&& list_selected(after.page_list_state) == after_previous(
            list_selected(self.page_list_state),
            list_len(self.page_list_state),
            list_circular(self.page_list_state),
        )
    }

    /// From this page to `after`, the search for the next chapter began.
    pub open spec fn began_search(self, after: Self) -> bool {
        after == (MangaReader {
            state: State::SearchingChapter,
            chapter: Chapter { number: (self.chapter.number + 1) as u32, ..self.chapter },
            ..self
        })
    }

    /// Selects the next page of the list.
    pub fn next_page(&mut self)
        ensures
            old(self).went_on(*final(self)),
            old(self).wf() ==> final(self).wf(),
    {
        self.page_list_state.next();
    }

    /// Selects the previous page of the list.
    pub fn previous_page(&mut self)
        ensures
            old(self).went_back(*final(self)),
            old(self).wf() ==> final(self).wf(),
    {
        self.page_list_state.previous();
    }

    /// The page now waits for a chapter.
    pub fn set_searching_chapter(&mut self)
        ensures
            *final(self) == (MangaReader { state: State::SearchingChapter, ..*old(self) }),
            old(self).wf() ==> final(self).wf(),
    {
        self.state = State::SearchingChapter;
    }

    /// Begins the search for the chapter that follows, and gives the event that asks for it.
    pub fn initiate_search_next_chapter(&mut self) -> (event: MangaReaderEvents)
        requires
            old(self).chapter.number < u32::MAX,
        ensures
            old(self).began_search(*final(self)),
            event == MangaReaderEvents::SearchNextChapter,
            old(self).wf() ==> final(self).wf(),
    {
        self.set_searching_chapter();
        self.chapter.number = self.chapter.number + 1;
        MangaReaderEvents::SearchNextChapter
    }

    /// Carries an action out, and gives the event that it raises, if any.
    pub fn update(&mut self, action: MangaReaderActions) -> (event: Option<MangaReaderEvents>)
        requires
            action == MangaReaderActions::SearchNextChapter ==> old(self).chapter.number
                < u32::MAX,
        ensures
            match action {
                MangaReaderActions::SearchNextChapter => {
                    &&& old(self).began_search(*final(self))
                    &&& event == Some(MangaReaderEvents::SearchNextChapter)
                },
                MangaReaderActions::NextPage => {
                    &&& old(self).went_on(*final(self))
                    &&& event is None
                },
                MangaReaderActions::PreviousPage => {
                    &&& old(self).went_back(*final(self))
                    &&& event is None
                },
            },
            old(self).wf() ==> final(self).wf(),
    {
        match action {
            MangaReaderActions::SearchNextChapter => Some(self.initiate_search_next_chapter()),
            MangaReaderActions::NextPage => {
                self.next_page();
                None
            },
            MangaReaderActions::PreviousPage => {
                self.previous_page();
                None
            },
        }
    }

    /// The action that a key stands for.
    pub fn handle_key_events(&self, key: KeyCode) -> (action: Option<MangaReaderActions>)
        ensures
            action == key_action(key),
            action == Some(MangaReaderActions::NextPage) <==> (key == KeyCode::Down || key
                == KeyCode::Char('j')),
            action == Some(MangaReaderActions::PreviousPage) <==> (key == KeyCode::Up || key
                == KeyCode::Char('k')),
            action == Some(MangaReaderActions::SearchNextChapter) <==> key == KeyCode::Char('w'),
    {
        match key {
            KeyCode::Down | KeyCode::Char('j') => Some(MangaReaderActions::NextPage),
            KeyCode::Up | KeyCode::Char('k') => Some(MangaReaderActions::PreviousPage),
            KeyCode::Char('w') => Some(MangaReaderActions::SearchNextChapter),
            _ => None,
        }
    }

    /// What an event of the terminal leads to.
    pub fn handle_events(&self, event: Events) -> (reaction: Reaction)
        ensures
            reaction == reaction_to(event),
    {
        match event {
            Events::Key(key) => match self.handle_key_events(key) {
                Some(action) => Reaction::Send(action),
                None => Reaction::Ignore,
            },
            Events::Mouse(kind) => match kind {
                MouseEventKind::ScrollUp => Reaction::Send(MangaReaderActions::PreviousPage),
                MouseEventKind::ScrollDown => Reaction::Send(MangaReaderActions::NextPage),
                MouseEventKind::Other => Reaction::Ignore,
            },
            Events::Tick => Reaction::Tick,
            Events::Other => Reaction::Ignore,
        }
    }

    /// The event that has the pages of the chapter fetched.
    pub fn init_fetching_chapter(&self) -> (event: MangaReaderEvents)
        ensures
            event == MangaReaderEvents::FetchPages,
    {
        MangaReaderEvents::FetchPages
    }

    /// The search for the chapter that the page is at.
    pub fn search_chapter(&self) -> (search: ChapterSearch)
        ensures
            self.chapter.searched_by(search, self.manga_id),
            search.manga_id == self.manga_id,
            self.chapter.volume_number matches Some(volume) ==> search.volume_number@ == decimal(
                volume as nat,
            ),
            self.chapter.volume_number is None ==> search.volume_number@ == seq!['0'],
            search.chapter_number@ == decimal(self.chapter.number as nat),
            search.language == self.chapter.language,
    {
        self.chapter.search_in(&self.manga_id)
    }

    /// The address of the picture of the page at `i`.
    pub open spec fn endpoint(self, i: int) -> Seq<char> {
        endpoint_text(
            self.chapter.base_url@,
            self.pages@[i].page_type,
            self.chapter.id@,
            self.pages@[i].url@,
        )
    }

    /// For each page the address of its picture as it parses, or nothing.
    pub open spec fn addresses(self) -> Seq<Option<Seq<char>>> {
        Seq::new(self.pages@.len(), |i: int| parsed_url(self.endpoint(i)))
    }

    /// From this page to `after`, all pages were put on the list as being on their way.
    pub open spec fn listed_pages(self, after: Self) -> bool {
        &&& after == (MangaReader { pages_list: after.pages_list, ..self })
        &&& after.pages_list.pages@ == loading_items(self.pages@.len())
    }

    /// Lists all pages as being on their way, and gives the pictures to fetch: those of the pages
    /// whose address parses.
    pub fn fech_pages(&mut self) -> (requests: Vec<PageRequest>)
        ensures
            old(self).listed_pages(*final(self)),
            views_of(requests@) == requests_for(old(self).addresses()),
            forall|a: int|
                0 <= a < requests@.len() ==> {
                    let page = old(self).pages@[requests@[a].index as int];
                    &&& (#[trigger] requests@[a]).index < old(self).pages@.len()
                    &&& parsed_url(
                        old(self).chapter.base_url@ + "/"@ + (if page.page_type
                            == PageType::LowQuality {
                            "data-saver"@
                        } else {
                            "data"@
                        }) + "/"@ + old(self).chapter.id@ + "/"@ + page.url@,
                    ) == Some(requests@[a].endpoint@)
                },
            forall|a: int, b: int|
                0 <= a < b < requests@.len() ==> (#[trigger] requests@[a]).index < (
                #[trigger] requests@[b]).index,
            forall|i: int|
                0 <= i < old(self).pages@.len() && parsed_url(
                    old(self).chapter.base_url@ + "/"@ + (if old(self).pages@[i].page_type
                        == PageType::LowQuality {
                        "data-saver"@
                    } else {
                        "data"@
                    }) + "/"@ + old(self).chapter.id@ + "/"@ + (
                    #[trigger] old(self).pages@[i]).url@,
                ) is Some ==> exists|a: int|
                    0 <= a < requests@.len() && (#[trigger] requests@[a]).index == i,
            final(self).pages_list.pages@.len() == old(self).pages@.len(),
            forall|i: int|
                0 <= i < old(self).pages@.len() ==> {
                    &&& (#[trigger] final(self).pages_list.pages@[i]).number == i as usize
                    &&& final(self).pages_list.pages@[i].state == PageItemState::Loading
                },
            old(self).wf() ==> final(self).wf(),
    {
        let mut addresses: Vec<Option<String>> = Vec::new();
        let mut i: usize = 0;
        while i < self.pages.len()
            invariant
                i <= self.pages.len(),
                addresses@.len() == i,
                *self == *old(self),
                forall|j: int|
                    0 <= j < i ==> text_of(#[trigger] addresses@[j]) == parsed_url(
                        old(self).endpoint(j),
                    ),
            decreases self.pages.len() - i,
        {
            let page = &self.pages[i];
            let endpoint = page_endpoint(
                self.chapter.base_url.as_str(),
                page.page_type,
                self.chapter.id.as_str(),
                page.url.as_str(),
            );
            addresses.push(parse_url(endpoint.as_str()));
            i += 1;
        }
        assert(texts_of(addresses@) =~= self.addresses());
        let ghost given = addresses@;
        let requests = self.fetch_addresses(addresses);
        assert forall|a: int| 0 <= a < requests@.len() implies parsed_url(
            old(self).endpoint((#[trigger] requests@[a]).index as int),
        ) == Some(requests@[a].endpoint@) by {
            assert(text_of(given[requests@[a].index as int]) == parsed_url(
                old(self).endpoint(requests@[a].index as int),
            ));
        }
        assert forall|i: int|
            0 <= i < old(self).pages@.len() && parsed_url(
                #[trigger] old(self).endpoint(i),
            ) is Some implies exists|a: int|
            0 <= a < requests@.len() && (#[trigger] requests@[a]).index == i by {
            assert(text_of(given[i]) == parsed_url(old(self).endpoint(i)));
        }
        assert forall|i: int|
            0 <= i < old(self).pages@.len() && parsed_url(
                old(self).chapter.base_url@ + "/"@ + (if old(self).pages@[i].page_type
                    == PageType::LowQuality {
                    "data-saver"@
                } else {
                    "data"@
                }) + "/"@ + old(self).chapter.id@ + "/"@ + (#[trigger] old(self).pages@[i]).url@,
            ) is Some implies exists|a: int|
            0 <= a < requests@.len() && (#[trigger] requests@[a]).index == i by {
            assert(parsed_url(old(self).endpoint(i)) is Some);
        }
        requests
    }

    /// Lists all pages as being on their way, and gives the pictures to fetch, where `addresses`
    /// holds for each page its address or nothing.
    pub fn fetch_addresses(&mut self, addresses: Vec<Option<String>>) -> (requests: Vec<
        PageRequest,
    >)
        ensures
            old(self).listed_pages(*final(self)),
            views_of(requests@) == requests_for(texts_of(addresses@)),
            forall|a: int|
                0 <= a < requests@.len() ==> {
                    &&& (#[trigger] requests@[a]).index < addresses@.len()
                    &&& addresses@[requests@[a].index as int] is Some
                    &&& requests@[a].endpoint@ == addresses@[requests@[a].index as int]->0@
                },
            forall|a: int, b: int|
                0 <= a < b < requests@.len() ==> (#[trigger] requests@[a]).index < (
                #[trigger] requests@[b]).index,
            forall|i: int|
                0 <= i < addresses@.len() && (#[trigger] addresses@[i]) is Some ==> exists|a: int|
                    0 <= a < requests@.len() && (#[trigger] requests@[a]).index == i,
            final(self).pages_list.pages@.len() == old(self).pages@.len(),
            forall|i: int|
                0 <= i < old(self).pages@.len() ==> {
                    &&& (#[trigger] final(self).pages_list.pages@[i]).number == i as usize
                    &&& final(self).pages_list.pages@[i].state == PageItemState::Loading
                },
            old(self).wf() ==> final(self).wf(),
    {
        let mut items: Vec<PagesItem> = Vec::new();
        let mut i: usize = 0;
        while i < self.pages.len()
            invariant
                i <= self.pages.len(),
                *self == *old(self),
                items@ == loading_items(i as nat),
            decreases self.pages.len() - i,
        {
            items.push(PagesItem::new(i));
            assert(items@ =~= loading_items((i + 1) as nat));
            i += 1;
        }
        self.pages_list = PagesList::new(items);
        page_requests(addresses)
    }

    /// From this page to `after`, the picture was given to the page that it belongs to, and the line
    /// at its position was marked as loaded. Where there is no such page the picture is dropped, and
    /// where there is no such line none is marked. The news that a picture could not be had changes
    /// nothing.
    pub open spec fn placed(self, after: Self, news: Option<PageData>) -> bool {
        match news {
            None => after == self,
            Some(data) => {
                &&& after == (MangaReader {
                    pages: after.pages,
                    pages_list: after.pages_list,
                    ..self
                })
                &&& after.pages@.len() == self.pages@.len()
                &&& forall|i: int|
                    0 <= i < self.pages@.len() && i != data.index ==> #[trigger] after.pages@[i]
                        == self.pages@[i]
                &&& data.index < self.pages@.len() ==> {
                    let before = self.pages@[data.index as int];
                    let page = after.pages@[data.index as int];
                    &&& page.url == before.url
                    &&& page.page_type == before.page_type
                    &&& page.dimensions == Some(data.panel.dimensions)
                    &&& page.image_state is Some
                }
                &&& after.pages_list.pages@ == with_loaded(
                    self.pages_list.pages@,
                    data.index as int,
                )
            },
        }
    }

    /// From this page to `after`, the picture was given to its page in a form that `show` makes of
    /// it.
    pub open spec fn loaded<F: FnOnce(DynamicImage) -> S>(
        self,
        after: Self,
        news: Option<PageData>,
        show: F,
    ) -> bool {
        &&& self.placed(after, news)
        &&& news matches Some(data) ==> data.index < self.pages@.len() ==> call_ensures(
            show,
            (data.panel.image_decoded,),
            after.pages@[data.index as int].image_state->0,
        )
    }

    /// `show` can be asked for the form of the picture, where there is a page for it.
    pub open spec fn can_show<F: FnOnce(DynamicImage) -> S>(
        self,
        news: Option<PageData>,
        show: F,
    ) -> bool {
        news matches Some(data) ==> data.index < self.pages@.len() ==> call_requires(
            show,
            (data.panel.image_decoded,),
        )
    }

    /// Takes in the picture of a page. `show` gives the form in which the terminal shows it.
    pub fn load_page<F: FnOnce(DynamicImage) -> S>(&mut self, news: Option<PageData>, show: F)
        requires
            old(self).can_show(news, show),
        ensures
            old(self).loaded(*final(self), news, show),
            news is None ==> *final(self) == *old(self),
            news matches Some(data) ==> data.index < old(self).pages@.len() ==> {
                let page = final(self).pages@[data.index as int];
                &&& page.dimensions == Some(data.panel.dimensions)
                &&& page.image_state is Some
                &&& call_ensures(show, (data.panel.image_decoded,), page.image_state->0)
                &&& page.url == old(self).pages@[data.index as int].url
                &&& page.page_type == old(self).pages@[data.index as int].page_type
            },
            news matches Some(data) ==> data.index < old(self).pages_list.pages@.len() ==> final(self).pages_list.pages@[data.index as int].state == PageItemState::FinishedLoad,
            old(self).wf() ==> final(self).wf(),
    {
        if let Some(data) = news {
            let index = data.index;
            if index < self.pages.len() {
                let dimensions = data.panel.dimensions;
                let image_state = show(data.panel.image_decoded);
                self.pages[index].image_state = Some(image_state);
                self.pages[index].dimensions = Some(dimensions);
            }
            if index < self.pages_list.pages.len() {
                self.pages_list.pages[index].state = PageItemState::FinishedLoad;
            }
        }
    }

    /// From this page to `after`, one piece of news was acted on, and `requests` are the pictures to
    /// fetch. The outcome of a search, and the wish for one, change nothing.
    pub open spec fn acted_on<F: FnOnce(DynamicImage) -> S>(
        self,
        after: Self,
        news: MangaReaderEvents,
        show: F,
        requests: Seq<PageRequest>,
    ) -> bool {
        match news {
            MangaReaderEvents::FetchPages => {
                &&& self.listed_pages(after)
                &&& views_of(requests) == requests_for(self.addresses())
            },
            MangaReaderEvents::LoadPage(data) => {
                &&& self.loaded(after, data, show)
                &&& requests == Seq::<PageRequest>::empty()
            },
            _ => {
                &&& after == self
                &&& requests == Seq::<PageRequest>::empty()
            },
        }
    }

    /// `show` can be asked for what the news brings.
    pub open spec fn can_act_on<F: FnOnce(DynamicImage) -> S>(
        self,
        news: MangaReaderEvents,
        show: F,
    ) -> bool {
        news matches MangaReaderEvents::LoadPage(data) ==> self.can_show(data, show)
    }

    /// From this page to `after`, a tick passed: of the news that were pending the oldest was acted
    /// on, if there was any, and the others were left pending in their order.
    pub open spec fn ticked<F: FnOnce(DynamicImage) -> S>(
        self,
        pending: Seq<MangaReaderEvents>,
        after: Self,
        left: Seq<MangaReaderEvents>,
        show: F,
        requests: Seq<PageRequest>,
    ) -> bool {
        if pending.len() == 0 {
            &&& after == self
            &&& left == pending
            &&& requests == Seq::<PageRequest>::empty()
        } else {
            &&& self.acted_on(after, pending[0], show, requests)
            &&& left == pending.drop_first()
        }
    }

    /// Acts on one piece of news, and gives the pictures to fetch.
    pub fn act_on<F: FnOnce(DynamicImage) -> S>(
        &mut self,
        news: MangaReaderEvents,
        show: F,
    ) -> (requests: Vec<PageRequest>)
        requires
            old(self).can_act_on(news, show),
        ensures
            old(self).acted_on(*final(self), news, show, requests@),
            old(self).wf() ==> final(self).wf(),
    {
        match news {
            MangaReaderEvents::FetchPages => self.fech_pages(),
            MangaReaderEvents::LoadPage(data) => {
                self.load_page(data, show);
                Vec::new()
            },
            _ => Vec::new(),
        }
    }

    /// Acts on the oldest of the pending news, if there is any, and gives the pictures to fetch.
    pub fn tick<F: FnOnce(DynamicImage) -> S>(
        &mut self,
        pending: &mut VecDeque<MangaReaderEvents>,
        show: F,
    ) -> (requests: Vec<PageRequest>)
        requires
            old(pending)@.len() > 0 ==> old(self).can_act_on(old(pending)@[0], show),
        ensures
            old(self).ticked(old(pending)@, *final(self), final(pending)@, show, requests@),
            old(self).wf() ==> final(self).wf(),
    {
        match pending.pop_front() {
            Some(news) => {
                assert(pending@ =~= old(pending)@.drop_first());
                self.act_on(news, show)
            },
            None => Vec::new(),
        }
    }

    /// From this page to `after`, all pages and lines were forgotten.
    pub open spec fn forgot_pages(self, after: Self) -> bool {
        &&& after == (MangaReader { pages: after.pages, pages_list: after.pages_list, ..self })
        &&& after.pages@ == Seq::<Page<S>>::empty()
        &&& after.pages_list.pages@ == Seq::<PagesItem>::empty()
    }

    /// Forgets the pages.
    pub fn clean_up(&mut self)
        ensures
            old(self).forgot_pages(*final(self)),
            old(self).wf() ==> final(self).wf(),
    {
        self.pages = Vec::new();
        self.pages_list.pages = Vec::new();
    }
}

} // verus!
