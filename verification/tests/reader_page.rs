use std::collections::VecDeque;

use image::DynamicImage;
use manga_tui::area::{Area, Columns};
use manga_tui::chapter::{Chapter, ChapterSearch, Languages};
use manga_tui::events::{
    chapter_searched, Events, KeyCode, MangaReaderActions, MangaReaderEvents, MouseEventKind,
    Reaction,
};
use manga_tui::page::{MangaPanel, PageData, PageItemState, PageRequest, PageType, PagesItem, PagesList};
use manga_tui::reader::{MangaReader, PageContent, State};
use ratatui::buffer::Buffer;
use ratatui::layout::Rect;
use ratatui::text::Line;
use ratatui::widgets::StatefulWidget;
use ratatui_image::picker::Picker;
use ratatui_image::protocol::StatefulProtocol;
use tui_widget_list::{ListBuilder, ListView};

type Reader = MangaReader<Box<dyn StatefulProtocol>>;

fn test_chapter() -> Chapter {
    Chapter {
        id: "some_id".to_string(),
        base_url: "some_base_url".to_string(),
        number: 1,
        pages_url: vec!["some_page_url1".into(), "some_page_url2".into()],
        volume_number: Some(2),
        language: Languages::default(),
    }
}

fn initialize_reader_page() -> Reader {
    MangaReader::new(test_chapter(), "some_manga_id".to_string())
}

fn default_reader() -> Reader {
    MangaReader::new(Chapter::default(), "some_id".to_string())
}

fn default_search() -> ChapterSearch {
    ChapterSearch {
        manga_id: "some_id".to_string(),
        volume_number: "1".to_string(),
        chapter_number: "1".to_string(),
        language: Languages::English,
    }
}

fn show(image: DynamicImage) -> Box<dyn StatefulProtocol> {
    Picker::new((8, 19)).new_resize_protocol(image)
}

fn press_key(reader: &Reader, key: KeyCode) -> Option<MangaReaderActions> {
    match reader.handle_events(Events::Key(key)) {
        Reaction::Send(action) => Some(action),
        _ => None,
    }
}

fn draw_page_list(reader: &mut Reader) {
    let area = Rect::new(0, 0, 20, 20);
    let mut buf = Buffer::empty(area);
    let count = reader.pages_list.pages.len();
    let builder = ListBuilder::new(|context| (Line::from(context.index.to_string()), 1));
    StatefulWidget::render(ListView::new(builder, count), area, &mut buf, &mut reader.page_list_state);
}

fn tick(reader: &mut Reader, news: Option<MangaReaderEvents>) -> Vec<PageRequest> {
    let mut pending: VecDeque<MangaReaderEvents> = news.into_iter().collect();
    let requests = reader.tick(&mut pending, show);
    assert!(pending.is_empty());
    requests
}

fn picture(index: usize, dimensions: (u32, u32)) -> Option<MangaReaderEvents> {
    let panel = MangaPanel { image_decoded: DynamicImage::default(), dimensions };
    Some(MangaReaderEvents::LoadPage(Some(PageData { panel, index })))
}

#[test]
fn trigget_key_events() {
    let reader_page = initialize_reader_page();

    let action = press_key(&reader_page, KeyCode::Char('j')).unwrap();
    assert_eq!(MangaReaderActions::NextPage, action);

    let action = press_key(&reader_page, KeyCode::Char('k')).unwrap();
    assert_eq!(MangaReaderActions::PreviousPage, action);
}

#[test]
fn correct_initialization() {
    let reader_page = initialize_reader_page();

    let fetch_pages_event = reader_page.init_fetching_chapter();

    assert_eq!(MangaReaderEvents::FetchPages, fetch_pages_event);
    assert!(!reader_page.pages.is_empty());
}

#[test]
fn handle_key_events() {
    let mut reader_page = initialize_reader_page();
    reader_page.pages_list =
        PagesList::new(vec![PagesItem::new(0), PagesItem::new(1), PagesItem::new(2)]);
    draw_page_list(&mut reader_page);

    reader_page.update(MangaReaderActions::NextPage);
    assert_eq!(0, reader_page.page_list_state.selected.expect("no page is selected"));

    reader_page.update(MangaReaderActions::NextPage);
    assert_eq!(1, reader_page.page_list_state.selected.expect("no page is selected"));

    reader_page.update(MangaReaderActions::PreviousPage);
    assert_eq!(0, reader_page.page_list_state.selected.expect("no page is selected"));
}

#[test]
fn handle_events() {
    let mut reader_page = initialize_reader_page();
    assert!(reader_page.pages_list.pages.is_empty());

    let event = reader_page.init_fetching_chapter();
    tick(&mut reader_page, Some(event));

    assert!(!reader_page.pages_list.pages.is_empty());

    tick(&mut reader_page, picture(1, (10, 20)));

    let loaded_page = reader_page.pages.get(1).expect("could not load page");
    assert!(loaded_page.dimensions.is_some_and(|dimensions| dimensions == (10, 20)));
}

#[test]
fn it_initiates_search_next_chapter_event() {
    let mut manga_reader = default_reader();

    let expected_event = manga_reader.initiate_search_next_chapter();

    assert_eq!(expected_event, MangaReaderEvents::SearchNextChapter);
    assert_eq!(manga_reader.state, State::SearchingChapter);
    assert_eq!(manga_reader.chapter.number, 2);
}

#[test]
fn it_initiates_search_next_chapter_on_key_event() {
    let mut manga_reader = default_reader();

    manga_reader.update(MangaReaderActions::SearchNextChapter);

    assert_eq!(manga_reader.state, State::SearchingChapter);
}

#[test]
fn it_sends_search_next_chapter_action_on_w_key_press() {
    let manga_reader = default_reader();

    let action = press_key(&manga_reader, KeyCode::Char('w')).unwrap();

    assert_eq!(action, MangaReaderActions::SearchNextChapter);
}

#[test]
fn it_searches_chapter_and_sends_successful_result() {
    let expected = Chapter {
        id: "next_chapter_id".to_string(),
        base_url: "some_base_ur".to_string(),
        number: 2,
        volume_number: Some(1),
        pages_url: vec!["http:some_page.png".to_string(), "http:some_page.png".to_string()],
        language: Languages::default(),
    };
    let manga_reader = default_reader();
    assert_eq!(manga_reader.search_chapter(), default_search());
    let reply: Result<Option<Chapter>, String> = Ok(Some(expected.clone()));

    assert_eq!(chapter_searched(reply), MangaReaderEvents::LoadChapter(expected));
}

#[test]
fn it_searches_chapter_and_sends_chapter_not_found_event() {
    let manga_reader = default_reader();
    assert_eq!(manga_reader.search_chapter(), default_search());
    let reply: Result<Option<Chapter>, String> = Ok(None);

    assert_eq!(chapter_searched(reply), MangaReaderEvents::ChapterNotFound);
}

#[test]
fn it_searches_chapter_and_sends_error_event() {
    let manga_reader = default_reader();
    assert_eq!(manga_reader.search_chapter(), default_search());
    let reply: Result<Option<Chapter>, String> = Err("should_fail".to_string());

    assert_eq!(chapter_searched(reply), MangaReaderEvents::ErrorSearchingChapter);
}

#[test]
fn a_new_reader_has_everything_to_load() {
    let reader = initialize_reader_page();

    assert_eq!(reader.manga_id, "some_manga_id");
    assert_eq!(reader.chapter, test_chapter());
    assert_eq!(reader.pages.len(), 2);
    assert_eq!(reader.pages[1].url, "some_page_url2");
    assert_eq!(reader.pages[1].page_type, PageType::LowQuality);
    assert!(reader.pages[1].image_state.is_none());
    assert_eq!(reader.pages[1].dimensions, None);
    assert_eq!(reader.current_page_size, 2);
    assert_eq!(reader.state, State::SearchingPages);
    assert_eq!(reader.page_list_state.selected, None);
}

#[test]
fn the_default_chapter_is_the_first_of_the_first_volume() {
    let expected = Chapter {
        id: String::new(),
        base_url: String::new(),
        number: 1,
        volume_number: Some(1),
        pages_url: vec![],
        language: Languages::English,
    };
    assert_eq!(Chapter::default(), expected);
}

#[test]
fn keys_and_mouse_lead_to_their_reactions() {
    let reader = default_reader();

    assert_eq!(reader.handle_key_events(KeyCode::Down), Some(MangaReaderActions::NextPage));
    assert_eq!(reader.handle_key_events(KeyCode::Up), Some(MangaReaderActions::PreviousPage));
    assert_eq!(reader.handle_key_events(KeyCode::Char('J')), None);
    assert_eq!(reader.handle_key_events(KeyCode::Other), None);
    assert_eq!(
        reader.handle_events(Events::Mouse(MouseEventKind::ScrollUp)),
        Reaction::Send(MangaReaderActions::PreviousPage)
    );
    assert_eq!(
        reader.handle_events(Events::Mouse(MouseEventKind::ScrollDown)),
        Reaction::Send(MangaReaderActions::NextPage)
    );
    assert_eq!(reader.handle_events(Events::Mouse(MouseEventKind::Other)), Reaction::Ignore);
    assert_eq!(reader.handle_events(Events::Key(KeyCode::Other)), Reaction::Ignore);
    assert_eq!(reader.handle_events(Events::Tick), Reaction::Tick);
    assert_eq!(reader.handle_events(Events::Other), Reaction::Ignore);
}

#[test]
fn the_selection_goes_round_in_the_list() {
    let mut reader = initialize_reader_page();
    reader.fech_pages();
    draw_page_list(&mut reader);

    reader.next_page();
    reader.previous_page();
    assert_eq!(reader.page_list_state.selected, Some(1));
    reader.next_page();
    assert_eq!(reader.page_list_state.selected, Some(0));
}

#[test]
fn nothing_is_selected_in_a_list_that_was_not_drawn() {
    let mut reader = initialize_reader_page();

    reader.next_page();
    assert_eq!(reader.page_list_state.selected, None);
    reader.previous_page();
    assert_eq!(reader.page_list_state.selected, None);
}

#[test]
fn pages_without_an_address_are_listed_but_not_fetched() {
    let mut reader = initialize_reader_page();

    let requests = tick(&mut reader, Some(MangaReaderEvents::FetchPages));

    assert!(requests.is_empty());
    assert_eq!(reader.pages_list.pages, vec![PagesItem::new(0), PagesItem::new(1)]);
}

#[test]
fn pages_are_fetched_at_their_normal_addresses() {
    let mut chapter = test_chapter();
    chapter.base_url = "HTTPS://Uploads.Example.ORG".to_string();
    chapter.pages_url = vec!["one page.png".to_string(), "../x.png".to_string()];
    let mut reader: Reader = MangaReader::new(chapter, "m".to_string());

    let requests = reader.fech_pages();

    assert_eq!(
        requests,
        vec![
            PageRequest {
                index: 0,
                endpoint: "https://uploads.example.org/data-saver/some_id/one%20page.png".to_string(),
            },
            PageRequest {
                index: 1,
                endpoint: "https://uploads.example.org/data-saver/x.png".to_string(),
            },
        ]
    );
}

#[test]
fn high_quality_pages_are_fetched_elsewhere() {
    let mut chapter = test_chapter();
    chapter.base_url = "https://example.org".to_string();
    let mut reader: Reader = MangaReader::new(chapter, "m".to_string());
    reader.pages[1].page_type = PageType::HighQuality;

    let requests = reader.fech_pages();

    assert_eq!(requests[0].endpoint, "https://example.org/data-saver/some_id/some_page_url1");
    assert_eq!(requests[1].endpoint, "https://example.org/data/some_id/some_page_url2");
}

#[test]
fn only_pages_with_an_address_are_requested() {
    let mut reader = initialize_reader_page();

    let requests = reader.fetch_addresses(vec![None, Some("https://a/b".to_string())]);

    assert_eq!(requests, vec![PageRequest { index: 1, endpoint: "https://a/b".to_string() }]);
    assert_eq!(reader.pages_list.pages.len(), 2);
}

#[test]
fn a_loaded_picture_belongs_to_its_page_alone() {
    let mut reader = initialize_reader_page();
    reader.fech_pages();

    let requests = tick(&mut reader, picture(1, (10, 20)));

    assert!(requests.is_empty());
    assert!(reader.pages[1].image_state.is_some());
    assert!(reader.pages[0].image_state.is_none());
    assert_eq!(reader.pages[0].dimensions, None);
    assert_eq!(reader.pages_list.pages[0].state, PageItemState::Loading);
    assert_eq!(
        reader.pages_list.pages[1],
        PagesItem { number: 1, state: PageItemState::FinishedLoad }
    );
}

#[test]
fn a_picture_of_no_page_is_dropped() {
    let mut reader = initialize_reader_page();
    reader.fech_pages();

    reader.load_page(
        Some(PageData { panel: MangaPanel::default(), index: 2 }),
        |_| panic!("there is no page for this picture"),
    );

    assert!(reader.pages.iter().all(|page| page.dimensions.is_none()));
    assert!(reader.pages_list.pages.iter().all(|item| item.state == PageItemState::Loading));
}

#[test]
fn a_picture_for_a_line_without_a_page_marks_the_line() {
    let mut reader = initialize_reader_page();
    reader.pages_list =
        PagesList::new(vec![PagesItem::new(0), PagesItem::new(1), PagesItem::new(2)]);

    tick(&mut reader, picture(2, (1, 1)));

    assert_eq!(reader.pages_list.pages[2].state, PageItemState::FinishedLoad);
    assert_eq!(reader.pages.len(), 2);
}

#[test]
fn other_news_changes_nothing() {
    let quiet = vec![
        None,
        Some(MangaReaderEvents::ErrorSearchingChapter),
        Some(MangaReaderEvents::ChapterNotFound),
        Some(MangaReaderEvents::LoadChapter(Chapter::default())),
        Some(MangaReaderEvents::SearchNextChapter),
        Some(MangaReaderEvents::LoadPage(None)),
    ];
    for news in quiet {
        let mut reader = initialize_reader_page();
        let requests = tick(&mut reader, news);
        assert!(requests.is_empty());
        assert_eq!(reader.chapter, test_chapter());
        assert_eq!(reader.state, State::SearchingPages);
        assert!(reader.pages_list.pages.is_empty());
        assert!(reader.pages.iter().all(|page| page.image_state.is_none()));
    }
}

#[test]
fn pictures_in_any_order_end_the_same() {
    let mut one = initialize_reader_page();
    one.fech_pages();
    tick(&mut one, picture(0, (3, 4)));
    tick(&mut one, picture(1, (5, 6)));
    let mut two = initialize_reader_page();
    two.fech_pages();
    tick(&mut two, picture(1, (5, 6)));
    tick(&mut two, picture(0, (3, 4)));

    assert_eq!(one.pages_list, two.pages_list);
    for i in 0..2 {
        assert_eq!(one.pages[i].dimensions, two.pages[i].dimensions);
    }
}

#[test]
fn the_shown_image_sets_the_page_size() {
    let area = Area { x: 0, y: 0, width: 102, height: 40 };
    let mut reader = initialize_reader_page();
    assert_eq!(reader.render(area).content, PageContent::Loading);

    tick(&mut reader, picture(0, (351, 100)));
    assert_eq!(reader.render(area).content, PageContent::Image(0));
    assert_eq!(reader.current_page_size, 5);

    tick(&mut reader, picture(0, (350, 100)));
    reader.render(area);
    assert_eq!(reader.current_page_size, 5);

    tick(&mut reader, picture(0, (100, 100)));
    reader.render(area);
    assert_eq!(reader.current_page_size, 2);

    tick(&mut reader, picture(0, (350, 100)));
    reader.render(area);
    assert_eq!(reader.current_page_size, 2);
}

#[test]
fn the_selected_page_is_shown() {
    let area = Area { x: 0, y: 0, width: 102, height: 40 };
    let mut reader = initialize_reader_page();
    tick(&mut reader, picture(1, (10, 20)));
    assert_eq!(reader.render(area).content, PageContent::Loading);

    reader.page_list_state.select(Some(1));
    assert_eq!(reader.render(area).content, PageContent::Image(1));

    reader.page_list_state.select(Some(2));
    assert_eq!(reader.render(area).content, PageContent::Loading);
}

#[test]
fn the_columns_follow_the_page_size() {
    let mut reader = initialize_reader_page();
    let frame = reader.render(Area { x: 0, y: 3, width: 102, height: 40 });
    let expected = Columns {
        left: Area { x: 0, y: 3, width: 25, height: 40 },
        center: Area { x: 26, y: 3, width: 50, height: 40 },
        right: Area { x: 77, y: 3, width: 25, height: 40 },
    };
    assert_eq!(frame.columns, expected);
    assert_eq!(frame.page_list, Area { x: 1, y: 4, width: 23, height: 38 });

    reader.current_page_size = 5;
    let frame = reader.render(Area { x: 10, y: 0, width: 72, height: 1 });
    let expected = Columns {
        left: Area { x: 10, y: 0, width: 10, height: 1 },
        center: Area { x: 21, y: 0, width: 50, height: 1 },
        right: Area { x: 72, y: 0, width: 10, height: 1 },
    };
    assert_eq!(frame.columns, expected);
    assert_eq!(frame.page_list, Area { x: 0, y: 0, width: 0, height: 0 });
}

#[test]
fn cleaning_up_forgets_the_pages() {
    let mut reader = initialize_reader_page();
    reader.fech_pages();
    tick(&mut reader, picture(0, (10, 20)));

    reader.clean_up();

    assert!(reader.pages.is_empty());
    assert!(reader.pages_list.pages.is_empty());
    assert!(reader.fech_pages().is_empty());
    tick(&mut reader, picture(0, (10, 20)));
    assert!(reader.pages.is_empty());
    let area = Area { x: 0, y: 0, width: 102, height: 40 };
    assert_eq!(reader.render(area).content, PageContent::Loading);
}

#[test]
fn a_search_names_the_chapter_in_decimal() {
    let mut reader = initialize_reader_page();
    reader.chapter.number = 1099;
    reader.initiate_search_next_chapter();

    let expected = ChapterSearch {
        manga_id: "some_manga_id".to_string(),
        volume_number: "2".to_string(),
        chapter_number: "1100".to_string(),
        language: Languages::English,
    };
    assert_eq!(reader.search_chapter(), expected);

    reader.chapter.volume_number = None;
    assert_eq!(reader.search_chapter().volume_number, "0");
}

fn stand_side_by_side(columns: Columns, area: Area) -> bool {
    let edge = (area.x as u32 + area.width as u32).min(u16::MAX as u32);
    let rows = |column: Area| column.y == area.y && column.height == area.height;
    let end = |column: Area| column.x as u32 + column.width as u32;
    rows(columns.left)
        && rows(columns.center)
        && rows(columns.right)
        && area.x <= columns.left.x
        && end(columns.left) <= columns.center.x as u32
        && end(columns.center) <= columns.right.x as u32
        && end(columns.right) <= edge
}

#[test]
fn the_columns_stand_side_by_side_in_any_area() {
    let mut reader = initialize_reader_page();
    for size in [0, 1, 2, 5, 1000, u16::MAX] {
        reader.current_page_size = size;
        for x in [0, 1, 7, 60000, u16::MAX] {
            for width in (0..40).chain([99, 1000, 9999, 65000, u16::MAX]) {
                let area = Area { x, y: 2, width, height: 3 };
                let columns = reader.render(area).columns;
                assert!(stand_side_by_side(columns, area), "{columns:?} in {area:?}");
            }
        }
    }
}

#[test]
fn steps_go_through_the_pages_over_and_over() {
    let mut reader = initialize_reader_page();
    reader.pages_list =
        PagesList::new(vec![PagesItem::new(0), PagesItem::new(1), PagesItem::new(2)]);
    draw_page_list(&mut reader);

    for step in 0..10 {
        reader.update(MangaReaderActions::NextPage);
        assert_eq!(reader.page_list_state.selected, Some(step % 3));
    }
    for step in 0..10 {
        reader.update(MangaReaderActions::PreviousPage);
        reader.update(MangaReaderActions::NextPage);
        assert_eq!(reader.page_list_state.selected, Some(0), "step {step}");
    }
}

#[test]
fn every_picture_that_comes_marks_its_line() {
    let mut reader = initialize_reader_page();
    reader.fech_pages();
    for index in [1, 7, 1, 0] {
        tick(&mut reader, picture(index, (1, 2)));
    }
    assert!(reader.pages.iter().all(|page| page.image_state.is_some()));
    assert!(reader.pages_list.pages.iter().all(|item| item.state == PageItemState::FinishedLoad));
}

#[test]
fn a_tick_takes_the_oldest_news_alone() {
    let mut reader = initialize_reader_page();
    let mut pending: VecDeque<MangaReaderEvents> = VecDeque::new();
    pending.push_back(MangaReaderEvents::FetchPages);
    pending.extend(picture(1, (10, 20)));
    pending.push_back(MangaReaderEvents::ChapterNotFound);

    reader.tick(&mut pending, show);
    assert_eq!(reader.pages_list.pages.len(), 2);
    assert_eq!(reader.pages[1].dimensions, None);
    assert_eq!(pending.len(), 2);

    reader.tick(&mut pending, show);
    assert_eq!(reader.pages[1].dimensions, Some((10, 20)));
    assert_eq!(pending, VecDeque::from(vec![MangaReaderEvents::ChapterNotFound]));

    reader.tick(&mut pending, show);
    assert!(pending.is_empty());

    let requests = reader.tick(&mut pending, show);
    assert!(requests.is_empty());
    assert!(pending.is_empty());
}

#[test]
fn the_global_sender_is_kept() {
    let (sender, mut receiver) = tokio::sync::mpsc::unbounded_channel();
    let reader = initialize_reader_page();
    assert!(reader._global_event_tx.is_none());

    let reader = reader.with_global_sender(sender);

    assert_eq!(reader.pages.len(), 2);
    assert_eq!(reader.manga_id, "some_manga_id");
    assert!(reader._global_event_tx.unwrap().send(Events::Tick).is_ok());
    assert_eq!(receiver.try_recv(), Ok(Events::Tick));
}

#[test]
fn stepping_through_drawn_pages_shows_one_of_them() {
    let mut reader = initialize_reader_page();
    reader.fech_pages();
    draw_page_list(&mut reader);
    for _ in 0..5 {
        reader.previous_page();
        assert!(reader.page_list_state.selected.unwrap() < reader.pages.len());
    }
}

#[test]
fn late_events_bring_no_page_back() {
    let area = Area { x: 0, y: 0, width: 102, height: 40 };
    let mut reader = initialize_reader_page();
    reader.fech_pages();
    draw_page_list(&mut reader);
    reader.next_page();
    reader.clean_up();

    assert!(tick(&mut reader, Some(MangaReaderEvents::FetchPages)).is_empty());
    reader.update(MangaReaderActions::NextPage);
    reader.update(MangaReaderActions::PreviousPage);
    reader.update(MangaReaderActions::SearchNextChapter);
    draw_page_list(&mut reader);
    assert_eq!(reader.render(area).content, PageContent::Loading);
    assert!(reader.pages.is_empty());
    assert!(reader.pages_list.pages.is_empty());
}

#[test]
fn a_reader_keeps_to_its_chapter_whatever_happens() {
    let mut reader = initialize_reader_page();
    reader.fech_pages();
    draw_page_list(&mut reader);
    reader.update(MangaReaderActions::NextPage);
    tick(&mut reader, picture(0, (10, 20)));
    reader.update(MangaReaderActions::SearchNextChapter);

    assert_eq!(reader.manga_id, "some_manga_id");
    assert_eq!(reader.chapter, Chapter { number: 2, ..test_chapter() });
    for (page, url) in reader.pages.iter().zip(test_chapter().pages_url.iter()) {
        assert_eq!(&page.url, url);
        assert_eq!(page.page_type, PageType::LowQuality);
    }
}
