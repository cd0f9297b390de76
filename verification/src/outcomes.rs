//! What each operation comes to, told by what goes into it and what comes out.
use image::DynamicImage;
use vstd::prelude::*;

use crate::agent::user_agent_text;
use crate::area::{Area, Columns};
use crate::chapter::{Chapter, ChapterSearch};
use crate::events::{
    key_action, mouse_action, reaction_to, search_outcome, Events, KeyCode, MangaReaderActions,
    MangaReaderEvents, MouseEventKind, Reaction,
};
use crate::laws::requests_follow_the_pages;
use crate::list_state::{list_circular, list_len, list_selected};
use crate::page::{
    endpoint_text, requests_for, views_of, PageData, PageItemState, PageRequest, PageType,
};
use crate::reader::{page_size_for, MangaReader, PageContent, State};
use crate::text::{decimal, decimal_reads_back, number_of};
use crate::url::parsed_url;

verus! {

/// The page that is selected, or the first where none is, is the one whose image is shown, and
/// where it has no image or does not exist no other page's image is shown in its place.
pub proof fn the_selected_page_is_the_one_shown<S>(reader: MangaReader<S>)
    ensures
        forall|i: usize|
            list_selected(reader.page_list_state) == Some(i) && i < reader.pages@.len() && (
            #[trigger] reader.pages@[i as int]).image_state is Some ==> reader.content()
                == PageContent::Image(i),
        list_selected(reader.page_list_state) is None && 0 < reader.pages@.len()
            && reader.pages@[0].image_state is Some ==> reader.content() == PageContent::Image(0),
        reader.content() matches PageContent::Image(i) ==> {
            &&& i < reader.pages@.len()
            &&& reader.pages@[i as int].image_state is Some
            &&& list_selected(reader.page_list_state) is Some ==> list_selected(
                reader.page_list_state,
            ) == Some(i)
            &&& list_selected(reader.page_list_state) is None ==> i == 0
        },
        list_selected(reader.page_list_state) matches Some(i) ==> reader.shown_position() == i,
        list_selected(reader.page_list_state) is None ==> reader.shown_position() == 0,
{
}

/// Of two readers that show an image, the same selection shows the same position, and different
/// selected positions are shown as different ones.
pub proof fn what_is_shown_depends_on_the_selection<S>(one: MangaReader<S>, other: MangaReader<S>)
    requires
        one.content() is Image,
        other.content() is Image,
    ensures
        list_selected(one.page_list_state) == list_selected(other.page_list_state)
            ==> one.content() == other.content(),
        list_selected(one.page_list_state) is Some && list_selected(other.page_list_state) is Some
            && one.content() == other.content() ==> list_selected(one.page_list_state)
            == list_selected(other.page_list_state),
{
}

/// An image that is at least as high as wide makes the page narrow, one that is wider than high by
/// more than 250 pixels makes it wide, and any other leaves it as it was. Where no image is shown
/// it stays as it was too.
pub proof fn a_shown_image_fits_the_page_to_itself<S>(before: MangaReader<S>, after: MangaReader<S>)
    requires
        before.can_render(),
        before.rendered(after),
    ensures
        forall|i: usize|
            before.content() == PageContent::Image(i) ==> {
                let (width, height) = (#[trigger] before.pages@[i as int]).dimensions->0;
                &&& before.pages@[i as int].dimensions is Some
                &&& width <= height ==> after.current_page_size == 2
                &&& width > height + 250 ==> after.current_page_size == 5
                &&& height < width <= height + 250 ==> after.current_page_size
                    == before.current_page_size
            },
        before.content() == PageContent::Loading ==> after.current_page_size
            == before.current_page_size,
        after.pages == before.pages,
        after.pages_list == before.pages_list,
        after.page_list_state == before.page_list_state,
        after.chapter == before.chapter,
        after.manga_id == before.manga_id,
        after.state == before.state,
        after._global_event_tx == before._global_event_tx,
{
}

/// A wider image of the same height never makes the page narrower than a less wide one does, and a
/// higher one of the same width never makes it wider.
pub proof fn wider_images_get_wider_pages(current: u16, small: (u32, u32), large: (u32, u32))
    requires
        current == 2 || current == 5,
        small.0 <= large.0,
        small.1 >= large.1,
    ensures
        page_size_for(current, small) <= page_size_for(
            current,
            large,
        ),
{
}

/// Every page is fetched at its own address: a request is for the page that it names, at what the
/// server, the quality, the chapter and that page's file make, and every page whose own address
/// parses is requested, once and in order.
pub proof fn every_page_is_fetched_at_its_own_address<S>(
    reader: MangaReader<S>,
    requests: Seq<PageRequest>,
)
    requires
        views_of(requests) == requests_for(reader.addresses()),
    ensures
        forall|a: int|
            0 <= a < requests.len() ==> {
                let page = reader.pages@[requests[a].index as int];
                &&& (#[trigger] requests[a]).index < reader.pages@.len()
                &&& page.page_type == PageType::LowQuality ==> parsed_url(
                    reader.chapter.base_url@ + "/"@ + "data-saver"@ + "/"@ + reader.chapter.id@
                        + "/"@ + page.url@,
                ) == Some(requests[a].endpoint@)
                &&& page.page_type == PageType::HighQuality ==> parsed_url(
                    reader.chapter.base_url@ + "/"@ + "data"@ + "/"@ + reader.chapter.id@ + "/"@
                        + page.url@,
                ) == Some(requests[a].endpoint@)
            },
        forall|i: int|
            0 <= i < reader.pages@.len() && (#[trigger] reader.pages@[i]).page_type
                == PageType::LowQuality && parsed_url(
                reader.chapter.base_url@ + "/"@ + "data-saver"@ + "/"@ + reader.chapter.id@ + "/"@
                    + reader.pages@[i].url@,
            ) is Some ==> exists|a: int|
                0 <= a < requests.len() && (#[trigger] requests[a]).index == i,
        forall|i: int|
            0 <= i < reader.pages@.len() && (#[trigger] reader.pages@[i]).page_type
                == PageType::HighQuality && parsed_url(
                reader.chapter.base_url@ + "/"@ + "data"@ + "/"@ + reader.chapter.id@ + "/"@
                    + reader.pages@[i].url@,
            ) is Some ==> exists|a: int|
                0 <= a < requests.len() && (#[trigger] requests[a]).index == i,
        forall|a: int, b: int|
            0 <= a < b < requests.len() ==> (#[trigger] requests[a]).index < (
            #[trigger] requests[b]).index,
{
    let addresses = reader.addresses();
    let views = views_of(requests);
    requests_follow_the_pages(addresses);
    assert forall|a: int| 0 <= a < requests.len() implies {
        &&& (#[trigger] requests[a]).index < reader.pages@.len()
        &&& parsed_url(reader.endpoint(requests[a].index as int)) == Some(requests[a].endpoint@)
    } by {
        assert(views[a] == requests[a]@);
        assert(addresses[views[a].0] == parsed_url(reader.endpoint(views[a].0)));
    }
    assert forall|i: int|
        0 <= i < reader.pages@.len() && parsed_url(
            #[trigger] reader.endpoint(i),
        ) is Some implies exists|a: int|
        0 <= a < requests.len() && (#[trigger] requests[a]).index == i by {
        assert(addresses[i] == parsed_url(reader.endpoint(i)));
        let a = choose|a: int| 0 <= a < views.len() && views[a] == (i, addresses[i]->0);
        assert(views[a] == requests[a]@);
    }
    assert forall|i: int|
        0 <= i < reader.pages@.len() && (#[trigger] reader.pages@[i]).page_type
            == PageType::LowQuality && parsed_url(
            reader.chapter.base_url@ + "/"@ + "data-saver"@ + "/"@ + reader.chapter.id@ + "/"@
                + reader.pages@[i].url@,
        ) is Some implies exists|a: int|
        0 <= a < requests.len() && (#[trigger] requests[a]).index == i by {
        assert(parsed_url(reader.endpoint(i)) is Some);
    }
    assert forall|i: int|
        0 <= i < reader.pages@.len() && (#[trigger] reader.pages@[i]).page_type
            == PageType::HighQuality && parsed_url(
            reader.chapter.base_url@ + "/"@ + "data"@ + "/"@ + reader.chapter.id@ + "/"@
                + reader.pages@[i].url@,
        ) is Some implies exists|a: int|
        0 <= a < requests.len() && (#[trigger] requests[a]).index == i by {
        assert(parsed_url(reader.endpoint(i)) is Some);
    }
    assert forall|a: int, b: int| 0 <= a < b < requests.len() implies (
    #[trigger] requests[a]).index < (#[trigger] requests[b]).index by {
        assert(views[a] == requests[a]@);
        assert(views[b] == requests[b]@);
    }
}

/// Two low-quality pages whose own addresses parse differently are fetched at different addresses.
pub proof fn pages_with_different_addresses_are_fetched_apart<S>(
    reader: MangaReader<S>,
    requests: Seq<PageRequest>,
    a: int,
    b: int,
)
    requires
        views_of(requests) == requests_for(reader.addresses()),
        0 <= a < requests.len(),
        0 <= b < requests.len(),
        ({
            let one = reader.pages@[requests[a].index as int];
            let other = reader.pages@[requests[b].index as int];
            let stem = reader.chapter.base_url@ + "/"@ + "data-saver"@ + "/"@ + reader.chapter.id@
                + "/"@;
            &&& one.page_type == PageType::LowQuality
            &&& other.page_type == PageType::LowQuality
            &&& parsed_url(stem + one.url@) != parsed_url(stem + other.url@)
        }),
    ensures
        requests[a].endpoint@ != requests[b].endpoint@,
{
    every_page_is_fetched_at_its_own_address(reader, requests);
    assert(requests[a].index < reader.pages@.len());
    assert(requests[b].index < reader.pages@.len());
}

/// An address holds its parts one after the other, whole and unchanged, with a slash between any
/// two.
pub proof fn an_address_holds_its_parts(
    base_url: Seq<char>,
    page_type: PageType,
    chapter_id: Seq<char>,
    file_name: Seq<char>,
)
    ensures
        ({
            let address = endpoint_text(base_url, page_type, chapter_id, file_name);
            let quality = if page_type == PageType::HighQuality {
                seq!['d', 'a', 't', 'a']
            } else {
                seq!['d', 'a', 't', 'a', '-', 's', 'a', 'v', 'e', 'r']
            };
            let first = base_url.len() as int;
            let second = first + 1 + quality.len();
            let third = second + 1 + chapter_id.len();
            &&& address.len() == third + 1 + file_name.len()
            &&& address.subrange(0, first) == base_url
            &&& address[first] == '/'
            &&& address.subrange(first + 1, second) == quality
            &&& address[second] == '/'
            &&& address.subrange(second + 1, third) == chapter_id
            &&& address[third] == '/'
            &&& address.subrange(third + 1, address.len() as int) == file_name
        }),
{
    reveal_strlit("/");
    reveal_strlit("data");
    reveal_strlit("data-saver");
    let address = endpoint_text(base_url, page_type, chapter_id, file_name);
    let quality = if page_type == PageType::HighQuality {
        seq!['d', 'a', 't', 'a']
    } else {
        seq!['d', 'a', 't', 'a', '-', 's', 'a', 'v', 'e', 'r']
    };
    let first = base_url.len() as int;
    let second = first + 1 + quality.len();
    let third = second + 1 + chapter_id.len();
    assert(page_type.segment() =~= quality);
    assert(address.subrange(0, first) =~= base_url);
    assert(address.subrange(first + 1, second) =~= quality);
    assert(address.subrange(second + 1, third) =~= chapter_id);
    assert(address.subrange(third + 1, address.len() as int) =~= file_name);
}

/// The program's name for servers holds what it is told of the machine, part by part, behind its
/// own name and version.
pub proof fn the_user_agent_holds_its_parts(family: Seq<char>, os: Seq<char>, arch: Seq<char>)
    ensures
        ({
            let agent = user_agent_text(family, os, arch);
            let name = "manga-tui/0.beta-testing1.0 ("@;
            let first: int = name.len() + family.len() as int;
            let second = first + 1 + os.len();
            let third = second + 1 + arch.len();
            &&& agent.len() == third + 1
            &&& agent.subrange(0, name.len() as int) == name
            &&& agent.subrange(name.len() as int, first) == family
            &&& agent[first] == '/'
            &&& agent.subrange(first + 1, second) == os
            &&& agent[second] == '/'
            &&& agent.subrange(second + 1, third) == arch
            &&& agent[third] == ')'
        }),
{
    reveal_strlit("/");
    reveal_strlit(")");
    let agent = user_agent_text(family, os, arch);
    let name = "manga-tui/0.beta-testing1.0 ("@;
    let first: int = name.len() + family.len() as int;
    let second = first + 1 + os.len();
    let third = second + 1 + arch.len();
    assert(agent.subrange(0, name.len() as int) =~= name);
    assert(agent.subrange(name.len() as int, first) =~= family);
    assert(agent.subrange(first + 1, second) =~= os);
    assert(agent.subrange(second + 1, third) =~= arch);
}

/// A search asks for the very volume, number and language of the chapter, and for volume zero where
/// the chapter belongs to none.
pub proof fn a_search_asks_for_the_chapter_itself(
    chapter: Chapter,
    search: ChapterSearch,
    manga_id: String,
)
    requires
        chapter.searched_by(search, manga_id),
    ensures
        search.manga_id == manga_id,
        chapter.volume_number matches Some(volume) ==> number_of(search.volume_number@) == volume,
        chapter.volume_number matches Some(volume) ==> search.volume_number@ == decimal(
            volume as nat,
        ),
        chapter.volume_number is None ==> search.volume_number@ == seq!['0'],
        number_of(search.chapter_number@) == chapter.number,
        search.chapter_number@ == decimal(chapter.number as nat),
        search.language == chapter.language,
{
    decimal_reads_back(chapter.number as nat);
    if let Some(volume) = chapter.volume_number {
        decimal_reads_back(volume as nat);
    }
}

/// Two searches ask for the same volume only if the chapters are of the same volume, and for the
/// same number only if the chapters have the same number.
pub proof fn searches_tell_chapters_apart(
    one: Chapter,
    other: Chapter,
    one_search: ChapterSearch,
    other_search: ChapterSearch,
    manga_id: String,
)
    requires
        one.searched_by(one_search, manga_id),
        other.searched_by(other_search, manga_id),
    ensures
        one.volume_number is Some && other.volume_number is Some ==> (one_search.volume_number@
            == other_search.volume_number@ <==> one.volume_number == other.volume_number),
        one_search.chapter_number@ == other_search.chapter_number@ <==> one.number == other.number,
        one_search.language == other_search.language <==> one.language == other.language,
{
    a_search_asks_for_the_chapter_itself(one, one_search, manga_id);
    a_search_asks_for_the_chapter_itself(other, other_search, manga_id);
}

/// A chapter that was found is reported, the very same; that none was found is reported exactly
/// where the server said so, and an error exactly where the search failed.
pub proof fn a_reply_is_reported_for_what_it_is<E>(reply: Result<Option<Chapter>, E>)
    ensures
        reply matches Ok(Some(chapter)) ==> search_outcome(reply) == MangaReaderEvents::LoadChapter(
            chapter,
        ),
        search_outcome(reply) == MangaReaderEvents::ChapterNotFound <==> (reply is Ok
            && reply->Ok_0 is None),
        search_outcome(reply) == MangaReaderEvents::ErrorSearchingChapter <==> reply is Err,
        search_outcome(reply) matches MangaReaderEvents::LoadChapter(chapter) ==> reply
            == Result::<Option<Chapter>, E>::Ok(Some(chapter)),
{
}

/// An action comes of exactly its own keys.
pub proof fn keys_stand_for_their_actions(key: KeyCode)
    ensures
        key_action(key) == Some(MangaReaderActions::NextPage) <==> (key is Down || key
            == KeyCode::Char('j')),
        key_action(key) == Some(MangaReaderActions::PreviousPage) <==> (key is Up || key
            == KeyCode::Char('k')),
        key_action(key) == Some(MangaReaderActions::SearchNextChapter) <==> key
            == KeyCode::Char('w'),
{
}

/// Scrolling down goes on and scrolling up goes back; the mouse asks for nothing else. An event
/// sends exactly the action of its key or scroll, and the tick alone has the page take in news.
pub proof fn events_lead_to_their_reactions(event: Events)
    ensures
        reaction_to(event) == Reaction::Send(MangaReaderActions::NextPage) <==> (event
            == Events::Key(KeyCode::Down) || event == Events::Key(KeyCode::Char('j')) || event
            == Events::Mouse(MouseEventKind::ScrollDown)),
        reaction_to(event) == Reaction::Send(MangaReaderActions::PreviousPage) <==> (event
            == Events::Key(KeyCode::Up) || event == Events::Key(KeyCode::Char('k')) || event
            == Events::Mouse(MouseEventKind::ScrollUp)),
        reaction_to(event) == Reaction::Send(MangaReaderActions::SearchNextChapter) <==> event
            == Events::Key(KeyCode::Char('w')),
        reaction_to(event) == Reaction::Tick <==> event == Events::Tick,
        event matches Events::Mouse(kind) ==> (mouse_action(kind) is None <==> kind
            == MouseEventKind::Other),
{
}

/// A step on selects the element behind the selected one, from nothing the first, and at the end
/// the first again or the same; in a list without elements it changes nothing. Nothing else about
/// the page changes.
pub proof fn a_step_on_selects_the_element_behind<S>(before: MangaReader<S>, after: MangaReader<S>)
    requires
        before.went_on(after),
    ensures
        ({
            let len = list_len(before.page_list_state);
            let circular = list_circular(before.page_list_state);
            let was = list_selected(before.page_list_state);
            let is = list_selected(after.page_list_state);
            &&& len == 0 ==> is == was
            &&& len > 0 ==> is is Some
            &&& len > 0 && was is None ==> is->0 == 0
            &&& len > 0 && was is Some && was->0 + 1 < len ==> is->0 == was->0 + 1
            &&& len > 0 && was is Some && was->0 + 1 >= len && circular ==> is->0 == 0
            &&& len > 0 && was is Some && was->0 + 1 >= len && !circular ==> is == was
        }),
        after.pages == before.pages,
        after.pages_list == before.pages_list,
        after.current_page_size == before.current_page_size,
        after.chapter == before.chapter,
        after.manga_id == before.manga_id,
        after.state == before.state,
        after._global_event_tx == before._global_event_tx,
        list_len(after.page_list_state) == list_len(before.page_list_state),
        list_circular(after.page_list_state) == list_circular(before.page_list_state),
{
}

/// A step back selects the element before the selected one, from nothing the first, and at the
/// beginning the last or the same; in a list without elements it changes nothing. Nothing else
/// about the page changes.
pub proof fn a_step_back_selects_the_element_before<S>(
    before: MangaReader<S>,
    after: MangaReader<S>,
)
    requires
        before.went_back(after),
    ensures
        ({
            let len = list_len(before.page_list_state);
            let circular = list_circular(before.page_list_state);
            let was = list_selected(before.page_list_state);
            let is = list_selected(after.page_list_state);
            &&& len == 0 ==> is == was
            &&& len > 0 ==> is is Some
            &&& len > 0 && was is None ==> is->0 == 0
            &&& len > 0 && was is Some && was->0 > 0 ==> is->0 == was->0 - 1
            &&& len > 0 && was == Some(0usize) && circular ==> is->0 == len - 1
            &&& len > 0 && was == Some(0usize) && !circular ==> is == was
        }),
        after.pages == before.pages,
        after.pages_list == before.pages_list,
        after.current_page_size == before.current_page_size,
        after.chapter == before.chapter,
        after.manga_id == before.manga_id,
        after.state == before.state,
        after._global_event_tx == before._global_event_tx,
        list_len(after.page_list_state) == list_len(before.page_list_state),
        list_circular(after.page_list_state) == list_circular(before.page_list_state),
{
}

/// Drawing the list lets as many elements be stepped through as it has lines, and leaves what is
/// selected, and everything else, alone.
pub proof fn drawing_counts_the_lines<S>(before: MangaReader<S>, after: MangaReader<S>)
    requires
        before.drew_list(after),
    ensures
        list_len(after.page_list_state) == before.pages_list.pages@.len(),
        list_selected(after.page_list_state) == list_selected(before.page_list_state),
        list_circular(after.page_list_state) == list_circular(before.page_list_state),
        after.pages == before.pages,
        after.pages_list == before.pages_list,
        after.current_page_size == before.current_page_size,
        after.chapter == before.chapter,
        after.manga_id == before.manga_id,
        after.state == before.state,
        after._global_event_tx == before._global_event_tx,
{
}

/// A picture gives its own page its dimensions and an image made of that very picture, and its own
/// line the mark of a loaded one. No other page or line changes, nor anything else, and a picture
/// that could not be had changes nothing at all.
pub proof fn a_picture_reaches_its_own_page_alone<S, F: FnOnce(DynamicImage) -> S>(
    before: MangaReader<S>,
    after: MangaReader<S>,
    news: Option<PageData>,
    show: F,
)
    requires
        before.loaded(after, news, show),
    ensures
        news is None ==> after == before,
        after.pages@.len() == before.pages@.len(),
        after.pages_list.pages@.len() == before.pages_list.pages@.len(),
        forall|i: int|
            0 <= i < before.pages@.len() && (news matches Some(data) && data.index == i) ==> {
                let page = #[trigger] after.pages@[i];
                &&& page.dimensions == Some(news->0.panel.dimensions)
                &&& page.image_state is Some
                &&& call_ensures(show, (news->0.panel.image_decoded,), page.image_state->0)
                &&& page.url == before.pages@[i].url
                &&& page.page_type == before.pages@[i].page_type
            },
        forall|i: int|
            0 <= i < before.pages@.len() && !(news matches Some(data) && data.index == i)
                ==> #[trigger] after.pages@[i] == before.pages@[i],
        forall|i: int|
            0 <= i < before.pages_list.pages@.len() && (news matches Some(data) && data.index == i)
                ==> {
                &&& (#[trigger] after.pages_list.pages@[i]).state == PageItemState::FinishedLoad
                &&& after.pages_list.pages@[i].number == before.pages_list.pages@[i].number
            },
        forall|i: int|
            0 <= i < before.pages_list.pages@.len() && !(news matches Some(data) && data.index
                == i) ==> #[trigger] after.pages_list.pages@[i] == before.pages_list.pages@[i],
        after.current_page_size == before.current_page_size,
        after.chapter == before.chapter,
        after.manga_id == before.manga_id,
        after.state == before.state,
        after._global_event_tx == before._global_event_tx,
        after.page_list_state == before.page_list_state,
{
}

/// Listing the pages makes a line for each of them, numbered like it and on its way, and changes
/// nothing else.
pub proof fn every_page_gets_its_line<S>(before: MangaReader<S>, after: MangaReader<S>)
    requires
        before.listed_pages(after),
    ensures
        after.pages_list.pages@.len() == before.pages@.len(),
        forall|i: int|
            0 <= i < before.pages@.len() ==> {
                &&& (#[trigger] after.pages_list.pages@[i]).number == i as usize
                &&& after.pages_list.pages@[i].state == PageItemState::Loading
            },
        after.pages == before.pages,
        after.current_page_size == before.current_page_size,
        after.chapter == before.chapter,
        after.manga_id == before.manga_id,
        after.state == before.state,
        after._global_event_tx == before._global_event_tx,
        after.page_list_state == before.page_list_state,
{
}

/// Forgetting the pages leaves no page and no line, and everything else as it is.
pub proof fn forgetting_leaves_no_page_and_no_line<S>(before: MangaReader<S>, after: MangaReader<S>)
    requires
        before.forgot_pages(after),
    ensures
        after.pages@.len() == 0,
        after.pages_list.pages@.len() == 0,
        after.current_page_size == before.current_page_size,
        after.chapter == before.chapter,
        after.manga_id == before.manga_id,
        after.state == before.state,
        after._global_event_tx == before._global_event_tx,
        after.page_list_state == before.page_list_state,
{
}

/// Beginning the search for the next chapter counts the chapter's number up by one and has the page
/// wait for the chapter. Of the chapter and the page nothing else changes.
pub proof fn a_search_begins_at_the_next_number<S>(before: MangaReader<S>, after: MangaReader<S>)
    requires
        before.chapter.number < u32::MAX,
        before.began_search(after),
    ensures
        after.state == State::SearchingChapter,
        after.chapter.number == before.chapter.number + 1,
        after.chapter.id == before.chapter.id,
        after.chapter.base_url == before.chapter.base_url,
        after.chapter.volume_number == before.chapter.volume_number,
        after.chapter.pages_url == before.chapter.pages_url,
        after.chapter.language == before.chapter.language,
        after.pages == before.pages,
        after.pages_list == before.pages_list,
        after.current_page_size == before.current_page_size,
        after.manga_id == before.manga_id,
        after._global_event_tx == before._global_event_tx,
        after.page_list_state == before.page_list_state,
{
}

/// A fresh page holds the chapter and the manga that it was made for, and for each file of the
/// chapter, in order, a low-quality page that is not loaded. Nothing is listed or selected.
pub proof fn a_fresh_page_holds_its_chapter<S>(
    reader: MangaReader<S>,
    chapter: Chapter,
    manga_id: String,
)
    requires
        reader.is_fresh(chapter, manga_id),
    ensures
        reader.chapter == chapter,
        reader.manga_id == manga_id,
        reader.pages@.len() == chapter.pages_url@.len(),
        forall|i: int|
            0 <= i < chapter.pages_url@.len() ==> {
                &&& (#[trigger] reader.pages@[i]).url == chapter.pages_url@[i]
                &&& reader.pages@[i].page_type == PageType::LowQuality
                &&& reader.pages@[i].image_state is None
                &&& reader.pages@[i].dimensions is None
            },
        reader.pages_list.pages@.len() == 0,
        reader.current_page_size == 2,
        reader.state == State::SearchingPages,
        reader._global_event_tx is None,
        list_selected(reader.page_list_state) is None,
        list_len(reader.page_list_state) == 0,
        list_circular(reader.page_list_state),
{
}

/// The news that pages are to be fetched has every page listed and fetched at its own address, the
/// news of a picture gives it to its page, and all other news change nothing; only the first of
/// these asks for pictures.
pub proof fn news_do_what_they_say<S, F: FnOnce(DynamicImage) -> S>(
    before: MangaReader<S>,
    after: MangaReader<S>,
    news: MangaReaderEvents,
    show: F,
    requests: Seq<PageRequest>,
)
    requires
        before.acted_on(after, news, show, requests),
    ensures
        news == MangaReaderEvents::FetchPages ==> {
            &&& before.listed_pages(after)
            &&& views_of(requests) == requests_for(before.addresses())
        },
        news matches MangaReaderEvents::LoadPage(data) ==> before.loaded(after, data, show)
            && requests.len() == 0,
        !(news is FetchPages) && !(news is LoadPage) ==> after == before && requests.len() == 0,
{
}

/// A tick takes the oldest of the pending news away, and none but it, and acts on it; without news
/// it does nothing.
pub proof fn a_tick_takes_the_oldest_news<S, F: FnOnce(DynamicImage) -> S>(
    before: MangaReader<S>,
    pending: Seq<MangaReaderEvents>,
    after: MangaReader<S>,
    left: Seq<MangaReaderEvents>,
    show: F,
    requests: Seq<PageRequest>,
)
    requires
        before.ticked(pending, after, left, show, requests),
    ensures
        pending.len() == 0 ==> after == before && left.len() == 0 && requests.len() == 0,
        pending.len() > 0 ==> before.acted_on(after, pending[0], show, requests),
        pending.len() > 0 ==> left.len() + 1 == pending.len(),
        forall|i: int| 0 <= i < left.len() ==> #[trigger] left[i] == pending[i + 1],
{
}

/// A well-formed page has the chapter's pages in order, or none, each with its dimensions exactly
/// if it has its image; a line for each page, numbered like it, or none; and one of two weights.
pub proof fn a_well_formed_page_is_in_order<S>(reader: MangaReader<S>)
    ensures
        reader.wf() <==> {
            &&& reader.pages@.len() == 0 || reader.pages@.len() == reader.chapter.pages_url@.len()
            &&& forall|i: int|
                0 <= i < reader.pages@.len() ==> {
                    &&& (#[trigger] reader.pages@[i]).url == reader.chapter.pages_url@[i]
                    &&& reader.pages@[i].image_state is Some <==> reader.pages@[i].dimensions is Some
                }
            &&& reader.pages_list.pages@.len() == 0 || reader.pages_list.pages@.len()
                == reader.pages@.len()
            &&& forall|i: int|
                0 <= i < reader.pages_list.pages@.len() ==> (
                #[trigger] reader.pages_list.pages@[i]).number == i as usize
            &&& reader.current_page_size == 2 || reader.current_page_size == 5
        },
{
}

/// A page can be drawn unless it shows an image whose dimensions are not known, and news can be
/// acted on unless they bring a picture for a page that cannot be asked how to show it.
pub proof fn little_is_asked_beforehand<S, F: FnOnce(DynamicImage) -> S>(
    reader: MangaReader<S>,
    news: MangaReaderEvents,
    show: F,
)
    ensures
        reader.can_render() <==> !(reader.content() matches PageContent::Image(i)
            && reader.pages@[i as int].dimensions is None),
        !(news is LoadPage) ==> reader.can_act_on(news, show),
        news matches MangaReaderEvents::LoadPage(data) ==> (reader.can_act_on(news, show) <==> (
        data is None || data->0.index >= reader.pages@.len() || call_requires(
            show,
            (data->0.panel.image_decoded,),
        ))),
{
}

/// A margin is taken off on all four sides, and an area that is too small for it leaves nothing.
pub proof fn a_margin_is_taken_off_on_every_side(area: Area, horizontal: u16, vertical: u16)
    ensures
        ({
            let inner = area.within_margin(horizontal, vertical);
            &&& 2 * horizontal <= area.width && 2 * vertical <= area.height ==> {
                &&& inner.width + 2 * horizontal == area.width
                &&& inner.height + 2 * vertical == area.height
                &&& area.x + horizontal <= u16::MAX ==> inner.x == area.x + horizontal
                &&& area.y + vertical <= u16::MAX ==> inner.y == area.y + vertical
            }
            &&& 2 * horizontal > area.width || 2 * vertical > area.height ==> inner.width == 0
                || inner.height == 0
            &&& area.width < 2 * horizontal <= u16::MAX || area.height < 2 * vertical <= u16::MAX
                ==> inner == (Area { x: 0, y: 0, width: 0, height: 0 })
        }),
{
}

/// Columns that divide an area are as high as it is, stand in it, and do not overlap.
pub proof fn columns_share_the_area(columns: Columns, area: Area)
    requires
        columns.divide(area),
    ensures
        columns.left.y == area.y && columns.center.y == area.y && columns.right.y == area.y,
        columns.left.height == area.height,
        columns.center.height == area.height,
        columns.right.height == area.height,
        area.x <= columns.left.x,
        columns.left.x + columns.left.width <= columns.center.x,
        columns.center.x + columns.center.width <= columns.right.x,
        columns.right.x + columns.right.width <= area.x + area.width,
{
}

} // verus!
