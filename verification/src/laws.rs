//! What holds of the reader page as a whole.
use image::DynamicImage;
use vstd::arithmetic::div_mod::{
    lemma_fundamental_div_mod, lemma_fundamental_div_mod_converse,
};
use vstd::prelude::*;

use crate::chapter::{searched_volume, Chapter};
use crate::events::MangaReaderEvents;
use crate::list_state::{list_circular, list_len, list_selected};
use crate::page::{
    endpoint_text, loading_items, requests_for, PageData, PageItemState, PageRequest, PageType,
};
use crate::reader::{page_size_for, MangaReader, PageContent, State, NARROW_PAGE, WIDE_PAGE};
use crate::text::{decimal, decimal_reads_back, number_of};

verus! {

/// From `before` to `after`, one thing happened to the page: the list was drawn or stepped
/// through, the page was shown, its pages were listed, given a picture or forgotten, the search for
/// the next chapter began, or the page was told to wait for a chapter or where to send events.
pub open spec fn a_step<S>(before: MangaReader<S>, after: MangaReader<S>) -> bool {
    ||| after == before
    ||| before.drew_list(after)
    ||| before.went_on(after)
    ||| before.went_back(after)
    ||| before.rendered(after)
    ||| before.listed_pages(after)
    ||| exists|news: Option<PageData>| #[trigger] before.placed(after, news)
    ||| before.forgot_pages(after)
    ||| before.chapter.number < u32::MAX && before.began_search(after)
    ||| after == (MangaReader { state: State::SearchingChapter, ..before })
    ||| after == (MangaReader { _global_event_tx: after._global_event_tx, ..before })
}

/// The page reads `chapter` of the manga `manga_id`: of the chapter only the number has changed, to
/// a later one; the pages are the chapter's, in low quality, or have been forgotten; the list has
/// been drawn with all of them or with none; and what is selected is the position of a page.
pub open spec fn reads<S>(reader: MangaReader<S>, chapter: Chapter, manga_id: String) -> bool {
    &&& reader.wf()
    &&& reader.manga_id == manga_id
    &&& reader.chapter == (Chapter { number: reader.chapter.number, ..chapter })
    &&& chapter.number <= reader.chapter.number
    &&& forall|i: int|
        0 <= i < reader.pages@.len() ==> (#[trigger] reader.pages@[i]).page_type
            == PageType::LowQuality
    &&& list_len(reader.page_list_state) == 0 || list_len(reader.page_list_state)
        == chapter.pages_url@.len()
    &&& list_selected(reader.page_list_state) matches Some(i) ==> i < chapter.pages_url@.len()
    &&& list_circular(reader.page_list_state)
}

/// Whatever happens to a page, it keeps reading the chapter of the manga that it began with.
pub proof fn a_step_keeps_to_the_chapter<S>(
    before: MangaReader<S>,
    after: MangaReader<S>,
    chapter: Chapter,
    manga_id: String,
)
    requires
        reads(before, chapter, manga_id),
        a_step(before, after),
    ensures
        reads(after, chapter, manga_id),
{
    if exists|news: Option<PageData>| #[trigger] before.placed(after, news) {
        let news = choose|news: Option<PageData>| #[trigger] before.placed(after, news);
        assert forall|i: int| 0 <= i < after.pages@.len() implies {
            &&& (#[trigger] after.pages@[i]).wf()
            &&& after.pages@[i].url == after.chapter.pages_url@[i]
            &&& after.pages@[i].page_type == PageType::LowQuality
        } by {
            assert(before.pages@[i].wf());
        }
    }
}

/// What a tick does to the page, whatever was pending, is one of the things that can happen to it.
pub proof fn a_tick_is_a_step<S, F: FnOnce(DynamicImage) -> S>(
    before: MangaReader<S>,
    pending: Seq<MangaReaderEvents>,
    after: MangaReader<S>,
    left: Seq<MangaReaderEvents>,
    show: F,
    requests: Seq<PageRequest>,
)
    requires
        before.ticked(pending, after, left, show, requests),
    ensures
        a_step(before, after),
{
}

/// However a page is led on from its beginning, it keeps reading the chapter of the manga that it
/// began with.
pub proof fn a_reader_keeps_to_its_chapter<S>(
    readers: Seq<MangaReader<S>>,
    chapter: Chapter,
    manga_id: String,
)
    requires
        readers.len() > 0,
        readers[0].is_fresh(chapter, manga_id),
        forall|k: int|
            0 <= k < readers.len() - 1 ==> a_step(#[trigger] readers[k], readers[k + 1]),
    ensures
        reads(readers.last(), chapter, manga_id),
    decreases readers.len(),
{
    if readers.len() > 1 {
        let earlier = readers.drop_last();
        assert forall|k: int| 0 <= k < earlier.len() - 1 implies a_step(
            #[trigger] earlier[k],
            earlier[k + 1],
        ) by {
            assert(a_step(readers[k], readers[k + 1]));
        }
        a_reader_keeps_to_its_chapter(earlier, chapter, manga_id);
        assert(a_step(readers[readers.len() - 2], readers[readers.len() - 2 + 1]));
        a_step_keeps_to_the_chapter(earlier.last(), readers.last(), chapter, manga_id);
    }
}

/// A page that reads a chapter and has its pages shows one of them.
pub proof fn a_reader_shows_one_of_its_pages<S>(
    reader: MangaReader<S>,
    chapter: Chapter,
    manga_id: String,
)
    requires
        reads(reader, chapter, manga_id),
        reader.pages@.len() > 0,
    ensures
        0 <= reader.shown_position() < reader.pages@.len(),
        reader.can_render(),
{
}

/// Once the pages, of which there are some, are listed and the list is drawn, a step on or back
/// selects and shows one of them.
pub proof fn stepping_through_drawn_pages_shows_a_page<S>(
    before: MangaReader<S>,
    listed: MangaReader<S>,
    drawn: MangaReader<S>,
    on: MangaReader<S>,
    back: MangaReader<S>,
)
    requires
        before.pages@.len() > 0,
        list_selected(before.page_list_state) matches Some(i) ==> i < before.pages@.len(),
        before.listed_pages(listed),
        listed.drew_list(drawn),
        drawn.went_on(on),
        drawn.went_back(back),
    ensures
        list_selected(on.page_list_state) is Some,
        0 <= on.shown_position() < on.pages@.len(),
        on.pages == before.pages,
        list_selected(back.page_list_state) is Some,
        0 <= back.shown_position() < back.pages@.len(),
        back.pages == before.pages,
{
}

/// Every tick acts on the oldest piece of the news that were pending at first and are still left,
/// until none is left; from then on a tick changes nothing. So the news are acted on one by one in
/// their order, and as many ticks are needed as there are news.
pub proof fn news_are_acted_on_in_order<S, F: FnOnce(DynamicImage) -> S>(
    readers: Seq<MangaReader<S>>,
    queues: Seq<Seq<MangaReaderEvents>>,
    shows: Seq<F>,
    requests: Seq<Seq<PageRequest>>,
    k: int,
)
    requires
        readers.len() == queues.len() == shows.len() + 1 == requests.len() + 1,
        forall|j: int|
            0 <= j < shows.len() ==> (#[trigger] readers[j]).ticked(
                queues[j],
                readers[j + 1],
                queues[j + 1],
                shows[j],
                requests[j],
            ),
        0 <= k < shows.len(),
    ensures
        queues[k + 1] == (if k + 1 <= queues[0].len() {
            queues[0].skip(k + 1)
        } else {
            Seq::<MangaReaderEvents>::empty()
        }),
        k < queues[0].len() ==> readers[k].acted_on(
            readers[k + 1],
            queues[0][k],
            shows[k],
            requests[k],
        ),
        k >= queues[0].len() ==> readers[k + 1] == readers[k] && requests[k] == Seq::<
            PageRequest,
        >::empty(),
    decreases k,
{
    assert(readers[k].ticked(queues[k], readers[k + 1], queues[k + 1], shows[k], requests[k]));
    if k > 0 {
        news_are_acted_on_in_order(readers, queues, shows, requests, k - 1);
    }
    if k < queues[0].len() {
        assert(queues[k] =~= queues[0].skip(k));
        assert(queues[k + 1] =~= queues[0].skip(k + 1));
    } else {
        assert(queues[k] =~= Seq::<MangaReaderEvents>::empty());
    }
}

/// Stepping on or back in a list that is not empty selects an element of the list.
pub proof fn stepping_stays_in_the_list<S>(
    before: MangaReader<S>,
    on: MangaReader<S>,
    back: MangaReader<S>,
)
    requires
        before.went_on(on),
        before.went_back(back),
        list_len(before.page_list_state) > 0,
        list_selected(before.page_list_state) matches Some(i) ==> i < list_len(
            before.page_list_state,
        ),
    ensures
        list_selected(on.page_list_state) matches Some(i) && i < list_len(on.page_list_state),
        list_selected(back.page_list_state) matches Some(i) && i < list_len(back.page_list_state),
{
}

/// Stepping on and then back selects the element that was selected, unless the step on had
/// nowhere to go.
pub proof fn stepping_back_undoes_stepping_on<S>(
    first: MangaReader<S>,
    second: MangaReader<S>,
    third: MangaReader<S>,
)
    requires
        first.went_on(second),
        second.went_back(third),
        list_selected(first.page_list_state) matches Some(i) && i < list_len(first.page_list_state)
            && (list_circular(first.page_list_state) || i + 1 < list_len(first.page_list_state)),
    ensures
        third.same_but_selection(first),
        list_selected(third.page_list_state) == list_selected(first.page_list_state),
{
}

/// Stepping back and then on selects the element that was selected, unless the step back had
/// nowhere to go.
pub proof fn stepping_on_undoes_stepping_back<S>(
    first: MangaReader<S>,
    second: MangaReader<S>,
    third: MangaReader<S>,
)
    requires
        first.went_back(second),
        second.went_on(third),
        list_selected(first.page_list_state) matches Some(i) && i < list_len(first.page_list_state)
            && (list_circular(first.page_list_state) || i > 0),
    ensures
        third.same_but_selection(first),
        list_selected(third.page_list_state) == list_selected(first.page_list_state),
{
}

/// The remainder of the next number is one more, or zero again.
proof fn lemma_remainder_steps(k: int, n: int)
    requires
        0 <= k,
        0 < n,
    ensures
        0 <= k % n < n,
        (k + 1) % n == (if k % n + 1 < n {
            k % n + 1
        } else {
            0
        }),
{
    let q = k / n;
    let r = k % n;
    lemma_fundamental_div_mod(k, n);
    assert(n * q == q * n) by (nonlinear_arith);
    if r + 1 < n {
        lemma_fundamental_div_mod_converse(k + 1, n, q, r + 1);
    } else {
        assert((q + 1) * n == q * n + n) by (nonlinear_arith);
        lemma_fundamental_div_mod_converse(k + 1, n, q + 1, 0);
    }
}

/// From nothing, steps on go through the elements from the first, over and over where the
/// selection goes round, and otherwise until they come to rest at the last.
pub proof fn steps_go_through_the_list<S>(readers: Seq<MangaReader<S>>)
    requires
        readers.len() > 1,
        forall|k: int| 0 <= k < readers.len() - 1 ==> (#[trigger] readers[k]).went_on(readers[k + 1]),
        list_selected(readers[0].page_list_state) is None,
        list_len(readers[0].page_list_state) > 0,
    ensures
        ({
            let len = list_len(readers[0].page_list_state);
            let steps = readers.len() - 1;
            let selected = list_selected(readers.last().page_list_state);
            &&& readers.last().same_but_selection(readers[0])
            &&& list_circular(readers[0].page_list_state) ==> selected == Some(
                ((steps - 1) % (len as int)) as usize,
            )
            &&& !list_circular(readers[0].page_list_state) ==> selected == Some(
                if steps <= len {
                    (steps - 1) as usize
                } else {
                    (len - 1) as usize
                },
            )
        }),
    decreases readers.len(),
{
    let n = list_len(readers[0].page_list_state) as int;
    let earlier = readers.drop_last();
    let before = readers[readers.len() - 2];
    assert(before.went_on(readers[readers.len() - 2 + 1]));
    if earlier.len() > 1 {
        assert forall|k: int| 0 <= k < earlier.len() - 1 implies (#[trigger] earlier[k]).went_on(
            earlier[k + 1],
        ) by {
            assert(readers[k].went_on(readers[k + 1]));
        }
        steps_go_through_the_list(earlier);
        let k = readers.len() - 3;
        lemma_remainder_steps(k, n);
    } else {
        assert(0int % n == 0);
    }
}

/// A page that keeps its pages in order can always be drawn.
pub proof fn well_formed_pages_can_be_drawn<S>(reader: MangaReader<S>)
    requires
        reader.wf(),
    ensures
        reader.can_render(),
{
}

/// Showing the same image again leaves the weight of the page as it is, and an image gives the
/// page no weight but the two that there are.
pub proof fn page_size_settles(current: u16, dimensions: (u32, u32))
    ensures
        page_size_for(page_size_for(current, dimensions), dimensions) == page_size_for(
            current,
            dimensions,
        ),
        page_size_for(current, dimensions) == current || page_size_for(current, dimensions)
            == NARROW_PAGE || page_size_for(current, dimensions) == WIDE_PAGE,
{
}

/// A fresh page, once its pages are fetched, lists every page of the chapter in order as being on
/// its way, at the address that the chapter gives it, and shows that it is loading.
pub proof fn a_fresh_page_lists_its_chapter<S>(
    chapter: Chapter,
    manga_id: String,
    fresh: MangaReader<S>,
    after: MangaReader<S>,
)
    requires
        fresh.is_fresh(chapter, manga_id),
        fresh.listed_pages(after),
    ensures
        after.pages_list.pages@ == loading_items(chapter.pages_url@.len()),
        forall|i: int|
            0 <= i < chapter.pages_url@.len() ==> #[trigger] fresh.endpoint(i) == endpoint_text(
                chapter.base_url@,
                PageType::LowQuality,
                chapter.id@,
                chapter.pages_url@[i]@,
            ),
        after.content() == PageContent::Loading,
        after.wf(),
{
}

/// The pictures to fetch come in the order of their pages, each page at most once, and they are
/// those of exactly the pages that have an address.
pub proof fn requests_follow_the_pages(addresses: Seq<Option<Seq<char>>>)
    ensures
        ({
            let requests = requests_for(addresses);
            &&& requests.len() <= addresses.len()
            &&& forall|a: int, b: int|
                0 <= a < b < requests.len() ==> (#[trigger] requests[a]).0 < (
                #[trigger] requests[b]).0
            &&& forall|a: int|
                0 <= a < requests.len() ==> {
                    &&& 0 <= (#[trigger] requests[a]).0 < addresses.len()
                    &&& addresses[requests[a].0] == Some(requests[a].1)
                }
            &&& forall|i: int|
                0 <= i < addresses.len() && (#[trigger] addresses[i]) is Some
                    ==> requests.contains((i, addresses[i]->0))
        }),
    decreases addresses.len(),
{
    if addresses.len() > 0 {
        let earlier = addresses.drop_last();
        requests_follow_the_pages(earlier);
        let requests = requests_for(addresses);
        let before = requests_for(earlier);
        assert forall|a: int| 0 <= a < requests.len() implies {
            &&& 0 <= (#[trigger] requests[a]).0 < addresses.len()
            &&& addresses[requests[a].0] == Some(requests[a].1)
        } by {
            if a < before.len() {
                assert(requests[a] == before[a]);
                assert(earlier[before[a].0] == addresses[before[a].0]);
            }
        }
        assert forall|i: int|
            0 <= i < addresses.len() && (#[trigger] addresses[i]) is Some implies requests.contains(
            (i, addresses[i]->0),
        ) by {
            if i < earlier.len() {
                assert(earlier[i] == addresses[i]);
                let a = choose|a: int|
                    0 <= a < before.len() && before[a] == (i, addresses[i]->0);
                assert(requests[a] == before[a]);
            } else {
                assert(requests[requests.len() - 1] == (i, addresses[i]->0));
            }
        }
    }
}

/// The picture of the page at `i` is among `pictures`.
pub open spec fn has_picture_of(pictures: Seq<PageData>, i: int) -> bool {
    exists|k: int| 0 <= k < pictures.len() && (#[trigger] pictures[k]).index == i
}

/// However pictures come in, and whichever of them come twice or belong to no page, a page has its
/// image exactly if it had it before or its picture has come, and a line of the list is marked as
/// loaded exactly if it was before or its picture has come. Pages and lines stay where they are.
pub proof fn pages_are_loaded_as_pictures_come<S, F: FnOnce(DynamicImage) -> S>(
    readers: Seq<MangaReader<S>>,
    pictures: Seq<PageData>,
    shows: Seq<F>,
)
    requires
        readers.len() == pictures.len() + 1,
        shows.len() == pictures.len(),
        forall|k: int|
            0 <= k < pictures.len() ==> (#[trigger] readers[k]).loaded(
                readers[k + 1],
                Some(pictures[k]),
                shows[k],
            ),
    ensures
        ({
            let start = readers[0];
            let end = readers.last();
            &&& end.pages@.len() == start.pages@.len()
            &&& forall|i: int|
                0 <= i < start.pages@.len() ==> {
                    &&& (#[trigger] end.pages@[i]).url == start.pages@[i].url
                    &&& end.pages@[i].page_type == start.pages@[i].page_type
                    &&& end.pages@[i].image_state is Some <==> (start.pages@[i].image_state is Some
                        || has_picture_of(pictures, i))
                }
            &&& end.pages_list.pages@.len() == start.pages_list.pages@.len()
            &&& forall|i: int|
                0 <= i < start.pages_list.pages@.len() ==> {
                    &&& (#[trigger] end.pages_list.pages@[i]).number
                        == start.pages_list.pages@[i].number
                    &&& end.pages_list.pages@[i].state == PageItemState::FinishedLoad <==> (
                    start.pages_list.pages@[i].state == PageItemState::FinishedLoad
                        || has_picture_of(pictures, i))
                }
        }),
    decreases pictures.len(),
{
    if pictures.len() > 0 {
        let last = pictures.len() - 1;
        let earlier = pictures.drop_last();
        let before = readers[last];
        let end = readers[last + 1];
        assert(before.loaded(end, Some(pictures[last]), shows[last]));
        assert forall|k: int| 0 <= k < earlier.len() implies (
        #[trigger] readers.drop_last()[k]).loaded(
            readers.drop_last()[k + 1],
            Some(earlier[k]),
            shows.drop_last()[k],
        ) by {
            assert(readers[k].loaded(readers[k + 1], Some(pictures[k]), shows[k]));
        }
        pages_are_loaded_as_pictures_come(readers.drop_last(), earlier, shows.drop_last());
        assert forall|i: int| #[trigger]
            has_picture_of(pictures, i) <==> has_picture_of(earlier, i) || pictures[last].index
                == i by {
            if has_picture_of(earlier, i) {
                let k = choose|k: int| 0 <= k < earlier.len() && (#[trigger] earlier[k]).index == i;
                assert(pictures[k].index == i);
            }
            if has_picture_of(pictures, i) && pictures[last].index != i {
                let k = choose|k: int|
                    0 <= k < pictures.len() && (#[trigger] pictures[k]).index == i;
                assert(earlier[k].index == i);
            }
        }
    }
}

/// Two pictures of different pages can come in either order: the pages end with the same
/// dimensions, the same pages have their images, and the list ends the same.
pub proof fn pictures_come_in_any_order<S, F: FnOnce(DynamicImage) -> S, G: FnOnce(DynamicImage) -> S>(
    start: MangaReader<S>,
    first: PageData,
    second: PageData,
    show_first: F,
    show_second: G,
    first_only: MangaReader<S>,
    first_then_second: MangaReader<S>,
    second_only: MangaReader<S>,
    second_then_first: MangaReader<S>,
)
    requires
        first.index != second.index,
        start.loaded(first_only, Some(first), show_first),
        first_only.loaded(first_then_second, Some(second), show_second),
        start.loaded(second_only, Some(second), show_second),
        second_only.loaded(second_then_first, Some(first), show_first),
    ensures
        first_then_second.pages@.len() == second_then_first.pages@.len(),
        forall|i: int|
            0 <= i < first_then_second.pages@.len() ==> {
                &&& (#[trigger] first_then_second.pages@[i]).dimensions
                    == second_then_first.pages@[i].dimensions
                &&& first_then_second.pages@[i].url == second_then_first.pages@[i].url
                &&& first_then_second.pages@[i].page_type == second_then_first.pages@[i].page_type
                &&& first_then_second.pages@[i].image_state is Some
                    <==> second_then_first.pages@[i].image_state is Some
            },
        first_then_second.pages_list.pages@ == second_then_first.pages_list.pages@,
{
    assert forall|i: int| 0 <= i < first_then_second.pages@.len() implies {
        &&& (#[trigger] first_then_second.pages@[i]).dimensions
            == second_then_first.pages@[i].dimensions
        &&& first_then_second.pages@[i].url == second_then_first.pages@[i].url
        &&& first_then_second.pages@[i].page_type == second_then_first.pages@[i].page_type
        &&& first_then_second.pages@[i].image_state is Some
            <==> second_then_first.pages@[i].image_state is Some
    } by {
        if i == first.index {
            assert(first_then_second.pages@[i] == first_only.pages@[i]);
            assert(second_only.pages@[i] == start.pages@[i]);
        } else if i == second.index {
            assert(first_only.pages@[i] == start.pages@[i]);
            assert(second_then_first.pages@[i] == second_only.pages@[i]);
        } else {
            assert(first_then_second.pages@[i] == first_only.pages@[i]);
            assert(first_only.pages@[i] == start.pages@[i]);
            assert(second_then_first.pages@[i] == second_only.pages@[i]);
            assert(second_only.pages@[i] == start.pages@[i]);
        }
    }
    assert(first_then_second.pages_list.pages@ =~= second_then_first.pages_list.pages@);
}

/// The picture of the page that is shown, once it has come in, is what is shown, and its
/// dimensions set the weight of the page.
pub proof fn the_shown_page_shows_its_picture<S, F: FnOnce(DynamicImage) -> S>(
    before: MangaReader<S>,
    after: MangaReader<S>,
    data: PageData,
    show: F,
)
    requires
        before.loaded(after, Some(data), show),
        before.shown_position() == data.index,
        data.index < before.pages@.len(),
    ensures
        after.content() == PageContent::Image(data.index),
        after.can_render(),
        after.size_when_shown() == page_size_for(before.current_page_size, data.panel.dimensions),
{
}

/// After the pages have been forgotten, whatever happens to the page, nothing is shown but that a
/// page is loading, no page or line comes back, and there is nothing to fetch.
pub proof fn forgotten_pages_stay_forgotten<S>(before: MangaReader<S>, readers: Seq<MangaReader<S>>)
    requires
        readers.len() > 0,
        before.forgot_pages(readers[0]),
        forall|k: int|
            0 <= k < readers.len() - 1 ==> a_step(#[trigger] readers[k], readers[k + 1]),
    ensures
        readers.last().pages@.len() == 0,
        readers.last().pages_list.pages@.len() == 0,
        readers.last().content() == PageContent::Loading,
        requests_for(readers.last().addresses()) == Seq::<(int, Seq<char>)>::empty(),
    decreases readers.len(),
{
    assert(readers.last().addresses().len() == readers.last().pages@.len());
    if readers.len() > 1 {
        let earlier = readers.drop_last();
        assert forall|k: int| 0 <= k < earlier.len() - 1 implies a_step(
            #[trigger] earlier[k],
            earlier[k + 1],
        ) by {
            assert(a_step(readers[k], readers[k + 1]));
        }
        forgotten_pages_stay_forgotten(before, earlier);
        assert(a_step(readers[readers.len() - 2], readers[readers.len() - 2 + 1]));
    }
}

/// A picture, a fetch or a drawing that comes after the pages have been forgotten changes nothing
/// about the page.
pub proof fn late_events_find_no_pages<S>(
    before: MangaReader<S>,
    forgotten: MangaReader<S>,
    after: MangaReader<S>,
    news: Option<PageData>,
)
    requires
        before.forgot_pages(forgotten),
        forgotten.placed(after, news) || forgotten.listed_pages(after) || forgotten.rendered(after),
    ensures
        forgotten.forgot_pages(after),
        before.forgot_pages(after),
        after.current_page_size == before.current_page_size,
{
    assert(after.pages@ =~= Seq::empty());
    assert(after.pages_list.pages@ =~= Seq::empty());
}

/// The search that is begun for the next chapter asks for the number that follows, in a text that
/// differs from the one that stood for the chapter before, and in the same volume and language.
pub proof fn the_next_search_asks_for_the_next_number<S>(
    before: MangaReader<S>,
    after: MangaReader<S>,
)
    requires
        before.chapter.number < u32::MAX,
        before.began_search(after),
    ensures
        number_of(decimal(after.chapter.number as nat)) == before.chapter.number + 1,
        decimal(after.chapter.number as nat) != decimal(before.chapter.number as nat),
        searched_volume(after.chapter.volume_number) == searched_volume(
            before.chapter.volume_number,
        ),
        after.chapter.language == before.chapter.language,
        after.state == State::SearchingChapter,
{
    decimal_reads_back(after.chapter.number as nat);
    decimal_reads_back(before.chapter.number as nat);
}

} // verus!
