//! The pages of a chapter, and the list that shows how far they have come.
use image::DynamicImage;
use vstd::prelude::*;
use vstd::string::StringExecFns;

use crate::laws::requests_follow_the_pages;
use crate::url::text_of;

verus! {

/// A decoded picture. The pages only hand it on: nothing is said of it.
#[verifier::external_type_specification]
#[verifier::external_body]
pub struct ExDynamicImage(DynamicImage);

/// A picture that has been fetched and decoded, with its width and height in pixels.
#[derive(Debug, PartialEq, Default)]
pub struct MangaPanel {
    pub image_decoded: DynamicImage,
    pub dimensions: (u32, u32),
}

/// The picture of the page at `index`.
#[derive(Debug, PartialEq)]
pub struct PageData {
    pub panel: MangaPanel,
    pub index: usize,
}

/// The two qualities in which the server keeps a page.
#[derive(Debug, Clone, Copy, PartialEq, Eq, Structural)]
pub enum PageType {
    HighQuality,
    LowQuality,
}

impl PageType {
    /// The part of an address that names the quality.
    pub open spec fn segment(self) -> Seq<char> {
        match self {
            PageType::HighQuality => "data"@,
            PageType::LowQuality => "data-saver"@,
        }
    }

    /// The part of an address that names the quality.
    pub fn as_str(&self) -> (segment: &'static str)
        ensures
            segment@ == self.segment(),
    {
        match self {
            PageType::HighQuality => "data",
            PageType::LowQuality => "data-saver",
        }
    }
}

/// A page: where it comes from and, once it is loaded, its image in the form `S` in which the
/// terminal shows it.
pub struct Page<S> {
    pub image_state: Option<S>,
    pub url: String,
    pub page_type: PageType,
    pub dimensions: Option<(u32, u32)>,
}

impl<S> Page<S> {
    /// The dimensions are known exactly of the pages that have an image.
    pub open spec fn wf(self) -> bool {
        self.image_state is Some <==> self.dimensions is Some
    }

    /// A page that is not loaded yet.
    pub fn new(url: String, page_type: PageType) -> (page: Self)
        ensures
            page.image_state is None,
            page.dimensions is None,
            page.url == url,
            page.page_type == page_type,
            page.wf(),
    {
        Page { image_state: None, dimensions: None, url, page_type }
    }
}

/// The address of a page's picture: server, quality, chapter and file, with slashes between.
pub open spec fn endpoint_text(
    base_url: Seq<char>,
    page_type: PageType,
    chapter_id: Seq<char>,
    file_name: Seq<char>,
) -> Seq<char> {
    base_url + "/"@ + page_type.segment() + "/"@ + chapter_id + "/"@ + file_name
}

/// The address of a page's picture.
pub fn page_endpoint(
    base_url: &str,
    page_type: PageType,
    chapter_id: &str,
    file_name: &str,
) -> (endpoint: String)
    ensures
        endpoint@ == endpoint_text(base_url@, page_type, chapter_id@, file_name@),
        page_type == PageType::LowQuality ==> endpoint@ == base_url@ + "/"@ + "data-saver"@ + "/"@
            + chapter_id@ + "/"@ + file_name@,
        page_type == PageType::HighQuality ==> endpoint@ == base_url@ + "/"@ + "data"@ + "/"@
            + chapter_id@ + "/"@ + file_name@,
{
    let mut endpoint = base_url.to_owned();
    endpoint.append("/");
    endpoint.append(page_type.as_str());
    endpoint.append("/");
    endpoint.append(chapter_id);
    endpoint.append("/");
    endpoint.append(file_name);
    endpoint
}

/// A picture to fetch for the page at `index`.
#[derive(Debug, PartialEq)]
pub struct PageRequest {
    pub index: usize,
    pub endpoint: String,
}

impl View for PageRequest {
    type V = (int, Seq<char>);

    open spec fn view(&self) -> (int, Seq<char>) {
        (self.index as int, self.endpoint@)
    }
}

/// The addresses of a list of which some are missing.
pub open spec fn texts_of(addresses: Seq<Option<String>>) -> Seq<Option<Seq<char>>> {
    addresses.map_values(|address: Option<String>| text_of(address))
}

/// The requests in a list, each as its position and address.
pub open spec fn views_of(requests: Seq<PageRequest>) -> Seq<(int, Seq<char>)> {
    requests.map_values(|request: PageRequest| request@)
}

/// The pictures to fetch, in order, where `addresses` holds for each page its address or nothing.
pub open spec fn requests_for(addresses: Seq<Option<Seq<char>>>) -> Seq<(int, Seq<char>)>
    decreases addresses.len(),
{
    if addresses.len() == 0 {
        Seq::empty()
    } else {
        let earlier = requests_for(addresses.drop_last());
        match addresses.last() {
            Some(address) => earlier.push((addresses.len() - 1, address)),
            None => earlier,
        }
    }
}

/// The pictures to fetch, in order, where `addresses` holds for each page its address or nothing.
pub fn page_requests(addresses: Vec<Option<String>>) -> (requests: Vec<PageRequest>)
    ensures
        views_of(requests@) == requests_for(texts_of(addresses@)),
        forall|a: int|
            0 <= a < requests@.len() ==> {
                &&& (#[trigger] requests@[a]).index < addresses@.len()
                &&& addresses@[requests@[a].index as int] is Some
                &&& requests@[a].endpoint@ == addresses@[requests@[a].index as int]->0@
            },
        forall|a: int, b: int|
            0 <= a < b < requests@.len() ==> (#[trigger] requests@[a]).index < (
            #[trigger] requests@[b]).index,
        forall|i: int|
            0 <= i < addresses@.len() && (#[trigger] addresses@[i]) is Some ==> exists|a: int|
                0 <= a < requests@.len() && (#[trigger] requests@[a]).index == i,
{
    let mut requests: Vec<PageRequest> = Vec::new();
    let mut i: usize = 0;
    assert(views_of(requests@) =~= requests_for(texts_of(addresses@).take(0)));
    while i < addresses.len()
        invariant
            i <= addresses.len(),
            views_of(requests@) == requests_for(texts_of(addresses@).take(i as int)),
        decreases addresses.len() - i,
    {
        let ghost before = requests@;
        let ghost texts = texts_of(addresses@);
        if let Some(address) = &addresses[i] {
            requests.push(PageRequest { index: i, endpoint: address.clone() });
            assert(views_of(requests@) =~= views_of(before).push((i as int, address@)));
        }
        assert(texts.take(i + 1).drop_last() =~= texts.take(i as int));
        assert(texts.take(i + 1).last() == texts[i as int]);
        i += 1;
    }
    assert(texts_of(addresses@).take(i as int) =~= texts_of(addresses@));
    proof {
        requests_match_their_addresses(addresses@, requests@);
    }
    requests
}

/// The requests for pages that have an address or none are told by the pages themselves: each is
/// for the address of the page that it names, they go up through the pages, and every page that
/// has an address has one.
pub proof fn requests_match_their_addresses(
    addresses: Seq<Option<String>>,
    requests: Seq<PageRequest>,
)
    requires
        views_of(requests) == requests_for(texts_of(addresses)),
    ensures
        forall|a: int|
            0 <= a < requests.len() ==> {
                &&& (#[trigger] requests[a]).index < addresses.len()
                &&& addresses[requests[a].index as int] is Some
                &&& requests[a].endpoint@ == addresses[requests[a].index as int]->0@
            },
        forall|a: int, b: int|
            0 <= a < b < requests.len() ==> (#[trigger] requests[a]).index < (
            #[trigger] requests[b]).index,
        forall|i: int|
            0 <= i < addresses.len() && (#[trigger] addresses[i]) is Some ==> exists|a: int|
                0 <= a < requests.len() && (#[trigger] requests[a]).index == i,
{
    let texts = texts_of(addresses);
    let views = views_of(requests);
    requests_follow_the_pages(texts);
    assert forall|a: int| 0 <= a < requests.len() implies {
        &&& (#[trigger] requests[a]).index < addresses.len()
        &&& addresses[requests[a].index as int] is Some
        &&& requests[a].endpoint@ == addresses[requests[a].index as int]->0@
    } by {
        assert(views[a] == requests[a]@);
        assert(texts[views[a].0] == text_of(addresses[views[a].0]));
    }
    assert forall|a: int, b: int| 0 <= a < b < requests.len() implies (
    #[trigger] requests[a]).index < (#[trigger] requests[b]).index by {
        assert(views[a] == requests[a]@);
        assert(views[b] == requests[b]@);
    }
    assert forall|i: int| 0 <= i < addresses.len() && (#[trigger] addresses[i]) is Some implies exists|
        a: int,
    |
        0 <= a < requests.len() && (#[trigger] requests[a]).index == i by {
        assert(texts[i] == text_of(addresses[i]));
        let a = choose|a: int| 0 <= a < views.len() && views[a] == (i, texts[i]->0);
        assert(views[a] == requests[a]@);
    }
}

/// Whether a page of the list is still on its way.
#[derive(Debug, Clone, Copy, PartialEq, Eq, Structural)]
pub enum PageItemState {
    Loading,
    FinishedLoad,
}

/// A line of the list of pages.
#[derive(Debug, Clone, Copy, PartialEq, Eq, Structural)]
pub struct PagesItem {
    pub number: usize,
    pub state: PageItemState,
}

impl PagesItem {
    /// The line of a page that is on its way.
    pub fn new(number: usize) -> (item: Self)
        ensures
            item == (PagesItem { number, state: PageItemState::Loading }),
    {
        PagesItem { number, state: PageItemState::Loading }
    }
}

/// The list of pages.
#[derive(Debug, PartialEq)]
pub struct PagesList {
    pub pages: Vec<PagesItem>,
}

impl PagesList {
    /// The list with the given lines.
    pub fn new(pages: Vec<PagesItem>) -> (list: Self)
        ensures
            list.pages == pages,
    {
        PagesList { pages }
    }
}

impl Default for PagesList {
    fn default() -> (list: Self)
        ensures
            list.pages@ == Seq::<PagesItem>::empty(),
    {
        PagesList { pages: Vec::new() }
    }
}

/// A list of `count` pages, numbered from zero, that are all on their way.
pub open spec fn loading_items(count: nat) -> Seq<PagesItem> {
    Seq::new(
        count,
        |i: int| PagesItem { number: i as usize, state: PageItemState::Loading },
    )
}

/// The list with the line at `index`, if there is one, marked as loaded.
pub open spec fn with_loaded(items: Seq<PagesItem>, index: int) -> Seq<PagesItem> {
    if 0 <= index < items.len() {
        items.update(
            index,
            PagesItem { number: items[index].number, state: PageItemState::FinishedLoad },
        )
    } else {
        items
    }
}

} // verus!
