//! Reading a catalog page: the application's title and the items it lists.
//!
//! The page is HTML. It is parsed and queried by the `scraper` crate, through
//! the wrappers of this file, none of which claims anything of what it
//! returns. What is made of the answers is decided by [`assemble_page`], a
//! function on plain values.
use vstd::prelude::*;
use scraper::{ElementRef, Html, Selector};
use crate::text::{join, join_with, optional_text, texts};

verus! {

/// A parsed HTML document, as `scraper` holds it.
#[verifier::external_type_specification]
#[verifier::external_body]
pub struct ExHtml(Html);

/// A parsed CSS selector, as `scraper` holds it.
#[verifier::external_type_specification]
#[verifier::external_body]
pub struct ExSelector(Selector);

/// A reference to an element of a parsed document, as `scraper` holds it.
#[verifier::external_type_specification]
#[verifier::external_body]
pub struct ExElementRef<'a>(ElementRef<'a>);

/// Calls `Html::parse_document`, which parses a text as an HTML document and
/// never fails. Nothing is claimed of the document.
#[verifier::external_body]
pub(crate) fn parse_document(text: &str) -> Html {
    Html::parse_document(text)
}

/// Calls `Selector::parse`, which parses a CSS selector group. `None` stands
/// for its error. Nothing is claimed of the selector.
#[verifier::external_body]
pub(crate) fn parse_selector(css: &str) -> Option<Selector> {
    Selector::parse(css).ok()
}

/// Calls `Html::select` and collects what the iterator yields: the elements of
/// the document that match the selector. Nothing is claimed of them.
#[verifier::external_body]
pub(crate) fn select_in_document<'a>(document: &'a Html, selector: &Selector) -> Vec<
    ElementRef<'a>,
> {
    document.select(selector).collect()
}

/// Calls `ElementRef::select` and collects what the iterator yields: the
/// descendants of the element that match the selector. Nothing is claimed of
/// them.
#[verifier::external_body]
pub(crate) fn select_in_element<'a>(element: &ElementRef<'a>, selector: &Selector) -> Vec<
    ElementRef<'a>,
> {
    element.select(selector).collect()
}

/// Calls `ElementRef::text` and concatenates the text nodes that the iterator
/// yields. Nothing is claimed of the text.
#[verifier::external_body]
pub(crate) fn element_text(element: &ElementRef) -> String {
    element.text().collect()
}

/// Calls `ElementRef::attr`, which returns the value of an attribute of the
/// element, if the element has it. Nothing is claimed of the value.
#[verifier::external_body]
pub(crate) fn element_attr(element: &ElementRef, name: &str) -> Option<String> {
    element.attr(name).map(|value| value.to_string())
}

/// One item of a catalog page.
#[derive(Debug, PartialEq, Eq)]
pub struct WorkshopItem {
    /// The title of the item.
    pub name: String,
    /// The id of the item, as the page spells it.
    pub id: String,
}

/// What a [`WorkshopItem`] holds, as texts.
#[verifier::ext_equal]
pub struct ItemView {
    pub name: Seq<char>,
    pub id: Seq<char>,
}

impl View for WorkshopItem {
    type V = ItemView;

    open spec fn view(&self) -> ItemView {
        ItemView { name: self.name@, id: self.id@ }
    }
}

/// The views of a sequence of items, item by item.
pub open spec fn item_views(items: Seq<WorkshopItem>) -> Seq<ItemView> {
    Seq::new(items.len(), |i: int| items[i]@)
}

/// What the catalog answered.
#[derive(Debug, PartialEq, Eq)]
pub enum CatalogPage {
    /// The catalog has no application with the id that was asked for.
    Missing,
    /// The page of the application.
    Found {
        /// The title of the page.
        title: String,
        /// The items that the page lists, in its order.
        items: Vec<WorkshopItem>,
    },
}

/// What a [`CatalogPage`] holds, as texts.
#[verifier::ext_equal]
pub enum PageView {
    Missing,
    Found { title: Seq<char>, items: Seq<ItemView> },
}

impl View for CatalogPage {
    type V = PageView;

    open spec fn view(&self) -> PageView {
        match self {
            CatalogPage::Missing => PageView::Missing,
            CatalogPage::Found { title, items } => PageView::Found {
                title: title@,
                items: item_views(items@),
            },
        }
    }
}

/// What was read of one item element of a page.
#[derive(Debug, PartialEq, Eq)]
pub struct ItemParts {
    /// The text of each title element inside the item element.
    pub titles: Vec<String>,
    /// The item id that the first marked element inside the item element
    /// carries, if there is such an element and it carries one.
    pub id: Option<String>,
}

/// What an [`ItemParts`] holds, as texts.
pub struct PartsView {
    pub titles: Seq<Seq<char>>,
    pub id: Option<Seq<char>>,
}

impl View for ItemParts {
    type V = PartsView;

    open spec fn view(&self) -> PartsView {
        PartsView {
            titles: texts(self.titles@),
            id: match self.id {
                Some(id) => Some(id@),
                None => None,
            },
        }
    }
}

/// The views of a sequence of item parts, one by one.
pub open spec fn parts_views(parts: Seq<ItemParts>) -> Seq<PartsView> {
    Seq::new(parts.len(), |i: int| parts[i]@)
}

/// The item that its parts make: its name is the texts of its titles, one after
/// the other.
pub open spec fn item_of(parts: PartsView) -> ItemView {
    ItemView { name: join(parts.titles, Seq::empty()), id: parts.id->0 }
}

/// The page that the parts of a document make. A document without the header
/// of an application page says that the application is missing. A document
/// with the header is the page of the application if it has a title and every
/// item has an id; else it is no catalog page at all.
pub open spec fn assembled(headers: nat, title: Option<Seq<char>>, parts: Seq<PartsView>) -> Option<
    PageView,
> {
    if headers == 0 {
        Some(PageView::Missing)
    } else if title is None {
        None
    } else if exists|i: int| 0 <= i < parts.len() && (#[trigger] parts[i]).id is None {
        None
    } else {
        Some(
            PageView::Found {
                title: title->0,
                items: Seq::new(parts.len(), |i: int| item_of(parts[i])),
            },
        )
    }
}

/// The view of an optional page.
pub open spec fn page_view(page: Option<CatalogPage>) -> Option<PageView> {
    match page {
        Some(page) => Some(page@),
        None => None,
    }
}

/// Makes the page out of what was read of a document: `headers` is the number
/// of application headers in it, `title` the text of its first title element,
/// `parts` what was read of each item element. See [`assembled`].
pub fn assemble_page(headers: usize, title: Option<String>, parts: Vec<ItemParts>) -> (page: Option<
    CatalogPage,
>)
    ensures
        page_view(page) == assembled(headers as nat, optional_text(title), parts_views(parts@)),
{
    if headers == 0 {
        return Some(CatalogPage::Missing);
    }
    let ghost given = optional_text(title);
    let page_title = match title {
        Some(text) => text,
        None => {
            return None;
        },
    };
    let ghost all = parts_views(parts@);
    let mut items: Vec<WorkshopItem> = Vec::new();
    let mut i: usize = 0;
    while i < parts.len()
        invariant
            i <= parts.len(),
            headers != 0,
            given == Some(page_title@),
            all == parts_views(parts@),
            forall|j: int| 0 <= j < i ==> (#[trigger] all[j]).id is Some,
            item_views(items@) == Seq::new(i as nat, |j: int| item_of(all[j])),
        decreases parts.len() - i,
    {
        let id = match &parts[i].id {
            Some(id) => id.clone(),
            None => {
                return None;
            },
        };
        let name = join_with(&parts[i].titles, "");
        proof {
            reveal_strlit("");
            assert(""@ == Seq::<char>::empty());
        }
        let ghost before = item_views(items@);
        items.push(WorkshopItem { name, id });
        assert(item_views(items@) == before.push(item_of(all[i as int])));
        i += 1;
    }
    Some(CatalogPage::Found { title: page_title, items })
}

/// Reads a catalog page. The answer is `None` where the text is no catalog
/// page: see [`assembled`]. The elements of the page are found by `scraper`,
/// so which page comes back for which text is not stated here.
pub fn read_catalog(html: &str) -> Option<CatalogPage> {
    let header_selector = parse_selector(".apphub_HomeHeaderContent")?;
    let title_selector = parse_selector("title")?;
    let item_selector = parse_selector(".workshopItem")?;
    let item_title_selector = parse_selector(".workshopItemTitle")?;
    let item_id_selector = parse_selector(".ugc")?;
    let document = parse_document(html);
    let headers = select_in_document(&document, &header_selector).len();
    let title_elements = select_in_document(&document, &title_selector);
    let title = if title_elements.len() > 0 {
        Some(element_text(&title_elements[0]))
    } else {
        None
    };
    let item_elements = select_in_document(&document, &item_selector);
    let mut parts: Vec<ItemParts> = Vec::new();
    let mut i: usize = 0;
    while i < item_elements.len()
        invariant
            i <= item_elements.len(),
        decreases item_elements.len() - i,
    {
        let name_elements = select_in_element(&item_elements[i], &item_title_selector);
        let mut titles: Vec<String> = Vec::new();
        let mut j: usize = 0;
        while j < name_elements.len()
            invariant
                j <= name_elements.len(),
            decreases name_elements.len() - j,
        {
            titles.push(element_text(&name_elements[j]));
            j += 1;
        }
        let id_elements = select_in_element(&item_elements[i], &item_id_selector);
        let id = if id_elements.len() > 0 {
            element_attr(&id_elements[0], "data-publishedfileid")
        } else {
            None
        };
        parts.push(ItemParts { titles, id });
        i += 1;
    }
    assemble_page(headers, title, parts)
}

} // verus!
