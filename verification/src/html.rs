//! What a page says about itself: its title, its `meta` tags and the
//! attributes of its root element.

use vstd::prelude::*;
use vstd::string::StringExecFns;
use dom_content_extraction::scraper::{Html, Selector};
use crate::table::{stored, text_pairs, StringMap};
use crate::text::{decimal, decimal_text};

verus! {

/// `scraper::Html`, taken as it is: the verifier sees nothing inside it.
#[verifier::external_type_specification]
#[verifier::external_body]
pub struct ExHtml(dom_content_extraction::scraper::Html);

/// Whether `Selector::parse` accepts a text as a group of CSS selectors.
pub uninterp spec fn selector_is_valid(text: Seq<char>) -> bool;

/// The elements of a document that match a valid selector, in document
/// order: for each its inner markup, and its attributes as pairs of name
/// and value in the order in which the element hands them out.
pub uninterp spec fn selected(page: Html, selector: Seq<char>) -> Seq<
    (Seq<char>, Seq<(Seq<char>, Seq<char>)>),
>;

/// The views of a list of elements.
pub open spec fn elements_view(elements: Seq<(String, Vec<(String, String)>)>) -> Seq<
    (Seq<char>, Seq<(Seq<char>, Seq<char>)>),
> {
    Seq::new(elements.len(), |i: int| (elements[i].0@, text_pairs(elements[i].1@)))
}

/// The elements of a document that match a selector, or `None` where the
/// selector is not valid.
///
/// Trusted: parses the selector with `Selector::parse` and walks the
/// matches with `Html::select`, `ElementRef::inner_html` and
/// `Element::attrs`; it only converts what they yield. The contract names
/// whether the selector parses, and gives the matches the name
/// `selected`.
#[verifier::external_body]
fn select_elements(page: &Html, selector: &str) -> (elements: Option<
    Vec<(String, Vec<(String, String)>)>,
>)
    ensures
        match elements {
            Some(found) => selector_is_valid(selector@) && elements_view(found@) == selected(
                *page,
                selector@,
            ),
            None => !selector_is_valid(selector@),
        },
{
    let parsed = Selector::parse(selector).ok()?;
    Some(
        page.select(&parsed).map(
            |element|
                (
                    element.inner_html(),
                    element.value().attrs().map(
                        |(name, value)| (name.to_string(), value.to_string()),
                    ).collect(),
                ),
        ).collect(),
    )
}

/// The elements that a selector finds in a document; none where the
/// selector is not valid.
pub open spec fn matching(page: Html, selector: Seq<char>) -> Seq<
    (Seq<char>, Seq<(Seq<char>, Seq<char>)>),
> {
    if selector_is_valid(selector) {
        selected(page, selector)
    } else {
        Seq::empty()
    }
}

fn find_elements(page: &Html, selector: &str) -> (elements: Vec<(String, Vec<(String, String)>)>)
    ensures
        elements_view(elements@) == matching(*page, selector@),
{
    match select_elements(page, selector) {
        Some(found) => found,
        None => {
            let elements: Vec<(String, Vec<(String, String)>)> = Vec::new();
            assert(elements_view(elements@) =~= Seq::empty());
            elements
        },
    }
}

/// Valuable data of a page.
#[derive(Debug)]
pub struct PageInfo {
    title: Option<String>,
    meta: Vec<StringMap<String>>,
    html_attrs: StringMap<String>,
}

/// What is known of a page, as the contracts see it.
pub struct PageInfoView {
    pub title: Option<Seq<char>>,
    pub meta: Seq<Seq<(Seq<char>, Seq<char>)>>,
    pub html_attrs: Seq<(Seq<char>, Seq<char>)>,
}

/// The listings of a list of maps.
pub open spec fn listings(maps: Seq<StringMap<String>>) -> Seq<Seq<(Seq<char>, Seq<char>)>> {
    Seq::new(maps.len(), |i: int| maps[i].listing())
}

impl View for PageInfo {
    type V = PageInfoView;

    closed spec fn view(&self) -> PageInfoView {
        PageInfoView {
            title: match self.title {
                Some(text) => Some(text@),
                None => None,
            },
            meta: listings(self.meta@),
            html_attrs: self.html_attrs.listing(),
        }
    }
}

/// The title of a page: the inner markup of its first `title` element.
pub open spec fn title_of(titles: Seq<(Seq<char>, Seq<(Seq<char>, Seq<char>)>)>) -> Option<
    Seq<char>,
> {
    if titles.len() == 0 {
        None
    } else {
        Some(titles[0].0)
    }
}

/// The attributes of each `meta` element, as stored in a map.
pub open spec fn meta_of(metas: Seq<(Seq<char>, Seq<(Seq<char>, Seq<char>)>)>) -> Seq<
    Seq<(Seq<char>, Seq<char>)>,
> {
    Seq::new(metas.len(), |i: int| stored(metas[i].1))
}

/// The attributes of the first `html` element, as stored in a map; none
/// where the document has no such element.
pub open spec fn root_attrs_of(roots: Seq<(Seq<char>, Seq<(Seq<char>, Seq<char>)>)>) -> Seq<
    (Seq<char>, Seq<char>),
> {
    if roots.len() == 0 {
        Seq::empty()
    } else {
        stored(roots[0].1)
    }
}

/// What is known of a page.
pub open spec fn page_info_of(page: Html) -> PageInfoView {
    PageInfoView {
        title: title_of(matching(page, "title"@)),
        meta: meta_of(matching(page, "meta"@)),
        html_attrs: root_attrs_of(matching(page, "html"@)),
    }
}

impl PageInfo {
    /// Extracts the title, the `meta` tags and the root attributes of a
    /// page.
    pub fn new(page: &Html) -> (info: Self)
        ensures
            info@ == page_info_of(*page),
    {
        PageInfo {
            title: Self::extract_title(page),
            meta: Self::extract_meta_tags(page),
            html_attrs: Self::extract_html_attributes(page),
        }
    }

    /// The title among the `title` elements found.
    pub fn title_among(titles: &Vec<(String, Vec<(String, String)>)>) -> (title: Option<String>)
        ensures
            match title {
                Some(text) => title_of(elements_view(titles@)) == Some(text@),
                None => title_of(elements_view(titles@)) is None,
            },
    {
        if titles.len() == 0 {
            None
        } else {
            Some(titles[0].0.clone())
        }
    }

    /// The attribute maps of the `meta` elements found.
    pub fn meta_among(metas: &Vec<(String, Vec<(String, String)>)>) -> (maps: Vec<
        StringMap<String>,
    >)
        ensures
            listings(maps@) == meta_of(elements_view(metas@)),
    {
        let mut maps: Vec<StringMap<String>> = Vec::new();
        let mut i: usize = 0;
        while i < metas.len()
            invariant
                i <= metas.len(),
                maps@.len() == i,
                forall|j: int|
                    0 <= j < i ==> (#[trigger] maps@[j]).listing() == stored(
                        text_pairs(metas@[j].1@),
                    ),
            decreases metas.len() - i,
        {
            let map = StringMap::from_pairs(&metas[i].1);
            maps.push(map);
            i += 1;
        }
        assert(listings(maps@) =~= meta_of(elements_view(metas@)));
        maps
    }

    /// The attribute map of the first of the `html` elements found.
    pub fn root_attrs_among(roots: &Vec<(String, Vec<(String, String)>)>) -> (attrs: StringMap<
        String,
    >)
        ensures
            attrs.listing() == root_attrs_of(elements_view(roots@)),
    {
        if roots.len() == 0 {
            StringMap::new()
        } else {
            StringMap::from_pairs(&roots[0].1)
        }
    }

    fn extract_title(page: &Html) -> (title: Option<String>)
        ensures
            match title {
                Some(text) => title_of(matching(*page, "title"@)) == Some(text@),
                None => title_of(matching(*page, "title"@)) is None,
            },
    {
        let titles = find_elements(page, "title");
        Self::title_among(&titles)
    }

    /// The attributes of each `meta` element of a page.
    pub fn extract_meta_tags(page: &Html) -> (maps: Vec<StringMap<String>>)
        ensures
            listings(maps@) == meta_of(matching(*page, "meta"@)),
    {
        let metas = find_elements(page, "meta");
        Self::meta_among(&metas)
    }

    fn extract_html_attributes(page: &Html) -> (attrs: StringMap<String>)
        ensures
            attrs.listing() == root_attrs_of(matching(*page, "html"@)),
    {
        let roots = find_elements(page, "html");
        Self::root_attrs_among(&roots)
    }
}

/// One line per attribute: the name and the value, indented.
pub open spec fn attribute_lines(attrs: Seq<(Seq<char>, Seq<char>)>) -> Seq<char>
    decreases attrs.len(),
{
    if attrs.len() == 0 {
        Seq::empty()
    } else {
        attribute_lines(attrs.drop_last()) + "  "@ + attrs.last().0 + ": "@ + attrs.last().1
            + "\n"@
    }
}

/// One block per `meta` tag: a heading with the tag's number, counted
/// from one, and the tag's attributes.
pub open spec fn meta_blocks(meta: Seq<Seq<(Seq<char>, Seq<char>)>>) -> Seq<char>
    decreases meta.len(),
{
    if meta.len() == 0 {
        Seq::empty()
    } else {
        meta_blocks(meta.drop_last()) + "Meta tag "@ + decimal_text(meta.len()) + ":\n"@
            + attribute_lines(meta.last())
    }
}

/// The title as it is shown: empty where the page has none.
pub open spec fn shown_title(title: Option<Seq<char>>) -> Seq<char> {
    match title {
        Some(text) => text,
        None => Seq::empty(),
    }
}

/// The text that shows what is known of a page.
pub open spec fn page_info_text(info: PageInfoView) -> Seq<char> {
    "Title: "@ + shown_title(info.title) + "\nMeta tags:\n"@ + meta_blocks(info.meta)
        + "\nHTML tag attributes:\n"@ + attribute_lines(info.html_attrs)
}

fn append_attribute_lines(text: &mut String, attrs: &StringMap<String>)
    ensures
        final(text)@ == old(text)@ + attribute_lines(attrs.listing()),
{
    let n: usize = attrs.len();
    let mut i: usize = 0;
    assert(attrs.listing().take(0) =~= Seq::empty());
    assert(text@ =~= old(text)@ + attribute_lines(attrs.listing().take(0)));
    while i < n
        invariant
            n == attrs.listing().len(),
            i <= n,
            text@ == old(text)@ + attribute_lines(attrs.listing().take(i as int)),
        decreases n - i,
    {
        let ghost done = attrs.listing().take(i as int);
        let ghost next = attrs.listing().take(i + 1);
        proof {
            assert(next.drop_last() =~= done);
            assert(next.last() == attrs.listing()[i as int]);
        }
        text.append("  ");
        text.append(attrs.key_at(i).as_str());
        text.append(": ");
        text.append(attrs.value_at(i).as_str());
        text.append("\n");
        assert(text@ =~= old(text)@ + attribute_lines(next));
        i += 1;
    }
    assert(attrs.listing().take(n as int) =~= attrs.listing());
}

impl PageInfo {
    /// The title, the `meta` tags and the root attributes as lines of
    /// text.
    pub fn to_string(&self) -> (text: String)
        ensures
            text@ == page_info_text(self@),
    {
        let mut text = String::from_str("Title: ");
        match &self.title {
            Some(title) => text.append(title.as_str()),
            None => {},
        }
        text.append("\nMeta tags:\n");
        let ghost head = text@;
        assert(head =~= "Title: "@ + shown_title(self@.title) + "\nMeta tags:\n"@);
        let n: usize = self.meta.len();
        let mut i: usize = 0;
        assert(self@.meta.take(0) =~= Seq::empty());
        assert(text@ =~= head + meta_blocks(self@.meta.take(0)));
        while i < n
            invariant
                n == self.meta@.len(),
                n == self@.meta.len(),
                i <= n,
                self@.meta == listings(self.meta@),
                text@ == head + meta_blocks(self@.meta.take(i as int)),
            decreases n - i,
        {
            let ghost done = self@.meta.take(i as int);
            let ghost next = self@.meta.take(i + 1);
            proof {
                assert(next.drop_last() =~= done);
                assert(next.last() == self.meta@[i as int].listing());
                assert(next.len() == i + 1);
            }
            text.append("Meta tag ");
            text.append(decimal((i + 1) as u64).as_str());
            text.append(":\n");
            append_attribute_lines(&mut text, &self.meta[i]);
            assert(text@ =~= head + meta_blocks(next));
            i += 1;
        }
        assert(self@.meta.take(n as int) =~= self@.meta);
        text.append("\nHTML tag attributes:\n");
        append_attribute_lines(&mut text, &self.html_attrs);
        assert(text@ =~= page_info_text(self@));
        text
    }
}

} // verus!
