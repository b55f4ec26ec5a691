use vstd::prelude::*;

use scraper::{ElementRef, Html, Selector};

use crate::dish::{entries_view, opt_view, strings_view, titles_view, DishFragment, FragmentView, PriceEntry};
use crate::menu::fragments_view;

verus! {

#[verifier::external_type_specification]
#[verifier::external_body]
pub struct ExSelector(Selector);

#[verifier::external_type_specification]
#[verifier::external_body]
pub struct ExElementRef<'a>(ElementRef<'a>);

/// Whether scraper accepts `s` as a CSS selector.
pub uninterp spec fn selector_compiles(s: Seq<char>) -> bool;

/// The text pieces under the first descendant of `row` that matches `sel`.
pub uninterp spec fn first_match_texts(row: ElementRef, sel: Seq<char>) -> Option<Seq<Seq<char>>>;

/// The attribute `attr` of the first descendant of `row` that matches `sel`.
pub uninterp spec fn first_match_attr(row: ElementRef, sel: Seq<char>, attr: Seq<char>) -> Option<
    Seq<char>,
>;

/// For each descendant of `row` that matches `sel`: the text inside its first
/// child's first child, and the text of its last child, where those are text nodes.
pub uninterp spec fn match_price_parts(row: ElementRef, sel: Seq<char>) -> Seq<
    (Option<Seq<char>>, Option<Seq<char>>),
>;

/// The attribute `attr` of each descendant of `row` that matches `sel`.
pub uninterp spec fn match_attrs(row: ElementRef, sel: Seq<char>, attr: Seq<char>) -> Seq<
    Option<Seq<char>>,
>;

/// The fragments of the rows that `group` selects in the document `html`, each
/// read with the four row selectors.
pub uninterp spec fn rows_of(
    html: Seq<char>,
    group: Seq<char>,
    name: Seq<char>,
    image: Seq<char>,
    price: Seq<char>,
    extras: Seq<char>,
) -> Seq<FragmentView>;

/// Relies on `scraper::Selector::parse`: `None` exactly where the text is no
/// valid selector.
#[verifier::external_body]
pub(crate) fn parse_selector(text: &str) -> (r: Option<Selector>)
    ensures
        r is Some <==> selector_compiles(text@),
{
    Selector::parse(text).ok()
}

/// Relies on `ElementRef::select` and `ElementRef::text`: the text pieces under
/// the first match.
#[verifier::external_body]
fn first_match_texts_in(row: &ElementRef, sel: &str) -> (r: Option<Vec<String>>)
    ensures
        selector_compiles(sel@) ==> first_match_texts(*row, sel@) == match r {
            Some(v) => Some(strings_view(v@)),
            None => None,
        },
{
    let sel = Selector::parse(sel).ok()?;
    let first = row.select(&sel).next()?;
    Some(first.text().map(|t| t.to_string()).collect())
}

/// Relies on `ElementRef::select` and `Element::attr`: the attribute of the
/// first match.
#[verifier::external_body]
fn first_match_attr_in(row: &ElementRef, sel: &str, attr: &str) -> (r: Option<String>)
    ensures
        selector_compiles(sel@) ==> first_match_attr(*row, sel@, attr@) == opt_view(r),
{
    let sel = Selector::parse(sel).ok()?;
    row.select(&sel).next()?.value().attr(attr).map(|a| a.to_string())
}

/// Relies on `ElementRef::select`, ego_tree's `first_child` / `last_child` and
/// `Node::as_text`: the label and trailing text of each match.
#[verifier::external_body]
fn price_parts_in(row: &ElementRef, sel: &str) -> (r: Vec<PriceEntry>)
    ensures
        selector_compiles(sel@) ==> match_price_parts(*row, sel@) == entries_view(r@),
{
    let Ok(sel) = Selector::parse(sel) else { return Vec::new() };
    let text = |n: &scraper::Node| n.as_text().map(|t| t.to_string());
    row.select(&sel).map(|p| PriceEntry {
        label: p.first_child().and_then(|c| c.first_child()).and_then(|t| text(t.value())),
        value: p.last_child().and_then(|t| text(t.value())),
    }).collect()
}

/// Relies on `ElementRef::select` and `Element::attr`: the attribute of each match.
#[verifier::external_body]
fn match_attrs_in(row: &ElementRef, sel: &str, attr: &str) -> (r: Vec<Option<String>>)
    ensures
        selector_compiles(sel@) ==> match_attrs(*row, sel@, attr@) == titles_view(r@),
{
    let Ok(sel) = Selector::parse(sel) else { return Vec::new() };
    row.select(&sel).map(|e| e.value().attr(attr).map(|a| a.to_string())).collect()
}

/// Relies on `scraper::Selector::parse`, `Html::parse_document` and
/// `Html::select`: the rows of one group, each read by `fragment_of`.
#[verifier::external_body]
pub(crate) fn group_fragments(
    html: &str,
    group: &str,
    name: &str,
    image: &str,
    price: &str,
    extras: &str,
) -> (r: Option<Vec<DishFragment>>)
    ensures
        r is Some <==> selector_compiles(group@),
        r matches Some(v) ==> fragments_view(v@) == rows_of(html@, group@, name@, image@, price@, extras@),
{
    let group = Selector::parse(group).ok()?;
    let doc = Html::parse_document(html);
    let rows: Vec<DishFragment> = doc.select(&group).map(
        |row| fragment_of(&row, name, image, price, extras),
    ).collect();
    Some(rows)
}

/// What a row reads as, with the given part selectors.
pub open spec fn row_view_with(
    row: ElementRef,
    name: Seq<char>,
    image: Seq<char>,
    price: Seq<char>,
    extras: Seq<char>,
) -> FragmentView {
    FragmentView {
        name_texts: first_match_texts(row, name),
        image_path: first_match_attr(row, image, "src"@),
        prices: match_price_parts(row, price),
        extra_titles: match_attrs(row, extras, "title"@),
    }
}

/// Reads the parts of one dish row out of the markup.
pub(crate) fn fragment_of(row: &ElementRef, name: &str, image: &str, price: &str, extras: &str) -> (r:
    DishFragment)
    ensures
        selector_compiles(name@) && selector_compiles(image@) && selector_compiles(price@)
            && selector_compiles(extras@) ==> r@ == row_view_with(*row, name@, image@, price@, extras@),
{
    let name_texts = first_match_texts_in(row, name);
    let image_path = first_match_attr_in(row, image, "src");
    let prices = price_parts_in(row, price);
    let extra_titles = match_attrs_in(row, extras, "title");
    DishFragment { name_texts, image_path, prices, extra_titles }
}

/// The selectors of the parts of a dish row.
pub open spec fn name_selector() -> Seq<char> {
    ".desc h4"@
}

pub open spec fn image_selector() -> Seq<char> {
    ".img img"@
}

pub open spec fn price_selector() -> Seq<char> {
    ".desc .price"@
}

pub open spec fn extras_selector() -> Seq<char> {
    ".desc .buttons > *"@
}

pub open spec fn row_selectors_compile() -> bool {
    &&& selector_compiles(name_selector())
    &&& selector_compiles(image_selector())
    &&& selector_compiles(price_selector())
    &&& selector_compiles(extras_selector())
}

/// What a dish row reads as.
pub open spec fn row_view(row: ElementRef) -> FragmentView {
    row_view_with(row, name_selector(), image_selector(), price_selector(), extras_selector())
}

/// Whether the part selectors of a dish row compile.
pub(crate) fn check_row_selectors() -> (r: bool)
    ensures
        r == row_selectors_compile(),
{
    parse_selector(".desc h4").is_some() && parse_selector(".img img").is_some() && parse_selector(
        ".desc .price",
    ).is_some() && parse_selector(".desc .buttons > *").is_some()
}

/// Reads a dish row with the fixed part selectors.
pub(crate) fn read_row(row: &ElementRef) -> (r: DishFragment)
    ensures
        row_selectors_compile() ==> r@ == row_view(*row),
{
    fragment_of(row, ".desc h4", ".img img", ".desc .price", ".desc .buttons > *")
}

} // verus!
