use std::cmp::Ordering;

use vstd::multiset::Multiset;
use vstd::prelude::*;

use itertools::Itertools;

use scraper::ElementRef;

use crate::markup::{check_row_selectors, read_row, row_selectors_compile, row_view};
use crate::price::{price_value, sentinel_price};
use crate::text::{chars_cmp, str_cmp, join_pieces, joined, str_eq, strip_suffix_all, strip_suffixes, trim_whitespace, trimmed};

verus! {

/// The row group a dish was listed under.
#[derive(Debug, Clone, Copy, PartialEq, Eq, Structural)]
pub enum DishType {
    Main,
    Side,
    Dessert,
}

/// The lowercase label of a dish category.
pub open spec fn dish_type_label(t: DishType) -> Seq<char> {
    match t {
        DishType::Main => "main"@,
        DishType::Side => "side"@,
        DishType::Dessert => "dessert"@,
    }
}

impl DishType {
    /// The lowercase label of the category.
    pub fn as_str(&self) -> (r: &'static str)
        ensures
            r@ == dish_type_label(*self),
    {
        match self {
            DishType::Main => "main",
            DishType::Side => "side",
            DishType::Dessert => "dessert",
        }
    }
}

/// One price node of a dish row: the text inside its emphasised label node and
/// its trailing text, each absent where the markup lacks it.
pub struct PriceEntry {
    pub label: Option<String>,
    pub value: Option<String>,
}

/// What the extractor reads from the markup of one dish row.
pub struct DishFragment {
    /// The text pieces under the name node; `None` when the row has no name node.
    pub name_texts: Option<Vec<String>>,
    /// The source attribute of the image node, relative to the site's base address.
    pub image_path: Option<String>,
    /// The price nodes, in document order.
    pub prices: Vec<PriceEntry>,
    /// The title attribute of each tag node, in document order.
    pub extra_titles: Vec<Option<String>>,
}

/// The mathematical value of a [`DishFragment`].
pub struct FragmentView {
    pub name_texts: Option<Seq<Seq<char>>>,
    pub image_path: Option<Seq<char>>,
    pub prices: Seq<(Option<Seq<char>>, Option<Seq<char>>)>,
    pub extra_titles: Seq<Option<Seq<char>>>,
}

pub open spec fn entries_view(v: Seq<PriceEntry>) -> Seq<(Option<Seq<char>>, Option<Seq<char>>)> {
    v.map_values(|e: PriceEntry| (opt_view(e.label), opt_view(e.value)))
}

pub open spec fn titles_view(v: Seq<Option<String>>) -> Seq<Option<Seq<char>>> {
    v.map_values(|t: Option<String>| opt_view(t))
}

impl View for DishFragment {
    type V = FragmentView;

    open spec fn view(&self) -> FragmentView {
        FragmentView {
            name_texts: match self.name_texts {
                Some(v) => Some(strings_view(v@)),
                None => None,
            },
            image_path: opt_view(self.image_path),
            prices: entries_view(self.prices@),
            extra_titles: titles_view(self.extra_titles@),
        }
    }
}

/// An extracted menu item.
#[derive(Debug, Clone)]
pub struct Dish {
    name: String,
    image_src: Option<String>,
    price_students: Option<String>,
    price_employees: Option<String>,
    price_guests: Option<String>,
    extras: Vec<String>,
    dish_type: DishType,
}

/// The mathematical value of a [`Dish`].
pub struct DishView {
    pub name: Seq<char>,
    pub image_src: Option<Seq<char>>,
    pub price_students: Option<Seq<char>>,
    pub price_employees: Option<Seq<char>>,
    pub price_guests: Option<Seq<char>>,
    pub extras: Seq<Seq<char>>,
    pub dish_type: DishType,
}

pub open spec fn opt_view(o: Option<String>) -> Option<Seq<char>> {
    match o {
        Some(s) => Some(s@),
        None => None,
    }
}

pub open spec fn strings_view(v: Seq<String>) -> Seq<Seq<char>> {
    v.map_values(|s: String| s@)
}

impl View for Dish {
    type V = DishView;

    closed spec fn view(&self) -> DishView {
        DishView {
            name: self.name@,
            image_src: opt_view(self.image_src),
            price_students: opt_view(self.price_students),
            price_employees: opt_view(self.price_employees),
            price_guests: opt_view(self.price_guests),
            extras: strings_view(self.extras@),
            dish_type: self.dish_type,
        }
    }
}

/// The address that image paths are resolved against.
pub open spec fn image_base() -> Seq<char> {
    "https://www.studierendenwerk-pb.de/"@
}

pub open spec fn students_label() -> Seq<char> {
    "Studierende"@
}

pub open spec fn employees_label() -> Seq<char> {
    "Bedienstete"@
}

pub open spec fn guests_label() -> Seq<char> {
    "G\u{e4}ste"@
}

/// The (label, value) pairs of the price nodes that have both parts: the label
/// trimmed and stripped of trailing colons, the value trimmed.
pub open spec fn price_pairs(entries: Seq<(Option<Seq<char>>, Option<Seq<char>>)>) -> Seq<
    (Seq<char>, Seq<char>),
>
    decreases entries.len(),
{
    if entries.len() == 0 {
        Seq::empty()
    } else {
        let prev = price_pairs(entries.drop_last());
        let e = entries.last();
        match e {
            (Some(l), Some(v)) => prev.push((strip_suffixes(trimmed(l), ":"@), trimmed(v))),
            _ => prev,
        }
    }
}

/// The value of the first pair labelled `label`.
pub open spec fn first_price(pairs: Seq<(Seq<char>, Seq<char>)>, label: Seq<char>) -> Option<
    Seq<char>,
>
    decreases pairs.len(),
{
    if pairs.len() == 0 {
        None
    } else if pairs[0].0 == label {
        Some(pairs[0].1)
    } else {
        first_price(pairs.drop_first(), label)
    }
}

/// The titles that are present, in order.
pub open spec fn present_titles(titles: Seq<Option<Seq<char>>>) -> Seq<Seq<char>>
    decreases titles.len(),
{
    if titles.len() == 0 {
        Seq::empty()
    } else {
        let prev = present_titles(titles.drop_last());
        match titles.last() {
            Some(t) => prev.push(t),
            None => prev,
        }
    }
}

/// The name a fragment yields, if it has a name node.
pub open spec fn fragment_name(f: FragmentView) -> Option<Seq<char>> {
    match f.name_texts {
        Some(texts) => Some(trimmed(joined(texts))),
        None => None,
    }
}

/// The dish that a fragment of the given category yields: none where the name
/// node is missing or its text is blank.
pub open spec fn dish_of(f: FragmentView, t: DishType) -> Option<DishView> {
    match fragment_name(f) {
        Some(name) => if name.len() == 0 {
            None
        } else {
            let pairs = price_pairs(f.prices);
            Some(
                DishView {
                    name,
                    image_src: match f.image_path {
                        Some(p) => Some(image_base() + p),
                        None => None,
                    },
                    price_students: first_price(pairs, students_label()),
                    price_employees: first_price(pairs, employees_label()),
                    price_guests: first_price(pairs, guests_label()),
                    extras: present_titles(f.extra_titles),
                    dish_type: t,
                },
            )
        },
        None => None,
    }
}

/// Equality for deduplication: name and prices equal, and the same tags with
/// the same multiplicities, in any order.
pub open spec fn same_dish(a: DishView, b: DishView) -> bool {
    &&& a.name == b.name
    &&& a.price_students == b.price_students
    &&& a.price_employees == b.price_employees
    &&& a.price_guests == b.price_guests
    &&& a.extras.to_multiset() == b.extras.to_multiset()
}

/// The tags in ascending order, as a sort yields them; it depends only on which
/// tags occur and how often.
pub uninterp spec fn sorted_tags(tags: Multiset<Seq<char>>) -> Seq<Seq<char>>;

/// Relies on `Itertools::sorted`: it collects the items and sorts them
/// ascending, so the result is a permutation of the input whose order is fixed
/// by the tags that occur and their counts.
#[verifier::external_body]
fn sort_tags(tags: &Vec<String>) -> (r: Vec<String>)
    ensures
        strings_view(r@) == sorted_tags(strings_view(tags@).to_multiset()),
        strings_view(r@).to_multiset() == strings_view(tags@).to_multiset(),
{
    tags.iter().sorted().cloned().collect()
}

fn opt_eq(a: &Option<String>, b: &Option<String>) -> (r: bool)
    ensures
        r == (opt_view(*a) == opt_view(*b)),
{
    match (a, b) {
        (Some(x), Some(y)) => str_eq(x.as_str(), y.as_str()),
        (None, None) => true,
        _ => false,
    }
}

fn opt_clone(a: &Option<String>) -> (r: Option<String>)
    ensures
        opt_view(r) == opt_view(*a),
{
    match a {
        Some(x) => Some(x.clone()),
        None => None,
    }
}

fn strings_eq(a: &Vec<String>, b: &Vec<String>) -> (r: bool)
    ensures
        r == (strings_view(a@) == strings_view(b@)),
{
    if a.len() != b.len() {
        assert(strings_view(a@).len() != strings_view(b@).len());
        return false;
    }
    let mut i: usize = 0;
    while i < a.len()
        invariant
            a.len() == b.len(),
            i <= a.len(),
            forall|j: int| 0 <= j < i ==> #[trigger] a@[j]@ == b@[j]@,
        decreases a.len() - i,
    {
        if !str_eq(a[i].as_str(), b[i].as_str()) {
            assert(strings_view(a@)[i as int] != strings_view(b@)[i as int]);
            return false;
        }
        i = i + 1;
    }
    assert(strings_view(a@) =~= strings_view(b@));
    true
}

fn contains_tag(tags: &Vec<String>, tag: &str) -> (r: bool)
    ensures
        r == strings_view(tags@).contains(tag@),
{
    let mut i: usize = 0;
    while i < tags.len()
        invariant
            i <= tags.len(),
            forall|j: int| 0 <= j < i ==> #[trigger] tags@[j]@ != tag@,
        decreases tags.len() - i,
    {
        if str_eq(tags[i].as_str(), tag) {
            assert(strings_view(tags@)[i as int] == tag@);
            return true;
        }
        i = i + 1;
    }
    assert forall|j: int| 0 <= j < strings_view(tags@).len() implies strings_view(tags@)[j]
        != tag@ by {
        assert(tags@[j]@ != tag@);
    }
    false
}

pub open spec fn pairs_view(v: Seq<(String, String)>) -> Seq<(Seq<char>, Seq<char>)> {
    v.map_values(|p: (String, String)| (p.0@, p.1@))
}

/// Reads the (label, value) pair of every price node that has both parts.
fn collect_price_pairs(entries: &Vec<PriceEntry>) -> (r: Vec<(String, String)>)
    ensures
        pairs_view(r@) == price_pairs(entries_view(entries@)),
{
    let mut out: Vec<(String, String)> = Vec::new();
    let mut i: usize = 0;
    while i < entries.len()
        invariant
            i <= entries.len(),
            pairs_view(out@) == price_pairs(entries_view(entries@.take(i as int))),
        decreases entries.len() - i,
    {
        assert(entries_view(entries@.take(i + 1)).drop_last() =~= entries_view(entries@.take(i as int)));
        assert(entries_view(entries@.take(i + 1)).last() == (opt_view(entries@[i as int].label), opt_view(entries@[i as int].value)));
        let e = &entries[i];
        match (&e.label, &e.value) {
            (Some(l), Some(v)) => {
                let l1 = trim_whitespace(l.as_str());
                let l2 = strip_suffix_all(l1.as_str(), ":");
                let v1 = trim_whitespace(v.as_str());
                let ghost before = out@;
                out.push((l2, v1));
                assert(pairs_view(out@) =~= pairs_view(before).push((l2@, v1@)));
            },
            _ => {},
        }
        i = i + 1;
    }
    assert(entries@.take(entries.len() as int) =~= entries@);
    out
}

/// The value of the first pair labelled `label`.
fn find_price(pairs: &Vec<(String, String)>, label: &str) -> (r: Option<String>)
    ensures
        opt_view(r) == first_price(pairs_view(pairs@), label@),
{
    let ghost pv = pairs_view(pairs@);
    let mut i: usize = 0;
    assert(pv.subrange(0, pv.len() as int) =~= pv);
    while i < pairs.len()
        invariant
            i <= pairs.len(),
            pv == pairs_view(pairs@),
            first_price(pv, label@) == first_price(pv.subrange(i as int, pv.len() as int), label@),
        decreases pairs.len() - i,
    {
        let ghost rest = pv.subrange(i as int, pv.len() as int);
        assert(rest[0] == (pairs@[i as int].0@, pairs@[i as int].1@));
        if str_eq(pairs[i].0.as_str(), label) {
            return Some(pairs[i].1.clone());
        }
        assert(rest.drop_first() =~= pv.subrange(i + 1, pv.len() as int));
        i = i + 1;
    }
    None
}

/// The titles that are present, in order.
fn collect_titles(titles: &Vec<Option<String>>) -> (r: Vec<String>)
    ensures
        strings_view(r@) == present_titles(titles_view(titles@)),
{
    let mut out: Vec<String> = Vec::new();
    let mut i: usize = 0;
    while i < titles.len()
        invariant
            i <= titles.len(),
            strings_view(out@) == present_titles(titles_view(titles@.take(i as int))),
        decreases titles.len() - i,
    {
        assert(titles_view(titles@.take(i + 1)).drop_last() =~= titles_view(titles@.take(i as int)));
        assert(titles_view(titles@.take(i + 1)).last() == opt_view(titles@[i as int]));
        match &titles[i] {
            Some(t) => {
                let ghost before = out@;
                out.push(t.clone());
                assert(strings_view(out@) =~= strings_view(before).push(t@));
            },
            None => {},
        }
        i = i + 1;
    }
    assert(titles@.take(titles.len() as int) =~= titles@);
    out
}

impl Dish {
    /// Builds the dish that one row of the given category describes; none where
    /// the row has no name node or its name is blank.
    pub fn from_fragment(f: &DishFragment, dish_type: DishType) -> (r: Option<Dish>)
        ensures
            match r {
                Some(d) => dish_of(f@, dish_type) == Some(d@),
                None => dish_of(f@, dish_type) is None,
            },
            f.name_texts is None ==> r is None,
    {
        let name = match &f.name_texts {
            None => {
                return None;
            },
            Some(texts) => {
                let whole = join_pieces(texts);
                trim_whitespace(whole.as_str())
            },
        };
        if name.as_str().unicode_len() == 0 {
            return None;
        }
        let image_src = match &f.image_path {
            Some(p) => Some(String::from_str("https://www.studierendenwerk-pb.de/").concat(p.as_str())),
            None => None,
        };
        let pairs = collect_price_pairs(&f.prices);
        let price_students = find_price(&pairs, "Studierende");
        let price_employees = find_price(&pairs, "Bedienstete");
        let price_guests = find_price(&pairs, "G\u{e4}ste");
        let extras = collect_titles(&f.extra_titles);
        let d = Dish {
            name,
            image_src,
            price_students,
            price_employees,
            price_guests,
            extras,
            dish_type,
        };
        assert(d@ == dish_of(f@, dish_type).unwrap());
        Some(d)
    }

    pub fn get_name(&self) -> (r: &str)
        ensures
            r@ == self@.name,
    {
        self.name.as_str()
    }

    pub fn get_price_students(&self) -> (r: Option<&str>)
        ensures
            r matches Some(p) ==> self@.price_students == Some(p@),
            r is None ==> self@.price_students is None,
    {
        match &self.price_students {
            Some(p) => Some(p.as_str()),
            None => None,
        }
    }

    pub fn get_price_employees(&self) -> (r: Option<&str>)
        ensures
            r matches Some(p) ==> self@.price_employees == Some(p@),
            r is None ==> self@.price_employees is None,
    {
        match &self.price_employees {
            Some(p) => Some(p.as_str()),
            None => None,
        }
    }

    pub fn get_price_guests(&self) -> (r: Option<&str>)
        ensures
            r matches Some(p) ==> self@.price_guests == Some(p@),
            r is None ==> self@.price_guests is None,
    {
        match &self.price_guests {
            Some(p) => Some(p.as_str()),
            None => None,
        }
    }

    pub fn get_image_src(&self) -> (r: Option<&str>)
        ensures
            r matches Some(p) ==> self@.image_src == Some(p@),
            r is None ==> self@.image_src is None,
    {
        match &self.image_src {
            Some(p) => Some(p.as_str()),
            None => None,
        }
    }

    /// Whether the tags hold "vegan".
    pub fn is_vegan(&self) -> (r: bool)
        ensures
            r == self@.extras.contains("vegan"@),
    {
        contains_tag(&self.extras, "vegan")
    }

    /// Whether the tags hold "vegetarian".
    pub fn is_vegetarian(&self) -> (r: bool)
        ensures
            r == self@.extras.contains("vegetarian"@),
    {
        contains_tag(&self.extras, "vegetarian")
    }

    pub fn get_extras(&self) -> (r: &[String])
        ensures
            strings_view(r@) == self@.extras,
    {
        self.extras.as_slice()
    }

    pub fn get_type(&self) -> (r: DishType)
        ensures
            r == self@.dish_type,
    {
        self.dish_type
    }

    /// Equality for deduplication: name and the three prices equal, tags equal
    /// up to order.
    pub fn same_as(&self, other: &Self) -> (r: bool)
        ensures
            r == same_dish(self@, other@),
    {
        if !str_eq(self.name.as_str(), other.name.as_str()) {
            return false;
        }
        if !opt_eq(&self.price_employees, &other.price_employees) {
            return false;
        }
        if !opt_eq(&self.price_guests, &other.price_guests) {
            return false;
        }
        if !opt_eq(&self.price_students, &other.price_students) {
            return false;
        }
        let mine = sort_tags(&self.extras);
        let theirs = sort_tags(&other.extras);
        strings_eq(&mine, &theirs)
    }
}

/// Tag order does not matter to `same_as`: two dishes that agree on name and
/// prices and whose tags are a reordering of each other are the same.
pub proof fn lemma_same_as_ignores_tag_order(a: DishView, b: DishView)
    requires
        a.name == b.name,
        a.price_students == b.price_students,
        a.price_employees == b.price_employees,
        a.price_guests == b.price_guests,
        a.extras.to_multiset() == b.extras.to_multiset(),
    ensures
        same_dish(a, b),
{
}

impl Dish {
    /// Extracts the dish that one row of markup describes, under the category of
    /// the row group it came from; none where the row has no name or the row
    /// selectors do not compile.
    pub fn from_element(element: ElementRef, dish_type: DishType) -> (r: Option<Dish>)
        ensures
            r is Some <==> row_selectors_compile() && dish_of(row_view(element), dish_type) is Some,
            r matches Some(d) ==> dish_of(row_view(element), dish_type) == Some(d@),
    {
        if !check_row_selectors() {
            return None;
        }
        let f = read_row(&element);
        Dish::from_fragment(&f, dish_type)
    }
}

/// A row whose only price labels are the student and the employee label, in
/// either order, fills exactly those two prices; the guest price stays empty,
/// and an empty price normalises to the sentinel.
pub proof fn lemma_student_and_employee_prices(
    f: FragmentView,
    t: DishType,
    student: Seq<char>,
    employee: Seq<char>,
)
    requires
        fragment_name(f) matches Some(n) && n.len() > 0,
        price_pairs(f.prices) == seq![(students_label(), student), (employees_label(), employee)]
            || price_pairs(f.prices) == seq![
            (employees_label(), employee),
            (students_label(), student),
        ],
    ensures
        dish_of(f, t) matches Some(d) && d.price_students == Some(student) && d.price_employees
            == Some(employee) && d.price_guests is None,
        price_value(None) == sentinel_price(),
{
    reveal_strlit("Studierende");
    reveal_strlit("Bedienstete");
    reveal_strlit("G\u{e4}ste");
    assert(students_label()[0] != employees_label()[0]);
    assert(students_label().len() != guests_label().len());
    assert(employees_label().len() != guests_label().len());
    let pairs = price_pairs(f.prices);
    assert(pairs.drop_first().drop_first() =~= Seq::<(Seq<char>, Seq<char>)>::empty());
    reveal_with_fuel(first_price, 3);
}

impl PartialEq for Dish {
    /// Field-wise equality: name, image, the three prices, the tags in order and
    /// the category.
    fn eq(&self, other: &Dish) -> (r: bool)
        ensures
            r == (self@ == other@),
    {
        let same = str_eq(self.name.as_str(), other.name.as_str()) && opt_eq(
            &self.image_src,
            &other.image_src,
        ) && opt_eq(&self.price_students, &other.price_students) && opt_eq(
            &self.price_employees,
            &other.price_employees,
        ) && opt_eq(&self.price_guests, &other.price_guests) && strings_eq(
            &self.extras,
            &other.extras,
        ) && self.dish_type == other.dish_type;
        same
    }
}

impl vstd::std_specs::cmp::PartialEqSpecImpl for Dish {
    open spec fn obeys_eq_spec() -> bool {
        true
    }

    open spec fn eq_spec(&self, other: &Dish) -> bool {
        self@ == other@
    }
}

impl Eq for Dish {

}

impl PartialOrd for Dish {
    /// Dishes are ordered by name alone.
    fn partial_cmp(&self, other: &Dish) -> (r: Option<Ordering>)
        ensures
            r == Some(chars_cmp(self@.name, other@.name)),
    {
        Some(str_cmp(self.name.as_str(), other.name.as_str()))
    }
}

impl vstd::std_specs::cmp::PartialOrdSpecImpl for Dish {
    open spec fn obeys_partial_cmp_spec() -> bool {
        true
    }

    open spec fn partial_cmp_spec(&self, other: &Dish) -> Option<Ordering> {
        Some(chars_cmp(self@.name, other@.name))
    }
}

} // verus!
