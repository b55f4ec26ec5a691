use vstd::prelude::*;

use crate::dish::{dish_of, Dish, DishFragment, DishType, DishView, FragmentView};
use crate::markup::{
    check_row_selectors, extras_selector, group_fragments, image_selector, name_selector,
    price_selector, row_selectors_compile, rows_of, selector_compiles,
};

verus! {

pub open spec fn dishes_view(v: Seq<Dish>) -> Seq<DishView> {
    v.map_values(|d: Dish| d@)
}

pub open spec fn fragments_view(v: Seq<DishFragment>) -> Seq<FragmentView> {
    v.map_values(|f: DishFragment| f@)
}

/// The dishes that a group of rows yields, in row order; rows without a dish
/// are left out.
pub open spec fn extracted(rows: Seq<FragmentView>, t: DishType) -> Seq<DishView>
    decreases rows.len(),
{
    if rows.len() == 0 {
        Seq::empty()
    } else {
        let prev = extracted(rows.drop_last(), t);
        match dish_of(rows.last(), t) {
            Some(d) => prev.push(d),
            None => prev,
        }
    }
}

/// A day's menu: main dishes, then side dishes, then desserts.
pub open spec fn menu_of(
    main: Seq<FragmentView>,
    side: Seq<FragmentView>,
    dessert: Seq<FragmentView>,
) -> Seq<DishView> {
    extracted(main, DishType::Main) + extracted(side, DishType::Side) + extracted(
        dessert,
        DishType::Dessert,
    )
}

/// Appends the dishes of one row group.
fn extract_group(rows: &Vec<DishFragment>, t: DishType, out: &mut Vec<Dish>)
    ensures
        dishes_view(final(out)@) == dishes_view(old(out)@) + extracted(fragments_view(rows@), t),
{
    let ghost start = dishes_view(out@);
    let mut i: usize = 0;
    while i < rows.len()
        invariant
            i <= rows.len(),
            dishes_view(out@) == start + extracted(fragments_view(rows@.take(i as int)), t),
        decreases rows.len() - i,
    {
        assert(fragments_view(rows@.take(i + 1)).drop_last() =~= fragments_view(rows@.take(i as int)));
        assert(fragments_view(rows@.take(i + 1)).last() == rows@[i as int]@);
        let ghost before = dishes_view(out@);
        match Dish::from_fragment(&rows[i], t) {
            Some(d) => {
                out.push(d);
                assert(dishes_view(out@) =~= before.push(d@));
            },
            None => {
                assert(dishes_view(out@) =~= before);
            },
        }
        assert(dishes_view(out@) =~= start + extracted(fragments_view(rows@.take(i + 1)), t));
        i = i + 1;
    }
    assert(rows@.take(rows.len() as int) =~= rows@);
}

/// Assembles a day's menu from its three row groups: main dishes, then side
/// dishes, then desserts, each in row order, rows without a dish left out.
pub fn menu_from_fragments(
    main: &Vec<DishFragment>,
    side: &Vec<DishFragment>,
    dessert: &Vec<DishFragment>,
) -> (r: Vec<Dish>)
    ensures
        dishes_view(r@) == menu_of(fragments_view(main@), fragments_view(side@), fragments_view(dessert@)),
{
    let mut out: Vec<Dish> = Vec::new();
    assert(dishes_view(out@) =~= Seq::<DishView>::empty());
    extract_group(main, DishType::Main, &mut out);
    extract_group(side, DishType::Side, &mut out);
    extract_group(dessert, DishType::Dessert, &mut out);
    assert(dishes_view(out@) =~= menu_of(fragments_view(main@), fragments_view(side@), fragments_view(dessert@)));
    out
}

pub open spec fn main_rows_selector() -> Seq<char> {
    "table.table-dishes.main-dishes > tbody > tr.odd > td.description > div.row"@
}

pub open spec fn side_rows_selector() -> Seq<char> {
    "table.table-dishes.side-dishes > tbody > tr.odd > td.description > div.row"@
}

pub open spec fn dessert_rows_selector() -> Seq<char> {
    "table.table-dishes.soups > tbody > tr.odd > td.description > div.row"@
}

/// The rows of one group of the document, read with the dish row selectors.
pub open spec fn group_rows(html: Seq<char>, group: Seq<char>) -> Seq<FragmentView> {
    rows_of(html, group, name_selector(), image_selector(), price_selector(), extras_selector())
}

/// Extracts a day's menu from the markup of a menu page: the rows of the main
/// dish, side dish and dessert tables, in that order. `None` exactly where one
/// of the fixed selectors does not compile.
pub fn menu_from_html(html: &str) -> (r: Option<Vec<Dish>>)
    ensures
        r is Some <==> row_selectors_compile() && selector_compiles(main_rows_selector())
            && selector_compiles(side_rows_selector()) && selector_compiles(dessert_rows_selector()),
        r matches Some(v) ==> dishes_view(v@) == menu_of(
            group_rows(html@, main_rows_selector()),
            group_rows(html@, side_rows_selector()),
            group_rows(html@, dessert_rows_selector()),
        ),
{
    if !check_row_selectors() {
        return None;
    }
    let main = match group_fragments(
        html,
        "table.table-dishes.main-dishes > tbody > tr.odd > td.description > div.row",
        ".desc h4",
        ".img img",
        ".desc .price",
        ".desc .buttons > *",
    ) {
        Some(v) => v,
        None => {
            return None;
        },
    };
    let side = match group_fragments(
        html,
        "table.table-dishes.side-dishes > tbody > tr.odd > td.description > div.row",
        ".desc h4",
        ".img img",
        ".desc .price",
        ".desc .buttons > *",
    ) {
        Some(v) => v,
        None => {
            return None;
        },
    };
    let dessert = match group_fragments(
        html,
        "table.table-dishes.soups > tbody > tr.odd > td.description > div.row",
        ".desc h4",
        ".img img",
        ".desc .price",
        ".desc .buttons > *",
    ) {
        Some(v) => v,
        None => {
            return None;
        },
    };
    Some(menu_from_fragments(&main, &side, &dessert))
}

} // verus!
