use vstd::prelude::*;

use crate::canteen::{identifier_of, Canteen};
use crate::dish::{dish_type_label, opt_view, Dish, DishView};
use crate::menu::dishes_view;
use crate::plan::WorkItem;
use crate::price::{price_to_bigdecimal, price_value, Decimal};

verus! {

/// One row for the meal store, keyed by (day, canteen identifier, name).
pub struct MealRecord {
    pub day: i64,
    pub canteen: String,
    pub name: String,
    pub dish_type: String,
    pub image_src: Option<String>,
    pub price_students: Decimal,
    pub price_employees: Decimal,
    pub price_guests: Decimal,
    pub vegan: bool,
    pub vegetarian: bool,
}

/// `r` is the row that stores dish `d` of canteen `c` on `day`: prices
/// normalised, vegan read from the tags, and a vegan dish counted as vegetarian.
pub open spec fn is_record_of(r: MealRecord, day: i64, c: Canteen, d: DishView) -> bool {
    &&& r.day == day
    &&& r.canteen@ == identifier_of(c)
    &&& r.name@ == d.name
    &&& r.dish_type@ == dish_type_label(d.dish_type)
    &&& opt_view(r.image_src) == d.image_src
    &&& r.price_students == price_value(d.price_students)
    &&& r.price_employees == price_value(d.price_employees)
    &&& r.price_guests == price_value(d.price_guests)
    &&& r.vegan == d.extras.contains("vegan"@)
    &&& r.vegetarian == (d.extras.contains("vegan"@) || d.extras.contains("vegetarian"@))
}

/// The dishes of a menu that get stored: those with a name.
pub open spec fn stored_dishes(menu: Seq<DishView>) -> Seq<DishView>
    decreases menu.len(),
{
    if menu.len() == 0 {
        Seq::empty()
    } else {
        let prev = stored_dishes(menu.drop_last());
        if menu.last().name.len() > 0 {
            prev.push(menu.last())
        } else {
            prev
        }
    }
}

/// Builds the row that stores one dish of a canteen's menu for a day.
pub fn meal_record(day: i64, canteen: Canteen, dish: &Dish) -> (r: MealRecord)
    ensures
        is_record_of(r, day, canteen, dish@),
{
    let vegan = dish.is_vegan();
    let vegetarian = vegan || dish.is_vegetarian();
    let image_src = match dish.get_image_src() {
        Some(p) => Some(String::from_str(p)),
        None => None,
    };
    MealRecord {
        day,
        canteen: String::from_str(canteen.get_identifier()),
        name: String::from_str(dish.get_name()),
        dish_type: String::from_str(dish.get_type().as_str()),
        image_src,
        price_students: price_to_bigdecimal(dish.get_price_students()),
        price_employees: price_to_bigdecimal(dish.get_price_employees()),
        price_guests: price_to_bigdecimal(dish.get_price_guests()),
        vegan,
        vegetarian,
    }
}

/// The rows that store a canteen's menu for a day, in menu order; dishes
/// without a name are skipped.
pub fn menu_records(day: i64, canteen: Canteen, menu: &Vec<Dish>) -> (r: Vec<MealRecord>)
    ensures
        r.len() == stored_dishes(dishes_view(menu@)).len(),
        forall|i: int|
            0 <= i < r.len() ==> is_record_of(
                #[trigger] r@[i],
                day,
                canteen,
                stored_dishes(dishes_view(menu@))[i],
            ),
{
    let ghost dv = dishes_view(menu@);
    let mut out: Vec<MealRecord> = Vec::new();
    let mut i: usize = 0;
    while i < menu.len()
        invariant
            i <= menu.len(),
            dv == dishes_view(menu@),
            out.len() == stored_dishes(dv.take(i as int)).len(),
            forall|j: int|
                0 <= j < out.len() ==> is_record_of(
                    #[trigger] out@[j],
                    day,
                    canteen,
                    stored_dishes(dv.take(i as int))[j],
                ),
        decreases menu.len() - i,
    {
        assert(dv.take(i + 1).drop_last() =~= dv.take(i as int));
        assert(dv.take(i + 1).last() == menu@[i as int]@);
        let dish = &menu[i];
        if dish.get_name().unicode_len() > 0 {
            out.push(meal_record(day, canteen, dish));
        }
        i = i + 1;
    }
    assert(dv.take(menu.len() as int) =~= dv);
    out
}

/// The result of scraping one work item: its menu, or `None` where the fetch failed.
pub struct FetchOutcome {
    pub item: WorkItem,
    pub menu: Option<Vec<Dish>>,
}

/// A scraped menu that is handed on to be stored.
pub struct MenuBatch {
    pub item: WorkItem,
    pub menu: Vec<Dish>,
}

/// The successful outcomes, in order, as (item, dishes).
pub open spec fn successes(s: Seq<FetchOutcome>) -> Seq<(WorkItem, Seq<DishView>)>
    decreases s.len(),
{
    if s.len() == 0 {
        Seq::empty()
    } else {
        let prev = successes(s.drop_last());
        match s.last().menu {
            Some(m) => prev.push((s.last().item, dishes_view(m@))),
            None => prev,
        }
    }
}

pub open spec fn batches_view(v: Seq<MenuBatch>) -> Seq<(WorkItem, Seq<DishView>)> {
    v.map_values(|b: MenuBatch| (b.item, dishes_view(b.menu@)))
}

/// Keeps the menus that were fetched and drops the failed items, each failure
/// on its own: no retry, and no effect on the other items.
pub fn successful_menus(outcomes: Vec<FetchOutcome>) -> (r: Vec<MenuBatch>)
    ensures
        batches_view(r@) == successes(outcomes@),
{
    let ghost all = outcomes@;
    let mut rest = outcomes;
    let mut out: Vec<MenuBatch> = Vec::new();
    let ghost mut k: int = 0;
    while rest.len() > 0
        invariant
            0 <= k <= all.len(),
            rest@ == all.subrange(k, all.len() as int),
            batches_view(out@) == successes(all.take(k)),
        decreases rest.len(),
    {
        assert(all.take(k + 1).drop_last() =~= all.take(k));
        assert(all.take(k + 1).last() == all[k]);
        let o = rest.remove(0);
        let ghost before = batches_view(out@);
        match o.menu {
            Some(m) => {
                out.push(MenuBatch { item: o.item, menu: m });
                assert(batches_view(out@) =~= before.push((o.item, dishes_view(m@))));
            },
            None => {},
        }
        proof {
            assert(rest@ =~= all.subrange(k + 1, all.len() as int));
            k = k + 1;
        }
    }
    assert(all.take(k) =~= all);
    out
}

proof fn lemma_successes_append(a: Seq<FetchOutcome>, b: Seq<FetchOutcome>)
    ensures
        successes(a + b) == successes(a) + successes(b),
    decreases b.len(),
{
    if b.len() == 0 {
        assert(a + b =~= a);
        assert(successes(a) + successes(b) =~= successes(a));
    } else {
        lemma_successes_append(a, b.drop_last());
        assert((a + b).drop_last() =~= a + b.drop_last());
        assert((a + b).last() == b.last());
        assert(successes(a + b) =~= successes(a) + successes(b));
    }
}

/// A failed fetch of one item removes exactly that item's menu: what the other
/// items yield, before and after it, is what they yield when it succeeds.
pub proof fn lemma_failure_isolated(s: Seq<FetchOutcome>, i: int)
    requires
        0 <= i < s.len(),
    ensures
        successes(s.update(i, FetchOutcome { item: s[i].item, menu: None })) == successes(s.take(i))
            + successes(s.skip(i + 1)),
        successes(s) == successes(s.take(i)) + successes(seq![s[i]]) + successes(s.skip(i + 1)),
{
    let failed = FetchOutcome { item: s[i].item, menu: None };
    let t = s.update(i, failed);
    assert(t =~= s.take(i) + seq![failed] + s.skip(i + 1));
    assert(s =~= s.take(i) + seq![s[i]] + s.skip(i + 1));
    lemma_successes_append(s.take(i) + seq![failed], s.skip(i + 1));
    lemma_successes_append(s.take(i), seq![failed]);
    lemma_successes_append(s.take(i) + seq![s[i]], s.skip(i + 1));
    lemma_successes_append(s.take(i), seq![s[i]]);
    assert(seq![failed].drop_last() =~= Seq::<FetchOutcome>::empty());
    assert(seq![failed].last() == failed);
    assert(successes(Seq::<FetchOutcome>::empty()) =~= Seq::<(WorkItem, Seq<DishView>)>::empty());
    assert(successes(seq![failed]) =~= Seq::<(WorkItem, Seq<DishView>)>::empty());
    assert(successes(s.take(i)) + successes(seq![failed]) =~= successes(s.take(i)));
}

} // verus!
