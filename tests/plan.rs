use mensa_upb_scraper::{
    menu_records, plan_work, successful_menus, Canteen, Dish, DishFragment, DishType, FetchOutcome,
    WorkItem,
};

#[test]
fn plan_count_with_one_stored_and_one_excluded() {
    let start: i64 = 739000;
    let stored = vec![WorkItem { day: start + 3, canteen: Canteen::Forum }];
    let excluded = vec![Canteen::ZM2];
    let plan = plan_work(start, &stored, &excluded);
    assert_eq!(plan.len(), 8 * 7 - 7 - 1);
    assert!(!plan.contains(&stored[0]));
    assert!(plan.iter().all(|w| w.canteen != Canteen::ZM2));
    assert!(plan.iter().all(|w| w.day >= start && w.day <= start + 6));
}

#[test]
fn plan_order_is_day_then_directory() {
    let plan = plan_work(10, &vec![], &vec![]);
    assert_eq!(plan.len(), 56);
    assert_eq!(plan[0], WorkItem { day: 10, canteen: Canteen::Forum });
    assert_eq!(plan[1], WorkItem { day: 10, canteen: Canteen::Academica });
    assert_eq!(plan[8], WorkItem { day: 11, canteen: Canteen::Forum });
    assert_eq!(plan[55], WorkItem { day: 16, canteen: Canteen::Atrium });
}

#[test]
fn stored_pair_of_excluded_canteen_is_not_counted_twice() {
    let stored = vec![
        WorkItem { day: 2, canteen: Canteen::Atrium },
        WorkItem { day: 40, canteen: Canteen::Forum },
    ];
    let plan = plan_work(0, &stored, &vec![Canteen::Atrium, Canteen::Atrium]);
    assert_eq!(plan.len(), 49);
}

fn menu(name: &str) -> Vec<Dish> {
    let f = DishFragment {
        name_texts: Some(vec![name.to_string()]),
        image_path: None,
        prices: vec![],
        extra_titles: vec![Some("vegan".to_string())],
    };
    vec![Dish::from_fragment(&f, DishType::Main).unwrap()]
}

#[test]
fn failed_fetch_is_dropped_alone() {
    let outcomes = vec![
        FetchOutcome { item: WorkItem { day: 1, canteen: Canteen::Forum }, menu: Some(menu("A")) },
        FetchOutcome { item: WorkItem { day: 1, canteen: Canteen::Picknick }, menu: None },
        FetchOutcome { item: WorkItem { day: 2, canteen: Canteen::Forum }, menu: Some(menu("C")) },
    ];
    let ok = successful_menus(outcomes);
    assert_eq!(ok.len(), 2);
    assert_eq!(ok[0].item, WorkItem { day: 1, canteen: Canteen::Forum });
    assert_eq!(ok[0].menu[0].get_name(), "A");
    assert_eq!(ok[1].item, WorkItem { day: 2, canteen: Canteen::Forum });
    assert_eq!(ok[1].menu[0].get_name(), "C");
    let records = menu_records(ok[1].item.day, ok[1].item.canteen, &ok[1].menu);
    assert_eq!(records.len(), 1);
    assert_eq!(records[0].canteen, "forum");
    assert_eq!(records[0].day, 2);
    assert!(records[0].vegan);
    assert!(records[0].vegetarian);
}

#[test]
fn all_failed_gives_nothing() {
    let outcomes = vec![FetchOutcome { item: WorkItem { day: 1, canteen: Canteen::Forum }, menu: None }];
    assert!(successful_menus(outcomes).is_empty());
}
