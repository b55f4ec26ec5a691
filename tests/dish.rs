use mensa_upb_scraper::{
    meal_record, menu_from_fragments, menu_from_html, price_to_bigdecimal, trim_whitespace,
    Canteen, Decimal, Dish, DishFragment, DishType, PriceEntry,
};

fn price(label: &str, value: &str) -> PriceEntry {
    PriceEntry { label: Some(label.to_string()), value: Some(value.to_string()) }
}

fn fragment(name: Option<&[&str]>, prices: Vec<PriceEntry>, extras: &[&str]) -> DishFragment {
    DishFragment {
        name_texts: name.map(|n| n.iter().map(|s| s.to_string()).collect()),
        image_path: None,
        prices,
        extra_titles: extras.iter().map(|s| Some(s.to_string())).collect(),
    }
}

#[test]
fn fragment_without_name_yields_no_dish() {
    let f = fragment(None, vec![price("Studierende:", "3,50 €")], &["vegan"]);
    assert!(Dish::from_fragment(&f, DishType::Main).is_none());
}

#[test]
fn blank_name_yields_no_dish() {
    let f = fragment(Some(&["  ", "\n"]), vec![], &[]);
    assert!(Dish::from_fragment(&f, DishType::Side).is_none());
}

#[test]
fn name_pieces_are_joined_and_trimmed() {
    let f = fragment(Some(&["  Pasta ", "mit Soße \n"]), vec![], &[]);
    let d = Dish::from_fragment(&f, DishType::Side).unwrap();
    assert_eq!(d.get_name(), "Pasta mit Soße");
    assert_eq!(d.get_type(), DishType::Side);
    assert_eq!(d.get_image_src(), None);
}

#[test]
fn same_as_ignores_extras_order() {
    let a = Dish::from_fragment(&fragment(Some(&["Curry"]), vec![], &["vegan", "spicy"]), DishType::Main)
        .unwrap();
    let b = Dish::from_fragment(&fragment(Some(&["Curry"]), vec![], &["spicy", "vegan"]), DishType::Main)
        .unwrap();
    assert!(a.same_as(&b));
    assert!(b.same_as(&a));
    let c = Dish::from_fragment(&fragment(Some(&["Curry"]), vec![], &["spicy", "spicy"]), DishType::Main)
        .unwrap();
    assert!(!a.same_as(&c));
    let d = Dish::from_fragment(&fragment(Some(&["Curry"]), vec![], &["vegan"]), DishType::Main).unwrap();
    assert!(!a.same_as(&d));
}

#[test]
fn same_as_compares_name_and_prices() {
    let a = Dish::from_fragment(
        &fragment(Some(&["Curry"]), vec![price("Studierende", "3,00 €")], &[]),
        DishType::Main,
    )
    .unwrap();
    let b = Dish::from_fragment(
        &fragment(Some(&["Curry"]), vec![price("Studierende", "3,10 €")], &[]),
        DishType::Main,
    )
    .unwrap();
    let c = Dish::from_fragment(
        &fragment(Some(&["Reis"]), vec![price("Studierende", "3,00 €")], &[]),
        DishType::Main,
    )
    .unwrap();
    assert!(a.same_as(&a));
    assert!(!a.same_as(&b));
    assert!(!a.same_as(&c));
}

#[test]
fn student_and_employee_labels_fill_two_slots() {
    let f = fragment(
        Some(&["Schnitzel"]),
        vec![price(" Studierende: ", " 2,90 € "), price("Bedienstete:", "4,10 €"), price("Kinder:", "1,00 €")],
        &[],
    );
    let d = Dish::from_fragment(&f, DishType::Main).unwrap();
    assert_eq!(d.get_price_students(), Some("2,90 €"));
    assert_eq!(d.get_price_employees(), Some("4,10 €"));
    assert_eq!(d.get_price_guests(), None);
    assert_eq!(price_to_bigdecimal(d.get_price_guests()), Decimal::new(99999, 2));
}

#[test]
fn first_of_repeated_labels_wins_and_guest_label_is_read() {
    let f = fragment(
        Some(&["Suppe"]),
        vec![
            price("Gäste:", "5,00 €"),
            price("Studierende", "1,00 €"),
            price("Studierende", "9,00 €"),
            PriceEntry { label: None, value: Some("0,50 €".to_string()) },
        ],
        &[],
    );
    let d = Dish::from_fragment(&f, DishType::Dessert).unwrap();
    assert_eq!(d.get_price_students(), Some("1,00 €"));
    assert_eq!(d.get_price_guests(), Some("5,00 €"));
    assert_eq!(d.get_price_employees(), None);
}

#[test]
fn image_and_missing_titles() {
    let f = DishFragment {
        name_texts: Some(vec!["Salat".to_string()]),
        image_path: Some("fileadmin/salat.jpg".to_string()),
        prices: vec![],
        extra_titles: vec![Some("vegan".to_string()), None, Some("vegan".to_string())],
    };
    let d = Dish::from_fragment(&f, DishType::Side).unwrap();
    assert_eq!(d.get_image_src(), Some("https://www.studierendenwerk-pb.de/fileadmin/salat.jpg"));
    assert_eq!(d.get_extras(), &["vegan".to_string(), "vegan".to_string()]);
    assert!(d.is_vegan());
    assert!(!d.is_vegetarian());
}

#[test]
fn lasagne_end_to_end() {
    let f = fragment(Some(&["Lasagne"]), vec![price("Studierende", "3,50 €")], &["vegetarian"]);
    let d = Dish::from_fragment(&f, DishType::Main).unwrap();
    assert_eq!(d.get_name(), "Lasagne");
    assert_eq!(d.get_extras(), &["vegetarian".to_string()]);
    assert_eq!(d.get_type(), DishType::Main);
    let r = meal_record(740000, Canteen::Forum, &d);
    assert_eq!(r.name, "Lasagne");
    assert_eq!(r.price_students, Decimal::new(350, 2));
    assert_eq!(r.price_employees, Decimal::new(99999, 2));
    assert_eq!(r.price_guests, Decimal::new(99999, 2));
    assert_eq!(r.dish_type, "main");
    assert!(!r.vegan);
    assert!(r.vegetarian);
}

#[test]
fn menu_keeps_group_order() {
    let main = vec![fragment(Some(&["A"]), vec![], &[]), fragment(None, vec![], &[]), fragment(Some(&["B"]), vec![], &[])];
    let side = vec![fragment(Some(&["C"]), vec![], &[])];
    let dessert = vec![fragment(Some(&["D"]), vec![], &[])];
    let menu = menu_from_fragments(&main, &side, &dessert);
    let names: Vec<&str> = menu.iter().map(|d| d.get_name()).collect();
    assert_eq!(names, vec!["A", "B", "C", "D"]);
    assert_eq!(menu[2].get_type(), DishType::Side);
    assert_eq!(menu[3].get_type(), DishType::Dessert);
}

fn page() -> String {
    [
    "<html><body>",
    "<table class=\"table-dishes soups\"><tbody><tr class=\"odd\"><td class=\"description\">",
    "<div class=\"row\"><div class=\"desc\"><h4>Pudding</h4></div></div>",
    "</td></tr></tbody></table>",
    "<table class=\"table-dishes main-dishes\"><tbody>",
    "<tr class=\"odd\"><td class=\"description\"><div class=\"row\">",
    "<div class=\"img\"><img src=\"img/lasagne.jpg\"></div>",
    "<div class=\"desc\"><h4> Lasa<b>gne</b> </h4>",
    "<div class=\"price\"><strong>Studierende:</strong> 3,50 €</div>",
    "<div class=\"buttons\"><span title=\"vegetarian\"></span></div>",
    "</div></div></td></tr>",
    "<tr class=\"even\"><td class=\"description\"><div class=\"row\">",
    "<div class=\"desc\"><h4>Hidden</h4></div></div></td></tr>",
    "<tr class=\"odd\"><td class=\"description\"><div class=\"row\">",
    "<div class=\"desc\"><p>no name</p></div></div></td></tr>",
    "</tbody></table>",
    "<table class=\"table-dishes side-dishes\"><tbody><tr class=\"odd\"><td class=\"description\">",
    "<div class=\"row\"><div class=\"desc\"><h4>Reis</h4></div></div>",
    "</td></tr></tbody></table>",
    "</body></html>",
    ]
    .join("")
}

#[test]
fn menu_from_markup() {
    let menu = menu_from_html(&page()).unwrap();
    let names: Vec<&str> = menu.iter().map(|d| d.get_name()).collect();
    assert_eq!(names, vec!["Lasagne", "Reis", "Pudding"]);
    let d = &menu[0];
    assert_eq!(d.get_type(), DishType::Main);
    assert_eq!(d.get_image_src(), Some("https://www.studierendenwerk-pb.de/img/lasagne.jpg"));
    assert_eq!(d.get_price_students(), Some("3,50 €"));
    assert_eq!(d.get_price_employees(), None);
    assert_eq!(d.get_extras(), &["vegetarian".to_string()]);
    assert!(d.is_vegetarian());
    assert_eq!(menu[1].get_type(), DishType::Side);
    assert_eq!(menu[2].get_type(), DishType::Dessert);
}

#[test]
fn empty_page_has_no_dishes() {
    assert_eq!(menu_from_html("").unwrap().len(), 0);
}

#[test]
fn category_labels() {
    assert_eq!(DishType::Main.as_str(), "main");
    assert_eq!(DishType::Side.as_str(), "side");
    assert_eq!(DishType::Dessert.as_str(), "dessert");
}

#[test]
fn trimming_white_space() {
    assert_eq!(trim_whitespace("\t a b \u{a0}\n"), "a b");
    assert_eq!(trim_whitespace("   "), "");
}

#[test]
fn from_element_reads_a_row() {
    let doc = scraper::Html::parse_document(&page());
    let sel = scraper::Selector::parse("table.main-dishes div.row").unwrap();
    let rows: Vec<scraper::ElementRef> = doc.select(&sel).collect();
    assert_eq!(rows.len(), 3);
    let d = Dish::from_element(rows[0], DishType::Main).unwrap();
    assert_eq!(d.get_name(), "Lasagne");
    assert_eq!(d.get_price_students(), Some("3,50 €"));
    assert_eq!(d.get_extras(), &["vegetarian".to_string()]);
    assert!(Dish::from_element(rows[2], DishType::Main).is_none());
}

#[test]
fn equality_and_order_of_dishes() {
    let a = Dish::from_fragment(&fragment(Some(&["Apfel"]), vec![], &["vegan", "spicy"]), DishType::Main)
        .unwrap();
    let b = Dish::from_fragment(&fragment(Some(&["Apfel"]), vec![], &["spicy", "vegan"]), DishType::Main)
        .unwrap();
    let c = Dish::from_fragment(&fragment(Some(&["Birne"]), vec![], &[]), DishType::Side).unwrap();
    assert!(a == a.clone());
    assert!(a != b);
    assert!(a.same_as(&b));
    assert_eq!(a.partial_cmp(&b), Some(std::cmp::Ordering::Equal));
    assert!(a < c);
    assert!(c > b);
}
