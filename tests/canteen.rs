use std::str::FromStr;

use mensa_upb_scraper::{parse_exclusions, Canteen};

#[test]
fn identifiers_round_trip() {
    for c in Canteen::all() {
        let id = c.get_identifier();
        assert_eq!(Canteen::parse_identifier(id), Ok(c));
        assert_eq!(Canteen::parse_identifier(id).unwrap().get_identifier(), id);
    }
}

#[test]
fn unknown_identifier_is_refused() {
    let r = Canteen::parse_identifier("not-a-canteen");
    assert_eq!(r, Err("Invalid canteen identifier: not-a-canteen".to_string()));
    assert!(Canteen::parse_identifier("").is_err());
    assert!(Canteen::parse_identifier("Forum").is_err());
    assert!(Canteen::parse_identifier("forum ").is_err());
}

#[test]
fn from_str_and_parse_agree() {
    assert_eq!(Canteen::from_str("bona-vista"), Ok(Canteen::BonaVista));
    assert_eq!("zm2".parse::<Canteen>(), Ok(Canteen::ZM2));
    assert!("zm3".parse::<Canteen>().is_err());
}

#[test]
fn directory_order_and_urls() {
    let all = Canteen::all();
    assert_eq!(all.len(), 8);
    assert_eq!(all[0], Canteen::Forum);
    assert_eq!(all[7], Canteen::Atrium);
    assert_eq!(
        Canteen::Academica.get_url(),
        "https://www.studierendenwerk-pb.de/gastronomie/speiseplaene/mensa-academica/"
    );
    assert_eq!(
        Canteen::Basilica.get_url(),
        "https://www.studierendenwerk-pb.de/gastronomie/speiseplaene/mensa-basilica-hamm/"
    );
    assert_eq!(Canteen::GrillCafe.get_identifier(), "grillcafe");
}

#[test]
fn exclusion_list_skips_unknown_names() {
    assert_eq!(parse_exclusions("forum,zm2,unknown"), vec![Canteen::Forum, Canteen::ZM2]);
    assert_eq!(parse_exclusions(""), Vec::<Canteen>::new());
    assert_eq!(parse_exclusions(",,atrium,"), vec![Canteen::Atrium]);
    assert_eq!(parse_exclusions("picknick"), vec![Canteen::Picknick]);
    assert_eq!(parse_exclusions(" forum"), Vec::<Canteen>::new());
}
