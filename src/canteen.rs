use vstd::prelude::*;

use crate::text::str_eq;

verus! {

/// One of the closed set of dining facilities.
#[derive(Debug, Clone, Copy, PartialEq, Eq, PartialOrd, Ord, Hash, Structural)]
pub enum Canteen {
    Forum,
    Academica,
    Picknick,
    BonaVista,
    GrillCafe,
    ZM2,
    Basilica,
    Atrium,
}

/// Every canteen, in the fixed enumeration order.
pub open spec fn canteen_order() -> Seq<Canteen> {
    seq![
        Canteen::Forum,
        Canteen::Academica,
        Canteen::Picknick,
        Canteen::BonaVista,
        Canteen::GrillCafe,
        Canteen::ZM2,
        Canteen::Basilica,
        Canteen::Atrium,
    ]
}

/// The stable identifier of a canteen.
pub open spec fn identifier_of(c: Canteen) -> Seq<char> {
    match c {
        Canteen::Forum => "forum"@,
        Canteen::Academica => "academica"@,
        Canteen::Picknick => "picknick"@,
        Canteen::BonaVista => "bona-vista"@,
        Canteen::GrillCafe => "grillcafe"@,
        Canteen::ZM2 => "zm2"@,
        Canteen::Basilica => "basilica"@,
        Canteen::Atrium => "atrium"@,
    }
}

/// The menu source address of a canteen.
pub open spec fn url_of(c: Canteen) -> Seq<char> {
    match c {
        Canteen::Forum => "https://www.studierendenwerk-pb.de/gastronomie/speiseplaene/forum/"@,
        Canteen::Academica => "https://www.studierendenwerk-pb.de/gastronomie/speiseplaene/mensa-academica/"@,
        Canteen::Picknick => "https://www.studierendenwerk-pb.de/gastronomie/speiseplaene/picknick/"@,
        Canteen::BonaVista => "https://www.studierendenwerk-pb.de/gastronomie/speiseplaene/bona-vista/"@,
        Canteen::GrillCafe => "https://www.studierendenwerk-pb.de/gastronomie/speiseplaene/grillcafe/"@,
        Canteen::ZM2 => "https://www.studierendenwerk-pb.de/gastronomie/speiseplaene/mensa-zm2/"@,
        Canteen::Basilica => "https://www.studierendenwerk-pb.de/gastronomie/speiseplaene/mensa-basilica-hamm/"@,
        Canteen::Atrium => "https://www.studierendenwerk-pb.de/gastronomie/speiseplaene/mensa-atrium-lippstadt/"@,
    }
}

/// The canteen whose identifier is `s`, if there is one.
pub open spec fn canteen_named(s: Seq<char>) -> Option<Canteen> {
    if s == "forum"@ {
        Some(Canteen::Forum)
    } else if s == "academica"@ {
        Some(Canteen::Academica)
    } else if s == "picknick"@ {
        Some(Canteen::Picknick)
    } else if s == "bona-vista"@ {
        Some(Canteen::BonaVista)
    } else if s == "grillcafe"@ {
        Some(Canteen::GrillCafe)
    } else if s == "zm2"@ {
        Some(Canteen::ZM2)
    } else if s == "basilica"@ {
        Some(Canteen::Basilica)
    } else if s == "atrium"@ {
        Some(Canteen::Atrium)
    } else {
        None
    }
}

/// The message of a failed identifier lookup.
pub open spec fn unknown_identifier_message(s: Seq<char>) -> Seq<char> {
    "Invalid canteen identifier: "@ + s
}

impl Canteen {
    /// Every canteen, in the fixed enumeration order.
    pub fn all() -> (r: Vec<Canteen>)
        ensures
            r@ == canteen_order(),
    {
        let r = vec![
            Canteen::Forum,
            Canteen::Academica,
            Canteen::Picknick,
            Canteen::BonaVista,
            Canteen::GrillCafe,
            Canteen::ZM2,
            Canteen::Basilica,
            Canteen::Atrium,
        ];
        assert(r@ =~= canteen_order());
        r
    }

    pub fn get_url(&self) -> (r: &'static str)
        ensures
            r@ == url_of(*self),
    {
        match self {
            Canteen::Forum => "https://www.studierendenwerk-pb.de/gastronomie/speiseplaene/forum/",
            Canteen::Academica => "https://www.studierendenwerk-pb.de/gastronomie/speiseplaene/mensa-academica/",
            Canteen::Picknick => "https://www.studierendenwerk-pb.de/gastronomie/speiseplaene/picknick/",
            Canteen::BonaVista => "https://www.studierendenwerk-pb.de/gastronomie/speiseplaene/bona-vista/",
            Canteen::GrillCafe => "https://www.studierendenwerk-pb.de/gastronomie/speiseplaene/grillcafe/",
            Canteen::ZM2 => "https://www.studierendenwerk-pb.de/gastronomie/speiseplaene/mensa-zm2/",
            Canteen::Basilica => "https://www.studierendenwerk-pb.de/gastronomie/speiseplaene/mensa-basilica-hamm/",
            Canteen::Atrium => "https://www.studierendenwerk-pb.de/gastronomie/speiseplaene/mensa-atrium-lippstadt/",
        }
    }

    pub fn get_identifier(&self) -> (r: &'static str)
        ensures
            r@ == identifier_of(*self),
    {
        match self {
            Canteen::Forum => "forum",
            Canteen::Academica => "academica",
            Canteen::Picknick => "picknick",
            Canteen::BonaVista => "bona-vista",
            Canteen::GrillCafe => "grillcafe",
            Canteen::ZM2 => "zm2",
            Canteen::Basilica => "basilica",
            Canteen::Atrium => "atrium",
        }
    }

    /// Looks a canteen up by its identifier; any other text is refused.
    pub fn parse_identifier(s: &str) -> (r: Result<Canteen, String>)
        ensures
            match canteen_named(s@) {
                Some(c) => r == Ok::<Canteen, String>(c),
                None => r is Err && r->Err_0@ == unknown_identifier_message(s@),
            },
    {
        if str_eq(s, "forum") {
            Ok(Canteen::Forum)
        } else if str_eq(s, "academica") {
            Ok(Canteen::Academica)
        } else if str_eq(s, "picknick") {
            Ok(Canteen::Picknick)
        } else if str_eq(s, "bona-vista") {
            Ok(Canteen::BonaVista)
        } else if str_eq(s, "grillcafe") {
            Ok(Canteen::GrillCafe)
        } else if str_eq(s, "zm2") {
            Ok(Canteen::ZM2)
        } else if str_eq(s, "basilica") {
            Ok(Canteen::Basilica)
        } else if str_eq(s, "atrium") {
            Ok(Canteen::Atrium)
        } else {
            Err(String::from_str("Invalid canteen identifier: ").concat(s))
        }
    }
}

impl std::str::FromStr for Canteen {
    type Err = String;

    fn from_str(s: &str) -> (r: Result<Canteen, String>)
        ensures
            match canteen_named(s@) {
                Some(c) => r == Ok::<Canteen, String>(c),
                None => r is Err && r->Err_0@ == unknown_identifier_message(s@),
            },
    {
        Canteen::parse_identifier(s)
    }
}

/// Looking up the identifier of any canteen gives that canteen back.
pub proof fn lemma_identifier_round_trip(c: Canteen)
    ensures
        canteen_named(identifier_of(c)) == Some(c),
{
    reveal_strlit("forum");
    reveal_strlit("academica");
    reveal_strlit("picknick");
    reveal_strlit("bona-vista");
    reveal_strlit("grillcafe");
    reveal_strlit("zm2");
    reveal_strlit("basilica");
    reveal_strlit("atrium");
    assert("forum"@.len() == 5);
    assert("academica"@.len() == 9);
    assert("picknick"@.len() == 8);
    assert("bona-vista"@.len() == 10);
    assert("grillcafe"@.len() == 9);
    assert("zm2"@.len() == 3);
    assert("basilica"@.len() == 8);
    assert("atrium"@.len() == 6);
    assert("academica"@[0] != "grillcafe"@[0]);
    assert("picknick"@[0] != "basilica"@[0]);
}

/// Text that is no canteen identifier is refused by the lookup.
pub proof fn lemma_unknown_identifier_refused()
    ensures
        canteen_named("not-a-canteen"@) is None,
{
    reveal_strlit("not-a-canteen");
    reveal_strlit("forum");
    reveal_strlit("academica");
    reveal_strlit("picknick");
    reveal_strlit("bona-vista");
    reveal_strlit("grillcafe");
    reveal_strlit("zm2");
    reveal_strlit("basilica");
    reveal_strlit("atrium");
    assert("not-a-canteen"@.len() != "forum"@.len());
}

/// Whatever text the lookup accepts is the identifier of the canteen it gives.
pub proof fn lemma_lookup_gives_identifier(s: Seq<char>)
    ensures
        canteen_named(s) matches Some(c) ==> identifier_of(c) == s,
{
}

} // verus!
