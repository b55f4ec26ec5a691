use vstd::prelude::*;

use crate::canteen::{canteen_named, canteen_order, Canteen};

verus! {

/// A (day, canteen) pair whose menu is still to be scraped. Days are counted
/// from a fixed epoch, one per calendar day.
#[derive(Debug, Clone, Copy, PartialEq, Eq, Hash, Structural)]
pub struct WorkItem {
    pub day: i64,
    pub canteen: Canteen,
}

/// Whether the pair is still to be scraped: its canteen is not excluded and the
/// pair is not stored yet.
pub open spec fn pending(
    day: i64,
    c: Canteen,
    persisted: Seq<WorkItem>,
    excluded: Seq<Canteen>,
) -> bool {
    !excluded.contains(c) && !persisted.contains(WorkItem { day, canteen: c })
}

/// The pending pairs of one day among the first `k` canteens, in directory order.
pub open spec fn day_row(
    day: i64,
    persisted: Seq<WorkItem>,
    excluded: Seq<Canteen>,
    k: nat,
) -> Seq<WorkItem>
    decreases k,
{
    if k == 0 {
        Seq::empty()
    } else {
        let prev = day_row(day, persisted, excluded, (k - 1) as nat);
        let c = canteen_order()[k - 1];
        if pending(day, c, persisted, excluded) {
            prev.push(WorkItem { day, canteen: c })
        } else {
            prev
        }
    }
}

/// The pending pairs of the first `n` days from `start`, day by day.
pub open spec fn planned_days(
    start: i64,
    persisted: Seq<WorkItem>,
    excluded: Seq<Canteen>,
    n: nat,
) -> Seq<WorkItem>
    decreases n,
{
    if n == 0 {
        Seq::empty()
    } else {
        planned_days(start, persisted, excluded, (n - 1) as nat) + day_row(
            (start + n - 1) as i64,
            persisted,
            excluded,
            8,
        )
    }
}

/// The work of a seven-day window that starts on `start`.
pub open spec fn planned(start: i64, persisted: Seq<WorkItem>, excluded: Seq<Canteen>) -> Seq<
    WorkItem,
> {
    planned_days(start, persisted, excluded, 7)
}

fn contains_canteen(v: &Vec<Canteen>, c: Canteen) -> (r: bool)
    ensures
        r == v@.contains(c),
{
    let mut i: usize = 0;
    while i < v.len()
        invariant
            i <= v.len(),
            forall|j: int| 0 <= j < i ==> v@[j] != c,
        decreases v.len() - i,
    {
        if v[i] == c {
            return true;
        }
        i = i + 1;
    }
    false
}

fn contains_item(v: &Vec<WorkItem>, w: WorkItem) -> (r: bool)
    ensures
        r == v@.contains(w),
{
    let mut i: usize = 0;
    while i < v.len()
        invariant
            i <= v.len(),
            forall|j: int| 0 <= j < i ==> v@[j] != w,
        decreases v.len() - i,
    {
        if v[i].day == w.day && v[i].canteen == w.canteen {
            return true;
        }
        i = i + 1;
    }
    false
}

/// Plans the scrapes of the seven days from `start_day` on: every (day,
/// canteen) pair, days first and canteens in directory order, without the
/// pairs already stored and without excluded canteens.
pub fn plan_work(start_day: i64, persisted: &Vec<WorkItem>, excluded: &Vec<Canteen>) -> (r: Vec<
    WorkItem,
>)
    requires
        start_day <= i64::MAX - 6,
    ensures
        r@ == planned(start_day, persisted@, excluded@),
{
    let canteens = Canteen::all();
    let mut out: Vec<WorkItem> = Vec::new();
    let mut n: i64 = 0;
    while n < 7
        invariant
            0 <= n <= 7,
            start_day <= i64::MAX - 6,
            canteens@ == canteen_order(),
            out@ == planned_days(start_day, persisted@, excluded@, n as nat),
        decreases 7 - n,
    {
        let day = start_day + n;
        let ghost base = out@;
        let mut k: usize = 0;
        while k < 8
            invariant
                k <= 8,
                canteens@ == canteen_order(),
                out@ == base + day_row(day, persisted@, excluded@, k as nat),
            decreases 8 - k,
        {
            let c = canteens[k];
            let item = WorkItem { day, canteen: c };
            if !contains_canteen(excluded, c) && !contains_item(persisted, item) {
                out.push(item);
            }
            assert(out@ =~= base + day_row(day, persisted@, excluded@, (k + 1) as nat));
            k = k + 1;
        }
        assert(out@ =~= planned_days(start_day, persisted@, excluded@, (n + 1) as nat));
        n = n + 1;
    }
    out
}

proof fn lemma_row_size(day: i64, done: WorkItem, skip: Canteen)
    requires
        done.canteen != skip,
    ensures
        day_row(day, seq![done], seq![skip], 8).len() == if day == done.day {
            6int
        } else {
            7int
        },
{
    assert forall|c: Canteen| #[trigger] seq![skip].contains(c) <==> c == skip by {
        if c == skip {
            assert(seq![skip][0] == skip);
        }
    }
    assert forall|w: WorkItem| #[trigger] seq![done].contains(w) <==> w == done by {
        if w == done {
            assert(seq![done][0] == done);
        }
    }
    reveal_with_fuel(day_row, 9);
}

proof fn lemma_days_size(start: i64, done: WorkItem, skip: Canteen, n: nat)
    requires
        n <= 7,
        start <= i64::MAX - 6,
        done.canteen != skip,
    ensures
        planned_days(start, seq![done], seq![skip], n).len() == 7 * n - if start <= done.day
            < start + n {
            1int
        } else {
            0int
        },
    decreases n,
{
    if n > 0 {
        lemma_days_size(start, done, skip, (n - 1) as nat);
        lemma_row_size((start + n - 1) as i64, done, skip);
    }
}

/// With one stored pair inside the window and one excluded canteen other than
/// the stored pair's, the plan holds the 8 * 7 pairs less the 7 of the
/// excluded canteen and less the stored one.
pub proof fn lemma_plan_size(start: i64, done: WorkItem, skip: Canteen)
    requires
        start <= i64::MAX - 6,
        start <= done.day <= start + 6,
        done.canteen != skip,
    ensures
        planned(start, seq![done], seq![skip]).len() == 8 * 7 - 7 - 1,
{
    lemma_days_size(start, done, skip, 7);
}

/// `s` cut at every comma.
pub open spec fn split_commas(s: Seq<char>) -> Seq<Seq<char>>
    decreases s.len(),
{
    if s.len() == 0 {
        seq![Seq::empty()]
    } else {
        let p = split_commas(s.drop_last());
        if s.last() == ',' {
            p.push(Seq::empty())
        } else {
            p.update(p.len() - 1, p.last().push(s.last()))
        }
    }
}

/// The canteens that the pieces name, in order; other pieces are skipped.
pub open spec fn named_canteens(pieces: Seq<Seq<char>>) -> Seq<Canteen>
    decreases pieces.len(),
{
    if pieces.len() == 0 {
        Seq::empty()
    } else {
        let prev = named_canteens(pieces.drop_last());
        match canteen_named(pieces.last()) {
            Some(c) => prev.push(c),
            None => prev,
        }
    }
}

proof fn lemma_split_nonempty(s: Seq<char>)
    ensures
        split_commas(s).len() >= 1,
    decreases s.len(),
{
    if s.len() > 0 {
        lemma_split_nonempty(s.drop_last());
    }
}

/// Reads a comma-separated list of canteen identifiers; pieces that name no
/// canteen are ignored.
pub fn parse_exclusions(text: &str) -> (r: Vec<Canteen>)
    ensures
        r@ == named_canteens(split_commas(text@)),
{
    let n = text.unicode_len();
    let mut out: Vec<Canteen> = Vec::new();
    let mut piece_start: usize = 0;
    let mut i: usize = 0;
    let ghost mut done: Seq<Seq<char>> = Seq::empty();
    assert(text@.take(0) =~= Seq::<char>::empty());
    assert(split_commas(text@.take(0)) =~= done.push(text@.subrange(0, 0)));
    while i < n
        invariant
            n == text@.len(),
            piece_start <= i <= n,
            split_commas(text@.take(i as int)) == done.push(text@.subrange(piece_start as int, i as int)),
            out@ == named_canteens(done),
        decreases n - i,
    {
        let c = text.get_char(i);
        let ghost cur = text@.subrange(piece_start as int, i as int);
        assert(text@.take(i + 1).drop_last() =~= text@.take(i as int));
        assert(text@.take(i + 1).last() == c);
        if c == ',' {
            let piece = text.substring_char(piece_start, i);
            match Canteen::parse_identifier(piece) {
                Ok(k) => {
                    out.push(k);
                },
                Err(_) => {},
            }
            proof {
                assert(done.push(cur).drop_last() =~= done);
                done = done.push(cur);
            }
            piece_start = i + 1;
            assert(text@.subrange(piece_start as int, i + 1) =~= Seq::<char>::empty());
        } else {
            proof {
                lemma_split_nonempty(text@.take(i as int));
            }
            assert(cur.push(c) =~= text@.subrange(piece_start as int, i + 1));
            assert(done.push(cur).update(done.len() as int, cur.push(c)) =~= done.push(
                text@.subrange(piece_start as int, i + 1),
            ));
        }
        i = i + 1;
    }
    let last = text.substring_char(piece_start, n);
    match Canteen::parse_identifier(last) {
        Ok(k) => {
            out.push(k);
        },
        Err(_) => {},
    }
    assert(text@.take(n as int) =~= text@);
    assert(done.push(last@).drop_last() =~= done);
    out
}

} // verus!
