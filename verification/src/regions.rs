//! The table of landmark regions and the weighted choice among them.
//!
//! Coordinates, radii and weights are whole numbers of hundredths, so the
//! table is exact and the choice is a walk over integers.

use vstd::prelude::*;
use vstd::set_lib::lemma_int_range;
use vstd::set_lib::set_int_range;

verus! {

/// A disc of the complex plane that is known to hold fine detail.
/// All four fields are hundredths.
#[derive(Clone, Copy, Debug, PartialEq, Eq, Structural)]
pub struct Region {
    pub center_re: i32,
    pub center_im: i32,
    pub radius: u32,
    pub weight: u32,
}

/// Number of landmark regions.
pub const REGION_COUNT: usize = 10;

/// Sum of the weights of the landmark regions: tickets are drawn below it.
pub const TOTAL_WEIGHT: u32 = 100;

/// Radius, in hundredths, below which a region counts as small.
pub const SMALL_RADIUS: u32 = 5;

/// Zoom factor of a small region.
pub const SMALL_REGION_ZOOM: u32 = 100_000;

/// Zoom factor of every other region.
pub const WIDE_REGION_ZOOM: u32 = 10_000;

/// Least random multiplier applied to the zoom of a chosen region, in tenths.
pub const ZOOM_SPREAD_MIN: u32 = 1;

/// Greatest random multiplier applied to the zoom of a chosen region, in tenths.
pub const ZOOM_SPREAD_MAX: u32 = 100;

/// Least zoom used with the fallback region.
pub const FALLBACK_ZOOM_MIN: u32 = 1_000;

/// Greatest zoom used with the fallback region.
pub const FALLBACK_ZOOM_MAX: u32 = 100_000;

/// The landmark regions.
pub open spec fn landmark_table() -> Seq<Region> {
    seq![
        Region { center_re: -75i32, center_im: 10, radius: 10, weight: 20 },
        Region { center_re: -16i32, center_im: 100, radius: 5, weight: 10 },
        Region { center_re: -77i32, center_im: 8, radius: 20, weight: 15 },
        Region { center_re: -125i32, center_im: 0, radius: 20, weight: 10 },
        Region { center_re: -175i32, center_im: 0, radius: 5, weight: 5 },
        Region { center_re: -90i32, center_im: 27, radius: 13, weight: 10 },
        Region { center_re: -12i32, center_im: 74, radius: 2, weight: 5 },
        Region { center_re: 20, center_im: 56, radius: 2, weight: 10 },
        Region { center_re: -140i32, center_im: 0, radius: 10, weight: 5 },
        Region { center_re: -50i32, center_im: 56, radius: 5, weight: 10 },
    ]
}

/// The region used when a ticket falls past the end of the table. Its weight
/// is 0: no ticket selects it.
pub open spec fn fallback() -> Region {
    Region { center_re: -75i32, center_im: 10, radius: 10, weight: 0 }
}

/// Sum of the weights of the first `index` entries.
pub open spec fn weight_before(table: Seq<Region>, index: int) -> int
    decreases index,
{
    if index <= 0 {
        0
    } else {
        weight_before(table, index - 1) + table[index - 1].weight
    }
}

/// Whether `ticket` falls within the stretch of entry `index`, which starts
/// where the entries before it end and is as long as its weight.
pub open spec fn owns_ticket(table: Seq<Region>, index: int, ticket: int) -> bool {
    &&& 0 <= index < table.len()
    &&& weight_before(table, index) <= ticket < weight_before(table, index) + table[index].weight
}

/// The zoom factor for a radius in hundredths.
pub open spec fn zoom_factor_of(radius: u32) -> u32 {
    if radius < SMALL_RADIUS {
        SMALL_REGION_ZOOM
    } else {
        WIDE_REGION_ZOOM
    }
}

/// The landmark regions, in table order.
pub fn interesting_regions() -> (table: [Region; 10])
    ensures
        table@ == landmark_table(),
{
    let table = [
        Region { center_re: -75, center_im: 10, radius: 10, weight: 20 },
        Region { center_re: -16, center_im: 100, radius: 5, weight: 10 },
        Region { center_re: -77, center_im: 8, radius: 20, weight: 15 },
        Region { center_re: -125, center_im: 0, radius: 20, weight: 10 },
        Region { center_re: -175, center_im: 0, radius: 5, weight: 5 },
        Region { center_re: -90, center_im: 27, radius: 13, weight: 10 },
        Region { center_re: -12, center_im: 74, radius: 2, weight: 5 },
        Region { center_re: 20, center_im: 56, radius: 2, weight: 10 },
        Region { center_re: -140, center_im: 0, radius: 10, weight: 5 },
        Region { center_re: -50, center_im: 56, radius: 5, weight: 10 },
    ];
    assert(table@ =~= landmark_table());
    table
}

/// The region used when no entry of the table is selected.
pub fn fallback_region() -> (region: Region)
    ensures
        region == fallback(),
{
    Region { center_re: -75, center_im: 10, radius: 10, weight: 0 }
}

/// Walks the table, taking each entry's weight off the ticket until the rest
/// falls within an entry. Returns `None` when the ticket is past the end.
pub fn pick_region(table: &[Region], ticket: u32) -> (picked: Option<usize>)
    ensures
        match picked {
            Some(index) => owns_ticket(table@, index as int, ticket as int),
            None => ticket >= weight_before(table@, table@.len() as int),
        },
{
    let mut choice: u32 = ticket;
    let mut i: usize = 0;
    while i < table.len()
        invariant
            i <= table.len(),
            choice == ticket - weight_before(table@, i as int),
        decreases table.len() - i,
    {
        let weight: u32 = table[i].weight;
        if choice < weight {
            return Some(i);
        }
        choice -= weight;
        i += 1;
    }
    None
}

/// The zoom factor of a region: small regions are zoomed into ten times further.
pub fn zoom_factor(radius: u32) -> (factor: u32)
    ensures
        factor == zoom_factor_of(radius),
        factor > 0,
{
    if radius < SMALL_RADIUS {
        SMALL_REGION_ZOOM
    } else {
        WIDE_REGION_ZOOM
    }
}

/// Chooses a landmark region by ticket. Tickets below `TOTAL_WEIGHT` select
/// the entry whose stretch they fall in; any other ticket selects nothing.
pub fn find_interesting_region(ticket: u32) -> (found: Option<Region>)
    ensures
        found.is_some() <==> ticket < TOTAL_WEIGHT,
        match found {
            Some(region) => exists|index: int|
                owns_ticket(landmark_table(), index, ticket as int) && region
                    == #[trigger] landmark_table()[index],
            None => true,
        },
{
    let table = interesting_regions();
    proof {
        lemma_table_weights();
    }
    match pick_region(table.as_slice(), ticket) {
        Some(index) => {
            proof {
                lemma_weight_before_grows(landmark_table(), index as int + 1, REGION_COUNT as int);
            }
            Some(table[index])
        },
        None => None,
    }
}

/// Prefix sums of weights do not shrink.
pub proof fn lemma_weight_before_grows(table: Seq<Region>, low: int, high: int)
    requires
        0 <= low <= high,
    ensures
        weight_before(table, low) <= weight_before(table, high),
    decreases high - low,
{
    if low < high {
        lemma_weight_before_grows(table, low, high - 1);
    }
}

/// A ticket selects at most one entry.
pub proof fn lemma_one_owner(table: Seq<Region>, first: int, second: int, ticket: int)
    requires
        owns_ticket(table, first, ticket),
        owns_ticket(table, second, ticket),
    ensures
        first == second,
{
    if first < second {
        lemma_weight_before_grows(table, first + 1, second);
    } else if second < first {
        lemma_weight_before_grows(table, second + 1, first);
    }
}

/// The weights of the landmark table add up to `TOTAL_WEIGHT`, and every
/// entry has a positive weight and a positive radius.
pub proof fn lemma_table_weights()
    ensures
        landmark_table().len() == REGION_COUNT,
        weight_before(landmark_table(), REGION_COUNT as int) == TOTAL_WEIGHT,
        forall|i: int|
            0 <= i < REGION_COUNT ==> (#[trigger] landmark_table()[i]).weight > 0
                && landmark_table()[i].radius > 0,
{
    let t = landmark_table();
    reveal_with_fuel(weight_before, 11);
    assert(weight_before(t, 10) == 100);
}

/// The tickets that select entry `index`.
pub open spec fn tickets_of(table: Seq<Region>, index: int) -> Set<int> {
    Set::new(|ticket: int| owns_ticket(table, index, ticket))
}

/// Every ticket below `TOTAL_WEIGHT` selects a landmark.
pub proof fn lemma_every_ticket_selects(ticket: int)
    requires
        0 <= ticket < TOTAL_WEIGHT,
    ensures
        exists|index: int| owns_ticket(landmark_table(), index, ticket),
{
    lemma_table_weights();
    lemma_owner_exists(landmark_table(), REGION_COUNT as int, ticket);
}

/// Each landmark is selected by as many tickets as its weight, all of them
/// below `TOTAL_WEIGHT`: a ticket drawn evenly below `TOTAL_WEIGHT` selects a
/// landmark with the probability that its weight declares.
pub proof fn lemma_ticket_share(index: int)
    requires
        0 <= index < REGION_COUNT,
    ensures
        tickets_of(landmark_table(), index).finite(),
        tickets_of(landmark_table(), index).len() == landmark_table()[index].weight,
        forall|ticket: int| #[trigger]
            tickets_of(landmark_table(), index).contains(ticket) ==> 0 <= ticket < TOTAL_WEIGHT,
{
    let t = landmark_table();
    lemma_table_weights();
    lemma_weight_before_grows(t, 0, index);
    lemma_weight_before_grows(t, index + 1, REGION_COUNT as int);
    let start = weight_before(t, index);
    let end = start + t[index].weight;
    lemma_int_range(start, end);
    assert(tickets_of(t, index) =~= set_int_range(start, end));
}

/// A ticket below the sum of the first `upto` weights falls within one of
/// those entries.
pub proof fn lemma_owner_exists(table: Seq<Region>, upto: int, ticket: int)
    requires
        0 <= upto <= table.len(),
        0 <= ticket < weight_before(table, upto),
    ensures
        exists|index: int| 0 <= index < upto && owns_ticket(table, index, ticket),
    decreases upto,
{
    if upto > 0 {
        if ticket >= weight_before(table, upto - 1) {
            assert(owns_ticket(table, upto - 1, ticket));
        } else {
            lemma_owner_exists(table, upto - 1, ticket);
            let index = choose|index: int|
                0 <= index < upto - 1 && owns_ticket(table, index, ticket);
            assert(0 <= index < upto && owns_ticket(table, index, ticket));
        }
    }
}

} // verus!
