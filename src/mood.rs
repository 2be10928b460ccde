use std::collections::HashSet;
use vstd::prelude::*;

verus! {

broadcast use vstd::std_specs::hash::group_hash_axioms;

/// A discrete rating level: 0 is the darkest, 10 the brightest.
pub type MoodValue = u8;

/// The number of mood values per day.
pub const NUMBER_OF_MOOD_VALUES_PER_DAY: u8 = 11;

/// The number of day columns of the grid (not adjusted to the month's length).
pub const NUMBER_OF_DAYS_IN_MONTH: u8 = 31;

/// The mood values recorded for one day.
#[derive(Debug)]
pub struct MoodValuesUpdate {
    pub day_of_month_index: u8,
    pub mood_values: HashSet<MoodValue>,
}

/// The set `s` with membership of `m` flipped.
pub open spec fn toggled(s: Set<u8>, m: u8) -> Set<u8> {
    if s.contains(m) {
        s.remove(m)
    } else {
        s.insert(m)
    }
}

/// Flipping the membership of one value twice gives the set back.
pub proof fn lemma_toggle_twice(s: Set<u8>, m: u8)
    ensures
        toggled(toggled(s, m), m) == s,
{
    if s.contains(m) {
        assert(toggled(toggled(s, m), m) =~= s);
    } else {
        assert(toggled(toggled(s, m), m) =~= s);
    }
}

/// Flips the membership of `m` in `s`.
pub fn toggle(s: &mut HashSet<u8>, m: u8)
    ensures
        final(s)@ == toggled(old(s)@, m),
{
    if s.contains(&m) {
        s.remove(&m);
    } else {
        s.insert(m);
    }
}

/// Relies on `HashSet::clone`: the copy holds the same values.
#[verifier::external_body]
pub(crate) fn clone_mood_values(s: &HashSet<u8>) -> (r: HashSet<u8>)
    ensures
        r@ == s@,
{
    s.clone()
}

/// The fill color of a mood value, as red, green and blue: a fixed
/// gradient from a dark red (0) to a bright yellow (10).
pub open spec fn mood_color_spec(m: u8) -> (u8, u8, u8) {
    if m == 0 {
        (55, 6, 23)
    } else if m == 1 {
        (86, 1, 29)
    } else if m == 2 {
        (118, 0, 32)
    } else if m == 3 {
        (149, 0, 30)
    } else if m == 4 {
        (180, 0, 22)
    } else if m == 5 {
        (208, 0, 0)
    } else if m == 6 {
        (216, 66, 0)
    } else if m == 7 {
        (221, 101, 0)
    } else if m == 8 {
        (224, 131, 0)
    } else if m == 9 {
        (225, 159, 0)
    } else {
        (255, 186, 8)
    }
}

/// The fill color of mood value `m`.
pub fn mood_color(m: MoodValue) -> (r: (u8, u8, u8))
    requires
        m < NUMBER_OF_MOOD_VALUES_PER_DAY,
    ensures
        r == mood_color_spec(m),
{
    if m == 0 {
        (55, 6, 23)
    } else if m == 1 {
        (86, 1, 29)
    } else if m == 2 {
        (118, 0, 32)
    } else if m == 3 {
        (149, 0, 30)
    } else if m == 4 {
        (180, 0, 22)
    } else if m == 5 {
        (208, 0, 0)
    } else if m == 6 {
        (216, 66, 0)
    } else if m == 7 {
        (221, 101, 0)
    } else if m == 8 {
        (224, 131, 0)
    } else if m == 9 {
        (225, 159, 0)
    } else {
        (255, 186, 8)
    }
}

/// The color of the grid lines and of the month labels.
pub const GRID_COLOR: (u8, u8, u8) = (100, 100, 100);

} // verus!
