use crate::layout::{
    cell_at, cell_at_spec, cell_center, layout, lemma_cell_center_hits_cell,
    lemma_cell_index_in_range, mood_cells_area, valid_coordinate, valid_width,
    widget_rectangle, Rect, MOOD_WIDGET_HEIGHT,
};
use crate::mood::{
    clone_mood_values, lemma_toggle_twice, toggle, toggled, MoodValue, MoodValuesUpdate, NUMBER_OF_DAYS_IN_MONTH,
    NUMBER_OF_MOOD_VALUES_PER_DAY,
};
use std::collections::HashSet;
use vstd::prelude::*;

verus! {

broadcast use vstd::std_specs::hash::group_hash_axioms;

/// The identifier of a widget.
pub type WidgetId = usize;

/// A command that the mood widget rejects.
#[derive(Clone, Copy, Debug, PartialEq, Eq, Structural)]
pub enum MoodWidgetError {
    /// The widget and the day-of-month index, not below the number of days.
    DayOfMonthIndexOutOfRange(WidgetId, u8),
}

/// Relies on `chrono::Local::now` and `Datelike::day0`: the zero-based day of
/// the month of the local date, which `day0` documents to range from 0 to 30.
#[verifier::external_body]
fn local_day_of_month_index() -> (r: u8)
    ensures
        r < 31,
{
    chrono::Datelike::day0(&chrono::Local::now().date_naive()) as u8
}

/// All days without any mood value.
pub open spec fn empty_days() -> Seq<Set<u8>> {
    Seq::new(31, |d: int| Set::<u8>::empty())
}

/// A cell to fill: its day is in the grid, and its mood value is recorded
/// for that day and has a color.
pub open spec fn is_filled(days: Seq<Set<u8>>, c: (u8, u8)) -> bool {
    c.0 < 31 && c.1 < 11 && days[c.0 as int].contains(c.1)
}

/// Cells in the order they are painted: by day, then by mood value.
pub open spec fn paint_rank(c: (u8, u8)) -> int {
    c.0 as int * 11 + c.1 as int
}

/// The mood values of each day after a pointer press at `(x, y)` on grid
/// area `a`: the pressed cell's mood value is toggled for its day.
pub open spec fn pressed(days: Seq<Set<u8>>, a: Rect, x: int, y: int) -> Seq<Set<u8>> {
    match cell_at_spec(a, x, y) {
        None => days,
        Some((d, m)) => days.update(d, toggled(days[d], m as u8)),
    }
}

/// Two presses at the same point leave every day's mood values as they were.
pub proof fn lemma_press_twice_restores(days: Seq<Set<u8>>, a: Rect, x: int, y: int)
    requires
        days.len() == 31,
        a.x0 <= a.x1,
        a.y0 <= a.y1,
    ensures
        pressed(pressed(days, a, x, y), a, x, y) == days,
{
    match cell_at_spec(a, x, y) {
        None => {},
        Some((d, m)) => {
            lemma_cell_index_in_range(x - a.x0, a.x1 - a.x0, 31);
            lemma_cell_index_in_range(y - a.y0, a.y1 - a.y0, 11);
            lemma_toggle_twice(days[d], m as u8);
            assert(pressed(pressed(days, a, x, y), a, x, y) =~= days);
        },
    }
}

/// Pressing the center of the cell of day `d` and mood value `m` toggles
/// exactly that cell, and pressing it twice gives the first values back,
/// when cells are at least two units wide and high.
pub proof fn lemma_cell_center_press_twice_restores(days: Seq<Set<u8>>, a: Rect, d: int, m: int)
    requires
        days.len() == 31,
        0 <= d < 31,
        0 <= m < 11,
        a.x1 - a.x0 >= 62,
        a.y1 - a.y0 >= 22,
    ensures
        pressed(days, a, cell_center(a, d, m).0, cell_center(a, d, m).1) == days.update(
            d,
            toggled(days[d], m as u8),
        ),
        pressed(
            pressed(days, a, cell_center(a, d, m).0, cell_center(a, d, m).1),
            a,
            cell_center(a, d, m).0,
            cell_center(a, d, m).1,
        ) == days,
{
    lemma_cell_center_hits_cell(a, d, m);
    lemma_press_twice_restores(days, a, cell_center(a, d, m).0, cell_center(a, d, m).1);
}

/// A widget that records mood values for each day of a month on a grid of
/// 31 day columns and 11 mood rows.
pub struct MoodWidget {
    widget_id: WidgetId,
    day_of_month_index_today: u8,
    debug_rendering: bool,
    origin_x: i64,
    origin_y: i64,
    maximum_width: i64,
    rectangle: Rect,
    mood_cells_area_rectangle: Rect,
    mood_values_per_day_of_month_index: Vec<HashSet<MoodValue>>,
}

impl MoodWidget {
    /// The mood values of each day.
    pub closed spec fn days(&self) -> Seq<Set<u8>> {
        self.mood_values_per_day_of_month_index@.map_values(|s: HashSet<u8>| s@)
    }

    pub closed spec fn id(&self) -> WidgetId {
        self.widget_id
    }

    pub closed spec fn today(&self) -> u8 {
        self.day_of_month_index_today
    }

    pub closed spec fn debug(&self) -> bool {
        self.debug_rendering
    }

    /// The origin and the width last applied.
    pub closed spec fn placement(&self) -> (i64, i64, i64) {
        (self.origin_x, self.origin_y, self.maximum_width)
    }

    pub closed spec fn rect(&self) -> Rect {
        self.rectangle
    }

    pub closed spec fn area(&self) -> Rect {
        self.mood_cells_area_rectangle
    }

    /// Exactly 31 days, today among them, and the geometry derived from the
    /// last origin and width.
    pub closed spec fn wf(&self) -> bool {
        &&& self.mood_values_per_day_of_month_index@.len() == 31
        &&& self.day_of_month_index_today < 31
        &&& valid_coordinate(self.origin_x)
        &&& valid_coordinate(self.origin_y)
        &&& valid_width(self.maximum_width)
        &&& self.rectangle == widget_rectangle(self.origin_x, self.origin_y, self.maximum_width)
        &&& self.mood_cells_area_rectangle == mood_cells_area(self.rectangle)
    }

    /// The geometry seen from outside.
    pub open spec fn laid_out(&self) -> bool {
        &&& self.rect() == widget_rectangle(self.placement().0, self.placement().1, self.placement().2)
        &&& self.area() == mood_cells_area(self.rect())
        &&& self.area().within(self.rect())
        &&& valid_coordinate(self.placement().0)
        &&& valid_coordinate(self.placement().1)
        &&& valid_width(self.placement().2)
    }

    proof fn lemma_laid_out(&self)
        requires
            self.wf(),
        ensures
            self.laid_out(),
            self.days().len() == 31,
            crate::layout::valid_area(self.area()),
    {
    }

    /// A widget with no mood values, at the origin with no width, that
    /// highlights the day of month `day_of_month_index_today`.
    pub fn new(widget_id: WidgetId, day_of_month_index_today: u8) -> (r: Self)
        requires
            day_of_month_index_today < NUMBER_OF_DAYS_IN_MONTH,
        ensures
            r.wf(),
            r.days() == empty_days(),
            r.id() == widget_id,
            r.today() == day_of_month_index_today,
            !r.debug(),
            r.placement() == (0i64, 0i64, 0i64),
    {
        let mut days: Vec<HashSet<MoodValue>> = Vec::new();
        let mut i: u8 = 0;
        while i < NUMBER_OF_DAYS_IN_MONTH
            invariant
                i <= 31,
                days@.len() == i,
                forall|d: int| 0 <= d < i ==> (#[trigger] days@[d])@ == Set::<u8>::empty(),
            decreases 31 - i,
        {
            days.push(HashSet::new());
            i = i + 1;
        }
        let (rectangle, area) = layout(0, 0, 0);
        let r = MoodWidget {
            widget_id,
            day_of_month_index_today,
            debug_rendering: false,
            origin_x: 0,
            origin_y: 0,
            maximum_width: 0,
            rectangle,
            mood_cells_area_rectangle: area,
            mood_values_per_day_of_month_index: days,
        };
        assert(r.days() =~= empty_days());
        r
    }

    /// A widget with no mood values that highlights today's day of month,
    /// as the local clock gives it.
    pub fn new_today(widget_id: WidgetId) -> (r: Self)
        ensures
            r.wf(),
            r.days() == empty_days(),
            r.id() == widget_id,
            r.today() < 31,
            !r.debug(),
    {
        MoodWidget::new(widget_id, local_day_of_month_index())
    }

    fn relayout(&mut self)
        requires
            old(self).mood_values_per_day_of_month_index@.len() == 31,
            old(self).day_of_month_index_today < 31,
            valid_coordinate(old(self).origin_x),
            valid_coordinate(old(self).origin_y),
            valid_width(old(self).maximum_width),
        ensures
            final(self).wf(),
            final(self).days() == old(self).days(),
            final(self).id() == old(self).id(),
            final(self).today() == old(self).today(),
            final(self).debug() == old(self).debug(),
            final(self).placement() == old(self).placement(),
    {
        let (rectangle, area) = layout(self.origin_x, self.origin_y, self.maximum_width);
        self.rectangle = rectangle;
        self.mood_cells_area_rectangle = area;
    }

    /// Takes the full maximum width and the fixed height, and lays out the
    /// grid for that size. Returns the chosen width and height.
    pub fn apply_size_constraints(&mut self, maximum_width: i64) -> (r: (i64, i64))
        requires
            old(self).wf(),
            valid_width(maximum_width),
        ensures
            final(self).wf(),
            final(self).laid_out(),
            r == (maximum_width, MOOD_WIDGET_HEIGHT),
            final(self).placement() == (old(self).placement().0, old(self).placement().1, maximum_width),
            final(self).rect().x1 - final(self).rect().x0 == maximum_width,
            final(self).rect().y1 - final(self).rect().y0 == MOOD_WIDGET_HEIGHT,
            final(self).days() == old(self).days(),
            final(self).id() == old(self).id(),
            final(self).today() == old(self).today(),
            final(self).debug() == old(self).debug(),
    {
        self.maximum_width = maximum_width;
        self.relayout();
        proof { self.lemma_laid_out(); }
        (maximum_width, MOOD_WIDGET_HEIGHT)
    }

    /// Moves the widget to origin `(x, y)` and lays out the grid there.
    pub fn set_origin(&mut self, x: i64, y: i64)
        requires
            old(self).wf(),
            valid_coordinate(x),
            valid_coordinate(y),
        ensures
            final(self).wf(),
            final(self).laid_out(),
            final(self).placement() == (x, y, old(self).placement().2),
            final(self).days() == old(self).days(),
            final(self).id() == old(self).id(),
            final(self).today() == old(self).today(),
            final(self).debug() == old(self).debug(),
    {
        self.origin_x = x;
        self.origin_y = y;
        self.relayout();
        proof { self.lemma_laid_out(); }
    }

    /// Replaces the mood values of the update's day with its values; a day
    /// outside the grid is rejected and nothing changes.
    pub fn handle_command(&mut self, update: &MoodValuesUpdate) -> (r: Result<(), MoodWidgetError>)
        requires
            old(self).wf(),
        ensures
            final(self).wf(),
            final(self).id() == old(self).id(),
            final(self).today() == old(self).today(),
            final(self).debug() == old(self).debug(),
            final(self).placement() == old(self).placement(),
            final(self).rect() == old(self).rect(),
            final(self).area() == old(self).area(),
            update.day_of_month_index < 31 ==> {
                &&& r is Ok
                &&& final(self).days() == old(self).days().update(
                    update.day_of_month_index as int,
                    update.mood_values@,
                )
            },
            update.day_of_month_index >= 31 ==> {
                &&& r == Err::<(), MoodWidgetError>(
                    MoodWidgetError::DayOfMonthIndexOutOfRange(
                        old(self).id(),
                        update.day_of_month_index,
                    ),
                )
                &&& final(self).days() == old(self).days()
            },
    {
        if update.day_of_month_index < NUMBER_OF_DAYS_IN_MONTH {
            let values = clone_mood_values(&update.mood_values);
            self.mood_values_per_day_of_month_index.set(update.day_of_month_index as usize, values);
            proof {
                assert(self.days() =~= old(self).days().update(
                    update.day_of_month_index as int,
                    update.mood_values@,
                ));
            }
            Ok(())
        } else {
            Err(MoodWidgetError::DayOfMonthIndexOutOfRange(self.widget_id, update.day_of_month_index))
        }
    }

    /// Removes every mood value of every day.
    pub fn clear(&mut self)
        requires
            old(self).wf(),
        ensures
            final(self).wf(),
            final(self).days() == empty_days(),
            final(self).id() == old(self).id(),
            final(self).today() == old(self).today(),
            final(self).debug() == old(self).debug(),
            final(self).placement() == old(self).placement(),
            final(self).rect() == old(self).rect(),
            final(self).area() == old(self).area(),
    {
        let mut i: usize = 0;
        while i < 31
            invariant
                self.wf(),
                i <= 31,
                self.id() == old(self).id(),
                self.today() == old(self).today(),
                self.debug() == old(self).debug(),
                self.placement() == old(self).placement(),
                self.rect() == old(self).rect(),
                self.area() == old(self).area(),
                forall|d: int| 0 <= d < i ==> (#[trigger] self.days()[d]) == Set::<u8>::empty(),
            decreases 31 - i,
        {
            let ghost before = self.days();
            self.mood_values_per_day_of_month_index.set(i, HashSet::new());
            assert(self.days() =~= before.update(i as int, Set::<u8>::empty()));
            i = i + 1;
        }
        assert(self.days() =~= empty_days());
    }

    /// A pointer press at `(x, y)`: outside the grid area nothing happens;
    /// inside, the mood value of the cell under it is toggled for the
    /// cell's day, and the day's new values are returned.
    pub fn handle_mouse_down(&mut self, x: i64, y: i64) -> (r: Option<MoodValuesUpdate>)
        requires
            old(self).wf(),
        ensures
            final(self).wf(),
            final(self).id() == old(self).id(),
            final(self).today() == old(self).today(),
            final(self).debug() == old(self).debug(),
            final(self).placement() == old(self).placement(),
            final(self).rect() == old(self).rect(),
            final(self).area() == old(self).area(),
            final(self).days() == pressed(old(self).days(), old(self).area(), x as int, y as int),
            match cell_at_spec(old(self).area(), x as int, y as int) {
                None => r.is_none(),
                Some((d, m)) => {
                    &&& 0 <= d < 31
                    &&& 0 <= m < 11
                    &&& final(self).days() == old(self).days().update(
                        d,
                        toggled(old(self).days()[d], m as u8),
                    )
                    &&& r is Some
                    &&& r->0.day_of_month_index == d
                    &&& r->0.mood_values@ == final(self).days()[d]
                },
            },
    {
        proof { self.lemma_laid_out(); }
        match cell_at(&self.mood_cells_area_rectangle, x, y) {
            None => None,
            Some((day, mood)) => {
                let mut values = clone_mood_values(&self.mood_values_per_day_of_month_index[day as usize]);
                toggle(&mut values, mood);
                let notified = clone_mood_values(&values);
                self.mood_values_per_day_of_month_index.set(day as usize, values);
                proof {
                    assert(self.days() =~= old(self).days().update(
                        day as int,
                        toggled(old(self).days()[day as int], mood),
                    ));
                }
                Some(MoodValuesUpdate { day_of_month_index: day, mood_values: notified })
            },
        }
    }

    /// The mood values of day `day_of_month_index`.
    pub fn mood_values(&self, day_of_month_index: u8) -> (r: &HashSet<MoodValue>)
        requires
            self.wf(),
            day_of_month_index < NUMBER_OF_DAYS_IN_MONTH,
        ensures
            r@ == self.days()[day_of_month_index as int],
    {
        &self.mood_values_per_day_of_month_index[day_of_month_index as usize]
    }

    /// The cells to fill, as day and mood value, by day and then by mood
    /// value: each recorded mood value that has a color.
    pub fn filled_cells(&self) -> (r: Vec<(u8, u8)>)
        requires
            self.wf(),
        ensures
            forall|c: (u8, u8)| r@.contains(c) <==> is_filled(self.days(), c),
            forall|i: int, j: int|
                0 <= i < j < r@.len() ==> paint_rank(#[trigger] r@[i]) < paint_rank(#[trigger] r@[j]),
    {
        let mut r: Vec<(u8, u8)> = Vec::new();
        let mut d: u8 = 0;
        while d < NUMBER_OF_DAYS_IN_MONTH
            invariant
                self.wf(),
                d <= 31,
                forall|c: (u8, u8)|
                    r@.contains(c) <==> (is_filled(self.days(), c) && paint_rank(c) < d * 11),
                forall|i: int| 0 <= i < r@.len() ==> paint_rank(#[trigger] r@[i]) < d * 11,
                forall|i: int, j: int|
                    0 <= i < j < r@.len() ==> paint_rank(#[trigger] r@[i]) < paint_rank(#[trigger] r@[j]),
            decreases 31 - d,
        {
            let values = &self.mood_values_per_day_of_month_index[d as usize];
            let mut m: u8 = 0;
            while m < NUMBER_OF_MOOD_VALUES_PER_DAY
                invariant
                    self.wf(),
                    d < 31,
                    m <= 11,
                    values@ == self.days()[d as int],
                    forall|c: (u8, u8)|
                        r@.contains(c) <==> (is_filled(self.days(), c) && paint_rank(c) < d * 11 + m),
                    forall|i: int| 0 <= i < r@.len() ==> paint_rank(#[trigger] r@[i]) < d * 11 + m,
                    forall|i: int, j: int|
                        0 <= i < j < r@.len() ==> paint_rank(#[trigger] r@[i]) < paint_rank(#[trigger] r@[j]),
                decreases 11 - m,
            {
                if values.contains(&m) {
                    let ghost before = r@;
                    r.push((d, m));
                    proof {
                        assert forall|c: (u8, u8)|
                            r@.contains(c) <==> (is_filled(self.days(), c) && paint_rank(c) < d * 11 + m + 1) by {
                            if c == (d, m) {
                                assert(r@[before.len() as int] == c);
                            } else if before.contains(c) {
                                let k = choose|k: int| 0 <= k < before.len() && before[k] == c;
                                assert(r@[k] == c);
                            } else if r@.contains(c) {
                                let k = choose|k: int| 0 <= k < r@.len() && r@[k] == c;
                                assert(k < before.len() ==> before[k] == c);
                            }
                            if is_filled(self.days(), c) && paint_rank(c) == d * 11 + m {
                                assert(c.0 == d && c.1 == m);
                            }
                        }
                    }
                } else {
                    proof {
                        assert forall|c: (u8, u8)|
                            r@.contains(c) <==> (is_filled(self.days(), c) && paint_rank(c) < d * 11 + m + 1) by {
                            if is_filled(self.days(), c) && paint_rank(c) == d * 11 + m {
                                assert(c.0 == d && c.1 == m);
                            }
                        }
                    }
                }
                m = m + 1;
            }
            d = d + 1;
        }
        r
    }

    /// Turns debug rendering of the widget's outline on or off.
    pub fn set_debug_rendering(&mut self, debug_rendering: bool)
        requires
            old(self).wf(),
        ensures
            final(self).wf(),
            final(self).debug() == debug_rendering,
            final(self).days() == old(self).days(),
            final(self).id() == old(self).id(),
            final(self).today() == old(self).today(),
            final(self).placement() == old(self).placement(),
            final(self).rect() == old(self).rect(),
            final(self).area() == old(self).area(),
    {
        self.debug_rendering = debug_rendering;
    }

    pub fn debug_rendering(&self) -> (r: bool)
        ensures
            r == self.debug(),
    {
        self.debug_rendering
    }

    /// The widget's bounding rectangle.
    pub fn rectangle(&self) -> (r: Rect)
        ensures
            r == self.rect(),
    {
        self.rectangle
    }

    /// The grid area: the bounding rectangle below the month labels.
    pub fn mood_cells_area_rectangle(&self) -> (r: Rect)
        ensures
            r == self.area(),
    {
        self.mood_cells_area_rectangle
    }

    pub fn widget_id(&self) -> (r: WidgetId)
        ensures
            r == self.id(),
    {
        self.widget_id
    }

    /// The highlighted day of month, whose column shows the mood value labels.
    pub fn day_of_month_index_today(&self) -> (r: u8)
        ensures
            r == self.today(),
    {
        self.day_of_month_index_today
    }
}

} // verus!
