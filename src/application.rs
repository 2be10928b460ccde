use crate::mood::{clone_mood_values, toggled, MoodValue, MoodValuesUpdate};
use crate::widget::WidgetId;
use std::collections::{HashMap, HashSet};
use vstd::prelude::*;

verus! {

broadcast use vstd::std_specs::hash::group_hash_axioms;

/// The persisted data: the mood values of each day that has any.
#[derive(Debug)]
pub struct ApplicationData {
    pub mood_per_day: HashMap<u8, HashSet<MoodValue>>,
}

impl ApplicationData {
    /// The mood values of each day, as sets.
    pub open spec fn moods(&self) -> Map<u8, Set<u8>> {
        self.mood_per_day@.map_values(|s: HashSet<u8>| s@)
    }

    /// No day holds an empty set.
    pub open spec fn no_empty_entries(&self) -> bool {
        forall|d: u8| #[trigger] self.moods().contains_key(d) ==> !self.moods()[d].is_empty()
    }

    /// No mood values for any day.
    pub fn new() -> (r: Self)
        ensures
            r.moods() == Map::<u8, Set<u8>>::empty(),
            r.no_empty_entries(),
    {
        let r = ApplicationData { mood_per_day: HashMap::new() };
        assert(r.moods() =~= Map::<u8, Set<u8>>::empty());
        r
    }
}

/// The persisted mapping after the mood values of `day` became `values`:
/// an empty set removes the day's entry, any other set replaces it.
pub open spec fn applied(data: Map<u8, Set<u8>>, day: u8, values: Set<u8>) -> Map<u8, Set<u8>> {
    if values.is_empty() {
        data.remove(day)
    } else {
        data.insert(day, values)
    }
}

/// An event that reaches the application.
#[derive(Debug)]
pub enum ApplicationEvent {
    /// The window was asked to close.
    RequestClose,
    /// A button was clicked.
    Clicked(WidgetId),
    /// A widget reported new mood values for a day.
    ValueChanged(WidgetId, MoodValuesUpdate),
}

/// What the application asks its surroundings to do after an event.
#[derive(Clone, Copy, Debug, PartialEq, Eq, Structural)]
pub enum ApplicationAction {
    Nothing,
    /// Save the data if it is dirty, then end the process.
    SaveAndQuit,
    /// Remove every mood value from the mood widget.
    ClearMoodWidget,
}

/// The application's data and the identifiers of the widgets it listens to.
pub struct ApplicationState {
    application_data: ApplicationData,
    clear_button: WidgetId,
    close_button: WidgetId,
    widget_mood: WidgetId,
    there_is_unsaved_data: bool,
}

impl ApplicationState {
    pub closed spec fn moods(&self) -> Map<u8, Set<u8>> {
        self.application_data.moods()
    }

    pub closed spec fn dirty(&self) -> bool {
        self.there_is_unsaved_data
    }

    /// The clear button, the close button and the mood widget.
    pub closed spec fn ids(&self) -> (WidgetId, WidgetId, WidgetId) {
        (self.clear_button, self.close_button, self.widget_mood)
    }

    pub closed spec fn wf(&self) -> bool {
        self.application_data.no_empty_entries()
    }

    /// Empty data, nothing unsaved.
    pub fn new(clear_button: WidgetId, close_button: WidgetId, widget_mood: WidgetId) -> (r: Self)
        ensures
            r.wf(),
            r.moods() == Map::<u8, Set<u8>>::empty(),
            !r.dirty(),
            r.ids() == (clear_button, close_button, widget_mood),
    {
        ApplicationState {
            application_data: ApplicationData::new(),
            clear_button,
            close_button,
            widget_mood,
            there_is_unsaved_data: false,
        }
    }

    /// Replaces the data wholesale with loaded data, which then counts as
    /// saved, and returns one update per day of it, by ascending day, to
    /// hand to the mood widget.
    pub fn load_application_data(&mut self, data: ApplicationData) -> (r: Vec<MoodValuesUpdate>)
        ensures
            final(self).moods() == data.moods(),
            !final(self).dirty(),
            final(self).ids() == old(self).ids(),
            data.no_empty_entries() ==> final(self).wf(),
            forall|i: int|
                0 <= i < r@.len() ==> {
                    &&& data.moods().contains_key(#[trigger] r@[i].day_of_month_index)
                    &&& r@[i].mood_values@ == data.moods()[r@[i].day_of_month_index]
                },
            forall|i: int, j: int|
                0 <= i < j < r@.len() ==> #[trigger] r@[i].day_of_month_index
                    < #[trigger] r@[j].day_of_month_index,
            forall|d: u8|
                #[trigger] data.moods().contains_key(d) ==> exists|i: int|
                    0 <= i < r@.len() && #[trigger] r@[i].day_of_month_index == d,
    {
        let mut updates: Vec<MoodValuesUpdate> = Vec::new();
        let mut k: u16 = 0;
        while k < 256
            invariant
                k <= 256,
                forall|i: int|
                    0 <= i < updates@.len() ==> {
                        &&& data.moods().contains_key(#[trigger] updates@[i].day_of_month_index)
                        &&& updates@[i].mood_values@ == data.moods()[updates@[i].day_of_month_index]
                        &&& updates@[i].day_of_month_index < k
                    },
                forall|i: int, j: int|
                    0 <= i < j < updates@.len() ==> #[trigger] updates@[i].day_of_month_index
                        < #[trigger] updates@[j].day_of_month_index,
                forall|d: u8|
                    #[trigger] data.moods().contains_key(d) && d < k ==> exists|i: int|
                        0 <= i < updates@.len() && #[trigger] updates@[i].day_of_month_index == d,
            decreases 256 - k,
        {
            let day = k as u8;
            match data.mood_per_day.get(&day) {
                Some(values) => {
                    let update = MoodValuesUpdate {
                        day_of_month_index: day,
                        mood_values: clone_mood_values(values),
                    };
                    let ghost before = updates@;
                    updates.push(update);
                    proof {
                        let last = updates@.len() - 1;
                        assert(updates@[last].day_of_month_index == day);
                        assert forall|d: u8|
                            #[trigger] data.moods().contains_key(d) && d < k + 1 implies exists|i: int|
                                0 <= i < updates@.len() && #[trigger] updates@[i].day_of_month_index
                                    == d by {
                            if d < k {
                                let i = choose|i: int|
                                    0 <= i < before.len() && #[trigger] before[i].day_of_month_index
                                        == d;
                                assert(updates@[i] == before[i]);
                            } else {
                                assert(updates@[last].day_of_month_index == d);
                            }
                        }
                    }
                },
                None => {
                    assert(!data.moods().contains_key(day));
                },
            }
            k = k + 1;
        }
        self.application_data = data;
        self.there_is_unsaved_data = false;
        updates
    }

    /// Mirrors new mood values of a day into the data and marks it unsaved.
    fn apply_update(&mut self, update: MoodValuesUpdate)
        ensures
            old(self).wf() ==> final(self).wf(),
            final(self).moods() == applied(
                old(self).moods(),
                update.day_of_month_index,
                update.mood_values@,
            ),
            final(self).dirty(),
            final(self).ids() == old(self).ids(),
    {
        let day = update.day_of_month_index;
        if update.mood_values.is_empty() {
            self.application_data.mood_per_day.remove(&day);
        } else {
            self.application_data.mood_per_day.insert(day, update.mood_values);
        }
        self.there_is_unsaved_data = true;
        assert(self.moods() =~= applied(old(self).moods(), day, update.mood_values@));
    }

    /// Decides what an event means: a close request or the close button
    /// saves and quits; the clear button clears the data; new mood values
    /// from the mood widget are mirrored into the data. Anything else is
    /// ignored.
    pub fn handle_event(&mut self, event: ApplicationEvent) -> (r: ApplicationAction)
        ensures
            old(self).wf() ==> final(self).wf(),
            final(self).ids() == old(self).ids(),
            match event {
                ApplicationEvent::RequestClose => {
                    &&& r == ApplicationAction::SaveAndQuit
                    &&& final(self).moods() == old(self).moods()
                    &&& final(self).dirty() == old(self).dirty()
                },
                ApplicationEvent::Clicked(id) => if id == old(self).ids().1 {
                    &&& r == ApplicationAction::SaveAndQuit
                    &&& final(self).moods() == old(self).moods()
                    &&& final(self).dirty() == old(self).dirty()
                } else if id == old(self).ids().0 {
                    &&& r == ApplicationAction::ClearMoodWidget
                    &&& final(self).moods() == Map::<u8, Set<u8>>::empty()
                    &&& final(self).dirty()
                } else {
                    &&& r == ApplicationAction::Nothing
                    &&& final(self).moods() == old(self).moods()
                    &&& final(self).dirty() == old(self).dirty()
                },
                ApplicationEvent::ValueChanged(id, update) => {
                    &&& r == ApplicationAction::Nothing
                    &&& id == old(self).ids().2 ==> {
                        &&& final(self).moods() == applied(
                            old(self).moods(),
                            update.day_of_month_index,
                            update.mood_values@,
                        )
                        &&& final(self).dirty()
                    }
                    &&& id != old(self).ids().2 ==> {
                        &&& final(self).moods() == old(self).moods()
                        &&& final(self).dirty() == old(self).dirty()
                    }
                },
            },
    {
        match event {
            ApplicationEvent::RequestClose => ApplicationAction::SaveAndQuit,
            ApplicationEvent::Clicked(id) => {
                if id == self.close_button {
                    ApplicationAction::SaveAndQuit
                } else if id == self.clear_button {
                    self.application_data.mood_per_day.clear();
                    self.there_is_unsaved_data = true;
                    assert(self.moods() =~= Map::<u8, Set<u8>>::empty());
                    ApplicationAction::ClearMoodWidget
                } else {
                    ApplicationAction::Nothing
                }
            },
            ApplicationEvent::ValueChanged(id, update) => {
                if id == self.widget_mood {
                    self.apply_update(update);
                }
                ApplicationAction::Nothing
            },
        }
    }

    /// The data to write when a save is due: only when something is unsaved.
    pub fn data_to_save(&self) -> (r: Option<&ApplicationData>)
        ensures
            r is Some <==> self.dirty(),
            r is Some ==> r->0.moods() == self.moods(),
    {
        if self.there_is_unsaved_data {
            Some(&self.application_data)
        } else {
            None
        }
    }

    /// Records that the data was written.
    pub fn mark_saved(&mut self)
        ensures
            !final(self).dirty(),
            final(self).moods() == old(self).moods(),
            final(self).ids() == old(self).ids(),
            old(self).wf() ==> final(self).wf(),
    {
        self.there_is_unsaved_data = false;
    }

    pub fn there_is_unsaved_data(&self) -> (r: bool)
        ensures
            r == self.dirty(),
    {
        self.there_is_unsaved_data
    }

    pub fn application_data(&self) -> (r: &ApplicationData)
        ensures
            r.moods() == self.moods(),
    {
        &self.application_data
    }

    /// The clear button, the close button and the mood widget.
    pub fn widget_ids(&self) -> (r: (WidgetId, WidgetId, WidgetId))
        ensures
            r == self.ids(),
    {
        (self.clear_button, self.close_button, self.widget_mood)
    }
}

/// Toggling off the last mood value of a day, and mirroring the day's new
/// (empty) values into the persisted mapping, leaves no entry for that day.
pub proof fn lemma_emptied_day_is_absent(data: Map<u8, Set<u8>>, day: u8, values: Set<u8>, m: u8)
    requires
        values == Set::<u8>::empty().insert(m),
    ensures
        toggled(values, m).is_empty(),
        !applied(data, day, toggled(values, m)).contains_key(day),
{
    assert(toggled(values, m) =~= Set::<u8>::empty());
}

} // verus!
