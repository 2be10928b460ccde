use freundchen::application::{ApplicationAction, ApplicationData, ApplicationEvent, ApplicationState};
use freundchen::mood::MoodValuesUpdate;
use freundchen::widget::MoodWidget;
use std::collections::{HashMap, HashSet};

const CLEAR: usize = 1;
const CLOSE: usize = 2;
const MOOD: usize = 3;

fn set_of(values: &[u8]) -> HashSet<u8> {
    values.iter().copied().collect()
}

fn changed(day: u8, values: &[u8]) -> ApplicationEvent {
    ApplicationEvent::ValueChanged(
        MOOD,
        MoodValuesUpdate { day_of_month_index: day, mood_values: set_of(values) },
    )
}

fn data_from_json(text: &str) -> ApplicationData {
    let mut parsed: HashMap<String, HashMap<u8, HashSet<u8>>> = serde_json::from_str(text).unwrap();
    ApplicationData { mood_per_day: parsed.remove("mood_per_day").unwrap() }
}

#[test]
fn new_application_data_is_empty() {
    assert!(ApplicationData::new().mood_per_day.is_empty());
}

#[test]
fn new_state_is_empty_and_saved() {
    let state = ApplicationState::new(CLEAR, CLOSE, MOOD);
    assert!(state.application_data().mood_per_day.is_empty());
    assert!(!state.there_is_unsaved_data());
    assert!(state.data_to_save().is_none());
    assert_eq!(state.widget_ids(), (CLEAR, CLOSE, MOOD));
}

#[test]
fn value_changed_upserts_the_day_and_marks_dirty() {
    let mut state = ApplicationState::new(CLEAR, CLOSE, MOOD);
    assert_eq!(state.handle_event(changed(5, &[2, 3])), ApplicationAction::Nothing);
    assert!(state.there_is_unsaved_data());
    assert_eq!(state.application_data().mood_per_day.get(&5), Some(&set_of(&[2, 3])));
    state.handle_event(changed(5, &[4]));
    assert_eq!(state.application_data().mood_per_day.get(&5), Some(&set_of(&[4])));
    assert_eq!(state.application_data().mood_per_day.len(), 1);
}

#[test]
fn emptied_day_is_removed_not_stored_empty() {
    let mut state = ApplicationState::new(CLEAR, CLOSE, MOOD);
    let mut widget = MoodWidget::new(MOOD, 0);
    widget.apply_size_constraints(800);
    let on = widget.handle_mouse_down(116, 77).unwrap();
    state.handle_event(ApplicationEvent::ValueChanged(MOOD, on));
    assert_eq!(state.application_data().mood_per_day.get(&4), Some(&set_of(&[7])));
    let off = widget.handle_mouse_down(116, 77).unwrap();
    state.handle_event(ApplicationEvent::ValueChanged(MOOD, off));
    assert!(!state.application_data().mood_per_day.contains_key(&4));
    assert!(state.there_is_unsaved_data());
}

#[test]
fn value_changed_from_another_widget_is_ignored() {
    let mut state = ApplicationState::new(CLEAR, CLOSE, MOOD);
    let event = ApplicationEvent::ValueChanged(
        99,
        MoodValuesUpdate { day_of_month_index: 1, mood_values: set_of(&[1]) },
    );
    assert_eq!(state.handle_event(event), ApplicationAction::Nothing);
    assert!(state.application_data().mood_per_day.is_empty());
    assert!(!state.there_is_unsaved_data());
}

#[test]
fn clear_button_clears_data_and_the_widget() {
    let mut state = ApplicationState::new(CLEAR, CLOSE, MOOD);
    state.handle_event(changed(1, &[1]));
    state.mark_saved();
    assert_eq!(state.handle_event(ApplicationEvent::Clicked(CLEAR)), ApplicationAction::ClearMoodWidget);
    assert!(state.application_data().mood_per_day.is_empty());
    assert!(state.there_is_unsaved_data());
}

#[test]
fn close_button_and_close_request_save_and_quit() {
    let mut state = ApplicationState::new(CLEAR, CLOSE, MOOD);
    assert_eq!(state.handle_event(ApplicationEvent::Clicked(CLOSE)), ApplicationAction::SaveAndQuit);
    assert_eq!(state.handle_event(ApplicationEvent::RequestClose), ApplicationAction::SaveAndQuit);
    assert!(!state.there_is_unsaved_data());
}

#[test]
fn other_clicks_do_nothing() {
    let mut state = ApplicationState::new(CLEAR, CLOSE, MOOD);
    assert_eq!(state.handle_event(ApplicationEvent::Clicked(MOOD)), ApplicationAction::Nothing);
    assert!(!state.there_is_unsaved_data());
}

#[test]
fn data_to_save_only_when_dirty() {
    let mut state = ApplicationState::new(CLEAR, CLOSE, MOOD);
    state.handle_event(changed(8, &[6]));
    let data = state.data_to_save().unwrap();
    assert_eq!(data.mood_per_day.get(&8), Some(&set_of(&[6])));
    state.mark_saved();
    assert!(state.data_to_save().is_none());
}

#[test]
fn load_replaces_data_and_rehydrates_the_widget() {
    let mut state = ApplicationState::new(CLEAR, CLOSE, MOOD);
    state.handle_event(changed(1, &[1]));
    let updates = state.load_application_data(data_from_json(r#"{"mood_per_day":{"5":[2,3]}}"#));
    assert!(!state.there_is_unsaved_data());
    assert_eq!(state.application_data().mood_per_day.len(), 1);
    assert_eq!(updates.len(), 1);
    let mut widget = MoodWidget::new(MOOD, 0);
    for update in &updates {
        widget.handle_command(update).unwrap();
    }
    for day in 0..31u8 {
        if day == 5 {
            assert_eq!(*widget.mood_values(day), set_of(&[2, 3]));
        } else {
            assert!(widget.mood_values(day).is_empty());
        }
    }
}

#[test]
fn load_returns_updates_by_ascending_day() {
    let mut state = ApplicationState::new(CLEAR, CLOSE, MOOD);
    let updates = state.load_application_data(data_from_json(
        r#"{"mood_per_day":{"30":[10],"0":[0],"12":[4,5]}}"#,
    ));
    let days: Vec<u8> = updates.iter().map(|u| u.day_of_month_index).collect();
    assert_eq!(days, vec![0, 12, 30]);
    assert_eq!(updates[1].mood_values, set_of(&[4, 5]));
}

#[test]
fn load_of_a_day_outside_the_grid_is_rejected_by_the_widget() {
    let mut state = ApplicationState::new(CLEAR, CLOSE, MOOD);
    let updates = state.load_application_data(data_from_json(r#"{"mood_per_day":{"40":[1]}}"#));
    let mut widget = MoodWidget::new(MOOD, 0);
    assert!(widget.handle_command(&updates[0]).is_err());
}

#[test]
fn persisted_mapping_survives_a_json_round_trip() {
    let mut state = ApplicationState::new(CLEAR, CLOSE, MOOD);
    state.handle_event(changed(0, &[0, 10]));
    state.handle_event(changed(30, &[5]));
    let text = serde_json::to_string(&state.application_data().mood_per_day).unwrap();
    let back: HashMap<u8, HashSet<u8>> = serde_json::from_str(&text).unwrap();
    assert_eq!(back, state.application_data().mood_per_day);
}
