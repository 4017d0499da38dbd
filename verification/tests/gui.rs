use syncrim::gui_vizia::gui::{GuiAction, GuiData, GuiEvent};

fn data() -> GuiData {
    GuiData::new("model.json".to_string())
}

#[test]
fn starts_paused_and_unsaved() {
    let d = data();
    assert_eq!(d.path, "model.json");
    assert!(d.pause);
    assert!(!d.is_saved);
    assert!(!d.show_about);
    assert_eq!(d.selected_id, 0);
}

#[test]
fn picked_path_is_stored_and_loaded() {
    let mut d = data();
    assert_eq!(d.event(GuiEvent::Open), GuiAction::PickAndOpen);
    assert_eq!(d.picked(None), GuiAction::Nothing);
    assert_eq!(d.path, "model.json");
    assert_eq!(d.picked(Some("other.json".to_string())), GuiAction::ReOpen);
    assert_eq!(d.path, "other.json");
    assert!(d.pause);
    assert!(!d.is_saved);
}

#[test]
fn play_pause_and_toggle() {
    let mut d = data();
    assert_eq!(d.event(GuiEvent::Play), GuiAction::Nothing);
    assert!(!d.pause);
    d.event(GuiEvent::Pause);
    assert!(d.pause);
    d.event(GuiEvent::PlayToggle);
    assert!(!d.pause);
    d.event(GuiEvent::PlayToggle);
    assert!(d.pause);
}

#[test]
fn simulator_events_ask_for_work() {
    let mut d = data();
    d.pause = false;
    assert_eq!(d.event(GuiEvent::Clock), GuiAction::Clock);
    assert_eq!(d.event(GuiEvent::UnClock), GuiAction::UnClock);
    assert!(!d.pause);
    assert_eq!(d.event(GuiEvent::Reset), GuiAction::Reset);
    assert!(d.pause);
    assert_eq!(d.event(GuiEvent::Open), GuiAction::PickAndOpen);
    assert_eq!(d.event(GuiEvent::ReOpen), GuiAction::ReOpen);
}

#[test]
fn about_box_and_ignored_events() {
    let mut d = data();
    d.event(GuiEvent::ShowAbout);
    assert!(d.show_about);
    d.event(GuiEvent::HideAbout);
    assert!(!d.show_about);
    for e in [GuiEvent::Preferences, GuiEvent::ShowLeftPanel, GuiEvent::HideLeftPanel] {
        assert_eq!(d.event(e), GuiAction::Nothing);
        assert!(d.pause);
        assert!(!d.show_about);
        assert!(!d.is_saved);
        assert_eq!(d.path, "model.json");
    }
}

#[test]
fn first_close_is_held_back() {
    let mut d = data();
    assert!(d.window_close());
    assert!(d.is_saved);
    assert!(!d.window_close());
    assert!(d.is_saved);
    assert_eq!(d.path, "model.json");
    assert!(d.pause);
}
