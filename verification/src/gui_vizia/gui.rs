//! How the vizia front end reacts to the events of its menus, keys and
//! window: the state it keeps and the simulator or file work each event
//! asks for.
use vstd::prelude::*;

verus! {

/// The state of the front end that its events decide on.
pub struct GuiData {
    /// The path of the model file that is loaded.
    pub path: String,
    /// Whether the simulation is paused.
    pub pause: bool,
    /// Whether closing the window needs no further confirmation.
    pub is_saved: bool,
    /// Whether the about box is shown.
    pub show_about: bool,
    pub selected_id: usize,
}

/// The events of the front end's menus and keys.
#[derive(Clone, Copy, PartialEq, Eq, Structural, Debug)]
pub enum GuiEvent {
    Open,
    ReOpen,
    Clock,
    Reset,
    UnClock,
    Play,
    Pause,
    PlayToggle,
    Preferences,
    ShowAbout,
    HideAbout,
    ShowLeftPanel,
    HideLeftPanel,
}

/// The work outside the front end's state that an event asks for.
#[derive(Clone, Copy, PartialEq, Eq, Structural, Debug)]
pub enum GuiAction {
    /// Nothing.
    Nothing,
    /// Let the user pick a model file and hand the answer to `picked`.
    PickAndOpen,
    /// Load the model again from the current path.
    ReOpen,
    /// Advance the simulator by one clock cycle.
    Clock,
    /// Step the simulator back by one clock cycle.
    UnClock,
    /// Reset the simulator.
    Reset,
}

/// The state after `event`.
pub open spec fn next_state(d: GuiData, event: GuiEvent) -> GuiData {
    match event {
        GuiEvent::Reset => GuiData { pause: true, ..d },
        GuiEvent::Play => GuiData { pause: false, ..d },
        GuiEvent::Pause => GuiData { pause: true, ..d },
        GuiEvent::PlayToggle => GuiData { pause: !d.pause, ..d },
        GuiEvent::ShowAbout => GuiData { show_about: true, ..d },
        GuiEvent::HideAbout => GuiData { show_about: false, ..d },
        _ => d,
    }
}

/// The work that `event` asks for.
pub open spec fn event_action(event: GuiEvent) -> GuiAction {
    match event {
        GuiEvent::Open => GuiAction::PickAndOpen,
        GuiEvent::ReOpen => GuiAction::ReOpen,
        GuiEvent::Clock => GuiAction::Clock,
        GuiEvent::UnClock => GuiAction::UnClock,
        GuiEvent::Reset => GuiAction::Reset,
        _ => GuiAction::Nothing,
    }
}

impl GuiData {
    /// The state at start with the model loaded from `path`: paused, not
    /// saved, no about box, the first component selected.
    pub fn new(path: String) -> (r: Self)
        ensures
            r.path == path,
            r.pause,
            !r.is_saved,
            !r.show_about,
            r.selected_id == 0,
    {
        GuiData { path, pause: true, is_saved: false, show_about: false, selected_id: 0 }
    }

    /// Takes the answer of the file dialog that `PickAndOpen` asked for: a
    /// picked path becomes the model's path and the model is to be loaded
    /// from it (`ReOpen`); a cancelled dialog changes nothing.
    pub fn picked(&mut self, picked: Option<String>) -> (action: GuiAction)
        ensures
            picked is None ==> *final(self) == *old(self) && action == GuiAction::Nothing,
            picked matches Some(p) ==> final(self).path == p && action == GuiAction::ReOpen,
            final(self).pause == old(self).pause,
            final(self).is_saved == old(self).is_saved,
            final(self).show_about == old(self).show_about,
            final(self).selected_id == old(self).selected_id,
    {
        match picked {
            Some(p) => {
                self.path = p;
                GuiAction::ReOpen
            },
            None => GuiAction::Nothing,
        }
    }

    /// Handles an event of the menus or keys: updates the state and returns
    /// the work the event asks for.
    pub fn event(&mut self, event: GuiEvent) -> (action: GuiAction)
        ensures
            *final(self) == next_state(*old(self), event),
            action == event_action(event),
    {
        match event {
            GuiEvent::Open => GuiAction::PickAndOpen,
            GuiEvent::ReOpen => GuiAction::ReOpen,
            GuiEvent::Clock => GuiAction::Clock,
            GuiEvent::UnClock => GuiAction::UnClock,
            GuiEvent::Reset => {
                self.pause = true;
                GuiAction::Reset
            },
            GuiEvent::Play => {
                self.pause = false;
                GuiAction::Nothing
            },
            GuiEvent::Pause => {
                self.pause = true;
                GuiAction::Nothing
            },
            GuiEvent::PlayToggle => {
                self.pause = !self.pause;
                GuiAction::Nothing
            },
            GuiEvent::Preferences => GuiAction::Nothing,
            GuiEvent::ShowAbout => {
                self.show_about = true;
                GuiAction::Nothing
            },
            GuiEvent::HideAbout => {
                self.show_about = false;
                GuiAction::Nothing
            },
            GuiEvent::ShowLeftPanel => GuiAction::Nothing,
            GuiEvent::HideLeftPanel => GuiAction::Nothing,
        }
    }

    /// Handles a request to close the window: the first request is held
    /// back (the result is `true`, the window stays open) and marks the
    /// state saved; once saved, requests pass (the result is `false`).
    pub fn window_close(&mut self) -> (consumed: bool)
        ensures
            consumed == !old(self).is_saved,
            final(self).is_saved,
            final(self).path == old(self).path,
            final(self).pause == old(self).pause,
            final(self).show_about == old(self).show_about,
            final(self).selected_id == old(self).selected_id,
    {
        if !self.is_saved {
            self.is_saved = true;
            true
        } else {
            false
        }
    }
}

/// Toggling play twice leaves the state as it was.
pub proof fn lemma_toggle_twice(d: GuiData)
    ensures
        next_state(next_state(d, GuiEvent::PlayToggle), GuiEvent::PlayToggle) == d,
{
}

/// No menu or key event changes whether the state is saved or which
/// component is selected; after a reset the simulation is paused.
pub proof fn lemma_events_keep_saved_and_selection(d: GuiData, event: GuiEvent)
    ensures
        next_state(d, event).is_saved == d.is_saved,
        next_state(d, event).selected_id == d.selected_id,
        event == GuiEvent::Reset ==> next_state(d, event).pause,
{
}

/// What each event does to the state. Play sets the simulation running and
/// Pause stops it, whatever it did before; PlayToggle flips it; Reset stops
/// it; ShowAbout and HideAbout show and hide the about box and touch nothing
/// else; no event changes the path, the saved flag or the selection; and
/// every other event leaves the state as it was.
pub proof fn lemma_event_effects(d: GuiData, e: GuiEvent)
    ensures
        next_state(d, e).path == d.path,
        next_state(d, e).is_saved == d.is_saved,
        next_state(d, e).selected_id == d.selected_id,
        e == GuiEvent::Play ==> !next_state(d, e).pause && next_state(d, e).show_about == d.show_about,
        e == GuiEvent::Pause ==> next_state(d, e).pause && next_state(d, e).show_about == d.show_about,
        e == GuiEvent::PlayToggle ==> next_state(d, e).pause == !d.pause && next_state(d, e).show_about
            == d.show_about,
        e == GuiEvent::Reset ==> next_state(d, e).pause && next_state(d, e).show_about == d.show_about,
        e == GuiEvent::ShowAbout ==> next_state(d, e).show_about && next_state(d, e).pause == d.pause,
        e == GuiEvent::HideAbout ==> !next_state(d, e).show_about && next_state(d, e).pause == d.pause,
        e == GuiEvent::Open || e == GuiEvent::ReOpen || e == GuiEvent::Clock || e == GuiEvent::UnClock
            || e == GuiEvent::Preferences || e == GuiEvent::ShowLeftPanel || e
            == GuiEvent::HideLeftPanel ==> next_state(d, e) == d,
{
}

/// Play and Pause do not depend on the run flag they find: two states that
/// differ only in it become the same; Play after Play changes nothing, and
/// Play after Pause runs again.
pub proof fn lemma_play_pause_ignore_prior(d: GuiData, p: bool)
    ensures
        next_state(GuiData { pause: p, ..d }, GuiEvent::Play) == next_state(d, GuiEvent::Play),
        next_state(GuiData { pause: p, ..d }, GuiEvent::Pause) == next_state(d, GuiEvent::Pause),
        next_state(next_state(d, GuiEvent::Play), GuiEvent::Play) == next_state(d, GuiEvent::Play),
        !next_state(next_state(d, GuiEvent::Pause), GuiEvent::Play).pause,
{
}

/// The work the events ask for: the file dialog for Open, a reload for
/// ReOpen, a clock step, a step back or a reset for Clock, UnClock and
/// Reset, and nothing for any other event.
pub proof fn lemma_event_work(e: GuiEvent)
    ensures
        (event_action(e) == GuiAction::PickAndOpen) <==> (e == GuiEvent::Open),
        (event_action(e) == GuiAction::ReOpen) <==> (e == GuiEvent::ReOpen),
        (event_action(e) == GuiAction::Clock) <==> (e == GuiEvent::Clock),
        (event_action(e) == GuiAction::UnClock) <==> (e == GuiEvent::UnClock),
        (event_action(e) == GuiAction::Reset) <==> (e == GuiEvent::Reset),
{
}

} // verus!
