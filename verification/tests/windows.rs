use minkacap::state::{
    Bind, Event, FormatCode, FrameEvent, Global, HandleEvent, ListEvent, RegistryEvent,
    SessionEvent, State, Toplevel,
};

fn offer(state: &mut State, name: u32, interface: &str, version: u32) -> Option<Bind> {
    state.event(Event::Registry(RegistryEvent::Global {
        name,
        interface: interface.to_string(),
        version,
    }))
}

fn list(state: &mut State, handle: u64) {
    assert_eq!(state.event(Event::List(ListEvent::Toplevel { handle })), None);
}

fn title(state: &mut State, handle: u64, title: &str) {
    let event = HandleEvent::Title { title: title.to_string() };
    assert_eq!(state.event(Event::Handle { handle, event }), None);
}

fn app_id(state: &mut State, handle: u64, app_id: &str) {
    let event = HandleEvent::AppId { app_id: app_id.to_string() };
    assert_eq!(state.event(Event::Handle { handle, event }), None);
}

fn desktop() -> State {
    let mut state = State::default();
    for (handle, app, name) in [
        (10, "org.editor", "notes.txt - Editor"),
        (11, "foot", "Editor"),
        (12, "org.editor", "Editor - help"),
        (13, "mail", "Inbox"),
    ] {
        list(&mut state, handle);
        title(&mut state, handle, name);
        app_id(&mut state, handle, app);
    }
    state
}

fn pick(state: &State, selector: &str) -> Option<usize> {
    state.find_toplevel(&selector.to_string())
}

#[test]
fn globals_are_bound_by_name() {
    let mut state = State::default();
    let bind = |global, name| Some(Bind { global, name, version: 1 });
    assert_eq!(offer(&mut state, 3, "wl_shm", 2), bind(Global::Shm, 3));
    assert_eq!(
        offer(&mut state, 4, "ext_foreign_toplevel_list_v1", 1),
        bind(Global::ToplevelList, 4)
    );
    assert_eq!(
        offer(&mut state, 5, "ext_foreign_toplevel_image_capture_source_manager_v1", 7),
        bind(Global::SourceManager, 5)
    );
    assert_eq!(
        offer(&mut state, 6, "ext_image_copy_capture_manager_v1", 1),
        bind(Global::CaptureManager, 6)
    );
    assert_eq!(offer(&mut state, 7, "wl_compositor", 6), None);
    assert_eq!(state.event(Event::Registry(RegistryEvent::Other)), None);
    assert_eq!(state.shm, Some(3));
    assert_eq!(state.toplevel_list, Some(4));
    assert_eq!(state.source_manager, Some(5));
    assert_eq!(state.capture_manager, Some(6));
}

#[test]
fn offered_version_zero_is_kept_except_for_shm() {
    let mut state = State::default();
    assert_eq!(offer(&mut state, 1, "wl_shm", 0).unwrap().version, 1);
    assert_eq!(offer(&mut state, 2, "ext_foreign_toplevel_list_v1", 0).unwrap().version, 0);
}

#[test]
fn later_offer_replaces_earlier_one() {
    let mut state = State::default();
    offer(&mut state, 1, "wl_shm", 1);
    offer(&mut state, 9, "wl_shm", 1);
    assert_eq!(state.shm, Some(9));
}

#[test]
fn new_window_has_no_names() {
    let mut state = State::default();
    list(&mut state, 5);
    assert_eq!(state.toplevels.len(), 1);
    assert_eq!(state.toplevels[0].0, 5);
    assert_eq!(state.toplevels[0].1.title, "");
    assert_eq!(state.toplevels[0].1.app_id, "");
    assert_eq!(Toplevel::default().title, "");
    state.event(Event::List(ListEvent::Other));
    assert_eq!(state.toplevels.len(), 1);
}

#[test]
fn last_name_wins_and_other_windows_stay() {
    let mut state = desktop();
    title(&mut state, 11, "first");
    title(&mut state, 11, "second");
    app_id(&mut state, 11, "kitty");
    state.event(Event::Handle { handle: 11, event: HandleEvent::Other });
    assert_eq!(state.toplevels[1].1.title, "second");
    assert_eq!(state.toplevels[1].1.app_id, "kitty");
    assert_eq!(state.toplevels[0].1.title, "notes.txt - Editor");
    assert_eq!(state.toplevels[2].1.app_id, "org.editor");
}

#[test]
fn event_of_unknown_window_is_ignored() {
    let mut state = desktop();
    title(&mut state, 99, "ghost");
    assert_eq!(state.listing(), desktop().listing());
}

#[test]
fn event_reaches_first_entry_of_handle() {
    let mut state = State::default();
    list(&mut state, 1);
    list(&mut state, 1);
    title(&mut state, 1, "one");
    assert_eq!(state.toplevels[0].1.title, "one");
    assert_eq!(state.toplevels[1].1.title, "");
}

#[test]
fn session_and_frame_events_are_recorded() {
    let mut state = State::default();
    state.event(Event::Session(SessionEvent::BufferSize { width: 3, height: 2 }));
    state.event(Event::Session(SessionEvent::ShmFormat { format: FormatCode::Known(1) }));
    state.event(Event::Session(SessionEvent::ShmFormat { format: FormatCode::Unknown(77) }));
    state.event(Event::Session(SessionEvent::ShmFormat { format: FormatCode::Known(0) }));
    state.event(Event::Session(SessionEvent::Other));
    state.event(Event::Frame(FrameEvent::Other));
    assert_eq!(state.buffer_size, Some((3, 2)));
    assert_eq!(state.shm_formats, vec![1, 0]);
    assert!(!state.session_done && !state.frame_ready && !state.frame_failed);
    state.event(Event::Session(SessionEvent::Done));
    assert!(state.session_done && !state.frame_ready && !state.frame_failed);
    state.event(Event::Frame(FrameEvent::Ready));
    assert!(state.frame_ready && !state.frame_failed);
    state.event(Event::Session(SessionEvent::Stopped));
    assert!(state.frame_failed && state.session_done && state.frame_ready);
}

#[test]
fn failed_frame_is_recorded() {
    let mut state = State::default();
    state.event(Event::Frame(FrameEvent::Failed));
    assert!(state.frame_failed);
}

#[test]
fn exact_title_is_not_shadowed() {
    assert_eq!(pick(&desktop(), "Editor"), Some(1));
}

#[test]
fn exact_app_id_is_picked_first_in_list_order() {
    assert_eq!(pick(&desktop(), "org.editor"), Some(0));
    assert_eq!(pick(&desktop(), "mail"), Some(3));
}

#[test]
fn substring_is_the_fallback() {
    assert_eq!(pick(&desktop(), "help"), Some(2));
    assert_eq!(pick(&desktop(), "edit"), Some(0));
    assert_eq!(pick(&desktop(), "oo"), Some(1));
}

#[test]
fn no_window_is_picked_without_a_match() {
    assert_eq!(pick(&desktop(), "browser"), None);
    assert_eq!(pick(&desktop(), "EDITOR"), None);
    assert_eq!(pick(&State::default(), ""), None);
}

#[test]
fn empty_selector_picks_unnamed_window_or_the_first() {
    assert_eq!(pick(&desktop(), ""), Some(0));
    let mut state = desktop();
    list(&mut state, 14);
    assert_eq!(pick(&state, ""), Some(4));
}

#[test]
fn listing_has_a_line_for_each_window() {
    assert_eq!(
        desktop().listing(),
        vec![
            "org.editor\tnotes.txt - Editor",
            "foot\tEditor",
            "org.editor\tEditor - help",
            "mail\tInbox",
        ]
    );
    assert!(State::default().listing().is_empty());
}

#[test]
fn window_is_described_by_both_names() {
    let state = desktop();
    assert_eq!(state.toplevels[3].1.describe(), "mail / Inbox");
    assert_eq!(state.toplevels[3].1.listing_line(), "mail\tInbox");
}
