//! What the compositor has said so far: the globals that were bound, the windows that it
//! listed, and the constraints and progress of the capture.
use vstd::prelude::*;

verus! {

/// The globals that a capture needs.
#[derive(Clone, Copy, Debug, PartialEq, Eq, Structural)]
pub enum Global {
    /// `wl_shm`: memory shared with the compositor.
    Shm,
    /// `ext_foreign_toplevel_list_v1`: the windows.
    ToplevelList,
    /// `ext_foreign_toplevel_image_capture_source_manager_v1`: from a window to a source.
    SourceManager,
    /// `ext_image_copy_capture_manager_v1`: from a source to a frame.
    CaptureManager,
}

/// The request to bind a global: which one, its number in the registry, and the version to use.
#[derive(Clone, Copy, Debug, PartialEq, Eq, Structural)]
pub struct Bind {
    pub global: Global,
    pub name: u32,
    pub version: u32,
}

/// A pixel format as the compositor sent it: a code that the protocol knows, or another one.
#[derive(Clone, Copy, Debug, PartialEq, Eq, Structural)]
pub enum FormatCode {
    Known(u32),
    Unknown(u32),
}

/// Events of `wl_registry`.
#[derive(Debug)]
pub enum RegistryEvent {
    Global { name: u32, interface: String, version: u32 },
    Other,
}

/// Events of `ext_foreign_toplevel_list_v1`. A window's handle is a number that its object
/// keeps for life.
#[derive(Debug)]
pub enum ListEvent {
    Toplevel { handle: u64 },
    Other,
}

/// Events of `ext_foreign_toplevel_handle_v1`.
#[derive(Debug)]
pub enum HandleEvent {
    Title { title: String },
    AppId { app_id: String },
    Other,
}

/// Events of `ext_image_copy_capture_session_v1`.
#[derive(Debug)]
pub enum SessionEvent {
    BufferSize { width: u32, height: u32 },
    ShmFormat { format: FormatCode },
    Done,
    Stopped,
    Other,
}

/// Events of `ext_image_copy_capture_frame_v1`.
#[derive(Debug)]
pub enum FrameEvent {
    Ready,
    Failed,
    Other,
}

/// An event of any of the interfaces that the capture listens to.
#[derive(Debug)]
pub enum Event {
    Registry(RegistryEvent),
    List(ListEvent),
    Handle { handle: u64, event: HandleEvent },
    Session(SessionEvent),
    Frame(FrameEvent),
}

/// A window: its title and the name of its application.
#[derive(Debug)]
pub struct Toplevel {
    pub title: String,
    pub app_id: String,
}

/// The texts of a [`Toplevel`].
#[verifier::ext_equal]
pub struct ToplevelView {
    pub title: Seq<char>,
    pub app_id: Seq<char>,
}

impl View for Toplevel {
    type V = ToplevelView;

    open spec fn view(&self) -> ToplevelView {
        ToplevelView { title: self.title@, app_id: self.app_id@ }
    }
}

impl Default for Toplevel {
    /// A window of which nothing is known yet.
    fn default() -> (toplevel: Self)
        ensures
            toplevel@ == unnamed(),
    {
        Toplevel { title: String::new(), app_id: String::new() }
    }
}

/// What the compositor has said so far.
#[derive(Debug)]
pub struct State {
    pub shm: Option<u32>,
    pub toplevel_list: Option<u32>,
    pub source_manager: Option<u32>,
    pub capture_manager: Option<u32>,
    pub toplevels: Vec<(u64, Toplevel)>,
    pub buffer_size: Option<(u32, u32)>,
    pub shm_formats: Vec<u32>,
    pub session_done: bool,
    pub frame_ready: bool,
    pub frame_failed: bool,
}

/// The contents of a [`State`].
///
/// A bound global is recorded by its number in the registry. The windows stand in the order in
/// which they were listed, each with its handle.
#[verifier::ext_equal]
pub struct StateView {
    pub shm: Option<u32>,
    pub toplevel_list: Option<u32>,
    pub source_manager: Option<u32>,
    pub capture_manager: Option<u32>,
    pub toplevels: Seq<(u64, ToplevelView)>,
    pub buffer_size: Option<(u32, u32)>,
    pub shm_formats: Seq<u32>,
    pub session_done: bool,
    pub frame_ready: bool,
    pub frame_failed: bool,
}

/// The handles and texts of a list of windows.
pub open spec fn entries(toplevels: Seq<(u64, Toplevel)>) -> Seq<(u64, ToplevelView)> {
    toplevels.map_values(|entry: (u64, Toplevel)| (entry.0, entry.1@))
}

impl View for State {
    type V = StateView;

    open spec fn view(&self) -> StateView {
        StateView {
            shm: self.shm,
            toplevel_list: self.toplevel_list,
            source_manager: self.source_manager,
            capture_manager: self.capture_manager,
            toplevels: entries(self.toplevels@),
            buffer_size: self.buffer_size,
            shm_formats: self.shm_formats@,
            session_done: self.session_done,
            frame_ready: self.frame_ready,
            frame_failed: self.frame_failed,
        }
    }
}

/// A window of which nothing is known yet.
pub open spec fn unnamed() -> ToplevelView {
    ToplevelView { title: Seq::empty(), app_id: Seq::empty() }
}

/// The state before any event.
pub open spec fn silent() -> StateView {
    StateView {
        shm: None,
        toplevel_list: None,
        source_manager: None,
        capture_manager: None,
        toplevels: Seq::empty(),
        buffer_size: None,
        shm_formats: Seq::empty(),
        session_done: false,
        frame_ready: false,
        frame_failed: false,
    }
}

/// The global that an interface's name stands for, if the capture needs it.
pub open spec fn global_named(interface: Seq<char>) -> Option<Global> {
    if interface == "wl_shm"@ {
        Some(Global::Shm)
    } else if interface == "ext_foreign_toplevel_list_v1"@ {
        Some(Global::ToplevelList)
    } else if interface == "ext_foreign_toplevel_image_capture_source_manager_v1"@ {
        Some(Global::SourceManager)
    } else if interface == "ext_image_copy_capture_manager_v1"@ {
        Some(Global::CaptureManager)
    } else {
        None
    }
}

/// The version at which a global is bound when the compositor offers `version`.
pub open spec fn bound_version(global: Global, version: u32) -> u32 {
    if global is Shm || version >= 1 {
        1
    } else {
        version
    }
}

/// The request that an event calls for.
pub open spec fn bind_for(event: Event) -> Option<Bind> {
    match event {
        Event::Registry(RegistryEvent::Global { name, interface, version }) => match global_named(
            interface@,
        ) {
            Some(global) => Some(Bind { global, name, version: bound_version(global, version) }),
            None => None,
        },
        _ => None,
    }
}

/// Whether entry `i` is the first one of `handle`.
pub open spec fn is_entry_of(toplevels: Seq<(u64, ToplevelView)>, handle: u64, i: int) -> bool {
    &&& 0 <= i < toplevels.len()
    &&& toplevels[i].0 == handle
    &&& forall|j: int| 0 <= j < i ==> #[trigger] toplevels[j].0 != handle
}

/// The list after one of the windows has changed: the first entry of `handle` is replaced, and
/// nothing happens where there is none.
pub open spec fn with_entry(
    toplevels: Seq<(u64, ToplevelView)>,
    handle: u64,
    change: spec_fn(ToplevelView) -> ToplevelView,
) -> Seq<(u64, ToplevelView)> {
    if exists|i: int| is_entry_of(toplevels, handle, i) {
        let i = choose|i: int| is_entry_of(toplevels, handle, i);
        toplevels.update(i, (handle, change(toplevels[i].1)))
    } else {
        toplevels
    }
}

impl StateView {
    /// The state in which `global` is bound, under the number `name`.
    pub open spec fn bound(self, global: Global, name: u32) -> StateView {
        match global {
            Global::Shm => StateView { shm: Some(name), ..self },
            Global::ToplevelList => StateView { toplevel_list: Some(name), ..self },
            Global::SourceManager => StateView { source_manager: Some(name), ..self },
            Global::CaptureManager => StateView { capture_manager: Some(name), ..self },
        }
    }

    /// The state after an event of the registry.
    pub open spec fn after_registry(self, event: RegistryEvent) -> StateView {
        match event {
            RegistryEvent::Global { name, interface, version } => match global_named(interface@) {
                Some(global) => self.bound(global, name),
                None => self,
            },
            RegistryEvent::Other => self,
        }
    }

    /// The state after an event of the window list.
    pub open spec fn after_list(self, event: ListEvent) -> StateView {
        match event {
            ListEvent::Toplevel { handle } => StateView {
                toplevels: self.toplevels.push((handle, unnamed())),
                ..self
            },
            ListEvent::Other => self,
        }
    }

    /// The state after an event of the window `handle`.
    pub open spec fn after_handle(self, handle: u64, event: HandleEvent) -> StateView {
        match event {
            HandleEvent::Title { title } => StateView {
                toplevels: with_entry(
                    self.toplevels,
                    handle,
                    |t: ToplevelView| ToplevelView { title: title@, ..t },
                ),
                ..self
            },
            HandleEvent::AppId { app_id } => StateView {
                toplevels: with_entry(
                    self.toplevels,
                    handle,
                    |t: ToplevelView| ToplevelView { app_id: app_id@, ..t },
                ),
                ..self
            },
            HandleEvent::Other => self,
        }
    }

    /// The state after an event of the capture session.
    pub open spec fn after_session(self, event: SessionEvent) -> StateView {
        match event {
            SessionEvent::BufferSize { width, height } => StateView {
                buffer_size: Some((width, height)),
                ..self
            },
            SessionEvent::ShmFormat { format: FormatCode::Known(code) } => StateView {
                shm_formats: self.shm_formats.push(code),
                ..self
            },
            SessionEvent::ShmFormat { format: FormatCode::Unknown(_) } => self,
            SessionEvent::Done => StateView { session_done: true, ..self },
            SessionEvent::Stopped => StateView { frame_failed: true, ..self },
            SessionEvent::Other => self,
        }
    }

    /// The state after an event of the frame.
    pub open spec fn after_frame(self, event: FrameEvent) -> StateView {
        match event {
            FrameEvent::Ready => StateView { frame_ready: true, ..self },
            FrameEvent::Failed => StateView { frame_failed: true, ..self },
            FrameEvent::Other => self,
        }
    }

    /// The state after an event.
    pub open spec fn after(self, event: Event) -> StateView {
        match event {
            Event::Registry(event) => self.after_registry(event),
            Event::List(event) => self.after_list(event),
            Event::Handle { handle, event } => self.after_handle(handle, event),
            Event::Session(event) => self.after_session(event),
            Event::Frame(event) => self.after_frame(event),
        }
    }
}

/// The global that an interface's name stands for, if the capture needs it.
pub fn global_of(interface: &String) -> (global: Option<Global>)
    ensures
        global == global_named(interface@),
{
    if *interface == "wl_shm".to_string() {
        Some(Global::Shm)
    } else if *interface == "ext_foreign_toplevel_list_v1".to_string() {
        Some(Global::ToplevelList)
    } else if *interface == "ext_foreign_toplevel_image_capture_source_manager_v1".to_string() {
        Some(Global::SourceManager)
    } else if *interface == "ext_image_copy_capture_manager_v1".to_string() {
        Some(Global::CaptureManager)
    } else {
        None
    }
}

impl Default for State {
    /// The state before any event.
    fn default() -> (state: Self)
        ensures
            state@ == silent(),
    {
        State {
            shm: None,
            toplevel_list: None,
            source_manager: None,
            capture_manager: None,
            toplevels: Vec::new(),
            buffer_size: None,
            shm_formats: Vec::new(),
            session_done: false,
            frame_ready: false,
            frame_failed: false,
        }
    }
}

impl State {
    /// Takes in an event of the registry, and says what to bind.
    fn registry_event(&mut self, event: RegistryEvent) -> (bind: Option<Bind>)
        ensures
            final(self)@ == old(self)@.after_registry(event),
            bind == bind_for(Event::Registry(event)),
    {
        match event {
            RegistryEvent::Global { name, interface, version } => {
                let global = match global_of(&interface) {
                    Some(global) => global,
                    None => {
                        return None;
                    },
                };
                let bind_version: u32 = match global {
                    Global::Shm => 1,
                    _ => if version < 1 {
                        version
                    } else {
                        1
                    },
                };
                match global {
                    Global::Shm => {
                        self.shm = Some(name);
                    },
                    Global::ToplevelList => {
                        self.toplevel_list = Some(name);
                    },
                    Global::SourceManager => {
                        self.source_manager = Some(name);
                    },
                    Global::CaptureManager => {
                        self.capture_manager = Some(name);
                    },
                }
                Some(Bind { global, name, version: bind_version })
            },
            RegistryEvent::Other => None,
        }
    }

    /// Takes in an event of the window list.
    fn list_event(&mut self, event: ListEvent)
        ensures
            final(self)@ == old(self)@.after_list(event),
    {
        match event {
            ListEvent::Toplevel { handle } => {
                self.toplevels.push((handle, Toplevel::default()));
                assert(self@ =~= old(self)@.after_list(event));
            },
            ListEvent::Other => {},
        }
    }

    /// Takes in an event of the window `handle`.
    fn handle_event(&mut self, handle: u64, event: HandleEvent)
        ensures
            final(self)@ == old(self)@.after_handle(handle, event),
    {
        let mut i: usize = 0;
        while i < self.toplevels.len() && self.toplevels[i].0 != handle
            invariant
                i <= self.toplevels@.len(),
                *self == *old(self),
                forall|j: int| 0 <= j < i ==> #[trigger] self@.toplevels[j].0 != handle,
            decreases self.toplevels@.len() - i,
        {
            i = i + 1;
        }
        if i == self.toplevels.len() {
            return ;
        }
        assert(is_entry_of(self@.toplevels, handle, i as int));
        match event {
            HandleEvent::Title { title } => {
                self.toplevels[i].1.title = title;
            },
            HandleEvent::AppId { app_id } => {
                self.toplevels[i].1.app_id = app_id;
            },
            HandleEvent::Other => {},
        }
        assert(self@ =~= old(self)@.after_handle(handle, event));
    }

    /// Takes in an event of the capture session.
    fn session_event(&mut self, event: SessionEvent)
        ensures
            final(self)@ == old(self)@.after_session(event),
    {
        match event {
            SessionEvent::BufferSize { width, height } => {
                self.buffer_size = Some((width, height));
            },
            SessionEvent::ShmFormat { format } => match format {
                FormatCode::Known(code) => {
                    self.shm_formats.push(code);
                },
                FormatCode::Unknown(_) => {},
            },
            SessionEvent::Done => {
                self.session_done = true;
            },
            SessionEvent::Stopped => {
                self.frame_failed = true;
            },
            SessionEvent::Other => {},
        }
    }

    /// Takes in an event of the frame.
    fn frame_event(&mut self, event: FrameEvent)
        ensures
            final(self)@ == old(self)@.after_frame(event),
    {
        match event {
            FrameEvent::Ready => {
                self.frame_ready = true;
            },
            FrameEvent::Failed => {
                self.frame_failed = true;
            },
            FrameEvent::Other => {},
        }
    }

    /// Takes in an event, and says which global to bind on account of it.
    pub fn event(&mut self, event: Event) -> (bind: Option<Bind>)
        ensures
            final(self)@ == old(self)@.after(event),
            bind == bind_for(event),
    {
        match event {
            Event::Registry(event) => self.registry_event(event),
            Event::List(event) => {
                self.list_event(event);
                None
            },
            Event::Handle { handle, event } => {
                self.handle_event(handle, event);
                None
            },
            Event::Session(event) => {
                self.session_event(event);
                None
            },
            Event::Frame(event) => {
                self.frame_event(event);
                None
            },
        }
    }
}

/// A handle has at most one first entry.
proof fn lemma_entry_is_unique(
    toplevels: Seq<(u64, ToplevelView)>,
    handle: u64,
    i: int,
    j: int,
)
    requires
        is_entry_of(toplevels, handle, i),
        is_entry_of(toplevels, handle, j),
    ensures
        i == j,
{
}

/// No event takes back what an earlier one said: a bound global stays bound, a listed window
/// keeps its place and its handle, an offered format stays offered, a size that was sent stays
/// known, and what is done, ready or failed stays so.
pub proof fn law_what_was_said_stays(state: StateView, event: Event)
    ensures
        state.shm is Some ==> state.after(event).shm is Some,
        state.toplevel_list is Some ==> state.after(event).toplevel_list is Some,
        state.source_manager is Some ==> state.after(event).source_manager is Some,
        state.capture_manager is Some ==> state.after(event).capture_manager is Some,
        state.toplevels.len() <= state.after(event).toplevels.len(),
        forall|i: int|
            0 <= i < state.toplevels.len() ==> (#[trigger] state.after(event).toplevels[i]).0
                == state.toplevels[i].0,
        state.shm_formats.is_prefix_of(state.after(event).shm_formats),
        forall|code: u32| #[trigger]
            state.shm_formats.contains(code) ==> state.after(event).shm_formats.contains(code),
        state.buffer_size is Some ==> state.after(event).buffer_size is Some,
        state.session_done ==> state.after(event).session_done,
        state.frame_ready ==> state.after(event).frame_ready,
        state.frame_failed ==> state.after(event).frame_failed,
{
    let after = state.after(event);
    assert forall|code: u32| #[trigger] state.shm_formats.contains(code) implies
        after.shm_formats.contains(code) by {
        let k = choose|k: int| 0 <= k < state.shm_formats.len() && state.shm_formats[k] == code;
        assert(after.shm_formats[k] == code);
    }
}

/// An event of a window changes the first entry of its handle and nothing else; with a handle
/// that is not in the list it changes nothing.
pub proof fn law_handle_event_changes_one_window(state: StateView, handle: u64, event: HandleEvent)
    ensures
        ({
            let after = state.after_handle(handle, event);
            &&& after == (StateView { toplevels: after.toplevels, ..state })
            &&& after.toplevels.len() == state.toplevels.len()
            &&& forall|i: int|
                0 <= i < state.toplevels.len() && !is_entry_of(state.toplevels, handle, i)
                    ==> #[trigger] after.toplevels[i] == state.toplevels[i]
            &&& (forall|i: int|
                0 <= i < state.toplevels.len() ==> #[trigger] state.toplevels[i].0 != handle)
                ==> after == state
        }),
{
}

/// The window at the first entry of a handle has the title and the application's name that were
/// sent for it, and keeps what was not.
pub proof fn law_handle_event_reaches_window(
    state: StateView,
    handle: u64,
    title: String,
    app_id: String,
    i: int,
)
    requires
        is_entry_of(state.toplevels, handle, i),
    ensures
        state.after_handle(handle, HandleEvent::Title { title }).toplevels[i] == (
            handle,
            ToplevelView { title: title@, app_id: state.toplevels[i].1.app_id },
        ),
        state.after_handle(handle, HandleEvent::AppId { app_id }).toplevels[i] == (
            handle,
            ToplevelView { title: state.toplevels[i].1.title, app_id: app_id@ },
        ),
{
    let k = choose|k: int| is_entry_of(state.toplevels, handle, k);
    lemma_entry_is_unique(state.toplevels, handle, i, k);
}

/// The first entry of a handle stays the first one when that window changes.
proof fn lemma_with_entry_keeps_entry(
    toplevels: Seq<(u64, ToplevelView)>,
    handle: u64,
    change: spec_fn(ToplevelView) -> ToplevelView,
    i: int,
)
    requires
        is_entry_of(toplevels, handle, i),
    ensures
        with_entry(toplevels, handle, change) == toplevels.update(
            i,
            (handle, change(toplevels[i].1)),
        ),
        is_entry_of(with_entry(toplevels, handle, change), handle, i),
{
    let k = choose|k: int| is_entry_of(toplevels, handle, k);
    lemma_entry_is_unique(toplevels, handle, i, k);
    let after = with_entry(toplevels, handle, change);
    assert(forall|j: int| 0 <= j < i ==> after[j] == #[trigger] toplevels[j]);
}

/// Of two changes to the window of one handle, the second works on the result of the first.
proof fn lemma_with_entry_twice(
    toplevels: Seq<(u64, ToplevelView)>,
    handle: u64,
    first: spec_fn(ToplevelView) -> ToplevelView,
    second: spec_fn(ToplevelView) -> ToplevelView,
)
    ensures
        with_entry(with_entry(toplevels, handle, first), handle, second) == with_entry(
            toplevels,
            handle,
            |t: ToplevelView| second(first(t)),
        ),
{
    let both = |t: ToplevelView| second(first(t));
    if exists|i: int| is_entry_of(toplevels, handle, i) {
        let i = choose|i: int| is_entry_of(toplevels, handle, i);
        lemma_with_entry_keeps_entry(toplevels, handle, first, i);
        lemma_with_entry_keeps_entry(toplevels, handle, both, i);
        lemma_with_entry_keeps_entry(with_entry(toplevels, handle, first), handle, second, i);
        assert(with_entry(with_entry(toplevels, handle, first), handle, second) =~= with_entry(
            toplevels,
            handle,
            both,
        ));
    }
}

/// The last title that was sent for a window is the one that it has; likewise its application's
/// name. A title and an application's name can come in either order.
pub proof fn law_last_name_wins(
    state: StateView,
    handle: u64,
    title: String,
    new_title: String,
    app_id: String,
    new_app_id: String,
)
    ensures
        state.after_handle(handle, HandleEvent::Title { title }).after_handle(
            handle,
            HandleEvent::Title { title: new_title },
        ) == state.after_handle(handle, HandleEvent::Title { title: new_title }),
        state.after_handle(handle, HandleEvent::AppId { app_id }).after_handle(
            handle,
            HandleEvent::AppId { app_id: new_app_id },
        ) == state.after_handle(handle, HandleEvent::AppId { app_id: new_app_id }),
        state.after_handle(handle, HandleEvent::Title { title }).after_handle(
            handle,
            HandleEvent::AppId { app_id },
        ) == state.after_handle(handle, HandleEvent::AppId { app_id }).after_handle(
            handle,
            HandleEvent::Title { title },
        ),
{
    let list = state.toplevels;
    let to_title = |t: ToplevelView| ToplevelView { title: title@, ..t };
    let to_new_title = |t: ToplevelView| ToplevelView { title: new_title@, ..t };
    let to_app_id = |t: ToplevelView| ToplevelView { app_id: app_id@, ..t };
    let to_new_app_id = |t: ToplevelView| ToplevelView { app_id: new_app_id@, ..t };
    lemma_with_entry_twice(list, handle, to_title, to_new_title);
    lemma_with_entry_twice(list, handle, to_app_id, to_new_app_id);
    lemma_with_entry_twice(list, handle, to_title, to_app_id);
    lemma_with_entry_twice(list, handle, to_app_id, to_title);
    assert((|t: ToplevelView| to_new_title(to_title(t))) =~= to_new_title);
    assert((|t: ToplevelView| to_new_app_id(to_app_id(t))) =~= to_new_app_id);
    assert((|t: ToplevelView| to_app_id(to_title(t))) =~= (|t: ToplevelView|
        to_title(to_app_id(t))));
}

/// The name under which the compositor offers a global.
pub open spec fn interface_of(global: Global) -> Seq<char> {
    match global {
        Global::Shm => "wl_shm"@,
        Global::ToplevelList => "ext_foreign_toplevel_list_v1"@,
        Global::SourceManager => "ext_foreign_toplevel_image_capture_source_manager_v1"@,
        Global::CaptureManager => "ext_image_copy_capture_manager_v1"@,
    }
}

/// Each global is known by its own name, and by no other.
pub proof fn law_global_names(global: Global, interface: Seq<char>)
    ensures
        global_named(interface) == Some(global) <==> interface == interface_of(global),
{
    reveal_strlit("wl_shm");
    reveal_strlit("ext_foreign_toplevel_list_v1");
    reveal_strlit("ext_foreign_toplevel_image_capture_source_manager_v1");
    reveal_strlit("ext_image_copy_capture_manager_v1");
    assert("wl_shm"@.len() == 6);
    assert("ext_foreign_toplevel_list_v1"@.len() == 28);
    assert("ext_foreign_toplevel_image_capture_source_manager_v1"@.len() == 52);
    assert("ext_image_copy_capture_manager_v1"@.len() == 33);
}

/// A global that is needed is bound as soon as it is offered, under the number of the offer and at
/// the first version. A later offer takes the place of an earlier one.
pub proof fn law_bind_follows_offer(
    state: StateView,
    name: u32,
    interface: String,
    version: u32,
    global: Global,
)
    requires
        interface@ == interface_of(global),
    ensures
        ({
            let event = Event::Registry(RegistryEvent::Global { name, interface, version });
            &&& bind_for(event) matches Some(bind) && bind.global == global && bind.name == name
                && (version >= 1 ==> bind.version == 1)
            &&& state.after(event) == state.bound(global, name)
        }),
{
    law_global_names(global, interface@);
}

/// The state before any event: nothing is bound, listed, known, done, ready or failed.
pub proof fn law_silent_state()
    ensures
        ({
            let state = silent();
            &&& state.shm is None && state.toplevel_list is None
            &&& state.source_manager is None && state.capture_manager is None
            &&& state.toplevels.len() == 0
            &&& state.buffer_size is None
            &&& state.shm_formats.len() == 0
            &&& !state.session_done && !state.frame_ready && !state.frame_failed
        }),
{
}

/// The view of a state holds what its fields hold, window by window.
pub proof fn law_state_view(state: State)
    ensures
        state@.shm == state.shm,
        state@.toplevel_list == state.toplevel_list,
        state@.source_manager == state.source_manager,
        state@.capture_manager == state.capture_manager,
        state@.toplevels.len() == state.toplevels@.len(),
        forall|i: int|
            0 <= i < state.toplevels@.len() ==> ({
                let (handle, window) = state.toplevels@[i];
                &&& (#[trigger] state@.toplevels[i]).0 == handle
                &&& state@.toplevels[i].1.title == window.title@
                &&& state@.toplevels[i].1.app_id == window.app_id@
            }),
        state@.buffer_size == state.buffer_size,
        state@.shm_formats == state.shm_formats@,
        state@.session_done == state.session_done,
        state@.frame_ready == state.frame_ready,
        state@.frame_failed == state.frame_failed,
{
}

/// A window that is announced, whatever its handle, comes to the end of the list with that handle
/// and without names; nothing else changes.
pub proof fn law_announced_window_is_appended(state: StateView, handle: u64)
    ensures
        state.after(Event::List(ListEvent::Toplevel { handle })) == (StateView {
            toplevels: state.toplevels.push(
                (handle, ToplevelView { title: Seq::empty(), app_id: Seq::empty() }),
            ),
            ..state
        }),
{
}

/// Nothing but the announcement of a window changes the length of the list, and only events of
/// windows and of the list touch it at all.
pub proof fn law_only_announcements_lengthen_the_list(state: StateView, event: Event)
    ensures
        !(event matches Event::List(ListEvent::Toplevel { .. })) ==> state.after(
            event,
        ).toplevels.len() == state.toplevels.len(),
        event !is List && event !is Handle ==> state.after(event).toplevels == state.toplevels,
{
}

/// The size in the state is the one that the compositor sent last, both numbers as they were sent:
/// the event of a size sets it and changes nothing else, and no other event changes it.
pub proof fn law_size_is_what_was_sent(state: StateView, width: u32, height: u32, other: Event)
    ensures
        state.after(Event::Session(SessionEvent::BufferSize { width, height })) == (StateView {
            buffer_size: Some((width, height)),
            ..state
        }),
        !(other matches Event::Session(SessionEvent::BufferSize { .. })) ==> state.after(
            other,
        ).buffer_size == state.buffer_size,
{
}

/// The formats in the state are the codes that were sent and that the protocol knows, in their
/// order: such a code is appended and changes nothing else, a code that the protocol does not know
/// changes nothing, and no other event changes the formats.
pub proof fn law_formats_are_what_was_sent(state: StateView, code: u32, other: Event)
    ensures
        state.after(
            Event::Session(SessionEvent::ShmFormat { format: FormatCode::Known(code) }),
        ) == (StateView { shm_formats: state.shm_formats.push(code), ..state }),
        state.after(
            Event::Session(SessionEvent::ShmFormat { format: FormatCode::Unknown(code) }),
        ) == state,
        !(other matches Event::Session(SessionEvent::ShmFormat { .. })) ==> state.after(
            other,
        ).shm_formats == state.shm_formats,
{
}

/// Each mark in the state is set by its own events and by no other, and stays set: the end of the
/// constraints marks the session as done, a frame that is ready marks it so, a session that stops
/// and a frame that fails both mark the capture as failed.
pub proof fn law_marks_have_their_events(state: StateView, event: Event)
    ensures
        state.after(event).session_done <==> (state.session_done || event == Event::Session(
            SessionEvent::Done,
        )),
        state.after(event).frame_ready <==> (state.frame_ready || event == Event::Frame(
            FrameEvent::Ready,
        )),
        state.after(event).frame_failed <==> (state.frame_failed || event == Event::Session(
            SessionEvent::Stopped,
        ) || event == Event::Frame(FrameEvent::Failed)),
{
}

/// Events that the capture has no use for change nothing and call for nothing.
pub proof fn law_other_events_change_nothing(state: StateView, handle: u64)
    ensures
        state.after(Event::Registry(RegistryEvent::Other)) == state,
        state.after(Event::List(ListEvent::Other)) == state,
        state.after(Event::Handle { handle, event: HandleEvent::Other }) == state,
        state.after(Event::Session(SessionEvent::Other)) == state,
        state.after(Event::Frame(FrameEvent::Other)) == state,
{
}

/// What an offer of the compositor leads to, by the name of the interface. A needed global is
/// recorded under the number of the offer, with nothing else changed, and is to be bound under that
/// number: shared memory at version 1, the others at version 1 or the offered one if that is less.
/// Any other interface changes nothing and is not bound.
pub proof fn law_offers(state: StateView, name: u32, interface: String, version: u32)
    ensures
        ({
            let event = Event::Registry(RegistryEvent::Global { name, interface, version });
            let after = state.after(event);
            let least: u32 = if version < 1 {
                version
            } else {
                1
            };
            let shm = interface@ == "wl_shm"@;
            let list = interface@ == "ext_foreign_toplevel_list_v1"@;
            let source = interface@ == "ext_foreign_toplevel_image_capture_source_manager_v1"@;
            let capture = interface@ == "ext_image_copy_capture_manager_v1"@;
            &&& shm ==> after == (StateView { shm: Some(name), ..state }) && bind_for(event)
                == Some(Bind { global: Global::Shm, name, version: 1 })
            &&& list ==> after == (StateView { toplevel_list: Some(name), ..state }) && bind_for(
                event,
            ) == Some(Bind { global: Global::ToplevelList, name, version: least })
            &&& source ==> after == (StateView { source_manager: Some(name), ..state }) && bind_for(
                event,
            ) == Some(Bind { global: Global::SourceManager, name, version: least })
            &&& capture ==> after == (StateView { capture_manager: Some(name), ..state })
                && bind_for(event) == Some(
                Bind { global: Global::CaptureManager, name, version: least },
            )
            &&& !shm && !list && !source && !capture ==> after == state && bind_for(event) is None
        }),
{
    law_global_names(Global::Shm, interface@);
    law_global_names(Global::ToplevelList, interface@);
    law_global_names(Global::SourceManager, interface@);
    law_global_names(Global::CaptureManager, interface@);
}

/// Only an offer of the registry is bound, and only it changes which globals are bound.
pub proof fn law_only_offers_are_bound(state: StateView, event: Event)
    requires
        event !is Registry,
    ensures
        bind_for(event) is None,
        state.after(event).shm == state.shm,
        state.after(event).toplevel_list == state.toplevel_list,
        state.after(event).source_manager == state.source_manager,
        state.after(event).capture_manager == state.capture_manager,
{
}

/// Names that are sent for a window reach it whole: the first entry of its handle takes the title,
/// or the application's name, and keeps the other; every other entry and the rest of the state
/// stay as they are.
pub proof fn law_names_reach_their_window(
    state: StateView,
    handle: u64,
    i: int,
    title: String,
    app_id: String,
)
    requires
        0 <= i < state.toplevels.len(),
        state.toplevels[i].0 == handle,
        forall|j: int| 0 <= j < i ==> #[trigger] state.toplevels[j].0 != handle,
    ensures
        state.after(Event::Handle { handle, event: HandleEvent::Title { title } }) == (StateView {
            toplevels: state.toplevels.update(
                i,
                (handle, ToplevelView { title: title@, app_id: state.toplevels[i].1.app_id }),
            ),
            ..state
        }),
        state.after(Event::Handle { handle, event: HandleEvent::AppId { app_id } }) == (StateView {
            toplevels: state.toplevels.update(
                i,
                (handle, ToplevelView { title: state.toplevels[i].1.title, app_id: app_id@ }),
            ),
            ..state
        }),
{
    assert(is_entry_of(state.toplevels, handle, i));
    lemma_with_entry_keeps_entry(
        state.toplevels,
        handle,
        |t: ToplevelView| ToplevelView { title: title@, ..t },
        i,
    );
    lemma_with_entry_keeps_entry(
        state.toplevels,
        handle,
        |t: ToplevelView| ToplevelView { app_id: app_id@, ..t },
        i,
    );
}

/// An event of a window that was never announced changes nothing.
pub proof fn law_unknown_window_is_ignored(state: StateView, handle: u64, event: HandleEvent)
    requires
        forall|j: int| 0 <= j < state.toplevels.len() ==> #[trigger] state.toplevels[j].0 != handle,
    ensures
        state.after(Event::Handle { handle, event }) == state,
{
}

/// A window that is announced and named, under a handle that is new, stands at the end of the list
/// with exactly the names that were sent, whatever the handle is.
pub proof fn law_announced_and_named(state: StateView, handle: u64, title: String, app_id: String)
    requires
        forall|j: int| 0 <= j < state.toplevels.len() ==> #[trigger] state.toplevels[j].0 != handle,
    ensures
        state.after(Event::List(ListEvent::Toplevel { handle })).after(
            Event::Handle { handle, event: HandleEvent::Title { title } },
        ).after(Event::Handle { handle, event: HandleEvent::AppId { app_id } }) == (StateView {
            toplevels: state.toplevels.push(
                (handle, ToplevelView { title: title@, app_id: app_id@ }),
            ),
            ..state
        }),
{
    let n = state.toplevels.len() as int;
    let listed = state.after(Event::List(ListEvent::Toplevel { handle }));
    assert forall|j: int| 0 <= j < n implies #[trigger] listed.toplevels[j].0 != handle by {
        assert(listed.toplevels[j] == state.toplevels[j]);
    }
    law_names_reach_their_window(listed, handle, n, title, app_id);
    let titled = listed.after(Event::Handle { handle, event: HandleEvent::Title { title } });
    assert forall|j: int| 0 <= j < n implies #[trigger] titled.toplevels[j].0 != handle by {
        assert(titled.toplevels[j] == listed.toplevels[j]);
    }
    law_names_reach_their_window(titled, handle, n, title, app_id);
    let named = titled.after(Event::Handle { handle, event: HandleEvent::AppId { app_id } });
    assert(named.toplevels =~= state.toplevels.push(
        (handle, ToplevelView { title: title@, app_id: app_id@ }),
    ));
}

/// The view of a window holds its two texts, each in its place.
pub proof fn law_toplevel_view(window: Toplevel)
    ensures
        window@.title == window.title@,
        window@.app_id == window.app_id@,
        unnamed() == (ToplevelView { title: Seq::empty(), app_id: Seq::empty() }),
{
}

/// The four interfaces that the capture needs, and no others, are known by their names.
pub proof fn law_interface_names(interface: Seq<char>)
    ensures
        global_named(interface) == Some(Global::Shm) <==> interface == "wl_shm"@,
        global_named(interface) == Some(Global::ToplevelList) <==> interface
            == "ext_foreign_toplevel_list_v1"@,
        global_named(interface) == Some(Global::SourceManager) <==> interface
            == "ext_foreign_toplevel_image_capture_source_manager_v1"@,
        global_named(interface) == Some(Global::CaptureManager) <==> interface
            == "ext_image_copy_capture_manager_v1"@,
{
    law_global_names(Global::Shm, interface);
    law_global_names(Global::ToplevelList, interface);
    law_global_names(Global::SourceManager, interface);
    law_global_names(Global::CaptureManager, interface);
}

} // verus!
