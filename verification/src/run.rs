//! One run of the program, as a state machine: what to do next, given what the compositor has
//! said and how the last action went.
use crate::command::{command_of, parse_command, Command, CommandView};
use crate::frame::{
    as_signed, choose_format, layout_fits, preferred_format, rgba_of, to_rgba, BufferArgs, Layout,
    PixelFormat,
};
use crate::image::{encode_image, encoded, png_start, ImageError};
use crate::selection::picked;
use crate::state::{bind_for, law_what_was_said_stays, silent, Bind, Event, State, StateView};
use crate::text::{append_decimal, bracketed, bracketed_list, decimal, texts};
use vstd::prelude::*;

verus! {

/// What is to be done next.
#[derive(Debug)]
pub enum Action {
    /// Wait until the compositor has answered everything that was asked of it.
    Roundtrip,
    /// Wait for events.
    Dispatch,
    /// Write the lines to standard output.
    Print { lines: Vec<String> },
    /// Write the message to standard error, under the program's name.
    Report { message: String },
    /// Open a capture session for the window at this place of the list.
    OpenSession { index: usize },
    /// Allocate memory that can be shared.
    Allocate { size: usize },
    /// Lay a buffer over the memory and capture a frame into it.
    Capture { args: BufferArgs, format: PixelFormat },
    /// Hand in what stands in the memory.
    ReadPixels { size: usize },
    /// Create the file.
    CreateFile { path: String },
    /// Write the bytes to the file.
    WriteFile { bytes: Vec<u8> },
    /// End the program with the exit code, after the message under the program's name.
    Exit { code: i32, message: String },
    /// End the program by a panic with the message.
    Panic { message: String },
    /// The run is over.
    Finish,
}

/// The texts and bytes of an [`Action`].
pub enum ActionView {
    Roundtrip,
    Dispatch,
    Print { lines: Seq<Seq<char>> },
    Report { message: Seq<char> },
    OpenSession { index: int },
    Allocate { size: int },
    Capture { args: BufferArgs, format: PixelFormat },
    ReadPixels { size: int },
    CreateFile { path: Seq<char> },
    WriteFile { bytes: Seq<u8> },
    Exit { code: int, message: Seq<char> },
    Panic { message: Seq<char> },
    Finish,
}

impl View for Action {
    type V = ActionView;

    open spec fn view(&self) -> ActionView {
        match *self {
            Action::Roundtrip => ActionView::Roundtrip,
            Action::Dispatch => ActionView::Dispatch,
            Action::Print { lines } => ActionView::Print { lines: texts(lines@) },
            Action::Report { message } => ActionView::Report { message: message@ },
            Action::OpenSession { index } => ActionView::OpenSession { index: index as int },
            Action::Allocate { size } => ActionView::Allocate { size: size as int },
            Action::Capture { args, format } => ActionView::Capture { args, format },
            Action::ReadPixels { size } => ActionView::ReadPixels { size: size as int },
            Action::CreateFile { path } => ActionView::CreateFile { path: path@ },
            Action::WriteFile { bytes } => ActionView::WriteFile { bytes: bytes@ },
            Action::Exit { code, message } => ActionView::Exit {
                code: code as int,
                message: message@,
            },
            Action::Panic { message } => ActionView::Panic { message: message@ },
            Action::Finish => ActionView::Finish,
        }
    }
}

/// How the last action went. Pixels count only where they were asked for, and a refusal only where
/// a file was; elsewhere any reply says that the action was done.
#[derive(Debug)]
pub enum Reply<'a> {
    /// It was done.
    Done,
    /// The memory was read, and this is what stands in it.
    Pixels(&'a [u8]),
    /// The file could not be created, for this reason.
    Refused(String),
}

/// The texts and bytes of a [`Reply`].
pub enum ReplyView {
    Done,
    Pixels(Seq<u8>),
    Refused(Seq<char>),
}

impl<'a> View for Reply<'a> {
    type V = ReplyView;

    open spec fn view(&self) -> ReplyView {
        match *self {
            Reply::Done => ReplyView::Done,
            Reply::Pixels(pixels) => ReplyView::Pixels(pixels@),
            Reply::Refused(reason) => ReplyView::Refused(reason@),
        }
    }
}

impl ReplyView {
    /// The pixels that were handed in; none with any other reply.
    pub open spec fn pixels(self) -> Seq<u8> {
        match self {
            ReplyView::Pixels(pixels) => pixels,
            _ => Seq::empty(),
        }
    }
}

/// How far a run has come.
#[derive(Debug)]
pub enum Phase {
    /// Nothing was asked of the compositor yet.
    Start,
    /// The globals were bound.
    Bound,
    /// The windows are known.
    Listed,
    /// A window was picked.
    Picked { index: usize, out_path: String },
    /// A session was opened, and its constraints are awaited.
    Opened { out_path: String },
    /// The constraints are known, and memory was allocated.
    Allocated { layout: Layout, format: PixelFormat, out_path: String },
    /// A frame is being captured.
    Capturing { layout: Layout, out_path: String },
    /// The frame is in the memory.
    Captured { layout: Layout, out_path: String },
    /// The image is known, and its file was asked for.
    Created { layout: Layout, rgba: Vec<u8>, out_path: String },
    /// The file was written.
    Written { layout: Layout, out_path: String },
    /// The run is over.
    Over,
}

/// The texts and bytes of a [`Phase`].
pub enum PhaseView {
    Start,
    Bound,
    Listed,
    Picked { index: int, out_path: Seq<char> },
    Opened { out_path: Seq<char> },
    Allocated { layout: Layout, format: PixelFormat, out_path: Seq<char> },
    Capturing { layout: Layout, out_path: Seq<char> },
    Captured { layout: Layout, out_path: Seq<char> },
    Created { layout: Layout, rgba: Seq<u8>, out_path: Seq<char> },
    Written { layout: Layout, out_path: Seq<char> },
    Over,
}

impl View for Phase {
    type V = PhaseView;

    open spec fn view(&self) -> PhaseView {
        match *self {
            Phase::Start => PhaseView::Start,
            Phase::Bound => PhaseView::Bound,
            Phase::Listed => PhaseView::Listed,
            Phase::Picked { index, out_path } => PhaseView::Picked {
                index: index as int,
                out_path: out_path@,
            },
            Phase::Opened { out_path } => PhaseView::Opened { out_path: out_path@ },
            Phase::Allocated { layout, format, out_path } => PhaseView::Allocated {
                layout,
                format,
                out_path: out_path@,
            },
            Phase::Capturing { layout, out_path } => PhaseView::Capturing {
                layout,
                out_path: out_path@,
            },
            Phase::Captured { layout, out_path } => PhaseView::Captured {
                layout,
                out_path: out_path@,
            },
            Phase::Created { layout, rgba, out_path } => PhaseView::Created {
                layout,
                rgba: rgba@,
                out_path: out_path@,
            },
            Phase::Written { layout, out_path } => PhaseView::Written {
                layout,
                out_path: out_path@,
            },
            Phase::Over => PhaseView::Over,
        }
    }
}

impl PhaseView {
    /// The path that the image goes to, once a window was picked.
    pub open spec fn path(self) -> Option<Seq<char>> {
        match self {
            PhaseView::Picked { out_path, .. }
            | PhaseView::Opened { out_path }
            | PhaseView::Allocated { out_path, .. }
            | PhaseView::Capturing { out_path, .. }
            | PhaseView::Captured { out_path, .. }
            | PhaseView::Created { out_path, .. }
            | PhaseView::Written { out_path, .. } => Some(out_path),
            _ => None,
        }
    }

    /// The layout of the frame, once memory was allocated for it.
    pub open spec fn frame_layout(self) -> Option<Layout> {
        match self {
            PhaseView::Allocated { layout, .. }
            | PhaseView::Capturing { layout, .. }
            | PhaseView::Captured { layout, .. }
            | PhaseView::Created { layout, .. }
            | PhaseView::Written { layout, .. } => Some(layout),
            _ => None,
        }
    }
}

/// The layout of a frame of this size.
pub open spec fn layout_of(width: u32, height: u32) -> Layout {
    Layout {
        width,
        height,
        stride: (4 * width) as u32,
        size: (4 * width * height) as usize,
    }
}

/// A layout in the integers of the protocol.
pub open spec fn args_of(layout: Layout) -> BufferArgs {
    BufferArgs {
        pool_size: as_signed(layout.size as int) as i32,
        width: as_signed(layout.width as int) as i32,
        height: as_signed(layout.height as int) as i32,
        stride: as_signed(layout.stride as int) as i32,
    }
}

/// The message that a picked window is being captured.
pub open spec fn capturing_text(description: Seq<char>) -> Seq<char> {
    "capturing "@ + description
}

/// The message that no window fits the selector.
pub open spec fn no_match_text(selector: Seq<char>) -> Seq<char> {
    "no toplevel matching '"@ + selector + "'"@
}

/// The message that none of the offered formats can be used.
pub open spec fn no_format_text(offered: Seq<u32>) -> Seq<char> {
    "no usable shm format in "@ + bracketed(offered)
}

/// The message that the file could not be created.
pub open spec fn refused_text(out_path: Seq<char>, reason: Seq<char>) -> Seq<char> {
    "cannot create "@ + out_path + ": "@ + reason
}

/// The message that the file was written.
pub open spec fn saved_text(out_path: Seq<char>, width: u32, height: u32) -> Seq<char> {
    "saved "@ + out_path + " ("@ + decimal(width as nat) + "x"@ + decimal(height as nat) + ")"@
}

/// The end of a run with an exit code.
pub open spec fn exit(code: int, message: Seq<char>) -> (PhaseView, ActionView) {
    (PhaseView::Over, ActionView::Exit { code, message })
}

/// The end of a run by a panic.
pub open spec fn panics(message: Seq<char>) -> (PhaseView, ActionView) {
    (PhaseView::Over, ActionView::Panic { message })
}

/// Once the windows are known: the listing, or the announcement of the picked window. Without the
/// window list there is neither.
pub open spec fn when_listed(args: Seq<Seq<char>>, state: StateView) -> (PhaseView, ActionView) {
    if state.toplevel_list is None {
        exit(2, "compositor lacks ext_foreign_toplevel_list_v1"@)
    } else {
        match command_of(args) {
            Err(usage) => exit(1, usage.text()),
            Ok(CommandView::List) => (
                PhaseView::Over,
                ActionView::Print { lines: state.listing() },
            ),
            Ok(CommandView::Grab { selector, out_path }) => match picked(
                state.toplevels,
                selector,
            ) {
                None => exit(3, no_match_text(selector)),
                Some(index) => (
                    PhaseView::Picked { index, out_path },
                    ActionView::Report {
                        message: capturing_text(state.toplevels[index].1.description()),
                    },
                ),
            },
        }
    }
}

/// Once a window is picked: a session for it, which takes both managers.
pub open spec fn when_picked(state: StateView, index: int, out_path: Seq<char>) -> (
    PhaseView,
    ActionView,
) {
    if state.source_manager is None {
        exit(2, "no toplevel image-capture-source manager"@)
    } else if state.capture_manager is None {
        exit(2, "no ext_image_copy_capture_manager_v1"@)
    } else {
        (PhaseView::Opened { out_path }, ActionView::OpenSession { index })
    }
}

/// Once a session is open: wait for the end of its constraints, then allocate what they ask for. A
/// session that stops only after its constraints shows in the frame.
pub open spec fn when_opened(state: StateView, out_path: Seq<char>) -> (PhaseView, ActionView) {
    if state.frame_failed && !state.session_done {
        exit(4, "capture session stopped before constraints arrived"@)
    } else if !state.session_done {
        (PhaseView::Opened { out_path }, ActionView::Dispatch)
    } else {
        match (state.buffer_size, preferred_format(state.shm_formats)) {
            (None, _) => panics("session sent no buffer size"@),
            (Some(_), None) => exit(5, no_format_text(state.shm_formats)),
            (Some((width, height)), Some(format)) => if layout_fits(width, height) {
                let layout = layout_of(width, height);
                (
                    PhaseView::Allocated { layout, format, out_path },
                    ActionView::Allocate { size: layout.size as int },
                )
            } else {
                panics("attempt to multiply with overflow"@)
            },
        }
    }
}

/// Once memory is allocated: the capture, which takes the global of shared memory.
pub open spec fn when_allocated(
    state: StateView,
    layout: Layout,
    format: PixelFormat,
    out_path: Seq<char>,
) -> (PhaseView, ActionView) {
    if state.shm is None {
        panics("no wl_shm"@)
    } else {
        (
            PhaseView::Capturing { layout, out_path },
            ActionView::Capture { args: args_of(layout), format },
        )
    }
}

/// While a frame is being captured: wait for it, then have it read.
pub open spec fn when_capturing(state: StateView, layout: Layout, out_path: Seq<char>) -> (
    PhaseView,
    ActionView,
) {
    if state.frame_failed {
        exit(6, "frame capture failed"@)
    } else if !state.frame_ready {
        (PhaseView::Capturing { layout, out_path }, ActionView::Dispatch)
    } else {
        (
            PhaseView::Captured { layout, out_path },
            ActionView::ReadPixels { size: layout.size as int },
        )
    }
}

/// Once the frame was read: its image, and a file for it.
pub open spec fn when_captured(layout: Layout, out_path: Seq<char>, reply: ReplyView) -> (
    PhaseView,
    ActionView,
) {
    (
        PhaseView::Created { layout, rgba: rgba_of(reply.pixels()), out_path },
        ActionView::CreateFile { path: out_path },
    )
}

/// Once the image was encoded: the bytes to write.
pub open spec fn when_encoded(
    layout: Layout,
    out_path: Seq<char>,
    image: Result<Seq<u8>, ImageError>,
) -> (PhaseView, ActionView) {
    match image {
        Err(ImageError::Header) => panics("png header"@),
        Err(ImageError::Data) => panics("png data"@),
        Ok(bytes) => (PhaseView::Written { layout, out_path }, ActionView::WriteFile { bytes }),
    }
}

/// Once the file was created, or not.
pub open spec fn when_created(
    layout: Layout,
    rgba: Seq<u8>,
    out_path: Seq<char>,
    reply: ReplyView,
) -> (PhaseView, ActionView) {
    match reply {
        ReplyView::Refused(reason) => exit(1, refused_text(out_path, reason)),
        _ => when_encoded(layout, out_path, encoded(layout.width, layout.height, rgba)),
    }
}

/// Once the file was written: the last message.
pub open spec fn when_written(layout: Layout, out_path: Seq<char>) -> (PhaseView, ActionView) {
    (
        PhaseView::Over,
        ActionView::Report { message: saved_text(out_path, layout.width, layout.height) },
    )
}

/// The phase that follows, and what is to be done to get there.
pub open spec fn next(
    args: Seq<Seq<char>>,
    state: StateView,
    phase: PhaseView,
    reply: ReplyView,
) -> (PhaseView, ActionView) {
    match phase {
        PhaseView::Start => (PhaseView::Bound, ActionView::Roundtrip),
        PhaseView::Bound => (PhaseView::Listed, ActionView::Roundtrip),
        PhaseView::Listed => when_listed(args, state),
        PhaseView::Picked { index, out_path } => when_picked(state, index, out_path),
        PhaseView::Opened { out_path } => when_opened(state, out_path),
        PhaseView::Allocated { layout, format, out_path } => when_allocated(
            state,
            layout,
            format,
            out_path,
        ),
        PhaseView::Capturing { layout, out_path } => when_capturing(state, layout, out_path),
        PhaseView::Captured { layout, out_path } => when_captured(layout, out_path, reply),
        PhaseView::Created { layout, rgba, out_path } => when_created(
            layout,
            rgba,
            out_path,
            reply,
        ),
        PhaseView::Written { layout, out_path } => when_written(layout, out_path),
        PhaseView::Over => (PhaseView::Over, ActionView::Finish),
    }
}

/// One run of the program.
#[derive(Debug)]
pub struct Run {
    args: Vec<String>,
    state: State,
    phase: Phase,
}

/// The contents of a [`Run`].
#[verifier::ext_equal]
pub struct RunView {
    pub args: Seq<Seq<char>>,
    pub state: StateView,
    pub phase: PhaseView,
}

impl View for Run {
    type V = RunView;

    closed spec fn view(&self) -> RunView {
        RunView { args: texts(self.args@), state: self.state@, phase: self.phase@ }
    }
}

impl RunView {
    /// The run after an event.
    pub open spec fn after(self, event: Event) -> RunView {
        RunView { state: self.state.after(event), ..self }
    }

    /// The run after a step.
    pub open spec fn stepped(self, reply: ReplyView) -> RunView {
        RunView { phase: next(self.args, self.state, self.phase, reply).0, ..self }
    }

    /// What a step asks for.
    pub open spec fn action(self, reply: ReplyView) -> ActionView {
        next(self.args, self.state, self.phase, reply).1
    }

    /// Whether the globals that lead from a window to a frame were bound.
    pub open spec fn has_managers(self) -> bool {
        &&& self.state.toplevel_list is Some
        &&& self.state.source_manager is Some
        &&& self.state.capture_manager is Some
    }

    /// Whether the command line asks for a capture into this file.
    pub open spec fn grabs_into(self, path: Seq<char>) -> bool {
        command_of(self.args) matches Ok(CommandView::Grab { out_path, .. }) && out_path == path
    }

    /// What holds of every run: the file is that of the command line, and the phase that was
    /// reached rests on what the compositor said.
    pub open spec fn wf(self) -> bool {
        &&& self.phase.path() matches Some(path) ==> self.grabs_into(path)
        &&& match self.phase {
            PhaseView::Start | PhaseView::Bound | PhaseView::Listed | PhaseView::Over => true,
            PhaseView::Picked { index, .. } => {
                &&& self.state.toplevel_list is Some
                &&& 0 <= index < self.state.toplevels.len()
            },
            PhaseView::Opened { .. } => self.has_managers(),
            PhaseView::Allocated { layout, format, .. } => {
                &&& self.has_managers()
                &&& self.state.session_done
                &&& layout.wf()
                &&& self.state.shm_formats.contains(format.code())
            },
            PhaseView::Capturing { layout, .. } => {
                &&& self.has_managers()
                &&& self.state.session_done
                &&& layout.wf()
                &&& self.state.shm is Some
            },
            PhaseView::Captured { layout, .. }
            | PhaseView::Created { layout, .. }
            | PhaseView::Written { layout, .. } => {
                &&& self.has_managers()
                &&& self.state.session_done
                &&& layout.wf()
                &&& self.state.shm is Some
                &&& self.state.frame_ready
            },
        }
    }
}

/// The run of a command line, before it has done anything.
pub open spec fn start(args: Seq<Seq<char>>) -> RunView {
    RunView { args, state: silent(), phase: PhaseView::Start }
}

/// What is known of a pair of a phase and an action.
pub open spec fn pair(result: (Phase, Action)) -> (PhaseView, ActionView) {
    (result.0@, result.1@)
}

fn exit_with(code: i32, message: String) -> (result: (Phase, Action))
    ensures
        pair(result) == exit(code as int, message@),
{
    (Phase::Over, Action::Exit { code, message })
}

fn panic_with(message: &str) -> (result: (Phase, Action))
    ensures
        pair(result) == panics(message@),
{
    (Phase::Over, Action::Panic { message: message.to_string() })
}

fn decide_listed(args: &Vec<String>, state: &State) -> (result: (Phase, Action))
    ensures
        pair(result) == when_listed(texts(args@), state@),
{
    if state.toplevel_list.is_none() {
        return exit_with(2, "compositor lacks ext_foreign_toplevel_list_v1".to_string());
    }
    match parse_command(args) {
        Err(usage) => exit_with(1, usage.message()),
        Ok(Command::List) => (Phase::Over, Action::Print { lines: state.listing() }),
        Ok(Command::Grab { selector, out_path }) => match state.find_toplevel(&selector) {
            None => {
                let mut message = "no toplevel matching '".to_string();
                message.append(selector.as_str());
                message.append("'");
                exit_with(3, message)
            },
            Some(index) => {
                let mut message = "capturing ".to_string();
                message.append(state.toplevels[index].1.describe().as_str());
                (Phase::Picked { index, out_path }, Action::Report { message })
            },
        },
    }
}

fn decide_picked(state: &State, index: usize, out_path: String) -> (result: (Phase, Action))
    ensures
        pair(result) == when_picked(state@, index as int, out_path@),
{
    if state.source_manager.is_none() {
        exit_with(2, "no toplevel image-capture-source manager".to_string())
    } else if state.capture_manager.is_none() {
        exit_with(2, "no ext_image_copy_capture_manager_v1".to_string())
    } else {
        (Phase::Opened { out_path }, Action::OpenSession { index })
    }
}

fn decide_opened(state: &State, out_path: String) -> (result: (Phase, Action))
    ensures
        pair(result) == when_opened(state@, out_path@),
{
    if state.frame_failed && !state.session_done {
        return exit_with(4, "capture session stopped before constraints arrived".to_string());
    }
    if !state.session_done {
        return (Phase::Opened { out_path }, Action::Dispatch);
    }
    let (width, height) = match state.buffer_size {
        Some(size) => size,
        None => {
            return panic_with("session sent no buffer size");
        },
    };
    let format = match choose_format(&state.shm_formats) {
        Some(format) => format,
        None => {
            let mut message = "no usable shm format in ".to_string();
            message.append(bracketed_list(&state.shm_formats).as_str());
            return exit_with(5, message);
        },
    };
    match Layout::new(width, height) {
        Some(layout) => (
            Phase::Allocated { layout, format, out_path },
            Action::Allocate { size: layout.size },
        ),
        None => panic_with("attempt to multiply with overflow"),
    }
}

fn decide_allocated(
    state: &State,
    layout: Layout,
    format: PixelFormat,
    out_path: String,
) -> (result: (Phase, Action))
    requires
        layout.wf(),
    ensures
        pair(result) == when_allocated(state@, layout, format, out_path@),
{
    if state.shm.is_none() {
        panic_with("no wl_shm")
    } else {
        (
            Phase::Capturing { layout, out_path },
            Action::Capture { args: layout.buffer_args(), format },
        )
    }
}

fn decide_capturing(state: &State, layout: Layout, out_path: String) -> (result: (Phase, Action))
    ensures
        pair(result) == when_capturing(state@, layout, out_path@),
{
    if state.frame_failed {
        exit_with(6, "frame capture failed".to_string())
    } else if !state.frame_ready {
        (Phase::Capturing { layout, out_path }, Action::Dispatch)
    } else {
        (Phase::Captured { layout, out_path }, Action::ReadPixels { size: layout.size })
    }
}

fn decide_captured(layout: Layout, out_path: String, reply: &Reply) -> (result: (Phase, Action))
    ensures
        pair(result) == when_captured(layout, out_path@, reply@),
{
    let rgba = match reply {
        Reply::Pixels(pixels) => to_rgba(pixels),
        _ => Vec::new(),
    };
    assert(rgba_of(Seq::<u8>::empty()) =~= Seq::<u8>::empty());
    let path = out_path.clone();
    (Phase::Created { layout, rgba, out_path }, Action::CreateFile { path })
}

/// What follows the encoding of an image: the bytes to write, or a panic that names the step.
pub fn decide_encoded(
    layout: Layout,
    out_path: String,
    image: Result<Vec<u8>, ImageError>,
) -> (result: (Phase, Action))
    ensures
        pair(result) == when_encoded(
            layout,
            out_path@,
            match image {
                Ok(bytes) => Ok(bytes@),
                Err(step) => Err(step),
            },
        ),
        image matches Ok(bytes) ==> (result.1 matches Action::WriteFile { bytes: out } && out@
            == bytes@),
        image is Err ==> result.1 is Panic && result.0 is Over,
{
    match image {
        Err(ImageError::Header) => panic_with("png header"),
        Err(ImageError::Data) => panic_with("png data"),
        Ok(bytes) => (Phase::Written { layout, out_path }, Action::WriteFile { bytes }),
    }
}

fn decide_created(
    layout: Layout,
    rgba: Vec<u8>,
    out_path: String,
    reply: &Reply,
) -> (result: (Phase, Action))
    requires
        layout.wf(),
    ensures
        pair(result) == when_created(layout, rgba@, out_path@, reply@),
        result.1 matches Action::WriteFile { bytes } ==> png_start(
            layout.width,
            layout.height,
        ).is_prefix_of(bytes@),
        reply@ !is Refused && layout.size > 0 && rgba@.len() == layout.size ==> result.1
            is WriteFile,
{
    proof {
        let (w, h) = (layout.width as int, layout.height as int);
        if layout.size > 0 {
            assert(w > 0 && h > 0) by (nonlinear_arith)
                requires
                    w >= 0,
                    h >= 0,
                    4 * w * h > 0,
            ;
        }
    }
    match reply {
        Reply::Refused(reason) => {
            let mut message = "cannot create ".to_string();
            message.append(out_path.as_str());
            message.append(": ");
            message.append(reason.as_str());
            exit_with(1, message)
        },
        _ => decide_encoded(layout, out_path, encode_image(layout.width, layout.height, &rgba)),
    }
}

fn decide_written(layout: Layout, out_path: String) -> (result: (Phase, Action))
    ensures
        pair(result) == when_written(layout, out_path@),
{
    let mut message = "saved ".to_string();
    message.append(out_path.as_str());
    message.append(" (");
    append_decimal(&mut message, layout.width);
    message.append("x");
    append_decimal(&mut message, layout.height);
    message.append(")");
    (Phase::Over, Action::Report { message })
}

impl Run {
    /// The run of a command line, before it has done anything.
    pub fn new(args: Vec<String>) -> (run: Run)
        ensures
            run@ == start(texts(args@)),
            run@.wf(),
    {
        Run { args, state: State::default(), phase: Phase::Start }
    }

    /// What the compositor has said so far.
    pub fn state(&self) -> (state: &State)
        ensures
            state@ == self@.state,
    {
        &self.state
    }

    /// Takes in an event, and says which global to bind on account of it.
    pub fn event(&mut self, event: Event) -> (bind: Option<Bind>)
        requires
            old(self)@.wf(),
        ensures
            final(self)@ == old(self)@.after(event),
            final(self)@.wf(),
            bind == bind_for(event),
    {
        proof {
            law_what_was_said_stays(self.state@, event);
        }
        self.state.event(event)
    }

    /// Takes the next step: says what is to be done, given how the last action went.
    pub fn step(&mut self, reply: Reply) -> (action: Action)
        requires
            old(self)@.wf(),
        ensures
            final(self)@ == old(self)@.stepped(reply@),
            final(self)@.wf(),
            action@ == old(self)@.action(reply@),
            (old(self)@.phase, action@) matches (
                PhaseView::Created { layout, .. },
                ActionView::WriteFile { bytes },
            ) ==> png_start(layout.width, layout.height).is_prefix_of(bytes),
            old(self)@.phase matches PhaseView::Created { layout, rgba, .. } && reply@ !is Refused
                && layout.size > 0 && rgba.len() == layout.size ==> action@ is WriteFile,
    {
        let mut phase = Phase::Over;
        std::mem::swap(&mut phase, &mut self.phase);
        let (next_phase, action) = match phase {
            Phase::Start => (Phase::Bound, Action::Roundtrip),
            Phase::Bound => (Phase::Listed, Action::Roundtrip),
            Phase::Listed => decide_listed(&self.args, &self.state),
            Phase::Picked { index, out_path } => decide_picked(&self.state, index, out_path),
            Phase::Opened { out_path } => decide_opened(&self.state, out_path),
            Phase::Allocated { layout, format, out_path } => decide_allocated(
                &self.state,
                layout,
                format,
                out_path,
            ),
            Phase::Capturing { layout, out_path } => decide_capturing(
                &self.state,
                layout,
                out_path,
            ),
            Phase::Captured { layout, out_path } => decide_captured(layout, out_path, &reply),
            Phase::Created { layout, rgba, out_path } => decide_created(
                layout,
                rgba,
                out_path,
                &reply,
            ),
            Phase::Written { layout, out_path } => decide_written(layout, out_path),
            Phase::Over => (Phase::Over, Action::Finish),
        };
        self.phase = next_phase;
        action
    }
}

} // verus!
