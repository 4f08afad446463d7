//! What holds of whole runs, whatever the compositor says and however the actions go.
use crate::command::{command_of, law_modes, CommandView, Usage};
use crate::frame::{
    as_signed, law_pixel_channels, layout_fits, preferred_format, rgba_of, Layout,
};
use crate::image::{encoded, png_file, ImageError};
use crate::run::{saved_text, start, ActionView, PhaseView, ReplyView, RunView};
use crate::selection::picked;
use crate::state::{law_what_was_said_stays, Event, SessionEvent};
use crate::text::decimal;
use vstd::prelude::*;

verus! {

/// What drives a run: an event of the compositor, or a step with a reply to the last action.
pub enum Input {
    Event(Event),
    Step(ReplyView),
}

impl RunView {
    /// The run after one input.
    pub open spec fn fed(self, input: Input) -> RunView {
        match input {
            Input::Event(event) => self.after(event),
            Input::Step(reply) => self.stepped(reply),
        }
    }

    /// The run after all the inputs, in their order.
    pub open spec fn played(self, inputs: Seq<Input>) -> RunView
        decreases inputs.len(),
    {
        if inputs.len() == 0 {
            self
        } else {
            self.played(inputs.drop_last()).fed(inputs.last())
        }
    }

    /// The run after all the events, in their order, and no step.
    pub open spec fn heard(self, events: Seq<Event>) -> RunView
        decreases events.len(),
    {
        if events.len() == 0 {
            self
        } else {
            self.heard(events.drop_last()).after(events.last())
        }
    }

    /// Whether the run has not been asked for pixels yet.
    pub open spec fn before_pixels(self) -> bool {
        match self.phase {
            PhaseView::Captured { .. } | PhaseView::Created { .. } | PhaseView::Written { .. } => {
                false
            },
            _ => true,
        }
    }
}

/// An event leaves a run well formed.
pub proof fn law_event_keeps_wf(run: RunView, event: Event)
    requires
        run.wf(),
    ensures
        run.after(event).wf(),
{
    law_what_was_said_stays(run.state, event);
}

/// A step leaves a run well formed.
pub proof fn law_step_keeps_wf(run: RunView, reply: ReplyView)
    requires
        run.wf(),
    ensures
        run.stepped(reply).wf(),
{
}

/// Every run that starts at the beginning is well formed at all times: no phase is reached before
/// the compositor has said what it rests on.
pub proof fn law_every_run_is_wf(args: Seq<Seq<char>>, inputs: Seq<Input>)
    ensures
        start(args).played(inputs).wf(),
        start(args).played(inputs).args == args,
    decreases inputs.len(),
{
    if inputs.len() > 0 {
        law_every_run_is_wf(args, inputs.drop_last());
        let run = start(args).played(inputs.drop_last());
        match inputs.last() {
            Input::Event(event) => law_event_keeps_wf(run, event),
            Input::Step(reply) => law_step_keeps_wf(run, reply),
        }
    }
}

/// Whether an action ends the program with this exit code.
pub open spec fn exits(action: ActionView, code: int) -> bool {
    action matches ActionView::Exit { code: c, .. } && c == code
}

/// An exit code comes exactly with its cause: 1 for a command line that asks for nothing and for a
/// file that cannot be created, 2 for a protocol that the compositor lacks, 3 for a selector that
/// no window fits, 4 for a session that stopped before its constraints were known, 5 for formats
/// that cannot be used, 6 for a frame that failed.
pub proof fn law_exit_codes(run: RunView, reply: ReplyView)
    ensures
        ({
            let state = run.state;
            let action = run.action(reply);
            let listed = run.phase is Listed && state.toplevel_list is Some;
            &&& action is Exit ==> exists|code: int| 1 <= code <= 6 && #[trigger] exits(action, code)
            &&& exits(action, 1) <==> (listed && command_of(run.args) is Err) || (
            run.phase is Created && reply is Refused)
            &&& exits(action, 2) <==> (run.phase is Listed && state.toplevel_list is None) || (
            run.phase is Picked && (state.source_manager is None || state.capture_manager is None))
            &&& exits(action, 3) <==> listed && (command_of(run.args) matches Ok(
                CommandView::Grab { selector, .. },
            ) && picked(state.toplevels, selector) is None)
            &&& exits(action, 4) <==> run.phase is Opened && state.frame_failed
                && !state.session_done
            &&& exits(action, 5) <==> run.phase is Opened && state.session_done && state.buffer_size is Some && !state.shm_formats.contains(0)
                && !state.shm_formats.contains(1)
            &&& exits(action, 6) <==> run.phase is Capturing && state.frame_failed
        }),
{
    let action = run.action(reply);
    assert(action matches ActionView::Exit { code, .. } ==> exits(action, code) && 1 <= code <= 6);
}

/// A panic comes exactly with its cause: a session without a size, a frame whose length is no
/// 32-bit number, a compositor without shared memory, an image that the encoder refuses.
pub proof fn law_panics(run: RunView, reply: ReplyView)
    ensures
        run.action(reply) is Panic <==> match run.phase {
            PhaseView::Opened { .. } => {
                &&& run.state.session_done
                &&& match run.state.buffer_size {
                    None => true,
                    Some((width, height)) => preferred_format(run.state.shm_formats) is Some
                        && !layout_fits(width, height),
                }
            },
            PhaseView::Allocated { .. } => run.state.shm is None,
            PhaseView::Created { layout, rgba, .. } => reply !is Refused && encoded(
                layout.width,
                layout.height,
                rgba,
            ) is Err,
            _ => false,
        },
{
}

/// How many phases are still ahead.
pub open spec fn ahead(phase: PhaseView) -> nat {
    match phase {
        PhaseView::Start => 10,
        PhaseView::Bound => 9,
        PhaseView::Listed => 8,
        PhaseView::Picked { .. } => 7,
        PhaseView::Opened { .. } => 6,
        PhaseView::Allocated { .. } => 5,
        PhaseView::Capturing { .. } => 4,
        PhaseView::Captured { .. } => 3,
        PhaseView::Created { .. } => 2,
        PhaseView::Written { .. } => 1,
        PhaseView::Over => 0,
    }
}

/// A step either waits for events and leaves the run as it is, or brings it forward; and a run
/// that is over stays over. So a run ends unless it waits for the compositor for ever.
pub proof fn law_steps_make_progress(run: RunView, reply: ReplyView)
    ensures
        run.action(reply) is Dispatch ==> run.stepped(reply) == run,
        run.action(reply) !is Dispatch && run.phase !is Over ==> ahead(run.stepped(reply).phase)
            < ahead(run.phase),
        run.action(reply) is Finish <==> run.phase is Over,
        run.phase is Over ==> run.stepped(reply) == run,
{
}

/// A run waits only for what has not come yet: for the constraints until they are done or the
/// session has ended, for the frame until it is ready or has failed.
pub proof fn law_waits_only_while_needed(run: RunView, reply: ReplyView)
    ensures
        run.action(reply) is Dispatch <==> !run.state.frame_failed && ((run.phase is Opened
            && !run.state.session_done) || (run.phase is Capturing && !run.state.frame_ready)),
{
}

/// How many of the inputs are steps.
pub open spec fn steps(inputs: Seq<Input>) -> nat
    decreases inputs.len(),
{
    if inputs.len() == 0 {
        0
    } else {
        steps(inputs.drop_last()) + if inputs.last() is Step {
            1nat
        } else {
            0nat
        }
    }
}

/// A run asks the compositor twice before it looks at the windows, whatever is said in between.
pub proof fn law_two_roundtrips(args: Seq<Seq<char>>, inputs: Seq<Input>, reply: ReplyView)
    ensures
        ({
            let run = start(args).played(inputs);
            &&& steps(inputs) == 0 <==> run.phase is Start
            &&& steps(inputs) == 1 <==> run.phase is Bound
            &&& steps(inputs) < 2 ==> run.action(reply) is Roundtrip
            &&& steps(inputs) == 2 <==> run.phase is Listed
            &&& steps(inputs) >= 2 ==> run.action(reply) !is Roundtrip
        }),
    decreases inputs.len(),
{
    if inputs.len() > 0 {
        law_two_roundtrips(args, inputs.drop_last(), reply);
    }
}

/// Without the request for a capture nothing is captured: at all times such a run has only talked
/// about windows.
pub proof fn law_listing_captures_nothing(args: Seq<Seq<char>>, inputs: Seq<Input>)
    requires
        !(command_of(args) matches Ok(CommandView::Grab { .. })),
    ensures
        ({
            let phase = start(args).played(inputs).phase;
            phase is Start || phase is Bound || phase is Listed || phase is Over
        }),
    decreases inputs.len(),
{
    if inputs.len() > 0 {
        law_listing_captures_nothing(args, inputs.drop_last());
        law_every_run_is_wf(args, inputs.drop_last());
    }
}

/// Events do not move a run to another phase, and they keep every window at its place.
pub proof fn law_events_keep_phase(run: RunView, said: Seq<Event>)
    ensures
        run.heard(said).phase == run.phase,
        run.heard(said).args == run.args,
        run.state.toplevels.len() <= run.heard(said).state.toplevels.len(),
        forall|i: int|
            0 <= i < run.state.toplevels.len() ==> (#[trigger] run.heard(said).state.toplevels[i]).0
                == run.state.toplevels[i].0,
    decreases said.len(),
{
    if said.len() > 0 {
        law_events_keep_phase(run, said.drop_last());
        let before = run.heard(said.drop_last());
        law_what_was_said_stays(before.state, said.last());
        assert forall|i: int| 0 <= i < run.state.toplevels.len() implies (
        #[trigger] run.heard(said).state.toplevels[i]).0 == run.state.toplevels[i].0 by {
            assert(before.state.toplevels[i].0 == run.state.toplevels[i].0);
        }
    }
}

/// The session is opened for the window that the selector picked, whatever is said between the
/// announcement and the session.
pub proof fn law_session_is_for_picked_window(
    run: RunView,
    said: Seq<Event>,
    selector: Seq<char>,
    out_path: Seq<char>,
    index: int,
    reply: ReplyView,
    next_reply: ReplyView,
)
    requires
        run.phase is Listed,
        run.state.toplevel_list is Some,
        command_of(run.args) == Ok::<CommandView, Usage>(
            CommandView::Grab { selector, out_path },
        ),
        picked(run.state.toplevels, selector) == Some(index),
        run.stepped(reply).heard(said).has_managers(),
    ensures
        ({
            let later = run.stepped(reply).heard(said);
            &&& later.action(next_reply) == (ActionView::OpenSession { index })
            &&& 0 <= index < run.state.toplevels.len()
            &&& later.state.toplevels[index].0 == run.state.toplevels[index].0
        }),
{
    law_events_keep_phase(run.stepped(reply), said);
}

/// A capture that has failed before its pixels were asked for never writes a file: from there on
/// the run does not come to its pixels any more.
pub proof fn law_failed_capture_writes_nothing(run: RunView, inputs: Seq<Input>, reply: ReplyView)
    requires
        run.before_pixels(),
        run.state.frame_failed,
    ensures
        run.played(inputs).before_pixels(),
        run.played(inputs).state.frame_failed,
        run.played(inputs).action(reply) !is WriteFile,
    decreases inputs.len(),
{
    if inputs.len() > 0 {
        law_failed_capture_writes_nothing(run, inputs.drop_last(), reply);
        let before = run.played(inputs.drop_last());
        match inputs.last() {
            Input::Event(event) => law_what_was_said_stays(before.state, event),
            Input::Step(_) => {},
        }
    }
}

/// A file is written only at the end of a capture: the compositor had what it takes, its
/// constraints were known, and the frame was ready.
pub proof fn law_file_needs_frame(args: Seq<Seq<char>>, inputs: Seq<Input>, reply: ReplyView)
    requires
        start(args).played(inputs).action(reply) is WriteFile,
    ensures
        ({
            let run = start(args).played(inputs);
            &&& run.has_managers()
            &&& run.state.shm is Some
            &&& run.state.session_done
            &&& run.state.frame_ready
        }),
{
    law_every_run_is_wf(args, inputs);
}

/// The file of a run is the one that its command line names: the path in its phase is that path at
/// all times, and no other file is created.
pub proof fn law_file_is_the_named_one(args: Seq<Seq<char>>, inputs: Seq<Input>, reply: ReplyView)
    ensures
        ({
            let run = start(args).played(inputs);
            &&& run.phase.path() matches Some(path) ==> (command_of(args) matches Ok(
                CommandView::Grab { out_path, .. },
            ) && out_path == path)
            &&& run.action(reply) matches ActionView::CreateFile { path } ==> (command_of(
                args,
            ) matches Ok(CommandView::Grab { out_path, .. }) && out_path == path)
        }),
{
    law_every_run_is_wf(args, inputs);
}

/// From the allocation on, a run keeps its layout and its file through all inputs, until it is
/// over.
pub proof fn law_layout_is_kept(run: RunView, inputs: Seq<Input>)
    requires
        run.phase.frame_layout() is Some,
    ensures
        ({
            let later = run.played(inputs).phase;
            later is Over || (later.frame_layout() == run.phase.frame_layout() && later.path()
                == run.phase.path())
        }),
    decreases inputs.len(),
{
    if inputs.len() > 0 {
        law_layout_is_kept(run, inputs.drop_last());
    }
}

/// The size that is read, and the size of the pool that the frame is captured into, are the size
/// that was allocated, whatever comes between.
pub proof fn law_read_size_is_allocated_size(
    run: RunView,
    reply: ReplyView,
    size: int,
    inputs: Seq<Input>,
    later_reply: ReplyView,
)
    requires
        run.action(reply) == (ActionView::Allocate { size }),
    ensures
        ({
            let later = run.stepped(reply).played(inputs).action(later_reply);
            &&& later matches ActionView::ReadPixels { size: read } ==> read == size
            &&& later matches ActionView::Capture { args, .. } ==> args.pool_size == as_signed(size)
            &&& later !is Allocate
        }),
{
    law_layout_is_kept(run.stepped(reply), inputs);
}

/// The file that a capture writes is the image of the pixels that stood in the memory, at the size
/// of the frame; it goes to the path of the command line, and the last message says so. What the
/// compositor says between the steps does not matter.
pub proof fn law_capture_saves_pixels(
    run: RunView,
    layout: Layout,
    out_path: Seq<char>,
    pixels: Seq<u8>,
    bytes: Seq<u8>,
    said: (Seq<Event>, Seq<Event>, Seq<Event>),
    reply: ReplyView,
    last_reply: ReplyView,
)
    requires
        run.wf(),
        run.phase == (PhaseView::Capturing { layout, out_path }),
        run.state.frame_ready,
        !run.state.frame_failed,
        encoded(layout.width, layout.height, rgba_of(pixels)) == Ok::<Seq<u8>, ImageError>(bytes),
    ensures
        ({
            let captured = run.stepped(reply).heard(said.0);
            let created = captured.stepped(ReplyView::Pixels(pixels)).heard(said.1);
            let written = created.stepped(ReplyView::Done).heard(said.2);
            &&& run.grabs_into(out_path)
            &&& run.action(reply) == (ActionView::ReadPixels { size: layout.size as int })
            &&& captured.action(ReplyView::Pixels(pixels)) == (ActionView::CreateFile {
                path: out_path,
            })
            &&& created.action(ReplyView::Done) == (ActionView::WriteFile { bytes })
            &&& written.action(last_reply) == (ActionView::Report {
                message: saved_text(out_path, layout.width, layout.height),
            })
            &&& written.stepped(last_reply).phase is Over
        }),
{
    let captured = run.stepped(reply).heard(said.0);
    let created = captured.stepped(ReplyView::Pixels(pixels)).heard(said.1);
    law_events_keep_phase(run.stepped(reply), said.0);
    law_events_keep_phase(captured.stepped(ReplyView::Pixels(pixels)), said.1);
    law_events_keep_phase(created.stepped(ReplyView::Done), said.2);
}

/// The file that a capture writes is the PNG of the image of the pixels that stood in the memory, at
/// the size of the frame; it goes to the path of the command line, and the last message says so.
/// What the compositor says between the steps does not matter. The image has for each pixel its
/// red, green and blue, which stand in memory the other way round, and full opacity.
pub proof fn law_capture_saves_png_of_pixels(
    run: RunView,
    layout: Layout,
    out_path: Seq<char>,
    pixels: Seq<u8>,
    image: Seq<u8>,
    bytes: Seq<u8>,
    said: (Seq<Event>, Seq<Event>, Seq<Event>),
    reply: ReplyView,
    last_reply: ReplyView,
)
    requires
        run.wf(),
        run.phase == (PhaseView::Capturing { layout, out_path }),
        run.state.frame_ready,
        !run.state.frame_failed,
        image.len() == pixels.len() / 4 * 4,
        forall|k: int|
            0 <= k < image.len() ==> #[trigger] image[k] == if k % 4 == 3 {
                0xff
            } else {
                pixels[k / 4 * 4 + 2 - k % 4]
            },
        layout.width > 0,
        layout.height > 0,
        png_file(layout.width, layout.height, image) == Some(bytes),
    ensures
        ({
            let captured = run.stepped(reply).heard(said.0);
            let created = captured.stepped(ReplyView::Pixels(pixels)).heard(said.1);
            let written = created.stepped(ReplyView::Done).heard(said.2);
            &&& run.args.len() > 3 && run.args[1] == "grab"@ && run.args[3] == out_path
            &&& run.action(reply) == (ActionView::ReadPixels {
                size: 4 * layout.width * layout.height,
            })
            &&& captured.action(ReplyView::Pixels(pixels)) == (ActionView::CreateFile {
                path: out_path,
            })
            &&& created.action(ReplyView::Done) == (ActionView::WriteFile { bytes })
            &&& written.action(last_reply) == (ActionView::Report {
                message: "saved "@ + out_path + " ("@ + decimal(layout.width as nat) + "x"@
                    + decimal(layout.height as nat) + ")"@,
            })
            &&& written.stepped(last_reply).phase is Over
        }),
{
    law_modes(run.args);
    let captured = run.stepped(reply).heard(said.0);
    let created = captured.stepped(ReplyView::Pixels(pixels)).heard(said.1);
    law_events_keep_phase(run.stepped(reply), said.0);
    law_events_keep_phase(captured.stepped(ReplyView::Pixels(pixels)), said.1);
    law_events_keep_phase(created.stepped(ReplyView::Done), said.2);
    assert forall|k: int| 0 <= k < image.len() implies #[trigger] image[k] == rgba_of(
        pixels,
    )[k] by {
        law_pixel_channels(pixels, k / 4);
        assert(k == 4 * (k / 4) + k % 4);
    }
    assert(image =~= rgba_of(pixels));
}

/// The size that is allocated is the one that the compositor sent last, both numbers as they were
/// sent, whatever else it says before or after; the frame is captured, read and saved at that size.
pub proof fn law_last_size_is_used(
    run: RunView,
    width: u32,
    height: u32,
    said: Seq<Event>,
    reply: ReplyView,
    inputs: Seq<Input>,
    later_reply: ReplyView,
)
    requires
        run.phase is Opened,
        forall|i: int|
            0 <= i < said.len() ==> !(#[trigger] said[i] matches Event::Session(
                SessionEvent::BufferSize { .. },
            )),
    ensures
        ({
            let later = run.after(
                Event::Session(SessionEvent::BufferSize { width, height }),
            ).heard(said);
            let end = later.stepped(reply).played(inputs);
            &&& later.state.buffer_size == Some((width, height))
            &&& later.action(reply) matches ActionView::Allocate { size } ==> {
                &&& size == 4 * width * height
                &&& later.stepped(reply).phase matches PhaseView::Allocated { layout, .. }
                &&& layout.width == width
                &&& layout.height == height
                &&& layout.stride == 4 * width
                &&& end.phase is Over || end.phase.frame_layout() == Some(layout)
                &&& end.action(later_reply) matches ActionView::ReadPixels { size: read } ==> read
                    == 4 * width * height
            }
        }),
{
    let sized = run.after(Event::Session(SessionEvent::BufferSize { width, height }));
    lemma_size_stays(sized, said);
    law_events_keep_phase(sized, said);
    let later = sized.heard(said);
    if later.action(reply) is Allocate {
        law_layout_is_kept(later.stepped(reply), inputs);
    }
}

/// Events that send no size leave the size alone.
proof fn lemma_size_stays(run: RunView, said: Seq<Event>)
    requires
        forall|i: int|
            0 <= i < said.len() ==> !(#[trigger] said[i] matches Event::Session(
                SessionEvent::BufferSize { .. },
            )),
    ensures
        run.heard(said).state.buffer_size == run.state.buffer_size,
    decreases said.len(),
{
    if said.len() > 0 {
        assert forall|i: int| 0 <= i < said.drop_last().len() implies !(
        #[trigger] said.drop_last()[i] matches Event::Session(
            SessionEvent::BufferSize { .. },
        )) by {
            assert(said.drop_last()[i] == said[i]);
        }
        lemma_size_stays(run, said.drop_last());
        assert(!(said[said.len() - 1] matches Event::Session(SessionEvent::BufferSize { .. })));
    }
}

/// The memory that a capture asks for holds four bytes for each pixel of the size that the
/// compositor sent, and the format of the capture is one that it offered.
pub proof fn law_memory_fits_frame(run: RunView, reply: ReplyView)
    requires
        run.phase is Opened,
        run.action(reply) is Allocate,
    ensures
        ({
            &&& run.state.buffer_size matches Some((width, height))
            &&& run.action(reply) == (ActionView::Allocate { size: 4 * width * height })
            &&& run.stepped(reply).phase matches PhaseView::Allocated { layout, format, .. }
            &&& layout.wf()
            &&& layout.width == width
            &&& layout.height == height
            &&& run.state.shm_formats.contains(format.code())
        }),
{
}

} // verus!
