//! What each step of a run does, in plain terms: in which situation which action follows, with
//! which texts, numbers and bytes.
use crate::command::{law_grab_arguments, law_modes};
use crate::frame::{
    law_format_preference, law_pixel_channels, law_signed_reading, BufferArgs, Layout, PixelFormat,
};
use crate::image::{law_encoded_is_png_of_the_bytes, png_file, ImageError};
use crate::run::{
    start, when_encoded, Action, ActionView, Phase, PhaseView, Reply, ReplyView, RunView,
};
use crate::selection::{law_listing_lines, law_no_match_picks_nothing, picked};
use crate::state::{silent, Event};
use crate::text::{bracketed, contains_text, decimal};
use vstd::prelude::*;

verus! {

/// The view of an action holds its texts, numbers and bytes.
pub proof fn law_action_view(
    lines: Vec<String>,
    text: String,
    number: usize,
    code: i32,
    bytes: Vec<u8>,
    args: BufferArgs,
    format: PixelFormat,
)
    ensures
        Action::Roundtrip@ == ActionView::Roundtrip,
        Action::Dispatch@ == ActionView::Dispatch,
        Action::Finish@ == ActionView::Finish,
        (Action::Print { lines })@ == (ActionView::Print {
            lines: Seq::new(lines@.len(), |i: int| lines@[i]@),
        }),
        (Action::Report { message: text })@ == (ActionView::Report { message: text@ }),
        (Action::OpenSession { index: number })@ == (ActionView::OpenSession {
            index: number as int,
        }),
        (Action::Allocate { size: number })@ == (ActionView::Allocate { size: number as int }),
        (Action::Capture { args, format })@ == (ActionView::Capture { args, format }),
        (Action::ReadPixels { size: number })@ == (ActionView::ReadPixels { size: number as int }),
        (Action::CreateFile { path: text })@ == (ActionView::CreateFile { path: text@ }),
        (Action::WriteFile { bytes })@ == (ActionView::WriteFile { bytes: bytes@ }),
        (Action::Exit { code, message: text })@ == (ActionView::Exit {
            code: code as int,
            message: text@,
        }),
        (Action::Panic { message: text })@ == (ActionView::Panic { message: text@ }),
{
    assert((Action::Print { lines })@->lines =~= Seq::new(lines@.len(), |i: int| lines@[i]@));
}

/// The view of a reply holds its pixels or its reason.
pub proof fn law_reply_view(pixels: &[u8], reason: String)
    ensures
        Reply::Done@ == ReplyView::Done,
        Reply::Pixels(pixels)@ == ReplyView::Pixels(pixels@),
        Reply::Refused(reason)@ == ReplyView::Refused(reason@),
{
}

/// The view of a phase holds its path, its layout and its image.
pub proof fn law_phase_view(
    index: usize,
    out_path: String,
    layout: Layout,
    format: PixelFormat,
    rgba: Vec<u8>,
)
    ensures
        Phase::Start@ == PhaseView::Start,
        Phase::Bound@ == PhaseView::Bound,
        Phase::Listed@ == PhaseView::Listed,
        Phase::Over@ == PhaseView::Over,
        (Phase::Picked { index, out_path })@ == (PhaseView::Picked {
            index: index as int,
            out_path: out_path@,
        }),
        (Phase::Opened { out_path })@ == (PhaseView::Opened { out_path: out_path@ }),
        (Phase::Allocated { layout, format, out_path })@ == (PhaseView::Allocated {
            layout,
            format,
            out_path: out_path@,
        }),
        (Phase::Capturing { layout, out_path })@ == (PhaseView::Capturing {
            layout,
            out_path: out_path@,
        }),
        (Phase::Captured { layout, out_path })@ == (PhaseView::Captured {
            layout,
            out_path: out_path@,
        }),
        (Phase::Created { layout, rgba, out_path })@ == (PhaseView::Created {
            layout,
            rgba: rgba@,
            out_path: out_path@,
        }),
        (Phase::Written { layout, out_path })@ == (PhaseView::Written {
            layout,
            out_path: out_path@,
        }),
{
}

/// A run begins with its command line as it is, at the first phase, with nothing said.
pub proof fn law_start(args: Seq<Seq<char>>)
    ensures
        start(args).args == args,
        start(args).phase == PhaseView::Start,
        start(args).state == silent(),
{
}

/// A step changes the phase alone, and an event what the compositor said alone.
pub proof fn law_step_and_event_keep_apart(run: RunView, reply: ReplyView, event: Event)
    ensures
        run.stepped(reply).args == run.args,
        run.stepped(reply).state == run.state,
        run.after(event).args == run.args,
        run.after(event).phase == run.phase,
        run.after(event).state == run.state.after(event),
{
}

/// The run asks the compositor twice.
pub proof fn law_first_steps(run: RunView, reply: ReplyView)
    ensures
        run.phase is Start ==> run.action(reply) == ActionView::Roundtrip && run.stepped(
            reply,
        ).phase == PhaseView::Bound,
        run.phase is Bound ==> run.action(reply) == ActionView::Roundtrip && run.stepped(
            reply,
        ).phase == PhaseView::Listed,
{
}

/// Without the window list the run ends with code 2, whatever the command line says.
pub proof fn law_no_window_list(run: RunView, reply: ReplyView)
    requires
        run.phase is Listed,
        run.state.toplevel_list is None,
    ensures
        run.action(reply) == (ActionView::Exit {
            code: 2,
            message: "compositor lacks ext_foreign_toplevel_list_v1"@,
        }),
        run.stepped(reply).phase is Over,
{
}

/// A command line without a mode, or with one that does not exist, ends the run with code 1 and
/// the whole usage; a capture without its two arguments ends it with code 1 and the usage of the
/// capture.
pub proof fn law_bad_command_line(run: RunView, reply: ReplyView)
    requires
        run.phase is Listed,
        run.state.toplevel_list is Some,
    ensures
        run.args.len() <= 1 || (run.args[1] != "list"@ && run.args[1] != "grab"@) ==> run.action(
            reply,
        ) == (ActionView::Exit {
            code: 1,
            message: "usage: MinkaCap list | grab <selector> <out.png>"@,
        }) && run.stepped(reply).phase is Over,
        1 < run.args.len() <= 3 && run.args[1] == "grab"@ ==> run.action(reply) == (
        ActionView::Exit { code: 1, message: "usage: MinkaCap grab <selector> <out.png>"@ })
            && run.stepped(reply).phase is Over,
{
    law_modes(run.args);
}

/// The listing prints every window on a line of its own, in the order of the announcements: the
/// whole of the application's name, a tab, the whole of the title. Then the run is over.
pub proof fn law_listing_is_printed(run: RunView, reply: ReplyView)
    requires
        run.phase is Listed,
        run.state.toplevel_list is Some,
        run.args.len() > 1,
        run.args[1] == "list"@,
    ensures
        ({
            &&& run.action(reply) matches ActionView::Print { lines }
            &&& lines.len() == run.state.toplevels.len()
            &&& forall|i: int|
                0 <= i < lines.len() ==> #[trigger] lines[i] == run.state.toplevels[i].1.app_id
                    + "\t"@ + run.state.toplevels[i].1.title
            &&& run.stepped(reply).phase is Over
        }),
{
    law_modes(run.args);
    assert forall|i: int| 0 <= i < run.state.toplevels.len() implies #[trigger] run.state.listing()[i]
        == run.state.toplevels[i].1.app_id + "\t"@ + run.state.toplevels[i].1.title by {
        law_listing_lines(run.state, i);
    }
}

/// A selector that stands in the names of no window ends the run with code 3 and a message that
/// quotes it.
pub proof fn law_no_match(run: RunView, reply: ReplyView)
    requires
        run.phase is Listed,
        run.state.toplevel_list is Some,
        run.args.len() > 3,
        run.args[1] == "grab"@,
        forall|j: int|
            0 <= j < run.state.toplevels.len() ==> !contains_text(
                (#[trigger] run.state.toplevels[j]).1.title,
                run.args[2],
            ) && !contains_text(run.state.toplevels[j].1.app_id, run.args[2]),
    ensures
        run.action(reply) == (ActionView::Exit {
            code: 3,
            message: "no toplevel matching '"@ + run.args[2] + "'"@,
        }),
        run.stepped(reply).phase is Over,
{
    law_grab_arguments(run.args);
    law_no_match_picks_nothing(run.state.toplevels, run.args[2]);
}

/// The window that the selector picks is announced with both its names, whole, and the run goes on
/// with it and with the file of the command line.
pub proof fn law_picked_window_is_announced(run: RunView, reply: ReplyView, index: int)
    requires
        run.phase is Listed,
        run.state.toplevel_list is Some,
        run.args.len() > 3,
        run.args[1] == "grab"@,
        picked(run.state.toplevels, run.args[2]) == Some(index),
    ensures
        run.action(reply) == (ActionView::Report {
            message: "capturing "@ + (run.state.toplevels[index].1.app_id + " / "@
                + run.state.toplevels[index].1.title),
        }),
        run.stepped(reply).phase == (PhaseView::Picked { index, out_path: run.args[3] }),
{
    law_grab_arguments(run.args);
}

/// A session takes both managers: without one of them the run ends with code 2 and names what is
/// missing, with both the session is opened for the picked window.
pub proof fn law_session_takes_managers(
    run: RunView,
    reply: ReplyView,
    index: int,
    out_path: Seq<char>,
)
    requires
        run.phase == (PhaseView::Picked { index, out_path }),
    ensures
        run.state.source_manager is None ==> run.action(reply) == (ActionView::Exit {
            code: 2,
            message: "no toplevel image-capture-source manager"@,
        }) && run.stepped(reply).phase is Over,
        run.state.source_manager is Some && run.state.capture_manager is None ==> run.action(reply)
            == (ActionView::Exit { code: 2, message: "no ext_image_copy_capture_manager_v1"@ })
            && run.stepped(reply).phase is Over,
        run.state.source_manager is Some && run.state.capture_manager is Some ==> run.action(reply)
            == (ActionView::OpenSession { index }) && run.stepped(reply).phase == (
        PhaseView::Opened { out_path }),
{
}

/// Until the constraints are complete the run waits, unless the session stops: then it ends with
/// code 4.
pub proof fn law_incomplete_constraints(run: RunView, reply: ReplyView)
    requires
        run.phase is Opened,
        !run.state.session_done,
    ensures
        !run.state.frame_failed ==> run.action(reply) == ActionView::Dispatch && run.stepped(reply)
            == run,
        run.state.frame_failed ==> run.action(reply) == (ActionView::Exit {
            code: 4,
            message: "capture session stopped before constraints arrived"@,
        }) && run.stepped(reply).phase is Over,
{
}

/// Once the constraints are complete, memory is allocated for four bytes to each pixel of the size
/// that was sent, and the format without alpha is used where it was offered, otherwise the one with
/// alpha. Without a size, or with one that is too long, the run panics; without a usable format it
/// ends with code 5 and lists what was offered.
pub proof fn law_complete_constraints(
    run: RunView,
    reply: ReplyView,
    out_path: Seq<char>,
    width: u32,
    height: u32,
)
    requires
        run.phase == (PhaseView::Opened { out_path }),
        run.state.session_done,
    ensures
        ({
            let formats = run.state.shm_formats;
            let usable = formats.contains(0) || formats.contains(1);
            let sized = run.state.buffer_size == Some((width, height));
            let fits = 4 * width <= u32::MAX && 4 * width * height <= u32::MAX;
            let reached = run.stepped(reply).phase;
            &&& run.state.buffer_size is None ==> run.action(reply) == (ActionView::Panic {
                message: "session sent no buffer size"@,
            }) && reached is Over
            &&& sized && !usable ==> run.action(reply) == (ActionView::Exit {
                code: 5,
                message: "no usable shm format in "@ + bracketed(formats),
            }) && reached is Over
            &&& sized && usable && !fits ==> run.action(reply) == (ActionView::Panic {
                message: "attempt to multiply with overflow"@,
            }) && reached is Over
            &&& sized && usable && fits ==> run.action(reply) == (ActionView::Allocate {
                size: 4 * width * height,
            }) && reached == (PhaseView::Allocated {
                layout: Layout {
                    width,
                    height,
                    stride: (4 * width) as u32,
                    size: (4 * width * height) as usize,
                },
                format: if formats.contains(1) {
                    PixelFormat::Xrgb8888
                } else {
                    PixelFormat::Argb8888
                },
                out_path,
            })
        }),
{
    law_format_preference(run.state.shm_formats);
}

/// The capture takes the numbers of the frame, read as signed ones, and its format; without shared
/// memory the run panics.
pub proof fn law_capture_takes_layout(
    run: RunView,
    reply: ReplyView,
    layout: Layout,
    format: PixelFormat,
    out_path: Seq<char>,
)
    requires
        run.wf(),
        run.phase == (PhaseView::Allocated { layout, format, out_path }),
    ensures
        run.state.shm is None ==> run.action(reply) == (ActionView::Panic {
            message: "no wl_shm"@,
        }) && run.stepped(reply).phase is Over,
        run.state.shm is Some ==> ({
            &&& run.action(reply) matches ActionView::Capture { args, format: used }
            &&& used == format
            &&& (args.width - layout.width) % 0x1_0000_0000 == 0
            &&& (args.height - layout.height) % 0x1_0000_0000 == 0
            &&& (args.stride - 4 * layout.width) % 0x1_0000_0000 == 0
            &&& (args.pool_size - 4 * layout.width * layout.height) % 0x1_0000_0000 == 0
            &&& run.stepped(reply).phase == (PhaseView::Capturing { layout, out_path })
        }),
{
    law_signed_reading(layout.width as int);
    law_signed_reading(layout.height as int);
    law_signed_reading(layout.stride as int);
    law_signed_reading(layout.size as int);
}

/// While the frame is awaited: a failure ends the run with code 6, also where the frame is ready;
/// a frame that is ready is read whole; otherwise the run waits.
pub proof fn law_frame_outcome(
    run: RunView,
    reply: ReplyView,
    layout: Layout,
    out_path: Seq<char>,
)
    requires
        run.phase == (PhaseView::Capturing { layout, out_path }),
    ensures
        run.state.frame_failed ==> run.action(reply) == (ActionView::Exit {
            code: 6,
            message: "frame capture failed"@,
        }) && run.stepped(reply).phase is Over,
        !run.state.frame_failed && !run.state.frame_ready ==> run.action(reply)
            == ActionView::Dispatch && run.stepped(reply) == run,
        !run.state.frame_failed && run.state.frame_ready ==> run.action(reply) == (
        ActionView::ReadPixels { size: layout.size as int }) && run.stepped(reply).phase == (
        PhaseView::Captured { layout, out_path }),
{
}

/// The pixels that were read become the image, pixel for pixel: red, green and blue as they stand
/// in memory in the opposite order, and full opacity. Its file is created at the path of the run.
pub proof fn law_pixels_become_image(
    run: RunView,
    pixels: Seq<u8>,
    layout: Layout,
    out_path: Seq<char>,
)
    requires
        run.phase == (PhaseView::Captured { layout, out_path }),
    ensures
        ({
            let reply = ReplyView::Pixels(pixels);
            &&& run.action(reply) == (ActionView::CreateFile { path: out_path })
            &&& run.stepped(reply).phase matches PhaseView::Created {
                layout: kept,
                rgba,
                out_path: path,
            }
            &&& kept == layout
            &&& path == out_path
            &&& rgba.len() == pixels.len() / 4 * 4
            &&& forall|p: int|
                #![trigger rgba[4 * p]]
                0 <= p < pixels.len() / 4 ==> rgba[4 * p] == pixels[4 * p + 2] && rgba[4 * p + 1]
                    == pixels[4 * p + 1] && rgba[4 * p + 2] == pixels[4 * p] && rgba[4 * p + 3]
                    == 0xff
        }),
{
    let reply = ReplyView::Pixels(pixels);
    let rgba = run.stepped(reply).phase->Created_rgba;
    assert forall|p: int|
        #![trigger rgba[4 * p]]
        0 <= p < pixels.len() / 4 implies rgba[4 * p] == pixels[4 * p + 2] && rgba[4 * p + 1]
        == pixels[4 * p + 1] && rgba[4 * p + 2] == pixels[4 * p] && rgba[4 * p + 3] == 0xff by {
        law_pixel_channels(pixels, p);
    }
}

/// What is written is the PNG of exactly the image, at exactly the size of the frame. A file that
/// could not be created ends the run with code 1 and a message with the path and the reason.
pub proof fn law_file_is_png_of_image(
    run: RunView,
    layout: Layout,
    rgba: Seq<u8>,
    out_path: Seq<char>,
    reason: Seq<char>,
    bytes: Seq<u8>,
)
    requires
        run.phase == (PhaseView::Created { layout, rgba, out_path }),
    ensures
        run.action(ReplyView::Refused(reason)) == (ActionView::Exit {
            code: 1,
            message: "cannot create "@ + out_path + ": "@ + reason,
        }),
        run.stepped(ReplyView::Refused(reason)).phase is Over,
        layout.width > 0 && layout.height > 0 ==> (run.action(ReplyView::Done) == (
        ActionView::WriteFile { bytes }) <==> png_file(layout.width, layout.height, rgba) == Some(
            bytes,
        )),
        run.action(ReplyView::Done) is WriteFile ==> run.stepped(ReplyView::Done).phase == (
        PhaseView::Written { layout, out_path }),
        layout.width == 0 || layout.height == 0 ==> run.action(ReplyView::Done) == (
        ActionView::Panic { message: "png header"@ }),
        layout.width > 0 && layout.height > 0 && png_file(layout.width, layout.height, rgba) is None
            ==> run.action(ReplyView::Done) == (ActionView::Panic { message: "png data"@ }),
{
    law_encoded_is_png_of_the_bytes(layout.width, layout.height, rgba, bytes);
}

/// The last message names the file and the size of the frame, in decimal. After it the run is over,
/// and has nothing more to do.
pub proof fn law_last_message(run: RunView, reply: ReplyView, layout: Layout, out_path: Seq<char>)
    ensures
        run.phase == (PhaseView::Written { layout, out_path }) ==> run.action(reply) == (
        ActionView::Report {
            message: "saved "@ + out_path + " ("@ + decimal(layout.width as nat) + "x"@ + decimal(
                layout.height as nat,
            ) + ")"@,
        }) && run.stepped(reply).phase is Over,
        run.phase is Over ==> run.action(reply) == ActionView::Finish && run.stepped(reply) == run,
{
}

/// The bytes of an image that was encoded are written as they are; a refusal is a panic that names
/// the step.
pub proof fn law_encoding_outcome(layout: Layout, out_path: Seq<char>, bytes: Seq<u8>)
    ensures
        when_encoded(layout, out_path, Ok(bytes)) == (
            (PhaseView::Written { layout, out_path }),
            (ActionView::WriteFile { bytes }),
        ),
        when_encoded(layout, out_path, Err(ImageError::Header)) == (
            PhaseView::Over,
            (ActionView::Panic { message: "png header"@ }),
        ),
        when_encoded(layout, out_path, Err(ImageError::Data)) == (
            PhaseView::Over,
            (ActionView::Panic { message: "png data"@ }),
        ),
{
}

/// Pixels count only where they were asked for, and a refusal only where a file was: without pixels
/// the image is empty, and any reply but a refusal says that the file is there. Everywhere else the
/// reply does not matter.
pub proof fn law_replies_count_where_asked(run: RunView, reply: ReplyView, other: ReplyView)
    ensures
        run.phase is Captured && reply !is Pixels ==> ({
            &&& run.action(reply) == run.action(ReplyView::Pixels(Seq::empty()))
            &&& run.stepped(reply) == run.stepped(ReplyView::Pixels(Seq::empty()))
        }),
        run.phase is Created && reply !is Refused ==> run.action(reply) == run.action(
            ReplyView::Done,
        ) && run.stepped(reply) == run.stepped(ReplyView::Done),
        run.phase is Created && run.action(reply) !is WriteFile ==> run.stepped(
            reply,
        ).phase is Over,
        run.phase !is Captured && run.phase !is Created ==> run.action(reply) == run.action(other)
            && run.stepped(reply) == run.stepped(other),
{
}

} // verus!
