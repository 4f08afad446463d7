use minkacap::frame::{BufferArgs, Layout, PixelFormat};
use minkacap::image::ImageError;
use minkacap::run::{decide_encoded, Action, Phase, Reply, Run};
use minkacap::state::{
    Event, FormatCode, FrameEvent, HandleEvent, ListEvent, RegistryEvent, SessionEvent,
};

const ALL: [&str; 4] = [
    "wl_shm",
    "ext_foreign_toplevel_list_v1",
    "ext_foreign_toplevel_image_capture_source_manager_v1",
    "ext_image_copy_capture_manager_v1",
];

fn run(words: &[&str]) -> Run {
    Run::new(words.iter().map(|word| word.to_string()).collect())
}

fn grab() -> Run {
    run(&["MinkaCap", "grab", "Inbox", "out.png"])
}

/// Two roundtrips: the first brings the globals, the second two windows.
fn listed(mut run: Run, globals: &[&str]) -> Run {
    assert!(matches!(run.step(Reply::Done), Action::Roundtrip));
    for (name, interface) in globals.iter().enumerate() {
        run.event(Event::Registry(RegistryEvent::Global {
            name: name as u32,
            interface: interface.to_string(),
            version: 1,
        }));
    }
    assert!(matches!(run.step(Reply::Done), Action::Roundtrip));
    for (handle, app, name) in [(1u64, "foot", "shell"), (2, "mail", "Inbox")] {
        run.event(Event::List(ListEvent::Toplevel { handle }));
        let event = HandleEvent::Title { title: name.to_string() };
        run.event(Event::Handle { handle, event });
        let event = HandleEvent::AppId { app_id: app.to_string() };
        run.event(Event::Handle { handle, event });
    }
    run
}

fn opened() -> Run {
    let mut run = listed(grab(), &ALL);
    expect_report(&mut run, "capturing mail / Inbox");
    match run.step(Reply::Done) {
        Action::OpenSession { index } => assert_eq!(index, 1),
        other => panic!("{:?}", other),
    }
    run
}

fn constrain(run: &mut Run, width: u32, height: u32, formats: &[u32]) {
    run.event(Event::Session(SessionEvent::BufferSize { width, height }));
    for code in formats {
        run.event(Event::Session(SessionEvent::ShmFormat { format: FormatCode::Known(*code) }));
    }
    run.event(Event::Session(SessionEvent::Done));
}

fn capturing() -> Run {
    let mut run = opened();
    constrain(&mut run, 2, 1, &[0, 1]);
    match run.step(Reply::Done) {
        Action::Allocate { size } => assert_eq!(size, 8),
        other => panic!("{:?}", other),
    }
    match run.step(Reply::Done) {
        Action::Capture { args, format } => {
            assert_eq!(args, BufferArgs { pool_size: 8, width: 2, height: 1, stride: 8 });
            assert_eq!(format, PixelFormat::Xrgb8888);
        }
        other => panic!("{:?}", other),
    }
    run
}

fn captured() -> Run {
    let mut run = capturing();
    run.event(Event::Frame(FrameEvent::Ready));
    match run.step(Reply::Done) {
        Action::ReadPixels { size } => assert_eq!(size, 8),
        other => panic!("{:?}", other),
    }
    run
}

fn expect_report(run: &mut Run, expected: &str) {
    match run.step(Reply::Done) {
        Action::Report { message } => assert_eq!(message, expected),
        other => panic!("{:?}", other),
    }
}

fn expect_exit(run: &mut Run, expected_code: i32, expected: &str) {
    match run.step(Reply::Done) {
        Action::Exit { code, message } => {
            assert_eq!(code, expected_code);
            assert_eq!(message, expected);
        }
        other => panic!("{:?}", other),
    }
    expect_finish(run);
}

fn expect_panic(run: &mut Run, expected: &str) {
    match run.step(Reply::Done) {
        Action::Panic { message } => assert_eq!(message, expected),
        other => panic!("{:?}", other),
    }
    expect_finish(run);
}

fn expect_finish(run: &mut Run) {
    assert!(matches!(run.step(Reply::Done), Action::Finish));
    assert!(matches!(run.step(Reply::Done), Action::Finish));
}

fn expect_dispatch(run: &mut Run) {
    assert!(matches!(run.step(Reply::Done), Action::Dispatch));
}

#[test]
fn listing_prints_the_windows() {
    let mut run = listed(run(&["MinkaCap", "list"]), &ALL[1..2]);
    match run.step(Reply::Done) {
        Action::Print { lines } => assert_eq!(lines, vec!["foot\tshell", "mail\tInbox"]),
        other => panic!("{:?}", other),
    }
    expect_finish(&mut run);
}

#[test]
fn capture_saves_the_window() {
    let mut run = captured();
    match run.step(Reply::Pixels(&[1, 2, 3, 0, 4, 5, 6, 9])) {
        Action::CreateFile { path } => assert_eq!(path, "out.png"),
        other => panic!("{:?}", other),
    }
    let bytes = match run.step(Reply::Done) {
        Action::WriteFile { bytes } => bytes,
        other => panic!("{:?}", other),
    };
    let mut reader = png::Decoder::new(std::io::Cursor::new(bytes)).read_info().unwrap();
    assert_eq!(reader.info().size(), (2, 1));
    let mut decoded = vec![0u8; 8];
    reader.next_frame(&mut decoded).unwrap();
    assert_eq!(decoded, vec![3, 2, 1, 255, 6, 5, 4, 255]);
    expect_report(&mut run, "saved out.png (2x1)");
    expect_finish(&mut run);
}

#[test]
fn missing_window_list_exits_with_2_before_the_arguments_are_read() {
    let mut run = listed(run(&["MinkaCap"]), &ALL[..1]);
    expect_exit(&mut run, 2, "compositor lacks ext_foreign_toplevel_list_v1");
}

#[test]
fn bad_arguments_exit_with_1() {
    let mut bare = listed(run(&["MinkaCap"]), &ALL);
    expect_exit(&mut bare, 1, "usage: MinkaCap list | grab <selector> <out.png>");
    let mut short = listed(run(&["MinkaCap", "grab", "Inbox"]), &ALL);
    expect_exit(&mut short, 1, "usage: MinkaCap grab <selector> <out.png>");
}

#[test]
fn no_match_exits_with_3() {
    let mut run = listed(run(&["MinkaCap", "grab", "browser", "out.png"]), &ALL);
    expect_exit(&mut run, 3, "no toplevel matching 'browser'");
}

#[test]
fn missing_managers_exit_with_2_after_the_announcement() {
    let mut source = listed(grab(), &[ALL[0], ALL[1], ALL[3]]);
    expect_report(&mut source, "capturing mail / Inbox");
    expect_exit(&mut source, 2, "no toplevel image-capture-source manager");
    let mut capture = listed(grab(), &ALL[..3]);
    expect_report(&mut capture, "capturing mail / Inbox");
    expect_exit(&mut capture, 2, "no ext_image_copy_capture_manager_v1");
}

#[test]
fn window_that_changes_its_title_is_still_the_one() {
    let mut run = listed(grab(), &ALL);
    expect_report(&mut run, "capturing mail / Inbox");
    let event = HandleEvent::Title { title: "Drafts".to_string() };
    run.event(Event::Handle { handle: 2, event });
    assert!(matches!(run.step(Reply::Done), Action::OpenSession { index: 1 }));
}

#[test]
fn constraints_are_awaited() {
    let mut run = opened();
    expect_dispatch(&mut run);
    run.event(Event::Session(SessionEvent::BufferSize { width: 2, height: 1 }));
    expect_dispatch(&mut run);
    run.event(Event::Session(SessionEvent::ShmFormat { format: FormatCode::Known(0) }));
    expect_dispatch(&mut run);
    run.event(Event::Session(SessionEvent::Done));
    assert!(matches!(run.step(Reply::Done), Action::Allocate { size: 8 }));
    match run.step(Reply::Done) {
        Action::Capture { format, .. } => assert_eq!(format, PixelFormat::Argb8888),
        other => panic!("{:?}", other),
    }
}

#[test]
fn stopped_session_exits_with_4() {
    let mut run = opened();
    run.event(Event::Session(SessionEvent::Stopped));
    expect_exit(&mut run, 4, "capture session stopped before constraints arrived");
}

#[test]
fn session_that_stops_half_way_through_its_constraints_exits_with_4() {
    let mut run = opened();
    run.event(Event::Session(SessionEvent::BufferSize { width: 2, height: 1 }));
    run.event(Event::Session(SessionEvent::ShmFormat { format: FormatCode::Known(1) }));
    run.event(Event::Session(SessionEvent::Stopped));
    expect_exit(&mut run, 4, "capture session stopped before constraints arrived");
}

#[test]
fn session_that_stops_after_its_constraints_exits_with_6() {
    let mut run = opened();
    constrain(&mut run, 2, 1, &[1]);
    run.event(Event::Session(SessionEvent::Stopped));
    assert!(matches!(run.step(Reply::Done), Action::Allocate { size: 8 }));
    assert!(matches!(run.step(Reply::Done), Action::Capture { .. }));
    expect_exit(&mut run, 6, "frame capture failed");
}

#[test]
fn session_that_stops_after_unusable_constraints_exits_with_5() {
    let mut run = opened();
    constrain(&mut run, 2, 1, &[2]);
    run.event(Event::Session(SessionEvent::Stopped));
    expect_exit(&mut run, 5, "no usable shm format in [2]");
}

#[test]
fn unusable_formats_exit_with_5() {
    let mut some = opened();
    constrain(&mut some, 2, 1, &[875713112, 2]);
    expect_exit(&mut some, 5, "no usable shm format in [875713112, 2]");
    let mut none = opened();
    constrain(&mut none, 2, 1, &[]);
    expect_exit(&mut none, 5, "no usable shm format in []");
}

#[test]
fn session_without_size_panics() {
    let mut run = opened();
    run.event(Event::Session(SessionEvent::Done));
    expect_panic(&mut run, "session sent no buffer size");
}

#[test]
fn oversized_frame_panics() {
    let mut run = opened();
    constrain(&mut run, 0x8000, 0x8000, &[1]);
    expect_panic(&mut run, "attempt to multiply with overflow");
}

#[test]
fn missing_shm_panics_after_the_allocation() {
    let mut run = listed(grab(), &ALL[1..]);
    expect_report(&mut run, "capturing mail / Inbox");
    assert!(matches!(run.step(Reply::Done), Action::OpenSession { index: 1 }));
    constrain(&mut run, 2, 1, &[1]);
    assert!(matches!(run.step(Reply::Done), Action::Allocate { size: 8 }));
    expect_panic(&mut run, "no wl_shm");
}

#[test]
fn events_between_the_steps_change_nothing() {
    let mut run = captured();
    run.event(Event::Session(SessionEvent::BufferSize { width: 9, height: 9 }));
    run.event(Event::Session(SessionEvent::Stopped));
    run.step(Reply::Pixels(&[0; 8]));
    run.event(Event::Frame(FrameEvent::Failed));
    assert!(matches!(run.step(Reply::Done), Action::WriteFile { .. }));
    run.event(Event::List(ListEvent::Toplevel { handle: 3 }));
    expect_report(&mut run, "saved out.png (2x1)");
}

#[test]
fn size_that_is_read_is_the_size_that_was_allocated() {
    let mut run = opened();
    constrain(&mut run, 3, 5, &[1]);
    assert!(matches!(run.step(Reply::Done), Action::Allocate { size: 60 }));
    run.event(Event::Session(SessionEvent::BufferSize { width: 30, height: 50 }));
    match run.step(Reply::Done) {
        Action::Capture { args, .. } => {
            assert_eq!(args, BufferArgs { pool_size: 60, width: 3, height: 5, stride: 12 })
        }
        other => panic!("{:?}", other),
    }
    run.event(Event::Session(SessionEvent::BufferSize { width: 1, height: 1 }));
    run.event(Event::Frame(FrameEvent::Ready));
    assert!(matches!(run.step(Reply::Done), Action::ReadPixels { size: 60 }));
}

#[test]
fn file_is_the_one_of_the_command_line() {
    let mut run = listed(run(&["MinkaCap", "grab", "foot", "/tmp/shots/a b.png"]), &ALL);
    expect_report(&mut run, "capturing foot / shell");
    assert!(matches!(run.step(Reply::Done), Action::OpenSession { index: 0 }));
    constrain(&mut run, 1, 1, &[0]);
    run.step(Reply::Done);
    run.step(Reply::Done);
    run.event(Event::Frame(FrameEvent::Ready));
    run.step(Reply::Done);
    match run.step(Reply::Pixels(&[1, 2, 3, 4])) {
        Action::CreateFile { path } => assert_eq!(path, "/tmp/shots/a b.png"),
        other => panic!("{:?}", other),
    }
    assert!(matches!(run.step(Reply::Done), Action::WriteFile { .. }));
    expect_report(&mut run, "saved /tmp/shots/a b.png (1x1)");
}

#[test]
fn frame_is_awaited() {
    let mut run = capturing();
    expect_dispatch(&mut run);
    expect_dispatch(&mut run);
    run.event(Event::Frame(FrameEvent::Ready));
    assert!(matches!(run.step(Reply::Done), Action::ReadPixels { size: 8 }));
}

#[test]
fn failed_frame_exits_with_6() {
    let mut failed = capturing();
    failed.event(Event::Frame(FrameEvent::Failed));
    expect_exit(&mut failed, 6, "frame capture failed");
    let mut stopped = capturing();
    stopped.event(Event::Frame(FrameEvent::Ready));
    stopped.event(Event::Session(SessionEvent::Stopped));
    expect_exit(&mut stopped, 6, "frame capture failed");
}

#[test]
fn refused_file_exits_with_1() {
    let mut run = captured();
    run.step(Reply::Pixels(&[0; 8]));
    match run.step(Reply::Refused("Permission denied (os error 13)".to_string())) {
        Action::Exit { code, message } => {
            assert_eq!(code, 1);
            assert_eq!(message, "cannot create out.png: Permission denied (os error 13)");
        }
        other => panic!("{:?}", other),
    }
    expect_finish(&mut run);
}

#[test]
fn too_few_pixels_panic() {
    let mut run = captured();
    run.step(Reply::Pixels(&[0; 4]));
    expect_panic(&mut run, "png data");
    let mut none = captured();
    none.step(Reply::Done);
    expect_panic(&mut none, "png data");
}

#[test]
fn empty_frame_panics() {
    let mut run = opened();
    constrain(&mut run, 0, 4, &[1]);
    assert!(matches!(run.step(Reply::Done), Action::Allocate { size: 0 }));
    assert!(matches!(run.step(Reply::Done), Action::Capture { .. }));
    run.event(Event::Frame(FrameEvent::Ready));
    assert!(matches!(run.step(Reply::Done), Action::ReadPixels { size: 0 }));
    run.step(Reply::Pixels(&[]));
    expect_panic(&mut run, "png header");
}

#[test]
fn outcome_of_the_encoding_decides_what_is_written() {
    let layout = Layout::new(1, 1).unwrap();
    match decide_encoded(layout, "o.png".to_string(), Ok(vec![1, 2, 3])) {
        (Phase::Written { layout: l, out_path }, Action::WriteFile { bytes }) => {
            assert_eq!(l, layout);
            assert_eq!(out_path, "o.png");
            assert_eq!(bytes, vec![1, 2, 3]);
        }
        other => panic!("{:?}", other),
    }
    for (step, expected) in [(ImageError::Header, "png header"), (ImageError::Data, "png data")] {
        match decide_encoded(layout, "o.png".to_string(), Err(step)) {
            (Phase::Over, Action::Panic { message }) => assert_eq!(message, expected),
            other => panic!("{:?}", other),
        }
    }
}

#[test]
fn run_keeps_what_was_said() {
    let run = listed(grab(), &ALL);
    assert_eq!(run.state().shm, Some(0));
    assert_eq!(run.state().toplevels.len(), 2);
    assert_eq!(run.state().toplevels[1].1.title, "Inbox");
}
