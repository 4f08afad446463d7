use minkacap::command::{parse_command, stderr_line, Command, Usage};
use minkacap::frame::{choose_format, to_rgba, BufferArgs, Layout, PixelFormat};
use minkacap::image::{encode_image, ImageError};
use minkacap::state::{Global, State};
use minkacap::text::{append_decimal, bracketed_list, contains};

fn args(words: &[&str]) -> Vec<String> {
    words.iter().map(|word| word.to_string()).collect()
}

#[test]
fn substring_search() {
    assert!(contains("terminal", "min"));
    assert!(contains("terminal", "term"));
    assert!(contains("terminal", "nal"));
    assert!(contains("terminal", "terminal"));
    assert!(contains("terminal", ""));
    assert!(contains("", ""));
    assert!(contains("aab", "ab"));
    assert!(contains("größe 窓", "ße 窓"));
    assert!(!contains("terminal", "terminals"));
    assert!(!contains("terminal", "tm"));
    assert!(!contains("", "a"));
}

#[test]
fn decimal_numbers() {
    for n in [0u32, 7, 10, 99, 100, 1920, 4294967295] {
        let mut text = "n=".to_string();
        append_decimal(&mut text, n);
        assert_eq!(text, format!("n={}", n));
    }
}

#[test]
fn bracketed_lists() {
    for list in [vec![], vec![5u32], vec![875713112, 0], vec![1, 22, 333]] {
        assert_eq!(bracketed_list(&list), format!("{:?}", list));
    }
}

#[test]
fn command_list() {
    assert!(matches!(parse_command(&args(&["p", "list"])), Ok(Command::List)));
    assert!(matches!(parse_command(&args(&["p", "list", "more"])), Ok(Command::List)));
}

#[test]
fn command_grab() {
    for words in [vec!["p", "grab", "sel", "o.png"], vec!["p", "grab", "sel", "o.png", "x"]] {
        match parse_command(&args(&words)) {
            Ok(Command::Grab { selector, out_path }) => {
                assert_eq!(selector, "sel");
                assert_eq!(out_path, "o.png");
            }
            other => panic!("{:?}", other),
        }
    }
}

#[test]
fn command_refused() {
    let refused = |words: &[&str]| parse_command(&args(words)).err();
    assert_eq!(refused(&[]), Some(Usage::All));
    assert_eq!(refused(&["p"]), Some(Usage::All));
    assert_eq!(refused(&["p", "shoot"]), Some(Usage::All));
    assert_eq!(refused(&["p", ""]), Some(Usage::All));
    assert_eq!(refused(&["p", "grab"]), Some(Usage::Grab));
    assert_eq!(refused(&["p", "grab", "sel"]), Some(Usage::Grab));
    assert_eq!(Usage::All.message(), "usage: MinkaCap list | grab <selector> <out.png>");
    assert_eq!(Usage::Grab.message(), "usage: MinkaCap grab <selector> <out.png>");
}

#[test]
fn messages_carry_the_program_name() {
    assert_eq!(stderr_line(&"hello".to_string()), "MinkaCap: hello");
}

#[test]
fn format_without_alpha_is_preferred() {
    assert_eq!(choose_format(&vec![0, 1]), Some(PixelFormat::Xrgb8888));
    assert_eq!(choose_format(&vec![7, 1]), Some(PixelFormat::Xrgb8888));
    assert_eq!(choose_format(&vec![7, 0]), Some(PixelFormat::Argb8888));
    assert_eq!(choose_format(&vec![7, 8]), None);
    assert_eq!(choose_format(&vec![]), None);
    assert_eq!(PixelFormat::Argb8888.code(), 0);
    assert_eq!(PixelFormat::Xrgb8888.code(), 1);
}

#[test]
fn layout_of_a_frame() {
    let layout = Layout::new(1920, 1080).unwrap();
    assert_eq!(layout.stride, 7680);
    assert_eq!(layout.size, 8294400);
    assert_eq!(
        layout.buffer_args(),
        BufferArgs { pool_size: 8294400, width: 1920, height: 1080, stride: 7680 }
    );
}

#[test]
fn layout_at_the_limits() {
    assert_eq!(Layout::new(0, 0).unwrap().size, 0);
    assert_eq!(Layout::new(0, u32::MAX).unwrap().size, 0);
    assert_eq!(Layout::new(1, 0x3fff_ffff).unwrap().size, 0xffff_fffc);
    assert_eq!(Layout::new(1, 0x4000_0000), None);
    assert_eq!(Layout::new(0x4000_0000, 0), None);
    assert_eq!(Layout::new(0x8000, 0x8000), None);
}

#[test]
fn long_lengths_turn_negative_in_the_protocol() {
    let layout = Layout::new(0x2000_0000, 1).unwrap();
    assert_eq!(
        layout.buffer_args(),
        BufferArgs { pool_size: i32::MIN, width: 0x2000_0000, height: 1, stride: i32::MIN }
    );
}

#[test]
fn pixels_become_opaque_rgba() {
    assert_eq!(to_rgba(&[1, 2, 3, 4, 5, 6, 7, 0]), vec![3, 2, 1, 255, 7, 6, 5, 255]);
    assert_eq!(to_rgba(&[]), Vec::<u8>::new());
    assert_eq!(to_rgba(&[1, 2, 3]), Vec::<u8>::new());
    assert_eq!(to_rgba(&[1, 2, 3, 4, 5, 6]), vec![3, 2, 1, 255]);
}

#[test]
fn alpha_does_not_matter() {
    assert_eq!(to_rgba(&[9, 8, 7, 0]), to_rgba(&[9, 8, 7, 200]));
}

#[test]
fn channels_exchange_back() {
    let pixels = [10, 20, 30, 255, 40, 50, 60, 255];
    assert_eq!(to_rgba(&to_rgba(&pixels)), pixels.to_vec());
}

#[test]
fn image_is_a_png_of_the_pixels() {
    let rgba: Vec<u8> = (0u8..24).collect();
    let file = encode_image(3, 2, &rgba).unwrap();
    assert_eq!(
        file[..26],
        [
            137, 80, 78, 71, 13, 10, 26, 10, 0, 0, 0, 13, 73, 72, 68, 82, 0, 0, 0, 3, 0, 0, 0, 2,
            8, 6
        ]
    );
    assert_eq!(file[file.len() - 8..file.len() - 4], *b"IEND");
    let mut reader = png::Decoder::new(std::io::Cursor::new(file)).read_info().unwrap();
    assert_eq!(reader.info().size(), (3, 2));
    let mut decoded = vec![0u8; 24];
    reader.next_frame(&mut decoded).unwrap();
    assert_eq!(decoded, rgba);
}

#[test]
fn image_header_holds_both_sizes() {
    let file = encode_image(1, 0x0102, &vec![7; 4 * 0x0102]).unwrap();
    assert_eq!(file[16..24], [0, 0, 0, 1, 0, 0, 1, 2]);
}

#[test]
fn encoding_is_repeatable() {
    let rgba = vec![3u8; 400];
    assert_eq!(encode_image(10, 10, &rgba), encode_image(10, 10, &rgba));
}

#[test]
fn image_of_no_size_is_refused() {
    assert_eq!(encode_image(0, 2, &vec![]), Err(ImageError::Header));
    assert_eq!(encode_image(2, 0, &vec![]), Err(ImageError::Header));
}

#[test]
fn image_data_of_wrong_length_is_refused() {
    assert_eq!(encode_image(2, 2, &vec![0; 15]), Err(ImageError::Data));
    assert_eq!(encode_image(2, 2, &vec![0; 17]), Err(ImageError::Data));
    assert_eq!(encode_image(2, 2, &vec![]), Err(ImageError::Data));
}

#[test]
fn unknown_interface_is_no_global() {
    assert_eq!(minkacap::state::global_of(&"wl_seat".to_string()), None);
    assert_eq!(minkacap::state::global_of(&"wl_shm".to_string()), Some(Global::Shm));
    assert_eq!(State::default().shm, None);
}
