use symfetch::backend::Raster;
use symfetch::config_handler::{AsciiConfig, Config, ImageConfig};
use symfetch::data::{
    art_lines, Backends, Data, Reply, Step, DEFAULT_ANSI_HEIGHT, DEFAULT_ANSI_WIDTH,
};
use symfetch::layout::{RenderResult, TextBlock};

fn owned(lines: &[&str]) -> Vec<String> {
    lines.iter().map(|line| line.to_string()).collect()
}

fn ascii_config() -> Config {
    Config::new(Some(AsciiConfig { path: String::from("ascii") }), None).unwrap()
}

fn image_config(width: Option<u32>, height: Option<u32>) -> Config {
    let image = ImageConfig {
        path: String::from("image.png"),
        width,
        height,
        colored: None,
        as_ascii: None,
    };
    Config::new(None, Some(image)).unwrap()
}

fn white(width: u32, height: u32) -> Raster {
    Raster::new(width, height, vec![255; (4 * width * height) as usize]).unwrap()
}

fn block_of(step: Step) -> TextBlock {
    match step {
        Step::Done(RenderResult::Block(block)) => block,
        other => panic!("no block was chosen: {:?}", other),
    }
}

/// Runs the selector, answering each step from what the caller has at hand,
/// and counts how often each backend was asked.
fn run(
    data: &Data,
    text: Option<&str>,
    picture: Option<(u32, u32)>,
    ansi: Option<&[u8]>,
) -> (RenderResult, [usize; 3]) {
    let mut asked = [0; 3];
    let mut step = data.select(Reply::Start);
    loop {
        step = match step {
            Step::ReadAscii => {
                asked[0] += 1;
                data.select(Reply::AsciiText(text.map(|text| text.to_string())))
            }
            Step::DecodePicture => {
                asked[1] += 1;
                data.select(Reply::Picture(picture.map(|(width, height)| white(width, height))))
            }
            Step::RenderAnsi => {
                asked[2] += 1;
                data.select(Reply::AnsiArt(ansi.map(|art| art.to_vec())))
            }
            Step::Done(result) => return (result, asked),
        };
    }
}

#[test]
fn new_data_has_both_backends() {
    let data = Data::new(ascii_config());
    assert_eq!(data.backends, Backends { ascii: true, ansi: true });
    assert_eq!(data.config.ascii.as_ref().unwrap().path, "ascii");
    let none = Backends { ascii: false, ansi: false };
    assert_eq!(Data::with_backends(ascii_config(), none).backends, none);
}

#[test]
fn ascii_lines_are_padded_to_a_common_width() {
    let data = Data::new(ascii_config());
    assert_eq!(data.ascii_lines(Some("ab\nabc\n")), Some(owned(&["ab ", "abc"])));
    assert_eq!(data.ascii_lines(Some("")), Some(Vec::new()));
}

#[test]
fn ascii_lines_need_the_table_and_the_text() {
    assert_eq!(Data::new(ascii_config()).ascii_lines(None), None);
    assert_eq!(Data::new(image_config(None, None)).ascii_lines(Some("ab")), None);
}

#[test]
fn ansi_lines_lose_trailing_white_space() {
    let data = Data::new(image_config(None, None));
    let art = b"ab  \n cd\t\n\n".to_vec();
    assert_eq!(data.image_as_ansi_vec(Some(art)), Some(owned(&["ab", " cd", ""])));
}

#[test]
fn ansi_lines_need_the_table_and_valid_text() {
    let data = Data::new(image_config(None, None));
    assert_eq!(data.image_as_ansi_vec(None), None);
    assert_eq!(data.image_as_ansi_vec(Some(vec![0xff, 0xfe])), None);
    assert_eq!(Data::new(ascii_config()).image_as_ansi_vec(Some(b"ab".to_vec())), None);
}

#[test]
fn ansi_defaults_are_forty_by_twenty() {
    assert_eq!(DEFAULT_ANSI_WIDTH, 40);
    assert_eq!(DEFAULT_ANSI_HEIGHT, 20);
}

#[test]
fn left_width_is_the_declared_image_width() {
    let data = Data::new(image_config(Some(40), None));
    assert_eq!(data.left_width(&owned(&["ab", "abc"])), 40);
    assert_eq!(data.left_width(&[]), 40);
}

#[test]
fn left_width_is_the_natural_width_otherwise() {
    let lines = owned(&["ab", "abcd", "a"]);
    assert_eq!(Data::new(image_config(None, Some(3))).left_width(&lines), 4);
    assert_eq!(Data::new(ascii_config()).left_width(&lines), 4);
    assert_eq!(Data::new(ascii_config()).left_width(&[]), 0);
}

#[test]
fn side_by_side_pads_to_the_left_width() {
    let data = Data::new(image_config(Some(5), None));
    let out = data.render_side_by_side(&owned(&["ab", "abc"]), &owned(&["X", "Y", "Z"]));
    assert_eq!(out, vec!["ab    | X", "abc   | Y", "      | Z"]);
}

#[test]
fn ascii_file_beside_system_info() {
    let data = Data::new(ascii_config());
    let (left, asked) = run(&data, Some("ab\nabc"), None, None);
    assert_eq!(asked, [1, 0, 0]);
    let out = data.render(&left, &owned(&["X", "Y", "Z"]));
    assert_eq!(out, vec!["ab  | X", "abc | Y", "    | Z"]);
}

#[test]
fn no_backend_gives_system_info_alone() {
    let none = Backends { ascii: false, ansi: false };
    let data = Data::with_backends(image_config(None, None), none);
    let (left, asked) = run(&data, None, Some((1, 1)), Some(b"art\n"));
    assert!(matches!(left, RenderResult::Empty));
    assert_eq!(asked, [0, 0, 0]);
    let info = owned(&["user@host", "OS: Linux  ", ""]);
    assert_eq!(data.render(&left, &info), info);
}

#[test]
fn unreadable_ascii_file_gives_system_info_alone() {
    let data = Data::new(ascii_config());
    let (left, asked) = run(&data, None, Some((1, 1)), Some(b"art\n"));
    assert!(matches!(left, RenderResult::Empty));
    assert_eq!(asked, [1, 0, 0]);
    let info = owned(&["user@host", "OS: Linux"]);
    let out = data.render(&left, &info);
    assert_eq!(out, info);
    for line in out {
        assert!(!line.contains(" | "));
    }
}

#[test]
fn empty_ascii_file_gives_system_info_alone() {
    let data = Data::new(ascii_config());
    let (left, _) = run(&data, Some(""), None, None);
    assert!(matches!(left, RenderResult::Empty));
    assert_eq!(data.render(&left, &owned(&["X"])), vec!["X"]);
}

#[test]
fn ascii_backend_that_succeeds_keeps_the_ansi_backend_unasked() {
    let data = Data::new(image_config(Some(2), Some(1)));
    assert!(matches!(data.select(Reply::Start), Step::DecodePicture));
    let (left, asked) = run(&data, None, Some((2, 2)), Some(b"ansi\n"));
    assert_eq!(asked, [0, 1, 0]);
    match left {
        RenderResult::Block(block) => {
            assert_eq!(*block.lines(), vec!["@@"]);
            assert_eq!(block.width(), 2);
        }
        RenderResult::Empty => panic!("the ASCII backend gave nothing"),
    }
}

#[test]
fn ansi_backend_is_asked_after_a_failed_decode() {
    let data = Data::new(image_config(None, None));
    let (left, asked) = run(&data, None, None, Some(b"ansi \nart\n"));
    assert_eq!(asked, [0, 1, 1]);
    match left {
        RenderResult::Block(block) => assert_eq!(*block.lines(), vec!["ansi", "art"]),
        RenderResult::Empty => panic!("the ANSI backend gave nothing"),
    }
}

#[test]
fn ansi_backend_is_asked_after_an_empty_rendering() {
    let data = Data::new(image_config(Some(0), Some(1)));
    let step = data.select(Reply::Picture(Some(white(1, 1))));
    assert!(matches!(step, Step::RenderAnsi));
}

#[test]
fn ansi_backend_comes_first_without_the_ascii_backend() {
    let only_ansi = Backends { ascii: false, ansi: true };
    let data = Data::with_backends(image_config(None, None), only_ansi);
    assert!(matches!(data.select(Reply::Start), Step::RenderAnsi));
    let (left, asked) = run(&data, None, Some((1, 1)), Some(b"ansi\n"));
    assert_eq!(asked, [0, 0, 1]);
    assert!(matches!(left, RenderResult::Block(_)));
}

#[test]
fn failed_ascii_backend_without_ansi_backend_gives_nothing() {
    let only_ascii = Backends { ascii: true, ansi: false };
    let data = Data::with_backends(image_config(None, None), only_ascii);
    let (left, asked) = run(&data, None, None, Some(b"ansi\n"));
    assert_eq!(asked, [0, 1, 0]);
    assert!(matches!(left, RenderResult::Empty));
}

#[test]
fn both_backends_failing_gives_system_info_alone() {
    let data = Data::new(image_config(Some(40), None));
    let (left, asked) = run(&data, None, None, None);
    assert_eq!(asked, [0, 1, 1]);
    assert!(matches!(left, RenderResult::Empty));
    assert_eq!(data.render(&left, &owned(&["X", "Y"])), vec!["X", "Y"]);
}

#[test]
fn unreadable_ascii_file_never_falls_through_to_images() {
    let config = Config {
        ascii: Some(AsciiConfig { path: String::from("ascii") }),
        image: Some(ImageConfig {
            path: String::from("image.png"),
            width: None,
            height: None,
            colored: None,
            as_ascii: None,
        }),
    };
    let data = Data::new(config);
    let (left, asked) = run(&data, None, Some((1, 1)), Some(b"ansi\n"));
    assert_eq!(asked, [1, 0, 0]);
    assert!(matches!(left, RenderResult::Empty));
    assert!(matches!(data.select(Reply::Picture(Some(white(1, 1)))), Step::Done(RenderResult::Empty)));
    assert!(matches!(data.select(Reply::AnsiArt(Some(b"x".to_vec()))), Step::Done(RenderResult::Empty)));
}

#[test]
fn reply_that_was_not_asked_for_gives_nothing() {
    let data = Data::new(image_config(None, None));
    let step = data.select(Reply::AsciiText(Some(String::from("ab"))));
    assert!(matches!(step, Step::Done(RenderResult::Empty)));
}

#[test]
fn chosen_block_has_its_natural_width() {
    let data = Data::new(ascii_config());
    let block = block_of(data.select(Reply::AsciiText(Some(String::from("ab\nabc")))));
    assert_eq!(*block.lines(), vec!["ab ", "abc"]);
    assert_eq!(block.width(), 3);
}

#[test]
fn declared_image_width_governs_the_padding() {
    let data = Data::new(image_config(Some(4), Some(1)));
    let (left, _) = run(&data, None, Some((1, 1)), None);
    let out = data.render(&left, &owned(&["X", "Y"]));
    assert_eq!(out, vec!["@@@@ | X", "     | Y"]);
    let wide = Data::new(image_config(Some(6), None));
    let left = RenderResult::Block(TextBlock::new(owned(&["ab", "abc"])));
    assert_eq!(wide.render(&left, &owned(&["X", "Y", "Z"])), vec!["ab     | X", "abc    | Y", "       | Z"]);
}

#[test]
fn render_normalizes_ragged_lines() {
    let data = Data::new(ascii_config());
    let left = RenderResult::Block(TextBlock::new(owned(&["a", "abc", "ab"])));
    assert_eq!(data.render(&left, &owned(&["X"])), vec!["a   | X", "abc | ", "ab  | "]);
}

#[test]
fn render_of_a_block_without_lines_is_system_info_alone() {
    let data = Data::new(image_config(Some(40), None));
    let left = RenderResult::Block(TextBlock::empty());
    assert_eq!(data.render(&left, &owned(&["X", "Y"])), vec!["X", "Y"]);
}

#[test]
fn same_inputs_give_the_same_output() {
    let info = owned(&["user@host", "OS: Linux", "Uptime: 9d"]);
    let mut outputs = Vec::new();
    for _ in 0..2 {
        let data = Data::new(ascii_config());
        let (left, _) = run(&data, Some("  /\\_/\\\n ( o.o )\n  > ^ <"), None, None);
        outputs.push(data.render(&left, &info));
    }
    assert_eq!(outputs[0], outputs[1]);
    assert_eq!(outputs[0], vec!["  /\\_/\\  | user@host", " ( o.o ) | OS: Linux", "  > ^ <  | Uptime: 9d"]);
    let mut outputs = Vec::new();
    for _ in 0..2 {
        let data = Data::new(image_config(Some(3), Some(2)));
        let (left, _) = run(&data, None, Some((4, 4)), None);
        let lines = data.render(&left, &info);
        outputs.push(lines.concat().into_bytes());
    }
    assert_eq!(outputs[0], outputs[1]);
}

#[test]
fn art_lines_are_the_lines_of_valid_text() {
    assert_eq!(art_lines(Some(b"@@\n..\n".to_vec())), Some(owned(&["@@", ".."])));
    assert_eq!(art_lines(Some("é\r\n日 ".as_bytes().to_vec())), Some(owned(&["é", "日 "])));
    assert_eq!(art_lines(Some(Vec::new())), Some(Vec::new()));
    assert_eq!(art_lines(Some(vec![b'a', 0x80])), None);
    assert_eq!(art_lines(None), None);
}

#[test]
fn ascii_art_with_lines_is_the_outcome() {
    let data = Data::new(image_config(None, None));
    let block = block_of(data.after_ascii_art(Some(owned(&["@@", "@"]))));
    assert_eq!(*block.lines(), vec!["@@", "@"]);
    assert_eq!(block.width(), 2);
}

#[test]
fn ascii_art_without_lines_leads_to_the_ansi_backend() {
    let data = Data::new(image_config(None, None));
    assert!(matches!(data.after_ascii_art(None), Step::RenderAnsi));
    assert!(matches!(data.after_ascii_art(Some(Vec::new())), Step::RenderAnsi));
    let only_ascii = Backends { ascii: true, ansi: false };
    let data = Data::with_backends(image_config(None, None), only_ascii);
    assert!(matches!(data.after_ascii_art(None), Step::Done(RenderResult::Empty)));
}

#[test]
fn ascii_art_counts_for_nothing_where_it_was_not_asked_for() {
    let only_ansi = Backends { ascii: false, ansi: true };
    let data = Data::with_backends(image_config(None, None), only_ansi);
    assert!(matches!(data.after_ascii_art(Some(owned(&["@"]))), Step::RenderAnsi));
    let data = Data::new(ascii_config());
    assert!(matches!(data.after_ascii_art(Some(owned(&["@"]))), Step::Done(RenderResult::Empty)));
}

#[test]
fn declared_width_of_zero_keeps_the_left_column() {
    let data = Data::new(image_config(Some(0), None));
    assert_eq!(data.left_width(&owned(&["ab"])), 0);
    assert_eq!(data.render_side_by_side(&owned(&["ab"]), &[]), vec!["ab | "]);
    let left = RenderResult::Block(TextBlock::new(owned(&["ab", "abc"])));
    assert_eq!(data.render(&left, &[]), vec!["ab  | ", "abc | "]);
    assert_eq!(data.render(&left, &owned(&["X", "Y", "Z"])), vec!["ab  | X", "abc | Y", " | Z"]);
}

#[test]
fn declared_width_below_a_line_keeps_the_line_in_full() {
    let data = Data::new(image_config(Some(2), None));
    let out = data.render_side_by_side(&owned(&["abcdef", "a"]), &owned(&["X", "Y", "Z"]));
    assert_eq!(out, vec!["abcdef | X", "a  | Y", "   | Z"]);
}

#[test]
fn every_row_has_the_divider_when_a_block_is_chosen() {
    for width in [None, Some(0), Some(1), Some(9)] {
        let data = Data::new(image_config(width, Some(2)));
        let (left, _) = run(&data, None, Some((3, 3)), Some(b"##\n#\n"));
        assert!(matches!(left, RenderResult::Block(_)));
        for info in [owned(&[]), owned(&["X"]), owned(&["X", "Y", "Z", "W"])] {
            let out = data.render(&left, &info);
            assert!(!out.is_empty());
            for line in out {
                assert!(line.contains(" | "));
            }
        }
    }
}
