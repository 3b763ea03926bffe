//! The engine: choosing the left column and laying it out beside the
//! information lines.
//!
//! Reading files and decoding images is the caller's work. The selector says
//! step by step what it needs (`Step`), the caller hands back what it got
//! (`Reply`), and `render` turns the outcome and the information lines into
//! the lines to print.
use crate::backend::{
    ascii_art_of, ascii_rendering, bytes_of, fit_to_terminal, fitted_size, Picture, Raster,
};
use crate::config_handler::{render_options_of, Config};
use crate::layout::{
    block_of, composed, divider, empty_block, join_columns, left_cell, lemma_composed_has_divider,
    lemma_composed_keeps_left_line, lemma_normalized_keeps_lines, lemma_text_is_shown, max_width,
    normalize, normalized, pad_to, right_cell, widest, Block, RenderResult, TextBlock,
};
use crate::text::{
    chars_opt, decode, decoded, display_width, lines, split_lines, text_of, text_opt, trim_end,
    trimmed_end,
};
use vstd::prelude::*;
use vstd::utf8::encode_utf8;

verus! {

/// Which image backends may be used.
#[derive(Debug, Clone, Copy, PartialEq, Eq)]
pub struct Backends {
    /// The backend that renders an image as ASCII art.
    pub ascii: bool,
    /// The backend that renders an image in ANSI true colour.
    pub ansi: bool,
}

/// The configuration and the backends at hand.
#[derive(Debug)]
pub struct Data {
    /// The validated configuration.
    pub config: Config,
    /// The image backends that may be used.
    pub backends: Backends,
}

/// What the selector needs next.
#[derive(Debug)]
pub enum Step {
    /// The text of the art file named by the `[ascii]` table.
    ReadAscii,
    /// The decoded image named by the `[image]` table, for the ASCII backend.
    DecodePicture,
    /// What the ANSI backend writes for the image named by the `[image]`
    /// table.
    RenderAnsi,
    /// Nothing: the left column is chosen.
    Done(RenderResult),
}

/// What the caller hands to the selector.
#[derive(Debug)]
pub enum Reply {
    /// Nothing yet: selection begins.
    Start,
    /// The text of the art file, or `None` where it could not be read.
    AsciiText(Option<String>),
    /// The decoded image, or `None` where it could not be read or decoded.
    Picture(Option<Raster>),
    /// The bytes that the ANSI backend wrote, or `None` where it failed.
    AnsiArt(Option<Vec<u8>>),
}

/// A `Step`, as mathematics.
pub enum Plan {
    ReadAscii,
    DecodePicture,
    RenderAnsi,
    Done(Option<Block>),
}

/// A `Reply`, as mathematics.
pub enum Answer {
    Start,
    AsciiText(Option<Seq<char>>),
    Picture(Option<Picture>),
    AnsiArt(Option<Seq<u8>>),
}

impl View for Step {
    type V = Plan;

    open spec fn view(&self) -> Plan {
        match self {
            Step::ReadAscii => Plan::ReadAscii,
            Step::DecodePicture => Plan::DecodePicture,
            Step::RenderAnsi => Plan::RenderAnsi,
            Step::Done(result) => Plan::Done(result@),
        }
    }
}

impl View for Reply {
    type V = Answer;

    open spec fn view(&self) -> Answer {
        match self {
            Reply::Start => Answer::Start,
            Reply::AsciiText(text) => Answer::AsciiText(chars_opt(*text)),
            Reply::Picture(Some(picture)) => Answer::Picture(Some(picture@)),
            Reply::Picture(None) => Answer::Picture(None),
            Reply::AnsiArt(Some(art)) => Answer::AnsiArt(Some(art@)),
            Reply::AnsiArt(None) => Answer::AnsiArt(None),
        }
    }
}

/// Width of the terminal that the ANSI backend draws for where the `[image]`
/// table fixes none.
pub const DEFAULT_ANSI_WIDTH: u32 = 40;

/// Height of the terminal that the ANSI backend draws for where the `[image]`
/// table fixes none.
pub const DEFAULT_ANSI_HEIGHT: u32 = 20;

/// `side`, or `default` where it is open.
pub open spec fn side_or(side: Option<u32>, default: u32) -> u32 {
    match side {
        Some(length) => length,
        None => default,
    }
}

/// The lines of the art file, padded to a common width: `None` without an
/// `[ascii]` table or without the file's text.
pub open spec fn ascii_lines_of(config: Config, text: Option<Seq<char>>) -> Option<
    Seq<Seq<char>>,
> {
    match (config.ascii, text) {
        (Some(_), Some(text)) => Some(normalized(split_lines(text)).lines),
        _ => None,
    }
}

/// The lines of what a backend wrote: `None` where it wrote nothing or no
/// valid UTF-8.
pub open spec fn text_lines(bytes: Option<Seq<u8>>) -> Option<Seq<Seq<char>>> {
    match bytes {
        Some(bytes) => match decoded(bytes) {
            Some(text) => Some(split_lines(text)),
            None => None,
        },
        None => None,
    }
}

/// The lines that the ASCII backend draws for `picture` under the `[image]`
/// table's hints: `None` without that table or where the backend fails.
pub open spec fn image_ascii_lines_of(config: Config, picture: Picture) -> Option<Seq<Seq<char>>> {
    match config.image {
        Some(image) => text_lines(
            ascii_rendering(picture, render_options_of(image.width, image.height, image.colored)),
        ),
        None => None,
    }
}

/// `lines`, each without the white space at its end.
pub open spec fn trimmed(lines: Seq<Seq<char>>) -> Seq<Seq<char>> {
    Seq::new(lines.len(), |i: int| trim_end(lines[i]))
}

/// The lines of what the ANSI backend wrote, each without the white space at
/// its end: `None` without an `[image]` table or where the backend failed.
pub open spec fn image_ansi_lines_of(config: Config, art: Option<Seq<u8>>) -> Option<
    Seq<Seq<char>>,
> {
    match (config.image, text_lines(art)) {
        (Some(_), Some(lines)) => Some(trimmed(lines)),
        _ => None,
    }
}

/// The size in pixels that the ANSI backend scales an image of `width` by
/// `height` pixels to: `None` without an `[image]` table, or where twice the
/// terminal's height is more than a `u32` holds.
pub open spec fn ansi_size_of(config: Config, width: u32, height: u32) -> Option<(u32, u32)> {
    match config.image {
        Some(image) => if side_or(image.height, DEFAULT_ANSI_HEIGHT) * 2 <= u32::MAX {
            Some(
                fitted_size(
                    width,
                    height,
                    side_or(image.width, DEFAULT_ANSI_WIDTH),
                    side_or(image.height, DEFAULT_ANSI_HEIGHT),
                ),
            )
        } else {
            None
        },
        None => None,
    }
}

/// The block that a backend's lines make: none where the backend gave no
/// lines at all.
pub open spec fn usable(lines: Option<Seq<Seq<char>>>) -> Option<Block> {
    match lines {
        Some(lines) => if lines.len() > 0 {
            Some(block_of(lines))
        } else {
            None
        },
        None => None,
    }
}

/// Whether the ANSI backend may be asked: an `[image]` table and no
/// `[ascii]` table, and the backend at hand.
pub open spec fn ansi_applies(config: Config, backends: Backends) -> bool {
    config.ascii is None && config.image is Some && backends.ansi
}

/// The selector's step once the ASCII backend has given `art`, its lines, or
/// has failed: its lines are the outcome where it gave any; otherwise the ANSI
/// backend is asked where it applies, and nothing is chosen where it does not.
/// Art that was made though an `[ascii]` table is present, or though the ASCII
/// backend is not at hand, counts for nothing.
pub open spec fn after_ascii_art_of(
    config: Config,
    backends: Backends,
    art: Option<Seq<Seq<char>>>,
) -> Plan {
    if config.ascii is None && backends.ascii && usable(art) is Some {
        Plan::Done(usable(art))
    } else if ansi_applies(config, backends) {
        Plan::RenderAnsi
    } else {
        Plan::Done(None)
    }
}

/// The lines that the ASCII backend draws for the caller's reply: none
/// where the image could not be decoded.
pub open spec fn ascii_art_for(config: Config, picture: Option<Picture>) -> Option<
    Seq<Seq<char>>,
> {
    match picture {
        Some(picture) => image_ascii_lines_of(config, picture),
        None => None,
    }
}

/// The selector's next step after `reply`.
///
/// With an `[ascii]` table the art file is read, and its lines or nothing is
/// the outcome: the image backends are never asked. With an `[image]` table
/// alone the ASCII backend comes first, where it is at hand, and the ANSI
/// backend only where the ASCII backend is not at hand or gave nothing.
pub open spec fn next_step(config: Config, backends: Backends, reply: Answer) -> Plan {
    match reply {
        Answer::Start => if config.ascii is Some {
            Plan::ReadAscii
        } else if config.image is Some && backends.ascii {
            Plan::DecodePicture
        } else if ansi_applies(config, backends) {
            Plan::RenderAnsi
        } else {
            Plan::Done(None)
        },
        Answer::AsciiText(text) => Plan::Done(usable(ascii_lines_of(config, text))),
        Answer::Picture(picture) => after_ascii_art_of(
            config,
            backends,
            ascii_art_for(config, picture),
        ),
        Answer::AnsiArt(art) => if ansi_applies(config, backends) {
            Plan::Done(usable(image_ansi_lines_of(config, art)))
        } else {
            Plan::Done(None)
        },
    }
}

/// The width to which the left column is padded: the width that the
/// `[image]` table fixes, or else that of the widest line.
pub open spec fn pad_width(config: Config, lines: Seq<Seq<char>>) -> nat {
    match config.image {
        Some(image) => match image.width {
            Some(width) => width as nat,
            None => max_width(lines),
        },
        None => max_width(lines),
    }
}

/// `left_lines` beside the information lines: each left line padded to
/// `pad_width` and never cut, the divider, the information line. Only where
/// the left column shows nothing, with no width declared above 0 and no
/// character in any line, are the rows the information lines alone.
pub open spec fn side_by_side(config: Config, left_lines: Seq<Seq<char>>, info: Seq<Seq<char>>)
    -> Seq<Seq<char>> {
    composed(Block { lines: left_lines, width: pad_width(config, left_lines) }, block_of(info))
}

/// The left column as it is laid out: the chosen lines, normalized, in a
/// column of `pad_width`; the empty block where nothing was chosen or the
/// chosen block has no line.
pub open spec fn left_column(config: Config, left: Option<Block>) -> Block {
    match left {
        Some(block) => if block.lines.len() > 0 {
            Block {
                lines: normalized(block.lines).lines,
                width: pad_width(config, normalized(block.lines).lines),
            }
        } else {
            empty_block()
        },
        None => empty_block(),
    }
}

/// The lines to print for the chosen left column and the information lines:
/// the two side by side, or the information lines alone where the left
/// column shows nothing.
pub open spec fn rendered(config: Config, left: Option<Block>, info: Seq<Seq<char>>) -> Seq<
    Seq<char>,
> {
    composed(left_column(config, left), block_of(info))
}

/// While the ASCII backend is at hand, selection for an `[image]` table never
/// begins with the ANSI backend; and once the ASCII backend has given lines,
/// they are the outcome and the ANSI backend is not asked.
pub proof fn lemma_ascii_art_comes_first(
    config: Config,
    backends: Backends,
    art: Seq<Seq<char>>,
    picture: Option<Picture>,
)
    requires
        config.ascii is None,
        config.image is Some,
        backends.ascii,
    ensures
        next_step(config, backends, Answer::Start) == Plan::DecodePicture,
        art.len() > 0 ==> after_ascii_art_of(config, backends, Some(art)) == Plan::Done(
            Some(block_of(art)),
        ),
        ascii_art_for(config, picture) == Some(art) && art.len() > 0 ==> next_step(
            config,
            backends,
            Answer::Picture(picture),
        ) == Plan::Done(Some(block_of(art))),
{
}

/// The ANSI backend is asked only for an `[image]` table without an
/// `[ascii]` table, only where it is at hand, and only at the start where the
/// ASCII backend is not at hand, or after the ASCII backend gave nothing.
pub proof fn lemma_ansi_is_the_fallback(config: Config, backends: Backends, reply: Answer)
    requires
        next_step(config, backends, reply) == Plan::RenderAnsi,
    ensures
        ansi_applies(config, backends),
        match reply {
            Answer::Start => !backends.ascii,
            Answer::Picture(picture) => !backends.ascii || usable(ascii_art_for(config, picture))
                is None,
            _ => false,
        },
{
}

/// With an `[ascii]` table the image backends are never asked, whatever
/// became of the art file.
pub proof fn lemma_ascii_table_excludes_images(config: Config, backends: Backends, reply: Answer)
    requires
        config.ascii is Some,
    ensures
        next_step(config, backends, reply) != Plan::DecodePicture,
        next_step(config, backends, reply) != Plan::RenderAnsi,
        next_step(config, backends, Answer::Start) == Plan::ReadAscii,
        next_step(config, backends, Answer::AsciiText(None)) == Plan::Done(None),
{
}

/// A block that the selector hands out has at least one line.
pub proof fn lemma_outcome_has_lines(config: Config, backends: Backends, reply: Answer)
    ensures
        next_step(config, backends, reply) matches Plan::Done(Some(block)) ==> block.lines.len()
            > 0,
{
}

/// A width that the `[image]` table declares never clips a line. A left line
/// that holds a character stands in its row in full, with the divider and the
/// information line after it, whatever the declared width, 0 too; where the
/// line is as wide as the column or wider, the divider follows it directly.
pub proof fn lemma_width_hint_never_clips(
    config: Config,
    left_lines: Seq<Seq<char>>,
    info: Seq<Seq<char>>,
    i: int,
)
    requires
        0 <= i < left_lines.len(),
        left_lines[i].len() > 0,
    ensures
        side_by_side(config, left_lines, info)[i] == pad_to(
            left_lines[i],
            pad_width(config, left_lines),
        ) + divider() + right_cell(block_of(info), i),
        side_by_side(config, left_lines, info)[i].take(left_lines[i].len() as int)
            == left_lines[i],
        display_width(left_lines[i]) >= pad_width(config, left_lines) ==> side_by_side(
            config,
            left_lines,
            info,
        )[i] == left_lines[i] + divider() + right_cell(block_of(info), i),
{
    let left = Block { lines: left_lines, width: pad_width(config, left_lines) };
    lemma_text_is_shown(left, i);
    lemma_composed_keeps_left_line(left, block_of(info), i);
}

/// Where the chosen block holds a character, every row of what is printed
/// holds the divider between its left cell and its right cell, and the rows
/// that have a line of the block begin with that line in full.
pub proof fn lemma_rendered_with_left(
    config: Config,
    block: Block,
    info: Seq<Seq<char>>,
    line: int,
    row: int,
)
    requires
        0 <= line < block.height(),
        block.lines[line].len() > 0,
        0 <= row < rendered(config, Some(block), info).len(),
    ensures
        rendered(config, Some(block), info)[row] == pad_to(
            left_cell(left_column(config, Some(block)), row),
            left_column(config, Some(block)).width,
        ) + divider() + right_cell(block_of(info), row),
        rendered(config, Some(block), info)[line].take(block.lines[line].len() as int)
            == block.lines[line],
{
    let left = left_column(config, Some(block));
    lemma_normalized_keeps_lines(block.lines, line);
    assert(left.lines[line].len() >= block.lines[line].len());
    lemma_text_is_shown(left, line);
    lemma_composed_has_divider(left, block_of(info), row);
    lemma_composed_keeps_left_line(left, block_of(info), line);
    let shown = rendered(config, Some(block), info)[line];
    assert(shown.take(block.lines[line].len() as int) =~= left.lines[line].take(
        block.lines[line].len() as int,
    ));
}

/// Where nothing was chosen, the lines to print are the information lines as
/// they stand.
pub proof fn lemma_rendered_without_left(config: Config, info: Seq<Seq<char>>)
    ensures
        rendered(config, None, info) == info,
{
    assert(rendered(config, None, info) =~= info);
}

/// Selection and layout are functions of what they are given: two runs on the
/// same configuration, backends, reply and information lines take the same
/// step and give the same lines, character for character and so byte for
/// byte.
pub proof fn lemma_same_inputs_same_output(
    data: Data,
    reply: Answer,
    left: Option<Block>,
    info: Seq<Seq<char>>,
    first_step: Step,
    second_step: Step,
    first_lines: Seq<String>,
    second_lines: Seq<String>,
)
    requires
        first_step@ == next_step(data.config, data.backends, reply),
        second_step@ == next_step(data.config, data.backends, reply),
        text_of(first_lines) == rendered(data.config, left, info),
        text_of(second_lines) == rendered(data.config, left, info),
    ensures
        first_step@ == second_step@,
        first_lines.len() == second_lines.len(),
        forall|i: int| 0 <= i < first_lines.len() ==> first_lines[i]@ == second_lines[i]@,
        forall|i: int|
            0 <= i < first_lines.len() ==> encode_utf8(first_lines[i]@) == encode_utf8(
                second_lines[i]@,
            ),
{
    assert(text_of(first_lines).len() == first_lines.len());
    assert(text_of(second_lines).len() == second_lines.len());
    assert forall|i: int| 0 <= i < first_lines.len() implies first_lines[i]@ == second_lines[i]@ by {
        assert(text_of(first_lines)[i] == first_lines[i]@);
        assert(text_of(second_lines)[i] == second_lines[i]@);
    }
}

/// The lines of what a backend wrote: `None` where it wrote nothing, or no
/// valid UTF-8.
pub fn art_lines(art: Option<Vec<u8>>) -> (out: Option<Vec<String>>)
    ensures
        text_opt(out) == text_lines(bytes_of(art)),
{
    match art {
        Some(bytes) => match decode(bytes) {
            Some(text) => Some(lines(text.as_str())),
            None => None,
        },
        None => None,
    }
}

/// The block that a backend's lines make.
fn usable_block(lines: Option<Vec<String>>) -> (out: RenderResult)
    ensures
        out@ == usable(text_opt(lines)),
{
    match lines {
        Some(lines) => if lines.len() > 0 {
            RenderResult::Block(TextBlock::new(lines))
        } else {
            RenderResult::Empty
        },
        None => RenderResult::Empty,
    }
}

impl Data {
    /// The engine for `config`, with both image backends at hand.
    pub fn new(config: Config) -> (out: Self)
        ensures
            out.config == config,
            out.backends == (Backends { ascii: true, ansi: true }),
    {
        Data { config, backends: Backends { ascii: true, ansi: true } }
    }

    /// The engine for `config` with the given backends at hand.
    pub fn with_backends(config: Config, backends: Backends) -> (out: Self)
        ensures
            out.config == config,
            out.backends == backends,
    {
        Data { config, backends }
    }

    /// The lines of the art file whose text is `text`, padded to a common
    /// width. `None` without an `[ascii]` table, and where `text` is `None`
    /// because the file could not be read.
    pub fn ascii_lines(&self, text: Option<&str>) -> (out: Option<Vec<String>>)
        ensures
            text_opt(out) == ascii_lines_of(
                self.config,
                match text {
                    Some(text) => Some(text@),
                    None => None,
                },
            ),
    {
        match (&self.config.ascii, text) {
            (Some(_), Some(text)) => {
                let raw = lines(text);
                Some(normalize(raw.as_slice()).into_lines())
            },
            _ => None,
        }
    }

    /// The lines that the ASCII backend draws for `picture` under the
    /// `[image]` table's hints. `None` without that table, and where the
    /// backend cannot serve the request, fails, or writes no valid UTF-8.
    pub fn image_as_ascii_vec(&self, picture: &Raster) -> (out: Option<Vec<String>>)
        ensures
            text_opt(out) == image_ascii_lines_of(self.config, picture@),
    {
        match &self.config.image {
            Some(image) => art_lines(ascii_art_of(picture, &image.get_render_options())),
            None => None,
        }
    }

    /// The size in pixels to which the ANSI backend is to scale an image of
    /// `width` by `height` pixels: as large as fits a terminal of the
    /// `[image]` table's width and height, 40 by 20 where it fixes none, with
    /// the image's proportions kept. `None` without an `[image]` table, and
    /// where twice the terminal's height is more than a `u32` holds.
    pub fn ansi_size(&self, width: u32, height: u32) -> (out: Option<(u32, u32)>)
        ensures
            out == ansi_size_of(self.config, width, height),
    {
        match &self.config.image {
            Some(image) => {
                let columns = match image.width {
                    Some(columns) => columns,
                    None => DEFAULT_ANSI_WIDTH,
                };
                let rows = match image.height {
                    Some(rows) => rows,
                    None => DEFAULT_ANSI_HEIGHT,
                };
                fit_to_terminal((width, height), columns, rows)
            },
            None => None,
        }
    }

    /// The lines of what the ANSI backend wrote, each without the white
    /// space at its end. `None` without an `[image]` table, and where `art` is
    /// `None` because the backend failed, or is no valid UTF-8.
    pub fn image_as_ansi_vec(&self, art: Option<Vec<u8>>) -> (out: Option<Vec<String>>)
        ensures
            text_opt(out) == image_ansi_lines_of(self.config, bytes_of(art)),
    {
        if self.config.image.is_none() {
            return None;
        }
        match art_lines(art) {
            Some(raw) => {
                let mut out: Vec<String> = Vec::new();
                let mut i: usize = 0;
                while i < raw.len()
                    invariant
                        i <= raw.len(),
                        out@.len() == i,
                        forall|j: int| 0 <= j < i ==> (#[trigger] out@[j])@ == trim_end(raw@[j]@),
                    decreases raw.len() - i,
                {
                    out.push(trimmed_end(raw[i].as_str()));
                    i = i + 1;
                }
                assert(text_of(out@) =~= trimmed(text_of(raw@)));
                Some(out)
            },
            None => None,
        }
    }

    /// The selector's step once the ASCII backend has given `art`, its lines,
    /// or has failed.
    pub fn after_ascii_art(&self, art: Option<Vec<String>>) -> (step: Step)
        ensures
            step@ == after_ascii_art_of(self.config, self.backends, text_opt(art)),
    {
        let art_counts = self.config.ascii.is_none() && self.backends.ascii;
        match usable_block(art) {
            RenderResult::Block(block) if art_counts => Step::Done(RenderResult::Block(block)),
            _ => if self.config.ascii.is_none() && self.config.image.is_some()
                && self.backends.ansi {
                Step::RenderAnsi
            } else {
                Step::Done(RenderResult::Empty)
            },
        }
    }

    /// The selector's next step after `reply`: what to fetch next, or the
    /// left column that is chosen.
    pub fn select(&self, reply: Reply) -> (step: Step)
        ensures
            step@ == next_step(self.config, self.backends, reply@),
    {
        let ansi = self.config.ascii.is_none() && self.config.image.is_some()
            && self.backends.ansi;
        match reply {
            Reply::Start => if self.config.ascii.is_some() {
                Step::ReadAscii
            } else if self.config.image.is_some() && self.backends.ascii {
                Step::DecodePicture
            } else if ansi {
                Step::RenderAnsi
            } else {
                Step::Done(RenderResult::Empty)
            },
            Reply::AsciiText(text) => {
                let lines = match &text {
                    Some(text) => self.ascii_lines(Some(text.as_str())),
                    None => self.ascii_lines(None),
                };
                Step::Done(usable_block(lines))
            },
            Reply::Picture(picture) => {
                let art = match &picture {
                    Some(picture) => if self.config.ascii.is_none() && self.backends.ascii {
                        self.image_as_ascii_vec(picture)
                    } else {
                        None
                    },
                    None => None,
                };
                self.after_ascii_art(art)
            },
            Reply::AnsiArt(art) => if ansi {
                Step::Done(usable_block(self.image_as_ansi_vec(art)))
            } else {
                Step::Done(RenderResult::Empty)
            },
        }
    }

    /// The width to which the left column is padded: the width that the
    /// `[image]` table fixes, or else that of the widest of `left_lines`.
    pub fn left_width(&self, left_lines: &[String]) -> (width: usize)
        ensures
            width == pad_width(self.config, text_of(left_lines@)),
    {
        match &self.config.image {
            Some(image) => match image.width {
                Some(width) => width as usize,
                None => widest(left_lines),
            },
            None => widest(left_lines),
        }
    }

    /// `left_lines` beside `info_lines`, row by row: the left line padded to
    /// `left_width` and never cut, then `" | "`, then the information line.
    /// The rows are the information lines alone only where the left column
    /// shows nothing.
    pub fn render_side_by_side(&self, left_lines: &[String], info_lines: &[String]) -> (out: Vec<
        String,
    >)
        ensures
            text_of(out@) == side_by_side(self.config, text_of(left_lines@), text_of(info_lines@)),
            out@.len() == vstd::math::max(left_lines@.len() as int, info_lines@.len() as int),
    {
        let left_width = self.left_width(left_lines);
        join_columns(left_lines, left_width, info_lines)
    }

    /// The lines to print: the chosen left column, normalized, beside the
    /// information lines, or the information lines alone where nothing was
    /// chosen.
    pub fn render(&self, left: &RenderResult, info_lines: &[String]) -> (out: Vec<String>)
        ensures
            text_of(out@) == rendered(self.config, left@, text_of(info_lines@)),
            out@.len() == rendered(self.config, left@, text_of(info_lines@)).len(),
    {
        match left {
            RenderResult::Block(block) if block.lines().len() > 0 => {
                let left = normalize(block.lines().as_slice());
                self.render_side_by_side(left.lines().as_slice(), info_lines)
            },
            _ => {
                let none: Vec<String> = Vec::new();
                assert(text_of(none@) =~= empty_block().lines);
                join_columns(none.as_slice(), 0, info_lines)
            },
        }
    }
}

} // verus!
