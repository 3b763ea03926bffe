//! Blocks of text and their side-by-side composition.
//!
//! A block is a list of lines with its width, that of its widest line.
//! `normalize` pads ragged lines to their common width, `compose` joins a left
//! and a right block row by row, and `join_columns` does so for a left column
//! whose width is declared rather than measured.
use crate::text::{display_width, line_width, text_of};
use vstd::prelude::*;

verus! {

/// A list of display lines and their width, which is the display width of
/// the widest line and 0 where there is none.
#[derive(Debug)]
pub struct TextBlock {
    lines: Vec<String>,
    width: usize,
}

/// A column of text as mathematics: its lines and the width it is laid out
/// in. The view of a `TextBlock` is a column of its natural width.
pub struct Block {
    pub lines: Seq<Seq<char>>,
    pub width: nat,
}

impl View for TextBlock {
    type V = Block;

    closed spec fn view(&self) -> Block {
        Block { lines: text_of(self.lines@), width: self.width as nat }
    }
}

impl Block {
    /// Number of lines.
    pub open spec fn height(self) -> nat {
        self.lines.len()
    }

    /// The width is that of the widest line.
    pub open spec fn is_natural(self) -> bool {
        self.width == max_width(self.lines)
    }

    /// Nothing to show: no width to fill and no line that holds a character.
    pub open spec fn shows_nothing(self) -> bool {
        self.width == 0 && max_width(self.lines) == 0
    }
}

/// Outcome of choosing the left column: a block, or nothing usable.
#[derive(Debug)]
pub enum RenderResult {
    Block(TextBlock),
    Empty,
}

impl View for RenderResult {
    type V = Option<Block>;

    open spec fn view(&self) -> Option<Block> {
        match self {
            RenderResult::Block(block) => Some(block@),
            RenderResult::Empty => None,
        }
    }
}

/// The block without lines and without width.
pub open spec fn empty_block() -> Block {
    Block { lines: Seq::empty(), width: 0 }
}

/// The largest display width among `lines`, 0 where there is none.
pub open spec fn max_width(lines: Seq<Seq<char>>) -> nat
    decreases lines.len(),
{
    if lines.len() == 0 {
        0
    } else {
        let before = max_width(lines.drop_last());
        let last = display_width(lines.last());
        if last > before {
            last
        } else {
            before
        }
    }
}

/// `width` spaces.
pub open spec fn blank(width: nat) -> Seq<char> {
    Seq::new(width, |i: int| ' ')
}

/// `line` with spaces added on the right until it is `width` wide. A line that
/// is wider already stays as it is: nothing is ever cut.
pub open spec fn pad_to(line: Seq<char>, width: nat) -> Seq<char> {
    if display_width(line) >= width {
        line
    } else {
        line + blank((width - display_width(line)) as nat)
    }
}

/// `lines`, each padded to the width of the widest, in the same order.
pub open spec fn normalized(lines: Seq<Seq<char>>) -> Block {
    Block {
        lines: Seq::new(lines.len(), |i: int| pad_to(lines[i], max_width(lines))),
        width: max_width(lines),
    }
}

/// The raw lines as a block of their natural width.
pub open spec fn block_of(lines: Seq<Seq<char>>) -> Block {
    Block { lines, width: max_width(lines) }
}

/// What separates the two columns.
pub open spec fn divider() -> Seq<char> {
    seq![' ', '|', ' ']
}

/// The left cell of row `i`: the line, or blanks below the last line.
pub open spec fn left_cell(left: Block, i: int) -> Seq<char> {
    if i < left.height() {
        left.lines[i]
    } else {
        blank(left.width)
    }
}

/// The right cell of row `i`: the line, or nothing below the last line.
pub open spec fn right_cell(right: Block, i: int) -> Seq<char> {
    if i < right.height() {
        right.lines[i]
    } else {
        Seq::empty()
    }
}

/// Row `i` of the composition. Where the left column shows nothing it is the
/// right cell alone; otherwise the padded left cell, the divider and the right
/// cell.
pub open spec fn composed_row(left: Block, right: Block, i: int) -> Seq<char> {
    if left.shows_nothing() {
        right_cell(right, i)
    } else {
        pad_to(left_cell(left, i), left.width) + divider() + right_cell(right, i)
    }
}

/// Number of rows of the composition.
pub open spec fn row_count(left: Block, right: Block) -> nat {
    if left.height() >= right.height() {
        left.height()
    } else {
        right.height()
    }
}

/// The composition of two blocks: one row for each line of the taller one.
pub open spec fn composed(left: Block, right: Block) -> Seq<Seq<char>> {
    Seq::new(row_count(left, right), |i: int| composed_row(left, right, i))
}

/// No line is wider than `max_width`.
pub proof fn lemma_max_width_bounds(lines: Seq<Seq<char>>, i: int)
    requires
        0 <= i < lines.len(),
    ensures
        display_width(lines[i]) <= max_width(lines),
    decreases lines.len(),
{
    if i < lines.len() - 1 {
        lemma_max_width_bounds(lines.drop_last(), i);
    }
}

/// Some line is exactly `max_width` wide, unless there is no line.
pub proof fn lemma_max_width_attained(lines: Seq<Seq<char>>) -> (i: int)
    requires
        lines.len() > 0,
    ensures
        0 <= i < lines.len(),
        display_width(lines[i]) == max_width(lines),
    decreases lines.len(),
{
    let before = lines.drop_last();
    if before.len() == 0 || display_width(lines.last()) > max_width(before) {
        lines.len() - 1
    } else {
        lemma_max_width_attained(before)
    }
}

/// The width of a normalized block is the largest display width among its
/// lines — no line is wider and, unless there is no line, one is as wide — and
/// every normalized line is exactly that wide. Height and order are kept.
pub proof fn lemma_normalized_width(lines: Seq<Seq<char>>)
    ensures
        normalized(lines).height() == lines.len(),
        forall|i: int|
            0 <= i < lines.len() ==> display_width(#[trigger] lines[i]) <= normalized(lines).width,
        lines.len() > 0 ==> exists|i: int|
            0 <= i < lines.len() && display_width(#[trigger] lines[i]) == normalized(lines).width,
        forall|i: int|
            0 <= i < lines.len() ==> display_width(#[trigger] normalized(lines).lines[i])
                == normalized(lines).width,
{
    assert forall|i: int| 0 <= i < lines.len() implies display_width(#[trigger] lines[i])
        <= normalized(lines).width by {
        lemma_max_width_bounds(lines, i);
    }
    if lines.len() > 0 {
        let i = lemma_max_width_attained(lines);
        assert(display_width(lines[i]) == normalized(lines).width);
    }
    assert forall|i: int| 0 <= i < lines.len() implies display_width(
        #[trigger] normalized(lines).lines[i],
    ) == normalized(lines).width by {
        lemma_max_width_bounds(lines, i);
    }
}

/// Normalizing keeps every line as a prefix: padding only adds spaces on the
/// right and never shortens a line.
pub proof fn lemma_normalized_keeps_lines(lines: Seq<Seq<char>>, i: int)
    requires
        0 <= i < lines.len(),
    ensures
        normalized(lines).lines[i].take(lines[i].len() as int) == lines[i],
        forall|j: int|
            lines[i].len() <= j < normalized(lines).width ==> normalized(lines).lines[i][j] == ' ',
{
    lemma_max_width_bounds(lines, i);
    assert(normalized(lines).lines[i].take(lines[i].len() as int) =~= lines[i]);
}

/// Normalizing no lines gives the block of width 0 and height 0.
pub proof fn lemma_normalized_empty()
    ensures
        normalized(Seq::empty()).width == 0,
        normalized(Seq::empty()).height() == 0,
{
}

/// A block whose lines all have its width has that width as `max_width`.
pub proof fn lemma_max_width_uniform(lines: Seq<Seq<char>>, width: nat)
    requires
        lines.len() > 0,
        forall|i: int| 0 <= i < lines.len() ==> display_width(#[trigger] lines[i]) == width,
    ensures
        max_width(lines) == width,
{
    let i = lemma_max_width_attained(lines);
    assert(display_width(lines[i]) == width);
}

/// Normalizing twice is normalizing once.
pub proof fn lemma_normalized_idempotent(lines: Seq<Seq<char>>)
    ensures
        normalized(normalized(lines).lines) == normalized(lines),
{
    let once = normalized(lines);
    lemma_normalized_width(lines);
    if lines.len() > 0 {
        lemma_max_width_uniform(once.lines, once.width);
    }
    assert(normalized(once.lines).lines =~= once.lines);
}

/// The composition has one row for each line of the taller block.
pub proof fn lemma_composed_height(left: Block, right: Block)
    ensures
        composed(left, right).len() == vstd::math::max(
            left.height() as int,
            right.height() as int,
        ),
{
}

/// The width of a normalized block is its natural width.
pub proof fn lemma_normalized_is_natural(lines: Seq<Seq<char>>)
    ensures
        normalized(lines).is_natural(),
        block_of(lines).is_natural(),
        empty_block().is_natural(),
{
    lemma_normalized_width(lines);
    if lines.len() > 0 {
        lemma_max_width_uniform(normalized(lines).lines, normalized(lines).width);
    } else {
        assert(normalized(lines).lines =~= lines);
    }
}

/// With a left block of width 0 every row that has a right line is that line
/// as it stands, and every other row is empty: no padding, no divider.
pub proof fn lemma_composed_without_left(left: Block, right: Block)
    requires
        left.is_natural(),
        left.width == 0,
    ensures
        forall|i: int|
            0 <= i < right.height() ==> #[trigger] composed(left, right)[i] == right.lines[i],
        forall|i: int|
            right.height() <= i < row_count(left, right) ==> (#[trigger] composed(left, right)[i]).len()
                == 0,
        left.height() <= right.height() ==> composed(left, right) == right.lines,
{
    if left.height() <= right.height() {
        assert(composed(left, right) =~= right.lines);
    }
}

/// Below the last right line, with a left column that shows something, a
/// row is the left line padded to the column's width and then the divider,
/// with nothing after it.
pub proof fn lemma_composed_below_right(left: Block, right: Block, i: int)
    requires
        !left.shows_nothing(),
        right.height() <= i < left.height(),
    ensures
        composed(left, right)[i] == pad_to(left.lines[i], left.width) + divider(),
        display_width(pad_to(left.lines[i], left.width)) >= left.width,
        pad_to(left.lines[i], left.width).take(left.lines[i].len() as int) == left.lines[i],
{
    let cell = pad_to(left.lines[i], left.width);
    assert(cell + divider() + Seq::<char>::empty() =~= cell + divider());
    assert(cell.take(left.lines[i].len() as int) =~= left.lines[i]);
}

/// The width of the left column never clips: a row begins with its left line
/// in full, whatever the column's width, and the divider follows the line
/// directly where the line is as wide as the column or wider.
pub proof fn lemma_composed_keeps_left_line(left: Block, right: Block, i: int)
    requires
        !left.shows_nothing(),
        0 <= i < left.height(),
    ensures
        composed(left, right)[i].take(left.lines[i].len() as int) == left.lines[i],
        display_width(left.lines[i]) >= left.width ==> composed(left, right)[i] == left.lines[i]
            + divider() + right_cell(right, i),
{
    assert(composed(left, right)[i].take(left.lines[i].len() as int) =~= left.lines[i]);
}

/// Where the left column shows something, every row holds the divider
/// between its left cell and its right cell.
pub proof fn lemma_composed_has_divider(left: Block, right: Block, i: int)
    requires
        !left.shows_nothing(),
        0 <= i < row_count(left, right),
    ensures
        composed(left, right)[i] == pad_to(left_cell(left, i), left.width) + divider()
            + right_cell(right, i),
        display_width(pad_to(left_cell(left, i), left.width)) >= left.width,
{
}

/// A column with a line that holds a character shows something, whatever
/// width is declared for it, 0 too.
pub proof fn lemma_text_is_shown(left: Block, i: int)
    requires
        0 <= i < left.height(),
        left.lines[i].len() > 0,
    ensures
        !left.shows_nothing(),
{
    lemma_max_width_bounds(left.lines, i);
}

impl TextBlock {
    #[verifier::type_invariant]
    spec fn width_is_natural(self) -> bool {
        self.width == max_width(text_of(self.lines@))
    }

    /// The block without lines.
    pub fn empty() -> (block: TextBlock)
        ensures
            block@ == empty_block(),
    {
        let lines: Vec<String> = Vec::new();
        assert(text_of(lines@) =~= Seq::empty());
        TextBlock { lines, width: 0 }
    }

    /// The block of `lines` as they stand, as wide as the widest of them.
    pub fn new(lines: Vec<String>) -> (block: TextBlock)
        ensures
            block@ == block_of(text_of(lines@)),
    {
        let width = widest(&lines);
        TextBlock { lines, width }
    }

    /// Number of lines.
    pub fn height(&self) -> (height: usize)
        ensures
            height == self@.height(),
    {
        self.lines.len()
    }

    /// The display width of the widest line, 0 where there is none.
    pub fn width(&self) -> (width: usize)
        ensures
            width == self@.width,
            self@.is_natural(),
    {
        proof {
            use_type_invariant(self);
        }
        self.width
    }

    /// The lines, in order.
    pub fn lines(&self) -> (lines: &Vec<String>)
        ensures
            text_of(lines@) == self@.lines,
            lines@.len() == self@.height(),
            self@.is_natural(),
    {
        proof {
            use_type_invariant(self);
        }
        &self.lines
    }

    /// The lines, in order, without the block.
    pub fn into_lines(self) -> (lines: Vec<String>)
        ensures
            text_of(lines@) == self@.lines,
            lines@.len() == self@.height(),
    {
        self.lines
    }
}

/// The largest display width among `lines`.
pub fn widest(lines: &[String]) -> (width: usize)
    ensures
        width == max_width(text_of(lines@)),
{
    let mut width: usize = 0;
    let mut i: usize = 0;
    assert(text_of(lines@).take(0) =~= Seq::empty());
    while i < lines.len()
        invariant
            i <= lines.len(),
            width == max_width(text_of(lines@).take(i as int)),
        decreases lines.len() - i,
    {
        let w = line_width(lines[i].as_str());
        proof {
            let upto = text_of(lines@).take(i + 1);
            assert(upto.drop_last() =~= text_of(lines@).take(i as int));
            assert(upto.last() == lines@[i as int]@);
        }
        if w > width {
            width = w;
        }
        i = i + 1;
    }
    assert(text_of(lines@).take(lines.len() as int) =~= text_of(lines@));
    width
}

/// `width` spaces.
pub fn spaces(width: usize) -> (out: String)
    ensures
        out@ == blank(width as nat),
{
    let mut out = String::new();
    let mut n: usize = 0;
    assert(out@ =~= blank(0));
    while n < width
        invariant
            n <= width,
            out@ == blank(n as nat),
        decreases width - n,
    {
        proof {
            reveal_strlit(" ");
            assert(blank(n as nat) + " "@ =~= blank((n + 1) as nat));
        }
        out.append(" ");
        n = n + 1;
    }
    out
}

/// Pads `line` with spaces on the right to `width`; a wider line is returned
/// unchanged.
pub fn padded(line: &str, width: usize) -> (out: String)
    ensures
        out@ == pad_to(line@, width as nat),
{
    let have = line_width(line);
    let mut out = line.to_owned();
    if have < width {
        let fill = spaces(width - have);
        out.append(fill.as_str());
    }
    out
}

/// Pads every line to the width of the widest and returns them as a block of
/// that width.
pub fn normalize(lines: &[String]) -> (block: TextBlock)
    ensures
        block@ == normalized(text_of(lines@)),
        block@.height() == lines@.len(),
        block@.width == max_width(text_of(lines@)),
        forall|i: int|
            0 <= i < lines@.len() ==> display_width(#[trigger] lines@[i]@) <= block@.width,
        forall|i: int|
            0 <= i < lines@.len() ==> display_width(#[trigger] block@.lines[i]) == block@.width,
{
    let width = widest(lines);
    let mut out: Vec<String> = Vec::new();
    let mut i: usize = 0;
    while i < lines.len()
        invariant
            i <= lines.len(),
            width == max_width(text_of(lines@)),
            out@.len() == i,
            forall|j: int| 0 <= j < i ==> (#[trigger] out@[j])@ == pad_to(lines@[j]@, width as nat),
        decreases lines.len() - i,
    {
        out.push(padded(lines[i].as_str(), width));
        i = i + 1;
    }
    proof {
        assert(text_of(out@) =~= normalized(text_of(lines@)).lines);
        lemma_normalized_width(text_of(lines@));
        lemma_normalized_is_natural(text_of(lines@));
        assert forall|i: int| 0 <= i < lines@.len() implies display_width(
            #[trigger] lines@[i]@,
        ) <= width by {
            assert(text_of(lines@)[i] == lines@[i]@);
        }
    }
    TextBlock { lines: out, width }
}

/// Joins the lines of a left column of `left_width` with those of a right
/// column, row by row: the left line padded to `left_width` and never cut,
/// then `" | "`, then the right line. A column that has run out of lines
/// gives blanks on the left and nothing on the right. Where the left column
/// shows nothing, being of width 0 with no character in any line, the rows
/// are the right lines alone.
pub fn join_columns(left_lines: &[String], left_width: usize, right_lines: &[String]) -> (out:
    Vec<String>)
    ensures
        text_of(out@) == composed(
            Block { lines: text_of(left_lines@), width: left_width as nat },
            block_of(text_of(right_lines@)),
        ),
        out@.len() == vstd::math::max(left_lines@.len() as int, right_lines@.len() as int),
{
    let ghost left = Block { lines: text_of(left_lines@), width: left_width as nat };
    let ghost right = block_of(text_of(right_lines@));
    let bare = left_width == 0 && widest(left_lines) == 0;
    let rows = if left_lines.len() >= right_lines.len() {
        left_lines.len()
    } else {
        right_lines.len()
    };
    let mut out: Vec<String> = Vec::new();
    let mut i: usize = 0;
    while i < rows
        invariant
            i <= rows,
            rows == row_count(left, right),
            bare == left.shows_nothing(),
            left == (Block { lines: text_of(left_lines@), width: left_width as nat }),
            right == block_of(text_of(right_lines@)),
            out@.len() == i,
            forall|j: int| 0 <= j < i ==> (#[trigger] out@[j])@ == composed_row(left, right, j),
        decreases rows - i,
    {
        let mut row = if bare {
            String::new()
        } else if i < left_lines.len() {
            padded(left_lines[i].as_str(), left_width)
        } else {
            spaces(left_width)
        };
        if !bare {
            proof {
                reveal_strlit(" | ");
                assert(" | "@ =~= divider());
                assert(pad_to(blank(left_width as nat), left_width as nat) =~= blank(
                    left_width as nat,
                ));
            }
            row.append(" | ");
        }
        if i < right_lines.len() {
            row.append(right_lines[i].as_str());
        }
        proof {
            let cell = right_cell(right, i as int);
            assert(Seq::<char>::empty() + cell =~= cell);
            assert(row@ =~= composed_row(left, right, i as int));
        }
        out.push(row);
        i = i + 1;
    }
    assert(text_of(out@) =~= composed(left, right));
    out
}

/// Joins `left` and `right` row by row. Each row is the left line padded to
/// `left`'s width, then `" | "`, then the right line; a block that has run
/// out of lines gives blanks on the left and nothing on the right. Where
/// `left`'s width is 0 the rows are the right lines alone.
pub fn compose(left: &TextBlock, right: &TextBlock) -> (out: Vec<String>)
    ensures
        text_of(out@) == composed(left@, right@),
        out@.len() == vstd::math::max(left@.height() as int, right@.height() as int),
        left@.is_natural(),
        left@.width == 0 ==> forall|i: int|
            0 <= i < right@.height() ==> (#[trigger] out@[i])@ == right@.lines[i],
        left@.width > 0 ==> forall|i: int|
            0 <= i < out@.len() ==> (#[trigger] out@[i])@ == pad_to(left_cell(left@, i), left@.width)
                + divider() + right_cell(right@, i),
{
    let width = left.width();
    let out = join_columns(left.lines().as_slice(), width, right.lines().as_slice());
    proof {
        assert(composed(left@, block_of(right@.lines)) =~= composed(left@, right@));
        assert forall|i: int| 0 <= i < out@.len() implies (#[trigger] out@[i])@ == composed_row(
            left@,
            right@,
            i,
        ) by {
            assert(text_of(out@)[i] == out@[i]@);
        }
    }
    out
}

} // verus!
