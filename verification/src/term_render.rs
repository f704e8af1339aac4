//! A column of boxes for the terminal. A column is made of blocks, a block of
//! segments with a line between them, a segment of cells, and a cell shows a
//! figure and a comment beside it.

use vstd::prelude::*;
use vstd::string::*;
use crate::text::{
    concatenated, intersperse_texts, interspersed, pad_text, padded, texts_of,
};

verus! {

/// A figure in the box, and the comment beside it.
#[derive(Debug)]
pub struct Cell {
    pub figure: String,
    pub comment: String,
}

/// The cells between two lines of a block.
#[derive(Debug)]
pub struct Segment(pub Vec<Cell>);

/// A box.
#[derive(Debug)]
pub struct Block(pub Vec<Segment>);

/// Boxes, one beneath the other.
#[derive(Debug)]
pub struct Column(pub Vec<Block>);

/// The mathematical content of a [`Cell`].
pub struct CellView {
    pub figure: Seq<char>,
    pub comment: Seq<char>,
}

impl View for Cell {
    type V = CellView;

    open spec fn view(&self) -> CellView {
        CellView { figure: self.figure@, comment: self.comment@ }
    }
}

impl View for Segment {
    type V = Seq<CellView>;

    open spec fn view(&self) -> Seq<CellView> {
        self.0@.map_values(|cell: Cell| cell@)
    }
}

impl View for Block {
    type V = Seq<Seq<CellView>>;

    open spec fn view(&self) -> Seq<Seq<CellView>> {
        self.0@.map_values(|segment: Segment| segment@)
    }
}

impl View for Column {
    type V = Seq<Seq<Seq<CellView>>>;

    open spec fn view(&self) -> Seq<Seq<Seq<CellView>>> {
        self.0@.map_values(|block: Block| block@)
    }
}

/// The upper edge of a box.
pub open spec fn top_line() -> Seq<char> {
    "    \u{250c}\u{2500}\u{2500}\u{2500}\u{2500}\u{2500}\u{2500}\u{2500}\u{2510}\n"@
}

/// The line between two segments of a box.
pub open spec fn divider_line() -> Seq<char> {
    "    \u{251c}\u{2500}\u{2500}\u{2500}\u{2500}\u{2500}\u{2500}\u{2500}\u{2524}\n"@
}

/// The lower edge of a box.
pub open spec fn bottom_line() -> Seq<char> {
    "    \u{2514}\u{2500}\u{2500}\u{2500}\u{2500}\u{2500}\u{2500}\u{2500}\u{2518}\n"@
}

/// The line of a cell: the figure, filled up to five characters, between the
/// walls of the box, and the comment behind them.
pub open spec fn cell_line(cell: CellView) -> Seq<char> {
    "    \u{2502} "@ + padded(cell.figure, 5) + " \u{2502} "@ + cell.comment + "\n"@
}

/// The lines of the cells of a segment.
pub open spec fn segment_text(cells: Seq<CellView>) -> Seq<char> {
    concatenated(cells.map_values(|cell: CellView| cell_line(cell)))
}

/// The parts of a box: its upper edge, the texts of its segments with a
/// dividing line between each two neighbours, and its lower edge.
pub open spec fn block_parts(segments: Seq<Seq<CellView>>) -> Seq<Seq<char>> {
    seq![top_line()] + interspersed(
        segments.map_values(|cells: Seq<CellView>| segment_text(cells)),
        divider_line(),
    ) + seq![bottom_line()]
}

/// The text of a box.
pub open spec fn block_text(segments: Seq<Seq<CellView>>) -> Seq<char> {
    concatenated(block_parts(segments))
}

/// The text of a column: the texts of its boxes, one behind the other.
pub open spec fn column_text(blocks: Seq<Seq<Seq<CellView>>>) -> Seq<char> {
    concatenated(blocks.map_values(|segments: Seq<Seq<CellView>>| block_text(segments)))
}

/// Appending the texts of `parts`, one after the other.
fn append_all(out: &mut String, parts: &Vec<String>)
    ensures
        final(out)@ == old(out)@ + concatenated(texts_of(parts@)),
{
    let ghost start = out@;
    let mut i: usize = 0;
    assert(texts_of(parts@).take(0) =~= Seq::empty());
    assert(start + concatenated(Seq::<Seq<char>>::empty()) =~= start);
    while i < parts.len()
        invariant
            i <= parts.len(),
            out@ == start + concatenated(texts_of(parts@).take(i as int)),
        decreases parts.len() - i,
    {
        let ghost all = texts_of(parts@);
        assert(all.take(i + 1).drop_last() =~= all.take(i as int));
        assert(all.take(i + 1).last() == parts@[i as int]@);
        let ghost before = out@;
        out.append(parts[i].as_str());
        assert(out@ =~= start + concatenated(all.take(i + 1)));
        i += 1;
    }
    assert(texts_of(parts@).take(i as int) =~= texts_of(parts@));
}

impl Cell {
    /// The line of the cell.
    pub fn render(&self) -> (text: String)
        ensures
            text@ == cell_line(self@),
    {
        let mut out = String::from_str("    \u{2502} ");
        out.append(pad_text(self.figure.as_str(), 5).as_str());
        out.append(" \u{2502} ");
        out.append(self.comment.as_str());
        out.append("\n");
        out
    }
}

impl Segment {
    /// The lines of the cells.
    pub fn render(&self) -> (text: String)
        ensures
            text@ == segment_text(self@),
    {
        let mut lines: Vec<String> = Vec::new();
        let mut i: usize = 0;
        while i < self.0.len()
            invariant
                i <= self.0.len(),
                lines@.len() == i,
                forall|j: int| 0 <= j < i ==> (#[trigger] lines@[j])@ == cell_line(self.0@[j]@),
            decreases self.0.len() - i,
        {
            lines.push(self.0[i].render());
            i += 1;
        }
        assert(texts_of(lines@) =~= self@.map_values(|cell: CellView| cell_line(cell)));
        let mut out = String::new();
        append_all(&mut out, &lines);
        assert(Seq::<char>::empty() + segment_text(self@) =~= segment_text(self@));
        out
    }
}

impl Block {
    /// The text of the box: its upper edge, its segments with a line between
    /// each two neighbours, and its lower edge.
    pub fn render(&self) -> (text: String)
        ensures
            text@ == block_text(self@),
    {
        let mut texts: Vec<String> = Vec::new();
        let mut i: usize = 0;
        while i < self.0.len()
            invariant
                i <= self.0.len(),
                texts@.len() == i,
                forall|j: int| 0 <= j < i ==> (#[trigger] texts@[j])@ == segment_text(self.0@[j]@),
            decreases self.0.len() - i,
        {
            texts.push(self.0[i].render());
            i += 1;
        }
        assert(texts_of(texts@) =~= self@.map_values(|cells: Seq<CellView>| segment_text(cells)));
        let divider = String::from_str(
            "    \u{251c}\u{2500}\u{2500}\u{2500}\u{2500}\u{2500}\u{2500}\u{2500}\u{2524}\n",
        );
        let middle = intersperse_texts(texts, divider);
        let mut out = String::from_str(
            "    \u{250c}\u{2500}\u{2500}\u{2500}\u{2500}\u{2500}\u{2500}\u{2500}\u{2510}\n",
        );
        append_all(&mut out, &middle);
        out.append(
            "    \u{2514}\u{2500}\u{2500}\u{2500}\u{2500}\u{2500}\u{2500}\u{2500}\u{2518}\n",
        );
        proof {
            let inner = texts_of(middle@);
            lemma_concatenated_add(seq![top_line()], inner);
            lemma_concatenated_add(seq![top_line()] + inner, seq![bottom_line()]);
            lemma_concatenated_one(top_line());
            lemma_concatenated_one(bottom_line());
        }
        out
    }
}

impl Column {
    /// The text of the column: its boxes, one beneath the other.
    pub fn render(&self) -> (text: String)
        ensures
            text@ == column_text(self@),
    {
        let mut texts: Vec<String> = Vec::new();
        let mut i: usize = 0;
        while i < self.0.len()
            invariant
                i <= self.0.len(),
                texts@.len() == i,
                forall|j: int| 0 <= j < i ==> (#[trigger] texts@[j])@ == block_text(self.0@[j]@),
            decreases self.0.len() - i,
        {
            texts.push(self.0[i].render());
            i += 1;
        }
        assert(texts_of(texts@) =~= self@.map_values(
            |segments: Seq<Seq<CellView>>| block_text(segments),
        ));
        let mut out = String::new();
        append_all(&mut out, &texts);
        assert(Seq::<char>::empty() + column_text(self@) =~= column_text(self@));
        out
    }
}

/// The text of a single part is the part.
pub proof fn lemma_concatenated_one(part: Seq<char>)
    ensures
        concatenated(seq![part]) == part,
{
    assert(seq![part].drop_last() =~= Seq::<Seq<char>>::empty());
    assert(concatenated(seq![part].drop_last()) =~= Seq::<char>::empty());
    assert(Seq::<char>::empty() + part =~= part);
}

/// The text of two lists of parts, one behind the other, is the text of the
/// first followed by the text of the second.
pub proof fn lemma_concatenated_add(first: Seq<Seq<char>>, second: Seq<Seq<char>>)
    ensures
        concatenated(first + second) == concatenated(first) + concatenated(second),
    decreases second.len(),
{
    if second.len() == 0 {
        assert(first + second =~= first);
        assert(concatenated(first) + Seq::<char>::empty() =~= concatenated(first));
    } else {
        assert((first + second).drop_last() =~= first + second.drop_last());
        lemma_concatenated_add(first, second.drop_last());
        assert(concatenated(first + second) =~= concatenated(first) + concatenated(second));
    }
}

} // verus!
