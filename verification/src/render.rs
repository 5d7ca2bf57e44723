//! Text forms of colours, faces and cubes, for display.

use vstd::prelude::*;
use vstd::seq_lib::lemma_concat_associative;
use vstd::string::StringExecFns;
use crate::colour::Colour;
use crate::cube::Cube;
use crate::face::Face;

verus! {

/// One row of a face as text: its three letters with bars between them.
pub open spec fn row_text(left: Colour, middle: Colour, right: Colour) -> Seq<char> {
    left.text() + "|"@ + middle.text() + "|"@ + right.text()
}

impl Colour {
    /// The colour as text: its letter.
    pub open spec fn text(self) -> Seq<char> {
        seq![self.letter()]
    }

    /// The letter of the colour as a string slice.
    pub fn as_str(self) -> (text: &'static str)
        ensures
            text@ == self.text(),
    {
        match self {
            Colour::Green => {
                proof {
                    reveal_strlit("G");
                    assert("G"@ =~= seq!['G']);
                }
                "G"
            },
            Colour::Blue => {
                proof {
                    reveal_strlit("B");
                    assert("B"@ =~= seq!['B']);
                }
                "B"
            },
            Colour::Yellow => {
                proof {
                    reveal_strlit("Y");
                    assert("Y"@ =~= seq!['Y']);
                }
                "Y"
            },
            Colour::White => {
                proof {
                    reveal_strlit("W");
                    assert("W"@ =~= seq!['W']);
                }
                "W"
            },
            Colour::Red => {
                proof {
                    reveal_strlit("R");
                    assert("R"@ =~= seq!['R']);
                }
                "R"
            },
            Colour::Orange => {
                proof {
                    reveal_strlit("O");
                    assert("O"@ =~= seq!['O']);
                }
                "O"
            },
        }
    }

    /// The colour as text: its letter.
    pub fn to_string(&self) -> (text: String)
        ensures
            text@ == self.text(),
    {
        String::from_str(self.as_str())
    }
}

/// Appends one row of a face to `out`.
fn push_row(out: &mut String, left: Colour, middle: Colour, right: Colour)
    ensures
        final(out)@ == old(out)@ + row_text(left, middle, right),
{
    out.append(left.as_str());
    out.append("|");
    out.append(middle.as_str());
    out.append("|");
    out.append(right.as_str());
    assert(out@ =~= old(out)@ + row_text(left, middle, right));
}

impl Face {
    /// The upper, middle and lower row of the face as text.
    pub open spec fn row(self, row: int) -> Seq<char> {
        if row == 0 {
            row_text(self.ul, self.um, self.ur)
        } else if row == 1 {
            row_text(self.ml, self.mm, self.mr)
        } else {
            row_text(self.bl, self.bm, self.br)
        }
    }

    /// The face as text: five lines, the three rows with a rule between
    /// them, each line ended by a line feed.
    pub open spec fn text(self) -> Seq<char> {
        self.row(0) + "\n"@ + "-+-+-\n"@ + self.row(1) + "\n"@ + "-+-+-\n"@ + self.row(2) + "\n"@
    }

    /// The face as text.
    pub fn to_string(&self) -> (text: String)
        ensures
            text@ == self.text(),
    {
        let mut out = String::new();
        push_row(&mut out, self.ul, self.um, self.ur);
        out.append("\n");
        out.append("-+-+-\n");
        push_row(&mut out, self.ml, self.mm, self.mr);
        out.append("\n");
        out.append("-+-+-\n");
        push_row(&mut out, self.bl, self.bm, self.br);
        out.append("\n");
        assert(out@ =~= self.text());
        out
    }
}

impl Cube {
    /// A face that stands alone in the net, as text: its five lines, each
    /// moved six places to the right.
    pub open spec fn single_text(face: Face) -> Seq<char> {
        "      "@ + face.row(0) + "\n"@ + "      -+-+-\n"@ + "      "@ + face.row(1) + "\n"@
            + "      -+-+-\n"@ + "      "@ + face.row(2) + "\n"@
    }

    /// One row of the four faces that stand side by side in the net, as
    /// text: left, front, right, back, with a blank between them.
    pub open spec fn band_row(self, row: int) -> Seq<char> {
        self.left.row(row) + " "@ + self.front.row(row) + " "@ + self.right.row(row) + " "@
            + self.back.row(row) + "\n"@
    }

    /// The cube as text, unfolded into a net: the upper face, an empty
    /// line, the left, front, right and back faces side by side with rules
    /// between their rows, an empty line, and the lower face.
    pub open spec fn text(self) -> Seq<char> {
        Cube::single_text(self.up) + "\n"@ + self.band_row(0) + "-+-+- -+-+- -+-+- -+-+-\n"@
            + self.band_row(1) + "-+-+- -+-+- -+-+- -+-+-\n"@ + self.band_row(2) + "\n"@
            + Cube::single_text(self.down)
    }

    /// The cube as text, unfolded into a net.
    pub fn to_string(&self) -> (text: String)
        ensures
            text@ == self.text(),
    {
        let mut out = String::new();
        push_single(&mut out, &self.up);
        assert(out@ =~= Cube::single_text(self.up));
        out.append("\n");
        push_band_row(&mut out, self, 0);
        out.append("-+-+- -+-+- -+-+- -+-+-\n");
        push_band_row(&mut out, self, 1);
        out.append("-+-+- -+-+- -+-+- -+-+-\n");
        push_band_row(&mut out, self, 2);
        out.append("\n");
        push_single(&mut out, &self.down);
        out
    }
}

/// Appends the row number `row` of `face` to `out`.
fn push_face_row(out: &mut String, face: &Face, row: u8)
    requires
        row < 3,
    ensures
        final(out)@ == old(out)@ + face.row(row as int),
{
    if row == 0 {
        push_row(out, face.ul, face.um, face.ur);
    } else if row == 1 {
        push_row(out, face.ml, face.mm, face.mr);
    } else {
        push_row(out, face.bl, face.bm, face.br);
    }
}

/// Appends a face that stands alone in the net to `out`.
fn push_single(out: &mut String, face: &Face)
    ensures
        final(out)@ == old(out)@ + Cube::single_text(*face),
{
    out.append("      ");
    push_face_row(out, face, 0);
    out.append("\n");
    out.append("      -+-+-\n");
    out.append("      ");
    push_face_row(out, face, 1);
    out.append("\n");
    out.append("      -+-+-\n");
    out.append("      ");
    push_face_row(out, face, 2);
    out.append("\n");
    assert(out@ =~= old(out)@ + Cube::single_text(*face));
}

/// Appends the row number `row` of the four faces of `cube` that stand side
/// by side to `out`.
fn push_band_row(out: &mut String, cube: &Cube, row: u8)
    requires
        row < 3,
    ensures
        final(out)@ == old(out)@ + cube.band_row(row as int),
{
    push_face_row(out, &cube.left, row);
    out.append(" ");
    push_face_row(out, &cube.front, row);
    out.append(" ");
    push_face_row(out, &cube.right, row);
    out.append(" ");
    push_face_row(out, &cube.back, row);
    out.append("\n");
    proof {
        let before = old(out)@;
        let a = cube.left.row(row as int);
        let b = a + " "@;
        let c = b + cube.front.row(row as int);
        let d = c + " "@;
        let e = d + cube.right.row(row as int);
        let f = e + " "@;
        let g = f + cube.back.row(row as int);
        lemma_concat_associative(before, a, " "@);
        lemma_concat_associative(before, b, cube.front.row(row as int));
        lemma_concat_associative(before, c, " "@);
        lemma_concat_associative(before, d, cube.right.row(row as int));
        lemma_concat_associative(before, e, " "@);
        lemma_concat_associative(before, f, cube.back.row(row as int));
        lemma_concat_associative(before, g, "\n"@);
    }
}

} // verus!
