//! The text block that shows a diagonal inertia tensor.
//!
//! The three principal moments arrive already rendered as text, and pass
//! through untouched: the block is a fixed frame round them.

use vstd::prelude::*;
use vstd::string::*;

verus! {

/// The whole block: a heading, an empty line, then the three rows of the
/// tensor, each entry labelled by its two axes.
pub open spec fn matrix_text(ix: Seq<char>, iy: Seq<char>, iz: Seq<char>) -> Seq<char> {
    "Moment of inertia matrix:\n\nixx="@ + ix + " ixy=0 ixz=0\niyx=0 iyy="@ + iy
        + " iyz=0\nizx=0 izy=0 izz="@ + iz + "\n"@
}

/// The letter of an axis: `x`, `y`, `z` for 0, 1, 2.
pub open spec fn axis_letter(axis: int) -> char {
    if axis == 0 {
        'x'
    } else if axis == 1 {
        'y'
    } else {
        'z'
    }
}

/// The label of the entry in row `row` and column `col`, such as `ixy`.
pub open spec fn entry_label(row: int, col: int) -> Seq<char> {
    seq!['i', axis_letter(row), axis_letter(col)]
}

/// The value of the entry in row `row` and column `col` of the tensor whose
/// diagonal is `ix`, `iy`, `iz`: the moment about the row's axis on the
/// diagonal, zero off it.
pub open spec fn entry_value(
    ix: Seq<char>,
    iy: Seq<char>,
    iz: Seq<char>,
    row: int,
    col: int,
) -> Seq<char> {
    if row != col {
        seq!['0']
    } else if row == 0 {
        ix
    } else if row == 1 {
        iy
    } else {
        iz
    }
}

/// One labelled entry, such as `ixy=0`.
pub open spec fn entry_text(
    ix: Seq<char>,
    iy: Seq<char>,
    iz: Seq<char>,
    row: int,
    col: int,
) -> Seq<char> {
    entry_label(row, col) + seq!['='] + entry_value(ix, iy, iz, row, col)
}

/// One row of the tensor: its three entries with a blank between them and a
/// line feed at the end.
pub open spec fn row_text(ix: Seq<char>, iy: Seq<char>, iz: Seq<char>, row: int) -> Seq<char> {
    entry_text(ix, iy, iz, row, 0) + seq![' '] + entry_text(ix, iy, iz, row, 1) + seq![' ']
        + entry_text(ix, iy, iz, row, 2) + seq!['\n']
}

/// The heading of the block and the empty line under it.
pub open spec fn heading_text() -> Seq<char> {
    "Moment of inertia matrix:\n\n"@
}

/// Lays out the tensor whose diagonal is `ix`, `iy`, `iz`.
pub fn format_matrix(ix: &str, iy: &str, iz: &str) -> (r: String)
    ensures
        r@ == matrix_text(ix@, iy@, iz@),
{
    let mut r = String::from_str("Moment of inertia matrix:\n\nixx=");
    r.append(ix);
    r.append(" ixy=0 ixz=0\niyx=0 iyy=");
    r.append(iy);
    r.append(" iyz=0\nizx=0 izy=0 izz=");
    r.append(iz);
    r.append("\n");
    r
}

/// The block is a function of the three moments alone: equal moments give
/// equal text, character for character.
pub proof fn lemma_matrix_text_repeatable(
    ix: Seq<char>,
    iy: Seq<char>,
    iz: Seq<char>,
    jx: Seq<char>,
    jy: Seq<char>,
    jz: Seq<char>,
)
    requires
        ix == jx,
        iy == jy,
        iz == jz,
    ensures
        matrix_text(ix, iy, iz) == matrix_text(jx, jy, jz),
{
}

/// The block is the heading followed by the three rows of the tensor, so
/// every moment stands on the diagonal in its own row, unchanged whatever it
/// holds, and each of the six entries off the diagonal reads `0`.
pub proof fn lemma_matrix_text_is_diagonal(ix: Seq<char>, iy: Seq<char>, iz: Seq<char>)
    ensures
        matrix_text(ix, iy, iz) == heading_text() + row_text(ix, iy, iz, 0) + row_text(
            ix,
            iy,
            iz,
            1,
        ) + row_text(ix, iy, iz, 2),
        forall|row: int, col: int|
            0 <= row < 3 && 0 <= col < 3 && row != col ==> #[trigger] entry_value(
                ix,
                iy,
                iz,
                row,
                col,
            ) == seq!['0'],
        entry_value(ix, iy, iz, 0, 0) == ix,
        entry_value(ix, iy, iz, 1, 1) == iy,
        entry_value(ix, iy, iz, 2, 2) == iz,
{
    reveal_strlit("Moment of inertia matrix:\n\nixx=");
    reveal_strlit(" ixy=0 ixz=0\niyx=0 iyy=");
    reveal_strlit(" iyz=0\nizx=0 izy=0 izz=");
    reveal_strlit("\n");
    reveal_strlit("Moment of inertia matrix:\n\n");
    assert(matrix_text(ix, iy, iz) =~= heading_text() + row_text(ix, iy, iz, 0) + row_text(
        ix,
        iy,
        iz,
        1,
    ) + row_text(ix, iy, iz, 2));
}

} // verus!
