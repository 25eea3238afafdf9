use vstd::prelude::*;

use crate::models::Rune;

verus! {

/// The fixed character-to-rune table; every character outside it maps to
/// `Void`, so the mapping is total.
pub open spec fn rune_of_char(c: char) -> Rune {
    match c {
        '^' => Rune::ThrustUp,
        'v' => Rune::ThrustDown,
        '<' => Rune::ThrustLeft,
        '>' => Rune::ThrustRight,
        '+' => Rune::Boost,
        '-' => Rune::Brake,
        '*' => Rune::Star,
        'P' => Rune::Parking,
        _ => Rune::Void,
    }
}

/// The character mapping is total: any character outside the fixed symbol
/// table yields `Void`.
pub proof fn lemma_rune_of_char_total(c: char)
    ensures
        (c != '^' && c != 'v' && c != '<' && c != '>' && c != '+' && c != '-' && c != '*' && c
            != 'P') ==> rune_of_char(c) == Rune::Void,
{
}

pub fn char_to_rune(c: char) -> (r: Rune)
    ensures
        r == rune_of_char(c),
{
    match c {
        '^' => Rune::ThrustUp,
        'v' => Rune::ThrustDown,
        '<' => Rune::ThrustLeft,
        '>' => Rune::ThrustRight,
        '+' => Rune::Boost,
        '-' => Rune::Brake,
        '*' => Rune::Star,
        'P' => Rune::Parking,
        _ => Rune::Void,
    }
}

/// The length of the longest row, zero when there are none.
pub open spec fn max_row_len(rows: Seq<Vec<char>>) -> nat
    decreases rows.len(),
{
    if rows.len() == 0 {
        0
    } else {
        let rest = max_row_len(rows.drop_last());
        if rows.last()@.len() > rest {
            rows.last()@.len()
        } else {
            rest
        }
    }
}

/// `n` itself when odd, else the next odd number.
pub open spec fn force_odd(n: nat) -> nat {
    if n % 2 == 1 {
        n
    } else {
        n + 1
    }
}

/// No row is longer than `max_row_len` says.
proof fn lemma_max_row_len_ge(rows: Seq<Vec<char>>, i: int)
    requires
        0 <= i < rows.len(),
    ensures
        rows[i]@.len() <= max_row_len(rows),
    decreases rows.len(),
{
    if i < rows.len() - 1 {
        lemma_max_row_len_ge(rows.drop_last(), i);
    }
}

/// `max_row_len` is a row length or zero, so a strict bound on every row
/// is a strict bound on it too.
proof fn lemma_max_row_len_lt(rows: Seq<Vec<char>>, bound: nat)
    requires
        bound > 0,
        forall|i: int| 0 <= i < rows.len() ==> (#[trigger] rows[i]@.len()) < bound,
    ensures
        max_row_len(rows) < bound,
    decreases rows.len(),
{
    if rows.len() > 0 {
        lemma_max_row_len_lt(rows.drop_last(), bound);
    }
}

/// Harmonizes raw Velo code lines into a rectangular cosmos of characters
/// with odd width and height: the width is the longest input row's length
/// (or the next odd number above it), the height the number of input rows
/// (or the next odd number above it), and every cell beyond the input
/// holds a space, the Void character.
pub fn harmonize_runes(lines: Vec<Vec<char>>) -> (r: Vec<Vec<char>>)
    requires
        lines@.len() < usize::MAX,
        forall|i: int| 0 <= i < lines@.len() ==> (#[trigger] lines@[i]@.len()) < usize::MAX,
    ensures
        r@.len() == force_odd(lines@.len()),
        r@.len() % 2 == 1,
        lines@.len() <= r@.len(),
        forall|i: int|
            0 <= i < lines@.len() ==> (#[trigger] lines@[i]@.len()) <= force_odd(
                max_row_len(lines@),
            ),
        forall|i: int| 0 <= i < r@.len() ==> (#[trigger] r@[i]@.len()) == force_odd(
            max_row_len(lines@),
        ),
        forall|i: int| 0 <= i < r@.len() ==> (#[trigger] r@[i]@.len()) % 2 == 1,
        forall|i: int, j: int|
            0 <= i < r@.len() && 0 <= j < r@[i]@.len() ==> #[trigger] r@[i]@[j] == (if i
                < lines@.len() && j < lines@[i]@.len() {
                lines@[i]@[j]
            } else {
                ' '
            }),
{
    let mut code_width: usize = 0;
    let mut i: usize = 0;
    while i < lines.len()
        invariant
            i <= lines@.len(),
            code_width == max_row_len(lines@.take(i as int)),
            forall|k: int| 0 <= k < lines@.len() ==> (#[trigger] lines@[k]@.len()) < usize::MAX,
        decreases lines@.len() - i,
    {
        proof {
            assert(lines@.take(i + 1).drop_last() =~= lines@.take(i as int));
            assert(lines@.take(i + 1).last() == lines@[i as int]);
        }
        if lines[i].len() > code_width {
            code_width = lines[i].len();
        }
        i = i + 1;
    }
    proof {
        assert(lines@.take(lines@.len() as int) =~= lines@);
        if lines@.len() > 0 {
            lemma_max_row_len_lt(lines@, usize::MAX as nat);
        }
        assert forall|k: int| 0 <= k < lines@.len() implies (#[trigger] lines@[k]@.len())
            <= max_row_len(lines@) by {
            lemma_max_row_len_ge(lines@, k);
        }
    }
    let width = if code_width % 2 == 1 {
        code_width
    } else {
        code_width + 1
    };

    let code_height = lines.len();
    let height = if code_height % 2 == 1 {
        code_height
    } else {
        code_height + 1
    };

    let mut result: Vec<Vec<char>> = Vec::new();

    let mut i: usize = 0;
    while i < height
        invariant
            i <= height,
            width == force_odd(max_row_len(lines@)),
            height == force_odd(lines@.len()),
            result@.len() == i,
            forall|k: int| 0 <= k < i ==> (#[trigger] result@[k]@.len()) == width,
            forall|k: int, j: int|
                0 <= k < i && 0 <= j < width ==> #[trigger] result@[k]@[j] == (if k < lines@.len()
                    && j < lines@[k]@.len() {
                    lines@[k]@[j]
                } else {
                    ' '
                }),
        decreases height - i,
    {
        let mut row: Vec<char> = Vec::new();
        let mut j: usize = 0;
        while j < width
            invariant
                j <= width,
                i < height,
                width == force_odd(max_row_len(lines@)),
                row@.len() == j,
                forall|k: int|
                    0 <= k < j ==> #[trigger] row@[k] == (if i < lines@.len() && k
                        < lines@[i as int]@.len() {
                        lines@[i as int]@[k]
                    } else {
                        ' '
                    }),
            decreases width - j,
        {
            if i < lines.len() && j < lines[i].len() {
                // Keep the character from the raw line.
                let c = lines[i][j];
                row.push(c);
            } else {
                // Pad with ' ' (Void runes) to meet the required width and height.
                row.push(' ');
            }
            j = j + 1;
        }
        result.push(row);
        i = i + 1;
    }

    result
}

/// Turns a rectangle of characters into the cosmos of runes, cell by cell
/// through the fixed character table. The shape is kept exactly.
pub fn materialize_runes(lines: Vec<Vec<char>>) -> (r: Vec<Vec<Rune>>)
    ensures
        r@.len() == lines@.len(),
        forall|i: int| 0 <= i < r@.len() ==> (#[trigger] r@[i]@.len()) == lines@[i]@.len(),
        forall|i: int, j: int|
            0 <= i < r@.len() && 0 <= j < r@[i]@.len() ==> #[trigger] r@[i]@[j] == rune_of_char(
                lines@[i]@[j],
            ),
{
    let mut result: Vec<Vec<Rune>> = Vec::new();
    let mut i: usize = 0;
    while i < lines.len()
        invariant
            i <= lines@.len(),
            result@.len() == i,
            forall|k: int| 0 <= k < i ==> (#[trigger] result@[k]@.len()) == lines@[k]@.len(),
            forall|k: int, j: int|
                0 <= k < i && 0 <= j < result@[k]@.len() ==> #[trigger] result@[k]@[j]
                    == rune_of_char(lines@[k]@[j]),
        decreases lines@.len() - i,
    {
        let mut row: Vec<Rune> = Vec::new();
        let mut j: usize = 0;
        while j < lines[i].len()
            invariant
                i < lines@.len(),
                j <= lines@[i as int]@.len(),
                row@.len() == j,
                forall|k: int|
                    0 <= k < j ==> #[trigger] row@[k] == rune_of_char(lines@[i as int]@[k]),
            decreases lines@[i as int]@.len() - j,
        {
            let rune = char_to_rune(lines[i][j]);
            row.push(rune);
            j = j + 1;
        }
        result.push(row);
        i = i + 1;
    }
    result
}

} // verus!
