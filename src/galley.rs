//! Laid-out text: a galley of rows, each with its own mesh, and cursors
//! that point between characters.

use vstd::prelude::*;
use std::sync::Arc;
use crate::geometry::{Pos2, Rect, Vec2, MAX_COORD};
use crate::mesh::Mesh;

verus! {

/// One laid-out character; `pos.x` is its left edge within the row.
#[derive(Clone, Copy, Debug, PartialEq, Eq, Structural)]
pub struct Glyph {
    pub chr: char,
    pub pos: Pos2,
}

/// What a row draws.
#[derive(Clone, Debug)]
pub struct RowVisuals {
    pub mesh: Mesh,
    /// The bounds of `mesh`.
    pub mesh_bounds: Rect,
    /// Index into `mesh.indices` where the glyph triangles begin; everything
    /// before it is background.
    pub glyph_index_start: usize,
}

/// One visual line of text.
#[derive(Clone, Debug)]
pub struct Row {
    pub glyphs: Vec<Glyph>,
    /// Width and height of the row.
    pub size: Vec2,
    pub visuals: RowVisuals,
    pub ends_with_newline: bool,
}

/// A row and where it sits in the galley. The row is shared and is copied
/// before it is changed.
#[derive(Clone, Debug)]
pub struct PlacedRow {
    pub pos: Pos2,
    pub row: Arc<Row>,
}

/// A laid-out paragraph: its rows from top to bottom.
#[derive(Clone, Debug)]
pub struct Galley {
    pub rows: Vec<PlacedRow>,
}

/// A position between two characters, counted in characters from the start.
#[derive(Clone, Copy, Debug, PartialEq, Eq, Structural)]
pub struct CCursor {
    pub index: usize,
    /// At the end of a row that does not end in a newline, stand at the
    /// start of the next row instead.
    pub prefer_next_row: bool,
}

/// A selection between two cursors. `primary` is where the selection was
/// moved to, `secondary` where it started.
#[derive(Clone, Copy, Debug, PartialEq, Eq, Structural)]
pub struct CCursorRange {
    pub primary: CCursor,
    pub secondary: CCursor,
}

/// A cursor as row number and column within that row.
#[derive(Clone, Copy, Debug, PartialEq, Eq, Structural)]
pub struct LayoutCursor {
    pub row: usize,
    pub column: usize,
}

pub open spec fn row_chars(row: Row) -> int {
    row.glyphs@.len() as int
}

pub open spec fn row_chars_with_newline(row: Row) -> int {
    row.glyphs@.len() + if row.ends_with_newline { 1int } else { 0int }
}

/// Number of characters in the rows before row `k`, newlines included.
pub open spec fn chars_before(rows: Seq<PlacedRow>, k: int) -> int
    decreases k,
{
    if k <= 0 {
        0
    } else {
        chars_before(rows, k - 1) + row_chars_with_newline(*rows[k - 1].row)
    }
}

/// Whether cursor `c` lies on row `k`.
pub open spec fn on_row(rows: Seq<PlacedRow>, c: CCursor, k: int) -> bool {
    let start = chars_before(rows, k);
    let row = *rows[k].row;
    &&& start <= c.index <= start + row_chars(row)
    &&& !(c.prefer_next_row && !row.ends_with_newline && c.index - start >= row_chars(row))
}

/// The first row from `k` on that holds `c`, with the column of `c` in it;
/// past the last row, the end of the text.
pub open spec fn layout_search(rows: Seq<PlacedRow>, c: CCursor, k: int) -> LayoutCursor
    decreases rows.len() - k,
{
    if k >= rows.len() {
        if rows.len() == 0 {
            LayoutCursor { row: 0, column: 0 }
        } else {
            LayoutCursor {
                row: (rows.len() - 1) as usize,
                column: row_chars_with_newline(*rows.last().row) as usize,
            }
        }
    } else if k >= 0 && on_row(rows, c, k) {
        LayoutCursor { row: k as usize, column: (c.index - chars_before(rows, k)) as usize }
    } else {
        layout_search(rows, c, k + 1)
    }
}

pub proof fn lemma_chars_before_monotonic(rows: Seq<PlacedRow>, j: int, k: int)
    requires
        0 <= j <= k,
    ensures
        chars_before(rows, j) <= chars_before(rows, k),
    decreases k - j,
{
    if j < k {
        lemma_chars_before_monotonic(rows, j, k - 1);
    }
}

pub proof fn lemma_layout_search_row(rows: Seq<PlacedRow>, c: CCursor, k: int)
    requires
        rows.len() > 0,
        0 <= k,
    ensures
        layout_search(rows, c, k).row < rows.len(),
    decreases rows.len() - k,
{
    if k < rows.len() && !on_row(rows, c, k) {
        lemma_layout_search_row(rows, c, k + 1);
    }
}

impl Row {
    /// A size in range and a glyph marker inside the index buffer.
    pub open spec fn well_formed(&self) -> bool {
        &&& 0 <= self.size.x <= MAX_COORD
        &&& 0 <= self.size.y <= MAX_COORD
        &&& self.visuals.glyph_index_start <= self.visuals.mesh.indices@.len()
    }

    pub open spec fn x_offset_spec(&self, column: int) -> int {
        if 0 <= column < self.glyphs@.len() {
            self.glyphs@[column].pos.x as int
        } else {
            self.size.x as int
        }
    }

    /// The x coordinate of the left edge of character `column`; past the
    /// last character, the right edge of the row.
    pub fn x_offset(&self, column: usize) -> (x: i32)
        ensures
            x == self.x_offset_spec(column as int),
    {
        if column < self.glyphs.len() {
            self.glyphs[column].pos.x
        } else {
            self.size.x
        }
    }

    pub fn height(&self) -> (h: i32)
        ensures
            h == self.size.y,
    {
        self.size.y
    }

    pub fn char_count_excluding_newline(&self) -> (n: usize)
        ensures
            n == row_chars(*self),
    {
        self.glyphs.len()
    }

    pub fn char_count_including_newline(&self) -> (n: usize)
        requires
            row_chars_with_newline(*self) <= usize::MAX,
        ensures
            n == row_chars_with_newline(*self),
    {
        if self.ends_with_newline {
            self.glyphs.len() + 1
        } else {
            self.glyphs.len()
        }
    }
}

impl CCursor {
    pub fn new(index: usize) -> (c: CCursor)
        ensures
            c == (CCursor { index, prefer_next_row: false }),
    {
        CCursor { index, prefer_next_row: false }
    }
}

pub open spec fn cursor_before_eq(a: CCursor, b: CCursor) -> bool {
    a.index < b.index || (a.index == b.index && (!a.prefer_next_row || b.prefer_next_row))
}

impl CCursorRange {
    pub open spec fn is_empty_spec(&self) -> bool {
        self.primary.index == self.secondary.index
    }

    pub open spec fn sorted_spec(&self) -> (CCursor, CCursor) {
        if cursor_before_eq(self.primary, self.secondary) {
            (self.primary, self.secondary)
        } else {
            (self.secondary, self.primary)
        }
    }

    /// A range from `secondary` to `primary`.
    pub fn two(secondary: CCursor, primary: CCursor) -> (r: CCursorRange)
        ensures
            r == (CCursorRange { primary, secondary }),
    {
        CCursorRange { primary, secondary }
    }

    /// Nothing is selected: both ends stand at the same character.
    pub fn is_empty(&self) -> (b: bool)
        ensures
            b == self.is_empty_spec(),
    {
        self.primary.index == self.secondary.index
    }

    /// Whether `primary` comes first (a cursor that prefers the next row
    /// comes after one at the same index that does not).
    pub fn is_sorted(&self) -> (b: bool)
        ensures
            b == cursor_before_eq(self.primary, self.secondary),
    {
        let p = self.primary;
        let s = self.secondary;
        p.index < s.index || (p.index == s.index && (!p.prefer_next_row || s.prefer_next_row))
    }

    /// The two ends, first one first.
    pub fn sorted_cursors(&self) -> (r: [CCursor; 2])
        ensures
            r@[0] == self.sorted_spec().0,
            r@[1] == self.sorted_spec().1,
    {
        if self.is_sorted() {
            [self.primary, self.secondary]
        } else {
            [self.secondary, self.primary]
        }
    }
}

impl Galley {
    /// At least one row, each of them well formed, and a text whose length
    /// fits in `usize`.
    pub open spec fn well_formed(&self) -> bool {
        &&& self.rows@.len() > 0
        &&& forall|i: int| 0 <= i < self.rows@.len() ==> (*self.rows@[i].row).well_formed()
        &&& chars_before(self.rows@, self.rows@.len() as int) <= usize::MAX
    }

    /// The row and column of cursor `c`.
    pub fn layout_from_cursor(&self, c: CCursor) -> (r: LayoutCursor)
        requires
            self.well_formed(),
        ensures
            r == layout_search(self.rows@, c, 0),
            r.row < self.rows@.len(),
    {
        proof {
            lemma_layout_search_row(self.rows@, c, 0);
        }
        let n = self.rows.len();
        let mut it: usize = 0;
        let mut k: usize = 0;
        while k < n
            invariant
                n == self.rows@.len(),
                k <= n,
                it == chars_before(self.rows@, k as int),
                chars_before(self.rows@, n as int) <= usize::MAX,
                layout_search(self.rows@, c, 0) == layout_search(self.rows@, c, k as int),
            decreases n - k,
        {
            let row: &Row = &self.rows[k].row;
            let excl = row.char_count_excluding_newline();
            proof {
                lemma_chars_before_monotonic(self.rows@, k + 1, n as int);
            }
            if it <= c.index && c.index - it <= excl {
                let column = c.index - it;
                let select_next_row_instead = c.prefer_next_row && !row.ends_with_newline
                    && column >= excl;
                if !select_next_row_instead {
                    return LayoutCursor { row: k, column };
                }
            }
            it = it + row.char_count_including_newline();
            k = k + 1;
        }
        let last: &Row = &self.rows[n - 1].row;
        proof {
            lemma_chars_before_monotonic(self.rows@, 0, n - 1);
        }
        LayoutCursor { row: n - 1, column: last.char_count_including_newline() }
    }
}

} // verus!
