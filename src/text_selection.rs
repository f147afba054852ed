//! Painting a selection into laid-out text: one highlight rectangle per
//! selected row, drawn above the row's background and below its glyphs.

use vstd::prelude::*;
use std::sync::Arc;
use crate::geometry::{pos2, Color32, Pos2, Rect};
use crate::galley::{chars_before, layout_search, row_chars_with_newline, CCursorRange, Galley, LayoutCursor, PlacedRow, Row};
use crate::mesh::{bounds_of, rect_indices, rect_vertices};
use crate::style::Visuals;

verus! {

/// The triangle indices that a selection added to one row.
#[derive(Clone, Copy, Debug)]
pub struct RowVertexIndices {
    pub row: usize,
    pub vertex_indices: [u32; 6],
}

/// Relies on Arc::make_mut: it hands out the galley for change, after
/// replacing it with a clone of its own when other handles share it, so
/// those handles keep the old galley. `Galley` derives `Clone`, so such a
/// clone equals the original.
#[verifier::external_body]
fn make_mut_galley(a: &mut Arc<Galley>) -> (r: &mut Galley)
    ensures
        *r == **old(a),
        **final(a) == *final(r),
{
    Arc::make_mut(a)
}

/// Relies on Arc::make_mut: it hands out the row for change, after
/// replacing it with a clone of its own when other handles share it, so
/// those handles keep the old row. `Row` derives `Clone`, so such a clone
/// equals the original.
#[verifier::external_body]
fn make_mut_row(a: &mut Arc<Row>) -> (r: &mut Row)
    ensures
        *r == **old(a),
        **final(a) == *final(r),
{
    Arc::make_mut(a)
}

/// `tri` put into `old` at position `at`, ahead of what stood there.
pub open spec fn spliced(old: Seq<u32>, at: int, tri: Seq<u32>) -> Seq<u32> {
    old.subrange(0, at) + tri + old.subrange(at, old.len() as int)
}

/// The highlight of row `ri` when the selection runs from `min` to `max`:
/// from the start cursor (or the row's left edge) to the end cursor (or the
/// row's right edge, plus half the row height for a selected newline).
pub open spec fn selection_rect(row: Row, ri: int, min: LayoutCursor, max: LayoutCursor) -> Rect {
    let left = if ri == min.row { row.x_offset_spec(min.column as int) } else { 0 };
    let right = if ri == max.row {
        row.x_offset_spec(max.column as int)
    } else {
        row.size.x + if row.ends_with_newline { row.size.y / 2 } else { 0 }
    };
    Rect { min: Pos2 { x: left as i32, y: 0 }, max: Pos2 { x: right as i32, y: row.size.y } }
}

/// `new` is `old` with `rect` drawn between background and glyphs.
pub open spec fn row_painted(old: Row, new: Row, rect: Rect, color: Color32) -> bool {
    let mesh = old.visuals.mesh;
    let verts = mesh.vertices@ + rect_vertices(rect, color);
    &&& new.visuals.mesh.vertices@ == verts
    &&& new.visuals.mesh.indices@ == spliced(
        mesh.indices@,
        old.visuals.glyph_index_start as int,
        rect_indices(mesh.vertices@.len() as int),
    )
    &&& new.visuals.mesh_bounds == bounds_of(verts)
    &&& new.visuals.glyph_index_start == old.visuals.glyph_index_start
    &&& new.glyphs@ == old.glyphs@
    &&& new.size == old.size
    &&& new.ends_with_newline == old.ends_with_newline
}

/// Room for four more vertices in every row, so that their indices fit in `u32`.
pub open spec fn has_index_room(g: Galley) -> bool {
    forall|i: int| 0 <= i < g.rows@.len() ==> (*g.rows@[i].row).visuals.mesh.vertices@.len() + 3 <= u32::MAX
}

/// The first and last selected positions, as rows and columns.
pub open spec fn selected_span(g: Galley, cursor_range: CCursorRange) -> (LayoutCursor, LayoutCursor) {
    let (a, b) = cursor_range.sorted_spec();
    (layout_search(g.rows@, a, 0), layout_search(g.rows@, b, 0))
}

/// Number of rows from `min` to `max`.
pub open spec fn selected_row_count(min: LayoutCursor, max: LayoutCursor) -> int {
    if min.row <= max.row { max.row - min.row + 1 } else { 0 }
}

/// `out` holds, for each selected row from `min` to `max`, that row's
/// number and the indices of the triangles added to it, given the rows as
/// they were before painting.
pub open spec fn reports_rows(out: Seq<RowVertexIndices>, g: Galley, min: LayoutCursor, max: LayoutCursor) -> bool {
    &&& out.len() == selected_row_count(min, max)
    &&& forall|j: int| #![trigger out[j]] 0 <= j < out.len() ==> {
        &&& out[j].row == min.row + j
        &&& out[j].vertex_indices@ == rect_indices(
            (*g.rows@[min.row + j].row).visuals.mesh.vertices@.len() as int,
        )
    }
}

/// Moves `tri` into `indices` at `at`, shifting what stood from `at` on to
/// the back. `indices` ends with `tri` on entry.
fn move_into_place(indices: &mut Vec<u32>, at: usize, tri: [u32; 6])
    requires
        6 <= old(indices)@.len(),
        at <= old(indices)@.len() - 6,
        old(indices)@.subrange(old(indices)@.len() - 6, old(indices)@.len() as int) == tri@,
    ensures
        final(indices)@ == spliced(
            old(indices)@.subrange(0, old(indices)@.len() - 6),
            at as int,
            tri@,
        ),
{
    let ghost before = indices@;
    let n: usize = indices.len() - 6;
    let mut i: usize = n;
    while i > at
        invariant
            at <= i <= n,
            n + 6 == before.len(),
            n + 6 <= usize::MAX,
            indices@.len() == before.len(),
            forall|j: int| 0 <= j < i ==> indices@[j] == before[j],
            forall|j: int| i + 6 <= j < n + 6 ==> indices@[j] == before[j - 6],
        decreases i,
    {
        i = i - 1;
        let v = indices[i];
        indices.set(i + 6, v);
    }
    let mut k: usize = 0;
    while k < 6
        invariant
            k <= 6,
            n + 6 == before.len(),
            n + 6 <= usize::MAX,
            at <= n,
            indices@.len() == before.len(),
            forall|j: int| 0 <= j < at ==> indices@[j] == before[j],
            forall|j: int| at + 6 <= j < n + 6 ==> indices@[j] == before[j - 6],
            forall|j: int| 0 <= j < k ==> indices@[at + j] == tri@[j],
        decreases 6 - k,
    {
        indices.set(at + k, tri[k]);
        k = k + 1;
    }
    assert(indices@ =~= spliced(before.subrange(0, n as int), at as int, tri@));
}

/// Draws `rect` into the row, between its background and its glyphs, and
/// returns the indices of the two new triangles.
fn paint_rect_into_row(row: &mut Row, rect: Rect, color: Color32) -> (tri: [u32; 6])
    requires
        old(row).well_formed(),
        old(row).visuals.mesh.vertices@.len() + 3 <= u32::MAX,
    ensures
        row_painted(*old(row), *final(row), rect, color),
        tri@ == rect_indices(old(row).visuals.mesh.vertices@.len() as int),
{
    let glyph_index_start = row.visuals.glyph_index_start;

    // Append the rectangle as two triangles (six indices) at the end:
    let num_indices_before = row.visuals.mesh.indices.len();
    row.visuals.mesh.add_colored_rect(rect, color);
    let num_indices_after = row.visuals.mesh.indices.len();
    assert(num_indices_after == num_indices_before + 6);

    let selection_triangles: [u32; 6] = [
        row.visuals.mesh.indices[num_indices_before],
        row.visuals.mesh.indices[num_indices_before + 1],
        row.visuals.mesh.indices[num_indices_before + 2],
        row.visuals.mesh.indices[num_indices_before + 3],
        row.visuals.mesh.indices[num_indices_before + 4],
        row.visuals.mesh.indices[num_indices_before + 5],
    ];
    assert(row.visuals.mesh.indices@.subrange(
        num_indices_before as int,
        num_indices_before + 6,
    ) =~= selection_triangles@);
    assert(row.visuals.mesh.indices@.subrange(0, num_indices_before as int)
        =~= old(row).visuals.mesh.indices@);

    // Then move them in front of the glyphs, behind any background:
    move_into_place(&mut row.visuals.mesh.indices, glyph_index_start, selection_triangles);

    row.visuals.mesh_bounds = row.visuals.mesh.calc_bounds();
    assert(selection_triangles@ =~= rect_indices(old(row).visuals.mesh.vertices@.len() as int));
    selection_triangles
}

/// `new` is `old` with the selection from `min` to `max` painted in `color`:
/// each row from `min.row` to `max.row` gets its highlight, the other rows
/// stay as they were.
pub open spec fn galley_painted(old: Galley, new: Galley, min: LayoutCursor, max: LayoutCursor, color: Color32) -> bool {
    &&& new.rows@.len() == old.rows@.len()
    &&& forall|i: int|
        0 <= i < old.rows@.len() && (i < min.row || i > max.row) ==> #[trigger] new.rows@[i] == old.rows@[i]
    &&& forall|i: int| #![trigger new.rows@[i]]
        min.row <= i <= max.row && i < old.rows@.len() ==> {
            &&& new.rows@[i].pos == old.rows@[i].pos
            &&& row_painted(
                *old.rows@[i].row,
                *new.rows@[i].row,
                selection_rect(*old.rows@[i].row, i, min, max),
                color,
            )
        }
}

/// Adds the selection highlight to the galley.
///
/// Nothing changes when the selection is empty. Otherwise the galley is
/// copied if it is shared, and so is each row that gets a highlight.
/// When `new_vertex_indices` is given, one record per highlighted row is
/// appended to it.
pub fn paint_text_selection(
    galley: &mut Arc<Galley>,
    visuals: &Visuals,
    cursor_range: &CCursorRange,
    new_vertex_indices: Option<&mut Vec<RowVertexIndices>>,
)
    requires
        (**old(galley)).well_formed(),
        has_index_room(**old(galley)),
    ensures
        cursor_range.is_empty_spec() ==> *final(galley) == *old(galley),
        (**final(galley)).well_formed(),
        meshes_valid(**old(galley)) ==> meshes_valid(**final(galley)),
        !cursor_range.is_empty_spec() ==> galley_painted(
            **old(galley),
            **final(galley),
            selected_span(**old(galley), *cursor_range).0,
            selected_span(**old(galley), *cursor_range).1,
            visuals.selection.bg_fill,
        ),
        match new_vertex_indices {
            Some(out) => if cursor_range.is_empty_spec() {
                final(out)@ == out@
            } else {
                &&& final(out)@.len() == out@.len() + selected_row_count(
                    selected_span(**old(galley), *cursor_range).0,
                    selected_span(**old(galley), *cursor_range).1,
                )
                &&& final(out)@.subrange(0, out@.len() as int) == out@
                &&& reports_rows(
                    final(out)@.subrange(out@.len() as int, final(out)@.len() as int),
                    **old(galley),
                    selected_span(**old(galley), *cursor_range).0,
                    selected_span(**old(galley), *cursor_range).1,
                )
            },
            None => true,
        },
{
    if cursor_range.is_empty() {
        return;
    }
    // The galley is about to change: copy it first if it is shared.
    let galley: &mut Galley = make_mut_galley(galley);
    let ghost g0: Galley = *galley;

    let color = visuals.selection.bg_fill;
    let sorted = cursor_range.sorted_cursors();
    let min = galley.layout_from_cursor(sorted[0]);
    let max = galley.layout_from_cursor(sorted[1]);

    let nrows = galley.rows.len();
    let mut records: Vec<RowVertexIndices> = Vec::new();
    let mut ri: usize = min.row;
    while ri <= max.row
        invariant
            g0.well_formed(),
            has_index_room(g0),
            min.row <= ri,
            ri > max.row ==> ri == min.row || ri == max.row + 1,
            max.row < nrows,
            nrows == g0.rows@.len(),
            galley.rows@.len() == g0.rows@.len(),
            forall|i: int| 0 <= i < g0.rows@.len() && (i < min.row || i >= ri) ==> #[trigger] galley.rows@[i] == g0.rows@[i],
            forall|i: int| #![trigger galley.rows@[i]]
                min.row <= i < ri ==> {
                    &&& galley.rows@[i].pos == g0.rows@[i].pos
                    &&& row_painted(*g0.rows@[i].row, *galley.rows@[i].row, selection_rect(*g0.rows@[i].row, i, min, max), color)
                },
            records@.len() == ri - min.row,
            forall|j: int| #![trigger records@[j]] 0 <= j < records@.len() ==> {
                &&& records@[j].row == min.row + j
                &&& records@[j].vertex_indices@ == rect_indices(
                    (*g0.rows@[min.row + j].row).visuals.mesh.vertices@.len() as int)
            },
        decreases max.row + 1 - ri,
    {
        let row: &mut Row = make_mut_row(&mut galley.rows[ri].row);
        assert(row.well_formed());

        let left = if ri == min.row {
            row.x_offset(min.column)
        } else {
            0
        };
        let right = if ri == max.row {
            row.x_offset(max.column)
        } else {
            let newline_size = if row.ends_with_newline {
                row.height() / 2 // show that the newline is selected
            } else {
                0
            };
            row.size.x + newline_size
        };
        let rect = Rect::from_min_max(pos2(left, 0), pos2(right, row.size.y));

        let selection_triangles = paint_rect_into_row(row, rect, color);

        records.push(RowVertexIndices { row: ri, vertex_indices: selection_triangles });
        ri = ri + 1;
    }
    proof {
        lemma_painted_galley_well_formed(g0, *galley, min, max, color);
    }
    if let Some(out) = new_vertex_indices {
        let ghost before = out@;
        let ghost added = records@;
        out.append(&mut records);
        assert(out@.subrange(0, before.len() as int) =~= before);
        assert(out@.subrange(before.len() as int, out@.len() as int) =~= added);
    }
}

/// Painting a selection adds exactly six indices (two triangles) to the
/// index buffer of every selected row.
pub proof fn lemma_six_indices_per_row(
    old: Galley,
    new: Galley,
    min: LayoutCursor,
    max: LayoutCursor,
    color: Color32,
)
    requires
        old.well_formed(),
        galley_painted(old, new, min, max, color),
    ensures
        forall|i: int| #![trigger new.rows@[i]]
            min.row <= i <= max.row && i < old.rows@.len() ==>
                (*new.rows@[i].row).visuals.mesh.indices@.len()
                    == (*old.rows@[i].row).visuals.mesh.indices@.len() + 6,
{
    assert forall|i: int| #![trigger new.rows@[i]]
        min.row <= i <= max.row && i < old.rows@.len() implies
            (*new.rows@[i].row).visuals.mesh.indices@.len()
                == (*old.rows@[i].row).visuals.mesh.indices@.len() + 6 by {
        assert((*old.rows@[i].row).well_formed());
    }
}

/// In every selected row the triangles before the glyph marker stay first
/// and unchanged, the highlight follows them, and the glyph triangles come
/// last in their old order.
pub proof fn lemma_draw_order_kept(
    old: Galley,
    new: Galley,
    min: LayoutCursor,
    max: LayoutCursor,
    color: Color32,
)
    requires
        old.well_formed(),
        galley_painted(old, new, min, max, color),
    ensures
        forall|i: int| #![trigger new.rows@[i]]
            min.row <= i <= max.row && i < old.rows@.len() ==> {
                let before = (*old.rows@[i].row).visuals.mesh.indices@;
                let after = (*new.rows@[i].row).visuals.mesh.indices@;
                let start = (*old.rows@[i].row).visuals.glyph_index_start as int;
                let n = (*old.rows@[i].row).visuals.mesh.vertices@.len() as int;
                &&& (*new.rows@[i].row).visuals.glyph_index_start == start
                &&& after.subrange(0, start) == before.subrange(0, start)
                &&& after.subrange(start, start + 6) == rect_indices(n)
                &&& after.subrange(start + 6, after.len() as int)
                    == before.subrange(start, before.len() as int)
            },
{
    assert forall|i: int| #![trigger new.rows@[i]]
        min.row <= i <= max.row && i < old.rows@.len() implies {
            let before = (*old.rows@[i].row).visuals.mesh.indices@;
            let after = (*new.rows@[i].row).visuals.mesh.indices@;
            let start = (*old.rows@[i].row).visuals.glyph_index_start as int;
            let n = (*old.rows@[i].row).visuals.mesh.vertices@.len() as int;
            &&& (*new.rows@[i].row).visuals.glyph_index_start == start
            &&& after.subrange(0, start) == before.subrange(0, start)
            &&& after.subrange(start, start + 6) == rect_indices(n)
            &&& after.subrange(start + 6, after.len() as int)
                == before.subrange(start, before.len() as int)
        } by {
        let before = (*old.rows@[i].row).visuals.mesh.indices@;
        let after = (*new.rows@[i].row).visuals.mesh.indices@;
        let start = (*old.rows@[i].row).visuals.glyph_index_start as int;
        let n = (*old.rows@[i].row).visuals.mesh.vertices@.len() as int;
        assert((*old.rows@[i].row).well_formed());
        assert(after.subrange(0, start) =~= before.subrange(0, start));
        assert(after.subrange(start, start + 6) =~= rect_indices(n));
        assert(after.subrange(start + 6, after.len() as int)
            =~= before.subrange(start, before.len() as int));
    }
}

proof fn lemma_same_char_counts(a: Seq<PlacedRow>, b: Seq<PlacedRow>, k: int)
    requires
        a.len() == b.len(),
        0 <= k <= a.len(),
        forall|i: int| 0 <= i < a.len() ==> row_chars_with_newline(*a[i].row) == row_chars_with_newline(*b[i].row),
    ensures
        chars_before(a, k) == chars_before(b, k),
    decreases k,
{
    if k > 0 {
        lemma_same_char_counts(a, b, k - 1);
    }
}

/// Every row's mesh names only existing vertices.
pub open spec fn meshes_valid(g: Galley) -> bool {
    forall|i: int| 0 <= i < g.rows@.len() ==> (*g.rows@[i].row).visuals.mesh.is_valid()
}

/// Painting a selection keeps a galley well formed, with each glyph marker
/// inside its index buffer, and keeps every index naming a vertex.
pub proof fn lemma_painted_galley_well_formed(
    old: Galley,
    new: Galley,
    min: LayoutCursor,
    max: LayoutCursor,
    color: Color32,
)
    requires
        old.well_formed(),
        galley_painted(old, new, min, max, color),
    ensures
        new.well_formed(),
        meshes_valid(old) ==> meshes_valid(new),
{
    assert forall|i: int| 0 <= i < new.rows@.len() implies (*new.rows@[i].row).well_formed() by {
        assert((*old.rows@[i].row).well_formed());
    }
    if meshes_valid(old) {
        assert forall|i: int| 0 <= i < new.rows@.len() implies (*new.rows@[i].row).visuals.mesh.is_valid() by {
            let o = *old.rows@[i].row;
            assert(o.well_formed());
            assert(o.visuals.mesh.is_valid());
            if min.row <= i <= max.row {
                let nr = *new.rows@[i].row;
                let n = o.visuals.mesh.vertices@.len() as int;
                let at = o.visuals.glyph_index_start as int;
                let before = o.visuals.mesh.indices@;
                let after = nr.visuals.mesh.indices@;
                assert(after == spliced(before, at, rect_indices(n)));
                assert forall|j: int| 0 <= j < after.len() implies (after[j] as int) < nr.visuals.mesh.vertices@.len() by {
                    if j < at {
                        assert(after[j] == before[j]);
                    } else if j < at + 6 {
                        assert(after[j] == rect_indices(n)[j - at]);
                    } else {
                        assert(after[j] == before[j - 6]);
                    }
                }
            } else {
                assert(new.rows@[i] == old.rows@[i]);
            }
        }
    }
    assert forall|i: int| 0 <= i < old.rows@.len() implies row_chars_with_newline(*old.rows@[i].row)
        == row_chars_with_newline(*new.rows@[i].row) by {
        if min.row <= i <= max.row {
            assert((*new.rows@[i].row).glyphs@ == (*old.rows@[i].row).glyphs@);
        } else {
            assert(new.rows@[i] == old.rows@[i]);
        }
    }
    lemma_same_char_counts(old.rows@, new.rows@, old.rows@.len() as int);
}

} // verus!
