use std::sync::Arc;

use egui_winit::galley::{CCursor, CCursorRange, Galley, Glyph, PlacedRow, Row, RowVisuals};
use egui_winit::geometry::{pos2, vec2, Color32, Pos2, Rect, Stroke};
use egui_winit::mesh::{Mesh, Vertex};
use egui_winit::style::{Selection, TextCursorStyle, Visuals};
use egui_winit::text_selection::{paint_text_selection, RowVertexIndices};

const HIGHLIGHT: Color32 = Color32 { r: 0, g: 92, b: 128, a: 255 };
const INK: Color32 = Color32 { r: 255, g: 255, b: 255, a: 255 };

fn visuals() -> Visuals {
    Visuals {
        selection: Selection {
            bg_fill: HIGHLIGHT,
            stroke: Stroke { width: 1, color: INK },
        },
        text_cursor: TextCursorStyle {
            stroke: Stroke { width: 2, color: INK },
            preview: false,
            blink: true,
            on_duration: 500,
            off_duration: 500,
        },
    }
}

/// A row of `n` glyphs, each `width / n` wide, with one glyph quad drawn in
/// its mesh and, if asked, one background quad before it.
fn row(n: usize, width: i32, height: i32, ends_with_newline: bool, background: bool) -> Row {
    let step = width / n as i32;
    let glyphs: Vec<Glyph> = (0..n)
        .map(|i| Glyph { chr: 'x', pos: pos2(i as i32 * step, 0) })
        .collect();
    let mut mesh = Mesh::new();
    if background {
        mesh.add_colored_rect(Rect::from_min_max(pos2(0, 0), pos2(width, height)), INK);
    }
    let glyph_index_start = mesh.indices.len();
    mesh.add_colored_rect(Rect::from_min_max(pos2(0, 2), pos2(step, height - 2)), INK);
    let mesh_bounds = mesh.calc_bounds();
    Row {
        glyphs,
        size: vec2(width, height),
        visuals: RowVisuals { mesh, mesh_bounds, glyph_index_start },
        ends_with_newline,
    }
}

fn galley(rows: Vec<Row>) -> Arc<Galley> {
    let rows = rows
        .into_iter()
        .enumerate()
        .map(|(i, r)| PlacedRow { pos: pos2(0, 20 * i as i32), row: Arc::new(r) })
        .collect();
    Arc::new(Galley { rows })
}

fn range(from: usize, to: usize) -> CCursorRange {
    CCursorRange::two(CCursor::new(from), CCursor::new(to))
}

fn added_rect(row: &Row) -> Rect {
    let v = &row.visuals.mesh.vertices;
    let n = v.len();
    Rect::from_min_max(v[n - 4].pos, v[n - 1].pos)
}

#[test]
fn empty_selection_changes_nothing() {
    let mut g = galley(vec![row(10, 100, 20, false, true)]);
    let other = g.clone();
    let before = g.rows[0].row.visuals.mesh.indices.clone();
    let mut out: Vec<RowVertexIndices> = Vec::new();
    paint_text_selection(&mut g, &visuals(), &range(4, 4), Some(&mut out));
    assert!(out.is_empty());
    assert!(Arc::ptr_eq(&g, &other), "no copy is made for an empty selection");
    assert_eq!(g.rows[0].row.visuals.mesh.indices, before);
    assert_eq!(g.rows[0].row.visuals.mesh.vertices.len(), 8);
}

#[test]
fn single_row_selection_geometry() {
    let mut g = galley(vec![row(10, 100, 20, false, false)]);
    let glyph_indices = g.rows[0].row.visuals.mesh.indices.clone();
    assert_eq!(g.rows[0].row.visuals.glyph_index_start, 0);
    let mut out = Vec::new();
    paint_text_selection(&mut g, &visuals(), &range(2, 8), Some(&mut out));

    let r = &g.rows[0].row;
    assert_eq!(added_rect(r), Rect::from_min_max(pos2(20, 0), pos2(80, 20)));
    let n = r.visuals.mesh.vertices.len();
    assert_eq!(n, 8);
    for v in &r.visuals.mesh.vertices[4..] {
        assert_eq!(v.color, HIGHLIGHT);
    }
    assert_eq!(&r.visuals.mesh.indices[..6], &[4, 5, 6, 6, 5, 7]);
    assert_eq!(&r.visuals.mesh.indices[6..], &glyph_indices[..]);
    assert_eq!(r.visuals.mesh_bounds, Rect::from_min_max(pos2(0, 0), pos2(80, 20)));

    assert_eq!(out.len(), 1);
    assert_eq!(out[0].row, 0);
    assert_eq!(out[0].vertex_indices, [4, 5, 6, 6, 5, 7]);
}

#[test]
fn selection_drawn_between_background_and_glyphs() {
    let mut g = galley(vec![row(10, 100, 20, false, true)]);
    let before = g.rows[0].row.visuals.mesh.indices.clone();
    let start = g.rows[0].row.visuals.glyph_index_start;
    assert_eq!(start, 6);
    paint_text_selection(&mut g, &visuals(), &range(8, 2), None);
    let after = &g.rows[0].row.visuals.mesh.indices;
    assert_eq!(after.len(), before.len() + 6);
    assert_eq!(&after[..start], &before[..start]);
    assert_eq!(&after[start..start + 6], &[8, 9, 10, 10, 9, 11]);
    assert_eq!(&after[start + 6..], &before[start..]);
    assert_eq!(g.rows[0].row.visuals.glyph_index_start, start);
}

#[test]
fn multi_row_selection() {
    let mut g = galley(vec![
        row(10, 100, 20, false, false),
        row(10, 100, 20, false, false),
        row(10, 100, 20, false, false),
    ]);
    let earlier = RowVertexIndices { row: 7, vertex_indices: [0; 6] };
    let mut out = vec![earlier];
    // Row 0 column 5 is x = 50; row 2 column 3 is x = 30.
    paint_text_selection(&mut g, &visuals(), &range(5, 23), Some(&mut out));
    assert_eq!(added_rect(&g.rows[0].row), Rect::from_min_max(pos2(50, 0), pos2(100, 20)));
    assert_eq!(added_rect(&g.rows[1].row), Rect::from_min_max(pos2(0, 0), pos2(100, 20)));
    assert_eq!(added_rect(&g.rows[2].row), Rect::from_min_max(pos2(0, 0), pos2(30, 20)));
    let rows: Vec<usize> = out.iter().map(|r| r.row).collect();
    assert_eq!(rows, vec![7, 0, 1, 2]);
    for r in &g.rows {
        assert_eq!(r.row.visuals.mesh.indices.len(), 12);
    }
}

#[test]
fn selected_newline_adds_sliver() {
    let mut g = galley(vec![row(4, 40, 20, true, false), row(4, 40, 20, false, false)]);
    // Row 0 holds characters 0..4 and its newline; row 1 starts at 5.
    paint_text_selection(&mut g, &visuals(), &range(0, 7), None);
    assert_eq!(added_rect(&g.rows[0].row), Rect::from_min_max(pos2(0, 0), pos2(50, 20)));
    assert_eq!(added_rect(&g.rows[1].row), Rect::from_min_max(pos2(0, 0), pos2(20, 20)));
}

#[test]
fn shared_galley_is_copied_before_change() {
    let mut g = galley(vec![row(10, 100, 20, false, false), row(10, 100, 20, false, false)]);
    let other = g.clone();
    let shared_row = g.rows[1].row.clone();
    paint_text_selection(&mut g, &visuals(), &range(1, 3), None);
    assert!(!Arc::ptr_eq(&g, &other));
    assert_eq!(other.rows[0].row.visuals.mesh.indices.len(), 6);
    assert_eq!(g.rows[0].row.visuals.mesh.indices.len(), 12);
    assert!(Arc::ptr_eq(&g.rows[1].row, &shared_row), "unselected rows are not copied");
}

#[test]
fn rows_outside_selection_unchanged() {
    let mut g = galley(vec![
        row(10, 100, 20, false, false),
        row(10, 100, 20, false, false),
        row(10, 100, 20, false, false),
    ]);
    paint_text_selection(&mut g, &visuals(), &range(12, 15), None);
    assert_eq!(g.rows[0].row.visuals.mesh.indices.len(), 6);
    assert_eq!(g.rows[1].row.visuals.mesh.indices.len(), 12);
    assert_eq!(g.rows[2].row.visuals.mesh.indices.len(), 6);
    assert_eq!(added_rect(&g.rows[1].row), Rect::from_min_max(pos2(20, 0), pos2(50, 20)));
}

#[test]
fn layout_from_cursor_rows_and_columns() {
    let g = galley(vec![row(4, 40, 20, true, false), row(4, 40, 20, false, false), row(4, 40, 20, false, false)]);
    let at = |i: usize, next: bool| g.layout_from_cursor(CCursor { index: i, prefer_next_row: next });
    assert_eq!((at(0, false).row, at(0, false).column), (0, 0));
    assert_eq!((at(4, false).row, at(4, false).column), (0, 4));
    assert_eq!((at(5, false).row, at(5, false).column), (1, 0));
    assert_eq!((at(9, false).row, at(9, false).column), (1, 4));
    assert_eq!((at(9, true).row, at(9, true).column), (2, 0));
    assert_eq!((at(13, false).row, at(13, false).column), (2, 4));
    assert_eq!((at(50, false).row, at(50, false).column), (2, 4));
}

#[test]
fn bounds_of_rect_vertices() {
    let mut mesh = Mesh::new();
    assert_eq!(mesh.calc_bounds(), Rect::nothing());
    mesh.add_colored_rect(Rect::from_min_max(pos2(-3, 4), pos2(7, 9)), INK);
    assert_eq!(mesh.indices, vec![0, 1, 2, 2, 1, 3]);
    assert_eq!(mesh.vertices[1], Vertex { pos: Pos2 { x: 7, y: 4 }, color: INK });
    assert_eq!(mesh.calc_bounds(), Rect::from_min_max(pos2(-3, 4), pos2(7, 9)));
}
