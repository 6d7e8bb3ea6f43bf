use ha_tui::dashboard::{Card, CardId, CardKind, CardSize, GridColumn, GridRow, RowHeight};
use ha_tui::layout::{
    column_plans, fill_heights, layout_slots, place_column, unscaled_row_heights, ColInfo, ColScroll, GridCardSlot,
    Rect, MIN_ROW_HEIGHT,
};

/// Row heights, scaling fixed rows down in fractions when they overflow.
fn row_heights(rows: &Vec<GridRow>, height: u16) -> Vec<u16> {
    if let Some(h) = unscaled_row_heights(rows, height) {
        return h;
    }
    let sum_fixed: u16 = rows
        .iter()
        .map(|r| match r.height {
            RowHeight::Fixed(h) => h,
            RowHeight::Auto => 0,
        })
        .sum();
    let scale = height as f32 / sum_fixed as f32;
    let n_auto = rows.iter().filter(|r| r.height == RowHeight::Auto).count() as u16;
    let remaining = height.saturating_sub((sum_fixed as f32 * scale) as u16);
    let share = if n_auto > 0 { (remaining / n_auto).max(MIN_ROW_HEIGHT) } else { 0 };
    rows.iter()
        .map(|r| match r.height {
            RowHeight::Fixed(h) => ((h as f32 * scale) as u16).max(MIN_ROW_HEIGHT),
            RowHeight::Auto => share,
        })
        .collect()
}

fn layout(rows: &Vec<GridRow>, area: Rect, scrolls: &Vec<ColScroll>, card_heights: &[u16]) -> (Vec<GridCardSlot>, Vec<ColInfo>) {
    let rh = row_heights(rows, area.height);
    let heights = card_heights.to_vec();
    let plans = column_plans(rows, area, &rh, scrolls, &heights);
    let shares: Vec<Vec<u16>> = plans
        .iter()
        .map(|p| {
            if p.fill && p.content_height > 0 {
                let target = p.rect.height as f32;
                p.natural
                    .iter()
                    .map(|&h| ((h as f32 / p.content_height as f32) * target).floor() as u16)
                    .collect()
            } else {
                Vec::new()
            }
        })
        .collect();
    layout_slots(&plans, &shares)
}

fn make_grid_rows(specs: &[(RowHeight, usize, bool)]) -> Vec<GridRow> {
    specs
        .iter()
        .map(|(height, n_cols, fill)| GridRow {
            height: *height,
            fill_height: Some(*fill),
            columns: (0..*n_cols).map(|_| GridColumn { fill_height: None, cards: vec![] }).collect(),
        })
        .collect()
}

fn text_card(h: Option<u16>) -> Card {
    Card {
        id: CardId(0),
        kind: CardKind::Text { markdown: String::new(), title: None },
        pos: None,
        height: h,
        color: None,
        size: CardSize::Normal,
    }
}

#[test]
fn grid_layout_fixed_and_auto_rows() {
    let area = Rect { x: 0, y: 0, width: 120, height: 30 };
    let rows = make_grid_rows(&[
        (RowHeight::Fixed(10), 2, false),
        (RowHeight::Fixed(10), 2, false),
        (RowHeight::Auto, 2, false),
    ]);
    let (slots, col_infos) = layout(&rows, area, &Vec::new(), &[]);
    assert!(slots.is_empty(), "no cards → no slots");
    assert_eq!(col_infos.len(), 6, "3 rows × 2 cols");
    let auto_cols: Vec<_> = col_infos.iter().filter(|c| c.row_idx == 2).collect();
    assert_eq!(auto_cols.len(), 2);
    assert_eq!(auto_cols[0].rect.y, 20);
    assert_eq!(auto_cols[0].rect.height, 10);
}

#[test]
fn grid_layout_fill_height_proportional() {
    let area = Rect { x: 0, y: 0, width: 60, height: 20 };
    let rows = vec![GridRow {
        height: RowHeight::Fixed(20),
        fill_height: Some(true),
        columns: vec![GridColumn { fill_height: None, cards: vec![text_card(Some(4)), text_card(Some(6))] }],
    }];
    let card_heights = [4u16, 6u16];
    let (slots, col_infos) = layout(&rows, area, &Vec::new(), &card_heights);
    assert_eq!(slots.len(), 2);
    assert_eq!(col_infos.len(), 1);
    assert!(!col_infos[0].needs_scrollbar, "fill_height → no scrollbar");
    let total: u16 = slots.iter().map(|s| s.rect.height).sum();
    assert_eq!(total, 20, "fill slots must sum to column height");
}

#[test]
fn grid_layout_scroll_hides_top_card() {
    let area = Rect { x: 0, y: 0, width: 60, height: 10 };
    let rows = vec![GridRow {
        height: RowHeight::Fixed(10),
        fill_height: Some(false),
        columns: vec![GridColumn { fill_height: None, cards: vec![text_card(None), text_card(None)] }],
    }];
    let card_heights = [8u16, 8u16];
    let scrolls = vec![ColScroll { row: 0, col: 0, offset: 8 }];
    let (slots, col_infos) = layout(&rows, area, &scrolls, &card_heights);
    assert_eq!(col_infos[0].needs_scrollbar, true);
    assert!(!slots.iter().any(|s| s.flat_idx == 0), "scrolled-away card must not render");
    assert!(slots.iter().any(|s| s.flat_idx == 1), "second card must be visible");
}

#[test]
fn columns_split_width_with_remainder_last() {
    let area = Rect { x: 2, y: 1, width: 100, height: 30 };
    let rows = make_grid_rows(&[(RowHeight::Auto, 3, false)]);
    let (_, infos) = layout(&rows, area, &Vec::new(), &[]);
    let xs: Vec<(u16, u16)> = infos.iter().map(|c| (c.rect.x, c.rect.width)).collect();
    assert_eq!(xs, vec![(2, 33), (35, 33), (68, 34)]);
    assert!(infos.iter().all(|c| c.rect.y == 1 && c.rect.height == 30));
}

#[test]
fn auto_rows_get_at_least_the_minimum() {
    let rows = make_grid_rows(&[(RowHeight::Fixed(8), 1, false), (RowHeight::Auto, 1, false), (RowHeight::Auto, 1, false)]);
    assert_eq!(unscaled_row_heights(&rows, 10), Some(vec![8, 3, 3]));
    let rows2 = make_grid_rows(&[(RowHeight::Fixed(1), 1, false), (RowHeight::Auto, 1, false)]);
    assert_eq!(unscaled_row_heights(&rows2, 21), Some(vec![3, 20]));
}

#[test]
fn overflowing_fixed_rows_need_scaling() {
    let rows = make_grid_rows(&[(RowHeight::Fixed(20), 1, false), (RowHeight::Fixed(20), 1, false)]);
    assert_eq!(unscaled_row_heights(&rows, 30), None);
}

#[test]
fn fill_heights_gives_drift_to_last() {
    assert_eq!(fill_heights(vec![3, 5, 6], 20), vec![3, 5, 12]);
    assert_eq!(fill_heights(vec![], 20), Vec::<u16>::new());
    assert_eq!(fill_heights(vec![15, 10], 20), vec![15, 10]);
}

#[test]
fn place_column_clips_partly_visible_cards() {
    let col = Rect { x: 5, y: 10, width: 20, height: 10 };
    let slots = place_column(col, &vec![4, 4, 4, 4], 3, 7);
    // tops: 7, 11, 15, 19 → visible rows [10,11), [11,15), [15,19), [19,20)
    let got: Vec<(usize, u16, u16)> = slots.iter().map(|s| (s.flat_idx, s.rect.y, s.rect.height)).collect();
    assert_eq!(got, vec![(8, 11, 4), (9, 15, 4)]);
    assert!(slots.iter().all(|s| s.rect.x == 5 && s.rect.width == 20));
    assert_eq!(slots[0].natural_height, 4);
}

#[test]
fn default_height_for_unmeasured_cards() {
    let area = Rect { x: 0, y: 0, width: 40, height: 20 };
    let rows = vec![GridRow {
        height: RowHeight::Auto,
        fill_height: None,
        columns: vec![GridColumn { fill_height: None, cards: vec![text_card(None), text_card(None)] }],
    }];
    let (slots, infos) = layout(&rows, area, &Vec::new(), &[7]);
    assert_eq!(infos[0].content_height, 11);
    assert_eq!(slots.len(), 2);
    assert_eq!(slots[1].rect.y, 7);
    assert_eq!(slots[1].rect.height, 4);
}

#[test]
fn empty_area_has_no_layout() {
    let rows = make_grid_rows(&[(RowHeight::Auto, 2, false)]);
    let (slots, infos) = layout(&rows, Rect { x: 0, y: 0, width: 0, height: 10 }, &Vec::new(), &[]);
    assert!(slots.is_empty() && infos.is_empty());
}
