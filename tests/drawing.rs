use std::collections::HashSet;

use sketshy::canvas::{CellStyle, DrawingCanvas};
use sketshy::elements::Element;
use sketshy::geometry::{Position, Rect};
use sketshy::line::{LineDirection, StraightLine};
use sketshy::operation::{Direction, LineHandle, Operation};

fn pos(x: u16, y: u16) -> Position {
    Position::new(x, y)
}

fn export_lines(canvas: &DrawingCanvas) -> Vec<String> {
    let text = String::from_utf8(canvas.to_string()).unwrap();
    text.lines().map(|l| l.to_string()).collect()
}

fn resize(direction: Direction, dx: u16, dy: u16) -> Operation {
    Operation::Resize {
        direction,
        origin: pos(20, 20),
        second: pos(20 + dx, 20 + dy),
    }
}

fn box_area(e: &Element) -> Rect {
    match e {
        Element::Box { area } => *area,
        _ => panic!("not a box"),
    }
}

#[test]
fn drag_right_routes_to_a_horizontal_rule() {
    let line = StraightLine::new(pos(5, 5), pos(10, 5)).unwrap();
    assert_eq!(line.direction, LineDirection::Right);
    assert_eq!(line.from, pos(5, 5));
    assert_eq!(line.to, pos(10, 5));

    let mut canvas = DrawingCanvas::new();
    canvas.elements.push_back(Element::Line(line));
    canvas.render(&HashSet::new(), &None);
    let rows = export_lines(&canvas);
    assert_eq!(rows.len(), 6);
    let row: Vec<char> = rows[5].chars().collect();
    assert_eq!(row.len(), 11);
    for x in 0..5 {
        assert_eq!(row[x], ' ');
    }
    for x in 5..=10 {
        assert_eq!(row[x], '─');
    }
}

#[test]
fn diagonal_drag_recomputes_the_end_column() {
    let line = StraightLine::new(pos(5, 5), pos(7, 9)).unwrap();
    assert_eq!(line.direction, LineDirection::DownRight);
    assert_eq!(line.to, pos(13, 9));
}

#[test]
fn every_sector_routes_to_its_direction() {
    let c = pos(20, 20);
    let cases = [
        (pos(30, 21), LineDirection::Right, pos(30, 20)),
        (pos(24, 23), LineDirection::DownRight, pos(26, 23)),
        (pos(21, 30), LineDirection::Down, pos(20, 30)),
        (pos(16, 23), LineDirection::DownLeft, pos(14, 23)),
        (pos(10, 19), LineDirection::Left, pos(10, 20)),
        (pos(16, 17), LineDirection::UpLeft, pos(14, 17)),
        (pos(19, 10), LineDirection::Up, pos(20, 10)),
        (pos(24, 17), LineDirection::UpRight, pos(26, 17)),
    ];
    for (to, direction, end) in cases {
        let line = StraightLine::new(c, to).unwrap();
        assert_eq!(line.direction, direction);
        assert_eq!(line.from, c);
        assert_eq!(line.to, end);
    }
}

#[test]
fn still_drag_gives_no_line() {
    assert!(StraightLine::new(pos(3, 4), pos(3, 4)).is_none());
    assert!(StraightLine::new(pos(0, 0), pos(0, 0)).is_none());
}

#[test]
fn diagonal_at_the_left_edge_saturates_the_column() {
    let line = StraightLine::new(pos(3, 0), pos(1, 5)).unwrap();
    assert_eq!(line.direction, LineDirection::DownLeft);
    assert_eq!(line.to, pos(0, 5));

    let line = StraightLine::new(pos(1, 0), pos(0, 1)).unwrap();
    assert_eq!(line.direction, LineDirection::DownLeft);
    assert_eq!(line.from, pos(1, 0));
    assert_eq!(line.to, pos(0, 1));
    assert_ne!(line.to, line.from);

    let line = StraightLine::new(pos(0, 4), pos(0, 3)).unwrap();
    assert_eq!(line.direction, LineDirection::Up);
    assert_eq!(line.to, pos(0, 3));
}

#[test]
fn diagonal_at_the_right_edge_saturates_the_column() {
    let line = StraightLine::new(pos(65534, 0), pos(65535, 1)).unwrap();
    assert_eq!(line.direction, LineDirection::DownRight);
    assert_eq!(line.to, pos(65535, 1));
    let line = StraightLine::new(pos(65535, 9), pos(65535, 1)).unwrap();
    assert_eq!(line.direction, LineDirection::Up);
    assert_ne!(line.to, line.from);
}

#[test]
fn saturated_diagonal_draws_only_its_cells_on_the_grid() {
    let mut canvas = DrawingCanvas::new();
    canvas.elements.push_back(Element::Line(StraightLine::new(pos(3, 0), pos(1, 5)).unwrap()));
    canvas.render(&HashSet::new(), &None);
    assert_eq!(canvas.buffer.width, 4);
    assert_eq!(canvas.buffer.height, 6);
    assert_eq!(
        export_lines(&canvas),
        vec!["   ／", " ／  ", "    ", "    ", "    ", "    "]
    );
}

#[test]
fn resize_from_top_left_keeps_bottom_right() {
    let b = Element::Box { area: Rect::new(2, 2, 5, 5) };
    let r = box_area(&resize(Direction::TopLeft, 2, 2).apply_transform(&b).unwrap());
    assert_eq!(r, Rect::new(4, 4, 3, 3));
}

#[test]
fn resize_past_the_opposite_corner_stops_at_one_cell() {
    let b = Element::Box { area: Rect::new(2, 2, 5, 5) };
    let r = box_area(&resize(Direction::TopLeft, 10, 10).apply_transform(&b).unwrap());
    assert_eq!(r, Rect::new(6, 6, 1, 1));
    assert!(r.width >= 1 && r.height >= 1);

    let op = Operation::Resize {
        direction: Direction::BottomRight,
        origin: pos(30, 30),
        second: pos(0, 0),
    };
    let r = box_area(&op.apply_transform(&b).unwrap());
    assert_eq!(r, Rect::new(2, 2, 1, 1));
}

#[test]
fn resize_left_stops_at_the_grid_edge() {
    let b = Element::Box { area: Rect::new(2, 2, 5, 5) };
    let op = Operation::Resize {
        direction: Direction::BottomLeft,
        origin: pos(30, 30),
        second: pos(20, 34),
    };
    let r = box_area(&op.apply_transform(&b).unwrap());
    assert_eq!(r, Rect::new(0, 2, 7, 9));
}

#[test]
fn move_is_clamped_at_zero() {
    let b = Element::Box { area: Rect::new(3, 4, 2, 2) };
    let op = Operation::Move { origin: pos(10, 10), second: pos(2, 12) };
    assert_eq!(box_area(&op.apply_transform(&b).unwrap()), Rect::new(0, 6, 2, 2));

    let line = StraightLine::new(pos(4, 4), pos(8, 6)).unwrap();
    let op = Operation::Move { origin: pos(10, 10), second: pos(5, 9) };
    match op.apply_transform(&Element::Line(line)).unwrap() {
        Element::Line(moved) => {
            assert_eq!(moved.from, pos(0, 3));
            assert_eq!(moved.to, pos(4, 5));
            assert_eq!(moved.direction, LineDirection::DownRight);
        }
        _ => panic!("not a line"),
    }
}

#[test]
fn dragging_a_handle_reroutes_the_line() {
    let line = StraightLine::new(pos(5, 5), pos(10, 5)).unwrap();
    let op = Operation::MoveLineHandle { handle: LineHandle::Second, pos: pos(5, 12) };
    match op.apply_transform(&Element::Line(line)).unwrap() {
        Element::Line(l) => {
            assert_eq!(l.direction, LineDirection::Down);
            assert_eq!(l.from, pos(5, 5));
            assert_eq!(l.to, pos(5, 12));
        }
        _ => panic!("not a line"),
    }
    let back = Operation::MoveLineHandle { handle: LineHandle::First, pos: pos(10, 5) };
    assert!(back.apply_transform(&Element::Line(line)).is_none());
}

#[test]
fn selection_and_edit_leave_elements_alone() {
    let t = Element::Text { area: Rect::new(1, 1, 4, 2), content: "hi".to_string() };
    let op = Operation::Selection { origin: pos(0, 0), second: pos(9, 9) };
    match op.apply_transform(&t).unwrap() {
        Element::Text { area, content } => {
            assert_eq!(area, Rect::new(1, 1, 4, 2));
            assert_eq!(content, "hi");
        }
        _ => panic!("not a text"),
    }
}

#[test]
fn rendered_box_has_a_border() {
    let mut canvas = DrawingCanvas::new();
    canvas.elements.push_back(Element::Box { area: Rect::new(1, 0, 4, 3) });
    canvas.render(&HashSet::new(), &None);
    assert_eq!(export_lines(&canvas), vec![" ┌──┐", " │  │", " └──┘"]);
    assert_eq!(canvas.buffer.cell(1, 0).unwrap().style, CellStyle::Base);
    assert_eq!(canvas.buffer.cell(0, 0).unwrap().style, CellStyle::Plain);
}

#[test]
fn rendered_text_keeps_what_it_does_not_write() {
    let mut canvas = DrawingCanvas::new();
    canvas.elements.push_back(Element::Box { area: Rect::new(0, 0, 6, 3) });
    canvas.elements.push_back(Element::Text {
        area: Rect::new(0, 0, 4, 2),
        content: "ab\nc".to_string(),
    });
    let mut selected = HashSet::new();
    selected.insert(1);
    canvas.render(&selected, &None);
    assert_eq!(export_lines(&canvas), vec!["ab───┐", "c    │", "└────┘"]);
    assert_eq!(canvas.buffer.cell(0, 0).unwrap().style, CellStyle::Selected);
    assert_eq!(canvas.buffer.cell(3, 1).unwrap().style, CellStyle::Selected);
    assert_eq!(canvas.buffer.cell(5, 1).unwrap().style, CellStyle::Base);
}

#[test]
fn render_previews_selected_elements() {
    let mut canvas = DrawingCanvas::new();
    canvas.elements.push_back(Element::Box { area: Rect::new(0, 0, 2, 2) });
    let mut selected = HashSet::new();
    selected.insert(0);
    let op = Some(Operation::Move { origin: pos(0, 0), second: pos(2, 1) });
    canvas.render(&selected, &op);
    assert_eq!(canvas.buffer.width, 4);
    assert_eq!(canvas.buffer.height, 3);
    assert_eq!(export_lines(&canvas), vec!["    ", "  ┌┐", "  └┘"]);
    canvas.render(&HashSet::new(), &op);
    assert_eq!(export_lines(&canvas), vec!["┌┐", "└┘"]);
}

#[test]
fn render_twice_gives_the_same_buffer() {
    let mut canvas = DrawingCanvas::new();
    canvas.elements.push_back(Element::Box { area: Rect::new(2, 1, 5, 4) });
    canvas.elements.push_back(Element::Line(StraightLine::new(pos(0, 0), pos(8, 4)).unwrap()));
    let mut selected = HashSet::new();
    selected.insert(1);
    let op = Some(Operation::Move { origin: pos(0, 0), second: pos(1, 1) });
    canvas.render(&selected, &op);
    let first = canvas.to_string();
    let first_rows = canvas.buffer.rows.clone();
    canvas.render(&selected, &op);
    assert_eq!(canvas.to_string(), first);
    assert_eq!(canvas.buffer.rows, first_rows);
}

#[test]
fn empty_canvas_renders_nothing() {
    let mut canvas = DrawingCanvas::new();
    canvas.render(&HashSet::new(), &None);
    assert_eq!(canvas.buffer.width, 0);
    assert_eq!(canvas.buffer.height, 0);
    assert!(canvas.to_string().is_empty());
}

#[test]
fn diagonal_lines_step_two_columns_per_row() {
    let mut canvas = DrawingCanvas::new();
    canvas.elements.push_back(Element::Line(StraightLine::new(pos(0, 0), pos(4, 2)).unwrap()));
    canvas.elements.push_back(Element::Line(StraightLine::new(pos(4, 3), pos(0, 5)).unwrap()));
    canvas.render(&HashSet::new(), &None);
    assert_eq!(
        export_lines(&canvas),
        vec!["＼    ", "  ＼  ", "    ＼", "    ／", "  ／  ", "／    "]
    );
}

#[test]
fn element_names() {
    assert_eq!(Element::Box { area: Rect::new(0, 0, 2, 2) }.name(), "Box");
    let t = Element::Text { area: Rect::new(0, 0, 2, 2), content: "hey".to_string() };
    assert_eq!(t.name(), "Text \"hey\"");
    let l = Element::Line(StraightLine::new(pos(0, 0), pos(3, 0)).unwrap());
    assert_eq!(l.name(), "Line");
    assert_eq!(l.area(), Rect::new(0, 0, 4, 1));
}

#[test]
fn element_transform_changes_rectangles_only() {
    let mut b = Element::Box { area: Rect::new(1, 1, 2, 2) };
    b.transform(|r| Rect::new(r.x + 1, r.y, r.width, r.height + 1));
    assert_eq!(box_area(&b), Rect::new(2, 1, 2, 3));
    let line = StraightLine::new(pos(0, 0), pos(3, 0)).unwrap();
    let mut l = Element::Line(line);
    l.transform(|r| Rect::new(r.x + 1, r.y, r.width, r.height));
    assert_eq!(l.area(), line.area());
}

#[test]
fn rect_queries() {
    let r = Rect::new(2, 3, 4, 2);
    assert!(r.contains(pos(2, 3)));
    assert!(r.contains(pos(5, 4)));
    assert!(!r.contains(pos(6, 4)));
    assert!(!r.contains(pos(5, 5)));
    assert!(r.intersects(&Rect::new(5, 4, 3, 3)));
    assert!(!r.intersects(&Rect::new(6, 4, 3, 3)));
    assert_eq!(r.area(), 8);
    assert_eq!(Rect::spanning(pos(7, 1), pos(3, 4)), Rect::new(3, 1, 5, 4));
}

#[test]
fn very_wide_text_is_laid_out_over_its_first_columns() {
    let mut canvas = DrawingCanvas::new();
    canvas.elements.push_back(Element::Text {
        area: Rect::new(0, 0, 40000, 1),
        content: "ab".repeat(20000),
    });
    canvas.render(&HashSet::new(), &None);
    assert_eq!(canvas.buffer.width, 40000);
    assert_eq!(canvas.buffer.cell(0, 0).unwrap().symbol, 'a');
    assert_eq!(canvas.buffer.cell(32766, 0).unwrap().symbol, 'a');
    assert_eq!(canvas.buffer.cell(32767, 0).unwrap().symbol, ' ');
    assert_eq!(canvas.buffer.cell(39999, 0).unwrap().style, CellStyle::Base);
}

#[test]
fn moving_nothing_keeps_elements_at_the_far_edge() {
    let b = Element::Box { area: Rect::new(65533, 65534, 3, 2) };
    let still = Operation::Move { origin: pos(10, 10), second: pos(10, 10) };
    assert_eq!(box_area(&still.apply_transform(&b).unwrap()), Rect::new(65533, 65534, 3, 2));
    let right = Operation::Move { origin: pos(10, 10), second: pos(20, 12) };
    assert_eq!(box_area(&right.apply_transform(&b).unwrap()), Rect::new(65533, 65534, 3, 2));

    let line = StraightLine::new(pos(65530, 3), pos(65535, 3)).unwrap();
    for (op, row) in [(still, 3), (right, 5)] {
        match op.apply_transform(&Element::Line(line)).unwrap() {
            Element::Line(moved) => {
                assert_eq!(moved.from, pos(65530, row));
                assert_eq!(moved.to, pos(65535, row));
            }
            _ => panic!("not a line"),
        }
    }

    let whole = StraightLine::new(pos(0, 0), pos(65535, 0)).unwrap();
    let left = Operation::Move { origin: pos(10, 10), second: pos(4, 10) };
    match left.apply_transform(&Element::Line(whole)).unwrap() {
        Element::Line(moved) => {
            assert_eq!(moved.from, pos(0, 0));
            assert_eq!(moved.to, pos(65535, 0));
        }
        _ => panic!("not a line"),
    }
}
