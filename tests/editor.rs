use std::collections::HashSet;

use sketshy::action::Action;
use sketshy::elements::Element;
use sketshy::geometry::{Position, Rect};
use sketshy::home::{Handles, Home, MouseEvent, MouseEventKind, Tool, LIST_WIDTH};
use sketshy::line::{LineDirection, StraightLine};
use sketshy::operation::{Direction, LineHandle, Operation};

fn pos(x: u16, y: u16) -> Position {
    Position::new(x, y)
}

/// A pointer event at canvas cell `(x, y)` of an unscrolled view.
fn event(kind: MouseEventKind, x: u16, y: u16) -> MouseEvent {
    MouseEvent { kind, column: x + LIST_WIDTH, row: y, additive: false }
}

fn gesture(home: &mut Home, from: (u16, u16), to: (u16, u16)) -> Option<Action> {
    home.handle_mouse_event(event(MouseEventKind::Down, from.0, from.1));
    home.handle_mouse_event(event(MouseEventKind::Drag, to.0, to.1));
    home.handle_mouse_event(event(MouseEventKind::Up, to.0, to.1))
}

fn selection(home: &Home) -> Vec<usize> {
    let mut v: Vec<usize> = home.selected_elements.iter().copied().collect();
    v.sort();
    v
}

fn draw_box(home: &mut Home, from: (u16, u16), to: (u16, u16)) {
    home.update(Action::SwitchTool(Tool::Box));
    gesture(home, from, to);
}

#[test]
fn box_tool_creates_and_selects_a_box() {
    let mut home = Home::new();
    draw_box(&mut home, (2, 2), (6, 6));
    assert_eq!(home.canvas.elements.len(), 1);
    match &home.canvas.elements[0] {
        Element::Box { area } => assert_eq!(*area, Rect::new(2, 2, 5, 5)),
        _ => panic!("not a box"),
    }
    assert_eq!(home.current_tool, Tool::Cursor);
    assert_eq!(selection(&home), vec![0]);
    assert!(home.current_operation.is_none());
}

#[test]
fn box_tool_ignores_thin_bands() {
    let mut home = Home::new();
    draw_box(&mut home, (2, 2), (2, 6));
    assert!(home.canvas.elements.is_empty());
    assert_eq!(home.current_tool, Tool::Box);
}

#[test]
fn line_tool_routes_the_drag() {
    let mut home = Home::new();
    home.update(Action::SwitchTool(Tool::Line));
    let r = gesture(&mut home, (5, 5), (7, 9));
    assert_eq!(r, Some(Action::RenderBuffer));
    match &home.canvas.elements[0] {
        Element::Line(l) => {
            assert_eq!(l.direction, LineDirection::DownRight);
            assert_eq!(l.to, pos(13, 9));
        }
        _ => panic!("not a line"),
    }
    assert_eq!(selection(&home), vec![0]);
}

#[test]
fn resize_from_the_top_left_handle() {
    let mut home = Home::new();
    draw_box(&mut home, (2, 2), (6, 6));
    match home.handles() {
        Handles::Corners { top_left, bottom_right, .. } => {
            assert_eq!(top_left, Some(pos(1, 1)));
            assert_eq!(bottom_right, Some(pos(7, 7)));
        }
        _ => panic!("no corners"),
    }
    let r = home.handle_mouse_event(event(MouseEventKind::Down, 1, 1));
    assert_eq!(r, Some(Action::RenderBuffer));
    assert!(matches!(
        home.current_operation,
        Some(Operation::Resize { direction: Direction::TopLeft, .. })
    ));
    home.handle_mouse_event(event(MouseEventKind::Drag, 3, 3));
    home.handle_mouse_event(event(MouseEventKind::Up, 3, 3));
    match &home.canvas.elements[0] {
        Element::Box { area } => assert_eq!(*area, Rect::new(4, 4, 3, 3)),
        _ => panic!("not a box"),
    }

    home.handle_mouse_event(event(MouseEventKind::Down, 3, 3));
    home.handle_mouse_event(event(MouseEventKind::Drag, 13, 13));
    home.handle_mouse_event(event(MouseEventKind::Up, 13, 13));
    match &home.canvas.elements[0] {
        Element::Box { area } => {
            assert_eq!(*area, Rect::new(6, 6, 1, 1));
            assert!(area.width >= 1 && area.height >= 1);
        }
        _ => panic!("not a box"),
    }
}

#[test]
fn rubber_band_selects_overlapping_boxes() {
    let mut home = Home::new();
    draw_box(&mut home, (0, 0), (5, 5));
    draw_box(&mut home, (3, 3), (9, 9));
    home.update(Action::SelectNone);
    assert_eq!(home.current_tool, Tool::Cursor);
    home.handle_mouse_event(event(MouseEventKind::Down, 12, 1));
    assert!(selection(&home).is_empty());
    home.handle_mouse_event(event(MouseEventKind::Drag, 4, 4));
    assert_eq!(selection(&home), vec![0, 1]);
    assert_eq!(home.selection_band(), Some(Rect::new(4, 1, 9, 4)));
    home.handle_mouse_event(event(MouseEventKind::Up, 4, 4));
    assert_eq!(selection(&home), vec![0, 1]);
}

#[test]
fn click_selects_the_topmost_element() {
    let mut home = Home::new();
    draw_box(&mut home, (0, 0), (5, 5));
    draw_box(&mut home, (3, 3), (9, 9));
    home.update(Action::SelectNone);
    home.handle_mouse_event(event(MouseEventKind::Down, 4, 4));
    assert_eq!(selection(&home), vec![1]);
    home.handle_mouse_event(event(MouseEventKind::Up, 4, 4));
    let mut additive = event(MouseEventKind::Down, 1, 1);
    additive.additive = true;
    home.handle_mouse_event(additive);
    assert_eq!(selection(&home), vec![0, 1]);
}

#[test]
fn dragging_a_selected_box_moves_it() {
    let mut home = Home::new();
    draw_box(&mut home, (2, 2), (6, 6));
    let r = home.handle_mouse_event(event(MouseEventKind::Down, 3, 3));
    assert_eq!(r, None);
    home.handle_mouse_event(event(MouseEventKind::Drag, 5, 4));
    home.update(Action::RenderBuffer);
    assert_eq!(home.canvas.buffer.width, 9);
    match &home.canvas.elements[0] {
        Element::Box { area } => assert_eq!(*area, Rect::new(2, 2, 5, 5)),
        _ => panic!("not a box"),
    }
    home.handle_mouse_event(event(MouseEventKind::Up, 5, 4));
    match &home.canvas.elements[0] {
        Element::Box { area } => assert_eq!(*area, Rect::new(4, 3, 5, 5)),
        _ => panic!("not a box"),
    }
}

#[test]
fn line_handles_drag_the_end() {
    let mut home = Home::new();
    home.update(Action::SwitchTool(Tool::Line));
    gesture(&mut home, (5, 5), (10, 5));
    match home.handles() {
        Handles::Line { first, second } => {
            assert_eq!(first, Some(pos(4, 5)));
            assert_eq!(second, Some(pos(11, 5)));
        }
        _ => panic!("no line handles"),
    }
    home.handle_mouse_event(event(MouseEventKind::Down, 11, 5));
    assert!(matches!(
        home.current_operation,
        Some(Operation::MoveLineHandle { handle: LineHandle::Second, .. })
    ));
    home.handle_mouse_event(event(MouseEventKind::Drag, 5, 9));
    home.handle_mouse_event(event(MouseEventKind::Up, 5, 9));
    match &home.canvas.elements[0] {
        Element::Line(l) => {
            assert_eq!(l.direction, LineDirection::Down);
            assert_eq!(l.to, pos(5, 9));
        }
        _ => panic!("not a line"),
    }
}

#[test]
fn deleting_clears_the_selection() {
    let mut home = Home::new();
    for i in 0..5u16 {
        home.canvas.elements.push_back(Element::Box { area: Rect::new(i * 3, 0, 2, 2) });
    }
    home.selected_elements.insert(1);
    home.selected_elements.insert(3);
    let r = home.update(Action::Delete);
    assert_eq!(r, Some(Action::SelectNone));
    assert!(home.selected_elements.is_empty());
    let xs: Vec<u16> = home.canvas.elements.iter().map(|e| e.area().x).collect();
    assert_eq!(xs, vec![0, 6, 12]);
}

#[test]
fn select_all_selects_every_element() {
    let mut home = Home::new();
    for i in 0..3u16 {
        home.canvas.elements.push_back(Element::Box { area: Rect::new(i * 3, 0, 2, 2) });
    }
    home.update(Action::SwitchTool(Tool::Text));
    assert_eq!(home.update(Action::SelectAll), Some(Action::RenderBuffer));
    assert_eq!(home.current_tool, Tool::Cursor);
    assert_eq!(selection(&home), vec![0, 1, 2]);
}

#[test]
fn text_tool_creates_and_edits_text() {
    let mut home = Home::new();
    home.update(Action::SwitchTool(Tool::Text));
    let r = gesture(&mut home, (1, 1), (6, 2));
    assert_eq!(r, Some(Action::EditText));
    assert!(matches!(home.current_operation, Some(Operation::EditText { .. })));
    home.set_edit_text("hello".to_string());
    assert_eq!(home.update(Action::CommitText), Some(Action::RenderBuffer));
    match &home.canvas.elements[0] {
        Element::Text { area, content } => {
            assert_eq!(*area, Rect::new(1, 1, 6, 2));
            assert_eq!(content, "hello");
        }
        _ => panic!("not a text"),
    }
    assert!(home.current_operation.is_none());

    let r = gesture(&mut home, (2, 1), (2, 1));
    assert_eq!(r, Some(Action::EditText));
    match &home.current_operation {
        Some(Operation::EditText { buffer }) => assert_eq!(buffer, "hello"),
        _ => panic!("not editing"),
    }
    assert_eq!(selection(&home), vec![0]);
    let r = home.handle_mouse_event(event(MouseEventKind::Down, 20, 20));
    assert_eq!(r, Some(Action::CommitText));
}

#[test]
fn text_click_on_empty_space_returns_to_cursor() {
    let mut home = Home::new();
    home.update(Action::SwitchTool(Tool::Text));
    let r = gesture(&mut home, (4, 4), (4, 4));
    assert_eq!(r, Some(Action::RenderBuffer));
    assert_eq!(home.current_tool, Tool::Cursor);
    assert!(home.canvas.elements.is_empty());
}

#[test]
fn events_over_the_layer_list_are_ignored() {
    let mut home = Home::new();
    let e = MouseEvent { kind: MouseEventKind::Down, column: LIST_WIDTH - 1, row: 3, additive: false };
    assert_eq!(home.handle_mouse_event(e), None);
    assert!(home.current_operation.is_none());
}

#[test]
fn scrolling_moves_the_view_and_saturates() {
    let mut home = Home::new();
    let e = MouseEvent { kind: MouseEventKind::ScrollDown, column: 20, row: 3, additive: false };
    assert_eq!(home.handle_mouse_event(e), Some(Action::ScrollDown));
    home.update(Action::ScrollDown);
    home.update(Action::ScrollRight);
    assert_eq!(home.scroll_offset, pos(8, 4));
    home.update(Action::ScrollUp);
    home.update(Action::ScrollUp);
    home.update(Action::ScrollLeft);
    home.update(Action::ScrollLeft);
    assert_eq!(home.scroll_offset, pos(0, 0));
    home.update(Action::ScrollDown);
    assert_eq!(home.pointer(LIST_WIDTH + 2, 1), pos(2, 5));
}

#[test]
fn switching_tool_drops_the_operation() {
    let mut home = Home::new();
    home.handle_mouse_event(event(MouseEventKind::Down, 1, 1));
    assert!(home.current_operation.is_some());
    home.update(Action::SwitchTool(Tool::Cursor));
    assert!(home.current_operation.is_some());
    home.update(Action::SwitchTool(Tool::Box));
    assert!(home.current_operation.is_none());
}

#[test]
fn render_action_fills_the_buffer() {
    let mut home = Home::new();
    home.canvas.elements.push_back(Element::Line(StraightLine::new(pos(0, 0), pos(2, 0)).unwrap()));
    assert_eq!(home.update(Action::RenderBuffer), None);
    assert_eq!(home.canvas.to_string(), "───\n".as_bytes().to_vec());
    let empty: HashSet<usize> = HashSet::new();
    assert_eq!(home.selected_elements, empty);
}
