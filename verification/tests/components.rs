use termgrid::cell::{BoxBorder, CellKind, Char};
use termgrid::component::{Border, Component, Label, VerticalSplit, WithBorder};
use termgrid::dimension::Dimension;
use termgrid::position::Position;
use termgrid::screen::ScreenBuffer;

fn row_chars(buffer: &ScreenBuffer, width: u16, y: u16) -> String {
    let mut out = String::new();
    for x in 0..width {
        out.push(buffer.get(Position { x, y }).unwrap().as_char());
    }
    out
}

#[test]
fn label_draws_top_row() {
    let mut buffer = ScreenBuffer::new(Dimension { width: 6, height: 2 });
    let portion = buffer.as_portion();
    let label = Label { text: "Hi5".to_string() };
    label.draw(&portion, &mut buffer);
    assert_eq!(row_chars(&buffer, 6, 0), "Hi5   ");
    assert_eq!(row_chars(&buffer, 6, 1), "      ");
}

#[test]
fn label_truncates_at_width() {
    let mut buffer = ScreenBuffer::new(Dimension { width: 3, height: 1 });
    let portion = buffer.as_portion();
    let label = Label { text: "Hello".to_string() };
    label.draw(&portion, &mut buffer);
    assert_eq!(row_chars(&buffer, 3, 0), "Hel");
}

#[test]
fn label_maps_unsupported_to_placeholder() {
    let mut buffer = ScreenBuffer::new(Dimension { width: 4, height: 1 });
    let portion = buffer.as_portion();
    let label = Label { text: "a-b".to_string() };
    label.draw(&portion, &mut buffer);
    assert_eq!(row_chars(&buffer, 4, 0), "a?b ");
}

#[test]
fn label_zero_height_writes_nothing() {
    let mut buffer = ScreenBuffer::new(Dimension { width: 3, height: 2 });
    let root = buffer.as_portion();
    let flat = root.portion(0, 0, Dimension { width: 3, height: 0 }).unwrap();
    let label = Label { text: "abc".to_string() };
    label.draw(&flat, &mut buffer);
    assert_eq!(row_chars(&buffer, 3, 0), "   ");
    assert_eq!(row_chars(&buffer, 3, 1), "   ");
}

#[test]
fn split_draws_children_side_by_side() {
    // width 5 splits into floor(5 / 2) == 2 on the left, 3 on the right
    let mut buffer = ScreenBuffer::new(Dimension { width: 5, height: 1 });
    let portion = buffer.as_portion();
    let split = VerticalSplit {
        left: Label { text: "ab".to_string() },
        right: Label { text: "cde".to_string() },
    };
    split.draw(&portion, &mut buffer);
    assert_eq!(row_chars(&buffer, 5, 0), "abcde");
}

#[test]
fn split_truncates_each_child_at_its_half() {
    let mut buffer = ScreenBuffer::new(Dimension { width: 4, height: 1 });
    let portion = buffer.as_portion();
    let split = VerticalSplit {
        left: Label { text: "long".to_string() },
        right: Label { text: "text".to_string() },
    };
    split.draw(&portion, &mut buffer);
    assert_eq!(row_chars(&buffer, 4, 0), "lote");
}

#[test]
fn split_zero_width_left_child_draws_nothing() {
    // width 1: the left half is zero cells wide, the right half gets the cell
    let mut buffer = ScreenBuffer::new(Dimension { width: 1, height: 1 });
    let portion = buffer.as_portion();
    let split = VerticalSplit {
        left: Label { text: "x".to_string() },
        right: Label { text: "y".to_string() },
    };
    split.draw(&portion, &mut buffer);
    assert_eq!(row_chars(&buffer, 1, 0), "y");
}

#[test]
fn border_draws_glyphs_and_inset_child() {
    let mut buffer = ScreenBuffer::new(Dimension { width: 10, height: 4 });
    let portion = buffer.as_portion();
    let bordered = Border { c: Label { text: "Hi".to_string() } };
    bordered.draw(&portion, &mut buffer);
    assert_eq!(row_chars(&buffer, 10, 0), "┌────────┐");
    assert_eq!(row_chars(&buffer, 10, 1), "│Hi      │");
    assert_eq!(row_chars(&buffer, 10, 2), "│        │");
    assert_eq!(row_chars(&buffer, 10, 3), "└────────┘");
    assert_eq!(
        buffer.get(Position { x: 0, y: 0 }),
        Some(CellKind::BoxBorder(BoxBorder::TopLeft))
    );
    assert_eq!(
        buffer.get(Position { x: 1, y: 1 }),
        Some(CellKind::Char(Char::from('H')))
    );
    assert_eq!(
        buffer.get(Position { x: 2, y: 1 }),
        Some(CellKind::Char(Char::from('i')))
    );
}

#[test]
fn border_minimal_size_has_no_interior() {
    let mut buffer = ScreenBuffer::new(Dimension { width: 2, height: 2 });
    let portion = buffer.as_portion();
    let bordered = Border { c: Label { text: "x".to_string() } };
    bordered.draw(&portion, &mut buffer);
    assert_eq!(row_chars(&buffer, 2, 0), "┌┐");
    assert_eq!(row_chars(&buffer, 2, 1), "└┘");
}

#[test]
fn border_too_small_delegates_unchanged() {
    let mut buffer = ScreenBuffer::new(Dimension { width: 3, height: 1 });
    let portion = buffer.as_portion();
    let bordered = Border { c: Label { text: "ab".to_string() } };
    bordered.draw(&portion, &mut buffer);
    // no glyph anywhere; the child drew into the full portion
    assert_eq!(row_chars(&buffer, 3, 0), "ab ");
}

#[test]
fn boxed_tree_draws_like_the_tree_it_holds() {
    let mut direct = ScreenBuffer::new(Dimension { width: 6, height: 3 });
    let mut dynamic = ScreenBuffer::new(Dimension { width: 6, height: 3 });
    let tree = VerticalSplit {
        left: Label { text: "ab".to_string() },
        right: Border { c: Label { text: "c".to_string() } },
    };
    tree.draw(&direct.as_portion(), &mut direct);
    let boxed: Box<dyn Component> = Box::new(VerticalSplit {
        left: Label { text: "ab".to_string() },
        right: Border { c: Label { text: "c".to_string() } },
    });
    boxed.draw(&dynamic.as_portion(), &mut dynamic);
    for y in 0..3u16 {
        assert_eq!(row_chars(&direct, 6, y), row_chars(&dynamic, 6, y));
    }
}

#[test]
fn with_border_wraps_component() {
    let mut buffer = ScreenBuffer::new(Dimension { width: 4, height: 3 });
    let portion = buffer.as_portion();
    let bordered = Label { text: "z".to_string() }.with_border();
    bordered.draw(&portion, &mut buffer);
    assert_eq!(row_chars(&buffer, 4, 0), "┌──┐");
    assert_eq!(row_chars(&buffer, 4, 1), "│z │");
    assert_eq!(row_chars(&buffer, 4, 2), "└──┘");
}
