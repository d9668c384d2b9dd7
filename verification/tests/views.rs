use termgrid::cell::{CellKind, Char};
use termgrid::dimension::Dimension;
use termgrid::position::Position;
use termgrid::screen::{
    ScreenBuffer, ScreenPortionPortionError, ScreenPortionSetError,
};

#[test]
fn buffer_starts_empty() {
    let buffer = ScreenBuffer::new(Dimension { width: 4, height: 3 });
    for y in 0..3u16 {
        for x in 0..4u16 {
            assert_eq!(buffer.get(Position { x, y }), Some(CellKind::Empty));
        }
    }
}

#[test]
fn set_then_get_round_trip() {
    let mut buffer = ScreenBuffer::new(Dimension { width: 4, height: 3 });
    let portion = buffer.as_portion();
    let cell = CellKind::Char(Char::from('q'));
    portion.set(&mut buffer, 1, 2, cell).unwrap();
    assert_eq!(buffer.get(Position { x: 1, y: 2 }), Some(cell));
    // every other cell keeps its value
    for y in 0..3u16 {
        for x in 0..4u16 {
            if (x, y) != (1, 2) {
                assert_eq!(buffer.get(Position { x, y }), Some(CellKind::Empty));
            }
        }
    }
}

#[test]
fn set_out_of_bounds_fails() {
    let mut buffer = ScreenBuffer::new(Dimension { width: 4, height: 3 });
    let portion = buffer.as_portion();
    let cell = CellKind::Char(Char::from('q'));
    assert!(matches!(
        portion.set(&mut buffer, 4, 0, cell),
        Err(ScreenPortionSetError::OutOfBounds)
    ));
    assert!(matches!(
        portion.set(&mut buffer, 0, 3, cell),
        Err(ScreenPortionSetError::OutOfBounds)
    ));
    // and the buffer is untouched
    assert_eq!(buffer.get(Position { x: 3, y: 2 }), Some(CellKind::Empty));
}

#[test]
fn subview_write_lands_absolute() {
    let mut buffer = ScreenBuffer::new(Dimension { width: 6, height: 5 });
    let root = buffer.as_portion();
    let child = root.portion(2, 1, Dimension { width: 3, height: 2 }).unwrap();
    let cell = CellKind::Char(Char::from('w'));
    child.set(&mut buffer, 1, 1, cell).unwrap();
    assert_eq!(buffer.get(Position { x: 3, y: 2 }), Some(cell));
}

#[test]
fn nested_subviews_accumulate_offsets() {
    let mut buffer = ScreenBuffer::new(Dimension { width: 8, height: 8 });
    let root = buffer.as_portion();
    let child = root.portion(1, 2, Dimension { width: 6, height: 5 }).unwrap();
    let grandchild = child.portion(2, 1, Dimension { width: 3, height: 3 }).unwrap();
    let cell = CellKind::Char(Char::from('g'));
    grandchild.set(&mut buffer, 0, 0, cell).unwrap();
    assert_eq!(buffer.get(Position { x: 3, y: 3 }), Some(cell));
}

#[test]
fn subview_out_of_bounds_fails() {
    let mut buffer = ScreenBuffer::new(Dimension { width: 6, height: 5 });
    let root = buffer.as_portion();
    assert!(matches!(
        root.portion(4, 0, Dimension { width: 3, height: 5 }),
        Err(ScreenPortionPortionError::OutOfBounds)
    ));
    assert!(matches!(
        root.portion(0, 3, Dimension { width: 6, height: 3 }),
        Err(ScreenPortionPortionError::OutOfBounds)
    ));
}

#[test]
fn zero_width_subview_rejects_writes() {
    let mut buffer = ScreenBuffer::new(Dimension { width: 6, height: 5 });
    let root = buffer.as_portion();
    let empty = root.portion(3, 0, Dimension { width: 0, height: 5 }).unwrap();
    assert!(matches!(
        empty.set(&mut buffer, 0, 0, CellKind::Empty),
        Err(ScreenPortionSetError::OutOfBounds)
    ));
}

#[test]
fn buffer_get_out_of_range() {
    let buffer = ScreenBuffer::new(Dimension { width: 4, height: 3 });
    assert_eq!(buffer.get(Position { x: 4, y: 0 }), None);
    assert_eq!(buffer.get(Position { x: 0, y: 3 }), None);
}

#[test]
fn portion_dimension_reports_itself() {
    let buffer = ScreenBuffer::new(Dimension { width: 7, height: 2 });
    let root = buffer.as_portion();
    assert_eq!(root.dimension(), Dimension { width: 7, height: 2 });
    let child = root.portion(1, 0, Dimension { width: 5, height: 1 }).unwrap();
    assert_eq!(child.dimension(), Dimension { width: 5, height: 1 });
}
