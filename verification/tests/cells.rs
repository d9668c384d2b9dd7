use termgrid::cell::{BoxBorder, CellKind, Char, CharVariant};

#[test]
fn char_mapping_letters() {
    assert_eq!(Char::from('A'), Char::A(CharVariant::Uppercase));
    assert_eq!(Char::from('a'), Char::A(CharVariant::Lowercase));
    assert_eq!(Char::from('Z'), Char::Z(CharVariant::Uppercase));
    assert_eq!(Char::from('m'), Char::M(CharVariant::Lowercase));
}

#[test]
fn char_mapping_digits() {
    assert_eq!(Char::from('0'), Char::Zero);
    assert_eq!(Char::from('5'), Char::Five);
    assert_eq!(Char::from('9'), Char::Nine);
}

#[test]
fn char_mapping_unsupported_degrades_to_placeholder() {
    assert_eq!(Char::from('!'), Char::Unsupported);
    assert_eq!(Char::from(' '), Char::Unsupported);
    assert_eq!(Char::from('é'), Char::Unsupported);
}

#[test]
fn char_display_round_trips_supported_characters() {
    for c in ('a'..='z').chain('A'..='Z').chain('0'..='9') {
        assert_eq!(Char::from(c).as_char(), c);
    }
    assert_eq!(Char::Unsupported.as_char(), '?');
}

#[test]
fn cell_display_chars() {
    assert_eq!(CellKind::Empty.as_char(), ' ');
    assert_eq!(CellKind::Char(Char::from('h')).as_char(), 'h');
    assert_eq!(CellKind::BoxBorder(BoxBorder::TopLeft).as_char(), '┌');
}

#[test]
fn border_glyph_chars() {
    assert_eq!(BoxBorder::TopLeft.as_char(), '┌');
    assert_eq!(BoxBorder::TopRight.as_char(), '┐');
    assert_eq!(BoxBorder::BottomLeft.as_char(), '└');
    assert_eq!(BoxBorder::BottomRight.as_char(), '┘');
    assert_eq!(BoxBorder::Top.as_char(), '─');
    assert_eq!(BoxBorder::Bottom.as_char(), '─');
    assert_eq!(BoxBorder::Left.as_char(), '│');
    assert_eq!(BoxBorder::Right.as_char(), '│');
}

#[test]
fn cell_from_conversions() {
    assert_eq!(CellKind::from(Char::Zero), CellKind::Char(Char::Zero));
    assert_eq!(CellKind::from(BoxBorder::Top), CellKind::BoxBorder(BoxBorder::Top));
}
