//! The discrete renderable unit of a grid cell: empty, a supported character,
//! or one of eight box-drawing glyphs, together with the total mapping from a
//! raw character to this model and the mapping from a cell to the single
//! character that displays it.

use vstd::prelude::*;

verus! {

/// Whether a letter cell renders in upper or lower case.
#[derive(Debug, Clone, Copy, PartialEq, Eq, Structural)]
pub enum CharVariant {
    Uppercase,
    Lowercase,
}

/// A character a cell can hold: a case-carrying letter, a digit, or the
/// placeholder that every unsupported input character degrades to.
#[derive(Debug, Clone, Copy, PartialEq, Eq, Structural)]
pub enum Char {
    A(CharVariant),
    B(CharVariant),
    C(CharVariant),
    D(CharVariant),
    E(CharVariant),
    F(CharVariant),
    G(CharVariant),
    H(CharVariant),
    I(CharVariant),
    J(CharVariant),
    K(CharVariant),
    L(CharVariant),
    M(CharVariant),
    N(CharVariant),
    O(CharVariant),
    P(CharVariant),
    Q(CharVariant),
    R(CharVariant),
    S(CharVariant),
    T(CharVariant),
    U(CharVariant),
    V(CharVariant),
    W(CharVariant),
    X(CharVariant),
    Y(CharVariant),
    Z(CharVariant),
    Zero,
    One,
    Two,
    Three,
    Four,
    Five,
    Six,
    Seven,
    Eight,
    Nine,
    Unsupported,
}

/// One of the eight box-drawing glyphs a border is drawn from:
/// four edges and four corners.
#[derive(Debug, Clone, Copy, PartialEq, Eq, Structural)]
pub enum BoxBorder {
    Right,
    Left,
    Top,
    Bottom,
    TopRight,
    TopLeft,
    BottomRight,
    BottomLeft,
}

/// One grid cell.
#[derive(Debug, Clone, Copy, PartialEq, Eq, Structural)]
pub enum CellKind {
    Empty,
    Char(Char),
    BoxBorder(BoxBorder),
}

impl Char {
    /// The total mapping from a raw character to the cell character model:
    /// letters keep their case, digits map to their variant, and everything
    /// else degrades to the placeholder.
    pub open spec fn spec_from_char(c: char) -> Char {
        match c {
            'A' => Char::A(CharVariant::Uppercase),
            'a' => Char::A(CharVariant::Lowercase),
            'B' => Char::B(CharVariant::Uppercase),
            'b' => Char::B(CharVariant::Lowercase),
            'C' => Char::C(CharVariant::Uppercase),
            'c' => Char::C(CharVariant::Lowercase),
            'D' => Char::D(CharVariant::Uppercase),
            'd' => Char::D(CharVariant::Lowercase),
            'E' => Char::E(CharVariant::Uppercase),
            'e' => Char::E(CharVariant::Lowercase),
            'F' => Char::F(CharVariant::Uppercase),
            'f' => Char::F(CharVariant::Lowercase),
            'G' => Char::G(CharVariant::Uppercase),
            'g' => Char::G(CharVariant::Lowercase),
            'H' => Char::H(CharVariant::Uppercase),
            'h' => Char::H(CharVariant::Lowercase),
            'I' => Char::I(CharVariant::Uppercase),
            'i' => Char::I(CharVariant::Lowercase),
            'J' => Char::J(CharVariant::Uppercase),
            'j' => Char::J(CharVariant::Lowercase),
            'K' => Char::K(CharVariant::Uppercase),
            'k' => Char::K(CharVariant::Lowercase),
            'L' => Char::L(CharVariant::Uppercase),
            'l' => Char::L(CharVariant::Lowercase),
            'M' => Char::M(CharVariant::Uppercase),
            'm' => Char::M(CharVariant::Lowercase),
            'N' => Char::N(CharVariant::Uppercase),
            'n' => Char::N(CharVariant::Lowercase),
            'O' => Char::O(CharVariant::Uppercase),
            'o' => Char::O(CharVariant::Lowercase),
            'P' => Char::P(CharVariant::Uppercase),
            'p' => Char::P(CharVariant::Lowercase),
            'Q' => Char::Q(CharVariant::Uppercase),
            'q' => Char::Q(CharVariant::Lowercase),
            'R' => Char::R(CharVariant::Uppercase),
            'r' => Char::R(CharVariant::Lowercase),
            'S' => Char::S(CharVariant::Uppercase),
            's' => Char::S(CharVariant::Lowercase),
            'T' => Char::T(CharVariant::Uppercase),
            't' => Char::T(CharVariant::Lowercase),
            'U' => Char::U(CharVariant::Uppercase),
            'u' => Char::U(CharVariant::Lowercase),
            'V' => Char::V(CharVariant::Uppercase),
            'v' => Char::V(CharVariant::Lowercase),
            'W' => Char::W(CharVariant::Uppercase),
            'w' => Char::W(CharVariant::Lowercase),
            'X' => Char::X(CharVariant::Uppercase),
            'x' => Char::X(CharVariant::Lowercase),
            'Y' => Char::Y(CharVariant::Uppercase),
            'y' => Char::Y(CharVariant::Lowercase),
            'Z' => Char::Z(CharVariant::Uppercase),
            'z' => Char::Z(CharVariant::Lowercase),
            '0' => Char::Zero,
            '1' => Char::One,
            '2' => Char::Two,
            '3' => Char::Three,
            '4' => Char::Four,
            '5' => Char::Five,
            '6' => Char::Six,
            '7' => Char::Seven,
            '8' => Char::Eight,
            '9' => Char::Nine,
            _ => Char::Unsupported,
        }
    }

    /// The single character this cell character displays as.
    pub open spec fn display_char(self) -> char {
        match self {
            Char::A(v) => if v is Uppercase { 'A' } else { 'a' },
            Char::B(v) => if v is Uppercase { 'B' } else { 'b' },
            Char::C(v) => if v is Uppercase { 'C' } else { 'c' },
            Char::D(v) => if v is Uppercase { 'D' } else { 'd' },
            Char::E(v) => if v is Uppercase { 'E' } else { 'e' },
            Char::F(v) => if v is Uppercase { 'F' } else { 'f' },
            Char::G(v) => if v is Uppercase { 'G' } else { 'g' },
            Char::H(v) => if v is Uppercase { 'H' } else { 'h' },
            Char::I(v) => if v is Uppercase { 'I' } else { 'i' },
            Char::J(v) => if v is Uppercase { 'J' } else { 'j' },
            Char::K(v) => if v is Uppercase { 'K' } else { 'k' },
            Char::L(v) => if v is Uppercase { 'L' } else { 'l' },
            Char::M(v) => if v is Uppercase { 'M' } else { 'm' },
            Char::N(v) => if v is Uppercase { 'N' } else { 'n' },
            Char::O(v) => if v is Uppercase { 'O' } else { 'o' },
            Char::P(v) => if v is Uppercase { 'P' } else { 'p' },
            Char::Q(v) => if v is Uppercase { 'Q' } else { 'q' },
            Char::R(v) => if v is Uppercase { 'R' } else { 'r' },
            Char::S(v) => if v is Uppercase { 'S' } else { 's' },
            Char::T(v) => if v is Uppercase { 'T' } else { 't' },
            Char::U(v) => if v is Uppercase { 'U' } else { 'u' },
            Char::V(v) => if v is Uppercase { 'V' } else { 'v' },
            Char::W(v) => if v is Uppercase { 'W' } else { 'w' },
            Char::X(v) => if v is Uppercase { 'X' } else { 'x' },
            Char::Y(v) => if v is Uppercase { 'Y' } else { 'y' },
            Char::Z(v) => if v is Uppercase { 'Z' } else { 'z' },
            Char::Zero => '0',
            Char::One => '1',
            Char::Two => '2',
            Char::Three => '3',
            Char::Four => '4',
            Char::Five => '5',
            Char::Six => '6',
            Char::Seven => '7',
            Char::Eight => '8',
            Char::Nine => '9',
            Char::Unsupported => '?',
        }
    }

    /// The character this cell character displays as.
    pub fn as_char(&self) -> (c: char)
        ensures
            c == self.display_char(),
    {
        match self {
            Char::A(v) => if matches!(v, CharVariant::Uppercase) { 'A' } else { 'a' },
            Char::B(v) => if matches!(v, CharVariant::Uppercase) { 'B' } else { 'b' },
            Char::C(v) => if matches!(v, CharVariant::Uppercase) { 'C' } else { 'c' },
            Char::D(v) => if matches!(v, CharVariant::Uppercase) { 'D' } else { 'd' },
            Char::E(v) => if matches!(v, CharVariant::Uppercase) { 'E' } else { 'e' },
            Char::F(v) => if matches!(v, CharVariant::Uppercase) { 'F' } else { 'f' },
            Char::G(v) => if matches!(v, CharVariant::Uppercase) { 'G' } else { 'g' },
            Char::H(v) => if matches!(v, CharVariant::Uppercase) { 'H' } else { 'h' },
            Char::I(v) => if matches!(v, CharVariant::Uppercase) { 'I' } else { 'i' },
            Char::J(v) => if matches!(v, CharVariant::Uppercase) { 'J' } else { 'j' },
            Char::K(v) => if matches!(v, CharVariant::Uppercase) { 'K' } else { 'k' },
            Char::L(v) => if matches!(v, CharVariant::Uppercase) { 'L' } else { 'l' },
            Char::M(v) => if matches!(v, CharVariant::Uppercase) { 'M' } else { 'm' },
            Char::N(v) => if matches!(v, CharVariant::Uppercase) { 'N' } else { 'n' },
            Char::O(v) => if matches!(v, CharVariant::Uppercase) { 'O' } else { 'o' },
            Char::P(v) => if matches!(v, CharVariant::Uppercase) { 'P' } else { 'p' },
            Char::Q(v) => if matches!(v, CharVariant::Uppercase) { 'Q' } else { 'q' },
            Char::R(v) => if matches!(v, CharVariant::Uppercase) { 'R' } else { 'r' },
            Char::S(v) => if matches!(v, CharVariant::Uppercase) { 'S' } else { 's' },
            Char::T(v) => if matches!(v, CharVariant::Uppercase) { 'T' } else { 't' },
            Char::U(v) => if matches!(v, CharVariant::Uppercase) { 'U' } else { 'u' },
            Char::V(v) => if matches!(v, CharVariant::Uppercase) { 'V' } else { 'v' },
            Char::W(v) => if matches!(v, CharVariant::Uppercase) { 'W' } else { 'w' },
            Char::X(v) => if matches!(v, CharVariant::Uppercase) { 'X' } else { 'x' },
            Char::Y(v) => if matches!(v, CharVariant::Uppercase) { 'Y' } else { 'y' },
            Char::Z(v) => if matches!(v, CharVariant::Uppercase) { 'Z' } else { 'z' },
            Char::Zero => '0',
            Char::One => '1',
            Char::Two => '2',
            Char::Three => '3',
            Char::Four => '4',
            Char::Five => '5',
            Char::Six => '6',
            Char::Seven => '7',
            Char::Eight => '8',
            Char::Nine => '9',
            Char::Unsupported => '?',
        }
    }
}

impl From<char> for Char {
    /// Total: every raw character maps to some cell character, with
    /// unsupported input degrading to the placeholder rather than failing.
    fn from(c: char) -> (r: Char)
        ensures
            r == Char::spec_from_char(c),
    {
        match c {
            'A' => Char::A(CharVariant::Uppercase),
            'a' => Char::A(CharVariant::Lowercase),
            'B' => Char::B(CharVariant::Uppercase),
            'b' => Char::B(CharVariant::Lowercase),
            'C' => Char::C(CharVariant::Uppercase),
            'c' => Char::C(CharVariant::Lowercase),
            'D' => Char::D(CharVariant::Uppercase),
            'd' => Char::D(CharVariant::Lowercase),
            'E' => Char::E(CharVariant::Uppercase),
            'e' => Char::E(CharVariant::Lowercase),
            'F' => Char::F(CharVariant::Uppercase),
            'f' => Char::F(CharVariant::Lowercase),
            'G' => Char::G(CharVariant::Uppercase),
            'g' => Char::G(CharVariant::Lowercase),
            'H' => Char::H(CharVariant::Uppercase),
            'h' => Char::H(CharVariant::Lowercase),
            'I' => Char::I(CharVariant::Uppercase),
            'i' => Char::I(CharVariant::Lowercase),
            'J' => Char::J(CharVariant::Uppercase),
            'j' => Char::J(CharVariant::Lowercase),
            'K' => Char::K(CharVariant::Uppercase),
            'k' => Char::K(CharVariant::Lowercase),
            'L' => Char::L(CharVariant::Uppercase),
            'l' => Char::L(CharVariant::Lowercase),
            'M' => Char::M(CharVariant::Uppercase),
            'm' => Char::M(CharVariant::Lowercase),
            'N' => Char::N(CharVariant::Uppercase),
            'n' => Char::N(CharVariant::Lowercase),
            'O' => Char::O(CharVariant::Uppercase),
            'o' => Char::O(CharVariant::Lowercase),
            'P' => Char::P(CharVariant::Uppercase),
            'p' => Char::P(CharVariant::Lowercase),
            'Q' => Char::Q(CharVariant::Uppercase),
            'q' => Char::Q(CharVariant::Lowercase),
            'R' => Char::R(CharVariant::Uppercase),
            'r' => Char::R(CharVariant::Lowercase),
            'S' => Char::S(CharVariant::Uppercase),
            's' => Char::S(CharVariant::Lowercase),
            'T' => Char::T(CharVariant::Uppercase),
            't' => Char::T(CharVariant::Lowercase),
            'U' => Char::U(CharVariant::Uppercase),
            'u' => Char::U(CharVariant::Lowercase),
            'V' => Char::V(CharVariant::Uppercase),
            'v' => Char::V(CharVariant::Lowercase),
            'W' => Char::W(CharVariant::Uppercase),
            'w' => Char::W(CharVariant::Lowercase),
            'X' => Char::X(CharVariant::Uppercase),
            'x' => Char::X(CharVariant::Lowercase),
            'Y' => Char::Y(CharVariant::Uppercase),
            'y' => Char::Y(CharVariant::Lowercase),
            'Z' => Char::Z(CharVariant::Uppercase),
            'z' => Char::Z(CharVariant::Lowercase),
            '0' => Char::Zero,
            '1' => Char::One,
            '2' => Char::Two,
            '3' => Char::Three,
            '4' => Char::Four,
            '5' => Char::Five,
            '6' => Char::Six,
            '7' => Char::Seven,
            '8' => Char::Eight,
            '9' => Char::Nine,
            _ => Char::Unsupported,
        }
    }
}

impl vstd::std_specs::convert::FromSpecImpl<char> for Char {
    open spec fn obeys_from_spec() -> bool {
        true
    }

    open spec fn from_spec(c: char) -> Char {
        Char::spec_from_char(c)
    }
}

impl BoxBorder {
    /// The fixed box-drawing character each glyph variant displays as.
    pub open spec fn display_char(self) -> char {
        match self {
            BoxBorder::Right => '│',
            BoxBorder::Left => '│',
            BoxBorder::Top => '─',
            BoxBorder::Bottom => '─',
            BoxBorder::TopRight => '┐',
            BoxBorder::TopLeft => '┌',
            BoxBorder::BottomRight => '┘',
            BoxBorder::BottomLeft => '└',
        }
    }

    /// The character this glyph displays as.
    pub fn as_char(&self) -> (c: char)
        ensures
            c == self.display_char(),
    {
        match self {
            BoxBorder::Right => '│',
            BoxBorder::Left => '│',
            BoxBorder::Top => '─',
            BoxBorder::Bottom => '─',
            BoxBorder::TopRight => '┐',
            BoxBorder::TopLeft => '┌',
            BoxBorder::BottomRight => '┘',
            BoxBorder::BottomLeft => '└',
        }
    }
}

impl CellKind {
    /// The single character this cell displays as; an empty cell displays
    /// as a space. Exactly one textual representation per cell value.
    pub open spec fn display_char(self) -> char {
        match self {
            CellKind::Empty => ' ',
            CellKind::Char(c) => c.display_char(),
            CellKind::BoxBorder(b) => b.display_char(),
        }
    }

    /// The character this cell displays as.
    pub fn as_char(&self) -> (c: char)
        ensures
            c == self.display_char(),
    {
        match self {
            CellKind::Empty => ' ',
            CellKind::Char(c) => c.as_char(),
            CellKind::BoxBorder(b) => b.as_char(),
        }
    }
}

impl From<Char> for CellKind {
    fn from(c: Char) -> (r: CellKind)
        ensures
            r == CellKind::Char(c),
    {
        CellKind::Char(c)
    }
}

impl vstd::std_specs::convert::FromSpecImpl<Char> for CellKind {
    open spec fn obeys_from_spec() -> bool {
        true
    }

    open spec fn from_spec(c: Char) -> CellKind {
        CellKind::Char(c)
    }
}

impl From<BoxBorder> for CellKind {
    fn from(b: BoxBorder) -> (r: CellKind)
        ensures
            r == CellKind::BoxBorder(b),
    {
        CellKind::BoxBorder(b)
    }
}

impl vstd::std_specs::convert::FromSpecImpl<BoxBorder> for CellKind {
    open spec fn obeys_from_spec() -> bool {
        true
    }

    open spec fn from_spec(b: BoxBorder) -> CellKind {
        CellKind::BoxBorder(b)
    }
}

} // verus!
