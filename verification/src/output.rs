//! Encoding a command stream into the terminal's byte language: each cursor
//! move becomes a cursor-addressing escape sequence, each cell emission the
//! cell's single display character. The escape sequence itself comes from the
//! terminal crate, behind a trusted wrapper whose contract states the exact
//! characters it produces.

use vstd::prelude::*;

use crate::position::Position;
use crate::render::DrawCommand;

verus! {

/// The character of one decimal digit.
pub open spec fn digit_char(d: int) -> char {
    if d == 0 {
        '0'
    } else if d == 1 {
        '1'
    } else if d == 2 {
        '2'
    } else if d == 3 {
        '3'
    } else if d == 4 {
        '4'
    } else if d == 5 {
        '5'
    } else if d == 6 {
        '6'
    } else if d == 7 {
        '7'
    } else if d == 8 {
        '8'
    } else {
        '9'
    }
}

/// The decimal digits of a non-negative number, most significant first and
/// without leading zeroes.
pub open spec fn decimal_digits(n: int) -> Seq<char>
    decreases n,
{
    if n < 10 {
        seq![digit_char(n)]
    } else {
        decimal_digits(n / 10) + seq![digit_char(n % 10)]
    }
}

/// The cursor-addressing escape sequence for a one-based position: the
/// control sequence introducer, the row, a semicolon, the column, and the
/// final letter.
pub open spec fn goto_escape(pos: Position) -> Seq<char> {
    seq!['\u{1b}', '['] + decimal_digits(pos.y as int) + seq![';'] + decimal_digits(pos.x as int)
        + seq!['H']
}

/// The terminal character stream for a command stream.
pub open spec fn spec_output(cmds: Seq<DrawCommand>) -> Seq<char>
    decreases cmds.len(),
{
    if cmds.len() == 0 {
        Seq::empty()
    } else {
        spec_output(cmds.drop_last()) + match cmds.last() {
            DrawCommand::Goto(pos) => goto_escape(pos),
            DrawCommand::Put(kind) => seq![kind.display_char()],
        }
    }
}

/// Relies on termion::cursor::Goto's Display, which writes the cursor
/// escape sequence `ESC [ row ; column H` in decimal, row first. Goto is
/// one-based, so the all-zero position is left out.
#[verifier::external_body]
fn goto_sequence(pos: Position) -> (r: Vec<char>)
    requires
        pos.x >= 1 || pos.y >= 1,
    ensures
        r@ == goto_escape(pos),
{
    format!("{}", termion::cursor::Goto(pos.x, pos.y)).chars().collect()
}

/// Encodes a command stream, as the renderer emits it with its one-based
/// positions, into the characters to hand the terminal.
pub fn command_output(cmds: &Vec<DrawCommand>) -> (out: Vec<char>)
    requires
        forall|j: int|
            0 <= j < cmds@.len() ==> (#[trigger] cmds@[j] matches DrawCommand::Goto(pos)
                ==> pos.x >= 1 || pos.y >= 1),
    ensures
        out@ == spec_output(cmds@),
{
    let mut out: Vec<char> = Vec::new();
    let mut i: usize = 0;
    while i < cmds.len()
        invariant
            i <= cmds@.len(),
            out@ == spec_output(cmds@.take(i as int)),
            forall|j: int|
                0 <= j < cmds@.len() ==> (#[trigger] cmds@[j] matches DrawCommand::Goto(pos)
                    ==> pos.x >= 1 || pos.y >= 1),
        decreases cmds@.len() - i,
    {
        match cmds[i] {
            DrawCommand::Goto(pos) => {
                let mut escape = goto_sequence(pos);
                out.append(&mut escape);
            },
            DrawCommand::Put(kind) => {
                out.push(kind.as_char());
            },
        }
        proof {
            assert(cmds@.take(i + 1).drop_last() =~= cmds@.take(i as int));
            assert(cmds@.take(i + 1).last() == cmds@[i as int]);
            assert(out@ =~= spec_output(cmds@.take(i + 1)));
        }
        i = i + 1;
    }
    proof {
        assert(cmds@.take(cmds@.len() as int) =~= cmds@);
    }
    out
}

} // verus!
