use termgrid::cell::{CellKind, Char};
use termgrid::component::{Border, Label, VerticalSplit};
use termgrid::dimension::Dimension;
use termgrid::position::Position;
use termgrid::render::{compute_changes, coalesce_commands, DrawCommand, Renderer};
use termgrid::screen::ScreenBuffer;

fn apply_commands(width: usize, height: usize, cmds: &[DrawCommand]) -> Vec<String> {
    let mut rows = vec![vec![' '; width]; height];
    let mut cx: usize = 0;
    let mut cy: usize = 0;
    for cmd in cmds {
        match cmd {
            DrawCommand::Goto(p) => {
                cx = (p.x - 1) as usize;
                cy = (p.y - 1) as usize;
            }
            DrawCommand::Put(k) => {
                rows[cy][cx] = k.as_char();
                cx += 1;
            }
        }
    }
    rows.into_iter().map(|r| r.into_iter().collect()).collect()
}

fn goto_count(cmds: &[DrawCommand]) -> usize {
    cmds.iter().filter(|c| matches!(c, DrawCommand::Goto(_))).count()
}

#[test]
fn first_render_emits_whole_frame() {
    let mut renderer = Renderer::new();
    let dim = Dimension { width: 10, height: 4 };
    let root = Border { c: Label { text: "Hi".to_string() } };
    let cmds = renderer.render(dim, &root);
    // a full redraw: one cursor move per row, then the row's ten cells
    assert_eq!(cmds.len(), 44);
    assert_eq!(goto_count(&cmds), 4);
    let rows = apply_commands(10, 4, &cmds);
    assert_eq!(rows[0], "┌────────┐");
    assert_eq!(rows[1], "│Hi      │");
    assert_eq!(rows[2], "│        │");
    assert_eq!(rows[3], "└────────┘");
}

#[test]
fn second_render_of_unchanged_tree_emits_nothing() {
    let mut renderer = Renderer::new();
    let dim = Dimension { width: 10, height: 4 };
    let root = Border { c: Label { text: "Hi".to_string() } };
    let first = renderer.render(dim, &root);
    assert!(!first.is_empty());
    let second = renderer.render(dim, &root);
    assert!(second.is_empty());
}

#[test]
fn changed_text_emits_only_differing_cells() {
    let mut renderer = Renderer::new();
    let dim = Dimension { width: 10, height: 4 };
    let first_tree = Border { c: Label { text: "Hi".to_string() } };
    renderer.render(dim, &first_tree);
    let second_tree = Border { c: Label { text: "Bye".to_string() } };
    let cmds = renderer.render(dim, &second_tree);
    // "Hi      " becomes "Bye     ": three inner cells differ, starting at
    // the one-based inner position (2, 2), and they are adjacent in one row
    assert_eq!(
        cmds,
        vec![
            DrawCommand::Goto(Position { x: 2, y: 2 }),
            DrawCommand::Put(CellKind::Char(Char::from('B'))),
            DrawCommand::Put(CellKind::Char(Char::from('y'))),
            DrawCommand::Put(CellKind::Char(Char::from('e'))),
        ]
    );
}

#[test]
fn resize_forces_full_redraw() {
    let mut renderer = Renderer::new();
    let root = Label { text: "ab".to_string() };
    renderer.render(Dimension { width: 2, height: 1 }, &root);
    let cmds = renderer.render(Dimension { width: 3, height: 1 }, &root);
    // every cell of the new frame appears exactly once, in row-major order
    assert_eq!(cmds.len(), 4);
    assert_eq!(goto_count(&cmds), 1);
    let rows = apply_commands(3, 1, &cmds);
    assert_eq!(rows[0], "ab ");
}

#[test]
fn unchanged_split_tree_emits_nothing_twice() {
    let mut renderer = Renderer::new();
    let dim = Dimension { width: 9, height: 3 };
    let root = VerticalSplit {
        left: Border { c: Label { text: "1".to_string() } },
        right: Border { c: Label { text: "Right".to_string() } },
    };
    renderer.render(dim, &root);
    assert!(renderer.render(dim, &root).is_empty());
}

#[test]
fn adjacent_changes_coalesce_into_one_goto() {
    let mut renderer = Renderer::new();
    let dim = Dimension { width: 4, height: 1 };
    renderer.render(dim, &Label { text: "ab".to_string() });
    let cmds = renderer.render(dim, &Label { text: "xy".to_string() });
    assert_eq!(
        cmds,
        vec![
            DrawCommand::Goto(Position { x: 1, y: 1 }),
            DrawCommand::Put(CellKind::Char(Char::from('x'))),
            DrawCommand::Put(CellKind::Char(Char::from('y'))),
        ]
    );
}

#[test]
fn gap_between_changes_repositions_again() {
    let mut renderer = Renderer::new();
    let dim = Dimension { width: 3, height: 1 };
    renderer.render(dim, &Label { text: "a b".to_string() });
    let cmds = renderer.render(dim, &Label { text: "c d".to_string() });
    // the middle cell is unchanged, so the run breaks and the cursor moves twice
    assert_eq!(
        cmds,
        vec![
            DrawCommand::Goto(Position { x: 1, y: 1 }),
            DrawCommand::Put(CellKind::Char(Char::from('c'))),
            DrawCommand::Goto(Position { x: 3, y: 1 }),
            DrawCommand::Put(CellKind::Char(Char::from('d'))),
        ]
    );
}

#[test]
fn row_change_breaks_the_run() {
    // two changed cells at column-adjacent positions but on different rows
    // must each get their own cursor move
    let dim = Dimension { width: 5, height: 2 };
    let mut before = ScreenBuffer::new(dim);
    let mut after = ScreenBuffer::new(dim);
    let root = after.as_portion();
    root.set(&mut after, 1, 0, CellKind::Char(Char::from('x'))).unwrap();
    root.set(&mut after, 2, 1, CellKind::Char(Char::from('y'))).unwrap();
    let before_root = before.as_portion();
    before_root.set(&mut before, 0, 0, CellKind::Empty).unwrap();
    let changes = compute_changes(&Some(before), &after);
    let cmds = coalesce_commands(&changes);
    assert_eq!(
        cmds,
        vec![
            DrawCommand::Goto(Position { x: 2, y: 1 }),
            DrawCommand::Put(CellKind::Char(Char::from('x'))),
            DrawCommand::Goto(Position { x: 3, y: 2 }),
            DrawCommand::Put(CellKind::Char(Char::from('y'))),
        ]
    );
}

#[test]
fn diff_of_identical_buffers_is_empty() {
    let dim = Dimension { width: 4, height: 2 };
    let mut a = ScreenBuffer::new(dim);
    let mut b = ScreenBuffer::new(dim);
    let pa = a.as_portion();
    pa.set(&mut a, 2, 1, CellKind::Char(Char::from('k'))).unwrap();
    let pb = b.as_portion();
    pb.set(&mut b, 2, 1, CellKind::Char(Char::from('k'))).unwrap();
    let changes = compute_changes(&Some(a), &b);
    assert!(changes.is_empty());
    assert!(coalesce_commands(&changes).is_empty());
}

#[test]
fn first_frame_diff_against_none_is_full_redraw() {
    let dim = Dimension { width: 2, height: 2 };
    let next = ScreenBuffer::new(dim);
    let changes = compute_changes(&None, &next);
    assert_eq!(changes.len(), 4);
    assert_eq!(changes[0].0, Position { x: 1, y: 1 });
    assert_eq!(changes[1].0, Position { x: 2, y: 1 });
    assert_eq!(changes[2].0, Position { x: 1, y: 2 });
    assert_eq!(changes[3].0, Position { x: 2, y: 2 });
}
