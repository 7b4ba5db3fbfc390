//! The keyboard-focus navigation graph: which control gains focus when the
//! user navigates in a direction from the control that has it.

use vstd::prelude::*;

verus! {

/// A navigation direction.
#[derive(Clone, Copy, Debug, PartialEq, Eq, Hash, Structural)]
pub enum Direction {
    Up,
    Down,
    Left,
    Right,
}

/// Every focusable control of the front end.
#[derive(Clone, Copy, Debug, PartialEq, Eq, Hash, Structural)]
pub enum InputId {
    Rewind,
    PlayPause,
    Skip,
    Scale,
    Style,
    Bpm,
    Length,
    Seed,
    Generate,
    GenerateRandom,
    SongLoader,
}

/// The neighbor a control hands focus to in a direction, or `None` when
/// focus stays put.
pub open spec fn spec_neighbor(current: InputId, direction: Direction) -> Option<InputId> {
    match (current, direction) {
        (InputId::Rewind, Direction::Right) => Some(InputId::PlayPause),
        (InputId::Rewind, Direction::Left) => Some(InputId::Skip),
        (InputId::Rewind, Direction::Down) => Some(InputId::Scale),
        (InputId::PlayPause, Direction::Right) => Some(InputId::Skip),
        (InputId::PlayPause, Direction::Left) => Some(InputId::Rewind),
        (InputId::PlayPause, Direction::Down) => Some(InputId::Scale),
        (InputId::Skip, Direction::Right) => Some(InputId::Rewind),
        (InputId::Skip, Direction::Left) => Some(InputId::PlayPause),
        (InputId::Skip, Direction::Down) => Some(InputId::Style),
        (InputId::Scale, Direction::Up) => Some(InputId::Rewind),
        (InputId::Scale, Direction::Right) => Some(InputId::Style),
        (InputId::Scale, Direction::Left) => Some(InputId::Style),
        (InputId::Scale, Direction::Down) => Some(InputId::Bpm),
        (InputId::Style, Direction::Up) => Some(InputId::Skip),
        (InputId::Style, Direction::Right) => Some(InputId::Scale),
        (InputId::Style, Direction::Left) => Some(InputId::Scale),
        (InputId::Style, Direction::Down) => Some(InputId::Length),
        (InputId::Bpm, Direction::Up) => Some(InputId::Scale),
        (InputId::Bpm, Direction::Right) => Some(InputId::Length),
        (InputId::Bpm, Direction::Left) => Some(InputId::Length),
        (InputId::Bpm, Direction::Down) => Some(InputId::Seed),
        (InputId::Length, Direction::Up) => Some(InputId::Style),
        (InputId::Length, Direction::Right) => Some(InputId::Bpm),
        (InputId::Length, Direction::Left) => Some(InputId::Bpm),
        (InputId::Length, Direction::Down) => Some(InputId::Seed),
        (InputId::Seed, Direction::Up) => Some(InputId::Bpm),
        (InputId::Seed, Direction::Down) => Some(InputId::Generate),
        (InputId::Seed, Direction::Left) => Some(InputId::Bpm),
        (InputId::Seed, Direction::Right) => Some(InputId::Length),
        (InputId::Generate, Direction::Up) => Some(InputId::Seed),
        (InputId::Generate, Direction::Down) => Some(InputId::GenerateRandom),
        (InputId::Generate, Direction::Left) => Some(InputId::Generate),
        (InputId::Generate, Direction::Right) => Some(InputId::Generate),
        (InputId::GenerateRandom, Direction::Up) => Some(InputId::Generate),
        (InputId::GenerateRandom, Direction::Down) => Some(InputId::SongLoader),
        (InputId::GenerateRandom, Direction::Left) => Some(InputId::GenerateRandom),
        (InputId::GenerateRandom, Direction::Right) => Some(InputId::GenerateRandom),
        (InputId::SongLoader, Direction::Up) => Some(InputId::GenerateRandom),
        (InputId::SongLoader, Direction::Down) => Some(InputId::SongLoader),
        (InputId::SongLoader, Direction::Left) => Some(InputId::SongLoader),
        (InputId::SongLoader, Direction::Right) => Some(InputId::SongLoader),
        _ => None,
    }
}

/// The navigation graph as an edge list: from, direction, to.
pub open spec fn spec_input_edges() -> Seq<(InputId, Direction, InputId)> {
    seq![
        (InputId::Rewind, Direction::Right, InputId::PlayPause),
        (InputId::Rewind, Direction::Left, InputId::Skip),
        (InputId::Rewind, Direction::Down, InputId::Scale),
        (InputId::PlayPause, Direction::Right, InputId::Skip),
        (InputId::PlayPause, Direction::Left, InputId::Rewind),
        (InputId::PlayPause, Direction::Down, InputId::Scale),
        (InputId::Skip, Direction::Right, InputId::Rewind),
        (InputId::Skip, Direction::Left, InputId::PlayPause),
        (InputId::Skip, Direction::Down, InputId::Style),
        (InputId::Scale, Direction::Up, InputId::Rewind),
        (InputId::Scale, Direction::Right, InputId::Style),
        (InputId::Scale, Direction::Left, InputId::Style),
        (InputId::Scale, Direction::Down, InputId::Bpm),
        (InputId::Style, Direction::Up, InputId::Skip),
        (InputId::Style, Direction::Right, InputId::Scale),
        (InputId::Style, Direction::Left, InputId::Scale),
        (InputId::Style, Direction::Down, InputId::Length),
        (InputId::Bpm, Direction::Up, InputId::Scale),
        (InputId::Bpm, Direction::Right, InputId::Length),
        (InputId::Bpm, Direction::Left, InputId::Length),
        (InputId::Bpm, Direction::Down, InputId::Seed),
        (InputId::Length, Direction::Up, InputId::Style),
        (InputId::Length, Direction::Right, InputId::Bpm),
        (InputId::Length, Direction::Left, InputId::Bpm),
        (InputId::Length, Direction::Down, InputId::Seed),
        (InputId::Seed, Direction::Up, InputId::Bpm),
        (InputId::Seed, Direction::Down, InputId::Generate),
        (InputId::Seed, Direction::Left, InputId::Bpm),
        (InputId::Seed, Direction::Right, InputId::Length),
        (InputId::Generate, Direction::Up, InputId::Seed),
        (InputId::Generate, Direction::Down, InputId::GenerateRandom),
        (InputId::Generate, Direction::Left, InputId::Generate),
        (InputId::Generate, Direction::Right, InputId::Generate),
        (InputId::GenerateRandom, Direction::Up, InputId::Generate),
        (InputId::GenerateRandom, Direction::Down, InputId::SongLoader),
        (InputId::GenerateRandom, Direction::Left, InputId::GenerateRandom),
        (InputId::GenerateRandom, Direction::Right, InputId::GenerateRandom),
        (InputId::SongLoader, Direction::Up, InputId::GenerateRandom),
        (InputId::SongLoader, Direction::Down, InputId::SongLoader),
        (InputId::SongLoader, Direction::Left, InputId::SongLoader),
        (InputId::SongLoader, Direction::Right, InputId::SongLoader),
    ]
}

/// The navigation graph, materialized as an edge list.  Every edge agrees
/// with `spec_neighbor`, and every pair with a neighbor appears.
pub fn get_input_graph() -> (r: Vec<(InputId, Direction, InputId)>)
    ensures
        r@ == spec_input_edges(),
{
    let mut edges: Vec<(InputId, Direction, InputId)> = Vec::new();
    edges.push((InputId::Rewind, Direction::Right, InputId::PlayPause));
    edges.push((InputId::Rewind, Direction::Left, InputId::Skip));
    edges.push((InputId::Rewind, Direction::Down, InputId::Scale));
    edges.push((InputId::PlayPause, Direction::Right, InputId::Skip));
    edges.push((InputId::PlayPause, Direction::Left, InputId::Rewind));
    edges.push((InputId::PlayPause, Direction::Down, InputId::Scale));
    edges.push((InputId::Skip, Direction::Right, InputId::Rewind));
    edges.push((InputId::Skip, Direction::Left, InputId::PlayPause));
    edges.push((InputId::Skip, Direction::Down, InputId::Style));
    edges.push((InputId::Scale, Direction::Up, InputId::Rewind));
    edges.push((InputId::Scale, Direction::Right, InputId::Style));
    edges.push((InputId::Scale, Direction::Left, InputId::Style));
    edges.push((InputId::Scale, Direction::Down, InputId::Bpm));
    edges.push((InputId::Style, Direction::Up, InputId::Skip));
    edges.push((InputId::Style, Direction::Right, InputId::Scale));
    edges.push((InputId::Style, Direction::Left, InputId::Scale));
    edges.push((InputId::Style, Direction::Down, InputId::Length));
    edges.push((InputId::Bpm, Direction::Up, InputId::Scale));
    edges.push((InputId::Bpm, Direction::Right, InputId::Length));
    edges.push((InputId::Bpm, Direction::Left, InputId::Length));
    edges.push((InputId::Bpm, Direction::Down, InputId::Seed));
    edges.push((InputId::Length, Direction::Up, InputId::Style));
    edges.push((InputId::Length, Direction::Right, InputId::Bpm));
    edges.push((InputId::Length, Direction::Left, InputId::Bpm));
    edges.push((InputId::Length, Direction::Down, InputId::Seed));
    edges.push((InputId::Seed, Direction::Up, InputId::Bpm));
    edges.push((InputId::Seed, Direction::Down, InputId::Generate));
    edges.push((InputId::Seed, Direction::Left, InputId::Bpm));
    edges.push((InputId::Seed, Direction::Right, InputId::Length));
    edges.push((InputId::Generate, Direction::Up, InputId::Seed));
    edges.push((InputId::Generate, Direction::Down, InputId::GenerateRandom));
    edges.push((InputId::Generate, Direction::Left, InputId::Generate));
    edges.push((InputId::Generate, Direction::Right, InputId::Generate));
    edges.push((InputId::GenerateRandom, Direction::Up, InputId::Generate));
    edges.push((InputId::GenerateRandom, Direction::Down, InputId::SongLoader));
    edges.push((InputId::GenerateRandom, Direction::Left, InputId::GenerateRandom));
    edges.push((InputId::GenerateRandom, Direction::Right, InputId::GenerateRandom));
    edges.push((InputId::SongLoader, Direction::Up, InputId::GenerateRandom));
    edges.push((InputId::SongLoader, Direction::Down, InputId::SongLoader));
    edges.push((InputId::SongLoader, Direction::Left, InputId::SongLoader));
    edges.push((InputId::SongLoader, Direction::Right, InputId::SongLoader));
    proof {
        assert(edges@ =~= spec_input_edges());
    }
    edges
}

/// Every edge of the graph agrees with `spec_neighbor`.
pub proof fn lemma_graph_agrees_with_neighbor()
    ensures
        forall|k: int|
            0 <= k < spec_input_edges().len() ==> spec_neighbor(
                (#[trigger] spec_input_edges()[k]).0,
                spec_input_edges()[k].1,
            ) == Some(spec_input_edges()[k].2),
{
}

/// Move focus from `current` in `direction`: follow the graph edge when
/// there is one, stay put when there is none.
pub fn next_focus(current: InputId, direction: Direction) -> (r: InputId)
    ensures
        r == match spec_neighbor(current, direction) {
            Some(n) => n,
            None => current,
        },
{
    match neighbor_of(current, direction) {
        Some(n) => n,
        None => current,
    }
}

/// Look up the neighbor a control hands focus to in a direction.
fn neighbor_of(current: InputId, direction: Direction) -> (r: Option<InputId>)
    ensures
        r == spec_neighbor(current, direction),
{
    match (current, direction) {
        (InputId::Rewind, Direction::Right) => Some(InputId::PlayPause),
        (InputId::Rewind, Direction::Left) => Some(InputId::Skip),
        (InputId::Rewind, Direction::Down) => Some(InputId::Scale),
        (InputId::PlayPause, Direction::Right) => Some(InputId::Skip),
        (InputId::PlayPause, Direction::Left) => Some(InputId::Rewind),
        (InputId::PlayPause, Direction::Down) => Some(InputId::Scale),
        (InputId::Skip, Direction::Right) => Some(InputId::Rewind),
        (InputId::Skip, Direction::Left) => Some(InputId::PlayPause),
        (InputId::Skip, Direction::Down) => Some(InputId::Style),
        (InputId::Scale, Direction::Up) => Some(InputId::Rewind),
        (InputId::Scale, Direction::Right) => Some(InputId::Style),
        (InputId::Scale, Direction::Left) => Some(InputId::Style),
        (InputId::Scale, Direction::Down) => Some(InputId::Bpm),
        (InputId::Style, Direction::Up) => Some(InputId::Skip),
        (InputId::Style, Direction::Right) => Some(InputId::Scale),
        (InputId::Style, Direction::Left) => Some(InputId::Scale),
        (InputId::Style, Direction::Down) => Some(InputId::Length),
        (InputId::Bpm, Direction::Up) => Some(InputId::Scale),
        (InputId::Bpm, Direction::Right) => Some(InputId::Length),
        (InputId::Bpm, Direction::Left) => Some(InputId::Length),
        (InputId::Bpm, Direction::Down) => Some(InputId::Seed),
        (InputId::Length, Direction::Up) => Some(InputId::Style),
        (InputId::Length, Direction::Right) => Some(InputId::Bpm),
        (InputId::Length, Direction::Left) => Some(InputId::Bpm),
        (InputId::Length, Direction::Down) => Some(InputId::Seed),
        (InputId::Seed, Direction::Up) => Some(InputId::Bpm),
        (InputId::Seed, Direction::Down) => Some(InputId::Generate),
        (InputId::Seed, Direction::Left) => Some(InputId::Bpm),
        (InputId::Seed, Direction::Right) => Some(InputId::Length),
        (InputId::Generate, Direction::Up) => Some(InputId::Seed),
        (InputId::Generate, Direction::Down) => Some(InputId::GenerateRandom),
        (InputId::Generate, Direction::Left) => Some(InputId::Generate),
        (InputId::Generate, Direction::Right) => Some(InputId::Generate),
        (InputId::GenerateRandom, Direction::Up) => Some(InputId::Generate),
        (InputId::GenerateRandom, Direction::Down) => Some(InputId::SongLoader),
        (InputId::GenerateRandom, Direction::Left) => Some(InputId::GenerateRandom),
        (InputId::GenerateRandom, Direction::Right) => Some(InputId::GenerateRandom),
        (InputId::SongLoader, Direction::Up) => Some(InputId::GenerateRandom),
        (InputId::SongLoader, Direction::Down) => Some(InputId::SongLoader),
        (InputId::SongLoader, Direction::Left) => Some(InputId::SongLoader),
        (InputId::SongLoader, Direction::Right) => Some(InputId::SongLoader),
        _ => None,
    }
}

} // verus!
