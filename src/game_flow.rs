use vstd::prelude::*;

use crate::constants::IntGridValues;
use crate::contact::CollisionEvent;
use crate::grid::{
    cell_at, cell_center, extract_intgrid_coordinates, is_listed, is_target, layer_matches,
    lemma_extract_single, lemma_matches_count, names_view, spec_cell_center, spec_extract,
    GridCoords, LayerInstance,
};

verus! {

/// The character of a decimal digit.
pub open spec fn digit_char(d: nat) -> char {
    if d == 0 { '0' }
    else if d == 1 { '1' }
    else if d == 2 { '2' }
    else if d == 3 { '3' }
    else if d == 4 { '4' }
    else if d == 5 { '5' }
    else if d == 6 { '6' }
    else if d == 7 { '7' }
    else if d == 8 { '8' }
    else { '9' }
}

/// `n` written in decimal, without leading zeros.
pub open spec fn decimal(n: nat) -> Seq<char>
    decreases n,
{
    if n < 10 {
        seq![digit_char(n)]
    } else {
        decimal(n / 10) + seq![digit_char(n % 10)]
    }
}

/// The identifier of the level with index `n` in the level file.
pub open spec fn level_identifier(n: nat) -> Seq<char> {
    "World_Level_"@ + decimal(n)
}

fn digit_str(d: usize) -> (r: &'static str)
    requires
        d < 10,
    ensures
        r@ == seq![digit_char(d as nat)],
{
    proof {
        reveal_strlit("0");
        reveal_strlit("1");
        reveal_strlit("2");
        reveal_strlit("3");
        reveal_strlit("4");
        reveal_strlit("5");
        reveal_strlit("6");
        reveal_strlit("7");
        reveal_strlit("8");
        reveal_strlit("9");
    }
    let r = if d == 0 { "0" }
        else if d == 1 { "1" }
        else if d == 2 { "2" }
        else if d == 3 { "3" }
        else if d == 4 { "4" }
        else if d == 5 { "5" }
        else if d == 6 { "6" }
        else if d == 7 { "7" }
        else if d == 8 { "8" }
        else { "9" };
    assert(r@ =~= seq![digit_char(d as nat)]);
    r
}

fn push_decimal(s: &mut String, n: usize)
    ensures
        final(s)@ == old(s)@ + decimal(n as nat),
    decreases n,
{
    if n >= 10 {
        push_decimal(s, n / 10);
    }
    s.append(digit_str(n % 10));
    assert(final(s)@ =~= old(s)@ + decimal(n as nat)) by {
        if n >= 10 {
            assert(decimal(n as nat) == decimal((n / 10) as nat) + seq![digit_char((n % 10) as nat)]);
        }
    }
}

/// Whether a level is being loaded or played.
#[derive(Copy, Clone, PartialEq, Eq, Debug, Structural)]
pub enum LevelPhase {
    /// Waiting for the level's assets; the player is not placed yet.
    Loading,
    /// The player is placed and playing.
    Playing,
}

/// The level progression: the current level's index and its phase.
#[derive(Copy, Clone, PartialEq, Eq, Debug, Structural)]
pub struct GameState {
    pub current_level: usize,
    pub phase: LevelPhase,
}

/// Why no spawn point could be taken from a level.
#[derive(Copy, Clone, PartialEq, Eq, Debug, Structural)]
pub enum SpawnError {
    /// The objective layer holds no spawn cell.
    Missing,
    /// The objective layer holds more than one spawn cell.
    Ambiguous,
}

/// The name of the layer that holds spawn and goal cells.
pub open spec fn objective_layer() -> Seq<char> {
    "Objective_Tiles"@
}

/// The spawn cells of a level: those of value spawn point in its objective layers.
pub open spec fn spawn_cells(layers: Seq<LayerInstance>) -> Seq<GridCoords> {
    spec_extract(layers, seq![objective_layer()], seq![IntGridValues::SpawnPoint])
}

/// The one spawn cell of a level, or why there is none.
pub open spec fn spec_spawn(cells: Seq<GridCoords>) -> Result<GridCoords, SpawnError> {
    if cells.len() == 0 {
        Err(SpawnError::Missing)
    } else if cells.len() > 1 {
        Err(SpawnError::Ambiguous)
    } else {
        Ok(cells[0])
    }
}

/// Every layer named like the objective layer is consistent.
pub open spec fn objective_wf(layers: Seq<LayerInstance>) -> bool {
    forall|l: int|
        0 <= l < layers.len() && #[trigger] layers[l].identifier@ == objective_layer()
            ==> layers[l].wf()
}

/// Takes the unique spawn cell out of the objective layer of a level: the level is
/// refused when it holds none or several.
pub fn find_spawn_point(layers: &Vec<LayerInstance>) -> (r: Result<GridCoords, SpawnError>)
    requires
        objective_wf(layers@),
    ensures
        r == spec_spawn(spawn_cells(layers@)),
{
    let names: Vec<String> = vec![String::from_str("Objective_Tiles")];
    let values: Vec<IntGridValues> = vec![IntGridValues::SpawnPoint];
    proof {
        reveal_strlit("Objective_Tiles");
        assert(values@ =~= seq![IntGridValues::SpawnPoint]);
        assert(names_view(names@) =~= seq![objective_layer()]);
        assert forall|l: int|
            0 <= l < layers@.len() && is_listed(
                #[trigger] layers@[l].identifier@,
                seq![objective_layer()],
            ) implies layers@[l].wf() by {
            let j = choose|j: int| 0 <= j < 1 && #[trigger] seq![objective_layer()][j] == layers@[l].identifier@;
            assert(j == 0);
        }
    }
    let coords = extract_intgrid_coordinates(layers, &names, &values);
    let r = if coords.len() == 0 {
        Err(SpawnError::Missing)
    } else if coords.len() > 1 {
        Err(SpawnError::Ambiguous)
    } else {
        Ok(coords[0])
    };
    r
}

/// The stored code of a spawn cell.
pub open spec fn is_spawn_code(v: i32) -> bool {
    v == 5
}

/// Spawn extraction over a level whose objective layer holds the given cells: one
/// spawn cell is found and returned, while none, or two, refuse the level.
pub proof fn law_spawn_extraction(layer: LayerInstance)
    requires
        layer.identifier@ == objective_layer(),
    ensures
        (forall|j: int|
            0 <= j < layer.int_grid_csv@.len() ==> !is_spawn_code(#[trigger] layer.int_grid_csv@[j]))
            ==> spec_spawn(spawn_cells(seq![layer])) == Err::<GridCoords, SpawnError>(SpawnError::Missing),
        forall|i: int|
            0 <= i < layer.int_grid_csv@.len() && #[trigger] is_spawn_code(layer.int_grid_csv@[i])
                && (forall|j: int|
                0 <= j < layer.int_grid_csv@.len() && j != i ==> !is_spawn_code(
                    #[trigger] layer.int_grid_csv@[j],
                )) ==> spec_spawn(spawn_cells(seq![layer])) == Ok::<GridCoords, SpawnError>(
                cell_at(i, layer.c_wid as int),
            ),
        forall|i: int, j: int|
            0 <= i < j < layer.int_grid_csv@.len() && #[trigger] is_spawn_code(layer.int_grid_csv@[i])
                && #[trigger] is_spawn_code(layer.int_grid_csv@[j]) ==> spec_spawn(
                spawn_cells(seq![layer]),
            ) == Err::<GridCoords, SpawnError>(SpawnError::Ambiguous),
{
    let values = seq![IntGridValues::SpawnPoint];
    let csv = layer.int_grid_csv@;
    let w: int = layer.c_wid as int;
    assert forall|v: i32| is_target(v, values) <==> is_spawn_code(v) by {
        if is_spawn_code(v) {
            assert(values[0].spec_code() == v as int);
        }
    }
    assert(is_listed(layer.identifier@, seq![objective_layer()])) by {
        assert(seq![objective_layer()][0] == layer.identifier@);
    }
    lemma_extract_single(layer, seq![objective_layer()], values);
    lemma_matches_count(csv, w, values);
    assert forall|i: int|
        0 <= i < csv.len() && #[trigger] is_spawn_code(csv[i]) && (forall|j: int|
            0 <= j < csv.len() && j != i ==> !is_spawn_code(#[trigger] csv[j]))
            implies spec_spawn(spawn_cells(seq![layer])) == Ok::<GridCoords, SpawnError>(cell_at(i, w)) by {
        assert(is_target(csv[i], values));
        assert(forall|j: int| 0 <= j < csv.len() && j != i ==> !is_target(#[trigger] csv[j], values));
        assert(layer_matches(csv, w, values) == seq![cell_at(i, w)]);
    }
    assert forall|i: int, j: int|
        0 <= i < j < csv.len() && #[trigger] is_spawn_code(csv[i]) && #[trigger] is_spawn_code(csv[j])
            implies spec_spawn(spawn_cells(seq![layer])) == Err::<GridCoords, SpawnError>(SpawnError::Ambiguous) by {
        assert(is_target(csv[i], values));
        assert(is_target(csv[j], values));
    }
    if forall|j: int| 0 <= j < csv.len() ==> !is_spawn_code(#[trigger] csv[j]) {
        assert(forall|j: int| 0 <= j < csv.len() ==> !is_target(#[trigger] csv[j], values));
    }
}

impl GameState {
    /// The state at start: level zero, loading.
    pub fn new() -> (r: GameState)
        ensures
            r.current_level == 0,
            r.phase == LevelPhase::Loading,
    {
        GameState { current_level: 0, phase: LevelPhase::Loading }
    }

    /// The identifier of the current level in the level file.
    pub fn current_level_identifier(&self) -> (r: String)
        ensures
            r@ == level_identifier(self.current_level as nat),
    {
        let mut s = String::from_str("World_Level_");
        proof {
            reveal_strlit("World_Level_");
        }
        push_decimal(&mut s, self.current_level);
        s
    }

    /// Jumps to level `k`, dropping the current one: the level loads anew.
    pub fn select_level(&mut self, k: usize)
        ensures
            final(self).current_level == k,
            final(self).phase == LevelPhase::Loading,
    {
        self.current_level = k;
        self.phase = LevelPhase::Loading;
    }

    /// The player reached the goal: while playing, the next level starts loading and
    /// `true` is returned, once, for the completion sound; while loading nothing
    /// changes.
    pub fn goal_contact(&mut self) -> (completed: bool)
        requires
            old(self).current_level < usize::MAX,
        ensures
            completed == (old(self).phase == LevelPhase::Playing),
            completed ==> final(self).current_level == old(self).current_level + 1
                && final(self).phase == LevelPhase::Loading,
            !completed ==> *final(self) == *old(self),
    {
        match self.phase {
            LevelPhase::Playing => {
                self.current_level = self.current_level + 1;
                self.phase = LevelPhase::Loading;
                true
            },
            LevelPhase::Loading => false,
        }
    }

    /// The level's assets are there: while loading, the spawn cell is taken from
    /// them; on success the level is played from the centre of that cell, which is
    /// returned. While playing nothing changes and `Ok(None)` comes back.
    pub fn assets_ready(&mut self, layers: &Vec<LayerInstance>) -> (r: Result<Option<(i64, i64)>, SpawnError>)
        requires
            objective_wf(layers@),
        ensures
            final(self).current_level == old(self).current_level,
            old(self).phase == LevelPhase::Playing ==> r == Ok::<Option<(i64, i64)>, SpawnError>(None)
                && final(self).phase == LevelPhase::Playing,
            old(self).phase == LevelPhase::Loading ==> match spec_spawn(spawn_cells(layers@)) {
                    Ok(c) => final(self).phase == LevelPhase::Playing && (r matches Ok(Some(p))
                        && p.0 as int == spec_cell_center(c).0 && p.1 as int == spec_cell_center(c).1),
                    Err(e) => final(self).phase == LevelPhase::Loading && r == Err::<
                        Option<(i64, i64)>,
                        SpawnError,
                    >(e),
                },
    {
        match self.phase {
            LevelPhase::Playing => Ok(None),
            LevelPhase::Loading => {
                let found = find_spawn_point(layers);
                match found {
                    Ok(c) => {
                        self.phase = LevelPhase::Playing;
                        Ok(Some(cell_center(c)))
                    },
                    Err(e) => Err(e),
                }
            },
        }
    }
}

/// Whether some event of `events` is the player starting to touch a goal.
pub open spec fn any_goal_start(events: Seq<CollisionEvent>) -> bool {
    exists|i: int| 0 <= i < events.len() && #[trigger] events[i].is_goal_start()
}

/// Handles the collision events of one tick: the first time the player starts to
/// touch a goal while playing, the level is complete and the next one loads.
/// Returns whether that happened, so that the completion sound plays once.
pub fn finish_level(state: &mut GameState, collisions: &Vec<CollisionEvent>) -> (completed: bool)
    requires
        old(state).current_level < usize::MAX,
    ensures
        completed == (old(state).phase == LevelPhase::Playing && any_goal_start(collisions@)),
        completed ==> final(state).current_level == old(state).current_level + 1
            && final(state).phase == LevelPhase::Loading,
        !completed ==> *final(state) == *old(state),
{
    let mut i: usize = 0;
    while i < collisions.len()
        invariant
            i <= collisions@.len(),
            old(state).current_level < usize::MAX,
            *state == *old(state),
            forall|k: int| 0 <= k < i ==> !(#[trigger] collisions@[k].is_goal_start()),
        decreases collisions@.len() - i,
    {
        if collisions[i].goal_reached() {
            return state.goal_contact();
        }
        i = i + 1;
    }
    false
}

/// The level that the pressed keys select, the last pressed winning; `current` when
/// none is pressed. Key `k` selects level `k`.
pub open spec fn selected_level(digits: Seq<bool>, current: nat) -> nat
    decreases digits.len(),
{
    if digits.len() == 0 {
        current
    } else if digits.last() {
        (digits.len() - 1) as nat
    } else {
        selected_level(digits.drop_last(), current)
    }
}

/// How many keys are pressed.
pub open spec fn pressed_count(digits: Seq<bool>) -> nat
    decreases digits.len(),
{
    if digits.len() == 0 {
        0
    } else {
        pressed_count(digits.drop_last()) + if digits.last() { 1nat } else { 0nat }
    }
}

/// Applies the level keys pressed this tick, in order: key `k` selects level `k` and
/// restarts it. Returns how many restarts that made.
pub fn level_selection(state: &mut GameState, digits_just_pressed: &Vec<bool>) -> (restarts: usize)
    ensures
        restarts == pressed_count(digits_just_pressed@),
        final(state).current_level == selected_level(
            digits_just_pressed@,
            old(state).current_level as nat,
        ),
        restarts > 0 ==> final(state).phase == LevelPhase::Loading,
        restarts == 0 ==> *final(state) == *old(state),
{
    let mut restarts: usize = 0;
    let mut k: usize = 0;
    while k < digits_just_pressed.len()
        invariant
            k <= digits_just_pressed@.len(),
            restarts == pressed_count(digits_just_pressed@.take(k as int)),
            restarts <= k,
            state.current_level == selected_level(
                digits_just_pressed@.take(k as int),
                old(state).current_level as nat,
            ),
            restarts > 0 ==> state.phase == LevelPhase::Loading,
            restarts == 0 ==> *state == *old(state),
        decreases digits_just_pressed@.len() - k,
    {
        assert(digits_just_pressed@.take(k + 1).drop_last() == digits_just_pressed@.take(k as int));
        if digits_just_pressed[k] {
            state.select_level(k);
            restarts = restarts + 1;
        }
        k = k + 1;
    }
    assert(digits_just_pressed@.take(digits_just_pressed@.len() as int) == digits_just_pressed@);
    restarts
}

} // verus!
