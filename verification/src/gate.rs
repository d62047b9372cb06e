//! The loading gate: a two-state machine that moves the application from its
//! loading screen to the game screen exactly once, on the first tick that
//! reports all tracked assets loaded, and never back.

use vstd::prelude::*;

verus! {

/// The application's screen: it starts in `Loading` and moves to `Game`
/// exactly once, forward only.
#[derive(Clone, Copy, Debug, PartialEq, Eq, Structural)]
pub enum Screen {
    /// Waiting for the tracked assets; nothing is spawned yet.
    Loading,
    /// The scene is spawned and the per-tick orbit and aiming updates run.
    Game,
}

/// The screen after one gate tick that read `all_done` from the asset
/// tracker: `Loading` advances to `Game` exactly when `all_done` holds, and
/// `Game` is absorbing.
pub open spec fn gate_step(screen: Screen, all_done: bool) -> Screen {
    match screen {
        Screen::Loading => if all_done {
            Screen::Game
        } else {
            Screen::Loading
        },
        Screen::Game => Screen::Game,
    }
}

/// Whether one gate tick spawns the scene: only on the transition itself.
pub open spec fn gate_spawns(screen: Screen, all_done: bool) -> bool {
    screen is Loading && all_done
}

/// The screen after a whole sequence of gate ticks, one per reading.
pub open spec fn run_gate(screen: Screen, readings: Seq<bool>) -> Screen
    decreases readings.len(),
{
    if readings.len() == 0 {
        screen
    } else {
        run_gate(gate_step(screen, readings[0]), readings.drop_first())
    }
}

/// How many of the ticks over `readings` spawn the scene.
pub open spec fn spawn_count(screen: Screen, readings: Seq<bool>) -> nat
    decreases readings.len(),
{
    if readings.len() == 0 {
        0
    } else {
        (if gate_spawns(screen, readings[0]) {
            1nat
        } else {
            0nat
        }) + spawn_count(gate_step(screen, readings[0]), readings.drop_first())
    }
}

/// The game screen is absorbing: once entered, any further readings leave the
/// screen unchanged and spawn nothing more.
pub proof fn lemma_game_absorbing(readings: Seq<bool>)
    ensures
        run_gate(Screen::Game, readings) == Screen::Game,
        spawn_count(Screen::Game, readings) == 0,
    decreases readings.len(),
{
    if readings.len() > 0 {
        lemma_game_absorbing(readings.drop_first());
    }
}

/// While the asset tracker keeps answering false, any number of ticks leaves
/// the application in the loading screen and spawns nothing.
pub proof fn lemma_loading_persists(readings: Seq<bool>)
    requires
        forall|i: int| 0 <= i < readings.len() ==> !readings[i],
    ensures
        run_gate(Screen::Loading, readings) == Screen::Loading,
        spawn_count(Screen::Loading, readings) == 0,
    decreases readings.len(),
{
    if readings.len() > 0 {
        assert(!readings[0]);
        assert forall|i: int| 0 <= i < readings.drop_first().len() implies !readings.drop_first()[i] by {
            assert(readings.drop_first()[i] == readings[i + 1]);
        }
        lemma_loading_persists(readings.drop_first());
    }
}

/// A loading screen that ever reads true reaches the game screen and spawns:
/// together with the law below, exactly once.
pub proof fn lemma_spawns_when_done(readings: Seq<bool>)
    requires
        exists|i: int| 0 <= i < readings.len() && readings[i],
    ensures
        run_gate(Screen::Loading, readings) == Screen::Game,
        spawn_count(Screen::Loading, readings) == 1,
    decreases readings.len(),
{
    if readings[0] {
        lemma_game_absorbing(readings.drop_first());
    } else {
        let i = choose|i: int| 0 <= i < readings.len() && readings[i];
        assert(readings.drop_first()[i - 1] == readings[i]);
        lemma_spawns_when_done(readings.drop_first());
    }
}

/// However the readings run, the scene is spawned at most once: the first
/// true reading moves the machine to the game screen, and later true readings do
/// not re-trigger the spawn.
pub proof fn lemma_spawn_at_most_once(screen: Screen, readings: Seq<bool>)
    ensures
        spawn_count(screen, readings) <= 1,
    decreases readings.len(),
{
    if readings.len() > 0 {
        if gate_spawns(screen, readings[0]) {
            lemma_game_absorbing(readings.drop_first());
        } else {
            lemma_spawn_at_most_once(gate_step(screen, readings[0]), readings.drop_first());
        }
    }
}

} // verus!
