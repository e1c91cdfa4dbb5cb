//! The laws the simulation obeys, stated over the step relation and proved
//! once and for all: determinism, the boundary invariant, scoring
//! idempotence, first-in-first-out dequeuing, and the exact spawn spacing.

use vstd::prelude::*;

use crate::geom::PipePair;
use crate::sim::initial_model;
use crate::sim::moved_front;
use crate::sim::step_spec;
use crate::sim::wf_model;
use crate::sim::SimModel;
use crate::GAP_CENTER_MAX;
use crate::GAP_CENTER_MIN;
use crate::GRAVITY;
use crate::PIPE_SPEED;
use crate::PIPE_WIDTH;
use crate::SCREEN_HEIGHT;
use crate::SCREEN_WIDTH;
use crate::SPAWN_DISTANCE;

verus! {

/// The per-tick inputs: whether a jump was requested, and the gap centre a
/// spawn would use.
#[verifier::ext_equal]
pub ghost struct TickInput {
    pub jump: bool,
    pub gap_center: i32,
}

/// Every gap centre of the input sequence lies in the spawnable band.
pub open spec fn inputs_valid(inputs: Seq<TickInput>) -> bool {
    forall|i: int|
        0 <= i < inputs.len() ==> GAP_CENTER_MIN <= (#[trigger] inputs[i]).gap_center
            < GAP_CENTER_MAX
}

/// The trajectory: the state after running the step relation through a whole
/// input sequence.
pub open spec fn run_spec(m: SimModel, inputs: Seq<TickInput>) -> SimModel
    decreases inputs.len(),
{
    if inputs.len() == 0 {
        m
    } else {
        run_spec(step_spec(m, inputs[0].jump, inputs[0].gap_center), inputs.drop_first())
    }
}

/// Physics determinism: the step relation is a function of the present state
/// and the tick's inputs alone, so equal states fed equal inputs take equal
/// successor states.
pub proof fn lemma_step_deterministic(m1: SimModel, m2: SimModel, jump: bool, gap_center: i32)
    requires
        m1 == m2,
    ensures
        step_spec(m1, jump, gap_center) == step_spec(m2, jump, gap_center),
{
}

/// Physics determinism over whole runs: a replayed input sequence reproduces
/// the trajectory exactly.
pub proof fn lemma_run_deterministic(
    m1: SimModel,
    m2: SimModel,
    inputs1: Seq<TickInput>,
    inputs2: Seq<TickInput>,
)
    requires
        m1 == m2,
        inputs1 == inputs2,
    ensures
        run_spec(m1, inputs1) == run_spec(m2, inputs2),
{
}

/// Well-formedness holds of every state reachable from a well-formed state
/// through valid inputs.
pub proof fn lemma_run_preserves_wf(m: SimModel, inputs: Seq<TickInput>)
    requires
        wf_model(m),
        inputs_valid(inputs),
    ensures
        wf_model(run_spec(m, inputs)),
    decreases inputs.len(),
{
    if inputs.len() > 0 {
        crate::sim::lemma_step_preserves_wf(m, inputs[0].jump, inputs[0].gap_center);
        assert(inputs_valid(inputs.drop_first()));
        lemma_run_preserves_wf(
            step_spec(m, inputs[0].jump, inputs[0].gap_center),
            inputs.drop_first(),
        );
    }
}

/// Boundary invariant: every state reachable from the start state keeps the
/// player inside the closed screen interval for as long as play continues,
/// and a position outside that interval is found only after the round has
/// ended.
pub proof fn lemma_reachable_in_bounds(inputs: Seq<TickInput>)
    requires
        inputs_valid(inputs),
    ensures
        (run_spec(initial_model(), inputs).state is Playing) ==> 0 <= run_spec(
            initial_model(),
            inputs,
        ).pos <= SCREEN_HEIGHT,
        !(0 <= run_spec(initial_model(), inputs).pos <= SCREEN_HEIGHT) ==> (run_spec(
            initial_model(),
            inputs,
        ).state is GameOver),
{
    lemma_run_preserves_wf(initial_model(), inputs);
    let r = run_spec(initial_model(), inputs);
    if !(0 <= r.pos <= SCREEN_HEIGHT) {
        assert(!(r.state is Playing));
        assert(r.state is GameOver);
    }
}

/// Scoring idempotence: once the front pair has been scored, any further tick
/// that keeps it at the front of the queue leaves the score unchanged and the
/// scored flag set.
pub proof fn lemma_score_at_most_once(m: SimModel, jump: bool, gap_center: i32)
    requires
        wf_model(m),
        m.state is Playing,
        m.passed,
        m.pipes.len() >= 1,
        m.pipes[0].x - PIPE_SPEED >= -PIPE_WIDTH,
    ensures
        step_spec(m, jump, gap_center).score == m.score,
        step_spec(m, jump, gap_center).passed,
{
}

/// The queue after one tick relates to the queue before it (with its front
/// pair moved) by dropping at most one pair from the front and appending at
/// most one freshly spawned pair at the back, every surviving pair keeping
/// its order.
pub open spec fn fifo_witness(before: Seq<PipePair>, after: Seq<PipePair>, k: int, n: int) -> bool {
    &&& 0 <= k <= 1
    &&& 0 <= n <= 1
    &&& k <= before.len()
    &&& after.len() == before.len() - k + n
    &&& (forall|i: int| 0 <= i < before.len() - k ==> after[i] == #[trigger] before[i + k])
    &&& (n == 1 ==> after.last().x == SCREEN_WIDTH)
}

pub open spec fn fifo_step(before: Seq<PipePair>, after: Seq<PipePair>) -> bool {
    exists|k: int, n: int| fifo_witness(before, after, k, n)
}

/// Queue monotonicity: obstacle pairs leave the queue in the order they
/// entered it.  A tick either leaves the queue untouched (the round ended at
/// the boundary) or performs a first-in-first-out step: it dequeues only the
/// front pair and enqueues only at the back.
pub proof fn lemma_queue_fifo(m: SimModel, jump: bool, gap_center: i32)
    requires
        wf_model(m),
        m.state is Playing,
    ensures
        step_spec(m, jump, gap_center).pipes == m.pipes || fifo_step(
            moved_front(m.pipes),
            step_spec(m, jump, gap_center).pipes,
        ),
{
    let r = step_spec(m, jump, gap_center);
    let pos1 = m.pos + m.vel + GRAVITY;
    if 0 <= pos1 <= SCREEN_HEIGHT {
        let before = moved_front(m.pipes);
        if m.pipes.len() == 0 {
            assert(r.pipes =~= before.push(PipePair { x: SCREEN_WIDTH, gap_center }));
            assert(fifo_witness(before, r.pipes, 0, 1));
        } else {
            let fx = m.pipes[0].x - PIPE_SPEED;
            let popped: int = if fx < -PIPE_WIDTH {
                1
            } else {
                0
            };
            let pipes1 = if fx < -PIPE_WIDTH {
                before.drop_first()
            } else {
                before
            };
            let spawned: int = if crate::sim::spawn_due(pipes1) {
                1
            } else {
                0
            };
            assert(fifo_witness(before, r.pipes, popped, spawned)) by {
                assert(r.pipes.len() == before.len() - popped + spawned);
                assert(forall|i: int|
                    0 <= i < before.len() - popped ==> r.pipes[i] == #[trigger] before[i + popped]);
            }
        }
    }
}

/// Spawn spacing: whenever a freshly spawned pair joins a pair already in the
/// queue, the horizontal distance between the two is exactly the spawn
/// distance plus one tick's movement — the older pair triggers the spawn on
/// the first tick that carries it strictly past the spawn threshold.
pub proof fn lemma_spawn_spacing(m: SimModel, jump: bool, gap_center: i32)
    requires
        wf_model(m),
        m.state is Playing,
    ensures
        (step_spec(m, jump, gap_center).pipes.len() == 2 && m.pipes.len() < 2) ==> step_spec(
            m,
            jump,
            gap_center,
        ).pipes[1].x - step_spec(m, jump, gap_center).pipes[0].x == SPAWN_DISTANCE + PIPE_SPEED,
{
    let r = step_spec(m, jump, gap_center);
    if r.pipes.len() == 2 && m.pipes.len() < 2 {
        assert(m.pipes.len() == 1);
        assert(crate::sim::pipe_ok(m.pipes[0]));
    }
}

/// With no jump requested the player falls: while the round continues, a tick
/// strictly increases the position and keeps the velocity growing, and a tick
/// that carries the player past the bottom of the screen ends the round.
pub proof fn lemma_falling(m: SimModel, gap_center: i32)
    requires
        wf_model(m),
        m.state is Playing,
        m.vel >= 0,
    ensures
        step_spec(m, false, gap_center).pos == m.pos + m.vel + GRAVITY,
        step_spec(m, false, gap_center).pos > m.pos,
        step_spec(m, false, gap_center).vel == m.vel + GRAVITY,
        step_spec(m, false, gap_center).pos > SCREEN_HEIGHT ==> (step_spec(
            m,
            false,
            gap_center,
        ).state is GameOver),
{
}

/// After a lost round, a tick without a jump request changes nothing: the
/// position, the score and the queue all stay as they were.
pub proof fn lemma_game_over_is_frozen(m: SimModel, gap_center: i32)
    requires
        m.state is GameOver,
    ensures
        step_spec(m, false, gap_center) == m,
{
}

/// After a lost round, a tick with a jump request restores the start state
/// completely.
pub proof fn lemma_game_over_restart(m: SimModel, gap_center: i32)
    requires
        m.state is GameOver,
    ensures
        step_spec(m, true, gap_center) == initial_model(),
{
}

} // verus!
