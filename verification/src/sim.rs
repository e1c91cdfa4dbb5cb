//! The simulation core: the game state, the per-tick step relation, and the
//! operations a shell drives it with.
//!
//! The step relation is written once as the spec function [`step_spec`]; every
//! executable operation is proved to realise it exactly, so a trajectory is a
//! function of the starting state and the per-tick inputs alone.

use std::collections::VecDeque;
use vstd::prelude::*;

use crate::geom::pipe_hits_player;
use crate::geom::pipe_in_range;
use crate::geom::player_hits_pipe;
use crate::geom::PipePair;
use crate::GAP_CENTER_MAX;
use crate::GAP_CENTER_MIN;
use crate::GRAVITY;
use crate::JUMP_VELOCITY;
use crate::PIPE_SPEED;
use crate::PIPE_WIDTH;
use crate::PLAYER_CENTER_X;
use crate::SCREEN_HEIGHT;
use crate::SCREEN_WIDTH;
use crate::SPAWN_THRESHOLD;

verus! {

/// The two phases of the game.  `GameOver` is recoverable: a jump request
/// resets the simulation to its start state.
#[derive(Clone, Copy, PartialEq, Eq, Structural, Debug)]
pub enum GameState {
    Playing,
    GameOver,
}

/// The whole game state: one player, one queue of obstacle pairs (front =
/// leftmost = nearest the player), one score, and one flag recording whether
/// the current front pair has already been scored.
#[derive(PartialEq, Eq, Debug)]
pub struct GameSim {
    pub game_state: GameState,
    /// Vertical position of the player's centre, in tenths of a pixel from
    /// the screen top.
    pub player_pos: i32,
    /// Vertical velocity, in tenths of a pixel per tick; positive is down.
    pub player_vel: i32,
    pub pipes: VecDeque<PipePair>,
    pub score: u64,
    pub passed_pipe: bool,
}

/// The mathematical image of a [`GameSim`]: unbounded integers and a sequence
/// in place of machine words and a queue.
#[verifier::ext_equal]
pub ghost struct SimModel {
    pub state: GameState,
    pub pos: int,
    pub vel: int,
    pub pipes: Seq<PipePair>,
    pub score: int,
    pub passed: bool,
}

impl View for GameSim {
    type V = SimModel;

    open spec fn view(&self) -> SimModel {
        SimModel {
            state: self.game_state,
            pos: self.player_pos as int,
            vel: self.player_vel as int,
            pipes: self.pipes@,
            score: self.score as int,
            passed: self.passed_pipe,
        }
    }
}

/// The start state: playing, player at mid-screen at rest, no obstacles, no
/// score.
pub open spec fn initial_model() -> SimModel {
    SimModel {
        state: GameState::Playing,
        pos: SCREEN_HEIGHT / 2,
        vel: 0,
        pipes: Seq::empty(),
        score: 0,
        passed: false,
    }
}

/// A single obstacle pair as the step relation keeps it: on screen or at most
/// one tick past the retirement line, its position a whole number of tick
/// moves, its gap centre in the spawnable band.
pub open spec fn pipe_ok(p: PipePair) -> bool {
    &&& pipe_in_range(p)
    &&& p.x % PIPE_SPEED == 0
}

/// Shape of every reachable obstacle queue: at most two pairs; the newest pair
/// has not yet passed the spawn threshold, so no third pair is ever due; and
/// when two pairs are queued the newer one still sits at the spawn position
/// while the older one is at least one spawn distance further left.
pub open spec fn pipes_wf(pipes: Seq<PipePair>) -> bool {
    &&& pipes.len() <= 2
    &&& forall|i: int| 0 <= i < pipes.len() ==> pipe_ok(#[trigger] pipes[i])
    &&& pipes.len() >= 1 ==> pipes.last().x >= SPAWN_THRESHOLD
    &&& pipes.len() == 2 ==> pipes[1].x == SCREEN_WIDTH && pipes[0].x
        <= SPAWN_THRESHOLD - PIPE_SPEED
}

/// Well-formedness of a state: while playing, the player is inside the screen
/// and the velocity is small enough that the next tick's arithmetic stays far
/// from the machine bounds; the queue always has the reachable shape.
pub open spec fn wf_model(m: SimModel) -> bool {
    &&& m.state is Playing ==> 0 <= m.pos <= SCREEN_HEIGHT
    &&& m.state is Playing ==> -SCREEN_HEIGHT <= m.vel <= SCREEN_HEIGHT
    &&& pipes_wf(m.pipes)
    &&& 0 <= m.score
}

/// The queue with its front pair moved one tick to the left (the pairs behind
/// the front do not move).
pub open spec fn moved_front(pipes: Seq<PipePair>) -> Seq<PipePair> {
    if pipes.len() == 0 {
        pipes
    } else {
        pipes.update(
            0,
            PipePair { x: (pipes[0].x - PIPE_SPEED) as i32, gap_center: pipes[0].gap_center },
        )
    }
}

/// Effect of one tick on the queue, the score and the scored flag: the front
/// pair moves left; when it first crosses the player's horizontal position it
/// scores exactly once, guarded by the flag; once fully off screen it is
/// dequeued and the flag cleared for the next pair.
pub open spec fn step_pipes(pipes: Seq<PipePair>, score: int, passed: bool) -> (Seq<PipePair>,
    int,
    bool,
) {
    if pipes.len() == 0 {
        (pipes, score, passed)
    } else {
        let fx = pipes[0].x - PIPE_SPEED;
        let scored = fx < PLAYER_CENTER_X && !passed;
        let score1 = if scored {
            score + 1
        } else {
            score
        };
        if fx < -PIPE_WIDTH {
            (moved_front(pipes).drop_first(), score1, false)
        } else {
            (moved_front(pipes), score1, passed || scored)
        }
    }
}

/// A new pair is due when the queue is empty or the newest pair has scrolled
/// past the spawn threshold.
pub open spec fn spawn_due(pipes: Seq<PipePair>) -> bool {
    pipes.len() == 0 || pipes.last().x < SPAWN_THRESHOLD
}

/// The queue after the spawn check: a due pair enters at the right screen
/// edge with the given gap centre.
pub open spec fn with_spawn(pipes: Seq<PipePair>, gap_center: i32) -> Seq<PipePair> {
    if spawn_due(pipes) {
        pipes.push(PipePair { x: SCREEN_WIDTH, gap_center })
    } else {
        pipes
    }
}

/// The step relation: the complete effect of one fixed-timestep tick on a
/// state, given the tick's two inputs — whether a jump was requested and the
/// gap centre a spawn would use.
///
/// While playing: gravity is added to the velocity and the velocity to the
/// position; a jump then overwrites the velocity.  Leaving the screen ends the
/// round at once.  Otherwise the front pair moves, scores and retires; the
/// player is tested against the front pair; and a new pair spawns if due.
/// After a lost round, a jump request resets everything; all other input is
/// ignored.
pub open spec fn step_spec(m: SimModel, jump_requested: bool, gap_center: i32) -> SimModel {
    match m.state {
        GameState::GameOver => if jump_requested {
            initial_model()
        } else {
            m
        },
        GameState::Playing => {
            let vel_after_gravity = m.vel + GRAVITY;
            let pos1 = m.pos + vel_after_gravity;
            let vel1 = if jump_requested {
                JUMP_VELOCITY as int
            } else {
                vel_after_gravity
            };
            if pos1 < 0 || pos1 > SCREEN_HEIGHT {
                SimModel {
                    state: GameState::GameOver,
                    pos: pos1,
                    vel: vel1,
                    pipes: m.pipes,
                    score: m.score,
                    passed: m.passed,
                }
            } else {
                let (pipes1, score1, passed1) = step_pipes(m.pipes, m.score, m.passed);
                let hit = pipes1.len() > 0 && player_hits_pipe(pos1, pipes1[0]);
                SimModel {
                    state: if hit {
                        GameState::GameOver
                    } else {
                        GameState::Playing
                    },
                    pos: pos1,
                    vel: vel1,
                    pipes: with_spawn(pipes1, gap_center),
                    score: score1,
                    passed: passed1,
                }
            }
        },
    }
}

/// One tick preserves well-formedness, for any jump input and any gap centre
/// in the spawnable band.
pub proof fn lemma_step_preserves_wf(m: SimModel, jump_requested: bool, gap_center: i32)
    requires
        wf_model(m),
        GAP_CENTER_MIN <= gap_center < GAP_CENTER_MAX,
    ensures
        wf_model(step_spec(m, jump_requested, gap_center)),
{
    let r = step_spec(m, jump_requested, gap_center);
    if m.state is Playing {
        let pos1 = m.pos + m.vel + GRAVITY;
        if 0 <= pos1 <= SCREEN_HEIGHT {
            let (pipes1, score1, passed1) = step_pipes(m.pipes, m.score, m.passed);
            let pipes2 = with_spawn(pipes1, gap_center);
            if m.pipes.len() == 0 {
                assert(pipes_wf(pipes2));
            } else {
                assert(pipe_ok(m.pipes[0]));
                let fx = m.pipes[0].x - PIPE_SPEED;
                if m.pipes.len() == 1 {
                    // The sole pair is also the newest, so it has not passed
                    // the spawn threshold yet and cannot be retiring.
                    assert(m.pipes.last() == m.pipes[0]);
                    assert(fx >= SPAWN_THRESHOLD - PIPE_SPEED);
                    assert(!(fx < -PIPE_WIDTH));
                    assert(pipes1 =~= moved_front(m.pipes));
                    assert(pipes1.len() == 1 && pipes1[0].x == fx);
                    if fx < SPAWN_THRESHOLD {
                        assert(pipes2 == pipes1.push(
                            PipePair { x: SCREEN_WIDTH, gap_center },
                        ));
                        assert(pipes2.len() == 2 && pipes2[1].x == SCREEN_WIDTH);
                        assert(pipes2[0].x <= SPAWN_THRESHOLD - PIPE_SPEED);
                        assert(pipes_wf(pipes2));
                    } else {
                        assert(pipes2 == pipes1);
                        assert(pipes_wf(pipes2));
                    }
                } else {
                    assert(m.pipes.len() == 2);
                    assert(pipe_ok(m.pipes[1]));
                    assert(m.pipes[1].x == SCREEN_WIDTH && m.pipes[0].x <= SPAWN_THRESHOLD
                        - PIPE_SPEED);
                    if fx < -PIPE_WIDTH {
                        assert(pipes1 =~= seq![m.pipes[1]]);
                        assert(!spawn_due(pipes1));
                        assert(pipes2 == pipes1);
                        assert(pipes_wf(pipes2));
                    } else {
                        assert(pipes1 =~= moved_front(m.pipes));
                        assert(pipes1.len() == 2 && pipes1[1] == m.pipes[1]);
                        assert(pipes1[0].x == fx && fx <= SPAWN_THRESHOLD - PIPE_SPEED);
                        assert(!spawn_due(pipes1));
                        assert(pipes2 == pipes1);
                        assert(pipes_wf(pipes2));
                    }
                }
            }
        }
    }
}

impl GameSim {
    /// Well-formedness of the executable state: its mathematical image is
    /// well formed.
    pub open spec fn wf(&self) -> bool {
        wf_model(self@)
    }

    /// A fresh simulation in the start state.
    pub fn new() -> (s: GameSim)
        ensures
            s@ == initial_model(),
            s.wf(),
    {
        GameSim {
            game_state: GameState::Playing,
            player_pos: SCREEN_HEIGHT / 2,
            player_vel: 0,
            pipes: VecDeque::new(),
            score: 0,
            passed_pipe: false,
        }
    }

    /// Reinitialise every field to its start value.
    pub fn reset(&mut self)
        ensures
            final(self)@ == initial_model(),
            final(self).wf(),
    {
        self.game_state = GameState::Playing;
        self.player_pos = SCREEN_HEIGHT / 2;
        self.player_vel = 0;
        self.pipes.clear();
        self.score = 0;
        self.passed_pipe = false;
    }

    /// One fixed-timestep tick with the gap centre for a possible spawn given
    /// by the caller: exactly the step relation, deterministically.
    pub fn advance_with_gap(&mut self, jump_requested: bool, gap_center: i32)
        requires
            old(self).wf(),
            GAP_CENTER_MIN <= gap_center < GAP_CENTER_MAX,
            old(self).score < u64::MAX,
        ensures
            final(self)@ == step_spec(old(self)@, jump_requested, gap_center),
            final(self).wf(),
    {
        proof {
            lemma_step_preserves_wf(old(self)@, jump_requested, gap_center);
        }
        match self.game_state {
            GameState::GameOver => {
                if jump_requested {
                    self.reset();
                }
            },
            GameState::Playing => {
                self.player_vel = self.player_vel + GRAVITY;
                self.player_pos = self.player_pos + self.player_vel;
                if jump_requested {
                    self.player_vel = JUMP_VELOCITY;
                }
                if self.player_pos < 0 || self.player_pos > SCREEN_HEIGHT {
                    self.game_state = GameState::GameOver;
                } else {
                    if self.pipes.len() > 0 {
                        proof {
                            assert(pipe_ok(old(self)@.pipes[0]));
                        }
                        let mut front = self.pipes[0];
                        front.x = front.x - PIPE_SPEED;
                        let _ = self.pipes.pop_front();
                        if front.x < PLAYER_CENTER_X && !self.passed_pipe {
                            self.score = self.score + 1;
                            self.passed_pipe = true;
                        }
                        if front.x < -PIPE_WIDTH {
                            self.passed_pipe = false;
                        } else {
                            self.pipes.push_front(front);
                            proof {
                                assert(self@.pipes =~= moved_front(old(self)@.pipes));
                            }
                        }
                    }
                    proof {
                        assert(self@.pipes == step_pipes(
                            old(self)@.pipes,
                            old(self)@.score,
                            old(self)@.passed,
                        ).0);
                    }
                    if self.pipes.len() > 0 {
                        let f = self.pipes[0];
                        proof {
                            if old(self)@.pipes.len() == 2 {
                                assert(pipe_ok(old(self)@.pipes[1]));
                            }
                        }
                        if pipe_hits_player(self.player_pos, &f) {
                            self.game_state = GameState::GameOver;
                        }
                    }
                    let len: usize = self.pipes.len();
                    let due: bool = if len == 0 {
                        true
                    } else {
                        self.pipes[len - 1].x < SPAWN_THRESHOLD
                    };
                    if due {
                        self.pipes.push_back(PipePair { x: SCREEN_WIDTH, gap_center });
                    }
                }
            },
        }
        proof {
            assert(self@ =~= step_spec(old(self)@, jump_requested, gap_center));
        }
    }

    /// One fixed-timestep tick as the shell calls it: the gap centre for a
    /// possible spawn is drawn uniformly from the spawnable band, and the
    /// result is the step relation at some such gap centre.
    pub fn advance(&mut self, jump_requested: bool)
        requires
            old(self).wf(),
            old(self).score < u64::MAX,
        ensures
            final(self).wf(),
            exists|g: i32|
                GAP_CENTER_MIN <= g < GAP_CENTER_MAX && final(self)@ == #[trigger] step_spec(
                    old(self)@,
                    jump_requested,
                    g,
                ),
    {
        let gap_center = sample_gap_center();
        self.advance_with_gap(jump_requested, gap_center);
    }

    /// A discrete jump-key press outside the fixed-step loop: while playing it
    /// applies the jump impulse at once; after a lost round it resets.
    pub fn on_jump_pressed(&mut self)
        requires
            old(self).wf(),
        ensures
            final(self).wf(),
            (old(self)@.state is Playing) ==> final(self)@ == (SimModel {
                vel: JUMP_VELOCITY as int,
                ..old(self)@
            }),
            (old(self)@.state is GameOver) ==> final(self)@ == initial_model(),
    {
        match self.game_state {
            GameState::Playing => {
                self.player_vel = JUMP_VELOCITY;
            },
            GameState::GameOver => {
                self.reset();
            },
        }
    }
}

/// Relies on rand::Rng::gen_range (through rand::thread_rng) over the
/// constant non-empty integer range: the sample lies in the half-open range
/// [GAP_CENTER_MIN, GAP_CENTER_MAX).
#[verifier::external_body]
fn sample_gap_center() -> (r: i32)
    ensures
        GAP_CENTER_MIN <= r < GAP_CENTER_MAX,
{
    rand::Rng::gen_range(&mut rand::thread_rng(), GAP_CENTER_MIN..GAP_CENTER_MAX)
}

} // verus!
