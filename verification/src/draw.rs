//! Rendering as data: a pure read of the state produces the exact list of
//! drawing commands for one frame, and the shell only has to execute them.
//! Coordinates and scales are in tenths (of a pixel, and of the text's unit
//! scale).

use vstd::prelude::*;

use crate::geom::spec_bottom_rect;
use crate::geom::spec_player_rect;
use crate::geom::spec_top_rect;
use crate::geom::bottom_rect;
use crate::geom::player_rect;
use crate::geom::top_rect;
use crate::geom::PipePair;
use crate::geom::Rect;
use crate::sim::GameSim;
use crate::sim::GameState;
use crate::sim::SimModel;
use crate::SCREEN_HEIGHT;
use crate::SCREEN_WIDTH;

verus! {

/// The fixed palette.
#[derive(Clone, Copy, PartialEq, Eq, Structural, Debug)]
pub enum Tint {
    Red,
    Green,
    Black,
}

/// One drawing command.  Text is carried as what it says, not as a rendered
/// string: the shell formats and rasterises.
#[derive(Clone, Copy, PartialEq, Eq, Structural, Debug)]
pub enum DrawCmd {
    /// Fill an axis-aligned rectangle.
    FillRect { rect: Rect, tint: Tint },
    /// The running score, anchored top-left.
    ScoreLabel { score: u64, x: i32, y: i32, scale: i32 },
    /// The banner announcing the lost round.
    GameOverLabel { x: i32, y: i32, scale: i32 },
    /// The final score under the banner.
    FinalScoreLabel { score: u64, x: i32, y: i32, scale: i32 },
    /// The restart prompt.
    RestartLabel { x: i32, y: i32, scale: i32 },
}

/// The two rectangles that draw one obstacle pair: top first, then bottom.
pub open spec fn pipe_cmds(p: PipePair) -> Seq<DrawCmd> {
    seq![
        DrawCmd::FillRect { rect: spec_top_rect(p), tint: Tint::Green },
        DrawCmd::FillRect { rect: spec_bottom_rect(p), tint: Tint::Green },
    ]
}

/// The rectangles of a whole queue, front pair first.
pub open spec fn pipes_cmds(pipes: Seq<PipePair>) -> Seq<DrawCmd>
    decreases pipes.len(),
{
    if pipes.len() == 0 {
        Seq::empty()
    } else {
        pipes_cmds(pipes.drop_last()) + pipe_cmds(pipes.last())
    }
}

/// The frame for one state.  While playing: the player square, every queued
/// rectangle, and the running score.  After a lost round: the banner, the
/// final score and the restart prompt, each centred on its line.
pub open spec fn frame_cmds(m: SimModel) -> Seq<DrawCmd> {
    match m.state {
        GameState::Playing => seq![
            DrawCmd::FillRect { rect: spec_player_rect(m.pos), tint: Tint::Red },
        ] + pipes_cmds(m.pipes) + seq![
            DrawCmd::ScoreLabel { score: m.score as u64, x: 100, y: 100, scale: 15 },
        ],
        GameState::GameOver => seq![
            DrawCmd::GameOverLabel {
                x: (SCREEN_WIDTH / 2 - 500) as i32,
                y: (SCREEN_HEIGHT / 2 - 500) as i32,
                scale: 20,
            },
            DrawCmd::FinalScoreLabel {
                score: m.score as u64,
                x: (SCREEN_WIDTH / 2 - 700) as i32,
                y: (SCREEN_HEIGHT / 2) as i32,
                scale: 15,
            },
            DrawCmd::RestartLabel {
                x: (SCREEN_WIDTH / 2 - 1000) as i32,
                y: (SCREEN_HEIGHT / 2 + 500) as i32,
                scale: 15,
            },
        ],
    }
}

impl GameSim {
    /// The exact list of commands that draws the current frame.
    pub fn draw_commands(&self) -> (cmds: Vec<DrawCmd>)
        requires
            self.wf(),
        ensures
            cmds@ == frame_cmds(self@),
    {
        let mut cmds: Vec<DrawCmd> = Vec::new();
        match self.game_state {
            GameState::Playing => {
                let pr = player_rect(self.player_pos);
                cmds.push(DrawCmd::FillRect { rect: pr, tint: Tint::Red });
                let len: usize = self.pipes.len();
                let mut i: usize = 0;
                while i < len
                    invariant
                        self.wf(),
                        len == self.pipes.len(),
                        0 <= i <= len,
                        cmds@ == seq![
                            DrawCmd::FillRect {
                                rect: spec_player_rect(self@.pos),
                                tint: Tint::Red,
                            },
                        ] + pipes_cmds(self@.pipes.take(i as int)),
                    decreases len - i,
                {
                    let p = self.pipes[i];
                    proof {
                        assert(crate::sim::pipe_ok(self@.pipes[i as int]));
                    }
                    cmds.push(DrawCmd::FillRect { rect: top_rect(&p), tint: Tint::Green });
                    cmds.push(DrawCmd::FillRect { rect: bottom_rect(&p), tint: Tint::Green });
                    proof {
                        let taken = self@.pipes.take(i as int + 1);
                        assert(taken.drop_last() =~= self@.pipes.take(i as int));
                        assert(taken.last() == self@.pipes[i as int]);
                    }
                    i = i + 1;
                }
                proof {
                    assert(self@.pipes.take(len as int) =~= self@.pipes);
                }
                cmds.push(DrawCmd::ScoreLabel { score: self.score, x: 100, y: 100, scale: 15 });
                proof {
                    assert(cmds@ =~= frame_cmds(self@));
                }
            },
            GameState::GameOver => {
                cmds.push(DrawCmd::GameOverLabel {
                    x: SCREEN_WIDTH / 2 - 500,
                    y: SCREEN_HEIGHT / 2 - 500,
                    scale: 20,
                });
                cmds.push(DrawCmd::FinalScoreLabel {
                    score: self.score,
                    x: SCREEN_WIDTH / 2 - 700,
                    y: SCREEN_HEIGHT / 2,
                    scale: 15,
                });
                cmds.push(DrawCmd::RestartLabel {
                    x: SCREEN_WIDTH / 2 - 1000,
                    y: SCREEN_HEIGHT / 2 + 500,
                    scale: 15,
                });
                proof {
                    assert(cmds@ =~= frame_cmds(self@));
                }
            },
        }
        cmds
    }
}

} // verus!
