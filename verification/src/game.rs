use vstd::prelude::*;
use crate::collision::resolve_shot;
use crate::collision::shot_cmds;
use crate::collision::shot_rel;
use crate::collision::travel_commands;
use crate::entities::Board;
use crate::entities::DrawCmd;
use crate::entities::EnemySpaceShip;
use crate::entities::GameResult;
use crate::entities::Player;
use crate::entities::cmd;
use crate::entities::sorted_enemies;
use crate::collision::lemma_tickable_after_shot;
use crate::motion::advance_enemy;
use crate::motion::all_ticked;
use crate::motion::lemma_tickable_permutation;
use crate::motion::sort_by_order;
use crate::motion::tick_cmds;
use crate::motion::tick_rel;
use crate::motion::tickable;
use crate::rng::fresh_rng;
use crate::rng::gen_range_u16;

verus! {

/// A whole play session: the board, the player, the descending enemies,
/// the session's random source, and the overall outcome.
pub struct Game {
    pub board: Board,
    pub player: Player,
    pub enemies: Vec<EnemySpaceShip>,
    pub random: rand::rngs::ThreadRng,
    pub game_result: GameResult,
}

/// The draw commands of one player move: erase the ship where it was,
/// draw it where it now is.
pub open spec fn move_cmds(from: u16, to: u16, row: u16) -> Seq<DrawCmd> {
    seq![cmd(from, row, ' '), cmd(to, row, '^')]
}

/// One key of input, as far as the frame loop tells keys apart.
#[derive(Clone, Copy, Debug, PartialEq, Eq)]
pub enum InputKey {
    Left,
    Right,
    Char(char),
    Other,
}

/// What one frame hands to the renderer: whether the quit key ended the
/// session, and the frame's draw commands in order.
pub struct FrameOutput {
    pub quit: bool,
    pub cmds: Vec<DrawCmd>,
}

/// A roster holding the same enemies as `pre`, arranged in the
/// processing order.
pub open spec fn sorted_arrangement(pre: Seq<EnemySpaceShip>, mid: Seq<EnemySpaceShip>) -> bool {
    &&& sorted_enemies(mid)
    &&& mid.to_multiset() == pre.to_multiset()
    &&& mid.len() == pre.len()
}

/// What the frame does after its sorting phase, given the sorted roster
/// `mid`: the input is applied — a move steps the player, a shot may
/// remove one enemy — and then every enemy is ticked once, the draw
/// commands coming in that order.
pub open spec fn frame_after_sort(
    mid: Seq<EnemySpaceShip>,
    input: Option<InputKey>,
    column: u16,
    board: Board,
    post: Seq<EnemySpaceShip>,
    cmds: Seq<DrawCmd>,
) -> bool {
    match input {
        Some(InputKey::Left) => all_ticked(mid, post, board.width) && cmds == move_cmds(
            column,
            (column - 3) as u16,
            board.height,
        ) + tick_cmds(mid, post),
        Some(InputKey::Right) => all_ticked(mid, post, board.width) && cmds == move_cmds(
            column,
            (column + 3) as u16,
            board.height,
        ) + tick_cmds(mid, post),
        Some(InputKey::Char(ch)) => if ch == ' ' {
            exists|mid2: Seq<EnemySpaceShip>, hit: Option<(u16, u16)>|
                {
                    &&& #[trigger] shot_rel(mid, mid2, column, hit)
                    &&& all_ticked(mid2, post, board.width)
                    &&& cmds == shot_cmds(column, board.height, hit) + tick_cmds(mid2, post)
                }
        } else {
            all_ticked(mid, post, board.width) && cmds == tick_cmds(mid, post)
        },
        _ => all_ticked(mid, post, board.width) && cmds == tick_cmds(mid, post),
    }
}

/// One whole frame over the roster: it is arranged in the processing
/// order, the input is applied, and every enemy is ticked once.
pub open spec fn frame_rel(
    pre: Seq<EnemySpaceShip>,
    input: Option<InputKey>,
    column: u16,
    board: Board,
    post: Seq<EnemySpaceShip>,
    cmds: Seq<DrawCmd>,
) -> bool {
    exists|mid: Seq<EnemySpaceShip>|
        {
            &&& #[trigger] sorted_arrangement(pre, mid)
            &&& frame_after_sort(mid, input, column, board, post, cmds)
        }
}

impl Game {
    pub open spec fn wf(self) -> bool {
        self.board.wf()
    }

    /// Every enemy has room to drop two rows without leaving `u16`.
    pub open spec fn enemies_tickable(self) -> bool {
        tickable(self.enemies@)
    }

    /// Start a session on a board of the given dimensions: the player at
    /// the horizontal center, and a random count of enemies, fewer than
    /// three per column, each placed in the three-row spawn band.
    pub fn new(width: u16, height: u16) -> (g: Game)
        requires
            width > 0,
            height > 3,
            3 * width <= u16::MAX,
        ensures
            g.wf(),
            g.board.width == width,
            g.board.height == height,
            g.player.position == width - width / 2,
            g.enemies@.len() < 3 * width,
            forall|i: int|
                0 <= i < g.enemies@.len() ==> ((#[trigger] g.enemies@[i]).position.0 < width
                    && g.enemies@[i].position.1 < 3),
            g.game_result is InProgress,
    {
        let mut random = fresh_rng();
        let count = gen_range_u16(&mut random, 0, 3 * width);
        let mut enemies: Vec<EnemySpaceShip> = Vec::new();
        let mut k: u16 = 0;
        while k < count
            invariant
                k <= count,
                count < 3 * width,
                width > 0,
                enemies@.len() == k,
                forall|i: int|
                    0 <= i < enemies@.len() ==> ((#[trigger] enemies@[i]).position.0 < width
                        && enemies@[i].position.1 < 3),
            decreases count - k,
        {
            let x = gen_range_u16(&mut random, 0, width);
            let y = gen_range_u16(&mut random, 0, 3);
            enemies.push(EnemySpaceShip::new((x, y)));
            k = k + 1;
        }
        Game {
            board: Board::new(width, height),
            player: Player::new(width - width / 2),
            enemies,
            random,
            game_result: GameResult::InProgress,
        }
    }

    /// Start a session with a chosen roster in place of the random one.
    pub fn with_enemies(width: u16, height: u16, enemies: Vec<EnemySpaceShip>) -> (g: Game)
        requires
            width > 0,
            height > 3,
        ensures
            g.wf(),
            g.board.width == width,
            g.board.height == height,
            g.player.position == width - width / 2,
            g.enemies@ == enemies@,
            g.game_result is InProgress,
    {
        Game {
            board: Board::new(width, height),
            player: Player::new(width - width / 2),
            enemies,
            random: fresh_rng(),
            game_result: GameResult::InProgress,
        }
    }

    pub fn game_result(&self) -> (r: GameResult)
        ensures
            r == self.game_result,
    {
        self.game_result
    }

    /// Arrange the enemies in the processing order.
    pub fn sort_enemies(&mut self)
        ensures
            final(self).board == old(self).board,
            final(self).player == old(self).player,
            final(self).game_result == old(self).game_result,
            sorted_enemies(final(self).enemies@),
            final(self).enemies@.to_multiset() == old(self).enemies@.to_multiset(),
            final(self).enemies@.len() == old(self).enemies@.len(),
    {
        sort_by_order(&mut self.enemies);
    }

    /// Step the player three columns to the left, and report the erase
    /// and redraw of its glyph on the bottom row.
    pub fn move_left(&mut self) -> (cmds: Vec<DrawCmd>)
        requires
            old(self).player.position >= 3,
        ensures
            final(self).board == old(self).board,
            final(self).game_result == old(self).game_result,
            final(self).enemies@ == old(self).enemies@,
            final(self).player.position == old(self).player.position - 3,
            cmds@ == move_cmds(
                old(self).player.position,
                (old(self).player.position - 3) as u16,
                old(self).board.height,
            ),
    {
        let from = self.player.position;
        self.player.position = from - 3;
        let mut cmds: Vec<DrawCmd> = Vec::new();
        cmds.push(DrawCmd { col: from, row: self.board.height, glyph: ' ' });
        cmds.push(DrawCmd { col: self.player.position, row: self.board.height, glyph: '^' });
        proof {
            assert(cmds@ =~= move_cmds(from, (from - 3) as u16, self.board.height));
        }
        cmds
    }

    /// Step the player three columns to the right, and report the erase
    /// and redraw of its glyph on the bottom row.
    pub fn move_right(&mut self) -> (cmds: Vec<DrawCmd>)
        requires
            old(self).player.position + 3 <= u16::MAX,
        ensures
            final(self).board == old(self).board,
            final(self).game_result == old(self).game_result,
            final(self).enemies@ == old(self).enemies@,
            final(self).player.position == old(self).player.position + 3,
            cmds@ == move_cmds(
                old(self).player.position,
                (old(self).player.position + 3) as u16,
                old(self).board.height,
            ),
    {
        let from = self.player.position;
        self.player.position = from + 3;
        let mut cmds: Vec<DrawCmd> = Vec::new();
        cmds.push(DrawCmd { col: from, row: self.board.height, glyph: ' ' });
        cmds.push(DrawCmd { col: self.player.position, row: self.board.height, glyph: '^' });
        proof {
            assert(cmds@ =~= move_cmds(from, (from + 3) as u16, self.board.height));
        }
        cmds
    }

    /// Fire a projectile straight up from the player's column: the first
    /// enemy in that column leaves the roster, and the commands erase it
    /// and then play the travel animation up the board.
    pub fn fire(&mut self) -> (r: (Option<(u16, u16)>, Vec<DrawCmd>))
        requires
            old(self).wf(),
        ensures
            final(self).board == old(self).board,
            final(self).player == old(self).player,
            final(self).game_result == old(self).game_result,
            shot_rel(old(self).enemies@, final(self).enemies@, old(self).player.position, r.0),
            r.1@ == shot_cmds(old(self).player.position, old(self).board.height, r.0),
    {
        let column = self.player.position;
        let hit = resolve_shot(&mut self.enemies, column);
        let mut cmds: Vec<DrawCmd> = Vec::new();
        if let Some(p) = hit {
            cmds.push(DrawCmd { col: p.0, row: p.1, glyph: ' ' });
        }
        let mut travel = travel_commands(column, self.board.height);
        cmds.append(&mut travel);
        proof {
            assert(cmds@ =~= shot_cmds(column, self.board.height, hit));
        }
        (hit, cmds)
    }

    /// Advance every enemy by one tick, in roster order, each preceded
    /// by the erase of its old glyph and followed by the draw of its new
    /// one.
    pub fn tick_enemies(&mut self) -> (cmds: Vec<DrawCmd>)
        requires
            old(self).wf(),
            old(self).enemies_tickable(),
        ensures
            final(self).board == old(self).board,
            final(self).player == old(self).player,
            final(self).game_result == old(self).game_result,
            all_ticked(old(self).enemies@, final(self).enemies@, old(self).board.width),
            cmds@ == tick_cmds(old(self).enemies@, final(self).enemies@),
    {
        let mut cmds: Vec<DrawCmd> = Vec::new();
        let n = self.enemies.len();
        let mut k: usize = 0;
        while k < n
            invariant
                k <= n,
                n == self.enemies@.len(),
                n == old(self).enemies@.len(),
                self.board == old(self).board,
                self.player == old(self).player,
                self.game_result == old(self).game_result,
                old(self).enemies_tickable(),
                forall|t: int| k <= t < n ==> self.enemies@[t] == old(self).enemies@[t],
                forall|t: int|
                    0 <= t < k ==> tick_rel(
                        #[trigger] old(self).enemies@[t],
                        self.enemies@[t],
                        old(self).board.width,
                    ),
                cmds@.len() == 2 * k,
                forall|i: int|
                    0 <= i < 2 * k ==> cmds@[i] == (if i % 2 == 0 {
                        cmd(
                            old(self).enemies@[i / 2].position.0,
                            old(self).enemies@[i / 2].position.1,
                            ' ',
                        )
                    } else {
                        cmd(self.enemies@[i / 2].position.0, self.enemies@[i / 2].position.1, '*')
                    }),
            decreases n - k,
        {
            let e = self.enemies[k];
            proof {
                assert(self.enemies@[k as int] == old(self).enemies@[k as int]);
                assert(old(self).enemies@[k as int].position.1 + 2 <= u16::MAX);
            }
            cmds.push(DrawCmd { col: e.position.0, row: e.position.1, glyph: ' ' });
            let mut e2 = e;
            advance_enemy(&mut e2, &self.board, &mut self.random);
            self.enemies.set(k, e2);
            cmds.push(DrawCmd { col: e2.position.0, row: e2.position.1, glyph: '*' });
            k += 1;
        }
        proof {
            assert(cmds@ =~= tick_cmds(old(self).enemies@, self.enemies@));
        }
        cmds
    }

    /// Run one iteration of the frame loop on one polled input (`None`
    /// when the poll timed out): the roster is arranged in the
    /// processing order, the input is applied, and every enemy is ticked
    /// once. The quit key ends the session right after the arranging,
    /// before anything moves. With no input, and with any input short of
    /// a move key, the player stands still, and the enemies change only
    /// by the unconditional tick.
    pub fn frame(&mut self, input: Option<InputKey>) -> (out: FrameOutput)
        requires
            old(self).wf(),
            old(self).enemies_tickable(),
            input == Some(InputKey::Left) ==> old(self).player.position >= 3,
            input == Some(InputKey::Right) ==> old(self).player.position + 3 <= u16::MAX,
        ensures
            final(self).board == old(self).board,
            final(self).game_result == old(self).game_result,
            out.quit <==> input == Some(InputKey::Char('q')),
            final(self).player.position == (match input {
                Some(InputKey::Left) => old(self).player.position - 3,
                Some(InputKey::Right) => old(self).player.position + 3,
                _ => old(self).player.position as int,
            }),
            out.quit ==> sorted_arrangement(old(self).enemies@, final(self).enemies@)
                && out.cmds@ == Seq::<DrawCmd>::empty(),
            !out.quit ==> frame_rel(
                old(self).enemies@,
                input,
                old(self).player.position,
                old(self).board,
                final(self).enemies@,
                out.cmds@,
            ),
    {
        let ghost pre = self.enemies@;
        let ghost column = self.player.position;
        let ghost board = self.board;
        self.sort_enemies();
        let ghost mid = self.enemies@;
        proof {
            assert(sorted_arrangement(pre, mid));
            lemma_tickable_permutation(pre, mid);
        }
        match input {
            Some(InputKey::Left) => {
                let mut cmds = self.move_left();
                let mut tick = self.tick_enemies();
                cmds.append(&mut tick);
                proof {
                    assert(frame_after_sort(mid, input, column, board, self.enemies@, cmds@));
                }
                FrameOutput { quit: false, cmds }
            },
            Some(InputKey::Right) => {
                let mut cmds = self.move_right();
                let mut tick = self.tick_enemies();
                cmds.append(&mut tick);
                proof {
                    assert(frame_after_sort(mid, input, column, board, self.enemies@, cmds@));
                }
                FrameOutput { quit: false, cmds }
            },
            Some(InputKey::Char(ch)) => {
                if ch == 'q' {
                    FrameOutput { quit: true, cmds: Vec::new() }
                } else if ch == ' ' {
                    let (hit, mut cmds) = self.fire();
                    let ghost mid2 = self.enemies@;
                    proof {
                        lemma_tickable_after_shot(mid, mid2, column, hit);
                    }
                    let mut tick = self.tick_enemies();
                    cmds.append(&mut tick);
                    proof {
                        assert(shot_rel(mid, mid2, column, hit));
                        assert(frame_after_sort(mid, input, column, board, self.enemies@, cmds@));
                    }
                    FrameOutput { quit: false, cmds }
                } else {
                    let cmds = self.tick_enemies();
                    proof {
                        assert(frame_after_sort(mid, input, column, board, self.enemies@, cmds@));
                    }
                    FrameOutput { quit: false, cmds }
                }
            },
            _ => {
                let cmds = self.tick_enemies();
                proof {
                    assert(frame_after_sort(mid, input, column, board, self.enemies@, cmds@));
                }
                FrameOutput { quit: false, cmds }
            },
        }
    }
}

} // verus!
