use vstd::prelude::*;
use core::cmp::Ordering;

verus! {

/// Dimensions of the play field, fixed for a whole session.
///
/// The top three rows form the band in which enemies spawn, so a
/// well-formed board is wider than zero and taller than three rows.
#[derive(Clone, Copy, Debug)]
pub struct Board {
    pub width: u16,
    pub height: u16,
}

impl Board {
    pub open spec fn wf(self) -> bool {
        self.width > 0 && self.height > 3
    }

    pub fn new(width: u16, height: u16) -> (b: Board)
        requires
            width > 0,
            height > 3,
        ensures
            b.width == width,
            b.height == height,
            b.wf(),
    {
        Board { width, height }
    }
}

/// The player's ship. It never leaves the bottom row, so a single
/// horizontal coordinate is all the state it carries.
#[derive(Clone, Copy, Debug)]
pub struct Player {
    pub position: u16,
}

impl Player {
    pub fn new(position: u16) -> (p: Player)
        ensures
            p.position == position,
    {
        Player { position }
    }
}

/// One descending enemy ship; `position` is `(x, y)` in terminal cells.
#[derive(Clone, Copy, Debug, PartialEq, Eq)]
pub struct EnemySpaceShip {
    pub position: (u16, u16),
}

impl EnemySpaceShip {
    pub fn new(position: (u16, u16)) -> (e: EnemySpaceShip)
        ensures
            e.position == position,
    {
        EnemySpaceShip { position }
    }
}

/// The processing order over enemies: an enemy lower on the screen
/// (higher `y`) comes first; among enemies on one row, the one further
/// left (lower `x`) comes first.
pub open spec fn enemy_lt(a: EnemySpaceShip, b: EnemySpaceShip) -> bool {
    b.position.1 < a.position.1 || (a.position.1 == b.position.1 && a.position.0 < b.position.0)
}

/// Non-strict companion of `enemy_lt`.
pub open spec fn enemy_le(a: EnemySpaceShip, b: EnemySpaceShip) -> bool {
    !enemy_lt(b, a)
}

/// A sequence of enemies arranged by the processing order.
pub open spec fn sorted_enemies(s: Seq<EnemySpaceShip>) -> bool {
    forall|i: int, j: int| #![trigger s[i], s[j]] 0 <= i < j < s.len() ==> enemy_le(s[i], s[j])
}

impl PartialOrd for EnemySpaceShip {
    // sort by higher y, then by lower x
    fn partial_cmp(&self, other: &Self) -> (r: Option<Ordering>) {
        if other.position.1 < self.position.1 {
            Some(Ordering::Less)
        } else if self.position.1 == other.position.1 {
            if self.position.0 < other.position.0 {
                Some(Ordering::Less)
            } else if self.position.0 == other.position.0 {
                Some(Ordering::Equal)
            } else {
                Some(Ordering::Greater)
            }
        } else {
            Some(Ordering::Greater)
        }
    }
}

impl vstd::std_specs::cmp::PartialOrdSpecImpl for EnemySpaceShip {
    open spec fn obeys_partial_cmp_spec() -> bool {
        true
    }

    open spec fn partial_cmp_spec(&self, other: &Self) -> Option<Ordering> {
        if enemy_lt(*self, *other) {
            Some(Ordering::Less)
        } else if enemy_lt(*other, *self) {
            Some(Ordering::Greater)
        } else {
            Some(Ordering::Equal)
        }
    }
}

/// Decide the processing order between two enemies.
pub fn enemy_precedes(a: &EnemySpaceShip, b: &EnemySpaceShip) -> (r: bool)
    ensures
        r == enemy_lt(*a, *b),
{
    matches!(a.partial_cmp(b), Some(Ordering::Less))
}

/// The processing order is a strict total order: no enemy precedes
/// itself, of two enemies at distinct positions exactly one precedes the
/// other, and the order is transitive.
pub proof fn lemma_enemy_order_strict_total(a: EnemySpaceShip, b: EnemySpaceShip, c: EnemySpaceShip)
    ensures
        !enemy_lt(a, a),
        a.position != b.position ==> (enemy_lt(a, b) <==> !enemy_lt(b, a)),
        a.position == b.position ==> !enemy_lt(a, b) && !enemy_lt(b, a),
        enemy_lt(a, b) && enemy_lt(b, c) ==> enemy_lt(a, c),
{
}

/// The overall outcome of a session; play never ends on its own, so the
/// only outcome that exists is a session still in progress.
#[derive(Clone, Copy, Debug)]
pub enum GameResult {
    InProgress,
}

/// One cell write for the renderer: put `glyph` at column `col` of row
/// `row`. Erasing a cell is drawing a space there.
#[derive(Clone, Copy, Debug, PartialEq, Eq)]
pub struct DrawCmd {
    pub col: u16,
    pub row: u16,
    pub glyph: char,
}

/// Shorthand for building one draw command in contracts.
pub open spec fn cmd(col: u16, row: u16, glyph: char) -> DrawCmd {
    DrawCmd { col, row, glyph }
}

} // verus!
