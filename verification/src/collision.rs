use vstd::prelude::*;
use crate::entities::DrawCmd;
use crate::entities::EnemySpaceShip;
use crate::entities::cmd;

verus! {

/// No enemy of the roster occupies column `c`.
pub open spec fn no_hit(s: Seq<EnemySpaceShip>, c: u16) -> bool {
    forall|i: int| 0 <= i < s.len() ==> (#[trigger] s[i]).position.0 != c
}

/// `post` is `pre` with the enemy at index `j` taken out, where that
/// enemy sat at `p` in column `c` and no earlier enemy was in column `c`.
pub open spec fn removes_hit_at(
    pre: Seq<EnemySpaceShip>,
    post: Seq<EnemySpaceShip>,
    c: u16,
    p: (u16, u16),
    j: int,
) -> bool {
    &&& 0 <= j < pre.len()
    &&& pre[j].position == p
    &&& p.0 == c
    &&& no_hit(pre.subrange(0, j), c)
    &&& post == pre.remove(j)
}

/// `post` is `pre` with exactly the first enemy in column `c` removed,
/// and that enemy sat at `p`.
pub open spec fn removes_first_hit(
    pre: Seq<EnemySpaceShip>,
    post: Seq<EnemySpaceShip>,
    c: u16,
    p: (u16, u16),
) -> bool {
    exists|j: int| #[trigger] removes_hit_at(pre, post, c, p, j)
}

/// How one shot at column `c` changes the roster: either the first enemy
/// in that column leaves, and `hit` reports where it sat, or no enemy is
/// in that column and the roster stands as it was.
pub open spec fn shot_rel(
    pre: Seq<EnemySpaceShip>,
    post: Seq<EnemySpaceShip>,
    c: u16,
    hit: Option<(u16, u16)>,
) -> bool {
    match hit {
        Some(p) => removes_first_hit(pre, post, c, p),
        None => post == pre && no_hit(pre, c),
    }
}

/// Remove the first enemy whose column equals `column`, if there is one,
/// and report where it sat.
pub fn resolve_shot(enemies: &mut Vec<EnemySpaceShip>, column: u16) -> (hit: Option<(u16, u16)>)
    ensures
        shot_rel(old(enemies)@, final(enemies)@, column, hit),
{
    let n = enemies.len();
    let mut i: usize = 0;
    while i < n
        invariant
            enemies@ == old(enemies)@,
            n == enemies@.len(),
            i <= n,
            forall|k: int| 0 <= k < i ==> (#[trigger] enemies@[k]).position.0 != column,
        decreases n - i,
    {
        if enemies[i].position.0 == column {
            let e = enemies[i];
            let ghost pre = enemies@;
            enemies.remove(i);
            proof {
                let ss = pre.subrange(0, i as int);
                assert forall|k: int|
                    0 <= k < ss.len() implies (#[trigger] ss[k]).position.0 != column by {
                    assert(ss[k] == pre[k]);
                }
                assert(removes_hit_at(pre, enemies@, column, e.position, i as int));
            }
            return Some(e.position);
        }
        i += 1;
    }
    None
}

/// The projectile's travel: drawn at the row just above the bottom, then
/// every third row upward while rows remain, each glyph erased again
/// right after it is drawn.
pub open spec fn travel_cmds(c: u16, r: int) -> Seq<DrawCmd>
    decreases r,
{
    if r >= 4 {
        seq![cmd(c, r as u16, '|'), cmd(c, r as u16, ' ')] + travel_cmds(c, r - 3)
    } else if r >= 1 {
        seq![cmd(c, r as u16, '|'), cmd(c, r as u16, ' ')]
    } else {
        Seq::empty()
    }
}

/// Build the travel animation's draw commands for a shot from column
/// `column` on a board `height` rows tall.
pub fn travel_commands(column: u16, height: u16) -> (cmds: Vec<DrawCmd>)
    requires
        height > 3,
    ensures
        cmds@ == travel_cmds(column, height - 1),
{
    let mut cmds: Vec<DrawCmd> = Vec::new();
    let mut r: u16 = height - 1;
    proof {
        assert(cmds@ + travel_cmds(column, r as int) =~= travel_cmds(column, height - 1));
    }
    while r >= 4
        invariant
            1 <= r,
            cmds@ + travel_cmds(column, r as int) =~= travel_cmds(column, height - 1),
        decreases r,
    {
        let ghost before = cmds@;
        cmds.push(DrawCmd { col: column, row: r, glyph: '|' });
        cmds.push(DrawCmd { col: column, row: r, glyph: ' ' });
        proof {
            assert(cmds@ =~= before + seq![cmd(column, r, '|'), cmd(column, r, ' ')]);
            assert(cmds@ + travel_cmds(column, r - 3) =~= travel_cmds(column, height - 1));
        }
        r = r - 3;
    }
    let ghost before = cmds@;
    cmds.push(DrawCmd { col: column, row: r, glyph: '|' });
    cmds.push(DrawCmd { col: column, row: r, glyph: ' ' });
    proof {
        assert(cmds@ =~= before + seq![cmd(column, r, '|'), cmd(column, r, ' ')]);
        assert(cmds@ =~= travel_cmds(column, height - 1));
    }
    cmds
}

/// The draw commands of one whole shot: the erase of the enemy that was
/// hit, if one was, followed by the travel animation.
pub open spec fn shot_cmds(c: u16, height: u16, hit: Option<(u16, u16)>) -> Seq<DrawCmd> {
    (match hit {
        Some(p) => seq![cmd(p.0, p.1, ' ')],
        None => Seq::<DrawCmd>::empty(),
    }) + travel_cmds(c, height - 1)
}

/// A shot at column `c` touches at most one enemy: the roster shrinks by
/// exactly one, the enemy that left sat in column `c`, every enemy in
/// another column is still present, and nothing new appears.
pub proof fn lemma_shot_spares_others(
    pre: Seq<EnemySpaceShip>,
    post: Seq<EnemySpaceShip>,
    c: u16,
    p: (u16, u16),
)
    requires
        removes_first_hit(pre, post, c, p),
    ensures
        post.len() == pre.len() - 1,
        p.0 == c,
        forall|i: int|
            0 <= i < pre.len() && (#[trigger] pre[i]).position.0 != c ==> post.contains(pre[i]),
        forall|i: int| 0 <= i < post.len() ==> pre.contains(#[trigger] post[i]),
{
    let j = choose|j: int| removes_hit_at(pre, post, c, p, j);
    pre.remove_ensures(j);
    assert forall|i: int|
        0 <= i < pre.len() && (#[trigger] pre[i]).position.0 != c implies post.contains(pre[i]) by {
        if i < j {
            assert(post[i] == pre[i]);
        } else {
            assert(i != j);
            assert(post[i - 1] == pre[i]);
        }
    }
    assert forall|i: int| 0 <= i < post.len() implies pre.contains(#[trigger] post[i]) by {
        if i < j {
            assert(post[i] == pre[i]);
        } else {
            assert(post[i] == pre[i + 1]);
        }
    }
}

/// A shot can only take enemies away, so a tickable roster stays
/// tickable through it.
pub proof fn lemma_tickable_after_shot(
    pre: Seq<EnemySpaceShip>,
    post: Seq<EnemySpaceShip>,
    c: u16,
    hit: Option<(u16, u16)>,
)
    requires
        crate::motion::tickable(pre),
        shot_rel(pre, post, c, hit),
    ensures
        crate::motion::tickable(post),
{
    match hit {
        Some(p) => {
            let j = choose|j: int| removes_hit_at(pre, post, c, p, j);
            pre.remove_ensures(j);
            assert forall|i: int| 0 <= i < post.len() implies (#[trigger] post[i]).position.1 + 2
                <= u16::MAX by {
                if i < j {
                    assert(post[i] == pre[i]);
                } else {
                    assert(post[i] == pre[i + 1]);
                }
            }
        },
        None => {},
    }
}

} // verus!
