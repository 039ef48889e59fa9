use vstd::prelude::*;
use crate::entities::Board;
use crate::entities::DrawCmd;
use crate::entities::EnemySpaceShip;
use crate::entities::cmd;
use crate::entities::enemy_le;
use crate::entities::enemy_lt;
use crate::entities::enemy_precedes;
use crate::entities::sorted_enemies;
use crate::rng::gen_range_u16;

verus! {

/// One tick of the motion policy, as a relation between an enemy's
/// position before and after the tick: an enemy that has reached the
/// left boundary (`x < 6`) wraps to the right edge and drops down one or
/// two rows; any other enemy drifts between one and five columns
/// leftward and stays on its row.
pub open spec fn tick_rel(pre: EnemySpaceShip, post: EnemySpaceShip, width: u16) -> bool {
    if pre.position.0 < 6 {
        post.position.0 == width && pre.position.1 + 1 <= post.position.1 <= pre.position.1 + 2
    } else {
        pre.position.0 - 5 <= post.position.0 <= pre.position.0 - 1 && post.position.1
            == pre.position.1
    }
}

/// Two same-length rosters where each enemy has been ticked exactly once.
pub open spec fn all_ticked(
    pre: Seq<EnemySpaceShip>,
    post: Seq<EnemySpaceShip>,
    width: u16,
) -> bool {
    &&& post.len() == pre.len()
    &&& forall|i: int| 0 <= i < pre.len() ==> tick_rel(#[trigger] pre[i], #[trigger] post[i], width)
}

/// Every enemy of the roster has room to drop two rows without leaving
/// `u16`.
pub open spec fn tickable(s: Seq<EnemySpaceShip>) -> bool {
    forall|i: int| 0 <= i < s.len() ==> (#[trigger] s[i]).position.1 + 2 <= u16::MAX
}

/// Rearranging a roster cannot make it lose room to drop: a roster drawn
/// from the same multiset is tickable whenever the first one is.
pub proof fn lemma_tickable_permutation(a: Seq<EnemySpaceShip>, b: Seq<EnemySpaceShip>)
    requires
        tickable(a),
        a.to_multiset() == b.to_multiset(),
    ensures
        tickable(b),
{
    broadcast use vstd::seq_lib::group_to_multiset_ensures;

    assert forall|i: int| 0 <= i < b.len() implies (#[trigger] b[i]).position.1 + 2
        <= u16::MAX by {
        assert(b.contains(b[i]));
        assert(a.to_multiset().count(b[i]) > 0);
        assert(a.contains(b[i]));
        let j = choose|j: int| 0 <= j < a.len() && a[j] == b[i];
        assert(a[j].position.1 + 2 <= u16::MAX);
    }
}

/// A roster has exactly one arrangement in the processing order: two
/// sorted rosters of the same enemies are the same sequence. This is
/// what makes the per-frame iteration order deterministic.
pub proof fn lemma_sorted_arrangement_unique(a: Seq<EnemySpaceShip>, b: Seq<EnemySpaceShip>)
    requires
        sorted_enemies(a),
        sorted_enemies(b),
        a.to_multiset() == b.to_multiset(),
    ensures
        a == b,
{
    let leq = |x: EnemySpaceShip, y: EnemySpaceShip| enemy_le(x, y);
    assert forall|x: EnemySpaceShip, y: EnemySpaceShip| #[trigger]
        leq(x, y) && #[trigger] leq(y, x) implies x == y by {
        assert(x.position.0 == y.position.0 && x.position.1 == y.position.1);
        assert(x.position == y.position);
    }
    assert(vstd::relations::total_ordering(leq));
    assert(vstd::relations::sorted_by(a, leq));
    assert(vstd::relations::sorted_by(b, leq));
    vstd::seq_lib::lemma_sorted_unique(a, b, leq);
    assert(a =~= b);
}

/// The draw commands of one tick phase: for each enemy in turn, erase
/// it where it stood, then draw it where it landed.
pub open spec fn tick_cmds(pre: Seq<EnemySpaceShip>, post: Seq<EnemySpaceShip>) -> Seq<DrawCmd> {
    Seq::new(
        2 * pre.len(),
        |i: int|
            if i % 2 == 0 {
                cmd(pre[i / 2].position.0, pre[i / 2].position.1, ' ')
            } else {
                cmd(post[i / 2].position.0, post[i / 2].position.1, '*')
            },
    )
}

/// Advance one enemy by one tick. The step sizes are drawn fresh from
/// the generator, so only the tick relation is promised, not the exact
/// landing cell.
pub fn advance_enemy(e: &mut EnemySpaceShip, board: &Board, rng: &mut rand::rngs::ThreadRng)
    requires
        old(e).position.1 + 2 <= u16::MAX,
    ensures
        tick_rel(*old(e), *final(e), board.width),
{
    if e.position.0 < 6 {
        let step = gen_range_u16(rng, 1, 3);
        e.position = (board.width, e.position.1 + step);
    } else {
        let step = gen_range_u16(rng, 1, 6);
        e.position = (e.position.0 - step, e.position.1);
    }
}

/// Arrange the roster in the processing order by insertion sort. The
/// same enemies come back, merely rearranged; as the order tells every
/// pair of distinct positions apart, the arrangement is the one the
/// order dictates.
pub fn sort_by_order(v: &mut Vec<EnemySpaceShip>)
    ensures
        sorted_enemies(final(v)@),
        final(v)@.to_multiset() == old(v)@.to_multiset(),
        final(v)@.len() == old(v)@.len(),
{
    let n = v.len();
    if n <= 1 {
        return;
    }
    let mut i: usize = 1;
    while i < n
        invariant
            1 <= i <= n,
            n == v@.len(),
            v@.to_multiset() == old(v)@.to_multiset(),
            sorted_enemies(v@.take(i as int)),
        decreases n - i,
    {
        let x = v[i];
        let ghost s = v@;
        let mut j: usize = i;
        while j > 0
            invariant
                j <= i < n,
                n == v@.len(),
                v@ == s,
                forall|k: int| j <= k < i ==> enemy_lt(x, #[trigger] s[k]),
            ensures
                j <= i,
                v@ == s,
                forall|k: int| j <= k < i ==> enemy_lt(x, #[trigger] s[k]),
                j == 0 || !enemy_lt(x, s[j - 1]),
            decreases j,
        {
            if !enemy_precedes(&x, &v[j - 1]) {
                break;
            }
            j -= 1;
        }
        v.remove(i);
        v.insert(j, x);
        proof {
            broadcast use vstd::seq_lib::group_to_multiset_ensures;
            broadcast use vstd::multiset::group_multiset_axioms;

            let s2 = s.remove(i as int);
            let s3 = s2.insert(j as int, x);
            assert(v@ == s3);
            assert(s[i as int] == x);
            assert(s.contains(x));
            assert(s3.to_multiset() =~= s.to_multiset());
            s.remove_ensures(i as int);
            s2.insert_ensures(j as int, x);
            let sp = s.take(i as int);
            let t = s3.take(i as int + 1);
            assert forall|a: int, b: int| 0 <= a < b <= i implies enemy_le(t[a], t[b]) by {
                assert(t[a] == s3[a]);
                assert(t[b] == s3[b]);
                if b < j {
                    assert(s3[a] == s[a] && s3[b] == s[b]);
                    assert(sp[a] == s[a] && sp[b] == s[b]);
                } else if b == j {
                    assert(s3[b] == x);
                    assert(s3[a] == s[a]);
                    assert(sp[a] == s[a]);
                    if a < j - 1 {
                        assert(sp[j - 1] == s[j - 1]);
                    }
                } else {
                    assert(s3[b] == s[b - 1]);
                    assert(sp[b - 1] == s[b - 1]);
                    if a < j {
                        assert(s3[a] == s[a]);
                        assert(sp[a] == s[a]);
                    } else if a == j {
                        assert(s3[a] == x);
                        assert(enemy_lt(x, s[b - 1]));
                    } else {
                        assert(s3[a] == s[a - 1]);
                        assert(sp[a - 1] == s[a - 1]);
                    }
                }
            }
            assert(sorted_enemies(t));
        }
        i += 1;
    }
    proof {
        assert(v@.take(n as int) =~= v@);
    }
}

} // verus!
