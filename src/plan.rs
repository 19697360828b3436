//! The ordering of subscription tiers.

use vstd::prelude::*;

verus! {

/// The tiers by name, each with its rank; ranks rise along the table.
pub open spec fn plan_table() -> Seq<(Seq<char>, u8)> {
    seq![("free"@, 0u8), ("pro"@, 1u8), ("team"@, 2u8), ("enterprise"@, 3u8)]
}

/// The rank given to `p` by the first entry of `t` that names it; 0 if none does.
pub open spec fn rank_in(t: Seq<(Seq<char>, u8)>, p: Seq<char>) -> u8
    decreases t.len(),
{
    if t.len() == 0 {
        0
    } else if t[0].0 == p {
        t[0].1
    } else {
        rank_in(t.drop_first(), p)
    }
}

/// The rank of a plan name; an unknown name ranks at 0.
pub open spec fn plan_rank(p: Seq<char>) -> u8 {
    rank_in(plan_table(), p)
}

pub open spec fn is_known_plan(p: Seq<char>) -> bool {
    exists|i: int| 0 <= i < plan_table().len() && #[trigger] plan_table()[i].0 == p
}

/// A user on plan `have` may use what plan `need` gives.
pub open spec fn plan_meets(have: Seq<char>, need: Seq<char>) -> bool {
    plan_rank(have) >= plan_rank(need)
}

pub open spec fn levels_view(v: Seq<(&'static str, u8)>) -> Seq<(Seq<char>, u8)> {
    v.map_values(|e: (&'static str, u8)| (e.0@, e.1))
}

/// The tier table, lowest tier first.
pub fn plan_levels() -> (r: Vec<(&'static str, u8)>)
    ensures
        levels_view(r@) == plan_table(),
{
    let r = vec![("free", 0u8), ("pro", 1u8), ("team", 2u8), ("enterprise", 3u8)];
    assert(levels_view(r@) =~= plan_table());
    r
}

/// Whether `a` and `b` hold the same characters.
pub fn same_text(a: &str, b: &str) -> (r: bool)
    ensures
        r == (a@ == b@),
{
    let n = a.unicode_len();
    if n != b.unicode_len() {
        return false;
    }
    let mut i: usize = 0;
    while i < n
        invariant
            n == a@.len(),
            n == b@.len(),
            i <= n,
            forall|j: int| 0 <= j < i ==> a@[j] == b@[j],
        decreases n - i,
    {
        if a.get_char(i) != b.get_char(i) {
            return false;
        }
        i += 1;
    }
    assert(a@ =~= b@);
    true
}

/// The rank of the plan named `p`, 0 for a name the table does not hold.
pub fn plan_level(p: &str) -> (r: u8)
    ensures
        r == plan_rank(p@),
{
    let levels = plan_levels();
    let ghost t = levels_view(levels@);
    let mut i: usize = 0;
    assert(t.skip(0) =~= t);
    while i < levels.len()
        invariant
            i <= levels@.len(),
            t == levels_view(levels@),
            t == plan_table(),
            rank_in(t, p@) == rank_in(t.skip(i as int), p@),
        decreases levels@.len() - i,
    {
        let (name, rank) = levels[i];
        assert(t.skip(i as int)[0] == (name@, rank));
        if same_text(name, p) {
            return rank;
        }
        assert(t.skip(i as int).drop_first() =~= t.skip(i + 1));
        i += 1;
    }
    assert(t.skip(i as int).len() == 0);
    0
}

/// Every plan meets itself; between two ranks the higher meets the lower
/// and not the reverse; a name outside the table ranks at 0, so two unknown
/// names meet each other.
pub proof fn lemma_plan_order(a: Seq<char>, b: Seq<char>)
    ensures
        plan_meets(a, a),
        plan_rank(a) < plan_rank(b) ==> plan_meets(b, a) && !plan_meets(a, b),
        !is_known_plan(a) ==> plan_rank(a) == 0,
        !is_known_plan(a) && !is_known_plan(b) ==> plan_meets(a, b) && plan_meets(b, a),
{
    lemma_unknown_rank(a);
    lemma_unknown_rank(b);
}

proof fn lemma_unknown_rank(a: Seq<char>)
    ensures
        !is_known_plan(a) ==> plan_rank(a) == 0,
{
    let t = plan_table();
    if !is_known_plan(a) {
        assert(t[0].0 != a);
        assert(t[1].0 != a);
        assert(t[2].0 != a);
        assert(t[3].0 != a);
        let t1 = t.drop_first();
        let t2 = t1.drop_first();
        let t3 = t2.drop_first();
        let t4 = t3.drop_first();
        assert(t1[0] == t[1]);
        assert(t2[0] == t[2]);
        assert(t3[0] == t[3]);
        assert(t4.len() == 0);
        assert(rank_in(t4, a) == 0);
        assert(rank_in(t3, a) == 0);
        assert(rank_in(t2, a) == 0);
        assert(rank_in(t1, a) == 0);
    }
}

/// The known tiers rank 0, 1, 2 and 3, lowest first.
pub proof fn lemma_known_ranks()
    ensures
        plan_rank("free"@) == 0,
        plan_rank("pro"@) == 1,
        plan_rank("team"@) == 2,
        plan_rank("enterprise"@) == 3,
        forall|i: int| 0 <= i < plan_table().len() ==> plan_rank(#[trigger] plan_table()[i].0) == i,
{
    reveal_strlit("free");
    reveal_strlit("pro");
    reveal_strlit("team");
    reveal_strlit("enterprise");
    let t = plan_table();
    let t1 = t.drop_first();
    let t2 = t1.drop_first();
    let t3 = t2.drop_first();
    assert(t[0].0.len() == 4 && t[0].0[0] == 'f');
    assert(t[1].0.len() == 3);
    assert(t[2].0.len() == 4 && t[2].0[0] == 't');
    assert(t[3].0.len() == 10);
    assert(t1[0] == t[1]);
    assert(t2[0] == t[2]);
    assert(t3[0] == t[3]);
    assert(rank_in(t3, t[3].0) == 3);
    assert(rank_in(t2, t[3].0) == 3);
    assert(rank_in(t1, t[3].0) == 3);
    assert(rank_in(t2, t[2].0) == 2);
    assert(rank_in(t1, t[2].0) == 2);
    assert(rank_in(t1, t[1].0) == 1);
}

} // verus!
