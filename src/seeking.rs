use vstd::prelude::*;
use crate::clock::TimerConfig;

verus! {

/// What a seek asks for; two seeks match only when both fields are equal.
#[derive(Debug, Clone, Copy, PartialEq, Eq, Hash, Structural)]
pub struct SeekKey {
    pub max_points: i32,
    pub timer: TimerConfig,
}

/// Number of seeks in `q` with key `k`.
pub open spec fn count_key(q: Seq<SeekKey>, k: SeekKey) -> nat
    decreases q.len(),
{
    if q.len() == 0 {
        0
    } else {
        count_key(q.drop_last(), k) + if q.last() == k { 1nat } else { 0nat }
    }
}

/// `ix` are, in queue order, the positions of the four oldest seeks with key `k`.
pub open spec fn four_oldest(q: Seq<SeekKey>, k: SeekKey, ix: Seq<usize>) -> bool {
    &&& ix.len() == 4
    &&& forall|a: int, b: int| 0 <= a < b < 4 ==> ix[a] < ix[b]
    &&& forall|a: int| 0 <= a < 4 ==> ix[a] < q.len() && q[ix[a] as int] == k
    &&& forall|j: int| 0 <= j <= ix[3] && q[j] == k ==> exists|a: int| 0 <= a < 4 && ix[a] == j
}

/// How many queued seeks carry key `k`.
pub fn waiting_with_key(q: &Vec<SeekKey>, k: SeekKey) -> (n: usize)
    ensures
        n as nat == count_key(q@, k),
{
    let mut n: usize = 0;
    let mut i: usize = 0;
    while i < q.len()
        invariant
            0 <= i <= q@.len(),
            n as nat == count_key(q@.take(i as int), k),
            n <= i,
        decreases q@.len() - i,
    {
        assert(q@.take(i + 1).drop_last() =~= q@.take(i as int));
        if q[i] == k {
            n = n + 1;
        }
        i = i + 1;
    }
    assert(q@.take(q@.len() as int) =~= q@);
    n
}

/// Finds the four oldest seeks with key `k`, if at least four wait.
pub fn find_match(q: &Vec<SeekKey>, k: SeekKey) -> (r: Option<Vec<usize>>)
    ensures
        r is None <==> count_key(q@, k) < 4,
        r matches Some(ix) ==> four_oldest(q@, k, ix@),
{
    let mut found: Vec<usize> = Vec::new();
    let mut i: usize = 0;
    while i < q.len() && found.len() < 4
        invariant
            0 <= i <= q@.len(),
            found@.len() == count_key(q@.take(i as int), k),
            found@.len() <= 4,
            forall|a: int, b: int| 0 <= a < b < found@.len() ==> found@[a] < found@[b],
            forall|a: int| 0 <= a < found@.len() ==> found@[a] < i && q@[found@[a] as int] == k,
            forall|j: int| 0 <= j < i && q@[j] == k ==> exists|a: int| 0 <= a < found@.len() && found@[a] == j,
        decreases q@.len() - i,
    {
        assert(q@.take(i + 1).drop_last() =~= q@.take(i as int));
        let ghost before = found@;
        if q[i] == k {
            found.push(i);
            assert(found@[found@.len() - 1] == i);
        }
        assert forall|j: int| 0 <= j < i + 1 && q@[j] == k implies exists|a: int| 0 <= a < found@.len() && found@[a] == j by {
            if j < i {
                let a = choose|a: int| 0 <= a < before.len() && before[a] == j;
                assert(found@[a] == j);
            } else {
                assert(found@[found@.len() - 1] == j);
            }
        }
        i = i + 1;
    }
    if found.len() < 4 {
        assert(q@.take(i as int) =~= q@);
        None
    } else {
        proof {
            lemma_count_prefix(q@, k, i as int);
        }
        Some(found)
    }
}

proof fn lemma_count_prefix(q: Seq<SeekKey>, k: SeekKey, i: int)
    requires
        0 <= i <= q.len(),
    ensures
        count_key(q.take(i), k) <= count_key(q, k),
    decreases q.len(),
{
    if i < q.len() {
        assert(q.take(i) =~= q.drop_last().take(i));
        lemma_count_prefix(q.drop_last(), k, i);
    } else {
        assert(q.take(i) =~= q);
    }
}

} // verus!
