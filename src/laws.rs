use crate::grading::normal_form;
use crate::quiz::{index_after, QuizState};
use crate::verb::Verb;
use vstd::arithmetic::div_mod::{
    lemma_add_mod_noop_right, lemma_mod_add_multiples_vanish, lemma_small_mod,
};
use vstd::prelude::*;
use vstd::seq_lib::lemma_multiset_commutative;

verus! {

/// After `n` advances from position `i` of a list of `k` verbs, the position
/// is `(i + n) mod k`.
pub proof fn lemma_index_after_is_offset(i: nat, k: nat, n: nat)
    requires
        i < k,
    ensures
        index_after(i, k, n) == (i + n) % k,
    decreases n,
{
    if n == 0 {
        lemma_small_mod(i, k);
    } else {
        lemma_index_after_is_offset(i, k, (n - 1) as nat);
        let y: int = i + n - 1;
        lemma_add_mod_noop_right(1, y, k as int);
        assert(1 + y % (k as int) == y % (k as int) + 1);
        assert(1 + y == i + n);
    }
}

/// Advancing `k` times through a list of `k` verbs comes back to the
/// position it started from.
pub proof fn lemma_advance_wraps(i: nat, k: nat)
    requires
        i < k,
    ensures
        index_after(i, k, k) == i,
{
    lemma_index_after_is_offset(i, k, k);
    lemma_mod_add_multiples_vanish(i as int, k as int);
    lemma_small_mod(i, k);
}

/// The verbs shown over `k` consecutive advances from any question of a
/// session over `k` verbs.
pub open spec fn visited(q: QuizState) -> Seq<Verb> {
    Seq::new(q.verbs.len(), |j: int| q.verbs[index_after(q.index, q.verbs.len(), (j + 1) as nat) as int])
}

/// A session started over `original` holds its verbs in some order, and `k`
/// consecutive advances over its `k` verbs show each verb of `original`
/// exactly as often as it occurs there.
pub proof fn lemma_advance_cycle_covers(q: QuizState, original: Seq<Verb>)
    requires
        q.verbs.to_multiset() == original.to_multiset(),
        q.index < q.verbs.len(),
    ensures
        visited(q).to_multiset() == original.to_multiset(),
{
    let v = q.verbs;
    let k: int = v.len() as int;
    let i: int = q.index as int;
    let r: int = (i + 1) % k;
    let rot = v.subrange(r, k) + v.subrange(0, r);
    assert forall|j: int| 0 <= j < k implies visited(q)[j] == rot[j] by {
        lemma_index_after_is_offset(q.index, v.len(), (j + 1) as nat);
        lemma_add_mod_noop_right(j, i + 1, k);
        assert(j + r == r + j);
        if r + j < k {
            lemma_small_mod((r + j) as nat, k as nat);
        } else {
            lemma_mod_add_multiples_vanish(r + j - k, k);
            lemma_small_mod((r + j - k) as nat, k as nat);
        }
    }
    assert(visited(q) =~= rot);
    lemma_multiset_commutative(v.subrange(r, k), v.subrange(0, r));
    lemma_multiset_commutative(v.subrange(0, r), v.subrange(r, k));
    assert(v.subrange(0, r) + v.subrange(r, k) =~= v);
}

/// Grading depends on the answer only through its trimmed, lower-cased form:
/// two answers that agree there get the same outcome.
pub proof fn lemma_grade_ignores_case_and_padding(q: QuizState, a: Seq<char>, b: Seq<char>)
    requires
        normal_form(a) == normal_form(b),
    ensures
        q.graded(a) == q.graded(b),
{
}

/// Grading twice on the same question keeps only the latest outcome, and
/// grading leaves the question, the verb list and the typed answer as they
/// were.
pub proof fn lemma_regrade_keeps_latest(q: QuizState, a: Seq<char>, b: Seq<char>)
    ensures
        q.graded(a).graded(b) == q.graded(b),
        q.graded(a).verbs == q.verbs,
        q.graded(a).index == q.index,
        q.graded(a).mode == q.mode,
        q.graded(a).form == q.form,
        q.graded(a).answer == q.answer,
{
}

} // verus!
