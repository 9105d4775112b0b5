//! Drawing a stock list from a pool: candidates are drawn at random, each
//! uniformly from the whole pool, and only those below the ceiling are kept.

use rand::rngs::ThreadRng;
use rand::seq::IndexedRandom;
use vstd::prelude::*;

use crate::item::{entries, Ceiling, Entry, StockItem};

verus! {

/// Why no stock could be generated.
#[derive(Debug, Clone, Copy, PartialEq, Eq, Structural)]
pub enum GenerationError {
    /// A pool to draw from holds no entry.
    EmptyPool,
    /// No entry below the ceiling was found in a pool.
    NoEligibleCandidates,
}

/// For each entry of a pool, the number of rejected draws in a row after
/// which a draw gives up. Where one entry in `n` lies below the ceiling,
/// `64 * n` draws in a row miss it with a chance of less than one in `e^64`.
pub const REJECTIONS_PER_ENTRY: usize = 64;

/// The random number generator of the `rand` crate that belongs to the
/// current thread, carried through without looking inside.
#[verifier::external_type_specification]
#[verifier::external_body]
pub struct ExThreadRng(ThreadRng);

/// `rand::rng` hands out the generator of the current thread. Nothing is
/// claimed of it.
pub assume_specification[ rand::rng ]() -> (rng: ThreadRng);

/// Draws one entry of `pool` with `rand::seq::IndexedRandom::choose`, which
/// gives `None` for an empty slice and else a reference to one of its
/// elements. Which element comes back is up to the generator.
#[verifier::external_body]
fn pick<'a>(pool: &'a Vec<StockItem>, rng: &mut ThreadRng) -> (picked: Option<&'a StockItem>)
    ensures
        picked is None <==> pool.len() == 0,
        picked is Some ==> exists|i: int|
            0 <= i < pool.len() && #[trigger] pool[i] == *picked.unwrap(),
{
    pool.choose(rng)
}

/// The test that an entry lies strictly below `ceiling`.
pub open spec fn below_test(ceiling: Ceiling) -> spec_fn(Entry) -> bool {
    |entry: Entry| entry.kind.below(ceiling)
}

/// The entries of `pool` that lie strictly below `ceiling`.
pub open spec fn eligible(pool: Seq<Entry>, ceiling: Ceiling) -> Seq<Entry> {
    pool.filter(below_test(ceiling))
}

/// The number of rejected draws in a row that a draw from a pool of `len`
/// entries puts up with.
pub open spec fn rejection_budget(len: nat) -> nat {
    if len * REJECTIONS_PER_ENTRY <= usize::MAX {
        (len * REJECTIONS_PER_ENTRY) as nat
    } else {
        usize::MAX as nat
    }
}

/// A sequence that loses nothing to a filter passes it in every element.
proof fn lemma_filter_keeps_all<A>(s: Seq<A>, pred: spec_fn(A) -> bool)
    requires
        s.filter(pred).len() == s.len(),
    ensures
        forall|i: int| 0 <= i < s.len() ==> pred(#[trigger] s[i]),
    decreases s.len(),
{
    reveal(Seq::filter);
    if s.len() > 0 {
        let rest = s.drop_last();
        rest.lemma_filter_len(pred);
        lemma_filter_keeps_all(rest, pred);
        assert forall|i: int| 0 <= i < s.len() implies pred(#[trigger] s[i]) by {
            if i < s.len() - 1 {
                assert(s[i] == rest[i]);
            }
        }
    }
}

/// Counts the entries of `pool` that lie strictly below `ceiling`.
pub fn count_eligible(pool: &Vec<StockItem>, ceiling: Ceiling) -> (count: usize)
    ensures
        count == eligible(entries(pool@), ceiling).len(),
{
    let ghost all = entries(pool@);
    let mut count: usize = 0;
    let mut i: usize = 0;
    proof {
        reveal(Seq::filter);
    }
    while i < pool.len()
        invariant
            i <= pool.len(),
            all == entries(pool@),
            count <= i,
            count == eligible(all.take(i as int), ceiling).len(),
        decreases pool.len() - i,
    {
        proof {
            let before = all.take(i as int);
            assert(all.take(i + 1) =~= before.push(pool[i as int]@));
            before.lemma_filter_push(pool[i as int]@, below_test(ceiling));
        }
        if pool[i].is_below(ceiling) {
            count += 1;
        }
        i += 1;
    }
    assert(all.take(i as int) =~= all);
    count
}

/// Returns the number of rejected draws in a row that a draw from a pool of
/// `len` entries puts up with.
pub fn budget_for(len: usize) -> (budget: usize)
    ensures
        budget == rejection_budget(len as nat),
{
    match len.checked_mul(REJECTIONS_PER_ENTRY) {
        Some(budget) => budget,
        None => usize::MAX,
    }
}

/// The error with which a draw from `pool` under `ceiling` fails before
/// anything is drawn: `EmptyPool` for an empty pool, `NoEligibleCandidates`
/// for a pool with no entry strictly below the ceiling.
pub open spec fn pool_error(pool: Seq<Entry>, ceiling: Ceiling) -> Option<GenerationError> {
    if pool.len() == 0 {
        Some(GenerationError::EmptyPool)
    } else if eligible(pool, ceiling).len() == 0 {
        Some(GenerationError::NoEligibleCandidates)
    } else {
        None
    }
}

/// Tells, without drawing, whether a draw from `pool` under `ceiling` is
/// bound to fail, and with which error.
pub fn check_pool(pool: &Vec<StockItem>, ceiling: Ceiling) -> (error: Option<GenerationError>)
    ensures
        error == pool_error(entries(pool@), ceiling),
{
    if pool.len() == 0 {
        Some(GenerationError::EmptyPool)
    } else if count_eligible(pool, ceiling) == 0 {
        Some(GenerationError::NoEligibleCandidates)
    } else {
        None
    }
}

/// Whether `stock` is a possible result of drawing `target` entries from
/// `pool` under `ceiling`: it has `target` entries, and each of them is an
/// entry of the pool that lies strictly below the ceiling.
pub open spec fn drawn_from(
    stock: Seq<Entry>,
    pool: Seq<Entry>,
    ceiling: Ceiling,
    target: nat,
) -> bool {
    &&& stock.len() == target
    &&& forall|i: int|
        0 <= i < stock.len() ==> eligible(pool, ceiling).contains(#[trigger] stock[i])
}

/// Whether a draw of `target` entries from `pool` under `ceiling` may reject
/// a candidate: there is something to draw, and not every entry of the pool
/// lies below the ceiling.
pub open spec fn may_reject(pool: Seq<Entry>, ceiling: Ceiling, target: nat) -> bool {
    target > 0 && eligible(pool, ceiling).len() < pool.len()
}

/// Takes a candidate into `stock` where it lies strictly below `ceiling`, and
/// drops it where it does not. Tells whether it was taken.
pub fn offer(stock: &mut Vec<StockItem>, candidate: &StockItem, ceiling: Ceiling) -> (taken: bool)
    ensures
        taken == candidate@.kind.below(ceiling),
        taken ==> final(stock)@ == old(stock)@.push(*candidate),
        !taken ==> final(stock)@ == old(stock)@,
{
    if candidate.is_below(ceiling) {
        stock.push(candidate.clone());
        true
    } else {
        false
    }
}

/// What becomes of the count of rejected draws in a row when one more
/// candidate is settled: a candidate that is taken sets it back to 0, and one
/// that is dropped adds 1 to it, unless the count would reach `budget`: then
/// the draw gives up.
pub open spec fn rejections_after(taken: bool, rejected: usize, budget: usize) -> Result<
    usize,
    GenerationError,
> {
    if taken {
        Ok(0)
    } else if rejected + 1 >= budget {
        Err(GenerationError::NoEligibleCandidates)
    } else {
        Ok((rejected + 1) as usize)
    }
}

/// The most draws that are still to come when `held` of `target` entries are
/// in stock and the last `rejected` draws were rejected.
pub open spec fn draws_left(target: nat, held: nat, rejected: nat, budget: nat) -> nat {
    if held < target && rejected < budget {
        ((target - held) * budget - rejected) as nat
    } else {
        0
    }
}

/// Settles what becomes of a candidate that was drawn, and of the draw. A
/// candidate strictly below `ceiling` joins `stock`, and the count of
/// rejected draws in a row starts again at 0. Any other candidate is dropped
/// and counted; with it the draw gives up where `budget` draws in a row have
/// then been rejected. The result is the new count, or the error with which
/// the draw gives up.
pub fn settle(
    stock: &mut Vec<StockItem>,
    rejected: usize,
    budget: usize,
    candidate: &StockItem,
    ceiling: Ceiling,
) -> (next: Result<usize, GenerationError>)
    ensures
        candidate@.kind.below(ceiling) ==> final(stock)@ == old(stock)@.push(*candidate),
        !candidate@.kind.below(ceiling) ==> final(stock)@ == old(stock)@,
        next == rejections_after(candidate@.kind.below(ceiling), rejected, budget),
{
    if offer(stock, candidate, ceiling) {
        Ok(0)
    } else if budget <= 1 || rejected >= budget - 1 {
        Err(GenerationError::NoEligibleCandidates)
    } else {
        Ok(rejected + 1)
    }
}

/// A draw makes a bounded number of draws: at most `target * budget` are to
/// come at its start, and each candidate that is settled without giving up
/// leaves fewer to come than there were.
pub proof fn lemma_draws_are_bounded(
    target: nat,
    held: nat,
    rejected: usize,
    budget: usize,
    taken: bool,
)
    requires
        held < target,
        rejected < budget,
    ensures
        draws_left(target, held, rejected as nat, budget as nat) <= target * budget,
        rejections_after(taken, rejected, budget) matches Ok(next) ==> next < budget && draws_left(
            target,
            if taken {
                held + 1
            } else {
                held
            },
            next as nat,
            budget as nat,
        ) < draws_left(target, held, rejected as nat, budget as nat),
{
    assert((target - held) * budget <= target * budget) by (nonlinear_arith)
        requires
            0 <= held < target,
            0 <= budget,
    ;
    assert((target - held) * budget == (target - held - 1) * budget + budget) by (nonlinear_arith);
    assert((target - held - 1) * budget >= 0) by (nonlinear_arith)
        requires
            held < target,
            0 <= budget,
    ;
}

/// Draws `target` entries from `pool`, each strictly below `ceiling`.
/// Candidates are drawn one at a time, each uniformly from the whole pool and
/// independently of the others; a candidate that is not below the ceiling is
/// dropped and another is drawn, so that an entry may come up more than once.
///
/// Where `check_pool` finds an error, that error is the outcome, and nothing
/// is drawn. Each candidate that is drawn is handed to `settle`, which also
/// says when the draw gives up with `NoEligibleCandidates`: once as many
/// candidates in a row as `rejection_budget` allows have been rejected. That
/// can only happen where the pool holds an entry that is not below the
/// ceiling. No more than `target` times that budget are drawn.
pub fn draw_stock(
    pool: &Vec<StockItem>,
    ceiling: Ceiling,
    target: usize,
    rng: &mut ThreadRng,
) -> (outcome: Result<Vec<StockItem>, GenerationError>)
    ensures
        match pool_error(entries(pool@), ceiling) {
            Some(error) => outcome == Err::<Vec<StockItem>, GenerationError>(error),
            None => match outcome {
                Ok(stock) => drawn_from(entries(stock@), entries(pool@), ceiling, target as nat),
                Err(error) => {
                    &&& error == GenerationError::NoEligibleCandidates
                    &&& may_reject(entries(pool@), ceiling, target as nat)
                },
            },
        },
{
    if let Some(error) = check_pool(pool, ceiling) {
        return Err(error);
    }
    let ghost all = entries(pool@);
    let budget = budget_for(pool.len());
    let mut stock: Vec<StockItem> = Vec::new();
    let mut rejected: usize = 0;
    while stock.len() < target
        invariant
            all == entries(pool@),
            pool.len() > 0,
            budget == rejection_budget(pool.len() as nat),
            stock.len() <= target,
            rejected < budget,
            drawn_from(entries(stock@), all, ceiling, stock.len() as nat),
        decreases draws_left(target as nat, stock.len() as nat, rejected as nat, budget as nat),
    {
        let candidate = pick(pool, rng).unwrap();
        let ghost i = choose|i: int| 0 <= i < pool.len() && #[trigger] pool[i] == *candidate;
        assert(all[i] == candidate@);
        proof {
            let taken = candidate@.kind.below(ceiling);
            if taken {
                all.lemma_filter_contains(below_test(ceiling), i);
                assert(entries(stock@.push(*candidate)) =~= entries(stock@).push(candidate@));
            } else if eligible(all, ceiling).len() == all.len() {
                lemma_filter_keeps_all(all, below_test(ceiling));
            }
            lemma_draws_are_bounded(target as nat, stock.len() as nat, rejected, budget, taken);
        }
        rejected = settle(&mut stock, rejected, budget, candidate, ceiling)?;
    }
    Ok(stock)
}

} // verus!
