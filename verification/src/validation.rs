//! Validation of a batch of allocation entries, and its recording with
//! the portfolio.

use vstd::prelude::*;
use crate::error::ErrorCode;
use crate::state::{fault_to_result, CapitalAllocation, Portfolio, BALANCE_LIMIT};

verus! {

/// Sum of the amounts of a list of entries.
pub open spec fn total_allocated(allocations: Seq<CapitalAllocation>) -> int
    decreases allocations.len(),
{
    if allocations.len() == 0 {
        0
    } else {
        total_allocated(allocations.drop_last()) + allocations.last().amount
    }
}

/// No two entries of the list name the same recipient.
pub open spec fn recipients_distinct(allocations: Seq<CapitalAllocation>) -> bool {
    forall|i: int, j: int|
        #![trigger allocations[i], allocations[j]]
        0 <= i < j < allocations.len() ==> allocations[i].strategy_id != allocations[j].strategy_id
}

/// An entry before position `i` names the recipient of entry `i`.
pub open spec fn repeats_earlier(allocations: Seq<CapitalAllocation>, i: int) -> bool {
    exists|j: int|
        0 <= j < i && (#[trigger] allocations[j]).strategy_id == allocations[i].strategy_id
}

/// What is wrong with entry `i` of a batch, if anything. The tests, in this
/// order: its recipient occurred before (`DuplicateStrategy`); its amount is
/// zero (`InsufficientBalance`); its amount reaches [`BALANCE_LIMIT`]
/// (`BalanceOverflow`); the amounts up to and including it do not fit in 64
/// bits (`BalanceOverflow`).
pub open spec fn entry_fault(allocations: Seq<CapitalAllocation>, i: int) -> Option<ErrorCode> {
    if repeats_earlier(allocations, i) {
        Some(ErrorCode::DuplicateStrategy)
    } else if allocations[i].amount == 0 {
        Some(ErrorCode::InsufficientBalance)
    } else if allocations[i].amount >= BALANCE_LIMIT {
        Some(ErrorCode::BalanceOverflow)
    } else if total_allocated(allocations.take(i + 1)) > u64::MAX {
        Some(ErrorCode::BalanceOverflow)
    } else {
        None
    }
}

/// Entry `i` is faulty and no entry before it is.
pub open spec fn is_first_fault(allocations: Seq<CapitalAllocation>, i: int) -> bool {
    &&& 0 <= i < allocations.len()
    &&& entry_fault(allocations, i) is Some
    &&& forall|j: int| 0 <= j < i ==> (#[trigger] entry_fault(allocations, j)) is None
}

/// The verdict on a batch: the fault of its first faulty entry, or the sum
/// of its amounts where no entry is faulty.
pub open spec fn validation_result(allocations: Seq<CapitalAllocation>) -> Result<
    u64,
    ErrorCode,
> {
    if exists|i: int| is_first_fault(allocations, i) {
        Err(entry_fault(allocations, choose|i: int| is_first_fault(allocations, i))->Some_0)
    } else {
        Ok(total_allocated(allocations) as u64)
    }
}

/// The first faulty entry of a batch decides its verdict.
pub proof fn lemma_first_fault_decides(allocations: Seq<CapitalAllocation>, i: int)
    requires
        is_first_fault(allocations, i),
    ensures
        validation_result(allocations) == Err::<u64, ErrorCode>(
            entry_fault(allocations, i)->Some_0,
        ),
{
    let chosen = choose|k: int| is_first_fault(allocations, k);
    assert(is_first_fault(allocations, chosen));
    if chosen < i {
        assert(entry_fault(allocations, chosen) is None);
    } else if i < chosen {
        assert(entry_fault(allocations, i) is None);
    }
}

/// A batch without a faulty entry names no recipient twice and holds no
/// amount that is zero or that reaches the limit.
pub proof fn lemma_faultless_batch(allocations: Seq<CapitalAllocation>)
    requires
        forall|k: int|
            0 <= k < allocations.len() ==> (#[trigger] entry_fault(allocations, k)) is None,
    ensures
        recipients_distinct(allocations),
        forall|i: int|
            0 <= i < allocations.len() ==> 0 < (#[trigger] allocations[i]).amount
                < BALANCE_LIMIT,
{
    assert forall|i: int, j: int|
        #![trigger allocations[i], allocations[j]]
        0 <= i < j < allocations.len() implies allocations[i].strategy_id
        != allocations[j].strategy_id by {
        assert(entry_fault(allocations, j) is None);
        assert(!repeats_earlier(allocations, j));
    }
    assert forall|i: int| 0 <= i < allocations.len() implies 0 < (#[trigger] allocations[i]).amount
        < BALANCE_LIMIT by {
        assert(entry_fault(allocations, i) is None);
    }
}

/// Whether an entry before position `i` names the recipient of entry `i`.
fn names_earlier_recipient(allocations: &[CapitalAllocation], i: usize) -> (r: bool)
    requires
        i < allocations.len(),
    ensures
        r == repeats_earlier(allocations@, i as int),
{
    let mut j: usize = 0;
    while j < i
        invariant
            j <= i < allocations.len(),
            forall|k: int|
                0 <= k < j ==> (#[trigger] allocations@[k]).strategy_id
                    != allocations@[i as int].strategy_id,
        decreases i - j,
    {
        if allocations[j].strategy_id == allocations[i].strategy_id {
            return true;
        }
        j = j + 1;
    }
    false
}

/// Checks a batch of allocation entries and returns the sum of its amounts.
///
/// The entries are tested in order, each as [`entry_fault`] says, and the
/// first fault found is the error. So a batch in which a recipient occurs
/// twice is always refused, and so is one with an amount of
/// [`BALANCE_LIMIT`] or more.
pub fn validate_allocations(allocations: &[CapitalAllocation]) -> (r: Result<u64, ErrorCode>)
    ensures
        r == validation_result(allocations@),
        r is Ok ==> r->Ok_0 == total_allocated(allocations@),
        !recipients_distinct(allocations@) ==> r is Err,
        (exists|i: int|
            0 <= i < allocations.len() && (#[trigger] allocations@[i]).amount >= BALANCE_LIMIT)
            ==> r is Err,
        (exists|i: int| 0 <= i < allocations.len() && (#[trigger] allocations@[i]).amount == 0)
            ==> r is Err,
{
    let mut total: u64 = 0;
    let mut i: usize = 0;
    while i < allocations.len()
        invariant
            i <= allocations.len(),
            total == total_allocated(allocations@.take(i as int)),
            forall|k: int| 0 <= k < i ==> (#[trigger] entry_fault(allocations@, k)) is None,
        decreases allocations.len() - i,
    {
        proof {
            assert(allocations@.take(i + 1).drop_last() =~= allocations@.take(i as int));
        }
        let allocation = &allocations[i];
        if names_earlier_recipient(allocations, i) {
            proof {
                lemma_first_fault_decides(allocations@, i as int);
            }
            return Err(ErrorCode::DuplicateStrategy);
        }
        if allocation.amount == 0 {
            proof {
                lemma_first_fault_decides(allocations@, i as int);
            }
            return Err(ErrorCode::InsufficientBalance);
        }
        if allocation.amount >= BALANCE_LIMIT {
            proof {
                lemma_first_fault_decides(allocations@, i as int);
            }
            return Err(ErrorCode::BalanceOverflow);
        }
        match total.checked_add(allocation.amount) {
            Some(sum) => {
                total = sum;
            },
            None => {
                proof {
                    lemma_first_fault_decides(allocations@, i as int);
                }
                return Err(ErrorCode::BalanceOverflow);
            },
        }
        i = i + 1;
    }
    proof {
        assert(allocations@.take(i as int) =~= allocations@);
        assert(forall|k: int| !is_first_fault(allocations@, k));
        lemma_faultless_batch(allocations@);
    }
    Ok(total)
}

/// Most entries that one redistribution may hold.
pub const MAX_REDISTRIBUTION_BATCH: usize = 20;

/// What stands against recording a redistribution, if anything. The tests,
/// in this order: a paused portfolio (`EmergencyPaused`); an empty batch
/// (`InsufficientStrategies`); more than [`MAX_REDISTRIBUTION_BATCH`]
/// entries (`TooManyStrategies`); a faulty batch; a lifetime total of
/// capital moved that would not fit in 64 bits (`BalanceOverflow`).
pub open spec fn redistribution_fault(
    portfolio: Portfolio,
    allocations: Seq<CapitalAllocation>,
) -> Option<ErrorCode> {
    if portfolio.emergency_pause {
        Some(ErrorCode::EmergencyPaused)
    } else if allocations.len() == 0 {
        Some(ErrorCode::InsufficientStrategies)
    } else if allocations.len() > MAX_REDISTRIBUTION_BATCH {
        Some(ErrorCode::TooManyStrategies)
    } else {
        match validation_result(allocations) {
            Err(e) => Some(e),
            Ok(total) => if portfolio.total_capital_moved + total > u64::MAX {
                Some(ErrorCode::BalanceOverflow)
            } else {
                None
            },
        }
    }
}

/// Records a redistribution with the portfolio: the batch is validated and
/// the sum of its amounts added to the lifetime total of capital moved. An
/// error leaves the portfolio untouched.
pub fn redistribute_capital(portfolio: &mut Portfolio, allocations: &[CapitalAllocation]) -> (r:
    Result<(), ErrorCode>)
    ensures
        r == fault_to_result(redistribution_fault(*old(portfolio), allocations@)),
        r is Err ==> *final(portfolio) == *old(portfolio),
        r is Ok ==> *final(portfolio) == (Portfolio {
            total_capital_moved: (old(portfolio).total_capital_moved + total_allocated(
                allocations@,
            )) as u64,
            ..*old(portfolio)
        }),
        old(portfolio).is_well_formed() ==> final(portfolio).is_well_formed(),
{
    if portfolio.emergency_pause {
        return Err(ErrorCode::EmergencyPaused);
    }
    if allocations.len() == 0 {
        return Err(ErrorCode::InsufficientStrategies);
    }
    if allocations.len() > MAX_REDISTRIBUTION_BATCH {
        return Err(ErrorCode::TooManyStrategies);
    }
    let total_allocated = match validate_allocations(allocations) {
        Ok(total) => total,
        Err(error) => {
            return Err(error);
        },
    };
    match portfolio.total_capital_moved.checked_add(total_allocated) {
        Some(total) => {
            portfolio.total_capital_moved = total;
            Ok(())
        },
        None => Err(ErrorCode::BalanceOverflow),
    }
}

} // verus!
