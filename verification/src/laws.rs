//! What holds of the contest over every ledger and every history of calls.

use crate::address::{address_with_bump, canonical_address, lemma_canonical_is_greatest};
use crate::contest::{
    become_king_outcome, contest_state, escrow_seeds, initialize_outcome, state_seeds, BecomeKing,
    Initialize,
};
use crate::error::ErrorCode;
use crate::ledger::LedgerView;
use crate::state::{GameStateView, RecordView};
use vstd::prelude::*;

verus! {

/// The prize of a program's contest; zero while the contest has not been opened.
pub open spec fn contest_prize(ledger: LedgerView, program_id: Seq<u8>) -> u64 {
    match contest_state(ledger, program_id) {
        Some(game) => game.prize,
        None => 0,
    }
}

/// The escrow address that a state record points to through its bump seed.
pub open spec fn escrow_of(program_id: Seq<u8>, game: GameStateView) -> Option<Seq<u8>> {
    address_with_bump(escrow_seeds(), program_id, game.escrow_bump)
}

/// The contest at rest: once opened, its prize is not zero, the escrow record stands at
/// the address that the recorded bump seed derives and holds exactly the prize, and the
/// leader is not the escrow itself.
pub open spec fn at_rest(ledger: LedgerView, program_id: Seq<u8>) -> bool {
    contest_state(ledger, program_id) matches Some(game) ==> {
        &&& game.prize > 0
        &&& escrow_of(program_id, game) matches Some(escrow)
        &&& ledger.record(escrow) == Some(RecordView::Escrow)
        &&& ledger.balance(escrow) == game.prize
        &&& game.leader != escrow
    }
}

/// A call of one of the contest's two operations.
pub enum Call {
    /// `initialize` with these accounts and this initial prize.
    Initialize(Initialize, u64),
    /// `become_king` with these accounts and this bid.
    BecomeKing(BecomeKing, u64),
}

/// The ledger after a call: changed as the operation says where it succeeds, unchanged
/// where it fails.
pub open spec fn after_call(ledger: LedgerView, program_id: Seq<u8>, call: Call) -> LedgerView {
    let outcome = match call {
        Call::Initialize(accounts, initial_prize) => initialize_outcome(
            ledger,
            program_id,
            accounts,
            initial_prize,
        ),
        Call::BecomeKing(accounts, new_prize) => become_king_outcome(
            ledger,
            program_id,
            accounts,
            new_prize,
        ),
    };
    match outcome {
        Ok(after) => after,
        Err(_) => ledger,
    }
}

/// The ledger after a sequence of calls, made in order.
pub open spec fn after_calls(
    ledger: LedgerView,
    program_id: Seq<u8>,
    calls: Seq<Call>,
) -> LedgerView
    decreases calls.len(),
{
    if calls.len() == 0 {
        ledger
    } else {
        after_call(after_calls(ledger, program_id, calls.drop_last()), program_id, calls.last())
    }
}

/// Re-deriving with the recorded bump seed gives the canonical address again, and no other
/// address passes for it: `verify_address` accepts a claimed address under the canonical
/// bump seed exactly when it is the canonical address.
pub proof fn lemma_rederive(seeds: Seq<Seq<u8>>, program_id: Seq<u8>, claimed: Seq<u8>)
    requires
        canonical_address(seeds, program_id) is Some,
    ensures
        ({
            let (address, bump) = canonical_address(seeds, program_id).unwrap();
            &&& address_with_bump(seeds, program_id, bump) == Some(address)
            &&& address_with_bump(seeds, program_id, bump) == Some(claimed) <==> claimed == address
        }),
{
    lemma_canonical_is_greatest(seeds, program_id);
}

/// A successful `initialize` opens the contest with the caller as leader at the initial
/// prize, and leaves it at rest: the escrow holds exactly the prize.
pub proof fn lemma_initialize_opens(
    before: LedgerView,
    program_id: Seq<u8>,
    accounts: Initialize,
    initial_prize: u64,
)
    requires
        initialize_outcome(before, program_id, accounts, initial_prize) is Ok,
    ensures
        ({
            let after = initialize_outcome(before, program_id, accounts, initial_prize).unwrap();
            let (escrow, escrow_bump) = canonical_address(escrow_seeds(), program_id).unwrap();
            &&& contest_state(before, program_id) is None
            &&& contest_state(after, program_id) == Some(
                GameStateView { leader: accounts.caller@, prize: initial_prize, escrow_bump },
            )
            &&& after.record(escrow) == Some(RecordView::Escrow)
            &&& after.balance(escrow) == initial_prize
            &&& at_rest(after, program_id)
        }),
{
    lemma_canonical_is_greatest(escrow_seeds(), program_id);
}

/// A second `initialize` for the same program fails with `AlreadyExists`, whoever calls and
/// whatever the prize, and leaves the ledger as the first one left it.
pub proof fn lemma_initialize_once(
    before: LedgerView,
    program_id: Seq<u8>,
    first: Initialize,
    first_prize: u64,
    second: Initialize,
    second_prize: u64,
)
    requires
        initialize_outcome(before, program_id, first, first_prize) is Ok,
    ensures
        ({
            let opened = initialize_outcome(before, program_id, first, first_prize).unwrap();
            &&& initialize_outcome(opened, program_id, second, second_prize) == Err::<
                LedgerView,
                ErrorCode,
            >(ErrorCode::AlreadyExists)
            &&& after_call(
                opened,
                program_id,
                Call::Initialize(second, second_prize),
            ) == opened
        }),
{
}

/// A successful `become_king` was a bid above the prize; it makes the caller leader at
/// the bid. Where the contest was at rest before, it is at rest after: the escrow holds
/// exactly the new prize, and, unless the old leader is the caller, the old leader holds
/// the old prize more than before and the caller the bid less.
pub proof fn lemma_become_king_raises(
    before: LedgerView,
    program_id: Seq<u8>,
    accounts: BecomeKing,
    new_prize: u64,
)
    requires
        become_king_outcome(before, program_id, accounts, new_prize) is Ok,
    ensures
        ({
            let after = become_king_outcome(before, program_id, accounts, new_prize).unwrap();
            &&& contest_state(before, program_id) matches Some(game)
            &&& new_prize > game.prize
            &&& game.leader == accounts.leader@
            &&& escrow_of(program_id, game) == Some(accounts.escrow@)
            &&& contest_state(after, program_id) == Some(
                GameStateView {
                    leader: accounts.caller@,
                    prize: new_prize,
                    escrow_bump: game.escrow_bump,
                },
            )
            &&& at_rest(before, program_id) ==> {
                &&& at_rest(after, program_id)
                &&& after.balance(accounts.escrow@) == new_prize
                &&& accounts.caller@ != accounts.leader@ ==> after.balance(accounts.leader@)
                    == before.balance(accounts.leader@) + game.prize
                &&& accounts.caller@ != accounts.leader@ ==> after.balance(accounts.caller@)
                    == before.balance(accounts.caller@) - new_prize
            }
        }),
{
}

/// `initialize` with a zero prize always fails. It fails with `InvalidPrize` exactly where
/// both addresses derive, differ, and are not in use.
pub proof fn lemma_zero_prize_refused(
    before: LedgerView,
    program_id: Seq<u8>,
    accounts: Initialize,
)
    ensures
        initialize_outcome(before, program_id, accounts, 0) is Err,
        initialize_outcome(before, program_id, accounts, 0) == Err::<LedgerView, ErrorCode>(
            ErrorCode::InvalidPrize,
        ) <==> {
            &&& canonical_address(state_seeds(), program_id) matches Some((state, _))
            &&& canonical_address(escrow_seeds(), program_id) matches Some((escrow, _))
            &&& state != escrow
            &&& !before.in_use(state)
            &&& !before.in_use(escrow)
        },
{
}

/// `become_king` with a bid that does not exceed the prize of the contest always fails. It
/// fails with `BidTooLow` where the accounts are the ones of the contest.
pub proof fn lemma_low_bid_refused(
    before: LedgerView,
    program_id: Seq<u8>,
    accounts: BecomeKing,
    new_prize: u64,
)
    requires
        contest_state(before, program_id) is Some,
        new_prize <= contest_prize(before, program_id),
    ensures
        become_king_outcome(before, program_id, accounts, new_prize) is Err,
        ({
            let game = contest_state(before, program_id).unwrap();
            &&& canonical_address(state_seeds(), program_id).unwrap().0 == accounts.state@
            &&& game.leader == accounts.leader@
            &&& escrow_of(program_id, game) == Some(accounts.escrow@)
        }) ==> become_king_outcome(before, program_id, accounts, new_prize) == Err::<
            LedgerView,
            ErrorCode,
        >(ErrorCode::BidTooLow),
{
}

/// A call for another program leaves the state of this program's contest as it was,
/// provided the two state records do not lie at one address.
pub proof fn lemma_other_program_keeps_state(
    ledger: LedgerView,
    program_id: Seq<u8>,
    other: Seq<u8>,
    call: Call,
)
    requires
        canonical_address(state_seeds(), program_id) is Some,
        canonical_address(state_seeds(), other) matches Some((there, _)) ==> there
            != canonical_address(state_seeds(), program_id).unwrap().0,
    ensures
        contest_state(after_call(ledger, other, call), program_id) == contest_state(
            ledger,
            program_id,
        ),
{
}

/// No call lowers the prize of the contest.
pub proof fn lemma_call_keeps_prize(ledger: LedgerView, program_id: Seq<u8>, call: Call)
    ensures
        contest_prize(ledger, program_id) <= contest_prize(
            after_call(ledger, program_id, call),
            program_id,
        ),
{
    match call {
        Call::Initialize(accounts, initial_prize) => {
            if initialize_outcome(ledger, program_id, accounts, initial_prize) is Ok {
                lemma_initialize_opens(ledger, program_id, accounts, initial_prize);
            }
        },
        Call::BecomeKing(accounts, new_prize) => {
            if become_king_outcome(ledger, program_id, accounts, new_prize) is Ok {
                lemma_become_king_raises(ledger, program_id, accounts, new_prize);
            }
        },
    }
}

/// Over any history of calls the prize never falls: after the first `n` calls it is at
/// most what it is after all of them.
pub proof fn lemma_prize_never_falls(
    ledger: LedgerView,
    program_id: Seq<u8>,
    calls: Seq<Call>,
    n: int,
)
    requires
        0 <= n <= calls.len(),
    ensures
        contest_prize(after_calls(ledger, program_id, calls.take(n)), program_id) <= contest_prize(
            after_calls(ledger, program_id, calls),
            program_id,
        ),
    decreases calls.len(),
{
    if n == calls.len() {
        assert(calls.take(n) =~= calls);
    } else {
        let earlier = calls.drop_last();
        assert(earlier.take(n) =~= calls.take(n));
        lemma_prize_never_falls(ledger, program_id, earlier, n);
        lemma_call_keeps_prize(after_calls(ledger, program_id, earlier), program_id, calls.last());
    }
}

/// Every history that starts at rest stays at rest.
pub proof fn lemma_always_at_rest(ledger: LedgerView, program_id: Seq<u8>, calls: Seq<Call>)
    requires
        at_rest(ledger, program_id),
    ensures
        at_rest(after_calls(ledger, program_id, calls), program_id),
    decreases calls.len(),
{
    if calls.len() > 0 {
        let earlier = after_calls(ledger, program_id, calls.drop_last());
        lemma_always_at_rest(ledger, program_id, calls.drop_last());
        match calls.last() {
            Call::Initialize(accounts, initial_prize) => {
                if initialize_outcome(earlier, program_id, accounts, initial_prize) is Ok {
                    lemma_initialize_opens(earlier, program_id, accounts, initial_prize);
                }
            },
            Call::BecomeKing(accounts, new_prize) => {
                if become_king_outcome(earlier, program_id, accounts, new_prize) is Ok {
                    lemma_become_king_raises(earlier, program_id, accounts, new_prize);
                }
            },
        }
    }
}

} // verus!
