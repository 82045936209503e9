//! The contest: its two records, and the two operations that open it and raise it.
//!
//! Each operation comes twice. `initialize` and `become_king` take a program id and derive
//! the addresses of its records; `initialize_at` and `become_king_at` take the derived
//! addresses as they are and do the rest.

use crate::address::{
    address_for_bump, address_with_bump, canonical_address, check_claim, derive_address,
    seeds_view, Address,
};
use crate::error::ErrorCode;
use crate::instruction::{is_transfer, system_transfer, Instruction};
use crate::ledger::{Ledger, LedgerView};
use crate::state::{GameState, GameStateView, Record, RecordView};
use vstd::prelude::*;

verus! {

/// The seed of the state record's address: the bytes of `game_state`.
pub const STATE_SEED: [u8; 10] = [103, 97, 109, 101, 95, 115, 116, 97, 116, 101];

/// The seed of the escrow record's address: the bytes of `prize_pool`.
pub const ESCROW_SEED: [u8; 10] = [112, 114, 105, 122, 101, 95, 112, 111, 111, 108];

/// The seeds of the state record.
pub open spec fn state_seeds() -> Seq<Seq<u8>> {
    seq![STATE_SEED@]
}

/// The seeds of the escrow record, without its bump seed.
pub open spec fn escrow_seeds() -> Seq<Seq<u8>> {
    seq![ESCROW_SEED@]
}

/// The accounts of `initialize`: the caller, who becomes the first leader and pays the
/// initial prize.
#[derive(Clone, Copy, Debug, PartialEq, Eq)]
pub struct Initialize {
    pub caller: Address,
}

/// The accounts of `become_king`: the caller, who pays the bid, and what the caller claims
/// to be the state record, the escrow record and the leader to refund.
#[derive(Clone, Copy, Debug, PartialEq, Eq)]
pub struct BecomeKing {
    pub caller: Address,
    pub state: Address,
    pub escrow: Address,
    pub leader: Address,
}

/// Where the two records of a contest lie, and the bump seed of the escrow address.
#[derive(Clone, Copy, Debug, PartialEq, Eq)]
pub struct Addresses {
    pub state: Address,
    pub escrow: Address,
    pub escrow_bump: u8,
}

/// The canonical addresses of a program's two records, if both derive.
pub open spec fn contest_addresses(program_id: Seq<u8>) -> Option<(Seq<u8>, Seq<u8>, u8)> {
    match (
        canonical_address(state_seeds(), program_id),
        canonical_address(escrow_seeds(), program_id),
    ) {
        (Some((state, _)), Some((escrow, escrow_bump))) => Some((state, escrow, escrow_bump)),
        _ => None,
    }
}

/// The state of a program's contest: what the state record at the canonical state address
/// holds. None while the contest has not been opened.
pub open spec fn contest_state(ledger: LedgerView, program_id: Seq<u8>) -> Option<GameStateView> {
    match canonical_address(state_seeds(), program_id) {
        Some((state, _)) => match ledger.record(state) {
            Some(RecordView::Game(game)) => Some(game),
            _ => None,
        },
        None => None,
    }
}

/// What opening a contest at given addresses does to a ledger. The records are created,
/// the state record before the escrow record, and an address in use fails that with
/// `AlreadyExists`. Then a zero prize is refused with `InvalidPrize`, and last the prize
/// moves from the caller into escrow, which fails with `InsufficientFunds` where the
/// caller holds less.
pub open spec fn initialize_at_outcome(
    before: LedgerView,
    state: Seq<u8>,
    escrow: Seq<u8>,
    escrow_bump: u8,
    caller: Seq<u8>,
    initial_prize: u64,
) -> Result<LedgerView, ErrorCode> {
    let opened = GameStateView { leader: caller, prize: initial_prize, escrow_bump };
    match before.create_record(state, RecordView::Game(opened)) {
        Err(e) => Err(e),
        Ok(with_state) => match with_state.create_record(escrow, RecordView::Escrow) {
            Err(e) => Err(e),
            Ok(with_both) => if initial_prize == 0 {
                Err(ErrorCode::InvalidPrize)
            } else {
                with_both.transfer(caller, escrow, initial_prize)
            },
        },
    }
}

/// What `initialize` does to a ledger: it fails with `NoValidAddress` where one of the two
/// addresses does not derive, and else opens the contest at the canonical addresses.
pub open spec fn initialize_outcome(
    before: LedgerView,
    program_id: Seq<u8>,
    accounts: Initialize,
    initial_prize: u64,
) -> Result<LedgerView, ErrorCode> {
    match contest_addresses(program_id) {
        Some((state, escrow, escrow_bump)) => initialize_at_outcome(
            before,
            state,
            escrow,
            escrow_bump,
            accounts.caller@,
            initial_prize,
        ),
        None => Err(ErrorCode::NoValidAddress),
    }
}

/// What a bid does to a ledger, given the state address of the contest and the address
/// that the recorded bump seed derives for its escrow. The claimed state address must be
/// the given one and hold a state record, else `AddressMismatch`; the claimed leader must
/// be the one on record, else `LeaderMismatch`; the claimed escrow address must be the
/// derived one, else `AddressMismatch`; the bid must exceed the prize, else `BidTooLow`.
/// Then the bid moves from the caller into escrow, the old prize moves from escrow to the
/// old leader, and the state record names the caller and the bid. A transfer fails with
/// `InsufficientFunds` where its source holds less than the amount, and with `Overflow`
/// where the balance of its target would leave `u64`.
pub open spec fn become_king_at_outcome(
    before: LedgerView,
    state: Seq<u8>,
    escrow: Option<Seq<u8>>,
    accounts: BecomeKing,
    new_prize: u64,
) -> Result<LedgerView, ErrorCode> {
    match before.record(accounts.state@) {
        Some(RecordView::Game(game)) => if state != accounts.state@ {
            Err(ErrorCode::AddressMismatch)
        } else if accounts.leader@ != game.leader {
            Err(ErrorCode::LeaderMismatch)
        } else if escrow != Some(accounts.escrow@) {
            Err(ErrorCode::AddressMismatch)
        } else if new_prize <= game.prize {
            Err(ErrorCode::BidTooLow)
        } else {
            match before.transfer(accounts.caller@, accounts.escrow@, new_prize) {
                Err(e) => Err(e),
                Ok(deposited) => match deposited.transfer(
                    accounts.escrow@,
                    accounts.leader@,
                    game.prize,
                ) {
                    Err(e) => Err(e),
                    Ok(refunded) => {
                        let raised = GameStateView {
                            leader: accounts.caller@,
                            prize: new_prize,
                            escrow_bump: game.escrow_bump,
                        };
                        Ok(refunded.with_record(accounts.state@, RecordView::Game(raised)))
                    },
                },
            }
        },
        _ => Err(ErrorCode::AddressMismatch),
    }
}

/// What `become_king` does to a ledger: it fails with `AddressMismatch` where the state
/// address of the program does not derive or the claimed state address holds no state
/// record, and else makes the bid at the canonical state address and the escrow address
/// that the recorded bump seed derives.
pub open spec fn become_king_outcome(
    before: LedgerView,
    program_id: Seq<u8>,
    accounts: BecomeKing,
    new_prize: u64,
) -> Result<LedgerView, ErrorCode> {
    match (canonical_address(state_seeds(), program_id), before.record(accounts.state@)) {
        (Some((state, _)), Some(RecordView::Game(game))) => become_king_at_outcome(
            before,
            state,
            address_with_bump(escrow_seeds(), program_id, game.escrow_bump),
            accounts,
            new_prize,
        ),
        _ => Err(ErrorCode::AddressMismatch),
    }
}

fn single_seed(tag: &[u8]) -> (r: Vec<Vec<u8>>)
    ensures
        seeds_view(r@) == seq![tag@],
{
    let mut seed: Vec<u8> = Vec::new();
    let mut i: usize = 0;
    while i < tag.len()
        invariant
            i <= tag.len(),
            seed@ == tag@.take(i as int),
        decreases tag.len() - i,
    {
        seed.push(tag[i]);
        assert(tag@.take(i + 1) =~= tag@.take(i as int).push(tag[i as int]));
        i += 1;
    }
    assert(tag@.take(tag.len() as int) =~= tag@);
    let mut r: Vec<Vec<u8>> = Vec::new();
    r.push(seed);
    assert(seeds_view(r@) =~= seq![tag@]);
    r
}

/// The canonical addresses of a program's two records. Fails with `NoValidAddress` where
/// one of them does not derive.
pub fn addresses(program_id: &Address) -> (r: Result<Addresses, ErrorCode>)
    ensures
        match r {
            Ok(found) => contest_addresses(program_id@) == Some(
                (found.state@, found.escrow@, found.escrow_bump),
            ),
            Err(e) => e == ErrorCode::NoValidAddress && contest_addresses(program_id@) is None,
        },
{
    let state = match derive_address(&single_seed(&STATE_SEED), program_id) {
        Ok((address, _)) => address,
        Err(e) => return Err(e),
    };
    match derive_address(&single_seed(&ESCROW_SEED), program_id) {
        Ok((escrow, escrow_bump)) => Ok(Addresses { state, escrow, escrow_bump }),
        Err(e) => Err(e),
    }
}

/// The state of a program's contest, if it has been opened.
pub fn game_state(ledger: &Ledger, program_id: &Address) -> (r: Option<GameState>)
    ensures
        match r {
            Some(game) => contest_state(ledger@, program_id@) == Some(game@),
            None => contest_state(ledger@, program_id@) is None,
        },
{
    match derive_address(&single_seed(&STATE_SEED), program_id) {
        Ok((state, _)) => match ledger.record(&state) {
            Some(Record::Game(game)) => Some(game),
            _ => None,
        },
        Err(_) => None,
    }
}

/// Opens a contest at the given addresses: creates the state record and the escrow
/// record, makes the caller the leader at `initial_prize`, and moves that amount from the
/// caller into escrow. Returns the instruction that has the system program make this
/// transfer. On any failure the ledger is as it was.
pub fn initialize_at(
    ledger: &mut Ledger,
    at: &Addresses,
    accounts: &Initialize,
    initial_prize: u64,
) -> (r: Result<Instruction, ErrorCode>)
    ensures
        match initialize_at_outcome(
            old(ledger)@,
            at.state@,
            at.escrow@,
            at.escrow_bump,
            accounts.caller@,
            initial_prize,
        ) {
            Ok(after) => final(ledger)@ == after && r is Ok,
            Err(e) => final(ledger)@ == old(ledger)@ && r == Err::<Instruction, ErrorCode>(e),
        },
        r matches Ok(deposit) ==> is_transfer(deposit, accounts.caller@, at.escrow@, initial_prize),
        r matches Err(e) ==> e == ErrorCode::AlreadyExists || e == ErrorCode::InvalidPrize || e
            == ErrorCode::InsufficientFunds,
{
    // Every refusal is found before the first change, so that a failure leaves no trace.
    if ledger.in_use(&at.state) || ledger.in_use(&at.escrow) || at.state == at.escrow {
        return Err(ErrorCode::AlreadyExists);
    }
    if initial_prize == 0 {
        return Err(ErrorCode::InvalidPrize);
    }
    if ledger.balance(&accounts.caller) < initial_prize {
        return Err(ErrorCode::InsufficientFunds);
    }
    let opened = GameState {
        leader: accounts.caller,
        prize: initial_prize,
        escrow_bump: at.escrow_bump,
    };
    match ledger.create_record(&at.state, Record::Game(opened)) {
        Ok(()) => {},
        Err(e) => return Err(e),
    }
    match ledger.create_record(&at.escrow, Record::Escrow) {
        Ok(()) => {},
        Err(e) => return Err(e),
    }
    match ledger.transfer(&accounts.caller, &at.escrow, initial_prize) {
        Ok(()) => {},
        Err(e) => return Err(e),
    }
    Ok(system_transfer(&accounts.caller, &at.escrow, initial_prize))
}

/// Opens the contest of a program: creates the state record and the escrow record at
/// their canonical addresses, makes the caller the leader at `initial_prize`, and moves
/// that amount from the caller into escrow. Returns the instruction that has the system
/// program make this transfer. On any failure the ledger is as it was.
pub fn initialize(
    ledger: &mut Ledger,
    program_id: &Address,
    accounts: &Initialize,
    initial_prize: u64,
) -> (r: Result<Instruction, ErrorCode>)
    ensures
        match initialize_outcome(old(ledger)@, program_id@, *accounts, initial_prize) {
            Ok(after) => final(ledger)@ == after && r is Ok,
            Err(e) => final(ledger)@ == old(ledger)@ && r == Err::<Instruction, ErrorCode>(e),
        },
        r matches Ok(deposit) ==> is_transfer(
            deposit,
            accounts.caller@,
            contest_addresses(program_id@).unwrap().1,
            initial_prize,
        ),
        r matches Err(e) ==> e == ErrorCode::NoValidAddress || e == ErrorCode::AlreadyExists || e
            == ErrorCode::InvalidPrize || e == ErrorCode::InsufficientFunds,
{
    match addresses(program_id) {
        Ok(at) => initialize_at(ledger, &at, accounts, initial_prize),
        Err(e) => Err(e),
    }
}

/// Makes a bid, given the state address of the contest and the address derived for its
/// escrow: moves `new_prize` from the caller into escrow, refunds the old prize from
/// escrow to the old leader, and records the caller as leader at `new_prize`. Returns the
/// instruction that has the system program make the deposit. On any failure the ledger is
/// as it was.
pub fn become_king_at(
    ledger: &mut Ledger,
    state: &Address,
    escrow: &Option<Address>,
    accounts: &BecomeKing,
    new_prize: u64,
) -> (r: Result<Instruction, ErrorCode>)
    ensures
        match become_king_at_outcome(
            old(ledger)@,
            state@,
            match *escrow {
                Some(address) => Some(address@),
                None => None,
            },
            *accounts,
            new_prize,
        ) {
            Ok(after) => final(ledger)@ == after && r is Ok,
            Err(e) => final(ledger)@ == old(ledger)@ && r == Err::<Instruction, ErrorCode>(e),
        },
        r matches Ok(deposit) ==> is_transfer(
            deposit,
            accounts.caller@,
            accounts.escrow@,
            new_prize,
        ),
        r matches Err(e) ==> e == ErrorCode::AddressMismatch || e == ErrorCode::LeaderMismatch || e
            == ErrorCode::BidTooLow || e == ErrorCode::InsufficientFunds || e
            == ErrorCode::Overflow,
{
    let game = match ledger.record(&accounts.state) {
        Some(Record::Game(game)) => game,
        _ => return Err(ErrorCode::AddressMismatch),
    };
    if *state != accounts.state {
        return Err(ErrorCode::AddressMismatch);
    }
    if accounts.leader != game.leader {
        return Err(ErrorCode::LeaderMismatch);
    }
    match check_claim(escrow, &accounts.escrow) {
        Ok(()) => {},
        Err(e) => return Err(e),
    }
    if new_prize <= game.prize {
        return Err(ErrorCode::BidTooLow);
    }
    // Every refusal is found before the first change, so that a failure leaves no trace.
    if ledger.balance(&accounts.caller) < new_prize {
        return Err(ErrorCode::InsufficientFunds);
    }
    let deposit_grows_escrow = accounts.caller != accounts.escrow;
    if deposit_grows_escrow && ledger.balance(&accounts.escrow) > u64::MAX - new_prize {
        return Err(ErrorCode::Overflow);
    }
    // A leader who is also the caller has paid in more than the refund gives back.
    let refund_grows_leader = accounts.leader != accounts.escrow && accounts.leader
        != accounts.caller;
    if refund_grows_leader && ledger.balance(&accounts.leader) > u64::MAX - game.prize {
        return Err(ErrorCode::Overflow);
    }
    // The deposit comes first: the escrow never holds less than the prize.
    match ledger.transfer(&accounts.caller, &accounts.escrow, new_prize) {
        Ok(()) => {},
        Err(e) => return Err(e),
    }
    match ledger.transfer(&accounts.escrow, &accounts.leader, game.prize) {
        Ok(()) => {},
        Err(e) => return Err(e),
    }
    let raised = GameState {
        leader: accounts.caller,
        prize: new_prize,
        escrow_bump: game.escrow_bump,
    };
    ledger.set_record(&accounts.state, Record::Game(raised));
    Ok(system_transfer(&accounts.caller, &accounts.escrow, new_prize))
}

/// Takes the lead of a program's contest with a higher bid: moves `new_prize` from the
/// caller into escrow, refunds the old prize from escrow to the old leader, and records
/// the caller as leader at `new_prize`. Returns the instruction that has the system
/// program make the deposit. On any failure the ledger is as it was.
pub fn become_king(
    ledger: &mut Ledger,
    program_id: &Address,
    accounts: &BecomeKing,
    new_prize: u64,
) -> (r: Result<Instruction, ErrorCode>)
    ensures
        match become_king_outcome(old(ledger)@, program_id@, *accounts, new_prize) {
            Ok(after) => final(ledger)@ == after && r is Ok,
            Err(e) => final(ledger)@ == old(ledger)@ && r == Err::<Instruction, ErrorCode>(e),
        },
        r matches Ok(deposit) ==> is_transfer(
            deposit,
            accounts.caller@,
            accounts.escrow@,
            new_prize,
        ),
        r matches Err(e) ==> e == ErrorCode::AddressMismatch || e == ErrorCode::LeaderMismatch || e
            == ErrorCode::BidTooLow || e == ErrorCode::InsufficientFunds || e
            == ErrorCode::Overflow,
{
    let state = match derive_address(&single_seed(&STATE_SEED), program_id) {
        Ok((address, _)) => address,
        Err(_) => return Err(ErrorCode::AddressMismatch),
    };
    let escrow = match ledger.record(&accounts.state) {
        Some(Record::Game(game)) => address_for_bump(
            &single_seed(&ESCROW_SEED),
            game.escrow_bump,
            program_id,
        ),
        _ => return Err(ErrorCode::AddressMismatch),
    };
    become_king_at(ledger, &state, &escrow, accounts, new_prize)
}

} // verus!
