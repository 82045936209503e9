use king_of_the_hill::address::derive_address;
use king_of_the_hill::contest::{
    addresses, become_king_at, game_state, initialize_at, Addresses, ESCROW_SEED, STATE_SEED,
};
use king_of_the_hill::state::Record;
use king_of_the_hill::{
    become_king, initialize, Address, BecomeKing, ErrorCode, GameState, Initialize, Ledger,
};

fn wallet(tag: u8) -> Address {
    let mut bytes = [0u8; 32];
    bytes[0] = tag;
    bytes[31] = 7;
    Address { bytes }
}

fn program() -> Address {
    Address { bytes: [42u8; 32] }
}

fn state_address(program_id: &Address) -> Address {
    addresses(program_id).unwrap().state
}

fn escrow_address(program_id: &Address) -> (Address, u8) {
    let found = addresses(program_id).unwrap();
    (found.escrow, found.escrow_bump)
}

fn game(ledger: &Ledger, program_id: &Address) -> GameState {
    game_state(ledger, program_id).unwrap()
}

fn bid(program_id: &Address, leader: Address, caller: Address) -> BecomeKing {
    BecomeKing {
        caller,
        state: state_address(program_id),
        escrow: escrow_address(program_id).0,
        leader,
    }
}

/// A ledger in which `a` has opened the contest at 100 out of 1000, and `b` holds 1000.
fn opened() -> (Ledger, Address, Address) {
    let (a, b) = (wallet(1), wallet(2));
    let mut ledger = Ledger::new();
    ledger.credit(&a, 1000).unwrap();
    ledger.credit(&b, 1000).unwrap();
    initialize(&mut ledger, &program(), &Initialize { caller: a }, 100).unwrap();
    (ledger, a, b)
}

#[test]
fn seeds_spell_their_names() {
    assert_eq!(&STATE_SEED[..], "game_state".as_bytes());
    assert_eq!(&ESCROW_SEED[..], "prize_pool".as_bytes());
}

#[test]
fn the_records_lie_at_the_derived_addresses() {
    for id in [0u8, 42, 43, 255] {
        let program_id = Address { bytes: [id; 32] };
        let (state, _) = derive_address(&vec![b"game_state".to_vec()], &program_id).unwrap();
        let (escrow, escrow_bump) =
            derive_address(&vec![b"prize_pool".to_vec()], &program_id).unwrap();
        assert_eq!(addresses(&program_id), Ok(Addresses { state, escrow, escrow_bump }));
    }
}

#[test]
fn game_state_reads_the_state_record() {
    let (mut ledger, a, b) = opened();
    assert_eq!(game_state(&Ledger::new(), &program()), None);
    assert_eq!(game_state(&ledger, &Address { bytes: [43u8; 32] }), None);
    let bump = escrow_address(&program()).1;
    let state = GameState { leader: a, prize: 100, escrow_bump: bump };
    assert_eq!(game_state(&ledger, &program()), Some(state));
    assert_eq!(ledger.record(&state_address(&program())), Some(Record::Game(state)));
    become_king(&mut ledger, &program(), &bid(&program(), a, b), 101).unwrap();
    let raised = GameState { leader: b, prize: 101, escrow_bump: bump };
    assert_eq!(game_state(&ledger, &program()), Some(raised));
}

#[test]
fn initialize_opens_the_contest() {
    let a = wallet(1);
    let mut ledger = Ledger::new();
    ledger.credit(&a, 1000).unwrap();
    let result = initialize(&mut ledger, &program(), &Initialize { caller: a }, 100);
    assert!(result.is_ok());
    let (escrow, bump) = escrow_address(&program());
    assert_eq!(game(&ledger, &program()), GameState { leader: a, prize: 100, escrow_bump: bump });
    assert_eq!(ledger.record(&escrow), Some(Record::Escrow));
    assert_eq!(ledger.balance(&escrow), 100);
    assert_eq!(ledger.balance(&a), 900);
    assert_eq!(ledger.balance(&state_address(&program())), 0);
}

#[test]
fn initialize_with_the_whole_balance() {
    let a = wallet(1);
    let mut ledger = Ledger::new();
    ledger.credit(&a, 100).unwrap();
    assert!(initialize(&mut ledger, &program(), &Initialize { caller: a }, 100).is_ok());
    assert_eq!(ledger.balance(&a), 0);
    assert_eq!(ledger.balance(&escrow_address(&program()).0), 100);
}

#[test]
fn initialize_rejects_a_zero_prize() {
    let a = wallet(1);
    let mut ledger = Ledger::new();
    ledger.credit(&a, 1000).unwrap();
    let result = initialize(&mut ledger, &program(), &Initialize { caller: a }, 0);
    assert_eq!(result, Err(ErrorCode::InvalidPrize));
    assert_eq!(ledger.record(&state_address(&program())), None);
    assert_eq!(ledger.record(&escrow_address(&program()).0), None);
    assert_eq!(ledger.balance(&a), 1000);
    assert_eq!(ledger.balance(&escrow_address(&program()).0), 0);
}

#[test]
fn initialize_without_funds_creates_nothing() {
    let a = wallet(1);
    let mut ledger = Ledger::new();
    ledger.credit(&a, 99).unwrap();
    let result = initialize(&mut ledger, &program(), &Initialize { caller: a }, 100);
    assert_eq!(result, Err(ErrorCode::InsufficientFunds));
    assert_eq!(ledger.record(&state_address(&program())), None);
    assert_eq!(ledger.record(&escrow_address(&program()).0), None);
    assert_eq!(ledger.balance(&a), 99);
}

#[test]
fn initialize_twice_fails_and_changes_nothing() {
    let (mut ledger, a, b) = opened();
    let before = game(&ledger, &program());
    let again = initialize(&mut ledger, &program(), &Initialize { caller: a }, 100);
    assert_eq!(again, Err(ErrorCode::AlreadyExists));
    let other = initialize(&mut ledger, &program(), &Initialize { caller: b }, 500);
    assert_eq!(other, Err(ErrorCode::AlreadyExists));
    let zero = initialize(&mut ledger, &program(), &Initialize { caller: b }, 0);
    assert_eq!(zero, Err(ErrorCode::AlreadyExists));
    assert_eq!(game(&ledger, &program()), before);
    assert_eq!(ledger.balance(&a), 900);
    assert_eq!(ledger.balance(&b), 1000);
    assert_eq!(ledger.balance(&escrow_address(&program()).0), 100);
}

#[test]
fn initialize_refuses_a_funded_escrow_address() {
    let a = wallet(1);
    let mut ledger = Ledger::new();
    ledger.credit(&a, 1000).unwrap();
    ledger.credit(&escrow_address(&program()).0, 1).unwrap();
    let result = initialize(&mut ledger, &program(), &Initialize { caller: a }, 100);
    assert_eq!(result, Err(ErrorCode::AlreadyExists));
    assert_eq!(ledger.record(&state_address(&program())), None);
    assert_eq!(ledger.balance(&a), 1000);
}

#[test]
fn contests_of_two_programs_are_apart() {
    let (mut ledger, a, b) = opened();
    let other = Address { bytes: [43u8; 32] };
    assert_ne!(state_address(&other), state_address(&program()));
    assert_ne!(escrow_address(&other).0, escrow_address(&program()).0);
    assert_ne!(state_address(&program()), escrow_address(&program()).0);
    assert!(initialize(&mut ledger, &other, &Initialize { caller: b }, 300).is_ok());
    assert_eq!(game(&ledger, &other).prize, 300);
    assert_eq!(game(&ledger, &other).leader, b);
    assert_eq!(game(&ledger, &program()).prize, 100);
    assert_eq!(game(&ledger, &program()).leader, a);
    assert_eq!(ledger.balance(&escrow_address(&other).0), 300);
    assert_eq!(ledger.balance(&escrow_address(&program()).0), 100);
}

#[test]
fn become_king_refunds_the_leader() {
    let (mut ledger, a, b) = opened();
    let result = become_king(&mut ledger, &program(), &bid(&program(), a, b), 150);
    assert!(result.is_ok());
    let state = game(&ledger, &program());
    assert_eq!(state.leader, b);
    assert_eq!(state.prize, 150);
    assert_eq!(state.escrow_bump, escrow_address(&program()).1);
    assert_eq!(ledger.balance(&a), 900 + 100);
    assert_eq!(ledger.balance(&b), 1000 - 150);
    assert_eq!(ledger.balance(&escrow_address(&program()).0), 150);
}

#[test]
fn become_king_rejects_a_low_bid() {
    let (mut ledger, a, b) = opened();
    let result = become_king(&mut ledger, &program(), &bid(&program(), a, b), 90);
    assert_eq!(result, Err(ErrorCode::BidTooLow));
    assert_eq!(game(&ledger, &program()).leader, a);
    assert_eq!(game(&ledger, &program()).prize, 100);
    assert_eq!(ledger.balance(&a), 900);
    assert_eq!(ledger.balance(&b), 1000);
    assert_eq!(ledger.balance(&escrow_address(&program()).0), 100);
}

#[test]
fn become_king_rejects_an_equal_bid() {
    let (mut ledger, a, b) = opened();
    let result = become_king(&mut ledger, &program(), &bid(&program(), a, b), 100);
    assert_eq!(result, Err(ErrorCode::BidTooLow));
    assert_eq!(game(&ledger, &program()).prize, 100);
    let next = become_king(&mut ledger, &program(), &bid(&program(), a, b), 101);
    assert!(next.is_ok());
    assert_eq!(game(&ledger, &program()).prize, 101);
}

#[test]
fn become_king_rejects_a_wrong_leader() {
    let (mut ledger, a, b) = opened();
    let result = become_king(&mut ledger, &program(), &bid(&program(), b, b), 150);
    assert_eq!(result, Err(ErrorCode::LeaderMismatch));
    assert_eq!(game(&ledger, &program()).leader, a);
    assert_eq!(ledger.balance(&b), 1000);
    assert_eq!(ledger.balance(&escrow_address(&program()).0), 100);
}

#[test]
fn become_king_rejects_a_forged_escrow() {
    let (mut ledger, a, b) = opened();
    let mut accounts = bid(&program(), a, b);
    accounts.escrow = wallet(9);
    let result = become_king(&mut ledger, &program(), &accounts, 150);
    assert_eq!(result, Err(ErrorCode::AddressMismatch));
    assert_eq!(game(&ledger, &program()).leader, a);
    assert_eq!(ledger.balance(&b), 1000);
    assert_eq!(ledger.balance(&wallet(9)), 0);
}

#[test]
fn become_king_rejects_a_forged_state_record() {
    let (mut ledger, a, b) = opened();
    let forged = wallet(8);
    let state = GameState { leader: a, prize: 1, escrow_bump: escrow_address(&program()).1 };
    ledger.create_record(&forged, Record::Game(state)).unwrap();
    let mut accounts = bid(&program(), a, b);
    accounts.state = forged;
    let result = become_king(&mut ledger, &program(), &accounts, 2);
    assert_eq!(result, Err(ErrorCode::AddressMismatch));
    assert_eq!(game(&ledger, &program()).prize, 100);
    assert_eq!(ledger.balance(&b), 1000);
}

#[test]
fn become_king_before_initialize_is_an_address_mismatch() {
    let (a, b) = (wallet(1), wallet(2));
    let mut ledger = Ledger::new();
    ledger.credit(&b, 1000).unwrap();
    let result = become_king(&mut ledger, &program(), &bid(&program(), a, b), 150);
    assert_eq!(result, Err(ErrorCode::AddressMismatch));
    assert_eq!(ledger.balance(&b), 1000);
    assert_eq!(ledger.record(&state_address(&program())), None);
}

#[test]
fn become_king_of_another_program_is_an_address_mismatch() {
    let (mut ledger, a, b) = opened();
    let other = Address { bytes: [43u8; 32] };
    let result = become_king(&mut ledger, &other, &bid(&program(), a, b), 150);
    assert_eq!(result, Err(ErrorCode::AddressMismatch));
    assert_eq!(game(&ledger, &program()).prize, 100);
}

#[test]
fn become_king_without_funds() {
    let (mut ledger, a, b) = opened();
    let result = become_king(&mut ledger, &program(), &bid(&program(), a, b), 1001);
    assert_eq!(result, Err(ErrorCode::InsufficientFunds));
    assert_eq!(game(&ledger, &program()).leader, a);
    assert_eq!(ledger.balance(&b), 1000);
    assert_eq!(ledger.balance(&escrow_address(&program()).0), 100);
}

#[test]
fn become_king_guards_the_refund_against_overflow() {
    let (mut ledger, a, b) = opened();
    ledger.credit(&a, u64::MAX - 900 - 99).unwrap();
    assert_eq!(ledger.balance(&a), u64::MAX - 99);
    let result = become_king(&mut ledger, &program(), &bid(&program(), a, b), 150);
    assert_eq!(result, Err(ErrorCode::Overflow));
    assert_eq!(game(&ledger, &program()).leader, a);
    assert_eq!(game(&ledger, &program()).prize, 100);
    assert_eq!(ledger.balance(&a), u64::MAX - 99);
    assert_eq!(ledger.balance(&b), 1000);
    assert_eq!(ledger.balance(&escrow_address(&program()).0), 100);
}

#[test]
fn become_king_guards_the_deposit_against_overflow() {
    let (mut ledger, a, b) = opened();
    ledger.credit(&escrow_address(&program()).0, u64::MAX - 100 - 149).unwrap();
    let result = become_king(&mut ledger, &program(), &bid(&program(), a, b), 150);
    assert_eq!(result, Err(ErrorCode::Overflow));
    assert_eq!(ledger.balance(&b), 1000);
    assert_eq!(ledger.balance(&escrow_address(&program()).0), u64::MAX - 149);
    ledger.credit(&b, 0).unwrap();
    let fits = become_king(&mut ledger, &program(), &bid(&program(), a, b), 149);
    assert!(fits.is_ok());
    assert_eq!(ledger.balance(&escrow_address(&program()).0), u64::MAX - 100);
}

#[test]
fn the_leader_may_outbid_themselves() {
    let (mut ledger, a, _) = opened();
    let result = become_king(&mut ledger, &program(), &bid(&program(), a, a), 150);
    assert!(result.is_ok());
    assert_eq!(game(&ledger, &program()).leader, a);
    assert_eq!(game(&ledger, &program()).prize, 150);
    assert_eq!(ledger.balance(&a), 900 - 150 + 100);
    assert_eq!(ledger.balance(&escrow_address(&program()).0), 150);
}

#[test]
fn the_escrow_cannot_bid() {
    let (mut ledger, a, _) = opened();
    let escrow = escrow_address(&program()).0;
    let result = become_king(&mut ledger, &program(), &bid(&program(), a, escrow), 150);
    assert_eq!(result, Err(ErrorCode::InsufficientFunds));
    assert_eq!(ledger.balance(&escrow), 100);
}

#[test]
fn the_prize_only_rises_and_escrow_holds_it() {
    let (mut ledger, a, b) = opened();
    let c = wallet(3);
    ledger.credit(&c, 5000).unwrap();
    let escrow = escrow_address(&program()).0;
    let calls = [(a, b, 150u64), (b, c, 120), (b, c, 151), (c, a, 151), (c, a, 400), (a, b, 5000)];
    let mut last = 100;
    for (leader, caller, amount) in calls {
        let result = become_king(&mut ledger, &program(), &bid(&program(), leader, caller), amount);
        let state = game(&ledger, &program());
        assert!(state.prize >= last);
        if result.is_ok() {
            assert!(amount > last);
            assert_eq!(state.prize, amount);
            assert_eq!(state.leader, caller);
        } else {
            assert_eq!(state.prize, last);
        }
        assert_eq!(ledger.balance(&escrow), state.prize);
        last = state.prize;
    }
    assert_eq!(last, 400);
    assert_eq!(game(&ledger, &program()).leader, a);
    assert_eq!(ledger.balance(&a), 900 + 100 - 400);
    assert_eq!(ledger.balance(&b), 1000 - 150 + 150);
    assert_eq!(ledger.balance(&c), 5000 - 151 + 151);
    assert_eq!(ledger.balance(&a) + ledger.balance(&b) + ledger.balance(&c) + 400, 7000);
}

fn plain_addresses() -> Addresses {
    Addresses { state: wallet(100), escrow: wallet(101), escrow_bump: 7 }
}

fn plain_bid(leader: Address, caller: Address) -> BecomeKing {
    BecomeKing { caller, state: wallet(100), escrow: wallet(101), leader }
}

#[test]
fn initialize_at_given_addresses() {
    let (a, at) = (wallet(1), plain_addresses());
    let mut ledger = Ledger::new();
    ledger.credit(&a, 1000).unwrap();
    assert!(initialize_at(&mut ledger, &at, &Initialize { caller: a }, 100).is_ok());
    let state = GameState { leader: a, prize: 100, escrow_bump: 7 };
    assert_eq!(ledger.record(&at.state), Some(Record::Game(state)));
    assert_eq!(ledger.record(&at.escrow), Some(Record::Escrow));
    assert_eq!(ledger.balance(&at.escrow), 100);
    assert_eq!(ledger.balance(&a), 900);
    assert_eq!(
        initialize_at(&mut ledger, &at, &Initialize { caller: a }, 100),
        Err(ErrorCode::AlreadyExists)
    );
}

#[test]
fn initialize_at_one_address_for_both_records() {
    let a = wallet(1);
    let at = Addresses { state: wallet(100), escrow: wallet(100), escrow_bump: 7 };
    let mut ledger = Ledger::new();
    ledger.credit(&a, 1000).unwrap();
    assert_eq!(
        initialize_at(&mut ledger, &at, &Initialize { caller: a }, 100),
        Err(ErrorCode::AlreadyExists)
    );
    assert_eq!(ledger.record(&wallet(100)), None);
    assert_eq!(ledger.balance(&a), 1000);
}

#[test]
fn initialize_at_refuses_in_order() {
    let (a, at) = (wallet(1), plain_addresses());
    let mut ledger = Ledger::new();
    assert_eq!(
        initialize_at(&mut ledger, &at, &Initialize { caller: a }, 0),
        Err(ErrorCode::InvalidPrize)
    );
    assert_eq!(
        initialize_at(&mut ledger, &at, &Initialize { caller: a }, 1),
        Err(ErrorCode::InsufficientFunds)
    );
    ledger.credit(&at.state, 1).unwrap();
    assert_eq!(
        initialize_at(&mut ledger, &at, &Initialize { caller: a }, 0),
        Err(ErrorCode::AlreadyExists)
    );
    assert_eq!(ledger.record(&at.state), None);
    assert_eq!(ledger.record(&at.escrow), None);
}

#[test]
fn become_king_at_given_addresses() {
    let (a, b, at) = (wallet(1), wallet(2), plain_addresses());
    let mut ledger = Ledger::new();
    ledger.credit(&a, 1000).unwrap();
    ledger.credit(&b, 1000).unwrap();
    initialize_at(&mut ledger, &at, &Initialize { caller: a }, 100).unwrap();
    let derived = Some(at.escrow);
    assert!(become_king_at(&mut ledger, &at.state, &derived, &plain_bid(a, b), 150).is_ok());
    let state = GameState { leader: b, prize: 150, escrow_bump: 7 };
    assert_eq!(ledger.record(&at.state), Some(Record::Game(state)));
    assert_eq!(ledger.balance(&a), 1000);
    assert_eq!(ledger.balance(&b), 850);
    assert_eq!(ledger.balance(&at.escrow), 150);
}

#[test]
fn become_king_at_refuses_in_order() {
    let (a, b, at) = (wallet(1), wallet(2), plain_addresses());
    let mut ledger = Ledger::new();
    ledger.credit(&a, 1000).unwrap();
    initialize_at(&mut ledger, &at, &Initialize { caller: a }, 100).unwrap();
    let derived = Some(at.escrow);
    let wrong = BecomeKing { caller: b, state: wallet(100), escrow: wallet(9), leader: b };
    assert_eq!(
        become_king_at(&mut ledger, &wallet(99), &None, &wrong, 50),
        Err(ErrorCode::AddressMismatch)
    );
    assert_eq!(
        become_king_at(&mut ledger, &at.state, &None, &wrong, 50),
        Err(ErrorCode::LeaderMismatch)
    );
    let wrong = BecomeKing { leader: a, ..wrong };
    assert_eq!(
        become_king_at(&mut ledger, &at.state, &derived, &wrong, 50),
        Err(ErrorCode::AddressMismatch)
    );
    assert_eq!(
        become_king_at(&mut ledger, &at.state, &None, &plain_bid(a, b), 50),
        Err(ErrorCode::AddressMismatch)
    );
    assert_eq!(
        become_king_at(&mut ledger, &at.state, &derived, &plain_bid(a, b), 50),
        Err(ErrorCode::BidTooLow)
    );
    assert_eq!(
        become_king_at(&mut ledger, &at.state, &derived, &plain_bid(a, b), 150),
        Err(ErrorCode::InsufficientFunds)
    );
    ledger.credit(&b, 150).unwrap();
    ledger.credit(&a, u64::MAX - 900 - 99).unwrap();
    assert_eq!(
        become_king_at(&mut ledger, &at.state, &derived, &plain_bid(a, b), 150),
        Err(ErrorCode::Overflow)
    );
    let state = GameState { leader: a, prize: 100, escrow_bump: 7 };
    assert_eq!(ledger.record(&at.state), Some(Record::Game(state)));
    assert_eq!(ledger.balance(&b), 150);
    assert_eq!(ledger.balance(&at.escrow), 100);
}

#[test]
fn become_king_at_an_address_without_a_state_record() {
    let (a, b, at) = (wallet(1), wallet(2), plain_addresses());
    let mut ledger = Ledger::new();
    ledger.credit(&b, 1000).unwrap();
    ledger.create_record(&at.state, Record::Escrow).unwrap();
    assert_eq!(
        become_king_at(&mut ledger, &at.state, &Some(at.escrow), &plain_bid(a, b), 150),
        Err(ErrorCode::AddressMismatch)
    );
    assert_eq!(ledger.balance(&b), 1000);
}
