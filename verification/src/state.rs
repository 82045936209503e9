//! What the records of the contest hold.

use crate::address::Address;
use vstd::prelude::*;

verus! {

/// The contest's state record: who leads, at what prize, and the bump seed of the escrow
/// address.
#[derive(Clone, Copy, Debug, PartialEq, Eq)]
pub struct GameState {
    pub leader: Address,
    pub prize: u64,
    pub escrow_bump: u8,
}

/// A state record with its leader as bytes.
pub struct GameStateView {
    pub leader: Seq<u8>,
    pub prize: u64,
    pub escrow_bump: u8,
}

impl View for GameState {
    type V = GameStateView;

    open spec fn view(&self) -> GameStateView {
        GameStateView { leader: self.leader@, prize: self.prize, escrow_bump: self.escrow_bump }
    }
}

/// What a record of the contest holds.
#[derive(Clone, Copy, Debug, PartialEq, Eq)]
pub enum Record {
    /// The custody account: a balance and nothing else.
    Escrow,
    /// The state record.
    Game(GameState),
}

/// A record with its addresses as bytes.
pub enum RecordView {
    Escrow,
    Game(GameStateView),
}

impl View for Record {
    type V = RecordView;

    open spec fn view(&self) -> RecordView {
        match *self {
            Record::Escrow => RecordView::Escrow,
            Record::Game(state) => RecordView::Game(state@),
        }
    }
}

} // verus!
