//! The trade account and the kinds of trade.
use vstd::prelude::*;

verus! {

/// A public key (an account address), as its 32 bytes.
pub type Key = [u8; 32];

/// What a trade holds in escrow: SOL, SPL tokens, or both.
#[derive(Clone, Copy, Debug, PartialEq, Eq, Structural)]
pub enum TradeType {
    Sol,
    Spl,
    Both,
}

/// The data of a trade account.
///
/// Index 0 of the amount pairs belongs to the first party (the initiator),
/// index 1 to the second party.
#[derive(Clone, Copy, Debug, PartialEq, Eq)]
pub struct Trade {
    /// The public key of the first party (initiator) of the trade
    pub party_one: Key,
    /// The public key of the second party of the trade
    pub party_two: Key,
    /// SOL amount to be exchanged in the transaction
    pub sol_amount: [u64; 2],
    /// SPL amount to be exchanged in the transaction
    pub spl_amount: [u64; 2],
    /// SPL send account of the first party (outgoing)
    pub one_send_address: Option<Key>,
    /// Mint of the SPL token sent by the first party
    pub one_mint: Option<Key>,
    /// SPL send account of the second party (outgoing)
    pub two_send_address: Option<Key>,
    /// SPL receive account of the second party (incoming)
    pub two_receive_address: Option<Key>,
    /// Mint of the SPL token sent by the second party
    pub two_mint: Option<Key>,
    /// Whether the trade is confirmed by the second party
    pub is_confirmed: bool,
}

impl Trade {
    /// Space of a trade account: an 8-byte account discriminator followed by
    /// the largest encoding of the fields.
    pub const LEN: usize = 8 + 32 + 32 + 16 + 16 + 33 + 33 + 33 + 33 + 33 + 1;

    /// A freshly opened trade: the first party's deposit is recorded, nothing
    /// of the second party is, and the trade is not confirmed.
    pub open spec fn opened(
        party_one: Key,
        party_two: Key,
        sol_amount: u64,
        spl_amount: u64,
        one_send_address: Option<Key>,
        one_mint: Option<Key>,
        t: Trade,
    ) -> bool {
        &&& t.party_one == party_one
        &&& t.party_two == party_two
        &&& t.sol_amount@ == seq![sol_amount, 0u64]
        &&& t.spl_amount@ == seq![spl_amount, 0u64]
        &&& t.one_send_address == one_send_address
        &&& t.one_mint == one_mint
        &&& t.two_send_address is None
        &&& t.two_receive_address is None
        &&& t.two_mint is None
        &&& !t.is_confirmed
    }

    pub fn new(
        party_one: Key,
        party_two: Key,
        sol_amount: u64,
        spl_amount: u64,
        one_send_address: Option<Key>,
        one_mint: Option<Key>,
    ) -> (t: Self)
        ensures
            Trade::opened(party_one, party_two, sol_amount, spl_amount, one_send_address, one_mint, t),
    {
        Trade {
            party_one,
            party_two,
            sol_amount: [sol_amount, 0],
            spl_amount: [spl_amount, 0],
            one_send_address,
            two_send_address: None,
            two_receive_address: None,
            is_confirmed: false,
            one_mint,
            two_mint: None,
        }
    }
}

} // verus!
