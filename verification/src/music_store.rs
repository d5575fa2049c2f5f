//! The music store: records of uploaded music and of what each buyer has bought.
//!
//! A piece of music is sold for tokens.  A purchase is decided here and paid through the
//! host: [`buy_music_token`] records the purchase and returns the payment that the host has
//! to carry out with it, as one indivisible unit.

use crate::address::Address;
use crate::ledger::Transfer;
use vstd::prelude::*;

verus! {

/// Who receives the proceeds of a piece of music, and which share of them.
#[derive(Clone, Copy, Debug, PartialEq, Eq)]
pub struct Royalty {
    pub address: Address,
    /// The share, in percent.
    pub percentage: u8,
}

/// A piece of music on sale.
#[derive(Clone, Debug, PartialEq, Eq)]
pub struct Music {
    pub id: u64,
    pub name: String,
    /// The price, in token units.
    pub price: u64,
    /// Who uploaded the music.
    pub owner: Address,
    pub royalty: Royalty,
    /// The bump of the address that the record is stored under.
    pub bump: u8,
}

/// What one buyer has bought.
#[derive(Clone, Debug, PartialEq, Eq)]
pub struct Buyer {
    /// The music bought, oldest purchase first.
    pub purchased_music_ids: Vec<u64>,
}

/// A failure of the music store.
#[derive(Clone, Copy, Debug, PartialEq, Eq, Structural)]
pub enum ErrorCode {
    MusicNotFound,
    AlreadyPurchased,
    InvalidRoyaltyAccounts,
    InvalidRoyaltyAccount,
    AccountNotWritable,
    InsufficientFunds,
}

/// The accounts of an upload.
#[derive(Clone, Debug, PartialEq, Eq)]
pub struct UploadMusic {
    pub signer: Address,
    /// The record to fill in.
    pub music: Music,
}

/// The accounts of a query for a purchase.
#[derive(Clone, Debug, PartialEq, Eq)]
pub struct HasPurchased {
    pub buyer: Buyer,
    pub signer: Address,
}

/// The accounts of a purchase paid in native currency.
#[derive(Clone, Debug, PartialEq, Eq)]
pub struct BuyMusic {
    pub music: Music,
    pub buyer: Buyer,
    pub payer: Address,
}

/// The accounts of a purchase paid in tokens.
#[derive(Clone, Debug, PartialEq, Eq)]
pub struct BuyMusicToken {
    pub music: Music,
    pub buyer: Buyer,
    /// Who pays, and signs for the payment.
    pub payer: Address,
    /// The token account that the payment is taken from.
    pub buyer_token_account: Address,
    /// The token account of the music's owner, which receives the payment.
    pub owner_token_account: Address,
}

impl ErrorCode {
    /// The text that describes this failure to a reader.
    pub open spec fn spec_message(self) -> Seq<char> {
        match self {
            ErrorCode::MusicNotFound => "Music not found."@,
            ErrorCode::AlreadyPurchased => "User has already purchased this music."@,
            ErrorCode::InvalidRoyaltyAccounts => "Invalid royalty accounts."@,
            ErrorCode::InvalidRoyaltyAccount => "Invalid royalty account address."@,
            ErrorCode::AccountNotWritable => "Royalty account is not writable."@,
            ErrorCode::InsufficientFunds => "Insufficient funds"@,
        }
    }

    /// The text that describes this failure to a reader.
    pub fn message(&self) -> (s: String)
        ensures
            s@ == self.spec_message(),
    {
        match self {
            ErrorCode::MusicNotFound => "Music not found.".to_owned(),
            ErrorCode::AlreadyPurchased => "User has already purchased this music.".to_owned(),
            ErrorCode::InvalidRoyaltyAccounts => "Invalid royalty accounts.".to_owned(),
            ErrorCode::InvalidRoyaltyAccount => "Invalid royalty account address.".to_owned(),
            ErrorCode::AccountNotWritable => "Royalty account is not writable.".to_owned(),
            ErrorCode::InsufficientFunds => "Insufficient funds".to_owned(),
        }
    }
}

impl Buyer {
    /// No piece of music is recorded twice.
    pub open spec fn well_formed(self) -> bool {
        self.purchased_music_ids@.no_duplicates()
    }

    /// Whether the buyer has bought `music_id`.
    pub open spec fn spec_has(&self, music_id: u64) -> bool {
        self.purchased_music_ids@.contains(music_id)
    }

    /// Whether the buyer has bought `music_id`.
    #[verifier::when_used_as_spec(spec_has)]
    pub fn has(&self, music_id: u64) -> (found: bool)
        ensures
            found == self.spec_has(music_id),
    {
        let mut i: usize = 0;
        while i < self.purchased_music_ids.len()
            invariant
                i <= self.purchased_music_ids@.len(),
                forall|j: int| 0 <= j < i ==> self.purchased_music_ids@[j] != music_id,
            decreases self.purchased_music_ids@.len() - i,
        {
            if self.purchased_music_ids[i] == music_id {
                return true;
            }
            i += 1;
        }
        false
    }
}

/// Fills in the record of a newly uploaded piece of music.  The uploader becomes its owner,
/// and all proceeds go to `beneficiary`.
pub fn upload_music(
    ctx: &mut UploadMusic,
    music_id: u64,
    name: String,
    price: u64,
    beneficiary: Address,
    bump: u8,
) -> (r: Result<(), ErrorCode>)
    ensures
        r == Ok::<(), ErrorCode>(()),
        final(ctx).signer == old(ctx).signer,
        final(ctx).music.id == music_id,
        final(ctx).music.name@ == name@,
        final(ctx).music.price == price,
        final(ctx).music.owner == old(ctx).signer,
        final(ctx).music.royalty == (Royalty { address: beneficiary, percentage: 100 }),
        final(ctx).music.bump == bump,
{
    ctx.music.id = music_id;
    ctx.music.name = name;
    ctx.music.price = price;
    ctx.music.owner = ctx.signer;
    ctx.music.royalty = Royalty { address: beneficiary, percentage: 100 };
    ctx.music.bump = bump;
    Ok(())
}

/// Whether the buyer has bought `music_id`.
pub fn has_purchased(ctx: &HasPurchased, music_id: u64) -> (r: Result<bool, ErrorCode>)
    ensures
        r == Ok::<bool, ErrorCode>(ctx.buyer.has(music_id)),
{
    Ok(ctx.buyer.has(music_id))
}

/// Buys `music_id` with tokens.  A buyer who has it already is refused, and the record of
/// purchases stays as it was.  Otherwise the purchase is recorded last, and the result is
/// the payment to carry out: the price of the music, from the buyer's token account to the
/// owner's, on the payer's word.
pub fn buy_music_token(ctx: &mut BuyMusicToken, music_id: u64) -> (r: Result<Transfer, ErrorCode>)
    ensures
        final(ctx).music == old(ctx).music,
        final(ctx).payer == old(ctx).payer,
        final(ctx).buyer_token_account == old(ctx).buyer_token_account,
        final(ctx).owner_token_account == old(ctx).owner_token_account,
        old(ctx).buyer.has(music_id) ==> r == Err::<Transfer, ErrorCode>(
            ErrorCode::AlreadyPurchased,
        ) && final(ctx).buyer == old(ctx).buyer,
        !old(ctx).buyer.has(music_id) ==> r == Ok::<Transfer, ErrorCode>(
            Transfer::Token {
                source: old(ctx).buyer_token_account,
                destination: old(ctx).owner_token_account,
                authority: old(ctx).payer,
                amount: old(ctx).music.price,
            },
        ) && final(ctx).buyer.purchased_music_ids@ == old(ctx).buyer.purchased_music_ids@.push(
            music_id,
        ),
        old(ctx).buyer.well_formed() ==> final(ctx).buyer.well_formed(),
{
    if ctx.buyer.has(music_id) {
        return Err(ErrorCode::AlreadyPurchased);
    }
    let payment = Transfer::Token {
        source: ctx.buyer_token_account,
        destination: ctx.owner_token_account,
        authority: ctx.payer,
        amount: ctx.music.price,
    };
    ctx.buyer.purchased_music_ids.push(music_id);
    proof {
        if old(ctx).buyer.well_formed() {
            let before = old(ctx).buyer.purchased_music_ids@;
            let after = ctx.buyer.purchased_music_ids@;
            assert forall|i: int, j: int|
                0 <= i < after.len() && 0 <= j < after.len() && i != j implies after[i]
                != after[j] by {
                if i < before.len() && j < before.len() {
                    assert(before[i] != before[j]);
                } else if i < before.len() {
                    assert(before.contains(before[i]));
                } else {
                    assert(before.contains(before[j]));
                }
            }
        }
    }
    Ok(payment)
}

/// A purchase is found by every later query, and what was bought before is still found.
pub proof fn law_purchase_is_recorded(before: Seq<u64>, music_id: u64, other: u64)
    ensures
        before.push(music_id).contains(music_id),
        before.contains(other) ==> before.push(music_id).contains(other),
        before.push(music_id).contains(other) ==> other == music_id || before.contains(other),
{
    let after = before.push(music_id);
    assert(after[before.len() as int] == music_id);
    if before.contains(other) {
        let i = choose|i: int| 0 <= i < before.len() && before[i] == other;
        assert(after[i] == other);
    }
    if after.contains(other) {
        let i = choose|i: int| 0 <= i < after.len() && after[i] == other;
        if i < before.len() {
            assert(before[i] == other);
        }
    }
}

} // verus!
