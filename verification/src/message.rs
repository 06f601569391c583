//! Cross-chain messages: assets, instructions, and the programs made of them.

use crate::location::Location;
use vstd::prelude::*;

verus! {

/// An amount of the fungible asset class that a location names.
#[derive(Clone, Copy, Debug, PartialEq, Eq)]
pub struct Asset {
    pub id: Location,
    pub amount: u128,
}

/// A choice among the assets that a program holds while it runs.
#[derive(Clone, Copy, Debug, PartialEq, Eq)]
pub enum AssetFilter {
    /// Everything held at that point.
    All,
    /// The given asset.
    Definite(Asset),
}

/// One step of a cross-chain program.
#[derive(Clone, Copy, Debug, PartialEq, Eq)]
pub enum Instruction {
    /// Take the asset out of the origin's account into holding.
    WithdrawAsset { asset: Asset },
    /// Put the chosen assets from holding into the account of `destination`.
    DepositAsset { assets: AssetFilter, destination: Location },
}

/// A cross-chain message: a program, or a message sent on behalf of an interior
/// location.
#[derive(Debug, PartialEq, Eq)]
pub enum Message {
    /// The instructions, in the order they run.
    Program(Vec<Instruction>),
    /// `message`, as it came from `who` inside the sender.
    RelayedFrom { who: Location, message: Box<Message> },
}

/// What a [`Message`] says.
pub enum MessageView {
    /// The instructions, in the order they run.
    Program(Seq<Instruction>),
    /// `message`, as it came from `who` inside the sender.
    RelayedFrom { who: Location, message: Box<MessageView> },
}

impl Message {
    /// What the message says: its instructions as a sequence, its envelopes kept.
    pub open spec fn content(self) -> MessageView
        decreases self,
    {
        match self {
            Message::Program(instructions) => MessageView::Program(instructions@),
            Message::RelayedFrom { who, message } => MessageView::RelayedFrom {
                who,
                message: Box::new(message.content()),
            },
        }
    }
}

impl View for Message {
    type V = MessageView;

    open spec fn view(&self) -> MessageView {
        self.content()
    }
}

/// The program that moves `amount` of the asset at `asset_location`: withdraw it,
/// then deposit all that is held at `asset_location` itself.
pub open spec fn relay_withdraw_deposit(asset_location: Location, amount: u128) -> MessageView {
    MessageView::Program(
        seq![
            Instruction::WithdrawAsset { asset: Asset { id: asset_location, amount } },
            Instruction::DepositAsset { assets: AssetFilter::All, destination: asset_location },
        ],
    )
}

/// Builds the withdraw-then-deposit program for a transfer of `amount` of the asset
/// at `asset_location`. The deposit takes everything held, so it goes to the
/// asset's own location. No amount is special: zero gives the same two
/// instructions.
pub fn build_relay_withdraw_deposit(asset_location: Location, amount: u128) -> (r: Message)
    ensures
        r@ == relay_withdraw_deposit(asset_location, amount),
        r@ matches MessageView::Program(instructions) && instructions.len() == 2,
{
    let mut instructions: Vec<Instruction> = Vec::new();
    instructions.push(Instruction::WithdrawAsset { asset: Asset { id: asset_location, amount } });
    instructions.push(
        Instruction::DepositAsset { assets: AssetFilter::All, destination: asset_location },
    );
    let r = Message::Program(instructions);
    assert(r@ == relay_withdraw_deposit(asset_location, amount)) by {
        assert(instructions@ =~= seq![
            Instruction::WithdrawAsset { asset: Asset { id: asset_location, amount } },
            Instruction::DepositAsset { assets: AssetFilter::All, destination: asset_location },
        ]);
    }
    r
}

} // verus!
