//! The transfer operations and the routing rule they rest on.

use crate::balance::Balance;
use crate::host::{Call, Config, DeliveryError, Host, Outcome};
use crate::location::{AccountId, Location};
use crate::message::{build_relay_withdraw_deposit, Message, MessageView};
use vstd::prelude::*;

verus! {

/// The most weight that a transfer to the relay chain may use when it runs here.
pub const RELAY_TRANSFER_WEIGHT_LIMIT: u64 = 3_000_000;

/// Who asks for an operation.
#[derive(Clone, Copy, Debug, PartialEq, Eq)]
pub enum Origin {
    /// The chain itself.
    Root,
    /// The account that signed the request.
    Signed(AccountId),
    /// Nobody: the request carries no signature.
    Unsigned,
}

/// Why a message was not relayed.
#[derive(Clone, Copy, Debug, PartialEq, Eq, Structural)]
pub enum RouteError {
    /// The router did not take the message.
    DeliveryFailed,
}

/// Why a transfer was given up.
#[derive(Clone, Copy, Debug, PartialEq, Eq, Structural)]
pub enum Error {
    /// The request is not signed by an account.
    Unauthorized,
    /// An account has no location.
    ConversionFailed,
    /// No bound on the message's weight can be given.
    UnweighableMessage,
    /// The router did not take the message.
    DeliveryFailed,
}

/// The account that signed, or [`Error::Unauthorized`] where none did.
pub open spec fn signer(origin: Origin) -> Result<AccountId, Error> {
    match origin {
        Origin::Signed(account) => Ok(account),
        _ => Err(Error::Unauthorized),
    }
}

/// Tells the signing account of a request, and refuses every request that no
/// account signed.
pub fn ensure_signed(origin: Origin) -> (r: Result<AccountId, Error>)
    ensures
        r == signer(origin),
{
    match origin {
        Origin::Signed(account) => Ok(account),
        _ => Err(Error::Unauthorized),
    }
}

/// The message that the router gets for `message` sent from `interior`: the
/// message itself where `interior` is the sender as a whole, and otherwise the
/// message in an envelope that names `interior`.
pub open spec fn relayed(interior: Location, message: MessageView) -> MessageView {
    match interior {
        Location::Null => message,
        who => MessageView::RelayedFrom { who, message: Box::new(message) },
    }
}

/// Puts `message` into the envelope that names `interior`, unless `interior` is
/// [`Location::Null`], which gets no envelope.
pub fn relay_envelope(interior: Location, message: Message) -> (r: Message)
    ensures
        r@ == relayed(interior, message@),
        interior == Location::Null ==> r@ == message@,
        interior != Location::Null ==> r@ == (MessageView::RelayedFrom {
            who: interior,
            message: Box::new(message@),
        }),
{
    match interior {
        Location::Null => message,
        who => Message::RelayedFrom { who, message: Box::new(message) },
    }
}

/// What the sender of a message learns of the router's answer.
pub open spec fn routed(sent: Result<(), DeliveryError>) -> Result<(), RouteError> {
    match sent {
        Ok(()) => Ok(()),
        Err(_) => Err(RouteError::DeliveryFailed),
    }
}

/// Turns the router's answer into the sender's: every failure of the router is a
/// failed delivery.
pub fn route_result(sent: Result<(), DeliveryError>) -> (r: Result<(), RouteError>)
    ensures
        r == routed(sent),
{
    match sent {
        Ok(()) => Ok(()),
        Err(_) => Err(RouteError::DeliveryFailed),
    }
}

/// Whether `calls` is the one call that hands `message` to the router for `dest`,
/// and `r` is what its answer means to the sender.
pub open spec fn is_relay(
    calls: Seq<Call>,
    dest: Location,
    message: MessageView,
    r: Result<(), RouteError>,
) -> bool {
    &&& calls.len() == 1
    &&& calls[0] matches Call::SendXcm { dest: to, message: said, sent }
    &&& to == dest
    &&& said == message
    &&& r == routed(sent)
}

/// Whether `calls` is the one call that hands `message` to the executor, to run as
/// from `origin` within `weight_limit`, and `r` is the outcome it reported.
pub open spec fn is_local_execution(
    calls: Seq<Call>,
    origin: Location,
    message: MessageView,
    weight_limit: u64,
    r: Outcome,
) -> bool {
    &&& calls.len() == 1
    &&& calls[0] matches Call::ExecuteXcm { origin: from, message: said, weight_limit: limit, outcome }
    &&& from == origin
    &&& said == message
    &&& limit == weight_limit
    &&& r == outcome
}

/// Whether `calls` and `r` are a run of a transfer of `message` to the chain where
/// `dest` lives, asked for by `origin`.
///
/// An unsigned request makes no call and is unauthorized. Otherwise the signer's
/// location is asked for, then that of `dest`; either failing ends the run with
/// [`Error::ConversionFailed`]. Then `message` is weighed, and a message without a
/// weight ends the run with [`Error::UnweighableMessage`]. Last, `message` as
/// relayed from the signer's location goes to the router for the location of
/// `dest`, and the run ends as the delivery did.
pub open spec fn is_chain_transfer(
    calls: Seq<Call>,
    origin: Origin,
    dest: AccountId,
    message: MessageView,
    r: Result<(), Error>,
) -> bool {
    match origin {
        Origin::Signed(from) => {
            &&& calls.len() >= 1
            &&& calls[0] matches Call::AccountLocation { account, location: interior }
            &&& account == from
            &&& match interior {
                Err(_) => calls.len() == 1 && r == Err::<(), Error>(Error::ConversionFailed),
                Ok(interior) => {
                    &&& calls.len() >= 2
                    &&& calls[1] matches Call::AccountLocation { account, location: target }
                    &&& account == dest
                    &&& match target {
                        Err(_) => calls.len() == 2 && r == Err::<(), Error>(
                            Error::ConversionFailed,
                        ),
                        Ok(target) => {
                            &&& calls.len() >= 3
                            &&& calls[2] matches Call::Weight { message: weighed, weight }
                            &&& weighed == message
                            &&& match weight {
                                Err(_) => calls.len() == 3 && r == Err::<(), Error>(
                                    Error::UnweighableMessage,
                                ),
                                Ok(_) => {
                                    &&& calls.len() == 4
                                    &&& calls[3] matches Call::SendXcm {
                                        dest: to,
                                        message: said,
                                        sent,
                                    }
                                    &&& to == target
                                    &&& said == relayed(interior, message)
                                    &&& r == match sent {
                                        Ok(()) => Ok::<(), Error>(()),
                                        Err(_) => Err(Error::DeliveryFailed),
                                    }
                                },
                            }
                        },
                    }
                },
            }
        },
        _ => calls.len() == 0 && r == Err::<(), Error>(Error::Unauthorized),
    }
}

/// The message that moves `amount` of the relay chain's asset.
pub open spec fn relay_transfer_message(amount: nat) -> MessageView {
    crate::message::relay_withdraw_deposit(Location::relay(), crate::balance::saturate(amount))
}

/// Whether `calls` and `r` are a run of a transfer of `amount` to the relay chain
/// for `dest`, asked for by `origin`.
///
/// An unsigned request makes no call and is unauthorized. Otherwise the location
/// of `dest` is asked for, and its failing ends the run with
/// [`Error::ConversionFailed`]. Then the message that withdraws the amount, capped
/// at 128 bits, of the relay chain's asset and deposits it again is weighed, and
/// its having no weight ends the run with [`Error::UnweighableMessage`]. Last, the
/// message goes to the executor, to run as from the location of `dest` within
/// [`RELAY_TRANSFER_WEIGHT_LIMIT`], and the run ends with the outcome reported,
/// whatever it is.
pub open spec fn is_relay_transfer(
    calls: Seq<Call>,
    origin: Origin,
    dest: AccountId,
    amount: nat,
    r: Result<Outcome, Error>,
) -> bool {
    match origin {
        Origin::Signed(_) => {
            &&& calls.len() >= 1
            &&& calls[0] matches Call::AccountLocation { account, location: target }
            &&& account == dest
            &&& match target {
                Err(_) => calls.len() == 1 && r == Err::<Outcome, Error>(Error::ConversionFailed),
                Ok(target) => {
                    &&& calls.len() >= 2
                    &&& calls[1] matches Call::Weight { message: weighed, weight }
                    &&& weighed == relay_transfer_message(amount)
                    &&& match weight {
                        Err(_) => calls.len() == 2 && r == Err::<Outcome, Error>(
                            Error::UnweighableMessage,
                        ),
                        Ok(_) => {
                            &&& calls.len() == 3
                            &&& calls[2] matches Call::ExecuteXcm {
                                origin: from,
                                message: said,
                                weight_limit,
                                outcome,
                            }
                            &&& from == target
                            &&& said == relay_transfer_message(amount)
                            &&& weight_limit == RELAY_TRANSFER_WEIGHT_LIMIT
                            &&& r == Ok::<Outcome, Error>(outcome)
                        },
                    }
                },
            }
        },
        _ => calls.len() == 0 && r == Err::<Outcome, Error>(Error::Unauthorized),
    }
}

/// The transfer operations of a parachain, over the capabilities of its chain.
pub struct Pallet<T: Config> {
    host: Host<T>,
}

impl<T: Config> Pallet<T> {
    /// Every call made to a capability so far, oldest first.
    pub closed spec fn journal(&self) -> Seq<Call> {
        self.host.journal()
    }

    /// The calls made since the journal was `before`.
    pub open spec fn calls_since(&self, before: Seq<Call>) -> Seq<Call> {
        self.journal().skip(before.len() as int)
    }

    /// The capabilities as they are now.
    pub closed spec fn config(&self) -> T {
        self.host.config()
    }

    /// A pallet over `config` that has made no call yet.
    pub fn new(config: T) -> (r: Self)
        ensures
            r.config() == config,
            r.journal() == Seq::<Call>::empty(),
    {
        Pallet { host: Host::new(config) }
    }

    /// Gives the capabilities back.
    pub fn into_config(self) -> (r: T)
        ensures
            r == self.config(),
    {
        self.host.into_config()
    }

    /// Relays `message` from `interior`, a location inside this chain, to `dest`.
    ///
    /// Exactly one call is made: the router gets, for `dest`, the message itself
    /// where `interior` is [`Location::Null`], and else the message in an envelope
    /// naming `interior`. A failure of the router is reported as
    /// [`RouteError::DeliveryFailed`].
    pub fn send_xcm(&mut self, interior: Location, dest: Location, message: Message) -> (r: Result<
        (),
        RouteError,
    >)
        ensures
            old(self).journal().is_prefix_of(final(self).journal()),
            is_relay(
                final(self).calls_since(old(self).journal()),
                dest,
                relayed(interior, message@),
                r,
            ),
            interior == Location::Null ==> is_relay(
                final(self).calls_since(old(self).journal()),
                dest,
                message@,
                r,
            ),
            interior != Location::Null ==> is_relay(
                final(self).calls_since(old(self).journal()),
                dest,
                (MessageView::RelayedFrom { who: interior, message: Box::new(message@) }),
                r,
            ),
    {
        let ghost before = self.journal();
        let envelope = relay_envelope(interior, message);
        let sent = self.host.send_xcm(dest, envelope);
        proof {
            lemma_one_more(before, before, self.journal());
        }
        route_result(sent)
    }

    /// Runs `message` on this chain as if it came from `origin`, within
    /// `weight_limit`, and reports the executor's outcome as it is.
    pub fn execute_locally(&mut self, origin: Location, message: Message, weight_limit: u64) -> (r:
        Outcome)
        ensures
            old(self).journal().is_prefix_of(final(self).journal()),
            is_local_execution(
                final(self).calls_since(old(self).journal()),
                origin,
                message@,
                weight_limit,
                r,
            ),
    {
        let ghost before = self.journal();
        let r = self.host.execute_xcm(origin, message, weight_limit);
        proof {
            lemma_one_more(before, before, self.journal());
        }
        r
    }

    /// Transfers by `message` to the chain of `dest`, on behalf of the signer of
    /// `origin`. The message is forwarded as it is: nothing in it is looked at.
    ///
    /// The calls made, and the result for each answer they can get, are those of
    /// [`is_chain_transfer`]. A request that no account signed makes no call.
    pub fn transfer_me_sir(&mut self, origin: Origin, dest: AccountId, message: Message) -> (r:
        Result<(), Error>)
        ensures
            old(self).journal().is_prefix_of(final(self).journal()),
            is_chain_transfer(
                final(self).calls_since(old(self).journal()),
                origin,
                dest,
                message@,
                r,
            ),
            !(origin is Signed) ==> r == Err::<(), Error>(Error::Unauthorized) && final(self).journal() == old(self).journal(),
    {
        let ghost before = self.journal();
        proof {
            lemma_none_more(before);
        }
        let from = match ensure_signed(origin) {
            Ok(from) => from,
            Err(e) => {
                return Err(e);
            },
        };
        let found = self.host.account_location(&from);
        let ghost first = self.journal();
        proof {
            lemma_one_more(before, before, first);
        }
        let interior = match found {
            Ok(interior) => interior,
            Err(_) => {
                return Err(Error::ConversionFailed);
            },
        };
        let found = self.host.account_location(&dest);
        let ghost second = self.journal();
        proof {
            lemma_one_more(before, first, second);
        }
        let target = match found {
            Ok(target) => target,
            Err(_) => {
                return Err(Error::ConversionFailed);
            },
        };
        let weight = self.host.weight(&message);
        let ghost third = self.journal();
        proof {
            lemma_one_more(before, second, third);
        }
        if weight.is_err() {
            return Err(Error::UnweighableMessage);
        }
        let sent = self.send_xcm(interior, target, message);
        proof {
            lemma_more(before, third, self.journal());
        }
        match sent {
            Ok(()) => Ok(()),
            Err(RouteError::DeliveryFailed) => Err(Error::DeliveryFailed),
        }
    }

    /// Transfers `amount` of the relay chain's asset on the relay chain, for
    /// `dest`, on behalf of the signer of `origin`, and reports the executor's
    /// outcome. An outcome is reported as it is, also where the message did not
    /// run to its end.
    ///
    /// The calls made, and the result for each answer they can get, are those of
    /// [`is_relay_transfer`]. A request that no account signed makes no call.
    pub fn transfer_to_relaychain(&mut self, origin: Origin, dest: AccountId, amount: Balance) -> (r:
        Result<Outcome, Error>)
        ensures
            old(self).journal().is_prefix_of(final(self).journal()),
            is_relay_transfer(
                final(self).calls_since(old(self).journal()),
                origin,
                dest,
                amount@,
                r,
            ),
            !(origin is Signed) ==> r == Err::<Outcome, Error>(Error::Unauthorized) && final(self).journal() == old(self).journal(),
    {
        let ghost before = self.journal();
        proof {
            lemma_none_more(before);
        }
        if let Err(e) = ensure_signed(origin) {
            return Err(e);
        }
        let found = self.host.account_location(&dest);
        let ghost first = self.journal();
        proof {
            lemma_one_more(before, before, first);
        }
        let target = match found {
            Ok(target) => target,
            Err(_) => {
                return Err(Error::ConversionFailed);
            },
        };
        let asset_location = Location::parent();
        let amount = amount.saturated_amount();
        let message = build_relay_withdraw_deposit(asset_location, amount);
        let weight = self.host.weight(&message);
        let ghost second = self.journal();
        proof {
            lemma_one_more(before, first, second);
        }
        if weight.is_err() {
            return Err(Error::UnweighableMessage);
        }
        let outcome = self.execute_locally(target, message, RELAY_TRANSFER_WEIGHT_LIMIT);
        proof {
            lemma_more(before, second, self.journal());
        }
        Ok(outcome)
    }
}

/// Nothing follows a journal in itself.
proof fn lemma_none_more(before: Seq<Call>)
    ensures
        before.is_prefix_of(before),
        before.skip(before.len() as int) == Seq::<Call>::empty(),
{
    assert(before.subrange(0, before.len() as int) =~= before);
    assert(before.skip(before.len() as int) =~= Seq::<Call>::empty());
}

/// Where `after` is `middle` with one call pushed, what follows `before` in
/// `after` is what follows it in `middle`, then that call.
proof fn lemma_one_more(before: Seq<Call>, middle: Seq<Call>, after: Seq<Call>)
    requires
        before.is_prefix_of(middle),
        exists|call: Call| after == middle.push(call),
    ensures
        before.is_prefix_of(after),
        after.skip(before.len() as int) == middle.skip(before.len() as int).push(after.last()),
{
    assert(after.subrange(0, before.len() as int) =~= middle.subrange(0, before.len() as int));
    assert(after.skip(before.len() as int) =~= middle.skip(before.len() as int).push(
        after.last(),
    ));
}

/// What follows `before` in `after` is what follows it in `middle`, then what
/// follows `middle` in `after`.
proof fn lemma_more(before: Seq<Call>, middle: Seq<Call>, after: Seq<Call>)
    requires
        before.is_prefix_of(middle),
        middle.is_prefix_of(after),
    ensures
        before.is_prefix_of(after),
        after.skip(before.len() as int) == middle.skip(before.len() as int) + after.skip(
            middle.len() as int,
        ),
{
    assert(after.subrange(0, before.len() as int) =~= middle.subrange(0, before.len() as int));
    assert(after.skip(before.len() as int) =~= middle.skip(before.len() as int) + after.skip(
        middle.len() as int,
    ));
}

} // verus!
