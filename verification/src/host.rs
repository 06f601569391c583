//! The capabilities that the surrounding chain supplies, and a record of their use.

use crate::location::{AccountId, ConversionError, Location};
use crate::message::{Message, MessageView};
use vstd::prelude::*;

verus! {

/// Why the transport layer did not take a message.
#[derive(Clone, Copy, Debug, PartialEq, Eq, Structural)]
pub enum DeliveryError {
    /// This transport does not serve the destination.
    NotApplicable,
    /// The transport itself failed.
    Transport,
    /// No route to the destination is known.
    Unroutable,
    /// The destination does not understand the message's format.
    DestinationUnsupported,
    /// The message is too large to be carried.
    ExceedsMaxMessageSize,
    /// The destination or the message was missing.
    MissingArgument,
    /// The delivery fee could not be paid.
    Fees,
}

/// A message to which no bound on its execution weight can be assigned.
#[derive(Clone, Copy, Debug, PartialEq, Eq, Structural)]
pub struct Unweighable;

/// The executor's reason for stopping, as the number the executor gives it.
#[derive(Clone, Copy, Debug, PartialEq, Eq, Structural)]
pub struct ExecutionError(pub u32);

/// What the executor reports of a message.
#[derive(Clone, Copy, Debug, PartialEq, Eq, Structural)]
pub enum Outcome {
    /// It ran to its end and used the given weight.
    Complete { used: u64 },
    /// It started, used the given weight, and stopped on the error.
    Incomplete { used: u64, error: ExecutionError },
    /// It did not start.
    Error { error: ExecutionError },
}

/// What the chain around the pallet provides: the mapping from accounts to
/// locations, the weigher, the router that carries a message to another chain,
/// and the executor that runs a message here.
pub trait Config {
    /// The location that names `account`, or an error where it has none.
    fn account_location(&mut self, account: &AccountId) -> Result<Location, ConversionError>;

    /// An upper bound on the weight that running `message` can use, or an error
    /// where none can be given.
    fn weight(&mut self, message: &Message) -> Result<u64, Unweighable>;

    /// Hands `message` to the transport for `dest`.
    fn send_xcm(&mut self, dest: Location, message: Message) -> Result<(), DeliveryError>;

    /// Runs `message` here as if it came from `origin`, within `weight_limit`.
    fn execute_xcm(&mut self, origin: Location, message: Message, weight_limit: u64) -> Outcome;
}

/// One use of a capability: what was handed to it and what it answered.
pub enum Call {
    /// The location of `account` was asked for.
    AccountLocation { account: AccountId, location: Result<Location, ConversionError> },
    /// `message` was weighed.
    Weight { message: MessageView, weight: Result<u64, Unweighable> },
    /// `message` was handed to the router for `dest`.
    SendXcm { dest: Location, message: MessageView, sent: Result<(), DeliveryError> },
    /// `message` was handed to the executor, to run as from `origin` within
    /// `weight_limit`.
    ExecuteXcm { origin: Location, message: MessageView, weight_limit: u64, outcome: Outcome },
}

/// A [`Config`] together with the journal of every call made through it. The
/// capabilities can be reached through these methods only, and each method makes
/// exactly one call and enters it, so the journal is the history of the calls.
pub struct Host<T: Config> {
    config: T,
    journal: Ghost<Seq<Call>>,
}

impl<T: Config> Host<T> {
    /// The calls made so far, oldest first.
    pub closed spec fn journal(&self) -> Seq<Call> {
        self.journal@
    }

    /// The capabilities as they are now.
    pub closed spec fn config(&self) -> T {
        self.config
    }

    /// A host around `config` that has made no call yet.
    pub fn new(config: T) -> (r: Self)
        ensures
            r.config() == config,
            r.journal() == Seq::<Call>::empty(),
    {
        Host { config, journal: Ghost(Seq::empty()) }
    }

    /// Gives the capabilities back.
    pub fn into_config(self) -> (r: T)
        ensures
            r == self.config(),
    {
        self.config
    }

    /// Asks for the location of `account`.
    pub fn account_location(&mut self, account: &AccountId) -> (r: Result<
        Location,
        ConversionError,
    >)
        ensures
            final(self).journal() == old(self).journal().push(
                Call::AccountLocation { account: *account, location: r },
            ),
    {
        let r = self.config.account_location(account);
        proof {
            self.journal@ = self.journal@.push(
                Call::AccountLocation { account: *account, location: r },
            );
        }
        r
    }

    /// Asks for the weight of `message`.
    pub fn weight(&mut self, message: &Message) -> (r: Result<u64, Unweighable>)
        ensures
            final(self).journal() == old(self).journal().push(
                Call::Weight { message: message@, weight: r },
            ),
    {
        let r = self.config.weight(message);
        proof {
            self.journal@ = self.journal@.push(Call::Weight { message: message@, weight: r });
        }
        r
    }

    /// Hands `message` to the router for `dest`.
    pub fn send_xcm(&mut self, dest: Location, message: Message) -> (r: Result<(), DeliveryError>)
        ensures
            final(self).journal() == old(self).journal().push(
                Call::SendXcm { dest, message: message@, sent: r },
            ),
    {
        let ghost said = message@;
        let r = self.config.send_xcm(dest, message);
        proof {
            self.journal@ = self.journal@.push(Call::SendXcm { dest, message: said, sent: r });
        }
        r
    }

    /// Hands `message` to the executor, to run as from `origin` within
    /// `weight_limit`.
    pub fn execute_xcm(&mut self, origin: Location, message: Message, weight_limit: u64) -> (r:
        Outcome)
        ensures
            final(self).journal() == old(self).journal().push(
                Call::ExecuteXcm { origin, message: message@, weight_limit, outcome: r },
            ),
    {
        let ghost said = message@;
        let r = self.config.execute_xcm(origin, message, weight_limit);
        proof {
            self.journal@ = self.journal@.push(
                Call::ExecuteXcm { origin, message: said, weight_limit, outcome: r },
            );
        }
        r
    }
}

} // verus!
