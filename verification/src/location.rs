//! Accounts of the local chain and locations in the cross-chain topology.

use vstd::prelude::*;

verus! {

/// A participant of the local chain, named by a fixed 32-byte identifier.
#[derive(Clone, Copy, Debug, PartialEq, Eq)]
pub struct AccountId(pub [u8; 32]);

/// The network that an account junction belongs to.
#[derive(Clone, Copy, Debug, PartialEq, Eq, Structural)]
pub enum NetworkId {
    /// Any network.
    Any,
    /// The Polkadot relay chain.
    Polkadot,
    /// The Kusama relay chain.
    Kusama,
}

/// One step of a path through the topology.
#[derive(Clone, Copy, Debug, PartialEq, Eq)]
pub enum Junction {
    /// The consensus system one level up.
    Parent,
    /// The parachain with the given index.
    Parachain(u32),
    /// The account with the given 32-byte identifier on the given network.
    AccountId32 { network: NetworkId, id: [u8; 32] },
}

/// A point in the topology: the place itself, or a path of up to eight junctions
/// leading away from it.
#[derive(Clone, Copy, Debug, PartialEq, Eq)]
pub enum Location {
    /// The place the location is interpreted in.
    Null,
    X1(Junction),
    X2(Junction, Junction),
    X3(Junction, Junction, Junction),
    X4(Junction, Junction, Junction, Junction),
    X5(Junction, Junction, Junction, Junction, Junction),
    X6(Junction, Junction, Junction, Junction, Junction, Junction),
    X7(Junction, Junction, Junction, Junction, Junction, Junction, Junction),
    X8(Junction, Junction, Junction, Junction, Junction, Junction, Junction, Junction),
}

/// An account and a location that do not correspond to each other.
#[derive(Clone, Copy, Debug, PartialEq, Eq, Structural)]
pub struct ConversionError;

impl Location {
    /// The junctions of the path, nearest first.
    pub open spec fn path(self) -> Seq<Junction> {
        match self {
            Location::Null => seq![],
            Location::X1(a) => seq![a],
            Location::X2(a, b) => seq![a, b],
            Location::X3(a, b, c) => seq![a, b, c],
            Location::X4(a, b, c, d) => seq![a, b, c, d],
            Location::X5(a, b, c, d, e) => seq![a, b, c, d, e],
            Location::X6(a, b, c, d, e, f) => seq![a, b, c, d, e, f],
            Location::X7(a, b, c, d, e, f, g) => seq![a, b, c, d, e, f, g],
            Location::X8(a, b, c, d, e, f, g, h) => seq![a, b, c, d, e, f, g, h],
        }
    }

    /// Whether this is the place itself, with no junction to follow.
    pub fn is_null(&self) -> (r: bool)
        ensures
            r == (*self == Location::Null),
            r == (self.path().len() == 0),
    {
        matches!(self, Location::Null)
    }

    /// The location with the given path, where there is one: a path has at most
    /// eight junctions.
    pub fn from_junctions(path: &Vec<Junction>) -> (r: Option<Location>)
        ensures
            r is Some <==> path@.len() <= 8,
            r matches Some(location) ==> location.path() == path@,
    {
        let r = match path.len() {
            0 => Some(Location::Null),
            1 => Some(Location::X1(path[0])),
            2 => Some(Location::X2(path[0], path[1])),
            3 => Some(Location::X3(path[0], path[1], path[2])),
            4 => Some(Location::X4(path[0], path[1], path[2], path[3])),
            5 => Some(Location::X5(path[0], path[1], path[2], path[3], path[4])),
            6 => Some(Location::X6(path[0], path[1], path[2], path[3], path[4], path[5])),
            7 => Some(
                Location::X7(path[0], path[1], path[2], path[3], path[4], path[5], path[6]),
            ),
            8 => Some(
                Location::X8(
                    path[0],
                    path[1],
                    path[2],
                    path[3],
                    path[4],
                    path[5],
                    path[6],
                    path[7],
                ),
            ),
            _ => None,
        };
        assert(r matches Some(location) ==> location.path() =~= path@);
        r
    }

    /// The junctions of the path, nearest first.
    pub fn junctions(&self) -> (r: Vec<Junction>)
        ensures
            r@ == self.path(),
    {
        let mut r: Vec<Junction> = Vec::new();
        match *self {
            Location::Null => {},
            Location::X1(a) => {
                r.push(a);
            },
            Location::X2(a, b) => {
                r.push(a);
                r.push(b);
            },
            Location::X3(a, b, c) => {
                r.push(a);
                r.push(b);
                r.push(c);
            },
            Location::X4(a, b, c, d) => {
                r.push(a);
                r.push(b);
                r.push(c);
                r.push(d);
            },
            Location::X5(a, b, c, d, e) => {
                r.push(a);
                r.push(b);
                r.push(c);
                r.push(d);
                r.push(e);
            },
            Location::X6(a, b, c, d, e, f) => {
                r.push(a);
                r.push(b);
                r.push(c);
                r.push(d);
                r.push(e);
                r.push(f);
            },
            Location::X7(a, b, c, d, e, f, g) => {
                r.push(a);
                r.push(b);
                r.push(c);
                r.push(d);
                r.push(e);
                r.push(f);
                r.push(g);
            },
            Location::X8(a, b, c, d, e, f, g, h) => {
                r.push(a);
                r.push(b);
                r.push(c);
                r.push(d);
                r.push(e);
                r.push(f);
                r.push(g);
                r.push(h);
            },
        }
        assert(r@ =~= self.path());
        r
    }

    /// The location of the relay chain as seen from a parachain: one level up.
    pub open spec fn relay() -> Location {
        Location::X1(Junction::Parent)
    }

    /// Builds [`Location::relay`].
    pub fn parent() -> (r: Location)
        ensures
            r == Location::relay(),
    {
        Location::X1(Junction::Parent)
    }
}

/// Two locations with the same path are the same location.
pub proof fn lemma_path_names_one_location(a: Location, b: Location)
    requires
        a.path() == b.path(),
    ensures
        a == b,
{
    let p = a.path();
    let q = b.path();
    assert(p.len() == q.len());
    assert(p.len() > 0 ==> p[0] == q[0]);
    assert(p.len() > 1 ==> p[1] == q[1]);
    assert(p.len() > 2 ==> p[2] == q[2]);
    assert(p.len() > 3 ==> p[3] == q[3]);
    assert(p.len() > 4 ==> p[4] == q[4]);
    assert(p.len() > 5 ==> p[5] == q[5]);
    assert(p.len() > 6 ==> p[6] == q[6]);
    assert(p.len() > 7 ==> p[7] == q[7]);
}

/// The two-way mapping between the accounts of one network and the locations that
/// name them: an account corresponds to the path of the single junction that holds
/// its identifier on that network, and nothing else corresponds to an account.
#[derive(Clone, Copy, Debug, PartialEq, Eq)]
pub struct AccountConverter {
    pub network: NetworkId,
}

impl AccountConverter {
    /// The location that names `account`.
    pub open spec fn location_of(self, account: AccountId) -> Location {
        Location::X1(Junction::AccountId32 { network: self.network, id: account.0 })
    }

    /// The account that `location` names, if it names one.
    pub open spec fn account_of(self, location: Location) -> Option<AccountId> {
        match location {
            Location::X1(Junction::AccountId32 { network, id }) => if network == self.network {
                Some(AccountId(id))
            } else {
                None
            },
            _ => None,
        }
    }

    /// Whether `location` names an account of this converter's network.
    pub open spec fn supports(self, location: Location) -> bool {
        self.account_of(location) is Some
    }

    pub fn new(network: NetworkId) -> (r: AccountConverter)
        ensures
            r.network == network,
    {
        AccountConverter { network }
    }

    /// Maps an account to the location that names it. Every account has one.
    pub fn to_location(&self, account: &AccountId) -> (r: Result<Location, ConversionError>)
        ensures
            r == Ok::<Location, ConversionError>(self.location_of(*account)),
    {
        Ok(Location::X1(Junction::AccountId32 { network: self.network, id: account.0 }))
    }

    /// Maps a location to the account it names, and fails on every location that
    /// names none.
    pub fn to_account(&self, location: &Location) -> (r: Result<AccountId, ConversionError>)
        ensures
            self.supports(*location) ==> r == Ok::<AccountId, ConversionError>(
                self.account_of(*location)->0,
            ),
            !self.supports(*location) ==> r == Err::<AccountId, ConversionError>(ConversionError),
    {
        match location {
            Location::X1(Junction::AccountId32 { network, id }) => {
                if *network == self.network {
                    Ok(AccountId(*id))
                } else {
                    Err(ConversionError)
                }
            },
            _ => Err(ConversionError),
        }
    }
}

/// An account, mapped to its location and back, is the account again.
pub proof fn lemma_account_round_trip(converter: AccountConverter, account: AccountId)
    ensures
        converter.account_of(converter.location_of(account)) == Some(account),
{
}

/// A location that names an account, mapped to that account and back, is the
/// location again; a location that names none is mapped to no account.
pub proof fn lemma_location_round_trip(converter: AccountConverter, location: Location)
    ensures
        converter.supports(location) ==> converter.location_of(
            converter.account_of(location)->0,
        ) == location,
        !converter.supports(location) ==> converter.account_of(location) is None,
{
}

} // verus!
