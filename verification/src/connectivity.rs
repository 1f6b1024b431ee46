//! The state of the wireless link as the rest of the node sees it.

use crate::text::decimal;
use crate::text::push_decimal;
use vstd::prelude::*;

verus! {

/// A network address: four octets, most significant first. The address with
/// four zero octets is the unset address, which no lease ever assigns.
#[derive(Clone, Copy, Debug, PartialEq, Eq, Structural)]
pub struct Address(pub u8, pub u8, pub u8, pub u8);

/// Where the link stands.
#[derive(Clone, Copy, Debug, PartialEq, Eq, Structural)]
pub enum ConnectivityStatus {
    /// No link, and no attempt under way.
    Disconnected,
    /// An attempt to bring the link up is under way.
    Connecting,
    /// The link is up and the node holds this address.
    Connected(Address),
}

/// The dotted text of an address: its four octets in decimal, points between.
pub open spec fn dotted_quad(address: Address) -> Seq<char> {
    decimal(address.0 as nat) + seq!['.'] + decimal(address.1 as nat) + seq!['.'] + decimal(
        address.2 as nat,
    ) + seq!['.'] + decimal(address.3 as nat)
}

/// What the panel shows where the address belongs while there is none.
pub open spec fn no_address_text() -> Seq<char> {
    seq!['N', 'o', 't', ' ', 'a', 'v', 'a', 'i', 'l', 'a', 'b', 'l', 'e']
}

/// The text that the panel shows for a link status: the address while
/// connected, the "not available" text otherwise.
pub open spec fn status_text(status: ConnectivityStatus) -> Seq<char> {
    match status {
        ConnectivityStatus::Connected(address) => dotted_quad(address),
        _ => no_address_text(),
    }
}

impl Address {
    /// Whether this is an address that a lease can assign.
    pub open spec fn spec_is_set(&self) -> bool {
        !(self.0 == 0 && self.1 == 0 && self.2 == 0 && self.3 == 0)
    }

    /// Whether this is an address that a lease can assign.
    #[verifier::when_used_as_spec(spec_is_set)]
    pub fn is_set(&self) -> (b: bool)
        ensures
            b == self.spec_is_set(),
    {
        !(self.0 == 0 && self.1 == 0 && self.2 == 0 && self.3 == 0)
    }

    /// The address in dotted text.
    pub fn text(&self) -> (s: String)
        ensures
            s@ == dotted_quad(*self),
    {
        proof {
            reveal_strlit(".");
        }
        let mut s = String::new();
        push_decimal(&mut s, self.0 as u32);
        s.append(".");
        push_decimal(&mut s, self.1 as u32);
        s.append(".");
        push_decimal(&mut s, self.2 as u32);
        s.append(".");
        push_decimal(&mut s, self.3 as u32);
        assert("."@ =~= seq!['.']);
        assert(s@ =~= dotted_quad(*self));
        s
    }
}

impl ConnectivityStatus {
    /// The rule that every reported status keeps: a connected link has an
    /// address that is set.
    pub open spec fn wf(&self) -> bool {
        match *self {
            ConnectivityStatus::Connected(address) => address.is_set(),
            _ => true,
        }
    }

    /// Whether this status keeps the rule of [`ConnectivityStatus::wf`].
    pub fn is_well_formed(&self) -> (b: bool)
        ensures
            b == self.wf(),
    {
        match *self {
            ConnectivityStatus::Connected(address) => address.is_set(),
            _ => true,
        }
    }

    /// Whether the link is up.
    pub fn is_connected(&self) -> (b: bool)
        ensures
            b == (*self is Connected),
    {
        match *self {
            ConnectivityStatus::Connected(_) => true,
            _ => false,
        }
    }

    /// The address that the node holds, if the link is up.
    pub fn address(&self) -> (a: Option<Address>)
        ensures
            a == match *self {
                ConnectivityStatus::Connected(address) => Some(address),
                _ => None,
            },
    {
        match *self {
            ConnectivityStatus::Connected(address) => Some(address),
            _ => None,
        }
    }

    /// The text that the panel shows for this status.
    pub fn text(&self) -> (s: String)
        ensures
            s@ == status_text(*self),
    {
        match *self {
            ConnectivityStatus::Connected(address) => address.text(),
            _ => {
                proof {
                    reveal_strlit("Not available");
                }
                let s = String::from_str("Not available");
                assert(s@ =~= no_address_text());
                s
            },
        }
    }

    /// Whether a status may follow another in what the node reports: a status
    /// may stay (a connected link may change its address), and otherwise the
    /// link moves from disconnected to connecting, from connecting to
    /// connected, and from connected to disconnected, and in no other way.
    pub open spec fn may_become(&self, next: ConnectivityStatus) -> bool {
        match (*self, next) {
            (ConnectivityStatus::Disconnected, ConnectivityStatus::Disconnected) => true,
            (ConnectivityStatus::Disconnected, ConnectivityStatus::Connecting) => true,
            (ConnectivityStatus::Connecting, ConnectivityStatus::Connecting) => true,
            (ConnectivityStatus::Connecting, ConnectivityStatus::Connected(_)) => true,
            (ConnectivityStatus::Connected(_), ConnectivityStatus::Connected(_)) => true,
            (ConnectivityStatus::Connected(_), ConnectivityStatus::Disconnected) => true,
            _ => false,
        }
    }
}

} // verus!
