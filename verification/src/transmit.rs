//! How the magic packet is sent, as a state machine.
//!
//! The caller owns the socket. It asks the machine for the next action,
//! performs it, and reports whether it succeeded. One UDP socket is bound to
//! the IPv4 wildcard address and an ephemeral port, broadcasting is enabled
//! on it, and the packet is sent to the ports 9, 7 and 0 of the broadcast
//! address, in that order. Failing to set the socket up is fatal; a failed
//! send is not, and the remaining ports are still tried. Only IPv4
//! destinations are served.

use crate::packet::{build_magic_packet, magic_packet};
use crate::subnet::IpAddress;
use vstd::prelude::*;

verus! {

/// The port to which the packet is sent first: the discard port, where a
/// magic packet is customarily addressed.
pub const FIRST_PORT: u16 = 9;

/// Why nothing was sent.
#[derive(Clone, Copy, Debug, PartialEq, Eq, Structural)]
pub enum SendError {
    /// The destination is an IPv6 address.
    Ipv6NotSupported,
    /// The socket could not be bound.
    Bind,
    /// Broadcasting could not be enabled on the socket.
    EnableBroadcast,
}

/// Where a transmission stands.
#[derive(Clone, Copy, Debug, PartialEq, Eq)]
pub enum Phase {
    /// The socket is to be bound.
    Binding,
    /// Broadcasting is to be enabled.
    EnablingBroadcast,
    /// The packet is to be sent to this port.
    Sending(u16),
    /// Nothing is left to do.
    Finished(Result<(), SendError>),
}

/// What the caller is to do next.
#[derive(Clone, Copy, Debug, PartialEq, Eq)]
pub enum Action {
    /// Bind a UDP socket to the IPv4 wildcard address and port 0.
    Bind,
    /// Enable broadcasting on the socket.
    EnableBroadcast,
    /// Send the packet to this port of this IPv4 address.
    SendTo { address: u32, port: u16 },
    /// Release the socket and report this result.
    Finish(Result<(), SendError>),
}

/// The sending of one magic packet.
#[derive(Clone, Copy, Debug, PartialEq, Eq)]
pub struct Transmission {
    pub phase: Phase,
    pub address: u32,
    pub packet: [u8; 102],
}

/// The destination ports, in the order in which they are tried.
pub open spec fn wol_ports() -> Seq<u16> {
    seq![9u16, 7u16, 0u16]
}

/// The port that is tried after `port`, if any is.
pub open spec fn spec_port_after(port: u16) -> Option<u16> {
    if port == 9 {
        Some(7u16)
    } else if port == 7 {
        Some(0u16)
    } else {
        None
    }
}

/// The port that is tried after `port`, if any is.
pub fn port_after(port: u16) -> (next: Option<u16>)
    ensures
        next == spec_port_after(port),
{
    if port == 9 {
        Some(7)
    } else if port == 7 {
        Some(0)
    } else {
        None
    }
}

impl Transmission {
    /// The action that the phase calls for.
    pub open spec fn spec_action(self) -> Action {
        match self.phase {
            Phase::Binding => Action::Bind,
            Phase::EnablingBroadcast => Action::EnableBroadcast,
            Phase::Sending(port) => Action::SendTo { address: self.address, port },
            Phase::Finished(result) => Action::Finish(result),
        }
    }

    /// The phase that follows once the current action has succeeded or
    /// failed.
    pub open spec fn next_phase(self, succeeded: bool) -> Phase {
        match self.phase {
            Phase::Binding => if succeeded {
                Phase::EnablingBroadcast
            } else {
                Phase::Finished(Err(SendError::Bind))
            },
            Phase::EnablingBroadcast => if succeeded {
                Phase::Sending(FIRST_PORT)
            } else {
                Phase::Finished(Err(SendError::EnableBroadcast))
            },
            Phase::Sending(port) => match spec_port_after(port) {
                Some(next) => Phase::Sending(next),
                None => Phase::Finished(Ok(())),
            },
            Phase::Finished(result) => Phase::Finished(result),
        }
    }

    /// The machine after the current action has succeeded or failed.
    pub open spec fn spec_advance(self, succeeded: bool) -> Transmission {
        Transmission { phase: self.next_phase(succeeded), address: self.address, packet: self.packet }
    }

    /// The number of actions still to perform before the result is known.
    pub open spec fn steps_left(self) -> nat {
        match self.phase {
            Phase::Binding => 5,
            Phase::EnablingBroadcast => 4,
            Phase::Sending(port) => if port == 9 {
                3
            } else if port == 7 {
                2
            } else {
                1
            },
            Phase::Finished(_) => 0,
        }
    }

    /// Prepares to wake the host with the address `mac` through the
    /// broadcast address `destination`. An IPv6 destination is refused;
    /// for an IPv4 one the packet is built and the socket is to be bound.
    pub fn new(mac: &[u8; 6], destination: IpAddress) -> (result: Result<Transmission, SendError>)
        ensures
            match destination {
                IpAddress::V4(address) => result matches Ok(transmission) && transmission.phase
                    == Phase::Binding && transmission.address == address && transmission.packet@
                    == magic_packet(mac@),
                IpAddress::V6(_) => result == Err::<Transmission, SendError>(
                    SendError::Ipv6NotSupported,
                ),
            },
    {
        match destination {
            IpAddress::V4(address) => Ok(
                Transmission { phase: Phase::Binding, address, packet: build_magic_packet(mac) },
            ),
            IpAddress::V6(_) => Err(SendError::Ipv6NotSupported),
        }
    }

    /// The action to perform now.
    pub fn action(&self) -> (action: Action)
        ensures
            action == self.spec_action(),
    {
        match self.phase {
            Phase::Binding => Action::Bind,
            Phase::EnablingBroadcast => Action::EnableBroadcast,
            Phase::Sending(port) => Action::SendTo { address: self.address, port },
            Phase::Finished(result) => Action::Finish(result),
        }
    }

    /// Moves on, given whether the current action succeeded.
    pub fn advance(self, succeeded: bool) -> (next: Transmission)
        ensures
            next == self.spec_advance(succeeded),
    {
        let phase = match self.phase {
            Phase::Binding => if succeeded {
                Phase::EnablingBroadcast
            } else {
                Phase::Finished(Err(SendError::Bind))
            },
            Phase::EnablingBroadcast => if succeeded {
                Phase::Sending(FIRST_PORT)
            } else {
                Phase::Finished(Err(SendError::EnableBroadcast))
            },
            Phase::Sending(port) => match port_after(port) {
                Some(next) => Phase::Sending(next),
                None => Phase::Finished(Ok(())),
            },
            Phase::Finished(result) => Phase::Finished(result),
        };
        Transmission { phase, address: self.address, packet: self.packet }
    }

    /// Whether the result is known.
    pub fn is_finished(&self) -> (finished: bool)
        ensures
            finished == (self.phase is Finished),
    {
        match self.phase {
            Phase::Finished(_) => true,
            _ => false,
        }
    }
}

/// Every action brings the result nearer, so a transmission ends after at
/// most five of them; and neither the packet nor the destination ever
/// changes.
pub proof fn lemma_advance_makes_progress(transmission: Transmission, succeeded: bool)
    ensures
        transmission.spec_advance(succeeded).packet == transmission.packet,
        transmission.spec_advance(succeeded).address == transmission.address,
        !(transmission.phase is Finished) ==> transmission.spec_advance(succeeded).steps_left()
            < transmission.steps_left(),
        transmission.steps_left() <= 5,
        transmission.steps_left() == 0 <==> transmission.phase is Finished,
{
}

/// A socket that cannot be set up ends the transmission at once, with the
/// error of the step that failed and without any send.
pub proof fn lemma_setup_failure_is_fatal(transmission: Transmission)
    ensures
        transmission.phase is Binding ==> transmission.spec_advance(false).spec_action()
            == Action::Finish(Err(SendError::Bind)),
        transmission.phase is EnablingBroadcast ==> transmission.spec_advance(false).spec_action()
            == Action::Finish(Err(SendError::EnableBroadcast)),
{
}

/// Once the socket is set up, the packet goes to each of the ports 9, 7
/// and 0 of the destination, in that order and whatever becomes of each
/// send, and the transmission then ends in success.
pub proof fn lemma_all_ports_are_tried(
    transmission: Transmission,
    first: bool,
    second: bool,
    third: bool,
)
    requires
        transmission.phase is Binding,
    ensures
        ({
            let ready = transmission.spec_advance(true).spec_advance(true);
            let address = transmission.address;
            &&& transmission.spec_action() == Action::Bind
            &&& transmission.spec_advance(true).spec_action() == Action::EnableBroadcast
            &&& ready.spec_action() == Action::SendTo { address, port: wol_ports()[0] }
            &&& ready.spec_advance(first).spec_action() == Action::SendTo {
                address,
                port: wol_ports()[1],
            }
            &&& ready.spec_advance(first).spec_advance(second).spec_action() == Action::SendTo {
                address,
                port: wol_ports()[2],
            }
            &&& ready.spec_advance(first).spec_advance(second).spec_advance(third).spec_action()
                == Action::Finish(Ok(()))
        }),
{
}

} // verus!
