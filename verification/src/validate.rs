//! Validation of the two command-line arguments and the wording of what is
//! wrong with them.
//!
//! Both arguments are always examined, so that one report names every
//! fault. Only IPv4 subnets are served: an IPv6 subnet is read, and then
//! refused under a tag of its own.

use crate::mac::{mac_of_text, parse_mac};
use crate::subnet::{broadcast_of, cidr_network, get_broadcast_addr, IpAddress};
use vstd::prelude::*;

verus! {

/// One thing that is wrong with the arguments.
#[derive(Clone, Copy, Debug, PartialEq, Eq, Structural)]
pub enum ValidationError {
    /// The MAC address is missing or malformed.
    Mac,
    /// The subnet is missing or malformed.
    Subnet,
    /// The subnet is an IPv6 network.
    IpV6NotSupported,
}

/// A host to wake: its MAC address and the IPv4 broadcast address of its
/// subnet.
#[derive(Clone, Copy, Debug, PartialEq, Eq)]
pub struct Target {
    pub mac: [u8; 6],
    pub broadcast: u32,
}

/// What to do with a command line.
#[derive(Debug, PartialEq, Eq)]
pub enum Decision {
    /// Both arguments are valid: send the magic packet.
    Send(Target),
    /// Report these errors, then the usage line.
    Reject(Vec<ValidationError>),
    /// Too many arguments: print the usage line alone.
    Usage,
}

/// The faults of a pair of arguments, the MAC address first.
pub open spec fn validation_errors(mac_valid: bool, address: Result<IpAddress, ()>) -> Seq<
    ValidationError,
> {
    let of_mac = if mac_valid {
        Seq::<ValidationError>::empty()
    } else {
        seq![ValidationError::Mac]
    };
    let of_subnet = match address {
        Ok(IpAddress::V4(_)) => Seq::<ValidationError>::empty(),
        Ok(IpAddress::V6(_)) => seq![ValidationError::IpV6NotSupported],
        Err(_) => seq![ValidationError::Subnet],
    };
    of_mac + of_subnet
}

/// Whether `outcome` is the verdict on a MAC address read as `mac` and a
/// subnet whose broadcast address was found as `address`.
pub open spec fn is_verdict(
    mac: Option<Seq<u8>>,
    address: Result<IpAddress, ()>,
    outcome: Result<Target, Vec<ValidationError>>,
) -> bool {
    match outcome {
        Ok(target) => {
            &&& mac == Some(target.mac@)
            &&& address == Ok::<IpAddress, ()>(IpAddress::V4(target.broadcast))
        },
        Err(errors) => {
            &&& errors@.len() > 0
            &&& errors@ == validation_errors(mac is Some, address)
        },
    }
}

/// The faults reported when a single argument was given: it is read both
/// as a MAC address and as a subnet, and whatever it is not is missing.
/// An argument that reads as both or as neither leaves both missing.
pub open spec fn lone_argument_errors(mac_valid: bool, subnet_valid: bool) -> Seq<
    ValidationError,
> {
    if mac_valid && !subnet_valid {
        seq![ValidationError::Subnet]
    } else if !mac_valid && subnet_valid {
        seq![ValidationError::Mac]
    } else {
        seq![ValidationError::Mac, ValidationError::Subnet]
    }
}

/// Whether `decision` is the one owed to the arguments `args`, the
/// program's own name not among them.
pub open spec fn is_decision(args: Seq<Seq<char>>, decision: Decision) -> bool {
    if args.len() == 0 {
        decision matches Decision::Reject(errors) && errors@ == seq![
            ValidationError::Mac,
            ValidationError::Subnet,
        ]
    } else if args.len() == 1 {
        decision matches Decision::Reject(errors) && errors@ == lone_argument_errors(
            mac_of_text(args[0]) is Some,
            cidr_network(args[0]) is Some,
        )
    } else if args.len() == 2 {
        let mac = mac_of_text(args[0]);
        let address = broadcast_of(cidr_network(args[1]));
        match decision {
            Decision::Send(target) => is_verdict(mac, address, Ok(target)),
            Decision::Reject(errors) => is_verdict(mac, address, Err(errors)),
            Decision::Usage => false,
        }
    } else {
        decision is Usage
    }
}

/// Passes a verdict on the two arguments as they were read: the target
/// where both are valid and the subnet is IPv4, and otherwise every fault,
/// the MAC address first.
pub fn check(mac: Result<[u8; 6], ()>, address: Result<IpAddress, ()>) -> (outcome: Result<
    Target,
    Vec<ValidationError>,
>)
    ensures
        is_verdict(
            match mac {
                Ok(bytes) => Some(bytes@),
                Err(_) => None,
            },
            address,
            outcome,
        ),
{
    let mut errors: Vec<ValidationError> = Vec::new();
    if mac.is_err() {
        errors.push(ValidationError::Mac);
    }
    match address {
        Ok(IpAddress::V4(broadcast)) => {
            if let Ok(bytes) = mac {
                return Ok(Target { mac: bytes, broadcast });
            }
        },
        Ok(IpAddress::V6(_)) => {
            errors.push(ValidationError::IpV6NotSupported);
        },
        Err(_) => {
            errors.push(ValidationError::Subnet);
        },
    }
    assert(errors@ =~= validation_errors(mac is Ok, address));
    Err(errors)
}

/// Validates a MAC address and a subnet given as text.
pub fn validate(mac_str: &str, subnet_str: &str) -> (outcome: Result<Target, Vec<ValidationError>>)
    ensures
        is_verdict(mac_of_text(mac_str@), broadcast_of(cidr_network(subnet_str@)), outcome),
{
    let mac = parse_mac(mac_str);
    let address = get_broadcast_addr(subnet_str);
    check(mac, address)
}

/// The faults to report for a single argument, given whether it reads as a
/// MAC address and whether it reads as a subnet.
pub fn diagnose_lone_argument(mac_valid: bool, subnet_valid: bool) -> (errors: Vec<
    ValidationError,
>)
    ensures
        errors@ == lone_argument_errors(mac_valid, subnet_valid),
{
    let mut errors: Vec<ValidationError> = Vec::new();
    if mac_valid && !subnet_valid {
        errors.push(ValidationError::Subnet);
    } else if !mac_valid && subnet_valid {
        errors.push(ValidationError::Mac);
    } else {
        errors.push(ValidationError::Mac);
        errors.push(ValidationError::Subnet);
    }
    errors
}

/// Decides what to do with the arguments of a command line, the program's
/// own name left out.
pub fn decide(args: &Vec<String>) -> (decision: Decision)
    ensures
        is_decision(args@.map_values(|arg: String| arg@), decision),
{
    if args.len() == 0 {
        Decision::Reject(diagnose_lone_argument(false, false))
    } else if args.len() == 1 {
        let only = args[0].as_str();
        let mac = parse_mac(only);
        let address = get_broadcast_addr(only);
        Decision::Reject(diagnose_lone_argument(mac.is_ok(), address.is_ok()))
    } else if args.len() == 2 {
        match validate(args[0].as_str(), args[1].as_str()) {
            Ok(target) => Decision::Send(target),
            Err(errors) => Decision::Reject(errors),
        }
    } else {
        Decision::Usage
    }
}

} // verus!
