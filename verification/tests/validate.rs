use wol::report::{error_message, usage};
use wol::subnet::IpAddress;
use wol::validate::{
    check, decide, diagnose_lone_argument, validate, Decision, Target, ValidationError,
};

const MAC: [u8; 6] = [0xAA, 0xBB, 0xCC, 0xDD, 0xEE, 0xFF];

fn args(words: &[&str]) -> Vec<String> {
    words.iter().map(|word| word.to_string()).collect()
}

#[test]
fn valid_arguments_give_the_target() {
    assert_eq!(
        validate("AA:BB:CC:DD:EE:FF", "192.168.1.0/24"),
        Ok(Target { mac: MAC, broadcast: 0xC0A8_01FF })
    );
}

#[test]
fn both_faults_are_reported_together() {
    assert_eq!(
        validate("bad-mac", "bad-subnet"),
        Err(vec![ValidationError::Mac, ValidationError::Subnet])
    );
}

#[test]
fn a_single_fault_is_reported_alone() {
    assert_eq!(validate("bad-mac", "10.0.0.5/30"), Err(vec![ValidationError::Mac]));
    assert_eq!(validate("AABBCCDDEEFF", "bad-subnet"), Err(vec![ValidationError::Subnet]));
}

#[test]
fn ipv6_subnet_is_refused() {
    assert_eq!(
        validate("AA:BB:CC:DD:EE:FF", "2001:db8::/32"),
        Err(vec![ValidationError::IpV6NotSupported])
    );
    assert_eq!(
        validate("nope", "2001:db8::/32"),
        Err(vec![ValidationError::Mac, ValidationError::IpV6NotSupported])
    );
}

#[test]
fn check_covers_every_combination() {
    let v4: Result<IpAddress, ()> = Ok(IpAddress::V4(7));
    let v6: Result<IpAddress, ()> = Ok(IpAddress::V6(7));
    assert_eq!(check(Ok(MAC), v4), Ok(Target { mac: MAC, broadcast: 7 }));
    assert_eq!(check(Err(()), v4), Err(vec![ValidationError::Mac]));
    assert_eq!(check(Ok(MAC), v6), Err(vec![ValidationError::IpV6NotSupported]));
    assert_eq!(
        check(Err(()), v6),
        Err(vec![ValidationError::Mac, ValidationError::IpV6NotSupported])
    );
    assert_eq!(check(Ok(MAC), Err(())), Err(vec![ValidationError::Subnet]));
    assert_eq!(
        check(Err(()), Err(())),
        Err(vec![ValidationError::Mac, ValidationError::Subnet])
    );
}

#[test]
fn lone_argument_diagnosis() {
    assert_eq!(diagnose_lone_argument(true, false), vec![ValidationError::Subnet]);
    assert_eq!(diagnose_lone_argument(false, true), vec![ValidationError::Mac]);
    assert_eq!(
        diagnose_lone_argument(false, false),
        vec![ValidationError::Mac, ValidationError::Subnet]
    );
    assert_eq!(
        diagnose_lone_argument(true, true),
        vec![ValidationError::Mac, ValidationError::Subnet]
    );
}

#[test]
fn no_argument_misses_both() {
    assert_eq!(
        decide(&args(&[])),
        Decision::Reject(vec![ValidationError::Mac, ValidationError::Subnet])
    );
}

#[test]
fn one_argument_is_read_both_ways() {
    assert_eq!(
        decide(&args(&["AA:BB:CC:DD:EE:FF"])),
        Decision::Reject(vec![ValidationError::Subnet])
    );
    assert_eq!(decide(&args(&["192.168.1.0/24"])), Decision::Reject(vec![ValidationError::Mac]));
    assert_eq!(decide(&args(&["2001:db8::/32"])), Decision::Reject(vec![ValidationError::Mac]));
    assert_eq!(
        decide(&args(&["nonsense"])),
        Decision::Reject(vec![ValidationError::Mac, ValidationError::Subnet])
    );
}

#[test]
fn two_arguments_are_validated() {
    assert_eq!(
        decide(&args(&["AA:BB:CC:DD:EE:FF", "192.168.1.0/24"])),
        Decision::Send(Target { mac: MAC, broadcast: 0xC0A8_01FF })
    );
    assert_eq!(
        decide(&args(&["bad-mac", "bad-subnet"])),
        Decision::Reject(vec![ValidationError::Mac, ValidationError::Subnet])
    );
    assert_eq!(
        decide(&args(&["192.168.1.0/24", "AA:BB:CC:DD:EE:FF"])),
        Decision::Reject(vec![ValidationError::Mac, ValidationError::Subnet])
    );
}

#[test]
fn more_arguments_get_the_usage_line_alone() {
    assert_eq!(decide(&args(&["AA:BB:CC:DD:EE:FF", "192.168.1.0/24", "extra"])), Decision::Usage);
    assert_eq!(decide(&args(&["a", "b", "c", "d"])), Decision::Usage);
}

#[test]
fn aggregated_error_message() {
    match decide(&args(&["bad-mac", "bad-subnet"])) {
        Decision::Reject(errors) => {
            assert_eq!(error_message(&errors), "ValueError: MAC and SubNet");
        }
        other => panic!("expected a rejection, got {:?}", other),
    }
}

#[test]
fn error_message_for_each_fault() {
    assert_eq!(error_message(&vec![ValidationError::Mac]), "ValueError: MAC");
    assert_eq!(error_message(&vec![ValidationError::Subnet]), "ValueError: SubNet");
    assert_eq!(
        error_message(&vec![ValidationError::IpV6NotSupported]),
        "ValueError: IPv6 Not Supported"
    );
    assert_eq!(
        error_message(&vec![ValidationError::Mac, ValidationError::IpV6NotSupported]),
        "ValueError: MAC and IPv6 Not Supported"
    );
    assert_eq!(
        error_message(&vec![
            ValidationError::Mac,
            ValidationError::Subnet,
            ValidationError::IpV6NotSupported
        ]),
        "ValueError: MAC and SubNet and IPv6 Not Supported"
    );
}

#[test]
fn error_message_ignores_order_and_repetition() {
    assert_eq!(
        error_message(&vec![ValidationError::Subnet, ValidationError::Mac, ValidationError::Subnet]),
        "ValueError: MAC and SubNet"
    );
    assert_eq!(error_message(&vec![]), "ValueError: ");
}

#[test]
fn usage_line() {
    assert_eq!(usage("wol"), "Usage: wol <MAC_ADDRESS> <SUBNET_CIDR>");
    assert_eq!(usage("program"), "Usage: program <MAC_ADDRESS> <SUBNET_CIDR>");
    assert_eq!(usage(""), "Usage:  <MAC_ADDRESS> <SUBNET_CIDR>");
}
