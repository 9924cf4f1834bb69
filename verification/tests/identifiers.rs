use hyperspace_light::error::Error;
use hyperspace_light::ibc::height::{Height, RawHeight, TimeoutHeight};
use hyperspace_light::ibc::identifier::{ChannelId, ClientId, ConnectionId, PortId};
use hyperspace_light::ibc::text::{decimal_text, parse_unsigned};
use std::str::FromStr;

fn letters(n: usize) -> String {
    "a".repeat(n)
}

#[test]
fn port_identifiers_have_two_to_128_characters() {
    assert_eq!(PortId::from_str(&letters(1)).unwrap_err(), Error::InvalidIdentifier);
    assert_eq!(PortId::from_str(&letters(2)).unwrap().as_str(), "aa");
    assert_eq!(PortId::from_str(&letters(128)).unwrap().as_str(), letters(128));
    assert!(PortId::from_str(&letters(129)).is_err());
    assert!(PortId::from_str("").is_err());
    assert!(PortId::from_str("a/b").is_err());
    assert!(PortId::from_str("a b").is_err());
    assert!(PortId::from_str("aZ09._+-#[]<>").is_ok());
}

#[test]
fn channel_client_and_connection_identifiers_have_their_lengths() {
    assert!(ChannelId::from_str(&letters(7)).is_err());
    assert!(ChannelId::from_str(&letters(8)).is_ok());
    assert!(ChannelId::from_str(&letters(64)).is_ok());
    assert!(ChannelId::from_str(&letters(65)).is_err());
    assert!(ClientId::from_str(&letters(8)).is_err());
    assert!(ClientId::from_str(&letters(9)).is_ok());
    assert!(ClientId::from_str(&letters(64)).is_ok());
    assert!(ClientId::from_str(&letters(65)).is_err());
    assert!(ConnectionId::from_str(&letters(9)).is_err());
    assert!(ConnectionId::from_str(&letters(10)).is_ok());
    assert!(ConnectionId::from_str(&letters(64)).is_ok());
    assert!(ConnectionId::from_str(&letters(65)).is_err());
}

#[test]
fn identifiers_of_ascii_characters_are_those_of_the_alphabet() {
    for byte in 0u8..128 {
        let c = byte as char;
        let text = format!("channel{}0", c);
        let wanted = c.is_ascii_alphanumeric() || "._+-#[]<>".contains(c);
        assert_eq!(ChannelId::from_str(&text).is_ok(), wanted);
        assert_eq!(PortId::from_str(&text).is_ok(), wanted);
        assert_eq!(ClientId::from_str(&text).is_ok(), wanted);
        assert_eq!(ConnectionId::from_str(&format!("connect{}on0", c)).is_ok(), wanted);
    }
}

#[test]
fn transfer_port_has_its_name() {
    assert_eq!(PortId::transfer().as_str(), "transfer");
    assert_eq!(PortId::transfer().clone().as_str(), "transfer");
}

#[test]
fn heights_are_ordered_by_revision_then_block() {
    assert_eq!(Height::new(3, 0).unwrap_err(), Error::ZeroHeight);
    let a = Height::new(0, 9).unwrap();
    let b = Height::new(1, 1).unwrap();
    let c = Height::new(1, 2).unwrap();
    assert!(a.is_before(&b));
    assert!(b.is_before(&c));
    assert!(a.is_before(&c));
    assert!(!c.is_before(&b));
    assert!(!b.is_before(&b));
    assert_eq!(c.raw(), RawHeight { revision_number: 1, revision_height: 2 });
}

#[test]
fn timeout_heights_agree_with_the_wire_format() {
    for revision_number in 0..3u64 {
        for revision_height in 0..3u64 {
            let raw = RawHeight { revision_number, revision_height };
            let wire = ibc_proto::ibc::core::client::v1::Height { revision_number, revision_height };
            let theirs = ibc_relayer_types::core::ics04_channel::timeout::TimeoutHeight::try_from(wire);
            let ours = TimeoutHeight::from_raw(raw);
            assert_eq!(ours.is_ok(), theirs.is_ok());
            if let Ok(timeout) = ours {
                assert_eq!(timeout.raw(), raw);
                assert_eq!(
                    timeout.raw().revision_height,
                    theirs.unwrap().commitment_revision_height()
                );
            }
        }
    }
    assert_eq!(
        TimeoutHeight::from_raw(RawHeight { revision_number: 0, revision_height: 0 }),
        Ok(TimeoutHeight::Never)
    );
    assert_eq!(
        TimeoutHeight::from_raw(RawHeight { revision_number: 1, revision_height: 0 }),
        Err(Error::ZeroHeight)
    );
}

#[test]
fn numbers_are_read_as_std_reads_them() {
    let cases = vec![
        "", "0", "7", "007", "+7", "+", "++7", "-1", "1 ", " 1", "12a", "1_000",
        "340282366920938463463374607431768211455",
        "340282366920938463463374607431768211456",
        "+340282366920938463463374607431768211455",
        "00000000000000000000000000000000000000000000000001",
    ];
    for case in cases {
        assert_eq!(parse_unsigned(case), u128::from_str(case).ok());
    }
}

#[test]
fn numbers_are_written_without_leading_zeros() {
    for n in [0u128, 1, 9, 10, 4000, u64::MAX as u128, u128::MAX] {
        assert_eq!(decimal_text(n), n.to_string());
        assert_eq!(parse_unsigned(&decimal_text(n)), Some(n));
    }
}
