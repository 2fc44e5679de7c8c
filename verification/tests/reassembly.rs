use echo_dvc::error::ProtocolError;
use echo_dvc::framing::frame;
use echo_dvc::header::{FLAG_FIRST, FLAG_LAST, FLAG_MIDDLE, FLAG_ONLY};
use echo_dvc::reassembly::{reassemble, single_fragment_message, Reassembler, Reassembly};

#[test]
fn single_only_fragment_yields_its_payload() {
    let fragment = [5u8, 0, 0, 0, 3, 0, 0, 0, b'h', b'e', b'l', b'l', b'o'];
    assert_eq!(
        Reassembler::new().accept(&fragment),
        Reassembly::Complete(b"hello".to_vec())
    );
    assert_eq!(reassemble(&[fragment.to_vec()]), Ok(b"hello".to_vec()));
}

#[test]
fn only_fragment_with_empty_payload_yields_empty_message() {
    let fragment = frame(0, FLAG_ONLY, &[]);
    assert_eq!(fragment.len(), 8);
    assert_eq!(reassemble(&[fragment]), Ok(Vec::new()));
}

#[test]
fn five_thousand_bytes_in_two_fragments() {
    let payload: Vec<u8> = (0..5000u32).map(|i| (i % 251) as u8).collect();
    let first = frame(0xDEAD_BEEF, FLAG_FIRST, &payload[..4096]);
    let second = frame(5000, FLAG_LAST, &payload[4096..]);
    assert_eq!(first.len(), 8 + 4096);
    assert_eq!(second.len(), 8 + 904);

    let reassembler = match Reassembler::new().accept(&first) {
        Reassembly::Pending(reassembler) => reassembler,
        other => panic!("the first fragment should leave the message open: {:?}", other),
    };
    assert_eq!(reassembler.received(), 4096);
    assert_eq!(reassembler.accept(&second), Reassembly::Complete(payload.clone()));

    assert_eq!(reassemble(&[first, second]), Ok(payload));
}

#[test]
fn first_middle_last_are_joined_in_order_of_arrival() {
    let fragments = vec![
        frame(0, FLAG_FIRST, b"ab"),
        frame(0, FLAG_MIDDLE, b"cde"),
        frame(0, FLAG_MIDDLE, b""),
        frame(9, FLAG_LAST, b"fghi"),
    ];
    assert_eq!(reassemble(&fragments), Ok(b"abcdefghi".to_vec()));
}

#[test]
fn declared_length_of_a_fragment_that_is_not_terminal_is_ignored() {
    let fragments = vec![frame(77, FLAG_FIRST, b"ab"), frame(4, FLAG_LAST, b"cd")];
    assert_eq!(reassemble(&fragments), Ok(b"abcd".to_vec()));
}

#[test]
fn short_fragment_is_malformed() {
    for length in 0..8usize {
        let fragment = vec![3u8; length];
        assert_eq!(
            Reassembler::new().accept(&fragment),
            Reassembly::Failed(ProtocolError::MalformedFragment { length })
        );
        assert_eq!(
            reassemble(&[fragment]),
            Err(ProtocolError::MalformedFragment { length })
        );
    }
}

#[test]
fn short_fragment_in_the_middle_of_a_message_is_malformed() {
    let fragments = vec![frame(0, FLAG_FIRST, b"ab"), vec![1, 2, 3], frame(2, FLAG_LAST, b"")];
    assert_eq!(reassemble(&fragments), Err(ProtocolError::MalformedFragment { length: 3 }));
}

#[test]
fn reads_that_run_out_end_in_an_empty_read() {
    assert_eq!(reassemble(&[]), Err(ProtocolError::MalformedFragment { length: 0 }));
    let fragments = vec![frame(0, FLAG_FIRST, b"ab"), frame(0, FLAG_MIDDLE, b"cd")];
    assert_eq!(reassemble(&fragments), Err(ProtocolError::MalformedFragment { length: 0 }));
}

#[test]
fn terminal_fragment_with_wrong_declared_length_is_a_mismatch() {
    assert_eq!(
        reassemble(&[frame(4, FLAG_ONLY, b"hello")]),
        Err(ProtocolError::LengthMismatch { declared: 4, received: 5 })
    );
    assert_eq!(
        reassemble(&[frame(6, FLAG_ONLY, b"hello")]),
        Err(ProtocolError::LengthMismatch { declared: 6, received: 5 })
    );
    let fragments = vec![frame(0, FLAG_FIRST, b"abc"), frame(3, FLAG_LAST, b"de")];
    assert_eq!(
        reassemble(&fragments),
        Err(ProtocolError::LengthMismatch { declared: 3, received: 5 })
    );
}

#[test]
fn declared_length_counts_the_payload_and_not_the_header() {
    assert_eq!(
        reassemble(&[frame(13, FLAG_ONLY, b"hello")]),
        Err(ProtocolError::LengthMismatch { declared: 13, received: 5 })
    );
}

#[test]
fn flags_outside_the_four_combinations_are_unsupported() {
    for flags in [4u32, 5, 6, 7, 0x10, 0x100, 0x8000_0003, u32::MAX] {
        assert_eq!(
            reassemble(&[frame(5, flags, b"hello")]),
            Err(ProtocolError::UnsupportedFlags { flags })
        );
    }
    let fragments = vec![frame(0, FLAG_FIRST, b"ab"), frame(4, 0x12, b"cd")];
    assert_eq!(reassemble(&fragments), Err(ProtocolError::UnsupportedFlags { flags: 0x12 }));
}

#[test]
fn message_need_not_start_with_a_first_fragment() {
    assert_eq!(reassemble(&[frame(2, FLAG_LAST, b"ab")]), Ok(b"ab".to_vec()));
    let fragments = vec![frame(0, FLAG_MIDDLE, b"ab"), frame(3, FLAG_LAST, b"c")];
    assert_eq!(reassemble(&fragments), Ok(b"abc".to_vec()));
}

#[test]
fn nothing_is_read_after_the_terminal_fragment() {
    let fragments = vec![frame(2, FLAG_ONLY, b"ab"), vec![1, 2, 3], frame(1, 9, b"x")];
    assert_eq!(reassemble(&fragments), Ok(b"ab".to_vec()));
}

#[test]
fn nothing_is_read_after_a_failure() {
    let fragments = vec![frame(2, 8, b"ab"), frame(2, FLAG_ONLY, b"ab")];
    assert_eq!(reassemble(&fragments), Err(ProtocolError::UnsupportedFlags { flags: 8 }));
}

#[test]
fn new_reassembler_has_received_nothing() {
    assert_eq!(Reassembler::new().received(), 0);
}

#[test]
fn accept_read_takes_the_bytes_that_the_read_reported() {
    let mut buffer = [0u8; 1608];
    buffer[..13].copy_from_slice(&[5, 0, 0, 0, 3, 0, 0, 0, b'h', b'e', b'l', b'l', b'o']);
    assert_eq!(
        Reassembler::new().accept_read(&buffer, 13),
        Reassembly::Complete(b"hello".to_vec())
    );
    assert_eq!(
        Reassembler::new().accept_read(&buffer, 7),
        Reassembly::Failed(ProtocolError::MalformedFragment { length: 7 })
    );
    assert_eq!(
        Reassembler::new().accept_read(&buffer, 0),
        Reassembly::Failed(ProtocolError::MalformedFragment { length: 0 })
    );
    assert_eq!(
        Reassembler::new().accept_read(&buffer, 14),
        Reassembly::Failed(ProtocolError::LengthMismatch { declared: 5, received: 6 })
    );
}

#[test]
fn accept_read_takes_no_more_than_the_buffer_holds() {
    let buffer = [2u8, 0, 0, 0, 3, 0, 0, 0, b'o', b'k'];
    assert_eq!(
        Reassembler::new().accept_read(&buffer, 4000),
        Reassembly::Complete(b"ok".to_vec())
    );
}

#[test]
fn restricted_mode_takes_one_only_fragment() {
    let mut buffer = [0u8; 1608];
    buffer[..13].copy_from_slice(&frame(5, FLAG_ONLY, b"hello"));
    assert_eq!(single_fragment_message(&buffer, 13), Ok(&b"hello"[..]));
    assert_eq!(single_fragment_message(&buffer[..8], 8), Err(ProtocolError::LengthMismatch { declared: 5, received: 0 }));
    assert_eq!(
        single_fragment_message(&buffer, 12),
        Err(ProtocolError::LengthMismatch { declared: 5, received: 4 })
    );
    assert_eq!(
        single_fragment_message(&buffer, 5),
        Err(ProtocolError::MalformedFragment { length: 5 })
    );
}

#[test]
fn restricted_mode_refuses_a_message_of_several_fragments() {
    for flags in [FLAG_FIRST, FLAG_MIDDLE, FLAG_LAST, 4, 0x13] {
        let fragment = frame(2, flags, b"ab");
        assert_eq!(
            single_fragment_message(&fragment, 10),
            Err(ProtocolError::UnsupportedFlags { flags })
        );
    }
}

#[test]
fn restricted_mode_agrees_with_reassembly_on_what_it_accepts() {
    for payload in [&b""[..], &b"a"[..], &b"hello world"[..]] {
        let fragment = frame(payload.len() as u32, FLAG_ONLY, payload);
        let transferred = fragment.len() as u32;
        assert_eq!(single_fragment_message(&fragment, transferred), Ok(payload));
        assert_eq!(reassemble(&[fragment.clone()]), Ok(payload.to_vec()));
    }
}
