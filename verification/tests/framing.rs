use echo_dvc::framing::{fragment_message, frame};
use echo_dvc::header::{decode, ChunkHeader, FLAG_FIRST, FLAG_LAST, FLAG_MIDDLE, FLAG_ONLY};
use echo_dvc::reassembly::reassemble;

#[test]
fn frame_puts_the_header_before_the_payload() {
    assert_eq!(
        frame(5, 3, b"hello"),
        vec![5, 0, 0, 0, 3, 0, 0, 0, b'h', b'e', b'l', b'l', b'o']
    );
    assert_eq!(frame(0x0102_0304, 0x0A0B_0C0D, &[]), vec![4, 3, 2, 1, 0x0D, 0x0C, 0x0B, 0x0A]);
}

#[test]
fn message_that_fits_one_chunk_is_the_only_fragment() {
    let fragments = fragment_message(b"hello", 1600).unwrap();
    assert_eq!(fragments, vec![frame(5, FLAG_ONLY, b"hello")]);
    let fragments = fragment_message(b"hello", 5).unwrap();
    assert_eq!(fragments, vec![frame(5, FLAG_ONLY, b"hello")]);
}

#[test]
fn message_is_cut_into_first_middle_and_last() {
    let fragments = fragment_message(b"abcdefghij", 3).unwrap();
    assert_eq!(
        fragments,
        vec![
            frame(10, FLAG_FIRST, b"abc"),
            frame(10, FLAG_MIDDLE, b"def"),
            frame(10, FLAG_MIDDLE, b"ghi"),
            frame(10, FLAG_LAST, b"j"),
        ]
    );
}

#[test]
fn message_of_a_whole_number_of_chunks_has_no_empty_fragment() {
    let fragments = fragment_message(b"abcdef", 3).unwrap();
    assert_eq!(fragments, vec![frame(6, FLAG_FIRST, b"abc"), frame(6, FLAG_LAST, b"def")]);
}

#[test]
fn empty_message_is_one_fragment_without_payload() {
    let fragments = fragment_message(b"", 4).unwrap();
    assert_eq!(fragments, vec![frame(0, FLAG_ONLY, b"")]);
    assert_eq!(reassemble(&fragments), Ok(Vec::new()));
}

#[test]
fn there_is_no_fragmenting_with_an_empty_chunk() {
    assert_eq!(fragment_message(b"abc", 0), None);
    assert_eq!(fragment_message(b"", 0), None);
}

#[test]
fn number_of_fragments_is_the_quotient_rounded_up() {
    let message = vec![7u8; 5000];
    for (chunk, count) in [(1usize, 5000usize), (7, 715), (1600, 4), (4096, 2), (4999, 2), (5000, 1), (5001, 1)] {
        let fragments = fragment_message(&message, chunk).unwrap();
        assert_eq!(fragments.len(), count);
        for fragment in &fragments {
            assert!(fragment.len() <= 8 + chunk);
            assert!(fragment.len() > 8);
        }
    }
}

#[test]
fn fragments_of_a_message_reassemble_to_it() {
    let message: Vec<u8> = (0..5000u32).map(|i| (i * 7 % 256) as u8).collect();
    for length in [0usize, 1, 2, 7, 8, 9, 1599, 1600, 1601, 3200, 5000] {
        for chunk in [1usize, 2, 3, 8, 1600, 4096, 10_000] {
            let fragments = fragment_message(&message[..length], chunk).unwrap();
            assert_eq!(reassemble(&fragments), Ok(message[..length].to_vec()));
        }
    }
}

#[test]
fn five_thousand_bytes_cut_at_4096() {
    let message: Vec<u8> = (0..5000u32).map(|i| (i % 253) as u8).collect();
    let fragments = fragment_message(&message, 4096).unwrap();
    assert_eq!(fragments.len(), 2);
    assert_eq!(
        decode(&fragments[0]),
        Ok(ChunkHeader { declared_length: 5000, flags: FLAG_FIRST })
    );
    assert_eq!(fragments[0].len(), 8 + 4096);
    assert_eq!(
        decode(&fragments[1]),
        Ok(ChunkHeader { declared_length: 5000, flags: FLAG_LAST })
    );
    assert_eq!(fragments[1].len(), 8 + 904);
    assert_eq!(reassemble(&fragments), Ok(message));
}
