use processor_rust::flag::{decode_flag, encode_flag, initial_flag, poll_decision, Flag, PollAction};
use processor_rust::layout::layout_for;
use processor_rust::errors::CycleError;

#[test]
fn flag_encoding_matches_the_wire_values() {
    assert_eq!(encode_flag(Flag::Intermediate), 0);
    assert_eq!(encode_flag(Flag::OutputReady), 1);
    assert_eq!(encode_flag(Flag::InputReady), 2);
    assert_eq!(encode_flag(Flag::NoMoreInput), 3);
}

#[test]
fn flag_decoding_inverts_encoding() {
    for f in [Flag::Intermediate, Flag::OutputReady, Flag::InputReady, Flag::NoMoreInput] {
        assert_eq!(decode_flag(encode_flag(f)), Some(f));
    }
}

#[test]
fn startup_publishes_output_ready() {
    assert_eq!(initial_flag(), Flag::OutputReady);
    assert_eq!(encode_flag(initial_flag()), 1);
}

#[test]
fn foreign_bytes_decode_to_nothing() {
    assert_eq!(decode_flag(4), None);
    assert_eq!(decode_flag(200), None);
}

#[test]
fn only_input_ready_starts_a_cycle() {
    assert_eq!(poll_decision(2), PollAction::RunCycle);
    assert_eq!(poll_decision(3), PollAction::Shutdown);
    assert_eq!(poll_decision(0), PollAction::Wait);
    assert_eq!(poll_decision(1), PollAction::Wait);
    assert_eq!(poll_decision(77), PollAction::Wait);
}

#[test]
fn layout_offsets_for_a_small_image() {
    let l = layout_for(2, 3, 100).unwrap();
    assert_eq!(l.metadata_offset, 1);
    assert_eq!(l.pixel_offset, 3);
    assert_eq!(l.result_offset, 3 + 3 * 6);
    assert_eq!(l.required_bytes, 3 + 6 * 6);
}

#[test]
fn layout_refuses_an_image_that_does_not_fit() {
    assert_eq!(layout_for(16, 16, 100), Err(CycleError::OversizeImage));
    assert!(layout_for(16, 16, 2000).is_ok());
}

#[test]
fn layout_accepts_the_degenerate_empty_shape() {
    let l = layout_for(0, 0, 3).unwrap();
    assert_eq!(l.required_bytes, 3);
}
