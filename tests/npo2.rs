use wgpu_npo2::add;
use wgpu_npo2::executor::{
    finish_readback, plan_dispatch, Dispatch, ExecError, Phase, Readback, ReadbackAction,
    ReadbackEvent,
};
use wgpu_npo2::pow2::{cpu_next_power_of_two, next_power_of_two, MAX_POW2, OVERFLOW};
use wgpu_npo2::words::{decode_words, encode_words};

#[test]
fn it_works() {
    let result = add(2, 2);
    assert_eq!(result, 4);
}

#[test]
fn cpu_next_power_of_two_test() {
    let result = cpu_next_power_of_two(vec![1, 2, 3, 4, 5, 6]);
    assert_eq!(result, vec![1, 2, 4, 4, 8, 8]);
}

#[test]
fn zero_maps_to_one() {
    assert_eq!(cpu_next_power_of_two(vec![0]), vec![1]);
}

#[test]
fn max_value_gives_sentinel() {
    assert_eq!(cpu_next_power_of_two(vec![4294967295]), vec![0xFFFF_FFFF]);
}

#[test]
fn empty_input_gives_empty_output() {
    assert_eq!(cpu_next_power_of_two(vec![]), Vec::<u32>::new());
}

#[test]
fn largest_power_and_just_above() {
    assert_eq!(next_power_of_two(MAX_POW2), 0x8000_0000);
    assert_eq!(next_power_of_two(MAX_POW2 + 1), OVERFLOW);
    assert_eq!(next_power_of_two(0x4000_0001), 0x8000_0000);
    assert_eq!(next_power_of_two(1000), 1024);
}

#[test]
fn transform_twice_is_transform_once() {
    let xs = vec![0, 1, 3, 17, 1024, 1025, 0x8000_0001, u32::MAX];
    let once = cpu_next_power_of_two(xs);
    let twice = cpu_next_power_of_two(once.clone());
    assert_eq!(once, vec![1, 1, 4, 32, 1024, 2048, OVERFLOW, OVERFLOW]);
    assert_eq!(twice, once);
}

#[test]
fn length_and_order_kept() {
    let xs = vec![9, 2, 33, 0, 7];
    let out = cpu_next_power_of_two(xs.clone());
    assert_eq!(out.len(), xs.len());
    assert_eq!(out, vec![16, 2, 64, 1, 8]);
}

#[test]
fn words_encode_little_endian() {
    let bytes = encode_words(&[0x0403_0201, 0xFFFF_FFFF, 1]);
    assert_eq!(bytes, vec![1, 2, 3, 4, 255, 255, 255, 255, 1, 0, 0, 0]);
}

#[test]
fn words_decode_and_round_trip() {
    assert_eq!(decode_words(&[1, 2, 3, 4, 0, 0, 0, 128, 9]), vec![0x0403_0201, 0x8000_0000]);
    let ws = vec![7, 0, u32::MAX, 65536];
    assert_eq!(decode_words(&encode_words(&ws)), ws);
}

#[test]
fn plan_for_empty_input_does_nothing() {
    assert!(matches!(plan_dispatch(&[]), Ok(Dispatch::Nothing)));
}

#[test]
fn plan_stages_four_bytes_per_element() {
    match plan_dispatch(&[1, 2, 3]) {
        Ok(Dispatch::Run(p)) => {
            assert_eq!(p.size, 12);
            assert_eq!(p.workgroups, 3);
            assert_eq!(p.contents, vec![1, 0, 0, 0, 2, 0, 0, 0, 3, 0, 0, 0]);
        }
        _ => panic!("expected a dispatch"),
    }
}

#[test]
fn finish_readback_checks_length() {
    assert_eq!(finish_readback(2, &[1, 0, 0, 0, 2, 0, 0, 0]), Ok(vec![1, 2]));
    assert_eq!(finish_readback(2, &[1, 0, 0, 0]), Err(ExecError::LengthMismatch));
    assert_eq!(finish_readback(1, &[1, 0, 0, 0, 0]), Err(ExecError::LengthMismatch));
}

#[test]
fn readback_polls_then_waits_then_reads() {
    let (mut rb, first) = Readback::new(3);
    assert!(matches!(first, ReadbackAction::Poll));
    assert_eq!(rb.phase, Phase::Polling);
    assert!(matches!(rb.step(ReadbackEvent::Polled), ReadbackAction::Receive));
    assert!(matches!(rb.step(ReadbackEvent::Mapped), ReadbackAction::ReadMapped));
    let bytes = encode_words(&cpu_next_power_of_two(vec![3, 5, 0]));
    match rb.step(ReadbackEvent::Data(bytes)) {
        ReadbackAction::Done(ws) => assert_eq!(ws, vec![4, 8, 1]),
        _ => panic!("expected a result"),
    }
    assert_eq!(rb.phase, Phase::Finished);
}

#[test]
fn readback_map_refused_or_disconnected_fails() {
    let (mut rb, _) = Readback::new(1);
    rb.step(ReadbackEvent::Polled);
    assert!(matches!(
        rb.step(ReadbackEvent::MapRefused),
        ReadbackAction::Fail(ExecError::MapFailed)
    ));
    let (mut rb, _) = Readback::new(1);
    rb.step(ReadbackEvent::Polled);
    assert!(matches!(
        rb.step(ReadbackEvent::Disconnected),
        ReadbackAction::Fail(ExecError::MapFailed)
    ));
}

#[test]
fn readback_rejects_wait_before_poll() {
    let (mut rb, _) = Readback::new(1);
    assert!(matches!(
        rb.step(ReadbackEvent::Mapped),
        ReadbackAction::Fail(ExecError::UnexpectedEvent)
    ));
    assert_eq!(rb.phase, Phase::Finished);
}

#[test]
fn readback_short_data_fails() {
    let (mut rb, _) = Readback::new(2);
    rb.step(ReadbackEvent::Polled);
    rb.step(ReadbackEvent::Mapped);
    assert!(matches!(
        rb.step(ReadbackEvent::Data(vec![1, 0, 0, 0])),
        ReadbackAction::Fail(ExecError::LengthMismatch)
    ));
}
