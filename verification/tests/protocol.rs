use mremote::requests::Request;
use mremote::session::{
    AcquireError, DrainStep, SetParams, acquisition_script, apply_safety_stop, drain_status,
    expected_response_len, input_speed_payload, sample_count_for, set_script, step_excitation,
};

#[test]
fn opcode_values_are_stable() {
    assert_eq!(Request::SetSampleCount.value(), 0x00);
    assert_eq!(Request::SetAcqSampleRate.value(), 0x01);
    assert_eq!(Request::SetInputSpeed.value(), 0x02);
    assert_eq!(Request::LaunchAq.value(), 0x03);
    assert_eq!(Request::SetFeedbackSampleRate.value(), 0x04);
    assert_eq!(Request::SetP.value(), 0x05);
    assert_eq!(Request::SetI.value(), 0x06);
    assert_eq!(Request::SetD.value(), 0x07);
    assert_eq!(Request::GetStatus.value(), 0x08);
    assert_eq!(Request::SetFeedback.value(), 0x09);
}

#[test]
fn sample_count_truncating_division() {
    assert_eq!(sample_count_for(100000, 10000), Ok(10));
    assert_eq!(sample_count_for(25000, 10000), Ok(2));
}

#[test]
fn sample_count_zero_is_fatal() {
    assert_eq!(sample_count_for(5000, 10000), Err(AcquireError::ZeroSampleCount));
    assert_eq!(sample_count_for(0, 1), Err(AcquireError::ZeroSampleCount));
}

#[test]
fn payload_is_little_endian_floats() {
    let words = vec![1.5f32.to_bits(), (-2.0f32).to_bits()];
    let payload = input_speed_payload(&words);
    let mut expected: Vec<u8> = Vec::new();
    expected.extend_from_slice(&1.5f32.to_le_bytes());
    expected.extend_from_slice(&(-2.0f32).to_le_bytes());
    assert_eq!(payload, expected);
}

#[test]
fn step_excitation_scenario() {
    let v = 3.0f32.to_bits();
    let input = step_excitation(v, 4);
    assert_eq!(input, vec![v, v, 0.0f32.to_bits(), 0.0f32.to_bits()]);
}

#[test]
fn step_excitation_round_trips_through_payload() {
    let v = 7.25f32.to_bits();
    let input = step_excitation(v, 10);
    let payload = input_speed_payload(&input);
    assert_eq!(payload.len(), 40);
    let read_back: Vec<f32> = payload
        .chunks(4)
        .map(|c| f32::from_le_bytes([c[0], c[1], c[2], c[3]]))
        .collect();
    for i in 0..8 {
        assert_eq!(read_back[i], 7.25);
    }
    assert_eq!(read_back[8], 0.0);
    assert_eq!(read_back[9], 0.0);
}

#[test]
fn safety_stop_only_clears_last_two() {
    let mut input = vec![11u32, 22, 33, 44];
    apply_safety_stop(&mut input);
    assert_eq!(input, vec![11, 22, 0, 0]);
}

#[test]
fn acquisition_script_bytes() {
    let words = vec![1.0f32.to_bits(), 0u32];
    let script = acquisition_script(2, 10000, &words);
    let mut expected: Vec<u8> = vec![0x00];
    expected.extend_from_slice(&2u32.to_le_bytes());
    expected.push(0x01);
    expected.extend_from_slice(&10000u32.to_le_bytes());
    expected.push(0x02);
    expected.extend_from_slice(&1.0f32.to_le_bytes());
    expected.extend_from_slice(&0.0f32.to_le_bytes());
    expected.push(0x03);
    assert_eq!(script, expected);
}

#[test]
fn expected_response_len_is_32_per_sample() {
    assert_eq!(expected_response_len(0), 0);
    assert_eq!(expected_response_len(10), 320);
}

#[test]
fn drain_decisions() {
    assert_eq!(drain_status(320, 320, 16), DrainStep::Complete);
    assert_eq!(drain_status(400, 320, 0), DrainStep::Complete);
    assert_eq!(drain_status(100, 320, 50), DrainStep::NeedMore);
    assert_eq!(drain_status(100, 320, 0), DrainStep::PeerClosedEarly);
}

#[test]
fn set_script_all_parameters() {
    let params = SetParams {
        proportional: Some(1.5f32.to_bits()),
        integral: Some(0.5f32.to_bits()),
        derivative: Some(0.25f32.to_bits()),
        feedback_sample_time: Some(2000),
        feedback_enabled: Some(1),
    };
    let script = set_script(&params);
    let mut expected: Vec<u8> = vec![0x05];
    expected.extend_from_slice(&1.5f32.to_le_bytes());
    expected.push(0x06);
    expected.extend_from_slice(&0.5f32.to_le_bytes());
    expected.push(0x07);
    expected.extend_from_slice(&0.25f32.to_le_bytes());
    expected.push(0x04);
    expected.extend_from_slice(&2000u32.to_le_bytes());
    expected.push(0x09);
    expected.push(1);
    assert_eq!(script, expected);
}

#[test]
fn set_script_partial_parameters() {
    let params = SetParams {
        proportional: None,
        integral: Some(2.0f32.to_bits()),
        derivative: None,
        feedback_sample_time: None,
        feedback_enabled: Some(0),
    };
    let script = set_script(&params);
    let mut expected: Vec<u8> = vec![0x06];
    expected.extend_from_slice(&2.0f32.to_le_bytes());
    expected.push(0x09);
    expected.push(0);
    assert_eq!(script, expected);
}

#[test]
fn set_script_empty() {
    let params = SetParams {
        proportional: None,
        integral: None,
        derivative: None,
        feedback_sample_time: None,
        feedback_enabled: None,
    };
    assert_eq!(set_script(&params), Vec::<u8>::new());
}
