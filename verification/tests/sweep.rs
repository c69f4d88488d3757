use mremote::acquire::AcqResult;
use mremote::sweep::{SweepAction, SweepEvent, SweepState, motor_1_curve, motor_2_curve};

fn acquisition(sample_time: u32, floats: &[f32]) -> AcqResult {
    let mut bytes: Vec<u8> = Vec::new();
    for v in floats {
        bytes.extend_from_slice(&v.to_le_bytes());
    }
    AcqResult::from_bytes(sample_time, &bytes)
}

#[test]
fn motor_curves_pick_setpoint_and_speed() {
    let acq = acquisition(
        1000,
        &[
            1.0, 2.0, 3.0, 4.0, 5.0, 6.0, 7.0, 8.0, //
            9.0, 10.0, 11.0, 12.0, 13.0, 14.0, 15.0, 16.0,
        ],
    );
    let c1 = motor_1_curve(&acq);
    let c2 = motor_2_curve(&acq);
    assert_eq!(
        c1,
        vec![
            (0, 1.0f32.to_bits(), 2.0f32.to_bits()),
            (1000, 9.0f32.to_bits(), 10.0f32.to_bits()),
        ]
    );
    assert_eq!(
        c2,
        vec![
            (0, 5.0f32.to_bits(), 6.0f32.to_bits()),
            (1000, 13.0f32.to_bits(), 14.0f32.to_bits()),
        ]
    );
}

#[test]
fn sweep_completes_in_one_clean_pass() {
    let mut state = SweepState::new(2);
    assert_eq!(state.next_action(), SweepAction::Acquire(0));

    let a = state.step(SweepEvent::Acquired(acquisition(100, &[1.0; 8])));
    assert_eq!(a, SweepAction::Acquire(1));

    let a = state.step(SweepEvent::Acquired(acquisition(100, &[2.0; 8])));
    assert_eq!(a, SweepAction::Done);
    assert_eq!(state.next_action(), SweepAction::Done);

    assert_eq!(state.results_m1.len(), 2);
    assert_eq!(state.results_m2.len(), 2);
    assert_eq!(state.results_m1[0].0, 0);
    assert_eq!(state.results_m1[1].0, 1);
    assert_eq!(state.results_m1[0].1, vec![(0, 1.0f32.to_bits(), 1.0f32.to_bits())]);
    assert_eq!(state.results_m1[1].1, vec![(0, 2.0f32.to_bits(), 2.0f32.to_bits())]);
}

#[test]
fn sweep_retry_scenario() {
    // Five frequencies; the third acquisition fails with a connection
    // error. The sweep must restart from the first frequency, keeping
    // nothing.
    let mut state = SweepState::new(5);
    assert_eq!(state.next_action(), SweepAction::Acquire(0));
    assert_eq!(
        state.step(SweepEvent::Acquired(acquisition(100, &[1.0; 8]))),
        SweepAction::Acquire(1)
    );
    assert_eq!(
        state.step(SweepEvent::Acquired(acquisition(100, &[2.0; 8]))),
        SweepAction::Acquire(2)
    );

    let a = state.step(SweepEvent::ConnectionFailed);
    assert_eq!(a, SweepAction::Restart);
    assert_eq!(state.next_action(), SweepAction::Acquire(0));
    assert_eq!(state.results_m1.len(), 0);
    assert_eq!(state.results_m2.len(), 0);

    // The retried pass runs all five frequencies from the start.
    for i in 0..5u32 {
        let expected = if i == 4 {
            SweepAction::Done
        } else {
            SweepAction::Acquire(i as usize + 1)
        };
        let value = i as f32;
        assert_eq!(
            state.step(SweepEvent::Acquired(acquisition(100, &[value; 8]))),
            expected
        );
    }
    assert_eq!(state.results_m1.len(), 5);
    assert_eq!(state.results_m1[2].0, 2);
    assert_eq!(state.results_m1[2].1, vec![(0, 2.0f32.to_bits(), 2.0f32.to_bits())]);
}
