use crimpdeq::binary32::Binary32;
use crimpdeq::progressor::{
    DataPoint,
    DataPointChannel,
    DeviceInfo,
    DeviceState,
    MeasurementTaskStatus,
    ResponseCode,
};
use crimpdeq::tasks::{
    complete_request,
    complete_tare,
    handle_control_write,
    handle_disconnect,
    measurement_task_step,
    send_weight_measurement,
    store_calibration_point,
    SamplingAction,
    IDLE_POLL_INTERVAL_MS,
};

fn bits_of(v: f32) -> Binary32 {
    Binary32::from_bits(v.to_bits())
}

fn info() -> DeviceInfo {
    DeviceInfo { version: b"1.0.0", device_id: b"0102030405FF" }
}

fn with_status(status: MeasurementTaskStatus) -> DeviceState {
    let mut state = DeviceState::new();
    state.measurement_status = status;
    state
}

fn all_statuses() -> Vec<MeasurementTaskStatus> {
    vec![
        MeasurementTaskStatus::Enabled,
        MeasurementTaskStatus::Disabled,
        MeasurementTaskStatus::Calibration(bits_of(20.0)),
        MeasurementTaskStatus::Tare,
        MeasurementTaskStatus::SoftTare,
        MeasurementTaskStatus::DefaultCalibration,
        MeasurementTaskStatus::GetCalibration,
    ]
}

#[test]
fn idle_interval() {
    assert_eq!(IDLE_POLL_INTERVAL_MS, 10);
}

#[test]
fn the_status_selects_the_action() {
    assert_eq!(measurement_task_step(&with_status(MeasurementTaskStatus::Disabled)), SamplingAction::Idle);
    assert_eq!(
        measurement_task_step(&with_status(MeasurementTaskStatus::Tare)),
        SamplingAction::Tare { then_stream: false }
    );
    assert_eq!(
        measurement_task_step(&with_status(MeasurementTaskStatus::SoftTare)),
        SamplingAction::Tare { then_stream: true }
    );
    let mut state = with_status(MeasurementTaskStatus::Enabled);
    state.start_time = 77;
    assert_eq!(measurement_task_step(&state), SamplingAction::Stream { start_time: 77 });
    assert_eq!(
        measurement_task_step(&with_status(MeasurementTaskStatus::Calibration(bits_of(5.0)))),
        SamplingAction::CollectCalibrationPoint { target_weight: bits_of(5.0) }
    );
    assert_eq!(
        measurement_task_step(&with_status(MeasurementTaskStatus::DefaultCalibration)),
        SamplingAction::RestoreDefaultCalibration
    );
    assert_eq!(
        measurement_task_step(&with_status(MeasurementTaskStatus::GetCalibration)),
        SamplingAction::ReportCalibration
    );
}

#[test]
fn a_tare_disables_and_a_soft_tare_streams() {
    let mut state = with_status(MeasurementTaskStatus::Tare);
    complete_tare(&mut state, false, 900);
    assert!(state.tared);
    assert_eq!(state.measurement_status, MeasurementTaskStatus::Disabled);
    assert_eq!(state.start_time, 0);

    let mut state = with_status(MeasurementTaskStatus::SoftTare);
    complete_tare(&mut state, true, 900);
    assert!(state.tared);
    assert_eq!(state.measurement_status, MeasurementTaskStatus::Enabled);
    assert_eq!(state.start_time, 900);
}

#[test]
fn start_tare_stream_sequence() {
    let mut channel = DataPointChannel::new();
    let mut state = DeviceState::new();
    handle_control_write(&[0x65], &mut channel, &mut state, 100, &info());
    let action = measurement_task_step(&state);
    assert_eq!(action, SamplingAction::Tare { then_stream: true });
    complete_tare(&mut state, true, 250);
    assert_eq!(measurement_task_step(&state), SamplingAction::Stream { start_time: 250 });
    handle_control_write(&[0x66], &mut channel, &mut state, 300, &info());
    assert_eq!(measurement_task_step(&state), SamplingAction::Idle);
    handle_control_write(&[0x65], &mut channel, &mut state, 400, &info());
    assert_eq!(measurement_task_step(&state), SamplingAction::Stream { start_time: 400 });
}

#[test]
fn calibration_points_fill_the_first_empty_slot() {
    let mut state = with_status(MeasurementTaskStatus::Calibration(bits_of(20.0)));
    state.tared = true;
    state.start_time = 5;
    assert_eq!(store_calibration_point(&mut state, bits_of(100.0)), None);
    assert_eq!(state.calibration_points, [Some(bits_of(100.0)), None]);
    assert_eq!(state.measurement_status, MeasurementTaskStatus::Disabled);
    assert!(state.tared);
    assert_eq!(state.start_time, 5);

    state.calibrate(bits_of(20.0));
    assert_eq!(
        store_calibration_point(&mut state, bits_of(300.0)),
        Some([bits_of(100.0), bits_of(300.0)])
    );
    assert_eq!(state.calibration_points, [Some(bits_of(100.0)), Some(bits_of(300.0))]);
    assert_eq!(state.measurement_status, MeasurementTaskStatus::Disabled);
}

#[test]
fn a_third_calibration_point_replaces_the_second() {
    let mut state = DeviceState::new();
    store_calibration_point(&mut state, bits_of(1.0));
    store_calibration_point(&mut state, bits_of(2.0));
    assert_eq!(
        store_calibration_point(&mut state, bits_of(3.0)),
        Some([bits_of(1.0), bits_of(3.0)])
    );
    assert_eq!(state.calibration_points, [Some(bits_of(1.0)), Some(bits_of(3.0))]);
}

#[test]
fn a_first_slot_emptied_by_hand_is_filled_again() {
    let mut state = DeviceState::new();
    state.calibration_points = [None, Some(bits_of(9.0))];
    assert_eq!(store_calibration_point(&mut state, bits_of(1.0)), None);
    assert_eq!(state.calibration_points, [Some(bits_of(1.0)), Some(bits_of(9.0))]);
}

#[test]
fn served_requests_disable_the_loop() {
    for status in [MeasurementTaskStatus::DefaultCalibration, MeasurementTaskStatus::GetCalibration] {
        let mut state = with_status(status);
        state.tared = true;
        complete_request(&mut state);
        assert_eq!(state.measurement_status, MeasurementTaskStatus::Disabled);
        assert!(state.tared);
    }
}

#[test]
fn weight_measurements_carry_the_elapsed_time() {
    let mut channel = DataPointChannel::new();
    send_weight_measurement(bits_of(12.5), 1500, 500, &mut channel);
    assert_eq!(
        channel.try_receive(),
        Some(DataPoint::from(ResponseCode::WeightMeasurement(bits_of(12.5), 1000)))
    );
    assert_eq!(channel.try_receive(), None);
}

#[test]
fn the_elapsed_time_wraps_with_the_clock() {
    let mut channel = DataPointChannel::new();
    send_weight_measurement(bits_of(1.0), 5, u32::MAX - 4, &mut channel);
    send_weight_measurement(bits_of(1.0), 0, 0, &mut channel);
    send_weight_measurement(bits_of(1.0), 0, 1, &mut channel);
    assert_eq!(
        channel.try_receive(),
        Some(DataPoint::from(ResponseCode::WeightMeasurement(bits_of(1.0), 10)))
    );
    assert_eq!(
        channel.try_receive(),
        Some(DataPoint::from(ResponseCode::WeightMeasurement(bits_of(1.0), 0)))
    );
    assert_eq!(
        channel.try_receive(),
        Some(DataPoint::from(ResponseCode::WeightMeasurement(bits_of(1.0), u32::MAX)))
    );
}

#[test]
fn measurements_beyond_the_capacity_are_dropped() {
    let mut channel = DataPointChannel::new();
    for i in 0..200u32 {
        send_weight_measurement(bits_of(i as f32), i, 0, &mut channel);
    }
    let mut received = 0u32;
    while let Some(point) = channel.try_receive() {
        assert_eq!(point, DataPoint::weight_measurement(bits_of(received as f32), received));
        received += 1;
    }
    assert_eq!(received, 80);
}

#[test]
fn an_empty_write_is_ignored() {
    let mut channel = DataPointChannel::new();
    for status in all_statuses() {
        let mut state = with_status(status);
        handle_control_write(&[], &mut channel, &mut state, 1, &info());
        assert_eq!(state, with_status(status));
    }
    assert_eq!(channel.try_receive(), None);
}

#[test]
fn a_write_is_decoded_by_its_first_byte() {
    let mut channel = DataPointChannel::new();
    let mut state = DeviceState::new();
    handle_control_write(&[0x64, 1, 2, 3], &mut channel, &mut state, 1, &info());
    assert_eq!(state.measurement_status, MeasurementTaskStatus::Tare);
    handle_control_write(&[0x69, 0x41, 0xA0, 0, 0], &mut channel, &mut state, 1, &info());
    assert_eq!(state.measurement_status, MeasurementTaskStatus::Calibration(bits_of(20.0)));
    handle_control_write(&[0x73, 0x41], &mut channel, &mut state, 1, &info());
    assert_eq!(state.measurement_status, MeasurementTaskStatus::Calibration(bits_of(20.0)));
    handle_control_write(&[0x70], &mut channel, &mut state, 1, &info());
    assert_eq!(
        channel.try_receive(),
        Some(DataPoint::from(ResponseCode::ProgressorId([1, 2, 3, 4, 5, 0xFF])))
    );
}

#[test]
fn an_unknown_write_stops_the_measurement() {
    let mut channel = DataPointChannel::new();
    for byte in [0x00u8, 0x01, 0x63, 0x67, 0x75, 0xFF] {
        let mut state = with_status(MeasurementTaskStatus::Enabled);
        handle_control_write(&[byte, 9, 9, 9, 9], &mut channel, &mut state, 1, &info());
        assert_eq!(state.measurement_status, MeasurementTaskStatus::Disabled);
    }
    assert_eq!(channel.try_receive(), None);
}

#[test]
fn a_disconnect_disables_whatever_was_requested() {
    for status in all_statuses() {
        let mut state = with_status(status);
        state.tared = true;
        state.start_time = 42;
        state.calibration_points = [Some(bits_of(1.0)), None];
        handle_disconnect(&mut state);
        assert_eq!(state.measurement_status, MeasurementTaskStatus::Disabled);
        assert!(state.tared);
        assert_eq!(state.start_time, 42);
        assert_eq!(state.calibration_points, [Some(bits_of(1.0)), None]);
    }
}

#[test]
fn disabled_after_every_disconnect_in_any_sequence() {
    // 0: start, 1: stop, 2: disconnect; all sequences of up to six events
    let mut channel = DataPointChannel::new();
    for tared in [false, true] {
        for length in 1..=6u32 {
            for code in 0..3u32.pow(length) {
                let mut state = DeviceState::new();
                state.tared = tared;
                let mut rest = code;
                for step in 0..length {
                    match rest % 3 {
                        0 => handle_control_write(&[0x65], &mut channel, &mut state, step, &info()),
                        1 => handle_control_write(&[0x66], &mut channel, &mut state, step, &info()),
                        _ => {
                            handle_disconnect(&mut state);
                            assert_eq!(state.measurement_status, MeasurementTaskStatus::Disabled);
                        }
                    }
                    rest /= 3;
                }
            }
        }
    }
}

#[test]
fn no_stale_mode_survives_a_reconnect() {
    let mut channel = DataPointChannel::new();
    let mut state = DeviceState::new();
    state.tared = true;
    handle_control_write(&[0x65], &mut channel, &mut state, 10, &info());
    assert_eq!(measurement_task_step(&state), SamplingAction::Stream { start_time: 10 });
    handle_disconnect(&mut state);
    assert_eq!(measurement_task_step(&state), SamplingAction::Idle);

    handle_control_write(&[0x73, 0x41, 0xA0, 0, 0], &mut channel, &mut state, 20, &info());
    handle_disconnect(&mut state);
    assert_eq!(measurement_task_step(&state), SamplingAction::Idle);
}
