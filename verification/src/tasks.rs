//! The decisions of the two tasks that share the device state: the task
//! that serves the connection and the sampling loop.
//!
//! The caller runs the loops. It hands the events of the connection to
//! `handle_control_write` and `handle_disconnect`, asks
//! `measurement_task_step` what the sampling loop is to do next, does it,
//! and reports the outcome with the function that belongs to the action.
use vstd::prelude::*;
use crate::binary32::Binary32;
use crate::progressor::{
    after_send,
    ControlOpCode,
    DataPoint,
    DataPointChannel,
    DeviceInfo,
    DeviceState,
    MeasurementTaskStatus,
    ResponseCode,
};

verus! {

/// Milliseconds the sampling loop waits before it looks at the device state
/// again while there is nothing to do.
pub const IDLE_POLL_INTERVAL_MS: u64 = 10;

/// What the sampling loop does next.
#[derive(Clone, Copy, Debug, PartialEq, Eq, Structural)]
pub enum SamplingAction {
    /// Wait `IDLE_POLL_INTERVAL_MS`.
    Idle,
    /// Tare the scale, then call `complete_tare` with the same flag.
    Tare {
        /// Streaming begins once the tare is done.
        then_stream: bool,
    },
    /// Read a calibrated weight and hand it to `send_weight_measurement`.
    Stream {
        /// Time in microseconds at which streaming began.
        start_time: u32,
    },
    /// Collect a calibration point, then call `store_calibration_point`.
    CollectCalibrationPoint {
        /// The reference weight on the scale.
        target_weight: Binary32,
    },
    /// Restore the built-in calibration, then call `complete_request`.
    RestoreDefaultCalibration,
    /// Report the calibration in use, then call `complete_request`.
    ReportCalibration,
}

/// The action that a device state asks of the sampling loop.
pub open spec fn action_for(state: DeviceState) -> SamplingAction {
    match state.measurement_status {
        MeasurementTaskStatus::Disabled => SamplingAction::Idle,
        MeasurementTaskStatus::Tare => SamplingAction::Tare { then_stream: false },
        MeasurementTaskStatus::SoftTare => SamplingAction::Tare { then_stream: true },
        MeasurementTaskStatus::Enabled => SamplingAction::Stream { start_time: state.start_time },
        MeasurementTaskStatus::Calibration(weight) => SamplingAction::CollectCalibrationPoint {
            target_weight: weight,
        },
        MeasurementTaskStatus::DefaultCalibration => SamplingAction::RestoreDefaultCalibration,
        MeasurementTaskStatus::GetCalibration => SamplingAction::ReportCalibration,
    }
}

/// The state after a tare pass that ended at time `now`: the scale is
/// tared, and it streams from `now` on or does nothing.
pub open spec fn after_tare(state: DeviceState, then_stream: bool, now: u32) -> DeviceState {
    if then_stream {
        DeviceState {
            tared: true,
            measurement_status: MeasurementTaskStatus::Enabled,
            start_time: now,
            ..state
        }
    } else {
        DeviceState { tared: true, measurement_status: MeasurementTaskStatus::Disabled, ..state }
    }
}

/// The calibration points after a new one was collected: it fills the
/// first slot if that is empty, and the second one otherwise.
pub open spec fn points_with(points: [Option<Binary32>; 2], point: Binary32) -> Seq<
    Option<Binary32>,
> {
    if points@[0] is None {
        seq![Some(point), points@[1]]
    } else {
        seq![points@[0], Some(point)]
    }
}

/// The state a control write leaves behind: the first byte names the
/// command, an empty write changes nothing.
pub open spec fn after_control_write(data: Seq<u8>, state: DeviceState, now: u32) -> DeviceState {
    if data.len() == 0 {
        state
    } else {
        ControlOpCode::of_byte(data[0]).next_state(data, state, now)
    }
}

/// What the channel holds after a control write.
pub open spec fn contents_after_control_write(
    data: Seq<u8>,
    info: DeviceInfo,
    contents: Seq<DataPoint>,
) -> Seq<DataPoint> {
    if data.len() == 0 {
        contents
    } else {
        ControlOpCode::of_byte(data[0]).next_contents(info, contents)
    }
}

/// What happens on the connection.
pub enum LinkEvent {
    /// The central wrote `data` to the control point at time `now`.
    ControlWrite { data: Seq<u8>, now: u32 },
    /// The central disconnected.
    Disconnected,
}

/// The state after one event on the connection.
pub open spec fn after_event(state: DeviceState, event: LinkEvent) -> DeviceState {
    match event {
        LinkEvent::ControlWrite { data, now } => after_control_write(data, state, now),
        LinkEvent::Disconnected => state.with_status(MeasurementTaskStatus::Disabled),
    }
}

/// The state after a sequence of events on the connection.
pub open spec fn after_events(state: DeviceState, events: Seq<LinkEvent>) -> DeviceState
    decreases events.len(),
{
    if events.len() == 0 {
        state
    } else {
        after_event(after_events(state, events.drop_last()), events.last())
    }
}

/// Whatever was written to the control point before, and in whatever state
/// the device began, it is disabled right after a disconnect.
pub proof fn lemma_disabled_after_disconnect(state: DeviceState, events: Seq<LinkEvent>)
    requires
        events.len() > 0,
        events.last() is Disconnected,
    ensures
        after_events(state, events).measurement_status == MeasurementTaskStatus::Disabled,
{
}

/// What the sampling loop does next in the given state.
pub fn measurement_task_step(state: &DeviceState) -> (action: SamplingAction)
    ensures
        action == action_for(*state),
{
    match state.measurement_status {
        MeasurementTaskStatus::Disabled => SamplingAction::Idle,
        MeasurementTaskStatus::Tare => SamplingAction::Tare { then_stream: false },
        MeasurementTaskStatus::SoftTare => SamplingAction::Tare { then_stream: true },
        MeasurementTaskStatus::Enabled => SamplingAction::Stream { start_time: state.start_time },
        MeasurementTaskStatus::Calibration(weight) => SamplingAction::CollectCalibrationPoint {
            target_weight: weight,
        },
        MeasurementTaskStatus::DefaultCalibration => SamplingAction::RestoreDefaultCalibration,
        MeasurementTaskStatus::GetCalibration => SamplingAction::ReportCalibration,
    }
}

/// Records that a tare pass ended at time `now`, in microseconds: the
/// scale is tared; it streams from `now` on where `then_stream` is set and
/// does nothing otherwise.
pub fn complete_tare(state: &mut DeviceState, then_stream: bool, now: u32)
    ensures
        *final(state) == after_tare(*old(state), then_stream, now),
{
    state.tared = true;
    if then_stream {
        state.start_time = now;
        state.measurement_status = MeasurementTaskStatus::Enabled;
    } else {
        state.measurement_status = MeasurementTaskStatus::Disabled;
    }
}

/// Stores a calibration point and disables the sampling loop. The point
/// fills the first slot if that is empty, and the second one otherwise.
/// Where both slots are filled afterwards, the two points are returned: the
/// caller applies the two-point calibration to them.
pub fn store_calibration_point(state: &mut DeviceState, point: Binary32) -> (pair: Option<
    [Binary32; 2],
>)
    ensures
        final(state).measurement_status == MeasurementTaskStatus::Disabled,
        final(state).tared == old(state).tared,
        final(state).start_time == old(state).start_time,
        final(state).calibration_points@ == points_with(old(state).calibration_points, point),
        match old(state).calibration_points@[0] {
            None => pair is None,
            Some(first) => pair matches Some(points) && points@ == seq![first, point],
        },
{
    state.measurement_status = MeasurementTaskStatus::Disabled;
    match state.calibration_points[0] {
        None => {
            state.calibration_points[0] = Some(point);
            assert(state.calibration_points@ =~= points_with(old(state).calibration_points, point));
            None
        },
        Some(first) => {
            state.calibration_points[1] = Some(point);
            assert(state.calibration_points@ =~= points_with(old(state).calibration_points, point));
            let points = [first, point];
            assert(points@ =~= seq![first, point]);
            Some(points)
        },
    }
}

/// Records that the sampling loop has served a request for the built-in
/// calibration or for a report of the calibration: it does nothing from
/// now on.
pub fn complete_request(state: &mut DeviceState)
    ensures
        *final(state) == old(state).with_status(MeasurementTaskStatus::Disabled),
{
    state.measurement_status = MeasurementTaskStatus::Disabled;
}

/// The time stamp of a measurement taken at `now` in a stream that began
/// at `start_time`: the microseconds between the two, on a clock that wraps
/// around at 2^32.
pub open spec fn elapsed(now: u32, start_time: u32) -> u32 {
    if now >= start_time {
        (now - start_time) as u32
    } else {
        (now + 0x1_0000_0000 - start_time) as u32
    }
}

/// Sends a weight, in kilograms, that was measured at time `now` in a
/// stream that began at `start_time`, both in microseconds. A full channel
/// drops the measurement.
pub fn send_weight_measurement(
    weight: Binary32,
    now: u32,
    start_time: u32,
    channel: &mut DataPointChannel,
)
    ensures
        final(channel).contents() == after_send(
            old(channel).contents(),
            DataPoint::of_response(
                ResponseCode::WeightMeasurement(weight, elapsed(now, start_time)),
            ),
        ),
{
    let timestamp = now.wrapping_sub(start_time);
    let response = ResponseCode::WeightMeasurement(weight, timestamp);
    let data_point = DataPoint::from(response);
    data_point.send(channel);
}

/// Serves a write to the control point, received at time `now` in
/// microseconds: the first byte names the command, which is carried out.
/// An empty write is ignored.
pub fn handle_control_write(
    data: &[u8],
    channel: &mut DataPointChannel,
    device_state: &mut DeviceState,
    now: u32,
    info: &DeviceInfo,
)
    ensures
        *final(device_state) == after_control_write(data@, *old(device_state), now),
        final(channel).contents() == contents_after_control_write(
            data@,
            *info,
            old(channel).contents(),
        ),
{
    if data.len() == 0 {
        return ;
    }
    let op_code = ControlOpCode::from(data[0]);
    op_code.process(data, channel, device_state, now, info);
}

/// Serves the end of the connection: whatever the sampling loop was asked
/// to do, it is disabled.
pub fn handle_disconnect(device_state: &mut DeviceState)
    ensures
        *final(device_state) == after_event(*old(device_state), LinkEvent::Disconnected),
        final(device_state).measurement_status == MeasurementTaskStatus::Disabled,
{
    device_state.stop_measurement();
}

} // verus!
