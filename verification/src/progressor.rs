//! Control commands and data points of the transmitter's GATT protocol.
use vstd::prelude::*;
use embassy_sync::blocking_mutex::raw::NoopRawMutex;
use embassy_sync::channel::Channel;
use crate::binary32::Binary32;
use crate::bytes::{be_value, le_bytes, u32_from_be_bytes, u32_to_le_bytes};

verus! {

/// Number of data points the channel between the sampling loop and the
/// notifier can hold.
pub const DATA_POINT_COMMAND_CHANNEL_SIZE: usize = 80;

/// Largest number of payload bytes a data point carries.
pub const MAX_PAYLOAD_SIZE: usize = 10;

/// Number of bytes in the device identity.
pub const DEVICE_ID_SIZE: usize = 6;

/// Largest number of bytes a data point occupies on the wire: response code,
/// length and payload.
pub const GATT_FRAME_SIZE: usize = 12;

/// Battery voltage that is reported, in millivolts.
pub const BATTERY_VOLTAGE_MV: u32 = 4300;

/// Number of bytes an `AddCalibrationPoint` command occupies: the opcode and
/// the reference weight, a single-precision value, most significant byte
/// first.
pub const ADD_CALIBRATION_POINT_SIZE: usize = 5;

/// Response code of answers to commands.
pub const RESPONSE_COMMAND: u8 = 0x00;

/// Response code of weight measurements.
pub const RESPONSE_WEIGHT_MEASUREMENT: u8 = 0x01;

/// Response code of the low power warning.
pub const RESPONSE_LOW_POWER_WARNING: u8 = 0x04;

/// What the sampling loop is asked to do.
#[derive(Clone, Copy, Debug, PartialEq, Eq, Structural)]
pub enum MeasurementTaskStatus {
    /// Stream weight measurements.
    Enabled,
    /// Do nothing.
    Disabled,
    /// Collect a calibration point for the reference weight.
    Calibration(Binary32),
    /// Tare the scale, then do nothing.
    Tare,
    /// Tare the scale, then stream weight measurements.
    SoftTare,
    /// Restore the built-in calibration.
    DefaultCalibration,
    /// Report the calibration.
    GetCalibration,
}

/// The record shared by the command decoder and the sampling loop.
///
/// The decoder only requests a mode; the sampling loop does the work and
/// decides when a transient mode gives way to `Disabled` or `Enabled`.
#[derive(Clone, Copy, Debug, PartialEq, Eq)]
pub struct DeviceState {
    /// What the sampling loop is asked to do.
    pub measurement_status: MeasurementTaskStatus,
    /// Whether the scale has been tared.
    pub tared: bool,
    /// Time in microseconds at which streaming began.
    pub start_time: u32,
    /// Raw averages of the calibration points collected so far.
    pub calibration_points: [Option<Binary32>; 2],
}

impl DeviceState {
    /// This state with another mode.
    pub open spec fn with_status(self, status: MeasurementTaskStatus) -> DeviceState {
        DeviceState { measurement_status: status, ..self }
    }

    /// The initial state: disabled, not tared, no calibration points.
    pub open spec fn initial() -> DeviceState {
        DeviceState {
            measurement_status: MeasurementTaskStatus::Disabled,
            tared: false,
            start_time: 0,
            calibration_points: [None, None],
        }
    }

    /// The state after a request to start measuring at time `now`: a tared
    /// scale streams at once, another one tares first.
    pub open spec fn after_start(self, now: u32) -> DeviceState {
        if self.tared {
            DeviceState {
                measurement_status: MeasurementTaskStatus::Enabled,
                start_time: now,
                ..self
            }
        } else {
            self.with_status(MeasurementTaskStatus::SoftTare)
        }
    }

    /// The initial state: disabled, not tared, no calibration points.
    pub fn new() -> (state: DeviceState)
        ensures
            state == DeviceState::initial(),
    {
        let state = DeviceState {
            measurement_status: MeasurementTaskStatus::Disabled,
            tared: false,
            start_time: 0,
            calibration_points: [None, None],
        };
        assert(state.calibration_points =~= DeviceState::initial().calibration_points);
        state
    }

    /// Requests streaming at time `now`, in microseconds. A tared scale
    /// streams from `now` on; otherwise the scale is tared first.
    pub fn start_measurement(&mut self, now: u32)
        ensures
            *final(self) == old(self).after_start(now),
    {
        if self.tared {
            self.start_time = now;
            self.measurement_status = MeasurementTaskStatus::Enabled;
        } else {
            self.measurement_status = MeasurementTaskStatus::SoftTare;
        }
    }

    /// Stops whatever the sampling loop was asked to do.
    pub fn stop_measurement(&mut self)
        ensures
            *final(self) == old(self).with_status(MeasurementTaskStatus::Disabled),
    {
        self.measurement_status = MeasurementTaskStatus::Disabled;
    }

    /// Requests a tare.
    pub fn tare(&mut self)
        ensures
            *final(self) == old(self).with_status(MeasurementTaskStatus::Tare),
    {
        self.measurement_status = MeasurementTaskStatus::Tare;
    }

    /// Requests a calibration point for the reference weight.
    pub fn calibrate(&mut self, weight: Binary32)
        ensures
            *final(self) == old(self).with_status(MeasurementTaskStatus::Calibration(weight)),
    {
        self.measurement_status = MeasurementTaskStatus::Calibration(weight);
    }

    /// Requests a report of the calibration.
    pub fn get_calibration(&mut self)
        ensures
            *final(self) == old(self).with_status(MeasurementTaskStatus::GetCalibration),
    {
        self.measurement_status = MeasurementTaskStatus::GetCalibration;
    }

    /// Requests the built-in calibration.
    pub fn reset_calibration(&mut self)
        ensures
            *final(self) == old(self).with_status(MeasurementTaskStatus::DefaultCalibration),
    {
        self.measurement_status = MeasurementTaskStatus::DefaultCalibration;
    }
}

impl Default for DeviceState {
    fn default() -> (state: DeviceState)
        ensures
            state == DeviceState::initial(),
    {
        DeviceState::new()
    }
}

/// What a data point reports.
#[derive(Clone, Copy, Debug)]
pub enum ResponseCode {
    /// Battery voltage in millivolts.
    SampleBatteryVoltage(u32),
    /// A weight in kilograms and the microseconds since the measurement
    /// was started.
    WeightMeasurement(Binary32, u32),
    /// The battery is empty and the device is about to turn itself off.
    LowPowerWarning,
    /// The application version.
    AppVersion(&'static [u8]),
    /// The device identity, most significant byte first.
    ProgressorId([u8; DEVICE_ID_SIZE]),
}

impl ResponseCode {
    /// The code that announces this kind of response.
    pub open spec fn spec_op_code(self) -> u8 {
        match self {
            ResponseCode::SampleBatteryVoltage(..) => RESPONSE_COMMAND,
            ResponseCode::AppVersion(..) => RESPONSE_COMMAND,
            ResponseCode::ProgressorId(..) => RESPONSE_COMMAND,
            ResponseCode::WeightMeasurement(..) => RESPONSE_WEIGHT_MEASUREMENT,
            ResponseCode::LowPowerWarning => RESPONSE_LOW_POWER_WARNING,
        }
    }

    /// The payload bytes of this response, before they are cut to
    /// `MAX_PAYLOAD_SIZE`: numbers little-endian, the version as it is, the
    /// identity least significant byte first.
    pub open spec fn payload(self) -> Seq<u8> {
        match self {
            ResponseCode::SampleBatteryVoltage(millivolts) => le_bytes(millivolts),
            ResponseCode::WeightMeasurement(weight, timestamp) => le_bytes(weight.bits) + le_bytes(
                timestamp,
            ),
            ResponseCode::LowPowerWarning => Seq::empty(),
            ResponseCode::AppVersion(version) => version@,
            ResponseCode::ProgressorId(id) => id@.reverse(),
        }
    }

    /// Number of payload bytes that are sent: all of them, or
    /// `MAX_PAYLOAD_SIZE` where there are more.
    pub open spec fn spec_length(self) -> nat {
        if self.payload().len() <= MAX_PAYLOAD_SIZE {
            self.payload().len()
        } else {
            MAX_PAYLOAD_SIZE as nat
        }
    }

    /// The code that announces this kind of response.
    pub fn op_code(&self) -> (code: u8)
        ensures
            code == self.spec_op_code(),
    {
        match self {
            ResponseCode::SampleBatteryVoltage(..)
            | ResponseCode::AppVersion(..)
            | ResponseCode::ProgressorId(..) => RESPONSE_COMMAND,
            ResponseCode::WeightMeasurement(..) => RESPONSE_WEIGHT_MEASUREMENT,
            ResponseCode::LowPowerWarning => RESPONSE_LOW_POWER_WARNING,
        }
    }

    /// Number of payload bytes that are sent.
    pub fn length(&self) -> (len: u8)
        ensures
            len == self.spec_length(),
    {
        match self {
            ResponseCode::SampleBatteryVoltage(..) => 4,
            ResponseCode::WeightMeasurement(..) => 8,
            ResponseCode::LowPowerWarning => 0,
            ResponseCode::AppVersion(version) => if version.len() <= MAX_PAYLOAD_SIZE {
                version.len() as u8
            } else {
                MAX_PAYLOAD_SIZE as u8
            },
            ResponseCode::ProgressorId(..) => DEVICE_ID_SIZE as u8,
        }
    }

    /// The payload, cut to `MAX_PAYLOAD_SIZE` bytes and padded with zeros.
    pub fn value(&self) -> (value: [u8; MAX_PAYLOAD_SIZE])
        ensures
            value@ == padded_payload(self.payload(), MAX_PAYLOAD_SIZE as int),
    {
        let mut value = [0u8; MAX_PAYLOAD_SIZE];
        match self {
            ResponseCode::SampleBatteryVoltage(millivolts) => {
                let bytes = u32_to_le_bytes(*millivolts);
                value[0] = bytes[0];
                value[1] = bytes[1];
                value[2] = bytes[2];
                value[3] = bytes[3];
            },
            ResponseCode::WeightMeasurement(weight, timestamp) => {
                let weight_bytes = weight.to_le_bytes();
                let time_bytes = u32_to_le_bytes(*timestamp);
                value[0] = weight_bytes[0];
                value[1] = weight_bytes[1];
                value[2] = weight_bytes[2];
                value[3] = weight_bytes[3];
                value[4] = time_bytes[0];
                value[5] = time_bytes[1];
                value[6] = time_bytes[2];
                value[7] = time_bytes[3];
            },
            ResponseCode::LowPowerWarning => (),
            ResponseCode::ProgressorId(id) => {
                let mut i: usize = 0;
                while i < DEVICE_ID_SIZE
                    invariant
                        i <= DEVICE_ID_SIZE,
                        forall|j: int| 0 <= j < i ==> value@[j] == id@[DEVICE_ID_SIZE - 1 - j],
                        forall|j: int| i <= j < MAX_PAYLOAD_SIZE ==> value@[j] == 0,
                    decreases DEVICE_ID_SIZE - i,
                {
                    value[i] = id[DEVICE_ID_SIZE - 1 - i];
                    i += 1;
                }
            },
            ResponseCode::AppVersion(version) => {
                let mut i: usize = 0;
                while i < MAX_PAYLOAD_SIZE && i < version.len()
                    invariant
                        i <= MAX_PAYLOAD_SIZE,
                        i <= version@.len(),
                        forall|j: int| 0 <= j < i ==> value@[j] == version@[j],
                        forall|j: int| i <= j < MAX_PAYLOAD_SIZE ==> value@[j] == 0,
                    decreases MAX_PAYLOAD_SIZE - i,
                {
                    value[i] = version[i];
                    i += 1;
                }
            },
        };
        assert(value@ =~= padded_payload(self.payload(), MAX_PAYLOAD_SIZE as int));
        value
    }
}

/// The bounded queue that carries data points from the sampling loop to the
/// notifier, oldest first.
///
/// It holds a `Channel` of embassy-sync with room for
/// `DATA_POINT_COMMAND_CHANNEL_SIZE` data points. The verifier does not look
/// inside; what the channel holds is named by `channel_contents`, and what
/// its methods do is stated where they are called.
#[verifier::external_body]
pub struct DataPointChannel {
    queue: Channel<NoopRawMutex, DataPoint, DATA_POINT_COMMAND_CHANNEL_SIZE>,
}

/// The data points that wait in the queue of the `Channel`, oldest first.
pub uninterp spec fn channel_contents(channel: DataPointChannel) -> Seq<DataPoint>;

/// What the channel holds after an attempt to send `point` to a channel
/// that held `contents`: a full channel drops the new data point.
pub open spec fn after_send(contents: Seq<DataPoint>, point: DataPoint) -> Seq<DataPoint> {
    if contents.len() < DATA_POINT_COMMAND_CHANNEL_SIZE {
        contents.push(point)
    } else {
        contents
    }
}

/// What the channel holds after attempts to send `points`, one after the
/// other, to a channel that held `contents`.
pub open spec fn after_sends(contents: Seq<DataPoint>, points: Seq<DataPoint>) -> Seq<DataPoint>
    decreases points.len(),
{
    if points.len() == 0 {
        contents
    } else {
        after_send(after_sends(contents, points.drop_last()), points.last())
    }
}

/// However many data points are sent while none is taken out, the channel
/// keeps the oldest ones in their order and drops what does not fit: it
/// holds the first `DATA_POINT_COMMAND_CHANNEL_SIZE` of what it held and what was
/// sent.
pub proof fn lemma_sends_keep_the_oldest(contents: Seq<DataPoint>, points: Seq<DataPoint>)
    requires
        contents.len() <= DATA_POINT_COMMAND_CHANNEL_SIZE,
    ensures
        after_sends(contents, points) == if contents.len() + points.len()
            <= DATA_POINT_COMMAND_CHANNEL_SIZE {
            contents + points
        } else {
            (contents + points).take(DATA_POINT_COMMAND_CHANNEL_SIZE as int)
        },
    decreases points.len(),
{
    if points.len() > 0 {
        let earlier = points.drop_last();
        lemma_sends_keep_the_oldest(contents, earlier);
        let all = contents + points;
        let before = contents + earlier;
        assert(before =~= all.drop_last());
        if contents.len() + earlier.len() < DATA_POINT_COMMAND_CHANNEL_SIZE {
            assert(before.push(points.last()) =~= all);
        } else if contents.len() + earlier.len() == DATA_POINT_COMMAND_CHANNEL_SIZE {
            assert(before =~= all.take(DATA_POINT_COMMAND_CHANNEL_SIZE as int));
        } else {
            assert(before.take(DATA_POINT_COMMAND_CHANNEL_SIZE as int) =~= all.take(
                DATA_POINT_COMMAND_CHANNEL_SIZE as int,
            ));
        }
    } else {
        assert(contents + points =~= contents);
    }
}

/// `Channel::new` of embassy-sync: the channel starts with an empty queue.
#[verifier::external_body]
fn channel_new() -> (channel: DataPointChannel)
    ensures
        channel_contents(channel) == Seq::<DataPoint>::empty(),
{
    DataPointChannel { queue: Channel::new() }
}

/// `Channel::try_send` of embassy-sync: the message goes to the back of the
/// queue and the call succeeds where fewer messages than the capacity are
/// waiting; otherwise the queue stays as it is and the call fails.
#[verifier::external_body]
fn channel_try_send(channel: &mut DataPointChannel, point: DataPoint) -> (sent: bool)
    ensures
        sent == (channel_contents(*old(channel)).len() < DATA_POINT_COMMAND_CHANNEL_SIZE),
        channel_contents(*final(channel)) == after_send(channel_contents(*old(channel)), point),
{
    channel.queue.try_send(point).is_ok()
}

/// `Channel::try_receive` of embassy-sync: the message at the front of the
/// queue leaves it and is returned; an empty queue gives nothing.
#[verifier::external_body]
fn channel_try_receive(channel: &mut DataPointChannel) -> (point: Option<DataPoint>)
    ensures
        channel_contents(*old(channel)).len() == 0 ==> {
            &&& point is None
            &&& channel_contents(*final(channel)) == channel_contents(*old(channel))
        },
        channel_contents(*old(channel)).len() > 0 ==> {
            &&& point == Some(channel_contents(*old(channel))[0])
            &&& channel_contents(*final(channel)) == channel_contents(*old(channel)).skip(1)
        },
{
    channel.queue.try_receive().ok()
}

impl DataPointChannel {
    /// The data points that wait in the channel, oldest first.
    pub open spec fn contents(&self) -> Seq<DataPoint> {
        channel_contents(*self)
    }

    /// An empty channel.
    pub fn new() -> (channel: DataPointChannel)
        ensures
            channel.contents() == Seq::<DataPoint>::empty(),
    {
        channel_new()
    }

    /// Takes the oldest data point out of the channel, if there is one.
    pub fn try_receive(&mut self) -> (point: Option<DataPoint>)
        ensures
            old(self).contents().len() == 0 ==> {
                &&& point is None
                &&& final(self).contents() == old(self).contents()
            },
            old(self).contents().len() > 0 ==> {
                &&& point == Some(old(self).contents()[0])
                &&& final(self).contents() == old(self).contents().skip(1)
            },
    {
        channel_try_receive(self)
    }
}

/// One notification on the data point characteristic: a response code, the
/// number of payload bytes, and the payload padded with zeros.
#[derive(Clone, Copy, Debug, PartialEq, Eq)]
pub struct DataPoint {
    /// Response code.
    pub response_code: u8,
    /// Number of meaningful bytes in `value`.
    pub length: u8,
    /// Payload, zero beyond `length`.
    pub value: [u8; MAX_PAYLOAD_SIZE],
}

/// The first `len` bytes of `data` followed by zeros, `MAX_PAYLOAD_SIZE` bytes
/// in all; where `data` is shorter than `len`, all of `data`.
pub open spec fn padded_payload(data: Seq<u8>, len: int) -> Seq<u8> {
    Seq::new(
        MAX_PAYLOAD_SIZE as nat,
        |i: int|
            if i < len && i < data.len() {
                data[i]
            } else {
                0u8
            },
    )
}

/// What the bytes of a notification decode to: the response code, the
/// length capped at `MAX_PAYLOAD_SIZE`, and the padded payload. Fewer than two
/// bytes decode to nothing.
pub open spec fn decoded_frame(bytes: Seq<u8>) -> Option<(u8, u8, Seq<u8>)> {
    if bytes.len() < 2 {
        None
    } else {
        let length = if bytes[1] <= MAX_PAYLOAD_SIZE {
            bytes[1]
        } else {
            MAX_PAYLOAD_SIZE as u8
        };
        Some((bytes[0], length, padded_payload(bytes.skip(2), length as int)))
    }
}

impl DataPoint {
    /// Well-formed data points carry at most `MAX_PAYLOAD_SIZE` bytes and
    /// zeros behind them.
    pub open spec fn wf(&self) -> bool {
        &&& self.length <= MAX_PAYLOAD_SIZE
        &&& forall|i: int| self.length <= i < MAX_PAYLOAD_SIZE ==> self.value@[i] == 0
    }

    /// The three fields as plain values.
    pub open spec fn fields(&self) -> (u8, u8, Seq<u8>) {
        (self.response_code, self.length, self.value@)
    }

    /// The bytes sent for this data point: response code, length, and the
    /// first `length` bytes of the payload.
    pub open spec fn frame(&self) -> Seq<u8> {
        seq![self.response_code, self.length] + self.value@.take(
            if self.length <= MAX_PAYLOAD_SIZE {
                self.length as int
            } else {
                MAX_PAYLOAD_SIZE as int
            },
        )
    }

    /// The data point that reports `response`: its code, the number of
    /// payload bytes that are sent, and the payload cut to that number and
    /// padded with zeros.
    pub open spec fn of_response(response: ResponseCode) -> DataPoint {
        let p = padded_payload(response.payload(), MAX_PAYLOAD_SIZE as int);
        DataPoint {
            response_code: response.spec_op_code(),
            length: response.spec_length() as u8,
            value: [p[0], p[1], p[2], p[3], p[4], p[5], p[6], p[7], p[8], p[9]],
        }
    }

    /// Builds a data point from a response code, a payload length and the
    /// payload bytes. The length is capped at `MAX_PAYLOAD_SIZE`; where `data`
    /// is shorter than the length, the missing bytes are zero.
    pub fn new(response_code: u8, length: u8, data: &[u8]) -> (point: DataPoint)
        ensures
            point.wf(),
            point.response_code == response_code,
            point.length == if length <= MAX_PAYLOAD_SIZE {
                length
            } else {
                MAX_PAYLOAD_SIZE as u8
            },
            point.value@ == padded_payload(data@, point.length as int),
    {
        let mut value = [0u8; MAX_PAYLOAD_SIZE];
        let len: usize = if length as usize <= MAX_PAYLOAD_SIZE {
            length as usize
        } else {
            MAX_PAYLOAD_SIZE
        };
        let mut i: usize = 0;
        while i < len && i < data.len()
            invariant
                len <= MAX_PAYLOAD_SIZE,
                i <= len,
                i <= data@.len(),
                forall|j: int| 0 <= j < i ==> value@[j] == data@[j],
                forall|j: int| i <= j < MAX_PAYLOAD_SIZE ==> value@[j] == 0,
            decreases len - i,
        {
            value[i] = data[i];
            i += 1;
        }
        assert(value@ =~= padded_payload(data@, len as int));
        DataPoint { response_code, length: len as u8, value }
    }

    /// Puts this data point at the back of the channel. A full channel stays
    /// as it is and the data point is dropped: the sender never waits.
    pub fn send(&self, channel: &mut DataPointChannel)
        ensures
            final(channel).contents() == after_send(old(channel).contents(), *self),
    {
        let _sent = channel_try_send(channel, *self);
    }

    /// The data point for a weight in kilograms taken `timestamp`
    /// microseconds after the measurement was started.
    pub fn weight_measurement(weight: Binary32, timestamp: u32) -> (point: DataPoint)
        ensures
            point == DataPoint::of_response(ResponseCode::WeightMeasurement(weight, timestamp)),
    {
        DataPoint::from(ResponseCode::WeightMeasurement(weight, timestamp))
    }

    /// Writes the frame of this data point into a buffer and returns the
    /// buffer with the number of bytes to transmit, `2 + length`.
    pub fn as_gatt(&self) -> (out: ([u8; GATT_FRAME_SIZE], usize))
        ensures
            out.1 == self.frame().len(),
            out.1 <= GATT_FRAME_SIZE,
            out.0@.take(out.1 as int) == self.frame(),
            forall|i: int| out.1 <= i < GATT_FRAME_SIZE ==> out.0@[i] == 0,
    {
        let mut buffer = [0u8; GATT_FRAME_SIZE];
        buffer[0] = self.response_code;
        buffer[1] = self.length;
        let len: usize = if self.length as usize <= MAX_PAYLOAD_SIZE {
            self.length as usize
        } else {
            MAX_PAYLOAD_SIZE
        };
        let mut i: usize = 0;
        while i < len
            invariant
                len <= MAX_PAYLOAD_SIZE,
                i <= len,
                buffer@[0] == self.response_code,
                buffer@[1] == self.length,
                forall|j: int| 0 <= j < i ==> buffer@[2 + j] == self.value@[j],
                forall|j: int| 2 + i <= j < GATT_FRAME_SIZE ==> buffer@[j] == 0,
            decreases len - i,
        {
            buffer[2 + i] = self.value[i];
            i += 1;
        }
        assert(buffer@.take(2 + len as int) =~= self.frame());
        (buffer, 2 + len)
    }

    /// Decodes the bytes of a notification: response code, length, payload.
    /// Nothing is decoded from fewer than two bytes.
    pub fn from_gatt(data: &[u8]) -> (point: Option<DataPoint>)
        ensures
            match point {
                Some(p) => p.wf() && decoded_frame(data@) == Some(p.fields()),
                None => decoded_frame(data@) is None,
            },
    {
        if data.len() < 2 {
            return None;
        }
        let mut value = [0u8; MAX_PAYLOAD_SIZE];
        let len: usize = if data[1] as usize <= MAX_PAYLOAD_SIZE {
            data[1] as usize
        } else {
            MAX_PAYLOAD_SIZE
        };
        let mut i: usize = 0;
        while i < len && i + 2 < data.len()
            invariant
                len <= MAX_PAYLOAD_SIZE,
                i <= len,
                i + 2 <= data@.len(),
                forall|j: int| 0 <= j < i ==> value@[j] == data@[2 + j],
                forall|j: int| i <= j < MAX_PAYLOAD_SIZE ==> value@[j] == 0,
            decreases len - i,
        {
            value[i] = data[i + 2];
            i += 1;
        }
        assert(value@ =~= padded_payload(data@.skip(2), len as int));
        Some(DataPoint { response_code: data[0], length: len as u8, value })
    }
}

impl Default for DataPoint {
    /// The empty data point: response code 0 and no payload.
    fn default() -> (point: DataPoint)
        ensures
            point.wf(),
            point.response_code == 0,
            point.length == 0,
            point.value@ == Seq::new(MAX_PAYLOAD_SIZE as nat, |i: int| 0u8),
    {
        let value = [0u8; MAX_PAYLOAD_SIZE];
        assert(value@ =~= Seq::new(MAX_PAYLOAD_SIZE as nat, |i: int| 0u8));
        DataPoint { response_code: 0, length: 0, value }
    }
}

impl From<ResponseCode> for DataPoint {
    /// The data point that reports `response`.
    fn from(response: ResponseCode) -> (point: DataPoint) {
        let point = DataPoint {
            response_code: response.op_code(),
            length: response.length(),
            value: response.value(),
        };
        assert(point.value =~= DataPoint::of_response(response).value);
        point
    }
}

impl vstd::std_specs::convert::FromSpecImpl<ResponseCode> for DataPoint {
    open spec fn obeys_from_spec() -> bool {
        true
    }

    open spec fn from_spec(response: ResponseCode) -> DataPoint {
        DataPoint::of_response(response)
    }
}

/// The data point that reports a response is well-formed.
pub proof fn lemma_of_response_wf(response: ResponseCode)
    ensures
        DataPoint::of_response(response).wf(),
{
}

/// What is known of the device when it is built: the application version
/// and the identity, written as twelve hexadecimal digits.
#[derive(Clone, Copy, Debug)]
pub struct DeviceInfo {
    /// The application version, as it is reported.
    pub version: &'static [u8],
    /// The identity in hexadecimal digits, most significant byte first.
    pub device_id: &'static [u8],
}

/// The value of a hexadecimal digit, in either case.
pub open spec fn hex_digit_value(c: u8) -> Option<u8> {
    if 0x30 <= c <= 0x39 {
        Some((c - 0x30) as u8)
    } else if 0x61 <= c <= 0x66 {
        Some((c - 0x61 + 10) as u8)
    } else if 0x41 <= c <= 0x46 {
        Some((c - 0x41 + 10) as u8)
    } else {
        None
    }
}

/// The byte written by two characters: two hexadecimal digits, or a plus
/// sign and one digit.
pub open spec fn hex_pair_value(first: u8, second: u8) -> Option<u8> {
    let high = if first == 0x2B {
        Some(0u8)
    } else {
        hex_digit_value(first)
    };
    match (high, hex_digit_value(second)) {
        (Some(h), Some(l)) => Some((16 * h + l) as u8),
        _ => None,
    }
}

/// The identity bytes written by `text`: byte `i` is the value of the
/// characters at `2 * i` and `2 * i + 1`, or zero where they are missing or
/// do not write a byte.
pub open spec fn device_id_bytes(text: Seq<u8>) -> Seq<u8> {
    Seq::new(
        DEVICE_ID_SIZE as nat,
        |i: int|
            if 2 * i + 2 <= text.len() {
                match hex_pair_value(text[2 * i], text[2 * i + 1]) {
                    Some(byte) => byte,
                    None => 0u8,
                }
            } else {
                0u8
            },
    )
}

/// The value of a hexadecimal digit, in either case.
pub fn parse_hex_digit(c: u8) -> (value: Option<u8>)
    ensures
        value == hex_digit_value(c),
{
    if 0x30 <= c && c <= 0x39 {
        Some(c - 0x30)
    } else if 0x61 <= c && c <= 0x66 {
        Some(c - 0x61 + 10)
    } else if 0x41 <= c && c <= 0x46 {
        Some(c - 0x41 + 10)
    } else {
        None
    }
}

/// The byte written by two characters: two hexadecimal digits, or a plus
/// sign and one digit.
pub fn parse_hex_pair(first: u8, second: u8) -> (value: Option<u8>)
    ensures
        value == hex_pair_value(first, second),
{
    let high = if first == 0x2B {
        Some(0u8)
    } else {
        parse_hex_digit(first)
    };
    match (high, parse_hex_digit(second)) {
        (Some(h), Some(l)) => Some(16 * h + l),
        _ => None,
    }
}

/// Reads the identity from its hexadecimal digits. Bytes whose digits are
/// missing or malformed are zero.
pub fn parse_device_id(text: &[u8]) -> (id: [u8; DEVICE_ID_SIZE])
    ensures
        id@ == device_id_bytes(text@),
{
    let mut id = [0u8; DEVICE_ID_SIZE];
    let mut i: usize = 0;
    while i < DEVICE_ID_SIZE
        invariant
            i <= DEVICE_ID_SIZE,
            forall|j: int| 0 <= j < i ==> id@[j] == device_id_bytes(text@)[j],
            forall|j: int| i <= j < DEVICE_ID_SIZE ==> id@[j] == 0,
        decreases DEVICE_ID_SIZE - i,
    {
        if 2 * i + 2 <= text.len() {
            if let Some(byte) = parse_hex_pair(text[2 * i], text[2 * i + 1]) {
                id[i] = byte;
            }
        }
        i += 1;
    }
    assert(id@ =~= device_id_bytes(text@));
    id
}

/// Commands accepted on the control point.
#[derive(Clone, Copy, Debug, PartialEq, Eq, Structural)]
pub enum ControlOpCode {
    /// Zero the scale while no load is applied.
    TareScale,
    /// Start streaming weight measurements.
    StartMeasurement,
    /// Stop streaming weight measurements.
    StopMeasurement,
    /// Turn the device off.
    Shutdown,
    /// Report the battery voltage in millivolts.
    SampleBattery,
    /// Report the device identity.
    GetProgressorId,
    /// Report the application version.
    GetAppVersion,
    /// Report the calibration.
    GetCalibration,
    /// Record a calibration point for the reference weight in the payload.
    AddCalibrationPoint,
    /// Restore the built-in calibration.
    DefaultCalibration,
}

impl ControlOpCode {
    /// The command a byte stands for. Bytes that stand for no command are
    /// read as `StopMeasurement`.
    pub open spec fn of_byte(op_code: u8) -> ControlOpCode {
        if op_code == 0x64 {
            ControlOpCode::TareScale
        } else if op_code == 0x65 {
            ControlOpCode::StartMeasurement
        } else if op_code == 0x66 {
            ControlOpCode::StopMeasurement
        } else if op_code == 0x6E {
            ControlOpCode::Shutdown
        } else if op_code == 0x6F {
            ControlOpCode::SampleBattery
        } else if op_code == 0x70 {
            ControlOpCode::GetProgressorId
        } else if op_code == 0x6B {
            ControlOpCode::GetAppVersion
        } else if op_code == 0x72 {
            ControlOpCode::GetCalibration
        } else if op_code == 0x69 || op_code == 0x73 {
            ControlOpCode::AddCalibrationPoint
        } else if op_code == 0x74 {
            ControlOpCode::DefaultCalibration
        } else {
            ControlOpCode::StopMeasurement
        }
    }

    /// The byte that stands for this command.
    pub open spec fn spec_code(self) -> u8 {
        match self {
            ControlOpCode::TareScale => 0x64,
            ControlOpCode::StartMeasurement => 0x65,
            ControlOpCode::StopMeasurement => 0x66,
            ControlOpCode::Shutdown => 0x6E,
            ControlOpCode::SampleBattery => 0x6F,
            ControlOpCode::GetProgressorId => 0x70,
            ControlOpCode::GetAppVersion => 0x6B,
            ControlOpCode::GetCalibration => 0x72,
            ControlOpCode::AddCalibrationPoint => 0x73,
            ControlOpCode::DefaultCalibration => 0x74,
        }
    }

    /// The reference weight in the payload of an `AddCalibrationPoint`
    /// command: bytes 1 to 4, most significant first. A command shorter
    /// than `ADD_CALIBRATION_POINT_SIZE` bytes carries none.
    pub open spec fn calibration_weight(data: Seq<u8>) -> Option<Binary32> {
        if data.len() < ADD_CALIBRATION_POINT_SIZE {
            None
        } else {
            Some(Binary32 { bits: be_value(data.subrange(1, 5)) as u32 })
        }
    }

    /// The state in which this command, received with the bytes `data` at
    /// time `now`, leaves the device.
    pub open spec fn next_state(self, data: Seq<u8>, state: DeviceState, now: u32) -> DeviceState {
        match self {
            ControlOpCode::TareScale => state.with_status(MeasurementTaskStatus::Tare),
            ControlOpCode::StartMeasurement => state.after_start(now),
            ControlOpCode::StopMeasurement => state.with_status(MeasurementTaskStatus::Disabled),
            ControlOpCode::GetCalibration => state.with_status(
                MeasurementTaskStatus::GetCalibration,
            ),
            ControlOpCode::AddCalibrationPoint => match ControlOpCode::calibration_weight(data) {
                Some(weight) => state.with_status(MeasurementTaskStatus::Calibration(weight)),
                None => state,
            },
            ControlOpCode::DefaultCalibration => state.with_status(
                MeasurementTaskStatus::DefaultCalibration,
            ),
            ControlOpCode::GetAppVersion => state,
            ControlOpCode::GetProgressorId => state,
            ControlOpCode::SampleBattery => state,
            ControlOpCode::Shutdown => state,
        }
    }

    /// The response this command is answered with at once, if any.
    pub open spec fn response(self, info: DeviceInfo) -> Option<ResponseCode> {
        match self {
            ControlOpCode::GetAppVersion => Some(ResponseCode::AppVersion(info.version)),
            ControlOpCode::GetProgressorId => {
                let id = device_id_bytes(info.device_id@);
                Some(ResponseCode::ProgressorId([id[0], id[1], id[2], id[3], id[4], id[5]]))
            },
            ControlOpCode::SampleBattery => Some(
                ResponseCode::SampleBatteryVoltage(BATTERY_VOLTAGE_MV),
            ),
            _ => None,
        }
    }

    /// What the channel holds after this command was processed while it
    /// held `contents`.
    pub open spec fn next_contents(self, info: DeviceInfo, contents: Seq<DataPoint>) -> Seq<
        DataPoint,
    > {
        match self.response(info) {
            Some(response) => after_send(contents, DataPoint::of_response(response)),
            None => contents,
        }
    }

    /// The byte that stands for this command.
    pub fn code(self) -> (byte: u8)
        ensures
            byte == self.spec_code(),
            ControlOpCode::of_byte(byte) == self,
    {
        match self {
            ControlOpCode::TareScale => 0x64,
            ControlOpCode::StartMeasurement => 0x65,
            ControlOpCode::StopMeasurement => 0x66,
            ControlOpCode::Shutdown => 0x6E,
            ControlOpCode::SampleBattery => 0x6F,
            ControlOpCode::GetProgressorId => 0x70,
            ControlOpCode::GetAppVersion => 0x6B,
            ControlOpCode::GetCalibration => 0x72,
            ControlOpCode::AddCalibrationPoint => 0x73,
            ControlOpCode::DefaultCalibration => 0x74,
        }
    }

    /// Carries out this command, received with the bytes `data` (opcode
    /// first) at time `now` in microseconds.
    ///
    /// Commands that change the mode write it to `device_state`; commands
    /// that ask for a value put the answer into `channel`. An
    /// `AddCalibrationPoint` command that is too short is ignored, and so
    /// is `Shutdown`.
    pub fn process(
        self,
        data: &[u8],
        channel: &mut DataPointChannel,
        device_state: &mut DeviceState,
        now: u32,
        info: &DeviceInfo,
    )
        ensures
            *final(device_state) == self.next_state(data@, *old(device_state), now),
            final(channel).contents() == self.next_contents(*info, old(channel).contents()),
    {
        match self {
            ControlOpCode::TareScale => {
                device_state.tare();
            },
            ControlOpCode::StartMeasurement => {
                device_state.start_measurement(now);
            },
            ControlOpCode::StopMeasurement => {
                device_state.stop_measurement();
            },
            ControlOpCode::GetAppVersion => {
                let response = ResponseCode::AppVersion(info.version);
                DataPoint::from(response).send(channel);
            },
            ControlOpCode::GetProgressorId => {
                let bytes = parse_device_id(info.device_id);
                let response = ResponseCode::ProgressorId(bytes);
                proof {
                    let id = device_id_bytes(info.device_id@);
                    assert(bytes =~= [id[0], id[1], id[2], id[3], id[4], id[5]]);
                }
                DataPoint::from(response).send(channel);
            },
            ControlOpCode::GetCalibration => {
                device_state.get_calibration();
            },
            ControlOpCode::AddCalibrationPoint => {
                if data.len() < ADD_CALIBRATION_POINT_SIZE {
                    return ;
                }
                let bytes = [data[1], data[2], data[3], data[4]];
                assert(bytes@ =~= data@.subrange(1, 5));
                let weight = Binary32::from_be_bytes(bytes);
                device_state.calibrate(weight);
            },
            ControlOpCode::DefaultCalibration => {
                device_state.reset_calibration();
            },
            ControlOpCode::SampleBattery => {
                let response = ResponseCode::SampleBatteryVoltage(BATTERY_VOLTAGE_MV);
                DataPoint::from(response).send(channel);
            },
            ControlOpCode::Shutdown => {},
        }
    }
}

impl From<u8> for ControlOpCode {
    /// The command a byte stands for. Bytes that stand for no command are
    /// read as `StopMeasurement`.
    fn from(op_code: u8) -> (op: ControlOpCode) {
        match op_code {
            0x64 => ControlOpCode::TareScale,
            0x65 => ControlOpCode::StartMeasurement,
            0x66 => ControlOpCode::StopMeasurement,
            0x6E => ControlOpCode::Shutdown,
            0x6F => ControlOpCode::SampleBattery,
            0x70 => ControlOpCode::GetProgressorId,
            0x6B => ControlOpCode::GetAppVersion,
            0x72 => ControlOpCode::GetCalibration,
            0x69 | 0x73 => ControlOpCode::AddCalibrationPoint,
            0x74 => ControlOpCode::DefaultCalibration,
            _ => ControlOpCode::StopMeasurement,
        }
    }
}

impl vstd::std_specs::convert::FromSpecImpl<u8> for ControlOpCode {
    open spec fn obeys_from_spec() -> bool {
        true
    }

    open spec fn from_spec(op_code: u8) -> ControlOpCode {
        ControlOpCode::of_byte(op_code)
    }
}

/// A command only requests a mode: it leaves the tare flag and the
/// calibration points alone, and it sets the start time only where it
/// enables streaming.
pub proof fn lemma_commands_only_request(
    op: ControlOpCode,
    data: Seq<u8>,
    state: DeviceState,
    now: u32,
)
    ensures
        op.next_state(data, state, now).tared == state.tared,
        op.next_state(data, state, now).calibration_points == state.calibration_points,
        op.next_state(data, state, now).start_time != state.start_time ==> op.next_state(
            data,
            state,
            now,
        ).measurement_status == MeasurementTaskStatus::Enabled,
{
}

/// Decoding the frame of a well-formed data point gives its fields back.
pub proof fn lemma_frame_round_trip(point: DataPoint)
    requires
        point.wf(),
    ensures
        decoded_frame(point.frame()) == Some(point.fields()),
{
    let frame = point.frame();
    assert(frame.skip(2) =~= point.value@.take(point.length as int));
    assert(padded_payload(frame.skip(2), point.length as int) =~= point.value@);
}

} // verus!
