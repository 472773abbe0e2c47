//! The per-IMU publisher: the idle/running state machine behind `start` and
//! `stop`, the frame assembly of each sampling tick, and the device's info
//! and schema endpoints. The socket sends, the timer and the task joins are
//! the holder's part; each call here tells it what to do next.

use vstd::prelude::*;
use crate::imu::{Imu, ImuData};
use crate::json::json_clean;
use crate::proto::{spec_encode_frame, ImuFrame};
use crate::strutil::{dec_chars, parse_endpoint_port, u64_to_string};

verus! {

/// What a `start` call asks the holder to do.
#[derive(Clone, Copy, Debug, PartialEq, Eq, Structural)]
pub enum StartAction {
    /// The publisher was already running: nothing to do.
    AlreadyRunning,
    /// Freshly started: spawn the sampling task.
    SpawnSampler,
}

/// What a `stop` call asks the holder to do.
#[derive(Clone, Copy, Debug, PartialEq, Eq, Structural)]
pub enum StopAction {
    /// The publisher was already idle: nothing to do.
    AlreadyIdle,
    /// Freshly stopped: fire the shutdown latch, join the sampling task,
    /// release the device.
    JoinAndDeinit,
}

/// The publisher state `start` drives to: running, from anywhere.
pub open spec fn spec_start_state(running: bool) -> bool {
    true
}

/// The publisher state `stop` drives to: idle, from anywhere.
pub open spec fn spec_stop_state(running: bool) -> bool {
    false
}

/// Starting twice is starting once: `start` is idempotent on the state.
pub proof fn lemma_start_idempotent(running: bool)
    ensures
        spec_start_state(spec_start_state(running)) == spec_start_state(running),
{
}

/// Stopping twice is stopping once: the second `stop` is a no-op.
pub proof fn lemma_stop_idempotent(running: bool)
    ensures
        spec_stop_state(spec_stop_state(running)) == spec_stop_state(running),
{
}

/// Start, stop, start leaves a running publisher again, whatever the
/// starting state.
pub proof fn lemma_restart(running: bool)
    ensures
        spec_start_state(spec_stop_state(spec_start_state(running))) == true,
{
}

/// The data-plane side of one IMU: the driver, the PUB socket's port, and
/// the running flag of the sampler.
pub struct ImuSocket<I: Imu> {
    /// The device id, such as `imu0`.
    pub id: String,
    /// The driver.
    pub imu: I,
    /// The PUB socket's OS-assigned port.
    pub imu_data_port: u16,
    /// Whether the sampling task is running.
    pub running: bool,
}

impl<I: Imu> ImuSocket<I> {
    /// The socket is usable: its texts fit the JSON listings.
    pub open spec fn wf(&self) -> bool {
        json_clean(self.id@) && json_clean(self.imu.spec_name())
    }

    /// Wraps a driver, reading the data-plane port from the endpoint string
    /// the PUB socket bind returned; an unreadable endpoint yields port 0.
    /// The publisher is born idle.
    pub fn new(imu: I, id: String, endpoint: &str) -> (r: Self)
        requires
            json_clean(id@),
            json_clean(imu.spec_name()),
        ensures
            r.wf(),
            r.imu == imu,
            r.id@ == id@,
            !r.running,
            match crate::strutil::parsed_endpoint_port(endpoint@) {
                Some(p) => r.imu_data_port == p,
                None => r.imu_data_port == 0,
            },
    {
        let imu_data_port = match parse_endpoint_port(endpoint) {
            Some(p) => p,
            None => 0,
        };
        ImuSocket { id, imu, imu_data_port, running: false }
    }

    /// Starts publishing: from idle, the device is initialized, the flag
    /// set, and the holder told to spawn the sampler; a second start is a
    /// warned no-op.
    pub fn start(&mut self) -> (r: Result<StartAction, String>)
        ensures
            old(self).running ==> *final(self) == *old(self) && r == Ok::<StartAction, String>(
                StartAction::AlreadyRunning,
            ),
            !old(self).running ==> final(self).running == spec_start_state(old(self).running) && r
                == Ok::<StartAction, String>(StartAction::SpawnSampler) && final(self).id == old(
                self,
            ).id && final(self).imu == old(self).imu && final(self).imu_data_port == old(
                self,
            ).imu_data_port,
    {
        if self.running {
            return Ok(StartAction::AlreadyRunning);
        }
        match self.imu.init() {
            Ok(()) => {},
            Err(e) => {
                return Err(e);
            },
        }
        self.running = true;
        Ok(StartAction::SpawnSampler)
    }

    /// Stops publishing: from running, the flag is cleared and the holder
    /// told to join the sampler and release the device; a second stop is a
    /// warned no-op.
    pub fn stop(&mut self) -> (r: Result<StopAction, String>)
        ensures
            !old(self).running ==> *final(self) == *old(self) && r == Ok::<StopAction, String>(
                StopAction::AlreadyIdle,
            ),
            old(self).running ==> final(self).running == spec_stop_state(old(self).running) && r
                == Ok::<StopAction, String>(StopAction::JoinAndDeinit) && final(self).id == old(
                self,
            ).id && final(self).imu == old(self).imu && final(self).imu_data_port == old(
                self,
            ).imu_data_port,
    {
        if !self.running {
            return Ok(StopAction::AlreadyIdle);
        }
        self.running = false;
        match self.imu.deinit() {
            Ok(()) => {},
            Err(e) => {
                return Err(e);
            },
        }
        Ok(StopAction::JoinAndDeinit)
    }

    /// Whether the sampler is running.
    pub fn is_running(&self) -> (r: bool)
        ensures
            r == self.running,
    {
        self.running
    }

    /// One sampling tick: while running, the sample becomes a frame stamped
    /// with the clock reading, encoded for the PUB socket; once stopped,
    /// nothing is published.
    pub fn on_tick(&self, data: &ImuData, now_us: u64) -> (r: Option<Vec<u8>>)
        ensures
            self.running ==> r is Some && r->0@ == spec_encode_frame(
                spec_frame_of(*data, now_us),
            ),
            !self.running ==> r is None,
    {
        if !self.running {
            return None;
        }
        let frame = sample_frame(data, now_us);
        Some(crate::proto::encode_imu_frame(&frame))
    }

    /// The device info JSON served under `/<id>/info`.
    pub fn get_device_info(&self) -> (r: String)
        requires
            self.wf(),
        ensures
            r@ == spec_imu_info_json(
                self.imu.spec_name(),
                self.running,
                self.imu.spec_sample_rate(),
                self.imu_data_port,
                self.id@,
            ),
    {
        let mut r = String::new();
        r.append("{\"device_type\":\"");
        let name = self.imu.name();
        r.append(name.as_str());
        r.append("\",\"status\":\"");
        if self.running {
            r.append("running");
        } else {
            r.append("idle");
        }
        r.append("\",\"sample_rate\":");
        let rate = u64_to_string(self.imu.sample_rate() as u64);
        r.append(rate.as_str());
        r.append(",\"imu_data_port\":");
        let port = u64_to_string(self.imu_data_port as u64);
        r.append(port.as_str());
        r.append(",\"description\":\"");
        r.append("Subscribe to IMU data from <imu_data_port> using a ZMQ SUB socket. ");
        r.append("The data is published in Protobuf format, and its schema is available at /");
        r.append(self.id.as_str());
        r.append("/schema.");
        r.append("\"}");
        proof {
            assert(r@ =~= spec_imu_info_json(
                self.imu.spec_name(),
                self.running,
                self.imu.spec_sample_rate(),
                self.imu_data_port,
                self.id@,
            ));
        }
        r
    }

    /// The protobuf IDL served under `/<id>/schema`, so clients can
    /// regenerate stubs.
    pub fn get_schema(&self) -> (r: String)
        ensures
            r@ == spec_imu_schema(),
    {
        let mut r = String::new();
        r.append("syntax = \"proto3\";\n\nmessage ImuDataProto {\n");
        r.append("  uint64        timestamp = 1; // microseconds since UNIX_EPOCH\n");
        r.append("  repeated float accel = 2;   // ax, ay, az\n");
        r.append("  repeated float gyro  = 3;   // gx, gy, gz\n");
        r.append("  repeated float mag   = 4;   // mx, my, mz\n");
        r.append("  float         temp   = 5;   // milli-degree Celsius\n");
        r.append("  repeated float quaternion = 6; // quaternion (4 floats)\n");
        r.append("  repeated float euler_angles = 7; // yaw, pitch, roll (radians)\n}\n");
        proof {
            assert(r@ =~= spec_imu_schema());
        }
        r
    }
}

/// The published protobuf schema text.
pub open spec fn spec_imu_schema() -> Seq<char> {
    "syntax = \"proto3\";\n\nmessage ImuDataProto {\n"@
        + "  uint64        timestamp = 1; // microseconds since UNIX_EPOCH\n"@
        + "  repeated float accel = 2;   // ax, ay, az\n"@
        + "  repeated float gyro  = 3;   // gx, gy, gz\n"@
        + "  repeated float mag   = 4;   // mx, my, mz\n"@
        + "  float         temp   = 5;   // milli-degree Celsius\n"@
        + "  repeated float quaternion = 6; // quaternion (4 floats)\n"@
        + "  repeated float euler_angles = 7; // yaw, pitch, roll (radians)\n}\n"@
}

/// The IMU info JSON text, field by field.
pub open spec fn spec_imu_info_json(
    name: Seq<char>,
    running: bool,
    rate: u32,
    port: u16,
    id: Seq<char>,
) -> Seq<char> {
    "{\"device_type\":\""@ + name + "\",\"status\":\""@ + (if running {
        "running"@
    } else {
        "idle"@
    }) + "\",\"sample_rate\":"@ + dec_chars(rate as nat) + ",\"imu_data_port\":"@ + dec_chars(
        port as nat,
    ) + ",\"description\":\""@
        + "Subscribe to IMU data from <imu_data_port> using a ZMQ SUB socket. "@
        + "The data is published in Protobuf format, and its schema is available at /"@ + id
        + "/schema."@ + "\"}"@
}

/// The frame a sample and a clock reading yield: the sample's channels with
/// the timestamp.
pub open spec fn spec_frame_of(data: ImuData, now_us: u64) -> ImuFrame {
    ImuFrame {
        timestamp: now_us,
        accel: data.accel,
        gyro: data.gyro,
        mag: data.mag,
        temp: data.temp,
        quaternion: data.quaternion,
        euler_angles: data.euler_angles,
    }
}

/// Stamps one sample with the wall-clock microseconds it was taken at.
pub fn sample_frame(data: &ImuData, now_us: u64) -> (r: ImuFrame)
    ensures
        r == spec_frame_of(*data, now_us),
{
    ImuFrame {
        timestamp: now_us,
        accel: data.accel,
        gyro: data.gyro,
        mag: data.mag,
        temp: data.temp,
        quaternion: data.quaternion,
        euler_angles: data.euler_angles,
    }
}

/// Each frame carries exactly the clock reading it was stamped with, so
/// frames stamped from strictly increasing clock readings carry strictly
/// increasing timestamps.
pub proof fn lemma_timestamps_strictly_increase(d1: ImuData, d2: ImuData, t1: u64, t2: u64)
    requires
        t1 < t2,
    ensures
        spec_frame_of(d1, t1).timestamp < spec_frame_of(d2, t2).timestamp,
{
}

/// The filter inputs of one sample: the gyro and accel axes handed over
/// reversed, `(z, y, x)`, the body-frame convention the orientation filter
/// expects. A load-bearing quirk: straightening it would turn the
/// downstream orientation wrong.
pub fn filter_input(data: &ImuData) -> (r: ([u32; 3], [u32; 3]))
    ensures
        r.0@ =~= seq![data.gyro@[2], data.gyro@[1], data.gyro@[0]],
        r.1@ =~= seq![data.accel@[2], data.accel@[1], data.accel@[0]],
{
    (
        [data.gyro[2], data.gyro[1], data.gyro[0]],
        [data.accel[2], data.accel[1], data.accel[0]],
    )
}

/// The sampling period in milliseconds: `1000 / rate`, as the ticker is
/// armed.
pub fn sample_period_ms(rate: u32) -> (r: u64)
    requires
        rate >= 1,
    ensures
        r == 1000 as int / rate as int,
{
    1000 / (rate as u64)
}

} // verus!
