//! IMU devices: the sample model, the capability trait, the mock device and
//! the IIO-backed driver's channel discovery. Sensor values carry their
//! IEEE-754 bit patterns; the scale arithmetic on them is the reading side's
//! part.

use vstd::prelude::*;
use crate::strutil::{parsed_dec, str_eq};

verus! {

/// One sample, every float as its bit pattern: acceleration in g, angular
/// velocity in rad/s, magnetic field in gauss, temperature in milli-degree
/// Celsius, and the derived orientation.
pub struct ImuData {
    /// Acceleration, x y z.
    pub accel: [u32; 3],
    /// Angular velocity, x y z.
    pub gyro: [u32; 3],
    /// Magnetic field, x y z.
    pub mag: [u32; 3],
    /// Temperature.
    pub temp: u32,
    /// Orientation quaternion, x y z w; derived, never read from hardware.
    pub quaternion: [u32; 4],
    /// Yaw, pitch, roll; derived from the quaternion.
    pub euler_angles: [u32; 3],
}

/// An IMU device the publisher can drive.
pub trait Imu: Sized {
    /// The device name.
    spec fn spec_name(&self) -> Seq<char>;

    /// Samples per second.
    spec fn spec_sample_rate(&self) -> u32;

    fn name(&self) -> (r: String)
        ensures
            r@ == self.spec_name(),
    ;

    fn sample_rate(&self) -> (r: u32)
        ensures
            r == self.spec_sample_rate(),
    ;

    /// Prepares the device; nothing to do for the drivers here.
    fn init(&self) -> (r: Result<(), String>)
        ensures
            r is Ok,
    ;

    /// Releases the device; nothing to do for the drivers here.
    fn deinit(&self) -> (r: Result<(), String>)
        ensures
            r is Ok,
    ;
}

/// An IMU without hardware: fifty samples per second of rest.
pub struct MockImu {
    /// The device name, `mock`.
    pub name: String,
    /// Samples per second.
    pub sample_rate: u32,
}

impl MockImu {
    /// A mock IMU named `mock` at 50 Hz.
    pub fn new() -> (r: Self)
        ensures
            r.spec_name() == "mock"@,
            r.spec_sample_rate() == 50,
    {
        proof {
            reveal_strlit("mock");
        }
        MockImu { name: String::from_str("mock"), sample_rate: 50 }
    }

    /// A sample at rest: every channel zero.
    pub fn imu_data(&self) -> (r: ImuData)
        ensures
            r.accel@ =~= seq![0u32, 0u32, 0u32],
            r.gyro@ =~= seq![0u32, 0u32, 0u32],
            r.mag@ =~= seq![0u32, 0u32, 0u32],
            r.temp == 0,
            r.quaternion@ =~= seq![0u32, 0u32, 0u32, 0u32],
            r.euler_angles@ =~= seq![0u32, 0u32, 0u32],
    {
        ImuData {
            accel: [0, 0, 0],
            gyro: [0, 0, 0],
            mag: [0, 0, 0],
            temp: 0,
            quaternion: [0, 0, 0, 0],
            euler_angles: [0, 0, 0],
        }
    }
}

impl Imu for MockImu {
    open spec fn spec_name(&self) -> Seq<char> {
        self.name@
    }

    open spec fn spec_sample_rate(&self) -> u32 {
        self.sample_rate
    }

    fn name(&self) -> (r: String)
        ensures
            r@ == self.spec_name(),
    {
        self.name.clone()
    }

    fn sample_rate(&self) -> u32 {
        self.sample_rate
    }

    fn init(&self) -> Result<(), String> {
        Ok(())
    }

    fn deinit(&self) -> Result<(), String> {
        Ok(())
    }
}

/// The IIO-backed IMU: the channel file of each axis that the device
/// exposes, the temperature channel's flavor, and the sample rate. The scale
/// and offset files, being float-valued, are read and applied by the reading
/// side for the channel groups found here.
pub struct IioImu {
    /// The matched device name.
    pub name: String,
    /// The `/sys/bus/iio/devices/iio:deviceN` directory.
    pub device_path: String,
    /// `in_accel_{x,y,z}_raw`, when present.
    pub accel_x_path: Option<String>,
    pub accel_y_path: Option<String>,
    pub accel_z_path: Option<String>,
    /// `in_anglvel_{x,y,z}_raw`, when present.
    pub gyro_x_path: Option<String>,
    pub gyro_y_path: Option<String>,
    pub gyro_z_path: Option<String>,
    /// `in_magn_{x,y,z}_raw`, when present.
    pub mag_x_path: Option<String>,
    pub mag_y_path: Option<String>,
    pub mag_z_path: Option<String>,
    /// The temperature channel, raw or processed.
    pub temp_path: Option<String>,
    /// Whether the temperature channel is already processed
    /// (`in_temp_input`) rather than raw with offset (`in_temp_raw`).
    pub temp_is_input: bool,
    /// Samples per second; 30 when no readable frequency file exists.
    pub sample_rate: u32,
}

/// The ghost image of the driver configuration.
pub struct IioImuV {
    pub name: Seq<char>,
    pub device_path: Seq<char>,
    pub accel_x_path: Option<Seq<char>>,
    pub accel_y_path: Option<Seq<char>>,
    pub accel_z_path: Option<Seq<char>>,
    pub gyro_x_path: Option<Seq<char>>,
    pub gyro_y_path: Option<Seq<char>>,
    pub gyro_z_path: Option<Seq<char>>,
    pub mag_x_path: Option<Seq<char>>,
    pub mag_y_path: Option<Seq<char>>,
    pub mag_z_path: Option<Seq<char>>,
    pub temp_path: Option<Seq<char>>,
    pub temp_is_input: bool,
    pub sample_rate: u32,
}

impl View for IioImu {
    type V = IioImuV;

    open spec fn view(&self) -> IioImuV {
        IioImuV {
            name: self.name@,
            device_path: self.device_path@,
            accel_x_path: view_opt(&self.accel_x_path),
            accel_y_path: view_opt(&self.accel_y_path),
            accel_z_path: view_opt(&self.accel_z_path),
            gyro_x_path: view_opt(&self.gyro_x_path),
            gyro_y_path: view_opt(&self.gyro_y_path),
            gyro_z_path: view_opt(&self.gyro_z_path),
            mag_x_path: view_opt(&self.mag_x_path),
            mag_y_path: view_opt(&self.mag_y_path),
            mag_z_path: view_opt(&self.mag_z_path),
            temp_path: view_opt(&self.temp_path),
            temp_is_input: self.temp_is_input,
            sample_rate: self.sample_rate,
        }
    }
}

/// The character view of an optional string.
pub open spec fn view_opt(s: &Option<String>) -> Option<Seq<char>> {
    match s {
        Some(t) => Some(t@),
        None => None,
    }
}

/// The rate a frequency file's content parses to, if it fits.
pub open spec fn rate_of(content: Option<Seq<char>>) -> Option<u32> {
    match content {
        Some(t) => {
            if parsed_dec(t) is Some && parsed_dec(t)->Some_0 <= u32::MAX {
                Some(parsed_dec(t)->Some_0 as u32)
            } else {
                None
            }
        },
        None => None,
    }
}

/// What one directory entry does to the configuration: a known channel file
/// records its path, the temperature files pick the channel flavor, and a
/// readable frequency file sets the rate. Anything else changes nothing.
pub open spec fn scan_step(
    c: IioImuV,
    file_name: Seq<char>,
    sampling_frequency: Option<Seq<char>>,
    accel_sampling_frequency: Option<Seq<char>>,
) -> IioImuV {
    let p = c.device_path + "/"@ + file_name;
    if file_name == "in_accel_x_raw"@ {
        IioImuV { accel_x_path: Some(p), ..c }
    } else if file_name == "in_accel_y_raw"@ {
        IioImuV { accel_y_path: Some(p), ..c }
    } else if file_name == "in_accel_z_raw"@ {
        IioImuV { accel_z_path: Some(p), ..c }
    } else if file_name == "in_anglvel_x_raw"@ {
        IioImuV { gyro_x_path: Some(p), ..c }
    } else if file_name == "in_anglvel_y_raw"@ {
        IioImuV { gyro_y_path: Some(p), ..c }
    } else if file_name == "in_anglvel_z_raw"@ {
        IioImuV { gyro_z_path: Some(p), ..c }
    } else if file_name == "in_magn_x_raw"@ {
        IioImuV { mag_x_path: Some(p), ..c }
    } else if file_name == "in_magn_y_raw"@ {
        IioImuV { mag_y_path: Some(p), ..c }
    } else if file_name == "in_magn_z_raw"@ {
        IioImuV { mag_z_path: Some(p), ..c }
    } else if file_name == "in_temp_raw"@ {
        IioImuV { temp_path: Some(p), temp_is_input: false, ..c }
    } else if file_name == "in_temp_input"@ {
        IioImuV { temp_path: Some(p), temp_is_input: true, ..c }
    } else if file_name == "sampling_frequency"@ {
        match rate_of(sampling_frequency) {
            Some(rate) => IioImuV { sample_rate: rate, ..c },
            None => c,
        }
    } else if file_name == "in_accel_sampling_frequency"@ {
        match rate_of(accel_sampling_frequency) {
            Some(rate) => IioImuV { sample_rate: rate, ..c },
            None => c,
        }
    } else {
        c
    }
}

/// The configuration after scanning the entries in order; a later entry
/// wins where two touch the same field.
pub open spec fn scan_fold(
    c: IioImuV,
    names: Seq<Seq<char>>,
    sampling_frequency: Option<Seq<char>>,
    accel_sampling_frequency: Option<Seq<char>>,
) -> IioImuV
    decreases names.len(),
{
    if names.len() == 0 {
        c
    } else {
        scan_step(
            scan_fold(c, names.drop_last(), sampling_frequency, accel_sampling_frequency),
            names.last(),
            sampling_frequency,
            accel_sampling_frequency,
        )
    }
}

/// The configuration before any entry is seen: no channels, a raw
/// temperature flavor, 30 Hz.
pub open spec fn spec_initial_config(name: Seq<char>, device_path: Seq<char>) -> IioImuV {
    IioImuV {
        name: name,
        device_path: device_path,
        accel_x_path: None,
        accel_y_path: None,
        accel_z_path: None,
        gyro_x_path: None,
        gyro_y_path: None,
        gyro_z_path: None,
        mag_x_path: None,
        mag_y_path: None,
        mag_z_path: None,
        temp_path: None,
        temp_is_input: false,
        sample_rate: 30,
    }
}

impl IioImu {
    /// Builds the driver for a matched device from its directory listing:
    /// the defaults above, folded over the entries in order. The two
    /// frequency arguments carry the contents of `sampling_frequency` and
    /// `in_accel_sampling_frequency` when those files could be read.
    pub fn new(
        name: String,
        device_path: String,
        file_names: &Vec<String>,
        sampling_frequency: &Option<String>,
        accel_sampling_frequency: &Option<String>,
    ) -> (r: IioImu)
        ensures
            r@ == scan_fold(
                spec_initial_config(name@, device_path@),
                file_names@.map_values(|s: String| s@),
                view_opt(sampling_frequency),
                view_opt(accel_sampling_frequency),
            ),
    {
        let mut imu = IioImu {
            name,
            device_path,
            accel_x_path: None,
            accel_y_path: None,
            accel_z_path: None,
            gyro_x_path: None,
            gyro_y_path: None,
            gyro_z_path: None,
            mag_x_path: None,
            mag_y_path: None,
            mag_z_path: None,
            temp_path: None,
            temp_is_input: false,
            sample_rate: 30,
        };
        imu.scan_channels(file_names, sampling_frequency, accel_sampling_frequency);
        imu
    }

    /// Probes the well-known channel files in the directory listing and
    /// records what the device exposes.
    pub fn scan_channels(
        &mut self,
        file_names: &Vec<String>,
        sampling_frequency: &Option<String>,
        accel_sampling_frequency: &Option<String>,
    )
        ensures
            final(self)@ == scan_fold(
                old(self)@,
                file_names@.map_values(|s: String| s@),
                view_opt(sampling_frequency),
                view_opt(accel_sampling_frequency),
            ),
    {
        let ghost names = file_names@.map_values(|s: String| s@);
        let ghost sf = view_opt(sampling_frequency);
        let ghost iasf = view_opt(accel_sampling_frequency);
        let rate_from_sf: Option<u32> = match sampling_frequency {
            Some(t) => crate::strutil::parse_u32(t.as_str()),
            None => None,
        };
        let rate_from_iasf: Option<u32> = match accel_sampling_frequency {
            Some(t) => crate::strutil::parse_u32(t.as_str()),
            None => None,
        };
        proof {
            assert(rate_from_sf == rate_of(sf));
            assert(rate_from_iasf == rate_of(iasf));
        }
        let mut i: usize = 0;
        while i < file_names.len()
            invariant
                0 <= i <= file_names@.len(),
                names == file_names@.map_values(|s: String| s@),
                sf == view_opt(sampling_frequency),
                iasf == view_opt(accel_sampling_frequency),
                rate_from_sf == rate_of(sf),
                rate_from_iasf == rate_of(iasf),
                self@ == scan_fold(old(self)@, names.take(i as int), sf, iasf),
            decreases file_names@.len() - i,
        {
            let entry = &file_names[i];
            proof {
                assert(names.take(i + 1).drop_last() =~= names.take(i as int));
                assert(names.take(i + 1).last() == names[i as int]);
            }
            let n = entry.as_str();
            if str_eq(n, "in_accel_x_raw") {
                self.accel_x_path = Some(self.channel_path(n));
            } else if str_eq(n, "in_accel_y_raw") {
                self.accel_y_path = Some(self.channel_path(n));
            } else if str_eq(n, "in_accel_z_raw") {
                self.accel_z_path = Some(self.channel_path(n));
            } else if str_eq(n, "in_anglvel_x_raw") {
                self.gyro_x_path = Some(self.channel_path(n));
            } else if str_eq(n, "in_anglvel_y_raw") {
                self.gyro_y_path = Some(self.channel_path(n));
            } else if str_eq(n, "in_anglvel_z_raw") {
                self.gyro_z_path = Some(self.channel_path(n));
            } else if str_eq(n, "in_magn_x_raw") {
                self.mag_x_path = Some(self.channel_path(n));
            } else if str_eq(n, "in_magn_y_raw") {
                self.mag_y_path = Some(self.channel_path(n));
            } else if str_eq(n, "in_magn_z_raw") {
                self.mag_z_path = Some(self.channel_path(n));
            } else if str_eq(n, "in_temp_raw") {
                self.temp_path = Some(self.channel_path(n));
                self.temp_is_input = false;
            } else if str_eq(n, "in_temp_input") {
                self.temp_path = Some(self.channel_path(n));
                self.temp_is_input = true;
            } else if str_eq(n, "sampling_frequency") {
                if let Some(rate) = rate_from_sf {
                    self.sample_rate = rate;
                }
            } else if str_eq(n, "in_accel_sampling_frequency") {
                if let Some(rate) = rate_from_iasf {
                    self.sample_rate = rate;
                }
            }
            proof {
                assert(self@ == scan_fold(old(self)@, names.take(i + 1), sf, iasf));
            }
            i = i + 1;
        }
        proof {
            assert(names.take(names.len() as int) =~= names);
        }
    }

    /// The full path of one channel file under the device directory.
    fn channel_path(&self, file_name: &str) -> (r: String)
        ensures
            r@ == self.device_path@ + "/"@ + file_name@,
    {
        let mut r = self.device_path.clone();
        r.append("/");
        r.append(file_name);
        proof {
            assert(r@ =~= self.device_path@ + "/"@ + file_name@);
        }
        r
    }
}

impl Imu for IioImu {
    open spec fn spec_name(&self) -> Seq<char> {
        self.name@
    }

    open spec fn spec_sample_rate(&self) -> u32 {
        self.sample_rate
    }

    fn name(&self) -> (r: String)
        ensures
            r@ == self.spec_name(),
    {
        self.name.clone()
    }

    fn sample_rate(&self) -> u32 {
        self.sample_rate
    }

    fn init(&self) -> Result<(), String> {
        Ok(())
    }

    fn deinit(&self) -> Result<(), String> {
        Ok(())
    }
}

/// One `/sys/bus/iio/devices` directory entry: its name and the content of
/// its `name` attribute, when readable.
pub struct IioDeviceRecord {
    /// The directory name, such as `iio:device0`.
    pub dir_name: String,
    /// The directory path.
    pub device_path: String,
    /// The device's `name` attribute, trimmed.
    pub name: Option<String>,
}

/// Whether a directory entry is an IIO device directory whose name matches.
pub open spec fn iio_matches(dir_name: Seq<char>, name: Option<Seq<char>>, target: Seq<char>) -> bool {
    &&& dir_name.len() >= 10
    &&& dir_name.take(10) == "iio:device"@
    &&& name == Some(target)
}

/// Finds the first device directory named `iio:device*` whose `name`
/// attribute equals the target, as the driver search does.
pub fn find_iio_device(devices: &Vec<IioDeviceRecord>, target: &str) -> (r: Option<usize>)
    ensures
        match r {
            Some(i) => i < devices@.len() && iio_matches(
                devices@[i as int].dir_name@,
                view_opt(&devices@[i as int].name),
                target@,
            ) && forall|m: int|
                0 <= m < i ==> !iio_matches(
                    #[trigger] devices@[m].dir_name@,
                    view_opt(&devices@[m].name),
                    target@,
                ),
            None => forall|m: int|
                0 <= m < devices@.len() ==> !iio_matches(
                    #[trigger] devices@[m].dir_name@,
                    view_opt(&devices@[m].name),
                    target@,
                ),
        },
{
    let mut i: usize = 0;
    while i < devices.len()
        invariant
            0 <= i <= devices@.len(),
            forall|m: int|
                0 <= m < i ==> !iio_matches(
                    #[trigger] devices@[m].dir_name@,
                    view_opt(&devices@[m].name),
                    target@,
                ),
        decreases devices@.len() - i,
    {
        let d = &devices[i];
        let prefix_ok = str_starts_with(d.dir_name.as_str(), "iio:device");
        let name_ok = match &d.name {
            Some(n) => str_eq(n.as_str(), target),
            None => false,
        };
        if prefix_ok && name_ok {
            proof {
                reveal_strlit("iio:device");
            }
            return Some(i);
        }
        proof {
            reveal_strlit("iio:device");
        }
        i = i + 1;
    }
    None
}

/// True when `s` begins with `prefix`.
pub fn str_starts_with(s: &str, prefix: &str) -> (r: bool)
    ensures
        r == (s@.len() >= prefix@.len() && s@.take(prefix@.len() as int) == prefix@),
{
    let slen = s.unicode_len();
    let plen = prefix.unicode_len();
    if slen < plen {
        return false;
    }
    let mut i: usize = 0;
    while i < plen
        invariant
            0 <= i <= plen,
            plen <= slen,
            slen == s@.len(),
            plen == prefix@.len(),
            forall|m: int| 0 <= m < i ==> s@[m] == prefix@[m],
        decreases plen - i,
    {
        if s.get_char(i) != prefix.get_char(i) {
            proof {
                assert(s@.take(plen as int)[i as int] != prefix@[i as int]);
            }
            return false;
        }
        i = i + 1;
    }
    proof {
        assert(s@.take(plen as int) =~= prefix@);
    }
    true
}

} // verus!
