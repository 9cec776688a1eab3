use vstd::prelude::*;

verus! {

/// One temperature/humidity reading of a child sensor of the hub.
///
/// The temperature is held in hundredths of a degree Celsius.
pub struct SensorReading {
    pub device_id: String,
    pub centidegrees: i32,
    pub humidity: u8,
}

/// A child device of the hub, as far as this library cares about it.
pub enum DeviceRecord {
    /// T310 temperature and humidity sensor.
    T310(SensorReading),
    /// T315 temperature and humidity sensor.
    T315(SensorReading),
    /// Any device that is not a supported sensor.
    Other,
}

/// Which single reading to report for one poll.
pub enum Selection {
    /// Exactly one reading was chosen.
    Unique(SensorReading),
    /// The hub has no supported sensor.
    NoSensor,
    /// Several sensors exist and none could be chosen; carries all of them,
    /// and the device id that was asked for, if any.
    Ambiguous { readings: Vec<SensorReading>, requested: Option<String> },
}

/// The reading a device carries, if it is a supported sensor.
pub open spec fn sensor_of(d: DeviceRecord) -> Option<SensorReading> {
    match d {
        DeviceRecord::T310(r) => Some(r),
        DeviceRecord::T315(r) => Some(r),
        DeviceRecord::Other => None,
    }
}

/// The readings of the supported sensors among `devices`, in list order.
pub open spec fn sensors_of(devices: Seq<DeviceRecord>) -> Seq<SensorReading>
    decreases devices.len(),
{
    if devices.len() == 0 {
        Seq::empty()
    } else {
        let rest = sensors_of(devices.subrange(1, devices.len() as int));
        match sensor_of(devices[0]) {
            Some(r) => seq![r] + rest,
            None => rest,
        }
    }
}

/// `i` is the first position in `s` whose device id is `id`.
pub open spec fn is_first_match(s: Seq<SensorReading>, id: Seq<char>, i: int) -> bool {
    &&& 0 <= i < s.len()
    &&& s[i].device_id@ == id
    &&& forall|j: int| 0 <= j < i ==> s[j].device_id@ != id
}

/// Some reading in `s` has the device id `id`.
pub open spec fn has_device(s: Seq<SensorReading>, id: Seq<char>) -> bool {
    exists|i: int| 0 <= i < s.len() && s[i].device_id@ == id
}

/// Keeps the readings of the supported sensors, in list order.
pub fn supported_readings(devices: Vec<DeviceRecord>) -> (r: Vec<SensorReading>)
    ensures
        r@ == sensors_of(devices@),
{
    let ghost all = devices@;
    let mut rest = devices;
    let mut out: Vec<SensorReading> = Vec::new();
    while rest.len() > 0
        invariant
            out@ + sensors_of(rest@) == sensors_of(all),
        decreases rest.len(),
    {
        let ghost before = rest@;
        let d = rest.remove(0);
        assert(rest@ =~= before.subrange(1, before.len() as int));
        match d {
            DeviceRecord::T310(r) => {
                assert(out@.push(r) + sensors_of(rest@) =~= out@ + (seq![r] + sensors_of(rest@)));
                out.push(r);
            },
            DeviceRecord::T315(r) => {
                assert(out@.push(r) + sensors_of(rest@) =~= out@ + (seq![r] + sensors_of(rest@)));
                out.push(r);
            },
            DeviceRecord::Other => {},
        }
    }
    assert(out@ =~= out@ + sensors_of(rest@));
    out
}

/// Position of the first reading whose device id is `id`, if there is one.
pub fn find_device(readings: &Vec<SensorReading>, id: &String) -> (r: Option<usize>)
    ensures
        match r {
            Some(i) => is_first_match(readings@, id@, i as int),
            None => !has_device(readings@, id@),
        },
{
    let mut i: usize = 0;
    while i < readings.len()
        invariant
            i <= readings@.len(),
            forall|j: int| 0 <= j < i ==> readings@[j].device_id@ != id@,
        decreases readings.len() - i,
    {
        if readings[i].device_id == *id {
            return Some(i);
        }
        i += 1;
    }
    None
}

/// `r` is what the selection policy gives for `devices` and `target`:
/// - no supported sensor: `NoSensor`;
/// - exactly one: that one, whatever `target` says;
/// - several, and `target` names one of them: the first with that id;
/// - several, and `target` names none of them or is absent: `Ambiguous`, with
///   all readings in list order and the requested id.
pub open spec fn selected(devices: Seq<DeviceRecord>, target: Option<String>, r: Selection) -> bool {
    let s = sensors_of(devices);
    &&& s.len() == 0 ==> r == Selection::NoSensor
    &&& s.len() == 1 ==> r == Selection::Unique(s[0])
    &&& s.len() >= 2 ==> match target {
        None => r matches Selection::Ambiguous { readings, requested }
            && readings@ == s && requested is None,
        Some(id) => if has_device(s, id@) {
            exists|i: int| is_first_match(s, id@, i) && r == Selection::Unique(s[i])
        } else {
            r matches Selection::Ambiguous { readings, requested }
                && readings@ == s && requested == target
        },
    }
}

/// Picks the one reading to report from the devices of one poll.
///
/// A single supported sensor is reported whatever `target` says. With several,
/// the first one whose id is `target` is reported; if there is no such one, or
/// no `target`, the result is `Ambiguous`. Never picks a sensor by guessing.
pub fn select(devices: Vec<DeviceRecord>, target: &Option<String>) -> (r: Selection)
    ensures
        selected(devices@, *target, r),
{
    let mut readings = supported_readings(devices);
    if readings.len() == 0 {
        Selection::NoSensor
    } else if readings.len() == 1 {
        Selection::Unique(readings.remove(0))
    } else {
        match target {
            None => Selection::Ambiguous { readings, requested: None },
            Some(id) => match find_device(&readings, id) {
                Some(i) => {
                    let ghost s = readings@;
                    let chosen = readings.remove(i);
                    assert(is_first_match(s, id@, i as int));
                    Selection::Unique(chosen)
                },
                None => Selection::Ambiguous { readings, requested: Some(id.clone()) },
            },
        }
    }
}

} // verus!
