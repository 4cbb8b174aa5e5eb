//! The latest reading of each sensor, and one round of the loop that
//! refreshes them.

use crate::clock::millis_of;
use crate::clock::system_clock;
use crate::clock::unix_millis;
use crate::clock::ClockReading;
use vstd::prelude::*;

verus! {

/// Milliseconds between two rounds of the monitoring loop.
pub const MONITORING_PERIOD_MS: u64 = 100;

/// The three sensors, in the order in which a round reports them.
#[derive(Clone, Copy, Debug, PartialEq, Eq, Structural)]
pub enum AxisGroup {
    Accelerometer,
    Gyroscope,
    Magnetometer,
}

impl AxisGroup {
    /// The place of the sensor in a round: 0, 1 or 2.
    pub open spec fn position(self) -> i32 {
        match self {
            AxisGroup::Accelerometer => 0,
            AxisGroup::Gyroscope => 1,
            AxisGroup::Magnetometer => 2,
        }
    }

    /// The sensor's name as it is shown.
    pub open spec fn label(self) -> Seq<char> {
        match self {
            AxisGroup::Accelerometer => "Accelerometer"@,
            AxisGroup::Gyroscope => "Gyroscope"@,
            AxisGroup::Magnetometer => "Magnetometer"@,
        }
    }

    /// The sensor's name in a snapshot.
    pub open spec fn short_label(self) -> Seq<char> {
        match self {
            AxisGroup::Accelerometer => "Accel"@,
            AxisGroup::Gyroscope => "Gyro"@,
            AxisGroup::Magnetometer => "Mag"@,
        }
    }

    /// The sensor at place `index`, if `index` is 0, 1 or 2.
    pub open spec fn at(index: i32) -> Option<AxisGroup> {
        if index == 0 {
            Some(AxisGroup::Accelerometer)
        } else if index == 1 {
            Some(AxisGroup::Gyroscope)
        } else if index == 2 {
            Some(AxisGroup::Magnetometer)
        } else {
            None
        }
    }

    /// The place of the sensor in a round.
    pub fn index(self) -> (index: i32)
        ensures
            index == self.position(),
    {
        match self {
            AxisGroup::Accelerometer => 0,
            AxisGroup::Gyroscope => 1,
            AxisGroup::Magnetometer => 2,
        }
    }

    /// The sensor at place `index`, if `index` is 0, 1 or 2.
    pub fn from_index(index: i32) -> (group: Option<AxisGroup>)
        ensures
            group == AxisGroup::at(index),
    {
        if index == 0 {
            Some(AxisGroup::Accelerometer)
        } else if index == 1 {
            Some(AxisGroup::Gyroscope)
        } else if index == 2 {
            Some(AxisGroup::Magnetometer)
        } else {
            None
        }
    }

    /// The sensor's name as it is shown.
    pub fn name(self) -> (name: &'static str)
        ensures
            name@ == self.label(),
    {
        match self {
            AxisGroup::Accelerometer => "Accelerometer",
            AxisGroup::Gyroscope => "Gyroscope",
            AxisGroup::Magnetometer => "Magnetometer",
        }
    }

    /// The sensor's name in a snapshot.
    pub fn short_name(self) -> (name: &'static str)
        ensures
            name@ == self.short_label(),
    {
        match self {
            AxisGroup::Accelerometer => "Accel",
            AxisGroup::Gyroscope => "Gyro",
            AxisGroup::Magnetometer => "Mag",
        }
    }
}

/// The three components of a measurement, each as the bit pattern of a
/// 64-bit IEEE 754 number.
#[derive(Clone, Copy, Debug, PartialEq, Eq, Structural)]
pub struct AxisValues {
    pub x: u64,
    pub y: u64,
    pub z: u64,
}

/// The three components of a measurement as the texts they are shown as.
#[derive(Debug)]
pub struct AxisText {
    pub x: String,
    pub y: String,
    pub z: String,
}

/// A measurement as it is shown: the label, a colon, and the three
/// components in brackets, separated by commas.
pub open spec fn reading_line(label: Seq<char>, values: &AxisText) -> Seq<char> {
    label + ": ("@ + values.x@ + ", "@ + values.y@ + ", "@ + values.z@ + ")"@
}

/// Appends a measurement to `out` as it is shown.
pub fn push_reading_line(out: &mut String, label: &str, values: &AxisText)
    ensures
        final(out)@ == old(out)@ + reading_line(label@, values),
{
    out.append(label);
    out.append(": (");
    out.append(values.x.as_str());
    out.append(", ");
    out.append(values.y.as_str());
    out.append(", ");
    out.append(values.z.as_str());
    out.append(")");
}

/// One reading: three components, each as the bit pattern of a 64-bit
/// IEEE 754 number, and the time of the measurement in milliseconds since
/// the start of 1970.
#[derive(Clone, Copy, Debug, PartialEq, Eq, Structural)]
pub struct SensorData {
    pub x: u64,
    pub y: u64,
    pub z: u64,
    pub timestamp: u64,
}

impl SensorData {
    /// The reading before anything was measured: zero in every
    /// component, at time zero.
    pub open spec fn zero() -> SensorData {
        SensorData { x: 0, y: 0, z: 0, timestamp: 0 }
    }

    /// The reading that holds `values`, taken at `timestamp`.
    pub open spec fn taken(values: AxisValues, timestamp: u64) -> SensorData {
        SensorData { x: values.x, y: values.y, z: values.z, timestamp }
    }

    /// The components of the reading.
    pub open spec fn components(self) -> AxisValues {
        AxisValues { x: self.x, y: self.y, z: self.z }
    }

    /// The components of the reading.
    pub fn values(&self) -> (values: AxisValues)
        ensures
            values == self.components(),
    {
        AxisValues { x: self.x, y: self.y, z: self.z }
    }
}

/// The latest reading of each sensor, taken together.
#[derive(Clone, Copy, Debug, PartialEq, Eq, Structural)]
pub struct SensorSnapshot {
    pub accelerometer: SensorData,
    pub gyroscope: SensorData,
    pub magnetometer: SensorData,
}

impl SensorSnapshot {
    /// All three readings before anything was measured.
    pub open spec fn initial() -> SensorSnapshot {
        SensorSnapshot {
            accelerometer: SensorData::zero(),
            gyroscope: SensorData::zero(),
            magnetometer: SensorData::zero(),
        }
    }

    /// The latest reading of `group`.
    pub open spec fn get(self, group: AxisGroup) -> SensorData {
        match group {
            AxisGroup::Accelerometer => self.accelerometer,
            AxisGroup::Gyroscope => self.gyroscope,
            AxisGroup::Magnetometer => self.magnetometer,
        }
    }

    /// The readings after `value` took the place of the reading of
    /// `group`. The other two stay.
    pub open spec fn update(self, group: AxisGroup, value: SensorData) -> SensorSnapshot {
        match group {
            AxisGroup::Accelerometer => SensorSnapshot { accelerometer: value, ..self },
            AxisGroup::Gyroscope => SensorSnapshot { gyroscope: value, ..self },
            AxisGroup::Magnetometer => SensorSnapshot { magnetometer: value, ..self },
        }
    }

    /// The readings after the updates `writes`, first to last.
    pub open spec fn run(self, writes: Seq<(AxisGroup, SensorData)>) -> SensorSnapshot
        decreases writes.len(),
    {
        if writes.len() == 0 {
            self
        } else {
            self.run(writes.drop_last()).update(writes.last().0, writes.last().1)
        }
    }
}

/// A sink takes every reading of every sensor.
pub open spec fn accepts_every_reading<F: Fn(i32, SensorData)>(sink: F) -> bool {
    forall|index: i32, reading: SensorData| call_requires(sink, (index, reading))
}

/// Holds the latest reading of each sensor and the sink that a
/// monitoring loop reports to.
pub struct SensorManager<F: Fn(i32, SensorData)> {
    accelerometer_data: SensorData,
    gyroscope_data: SensorData,
    magnetometer_data: SensorData,
    callback: Option<F>,
}

impl<F: Fn(i32, SensorData)> View for SensorManager<F> {
    type V = SensorSnapshot;

    closed spec fn view(&self) -> SensorSnapshot {
        SensorSnapshot {
            accelerometer: self.accelerometer_data,
            gyroscope: self.gyroscope_data,
            magnetometer: self.magnetometer_data,
        }
    }
}

impl<F: Fn(i32, SensorData)> SensorManager<F> {
    /// The sink that is registered takes every reading.
    #[verifier::type_invariant]
    spec fn sink_takes_all(&self) -> bool {
        self.callback matches Some(sink) ==> accepts_every_reading(sink)
    }

    /// The sink that is registered, if any.
    pub closed spec fn sink(&self) -> Option<F> {
        self.callback
    }

    /// All readings zero, at time zero, and no sink.
    pub fn new() -> (manager: Self)
        ensures
            manager@ == SensorSnapshot::initial(),
            manager.sink() is None,
    {
        SensorManager {
            accelerometer_data: SensorData { x: 0, y: 0, z: 0, timestamp: 0 },
            gyroscope_data: SensorData { x: 0, y: 0, z: 0, timestamp: 0 },
            magnetometer_data: SensorData { x: 0, y: 0, z: 0, timestamp: 0 },
            callback: None,
        }
    }

    /// Registers `callback` as the sink, in place of an earlier one.
    pub fn set_callback(&mut self, callback: F)
        requires
            accepts_every_reading(callback),
        ensures
            final(self)@ == old(self)@,
            final(self).sink() == Some(callback),
    {
        self.callback = Some(callback);
    }

    /// Starts a monitoring loop: the loop gets the registered sink, and
    /// the manager keeps the readings and has no sink afterwards, so a
    /// second loop reports to nobody.
    pub fn start_sensor_monitoring(&mut self) -> (monitor: SensorLoop<F>)
        ensures
            final(self)@ == old(self)@,
            final(self).sink() is None,
            monitor.sink() == old(self).sink(),
    {
        proof {
            use_type_invariant(&*self);
        }
        let mut callback: Option<F> = None;
        std::mem::swap(&mut self.callback, &mut callback);
        SensorLoop { callback }
    }

    /// Puts `value` in the place of the reading of `group`, whole.
    pub fn update(&mut self, group: AxisGroup, value: SensorData)
        ensures
            final(self)@ == old(self)@.update(group, value),
            final(self).sink() == old(self).sink(),
    {
        proof {
            use_type_invariant(&*self);
        }
        match group {
            AxisGroup::Accelerometer => {
                self.accelerometer_data = value;
            },
            AxisGroup::Gyroscope => {
                self.gyroscope_data = value;
            },
            AxisGroup::Magnetometer => {
                self.magnetometer_data = value;
            },
        }
    }

    /// A copy of the latest reading of `group`.
    pub fn read(&self, group: AxisGroup) -> (reading: SensorData)
        ensures
            reading == self@.get(group),
    {
        match group {
            AxisGroup::Accelerometer => self.accelerometer_data,
            AxisGroup::Gyroscope => self.gyroscope_data,
            AxisGroup::Magnetometer => self.magnetometer_data,
        }
    }

    /// A copy of the latest accelerometer reading.
    pub fn get_accelerometer_data(&self) -> (reading: SensorData)
        ensures
            reading == self@.accelerometer,
    {
        self.accelerometer_data
    }

    /// A copy of the latest gyroscope reading.
    pub fn get_gyroscope_data(&self) -> (reading: SensorData)
        ensures
            reading == self@.gyroscope,
    {
        self.gyroscope_data
    }

    /// A copy of the latest magnetometer reading.
    pub fn get_magnetometer_data(&self) -> (reading: SensorData)
        ensures
            reading == self@.magnetometer,
    {
        self.magnetometer_data
    }

    /// Stores `values` as the reading of `group`, stamped with the
    /// milliseconds of the clock reading `clock`, and returns what was
    /// stored.
    pub fn store_stamped(&mut self, group: AxisGroup, values: AxisValues, clock: ClockReading) -> (stored:
        SensorData)
        ensures
            stored == SensorData::taken(values, millis_of(clock)),
            final(self)@ == old(self)@.update(group, stored),
            final(self).sink() == old(self).sink(),
    {
        let stored = SensorData {
            x: values.x,
            y: values.y,
            z: values.z,
            timestamp: unix_millis(clock),
        };
        self.update(group, stored);
        stored
    }

    /// The latest reading of each sensor.
    pub fn snapshot(&self) -> (snapshot: SensorSnapshot)
        ensures
            snapshot == self@,
    {
        SensorSnapshot {
            accelerometer: self.accelerometer_data,
            gyroscope: self.gyroscope_data,
            magnetometer: self.magnetometer_data,
        }
    }

    /// One round of a monitoring loop: stores the new values of the
    /// accelerometer, then of the gyroscope, then of the magnetometer,
    /// each stamped with the time at which it is stored, and returns the
    /// three readings for the report.
    pub fn record_cycle(
        &mut self,
        accelerometer: AxisValues,
        gyroscope: AxisValues,
        magnetometer: AxisValues,
    ) -> (stored: SensorSnapshot)
        ensures
            stored.accelerometer.components() == accelerometer,
            stored.gyroscope.components() == gyroscope,
            stored.magnetometer.components() == magnetometer,
            final(self)@ == stored,
            final(self).sink() == old(self).sink(),
    {
        let accelerometer = self.store_now(AxisGroup::Accelerometer, accelerometer);
        let gyroscope = self.store_now(AxisGroup::Gyroscope, gyroscope);
        let magnetometer = self.store_now(AxisGroup::Magnetometer, magnetometer);
        SensorSnapshot { accelerometer, gyroscope, magnetometer }
    }

    /// Stores `values` as the reading of `group`, stamped with the
    /// current time, and returns what was stored.
    pub fn store_now(&mut self, group: AxisGroup, values: AxisValues) -> (stored: SensorData)
        ensures
            stored.components() == values,
            final(self)@ == old(self)@.update(group, stored),
            final(self).sink() == old(self).sink(),
    {
        self.store_stamped(group, values, system_clock())
    }
}

/// A monitoring loop: the sink that it reports each round to.
pub struct SensorLoop<F: Fn(i32, SensorData)> {
    callback: Option<F>,
}

impl<F: Fn(i32, SensorData)> SensorLoop<F> {
    /// The sink of the loop takes every reading.
    #[verifier::type_invariant]
    spec fn sink_takes_all(&self) -> bool {
        self.callback matches Some(sink) ==> accepts_every_reading(sink)
    }

    /// The sink that the loop reports to, if any.
    pub closed spec fn sink(&self) -> Option<F> {
        self.callback
    }

    /// Milliseconds that the loop waits after each round.
    pub fn period_ms(&self) -> (period: u64)
        ensures
            period == MONITORING_PERIOD_MS,
    {
        MONITORING_PERIOD_MS
    }

    /// Reports one round to the sink, if there is one: the
    /// accelerometer's reading under index 0, then the gyroscope's under
    /// 1, then the magnetometer's under 2.
    pub fn report(&self, round: SensorSnapshot)
        ensures
            self.sink() matches Some(sink) ==> {
                &&& call_ensures(sink, (AxisGroup::Accelerometer.position(), round.accelerometer), ())
                &&& call_ensures(sink, (AxisGroup::Gyroscope.position(), round.gyroscope), ())
                &&& call_ensures(sink, (AxisGroup::Magnetometer.position(), round.magnetometer), ())
            },
    {
        proof {
            use_type_invariant(self);
        }
        match &self.callback {
            Some(sink) => {
                sink(AxisGroup::Accelerometer.index(), round.accelerometer);
                sink(AxisGroup::Gyroscope.index(), round.gyroscope);
                sink(AxisGroup::Magnetometer.index(), round.magnetometer);
            },
            None => {},
        }
    }
}

impl SensorSnapshot {
    /// Along the updates `writes`, no update carries an older timestamp
    /// than the reading that it replaces.
    pub open spec fn clock_never_behind(self, writes: Seq<(AxisGroup, SensorData)>) -> bool {
        forall|k: int|
            #![trigger writes[k]]
            0 <= k < writes.len() ==> self.run(writes.take(k)).get(writes[k].0).timestamp
                <= writes[k].1.timestamp
    }
}

/// A reading is never a mix of two updates: after any updates, the
/// reading of a sensor is the value of the last update of that sensor,
/// whole, or the reading from before where the sensor was not updated.
pub proof fn lemma_reads_are_whole(
    start: SensorSnapshot,
    writes: Seq<(AxisGroup, SensorData)>,
    group: AxisGroup,
)
    ensures
        (forall|k: int| 0 <= k < writes.len() ==> (#[trigger] writes[k]).0 != group) ==> start.run(
            writes,
        ).get(group) == start.get(group),
        forall|k: int|
            #![trigger writes[k]]
            0 <= k < writes.len() && writes[k].0 == group && (forall|j: int|
                k < j < writes.len() ==> (#[trigger] writes[j]).0 != group) ==> start.run(writes).get(
                group,
            ) == writes[k].1,
    decreases writes.len(),
{
    if writes.len() > 0 {
        let earlier = writes.drop_last();
        lemma_reads_are_whole(start, earlier, group);
        assert forall|k: int| 0 <= k < earlier.len() implies earlier[k] == writes[k] by {}
        if writes.last().0 != group {
            assert forall|k: int|
                #![trigger writes[k]]
                0 <= k < writes.len() && writes[k].0 == group && (forall|j: int|
                    k < j < writes.len() ==> (#[trigger] writes[j]).0 != group) implies start.run(
                writes,
            ).get(group) == writes[k].1 by {
                assert(k < earlier.len());
                assert(earlier[k] == writes[k]);
                assert forall|j: int| k < j < earlier.len() implies (#[trigger] earlier[j]).0
                    != group by {
                    assert(earlier[j] == writes[j]);
                }
            }
        } else {
            assert forall|k: int|
                #![trigger writes[k]]
                0 <= k < writes.len() && writes[k].0 == group && (forall|j: int|
                    k < j < writes.len() ==> (#[trigger] writes[j]).0 != group) implies start.run(
                writes,
            ).get(group) == writes[k].1 by {
                if k < writes.len() - 1 {
                    assert(writes[writes.len() - 1].0 != group);
                }
            }
        }
    }
}

/// The timestamp of a sensor never goes back as long as the clock does
/// not: of two moments along the updates, the later one shows no older
/// timestamp for any sensor.
pub proof fn lemma_timestamps_never_go_back(
    start: SensorSnapshot,
    writes: Seq<(AxisGroup, SensorData)>,
    group: AxisGroup,
    i: int,
    j: int,
)
    requires
        start.clock_never_behind(writes),
        0 <= i <= j <= writes.len(),
    ensures
        start.run(writes.take(i)).get(group).timestamp <= start.run(writes.take(j)).get(
            group,
        ).timestamp,
    decreases j - i,
{
    if i < j {
        lemma_timestamps_never_go_back(start, writes, group, i, j - 1);
        assert(writes.take(j).drop_last() =~= writes.take(j - 1));
        assert(writes.take(j).last() == writes[j - 1]);
    }
}

} // verus!
