//! The activity: one sensor manager and one notification registry under
//! one roof, and the operations that the host asks for.

use crate::clock::timestamp_text;
use crate::events::HostEvent;
use crate::notifications::accepts_every_notification;
use crate::notifications::NotificationManager;
use crate::notifications::NotificationPriority;
use crate::notifications::RegistryView;
use crate::sensors::accepts_every_reading;
use crate::sensors::push_reading_line;
use crate::sensors::reading_line;
use crate::sensors::AxisGroup;
use crate::sensors::AxisText;
use crate::sensors::AxisValues;
use crate::sensors::SensorData;
use crate::sensors::SensorLoop;
use crate::sensors::SensorManager;
use crate::sensors::SensorSnapshot;
use vstd::prelude::*;

verus! {

/// The text of a snapshot: a line each for accelerometer, gyroscope and
/// magnetometer.
pub open spec fn snapshot_text(
    accelerometer: &AxisText,
    gyroscope: &AxisText,
    magnetometer: &AxisText,
) -> Seq<char> {
    reading_line(AxisGroup::Accelerometer.short_label(), accelerometer) + "\n"@ + reading_line(
        AxisGroup::Gyroscope.short_label(),
        gyroscope,
    ) + "\n"@ + reading_line(AxisGroup::Magnetometer.short_label(), magnetometer)
}

/// Writes a snapshot as one text of three lines. The components come as
/// the texts they are to be shown as.
pub fn format_sensor_snapshot(
    accelerometer: &AxisText,
    gyroscope: &AxisText,
    magnetometer: &AxisText,
) -> (text: String)
    ensures
        text@ == snapshot_text(accelerometer, gyroscope, magnetometer),
{
    let mut text = String::new();
    push_reading_line(&mut text, AxisGroup::Accelerometer.short_name(), accelerometer);
    text.append("\n");
    push_reading_line(&mut text, AxisGroup::Gyroscope.short_name(), gyroscope);
    text.append("\n");
    push_reading_line(&mut text, AxisGroup::Magnetometer.short_name(), magnetometer);
    text
}

/// The title of the notification that tests the path to the host.
pub open spec fn test_notification_title() -> Seq<char> {
    "Test Notification"@
}

/// The message of the notification that tests the path to the host.
pub open spec fn test_notification_message() -> Seq<char> {
    "This is a test notification from Rust"@
}

/// The activity. `S` is the sink for sensor readings, `N` the sink for
/// notifications, `U` the sink for changes of status.
pub struct NativeActivity<
    S: Fn(i32, SensorData),
    N: Fn(i32, String, String, String),
    U: Fn(String),
> {
    sensor_manager: SensorManager<S>,
    notification_manager: NotificationManager<N>,
    status_callback: Option<U>,
}

impl<S: Fn(i32, SensorData), N: Fn(i32, String, String, String), U: Fn(String)> NativeActivity<
    S,
    N,
    U,
> {
    /// The sensor manager of the activity.
    pub closed spec fn sensors(&self) -> SensorManager<S> {
        self.sensor_manager
    }

    /// The notification registry of the activity.
    pub closed spec fn notifications(&self) -> NotificationManager<N> {
        self.notification_manager
    }

    /// The sink for changes of status, if one is registered.
    pub closed spec fn status_sink(&self) -> Option<U> {
        self.status_callback
    }

    /// A new activity: readings at zero, no notification, no sink.
    pub fn new() -> (activity: Self)
        ensures
            activity.sensors()@ == SensorSnapshot::initial(),
            activity.sensors().sink() is None,
            activity.notifications()@ == RegistryView::initial(),
            activity.notifications().sink() is None,
            activity.status_sink() is None,
    {
        NativeActivity {
            sensor_manager: SensorManager::new(),
            notification_manager: NotificationManager::new(),
            status_callback: None,
        }
    }

    /// Sets the activity going: sensor monitoring starts with
    /// `sensor_sink`, and notifications go to `notification_sink` from
    /// now on. Returns the monitoring loop.
    pub fn initialize(&mut self, sensor_sink: S, notification_sink: N) -> (monitor: SensorLoop<S>)
        requires
            accepts_every_reading(sensor_sink),
            accepts_every_notification(notification_sink),
        ensures
            monitor.sink() == Some(sensor_sink),
            final(self).sensors()@ == old(self).sensors()@,
            final(self).sensors().sink() is None,
            final(self).notifications()@ == old(self).notifications()@,
            final(self).notifications().sink() == Some(notification_sink),
            final(self).status_sink() == old(self).status_sink(),
    {
        let monitor = self.start_sensor_monitoring(sensor_sink);
        self.initialize_notifications(notification_sink);
        monitor
    }

    /// Starts a monitoring loop that reports to `sensor_sink`.
    pub fn start_sensor_monitoring(&mut self, sensor_sink: S) -> (monitor: SensorLoop<S>)
        requires
            accepts_every_reading(sensor_sink),
        ensures
            monitor.sink() == Some(sensor_sink),
            final(self).sensors()@ == old(self).sensors()@,
            final(self).sensors().sink() is None,
            final(self).notifications() == old(self).notifications(),
            final(self).status_sink() == old(self).status_sink(),
    {
        self.sensor_manager.set_callback(sensor_sink);
        self.sensor_manager.start_sensor_monitoring()
    }

    /// Registers `notification_sink` as the sink of the registry.
    pub fn initialize_notifications(&mut self, notification_sink: N)
        requires
            accepts_every_notification(notification_sink),
        ensures
            final(self).notifications()@ == old(self).notifications()@,
            final(self).notifications().sink() == Some(notification_sink),
            final(self).sensors() == old(self).sensors(),
            final(self).status_sink() == old(self).status_sink(),
    {
        self.notification_manager.set_callback(notification_sink);
    }

    /// Sends the test notification, of normal priority, through the
    /// registry.
    pub fn send_test_notification(&mut self)
        requires
            old(self).notifications()@.next_id < i32::MAX,
        ensures
            final(self).sensors() == old(self).sensors(),
            final(self).status_sink() == old(self).status_sink(),
            ({
                let before = old(self).notifications();
                let after = final(self).notifications();
                let sent = after.stored(before@.next_id as i32);
                &&& NotificationManager::delivered(&before, &after, sent)
                &&& sent.title@ == test_notification_title()
                &&& sent.message@ == test_notification_message()
                &&& sent.priority == NotificationPriority::Normal
                &&& exists|seconds: u64| sent.timestamp@ == #[trigger] timestamp_text(seconds)
            }),
    {
        self.notification_manager.send_system_notification(
            "Test Notification".to_string(),
            "This is a test notification from Rust".to_string(),
        );
    }

    /// The event that tells the host of the status `message`.
    pub fn update_status(&self, message: String) -> (event: HostEvent)
        ensures
            event == (HostEvent::StatusUpdate { message }),
    {
        HostEvent::StatusUpdate { message }
    }

    /// Registers `callback` as the sink for changes of status.
    pub fn set_status_callback(&mut self, callback: U)
        ensures
            final(self).status_sink() == Some(callback),
            final(self).sensors() == old(self).sensors(),
            final(self).notifications() == old(self).notifications(),
    {
        self.status_callback = Some(callback);
    }

    /// The identifier that the next notification will get.
    pub fn next_notification_id(&self) -> (id: i32)
        ensures
            id == self.notifications()@.next_id,
    {
        self.notification_manager.next_id()
    }

    /// The latest reading of each sensor.
    pub fn get_sensor_data(&self) -> (snapshot: SensorSnapshot)
        ensures
            snapshot == self.sensors()@,
    {
        self.sensor_manager.snapshot()
    }

    /// One round of the monitoring loop: stores the new values of the
    /// three sensors, each stamped with the time at which it is stored,
    /// and returns the readings for the report.
    pub fn record_cycle(
        &mut self,
        accelerometer: AxisValues,
        gyroscope: AxisValues,
        magnetometer: AxisValues,
    ) -> (stored: SensorSnapshot)
        ensures
            stored.accelerometer.components() == accelerometer,
            stored.gyroscope.components() == gyroscope,
            stored.magnetometer.components() == magnetometer,
            final(self).sensors()@ == stored,
            final(self).sensors().sink() == old(self).sensors().sink(),
            final(self).notifications() == old(self).notifications(),
            final(self).status_sink() == old(self).status_sink(),
    {
        self.sensor_manager.record_cycle(accelerometer, gyroscope, magnetometer)
    }
}

} // verus!
