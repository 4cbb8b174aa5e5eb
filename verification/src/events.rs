//! The events that the host receives, each with the name of the host
//! method that takes it and the shape of its arguments.

use crate::sensors::push_reading_line;
use crate::sensors::reading_line;
use crate::sensors::AxisGroup;
use crate::sensors::AxisText;
use vstd::prelude::*;

verus! {

/// One event for the host.
#[derive(Debug)]
pub enum HostEvent {
    /// A background task reports progress or its result.
    AsyncResult { message: String },
    /// A sensor has a new reading.
    SensorData { message: String },
    /// A notification was created.
    Notification { id: i32, title: String, message: String },
    /// The status of the activity changed.
    StatusUpdate { message: String },
    /// Anything else that the host is told of, with its source.
    RustEvent { source: String, message: String },
}

/// An event with its texts as character sequences.
pub enum HostEventView {
    AsyncResult { message: Seq<char> },
    SensorData { message: Seq<char> },
    Notification { id: i32, title: Seq<char>, message: Seq<char> },
    StatusUpdate { message: Seq<char> },
    RustEvent { source: Seq<char>, message: Seq<char> },
}

impl View for HostEvent {
    type V = HostEventView;

    open spec fn view(&self) -> HostEventView {
        match self {
            HostEvent::AsyncResult { message } => HostEventView::AsyncResult { message: message@ },
            HostEvent::SensorData { message } => HostEventView::SensorData { message: message@ },
            HostEvent::Notification { id, title, message } => HostEventView::Notification {
                id: *id,
                title: title@,
                message: message@,
            },
            HostEvent::StatusUpdate { message } => HostEventView::StatusUpdate { message: message@ },
            HostEvent::RustEvent { source, message } => HostEventView::RustEvent {
                source: source@,
                message: message@,
            },
        }
    }
}

impl HostEventView {
    /// The name of the host method that takes the event.
    pub open spec fn method_name(self) -> Seq<char> {
        match self {
            HostEventView::AsyncResult { .. } => "onRustAsyncResult"@,
            HostEventView::SensorData { .. } => "onSensorData"@,
            HostEventView::Notification { .. } => "onNotification"@,
            HostEventView::StatusUpdate { .. } => "onStatusUpdate"@,
            HostEventView::RustEvent { .. } => "onRustEvent"@,
        }
    }

    /// The descriptor of the host method: an integer and two texts for a
    /// notification, two texts for an event with a source, one text for
    /// the others; none of them returns anything.
    pub open spec fn descriptor(self) -> Seq<char> {
        match self {
            HostEventView::Notification { .. } => "(ILjava/lang/String;Ljava/lang/String;)V"@,
            HostEventView::RustEvent { .. } => "(Ljava/lang/String;Ljava/lang/String;)V"@,
            _ => "(Ljava/lang/String;)V"@,
        }
    }
}

/// The host class whose static methods take the events.
pub fn bridge_class() -> (class: &'static str)
    ensures
        class@ == "com/example/modularandroidapp/RustBridge"@,
{
    "com/example/modularandroidapp/RustBridge"
}

impl HostEvent {
    /// The name of the host method that takes the event.
    pub fn method_name(&self) -> (name: &'static str)
        ensures
            name@ == self@.method_name(),
    {
        match self {
            HostEvent::AsyncResult { .. } => "onRustAsyncResult",
            HostEvent::SensorData { .. } => "onSensorData",
            HostEvent::Notification { .. } => "onNotification",
            HostEvent::StatusUpdate { .. } => "onStatusUpdate",
            HostEvent::RustEvent { .. } => "onRustEvent",
        }
    }

    /// The descriptor of the host method that takes the event.
    pub fn descriptor(&self) -> (descriptor: &'static str)
        ensures
            descriptor@ == self@.descriptor(),
    {
        match self {
            HostEvent::Notification { .. } => "(ILjava/lang/String;Ljava/lang/String;)V",
            HostEvent::RustEvent { .. } => "(Ljava/lang/String;Ljava/lang/String;)V",
            _ => "(Ljava/lang/String;)V",
        }
    }
}

/// The event for a new reading of the sensor at place `index`, whose
/// components are shown as `values`; `None` where no sensor has that
/// place.
pub fn sensor_event(index: i32, values: &AxisText) -> (event: Option<HostEvent>)
    ensures
        match AxisGroup::at(index) {
            Some(group) => event matches Some(event) && event@ == (HostEventView::SensorData {
                message: reading_line(group.label(), values),
            }),
            None => event is None,
        },
{
    match AxisGroup::from_index(index) {
        Some(group) => {
            let mut message = String::new();
            push_reading_line(&mut message, group.name(), values);
            Some(HostEvent::SensorData { message })
        },
        None => None,
    }
}

} // verus!
