//! The notification registry: records keyed by the identifier issued for
//! them, and the sink that learns of each new record.

use crate::clock::format_timestamp;
use crate::clock::system_clock;
use crate::clock::timestamp_text;
use crate::clock::unix_seconds;
use std::collections::HashMap;
use vstd::prelude::*;
use vstd::std_specs::hash::spec_values_iter;
use vstd::std_specs::iter::IteratorSpec;

verus! {

/// How urgently a notification asks for attention.
#[derive(Clone, Copy, Debug, PartialEq, Eq, Structural)]
pub enum NotificationPriority {
    Low,
    Normal,
    High,
    Urgent,
}

/// One stored notification. It is never changed after it was created.
#[derive(Debug)]
pub struct NotificationData {
    pub id: i32,
    pub title: String,
    pub message: String,
    pub timestamp: String,
    pub priority: NotificationPriority,
}

/// What a notification says, with its texts as character sequences.
pub struct NotificationView {
    pub id: int,
    pub title: Seq<char>,
    pub message: Seq<char>,
    pub timestamp: Seq<char>,
    pub priority: NotificationPriority,
}

impl View for NotificationData {
    type V = NotificationView;

    open spec fn view(&self) -> NotificationView {
        NotificationView {
            id: self.id as int,
            title: self.title@,
            message: self.message@,
            timestamp: self.timestamp@,
            priority: self.priority,
        }
    }
}

impl Clone for NotificationData {
    fn clone(&self) -> (copy: Self)
        ensures
            copy == *self,
    {
        NotificationData {
            id: self.id,
            title: self.title.clone(),
            message: self.message.clone(),
            timestamp: self.timestamp.clone(),
            priority: self.priority,
        }
    }
}

/// The registry as a mathematical value: the identifier that the next
/// notification will get, and the records that are stored.
pub struct RegistryView {
    pub next_id: int,
    pub records: Map<i32, NotificationView>,
}

impl RegistryView {
    /// The registry before anything was sent.
    pub open spec fn initial() -> RegistryView {
        RegistryView { next_id: 1, records: Map::empty() }
    }

    /// Identifiers start at 1 and stay in range, every stored record sits
    /// under its own identifier, and that identifier was issued before.
    pub open spec fn wf(self) -> bool {
        &&& 1 <= self.next_id <= i32::MAX
        &&& self.records.dom().finite()
        &&& forall|id: i32| #[trigger]
            self.records.contains_key(id) ==> 1 <= id < self.next_id && self.records[id].id == id
    }

    /// The record that a send with these texts stores.
    pub open spec fn new_record(
        self,
        title: Seq<char>,
        message: Seq<char>,
        timestamp: Seq<char>,
        priority: NotificationPriority,
    ) -> NotificationView {
        NotificationView { id: self.next_id, title, message, timestamp, priority }
    }

    /// The registry after a send: the record is stored under the next
    /// identifier, and the counter has moved on by one.
    pub open spec fn send(
        self,
        title: Seq<char>,
        message: Seq<char>,
        timestamp: Seq<char>,
        priority: NotificationPriority,
    ) -> RegistryView {
        RegistryView {
            next_id: self.next_id + 1,
            records: self.records.insert(
                self.next_id as i32,
                self.new_record(title, message, timestamp, priority),
            ),
        }
    }

    /// The registry after the record under `id` was cleared.
    pub open spec fn clear(self, id: i32) -> RegistryView {
        RegistryView { next_id: self.next_id, records: self.records.remove(id) }
    }

    /// The registry after all records were cleared. The counter stays.
    pub open spec fn clear_all(self) -> RegistryView {
        RegistryView { next_id: self.next_id, records: Map::empty() }
    }
}

/// One operation that changes a registry.
pub enum RegistryOp {
    Send { title: Seq<char>, message: Seq<char>, timestamp: Seq<char>, priority: NotificationPriority },
    Clear { id: i32 },
    ClearAll,
}

impl RegistryView {
    /// The registry after one operation.
    pub open spec fn apply(self, op: RegistryOp) -> RegistryView {
        match op {
            RegistryOp::Send { title, message, timestamp, priority } => self.send(
                title,
                message,
                timestamp,
                priority,
            ),
            RegistryOp::Clear { id } => self.clear(id),
            RegistryOp::ClearAll => self.clear_all(),
        }
    }

    /// The registry after the operations `ops`, first to last.
    pub open spec fn run(self, ops: Seq<RegistryOp>) -> RegistryView
        decreases ops.len(),
    {
        if ops.len() == 0 {
            self
        } else {
            self.run(ops.drop_last()).apply(ops.last())
        }
    }

    /// The identifiers that the sends among `ops` return, in the order
    /// of the sends.
    pub open spec fn issued(self, ops: Seq<RegistryOp>) -> Seq<int>
        decreases ops.len(),
    {
        if ops.len() == 0 {
            Seq::empty()
        } else if ops.last() is Send {
            self.issued(ops.drop_last()).push(self.run(ops.drop_last()).next_id)
        } else {
            self.issued(ops.drop_last())
        }
    }

    /// How many of `ops` are sends.
    pub open spec fn sends(ops: Seq<RegistryOp>) -> nat
        decreases ops.len(),
    {
        if ops.len() == 0 {
            0
        } else if ops.last() is Send {
            Self::sends(ops.drop_last()) + 1
        } else {
            Self::sends(ops.drop_last())
        }
    }

    /// The counter can issue an identifier for every send among `ops`.
    pub open spec fn has_room_for(self, ops: Seq<RegistryOp>) -> bool {
        self.next_id + Self::sends(ops) <= i32::MAX
    }
}

/// Running operations keeps a registry well formed and moves the counter
/// on by one for each send: the identifiers issued are the next ones, in
/// order.
pub proof fn lemma_run_counts_sends(start: RegistryView, ops: Seq<RegistryOp>)
    requires
        start.wf(),
        start.has_room_for(ops),
    ensures
        start.run(ops).wf(),
        start.run(ops).next_id == start.next_id + RegistryView::sends(ops),
        start.issued(ops).len() == RegistryView::sends(ops),
        forall|k: int| 0 <= k < start.issued(ops).len() ==> #[trigger] start.issued(ops)[k] == start.next_id + k,
    decreases ops.len(),
{
    if ops.len() > 0 {
        lemma_run_counts_sends(start, ops.drop_last());
    }
}

/// Identifiers are unique and increase: of two sends, the later one
/// returns the larger identifier, whatever was sent or cleared between
/// them. None is below the counter that the registry started with.
pub proof fn lemma_identifiers_increase(start: RegistryView, ops: Seq<RegistryOp>, i: int, j: int)
    requires
        start.wf(),
        start.has_room_for(ops),
        0 <= i < j < start.issued(ops).len(),
    ensures
        start.next_id <= start.issued(ops)[i] < start.issued(ops)[j],
        start.issued(ops).len() == RegistryView::sends(ops),
        start.issued(ops).no_duplicates(),
{
    lemma_run_counts_sends(start, ops);
}

/// Clearing is idempotent: after a clear the record is gone, a second
/// clear of the same identifier finds nothing and changes nothing, and no
/// later operation brings a record back under an identifier that was
/// issued before.
pub proof fn lemma_cleared_stays_cleared(start: RegistryView, id: i32, ops: Seq<RegistryOp>)
    requires
        start.wf(),
        start.has_room_for(ops),
    ensures
        !start.clear(id).records.contains_key(id),
        start.clear(id).clear(id) == start.clear(id),
        id < start.next_id ==> !start.clear(id).run(ops).records.contains_key(id),
    decreases ops.len(),
{
    let cleared = start.clear(id);
    assert(cleared.clear(id).records =~= cleared.records);
    if ops.len() > 0 {
        lemma_cleared_stays_cleared(start, id, ops.drop_last());
        lemma_run_counts_sends(cleared, ops.drop_last());
    }
}

/// The registry of notifications. `F` is the sink that is told of every
/// notification that is sent.
pub struct NotificationManager<F: Fn(i32, String, String, String)> {
    notifications: HashMap<i32, NotificationData>,
    next_id: i32,
    callback: Option<F>,
}

/// A sink takes every notification: it asks nothing of its arguments.
pub open spec fn accepts_every_notification<F: Fn(i32, String, String, String)>(sink: F) -> bool {
    forall|id: i32, title: String, message: String, timestamp: String|
        call_requires(sink, (id, title, message, timestamp))
}

impl<F: Fn(i32, String, String, String)> View for NotificationManager<F> {
    type V = RegistryView;

    closed spec fn view(&self) -> RegistryView {
        RegistryView {
            next_id: self.next_id as int,
            records: self.notifications@.map_values(|record: NotificationData| record@),
        }
    }
}

impl<F: Fn(i32, String, String, String)> NotificationManager<F> {
    /// The registry is in order: identifiers start at 1, every record
    /// sits under its own identifier, which was issued before, and the
    /// sink that is registered takes every notification.
    #[verifier::type_invariant]
    spec fn in_order(&self) -> bool {
        &&& 1 <= self.next_id
        &&& forall|id: i32| #[trigger]
            self.notifications@.contains_key(id) ==> 1 <= id < self.next_id
                && self.notifications@[id].id == id
        &&& self.callback matches Some(sink) ==> accepts_every_notification(sink)
    }

    /// The sink that is registered, if any.
    pub closed spec fn sink(&self) -> Option<F> {
        self.callback
    }

    /// An empty registry without a sink. The first identifier is 1.
    pub fn new() -> (manager: Self)
        ensures
            manager@ == RegistryView::initial(),
            manager@.wf(),
            manager.sink() is None,
    {
        let manager = NotificationManager { notifications: HashMap::new(), next_id: 1, callback: None };
        assert(manager@.records =~= Map::empty());
        manager
    }

    /// Registers `callback` as the sink, in place of an earlier one.
    pub fn set_callback(&mut self, callback: F)
        requires
            accepts_every_notification(callback),
        ensures
            final(self)@ == old(self)@,
            final(self).sink() == Some(callback),
    {
        proof {
            use_type_invariant(&*self);
        }
        self.callback = Some(callback);
    }

    /// The identifier that the next notification will get.
    pub fn next_id(&self) -> (id: i32)
        ensures
            id == self@.next_id,
            1 <= id,
    {
        proof {
            use_type_invariant(self);
        }
        self.next_id
    }

    /// The record that is stored under `id`, texts and all.
    pub closed spec fn stored(&self, id: i32) -> NotificationData {
        self.notifications@[id]
    }

    /// `post` is what `pre` becomes when `sent` is stored under the next
    /// identifier and the sink, if one is registered, is called with it.
    pub open spec fn delivered(pre: &Self, post: &Self, sent: NotificationData) -> bool {
        &&& post@.wf()
        &&& sent.id == pre@.next_id
        &&& post@ == pre@.send(sent.title@, sent.message@, sent.timestamp@, sent.priority)
        &&& post.stored(sent.id) == sent
        &&& post.sink() == pre.sink()
        &&& pre.sink() matches Some(sink) ==> call_ensures(
            sink,
            (sent.id, sent.title, sent.message, sent.timestamp),
            (),
        )
    }

    /// Stores a notification that carries the given timestamp, tells the
    /// sink of it, and returns its identifier.
    pub fn send_notification_stamped(
        &mut self,
        title: String,
        message: String,
        priority: NotificationPriority,
        timestamp: String,
    ) -> (id: i32)
        requires
            old(self)@.next_id < i32::MAX,
        ensures
            id == old(self)@.next_id,
            Self::delivered(
                old(self),
                final(self),
                (NotificationData { id, title, message, timestamp, priority }),
            ),
    {
        proof {
            use_type_invariant(&*self);
        }
        let id: i32 = self.next_id;
        let notification = NotificationData {
            id,
            title: title.clone(),
            message: message.clone(),
            timestamp: timestamp.clone(),
            priority,
        };
        // The records are taken out while they change, so that the
        // registry is in order at every moment in between.
        let mut records: HashMap<i32, NotificationData> = HashMap::new();
        std::mem::swap(&mut self.notifications, &mut records);
        records.insert(id, notification);
        self.next_id = id + 1;
        std::mem::swap(&mut self.notifications, &mut records);
        proof {
            use_type_invariant(&*self);
            assert(self@.records =~= old(self)@.send(title@, message@, timestamp@, priority).records);
            assert(self@.records.dom() =~= self.notifications@.dom());
        }
        match &self.callback {
            Some(sink) => {
                sink(id, title, message, timestamp);
            },
            None => {},
        }
        id
    }

    /// Stores a notification stamped with the current time, tells the
    /// sink of it, and returns its identifier. The timestamp is the text
    /// of the second that the wall clock gave.
    pub fn send_notification(
        &mut self,
        title: String,
        message: String,
        priority: NotificationPriority,
    ) -> (id: i32)
        requires
            old(self)@.next_id < i32::MAX,
        ensures
            id == old(self)@.next_id,
            Self::delivered(old(self), final(self), final(self).stored(id)),
            final(self).stored(id).title == title,
            final(self).stored(id).message == message,
            final(self).stored(id).priority == priority,
            exists|seconds: u64| final(self).stored(id).timestamp@ == #[trigger] timestamp_text(seconds),
    {
        let seconds: u64 = unix_seconds(system_clock());
        let stamp = format_timestamp(seconds);
        self.send_notification_stamped(title, message, priority, stamp)
    }

    /// Sends a notification of high priority that says which sensor went
    /// over its threshold. `value` and `threshold` come as the text they
    /// are to be shown as.
    pub fn send_sensor_alert(&mut self, sensor_name: &str, value: &str, threshold: &str)
        requires
            old(self)@.next_id < i32::MAX,
        ensures
            ({
                let sent = final(self).stored(old(self)@.next_id as i32);
                &&& Self::delivered(old(self), final(self), sent)
                &&& sent.title@ == alert_title(sensor_name@)
                &&& sent.message@ == alert_message(value@, threshold@)
                &&& sent.priority == NotificationPriority::High
                &&& exists|seconds: u64| sent.timestamp@ == #[trigger] timestamp_text(seconds)
            }),
    {
        let mut title = String::from_str("Sensor Alert: ");
        title.append(sensor_name);
        let mut message = String::from_str("Value ");
        message.append(value);
        message.append(" exceeded threshold ");
        message.append(threshold);
        self.send_notification(title, message, NotificationPriority::High);
    }

    /// Sends a notification of normal priority.
    pub fn send_system_notification(&mut self, title: String, message: String)
        requires
            old(self)@.next_id < i32::MAX,
        ensures
            ({
                let sent = final(self).stored(old(self)@.next_id as i32);
                &&& Self::delivered(old(self), final(self), sent)
                &&& sent.title == title
                &&& sent.message == message
                &&& sent.priority == NotificationPriority::Normal
                &&& exists|seconds: u64| sent.timestamp@ == #[trigger] timestamp_text(seconds)
            }),
    {
        self.send_notification(title, message, NotificationPriority::Normal);
    }

    /// The record stored under `id`, if there is one.
    pub fn get_notification(&self, id: i32) -> (found: Option<NotificationData>)
        ensures
            match found {
                Some(record) => self@.records.contains_key(id) && record@ == self@.records[id]
                    && record == self.stored(id),
                None => !self@.records.contains_key(id),
            },
    {
        match self.notifications.get(&id) {
            Some(record) => Some(record.clone()),
            None => None,
        }
    }

    /// Copies of all stored records, each once, in no particular order.
    pub fn get_all_notifications(&self) -> (all: Vec<NotificationData>)
        ensures
            all@.len() == self@.records.len(),
            forall|i: int|
                0 <= i < all@.len() ==> self@.records.contains_key(#[trigger] all@[i].id)
                    && self@.records[all@[i].id] == all@[i]@ && self.stored(all@[i].id) == all@[i],
            forall|id: i32| #[trigger]
                self@.records.contains_key(id) ==> exists|i: int|
                    0 <= i < all@.len() && #[trigger] all@[i].id == id,
    {
        proof {
            use_type_invariant(self);
        }
        let mut all: Vec<NotificationData> = Vec::new();
        let ghost stored = self.notifications@;
        let ghost walked = spec_values_iter(&self.notifications).remaining();
        for record in it: self.notifications.values()
            invariant
                it.seq() == walked,
                all@.len() == it.index(),
                forall|j: int| 0 <= j < all@.len() ==> #[trigger] all@[j] == *walked[j],
        {
            all.push(record.clone());
        }
        proof {
            assert(all@.len() == walked.len());
            assert(walked.unref().to_set() == stored.values());
            assert(self@.records.dom() =~= stored.dom());
            assert forall|i: int| 0 <= i < all@.len() implies self@.records.contains_key(
                #[trigger] all@[i].id,
            ) && self@.records[all@[i].id] == all@[i]@ && self.stored(all@[i].id) == all@[i] by {
                assert(walked.unref()[i] == all@[i]);
                assert(walked.unref().to_set().contains(all@[i]));
                let key = choose|key: i32| stored.contains_key(key) && stored[key] == all@[i];
                assert(self@.records.contains_key(key));
            }
            assert forall|id: i32| #[trigger] self@.records.contains_key(id) implies exists|i: int|
                0 <= i < all@.len() && #[trigger] all@[i].id == id by {
                assert(stored.values().contains(stored[id]));
                assert(walked.unref().to_set().contains(stored[id]));
                let i = choose|i: int| 0 <= i < walked.unref().len() && walked.unref()[i] == stored[id];
                assert(all@[i] == stored[id]);
                assert(self@.records.contains_key(id));
            }
        }
        all
    }

    /// Removes the record stored under `id`. Returns whether there was one.
    pub fn clear_notification(&mut self, id: i32) -> (removed: bool)
        ensures
            removed == old(self)@.records.contains_key(id),
            final(self)@ == old(self)@.clear(id),
            final(self)@.wf(),
            final(self).sink() == old(self).sink(),
    {
        proof {
            use_type_invariant(&*self);
        }
        // As in a send, the records are taken out while they change.
        let mut records: HashMap<i32, NotificationData> = HashMap::new();
        std::mem::swap(&mut self.notifications, &mut records);
        let removed = records.remove(&id).is_some();
        std::mem::swap(&mut self.notifications, &mut records);
        proof {
            use_type_invariant(&*self);
            assert(self@.records =~= old(self)@.clear(id).records);
            assert(self@.records.dom() =~= self.notifications@.dom());
        }
        removed
    }

    /// Removes every record. Identifiers that were issued stay used up.
    pub fn clear_all_notifications(&mut self)
        ensures
            final(self)@ == old(self)@.clear_all(),
            final(self)@.wf(),
            final(self).sink() == old(self).sink(),
    {
        proof {
            use_type_invariant(&*self);
        }
        // As in a send, the records are taken out while they change.
        let mut records: HashMap<i32, NotificationData> = HashMap::new();
        std::mem::swap(&mut self.notifications, &mut records);
        records.clear();
        std::mem::swap(&mut self.notifications, &mut records);
        assert(self@.records =~= Map::empty());
    }
}

/// The title of a sensor alert.
pub open spec fn alert_title(sensor_name: Seq<char>) -> Seq<char> {
    "Sensor Alert: "@ + sensor_name
}

/// The message of a sensor alert.
pub open spec fn alert_message(value: Seq<char>, threshold: Seq<char>) -> Seq<char> {
    "Value "@ + value + " exceeded threshold "@ + threshold
}

} // verus!
