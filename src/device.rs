//! The record of one remote device: it gathers pairing, connection, name and
//! the three characteristics, and holds a communicator only while all are there.

use vstd::prelude::*;

use crate::device_comm::{DeviceCommunicator, Outgoing, ds_step, outs_view, result_view};
use crate::parsers::{DecodeError, opt_view};

verus! {

/// Number of subscription attempts before a device is given up.
pub const SUBSCRIBE_MAX_ATTEMPTS: usize = 120;

/// Seconds between two subscription attempts.
pub const SUBSCRIBE_INTERVAL_SECS: u64 = 1;

pub ghost struct DeviceView {
    pub path: Seq<char>,
    pub paired: bool,
    pub connected: bool,
    pub name: Option<Seq<char>>,
    pub notification_source: Option<Seq<char>>,
    pub control_point: Option<Seq<char>>,
    pub data_source: Option<Seq<char>>,
    pub attached: bool,
}

/// Everything a communicator needs is there.
pub open spec fn ready(v: DeviceView) -> bool {
    &&& v.paired
    &&& v.connected
    &&& v.name is Some
    &&& v.notification_source is Some
    &&& v.control_point is Some
    &&& v.data_source is Some
}

/// What the caller does after a change of a device record.
pub struct Transition {
    /// Characteristics whose notifications to stop: the Notification Source
    /// and the Data Source of a communicator that was torn down, or none.
    pub stop_notify: Vec<String>,
    /// Start the subscription probe (through a task restarter).
    pub start_subscription: bool,
}

pub struct MobileDevice {
    path: String,
    communicator: Option<DeviceCommunicator>,
    paired: bool,
    connected: bool,
    name: Option<String>,
    notification_source: Option<String>,
    control_point: Option<String>,
    data_source: Option<String>,
}

impl View for MobileDevice {
    type V = DeviceView;

    closed spec fn view(&self) -> DeviceView {
        DeviceView {
            path: self.path@,
            paired: self.paired,
            connected: self.connected,
            name: opt_view(self.name),
            notification_source: opt_view(self.notification_source),
            control_point: opt_view(self.control_point),
            data_source: opt_view(self.data_source),
            attached: self.communicator is Some,
        }
    }
}

/// `post` is `pre` with the communicator gone, and `t` says what follows:
/// stop the notifications of a torn-down communicator, and subscribe again
/// exactly when the record is ready.
pub open spec fn transition_done(pre: DeviceView, post: DeviceView, t: Transition) -> bool {
    &&& !post.attached
    &&& (if pre.attached {
        t.stop_notify@.map_values(|s: String| s@) == seq![
            pre.notification_source->0,
            pre.data_source->0,
        ]
    } else {
        t.stop_notify@.len() == 0
    })
    &&& t.start_subscription == ready(post)
}

impl MobileDevice {
    pub closed spec fn comm(&self) -> Option<DeviceCommunicator> {
        self.communicator
    }

    /// A communicator is attached only while the record is ready, and it is well formed.
    pub open spec fn wf(&self) -> bool {
        &&& self@.attached ==> ready(self@)
        &&& self@.attached == self.comm() is Some
        &&& self.comm() matches Some(c) ==> c.wf()
    }

    pub fn new(path: String) -> (r: MobileDevice)
        ensures
            r.wf(),
            r@ == (DeviceView {
                path: path@,
                paired: false,
                connected: false,
                name: None,
                notification_source: None,
                control_point: None,
                data_source: None,
                attached: false,
            }),
    {
        MobileDevice {
            path,
            communicator: None,
            paired: false,
            connected: false,
            name: None,
            notification_source: None,
            control_point: None,
            data_source: None,
        }
    }

    pub fn path(&self) -> (r: &String)
        ensures
            r@ == self@.path,
    {
        &self.path
    }

    /// The Notification Source, Control Point and Data Source paths, once all are known.
    pub fn characteristics(&self) -> (r: Option<(String, String, String)>)
        ensures
            match r {
                Some((ns, cp, ds)) => self@.notification_source == Some(ns@) && self@.control_point
                    == Some(cp@) && self@.data_source == Some(ds@),
                None => self@.notification_source is None || self@.control_point is None
                    || self@.data_source is None,
            },
    {
        match (&self.notification_source, &self.control_point, &self.data_source) {
            (Some(ns), Some(cp), Some(ds)) => Some((ns.clone(), cp.clone(), ds.clone())),
            _ => None,
        }
    }

    /// Tears the communicator down, if any: gives the characteristics whose
    /// notifications to stop.
    fn unsubscribe(&mut self) -> (stop: Vec<String>)
        requires
            old(self).wf(),
        ensures
            final(self)@ == (DeviceView { attached: false, ..old(self)@ }),
            final(self).wf(),
            if old(self)@.attached {
                stop@.map_values(|s: String| s@) == seq![
                    old(self)@.notification_source->0,
                    old(self)@.data_source->0,
                ]
            } else {
                stop@.len() == 0
            },
    {
        let mut stop: Vec<String> = Vec::new();
        if self.communicator.is_some() {
            match (&self.notification_source, &self.data_source) {
                (Some(ns), Some(ds)) => {
                    stop.push(ns.clone());
                    stop.push(ds.clone());
                },
                _ => {},
            }
            assert(stop@.map_values(|s: String| s@) =~= seq![
                old(self)@.notification_source->0,
                old(self)@.data_source->0,
            ]);
        }
        self.communicator = None;
        stop
    }

    fn try_subscribe(&self) -> (r: bool)
        ensures
            r == ready(self@),
    {
        self.paired && self.connected && self.name.is_some() && self.notification_source.is_some()
            && self.control_point.is_some() && self.data_source.is_some()
    }

    pub fn set_notification_source(&mut self, path: String) -> (t: Transition)
        requires
            old(self).wf(),
        ensures
            final(self).wf(),
            final(self)@ == (DeviceView {
                notification_source: Some(path@),
                attached: false,
                ..old(self)@
            }),
            transition_done(old(self)@, final(self)@, t),
    {
        let stop_notify = self.unsubscribe();
        self.notification_source = Some(path);
        let start_subscription = self.try_subscribe();
        Transition { stop_notify, start_subscription }
    }

    pub fn set_control_point(&mut self, path: String) -> (t: Transition)
        requires
            old(self).wf(),
        ensures
            final(self).wf(),
            final(self)@ == (DeviceView { control_point: Some(path@), attached: false, ..old(self)@ }),
            transition_done(old(self)@, final(self)@, t),
    {
        let stop_notify = self.unsubscribe();
        self.control_point = Some(path);
        let start_subscription = self.try_subscribe();
        Transition { stop_notify, start_subscription }
    }

    pub fn set_data_source(&mut self, path: String) -> (t: Transition)
        requires
            old(self).wf(),
        ensures
            final(self).wf(),
            final(self)@ == (DeviceView { data_source: Some(path@), attached: false, ..old(self)@ }),
            transition_done(old(self)@, final(self)@, t),
    {
        let stop_notify = self.unsubscribe();
        self.data_source = Some(path);
        let start_subscription = self.try_subscribe();
        Transition { stop_notify, start_subscription }
    }

    pub fn set_paired(&mut self, paired: bool) -> (t: Transition)
        requires
            old(self).wf(),
        ensures
            final(self).wf(),
            final(self)@ == (DeviceView { paired, attached: false, ..old(self)@ }),
            transition_done(old(self)@, final(self)@, t),
    {
        let stop_notify = self.unsubscribe();
        self.paired = paired;
        let start_subscription = self.try_subscribe();
        Transition { stop_notify, start_subscription }
    }

    pub fn set_connected(&mut self, connected: bool) -> (t: Transition)
        requires
            old(self).wf(),
        ensures
            final(self).wf(),
            final(self)@ == (DeviceView { connected, attached: false, ..old(self)@ }),
            transition_done(old(self)@, final(self)@, t),
    {
        let stop_notify = self.unsubscribe();
        self.connected = connected;
        let start_subscription = self.try_subscribe();
        Transition { stop_notify, start_subscription }
    }

    pub fn set_name(&mut self, name: String) -> (t: Transition)
        requires
            old(self).wf(),
        ensures
            final(self).wf(),
            final(self)@ == (DeviceView { name: Some(name@), attached: false, ..old(self)@ }),
            transition_done(old(self)@, final(self)@, t),
    {
        let stop_notify = self.unsubscribe();
        self.name = Some(name);
        let start_subscription = self.try_subscribe();
        Transition { stop_notify, start_subscription }
    }

    /// Ends a successful subscription probe: attaches a communicator, with
    /// the id base `id_base`, where the record is still ready and has none.
    pub fn attach_communicator_with_id_base(&mut self, id_base: u32) -> (attached: bool)
        requires
            old(self).wf(),
            crate::device_comm::valid_id_base(id_base),
        ensures
            final(self).wf(),
            attached == (ready(old(self)@) && !old(self)@.attached),
            final(self)@ == (DeviceView { attached: old(self)@.attached || attached, ..old(self)@ }),
            attached ==> final(self).comm()->0.id_base() == id_base && final(self).comm()->0.queue_view().len() == 0
                && final(self).comm()->0.known_view().is_empty() && final(self).comm()->0.handle_view() == old(self)@.path
                && final(self).comm()->0.name_view() == old(self)@.name->0,
            !attached ==> final(self).comm() == old(self).comm(),
    {
        if !self.try_subscribe() || self.communicator.is_some() {
            return false;
        }
        let name = match &self.name {
            Some(n) => n.clone(),
            None => String::new(),
        };
        self.communicator = Some(DeviceCommunicator::with_id_base(self.path.clone(), name, id_base));
        true
    }

    /// Ends a successful subscription probe: attaches a communicator, with an
    /// id base drawn at random, where the record is still ready and has none.
    pub fn attach_communicator(&mut self) -> (attached: bool)
        requires
            old(self).wf(),
        ensures
            final(self).wf(),
            attached == (ready(old(self)@) && !old(self)@.attached),
            final(self)@ == (DeviceView { attached: old(self)@.attached || attached, ..old(self)@ }),
            !attached ==> final(self).comm() == old(self).comm(),
    {
        if !self.try_subscribe() || self.communicator.is_some() {
            return false;
        }
        let name = match &self.name {
            Some(n) => n.clone(),
            None => String::new(),
        };
        self.communicator = Some(DeviceCommunicator::new(self.path.clone(), name));
        true
    }

    /// The Control Point request for an action on the notification shown
    /// under `notification_id`; none without a communicator.
    pub fn handle_action(&self, notification_id: u32, is_positive: bool) -> (r: Option<Vec<u8>>)
        requires
            self.wf(),
        ensures
            match self.comm() {
                None => r is None,
                Some(c) => r is Some && r->0@ == crate::builders::action_request(
                    crate::device_comm::uid_of(c.id_base(), notification_id),
                    is_positive,
                ),
            },
    {
        match &self.communicator {
            Some(c) => Some(c.ask_for_action(notification_id, is_positive)),
            None => None,
        }
    }

    /// Hands a Notification Source update to the communicator, if any.
    pub fn on_ns_change(&self, value: &[u8]) -> (r: Option<Result<Vec<Outgoing>, DecodeError>>)
        requires
            self.wf(),
        ensures
            self.comm() is None ==> r is None,
            self.comm() is Some ==> r is Some && match crate::parsers::spec_parse_notification(value@) {
                Err(e) => r->0 == Err::<Vec<Outgoing>, DecodeError>(e),
                Ok(n) => r->0 is Ok && outs_view(r->0->Ok_0@) == crate::device_comm::ns_outputs(n),
            },
    {
        match &self.communicator {
            Some(c) => Some(c.on_ns_change(value)),
            None => None,
        }
    }

    /// Hands a Data Source update to the communicator, if any.
    pub fn on_ds_change(&mut self, value: &[u8]) -> (r: Option<Result<Vec<Outgoing>, DecodeError>>)
        requires
            old(self).wf(),
        ensures
            final(self).wf(),
            final(self)@ == old(self)@,
            old(self).comm() is None ==> r is None && final(self).comm() is None,
            old(self).comm() is Some ==> r is Some && final(self).comm() is Some && ds_step(
                old(self).comm()->0,
                value@,
                final(self).comm()->0,
                result_view(r->0),
            ),
    {
        match &mut self.communicator {
            Some(c) => Some(c.on_ds_change(value)),
            None => None,
        }
    }
}


/// A device record holds a communicator only while it is paired, connected,
/// named and knows all three characteristics; every method keeps this.
pub proof fn lemma_communicator_needs_ready(d: MobileDevice)
    requires
        d.wf(),
    ensures
        d.comm() is Some ==> d@.paired && d@.connected && d@.name is Some
            && d@.notification_source is Some && d@.control_point is Some
            && d@.data_source is Some,
{
}

} // verus!
