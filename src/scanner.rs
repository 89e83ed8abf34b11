//! The view of the Bluetooth stack's object graph: device records by path,
//! fed by managed objects and property changes. The caller reads the bus and
//! performs what the returned transitions name.

use vstd::prelude::*;
use vstd::utf8::{decode_utf8, encode_utf8, encode_utf8_decode_utf8, is_char_boundary};

use crate::constants::{CONTROL_POINT_CHAR, DATA_SOURCE_CHAR, NOTIFICATION_SOURCE_CHAR};
use crate::device::{DeviceView, MobileDevice, Transition, ready, transition_done};
use crate::device_comm::{
    ds_step, lemma_names_push, lemma_names_remove, names_set, names_unique, result_view,
};
use crate::parsers::opt_view;

verus! {

/// Interface name of a remote device.
pub const DEVICE_INTERFACE: &'static str = "org.bluez.Device1";

/// Interface name of a GATT characteristic.
pub const GATT_CHARACTERISTIC_INTERFACE: &'static str = "org.bluez.GattCharacteristic1";

/// `k` is the position of the last `/` byte of `b`.
pub open spec fn is_last_slash(b: Seq<u8>, k: int) -> bool {
    0 <= k < b.len() && b[k] == 47 && forall|j: int| k < j < b.len() ==> b[j] != 47
}

/// The object path before the last `/` of `p`; none without a `/`.
pub open spec fn spec_parent_path(p: Seq<char>) -> Option<Seq<char>> {
    let b = encode_utf8(p);
    if forall|j: int| 0 <= j < b.len() ==> b[j] != 47 {
        None
    } else {
        let k = choose|k: int| is_last_slash(b, k);
        if is_char_boundary(b, k) {
            Some(decode_utf8(b.subrange(0, k)))
        } else {
            None
        }
    }
}

fn last_slash(b: &[u8]) -> (r: Option<usize>)
    ensures
        match r {
            Some(k) => is_last_slash(b@, k as int),
            None => forall|j: int| 0 <= j < b@.len() ==> b@[j] != 47,
        },
{
    let mut i: usize = b.len();
    while i > 0
        invariant
            i <= b@.len(),
            forall|j: int| i <= j < b@.len() ==> b@[j] != 47,
        decreases i,
    {
        if b[i - 1] == 47 {
            return Some(i - 1);
        }
        i = i - 1;
    }
    None
}

/// The path of the object that holds the object at `path`.
pub fn parent_path(path: &String) -> (r: Option<String>)
    ensures
        opt_view(r) == spec_parent_path(path@),
{
    let s = path.as_str();
    let b = s.as_bytes();
    let k = match last_slash(b) {
        Some(k) => k,
        None => {
            return None;
        },
    };
    proof {
        let c = choose|c: int| is_last_slash(b@, c);
        assert(c == k as int) by {
            if c < k {
                assert(b@[k as int] != 47);
            } else if c > k {
                assert(b@[c] != 47);
            }
        }
    }
    if !s.is_char_boundary(k) {
        return None;
    }
    let (head, _) = s.split_at(k);
    let r = head.to_owned();
    proof {
        encode_utf8_decode_utf8(r@);
    }
    Some(r)
}


/// The record kept under path `p` in `s`.
pub open spec fn dev_in(s: Seq<MobileDevice>, p: Seq<char>) -> Option<DeviceView> {
    if exists|i: int| 0 <= i < s.len() && s[i]@.path == p {
        Some(s[choose|i: int| 0 <= i < s.len() && s[i]@.path == p]@)
    } else {
        None
    }
}

pub open spec fn paths_unique(s: Seq<MobileDevice>) -> bool {
    forall|i: int, j: int| 0 <= i < s.len() && 0 <= j < s.len() && i != j ==> s[i]@.path != s[j]@.path
}

/// A record just created for the device at `p`.
pub open spec fn fresh_device(p: Seq<char>) -> DeviceView {
    DeviceView {
        path: p,
        paired: false,
        connected: false,
        name: None,
        notification_source: None,
        control_point: None,
        data_source: None,
        attached: false,
    }
}

proof fn lemma_dev_at(s: Seq<MobileDevice>, i: int)
    requires
        paths_unique(s),
        0 <= i < s.len(),
    ensures
        dev_in(s, s[i]@.path) == Some(s[i]@),
{
    let p = s[i]@.path;
    assert(0 <= i < s.len() && s[i]@.path == p);
    let j = choose|j: int| 0 <= j < s.len() && s[j]@.path == p;
    assert(j == i);
}

proof fn lemma_dev_push(s: Seq<MobileDevice>, d: MobileDevice)
    requires
        paths_unique(s),
        dev_in(s, d@.path) is None,
    ensures
        paths_unique(s.push(d)),
        forall|p: Seq<char>| #[trigger] dev_in(s.push(d), p) == if p == d@.path {
            Some(d@)
        } else {
            dev_in(s, p)
        },
{
    let t = s.push(d);
    assert forall|i: int, j: int| 0 <= i < t.len() && 0 <= j < t.len() && i != j implies t[i]@.path
        != t[j]@.path by {
        if i == s.len() {
            assert(!(0 <= j < s.len() && s[j]@.path == d@.path));
        } else if j == s.len() {
            assert(!(0 <= i < s.len() && s[i]@.path == d@.path));
        } else {
            assert(t[i] == s[i] && t[j] == s[j]);
        }
    }
    assert forall|p: Seq<char>| #[trigger] dev_in(t, p) == if p == d@.path {
        Some(d@)
    } else {
        dev_in(s, p)
    } by {
        if p == d@.path {
            lemma_dev_at(t, s.len() as int);
        } else if exists|i: int| 0 <= i < s.len() && s[i]@.path == p {
            let i = choose|i: int| 0 <= i < s.len() && s[i]@.path == p;
            lemma_dev_at(s, i);
            assert(t[i] == s[i]);
            lemma_dev_at(t, i);
        } else {
            if exists|i: int| 0 <= i < t.len() && t[i]@.path == p {
                let i = choose|i: int| 0 <= i < t.len() && t[i]@.path == p;
                assert(t[i] == s[i]);
            }
        }
    }
}

proof fn lemma_dev_remove(s: Seq<MobileDevice>, r: int)
    requires
        paths_unique(s),
        0 <= r < s.len(),
    ensures
        paths_unique(s.remove(r)),
        forall|p: Seq<char>| #[trigger] dev_in(s.remove(r), p) == if p == s[r]@.path {
            None
        } else {
            dev_in(s, p)
        },
{
    let t = s.remove(r);
    assert forall|i: int, j: int| 0 <= i < t.len() && 0 <= j < t.len() && i != j implies t[i]@.path
        != t[j]@.path by {
        let i1 = if i < r { i } else { i + 1 };
        let j1 = if j < r { j } else { j + 1 };
        assert(t[i] == s[i1] && t[j] == s[j1]);
    }
    assert forall|p: Seq<char>| #[trigger] dev_in(t, p) == if p == s[r]@.path {
        None
    } else {
        dev_in(s, p)
    } by {
        if exists|i: int| 0 <= i < t.len() && t[i]@.path == p {
            let i = choose|i: int| 0 <= i < t.len() && t[i]@.path == p;
            let i1 = if i < r { i } else { i + 1 };
            assert(t[i] == s[i1]);
            lemma_dev_at(s, i1);
            lemma_dev_at(t, i);
        } else if (exists|i: int| 0 <= i < s.len() && s[i]@.path == p) && p != s[r]@.path {
            let i = choose|i: int| 0 <= i < s.len() && s[i]@.path == p;
            let i1 = if i < r { i } else { i - 1 };
            assert(t[i1] == s[i]);
        }
    }
}

/// Device properties present in a change set, or in an object's description.
#[derive(Debug, Clone, PartialEq, Eq)]
pub struct DeviceProperties {
    pub paired: Option<bool>,
    pub connected: Option<bool>,
    pub alias: Option<String>,
}

pub ghost struct PropsView {
    pub paired: Option<bool>,
    pub connected: Option<bool>,
    pub alias: Option<Seq<char>>,
}

impl View for DeviceProperties {
    type V = PropsView;

    open spec fn view(&self) -> PropsView {
        PropsView { paired: self.paired, connected: self.connected, alias: opt_view(self.alias) }
    }
}

pub open spec fn changes_any(c: PropsView) -> bool {
    c.paired is Some || c.connected is Some || c.alias is Some
}

/// A record after the changes `c`: pairing, connection and name (from the
/// alias) where present; any change tears the communicator down.
pub open spec fn apply_props(v: DeviceView, c: PropsView) -> DeviceView {
    DeviceView {
        paired: match c.paired {
            Some(b) => b,
            None => v.paired,
        },
        connected: match c.connected {
            Some(b) => b,
            None => v.connected,
        },
        name: match c.alias {
            Some(n) => Some(n),
            None => v.name,
        },
        attached: if changes_any(c) {
            false
        } else {
            v.attached
        },
        ..v
    }
}

/// What the caller does for the record at `device_path`.
pub struct DeviceEvent {
    pub device_path: String,
    pub transition: Transition,
}

/// What the caller does after one managed object was processed.
pub struct ScanOutcome {
    /// Start observing property changes of the device at this path.
    pub observe: Option<String>,
    /// The record changed by the device's properties.
    pub device_event: Option<DeviceEvent>,
    /// The record changed by a notification-service characteristic.
    pub characteristic_event: Option<DeviceEvent>,
}

/// A managed object of the Bluetooth stack, as far as the scanner needs it.
#[derive(Debug, Clone, PartialEq, Eq)]
pub struct ObjectInfo {
    pub path: String,
    /// The device interface's properties, where the object is a device.
    pub device: Option<DeviceProperties>,
    /// The characteristic's UUID, where the object is a GATT characteristic.
    pub characteristic_uuid: Option<String>,
}

/// Which slot a characteristic UUID fills: 0 for the Notification Source,
/// 1 for the Control Point, 2 for the Data Source.
pub open spec fn char_slot(uuid: Seq<char>) -> Option<int> {
    if uuid == NOTIFICATION_SOURCE_CHAR@ {
        Some(0)
    } else if uuid == CONTROL_POINT_CHAR@ {
        Some(1)
    } else if uuid == DATA_SOURCE_CHAR@ {
        Some(2)
    } else {
        None
    }
}

/// A record with characteristic `path` in `slot`, the communicator torn down.
pub open spec fn with_slot(v: DeviceView, slot: int, path: Seq<char>) -> DeviceView {
    if slot == 0 {
        DeviceView { notification_source: Some(path), attached: false, ..v }
    } else if slot == 1 {
        DeviceView { control_point: Some(path), attached: false, ..v }
    } else {
        DeviceView { data_source: Some(path), attached: false, ..v }
    }
}

pub struct Scanner {
    devices: Vec<MobileDevice>,
    property_observers: Vec<String>,
}

impl Scanner {
    pub closed spec fn devices(&self) -> Seq<MobileDevice> {
        self.devices@
    }

    /// Paths of the devices whose properties are observed.
    pub closed spec fn observers(&self) -> Set<Seq<char>> {
        names_set(self.property_observers@)
    }

    pub closed spec fn observers_unique(&self) -> bool {
        names_unique(self.property_observers@)
    }

    /// The record of the device at `p`.
    pub open spec fn device(&self, p: Seq<char>) -> Option<DeviceView> {
        dev_in(self.devices(), p)
    }

    pub open spec fn device_or_fresh(&self, p: Seq<char>) -> DeviceView {
        match self.device(p) {
            Some(v) => v,
            None => fresh_device(p),
        }
    }

    pub open spec fn wf(&self) -> bool {
        &&& paths_unique(self.devices())
        &&& forall|i: int| 0 <= i < self.devices().len() ==> (#[trigger] self.devices()[i]).wf()
        &&& self.observers_unique()
    }

    pub fn new() -> (r: Scanner)
        ensures
            r.wf(),
            forall|p: Seq<char>| #[trigger] r.device(p) is None,
            r.observers().is_empty(),
    {
        let r = Scanner { devices: Vec::new(), property_observers: Vec::new() };
        assert(r.observers() =~= Set::empty());
        r
    }

    fn find(&self, path: &String) -> (r: Option<usize>)
        requires
            self.wf(),
        ensures
            match r {
                Some(i) => i < self.devices().len() && self.devices()[i as int]@.path == path@
                    && self.device(path@) == Some(self.devices()[i as int]@),
                None => self.device(path@) is None,
            },
    {
        let mut i: usize = 0;
        while i < self.devices.len()
            invariant
                self.wf(),
                i <= self.devices().len(),
                forall|j: int| 0 <= j < i ==> self.devices()[j]@.path != path@,
            decreases self.devices().len() - i,
        {
            if *self.devices[i].path() == *path {
                proof {
                    lemma_dev_at(self.devices(), i as int);
                }
                return Some(i);
            }
            i = i + 1;
        }
        None
    }

    /// Takes the record of the device at `path` out, or makes a new one.
    fn take_device(&mut self, path: &String) -> (d: MobileDevice)
        requires
            old(self).wf(),
        ensures
            final(self).wf(),
            d.wf(),
            d@ == old(self).device_or_fresh(path@),
            old(self).device(path@) is Some ==> exists|i: int|
                0 <= i < old(self).devices().len() && old(self).devices()[i] == d && d@.path == path@,
            final(self).device(path@) is None,
            forall|p: Seq<char>| p != path@ ==> #[trigger] final(self).device(p) == old(self).device(p),
            final(self).observers() == old(self).observers(),
    {
        match self.find(path) {
            Some(i) => {
                let ghost s0 = self.devices@;
                proof {
                    lemma_dev_remove(s0, i as int);
                }
                let d = self.devices.remove(i);
                assert forall|k: int| 0 <= k < self.devices().len() implies (#[trigger] self.devices()[k]).wf() by {
                    let k1 = if k < i { k } else { k + 1 };
                    assert(self.devices()[k] == s0[k1]);
                }
                d
            },
            None => MobileDevice::new(path.clone()),
        }
    }

    /// Puts a record back.
    fn put_device(&mut self, d: MobileDevice)
        requires
            old(self).wf(),
            d.wf(),
            old(self).device(d@.path) is None,
        ensures
            final(self).wf(),
            final(self).device(d@.path) == Some(d@),
            exists|j: int| 0 <= j < final(self).devices().len() && final(self).devices()[j] == d,
            forall|p: Seq<char>| p != d@.path ==> #[trigger] final(self).device(p) == old(self).device(p),
            final(self).observers() == old(self).observers(),
    {
        proof {
            lemma_dev_push(self.devices@, d);
        }
        self.devices.push(d);
        assert(self.devices()[self.devices().len() - 1] == d);
    }
}


/// No change: nothing to stop, nothing to start.
pub open spec fn idle_transition(t: Transition) -> bool {
    t.stop_notify@.len() == 0 && !t.start_subscription
}

/// `post` is `pre` with the record at `path` given the changes `c` (made if
/// missing), and `t` is what follows for it.
pub open spec fn property_outcome(pre: Scanner, path: Seq<char>, c: PropsView, post: Scanner, t: Transition) -> bool {
    &&& records_after_props(pre, path, c, post, t)
    &&& post.observers() == pre.observers()
}

/// The records part of a property change.
pub open spec fn records_after_props(pre: Scanner, path: Seq<char>, c: PropsView, post: Scanner, t: Transition) -> bool {
    &&& post.device(path) == Some(apply_props(pre.device_or_fresh(path), c))
    &&& forall|p: Seq<char>| p != path ==> #[trigger] post.device(p) == pre.device(p)
    &&& if changes_any(c) {
        transition_done(pre.device_or_fresh(path), post.device(path)->0, t)
    } else {
        idle_transition(t)
    }
}

/// The device part of processing object `obj`: a device whose properties are
/// not observed yet becomes observed, and its properties are applied.
pub open spec fn device_part_outcome(
    pre: Scanner,
    obj: ObjectInfo,
    post: Scanner,
    observe: Option<Seq<char>>,
    ev: Option<(Seq<char>, Transition)>,
) -> bool {
    match obj.device {
        Some(props) => if !pre.observers().contains(obj.path@) {
            &&& post.observers() == pre.observers().insert(obj.path@)
            &&& observe == Some(obj.path@)
            &&& ev matches Some((dp, t)) && dp == obj.path@ && records_after_props(pre, obj.path@, props@, post, t)
        } else {
            post.devices() == pre.devices() && post.observers() == pre.observers() && observe is None && ev is None
        },
        None => post.devices() == pre.devices() && post.observers() == pre.observers() && observe is None
            && ev is None,
    }
}

/// `post` is `pre` with the characteristic at `path` of UUID `uuid` given to
/// the record of the object that holds it, and `r` is what follows; a UUID
/// of another service, or a path without parent, changes nothing.
pub open spec fn characteristic_outcome(
    pre: Scanner,
    path: Seq<char>,
    uuid: Seq<char>,
    post: Scanner,
    r: Option<(Seq<char>, Transition)>,
) -> bool {
    match (char_slot(uuid), spec_parent_path(path)) {
        (Some(slot), Some(parent)) => {
            &&& post.device(parent) == Some(with_slot(pre.device_or_fresh(parent), slot, path))
            &&& forall|p: Seq<char>| p != parent ==> #[trigger] post.device(p) == pre.device(p)
            &&& post.observers() == pre.observers()
            &&& r matches Some((dp, t)) && dp == parent && transition_done(
                pre.device_or_fresh(parent),
                post.device(parent)->0,
                t,
            )
        },
        _ => r is None && post.devices() == pre.devices() && post.observers() == pre.observers(),
    }
}

/// What processing object `obj` makes of `pre`, with the outcome `r`: first
/// the device part, then the characteristic part.
pub open spec fn object_outcome(pre: Scanner, obj: ObjectInfo, post: Scanner, r: ScanOutcome) -> bool {
    exists|mid: Scanner| {
        &&& device_part_outcome(pre, obj, mid, opt_view(r.observe), event_view(r.device_event))
        &&& match obj.characteristic_uuid {
            Some(u) => characteristic_outcome(mid, obj.path@, u@, post, event_view(r.characteristic_event)),
            None => r.characteristic_event is None && post.devices() == mid.devices()
                && post.observers() == mid.observers(),
        }
    }
}

pub open spec fn event_view(e: Option<DeviceEvent>) -> Option<(Seq<char>, Transition)> {
    match e {
        Some(e) => Some((e.device_path@, e.transition)),
        None => None,
    }
}

impl Scanner {
    /// Applies a property change of the device at `device_path`, where it is
    /// one of the device interface; a change of any other interface is ignored.
    pub fn process_property(&mut self, device_path: &String, interface: &String, changes: &DeviceProperties) -> (t: Transition)
        requires
            old(self).wf(),
        ensures
            final(self).wf(),
            interface@ != DEVICE_INTERFACE@ ==> idle_transition(t) && final(self).devices() == old(self).devices()
                && final(self).observers() == old(self).observers(),
            interface@ == DEVICE_INTERFACE@ ==> property_outcome(*old(self), device_path@, changes@, *final(self), t),
    {
        let device_interface = DEVICE_INTERFACE.to_owned();
        if *interface != device_interface {
            return Transition { stop_notify: Vec::new(), start_subscription: false };
        }
        let mut d = self.take_device(device_path);
        let ghost v0 = d@;
        let mut stop_notify: Vec<String> = Vec::new();
        let mut start_subscription = false;
        let mut first = true;
        match changes.paired {
            Some(b) => {
                let t = d.set_paired(b);
                stop_notify = t.stop_notify;
                start_subscription = t.start_subscription;
                first = false;
            },
            None => {},
        }
        match changes.connected {
            Some(b) => {
                let t = d.set_connected(b);
                if first {
                    stop_notify = t.stop_notify;
                }
                start_subscription = t.start_subscription;
                first = false;
            },
            None => {},
        }
        match &changes.alias {
            Some(n) => {
                let t = d.set_name(n.clone());
                if first {
                    stop_notify = t.stop_notify;
                }
                start_subscription = t.start_subscription;
            },
            None => {},
        }
        assert(d@ == apply_props(v0, changes@));
        self.put_device(d);
        Transition { stop_notify, start_subscription }
    }

    /// Gives a characteristic of the notification service to the record of the
    /// object that holds it.
    pub fn process_characteristic(&mut self, path: &String, uuid: &String) -> (r: Option<DeviceEvent>)
        requires
            old(self).wf(),
        ensures
            final(self).wf(),
            characteristic_outcome(*old(self), path@, uuid@, *final(self), event_view(r)),
    {
        let ns = NOTIFICATION_SOURCE_CHAR.to_owned();
        let cp = CONTROL_POINT_CHAR.to_owned();
        let ds = DATA_SOURCE_CHAR.to_owned();
        let slot: u8 = if *uuid == ns {
            0
        } else if *uuid == cp {
            1
        } else if *uuid == ds {
            2
        } else {
            return None;
        };
        let parent = match parent_path(path) {
            Some(p) => p,
            None => {
                return None;
            },
        };
        let mut d = self.take_device(&parent);
        let transition = if slot == 0 {
            d.set_notification_source(path.clone())
        } else if slot == 1 {
            d.set_control_point(path.clone())
        } else {
            d.set_data_source(path.clone())
        };
        self.put_device(d);
        Some(DeviceEvent { device_path: parent, transition })
    }

    /// Processes one managed object: a device not yet observed is observed
    /// and its properties applied; then a characteristic of the notification
    /// service is given to its holder's record.
    pub fn process_object(&mut self, obj: &ObjectInfo) -> (r: ScanOutcome)
        requires
            old(self).wf(),
        ensures
            final(self).wf(),
            object_outcome(*old(self), *obj, *final(self), r),
    {
        let mut observe: Option<String> = None;
        let mut device_event: Option<DeviceEvent> = None;
        match &obj.device {
            Some(props) => {
                let mut known = false;
                let mut i: usize = 0;
                while i < self.property_observers.len()
                    invariant
                        i <= self.property_observers@.len(),
                        known == (exists|j: int| 0 <= j < i && self.property_observers@[j]@ == obj.path@),
                    decreases self.property_observers@.len() - i,
                {
                    if self.property_observers[i] == obj.path {
                        known = true;
                    }
                    i = i + 1;
                }
                assert(known == self.observers().contains(obj.path@));
                if !known {
                    proof {
                        lemma_names_push(self.property_observers@, obj.path);
                    }
                    self.property_observers.push(obj.path.clone());
                    let ghost pushed = *self;
                    assert(pushed.devices() == old(self).devices());
                    assert(pushed.observers() == old(self).observers().insert(obj.path@));
                    let transition = self.process_property(&obj.path, &DEVICE_INTERFACE.to_owned(), props);
                    observe = Some(obj.path.clone());
                    device_event = Some(DeviceEvent { device_path: obj.path.clone(), transition });
                }
            },
            None => {},
        }
        let ghost mid = *self;
        let characteristic_event = match &obj.characteristic_uuid {
            Some(u) => self.process_characteristic(&obj.path, u),
            None => None,
        };
        let r = ScanOutcome { observe, device_event, characteristic_event };
        assert(device_part_outcome(*old(self), *obj, mid, opt_view(r.observe), event_view(r.device_event)));
        r
    }
}


impl Scanner {
    /// Processes the objects found at startup, in order.
    pub fn process_objects(&mut self, objs: &Vec<ObjectInfo>) -> (r: Vec<ScanOutcome>)
        requires
            old(self).wf(),
        ensures
            final(self).wf(),
            r@.len() == objs@.len(),
            exists|states: Seq<Scanner>| {
                &&& states.len() == objs@.len() + 1
                &&& states[0] == *old(self)
                &&& states.last() == *final(self)
                &&& forall|k: int| 0 <= k < objs@.len() ==> object_outcome(#[trigger] states[k], objs@[k], states[k + 1], r@[k])
            },
    {
        let mut r: Vec<ScanOutcome> = Vec::new();
        let ghost mut states: Seq<Scanner> = seq![*self];
        let mut i: usize = 0;
        while i < objs.len()
            invariant
                self.wf(),
                i <= objs@.len(),
                r@.len() == i,
                states.len() == i + 1,
                states[0] == *old(self),
                states.last() == *self,
                forall|k: int| 0 <= k < i ==> object_outcome(#[trigger] states[k], objs@[k], states[k + 1], r@[k]),
            decreases objs@.len() - i,
        {
            let ghost before = *self;
            let o = self.process_object(&objs[i]);
            proof {
                let prev = states;
                states = states.push(*self);
                assert forall|k: int| 0 <= k < i + 1 implies object_outcome(#[trigger] states[k], objs@[k], states[k + 1], r@.push(o)[k]) by {
                    if k < i {
                        assert(states[k] == prev[k] && states[k + 1] == prev[k + 1]);
                        assert(r@.push(o)[k] == r@[k]);
                    } else {
                        assert(states[k] == before);
                    }
                }
            }
            r.push(o);
            i = i + 1;
        }
        r
    }

    /// Stops observing the properties of the object at `path`: whether it was observed.
    pub fn remove_observers(&mut self, path: &String) -> (r: bool)
        requires
            old(self).wf(),
        ensures
            final(self).wf(),
            r == old(self).observers().contains(path@),
            final(self).observers() == old(self).observers().remove(path@),
            final(self).devices() == old(self).devices(),
    {
        let mut i: usize = 0;
        while i < self.property_observers.len()
            invariant
                self.wf(),
                *self == *old(self),
                i <= self.property_observers@.len(),
                forall|j: int| 0 <= j < i ==> self.property_observers@[j]@ != path@,
            decreases self.property_observers@.len() - i,
        {
            if self.property_observers[i] == *path {
                proof {
                    lemma_names_remove(self.property_observers@, i as int);
                }
                self.property_observers.remove(i);
                return true;
            }
            i = i + 1;
        }
        assert(!self.observers().contains(path@));
        assert(self.observers() =~= old(self).observers().remove(path@));
        false
    }

    /// The Control Point request for an action on notification
    /// `notification_id` of the device at `device_path`; none where that
    /// device has no communicator.
    pub fn handle_action(&self, device_path: &String, notification_id: u32, is_positive: bool) -> (r: Option<Vec<u8>>)
        requires
            self.wf(),
        ensures
            r is Some <==> (self.device(device_path@) matches Some(v) && v.attached),
            r matches Some(b) ==> exists|i: int|
                0 <= i < self.devices().len() && self.devices()[i]@.path == device_path@ && (
                self.devices()[i].comm() matches Some(c) && b@ == crate::builders::action_request(
                    crate::device_comm::uid_of(c.id_base(), notification_id),
                    is_positive,
                )),
    {
        match self.find(device_path) {
            Some(i) => {
                assert(self.devices()[i as int].wf());
                self.devices[i].handle_action(notification_id, is_positive)
            },
            None => None,
        }
    }

    /// Attaches a communicator to the device at `device_path` after a
    /// successful subscription, where its record is still ready and has none.
    pub fn attach_communicator(&mut self, device_path: &String) -> (attached: bool)
        requires
            old(self).wf(),
        ensures
            final(self).wf(),
            attached == (old(self).device(device_path@) matches Some(v) && ready(v) && !v.attached),
            final(self).observers() == old(self).observers(),
            forall|p: Seq<char>| p != device_path@ ==> #[trigger] final(self).device(p) == old(self).device(p),
            old(self).device(device_path@) matches Some(v) ==> final(self).device(device_path@) == Some(
                DeviceView { attached: v.attached || attached, ..v },
            ),
            old(self).device(device_path@) is None ==> final(self).device(device_path@) is None,
    {
        match self.find(device_path) {
            Some(_) => {
                let mut d = self.take_device(device_path);
                let attached = d.attach_communicator();
                self.put_device(d);
                attached
            },
            None => false,
        }
    }

    /// Hands a Notification Source update to the communicator of the device at `device_path`.
    pub fn on_ns_change(&self, device_path: &String, value: &[u8]) -> (r: Option<
        Result<Vec<crate::device_comm::Outgoing>, crate::parsers::DecodeError>,
    >)
        requires
            self.wf(),
        ensures
            r is Some <==> (self.device(device_path@) matches Some(v) && v.attached),
            r matches Some(res) ==> match crate::parsers::spec_parse_notification(value@) {
                Err(e) => res == Err::<Vec<crate::device_comm::Outgoing>, crate::parsers::DecodeError>(e),
                Ok(n) => res is Ok && crate::device_comm::outs_view(res->Ok_0@) == crate::device_comm::ns_outputs(n),
            },
    {
        match self.find(device_path) {
            Some(i) => {
                assert(self.devices()[i as int].wf());
                self.devices[i].on_ns_change(value)
            },
            None => None,
        }
    }

    /// Hands a Data Source update to the communicator of the device at `device_path`.
    pub fn on_ds_change(&mut self, device_path: &String, value: &[u8]) -> (r: Option<
        Result<Vec<crate::device_comm::Outgoing>, crate::parsers::DecodeError>,
    >)
        requires
            old(self).wf(),
        ensures
            final(self).wf(),
            r is Some <==> (old(self).device(device_path@) matches Some(v) && v.attached),
            forall|p: Seq<char>| #[trigger] final(self).device(p) == old(self).device(p),
            final(self).observers() == old(self).observers(),
            r matches Some(res) ==> exists|i: int, j: int|
                0 <= i < old(self).devices().len() && 0 <= j < final(self).devices().len()
                    && old(self).devices()[i]@.path == device_path@ && final(self).devices()[j]@.path
                    == device_path@ && old(self).devices()[i].comm() is Some
                    && final(self).devices()[j].comm() is Some && ds_step(
                    old(self).devices()[i].comm()->0,
                    value@,
                    final(self).devices()[j].comm()->0,
                    result_view(res),
                ),
    {
        match self.find(device_path) {
            Some(_) => {
                let mut d = self.take_device(device_path);
                let r = d.on_ds_change(value);
                self.put_device(d);
                r
            },
            None => None,
        }
    }
}


impl Scanner {
    /// The characteristic paths of the device at `device_path`, once all are known.
    pub fn characteristics_of(&self, device_path: &String) -> (r: Option<(String, String, String)>)
        requires
            self.wf(),
        ensures
            match self.device(device_path@) {
                None => r is None,
                Some(v) => match r {
                    Some((ns, cp, ds)) => v.notification_source == Some(ns@) && v.control_point
                        == Some(cp@) && v.data_source == Some(ds@),
                    None => v.notification_source is None || v.control_point is None
                        || v.data_source is None,
                },
            },
    {
        match self.find(device_path) {
            Some(i) => self.devices[i].characteristics(),
            None => None,
        }
    }
}

} // verus!
