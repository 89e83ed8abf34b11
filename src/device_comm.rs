//! The conversation with one connected phone: Notification Source events in,
//! Control Point requests and desktop notifications out.

use rand::Rng;
use vstd::prelude::*;

use crate::apis::{ShowNotificationData, ShowNotificationView};
use crate::builders::{
    GetAppAttributes, GetNotificationAttributes, PerformNotificationAction, action_request,
    app_attributes_request, notification_attributes_request,
};
use crate::constants::{
    CommandID, EventID, FLAG_NEGATIVE_ACTION, FLAG_POSITIVE_ACTION, FLAG_PRE_EXISTING,
};
use crate::parsers::{
    AppAttributes, AppAttributesView, DataSourceEvent, DecodeError, Notification,
    NotificationAttributes, NotificationAttributesView, spec_parse_app_attributes,
    spec_parse_data_source, spec_parse_notification, spec_parse_notification_attributes,
};

verus! {

/// Host ids of one phone start at a multiple of this step.
pub const ID_BASE_STEP: u32 = 1000;

/// Number of multiples of the step that an id base is drawn from (from 1 up).
pub const ID_BASE_SLOTS: u32 = 100000;

/// The size of the host id space.
pub open spec fn id_space() -> int {
    4294967296
}

/// The host id under which notification `uid` of a phone with base `base` is shown.
pub open spec fn host_id_of(base: u32, uid: u32) -> u32 {
    ((base as int + uid as int) % id_space()) as u32
}

/// The phone's uid of the notification shown under host id `host`.
pub open spec fn uid_of(base: u32, host: u32) -> u32 {
    ((host as int - base as int) % id_space()) as u32
}

/// Whether `base` is an id base that a communicator may hold.
pub open spec fn valid_id_base(base: u32) -> bool {
    1000 <= base < 100000 * 1000
}

/// What the engine sends out.
#[derive(Debug, Clone, PartialEq, Eq)]
pub enum Outgoing {
    /// Write these bytes to the Control Point.
    ControlPoint(Vec<u8>),
    /// Show this notification on the desktop.
    Show(ShowNotificationData),
    /// Take down the notification with this uid.
    Dismiss(u32),
}

pub ghost enum OutgoingView {
    ControlPoint(Seq<u8>),
    Show(ShowNotificationView),
    Dismiss(u32),
}

impl View for Outgoing {
    type V = OutgoingView;

    open spec fn view(&self) -> OutgoingView {
        match self {
            Outgoing::ControlPoint(b) => OutgoingView::ControlPoint(b@),
            Outgoing::Show(d) => OutgoingView::Show(d@),
            Outgoing::Dismiss(id) => OutgoingView::Dismiss(*id),
        }
    }
}

pub open spec fn outs_view(v: Seq<Outgoing>) -> Seq<OutgoingView> {
    v.map_values(|o: Outgoing| o@)
}

pub open spec fn with_app_name(e: ShowNotificationView, name: Seq<char>) -> ShowNotificationView {
    ShowNotificationView { app_name: name, ..e }
}

/// One pass of the queue pump over `q`, in order: an entry whose application
/// name is known is shown and leaves the queue; one whose name was asked for
/// stays; for any other the name is asked for, once, and the entry stays.
/// Gives the entries that stay, the names asked for, and what is sent.
pub open spec fn pump(q: Seq<ShowNotificationView>, known: Map<Seq<char>, Seq<char>>, awaiting: Set<Seq<char>>) -> (
    Seq<ShowNotificationView>,
    Set<Seq<char>>,
    Seq<OutgoingView>,
)
    decreases q.len(),
{
    if q.len() == 0 {
        (Seq::empty(), awaiting, Seq::empty())
    } else {
        let (kept, aw, outs) = pump(q.drop_last(), known, awaiting);
        let e = q.last();
        if known.contains_key(e.app_id) {
            (kept, aw, outs.push(OutgoingView::Show(with_app_name(e, known[e.app_id]))))
        } else if aw.contains(e.app_id) {
            (kept.push(e), aw, outs)
        } else {
            (
                kept.push(e),
                aw.insert(e.app_id),
                outs.push(OutgoingView::ControlPoint(app_attributes_request(e.app_id))),
            )
        }
    }
}

/// What a Notification Source event calls for: a removal, or the arrival of a
/// notification that existed before the connection, is dismissed; any other
/// event asks for the notification's attributes, with the action labels that
/// its flags announce.
pub open spec fn ns_outputs(n: Notification) -> Seq<OutgoingView> {
    if n.event_id == EventID::NotificationRemoved || (n.event_id == EventID::NotificationAdded
        && n.event_flags.spec_contains(FLAG_PRE_EXISTING)) {
        seq![OutgoingView::Dismiss(n.id)]
    } else {
        seq![
            OutgoingView::ControlPoint(
                notification_attributes_request(
                    n.id,
                    n.event_flags.spec_contains(FLAG_POSITIVE_ACTION),
                    n.event_flags.spec_contains(FLAG_NEGATIVE_ACTION),
                ),
            ),
        ]
    }
}

/// The queue entry made from the attributes of a notification.
pub open spec fn entry_of(
    handle: Seq<char>,
    name: Seq<char>,
    base: u32,
    a: NotificationAttributesView,
) -> ShowNotificationView {
    ShowNotificationView {
        device_name: name,
        device_handle: handle,
        app_id: a.app_id,
        app_name: Seq::empty(),
        id: host_id_of(base, a.id),
        title: a.title,
        body: a.message,
        positive_action: a.positive_action,
        negative_action: a.negative_action,
    }
}

/// The texts held in `s`, as a set.
pub open spec fn names_set(s: Seq<String>) -> Set<Seq<char>> {
    Set::new(|k: Seq<char>| exists|i: int| 0 <= i < s.len() && s[i]@ == k)
}

pub open spec fn names_unique(s: Seq<String>) -> bool {
    forall|i: int, j: int| 0 <= i < s.len() && 0 <= j < s.len() && i != j ==> s[i]@ != s[j]@
}

pub proof fn lemma_names_push(s: Seq<String>, x: String)
    requires
        names_unique(s),
        !names_set(s).contains(x@),
    ensures
        names_set(s.push(x)) == names_set(s).insert(x@),
        names_unique(s.push(x)),
{
    let t = s.push(x);
    assert forall|k: Seq<char>| names_set(t).contains(k) == names_set(s).insert(x@).contains(k) by {
        if names_set(s).contains(k) {
            let i = choose|i: int| 0 <= i < s.len() && s[i]@ == k;
            assert(t[i]@ == k);
        }
        if k == x@ {
            assert(t[s.len() as int]@ == k);
        }
        if names_set(t).contains(k) {
            let i = choose|i: int| 0 <= i < t.len() && t[i]@ == k;
            if i < s.len() {
                assert(s[i]@ == k);
            }
        }
    }
    assert(names_set(t) =~= names_set(s).insert(x@));
    assert forall|i: int, j: int| 0 <= i < t.len() && 0 <= j < t.len() && i != j implies t[i]@
        != t[j]@ by {
        if i == s.len() {
            assert(!names_set(s).contains(x@));
            assert(s[j]@ != x@);
        } else if j == s.len() {
            assert(s[i]@ != x@);
        }
    }
}

pub proof fn lemma_names_remove(s: Seq<String>, i: int)
    requires
        names_unique(s),
        0 <= i < s.len(),
    ensures
        names_set(s.remove(i)) == names_set(s).remove(s[i]@),
        names_unique(s.remove(i)),
{
    let t = s.remove(i);
    assert forall|k: Seq<char>| names_set(t).contains(k) == names_set(s).remove(s[i]@).contains(
        k,
    ) by {
        if names_set(t).contains(k) {
            let j = choose|j: int| 0 <= j < t.len() && t[j]@ == k;
            if j < i {
                assert(s[j]@ == k);
            } else {
                assert(s[j + 1]@ == k);
            }
        }
        if names_set(s).remove(s[i]@).contains(k) {
            let j = choose|j: int| 0 <= j < s.len() && s[j]@ == k;
            assert(j != i);
            if j < i {
                assert(t[j]@ == k);
            } else {
                assert(t[j - 1]@ == k);
            }
        }
    }
    assert(names_set(t) =~= names_set(s).remove(s[i]@));
    assert forall|a: int, b: int| 0 <= a < t.len() && 0 <= b < t.len() && a != b implies t[a]@
        != t[b]@ by {
        let a1 = if a < i {
            a
        } else {
            a + 1
        };
        let b1 = if b < i {
            b
        } else {
            b + 1
        };
        assert(t[a] == s[a1]);
        assert(t[b] == s[b1]);
    }
}

/// Relies on rand's thread_rng and Rng::gen_range: a value drawn from `low..high`.
#[verifier::external_body]
fn draw_in_range(low: u32, high: u32) -> (r: u32)
    requires
        low < high,
    ensures
        low <= r < high,
{
    rand::thread_rng().gen_range(low..high)
}

/// The engine of one connected phone.
pub struct DeviceCommunicator {
    device_handle: String,
    device_name: String,
    id: u32,
    notification_queue: Vec<ShowNotificationData>,
    awaiting_app_names: Vec<String>,
    known_app_names: Vec<(String, String)>,
    known: Ghost<Map<Seq<char>, Seq<char>>>,
}

impl DeviceCommunicator {
    pub closed spec fn id_base(&self) -> u32 {
        self.id
    }

    pub closed spec fn handle_view(&self) -> Seq<char> {
        self.device_handle@
    }

    pub closed spec fn name_view(&self) -> Seq<char> {
        self.device_name@
    }

    /// Notifications waiting for their application's name, oldest first.
    pub closed spec fn queue_view(&self) -> Seq<ShowNotificationView> {
        self.notification_queue@.map_values(|e: ShowNotificationData| e@)
    }

    /// Applications whose name was asked for and has not come yet.
    pub closed spec fn awaiting_view(&self) -> Set<Seq<char>> {
        names_set(self.awaiting_app_names@)
    }

    /// Names of applications, by identifier.
    pub closed spec fn known_view(&self) -> Map<Seq<char>, Seq<char>> {
        self.known@
    }

    /// The name stores are consistent: awaited names are distinct, and the
    /// known names' map is what the list of pairs holds, one pair per application.
    pub closed spec fn store_wf(&self) -> bool {
        &&& names_unique(self.awaiting_app_names@)
        &&& forall|k: Seq<char>| #[trigger]
            self.known@.contains_key(k) <==> exists|i: int|
                0 <= i < self.known_app_names@.len() && self.known_app_names@[i].0@ == k
        &&& forall|i: int|
            0 <= i < self.known_app_names@.len() ==> self.known@[#[trigger] self.known_app_names@[i].0@]
                == self.known_app_names@[i].1@
        &&& forall|i: int, j: int|
            0 <= i < self.known_app_names@.len() && 0 <= j < self.known_app_names@.len() && i != j
                ==> self.known_app_names@[i].0@ != self.known_app_names@[j].0@
    }

    /// The communicator's invariant: its id base is in range, and every
    /// queued notification has an empty application name and waits for a
    /// name that was asked for and is not known yet.
    pub open spec fn wf(&self) -> bool {
        &&& self.store_wf()
        &&& valid_id_base(self.id_base())
        &&& forall|j: int|
            0 <= j < self.queue_view().len() ==> {
                &&& (#[trigger] self.queue_view()[j]).app_name == Seq::<char>::empty()
                &&& self.awaiting_view().contains(self.queue_view()[j].app_id)
                &&& !self.known_view().contains_key(self.queue_view()[j].app_id)
            }
    }
}


/// What one pass of the pump keeps is a sub-list of what it was given, every
/// kept entry waits for a name that was asked for and is not known, and no name
/// that was asked for is forgotten.
proof fn lemma_pump_kept(q: Seq<ShowNotificationView>, known: Map<Seq<char>, Seq<char>>, aw: Set<Seq<char>>)
    ensures
        aw.subset_of(pump(q, known, aw).1),
        forall|j: int|
            0 <= j < pump(q, known, aw).0.len() ==> {
                &&& pump(q, known, aw).1.contains((#[trigger] pump(q, known, aw).0[j]).app_id)
                &&& !known.contains_key(pump(q, known, aw).0[j].app_id)
                &&& exists|i: int| 0 <= i < q.len() && q[i] == pump(q, known, aw).0[j]
            },
    decreases q.len(),
{
    if q.len() > 0 {
        let p = q.drop_last();
        lemma_pump_kept(p, known, aw);
        let (kept, aw1, outs) = pump(p, known, aw);
        let (kept2, aw2, outs2) = pump(q, known, aw);
        assert forall|j: int| 0 <= j < kept2.len() implies {
            &&& aw2.contains((#[trigger] kept2[j]).app_id)
            &&& !known.contains_key(kept2[j].app_id)
            &&& exists|i: int| 0 <= i < q.len() && q[i] == kept2[j]
        } by {
            if j < kept.len() {
                assert(kept2[j] == kept[j]);
                let i = choose|i: int| 0 <= i < p.len() && p[i] == kept[j];
                assert(q[i] == p[i]);
            } else {
                assert(kept2[j] == q.last());
                assert(q[q.len() - 1] == q.last());
            }
        }
    }
}

/// A pass over a queue whose entries all wait for names that were asked for
/// and are not known keeps every entry and sends nothing.
proof fn lemma_pump_settled(q: Seq<ShowNotificationView>, known: Map<Seq<char>, Seq<char>>, aw: Set<Seq<char>>)
    requires
        forall|j: int|
            0 <= j < q.len() ==> aw.contains((#[trigger] q[j]).app_id) && !known.contains_key(
                q[j].app_id,
            ),
    ensures
        pump(q, known, aw) == (q, aw, Seq::<OutgoingView>::empty()),
    decreases q.len(),
{
    if q.len() > 0 {
        let p = q.drop_last();
        assert forall|j: int| 0 <= j < p.len() implies aw.contains((#[trigger] p[j]).app_id)
            && !known.contains_key(p[j].app_id) by {
            assert(p[j] == q[j]);
        }
        lemma_pump_settled(p, known, aw);
        assert(q[q.len() - 1] == q.last());
        assert(p.push(q.last()) =~= q);
    }
}

/// Pumping the queue a second time, with nothing changed in between, sends
/// nothing and leaves the queue and the names asked for as they were.
pub proof fn lemma_process_queue_idempotent(
    q: Seq<ShowNotificationView>,
    known: Map<Seq<char>, Seq<char>>,
    aw: Set<Seq<char>>,
)
    ensures
        pump(pump(q, known, aw).0, known, pump(q, known, aw).1) == (
            pump(q, known, aw).0,
            pump(q, known, aw).1,
            Seq::<OutgoingView>::empty(),
        ),
{
    lemma_pump_kept(q, known, aw);
    lemma_pump_settled(pump(q, known, aw).0, known, pump(q, known, aw).1);
}

impl DeviceCommunicator {
    /// A communicator for the phone at `device_handle`, whose host ids start at `id_base`.
    pub fn with_id_base(device_handle: String, device_name: String, id_base: u32) -> (r: DeviceCommunicator)
        requires
            valid_id_base(id_base),
        ensures
            r.wf(),
            r.id_base() == id_base,
            r.handle_view() == device_handle@,
            r.name_view() == device_name@,
            r.queue_view().len() == 0,
            r.awaiting_view().is_empty(),
            r.known_view().is_empty(),
    {
        let r = DeviceCommunicator {
            device_handle,
            device_name,
            id: id_base,
            notification_queue: Vec::new(),
            awaiting_app_names: Vec::new(),
            known_app_names: Vec::new(),
            known: Ghost(Map::empty()),
        };
        assert(r.awaiting_view() =~= Set::empty());
        r
    }

    /// A communicator for the phone at `device_handle`, with an id base drawn
    /// at random among the multiples of 1000 from 1000 below 100_000_000.
    pub fn new(device_handle: String, device_name: String) -> (r: DeviceCommunicator)
        ensures
            r.wf(),
            r.id_base() % 1000 == 0,
            r.handle_view() == device_handle@,
            r.name_view() == device_name@,
            r.queue_view().len() == 0,
            r.awaiting_view().is_empty(),
            r.known_view().is_empty(),
    {
        let slot = draw_in_range(1, ID_BASE_SLOTS);
        Self::with_id_base(device_handle, device_name, slot * ID_BASE_STEP)
    }

    pub fn id_base_value(&self) -> (r: u32)
        ensures
            r == self.id_base(),
    {
        self.id
    }

    pub fn queue_len(&self) -> (r: usize)
        ensures
            r == self.queue_view().len(),
    {
        self.notification_queue.len()
    }

    fn find_known(&self, app_id: &String) -> (r: Option<usize>)
        requires
            self.store_wf(),
        ensures
            match r {
                Some(i) => i < self.known_app_names@.len() && self.known_app_names@[i as int].0@
                    == app_id@ && self.known_view().contains_key(app_id@)
                    && self.known_view()[app_id@] == self.known_app_names@[i as int].1@,
                None => !self.known_view().contains_key(app_id@),
            },
    {
        let mut i: usize = 0;
        while i < self.known_app_names.len()
            invariant
                self.store_wf(),
                i <= self.known_app_names@.len(),
                forall|j: int| 0 <= j < i ==> self.known_app_names@[j].0@ != app_id@,
            decreases self.known_app_names@.len() - i,
        {
            if self.known_app_names[i].0 == *app_id {
                assert(self.known_app_names@[i as int].0@ == app_id@);
                assert(self.known@.contains_key(app_id@));
                assert(self.known@[self.known_app_names@[i as int].0@] == self.known_app_names@[i as int].1@);
                return Some(i);
            }
            i = i + 1;
        }
        None
    }

    fn find_awaiting(&self, app_id: &String) -> (r: Option<usize>)
        ensures
            match r {
                Some(i) => i < self.awaiting_app_names@.len() && self.awaiting_app_names@[i as int]@
                    == app_id@,
                None => !self.awaiting_view().contains(app_id@),
            },
    {
        let mut i: usize = 0;
        while i < self.awaiting_app_names.len()
            invariant
                i <= self.awaiting_app_names@.len(),
                forall|j: int| 0 <= j < i ==> self.awaiting_app_names@[j]@ != app_id@,
            decreases self.awaiting_app_names@.len() - i,
        {
            if self.awaiting_app_names[i] == *app_id {
                return Some(i);
            }
            i = i + 1;
        }
        None
    }

    /// The name known for application `app_id`, if any.
    pub fn known_app_name(&self, app_id: &String) -> (r: Option<String>)
        requires
            self.wf(),
        ensures
            r matches Some(n) ==> self.known_view().contains_key(app_id@) && n@ == self.known_view()[app_id@],
            r is None <==> !self.known_view().contains_key(app_id@),
    {
        match self.find_known(app_id) {
            Some(i) => Some(self.known_app_names[i].1.clone()),
            None => None,
        }
    }

    /// Whether the name of application `app_id` was asked for and has not come yet.
    pub fn is_awaiting(&self, app_id: &String) -> (r: bool)
        ensures
            r == self.awaiting_view().contains(app_id@),
    {
        match self.find_awaiting(app_id) {
            Some(i) => {
                assert(self.awaiting_view().contains(app_id@));
                true
            },
            None => false,
        }
    }

    /// One pass of the queue pump.
    fn process_queue(&mut self) -> (outs: Vec<Outgoing>)
        requires
            old(self).store_wf(),
        ensures
            final(self).store_wf(),
            final(self).known_view() == old(self).known_view(),
            final(self).known_app_names == old(self).known_app_names,
            final(self).id == old(self).id,
            final(self).device_handle == old(self).device_handle,
            final(self).device_name == old(self).device_name,
            (final(self).queue_view(), final(self).awaiting_view(), outs_view(outs@)) == pump(
                old(self).queue_view(),
                old(self).known_view(),
                old(self).awaiting_view(),
            ),
    {
        let ghost q0 = self.queue_view();
        let ghost aw0 = self.awaiting_view();
        let mut kept: Vec<ShowNotificationData> = Vec::new();
        let mut outs: Vec<Outgoing> = Vec::new();
        let n = self.notification_queue.len();
        let mut i: usize = 0;
        while i < n
            invariant
                n == self.notification_queue@.len(),
                i <= n,
                self.queue_view() == q0,
                q0 == old(self).queue_view(),
                aw0 == old(self).awaiting_view(),
                self.store_wf(),
                self.known_view() == old(self).known_view(),
                self.known_app_names == old(self).known_app_names,
                self.id == old(self).id,
                self.device_handle == old(self).device_handle,
                self.device_name == old(self).device_name,
                (
                    kept@.map_values(|e: ShowNotificationData| e@),
                    self.awaiting_view(),
                    outs_view(outs@),
                ) == pump(q0.take(i as int), self.known_view(), aw0),
            decreases n - i,
        {
            let ghost before = (
                kept@.map_values(|e: ShowNotificationData| e@),
                self.awaiting_view(),
                outs_view(outs@),
            );
            assert(q0.take(i + 1).drop_last() =~= q0.take(i as int));
            assert(q0.take(i + 1).last() == q0[i as int]);
            assert(q0[i as int] == self.notification_queue@[i as int]@);
            let e = self.notification_queue[i].duplicate();
            assert(self.store_wf());
            match self.find_known(&e.app_id) {
                Some(k) => {
                    let mut shown = e;
                    shown.app_name = self.known_app_names[k].1.clone();
                    outs.push(Outgoing::Show(shown));
                    assert(outs_view(outs@) =~= before.2.push(
                        OutgoingView::Show(with_app_name(q0[i as int], self.known_view()[q0[i as int].app_id])),
                    ));
                },
                None => {
                    if self.is_awaiting(&e.app_id) {
                        kept.push(e);
                        assert(kept@.map_values(|e: ShowNotificationData| e@) =~= before.0.push(
                            q0[i as int],
                        ));
                    } else {
                        let req = GetAppAttributes { app_id: e.app_id.clone() }.to_vec();
                        let id = e.app_id.clone();
                        proof {
                            lemma_names_push(self.awaiting_app_names@, id);
                        }
                        let ghost pre = *self;
                        self.awaiting_app_names.push(id);
                        assert(self.known@ == pre.known@);
                        assert(self.known_app_names@ == pre.known_app_names@);
                        assert(self.store_wf());
                        kept.push(e);
                        outs.push(Outgoing::ControlPoint(req));
                        assert(kept@.map_values(|e: ShowNotificationData| e@) =~= before.0.push(
                            q0[i as int],
                        ));
                        assert(outs_view(outs@) =~= before.2.push(
                            OutgoingView::ControlPoint(app_attributes_request(q0[i as int].app_id)),
                        ));
                    }
                },
            }
            i = i + 1;
        }
        assert(q0.take(n as int) =~= q0);
        let ghost pre = *self;
        self.notification_queue = kept;
        assert(self.known@ == pre.known@);
        assert(self.known_app_names@ == pre.known_app_names@);
        outs
    }
}


/// `post` and `outs` are what handling the attributes `a` of a notification
/// makes of `pre`: the entry for it joins the end of the queue, then the pump runs.
pub open spec fn notification_step(
    pre: DeviceCommunicator,
    a: NotificationAttributesView,
    post: DeviceCommunicator,
    outs: Seq<OutgoingView>,
) -> bool {
    &&& post.id_base() == pre.id_base()
    &&& post.handle_view() == pre.handle_view()
    &&& post.name_view() == pre.name_view()
    &&& post.known_view() == pre.known_view()
    &&& (post.queue_view(), post.awaiting_view(), outs) == pump(
        pre.queue_view().push(entry_of(pre.handle_view(), pre.name_view(), pre.id_base(), a)),
        pre.known_view(),
        pre.awaiting_view(),
    )
}

/// `post` and `outs` are what handling the name `a` of an application makes of
/// `pre`: the name is recorded, no longer awaited, then the pump runs.
pub open spec fn app_step(
    pre: DeviceCommunicator,
    a: AppAttributesView,
    post: DeviceCommunicator,
    outs: Seq<OutgoingView>,
) -> bool {
    &&& post.id_base() == pre.id_base()
    &&& post.handle_view() == pre.handle_view()
    &&& post.name_view() == pre.name_view()
    &&& post.known_view() == pre.known_view().insert(a.app_id, a.app_name)
    &&& (post.queue_view(), post.awaiting_view(), outs) == pump(
        pre.queue_view(),
        pre.known_view().insert(a.app_id, a.app_name),
        pre.awaiting_view().remove(a.app_id),
    )
}

/// What a Data Source frame `d` makes of `pre`, with the result `r`.
pub open spec fn ds_step(
    pre: DeviceCommunicator,
    d: Seq<u8>,
    post: DeviceCommunicator,
    r: Result<Seq<OutgoingView>, DecodeError>,
) -> bool {
    match spec_parse_data_source(d) {
        Err(e) => r == Err::<Seq<OutgoingView>, DecodeError>(e) && post == pre,
        Ok((c, body)) => if c == CommandID::GetNotificationAttributes {
            match spec_parse_notification_attributes(body) {
                Err(e) => r == Err::<Seq<OutgoingView>, DecodeError>(e) && post == pre,
                Ok(a) => r is Ok && notification_step(pre, a, post, r->Ok_0),
            }
        } else if c == CommandID::GetAppAttributes {
            match spec_parse_app_attributes(body) {
                Err(e) => r == Err::<Seq<OutgoingView>, DecodeError>(e) && post == pre,
                Ok(a) => r is Ok && app_step(pre, a, post, r->Ok_0),
            }
        } else {
            r == Ok::<Seq<OutgoingView>, DecodeError>(Seq::empty()) && post == pre
        },
    }
}

pub open spec fn result_view(r: Result<Vec<Outgoing>, DecodeError>) -> Result<Seq<OutgoingView>, DecodeError> {
    match r {
        Ok(v) => Ok(outs_view(v@)),
        Err(e) => Err(e),
    }
}

impl DeviceCommunicator {
    proof fn lemma_pump_keeps_wf(pre: DeviceCommunicator, post: DeviceCommunicator, q: Seq<ShowNotificationView>, known: Map<Seq<char>, Seq<char>>, aw: Set<Seq<char>>)
        requires
            post.store_wf(),
            valid_id_base(post.id_base()),
            post.known_view() == known,
            forall|j: int| 0 <= j < q.len() ==> (#[trigger] q[j]).app_name == Seq::<char>::empty(),
            post.queue_view() == pump(q, known, aw).0,
            post.awaiting_view() == pump(q, known, aw).1,
        ensures
            post.wf(),
    {
        lemma_pump_kept(q, known, aw);
        assert forall|j: int| 0 <= j < post.queue_view().len() implies {
            &&& (#[trigger] post.queue_view()[j]).app_name == Seq::<char>::empty()
            &&& post.awaiting_view().contains(post.queue_view()[j].app_id)
            &&& !post.known_view().contains_key(post.queue_view()[j].app_id)
        } by {
            let x = pump(q, known, aw).0[j];
            let i = choose|i: int| 0 <= i < q.len() && q[i] == x;
            assert(q[i].app_name == Seq::<char>::empty());
        }
    }

    /// Queues the notification described by `attrs`, then runs the pump.
    pub fn on_notification_attributes(&mut self, attrs: &NotificationAttributes) -> (outs: Vec<Outgoing>)
        requires
            old(self).wf(),
        ensures
            final(self).wf(),
            notification_step(*old(self), attrs@, *final(self), outs_view(outs@)),
    {
        let id: u32 = ((self.id as u64 + attrs.id as u64) % 4294967296) as u32;
        let entry = ShowNotificationData {
            device_name: self.device_name.clone(),
            device_handle: self.device_handle.clone(),
            app_id: attrs.app_id.clone(),
            app_name: String::new(),
            id,
            title: attrs.title.clone(),
            body: attrs.message.clone(),
            positive_action: crate::apis::copy_opt_string(&attrs.positive_action),
            negative_action: crate::apis::copy_opt_string(&attrs.negative_action),
        };
        let ghost e = entry_of(self.handle_view(), self.name_view(), self.id_base(), attrs@);
        assert(entry@ == e);
        let ghost pre = *self;
        self.notification_queue.push(entry);
        assert(self.known@ == pre.known@);
        assert(self.known_app_names@ == pre.known_app_names@);
        assert(self.queue_view() =~= pre.queue_view().push(e));
        let ghost q = self.queue_view();
        let outs = self.process_queue();
        proof {
            assert forall|j: int| 0 <= j < q.len() implies (#[trigger] q[j]).app_name == Seq::<
                char,
            >::empty() by {
                if j < pre.queue_view().len() {
                    assert(q[j] == pre.queue_view()[j]);
                }
            }
            Self::lemma_pump_keeps_wf(pre, *self, q, pre.known_view(), pre.awaiting_view());
        }
        outs
    }

    /// Records `name` as the name of application `app_id`.
    fn remember_app_name(&mut self, app_id: String, name: String)
        requires
            old(self).store_wf(),
        ensures
            final(self).store_wf(),
            final(self).known_view() == old(self).known_view().insert(app_id@, name@),
            final(self).awaiting_app_names == old(self).awaiting_app_names,
            final(self).notification_queue == old(self).notification_queue,
            final(self).id == old(self).id,
            final(self).device_handle == old(self).device_handle,
            final(self).device_name == old(self).device_name,
    {
        let ghost k = app_id@;
        let ghost v = name@;
        let ghost pre = *self;
        match self.find_known(&app_id) {
            Some(i) => {
                self.known_app_names.remove(i);
            },
            None => {},
        }
        let ghost mid = self.known_app_names@;
        assert(forall|a: int| 0 <= a < mid.len() ==> mid[a].0@ != k && exists|b: int|
            0 <= b < pre.known_app_names@.len() && pre.known_app_names@[b] == mid[a]) by {
            assert forall|a: int| 0 <= a < mid.len() implies mid[a].0@ != k && exists|b: int|
                0 <= b < pre.known_app_names@.len() && pre.known_app_names@[b] == mid[a] by {
                if mid.len() < pre.known_app_names@.len() {
                    let i = choose|i: int| 0 <= i < pre.known_app_names@.len() && pre.known_app_names@[i].0@ == k && mid == pre.known_app_names@.remove(i);
                    if a < i {
                        assert(pre.known_app_names@[a] == mid[a]);
                    } else {
                        assert(pre.known_app_names@[a + 1] == mid[a]);
                    }
                } else {
                    assert(pre.known_app_names@[a] == mid[a]);
                }
            }
        }
        self.known_app_names.push((app_id, name));
        self.known = Ghost(pre.known@.insert(k, v));
        let ghost kn = self.known_app_names@;
        assert forall|x: Seq<char>| #[trigger] self.known@.contains_key(x) <==> exists|i: int|
            0 <= i < kn.len() && kn[i].0@ == x by {
            if x == k {
                assert(kn[kn.len() - 1].0@ == k);
            } else if pre.known@.contains_key(x) {
                let b = choose|b: int| 0 <= b < pre.known_app_names@.len() && pre.known_app_names@[b].0@ == x;
                assert(pre.known_app_names@[b].0@ != k);
                if mid.len() < pre.known_app_names@.len() {
                    let i = choose|i: int| 0 <= i < pre.known_app_names@.len() && pre.known_app_names@[i].0@ == k && mid == pre.known_app_names@.remove(i);
                    assert(b != i);
                    if b < i {
                        assert(kn[b] == pre.known_app_names@[b]);
                    } else {
                        assert(kn[b - 1] == pre.known_app_names@[b]);
                    }
                } else {
                    assert(kn[b] == pre.known_app_names@[b]);
                }
            } else {
                if exists|i: int| 0 <= i < kn.len() && kn[i].0@ == x {
                    let i = choose|i: int| 0 <= i < kn.len() && kn[i].0@ == x;
                    assert(i < mid.len());
                    assert(mid[i] == kn[i]);
                    let b = choose|b: int| 0 <= b < pre.known_app_names@.len() && pre.known_app_names@[b] == mid[i];
                    assert(pre.known_app_names@[b].0@ == x);
                }
            }
        }
        assert forall|i: int| 0 <= i < kn.len() implies self.known@[#[trigger] kn[i].0@] == kn[i].1@ by {
            if i < mid.len() {
                assert(kn[i] == mid[i]);
                let b = choose|b: int| 0 <= b < pre.known_app_names@.len() && pre.known_app_names@[b] == mid[i];
                assert(pre.known@[pre.known_app_names@[b].0@] == pre.known_app_names@[b].1@);
            }
        }
        assert forall|i: int, j: int| 0 <= i < kn.len() && 0 <= j < kn.len() && i != j implies kn[i].0@ != kn[j].0@ by {
            if i < mid.len() && j < mid.len() {
                assert(kn[i] == mid[i]);
                assert(kn[j] == mid[j]);
                let bi = choose|b: int| 0 <= b < pre.known_app_names@.len() && pre.known_app_names@[b] == mid[i];
                let bj = choose|b: int| 0 <= b < pre.known_app_names@.len() && pre.known_app_names@[b] == mid[j];
                if mid.len() < pre.known_app_names@.len() {
                    let r = choose|r: int| 0 <= r < pre.known_app_names@.len() && pre.known_app_names@[r].0@ == k && mid == pre.known_app_names@.remove(r);
                    assert(bi == if i < r { i } else { i + 1 });
                    assert(bj == if j < r { j } else { j + 1 });
                } else {
                    assert(bi == i);
                    assert(bj == j);
                }
            } else if i < mid.len() {
                assert(kn[i] == mid[i]);
            } else if j < mid.len() {
                assert(kn[j] == mid[j]);
            }
        }
        assert(self.store_wf());
    }
}


impl DeviceCommunicator {
    /// Records the name of an application, stops awaiting it, then runs the pump.
    pub fn on_app_attributes(&mut self, attrs: &AppAttributes) -> (outs: Vec<Outgoing>)
        requires
            old(self).wf(),
        ensures
            final(self).wf(),
            app_step(*old(self), attrs@, *final(self), outs_view(outs@)),
    {
        let ghost pre = *self;
        self.remember_app_name(attrs.app_id.clone(), attrs.app_name.clone());
        let ghost mid = *self;
        match self.find_awaiting(&attrs.app_id) {
            Some(i) => {
                proof {
                    lemma_names_remove(self.awaiting_app_names@, i as int);
                }
                self.awaiting_app_names.remove(i);
            },
            None => {},
        }
        assert(self.known@ == mid.known@);
        assert(self.known_app_names@ == mid.known_app_names@);
        assert(self.awaiting_view() =~= pre.awaiting_view().remove(attrs.app_id@));
        assert(self.queue_view() == pre.queue_view());
        let outs = self.process_queue();
        proof {
            Self::lemma_pump_keeps_wf(
                pre,
                *self,
                pre.queue_view(),
                pre.known_view().insert(attrs.app_id@, attrs.app_name@),
                pre.awaiting_view().remove(attrs.app_id@),
            );
        }
        outs
    }

    /// Handles a value update of the Notification Source.
    pub fn on_ns_change(&self, value: &[u8]) -> (r: Result<Vec<Outgoing>, DecodeError>)
        ensures
            match spec_parse_notification(value@) {
                Err(e) => r == Err::<Vec<Outgoing>, DecodeError>(e),
                Ok(n) => r is Ok && outs_view(r->Ok_0@) == ns_outputs(n),
            },
    {
        let notification = match Notification::parse(value) {
            Ok(n) => n,
            Err(e) => {
                return Err(e);
            },
        };
        let mut outs: Vec<Outgoing> = Vec::new();
        let is_added = match notification.event_id {
            EventID::NotificationAdded => true,
            _ => false,
        };
        let is_removed = match notification.event_id {
            EventID::NotificationRemoved => true,
            _ => false,
        };
        if is_removed || (is_added && notification.is_preexisting()) {
            outs.push(Outgoing::Dismiss(notification.id));
        } else {
            let msg = GetNotificationAttributes {
                id: notification.id,
                get_positive_action: notification.has_positive_action(),
                get_negative_action: notification.has_negative_action(),
            };
            outs.push(Outgoing::ControlPoint(msg.to_vec()));
        }
        assert(outs_view(outs@) =~= ns_outputs(notification));
        Ok(outs)
    }

    /// Handles a value update of the Data Source.
    pub fn on_ds_change(&mut self, value: &[u8]) -> (r: Result<Vec<Outgoing>, DecodeError>)
        requires
            old(self).wf(),
        ensures
            final(self).wf(),
            ds_step(*old(self), value@, *final(self), result_view(r)),
    {
        let ev = match DataSourceEvent::parse(value) {
            Ok(ev) => ev,
            Err(e) => {
                return Err(e);
            },
        };
        match ev.command_id {
            CommandID::GetNotificationAttributes => match ev.as_notification_attributes() {
                Ok(attrs) => Ok(self.on_notification_attributes(&attrs)),
                Err(e) => Err(e),
            },
            CommandID::GetAppAttributes => match ev.as_app_attributes() {
                Ok(attrs) => Ok(self.on_app_attributes(&attrs)),
                Err(e) => Err(e),
            },
            CommandID::PerformNotificationAction => {
                let outs: Vec<Outgoing> = Vec::new();
                assert(outs_view(outs@) =~= Seq::empty());
                Ok(outs)
            },
        }
    }

    /// The Control Point request that performs an action on the notification
    /// shown under host id `host_id`.
    pub fn ask_for_action(&self, host_id: u32, is_positive: bool) -> (r: Vec<u8>)
        ensures
            r@ == action_request(uid_of(self.id_base(), host_id), is_positive),
    {
        let uid: u32 = ((host_id as u64 + 4294967296 - self.id as u64) % 4294967296) as u32;
        assert(uid == uid_of(self.id_base(), host_id));
        let msg = PerformNotificationAction { notification_id: uid, is_positive };
        msg.to_vec()
    }
}

/// The host id of a notification leads back to its uid.
pub proof fn lemma_host_id_round_trip(base: u32, uid: u32)
    ensures
        uid_of(base, host_id_of(base, uid)) == uid,
{
}


/// Every queued notification has an empty application name and waits for a
/// name that was asked for or is known; every method keeps this, as each ends
/// with a pass of the pump.
pub proof fn lemma_queue_awaits_names(c: DeviceCommunicator)
    requires
        c.wf(),
    ensures
        forall|j: int|
            0 <= j < c.queue_view().len() ==> (#[trigger] c.queue_view()[j]).app_name == Seq::<
                char,
            >::empty() && (c.awaiting_view().contains(c.queue_view()[j].app_id)
                || c.known_view().contains_key(c.queue_view()[j].app_id)),
{
}

/// Every notification that a pass of the pump shows is one of the queue, with
/// its application's known name: its host id is the one it was queued with.
pub proof fn lemma_pump_shows_queued(
    q: Seq<ShowNotificationView>,
    known: Map<Seq<char>, Seq<char>>,
    aw: Set<Seq<char>>,
)
    ensures
        forall|k: int|
            0 <= k < pump(q, known, aw).2.len() && (#[trigger] pump(q, known, aw).2[k]) is Show
                ==> exists|i: int|
                0 <= i < q.len() && known.contains_key(q[i].app_id) && pump(q, known, aw).2[k]
                    == OutgoingView::Show(with_app_name(q[i], known[q[i].app_id])),
    decreases q.len(),
{
    if q.len() > 0 {
        let p = q.drop_last();
        lemma_pump_shows_queued(p, known, aw);
        let outs = pump(p, known, aw).2;
        let outs2 = pump(q, known, aw).2;
        assert forall|k: int|
            0 <= k < outs2.len() && (#[trigger] outs2[k]) is Show implies exists|i: int|
                0 <= i < q.len() && known.contains_key(q[i].app_id) && outs2[k]
                    == OutgoingView::Show(with_app_name(q[i], known[q[i].app_id])) by {
            if k < outs.len() {
                assert(outs2[k] == outs[k]);
                let i = choose|i: int|
                    0 <= i < p.len() && known.contains_key(p[i].app_id) && outs[k]
                        == OutgoingView::Show(with_app_name(p[i], known[p[i].app_id]));
                assert(q[i] == p[i]);
            } else {
                assert(q[q.len() - 1] == q.last());
            }
        }
    }
}

/// The host id of a queued notification is its uid offset by the id base,
/// modulo 2^32, and the id base lies in [1000, 100_000 * 1000).
pub proof fn lemma_host_ids(c: DeviceCommunicator, a: NotificationAttributesView)
    requires
        c.wf(),
    ensures
        entry_of(c.handle_view(), c.name_view(), c.id_base(), a).id as int == (c.id_base() as int
            + a.id as int) % 4294967296,
        1000 <= c.id_base() < 100000 * 1000,
{
}

} // verus!
