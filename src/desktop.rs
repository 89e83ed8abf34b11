//! The desktop side of one phone notification: what to ask of the desktop
//! notification service, and where its action buttons lead.

use vstd::prelude::*;

use crate::apis::ShowNotificationData;

verus! {

/// Action key of the positive button.
pub const POSITIVE_ACTION_KEY: &'static str = "positive-action";

/// Action key of the negative button.
pub const NEGATIVE_ACTION_KEY: &'static str = "negative-action";

/// Relies on std's `format!` with `{} ({})`: the two texts, the second in
/// parentheses after a space.
#[verifier::external_body]
fn app_with_device(app: &String, device: &String) -> (r: String)
    ensures
        r@ == app@ + " ("@ + device@ + ")"@,
{
    format!("{} ({})", app, device)
}

/// A request to the desktop notification service.
pub struct NotifyRequest {
    pub app_name: String,
    /// The desktop id of the notification it replaces, 0 for none.
    pub replaces_id: u32,
    pub summary: String,
    pub body: String,
    /// Action keys and labels, alternating.
    pub actions: Vec<String>,
    pub expire_timeout: i32,
}

/// The action keys and labels of a notification: the positive one, then the negative one.
pub open spec fn action_list(positive: Option<Seq<char>>, negative: Option<Seq<char>>) -> Seq<Seq<char>> {
    (match positive {
        Some(l) => seq![POSITIVE_ACTION_KEY@, l],
        None => Seq::empty(),
    }) + (match negative {
        Some(l) => seq![NEGATIVE_ACTION_KEY@, l],
        None => Seq::empty(),
    })
}

/// A phone notification on the desktop.
pub struct Notification {
    /// The host id under which the observer announced it.
    pub device_id: u32,
    pub device_handle: Option<String>,
    /// The desktop's id of it, 0 while not shown.
    pub host_id: u32,
}

impl Notification {
    pub fn new(id: u32) -> (r: Notification)
        ensures
            r.device_id == id,
            r.device_handle is None,
            r.host_id == 0,
    {
        Notification { device_id: id, device_handle: None, host_id: 0 }
    }

    /// Records where `data` came from and gives the request that shows it,
    /// replacing what is shown for it already.
    pub fn show(&mut self, data: &ShowNotificationData, notification_timeout: i32) -> (r: NotifyRequest)
        ensures
            final(self).device_id == old(self).device_id,
            final(self).host_id == old(self).host_id,
            final(self).device_handle matches Some(h) && h@ == data.device_handle@,
            r.app_name@ == data.app_name@ + " ("@ + data.device_name@ + ")"@,
            r.replaces_id == old(self).host_id,
            r.summary@ == data.title@,
            r.body@ == data.body@,
            r.actions@.map_values(|s: String| s@) == action_list(
                crate::parsers::opt_view(data.positive_action),
                crate::parsers::opt_view(data.negative_action),
            ),
            r.expire_timeout == notification_timeout,
    {
        self.device_handle = Some(data.device_handle.clone());
        let mut actions: Vec<String> = Vec::new();
        match &data.positive_action {
            Some(l) => {
                actions.push(POSITIVE_ACTION_KEY.to_owned());
                actions.push(l.clone());
            },
            None => {},
        }
        match &data.negative_action {
            Some(l) => {
                actions.push(NEGATIVE_ACTION_KEY.to_owned());
                actions.push(l.clone());
            },
            None => {},
        }
        assert(actions@.map_values(|s: String| s@) =~= action_list(
            crate::parsers::opt_view(data.positive_action),
            crate::parsers::opt_view(data.negative_action),
        ));
        NotifyRequest {
            app_name: app_with_device(&data.app_name, &data.device_name),
            replaces_id: self.host_id,
            summary: data.title.clone(),
            body: data.body.clone(),
            actions,
            expire_timeout: notification_timeout,
        }
    }

    /// Records the desktop's id of the notification once shown.
    pub fn shown(&mut self, host_id: u32)
        ensures
            final(self).host_id == host_id,
            final(self).device_id == old(self).device_id,
            final(self).device_handle == old(self).device_handle,
    {
        self.host_id = host_id;
    }

    /// The desktop id to close, if the notification is shown; it is then no longer.
    pub fn dismiss(&mut self) -> (r: Option<u32>)
        ensures
            old(self).host_id == 0 ==> r is None && final(self).host_id == 0,
            old(self).host_id != 0 ==> r == Some(old(self).host_id) && final(self).host_id == 0,
            final(self).device_id == old(self).device_id,
            final(self).device_handle == old(self).device_handle,
    {
        if self.host_id != 0 {
            let id = self.host_id;
            self.host_id = 0;
            Some(id)
        } else {
            None
        }
    }

    /// Where a click on `action` leads: the device, the notification's host
    /// id there, and whether the action is the positive one.
    pub fn on_action(&self, action: &String) -> (r: Option<(String, u32, bool)>)
        ensures
            match self.device_handle {
                None => r is None,
                Some(h) => if action@ == POSITIVE_ACTION_KEY@ {
                    r matches Some((d, id, p)) && d@ == h@ && id == self.device_id && p
                } else if action@ == NEGATIVE_ACTION_KEY@ {
                    r matches Some((d, id, p)) && d@ == h@ && id == self.device_id && !p
                } else {
                    r is None
                },
            },
    {
        match &self.device_handle {
            Some(h) => {
                if *action == POSITIVE_ACTION_KEY.to_owned() {
                    Some((h.clone(), self.device_id, true))
                } else if *action == NEGATIVE_ACTION_KEY.to_owned() {
                    Some((h.clone(), self.device_id, false))
                } else {
                    None
                }
            },
            None => None,
        }
    }
}


/// Relies on std's `format!` with `Pair if PIN is {}`: the text, then the pin.
#[verifier::external_body]
fn pin_prompt(pin: &String) -> (r: String)
    ensures
        r@ == "Pair if PIN is "@ + pin@,
{
    format!("Pair if PIN is {}", pin)
}

/// The request that asks the user to confirm pairing with `pin`.
pub fn pairing_request(pin: &String) -> (r: NotifyRequest)
    ensures
        r.app_name@ == "ancs4linux"@,
        r.replaces_id == 0,
        r.summary@ == "Pairing initiated"@,
        r.body@ == "Pair if PIN is "@ + pin@,
        r.actions@.len() == 0,
        r.expire_timeout == 30000,
{
    NotifyRequest {
        app_name: "ancs4linux".to_owned(),
        replaces_id: 0,
        summary: "Pairing initiated".to_owned(),
        body: pin_prompt(pin),
        actions: Vec::new(),
        expire_timeout: 30000,
    }
}

pub ghost struct NotificationView {
    pub device_id: u32,
    pub device_handle: Option<Seq<char>>,
    pub host_id: u32,
}

impl View for Notification {
    type V = NotificationView;

    open spec fn view(&self) -> NotificationView {
        NotificationView {
            device_id: self.device_id,
            device_handle: crate::parsers::opt_view(self.device_handle),
            host_id: self.host_id,
        }
    }
}

/// Where a click on `action` of the notification `n` leads, as `on_action` gives it.
pub open spec fn click_target(n: NotificationView, action: Seq<char>) -> Option<(Seq<char>, u32, bool)> {
    match n.device_handle {
        None => None,
        Some(h) => if action == POSITIVE_ACTION_KEY@ {
            Some((h, n.device_id, true))
        } else if action == NEGATIVE_ACTION_KEY@ {
            Some((h, n.device_id, false))
        } else {
            None
        },
    }
}

/// Where a click on `action` of the desktop notification `host_id` leads, for
/// each notification of `s` shown under that id, in order.
pub open spec fn clicked(s: Seq<NotificationView>, host_id: u32, action: Seq<char>) -> Seq<(Seq<char>, u32, bool)>
    decreases s.len(),
{
    if s.len() == 0 {
        Seq::empty()
    } else {
        let rest = clicked(s.drop_last(), host_id, action);
        if s.last().host_id == host_id && click_target(s.last(), action) is Some {
            rest.push(click_target(s.last(), action)->0)
        } else {
            rest
        }
    }
}

pub open spec fn ids_unique(s: Seq<NotificationView>) -> bool {
    forall|i: int, j: int| 0 <= i < s.len() && 0 <= j < s.len() && i != j ==> s[i].device_id != s[j].device_id
}

/// The notification of `s` announced under `id`.
pub open spec fn entry_in(s: Seq<NotificationView>, id: u32) -> Option<NotificationView> {
    if exists|i: int| 0 <= i < s.len() && s[i].device_id == id {
        Some(s[choose|i: int| 0 <= i < s.len() && s[i].device_id == id])
    } else {
        None
    }
}

proof fn lemma_entry_at(s: Seq<NotificationView>, i: int)
    requires
        ids_unique(s),
        0 <= i < s.len(),
    ensures
        entry_in(s, s[i].device_id) == Some(s[i]),
{
    let id = s[i].device_id;
    assert(0 <= i < s.len() && s[i].device_id == id);
    let j = choose|j: int| 0 <= j < s.len() && s[j].device_id == id;
    assert(j == i);
}

proof fn lemma_entry_update(s: Seq<NotificationView>, i: int, n: NotificationView)
    requires
        ids_unique(s),
        0 <= i < s.len(),
        n.device_id == s[i].device_id,
    ensures
        ids_unique(s.update(i, n)),
        forall|id: u32| #[trigger] entry_in(s.update(i, n), id) == if id == n.device_id {
            Some(n)
        } else {
            entry_in(s, id)
        },
{
    let t = s.update(i, n);
    assert forall|a: int, b: int| 0 <= a < t.len() && 0 <= b < t.len() && a != b implies t[a].device_id
        != t[b].device_id by {
        assert(t[a].device_id == s[a].device_id && t[b].device_id == s[b].device_id);
    }
    assert forall|id: u32| #[trigger] entry_in(t, id) == if id == n.device_id {
        Some(n)
    } else {
        entry_in(s, id)
    } by {
        if id == n.device_id {
            lemma_entry_at(t, i);
        } else if exists|k: int| 0 <= k < s.len() && s[k].device_id == id {
            let k = choose|k: int| 0 <= k < s.len() && s[k].device_id == id;
            lemma_entry_at(s, k);
            assert(t[k] == s[k]);
            lemma_entry_at(t, k);
        } else {
            if exists|k: int| 0 <= k < t.len() && t[k].device_id == id {
                let k = choose|k: int| 0 <= k < t.len() && t[k].device_id == id;
                assert(t[k].device_id == s[k].device_id);
            }
        }
    }
}

proof fn lemma_entry_push(s: Seq<NotificationView>, n: NotificationView)
    requires
        ids_unique(s),
        entry_in(s, n.device_id) is None,
    ensures
        ids_unique(s.push(n)),
        forall|id: u32| #[trigger] entry_in(s.push(n), id) == if id == n.device_id {
            Some(n)
        } else {
            entry_in(s, id)
        },
{
    let t = s.push(n);
    assert forall|a: int, b: int| 0 <= a < t.len() && 0 <= b < t.len() && a != b implies t[a].device_id
        != t[b].device_id by {
        if a == s.len() {
            assert(!(0 <= b < s.len() && s[b].device_id == n.device_id));
        } else if b == s.len() {
            assert(!(0 <= a < s.len() && s[a].device_id == n.device_id));
        } else {
            assert(t[a] == s[a] && t[b] == s[b]);
        }
    }
    assert forall|id: u32| #[trigger] entry_in(t, id) == if id == n.device_id {
        Some(n)
    } else {
        entry_in(s, id)
    } by {
        if id == n.device_id {
            lemma_entry_at(t, s.len() as int);
        } else if exists|k: int| 0 <= k < s.len() && s[k].device_id == id {
            let k = choose|k: int| 0 <= k < s.len() && s[k].device_id == id;
            lemma_entry_at(s, k);
            assert(t[k] == s[k]);
            lemma_entry_at(t, k);
        } else {
            if exists|k: int| 0 <= k < t.len() && t[k].device_id == id {
                let k = choose|k: int| 0 <= k < t.len() && t[k].device_id == id;
                assert(t[k] == s[k]);
            }
        }
    }
}

proof fn lemma_entry_remove(s: Seq<NotificationView>, r: int)
    requires
        ids_unique(s),
        0 <= r < s.len(),
    ensures
        ids_unique(s.remove(r)),
        forall|id: u32| #[trigger] entry_in(s.remove(r), id) == if id == s[r].device_id {
            None
        } else {
            entry_in(s, id)
        },
{
    let t = s.remove(r);
    assert forall|a: int, b: int| 0 <= a < t.len() && 0 <= b < t.len() && a != b implies t[a].device_id
        != t[b].device_id by {
        let a1 = if a < r { a } else { a + 1 };
        let b1 = if b < r { b } else { b + 1 };
        assert(t[a] == s[a1] && t[b] == s[b1]);
    }
    assert forall|id: u32| #[trigger] entry_in(t, id) == if id == s[r].device_id {
        None
    } else {
        entry_in(s, id)
    } by {
        if exists|k: int| 0 <= k < t.len() && t[k].device_id == id {
            let k = choose|k: int| 0 <= k < t.len() && t[k].device_id == id;
            let k1 = if k < r { k } else { k + 1 };
            assert(t[k] == s[k1]);
            lemma_entry_at(s, k1);
            lemma_entry_at(t, k);
        } else if (exists|k: int| 0 <= k < s.len() && s[k].device_id == id) && id != s[r].device_id {
            let k = choose|k: int| 0 <= k < s.len() && s[k].device_id == id;
            let k1 = if k < r { k } else { k - 1 };
            assert(t[k1] == s[k]);
        }
    }
}

/// The phone notifications on the desktop, by the host id under which the
/// observer announced them.
pub struct Desktop {
    notifications: Vec<Notification>,
}

impl Desktop {
    pub closed spec fn entries(&self) -> Seq<NotificationView> {
        self.notifications@.map_values(|n: Notification| n@)
    }

    /// The notification announced under `id`.
    pub open spec fn entry(&self, id: u32) -> Option<NotificationView> {
        entry_in(self.entries(), id)
    }

    pub open spec fn wf(&self) -> bool {
        ids_unique(self.entries())
    }

    pub fn new() -> (r: Desktop)
        ensures
            r.wf(),
            forall|id: u32| #[trigger] r.entry(id) is None,
    {
        let r = Desktop { notifications: Vec::new() };
        assert(r.entries() =~= Seq::<NotificationView>::empty());
        r
    }

    fn find(&self, id: u32) -> (r: Option<usize>)
        requires
            self.wf(),
        ensures
            match r {
                Some(i) => i < self.entries().len() && self.entries()[i as int].device_id == id
                    && self.entry(id) == Some(self.entries()[i as int]),
                None => self.entry(id) is None,
            },
    {
        let mut i: usize = 0;
        while i < self.notifications.len()
            invariant
                self.wf(),
                i <= self.entries().len(),
                self.entries().len() == self.notifications@.len(),
                forall|j: int| 0 <= j < i ==> self.entries()[j].device_id != id,
            decreases self.entries().len() - i,
        {
            assert(self.entries()[i as int] == self.notifications@[i as int]@);
            if self.notifications[i].device_id == id {
                proof {
                    lemma_entry_at(self.entries(), i as int);
                }
                return Some(i);
            }
            i = i + 1;
        }
        None
    }

    /// Shows the notification `data` (announced under `data.id`), replacing
    /// what is shown for it already: gives the request for the desktop.
    pub fn new_notification(&mut self, data: &ShowNotificationData, notification_timeout: i32) -> (r: NotifyRequest)
        requires
            old(self).wf(),
        ensures
            final(self).wf(),
            final(self).entry(data.id) == Some(
                NotificationView {
                    device_id: data.id,
                    device_handle: Some(data.device_handle@),
                    host_id: match old(self).entry(data.id) {
                        Some(n) => n.host_id,
                        None => 0,
                    },
                },
            ),
            forall|id: u32| id != data.id ==> #[trigger] final(self).entry(id) == old(self).entry(id),
            r.replaces_id == match old(self).entry(data.id) {
                Some(n) => n.host_id,
                None => 0,
            },
            r.app_name@ == data.app_name@ + " ("@ + data.device_name@ + ")"@,
            r.summary@ == data.title@,
            r.body@ == data.body@,
            r.actions@.map_values(|s: String| s@) == action_list(
                crate::parsers::opt_view(data.positive_action),
                crate::parsers::opt_view(data.negative_action),
            ),
            r.expire_timeout == notification_timeout,
    {
        match self.find(data.id) {
            Some(i) => {
                let ghost s0 = self.entries();
                let mut n = self.notifications.remove(i);
                let r = n.show(data, notification_timeout);
                self.notifications.insert(i, n);
                proof {
                    lemma_entry_update(s0, i as int, n@);
                    assert(self.entries() =~= s0.update(i as int, n@));
                }
                r
            },
            None => {
                let ghost s0 = self.entries();
                let mut n = Notification::new(data.id);
                let r = n.show(data, notification_timeout);
                self.notifications.push(n);
                proof {
                    lemma_entry_push(s0, n@);
                    assert(self.entries() =~= s0.push(n@));
                }
                r
            },
        }
    }

    /// Records the desktop's id of the notification announced under `id`:
    /// whether there is one.
    pub fn notification_shown(&mut self, id: u32, host_id: u32) -> (found: bool)
        requires
            old(self).wf(),
        ensures
            final(self).wf(),
            found == old(self).entry(id) is Some,
            old(self).entry(id) matches Some(n) ==> final(self).entry(id) == Some(NotificationView { host_id, ..n }),
            old(self).entry(id) is None ==> final(self).entry(id) is None,
            forall|k: u32| k != id ==> #[trigger] final(self).entry(k) == old(self).entry(k),
    {
        match self.find(id) {
            Some(i) => {
                let ghost s0 = self.entries();
                let mut n = self.notifications.remove(i);
                n.shown(host_id);
                self.notifications.insert(i, n);
                proof {
                    lemma_entry_update(s0, i as int, n@);
                    assert(self.entries() =~= s0.update(i as int, n@));
                }
                true
            },
            None => false,
        }
    }

    /// Takes down the notification announced under `id`: the desktop id to
    /// close, where it is shown.
    pub fn dismiss_notification(&mut self, id: u32) -> (r: Option<u32>)
        requires
            old(self).wf(),
        ensures
            final(self).wf(),
            match old(self).entry(id) {
                None => r is None && final(self).entry(id) is None,
                Some(n) => final(self).entry(id) == Some(NotificationView { host_id: 0, ..n }) && r == (
                if n.host_id != 0 {
                    Some(n.host_id)
                } else {
                    None
                }),
            },
            forall|k: u32| k != id ==> #[trigger] final(self).entry(k) == old(self).entry(k),
    {
        match self.find(id) {
            Some(i) => {
                let ghost s0 = self.entries();
                let mut n = self.notifications.remove(i);
                let r = n.dismiss();
                self.notifications.insert(i, n);
                proof {
                    lemma_entry_update(s0, i as int, n@);
                    assert(self.entries() =~= s0.update(i as int, n@));
                }
                r
            },
            None => None,
        }
    }

    /// Where a click on `action` of the desktop notification `host_id` leads:
    /// the device, the notification's id there and whether the action is the
    /// positive one, for each notification shown under that desktop id.
    pub fn action_clicked(&self, host_id: u32, action: &String) -> (r: Vec<(String, u32, bool)>)
        ensures
            r@.map_values(|t: (String, u32, bool)| (t.0@, t.1, t.2)) == clicked(self.entries(), host_id, action@),
    {
        let mut r: Vec<(String, u32, bool)> = Vec::new();
        let mut i: usize = 0;
        while i < self.notifications.len()
            invariant
                i <= self.notifications@.len(),
                self.entries().len() == self.notifications@.len(),
                r@.map_values(|t: (String, u32, bool)| (t.0@, t.1, t.2)) == clicked(self.entries().take(i as int), host_id, action@),
            decreases self.notifications@.len() - i,
        {
            assert(self.entries().take(i + 1).drop_last() =~= self.entries().take(i as int));
            assert(self.entries().take(i + 1).last() == self.notifications@[i as int]@);
            let n = &self.notifications[i];
            if n.host_id == host_id {
                match n.on_action(action) {
                    Some(t) => {
                        let ghost before = r@.map_values(|t: (String, u32, bool)| (t.0@, t.1, t.2));
                        r.push(t);
                        assert(r@.map_values(|t: (String, u32, bool)| (t.0@, t.1, t.2)) =~= before.push(
                            click_target(n@, action@)->0,
                        ));
                    },
                    None => {},
                }
            }
            i = i + 1;
        }
        assert(self.entries().take(self.notifications@.len() as int) =~= self.entries());
        r
    }
}


impl Desktop {
    /// Forgets the notifications shown under the desktop id `host_id`, once
    /// the desktop has closed it.
    pub fn notification_closed(&mut self, host_id: u32)
        requires
            old(self).wf(),
        ensures
            final(self).wf(),
            forall|id: u32| #[trigger] final(self).entry(id) == match old(self).entry(id) {
                Some(n) => if n.host_id == host_id {
                    None
                } else {
                    Some(n)
                },
                None => None,
            },
    {
        let mut i: usize = 0;
        while i < self.notifications.len()
            invariant
                self.wf(),
                i <= self.notifications@.len(),
                self.entries().len() == self.notifications@.len(),
                forall|k: int| 0 <= k < i ==> self.entries()[k].host_id != host_id,
                forall|id: u32| #[trigger] self.entry(id) is Some ==> self.entry(id) == old(self).entry(id),
                forall|id: u32|
                    #[trigger] old(self).entry(id) is Some && old(self).entry(id)->0.host_id != host_id
                        ==> self.entry(id) == old(self).entry(id),
            decreases self.notifications@.len() - i,
        {
            assert(self.entries()[i as int] == self.notifications@[i as int]@);
            if self.notifications[i].host_id == host_id {
                let ghost s0 = self.entries();
                proof {
                    lemma_entry_remove(s0, i as int);
                }
                self.notifications.remove(i);
                assert(self.entries() =~= s0.remove(i as int));
                assert forall|id: u32|
                    #[trigger] old(self).entry(id) is Some && old(self).entry(id)->0.host_id != host_id
                        implies self.entry(id) == old(self).entry(id) by {
                    if id == s0[i as int].device_id {
                        lemma_entry_at(s0, i as int);
                    }
                }
                assert forall|k: int| 0 <= k < i implies self.entries()[k].host_id != host_id by {
                    assert(self.entries()[k] == s0[k]);
                }
            } else {
                i = i + 1;
            }
        }
        assert forall|id: u32| #[trigger] self.entry(id) == match old(self).entry(id) {
            Some(n) => if n.host_id == host_id {
                None
            } else {
                Some(n)
            },
            None => None,
        } by {
            if self.entry(id) is Some {
                let k = choose|k: int| 0 <= k < self.entries().len() && self.entries()[k].device_id == id;
                assert(self.entries()[k].host_id != host_id);
            }
        }
    }
}

} // verus!
