//! The advertising side: snapshots of adapter settings, the pairing agent's
//! registration state, and the decisions of enabling and disabling advertising
//! on an adapter. The caller performs the bus calls that the decisions name.

use vstd::prelude::*;

use crate::parsers::opt_view;

verus! {

/// Path at which the local advertisement object is published.
pub const ADVERTISEMENT_PATH: &'static str = "/advertisement";

/// Path at which the pairing agent is published.
pub const PAIRING_AGENT_PATH: &'static str = "/ancs4linux/pairing_agent";

/// Capability under which the pairing agent registers.
pub const PAIRING_AGENT_CAPABILITY: &'static str = "DisplayYesNo";

/// Manufacturer id under which the advertisement carries its manufacturer data.
pub const ADVERTISEMENT_MANUFACTURER_ID: u16 = 65535;

/// Key under which the advertisement carries its service data.
pub const ADVERTISEMENT_SERVICE_KEY: &'static str = "9999";

/// The advertisement's manufacturer data: an identity beacon.
pub fn advertisement_manufacturer_data() -> (r: Vec<u8>)
    ensures
        r@ == seq![0x50u8, 0xB0u8, 0x13u8, 0xF0u8],
{
    let r: Vec<u8> = vec![0x50u8, 0xB0u8, 0x13u8, 0xF0u8];
    assert(r@ =~= seq![0x50u8, 0xB0u8, 0x13u8, 0xF0u8]);
    r
}

/// The advertisement's service data: an identity beacon.
pub fn advertisement_service_data() -> (r: Vec<u8>)
    ensures
        r@ == seq![0x9Eu8, 0x85u8, 0x39u8, 0x96u8],
{
    let r: Vec<u8> = vec![0x9Eu8, 0x85u8, 0x39u8, 0x96u8];
    assert(r@ =~= seq![0x9Eu8, 0x85u8, 0x39u8, 0x96u8]);
    r
}

/// The four adapter settings that advertising changes.
#[derive(Debug, Clone, PartialEq, Eq)]
pub struct HciState {
    pub name: String,
    pub powered: bool,
    pub discoverable: bool,
    pub pairable: bool,
}

pub ghost struct HciView {
    pub name: Seq<char>,
    pub powered: bool,
    pub discoverable: bool,
    pub pairable: bool,
}

impl View for HciState {
    type V = HciView;

    open spec fn view(&self) -> HciView {
        HciView {
            name: self.name@,
            powered: self.powered,
            discoverable: self.discoverable,
            pairable: self.pairable,
        }
    }
}

/// One write of an adapter setting.
#[derive(Debug, Clone, PartialEq, Eq)]
pub enum AdapterWrite {
    Powered(bool),
    Alias(String),
    Pairable(bool),
    Discoverable(bool),
}

pub ghost enum AdapterWriteView {
    Powered(bool),
    Alias(Seq<char>),
    Pairable(bool),
    Discoverable(bool),
}

impl View for AdapterWrite {
    type V = AdapterWriteView;

    open spec fn view(&self) -> AdapterWriteView {
        match self {
            AdapterWrite::Powered(b) => AdapterWriteView::Powered(*b),
            AdapterWrite::Alias(s) => AdapterWriteView::Alias(s@),
            AdapterWrite::Pairable(b) => AdapterWriteView::Pairable(*b),
            AdapterWrite::Discoverable(b) => AdapterWriteView::Discoverable(*b),
        }
    }
}

pub open spec fn writes_view(w: Seq<AdapterWrite>) -> Seq<AdapterWriteView> {
    w.map_values(|x: AdapterWrite| x@)
}

/// The settings after one write.
pub open spec fn apply_write(s: HciView, w: AdapterWriteView) -> HciView {
    match w {
        AdapterWriteView::Powered(b) => HciView { powered: b, ..s },
        AdapterWriteView::Alias(n) => HciView { name: n, ..s },
        AdapterWriteView::Pairable(b) => HciView { pairable: b, ..s },
        AdapterWriteView::Discoverable(b) => HciView { discoverable: b, ..s },
    }
}

/// The settings after a list of writes, in order.
pub open spec fn apply_writes(s: HciView, ws: Seq<AdapterWriteView>) -> HciView
    decreases ws.len(),
{
    if ws.len() == 0 {
        s
    } else {
        apply_write(apply_writes(s, ws.drop_last()), ws.last())
    }
}

/// The writes that bring an adapter to `target`: power first, then the alias,
/// then pairable and discoverable. The caller goes past the first write only
/// if it succeeded.
pub open spec fn restore_writes(target: HciView) -> Seq<AdapterWriteView> {
    seq![
        AdapterWriteView::Powered(target.powered),
        AdapterWriteView::Alias(target.name),
        AdapterWriteView::Pairable(target.pairable),
        AdapterWriteView::Discoverable(target.discoverable),
    ]
}

impl HciState {
    /// The settings under which an adapter advertises as `name`.
    pub fn advertising(name: String) -> (r: HciState)
        ensures
            r@ == (HciView { name: name@, powered: true, discoverable: true, pairable: true }),
    {
        HciState { name, powered: true, discoverable: true, pairable: true }
    }

    /// A snapshot of an adapter's settings, as read from it.
    pub fn save(alias: String, powered: bool, discoverable: bool, pairable: bool) -> (r: HciState)
        ensures
            r@ == (HciView { name: alias@, powered, discoverable, pairable }),
    {
        HciState { name: alias, powered, discoverable, pairable }
    }

    pub fn duplicate(&self) -> (r: HciState)
        ensures
            r@ == self@,
    {
        HciState {
            name: self.name.clone(),
            powered: self.powered,
            discoverable: self.discoverable,
            pairable: self.pairable,
        }
    }

    /// The writes that bring an adapter to these settings.
    pub fn restore_on(&self) -> (r: Vec<AdapterWrite>)
        ensures
            writes_view(r@) == restore_writes(self@),
    {
        let mut r: Vec<AdapterWrite> = Vec::new();
        r.push(AdapterWrite::Powered(self.powered));
        r.push(AdapterWrite::Alias(self.name.clone()));
        r.push(AdapterWrite::Pairable(self.pairable));
        r.push(AdapterWrite::Discoverable(self.discoverable));
        assert(writes_view(r@) =~= restore_writes(self@));
        r
    }

    /// Performs one write on these settings, as an adapter would.
    pub fn apply(&mut self, w: &AdapterWrite)
        ensures
            final(self)@ == apply_write(old(self)@, w@),
    {
        match w {
            AdapterWrite::Powered(b) => {
                self.powered = *b;
            },
            AdapterWrite::Alias(n) => {
                self.name = n.clone();
            },
            AdapterWrite::Pairable(b) => {
                self.pairable = *b;
            },
            AdapterWrite::Discoverable(b) => {
                self.discoverable = *b;
            },
        }
    }
}

/// Writing back a snapshot restores it, whatever the adapter's settings were
/// in between.
pub proof fn lemma_restore_writes_restore(current: HciView, saved: HciView)
    ensures
        apply_writes(current, restore_writes(saved)) == saved,
{
    let ws = restore_writes(saved);
    let w1 = seq![ws[0]];
    let w2 = seq![ws[0], ws[1]];
    let w3 = seq![ws[0], ws[1], ws[2]];
    assert(w1.drop_last() =~= Seq::<AdapterWriteView>::empty());
    assert(w2.drop_last() =~= w1);
    assert(w3.drop_last() =~= w2);
    assert(ws.drop_last() =~= w3);
    assert(apply_writes(current, Seq::<AdapterWriteView>::empty()) == current);
    assert(apply_writes(current, w1) == apply_write(current, ws[0]));
    assert(apply_writes(current, w2) == apply_write(apply_writes(current, w1), ws[1]));
    assert(apply_writes(current, w3) == apply_write(apply_writes(current, w2), ws[2]));
    assert(apply_writes(current, ws) == apply_write(apply_writes(current, w3), ws[3]));
}

/// Whether the pairing agent is registered, and whether advertising registered it.
#[derive(Debug, Clone, Copy, PartialEq, Eq, Structural)]
pub struct PairingManager {
    pub enabled: bool,
    pub enabled_automatically: bool,
}

/// A bus call of the pairing agent's registration.
#[derive(Debug, Clone, Copy, PartialEq, Eq, Structural)]
pub enum AgentCall {
    /// Register the agent with its capability and make it the default one.
    Register,
    /// Unregister the agent.
    Unregister,
}

impl PairingManager {
    pub open spec fn wf(&self) -> bool {
        self.enabled_automatically ==> self.enabled
    }

    pub fn new() -> (r: PairingManager)
        ensures
            r.wf(),
            !r.enabled,
            !r.enabled_automatically,
    {
        PairingManager { enabled: false, enabled_automatically: false }
    }

    /// Registers the agent on request; an explicit request keeps it
    /// registered when advertising ends.
    pub fn enable(&mut self) -> (r: Option<AgentCall>)
        ensures
            final(self).enabled,
            !final(self).enabled_automatically,
            r == (if old(self).enabled {
                None
            } else {
                Some(AgentCall::Register)
            }),
    {
        let was = self.enabled;
        self.enabled = true;
        self.enabled_automatically = false;
        if was {
            None
        } else {
            Some(AgentCall::Register)
        }
    }

    /// Unregisters the agent, if registered.
    pub fn disable(&mut self) -> (r: Option<AgentCall>)
        ensures
            !final(self).enabled,
            !final(self).enabled_automatically,
            r == (if old(self).enabled {
                Some(AgentCall::Unregister)
            } else {
                None
            }),
    {
        let was = self.enabled;
        self.enabled = false;
        self.enabled_automatically = false;
        if was {
            Some(AgentCall::Unregister)
        } else {
            None
        }
    }

    /// Registers the agent on behalf of advertising, if not registered yet.
    pub fn enable_automatically(&mut self) -> (r: Option<AgentCall>)
        requires
            old(self).wf(),
        ensures
            final(self).wf(),
            final(self).enabled,
            old(self).enabled ==> *final(self) == *old(self) && r is None,
            !old(self).enabled ==> final(self).enabled_automatically && r == Some(AgentCall::Register),
    {
        if self.enabled {
            return None;
        }
        let r = self.enable();
        self.enabled_automatically = true;
        r
    }

    /// Unregisters the agent if advertising registered it.
    pub fn disable_if_enabled_automatically(&mut self) -> (r: Option<AgentCall>)
        requires
            old(self).wf(),
        ensures
            final(self).wf(),
            old(self).enabled_automatically ==> !final(self).enabled && r == Some(AgentCall::Unregister),
            !old(self).enabled_automatically ==> *final(self) == *old(self) && r is None,
    {
        if !self.enabled || !self.enabled_automatically {
            return None;
        }
        self.disable()
    }
}


/// A managed object of the Bluetooth stack, as far as advertising needs it.
#[derive(Debug, Clone, PartialEq, Eq)]
pub struct AdapterInfo {
    pub path: String,
    pub address: String,
    /// It declares the adapter interface.
    pub has_adapter: bool,
    /// It declares the LE advertising manager interface.
    pub has_le_advertising: bool,
}

/// An adapter that can advertise.
pub open spec fn can_advertise(a: AdapterInfo) -> bool {
    a.has_adapter && a.has_le_advertising
}

/// The path of the first adapter that can advertise and has address `address`.
pub open spec fn spec_hci_path(adapters: Seq<AdapterInfo>, address: Seq<char>) -> Option<Seq<char>>
    decreases adapters.len(),
{
    if adapters.len() == 0 {
        None
    } else if can_advertise(adapters[0]) && adapters[0].address@ == address {
        Some(adapters[0].path@)
    } else {
        spec_hci_path(adapters.drop_first(), address)
    }
}

/// The addresses of the adapters that can advertise, in order.
pub open spec fn spec_hci_addresses(adapters: Seq<AdapterInfo>) -> Seq<Seq<char>>
    decreases adapters.len(),
{
    if adapters.len() == 0 {
        Seq::empty()
    } else if can_advertise(adapters.last()) {
        spec_hci_addresses(adapters.drop_last()).push(adapters.last().address@)
    } else {
        spec_hci_addresses(adapters.drop_last())
    }
}

/// The addresses of the adapters that can advertise.
pub fn get_all_hci_addresses(adapters: &Vec<AdapterInfo>) -> (r: Vec<String>)
    ensures
        r@.map_values(|s: String| s@) == spec_hci_addresses(adapters@),
{
    let mut r: Vec<String> = Vec::new();
    let mut i: usize = 0;
    while i < adapters.len()
        invariant
            i <= adapters@.len(),
            r@.map_values(|s: String| s@) == spec_hci_addresses(adapters@.take(i as int)),
        decreases adapters@.len() - i,
    {
        assert(adapters@.take(i + 1).drop_last() =~= adapters@.take(i as int));
        assert(adapters@.take(i + 1).last() == adapters@[i as int]);
        if adapters[i].has_adapter && adapters[i].has_le_advertising {
            r.push(adapters[i].address.clone());
            assert(r@.map_values(|s: String| s@) =~= spec_hci_addresses(adapters@.take(i as int)).push(
                adapters@[i as int].address@,
            ));
        }
        i = i + 1;
    }
    assert(adapters@.take(adapters@.len() as int) =~= adapters@);
    r
}

/// The path of the adapter with address `address`, among those that can advertise.
pub fn get_hci_path(adapters: &Vec<AdapterInfo>, address: &String) -> (r: Option<String>)
    ensures
        opt_view(r) == spec_hci_path(adapters@, address@),
{
    let mut i: usize = 0;
    assert(adapters@.skip(0) =~= adapters@);
    while i < adapters.len()
        invariant
            i <= adapters@.len(),
            spec_hci_path(adapters@, address@) == spec_hci_path(adapters@.skip(i as int), address@),
        decreases adapters@.len() - i,
    {
        assert(adapters@.skip(i as int).drop_first() =~= adapters@.skip(i + 1));
        assert(adapters@.skip(i as int)[0] == adapters@[i as int]);
        if adapters[i].has_adapter && adapters[i].has_le_advertising && adapters[i].address == *address {
            return Some(adapters[i].path.clone());
        }
        i = i + 1;
    }
    assert(adapters@.skip(i as int) =~= Seq::<AdapterInfo>::empty());
    None
}

/// Why an advertising request was refused.
#[derive(Debug, Clone, Copy, PartialEq, Eq, Structural)]
pub enum AdvertisingError {
    /// No adapter that can advertise has the address.
    UnknownAdapter,
    /// Nothing is advertised on the address.
    NotAdvertising,
}

/// The bus calls of one advertising request, all on `adapter_path` but the agent's.
pub struct AdvertisingPlan {
    /// The adapter; none when it has gone, and then no adapter call is made.
    pub adapter_path: Option<String>,
    /// Register or unregister the pairing agent: first when enabling, last when disabling.
    pub agent: Option<AgentCall>,
    /// Unregister the advertisement at the advertisement path.
    pub unregister_advertisement: bool,
    /// Adapter writes, in order; when the first (the power) fails, skip the rest.
    pub writes: Vec<AdapterWrite>,
    /// Register the advertisement at the advertisement path, last.
    pub register_advertisement: bool,
}

pub open spec fn has_key(s: Seq<(String, HciState)>, a: Seq<char>) -> bool {
    exists|i: int| 0 <= i < s.len() && s[i].0@ == a
}

pub open spec fn keys_unique(s: Seq<(String, HciState)>) -> bool {
    forall|i: int, j: int| 0 <= i < s.len() && 0 <= j < s.len() && i != j ==> s[i].0@ != s[j].0@
}

/// The settings recorded under address `a` in `s`.
pub open spec fn saved_in(s: Seq<(String, HciState)>, a: Seq<char>) -> Option<HciView> {
    if has_key(s, a) {
        Some(s[choose|i: int| 0 <= i < s.len() && s[i].0@ == a].1@)
    } else {
        None
    }
}

proof fn lemma_saved_in_at(s: Seq<(String, HciState)>, i: int)
    requires
        keys_unique(s),
        0 <= i < s.len(),
    ensures
        has_key(s, s[i].0@),
        saved_in(s, s[i].0@) == Some(s[i].1@),
{
    let a = s[i].0@;
    assert(has_key(s, a));
    let j = choose|j: int| 0 <= j < s.len() && s[j].0@ == a;
    assert(j == i);
}

proof fn lemma_saved_in_push(s: Seq<(String, HciState)>, e: (String, HciState))
    requires
        keys_unique(s),
        !has_key(s, e.0@),
    ensures
        keys_unique(s.push(e)),
        forall|a: Seq<char>| #[trigger] saved_in(s.push(e), a) == if a == e.0@ {
            Some(e.1@)
        } else {
            saved_in(s, a)
        },
{
    let t = s.push(e);
    assert forall|i: int, j: int| 0 <= i < t.len() && 0 <= j < t.len() && i != j implies t[i].0@
        != t[j].0@ by {
        if i == s.len() {
            assert(s[j].0@ != e.0@);
        } else if j == s.len() {
            assert(s[i].0@ != e.0@);
        } else {
            assert(t[i] == s[i] && t[j] == s[j]);
        }
    }
    assert forall|a: Seq<char>| #[trigger] saved_in(t, a) == if a == e.0@ {
        Some(e.1@)
    } else {
        saved_in(s, a)
    } by {
        if a == e.0@ {
            lemma_saved_in_at(t, s.len() as int);
        } else if has_key(s, a) {
            let i = choose|i: int| 0 <= i < s.len() && s[i].0@ == a;
            lemma_saved_in_at(s, i);
            assert(t[i] == s[i]);
            lemma_saved_in_at(t, i);
        } else {
            if has_key(t, a) {
                let i = choose|i: int| 0 <= i < t.len() && t[i].0@ == a;
                assert(t[i] == s[i]);
            }
        }
    }
}

proof fn lemma_saved_in_remove(s: Seq<(String, HciState)>, r: int)
    requires
        keys_unique(s),
        0 <= r < s.len(),
    ensures
        keys_unique(s.remove(r)),
        forall|a: Seq<char>| #[trigger] saved_in(s.remove(r), a) == if a == s[r].0@ {
            None
        } else {
            saved_in(s, a)
        },
{
    let t = s.remove(r);
    assert forall|i: int, j: int| 0 <= i < t.len() && 0 <= j < t.len() && i != j implies t[i].0@
        != t[j].0@ by {
        let i1 = if i < r { i } else { i + 1 };
        let j1 = if j < r { j } else { j + 1 };
        assert(t[i] == s[i1] && t[j] == s[j1]);
    }
    assert forall|a: Seq<char>| #[trigger] saved_in(t, a) == if a == s[r].0@ {
        None
    } else {
        saved_in(s, a)
    } by {
        if has_key(t, a) {
            let i = choose|i: int| 0 <= i < t.len() && t[i].0@ == a;
            let i1 = if i < r { i } else { i + 1 };
            assert(t[i] == s[i1]);
            lemma_saved_in_at(s, i1);
            lemma_saved_in_at(t, i);
            assert(a != s[r].0@);
        } else if has_key(s, a) && a != s[r].0@ {
            let i = choose|i: int| 0 <= i < s.len() && s[i].0@ == a;
            let i1 = if i < r { i } else { i - 1 };
            assert(t[i1] == s[i]);
        }
    }
}

/// Advertising state: the snapshot of each advertising adapter, by address,
/// and the pairing agent's registration.
pub struct AdvertisingManager {
    active_advertisements: Vec<(String, HciState)>,
    pairing_manager: PairingManager,
}

impl AdvertisingManager {
    pub closed spec fn entries(&self) -> Seq<(String, HciState)> {
        self.active_advertisements@
    }

    pub closed spec fn pairing(&self) -> PairingManager {
        self.pairing_manager
    }

    /// Number of adapters that advertise.
    pub closed spec fn count(&self) -> nat {
        self.active_advertisements@.len()
    }

    pub open spec fn is_active(&self, address: Seq<char>) -> bool {
        has_key(self.entries(), address)
    }

    /// The settings saved for `address` when advertising began there.
    pub open spec fn saved(&self, address: Seq<char>) -> Option<HciView> {
        saved_in(self.entries(), address)
    }

    /// At most one snapshot per address, and the pairing state is consistent.
    pub open spec fn wf(&self) -> bool {
        &&& keys_unique(self.entries())
        &&& self.pairing().wf()
        &&& self.count() == self.entries().len()
        &&& self.pairing().enabled_automatically ==> self.count() > 0
    }

    proof fn lemma_saved_at(&self, i: int)
        requires
            self.wf(),
            0 <= i < self.entries().len(),
        ensures
            self.is_active(self.entries()[i].0@),
            self.saved(self.entries()[i].0@) == Some(self.entries()[i].1@),
    {
        lemma_saved_in_at(self.entries(), i);
    }

    pub fn new(pairing_manager: PairingManager) -> (r: AdvertisingManager)
        requires
            pairing_manager.wf(),
            !pairing_manager.enabled_automatically,
        ensures
            r.wf(),
            r.count() == 0,
            r.pairing() == pairing_manager,
            forall|a: Seq<char>| !r.is_active(a),
    {
        AdvertisingManager { active_advertisements: Vec::new(), pairing_manager }
    }

    pub fn pairing_state(&self) -> (r: PairingManager)
        ensures
            r == self.pairing(),
    {
        self.pairing_manager
    }

    fn find(&self, address: &String) -> (r: Option<usize>)
        requires
            self.wf(),
        ensures
            match r {
                Some(i) => i < self.entries().len() && self.entries()[i as int].0@ == address@
                    && self.saved(address@) == Some(self.entries()[i as int].1@),
                None => !self.is_active(address@),
            },
    {
        let mut i: usize = 0;
        while i < self.active_advertisements.len()
            invariant
                self.wf(),
                i <= self.entries().len(),
                forall|j: int| 0 <= j < i ==> self.entries()[j].0@ != address@,
            decreases self.entries().len() - i,
        {
            if self.active_advertisements[i].0 == *address {
                proof {
                    self.lemma_saved_at(i as int);
                }
                return Some(i);
            }
            i = i + 1;
        }
        None
    }

    /// The settings saved for `address`, if it advertises.
    pub fn saved_state(&self, address: &String) -> (r: Option<HciState>)
        requires
            self.wf(),
        ensures
            r matches Some(s) ==> self.saved(address@) == Some(s@),
            r is None <==> !self.is_active(address@),
    {
        match self.find(address) {
            Some(i) => Some(self.active_advertisements[i].1.duplicate()),
            None => None,
        }
    }

    /// Registers the pairing agent on explicit request.
    pub fn enable_pairing(&mut self) -> (r: Option<AgentCall>)
        requires
            old(self).wf(),
        ensures
            final(self).wf(),
            final(self).entries() == old(self).entries(),
            final(self).pairing().enabled,
            !final(self).pairing().enabled_automatically,
            r == (if old(self).pairing().enabled {
                None
            } else {
                Some(AgentCall::Register)
            }),
    {
        self.pairing_manager.enable()
    }

    /// Unregisters the pairing agent on explicit request.
    pub fn disable_pairing(&mut self) -> (r: Option<AgentCall>)
        requires
            old(self).wf(),
        ensures
            final(self).wf(),
            final(self).entries() == old(self).entries(),
            !final(self).pairing().enabled,
            r == (if old(self).pairing().enabled {
                Some(AgentCall::Unregister)
            } else {
                None
            }),
    {
        self.pairing_manager.disable()
    }
}


pub ghost struct PlanView {
    pub adapter_path: Option<Seq<char>>,
    pub agent: Option<AgentCall>,
    pub unregister_advertisement: bool,
    pub writes: Seq<AdapterWriteView>,
    pub register_advertisement: bool,
}

impl View for AdvertisingPlan {
    type V = PlanView;

    open spec fn view(&self) -> PlanView {
        PlanView {
            adapter_path: opt_view(self.adapter_path),
            agent: self.agent,
            unregister_advertisement: self.unregister_advertisement,
            writes: writes_view(self.writes@),
            register_advertisement: self.register_advertisement,
        }
    }
}

pub open spec fn plan_result_view(r: Result<AdvertisingPlan, AdvertisingError>) -> Result<PlanView, AdvertisingError> {
    match r {
        Ok(p) => Ok(p@),
        Err(e) => Err(e),
    }
}

/// The settings under which an adapter advertises as `name`.
pub open spec fn advertising_settings(name: Seq<char>) -> HciView {
    HciView { name, powered: true, discoverable: true, pairable: true }
}

/// What enabling advertising on `address` as `name` makes of `pre`, with the
/// adapter's current settings `current`. An unknown adapter is refused and
/// nothing changes. Otherwise the adapter is set to advertise and the
/// advertisement registered; the snapshot kept is `current`, or the one taken
/// when advertising began there if it still runs (its old advertisement is
/// unregistered); the pairing agent is registered, on advertising's behalf,
/// when it is not registered and no other adapter advertises.
pub open spec fn enable_outcome(
    pre: AdvertisingManager,
    adapters: Seq<AdapterInfo>,
    address: Seq<char>,
    name: Seq<char>,
    current: HciView,
    post: AdvertisingManager,
    r: Result<PlanView, AdvertisingError>,
) -> bool {
    match spec_hci_path(adapters, address) {
        None => r == Err::<PlanView, AdvertisingError>(AdvertisingError::UnknownAdapter)
            && post.entries() == pre.entries() && post.pairing() == pre.pairing(),
        Some(path) => {
            let others_idle = pre.count() == 0 || (pre.count() == 1 && pre.is_active(address));
            let register = !pre.pairing().enabled && others_idle;
            &&& r is Ok
            &&& r->Ok_0 == (PlanView {
                adapter_path: Some(path),
                agent: if register {
                    Some(AgentCall::Register)
                } else {
                    None
                },
                unregister_advertisement: pre.is_active(address),
                writes: restore_writes(advertising_settings(name)),
                register_advertisement: true,
            })
            &&& post.pairing() == if register {
                PairingManager { enabled: true, enabled_automatically: true }
            } else {
                pre.pairing()
            }
            &&& post.saved(address) == Some(
                if pre.is_active(address) {
                    pre.saved(address)->0
                } else {
                    current
                },
            )
            &&& forall|a: Seq<char>| a != address ==> #[trigger] post.saved(a) == pre.saved(a)
            &&& post.count() == if pre.is_active(address) {
                pre.count()
            } else {
                pre.count() + 1
            }
        },
    }
}

/// What disabling advertising on `address` makes of `pre`. Where nothing is
/// advertised there it is refused and nothing changes. Otherwise the snapshot
/// is dropped; on the adapter, if it is still there, the advertisement is
/// unregistered and the snapshot written back; the pairing agent is
/// unregistered when advertising registered it and no adapter advertises any more.
pub open spec fn disable_outcome(
    pre: AdvertisingManager,
    adapters: Seq<AdapterInfo>,
    address: Seq<char>,
    post: AdvertisingManager,
    r: Result<PlanView, AdvertisingError>,
) -> bool {
    if !pre.is_active(address) {
        r == Err::<PlanView, AdvertisingError>(AdvertisingError::NotAdvertising) && post.entries()
            == pre.entries() && post.pairing() == pre.pairing()
    } else {
        let unregister = pre.count() == 1 && pre.pairing().enabled_automatically;
        &&& r is Ok
        &&& r->Ok_0 == (PlanView {
            adapter_path: spec_hci_path(adapters, address),
            agent: if unregister {
                Some(AgentCall::Unregister)
            } else {
                None
            },
            unregister_advertisement: spec_hci_path(adapters, address) is Some,
            writes: if spec_hci_path(adapters, address) is Some {
                restore_writes(pre.saved(address)->0)
            } else {
                Seq::empty()
            },
            register_advertisement: false,
        })
        &&& post.pairing() == if unregister {
            PairingManager { enabled: false, enabled_automatically: false }
        } else {
            pre.pairing()
        }
        &&& post.saved(address) is None
        &&& forall|a: Seq<char>| a != address ==> #[trigger] post.saved(a) == pre.saved(a)
        &&& post.count() + 1 == pre.count()
    }
}

impl AdvertisingManager {
    pub fn enable_advertising(
        &mut self,
        adapters: &Vec<AdapterInfo>,
        address: &String,
        name: String,
        current: HciState,
    ) -> (r: Result<AdvertisingPlan, AdvertisingError>)
        requires
            old(self).wf(),
        ensures
            final(self).wf(),
            enable_outcome(*old(self), adapters@, address@, name@, current@, *final(self), plan_result_view(r)),
    {
        let path = match get_hci_path(adapters, address) {
            Some(p) => p,
            None => {
                return Err(AdvertisingError::UnknownAdapter);
            },
        };
        let ghost pre = *self;
        let found = self.find(address);
        let active = found.is_some();
        let others_idle = self.active_advertisements.len() == 0 || (self.active_advertisements.len() == 1 && active);
        let agent = if !self.pairing_manager.enabled && others_idle {
            self.pairing_manager.enable_automatically()
        } else {
            None
        };
        if !active {
            let ghost s0 = self.active_advertisements@;
            let entry = (address.clone(), current);
            proof {
                lemma_saved_in_push(s0, entry);
            }
            self.active_advertisements.push(entry);
        }
        let writes = HciState::advertising(name).restore_on();
        let plan = AdvertisingPlan {
            adapter_path: Some(path),
            agent,
            unregister_advertisement: active,
            writes,
            register_advertisement: true,
        };
        plan_ok(plan)
    }

    pub fn disable_advertising(&mut self, adapters: &Vec<AdapterInfo>, address: &String) -> (r: Result<
        AdvertisingPlan,
        AdvertisingError,
    >)
        requires
            old(self).wf(),
        ensures
            final(self).wf(),
            disable_outcome(*old(self), adapters@, address@, *final(self), plan_result_view(r)),
    {
        let i = match self.find(address) {
            Some(i) => i,
            None => {
                return Err(AdvertisingError::NotAdvertising);
            },
        };
        let ghost s0 = self.active_advertisements@;
        proof {
            lemma_saved_in_remove(s0, i as int);
        }
        let (_, saved_state_of_adapter) = self.active_advertisements.remove(i);
        let path = get_hci_path(adapters, address);
        let writes = match &path {
            Some(_) => saved_state_of_adapter.restore_on(),
            None => Vec::new(),
        };
        assert(path is None ==> writes_view(writes@) =~= Seq::empty());
        let agent = if self.active_advertisements.len() == 0 {
            self.pairing_manager.disable_if_enabled_automatically()
        } else {
            None
        };
        let unregister_advertisement = path.is_some();
        plan_ok(AdvertisingPlan {
            adapter_path: path,
            agent,
            unregister_advertisement,
            writes,
            register_advertisement: false,
        })
    }
}

fn plan_ok(p: AdvertisingPlan) -> (r: Result<AdvertisingPlan, AdvertisingError>)
    ensures
        plan_result_view(r) == Ok::<PlanView, AdvertisingError>(p@),
{
    Ok(p)
}

/// Advertising that began on an adapter that did not advertise, then ended,
/// leaves the adapter's alias, power, discoverability and pairability as they
/// were before it began (whatever they were in between) and the pairing agent's
/// registration as it was.
pub proof fn lemma_enable_disable_restores(
    m0: AdvertisingManager,
    m1: AdvertisingManager,
    m2: AdvertisingManager,
    adapters: Seq<AdapterInfo>,
    address: Seq<char>,
    name: Seq<char>,
    before: HciView,
    between: HciView,
    r1: Result<PlanView, AdvertisingError>,
    r2: Result<PlanView, AdvertisingError>,
)
    requires
        m0.wf(),
        !m0.is_active(address),
        enable_outcome(m0, adapters, address, name, before, m1, r1),
        r1 is Ok,
        disable_outcome(m1, adapters, address, m2, r2),
    ensures
        r2 is Ok,
        r2->Ok_0.adapter_path == r1->Ok_0.adapter_path,
        apply_writes(between, r2->Ok_0.writes) == before,
        m2.pairing() == m0.pairing(),
        forall|a: Seq<char>| #[trigger] m2.saved(a) == m0.saved(a),
{
    lemma_restore_writes_restore(between, before);
    assert forall|a: Seq<char>| #[trigger] m2.saved(a) == m0.saved(a) by {
        if a != address {
            assert(m1.saved(a) == m0.saved(a));
        }
    }
}

} // verus!
