//! Device presence: identities, the events of the presence tracker, and the
//! snapshot comparison of its polling strategy.
use vstd::prelude::*;

verus! {

/// A USB device as the tracker reports it. Identity is the (vendor id,
/// product id) pair alone, so two units of one model cannot be told apart.
#[derive(Debug, Clone, Copy, PartialEq, Eq, Structural, Hash, Default)]
pub struct UsbDevice {
    pub vendor_id: u16,
    pub product_id: u16,
}

/// The two identities of a device: in normal operation and in firmware-upgrade mode.
#[derive(Debug, Clone, Copy, PartialEq, Eq, Structural)]
pub struct DeviceIds {
    pub normal: UsbDevice,
    pub upgrade: UsbDevice,
}

impl UsbDevice {
    pub fn new(vendor_id: u16, product_id: u16) -> (r: UsbDevice)
        ensures
            r.vendor_id == vendor_id,
            r.product_id == product_id,
    {
        UsbDevice { vendor_id, product_id }
    }

    /// The device runs its normal firmware.
    pub fn is_stm_device(&self, ids: &DeviceIds) -> (r: bool)
        ensures
            r == (*self == ids.normal),
    {
        self.vendor_id == ids.normal.vendor_id && self.product_id == ids.normal.product_id
    }

    /// The device is in firmware-upgrade mode.
    pub fn is_dfu_device(&self, ids: &DeviceIds) -> (r: bool)
        ensures
            r == (*self == ids.upgrade),
    {
        self.vendor_id == ids.upgrade.vendor_id && self.product_id == ids.upgrade.product_id
    }
}

/// What the presence tracker emits.
#[derive(Debug, Clone, PartialEq, Eq)]
pub enum Event {
    /// The devices attached when the subscription started, sent once and first.
    Initial(Vec<UsbDevice>),
    Connected(UsbDevice),
    Disconnected(UsbDevice),
}

/// `s` without its repeated devices, each kept at its first place.
pub open spec fn distinct(s: Seq<UsbDevice>) -> Seq<UsbDevice>
    decreases s.len(),
{
    if s.len() == 0 {
        s
    } else {
        let p = distinct(s.drop_last());
        if s.drop_last().contains(s.last()) {
            p
        } else {
            p.push(s.last())
        }
    }
}

/// The devices of `s` that `other` does not hold, in the order of `s`.
pub open spec fn absent_from(s: Seq<UsbDevice>, other: Seq<UsbDevice>) -> Seq<UsbDevice> {
    s.filter(|d: UsbDevice| !other.contains(d))
}

pub open spec fn change_event(d: UsbDevice, arrival: bool) -> Event {
    if arrival {
        Event::Connected(d)
    } else {
        Event::Disconnected(d)
    }
}

pub open spec fn as_events(s: Seq<UsbDevice>, arrival: bool) -> Seq<Event> {
    s.map_values(|d: UsbDevice| change_event(d, arrival))
}

/// The events of one polling cycle from `known` to `next`: removals first,
/// then arrivals, each device once.
pub open spec fn changes(known: Seq<UsbDevice>, next: Seq<UsbDevice>) -> Seq<Event> {
    as_events(absent_from(known, next), false) + as_events(absent_from(distinct(next), known), true)
}

pub proof fn lemma_distinct(s: Seq<UsbDevice>)
    ensures
        distinct(s).no_duplicates(),
        forall|x: UsbDevice| distinct(s).contains(x) <==> s.contains(x),
    decreases s.len(),
{
    if s.len() > 0 {
        let p = s.drop_last();
        lemma_distinct(p);
        assert forall|x: UsbDevice| s.contains(x) <==> (p.contains(x) || x == s.last()) by {
            if s.contains(x) {
                let j = choose|j: int| 0 <= j < s.len() && s[j] == x;
                if j < s.len() - 1 {
                    assert(p[j] == x);
                }
            }
            if p.contains(x) {
                let j = choose|j: int| 0 <= j < p.len() && p[j] == x;
                assert(s[j] == x);
            }
        }
        if !p.contains(s.last()) {
            let d = distinct(p);
            assert forall|x: UsbDevice| d.push(s.last()).contains(x) <==> (d.contains(x) || x == s.last()) by {
                if d.push(s.last()).contains(x) {
                    let j = choose|j: int| 0 <= j < d.len() + 1 && d.push(s.last())[j] == x;
                    if j < d.len() {
                        assert(d[j] == x);
                    }
                }
                if d.contains(x) {
                    let j = choose|j: int| 0 <= j < d.len() && d[j] == x;
                    assert(d.push(s.last())[j] == x);
                }
                assert(d.push(s.last())[d.len() as int] == s.last());
            }
        }
    }
}

/// Only which devices `other` holds matters to `absent_from`.
proof fn lemma_absent_from_same(s: Seq<UsbDevice>, o1: Seq<UsbDevice>, o2: Seq<UsbDevice>)
    requires
        forall|x: UsbDevice| o1.contains(x) <==> o2.contains(x),
    ensures
        absent_from(s, o1) == absent_from(s, o2),
    decreases s.len(),
{
    reveal(Seq::filter);
    if s.len() > 0 {
        lemma_absent_from_same(s.drop_last(), o1, o2);
    }
}

/// Whether `v` holds `d`.
fn holds(v: &Vec<UsbDevice>, d: UsbDevice) -> (r: bool)
    ensures
        r == v@.contains(d),
{
    let mut i: usize = 0;
    while i < v.len()
        invariant
            i <= v.len(),
            forall|j: int| 0 <= j < i ==> v@[j] != d,
        decreases v.len() - i,
    {
        if v[i] == d {
            return true;
        }
        i = i + 1;
    }
    false
}

/// The devices of `s`, each once, at its first place.
fn dedup(s: &Vec<UsbDevice>) -> (r: Vec<UsbDevice>)
    ensures
        r@ == distinct(s@),
{
    let mut out: Vec<UsbDevice> = Vec::new();
    let mut i: usize = 0;
    assert(s@.take(0) =~= Seq::<UsbDevice>::empty());
    while i < s.len()
        invariant
            i <= s.len(),
            out@ == distinct(s@.take(i as int)),
        decreases s.len() - i,
    {
        let d = s[i];
        proof {
            assert(s@.take(i as int + 1).drop_last() =~= s@.take(i as int));
            lemma_distinct(s@.take(i as int));
        }
        if !holds(&out, d) {
            out.push(d);
        }
        i = i + 1;
    }
    assert(s@.take(s.len() as int) =~= s@);
    out
}

/// Appends to `out` an event for each device of `s` that `other` does not hold.
fn push_absent(out: &mut Vec<Event>, s: &Vec<UsbDevice>, other: &Vec<UsbDevice>, arrival: bool)
    ensures
        final(out)@ == old(out)@ + as_events(absent_from(s@, other@), arrival),
{
    let ghost start = out@;
    let mut i: usize = 0;
    assert(absent_from(s@.take(0), other@) =~= Seq::<UsbDevice>::empty());
    assert(start + as_events(Seq::<UsbDevice>::empty(), arrival) =~= start);
    while i < s.len()
        invariant
            i <= s.len(),
            out@ == start + as_events(absent_from(s@.take(i as int), other@), arrival),
        decreases s.len() - i,
    {
        let d = s[i];
        let ghost before = absent_from(s@.take(i as int), other@);
        proof {
            reveal(Seq::filter);
            assert(s@.take(i as int + 1).drop_last() =~= s@.take(i as int));
            assert(s@.take(i as int + 1).last() == d);
        }
        if !holds(other, d) {
            if arrival {
                out.push(Event::Connected(d));
            } else {
                out.push(Event::Disconnected(d));
            }
            proof {
                assert(absent_from(s@.take(i as int + 1), other@) == before.push(d));
                assert(as_events(before.push(d), arrival) =~= as_events(before, arrival).push(change_event(d, arrival)));
            }
        } else {
            assert(absent_from(s@.take(i as int + 1), other@) == before);
        }
        i = i + 1;
    }
    assert(s@.take(s.len() as int) =~= s@);
}

/// The devices seen by the last poll of the polling strategy.
pub struct Snapshot {
    known: Vec<UsbDevice>,
}

impl View for Snapshot {
    type V = Seq<UsbDevice>;

    closed spec fn view(&self) -> Seq<UsbDevice> {
        self.known@
    }
}

impl Snapshot {
    pub closed spec fn wf(&self) -> bool {
        self.known@.no_duplicates()
    }

    /// The snapshot of the first enumeration.
    pub fn new(devices: &Vec<UsbDevice>) -> (r: Snapshot)
        ensures
            r.wf(),
            r@ == distinct(devices@),
    {
        proof {
            lemma_distinct(devices@);
        }
        Snapshot { known: dedup(devices) }
    }

    /// The devices of the snapshot.
    pub fn devices(&self) -> (r: Vec<UsbDevice>)
        ensures
            r@ == self@,
    {
        self.known.clone()
    }

    /// Compares the snapshot with the devices found by a new enumeration,
    /// returns the removals and then the arrivals, and keeps the new devices.
    pub fn update(&mut self, next: &Vec<UsbDevice>) -> (r: Vec<Event>)
        requires
            old(self).wf(),
        ensures
            final(self).wf(),
            final(self)@ == distinct(next@),
            r@ == changes(old(self)@, next@),
    {
        let fresh = dedup(next);
        proof {
            lemma_distinct(next@);
            assert forall|d: UsbDevice| fresh@.contains(d) <==> next@.contains(d) by {}
            lemma_absent_from_same(self.known@, fresh@, next@);
        }
        let mut out: Vec<Event> = Vec::new();
        push_absent(&mut out, &self.known, &fresh, false);
        push_absent(&mut out, &fresh, &self.known, true);
        assert(out@ =~= changes(self.known@, next@));
        self.known = fresh;
        out
    }
}

proof fn lemma_single(d: Seq<UsbDevice>, a: UsbDevice)
    requires
        d.no_duplicates(),
        d.to_set() == set![a],
    ensures
        d == seq![a],
{
    d.unique_seq_to_set();
    assert(set![a].len() == 1);
    assert(d.contains(d[0]));
    assert(d.to_set().contains(d[0]));
    assert(d =~= seq![a]);
}

proof fn lemma_pair(d: Seq<UsbDevice>, a: UsbDevice, b: UsbDevice)
    requires
        a != b,
        d.no_duplicates(),
        d.to_set() == set![a, b],
    ensures
        d == seq![a, b] || d == seq![b, a],
{
    d.unique_seq_to_set();
    assert(set![a].len() == 1);
    assert(!set![a].contains(b));
    assert(set![a, b].len() == 2);
    assert(d.contains(d[0]));
    assert(d.contains(d[1]));
    assert(d.to_set().contains(d[0]));
    assert(d.to_set().contains(d[1]));
    if d[0] == a {
        assert(d =~= seq![a, b]);
    } else {
        assert(d =~= seq![b, a]);
    }
}

proof fn lemma_distinct_set(s: Seq<UsbDevice>)
    ensures
        distinct(s).no_duplicates(),
        distinct(s).to_set() == s.to_set(),
{
    lemma_distinct(s);
    assert(distinct(s).to_set() =~= s.to_set());
}

/// A poll that finds a second device beside the one already known reports
/// exactly one event: the arrival of the second device. The known device gets none.
pub proof fn lemma_arrival_reported_once(
    a: UsbDevice,
    b: UsbDevice,
    known: Seq<UsbDevice>,
    next: Seq<UsbDevice>,
)
    requires
        a != b,
        known.no_duplicates(),
        known.to_set() == set![a],
        next.to_set() == set![a, b],
    ensures
        changes(known, next) == seq![Event::Connected(b)],
{
    reveal_with_fuel(Seq::<UsbDevice>::filter, 3);
    lemma_single(known, a);
    lemma_distinct_set(next);
    let d = distinct(next);
    lemma_pair(d, a, b);
    assert(next.to_set().contains(a));
    assert(next.contains(a));
    assert(seq![a].drop_last() =~= Seq::<UsbDevice>::empty());
    assert(absent_from(known, next) =~= Seq::<UsbDevice>::empty());
    assert(seq![a].contains(a));
    assert(!seq![a].contains(b));
    assert(seq![a, b].drop_last() =~= seq![a]);
    assert(seq![b, a].drop_last() =~= seq![b]);
    assert(seq![b].drop_last() =~= Seq::<UsbDevice>::empty());
    if d == seq![a, b] {
        assert(absent_from(d, known) =~= seq![b]);
    } else {
        assert(absent_from(d, known) =~= seq![b]);
    }
    assert(changes(known, next) =~= seq![Event::Connected(b)]);
}

/// After that, a poll that no longer finds the second device reports exactly
/// one event: its removal.
pub proof fn lemma_removal_reported_once(
    a: UsbDevice,
    b: UsbDevice,
    known: Seq<UsbDevice>,
    next: Seq<UsbDevice>,
)
    requires
        a != b,
        known.no_duplicates(),
        known.to_set() == set![a, b],
        next.to_set() == set![a],
    ensures
        changes(known, next) == seq![Event::Disconnected(b)],
{
    reveal_with_fuel(Seq::<UsbDevice>::filter, 3);
    lemma_pair(known, a, b);
    lemma_distinct_set(next);
    let d = distinct(next);
    lemma_single(d, a);
    assert(next.to_set().contains(a));
    assert(next.contains(a));
    assert(!next.to_set().contains(b));
    assert(!next.contains(b));
    assert(seq![a, b].drop_last() =~= seq![a]);
    assert(seq![b, a].drop_last() =~= seq![b]);
    assert(seq![a].drop_last() =~= Seq::<UsbDevice>::empty());
    assert(seq![b].drop_last() =~= Seq::<UsbDevice>::empty());
    if known == seq![a, b] {
        assert(absent_from(known, next) =~= seq![b]);
    } else {
        assert(absent_from(known, next) =~= seq![b]);
    }
    assert(known.contains(a)) by {
        assert(known.to_set().contains(a));
    }
    assert(absent_from(d, known) =~= Seq::<UsbDevice>::empty());
    assert(changes(known, next) =~= seq![Event::Disconnected(b)]);
}

/// A presence change that concerns the session: a device of either identity
/// arrived, or some device left.
#[derive(Debug, Clone, Copy, PartialEq, Eq, Structural)]
pub enum DeviceEvent {
    Connect(UsbDevice),
    Disconnect(UsbDevice),
}

pub open spec fn is_device_kind(d: UsbDevice, ids: DeviceIds) -> bool {
    d == ids.normal || d == ids.upgrade
}

/// The first device of `devices` with either identity, if any.
pub open spec fn first_of_kind(devices: Seq<UsbDevice>, ids: DeviceIds) -> Option<UsbDevice> {
    if exists|i: int| 0 <= i < devices.len() && is_device_kind(devices[i], ids) {
        let i = choose|i: int|
            0 <= i < devices.len() && is_device_kind(devices[i], ids) && forall|j: int|
                0 <= j < i ==> !is_device_kind(#[trigger] devices[j], ids);
        Some(devices[i])
    } else {
        None
    }
}

/// What a tracker event means to the session: of the initial list, the first
/// device with either identity; an arrival of a device with either identity;
/// every removal.
pub open spec fn spec_device_event(ids: DeviceIds, event: Event) -> Option<DeviceEvent> {
    match event {
        Event::Initial(devices) => match first_of_kind(devices@, ids) {
            Some(d) => Some(DeviceEvent::Connect(d)),
            None => None,
        },
        Event::Connected(d) => if is_device_kind(d, ids) {
            Some(DeviceEvent::Connect(d))
        } else {
            None
        },
        Event::Disconnected(d) => Some(DeviceEvent::Disconnect(d)),
    }
}

/// Filters the tracker's events down to those that concern the session.
pub fn device_event(ids: &DeviceIds, event: &Event) -> (r: Option<DeviceEvent>)
    ensures
        r == spec_device_event(*ids, *event),
{
    match event {
        Event::Initial(devices) => {
            let mut i: usize = 0;
            while i < devices.len()
                invariant
                    i <= devices.len(),
                    *event == Event::Initial(*devices),
                    forall|j: int| 0 <= j < i ==> !is_device_kind(#[trigger] devices@[j], *ids),
                decreases devices.len() - i,
            {
                let d = devices[i];
                if d.is_stm_device(ids) || d.is_dfu_device(ids) {
                    proof {
                        assert(is_device_kind(devices@[i as int], *ids));
                        assert(0 <= i < devices@.len() && is_device_kind(devices@[i as int], *ids) && forall|j: int|
                                0 <= j < i ==> !is_device_kind(#[trigger] devices@[j], *ids));
                        let k = choose|k: int|
                            0 <= k < devices@.len() && is_device_kind(devices@[k], *ids) && forall|j: int|
                                0 <= j < k ==> !is_device_kind(#[trigger] devices@[j], *ids);
                        assert(k == i as int) by {
                            if k < i as int {
                            } else if k > i as int {
                                assert(!is_device_kind(devices@[i as int], *ids));
                            }
                        }
                        assert(first_of_kind(devices@, *ids) == Some(d));
                    }
                    return Some(DeviceEvent::Connect(d));
                }
                i = i + 1;
            }
            None
        },
        Event::Connected(d) => {
            if d.is_stm_device(ids) || d.is_dfu_device(ids) {
                Some(DeviceEvent::Connect(*d))
            } else {
                None
            }
        },
        Event::Disconnected(d) => Some(DeviceEvent::Disconnect(*d)),
    }
}

} // verus!
