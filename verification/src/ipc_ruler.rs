//! The registry of signals and slots that the IPC ruler keeps: who publishes
//! what, who listens, and which slot is connected to which signal.
use crate::text::str_eq;
use vstd::prelude::*;

verus! {

/// A registered signal.
#[derive(Debug)]
pub struct SignalRecord {
    pub name: String,
    pub sig_type: u8,
    pub created_by: String,
    pub created_at: u64,
    pub last_registered: u64,
    pub description: String,
}

/// A registered slot.
#[derive(Debug)]
pub struct SlotRecord {
    pub name: String,
    pub slot_type: u8,
    pub created_by: String,
    pub created_at: u64,
    pub last_registered: u64,
    pub last_modified: u64,
    pub modified_by: String,
    pub connected_to: String,
    pub description: String,
}

/// A request to connect a slot to a signal.
pub struct ConnectionChange {
    pub slot_name: String,
    pub signal_name: String,
}

/// What a signal record holds.
pub struct SignalView {
    pub name: Seq<char>,
    pub sig_type: u8,
    pub created_by: Seq<char>,
    pub created_at: u64,
    pub last_registered: u64,
    pub description: Seq<char>,
}

/// What a slot record holds.
pub struct SlotView {
    pub name: Seq<char>,
    pub slot_type: u8,
    pub created_by: Seq<char>,
    pub created_at: u64,
    pub last_registered: u64,
    pub last_modified: u64,
    pub modified_by: Seq<char>,
    pub connected_to: Seq<char>,
    pub description: Seq<char>,
}

impl View for SignalRecord {
    type V = SignalView;

    open spec fn view(&self) -> SignalView {
        SignalView {
            name: self.name@,
            sig_type: self.sig_type,
            created_by: self.created_by@,
            created_at: self.created_at,
            last_registered: self.last_registered,
            description: self.description@,
        }
    }
}

impl View for SlotRecord {
    type V = SlotView;

    open spec fn view(&self) -> SlotView {
        SlotView {
            name: self.name@,
            slot_type: self.slot_type,
            created_by: self.created_by@,
            created_at: self.created_at,
            last_registered: self.last_registered,
            last_modified: self.last_modified,
            modified_by: self.modified_by@,
            connected_to: self.connected_to@,
            description: self.description@,
        }
    }
}

/// Why a connection was refused.
#[derive(Clone, Copy, Debug, PartialEq, Eq, Structural)]
pub enum RulerError {
    /// The slot or the signal is not registered, or their types differ.
    QueryReturnedNoRows,
}

/// Whether a signal named `n` is in `s`.
pub open spec fn has_signal(s: Seq<SignalView>, n: Seq<char>) -> bool {
    exists|i: int| 0 <= i < s.len() && s[i].name == n
}

/// Whether a slot named `n` is in `s`.
pub open spec fn has_slot(s: Seq<SlotView>, n: Seq<char>) -> bool {
    exists|i: int| 0 <= i < s.len() && s[i].name == n
}

/// The position of the signal named `n` in `s`.
pub open spec fn signal_index(s: Seq<SignalView>, n: Seq<char>) -> int {
    choose|i: int| 0 <= i < s.len() && s[i].name == n
}

/// The position of the slot named `n` in `s`.
pub open spec fn slot_index(s: Seq<SlotView>, n: Seq<char>) -> int {
    choose|i: int| 0 <= i < s.len() && s[i].name == n
}

/// No two signals share a name.
pub open spec fn signal_names_unique(s: Seq<SignalView>) -> bool {
    forall|i: int, j: int|
        0 <= i < s.len() && 0 <= j < s.len() && #[trigger] s[i].name == #[trigger] s[j].name
            ==> i == j
}

/// No two slots share a name.
pub open spec fn slot_names_unique(s: Seq<SlotView>) -> bool {
    forall|i: int, j: int|
        0 <= i < s.len() && 0 <= j < s.len() && #[trigger] s[i].name == #[trigger] s[j].name
            ==> i == j
}

/// The signals after registering `r`: a known signal gets the new type,
/// description, creator and registration time and keeps its creation time;
/// an unknown one is added.
pub open spec fn spec_register_signal(s: Seq<SignalView>, r: SignalView) -> Seq<SignalView> {
    if has_signal(s, r.name) {
        let i = signal_index(s, r.name);
        s.update(
            i,
            SignalView {
                name: r.name,
                sig_type: r.sig_type,
                created_by: r.created_by,
                created_at: s[i].created_at,
                last_registered: r.last_registered,
                description: r.description,
            },
        )
    } else {
        s.push(r)
    }
}

/// The slots after registering `r`: a known slot gets the new type,
/// description, creator and registration time and keeps the rest, its
/// connection included; an unknown one is added, connected to nothing and
/// modified by nobody.
pub open spec fn spec_register_slot(s: Seq<SlotView>, r: SlotView) -> Seq<SlotView> {
    if has_slot(s, r.name) {
        let i = slot_index(s, r.name);
        s.update(
            i,
            SlotView {
                name: r.name,
                slot_type: r.slot_type,
                created_by: r.created_by,
                created_at: s[i].created_at,
                last_registered: r.last_registered,
                last_modified: s[i].last_modified,
                modified_by: s[i].modified_by,
                connected_to: s[i].connected_to,
                description: r.description,
            },
        )
    } else {
        s.push(
            SlotView {
                name: r.name,
                slot_type: r.slot_type,
                created_by: r.created_by,
                created_at: r.created_at,
                last_registered: r.last_registered,
                last_modified: r.last_modified,
                modified_by: Seq::empty(),
                connected_to: Seq::empty(),
                description: r.description,
            },
        )
    }
}

/// What registering a slot answers: the signal it was connected to, empty for a new slot.
pub open spec fn spec_register_slot_answer(s: Seq<SlotView>, n: Seq<char>) -> Seq<char> {
    if has_slot(s, n) {
        s[slot_index(s, n)].connected_to
    } else {
        Seq::empty()
    }
}

/// Whether connecting `slot` to `signal` is accepted: both are registered and of the same type.
pub open spec fn spec_can_connect(
    signals: Seq<SignalView>,
    slots: Seq<SlotView>,
    slot: Seq<char>,
    signal: Seq<char>,
) -> bool {
    has_slot(slots, slot) && has_signal(signals, signal) && signals[signal_index(
        signals,
        signal,
    )].sig_type == slots[slot_index(slots, slot)].slot_type
}

/// The slots after connecting `slot` to `signal`.
pub open spec fn spec_connect(slots: Seq<SlotView>, slot: Seq<char>, signal: Seq<char>) -> Seq<
    SlotView,
> {
    let i = slot_index(slots, slot);
    slots.update(i, SlotView { connected_to: signal, ..slots[i] })
}

/// The names, in order, of the first `k` slots that are connected to `signal`.
pub open spec fn spec_slots_connected_to(slots: Seq<SlotView>, signal: Seq<char>, k: int) -> Seq<
    Seq<char>,
>
    decreases k,
{
    if k <= 0 {
        Seq::empty()
    } else {
        let prev = spec_slots_connected_to(slots, signal, k - 1);
        if slots[k - 1].connected_to == signal {
            prev.push(slots[k - 1].name)
        } else {
            prev
        }
    }
}

/// For each of the first `k` signals that has slots connected to it, in
/// order, its name and the names of those slots.
pub open spec fn spec_connections(signals: Seq<SignalView>, slots: Seq<SlotView>, k: int) -> Seq<
    (Seq<char>, Seq<Seq<char>>),
>
    decreases k,
{
    if k <= 0 {
        Seq::empty()
    } else {
        let prev = spec_connections(signals, slots, k - 1);
        let group = spec_slots_connected_to(slots, signals[k - 1].name, slots.len() as int);
        if group.len() > 0 {
            prev.push((signals[k - 1].name, group))
        } else {
            prev
        }
    }
}

/// The registry.
pub struct IpcRuler {
    signals: Vec<SignalRecord>,
    slots: Vec<SlotRecord>,
}

impl IpcRuler {
    /// The signals, in registration order.
    pub closed spec fn spec_signals(&self) -> Seq<SignalView> {
        self.signals@.map_values(|r: SignalRecord| r@)
    }

    /// The slots, in registration order.
    pub closed spec fn spec_slots(&self) -> Seq<SlotView> {
        self.slots@.map_values(|r: SlotRecord| r@)
    }

    #[verifier::type_invariant]
    spec fn names_unique(&self) -> bool {
        &&& signal_names_unique(self.spec_signals())
        &&& slot_names_unique(self.spec_slots())
    }

    /// An empty registry.
    pub fn new() -> (r: IpcRuler)
        ensures
            r.spec_signals() == Seq::<SignalView>::empty(),
            r.spec_slots() == Seq::<SlotView>::empty(),
    {
        let r = IpcRuler { signals: Vec::new(), slots: Vec::new() };
        assert(r.spec_signals() =~= Seq::<SignalView>::empty());
        assert(r.spec_slots() =~= Seq::<SlotView>::empty());
        r
    }

    /// The registered signals, in registration order.
    pub fn signals(&self) -> (r: &[SignalRecord])
        ensures
            r@.map_values(|x: SignalRecord| x@) == self.spec_signals(),
    {
        self.signals.as_slice()
    }

    /// The registered slots, in registration order.
    pub fn slots(&self) -> (r: &[SlotRecord])
        ensures
            r@.map_values(|x: SlotRecord| x@) == self.spec_slots(),
    {
        self.slots.as_slice()
    }

    fn find_signal(&self, name: &str) -> (r: Option<usize>)
        ensures
            match r {
                Some(i) => i < self.spec_signals().len() && self.spec_signals()[i as int].name
                    == name@,
                None => !has_signal(self.spec_signals(), name@),
            },
    {
        let mut i: usize = 0;
        while i < self.signals.len()
            invariant
                i <= self.signals@.len(),
                forall|j: int| 0 <= j < i ==> self.spec_signals()[j].name != name@,
            decreases self.signals@.len() - i,
        {
            if str_eq(self.signals[i].name.as_str(), name) {
                return Some(i);
            }
            i = i + 1;
        }
        None
    }

    fn find_slot(&self, name: &str) -> (r: Option<usize>)
        ensures
            match r {
                Some(i) => i < self.spec_slots().len() && self.spec_slots()[i as int].name
                    == name@,
                None => !has_slot(self.spec_slots(), name@),
            },
    {
        let mut i: usize = 0;
        while i < self.slots.len()
            invariant
                i <= self.slots@.len(),
                forall|j: int| 0 <= j < i ==> self.spec_slots()[j].name != name@,
            decreases self.slots@.len() - i,
        {
            if str_eq(self.slots[i].name.as_str(), name) {
                return Some(i);
            }
            i = i + 1;
        }
        None
    }

    /// Registers a signal, or updates the one of the same name.
    pub fn register_signal_impl(&mut self, signal: SignalRecord)
        ensures
            final(self).spec_signals() == spec_register_signal(old(self).spec_signals(), signal@),
            final(self).spec_slots() == old(self).spec_slots(),
    {
        proof {
            use_type_invariant(&*self);
        }
        let ghost s = self.spec_signals();
        let ghost r = signal@;
        match self.find_signal(signal.name.as_str()) {
            Some(i) => {
                let created_at = self.signals[i].created_at;
                let updated = SignalRecord {
                    name: signal.name,
                    sig_type: signal.sig_type,
                    created_by: signal.created_by,
                    created_at,
                    last_registered: signal.last_registered,
                    description: signal.description,
                };
                proof {
                    assert(signal_index(s, r.name) == i as int);
                }
                let mut signals: Vec<SignalRecord> = Vec::new();
                std::mem::swap(&mut signals, &mut self.signals);
                signals.set(i, updated);
                proof {
                    assert(signals@.map_values(|x: SignalRecord| x@) =~= spec_register_signal(s, r));
                }
                self.signals = signals;
            },
            None => {
                let mut signals: Vec<SignalRecord> = Vec::new();
                std::mem::swap(&mut signals, &mut self.signals);
                signals.push(signal);
                proof {
                    assert(signals@.map_values(|x: SignalRecord| x@) =~= s.push(r));
                }
                self.signals = signals;
            },
        }
    }

    /// Registers a slot, or updates the one of the same name, and answers
    /// with the signal the slot is connected to (empty for a new slot).
    pub fn register_slot_impl(&mut self, slot: SlotRecord) -> (connected_to: String)
        ensures
            final(self).spec_slots() == spec_register_slot(old(self).spec_slots(), slot@),
            final(self).spec_signals() == old(self).spec_signals(),
            connected_to@ == spec_register_slot_answer(old(self).spec_slots(), slot@.name),
    {
        proof {
            use_type_invariant(&*self);
        }
        let ghost s = self.spec_slots();
        let ghost r = slot@;
        match self.find_slot(slot.name.as_str()) {
            Some(i) => {
                let created_at = self.slots[i].created_at;
                let last_modified = self.slots[i].last_modified;
                let modified_by = self.slots[i].modified_by.clone();
                let connected_to = self.slots[i].connected_to.clone();
                let answer = self.slots[i].connected_to.clone();
                let updated = SlotRecord {
                    name: slot.name,
                    slot_type: slot.slot_type,
                    created_by: slot.created_by,
                    created_at,
                    last_registered: slot.last_registered,
                    last_modified,
                    modified_by,
                    connected_to,
                    description: slot.description,
                };
                proof {
                    assert(slot_index(s, r.name) == i as int);
                }
                let mut slots: Vec<SlotRecord> = Vec::new();
                std::mem::swap(&mut slots, &mut self.slots);
                slots.set(i, updated);
                proof {
                    assert(slots@.map_values(|x: SlotRecord| x@) =~= spec_register_slot(s, r));
                }
                self.slots = slots;
                answer
            },
            None => {
                let added = SlotRecord {
                    name: slot.name,
                    slot_type: slot.slot_type,
                    created_by: slot.created_by,
                    created_at: slot.created_at,
                    last_registered: slot.last_registered,
                    last_modified: slot.last_modified,
                    modified_by: String::new(),
                    connected_to: String::new(),
                    description: slot.description,
                };
                let mut slots: Vec<SlotRecord> = Vec::new();
                std::mem::swap(&mut slots, &mut self.slots);
                slots.push(added);
                proof {
                    assert(slots@.map_values(|x: SlotRecord| x@) =~= spec_register_slot(s, r));
                }
                self.slots = slots;
                String::new()
            },
        }
    }

    /// Connects a slot to a signal; refused unless both are registered and
    /// of the same type.
    pub fn connect_impl(&mut self, change: ConnectionChange) -> (r: Result<(), RulerError>)
        ensures
            final(self).spec_signals() == old(self).spec_signals(),
            spec_can_connect(
                old(self).spec_signals(),
                old(self).spec_slots(),
                change.slot_name@,
                change.signal_name@,
            ) ==> r is Ok && final(self).spec_slots() == spec_connect(
                old(self).spec_slots(),
                change.slot_name@,
                change.signal_name@,
            ),
            !spec_can_connect(
                old(self).spec_signals(),
                old(self).spec_slots(),
                change.slot_name@,
                change.signal_name@,
            ) ==> r == Err::<(), RulerError>(RulerError::QueryReturnedNoRows)
                && final(self).spec_slots() == old(self).spec_slots(),
    {
        proof {
            use_type_invariant(&*self);
        }
        let ghost sigs = self.spec_signals();
        let ghost s = self.spec_slots();
        let slot_i = match self.find_slot(change.slot_name.as_str()) {
            Some(i) => i,
            None => return Err(RulerError::QueryReturnedNoRows),
        };
        let signal_i = match self.find_signal(change.signal_name.as_str()) {
            Some(i) => i,
            None => return Err(RulerError::QueryReturnedNoRows),
        };
        proof {
            assert(slot_index(s, change.slot_name@) == slot_i as int);
            assert(signal_index(sigs, change.signal_name@) == signal_i as int);
        }
        if self.signals[signal_i].sig_type != self.slots[slot_i].slot_type {
            return Err(RulerError::QueryReturnedNoRows);
        }
        let mut slots: Vec<SlotRecord> = Vec::new();
                std::mem::swap(&mut slots, &mut self.slots);
        let old_rec = slots.remove(slot_i);
        let updated = SlotRecord {
            name: old_rec.name,
            slot_type: old_rec.slot_type,
            created_by: old_rec.created_by,
            created_at: old_rec.created_at,
            last_registered: old_rec.last_registered,
            last_modified: old_rec.last_modified,
            modified_by: old_rec.modified_by,
            connected_to: change.signal_name,
            description: old_rec.description,
        };
        slots.insert(slot_i, updated);
        proof {
            assert(slots@.map_values(|x: SlotRecord| x@) =~= spec_connect(
                s,
                change.slot_name@,
                change.signal_name@,
            ));
        }
        self.slots = slots;
        Ok(())
    }

    /// The names, in registration order, of the slots connected to `signal`.
    pub fn slots_connected_to(&self, signal: &str) -> (r: Vec<String>)
        ensures
            r.deep_view() == spec_slots_connected_to(
                self.spec_slots(),
                signal@,
                self.spec_slots().len() as int,
            ),
    {
        let mut r: Vec<String> = Vec::new();
        let mut i: usize = 0;
        while i < self.slots.len()
            invariant
                i <= self.slots@.len(),
                r.deep_view() == spec_slots_connected_to(self.spec_slots(), signal@, i as int),
            decreases self.slots@.len() - i,
        {
            if str_eq(self.slots[i].connected_to.as_str(), signal) {
                let n = self.slots[i].name.clone();
                r.push(n);
                proof {
                    assert(r.deep_view() =~= spec_slots_connected_to(
                        self.spec_slots(),
                        signal@,
                        i as int,
                    ).push(self.spec_slots()[i as int].name));
                }
            }
            i = i + 1;
        }
        r
    }

    /// For each signal that has slots connected to it, in registration order,
    /// its name and the names of those slots.
    pub fn connections_impl(&self) -> (r: Vec<(String, Vec<String>)>)
        ensures
            r.deep_view() == spec_connections(
                self.spec_signals(),
                self.spec_slots(),
                self.spec_signals().len() as int,
            ),
    {
        let mut r: Vec<(String, Vec<String>)> = Vec::new();
        let mut k: usize = 0;
        while k < self.signals.len()
            invariant
                k <= self.signals@.len(),
                r.deep_view() == spec_connections(self.spec_signals(), self.spec_slots(), k as int),
            decreases self.signals@.len() - k,
        {
            let group = self.slots_connected_to(self.signals[k].name.as_str());
            if group.len() > 0 {
                let n = self.signals[k].name.clone();
                let ghost g = group.deep_view();
                r.push((n, group));
                proof {
                    assert(r.deep_view() =~= spec_connections(
                        self.spec_signals(),
                        self.spec_slots(),
                        k as int,
                    ).push((self.spec_signals()[k as int].name, g)));
                }
            }
            k = k + 1;
        }
        r
    }

    /// Disconnects a slot: asks to connect it to the signal with the empty
    /// name, which is refused unless such a signal is registered.
    pub fn disconnect_impl(&mut self, slot_name: String) -> (r: Result<(), RulerError>)
        ensures
            final(self).spec_signals() == old(self).spec_signals(),
            spec_can_connect(old(self).spec_signals(), old(self).spec_slots(), slot_name@, Seq::empty())
                ==> r is Ok && final(self).spec_slots() == spec_connect(
                old(self).spec_slots(),
                slot_name@,
                Seq::empty(),
            ),
            !spec_can_connect(old(self).spec_signals(), old(self).spec_slots(), slot_name@, Seq::empty())
                ==> r == Err::<(), RulerError>(RulerError::QueryReturnedNoRows)
                && final(self).spec_slots() == old(self).spec_slots(),
    {
        self.connect_impl(ConnectionChange { slot_name, signal_name: String::new() })
    }
}

/// Registering a slot that is already registered keeps a single record of it
/// and keeps its connection; registering any slot keeps slot names unique.
pub proof fn lemma_slot_reregistration(s: Seq<SlotView>, r: SlotView)
    requires
        slot_names_unique(s),
    ensures
        slot_names_unique(spec_register_slot(s, r)),
        has_slot(spec_register_slot(s, r), r.name),
        has_slot(s, r.name) ==> spec_register_slot(s, r).len() == s.len(),
        has_slot(s, r.name) ==> spec_register_slot(s, r)[slot_index(s, r.name)].connected_to
            == s[slot_index(s, r.name)].connected_to,
{
    let t = spec_register_slot(s, r);
    if has_slot(s, r.name) {
        let i = slot_index(s, r.name);
        assert(t[i].name == r.name);
    } else {
        assert(t[s.len() as int].name == r.name);
    }
}

/// Registering a signal keeps signal names unique and leaves the signal registered.
pub proof fn lemma_signal_registration(s: Seq<SignalView>, r: SignalView)
    requires
        signal_names_unique(s),
    ensures
        signal_names_unique(spec_register_signal(s, r)),
        has_signal(spec_register_signal(s, r), r.name),
        has_signal(s, r.name) ==> spec_register_signal(s, r).len() == s.len(),
{
    let t = spec_register_signal(s, r);
    if has_signal(s, r.name) {
        let i = signal_index(s, r.name);
        assert(t[i].name == r.name);
    } else {
        assert(t[s.len() as int].name == r.name);
    }
}

/// After an accepted connection the slot is connected to the signal.
pub proof fn lemma_connect_sets_connection(
    signals: Seq<SignalView>,
    slots: Seq<SlotView>,
    slot: Seq<char>,
    signal: Seq<char>,
)
    requires
        spec_can_connect(signals, slots, slot, signal),
    ensures
        has_slot(spec_connect(slots, slot, signal), slot),
        spec_connect(slots, slot, signal)[slot_index(slots, slot)].connected_to == signal,
        spec_connect(slots, slot, signal).len() == slots.len(),
{
    let i = slot_index(slots, slot);
    assert(spec_connect(slots, slot, signal)[i].name == slot);
}

/// Whether a slot is connected to `signal`.
pub open spec fn is_connected_to(signal: Seq<char>) -> spec_fn(SlotView) -> bool {
    |v: SlotView| v.connected_to == signal
}

/// The name of a slot.
pub open spec fn slot_name() -> spec_fn(SlotView) -> Seq<char> {
    |v: SlotView| v.name
}

proof fn lemma_connected_prefix(slots: Seq<SlotView>, signal: Seq<char>, k: int)
    requires
        0 <= k <= slots.len(),
    ensures
        spec_slots_connected_to(slots, signal, k) == slots.take(k).filter(
            is_connected_to(signal),
        ).map_values(slot_name()),
        forall|i: int|
            0 <= i < k && slots[i].connected_to == signal ==> spec_slots_connected_to(
                slots,
                signal,
                k,
            ).contains(#[trigger] slots[i].name),
        forall|x: Seq<char>|
            #[trigger] spec_slots_connected_to(slots, signal, k).contains(x) ==> exists|i: int|
                0 <= i < k && slots[i].connected_to == signal && #[trigger] slots[i].name == x,
    decreases k,
{
    reveal(Seq::filter);
    let r = spec_slots_connected_to(slots, signal, k);
    if k == 0 {
        assert(slots.take(0) =~= Seq::<SlotView>::empty());
        assert(slots.take(0).filter(is_connected_to(signal)) =~= Seq::<SlotView>::empty());
        assert(r =~= slots.take(0).filter(is_connected_to(signal)).map_values(slot_name()));
        assert(r.len() == 0);
    } else {
        lemma_connected_prefix(slots, signal, k - 1);
        let prev = spec_slots_connected_to(slots, signal, k - 1);
        let t = slots.take(k);
        assert(t.drop_last() =~= slots.take(k - 1));
        assert(t.last() == slots[k - 1]);
        let fp = slots.take(k - 1).filter(is_connected_to(signal));
        if slots[k - 1].connected_to == signal {
            assert(t.filter(is_connected_to(signal)) == fp.push(slots[k - 1]));
            assert(fp.push(slots[k - 1]).map_values(slot_name()) =~= fp.map_values(slot_name()).push(
                slots[k - 1].name,
            ));
            assert(r == prev.push(slots[k - 1].name));
            assert(r[prev.len() as int] == slots[k - 1].name);
            assert forall|i: int|
                0 <= i < k && slots[i].connected_to == signal implies r.contains(
                #[trigger] slots[i].name,
            ) by {
                if i < k - 1 {
                    let j = choose|j: int| 0 <= j < prev.len() && prev[j] == slots[i].name;
                    assert(r[j] == slots[i].name);
                }
            }
            assert forall|x: Seq<char>| #[trigger] r.contains(x) implies exists|i: int|
                0 <= i < k && slots[i].connected_to == signal && #[trigger] slots[i].name == x by {
                let j = choose|j: int| 0 <= j < r.len() && r[j] == x;
                if j < prev.len() {
                    assert(prev[j] == x);
                    assert(prev.contains(x));
                } else {
                    assert(slots[k - 1].name == x);
                }
            }
        } else {
            assert(t.filter(is_connected_to(signal)) == fp);
            assert(r == prev);
            assert forall|i: int|
                0 <= i < k && slots[i].connected_to == signal implies r.contains(
                #[trigger] slots[i].name,
            ) by {
                assert(i < k - 1);
            }
        }
    }
}

/// The slots listed as connected to `signal` are exactly the slots whose
/// connection is `signal`, each once, in registration order: every such
/// slot is listed, and every name listed is that of such a slot.
pub proof fn lemma_slots_connected_to_are_the_connected(slots: Seq<SlotView>, signal: Seq<char>)
    ensures
        spec_slots_connected_to(slots, signal, slots.len() as int) == slots.filter(
            is_connected_to(signal),
        ).map_values(slot_name()),
        spec_slots_connected_to(slots, signal, slots.len() as int).len() == slots.filter(
            is_connected_to(signal),
        ).len(),
        forall|i: int|
            0 <= i < slots.len() && slots[i].connected_to == signal ==> spec_slots_connected_to(
                slots,
                signal,
                slots.len() as int,
            ).contains(#[trigger] slots[i].name),
        forall|x: Seq<char>|
            #[trigger] spec_slots_connected_to(slots, signal, slots.len() as int).contains(x)
                ==> exists|i: int|
                0 <= i < slots.len() && slots[i].connected_to == signal && #[trigger] slots[i].name
                    == x,
{
    lemma_connected_prefix(slots, signal, slots.len() as int);
    assert(slots.take(slots.len() as int) =~= slots);
}

/// The names of the slots connected to `signal`, in registration order.
pub open spec fn connected_names(slots: Seq<SlotView>, signal: Seq<char>) -> Seq<Seq<char>> {
    slots.filter(is_connected_to(signal)).map_values(slot_name())
}

proof fn lemma_connections_prefix(signals: Seq<SignalView>, slots: Seq<SlotView>, k: int)
    requires
        0 <= k <= signals.len(),
    ensures
        forall|i: int|
            0 <= i < k && connected_names(slots, signals[i].name).len() > 0
                ==> spec_connections(signals, slots, k).contains(
                (signals[i].name, #[trigger] connected_names(slots, signals[i].name)),
            ),
        forall|x: (Seq<char>, Seq<Seq<char>>)|
            #[trigger] spec_connections(signals, slots, k).contains(x) ==> exists|i: int|
                0 <= i < k && x.1.len() > 0 && #[trigger] signals[i].name == x.0 && x.1
                    == connected_names(slots, signals[i].name),
    decreases k,
{
    let r = spec_connections(signals, slots, k);
    if k == 0 {
        assert(r.len() == 0);
    } else {
        lemma_connections_prefix(signals, slots, k - 1);
        let prev = spec_connections(signals, slots, k - 1);
        let name = signals[k - 1].name;
        lemma_slots_connected_to_are_the_connected(slots, name);
        let group = spec_slots_connected_to(slots, name, slots.len() as int);
        assert(group == connected_names(slots, name));
        if group.len() > 0 {
            assert(r == prev.push((name, group)));
            assert(r[prev.len() as int] == (name, group));
            assert forall|i: int|
                0 <= i < k && connected_names(slots, signals[i].name).len() > 0 implies r.contains(
                (signals[i].name, #[trigger] connected_names(slots, signals[i].name)),
            ) by {
                if i < k - 1 {
                    let p = (signals[i].name, connected_names(slots, signals[i].name));
                    let j = choose|j: int| 0 <= j < prev.len() && prev[j] == p;
                    assert(r[j] == p);
                }
            }
            assert forall|x: (Seq<char>, Seq<Seq<char>>)| #[trigger] r.contains(x) implies exists|
                i: int,
            |
                0 <= i < k && x.1.len() > 0 && #[trigger] signals[i].name == x.0 && x.1
                    == connected_names(slots, signals[i].name) by {
                let j = choose|j: int| 0 <= j < r.len() && r[j] == x;
                if j < prev.len() {
                    assert(prev[j] == x);
                    assert(prev.contains(x));
                } else {
                    assert(signals[k - 1].name == x.0);
                }
            }
        } else {
            assert(r == prev);
            assert forall|i: int|
                0 <= i < k && connected_names(slots, signals[i].name).len() > 0 implies r.contains(
                (signals[i].name, #[trigger] connected_names(slots, signals[i].name)),
            ) by {
                assert(i < k - 1);
            }
        }
    }
}

/// The connection list holds, for every signal that has slots connected to
/// it, the signal's name with the names of all those slots in registration
/// order; and it holds nothing else: no entry for a signal without slots.
pub proof fn lemma_connections_are_the_groups(signals: Seq<SignalView>, slots: Seq<SlotView>)
    ensures
        forall|i: int|
            0 <= i < signals.len() && connected_names(slots, signals[i].name).len() > 0
                ==> spec_connections(signals, slots, signals.len() as int).contains(
                (signals[i].name, #[trigger] connected_names(slots, signals[i].name)),
            ),
        forall|x: (Seq<char>, Seq<Seq<char>>)|
            #[trigger] spec_connections(signals, slots, signals.len() as int).contains(x)
                ==> exists|i: int|
                0 <= i < signals.len() && x.1.len() > 0 && #[trigger] signals[i].name == x.0
                    && x.1 == connected_names(slots, signals[i].name),
{
    lemma_connections_prefix(signals, slots, signals.len() as int);
}

/// Registering a slot gives the slot of that name the type, description,
/// creator and registration time of the registration. A slot that was
/// already there keeps its creation time, modification and connection; a new
/// one takes the registration's creation and modification times and is
/// connected to nothing. Every other slot stays as it was.
pub proof fn lemma_registered_slot_fields(s: Seq<SlotView>, r: SlotView)
    requires
        slot_names_unique(s),
    ensures
        ({
            let t = spec_register_slot(s, r);
            &&& t.len() == (if has_slot(s, r.name) { s.len() } else { s.len() + 1 })
            &&& exists|i: int| 0 <= i < t.len() && t[i].name == r.name
            &&& forall|i: int|
                0 <= i < t.len() && #[trigger] t[i].name == r.name ==> {
                    &&& t[i].slot_type == r.slot_type
                    &&& t[i].description == r.description
                    &&& t[i].created_by == r.created_by
                    &&& t[i].last_registered == r.last_registered
                    &&& i < s.len() ==> t[i].created_at == s[i].created_at && t[i].connected_to
                        == s[i].connected_to && t[i].last_modified == s[i].last_modified
                        && t[i].modified_by == s[i].modified_by
                    &&& i >= s.len() ==> t[i].created_at == r.created_at && t[i].connected_to
                        == Seq::<char>::empty() && t[i].last_modified == r.last_modified
                        && t[i].modified_by == Seq::<char>::empty()
                }
            &&& forall|i: int| 0 <= i < s.len() && s[i].name != r.name ==> #[trigger] t[i] == s[i]
        }),
{
    let t = spec_register_slot(s, r);
    if has_slot(s, r.name) {
        let k = slot_index(s, r.name);
        assert(t[k].name == r.name);
        assert forall|i: int| 0 <= i < t.len() && #[trigger] t[i].name == r.name implies i == k by {
            if i != k {
                assert(s[i].name == t[i].name);
            }
        }
    } else {
        assert(t[s.len() as int].name == r.name);
        assert forall|i: int| 0 <= i < t.len() && #[trigger] t[i].name == r.name implies i
            == s.len() by {
            if i < s.len() {
                assert(s[i].name == r.name);
            }
        }
    }
}

/// Registering a signal gives the signal of that name the type, description,
/// creator and registration time of the registration; a signal that was
/// already there keeps its creation time, a new one takes the registration's.
/// Every other signal stays as it was.
pub proof fn lemma_registered_signal_fields(s: Seq<SignalView>, r: SignalView)
    requires
        signal_names_unique(s),
    ensures
        ({
            let t = spec_register_signal(s, r);
            &&& t.len() == (if has_signal(s, r.name) { s.len() } else { s.len() + 1 })
            &&& exists|i: int| 0 <= i < t.len() && t[i].name == r.name
            &&& forall|i: int|
                0 <= i < t.len() && #[trigger] t[i].name == r.name ==> {
                    &&& t[i].sig_type == r.sig_type
                    &&& t[i].description == r.description
                    &&& t[i].created_by == r.created_by
                    &&& t[i].last_registered == r.last_registered
                    &&& i < s.len() ==> t[i].created_at == s[i].created_at
                    &&& i >= s.len() ==> t[i].created_at == r.created_at
                }
            &&& forall|i: int| 0 <= i < s.len() && s[i].name != r.name ==> #[trigger] t[i] == s[i]
        }),
{
    let t = spec_register_signal(s, r);
    if has_signal(s, r.name) {
        let k = signal_index(s, r.name);
        assert(t[k].name == r.name);
        assert forall|i: int| 0 <= i < t.len() && #[trigger] t[i].name == r.name implies i == k by {
            if i != k {
                assert(s[i].name == t[i].name);
            }
        }
    } else {
        assert(t[s.len() as int].name == r.name);
        assert forall|i: int| 0 <= i < t.len() && #[trigger] t[i].name == r.name implies i
            == s.len() by {
            if i < s.len() {
                assert(s[i].name == r.name);
            }
        }
    }
}

/// Registering a slot answers the signal that the slot of that name was
/// connected to, and the empty name for a slot that was not registered.
pub proof fn lemma_register_slot_answer(s: Seq<SlotView>, n: Seq<char>)
    requires
        slot_names_unique(s),
    ensures
        forall|i: int|
            0 <= i < s.len() && #[trigger] s[i].name == n ==> spec_register_slot_answer(s, n)
                == s[i].connected_to,
        (forall|i: int| 0 <= i < s.len() ==> #[trigger] s[i].name != n) ==> spec_register_slot_answer(
            s,
            n,
        ) == Seq::<char>::empty(),
{
    if has_slot(s, n) {
        let k = slot_index(s, n);
        assert forall|i: int| 0 <= i < s.len() && #[trigger] s[i].name == n implies i == k by {}
    }
}

/// A connection is accepted exactly when a slot of that name and a signal of
/// that name are registered with the same type. An accepted connection sets
/// the connection of that slot to the signal, changes nothing else of it and
/// no other slot, and lists the slot among those connected to the signal.
pub proof fn lemma_connect_accepted(
    signals: Seq<SignalView>,
    slots: Seq<SlotView>,
    slot: Seq<char>,
    signal: Seq<char>,
)
    requires
        signal_names_unique(signals),
        slot_names_unique(slots),
    ensures
        spec_can_connect(signals, slots, slot, signal) <==> exists|i: int, j: int|
            0 <= i < slots.len() && 0 <= j < signals.len() && #[trigger] slots[i].name == slot
                && #[trigger] signals[j].name == signal && signals[j].sig_type
                == slots[i].slot_type,
        spec_can_connect(signals, slots, slot, signal) ==> {
            let t = spec_connect(slots, slot, signal);
            &&& t.len() == slots.len()
            &&& forall|i: int|
                0 <= i < slots.len() ==> #[trigger] t[i] == (if slots[i].name == slot {
                    SlotView { connected_to: signal, ..slots[i] }
                } else {
                    slots[i]
                })
            &&& spec_slots_connected_to(t, signal, t.len() as int).contains(slot)
        },
{
    if spec_can_connect(signals, slots, slot, signal) {
        let i = slot_index(slots, slot);
        let j = signal_index(signals, signal);
        assert(slots[i].name == slot && signals[j].name == signal);
        let t = spec_connect(slots, slot, signal);
        assert forall|k: int| 0 <= k < slots.len() && #[trigger] slots[k].name == slot implies k
            == i by {}
        assert(t[i].name == slot && t[i].connected_to == signal);
        lemma_slots_connected_to_are_the_connected(t, signal);
    }
    if exists|i: int, j: int|
        0 <= i < slots.len() && 0 <= j < signals.len() && #[trigger] slots[i].name == slot
            && #[trigger] signals[j].name == signal && signals[j].sig_type == slots[i].slot_type {
        let (i, j) = choose|i: int, j: int|
            0 <= i < slots.len() && 0 <= j < signals.len() && #[trigger] slots[i].name == slot
                && #[trigger] signals[j].name == signal && signals[j].sig_type
                == slots[i].slot_type;
        assert(has_slot(slots, slot));
        assert(has_signal(signals, signal));
        assert(slot_index(slots, slot) == i);
        assert(signal_index(signals, signal) == j);
    }
}

} // verus!
