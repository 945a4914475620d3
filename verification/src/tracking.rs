//! Per-action input state: the last value of every (action, hand) pair, when
//! it last changed and what it was at the last action sync.
use vstd::prelude::*;
use crate::controls::{
    action_name_from_path, action_name_of, digital_slot, hand_from_path, hand_of,
    is_analog_name, resolve_action, resolved_value, ActionValue, ControllerInputs, Hand,
    StickAxes,
};
use crate::text::ascii_lower_seq;
use crate::paths::{lookup, registry_extends, Path, PathRegistry};
use crate::xr::XrTime;
use std::collections::HashMap;

verus! {

broadcast use vstd::std_specs::hash::group_hash_axioms;

/// The `f32` bit pattern is a NaN.
pub open spec fn is_nan_bits(b: u32) -> bool {
    (b & 0x7f80_0000u32) == 0x7f80_0000u32 && (b & 0x007f_ffffu32) != 0
}

/// IEEE-754 equality of two `f32` values given by their bit patterns: no NaN
/// equals anything, and the two zeros are equal.
pub open spec fn f32_bits_eq(a: u32, b: u32) -> bool {
    !is_nan_bits(a) && !is_nan_bits(b) && (a == b || ((a & 0x7fff_ffffu32) == 0 && (b
        & 0x7fff_ffffu32) == 0))
}

/// Equality of action values, as the `==` of the values they stand for.
pub open spec fn value_eq(a: ActionValue, b: ActionValue) -> bool {
    match (a, b) {
        (ActionValue::Bool(x), ActionValue::Bool(y)) => x == y,
        (ActionValue::Vector2(x), ActionValue::Vector2(y)) => f32_bits_eq(x.x_bits, y.x_bits)
            && f32_bits_eq(x.y_bits, y.y_bits),
        (ActionValue::Unresolved, ActionValue::Unresolved) => true,
        _ => false,
    }
}

/// `f32` equality on bit patterns.
pub fn f32_bits_equal(a: u32, b: u32) -> (r: bool)
    ensures
        r == f32_bits_eq(a, b),
{
    let a_nan = (a & 0x7f80_0000u32) == 0x7f80_0000u32 && (a & 0x007f_ffffu32) != 0;
    let b_nan = (b & 0x7f80_0000u32) == 0x7f80_0000u32 && (b & 0x007f_ffffu32) != 0;
    !a_nan && !b_nan && (a == b || ((a & 0x7fff_ffffu32) == 0 && (b & 0x7fff_ffffu32) == 0))
}

/// Equality of two action values.
pub fn values_equal(a: &ActionValue, b: &ActionValue) -> (r: bool)
    ensures
        r == value_eq(*a, *b),
{
    match (a, b) {
        (ActionValue::Bool(x), ActionValue::Bool(y)) => *x == *y,
        (ActionValue::Vector2(x), ActionValue::Vector2(y)) => f32_bits_equal(x.x_bits, y.x_bits)
            && f32_bits_equal(x.y_bits, y.y_bits),
        (ActionValue::Unresolved, ActionValue::Unresolved) => true,
        _ => false,
    }
}

/// Whether an action value maps to a physical input.
pub fn is_resolved(v: &ActionValue) -> (r: bool)
    ensures
        r == !(*v is Unresolved),
{
    match v {
        ActionValue::Unresolved => false,
        _ => true,
    }
}

/// The tracked state of one (action, hand) pair.
#[derive(Debug, Clone, Copy)]
pub struct InputActionEntry {
    pub value: ActionValue,
    /// The value at the last action sync.
    pub previous_synced: ActionValue,
    pub is_active: bool,
    pub last_change_time: XrTime,
}

/// The state of a pair that was never resolved.
pub open spec fn default_entry() -> InputActionEntry {
    InputActionEntry {
        value: ActionValue::Unresolved,
        previous_synced: ActionValue::Unresolved,
        is_active: false,
        last_change_time: XrTime(0),
    }
}

impl InputActionEntry {
    /// The state of a pair that was never resolved.
    pub fn new() -> (e: InputActionEntry)
        ensures
            e == default_entry(),
    {
        InputActionEntry {
            value: ActionValue::Unresolved,
            previous_synced: ActionValue::Unresolved,
            is_active: false,
            last_change_time: XrTime(0),
        }
    }
}

impl Default for InputActionEntry {
    fn default() -> (e: InputActionEntry)
        ensures
            e == default_entry(),
    {
        InputActionEntry::new()
    }
}

/// An entry after a fresh value was read at `now`: the change time moves only
/// when the value differs.
pub open spec fn updated_entry(e: InputActionEntry, v: ActionValue, now: XrTime) -> InputActionEntry {
    InputActionEntry {
        value: v,
        previous_synced: e.previous_synced,
        is_active: !(v is Unresolved),
        last_change_time: if value_eq(e.value, v) {
            e.last_change_time
        } else {
            now
        },
    }
}

/// Merges a freshly resolved value into a tracked entry, updating the last
/// change time when the value changes.
pub fn update_entry(entry: &mut InputActionEntry, value: ActionValue, now: XrTime)
    ensures
        *final(entry) == updated_entry(*old(entry), value, now),
{
    if !values_equal(&entry.value, &value) {
        entry.last_change_time = now;
    }
    entry.value = value;
    entry.is_active = is_resolved(&value);
}

/// The entry after an action sync: the current value becomes the baseline.
pub open spec fn synced_entry(e: InputActionEntry) -> InputActionEntry {
    InputActionEntry { previous_synced: e.value, ..e }
}

/// The action name a registry gives an action handle.
pub open spec fn name_for(reg: Map<u64, Seq<char>>, action: Path) -> Option<Seq<char>> {
    match lookup(reg, action) {
        Some(s) => action_name_of(s),
        None => None,
    }
}

/// The hand a registry gives a sub-action handle.
pub open spec fn hand_for(reg: Map<u64, Seq<char>>, subaction: Path) -> Option<Hand> {
    match lookup(reg, subaction) {
        Some(s) => hand_of(s),
        None => None,
    }
}

/// What an (action, sub-action) pair reads from a pose packet.
pub open spec fn pair_value(
    reg: Map<u64, Seq<char>>,
    inputs: ControllerInputs,
    action: Path,
    subaction: Path,
) -> ActionValue {
    resolved_value(
        name_for(reg, action),
        hand_for(reg, subaction),
        inputs.buttons@,
        inputs.left_thumb,
        inputs.right_thumb,
    )
}

/// The reported state of an action for one hand.
#[derive(Debug, Clone, Copy)]
pub struct ActionReading {
    pub value: ActionValue,
    pub changed_since_last_sync: bool,
    pub is_active: bool,
    pub last_change_time: XrTime,
}

/// What reading a pair reports, given the value just read and the tracked
/// entry afterwards (if any).
pub open spec fn reading_of(v: ActionValue, e: Option<InputActionEntry>, now: XrTime) -> ActionReading {
    match e {
        Some(e) => ActionReading {
            value: v,
            changed_since_last_sync: !(v is Unresolved) && !value_eq(e.value, e.previous_synced),
            is_active: e.is_active,
            last_change_time: e.last_change_time,
        },
        None => ActionReading {
            value: v,
            changed_since_last_sync: !(v is Unresolved),
            is_active: !(v is Unresolved),
            last_change_time: now,
        },
    }
}

/// The tracked state after a value `v` is read for the pair `k` at `now`: an
/// unresolved value leaves it as it is.
pub open spec fn after_read(
    m: Map<(u64, u64), InputActionEntry>,
    k: (u64, u64),
    v: ActionValue,
    now: XrTime,
) -> Map<(u64, u64), InputActionEntry> {
    if v is Unresolved {
        m
    } else {
        m.insert(
            k,
            updated_entry(
                if m.contains_key(k) {
                    m[k]
                } else {
                    default_entry()
                },
                v,
                now,
            ),
        )
    }
}

/// Every tracked pair resolved to a value and is active: a pair is recorded
/// only when it resolves, and a sync keeps its value.
pub open spec fn entries_active(m: Map<(u64, u64), InputActionEntry>) -> bool {
    forall|k: (u64, u64)|
        #[trigger] m.contains_key(k) ==> m[k].is_active && !(m[k].value is Unresolved)
}

/// The value read for a pair: from the pose packet where there is one, else the
/// value last recorded (unresolved for a pair never recorded).
pub open spec fn value_read(
    m: Map<(u64, u64), InputActionEntry>,
    reg: Map<u64, Seq<char>>,
    inputs: Option<&ControllerInputs>,
    action: Path,
    subaction: Path,
) -> ActionValue {
    let k = (action.0, subaction.0);
    match inputs {
        None => if m.contains_key(k) {
            m[k].value
        } else {
            ActionValue::Unresolved
        },
        Some(p) => pair_value(reg, *p, action, subaction),
    }
}

/// The tracked state after a pair was read: a read without a packet records
/// nothing.
pub open spec fn tracker_after(
    m: Map<(u64, u64), InputActionEntry>,
    reg: Map<u64, Seq<char>>,
    inputs: Option<&ControllerInputs>,
    action: Path,
    subaction: Path,
    now: XrTime,
) -> Map<(u64, u64), InputActionEntry> {
    match inputs {
        None => m,
        Some(_) => after_read(
            m,
            (action.0, subaction.0),
            value_read(m, reg, inputs, action, subaction),
            now,
        ),
    }
}

/// What reading a pair reports.
pub open spec fn state_reading(
    m: Map<(u64, u64), InputActionEntry>,
    reg: Map<u64, Seq<char>>,
    inputs: Option<&ControllerInputs>,
    action: Path,
    subaction: Path,
    now: XrTime,
) -> ActionReading {
    let k = (action.0, subaction.0);
    let after = tracker_after(m, reg, inputs, action, subaction, now);
    reading_of(
        value_read(m, reg, inputs, action, subaction),
        if after.contains_key(k) {
            Some(after[k])
        } else {
            None
        },
        now,
    )
}

/// The tracked state of every (action, sub-action) pair read so far, by
/// action handle and then sub-action handle.
pub struct InputTracker {
    entries: HashMap<u64, HashMap<u64, InputActionEntry>>,
}

impl InputTracker {
    #[verifier::type_invariant]
    spec fn tracked_pairs_active(self) -> bool {
        entries_active(self@)
    }
}

/// The pairs held by nested maps, keyed by (action, sub-action).
pub open spec fn pairs_of(m: Map<u64, HashMap<u64, InputActionEntry>>) -> Map<
    (u64, u64),
    InputActionEntry,
> {
    Map::new(
        |k: (u64, u64)| m.contains_key(k.0) && m[k.0]@.contains_key(k.1),
        |k: (u64, u64)| m[k.0]@[k.1],
    )
}

impl View for InputTracker {
    type V = Map<(u64, u64), InputActionEntry>;

    closed spec fn view(&self) -> Map<(u64, u64), InputActionEntry> {
        pairs_of(self.entries@)
    }
}

/// An inner map with every entry synced.
fn synced_inner(inner: &HashMap<u64, InputActionEntry>) -> (r: HashMap<u64, InputActionEntry>)
    ensures
        r@ == inner@.map_values(|e: InputActionEntry| synced_entry(e)),
{
    let mut out: HashMap<u64, InputActionEntry> = HashMap::new();
    for (s, e) in it: inner.iter()
        invariant
            forall|i: int|
                0 <= i < it.seq().len() ==> inner@.contains_key(*it.seq()[i].0) && inner@[*it.seq()[i].0]
                    == *it.seq()[i].1,
            forall|k: u64| #[trigger]
                inner@.contains_key(k) ==> out@.contains_key(k) || exists|i: int|
                    it.index() <= i < it.seq().len() && *it.seq()[i].0 == k,
            forall|k: u64| #[trigger]
                out@.contains_key(k) ==> inner@.contains_key(k) && out@[k] == synced_entry(inner@[k]),
    {
        let x = *e;
        out.insert(*s, InputActionEntry { previous_synced: x.value, ..x });
    }
    proof {
        assert(out@ =~= inner@.map_values(|e: InputActionEntry| synced_entry(e)));
    }
    out
}

impl InputTracker {
    /// No pair tracked yet.
    pub fn new() -> (t: InputTracker)
        ensures
            t@ == Map::<(u64, u64), InputActionEntry>::empty(),
            entries_active(t@),
    {
        let t = InputTracker { entries: HashMap::new() };
        proof {
            assert(t@ =~= Map::<(u64, u64), InputActionEntry>::empty());
        }
        t
    }

    /// The tracked entry of a pair, if it was ever resolved. Every tracked
    /// pair is active and resolved.
    pub fn entry(&self, action: Path, subaction: Path) -> (r: Option<InputActionEntry>)
        ensures
            r == (if self@.contains_key((action.0, subaction.0)) {
                Some(self@[(action.0, subaction.0)])
            } else {
                None::<InputActionEntry>
            }),
            entries_active(self@),
    {
        proof {
            use_type_invariant(self);
        }
        match self.entries.get(&action.0) {
            Some(inner) => match inner.get(&subaction.0) {
                Some(e) => Some(*e),
                None => None,
            },
            None => None,
        }
    }

    /// Stores the freshly resolved value of a pair.
    fn record(&mut self, action: u64, subaction: u64, value: ActionValue, now: XrTime)
        requires
            !(value is Unresolved),
        ensures
            final(self)@ == old(self)@.insert(
                (action, subaction),
                updated_entry(
                    if old(self)@.contains_key((action, subaction)) {
                        old(self)@[(action, subaction)]
                    } else {
                        default_entry()
                    },
                    value,
                    now,
                ),
            ),
    {
        proof {
            use_type_invariant(&*self);
        }
        let ghost old_view = self@;
        let mut entries: HashMap<u64, HashMap<u64, InputActionEntry>> = HashMap::new();
        std::mem::swap(&mut entries, &mut self.entries);
        proof {
            assert(pairs_of(entries@) == old_view);
        }
        let ghost old_entries = entries@;
        let mut inner = match entries.remove(&action) {
            Some(i) => i,
            None => HashMap::new(),
        };
        let ghost old_inner = inner@;
        let mut e = match inner.get(&subaction) {
            Some(x) => *x,
            None => InputActionEntry::new(),
        };
        update_entry(&mut e, value, now);
        inner.insert(subaction, e);
        entries.insert(action, inner);
        proof {
            let k = (action, subaction);
            let target = old_view.insert(k, e);
            assert(e == updated_entry(
                if old_view.contains_key(k) {
                    old_view[k]
                } else {
                    default_entry()
                },
                value,
                now,
            ));
            assert forall|kk: (u64, u64)| #[trigger] pairs_of(entries@).contains_key(kk)
                == target.contains_key(kk) by {}
            assert forall|kk: (u64, u64)| #[trigger] pairs_of(entries@).contains_key(kk) implies pairs_of(
                entries@,
            )[kk] == target[kk] by {}
            assert(pairs_of(entries@) =~= target);
        }
        self.entries = entries;
    }

    /// Reads the value of an action for a sub-action path from the latest pose
    /// packet and records it. Without a packet the last recorded value stands.
    pub fn action_value_from_input(
        &mut self,
        registry: &PathRegistry,
        inputs: Option<&ControllerInputs>,
        action: Path,
        subaction: Path,
        now: XrTime,
    ) -> (r: ActionValue)
        ensures
            r == value_read(old(self)@, registry@, inputs, action, subaction),
            final(self)@ == tracker_after(old(self)@, registry@, inputs, action, subaction, now),
            entries_active(final(self)@),
    {
        proof {
            use_type_invariant(&*self);
        }
        let inputs = match inputs {
            None => {
                return match self.entry(action, subaction) {
                    Some(e) => e.value,
                    None => ActionValue::Unresolved,
                };
            },
            Some(p) => p,
        };
        let name = action_name_from_path(registry, action.0);
        let hand = if subaction.0 == 0 {
            None
        } else {
            hand_from_path(registry, subaction.0)
        };
        proof {
            assert(hand == hand_for(registry@, subaction));
        }
        let value = resolve_action(name, hand, inputs);
        if is_resolved(&value) {
            self.record(action.0, subaction.0, value, now);
        }
        proof {
            use_type_invariant(&*self);
        }
        value
    }

    /// Reads an action for a sub-action path and reports its state: the value,
    /// whether it changed since the last sync, whether it is active, and when it
    /// last changed.
    pub fn action_state(
        &mut self,
        registry: &PathRegistry,
        inputs: Option<&ControllerInputs>,
        action: Path,
        subaction: Path,
        now: XrTime,
    ) -> (r: ActionReading)
        ensures
            r == state_reading(old(self)@, registry@, inputs, action, subaction, now),
            final(self)@ == tracker_after(old(self)@, registry@, inputs, action, subaction, now),
            entries_active(final(self)@),
    {
        let value = self.action_value_from_input(registry, inputs, action, subaction, now);
        match self.entry(action, subaction) {
            Some(e) => ActionReading {
                value,
                changed_since_last_sync: is_resolved(&value) && !values_equal(
                    &e.value,
                    &e.previous_synced,
                ),
                is_active: e.is_active,
                last_change_time: e.last_change_time,
            },
            None => {
                let resolved = is_resolved(&value);
                ActionReading {
                    value,
                    changed_since_last_sync: resolved,
                    is_active: resolved,
                    last_change_time: now,
                }
            },
        }
    }

    /// Whether an action maps to a physical input of the hand of a sub-action
    /// path, reading (and recording) its value like `action_value_from_input`.
    pub fn is_active(
        &mut self,
        registry: &PathRegistry,
        inputs: Option<&ControllerInputs>,
        action: Path,
        subaction: Path,
        now: XrTime,
    ) -> (r: bool)
        ensures
            r == !(value_read(old(self)@, registry@, inputs, action, subaction) is Unresolved),
            final(self)@ == tracker_after(old(self)@, registry@, inputs, action, subaction, now),
            entries_active(final(self)@),
    {
        let value = self.action_value_from_input(registry, inputs, action, subaction, now);
        is_resolved(&value)
    }

    /// Commits the current value of every pair as the baseline for
    /// `changed_since_last_sync`.
    pub fn sync_actions(&mut self)
        ensures
            final(self)@ == old(self)@.map_values(|e: InputActionEntry| synced_entry(e)),
            entries_active(final(self)@),
    {
        proof {
            use_type_invariant(&*self);
        }
        let ghost old_view = self@;
        let mut entries: HashMap<u64, HashMap<u64, InputActionEntry>> = HashMap::new();
        std::mem::swap(&mut entries, &mut self.entries);
        proof {
            assert(pairs_of(entries@) == old_view);
        }
        let mut out: HashMap<u64, HashMap<u64, InputActionEntry>> = HashMap::new();
        for (a, inner) in it: entries.iter()
            invariant
                forall|i: int|
                    0 <= i < it.seq().len() ==> entries@.contains_key(*it.seq()[i].0)
                        && entries@[*it.seq()[i].0] == *it.seq()[i].1,
                forall|k: u64| #[trigger]
                    entries@.contains_key(k) ==> out@.contains_key(k) || exists|i: int|
                        it.index() <= i < it.seq().len() && *it.seq()[i].0 == k,
                forall|k: u64| #[trigger]
                    out@.contains_key(k) ==> entries@.contains_key(k) && out@[k]@
                        == entries@[k]@.map_values(|e: InputActionEntry| synced_entry(e)),
        {
            let synced = synced_inner(inner);
            out.insert(*a, synced);
        }
        proof {
            let target = old_view.map_values(|e: InputActionEntry| synced_entry(e));
            assert forall|a: u64| #[trigger] entries@.contains_key(a) implies out@.contains_key(a) by {}
            assert forall|kk: (u64, u64)| #[trigger] pairs_of(out@).contains_key(kk)
                == target.contains_key(kk) by {}
            assert forall|kk: (u64, u64)| #[trigger] pairs_of(out@).contains_key(kk) implies pairs_of(
                out@,
            )[kk] == target[kk] by {}
            assert(pairs_of(out@) =~= target);
        }
        self.entries = out;
    }
}

/// Whether an (action, sub-action) pair resolves under a registry: the action
/// names a thumbstick, or a button of the hand that the sub-action names. This
/// does not depend on what the pose packet reports.
pub open spec fn pair_resolves(reg: Map<u64, Seq<char>>, action: Path, subaction: Path) -> bool {
    match (name_for(reg, action), hand_for(reg, subaction)) {
        (Some(n), Some(h)) => is_analog_name(ascii_lower_seq(n)) || digital_slot(
            ascii_lower_seq(n),
            h,
        ) is Some,
        _ => false,
    }
}

/// Every tracked pair resolves under the registry `reg`.
pub open spec fn tracked_under(m: Map<(u64, u64), InputActionEntry>, reg: Map<u64, Seq<char>>) -> bool {
    forall|k: (u64, u64)| #[trigger] m.contains_key(k) ==> pair_resolves(reg, Path(k.0), Path(k.1))
}

/// A pair read from any pose packet resolves exactly when the pair resolves.
pub proof fn lemma_pair_value_resolves(
    reg: Map<u64, Seq<char>>,
    inputs: ControllerInputs,
    action: Path,
    subaction: Path,
)
    ensures
        !(pair_value(reg, inputs, action, subaction) is Unresolved) == pair_resolves(
            reg,
            action,
            subaction,
        ),
{
}

/// A pair that resolves under a registry resolves under every registry that
/// extends it.
pub proof fn lemma_resolves_under_extension(
    reg0: Map<u64, Seq<char>>,
    reg: Map<u64, Seq<char>>,
    action: Path,
    subaction: Path,
)
    requires
        registry_extends(reg, reg0),
        pair_resolves(reg0, action, subaction),
    ensures
        pair_resolves(reg, action, subaction),
{
    assert(reg0.contains_key(action.0));
    assert(reg0.contains_key(subaction.0));
}

/// Tracked pairs that resolve under a registry resolve under every registry
/// that extends it.
pub proof fn lemma_tracked_under_extension(
    m: Map<(u64, u64), InputActionEntry>,
    reg0: Map<u64, Seq<char>>,
    reg: Map<u64, Seq<char>>,
)
    requires
        tracked_under(m, reg0),
        registry_extends(reg, reg0),
    ensures
        tracked_under(m, reg),
{
    assert forall|k: (u64, u64)| #[trigger] m.contains_key(k) implies pair_resolves(
        reg,
        Path(k.0),
        Path(k.1),
    ) by {
        lemma_resolves_under_extension(reg0, reg, Path(k.0), Path(k.1));
    }
}

/// Reading a pair under a registry keeps every tracked pair resolving under it.
pub proof fn lemma_read_keeps_tracked_under(
    m: Map<(u64, u64), InputActionEntry>,
    reg: Map<u64, Seq<char>>,
    inputs: Option<&ControllerInputs>,
    action: Path,
    subaction: Path,
    now: XrTime,
)
    requires
        tracked_under(m, reg),
    ensures
        tracked_under(tracker_after(m, reg, inputs, action, subaction, now), reg),
{
    if let Some(p) = inputs {
        lemma_pair_value_resolves(reg, *p, action, subaction);
    }
}

/// Syncing keeps every tracked pair resolving under a registry.
pub proof fn lemma_sync_keeps_tracked_under(
    m: Map<(u64, u64), InputActionEntry>,
    reg: Map<u64, Seq<char>>,
)
    requires
        tracked_under(m, reg),
    ensures
        tracked_under(m.map_values(|e: InputActionEntry| synced_entry(e)), reg),
{
}

/// A read and an active check on the same tracked state, registry and inputs
/// agree on whether the action is active, where the tracker was filled under a
/// registry that the current one extends (as registering paths only does).
pub proof fn lemma_state_and_active_agree(
    m: Map<(u64, u64), InputActionEntry>,
    reg0: Map<u64, Seq<char>>,
    reg: Map<u64, Seq<char>>,
    inputs: Option<&ControllerInputs>,
    action: Path,
    subaction: Path,
    now: XrTime,
)
    requires
        entries_active(m),
        tracked_under(m, reg0),
        registry_extends(reg, reg0),
    ensures
        state_reading(m, reg, inputs, action, subaction, now).is_active == !(value_read(
            m,
            reg,
            inputs,
            action,
            subaction,
        ) is Unresolved),
{
    lemma_tracked_under_extension(m, reg0, reg);
    if let Some(p) = inputs {
        lemma_pair_value_resolves(reg, *p, action, subaction);
        let k = (action.0, subaction.0);
        if m.contains_key(k) {
            assert(pair_resolves(reg, Path(k.0), Path(k.1)));
        }
    }
}

/// An action sync makes `changed_since_last_sync` report transitions only: right
/// after a sync, reading a pair reports a change exactly when it resolves to a
/// value that differs from the one it held at the sync (a pair never read before
/// held none).
pub proof fn lemma_sync_reports_transitions(
    m: Map<(u64, u64), InputActionEntry>,
    reg: Map<u64, Seq<char>>,
    inputs: &ControllerInputs,
    action: Path,
    subaction: Path,
    now: XrTime,
)
    ensures
        ({
            let k = (action.0, subaction.0);
            let v = pair_value(reg, *inputs, action, subaction);
            state_reading(
                m.map_values(|e: InputActionEntry| synced_entry(e)),
                reg,
                Some(inputs),
                action,
                subaction,
                now,
            ).changed_since_last_sync == (!(v is Unresolved) && !(m.contains_key(k) && value_eq(
                v,
                m[k].value,
            )))
        }),
{
    let k = (action.0, subaction.0);
    let synced = m.map_values(|e: InputActionEntry| synced_entry(e));
    if m.contains_key(k) {
        assert(synced[k] == synced_entry(m[k]));
    }
}

/// Syncing twice in a row leaves the tracked state as syncing once.
pub proof fn lemma_sync_idempotent(m: Map<(u64, u64), InputActionEntry>)
    ensures
        m.map_values(|e: InputActionEntry| synced_entry(e)).map_values(
            |e: InputActionEntry| synced_entry(e),
        ) == m.map_values(|e: InputActionEntry| synced_entry(e)),
{
    let once = m.map_values(|e: InputActionEntry| synced_entry(e));
    let twice = once.map_values(|e: InputActionEntry| synced_entry(e));
    assert(twice =~= once);
}

/// Two thumbstick values are equal exactly as `f32` pairs are: neither may
/// hold a NaN, and on each axis (x and y alike) the two values have the same
/// bits or are both zeros. In particular values that differ on one axis by a
/// non-zero number are never equal, whatever the other axis holds.
pub proof fn lemma_stick_values_compare_both_axes(a: StickAxes, b: StickAxes)
    ensures
        value_eq(ActionValue::Vector2(a), ActionValue::Vector2(b)) ==> {
            &&& a.x_bits == b.x_bits || ((a.x_bits & 0x7fff_ffffu32) == 0 && (b.x_bits
                & 0x7fff_ffffu32) == 0)
            &&& a.y_bits == b.y_bits || ((a.y_bits & 0x7fff_ffffu32) == 0 && (b.y_bits
                & 0x7fff_ffffu32) == 0)
            &&& !is_nan_bits(a.x_bits) && !is_nan_bits(a.y_bits)
        },
        a == b && !is_nan_bits(a.x_bits) && !is_nan_bits(a.y_bits) ==> value_eq(
            ActionValue::Vector2(a),
            ActionValue::Vector2(b),
        ),
        value_eq(ActionValue::Vector2(a), ActionValue::Vector2(b)) == value_eq(
            ActionValue::Vector2(b),
            ActionValue::Vector2(a),
        ),
{
}

/// Button values are equal exactly when they hold the same state; values of
/// different kinds are never equal.
pub proof fn lemma_value_kinds_compare(x: bool, y: bool, s: StickAxes)
    ensures
        value_eq(ActionValue::Bool(x), ActionValue::Bool(y)) == (x == y),
        !value_eq(ActionValue::Bool(x), ActionValue::Vector2(s)),
        !value_eq(ActionValue::Vector2(s), ActionValue::Bool(x)),
        !value_eq(ActionValue::Bool(x), ActionValue::Unresolved),
        !value_eq(ActionValue::Vector2(s), ActionValue::Unresolved),
        value_eq(ActionValue::Unresolved, ActionValue::Unresolved),
{
}

} // verus!
