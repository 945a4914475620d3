//! Action sets, actions and their states, and the loading of an OpenVR action
//! manifest into them.
use vstd::prelude::*;
use vstd::hash_map::StringHashMap;
use std::marker::PhantomData;
use crate::controls::{ActionValue, ControllerInputs, Hand, StickAxes};
use crate::paths::{registered, Path, PathRegistry, RawAction};
use crate::text::{chars_of, occurs_at, string_of};
use crate::tracking::{state_reading, tracker_after, value_read, ActionReading, InputTracker};
use crate::controls::last_occurrence;
use crate::xr::{SessionCreationError, XrTime};

verus! {

// ---------------------------------------------------------------------------
// Action value types
// ---------------------------------------------------------------------------

/// Marker type of haptic (vibration) actions.
#[derive(Debug, Clone, Copy, PartialEq, Eq, Structural)]
pub struct HapticTy;

/// A single-axis (`f32`) action value, as its IEEE-754 bit pattern.
#[derive(Debug, Clone, Copy, PartialEq, Eq, Structural)]
pub struct F32Bits(pub u32);

/// Bit pattern of `1.0f32`.
pub const F32_ONE_BITS: u32 = 0x3f80_0000;

/// The types an action reports its state in.
pub trait ActionTy: Sized {
    /// The state of this type that an action value stands for.
    spec fn from_value_spec(v: ActionValue) -> Self;

    /// The state of this type that an action value stands for.
    fn from_value(v: &ActionValue) -> (r: Self)
        ensures
            r == Self::from_value_spec(*v),
    ;
}

impl ActionTy for bool {
    /// A button reads as its state; anything else as released.
    open spec fn from_value_spec(v: ActionValue) -> bool {
        match v {
            ActionValue::Bool(b) => b,
            _ => false,
        }
    }

    fn from_value(v: &ActionValue) -> (r: bool) {
        match v {
            ActionValue::Bool(b) => *b,
            _ => false,
        }
    }
}

impl ActionTy for F32Bits {
    /// Triggers and grips are buttons: a pressed one reads 1.0, anything else 0.0.
    open spec fn from_value_spec(v: ActionValue) -> F32Bits {
        match v {
            ActionValue::Bool(b) => if b {
                F32Bits(F32_ONE_BITS)
            } else {
                F32Bits(0)
            },
            _ => F32Bits(0),
        }
    }

    fn from_value(v: &ActionValue) -> (r: F32Bits) {
        match v {
            ActionValue::Bool(b) => if *b {
                F32Bits(F32_ONE_BITS)
            } else {
                F32Bits(0)
            },
            _ => F32Bits(0),
        }
    }
}

impl ActionTy for StickAxes {
    /// A thumbstick reads as its axes; anything else as centered.
    open spec fn from_value_spec(v: ActionValue) -> StickAxes {
        match v {
            ActionValue::Vector2(a) => a,
            _ => StickAxes { x_bits: 0, y_bits: 0 },
        }
    }

    fn from_value(v: &ActionValue) -> (r: StickAxes) {
        match v {
            ActionValue::Vector2(a) => *a,
            _ => StickAxes { x_bits: 0, y_bits: 0 },
        }
    }
}

impl ActionTy for HapticTy {
    open spec fn from_value_spec(v: ActionValue) -> HapticTy {
        HapticTy
    }

    fn from_value(v: &ActionValue) -> (r: HapticTy) {
        HapticTy
    }
}

// ---------------------------------------------------------------------------
// Action sets, actions, states, bindings
// ---------------------------------------------------------------------------

/// A set of actions.
#[derive(Debug)]
pub struct ActionSet {
    pub name: String,
    pub localized_name: String,
    pub priority: u32,
}

/// The spec value of an action set's path of actions: `/actions/<set>/in/<name>`.
pub open spec fn action_path_text(set_name: Seq<char>, name: Seq<char>) -> Seq<char> {
    "/actions/"@ + set_name + "/in/"@ + name
}

/// A handle-bearing action whose state is reported as `T`.
#[derive(Debug)]
pub struct Action<T> {
    pub name: String,
    pub path: Path,
    pub kind: PhantomData<T>,
}

impl<T> Clone for Action<T> {
    fn clone(&self) -> (a: Action<T>)
        ensures
            a.name@ == self.name@,
            a.path == self.path,
    {
        Action { name: self.name.clone(), path: self.path, kind: PhantomData }
    }
}

impl ActionSet {
    pub fn new(name: &str, localized_name: &str, priority: u32) -> (s: ActionSet)
        ensures
            s.name@ == name@,
            s.localized_name@ == localized_name@,
            s.priority == priority,
    {
        ActionSet { name: name.to_string(), localized_name: localized_name.to_string(), priority }
    }

    /// A copy of this set.
    pub fn duplicate(&self) -> (s: ActionSet)
        ensures
            s == *self,
    {
        ActionSet {
            name: self.name.clone(),
            localized_name: self.localized_name.clone(),
            priority: self.priority,
        }
    }

    /// Creates an action of this set. Its handle is that of the path
    /// `/actions/<set>/in/<name>`, which is registered.
    pub fn create_action<T>(
        &self,
        registry: &mut PathRegistry,
        name: &str,
        localized_name: &str,
        subaction_paths: &[Path],
    ) -> (r: Result<Action<T>, SessionCreationError>)
        ensures
            r matches Ok(a) && a.name@ == name@ && final(registry)@ == registered(
                old(registry)@,
                a.path.0,
                action_path_text(self.name@, name@),
            ) && a.path.0 == crate::paths::chars_hash(action_path_text(self.name@, name@)),
    {
        let mut p = "/actions/".to_string();
        p.append(self.name.as_str());
        p.append("/in/");
        p.append(name);
        let path = registry.string_to_path_global(p.as_str());
        Ok(Action { name: name.to_string(), path, kind: PhantomData })
    }

    /// Suggesting bindings for an action set is accepted and has no effect.
    pub fn suggest_interaction_profile_bindings(&self, profile: Path, bindings: &[Path]) -> (r:
        Result<(), SessionCreationError>)
        ensures
            r is Ok,
    {
        Ok(())
    }
}

/// The state of an action for one hand, reported as `T`.
#[derive(Debug)]
pub struct ActionState<T> {
    pub current_state: T,
    pub changed_since_last_sync: bool,
    pub is_active: bool,
    pub last_change_time: XrTime,
}

impl<T: Copy> ActionState<T> {
    pub fn current_state(&self) -> (r: T)
        ensures
            r == self.current_state,
    {
        self.current_state
    }
}

impl<T> ActionState<T> {
    pub fn is_active(&self) -> (r: bool)
        ensures
            r == self.is_active,
    {
        self.is_active
    }

    pub fn changed_since_last_sync(&self) -> (r: bool)
        ensures
            r == self.changed_since_last_sync,
    {
        self.changed_since_last_sync
    }

    pub fn last_change_time(&self) -> (r: XrTime)
        ensures
            r == self.last_change_time,
    {
        self.last_change_time
    }

    /// The current state, consuming the report.
    pub fn unwrap(self) -> (r: T)
        ensures
            r == self.current_state,
    {
        self.current_state
    }
}

impl<T: ActionTy> Default for ActionState<T> {
    /// The state of an action that was never read: its type's rest value,
    /// inactive and unchanged.
    fn default() -> (s: ActionState<T>)
        ensures
            s == (ActionState {
                current_state: T::from_value_spec(ActionValue::Unresolved),
                changed_since_last_sync: false,
                is_active: false,
                last_change_time: XrTime(0),
            }),
    {
        ActionState {
            current_state: T::from_value(&ActionValue::Unresolved),
            changed_since_last_sync: false,
            is_active: false,
            last_change_time: XrTime(0),
        }
    }
}

impl ActionState<bool> {
    /// The current state of a button action.
    pub fn state(&self) -> (r: bool)
        ensures
            r == self.current_state,
    {
        self.current_state
    }
}

/// The state that an action of type `T` reports for a reading.
pub open spec fn state_of<T: ActionTy>(rd: ActionReading) -> ActionState<T> {
    ActionState {
        current_state: T::from_value_spec(rd.value),
        changed_since_last_sync: rd.changed_since_last_sync,
        is_active: rd.is_active,
        last_change_time: rd.last_change_time,
    }
}

impl<T: ActionTy> Action<T> {
    pub fn as_raw(&self) -> (r: RawAction)
        ensures
            r == RawAction(self.path.0),
    {
        RawAction(self.path.0)
    }

    /// The path handle of the action, consuming it.
    pub fn unwrap(self) -> (p: Path)
        ensures
            p == self.path,
    {
        self.path
    }

    /// The state of the action for the hand of `subaction_path`, read from the
    /// latest pose packet at `now` and recorded in `tracker`.
    pub fn state(
        &self,
        tracker: &mut InputTracker,
        registry: &PathRegistry,
        inputs: Option<&ControllerInputs>,
        subaction_path: Path,
        now: XrTime,
    ) -> (r: Result<ActionState<T>, SessionCreationError>)
        ensures
            r == Ok::<ActionState<T>, SessionCreationError>(
                state_of(state_reading(old(tracker)@, registry@, inputs, self.path, subaction_path, now)),
            ),
            final(tracker)@ == tracker_after(
                old(tracker)@,
                registry@,
                inputs,
                self.path,
                subaction_path,
                now,
            ),
    {
        let rd = tracker.action_state(registry, inputs, self.path, subaction_path, now);
        Ok(
            ActionState {
                current_state: T::from_value(&rd.value),
                changed_since_last_sync: rd.changed_since_last_sync,
                is_active: rd.is_active,
                last_change_time: rd.last_change_time,
            },
        )
    }

    /// Whether the action maps to a physical input of the hand of
    /// `subaction_path`.
    pub fn is_active(
        &self,
        tracker: &mut InputTracker,
        registry: &PathRegistry,
        inputs: Option<&ControllerInputs>,
        subaction_path: Path,
        now: XrTime,
    ) -> (r: Result<bool, SessionCreationError>)
        ensures
            r == Ok::<bool, SessionCreationError>(
                !(value_read(old(tracker)@, registry@, inputs, self.path, subaction_path) is Unresolved),
            ),
            final(tracker)@ == tracker_after(
                old(tracker)@,
                registry@,
                inputs,
                self.path,
                subaction_path,
                now,
            ),
    {
        Ok(tracker.is_active(registry, inputs, self.path, subaction_path, now))
    }
}

/// An action set made active for syncing, for all hands.
#[derive(Debug)]
pub struct ActiveActionSet {
    pub action_set: ActionSet,
    pub subaction_path: Option<Path>,
}

impl ActiveActionSet {
    pub fn new(action_set: &ActionSet) -> (a: ActiveActionSet)
        ensures
            a.action_set == *action_set,
            a.subaction_path is None,
    {
        ActiveActionSet { action_set: action_set.duplicate(), subaction_path: None }
    }
}

impl<'a> From<&'a ActionSet> for ActiveActionSet {
    fn from(action_set: &'a ActionSet) -> (a: ActiveActionSet) {
        ActiveActionSet::new(action_set)
    }
}

impl<'a> vstd::std_specs::convert::FromSpecImpl<&'a ActionSet> for ActiveActionSet {
    open spec fn obeys_from_spec() -> bool {
        true
    }

    open spec fn from_spec(action_set: &'a ActionSet) -> ActiveActionSet {
        ActiveActionSet { action_set: *action_set, subaction_path: None }
    }
}

/// A suggested binding of an action to an input path.
#[derive(Debug, Clone, Copy, PartialEq, Eq, Structural)]
pub struct Binding {
    pub action: Path,
    pub path: Path,
}

impl Binding {
    pub fn new(action: &Path, path: &Path) -> (b: Binding)
        ensures
            b.action == *action,
            b.path == *path,
    {
        Binding { action: *action, path: *path }
    }
}

// ---------------------------------------------------------------------------
// Action manifests
// ---------------------------------------------------------------------------

/// Errors of loading an action manifest, as OpenVR's input errors.
#[derive(Debug, Clone, Copy, PartialEq, Eq, Structural)]
pub enum InputError {
    InvalidParam,
    NameNotFound,
}

/// Names the result of `str::to_lowercase`: lower-casing by the Unicode rules,
/// which depend on the text alone (no locale).
pub uninterp spec fn unicode_lowercase(s: Seq<char>) -> Seq<char>;

/// Calls `str::to_lowercase`; its result is named `unicode_lowercase`.
#[verifier::external_body]
fn to_lowercase(s: &str) -> (r: String)
    ensures
        r@ == unicode_lowercase(s@),
{
    s.to_lowercase()
}

/// End of the action set part of an action path: the index of its third `/`
/// (scanning from `i` with `count` slashes seen), or its length.
pub open spec fn set_part_end(p: Seq<char>, i: int, count: nat) -> int
    decreases p.len() - i,
{
    if i >= p.len() || i < 0 {
        p.len() as int
    } else if p[i] == '/' {
        if count == 2 {
            i
        } else {
            set_part_end(p, i + 1, count + 1)
        }
    } else {
        set_part_end(p, i + 1, count)
    }
}

/// The action set of an action path: `/actions/<set>` out of
/// `/actions/<set>/in/<name>`.
pub open spec fn set_name_of(p: Seq<char>) -> Seq<char> {
    p.take(set_part_end(p, 0, 0))
}

/// The action name of an action path: what follows its last `/`.
pub open spec fn cleaned_name_of(p: Seq<char>) -> Seq<char> {
    match last_occurrence(p, "/"@) {
        Some(i) => p.skip(i + 1),
        None => p,
    }
}

/// An action path of a manifest: `/actions/<set>/in/<name>`.
#[derive(Debug)]
pub struct ActionPath {
    pub path: String,
}

impl ActionPath {
    /// The action set part of the path (see `set_name_of`).
    pub fn action_set_name(&self) -> (r: String)
        ensures
            r@ == set_name_of(self.path@),
    {
        let cs = chars_of(self.path.as_str());
        let mut i: usize = 0;
        let mut count: usize = 0;
        while i < cs.len() && !(cs[i] == '/' && count == 2)
            invariant
                i <= cs@.len(),
                count <= 2,
                cs@ == self.path@,
                set_part_end(cs@, 0, 0) == set_part_end(cs@, i as int, count as nat),
            decreases cs@.len() - i,
        {
            if cs[i] == '/' {
                count += 1;
            }
            i += 1;
        }
        proof {
            assert(set_part_end(cs@, i as int, count as nat) == i);
        }
        string_of(crate::text::take_chars(cs.as_slice(), i).as_slice())
    }

    /// The action name of the path (see `cleaned_name_of`).
    pub fn cleaned_name(&self) -> (r: String)
        ensures
            r@ == cleaned_name_of(self.path@),
    {
        let cs = chars_of(self.path.as_str());
        let n = cs.len();
        let slash = chars_of("/");
        let start: usize = match crate::controls::last_occurrence_of(cs.as_slice(), slash.as_slice()) {
            Some(i) => {
                proof {
                    reveal_strlit("/");
                    assert(occurs_at(cs@, slash@, i as int));
                    assert(i + 1 <= n);
                }
                i + 1
            },
            None => 0,
        };
        let mut rest: Vec<char> = Vec::new();
        let mut k: usize = start;
        while k < cs.len()
            invariant
                start <= k <= cs@.len(),
                rest@ == cs@.subrange(start as int, k as int),
            decreases cs@.len() - k,
        {
            rest.push(cs[k]);
            proof {
                assert(cs@.subrange(start as int, k + 1) =~= cs@.subrange(start as int, k as int).push(cs@[k as int]));
            }
            k += 1;
        }
        proof {
            assert(cs@.subrange(start as int, cs@.len() as int) =~= cs@.skip(start as int));
            assert(cs@.skip(0) =~= cs@);
        }
        string_of(rest.as_slice())
    }
}

/// The controller an input profile binds.
#[derive(Debug)]
pub enum ControllerType {
    ViveController,
    ViveFocus3,
    Knuckles,
    OculusTouch,
    Unknown(String),
}

/// A default binding file of a manifest.
#[derive(Debug)]
pub struct DefaultBindings {
    pub binding_url: String,
    pub controller_type: ControllerType,
}

/// An action set declared in a manifest.
#[derive(Debug)]
pub struct ActionSetJson {
    pub path: String,
}

/// The common part of an action declaration.
#[derive(Debug)]
pub struct ActionDataCommon {
    pub name: ActionPath,
}

/// A skeleton action declaration: its hand and its name.
#[derive(Debug)]
pub struct SkeletonData {
    pub skeleton: Hand,
    pub data: ActionDataCommon,
}

/// An action declaration of a manifest, by type.
#[derive(Debug)]
pub enum ActionType {
    Boolean(ActionDataCommon),
    Vector1(ActionDataCommon),
    Vector2(ActionDataCommon),
    Vector3(ActionDataCommon),
    Vibration(ActionDataCommon),
    Pose(ActionDataCommon),
    Skeleton(SkeletonData),
}

/// Localized names of a manifest for one language.
pub struct Localization {
    pub language_tag: String,
    pub localized_names: StringHashMap<String>,
}

impl Localization {
    /// A localization with no names yet.
    pub fn new(language_tag: String) -> (l: Localization)
        ensures
            l.language_tag == language_tag,
            l.localized_names@ == Map::<Seq<char>, String>::empty(),
    {
        Localization { language_tag, localized_names: StringHashMap::new() }
    }

    /// Adds (or replaces) the localized name of a path.
    pub fn add_name(&mut self, path: String, localized: String)
        ensures
            final(self).language_tag == old(self).language_tag,
            final(self).localized_names@ == old(self).localized_names@.insert(path@, localized),
    {
        self.localized_names.insert(path, localized);
    }
}

/// An action manifest.
pub struct ActionManifest {
    pub default_bindings: Vec<DefaultBindings>,
    pub action_sets: Vec<ActionSetJson>,
    pub actions: Vec<ActionType>,
    pub localization: Option<Vec<Localization>>,
}

/// Why a skeleton path of a manifest is refused.
#[derive(Debug)]
pub enum SkeletonPathError {
    /// The path does not start with `/skeleton/hand`.
    NotSkeleton(String),
    /// What follows `/skeleton/hand` is neither `/left` nor `/right`.
    NotAHand(String),
}

/// The hand of a skeleton path: `/skeleton/hand/left` or `/skeleton/hand/right`.
pub fn parse_skeleton(path: &str) -> (r: Result<Hand, SkeletonPathError>)
    ensures
        ({
            let pre = "/skeleton/hand"@;
            if !(pre.len() <= path@.len() && path@.take(pre.len() as int) == pre) {
                r matches Err(SkeletonPathError::NotSkeleton(p)) && p@ == path@
            } else {
                let rest = path@.skip(pre.len() as int);
                if rest == "/left"@ {
                    r == Ok::<Hand, SkeletonPathError>(Hand::Left)
                } else if rest == "/right"@ {
                    r == Ok::<Hand, SkeletonPathError>(Hand::Right)
                } else {
                    r matches Err(SkeletonPathError::NotAHand(h)) && h@ == rest
                }
            }
        }),
{
    let cs = chars_of(path);
    let pre = chars_of("/skeleton/hand");
    if !crate::text::starts_with_chars(cs.as_slice(), pre.as_slice()) {
        return Err(SkeletonPathError::NotSkeleton(path.to_string()));
    }
    let rest = crate::text::skip_chars(cs.as_slice(), pre.len());
    if crate::text::equal_chars(rest.as_slice(), chars_of("/left").as_slice()) {
        Ok(Hand::Left)
    } else if crate::text::equal_chars(rest.as_slice(), chars_of("/right").as_slice()) {
        Ok(Hand::Right)
    } else {
        Err(SkeletonPathError::NotAHand(string_of(rest.as_slice())))
    }
}

/// Text that starts with `/actions/`.
pub open spec fn has_actions_prefix(p: Seq<char>) -> bool {
    "/actions/"@.len() <= p.len() && p.take("/actions/"@.len() as int) == "/actions/"@
}

/// Creates the action set of a manifest path `/actions/<set>`: it is named
/// `<set>` and localized as `localized`, or as its path where none is given.
pub fn create_action_set(path: &str, localized: Option<&str>) -> (r: Result<ActionSet, InputError>)
    ensures
        has_actions_prefix(path@) <==> r is Ok,
        r matches Ok(s) ==> s.name@ == path@.skip("/actions/"@.len() as int) && s.localized_name@
            == (match localized {
            Some(l) => l@,
            None => path@,
        }) && s.priority == 0,
        r matches Err(e) ==> e == InputError::InvalidParam,
{
    let cs = chars_of(path);
    let pre = chars_of("/actions/");
    if !crate::text::starts_with_chars(cs.as_slice(), pre.as_slice()) {
        return Err(InputError::InvalidParam);
    }
    let rest = crate::text::skip_chars(cs.as_slice(), pre.len());
    let name = string_of(rest.as_slice());
    let loc = match localized {
        Some(l) => l,
        None => path,
    };
    Ok(ActionSet::new(name.as_str(), loc, 0))
}

/// The localized name of a path in an optional localization.
pub open spec fn localized_of(english: Option<&Localization>, p: Seq<char>) -> Option<Seq<char>> {
    match english {
        Some(e) => if e.localized_names@.contains_key(p) {
            Some(e.localized_names@[p]@)
        } else {
            None
        },
        None => None,
    }
}

fn localized_lookup(english: Option<&Localization>, path: &str) -> (r: Option<String>)
    ensures
        match localized_of(english, path@) {
            Some(l) => r matches Some(x) && x@ == l,
            None => r is None,
        },
{
    match english {
        Some(e) => match e.localized_names.get(path) {
            Some(l) => Some(l.clone()),
            None => None,
        },
        None => None,
    }
}

/// The key under which an action set of a manifest is loaded: its path
/// lower-cased.
pub open spec fn set_key(p: Seq<char>) -> Seq<char> {
    unicode_lowercase(p)
}

/// An action set built from a manifest entry `p` under the key `k`: named after
/// the key's part behind `/actions/`, localized as the path's localized name or
/// else as the key.
pub open spec fn set_built_from(
    s: ActionSet,
    english: Option<&Localization>,
    p: Seq<char>,
    k: Seq<char>,
) -> bool {
    &&& s.name@ == k.skip("/actions/"@.len() as int)
    &&& s.localized_name@ == (match localized_of(english, p) {
        Some(l) => l,
        None => k,
    })
    &&& s.priority == 0
}

/// An action set loaded from a manifest entry `p` (with its lower-cased key).
pub open spec fn set_loaded_from(s: ActionSet, english: Option<&Localization>, p: Seq<char>) -> bool {
    set_built_from(s, english, p, set_key(p))
}

/// The key at position `j`.
pub open spec fn key_at(keys: Seq<String>, j: int) -> Seq<char> {
    keys[j]@
}

/// Builds the action sets of a manifest from its entries and their keys (the
/// key of entry `j` is `keys[j]`). A key that does not start with `/actions/`
/// fails the build; where two keys are alike, the later entry stands.
pub fn build_action_sets(
    english: Option<&Localization>,
    sets: &[ActionSetJson],
    keys: &[String],
) -> (r: Result<ActionSetMap, InputError>)
    requires
        keys@.len() == sets@.len(),
    ensures
        (exists|j: int| 0 <= j < keys@.len() && !has_actions_prefix(#[trigger] key_at(keys@, j)))
            <==> r is Err,
        r matches Err(e) ==> e == InputError::InvalidParam,
        r matches Ok(m) ==> {
            &&& forall|k: Seq<char>| #[trigger] m@.contains_key(k) <==> exists|j: int|
                0 <= j < keys@.len() && #[trigger] key_at(keys@, j) == k
            &&& forall|j: int|
                0 <= j < keys@.len() && (forall|j2: int|
                    j < j2 < keys@.len() ==> #[trigger] key_at(keys@, j2) != key_at(keys@, j))
                    ==> set_built_from(
                    #[trigger] m@[key_at(keys@, j)],
                    english,
                    sets@[j].path@,
                    key_at(keys@, j),
                )
        },
{
    let mut action_sets: StringHashMap<ActionSet> = StringHashMap::new();
    let mut i: usize = 0;
    while i < keys.len()
        invariant
            i <= keys@.len(),
            keys@.len() == sets@.len(),
            forall|j: int| 0 <= j < i ==> has_actions_prefix(#[trigger] key_at(keys@, j)),
            forall|k: Seq<char>| #[trigger] action_sets@.contains_key(k) <==> exists|j: int|
                0 <= j < i && #[trigger] key_at(keys@, j) == k,
            forall|j: int|
                0 <= j < i && (forall|j2: int|
                    j < j2 < i ==> #[trigger] key_at(keys@, j2) != key_at(keys@, j)) ==> set_built_from(
                    #[trigger] action_sets@[key_at(keys@, j)],
                    english,
                    sets@[j].path@,
                    key_at(keys@, j),
                ),
        decreases keys@.len() - i,
    {
        let path = &sets[i].path;
        let localized = localized_lookup(english, path.as_str());
        let key = keys[i].clone();
        proof {
            assert(key@ == key_at(keys@, i as int));
        }
        let loc_ref: Option<&str> = match &localized {
            Some(l) => Some(l.as_str()),
            None => None,
        };
        let set = match create_action_set(key.as_str(), loc_ref) {
            Ok(s) => s,
            Err(e) => {
                return Err(e);
            },
        };
        let ghost old_sets = action_sets@;
        action_sets.insert(key, set);
        proof {
            assert forall|k: Seq<char>| #[trigger] action_sets@.contains_key(k) <==> exists|j: int|
                0 <= j < i + 1 && #[trigger] key_at(keys@, j) == k by {
                if k != key_at(keys@, i as int) && !old_sets.contains_key(k) {
                    if exists|j: int| 0 <= j < i + 1 && #[trigger] key_at(keys@, j) == k {
                        let j = choose|j: int| 0 <= j < i + 1 && #[trigger] key_at(keys@, j) == k;
                        assert(j < i);
                    }
                }
            }
            assert forall|j: int|
                0 <= j < i + 1 && (forall|j2: int|
                    j < j2 < i + 1 ==> #[trigger] key_at(keys@, j2) != key_at(keys@, j))
                    implies set_built_from(
                    #[trigger] action_sets@[key_at(keys@, j)],
                    english,
                    sets@[j].path@,
                    key_at(keys@, j),
                ) by {
                if j < i {
                    assert(key_at(keys@, i as int) != key_at(keys@, j));
                }
            }
        }
        i += 1;
    }
    Ok(action_sets)
}

/// Loads the action sets of a manifest, keyed by their lower-cased paths. A set
/// whose path does not start with `/actions/` fails the load; where two paths
/// lower-case alike, the later one stands.
pub fn load_action_sets(english: Option<&Localization>, sets: Vec<ActionSetJson>) -> (r: Result<
    ActionSetMap,
    InputError,
>)
    ensures
        (exists|j: int| 0 <= j < sets@.len() && !has_actions_prefix(set_key(#[trigger] sets@[j].path@)))
            <==> r is Err,
        r matches Err(e) ==> e == InputError::InvalidParam,
        r matches Ok(m) ==> {
            &&& forall|k: Seq<char>| #[trigger] m@.contains_key(k) <==> exists|j: int|
                0 <= j < sets@.len() && set_key(#[trigger] sets@[j].path@) == k
            &&& forall|j: int|
                0 <= j < sets@.len() && (forall|j2: int|
                    j < j2 < sets@.len() ==> set_key(#[trigger] sets@[j2].path@) != set_key(
                        sets@[j].path@,
                    )) ==> set_loaded_from(
                    #[trigger] m@[set_key(sets@[j].path@)],
                    english,
                    sets@[j].path@,
                )
        },
{
    let mut keys: Vec<String> = Vec::new();
    let mut i: usize = 0;
    while i < sets.len()
        invariant
            i <= sets@.len(),
            keys@.len() == i,
            forall|j: int| 0 <= j < i ==> #[trigger] key_at(keys@, j) == set_key(sets@[j].path@),
        decreases sets@.len() - i,
    {
        let key = to_lowercase(sets[i].path.as_str());
        let ghost before = keys@;
        keys.push(key);
        proof {
            assert forall|j: int| 0 <= j < i implies #[trigger] key_at(keys@, j) == key_at(
                before,
                j,
            ) by {
                assert(keys@[j] == before[j]);
            }
            assert(key_at(keys@, i as int) == set_key(sets@[i as int].path@));
        }
        i += 1;
    }
    let r = build_action_sets(english, sets.as_slice(), keys.as_slice());
    proof {
        assert forall|j: int| 0 <= j < sets@.len() implies #[trigger] set_key(sets@[j].path@)
            == key_at(keys@, j) by {}
    }
    r
}

// ---------------------------------------------------------------------------
// Loading the actions of a manifest
// ---------------------------------------------------------------------------

/// The action sets of a manifest, by lower-cased path.
pub type ActionSetMap = StringHashMap<ActionSet>;

/// The loaded actions of a manifest, by declared path.
pub type LoadedActionDataMap = StringHashMap<ActionData>;

/// A loaded action of a manifest, by type.
#[derive(Debug)]
#[allow(inconsistent_fields)]
pub enum ActionData {
    Bool(Action<bool>),
    Vector1 { action: Action<F32Bits>, last_value: F32Bits },
    Vector2 { action: Action<StickAxes>, last_value: StickAxes },
    Pose,
    Skeleton(Hand),
    Haptic(Action<HapticTy>),
}

/// The name and path handle of a loaded action.
pub struct ActionView {
    pub name: Seq<char>,
    pub path: u64,
}

/// A loaded action, as values.
pub enum ActionDataView {
    Bool(ActionView),
    Vector1(ActionView, F32Bits),
    Vector2(ActionView, StickAxes),
    Pose,
    Skeleton(Hand),
    Haptic(ActionView),
}

pub open spec fn action_view<T>(a: Action<T>) -> ActionView {
    ActionView { name: a.name@, path: a.path.0 }
}

pub open spec fn data_view(d: ActionData) -> ActionDataView {
    match d {
        ActionData::Bool(a) => ActionDataView::Bool(action_view(a)),
        ActionData::Vector1 { action, last_value } => ActionDataView::Vector1(action_view(action), last_value),
        ActionData::Vector2 { action, last_value } => ActionDataView::Vector2(action_view(action), last_value),
        ActionData::Pose => ActionDataView::Pose,
        ActionData::Skeleton(h) => ActionDataView::Skeleton(h),
        ActionData::Haptic(a) => ActionDataView::Haptic(action_view(a)),
    }
}

/// An action set, as values.
pub struct SetView {
    pub name: Seq<char>,
    pub localized: Seq<char>,
    pub priority: u32,
}

pub open spec fn sets_view(m: Map<Seq<char>, ActionSet>) -> Map<Seq<char>, SetView> {
    m.map_values(|s: ActionSet| SetView { name: s.name@, localized: s.localized_name@, priority: s.priority })
}

/// The sets after an action of set `sn` was created: a missing set is created
/// from its path, localized as its path.
pub open spec fn sets_with(sv: Map<Seq<char>, SetView>, sn: Seq<char>) -> Map<Seq<char>, SetView> {
    if sv.contains_key(sn) {
        sv
    } else {
        sv.insert(sn, SetView { name: sn.skip("/actions/"@.len() as int), localized: sn, priority: 0 })
    }
}

/// Longest action name, in bytes, that is kept whole.
pub const MAX_ACTION_NAME_BYTES: usize = 255;

/// Where an overlong action name is cut: room is left for `_ln<k>`.
pub open spec fn long_name_cut(k: nat) -> int {
    MAX_ACTION_NAME_BYTES - 3 - crate::text::decimal(k).len()
}

/// An action name is too long to keep whole.
pub open spec fn name_too_long(name: Seq<char>) -> bool {
    vstd::utf8::encode_utf8(name).len() > MAX_ACTION_NAME_BYTES
}

/// An overlong name keeps its first bytes up to the cut and ends in `_ln<k>`.
pub open spec fn shortened_name(name: Seq<char>, k: nat) -> Seq<char> {
    vstd::utf8::decode_utf8(vstd::utf8::encode_utf8(name).take(long_name_cut(k))) + "_ln"@
        + crate::text::decimal(k)
}

/// Cutting an overlong name at its cut does not split a character.
pub open spec fn name_cut_ok(name: Seq<char>, k: nat) -> bool {
    name_too_long(name) ==> vstd::utf8::is_char_boundary(vstd::utf8::encode_utf8(name), long_name_cut(k))
}

/// The name an action is created with, given the count of overlong names so far.
pub open spec fn friendly_name(name: Seq<char>, k: nat) -> Seq<char> {
    if name_too_long(name) {
        shortened_name(name, k)
    } else {
        name
    }
}

/// The count of overlong names after creating one more action.
pub open spec fn next_long_index(name: Seq<char>, k: nat) -> nat {
    if name_too_long(name) {
        k + 1
    } else {
        k
    }
}

/// Shortens an overlong action name, counting the overlong names.
fn shorten_name(name: String, long_name_idx: &mut usize) -> (r: String)
    requires
        *old(long_name_idx) < usize::MAX,
        name_cut_ok(name@, *old(long_name_idx) as nat),
    ensures
        r@ == friendly_name(name@, *old(long_name_idx) as nat),
        *final(long_name_idx) as nat == next_long_index(name@, *old(long_name_idx) as nat),
{
    let byte_len = name.as_str().as_bytes().len();
    if byte_len > MAX_ACTION_NAME_BYTES {
        let digits = crate::text::decimal_chars(*long_name_idx as u64);
        let idx_str = crate::text::concat_chars("_ln", digits.as_slice());
        proof {
            reveal_strlit("_ln");
            crate::text::lemma_decimal_first_is_digit(*long_name_idx as nat);
            crate::text::lemma_decimal_len_bound(*long_name_idx as nat);
            assert(idx_str@.len() == 3 + digits@.len());
            assert forall|i: int| 0 <= i < idx_str@.len() implies '\0' <= #[trigger] idx_str@[i]
                <= '\u{7f}' by {
                if i >= 3 {
                    assert(idx_str@[i] == digits@[i - 3]);
                    assert(crate::text::is_digit(digits@[i - 3]));
                }
            }
            crate::text::lemma_ascii_byte_len(idx_str@);
        }
        let cut = MAX_ACTION_NAME_BYTES - idx_str.as_str().as_bytes().len();
        proof {
            assert(cut == long_name_cut(*long_name_idx as nat));
        }
        let (left, _right) = name.as_str().split_at(cut);
        let mut r = left.to_string();
        r.append(idx_str.as_str());
        proof {
            vstd::utf8::encode_utf8_decode_utf8(left@);
            assert(left@ == vstd::utf8::decode_utf8(vstd::utf8::encode_utf8(name@).take(cut as int)));
            assert(r@ =~= shortened_name(name@, *old(long_name_idx) as nat));
        }
        *long_name_idx = *long_name_idx + 1;
        r
    } else {
        name
    }
}

/// Creates the action of a manifest declaration in its set, creating the set
/// if the manifest did not declare it. Fails with `NameNotFound` where the set
/// is missing and its name does not start with `/actions/`.
fn create_action<T: ActionTy>(
    data: &ActionDataCommon,
    sets: &mut StringHashMap<ActionSet>,
    english: Option<&Localization>,
    registry: &mut PathRegistry,
    paths: &[Path],
    long_name_idx: &mut usize,
) -> (r: Result<Action<T>, InputError>)
    requires
        *old(long_name_idx) < usize::MAX,
        name_cut_ok(cleaned_name_of(data.name.path@), *old(long_name_idx) as nat),
    ensures
        ({
            let sn = set_name_of(data.name.path@);
            let c = cleaned_name_of(data.name.path@);
            let k = *old(long_name_idx) as nat;
            let sv = sets_with(sets_view(old(sets)@), sn);
            let fname = friendly_name(c, k);
            let ap = action_path_text(sv[sn].name, fname);
            &&& (sets_view(old(sets)@).contains_key(sn) || has_actions_prefix(sn)) <==> r is Ok
            &&& r matches Err(e) ==> e == InputError::NameNotFound && final(sets)@ == old(sets)@
                && final(registry)@ == old(registry)@ && *final(long_name_idx)
                == *old(long_name_idx)
            &&& r matches Ok(a) ==> {
                &&& sets_view(final(sets)@) == sv
                &&& a.name@ == fname
                &&& a.path.0 == crate::paths::chars_hash(ap)
                &&& final(registry)@ == registered(old(registry)@, crate::paths::chars_hash(ap), ap)
                &&& *final(long_name_idx) as nat == next_long_index(c, k)
            }
        }),
{
    let localized = localized_lookup(english, data.name.path.as_str());
    let set_name = data.name.action_set_name();
    let ghost sn = set_name@;
    let ghost old_sets = sets@;
    if !sets.contains_key(set_name.as_str()) {
        match create_action_set(set_name.as_str(), None) {
            Ok(set) => {
                sets.insert(set_name.clone(), set);
                proof {
                    assert(sets_view(sets@) =~= sets_with(sets_view(old_sets), sn));
                }
            },
            Err(_) => {
                return Err(InputError::NameNotFound);
            },
        }
    } else {
        proof {
            assert(sets_view(sets@) =~= sets_with(sets_view(old_sets), sn));
        }
    }
    let set = match sets.get(set_name.as_str()) {
        Some(s) => s,
        None => {
            return Err(InputError::NameNotFound);
        },
    };
    let name = shorten_name(data.name.cleaned_name(), long_name_idx);
    let localized = match localized {
        Some(l) => l,
        None => name.clone(),
    };
    match set.create_action::<T>(registry, name.as_str(), localized.as_str(), paths) {
        Ok(a) => Ok(a),
        Err(_) => Err(InputError::InvalidParam),
    }
}

/// The declared path of an action declaration.
pub open spec fn decl_path(a: ActionType) -> Seq<char> {
    match a {
        ActionType::Boolean(d) => d.name.path@,
        ActionType::Vector1(d) => d.name.path@,
        ActionType::Vector2(d) => d.name.path@,
        ActionType::Vector3(d) => d.name.path@,
        ActionType::Vibration(d) => d.name.path@,
        ActionType::Pose(d) => d.name.path@,
        ActionType::Skeleton(sd) => sd.data.name.path@,
    }
}

/// Declarations that create an action in their set.
pub open spec fn creates_action(a: ActionType) -> bool {
    a is Boolean || a is Vector1 || a is Vector2 || a is Vibration
}

/// What has been loaded after a prefix of the declarations: the actions by
/// declared path, the action sets, the registered paths and the count of
/// overlong action names.
pub struct LoadState {
    pub data: Map<Seq<char>, ActionDataView>,
    pub sets: Map<Seq<char>, SetView>,
    pub registry: Map<u64, Seq<char>>,
    pub long_idx: nat,
}

/// Loading one declaration. Vector3 actions are not supported and are skipped.
pub open spec fn load_step(st: LoadState, a: ActionType) -> LoadState {
    if a is Vector3 {
        st
    } else if a is Pose {
        LoadState { data: st.data.insert(decl_path(a), ActionDataView::Pose), ..st }
    } else if a is Skeleton {
        LoadState {
            data: st.data.insert(decl_path(a), ActionDataView::Skeleton(a->Skeleton_0.skeleton)),
            ..st
        }
    } else {
        let p = decl_path(a);
        let sn = set_name_of(p);
        let sv = sets_with(st.sets, sn);
        let c = cleaned_name_of(p);
        let fname = friendly_name(c, st.long_idx);
        let ap = action_path_text(sv[sn].name, fname);
        let h = crate::paths::chars_hash(ap);
        let av = ActionView { name: fname, path: h };
        let dv = if a is Boolean {
            ActionDataView::Bool(av)
        } else if a is Vector1 {
            ActionDataView::Vector1(av, F32Bits(0))
        } else if a is Vector2 {
            ActionDataView::Vector2(av, StickAxes { x_bits: 0, y_bits: 0 })
        } else {
            ActionDataView::Haptic(av)
        };
        LoadState {
            data: st.data.insert(p, dv),
            sets: sv,
            registry: registered(st.registry, h, ap),
            long_idx: next_long_index(c, st.long_idx),
        }
    }
}

/// A declaration loads without failing in a state: its set exists or can be
/// created, and an overlong name can be cut.
pub open spec fn step_ok(st: LoadState, a: ActionType) -> bool {
    let p = decl_path(a);
    let sn = set_name_of(p);
    creates_action(a) ==> ((st.sets.contains_key(sn) || has_actions_prefix(sn)) && name_cut_ok(
        cleaned_name_of(p),
        st.long_idx,
    ))
}

/// Loading the declarations `s` in order from `st`.
pub open spec fn load_fold(st: LoadState, s: Seq<ActionType>) -> LoadState
    decreases s.len(),
{
    if s.len() == 0 {
        st
    } else {
        load_step(load_fold(st, s.drop_last()), s.last())
    }
}

/// Every declaration of `s` loads without failing.
pub open spec fn load_ok(st: LoadState, s: Seq<ActionType>) -> bool
    decreases s.len(),
{
    if s.len() == 0 {
        true
    } else {
        load_ok(st, s.drop_last()) && step_ok(load_fold(st, s.drop_last()), s.last())
    }
}

proof fn lemma_load_prefix(st: LoadState, s: Seq<ActionType>, i: int)
    requires
        0 <= i < s.len(),
        load_ok(st, s),
    ensures
        load_ok(st, s.take(i + 1)),
        load_fold(st, s.take(i + 1)) == load_step(load_fold(st, s.take(i)), s[i]),
        step_ok(load_fold(st, s.take(i)), s[i]),
    decreases s.len(),
{
    assert(s.take(i + 1).drop_last() =~= s.take(i));
    if i + 1 < s.len() {
        lemma_load_prefix(st, s.drop_last(), i);
        assert(s.drop_last().take(i + 1) =~= s.take(i + 1));
        assert(s.drop_last().take(i) =~= s.take(i));
    } else {
        assert(s.take(i + 1) =~= s);
    }
}

proof fn lemma_long_idx_bound(st: LoadState, s: Seq<ActionType>)
    ensures
        load_fold(st, s).long_idx <= st.long_idx + s.len(),
    decreases s.len(),
{
    if s.len() > 0 {
        lemma_long_idx_bound(st, s.drop_last());
    }
}

/// The state loading starts from.
pub open spec fn load_start(sets: Map<Seq<char>, ActionSet>, registry: Map<u64, Seq<char>>) -> LoadState {
    LoadState { data: Map::empty(), sets: sets_view(sets), registry, long_idx: 0 }
}

/// The loaded actions, as values.
pub open spec fn loaded_view(m: Map<Seq<char>, ActionData>) -> Map<Seq<char>, ActionDataView> {
    m.map_values(|d: ActionData| data_view(d))
}

/// Loads one declaration into the loaded actions, from the state `st`.
fn load_declaration(
    english: Option<&Localization>,
    sets: &mut ActionSetMap,
    action: &ActionType,
    hands: &[Path],
    registry: &mut PathRegistry,
    long_name_idx: &mut usize,
    ret: &mut LoadedActionDataMap,
    Ghost(st): Ghost<LoadState>,
) -> (r: Result<(), InputError>)
    requires
        step_ok(st, *action),
        loaded_view(old(ret)@) == st.data,
        sets_view(old(sets)@) == st.sets,
        old(registry)@ == st.registry,
        *old(long_name_idx) as nat == st.long_idx,
        *old(long_name_idx) < usize::MAX,
    ensures
        ({
            let st2 = load_step(st, *action);
            &&& r is Ok
            &&& loaded_view(final(ret)@) == st2.data
            &&& sets_view(final(sets)@) == st2.sets
            &&& final(registry)@ == st2.registry
            &&& *final(long_name_idx) as nat == st2.long_idx
        }),
{
    match action {
        ActionType::Boolean(data) => {
            let a = create_action::<bool>(data, sets, english, registry, hands, long_name_idx)?;
            ret.insert(data.name.path.clone(), ActionData::Bool(a));
        },
        ActionType::Vector1(data) => {
            let a = create_action::<F32Bits>(data, sets, english, registry, hands, long_name_idx)?;
            ret.insert(data.name.path.clone(), ActionData::Vector1 { action: a, last_value: F32Bits(0) });
        },
        ActionType::Vector2(data) => {
            let a = create_action::<StickAxes>(data, sets, english, registry, hands, long_name_idx)?;
            ret.insert(
                data.name.path.clone(),
                ActionData::Vector2 { action: a, last_value: StickAxes { x_bits: 0, y_bits: 0 } },
            );
        },
        ActionType::Vector3(_data) => {},
        ActionType::Pose(data) => {
            ret.insert(data.name.path.clone(), ActionData::Pose);
        },
        ActionType::Skeleton(sd) => {
            ret.insert(sd.data.name.path.clone(), ActionData::Skeleton(sd.skeleton));
        },
        ActionType::Vibration(data) => {
            let a = create_action::<HapticTy>(data, sets, english, registry, hands, long_name_idx)?;
            ret.insert(data.name.path.clone(), ActionData::Haptic(a));
        },
    }
    proof {
        assert(loaded_view(ret@) =~= load_step(st, *action).data);
    }
    Ok(())
}

/// Loads the actions of a manifest, keyed by their declared paths; a later
/// declaration of a path replaces an earlier one. Actions are created for both
/// hands in their sets (sets the manifest did not declare are created).
pub fn load_actions(
    english: Option<&Localization>,
    sets: &mut ActionSetMap,
    actions: Vec<ActionType>,
    left_hand: Path,
    right_hand: Path,
    registry: &mut PathRegistry,
) -> (r: Result<LoadedActionDataMap, InputError>)
    requires
        load_ok(load_start(old(sets)@, old(registry)@), actions@),
    ensures
        ({
            let fin = load_fold(load_start(old(sets)@, old(registry)@), actions@);
            &&& r matches Ok(m) && loaded_view(m@) == fin.data
            &&& sets_view(final(sets)@) == fin.sets
            &&& final(registry)@ == fin.registry
        }),
{
    let ghost st0 = load_start(sets@, registry@);
    let mut ret: StringHashMap<ActionData> = StringHashMap::new();
    let mut long_name_idx: usize = 0;
    let mut hands: Vec<Path> = Vec::new();
    hands.push(left_hand);
    hands.push(right_hand);
    let mut i: usize = 0;
    proof {
        assert(actions@.take(0) =~= Seq::<ActionType>::empty());
        assert(loaded_view(ret@) =~= Map::<Seq<char>, ActionDataView>::empty());
    }
    while i < actions.len()
        invariant
            i <= actions@.len(),
            load_ok(st0, actions@),
            ({
                let st = load_fold(st0, actions@.take(i as int));
                &&& loaded_view(ret@) == st.data
                &&& sets_view(sets@) == st.sets
                &&& registry@ == st.registry
                &&& long_name_idx as nat == st.long_idx
                &&& st.long_idx <= i
            }),
        decreases actions@.len() - i,
    {
        let ghost st = load_fold(st0, actions@.take(i as int));
        proof {
            lemma_load_prefix(st0, actions@, i as int);
            lemma_long_idx_bound(st0, actions@.take(i as int));
        }
        match load_declaration(english, sets, &actions[i], hands.as_slice(), registry, &mut long_name_idx, &mut ret, Ghost(st)) {
            Ok(()) => {},
            Err(e) => {
                return Err(e);
            },
        }
        i += 1;
    }
    proof {
        assert(actions@.take(actions@.len() as int) =~= actions@);
    }
    Ok(ret)
}

/// Within declarations that all load, every action set that loading has
/// created starts with `/actions/`, and no set is lost.
proof fn lemma_loaded_sets(st: LoadState, s: Seq<ActionType>)
    requires
        load_ok(st, s),
    ensures
        forall|sn: Seq<char>| #[trigger] load_fold(st, s).sets.contains_key(sn) ==> st.sets.contains_key(sn)
            || has_actions_prefix(sn),
        forall|sn: Seq<char>| #[trigger] st.sets.contains_key(sn) ==> load_fold(st, s).sets.contains_key(sn),
    decreases s.len(),
{
    if s.len() > 0 {
        lemma_loaded_sets(st, s.drop_last());
    }
}

/// Whether every declaration of `actions` loads without failing (see
/// `load_ok`): its action set exists or can be created, and an overlong action
/// name can be cut where `load_actions` cuts it.
pub fn can_load_actions(
    sets: &ActionSetMap,
    registry: &PathRegistry,
    actions: &[ActionType],
) -> (r: bool)
    ensures
        r == load_ok(load_start(sets@, registry@), actions@),
{
    let ghost st0 = load_start(sets@, registry@);
    let mut long_idx: usize = 0;
    let mut i: usize = 0;
    proof {
        assert(actions@.take(0) =~= Seq::<ActionType>::empty());
    }
    while i < actions.len()
        invariant
            i <= actions@.len(),
            st0 == load_start(sets@, registry@),
            load_ok(st0, actions@.take(i as int)),
            long_idx as nat == load_fold(st0, actions@.take(i as int)).long_idx,
            long_idx <= i,
        decreases actions@.len() - i,
    {
        let ghost pre = actions@.take(i as int);
        let ghost st = load_fold(st0, pre);
        proof {
            assert(actions@.take(i + 1).drop_last() =~= pre);
            assert(actions@.take(i + 1).last() == actions@[i as int]);
            lemma_loaded_sets(st0, pre);
        }
        let data = match &actions[i] {
            ActionType::Boolean(d) => d,
            ActionType::Vector1(d) => d,
            ActionType::Vector2(d) => d,
            ActionType::Vibration(d) => d,
            _ => {
                i += 1;
                continue;
            },
        };
        let set_name = data.name.action_set_name();
        let cs = chars_of(set_name.as_str());
        let pre_chars = chars_of("/actions/");
        let known = sets.contains_key(set_name.as_str());
        let prefixed = crate::text::starts_with_chars(cs.as_slice(), pre_chars.as_slice());
        let set_ok = known || prefixed;
        proof {
            let sn = set_name@;
            assert(sets_view(sets@).contains_key(sn) == sets@.contains_key(sn));
            assert(st.sets.contains_key(sn) ==> st0.sets.contains_key(sn) || has_actions_prefix(sn));
            assert(st0.sets.contains_key(sn) ==> st.sets.contains_key(sn));
            reveal_strlit("/actions/");
            assert(prefixed == has_actions_prefix(sn));
            assert(known == sets@.contains_key(sn));
            assert(set_ok == (st.sets.contains_key(sn) || has_actions_prefix(sn)));
        }
        if !set_ok {
            proof {
                if load_ok(st0, actions@) {
                    lemma_load_prefix(st0, actions@, i as int);
                }
            }
            return false;
        }
        let name = data.name.cleaned_name();
        let byte_len = name.as_str().as_bytes().len();
        if byte_len > MAX_ACTION_NAME_BYTES {
            let digits = crate::text::decimal_chars(long_idx as u64);
            proof {
                crate::text::lemma_decimal_len_bound(long_idx as nat);
            }
            let cut = MAX_ACTION_NAME_BYTES - 3 - digits.len();
            proof {
                assert(cut == long_name_cut(long_idx as nat));
            }
            if !name.as_str().is_char_boundary(cut) {
                proof {
                    if load_ok(st0, actions@) {
                        lemma_load_prefix(st0, actions@, i as int);
                    }
                }
                return false;
            }
            long_idx = long_idx + 1;
        }
        i += 1;
    }
    proof {
        assert(actions@.take(actions@.len() as int) =~= actions@);
    }
    true
}

/// Loading a declaration records, under its declared path, what it declares:
/// a button, axis, thumbstick or vibration action of its kind, a pose, or a
/// skeleton of the hand it names; a vector-3 declaration records nothing. A
/// pose or skeleton leaves the sets, the registry and the count of overlong
/// names as they were.
pub proof fn lemma_load_step_records_declaration(st: LoadState, a: ActionType)
    ensures
        a is Vector3 ==> load_step(st, a) == st,
        a is Pose ==> load_step(st, a) == (LoadState {
            data: st.data.insert(decl_path(a), ActionDataView::Pose),
            ..st
        }),
        a matches ActionType::Skeleton(sd) ==> load_step(st, a) == (LoadState {
            data: st.data.insert(sd.data.name.path@, ActionDataView::Skeleton(sd.skeleton)),
            ..st
        }),
        a is Boolean ==> load_step(st, a).data[decl_path(a)] is Bool,
        a is Vector1 ==> load_step(st, a).data[decl_path(a)] is Vector1,
        a is Vector2 ==> load_step(st, a).data[decl_path(a)] is Vector2,
        a is Vibration ==> load_step(st, a).data[decl_path(a)] is Haptic,
        !(a is Vector3) ==> load_step(st, a).data.contains_key(decl_path(a)),
        forall|p: Seq<char>|
            p != decl_path(a) && #[trigger] st.data.contains_key(p) ==> load_step(st, a).data.contains_key(p)
                && load_step(st, a).data[p] == st.data[p],
{
}

} // verus!
