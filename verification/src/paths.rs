//! Path handles: stable 64-bit hashes of path strings, and the registry that
//! maps them back to their strings.
use vstd::prelude::*;
use std::collections::HashMap;
use vstd::string::StringSliceAdditionalSpecFns;
use crate::text::{concat_chars, decimal, decimal_chars, push_char};
use crate::xr::SessionCreationError;

verus! {

broadcast use vstd::std_specs::hash::group_hash_axioms;

/// Handle of a path string (an action, a user path, an interaction profile).
#[derive(Debug, Clone, Copy, PartialEq, Eq, Hash, Structural)]
pub struct Path(pub u64);

/// The raw value of the handle that names no path.
pub const NULL_PATH_RAW: u64 = 0;

impl Path {
    /// The handle that names no path.
    pub fn null() -> (p: Path)
        ensures
            p == Path(NULL_PATH_RAW),
    {
        Path(NULL_PATH_RAW)
    }
}

/// Raw handle of an action.
#[derive(Debug, Clone, Copy, PartialEq, Eq, Hash, Structural)]
pub struct RawAction(pub u64);

impl RawAction {
    pub fn as_ffi(&self) -> (r: u64)
        ensures
            r == self.0,
    {
        self.0
    }
}

/// Raw handle of a session.
#[derive(Debug, Clone, Copy, PartialEq, Eq, Hash, Structural)]
pub struct RawSession(pub u64);

impl RawSession {
    pub fn as_ffi(&self) -> (r: u64)
        ensures
            r == self.0,
    {
        self.0
    }
}

/// Raw handle of a space.
#[derive(Debug, Clone, Copy, PartialEq, Eq, Hash, Structural)]
pub struct SpaceHandle(pub u64);

impl SpaceHandle {
    pub fn into_raw(self) -> (r: u64)
        ensures
            r == self.0,
    {
        self.0
    }
}

/// FNV-1a 64-bit offset basis.
pub const FNV_OFFSET: u64 = 0xcbf2_9ce4_8422_2325;

/// FNV-1a 64-bit prime.
pub const FNV_PRIME: u64 = 0x100_0000_01b3;

/// One FNV-1a round: xor in the byte, then multiply modulo 2^64.
pub open spec fn fnv_step(h: u64, b: u8) -> u64 {
    (h ^ (b as u64)).wrapping_mul(FNV_PRIME)
}

/// FNV-1a 64-bit hash of a byte string.
pub open spec fn fnv1a(bs: Seq<u8>) -> u64
    decreases bs.len(),
{
    if bs.len() == 0 {
        FNV_OFFSET
    } else {
        fnv_step(fnv1a(bs.drop_last()), bs.last())
    }
}

/// The handle of a path string: the FNV-1a hash of its UTF-8 bytes.
pub open spec fn path_hash(s: &str) -> u64 {
    fnv1a(s.spec_bytes())
}

/// The handle of a path given by its characters.
pub open spec fn chars_hash(cs: Seq<char>) -> u64 {
    fnv1a(vstd::utf8::encode_utf8(cs))
}

/// FNV-1a 64-bit hash of the UTF-8 bytes of `s`, used to produce stable `Path`
/// handles from strings.
pub fn hash_path(s: &str) -> (h: u64)
    ensures
        h == path_hash(s),
{
    let bytes = s.as_bytes();
    let mut hash: u64 = FNV_OFFSET;
    let mut i: usize = 0;
    while i < bytes.len()
        invariant
            i <= bytes@.len(),
            bytes@ == s.spec_bytes(),
            hash == fnv1a(bytes@.take(i as int)),
        decreases bytes@.len() - i,
    {
        proof {
            assert(bytes@.take(i + 1).drop_last() =~= bytes@.take(i as int));
        }
        hash = (hash ^ (bytes[i] as u64)).wrapping_mul(FNV_PRIME);
        i += 1;
    }
    proof {
        assert(bytes@.take(bytes@.len() as int) =~= bytes@);
    }
    hash
}

/// The strings registered for path handles. A handle keeps the first string
/// registered for it.
pub struct PathRegistry {
    names: HashMap<u64, String>,
}

impl View for PathRegistry {
    type V = Map<u64, Seq<char>>;

    closed spec fn view(&self) -> Map<u64, Seq<char>> {
        Map::new(|k: u64| self.names@.contains_key(k), |k: u64| self.names@[k]@)
    }
}

/// The registry after registering `s` under the handle `h`.
pub open spec fn registered(m: Map<u64, Seq<char>>, h: u64, s: Seq<char>) -> Map<u64, Seq<char>> {
    if m.contains_key(h) {
        m
    } else {
        m.insert(h, s)
    }
}

/// What looking up a handle in a registry yields.
pub open spec fn lookup(m: Map<u64, Seq<char>>, p: Path) -> Option<Seq<char>> {
    if p.0 == NULL_PATH_RAW || !m.contains_key(p.0) {
        None
    } else {
        Some(m[p.0])
    }
}

/// The message for a handle that names no path.
pub open spec fn unknown_path_text(p: Path) -> Seq<char> {
    "Unknown path: Path("@ + decimal(p.0 as nat) + seq![')']
}

/// Default interaction profile: a thumbstick controller with grip, trigger and
/// X/Y + A/B buttons, the layout of the controllers that WinlatorXR reports.
pub const DEFAULT_INTERACTION_PROFILE: &'static str = "/interaction_profiles/oculus/touch_controller";

impl PathRegistry {
    /// An empty registry.
    pub fn new() -> (r: PathRegistry)
        ensures
            r@ == Map::<u64, Seq<char>>::empty(),
    {
        let r = PathRegistry { names: HashMap::new() };
        proof {
            assert(r@ =~= Map::<u64, Seq<char>>::empty());
        }
        r
    }

    /// Registers a path string and returns its handle. A handle that is already
    /// registered keeps its string.
    pub fn string_to_path_global(&mut self, path: &str) -> (p: Path)
        ensures
            p == Path(path_hash(path)),
            final(self)@ == registered(old(self)@, path_hash(path), path@),
    {
        let handle = Path(hash_path(path));
        if !self.names.contains_key(&handle.0) {
            self.names.insert(handle.0, path.to_string());
        }
        proof {
            assert(self@ =~= registered(old(self)@, path_hash(path), path@));
        }
        handle
    }

    /// The string registered for a handle, if any. The null handle names nothing.
    pub fn path_to_string_global(&self, path: Path) -> (r: Option<String>)
        ensures
            r matches Some(s) ==> lookup(self@, path) == Some(s@),
            r is None ==> lookup(self@, path) is None,
    {
        if path.0 == 0 {
            return None;
        }
        match self.names.get(&path.0) {
            Some(s) => Some(s.clone()),
            None => None,
        }
    }

    /// The string registered for a handle; an unknown handle is an error that
    /// names it.
    pub fn path_to_string(&self, path: Path) -> (r: Result<String, SessionCreationError>)
        ensures
            match lookup(self@, path) {
                Some(s) => r matches Ok(x) && x@ == s,
                None => r matches Err(SessionCreationError::InitializationFailed(m)) && m@
                    == unknown_path_text(path),
            },
    {
        match self.path_to_string_global(path) {
            Some(s) => Ok(s),
            None => {
                let digits = decimal_chars(path.0);
                let mut m = concat_chars("Unknown path: Path(", digits.as_slice());
                push_char(&mut m, ')');
                Err(SessionCreationError::InitializationFailed(m))
            },
        }
    }

    /// The interaction profile to report: the override where one is given, the
    /// default otherwise. Registers it and returns its handle.
    pub fn interaction_profile_path(&mut self, override_name: Option<&str>) -> (p: Path)
        ensures
            override_name matches Some(n) ==> p == Path(path_hash(n)) && final(self)@ == registered(
                old(self)@,
                path_hash(n),
                n@,
            ),
            override_name is None ==> p == Path(path_hash(DEFAULT_INTERACTION_PROFILE))
                && final(self)@ == registered(
                old(self)@,
                path_hash(DEFAULT_INTERACTION_PROFILE),
                DEFAULT_INTERACTION_PROFILE@,
            ),
    {
        match override_name {
            Some(n) => self.string_to_path_global(n),
            None => self.string_to_path_global(DEFAULT_INTERACTION_PROFILE),
        }
    }
}

/// Registering a path string and looking its handle up again yields the string,
/// unless the handle is the null one or already named another string.
pub proof fn lemma_register_then_lookup(m: Map<u64, Seq<char>>, s: &str)
    requires
        path_hash(s) != 0,
        m.contains_key(path_hash(s)) ==> m[path_hash(s)] == s@,
    ensures
        lookup(registered(m, path_hash(s), s@), Path(path_hash(s))) == Some(s@),
{
}

/// Registering the same string twice leaves the registry as registering it once.
pub proof fn lemma_register_idempotent(m: Map<u64, Seq<char>>, h: u64, s: Seq<char>)
    ensures
        registered(registered(m, h, s), h, s) == registered(m, h, s),
{
}

/// `reg` names every handle that `reg0` names, with the same string.
pub open spec fn registry_extends(reg: Map<u64, Seq<char>>, reg0: Map<u64, Seq<char>>) -> bool {
    forall|h: u64| #[trigger] reg0.contains_key(h) ==> reg.contains_key(h) && reg[h] == reg0[h]
}

/// Registering a string extends the registry.
pub proof fn lemma_register_extends(m: Map<u64, Seq<char>>, h: u64, s: Seq<char>)
    ensures
        registry_extends(registered(m, h, s), m),
{
}

/// Registering never changes what an already registered handle names.
pub proof fn lemma_register_keeps_names(m: Map<u64, Seq<char>>, h: u64, s: Seq<char>, k: u64)
    requires
        m.contains_key(k),
    ensures
        registered(m, h, s).contains_key(k),
        registered(m, h, s)[k] == m[k],
{
}

} // verus!
