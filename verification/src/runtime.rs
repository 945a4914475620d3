//! The runtime's answers to OpenVR client queries: error messages, the init
//! token and API version, and the runtime version number.
use vstd::prelude::*;
use crate::text::{chars_of, parse_unsigned, parse_unsigned_chars};

verus! {

/// The OpenVR initialization errors that have a message of their own.
#[derive(Debug, Clone, Copy, PartialEq, Eq, Structural)]
pub enum HmdInitError {
    NoError,
    InitNotInitialized,
    InitFactoryNotFound,
    InitInterfaceNotFound,
    InitInvalidApplicationType,
    InitVRServiceStartupFailed,
    /// Any other initialization error.
    Other,
}

/// The message of an initialization error.
pub open spec fn hmd_error_text(e: HmdInitError) -> Seq<char> {
    match e {
        HmdInitError::NoError => "No Error"@,
        HmdInitError::InitNotInitialized => "Not Initialized"@,
        HmdInitError::InitFactoryNotFound => "Factory Not Found"@,
        HmdInitError::InitInterfaceNotFound => "Interface Not Found"@,
        HmdInitError::InitInvalidApplicationType => "Invalid Application Type"@,
        HmdInitError::InitVRServiceStartupFailed => "VR Service Startup Failed"@,
        HmdInitError::Other => "Unknown Error"@,
    }
}

/// The message of an initialization error.
pub fn hmd_error_string(error: HmdInitError) -> (r: &'static str)
    ensures
        r@ == hmd_error_text(error),
{
    match error {
        HmdInitError::NoError => "No Error",
        HmdInitError::InitNotInitialized => "Not Initialized",
        HmdInitError::InitFactoryNotFound => "Factory Not Found",
        HmdInitError::InitInterfaceNotFound => "Interface Not Found",
        HmdInitError::InitInvalidApplicationType => "Invalid Application Type",
        HmdInitError::InitVRServiceStartupFailed => "VR Service Startup Failed",
        HmdInitError::Other => "Unknown Error",
    }
}

/// What `VR_GetStringForHmdError` writes and returns. With a buffer of
/// `buffer_size` bytes: the leading message bytes that fit beside a NUL
/// terminator, then the NUL, and the count of message bytes (the NUL excluded).
/// With no buffer, or an empty one: nothing, and the length of the whole message.
pub fn hmd_error_copy(error: HmdInitError, buffer_size: u32, has_buffer: bool) -> (r: (Vec<u8>, u32))
    ensures
        ({
            let msg = vstd::utf8::encode_utf8(hmd_error_text(error));
            if !has_buffer || buffer_size == 0 {
                r.0@.len() == 0 && r.1 == msg.len()
            } else {
                let n = if msg.len() < buffer_size - 1 {
                    msg.len() as int
                } else {
                    buffer_size - 1
                };
                r.0@ == msg.take(n).push(0u8) && r.1 == n
            }
        }),
{
    let msg = hmd_error_string(error).as_bytes();
    let len = msg.len();
    proof {
        reveal_strlit("No Error");
        reveal_strlit("Not Initialized");
        reveal_strlit("Factory Not Found");
        reveal_strlit("Interface Not Found");
        reveal_strlit("Invalid Application Type");
        reveal_strlit("VR Service Startup Failed");
        reveal_strlit("Unknown Error");
        let t = hmd_error_text(error);
        assert(t.len() <= 32);
        assert(vstd::utf8::is_ascii_chars(t));
        crate::text::lemma_ascii_byte_len(t);
    }
    if !has_buffer || buffer_size == 0 {
        return (Vec::new(), len as u32);
    }
    let room = (buffer_size - 1) as usize;
    let n: usize = if len < room {
        len
    } else {
        room
    };
    let mut out: Vec<u8> = Vec::new();
    let mut i: usize = 0;
    while i < n
        invariant
            i <= n <= msg@.len(),
            out@ == msg@.take(i as int),
        decreases n - i,
    {
        out.push(msg[i]);
        proof {
            assert(msg@.take(i + 1) =~= msg@.take(i as int).push(msg@[i as int]));
        }
        i += 1;
    }
    out.push(0u8);
    (out, n as u32)
}

/// The API version that `VR_GetInitTokenAndVersion` reports.
pub const OPENVR_COMPAT_VERSION: u64 = 1_000_115;

/// The init token that `VR_GetInitTokenAndVersion` returns.
pub const INIT_TOKEN: u32 = 1;

/// A version component as read from its text, or `default` where the text is
/// not a `u32`.
pub open spec fn component_or(s: Seq<char>, default: nat) -> nat {
    match parse_unsigned(s, u32::MAX as nat) {
        Ok(v) => v,
        Err(_) => default,
    }
}

/// The runtime version number: `major * 1000000 + minor * 1000 + patch`, where
/// an unreadable major or minor counts as 0 and an unreadable patch as 1.
pub open spec fn version_number(major: Seq<char>, minor: Seq<char>, patch: Seq<char>) -> nat {
    component_or(major, 0) * 1000000 + component_or(minor, 0) * 1000 + component_or(patch, 1)
}

fn component(s: &str, default: u32) -> (r: u32)
    ensures
        r == component_or(s@, default as nat),
{
    let cs = chars_of(s);
    match parse_unsigned_chars(cs.as_slice(), 0xffff_ffff) {
        Ok(v) => v as u32,
        Err(_) => default,
    }
}

/// The runtime version number from the version components of the package.
pub fn make_version(major: &str, minor: &str, patch: &str) -> (r: u32)
    requires
        version_number(major@, minor@, patch@) <= u32::MAX,
    ensures
        r == version_number(major@, minor@, patch@),
{
    let a = component(major, 0);
    let b = component(minor, 0);
    let c = component(patch, 1);
    proof {
        assert(a * 1000000 <= u32::MAX);
        assert(b * 1000 <= u32::MAX);
    }
    a * 1000000 + b * 1000 + c
}

/// The runtime version number, or `None` where it does not fit in a `u32`.
pub fn checked_version(major: &str, minor: &str, patch: &str) -> (r: Option<u32>)
    ensures
        match r {
            Some(v) => version_number(major@, minor@, patch@) <= u32::MAX && v
                == version_number(major@, minor@, patch@),
            None => version_number(major@, minor@, patch@) > u32::MAX,
        },
{
    let a = component(major, 0) as u64;
    let b = component(minor, 0) as u64;
    let c = component(patch, 1) as u64;
    let v = a * 1000000 + b * 1000 + c;
    if v <= 0xffff_ffff {
        Some(v as u32)
    } else {
        None
    }
}

} // verus!
