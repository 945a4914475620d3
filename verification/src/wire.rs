//! The WinlatorXR XrAPI wire format: the pose packets it streams to us and the
//! control/haptic packets we send back.
use vstd::prelude::*;
use crate::controls::Hand;
use crate::text::{
    chars_of, concat_chars, decimal, decimal_chars, int_error_message, int_error_text,
    parse_unsigned, parse_unsigned_chars, push_char, split_fields, split_ws, string_of, views,
    IntErrorKind,
};

verus! {

/// Errors of the UDP transport and of the wire format.
#[derive(Debug)]
pub enum UdpError {
    BindFailed(String),
    SendFailed(String),
    ReceiveFailed(String),
    ParseError(String),
}

/// The message of an error as it is displayed.
pub open spec fn udp_error_text(e: UdpError) -> Seq<char> {
    match e {
        UdpError::BindFailed(m) => "Failed to bind socket: "@ + m@,
        UdpError::SendFailed(m) => "Failed to send: "@ + m@,
        UdpError::ReceiveFailed(m) => "Failed to receive: "@ + m@,
        UdpError::ParseError(m) => "Failed to parse: "@ + m@,
    }
}

impl UdpError {
    /// The message of this error as it is displayed.
    pub fn to_string(&self) -> (r: String)
        ensures
            r@ == udp_error_text(*self),
    {
        match self {
            UdpError::BindFailed(m) => concat_chars("Failed to bind socket: ", chars_of(m.as_str()).as_slice()),
            UdpError::SendFailed(m) => concat_chars("Failed to send: ", chars_of(m.as_str()).as_slice()),
            UdpError::ReceiveFailed(m) => concat_chars("Failed to receive: ", chars_of(m.as_str()).as_slice()),
            UdpError::ParseError(m) => concat_chars("Failed to parse: ", chars_of(m.as_str()).as_slice()),
        }
    }
}

/// Port on which WinlatorXR sends pose packets.
pub const RX_PORT: u16 = 7872;

/// Port to receive pose packets on when `RX_PORT` is taken.
pub const FALLBACK_RX_PORT: u16 = 7873;

/// Port on which WinlatorXR reads control packets.
pub const TX_PORT: u16 = 7278;

/// What the pose receiver does after one attempt to receive a packet.
#[derive(Debug, Clone, Copy, PartialEq, Eq, Structural)]
pub enum ReceiverStep {
    /// Decode the packet and publish it if it decodes.
    Decode,
    /// Sleep this many milliseconds, then try again.
    Sleep(u64),
}

/// The pose receiver's response to one receive: a packet is decoded; nothing
/// waiting means a short sleep; a failed receive a longer back-off.
pub fn pose_receiver_step(received: &Result<Option<String>, UdpError>) -> (r: ReceiverStep)
    ensures
        r == match received {
            Ok(Some(_)) => ReceiverStep::Decode,
            Ok(None) => ReceiverStep::Sleep(1),
            Err(UdpError::ReceiveFailed(_)) => ReceiverStep::Sleep(100),
            Err(_) => ReceiverStep::Sleep(1),
        },
{
    match received {
        Ok(Some(_)) => ReceiverStep::Decode,
        Ok(None) => ReceiverStep::Sleep(1),
        Err(UdpError::ReceiveFailed(_)) => ReceiverStep::Sleep(100),
        Err(_) => ReceiverStep::Sleep(1),
    }
}

/// Number of controller buttons in a pose packet.
pub const BUTTON_COUNT: usize = 19;

/// Fields that a pose packet needs: the client tag, the 28 tracking values and
/// the frame id. The button string and the mode flags may follow.
pub const MIN_POSE_FIELDS: usize = 30;

/// Number of tracking values (quaternions, thumbsticks, positions, IPD, FOV).
pub const TRACKING_FIELDS: usize = 28;

/// Button `i` of a button string is pressed when its `i`-th character is `T`.
pub open spec fn button_pressed(s: Seq<char>, i: int) -> bool {
    0 <= i < s.len() && s[i] == 'T'
}

/// The field at `i`, or the empty text where the packet is shorter.
pub open spec fn field_or_empty(fields: Seq<Seq<char>>, i: int) -> Seq<char> {
    if 0 <= i < fields.len() {
        fields[i]
    } else {
        Seq::<char>::empty()
    }
}

/// The message for a packet with too few fields.
pub open spec fn short_packet_text(n: nat) -> Seq<char> {
    "Invalid pose data: expected at least 30 fields, got "@ + decimal(n)
}

/// The message for a frame id that is not a number from 0 to 255.
pub open spec fn frame_id_error_text(k: IntErrorKind) -> Seq<char> {
    "Frame ID: "@ + int_error_text(k)
}

/// A pose packet with its structure checked: the tracking values stay text
/// (they are floating-point numbers), everything else is decoded.
pub struct WinlatorPoseFrame {
    /// LHANDQX .. FOVV in wire order.
    pub tracking_fields: Vec<String>,
    /// CURRFRAMEID as sent.
    pub frame_id_field: String,
    /// BUTTONBOOLSTR decoded, in the order the protocol lists the buttons.
    pub buttons: [bool; 19],
    /// First character of IMMERSIVESBSBOOLSTR.
    pub immersive_mode: bool,
    /// Second character of IMMERSIVESBSBOOLSTR.
    pub sbs_mode: bool,
}

/// What a well-formed packet with the fields `fs` decodes to.
pub open spec fn frame_matches(f: WinlatorPoseFrame, fs: Seq<Seq<char>>) -> bool {
    let btn = field_or_empty(fs, 30);
    let flags = field_or_empty(fs, 31);
    &&& f.tracking_fields@.len() == TRACKING_FIELDS
    &&& forall|i: int| 0 <= i < TRACKING_FIELDS ==> #[trigger] f.tracking_fields@[i]@ == fs[i + 1]
    &&& f.frame_id_field@ == fs[29]
    &&& forall|i: int| 0 <= i < BUTTON_COUNT ==> f.buttons[i] == button_pressed(btn, i)
    &&& f.immersive_mode == (flags.len() > 0 && flags[0] == 'T')
    &&& f.sbs_mode == (flags.len() > 1 && flags[1] == 'T')
}

fn buttons_from_chars(cs: &[char]) -> (b: [bool; 19])
    ensures
        forall|i: int| 0 <= i < BUTTON_COUNT ==> b[i] == button_pressed(cs@, i),
{
    let mut buttons = [false; 19];
    let mut i: usize = 0;
    while i < cs.len() && i < 19
        invariant
            i <= 19,
            i <= cs@.len(),
            forall|j: int| 0 <= j < i ==> buttons[j] == button_pressed(cs@, j),
            forall|j: int| i <= j < 19 ==> !buttons[j],
        decreases 19 - i,
    {
        buttons[i] = cs[i] == 'T';
        i += 1;
    }
    buttons
}

/// Decodes the button string of a pose packet: one `T` or `F` per button.
/// Characters past the nineteenth are ignored and missing ones read as released.
pub fn parse_winlator_buttons(buttons_str: &str) -> (res: Result<[bool; 19], UdpError>)
    ensures
        res is Ok,
        res matches Ok(b) ==> forall|i: int|
            0 <= i < BUTTON_COUNT ==> b[i] == button_pressed(buttons_str@, i),
{
    let cs = chars_of(buttons_str);
    Ok(buttons_from_chars(cs.as_slice()))
}

/// Checks the structure of a pose packet (`CLIENT`, 28 tracking values, frame id,
/// then optionally the button string and the mode flags, separated by
/// whitespace) and decodes its non-numeric parts.
pub fn parse_winlator_pose(data: &str) -> (res: Result<WinlatorPoseFrame, UdpError>)
    ensures
        split_ws(data@).len() < MIN_POSE_FIELDS <==> res is Err,
        res matches Err(e) ==> (e matches UdpError::ParseError(m) && m@ == short_packet_text(
            split_ws(data@).len(),
        )),
        res matches Ok(f) ==> frame_matches(f, split_ws(data@)),
{
    let parts = split_fields(data);
    let ghost fs = split_ws(data@);
    if parts.len() < MIN_POSE_FIELDS {
        let count = decimal_chars(parts.len() as u64);
        let msg = concat_chars("Invalid pose data: expected at least 30 fields, got ", count.as_slice());
        return Err(UdpError::ParseError(msg));
    }
    proof {
        assert(parts@[29]@ == fs[29]);
    }
    let mut tracking_fields: Vec<String> = Vec::new();
    let mut i: usize = 1;
    while i < 29
        invariant
            1 <= i <= 29,
            parts@.len() >= 30,
            views(parts@) == fs,
            tracking_fields@.len() == i - 1,
            forall|k: int| 0 <= k < i - 1 ==> #[trigger] tracking_fields@[k]@ == fs[k + 1],
        decreases 29 - i,
    {
        let f = string_of(parts[i].as_slice());
        proof {
            assert(parts@[i as int]@ == fs[i as int]);
        }
        tracking_fields.push(f);
        i += 1;
    }
    let frame_id_field = string_of(parts[29].as_slice());
    let buttons = if parts.len() > 30 {
        proof {
            assert(parts@[30]@ == fs[30]);
        }
        buttons_from_chars(parts[30].as_slice())
    } else {
        let empty: Vec<char> = Vec::new();
        proof {
            assert(empty@ =~= field_or_empty(fs, 30));
        }
        buttons_from_chars(empty.as_slice())
    };
    let (immersive_mode, sbs_mode) = if parts.len() > 31 {
        let flags = &parts[31];
        proof {
            assert(flags@ == fs[31]);
        }
        (flags.len() > 0 && flags[0] == 'T', flags.len() > 1 && flags[1] == 'T')
    } else {
        (false, false)
    };
    Ok(WinlatorPoseFrame { tracking_fields, frame_id_field, buttons, immersive_mode, sbs_mode })
}

/// Decodes the frame id of a pose packet: a number from 0 to 255, as `str::parse`
/// reads a `u8`.
pub fn parse_frame_id(field: &str) -> (res: Result<u8, UdpError>)
    ensures
        match parse_unsigned(field@, 255) {
            Ok(v) => res matches Ok(id) && id == v,
            Err(k) => res matches Err(e) && (e matches UdpError::ParseError(m)
                && m@ == frame_id_error_text(k)),
        },
{
    let cs = chars_of(field);
    match parse_unsigned_chars(cs.as_slice(), 255) {
        Ok(v) => Ok(v as u8),
        Err(k) => {
            let what = int_error_message(k);
            let what_chars = chars_of(what.as_str());
            Err(UdpError::ParseError(concat_chars("Frame ID: ", what_chars.as_slice())))
        },
    }
}

/// The text of a control packet: `L_VIBE R_VIBE VR SBS FOV_W FOV_H`.
pub open spec fn haptic_text(
    left: Seq<char>,
    right: Seq<char>,
    vr_flag: u8,
    sbs_flag: bool,
    fov_w: Seq<char>,
    fov_h: Seq<char>,
) -> Seq<char> {
    left + " "@ + right + " "@ + decimal(vr_flag as nat) + " "@ + (if sbs_flag {
        "1"@
    } else {
        "0"@
    }) + " "@ + fov_w + " "@ + fov_h
}

/// Formats a control packet. The vibration strengths and target FOV are the
/// decimal texts of the floating-point values.
pub fn format_haptic_message(
    left_vibration: &str,
    right_vibration: &str,
    vr_flag: u8,
    sbs_flag: bool,
    target_fov_w: &str,
    target_fov_h: &str,
) -> (r: String)
    ensures
        r@ == haptic_text(
            left_vibration@,
            right_vibration@,
            vr_flag,
            sbs_flag,
            target_fov_w@,
            target_fov_h@,
        ),
{
    let mut r = left_vibration.to_string();
    r.append(" ");
    r.append(right_vibration);
    r.append(" ");
    let flag = decimal_chars(vr_flag as u64);
    let mut i: usize = 0;
    let ghost base = r@;
    while i < flag.len()
        invariant
            i <= flag@.len(),
            r@ == base + flag@.take(i as int),
        decreases flag@.len() - i,
    {
        push_char(&mut r, flag[i]);
        proof {
            assert(flag@.take(i + 1) =~= flag@.take(i as int).push(flag@[i as int]));
        }
        i += 1;
    }
    proof {
        assert(flag@.take(flag@.len() as int) =~= flag@);
    }
    r.append(" ");
    if sbs_flag {
        r.append("1");
    } else {
        r.append("0");
    }
    r.append(" ");
    r.append(target_fov_w);
    r.append(" ");
    r.append(target_fov_h);
    proof {
        let sb = if sbs_flag {
            "1"@
        } else {
            "0"@
        };
        assert(r@ =~= haptic_text(
            left_vibration@,
            right_vibration@,
            vr_flag,
            sbs_flag,
            target_fov_w@,
            target_fov_h@,
        ));
    }
    r
}

/// The packet that starts the XrAPI: no vibration, VR immersive mode,
/// monocular, default target FOV.
pub fn startup_packet() -> (r: String)
    ensures
        r@ == haptic_text("0"@, "0"@, 1, false, "104.5"@, "104.5"@),
        r@ == "0 0 1 0 104.5 104.5"@,
{
    let r = format_haptic_message("0", "0", 1, false, "104.5", "104.5");
    proof {
        reveal_strlit("0");
        reveal_strlit(" ");
        reveal_strlit("104.5");
        reveal_strlit("0 0 1 0 104.5 104.5");
        assert(decimal(1) =~= seq!['1']);
        assert(r@ =~= "0 0 1 0 104.5 104.5"@);
    }
    r
}

/// The keep-alive packet sent when a frame is submitted: no vibration, VR
/// immersive mode, side by side exactly when the frame holds a projection layer.
pub fn end_frame_packet(layers: &[crate::xr::StructureType]) -> (r: String)
    ensures
        r@ == haptic_text("0"@, "0"@, 1, crate::xr::frame_is_sbs(layers@), "104.5"@, "104.5"@),
{
    let sbs = crate::xr::layers_request_sbs(layers);
    format_haptic_message("0", "0", 1, sbs, "104.5", "104.5")
}

/// The vibration fields of a packet that plays a vibration on the controller of
/// `hand` at the given strength (its decimal text): the other controller's field
/// is `0`; without a hand both controllers vibrate.
pub open spec fn feedback_fields(hand: Option<Hand>, amplitude: Seq<char>) -> (Seq<char>, Seq<char>) {
    match hand {
        Some(Hand::Left) => (amplitude, "0"@),
        Some(Hand::Right) => ("0"@, amplitude),
        None => (amplitude, amplitude),
    }
}

/// The packet that plays a vibration on the controller of `hand` (both where
/// no hand is named), in VR immersive mode, monocular.
pub fn feedback_packet(hand: Option<Hand>, amplitude: &str) -> (r: String)
    ensures
        r@ == haptic_text(
            feedback_fields(hand, amplitude@).0,
            feedback_fields(hand, amplitude@).1,
            1,
            false,
            "104.5"@,
            "104.5"@,
        ),
{
    match hand {
        Some(Hand::Left) => format_haptic_message(amplitude, "0", 1, false, "104.5", "104.5"),
        Some(Hand::Right) => format_haptic_message("0", amplitude, 1, false, "104.5", "104.5"),
        None => format_haptic_message(amplitude, amplitude, 1, false, "104.5", "104.5"),
    }
}

/// The decimal text of a frame id reads back as that frame id.
pub proof fn lemma_frame_id_roundtrip(id: u8)
    ensures
        parse_unsigned(decimal(id as nat), 255) == Ok::<nat, IntErrorKind>(id as nat),
{
    crate::text::lemma_scan_decimal(id as nat, 255);
    crate::text::lemma_decimal_first_is_digit(id as nat);
    let d = decimal(id as nat);
    assert(crate::text::is_digit(d[0]));
    assert(d[0] != '+' && d[0] != '-');
}

} // verus!
