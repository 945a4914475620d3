//! Mapping of OpenVR action paths onto the WinlatorXR controller inputs.
use vstd::prelude::*;
use crate::paths::{lookup, Path, PathRegistry};
use crate::text::{
    ascii_lower, ascii_lower_seq, ascii_lowercase, chars_of, contains_chars, contains_seq,
    ends_with_chars, ends_with_seq, equal_chars, matches_at, occurs_at, string_of, trim_end_char,
};

verus! {

/// A hand, as a controller role.
#[derive(Debug, Clone, Copy, PartialEq, Eq, Hash, Structural)]
pub enum Hand {
    Left,
    Right,
}

/// The physical inputs of one controller that a button string reports.
#[derive(Debug, Clone, Copy, PartialEq, Eq, Structural)]
pub enum ButtonKind {
    Grip,
    TriggerClick,
    ThumbstickClick,
    ButtonA,
    ButtonB,
}

/// A thumbstick reading: the IEEE-754 bit patterns of its two `f32` axes.
#[derive(Debug, Clone, Copy, PartialEq, Eq, Structural)]
pub struct StickAxes {
    pub x_bits: u32,
    pub y_bits: u32,
}

/// What the controllers report in one pose packet.
#[derive(Debug, Clone, Copy)]
pub struct ControllerInputs {
    pub buttons: [bool; 19],
    pub left_thumb: StickAxes,
    pub right_thumb: StickAxes,
}

/// The value of an action resolved from the controller inputs.
#[derive(Debug, Clone, Copy)]
pub enum ActionValue {
    Bool(bool),
    Vector2(StickAxes),
    /// The action maps to no physical input of the hand.
    Unresolved,
}

/// Index of a physical input in the 19-entry button string.
pub open spec fn button_slot(hand: Hand, kind: ButtonKind) -> int {
    match (hand, kind) {
        (Hand::Left, ButtonKind::Grip) => 0,
        (Hand::Left, ButtonKind::TriggerClick) => 7,
        (Hand::Left, ButtonKind::ThumbstickClick) => 2,
        (Hand::Left, ButtonKind::ButtonA) => 8,
        (Hand::Left, ButtonKind::ButtonB) => 9,
        (Hand::Right, ButtonKind::Grip) => 12,
        (Hand::Right, ButtonKind::TriggerClick) => 18,
        (Hand::Right, ButtonKind::ThumbstickClick) => 13,
        (Hand::Right, ButtonKind::ButtonA) => 10,
        (Hand::Right, ButtonKind::ButtonB) => 11,
    }
}

/// Index of the left menu button; the right one is kept by WinlatorXR itself.
pub const LEFT_MENU_SLOT: usize = 1;

/// Index of a physical input in the button string of a pose packet. The X and Y
/// buttons of the left controller stand in for A and B.
pub fn button_index(hand: Hand, kind: ButtonKind) -> (r: Option<usize>)
    ensures
        r matches Some(i) && i as int == button_slot(hand, kind),
{
    match (hand, kind) {
        (Hand::Left, ButtonKind::Grip) => Some(0),
        (Hand::Left, ButtonKind::TriggerClick) => Some(7),
        (Hand::Left, ButtonKind::ThumbstickClick) => Some(2),
        (Hand::Left, ButtonKind::ButtonA) => Some(8),
        (Hand::Left, ButtonKind::ButtonB) => Some(9),
        (Hand::Right, ButtonKind::Grip) => Some(12),
        (Hand::Right, ButtonKind::TriggerClick) => Some(18),
        (Hand::Right, ButtonKind::ThumbstickClick) => Some(13),
        (Hand::Right, ButtonKind::ButtonA) => Some(10),
        (Hand::Right, ButtonKind::ButtonB) => Some(11),
    }
}

/// The last index at which `pat` occurs in `s`, as `str::rsplit_once` finds it.
pub open spec fn last_occurrence(s: Seq<char>, pat: Seq<char>) -> Option<int> {
    if exists|i: int| occurs_at(s, pat, i) {
        Some(choose|i: int| occurs_at(s, pat, i) && forall|j: int| j > i ==> !occurs_at(s, pat, j))
    } else {
        None
    }
}

/// The action name in an action path: what follows the last `/in/`, if that is
/// not empty.
pub open spec fn action_name_of(s: Seq<char>) -> Option<Seq<char>> {
    match last_occurrence(s, "/in/"@) {
        Some(i) => if i + 4 < s.len() {
            Some(s.skip(i + 4))
        } else {
            None
        },
        None => None,
    }
}

/// The hand that a user path names: `.../hand/left` or `.../hand/right`, with
/// any trailing slashes ignored.
pub open spec fn hand_of(s: Seq<char>) -> Option<Hand> {
    let t = trim_end_char(s, '/');
    if ends_with_seq(t, "/hand/left"@) {
        Some(Hand::Left)
    } else if ends_with_seq(t, "/hand/right"@) {
        Some(Hand::Right)
    } else {
        None
    }
}

/// The button slot that a lower-cased action name reads, for a hand.
pub open spec fn digital_slot(key: Seq<char>, hand: Hand) -> Option<int> {
    if contains_seq(key, "squeeze"@) || contains_seq(key, "grip"@) {
        Some(button_slot(hand, ButtonKind::Grip))
    } else if contains_seq(key, "menu"@) || contains_seq(key, "system"@) || contains_seq(
        key,
        "app-menu"@,
    ) {
        if hand == Hand::Left {
            Some(LEFT_MENU_SLOT as int)
        } else {
            None
        }
    } else if contains_seq(key, "thumbstick-click"@) || contains_seq(key, "trackpad-click"@)
        || contains_seq(key, "joystick-click"@) {
        Some(button_slot(hand, ButtonKind::ThumbstickClick))
    } else if contains_seq(key, "thumbstick"@) || contains_seq(key, "trackpad"@) || contains_seq(
        key,
        "joystick"@,
    ) {
        None
    } else if key == "a"@ || key == "x"@ {
        Some(button_slot(hand, ButtonKind::ButtonA))
    } else if key == "b"@ || key == "y"@ {
        Some(button_slot(hand, ButtonKind::ButtonB))
    } else if contains_seq(key, "trigger"@) {
        Some(button_slot(hand, ButtonKind::TriggerClick))
    } else {
        None
    }
}

/// A lower-cased action name reads a thumbstick axis.
pub open spec fn is_analog_name(key: Seq<char>) -> bool {
    (contains_seq(key, "thumbstick"@) || contains_seq(key, "trackpad"@) || contains_seq(
        key,
        "joystick"@,
    )) && !contains_seq(key, "click"@) && !contains_seq(key, "touch"@)
}

/// What an action name reads from the inputs of a hand.
pub open spec fn resolved_value(
    name: Option<Seq<char>>,
    hand: Option<Hand>,
    buttons: Seq<bool>,
    left: StickAxes,
    right: StickAxes,
) -> ActionValue {
    match (name, hand) {
        (Some(n), Some(h)) => {
            let key = ascii_lower_seq(n);
            if is_analog_name(key) {
                ActionValue::Vector2(
                    if h == Hand::Left {
                        left
                    } else {
                        right
                    },
                )
            } else {
                match digital_slot(key, h) {
                    Some(i) => ActionValue::Bool(buttons[i]),
                    None => ActionValue::Unresolved,
                }
            }
        },
        _ => ActionValue::Unresolved,
    }
}

/// The last index at which `pat` occurs in `s` (see `last_occurrence`).
pub fn last_occurrence_of(s: &[char], pat: &[char]) -> (r: Option<usize>)
    ensures
        r matches Some(i) ==> last_occurrence(s@, pat@) == Some(i as int) && occurs_at(
            s@,
            pat@,
            i as int,
        ),
        r is None ==> last_occurrence(s@, pat@) is None,
{
    let mut i: usize = s.len();
    loop
        invariant
            i <= s@.len(),
            forall|j: int| j > i ==> !occurs_at(s@, pat@, j),
        decreases i,
    {
        if matches_at(s, pat, i) {
            proof {
                assert(occurs_at(s@, pat@, i as int));
            }
            return Some(i);
        }
        if i == 0 {
            proof {
                assert forall|k: int| !occurs_at(s@, pat@, k) by {}
            }
            return None;
        }
        i -= 1;
    }
}

/// The action name in an action path (see `action_name_of`), on characters.
pub fn action_name_chars(s: &[char]) -> (r: Option<Vec<char>>)
    ensures
        r matches Some(n) ==> action_name_of(s@) == Some(n@),
        r is None ==> action_name_of(s@) is None,
{
    let len = s.len();
    let pat = chars_of("/in/");
    proof {
        reveal_strlit("/in/");
        assert(pat@.len() == 4);
    }
    match last_occurrence_of(s, pat.as_slice()) {
        Some(i) => {
            proof {
                assert(occurs_at(s@, pat@, i as int));
                assert(i + 4 <= s@.len());
            }
            if i + 4 < len {
                let mut rest: Vec<char> = Vec::new();
                let mut k: usize = i + 4;
                while k < s.len()
                    invariant
                        i + 4 <= k <= s@.len(),
                        rest@ == s@.subrange(i + 4, k as int),
                    decreases s@.len() - k,
                {
                    rest.push(s[k]);
                    proof {
                        assert(s@.subrange(i + 4, k + 1) =~= s@.subrange(i + 4, k as int).push(
                            s@[k as int],
                        ));
                    }
                    k += 1;
                }
                proof {
                    assert(s@.subrange(i + 4, s@.len() as int) =~= s@.skip(i + 4));
                }
                Some(rest)
            } else {
                None
            }
        },
        None => None,
    }
}

/// The action name of the path registered for an action handle: what follows
/// the last `/in/` in the path.
pub fn action_name_from_path(registry: &PathRegistry, handle: u64) -> (r: Option<String>)
    ensures
        match lookup(registry@, Path(handle)) {
            Some(s) => match action_name_of(s) {
                Some(n) => r matches Some(x) && x@ == n,
                None => r is None,
            },
            None => r is None,
        },
{
    let s = registry.path_to_string_global(Path(handle))?;
    let cs = chars_of(s.as_str());
    match action_name_chars(cs.as_slice()) {
        Some(n) => Some(string_of(n.as_slice())),
        None => None,
    }
}

/// The hand that a user path names (see `hand_of`), on characters.
pub fn hand_of_chars(s: &[char]) -> (r: Option<Hand>)
    ensures
        r == hand_of(s@),
{
    let mut end: usize = s.len();
    proof {
        assert(s@.take(end as int) =~= s@);
    }
    while end > 0 && s[end - 1] == '/'
        invariant
            end <= s@.len(),
            trim_end_char(s@.take(end as int), '/') == trim_end_char(s@, '/'),
        decreases end,
    {
        proof {
            assert(s@.take(end - 1) =~= s@.take(end as int).drop_last());
        }
        end -= 1;
    }
    let mut t: Vec<char> = Vec::new();
    let mut k: usize = 0;
    while k < end
        invariant
            k <= end <= s@.len(),
            t@ == s@.take(k as int),
        decreases end - k,
    {
        t.push(s[k]);
        proof {
            assert(s@.take(k + 1) =~= s@.take(k as int).push(s@[k as int]));
        }
        k += 1;
    }
    proof {
        assert(trim_end_char(t@, '/') == t@);
    }
    let left = chars_of("/hand/left");
    let right = chars_of("/hand/right");
    if ends_with_chars(t.as_slice(), left.as_slice()) {
        Some(Hand::Left)
    } else if ends_with_chars(t.as_slice(), right.as_slice()) {
        Some(Hand::Right)
    } else {
        None
    }
}

/// The hand of the user path registered for a handle, if it names one.
pub fn hand_from_path(registry: &PathRegistry, handle: u64) -> (r: Option<Hand>)
    ensures
        match lookup(registry@, Path(handle)) {
            Some(s) => r == hand_of(s),
            None => r is None,
        },
{
    let s = registry.path_to_string_global(Path(handle))?;
    let cs = chars_of(s.as_str());
    hand_of_chars(cs.as_slice())
}

fn has_pat(key: &[char], pat: &str) -> (r: bool)
    ensures
        r == contains_seq(key@, pat@),
{
    let p = chars_of(pat);
    contains_chars(key, p.as_slice())
}

fn is_exactly(key: &[char], word: &str) -> (r: bool)
    ensures
        r == (key@ == word@),
{
    let w = chars_of(word);
    equal_chars(key, w.as_slice())
}

fn digital_slot_exec(key: &[char], hand: Hand) -> (r: Option<usize>)
    ensures
        r matches Some(i) ==> digital_slot(key@, hand) == Some(i as int),
        r is None ==> digital_slot(key@, hand) is None,
{
    if has_pat(key, "squeeze") || has_pat(key, "grip") {
        button_index(hand, ButtonKind::Grip)
    } else if has_pat(key, "menu") || has_pat(key, "system") || has_pat(key, "app-menu") {
        match hand {
            Hand::Left => Some(LEFT_MENU_SLOT),
            Hand::Right => None,
        }
    } else if has_pat(key, "thumbstick-click") || has_pat(key, "trackpad-click") || has_pat(
        key,
        "joystick-click",
    ) {
        button_index(hand, ButtonKind::ThumbstickClick)
    } else if has_pat(key, "thumbstick") || has_pat(key, "trackpad") || has_pat(key, "joystick") {
        None
    } else if is_exactly(key, "a") || is_exactly(key, "x") {
        button_index(hand, ButtonKind::ButtonA)
    } else if is_exactly(key, "b") || is_exactly(key, "y") {
        button_index(hand, ButtonKind::ButtonB)
    } else if has_pat(key, "trigger") {
        button_index(hand, ButtonKind::TriggerClick)
    } else {
        None
    }
}

/// Maps a logical action name to its digital button state for a hand: grip,
/// menu (left hand only), thumbstick click, A/X, B/Y or trigger. Bare
/// thumbstick names are analog and read nothing here.
pub fn resolve_digital(name: Option<String>, hand: Hand, buttons: &[bool; 19]) -> (r: Option<bool>)
    ensures
        match name {
            Some(n) => match digital_slot(ascii_lower_seq(n@), hand) {
                Some(i) => r == Some(buttons@[i]),
                None => r is None,
            },
            None => r is None,
        },
{
    let n = name?;
    let cs = chars_of(n.as_str());
    let key = ascii_lowercase(cs.as_slice());
    match digital_slot_exec(key.as_slice(), hand) {
        Some(i) => {
            proof {
                assert(0 <= i < 19) by {
                    assert(digital_slot(key@, hand) == Some(i as int));
                }
            }
            Some(buttons[i])
        },
        None => None,
    }
}

/// Maps a logical action name to a thumbstick reading: names of a thumbstick,
/// trackpad or joystick that are not a click or a touch read the axes.
pub fn resolve_analog(name: Option<String>, fallback: StickAxes) -> (r: Option<ActionValue>)
    ensures
        match name {
            Some(n) => if is_analog_name(ascii_lower_seq(n@)) {
                r matches Some(ActionValue::Vector2(v)) && v == fallback
            } else {
                r is None
            },
            None => r is None,
        },
{
    let n = name?;
    let cs = chars_of(n.as_str());
    let key = ascii_lowercase(cs.as_slice());
    if (has_pat(key.as_slice(), "thumbstick") || has_pat(key.as_slice(), "trackpad") || has_pat(
        key.as_slice(),
        "joystick",
    )) && !has_pat(key.as_slice(), "click") && !has_pat(key.as_slice(), "touch") {
        Some(ActionValue::Vector2(fallback))
    } else {
        None
    }
}

/// Resolves an action name and hand against the controller inputs of a pose
/// packet: a thumbstick axis, a button state, or unresolved.
pub fn resolve_action(name: Option<String>, hand: Option<Hand>, inputs: &ControllerInputs) -> (r:
    ActionValue)
    ensures
        r == resolved_value(
            match name {
                Some(n) => Some(n@),
                None => None,
            },
            hand,
            inputs.buttons@,
            inputs.left_thumb,
            inputs.right_thumb,
        ),
{
    let hand = match hand {
        Some(h) => h,
        None => return ActionValue::Unresolved,
    };
    let thumb = match hand {
        Hand::Left => inputs.left_thumb,
        Hand::Right => inputs.right_thumb,
    };
    let name2 = match &name {
        Some(n) => Some(n.clone()),
        None => None,
    };
    if let Some(v) = resolve_analog(name2, thumb) {
        return v;
    }
    match resolve_digital(name, hand, &inputs.buttons) {
        Some(b) => ActionValue::Bool(b),
        None => ActionValue::Unresolved,
    }
}

/// Which buttons drive the finger curls of a hand: the trigger curls the index
/// finger, the grip the other fingers, the thumbstick click the thumb.
#[derive(Debug, Clone, Copy, PartialEq, Eq, Structural)]
pub struct CurlInputs {
    pub thumb: bool,
    pub index: bool,
    pub grip: bool,
}

/// The buttons that drive the finger curls of a hand (see `hand_curl_inputs`).
pub open spec fn hand_curl_inputs_spec(hand: Hand, buttons: Option<&[bool; 19]>) -> CurlInputs {
    match buttons {
        Some(b) => CurlInputs {
            thumb: b@[button_slot(hand, ButtonKind::ThumbstickClick)],
            index: b@[button_slot(hand, ButtonKind::TriggerClick)],
            grip: b@[button_slot(hand, ButtonKind::Grip)],
        },
        None => CurlInputs { thumb: false, index: false, grip: false },
    }
}

/// The buttons that drive the finger curls of a hand; all released where no
/// pose packet has arrived yet.
pub fn hand_curl_inputs(hand: Hand, buttons: Option<&[bool; 19]>) -> (r: CurlInputs)
    ensures
        r == hand_curl_inputs_spec(hand, buttons),
{
    match buttons {
        None => CurlInputs { thumb: false, index: false, grip: false },
        Some(b) => {
            let t = button_index(hand, ButtonKind::ThumbstickClick).unwrap();
            let i = button_index(hand, ButtonKind::TriggerClick).unwrap();
            let g = button_index(hand, ButtonKind::Grip).unwrap();
            CurlInputs { thumb: b[t], index: b[i], grip: b[g] }
        },
    }
}

/// A finger curl in twelfths of a full curl: full where its button is pressed,
/// open otherwise.
pub open spec fn full_curl(pressed: bool) -> int {
    if pressed {
        12
    } else {
        0
    }
}

/// The finger curls of a hand (thumb, index, middle, ring, pinky), in twelfths
/// of a full curl: the trigger curls the index finger and bleeds into the middle,
/// ring and pinky fingers by a half, a quarter and a sixth; the grip curls those
/// three fully.
pub open spec fn curl_twelfths(c: CurlInputs) -> Seq<int> {
    let index = full_curl(c.index);
    let grip = full_curl(c.grip);
    seq![
        full_curl(c.thumb),
        index,
        if grip >= index / 2 { grip } else { index / 2 },
        if grip >= index / 4 { grip } else { index / 4 },
        if grip >= index / 6 { grip } else { index / 6 },
    ]
}

/// The target finger curls of a hand (thumb, index, middle, ring, pinky), in
/// twelfths of a full curl; all open where no pose packet has arrived yet.
pub fn hand_curl_target(hand: Hand, buttons: Option<&[bool; 19]>) -> (r: [u8; 5])
    ensures
        forall|i: int|
            0 <= i < 5 ==> r[i] as int == #[trigger] curl_twelfths(hand_curl_inputs_spec(hand, buttons))[i],
{
    let c = hand_curl_inputs(hand, buttons);
    let index: u8 = if c.index {
        12
    } else {
        0
    };
    let grip: u8 = if c.grip {
        12
    } else {
        0
    };
    let thumb: u8 = if c.thumb {
        12
    } else {
        0
    };
    let middle: u8 = if grip >= index / 2 {
        grip
    } else {
        index / 2
    };
    let ring: u8 = if grip >= index / 4 {
        grip
    } else {
        index / 4
    };
    let pinky: u8 = if grip >= index / 6 {
        grip
    } else {
        index / 6
    };
    [thumb, index, middle, ring, pinky]
}

/// The part of the button string that a controller reports: the first ten
/// entries for the left controller, the last nine for the right one.
pub open spec fn controller_slot(hand: Hand, i: int) -> bool {
    match hand {
        Hand::Left => 0 <= i < 10,
        Hand::Right => 10 <= i < 19,
    }
}

/// Every button that an action name reads for a hand belongs to that hand's
/// controller; in particular the right hand has no menu button.
pub proof fn lemma_digital_slot_of_own_controller(key: Seq<char>, hand: Hand)
    ensures
        digital_slot(key, hand) matches Some(i) ==> controller_slot(hand, i),
        digital_slot(key, Hand::Right) != Some(LEFT_MENU_SLOT as int),
{
}

/// What an action resolves to for a hand depends only on that hand's controller:
/// its part of the button string and its thumbstick. Changing the other
/// controller's buttons or thumbstick never changes the result.
pub proof fn lemma_hand_reads_own_controller(
    name: Option<Seq<char>>,
    hand: Hand,
    b1: Seq<bool>,
    b2: Seq<bool>,
    left1: StickAxes,
    right1: StickAxes,
    left2: StickAxes,
    right2: StickAxes,
)
    requires
        b1.len() == 19,
        b2.len() == 19,
        forall|i: int| controller_slot(hand, i) ==> b1[i] == b2[i],
        hand == Hand::Left ==> left1 == left2,
        hand == Hand::Right ==> right1 == right2,
    ensures
        resolved_value(name, Some(hand), b1, left1, right1) == resolved_value(
            name,
            Some(hand),
            b2,
            left2,
            right2,
        ),
{
    if let Some(n) = name {
        lemma_digital_slot_of_own_controller(ascii_lower_seq(n), hand);
    }
}

/// Action names are matched without regard to ASCII case: a name and its
/// lower-cased form resolve alike.
pub proof fn lemma_resolution_ignores_ascii_case(
    name: Seq<char>,
    hand: Option<Hand>,
    buttons: Seq<bool>,
    left: StickAxes,
    right: StickAxes,
)
    ensures
        resolved_value(Some(name), hand, buttons, left, right) == resolved_value(
            Some(ascii_lower_seq(name)),
            hand,
            buttons,
            left,
            right,
        ),
{
    assert forall|i: int| 0 <= i < name.len() implies ascii_lower(ascii_lower(#[trigger] name[i]))
        == ascii_lower(name[i]) by {
        let c = name[i];
        if 'A' <= c && c <= 'Z' {
            assert(('a' as u32) <= (c as u32) + 32 <= ('z' as u32));
        }
    }
    assert(ascii_lower_seq(ascii_lower_seq(name)) =~= ascii_lower_seq(name));
}

/// Each finger follows its own button: the thumb curls fully exactly when the
/// thumbstick is clicked and the index finger exactly when the trigger is
/// pulled, whatever the other buttons are; the grip curls the middle, ring and
/// pinky fingers fully; without the grip, the trigger bleeds into them less
/// and less toward the pinky, and with neither they stay open.
pub proof fn lemma_curls_follow_their_buttons(c: CurlInputs)
    ensures
        curl_twelfths(c).len() == 5,
        curl_twelfths(c)[0] == (if c.thumb {
            12int
        } else {
            0int
        }),
        curl_twelfths(c)[1] == (if c.index {
            12int
        } else {
            0int
        }),
        c.grip ==> curl_twelfths(c)[2] == 12 && curl_twelfths(c)[3] == 12 && curl_twelfths(c)[4]
            == 12,
        !c.grip && !c.index ==> curl_twelfths(c)[2] == 0 && curl_twelfths(c)[3] == 0
            && curl_twelfths(c)[4] == 0,
        !c.grip && c.index ==> 12 > curl_twelfths(c)[2] > curl_twelfths(c)[3] > curl_twelfths(
            c,
        )[4] > 0,
{
}

/// The thumb curl of a hand follows that hand's thumbstick click alone.
pub proof fn lemma_thumb_follows_thumbstick_click(hand: Hand, b: &[bool; 19])
    ensures
        curl_twelfths(hand_curl_inputs_spec(hand, Some(b)))[0] == (if b@[button_slot(
            hand,
            ButtonKind::ThumbstickClick,
        )] {
            12int
        } else {
            0int
        }),
{
    lemma_curls_follow_their_buttons(hand_curl_inputs_spec(hand, Some(b)));
}

} // verus!
