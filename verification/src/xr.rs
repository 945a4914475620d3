//! Plain XR runtime types, flags and the session life cycle.
use vstd::prelude::*;

verus! {

/// Identifier of the XR system.
#[derive(Debug, Clone, Copy, PartialEq, Eq, Hash, Structural)]
pub struct SystemId(pub u64);

/// A point in time, in nanoseconds.
#[derive(Debug, Clone, Copy, PartialEq, Eq, Hash, Structural)]
pub struct XrTime(pub i64);

impl XrTime {
    /// Time zero.
    pub fn zero() -> (t: XrTime)
        ensures
            t == XrTime(0),
    {
        XrTime(0)
    }

    pub fn from_nanos(nanos: i64) -> (t: XrTime)
        ensures
            t == XrTime(nanos),
    {
        XrTime(nanos)
    }

    pub fn as_nanos(&self) -> (n: i64)
        ensures
            n == self.0,
    {
        self.0
    }

    /// Nanoseconds from `earlier` to `self`, or zero where `earlier` is later.
    pub fn nanos_since(self, earlier: XrTime) -> (n: u64)
        requires
            i64::MIN <= self.0 - earlier.0 <= i64::MAX,
        ensures
            n == if self.0 > earlier.0 {
                self.0 - earlier.0
            } else {
                0
            },
    {
        let d = self.0 - earlier.0;
        if d > 0 {
            d as u64
        } else {
            0
        }
    }
}

impl From<i64> for XrTime {
    fn from(nanos: i64) -> (t: XrTime) {
        XrTime(nanos)
    }
}

impl vstd::std_specs::convert::FromSpecImpl<i64> for XrTime {
    open spec fn obeys_from_spec() -> bool {
        true
    }

    open spec fn from_spec(nanos: i64) -> XrTime {
        XrTime(nanos)
    }
}

/// Another name of `XrTime`.
pub type Time = XrTime;

/// Life-cycle state of a session.
#[derive(Debug, Clone, Copy, PartialEq, Eq, Structural)]
pub enum SessionState {
    Unknown,
    Idle,
    Ready,
    Synchronized,
    Visible,
    Focused,
    Stopping,
    LossPending,
    Exiting,
}

/// Reference spaces a session can create.
#[derive(Debug, Clone, Copy, PartialEq, Eq, Structural)]
pub enum ReferenceSpaceType {
    View,
    Local,
    Stage,
}

impl ReferenceSpaceType {
    /// The raw handle of a space of this type: its position in the list of
    /// reference space types (view 0, local 1, stage 2).
    pub fn space_handle(self) -> (h: crate::paths::SpaceHandle)
        ensures
            h == crate::paths::SpaceHandle(
                match self {
                    ReferenceSpaceType::View => 0u64,
                    ReferenceSpaceType::Local => 1u64,
                    ReferenceSpaceType::Stage => 2u64,
                },
            ),
    {
        match self {
            ReferenceSpaceType::View => crate::paths::SpaceHandle(0),
            ReferenceSpaceType::Local => crate::paths::SpaceHandle(1),
            ReferenceSpaceType::Stage => crate::paths::SpaceHandle(2),
        }
    }
}

/// OpenVR tracking universe origins.
#[derive(Debug, Clone, Copy, PartialEq, Eq, Structural)]
pub enum TrackingUniverseOrigin {
    Seated,
    Standing,
    RawAndUncalibrated,
}

/// The reference space that stands for a tracking universe origin: standing
/// play uses the stage, seated and raw play the local space.
pub fn space_type_for_origin(origin: TrackingUniverseOrigin) -> (r: ReferenceSpaceType)
    ensures
        r == (if origin == TrackingUniverseOrigin::Standing {
            ReferenceSpaceType::Stage
        } else {
            ReferenceSpaceType::Local
        }),
{
    match origin {
        TrackingUniverseOrigin::Standing => ReferenceSpaceType::Stage,
        TrackingUniverseOrigin::Seated => ReferenceSpaceType::Local,
        TrackingUniverseOrigin::RawAndUncalibrated => ReferenceSpaceType::Local,
    }
}

/// Form factors of an XR system.
#[derive(Debug, Clone, Copy, PartialEq, Eq, Structural)]
pub enum FormFactor {
    HeadMountedDisplay,
}

/// View configurations.
#[derive(Debug, Clone, Copy, PartialEq, Eq, Structural)]
pub enum ViewConfigurationType {
    PrimaryStereo,
}

/// Visibility mask kinds.
#[derive(Debug, Clone, Copy, PartialEq, Eq, Structural)]
pub enum VisibilityMaskType {
    HiddenTriangleMesh,
    VisibleTriangleMesh,
    LineLoop,
}

/// Which eyes a composition layer is shown to.
#[derive(Debug, Clone, Copy, PartialEq, Eq, Structural)]
pub enum EyeVisibility {
    Both,
    Left,
    Right,
}

/// Environment blend modes.
#[derive(Debug, Clone, Copy, PartialEq, Eq, Structural)]
pub struct EnvironmentBlendMode {
    pub opaque: bool,
    pub additive: bool,
    pub alpha_blend: bool,
}

impl EnvironmentBlendMode {
    /// The opaque blend mode, the only one WinlatorXR shows.
    pub fn opaque() -> (m: EnvironmentBlendMode)
        ensures
            m == (EnvironmentBlendMode { opaque: true, additive: false, alpha_blend: false }),
    {
        EnvironmentBlendMode { opaque: true, additive: false, alpha_blend: false }
    }
}

/// Validity of a located view.
#[derive(Debug, Clone, Copy, PartialEq, Eq, Structural)]
pub struct ViewStateFlags {
    pub position_valid: bool,
    pub orientation_valid: bool,
}

impl ViewStateFlags {
    /// Whether any validity bit set in `flags` is also set here.
    pub fn contains(&self, flags: ViewStateFlags) -> (r: bool)
        ensures
            r == ((self.position_valid && flags.position_valid) || (self.orientation_valid
                && flags.orientation_valid)),
    {
        (self.position_valid && flags.position_valid) || (self.orientation_valid
            && flags.orientation_valid)
    }
}

/// Swapchain creation flags.
#[derive(Debug, Clone, Copy, PartialEq, Eq, Structural)]
pub struct SwapchainCreateFlags(pub u32);

/// Swapchain usage flags.
#[derive(Debug, Clone, Copy, PartialEq, Eq, Structural)]
pub struct SwapchainUsageFlags {
    pub bits: u64,
}

/// Usage flag: the image is a color attachment.
pub const SWAPCHAIN_USAGE_COLOR_ATTACHMENT: u64 = 1;

/// Usage flag: the image is a transfer destination.
pub const SWAPCHAIN_USAGE_TRANSFER_DST: u64 = 2;

impl SwapchainUsageFlags {
    /// The union of two sets of usage flags.
    pub fn union(self, rhs: SwapchainUsageFlags) -> (r: SwapchainUsageFlags)
        ensures
            r.bits == self.bits | rhs.bits,
    {
        SwapchainUsageFlags { bits: self.bits | rhs.bits }
    }
}

/// Composition layer flags.
#[derive(Debug, Clone, Copy, PartialEq, Eq, Structural)]
pub struct CompositionLayerFlags {
    pub bits: u64,
}

/// Layer flag: correct the chromatic aberration orientation.
pub const LAYER_CORRECT_ORIENTATION: u64 = 1;

/// Layer flag: correct the array size.
pub const LAYER_CORRECT_ARRAY_SIZE: u64 = 2;

/// Layer flag: the colors are not premultiplied by alpha.
pub const LAYER_UNPREMULTIPLIED_ALPHA: u64 = 4;

/// Layer flag: blend with the source alpha of the texture.
pub const LAYER_BLEND_TEXTURE_SOURCE_ALPHA: u64 = 8;

impl CompositionLayerFlags {
    /// No flags.
    pub fn empty() -> (r: CompositionLayerFlags)
        ensures
            r.bits == 0,
    {
        CompositionLayerFlags { bits: 0 }
    }

    /// The union of two sets of layer flags.
    pub fn union(self, rhs: CompositionLayerFlags) -> (r: CompositionLayerFlags)
        ensures
            r.bits == self.bits | rhs.bits,
    {
        CompositionLayerFlags { bits: self.bits | rhs.bits }
    }

    /// Adds the flags of `rhs`.
    pub fn insert(&mut self, rhs: CompositionLayerFlags)
        ensures
            final(self).bits == old(self).bits | rhs.bits,
    {
        self.bits = self.bits | rhs.bits;
    }

    /// Whether all flags of `rhs` are set.
    pub fn contains(&self, rhs: CompositionLayerFlags) -> (r: bool)
        ensures
            r == (self.bits & rhs.bits == rhs.bits),
    {
        self.bits & rhs.bits == rhs.bits
    }
}

/// Kinds of structures handed over in frame submission.
#[derive(Debug, Clone, Copy, PartialEq, Eq, Hash, Structural)]
pub enum StructureType {
    CompositionLayerProjection,
    CompositionLayerProjectionView,
    CompositionLayerQuad,
    CompositionLayerCylinderKHR,
    CompositionLayerEquirectKHR,
    CompositionLayerColorScaleBiasKHR,
}

/// The OpenXR code of a structure type.
pub open spec fn structure_type_code(t: StructureType) -> u32 {
    match t {
        StructureType::CompositionLayerProjection => 1000012000,
        StructureType::CompositionLayerProjectionView => 1000012001,
        StructureType::CompositionLayerQuad => 1000012002,
        StructureType::CompositionLayerCylinderKHR => 1000015000,
        StructureType::CompositionLayerEquirectKHR => 1000015001,
        StructureType::CompositionLayerColorScaleBiasKHR => 1000016000,
    }
}

impl StructureType {
    /// The OpenXR code of this structure type.
    pub fn code(self) -> (c: u32)
        ensures
            c == structure_type_code(self),
    {
        match self {
            StructureType::CompositionLayerProjection => 1000012000,
            StructureType::CompositionLayerProjectionView => 1000012001,
            StructureType::CompositionLayerQuad => 1000012002,
            StructureType::CompositionLayerCylinderKHR => 1000015000,
            StructureType::CompositionLayerEquirectKHR => 1000015001,
            StructureType::CompositionLayerColorScaleBiasKHR => 1000016000,
        }
    }
}

/// Joints of a tracked hand, in OpenXR order.
#[derive(Debug, Clone, Copy, PartialEq, Eq, Structural)]
pub enum HandJoint {
    Palm,
    Wrist,
    ThumbMetacarpal,
    ThumbProximal,
    ThumbDistal,
    ThumbTip,
    IndexMetacarpal,
    IndexProximal,
    IndexIntermediate,
    IndexDistal,
    IndexTip,
    MiddleMetacarpal,
    MiddleProximal,
    MiddleIntermediate,
    MiddleDistal,
    MiddleTip,
    RingMetacarpal,
    RingProximal,
    RingIntermediate,
    RingDistal,
    RingTip,
    LittleMetacarpal,
    LittleProximal,
    LittleIntermediate,
    LittleDistal,
    LittleTip,
}

/// Optional runtime features that are enabled.
#[derive(Debug, Clone, Copy, PartialEq, Eq, Structural)]
pub struct ExtensionSet {
    pub hand_tracking: bool,
    pub khr_visibility_mask: bool,
    pub display_refresh_rate: bool,
    pub khr_composition_layer_cylinder: bool,
    pub khr_composition_layer_equirect2: bool,
    pub khr_composition_layer_color_scale_bias: bool,
    pub htc_vive_focus3_controller_interaction: bool,
}

impl ExtensionSet {
    /// No extension enabled.
    pub fn none() -> (e: ExtensionSet)
        ensures
            !e.hand_tracking && !e.khr_visibility_mask && !e.display_refresh_rate
                && !e.khr_composition_layer_cylinder && !e.khr_composition_layer_equirect2
                && !e.khr_composition_layer_color_scale_bias
                && !e.htc_vive_focus3_controller_interaction,
    {
        ExtensionSet {
            hand_tracking: false,
            khr_visibility_mask: false,
            display_refresh_rate: false,
            khr_composition_layer_cylinder: false,
            khr_composition_layer_equirect2: false,
            khr_composition_layer_color_scale_bias: false,
            htc_vive_focus3_controller_interaction: false,
        }
    }

    /// The extensions the WinlatorXR runtime enables: the display refresh rate
    /// and the Vive Focus 3 controller profile.
    pub fn winlator_defaults() -> (e: ExtensionSet)
        ensures
            e == (ExtensionSet {
                hand_tracking: false,
                khr_visibility_mask: false,
                display_refresh_rate: true,
                khr_composition_layer_cylinder: false,
                khr_composition_layer_equirect2: false,
                khr_composition_layer_color_scale_bias: false,
                htc_vive_focus3_controller_interaction: true,
            }),
    {
        ExtensionSet {
            display_refresh_rate: true,
            htc_vive_focus3_controller_interaction: true,
            ..ExtensionSet::none()
        }
    }
}

/// Why a session could not be created or driven.
#[derive(Debug)]
pub enum SessionCreationError {
    GraphicsBindingRequired,
    InvalidGraphicsBinding,
    InitializationFailed(String),
}

/// The message of a session error as it is displayed.
pub open spec fn session_error_text(e: SessionCreationError) -> Seq<char> {
    match e {
        SessionCreationError::GraphicsBindingRequired => "graphics binding required"@,
        SessionCreationError::InvalidGraphicsBinding => "invalid graphics binding"@,
        SessionCreationError::InitializationFailed(m) => "initialization failed: "@ + m@,
    }
}

impl SessionCreationError {
    /// The message of this error as it is displayed.
    pub fn to_string(&self) -> (r: String)
        ensures
            r@ == session_error_text(*self),
    {
        match self {
            SessionCreationError::GraphicsBindingRequired => "graphics binding required".to_string(),
            SessionCreationError::InvalidGraphicsBinding => "invalid graphics binding".to_string(),
            SessionCreationError::InitializationFailed(m) => crate::text::concat_chars(
                "initialization failed: ",
                crate::text::chars_of(m.as_str()).as_slice(),
            ),
        }
    }
}

/// Why the runtime could not start.
#[derive(Debug)]
pub enum InitError {
    InitializationFailed(String),
    SessionCreationFailed(SessionCreationError),
}

/// Properties of the XR system.
#[derive(Debug)]
pub struct SystemProperties {
    pub system_id: SystemId,
    pub vendor_id: u32,
    pub tracking_system_name: String,
    pub form_factor: FormFactor,
}

/// The properties that the WinlatorXR system reports.
pub fn system_properties(system_id: SystemId) -> (p: SystemProperties)
    ensures
        p.system_id == system_id,
        p.vendor_id == 0,
        p.tracking_system_name@ == "WinlatorXR"@,
        p.form_factor == FormFactor::HeadMountedDisplay,
{
    SystemProperties {
        system_id,
        vendor_id: 0,
        tracking_system_name: "WinlatorXR".to_string(),
        form_factor: FormFactor::HeadMountedDisplay,
    }
}

/// A two-dimensional integer offset.
#[derive(Debug, Clone, Copy, PartialEq, Eq, Structural)]
pub struct Offset2D {
    pub x: i32,
    pub y: i32,
}

/// A two-dimensional integer offset of an image rectangle.
#[derive(Debug, Clone, Copy, PartialEq, Eq, Structural)]
pub struct Offset2Di {
    pub x: i32,
    pub y: i32,
}

/// An event of the runtime.
#[derive(Debug, Clone, Copy)]
pub struct Event;

/// Marker for "any graphics API".
pub struct AnyGraphics;

/// Marker for the Vulkan graphics API.
#[derive(Debug, Clone, Copy)]
pub struct Vulkan;

/// An OpenGL swapchain image.
#[derive(Debug, Clone, Copy, PartialEq, Eq, Structural)]
pub struct SwapchainImageOpenGLKHR {
    pub image: u32,
}

/// State of a session as seen by the runtime: its system and life-cycle state.
#[derive(Debug, Clone, Copy, PartialEq, Eq, Structural)]
pub struct SessionLifecycle {
    pub system_id: SystemId,
    pub state: SessionState,
}

impl SessionLifecycle {
    /// A freshly created session is ready.
    pub fn new(system_id: SystemId) -> (s: SessionLifecycle)
        ensures
            s == (SessionLifecycle { system_id, state: SessionState::Ready }),
    {
        SessionLifecycle { system_id, state: SessionState::Ready }
    }

    /// Beginning a session synchronizes it.
    pub fn begin(&mut self, view_type: ViewConfigurationType) -> (r: Result<(), SessionCreationError>)
        ensures
            r is Ok,
            final(self).state == SessionState::Synchronized,
            final(self).system_id == old(self).system_id,
    {
        self.state = SessionState::Synchronized;
        Ok(())
    }

    /// Ending a session stops it.
    pub fn end(&mut self) -> (r: Result<(), SessionCreationError>)
        ensures
            r is Ok,
            final(self).state == SessionState::Stopping,
            final(self).system_id == old(self).system_id,
    {
        self.state = SessionState::Stopping;
        Ok(())
    }

    /// Requesting an exit puts the session into the exiting state.
    pub fn request_exit(&mut self)
        ensures
            final(self).state == SessionState::Exiting,
            final(self).system_id == old(self).system_id,
    {
        self.state = SessionState::Exiting;
    }

    /// The raw handle of the session: its system id.
    pub fn as_raw(&self) -> (r: crate::paths::RawSession)
        ensures
            r == crate::paths::RawSession(self.system_id.0),
    {
        crate::paths::RawSession(self.system_id.0)
    }
}

/// Frame timing that waiting for a frame reports.
#[derive(Debug, Clone, Copy, PartialEq, Eq, Structural)]
pub struct FrameState {
    pub should_render: bool,
    pub predicted_display_time: XrTime,
    /// The predicted display period, in microseconds.
    pub predicted_display_period_micros: u64,
}

/// Display period of the 90 Hz WinlatorXR display, in microseconds.
pub const DISPLAY_PERIOD_MICROS: u64 = 11111;

/// Waits for frames of a session.
#[derive(Debug, Clone, Copy)]
pub struct FrameWaiter {
    pub session: crate::paths::RawSession,
}

impl FrameWaiter {
    pub fn new(session: crate::paths::RawSession) -> (w: FrameWaiter)
        ensures
            w.session == session,
    {
        FrameWaiter { session }
    }

    /// Frames are always rendered; display time and period are nominal.
    pub fn wait(&mut self) -> (r: Result<FrameState, SessionCreationError>)
        ensures
            r matches Ok(f) && f == (FrameState {
                should_render: true,
                predicted_display_time: XrTime(0),
                predicted_display_period_micros: DISPLAY_PERIOD_MICROS,
            }),
            final(self).session == old(self).session,
    {
        Ok(
            FrameState {
                should_render: true,
                predicted_display_time: XrTime(0),
                predicted_display_period_micros: DISPLAY_PERIOD_MICROS,
            },
        )
    }
}

/// Submits frames of a session.
#[derive(Debug, Clone, Copy)]
pub struct FrameStream {
    pub session: crate::paths::RawSession,
}

impl FrameStream {
    pub fn new(session: crate::paths::RawSession) -> (s: FrameStream)
        ensures
            s.session == session,
    {
        FrameStream { session }
    }

    /// Beginning a frame always succeeds.
    pub fn begin(&mut self) -> (r: Result<(), SessionCreationError>)
        ensures
            r is Ok,
            final(self).session == old(self).session,
    {
        Ok(())
    }

    /// Ending a frame always succeeds: the layers are shown as submitted.
    pub fn end(
        &mut self,
        display_time: XrTime,
        blend_mode: EnvironmentBlendMode,
        layers: &[StructureType],
    ) -> (r: Result<(), SessionCreationError>)
        ensures
            r is Ok,
            final(self).session == old(self).session,
    {
        Ok(())
    }
}

/// Whether a submitted frame is shown side by side: it holds a projection layer.
pub open spec fn frame_is_sbs(layers: Seq<StructureType>) -> bool {
    exists|i: int| 0 <= i < layers.len() && layers[i] == StructureType::CompositionLayerProjection
}

/// Whether the layers of a submitted frame ask for side-by-side rendering.
pub fn layers_request_sbs(layers: &[StructureType]) -> (r: bool)
    ensures
        r == frame_is_sbs(layers@),
{
    let mut i: usize = 0;
    while i < layers.len()
        invariant
            i <= layers@.len(),
            forall|j: int| 0 <= j < i ==> layers@[j] != StructureType::CompositionLayerProjection,
        decreases layers@.len() - i,
    {
        if layers[i] == StructureType::CompositionLayerProjection {
            return true;
        }
        i += 1;
    }
    false
}

/// One step of waiting for a frame: the latest pose packet releases the frame
/// when it carries a frame id other than the last one that released a frame,
/// and that id becomes the last one. Without a packet, or with the same id, the
/// frame stays held and the last id stays.
pub fn frame_step(last_frame_id: u8, latest_frame_id: Option<u8>) -> (r: (bool, u8))
    ensures
        r == (match latest_frame_id {
            Some(id) => if id != last_frame_id {
                (true, id)
            } else {
                (false, last_frame_id)
            },
            None => (false, last_frame_id),
        }),
{
    match latest_frame_id {
        Some(id) => if id != last_frame_id {
            (true, id)
        } else {
            (false, last_frame_id)
        },
        None => (false, last_frame_id),
    }
}

/// A frame is shown side by side exactly when one of its layers, at any
/// position, is a projection layer: a frame of one layer is side by side
/// exactly when that layer is a projection, an empty frame is not, and joining
/// two frames' layers gives a side-by-side frame exactly when either is one.
pub proof fn lemma_sbs_when_any_layer_projects(a: Seq<StructureType>, b: Seq<StructureType>, t: StructureType)
    ensures
        !frame_is_sbs(Seq::<StructureType>::empty()),
        frame_is_sbs(seq![t]) == (t == StructureType::CompositionLayerProjection),
        frame_is_sbs(a + b) == (frame_is_sbs(a) || frame_is_sbs(b)),
        frame_is_sbs(a) ==> frame_is_sbs(a.push(t)) && frame_is_sbs(seq![t] + a),
{
    let ab = a + b;
    if frame_is_sbs(a) {
        let i = choose|i: int| 0 <= i < a.len() && a[i] == StructureType::CompositionLayerProjection;
        assert(ab[i] == a[i]);
        assert(a.push(t)[i] == a[i]);
        assert((seq![t] + a)[i + 1] == a[i]);
    }
    if frame_is_sbs(b) {
        let i = choose|i: int| 0 <= i < b.len() && b[i] == StructureType::CompositionLayerProjection;
        assert(ab[a.len() + i] == b[i]);
    }
    if frame_is_sbs(ab) {
        let i = choose|i: int| 0 <= i < ab.len() && ab[i] == StructureType::CompositionLayerProjection;
        if i < a.len() {
            assert(a[i] == ab[i]);
        } else {
            assert(b[i - a.len()] == ab[i]);
        }
    }
    if frame_is_sbs(seq![t]) {
        let i = choose|i: int| 0 <= i < 1 && seq![t][i] == StructureType::CompositionLayerProjection;
        assert(i == 0);
    }
    if t == StructureType::CompositionLayerProjection {
        assert(seq![t][0] == t);
    }
}

} // verus!
