use xrizer_wxr::clock::AtomicXrTime;
use xrizer_wxr::paths::{RawAction, RawSession, SpaceHandle};
use xrizer_wxr::runtime::{
    checked_version, hmd_error_copy, hmd_error_string, make_version, HmdInitError, INIT_TOKEN,
    OPENVR_COMPAT_VERSION,
};
use xrizer_wxr::xr::{
    frame_step, layers_request_sbs, space_type_for_origin, system_properties,
    CompositionLayerFlags, EnvironmentBlendMode, ExtensionSet, SessionCreationError, FormFactor, FrameStream, FrameWaiter,
    ReferenceSpaceType, SessionLifecycle, SessionState, StructureType, SwapchainUsageFlags,
    SystemId, TrackingUniverseOrigin, ViewConfigurationType, ViewStateFlags, XrTime,
    DISPLAY_PERIOD_MICROS, LAYER_BLEND_TEXTURE_SOURCE_ALPHA, LAYER_CORRECT_ORIENTATION,
    SWAPCHAIN_USAGE_COLOR_ATTACHMENT, SWAPCHAIN_USAGE_TRANSFER_DST,
};

#[test]
fn hmd_errors_have_their_messages() {
    assert_eq!(hmd_error_string(HmdInitError::NoError), "No Error");
    assert_eq!(hmd_error_string(HmdInitError::InitNotInitialized), "Not Initialized");
    assert_eq!(hmd_error_string(HmdInitError::InitFactoryNotFound), "Factory Not Found");
    assert_eq!(hmd_error_string(HmdInitError::InitInterfaceNotFound), "Interface Not Found");
    assert_eq!(
        hmd_error_string(HmdInitError::InitInvalidApplicationType),
        "Invalid Application Type"
    );
    assert_eq!(
        hmd_error_string(HmdInitError::InitVRServiceStartupFailed),
        "VR Service Startup Failed"
    );
    assert_eq!(hmd_error_string(HmdInitError::Other), "Unknown Error");
}

#[test]
fn hmd_error_copy_truncates_to_the_buffer() {
    let (bytes, n) = hmd_error_copy(HmdInitError::InitNotInitialized, 64, true);
    assert_eq!(bytes, b"Not Initialized\0".to_vec());
    assert_eq!(n, 15);
    let (bytes, n) = hmd_error_copy(HmdInitError::InitNotInitialized, 16, true);
    assert_eq!(bytes, b"Not Initialized\0".to_vec());
    assert_eq!(n, 15);
    let (bytes, n) = hmd_error_copy(HmdInitError::InitNotInitialized, 15, true);
    assert_eq!(bytes, b"Not Initialize\0".to_vec());
    assert_eq!(n, 14);
    let (bytes, n) = hmd_error_copy(HmdInitError::InitNotInitialized, 3, true);
    assert_eq!(bytes, b"No\0".to_vec());
    assert_eq!(n, 2);
    let (bytes, n) = hmd_error_copy(HmdInitError::InitNotInitialized, 1, true);
    assert_eq!(bytes, b"\0".to_vec());
    assert_eq!(n, 0);
    let (bytes, n) = hmd_error_copy(HmdInitError::Other, 0, true);
    assert!(bytes.is_empty());
    assert_eq!(n, 13);
    let (bytes, n) = hmd_error_copy(HmdInitError::NoError, 100, false);
    assert!(bytes.is_empty());
    assert_eq!(n, 8);
}

#[test]
fn init_token_and_version() {
    assert_eq!(OPENVR_COMPAT_VERSION, 1_000_115);
    assert_eq!(INIT_TOKEN, 1);
}

#[test]
fn version_number_from_components() {
    assert_eq!(make_version("0", "4", "2"), 4_002);
    assert_eq!(make_version("1", "2", "3"), 1_002_003);
    assert_eq!(make_version("x", "", "y"), 1);
    assert_eq!(make_version("2", "0", "patch"), 2_000_001);
    assert_eq!(checked_version("1", "2", "3"), Some(1_002_003));
    assert_eq!(checked_version("4294", "967", "295"), Some(u32::MAX));
    assert_eq!(checked_version("4294", "967", "296"), None);
    assert_eq!(checked_version("5000", "0", "0"), None);
}

#[test]
fn session_life_cycle() {
    let mut s = SessionLifecycle::new(SystemId(7));
    assert_eq!(s.state, SessionState::Ready);
    assert!(s.begin(ViewConfigurationType::PrimaryStereo).is_ok());
    assert_eq!(s.state, SessionState::Synchronized);
    assert!(s.end().is_ok());
    assert_eq!(s.state, SessionState::Stopping);
    s.request_exit();
    assert_eq!(s.state, SessionState::Exiting);
    assert_eq!(s.as_raw(), RawSession(7));
    assert_eq!(s.as_raw().as_ffi(), 7);
}

#[test]
fn frames_wait_and_begin() {
    let mut w = FrameWaiter::new(RawSession(3));
    let f = w.wait().unwrap();
    assert!(f.should_render);
    assert_eq!(f.predicted_display_time, XrTime(0));
    assert_eq!(f.predicted_display_period_micros, DISPLAY_PERIOD_MICROS);
    let mut st = FrameStream::new(RawSession(3));
    assert!(st.begin().is_ok());
    assert!(st
        .end(XrTime(5), EnvironmentBlendMode::opaque(), &[StructureType::CompositionLayerQuad])
        .is_ok());
    assert_eq!(st.session, RawSession(3));
}

#[test]
fn a_new_frame_id_releases_the_frame() {
    assert_eq!(frame_step(4, Some(5)), (true, 5));
    assert_eq!(frame_step(4, Some(4)), (false, 4));
    assert_eq!(frame_step(4, None), (false, 4));
    assert_eq!(frame_step(255, Some(0)), (true, 0));
    // the id that released a frame holds the next one until it changes
    let (ready, last) = frame_step(0, Some(7));
    assert!(ready);
    assert_eq!(frame_step(last, Some(7)), (false, 7));
    assert_eq!(frame_step(last, Some(8)), (true, 8));
}

#[test]
fn projection_layers_request_side_by_side() {
    assert!(layers_request_sbs(&[StructureType::CompositionLayerProjection]));
    assert!(!layers_request_sbs(&[
        StructureType::CompositionLayerQuad,
        StructureType::CompositionLayerCylinderKHR
    ]));
    assert!(!layers_request_sbs(&[]));
    assert_eq!(StructureType::CompositionLayerProjection.code(), 1_000_012_000);
    assert_eq!(StructureType::CompositionLayerQuad.code(), 1_000_012_002);
}

#[test]
fn tracking_origins_map_to_reference_spaces() {
    assert_eq!(space_type_for_origin(TrackingUniverseOrigin::Seated), ReferenceSpaceType::Local);
    assert_eq!(space_type_for_origin(TrackingUniverseOrigin::Standing), ReferenceSpaceType::Stage);
}

#[test]
fn system_reports_winlator_properties() {
    let p = system_properties(SystemId(9));
    assert_eq!(p.system_id, SystemId(9));
    assert_eq!(p.vendor_id, 0);
    assert_eq!(p.tracking_system_name, "WinlatorXR");
    assert_eq!(p.form_factor, FormFactor::HeadMountedDisplay);
}

#[test]
fn default_extensions() {
    let e = ExtensionSet::winlator_defaults();
    assert!(e.display_refresh_rate);
    assert!(e.htc_vive_focus3_controller_interaction);
    assert!(!e.hand_tracking);
    assert_eq!(ExtensionSet::none(), ExtensionSet { display_refresh_rate: false, htc_vive_focus3_controller_interaction: false, ..e });
}

#[test]
fn flags_combine() {
    let mut f = CompositionLayerFlags::empty();
    let orient = CompositionLayerFlags { bits: LAYER_CORRECT_ORIENTATION };
    let blend = CompositionLayerFlags { bits: LAYER_BLEND_TEXTURE_SOURCE_ALPHA };
    assert!(!f.contains(orient));
    f.insert(orient);
    assert!(f.contains(orient));
    assert!(!f.contains(orient.union(blend)));
    f.insert(blend);
    assert!(f.contains(orient.union(blend)));
    let u = SwapchainUsageFlags { bits: SWAPCHAIN_USAGE_COLOR_ATTACHMENT }
        .union(SwapchainUsageFlags { bits: SWAPCHAIN_USAGE_TRANSFER_DST });
    assert_eq!(u.bits, 3);
    let position = ViewStateFlags { position_valid: true, orientation_valid: false };
    let orientation = ViewStateFlags { position_valid: false, orientation_valid: true };
    let both = ViewStateFlags { position_valid: true, orientation_valid: true };
    assert!(both.contains(position));
    assert!(position.contains(both));
    assert!(!position.contains(orientation));
}

#[test]
fn times_and_handles() {
    assert_eq!(XrTime::zero(), XrTime(0));
    assert_eq!(XrTime::from(7i64), XrTime(7));
    assert_eq!(XrTime::from_nanos(42).as_nanos(), 42);
    assert_eq!(XrTime(100).nanos_since(XrTime(40)), 60);
    assert_eq!(XrTime(40).nanos_since(XrTime(100)), 0);
    assert_eq!(RawAction(5).as_ffi(), 5);
    assert_eq!(SpaceHandle(6).into_raw(), 6);
    assert_eq!(ReferenceSpaceType::View.space_handle(), SpaceHandle(0));
    assert_eq!(ReferenceSpaceType::Local.space_handle(), SpaceHandle(1));
    assert_eq!(ReferenceSpaceType::Stage.space_handle().into_raw(), 2);
    let t = AtomicXrTime::new(XrTime(1));
    assert_eq!(t.get(), XrTime(1));
    t.set(XrTime(2));
    assert_eq!(t.get(), XrTime(2));
}

#[test]
fn session_errors_display_their_cause() {
    assert_eq!(
        SessionCreationError::GraphicsBindingRequired.to_string(),
        "graphics binding required"
    );
    assert_eq!(SessionCreationError::InvalidGraphicsBinding.to_string(), "invalid graphics binding");
    assert_eq!(
        SessionCreationError::InitializationFailed("no socket".to_string()).to_string(),
        "initialization failed: no socket"
    );
}
