use xrizer_wxr::wire::{
    end_frame_packet, feedback_packet, format_haptic_message, parse_frame_id,
    parse_winlator_buttons, parse_winlator_pose, pose_receiver_step, startup_packet,
    ReceiverStep, UdpError, BUTTON_COUNT, FALLBACK_RX_PORT, RX_PORT, TRACKING_FIELDS, TX_PORT,
};
use xrizer_wxr::controls::Hand;
use xrizer_wxr::xr::StructureType;

const SAMPLE: &str = "client0 0.213 0.287 -0.933 0.035 0.0 0.0 -0.008 -0.229 -0.173 0.095 -0.296 0.947 -0.077 0.0 0.0 0.154 -0.240 -0.140 0.146 -0.072 0.048 0.985 0.037 0.006 -0.017 0.0678 99.00 103.40 224 TFFFFFFFFFTTTFFFFFT TT";

fn parse_error_text(e: UdpError) -> String {
    match e {
        UdpError::ParseError(m) => m,
        other => panic!("expected a parse error, got {other:?}"),
    }
}

#[test]
fn test_parse_winlator_pose() {
    let pose = parse_winlator_pose(SAMPLE);
    assert!(pose.is_ok(), "Should parse valid pose data");

    let pose = pose.unwrap();
    assert_eq!(parse_frame_id(&pose.frame_id_field).unwrap(), 224);
    assert_eq!(pose.tracking_fields[26].parse::<f32>().unwrap(), 99.00);
    assert_eq!(pose.tracking_fields[27].parse::<f32>().unwrap(), 103.40);
}

#[test]
fn test_parse_winlator_buttons() {
    let buttons_str = "TFFFFFFFFFTTTFFFFFT";
    let buttons = parse_winlator_buttons(buttons_str).unwrap();

    assert!(buttons[0]); // Left Grip
    assert!(!buttons[1]); // Left Menu
    assert!(buttons[10]); // Right Button A
    assert!(buttons[18]); // Right Trigger
}

#[test]
fn startup_packet_matches_protocol_example() {
    let packet = format_haptic_message(
        &format!("{}", 0.0f32),
        &format!("{}", 0.0f32),
        1,
        false,
        &format!("{}", 104.5f32),
        &format!("{}", 104.5f32),
    );
    assert_eq!(packet, "0 0 1 0 104.5 104.5");
}

#[test]
fn haptic_message_formats_sbs_and_vibration() {
    let packet = format_haptic_message(
        &format!("{}", 0.5f32),
        &format!("{}", 0.25f32),
        2,
        true,
        &format!("{}", 90.0f32),
        &format!("{}", 95.5f32),
    );
    assert_eq!(packet, "0.5 0.25 2 1 90 95.5");
}

#[test]
fn startup_packet_is_the_handshake() {
    assert_eq!(startup_packet(), "0 0 1 0 104.5 104.5");
}

#[test]
fn pose_keeps_tracking_fields_in_wire_order() {
    let pose = parse_winlator_pose(SAMPLE).unwrap();
    assert_eq!(pose.tracking_fields.len(), TRACKING_FIELDS);
    assert_eq!(pose.tracking_fields[0], "0.213");
    assert_eq!(pose.tracking_fields[4], "0.0");
    assert_eq!(pose.tracking_fields[25], "0.0678");
    assert_eq!(pose.frame_id_field, "224");
    assert!(pose.immersive_mode);
    assert!(pose.sbs_mode);
    let expected = parse_winlator_buttons("TFFFFFFFFFTTTFFFFFT").unwrap();
    assert_eq!(pose.buttons, expected);
}

#[test]
fn pose_reads_the_mode_flags() {
    let packet = SAMPLE.replace(" TT", " TF");
    let pose = parse_winlator_pose(&packet).unwrap();
    assert!(pose.immersive_mode);
    assert!(!pose.sbs_mode);

    let packet = SAMPLE.replace(" TT", " F");
    let pose = parse_winlator_pose(&packet).unwrap();
    assert!(!pose.immersive_mode);
    assert!(!pose.sbs_mode);
}

#[test]
fn pose_without_buttons_or_flags_reads_all_released() {
    let fields: Vec<&str> = SAMPLE.split_whitespace().take(30).collect();
    let packet = fields.join(" ");
    let pose = parse_winlator_pose(&packet).unwrap();
    assert_eq!(pose.buttons, [false; BUTTON_COUNT]);
    assert!(!pose.immersive_mode);
    assert!(!pose.sbs_mode);
}

#[test]
fn pose_fields_may_be_separated_by_any_whitespace() {
    let packet = format!("  {}\n", SAMPLE.replace(' ', " \t "));
    let pose = parse_winlator_pose(&packet).unwrap();
    assert_eq!(pose.frame_id_field, "224");
    assert_eq!(pose.tracking_fields[27], "103.40");
}

#[test]
fn short_pose_packet_is_refused() {
    let fields: Vec<&str> = SAMPLE.split_whitespace().take(29).collect();
    let packet = fields.join(" ");
    let err = parse_winlator_pose(&packet).err().unwrap();
    assert_eq!(
        parse_error_text(err),
        "Invalid pose data: expected at least 30 fields, got 29"
    );

    let err = parse_winlator_pose("").err().unwrap();
    assert_eq!(
        parse_error_text(err),
        "Invalid pose data: expected at least 30 fields, got 0"
    );
}

#[test]
fn frame_id_errors_match_integer_parsing() {
    let empty = "".parse::<u8>().unwrap_err();
    let invalid = "2a".parse::<u8>().unwrap_err();
    let large = "256".parse::<u8>().unwrap_err();
    assert_eq!(
        parse_error_text(parse_frame_id("").err().unwrap()),
        format!("Frame ID: {empty}")
    );
    assert_eq!(
        parse_error_text(parse_frame_id("2a").err().unwrap()),
        format!("Frame ID: {invalid}")
    );
    assert_eq!(
        parse_error_text(parse_frame_id("256").err().unwrap()),
        format!("Frame ID: {large}")
    );
    assert_eq!(
        parse_error_text(parse_frame_id("-1").err().unwrap()),
        format!("Frame ID: {}", "-1".parse::<u8>().unwrap_err())
    );
}

#[test]
fn frame_id_accepts_what_integer_parsing_accepts() {
    assert_eq!(parse_frame_id("0").unwrap(), 0);
    assert_eq!(parse_frame_id("255").unwrap(), 255);
    assert_eq!(parse_frame_id("+7").unwrap(), "+7".parse::<u8>().unwrap());
    assert_eq!(parse_frame_id("007").unwrap(), 7);
    assert!(parse_frame_id("+").is_err());
}

#[test]
fn every_frame_id_reads_back() {
    for id in 0..=255u8 {
        assert_eq!(parse_frame_id(&id.to_string()).unwrap(), id);
    }
}

#[test]
fn buttons_beyond_nineteen_are_ignored_and_missing_ones_released() {
    let b = parse_winlator_buttons("TTTTTTTTTTTTTTTTTTTTTTTT").unwrap();
    assert_eq!(b, [true; BUTTON_COUNT]);
    let b = parse_winlator_buttons("FT").unwrap();
    assert!(!b[0]);
    assert!(b[1]);
    assert!(b[2..].iter().all(|x| !x));
    let b = parse_winlator_buttons("tTx").unwrap();
    assert!(!b[0]);
    assert!(b[1]);
    assert!(!b[2]);
}

#[test]
fn end_frame_packet_reports_side_by_side_for_projection_layers() {
    assert_eq!(
        end_frame_packet(&[StructureType::CompositionLayerQuad, StructureType::CompositionLayerProjection]),
        "0 0 1 1 104.5 104.5"
    );
    assert_eq!(
        end_frame_packet(&[StructureType::CompositionLayerQuad]),
        "0 0 1 0 104.5 104.5"
    );
    assert_eq!(end_frame_packet(&[]), "0 0 1 0 104.5 104.5");
}

#[test]
fn feedback_packet_vibrates_the_named_controller() {
    let a = format!("{}", 0.75f32);
    assert_eq!(feedback_packet(Some(Hand::Left), &a), "0.75 0 1 0 104.5 104.5");
    assert_eq!(feedback_packet(Some(Hand::Right), &a), "0 0.75 1 0 104.5 104.5");
    assert_eq!(feedback_packet(None, &a), "0.75 0.75 1 0 104.5 104.5");
}

#[test]
fn errors_display_their_kind() {
    assert_eq!(UdpError::BindFailed("in use".to_string()).to_string(), "Failed to bind socket: in use");
    assert_eq!(UdpError::SendFailed("x".to_string()).to_string(), "Failed to send: x");
    assert_eq!(UdpError::ReceiveFailed("y".to_string()).to_string(), "Failed to receive: y");
    assert_eq!(UdpError::ParseError("z".to_string()).to_string(), "Failed to parse: z");
}

#[test]
fn receiver_decodes_packets_and_backs_off_on_failures() {
    assert_eq!(pose_receiver_step(&Ok(Some(SAMPLE.to_string()))), ReceiverStep::Decode);
    assert_eq!(pose_receiver_step(&Ok(None)), ReceiverStep::Sleep(1));
    assert_eq!(
        pose_receiver_step(&Err(UdpError::ReceiveFailed("reset".to_string()))),
        ReceiverStep::Sleep(100)
    );
    assert_eq!(
        pose_receiver_step(&Err(UdpError::ParseError("bad".to_string()))),
        ReceiverStep::Sleep(1)
    );
}

#[test]
fn protocol_ports() {
    assert_eq!(RX_PORT, 7872);
    assert_eq!(FALLBACK_RX_PORT, 7873);
    assert_eq!(TX_PORT, 7278);
}
