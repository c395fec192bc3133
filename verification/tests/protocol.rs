use rc_rover::{
    Command, DashboardCommand, DashboardTelemetry, Telemetry, TelemetryError, COMMAND_FRAME_LEN,
    TELEMETRY_FRAME_LEN, TYPE_COMMAND, TYPE_TELEMETRY,
};

#[test]
fn frame_kinds() {
    assert_eq!(TYPE_TELEMETRY, 0x01);
    assert_eq!(TYPE_COMMAND, 0x02);
    assert_eq!(COMMAND_FRAME_LEN, 5);
    assert_eq!(TELEMETRY_FRAME_LEN, 5);
}

#[test]
fn command_new_has_command_kind() {
    let c = Command::new(-255, 128);
    assert_eq!(c, Command { kind: TYPE_COMMAND, left_pwm: -255, right_pwm: 128 });
}

#[test]
fn command_frame_layout() {
    assert_eq!(Command::new(-255, 128).to_bytes(), vec![0x02, 0x01, 0xff, 0x80, 0x00]);
    assert_eq!(Command::new(0, 0).to_bytes(), vec![0x02, 0, 0, 0, 0]);
    assert_eq!(Command::new(255, 255).to_bytes(), vec![0x02, 0xff, 0x00, 0xff, 0x00]);
    assert_eq!(Command::new(-1, i16::MIN).to_bytes(), vec![0x02, 0xff, 0xff, 0x00, 0x80]);
    assert_eq!(Command::new(i16::MAX, 258).to_bytes(), vec![0x02, 0xff, 0x7f, 0x02, 0x01]);
    let other = Command { kind: 7, left_pwm: 1, right_pwm: -2 };
    assert_eq!(other.to_bytes(), vec![7, 1, 0, 0xfe, 0xff]);
}

#[test]
fn command_frame_matches_native_layout() {
    for &(l, r) in &[(0i16, 0i16), (-255, -128), (128, 255), (i16::MIN, i16::MAX), (-1, 1)] {
        let mut expected = vec![TYPE_COMMAND];
        expected.extend_from_slice(&l.to_le_bytes());
        expected.extend_from_slice(&r.to_le_bytes());
        assert_eq!(Command::new(l, r).to_bytes(), expected);
    }
}

#[test]
fn distinct_commands_have_distinct_frames() {
    let cmds = [
        Command::new(0, 0),
        Command::new(0, 1),
        Command::new(1, 0),
        Command::new(-1, 0),
        Command::new(256, 0),
        Command::new(0, -256),
        Command { kind: 1, left_pwm: 0, right_pwm: 0 },
    ];
    for (i, a) in cmds.iter().enumerate() {
        for (j, b) in cmds.iter().enumerate() {
            assert_eq!(i == j, a.to_bytes() == b.to_bytes());
        }
    }
}

#[test]
fn telemetry_reads_little_endian_distance() {
    let t = Telemetry::from_bytes(&[0x01, 0x10, 0x27, 0x00, 0x00]);
    assert_eq!(t, Ok(Telemetry { distance_mm: 10000 }));
    let t = Telemetry::from_bytes(&[0x01, 0x78, 0x56, 0x34, 0x12]);
    assert_eq!(t, Ok(Telemetry { distance_mm: 0x1234_5678 }));
    let t = Telemetry::from_bytes(&[0x01, 0xff, 0xff, 0xff, 0xff]);
    assert_eq!(t, Ok(Telemetry { distance_mm: u32::MAX }));
}

#[test]
fn telemetry_frame_roundtrip() {
    for d in [0u32, 1, 255, 256, 65535, 65536, 123_456_789, u32::MAX] {
        let mut frame = vec![TYPE_TELEMETRY];
        frame.extend_from_slice(&d.to_le_bytes());
        assert_eq!(Telemetry::from_bytes(&frame), Ok(Telemetry { distance_mm: d }));
    }
}

#[test]
fn telemetry_wrong_length() {
    assert_eq!(
        Telemetry::from_bytes(&[0x01, 0, 0, 0]),
        Err(TelemetryError::WrongLength { expected_len: 5, got_len: 4 })
    );
    assert_eq!(
        Telemetry::from_bytes(&[]),
        Err(TelemetryError::WrongLength { expected_len: 5, got_len: 0 })
    );
    assert_eq!(
        Telemetry::from_bytes(&[0x01, 0, 0, 0, 0, 0]),
        Err(TelemetryError::WrongLength { expected_len: 5, got_len: 6 })
    );
}

#[test]
fn telemetry_wrong_kind() {
    assert_eq!(
        Telemetry::from_bytes(&[0x02, 0x10, 0x27, 0, 0]),
        Err(TelemetryError::WrongKind { got_kind: 2, expected_kind: 1 })
    );
}

#[test]
fn telemetry_length_checked_before_kind() {
    assert_eq!(
        Telemetry::from_bytes(&[0x07, 0x10]),
        Err(TelemetryError::WrongLength { expected_len: 5, got_len: 2 })
    );
}

#[test]
fn dashboard_command_new() {
    assert_eq!(
        DashboardCommand::new(-128, 255),
        DashboardCommand { kind: 0x02, left_pwm: -128, right_pwm: 255 }
    );
}

#[test]
fn command_from_dashboard_command() {
    let dc = DashboardCommand::new(-128, 255);
    assert_eq!(Command::from(&dc), Command::new(-128, 255));
    let odd = DashboardCommand { kind: 9, left_pwm: 3, right_pwm: -4 };
    assert_eq!(Command::from(&odd), Command { kind: 9, left_pwm: 3, right_pwm: -4 });
}

#[test]
fn dashboard_telemetry_from_telemetry() {
    let t = Telemetry { distance_mm: 4321 };
    assert_eq!(
        DashboardTelemetry::from(&t),
        DashboardTelemetry { kind: TYPE_TELEMETRY, distance_mm: 4321 }
    );
    assert_eq!(
        DashboardTelemetry::from(t),
        DashboardTelemetry { kind: TYPE_TELEMETRY, distance_mm: 4321 }
    );
}

#[test]
fn telemetry_error_messages() {
    let e = Telemetry::from_bytes(&[]).unwrap_err();
    assert_eq!(e.message(), "expected 5 bytes, got 0");
    let e = Telemetry::from_bytes(&[0x01, 0x2A, 0, 0, 0, 0]).unwrap_err();
    assert_eq!(e.message(), "expected 5 bytes, got 6");
    let e = Telemetry::from_bytes(&[0x02, 0x2A, 0, 0, 0]).unwrap_err();
    assert_eq!(e.message(), "unexpected kind: got 2, expected 1");
    let big = TelemetryError::WrongLength { expected_len: 5, got_len: 1234567 };
    assert_eq!(big.message(), "expected 5 bytes, got 1234567");
    let k = TelemetryError::WrongKind { got_kind: 255, expected_kind: 1 };
    assert_eq!(k.message(), format!("unexpected kind: got {}, expected {}", 255, 1));
}
