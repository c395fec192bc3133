use rc_rover::{
    on_dashboard_event, on_esp_event, parse_i16, query_pwm, DashboardAction, DashboardCommand,
    DashboardEvent, DashboardTelemetry, EspAction, EspEvent, TelemetryError, TYPE_TELEMETRY,
};

#[test]
fn esp_telemetry_is_broadcast() {
    let a = on_esp_event(EspEvent::Binary(vec![0x01, 0xe8, 0x03, 0, 0]));
    assert_eq!(
        a,
        EspAction::Broadcast(DashboardTelemetry { kind: TYPE_TELEMETRY, distance_mm: 1000 })
    );
}

#[test]
fn esp_bad_frames_are_reported() {
    assert_eq!(
        on_esp_event(EspEvent::Binary(vec![0x01, 0xe8])),
        EspAction::BadFrame(TelemetryError::WrongLength { expected_len: 5, got_len: 2 })
    );
    assert_eq!(
        on_esp_event(EspEvent::Binary(vec![0x03, 0, 0, 0, 0])),
        EspAction::BadFrame(TelemetryError::WrongKind { got_kind: 3, expected_kind: 1 })
    );
}

#[test]
fn esp_other_events() {
    assert_eq!(
        on_esp_event(EspEvent::Text("hello".to_string())),
        EspAction::ShowText("hello".to_string())
    );
    assert_eq!(on_esp_event(EspEvent::Close), EspAction::Stop { release_link: false });
    assert_eq!(on_esp_event(EspEvent::Ended), EspAction::Stop { release_link: true });
    assert_eq!(on_esp_event(EspEvent::Other), EspAction::Ignore);
}

#[test]
fn dashboard_command_goes_to_car() {
    let a = on_dashboard_event(DashboardEvent::Command(DashboardCommand::new(-255, -128)));
    assert_eq!(a, DashboardAction::ToCar(vec![0x02, 0x01, 0xff, 0x80, 0xff]));
}

#[test]
fn dashboard_other_events() {
    assert_eq!(on_dashboard_event(DashboardEvent::Malformed), DashboardAction::ReportMalformed);
    assert_eq!(on_dashboard_event(DashboardEvent::Close), DashboardAction::Stop);
    assert_eq!(on_dashboard_event(DashboardEvent::Ended), DashboardAction::Stop);
    assert_eq!(on_dashboard_event(DashboardEvent::Other), DashboardAction::Ignore);
}

#[test]
fn parse_i16_values() {
    assert_eq!(parse_i16("0"), Some(0));
    assert_eq!(parse_i16("-0"), Some(0));
    assert_eq!(parse_i16("+5"), Some(5));
    assert_eq!(parse_i16("00012"), Some(12));
    assert_eq!(parse_i16("-32768"), Some(i16::MIN));
    assert_eq!(parse_i16("32767"), Some(i16::MAX));
    assert_eq!(parse_i16("32768"), None);
    assert_eq!(parse_i16("-32769"), None);
    assert_eq!(parse_i16("99999999999999999999"), None);
    assert_eq!(parse_i16(""), None);
    assert_eq!(parse_i16("-"), None);
    assert_eq!(parse_i16("+"), None);
    assert_eq!(parse_i16(" 5"), None);
    assert_eq!(parse_i16("5 "), None);
    assert_eq!(parse_i16("1_0"), None);
    assert_eq!(parse_i16("12a"), None);
    assert_eq!(parse_i16("--1"), None);
    assert_eq!(parse_i16("+-1"), None);
}

#[test]
fn parse_i16_agrees_with_std() {
    let samples = [
        "0", "7", "-7", "+7", "255", "-255", "128", "32767", "32768", "-32768", "-32769", "",
        "-", "+", "abc", "1e3", " 1", "1 ", "0x10", "٣", "000000000000000000001", "-00", "12-3",
        "65536", "100000", "-100000",
    ];
    for s in samples {
        assert_eq!(parse_i16(s), s.parse::<i16>().ok(), "input {:?}", s);
    }
}

#[test]
fn query_values_default_to_zero() {
    assert_eq!(query_pwm(None), 0);
    assert_eq!(query_pwm(Some("abc")), 0);
    assert_eq!(query_pwm(Some("40000")), 0);
    assert_eq!(query_pwm(Some("-200")), -200);
    assert_eq!(query_pwm(Some("150")), 150);
}

#[test]
fn command_replies() {
    assert_eq!(rc_rover::command_reply(100, -50, true), "Sent command: L=100 R=-50");
    assert_eq!(rc_rover::command_reply(0, 0, true), "Sent command: L=0 R=0");
    assert_eq!(rc_rover::command_reply(i16::MIN, i16::MAX, true), "Sent command: L=-32768 R=32767");
    assert_eq!(rc_rover::command_reply(100, -50, false), "No ESP32 connected");
    for (l, r) in [(7i16, -7i16), (-255, 255), (10, 100)] {
        assert_eq!(rc_rover::command_reply(l, r, true), format!("Sent command: L={} R={}", l, r));
    }
}
