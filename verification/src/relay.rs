//! The backend's decisions on what arrives over its two websocket links: the
//! one from the car and the ones from dashboards.
use vstd::prelude::*;

use crate::dashboard::{DashboardCommand, DashboardTelemetry};
use crate::drive::KeyState;
use crate::protocol::{i16_le_bytes, Command, TYPE_COMMAND, TYPE_TELEMETRY};
use crate::telemetry::{parse_telemetry, Telemetry, TelemetryError};

verus! {

/// What the car's link delivers next.
#[derive(Debug)]
pub enum EspEvent {
    /// A binary message.
    Binary(Vec<u8>),
    /// A text message.
    Text(String),
    /// The car closed the link.
    Close,
    /// Any other message (ping, pong).
    Other,
    /// The link ended without a close message, or failed.
    Ended,
}

/// What the backend does with what the car's link delivered.
#[derive(Debug, PartialEq, Eq)]
pub enum EspAction {
    /// Send this reading to every dashboard.
    Broadcast(DashboardTelemetry),
    /// The binary message was not a telemetry frame, for this reason.
    BadFrame(TelemetryError),
    /// Log the text that the car sent.
    ShowText(String),
    /// Stop reading the link. Where `release_link` holds, the backend also
    /// forgets its sender to the car; after a close message it does not.
    Stop { release_link: bool },
    /// Nothing to do.
    Ignore,
}

/// What arrives from a dashboard's link, its text already read as JSON.
#[derive(Debug)]
pub enum DashboardEvent {
    /// A text message that is a command.
    Command(DashboardCommand),
    /// A text message that is not a command.
    Malformed,
    /// The dashboard closed the link.
    Close,
    /// Any other message.
    Other,
    /// The link ended without a close message, or failed.
    Ended,
}

/// What the backend does with what a dashboard's link delivered.
#[derive(Debug, PartialEq, Eq)]
pub enum DashboardAction {
    /// Send this frame to the car, if it is connected.
    ToCar(Vec<u8>),
    /// Report a message that is not a command.
    ReportMalformed,
    /// Stop reading the link.
    Stop,
    /// Nothing to do.
    Ignore,
}

/// Decides what to do with a message from the car: telemetry frames go to the
/// dashboards, other binary messages are reported, text is logged.
pub fn on_esp_event(ev: EspEvent) -> (a: EspAction)
    ensures
        match ev {
            EspEvent::Binary(b) => match parse_telemetry(b@) {
                Ok(t) => a == EspAction::Broadcast(
                    DashboardTelemetry { kind: TYPE_TELEMETRY, distance_mm: t.distance_mm },
                ),
                Err(e) => a == EspAction::BadFrame(e),
            },
            EspEvent::Text(s) => a == EspAction::ShowText(s),
            EspEvent::Close => a == (EspAction::Stop { release_link: false }),
            EspEvent::Other => a == EspAction::Ignore,
            EspEvent::Ended => a == (EspAction::Stop { release_link: true }),
        },
{
    match ev {
        EspEvent::Binary(b) => match Telemetry::from_bytes(b.as_slice()) {
            Ok(t) => EspAction::Broadcast(DashboardTelemetry::from(&t)),
            Err(e) => EspAction::BadFrame(e),
        },
        EspEvent::Text(s) => EspAction::ShowText(s),
        EspEvent::Close => EspAction::Stop { release_link: false },
        EspEvent::Other => EspAction::Ignore,
        EspEvent::Ended => EspAction::Stop { release_link: true },
    }
}

/// Decides what to do with a message from a dashboard: a command becomes the
/// car's command frame with the same kind and motor values.
pub fn on_dashboard_event(ev: DashboardEvent) -> (a: DashboardAction)
    ensures
        match ev {
            DashboardEvent::Command(dc) => a matches DashboardAction::ToCar(frame) && frame@
                == (Command { kind: dc.kind, left_pwm: dc.left_pwm, right_pwm: dc.right_pwm }).frame(),
            DashboardEvent::Malformed => a == DashboardAction::ReportMalformed,
            DashboardEvent::Close => a == DashboardAction::Stop,
            DashboardEvent::Other => a == DashboardAction::Ignore,
            DashboardEvent::Ended => a == DashboardAction::Stop,
        },
{
    match ev {
        DashboardEvent::Command(dc) => {
            let cmd = Command::from(&dc);
            DashboardAction::ToCar(cmd.to_bytes())
        },
        DashboardEvent::Malformed => DashboardAction::ReportMalformed,
        DashboardEvent::Close => DashboardAction::Stop,
        DashboardEvent::Other => DashboardAction::Ignore,
        DashboardEvent::Ended => DashboardAction::Stop,
    }
}

/// The keys drive the car: the frame that the backend relays for the command
/// that a dashboard's held keys ask for is a command frame carrying exactly
/// the motor values of those keys.
pub proof fn lemma_keys_reach_car(k: KeyState)
    ensures
        ({
            let dc = k.command();
            (Command { kind: dc.kind, left_pwm: dc.left_pwm, right_pwm: dc.right_pwm }).frame()
                == seq![TYPE_COMMAND] + i16_le_bytes(k.pwm().0 as i16) + i16_le_bytes(
                k.pwm().1 as i16,
            )
        }),
{
}

} // verus!
