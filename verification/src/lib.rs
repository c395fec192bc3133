//! Wire protocol and control logic of a remote-controlled rover.
//!
//! The car sends binary telemetry frames and receives binary command frames;
//! dashboards exchange JSON with the backend, which relays between the two
//! sides. Dashboards drive the car from the keyboard, and the backend also
//! takes motor values as HTTP query parameters.
pub mod dashboard;
pub mod drive;
pub mod protocol;
pub mod query;
pub mod relay;
pub mod telemetry;
pub mod text;

pub use dashboard::{DashboardCommand, DashboardTelemetry};
pub use drive::{control_button_class, direction_of, Direction, DriveKey, KeyState};
pub use protocol::{Command, COMMAND_FRAME_LEN, TYPE_COMMAND, TYPE_TELEMETRY};
pub use query::{command_reply, parse_i16, query_pwm};
pub use relay::{
    on_dashboard_event, on_esp_event, DashboardAction, DashboardEvent, EspAction, EspEvent,
};
pub use telemetry::{Telemetry, TelemetryError, TELEMETRY_FRAME_LEN};
