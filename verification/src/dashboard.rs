//! The messages that the dashboard and the backend exchange as JSON.
use vstd::prelude::*;

use crate::protocol::{Command, TYPE_COMMAND, TYPE_TELEMETRY};
use crate::telemetry::Telemetry;

verus! {

/// A motor command as the dashboard sends it.
#[derive(Clone, Copy, Debug, PartialEq, Eq, Structural)]
pub struct DashboardCommand {
    pub kind: u8,
    pub left_pwm: i16,
    pub right_pwm: i16,
}

/// A sensor reading as the backend forwards it to the dashboards.
#[derive(Clone, Copy, Debug, PartialEq, Eq, Structural)]
pub struct DashboardTelemetry {
    pub kind: u8,
    pub distance_mm: u32,
}

impl DashboardCommand {
    /// A command of kind `TYPE_COMMAND` with the given motor values.
    pub fn new(left_pwm: i16, right_pwm: i16) -> (c: Self)
        ensures
            c == (DashboardCommand { kind: TYPE_COMMAND, left_pwm, right_pwm }),
    {
        DashboardCommand { kind: TYPE_COMMAND, left_pwm, right_pwm }
    }
}

impl vstd::std_specs::convert::FromSpecImpl<&DashboardCommand> for Command {
    open spec fn obeys_from_spec() -> bool {
        true
    }

    open spec fn from_spec(v: &DashboardCommand) -> Command {
        Command { kind: v.kind, left_pwm: v.left_pwm, right_pwm: v.right_pwm }
    }
}

impl From<&DashboardCommand> for Command {
    /// The car command with the same kind and motor values.
    fn from(v: &DashboardCommand) -> (c: Command) {
        Command { kind: v.kind, left_pwm: v.left_pwm, right_pwm: v.right_pwm }
    }
}

impl vstd::std_specs::convert::FromSpecImpl<&Telemetry> for DashboardTelemetry {
    open spec fn obeys_from_spec() -> bool {
        true
    }

    open spec fn from_spec(t: &Telemetry) -> DashboardTelemetry {
        DashboardTelemetry { kind: TYPE_TELEMETRY, distance_mm: t.distance_mm }
    }
}

impl From<&Telemetry> for DashboardTelemetry {
    /// The dashboard message of kind `TYPE_TELEMETRY` for the same distance.
    fn from(t: &Telemetry) -> (d: DashboardTelemetry) {
        DashboardTelemetry { kind: TYPE_TELEMETRY, distance_mm: t.distance_mm }
    }
}

impl vstd::std_specs::convert::FromSpecImpl<Telemetry> for DashboardTelemetry {
    open spec fn obeys_from_spec() -> bool {
        true
    }

    open spec fn from_spec(t: Telemetry) -> DashboardTelemetry {
        DashboardTelemetry { kind: TYPE_TELEMETRY, distance_mm: t.distance_mm }
    }
}

impl From<Telemetry> for DashboardTelemetry {
    /// The dashboard message of kind `TYPE_TELEMETRY` for the same distance.
    fn from(t: Telemetry) -> (d: DashboardTelemetry) {
        DashboardTelemetry::from(&t)
    }
}

/// The dashboard and the backend agree: the command that the dashboard builds
/// for a pair of motor values becomes, at the backend, the car command that
/// `Command::new` builds for the same values.
pub proof fn lemma_dashboard_command_reaches_car(left_pwm: i16, right_pwm: i16)
    ensures
        ({
            let dc = DashboardCommand { kind: TYPE_COMMAND, left_pwm, right_pwm };
            <Command as vstd::std_specs::convert::FromSpec<&DashboardCommand>>::from_spec(&dc)
                == (Command { kind: TYPE_COMMAND, left_pwm, right_pwm })
        }),
{
}

/// A reading keeps its distance on its way to the dashboards: converting a
/// reading, by reference or by value, gives a `TYPE_TELEMETRY` message with
/// the same distance.
pub proof fn lemma_dashboard_telemetry_keeps_distance(t: Telemetry)
    ensures
        <DashboardTelemetry as vstd::std_specs::convert::FromSpec<&Telemetry>>::from_spec(&t)
            == (DashboardTelemetry { kind: 1, distance_mm: t.distance_mm }),
        <DashboardTelemetry as vstd::std_specs::convert::FromSpec<Telemetry>>::from_spec(t)
            == (DashboardTelemetry { kind: 1, distance_mm: t.distance_mm }),
{
}

} // verus!
