//! Keyboard driving: which keys are held, and the motor command they ask for.
use vstd::prelude::*;

use crate::dashboard::DashboardCommand;
use crate::protocol::TYPE_COMMAND;

verus! {

broadcast use {vstd::string::axiom_spec_iter, vstd::string::next_postcondition};

/// The four driving directions, each bound to an arrow key and a letter.
#[derive(Clone, Copy, Debug, PartialEq, Eq, Structural)]
pub enum Direction {
    Up,
    Down,
    Left,
    Right,
}

/// A key as the keyboard reports it.
#[derive(Debug, PartialEq, Eq)]
pub enum DriveKey {
    ArrowUp,
    ArrowDown,
    ArrowLeft,
    ArrowRight,
    /// A key that produces text; the string is what it produces.
    Character(String),
    /// Any other key.
    Other,
}

/// Whether `s` is exactly the one character `lower` or the one character `upper`.
pub open spec fn is_letter(s: Seq<char>, lower: char, upper: char) -> bool {
    s == seq![lower] || s == seq![upper]
}

/// The direction a key drives: the arrows, and W, S, A, D in either case.
pub open spec fn key_direction(k: DriveKey) -> Option<Direction> {
    match k {
        DriveKey::ArrowUp => Some(Direction::Up),
        DriveKey::ArrowDown => Some(Direction::Down),
        DriveKey::ArrowLeft => Some(Direction::Left),
        DriveKey::ArrowRight => Some(Direction::Right),
        DriveKey::Character(s) => if is_letter(s@, 'w', 'W') {
            Some(Direction::Up)
        } else if is_letter(s@, 's', 'S') {
            Some(Direction::Down)
        } else if is_letter(s@, 'a', 'A') {
            Some(Direction::Left)
        } else if is_letter(s@, 'd', 'D') {
            Some(Direction::Right)
        } else {
            None
        },
        DriveKey::Other => None,
    }
}

proof fn lemma_single_letter(s: Seq<char>, c: char)
    requires
        s == seq![c],
    ensures
        forall|lower: char, upper: char| #[trigger]
            is_letter(s, lower, upper) <==> (c == lower || c == upper),
{
    assert forall|lower: char, upper: char| #[trigger]
        is_letter(s, lower, upper) <==> (c == lower || c == upper) by {
        if s == seq![lower] {
            assert(s[0] == lower);
        }
        if s == seq![upper] {
            assert(s[0] == upper);
        }
        if c == lower {
            assert(s =~= seq![lower]);
        }
        if c == upper {
            assert(s =~= seq![upper]);
        }
    }
}

/// The only character of `s`, when `s` has exactly one.
fn single_char(s: &str) -> (r: Option<char>)
    ensures
        r matches Some(c) ==> s@ == seq![c],
        r is None ==> s@.len() != 1,
{
    let mut it = s.chars();
    let first = it.next();
    match first {
        None => None,
        Some(c) => {
            let second = it.next();
            match second {
                None => {
                    assert(s@ =~= seq![c]);
                    Some(c)
                },
                Some(_) => None,
            }
        },
    }
}

/// The direction that `key` drives, if any.
pub fn direction_of(key: &DriveKey) -> (r: Option<Direction>)
    ensures
        r == key_direction(*key),
{
    match key {
        DriveKey::ArrowUp => Some(Direction::Up),
        DriveKey::ArrowDown => Some(Direction::Down),
        DriveKey::ArrowLeft => Some(Direction::Left),
        DriveKey::ArrowRight => Some(Direction::Right),
        DriveKey::Character(s) => {
            match single_char(s.as_str()) {
                None => None,
                Some(c) => {
                    proof {
                        lemma_single_letter(s@, c);
                    }
                    if c == 'w' || c == 'W' {
                        Some(Direction::Up)
                    } else if c == 's' || c == 'S' {
                        Some(Direction::Down)
                    } else if c == 'a' || c == 'A' {
                        Some(Direction::Left)
                    } else if c == 'd' || c == 'D' {
                        Some(Direction::Right)
                    } else {
                        None
                    }
                },
            }
        },
        DriveKey::Other => None,
    }
}

/// Which of the four driving keys are held down.
#[derive(Clone, Copy, Debug, PartialEq, Eq, Structural)]
pub struct KeyState {
    pub up: bool,
    pub down: bool,
    pub left: bool,
    pub right: bool,
}

/// The left and right motor values for a set of held keys. Negative values
/// drive forward. Forward and backward turn by slowing one side; a turn key
/// alone pivots; any other combination, conflicting keys included, stops.
pub open spec fn drive_pwm(up: bool, down: bool, left: bool, right: bool) -> (int, int) {
    match (up, down, left, right) {
        (true, false, false, false) => (-255, -255),
        (true, false, true, false) => (-255, -128),
        (true, false, false, true) => (-128, -255),
        (false, true, false, false) => (255, 255),
        (false, true, true, false) => (255, 128),
        (false, true, false, true) => (128, 255),
        (false, false, true, false) => (255, 0),
        (false, false, false, true) => (0, 255),
        _ => (0, 0),
    }
}

impl KeyState {
    /// The motor values that the held keys ask for.
    pub open spec fn pwm(self) -> (int, int) {
        drive_pwm(self.up, self.down, self.left, self.right)
    }

    /// The command that the held keys ask for.
    pub open spec fn command(self) -> DashboardCommand {
        DashboardCommand {
            kind: TYPE_COMMAND,
            left_pwm: self.pwm().0 as i16,
            right_pwm: self.pwm().1 as i16,
        }
    }

    /// Whether the key of `d` is held.
    pub open spec fn held(self, d: Direction) -> bool {
        match d {
            Direction::Up => self.up,
            Direction::Down => self.down,
            Direction::Left => self.left,
            Direction::Right => self.right,
        }
    }

    /// This state with the key of `d` held (`pressed`) or released.
    pub open spec fn with(self, d: Direction, pressed: bool) -> KeyState {
        match d {
            Direction::Up => KeyState { up: pressed, ..self },
            Direction::Down => KeyState { down: pressed, ..self },
            Direction::Left => KeyState { left: pressed, ..self },
            Direction::Right => KeyState { right: pressed, ..self },
        }
    }

    /// No key held.
    pub fn released() -> (k: KeyState)
        ensures
            k == (KeyState { up: false, down: false, left: false, right: false }),
    {
        KeyState { up: false, down: false, left: false, right: false }
    }

    /// Whether no driving key is held.
    pub fn is_idle(&self) -> (b: bool)
        ensures
            b == (!self.up && !self.down && !self.left && !self.right),
    {
        !self.up && !self.down && !self.left && !self.right
    }

    /// The command that the held keys ask for.
    pub fn to_command(self) -> (c: DashboardCommand)
        ensures
            c == self.command(),
    {
        let (left_pwm, right_pwm): (i16, i16) = match (self.up, self.down, self.left, self.right) {
            (true, false, false, false) => (-255, -255),
            (true, false, true, false) => (-255, -128),
            (true, false, false, true) => (-128, -255),
            (false, true, false, false) => (255, 255),
            (false, true, true, false) => (255, 128),
            (false, true, false, true) => (128, 255),
            (false, false, true, false) => (255, 0),
            (false, false, false, true) => (0, 255),
            _ => (0, 0),
        };
        DashboardCommand::new(left_pwm, right_pwm)
    }

    /// This state with the key of `d` held (`pressed`) or released.
    pub fn set(self, d: Direction, pressed: bool) -> (k: KeyState)
        ensures
            k == self.with(d, pressed),
    {
        let mut k = self;
        match d {
            Direction::Up => k.up = pressed,
            Direction::Down => k.down = pressed,
            Direction::Left => k.left = pressed,
            Direction::Right => k.right = pressed,
        }
        k
    }

    /// Handles a key going down (`pressed`) or up. A driving key gives the new
    /// state and the command to send for it; any other key changes nothing and
    /// sends nothing.
    pub fn on_key(self, key: &DriveKey, pressed: bool) -> (r: Option<(KeyState, DashboardCommand)>)
        ensures
            r == (match key_direction(*key) {
                Some(d) => Some((self.with(d, pressed), self.with(d, pressed).command())),
                None => None,
            }),
    {
        match direction_of(key) {
            Some(d) => {
                let k = self.set(d, pressed);
                Some((k, k.to_command()))
            },
            None => None,
        }
    }
}

impl Default for KeyState {
    /// No key held.
    fn default() -> (k: KeyState)
        ensures
            k == (KeyState { up: false, down: false, left: false, right: false }),
    {
        KeyState::released()
    }
}

/// The style classes of a control button, by whether its key is held.
pub fn control_button_class(is_active: bool) -> (class: &'static str)
    ensures
        is_active ==> class@ == "bg-blue-700 text-white rounded shadow px-4 py-3 text-xl text-center"@,
        !is_active ==> class@
            == "bg-blue-600 text-white rounded shadow px-4 py-3 text-xl text-center active:bg-blue-700"@,
{
    if is_active {
        "bg-blue-700 text-white rounded shadow px-4 py-3 text-xl text-center"
    } else {
        "bg-blue-600 text-white rounded shadow px-4 py-3 text-xl text-center active:bg-blue-700"
    }
}

/// Conflicting keys stop the car: holding both forward and backward, or both
/// left and right, asks for zero on both motors, and so does holding nothing.
pub proof fn lemma_conflicting_keys_stop(k: KeyState)
    ensures
        (k.up && k.down) || (k.left && k.right) || (!k.up && !k.down && !k.left && !k.right)
            ==> k.pwm() == (0int, 0int),
{
}

/// Steering is mirror-symmetric: swapping the left and right keys swaps the
/// left and right motor values.
pub proof fn lemma_steering_mirrors(k: KeyState)
    ensures
        (KeyState { left: k.right, right: k.left, ..k }).pwm() == (k.pwm().1, k.pwm().0),
{
}

/// Reversing drive negates it: when exactly one of forward and backward is
/// held, swapping them negates both motor values.
pub proof fn lemma_reverse_negates(k: KeyState)
    requires
        k.up != k.down,
    ensures
        ({
            let r = KeyState { up: k.down, down: k.up, ..k };
            r.pwm().0 == -k.pwm().0 && r.pwm().1 == -k.pwm().1
        }),
{
}

/// Every command that the keys ask for is of kind `TYPE_COMMAND`, with both
/// motor values within the PWM range -255..=255.
pub proof fn lemma_command_in_range(k: KeyState)
    ensures
        k.command().kind == TYPE_COMMAND,
        -255 <= k.command().left_pwm <= 255,
        -255 <= k.command().right_pwm <= 255,
{
}

/// Releasing a key undoes pressing it: pressing and then releasing the key of
/// `d` gives back a state in which that key was not held.
pub proof fn lemma_release_undoes_press(k: KeyState, d: Direction)
    ensures
        k.with(d, true).with(d, false) == k.with(d, false),
        !k.held(d) ==> k.with(d, true).with(d, false) == k,
{
}

/// A key event changes exactly its own key: pressing the key of `d` leaves it
/// held and releasing leaves it not held, whatever it was before (so a
/// repeated key-down while held keeps it held), and every other key stays as
/// it was.
pub proof fn lemma_key_change_is_local(k: KeyState, d: Direction, pressed: bool)
    ensures
        k.with(d, pressed).held(d) == pressed,
        forall|e: Direction| e != d ==> #[trigger] k.with(d, pressed).held(e) == k.held(e),
        k.with(d, pressed) == (KeyState {
            up: if d == Direction::Up { pressed } else { k.up },
            down: if d == Direction::Down { pressed } else { k.down },
            left: if d == Direction::Left { pressed } else { k.left },
            right: if d == Direction::Right { pressed } else { k.right },
        }),
        k.held(d) ==> k.with(d, true) == k,
        !k.held(d) ==> k.with(d, false) == k,
{
}

/// Which key drives which way: the arrows their own direction, and W, S, A, D
/// (in either case) up, down, left and right; no other text key drives at all.
pub proof fn lemma_driving_keys(s: String)
    ensures
        key_direction(DriveKey::ArrowUp) == Some(Direction::Up),
        key_direction(DriveKey::ArrowDown) == Some(Direction::Down),
        key_direction(DriveKey::ArrowLeft) == Some(Direction::Left),
        key_direction(DriveKey::ArrowRight) == Some(Direction::Right),
        key_direction(DriveKey::Other) is None,
        (s@ == seq!['w'] || s@ == seq!['W']) ==> key_direction(DriveKey::Character(s)) == Some(
            Direction::Up,
        ),
        (s@ == seq!['s'] || s@ == seq!['S']) ==> key_direction(DriveKey::Character(s)) == Some(
            Direction::Down,
        ),
        (s@ == seq!['a'] || s@ == seq!['A']) ==> key_direction(DriveKey::Character(s)) == Some(
            Direction::Left,
        ),
        (s@ == seq!['d'] || s@ == seq!['D']) ==> key_direction(DriveKey::Character(s)) == Some(
            Direction::Right,
        ),
        !(s@ == seq!['w'] || s@ == seq!['W'] || s@ == seq!['s'] || s@ == seq!['S'] || s@ == seq![
            'a',
        ] || s@ == seq!['A'] || s@ == seq!['d'] || s@ == seq!['D']) ==> key_direction(
            DriveKey::Character(s),
        ) is None,
{
    if s@.len() == 1 {
        assert(s@ =~= seq![s@[0]]);
        lemma_single_letter(s@, s@[0]);
    }
}

/// Drive speeds: going forward (up alone of up and down) both motors run
/// negative, backward positive, at full speed 255 when going straight; a turn
/// key slows the motor on that side's opposite to 128 while the other stays at
/// full speed; a turn key alone pivots, running the turned side's motor at
/// full backward speed and stopping the other.
pub proof fn lemma_drive_speeds(k: KeyState)
    ensures
        ({
            let s: int = if k.up {
                -1
            } else {
                1
            };
            &&& (k.up != k.down && !k.left && !k.right) ==> k.pwm() == (255 * s, 255 * s)
            &&& (k.up != k.down && k.left && !k.right) ==> k.pwm() == (255 * s, 128 * s)
            &&& (k.up != k.down && !k.left && k.right) ==> k.pwm() == (128 * s, 255 * s)
            &&& (!k.up && !k.down && k.left && !k.right) ==> k.pwm() == (255int, 0int)
            &&& (!k.up && !k.down && !k.left && k.right) ==> k.pwm() == (0int, 255int)
        }),
{
}

} // verus!
