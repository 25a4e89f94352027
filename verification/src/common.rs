//! Shared data model: screens, update states, messages, port parameters,
//! the shared serial cells, and the cyclic element-navigation arithmetic
//! that every screen uses.

use vstd::prelude::*;

verus! {

/// Identifies which screen model is active. Exactly one is active at a time.
#[derive(Clone, Copy, Debug, PartialEq, Eq, Structural)]
pub enum Screen {
    Menu,
    Help,
    Terminal,
    DeviceList,
}

impl Default for Screen {
    /// The root screen is the menu.
    fn default() -> (r: Screen)
        ensures
            r == Screen::Menu,
    {
        Screen::Menu
    }
}

/// The result of every update step; drives the application loop's next action.
/// `Switching` and `Stopping` are transient signals consumed immediately by
/// the loop, never a model's resting state beyond one iteration.
#[derive(Debug, PartialEq)]
pub enum State {
    Running,
    Pausing,
    Stopping,
    Error(String),
    Switching(Screen, Option<PortParameters>),
}

impl Clone for State {
    fn clone(&self) -> (r: Self)
        ensures
            r == *self,
    {
        match self {
            State::Running => State::Running,
            State::Pausing => State::Pausing,
            State::Stopping => State::Stopping,
            State::Error(m) => State::Error(m.clone()),
            State::Switching(s, p) => State::Switching(
                *s,
                match p {
                    Some(q) => Some(q.clone()),
                    None => None,
                },
            ),
        }
    }
}

impl Default for State {
    fn default() -> (r: State)
        ensures
            r == State::Running,
    {
        State::Running
    }
}

/// An intent produced from input or timer events and dispatched to the
/// active screen model.
#[derive(Debug, PartialEq)]
pub enum Message {
    Quit,
    Enter,
    Pause,
    Resume,
    Rx(Vec<u8>),
    Backspace,
    Input(char),
    NextElement,
    PreviousElement,
    Switching(Screen, Option<PortParameters>),
}

/// Parity setting of a serial connection.
#[derive(Clone, Copy, Debug, PartialEq, Eq, Structural)]
pub enum Parity {
    Odd,
    Even,
    NoParity,
}

/// Byte-display encoding of the terminal screen.
#[derive(Clone, Copy, Debug, PartialEq, Eq, Structural)]
pub enum Mode {
    Hex,
    Octal,
    Ascii,
    Decimal,
}

impl Parity {
    /// The canonical rendering of this parity, as shown in the menu.
    pub open spec fn spec_str(self) -> Seq<char> {
        match self {
            Parity::Even => "Even"@,
            Parity::Odd => "Odd"@,
            Parity::NoParity => "None"@,
        }
    }

    pub fn to_string(self) -> (s: String)
        ensures
            s@ == self.spec_str(),
    {
        match self {
            Parity::Even => String::from_str("Even"),
            Parity::Odd => String::from_str("Odd"),
            Parity::NoParity => String::from_str("None"),
        }
    }
}

impl Mode {
    /// The canonical rendering of this mode, as shown in the menu.
    pub open spec fn spec_str(self) -> Seq<char> {
        match self {
            Mode::Ascii => "Ascii"@,
            Mode::Decimal => "Decimal"@,
            Mode::Hex => "Hex"@,
            Mode::Octal => "Octal"@,
        }
    }

    pub fn to_string(self) -> (s: String)
        ensures
            s@ == self.spec_str(),
    {
        match self {
            Mode::Ascii => String::from_str("Ascii"),
            Mode::Decimal => String::from_str("Decimal"),
            Mode::Hex => String::from_str("Hex"),
            Mode::Octal => String::from_str("Octal"),
        }
    }
}

/// Serial-connection configuration. Partially populated while the menu form
/// is in progress; fully populated and range-checked (`valid()`) before a
/// connection may be opened.
#[derive(Debug, PartialEq)]
pub struct PortParameters {
    pub name: Option<String>,
    pub baud_rate: Option<u32>,
    pub data_bits: Option<u8>,
    pub stop_bits: Option<u8>,
    pub parity: Option<Parity>,
    pub mode: Option<Mode>,
}

impl Clone for PortParameters {
    fn clone(&self) -> (r: Self)
        ensures
            r == *self,
    {
        PortParameters {
            name: match &self.name {
                Some(n) => Some(n.clone()),
                None => None,
            },
            baud_rate: self.baud_rate,
            data_bits: self.data_bits,
            stop_bits: self.stop_bits,
            parity: self.parity,
            mode: self.mode,
        }
    }
}

impl Default for PortParameters {
    fn default() -> (r: PortParameters)
        ensures
            r == PortParameters::spec_default(),
    {
        PortParameters {
            name: None,
            baud_rate: None,
            data_bits: None,
            stop_bits: None,
            parity: None,
            mode: None,
        }
    }
}

impl PortParameters {
    /// The all-`None` configuration of an empty form.
    pub open spec fn spec_default() -> PortParameters {
        PortParameters {
            name: None,
            baud_rate: None,
            data_bits: None,
            stop_bits: None,
            parity: None,
            mode: None,
        }
    }

    /// Every field is populated and in range; the precondition for handing
    /// the parameters to the serial bridge.
    pub open spec fn valid(self) -> bool {
        &&& self.name is Some
        &&& self.baud_rate is Some
        &&& match self.data_bits {
            Some(d) => 5 <= d <= 8,
            None => false,
        }
        &&& match self.stop_bits {
            Some(s) => 1 <= s <= 2,
            None => false,
        }
        &&& self.parity is Some
        &&& self.mode is Some
    }

    /// Returns a copy of the parameters with the port name replaced.
    pub fn name(&mut self, n: String) -> (r: Self)
        ensures
            *final(self) == (PortParameters { name: Some(n), ..*old(self) }),
            r == *final(self),
    {
        self.name = Some(n);
        self.clone()
    }
}

/// The dimensions of the drawing area a screen model was last rendered
/// into; the only geometry the update logic depends on.
#[derive(Clone, Copy, Debug, PartialEq, Eq, Structural)]
pub struct Bounds {
    pub width: u16,
    pub height: u16,
}

impl Default for Bounds {
    fn default() -> (r: Bounds)
        ensures
            r == (Bounds { width: 0, height: 0 }),
    {
        Bounds { width: 0, height: 0 }
    }
}

/// Shared boolean: true while a serial connection should remain open; set
/// false to request a cooperative bridge shutdown. The UI side owns the
/// writes; the bridge only reads it between cycles.
#[derive(Clone, Copy, Debug, PartialEq, Eq, Structural)]
pub struct SerialFlag {
    pub value: bool,
}

/// One of the two shared byte buffers (`rx`: device to UI, `tx`: UI to
/// device). Append-only from the producer side within a cycle, fully drained
/// by the consumer after a successful transfer.
#[derive(Debug, PartialEq)]
pub struct SerialBuffer {
    pub data: Vec<u8>,
}

/// Shared optional diagnostic: set by the bridge on an unrecoverable I/O
/// failure, taken and surfaced by the UI side.
#[derive(Debug, PartialEq)]
pub struct SerialError {
    pub message: Option<String>,
}

/// Shared copy of the parameters the bridge should open a connection with;
/// written by the UI side before raising the flag.
#[derive(Debug, PartialEq)]
pub struct SerialParams {
    pub value: PortParameters,
}

pub fn serial_buffer_default() -> (b: SerialBuffer)
    ensures
        b.data@ == Seq::<u8>::empty(),
{
    SerialBuffer { data: Vec::new() }
}

pub fn serial_error_default() -> (e: SerialError)
    ensures
        e.message is None,
{
    SerialError { message: None }
}

pub fn serial_flag_default() -> (f: SerialFlag)
    ensures
        !f.value,
{
    SerialFlag { value: false }
}

pub fn serial_params_default() -> (p: SerialParams)
    ensures
        p.value == PortParameters::spec_default(),
{
    SerialParams { value: PortParameters::default() }
}

/// Global keyboard shortcuts, each used together with the control modifier.
pub const HELP_CHAR: char = 'h';

pub const QUIT_CHAR: char = 'q';

pub const MENU_CHAR: char = 'n';

pub const PAUSE_CHAR: char = 'p';

pub const RESUME_CHAR: char = 'r';

pub const DEVICE_LIST_CHAR: char = 'l';

pub const NEXT_ELEMENT_CHAR: char = ']';

pub const PREVIOUS_ELEMENT_CHAR: char = '[';

/// The index one step forward in a cyclic selection over `n` elements.
pub open spec fn next_index(i: int, n: int) -> int
    recommends
        0 < n,
        0 <= i < n,
{
    if i + 1 == n {
        0
    } else {
        i + 1
    }
}

/// The index one step backward in a cyclic selection over `n` elements.
pub open spec fn prev_index(i: int, n: int) -> int
    recommends
        0 < n,
        0 <= i < n,
{
    if i == 0 {
        n - 1
    } else {
        i - 1
    }
}

/// `k` forward steps from `i` in a cyclic selection over `n` elements.
pub open spec fn iter_next(i: int, n: int, k: nat) -> int
    decreases k,
{
    if k == 0 {
        i
    } else {
        next_index(iter_next(i, n, (k - 1) as nat), n)
    }
}

/// `k` backward steps from `i` in a cyclic selection over `n` elements.
pub open spec fn iter_prev(i: int, n: int, k: nat) -> int
    decreases k,
{
    if k == 0 {
        i
    } else {
        prev_index(iter_prev(i, n, (k - 1) as nat), n)
    }
}

proof fn lemma_iter_next_value(i: int, n: int, k: nat)
    requires
        0 < n,
        0 <= i < n,
        k <= n,
    ensures
        iter_next(i, n, k) == if i + k < n {
            i + k
        } else {
            i + k - n
        },
    decreases k,
{
    if k > 0 {
        lemma_iter_next_value(i, n, (k - 1) as nat);
    }
}

proof fn lemma_iter_prev_value(i: int, n: int, k: nat)
    requires
        0 < n,
        0 <= i < n,
        k <= n,
    ensures
        iter_prev(i, n, k) == if i >= k {
            i - k
        } else {
            i + n - k
        },
    decreases k,
{
    if k > 0 {
        lemma_iter_prev_value(i, n, (k - 1) as nat);
    }
}

/// Cyclic navigation: from any selected index, `n` forward steps over `n`
/// selectable elements return to the starting index.
pub proof fn lemma_next_cycle(i: int, n: int)
    requires
        0 < n,
        0 <= i < n,
    ensures
        iter_next(i, n, n as nat) == i,
{
    lemma_iter_next_value(i, n, n as nat);
}

/// Cyclic navigation: from any selected index, `n` backward steps over `n`
/// selectable elements return to the starting index.
pub proof fn lemma_prev_cycle(i: int, n: int)
    requires
        0 < n,
        0 <= i < n,
    ensures
        iter_prev(i, n, n as nat) == i,
{
    lemma_iter_prev_value(i, n, n as nat);
}

/// Uniform access to a screen model's resting state. Every screen model
/// implements it; `with_state` is the model with only the state replaced,
/// which pins down exactly what `set_state` may change.
pub trait Nolp: Sized {
    /// The model's current state, as a mathematical value.
    spec fn spec_state(&self) -> State;

    /// The model with its state replaced and every other field kept.
    spec fn with_state(&self, s: State) -> Self;

    fn get_state(&self) -> (s: State)
        ensures
            s == self.spec_state(),
    ;

    fn set_state(&mut self, s: State)
        ensures
            *final(self) == old(self).with_state(s),
    ;
}

/// One forward step then one backward step (and vice versa) leave the
/// selection unchanged.
pub proof fn lemma_next_prev_inverse(i: int, n: int)
    requires
        0 < n,
        0 <= i < n,
    ensures
        prev_index(next_index(i, n), n) == i,
        next_index(prev_index(i, n), n) == i,
{
}

} // verus!
