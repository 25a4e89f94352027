//! The terminal screen: a display log of exchanged bytes with their
//! provenance, an outgoing line buffer, and the pause discipline. Submitted
//! lines go both to the outgoing byte buffer (for the bridge to send) and
//! to the display log; received bytes go to the display log unless the
//! screen is paused, in which case they are dropped — pausing clears the
//! log and there is no holding buffer.

use vstd::prelude::*;
use crate::common::{Bounds, Message, Mode, Nolp, PortParameters, State};
use crate::text::{dec_digit, dec_digit_char, digit_of, digit_val, is_dec_digit};

verus! {

/// Provenance of one logged byte: typed by the user (`Input`) or received
/// from the device (`Output`).
#[derive(Clone, Copy, Debug, PartialEq, Eq, Structural)]
pub enum DataDirection {
    Input,
    Output,
}

/// One logged byte with its provenance.
#[derive(Clone, Copy, Debug, PartialEq, Eq, Structural)]
pub struct DataByte {
    pub value: u8,
    pub direction: DataDirection,
}

/// The terminal screen model.
#[derive(Debug, PartialEq)]
pub struct TerminalModel {
    pub state: State,
    pub bounds: Bounds,
    pub input: String,
    pub out: Vec<u8>,
    pub buffer: Vec<DataByte>,
    pub parameters: PortParameters,
}

/// The outgoing byte for one typed character: digits are sent as their
/// numeric value (mirroring how number keys arrive from the input layer),
/// any other character as its low byte.
pub open spec fn byte_of_char(c: char) -> u8 {
    if is_dec_digit(c) {
        digit_val(c) as u8
    } else {
        c as u8
    }
}

/// The outgoing bytes of a whole typed line.
pub open spec fn mapped_bytes(s: Seq<char>) -> Seq<u8> {
    s.map_values(|c: char| byte_of_char(c))
}

/// Bytes tagged as received from the device.
pub open spec fn device_bytes(data: Seq<u8>) -> Seq<DataByte> {
    data.map_values(|b: u8| DataByte { value: b, direction: DataDirection::Output })
}

/// Bytes tagged as typed by the user.
pub open spec fn user_bytes(data: Seq<u8>) -> Seq<DataByte> {
    data.map_values(|b: u8| DataByte { value: b, direction: DataDirection::Input })
}

/// Character cells one encoded byte occupies in the given display mode,
/// trailing separator included.
pub open spec fn spec_text_width(mode: Mode) -> int {
    match mode {
        Mode::Hex => 5,
        Mode::Octal => 6,
        Mode::Ascii => 2,
        Mode::Decimal => 4,
    }
}

/// Whether appending `add` bytes to a log of `cur` bytes would project to
/// more encoded lines than the drawing area can show (the area keeps five
/// rows for the input box and borders). Degenerate bounds that fit no
/// encoded byte, and byte counts beyond the machine's word, count as
/// overflowing.
pub open spec fn overflow_projected(mode: Mode, bounds: Bounds, cur: nat, add: nat) -> bool {
    let tw = spec_text_width(mode);
    let width = bounds.width as int;
    let height = bounds.height as int;
    let rel_height = if height >= 5 {
        height - 5
    } else {
        0
    };
    let rel_width = width / tw;
    if rel_width == 0 {
        true
    } else if cur + add > usize::MAX {
        true
    } else {
        let lines = (cur + add) as int / rel_width + if width % tw != 0 {
            1int
        } else {
            0int
        };
        lines > rel_height
    }
}

/// Effect of received bytes on a running terminal: the display log gains
/// them, device-tagged, after being cleared when they would overflow the
/// visible area.
pub open spec fn terminal_rx_rel(o: TerminalModel, m: TerminalModel, data: Seq<u8>) -> bool {
    if o.state is Pausing {
        m == o
    } else {
        &&& m == (TerminalModel { buffer: m.buffer, ..o })
        &&& m.buffer@ == (if overflow_projected(
            o.parameters.mode.unwrap(),
            o.bounds,
            o.buffer@.len(),
            data.len(),
        ) {
            Seq::<DataByte>::empty()
        } else {
            o.buffer@
        }) + device_bytes(data)
    }
}

/// Effect of submitting the typed line: its bytes are appended to the
/// outgoing buffer and, user-tagged, to the display log (cleared first on
/// projected overflow), and the line is cleared. An empty line does
/// nothing.
pub open spec fn terminal_enter_rel(o: TerminalModel, m: TerminalModel) -> bool {
    if o.input@.len() == 0 {
        m == o
    } else {
        let bytes = mapped_bytes(o.input@);
        &&& m == (TerminalModel { input: m.input, out: m.out, buffer: m.buffer, ..o })
        &&& m.input@ == Seq::<char>::empty()
        &&& m.out@ == o.out@ + bytes
        &&& m.buffer@ == (if overflow_projected(
            o.parameters.mode.unwrap(),
            o.bounds,
            o.buffer@.len(),
            bytes.len(),
        ) {
            Seq::<DataByte>::empty()
        } else {
            o.buffer@
        }) + user_bytes(bytes)
    }
}

impl TerminalModel {
    /// Well-formedness: the terminal only ever exists for a fully
    /// specified, range-checked connection.
    pub open spec fn wf(self) -> bool {
        self.parameters.valid()
    }

    /// A terminal for a freshly opened connection: empty log, empty line,
    /// running.
    pub fn new(parameters: PortParameters) -> (r: TerminalModel)
        requires
            parameters.valid(),
        ensures
            r.wf(),
            r.parameters == parameters,
            r.state == State::Running,
            r.bounds == (Bounds { width: 0, height: 0 }),
            r.input@ == Seq::<char>::empty(),
            r.out@ == Seq::<u8>::empty(),
            r.buffer@ == Seq::<DataByte>::empty(),
    {
        TerminalModel {
            out: Vec::new(),
            buffer: Vec::new(),
            state: State::Running,
            input: String::new(),
            bounds: Bounds::default(),
            parameters,
        }
    }

    /// The bytes submitted for sending and not yet handed to the bridge.
    pub fn get_output_buffer(&self) -> (r: Vec<u8>)
        ensures
            r@ == self.out@,
    {
        let r = self.out.clone();
        proof {
            assert forall|i: int| 0 <= i < r@.len() implies r@[i] == self.out@[i] by {
                assert(cloned::<u8>(self.out@[i], r@[i]));
            }
            assert(r@ =~= self.out@);
        }
        r
    }

    /// Marks the submitted bytes as handed to the bridge.
    pub fn clear_output_buffer(&mut self)
        ensures
            *final(self) == (TerminalModel { out: final(self).out, ..*old(self) }),
            final(self).out@ == Seq::<u8>::empty(),
    {
        self.out.clear();
    }
}

impl Nolp for TerminalModel {
    open spec fn spec_state(&self) -> State {
        self.state
    }

    open spec fn with_state(&self, s: State) -> TerminalModel {
        TerminalModel { state: s, ..*self }
    }

    fn get_state(&self) -> (s: State)
        ensures
            s == self.spec_state(),
    {
        self.state.clone()
    }

    fn set_state(&mut self, s: State)
        ensures
            *final(self) == old(self).with_state(s),
    {
        self.state = s;
    }
}

/// The outgoing byte for one typed character (see `byte_of_char`).
pub fn get_number_from_char(input: char) -> (b: u8)
    ensures
        b == byte_of_char(input),
{
    let d = digit_of(input);
    if d < 10 {
        d as u8
    } else {
        input as u8
    }
}

/// Character cells one encoded byte occupies in the given display mode.
pub fn text_width(mode: Mode) -> (w: usize)
    ensures
        w as int == spec_text_width(mode),
{
    match mode {
        Mode::Hex => 5,
        Mode::Octal => 6,
        Mode::Ascii => 2,
        Mode::Decimal => 4,
    }
}

fn projected_overflow(mode: Mode, bounds: Bounds, cur: usize, add: usize) -> (b: bool)
    ensures
        b == overflow_projected(mode, bounds, cur as nat, add as nat),
{
    let tw = text_width(mode);
    let width = bounds.width as usize;
    let height = bounds.height as usize;
    let rel_height: usize = if height >= 5 {
        height - 5
    } else {
        0
    };
    let rel_width = width / tw;
    if rel_width == 0 {
        return true;
    }
    if cur > usize::MAX - add {
        return true;
    }
    let mut lines = (cur + add) / rel_width;
    if width % tw != 0 {
        if lines == usize::MAX {
            // More projected lines than any drawing area can have rows.
            assert((cur + add) as int / (rel_width as int) + 1 > rel_height);
            return true;
        }
        lines = lines + 1;
    }
    lines > rel_height
}

fn update_buffer_output(model: &mut TerminalModel, data: Vec<u8>)
    requires
        old(model).wf(),
        !(old(model).state is Pausing),
    ensures
        final(model).wf(),
        terminal_rx_rel(*old(model), *final(model), data@),
{
    let overflow = projected_overflow(
        match &model.parameters.mode {
            Some(m) => *m,
            None => unreached(),
        },
        model.bounds,
        model.buffer.len(),
        data.len(),
    );
    if overflow {
        model.buffer = Vec::new();
    }
    let ghost base = model.buffer@;
    let mut j: usize = 0;
    while j < data.len()
        invariant
            j <= data.len(),
            model.buffer@ == base + device_bytes(data@.subrange(0, j as int)),
            *model == (TerminalModel { buffer: model.buffer, ..*old(model) }),
        decreases data.len() - j,
    {
        model.buffer.push(DataByte { value: data[j], direction: DataDirection::Output });
        proof {
            assert(data@.subrange(0, j + 1).drop_last() =~= data@.subrange(0, j as int));
            assert(device_bytes(data@.subrange(0, j + 1)) =~= device_bytes(
                data@.subrange(0, j as int),
            ).push(DataByte { value: data@[j as int], direction: DataDirection::Output }));
        }
        j = j + 1;
    }
    proof {
        assert(data@.subrange(0, data@.len() as int) =~= data@);
    }
}

fn update_buffer_input(model: &mut TerminalModel)
    requires
        old(model).wf(),
    ensures
        final(model).wf(),
        *final(model) == (TerminalModel {
            out: final(model).out,
            buffer: final(model).buffer,
            ..*old(model)
        }),
        final(model).out@ == old(model).out@ + mapped_bytes(old(model).input@),
        final(model).buffer@ == (if overflow_projected(
            old(model).parameters.mode.unwrap(),
            old(model).bounds,
            old(model).buffer@.len(),
            old(model).input@.len(),
        ) {
            Seq::<DataByte>::empty()
        } else {
            old(model).buffer@
        }) + user_bytes(mapped_bytes(old(model).input@)),
{
    let n = model.input.unicode_len();
    let mut bytes: Vec<u8> = Vec::new();
    let mut i: usize = 0;
    while i < n
        invariant
            i <= n,
            n == model.input@.len(),
            *model == *old(model),
            bytes@.len() == i,
            forall|k: int| 0 <= k < i ==> bytes@[k] == byte_of_char(#[trigger] model.input@[k]),
        decreases n - i,
    {
        let c = model.input.as_str().get_char(i);
        bytes.push(get_number_from_char(c));
        i = i + 1;
    }
    proof {
        assert(bytes@ =~= mapped_bytes(model.input@));
    }
    let overflow = projected_overflow(
        match &model.parameters.mode {
            Some(m) => *m,
            None => unreached(),
        },
        model.bounds,
        model.buffer.len(),
        bytes.len(),
    );
    let ghost old_out = model.out@;
    let mut j: usize = 0;
    while j < bytes.len()
        invariant
            j <= bytes@.len(),
            model.out@ == old_out + bytes@.subrange(0, j as int),
            *model == (TerminalModel { out: model.out, ..*old(model) }),
        decreases bytes@.len() - j,
    {
        model.out.push(bytes[j]);
        proof {
            assert(old_out + bytes@.subrange(0, j + 1) =~= (old_out + bytes@.subrange(
                0,
                j as int,
            )).push(bytes@[j as int]));
        }
        j = j + 1;
    }
    proof {
        assert(bytes@.subrange(0, bytes@.len() as int) =~= bytes@);
        assert(model.out@ == old_out + bytes@);
    }
    if overflow {
        model.buffer = Vec::new();
    }
    let ghost base = model.buffer@;
    let mut k: usize = 0;
    while k < bytes.len()
        invariant
            k <= bytes@.len(),
            model.buffer@ == base + user_bytes(bytes@.subrange(0, k as int)),
            *model == (TerminalModel { out: model.out, buffer: model.buffer, ..*old(model) }),
            model.out@ == old_out + bytes@,
        decreases bytes@.len() - k,
    {
        model.buffer.push(DataByte { value: bytes[k], direction: DataDirection::Input });
        proof {
            assert(bytes@.subrange(0, k + 1).drop_last() =~= bytes@.subrange(0, k as int));
            assert(user_bytes(bytes@.subrange(0, k + 1)) =~= user_bytes(
                bytes@.subrange(0, k as int),
            ).push(DataByte { value: bytes@[k as int], direction: DataDirection::Input }));
        }
        k = k + 1;
    }
    proof {
        assert(bytes@.subrange(0, bytes@.len() as int) =~= bytes@);
    }
}

impl TerminalModel {
    /// One update step of the terminal screen. Every message is handled;
    /// pausing blocks text entry and drops received bytes, Resume restores
    /// a running screen from pause or error, Enter submits the typed line.
    pub fn update(&mut self, msg: Message) -> (s: State)
        requires
            old(self).wf(),
        ensures
            final(self).wf(),
            s == final(self).spec_state(),
            match msg {
                Message::Input(c) => if !(old(self).state is Pausing) && old(self).input@.len()
                    < 50 {
                    *final(self) == (TerminalModel { input: final(self).input, ..*old(self) })
                        && final(self).input@ == old(self).input@.push(c)
                } else {
                    *final(self) == *old(self)
                },
                Message::Backspace => if !(old(self).state is Pausing) && old(self).input@.len()
                    > 0 {
                    *final(self) == (TerminalModel { input: final(self).input, ..*old(self) })
                        && final(self).input@ == old(self).input@.drop_last()
                } else {
                    *final(self) == *old(self)
                },
                Message::Pause => if !(old(self).state is Pausing) {
                    *final(self) == (TerminalModel {
                        state: State::Pausing,
                        buffer: final(self).buffer,
                        ..*old(self)
                    }) && final(self).buffer@ == Seq::<DataByte>::empty()
                } else {
                    *final(self) == *old(self)
                },
                Message::Resume => if !(old(self).state is Running) {
                    *final(self) == old(self).with_state(State::Running)
                } else {
                    *final(self) == *old(self)
                },
                Message::Enter => terminal_enter_rel(*old(self), *final(self)),
                Message::Rx(data) => terminal_rx_rel(*old(self), *final(self), data@),
                _ => *final(self) == *old(self),
            },
    {
        match msg {
            Message::Input(input) => {
                let pausing = matches!(self.state, State::Pausing);
                if !pausing && self.input.unicode_len() < 50 {
                    self.input.push(input);
                }
            },
            Message::Backspace => {
                let pausing = matches!(self.state, State::Pausing);
                if self.input.unicode_len() > 0 && !pausing {
                    self.input.pop();
                }
            },
            Message::Pause => {
                if !matches!(self.state, State::Pausing) {
                    // Pausing discards the display log.
                    self.buffer = Vec::new();
                    self.state = State::Pausing;
                }
            },
            Message::Resume => {
                if !matches!(self.state, State::Running) {
                    self.state = State::Running;
                }
            },
            Message::Enter => {
                if self.input.unicode_len() > 0 {
                    update_buffer_input(self);
                    self.input = String::new();
                }
            },
            Message::Rx(data) => {
                if !matches!(self.state, State::Pausing) {
                    update_buffer_output(self, data);
                }
            },
            _ => {},
        }
        self.get_state()
    }
}

/// The hexadecimal digit character of a value below 16, upper case.
pub open spec fn hex_digit_char(d: nat) -> char {
    if d < 10 {
        dec_digit_char(d)
    } else if d == 10 {
        'A'
    } else if d == 11 {
        'B'
    } else if d == 12 {
        'C'
    } else if d == 13 {
        'D'
    } else if d == 14 {
        'E'
    } else {
        'F'
    }
}

fn hex_digit(d: u8) -> (c: char)
    requires
        d < 16,
    ensures
        c == hex_digit_char(d as nat),
{
    if d < 10 {
        dec_digit(d as u32)
    } else if d == 10 {
        'A'
    } else if d == 11 {
        'B'
    } else if d == 12 {
        'C'
    } else if d == 13 {
        'D'
    } else if d == 14 {
        'E'
    } else {
        'F'
    }
}

/// The display cells of one logged byte: hexadecimal (`0x41 `), octal
/// (`0o101 `), printable ASCII (`A `, a dot for unprintable bytes), or
/// right-aligned decimal (` 65 `), each with a trailing separator.
pub open spec fn encoded_byte(mode: Mode, v: u8) -> Seq<char> {
    match mode {
        Mode::Hex => seq![
            '0',
            'x',
            hex_digit_char((v / 16) as nat),
            hex_digit_char((v % 16) as nat),
            ' ',
        ],
        Mode::Octal => seq![
            '0',
            'o',
            dec_digit_char((v / 64) as nat),
            dec_digit_char(((v / 8) % 8) as nat),
            dec_digit_char((v % 8) as nat),
            ' ',
        ],
        Mode::Ascii => if 32 <= v <= 126 {
            seq![v as char, ' ']
        } else {
            seq!['.', ' ']
        },
        Mode::Decimal => if v < 10 {
            seq![' ', ' ', dec_digit_char(v as nat), ' ']
        } else if v < 100 {
            seq![' ', dec_digit_char((v / 10) as nat), dec_digit_char((v % 10) as nat), ' ']
        } else {
            seq![
                dec_digit_char((v / 100) as nat),
                dec_digit_char(((v / 10) % 10) as nat),
                dec_digit_char((v % 10) as nat),
                ' ',
            ]
        },
    }
}

/// Renders one logged byte for the display log in the given mode.
pub fn encode_byte(mode: Mode, value: u8) -> (s: String)
    ensures
        s@ == encoded_byte(mode, value),
{
    let mut s = String::new();
    match mode {
        Mode::Hex => {
            s.push('0');
            s.push('x');
            s.push(hex_digit(value / 16));
            s.push(hex_digit(value % 16));
            s.push(' ');
        },
        Mode::Octal => {
            s.push('0');
            s.push('o');
            s.push(dec_digit((value / 64) as u32));
            s.push(dec_digit(((value / 8) % 8) as u32));
            s.push(dec_digit((value % 8) as u32));
            s.push(' ');
        },
        Mode::Ascii => {
            if 32 <= value && value <= 126 {
                s.push(value as char);
            } else {
                s.push('.');
            }
            s.push(' ');
        },
        Mode::Decimal => {
            if value < 10 {
                s.push(' ');
                s.push(' ');
                s.push(dec_digit(value as u32));
            } else if value < 100 {
                s.push(' ');
                s.push(dec_digit((value / 10) as u32));
                s.push(dec_digit((value % 10) as u32));
            } else {
                s.push(dec_digit((value / 100) as u32));
                s.push(dec_digit(((value / 10) % 10) as u32));
                s.push(dec_digit((value % 10) as u32));
            }
            s.push(' ');
        },
    }
    proof {
        assert(s@ =~= encoded_byte(mode, value));
    }
    s
}

} // verus!
