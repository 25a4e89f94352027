//! The menu screen: a six-field form for the serial-port configuration plus
//! Cancel/Start buttons. Field entry is character-class-checked as typed;
//! Start validates every field and either produces the switch into the
//! terminal screen with the parsed parameters or marks the offending fields.

use vstd::prelude::*;
use crate::common::{
    Bounds, Message, Mode, Nolp, Parity, PortParameters, Screen, State, iter_next, iter_prev,
    lemma_next_cycle, lemma_prev_cycle, next_index, prev_index,
};
use crate::text::{
    lemma_dec_roundtrip,
    all_dec_digits, dec_digits, dec_val, digit_of, digit_val, eq_ignore_case, is_dec_digit,
    lower_seq, parse_u32, u32_to_dec,
};

verus! {

/// Total number of lines the full menu occupies, used by the scroll logic.
pub const CONTENT_LENGTH: usize = 20;

pub const INPUT_WIDTH: usize = 18;

pub const GAP_WIDTH: usize = 10;

/// One form field: its current text, entry limit, and validation marker.
#[derive(Debug, PartialEq)]
pub struct MenuInput {
    pub limit: usize,
    pub title: String,
    pub invalid: bool,
    pub value: String,
    pub placeholder: String,
}

impl Clone for MenuInput {
    fn clone(&self) -> (r: Self)
        ensures
            r == *self,
    {
        MenuInput {
            limit: self.limit,
            title: self.title.clone(),
            invalid: self.invalid,
            value: self.value.clone(),
            placeholder: self.placeholder.clone(),
        }
    }
}

impl Default for MenuInput {
    fn default() -> (r: MenuInput)
        ensures
            r.limit == 100,
            !r.invalid,
            r.title@ == Seq::<char>::empty(),
            r.value@ == Seq::<char>::empty(),
            r.placeholder@ == Seq::<char>::empty(),
    {
        MenuInput {
            limit: 100,
            invalid: false,
            title: String::new(),
            value: String::new(),
            placeholder: String::new(),
        }
    }
}

impl MenuInput {
    pub fn title(self, s: String) -> (r: Self)
        ensures
            r == (MenuInput { title: s, ..self }),
    {
        let mut m = self;
        m.title = s;
        m
    }

    pub fn placeholder(self, s: String) -> (r: Self)
        ensures
            r == (MenuInput { placeholder: s, ..self }),
    {
        let mut m = self;
        m.placeholder = s;
        m
    }

    pub fn limit(self, l: usize) -> (r: Self)
        ensures
            r == (MenuInput { limit: l, ..self }),
    {
        let mut m = self;
        m.limit = l;
        m
    }
}

/// The menu screen model: six inputs, two buttons, and scroll geometry.
#[derive(Debug, PartialEq)]
pub struct MenuModel {
    pub state: State,
    pub split: bool,
    pub bounds: Bounds,
    pub offset: usize,
    pub selected: usize,
    pub min_width: usize,
    pub min_height: usize,
    pub scroll_pos: usize,
    pub inputs: Vec<MenuInput>,
}

#[derive(Debug, PartialEq)]
enum SelectElement {
    Previous,
    Next,
}

#[derive(Debug, PartialEq)]
enum UpdateElement {
    Sub,
    Add(char),
}

impl MenuModel {
    /// Well-formedness: the form always has its six fields, and the
    /// selection ranges over them plus the two buttons.
    pub open spec fn wf(self) -> bool {
        &&& self.inputs.len() == 6
        &&& self.selected < 8
    }
}

impl Nolp for MenuModel {
    open spec fn spec_state(&self) -> State {
        self.state
    }

    open spec fn with_state(&self, s: State) -> MenuModel {
        MenuModel { state: s, ..*self }
    }

    fn get_state(&self) -> (s: State)
        ensures
            s == self.spec_state(),
    {
        self.state.clone()
    }

    fn set_state(&mut self, s: State)
        ensures
            *final(self) == old(self).with_state(s),
    {
        self.state = s;
    }
}

/// Shape of one field of a freshly constructed menu.
pub open spec fn input_shape(i: MenuInput, limit: usize, title: Seq<char>, ph: Seq<char>) -> bool {
    &&& i.limit == limit
    &&& !i.invalid
    &&& i.title@ == title
    &&& i.placeholder@ == ph
}

/// Shape of a freshly constructed menu, apart from the field values.
pub open spec fn menu_shape(m: MenuModel) -> bool {
    &&& m.state == State::Running
    &&& m.split
    &&& m.bounds == (Bounds { width: 0, height: 0 })
    &&& m.offset == 0
    &&& m.selected == 0
    &&& m.min_width == 0
    &&& m.min_height == 0
    &&& m.scroll_pos == 0
    &&& m.inputs.len() == 6
    &&& input_shape(m.inputs[0], 100, "Port"@, "COM4"@)
    &&& input_shape(m.inputs[1], 10, "Baudrate"@, "9600"@)
    &&& input_shape(m.inputs[2], 1, "Data bits"@, "8"@)
    &&& input_shape(m.inputs[3], 1, "Stop bits"@, "1"@)
    &&& input_shape(m.inputs[4], 4, "Parity"@, "Even"@)
    &&& input_shape(m.inputs[5], 7, "Mode"@, "Ascii"@)
}

/// A freshly constructed menu with an empty form.
pub open spec fn is_default_menu(m: MenuModel) -> bool {
    &&& menu_shape(m)
    &&& m.inputs[0].value@ == Seq::<char>::empty()
    &&& m.inputs[1].value@ == Seq::<char>::empty()
    &&& m.inputs[2].value@ == Seq::<char>::empty()
    &&& m.inputs[3].value@ == Seq::<char>::empty()
    &&& m.inputs[4].value@ == Seq::<char>::empty()
    &&& m.inputs[5].value@ == Seq::<char>::empty()
}

/// A freshly constructed menu pre-filled from `p`: every populated field is
/// rendered into its input, every missing field is left empty.
pub open spec fn is_menu_from(m: MenuModel, p: PortParameters) -> bool {
    &&& menu_shape(m)
    &&& m.inputs[0].value@ == match p.name {
        Some(n) => n@,
        None => Seq::<char>::empty(),
    }
    &&& m.inputs[1].value@ == match p.baud_rate {
        Some(b) => dec_digits(b as nat),
        None => Seq::<char>::empty(),
    }
    &&& m.inputs[2].value@ == match p.data_bits {
        Some(d) => dec_digits(d as nat),
        None => Seq::<char>::empty(),
    }
    &&& m.inputs[3].value@ == match p.stop_bits {
        Some(s) => dec_digits(s as nat),
        None => Seq::<char>::empty(),
    }
    &&& m.inputs[4].value@ == match p.parity {
        Some(x) => x.spec_str(),
        None => Seq::<char>::empty(),
    }
    &&& m.inputs[5].value@ == match p.mode {
        Some(x) => x.spec_str(),
        None => Seq::<char>::empty(),
    }
}

impl Default for MenuModel {
    fn default() -> (r: MenuModel)
        ensures
            r.wf(),
            is_default_menu(r),
    {
        let mut inputs: Vec<MenuInput> = Vec::new();
        inputs.push(
            MenuInput::default().title(String::from_str("Port")).placeholder(
                String::from_str("COM4"),
            ),
        );
        inputs.push(
            MenuInput::default().limit(10).title(String::from_str("Baudrate")).placeholder(
                String::from_str("9600"),
            ),
        );
        inputs.push(
            MenuInput::default().limit(1).title(String::from_str("Data bits")).placeholder(
                String::from_str("8"),
            ),
        );
        inputs.push(
            MenuInput::default().limit(1).title(String::from_str("Stop bits")).placeholder(
                String::from_str("1"),
            ),
        );
        inputs.push(
            MenuInput::default().limit(4).title(String::from_str("Parity")).placeholder(
                String::from_str("Even"),
            ),
        );
        inputs.push(
            MenuInput::default().limit(7).title(String::from_str("Mode")).placeholder(
                String::from_str("Ascii"),
            ),
        );
        MenuModel {
            scroll_pos: 0,
            bounds: Bounds::default(),
            state: State::Running,
            min_height: 0,
            min_width: 0,
            split: true,
            selected: 0,
            offset: 0,
            inputs,
        }
    }
}

/// Replaces the text of the form field at `i`, keeping everything else.
fn set_value(inputs: &mut Vec<MenuInput>, i: usize, v: String)
    requires
        i < old(inputs).len(),
    ensures
        final(inputs)@ == old(inputs)@.update(i as int, (MenuInput { value: v, ..old(inputs)@[i as int] })),
{
    let mut tmp = MenuInput::default();
    inputs.set_and_swap(i, &mut tmp);
    tmp.value = v;
    inputs.set(i, tmp);
    proof {
        assert(inputs@ =~= old(inputs)@.update(i as int, (MenuInput { value: v, ..old(inputs)@[i as int] })));
    }
}

impl MenuModel {
    /// A menu pre-filled from previously chosen parameters.
    pub fn new(parameters: PortParameters) -> (r: MenuModel)
        ensures
            r.wf(),
            is_menu_from(r, parameters),
    {
        let mut model = MenuModel::default();
        let name_val = match parameters.name {
            Some(n) => n,
            None => String::new(),
        };
        let baud_val = match parameters.baud_rate {
            Some(b) => u32_to_dec(b),
            None => String::new(),
        };
        let data_val = match parameters.data_bits {
            Some(d) => u32_to_dec(d as u32),
            None => String::new(),
        };
        let stop_val = match parameters.stop_bits {
            Some(s) => u32_to_dec(s as u32),
            None => String::new(),
        };
        let parity_val = match parameters.parity {
            Some(p) => p.to_string(),
            None => String::new(),
        };
        let mode_val = match parameters.mode {
            Some(m) => m.to_string(),
            None => String::new(),
        };
        set_value(&mut model.inputs, 0, name_val);
        set_value(&mut model.inputs, 1, baud_val);
        set_value(&mut model.inputs, 2, data_val);
        set_value(&mut model.inputs, 3, stop_val);
        set_value(&mut model.inputs, 4, parity_val);
        set_value(&mut model.inputs, 5, mode_val);
        model
    }
}

/// Which character classes a field accepts while it is being typed into:
/// the baud rate takes digits, the bit-count fields take digits already in
/// range, and every other field takes any character.
pub open spec fn input_allowed(sel: int, c: char) -> bool {
    if sel == 1 {
        is_dec_digit(c)
    } else if sel == 2 {
        5 <= digit_val(c) <= 8
    } else if sel == 3 {
        1 <= digit_val(c) <= 2
    } else {
        true
    }
}

/// The parity named by a field value, compared ASCII-case-insensitively.
pub open spec fn parity_of(s: Seq<char>) -> Option<Parity> {
    if lower_seq(s) == "even"@ {
        Some(Parity::Even)
    } else if lower_seq(s) == "odd"@ {
        Some(Parity::Odd)
    } else if lower_seq(s) == "none"@ {
        Some(Parity::NoParity)
    } else {
        None
    }
}

/// The display mode named by a field value, compared ASCII-case-insensitively.
pub open spec fn mode_of(s: Seq<char>) -> Option<Mode> {
    if lower_seq(s) == "ascii"@ {
        Some(Mode::Ascii)
    } else if lower_seq(s) == "hex"@ {
        Some(Mode::Hex)
    } else if lower_seq(s) == "decimal"@ {
        Some(Mode::Decimal)
    } else if lower_seq(s) == "octal"@ {
        Some(Mode::Octal)
    } else {
        None
    }
}

/// Whether field `j` holds a submittable value: the port name is non-empty,
/// the numeric fields parse and lie in range, and the enumerated fields name
/// one of their words.
pub open spec fn field_ok(m: MenuModel, j: int) -> bool {
    let v = m.inputs[j].value@;
    if j == 0 {
        v.len() > 0
    } else if j == 1 {
        v.len() > 0 && all_dec_digits(v) && dec_val(v) <= u32::MAX
    } else if j == 2 {
        v.len() > 0 && all_dec_digits(v) && 5 <= dec_val(v) <= 8
    } else if j == 3 {
        v.len() > 0 && all_dec_digits(v) && 1 <= dec_val(v) <= 2
    } else if j == 4 {
        parity_of(v) is Some
    } else {
        mode_of(v) is Some
    }
}

/// Every field holds a submittable value.
pub open spec fn values_valid(m: MenuModel) -> bool {
    &&& field_ok(m, 0)
    &&& field_ok(m, 1)
    &&& field_ok(m, 2)
    &&& field_ok(m, 3)
    &&& field_ok(m, 4)
    &&& field_ok(m, 5)
}

/// The parameters read out of a valid form.
pub open spec fn parsed_params(m: MenuModel) -> PortParameters
    recommends
        values_valid(m),
{
    PortParameters {
        name: Some(m.inputs[0].value),
        baud_rate: Some(dec_val(m.inputs[1].value@) as u32),
        data_bits: Some(dec_val(m.inputs[2].value@) as u8),
        stop_bits: Some(dec_val(m.inputs[3].value@) as u8),
        parity: parity_of(m.inputs[4].value@),
        mode: mode_of(m.inputs[5].value@),
    }
}

/// The scroll offset that keeps the selected element visible.
pub open spec fn menu_scroll_offset(sel: int, split: bool) -> int {
    if split {
        (if sel % 2 != 0 {
            sel - 1
        } else {
            sel
        }) / 2 * 3
    } else {
        if sel != 7 {
            sel * 3
        } else {
            sel * 3 - 2
        }
    }
}

/// Layout geometry that element updates never touch.
pub open spec fn same_layout(o: MenuModel, m: MenuModel) -> bool {
    &&& m.split == o.split
    &&& m.bounds == o.bounds
    &&& m.min_width == o.min_width
    &&& m.min_height == o.min_height
}

/// Effect of a `NextElement`/`PreviousElement` message: cyclic selection
/// over the six fields and two buttons, scrolled into view when the menu
/// does not fit its bounds.
pub open spec fn menu_nav_rel(o: MenuModel, m: MenuModel, forward: bool) -> bool {
    let sel = if forward {
        next_index(o.selected as int, 8)
    } else {
        prev_index(o.selected as int, 8)
    };
    let scrolled = o.bounds.height as int <= if o.split {
        CONTENT_LENGTH as int / 2 + 1
    } else {
        CONTENT_LENGTH as int
    };
    &&& same_layout(o, m)
    &&& m.state == o.state
    &&& m.inputs == o.inputs
    &&& m.selected as int == sel
    &&& m.offset as int == if scrolled {
        menu_scroll_offset(sel, o.split)
    } else {
        o.offset as int
    }
    &&& m.scroll_pos as int == if scrolled {
        menu_scroll_offset(sel, o.split)
    } else {
        o.scroll_pos as int
    }
}

/// Effect of typing `c`: appended to the selected field exactly when a field
/// is selected, the character is allowed there, and the field is under its
/// length limit; otherwise nothing changes.
pub open spec fn menu_add_rel(o: MenuModel, m: MenuModel, c: char) -> bool {
    let sel = o.selected as int;
    let editable = sel < 6 && input_allowed(sel, c) && o.inputs[sel].value@.len() < o.inputs[sel].limit;
    &&& same_layout(o, m)
    &&& m.state == o.state
    &&& m.selected == o.selected
    &&& m.offset == o.offset
    &&& m.scroll_pos == o.scroll_pos
    &&& if editable {
        &&& m.inputs.len() == o.inputs.len()
        &&& forall|j: int| 0 <= j < o.inputs.len() && j != sel ==> m.inputs[j] == o.inputs[j]
        &&& m.inputs[sel].value@ == o.inputs[sel].value@.push(c)
        &&& m.inputs[sel].limit == o.inputs[sel].limit
        &&& m.inputs[sel].title == o.inputs[sel].title
        &&& m.inputs[sel].placeholder == o.inputs[sel].placeholder
        &&& m.inputs[sel].invalid == o.inputs[sel].invalid
    } else {
        m.inputs == o.inputs
    }
}

/// Effect of backspace: the last character of the selected field is removed
/// exactly when a field is selected and it is non-empty.
pub open spec fn menu_sub_rel(o: MenuModel, m: MenuModel) -> bool {
    let sel = o.selected as int;
    let editable = sel < 6 && o.inputs[sel].value@.len() > 0;
    &&& same_layout(o, m)
    &&& m.state == o.state
    &&& m.selected == o.selected
    &&& m.offset == o.offset
    &&& m.scroll_pos == o.scroll_pos
    &&& if editable {
        &&& m.inputs.len() == o.inputs.len()
        &&& forall|j: int| 0 <= j < o.inputs.len() && j != sel ==> m.inputs[j] == o.inputs[j]
        &&& m.inputs[sel].value@ == o.inputs[sel].value@.drop_last()
        &&& m.inputs[sel].limit == o.inputs[sel].limit
        &&& m.inputs[sel].title == o.inputs[sel].title
        &&& m.inputs[sel].placeholder == o.inputs[sel].placeholder
        &&& m.inputs[sel].invalid == o.inputs[sel].invalid
    } else {
        m.inputs == o.inputs
    }
}

/// Effect of Enter: on Cancel the application stops; on Start a valid form
/// yields the switch into the terminal with the parsed parameters, an
/// invalid one marks the failing fields and reports an error; on a field
/// nothing happens.
pub open spec fn menu_enter_rel(o: MenuModel, m: MenuModel) -> bool {
    if o.selected == 6 {
        m == o.with_state(State::Stopping)
    } else if o.selected == 7 {
        &&& same_layout(o, m)
        &&& m.selected == o.selected
        &&& m.offset == o.offset
        &&& m.scroll_pos == o.scroll_pos
        &&& m.inputs.len() == o.inputs.len()
        &&& forall|j: int| 0 <= j < o.inputs.len() ==> m.inputs[j] == (MenuInput {
            invalid: !field_ok(o, j),
            ..o.inputs[j]
        })
        &&& if values_valid(o) {
            m.state == State::Switching(Screen::Terminal, Some(parsed_params(o)))
        } else {
            m.state matches State::Error(e) && e@ == " Invalid input (ctrl+h) for help "@
        }
    } else {
        m == o
    }
}

fn validate_input(model: &MenuModel, input: char) -> (b: bool)
    ensures
        b == input_allowed(model.selected as int, input),
{
    if model.selected == 1 {
        digit_of(input) < 10
    } else if model.selected == 2 {
        let d = digit_of(input);
        5 <= d && d <= 8
    } else if model.selected == 3 {
        let d = digit_of(input);
        1 <= d && d <= 2
    } else {
        true
    }
}

fn update_element(model: &mut MenuModel, update: UpdateElement)
    requires
        old(model).wf(),
    ensures
        final(model).wf(),
        match update {
            UpdateElement::Add(c) => menu_add_rel(*old(model), *final(model), c),
            UpdateElement::Sub => menu_sub_rel(*old(model), *final(model)),
        },
{
    let sel = model.selected;
    if sel >= model.inputs.len() {
        // A button is selected; there is no field to edit.
        return ;
    }
    match update {
        UpdateElement::Add(input) => {
            let is_valid = validate_input(model, input);
            let within_limit = model.inputs[sel].value.unicode_len() < model.inputs[sel].limit;
            if within_limit && is_valid {
                let mut tmp = MenuInput::default();
                model.inputs.set_and_swap(sel, &mut tmp);
                tmp.value.push(input);
                model.inputs.set(sel, tmp);
                proof {
                    assert(model.inputs@ =~= old(model).inputs@.update(sel as int, model.inputs@[sel as int]));
                }
            }
        },
        UpdateElement::Sub => {
            if model.inputs[sel].value.unicode_len() > 0 {
                let mut tmp = MenuInput::default();
                model.inputs.set_and_swap(sel, &mut tmp);
                tmp.value.pop();
                model.inputs.set(sel, tmp);
                proof {
                    assert(model.inputs@ =~= old(model).inputs@.update(sel as int, model.inputs@[sel as int]));
                }
            }
        },
    }
}

fn update_scroll(model: &mut MenuModel)
    requires
        old(model).wf(),
    ensures
        final(model).wf(),
        final(model).offset as int == menu_scroll_offset(old(model).selected as int, old(model).split),
        final(model).scroll_pos == final(model).offset,
        *final(model) == (MenuModel {
            offset: final(model).offset,
            scroll_pos: final(model).scroll_pos,
            ..*old(model)
        }),
{
    if model.split {
        let adjustment: usize = if model.selected % 2 != 0 {
            model.selected - 1
        } else {
            model.selected
        };
        model.offset = (adjustment / 2) * 3;
        model.scroll_pos = model.offset;
    } else {
        model.offset = if model.selected != 7 {
            model.selected * 3
        } else {
            model.selected * 3 - 2
        };
        model.scroll_pos = model.offset;
    }
}

fn select_element(model: &mut MenuModel, direction: SelectElement)
    requires
        old(model).wf(),
    ensures
        final(model).wf(),
        menu_nav_rel(*old(model), *final(model), direction == SelectElement::Next),
{
    match direction {
        SelectElement::Previous => {
            if model.selected == 0 {
                model.selected = model.inputs.len() + 1;
            } else {
                model.selected = model.selected - 1;
            }
        },
        SelectElement::Next => {
            if model.selected == model.inputs.len() + 1 {
                model.selected = 0;
            } else {
                model.selected = model.selected + 1;
            }
        },
    }
    let min_height: usize = if model.split {
        CONTENT_LENGTH / 2 + 1
    } else {
        CONTENT_LENGTH
    };
    if (model.bounds.height as usize) <= min_height {
        update_scroll(model);
    }
}

/// Recomputes the split layout and the minimal geometry for the given
/// available width: side-by-side fields when the area is wide enough,
/// stacked fields otherwise.
pub fn update_split(model: &mut MenuModel, area: Bounds)
    requires
        old(model).wf(),
    ensures
        final(model).wf(),
        final(model).min_width == 2 * INPUT_WIDTH + GAP_WIDTH,
        final(model).split == (area.width as int >= final(model).min_width as int),
        final(model).min_height as int == if final(model).split {
            (old(model).inputs.len() as int / 2) * 3
        } else {
            old(model).inputs.len() as int * 3 + 1
        },
        *final(model) == (MenuModel {
            split: final(model).split,
            min_width: final(model).min_width,
            min_height: final(model).min_height,
            ..*old(model)
        }),
{
    model.split = true;
    // Width doubled to account for side-by-side inputs.
    model.min_width = INPUT_WIDTH * 2 + GAP_WIDTH;
    // Half the inputs per row, three lines per input.
    model.min_height = (model.inputs.len() / 2) * 3;
    if (area.width as usize) < model.min_width {
        model.min_height = model.inputs.len() * 3 + 1;
        model.split = false;
    }
}

/// Marks the field at `i` valid or invalid, keeping everything else.
fn set_invalid(inputs: &mut Vec<MenuInput>, i: usize, flag: bool)
    requires
        i < old(inputs).len(),
    ensures
        final(inputs)@ == old(inputs)@.update(i as int, (MenuInput { invalid: flag, ..old(inputs)@[i as int] })),
{
    let mut tmp = MenuInput::default();
    inputs.set_and_swap(i, &mut tmp);
    tmp.invalid = flag;
    inputs.set(i, tmp);
    proof {
        assert(inputs@ =~= old(inputs)@.update(i as int, (MenuInput { invalid: flag, ..old(inputs)@[i as int] })));
    }
}

fn validate_values(model: &mut MenuModel) -> (valid: bool)
    requires
        old(model).wf(),
    ensures
        final(model).wf(),
        valid == values_valid(*old(model)),
        *final(model) == (MenuModel { inputs: final(model).inputs, ..*old(model) }),
        final(model).inputs.len() == 6,
        forall|j: int| 0 <= j < 6 ==> final(model).inputs[j] == (MenuInput {
            invalid: !field_ok(*old(model), j),
            ..old(model).inputs[j]
        }),
{
    let ok0 = model.inputs[0].value.unicode_len() > 0;
    let ok1 = match parse_u32(model.inputs[1].value.as_str()) {
        Some(_) => true,
        None => false,
    };
    let ok2 = match parse_u32(model.inputs[2].value.as_str()) {
        Some(v) => 5 <= v && v <= 8,
        None => false,
    };
    let ok3 = match parse_u32(model.inputs[3].value.as_str()) {
        Some(v) => 1 <= v && v <= 2,
        None => false,
    };
    let ok4 = {
        let v = &model.inputs[4].value;
        eq_ignore_case(v.as_str(), "even") || eq_ignore_case(v.as_str(), "odd")
            || eq_ignore_case(v.as_str(), "none")
    };
    let ok5 = {
        let v = &model.inputs[5].value;
        eq_ignore_case(v.as_str(), "ascii") || eq_ignore_case(v.as_str(), "decimal")
            || eq_ignore_case(v.as_str(), "hex") || eq_ignore_case(v.as_str(), "octal")
    };
    set_invalid(&mut model.inputs, 0, !ok0);
    set_invalid(&mut model.inputs, 1, !ok1);
    set_invalid(&mut model.inputs, 2, !ok2);
    set_invalid(&mut model.inputs, 3, !ok3);
    set_invalid(&mut model.inputs, 4, !ok4);
    set_invalid(&mut model.inputs, 5, !ok5);
    ok0 && ok1 && ok2 && ok3 && ok4 && ok5
}

fn get_port_parameters(model: &MenuModel) -> (p: PortParameters)
    requires
        model.wf(),
        values_valid(*model),
    ensures
        p == parsed_params(*model),
{
    let baud_rate = match parse_u32(model.inputs[1].value.as_str()) {
        Some(v) => v,
        None => unreached(),
    };
    let data_bits = match parse_u32(model.inputs[2].value.as_str()) {
        Some(v) => v as u8,
        None => unreached(),
    };
    let stop_bits = match parse_u32(model.inputs[3].value.as_str()) {
        Some(v) => v as u8,
        None => unreached(),
    };
    let parity = if eq_ignore_case(model.inputs[4].value.as_str(), "even") {
        Parity::Even
    } else if eq_ignore_case(model.inputs[4].value.as_str(), "odd") {
        Parity::Odd
    } else {
        Parity::NoParity
    };
    let mode = if eq_ignore_case(model.inputs[5].value.as_str(), "ascii") {
        Mode::Ascii
    } else if eq_ignore_case(model.inputs[5].value.as_str(), "hex") {
        Mode::Hex
    } else if eq_ignore_case(model.inputs[5].value.as_str(), "decimal") {
        Mode::Decimal
    } else {
        Mode::Octal
    };
    PortParameters {
        name: Some(model.inputs[0].value.clone()),
        baud_rate: Some(baud_rate),
        data_bits: Some(data_bits),
        stop_bits: Some(stop_bits),
        parity: Some(parity),
        mode: Some(mode),
    }
}

fn update_state(model: &mut MenuModel)
    requires
        old(model).wf(),
    ensures
        final(model).wf(),
        menu_enter_rel(*old(model), *final(model)),
{
    let cancel_btn = model.inputs.len();
    let start_btn = cancel_btn + 1;
    if model.selected == cancel_btn {
        model.set_state(State::Stopping);
    } else if model.selected == start_btn {
        let valid = validate_values(model);
        if valid {
            let parameters = get_port_parameters(model);
            assert(parsed_params(*model) == parsed_params(*old(model)));
            model.set_state(State::Switching(Screen::Terminal, Some(parameters)));
        } else {
            model.set_state(
                State::Error(String::from_str(" Invalid input (ctrl+h) for help ")),
            );
        }
    }
}

proof fn lemma_menu_nav_chain(models: Seq<MenuModel>, forward: bool, k: int)
    requires
        0 <= k < models.len(),
        models[0].wf(),
        forall|i: int|
            0 <= i < models.len() - 1 ==> menu_nav_rel(#[trigger] models[i], models[i + 1], forward),
    ensures
        models[k].selected as int == if forward {
            iter_next(models[0].selected as int, 8, k as nat)
        } else {
            iter_prev(models[0].selected as int, 8, k as nat)
        },
    decreases k,
{
    if k > 0 {
        lemma_menu_nav_chain(models, forward, k - 1);
    }
}

/// Cyclic navigation: the menu offers eight selectable elements (six
/// fields and two buttons), and eight successive steps in one direction
/// (each related to the previous model by `menu_nav_rel`, as every
/// `NextElement`/`PreviousElement` update is) return the selection to
/// where it started.
pub proof fn lemma_menu_nav_cycle(models: Seq<MenuModel>, forward: bool)
    requires
        models[0].wf(),
        models.len() == 9,
        forall|i: int|
            0 <= i < models.len() - 1 ==> menu_nav_rel(#[trigger] models[i], models[i + 1], forward),
    ensures
        models.last().selected == models[0].selected,
{
    lemma_menu_nav_chain(models, forward, 8);
    if forward {
        lemma_next_cycle(models[0].selected as int, 8);
    } else {
        lemma_prev_cycle(models[0].selected as int, 8);
    }
}

/// What a valid form parses into is itself valid: every field populated,
/// the bit counts in range.
pub proof fn lemma_parsed_params_valid(m: MenuModel)
    requires
        m.wf(),
        values_valid(m),
    ensures
        parsed_params(m).valid(),
{
}

proof fn lemma_parity_canonical(p: Parity)
    ensures
        parity_of(p.spec_str()) == Some(p),
{
    match p {
        Parity::Even => {
            reveal_strlit("Even");
            reveal_strlit("even");
            assert(lower_seq("Even"@) =~= "even"@);
        },
        Parity::Odd => {
            reveal_strlit("Odd");
            reveal_strlit("odd");
            reveal_strlit("even");
            assert(lower_seq("Odd"@).len() != "even"@.len());
            assert(lower_seq("Odd"@) =~= "odd"@);
        },
        Parity::NoParity => {
            reveal_strlit("None");
            reveal_strlit("none");
            reveal_strlit("even");
            reveal_strlit("odd");
            assert(lower_seq("None"@)[0] == 'n');
            assert(lower_seq("None"@) != "even"@);
            assert(lower_seq("None"@).len() != "odd"@.len());
            assert(lower_seq("None"@) =~= "none"@);
        },
    }
}

proof fn lemma_mode_canonical(m: Mode)
    ensures
        mode_of(m.spec_str()) == Some(m),
{
    match m {
        Mode::Ascii => {
            reveal_strlit("Ascii");
            reveal_strlit("ascii");
            assert(lower_seq("Ascii"@) =~= "ascii"@);
        },
        Mode::Hex => {
            reveal_strlit("Hex");
            reveal_strlit("hex");
            reveal_strlit("ascii");
            assert(lower_seq("Hex"@).len() != "ascii"@.len());
            assert(lower_seq("Hex"@) =~= "hex"@);
        },
        Mode::Decimal => {
            reveal_strlit("Decimal");
            reveal_strlit("decimal");
            reveal_strlit("ascii");
            reveal_strlit("hex");
            assert(lower_seq("Decimal"@).len() != "ascii"@.len());
            assert(lower_seq("Decimal"@).len() != "hex"@.len());
            assert(lower_seq("Decimal"@) =~= "decimal"@);
        },
        Mode::Octal => {
            reveal_strlit("Octal");
            reveal_strlit("octal");
            reveal_strlit("ascii");
            reveal_strlit("hex");
            reveal_strlit("decimal");
            assert(lower_seq("Octal"@)[0] == 'o');
            assert(lower_seq("Octal"@) != "ascii"@);
            assert(lower_seq("Octal"@).len() != "hex"@.len());
            assert(lower_seq("Octal"@).len() != "decimal"@.len());
            assert(lower_seq("Octal"@) =~= "octal"@);
        },
    }
}

/// A menu pre-filled from valid parameters (every field populated and in
/// range, with a non-empty port name) passes validation, and submitting
/// Start reads the same parameters back: every field agrees, the name as
/// the same character sequence. Together with `menu_enter_rel` this says
/// that Enter on Start then yields `Switching(Terminal, Some(params))`,
/// while any menu whose form fails validation yields an error state and
/// stays on the menu.
pub proof fn lemma_valid_params_submit(m: MenuModel, p: PortParameters)
    requires
        p.valid(),
        p.name matches Some(n) && n@.len() > 0,
        is_menu_from(m, p),
    ensures
        values_valid(m),
        parsed_params(m).name matches Some(n) && n@ == p.name.unwrap()@,
        parsed_params(m).baud_rate == p.baud_rate,
        parsed_params(m).data_bits == p.data_bits,
        parsed_params(m).stop_bits == p.stop_bits,
        parsed_params(m).parity == p.parity,
        parsed_params(m).mode == p.mode,
{
    lemma_dec_roundtrip(p.baud_rate.unwrap() as nat);
    lemma_dec_roundtrip(p.data_bits.unwrap() as nat);
    lemma_dec_roundtrip(p.stop_bits.unwrap() as nat);
    lemma_parity_canonical(p.parity.unwrap());
    lemma_mode_canonical(p.mode.unwrap());
}

impl MenuModel {
    /// One update step of the menu screen. Every message is handled; the
    /// ones without a menu meaning leave the model unchanged. The returned
    /// state is the model's state after the step.
    pub fn update(&mut self, msg: Message) -> (s: State)
        requires
            old(self).wf(),
        ensures
            final(self).wf(),
            s == final(self).spec_state(),
            match msg {
                Message::PreviousElement => menu_nav_rel(*old(self), *final(self), false),
                Message::NextElement => menu_nav_rel(*old(self), *final(self), true),
                Message::Input(c) => menu_add_rel(*old(self), *final(self), c),
                Message::Backspace => menu_sub_rel(*old(self), *final(self)),
                Message::Enter => menu_enter_rel(*old(self), *final(self)),
                Message::Quit => *final(self) == old(self).with_state(State::Stopping),
                _ => *final(self) == *old(self),
            },
    {
        match msg {
            Message::PreviousElement => {
                select_element(self, SelectElement::Previous);
            },
            Message::NextElement => {
                select_element(self, SelectElement::Next);
            },
            Message::Input(input) => {
                update_element(self, UpdateElement::Add(input));
            },
            Message::Backspace => {
                update_element(self, UpdateElement::Sub);
            },
            Message::Enter => update_state(self),
            Message::Quit => self.set_state(State::Stopping),
            _ => {},
        }
        self.get_state()
    }
}

} // verus!
