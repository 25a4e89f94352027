//! The scene: owner of the one active screen model, the screen-transition
//! table, the key-to-message mapping, and the tick-time exchange between
//! the terminal screen and the shared serial buffers. Leaving the terminal
//! screen signals the bridge to shut down before the model is torn down;
//! entering it stores the validated parameters and raises the flag.

use vstd::prelude::*;
use crate::common::{
    Message, Nolp, PortParameters, Screen, SerialBuffer, SerialFlag, SerialParams, State,
    DEVICE_LIST_CHAR, HELP_CHAR, MENU_CHAR, NEXT_ELEMENT_CHAR, PAUSE_CHAR, PREVIOUS_ELEMENT_CHAR,
    QUIT_CHAR, RESUME_CHAR,
};
use crate::device_list::{DeviceListModel, is_default_device_list};
use crate::help::{HelpModel, is_help_from};
use crate::menu::{MenuModel, is_default_menu, is_menu_from, lemma_parsed_params_valid};
use crate::serial::{close_connection, open_connection};
use crate::terminal::{TerminalModel, terminal_rx_rel};

verus! {

/// The owner of the single active screen model.
#[derive(Debug, PartialEq)]
pub struct Scene {
    pub screen: Screen,
    pub help: Option<HelpModel>,
    pub menu: Option<MenuModel>,
    pub terminal: Option<TerminalModel>,
    pub device_list: Option<DeviceListModel>,
}

impl Scene {
    /// The state of the active screen model.
    pub open spec fn active_state(self) -> State {
        match self.screen {
            Screen::Menu => self.menu.unwrap().state,
            Screen::Help => self.help.unwrap().state,
            Screen::Terminal => self.terminal.unwrap().state,
            Screen::DeviceList => self.device_list.unwrap().state,
        }
    }

    /// Exactly the model of the active screen is alive, and it is itself
    /// well-formed.
    pub open spec fn models_wf(self) -> bool {
        match self.screen {
            Screen::Menu => {
                &&& self.menu matches Some(m) && m.wf()
                &&& self.help is None
                &&& self.terminal is None
                &&& self.device_list is None
            },
            Screen::Help => {
                &&& self.help matches Some(h) && h.wf()
                &&& self.menu is None
                &&& self.terminal is None
                &&& self.device_list is None
            },
            Screen::Terminal => {
                &&& self.terminal matches Some(t) && t.wf()
                &&& self.menu is None
                &&& self.help is None
                &&& self.device_list is None
            },
            Screen::DeviceList => {
                &&& self.device_list matches Some(d) && d.wf()
                &&& self.menu is None
                &&& self.help is None
                &&& self.terminal is None
            },
        }
    }

    /// Well-formedness: exactly the model of the active screen is alive and
    /// itself well-formed, and no transient `Switching` state rests in it
    /// between update steps.
    pub open spec fn wf(self) -> bool {
        &&& self.models_wf()
        &&& !(self.active_state() is Switching)
    }
}

impl Default for Scene {
    /// The application starts on an empty menu.
    fn default() -> (r: Scene)
        ensures
            r.wf(),
            r.screen == Screen::Menu,
            r.menu matches Some(m) && is_default_menu(m),
    {
        Scene {
            help: None,
            terminal: None,
            device_list: None,
            screen: Screen::Menu,
            menu: Some(MenuModel::default()),
        }
    }
}

/// Tears down the current screen model and constructs the target screen's,
/// exactly as the transition table prescribes: a menu is pre-filled from
/// the handed-over parameters; the device list starts empty; help remembers
/// the calling screen and its parameters; entering the terminal stores the
/// validated parameters and raises the flag, and leaving the terminal first
/// signals the bridge to shut down. Switching to the current screen does
/// nothing.
pub fn switch_screen(
    scene: &mut Scene,
    new: Screen,
    port_params: Option<PortParameters>,
    flag: &mut SerialFlag,
    serial_params: &mut SerialParams,
)
    requires
        old(scene).models_wf(),
        new == Screen::Terminal ==> (port_params matches Some(p) && p.valid()),
        new == Screen::Help && old(scene).screen == Screen::Terminal ==> (port_params matches Some(
            p,
        ) && p.valid()),
    ensures
        final(scene).models_wf(),
        new == old(scene).screen ==> *final(scene) == *old(scene) && *final(flag) == *old(flag)
            && *final(serial_params) == *old(serial_params),
        new != old(scene).screen ==> final(scene).wf(),
        new != old(scene).screen ==> {
            &&& final(scene).screen == new
            &&& old(scene).screen == Screen::Terminal ==> !final(flag).value
            &&& old(scene).screen != Screen::Terminal && new != Screen::Terminal ==> *final(flag)
                == *old(flag)
            &&& new != Screen::Terminal ==> *final(serial_params) == *old(serial_params)
            &&& match new {
                Screen::Menu => final(scene).menu matches Some(m) && (match port_params {
                    Some(p) => is_menu_from(m, p),
                    None => is_default_menu(m),
                }),
                Screen::DeviceList => final(scene).device_list matches Some(d)
                    && is_default_device_list(d),
                Screen::Help => final(scene).help matches Some(h) && is_help_from(
                    h,
                    old(scene).screen,
                    port_params,
                ),
                Screen::Terminal => {
                    &&& final(scene).terminal matches Some(t) && t.parameters
                        == port_params.unwrap() && t.state == State::Running && t.buffer@
                        == Seq::<crate::terminal::DataByte>::empty() && t.out@
                        == Seq::<u8>::empty() && t.input@ == Seq::<char>::empty()
                    &&& final(flag).value
                    &&& final(serial_params).value == port_params.unwrap()
                },
            }
        },
{
    if scene.screen == new {
        return ;
    }
    if matches!(scene.screen, Screen::Terminal) {
        // Signalling shutdown must succeed before the terminal model may be
        // torn down; otherwise the device handle would leak.
        let closed = close_connection(flag);
        if !closed {
            return ;
        }
    }
    match new {
        Screen::Menu => {
            let model = match port_params {
                Some(p) => MenuModel::new(p),
                None => MenuModel::default(),
            };
            scene.help = None;
            scene.terminal = None;
            scene.device_list = None;
            scene.menu = Some(model);
        },
        Screen::DeviceList => {
            scene.menu = None;
            scene.help = None;
            scene.terminal = None;
            scene.device_list = Some(DeviceListModel::default());
        },
        Screen::Help => {
            let caller = scene.screen;
            scene.menu = None;
            scene.terminal = None;
            scene.device_list = None;
            scene.help = Some(HelpModel::new(caller, port_params));
        },
        Screen::Terminal => {
            scene.help = None;
            scene.menu = None;
            scene.device_list = None;
            let params = match port_params {
                Some(p) => p,
                None => unreached(),
            };
            let model_params = params.clone();
            let opened = open_connection(flag, serial_params, params);
            if opened {
                scene.terminal = Some(TerminalModel::new(model_params));
            }
        },
    }
    scene.screen = new;
}

/// Dispatches a message to the active screen model and consumes a
/// transient `Switching` result by performing the transition; `*state` is
/// left with the model's resulting state, or `Running` after a performed
/// transition. The serial flag is raised exactly by a transition into the
/// terminal screen and cleared exactly by one out of it.
pub fn update(
    scene: &mut Scene,
    state: &mut State,
    msg: Message,
    flag: &mut SerialFlag,
    serial_params: &mut SerialParams,
)
    requires
        old(scene).wf(),
    ensures
        final(scene).wf(),
        !(*final(state) is Switching),
        old(scene).screen != Screen::Terminal && final(scene).screen != Screen::Terminal
            ==> *final(flag) == *old(flag) && *final(serial_params) == *old(serial_params),
        old(scene).screen == Screen::Terminal && final(scene).screen != Screen::Terminal ==> !final(flag).value,
        old(scene).screen != Screen::Terminal && final(scene).screen == Screen::Terminal ==> final(flag).value && final(serial_params).value.valid(),
        old(scene).screen == Screen::Terminal && final(scene).screen == Screen::Terminal
            ==> *final(flag) == *old(flag) && *final(serial_params) == *old(serial_params),
        msg matches Message::Rx(data) ==> old(scene).screen == Screen::Terminal ==> {
            &&& final(scene).screen == Screen::Terminal
            &&& old(scene).terminal matches Some(ot) && (final(scene).terminal matches Some(t)
                && terminal_rx_rel(ot, t, data@) && *final(state) == t.state)
        },
        old(scene).screen == Screen::Menu && (msg matches Message::Enter) && old(scene).menu.unwrap().selected == 7 ==> {
            let m = old(scene).menu.unwrap();
            if crate::menu::values_valid(m) {
                &&& final(scene).screen == Screen::Terminal
                &&& final(scene).terminal matches Some(t) && t.parameters
                    == crate::menu::parsed_params(m)
                &&& final(flag).value
                &&& final(serial_params).value == crate::menu::parsed_params(m)
                &&& *final(state) == State::Running
            } else {
                &&& final(scene).screen == Screen::Menu
                &&& *final(state) matches State::Error(e) && e@
                    == " Invalid input (ctrl+h) for help "@
            }
        },
        old(scene).screen == Screen::Menu && (msg matches Message::Enter) && old(scene).menu.unwrap().selected == 6 ==> final(scene).screen == Screen::Menu && *final(state)
            == State::Stopping,
        old(scene).screen == Screen::Menu && (msg matches Message::Quit) ==> final(scene).screen
            == Screen::Menu && *final(state) == State::Stopping,
        old(scene).screen == Screen::DeviceList && (msg matches Message::Enter) ==> final(scene).screen == Screen::Menu && *final(state) == State::Running,
        old(scene).screen == Screen::Help && (msg matches Message::Enter) ==> final(scene).screen
            == old(scene).help.unwrap().caller && *final(state) == State::Running,
{
    let result: State = match scene.screen {
        Screen::Menu => match &mut scene.menu {
            Some(model) => model.update(msg),
            None => unreached(),
        },
        Screen::DeviceList => match &mut scene.device_list {
            Some(model) => model.update(msg),
            None => unreached(),
        },
        Screen::Help => match &mut scene.help {
            Some(model) => model.update(msg),
            None => unreached(),
        },
        Screen::Terminal => match &mut scene.terminal {
            Some(model) => model.update(msg),
            None => unreached(),
        },
    };
    match result {
        State::Switching(s, p) => {
            proof {
                if scene.screen is Menu {
                    lemma_parsed_params_valid(old(scene).menu.unwrap());
                }
            }
            switch_screen(scene, s, p, flag, serial_params);
            *state = State::Running;
        },
        other => {
            *state = other;
        },
    }
}

/// The parameters the active screen can hand to a transition: the help
/// screen passes on its caller's, the terminal its connection's, and the
/// other screens none.
pub open spec fn scene_parameters(s: Scene) -> Option<PortParameters> {
    match s.screen {
        Screen::Help => s.help.unwrap().parameters,
        Screen::Terminal => Some(s.terminal.unwrap().parameters),
        _ => None,
    }
}

/// Reads the parameters the active screen would hand to a transition.
pub fn get_parameters(scene: &Scene) -> (p: Option<PortParameters>)
    requires
        scene.wf(),
    ensures
        p == scene_parameters(*scene),
{
    match scene.screen {
        Screen::Help => match &scene.help {
            Some(h) => match &h.parameters {
                Some(q) => Some(q.clone()),
                None => None,
            },
            None => unreached(),
        },
        Screen::Terminal => match &scene.terminal {
            Some(t) => Some(t.parameters.clone()),
            None => unreached(),
        },
        _ => None,
    }
}

/// The base meaning of a pressed key, as far as the update logic
/// distinguishes it.
#[derive(Clone, Copy, Debug, PartialEq, Eq, Structural)]
pub enum KeyCode {
    Char(char),
    Backspace,
    Enter,
    Other,
}

/// One pressed key as delivered by the input layer: its base meaning plus
/// whether the control modifier was held.
#[derive(Clone, Copy, Debug, PartialEq, Eq, Structural)]
pub struct KeyPress {
    pub code: KeyCode,
    pub ctrl: bool,
}

/// The message a pressed key maps to: with the control modifier, the
/// global shortcuts (quit, screen switches, element navigation,
/// pause/resume); without it, plain characters, backspace and enter are
/// routed to the active screen.
pub open spec fn message_for(s: Scene, key: KeyPress) -> Option<Message> {
    match key.code {
        KeyCode::Char(c) => if key.ctrl {
            if c == QUIT_CHAR {
                Some(Message::Quit)
            } else if c == DEVICE_LIST_CHAR {
                Some(Message::Switching(Screen::DeviceList, None))
            } else if c == MENU_CHAR {
                Some(Message::Switching(Screen::Menu, scene_parameters(s)))
            } else if c == HELP_CHAR {
                Some(Message::Switching(Screen::Help, scene_parameters(s)))
            } else if c == PREVIOUS_ELEMENT_CHAR {
                Some(Message::PreviousElement)
            } else if c == NEXT_ELEMENT_CHAR {
                Some(Message::NextElement)
            } else if c == PAUSE_CHAR {
                Some(Message::Pause)
            } else if c == RESUME_CHAR {
                Some(Message::Resume)
            } else {
                None
            }
        } else {
            Some(Message::Input(c))
        },
        KeyCode::Backspace => Some(Message::Backspace),
        KeyCode::Enter => Some(Message::Enter),
        KeyCode::Other => None,
    }
}

/// Maps one pressed key to its message, reading the active screen's
/// parameters for the transitions that carry them.
pub fn get_message(scene: &Scene, key: KeyPress) -> (m: Option<Message>)
    requires
        scene.wf(),
    ensures
        m == message_for(*scene, key),
{
    match key.code {
        KeyCode::Char(c) => {
            if key.ctrl {
                if c == QUIT_CHAR {
                    Some(Message::Quit)
                } else if c == DEVICE_LIST_CHAR {
                    Some(Message::Switching(Screen::DeviceList, None))
                } else if c == MENU_CHAR {
                    Some(Message::Switching(Screen::Menu, get_parameters(scene)))
                } else if c == HELP_CHAR {
                    Some(Message::Switching(Screen::Help, get_parameters(scene)))
                } else if c == PREVIOUS_ELEMENT_CHAR {
                    Some(Message::PreviousElement)
                } else if c == NEXT_ELEMENT_CHAR {
                    Some(Message::NextElement)
                } else if c == PAUSE_CHAR {
                    Some(Message::Pause)
                } else if c == RESUME_CHAR {
                    Some(Message::Resume)
                } else {
                    None
                }
            } else {
                Some(Message::Input(c))
            }
        },
        KeyCode::Backspace => Some(Message::Backspace),
        KeyCode::Enter => Some(Message::Enter),
        KeyCode::Other => None,
    }
}

/// Handles one message at the application-loop level: `Quit` stops the
/// application, an explicit `Switching` is performed directly, and every
/// other message goes to the active screen model via `update`.
pub fn handle_message(
    scene: &mut Scene,
    state: &mut State,
    msg: Message,
    flag: &mut SerialFlag,
    serial_params: &mut SerialParams,
)
    requires
        old(scene).wf(),
        !(*old(state) is Switching),
        msg matches Message::Switching(s, p) ==> (s == Screen::Terminal ==> (p matches Some(q)
            && q.valid())) && (s == Screen::Help && old(scene).screen == Screen::Terminal
            ==> (p matches Some(q2) && q2.valid())),
    ensures
        final(scene).wf(),
        !(*final(state) is Switching),
        msg matches Message::Quit ==> *final(state) == State::Stopping && *final(scene) == *old(scene) && *final(flag) == *old(flag),
        msg matches Message::Switching(s, p) ==> final(scene).screen == s && *final(state)
            == *old(state),
        old(scene).screen != Screen::Terminal && final(scene).screen != Screen::Terminal
            ==> *final(flag) == *old(flag) && *final(serial_params) == *old(serial_params),
        old(scene).screen == Screen::Terminal && final(scene).screen != Screen::Terminal ==> !final(flag).value,
        old(scene).screen != Screen::Terminal && final(scene).screen == Screen::Terminal ==> final(flag).value && final(serial_params).value.valid(),
        old(scene).screen == Screen::Terminal && final(scene).screen == Screen::Terminal
            ==> *final(flag) == *old(flag) && *final(serial_params) == *old(serial_params),
{
    match msg {
        Message::Quit => {
            *state = State::Stopping;
        },
        Message::Switching(s, p) => {
            switch_screen(scene, s, p, flag, serial_params);
        },
        m => {
            update(scene, state, m, flag, serial_params);
        },
    }
}

/// One tick of the terminal screen's buffer exchange: bytes accumulated in
/// the shared incoming buffer are delivered to the terminal as one `Rx`
/// message and the buffer is drained; bytes the terminal has queued for
/// sending are moved into the shared outgoing buffer.
pub fn send_receive(
    scene: &mut Scene,
    state: &mut State,
    flag: &mut SerialFlag,
    rx: &mut SerialBuffer,
    tx: &mut SerialBuffer,
    serial_params: &mut SerialParams,
)
    requires
        old(scene).wf(),
        old(scene).screen == Screen::Terminal,
    ensures
        final(scene).wf(),
        final(scene).screen == Screen::Terminal,
        *final(flag) == *old(flag),
        *final(serial_params) == *old(serial_params),
        final(rx).data@ == Seq::<u8>::empty(),
        final(tx).data@ == old(tx).data@ + old(scene).terminal.unwrap().out@,
        final(scene).terminal matches Some(t) && t.out@ == Seq::<u8>::empty(),
        old(rx).data@.len() > 0 ==> terminal_rx_rel(
            old(scene).terminal.unwrap(),
            (TerminalModel {
                out: old(scene).terminal.unwrap().out,
                ..final(scene).terminal.unwrap()
            }),
            old(rx).data@,
        ),
        old(rx).data@.len() == 0 ==> (TerminalModel {
            out: old(scene).terminal.unwrap().out,
            ..final(scene).terminal.unwrap()
        }) == old(scene).terminal.unwrap(),
{
    if rx.data.len() > 0 {
        let mut data: Vec<u8> = Vec::new();
        core::mem::swap(&mut data, &mut rx.data);
        update(scene, state, Message::Rx(data), flag, serial_params);
    }
    match &mut scene.terminal {
        Some(t) => {
            let mut buffer = t.get_output_buffer();
            if buffer.len() > 0 {
                tx.data.append(&mut buffer);
                t.clear_output_buffer();
            } else {
                proof {
                    assert(tx.data@ =~= old(tx).data@ + t.out@);
                }
            }
        },
        None => {
            proof {
                assert(false);
            }
        },
    }
}

} // verus!
