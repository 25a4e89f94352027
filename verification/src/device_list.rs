//! The device-list screen: shows the serial devices found on the machine
//! and lets the user pick one; picking returns to the menu with the port
//! name pre-filled. The list itself is supplied by the caller, since
//! enumerating devices is platform I/O.

use vstd::prelude::*;
use crate::common::{
    Bounds, Message, Nolp, PortParameters, Screen, State, iter_next, iter_prev, lemma_next_cycle,
    lemma_prev_cycle, next_index, prev_index,
};

verus! {

/// Scroll span of the device list, used by the scroll logic.
pub const CONTENT_LENGTH: usize = 20;

/// The device-list screen model.
#[derive(Debug, PartialEq)]
pub struct DeviceListModel {
    pub state: State,
    pub bounds: Bounds,
    pub offset: usize,
    pub selected: usize,
    pub devices: Vec<String>,
    pub scroll_pos: usize,
}

/// Direction of a cyclic selection step.
#[derive(Debug, PartialEq)]
pub enum SelectElement {
    Previous,
    Next,
}

impl DeviceListModel {
    /// Well-formedness: the selection points at a device whenever there is
    /// one.
    pub open spec fn wf(self) -> bool {
        self.devices.len() > 0 ==> self.selected < self.devices.len()
    }
}

impl Nolp for DeviceListModel {
    open spec fn spec_state(&self) -> State {
        self.state
    }

    open spec fn with_state(&self, s: State) -> DeviceListModel {
        DeviceListModel { state: s, ..*self }
    }

    fn get_state(&self) -> (s: State)
        ensures
            s == self.spec_state(),
    {
        self.state.clone()
    }

    fn set_state(&mut self, s: State)
        ensures
            *final(self) == old(self).with_state(s),
    {
        self.state = s;
    }
}

/// A freshly constructed device list: empty, unscrolled, running.
pub open spec fn is_default_device_list(m: DeviceListModel) -> bool {
    &&& m.state == State::Running
    &&& m.bounds == (Bounds { width: 0, height: 0 })
    &&& m.offset == 0
    &&& m.selected == 0
    &&& m.devices@ == Seq::<String>::empty()
    &&& m.scroll_pos == 0
}

impl Default for DeviceListModel {
    fn default() -> (r: DeviceListModel)
        ensures
            r.wf(),
            is_default_device_list(r),
    {
        DeviceListModel {
            offset: 0,
            selected: 0,
            devices: Vec::new(),
            state: State::Running,
            bounds: Bounds::default(),
            scroll_pos: 0,
        }
    }
}

/// Effect of a navigation step: cyclic over the devices, scrolled into view
/// when the list does not fit its bounds; nothing happens on an empty list.
pub open spec fn device_nav_rel(o: DeviceListModel, m: DeviceListModel, forward: bool) -> bool {
    if o.devices.len() == 0 {
        m == o
    } else {
        let sel = if forward {
            next_index(o.selected as int, o.devices.len() as int)
        } else {
            prev_index(o.selected as int, o.devices.len() as int)
        };
        let scrolled = o.bounds.height as int <= CONTENT_LENGTH as int;
        &&& m.state == o.state
        &&& m.bounds == o.bounds
        &&& m.devices == o.devices
        &&& m.selected as int == sel
        &&& m.offset as int == if scrolled {
            sel
        } else {
            o.offset as int
        }
        &&& m.scroll_pos as int == if scrolled {
            sel
        } else {
            o.scroll_pos as int
        }
    }
}

/// Effect of Enter: with devices present, switch to the menu with the
/// selected port name pre-filled; with none, switch to an empty menu.
pub open spec fn device_enter_rel(o: DeviceListModel, m: DeviceListModel) -> bool {
    if o.devices.len() > 0 {
        m == o.with_state(
            State::Switching(
                Screen::Menu,
                Some(
                    PortParameters {
                        name: Some(o.devices[o.selected as int]),
                        ..PortParameters::spec_default()
                    },
                ),
            ),
        )
    } else {
        m == o.with_state(State::Switching(Screen::Menu, None))
    }
}

proof fn lemma_device_nav_chain(models: Seq<DeviceListModel>, forward: bool, k: int)
    requires
        0 <= k < models.len(),
        models[0].devices.len() > 0,
        models[0].wf(),
        forall|i: int|
            0 <= i < models.len() - 1 ==> device_nav_rel(
                #[trigger] models[i],
                models[i + 1],
                forward,
            ),
    ensures
        models[k].devices == models[0].devices,
        models[k].wf(),
        models[k].selected as int == if forward {
            iter_next(models[0].selected as int, models[0].devices.len() as int, k as nat)
        } else {
            iter_prev(models[0].selected as int, models[0].devices.len() as int, k as nat)
        },
    decreases k,
{
    if k > 0 {
        lemma_device_nav_chain(models, forward, k - 1);
    }
}

/// Cyclic navigation: from a device list with N devices, N successive
/// steps in one direction (each related to the previous model by
/// `device_nav_rel`, as every `NextElement`/`PreviousElement` update is)
/// return the selection to where it started.
pub proof fn lemma_device_nav_cycle(models: Seq<DeviceListModel>, forward: bool)
    requires
        models[0].devices.len() > 0,
        models[0].wf(),
        models.len() == models[0].devices.len() + 1,
        forall|i: int|
            0 <= i < models.len() - 1 ==> device_nav_rel(
                #[trigger] models[i],
                models[i + 1],
                forward,
            ),
    ensures
        models.last().selected == models[0].selected,
{
    let n = models[0].devices.len() as int;
    lemma_device_nav_chain(models, forward, n);
    if forward {
        lemma_next_cycle(models[0].selected as int, n);
    } else {
        lemma_prev_cycle(models[0].selected as int, n);
    }
}

/// One cyclic selection step over the listed devices.
pub fn select_element(model: &mut DeviceListModel, direction: SelectElement)
    requires
        old(model).wf(),
    ensures
        final(model).wf(),
        device_nav_rel(*old(model), *final(model), direction == SelectElement::Next),
{
    if model.devices.len() == 0 {
        return ;
    }
    match direction {
        SelectElement::Previous => {
            if model.selected == 0 {
                model.selected = model.devices.len() - 1;
            } else {
                model.selected = model.selected - 1;
            }
        },
        SelectElement::Next => {
            if model.selected == model.devices.len() - 1 {
                model.selected = 0;
            } else {
                model.selected = model.selected + 1;
            }
        },
    }
    if model.bounds.height <= CONTENT_LENGTH as u16 {
        model.offset = model.selected;
        model.scroll_pos = model.offset;
    }
}

fn switch_screen(model: &mut DeviceListModel)
    requires
        old(model).wf(),
    ensures
        final(model).wf(),
        device_enter_rel(*old(model), *final(model)),
{
    if model.devices.len() > 0 {
        let port_name = model.devices[model.selected].clone();
        let mut parameters = PortParameters::default();
        let parameters = parameters.name(port_name);
        model.set_state(State::Switching(Screen::Menu, Some(parameters)));
    } else {
        model.set_state(State::Switching(Screen::Menu, None));
    }
}

impl DeviceListModel {
    /// Replaces the listed devices (freshly enumerated by the caller),
    /// keeping the selection when it still points at a device and resetting
    /// it to the top otherwise.
    pub fn set_devices(&mut self, devices: Vec<String>)
        ensures
            final(self).wf(),
            *final(self) == (DeviceListModel {
                devices,
                selected: final(self).selected,
                ..*old(self)
            }),
            final(self).selected == if old(self).selected < devices.len() {
                old(self).selected
            } else {
                0
            },
    {
        if self.selected >= devices.len() {
            self.selected = 0;
        }
        self.devices = devices;
    }

    /// One update step of the device-list screen. Every message is handled;
    /// the ones without a device-list meaning leave the model unchanged.
    pub fn update(&mut self, msg: Message) -> (s: State)
        requires
            old(self).wf(),
        ensures
            final(self).wf(),
            s == final(self).spec_state(),
            match msg {
                Message::PreviousElement => device_nav_rel(*old(self), *final(self), false),
                Message::NextElement => device_nav_rel(*old(self), *final(self), true),
                Message::Enter => device_enter_rel(*old(self), *final(self)),
                _ => *final(self) == *old(self),
            },
    {
        match msg {
            Message::PreviousElement => {
                select_element(self, SelectElement::Previous);
            },
            Message::NextElement => {
                select_element(self, SelectElement::Next);
            },
            Message::Enter => {
                switch_screen(self);
            },
            _ => {},
        }
        self.get_state()
    }
}

} // verus!
