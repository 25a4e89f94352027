//! The help screen: a scrollable page of key bindings and expected field
//! values. It remembers which screen it was opened from, together with that
//! screen's parameters, so that Enter returns to the caller.

use vstd::prelude::*;
use crate::common::{
    Bounds, Message, Nolp, PortParameters, Screen, State, iter_next, iter_prev, lemma_next_cycle,
    lemma_prev_cycle, next_index, prev_index,
};

verus! {

/// Scroll span of the help page, used by the scroll logic.
pub const CONTENT_LENGTH: usize = 18;

/// The help screen model.
#[derive(Debug, PartialEq)]
pub struct HelpModel {
    pub state: State,
    pub bounds: Bounds,
    pub offset: usize,
    pub caller: Screen,
    pub scroll_pos: usize,
    pub parameters: Option<PortParameters>,
}

impl HelpModel {
    /// Well-formedness: the scroll offset stays on the page, help is never
    /// its own caller, and a terminal caller always left its (validated)
    /// connection parameters, so that returning can re-enter the terminal.
    pub open spec fn wf(self) -> bool {
        &&& self.offset <= CONTENT_LENGTH
        &&& self.caller != Screen::Help
        &&& self.caller == Screen::Terminal ==> match self.parameters {
            Some(p) => p.valid(),
            None => false,
        }
    }
}

impl Nolp for HelpModel {
    open spec fn spec_state(&self) -> State {
        self.state
    }

    open spec fn with_state(&self, s: State) -> HelpModel {
        HelpModel { state: s, ..*self }
    }

    fn get_state(&self) -> (s: State)
        ensures
            s == self.spec_state(),
    {
        self.state.clone()
    }

    fn set_state(&mut self, s: State)
        ensures
            *final(self) == old(self).with_state(s),
    {
        self.state = s;
    }
}

/// A freshly constructed help screen remembering its caller.
pub open spec fn is_help_from(m: HelpModel, caller: Screen, parameters: Option<PortParameters>) -> bool {
    m == (HelpModel {
        offset: 0,
        parameters,
        caller,
        state: State::Running,
        bounds: Bounds { width: 0, height: 0 },
        scroll_pos: 0,
    })
}

/// Effect of a scroll step: cyclic over the page's lines (the offset
/// ranges over `CONTENT_LENGTH + 1` positions), everything else kept.
pub open spec fn help_nav_rel(o: HelpModel, m: HelpModel, forward: bool) -> bool {
    &&& m == (HelpModel { offset: m.offset, scroll_pos: m.scroll_pos, ..o })
    &&& m.offset as int == if forward {
        next_index(o.offset as int, CONTENT_LENGTH as int + 1)
    } else {
        prev_index(o.offset as int, CONTENT_LENGTH as int + 1)
    }
    &&& m.scroll_pos == m.offset
}

proof fn lemma_help_nav_chain(models: Seq<HelpModel>, forward: bool, k: int)
    requires
        0 <= k < models.len(),
        models[0].wf(),
        forall|i: int|
            0 <= i < models.len() - 1 ==> help_nav_rel(#[trigger] models[i], models[i + 1], forward),
    ensures
        models[k].offset as int == if forward {
            iter_next(models[0].offset as int, CONTENT_LENGTH as int + 1, k as nat)
        } else {
            iter_prev(models[0].offset as int, CONTENT_LENGTH as int + 1, k as nat)
        },
    decreases k,
{
    if k > 0 {
        lemma_help_nav_chain(models, forward, k - 1);
    }
}

/// Cyclic scrolling: the help page has `CONTENT_LENGTH + 1` scroll
/// positions, and that many successive steps in one direction (each
/// related to the previous model by `help_nav_rel`, as every
/// `NextElement`/`PreviousElement` update is) return the offset to where
/// it started.
pub proof fn lemma_help_nav_cycle(models: Seq<HelpModel>, forward: bool)
    requires
        models[0].wf(),
        models.len() == CONTENT_LENGTH + 2,
        forall|i: int|
            0 <= i < models.len() - 1 ==> help_nav_rel(#[trigger] models[i], models[i + 1], forward),
    ensures
        models.last().offset == models[0].offset,
{
    lemma_help_nav_chain(models, forward, CONTENT_LENGTH as int + 1);
    if forward {
        lemma_next_cycle(models[0].offset as int, CONTENT_LENGTH as int + 1);
    } else {
        lemma_prev_cycle(models[0].offset as int, CONTENT_LENGTH as int + 1);
    }
}

impl Default for HelpModel {
    fn default() -> (r: HelpModel)
        ensures
            r.wf(),
            is_help_from(r, Screen::Menu, None),
    {
        HelpModel {
            offset: 0,
            parameters: None,
            caller: Screen::Menu,
            state: State::Running,
            bounds: Bounds::default(),
            scroll_pos: 0,
        }
    }
}

impl HelpModel {
    /// A help screen opened from `caller`. A terminal caller must hand over
    /// the parameters of its open connection; this is what makes returning
    /// from help unable to reach the terminal without parameters.
    pub fn new(caller: Screen, parameters: Option<PortParameters>) -> (r: HelpModel)
        requires
            caller != Screen::Help,
            caller == Screen::Terminal ==> match parameters {
                Some(p) => p.valid(),
                None => false,
            },
        ensures
            r.wf(),
            is_help_from(r, caller, parameters),
    {
        let mut model = HelpModel::default();
        model.parameters = parameters;
        model.caller = caller;
        model
    }

    /// One update step of the help screen: cyclic scrolling over the page,
    /// and Enter returns to the calling screen with its parameters. Every
    /// other message leaves the model unchanged.
    pub fn update(&mut self, msg: Message) -> (s: State)
        requires
            old(self).wf(),
        ensures
            final(self).wf(),
            s == final(self).spec_state(),
            match msg {
                Message::PreviousElement => help_nav_rel(*old(self), *final(self), false),
                Message::NextElement => help_nav_rel(*old(self), *final(self), true),
                Message::Enter => *final(self) == old(self).with_state(
                    State::Switching(old(self).caller, old(self).parameters),
                ),
                _ => *final(self) == *old(self),
            },
    {
        match msg {
            Message::PreviousElement => {
                if self.offset == 0 {
                    self.offset = CONTENT_LENGTH;
                } else {
                    self.offset = self.offset - 1;
                }
                self.scroll_pos = self.offset;
            },
            Message::NextElement => {
                if self.offset >= CONTENT_LENGTH {
                    self.offset = 0;
                } else {
                    self.offset = self.offset + 1;
                }
                self.scroll_pos = self.offset;
            },
            Message::Enter => {
                let parameters = match &self.parameters {
                    Some(p) => Some(p.clone()),
                    None => None,
                };
                self.set_state(State::Switching(self.caller, parameters));
            },
            _ => {},
        }
        self.get_state()
    }
}

} // verus!
