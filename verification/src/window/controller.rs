//! The lifecycle controller: it sequences registry operations and tells the
//! host, one call at a time, what to ask of the windowing system.
//!
//! An operation is a short list of registry operations. Each is looked at
//! when its turn comes: it may need no call (a window to reuse, an absent
//! window to close), be refused (an absent window to show), or need one call.
//! The registry changes only when the host reports that a call was done.

use vstd::prelude::*;

use crate::window::laws::law_seek_keeps_registry;
use crate::window::registry::{RegistryView, WindowRegistry};
use crate::window::types::{
    auth_label, auth_window_spec, auth_window_spec_view, main_label, main_window_spec,
    main_window_spec_view, WindowAction, WindowActionView, WindowError, WindowErrorView,
    WindowOp, WindowOpView, WindowReply, WindowReplyView, WindowSpec, WindowState, WindowStep,
    WindowStepView, AUTH_LABEL, MAIN_LABEL,
};

verus! {

/// What an operation asks for when its turn comes.
#[derive(Debug, PartialEq, Eq)]
pub enum Demand {
    /// Nothing is to be done.
    Nothing,
    /// One call on the windowing system.
    Call(WindowAction),
    /// The operation cannot be carried out.
    Refuse(WindowError),
}

pub enum DemandView {
    Nothing,
    Call(WindowActionView),
    Refuse(WindowErrorView),
}

impl View for Demand {
    type V = DemandView;

    open spec fn view(&self) -> DemandView {
        match self {
            Demand::Nothing => DemandView::Nothing,
            Demand::Call(action) => DemandView::Call(action@),
            Demand::Refuse(e) => DemandView::Refuse(e@),
        }
    }
}

/// The cause reported when no identity is left for a new window.
pub open spec fn exhausted_cause() -> Seq<char> {
    "no window identity is left"@
}

impl WindowOpView {
    /// What the operation asks for, given the registry as it stands.
    pub open spec fn demand(self, registry: RegistryView) -> DemandView {
        match self {
            WindowOpView::OpenOrReuse { label, spec } => if registry.contains(label) {
                DemandView::Nothing
            } else if registry.has_room() {
                DemandView::Call(WindowActionView::Create { label, spec })
            } else {
                DemandView::Refuse(
                    WindowErrorView::OperationFailed { label, cause: exhausted_cause() },
                )
            },
            WindowOpView::OpenFresh { label, spec } => if registry.has_room() {
                DemandView::Call(WindowActionView::Create { label, spec })
            } else {
                DemandView::Refuse(
                    WindowErrorView::OperationFailed { label, cause: exhausted_cause() },
                )
            },
            WindowOpView::Show { label } => if registry.contains(label) {
                DemandView::Call(WindowActionView::Show { label })
            } else {
                DemandView::Refuse(WindowErrorView::NotFound { label })
            },
            WindowOpView::Focus { label } => if registry.contains(label) {
                DemandView::Call(WindowActionView::Focus { label })
            } else {
                DemandView::Refuse(WindowErrorView::NotFound { label })
            },
            WindowOpView::Close { label } => if registry.contains(label) {
                DemandView::Call(WindowActionView::Close { label })
            } else {
                DemandView::Nothing
            },
            WindowOpView::Minimize { label } => if registry.contains(label) {
                DemandView::Call(WindowActionView::Minimize { label })
            } else {
                DemandView::Nothing
            },
        }
    }

    /// The registry once the call made for the operation was done.
    pub open spec fn effect(self, registry: RegistryView) -> RegistryView {
        match self {
            WindowOpView::OpenOrReuse { label, spec } => registry.opened_or_reused(
                label,
                spec.visible,
            ),
            WindowOpView::OpenFresh { label, spec } => registry.opened(label, spec.visible),
            WindowOpView::Show { label } => registry.shown(label),
            WindowOpView::Focus { label } => registry.focused(label),
            WindowOpView::Close { label } => registry.closed(label),
            WindowOpView::Minimize { label } => registry.minimized(label),
        }
    }
}

/// The controller as a mathematical value.
pub struct ControllerView {
    /// The live windows.
    pub registry: RegistryView,
    /// What is left of the running operation, next first.
    pub pending: Seq<WindowOpView>,
    /// Whether the call for `pending[0]` is with the host.
    pub in_flight: bool,
}

impl ControllerView {
    /// The registry is valid, and a call is with the host only for an
    /// operation that asked for one.
    pub open spec fn wf(self) -> bool {
        &&& self.registry.wf()
        &&& self.in_flight ==> self.pending.len() > 0 && self.pending[0].demand(
            self.registry,
        ) is Call
    }

    /// The controller with nothing left to do.
    pub open spec fn idle(self) -> ControllerView {
        ControllerView { registry: self.registry, pending: Seq::empty(), in_flight: false }
    }

    /// Moves on to the next operation that needs a call, passing over those
    /// that need none and stopping at one that is refused.
    pub open spec fn seek(self) -> (ControllerView, WindowStepView)
        decreases self.pending.len(),
    {
        if self.pending.len() == 0 {
            (self.idle(), WindowStepView::Finished(Ok(())))
        } else {
            match self.pending[0].demand(self.registry) {
                DemandView::Nothing => (ControllerView {
                    pending: self.pending.drop_first(),
                    in_flight: false,
                    ..self
                }).seek(),
                DemandView::Refuse(e) => (self.idle(), WindowStepView::Finished(Err(e))),
                DemandView::Call(action) => (
                    ControllerView { in_flight: true, ..self },
                    WindowStepView::Perform(action),
                ),
            }
        }
    }

    /// Starts the operation `script`, dropping whatever was left of an
    /// earlier one.
    pub open spec fn begin(self, script: Seq<WindowOpView>) -> (ControllerView, WindowStepView) {
        (ControllerView { registry: self.registry, pending: script, in_flight: false }).seek()
    }

    /// Takes the outcome of the call that is with the host. Done: the
    /// registry records the effect and the operation goes on. Failed: the
    /// operation ends with the failure, and the registry stays as it is.
    /// With no call in flight, nothing changes.
    pub open spec fn resume(self, reply: WindowReplyView) -> (ControllerView, WindowStepView) {
        if !self.in_flight || self.pending.len() == 0 {
            (self, WindowStepView::Finished(Ok(())))
        } else {
            match reply {
                WindowReplyView::Done => (ControllerView {
                    registry: self.pending[0].effect(self.registry),
                    pending: self.pending.drop_first(),
                    in_flight: false,
                }).seek(),
                WindowReplyView::Failed(cause) => (
                    self.idle(),
                    WindowStepView::Finished(
                        Err(
                            WindowErrorView::OperationFailed {
                                label: self.pending[0].label(),
                                cause,
                            },
                        ),
                    ),
                ),
            }
        }
    }
}

impl ControllerView {
    /// Goes on with the outcomes the host reports, one for each call handed
    /// out, until the operation is over or the outcomes run out.
    pub open spec fn drive(self, step: WindowStepView, replies: Seq<WindowReplyView>) -> (
        ControllerView,
        WindowStepView,
    )
        decreases replies.len(),
    {
        if step is Finished || replies.len() == 0 {
            (self, step)
        } else {
            let (next, then) = self.resume(replies[0]);
            next.drive(then, replies.drop_first())
        }
    }
}

/// The operations of showing a window and giving it the focus.
pub open spec fn show_and_focus_script(label: Seq<char>) -> Seq<WindowOpView> {
    seq![WindowOpView::Show { label }, WindowOpView::Focus { label }]
}

/// The operations of the move to the main window, in order: the main window
/// is up before the sign-in window goes.
pub open spec fn transition_to_main() -> Seq<WindowOpView> {
    seq![
        WindowOpView::OpenOrReuse { label: main_label(), spec: main_window_spec_view() },
        WindowOpView::Show { label: main_label() },
        WindowOpView::Focus { label: main_label() },
        WindowOpView::Close { label: auth_label() },
    ]
}

/// The operations of the return to the sign-in window, in order: a new
/// sign-in window is up before the main window goes.
pub open spec fn transition_to_auth() -> Seq<WindowOpView> {
    seq![
        WindowOpView::OpenFresh { label: auth_label(), spec: auth_window_spec_view() },
        WindowOpView::Show { label: auth_label() },
        WindowOpView::Focus { label: auth_label() },
        WindowOpView::Close { label: main_label() },
    ]
}

impl WindowOp {
    /// What the operation asks for, given the registry as it stands.
    pub fn demand(&self, registry: &WindowRegistry) -> (demand: Demand)
        requires
            registry.wf(),
        ensures
            demand@ == self@.demand(registry@),
    {
        match self {
            WindowOp::OpenOrReuse { label, spec } => {
                if registry.is_live(label.as_str()) {
                    Demand::Nothing
                } else if registry.has_room() {
                    Demand::Call(WindowAction::Create { label: label.clone(), spec: spec.clone() })
                } else {
                    Demand::Refuse(exhausted(label))
                }
            },
            WindowOp::OpenFresh { label, spec } => {
                if registry.has_room() {
                    Demand::Call(WindowAction::Create { label: label.clone(), spec: spec.clone() })
                } else {
                    Demand::Refuse(exhausted(label))
                }
            },
            WindowOp::Show { label } => {
                if registry.is_live(label.as_str()) {
                    Demand::Call(WindowAction::Show { label: label.clone() })
                } else {
                    Demand::Refuse(WindowError::NotFound { label: label.clone() })
                }
            },
            WindowOp::Focus { label } => {
                if registry.is_live(label.as_str()) {
                    Demand::Call(WindowAction::Focus { label: label.clone() })
                } else {
                    Demand::Refuse(WindowError::NotFound { label: label.clone() })
                }
            },
            WindowOp::Close { label } => {
                if registry.is_live(label.as_str()) {
                    Demand::Call(WindowAction::Close { label: label.clone() })
                } else {
                    Demand::Nothing
                }
            },
            WindowOp::Minimize { label } => {
                if registry.is_live(label.as_str()) {
                    Demand::Call(WindowAction::Minimize { label: label.clone() })
                } else {
                    Demand::Nothing
                }
            },
        }
    }

    /// Records in the registry that the call made for the operation was
    /// done.
    pub fn apply(&self, registry: &mut WindowRegistry)
        requires
            old(registry).wf(),
            self@.demand(old(registry)@) is Call,
        ensures
            final(registry).wf(),
            final(registry)@ == self@.effect(old(registry)@),
    {
        match self {
            WindowOp::OpenOrReuse { label, spec } => {
                registry.open_or_reuse(label.as_str(), spec);
            },
            WindowOp::OpenFresh { label, spec } => {
                registry.open_fresh(label.as_str(), spec);
            },
            WindowOp::Show { label } => {
                let _ = registry.show(label.as_str());
            },
            WindowOp::Focus { label } => {
                let _ = registry.focus(label.as_str());
            },
            WindowOp::Close { label } => {
                registry.close(label.as_str());
            },
            WindowOp::Minimize { label } => {
                registry.minimize(label.as_str());
            },
        }
    }
}

fn exhausted(label: &String) -> (error: WindowError)
    ensures
        error@ == (WindowErrorView::OperationFailed { label: label@, cause: exhausted_cause() }),
{
    WindowError::OperationFailed {
        label: label.clone(),
        cause: "no window identity is left".to_string(),
    }
}

/// Sequences the registry's operations for the host.
pub struct WindowLifecycleController {
    registry: WindowRegistry,
    script: Vec<WindowOp>,
    cursor: usize,
    in_flight: bool,
}

impl View for WindowLifecycleController {
    type V = ControllerView;

    closed spec fn view(&self) -> ControllerView {
        ControllerView {
            registry: self.registry@,
            pending: Seq::new(
                (self.script@.len() - self.cursor) as nat,
                |i: int| self.script@[self.cursor + i]@,
            ),
            in_flight: self.in_flight,
        }
    }
}

impl WindowLifecycleController {
    /// The representation is sound.
    pub closed spec fn inv(&self) -> bool {
        &&& self.registry.inv()
        &&& self.cursor <= self.script@.len()
    }

    /// The controller is valid.
    pub open spec fn wf(&self) -> bool {
        self.inv() && self@.wf()
    }

    /// A controller over an empty registry, with nothing to do.
    pub fn new() -> (controller: WindowLifecycleController)
        ensures
            controller.wf(),
            controller@.registry.windows == Map::<Seq<char>, WindowState>::empty(),
            controller@.registry.next_id == 0,
            controller@.pending == Seq::<WindowOpView>::empty(),
            !controller@.in_flight,
    {
        let controller = WindowLifecycleController {
            registry: WindowRegistry::new(),
            script: Vec::new(),
            cursor: 0,
            in_flight: false,
        };
        assert(controller@.pending =~= Seq::<WindowOpView>::empty());
        controller
    }

    /// The live windows.
    pub fn registry(&self) -> (registry: &WindowRegistry)
        requires
            self.wf(),
        ensures
            registry.wf(),
            registry@ == self@.registry,
    {
        &self.registry
    }

    /// Whether an operation is under way.
    pub fn is_busy(&self) -> (busy: bool)
        requires
            self.wf(),
        ensures
            busy == (self@.pending.len() > 0),
    {
        self.cursor < self.script.len()
    }

    fn stop(&mut self)
        requires
            old(self).inv(),
            old(self).registry.wf(),
        ensures
            final(self).wf(),
            final(self)@ == old(self)@.idle(),
    {
        self.script.clear();
        self.cursor = 0;
        self.in_flight = false;
        assert(self@.pending =~= Seq::<WindowOpView>::empty());
    }

    fn seek(&mut self) -> (step: WindowStep)
        requires
            old(self).wf(),
            !old(self)@.in_flight,
        ensures
            final(self).wf(),
            (final(self)@, step@) == old(self)@.seek(),
    {
        loop
            invariant
                self.wf(),
                !self.in_flight,
                self@.seek() == old(self)@.seek(),
            decreases self.script@.len() - self.cursor,
        {
            if self.cursor >= self.script.len() {
                self.stop();
                return WindowStep::Finished(Ok(()));
            }
            let ghost here = self@;
            assert(here.pending[0] == self.script@[self.cursor as int]@);
            match self.script[self.cursor].demand(&self.registry) {
                Demand::Nothing => {
                    self.cursor = self.cursor + 1;
                    assert(self@.pending =~= here.pending.drop_first());
                },
                Demand::Call(action) => {
                    self.in_flight = true;
                    assert(self@.pending =~= here.pending);
                    return WindowStep::Perform(action);
                },
                Demand::Refuse(e) => {
                    self.stop();
                    return WindowStep::Finished(Err(e));
                },
            }
        }
    }

    fn begin(&mut self, script: Vec<WindowOp>) -> (step: WindowStep)
        requires
            old(self).wf(),
        ensures
            final(self).wf(),
            (final(self)@, step@) == old(self)@.begin(script@.map_values(|op: WindowOp| op@)),
            final(self)@.registry == old(self)@.registry,
    {
        let ghost wanted = script@.map_values(|op: WindowOp| op@);
        self.script = script;
        self.cursor = 0;
        self.in_flight = false;
        assert(self@.pending =~= wanted);
        proof {
            law_seek_keeps_registry(self@);
        }
        self.seek()
    }

    /// Takes note of what the windowing system holds under `label`, between
    /// operations: a window with the given visibility, or none. This is how
    /// the registry learns of a window that was there from the start, and of
    /// one that the user closed. Whatever was left of an operation is
    /// dropped.
    pub fn observe(&mut self, label: &str, present: Option<bool>)
        requires
            old(self).wf(),
        ensures
            final(self).wf(),
            final(self)@ == (ControllerView {
                registry: old(self)@.registry.observed(label@, present),
                ..old(self)@.idle()
            }),
    {
        self.stop();
        self.registry.observe(label, present);
        assert(self@.pending =~= Seq::<WindowOpView>::empty());
    }

    /// Takes the outcome of the call that was last handed out, and says what
    /// comes next.
    pub fn resume(&mut self, reply: WindowReply) -> (step: WindowStep)
        requires
            old(self).wf(),
        ensures
            final(self).wf(),
            (final(self)@, step@) == old(self)@.resume(reply@),
            reply@ is Failed ==> final(self)@.registry == old(self)@.registry,
            old(self)@.in_flight ==> (reply@ matches WindowReplyView::Failed(cause) ==> step@
                == WindowStepView::Finished(
                Err(
                    WindowErrorView::OperationFailed {
                        label: old(self)@.pending[0].label(),
                        cause,
                    },
                ),
            )),
            !old(self)@.in_flight ==> step@ == WindowStepView::Finished(Ok(())) && final(self)@
                == old(self)@,
    {
        if !self.in_flight || self.cursor >= self.script.len() {
            return WindowStep::Finished(Ok(()));
        }
        let ghost here = self@;
        assert(here.pending[0] == self.script@[self.cursor as int]@);
        match reply {
            WindowReply::Done => {
                self.script[self.cursor].apply(&mut self.registry);
                self.cursor = self.cursor + 1;
                self.in_flight = false;
                assert(self@.pending =~= here.pending.drop_first());
                self.seek()
            },
            WindowReply::Failed(cause) => {
                let label = self.script[self.cursor].label().clone();
                self.stop();
                WindowStep::Finished(Err(WindowError::OperationFailed { label, cause }))
            },
        }
    }

    /// Starts the move to the main window: the main window is opened or
    /// reused, shown and given the focus, and then the sign-in window is
    /// closed.
    pub fn open_main_window(&mut self) -> (step: WindowStep)
        requires
            old(self).wf(),
        ensures
            final(self).wf(),
            (final(self)@, step@) == old(self)@.begin(transition_to_main()),
            final(self)@.registry == old(self)@.registry,
            old(self)@.registry.contains(main_label()) ==> step@ == WindowStepView::Perform(
                WindowActionView::Show { label: main_label() },
            ),
            !old(self)@.registry.contains(main_label()) && old(self)@.registry.has_room() ==> step@
                == WindowStepView::Perform(
                WindowActionView::Create { label: main_label(), spec: main_window_spec_view() },
            ),
            !old(self)@.registry.contains(main_label()) && !old(self)@.registry.has_room()
                ==> step@ == WindowStepView::Finished(
                Err(
                    WindowErrorView::OperationFailed {
                        label: main_label(),
                        cause: exhausted_cause(),
                    },
                ),
            ),
    {
        proof {
            reveal_with_fuel(ControllerView::seek, 3);
            assert(transition_to_main().drop_first()[0] == transition_to_main()[1]);
        }
        let mut script: Vec<WindowOp> = Vec::new();
        script.push(WindowOp::OpenOrReuse { label: label_main(), spec: main_window_spec() });
        script.push(WindowOp::Show { label: label_main() });
        script.push(WindowOp::Focus { label: label_main() });
        script.push(WindowOp::Close { label: label_auth() });
        assert(script@.map_values(|op: WindowOp| op@) =~= transition_to_main());
        self.begin(script)
    }

    /// Starts the return to the sign-in window: a new sign-in window is
    /// constructed, shown and given the focus, and then the main window is
    /// closed.
    pub fn logout_to_login(&mut self) -> (step: WindowStep)
        requires
            old(self).wf(),
        ensures
            final(self).wf(),
            (final(self)@, step@) == old(self)@.begin(transition_to_auth()),
            final(self)@.registry == old(self)@.registry,
            old(self)@.registry.has_room() ==> step@ == WindowStepView::Perform(
                WindowActionView::Create { label: auth_label(), spec: auth_window_spec_view() },
            ),
            !old(self)@.registry.has_room() ==> step@ == WindowStepView::Finished(
                Err(
                    WindowErrorView::OperationFailed {
                        label: auth_label(),
                        cause: exhausted_cause(),
                    },
                ),
            ),
    {
        let mut script: Vec<WindowOp> = Vec::new();
        script.push(WindowOp::OpenFresh { label: label_auth(), spec: auth_window_spec() });
        script.push(WindowOp::Show { label: label_auth() });
        script.push(WindowOp::Focus { label: label_auth() });
        script.push(WindowOp::Close { label: label_main() });
        assert(script@.map_values(|op: WindowOp| op@) =~= transition_to_auth());
        self.begin(script)
    }

    /// Starts opening a window under `label`: the live one is reused as it
    /// is, else one is constructed from `spec`.
    pub fn open_or_reuse(&mut self, label: String, spec: WindowSpec) -> (step: WindowStep)
        requires
            old(self).wf(),
        ensures
            final(self).wf(),
            (final(self)@, step@) == old(self)@.begin(
                seq![WindowOpView::OpenOrReuse { label: label@, spec: spec@ }],
            ),
            final(self)@.registry == old(self)@.registry,
            old(self)@.registry.contains(label@) ==> step@ == WindowStepView::Finished(Ok(())),
            !old(self)@.registry.contains(label@) && old(self)@.registry.has_room() ==> step@
                == WindowStepView::Perform(WindowActionView::Create { label: label@, spec: spec@ }),
    {
        let ghost wanted = seq![WindowOpView::OpenOrReuse { label: label@, spec: spec@ }];
        proof {
            reveal_with_fuel(ControllerView::seek, 2);
            assert(wanted.drop_first().len() == 0);
        }
        let mut script: Vec<WindowOp> = Vec::new();
        script.push(WindowOp::OpenOrReuse { label, spec });
        assert(script@.map_values(|op: WindowOp| op@) =~= wanted);
        self.begin(script)
    }

    /// Starts showing the window under `label` and giving it the focus.
    pub fn show_and_focus(&mut self, label: String) -> (step: WindowStep)
        requires
            old(self).wf(),
        ensures
            final(self).wf(),
            (final(self)@, step@) == old(self)@.begin(show_and_focus_script(label@)),
            final(self)@.registry == old(self)@.registry,
            old(self)@.registry.contains(label@) ==> step@ == WindowStepView::Perform(
                WindowActionView::Show { label: label@ },
            ),
            !old(self)@.registry.contains(label@) ==> step@ == WindowStepView::Finished(
                Err(WindowErrorView::NotFound { label: label@ }),
            ),
    {
        let ghost wanted = show_and_focus_script(label@);
        let mut script: Vec<WindowOp> = Vec::new();
        script.push(WindowOp::Show { label: label.clone() });
        script.push(WindowOp::Focus { label });
        assert(script@.map_values(|op: WindowOp| op@) =~= wanted);
        self.begin(script)
    }

    /// Starts closing the window under `label`. Where none is live, the
    /// operation is over at once, without a call and without an error.
    pub fn close_window(&mut self, label: String) -> (step: WindowStep)
        requires
            old(self).wf(),
        ensures
            final(self).wf(),
            (final(self)@, step@) == old(self)@.begin(seq![WindowOpView::Close { label: label@ }]),
            final(self)@.registry == old(self)@.registry,
            old(self)@.registry.contains(label@) ==> step@ == WindowStepView::Perform(
                WindowActionView::Close { label: label@ },
            ),
            !old(self)@.registry.contains(label@) ==> step@ == WindowStepView::Finished(Ok(())),
    {
        let ghost wanted = seq![WindowOpView::Close { label: label@ }];
        proof {
            reveal_with_fuel(ControllerView::seek, 2);
            assert(wanted.drop_first().len() == 0);
        }
        let mut script: Vec<WindowOp> = Vec::new();
        script.push(WindowOp::Close { label });
        assert(script@.map_values(|op: WindowOp| op@) =~= wanted);
        self.begin(script)
    }

    /// Starts minimizing the window under `label`. Where none is live, the
    /// operation is over at once, without a call and without an error.
    pub fn minimize_window(&mut self, label: String) -> (step: WindowStep)
        requires
            old(self).wf(),
        ensures
            final(self).wf(),
            (final(self)@, step@) == old(self)@.begin(
                seq![WindowOpView::Minimize { label: label@ }],
            ),
            final(self)@.registry == old(self)@.registry,
            old(self)@.registry.contains(label@) ==> step@ == WindowStepView::Perform(
                WindowActionView::Minimize { label: label@ },
            ),
            !old(self)@.registry.contains(label@) ==> step@ == WindowStepView::Finished(Ok(())),
    {
        let ghost wanted = seq![WindowOpView::Minimize { label: label@ }];
        proof {
            reveal_with_fuel(ControllerView::seek, 2);
            assert(wanted.drop_first().len() == 0);
        }
        let mut script: Vec<WindowOp> = Vec::new();
        script.push(WindowOp::Minimize { label });
        assert(script@.map_values(|op: WindowOp| op@) =~= wanted);
        self.begin(script)
    }
}

fn label_main() -> (label: String)
    ensures
        label@ == main_label(),
{
    MAIN_LABEL.to_string()
}

fn label_auth() -> (label: String)
    ensures
        label@ == auth_label(),
{
    AUTH_LABEL.to_string()
}

} // verus!
