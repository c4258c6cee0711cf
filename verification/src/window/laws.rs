//! What holds of the registry and of the controller, whatever the host
//! reports.

use vstd::prelude::*;

use crate::window::controller::{
    exhausted_cause, show_and_focus_script, transition_to_auth, transition_to_main,
    ControllerView, DemandView,
};
use crate::window::registry::RegistryView;
use crate::window::types::{
    auth_label, auth_window_spec_view, main_label, WindowActionView, WindowErrorView,
    WindowOpView, WindowReplyView, WindowSpecView, WindowStepView,
};

verus! {

/// The two reserved labels are different labels.
pub proof fn law_reserved_labels_differ()
    ensures
        auth_label() != main_label(),
{
    reveal_strlit("auth");
    reveal_strlit("main");
    assert(auth_label()[0] == 'a');
    assert(main_label()[0] == 'm');
}

/// Every registry operation keeps the registry valid: one window per label,
/// no handle twice, at most one window with the focus.
pub proof fn law_effect_keeps_registry_valid(registry: RegistryView, op: WindowOpView)
    requires
        registry.wf(),
        op.demand(registry) is Call,
    ensures
        op.effect(registry).wf(),
{
    let after = op.effect(registry);
    match op {
        WindowOpView::Focus { label } => {
            assert forall|j: Seq<char>, k: Seq<char>|
                after.windows.contains_key(j) && after.windows.contains_key(k) && j != k implies (
            #[trigger] after.windows[j]).handle != (#[trigger] after.windows[k]).handle by {
                assert(registry.windows[j].handle != registry.windows[k].handle);
            }
        },
        _ => {},
    }
}

/// Taking note of what the windowing system holds keeps the registry valid.
pub proof fn law_observation_keeps_registry_valid(
    registry: RegistryView,
    label: Seq<char>,
    present: Option<bool>,
)
    requires
        registry.wf(),
    ensures
        registry.observed(label, present).wf(),
        present is None ==> !registry.observed(label, present).contains(label),
        present is Some && (registry.contains(label) || registry.has_room())
            ==> registry.observed(label, present).contains(label),
        registry.contains(label) && present is Some ==> registry.observed(label, present)
            == registry,
{
}

/// Every reply in `replies` reports a call as done.
pub open spec fn all_done(replies: Seq<WindowReplyView>) -> bool {
    forall|i: int| 0 <= i < replies.len() ==> (#[trigger] replies[i]) is Done
}

/// Looking for the next call never changes the registry, and leaves a valid
/// controller.
pub proof fn law_seek_keeps_registry(c: ControllerView)
    requires
        c.registry.wf(),
        !c.in_flight,
    ensures
        c.seek().0.registry == c.registry,
        c.seek().0.wf(),
        c.seek().1 is Finished ==> c.seek().0 == c.idle(),
        c.seek().1 is Perform ==> c.seek().0.in_flight,
    decreases c.pending.len(),
{
    if c.pending.len() > 0 {
        match c.pending[0].demand(c.registry) {
            DemandView::Nothing => {
                law_seek_keeps_registry(
                    ControllerView { pending: c.pending.drop_first(), in_flight: false, ..c },
                );
            },
            _ => {},
        }
    }
}

/// Starting an operation and taking a reply both leave a valid controller,
/// whatever the operation and whatever the reply.
pub proof fn law_steps_keep_controller_valid(
    c: ControllerView,
    script: Seq<WindowOpView>,
    reply: WindowReplyView,
)
    requires
        c.wf(),
    ensures
        c.begin(script).0.wf(),
        c.begin(script).0.registry == c.registry,
        c.resume(reply).0.wf(),
        reply is Failed ==> c.resume(reply).0.registry == c.registry,
{
    law_seek_keeps_registry(ControllerView { registry: c.registry, pending: script, in_flight: false });
    if c.in_flight && c.pending.len() > 0 {
        if reply is Done {
            law_effect_keeps_registry_valid(c.registry, c.pending[0]);
            law_seek_keeps_registry(
                ControllerView {
                    registry: c.pending[0].effect(c.registry),
                    pending: c.pending.drop_first(),
                    in_flight: false,
                },
            );
        }
    }
}

/// However the host's reports run, the controller stays valid.
pub proof fn law_drive_keeps_controller_valid(
    c: ControllerView,
    step: WindowStepView,
    replies: Seq<WindowReplyView>,
)
    requires
        c.wf(),
    ensures
        c.drive(step, replies).0.wf(),
    decreases replies.len(),
{
    if !(step is Finished) && replies.len() > 0 {
        law_steps_keep_controller_valid(c, Seq::empty(), replies[0]);
        let (next, then) = c.resume(replies[0]);
        law_drive_keeps_controller_valid(next, then, replies.drop_first());
    }
}

/// Closing or minimizing under a label that has no live window is over at
/// once: no call is made, no error is reported, the registry is as before.
pub proof fn law_absent_window_tolerated(c: ControllerView, label: Seq<char>)
    requires
        !c.registry.contains(label),
    ensures
        c.begin(seq![WindowOpView::Close { label }]) == (c.idle(), WindowStepView::Finished(Ok(()))),
        c.begin(seq![WindowOpView::Minimize { label }]) == (
            c.idle(),
            WindowStepView::Finished(Ok(())),
        ),
{
    reveal_with_fuel(ControllerView::seek, 3);
    let closing = seq![WindowOpView::Close { label }];
    let minimizing = seq![WindowOpView::Minimize { label }];
    assert(closing.drop_first().len() == 0);
    assert(minimizing.drop_first().len() == 0);
}

/// Opening a window under a label twice gives the same window both times:
/// the second opening finds the first one's window, constructs nothing and
/// leaves the registry as it was.
pub proof fn law_open_or_reuse_is_idempotent(
    registry: RegistryView,
    label: Seq<char>,
    first_visible: bool,
    second_visible: bool,
)
    ensures
        ({
            let once = registry.opened_or_reused(label, first_visible);
            let twice = once.opened_or_reused(label, second_visible);
            &&& once.contains(label)
            &&& twice == once
            &&& twice.windows[label].handle == once.windows[label].handle
        }),
{
}

/// A window that is live under a label is reused by the controller without
/// a call to the windowing system.
pub proof fn law_live_window_is_reused(
    c: ControllerView,
    label: Seq<char>,
    spec: WindowSpecView,
)
    requires
        c.registry.contains(label),
    ensures
        c.begin(seq![WindowOpView::OpenOrReuse { label, spec }]) == (
            c.idle(),
            WindowStepView::Finished(Ok(())),
        ),
{
    reveal_with_fuel(ControllerView::seek, 3);
    let opening = seq![WindowOpView::OpenOrReuse { label, spec }];
    assert(opening.drop_first().len() == 0);
}

/// What is left of an operation of four registry operations after each of
/// them.
proof fn lemma_four_operations(script: Seq<WindowOpView>)
    requires
        script.len() == 4,
    ensures
        script.drop_first()[0] == script[1],
        script.drop_first().drop_first()[0] == script[2],
        script.drop_first().drop_first().drop_first()[0] == script[3],
        script.drop_first().drop_first().drop_first().drop_first().len() == 0,
{
}

/// Where the windowing system does every call it is asked for, the move to
/// the main window ends well: the main window is live, visible and has the
/// focus, and no sign-in window is left. This holds whether or not a
/// sign-in window, or a main window, was live before; a main window that was
/// live is the one that is shown.
pub proof fn law_to_main_completes(c: ControllerView, replies: Seq<WindowReplyView>)
    requires
        c.registry.wf(),
        c.registry.contains(main_label()) || c.registry.has_room(),
        replies.len() >= 4,
        all_done(replies),
    ensures
        ({
            let (start, first) = c.begin(transition_to_main());
            let (end, last) = start.drive(first, replies);
            &&& last == WindowStepView::Finished(Ok(()))
            &&& end == end.idle()
            &&& end.registry.wf()
            &&& end.registry.contains(main_label())
            &&& end.registry.windows[main_label()].visible
            &&& end.registry.windows[main_label()].focused
            &&& !end.registry.contains(auth_label())
            &&& c.registry.contains(main_label()) ==> end.registry.windows[main_label()].handle
                == c.registry.windows[main_label()].handle
        }),
{
    law_reserved_labels_differ();
    let begun = c.begin(transition_to_main());
    law_steps_keep_controller_valid(c.idle(), transition_to_main(), WindowReplyView::Done);
    law_drive_keeps_controller_valid(begun.0, begun.1, replies);
    reveal_with_fuel(ControllerView::seek, 6);
    reveal_with_fuel(ControllerView::drive, 6);
    lemma_four_operations(transition_to_main());
    let r1 = replies.drop_first();
    let r2 = r1.drop_first();
    let r3 = r2.drop_first();
    assert(replies[0] is Done && r1[0] is Done && r2[0] is Done && r3[0] is Done);
}

/// However the calls of the move to the main window fare, the sign-in
/// window goes only once the main window is live, visible and has the focus.
/// A run that ends in a failure before that leaves the sign-in window live,
/// and it is never replaced by another.
pub proof fn law_to_main_keeps_auth_until_main_is_up(
    c: ControllerView,
    replies: Seq<WindowReplyView>,
)
    requires
        c.registry.wf(),
        c.registry.contains(auth_label()),
    ensures
        ({
            let (start, first) = c.begin(transition_to_main());
            let (end, last) = start.drive(first, replies);
            &&& !end.registry.contains(auth_label()) ==> {
                &&& end.registry.contains(main_label())
                &&& end.registry.windows[main_label()].visible
                &&& end.registry.windows[main_label()].focused
                &&& last == WindowStepView::Finished(Ok(()))
            }
            &&& end.registry.contains(auth_label()) ==> end.registry.windows[auth_label()].handle
                == c.registry.windows[auth_label()].handle
        }),
{
    law_reserved_labels_differ();
    reveal_with_fuel(ControllerView::seek, 6);
    reveal_with_fuel(ControllerView::drive, 6);
    lemma_four_operations(transition_to_main());
}

/// Where the windowing system does every call it is asked for, the return
/// to the sign-in window ends well: a sign-in window is live, visible and
/// has the focus, it is a new window (its handle was in use by no window
/// before), and no main window is left.
pub proof fn law_to_auth_completes(c: ControllerView, replies: Seq<WindowReplyView>)
    requires
        c.registry.wf(),
        c.registry.has_room(),
        replies.len() >= 4,
        all_done(replies),
    ensures
        ({
            let (start, first) = c.begin(transition_to_auth());
            let (end, last) = start.drive(first, replies);
            &&& first == WindowStepView::Perform(
                WindowActionView::Create { label: auth_label(), spec: auth_window_spec_view() },
            )
            &&& last == WindowStepView::Finished(Ok(()))
            &&& end == end.idle()
            &&& end.registry.wf()
            &&& end.registry.next_id == c.registry.next_id + 1
            &&& end.registry.contains(auth_label())
            &&& end.registry.windows[auth_label()].visible
            &&& end.registry.windows[auth_label()].focused
            &&& end.registry.windows[auth_label()].handle.id == c.registry.next_id
            &&& forall|k: Seq<char>| #[trigger]
                c.registry.contains(k) ==> c.registry.windows[k].handle
                    != end.registry.windows[auth_label()].handle
            &&& !end.registry.contains(main_label())
        }),
{
    law_reserved_labels_differ();
    let begun = c.begin(transition_to_auth());
    law_steps_keep_controller_valid(c.idle(), transition_to_auth(), WindowReplyView::Done);
    law_drive_keeps_controller_valid(begun.0, begun.1, replies);
    reveal_with_fuel(ControllerView::seek, 6);
    reveal_with_fuel(ControllerView::drive, 6);
    lemma_four_operations(transition_to_auth());
    let r1 = replies.drop_first();
    let r2 = r1.drop_first();
    let r3 = r2.drop_first();
    assert(replies[0] is Done && r1[0] is Done && r2[0] is Done && r3[0] is Done);
}

/// However the calls of the return to the sign-in window fare, the main
/// window goes only once the new sign-in window is live, visible and has the
/// focus.
pub proof fn law_to_auth_keeps_main_until_auth_is_up(
    c: ControllerView,
    replies: Seq<WindowReplyView>,
)
    requires
        c.registry.wf(),
        c.registry.contains(main_label()),
    ensures
        ({
            let (start, first) = c.begin(transition_to_auth());
            let (end, last) = start.drive(first, replies);
            &&& !end.registry.contains(main_label()) ==> {
                &&& end.registry.contains(auth_label())
                &&& end.registry.windows[auth_label()].visible
                &&& end.registry.windows[auth_label()].focused
                &&& end.registry.windows[auth_label()].handle.id == c.registry.next_id
                &&& last == WindowStepView::Finished(Ok(()))
            }
            &&& end.registry.contains(main_label()) ==> end.registry.windows[main_label()].handle
                == c.registry.windows[main_label()].handle
        }),
{
    law_reserved_labels_differ();
    reveal_with_fuel(ControllerView::seek, 6);
    reveal_with_fuel(ControllerView::drive, 6);
    lemma_four_operations(transition_to_auth());
}

/// The return to the sign-in window never reuses a sign-in window that is
/// live: the construction of a new one is asked for all the same, and where
/// every call is done the window then live under the label is not the one
/// that was live before. It is visible and has the focus, and the run ends
/// well.
pub proof fn law_to_auth_replaces_live_sign_in_window(
    c: ControllerView,
    replies: Seq<WindowReplyView>,
)
    requires
        c.registry.wf(),
        c.registry.contains(auth_label()),
        c.registry.has_room(),
        replies.len() >= 4,
        all_done(replies),
    ensures
        ({
            let (start, first) = c.begin(transition_to_auth());
            let (end, last) = start.drive(first, replies);
            &&& first == WindowStepView::Perform(
                WindowActionView::Create { label: auth_label(), spec: auth_window_spec_view() },
            )
            &&& last == WindowStepView::Finished(Ok(()))
            &&& end.registry.contains(auth_label())
            &&& end.registry.windows[auth_label()].handle
                != c.registry.windows[auth_label()].handle
            &&& end.registry.windows[auth_label()].visible
            &&& end.registry.windows[auth_label()].focused
        }),
{
    law_to_auth_completes(c, replies);
}

/// Where no identity is left for a new window, the return to the sign-in
/// window is refused at once: no call is made and the registry is as
/// before.
pub proof fn law_to_auth_without_room_is_refused(c: ControllerView)
    requires
        !c.registry.has_room(),
    ensures
        c.begin(transition_to_auth()) == (
            c.idle(),
            WindowStepView::Finished(
                Err(
                    WindowErrorView::OperationFailed {
                        label: auth_label(),
                        cause: exhausted_cause(),
                    },
                ),
            ),
        ),
{
}

/// Returning to the sign-in window twice in a row constructs a window each
/// time: the second sign-in window is not the first, and no main window is
/// live after either return.
pub proof fn law_to_auth_twice_constructs_twice(
    c: ControllerView,
    first_replies: Seq<WindowReplyView>,
    second_replies: Seq<WindowReplyView>,
)
    requires
        c.registry.wf(),
        c.registry.next_id + 1 < u64::MAX,
        first_replies.len() >= 4,
        all_done(first_replies),
        second_replies.len() >= 4,
        all_done(second_replies),
    ensures
        ({
            let (start, first) = c.begin(transition_to_auth());
            let (once, _) = start.drive(first, first_replies);
            let (again, second) = once.begin(transition_to_auth());
            let (twice, last) = again.drive(second, second_replies);
            &&& last == WindowStepView::Finished(Ok(()))
            &&& once.registry.contains(auth_label())
            &&& twice.registry.contains(auth_label())
            &&& twice.registry.windows[auth_label()].handle
                != once.registry.windows[auth_label()].handle
            &&& !once.registry.contains(main_label())
            &&& !twice.registry.contains(main_label())
        }),
{
    law_to_auth_completes(c, first_replies);
    let (start, first) = c.begin(transition_to_auth());
    let (once, _) = start.drive(first, first_replies);
    law_to_auth_completes(once, second_replies);
}

/// Showing and focusing under a label that has no live window is refused at
/// once: no call is made, and the registry is as before.
pub proof fn law_show_and_focus_needs_a_window(c: ControllerView, label: Seq<char>)
    requires
        !c.registry.contains(label),
    ensures
        c.begin(show_and_focus_script(label)) == (
            c.idle(),
            WindowStepView::Finished(Err(WindowErrorView::NotFound { label })),
        ),
{
    reveal_with_fuel(ControllerView::seek, 3);
}

/// Where the window was shown and the call for the focus then fails, the
/// failure is reported and the window stays visible: what was done is not
/// undone.
pub proof fn law_shown_window_survives_failed_focus(
    c: ControllerView,
    label: Seq<char>,
    cause: Seq<char>,
)
    requires
        c.registry.contains(label),
    ensures
        ({
            let (showing, first) = c.begin(show_and_focus_script(label));
            let (focusing, second) = showing.resume(WindowReplyView::Done);
            let (end, last) = focusing.resume(WindowReplyView::Failed(cause));
            &&& first == WindowStepView::Perform(WindowActionView::Show { label })
            &&& second == WindowStepView::Perform(WindowActionView::Focus { label })
            &&& last == WindowStepView::Finished(
                Err(WindowErrorView::OperationFailed { label, cause }),
            )
            &&& end.registry == c.registry.shown(label)
            &&& end.registry.windows[label].visible
            &&& end == end.idle()
        }),
{
    reveal_with_fuel(ControllerView::seek, 3);
    let script = show_and_focus_script(label);
    assert(script.drop_first()[0] == script[1]);
}

/// The life of a label: a window comes to be under it by opening and goes
/// by closing; showing, focusing and minimizing leave it live.
pub proof fn law_label_lifecycle(registry: RegistryView, label: Seq<char>, visible: bool)
    ensures
        registry.opened_or_reused(label, visible).contains(label),
        registry.opened(label, visible).contains(label),
        !registry.closed(label).contains(label),
        registry.shown(label).contains(label) == registry.contains(label),
        registry.focused(label).contains(label) == registry.contains(label),
        registry.minimized(label).contains(label) == registry.contains(label),
        forall|other: Seq<char>|
            other != label ==> {
                &&& #[trigger] registry.opened(label, visible).contains(other)
                    == registry.contains(other)
                &&& registry.closed(label).contains(other) == registry.contains(other)
                &&& registry.shown(label).contains(other) == registry.contains(other)
                &&& registry.focused(label).contains(other) == registry.contains(other)
                &&& registry.minimized(label).contains(other) == registry.contains(other)
            },
{
}

/// Two openings under one label, one after the other, construct one window:
/// the first asks for the construction, the second finds the window, asks
/// for nothing and leaves it as it is.
pub proof fn law_second_opening_constructs_nothing(
    c: ControllerView,
    label: Seq<char>,
    first_spec: WindowSpecView,
    second_spec: WindowSpecView,
)
    requires
        !c.registry.contains(label),
        c.registry.has_room(),
    ensures
        ({
            let (opening, first) = c.begin(
                seq![WindowOpView::OpenOrReuse { label, spec: first_spec }],
            );
            let (opened, done) = opening.resume(WindowReplyView::Done);
            let (again, second) = opened.begin(
                seq![WindowOpView::OpenOrReuse { label, spec: second_spec }],
            );
            &&& first == WindowStepView::Perform(
                WindowActionView::Create { label, spec: first_spec },
            )
            &&& done == WindowStepView::Finished(Ok(()))
            &&& opened.registry.contains(label)
            &&& second == WindowStepView::Finished(Ok(()))
            &&& again.registry == opened.registry
        }),
{
    reveal_with_fuel(ControllerView::seek, 3);
    let once = seq![WindowOpView::OpenOrReuse { label, spec: first_spec }];
    let twice = seq![WindowOpView::OpenOrReuse { label, spec: second_spec }];
    assert(once.drop_first().len() == 0);
    assert(twice.drop_first().len() == 0);
}

} // verus!
