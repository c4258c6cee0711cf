//! The registry of live windows: at most one window per label.

use vstd::prelude::*;

use crate::text::str_eq;
use crate::window::types::{
    WindowError, WindowErrorView, WindowHandle, WindowSpec, WindowState,
};

verus! {

/// The registry as a mathematical value: the live windows by label, and the
/// identity the next new window will get.
pub struct RegistryView {
    pub windows: Map<Seq<char>, WindowState>,
    pub next_id: nat,
}

impl RegistryView {
    /// No two live windows share a handle, every handle in use was handed out
    /// before `next_id`, and at most one window has the focus.
    pub open spec fn wf(self) -> bool {
        &&& forall|k: Seq<char>| #[trigger]
            self.windows.contains_key(k) ==> self.windows[k].handle.id < self.next_id
        &&& forall|j: Seq<char>, k: Seq<char>|
            #![trigger self.windows[j], self.windows[k]]
            self.windows.contains_key(j) && self.windows.contains_key(k) && j != k
                ==> self.windows[j].handle != self.windows[k].handle
        &&& forall|j: Seq<char>, k: Seq<char>|
            #![trigger self.windows[j], self.windows[k]]
            self.windows.contains_key(j) && self.windows.contains_key(k) && j != k ==> !(
            self.windows[j].focused && self.windows[k].focused)
    }

    /// Whether a window is live under `label`.
    pub open spec fn contains(self, label: Seq<char>) -> bool {
        self.windows.contains_key(label)
    }

    /// Whether another window can still be given an identity.
    pub open spec fn has_room(self) -> bool {
        self.next_id < u64::MAX
    }

    /// The state a newly constructed window starts in.
    pub open spec fn fresh_state(self, visible: bool) -> WindowState {
        WindowState {
            handle: WindowHandle { id: self.next_id as u64 },
            visible,
            focused: false,
            minimized: false,
        }
    }

    /// A new window is registered under `label`, taking the place of any
    /// window that carried the label before.
    pub open spec fn opened(self, label: Seq<char>, visible: bool) -> RegistryView {
        RegistryView {
            windows: self.windows.insert(label, self.fresh_state(visible)),
            next_id: self.next_id + 1,
        }
    }

    /// The window under `label` is reused if there is one, else a new one is
    /// registered.
    pub open spec fn opened_or_reused(self, label: Seq<char>, visible: bool) -> RegistryView {
        if self.contains(label) {
            self
        } else {
            self.opened(label, visible)
        }
    }

    /// The window under `label` has become visible.
    pub open spec fn shown(self, label: Seq<char>) -> RegistryView {
        if self.contains(label) {
            RegistryView {
                windows: self.windows.insert(
                    label,
                    WindowState { visible: true, ..self.windows[label] },
                ),
                ..self
            }
        } else {
            self
        }
    }

    /// The window under `label` has taken the focus from all others.
    pub open spec fn focused(self, label: Seq<char>) -> RegistryView {
        if self.contains(label) {
            RegistryView {
                windows: Map::new(
                    |k: Seq<char>| self.windows.contains_key(k),
                    |k: Seq<char>| WindowState { focused: k == label, ..self.windows[k] },
                ),
                ..self
            }
        } else {
            self
        }
    }

    /// The registry brought in line with what the windowing system holds
    /// under `label`: a window with the given visibility, or none. A window
    /// the registry knows stays as it is recorded; one it did not know is
    /// registered if an identity is left for it; one that is gone is removed.
    pub open spec fn observed(self, label: Seq<char>, present: Option<bool>) -> RegistryView {
        match present {
            Some(visible) => if self.has_room() {
                self.opened_or_reused(label, visible)
            } else {
                self
            },
            None => self.closed(label),
        }
    }

    /// The window under `label` is gone.
    pub open spec fn closed(self, label: Seq<char>) -> RegistryView {
        RegistryView { windows: self.windows.remove(label), ..self }
    }

    /// The window under `label` has been minimized; it stays registered.
    pub open spec fn minimized(self, label: Seq<char>) -> RegistryView {
        if self.contains(label) {
            RegistryView {
                windows: self.windows.insert(
                    label,
                    WindowState { minimized: true, ..self.windows[label] },
                ),
                ..self
            }
        } else {
            self
        }
    }
}

/// Whether `key` is one of `labels`.
spec fn listed(labels: Seq<String>, key: Seq<char>) -> bool {
    exists|i: int| 0 <= i < labels.len() && #[trigger] labels[i]@ == key
}

/// A position of `key` among `labels`.
spec fn place_of(labels: Seq<String>, key: Seq<char>) -> int {
    choose|i: int| 0 <= i < labels.len() && #[trigger] labels[i]@ == key
}

/// No label occurs twice.
spec fn distinct(labels: Seq<String>) -> bool {
    forall|i: int, j: int|
        0 <= i < j < labels.len() ==> #[trigger] labels[i]@ != #[trigger] labels[j]@
}

proof fn lemma_place(labels: Seq<String>, i: int)
    requires
        distinct(labels),
        0 <= i < labels.len(),
    ensures
        listed(labels, labels[i]@),
        place_of(labels, labels[i]@) == i,
{
    let key = labels[i]@;
    let p = place_of(labels, key);
    assert(0 <= p < labels.len() && labels[p]@ == key);
    if p < i {
        assert(labels[p]@ != labels[i]@);
    } else if i < p {
        assert(labels[i]@ != labels[p]@);
    }
}

proof fn lemma_listed(labels: Seq<String>, key: Seq<char>)
    requires
        listed(labels, key),
    ensures
        0 <= place_of(labels, key) < labels.len(),
        labels[place_of(labels, key)]@ == key,
{
}

/// The live windows, by label.
pub struct WindowRegistry {
    labels: Vec<String>,
    states: Vec<WindowState>,
    next_id: u64,
}

impl View for WindowRegistry {
    type V = RegistryView;

    closed spec fn view(&self) -> RegistryView {
        RegistryView {
            windows: Map::new(
                |k: Seq<char>| listed(self.labels@, k),
                |k: Seq<char>| self.states@[place_of(self.labels@, k)],
            ),
            next_id: self.next_id as nat,
        }
    }
}

impl WindowRegistry {
    /// The representation is sound: one state per label, no label twice.
    pub closed spec fn inv(&self) -> bool {
        &&& self.labels@.len() == self.states@.len()
        &&& distinct(self.labels@)
        &&& forall|i: int|
            0 <= i < self.states@.len() ==> (#[trigger] self.states@[i]).handle.id < self.next_id
        &&& forall|i: int, j: int|
            0 <= i < j < self.states@.len() ==> (#[trigger] self.states@[i]).handle != (
            #[trigger] self.states@[j]).handle
        &&& forall|i: int, j: int|
            0 <= i < j < self.states@.len() ==> !((#[trigger] self.states@[i]).focused && (
            #[trigger] self.states@[j]).focused)
    }

    /// The registry is valid: its representation is sound and its windows
    /// keep the registry's promises.
    pub open spec fn wf(&self) -> bool {
        self.inv() && self@.wf()
    }

    proof fn lemma_view_wf(&self)
        requires
            self.inv(),
        ensures
            self@.wf(),
    {
        let labels = self.labels@;
        let view = self@;
        assert forall|k: Seq<char>| #[trigger]
            view.windows.contains_key(k) implies view.windows[k].handle.id < view.next_id by {
            lemma_listed(labels, k);
        }
        assert forall|j: Seq<char>, k: Seq<char>|
            view.windows.contains_key(j) && view.windows.contains_key(k) && j != k implies (
        #[trigger] view.windows[j]).handle != (#[trigger] view.windows[k]).handle && !(
        view.windows[j].focused && view.windows[k].focused) by {
            lemma_listed(labels, j);
            lemma_listed(labels, k);
            let a = place_of(labels, j);
            let b = place_of(labels, k);
            if a < b {
                assert(self.states@[a].handle != self.states@[b].handle);
                assert(!(self.states@[a].focused && self.states@[b].focused));
            } else {
                assert(self.states@[b].handle != self.states@[a].handle);
                assert(!(self.states@[b].focused && self.states@[a].focused));
            }
        }
    }

    /// A registry without windows.
    pub fn new() -> (registry: WindowRegistry)
        ensures
            registry.wf(),
            registry@.windows == Map::<Seq<char>, WindowState>::empty(),
            registry@.next_id == 0,
    {
        let registry = WindowRegistry { labels: Vec::new(), states: Vec::new(), next_id: 0 };
        proof {
            registry.lemma_view_wf();
            assert(registry@.windows =~= Map::<Seq<char>, WindowState>::empty());
        }
        registry
    }

    fn position(&self, label: &str) -> (found: Option<usize>)
        requires
            self.inv(),
        ensures
            match found {
                Some(i) => i < self.labels@.len() && self.labels@[i as int]@ == label@,
                None => !listed(self.labels@, label@),
            },
            found is Some <==> self@.contains(label@),
            found matches Some(i) ==> self@.windows[label@] == self.states@[i as int],
    {
        let mut i: usize = 0;
        while i < self.labels.len()
            invariant
                self.inv(),
                i <= self.labels@.len(),
                forall|j: int| 0 <= j < i ==> (#[trigger] self.labels@[j])@ != label@,
            decreases self.labels@.len() - i,
        {
            if str_eq(self.labels[i].as_str(), label) {
                proof {
                    lemma_place(self.labels@, i as int);
                }
                return Some(i);
            }
            i += 1;
        }
        None
    }

    /// Whether a window is live under `label`.
    pub fn is_live(&self, label: &str) -> (live: bool)
        requires
            self.wf(),
        ensures
            live == self@.contains(label@),
    {
        self.position(label).is_some()
    }

    /// The state of the window under `label`, if one is live.
    pub fn state_of(&self, label: &str) -> (state: Option<WindowState>)
        requires
            self.wf(),
        ensures
            state == if self@.contains(label@) {
                Some(self@.windows[label@])
            } else {
                None
            },
    {
        match self.position(label) {
            Some(i) => Some(self.states[i]),
            None => None,
        }
    }

    /// The handle of the window under `label`, if one is live.
    pub fn handle_of(&self, label: &str) -> (handle: Option<WindowHandle>)
        requires
            self.wf(),
        ensures
            handle == if self@.contains(label@) {
                Some(self@.windows[label@].handle)
            } else {
                None
            },
    {
        match self.position(label) {
            Some(i) => Some(self.states[i].handle),
            None => None,
        }
    }

    /// Whether another window can still be given an identity.
    pub fn has_room(&self) -> (room: bool)
        ensures
            room == self@.has_room(),
    {
        self.next_id < u64::MAX
    }

    /// Registers a newly constructed window under `label`. A window that
    /// carried the label before is superseded: the label now names the new one.
    pub fn open_fresh(&mut self, label: &str, spec: &WindowSpec) -> (handle: WindowHandle)
        requires
            old(self).wf(),
            old(self)@.has_room(),
        ensures
            final(self).wf(),
            final(self)@ == old(self)@.opened(label@, spec.visible),
            handle == old(self)@.fresh_state(spec.visible).handle,
    {
        let handle = WindowHandle { id: self.next_id };
        let state = WindowState { handle, visible: spec.visible, focused: false, minimized: false };
        let ghost before = *self;
        match self.position(label) {
            Some(i) => {
                self.states.set(i, state);
                self.next_id = self.next_id + 1;
                proof {
                    assert forall|k: Seq<char>| listed(self.labels@, k) implies self.states@[place_of(
                        self.labels@,
                        k,
                    )] == before@.opened(label@, spec.visible).windows[k] by {
                        lemma_listed(self.labels@, k);
                        lemma_place(self.labels@, i as int);
                    }
                }
            },
            None => {
                self.register(label, state);
            },
        }
        proof {
            assert(self@.windows =~= before@.opened(label@, spec.visible).windows);
            self.lemma_view_wf();
        }
        handle
    }

    fn register(&mut self, label: &str, state: WindowState)
        requires
            old(self).wf(),
            old(self)@.has_room(),
            !old(self)@.contains(label@),
            state == old(self)@.fresh_state(state.visible),
        ensures
            final(self).wf(),
            final(self)@ == old(self)@.opened(label@, state.visible),
    {
        let ghost before = *self;
        assert(!listed(self.labels@, label@));
        self.labels.push(label.to_string());
        self.states.push(state);
        self.next_id = self.next_id + 1;
        proof {
            let n = before.labels@.len() as int;
            assert(self.labels@[n]@ == label@);
            assert forall|a: int, b: int| 0 <= a < b < self.labels@.len() implies (
            #[trigger] self.labels@[a])@ != (#[trigger] self.labels@[b])@ by {
                if b == n {
                    assert(before.labels@[a]@ == self.labels@[a]@);
                    lemma_place(before.labels@, a);
                } else {
                    assert(before.labels@[a]@ != before.labels@[b]@);
                }
            }
            assert forall|k: Seq<char>|
                listed(self.labels@, k) <==> (listed(before.labels@, k) || k == label@) by {
                if listed(self.labels@, k) {
                    lemma_listed(self.labels@, k);
                    let p = place_of(self.labels@, k);
                    if p < n {
                        assert(before.labels@[p]@ == k);
                    }
                }
                if listed(before.labels@, k) {
                    lemma_listed(before.labels@, k);
                    let p = place_of(before.labels@, k);
                    assert(self.labels@[p]@ == k);
                }
            }
            assert forall|k: Seq<char>| listed(self.labels@, k) implies self.states@[place_of(
                self.labels@,
                k,
            )] == before@.opened(label@, state.visible).windows[k] by {
                lemma_listed(self.labels@, k);
                let p = place_of(self.labels@, k);
                if p < n {
                    lemma_place(before.labels@, p);
                }
            }
            assert(self@.windows =~= before@.opened(label@, state.visible).windows);
            self.lemma_view_wf();
        }
    }

    /// The window under `label`: the live one if there is one, else a newly
    /// registered one. A live window is handed back as it is; `spec` is not
    /// applied to it.
    pub fn open_or_reuse(&mut self, label: &str, spec: &WindowSpec) -> (handle: WindowHandle)
        requires
            old(self).wf(),
            old(self)@.contains(label@) || old(self)@.has_room(),
        ensures
            final(self).wf(),
            final(self)@ == old(self)@.opened_or_reused(label@, spec.visible),
            final(self)@.contains(label@),
            handle == final(self)@.windows[label@].handle,
            old(self)@.contains(label@) ==> handle == old(self)@.windows[label@].handle,
    {
        match self.position(label) {
            Some(i) => self.states[i].handle,
            None => self.open_fresh(label, spec),
        }
    }

    fn replace_state(&mut self, i: usize, state: WindowState)
        requires
            old(self).wf(),
            i < old(self).states@.len(),
            state.handle == old(self).states@[i as int].handle,
            state.focused == old(self).states@[i as int].focused,
        ensures
            final(self).wf(),
            final(self)@ == (RegistryView {
                windows: old(self)@.windows.insert(old(self).labels@[i as int]@, state),
                ..old(self)@
            }),
    {
        let ghost before = *self;
        self.states.set(i, state);
        proof {
            let key = self.labels@[i as int]@;
            lemma_place(self.labels@, i as int);
            assert forall|k: Seq<char>| listed(self.labels@, k) implies self.states@[place_of(
                self.labels@,
                k,
            )] == before@.windows.insert(key, state)[k] by {
                lemma_listed(self.labels@, k);
            }
            assert(self@.windows =~= before@.windows.insert(key, state));
            self.lemma_view_wf();
        }
    }

    /// Records that the window under `label` has been made visible.
    pub fn show(&mut self, label: &str) -> (done: Result<(), WindowError>)
        requires
            old(self).wf(),
        ensures
            final(self).wf(),
            final(self)@ == old(self)@.shown(label@),
            old(self)@.contains(label@) ==> done is Ok,
            !old(self)@.contains(label@) ==> (done matches Err(e) && e@ == (
            WindowErrorView::NotFound { label: label@ })),
    {
        match self.position(label) {
            Some(i) => {
                let state = WindowState { visible: true, ..self.states[i] };
                self.replace_state(i, state);
                Ok(())
            },
            None => Err(WindowError::NotFound { label: label.to_string() }),
        }
    }

    /// Records that the window under `label` has taken the focus; every
    /// other window loses it.
    pub fn focus(&mut self, label: &str) -> (done: Result<(), WindowError>)
        requires
            old(self).wf(),
        ensures
            final(self).wf(),
            final(self)@ == old(self)@.focused(label@),
            old(self)@.contains(label@) ==> done is Ok,
            !old(self)@.contains(label@) ==> (done matches Err(e) && e@ == (
            WindowErrorView::NotFound { label: label@ })),
    {
        match self.position(label) {
            Some(at) => {
                let ghost before = *self;
                let mut i: usize = 0;
                while i < self.states.len()
                    invariant
                        before.inv(),
                        i <= self.states@.len(),
                        self.labels == before.labels,
                        self.next_id == before.next_id,
                        self.states@.len() == before.states@.len(),
                        forall|j: int|
                            0 <= j < i ==> #[trigger] self.states@[j] == (WindowState {
                                focused: j == at,
                                ..before.states@[j]
                            }),
                        forall|j: int|
                            i <= j < self.states@.len() ==> #[trigger] self.states@[j]
                                == before.states@[j],
                    decreases self.states@.len() - i,
                {
                    let state = WindowState { focused: i == at, ..self.states[i] };
                    self.states.set(i, state);
                    i += 1;
                }
                proof {
                    assert forall|a: int, b: int| 0 <= a < b < self.states@.len() implies (
                    #[trigger] self.states@[a]).handle != (#[trigger] self.states@[b]).handle by {
                        assert(before.states@[a].handle != before.states@[b].handle);
                    }
                    assert forall|a: int| 0 <= a < self.states@.len() implies (
                    #[trigger] self.states@[a]).handle.id < self.next_id by {
                        assert(before.states@[a].handle.id < before.next_id);
                    }
                    assert(self.inv());
                    assert forall|k: Seq<char>| listed(self.labels@, k) implies self.states@[place_of(
                        self.labels@,
                        k,
                    )] == before@.focused(label@).windows[k] by {
                        lemma_listed(self.labels@, k);
                        lemma_place(self.labels@, at as int);
                    }
                    assert(self@.windows =~= before@.focused(label@).windows);
                    self.lemma_view_wf();
                }
                Ok(())
            },
            None => Err(WindowError::NotFound { label: label.to_string() }),
        }
    }

    /// Records that the window under `label` is gone. Nothing changes where
    /// no window is live under the label.
    pub fn close(&mut self, label: &str) -> (was_live: bool)
        requires
            old(self).wf(),
        ensures
            final(self).wf(),
            final(self)@ == old(self)@.closed(label@),
            was_live == old(self)@.contains(label@),
    {
        let ghost before = *self;
        match self.position(label) {
            Some(at) => {
                self.labels.remove(at);
                self.states.remove(at);
                proof {
                    let shift = |j: int| if j < at { j } else { j + 1 };
                    assert forall|j: int| 0 <= j < self.labels@.len() implies (
                    #[trigger] self.labels@[j]) == before.labels@[shift(j)] && self.states@[j]
                        == before.states@[shift(j)] by {}
                    assert forall|a: int, b: int| 0 <= a < b < self.labels@.len() implies (
                    #[trigger] self.labels@[a])@ != (#[trigger] self.labels@[b])@ by {
                        assert(before.labels@[shift(a)]@ != before.labels@[shift(b)]@);
                    }
                    assert forall|a: int, b: int| 0 <= a < b < self.states@.len() implies (
                    #[trigger] self.states@[a]).handle != (#[trigger] self.states@[b]).handle
                        && !(self.states@[a].focused && self.states@[b].focused) by {
                        assert(before.states@[shift(a)].handle != before.states@[shift(b)].handle);
                        assert(!(before.states@[shift(a)].focused && before.states@[shift(
                            b,
                        )].focused));
                    }
                    assert forall|a: int| 0 <= a < self.states@.len() implies (
                    #[trigger] self.states@[a]).handle.id < self.next_id by {
                        assert(before.states@[shift(a)].handle.id < before.next_id);
                    }
                    assert(self.inv());
                    lemma_place(before.labels@, at as int);
                    assert forall|k: Seq<char>|
                        listed(self.labels@, k) <==> (listed(before.labels@, k) && k != label@) by {
                        if listed(self.labels@, k) {
                            lemma_listed(self.labels@, k);
                            let p = place_of(self.labels@, k);
                            assert(before.labels@[shift(p)]@ == k);
                            lemma_place(before.labels@, shift(p));
                        }
                        if listed(before.labels@, k) && k != label@ {
                            lemma_listed(before.labels@, k);
                            let q = place_of(before.labels@, k);
                            let p = if q < at { q } else { q - 1 };
                            assert(self.labels@[p]@ == k);
                        }
                    }
                    assert forall|k: Seq<char>| listed(self.labels@, k) implies self.states@[place_of(
                        self.labels@,
                        k,
                    )] == before@.windows[k] by {
                        lemma_listed(self.labels@, k);
                        let p = place_of(self.labels@, k);
                        assert(before.labels@[shift(p)]@ == k);
                        lemma_place(before.labels@, shift(p));
                    }
                    assert(self@.windows =~= before@.closed(label@).windows);
                    self.lemma_view_wf();
                }
                true
            },
            None => {
                proof {
                    assert(self@.windows =~= before@.closed(label@).windows);
                }
                false
            },
        }
    }

    /// Brings the registry in line with what the windowing system holds
    /// under `label`: a window with the given visibility, or none.
    pub fn observe(&mut self, label: &str, present: Option<bool>)
        requires
            old(self).wf(),
        ensures
            final(self).wf(),
            final(self)@ == old(self)@.observed(label@, present),
    {
        match present {
            Some(visible) => {
                if self.has_room() && !self.is_live(label) {
                    let handle = WindowHandle { id: self.next_id };
                    let state = WindowState { handle, visible, focused: false, minimized: false };
                    self.register(label, state);
                }
            },
            None => {
                self.close(label);
            },
        }
    }

    /// Records that the window under `label` has been minimized. Nothing
    /// changes where no window is live under the label.
    pub fn minimize(&mut self, label: &str) -> (was_live: bool)
        requires
            old(self).wf(),
        ensures
            final(self).wf(),
            final(self)@ == old(self)@.minimized(label@),
            was_live == old(self)@.contains(label@),
    {
        match self.position(label) {
            Some(i) => {
                let state = WindowState { minimized: true, ..self.states[i] };
                self.replace_state(i, state);
                true
            },
            None => false,
        }
    }
}

} // verus!
