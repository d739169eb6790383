//! The mapping table: which action each pad is bound to, and what each
//! action asks the executor to do on press and on release.
use vstd::prelude::*;

use vstd::pervasive::VecAdditionalExecFns;

use crate::note::MidiNote;

verus! {

/// A key symbol to inject.  The host process assigns each configured key an
/// identifier of its own and keeps the platform-specific key value beside
/// it; the core only carries the identifier through.
#[derive(Debug, Clone, Copy, PartialEq, Eq, Structural)]
pub struct KeySym(pub u32);

/// The behavior bound to a pad.
#[derive(Debug, PartialEq)]
pub enum Action {
    /// Inject a key event: down on press, up on release.
    Key(KeySym),
    /// Run a shell command on press and another on release; either may be
    /// absent.
    Shell { press: Option<String>, release: Option<String> },
}

/// One concrete instruction for the action executor.
#[derive(Debug, PartialEq)]
pub enum ActionEffect {
    /// Simulate the key going down.
    KeyDown(KeySym),
    /// Simulate the key coming up.
    KeyUp(KeySym),
    /// Spawn the given shell command.
    RunShell(String),
}

/// What an action asks of the executor when its pad is pressed.
pub open spec fn spec_press_effect(a: Action) -> Option<ActionEffect> {
    match a {
        Action::Key(k) => Some(ActionEffect::KeyDown(k)),
        Action::Shell { press: Some(c), release: _ } => Some(ActionEffect::RunShell(c)),
        Action::Shell { press: None, release: _ } => None,
    }
}

/// What an action asks of the executor when its pad is released.
pub open spec fn spec_release_effect(a: Action) -> Option<ActionEffect> {
    match a {
        Action::Key(k) => Some(ActionEffect::KeyUp(k)),
        Action::Shell { press: _, release: Some(c) } => Some(ActionEffect::RunShell(c)),
        Action::Shell { press: _, release: None } => None,
    }
}

/// The executor instruction for pressing a pad bound to this action, if the
/// action does anything on press.
pub fn press_effect(a: &Action) -> (r: Option<ActionEffect>)
    ensures
        r == spec_press_effect(*a),
{
    match a {
        Action::Key(k) => Some(ActionEffect::KeyDown(*k)),
        Action::Shell { press, release: _ } => match press {
            Some(c) => Some(ActionEffect::RunShell(c.clone())),
            None => None,
        },
    }
}

/// The executor instruction for releasing a pad bound to this action, if the
/// action does anything on release.
pub fn release_effect(a: &Action) -> (r: Option<ActionEffect>)
    ensures
        r == spec_release_effect(*a),
{
    match a {
        Action::Key(k) => Some(ActionEffect::KeyUp(*k)),
        Action::Shell { press: _, release } => match release {
            Some(c) => Some(ActionEffect::RunShell(c.clone())),
            None => None,
        },
    }
}

/// The table from pitch class to action: one slot per raw note number,
/// populated once at startup and read-only afterwards.
pub struct MappingTable {
    slots: Vec<Option<Action>>,
}

impl View for MappingTable {
    type V = Seq<Option<Action>>;

    closed spec fn view(&self) -> Seq<Option<Action>> {
        self.slots@
    }
}

impl MappingTable {
    /// One slot for each of the 128 raw note numbers.
    pub open spec fn wf(&self) -> bool {
        self@.len() == 128
    }

    /// The action bound to a pitch class: the slot at its note number, or
    /// nothing for a pitch class outside the wire range.
    pub open spec fn spec_lookup(&self, note: MidiNote) -> Option<Action> {
        if note.in_range() {
            self@[note.number()]
        } else {
            None
        }
    }

    /// Whether the table has its 128 slots, decided at run time.  Every
    /// table built through [`MappingTable::new`] and kept through
    /// [`MappingTable::insert`] passes.
    pub fn well_formed(&self) -> (b: bool)
        ensures
            b == self.wf(),
    {
        self.slots.len() == 128
    }

    /// An empty table: no pad is bound.
    pub fn new() -> (r: Self)
        ensures
            r.wf(),
            forall|i: int| 0 <= i < 128 ==> r@[i] is None,
    {
        let mut slots: Vec<Option<Action>> = Vec::new();
        let mut i: usize = 0;
        while i < 128
            invariant
                i <= 128,
                slots@.len() == i,
                forall|j: int| 0 <= j < i ==> slots@[j] is None,
            decreases 128 - i,
        {
            slots.push(None);
            i = i + 1;
        }
        MappingTable { slots }
    }

    /// Bind a pad to an action, replacing any earlier binding; keys stay
    /// unique because each pitch class owns one slot.  A pitch class outside
    /// the wire range has no pad and is refused.
    pub fn insert(&mut self, note: MidiNote, action: Action) -> (ok: bool)
        requires
            old(self).wf(),
        ensures
            final(self).wf(),
            note.in_range() ==> ok && final(self)@ == old(self)@.update(
                note.number(),
                Some(action),
            ),
            !note.in_range() ==> !ok && final(self)@ == old(self)@,
    {
        if note.is_in_range() {
            let idx = note.to_number();
            self.slots.set(idx as usize, Some(action));
            true
        } else {
            false
        }
    }

    /// The action bound to a pitch class, if any.  Absence is a normal "no
    /// action bound" outcome, not an error.
    pub fn lookup(&self, note: MidiNote) -> (r: Option<&Action>)
        requires
            self.wf(),
        ensures
            r matches Some(a) ==> self.spec_lookup(note) == Some(*a),
            r is None ==> self.spec_lookup(note) is None,
    {
        if note.is_in_range() {
            let idx = note.to_number();
            self.slots[idx as usize].as_ref()
        } else {
            None
        }
    }
}

} // verus!
