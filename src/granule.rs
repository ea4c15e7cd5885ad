//! The granule ownership state machine.
use vstd::prelude::*;

verus! {

/// The role of one granule of physical memory.
#[derive(PartialEq, Eq, Structural, Clone, Copy, Debug)]
pub enum GranuleState {
    /// Owned by the normal world.
    Undelegated,
    /// Reserved for the monitor, with no role yet.
    Delegated,
    /// Holds a realm descriptor.
    RD,
}

/// One granule: its state and, while it is `RD`, the id of its realm.
#[derive(PartialEq, Eq, Structural, Clone, Copy, Debug)]
pub struct Granule {
    pub state: GranuleState,
    pub realm: u64,
}

/// Why a granule transition was refused.
#[derive(PartialEq, Eq, Structural, Clone, Copy, Debug)]
pub enum StateError {
    /// No granule has this id.
    InvalidGranule,
    /// The state machine has no step between the two states.
    Forbidden,
    /// The granule is not in the expected state.
    WrongState,
}

/// The steps of the state machine.
pub open spec fn permitted(from: GranuleState, to: GranuleState) -> bool {
    ||| from == GranuleState::Undelegated && to == GranuleState::Delegated
    ||| from == GranuleState::Delegated && to == GranuleState::RD
    ||| from == GranuleState::RD && to == GranuleState::Delegated
    ||| from == GranuleState::Delegated && to == GranuleState::Undelegated
}

fn is_permitted(from: GranuleState, to: GranuleState) -> (r: bool)
    ensures
        r == permitted(from, to),
{
    match (from, to) {
        (GranuleState::Undelegated, GranuleState::Delegated) => true,
        (GranuleState::Delegated, GranuleState::RD) => true,
        (GranuleState::RD, GranuleState::Delegated) => true,
        (GranuleState::Delegated, GranuleState::Undelegated) => true,
        _ => false,
    }
}

/// Whether `g` names a granule of the table `t`.
pub open spec fn valid_id(t: Seq<Granule>, g: u64) -> bool {
    g < t.len()
}

/// The state of granule `g` in `t`.
pub open spec fn state_of(t: Seq<Granule>, g: u64) -> GranuleState
    recommends
        valid_id(t, g),
{
    t[g as int].state
}

/// The outcome of `transition` on table `t`.
pub open spec fn transition_result(
    t: Seq<Granule>,
    g: u64,
    expected: GranuleState,
    new: GranuleState,
) -> Result<(), StateError> {
    if !valid_id(t, g) {
        Err(StateError::InvalidGranule)
    } else if !permitted(expected, new) {
        Err(StateError::Forbidden)
    } else if state_of(t, g) != expected {
        Err(StateError::WrongState)
    } else {
        Ok(())
    }
}

/// The table after a successful transition of granule `g` to `new`.
pub open spec fn with_state(t: Seq<Granule>, g: u64, new: GranuleState) -> Seq<Granule> {
    t.update(g as int, Granule { state: new, realm: t[g as int].realm })
}

/// The state of every granule, indexed by granule id.
pub struct GranuleTable {
    entries: Vec<Granule>,
}

impl View for GranuleTable {
    type V = Seq<Granule>;

    closed spec fn view(&self) -> Seq<Granule> {
        self.entries@
    }
}

impl GranuleTable {
    /// A table of `n` granules, all undelegated.
    pub fn new(n: usize) -> (r: GranuleTable)
        ensures
            r@.len() == n,
            forall|i: int|
                0 <= i < n ==> (#[trigger] r@[i]).state == GranuleState::Undelegated
                    && r@[i].realm == 0,
    {
        let mut entries: Vec<Granule> = Vec::new();
        let mut i: usize = 0;
        while i < n
            invariant
                i <= n,
                entries@.len() == i,
                forall|j: int|
                    0 <= j < i ==> (#[trigger] entries@[j]).state == GranuleState::Undelegated
                        && entries@[j].realm == 0,
            decreases n - i,
        {
            entries.push(Granule { state: GranuleState::Undelegated, realm: 0 });
            i = i + 1;
        }
        GranuleTable { entries }
    }

    /// The number of granules.
    pub fn len(&self) -> (r: usize)
        ensures
            r == self@.len(),
    {
        self.entries.len()
    }

    /// The granule with id `g`, if there is one.
    pub fn get(&self, g: u64) -> (r: Option<Granule>)
        ensures
            r == (if valid_id(self@, g) {
                Some(self@[g as int])
            } else {
                None::<Granule>
            }),
    {
        if g < self.entries.len() as u64 {
            Some(self.entries[g as usize])
        } else {
            None
        }
    }

    /// Moves granule `g` from `expected` to `new`, if that is a step of the
    /// state machine and the granule is in `expected`; otherwise changes
    /// nothing.
    pub fn transition(&mut self, g: u64, expected: GranuleState, new: GranuleState) -> (r: Result<
        (),
        StateError,
    >)
        ensures
            r == transition_result(old(self)@, g, expected, new),
            r is Ok ==> final(self)@ == with_state(old(self)@, g, new),
            r is Err ==> final(self)@ == old(self)@,
    {
        if g >= self.entries.len() as u64 {
            return Err(StateError::InvalidGranule);
        }
        if !is_permitted(expected, new) {
            return Err(StateError::Forbidden);
        }
        let i = g as usize;
        let cur = self.entries[i];
        if cur.state != expected {
            return Err(StateError::WrongState);
        }
        self.entries.set(i, Granule { state: new, realm: cur.realm });
        Ok(())
    }

    /// Moves granule `g` from `Delegated` to `RD` and stamps it with `realm`.
    pub(crate) fn stamp_rd(&mut self, g: u64, realm: u64) -> (r: Result<(), StateError>)
        ensures
            r == transition_result(old(self)@, g, GranuleState::Delegated, GranuleState::RD),
            r is Ok ==> final(self)@ == old(self)@.update(
                g as int,
                Granule { state: GranuleState::RD, realm },
            ),
            r is Err ==> final(self)@ == old(self)@,
    {
        if g >= self.entries.len() as u64 {
            return Err(StateError::InvalidGranule);
        }
        let i = g as usize;
        if self.entries[i].state != GranuleState::Delegated {
            return Err(StateError::WrongState);
        }
        self.entries.set(i, Granule { state: GranuleState::RD, realm });
        Ok(())
    }
}

/// A transition is a strict precondition check: it fails whenever the
/// granule is not in the expected state, and when it succeeds the granule's
/// state is afterwards exactly the new one, all others untouched.
pub proof fn lemma_transition_checks_state(
    t: Seq<Granule>,
    g: u64,
    expected: GranuleState,
    new: GranuleState,
)
    requires
        valid_id(t, g),
    ensures
        state_of(t, g) != expected ==> transition_result(t, g, expected, new) is Err,
        transition_result(t, g, expected, new) is Ok ==> state_of(with_state(t, g, new), g) == new,
        forall|h: u64|
            valid_id(t, h) && h != g ==> #[trigger] with_state(t, g, new)[h as int] == t[h as int],
{
}

} // verus!
