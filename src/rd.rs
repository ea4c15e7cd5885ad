//! The realm descriptor: a handle over one granule in state `RD`.
use vstd::prelude::*;

use crate::granule::{
    state_of, transition_result, valid_id, with_state, Granule, GranuleState, GranuleTable,
    StateError,
};

verus! {

/// Whether granule `g` of `t` holds the descriptor of realm `realm`.
pub open spec fn holds_rd(t: Seq<Granule>, g: u64, realm: u64) -> bool {
    valid_id(t, g) && state_of(t, g) == GranuleState::RD && t[g as int].realm == realm
}

/// Handle over the granule that holds one realm's descriptor. It is made only
/// by turning a delegated granule into `RD`, or over a granule already `RD`,
/// and `destroy` consumes it.
#[derive(Debug)]
pub struct Rd {
    granule: u64,
    id: u64,
}

impl Rd {
    /// The granule behind the handle.
    pub closed spec fn granule_id(&self) -> u64 {
        self.granule
    }

    /// The realm the handle stands for.
    pub closed spec fn realm_id(&self) -> u64 {
        self.id
    }

    /// Whether the handle agrees with the granule table `t`.
    pub open spec fn wf(&self, t: Seq<Granule>) -> bool {
        holds_rd(t, self.granule_id(), self.realm_id())
    }

    /// Turns the delegated granule `g` into the descriptor of realm `id`.
    /// Where `g` is not delegated, no handle is made and the table is left
    /// as it was.
    pub fn new(table: &mut GranuleTable, g: u64, id: u64) -> (r: Result<Rd, StateError>)
        ensures
            r is Ok <==> valid_id(old(table)@, g) && state_of(old(table)@, g)
                == GranuleState::Delegated,
            r is Err ==> r == Err::<Rd, StateError>(
                transition_result(old(table)@, g, GranuleState::Delegated, GranuleState::RD)->Err_0,
            ) && final(table)@ == old(table)@,
            r matches Ok(rd) ==> final(table)@ == old(table)@.update(
                g as int,
                Granule { state: GranuleState::RD, realm: id },
            ) && rd.granule_id() == g && rd.realm_id() == id && rd.wf(final(table)@),
    {
        match table.stamp_rd(g, id) {
            Ok(()) => Ok(Rd { granule: g, id }),
            Err(e) => Err(e),
        }
    }

    /// The handle over granule `g`, which must already hold a descriptor.
    pub fn into(table: &GranuleTable, g: u64) -> (r: Result<Rd, StateError>)
        ensures
            r is Ok <==> valid_id(table@, g) && state_of(table@, g) == GranuleState::RD,
            !valid_id(table@, g) ==> r == Err::<Rd, StateError>(StateError::InvalidGranule),
            valid_id(table@, g) && state_of(table@, g) != GranuleState::RD ==> r == Err::<
                Rd,
                StateError,
            >(StateError::WrongState),
            r matches Ok(rd) ==> rd.granule_id() == g && rd.realm_id() == table@[g as int].realm
                && rd.wf(table@),
    {
        match table.get(g) {
            None => Err(StateError::InvalidGranule),
            Some(entry) => {
                if entry.state == GranuleState::RD {
                    Ok(Rd { granule: g, id: entry.realm })
                } else {
                    Err(StateError::WrongState)
                }
            },
        }
    }

    /// The granule behind the handle.
    pub fn granule(&self) -> (r: u64)
        ensures
            r == self.granule_id(),
    {
        self.granule
    }

    /// The realm the handle stands for.
    pub fn id(&self) -> (r: u64)
        ensures
            r == self.realm_id(),
    {
        self.id
    }

    /// Tears the descriptor down: its granule goes back to `Delegated`, and
    /// the realm id is returned. The handle is consumed.
    pub fn destroy(self, table: &mut GranuleTable) -> (r: u64)
        requires
            self.wf(old(table)@),
        ensures
            r == self.realm_id(),
            final(table)@ == with_state(old(table)@, self.granule_id(), GranuleState::Delegated),
    {
        let res = table.transition(self.granule, GranuleState::RD, GranuleState::Delegated);
        assert(res is Ok);
        self.id
    }
}

} // verus!
