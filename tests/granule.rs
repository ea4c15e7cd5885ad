use rmm::granule::{Granule, GranuleState, GranuleTable, StateError};
use rmm::rd::Rd;

#[test]
fn new_table_is_undelegated() {
    let t = GranuleTable::new(3);
    assert_eq!(t.len(), 3);
    for g in 0..3u64 {
        assert_eq!(t.get(g), Some(Granule { state: GranuleState::Undelegated, realm: 0 }));
    }
    assert_eq!(t.get(3), None);
}

#[test]
fn transition_follows_state_machine() {
    let mut t = GranuleTable::new(2);
    assert_eq!(t.transition(1, GranuleState::Undelegated, GranuleState::Delegated), Ok(()));
    assert_eq!(t.get(1).unwrap().state, GranuleState::Delegated);
    assert_eq!(t.get(0).unwrap().state, GranuleState::Undelegated);
    assert_eq!(t.transition(1, GranuleState::Delegated, GranuleState::RD), Ok(()));
    assert_eq!(t.get(1).unwrap().state, GranuleState::RD);
    assert_eq!(t.transition(1, GranuleState::RD, GranuleState::Delegated), Ok(()));
    assert_eq!(t.transition(1, GranuleState::Delegated, GranuleState::Undelegated), Ok(()));
    assert_eq!(t.get(1).unwrap().state, GranuleState::Undelegated);
}

#[test]
fn transition_wrong_state_changes_nothing() {
    let mut t = GranuleTable::new(1);
    assert_eq!(
        t.transition(0, GranuleState::Delegated, GranuleState::RD),
        Err(StateError::WrongState)
    );
    assert_eq!(
        t.transition(0, GranuleState::RD, GranuleState::Delegated),
        Err(StateError::WrongState)
    );
    assert_eq!(t.get(0).unwrap().state, GranuleState::Undelegated);
}

#[test]
fn transition_refuses_forbidden_step_and_bad_id() {
    let mut t = GranuleTable::new(1);
    assert_eq!(
        t.transition(0, GranuleState::Undelegated, GranuleState::RD),
        Err(StateError::Forbidden)
    );
    assert_eq!(
        t.transition(5, GranuleState::Undelegated, GranuleState::Delegated),
        Err(StateError::InvalidGranule)
    );
    assert_eq!(t.get(0).unwrap().state, GranuleState::Undelegated);
}

#[test]
fn rd_new_needs_delegated_granule() {
    let mut t = GranuleTable::new(2);
    assert_eq!(Rd::new(&mut t, 0, 9).unwrap_err(), StateError::WrongState);
    assert_eq!(t.get(0), Some(Granule { state: GranuleState::Undelegated, realm: 0 }));
    assert_eq!(Rd::new(&mut t, 7, 9).unwrap_err(), StateError::InvalidGranule);
}

#[test]
fn rd_new_stamps_realm_id() {
    let mut t = GranuleTable::new(2);
    t.transition(1, GranuleState::Undelegated, GranuleState::Delegated).unwrap();
    let rd = Rd::new(&mut t, 1, 42).unwrap();
    assert_eq!(rd.granule(), 1);
    assert_eq!(rd.id(), 42);
    assert_eq!(t.get(1), Some(Granule { state: GranuleState::RD, realm: 42 }));
    assert_eq!(Rd::new(&mut t, 1, 43).unwrap_err(), StateError::WrongState);
    assert_eq!(t.get(1), Some(Granule { state: GranuleState::RD, realm: 42 }));
}

#[test]
fn rd_into_and_destroy() {
    let mut t = GranuleTable::new(1);
    assert_eq!(Rd::into(&t, 0).unwrap_err(), StateError::WrongState);
    assert_eq!(Rd::into(&t, 1).unwrap_err(), StateError::InvalidGranule);
    t.transition(0, GranuleState::Undelegated, GranuleState::Delegated).unwrap();
    Rd::new(&mut t, 0, 5).unwrap();
    let rd = Rd::into(&t, 0).unwrap();
    assert_eq!(rd.id(), 5);
    assert_eq!(rd.destroy(&mut t), 5);
    assert_eq!(t.get(0).unwrap().state, GranuleState::Delegated);
    assert_eq!(Rd::into(&t, 0).unwrap_err(), StateError::WrongState);
}
