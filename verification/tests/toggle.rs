use navkit::toggle::NavMenuState;
use navkit::toggle::NavMenuStateAction;

#[test]
fn toggle_scenario() {
    let s0 = NavMenuState::initial();
    assert_eq!(s0, NavMenuState { shown: false });
    let s1 = s0.reduce(NavMenuStateAction::Toggle);
    assert_eq!(s1, NavMenuState { shown: true });
    let s2 = s1.reduce(NavMenuStateAction::Toggle);
    assert_eq!(s2, NavMenuState { shown: false });
}

#[test]
fn open_then_close_always_hides() {
    for start in [false, true] {
        let s = NavMenuState { shown: start };
        let closed = s.reduce(NavMenuStateAction::Open).reduce(NavMenuStateAction::Close);
        assert_eq!(closed, NavMenuState { shown: false });
    }
}

#[test]
fn toggle_twice_is_identity() {
    for start in [false, true] {
        let s = NavMenuState { shown: start };
        let back = s.reduce(NavMenuStateAction::Toggle).reduce(NavMenuStateAction::Toggle);
        assert_eq!(back, s);
    }
}

#[test]
fn open_and_close_are_idempotent() {
    for start in [false, true] {
        let s = NavMenuState { shown: start };
        let once_open = s.reduce(NavMenuStateAction::Open);
        assert_eq!(once_open.reduce(NavMenuStateAction::Open), once_open);
        let once_closed = s.reduce(NavMenuStateAction::Close);
        assert_eq!(once_closed.reduce(NavMenuStateAction::Close), once_closed);
    }
}

#[test]
fn every_transition_of_the_table() {
    let hidden = NavMenuState { shown: false };
    let shown = NavMenuState { shown: true };
    assert_eq!(hidden.reduce(NavMenuStateAction::Open), shown);
    assert_eq!(shown.reduce(NavMenuStateAction::Open), shown);
    assert_eq!(shown.reduce(NavMenuStateAction::Close), hidden);
    assert_eq!(hidden.reduce(NavMenuStateAction::Close), hidden);
    assert_eq!(hidden.reduce(NavMenuStateAction::Toggle), shown);
    assert_eq!(shown.reduce(NavMenuStateAction::Toggle), hidden);
}
