use navkit::route::is_active_route;
use navkit::route::Route;

#[test]
fn route_scenario() {
    let home = Route { key: 1 };
    let about = Route { key: 2 };
    assert!(is_active_route(Some(home), home));
    assert!(!is_active_route(Some(home), about));
}

#[test]
fn absent_current_route_is_never_active() {
    assert!(!is_active_route(None, Route { key: 1 }));
    assert!(!is_active_route(None, Route { key: 0 }));
    assert!(!is_active_route(None, Route { key: u64::MAX }));
}

#[test]
fn different_current_route_is_inactive() {
    let target = Route { key: 7 };
    let other = Route { key: 8 };
    assert!(!is_active_route(Some(other), target));
    assert!(is_active_route(Some(target), target));
}
