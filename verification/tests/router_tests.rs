use ripress::router::RouteRegistry;
use ripress::types::HttpMethods;

#[test]
fn first_registered_wins() {
    let mut reg: RouteRegistry<u64> = RouteRegistry::new();
    reg.register(HttpMethods::GET, "/a", 1);
    reg.register(HttpMethods::GET, "/a", 2);
    let i = reg.dispatch(HttpMethods::GET, "/a").unwrap();
    assert_eq!(i, 0);
    assert_eq!(*reg.handler_at(i), 1);
}

#[test]
fn unmatched_path_is_not_found() {
    let mut reg: RouteRegistry<u64> = RouteRegistry::new();
    reg.register(HttpMethods::GET, "/a", 1);
    assert!(reg.dispatch(HttpMethods::GET, "/b").is_none());
}

#[test]
fn dispatch_discriminates_method() {
    let mut reg: RouteRegistry<u64> = RouteRegistry::new();
    reg.register(HttpMethods::GET, "/a", 1);
    reg.register(HttpMethods::POST, "/a", 2);
    let i = reg.dispatch(HttpMethods::POST, "/a").unwrap();
    assert_eq!(*reg.handler_at(i), 2);
    assert!(reg.dispatch(HttpMethods::DELETE, "/a").is_none());
}

#[test]
fn path_comparison_is_literal_and_case_sensitive() {
    let mut reg: RouteRegistry<u64> = RouteRegistry::new();
    reg.register(HttpMethods::GET, "/Users", 1);
    assert!(reg.dispatch(HttpMethods::GET, "/users").is_none());
    assert!(reg.dispatch(HttpMethods::GET, "/Users/1").is_none());
    assert!(reg.dispatch(HttpMethods::GET, "/Users").is_some());
}

#[test]
fn later_distinct_routes_still_reachable() {
    let mut reg: RouteRegistry<u64> = RouteRegistry::new();
    reg.register(HttpMethods::GET, "/a", 1);
    reg.register(HttpMethods::GET, "/b", 2);
    let i = reg.dispatch(HttpMethods::GET, "/b").unwrap();
    assert_eq!(*reg.handler_at(i), 2);
}
