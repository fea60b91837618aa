//! Tests of the service registry: registration, queries, routing.

use starpc::error::Error;
use starpc::mux::Mux;
use starpc::mux::QueryableInvoker;
use starpc::mux::RouteDecision;

fn ids(names: &[&str]) -> Vec<String> {
    names.iter().map(|n| n.to_string()).collect()
}

#[test]
fn test_mux_register() {
    let mut mux = Mux::new();

    mux.register("test.Service", &ids(&["Method1", "Method2"]), 1).unwrap();

    assert!(mux.has_service("test.Service"));
    assert!(mux.has_service_method("test.Service", "Method1"));
    assert!(mux.has_service_method("test.Service", "Method2"));
    assert!(!mux.has_service_method("test.Service", "Method3"));
    assert!(!mux.has_service("other.Service"));
}

#[test]
fn test_mux_register_empty_service_id() {
    let mut mux = Mux::new();

    let result = mux.register("", &ids(&["Method1"]), 1);
    assert!(matches!(result, Err(Error::EmptyServiceId)));
}

#[test]
fn test_mux_has_service_empty_id() {
    let mux = Mux::new();
    assert!(!mux.has_service(""));
}

#[test]
fn test_mux_has_service_method_empty_ids() {
    let mut mux = Mux::new();
    mux.register("test.Service", &ids(&["Method1"]), 1).unwrap();

    assert!(!mux.has_service_method("", "Method1"));
    assert!(!mux.has_service_method("test.Service", ""));
}

#[test]
fn test_mux_find_handler_for_method() {
    let mut mux = Mux::new();
    mux.register("test.Service", &ids(&["UniqueMethod"]), 7).unwrap();

    let found = mux.find_handler_for_method("UniqueMethod");
    assert!(found.is_some());

    let not_found = mux.find_handler_for_method("NonExistent");
    assert!(not_found.is_none());
}

#[test]
fn test_mux_registration_and_lookup() {
    let mut mux = Mux::new();

    mux.register(
        "echo.Echoer",
        &ids(&["Echo", "EchoServerStream", "EchoClientStream", "EchoBidiStream"]),
        1,
    )
    .unwrap();

    assert!(mux.has_service("echo.Echoer"));
    assert!(!mux.has_service("nonexistent"));

    assert!(mux.has_service_method("echo.Echoer", "Echo"));
    assert!(mux.has_service_method("echo.Echoer", "EchoServerStream"));
    assert!(!mux.has_service_method("echo.Echoer", "NonExistent"));

    assert!(!mux.has_service(""));
    assert!(!mux.has_service_method("", "Echo"));
    assert!(!mux.has_service_method("echo.Echoer", ""));
}

#[test]
fn test_mux_later_registration_overrides() {
    let mut mux = Mux::new();
    mux.register("svc", &ids(&["M"]), 1).unwrap();
    mux.register("svc", &ids(&["M"]), 2).unwrap();

    assert_eq!(mux.get_handler("svc", "M"), Some(2));
}

#[test]
fn test_mux_route_handler() {
    let mut mux = Mux::new();
    mux.register("svc", &ids(&["M"]), 5).unwrap();

    assert!(matches!(mux.route_method("svc", "M"), RouteDecision::Handler(5)));
    // An empty service id searches all services for the method.
    assert!(matches!(mux.route_method("", "M"), RouteDecision::Handler(5)));
}

#[test]
fn test_mux_route_only_first_fallback() {
    let mut mux = Mux::new();
    mux.add_fallback(10);
    mux.add_fallback(11);

    assert!(matches!(mux.route_method("svc", "M"), RouteDecision::Fallback(10)));
}

#[test]
fn test_mux_route_not_found() {
    let mux = Mux::new();
    assert!(matches!(mux.route_method("svc", "M"), RouteDecision::NotFound));
}

#[test]
fn test_mux_queryable_invoker() {
    let mut mux = Mux::new();
    mux.register("svc", &ids(&["M"]), 1).unwrap();
    let q: &dyn QueryableInvoker = &mux;
    assert!(q.has_service("svc"));
    assert!(q.has_service_method("svc", "M"));
    assert!(!q.has_service_method("svc", "N"));
}

#[test]
fn test_mux_register_skips_empty_method_ids() {
    let mut mux = Mux::new();
    mux.register("svc", &ids(&["", "M"]), 1).unwrap();
    assert!(mux.has_service_method("svc", "M"));
    assert!(!mux.has_service_method("svc", ""));
}
