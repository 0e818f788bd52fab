use ripress::app::App;
use ripress::chain::{
    not_found_response, run_chain, ChainPlan, ChainStep, MiddlewareAction,
};
use ripress::response::HttpResponse;
use ripress::types::HttpMethods;

#[test]
fn short_circuit_skips_downstream() {
    let own = HttpResponse::new().status(401).text("denied");
    let terminal = HttpResponse::new().status(200).text("handler");
    let run = run_chain(
        vec![MiddlewareAction::Respond(own), MiddlewareAction::Forward],
        terminal,
    );
    assert_eq!(run.middlewares_run, 1);
    assert!(!run.handler_ran);
    assert_eq!(run.response.get_status(), 401);
    assert_eq!(run.response.get_text().unwrap(), "denied");
}

#[test]
fn transparent_chain_returns_handler_response() {
    let terminal = HttpResponse::new().status(201).text("created");
    let run = run_chain(
        vec![MiddlewareAction::Forward, MiddlewareAction::Forward],
        terminal,
    );
    assert_eq!(run.middlewares_run, 2);
    assert!(run.handler_ran);
    assert_eq!(run.response.get_status(), 201);
    assert_eq!(run.response.get_text().unwrap(), "created");
}

#[test]
fn empty_chain_runs_handler() {
    let terminal = HttpResponse::new().status(200).text("h");
    let run = run_chain(vec![], terminal);
    assert_eq!(run.middlewares_run, 0);
    assert!(run.handler_ran);
    assert_eq!(run.response.get_text().unwrap(), "h");
}

#[test]
fn plan_steps_through_chain_in_order() {
    let plan = ChainPlan::new(2, true);
    let next1 = match plan.start() {
        ChainStep::RunMiddleware(i, next) => {
            assert_eq!(i, 0);
            assert_eq!(next.cursor(), 1);
            next
        }
        _ => panic!("expected the first middleware"),
    };
    let next2 = match plan.resume(next1) {
        ChainStep::RunMiddleware(i, next) => {
            assert_eq!(i, 1);
            assert_eq!(next.cursor(), 2);
            next
        }
        _ => panic!("expected the second middleware"),
    };
    assert!(matches!(plan.resume(next2), ChainStep::RunHandler));
}

#[test]
fn plan_without_handler_ends_not_found() {
    let plan = ChainPlan::new(0, false);
    assert!(matches!(plan.start(), ChainStep::NotFound));
    let resp = not_found_response();
    assert_eq!(resp.get_status(), 404);
    assert_eq!(resp.get_text().unwrap(), "Not Found");
}

#[test]
fn middleware_prefix_resolution() {
    let mut app: App<u64, u64> = App::new();
    app.use_middleware("/api", 10);
    app.use_middleware("/", 11);
    app.use_middleware("/other", 12);
    app.get("/api/users", 1);
    let (mws, route, plan) = app.plan(HttpMethods::GET, "/api/users");
    assert_eq!(mws, vec![0, 1]);
    assert!(route.is_some());
    assert_eq!(*app.handler_at(route.unwrap()), 1);
    assert!(*app.middleware_at(mws[0]) == 10);
    assert!(*app.middleware_at(mws[1]) == 11);
    let first = plan.start();
    assert!(matches!(first, ChainStep::RunMiddleware(0, _)));
}

#[test]
fn empty_prefix_matches_every_path() {
    let mut app: App<u64, u64> = App::new();
    app.use_middleware("", 10);
    let (mws, route, plan) = app.plan(HttpMethods::GET, "/anything");
    assert_eq!(mws, vec![0]);
    assert!(route.is_none());
    assert!(matches!(plan.resume(ripress::chain::Next::new(0)), ChainStep::RunMiddleware(0, _)));
    assert!(matches!(plan.resume(ripress::chain::Next::new(1)), ChainStep::NotFound));
}

#[test]
fn app_method_registrations_dispatch() {
    let mut app: App<u64, u64> = App::new();
    app.get("/r", 1);
    app.post("/r", 2);
    app.put("/r", 3);
    app.delete("/r", 4);
    app.patch("/r", 5);
    let i = app.dispatch(HttpMethods::PUT, "/r").unwrap();
    assert_eq!(*app.handler_at(i), 3);
    let i = app.dispatch(HttpMethods::PATCH, "/r").unwrap();
    assert_eq!(*app.handler_at(i), 5);
}
