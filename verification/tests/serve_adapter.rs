use tarpc::RequestName;
use tarpc::ServerError;
use tarpc::context::Context;
use tarpc::serve::Serve;
use tarpc::serve::serve;

struct Echo(String);

impl RequestName for Echo {
    fn name(&self) -> &'static str {
        "echo"
    }
}

fn echo_handler(_ctx: Context, req: Echo) -> Result<String, ServerError> {
    Ok(req.0)
}

fn failing_handler(_ctx: Context, _req: Echo) -> Result<String, ServerError> {
    Err(ServerError::new(String::from("handler rejected the request")))
}

#[test]
fn serve_wraps_a_function_into_a_one_shot_service() {
    let svc = serve(echo_handler);
    let out = svc.serve(Context::current(), Echo(String::from("payload")));
    assert_eq!(out.unwrap(), "payload");
}

#[test]
fn serve_surfaces_handler_failures_as_server_errors() {
    let svc = serve(failing_handler);
    let out = svc.serve(Context::current(), Echo(String::from("ignored")));
    let err = out.unwrap_err();
    assert_eq!(err.detail, "handler rejected the request");
}

#[test]
fn serve_fn_clones_spawn_independent_instances() {
    let template = serve(echo_handler);
    let first = template.clone();
    let second = template;
    let a = first.serve(Context::current(), Echo(String::from("a")));
    let b = second.serve(Context::current(), Echo(String::from("b")));
    assert_eq!(a.unwrap(), "a");
    assert_eq!(b.unwrap(), "b");
}

#[test]
fn serve_accepts_closures() {
    let svc = serve(|_ctx: Context, req: Echo| -> Result<String, ServerError> {
        Ok(format!("Hello, {}!", req.0))
    });
    let out = svc.serve(Context::current(), Echo(String::from("World")));
    assert_eq!(out.unwrap(), "Hello, World!");
}

#[test]
fn serve_adds_no_state_to_a_stateless_handler() {
    let svc = serve(echo_handler);
    assert_eq!(std::mem::size_of_val(&svc), 0);
    let captureless = serve(|_ctx: Context, req: Echo| -> Result<String, ServerError> {
        Ok(req.0)
    });
    assert_eq!(std::mem::size_of_val(&captureless), 0);
}

#[test]
fn request_name_reports_the_method() {
    let req = Echo(String::from("x"));
    assert_eq!(req.name(), "echo");
}

#[test]
fn context_constructor_and_current() {
    let c = Context::new(Some(250), 9);
    assert_eq!(c.deadline, Some(250));
    assert_eq!(c.trace_id, 9);
    let ambient = Context::current();
    assert_eq!(ambient.deadline, None);
    assert_eq!(ambient.trace_id, 0);
}

#[test]
fn context_deadline_elapses_exactly_at_the_instant() {
    let c = Context::new(Some(10), 1);
    assert!(!c.deadline_elapsed(9));
    assert!(c.deadline_elapsed(10));
    assert!(c.deadline_elapsed(11));
    let unbounded = Context::new(None, 1);
    assert!(!unbounded.deadline_elapsed(u64::MAX));
}
