use tarpc::RequestName;
use tarpc::ServerError;
use tarpc::client::CallStart;
use tarpc::client::Config;
use tarpc::client::Dispatch;
use tarpc::context::Context;
use tarpc::serve::serve;
use tarpc::server::ServerChannel;

struct Hello(String);

impl RequestName for Hello {
    fn name(&self) -> &'static str {
        "hello"
    }
}

fn hello_handler(_ctx: Context, req: Hello) -> Result<String, ServerError> {
    Ok(format!("Hello, {}!", req.0))
}

fn echo_handler(_ctx: Context, req: Hello) -> Result<String, ServerError> {
    Ok(req.0)
}

#[test]
fn hello_world_through_the_full_stack() {
    let (handle, mut dispatch) = Dispatch::new(Config::default());
    let mut server = ServerChannel::new(None);

    let outcome = dispatch_call(&handle, &mut dispatch, Hello(String::from("World")));
    let (call, request_env) = outcome;

    let unit = server.try_accept(request_env, 0).expect("fresh request is accepted");
    let response_env = server.drive_unit(unit, serve(hello_handler));
    assert_eq!(response_env.correlation_id, call.correlation_id());

    let delivery = dispatch.route_response(response_env).expect("response is delivered");
    assert_eq!(delivery.correlation_id, call.correlation_id());
    assert_eq!(delivery.result.unwrap(), "Hello, World!");
}

fn dispatch_call(
    handle: &tarpc::client::ClientHandle,
    dispatch: &mut Dispatch,
    req: Hello,
) -> (tarpc::client::PendingCall, tarpc::envelope::RequestEnvelope<Hello>) {
    match handle.call_start(dispatch, req, None, 0, 1) {
        CallStart::Enqueued(call, env) => (call, env),
        CallStart::Refused(_) => panic!("loop unexpectedly at capacity"),
        CallStart::Closed(_) => panic!("loop unexpectedly closed"),
    }
}

#[test]
fn echo_round_trip_one_hundred_sequential_calls() {
    let (handle, mut dispatch) = Dispatch::new(Config::default());
    let mut server = ServerChannel::new(None);

    for i in 0..100u32 {
        let payload = format!("message-{i}");
        let (call, env) = dispatch_call(&handle, &mut dispatch, Hello(payload.clone()));
        let unit = server.try_accept(env, 0).expect("accepted");
        let response_env = server.drive_unit(unit, serve(echo_handler));
        let delivery = dispatch.route_response(response_env).expect("delivered");
        assert_eq!(delivery.correlation_id, call.correlation_id());
        assert_eq!(delivery.result.unwrap(), payload);
    }
}

#[test]
fn echo_round_trip_one_hundred_concurrent_calls() {
    let (handle, mut dispatch) = Dispatch::new(Config::default());
    let mut server = ServerChannel::new(None);

    // Issue all calls before any response arrives.
    let mut calls = Vec::new();
    let mut request_envs = Vec::new();
    for i in 0..100u32 {
        let payload = format!("message-{i}");
        let (call, env) = dispatch_call(&handle, &mut dispatch, Hello(payload.clone()));
        calls.push((call, payload));
        request_envs.push(env);
    }

    // The server accepts in read order and completes in any order it likes;
    // here completion runs in reverse of acceptance.
    let mut units = Vec::new();
    for env in request_envs {
        units.push(server.try_accept(env, 0).expect("accepted"));
    }
    let mut response_envs = Vec::new();
    while let Some(unit) = units.pop() {
        response_envs.push(server.drive_unit(unit, serve(echo_handler)));
    }

    // Each caller receives the response bearing its own correlation id,
    // regardless of arrival interleaving.
    for response_env in response_envs {
        let delivery = dispatch.route_response(response_env).expect("delivered");
        let (call, payload) = calls
            .iter()
            .find(|(c, _)| c.correlation_id() == delivery.correlation_id)
            .expect("delivery matches a caller");
        assert_eq!(delivery.correlation_id, call.correlation_id());
        assert_eq!(delivery.result.unwrap(), payload.clone());
    }
    // Every call was resolved exactly once.
    for (call, _) in &calls {
        assert!(!dispatch.has_outstanding(call.correlation_id()));
    }
}

#[test]
fn execute_one_accepts_serves_and_responds_in_one_sweep() {
    let (handle, mut dispatch) = Dispatch::new(Config::default());
    let mut server = ServerChannel::new(None);
    let template = serve(hello_handler);

    let (call, env) = dispatch_call(&handle, &mut dispatch, Hello(String::from("World")));
    let response_env = server.execute_one(env, template, 0).expect("fresh request is handled");
    assert_eq!(response_env.correlation_id, call.correlation_id());

    let delivery = dispatch.route_response(response_env).expect("delivered");
    assert_eq!(delivery.result.unwrap(), "Hello, World!");

    // A handled request leaves no trace in the in-flight set: the same
    // correlation id may be used by a later request.
    assert!(!server.has_pending(call.correlation_id()));
}

#[test]
fn handler_error_travels_inside_the_response_envelope() {
    let (handle, mut dispatch) = Dispatch::new(Config::default());
    let mut server = ServerChannel::new(None);

    let (call, env) = dispatch_call(&handle, &mut dispatch, Hello(String::from("x")));
    let unit = server.try_accept(env, 0).expect("accepted");
    let response_env = server.drive_unit(
        unit,
        serve(|_ctx: Context, _req: Hello| -> Result<String, ServerError> {
            Err(ServerError::new(String::from("no such user")))
        }),
    );
    let delivery = dispatch.route_response(response_env).expect("delivered");
    assert_eq!(delivery.correlation_id, call.correlation_id());
    match delivery.result {
        Err(tarpc::client::RpcError::Server(e)) => assert_eq!(e.detail, "no such user"),
        other => panic!("expected a server error, got {other:?}"),
    }
}

#[test]
fn server_substitutes_its_default_deadline_when_the_caller_has_none() {
    let mut server = ServerChannel::new(Some(100));
    let env = tarpc::envelope::RequestEnvelope {
        correlation_id: 0,
        context: Context::new(None, 42),
        payload: Hello(String::from("x")),
    };
    let unit = server.try_accept(env, 50).expect("accepted");
    let ctx = unit.context();
    assert_eq!(ctx.deadline, Some(150));
    assert_eq!(ctx.trace_id, 42);

    // A caller-supplied deadline is kept as it is.
    let env = tarpc::envelope::RequestEnvelope {
        correlation_id: 1,
        context: Context::new(Some(75), 43),
        payload: Hello(String::from("y")),
    };
    let unit = server.try_accept(env, 50).expect("accepted");
    assert_eq!(unit.context().deadline, Some(75));
}

#[test]
fn client_builds_contexts_from_the_configured_default_deadline() {
    let config = Config {
        default_deadline: Some(10),
        pending_requests_limit: None,
        transport_buffer_size: None,
    };
    let (handle, _dispatch) = Dispatch::new(config);
    let ctx = handle.fresh_context(5, 77);
    assert_eq!(ctx.deadline, Some(15));
    assert_eq!(ctx.trace_id, 77);

    // The deadline saturates at the largest representable instant.
    let ctx = handle.fresh_context(u64::MAX - 3, 77);
    assert_eq!(ctx.deadline, Some(u64::MAX));
}
