use serde_json::Value;
use simple_api::context::{AnyMap, AnyValue, Context, ValueKind};
use simple_api::dispatch::{Action, Dispatch, Interception, Phase, Reply};
use simple_api::document::Document;
use simple_api::middlewares::SessionMiddleware;
use simple_api::response::{internal_server_error, not_found, ok_json, ret_json, Response};
use simple_api::route::{PathPattern, Router};
use simple_api::session::{OpenStep, RedisSessionProvider, Session, SessionProvider};
use simple_api::views::StaticFiles;
use std::collections::HashMap;
use std::sync::Arc;

fn body(r: &Response) -> String {
    String::from_utf8(r.body.clone()).unwrap()
}

/// Drives a dispatch to its reply; records which middlewares and views ran.
fn drive(
    mut d: Dispatch,
    mut act: Action,
    pre: &dyn Fn(usize) -> Interception,
    view: &dyn Fn(usize) -> Result<Response, String>,
    post: &dyn Fn(usize, &mut Response) -> Interception,
    log: &mut Vec<String>,
) -> Response {
    loop {
        act = match act {
            Action::RunPre(i) => {
                log.push(format!("pre{}", i));
                d.on_pre(pre(i))
            }
            Action::CallView(v) => {
                log.push(format!("view{}", v));
                d.on_view(view(v))
            }
            Action::RunPost(i, mut res) => {
                log.push(format!("post{}", i));
                let a = post(i, &mut res);
                d.on_post(a, res)
            }
            Action::Reply(r) => {
                assert_eq!(d.phase_of(), Phase::Done);
                return r.into_response();
            }
        }
    }
}

fn demo_router() -> Router {
    let mut router = Router::new();
    router.add_route(PathPattern::new("^/$").unwrap(), vec!["GET".to_string()]);
    router.add_route(PathPattern::new("^/unauthed$").unwrap(), vec!["GET".to_string()]);
    router
}

fn demo_view(path: &str) -> impl Fn(usize) -> Result<Response, String> + '_ {
    move |v| match v {
        0 => {
            let mut d = Document::new();
            d.set("Hello", Value::from("World!"));
            Ok(ok_json(&d))
        }
        _ => {
            let mut d = Document::new();
            d.set("msg", Value::from("Unauthed"));
            d.set("path", Value::from(path));
            Ok(ret_json(401, &d))
        }
    }
}

fn serve(router: &Router, path: &str, log: &mut Vec<String>) -> Response {
    let view = router.match_path(path).map(|(i, _)| i);
    let (d, act) = Dispatch::new(path.to_string(), view, 1);
    drive(d, act, &|_| Interception::Proceed, &demo_view(path), &|_, _| Interception::Proceed, log)
}

#[test]
fn missing_path_is_not_found_after_pre_phase() {
    let router = demo_router();
    let mut log = Vec::new();
    let r = serve(&router, "/missing", &mut log);
    assert_eq!(r.status, 404);
    assert_eq!(body(&r), "Not found: /missing");
    assert_eq!(log, vec!["pre0"]);
}

#[test]
fn unauthed_view_answers_401_json() {
    let router = demo_router();
    let mut log = Vec::new();
    let r = serve(&router, "/unauthed", &mut log);
    assert_eq!(r.status, 401);
    assert_eq!(r.content_type, "application/json");
    assert_eq!(body(&r), r#"{"msg":"Unauthed","path":"/unauthed"}"#);
    assert_eq!(log, vec!["pre0", "view1", "post0"]);
    let r = serve(&router, "/", &mut log);
    assert_eq!(r.status, 200);
    assert_eq!(body(&r), r#"{"Hello":"World!"}"#);
}

#[test]
fn pre_short_circuit_skips_the_rest() {
    let mut log = Vec::new();
    let (d, act) = Dispatch::new("/x".to_string(), Some(0), 3);
    let teapot = Response { status: 418, content_type: "text/plain".to_string(), headers: vec![], body: b"tea".to_vec() };
    let r = drive(
        d,
        act,
        &|i| if i == 1 { Interception::Respond(teapot.clone_parts()) } else { Interception::Proceed },
        &|_| panic!("the view must not run"),
        &|_, _| panic!("no post-middleware may run"),
        &mut log,
    );
    assert_eq!(r.status, 418);
    assert_eq!(body(&r), "tea");
    assert_eq!(log, vec!["pre0", "pre1"]);
}

trait CloneParts {
    fn clone_parts(&self) -> Response;
}

impl CloneParts for Response {
    fn clone_parts(&self) -> Response {
        Response {
            status: self.status,
            content_type: self.content_type.clone(),
            headers: self.headers.clone(),
            body: self.body.clone(),
        }
    }
}

#[test]
fn pre_failure_is_a_500() {
    let mut log = Vec::new();
    let (d, act) = Dispatch::new("/x".to_string(), None, 2);
    let r = drive(
        d,
        act,
        &|_| Interception::Fail("boom".to_string()),
        &|_| panic!("the view must not run"),
        &|_, _| panic!("no post-middleware may run"),
        &mut log,
    );
    assert_eq!(r.status, 500);
    assert_eq!(body(&r), "Error: boom");
    assert_eq!(log, vec!["pre0"]);
}

#[test]
fn view_failure_skips_post_phase() {
    let mut log = Vec::new();
    let (d, act) = Dispatch::new("/x".to_string(), Some(2), 2);
    let r = drive(
        d,
        act,
        &|_| Interception::Proceed,
        &|_| Err("no ses".to_string()),
        &|_, _| panic!("no post-middleware may run"),
        &mut log,
    );
    assert_eq!(r.status, 500);
    assert_eq!(body(&r), "Error: no ses");
    assert_eq!(log, vec!["pre0", "pre1", "view2"]);
}

#[test]
fn post_phase_runs_in_registration_order_and_may_replace() {
    let mut log = Vec::new();
    let (d, act) = Dispatch::new("/x".to_string(), Some(0), 3);
    let r = drive(
        d,
        act,
        &|_| Interception::Proceed,
        &|_| Ok(internal_server_error("x")),
        &|i, res| {
            res.append_header("X-Seen".to_string(), format!("{}", i));
            Interception::Proceed
        },
        &mut log,
    );
    assert_eq!(log, vec!["pre0", "pre1", "pre2", "view0", "post0", "post1", "post2"]);
    assert_eq!(r.headers, vec![
        ("X-Seen".to_string(), "0".to_string()),
        ("X-Seen".to_string(), "1".to_string()),
        ("X-Seen".to_string(), "2".to_string()),
    ]);

    let mut log = Vec::new();
    let (d, act) = Dispatch::new("/x".to_string(), Some(0), 3);
    let r = drive(
        d,
        act,
        &|_| Interception::Proceed,
        &|_| Ok(not_found("y")),
        &|i, _| if i == 0 { Interception::Respond(internal_server_error("replaced")) } else { Interception::Proceed },
        &mut log,
    );
    assert_eq!(body(&r), "Error: replaced");
    assert_eq!(log, vec!["pre0", "pre1", "pre2", "view0", "post0"]);
}

#[test]
fn no_middlewares_goes_straight_to_view() {
    let (_, act) = Dispatch::new("/".to_string(), Some(4), 0);
    assert!(matches!(act, Action::CallView(4)));
    let (d, act) = Dispatch::new("/nope".to_string(), None, 0);
    assert_eq!(d.phase_of(), Phase::Done);
    match act {
        Action::Reply(Reply::NotFound(p)) => assert_eq!(p, "/nope"),
        _ => panic!("expected not found"),
    }
}

/// One request through the session middleware, a counting view and the
/// remote store (a map standing in for it).
fn counting_request(
    provider: &SessionProvider,
    store: &mut HashMap<String, String>,
    cookie_header: Option<&str>,
) -> (i64, String) {
    let m = SessionMiddleware;
    let mut session = match m.pre_process(Some(provider), cookie_header).unwrap().unwrap() {
        OpenStep::Ready(s) => s,
        OpenStep::Fetch { sid, key } => provider.finish_open(&sid, store.get(&key).cloned()).unwrap(),
    };
    let count = match session.get("count") {
        Some(v) => v.as_i64().unwrap() + 1,
        None => 0,
    };
    session.set("count", Value::from(count));
    let step = m.post_process(Some(provider), Some(&session)).unwrap().unwrap();
    let (key, text) = step.store.unwrap();
    store.insert(key, text);
    (count, step.set_cookie)
}

#[test]
fn session_count_increments_by_one_per_request() {
    let provider = SessionProvider::Redis(RedisSessionProvider::new());
    let mut store = HashMap::new();
    let (c0, set_cookie) = counting_request(&provider, &mut store, None);
    let (c1, set_cookie2) = counting_request(&provider, &mut store, Some(&set_cookie));
    let (c2, _) = counting_request(&provider, &mut store, Some(&set_cookie2));
    assert_eq!((c0, c1, c2), (0, 1, 2));
    assert_eq!(set_cookie, set_cookie2);
    assert_eq!(store.len(), 1);
    let sid = set_cookie.strip_prefix("session_id=").unwrap();
    assert_eq!(store.get(&format!("session:{}", sid)).unwrap(), r#"{"count":2}"#);
    match provider.open_session(&simple_api::utils::parse_cookie("")).unwrap() {
        OpenStep::Ready(Session::Redis(s)) => assert_ne!(s.sid(), sid),
        _ => panic!("expected a fresh session"),
    }
}

#[test]
fn any_map_reads_by_kind() {
    let mut m = AnyMap::new();
    m.set("n", AnyValue::Int(3));
    assert!(matches!(m.get("n", ValueKind::Int), Some(AnyValue::Int(3))));
    assert!(m.get("n", ValueKind::Text).is_none());
    assert!(m.get("missing", ValueKind::Int).is_none());
    m.set("n", AnyValue::Text("three".to_string()));
    assert!(m.get("n", ValueKind::Int).is_none());
    assert!(matches!(m.get("n", ValueKind::Text), Some(AnyValue::Text(t)) if t == "three"));
    if let Some(AnyValue::Text(t)) = m.get_mut("n", ValueKind::Text) {
        t.push('!');
    }
    assert!(matches!(m.get("n", ValueKind::Text), Some(AnyValue::Text(t)) if t == "three!"));
    assert!(m.get_mut("n", ValueKind::Bool).is_none());
}

#[test]
fn context_starts_empty() {
    let ctx: Context<u32> = Context::new(None, Arc::new(7), None);
    assert_eq!(*ctx.get_state(), 7);
    assert!(ctx.session.is_none());
    assert!(ctx.any_map.get("x", ValueKind::Int).is_none());
}

#[test]
fn static_files_paths_and_responses() {
    let sf = StaticFiles::new("/srv".to_string(), PathPattern::new("^/static/(?P<file_path>.*)$").unwrap());
    assert_eq!(sf.methods(), vec!["GET".to_string()]);
    let mut router = Router::new();
    router.add_route(PathPattern::new(sf.re_path().as_str()).unwrap(), sf.methods());
    let (_, args) = router.match_path("/static/css/a.css").unwrap();
    assert_eq!(sf.file_path(Some(&args)).unwrap(), "/srv/css/a.css");
    assert_eq!(sf.file_path(None).err().unwrap(), "no view_args");
    let (_, other) = Router::new_with("^/(?P<x>.*)$").match_path("/a").unwrap();
    assert_eq!(sf.file_path(Some(&other)).err().unwrap(), "no file_path");
    let r = sf.file_response("/srv/index.html", Some(b"<p>".to_vec()));
    assert_eq!(r.status, 200);
    assert_eq!(r.content_type, "text/html");
    assert_eq!(r.body, b"<p>".to_vec());
    assert_eq!(sf.file_response("/srv/blob.unknownext", Some(vec![])).content_type, "application/octet-stream");
    let r = sf.file_response("/srv/gone.txt", None);
    assert_eq!(r.status, 404);
    assert_eq!(body(&r), "Not found");
}

trait RouterWith {
    fn new_with(pattern: &str) -> Router;
}

impl RouterWith for Router {
    fn new_with(pattern: &str) -> Router {
        let mut r = Router::new();
        r.add_route(PathPattern::new(pattern).unwrap(), vec![]);
        r
    }
}
