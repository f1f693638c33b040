use simple_api::route::{match_view, PathPattern, Route, RouteError, Router};
use simple_api::utils::parse_cookie;

fn route(pattern: &str) -> Route {
    Route { methods: vec!["GET".to_string()], pattern: PathPattern::new(pattern).unwrap() }
}

#[test]
fn first_registered_pattern_wins() {
    let routes = vec![route("^/users/(?P<id>[0-9]+)$"), route("^/users/.*$"), route("^/$")];
    let (i, args) = match_view(&routes, "/users/42").unwrap();
    assert_eq!(i, 0);
    assert_eq!(args.get("id").map(|s| s.as_str()), Some("42"));
    assert_eq!(args.len(), 1);

    let (i, args) = match_view(&routes, "/users/abc").unwrap();
    assert_eq!(i, 1);
    assert_eq!(args.len(), 0);

    let reversed = vec![route("^/users/.*$"), route("^/users/(?P<id>[0-9]+)$")];
    let (i, _) = match_view(&reversed, "/users/42").unwrap();
    assert_eq!(i, 0);
}

#[test]
fn no_pattern_matches() {
    let routes = vec![route("^/$"), route("^/unauthed$")];
    assert!(match_view(&routes, "/missing").is_none());
    assert!(match_view(&Vec::new(), "/").is_none());
}

#[test]
fn unmatched_named_group_is_left_out() {
    let routes = vec![route("^/a(?P<x>[0-9])?(?P<y>b)$")];
    let (_, args) = match_view(&routes, "/ab").unwrap();
    assert_eq!(args.len(), 1);
    assert!(args.get("x").is_none());
    assert_eq!(args.get("y").map(|s| s.as_str()), Some("b"));
}

#[test]
fn invalid_pattern_is_refused() {
    assert_eq!(PathPattern::new("(").err(), Some(RouteError::InvalidPattern));
    assert_eq!(PathPattern::new("^/x$").unwrap().as_str(), "^/x$");
}

#[test]
fn router_keeps_registration_order() {
    let mut router = Router::new();
    assert_eq!(router.add_route(PathPattern::new("^/$").unwrap(), vec!["GET".to_string()]), 0);
    assert_eq!(router.add_route(PathPattern::new("^/(?P<name>.+)$").unwrap(), vec![]), 1);
    assert_eq!(router.routes().len(), 2);
    let (i, args) = router.match_path("/page").unwrap();
    assert_eq!(i, 1);
    assert_eq!(args.get("name").map(|s| s.as_str()), Some("page"));
    assert_eq!(router.match_path("/").unwrap().0, 0);
    assert!(router.match_path("").is_none());
}

#[test]
fn cookie_header_is_parsed() {
    let m = parse_cookie("a=1; b=two;c=3");
    assert_eq!(m.len(), 3);
    assert_eq!(m.get("a").map(|s| s.as_str()), Some("1"));
    assert_eq!(m.get("b").map(|s| s.as_str()), Some("two"));
    assert_eq!(m.get("c").map(|s| s.as_str()), Some("3"));
    assert!(!m.contains_key("d"));
}

#[test]
fn cookie_later_value_wins_and_bad_pieces_are_skipped() {
    let m = parse_cookie("a=1; novalue; =x; a=2");
    assert_eq!(m.get("a").map(|s| s.as_str()), Some("2"));
    assert_eq!(m.len(), 1);
    assert_eq!(parse_cookie("").len(), 0);
    assert_eq!(parse_cookie(" ; ;").len(), 0);
}

#[test]
fn cookie_values_are_not_decoded() {
    let m = parse_cookie("k=a%20b");
    assert_eq!(m.get("k").map(|s| s.as_str()), Some("a%20b"));
}
