use nobs::services::{handler_asset_path, ParserRoute};
use nobs::{Error, Parser, Static};

#[test]
fn parser_routes() {
    let p = Parser::default();
    assert!(matches!(p.route(None), Err(Error::PathMissing)));
    assert!(matches!(p.route(Some("/+static/site.css")), Ok(ParserRoute::Static)));
    assert!(matches!(p.route(Some("/+static")), Ok(ParserRoute::Static)));
    match p.route(Some("/repo")) {
        Ok(ParserRoute::Text(t)) => assert_eq!(t, "nobs"),
        _ => panic!("expected the front page"),
    }
    match p.route(Some("/+stat")) {
        Ok(ParserRoute::Text(t)) => assert_eq!(t, "nobs"),
        _ => panic!("expected the front page"),
    }
}

#[test]
fn static_asset_names() {
    let s = Static::default();
    assert!(matches!(s.asset_path(None), Err(Error::PathMissing)));
    assert_eq!(s.asset_path(Some("/+static/css/site.css")).ok().unwrap(), "css/site.css");
    assert_eq!(s.asset_path(Some("/+static//+static/a.js")).ok().unwrap(), "a.js");
    assert_eq!(s.asset_path(Some("/other/x")).ok().unwrap(), "/other/x");
    assert_eq!(s.asset_path(Some("/+static/")).ok().unwrap(), "");
}

#[test]
fn static_answers() {
    let s = Static::default();
    let a = s.respond("css/site.css".to_string(), Some(vec![1, 2, 3])).ok().unwrap();
    assert_eq!(a.content_type, "text/css");
    assert_eq!(a.body, vec![1, 2, 3]);
    let b = s.respond("LICENSE".to_string(), Some(vec![])).ok().unwrap();
    assert_eq!(b.content_type, "application/octet-stream");
    match s.respond("missing.png".to_string(), None) {
        Err(Error::NotFound { path }) => assert_eq!(path, "missing.png"),
        _ => panic!("expected not found"),
    }
}

#[test]
fn handler_paths() {
    assert_eq!(handler_asset_path("/+static/js/app.js"), "js/app.js");
    assert_eq!(handler_asset_path("/+static/"), "");
}
