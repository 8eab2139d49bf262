use nobs::{Compat, Error};

#[test]
fn messages() {
    assert_eq!(
        Error::NotFound { path: "css/site.css".to_string() }.message(),
        "resource not found: css/site.css"
    );
    assert_eq!(Error::PathMissing.message(), "path missing");
    assert_eq!(
        Error::TemplateRenderFail { inner: "boom".to_string() }.message(),
        "template render failed: boom"
    );
}

#[test]
fn statuses() {
    let c: Compat = Error::NotFound { path: "x".to_string() }.into();
    assert_eq!(c.status_code(), 404);
    assert_eq!(c.message(), "resource not found: x");
    assert_eq!(Compat::from(Error::PathMissing).status_code(), 500);
    assert_eq!(Compat(Error::TemplateRenderFail { inner: String::new() }).status_code(), 500);
}
