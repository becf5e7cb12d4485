use broker_auth::error::BrokerError;
use broker_auth::request::{auth, AuthStart, Config, Context, Method, ResponseMode};

fn p(k: &str, v: &str) -> (String, String) {
    (k.to_string(), v.to_string())
}

fn base() -> Vec<(String, String)> {
    vec![
        p("redirect_uri", "https://rp.example/callback"),
        p("client_id", "https://rp.example"),
        p("nonce", "n-0S6_WzA2Mj"),
        p("response_type", "id_token"),
    ]
}

fn ctx(params: Vec<(String, String)>) -> Context {
    Context { method: Method::Get, params, return_params: None, session: None }
}

fn config(allowed: Option<Vec<&str>>) -> Config {
    Config {
        public_url: "https://broker.example".to_string(),
        allowed_origins: allowed.map(|v| v.into_iter().map(|s| s.to_string()).collect()),
    }
}

fn without(name: &str) -> Vec<(String, String)> {
    base().into_iter().filter(|(k, _)| k != name).collect()
}

fn input_msg(r: Result<AuthStart, BrokerError>) -> String {
    match r {
        Err(BrokerError::Input(m)) => m,
        Err(e) => panic!("expected Input, got {:?}", e),
        Ok(_) => panic!("expected Input, got success"),
    }
}

#[test]
fn missing_redirect_uri_is_named() {
    let mut c = ctx(without("redirect_uri"));
    let m = input_msg(auth(&mut c, &config(None)));
    assert_eq!(m, "missing request parameter redirect_uri");
    assert!(c.return_params.is_none());
    assert!(c.session.is_none());
}

#[test]
fn missing_client_id_is_named() {
    let mut c = ctx(without("client_id"));
    assert_eq!(input_msg(auth(&mut c, &config(None))), "missing request parameter client_id");
    assert!(c.return_params.is_none());
}

#[test]
fn missing_nonce_is_named_after_binding() {
    let mut c = ctx(without("nonce"));
    assert_eq!(input_msg(auth(&mut c, &config(None))), "missing request parameter nonce");
    assert!(c.return_params.is_some());
}

#[test]
fn missing_response_type_is_named() {
    let mut c = ctx(without("response_type"));
    assert_eq!(input_msg(auth(&mut c, &config(None))), "missing request parameter response_type");
}

#[test]
fn client_id_equal_to_origin_is_accepted() {
    let mut c = ctx(base());
    assert!(matches!(auth(&mut c, &config(None)), Ok(AuthStart::Prompt(_))));
}

#[test]
fn client_id_with_other_scheme_host_or_port_is_rejected() {
    for cid in ["http://rp.example", "https://other.example", "https://rp.example:8443"] {
        let mut ps = without("client_id");
        ps.push(p("client_id", cid));
        let mut c = ctx(ps);
        assert_eq!(
            input_msg(auth(&mut c, &config(None))),
            "the client_id must be the origin of the redirect_uri"
        );
        assert!(c.return_params.is_none());
    }
}

#[test]
fn explicit_port_is_part_of_origin_unless_default() {
    let mut ps = without("redirect_uri");
    ps.retain(|(k, _)| k != "client_id");
    ps.push(p("redirect_uri", "http://rp.example:8080/cb?x=1"));
    ps.push(p("client_id", "http://rp.example:8080"));
    assert!(auth(&mut ctx(ps), &config(None)).is_ok());

    let mut ps = without("redirect_uri");
    ps.push(p("redirect_uri", "https://rp.example:443/cb"));
    assert!(auth(&mut ctx(ps), &config(None)).is_ok());
}

#[test]
fn relative_redirect_uri_is_rejected() {
    for uri in ["/callback", "https://", "https://rp.example:x/", "not a url"] {
        let mut ps = without("redirect_uri");
        ps.push(p("redirect_uri", uri));
        let mut c = ctx(ps);
        assert_eq!(input_msg(auth(&mut c, &config(None))), "redirect_uri is not a valid absolute URL");
        assert!(c.return_params.is_none());
    }
}

#[test]
fn origin_is_the_standard_serialization() {
    for uri in [
        "HTTPS://rp.example/cb",
        "https://RP.Example/cb",
        "https://rp.example:0443/cb",
        "https://user@rp.example/cb",
    ] {
        let mut ps = without("redirect_uri");
        ps.push(p("redirect_uri", uri));
        let mut c = ctx(ps);
        assert!(auth(&mut c, &config(None)).is_ok(), "{}", uri);
    }
    let mut ps = without("redirect_uri");
    ps.push(p("redirect_uri", "HTTPS://RP.example/cb"));
    let mut c = ctx(ps);
    match auth(&mut c, &config(None)) {
        Ok(AuthStart::Prompt(f)) => assert_eq!(f.display_origin, "https://rp.example/cb"),
        _ => panic!("expected the login form"),
    }
    assert_eq!(c.return_params.unwrap().redirect_uri, "https://rp.example/cb");
}

#[test]
fn backslash_ends_the_host() {
    let mut ps = without("redirect_uri");
    ps.retain(|(k, _)| k != "client_id");
    ps.push(p("redirect_uri", "https://e\\r/"));
    ps.push(p("client_id", "https://e\\r"));
    assert_eq!(
        input_msg(auth(&mut ctx(ps), &config(None))),
        "the client_id must be the origin of the redirect_uri"
    );
    let mut ps = without("redirect_uri");
    ps.retain(|(k, _)| k != "client_id");
    ps.push(p("redirect_uri", "https://e\\r/"));
    ps.push(p("client_id", "https://e"));
    assert!(auth(&mut ctx(ps), &config(None)).is_ok());
}

#[test]
fn only_fragment_and_form_post_modes_are_accepted() {
    for (mode, want) in [("fragment", ResponseMode::Fragment), ("form_post", ResponseMode::FormPost)] {
        let mut ps = base();
        ps.push(p("response_mode", mode));
        let mut c = ctx(ps);
        assert!(auth(&mut c, &config(None)).is_ok());
        assert_eq!(c.return_params.unwrap().response_mode, want);
    }
    for mode in ["query", "Fragment", ""] {
        let mut ps = base();
        ps.push(p("response_mode", mode));
        assert_eq!(
            input_msg(auth(&mut ctx(ps), &config(None))),
            "unsupported response_mode, must be fragment or form_post"
        );
    }
}

#[test]
fn response_errors_must_be_boolean() {
    let mut ps = base();
    ps.push(p("response_errors", "yes"));
    assert_eq!(input_msg(auth(&mut ctx(ps), &config(None))), "response_errors must be true or false");
    let mut ps = base();
    ps.push(p("response_errors", "false"));
    let mut c = ctx(ps);
    assert!(auth(&mut c, &config(None)).is_ok());
    assert!(!c.return_params.unwrap().response_errors);
}

#[test]
fn defaults_fill_the_return_channel() {
    let mut c = ctx(base());
    auth(&mut c, &config(None)).ok().unwrap();
    let rp = c.return_params.unwrap();
    assert_eq!(rp.redirect_uri, "https://rp.example/callback");
    assert_eq!(rp.response_mode, ResponseMode::Fragment);
    assert!(rp.response_errors);
    assert_eq!(rp.state, "");
}

#[test]
fn response_type_must_be_id_token() {
    let mut ps = without("response_type");
    ps.push(p("response_type", "code"));
    let mut c = ctx(ps);
    assert_eq!(
        input_msg(auth(&mut c, &config(None))),
        "unsupported response_type, only id_token is supported"
    );
    assert!(c.return_params.is_some());
}

#[test]
fn whitelisted_origin_passes() {
    let mut c = ctx(base());
    assert!(auth(&mut c, &config(Some(vec!["https://rp.example"]))).is_ok());
}

#[test]
fn unlisted_origin_fails_before_any_attempt() {
    let mut ps = vec![
        p("redirect_uri", "https://other.example/cb"),
        p("client_id", "https://other.example"),
        p("nonce", "n"),
        p("response_type", "id_token"),
        p("login_hint", "user@example.com"),
    ];
    ps.push(p("state", "s1"));
    let mut c = ctx(ps);
    let r = auth(&mut c, &config(Some(vec!["https://rp.example"])));
    assert_eq!(input_msg(r), "the origin is not whitelisted");
    assert!(c.return_params.is_some());
    assert!(c.session.is_none());
}

#[test]
fn no_login_hint_gives_form_with_every_parameter() {
    let mut ps = base();
    ps.push(p("unknown_thing", "kept as is"));
    ps.push(p("login_hint", ""));
    let mut c = ctx(ps.clone());
    c.method = Method::Post;
    match auth(&mut c, &config(None)) {
        Ok(AuthStart::Prompt(f)) => {
            assert_eq!(f.params, ps);
            assert_eq!(f.form_action, "https://broker.example/auth");
            assert_eq!(f.method, "POST");
            assert_eq!(f.display_origin, "https://rp.example/callback");
        }
        _ => panic!("expected the login form"),
    }
    assert!(c.session.is_none());
}

#[test]
fn login_hint_gives_normalized_attempt() {
    let mut ps = base();
    ps.push(p("login_hint", "John.Doe@Example.COM"));
    let mut c = ctx(ps);
    match auth(&mut c, &config(None)) {
        Ok(AuthStart::Attempt(a)) => {
            assert_eq!(a.email.as_str(), "John.Doe@example.com");
            assert_eq!(a.login_hint, "John.Doe@Example.COM");
            assert_eq!(a.client_id, "https://rp.example");
            assert_eq!(a.nonce, "n-0S6_WzA2Mj");
        }
        _ => panic!("expected an attempt"),
    }
}

#[test]
fn invalid_login_hint_is_input() {
    for hint in ["no-at-sign", "@example.com", "user@", "user@exa mple.com", "user@.example.com"] {
        let mut ps = base();
        ps.push(p("login_hint", hint));
        assert_eq!(input_msg(auth(&mut ctx(ps), &config(None))), "login_hint is not a valid email address");
    }
}

#[test]
fn last_occurrence_of_a_parameter_counts() {
    let mut ps = base();
    ps.push(p("nonce", "second"));
    ps.push(p("login_hint", "a@b.example"));
    match auth(&mut ctx(ps), &config(None)) {
        Ok(AuthStart::Attempt(a)) => assert_eq!(a.nonce, "second"),
        _ => panic!("expected an attempt"),
    }
}
