use broker_auth::attempt::{Link, Race, Relation};
use broker_auth::error::BrokerError;
use broker_auth::flow::{Action, Event, Flow, Phase};
use broker_auth::request::{auth, AuthStart, Config, Context, Method};

fn p(k: &str, v: &str) -> (String, String) {
    (k.to_string(), v.to_string())
}

fn start() -> (Context, Flow) {
    let mut c = Context {
        method: Method::Get,
        params: vec![
            p("redirect_uri", "https://rp.example/cb"),
            p("client_id", "https://rp.example"),
            p("nonce", "nonce-1"),
            p("response_type", "id_token"),
            p("login_hint", "user@example.com"),
        ],
        return_params: None,
        session: None,
    };
    let cfg = Config { public_url: "https://broker.example".to_string(), allowed_origins: None };
    match auth(&mut c, &cfg) {
        Ok(AuthStart::Attempt(pending)) => {
            let f = Flow::new(pending);
            (c, f)
        }
        _ => panic!("expected an attempt"),
    }
}

#[test]
fn refused_limit_ends_before_discovery() {
    let (mut c, mut f) = start();
    match f.step::<String>(&mut c, Event::Limit(Ok(false))) {
        Action::Fail { error: BrokerError::RateLimited, log } => assert!(!log),
        _ => panic!("expected RateLimited"),
    }
    assert_eq!(f.phase, Phase::Done);
    assert!(c.session.is_none());
}

#[test]
fn oidc_result_is_final() {
    let (mut c, mut f) = start();
    assert!(matches!(f.step::<String>(&mut c, Event::Limit(Ok(true))), Action::Discover));
    assert_eq!(c.session.as_ref().unwrap().nonce, "nonce-1");
    let links = vec![
        Link { rel: Relation::OidcIssuer, href: "https://idp.example".to_string() },
        Link { rel: Relation::Google, href: "https://accounts.google.com".to_string() },
    ];
    match f.step::<String>(&mut c, Event::Discovered(Race::WorkFirst(Ok(links)))) {
        Action::Oidc(l) => {
            assert_eq!(l.rel, Relation::OidcIssuer);
            assert_eq!(l.href, "https://idp.example");
        }
        _ => panic!("expected the OIDC bridge"),
    }
    assert_eq!(f.phase, Phase::Bridging);
    match f.step(&mut c, Event::Bridged(Ok("from oidc".to_string()))) {
        Action::Respond(r) => assert_eq!(r, "from oidc"),
        _ => panic!("expected the bridge response"),
    }
    assert_eq!(f.phase, Phase::Done);
}

#[test]
fn deadline_detaches_and_falls_back() {
    let (mut c, mut f) = start();
    f.step::<String>(&mut c, Event::Limit(Ok(true)));
    match f.step::<String>(&mut c, Event::Discovered(Race::DeadlineFirst)) {
        Action::EmailLoop { cause: BrokerError::Provider(m), detach } => {
            assert_eq!(m, "discovery timed out for user@example.com");
            assert!(detach);
        }
        _ => panic!("expected the email loop"),
    }
    match f.step(&mut c, Event::Emailed(Ok("mail sent".to_string()))) {
        Action::Respond(r) => assert_eq!(r, "mail sent"),
        _ => panic!("expected the email-loop response"),
    }
}

#[test]
fn empty_discovery_falls_back_and_email_error_is_final() {
    let (mut c, mut f) = start();
    f.step::<String>(&mut c, Event::Limit(Ok(true)));
    match f.step::<String>(&mut c, Event::Discovered(Race::WorkFirst(Ok(vec![])))) {
        Action::EmailLoop { cause: BrokerError::ProviderCancelled, detach } => assert!(!detach),
        _ => panic!("expected the email loop"),
    }
    match f.step::<String>(&mut c, Event::Emailed(Err(BrokerError::Internal("smtp".to_string())))) {
        Action::Fail { error: BrokerError::Internal(m), log } => {
            assert_eq!(m, "smtp");
            assert!(!log);
        }
        _ => panic!("expected the email-loop error"),
    }
}

#[test]
fn discovery_provider_error_falls_back() {
    let (mut c, mut f) = start();
    f.step::<String>(&mut c, Event::Limit(Ok(true)));
    let ev = Event::Discovered(Race::WorkFirst(Err(BrokerError::Provider("webfinger".to_string()))));
    match f.step::<String>(&mut c, ev) {
        Action::EmailLoop { cause: BrokerError::Provider(m), detach } => {
            assert_eq!(m, "webfinger");
            assert!(!detach);
        }
        _ => panic!("expected the email loop"),
    }
}

#[test]
fn bridge_provider_error_falls_back() {
    let (mut c, mut f) = start();
    f.step::<String>(&mut c, Event::Limit(Ok(true)));
    let links = vec![Link { rel: Relation::Portier, href: "https://broker.example".to_string() }];
    assert!(matches!(f.step::<String>(&mut c, Event::Discovered(Race::WorkFirst(Ok(links)))), Action::Oidc(_)));
    let ev = Event::Bridged(Err(BrokerError::Provider("idp down".to_string())));
    assert!(matches!(f.step::<String>(&mut c, ev), Action::EmailLoop { detach: false, .. }));
    assert_eq!(f.phase, Phase::Emailing);
}

#[test]
fn non_provider_error_of_bridge_propagates_logged() {
    let (mut c, mut f) = start();
    f.step::<String>(&mut c, Event::Limit(Ok(true)));
    let links = vec![Link { rel: Relation::OidcIssuer, href: "https://idp.example".to_string() }];
    f.step::<String>(&mut c, Event::Discovered(Race::WorkFirst(Ok(links))));
    match f.step::<String>(&mut c, Event::Bridged(Err(BrokerError::Input("bad link".to_string())))) {
        Action::Fail { error: BrokerError::Input(m), log } => {
            assert_eq!(m, "bad link");
            assert!(log);
        }
        _ => panic!("expected propagation"),
    }
}
