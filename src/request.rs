use vstd::prelude::*;
use crate::email::{email_spec, EmailAddress};
use crate::error::{BrokerError, ErrorModel};
use crate::params::{copy_params, param, param_or, param_or_spec, param_spec, Params};
use crate::redirect::{bad_redirect_uri_msg, parse_redirect_uri, url_href, url_origin};

verus! {

/// How errors are handed back to the relying party.
#[derive(Clone, Copy, Debug, PartialEq, Eq, Structural)]
pub enum ResponseMode {
    /// In the fragment of the redirect URI.
    Fragment,
    /// In a form posted to the redirect URI.
    FormPost,
}

/// The request methods that reach the handler.
#[derive(Clone, Copy, Debug, PartialEq, Eq, Structural)]
pub enum Method {
    Get,
    Post,
}

impl Method {
    pub open spec fn name_spec(self) -> Seq<char> {
        match self {
            Method::Get => "GET"@,
            Method::Post => "POST"@,
        }
    }

    /// The method's name, as it appears on the wire.
    pub fn name(&self) -> (r: String)
        ensures
            r@ == self.name_spec(),
    {
        match self {
            Method::Get => "GET".to_owned(),
            Method::Post => "POST".to_owned(),
        }
    }
}

/// The validated return channel: where and how a later failure is reported.
pub struct ReturnParams {
    pub redirect_uri: String,
    pub response_mode: ResponseMode,
    pub response_errors: bool,
    pub state: String,
}

impl View for ReturnParams {
    type V = (Seq<char>, ResponseMode, bool, Seq<char>);

    open spec fn view(&self) -> Self::V {
        (self.redirect_uri@, self.response_mode, self.response_errors, self.state@)
    }
}

/// Process-wide configuration that the handler reads.
pub struct Config {
    /// The broker's own public base URL.
    pub public_url: String,
    /// Where set, the only client ids accepted.
    pub allowed_origins: Option<Vec<String>>,
}

impl Config {
    pub open spec fn allowed_view(&self) -> Option<Seq<Seq<char>>> {
        match self.allowed_origins {
            Some(v) => Some(v@.map_values(|s: String| s@)),
            None => None,
        }
    }
}

/// What an attempt knows before a bridge takes over. It is kept in memory
/// only: a bridge that proceeds persists it.
pub struct Session {
    pub client_id: String,
    pub login_hint: String,
    pub email: EmailAddress,
    pub nonce: String,
}

/// The state of one request.
pub struct Context {
    pub method: Method,
    pub params: Params,
    pub return_params: Option<ReturnParams>,
    pub session: Option<Session>,
}

/// The form asking for an email address, with every original parameter kept
/// for resubmission.
pub struct LoginForm {
    pub display_origin: String,
    pub form_action: String,
    pub method: String,
    pub params: Params,
}

/// A validated attempt, waiting for the rate limiter.
pub struct Pending {
    pub client_id: String,
    pub login_hint: String,
    pub email: EmailAddress,
    pub nonce: String,
}

/// The outcome of a request that passed validation.
pub enum AuthStart {
    /// No login hint: ask the user for an address.
    Prompt(LoginForm),
    /// An address is known: check the rate limit, then discover.
    Attempt(Pending),
}

/// The result of validation, in plain values.
pub ghost enum Outcome {
    /// Failed, with the error and whether the return channel was bound first.
    Fail(ErrorModel, bool),
    Prompt,
    /// Proceeds with the normalized address.
    Proceed(Seq<char>),
}

pub open spec fn missing_msg(name: Seq<char>) -> Seq<char> {
    "missing request parameter "@ + name
}

pub open spec fn client_id_msg() -> Seq<char> {
    "the client_id must be the origin of the redirect_uri"@
}

pub open spec fn response_mode_msg() -> Seq<char> {
    "unsupported response_mode, must be fragment or form_post"@
}

pub open spec fn response_errors_msg() -> Seq<char> {
    "response_errors must be true or false"@
}

pub open spec fn whitelist_msg() -> Seq<char> {
    "the origin is not whitelisted"@
}

pub open spec fn response_type_msg() -> Seq<char> {
    "unsupported response_type, only id_token is supported"@
}

/// The response mode that `s` names.
pub open spec fn mode_spec(s: Seq<char>) -> Option<ResponseMode> {
    if s == "fragment"@ {
        Some(ResponseMode::Fragment)
    } else if s == "form_post"@ {
        Some(ResponseMode::FormPost)
    } else {
        None
    }
}

/// The boolean that `s` spells.
pub open spec fn bool_spec(s: Seq<char>) -> Option<bool> {
    if s == "true"@ {
        Some(true)
    } else if s == "false"@ {
        Some(false)
    } else {
        None
    }
}

/// The return channel that the parameters describe.
pub open spec fn channel_spec(ps: Seq<(String, String)>) -> (Seq<char>, ResponseMode, bool, Seq<char>) {
    (
        url_href(param_spec(ps, "redirect_uri"@).unwrap()),
        mode_spec(param_or_spec(ps, "response_mode"@, "fragment"@)).unwrap(),
        bool_spec(param_or_spec(ps, "response_errors"@, "true"@)).unwrap(),
        param_or_spec(ps, "state"@, ""@),
    )
}

/// What validation makes of the parameters `ps`, in its fixed order: the
/// return channel is bound once the redirect URI, client id, response mode,
/// response errors flag and state are valid, and before the whitelist, the
/// remaining parameters and the login hint are looked at.
pub open spec fn auth_outcome(ps: Seq<(String, String)>, allowed: Option<Seq<Seq<char>>>) -> Outcome {
    let ru = param_spec(ps, "redirect_uri"@);
    let cid = param_spec(ps, "client_id"@);
    let mode = mode_spec(param_or_spec(ps, "response_mode"@, "fragment"@));
    let errs = bool_spec(param_or_spec(ps, "response_errors"@, "true"@));
    let nonce = param_spec(ps, "nonce"@);
    let rt = param_spec(ps, "response_type"@);
    let hint = param_or_spec(ps, "login_hint"@, ""@);
    if ru.is_none() {
        Outcome::Fail(ErrorModel::Input(missing_msg("redirect_uri"@)), false)
    } else if cid.is_none() {
        Outcome::Fail(ErrorModel::Input(missing_msg("client_id"@)), false)
    } else if url_origin(ru.unwrap()).is_none() {
        Outcome::Fail(ErrorModel::Input(bad_redirect_uri_msg()), false)
    } else if url_origin(ru.unwrap()).unwrap() != cid.unwrap() {
        Outcome::Fail(ErrorModel::Input(client_id_msg()), false)
    } else if mode.is_none() {
        Outcome::Fail(ErrorModel::Input(response_mode_msg()), false)
    } else if errs.is_none() {
        Outcome::Fail(ErrorModel::Input(response_errors_msg()), false)
    } else if allowed.is_some() && !allowed.unwrap().contains(cid.unwrap()) {
        Outcome::Fail(ErrorModel::Input(whitelist_msg()), true)
    } else if nonce.is_none() {
        Outcome::Fail(ErrorModel::Input(missing_msg("nonce"@)), true)
    } else if rt.is_none() {
        Outcome::Fail(ErrorModel::Input(missing_msg("response_type"@)), true)
    } else if rt.unwrap() != "id_token"@ {
        Outcome::Fail(ErrorModel::Input(response_type_msg()), true)
    } else if hint.len() == 0 {
        Outcome::Prompt
    } else {
        match email_spec(hint) {
            None => Outcome::Fail(ErrorModel::Input(crate::email::bad_email_msg()), true),
            Some(e) => Outcome::Proceed(e),
        }
    }
}

fn missing(name: &str) -> (r: BrokerError)
    ensures
        r@ == ErrorModel::Input(missing_msg(name@)),
{
    BrokerError::Input("missing request parameter ".to_owned().concat(name))
}

fn parse_mode(s: &String) -> (r: Option<ResponseMode>)
    ensures
        r == mode_spec(s@),
{
    if *s == "fragment".to_owned() {
        Some(ResponseMode::Fragment)
    } else if *s == "form_post".to_owned() {
        Some(ResponseMode::FormPost)
    } else {
        None
    }
}

fn parse_bool(s: &String) -> (r: Option<bool>)
    ensures
        r == bool_spec(s@),
{
    if *s == "true".to_owned() {
        Some(true)
    } else if *s == "false".to_owned() {
        Some(false)
    } else {
        None
    }
}

fn is_allowed(allowed: &Vec<String>, cid: &String) -> (r: bool)
    ensures
        r == allowed@.map_values(|s: String| s@).contains(cid@),
{
    let ghost view = allowed@.map_values(|s: String| s@);
    let mut i: usize = 0;
    while i < allowed.len()
        invariant
            i <= allowed@.len(),
            view == allowed@.map_values(|s: String| s@),
            forall|j: int| 0 <= j < i ==> view[j] != cid@,
        decreases allowed.len() - i,
    {
        if allowed[i] == *cid {
            assert(view[i as int] == cid@);
            return true;
        }
        i = i + 1;
    }
    false
}

/// Validates an authentication request and binds its return channel.
///
/// Returns the login form where no login hint is given, else the validated
/// attempt. Where validation fails after the return channel was bound, the
/// channel stays in `ctx` so that the failure can be redirected to the
/// relying party; before that point `ctx` is left as it was.
pub fn auth(ctx: &mut Context, config: &Config) -> (r: Result<AuthStart, BrokerError>)
    ensures
        final(ctx).method == old(ctx).method,
        final(ctx).params == old(ctx).params,
        final(ctx).session == old(ctx).session,
        match auth_outcome(old(ctx).params@, config.allowed_view()) {
            Outcome::Fail(e, bound) => {
                &&& r is Err
                &&& r->Err_0@ == e
                &&& bound ==> final(ctx).return_params is Some
                    && final(ctx).return_params->Some_0@ == channel_spec(old(ctx).params@)
                &&& !bound ==> final(ctx).return_params == old(ctx).return_params
            },
            Outcome::Prompt => {
                &&& r is Ok
                &&& final(ctx).return_params is Some
                &&& final(ctx).return_params->Some_0@ == channel_spec(old(ctx).params@)
                &&& match r->Ok_0 {
                    AuthStart::Prompt(f) => {
                        &&& f.display_origin@ == url_href(param_spec(old(ctx).params@, "redirect_uri"@).unwrap())
                        &&& f.form_action@ == config.public_url@ + "/auth"@
                        &&& f.method@ == old(ctx).method.name_spec()
                        &&& f.params@ == old(ctx).params@
                    },
                    _ => false,
                }
            },
            Outcome::Proceed(email) => {
                &&& r is Ok
                &&& final(ctx).return_params is Some
                &&& final(ctx).return_params->Some_0@ == channel_spec(old(ctx).params@)
                &&& match r->Ok_0 {
                    AuthStart::Attempt(p) => {
                        &&& p.email@ == email
                        &&& p.client_id@ == param_spec(old(ctx).params@, "client_id"@).unwrap()
                        &&& p.nonce@ == param_spec(old(ctx).params@, "nonce"@).unwrap()
                        &&& p.login_hint@ == param_spec(old(ctx).params@, "login_hint"@).unwrap()
                    },
                    _ => false,
                }
            },
        },
{
    let redirect_uri = match param(&ctx.params, "redirect_uri") {
        Some(v) => v,
        None => return Err(missing("redirect_uri")),
    };
    let client_id = match param(&ctx.params, "client_id") {
        Some(v) => v,
        None => return Err(missing("client_id")),
    };
    let response_mode = param_or(&ctx.params, "response_mode", "fragment");
    let response_errors = param_or(&ctx.params, "response_errors", "true");
    let state = param_or(&ctx.params, "state", "");

    let uri = match parse_redirect_uri(redirect_uri.as_str()) {
        Ok(u) => u,
        Err(e) => return Err(e),
    };
    if client_id != uri.origin {
        return Err(BrokerError::Input("the client_id must be the origin of the redirect_uri".to_owned()));
    }
    let response_mode = match parse_mode(&response_mode) {
        Some(m) => m,
        None => return Err(
            BrokerError::Input("unsupported response_mode, must be fragment or form_post".to_owned()),
        ),
    };
    let response_errors = match parse_bool(&response_errors) {
        Some(b) => b,
        None => return Err(BrokerError::Input("response_errors must be true or false".to_owned())),
    };

    // From here on a failure is reported by redirecting to the relying party.
    let display_origin = uri.uri.clone();
    ctx.return_params = Some(ReturnParams { redirect_uri: uri.uri, response_mode, response_errors, state });

    match &config.allowed_origins {
        Some(whitelist) => {
            if !is_allowed(whitelist, &client_id) {
                return Err(BrokerError::Input("the origin is not whitelisted".to_owned()));
            }
        },
        None => {},
    }

    let nonce = match param(&ctx.params, "nonce") {
        Some(v) => v,
        None => return Err(missing("nonce")),
    };
    let response_type = match param(&ctx.params, "response_type") {
        Some(v) => v,
        None => return Err(missing("response_type")),
    };
    if response_type != "id_token".to_owned() {
        return Err(
            BrokerError::Input("unsupported response_type, only id_token is supported".to_owned()),
        );
    }

    let login_hint = param_or(&ctx.params, "login_hint", "");
    proof {
        reveal_strlit("");
    }
    if login_hint.as_str().unicode_len() == 0 {
        let form = LoginForm {
            display_origin,
            form_action: config.public_url.clone().concat("/auth"),
            method: ctx.method.name(),
            params: copy_params(&ctx.params),
        };
        return Ok(AuthStart::Prompt(form));
    }
    let email = match EmailAddress::parse(login_hint.as_str()) {
        Ok(a) => a,
        Err(e) => return Err(e),
    };
    Ok(AuthStart::Attempt(Pending { client_id, login_hint, email, nonce }))
}

} // verus!
