//! Properties that hold across the stages of an attempt.
use vstd::prelude::*;
use crate::attempt::{bridge_spec, falls_back, oidc_family, timed_out_msg, verdict_spec, Relation};
use crate::error::ErrorModel;
use crate::params::{param_or_spec, param_spec};
use crate::redirect::url_origin;
use crate::reply::{redirect_fields, redirects};
use crate::request::{
    auth_outcome, bool_spec, client_id_msg, missing_msg, mode_spec, response_errors_msg, response_mode_msg,
    Outcome, ResponseMode,
};

verus! {

/// Whether the parameters pass every check up to and including the
/// whitelist: the return channel is bound and the origin is allowed.
pub open spec fn passes_whitelist(ps: Seq<(String, String)>, allowed: Option<Seq<Seq<char>>>) -> bool {
    &&& param_spec(ps, "redirect_uri"@) is Some
    &&& param_spec(ps, "client_id"@) is Some
    &&& url_origin(param_spec(ps, "redirect_uri"@).unwrap()) == param_spec(ps, "client_id"@)
    &&& mode_spec(param_or_spec(ps, "response_mode"@, "fragment"@)) is Some
    &&& bool_spec(param_or_spec(ps, "response_errors"@, "true"@)) is Some
    &&& (allowed is Some ==> allowed.unwrap().contains(param_spec(ps, "client_id"@).unwrap()))
}

/// A request that lacks a required parameter fails with invalid input and
/// never proceeds to an attempt (so no rate-limit or network call follows).
/// The error names the parameter wherever the checks before it pass: the
/// redirect URI always, the client id once the redirect URI is given, the
/// nonce once the whitelist is passed, and the response type once the nonce
/// is given too; from the nonce on, the return channel is bound.
pub proof fn lemma_missing_required_is_input(
    ps: Seq<(String, String)>,
    allowed: Option<Seq<Seq<char>>>,
    name: Seq<char>,
)
    requires
        name == "redirect_uri"@ || name == "client_id"@ || name == "nonce"@ || name
            == "response_type"@,
        param_spec(ps, name) is None,
    ensures
        auth_outcome(ps, allowed) is Fail,
        auth_outcome(ps, allowed)->Fail_0 is Input,
        name == "redirect_uri"@ ==> auth_outcome(ps, allowed) == Outcome::Fail(
            ErrorModel::Input(missing_msg(name)),
            false,
        ),
        name == "client_id"@ && param_spec(ps, "redirect_uri"@) is Some ==> auth_outcome(ps, allowed)
            == Outcome::Fail(ErrorModel::Input(missing_msg(name)), false),
        name == "nonce"@ && passes_whitelist(ps, allowed) ==> auth_outcome(ps, allowed)
            == Outcome::Fail(ErrorModel::Input(missing_msg(name)), true),
        name == "response_type"@ && passes_whitelist(ps, allowed) && param_spec(ps, "nonce"@) is Some
            ==> auth_outcome(ps, allowed) == Outcome::Fail(ErrorModel::Input(missing_msg(name)), true),
{
}

/// Where the redirect URI has an origin, the request is refused for its
/// client id exactly when the client id differs from that origin.
pub proof fn lemma_client_id_must_be_origin(ps: Seq<(String, String)>, allowed: Option<Seq<Seq<char>>>)
    requires
        param_spec(ps, "redirect_uri"@) is Some,
        param_spec(ps, "client_id"@) is Some,
        url_origin(param_spec(ps, "redirect_uri"@).unwrap()) is Some,
    ensures
        (auth_outcome(ps, allowed) == Outcome::Fail(ErrorModel::Input(client_id_msg()), false)) <==> (
        param_spec(ps, "client_id"@).unwrap() != url_origin(
            param_spec(ps, "redirect_uri"@).unwrap(),
        ).unwrap()),
{
    reveal_strlit("the client_id must be the origin of the redirect_uri");
    reveal_strlit("unsupported response_mode, must be fragment or form_post");
    reveal_strlit("response_errors must be true or false");
    assert(client_id_msg().len() != response_mode_msg().len());
    assert(client_id_msg().len() != response_errors_msg().len());
}

/// Only `fragment` and `form_post` name a response mode, and a request
/// whose client id matches its redirect URI is refused for its response mode
/// exactly when it names another.
pub proof fn lemma_response_mode_accepted(ps: Seq<(String, String)>, allowed: Option<Seq<Seq<char>>>)
    requires
        param_spec(ps, "redirect_uri"@) is Some,
        param_spec(ps, "client_id"@) is Some,
        url_origin(param_spec(ps, "redirect_uri"@).unwrap()) == Some(
            param_spec(ps, "client_id"@).unwrap(),
        ),
    ensures
        forall|s: Seq<char>| #[trigger] mode_spec(s) is Some <==> (s == "fragment"@ || s == "form_post"@),
        (auth_outcome(ps, allowed) == Outcome::Fail(ErrorModel::Input(response_mode_msg()), false))
            <==> mode_spec(param_or_spec(ps, "response_mode"@, "fragment"@)) is None,
{
    reveal_strlit("unsupported response_mode, must be fragment or form_post");
    reveal_strlit("response_errors must be true or false");
    assert(response_mode_msg().len() != response_errors_msg().len());
}

/// A refusal by the rate limiter ends the attempt with `RateLimited`, which
/// never falls back to the email loop.
pub proof fn lemma_refused_limit_is_terminal()
    ensures
        verdict_spec(Ok(false)) == Err::<(), ErrorModel>(ErrorModel::RateLimited),
        !falls_back(ErrorModel::RateLimited),
{
}

/// A first link of the OIDC-family relations is handed to that bridge as it
/// was discovered.
pub proof fn lemma_oidc_first_link(links: Seq<(Relation, Seq<char>)>)
    requires
        links.len() > 0,
        oidc_family(links[0].0),
    ensures
        bridge_spec(links) == Ok::<_, ErrorModel>(links[0]),
{
}

/// Discovery that misses its deadline fails with a `Provider` error,
/// which falls back to the email loop.
pub proof fn lemma_timeout_falls_back(email: Seq<char>)
    ensures
        falls_back(ErrorModel::Provider(timed_out_msg(email))),
{
}

/// Discovery that finds no link cancels the provider path, and that falls
/// back to the email loop.
pub proof fn lemma_no_link_falls_back()
    ensures
        bridge_spec(Seq::empty()) == Err::<(Relation, Seq<char>), _>(ErrorModel::ProviderCancelled),
        falls_back(ErrorModel::ProviderCancelled),
{
}

/// A failure of discovery itself falls back to the email loop, whatever its
/// message; errors of other kinds never do.
pub proof fn lemma_provider_error_falls_back(e: ErrorModel)
    ensures
        e is Provider ==> falls_back(e),
        e is Input || e is RateLimited || e is Internal ==> !falls_back(e),
{
}

/// Invalid input after the return channel was bound (asking for errors) goes
/// back to the relying party, with `state` unchanged.
pub proof fn lemma_input_redirects(
    channel: (Seq<char>, ResponseMode, bool, Seq<char>),
    msg: Seq<char>,
)
    requires
        channel.2,
    ensures
        redirects(Some(channel), ErrorModel::Input(msg)),
        redirect_fields(ErrorModel::Input(msg), channel.3) == seq![
            ("error"@, "invalid_request"@),
            ("error_description"@, msg),
            ("state"@, channel.3),
        ],
{
}

} // verus!
