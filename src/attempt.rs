use vstd::prelude::*;
use crate::email::EmailAddress;
use crate::error::{BrokerError, ErrorModel};
use crate::request::{Context, Pending, Session};

verus! {

/// The relation of a discovered link.
#[derive(Clone, Copy, Debug, PartialEq, Eq, Structural)]
pub enum Relation {
    OidcIssuer,
    Portier,
    Google,
    Other,
}

/// A link that discovery found for the address's domain.
pub struct Link {
    pub rel: Relation,
    pub href: String,
}

impl View for Link {
    type V = (Relation, Seq<char>);

    open spec fn view(&self) -> (Relation, Seq<char>) {
        (self.rel, self.href@)
    }
}

impl Link {
    /// A copy of the link.
    pub fn duplicate(&self) -> (r: Link)
        ensures
            r@ == self@,
    {
        Link { rel: self.rel, href: self.href.clone() }
    }
}

/// Whether the OIDC-family bridge serves links of relation `rel`.
pub open spec fn oidc_family(rel: Relation) -> bool {
    rel == Relation::OidcIssuer || rel == Relation::Portier || rel == Relation::Google
}

/// What the rate limiter's answer means for the attempt: a store error is
/// passed on unchanged, a refusal is `RateLimited`, else the attempt goes on.
pub open spec fn verdict_spec(limit: Result<bool, ErrorModel>) -> Result<(), ErrorModel> {
    match limit {
        Err(e) => Err(e),
        Ok(false) => Err(ErrorModel::RateLimited),
        Ok(true) => Ok(()),
    }
}

pub open spec fn limit_view(limit: Result<bool, BrokerError>) -> Result<bool, ErrorModel> {
    match limit {
        Ok(b) => Ok(b),
        Err(e) => Err(e@),
    }
}

/// Applies the rate limiter's answer for the attempt's address.
pub fn rate_limit_verdict(limit: Result<bool, BrokerError>) -> (r: Result<(), BrokerError>)
    ensures
        match r {
            Ok(()) => verdict_spec(limit_view(limit)) == Ok::<(), ErrorModel>(()),
            Err(e) => verdict_spec(limit_view(limit)) == Err::<(), ErrorModel>(e@),
        },
{
    match limit {
        Err(e) => Err(e),
        Ok(false) => Err(BrokerError::RateLimited),
        Ok(true) => Ok(()),
    }
}

impl Context {
    /// Starts the in-memory session of an attempt that the rate limiter let
    /// through. Nothing is persisted here: a bridge that proceeds does that.
    pub fn start_session(&mut self, pending: Pending)
        ensures
            final(self).method == old(self).method,
            final(self).params == old(self).params,
            final(self).return_params == old(self).return_params,
            final(self).session is Some,
            final(self).session->Some_0.client_id@ == pending.client_id@,
            final(self).session->Some_0.login_hint@ == pending.login_hint@,
            final(self).session->Some_0.email@ == pending.email@,
            final(self).session->Some_0.nonce@ == pending.nonce@,
    {
        self.session = Some(
            Session {
                client_id: pending.client_id,
                login_hint: pending.login_hint,
                email: pending.email,
                nonce: pending.nonce,
            },
        );
    }
}

/// The bridge that serves the discovered links: only the first link is
/// tried, through the OIDC-family bridge where its relation is one of its
/// own; anything else cancels the provider path.
pub open spec fn bridge_spec(links: Seq<(Relation, Seq<char>)>) -> Result<(Relation, Seq<char>), ErrorModel> {
    if links.len() > 0 && oidc_family(links[0].0) {
        Ok(links[0])
    } else {
        Err(ErrorModel::ProviderCancelled)
    }
}

pub open spec fn links_view(links: Seq<Link>) -> Seq<(Relation, Seq<char>)> {
    links.map_values(|l: Link| l@)
}

/// Picks the link that the OIDC-family bridge is to be called with.
pub fn select_bridge(links: &Vec<Link>) -> (r: Result<Link, BrokerError>)
    ensures
        match r {
            Ok(l) => bridge_spec(links_view(links@)) == Ok::<_, ErrorModel>(l@),
            Err(e) => bridge_spec(links_view(links@)) == Err::<(Relation, Seq<char>), _>(e@),
        },
{
    if links.len() == 0 {
        return Err(BrokerError::ProviderCancelled);
    }
    let first = &links[0];
    match first.rel {
        Relation::OidcIssuer | Relation::Portier | Relation::Google => Ok(first.duplicate()),
        Relation::Other => Err(BrokerError::ProviderCancelled),
    }
}

/// How the race between discovery and its deadline ended.
pub enum Race<T> {
    /// The deadline passed first; discovery is still running.
    DeadlineFirst,
    /// Discovery finished first, with this result.
    WorkFirst(Result<T, BrokerError>),
}

/// The settled race: its result, and whether the still-running discovery
/// is to be detached (run to its end, its outcome only logged).
pub struct Settled<T> {
    pub result: Result<T, BrokerError>,
    pub detach: bool,
}

pub open spec fn timed_out_msg(email: Seq<char>) -> Seq<char> {
    "discovery timed out for "@ + email
}

/// Settles the race: discovery's own result where it finished first,
/// else a `Provider` error naming the address.
pub fn settle_race<T>(race: Race<T>, email: &EmailAddress) -> (r: Settled<T>)
    ensures
        match race {
            Race::DeadlineFirst => r.detach && r.result is Err
                && r.result->Err_0@ == ErrorModel::Provider(timed_out_msg(email@)),
            Race::WorkFirst(res) => !r.detach && r.result == res,
        },
{
    match race {
        Race::DeadlineFirst => Settled {
            result: Err(BrokerError::Provider("discovery timed out for ".to_owned().concat(email.as_str()))),
            detach: true,
        },
        Race::WorkFirst(res) => Settled { result: res, detach: false },
    }
}

/// What becomes of a failed provider path.
pub enum Fallback {
    /// Retry through the email loop, whose result is final.
    EmailLoop,
    /// Report the error unchanged.
    Propagate(BrokerError),
}

/// Whether an error of this kind falls back to the email loop: only the
/// unavailability of a provider does.
pub open spec fn falls_back(e: ErrorModel) -> bool {
    e is Provider || e is ProviderCancelled
}

/// Classifies an error of the provider path.
pub fn fallback(e: BrokerError) -> (r: Fallback)
    ensures
        falls_back(e@) ==> r is EmailLoop,
        !falls_back(e@) ==> r is Propagate && r->Propagate_0@ == e@,
{
    match e {
        BrokerError::Provider(_) | BrokerError::ProviderCancelled => Fallback::EmailLoop,
        _ => Fallback::Propagate(e),
    }
}

} // verus!
