//! The sequence of an attempt after validation, as a state machine: the
//! caller performs each action and hands its outcome back as an event.
use vstd::prelude::*;
use crate::attempt::{
    bridge_spec, falls_back, fallback, limit_view, links_view, rate_limit_verdict, select_bridge, settle_race,
    timed_out_msg, verdict_spec, Fallback, Link, Race,
};
use crate::email::EmailAddress;
use crate::error::{BrokerError, ErrorModel};
use crate::request::{Context, Pending};

verus! {

/// Where an attempt stands.
#[derive(Clone, Copy, Debug, PartialEq, Eq, Structural)]
pub enum Phase {
    /// Waiting for the rate limiter's answer.
    Limiting,
    /// Waiting for discovery raced against its deadline.
    Discovering,
    /// Waiting for the OIDC-family bridge.
    Bridging,
    /// Waiting for the email-loop bridge.
    Emailing,
    /// Finished.
    Done,
}

/// An outcome of the caller's work, handed back to the attempt.
pub enum Event<R> {
    /// The rate limiter answered.
    Limit(Result<bool, BrokerError>),
    /// The race of discovery against its deadline ended.
    Discovered(Race<Vec<Link>>),
    /// The OIDC-family bridge answered.
    Bridged(Result<R, BrokerError>),
    /// The email-loop bridge answered.
    Emailed(Result<R, BrokerError>),
}

/// What the caller does next.
pub enum Action<R> {
    /// Run discovery for the address against its deadline.
    Discover,
    /// Call the OIDC-family bridge with this link.
    Oidc(Link),
    /// Log `cause`, let discovery run on in the background where `detach`
    /// says so (its outcome only logged), and call the email-loop bridge.
    EmailLoop { cause: BrokerError, detach: bool },
    /// Finish with this response.
    Respond(R),
    /// Finish with this error, logged first where `log` says so.
    Fail { error: BrokerError, log: bool },
}

/// One authentication attempt for a validated address.
pub struct Flow {
    pub phase: Phase,
    pub pending: Option<Pending>,
    pub email: EmailAddress,
}

/// Whether `ev` is the event that `phase` waits for.
pub open spec fn expects<R>(phase: Phase, ev: Event<R>) -> bool {
    match ev {
        Event::Limit(_) => phase == Phase::Limiting,
        Event::Discovered(_) => phase == Phase::Discovering,
        Event::Bridged(_) => phase == Phase::Bridging,
        Event::Emailed(_) => phase == Phase::Emailing,
    }
}

/// The step after the provider path failed with `e`: the email loop where
/// the failure is one of provider unavailability, else the error, logged.
pub open spec fn after_failure<R>(e: ErrorModel, phase: Phase, r: Action<R>) -> bool {
    if falls_back(e) {
        phase == Phase::Emailing && (r matches Action::EmailLoop { cause, detach } && cause@ == e && !detach)
    } else {
        phase == Phase::Done && (r matches Action::Fail { error, log } && error@ == e && log)
    }
}

impl Flow {
    /// The attempt holds its pending session until the rate limiter let it through.
    pub open spec fn wf(&self) -> bool {
        &&& (self.phase == Phase::Limiting) == (self.pending is Some)
        &&& self.pending is Some ==> self.pending->Some_0.email@ == self.email@
    }

    /// Starts an attempt; the caller first asks the rate limiter about the
    /// address.
    pub fn new(pending: Pending) -> (r: Flow)
        ensures
            r.wf(),
            r.phase == Phase::Limiting,
            r.email@ == pending.email@,
            r.pending is Some,
            r.pending->Some_0.client_id@ == pending.client_id@,
            r.pending->Some_0.login_hint@ == pending.login_hint@,
            r.pending->Some_0.email@ == pending.email@,
            r.pending->Some_0.nonce@ == pending.nonce@,
    {
        let email = pending.email.duplicate();
        Flow { phase: Phase::Limiting, pending: Some(pending), email }
    }

    /// Classifies a failure of the provider path.
    fn fail_over<R>(&mut self, e: BrokerError) -> (r: Action<R>)
        requires
            old(self).pending is None,
        ensures
            final(self).pending is None,
            final(self).email == old(self).email,
            after_failure(e@, final(self).phase, r),
    {
        let cause = e.duplicate();
        match fallback(e) {
            Fallback::EmailLoop => {
                self.phase = Phase::Emailing;
                Action::EmailLoop { cause, detach: false }
            },
            Fallback::Propagate(err) => {
                self.phase = Phase::Done;
                Action::Fail { error: err, log: true }
            },
        }
    }

    /// Takes the next step of the attempt.
    pub fn step<R>(&mut self, ctx: &mut Context, ev: Event<R>) -> (r: Action<R>)
        requires
            old(self).wf(),
            expects(old(self).phase, ev),
        ensures
            final(self).wf(),
            final(self).email@ == old(self).email@,
            final(ctx).method == old(ctx).method,
            final(ctx).params == old(ctx).params,
            final(ctx).return_params == old(ctx).return_params,
            !(ev is Limit) ==> final(ctx).session == old(ctx).session,
            match ev {
                Event::Limit(l) => match verdict_spec(limit_view(l)) {
                    Ok(()) => {
                        &&& r is Discover
                        &&& final(self).phase == Phase::Discovering
                        &&& final(ctx).session is Some
                        &&& final(ctx).session->Some_0.email@ == old(self).email@
                        &&& final(ctx).session->Some_0.client_id@ == old(self).pending->Some_0.client_id@
                        &&& final(ctx).session->Some_0.nonce@ == old(self).pending->Some_0.nonce@
                        &&& final(ctx).session->Some_0.login_hint@ == old(self).pending->Some_0.login_hint@
                    },
                    Err(e) => {
                        &&& final(self).phase == Phase::Done
                        &&& final(ctx).session == old(ctx).session
                        &&& r matches Action::Fail { error, log } && error@ == e && !log
                    },
                },
                Event::Discovered(Race::DeadlineFirst) => {
                    &&& final(self).phase == Phase::Emailing
                    &&& r matches Action::EmailLoop { cause, detach }
                        && cause@ == ErrorModel::Provider(timed_out_msg(old(self).email@)) && detach
                },
                Event::Discovered(Race::WorkFirst(Ok(links))) => match bridge_spec(links_view(links@)) {
                    Ok(l) => final(self).phase == Phase::Bridging && (r matches Action::Oidc(link) && link@ == l),
                    Err(e) => after_failure(e, final(self).phase, r),
                },
                Event::Discovered(Race::WorkFirst(Err(e))) => after_failure(e@, final(self).phase, r),
                Event::Bridged(Ok(resp)) => final(self).phase == Phase::Done && r == Action::Respond(resp),
                Event::Bridged(Err(e)) => after_failure(e@, final(self).phase, r),
                Event::Emailed(Ok(resp)) => final(self).phase == Phase::Done && r == Action::Respond(resp),
                Event::Emailed(Err(e)) => {
                    &&& final(self).phase == Phase::Done
                    &&& r matches Action::Fail { error, log } && error@ == e@ && !log
                },
            },
    {
        match ev {
            Event::Limit(l) => {
                match rate_limit_verdict(l) {
                    Ok(()) => {
                        let pending = self.pending.take();
                        match pending {
                            Some(p) => ctx.start_session(p),
                            None => {},
                        }
                        self.phase = Phase::Discovering;
                        Action::Discover
                    },
                    Err(e) => {
                        self.pending = None;
                        self.phase = Phase::Done;
                        Action::Fail { error: e, log: false }
                    },
                }
            },
            Event::Discovered(race) => {
                let settled = settle_race(race, &self.email);
                match settled.result {
                    Ok(links) => match select_bridge(&links) {
                        Ok(link) => {
                            self.phase = Phase::Bridging;
                            Action::Oidc(link)
                        },
                        Err(e) => self.fail_over(e),
                    },
                    Err(e) => {
                        if settled.detach {
                            self.phase = Phase::Emailing;
                            Action::EmailLoop { cause: e, detach: true }
                        } else {
                            self.fail_over(e)
                        }
                    },
                }
            },
            Event::Bridged(res) => match res {
                Ok(resp) => {
                    self.phase = Phase::Done;
                    Action::Respond(resp)
                },
                Err(e) => self.fail_over(e),
            },
            Event::Emailed(res) => {
                self.phase = Phase::Done;
                match res {
                    Ok(resp) => Action::Respond(resp),
                    Err(e) => Action::Fail { error: e, log: false },
                }
            },
        }
    }
}

} // verus!
