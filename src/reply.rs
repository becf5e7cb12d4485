use vstd::prelude::*;
use crate::error::{BrokerError, ErrorModel};
use crate::params::Params;
use crate::request::{Context, ResponseMode, ReturnParams};

verus! {

/// How a final error reaches the user.
pub enum ErrorReply {
    /// Back to the relying party: `fields` go into the fragment of
    /// `redirect_uri` or into a form posted to it, as `mode` says.
    Redirect { redirect_uri: String, mode: ResponseMode, fields: Params },
    /// A page of the broker's own.
    Page(BrokerError),
}

pub open spec fn pairs_view(ps: Seq<(String, String)>) -> Seq<(Seq<char>, Seq<char>)> {
    ps.map_values(|p: (String, String)| (p.0@, p.1@))
}

/// The error code and description under which an error is redirected to
/// the relying party; only invalid input and rate limiting are.
pub open spec fn redirected_error(e: ErrorModel) -> Option<(Seq<char>, Seq<char>)> {
    match e {
        ErrorModel::Input(m) => Some(("invalid_request"@, m)),
        ErrorModel::RateLimited => Some(("access_denied"@, "too many requests"@)),
        _ => None,
    }
}

/// Whether `e` goes back to the relying party through `channel`: a channel
/// is bound, asks for errors, and the error is one that is redirected.
pub open spec fn redirects(channel: Option<(Seq<char>, ResponseMode, bool, Seq<char>)>, e: ErrorModel) -> bool {
    channel is Some && channel->Some_0.2 && redirected_error(e) is Some
}

pub open spec fn channel_view(channel: Option<ReturnParams>) -> Option<(Seq<char>, ResponseMode, bool, Seq<char>)> {
    match channel {
        Some(c) => Some(c@),
        None => None,
    }
}

/// The fields that carry `e` back to the relying party, `state` echoed.
pub open spec fn redirect_fields(e: ErrorModel, state: Seq<char>) -> Seq<(Seq<char>, Seq<char>)> {
    let (code, desc) = redirected_error(e).unwrap();
    seq![("error"@, code), ("error_description"@, desc), ("state"@, state)]
}

/// Turns a final error into its reply, through the request's return channel
/// where one is bound.
pub fn error_reply(ctx: &Context, e: BrokerError) -> (r: ErrorReply)
    ensures
        redirects(channel_view(ctx.return_params), e@) ==> match r {
            ErrorReply::Redirect { redirect_uri, mode, fields } => {
                &&& redirect_uri@ == ctx.return_params->Some_0.redirect_uri@
                &&& mode == ctx.return_params->Some_0.response_mode
                &&& pairs_view(fields@) == redirect_fields(e@, ctx.return_params->Some_0.state@)
            },
            ErrorReply::Page(_) => false,
        },
        !redirects(channel_view(ctx.return_params), e@) ==> match r {
            ErrorReply::Page(p) => p@ == e@,
            _ => false,
        },
{
    let channel = match &ctx.return_params {
        Some(c) => c,
        None => return ErrorReply::Page(e),
    };
    if !channel.response_errors {
        return ErrorReply::Page(e);
    }
    let (code, desc) = match &e {
        BrokerError::Input(m) => ("invalid_request".to_owned(), m.clone()),
        BrokerError::RateLimited => ("access_denied".to_owned(), "too many requests".to_owned()),
        _ => return ErrorReply::Page(e),
    };
    let mut fields: Params = Vec::new();
    fields.push(("error".to_owned(), code));
    fields.push(("error_description".to_owned(), desc));
    fields.push(("state".to_owned(), channel.state.clone()));
    let ghost want = redirect_fields(e@, channel.state@);
    assert(pairs_view(fields@) =~= want);
    ErrorReply::Redirect { redirect_uri: channel.redirect_uri.clone(), mode: channel.response_mode, fields }
}

} // verus!
