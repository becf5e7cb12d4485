use vstd::prelude::*;
use crate::request::Config;

verus! {

/// The OpenID discovery document of the broker.
pub struct DiscoveryDocument {
    pub issuer: String,
    pub authorization_endpoint: String,
    pub jwks_uri: String,
    pub scopes_supported: Vec<String>,
    pub claims_supported: Vec<String>,
    pub response_types_supported: Vec<String>,
    pub response_modes_supported: Vec<String>,
    pub grant_types_supported: Vec<String>,
    pub subject_types_supported: Vec<String>,
    pub id_token_signing_alg_values_supported: Vec<String>,
}

pub open spec fn strings_view(v: Seq<String>) -> Seq<Seq<char>> {
    v.map_values(|s: String| s@)
}

fn strings(a: &str, b: &str) -> (r: Vec<String>)
    ensures
        strings_view(r@) == seq![a@, b@],
{
    let mut v: Vec<String> = Vec::new();
    v.push(a.to_owned());
    v.push(b.to_owned());
    assert(strings_view(v@) =~= seq![a@, b@]);
    v
}

fn strings_one(a: &str) -> (r: Vec<String>)
    ensures
        strings_view(r@) == seq![a@],
{
    let mut v: Vec<String> = Vec::new();
    v.push(a.to_owned());
    assert(strings_view(v@) =~= seq![a@]);
    v
}

/// Builds the discovery document: the issuer is the broker's public URL, the
/// endpoints hang off it, and the capability lists are fixed.
pub fn discovery(config: &Config) -> (r: DiscoveryDocument)
    ensures
        r.issuer@ == config.public_url@,
        r.authorization_endpoint@ == config.public_url@ + "/auth"@,
        r.jwks_uri@ == config.public_url@ + "/keys.json"@,
        strings_view(r.scopes_supported@) == seq!["openid"@, "email"@],
        strings_view(r.claims_supported@) == seq!["iss"@, "aud"@, "exp"@, "iat"@, "email"@],
        strings_view(r.response_types_supported@) == seq!["id_token"@],
        strings_view(r.response_modes_supported@) == seq!["form_post"@, "fragment"@],
        strings_view(r.grant_types_supported@) == seq!["implicit"@],
        strings_view(r.subject_types_supported@) == seq!["public"@],
        strings_view(r.id_token_signing_alg_values_supported@) == seq!["RS256"@],
{
    let mut claims: Vec<String> = Vec::new();
    claims.push("iss".to_owned());
    claims.push("aud".to_owned());
    claims.push("exp".to_owned());
    claims.push("iat".to_owned());
    claims.push("email".to_owned());
    assert(strings_view(claims@) =~= seq!["iss"@, "aud"@, "exp"@, "iat"@, "email"@]);
    DiscoveryDocument {
        issuer: config.public_url.clone(),
        authorization_endpoint: config.public_url.clone().concat("/auth"),
        jwks_uri: config.public_url.clone().concat("/keys.json"),
        scopes_supported: strings("openid", "email"),
        claims_supported: claims,
        response_types_supported: strings_one("id_token"),
        response_modes_supported: strings("form_post", "fragment"),
        grant_types_supported: strings_one("implicit"),
        subject_types_supported: strings_one("public"),
        id_token_signing_alg_values_supported: strings_one("RS256"),
    }
}

} // verus!
