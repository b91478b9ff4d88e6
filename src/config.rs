//! Start-up configuration, the credential it yields, and the requests that
//! obtain one.

use vstd::prelude::*;

verus! {

/// How the dashboard authenticates.
#[derive(Clone, Debug)]
pub enum Auth {
    /// A bearer token given as is.
    Token { token: String },
    /// Client credentials exchanged at an OAuth issuer.
    OAuth { issuer_url: String, audience: String, credentials_file_url: String },
}

/// Cluster addresses, the tenant shown first, and how to authenticate.
#[derive(Clone, Debug)]
pub struct Config {
    pub pulsar_url: String,
    pub pulsar_admin_url: String,
    pub default_tenant: String,
    pub auth: Auth,
}

/// A bearer credential.
#[derive(Clone, Debug)]
pub struct Token {
    pub access_token: String,
}

impl Auth {
    /// The credential when it is given directly; an OAuth setup needs an
    /// exchange first.
    pub fn given_token(&self) -> (r: Option<Token>)
        ensures
            match self {
                Auth::Token { token } => r == Some(Token { access_token: *token }),
                Auth::OAuth { .. } => r is None,
            },
    {
        match self {
            Auth::Token { token } => Some(Token { access_token: token.clone() }),
            Auth::OAuth { .. } => None,
        }
    }
}

/// Where the admin REST API of a cluster lives.
pub fn admin_base_path(pulsar_admin_url: &str) -> (r: String)
    ensures
        r@ == pulsar_admin_url@ + "/admin/v2"@,
{
    let mut r = pulsar_admin_url.to_owned();
    r.append("/admin/v2");
    r
}

/// Where an OAuth issuer hands out tokens.
pub fn token_url(issuer_url: &str) -> (r: String)
    ensures
        r@ == issuer_url@ + "/oauth/token"@,
{
    let mut r = issuer_url.to_owned();
    r.append("/oauth/token");
    r
}

/// The characters of each key and value, in order.
pub open spec fn pairs_view(p: Seq<(String, String)>) -> Seq<(Seq<char>, Seq<char>)> {
    p.map_values(|kv: (String, String)| (kv.0@, kv.1@))
}

/// A name for what serde_urlencoded writes for a list of key/value pairs;
/// `None` when it refuses them.
pub uninterp spec fn form_urlencoded_of(pairs: Seq<(Seq<char>, Seq<char>)>) -> Option<Seq<char>>;

/// Relies on `serde_urlencoded::to_string` over a sequence of string pairs:
/// the `application/x-www-form-urlencoded` body, or `None` on its error.
#[verifier::external_body]
fn form_encode(pairs: &Vec<(String, String)>) -> (r: Option<String>)
    ensures
        match r {
            Some(s) => form_urlencoded_of(pairs_view(pairs@)) == Some(s@),
            None => form_urlencoded_of(pairs_view(pairs@)) is None,
        },
{
    serde_urlencoded::to_string(pairs).ok()
}

/// The pairs of a client-credentials token request.
pub open spec fn token_pairs(client_id: Seq<char>, client_secret: Seq<char>, audience: Seq<char>) -> Seq<
    (Seq<char>, Seq<char>),
> {
    seq![
        ("grant_type"@, "client_credentials"@),
        ("client_id"@, client_id),
        ("client_secret"@, client_secret),
        ("audience"@, audience),
    ]
}

/// The form body of a client-credentials token request.
pub fn token_form(client_id: &str, client_secret: &str, audience: &str) -> (r: Option<String>)
    ensures
        match r {
            Some(s) => form_urlencoded_of(token_pairs(client_id@, client_secret@, audience@))
                == Some(s@),
            None => form_urlencoded_of(token_pairs(client_id@, client_secret@, audience@)) is None,
        },
{
    let mut pairs: Vec<(String, String)> = Vec::new();
    pairs.push(("grant_type".to_owned(), "client_credentials".to_owned()));
    pairs.push(("client_id".to_owned(), client_id.to_owned()));
    pairs.push(("client_secret".to_owned(), client_secret.to_owned()));
    pairs.push(("audience".to_owned(), audience.to_owned()));
    proof {
        assert(pairs_view(pairs@) =~= token_pairs(client_id@, client_secret@, audience@));
    }
    form_encode(&pairs)
}

/// The cluster name shown: the first one listed, or a placeholder.
pub fn cluster_label(clusters: &Vec<String>) -> (r: String)
    ensures
        r@ == (if clusters@.len() > 0 {
            clusters@[0]@
        } else {
            "unknown cluster"@
        }),
{
    if clusters.len() > 0 {
        clusters[0].clone()
    } else {
        "unknown cluster".to_owned()
    }
}

} // verus!
