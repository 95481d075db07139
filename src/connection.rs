use vstd::prelude::*;
use crate::error::WebDriverError;
use crate::types::opt_string;

verus! {

/// The client name and version sent as the user agent.
pub const USER_AGENT: &'static str = "thirtyfour/0.1.0 (rust)";

/// Whether `s` is accepted as an HTTP header value: each character is a tab,
/// or at least a space and not DEL (characters beyond ASCII encode to bytes
/// of 128 and above, which are accepted).
pub open spec fn header_value_ok(s: Seq<char>) -> bool {
    forall|i: int| 0 <= i < s.len() ==> #[trigger] s[i] == '\t' || (s[i] as u32 >= 32 && s[i] as u32 != 127)
}

/// The user name and the password that a URL embeds, each absent when the
/// URL does not give it.
pub uninterp spec fn url_credentials_of(url: Seq<char>) -> (Option<Seq<char>>, Option<Seq<char>>);

/// The standard, padded base64 text of the UTF-8 encoding of `s`.
pub uninterp spec fn base64_of(s: Seq<char>) -> Seq<char>;

/// Relies on reqwest::header::HeaderValue::from_str, which refuses a value
/// exactly when one of its bytes is below 32 and not a tab, or is 127.
#[verifier::external_body]
fn header_value_accepted(s: &str) -> (r: bool)
    ensures
        r == header_value_ok(s@),
{
    reqwest::header::HeaderValue::from_str(s).is_ok()
}

/// Relies on urlparse::urlparse for the `username` and `password` that it
/// reads from a URL.
#[verifier::external_body]
fn url_credentials(url: &str) -> (r: (Option<String>, Option<String>))
    ensures
        (opt_string(r.0), opt_string(r.1)) == url_credentials_of(url@),
{
    let parsed = urlparse::urlparse(url);
    (parsed.username, parsed.password)
}

/// Relies on base64::encode for the standard base64 text of a string's bytes.
#[verifier::external_body]
fn encode_base64(s: &str) -> (r: String)
    ensures
        r@ == base64_of(s@),
{
    base64::encode(s)
}

/// The model of a header list: name and value of each header, in order.
pub open spec fn header_pairs(h: Seq<(String, String)>) -> Seq<(Seq<char>, Seq<char>)> {
    h.map_values(|p: (String, String)| (p.0@, p.1@))
}

/// The header set for a connection, given the base64 token of its
/// credentials when it has any.
pub open spec fn headers_spec(auth: Option<Seq<char>>) -> Seq<(Seq<char>, Seq<char>)> {
    seq![
        ("accept"@, "application/json"@),
        ("content-type"@, "application/json;charset=UTF-8"@),
        ("user-agent"@, USER_AGENT@),
    ] + match auth {
        Some(t) => seq![("authorization"@, "Basic "@ + t)],
        None => Seq::empty(),
    } + seq![("connection"@, "keep-alive"@)]
}

/// Whether every value of a header list is accepted.
pub open spec fn headers_ok(h: Seq<(Seq<char>, Seq<char>)>) -> bool {
    forall|i: int| 0 <= i < h.len() ==> header_value_ok(#[trigger] h[i].1)
}

/// The base64 token for the credentials of a URL: present only when both
/// the user name and the password are.
pub open spec fn auth_token_spec(c: (Option<Seq<char>>, Option<Seq<char>>)) -> Option<Seq<char>> {
    match c {
        (Some(u), Some(p)) => Some(base64_of(u + ":"@ + p)),
        _ => None,
    }
}

fn push_header(h: &mut Vec<(String, String)>, name: &str, value: String)
    ensures
        header_pairs(final(h)@) == header_pairs(old(h)@).push((name@, value@)),
{
    h.push((String::from_str(name), value));
    assert(header_pairs(final(h)@) =~= header_pairs(old(h)@).push((name@, value@)));
}

/// Builds the header set from the base64 token of the credentials, if any,
/// and checks that every value can be sent.
pub fn headers_with_auth(auth: Option<String>) -> (r: Result<Vec<(String, String)>, WebDriverError>)
    ensures
        match r {
            Ok(h) => header_pairs(h@) == headers_spec(opt_string(auth)) && headers_ok(
                headers_spec(opt_string(auth)),
            ),
            Err(e) => !headers_ok(headers_spec(opt_string(auth))) && e is HeaderConstruction,
        },
{
    let ghost spec_auth = opt_string(auth);
    let mut h: Vec<(String, String)> = Vec::new();
    push_header(&mut h, "accept", String::from_str("application/json"));
    push_header(&mut h, "content-type", String::from_str("application/json;charset=UTF-8"));
    push_header(&mut h, "user-agent", String::from_str(USER_AGENT));
    match &auth {
        Some(t) => {
            push_header(&mut h, "authorization", String::from_str("Basic ").concat(t.as_str()));
        },
        None => {},
    }
    push_header(&mut h, "connection", String::from_str("keep-alive"));
    assert(header_pairs(h@) =~= headers_spec(spec_auth));
    let mut i: usize = 0;
    while i < h.len()
        invariant
            i <= h.len(),
            header_pairs(h@) == headers_spec(spec_auth),
            spec_auth == opt_string(auth),
            forall|j: int| 0 <= j < i ==> header_value_ok(#[trigger] header_pairs(h@)[j].1),
        decreases h.len() - i,
    {
        if !header_value_accepted(h[i].1.as_str()) {
            assert(!header_value_ok(headers_spec(spec_auth)[i as int].1));
            assert(!headers_ok(headers_spec(spec_auth)));
            return Err(WebDriverError::HeaderConstruction(h[i].1.clone()));
        }
        i = i + 1;
    }
    Ok(h)
}

/// Builds the header set for a connection to `remote_server_addr`: the fixed
/// headers, and Basic authorization when the URL embeds both a user name and
/// a password.
pub fn build_headers(remote_server_addr: &str) -> (r: Result<Vec<(String, String)>, WebDriverError>)
    ensures
        match r {
            Ok(h) => header_pairs(h@) == headers_spec(auth_token_spec(url_credentials_of(remote_server_addr@)))
                && headers_ok(headers_spec(auth_token_spec(url_credentials_of(remote_server_addr@)))),
            Err(e) => !headers_ok(headers_spec(auth_token_spec(url_credentials_of(remote_server_addr@))))
                && e is HeaderConstruction,
        },
{
    let (username, password) = url_credentials(remote_server_addr);
    let auth = match (username, password) {
        (Some(u), Some(p)) => {
            let joined = u.concat(":").concat(p.as_str());
            Some(encode_base64(joined.as_str()))
        },
        _ => None,
    };
    headers_with_auth(auth)
}

} // verus!
