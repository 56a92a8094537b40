//! Where the browser is sent after a sign-in through an OAuth provider.

use vstd::prelude::*;
use vstd::string::StringExecFns;
use vstd::utf8::encode_utf8;

verus! {

/// The providers a user can sign in with.
#[derive(Clone, Copy, Debug, PartialEq, Eq, Structural)]
pub enum OAuthProvider {
    Google,
    Github,
}

/// Why a sign-in failed.
#[derive(Clone, Copy, Debug, PartialEq, Eq, Structural)]
pub enum OAuthError {
    InvalidVerificationCode,
    CredentialNotActive,
    UserNotInvited,
    /// Anything else; the cause is logged where it arose.
    Other,
}

/// The tokens of a user who signed in.
#[derive(Debug)]
pub struct OAuthResponse {
    pub access_token: String,
    pub refresh_token: String,
}

/// Whether a byte stands for itself in a percent-encoded text: letters,
/// digits, and `-`, `.`, `_`, `~`.
pub open spec fn is_unreserved(byte: u8) -> bool {
    ||| 0x30 <= byte <= 0x39
    ||| 0x41 <= byte <= 0x5a
    ||| 0x61 <= byte <= 0x7a
    ||| byte == 0x2d
    ||| byte == 0x2e
    ||| byte == 0x5f
    ||| byte == 0x7e
}

/// The upper-case hexadecimal digit for a value below 16.
pub open spec fn hex_digit(value: u8) -> char {
    if value < 10 {
        (0x30 + value) as u8 as char
    } else {
        (0x41 + value - 10) as u8 as char
    }
}

/// One byte, percent-encoded.
pub open spec fn encoded_byte(byte: u8) -> Seq<char> {
    if is_unreserved(byte) {
        seq![byte as char]
    } else {
        seq!['%', hex_digit(byte / 16), hex_digit(byte % 16)]
    }
}

/// A run of bytes, percent-encoded byte by byte.
pub open spec fn encoded_bytes(bytes: Seq<u8>) -> Seq<char>
    decreases bytes.len(),
{
    if bytes.len() == 0 {
        Seq::empty()
    } else {
        encoded_bytes(bytes.drop_last()) + encoded_byte(bytes.last())
    }
}

/// A text, percent-encoded: every byte of its UTF-8 form but the
/// unreserved ones becomes `%` and two hexadecimal digits.
pub open spec fn percent_encoded(text: Seq<char>) -> Seq<char> {
    encoded_bytes(encode_utf8(text))
}

/// A query string: each pair as `key=value`, each followed by `&`.
pub open spec fn query_string(pairs: Seq<(Seq<char>, Seq<char>)>) -> Seq<char>
    decreases pairs.len(),
{
    if pairs.len() == 0 {
        Seq::empty()
    } else {
        query_string(pairs.drop_last()) + pairs.last().0 + seq!['='] + pairs.last().1 + seq!['&']
    }
}

/// The texts of a list of pairs, in order.
pub open spec fn pair_texts(pairs: Seq<(&str, &str)>) -> Seq<(Seq<char>, Seq<char>)> {
    pairs.map_values(|pair: (&str, &str)| (pair.0@, pair.1@))
}

/// Calls `urlencoding::encode`. Trusted: the result is the percent-encoding
/// of the UTF-8 bytes of `text`, in which letters, digits, `-`, `.`, `_`
/// and `~` stand for themselves and every other byte is written as `%`
/// with two upper-case hexadecimal digits.
#[verifier::external_body]
fn percent_encode(text: &str) -> (encoded: String)
    ensures
        encoded@ == percent_encoded(text@),
{
    urlencoding::encode(text).into_owned()
}

/// Calls `querystring::stringify`. Trusted: the result is, for each pair
/// in order, the key, `=`, the value and `&`.
#[verifier::external_body]
fn stringify(pairs: Vec<(&str, &str)>) -> (query: String)
    ensures
        query@ == query_string(pair_texts(pairs@)),
{
    querystring::stringify(pairs)
}

/// What the user is told when a sign-in fails with `error`.
pub open spec fn error_message(error: OAuthError) -> Seq<char> {
    match error {
        OAuthError::InvalidVerificationCode => "Invalid oauth code"@,
        OAuthError::CredentialNotActive => "OAuth is not enabled"@,
        OAuthError::UserNotInvited => "User is not invited, please contact your admin for help"@,
        OAuthError::Other => "Unknown error"@,
    }
}

/// The address of the sign-in page with `message` for the user.
/// `provider` is the provider as it is written in JSON.
pub open spec fn error_redirect(
    redirect_url: Seq<char>,
    provider: Seq<char>,
    message: Seq<char>,
) -> Seq<char> {
    redirect_url + "/auth/signin?"@ + query_string(
        seq![("error_message"@, percent_encoded(message)), ("provider"@, provider)],
    )
}

/// The address of the sign-in page with the tokens of a user who signed
/// in.
pub open spec fn success_redirect(
    redirect_url: Seq<char>,
    refresh_token: Seq<char>,
    access_token: Seq<char>,
) -> Seq<char> {
    redirect_url + "/auth/signin?refresh_token="@ + refresh_token + "&access_token="@
        + access_token
}

impl OAuthError {
    /// What the user is told about the failure.
    pub fn message(&self) -> (text: &'static str)
        ensures
            text@ == error_message(*self),
    {
        match self {
            OAuthError::InvalidVerificationCode => "Invalid oauth code",
            OAuthError::CredentialNotActive => "OAuth is not enabled",
            OAuthError::UserNotInvited => "User is not invited, please contact your admin for help",
            OAuthError::Other => "Unknown error",
        }
    }
}

/// Where to send the browser to show `message` on the sign-in page.
/// `redirect_url` is the address of the site; `provider` is the provider
/// as it is written in JSON.
pub fn make_error_redirect(redirect_url: &str, provider: &str, message: &str) -> (uri: String)
    ensures
        uri@ == error_redirect(redirect_url@, provider@, message@),
{
    let encoded = percent_encode(message);
    let mut pairs: Vec<(&str, &str)> = Vec::new();
    pairs.push(("error_message", encoded.as_str()));
    pairs.push(("provider", provider));
    assert(pair_texts(pairs@) =~= seq![
        ("error_message"@, percent_encoded(message@)),
        ("provider"@, provider@),
    ]);
    let query = stringify(pairs);
    let mut uri = String::from_str(redirect_url);
    uri.append("/auth/signin?");
    uri.append(query.as_str());
    uri
}

/// Where to send the browser once a sign-in has been decided: to the
/// sign-in page, with the user's tokens or with the reason of the failure.
pub fn match_auth_result(
    redirect_url: &str,
    provider: &str,
    result: Result<OAuthResponse, OAuthError>,
) -> (uri: String)
    ensures
        uri@ == match result {
            Ok(response) => success_redirect(
                redirect_url@,
                response.refresh_token@,
                response.access_token@,
            ),
            Err(error) => error_redirect(redirect_url@, provider@, error_message(error)),
        },
{
    match result {
        Ok(response) => {
            let mut uri = String::from_str(redirect_url);
            uri.append("/auth/signin?refresh_token=");
            uri.append(response.refresh_token.as_str());
            uri.append("&access_token=");
            uri.append(response.access_token.as_str());
            uri
        },
        Err(error) => make_error_redirect(redirect_url, provider, error.message()),
    }
}

/// Google reports a refusal in the callback itself: if `error` is not
/// empty the browser goes back to the sign-in page with it, and no
/// sign-in is attempted.
pub fn google_oauth_error(redirect_url: &str, provider: &str, error: &str) -> (uri: Option<String>)
    ensures
        error@.len() == 0 ==> uri is None,
        error@.len() > 0 ==> uri is Some && uri->0@ == error_redirect(
            redirect_url@,
            provider@,
            error@,
        ),
{
    if error.is_empty() {
        None
    } else {
        Some(make_error_redirect(redirect_url, provider, error))
    }
}

/// The client that signs users in with `provider`, out of the two the
/// caller has.
pub fn new_oauth_client<C>(provider: OAuthProvider, google: C, github: C) -> (client: C)
    ensures
        client == match provider {
            OAuthProvider::Google => google,
            OAuthProvider::Github => github,
        },
{
    match provider {
        OAuthProvider::Google => google,
        OAuthProvider::Github => github,
    }
}

/// Whether a provider can be used: its credential was read, and there is
/// one.
pub fn has_provider<C, E>(credential: &Result<Option<C>, E>) -> (usable: bool)
    ensures
        usable == (*credential matches Ok(Some(_))),
{
    match credential {
        Ok(Some(_)) => true,
        _ => false,
    }
}

/// The providers that can be used, Google before Github.
pub fn providers(google: bool, github: bool) -> (usable: Vec<OAuthProvider>)
    ensures
        usable@ == (if google {
            seq![OAuthProvider::Google]
        } else {
            Seq::<OAuthProvider>::empty()
        }) + (if github {
            seq![OAuthProvider::Github]
        } else {
            Seq::<OAuthProvider>::empty()
        }),
{
    let mut usable: Vec<OAuthProvider> = Vec::new();
    if google {
        usable.push(OAuthProvider::Google);
    }
    if github {
        usable.push(OAuthProvider::Github);
    }
    assert(usable@ =~= (if google {
        seq![OAuthProvider::Google]
    } else {
        Seq::<OAuthProvider>::empty()
    }) + (if github {
        seq![OAuthProvider::Github]
    } else {
        Seq::<OAuthProvider>::empty()
    }));
    usable
}

/// The answer to a request to sign in: the provider's authorization
/// address to go to, or the status 500 when it could not be had.
pub fn signin<E>(authorization_url: Result<String, E>) -> (answer: Result<String, u16>)
    ensures
        match authorization_url {
            Ok(uri) => answer == Ok::<String, u16>(uri),
            Err(_) => answer == Err::<String, u16>(500u16),
        },
{
    match authorization_url {
        Ok(uri) => Ok(uri),
        Err(_) => Err(500),
    }
}

} // verus!
