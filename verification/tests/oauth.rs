use tabby_hub::oauth::{
    google_oauth_error, has_provider, make_error_redirect, match_auth_result, providers, signin,
    OAuthError, OAuthProvider, OAuthResponse,
};

const SITE: &str = "https://tabby.example.com";
const GITHUB: &str = "\"github\"";
const GOOGLE: &str = "\"google\"";

#[test]
fn error_redirect_encodes_the_message() {
    assert_eq!(
        make_error_redirect(SITE, GITHUB, "Invalid oauth code"),
        "https://tabby.example.com/auth/signin?error_message=Invalid%20oauth%20code&provider=\"github\"&"
    );
}

#[test]
fn error_redirect_keeps_unreserved_characters() {
    assert_eq!(
        make_error_redirect("", "p", "AZaz09-._~"),
        "/auth/signin?error_message=AZaz09-._~&provider=p&"
    );
}

#[test]
fn error_redirect_encodes_reserved_and_wide_characters() {
    assert_eq!(
        make_error_redirect("", "p", "a&b=c/d?e é👾"),
        "/auth/signin?error_message=a%26b%3Dc%2Fd%3Fe%20%C3%A9%F0%9F%91%BE&provider=p&"
    );
}

#[test]
fn error_redirect_with_an_empty_message() {
    assert_eq!(make_error_redirect("x", "y", ""), "x/auth/signin?error_message=&provider=y&");
}

#[test]
fn successful_signin_carries_both_tokens() {
    let result = Ok(OAuthResponse {
        access_token: "acc-1".to_string(),
        refresh_token: "ref-2".to_string(),
    });
    assert_eq!(
        match_auth_result(SITE, GOOGLE, result),
        "https://tabby.example.com/auth/signin?refresh_token=ref-2&access_token=acc-1"
    );
}

#[test]
fn tokens_are_written_as_they_are() {
    let result = Ok(OAuthResponse {
        access_token: "a b".to_string(),
        refresh_token: "c&d".to_string(),
    });
    assert_eq!(
        match_auth_result("", GOOGLE, result),
        "/auth/signin?refresh_token=c&d&access_token=a b"
    );
}

#[test]
fn invalid_code_is_told() {
    assert_eq!(
        match_auth_result(SITE, GITHUB, Err(OAuthError::InvalidVerificationCode)),
        "https://tabby.example.com/auth/signin?error_message=Invalid%20oauth%20code&provider=\"github\"&"
    );
}

#[test]
fn inactive_credential_is_told() {
    assert_eq!(
        match_auth_result(SITE, GOOGLE, Err(OAuthError::CredentialNotActive)),
        "https://tabby.example.com/auth/signin?error_message=OAuth%20is%20not%20enabled&provider=\"google\"&"
    );
}

#[test]
fn uninvited_user_is_told() {
    assert_eq!(
        match_auth_result(SITE, GOOGLE, Err(OAuthError::UserNotInvited)),
        "https://tabby.example.com/auth/signin?error_message=User%20is%20not%20invited%2C%20please%20contact%20your%20admin%20for%20help&provider=\"google\"&"
    );
}

#[test]
fn other_errors_are_told_as_unknown() {
    assert_eq!(
        match_auth_result(SITE, GITHUB, Err(OAuthError::Other)),
        "https://tabby.example.com/auth/signin?error_message=Unknown%20error&provider=\"github\"&"
    );
}

#[test]
fn error_messages_for_the_user() {
    assert_eq!(OAuthError::InvalidVerificationCode.message(), "Invalid oauth code");
    assert_eq!(OAuthError::CredentialNotActive.message(), "OAuth is not enabled");
    assert_eq!(
        OAuthError::UserNotInvited.message(),
        "User is not invited, please contact your admin for help"
    );
    assert_eq!(OAuthError::Other.message(), "Unknown error");
}

#[test]
fn google_error_goes_back_to_the_signin_page() {
    assert_eq!(
        google_oauth_error(SITE, GOOGLE, "access_denied"),
        Some(
            "https://tabby.example.com/auth/signin?error_message=access_denied&provider=\"google\"&"
                .to_string()
        )
    );
}

#[test]
fn no_google_error_lets_the_signin_go_on() {
    assert_eq!(google_oauth_error(SITE, GOOGLE, ""), None);
}

#[test]
fn provider_is_usable_when_its_credential_is_there() {
    let there: Result<Option<u8>, String> = Ok(Some(1));
    let absent: Result<Option<u8>, String> = Ok(None);
    let failed: Result<Option<u8>, String> = Err("db".to_string());
    assert!(has_provider(&there));
    assert!(!has_provider(&absent));
    assert!(!has_provider(&failed));
}

#[test]
fn usable_providers_are_listed_google_first() {
    assert_eq!(providers(true, true), vec![OAuthProvider::Google, OAuthProvider::Github]);
    assert_eq!(providers(true, false), vec![OAuthProvider::Google]);
    assert_eq!(providers(false, true), vec![OAuthProvider::Github]);
    assert_eq!(providers(false, false), vec![]);
}

#[test]
fn signin_goes_to_the_authorization_address() {
    let address: Result<String, String> = Ok("https://accounts.example/auth?x=1".to_string());
    assert_eq!(signin(address), Ok("https://accounts.example/auth?x=1".to_string()));
}

#[test]
fn signin_without_an_address_is_an_internal_error() {
    let address: Result<String, String> = Err("no credential".to_string());
    assert_eq!(signin(address), Err(500));
}

#[test]
fn client_is_chosen_by_provider() {
    assert_eq!(tabby_hub::oauth::new_oauth_client(OAuthProvider::Google, "g", "h"), "g");
    assert_eq!(tabby_hub::oauth::new_oauth_client(OAuthProvider::Github, "g", "h"), "h");
}
