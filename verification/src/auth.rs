use vstd::prelude::*;

use oauth2::basic::BasicClient;
use oauth2::{AuthUrl, ClientId, CsrfToken, RedirectUrl, Scope, TokenUrl};

use crate::text::owned;

verus! {

/// Google's authorization endpoint.
pub const AUTH_URL: &'static str = "https://accounts.google.com/o/oauth2/v2/auth";

/// Google's token endpoint.
pub const TOKEN_URL: &'static str = "https://oauth2.googleapis.com/token";

/// Where the browser comes back after the sign-in.
pub const REDIRECT_URL: &'static str = "http://127.0.0.1:8080/callback";

/// The address that waits for that redirect.
pub const CALLBACK_ADDRESS: &'static str = "127.0.0.1:8080";

/// The authorization URL that oauth2's `BasicClient` builds for a client id,
/// authorization, token and redirect URLs, scopes and CSRF state; `None`
/// where one of the three URLs does not parse.
pub uninterp spec fn authorization_url_of(
    client_id: Seq<char>,
    auth_url: Seq<char>,
    token_url: Seq<char>,
    redirect_url: Seq<char>,
    scopes: Seq<Seq<char>>,
    state: Seq<char>,
) -> Option<Seq<char>>;

/// Builds oauth2's `BasicClient` (`AuthUrl::new`, `TokenUrl::new`,
/// `RedirectUrl::new`), asks it for an authorization request with the given
/// CSRF state and scopes, and returns `url()` as text. Trusted to give
/// `authorization_url_of` of its arguments; the URL's exact text (the query
/// pairs that oauth2 and url serialise) is not restated. The client secret
/// plays no part in that URL and is not passed.
#[verifier::external_body]
fn oauth_authorization_url(
    client_id: &str,
    auth_url: &str,
    token_url: &str,
    redirect_url: &str,
    scopes: &Vec<String>,
    state: &str,
) -> (url: Option<String>)
    ensures
        url.deep_view() == authorization_url_of(
            client_id@,
            auth_url@,
            token_url@,
            redirect_url@,
            scopes.deep_view(),
            state@,
        ),
{
    let auth = AuthUrl::new(auth_url.to_string()).ok()?;
    let token = TokenUrl::new(token_url.to_string()).ok()?;
    let redirect = RedirectUrl::new(redirect_url.to_string()).ok()?;
    let client = BasicClient::new(ClientId::new(client_id.to_string()), None, auth, Some(token))
        .set_redirect_uri(redirect);
    let csrf = CsrfToken::new(state.to_string());
    let mut request = client.authorize_url(move || csrf);
    for scope in scopes {
        request = request.add_scope(Scope::new(scope.clone()));
    }
    Some(request.url().0.to_string())
}

/// A character of the URL-safe base64 alphabet: `A`-`Z`, `a`-`z`, `0`-`9`, `-`, `_`.
pub open spec fn is_url_safe_base64(c: char) -> bool {
    ('A' as int <= c as int <= 'Z' as int) || ('a' as int <= c as int <= 'z' as int) || (
    '0' as int <= c as int <= '9' as int) || c == '-' || c == '_'
}

/// A CSRF state as oauth2 draws one: 22 characters of URL-safe base64.
pub open spec fn csrf_state_shape(state: Seq<char>) -> bool {
    state.len() == 22 && forall|i: int| 0 <= i < state.len() ==> is_url_safe_base64(#[trigger] state[i])
}

/// Calls oauth2's `CsrfToken::new_random`: 16 random bytes in URL-safe
/// base64 without padding, hence 22 characters of that alphabet. Nothing
/// more is claimed of the text, which is random.
#[verifier::external_body]
fn random_csrf_state() -> (state: String)
    ensures
        csrf_state_shape(state@),
{
    CsrfToken::new_random().secret().clone()
}

/// The Classroom permissions that the planner asks for.
pub open spec fn classroom_scopes_of() -> Seq<Seq<char>> {
    seq![
        "openid"@,
        "https://www.googleapis.com/auth/classroom.courses.readonly"@,
        "https://www.googleapis.com/auth/classroom.rosters.readonly"@,
        "https://www.googleapis.com/auth/classroom.coursework.me.readonly"@,
        "https://www.googleapis.com/auth/classroom.student-submissions.me.readonly"@,
    ]
}

pub fn classroom_scopes() -> (scopes: Vec<String>)
    ensures
        scopes.deep_view() == classroom_scopes_of(),
        scopes.deep_view() == seq![
            "openid"@,
            "https://www.googleapis.com/auth/classroom.courses.readonly"@,
            "https://www.googleapis.com/auth/classroom.rosters.readonly"@,
            "https://www.googleapis.com/auth/classroom.coursework.me.readonly"@,
            "https://www.googleapis.com/auth/classroom.student-submissions.me.readonly"@,
        ],
{
    let mut scopes: Vec<String> = Vec::new();
    scopes.push(owned("openid"));
    scopes.push(owned("https://www.googleapis.com/auth/classroom.courses.readonly"));
    scopes.push(owned("https://www.googleapis.com/auth/classroom.rosters.readonly"));
    scopes.push(owned("https://www.googleapis.com/auth/classroom.coursework.me.readonly"));
    scopes.push(owned("https://www.googleapis.com/auth/classroom.student-submissions.me.readonly"));
    assert(scopes.deep_view() =~= classroom_scopes_of());
    scopes
}

/// The planner asks for exactly five permissions, in this order: the
/// OpenID identity, the student's courses, their rosters, the student's own
/// coursework, and the student's own submissions.
pub proof fn lemma_requested_scopes()
    ensures
        classroom_scopes_of() == seq![
            "openid"@,
            "https://www.googleapis.com/auth/classroom.courses.readonly"@,
            "https://www.googleapis.com/auth/classroom.rosters.readonly"@,
            "https://www.googleapis.com/auth/classroom.coursework.me.readonly"@,
            "https://www.googleapis.com/auth/classroom.student-submissions.me.readonly"@,
        ],
        classroom_scopes_of().len() == 5,
{
}

/// The sign-in URL is oauth2's authorization URL for Google's endpoints,
/// the local redirect and exactly those five permissions.
pub proof fn lemma_sign_in_url_requests_classroom_scopes(client_id: Seq<char>, state: Seq<char>)
    ensures
        sign_in_url_of(client_id, state) == authorization_url_of(
            client_id,
            "https://accounts.google.com/o/oauth2/v2/auth"@,
            "https://oauth2.googleapis.com/token"@,
            "http://127.0.0.1:8080/callback"@,
            seq![
                "openid"@,
                "https://www.googleapis.com/auth/classroom.courses.readonly"@,
                "https://www.googleapis.com/auth/classroom.rosters.readonly"@,
                "https://www.googleapis.com/auth/classroom.coursework.me.readonly"@,
                "https://www.googleapis.com/auth/classroom.student-submissions.me.readonly"@,
            ],
            state,
        ),
{
}

/// The planner's authorization URL for a client id and CSRF state.
pub open spec fn sign_in_url_of(client_id: Seq<char>, state: Seq<char>) -> Option<Seq<char>> {
    authorization_url_of(
        client_id,
        AUTH_URL@,
        TOKEN_URL@,
        REDIRECT_URL@,
        classroom_scopes_of(),
        state,
    )
}

/// The authorization URL that the planner opens for a client id and CSRF state.
pub fn sign_in_url(client_id: &str, state: &str) -> (url: Option<String>)
    ensures
        url.deep_view() == sign_in_url_of(client_id@, state@),
{
    let scopes = classroom_scopes();
    oauth_authorization_url(client_id, AUTH_URL, TOKEN_URL, REDIRECT_URL, &scopes, state)
}

/// A sign-in to start: the URL to open and the CSRF state it carries.
#[derive(Debug)]
pub struct SignIn {
    pub url: String,
    pub state: String,
}

/// Starts a sign-in with a fresh random CSRF state.
pub fn begin_sign_in(client_id: &str) -> (r: Option<SignIn>)
    ensures
        r matches Some(s) ==> csrf_state_shape(s.state@) && sign_in_url_of(client_id@, s.state@)
            == Some(s.url@),
        r is None ==> exists|state: Seq<char>|
            csrf_state_shape(state) && #[trigger] sign_in_url_of(client_id@, state) is None,
{
    let state = random_csrf_state();
    match sign_in_url(client_id, state.as_str()) {
        Some(url) => Some(SignIn { url, state }),
        None => None,
    }
}

} // verus!
