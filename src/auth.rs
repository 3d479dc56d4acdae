use vstd::prelude::*;
use vstd::string::*;
use crate::client::ApiCall;
use crate::envelope::Rsp;
use crate::error::Error;
use crate::models::{AccessScope, TokenExchangeData, join_words, scope_list, scope_words};
use crate::params::Params;
use crate::transport;

verus! {

/// A lowercase hexadecimal digit.
pub open spec fn is_lower_hex(c: char) -> bool {
    ('0' <= c && c <= '9') || ('a' <= c && c <= 'f')
}

/// The hyphenated text of a random (version 4, RFC 4122 variant) UUID: 36
/// characters, hyphens at 8, 13, 18 and 23, the version digit `4` at 14, a
/// variant digit of `8` to `b` at 19, lowercase hexadecimal digits elsewhere.
pub open spec fn is_uuid_v4_text(s: Seq<char>) -> bool {
    &&& s.len() == 36
    &&& forall|i: int| 0 <= i < 36 ==> (if i == 8 || i == 13 || i == 18 || i == 23 {
        s[i] == '-'
    } else {
        is_lower_hex(#[trigger] s[i])
    })
    &&& s[14] == '4'
    &&& (s[19] == '8' || s[19] == '9' || s[19] == 'a' || s[19] == 'b')
}

/// Relies on uuid's `Uuid::new_v4`, which sets the version and variant bits of
/// random bytes, and on its `Display`, which writes the lowercase hyphenated form.
#[verifier::external_body]
fn new_instance_name() -> (r: String)
    ensures
        is_uuid_v4_text(r@),
{
    uuid::Uuid::new_v4().to_string()
}

/// The parameters of the authorize step.
pub open spec fn authorize_params(
    client_id: Seq<char>,
    redirect_uri: Seq<char>,
    scopes: Seq<AccessScope>,
    instance_name: Seq<char>,
) -> Map<Seq<char>, Seq<char>> {
    Map::empty()
        .insert("client_id"@, client_id)
        .insert("response_type"@, "code"@)
        .insert("redirect_uri"@, redirect_uri)
        .insert("scope"@, join_words(scope_words(scopes)))
        .insert("instance_name"@, instance_name)
}

/// The parameters that exchange an authorization code for a token.
pub open spec fn exchange_params(code: Seq<char>, client_id: Seq<char>, redirect_uri: Seq<char>) -> Map<
    Seq<char>,
    Seq<char>,
> {
    Map::empty()
        .insert("code"@, code)
        .insert("client_id"@, client_id)
        .insert("grant_type"@, "authorization_code"@)
        .insert("redirect_uri"@, redirect_uri)
}

/// A client that holds no token yet.
pub struct UnauthorizedClient {
    client_id: String,
    redirect_uri: String,
}

/// Where an authorization stands.
#[derive(Debug, Clone, Copy, PartialEq, Eq, Structural)]
pub enum AuthState {
    /// The authorize request is out; its redirect is awaited.
    AwaitingRedirect,
    /// The callback has the redirect address; the code is awaited.
    AwaitingCode,
    /// The code is being exchanged; the token is awaited.
    AwaitingToken,
    /// The flow has ended, with a token or a failure.
    Done,
}

/// What came back from the last action.
pub enum AuthEvent {
    /// The redirect target of the authorize request, or why it was not had.
    Redirect(Result<String, transport::Error>),
    /// The code that the callback extracted, or its failure.
    Callback(Result<String, String>),
    /// The decoded answer to the exchange request.
    Exchanged(Result<Rsp<TokenExchangeData>, transport::Error>),
}

/// What the caller is to do next.
pub enum AuthAction {
    /// Hand this redirect address to the callback.
    RunCallback(String),
    /// Make this request and decode its answer.
    Exchange(ApiCall),
    /// The flow is over: the permanent token, or the failure.
    Finish(Result<String, Error>),
}

/// An authorization under way.
pub struct AuthFlow {
    client_id: String,
    redirect_uri: String,
    state: AuthState,
}

impl UnauthorizedClient {
    pub closed spec fn client_id(&self) -> Seq<char> {
        self.client_id@
    }

    pub closed spec fn redirect_uri(&self) -> Seq<char> {
        self.redirect_uri@
    }

    /// A client registered as `client_id`, redirecting to `redirect_uri`.
    pub fn new(client_id: String, redirect_uri: String) -> (r: UnauthorizedClient)
        ensures
            r.client_id() == client_id@,
            r.redirect_uri() == redirect_uri@,
    {
        UnauthorizedClient { client_id, redirect_uri }
    }

    /// Starts an authorization for `access_scope` under the instance name
    /// `instance_name`: the flow and the authorize request to make.
    pub fn authorize_with(self, access_scope: Vec<AccessScope>, instance_name: String) -> (r: (AuthFlow, ApiCall))
        ensures
            r.0.state() == AuthState::AwaitingRedirect,
            r.0.client_id() == self.client_id(),
            r.0.redirect_uri() == self.redirect_uri(),
            r.1.is(
                "oauth/authorize"@,
                authorize_params(self.client_id(), self.redirect_uri(), access_scope@, instance_name@),
            ),
    {
        let mut params = Params::new();
        params.insert(String::from_str("client_id"), self.client_id.clone());
        params.insert(String::from_str("response_type"), String::from_str("code"));
        params.insert(String::from_str("redirect_uri"), self.redirect_uri.clone());
        params.insert(String::from_str("scope"), scope_list(&access_scope));
        params.insert(String::from_str("instance_name"), instance_name);
        let call = ApiCall { endpoint: String::from_str("oauth/authorize"), params };
        let flow = AuthFlow {
            client_id: self.client_id,
            redirect_uri: self.redirect_uri,
            state: AuthState::AwaitingRedirect,
        };
        (flow, call)
    }

    /// Starts an authorization for `access_scope` under a fresh random instance
    /// name: the flow and the authorize request to make.
    pub fn authorize(self, access_scope: Vec<AccessScope>) -> (r: (AuthFlow, ApiCall))
        ensures
            r.0.state() == AuthState::AwaitingRedirect,
            r.0.client_id() == self.client_id(),
            r.0.redirect_uri() == self.redirect_uri(),
            r.1.params.wf(),
            r.1.params@.contains_key("instance_name"@),
            is_uuid_v4_text(r.1.params@["instance_name"@]),
            r.1.is(
                "oauth/authorize"@,
                authorize_params(
                    self.client_id(),
                    self.redirect_uri(),
                    access_scope@,
                    r.1.params@["instance_name"@],
                ),
            ),
    {
        let name = new_instance_name();
        self.authorize_with(access_scope, name)
    }
}

impl AuthFlow {
    pub closed spec fn client_id(&self) -> Seq<char> {
        self.client_id@
    }

    pub closed spec fn redirect_uri(&self) -> Seq<char> {
        self.redirect_uri@
    }

    pub closed spec fn state(&self) -> AuthState {
        self.state
    }

    /// `event` is the answer that the flow waits for in its state.
    pub open spec fn expects(&self, event: &AuthEvent) -> bool {
        match event {
            AuthEvent::Redirect(_) => self.state() == AuthState::AwaitingRedirect,
            AuthEvent::Callback(_) => self.state() == AuthState::AwaitingCode,
            AuthEvent::Exchanged(_) => self.state() == AuthState::AwaitingToken,
        }
    }

    /// Where the flow stands.
    pub fn current_state(&self) -> (r: AuthState)
        ensures
            r == self.state(),
    {
        self.state
    }

    /// Takes in the answer to the last action and gives the next one. A failed
    /// redirect or exchange ends the flow with the transport's error; a failed
    /// callback ends it with that failure and no exchange; a code is exchanged;
    /// the exchange's token ends the flow.
    pub fn step(&mut self, event: AuthEvent) -> (r: AuthAction)
        requires
            old(self).expects(&event),
        ensures
            final(self).client_id() == old(self).client_id(),
            final(self).redirect_uri() == old(self).redirect_uri(),
            match event {
                AuthEvent::Redirect(Ok(target)) => final(self).state() == AuthState::AwaitingCode
                    && (r matches AuthAction::RunCallback(t) && t@ == target@),
                AuthEvent::Redirect(Err(e)) => final(self).state() == AuthState::Done
                    && (r matches AuthAction::Finish(Err(Error::TransportError { source })) && source == e),
                AuthEvent::Callback(Ok(code)) => final(self).state() == AuthState::AwaitingToken
                    && (r matches AuthAction::Exchange(c) && c.is(
                        "oauth/token"@,
                        exchange_params(code@, old(self).client_id(), old(self).redirect_uri()),
                    )),
                AuthEvent::Callback(Err(m)) => final(self).state() == AuthState::Done
                    && (r matches AuthAction::Finish(Err(Error::AuthorizationCallbackError { message }))
                        && message@ == m@),
                AuthEvent::Exchanged(Err(e)) => final(self).state() == AuthState::Done
                    && (r matches AuthAction::Finish(Err(Error::TransportError { source })) && source == e),
                AuthEvent::Exchanged(Ok(Rsp::Error { error })) => final(self).state() == AuthState::Done
                    && (r matches AuthAction::Finish(Err(Error::YandexError { description }))
                        && description@ == error@),
                AuthEvent::Exchanged(Ok(Rsp::OK(data))) => final(self).state() == AuthState::Done
                    && (r matches AuthAction::Finish(Ok(token)) && token@ == data.access_token@),
            },
    {
        match event {
            AuthEvent::Redirect(Ok(target)) => {
                self.state = AuthState::AwaitingCode;
                AuthAction::RunCallback(target)
            },
            AuthEvent::Redirect(Err(e)) => {
                self.state = AuthState::Done;
                AuthAction::Finish(Err(Error::TransportError { source: e }))
            },
            AuthEvent::Callback(Ok(code)) => {
                let mut params = Params::new();
                params.insert(String::from_str("code"), code);
                params.insert(String::from_str("client_id"), self.client_id.clone());
                params.insert(String::from_str("grant_type"), String::from_str("authorization_code"));
                params.insert(String::from_str("redirect_uri"), self.redirect_uri.clone());
                self.state = AuthState::AwaitingToken;
                AuthAction::Exchange(ApiCall { endpoint: String::from_str("oauth/token"), params })
            },
            AuthEvent::Callback(Err(m)) => {
                self.state = AuthState::Done;
                AuthAction::Finish(Err(Error::AuthorizationCallbackError { message: m }))
            },
            AuthEvent::Exchanged(Err(e)) => {
                self.state = AuthState::Done;
                AuthAction::Finish(Err(Error::TransportError { source: e }))
            },
            AuthEvent::Exchanged(Ok(rsp)) => {
                self.state = AuthState::Done;
                match rsp.into_result() {
                    Ok(data) => AuthAction::Finish(Ok(data.access_token)),
                    Err(e) => AuthAction::Finish(Err(e)),
                }
            },
        }
    }
}

} // verus!
