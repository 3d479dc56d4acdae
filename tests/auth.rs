use yandex_money::transport;
use yandex_money::{AccessScope, AuthAction, AuthEvent, AuthState, Error, Rsp, TokenExchangeData, UnauthorizedClient};

fn start() -> yandex_money::AuthFlow {
    let client = UnauthorizedClient::new("cid".to_string(), "https://app/cb".to_string());
    let (flow, call) = client.authorize_with(
        vec![AccessScope::PaymentP2P, AccessScope::AccountInfo],
        "inst".to_string(),
    );
    assert_eq!(call.endpoint, "oauth/authorize");
    assert_eq!(call.params.get("scope").unwrap(), "account-info payment-p2p");
    assert_eq!(call.params.get("response_type").unwrap(), "code");
    assert_eq!(call.params.get("instance_name").unwrap(), "inst");
    assert_eq!(call.params.len(), 5);
    flow
}

#[test]
fn authorize_yields_exchanged_token() {
    let mut flow = start();
    let url = match flow.step(AuthEvent::Redirect(Ok("https://app/cb?code=abc".to_string()))) {
        AuthAction::RunCallback(u) => u,
        _ => panic!("expected the callback to run"),
    };
    let code = url.split("code=").nth(1).unwrap().to_string();
    let call = match flow.step(AuthEvent::Callback(Ok(code))) {
        AuthAction::Exchange(c) => c,
        _ => panic!("expected an exchange"),
    };
    assert_eq!(call.endpoint, "oauth/token");
    assert_eq!(call.params.get("code").unwrap(), "abc");
    assert_eq!(call.params.get("grant_type").unwrap(), "authorization_code");
    assert_eq!(call.params.get("client_id").unwrap(), "cid");
    assert_eq!(call.params.get("redirect_uri").unwrap(), "https://app/cb");
    let answer = Rsp::OK(TokenExchangeData { access_token: "permanent".to_string() });
    match flow.step(AuthEvent::Exchanged(Ok(answer))) {
        AuthAction::Finish(Ok(t)) => assert_eq!(t, "permanent"),
        _ => panic!("expected the token"),
    }
    assert_eq!(flow.current_state(), AuthState::Done);
}

#[test]
fn authorize_callback_failure_skips_exchange() {
    let mut flow = start();
    let _ = flow.step(AuthEvent::Redirect(Ok("https://app/cb".to_string())));
    match flow.step(AuthEvent::Callback(Err("Authorization code not found in redirect URL".to_string()))) {
        AuthAction::Finish(Err(Error::AuthorizationCallbackError { message })) => {
            assert_eq!(message, "Authorization code not found in redirect URL")
        },
        _ => panic!("expected the callback failure"),
    }
    assert_eq!(flow.current_state(), AuthState::Done);
}

#[test]
fn authorize_redirect_failure() {
    let mut flow = start();
    let e = transport::Error::from_network_error("Unexpected status code: 200 OK".to_string());
    assert!(matches!(
        flow.step(AuthEvent::Redirect(Err(e))),
        AuthAction::Finish(Err(Error::TransportError { .. }))
    ));
}

#[test]
fn authorize_exchange_rejected() {
    let mut flow = start();
    let _ = flow.step(AuthEvent::Redirect(Ok("u".to_string())));
    let _ = flow.step(AuthEvent::Callback(Ok("c".to_string())));
    match flow.step(AuthEvent::Exchanged(Ok(Rsp::Error { error: "invalid_grant".to_string() }))) {
        AuthAction::Finish(Err(Error::YandexError { description })) => assert_eq!(description, "invalid_grant"),
        _ => panic!("expected the rejection"),
    }
}

#[test]
fn authorize_random_instance_name() {
    let client = UnauthorizedClient::new("cid".to_string(), "r".to_string());
    let (flow, call) = client.authorize(vec![AccessScope::OperationHistory]);
    let name: Vec<char> = call.params.get("instance_name").unwrap().chars().collect();
    assert_eq!(name.len(), 36);
    for (i, c) in name.iter().enumerate() {
        if i == 8 || i == 13 || i == 18 || i == 23 {
            assert_eq!(*c, '-');
        } else {
            assert!(c.is_ascii_digit() || ('a'..='f').contains(c));
        }
    }
    assert_eq!(name[14], '4');
    assert!(matches!(name[19], '8' | '9' | 'a' | 'b'));
    assert_eq!(call.params.get("scope").unwrap(), "operation-history");
    assert_eq!(flow.current_state(), AuthState::AwaitingRedirect);
    let again = UnauthorizedClient::new("cid".to_string(), "r".to_string());
    let (_, second) = again.authorize(vec![AccessScope::OperationHistory]);
    assert_ne!(second.params.get("instance_name"), call.params.get("instance_name"));
}
