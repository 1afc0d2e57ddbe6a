use google_tts_api::auth::{token_expiration, token_request_form, NANOS_PER_SEC};
use google_tts_api::client::TextToSpeechClient;
use google_tts_api::jwt::{claims_at, TOKEN_LIFETIME_SECS};
use google_tts_api::types::credentials::{GoogleCredentials, TokenResponse};

fn credentials() -> GoogleCredentials {
    GoogleCredentials {
        private_key: "SECRET-REDACTED".to_string(),
        client_email: "tts@example.iam.gserviceaccount.com".to_string(),
        token_uri: "https://oauth2.googleapis.com/token".to_string(),
    }
}

#[test]
fn client_hands_out_the_token_it_holds() {
    let mut client = TextToSpeechClient::with_token(credentials(), "first".to_string(), 1_000);
    assert_eq!(client.get_token(), "first");
    assert_eq!(client.get_token(), "first");
    assert_eq!(client.credentials().client_email, "tts@example.iam.gserviceaccount.com");
    assert_eq!(client.credentials().token_uri, "https://oauth2.googleapis.com/token");
    assert_eq!(client.credentials().private_key, "SECRET-REDACTED");
}

#[test]
fn token_expires_when_the_clock_reaches_its_expiration() {
    let client = TextToSpeechClient::with_token(credentials(), "first".to_string(), 1_000);
    assert!(!client.token_expired(0));
    assert!(!client.token_expired(999));
    assert!(client.token_expired(1_000));
    assert!(client.token_expired(1_001));
    assert!(client.token_expired(u128::MAX));

    let never = TextToSpeechClient::with_token(credentials(), "first".to_string(), u128::MAX);
    assert!(!never.token_expired(u128::MAX - 1));
    assert!(never.token_expired(u128::MAX));
    let always = TextToSpeechClient::with_token(credentials(), "first".to_string(), 0);
    assert!(always.token_expired(0));
}

#[test]
fn set_token_replaces_token_and_expiration() {
    let mut client = TextToSpeechClient::with_token(credentials(), "first".to_string(), 1_000);
    assert!(client.token_expired(1_500));
    client.set_token("second".to_string(), 2_000);
    assert_eq!(client.get_token(), "second");
    assert!(!client.token_expired(1_500));
    assert!(client.token_expired(2_000));
    assert_eq!(client.credentials().client_email, "tts@example.iam.gserviceaccount.com");
}

#[test]
fn credentials_clone_field_by_field() {
    let original = credentials();
    let copy = original.clone();
    assert_eq!(copy.private_key, original.private_key);
    assert_eq!(copy.client_email, original.client_email);
    assert_eq!(copy.token_uri, original.token_uri);
    let response = TokenResponse { access_token: "abc".to_string() };
    assert_eq!(response.access_token, "abc");
}

#[test]
fn claims_are_valid_for_one_hour() {
    assert_eq!(TOKEN_LIFETIME_SECS, 3600);
    let claims = claims_at(&credentials(), 1_700_000_000);
    assert_eq!(claims.iss, "tts@example.iam.gserviceaccount.com");
    assert_eq!(claims.scope, "https://www.googleapis.com/auth/cloud-platform");
    assert_eq!(claims.aud, "https://oauth2.googleapis.com/token");
    assert_eq!(claims.iat, 1_700_000_000);
    assert_eq!(claims.exp, 1_700_003_600);

    let claims = claims_at(&credentials(), 0);
    assert_eq!((claims.iat, claims.exp), (0, 3600));
    let claims = claims_at(&credentials(), usize::MAX - 3600);
    assert_eq!((claims.iat, claims.exp), (usize::MAX - 3600, usize::MAX));
}

#[test]
fn token_request_posts_grant_type_then_assertion() {
    let form = token_request_form("header.claims.signature");
    assert_eq!(
        form,
        vec![
            (
                "grant_type".to_string(),
                "urn:ietf:params:oauth:grant-type:jwt-bearer".to_string()
            ),
            ("assertion".to_string(), "header.claims.signature".to_string()),
        ]
    );
    assert_eq!(token_request_form("")[1], ("assertion".to_string(), String::new()));
}

#[test]
fn token_expiration_adds_whole_seconds() {
    assert_eq!(NANOS_PER_SEC, 1_000_000_000);
    assert_eq!(token_expiration(0, 0), 0);
    assert_eq!(token_expiration(5, 0), 5);
    assert_eq!(token_expiration(1_500_000_000, 3599), 3_600_500_000_000);
    assert_eq!(
        token_expiration(7, usize::MAX),
        7 + usize::MAX as u128 * 1_000_000_000
    );
    let client = TextToSpeechClient::with_token(
        credentials(),
        "t".to_string(),
        token_expiration(1_000, 2),
    );
    assert!(!client.token_expired(2_000_000_999));
    assert!(client.token_expired(2_000_001_000));
}
