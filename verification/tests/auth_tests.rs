use afterparty::auth::{authenticate, strip_signature};
use afterparty::hex::to_hex;
use afterparty::{AuthenticateHook, Delivery, Hook, Payload};
use crypto::hmac::Hmac;
use crypto::mac::Mac;
use crypto::sha1::Sha1;

fn noop_hook() -> Hook {
    Hook::for_events("true".to_string(), vec!["*".to_string()])
}

#[test]
fn authenticate_signatures() {
    let authenticated = AuthenticateHook::new("secret", noop_hook());
    let payload = r#"{"zen": "Approachable is better than simple."}"#;
    let secret = "secret";
    let sbytes = secret.as_bytes();
    let pbytes = payload.as_bytes();
    let mut mac = Hmac::new(Sha1::new(), &sbytes);
    mac.input(&pbytes);
    let signature = to_hex(mac.result().code());
    assert!(authenticated.authenticate(payload, format!("sha1={}", signature).as_ref()))
}

#[test]
fn authenticate_accepts_real_digest_and_rejects_flipped_one() {
    let payload = r#"{"zen":"x"}"#;
    let mut mac = Hmac::new(Sha1::new(), "secret".as_bytes());
    mac.input(payload.as_bytes());
    let hex = to_hex(mac.result().code());
    assert_eq!(40, hex.len());
    assert!(authenticate("secret", payload, &format!("sha1={}", hex)));

    let mut flipped: Vec<char> = hex.chars().collect();
    flipped[0] = if flipped[0] == '0' { '1' } else { '0' };
    let flipped: String = flipped.into_iter().collect();
    assert!(!authenticate("secret", payload, &format!("sha1={}", flipped)));
}

#[test]
fn authenticate_known_vector() {
    // HMAC-SHA1("key", "The quick brown fox jumps over the lazy dog"),
    // a published test vector.
    let msg = "The quick brown fox jumps over the lazy dog";
    let expected = "sha1=de7c9b85b8b78aa6bc8a7a36f70a90701c9db4d9";
    assert!(authenticate("key", msg, expected));
    assert!(!authenticate("key", msg, "sha1=de7c9b85b8b78aa6bc8a7a36f70a90701c9db4d8"));
    assert!(!authenticate("wrongkey", msg, expected));
}

#[test]
fn authenticate_accepts_bare_digest_without_prefix() {
    let msg = "The quick brown fox jumps over the lazy dog";
    assert!(authenticate(
        "key",
        msg,
        "de7c9b85b8b78aa6bc8a7a36f70a90701c9db4d9"
    ));
}

#[test]
fn strip_signature_removes_prefix_only_when_present() {
    assert_eq!("abc", strip_signature("sha1=abc").as_str());
    assert_eq!("abc", strip_signature("abc").as_str());
    assert_eq!("", strip_signature("sha1=").as_str());
    assert_eq!("sha", strip_signature("sha").as_str());
    assert_eq!("sha1=abc", strip_signature("sha1=sha1=abc").as_str());
}

#[test]
fn to_hex_encodes_lowercase_pairs() {
    assert_eq!("", to_hex(&[]).as_str());
    assert_eq!("00ff10ab", to_hex(&[0x00, 0xff, 0x10, 0xab]).as_str());
}

#[test]
fn authenticate_hook_admits_only_well_signed_deliveries() {
    let wrapper = AuthenticateHook::new("secret", noop_hook());
    let body = r#"{"sender":{"login":"octocat"}}"#;
    let mut mac = Hmac::new(Sha1::new(), "secret".as_bytes());
    mac.input(body.as_bytes());
    let good = format!("sha1={}", to_hex(mac.result().code()));

    let delivery = |signature: Option<String>| Delivery {
        id: "d-1".to_string(),
        event: "push".to_string(),
        payload: Payload::bare("octocat".to_string()),
        unparsed_payload: body.to_string(),
        signature,
    };

    let admitted = wrapper.handle(&delivery(Some(good)));
    assert_eq!("true", admitted.unwrap().cmd.as_str());
    assert!(wrapper.handle(&delivery(None)).is_none());
    assert!(wrapper
        .handle(&delivery(Some("sha1=badbadbad".to_string())))
        .is_none());
}
