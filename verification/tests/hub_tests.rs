use afterparty::{Hook, Hub, Payload, RawEvent};
use crypto::hmac::Hmac;
use crypto::mac::Mac;
use crypto::sha1::Sha1;

fn hook_for(cmd: &str, events: &[&str]) -> Hook {
    let events: Vec<String> = events.iter().map(|e| e.to_string()).collect();
    Hook::for_events(cmd.to_string(), events)
}

fn default_payload() -> Payload {
    Payload::bare(String::new())
}

#[test]
fn hub_hooks() {
    let mut hub = Hub::new();
    hub.add(hook_for("true", &["push"]));
    hub.add(hook_for("true", &["*"]));
    assert_eq!(
        Some(2),
        hub.hooks("push").map(|hooks| hooks.into_iter().count())
    )
}

#[test]
fn hub_hooks_none_when_nothing_subscribes() {
    let mut hub = Hub::new();
    hub.add(hook_for("true", &["push"]));
    assert!(hub.hooks("issues").is_none());
    assert!(Hub::new().hooks("push").is_none());
}

#[test]
fn filter_counts_explicit_and_wildcard() {
    let mut hub = Hub::new();
    hub.add(hook_for("h1", &["a", "b"]));
    hub.add(hook_for("h2", &["a", "c"]));
    hub.add(hook_for("h3", &["*"]));
    assert_eq!(3, hub.filter("a", &default_payload()).len());
    assert_eq!(2, hub.filter("c", &default_payload()).len());
}

#[test]
fn filter_returns_only_the_matching_hook() {
    let mut hub = Hub::new();
    hub.add(hook_for("h1", &["a"]));
    hub.add(hook_for("h2", &["b"]));
    let matched = hub.filter("a", &default_payload());
    assert_eq!(1, matched.len());
    assert_eq!("h1", matched[0].cmd.as_str());
}

#[test]
fn filter_honors_organization_constraint() {
    let mut hub = Hub::new();
    let mut constrained = hook_for("h1", &["push"]);
    constrained.organization = Some("acme".to_string());
    hub.add(constrained);

    let mut payload = default_payload();
    payload.organization = Some(afterparty::Organization {
        login: "acme".to_string(),
    });
    assert_eq!(1, hub.filter("push", &payload).len());

    let mut other = default_payload();
    other.organization = Some(afterparty::Organization {
        login: "umbrella".to_string(),
    });
    assert_eq!(0, hub.filter("push", &other).len());
    assert_eq!(0, hub.filter("push", &default_payload()).len());
}

#[test]
fn filter_honors_repository_constraint() {
    let mut hub = Hub::new();
    let mut constrained = hook_for("h1", &["push"]);
    constrained.repository = Some("widgets".to_string());
    hub.add(constrained);

    let mut payload = default_payload();
    payload.repository = Some(afterparty::Repository {
        name: "widgets".to_string(),
        full_name: "acme/widgets".to_string(),
        organization: None,
    });
    assert_eq!(1, hub.filter("push", &payload).len());
    assert_eq!(0, hub.filter("push", &default_payload()).len());
}

#[test]
fn hook_subscribed_both_explicitly_and_by_wildcard_is_returned_once() {
    let mut hub = Hub::new();
    hub.add(hook_for("h1", &["a", "*"]));
    assert_eq!(1, hub.filter("a", &default_payload()).len());
    assert_eq!(
        Some(1),
        hub.hooks("a").map(|hooks| hooks.into_iter().count())
    );
}

#[test]
fn hook_with_no_events_matches_nothing() {
    let mut hub = Hub::new();
    hub.add(hook_for("h1", &[]));
    assert_eq!(0, hub.filter("push", &default_payload()).len());
    assert!(hub.hooks("push").is_none());
}

#[test]
fn dispatch_routes_to_matching_hooks() {
    let mut hub = Hub::new();
    hub.add(hook_for("h1", &["push"]));
    hub.add(hook_for("h2", &["issues"]));
    let ev = RawEvent {
        delivery_id: "d1".to_string(),
        name: "push".to_string(),
        raw_payload: r#"{"sender":{"login":"octocat"}}"#.to_string(),
    };
    let routed = hub.dispatch(&ev).unwrap();
    assert_eq!(1, routed.len());
    assert_eq!("h1", routed[0].cmd.as_str());
}

#[test]
fn dispatch_drops_undecodable_event() {
    let mut hub = Hub::new();
    hub.add(hook_for("h1", &["*"]));
    let raw = |payload: &str| RawEvent {
        delivery_id: "d1".to_string(),
        name: "push".to_string(),
        raw_payload: payload.to_string(),
    };
    assert_eq!(
        Err(afterparty::project::DecodeError::Syntax),
        hub.dispatch(&raw("not json at all")).map(|_| ())
    );
    assert_eq!(
        Err(afterparty::project::DecodeError::Shape),
        hub.dispatch(&raw("{}")).map(|_| ())
    );
}

#[test]
fn handle_accepts_without_secret() {
    let hub = Hub::new();
    let (reply, event) = hub.handle(
        Some("push".to_string()),
        Some("d-42".to_string()),
        None,
        r#"{"sender":{"login":"octocat"}}"#.to_string(),
    );
    assert_eq!("ok", reply.as_str());
    let ev = event.unwrap();
    assert_eq!("push", ev.name.as_str());
    assert_eq!("d-42", ev.delivery_id.as_str());
    assert_eq!(r#"{"sender":{"login":"octocat"}}"#, ev.raw_payload.as_str());
}

#[test]
fn handle_ignores_requests_with_missing_headers() {
    let hub = Hub::new();
    let (reply, event) = hub.handle(None, Some("d-42".to_string()), None, "{}".to_string());
    assert_eq!("ok", reply.as_str());
    assert!(event.is_none());
    let (reply, event) = hub.handle(Some("push".to_string()), None, None, "{}".to_string());
    assert_eq!("ok", reply.as_str());
    assert!(event.is_none());
}

#[test]
fn handle_rejects_bad_or_missing_signature_when_secret_configured() {
    let mut hub = Hub::new();
    hub.authenticated("secret", hook_for("h1", &["*"]));
    let (reply, event) = hub.handle(
        Some("push".to_string()),
        Some("d-42".to_string()),
        Some("sha1=0000000000000000000000000000000000000000".to_string()),
        "{}".to_string(),
    );
    assert_eq!("ok", reply.as_str());
    assert!(event.is_none());
    let (_, event) = hub.handle(
        Some("push".to_string()),
        Some("d-42".to_string()),
        None,
        "{}".to_string(),
    );
    assert!(event.is_none());
}

#[test]
fn handle_accepts_good_signature_when_secret_configured() {
    let mut hub = Hub::new();
    hub.authenticated("secret", hook_for("h1", &["*"]));
    let body = r#"{"sender":{"login":"octocat"}}"#;
    let mut mac = Hmac::new(Sha1::new(), "secret".as_bytes());
    mac.input(body.as_bytes());
    let signature = format!("sha1={}", afterparty::hex::to_hex(mac.result().code()));
    let (reply, event) = hub.handle(
        Some("push".to_string()),
        Some("d-42".to_string()),
        Some(signature),
        body.to_string(),
    );
    assert_eq!("ok", reply.as_str());
    assert!(event.is_some());
}
