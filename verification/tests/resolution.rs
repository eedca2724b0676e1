use mljboard_bot::creds::{MalojaCredentials, MljboardUser};
use mljboard_bot::records::{DiscordLastFMUser, DiscordPairingCodeUser, DiscordWebsiteUser};
use mljboard_bot::relay::{HOSConnectionList, RelayConfig, RelayError};
use mljboard_bot::resolve::{
    finish_creds_with_relay, handle_creds, handle_lfm_user, handle_website_user, resolve_identity,
    ResolutionOutcome, ResolutionStep, WebsiteResolution,
};

fn website_row(url: &str) -> DiscordWebsiteUser {
    DiscordWebsiteUser {
        discord_username: Some("alice#0".to_string()),
        website: Some(url.to_string()),
    }
}

fn pairing_row(code: &str) -> DiscordPairingCodeUser {
    DiscordPairingCodeUser {
        discord_username: Some("alice#0".to_string()),
        pairing_code: Some(code.to_string()),
    }
}

fn lfm_row(name: &str) -> DiscordLastFMUser {
    DiscordLastFMUser {
        discord_username: Some("alice#0".to_string()),
        lastfm_username: Some(name.to_string()),
    }
}

fn relay_cfg() -> RelayConfig {
    RelayConfig {
        host: "relay.example".to_string(),
        port: 9999,
        passwd: None,
        https: false,
    }
}

fn expect_maloja(outcome: ResolutionOutcome) -> MalojaCredentials {
    match outcome {
        ResolutionOutcome::Found(MljboardUser::MalojaUser(c)) => c,
        other => panic!("expected a Maloja identity, got {:?}", other),
    }
}

#[test]
fn website_url_yields_maloja_credentials() {
    let rows = vec![website_row("https://example.com/maloja")];
    match handle_website_user(&rows) {
        WebsiteResolution::WebsiteCreds(c) => {
            assert!(c.https);
            assert_eq!(c.port, 443);
            assert_eq!(c.host, "example.com");
            assert_eq!(c.path.as_deref(), Some("/maloja"));
            assert!(!c.skip_cert_verification);
            assert!(c.headers.is_none());
            assert!(c.api_key.is_none());
        }
        other => panic!("expected credentials, got {:?}", other),
    }
}

#[test]
fn website_http_defaults_port_80() {
    let rows = vec![website_row("http://music.box/api")];
    match handle_website_user(&rows) {
        WebsiteResolution::WebsiteCreds(c) => {
            assert!(!c.https);
            assert_eq!(c.port, 80);
            assert_eq!(c.path.as_deref(), Some("/api"));
        }
        other => panic!("expected credentials, got {:?}", other),
    }
}

#[test]
fn website_explicit_port_is_kept() {
    let rows = vec![website_row("http://music.box:8080/")];
    match handle_website_user(&rows) {
        WebsiteResolution::WebsiteCreds(c) => {
            assert_eq!(c.port, 8080);
        }
        other => panic!("expected credentials, got {:?}", other),
    }
}

#[test]
fn website_bare_host_gets_root_path() {
    let rows = vec![website_row("https://example.com")];
    match handle_website_user(&rows) {
        WebsiteResolution::WebsiteCreds(c) => {
            assert_eq!(c.path.as_deref(), Some("/"));
        }
        other => panic!("expected credentials, got {:?}", other),
    }
}

#[test]
fn website_unsupported_scheme_is_malformed() {
    let rows = vec![website_row("nota://url")];
    assert!(matches!(
        handle_website_user(&rows),
        WebsiteResolution::MalformedIdentitySource
    ));
}

#[test]
fn website_garbage_is_malformed() {
    let rows = vec![website_row("not a url at all")];
    assert!(matches!(
        handle_website_user(&rows),
        WebsiteResolution::MalformedIdentitySource
    ));
}

#[test]
fn website_priority_wins_over_other_sources() {
    // A usable website URL resolves at once; the stored pairing code and
    // Last.FM username are not consulted.
    let outcome = resolve_identity(
        &vec![website_row("https://example.com/maloja")],
        &vec![pairing_row("CODE")],
        &vec![lfm_row("alice")],
        &HOSConnectionList { connections: vec![] },
        &relay_cfg(),
    );
    let c = expect_maloja(outcome);
    assert_eq!(c.host, "example.com");
    assert_eq!(c.path.as_deref(), Some("/maloja"));
}

#[test]
fn malformed_website_falls_through_to_lastfm() {
    // The unusable URL fails only its own source; with no pairing code the
    // chain reaches Last.FM.
    let outcome = resolve_identity(
        &vec![website_row("nota://url")],
        &vec![],
        &vec![lfm_row("bob")],
        &HOSConnectionList { connections: vec![] },
        &relay_cfg(),
    );
    match outcome {
        ResolutionOutcome::Found(MljboardUser::LastFMUser(l)) => {
            assert_eq!(l.username, "bob");
        }
        other => panic!("expected the Last.FM identity, got {:?}", other),
    }
}

#[test]
fn relay_zero_matches_reports_no_active_client() {
    // A stored pairing code with no session using it fails loudly and does
    // not fall through to the stored Last.FM username.
    let list = HOSConnectionList {
        connections: vec![("sid-1".to_string(), "OTHER".to_string())],
    };
    let outcome = resolve_identity(
        &vec![],
        &vec![pairing_row("CODE")],
        &vec![lfm_row("alice")],
        &list,
        &relay_cfg(),
    );
    assert!(matches!(
        outcome,
        ResolutionOutcome::RelayFailed(RelayError::NoActiveClient)
    ));
}

#[test]
fn relay_two_matches_reports_ambiguous_client() {
    let list = HOSConnectionList {
        connections: vec![
            ("sid-1".to_string(), "CODE".to_string()),
            ("sid-2".to_string(), "CODE".to_string()),
        ],
    };
    let outcome = resolve_identity(
        &vec![],
        &vec![pairing_row("CODE")],
        &vec![lfm_row("alice")],
        &list,
        &relay_cfg(),
    );
    assert!(matches!(
        outcome,
        ResolutionOutcome::RelayFailed(RelayError::AmbiguousClient)
    ));
}

#[test]
fn relay_unique_match_builds_session_credentials() {
    let list = HOSConnectionList {
        connections: vec![
            ("sid-1".to_string(), "OTHER".to_string()),
            ("sid-2".to_string(), "CODE".to_string()),
        ],
    };
    let cfg = RelayConfig {
        host: "relay.example".to_string(),
        port: 1234,
        passwd: Some("sekrit".to_string()),
        https: false,
    };
    let outcome = finish_creds_with_relay("CODE".to_string(), &list, &cfg);
    let c = expect_maloja(outcome);
    assert!(!c.https);
    assert!(c.skip_cert_verification);
    assert_eq!(c.host, "relay.example");
    assert_eq!(c.port, 1234);
    assert_eq!(c.path.as_deref(), Some("/sid/sid-2"));
    assert_eq!(
        c.headers,
        Some(vec![("HOS-PASSWD".to_string(), "sekrit".to_string())])
    );
    assert!(c.api_key.is_none());
}

#[test]
fn no_stored_records_resolves_nothing() {
    let outcome = resolve_identity(
        &vec![],
        &vec![],
        &vec![],
        &HOSConnectionList { connections: vec![] },
        &relay_cfg(),
    );
    assert!(matches!(outcome, ResolutionOutcome::NotFound));
}

#[test]
fn pairing_code_demands_relay_phase() {
    let step = handle_creds(&vec![], &vec![pairing_row("CODE")], &vec![lfm_row("x")]);
    match step {
        ResolutionStep::NeedRelay(code) => assert_eq!(code, "CODE"),
        other => panic!("expected the relay phase, got {:?}", other),
    }
}

#[test]
fn last_write_wins_across_rows() {
    // The later row decides, even when its field is empty.
    let rows = vec![
        website_row("https://old.example"),
        DiscordWebsiteUser {
            discord_username: Some("alice#0".to_string()),
            website: None,
        },
    ];
    assert!(matches!(
        handle_website_user(&rows),
        WebsiteResolution::NoRecord
    ));

    let rows = vec![lfm_row("old"), lfm_row("new")];
    let l = handle_lfm_user(&rows).expect("a username is stored");
    assert_eq!(l.username, "new");
}
