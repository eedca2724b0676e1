use mljboard_bot::commands::{format_user, get_arg, option_nonzerou16_to_u16};
use mljboard_bot::creds::{LastFMUser, MljboardUser};
use mljboard_bot::range::Range;
use mljboard_bot::records::{DiscordLastFMUser, DiscordPairingCodeUser, DiscordWebsiteUser};
use mljboard_bot::relay::RelayConfig;
use mljboard_bot::setups::{
    lfm_setup_decision, pairing_code_already_assigned, website_setup_decision, LfmSetupDecision,
    WebsiteSetupDecision,
};
use mljboard_bot::text::u64_to_dec_string;

#[test]
fn decimal_rendering_is_exact() {
    assert_eq!(u64_to_dec_string(0), "0");
    assert_eq!(u64_to_dec_string(7), "7");
    assert_eq!(u64_to_dec_string(10), "10");
    assert_eq!(u64_to_dec_string(120), "120");
    assert_eq!(u64_to_dec_string(31_536_000), "31536000");
    assert_eq!(u64_to_dec_string(u64::MAX), "18446744073709551615");
}

#[test]
fn user_key_keeps_the_discriminator() {
    assert_eq!(format_user(&"alice".to_string(), Some(1234)), "alice#1234");
    assert_eq!(format_user(&"alice".to_string(), None), "alice#0");
    assert_eq!(option_nonzerou16_to_u16(Some(7)), 7);
    assert_eq!(option_nonzerou16_to_u16(None), 0);
}

#[test]
fn command_argument_is_text_after_first_space() {
    assert_eq!(get_arg(&"!artistscrobbles Boards of Canada".to_string()), "Boards of Canada");
    assert_eq!(get_arg(&"!scrobbles".to_string()), "");
    assert_eq!(get_arg(&"!cmd  two  spaces".to_string()), " two  spaces");
    assert_eq!(get_arg(&"!cmd h\u{e9}llo w\u{f6}rld".to_string()), "h\u{e9}llo w\u{f6}rld");
}

#[test]
fn relay_list_url_is_built_from_config() {
    let url = mljboard_bot::relay::relay_list_url(&RelayConfig {
        host: "203.0.113.9".to_string(),
        port: 8088,
        passwd: None,
        https: false,
    });
    assert_eq!(url, "http://203.0.113.9:8088/list");

    let url = mljboard_bot::relay::relay_list_url(&RelayConfig {
        host: "relay.example".to_string(),
        port: 443,
        passwd: Some("x".to_string()),
        https: true,
    });
    assert_eq!(url, "https://relay.example:443/list");
}

#[test]
fn website_setup_rejects_bad_requests() {
    let taken = vec![DiscordWebsiteUser {
        discord_username: Some("a#0".to_string()),
        website: Some("https://x".to_string()),
    }];
    assert_eq!(
        website_setup_decision(&taken, "https://example.com"),
        WebsiteSetupDecision::AlreadySet
    );
    assert_eq!(website_setup_decision(&vec![], ""), WebsiteSetupDecision::NoArgument);
    assert_eq!(
        website_setup_decision(&vec![], "ftp://example.com"),
        WebsiteSetupDecision::BadScheme
    );
    assert_eq!(
        website_setup_decision(&vec![], "example.com"),
        WebsiteSetupDecision::BadScheme
    );
    assert_eq!(
        website_setup_decision(&vec![], "https://example.com"),
        WebsiteSetupDecision::Store
    );
    assert_eq!(
        website_setup_decision(&vec![], "http://example.com"),
        WebsiteSetupDecision::Store
    );
}

#[test]
fn lfm_setup_validates_the_username() {
    let taken = vec![DiscordLastFMUser {
        discord_username: Some("a#0".to_string()),
        lastfm_username: Some("old".to_string()),
    }];
    assert_eq!(lfm_setup_decision(&taken, "alice"), LfmSetupDecision::AlreadySet);
    assert_eq!(lfm_setup_decision(&vec![], ""), LfmSetupDecision::NoArgument);
    assert_eq!(
        lfm_setup_decision(&vec![], &"a".repeat(50)),
        LfmSetupDecision::TooLong
    );
    assert_eq!(
        lfm_setup_decision(&vec![], "not valid"),
        LfmSetupDecision::InvalidUsername
    );
    assert_eq!(
        lfm_setup_decision(&vec![], "alice_b"),
        LfmSetupDecision::InvalidUsername
    );
    assert_eq!(lfm_setup_decision(&vec![], "alice99"), LfmSetupDecision::Store);
    assert_eq!(lfm_setup_decision(&vec![], "caf\u{e9}"), LfmSetupDecision::Store);
}

#[test]
fn pairing_code_assignment_checks_existing_rows() {
    assert!(!pairing_code_already_assigned(&vec![]));
    assert!(pairing_code_already_assigned(&vec![DiscordPairingCodeUser {
        discord_username: Some("a#0".to_string()),
        pairing_code: Some("CODE".to_string()),
    }]));
}

#[test]
fn range_translation_per_backend() {
    let lfm = MljboardUser::LastFMUser(LastFMUser {
        username: "alice".to_string(),
    });
    match mljboard_bot::range::this_year_range(&lfm, 1_700_000_000) {
        Range::Bounded(f, t) => {
            assert_eq!(f, Some(1_700_000_000 - 31_536_000));
            assert_eq!(t, Some(1_700_000_000));
        }
        other => panic!("expected bounds, got {:?}", other),
    }

    assert!(matches!(
        mljboard_bot::range::all_time_range(&lfm),
        Range::Bounded(None, None)
    ));

    assert_eq!(
        Range::AllTime.maloja_range_token().as_deref(),
        Some("all")
    );
    assert_eq!(
        Range::Named("thisyear".to_string()).maloja_range_token().as_deref(),
        Some("thisyear")
    );
    assert_eq!(
        Range::Bounded(None, None).maloja_range_token().as_deref(),
        Some("all")
    );
    assert_eq!(Range::Bounded(Some(1), None).maloja_range_token(), None);

    assert!(!Range::AllTime.needs_streaming());
    assert!(!Range::Bounded(None, None).needs_streaming());
    assert!(Range::Bounded(None, Some(5)).needs_streaming());
    assert_eq!(
        Range::Bounded(Some(3), Some(9)).lastfm_range_bounds(),
        (Some(3), Some(9))
    );
}

#[test]
fn grid_layout_fills_rows_of_64_pixel_tiles() {
    assert_eq!(mljboard_bot::grid::album_count(3), 9);
    assert_eq!(mljboard_bot::grid::grid_slot(0, 3), (0, 0));
    assert_eq!(mljboard_bot::grid::grid_slot(2, 3), (128, 0));
    assert_eq!(mljboard_bot::grid::grid_slot(3, 3), (0, 64));
    assert_eq!(mljboard_bot::grid::grid_slot(8, 3), (128, 128));
}
