use wol_bot::config::{is_allowed, Config, ConfigError, HostProfile, RawConfig};
use wol_bot::debounce::{check_button_debounce, DebounceTable, DEBOUNCE_WINDOW_MS};
use wol_bot::dispatch::{
    message_handler, parse_token, ConversationState, Decision, Dispatcher, MessageAction,
};
use wol_bot::keyboard::{confirm_keyboard, keyboard_for, main_keyboard};
use wol_bot::mac::{is_valid_mac, sanitize_mac, MacAddress};
use wol_bot::outcome::{ActionToken, Affordance, Verdict};

fn test_config() -> Config {
    Config {
        bot_token: "test_token".to_string(),
        allowed_users: vec![123456789],
        server_mac: MacAddress::parse("00:11:22:33:44:55").unwrap(),
        router: HostProfile {
            host: "test_router".to_string(),
            port: 22,
            user: "test_user".to_string(),
            key_path: "/test/key".to_string(),
            connect_timeout_secs: 5,
        },
        server: HostProfile {
            host: "test_server".to_string(),
            port: 22,
            user: "test_user".to_string(),
            key_path: "/test/key".to_string(),
            connect_timeout_secs: 5,
        },
        nc_timeout_secs: 3,
    }
}

fn raw(token: Option<&str>, users: Option<&str>, mac: Option<&str>) -> RawConfig {
    RawConfig {
        bot_token: token.map(|s| s.to_string()),
        allowed_users: users.map(|s| s.to_string()),
        server_mac: mac.map(|s| s.to_string()),
        router_ssh_host: None,
        router_ssh_port: None,
        router_ssh_user: None,
        router_ssh_key: None,
        server_ssh_host: None,
        server_ssh_port: None,
        server_ssh_user: None,
        server_ssh_key: None,
        ssh_timeout: None,
        nc_timeout: None,
    }
}

#[test]
fn test_is_allowed_function() {
    let config = test_config();
    assert!(is_allowed(&config, Some(123456789)));
    assert!(!is_allowed(&config, Some(987654321)));
    assert!(!is_allowed(&config, None));
}

#[test]
fn allowed_numbers_are_compared_by_value() {
    let mut config = test_config();
    config.allowed_users = vec![-1, 7, i64::MAX];
    assert!(!is_allowed(&config, Some(u64::MAX)));
    assert!(is_allowed(&config, Some(7)));
    assert!(is_allowed(&config, Some(i64::MAX as u64)));
    assert!(!is_allowed(&config, Some(i64::MAX as u64 + 1)));
    config.allowed_users = vec![];
    assert!(!is_allowed(&config, Some(7)));
}

#[test]
fn test_main_keyboard_creation() {
    let kb = main_keyboard();
    assert!(!kb.rows.is_empty());
    assert_eq!(kb.rows.len(), 2);
    assert_eq!(kb.rows[0].len(), 2);
    assert_eq!(kb.rows[1].len(), 1);
    assert_eq!(kb.rows[0][0].token.as_str(), "wol");
    assert_eq!(kb.rows[0][1].token.as_str(), "shutdown_confirm");
    assert_eq!(kb.rows[1][0].token.as_str(), "status");
    assert_eq!(kb.rows[0][0].label, "🔌 Включить");
    assert_eq!(kb.rows[0][1].label, "🔴 Выключить");
    assert_eq!(kb.rows[1][0].label, "🟢 Статус");
}

#[test]
fn confirm_keyboard_has_one_row_of_two() {
    let kb = confirm_keyboard();
    assert_eq!(kb.rows.len(), 1);
    assert_eq!(kb.rows[0].len(), 2);
    assert_eq!(kb.rows[0][0].token, ActionToken::ShutdownYes);
    assert_eq!(kb.rows[0][0].label, "✅ Да, выключить");
    assert_eq!(kb.rows[0][1].token, ActionToken::Cancel);
    assert_eq!(kb.rows[0][1].label, "❌ Отмена");
}

#[test]
fn keyboards_follow_the_affordance() {
    assert!(keyboard_for(Affordance::Unchanged).is_none());
    assert_eq!(keyboard_for(Affordance::MainMenu).unwrap().rows.len(), 2);
    assert_eq!(keyboard_for(Affordance::Confirm).unwrap().rows.len(), 1);
}

#[test]
fn test_callback_data_recognition() {
    let test_cases = vec![
        ("wol", "Wake on LAN"),
        ("shutdown_confirm", "Shutdown confirmation"),
        ("shutdown_yes", "Shutdown execution"),
        ("status", "Status check"),
        ("cancel", "Cancel operation"),
    ];
    for (callback_data, description) in test_cases {
        let token = parse_token(callback_data);
        assert!(token.is_some(), "{}", description);
        assert_eq!(token.unwrap().as_str(), callback_data);
    }
    assert_eq!(parse_token("wol"), Some(ActionToken::Wol));
    assert_eq!(parse_token("shutdown_confirm"), Some(ActionToken::ShutdownConfirm));
    assert_eq!(parse_token("shutdown_yes"), Some(ActionToken::ShutdownYes));
    assert_eq!(parse_token("status"), Some(ActionToken::Status));
    assert_eq!(parse_token("cancel"), Some(ActionToken::Cancel));
    assert_eq!(parse_token("WOL"), None);
    assert_eq!(parse_token(""), None);
    assert_eq!(parse_token("reboot"), None);
    assert_eq!(parse_token("wol "), None);
}

#[test]
fn test_handler_logic_simulation() {
    let config = test_config();
    let user_id = Some(123456789u64);
    assert!(is_allowed(&config, user_id));
    assert_eq!(message_handler(&config, user_id, Some("/start")), MessageAction::ShowMenu);

    for data in ["wol", "shutdown_confirm", "shutdown_yes", "status", "cancel"] {
        let mut d = Dispatcher::new(DEBOUNCE_WINDOW_MS, true);
        d.conversations.set(1, ConversationState::AwaitingShutdownConfirm);
        let step = d.dispatch(&config, 1, user_id, data, 0);
        let handler_found = step.decision != Decision::Unknown && step.decision != Decision::Deny;
        assert!(handler_found, "no handler for {}", data);
    }
}

#[test]
fn test_config_creation() {
    let config = test_config();
    assert!(!config.bot_token.is_empty());
    assert!(!config.allowed_users.is_empty());
    assert!(!config.server_mac.as_str().is_empty());
}

#[test]
fn test_mac_address_validation() {
    let valid_macs = vec![
        "00:11:22:33:44:55",
        "AA:BB:CC:DD:EE:FF",
        "aa:bb:cc:dd:ee:ff",
        "00-11-22-33-44-55",
        "AA-BB-CC-DD-EE-FF",
    ];
    let invalid_macs = vec![
        "00:11:22:33:44",
        "00:11:22:33:44:55:66",
        "ZZ:11:22:33:44:55",
        "00:11:22:33:44:5G",
        "00-11:22-33:44-55",
        "",
        "random text",
    ];
    for mac in valid_macs {
        assert!(is_valid_mac(mac), "MAC {} must be valid", mac);
    }
    for mac in invalid_macs {
        assert!(!is_valid_mac(mac), "MAC {} must be invalid", mac);
    }
}

#[test]
fn mac_validation_edges() {
    assert!(is_valid_mac("aA:bB:cC:dD:eE:fF"));
    assert!(is_valid_mac("0a-1B-2c-3D-4e-5F"));
    assert!(!is_valid_mac("00:11:22:33:44:55 "));
    assert!(!is_valid_mac(" 00:11:22:33:44:55"));
    assert!(!is_valid_mac("00:11:22:33:44:55\n"));
    assert!(!is_valid_mac("00:11:22:33:44-55"));
    assert!(!is_valid_mac("00-11-22-33-44:55"));
    assert!(!is_valid_mac("00.11.22.33.44.55"));
    assert!(!is_valid_mac("001122334455"));
    assert!(!is_valid_mac("0:11:22:33:44:555"));
    assert!(!is_valid_mac("00:11:22:33:44:5"));
    assert!(!is_valid_mac("g0:11:22:33:44:55"));
    assert!(!is_valid_mac("00:11:22:33:44:5\u{0661}"));
    assert!(!is_valid_mac("00:11:22:33:44:5/"));
    assert!(!is_valid_mac("00:11:22:33:44:5@"));
    assert!(!is_valid_mac("00:11:22:33:44:5`"));
}

#[test]
fn mac_address_is_made_by_the_validator_only() {
    assert_eq!(MacAddress::parse("00:11:22:33:44:55").unwrap().as_str(), "00:11:22:33:44:55");
    assert_eq!(MacAddress::parse("aa-BB-cc-DD-ee-FF").unwrap().as_str(), "aa-BB-cc-DD-ee-FF");
    assert!(MacAddress::parse("00-11:22-33:44-55").is_none());
    assert!(MacAddress::parse("").is_none());
    assert!(MacAddress::parse("00:11:22:33:44:55; reboot").is_none());
}

#[test]
fn sanitize_mac_drops_everything_else() {
    assert_eq!(sanitize_mac("00:11:22:33:44:55"), "00:11:22:33:44:55");
    assert_eq!(sanitize_mac("AA-bb-CC-dd-EE-ff"), "AA-bb-CC-dd-EE-ff");
    assert_eq!(sanitize_mac("00:11; rm -rf /"), "00:11-f");
    assert_eq!(sanitize_mac("$(reboot)"), "eb");
    assert_eq!(sanitize_mac(""), "");
    assert_eq!(sanitize_mac("xyz !"), "");
    assert_eq!(sanitize_mac("é1:Ж2"), "1:2");
    assert_eq!(sanitize_mac("gG0"), "0");
}

#[test]
fn test_button_debounce() {
    let user_id = 123456789;
    let mut table = DebounceTable::new();
    assert!(check_button_debounce(&mut table, user_id, 10_000));
    assert!(!check_button_debounce(&mut table, user_id, 10_000));
    assert!(check_button_debounce(&mut table, user_id, 10_000 + 2100));
}

#[test]
fn debounce_three_rounds() {
    let mut table = DebounceTable::new();
    assert_eq!(table.last_accepted(5), None);
    assert!(table.try_accept(5, 100, 50));
    assert_eq!(table.last_accepted(5), Some(100));
    assert!(!table.try_accept(5, 149, 50));
    assert_eq!(table.last_accepted(5), Some(100));
    assert!(table.try_accept(5, 150, 50));
    assert_eq!(table.last_accepted(5), Some(150));
}

#[test]
fn debounce_is_per_caller() {
    let mut table = DebounceTable::new();
    assert!(table.try_accept(1, 100, 50));
    assert!(table.try_accept(2, 101, 50));
    assert!(!table.try_accept(1, 102, 50));
    assert_eq!(table.last_accepted(1), Some(100));
    assert_eq!(table.last_accepted(2), Some(101));
    assert_eq!(table.last_accepted(3), None);
}

#[test]
fn debounce_edges() {
    let mut table = DebounceTable::new();
    assert!(table.try_accept(1, 100, 0));
    assert!(table.try_accept(1, 100, 0));
    // An instant before the remembered one is never far enough from it.
    assert!(!table.try_accept(1, 99, 0));
    assert_eq!(table.last_accepted(1), Some(100));
    assert!(!table.try_accept(1, u64::MAX, u64::MAX));
    assert!(table.try_accept(1, u64::MAX, u64::MAX - 100));
    assert_eq!(table.last_accepted(1), Some(u64::MAX));
    assert_eq!(DEBOUNCE_WINDOW_MS, 2000);
    let mut t2 = DebounceTable::new();
    assert!(check_button_debounce(&mut t2, 9, 0));
    assert!(!check_button_debounce(&mut t2, 9, 1999));
    assert!(check_button_debounce(&mut t2, 9, 2000));
}

#[test]
fn test_config_with_invalid_mac() {
    let result = Config::from_values(raw(Some("test_token"), Some("123456789"), Some("invalid_mac")));
    assert!(result.is_err());
    assert_eq!(result.err(), Some(ConfigError::InvalidMac));
}

#[test]
fn test_improved_timeouts() {
    let config = test_config();
    assert!(config.router.connect_timeout_secs >= 5);
    assert!(config.server.connect_timeout_secs >= 5);
    assert!(config.nc_timeout_secs >= 3);
}

#[test]
fn config_errors_in_order() {
    let r = Config::from_values(raw(None, None, None));
    assert_eq!(r.err(), Some(ConfigError::MissingBotToken));
    let r = Config::from_values(raw(Some("t"), None, None));
    assert_eq!(r.err(), Some(ConfigError::MissingMac));
    let r = Config::from_values(raw(Some("t"), None, Some("nope")));
    assert_eq!(r.err(), Some(ConfigError::InvalidMac));
    let r = Config::from_values(raw(Some("t"), None, Some("00:11:22:33:44:55")));
    assert_eq!(r.err(), Some(ConfigError::EmptyAllowList));
    let r = Config::from_values(raw(Some("t"), Some(""), Some("00:11:22:33:44:55")));
    assert_eq!(r.err(), Some(ConfigError::EmptyAllowList));
    let r = Config::from_values(raw(Some("t"), Some("a, b,,"), Some("00:11:22:33:44:55")));
    assert_eq!(r.err(), Some(ConfigError::EmptyAllowList));
    let r = Config::from_values(raw(Some("t"), Some("1"), Some("00-11:22-33:44-55")));
    assert_eq!(r.err(), Some(ConfigError::InvalidMac));
    assert_eq!(ConfigError::MissingBotToken.message(), "BOT_TOKEN пуст");
    assert_eq!(ConfigError::MissingMac.message(), "SERVER_MAC пуст");
    assert_eq!(ConfigError::InvalidMac.message(), "SERVER_MAC имеет некорректный формат");
    assert_eq!(ConfigError::EmptyAllowList.message(), "ALLOWED_USERS пуст");
}

#[test]
fn config_defaults() {
    let c = Config::from_values(raw(Some(""), Some("123456789"), Some("00:11:22:33:44:55")))
        .unwrap();
    assert_eq!(c.bot_token, "");
    assert_eq!(c.allowed_users, vec![123456789]);
    assert_eq!(c.server_mac.as_str(), "00:11:22:33:44:55");
    assert_eq!(c.router.host, "localhost");
    assert_eq!(c.router.port, 2223);
    assert_eq!(c.router.user, "root");
    assert_eq!(c.router.key_path, "/app/keys/id_router_vps_rsa_legacy");
    assert_eq!(c.server.host, "localhost");
    assert_eq!(c.server.port, 2222);
    assert_eq!(c.server.user, "friedcerebrum");
    assert_eq!(c.server.key_path, "/app/keys/id_rsa");
    assert_eq!(c.router.connect_timeout_secs, 15);
    assert_eq!(c.server.connect_timeout_secs, 15);
    assert_eq!(c.nc_timeout_secs, 5);
}

#[test]
fn config_values_override_defaults() {
    let mut r = raw(Some("tok"), Some(" 1, 2 ,x, -3,+4,\t5\n"), Some("AA-BB-CC-DD-EE-FF"));
    r.router_ssh_host = Some("10.0.0.1".to_string());
    r.router_ssh_port = Some("22".to_string());
    r.router_ssh_user = Some("admin".to_string());
    r.router_ssh_key = Some("/k/r".to_string());
    r.server_ssh_host = Some("srv".to_string());
    r.server_ssh_port = Some("65535".to_string());
    r.server_ssh_user = Some("me".to_string());
    r.server_ssh_key = Some("/k/s".to_string());
    r.ssh_timeout = Some("7".to_string());
    r.nc_timeout = Some("4".to_string());
    let c = Config::from_values(r).unwrap();
    assert_eq!(c.bot_token, "tok");
    assert_eq!(c.allowed_users, vec![1, 2, -3, 4, 5]);
    assert_eq!(c.server_mac.as_str(), "AA-BB-CC-DD-EE-FF");
    assert_eq!(c.router.host, "10.0.0.1");
    assert_eq!(c.router.port, 22);
    assert_eq!(c.router.user, "admin");
    assert_eq!(c.router.key_path, "/k/r");
    assert_eq!(c.server.host, "srv");
    assert_eq!(c.server.port, 65535);
    assert_eq!(c.server.user, "me");
    assert_eq!(c.server.key_path, "/k/s");
    assert_eq!(c.router.connect_timeout_secs, 7);
    assert_eq!(c.server.connect_timeout_secs, 7);
    assert_eq!(c.nc_timeout_secs, 4);
}

#[test]
fn config_bad_numbers_fall_back() {
    let mut r = raw(Some("tok"), Some("1"), Some("AA-BB-CC-DD-EE-FF"));
    r.router_ssh_port = Some("65536".to_string());
    r.server_ssh_port = Some(" 22".to_string());
    r.ssh_timeout = Some("-1".to_string());
    r.nc_timeout = Some("".to_string());
    let c = Config::from_values(r).unwrap();
    assert_eq!(c.router.port, 2223);
    assert_eq!(c.server.port, 2222);
    assert_eq!(c.router.connect_timeout_secs, 15);
    assert_eq!(c.server.connect_timeout_secs, 15);
    assert_eq!(c.nc_timeout_secs, 5);
}

#[test]
fn config_from_parts_takes_the_list_as_read() {
    let c = Config::from_parts(raw(Some("t"), Some("ignored"), Some("00:11:22:33:44:55")), vec![9, 8])
        .unwrap();
    assert_eq!(c.allowed_users, vec![9, 8]);
    let e = Config::from_parts(raw(Some("t"), Some("1"), Some("00:11:22:33:44:55")), vec![]);
    assert_eq!(e.err(), Some(ConfigError::EmptyAllowList));
}

#[test]
fn verdicts_are_distinct() {
    assert_ne!(Verdict::Success, Verdict::Failed);
    assert_ne!(Verdict::Failed, Verdict::TimedOut);
}
