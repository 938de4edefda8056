use installer_wizard::addr::is_valid_socket_addr;
use installer_wizard::bitcoind::DefineBitcoind;
use installer_wizard::context::{Context, Network};
use installer_wizard::finalize::Final;
use installer_wizard::form::FormValue;
use installer_wizard::message::{Cmd, DefineBitcoind as Msg, Message, ProbeError};
use installer_wizard::paths::{
    bitcoind_default_address, bitcoind_default_cookie_path, cookie_path_for, is_valid_cookie_path,
};
use installer_wizard::step::{Step, Welcome};
use installer_wizard::text::contains_str;
use installer_wizard::view::Screen;
use installer_wizard::wizard::{Advance, AnyStep, Wizard};

fn testnet_context() -> Context {
    Context::new(Network::Testnet)
}

#[test]
fn socket_addr_accepts_well_formed() {
    assert!(is_valid_socket_addr("127.0.0.1:8332"));
    assert!(is_valid_socket_addr("127.0.0.1:18332"));
    assert!(is_valid_socket_addr("0.0.0.0:1"));
    assert!(is_valid_socket_addr("255.255.255.255:65535"));
    assert!(is_valid_socket_addr("10.0.0.2:18443"));
}

#[test]
fn socket_addr_rejects_malformed() {
    assert!(!is_valid_socket_addr(""));
    assert!(!is_valid_socket_addr("127.0.0.1"));
    assert!(!is_valid_socket_addr("127.0.0.1:"));
    assert!(!is_valid_socket_addr(":8332"));
    assert!(!is_valid_socket_addr("256.0.0.1:80"));
    assert!(!is_valid_socket_addr("1.2.3:80"));
    assert!(!is_valid_socket_addr("1.2.3.4.5:80"));
    assert!(!is_valid_socket_addr("01.2.3.4:80"));
    assert!(!is_valid_socket_addr("1.2.3.4:65536"));
    assert!(!is_valid_socket_addr("1.2.3.4:080"));
    assert!(!is_valid_socket_addr("a.b.c.d:80"));
    assert!(!is_valid_socket_addr("1.2.3.4:80:90"));
    assert!(!is_valid_socket_addr("1.2.3.4:8a"));
    assert!(!is_valid_socket_addr("not an address"));
}

#[test]
fn cookie_path_accepts_and_rejects() {
    assert!(is_valid_cookie_path("/home/user/.bitcoin/.cookie"));
    assert!(is_valid_cookie_path("relative/path/.cookie"));
    assert!(!is_valid_cookie_path(""));
    assert!(!is_valid_cookie_path("not/a/valid/::path"));
    assert!(!is_valid_cookie_path("has:colon"));
    assert!(!is_valid_cookie_path("has\u{0}nul"));
}

#[test]
fn default_address_table() {
    assert_eq!(bitcoind_default_address(Network::Mainnet), "127.0.0.1:8332");
    assert_eq!(bitcoind_default_address(Network::Testnet), "127.0.0.1:18332");
    assert_eq!(bitcoind_default_address(Network::Regtest), "127.0.0.1:18443");
    assert_eq!(bitcoind_default_address(Network::Signet), "127.0.0.1:38332");
}

#[test]
fn default_addresses_pass_the_validator() {
    for network in [Network::Mainnet, Network::Testnet, Network::Regtest, Network::Signet] {
        assert!(is_valid_socket_addr(bitcoind_default_address(network).as_str()));
    }
}

#[test]
fn cookie_path_for_each_network() {
    assert_eq!(
        cookie_path_for("/home/x", Network::Mainnet),
        "/home/x/.bitcoin/.cookie"
    );
    assert_eq!(
        cookie_path_for("/home/x", Network::Testnet),
        "/home/x/.bitcoin/testnet3/.cookie"
    );
    assert_eq!(
        cookie_path_for("/home/x", Network::Regtest),
        "/home/x/.bitcoin/regtest/.cookie"
    );
    assert_eq!(
        cookie_path_for("/home/x", Network::Signet),
        "/home/x/.bitcoin/signet/.cookie"
    );
}

#[test]
fn default_cookie_path_follows_home_dir() {
    let expected = dirs::home_dir().and_then(|p| p.to_str().map(|s| s.to_string()));
    match (bitcoind_default_cookie_path(Network::Testnet), expected) {
        (Some(p), Some(home)) => {
            assert_eq!(p, format!("{}/.bitcoin/testnet3/.cookie", home));
        }
        (None, None) => {}
        (got, want) => panic!("default cookie path {:?} does not match home {:?}", got, want),
    }
}

#[test]
fn substring_search() {
    assert!(contains_str("wsh(pk(deadbeef))", "deadbeef"));
    assert!(contains_str("abc", ""));
    assert!(contains_str("abc", "abc"));
    assert!(!contains_str("abc", "abcd"));
    assert!(!contains_str("wsh(pk(deadbeef))", "f00dbabe"));
}

#[test]
fn scenario_a_testnet_defaults() {
    let ctx = testnet_context();
    let mut step = DefineBitcoind::new();
    step.load_context(&ctx);
    assert_eq!(step.address.value, "127.0.0.1:18332");
    match dirs::home_dir().and_then(|p| p.to_str().map(|s| s.to_string())) {
        Some(home) => {
            assert_eq!(
                step.cookie_path.value,
                format!("{}/.bitcoin/testnet3/.cookie", home)
            );
        }
        None => assert_eq!(step.cookie_path.value, ""),
    }
}

#[test]
fn scenario_b_file_read_outcome_is_kept_verbatim() {
    let mut step = DefineBitcoind::new();
    let outcome: Result<(), ProbeError> =
        Err(ProbeError::FileRead("No such file or directory".to_string()));
    let cmd = step.update(Message::DefineBitcoind(Msg::PingBitcoindResult(outcome)));
    assert!(matches!(cmd, Cmd::NoOp));
    match &step.is_running {
        Some(Err(ProbeError::FileRead(text))) => {
            assert_eq!(text, "No such file or directory");
        }
        other => panic!("expected a file-read outcome, got {:?}", other.is_some()),
    }
}

#[test]
fn scenario_c_invalid_path_marks_only_path() {
    let mut ctx = testnet_context();
    let mut step = DefineBitcoind::new();
    step.cookie_path.value = "not/a/valid/::path".to_string();
    step.address.value = "127.0.0.1:8332".to_string();
    let applied = step.apply(&mut ctx);
    assert!(!applied);
    assert!(!step.cookie_path.valid);
    assert!(step.address.valid);
    assert!(ctx.bitcoind_config.is_none());
}

#[test]
fn scenario_d_both_invalid_context_untouched() {
    let mut ctx = testnet_context();
    ctx.descriptor = Some("wsh(pk(deadbeef))".to_string());
    let mut step = DefineBitcoind::new();
    step.cookie_path.value = "bad:path".to_string();
    step.address.value = "not an address".to_string();
    let applied = step.apply(&mut ctx);
    assert!(!applied);
    assert!(!step.cookie_path.valid);
    assert!(!step.address.valid);
    assert!(ctx.bitcoind_config.is_none());
    assert!(matches!(ctx.network, Network::Testnet));
    assert_eq!(ctx.descriptor.as_deref(), Some("wsh(pk(deadbeef))"));
    assert!(ctx.recovered_signer.is_none());
}

#[test]
fn apply_success_commits_exactly_the_connection_record() {
    let mut ctx = testnet_context();
    ctx.descriptor = Some("wsh(pk(deadbeef))".to_string());
    let mut step = DefineBitcoind::new();
    step.cookie_path.value = "/tmp/.cookie".to_string();
    step.address.value = "127.0.0.1:18332".to_string();
    let applied = step.apply(&mut ctx);
    assert!(applied);
    let config = ctx.bitcoind_config.expect("connection record committed");
    assert_eq!(config.cookie_path, "/tmp/.cookie");
    assert_eq!(config.addr, "127.0.0.1:18332");
    assert!(matches!(ctx.network, Network::Testnet));
    assert_eq!(ctx.descriptor.as_deref(), Some("wsh(pk(deadbeef))"));
    assert!(ctx.recovered_signer.is_none());
    assert!(step.cookie_path.valid);
    assert!(step.address.valid);
}

#[test]
fn load_context_keeps_user_edits() {
    let ctx = testnet_context();
    let mut step = DefineBitcoind::new();
    step.cookie_path.value = "/my/own/.cookie".to_string();
    step.address.value = "10.0.0.2:18443".to_string();
    step.load_context(&ctx);
    assert_eq!(step.cookie_path.value, "/my/own/.cookie");
    assert_eq!(step.address.value, "10.0.0.2:18443");
    step.load_context(&ctx);
    assert_eq!(step.cookie_path.value, "/my/own/.cookie");
    assert_eq!(step.address.value, "10.0.0.2:18443");
}

#[test]
fn editing_clears_probe_outcome() {
    let mut step = DefineBitcoind::new();
    step.update(Message::DefineBitcoind(Msg::PingBitcoindResult(Ok(()))));
    assert!(step.is_running.is_some());
    step.update(Message::DefineBitcoind(Msg::AddressEdited(
        "127.0.0.1:1".to_string(),
    )));
    assert!(step.is_running.is_none());
    step.update(Message::DefineBitcoind(Msg::PingBitcoindResult(Ok(()))));
    assert!(step.is_running.is_some());
    step.update(Message::DefineBitcoind(Msg::CookiePathEdited(
        "/tmp/c".to_string(),
    )));
    assert!(step.is_running.is_none());
}

#[test]
fn ping_carries_the_current_fields() {
    let mut step = DefineBitcoind::new();
    step.cookie_path.value = "/tmp/.cookie".to_string();
    step.address.value = "127.0.0.1:18332".to_string();
    match step.ping() {
        Cmd::Probe { cookie_path, address } => {
            assert_eq!(cookie_path, "/tmp/.cookie");
            assert_eq!(address, "127.0.0.1:18332");
        }
        Cmd::NoOp => panic!("ping must emit a probe command"),
    }
    match step.load() {
        Cmd::Probe { cookie_path, address } => {
            assert_eq!(cookie_path, "/tmp/.cookie");
            assert_eq!(address, "127.0.0.1:18332");
        }
        Cmd::NoOp => panic!("load must emit a probe command"),
    }
}

#[test]
fn ping_request_clears_outcome_and_probes() {
    let mut step = DefineBitcoind::new();
    step.address.value = "127.0.0.1:8332".to_string();
    step.update(Message::DefineBitcoind(Msg::PingBitcoindResult(Ok(()))));
    let cmd = step.update(Message::DefineBitcoind(Msg::PingBitcoind));
    assert!(step.is_running.is_none());
    match cmd {
        Cmd::Probe { address, .. } => assert_eq!(address, "127.0.0.1:8332"),
        Cmd::NoOp => panic!("the ping request must emit a probe command"),
    }
}

#[test]
fn welcome_is_inert() {
    let mut welcome = Welcome::new();
    let ctx = testnet_context();
    assert!(!welcome.skip(&ctx));
    let cmd = welcome.update(Message::Install);
    assert!(matches!(cmd, Cmd::NoOp));
    let mut ctx2 = testnet_context();
    assert!(welcome.apply(&mut ctx2));
    assert!(ctx2.bitcoind_config.is_none());
}

#[test]
fn scenario_e_recovered_signer_overrides_display() {
    let mut ctx = testnet_context();
    ctx.descriptor = Some("wsh(pk(deadbeef))".to_string());
    ctx.recovered_signer = Some("f00dbabe".to_string());
    let mut step = Final::new("deadbeef".to_string());
    step.load_context(&ctx);
    assert_eq!(step.hot_signer_fingerprint, "f00dbabe");
    assert!(!step.hot_signer_is_not_used);
    let view = step.view((2, 3));
    match view.screen {
        Screen::Final { hot_signer, .. } => {
            assert_eq!(hot_signer.as_deref(), Some("f00dbabe"));
        }
        _ => panic!("finalization must render its own screen"),
    }
}

#[test]
fn unused_generated_key_is_flagged() {
    let mut ctx = testnet_context();
    ctx.descriptor = Some("wsh(pk(0123abcd))".to_string());
    let mut step = Final::new("deadbeef".to_string());
    step.load_context(&ctx);
    assert!(step.hot_signer_is_not_used);
    let view = step.view((2, 3));
    match view.screen {
        Screen::Final { hot_signer, .. } => assert!(hot_signer.is_none()),
        _ => panic!("finalization must render its own screen"),
    }
}

#[test]
fn referenced_generated_key_is_displayed() {
    let mut ctx = testnet_context();
    ctx.descriptor = Some("wsh(pk(deadbeef))".to_string());
    let mut step = Final::new("deadbeef".to_string());
    step.load_context(&ctx);
    assert!(!step.hot_signer_is_not_used);
    let view = step.view((2, 3));
    match view.screen {
        Screen::Final { hot_signer, descriptor, .. } => {
            assert_eq!(hot_signer.as_deref(), Some("deadbeef"));
            assert_eq!(descriptor, "wsh(pk(deadbeef))");
        }
        _ => panic!("finalization must render its own screen"),
    }
}

#[test]
fn install_messages_drive_the_terminal_step() {
    let mut step = Final::new("deadbeef".to_string());
    step.update(Message::Install);
    assert!(step.generating);
    assert!(step.warning.is_none());
    assert!(step.config_path.is_none());
    step.update(Message::Installed(Err("disk full".to_string())));
    assert!(!step.generating);
    assert_eq!(step.warning.as_deref(), Some("disk full"));
    assert!(step.config_path.is_none());
    step.update(Message::Install);
    assert!(step.generating);
    assert!(step.warning.is_none());
    step.update(Message::Installed(Ok("/tmp/daemon.toml".to_string())));
    assert!(!step.generating);
    assert_eq!(step.config_path.as_deref(), Some("/tmp/daemon.toml"));
    assert!(step.warning.is_none());
}

#[test]
fn wizard_walks_the_whole_pipeline() {
    let mut ctx = testnet_context();
    ctx.descriptor = Some("wsh(pk(deadbeef))".to_string());
    let steps = vec![
        AnyStep::Welcome(Welcome::new()),
        AnyStep::DefineBitcoind(DefineBitcoind::new()),
        AnyStep::Final(Final::new("deadbeef".to_string())),
    ];
    let mut wizard = Wizard::new(steps, ctx);
    assert!(wizard.start().is_some());
    assert_eq!(wizard.current, 0);
    match wizard.view_current() {
        Some(v) => {
            assert_eq!(v.current, 0);
            assert_eq!(v.total, 3);
            assert!(matches!(v.screen, Screen::Welcome));
        }
        None => panic!("the greeting screen is always renderable"),
    }

    match wizard.next() {
        Advance::Moved(Cmd::Probe { address, .. }) => {
            assert_eq!(address, "127.0.0.1:18332");
        }
        _ => panic!("advancing past the greeting must enter the node step and probe"),
    }
    assert_eq!(wizard.current, 1);

    wizard.update(Message::DefineBitcoind(Msg::CookiePathEdited(
        "/tmp/.cookie".to_string(),
    )));
    wizard.update(Message::DefineBitcoind(Msg::AddressEdited(
        "127.0.0.1:18332".to_string(),
    )));
    match wizard.next() {
        Advance::Moved(Cmd::NoOp) => {}
        _ => panic!("a valid node step must advance into finalization"),
    }
    assert_eq!(wizard.current, 2);
    let config = wizard.context.bitcoind_config.as_ref().expect("committed");
    assert_eq!(config.cookie_path, "/tmp/.cookie");
    assert_eq!(config.addr, "127.0.0.1:18332");

    match wizard.view_current() {
        Some(v) => match v.screen {
            Screen::Final { hot_signer, .. } => {
                assert_eq!(hot_signer.as_deref(), Some("deadbeef"));
            }
            _ => panic!("the terminal screen must be finalization"),
        },
        None => panic!("finalization is renderable after entry"),
    }

    assert!(matches!(wizard.next(), Advance::AtEnd));
    assert_eq!(wizard.current, 2);
}

#[test]
fn wizard_blocks_on_invalid_input() {
    let ctx = testnet_context();
    let mut bitcoind = DefineBitcoind::new();
    bitcoind.cookie_path.value = "bad:path".to_string();
    bitcoind.address.value = "nonsense".to_string();
    let steps = vec![
        AnyStep::DefineBitcoind(bitcoind),
        AnyStep::Final(Final::new("deadbeef".to_string())),
    ];
    let mut wizard = Wizard::new(steps, ctx);
    assert!(matches!(wizard.next(), Advance::Blocked));
    assert_eq!(wizard.current, 0);
    assert!(wizard.context.bitcoind_config.is_none());
    match &wizard.steps[0] {
        AnyStep::DefineBitcoind(s) => {
            assert!(!s.cookie_path.valid);
            assert!(!s.address.valid);
        }
        _ => panic!("the node step stays current when blocked"),
    }
}

#[test]
fn wizard_detects_a_broken_ordering_guarantee() {
    let ctx = testnet_context();
    let steps = vec![
        AnyStep::Welcome(Welcome::new()),
        AnyStep::Final(Final::new("deadbeef".to_string())),
    ];
    let mut wizard = Wizard::new(steps, ctx);
    assert!(matches!(wizard.next(), Advance::Broken));
}

#[test]
fn wizard_previous_restores_the_prior_index() {
    let mut ctx = testnet_context();
    ctx.descriptor = Some("wsh(pk(deadbeef))".to_string());
    let steps = vec![
        AnyStep::Welcome(Welcome::new()),
        AnyStep::DefineBitcoind(DefineBitcoind::new()),
    ];
    let mut wizard = Wizard::new(steps, ctx);
    wizard.next();
    assert_eq!(wizard.current, 1);
    wizard.previous();
    assert_eq!(wizard.current, 0);
    wizard.previous();
    assert_eq!(wizard.current, 0);
}

#[test]
fn form_value_defaults_to_an_empty_valid_field() {
    let field = FormValue::default();
    assert_eq!(field.value, "");
    assert!(field.valid);
    let named = FormValue::with_value("127.0.0.1:8332");
    assert_eq!(named.value, "127.0.0.1:8332");
    assert!(named.valid);
}
