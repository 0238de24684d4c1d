use base64::engine::general_purpose::STANDARD;
use base64::Engine;
use zingo_http::client::{build_plan, plan_lightclient, PerformanceLevel};
use zingo_http::environment::{env_or, filled_env, first_env, Environment};
use zingo_http::error::ConfigError;
use zingo_http::settings::{ChainType, Settings};
use zingo_http::text::is_blank;
use zingo_http::wallet::{
    credential_from_env, mnemonic_base, parse_usk_bytes, usk_base, wallet_base_from_env,
    Credential, WalletBase,
};

const PHRASE: &str = "bottom drive obey lake curtain smoke basket hold race lonely fit walk";

fn env(vars: &[(&str, &str)]) -> Environment {
    let mut env = Environment::new();
    for (name, value) in vars {
        env.set(name.to_string(), value.to_string());
    }
    env
}

fn settings(vars: &[(&str, &str)]) -> Result<Settings, ConfigError> {
    Settings::from_env(&env(vars))
}

fn with_endpoint(name: &str, value: &str) -> Result<Settings, ConfigError> {
    settings(&[("LIGHTWALLETD_ENDPOINT", "https://lwd.example:9067"), (name, value)])
}

#[test]
fn later_value_replaces_earlier_one() {
    let env = env(&[("A", "1"), ("B", "2"), ("A", "3")]);
    assert_eq!(env.get("A"), Some("3".to_string()));
    assert_eq!(env.get("B"), Some("2".to_string()));
    assert_eq!(env.get("C"), None);
    assert_eq!(Environment::new().get("A"), None);
}

#[test]
fn blank_means_unicode_white_space_only() {
    for n in 0..=0x10ffffu32 {
        if let Some(c) = char::from_u32(n) {
            let listed = (0x09..=0x0d).contains(&n)
                || (0x2000..=0x200a).contains(&n)
                || [0x20, 0x85, 0xa0, 0x1680, 0x2028, 0x2029, 0x202f, 0x205f, 0x3000].contains(&n);
            let text = format!(" {c}");
            assert_eq!(is_blank(&text), listed);
            assert_eq!(is_blank(&text), text.trim().is_empty());
        }
    }
    assert!(is_blank(""));
    assert!(!is_blank(" x "));
}

#[test]
fn first_env_takes_the_first_filled_variable() {
    let env = env(&[("A", " \t"), ("C", "c"), ("D", "d")]);
    assert_eq!(first_env(&env, &["A", "B", "C", "D"]), Some("c".to_string()));
    assert_eq!(first_env(&env, &["D", "C"]), Some("d".to_string()));
    assert_eq!(first_env(&env, &["A", "B"]), None);
    assert_eq!(first_env(&env, &[]), None);
    assert_eq!(filled_env(&env, "A"), None);
    assert_eq!(filled_env(&env, "C"), Some("c".to_string()));
    assert_eq!(env_or(&env, "A", "x"), " \t");
    assert_eq!(env_or(&env, "B", "x"), "x");
}

#[test]
fn defaults_when_only_the_endpoint_is_set() {
    let s = settings(&[("LIGHTWALLETD_ENDPOINT", "https://lwd.example:9067")]).unwrap();
    assert_eq!(s.lightwalletd_uri, "https://lwd.example:9067");
    assert_eq!(s.data_dir, ".zingo-http");
    assert_eq!(s.chain_type, ChainType::Testnet);
    assert_eq!(s.api_key, None);
    assert_eq!(s.bind_addr, "127.0.0.1");
    assert_eq!(s.port, "8787");
    assert_eq!(s.sync_interval_secs, 30);
    assert_eq!(s.min_confirmations, 3);
    assert_eq!(s.listen_address(), "127.0.0.1:8787");
}

#[test]
fn every_setting_can_be_given() {
    let s = settings(&[
        ("LIGHTWALLETD_ENDPOINT", ""),
        ("ZCASH_DATA_DIR", "/data"),
        ("ZCASH_NETWORK", "mainnet"),
        ("ZCASH_LIGHT_CLIENT_API_KEY", " key "),
        ("BIND_ADDR", "0.0.0.0"),
        ("PORT", "80"),
        ("ZCASH_SYNC_INTERVAL_SECS", "+7"),
        ("ZCASH_MIN_CONFIRMATIONS", "010"),
    ])
    .unwrap();
    assert_eq!(s.lightwalletd_uri, "");
    assert_eq!(s.data_dir, "/data");
    assert_eq!(s.chain_type, ChainType::Mainnet);
    assert_eq!(s.api_key, Some(" key ".to_string()));
    assert_eq!(s.sync_interval_secs, 7);
    assert_eq!(s.min_confirmations, 10);
    assert_eq!(s.listen_address(), "0.0.0.0:80");
}

#[test]
fn missing_endpoint_is_reported_first() {
    for vars in [&[][..], &[("ZCASH_NETWORK", "moon")]] {
        let e = settings(vars).unwrap_err();
        assert_eq!(e.message(), "LIGHTWALLETD_ENDPOINT environment variable must be set");
        assert_eq!(e.cause(), Some("environment variable not found".to_string()));
    }
}

#[test]
fn unreadable_variable_counts_as_absent() {
    let mut env = env(&[("PORT", "80"), ("LIGHTWALLETD_ENDPOINT", "https://lwd.example")]);
    env.set_unreadable("PORT".to_string(), "not text".to_string());
    assert_eq!(env.get("PORT"), None);
    assert_eq!(env.read("PORT"), Err("not text".to_string()));
    assert_eq!(env.read("BIND_ADDR"), Err("environment variable not found".to_string()));
    assert_eq!(env.read("LIGHTWALLETD_ENDPOINT"), Ok("https://lwd.example".to_string()));
    assert_eq!(Settings::from_env(&env).unwrap().port, "8787");

    env.set_unreadable("LIGHTWALLETD_ENDPOINT".to_string(), "no text either".to_string());
    let e = Settings::from_env(&env).unwrap_err();
    assert_eq!(e, ConfigError::MissingEndpoint { cause: "no text either".to_string() });

    env.set("LIGHTWALLETD_ENDPOINT".to_string(), "https://lwd.example".to_string());
    assert!(Settings::from_env(&env).is_ok());
}

#[test]
fn unknown_network_is_an_error() {
    for name in ["", "Mainnet", "regtest", "testnet "] {
        assert_eq!(with_endpoint("ZCASH_NETWORK", name).unwrap_err(), ConfigError::InvalidNetwork);
    }
    assert_eq!(with_endpoint("ZCASH_NETWORK", "testnet").unwrap().chain_type, ChainType::Testnet);
}

#[test]
fn numbers_that_do_not_parse_take_the_default() {
    for text in ["", "+", "-1", " 5", "5 ", "1_0", "x", "18446744073709551616", "\u{663}"] {
        assert_eq!(with_endpoint("ZCASH_SYNC_INTERVAL_SECS", text).unwrap().sync_interval_secs, 30);
    }
    let max = with_endpoint("ZCASH_SYNC_INTERVAL_SECS", "18446744073709551615").unwrap();
    assert_eq!(max.sync_interval_secs, u64::MAX);
    let zero = with_endpoint("ZCASH_SYNC_INTERVAL_SECS", "0").unwrap();
    assert_eq!(zero.sync_interval_secs, 0);
}

#[test]
fn confirmations_are_never_zero() {
    for text in ["0", "00", "+0", "4294967296", "-3", "three", "+", ""] {
        assert_eq!(with_endpoint("ZCASH_MIN_CONFIRMATIONS", text).unwrap().min_confirmations, 3);
    }
    let max = with_endpoint("ZCASH_MIN_CONFIRMATIONS", "4294967295").unwrap();
    assert_eq!(max.min_confirmations, u32::MAX);
    assert_eq!(with_endpoint("ZCASH_MIN_CONFIRMATIONS", "1").unwrap().min_confirmations, 1);
}

#[test]
fn blank_key_asks_for_none() {
    assert_eq!(with_endpoint("ZCASH_LIGHT_CLIENT_API_KEY", " \n").unwrap().api_key, None);
}

#[test]
fn credentials_count_in_order() {
    let all = [
        ("ZCASH_VIEWING_KEY", "v2"),
        ("ZCASH_UFVK", "v1"),
        ("ZCASH_USK", "u"),
        ("ZCASH_SPENDING_KEY", "m3"),
        ("ZCASH_SEED", "m2"),
        ("ZCASH_MNEMONIC", "m1"),
    ];
    let expected = ["v2", "v1", "u", "m3", "m2", "m1"];
    for n in 1..=all.len() {
        let text = match credential_from_env(&env(&all[..n])).unwrap() {
            Credential::Phrase(text) => {
                assert!(n > 3);
                text
            }
            Credential::SpendingKey(text) => {
                assert_eq!(n, 3);
                text
            }
            Credential::ViewingKey(text) => {
                assert!(n < 3);
                text
            }
        };
        assert_eq!(text, expected[n - 1]);
    }
    assert!(credential_from_env(&env(&[("ZCASH_USK", "  ")])).is_none());
}

#[test]
fn missing_credential_is_an_error() {
    let e = wallet_base_from_env(&env(&[("ZCASH_MNEMONIC", " "), ("ZCASH_UFVK", "")])).unwrap_err();
    assert_eq!(e, ConfigError::MissingCredential);
    assert_eq!(
        e.message(),
        "Set ZCASH_MNEMONIC, ZCASH_SPENDING_KEY, ZCASH_USK, or ZCASH_UFVK"
    );
}

#[test]
fn mnemonic_is_parsed_and_normalized() {
    let spaced = format!("  {}\n", PHRASE.replace(' ', "   "));
    match wallet_base_from_env(&env(&[("ZCASH_SEED", &spaced), ("ZCASH_USK", "00")])) {
        Ok(WalletBase::Mnemonic { phrase, no_of_accounts }) => {
            assert_eq!(phrase, PHRASE);
            assert_eq!(no_of_accounts, 1);
        }
        other => panic!("{other:?}"),
    }
}

#[test]
fn bad_mnemonic_is_not_passed_over() {
    let wrong = [
        ("not a mnemonic", "BIP-0039 mnemonic only supports 12/15/18/21/24 words: 3"),
        (&PHRASE.replace("walk", "wolk"), "mnemonic contains an unknown word: wolk"),
        (&PHRASE.replace("walk", "fit"), "mnemonic has an invalid checksum"),
    ];
    for (text, cause) in wrong {
        let e = wallet_base_from_env(&env(&[("ZCASH_MNEMONIC", text), ("ZCASH_USK", "00")]));
        assert_eq!(e.unwrap_err(), ConfigError::InvalidMnemonic { cause: cause.to_string() });
    }
    let e = mnemonic_base(Err("why".to_string())).unwrap_err();
    assert_eq!(e, ConfigError::InvalidMnemonic { cause: "why".to_string() });
    assert!(matches!(
        mnemonic_base(Ok("words".to_string())),
        Ok(WalletBase::Mnemonic { phrase, no_of_accounts: 1 }) if phrase == "words"
    ));
}

#[test]
fn spending_key_is_hex_before_base64() {
    assert_eq!(parse_usk_bytes("00fFa5"), Some(vec![0x00, 0xff, 0xa5]));
    assert_eq!(parse_usk_bytes(""), Some(vec![]));
    // Valid in both notations: hexadecimal counts.
    assert_eq!(parse_usk_bytes("abcd"), Some(vec![0xab, 0xcd]));
    assert_eq!(parse_usk_bytes("aGVsbG8="), Some(b"hello".to_vec()));
    assert_eq!(parse_usk_bytes("+/+/"), Some(vec![0xfb, 0xff, 0xbf]));
    // No padding, the other alphabet, white space, odd length.
    assert_eq!(parse_usk_bytes("aGVsbG8"), None);
    assert_eq!(parse_usk_bytes("-_-_"), None);
    assert_eq!(parse_usk_bytes(" 00"), None);
    assert_eq!(parse_usk_bytes("0"), None);
}

#[test]
fn hex_key_reads_back_in_either_case() {
    let all: Vec<u8> = (0..=255).collect();
    for bytes in [vec![], vec![0x0f], all] {
        assert_eq!(parse_usk_bytes(&hex::encode(&bytes)), Some(bytes.clone()));
        assert_eq!(parse_usk_bytes(&hex::encode_upper(&bytes)), Some(bytes));
    }
}

#[test]
fn base64_key_reads_back_where_it_is_no_hex() {
    for bytes in [b"hello".to_vec(), vec![0xff; 33], vec![0xfb, 0xff, 0xbf]] {
        let text = STANDARD.encode(&bytes);
        assert!(hex::decode(&text).is_err());
        assert_eq!(parse_usk_bytes(&text), Some(bytes));
    }
}

#[test]
fn every_short_key_reads_back_from_base64() {
    for n in 0..=0xffffu32 {
        let pair = vec![(n / 256) as u8, (n % 256) as u8];
        assert_eq!(parse_usk_bytes(&STANDARD.encode(&pair)), Some(pair.clone()));
        let single = pair[1..].to_vec();
        assert_eq!(parse_usk_bytes(&STANDARD.encode(&single)), Some(single));
    }
    // What is hexadecimal too is read as that.
    assert_eq!(STANDARD.encode([0x69, 0xb7, 0x1d]), "abcd");
    assert_eq!(parse_usk_bytes("abcd"), Some(vec![0xab, 0xcd]));
}

#[test]
fn only_canonical_base64_is_read() {
    // Bits of the last letter that no byte takes up.
    assert_eq!(parse_usk_bytes("+Q=="), Some(vec![0xf9]));
    assert_eq!(parse_usk_bytes("+R=="), None);
    assert_eq!(parse_usk_bytes("+QE="), Some(vec![0xf9, 0x01]));
    assert_eq!(parse_usk_bytes("+QF="), None);
    // Padding that is missing, too long or out of place.
    for text in ["+Q", "+Q=", "+QE", "+===", "====", "=", "+Q=E", "+Q==+Q==", "++++=", "++++===="] {
        assert_eq!(parse_usk_bytes(text), None);
    }
    // A text is read only where it is what its bytes are written as.
    let signs = ['A', 'B', 'E', 'Q', 'z', '+', '/', '=', '-', ' ', '\u{e9}'];
    for a in signs {
        for b in signs {
            for c in signs {
                for d in signs {
                    let text: String = [a, b, c, d].iter().collect();
                    if hex::decode(&text).is_err() {
                        if let Some(bytes) = parse_usk_bytes(&text) {
                            assert_eq!(STANDARD.encode(bytes), text);
                        }
                    }
                }
            }
        }
    }
}

#[test]
fn spending_key_opens_or_fails() {
    match wallet_base_from_env(&env(&[("ZCASH_USK", "0102"), ("ZCASH_UFVK", "uview1")])) {
        Ok(WalletBase::Usk(bytes)) => assert_eq!(bytes, vec![1, 2]),
        other => panic!("{other:?}"),
    }
    let e = wallet_base_from_env(&env(&[("ZCASH_USK", "?"), ("ZCASH_UFVK", "uview1")]));
    assert_eq!(e.unwrap_err(), ConfigError::InvalidSpendingKey);
    assert_eq!(usk_base(None).unwrap_err(), ConfigError::InvalidSpendingKey);
}

#[test]
fn viewing_key_is_taken_as_it_is() {
    match wallet_base_from_env(&env(&[("ZCASH_UFVK", " uview1 ")])) {
        Ok(WalletBase::Ufvk(key)) => assert_eq!(key, " uview1 "),
        other => panic!("{other:?}"),
    }
}

#[test]
fn plan_follows_settings() {
    let env = env(&[
        ("LIGHTWALLETD_ENDPOINT", "https://lwd.example:9067"),
        ("ZCASH_UFVK", "uview1"),
        ("ZCASH_NETWORK", "mainnet"),
        ("ZCASH_MIN_CONFIRMATIONS", "5"),
    ]);
    let settings = Settings::from_env(&env).unwrap();
    let plan = plan_lightclient(&settings, &env).unwrap();
    assert_eq!(plan.server_uri, "https://lwd.example:9067/");
    assert_eq!(plan.data_dir, ".zingo-http");
    assert_eq!(plan.chain_type, ChainType::Mainnet);
    assert_eq!(plan.transparent_address_discovery.gap_limit, 1);
    assert!(plan.transparent_address_discovery.external);
    assert!(!plan.transparent_address_discovery.internal);
    assert!(plan.transparent_address_discovery.refund);
    assert_eq!(plan.performance_level, PerformanceLevel::High);
    assert_eq!(plan.min_confirmations, 5);
    assert_eq!(plan.wallet_name, "");
    assert_eq!(plan.birthday, 0);
    assert!(!plan.overwrite);
    assert!(matches!(plan.wallet_base, WalletBase::Ufvk(key) if key == "uview1"));
}

#[test]
fn credential_trouble_comes_before_endpoint_trouble() {
    let bad = [("LIGHTWALLETD_ENDPOINT", "not a uri"), ("ZCASH_USK", "?")];
    let s = settings(&bad).unwrap();
    assert_eq!(plan_lightclient(&s, &env(&bad)).unwrap_err(), ConfigError::InvalidSpendingKey);
    let good = env(&[("ZCASH_UFVK", "uview1")]);
    assert_eq!(
        plan_lightclient(&s, &good).unwrap_err(),
        ConfigError::InvalidEndpoint { cause: "invalid uri character".to_string() }
    );
    let base = Ok(WalletBase::Ufvk("uview1".to_string()));
    assert_eq!(
        build_plan(&s, base, Err("why".to_string())).unwrap_err(),
        ConfigError::InvalidEndpoint { cause: "why".to_string() }
    );
}

#[test]
fn config_errors_have_their_texts() {
    let because = || "because".to_string();
    let texts = [
        (
            ConfigError::MissingEndpoint { cause: because() },
            "LIGHTWALLETD_ENDPOINT environment variable must be set",
            true,
        ),
        (
            ConfigError::InvalidNetwork,
            "Invalid ZCASH_NETWORK specified. Use 'mainnet' or 'testnet'.",
            false,
        ),
        (
            ConfigError::InvalidMnemonic { cause: because() },
            "failed to parse mnemonic from env",
            true,
        ),
        (
            ConfigError::InvalidSpendingKey,
            "failed to parse ZCASH_USK as hex or base64",
            false,
        ),
        (
            ConfigError::MissingCredential,
            "Set ZCASH_MNEMONIC, ZCASH_SPENDING_KEY, ZCASH_USK, or ZCASH_UFVK",
            false,
        ),
        (
            ConfigError::InvalidEndpoint { cause: because() },
            "invalid LIGHTWALLETD_ENDPOINT",
            true,
        ),
        (ConfigError::InvalidBindAddress, "invalid bind addr/port", false),
    ];
    for (error, text, caused) in texts {
        assert_eq!(error.message(), text);
        assert_eq!(error.cause(), if caused { Some(because()) } else { None });
    }
}
