use trading_desk::derivative::{Derivative, Identifier};
use trading_desk::init::{
    start_with, on_off_to_bool, parse_algorithms, parse_apis, parse_apis_add, parse_apis_remove, parse_save,
    validate_output_words, validate_start_output, Action,
};
use trading_desk::load::{AbiVersion, AlgorithmRegistration};
use trading_desk::settings::{ApiConfig, BrokerApi, ConfigFile, SaveConfig, Settings};

fn empty_settings() -> Settings<u8> {
    Settings::from_config(ConfigFile::default())
}

fn with_algorithm(name: &str) -> Settings<u8> {
    let mut s = empty_settings();
    let host = AbiVersion { rustc_version: "r".to_string(), utils_version: "u".to_string() };
    let reg = AlgorithmRegistration {
        rustc_version: "r".to_string(),
        utils_version: "u".to_string(),
        name: name.to_string(),
    };
    let lib = libloading::Library::from(libloading::os::unix::Library::this());
    s.algorithms_mut().load(&host, reg, "p.so".to_string(), lib, || 0).unwrap();
    s
}

fn add(s: &mut Settings<u8>, id: Option<&str>) -> Action {
    parse_apis_add(
        id.map(|i| i.to_string()),
        "comdirect".to_string(),
        Some("SECRET-REDACTED".to_string()),
        Some("s".to_string()),
        Some("user".to_string()),
        None,
        s,
    )
}

fn ids(s: &Settings<u8>) -> Vec<String> {
    s.api_config().as_ref().unwrap().apis.iter().map(|a| a.id().clone()).collect()
}

#[test]
fn default_files_and_save_config() {
    let c = ConfigFile::default();
    assert_eq!(c.current_algorithm, None);
    assert_eq!(c.api_config, None);
    assert_eq!(c.save_config, SaveConfig { order: true, price: false });
    assert_eq!(SaveConfig::default().describe(), "SAVE:\n\torder: on\n\tprice: off");
}

#[test]
fn config_file_survives_the_settings() {
    let api = BrokerApi::builder("comdirect".to_string()).id(Some("main".to_string())).build(&mut empty_settings());
    let c = ConfigFile {
        current_algorithm: Some("A".to_string()),
        api_config: Some(ApiConfig { current_api: "main".to_string(), apis: vec![api] }),
        save_config: SaveConfig { order: false, price: true },
    };
    let s: Settings<u8> = Settings::from_config(c.clone());
    assert!(!s.algorithms().contains("A"));
    assert_eq!(ConfigFile::from_settings(s), c);
}

#[test]
fn builder_keeps_given_fields() {
    let api = BrokerApi::builder("comdirect".to_string())
        .id(Some("x".to_string()))
        .key(Some("k".to_string()))
        .secret(Some("s".to_string()))
        .username(Some("u".to_string()))
        .password(Some("p".to_string()))
        .build(&mut empty_settings());
    assert_eq!(api.id(), "x");
    assert_eq!(api.broker(), "comdirect");
    assert_eq!(api.key(), &Some("k".to_string()));
    assert_eq!(api.secret(), &Some("s".to_string()));
    assert_eq!(api.username(), &Some("u".to_string()));
    assert_eq!(api.password(), &Some("p".to_string()));
    assert_eq!(api.describe(), "x (comdirect)");
}

#[test]
fn built_ids_count_up_from_the_broker_name() {
    let mut s = empty_settings();
    assert_eq!(add(&mut s, None).is_none(), true);
    assert_eq!(ids(&s), vec!["comdirect"]);
    assert_eq!(s.api_config().as_ref().unwrap().current_api, "comdirect");
    add(&mut s, None);
    assert_eq!(ids(&s), vec!["comdirect", "comdirect1"]);
    add(&mut s, None);
    assert_eq!(ids(&s), vec!["comdirect", "comdirect1", "comdirect12"]);
    assert_eq!(s.api_config().as_ref().unwrap().current_api, "comdirect");
    assert!(BrokerApi::id_exists(&s, "comdirect12"));
    assert!(!BrokerApi::id_exists(&s, "comdirect2"));
}

#[test]
fn build_without_accounts_uses_broker_name() {
    let mut s = empty_settings();
    let api = BrokerApi::builder("comdirect".to_string()).build(&mut s);
    assert_eq!(api.id(), "comdirect");
}

#[test]
fn counter_grows_past_nine() {
    let mut s = empty_settings();
    for _ in 0..12 {
        add(&mut s, None);
    }
    let all = ids(&s);
    assert_eq!(all[10], "comdirect12345678910");
    assert_eq!(all[11], "comdirect1234567891011");
}

#[test]
fn taken_id_is_refused() {
    let mut s = empty_settings();
    add(&mut s, Some("main"));
    match add(&mut s, Some("main")) {
        Action::Panic(m) => assert_eq!(m, "This id is already in use"),
        _ => panic!("expected a failure"),
    }
    assert_eq!(ids(&s), vec!["main"]);
}

#[test]
fn change_api() {
    let mut s = empty_settings();
    match parse_apis(Action::Nothing, Some("x"), &mut s) {
        Action::Panic(m) => assert_eq!(m, "No apis defined yet"),
        _ => panic!("expected a failure"),
    }
    add(&mut s, Some("a"));
    add(&mut s, Some("b"));
    assert!(parse_apis(Action::Nothing, Some("b"), &mut s).is_none());
    assert_eq!(s.api_config().as_ref().unwrap().current_api, "b");
    match parse_apis(Action::Nothing, Some("c"), &mut s) {
        Action::Panic(m) => assert_eq!(m, "Could not find the api c"),
        _ => panic!("expected a failure"),
    }
    assert_eq!(s.api_config().as_ref().unwrap().current_api, "b");
    assert!(parse_apis(Action::Exit("bye".to_string()), None, &mut s).is_exit());
}

#[test]
fn remove_api() {
    let mut s = empty_settings();
    match parse_apis_remove("a", &mut s) {
        Action::Panic(m) => assert_eq!(m, "no saved apis to remove"),
        _ => panic!("expected a failure"),
    }
    add(&mut s, Some("a"));
    add(&mut s, Some("b"));
    add(&mut s, Some("c"));
    match parse_apis_remove("z", &mut s) {
        Action::Panic(m) => assert_eq!(m, "could not find z"),
        _ => panic!("expected a failure"),
    }
    assert!(parse_apis_remove("c", &mut s).is_none());
    assert_eq!(ids(&s), vec!["a", "b"]);
    assert_eq!(s.api_config().as_ref().unwrap().current_api, "b");
    assert!(parse_apis_remove("a", &mut s).is_none());
    assert_eq!(ids(&s), vec!["b"]);
    assert!(parse_apis_remove("b", &mut s).is_none());
    assert!(s.api_config().is_none());
}

#[test]
fn save_switches() {
    assert!(on_off_to_bool("on"));
    assert!(!on_off_to_bool("off"));
    let mut s = empty_settings();
    assert!(parse_save(Some("off"), Some("on"), &mut s).is_none());
    assert_eq!(s.save_config(), SaveConfig { order: false, price: true });
    parse_save(None, Some("off"), &mut s);
    assert_eq!(s.save_config(), SaveConfig { order: false, price: false });
}

#[test]
fn change_and_describe_algorithms() {
    let mut s = with_algorithm("A");
    assert!(parse_algorithms(Some("A".to_string()), None, &mut s).is_none());
    assert_eq!(s.current_algorithm(), &Some("A".to_string()));
    match parse_algorithms(Some("B".to_string()), None, &mut s) {
        Action::Panic(m) => assert_eq!(m, "Could not find the algorithm B"),
        _ => panic!("expected a failure"),
    }
    assert_eq!(s.current_algorithm(), &Some("A".to_string()));
    match parse_algorithms(None, Some("C"), &mut s) {
        Action::Panic(m) => assert_eq!(m, "Could not find the algorithm C"),
        _ => panic!("expected a failure"),
    }
    assert!(parse_algorithms(None, Some("A"), &mut s).is_none());
    assert_eq!(s.set_current_algorithm("Q".to_string()), Err(()));
    assert_eq!(s.set_current_algorithm("A".to_string()), Ok(()));
}

#[test]
fn output_selection() {
    assert_eq!(validate_start_output(&"text trade".to_string()), Ok(()));
    assert_eq!(validate_start_output(&"".to_string()), Ok(()));
    assert_eq!(
        validate_start_output(&"text  chart".to_string()),
        Err("chart output cannot live side by side with text".to_string())
    );
    assert_eq!(
        validate_start_output(&"chart text".to_string()),
        Err("text output cannot live side by side with chart".to_string())
    );
    assert_eq!(
        validate_start_output(&"none full".to_string()),
        Err("full output cannot live side by side with none".to_string())
    );
    assert_eq!(
        validate_start_output(&"full none".to_string()),
        Err("none output cannot live side by side with full".to_string())
    );
    assert_eq!(
        validate_start_output(&"full\ttrade".to_string()),
        Err("trade output cannot live side by side with full".to_string())
    );
    assert_eq!(
        validate_start_output(&"none price".to_string()),
        Err("price output cannot live side by side with none".to_string())
    );
    assert_eq!(validate_start_output(&"full text".to_string()), Ok(()));
    assert_eq!(
        validate_start_output(&"text\u{3000}chart".to_string()),
        Err("chart output cannot live side by side with text".to_string())
    );
    assert_eq!(validate_start_output(&"text\u{200b}chart".to_string()), Ok(()));
    assert_eq!(
        validate_start_output(&"full\u{85}x\u{200b}y".to_string()),
        Err("x\u{200b}y output cannot live side by side with full".to_string())
    );
}

#[test]
fn output_words_checked_in_order() {
    let words = vec!["trade".to_string(), "full".to_string(), "price".to_string()];
    assert_eq!(
        validate_output_words(&words),
        Err("price output cannot live side by side with full".to_string())
    );
    assert_eq!(validate_output_words(&vec!["text trade".to_string()]), Ok(()));
}

#[test]
fn action_predicates() {
    assert!(Action::Nothing.is_none());
    assert!(!Action::Nothing.is_exit());
    assert!(Action::Exit("x".to_string()).is_exit());
    assert!(Action::Panic("x".to_string()).is_panic());
    assert!(!Action::Panic("x".to_string()).is_none());
}

#[test]
fn settings_text() {
    let mut s = with_algorithm("A");
    assert_eq!(
        s.describe(),
        "\nAPIS: None\n\nCURRENT ALGORITHM: None\n\nALGORITHMS:\t\n\tA (p.so)\n\nSAVE:\n\torder: on\n\tprice: off\n"
    );
    add(&mut s, Some("main"));
    add(&mut s, None);
    s.set_current_algorithm("A".to_string()).unwrap();
    assert_eq!(
        s.api_config().as_ref().unwrap().describe(),
        "CURRENT API: main\n\nAPIS: \n\tmain (comdirect)\n\tcomdirect (comdirect)"
    );
    assert_eq!(
        s.describe(),
        "\nCURRENT API: main\n\nAPIS: \n\tmain (comdirect)\n\tcomdirect (comdirect)\n\nCURRENT ALGORITHM: A\n\nALGORITHMS:\t\n\tA (p.so)\n\nSAVE:\n\torder: on\n\tprice: off\n"
    );
}

#[test]
fn stored_account_is_taken_as_it_is() {
    let api = BrokerApi::from_parts("id7".to_string(), "comdirect".to_string(), None, Some("s".to_string()), None, None);
    assert_eq!(api.id(), "id7");
    assert_eq!(api.secret(), &Some("s".to_string()));
    assert_eq!(api.key(), &None);
}

#[test]
fn start_needs_algorithm_and_accounts() {
    let isins = || vec![Derivative::new(Identifier::ISIN("DE0005140008".to_string()))];
    let step = std::time::Duration::from_secs(60);
    let mut s = with_algorithm("A");
    match start_with(isins(), step, &s) {
        Action::Panic(m) => assert_eq!(m, "No algorithm selected yet"),
        _ => panic!("expected a failure"),
    }
    s.set_current_algorithm("A".to_string()).unwrap();
    match start_with(isins(), step, &s) {
        Action::Panic(m) => assert_eq!(m, "No apis defined yet"),
        _ => panic!("expected a failure"),
    }
    add(&mut s, Some("main"));
    match start_with(isins(), step, &s) {
        Action::Start(st) => {
            assert_eq!(st.algorithm(), "A");
            assert_eq!(st.api().current_api, "main");
            assert_eq!(st.isins().len(), 1);
            assert_eq!(st.interval(), step);
            assert_eq!(st.isins()[0], isins()[0]);
        }
        _ => panic!("expected a start"),
    }
}
