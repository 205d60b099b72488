use akane::config::{
    load_env, load_julius_host, load_julius_port, load_kotonoha_host, load_kotonoha_port,
    AkaneConfig, ConfigError, Environment, Setting,
};

fn text(value: &str) -> Option<String> {
    Some(value.to_string())
}

fn full() -> Environment {
    Environment {
        julius_host: text("julius.local"),
        julius_port: text("10500"),
        kotonoha_host: text("kotonoha.local"),
        kotonoha_port: text("8000"),
    }
}

#[test]
fn settings_are_named_after_their_variables() {
    assert_eq!(Setting::JuliusHost.name(), "JULIUS_HOST");
    assert_eq!(Setting::JuliusPort.name(), "JULIUS_PORT");
    assert_eq!(Setting::KotonohaHost.name(), "KOTONOHA_HOST");
    assert_eq!(Setting::KotonohaPort.name(), "KOTONOHA_PORT");
}

#[test]
fn complete_environment_gives_the_settings() {
    let config = AkaneConfig::from_env(full());
    assert_eq!(
        config,
        Ok(AkaneConfig {
            julius_host: "julius.local".to_string(),
            julius_port: 10500,
            kotonoha_host: "kotonoha.local".to_string(),
            kotonoha_port: 8000,
        })
    );
}

#[test]
fn each_missing_setting_is_reported() {
    let mut env = full();
    env.julius_host = None;
    assert_eq!(AkaneConfig::from_env(env), Err(ConfigError::Missing(Setting::JuliusHost)));
    let mut env = full();
    env.julius_port = None;
    assert_eq!(AkaneConfig::from_env(env), Err(ConfigError::Missing(Setting::JuliusPort)));
    let mut env = full();
    env.kotonoha_host = None;
    assert_eq!(AkaneConfig::from_env(env), Err(ConfigError::Missing(Setting::KotonohaHost)));
    let mut env = full();
    env.kotonoha_port = None;
    assert_eq!(AkaneConfig::from_env(env), Err(ConfigError::Missing(Setting::KotonohaPort)));
}

#[test]
fn each_unreadable_port_is_reported() {
    let mut env = full();
    env.julius_port = text("ten thousand");
    assert_eq!(AkaneConfig::from_env(env), Err(ConfigError::NotAPort(Setting::JuliusPort)));
    let mut env = full();
    env.kotonoha_port = text("65536");
    assert_eq!(AkaneConfig::from_env(env), Err(ConfigError::NotAPort(Setting::KotonohaPort)));
}

#[test]
fn the_first_fault_in_order_wins() {
    let env = Environment {
        julius_host: text("julius.local"),
        julius_port: text("x"),
        kotonoha_host: None,
        kotonoha_port: None,
    };
    assert_eq!(AkaneConfig::from_env(env), Err(ConfigError::NotAPort(Setting::JuliusPort)));
    let env = Environment {
        julius_host: None,
        julius_port: text("x"),
        kotonoha_host: None,
        kotonoha_port: text("y"),
    };
    assert_eq!(AkaneConfig::from_env(env), Err(ConfigError::Missing(Setting::JuliusHost)));
}

#[test]
fn an_empty_host_is_a_host() {
    assert_eq!(load_julius_host(text("")), Ok(String::new()));
    assert_eq!(load_kotonoha_host(text("")), Ok(String::new()));
}

#[test]
fn single_settings_are_loaded() {
    assert_eq!(load_env(Setting::JuliusHost, text("a")), Ok("a".to_string()));
    assert_eq!(load_env(Setting::KotonohaPort, None), Err(ConfigError::Missing(Setting::KotonohaPort)));
    assert_eq!(load_julius_host(text("julius")), Ok("julius".to_string()));
    assert_eq!(load_julius_host(None), Err(ConfigError::Missing(Setting::JuliusHost)));
    assert_eq!(load_kotonoha_host(text("kotonoha")), Ok("kotonoha".to_string()));
    assert_eq!(load_kotonoha_host(None), Err(ConfigError::Missing(Setting::KotonohaHost)));
    assert_eq!(load_julius_port(text("10500")), Ok(10500));
    assert_eq!(load_julius_port(text("")), Err(ConfigError::NotAPort(Setting::JuliusPort)));
    assert_eq!(load_julius_port(None), Err(ConfigError::Missing(Setting::JuliusPort)));
    assert_eq!(load_kotonoha_port(text("+8000")), Ok(8000));
    assert_eq!(load_kotonoha_port(text("-8000")), Err(ConfigError::NotAPort(Setting::KotonohaPort)));
    assert_eq!(load_kotonoha_port(None), Err(ConfigError::Missing(Setting::KotonohaPort)));
}
