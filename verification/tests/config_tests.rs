use pixiv_exporter::config::{
    default_bind, default_port, default_refresh_token, resolve_env_value, ServerConfig, StringOrEnvRef,
    TargetConfig, ValueSource,
};

#[test]
fn server_defaults_are_localhost_and_6825() {
    assert_eq!(default_bind(), "127.0.0.1");
    assert_eq!(default_port(), 6825);
    let server = ServerConfig::default();
    assert_eq!(server.bind, "127.0.0.1");
    assert_eq!(server.port, 6825);
}

#[test]
fn refresh_token_defaults_to_environment_variable() {
    match default_refresh_token() {
        StringOrEnvRef::EnvRef { env } => assert_eq!(env, "PIXIV_REFRESH_TOKEN"),
        StringOrEnvRef::String(_) => panic!("expected an environment reference"),
    }
}

#[test]
fn inline_value_is_returned_as_is() {
    let value = StringOrEnvRef::String("secret-token".to_string());
    match value.get_value() {
        ValueSource::Inline(v) => assert_eq!(v, "secret-token"),
        ValueSource::Env(_) => panic!("expected an inline value"),
    }
}

#[test]
fn env_reference_names_the_variable() {
    let value = StringOrEnvRef::EnvRef { env: "MY_TOKEN".to_string() };
    match value.get_value() {
        ValueSource::Env(name) => assert_eq!(name, "MY_TOKEN"),
        ValueSource::Inline(_) => panic!("expected an environment reference"),
    }
}

#[test]
fn present_environment_variable_resolves_to_its_text() {
    let name = "MY_TOKEN".to_string();
    let value = resolve_env_value(&name, Ok("abc".to_string()));
    assert_eq!(value.ok(), Some("abc".to_string()));
}

#[test]
fn missing_environment_variable_is_an_error_with_message() {
    let name = "MY_TOKEN".to_string();
    let value = resolve_env_value(&name, Err("environment variable not found".to_string()));
    match value {
        Ok(_) => panic!("expected an error"),
        Err(e) => {
            assert_eq!(e.name, "MY_TOKEN");
            assert_eq!(e.reason, "environment variable not found");
            assert_eq!(
                e.message(),
                "Environment variable MY_TOKEN not found: environment variable not found"
            );
        }
    }
}

#[test]
fn target_config_holds_lists() {
    let target = TargetConfig { users: vec![12345678], works: vec![98765432] };
    assert_eq!(target.users, vec![12345678]);
    assert_eq!(target.works, vec![98765432]);
}
