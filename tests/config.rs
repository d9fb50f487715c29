use notes_api::{ConfigVar, DbConfig};

fn s(v: &str) -> Option<String> {
    Some(v.to_string())
}

#[test]
fn config_with_all_values_builds_connection_string() {
    let c = DbConfig::from_values(s("db"), s("5432"), s("u"), s("p"), s("notes")).ok().unwrap();
    assert_eq!(
        c.connection_string(),
        "host=db port=5432 user=u password=p dbname=notes sslmode=disable"
    );
}

#[test]
fn connection_string_is_accepted_by_driver() {
    let c = DbConfig::from_values(s("db"), s("5432"), s("u"), s("p"), s("notes")).ok().unwrap();
    let parsed: tokio_postgres::Config = c.connection_string().parse().unwrap();
    assert_eq!(parsed.get_user(), Some("u"));
    assert_eq!(parsed.get_dbname(), Some("notes"));
    assert_eq!(parsed.get_ports(), &[5432]);
}

#[test]
fn first_missing_value_is_reported() {
    assert_eq!(DbConfig::from_values(None, None, s("u"), s("p"), s("n")).err(), Some(ConfigVar::Host));
    assert_eq!(DbConfig::from_values(s("h"), None, None, s("p"), s("n")).err(), Some(ConfigVar::Port));
    assert_eq!(DbConfig::from_values(s("h"), s("1"), None, s("p"), s("n")).err(), Some(ConfigVar::User));
    assert_eq!(
        DbConfig::from_values(s("h"), s("1"), s("u"), None, None).err(),
        Some(ConfigVar::Password)
    );
    assert_eq!(DbConfig::from_values(s("h"), s("1"), s("u"), s("p"), None).err(), Some(ConfigVar::Name));
}

#[test]
fn missing_messages_name_the_variable() {
    let names: Vec<&str> = ConfigVar::all().iter().map(|v| v.env_name()).collect();
    assert_eq!(
        names,
        vec!["DATABASE_HOST", "DATABASE_PORT", "DATABASE_USER", "DATABASE_PASSWORD", "DATABASE_NAME"]
    );
    assert_eq!(ConfigVar::Password.missing_message(), "DATABASE_PASSWORD must be set");
}
