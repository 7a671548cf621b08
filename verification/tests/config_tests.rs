use counter_tui::configs::{config, get_env, get_env_parse, Config, Error};

#[test]
fn config_takes_the_set_value() {
    let loaded = config(Some(String::from("mongodb://localhost:27017"))).unwrap();
    assert_eq!(loaded.MONGO_URI, "mongodb://localhost:27017");
}

#[test]
fn config_fails_without_the_variable() {
    let missing = config(None);
    assert_eq!(missing.unwrap_err(), Error::MissingEnv("MONGO_URI"));
}

#[test]
fn config_rejects_an_empty_value() {
    // The URI is a required non-empty string: empty is as fatal as unset.
    let empty = config(Some(String::new()));
    assert_eq!(empty.unwrap_err(), Error::MissingEnv("MONGO_URI"));
    let empty = Config::load_from_env(Some(String::from("")));
    assert_eq!(empty.unwrap_err(), Error::MissingEnv("MONGO_URI"));
}

#[test]
fn load_from_env_mirrors_config() {
    let loaded = Config::load_from_env(Some(String::from("mongodb://db"))).unwrap();
    assert_eq!(loaded.MONGO_URI, "mongodb://db");
    assert_eq!(Config::load_from_env(None).unwrap_err(), Error::MissingEnv("MONGO_URI"));
}

#[test]
fn get_env_passes_values_through() {
    assert_eq!(get_env("HOME_DIR", Some(String::from("/tmp/x"))).unwrap(), "/tmp/x");
    assert_eq!(get_env("HOME_DIR", None).unwrap_err(), Error::MissingEnv("HOME_DIR"));
}

#[test]
fn get_env_parse_reads_numbers() {
    let port: i64 = get_env_parse("PORT", Some(String::from("8080"))).unwrap();
    assert_eq!(port, 8080);
}

#[test]
fn get_env_parse_rejects_bad_text() {
    let r: Result<i64, Error> = get_env_parse("PORT", Some(String::from("eighty")));
    assert_eq!(r.unwrap_err(), Error::WrongFormat("PORT"));
}

#[test]
fn get_env_parse_reports_missing_first() {
    let r: Result<i64, Error> = get_env_parse("PORT", None);
    assert_eq!(r.unwrap_err(), Error::MissingEnv("PORT"));
}
