use rust_auth::settings::Environment;

#[test]
fn environment_as_str_names_the_environment() {
    assert_eq!(Environment::Development.as_str(), "development");
    assert_eq!(Environment::Production.as_str(), "production");
}

#[test]
fn environment_try_from_reads_a_name_in_any_case() {
    assert_eq!(Environment::try_from("development".to_string()), Ok(Environment::Development));
    assert_eq!(Environment::try_from("production".to_string()), Ok(Environment::Production));
    assert_eq!(Environment::try_from("PRODUCTION".to_string()), Ok(Environment::Production));
    assert_eq!(Environment::try_from("DeVeLoPmEnT".to_string()), Ok(Environment::Development));
}

#[test]
fn environment_try_from_refuses_other_names() {
    assert_eq!(
        Environment::try_from("staging".to_string()),
        Err("staging is not a supported environment. Use either `development` or `production`."
            .to_string())
    );
    assert_eq!(
        Environment::try_from("STAGING".to_string()),
        Err("staging is not a supported environment. Use either `development` or `production`."
            .to_string())
    );
    assert_eq!(
        Environment::try_from(String::new()),
        Err(" is not a supported environment. Use either `development` or `production`."
            .to_string())
    );
    assert!(Environment::try_from(" production".to_string()).is_err());
}

#[test]
fn environment_from_lowercase_does_not_fold_case() {
    assert_eq!(Environment::from_lowercase("production".to_string()), Ok(Environment::Production));
    assert_eq!(
        Environment::from_lowercase("Production".to_string()),
        Err("Production is not a supported environment. Use either `development` or `production`."
            .to_string())
    );
}

#[test]
fn environment_names_round_trip() {
    for environment in [Environment::Development, Environment::Production] {
        assert_eq!(Environment::try_from(environment.as_str().to_string()), Ok(environment));
    }
}
