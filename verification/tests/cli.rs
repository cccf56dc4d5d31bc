use atb::cli::{BaseCli, Environment, UnknownEnvironment};

#[test]
fn environment_names() {
    assert_eq!(Environment::parse("prod"), Some(Environment::Production));
    assert_eq!(Environment::parse("production"), Some(Environment::Production));
    assert_eq!(Environment::parse("dev"), Some(Environment::Develop));
    assert_eq!(Environment::parse("develop"), Some(Environment::Develop));
    assert_eq!(Environment::parse("stag"), Some(Environment::Staging));
    assert_eq!(Environment::parse("staging"), Some(Environment::Staging));
    assert_eq!(Environment::parse("Prod"), None);
    assert_eq!(Environment::parse(""), None);
    assert_eq!("dev".parse::<Environment>(), Ok(Environment::Develop));
    assert_eq!("qa".parse::<Environment>(), Err(UnknownEnvironment));
}

#[test]
fn environment_written_name_reads_back() {
    for e in [Environment::Production, Environment::Develop, Environment::Staging] {
        assert_eq!(Environment::parse(e.as_str()), Some(e));
    }
    assert_eq!(Environment::Production.as_str(), "production");
    assert_eq!(Environment::Develop.as_str(), "develop");
    assert_eq!(Environment::Staging.as_str(), "staging");
}

#[test]
fn environment_predicates() {
    assert!(Environment::Production.prod() && !Environment::Production.dev());
    assert!(Environment::Develop.dev() && !Environment::Develop.staging());
    assert!(Environment::Staging.staging() && !Environment::Staging.prod());
    let base = BaseCli { env: Environment::Develop, debug: true };
    assert!(base.env.dev() && base.debug);
}
