use minigrep::Config;
use minigrep::ConfigError;

fn args(list: &[&str]) -> Vec<String> {
    list.iter().map(|s| s.to_string()).collect()
}

#[test]
fn missing_query_is_reported() {
    let result = Config::new(&args(&["prog"]), false);
    assert_eq!(result.err(), Some(ConfigError::MissingQuery));
}

#[test]
fn no_arguments_at_all_is_a_missing_query() {
    let result = Config::new(&Vec::new(), false);
    assert_eq!(result.err(), Some(ConfigError::MissingQuery));
}

#[test]
fn missing_filename_is_reported() {
    let result = Config::new(&args(&["prog", "q"]), false);
    assert_eq!(result.err(), Some(ConfigError::MissingFilename));
}

#[test]
fn two_meaningful_arguments_succeed() {
    let config = Config::new(&args(&["prog", "q", "f"]), false).unwrap();
    assert_eq!(config.query, "q");
    assert_eq!(config.filename, "f");
    assert!(!config.ignore_case);
}

#[test]
fn environment_presence_enables_ignore_case() {
    let config = Config::new(&args(&["prog", "q", "f"]), true).unwrap();
    assert!(config.ignore_case);
}

#[test]
fn extra_arguments_are_ignored() {
    let config = Config::new(&args(&["prog", "q", "f", "extra"]), false).unwrap();
    assert_eq!(config.query, "q");
    assert_eq!(config.filename, "f");
}

#[test]
fn error_messages_name_the_missing_argument() {
    assert_eq!("Didn't get query string", ConfigError::MissingQuery.message());
    assert_eq!("Didn't get a file name", ConfigError::MissingFilename.message());
}
