use nextup_store::error::StoreError;
use nextup_store::paths::{
    get_config_path, get_data_dir, home_variable, override_variable, Document, Environment,
};

fn under(dir: &str, name: &str) -> String {
    format!("{}{}{}", dir, std::path::MAIN_SEPARATOR, name)
}

fn environment(data_dir_override: Option<&str>, home: Option<&str>) -> Environment {
    Environment {
        data_dir_override: data_dir_override.map(|text| text.to_string()),
        home: home.map(|text| text.to_string()),
    }
}

#[test]
fn override_is_the_data_dir_as_it_stands() {
    let env = environment(Some("/tmp/nx1"), Some("/home/ann"));
    assert_eq!(get_data_dir(&env), "/tmp/nx1");
}

#[test]
fn override_is_not_normalised() {
    let env = environment(Some("some/../where//"), None);
    assert_eq!(get_data_dir(&env), "some/../where//");
}

#[test]
fn override_wins_whatever_the_home_is() {
    let with_home = environment(Some("/data/here"), Some("/home/ann"));
    let without_home = environment(Some("/data/here"), None);
    assert_eq!(get_data_dir(&with_home), get_data_dir(&without_home));
}

#[test]
fn empty_override_counts_as_unset() {
    let env = environment(Some(""), Some("/home/ann"));
    assert_eq!(get_data_dir(&env), under("/home/ann", ".nextup"));
}

#[test]
fn default_is_dot_nextup_under_home() {
    let env = environment(None, Some("/home/ann"));
    assert_eq!(get_data_dir(&env), under("/home/ann", ".nextup"));
}

#[test]
fn without_home_the_working_directory_is_used() {
    let env = environment(None, None);
    assert_eq!(get_data_dir(&env), under(".", ".nextup"));
}

#[test]
fn config_path_is_config_json_in_the_data_dir() {
    let env = environment(Some("/tmp/nx1"), None);
    assert_eq!(get_config_path(&env), Ok::<String, StoreError>(under("/tmp/nx1", "config.json")));
}

#[test]
fn config_path_under_the_default_directory() {
    let env = environment(None, Some("/home/ann"));
    let expected = under(&under("/home/ann", ".nextup"), "config.json");
    assert_eq!(get_config_path(&env), Ok::<String, StoreError>(expected));
}

#[test]
fn config_path_agrees_with_the_platform_join() {
    let env = environment(Some("/tmp/nx1/"), None);
    let expected = std::path::Path::new("/tmp/nx1/").join("config.json");
    assert_eq!(get_config_path(&env).unwrap(), expected.to_string_lossy());
}

#[test]
fn file_names_of_the_two_documents() {
    assert_eq!(Document::Config.file_name(), "config.json");
    assert_eq!(Document::Watchlist.file_name(), "watchlist.json");
}

#[test]
fn path_in_joins_directory_and_file_name() {
    assert_eq!(Document::Watchlist.path_in("/tmp/nx1"), under("/tmp/nx1", "watchlist.json"));
    assert_eq!(Document::Config.path_in("/tmp/nx1"), under("/tmp/nx1", "config.json"));
}

#[test]
fn names_of_the_environment_variables() {
    assert_eq!(override_variable(), "NEXTUP_DATA_DIR");
    assert_eq!(home_variable(), "USERPROFILE");
}

#[test]
fn messages_of_the_two_failures() {
    assert_eq!(StoreError::NotFound.message(), "Config file not found");
    let refused = StoreError::IoFailure("Permission denied (os error 13)".to_string());
    assert_eq!(refused.message(), "Permission denied (os error 13)");
}
