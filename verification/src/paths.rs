//! Where the two files live: the data directory, and the path of each file in it.

use crate::error::StoreError;
use vstd::prelude::*;

verus! {

/// What the host found in the process environment, read anew for every call.
#[derive(Debug)]
pub struct Environment {
    /// The value of the variable named by `override_variable`, if it is set.
    pub data_dir_override: Option<String>,
    /// The value of the variable named by `home_variable`, if it is set.
    pub home: Option<String>,
}

/// An `Environment` with its texts as sequences of characters.
pub struct Settings {
    pub data_dir_override: Option<Seq<char>>,
    pub home: Option<Seq<char>>,
}

/// The characters of an optional text.
pub open spec fn text_of(value: Option<String>) -> Option<Seq<char>> {
    match value {
        Some(text) => Some(text@),
        None => None,
    }
}

impl View for Environment {
    type V = Settings;

    open spec fn view(&self) -> Settings {
        Settings {
            data_dir_override: text_of(self.data_dir_override),
            home: text_of(self.home),
        }
    }
}

/// One of the two files that the gateway keeps.
#[derive(Clone, Copy, Debug, PartialEq, Eq, Structural)]
pub enum Document {
    Config,
    Watchlist,
}

/// The name of a document's file inside the data directory.
pub open spec fn file_name(document: Document) -> Seq<char> {
    match document {
        Document::Config => "config.json"@,
        Document::Watchlist => "watchlist.json"@,
    }
}

/// The path that `std::path::Path::join` gives for `name` under `base`. It
/// depends on the two texts alone, by the path rules of the platform that the
/// library is built for; nothing more is claimed of it.
pub uninterp spec fn joined(base: Seq<char>, name: Seq<char>) -> Seq<char>;

/// The directory in which the user's own files start: the home directory, or
/// the working directory where the environment names no home.
pub open spec fn home_or_here(home: Option<Seq<char>>) -> Seq<char> {
    match home {
        Some(dir) => dir,
        None => "."@,
    }
}

/// The data directory: the override as it stands, if it is set and not empty;
/// else `.nextup` under the home directory.
pub open spec fn data_dir(settings: Settings) -> Seq<char> {
    if settings.data_dir_override is Some && settings.data_dir_override->0.len() > 0 {
        settings.data_dir_override->0
    } else {
        joined(home_or_here(settings.home), ".nextup"@)
    }
}

/// The path of a document's file in the directory `dir`.
pub open spec fn file_path(dir: Seq<char>, document: Document) -> Seq<char> {
    joined(dir, file_name(document))
}

/// Calls `std::path::Path::join` on two texts and hands the path back as text.
/// Trusted: the result is `joined` of the two arguments, that is, it is fixed
/// by them. Both arguments are valid Unicode, so is their join, and the
/// conversion back to text changes nothing.
#[verifier::external_body]
fn join(base: &str, name: &str) -> (path: String)
    ensures
        path@ == joined(base@, name@),
{
    std::path::Path::new(base).join(name).to_string_lossy().into_owned()
}

/// The name of the environment variable that overrides the data directory.
pub fn override_variable() -> (name: &'static str)
    ensures
        name@ == "NEXTUP_DATA_DIR"@,
{
    "NEXTUP_DATA_DIR"
}

/// The name of the environment variable that holds the user's home directory.
pub fn home_variable() -> (name: &'static str)
    ensures
        name@ == "USERPROFILE"@,
{
    "USERPROFILE"
}

impl Document {
    /// The name of this document's file inside the data directory.
    pub fn file_name(self) -> (name: &'static str)
        ensures
            name@ == file_name(self),
    {
        match self {
            Document::Config => "config.json",
            Document::Watchlist => "watchlist.json",
        }
    }

    /// The path of this document's file in the directory `dir`.
    pub fn path_in(self, dir: &str) -> (path: String)
        ensures
            path@ == file_path(dir@, self),
    {
        join(dir, self.file_name())
    }
}

/// Resolves the data directory. A set, non-empty override is returned as it
/// stands, whatever the home directory is; otherwise the result is `.nextup`
/// under the home directory, or under `.` where no home is known. Nothing is
/// created and nothing is looked up on disk.
pub fn get_data_dir(env: &Environment) -> (dir: String)
    ensures
        dir@ == data_dir(env@),
{
    match &env.data_dir_override {
        Some(custom) => {
            if !custom.as_str().is_empty() {
                return custom.clone();
            }
        },
        None => {},
    }
    let home: &str = match &env.home {
        Some(dir) => dir.as_str(),
        None => ".",
    };
    join(home, ".nextup")
}

/// The path of the configuration file: `config.json` in the data directory.
/// It is always there to give: the environment holds text, so the path is text.
pub fn get_config_path(env: &Environment) -> (result: Result<String, StoreError>)
    ensures
        result matches Ok(path) && path@ == file_path(data_dir(env@), Document::Config),
{
    let dir = get_data_dir(env);
    Ok(Document::Config.path_in(dir.as_str()))
}

} // verus!
