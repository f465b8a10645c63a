use vstd::prelude::*;
use vstd::string::*;

verus! {

/// `base` with `name` added as one more path component: a `/` goes between
/// them unless `base` is empty or already ends with one.
pub open spec fn joined(base: Seq<char>, name: Seq<char>) -> Seq<char> {
    if base.len() == 0 || base.last() == '/' {
        base + name
    } else {
        base + seq!['/'] + name
    }
}

/// The application's data directory, `<home>/.hotcocoa`.
pub open spec fn app_dir_of(home: Seq<char>) -> Seq<char> {
    joined(home, seq!['.', 'h', 'o', 't', 'c', 'o', 'c', 'o', 'a'])
}

/// The photos directory, `<app dir>/photos`.
pub open spec fn photos_dir_of(home: Seq<char>) -> Seq<char> {
    joined(app_dir_of(home), seq!['p', 'h', 'o', 't', 'o', 's'])
}

/// The configuration file, `<app dir>/config.json`.
pub open spec fn config_path_of(home: Seq<char>) -> Seq<char> {
    joined(app_dir_of(home), seq!['c', 'o', 'n', 'f', 'i', 'g', '.', 'j', 's', 'o', 'n'])
}

/// Appends `name` to `base` as one more path component.
pub fn join_path(base: &str, name: &str) -> (r: String)
    ensures
        r@ == joined(base@, name@),
{
    let n = base.unicode_len();
    let mut r = String::from_str(base);
    if n > 0 && base.get_char(n - 1) != '/' {
        proof {
            reveal_strlit("/");
        }
        r.append("/");
    }
    r.append(name);
    r
}

/// The data directory under the home directory `home`.
pub fn app_dir_for(home: &str) -> (r: String)
    ensures
        r@ == app_dir_of(home@),
{
    proof {
        reveal_strlit(".hotcocoa");
    }
    join_path(home, ".hotcocoa")
}

/// The photos directory under the home directory `home`.
pub fn photos_dir_for(home: &str) -> (r: String)
    ensures
        r@ == photos_dir_of(home@),
{
    let app = app_dir_for(home);
    proof {
        reveal_strlit("photos");
    }
    join_path(app.as_str(), "photos")
}

/// The configuration file under the home directory `home`.
pub fn config_path_for(home: &str) -> (r: String)
    ensures
        r@ == config_path_of(home@),
{
    let app = app_dir_for(home);
    proof {
        reveal_strlit("config.json");
    }
    join_path(app.as_str(), "config.json")
}

/// Relies on `dirs::home_dir`: the current user's home directory where one is
/// known. It reads the environment, so nothing is promised of the value.
#[verifier::external_body]
fn home_dir() -> (r: Option<String>) {
    dirs::home_dir().map(|p| p.to_string_lossy().to_string())
}

/// The data directory of the current user; `None` where no home directory is
/// known.
pub fn get_app_dir() -> (r: Option<String>)
    ensures
        r matches Some(p) ==> exists|h: Seq<char>| p@ == #[trigger] app_dir_of(h),
{
    match home_dir() {
        Some(h) => Some(app_dir_for(h.as_str())),
        None => None,
    }
}

/// The photos directory of the current user; `None` where no home directory is
/// known.
pub fn get_photos_dir() -> (r: Option<String>)
    ensures
        r matches Some(p) ==> exists|h: Seq<char>| p@ == #[trigger] photos_dir_of(h),
{
    match home_dir() {
        Some(h) => Some(photos_dir_for(h.as_str())),
        None => None,
    }
}

/// The configuration file of the current user; `None` where no home directory
/// is known.
pub fn get_config_path() -> (r: Option<String>)
    ensures
        r matches Some(p) ==> exists|h: Seq<char>| p@ == #[trigger] config_path_of(h),
{
    match home_dir() {
        Some(h) => Some(config_path_for(h.as_str())),
        None => None,
    }
}

} // verus!
