//! The application's directories under the user's home: every path is the
//! home directory, then the application directory, then one named
//! subdirectory. The home lookup is the platform's; the joining is
//! verified.

use vstd::prelude::*;
use vstd::string::StringExecFns;

verus! {

/// The application directory inside a given home directory.
pub open spec fn app_dir_of(home: Seq<char>) -> Seq<char> {
    home + "/.imagenie"@
}

/// A named directory inside the application directory of a given home.
pub open spec fn app_subdir_of(home: Seq<char>, name: Seq<char>) -> Seq<char> {
    app_dir_of(home) + "/"@ + name
}

/// Relies on `dirs::home_dir`: the current user's home directory as the
/// platform reports it, if it reports one. The result depends on the
/// environment.
#[verifier::external_body]
fn home_dir_string() -> (r: Option<String>) {
    dirs::home_dir().map(|p| p.to_string_lossy().into_owned())
}

/// The application's own directory: `~/.imagenie`, when the platform
/// reports a home directory.
fn app_dir() -> (r: Option<String>)
    ensures
        r matches Some(s) ==> exists|home: Seq<char>| s@ == app_dir_of(home),
{
    match home_dir_string() {
        Some(h) => {
            let ghost home = h@;
            let mut s = h;
            s.append("/.imagenie");
            proof {
                assert(s@ == app_dir_of(home));
            }
            Some(s)
        },
        None => None,
    }
}

/// A named directory inside the application's own directory.
fn app_subdir(name: &str) -> (r: Option<String>)
    ensures
        r matches Some(s) ==> exists|home: Seq<char>| s@ == app_subdir_of(home, name@),
{
    match app_dir() {
        Some(base) => {
            let ghost home = choose|home: Seq<char>| base@ == app_dir_of(home);
            let mut s = base;
            s.append("/");
            s.append(name);
            proof {
                assert(s@ == app_subdir_of(home, name@));
            }
            Some(s)
        },
        None => None,
    }
}

/// Whether `name` ends with `suffix`, character by character.
pub open spec fn spec_ends_with(name: Seq<char>, suffix: Seq<char>) -> bool {
    &&& suffix.len() <= name.len()
    &&& name.subrange(name.len() - suffix.len(), name.len() as int) == suffix
}

/// Tests whether `name` ends with `suffix`, character by character.
fn ends_with_str(name: &str, suffix: &str) -> (r: bool)
    ensures
        r == spec_ends_with(name@, suffix@),
{
    let nl = name.unicode_len();
    let sl = suffix.unicode_len();
    if sl > nl {
        return false;
    }
    let mut i: usize = 0;
    while i < sl
        invariant
            nl == name@.len(),
            sl == suffix@.len(),
            sl <= nl,
            i <= sl,
            forall|j: int| 0 <= j < i ==> name@[nl - sl + j] == suffix@[j],
        decreases sl - i,
    {
        if name.get_char(nl - sl + i) != suffix.get_char(i) {
            proof {
                assert(name@.subrange(nl - sl, nl as int)[i as int] != suffix@[i as int]);
            }
            return false;
        }
        i += 1;
    }
    proof {
        assert(name@.subrange(nl - sl, nl as int) =~= suffix@);
    }
    true
}

/// The input's name with a known image extension removed: `.png`, `.jpg`
/// and `.jpeg` are stripped, anything else is kept whole.
pub open spec fn spec_stem(name: Seq<char>) -> Seq<char> {
    if spec_ends_with(name, ".png"@) || spec_ends_with(name, ".jpg"@) {
        name.subrange(0, name.len() - 4)
    } else if spec_ends_with(name, ".jpeg"@) {
        name.subrange(0, name.len() - 5)
    } else {
        name
    }
}

/// The name under which a result is saved: the input's name without its
/// known image extension, an underscore, the task's suffix, and `.png`.
pub fn output_file_name(name: &str, suffix: &str) -> (r: String)
    ensures
        r@ == spec_stem(name@) + "_"@ + suffix@ + ".png"@,
{
    proof {
        reveal_strlit(".png");
        reveal_strlit(".jpg");
        reveal_strlit(".jpeg");
    }
    let len = name.unicode_len();
    let stem: &str = if ends_with_str(name, ".png") || ends_with_str(name, ".jpg") {
        name.substring_char(0, len - 4)
    } else if ends_with_str(name, ".jpeg") {
        name.substring_char(0, len - 5)
    } else {
        name
    };
    let mut out = stem.to_owned();
    out.append("_");
    out.append(suffix);
    out.append(".png");
    out
}

/// Where the application writes its logs: `~/.imagenie/logs`.
pub fn log_dir() -> (r: Option<String>)
    ensures
        r matches Some(s) ==> exists|home: Seq<char>| s@ == app_subdir_of(home, "logs"@),
{
    app_subdir("logs")
}

/// Where the application keeps its cache: `~/.imagenie/cache`.
pub fn cache_dir() -> (r: Option<String>)
    ensures
        r matches Some(s) ==> exists|home: Seq<char>| s@ == app_subdir_of(home, "cache"@),
{
    app_subdir("cache")
}

/// Where the application keeps its database: `~/.imagenie/db`.
pub fn db_dir() -> (r: Option<String>)
    ensures
        r matches Some(s) ==> exists|home: Seq<char>| s@ == app_subdir_of(home, "db"@),
{
    app_subdir("db")
}

/// Where the application keeps its configuration: `~/.imagenie/config`.
pub fn config_dir() -> (r: Option<String>)
    ensures
        r matches Some(s) ==> exists|home: Seq<char>| s@ == app_subdir_of(home, "config"@),
{
    app_subdir("config")
}

} // verus!
