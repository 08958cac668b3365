//! Where the daemon keeps its files: a home directory, and under it the token
//! that a client must show and the daemon's jar. Paths are held as text.

use vstd::prelude::*;
use vstd::string::*;

verus! {

/// The path of `name` in the directory `dir`: the two joined by a slash,
/// unless `dir` is empty or ends in one already.
pub open spec fn beneath(dir: Seq<char>, name: Seq<char>) -> Seq<char> {
    if dir.len() == 0 || dir.last() == '/' {
        dir + name
    } else {
        dir + "/"@ + name
    }
}

/// The home that `find_jgrab_home` settles on: the configured one if there is
/// one; else `.jgrab` in the user's home directory; else, where the user has
/// none, `.jgrab` in the current directory; and none where that is unknown too.
pub open spec fn home_of(
    configured: Option<Seq<char>>,
    user_home: Option<Seq<char>>,
    current_dir: Option<Seq<char>>,
) -> Option<Seq<char>> {
    match configured {
        Some(home) => Some(home),
        None => match user_home {
            Some(dir) => Some(beneath(dir, ".jgrab"@)),
            None => match current_dir {
                Some(dir) => Some(beneath(dir, ".jgrab"@)),
                None => None,
            },
        },
    }
}

/// The path of `name` in the directory `dir`.
pub fn child(dir: &str, name: &str) -> (path: String)
    ensures
        path@ == beneath(dir@, name@),
{
    let len = dir.unicode_len();
    let mut path = String::from_str(dir);
    if len > 0 && dir.get_char(len - 1) != '/' {
        proof {
            reveal_strlit("/");
        }
        path.append("/");
    }
    path.append(name);
    path
}

/// The path of the token file in the daemon's home.
pub fn token_path(home: &str) -> (path: String)
    ensures
        path@ == beneath(home@, "token"@),
{
    child(home, "token")
}

/// The path of the daemon's jar in the daemon's home.
pub fn jar_path(home: &str) -> (path: String)
    ensures
        path@ == beneath(home@, "jgrab.jar"@),
{
    child(home, "jgrab.jar")
}

/// Asks `dirs::home_dir` for the user's home directory. What comes back
/// depends on the environment and the machine, so nothing is claimed of it. A
/// directory whose path is no valid Unicode text counts as none.
#[verifier::external_body]
fn user_home() -> (home: Option<String>) {
    dirs::home_dir().and_then(|path| path.into_os_string().into_string().ok())
}

/// Settles the daemon's home from the configured home, the user's home
/// directory and the current directory, in that order.
pub fn jgrab_home(
    configured: Option<String>,
    user_home: Option<String>,
    current_dir: Option<String>,
) -> (home: Option<String>)
    ensures
        home.deep_view() == home_of(
            configured.deep_view(),
            user_home.deep_view(),
            current_dir.deep_view(),
        ),
{
    match configured {
        Some(home) => Some(home),
        None => match user_home {
            Some(dir) => Some(child(dir.as_str(), ".jgrab")),
            None => match current_dir {
                Some(dir) => Some(child(dir.as_str(), ".jgrab")),
                None => None,
            },
        },
    }
}

/// Finds the daemon's home. `configured` is the home that the environment
/// names, if it names one, and `current_dir` the current directory, if it is
/// known. The user's home directory is asked for only where none is
/// configured. There is no home only where none is configured, the user has no
/// home directory, and the current directory is unknown.
pub fn find_jgrab_home(configured: Option<String>, current_dir: Option<String>) -> (home: Option<
    String,
>)
    ensures
        configured is Some ==> home.deep_view() == configured.deep_view(),
        configured is None ==> exists|user_home: Option<Seq<char>>|
            home.deep_view() == home_of(None, user_home, current_dir.deep_view()),
        current_dir is Some ==> home is Some,
{
    match configured {
        Some(home) => Some(home),
        None => {
            let user = user_home();
            let ghost witness = user.deep_view();
            let home = jgrab_home(None, user, current_dir);
            assert(home.deep_view() == home_of(None, witness, current_dir.deep_view()));
            home
        },
    }
}

} // verus!
