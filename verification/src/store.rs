//! Where the application keeps its settings.
use vstd::prelude::*;

use crate::text::{chars_of, push_str, starts_with};

verus! {

/// The settings key that holds the GitLab domain.
pub const GITLAB_DOMAIN_KEY: &'static str = "gitlab-domain";

/// The name of the settings file, in the home directory.
pub const CONFIG_FILE_NAME: &'static str = ".just_merge.json";

/// `home` with `name` pushed onto it as `PathBuf::push` does for a relative
/// `name`: a `/` goes between them unless `home` is empty or ends with one.
pub open spec fn joined_path(home: Seq<char>, name: Seq<char>) -> Seq<char> {
    if home.len() == 0 || home.last() == '/' {
        home + name
    } else {
        home + seq!['/'] + name
    }
}

/// The settings path begins with the home directory and ends with the file
/// name, with one `/` between them exactly when the home directory is not
/// empty and does not end with one already.
pub proof fn law_settings_path(home: Seq<char>, name: Seq<char>)
    ensures
        starts_with(joined_path(home, name), home),
        joined_path(home, name).skip(joined_path(home, name).len() - name.len()) == name,
        joined_path(home, name).len() == home.len() + name.len() + (if home.len() > 0 && home.last()
            != '/' {
            1int
        } else {
            0int
        }),
        home.len() > 0 && home.last() != '/' ==> joined_path(home, name)[home.len() as int] == '/',
{
    let r = joined_path(home, name);
    assert(r.subrange(0, home.len() as int) =~= home);
    assert(r.skip(r.len() - name.len()) =~= name);
}

/// The path of the settings file in the home directory `home`.
pub fn config_file_path(home: &str) -> (r: String)
    ensures
        r@ == joined_path(home@, CONFIG_FILE_NAME@),
{
    let h = chars_of(home);
    let mut r = String::new();
    push_str(&mut r, home);
    if h.len() > 0 && h[h.len() - 1] != '/' {
        push_str(&mut r, "/");
        proof {
            reveal_strlit("/");
            assert("/"@ =~= seq!['/']);
        }
    }
    push_str(&mut r, CONFIG_FILE_NAME);
    r
}

} // verus!
