use vstd::prelude::*;
use vstd::string::StringExecFns;

use crate::cards::opt_text_view;

verus! {

/// Where the store lives, resolved from the injected environment: an
/// explicit override wins; otherwise development builds use a
/// project-local path and production builds the platform's user-data
/// directory, falling back to the working directory when neither is
/// known.
pub open spec fn resolved_database_url(
    override_url: Option<Seq<char>>,
    dev_mode: bool,
    project_root: Option<Seq<char>>,
    app_data_dir: Option<Seq<char>>,
) -> Seq<char> {
    match override_url {
        Some(u) => u,
        None => if dev_mode {
            (match project_root {
                Some(p) => p,
                None => "."@,
            }) + "/db/word_cards.db"@
        } else {
            match app_data_dir {
                Some(d) => d + "/word_cards.db"@,
                None => "./word_cards.db"@,
            }
        },
    }
}

/// Resolves the location of the store file. The environment override,
/// build mode and candidate directories are read once by the host and
/// handed in as plain values.
pub fn resolve_database_url(
    override_url: Option<String>,
    dev_mode: bool,
    project_root: Option<String>,
    app_data_dir: Option<String>,
) -> (r: String)
    ensures
        r@ == resolved_database_url(
            opt_text_view(override_url),
            dev_mode,
            opt_text_view(project_root),
            opt_text_view(app_data_dir),
        ),
{
    match override_url {
        Some(u) => u,
        None => {
            if dev_mode {
                let root = match project_root {
                    Some(p) => p,
                    None => String::from_str("."),
                };
                root.concat("/db/word_cards.db")
            } else {
                match app_data_dir {
                    Some(d) => d.concat("/word_cards.db"),
                    None => String::from_str("./word_cards.db"),
                }
            }
        },
    }
}

} // verus!
