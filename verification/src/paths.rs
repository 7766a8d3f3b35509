//! Path resolution: from the platform's configuration root to the
//! configuration file and the trash directory. No side effects.

use vstd::prelude::*;
use vstd::string::*;
use crate::config::FxError;

verus! {

/// The two locations the subsystem uses, both under `<root>/felix`.
#[derive(Debug, Clone, PartialEq)]
pub struct ConfigPaths {
    pub config_file: String,
    pub trash_dir: String,
}

pub open spec fn spec_config_file_path(root: Seq<char>) -> Seq<char> {
    root + "/felix/config.toml"@
}

pub open spec fn spec_trash_dir_path(root: Seq<char>) -> Seq<char> {
    root + "/felix/trash"@
}

/// Resolves both paths from the platform's configuration root, handed
/// in by the caller. Where no root can be determined there is no
/// sensible fallback: the result is `Environment`, which the process
/// treats as fatal.
pub fn resolve_paths(config_root: Option<String>) -> (r: Result<ConfigPaths, FxError>)
    ensures
        match config_root {
            Option::Some(root) => match r {
                Ok(p) => p.config_file@ == spec_config_file_path(root@) && p.trash_dir@
                    == spec_trash_dir_path(root@),
                Err(_) => false,
            },
            Option::None => r == Err::<ConfigPaths, FxError>(FxError::Environment),
        },
{
    match config_root {
        Option::Some(root) => {
            let config_file = root.clone().concat("/felix/config.toml");
            let trash_dir = root.concat("/felix/trash");
            Ok(ConfigPaths { config_file, trash_dir })
        },
        Option::None => Err(FxError::Environment),
    }
}

} // verus!
