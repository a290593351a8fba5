//! Path derivations: the backup path of a source file, and the
//! platform-conventional default location of the configuration file.

use vstd::prelude::*;
use vstd::string::StringExecFns;

verus! {

/// The path at which the backup copy of a source file lives. It is fully
/// determined by the source path: no versioning, no collision avoidance.
pub open spec fn backup_path_of(p: Seq<char>) -> Seq<char> {
    p + ".bak"@
}

/// Derives the backup path for a source path.
pub fn backup_path_for(path: &str) -> (r: String)
    ensures
        r@ == backup_path_of(path@),
{
    let mut r = path.to_owned();
    r.append(".bak");
    r
}

/// The backup path is never the source path itself: it is four characters
/// longer.
pub proof fn lemma_backup_path_ne(p: Seq<char>)
    ensures
        backup_path_of(p) != p,
        backup_path_of(p).len() == p.len() + 4,
{
    reveal_strlit(".bak");
}

/// The host operating system, as far as default-path resolution cares.
#[derive(Clone, Copy, PartialEq, Eq, Structural, Debug)]
pub enum Platform {
    MacOs,
    Linux,
    Windows,
    Other,
}

/// Where the configuration file lives by convention, given the host
/// operating system and the relevant environment values, or the message for
/// the caller when a required value is unset or the platform is unknown.
///
/// On macOS the home directory is required; on Linux the home directory is
/// required even when an explicit configuration base is set, since the base
/// defaults to a subdirectory of home; on Windows the application-data
/// directory is required.
pub open spec fn spec_default_config_path(
    platform: Platform,
    home: Option<Seq<char>>,
    xdg_config_home: Option<Seq<char>>,
    app_data: Option<Seq<char>>,
) -> Result<Seq<char>, Seq<char>> {
    match platform {
        Platform::MacOs => match home {
            Some(h) => Ok(h + "/.config/ghostty/config"@),
            None => Err("Could not determine home directory"@),
        },
        Platform::Linux => match home {
            Some(h) => {
                let base = match xdg_config_home {
                    Some(x) => x,
                    None => h + "/.config"@,
                };
                Ok(base + "/ghostty/config"@)
            },
            None => Err("Could not determine home directory"@),
        },
        Platform::Windows => match app_data {
            Some(a) => Ok(a + "\\ghostty\\config"@),
            None => Err("Could not determine AppData directory"@),
        },
        Platform::Other => Err("Unsupported platform"@),
    }
}

/// Resolves the platform-conventional default configuration path from the
/// host operating system and the environment values the caller looked up:
/// the home directory, the explicit configuration base directory honoured on
/// Linux, and the Windows application-data directory.
pub fn get_default_config_path(
    platform: Platform,
    home: Option<String>,
    xdg_config_home: Option<String>,
    app_data: Option<String>,
) -> (r: Result<String, String>)
    ensures
        ({
            let want = spec_default_config_path(
                platform,
                home.deep_view(),
                xdg_config_home.deep_view(),
                app_data.deep_view(),
            );
            match r {
                Ok(p) => want matches Ok(w) && p@ == w,
                Err(e) => want matches Err(w) && e@ == w,
            }
        }),
{
    match platform {
        Platform::MacOs => match home {
            Some(h) => {
                let mut p = h;
                p.append("/.config/ghostty/config");
                Ok(p)
            },
            None => Err("Could not determine home directory".to_owned()),
        },
        Platform::Linux => match home {
            Some(h) => {
                let mut base = match xdg_config_home {
                    Some(x) => x,
                    None => {
                        let mut b = h;
                        b.append("/.config");
                        b
                    },
                };
                base.append("/ghostty/config");
                Ok(base)
            },
            None => Err("Could not determine home directory".to_owned()),
        },
        Platform::Windows => match app_data {
            Some(a) => {
                let mut p = a;
                p.append("\\ghostty\\config");
                Ok(p)
            },
            None => Err("Could not determine AppData directory".to_owned()),
        },
        Platform::Other => Err("Unsupported platform".to_owned()),
    }
}

} // verus!
