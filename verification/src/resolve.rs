//! Executable resolution: which command string to treat as the backend.
//!
//! Resolution consults, in order: an explicit override, the install location
//! persisted by the installer, and the default per-application virtual
//! environment, falling back to the bare command name. The two install
//! locations count only where the composed executable path exists as a file;
//! the shell probes that and hands the surviving paths in.

use vstd::prelude::*;

use crate::opt_str_view;
use crate::text::{join_spec, join_under, trim_spec, trim_str};

verus! {

/// The directory under a virtual environment that holds its executables.
pub open spec fn venv_bin_subdir(windows: bool) -> Seq<char> {
    if windows {
        "Scripts"@
    } else {
        "bin"@
    }
}

/// The backend executable's file name, with the platform's suffix convention.
pub open spec fn backend_exe_name(windows: bool) -> Seq<char> {
    if windows {
        "keyvox.exe"@
    } else {
        "keyvox"@
    }
}

/// The backend executable's path under an install directory:
/// `<dir>/env/<bin subdir>/<executable name>`.
pub open spec fn venv_exe_spec(dir: Seq<char>, windows: bool) -> Seq<char> {
    join_spec(
        join_spec(join_spec(dir, "env"@, windows), venv_bin_subdir(windows), windows),
        backend_exe_name(windows),
        windows,
    )
}

/// Composes the backend executable path beneath `dir`.
fn venv_exe_under(dir: &str, windows: bool) -> (r: String)
    ensures
        r@ == venv_exe_spec(dir@, windows),
{
    let p = join_under(dir, "env", windows);
    let bin_dir = if windows {
        "Scripts"
    } else {
        "bin"
    };
    let p = join_under(p.as_str(), bin_dir, windows);
    let exe = if windows {
        "keyvox.exe"
    } else {
        "keyvox"
    };
    join_under(p.as_str(), exe, windows)
}

/// The backend executable path recorded by a past installation: the persisted
/// install file's contents, trimmed, with the conventional virtual-environment
/// subpath beneath it. `None` where the file could not be read.
pub fn saved_install_keyvox_exe(install_file: Option<&str>, windows: bool) -> (r: Option<String>)
    ensures
        (install_file matches Some(c) ==> (r matches Some(p) && p@ == venv_exe_spec(
            trim_spec(c@),
            windows,
        ))),
        (install_file is None ==> r is None),
{
    match install_file {
        Option::Some(contents) => {
            let dir = trim_str(contents);
            Option::Some(venv_exe_under(dir.as_str(), windows))
        },
        Option::None => Option::None,
    }
}

/// The backend executable path under the default per-application data
/// directory's virtual environment. `None` where that directory is unknown.
pub fn default_venv_keyvox_exe(app_data_dir: Option<&str>, windows: bool) -> (r: Option<String>)
    ensures
        (app_data_dir matches Some(d) ==> (r matches Some(p) && p@ == venv_exe_spec(d@, windows))),
        (app_data_dir is None ==> r is None),
{
    match app_data_dir {
        Option::Some(dir) => Option::Some(venv_exe_under(dir, windows)),
        Option::None => Option::None,
    }
}

/// Resolution once the override is out: the saved install path where its
/// executable exists, else the default one where its executable exists, else
/// the bare command name.
pub open spec fn resolve_fallback_spec(saved: Option<Seq<char>>, dflt: Option<Seq<char>>) -> Seq<
    char,
> {
    match saved {
        Option::Some(s) => s,
        Option::None => match dflt {
            Option::Some(d) => d,
            Option::None => "keyvox"@,
        },
    }
}

/// The resolved command: the trimmed override where it is non-blank,
/// otherwise the first surviving install location, otherwise the bare name.
pub open spec fn resolve_spec(
    command: Option<Seq<char>>,
    saved: Option<Seq<char>>,
    dflt: Option<Seq<char>>,
) -> Seq<char> {
    match command {
        Option::Some(c) => if trim_spec(c).len() > 0 {
            trim_spec(c)
        } else {
            resolve_fallback_spec(saved, dflt)
        },
        Option::None => resolve_fallback_spec(saved, dflt),
    }
}

/// Resolves the backend command. `saved_exe` and `default_exe` are the
/// composed install-location executables, present only where the shell found
/// them to exist as files; resolution never fails and falls back to the bare
/// command name.
pub fn resolve_backend_command(
    command: Option<String>,
    saved_exe: Option<String>,
    default_exe: Option<String>,
) -> (r: String)
    ensures
        r@ == resolve_spec(
            opt_str_view(command),
            opt_str_view(saved_exe),
            opt_str_view(default_exe),
        ),
{
    if let Option::Some(c) = command {
        let t = trim_str(c.as_str());
        if t.as_str().unicode_len() > 0 {
            return t;
        }
    }
    match saved_exe {
        Option::Some(s) => s,
        Option::None => match default_exe {
            Option::Some(d) => d,
            Option::None => String::from_str("keyvox"),
        },
    }
}

/// Law: a non-blank override wins — whatever the probed install locations
/// hold, resolution returns exactly the trimmed override.
pub proof fn lemma_override_wins(
    command: Seq<char>,
    saved: Option<Seq<char>>,
    dflt: Option<Seq<char>>,
)
    requires
        trim_spec(command).len() > 0,
    ensures
        resolve_spec(Option::Some(command), saved, dflt) == trim_spec(command),
{
}

} // verus!
