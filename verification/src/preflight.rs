//! The preflight answer: whether a start attempt would succeed, with a
//! machine-readable issue code and a human-readable message. A missing
//! executable is reported before an invalid port; the port must be at least
//! 1024.

use vstd::prelude::*;

use crate::opt_str_view;

verus! {

/// The answer of one preflight check.
pub struct BackendPreflight {
    pub ok: bool,
    pub backend_command: String,
    pub executable_found: bool,
    pub port_valid: bool,
    pub issue_code: Option<String>,
    pub message: String,
}

/// Whether the requested port may be used: the unprivileged range.
pub open spec fn port_valid_spec(port: u16) -> bool {
    port >= 1024
}

/// Whether preflight passes: the executable exists and the port is valid.
pub open spec fn preflight_ok_spec(executable_found: bool, port: u16) -> bool {
    executable_found && port >= 1024
}

/// The issue code of an answer: a missing executable is reported first, an
/// invalid port second, and a passing check carries none.
pub open spec fn issue_code_spec(executable_found: bool, port: u16) -> Option<Seq<char>> {
    if !executable_found {
        Option::Some("backend_command_not_found"@)
    } else if port < 1024 {
        Option::Some("invalid_port"@)
    } else {
        Option::None
    }
}

/// The message of an answer, matching its issue code.
pub open spec fn message_spec(executable_found: bool, port: u16) -> Seq<char> {
    if !executable_found {
        "Backend command not found. Add keyvox to PATH or set a full executable path in 'Backend Command'."@
    } else if port < 1024 {
        "Preferred port must be >= 1024."@
    } else {
        "Backend preflight passed."@
    }
}

/// Renders the preflight answer for the resolved command.
/// `executable_found` is the outcome of probing the command's candidate paths.
pub fn make_preflight(preferred_port: u16, backend_command: String, executable_found: bool) -> (r:
    BackendPreflight)
    ensures
        r.ok == preflight_ok_spec(executable_found, preferred_port),
        r.backend_command@ == backend_command@,
        r.executable_found == executable_found,
        r.port_valid == port_valid_spec(preferred_port),
        opt_str_view(r.issue_code) == issue_code_spec(executable_found, preferred_port),
        r.message@ == message_spec(executable_found, preferred_port),
{
    let port_valid = preferred_port >= 1024;
    if !executable_found {
        return BackendPreflight {
            ok: false,
            backend_command,
            executable_found,
            port_valid,
            issue_code: Option::Some(String::from_str("backend_command_not_found")),
            message: String::from_str(
                "Backend command not found. Add keyvox to PATH or set a full executable path in 'Backend Command'.",
            ),
        };
    }
    if !port_valid {
        return BackendPreflight {
            ok: false,
            backend_command,
            executable_found,
            port_valid,
            issue_code: Option::Some(String::from_str("invalid_port")),
            message: String::from_str("Preferred port must be >= 1024."),
        };
    }
    BackendPreflight {
        ok: true,
        backend_command,
        executable_found,
        port_valid,
        issue_code: Option::None,
        message: String::from_str("Backend preflight passed."),
    }
}

/// Law: a missing executable decides the answer first — the issue code is
/// `backend_command_not_found` whatever the port, valid or not.
pub proof fn lemma_missing_command_reported_first(port: u16)
    ensures
        issue_code_spec(false, port) == Option::Some("backend_command_not_found"@),
        !preflight_ok_spec(false, port),
{
}

/// Law: with the executable present, a port below 1024 yields the
/// `invalid_port` issue.
pub proof fn lemma_low_port_reported(port: u16)
    requires
        port < 1024,
    ensures
        issue_code_spec(true, port) == Option::Some("invalid_port"@),
        !preflight_ok_spec(true, port),
{
}

} // verus!
