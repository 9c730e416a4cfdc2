//! Where the control socket lives.
//!
//! An explicit path wins; then a non-empty `CHOSTTY_SOCKET`, then a non-empty
//! `CHOSTTY_SOCKET_PATH`; otherwise the mode's default. The environment is
//! read by the caller and handed in as plain values.
use vstd::prelude::*;
use crate::control::{opt_str_view, str_opt};
use crate::paths::{join, join_path};

verus! {

/// Whether a socket path is resolved for the installed runtime or for a debug build.
#[derive(Clone, Copy, Debug, PartialEq, Eq, Structural)]
pub enum SocketMode {
    Runtime,
    Debug,
}

/// The environment variables that decide the socket path.
pub struct SocketEnv {
    /// `CHOSTTY_SOCKET`
    pub chostty_socket: Option<String>,
    /// `CHOSTTY_SOCKET_PATH`
    pub chostty_socket_path: Option<String>,
    /// `XDG_RUNTIME_DIR`
    pub xdg_runtime_dir: Option<String>,
}

pub struct SocketEnvV {
    pub chostty_socket: Option<Seq<char>>,
    pub chostty_socket_path: Option<Seq<char>>,
    pub xdg_runtime_dir: Option<Seq<char>>,
}

impl View for SocketEnv {
    type V = SocketEnvV;

    open spec fn view(&self) -> SocketEnvV {
        SocketEnvV {
            chostty_socket: opt_str_view(self.chostty_socket),
            chostty_socket_path: opt_str_view(self.chostty_socket_path),
            xdg_runtime_dir: opt_str_view(self.xdg_runtime_dir),
        }
    }
}

/// A variable's value, counting an empty value as unset.
pub open spec fn non_empty(v: Option<Seq<char>>) -> Option<Seq<char>> {
    match v {
        Some(s) => if s.len() > 0 { Some(s) } else { None },
        None => None,
    }
}

/// The default socket of a mode: `$XDG_RUNTIME_DIR/chostty/chostty.sock` (else
/// `/tmp/chostty.sock`) at runtime, `/tmp/chostty-debug.sock` for debug builds.
pub open spec fn default_socket(mode: SocketMode, xdg_runtime_dir: Option<Seq<char>>) -> Seq<char> {
    match mode {
        SocketMode::Runtime => match non_empty(xdg_runtime_dir) {
            Some(dir) => join(join(dir, "chostty"@), "chostty.sock"@),
            None => "/tmp/chostty.sock"@,
        },
        SocketMode::Debug => "/tmp/chostty-debug.sock"@,
    }
}

/// The socket path that is used: see the module's documentation.
pub open spec fn resolved_socket(explicit: Option<Seq<char>>, mode: SocketMode, env: SocketEnvV) -> Seq<char> {
    match explicit {
        Some(p) => p,
        None => match non_empty(env.chostty_socket) {
            Some(p) => p,
            None => match non_empty(env.chostty_socket_path) {
                Some(p) => p,
                None => default_socket(mode, env.xdg_runtime_dir),
            },
        },
    }
}

fn non_empty_value(v: &Option<String>) -> (r: Option<String>)
    ensures
        opt_str_view(r) == non_empty(opt_str_view(*v)),
{
    match v {
        Some(s) => if s.unicode_len() > 0 { Some(s.clone()) } else { None },
        None => None,
    }
}

impl SocketMode {
    /// The default socket path of `mode`, given `XDG_RUNTIME_DIR`.
    pub fn default_for(mode: Self, xdg_runtime_dir: Option<&str>) -> (r: String)
        ensures
            r@ == default_socket(mode, str_opt(xdg_runtime_dir)),
    {
        match mode {
            SocketMode::Runtime => match xdg_runtime_dir {
                Some(dir) => if dir.unicode_len() > 0 {
                    let sub = join_path(dir, "chostty");
                    join_path(sub.as_str(), "chostty.sock")
                } else {
                    String::from_str("/tmp/chostty.sock")
                },
                None => String::from_str("/tmp/chostty.sock"),
            },
            SocketMode::Debug => String::from_str("/tmp/chostty-debug.sock"),
        }
    }
}

/// The socket path to use; see `resolved_socket`.
pub fn resolve_socket_path(explicit: Option<String>, mode: SocketMode, env: &SocketEnv) -> (r: String)
    ensures
        r@ == resolved_socket(opt_str_view(explicit), mode, env@),
{
    if let Some(path) = explicit {
        return path;
    }
    if let Some(path) = non_empty_value(&env.chostty_socket) {
        return path;
    }
    if let Some(path) = non_empty_value(&env.chostty_socket_path) {
        return path;
    }
    let xdg = match &env.xdg_runtime_dir {
        Some(d) => Some(d.as_str()),
        None => None,
    };
    SocketMode::default_for(mode, xdg)
}

/// An explicit path is used as given, whatever the environment holds.
pub proof fn law_explicit_path_wins(path: Seq<char>, mode: SocketMode, env: SocketEnvV)
    ensures
        resolved_socket(Some(path), mode, env) == path,
{
}

/// Without an explicit path, a non-empty `CHOSTTY_SOCKET` wins over
/// `CHOSTTY_SOCKET_PATH` and over the default.
pub proof fn law_socket_variable_precedes(mode: SocketMode, env: SocketEnvV)
    requires
        env.chostty_socket is Some,
        env.chostty_socket->0.len() > 0,
    ensures
        resolved_socket(None, mode, env) == env.chostty_socket->0,
{
}

/// With neither an explicit path nor a non-empty variable, the mode's default
/// is used.
pub proof fn law_default_when_unset(mode: SocketMode, env: SocketEnvV)
    requires
        non_empty(env.chostty_socket) is None,
        non_empty(env.chostty_socket_path) is None,
    ensures
        resolved_socket(None, mode, env) == default_socket(mode, env.xdg_runtime_dir),
{
}

} // verus!
