//! Utilities for finding PulseAudio paths.
//!
//! The environment and the file system are looked at elsewhere. In here is decided what to make
//! of what was found there.

use vstd::prelude::*;

verus! {

/// Where the PulseAudio runtime directory is. This is the directory that contains the server's
/// Unix socket.
#[derive(Clone, Copy, Debug, PartialEq, Eq, Structural)]
pub enum RuntimeDir {
    /// The directory that `PULSE_RUNTIME_PATH` names.
    PulseRuntimePath,
    /// The directory `pulse` in the directory that `XDG_RUNTIME_DIR` names.
    XdgRuntimeDir,
    /// The directory `.pulse` in the home directory of the user.
    Home,
}

/// Where the configuration of PulseAudio is.
#[derive(Clone, Copy, Debug, PartialEq, Eq, Structural)]
pub enum ConfigHomeDir {
    /// The directory `pulse` in the directory that `XDG_CONFIG_HOME` names.
    XdgConfigHome,
    /// The directory `.config/pulse` in the home directory of the user.
    Home,
}

/// Which file holds the authentication cookie.
#[derive(Clone, Copy, Debug, PartialEq, Eq, Structural)]
pub enum CookiePath {
    /// The file `cookie` in the configuration directory.
    Config,
    /// The file `.pulse-cookie` in the home directory of the user.
    HomeFallback,
}

/// The name of the cookie file in the configuration directory.
pub const COOKIE_NAME: &'static str = "cookie";

/// The name of the cookie file in the home directory.
pub const COOKIE_NAME_FALLBACK: &'static str = ".pulse-cookie";

/// The name of the socket of the server in the runtime directory.
pub const SOCKET_NAME: &'static str = "native";

/// Locates the PulseAudio runtime directory, given which of `PULSE_RUNTIME_PATH` and
/// `XDG_RUNTIME_DIR` are set.
pub fn runtime_dir(pulse_runtime_path: bool, xdg_runtime_dir: bool) -> (dir: RuntimeDir)
    ensures
        dir == if pulse_runtime_path {
            RuntimeDir::PulseRuntimePath
        } else if xdg_runtime_dir {
            RuntimeDir::XdgRuntimeDir
        } else {
            RuntimeDir::Home
        },
{
    if pulse_runtime_path {
        RuntimeDir::PulseRuntimePath
    } else if xdg_runtime_dir {
        RuntimeDir::XdgRuntimeDir
    } else {
        RuntimeDir::Home
    }
}

/// Locates the configuration directory, given whether `XDG_CONFIG_HOME` is set.
pub fn config_home_dir(xdg_config_home: bool) -> (dir: ConfigHomeDir)
    ensures
        dir == if xdg_config_home {
            ConfigHomeDir::XdgConfigHome
        } else {
            ConfigHomeDir::Home
        },
{
    if xdg_config_home {
        ConfigHomeDir::XdgConfigHome
    } else {
        ConfigHomeDir::Home
    }
}

/// Chooses the cookie file, given which of the two files exist: the one in the configuration
/// directory if it exists, else the one in the home directory if that exists, else the one in the
/// configuration directory, which is then to be created.
pub fn cookie_path(config_cookie_exists: bool, home_cookie_exists: bool) -> (path: CookiePath)
    ensures
        path == if !config_cookie_exists && home_cookie_exists {
            CookiePath::HomeFallback
        } else {
            CookiePath::Config
        },
{
    if config_cookie_exists {
        return CookiePath::Config;
    }
    if home_cookie_exists {
        return CookiePath::HomeFallback;
    }
    // return the one in the configuration directory anyways and have the application create it
    CookiePath::Config
}

} // verus!
