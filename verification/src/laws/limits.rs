//! The numbers and names that are fixed, and how they fit together.

use crate::backend::portal::{
    PORTAL_INHIBIT_IFACE, PORTAL_REQUEST_IFACE, PORTAL_ROOT_PATH, PORTAL_SERVICE,
};
use crate::backend::windows::{
    ES_CONTINUOUS, ES_DISPLAY_REQUIRED, ES_SYSTEM_REQUIRED, POWER_REQUEST_CONTEXT_VERSION,
};
use crate::backend::{gnome, kde, logind, screensaver};
use crate::daemon::DAEMON_SUBCOMMAND;
use crate::daemon::client::{DETACH_FLAGS, STARTUP_POLL_INTERVAL_MS, STARTUP_POLL_TIMEOUT_MS};
use crate::doctor::{ERROR_SUCCESS, REG_DWORD, REG_SZ, VERSION_KEY};
use crate::ipc::NEWLINE;
use crate::paths::PRIVATE_MODE;
use crate::platform::linux::{CLIENT_IO_TIMEOUT_SECS, SERVER_IO_TIMEOUT_SECS, SOCKET_MODE};
use crate::platform::windows::{
    CONNECT_BUSY_RETRY_MS, CONNECT_BUSY_SLOT_MS, DEFAULT_TIMEOUT, IN_BUFFER, OUT_BUFFER, PIPE_PATH,
    PIPE_READMODE_BYTE, PIPE_TYPE_BYTE, SERVER_IO_TIMEOUT_MS,
};
use vstd::prelude::*;

verus! {

/// How long is waited: a client outlasts the daemon's patience with a silent client,
/// both platforms' daemons have the same patience, a start and a busy pipe get two
/// seconds each, and a wait is made of many looks.
pub proof fn waits_fit_together()
    ensures
        SERVER_IO_TIMEOUT_SECS == 3,
        CLIENT_IO_TIMEOUT_SECS == 5,
        SERVER_IO_TIMEOUT_MS == 1000 * SERVER_IO_TIMEOUT_SECS,
        STARTUP_POLL_TIMEOUT_MS == 2000,
        STARTUP_POLL_INTERVAL_MS == 25,
        CONNECT_BUSY_RETRY_MS == 2000,
        CONNECT_BUSY_SLOT_MS == 50,
        DEFAULT_TIMEOUT == 0,
{
}

/// What only its owner may use is closed to everyone else.
pub proof fn private_means_the_owner_alone()
    ensures
        PRIVATE_MODE == 0o700,
        SOCKET_MODE == 0o600,
        PRIVATE_MODE & 0o077 == 0,
        SOCKET_MODE & 0o077 == 0,
{
    assert(0o700u32 & 0o077u32 == 0) by (bit_vector);
    assert(0o600u32 & 0o077u32 == 0) by (bit_vector);
}

/// The numbers that the systems know things by.
pub proof fn the_systems_numbers()
    ensures
        ES_CONTINUOUS == 0x8000_0000,
        ES_SYSTEM_REQUIRED == 1,
        ES_DISPLAY_REQUIRED == 2,
        POWER_REQUEST_CONTEXT_VERSION == 0,
        ERROR_SUCCESS == 0,
        REG_SZ == 1,
        REG_DWORD == 4,
        NEWLINE == 10,
        OUT_BUFFER == 4096,
        IN_BUFFER == 4096,
        PIPE_TYPE_BYTE == 0,
        PIPE_READMODE_BYTE == 0,
        DETACH_FLAGS == 0x0800_0208,
{
    assert(0x0000_0008u32 | 0x0000_0200u32 | 0x0800_0000u32 == 0x0800_0208u32) by (bit_vector);
}

/// The names that the other side knows: of services, of the pipe, of the registry key
/// and of the daemon's own command.
pub proof fn the_names_on_the_other_side()
    ensures
        logind::SERVICE@ == "org.freedesktop.login1"@,
        logind::PATH@ == "/org/freedesktop/login1"@,
        logind::INTERFACE@ == "org.freedesktop.login1.Manager"@,
        logind::BUS_NAME@ == "org.freedesktop.DBus"@,
        PORTAL_SERVICE@ == "org.freedesktop.portal.Desktop"@,
        PORTAL_ROOT_PATH@ == "/org/freedesktop/portal/desktop"@,
        PORTAL_INHIBIT_IFACE@ == "org.freedesktop.portal.Inhibit"@,
        PORTAL_REQUEST_IFACE@ == "org.freedesktop.portal.Request"@,
        gnome::DEST@ == "org.gnome.SessionManager"@,
        kde::DEST@ == "org.kde.Solid.PowerManagement.PolicyAgent"@,
        screensaver::DEST@ == "org.freedesktop.ScreenSaver"@,
        PIPE_PATH@ == "\\\\.\\pipe\\oxiwake"@,
        VERSION_KEY@ == "SOFTWARE\\Microsoft\\Windows NT\\CurrentVersion"@,
        DAEMON_SUBCOMMAND@ == "__daemon"@,
{
}

} // verus!
