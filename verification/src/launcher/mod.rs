//! The session broker: how control of a session and of its devices is asked
//! of the session manager.

pub mod logind;

use vstd::prelude::*;
use self::logind::{
    Call,
    ConnectStep,
    LauncherError,
    LauncherErrorKind,
    LogindLauncher,
    already_open_text,
    connect_steps,
    refused,
};

verus! {

/// What a session broker does, whatever it talks to. A broker manages one
/// device at a time: while it tracks one, it opens no other. It tracks a
/// device only once the device is open.
pub trait Launcher {
    /// The path of the device that the broker tracks.
    spec fn device(&self) -> Option<Seq<char>>;

    /// The virtual terminal of the broker's session.
    spec fn terminal(&self) -> u32;

    /// The steps of connecting, in the order in which they are taken.
    fn connect(&self) -> (steps: Vec<ConnectStep>)
        ensures
            steps@ == connect_steps(),
    ;

    /// Starts to open the device at `device_path`: refuses while a device
    /// is tracked, and lets the caller go on otherwise. Nothing is tracked
    /// yet.
    fn open(&mut self, device_path: &str) -> (r: Result<(), LauncherError>)
        ensures
            final(self).device() == old(self).device(),
            old(self).device() is None ==> r is Ok,
            old(self).device() is Some ==> refused(
                r,
                LauncherErrorKind::AlreadyOpen,
                already_open_text(old(self).device()->0),
            ),
    ;

    /// Ends an `open`, given the status of setting the flags of the
    /// descriptor `fd`: only where they were set, and no device is tracked
    /// yet, is the path tracked and the descriptor handed out.
    fn flags_set(&mut self, device_path: &str, fd: i32, status: i32) -> (r: Result<
        i32,
        LauncherError,
    >)
        ensures
            status >= 0 && old(self).device() is None ==> r == Ok::<i32, LauncherError>(fd)
                && final(self).device() == Some(device_path@),
            status < 0 || old(self).device() is Some ==> r is Err && final(self).device() == old(
                self,
            ).device(),
    ;

    /// Stops tracking the device, and returns its path for the caller to
    /// release the device with.
    fn close(&mut self) -> (path: Option<String>)
        ensures
            final(self).device() is None,
            match path {
                Some(p) => old(self).device() == Some(p@),
                None => old(self).device() is None,
            },
    ;

    /// The call that switches the seat to the session's virtual terminal.
    fn activate_vt(&self) -> (call: Call)
        ensures
            call == (Call::SwitchTo { vt: self.terminal() }),
    ;

    /// Puts back what the broker changed on the terminal: nothing so far.
    fn restore(&self);
}

impl Launcher for LogindLauncher {
    open spec fn device(&self) -> Option<Seq<char>> {
        self@.device_path
    }

    open spec fn terminal(&self) -> u32 {
        self@.vt
    }

    fn connect(&self) -> (steps: Vec<ConnectStep>) {
        LogindLauncher::connect(self)
    }

    fn open(&mut self, device_path: &str) -> (r: Result<(), LauncherError>) {
        LogindLauncher::open(self, device_path)
    }

    fn flags_set(&mut self, device_path: &str, fd: i32, status: i32) -> (r: Result<
        i32,
        LauncherError,
    >) {
        LogindLauncher::flags_set(self, device_path, fd, status)
    }

    fn close(&mut self) -> (path: Option<String>) {
        LogindLauncher::close(self)
    }

    fn activate_vt(&self) -> (call: Call) {
        LogindLauncher::activate_vt(self)
    }

    fn restore(&self) {
    }
}

} // verus!
