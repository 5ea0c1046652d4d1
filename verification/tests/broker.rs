use rudimento::backend::drm::{DRMBackendError, ErrorClass};
use rudimento::launcher::Launcher;
use rudimento::launcher::logind::{
    is_character_device, is_type, major, minor, with_nonblocking, BrokerState, Call, ConnectStep,
    FileStatus,
    LauncherError, LauncherErrorKind, LogindLauncher, Object, Phase, Session, Signal,
    TeardownStep, DESTINATION,
};
use rudimento::systemd::login::{
    pid_get_session, session_get_seat, session_get_vt, ErrorNumbers, QueryFailure,
};

fn session(id: &str, vt: u32) -> Session {
    Session { id: id.to_string(), seat: "seat0".to_string(), vt }
}

fn broker() -> LogindLauncher {
    LogindLauncher::new(Some(3), "".to_string(), false, session("c2", 3)).unwrap()
}

fn hold(launcher: &mut LogindLauncher, path: &str, fd: i32) {
    launcher.open(path).unwrap();
    assert_eq!(launcher.flags_set(path, fd, 0).unwrap(), fd);
}

fn expect_refusal<T: std::fmt::Debug>(
    r: Result<T, LauncherError>,
    kind: LauncherErrorKind,
    message: &str,
) {
    let e = r.unwrap_err();
    assert_eq!(e.kind(), kind);
    assert_eq!(e.message(), message);
}

#[test]
fn second_open_is_refused_while_a_device_is_held() {
    let mut launcher = broker();
    hold(&mut launcher, "/dev/dri/card0", 5);
    expect_refusal(
        launcher.open("/dev/dri/card1"),
        LauncherErrorKind::AlreadyOpen,
        "Device /dev/dri/card0 already open",
    );
    assert_eq!(launcher.device_path(), Some("/dev/dri/card0"));
    expect_refusal(
        launcher.open("/dev/dri/card0"),
        LauncherErrorKind::AlreadyOpen,
        "Device /dev/dri/card0 already open",
    );
    expect_refusal(
        launcher.flags_set("/dev/dri/card1", 6, 0),
        LauncherErrorKind::AlreadyOpen,
        "Device /dev/dri/card0 already open",
    );
    assert_eq!(launcher.device_path(), Some("/dev/dri/card0"));
}

#[test]
fn open_succeeds_again_after_close() {
    let mut launcher = broker();
    hold(&mut launcher, "/dev/dri/card0", 5);
    assert_eq!(launcher.close(), Some("/dev/dri/card0".to_string()));
    assert_eq!(launcher.device_path(), None);
    hold(&mut launcher, "/dev/dri/card1", 6);
    assert_eq!(launcher.device_path(), Some("/dev/dri/card1"));
}

#[test]
fn close_without_device_gives_nothing() {
    let mut launcher = broker();
    assert_eq!(launcher.close(), None);
    assert_eq!(launcher.device_path(), None);
}

#[test]
fn path_is_tracked_only_when_the_descriptor_is_had() {
    let mut launcher = broker();
    launcher.connected(None).unwrap();
    launcher.open("/dev/dri/card0").unwrap();
    assert_eq!(launcher.device_path(), None);
    let card = FileStatus { mode: 0o020660, rdev: (226 << 8) | 0 };
    launcher.take_device("/dev/dri/card0", &card).unwrap();
    assert_eq!(launcher.device_path(), None);
    assert_eq!(launcher.device_taken(Some(5), Some(false)).unwrap(), (5, false));
    assert_eq!(launcher.device_path(), None);
    launcher.status_flags(libc::O_RDWR, libc::O_RDWR).unwrap();
    assert_eq!(launcher.device_path(), None);
    assert_eq!(launcher.state(), BrokerState::Controlled);
    assert_eq!(launcher.flags_set("/dev/dri/card0", 5, 0).unwrap(), 5);
    assert_eq!(launcher.device_path(), Some("/dev/dri/card0"));
    assert_eq!(launcher.state(), BrokerState::DeviceOpen);
}

#[test]
fn failed_open_tracks_nothing() {
    let mut launcher = broker();
    launcher.connected(None).unwrap();
    let regular = FileStatus { mode: 0o100644, rdev: 0 };

    launcher.open("/dev/dri/card0").unwrap();
    assert!(launcher.take_device("/dev/dri/card0", &regular).is_err());
    assert_eq!(launcher.device_path(), None);
    assert_eq!(launcher.state(), BrokerState::Controlled);

    launcher.open("/dev/dri/card0").unwrap();
    assert!(launcher.device_taken(None, Some(false)).is_err());
    assert_eq!(launcher.device_path(), None);

    launcher.open("/dev/dri/card0").unwrap();
    assert!(launcher.device_taken(Some(-1), Some(false)).is_err());
    assert!(launcher.device_taken(Some(5), None).is_err());
    assert_eq!(launcher.device_path(), None);

    launcher.open("/dev/dri/card0").unwrap();
    assert!(launcher.status_flags(-1, 0).is_err());
    assert_eq!(launcher.device_path(), None);

    launcher.open("/dev/dri/card0").unwrap();
    expect_refusal(
        launcher.flags_set("/dev/dri/card0", 5, -1),
        LauncherErrorKind::Descriptor,
        "Error setting file flags from device file descriptor",
    );
    assert_eq!(launcher.device_path(), None);
    assert_eq!(launcher.state(), BrokerState::Controlled);

    launcher.open("/dev/dri/card1").unwrap();
    assert_eq!(launcher.flags_set("/dev/dri/card1", 7, 0).unwrap(), 7);
    assert_eq!(launcher.device_path(), Some("/dev/dri/card1"));
}

#[test]
fn non_character_device_is_refused() {
    let launcher = broker();
    let regular = FileStatus { mode: 0o100644, rdev: 0 };
    expect_refusal(
        launcher.take_device("/etc/passwd", &regular),
        LauncherErrorKind::NotCharacterDevice,
        "file /etc/passwd is not character device",
    );
    let directory = FileStatus { mode: 0o040755, rdev: 0 };
    assert!(launcher.take_device("/dev/dri", &directory).is_err());
    let disk = FileStatus { mode: 0o060660, rdev: (8 << 8) | 1 };
    expect_refusal(
        launcher.take_device("/dev/sda1", &disk),
        LauncherErrorKind::NotCharacterDevice,
        "file /dev/sda1 is not character device",
    );
}

#[test]
fn character_device_is_taken_by_its_numbers() {
    let launcher = broker();
    let card = FileStatus { mode: 0o020660, rdev: (226 << 8) | 1 };
    assert_eq!(
        launcher.take_device("/dev/dri/card1", &card).unwrap(),
        Call::TakeDevice { major: 226, minor: 1 }
    );
    assert_eq!(launcher.release_device(&card), Call::ReleaseDevice { major: 226, minor: 1 });
}

#[test]
fn device_numbers_split_at_eight_bits() {
    assert_eq!(major(0), 0);
    assert_eq!(minor(0), 0);
    assert_eq!(major(0xe201), 0xe2);
    assert_eq!(minor(0xe201), 0x01);
    assert_eq!(minor(0x1ff), 0xff);
    assert_eq!(major(0x1ff), 1);
    assert_eq!(major(u64::MAX), 0xffff_ffff);
    assert_eq!(minor(u64::MAX), 0xff);
    assert_eq!(major(0x1_2345_6789_ab), 0x2345_6789);
}

#[test]
fn file_type_is_tested_by_mask() {
    assert!(is_type(0o020660, libc::S_IFCHR));
    assert!(!is_type(0o100644, libc::S_IFCHR));
    assert!(!is_type(0, 0xffff_ffff));
    assert!(is_type(0o060660, libc::S_IFCHR));
    assert!(is_type(0o020660, libc::S_IFMT));
}

#[test]
fn only_character_devices_are_character_devices() {
    assert!(is_character_device(libc::S_IFCHR));
    assert!(is_character_device(0o020000));
    assert!(is_character_device(0o020660));
    assert!(is_character_device(0o1020660));
    assert!(!is_character_device(libc::S_IFBLK | 0o660));
    assert!(!is_character_device(libc::S_IFREG | 0o644));
    assert!(!is_character_device(libc::S_IFDIR | 0o755));
    assert!(!is_character_device(libc::S_IFIFO));
    assert!(!is_character_device(libc::S_IFLNK));
    assert!(!is_character_device(libc::S_IFSOCK));
    assert!(!is_character_device(0o170000));
    assert!(!is_character_device(0));
}

#[test]
fn reply_without_descriptor_or_pause_flag_is_bad() {
    let launcher = broker();
    assert_eq!(launcher.device_taken(Some(5), Some(true)).unwrap(), (5, true));
    assert_eq!(launcher.device_taken(Some(0), Some(false)).unwrap(), (0, false));
    expect_refusal(
        launcher.device_taken(None, None),
        LauncherErrorKind::BadReply,
        "File descriptor not present in response message",
    );
    expect_refusal(
        launcher.device_taken(Some(-1), Some(false)),
        LauncherErrorKind::BadReply,
        "File desciptor invalid",
    );
    expect_refusal(
        launcher.device_taken(Some(-1), None),
        LauncherErrorKind::BadReply,
        "File desciptor invalid",
    );
    expect_refusal(
        launcher.device_taken(Some(5), None),
        LauncherErrorKind::BadReply,
        "Paused boolean value not present in response message",
    );
}

#[test]
fn only_the_nonblocking_bit_is_taken_over() {
    let bit = libc::O_NONBLOCK;
    assert_eq!(with_nonblocking(libc::O_RDWR, bit, bit), libc::O_RDWR | bit);
    assert_eq!(with_nonblocking(libc::O_RDWR, 0, bit), libc::O_RDWR);
    assert_eq!(with_nonblocking(libc::O_RDWR, libc::O_APPEND, bit), libc::O_RDWR);
    assert_eq!(with_nonblocking(libc::O_RDWR, libc::O_RDONLY, bit), libc::O_RDWR);
    assert_eq!(with_nonblocking(libc::O_RDWR | bit, 0, bit), libc::O_RDWR | bit);
    assert_eq!(with_nonblocking(2, 0x804, 0x800), 0x802);
    assert_eq!(with_nonblocking(2, 0x004, 0x800), 2);
}

#[test]
fn status_flags_use_the_systems_bit() {
    let launcher = broker();
    assert_eq!(
        launcher.status_flags(libc::O_RDWR, libc::O_NONBLOCK).unwrap(),
        libc::O_RDWR | libc::O_NONBLOCK
    );
    assert_eq!(launcher.status_flags(libc::O_RDWR, libc::O_RDWR).unwrap(), libc::O_RDWR);
    assert_eq!(launcher.status_flags(0, 0).unwrap(), 0);
    expect_refusal(
        launcher.status_flags(-1, libc::O_NONBLOCK),
        LauncherErrorKind::Descriptor,
        "Error reading file flags from device file descriptor",
    );
}

#[test]
fn flag_setting_ends_open() {
    let mut launcher = broker();
    expect_refusal(
        launcher.flags_set("/dev/dri/card0", 9, -1),
        LauncherErrorKind::Descriptor,
        "Error setting file flags from device file descriptor",
    );
    assert_eq!(launcher.device_path(), None);
    assert_eq!(launcher.flags_set("/dev/dri/card0", 9, 0).unwrap(), 9);
    assert_eq!(launcher.device_path(), Some("/dev/dri/card0"));
    expect_refusal(
        launcher.flags_set("/dev/dri/card0", 9, -1),
        LauncherErrorKind::Descriptor,
        "Error setting file flags from device file descriptor",
    );
    assert_eq!(launcher.device_path(), Some("/dev/dri/card0"));
}

#[test]
fn requested_vt_must_be_the_sessions() {
    expect_refusal(
        LogindLauncher::new(Some(3), "".to_string(), false, session("c2", 7)),
        LauncherErrorKind::VtMismatch,
        "logind: requested VT --tty=3 differs from real session VT 7",
    );
    let launcher = LogindLauncher::new(None, "".to_string(), true, session("c2", 7)).unwrap();
    assert_eq!(launcher.vt(), 7);
    assert_eq!(launcher.phase(), Phase::Unconnected);
    assert_eq!(launcher.device_path(), None);
    let launcher = LogindLauncher::new(Some(0), "".to_string(), true, session("c2", 0)).unwrap();
    assert_eq!(launcher.vt(), 0);
}

#[test]
fn objects_have_their_paths() {
    let launcher = broker();
    assert_eq!(launcher.object_path(Object::Session), "/org/freedesktop/login1/session/c2");
    assert_eq!(launcher.object_path(Object::Manager), "/org/freedesktop/login1");
    assert_eq!(launcher.object_path(Object::Seat), "/org/freedesktop/login1/seat/self");
    assert_eq!(DESTINATION, "org.freedesktop.login1");
}

#[test]
fn connecting_subscribes_then_takes_control_then_activates() {
    let launcher = broker();
    assert_eq!(
        launcher.connect(),
        vec![
            ConnectStep::Subscribe(Signal::SessionRemoved),
            ConnectStep::Subscribe(Signal::PauseDevice),
            ConnectStep::Subscribe(Signal::ResumeDevice),
            ConnectStep::Subscribe(Signal::PropertiesChanged),
            ConnectStep::Invoke(Call::TakeControl { force: false }),
            ConnectStep::Invoke(Call::Activate),
        ]
    );
}

#[test]
fn match_rules_name_sender_interface_member_and_path() {
    let launcher = broker();
    assert_eq!(
        launcher.match_rule(Signal::SessionRemoved),
        "type='signal', sender='org.freedesktop.login1', interface='org.freedesktop.login1.Manager', member='SessionRemoved', path='/org/freedesktop/login1'"
    );
    assert_eq!(
        launcher.match_rule(Signal::PauseDevice),
        "type='signal', sender='org.freedesktop.login1', interface='org.freedesktop.login1.Session', member='PauseDevice', path='/org/freedesktop/login1/session/c2'"
    );
    assert_eq!(
        launcher.match_rule(Signal::ResumeDevice),
        "type='signal', sender='org.freedesktop.login1', interface='org.freedesktop.login1.Session', member='ResumeDevice', path='/org/freedesktop/login1/session/c2'"
    );
    assert_eq!(
        launcher.match_rule(Signal::PropertiesChanged),
        "type='signal', sender='org.freedesktop.login1', interface='org.freedesktop.DBus.Properties', member='PropertiesChanged', path='/org/freedesktop/login1/session/c2'"
    );
}

#[test]
fn calls_know_their_interface_and_object() {
    let calls = [
        (Call::TakeControl { force: false }, "TakeControl", true),
        (Call::ReleaseControl, "ReleaseControl", false),
        (Call::Activate, "Activate", false),
        (Call::TakeDevice { major: 226, minor: 0 }, "TakeDevice", true),
        (Call::ReleaseDevice { major: 226, minor: 0 }, "ReleaseDevice", false),
    ];
    for (call, member, waits) in calls {
        assert_eq!(call.member(), member);
        assert_eq!(call.interface(), "org.freedesktop.login1.Session");
        assert_eq!(call.object(), Object::Session);
        assert_eq!(call.awaits_reply(), waits);
    }
    let switch = Call::SwitchTo { vt: 3 };
    assert_eq!(switch.member(), "SwitchTo");
    assert_eq!(switch.interface(), "org.freedesktop.login1.Seat");
    assert_eq!(switch.object(), Object::Seat);
    assert!(!switch.awaits_reply());
    assert_eq!(Signal::SessionRemoved.object(), Object::Manager);
    assert_eq!(Signal::PauseDevice.object(), Object::Session);
    assert_eq!(Signal::PropertiesChanged.interface(), "org.freedesktop.DBus.Properties");
    assert_eq!(Signal::ResumeDevice.member(), "ResumeDevice");
}

#[test]
fn control_is_had_only_when_every_step_went_through() {
    let mut launcher = broker();
    expect_refusal(
        launcher.connected(Some((ConnectStep::Subscribe(Signal::PauseDevice), "no bus"))),
        LauncherErrorKind::Transport,
        "cannot dbus match signal \"PauseDevice\" no bus",
    );
    assert_eq!(launcher.phase(), Phase::Unconnected);
    expect_refusal(
        launcher.connected(Some((ConnectStep::Invoke(Call::TakeControl { force: false }), "denied"))),
        LauncherErrorKind::Transport,
        "Error sending message \"TakeControl\": denied",
    );
    assert_eq!(launcher.phase(), Phase::Unconnected);
    launcher.connected(None).unwrap();
    assert_eq!(launcher.phase(), Phase::Controlled);
}

#[test]
fn failed_call_names_the_method() {
    let e = LauncherError::call_failed(Call::TakeDevice { major: 226, minor: 0 }, "timeout");
    assert_eq!(e.kind(), LauncherErrorKind::Transport);
    assert_eq!(e.message(), "Error sending message \"TakeDevice\": timeout");
    let e = LauncherError::step_failed(ConnectStep::Invoke(Call::Activate), "gone");
    assert_eq!(e.message(), "Error sending message \"Activate\"");
    let e = LauncherError::call_failed(Call::ReleaseControl, "gone");
    assert_eq!(e.message(), "Error sending message \"ReleaseControl\"");
    let e = LauncherError::call_failed(Call::TakeControl { force: false }, "gone");
    assert_eq!(e.message(), "Error sending message \"TakeControl\": gone");
}

#[test]
fn broker_goes_through_its_states() {
    let mut launcher = broker();
    assert_eq!(launcher.state(), BrokerState::Unconnected);
    launcher.connected(None).unwrap();
    assert_eq!(launcher.state(), BrokerState::Controlled);
    launcher.open("/dev/dri/card0").unwrap();
    assert_eq!(launcher.state(), BrokerState::Controlled);
    launcher.flags_set("/dev/dri/card0", 5, 0).unwrap();
    assert_eq!(launcher.state(), BrokerState::DeviceOpen);
    assert!(launcher.open("/dev/dri/card1").is_err());
    assert_eq!(launcher.state(), BrokerState::DeviceOpen);
    launcher.close();
    assert_eq!(launcher.state(), BrokerState::Controlled);
    hold(&mut launcher, "/dev/dri/card1", 6);
    launcher.teardown();
    assert_eq!(launcher.state(), BrokerState::Released);
}

#[test]
fn switching_goes_to_the_sessions_vt() {
    assert_eq!(broker().activate_vt(), Call::SwitchTo { vt: 3 });
}

#[test]
fn teardown_releases_control_and_then_the_device() {
    let mut launcher = broker();
    launcher.connected(None).unwrap();
    hold(&mut launcher, "/dev/dri/card0", 5);
    let steps = launcher.teardown();
    assert_eq!(steps.len(), 2);
    assert!(matches!(steps[0], TeardownStep::Invoke(Call::ReleaseControl)));
    match &steps[1] {
        TeardownStep::ReleaseDevice(path) => assert_eq!(path, "/dev/dri/card0"),
        other => panic!("unexpected step {:?}", other),
    }
    assert_eq!(launcher.phase(), Phase::Released);
    assert_eq!(launcher.device_path(), None);
    let steps = launcher.teardown();
    assert_eq!(steps.len(), 1);
    assert!(matches!(steps[0], TeardownStep::Invoke(Call::ReleaseControl)));
}

#[test]
fn broker_failures_have_their_class() {
    let mut launcher = broker();
    hold(&mut launcher, "/dev/dri/card0", 5);
    let e = launcher.open("/dev/dri/card1").unwrap_err();
    let b = DRMBackendError::from_launcher(&e);
    assert_eq!(b.class(), ErrorClass::AlreadyOpen);
    assert_eq!(b.description(), "Device /dev/dri/card0 already open");
    let e = LauncherError::call_failed(Call::Activate, "gone");
    assert_eq!(DRMBackendError::from_launcher(&e).class(), ErrorClass::TransportError);
    let e = launcher.status_flags(-1, 0).unwrap_err();
    assert_eq!(DRMBackendError::from_launcher(&e).class(), ErrorClass::InitializationError);
}

#[test]
fn session_queries_explain_their_failure() {
    assert_eq!(pid_get_session(Ok("c2".to_string())).unwrap(), "c2");
    assert_eq!(
        pid_get_session(Err(QueryFailure::NoSuchProcess)).unwrap_err(),
        "logind: failed to get session from pid. The specified PID does not refer to a running process."
    );
    assert_eq!(
        pid_get_session(Err(QueryFailure::BadDescriptor)).unwrap_err(),
        "logind: failed to get session from pid. The specified socket file descriptor was invalid."
    );
    assert_eq!(
        pid_get_session(Err(QueryFailure::NoData)).unwrap_err(),
        "logind: failed to get session from pid. The given field is not specified for the described process or peer."
    );
    assert_eq!(
        pid_get_session(Err(QueryFailure::InvalidArgument)).unwrap_err(),
        "logind: failed to get session from pid. An input parameter was invalid (out of range, or NULL, where that is not accepted)."
    );
    assert_eq!(
        pid_get_session(Err(QueryFailure::OutOfMemory)).unwrap_err(),
        "logind: failed to get session from pid. Memory allocation failed."
    );
    assert_eq!(
        pid_get_session(Err(QueryFailure::NoSuchSession)).unwrap_err(),
        "logind: failed to get session from pid. Unknown error."
    );
    assert_eq!(
        pid_get_session(Err(QueryFailure::Other)).unwrap_err(),
        "logind: failed to get session from pid. Unknown error."
    );
}

#[test]
fn seat_queries_explain_their_failure() {
    assert_eq!(session_get_seat(Ok("seat0".to_string())).unwrap(), "seat0");
    assert_eq!(
        session_get_seat(Err(QueryFailure::NoSuchSession)).unwrap_err(),
        "logind: failed to get session seat. The specified session does not exist."
    );
    assert_eq!(
        session_get_seat(Err(QueryFailure::NoData)).unwrap_err(),
        "logind: failed to get session seat. The given field is not specified for the described session."
    );
    assert_eq!(
        session_get_seat(Err(QueryFailure::NoSuchProcess)).unwrap_err(),
        "logind: failed to get session seat. Unknown error."
    );
    assert_eq!(
        session_get_seat(Err(QueryFailure::OutOfMemory)).unwrap_err(),
        "logind: failed to get session seat. Memory allocation failed."
    );
}

#[test]
fn session_without_vt_is_refused() {
    assert_eq!(session_get_vt(Some(3)).unwrap(), 3);
    assert_eq!(session_get_vt(None).unwrap_err(), "logind: session not running on a VT");
}

fn reopen<L: Launcher>(launcher: &mut L, first: &str, second: &str) -> (bool, bool, Option<String>, bool) {
    let a = launcher.open(first).is_ok() && launcher.flags_set(first, 5, 0).is_ok();
    let b = launcher.open(second).is_ok();
    let closed = launcher.close();
    let c = launcher.open(second).is_ok() && launcher.flags_set(second, 6, 0).is_ok();
    (a, b, closed, c)
}

#[test]
fn any_broker_manages_one_device_at_a_time() {
    let mut launcher = broker();
    assert_eq!(Launcher::connect(&launcher).len(), 6);
    assert_eq!(
        reopen(&mut launcher, "/dev/dri/card0", "/dev/dri/card1"),
        (true, false, Some("/dev/dri/card0".to_string()), true)
    );
    assert_eq!(Launcher::activate_vt(&launcher), Call::SwitchTo { vt: 3 });
    Launcher::restore(&launcher);
    assert_eq!(launcher.device_path(), Some("/dev/dri/card1"));
}

#[test]
fn error_numbers_are_the_systems() {
    let numbers = ErrorNumbers::system();
    assert_eq!(
        numbers,
        ErrorNumbers {
            no_such_process: libc::ESRCH,
            bad_descriptor: libc::EBADF,
            no_data: libc::ENODATA,
            invalid_argument: libc::EINVAL,
            out_of_memory: libc::ENOMEM,
            no_such_session: libc::ENXIO,
        }
    );
    assert_eq!(numbers.query_failure(-libc::ESRCH), QueryFailure::NoSuchProcess);
    assert_eq!(numbers.query_failure(-libc::EBADF), QueryFailure::BadDescriptor);
    assert_eq!(numbers.query_failure(-libc::ENODATA), QueryFailure::NoData);
    assert_eq!(numbers.query_failure(-libc::EINVAL), QueryFailure::InvalidArgument);
    assert_eq!(numbers.query_failure(-libc::ENOMEM), QueryFailure::OutOfMemory);
    assert_eq!(numbers.query_failure(-libc::ENXIO), QueryFailure::NoSuchSession);
    assert_eq!(numbers.query_failure(-libc::EPERM), QueryFailure::Other);
    assert_eq!(numbers.query_failure(libc::ESRCH), QueryFailure::Other);
    assert_eq!(numbers.query_failure(0), QueryFailure::Other);
    assert_eq!(numbers.query_failure(i32::MIN), QueryFailure::Other);
}

#[test]
fn statuses_are_told_apart_by_the_numbers_given() {
    let numbers = ErrorNumbers {
        no_such_process: 71,
        bad_descriptor: 8,
        no_data: 116,
        invalid_argument: 28,
        out_of_memory: 48,
        no_such_session: 60,
    };
    assert_eq!(numbers.query_failure(-71), QueryFailure::NoSuchProcess);
    assert_eq!(numbers.query_failure(-8), QueryFailure::BadDescriptor);
    assert_eq!(numbers.query_failure(-116), QueryFailure::NoData);
    assert_eq!(numbers.query_failure(-28), QueryFailure::InvalidArgument);
    assert_eq!(numbers.query_failure(-48), QueryFailure::OutOfMemory);
    assert_eq!(numbers.query_failure(-60), QueryFailure::NoSuchSession);
    assert_eq!(numbers.query_failure(-3), QueryFailure::Other);
    assert_eq!(numbers.query_failure(-61), QueryFailure::Other);
}
