use rudimento::backend::drm::{
    cursor_dimension, clock_warning, find_primary_gpu, presentation_clock, Ancestor, Candidate,
    DRMBackend, DRMBackendError, DRMDevice, ErrorClass, Stage, DEFAULT_CURSOR_SIZE,
};
use rudimento::compositor::Compositor;
use rudimento::renderer::RendererKind;

fn ancestor(subsystem: Option<&str>, boot_vga: Option<&str>) -> Ancestor {
    Ancestor {
        subsystem: subsystem.map(|s| s.to_string()),
        boot_vga: boot_vga.map(|s| s.to_string()),
    }
}

fn gpu(seat: Option<&str>, ancestors: Vec<Ancestor>, devnode: Option<&str>) -> Candidate {
    Candidate {
        seat: seat.map(|s| s.to_string()),
        ancestors,
        devnode: devnode.map(|s| s.to_string()),
    }
}

fn boot_gpu(devnode: &str) -> Candidate {
    gpu(None, vec![ancestor(Some("pci"), Some("1"))], Some(devnode))
}

fn plain_gpu(devnode: &str) -> Candidate {
    gpu(None, vec![ancestor(Some("pci"), Some("0"))], Some(devnode))
}

fn expect_error(r: Result<String, DRMBackendError>, class: ErrorClass, description: &str) {
    match r {
        Ok(path) => panic!("unexpected device {}", path),
        Err(e) => {
            assert_eq!(e.class(), class);
            assert_eq!(e.description(), description);
        }
    }
}

#[test]
fn second_of_two_gpus_is_primary() {
    let devices = vec![plain_gpu("/dev/dri/card0"), boot_gpu("/dev/dri/card1")];
    assert_eq!(find_primary_gpu(&devices, "seat0").unwrap(), "/dev/dri/card1");
}

#[test]
fn primary_is_found_wherever_it_stands() {
    for place in 0..4 {
        let mut devices = Vec::new();
        for k in 0..4 {
            if k == place {
                devices.push(boot_gpu("/dev/dri/boot"));
            } else {
                devices.push(plain_gpu(&format!("/dev/dri/card{}", k)));
            }
        }
        assert_eq!(find_primary_gpu(&devices, "seat0").unwrap(), "/dev/dri/boot");
    }
}

#[test]
fn first_of_two_primaries_wins() {
    let devices = vec![boot_gpu("/dev/dri/card0"), boot_gpu("/dev/dri/card1")];
    assert_eq!(find_primary_gpu(&devices, "seat0").unwrap(), "/dev/dri/card0");
}

#[test]
fn devices_without_boot_vga_are_rejected() {
    let devices = vec![
        plain_gpu("/dev/dri/card0"),
        gpu(None, vec![ancestor(Some("pci"), None)], Some("/dev/dri/card1")),
        gpu(None, vec![ancestor(Some("usb"), Some("1"))], Some("/dev/dri/card2")),
        gpu(None, vec![], Some("/dev/dri/card3")),
    ];
    expect_error(find_primary_gpu(&devices, "seat0"), ErrorClass::NotFound, "No device found!");
}

#[test]
fn no_device_at_all_is_not_found() {
    expect_error(find_primary_gpu(&Vec::new(), "seat0"), ErrorClass::NotFound, "No device found!");
}

#[test]
fn only_the_nearest_pci_ancestor_counts() {
    let far = gpu(
        None,
        vec![ancestor(Some("pci"), Some("0")), ancestor(Some("pci"), Some("1"))],
        Some("/dev/dri/card0"),
    );
    expect_error(find_primary_gpu(&vec![far], "seat0"), ErrorClass::NotFound, "No device found!");
    let near = gpu(
        None,
        vec![
            ancestor(Some("drm"), None),
            ancestor(None, Some("1")),
            ancestor(Some("pci"), Some("1")),
            ancestor(Some("pci"), Some("0")),
        ],
        Some("/dev/dri/card0"),
    );
    assert_eq!(find_primary_gpu(&vec![near], "seat0").unwrap(), "/dev/dri/card0");
}

#[test]
fn boot_vga_must_be_exactly_one() {
    for value in ["", "0", "11", " 1", "1\n", "yes"] {
        let device = gpu(None, vec![ancestor(Some("pci"), Some(value))], Some("/dev/dri/card0"));
        assert!(find_primary_gpu(&vec![device], "seat0").is_err());
    }
}

#[test]
fn seat_defaults_to_seat0() {
    let devices = vec![boot_gpu("/dev/dri/card0")];
    assert_eq!(find_primary_gpu(&devices, "seat0").unwrap(), "/dev/dri/card0");
    expect_error(find_primary_gpu(&devices, "seat1"), ErrorClass::NotFound, "No device found!");
}

#[test]
fn devices_of_other_seats_are_skipped() {
    let devices = vec![
        gpu(Some("seat1"), vec![ancestor(Some("pci"), Some("1"))], Some("/dev/dri/card0")),
        gpu(Some("seat0"), vec![ancestor(Some("pci"), Some("1"))], Some("/dev/dri/card1")),
    ];
    assert_eq!(find_primary_gpu(&devices, "seat0").unwrap(), "/dev/dri/card1");
    assert_eq!(find_primary_gpu(&devices, "seat1").unwrap(), "/dev/dri/card0");
}

#[test]
fn primary_without_device_node_fails() {
    let devices = vec![
        gpu(None, vec![ancestor(Some("pci"), Some("1"))], None),
        boot_gpu("/dev/dri/card1"),
    ];
    expect_error(
        find_primary_gpu(&devices, "seat0"),
        ErrorClass::NotFound,
        "Error getting device devnode!",
    );
}

#[test]
fn enumeration_failure_keeps_the_enumerators_words() {
    let e = DRMBackendError::enumeration("udev is gone");
    assert_eq!(e.class(), ErrorClass::EnumerationError);
    assert_eq!(e.description(), "udev is gone");
}

#[test]
fn clock_follows_the_capability() {
    assert_eq!(presentation_clock(&Ok(1)), libc::CLOCK_MONOTONIC);
    assert_eq!(presentation_clock(&Ok(1)), 1);
    assert_eq!(presentation_clock(&Ok(0)), libc::CLOCK_REALTIME);
    assert_eq!(presentation_clock(&Ok(2)), 0);
    assert_eq!(presentation_clock(&Err(-22)), libc::CLOCK_REALTIME);
}

#[test]
fn clock_warning_only_on_failure() {
    assert_eq!(clock_warning(&Ok(1)), None);
    assert_eq!(clock_warning(&Ok(0)), None);
    assert_eq!(
        clock_warning(&Err(-22)),
        Some("drm get capabilities failed with return code -22".to_string())
    );
    assert_eq!(
        clock_warning(&Err(i32::MIN)),
        Some("drm get capabilities failed with return code -2147483648".to_string())
    );
}

#[test]
fn cursor_defaults_to_64() {
    assert_eq!(DEFAULT_CURSOR_SIZE, 64);
    assert_eq!(cursor_dimension(&Ok(256)), 256);
    assert_eq!(cursor_dimension(&Ok(0)), 0);
    assert_eq!(cursor_dimension(&Err(-1)), 64);
}

#[test]
fn device_keeps_descriptor_and_path() {
    let device = DRMDevice::new(7, "/dev/dri/card0".to_string());
    assert_eq!(device.rawfd(), 7);
    assert_eq!(device.dev_path(), "/dev/dri/card0");
}

#[test]
fn device_is_opened_for_reading_and_writing() {
    assert_eq!(DRMBackend::open_flags(), libc::O_RDWR);
    assert_eq!(DRMBackend::open_flags(), 2);
}

#[test]
fn only_the_stream_renderer_can_be_had() {
    assert_eq!(DRMBackend::init_egl_renderer(false, true).unwrap(), RendererKind::HardwareStream);
    let e = DRMBackend::init_egl_renderer(true, true).unwrap_err();
    assert_eq!(e.description(), "PixmanRenderer not supported yet");
    let e = DRMBackend::init_egl_renderer(true, false).unwrap_err();
    assert_eq!(e.description(), "PixmanRenderer not supported yet");
    let e = DRMBackend::init_egl_renderer(false, false).unwrap_err();
    assert_eq!(e.description(), "GBMRenderer not supported yet");
    assert_eq!(e.class(), ErrorClass::InitializationError);
}

#[test]
fn compositor_needs_a_working_clock() {
    let c = Compositor::new(1, 0).unwrap();
    assert_eq!(c.presentation_clock(), 1);
    assert_eq!(
        Compositor::new(1, -1).unwrap_err(),
        "Error retriving time, clock_id probably invalid"
    );
}

#[test]
fn startup_goes_through_every_stage_once() {
    let order = [
        Stage::Discover,
        Stage::Session,
        Stage::Connect,
        Stage::OpenDevice,
        Stage::ProbeClock,
        Stage::TestClock,
        Stage::ProbeCursor,
        Stage::Renderer,
        Stage::Ready,
    ];
    for k in 0..order.len() - 1 {
        assert_eq!(order[k].next(true), order[k + 1]);
    }
    assert_eq!(Stage::Ready.next(true), Stage::Ready);
    assert_eq!(Stage::Ready.next(false), Stage::Ready);
    assert_eq!(Stage::Failed.next(true), Stage::Failed);
    assert_eq!(Stage::Failed.next(false), Stage::Failed);
}

#[test]
fn only_advisory_stages_survive_failure() {
    assert_eq!(Stage::ProbeClock.next(false), Stage::TestClock);
    assert_eq!(Stage::ProbeCursor.next(false), Stage::Renderer);
    assert!(Stage::ProbeClock.advisory());
    assert!(Stage::ProbeCursor.advisory());
    for stage in [
        Stage::Discover,
        Stage::Session,
        Stage::Connect,
        Stage::OpenDevice,
        Stage::TestClock,
        Stage::Renderer,
    ] {
        assert!(!stage.advisory());
        assert_eq!(stage.next(false), Stage::Failed);
    }
}
