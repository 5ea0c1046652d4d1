use rudimento::backend::drm::{DRMBackendError, ErrorClass};
use rudimento::egl::device::{
    device_base_supported, device_count, entry_point_required, get_egl_devices, EGLDevice,
};
use rudimento::egl::display::{Config, EGLDisplay};
use rudimento::egl::egl_error::{egl_error_state, egl_error_string, EGLError, EGLErrorKind};
use rudimento::egl::extensions::{is_whitespace, Extensions};
use rudimento::egl::image::Image;
use rudimento::egl::loader::{EglLoader, FnPtr};
use rudimento::egl::renderer::{find_egldevice, first_drm_device_available, Endpoint};
use rudimento::egl::types::{DRM_MASTER_FD_EXT, NONE};
use rudimento::text::{push_decimal, push_hexadecimal};
use rudimento::wayland::WaylandError;

const BAD_ALLOC: i32 = 0x3003;

fn expect_failure<T: std::fmt::Debug>(
    r: Result<T, EGLError>,
    kind: EGLErrorKind,
    message: &str,
    code: i32,
) {
    let e = r.unwrap_err();
    assert_eq!(e.kind(), kind);
    assert_eq!(e.message(), message);
    assert_eq!(e.code(), code);
}

fn endpoint(raw: usize, file: Option<&str>) -> Endpoint {
    Endpoint { device: EGLDevice::from_raw(raw), device_file: file.map(|f| f.to_string()) }
}

fn config(handle: usize, visual: Option<i32>) -> Config {
    Config { handle, native_visual_id: visual }
}

#[test]
fn numbers_are_written_in_decimal() {
    for n in [0i64, 1, 9, 10, 11, 99, 100, 12288, -1, -10, 4294967295, i64::MAX, i64::MIN] {
        let mut s = String::from("n=");
        push_decimal(&mut s, n);
        assert_eq!(s, format!("n={}", n));
    }
}

#[test]
fn numbers_are_written_in_hexadecimal() {
    for n in [0u64, 1, 9, 10, 15, 16, 255, 256, 0x3233, 0xdead_beef, u64::MAX] {
        let mut s = String::new();
        push_hexadecimal(&mut s, n);
        assert_eq!(s, format!("0x{:x}", n));
    }
}

#[test]
fn error_codes_have_names() {
    let names = [
        "SUCCESS",
        "NOT_INITIALIZED",
        "BAD_ACCESS",
        "BAD_ALLOC",
        "BAD_ATTRIBUTE",
        "BAD_CONFIG",
        "BAD_CONTEXT",
        "BAD_CURRENT_SURFACE",
        "BAD_DISPLAY",
        "BAD_MATCH",
        "BAD_NATIVE_PIXMAP",
        "BAD_NATIVE_WINDOW",
        "BAD_PARAMETER",
        "BAD_SURFACE",
        "CONTEXT_LOST",
    ];
    for (k, name) in names.iter().enumerate() {
        assert_eq!(egl_error_string(0x3000 + k as i32), *name);
    }
    assert_eq!(egl_error_string(0x300f), "unknown");
    assert_eq!(egl_error_string(0x2fff), "unknown");
    assert_eq!(egl_error_string(0), "unknown");
    assert_eq!(egl_error_string(-1), "unknown");
}

#[test]
fn error_state_names_the_code() {
    assert_eq!(egl_error_state(0x3000), "EGL error state: SUCCESS (12288)\n");
    assert_eq!(egl_error_state(0x3008), "EGL error state: BAD_DISPLAY (12296)\n");
    assert_eq!(egl_error_state(-5), "EGL error state: unknown (-5)\n");
}

#[test]
fn errors_carry_message_and_code() {
    let e = EGLError::from_str("it broke", BAD_ALLOC);
    assert_eq!(e.kind(), EGLErrorKind::Other);
    assert_eq!(e.message(), "it broke");
    assert_eq!(e.code(), BAD_ALLOC);
    assert_eq!(e.description(), "EGLError it broke: BAD_ALLOC");
    let e = EGLError::from_string("owned".to_string(), 7);
    assert_eq!(e.description(), "EGLError owned: unknown");
    let e = EGLError::new(EGLErrorKind::NoConfigs, "none", 0x3000);
    assert_eq!(e.kind(), EGLErrorKind::NoConfigs);
    let e = EGLError::with_message(EGLErrorKind::DeviceNotFound, "gone".to_string(), 0x3000);
    assert_eq!(e.kind(), EGLErrorKind::DeviceNotFound);
    assert_eq!(e.description(), "EGLError gone: SUCCESS");
}

#[test]
fn negotiation_failures_have_their_class() {
    let cases = [
        (EGLErrorKind::EnumerationFailed, ErrorClass::EnumerationError),
        (EGLErrorKind::NoEndpoints, ErrorClass::NotFound),
        (EGLErrorKind::DeviceNotFound, ErrorClass::NotFound),
        (EGLErrorKind::NoConfigs, ErrorClass::NotFound),
        (EGLErrorKind::NoMatchingConfig, ErrorClass::NotFound),
        (EGLErrorKind::CapabilityMissing, ErrorClass::CapabilityMissing),
        (EGLErrorKind::Unsupported, ErrorClass::CapabilityMissing),
        (EGLErrorKind::InitializationFailed, ErrorClass::InitializationError),
        (EGLErrorKind::Other, ErrorClass::InitializationError),
    ];
    for (kind, class) in cases {
        let e = DRMBackendError::from_egl(&EGLError::new(kind, "m", 0x3001));
        assert_eq!(e.class(), class);
        assert_eq!(e.description(), "EGLError m: NOT_INITIALIZED");
    }
}

#[test]
fn wayland_errors_show_their_message() {
    assert_eq!(WaylandError::from_str("boom").description(), "WaylandError: boom");
    assert_eq!(WaylandError::from_string("bang".to_string()).description(), "WaylandError: bang");
}

#[test]
fn white_space_is_unicodes() {
    for c in ['\t', '\n', '\u{b}', '\u{c}', '\r', ' ', '\u{85}', '\u{a0}', '\u{1680}', '\u{2000}',
        '\u{2005}', '\u{200a}', '\u{2028}', '\u{2029}', '\u{202f}', '\u{205f}', '\u{3000}']
    {
        assert!(is_whitespace(c));
        assert!(c.is_whitespace());
    }
    for c in ['a', '_', '0', '\u{8}', '\u{e}', '\u{200b}', '\u{feff}', '\u{180e}', '\u{1f}'] {
        assert!(!is_whitespace(c));
        assert!(!c.is_whitespace());
    }
    for n in 0..0x3100u32 {
        if let Some(c) = char::from_u32(n) {
            assert_eq!(is_whitespace(c), c.is_whitespace());
        }
    }
}

#[test]
fn extensions_are_the_words_of_the_string() {
    let set = Extensions::parse("EGL_KHR_stream  EGL_EXT_output_base\tEGL_NV_stream_attrib\n");
    assert!(set.contains("EGL_KHR_stream"));
    assert!(set.contains("EGL_EXT_output_base"));
    assert!(set.contains("EGL_NV_stream_attrib"));
    assert!(!set.contains("EGL_KHR_stream_producer_eglsurface"));
    assert!(!set.contains("EGL_KHR"));
    assert!(!set.contains("EGL_KHR_stream "));
    assert!(!set.contains(""));
    assert!(!set.contains(" "));
}

#[test]
fn extension_match_is_exact() {
    let set = Extensions::parse("EGL_KHR_stream_consumer_gltexture");
    assert!(set.contains("EGL_KHR_stream_consumer_gltexture"));
    assert!(!set.contains("EGL_KHR_stream"));
    assert!(!set.contains("egl_khr_stream_consumer_gltexture"));
    let set = Extensions::parse("a");
    assert!(set.contains("a"));
    let set = Extensions::parse(" a");
    assert!(set.contains("a"));
    let set = Extensions::parse("a ");
    assert!(set.contains("a"));
}

#[test]
fn empty_extension_string_has_no_extension() {
    for text in ["", " ", "   \t\n"] {
        let set = Extensions::parse(text);
        assert!(!set.contains(""));
        assert!(!set.contains("EGL_KHR_stream"));
    }
}

#[test]
fn missing_extension_string_is_an_error() {
    assert!(Extensions::query(Some("EGL_a EGL_b"), 0x3000).unwrap().contains("EGL_b"));
    match Extensions::query(None, BAD_ALLOC) {
        Ok(_) => panic!("no string, no extensions"),
        Err(e) => {
            assert_eq!(e.kind(), EGLErrorKind::EnumerationFailed);
            assert_eq!(e.message(), "Retrieving EGL extension string failed.");
            assert_eq!(e.code(), BAD_ALLOC);
        }
    }
}

#[test]
fn devices_need_the_device_base() {
    device_base_supported(Some("EGL_EXT_platform_base EGL_EXT_device_base"), 0x3000).unwrap();
    expect_failure(
        device_base_supported(Some("EGL_EXT_platform_base EGL_EXT_device_base2"), 0x3000),
        EGLErrorKind::CapabilityMissing,
        "EGL_EXT_device_base not supported",
        0x3000,
    );
    expect_failure(
        device_base_supported(None, 0x3001),
        EGLErrorKind::EnumerationFailed,
        "Retrieving EGL extension string failed.",
        0x3001,
    );
}

#[test]
fn entry_points_can_be_necessary() {
    entry_point_required(true, "QueryDevicesEXT", 0x3000).unwrap();
    expect_failure(
        entry_point_required(false, "QueryDevicesEXT", 0x3000),
        EGLErrorKind::CapabilityMissing,
        "QueryDevicesEXT is necessary",
        0x3000,
    );
}

#[test]
fn no_device_is_an_error() {
    assert_eq!(device_count(Some(1), 0x3000).unwrap(), 1);
    assert_eq!(device_count(Some(4), 0x3000).unwrap(), 4);
    expect_failure(
        device_count(Some(0), 0x3000),
        EGLErrorKind::NoEndpoints,
        "No device found!",
        0x3000,
    );
    expect_failure(
        device_count(Some(-3), 0x3000),
        EGLErrorKind::NoEndpoints,
        "No device found!",
        0x3000,
    );
    expect_failure(
        device_count(None, 0x300c),
        EGLErrorKind::EnumerationFailed,
        "device_querier(0, 0, *num_devices) call failed: EGL error state: BAD_PARAMETER (12300)\n",
        0x300c,
    );
}

#[test]
fn devices_keep_the_order_of_the_listing() {
    let devices = get_egl_devices(3, Some(vec![0x10, 0x20, 0x30]), 0x3000).unwrap();
    assert_eq!(devices.len(), 3);
    assert_eq!(devices[0].raw(), 0x10);
    assert_eq!(devices[1].raw(), 0x20);
    assert_eq!(devices[2].raw(), 0x30);
    assert_eq!(devices[1], EGLDevice::from_raw(0x20));
    expect_failure(
        get_egl_devices(3, None, 0x3003),
        EGLErrorKind::EnumerationFailed,
        "device_querier(3, *devices, *num_devices) call failed: EGL error state: BAD_ALLOC (12291)\n",
        0x3003,
    );
}

#[test]
fn device_file_needs_the_drm_extension() {
    let device = EGLDevice::from_raw(0x1f);
    assert_eq!(
        device
            .get_drm_device_file(Some("EGL_EXT_device_drm"), Some("/dev/dri/card0"), 0x3000)
            .unwrap(),
        "/dev/dri/card0"
    );
    expect_failure(
        device.get_drm_device_file(Some("EGL_NV_device_cuda"), Some("/dev/dri/card0"), 0x3000),
        EGLErrorKind::CapabilityMissing,
        "EGL_EXT_device_drm not supported",
        0x3000,
    );
    expect_failure(
        device.get_drm_device_file(None, Some("/dev/dri/card0"), 0x3000),
        EGLErrorKind::EnumerationFailed,
        "QueryDeviceStringEXT(0x1f, EXTENSIONS) returned NULL: EGL error state: SUCCESS (12288)\n",
        0x3000,
    );
    expect_failure(
        device.get_drm_device_file(Some("EGL_EXT_device_drm"), None, 0x300c),
        EGLErrorKind::EnumerationFailed,
        "QueryDeviceStringEXT(0x1f, 0x3233) returned NULL: EGL error state: BAD_PARAMETER (12300)\n",
        0x300c,
    );
}

#[test]
fn endpoint_of_the_opened_device_is_found() {
    let endpoints = vec![
        endpoint(1, Some("/dev/dri/card0")),
        endpoint(2, Some("/dev/dri/card1")),
        endpoint(3, None),
    ];
    assert_eq!(find_egldevice("/dev/dri/card1", &endpoints, 0x3000).unwrap().raw(), 2);
    assert_eq!(find_egldevice("/dev/dri/card0", &endpoints, 0x3000).unwrap().raw(), 1);
}

#[test]
fn first_of_equal_endpoints_is_found() {
    let endpoints = vec![
        endpoint(1, None),
        endpoint(2, Some("/dev/dri/card1")),
        endpoint(3, Some("/dev/dri/card1")),
    ];
    assert_eq!(find_egldevice("/dev/dri/card1", &endpoints, 0x3000).unwrap().raw(), 2);
}

#[test]
fn unmatched_device_is_not_found() {
    let endpoints = vec![endpoint(1, Some("/dev/dri/card0")), endpoint(2, None)];
    expect_failure(
        find_egldevice("/dev/dri/card1", &endpoints, 0x3000),
        EGLErrorKind::DeviceNotFound,
        "Device \"/dev/dri/card1\" not found",
        0x3000,
    );
    expect_failure(
        find_egldevice("/dev/dri/card", &endpoints, 0x3000),
        EGLErrorKind::DeviceNotFound,
        "Device \"/dev/dri/card\" not found",
        0x3000,
    );
    expect_failure(
        find_egldevice("/dev/dri/card00", &endpoints, 0x3000),
        EGLErrorKind::DeviceNotFound,
        "Device \"/dev/dri/card00\" not found",
        0x3000,
    );
}

#[test]
fn no_endpoint_is_its_own_error() {
    expect_failure(
        find_egldevice("/dev/dri/card0", &Vec::new(), 0x3000),
        EGLErrorKind::NoEndpoints,
        "No EGLDevice found",
        0x3000,
    );
    expect_failure(
        first_drm_device_available(&Vec::new(), 0x3000),
        EGLErrorKind::NoEndpoints,
        "No EGLDevice found",
        0x3000,
    );
    let devices = vec![EGLDevice::from_raw(9), EGLDevice::from_raw(8)];
    assert_eq!(first_drm_device_available(&devices, 0x3000).unwrap().raw(), 9);
}

#[test]
fn platform_display_takes_the_master_descriptor() {
    assert_eq!(EGLDisplay::platform_attributes(11), vec![DRM_MASTER_FD_EXT, 11, NONE]);
    assert_eq!(EGLDisplay::platform_attributes(11), vec![0x333c, 11, 0x3038]);
}

#[test]
fn configurations_are_filtered_by_fixed_attributes() {
    assert_eq!(
        EGLDisplay::config_attributes(),
        vec![
            0x3033, 0x0800, 0x3024, 1, 0x3023, 1, 0x3022, 1, 0x3021, 0, 0x3040, 0x0004, 0x3038
        ]
    );
}

#[test]
fn null_display_is_a_failure() {
    assert_eq!(*EGLDisplay::new(0x77, 0x3000).unwrap().raw_ref(), 0x77);
    expect_failure(
        EGLDisplay::new(0, 0x3001),
        EGLErrorKind::InitializationFailed,
        "EGLDisplay::new() Failed to create display",
        0x3001,
    );
    assert_eq!(*EGLDisplay::from_platform(Some(0x78), 0x3000).unwrap().raw_ref(), 0x78);
    expect_failure(
        EGLDisplay::from_platform(Some(0), 0x3001),
        EGLErrorKind::InitializationFailed,
        "EGLDisplay::fromPlatform() Failed to create display",
        0x3001,
    );
    expect_failure(
        EGLDisplay::from_platform(None, 0x3001),
        EGLErrorKind::CapabilityMissing,
        "cannot load eglGetPlatformDisplayEXT",
        0x3001,
    );
}

#[test]
fn generic_display_is_only_the_fallback() {
    assert!(!EGLDisplay::falls_back(&EGLDisplay::from_platform(Some(0x78), 0x3000)));
    assert!(EGLDisplay::falls_back(&EGLDisplay::from_platform(Some(0), 0x3000)));
    assert!(EGLDisplay::falls_back(&EGLDisplay::from_platform(None, 0x3000)));
}

#[test]
fn initialisation_reports_the_version() {
    let mut display = EGLDisplay::new(0x77, 0x3000).unwrap();
    assert_eq!(display.initialize(Some((1, 5)), 0x3000).unwrap(), (1, 5));
    expect_failure(
        display.initialize(None, 0x3001),
        EGLErrorKind::InitializationFailed,
        "Failed to initialize display",
        0x3001,
    );
    assert_eq!(display.terminate(), 0x77);
}

#[test]
fn zero_configs_is_no_configs() {
    let mut display = EGLDisplay::new(0x77, 0x3000).unwrap();
    expect_failure(
        display.choose_config(Some(0), None, None, 0x3000),
        EGLErrorKind::NoConfigs,
        "No EGL configs to choose from",
        0x3000,
    );
    expect_failure(
        display.choose_config(Some(0), Some(&Vec::new()), Some(&vec![1]), 0x3000),
        EGLErrorKind::NoConfigs,
        "No EGL configs to choose from",
        0x3000,
    );
    expect_failure(
        display.choose_config(Some(-1), Some(&vec![config(1, Some(1))]), None, 0x3000),
        EGLErrorKind::NoConfigs,
        "No EGL configs to choose from",
        0x3000,
    );
}

#[test]
fn failed_config_calls_are_enumeration_failures() {
    let mut display = EGLDisplay::new(0x77, 0x3000).unwrap();
    expect_failure(
        display.choose_config(None, Some(&vec![config(1, Some(1))]), None, 0x3008),
        EGLErrorKind::EnumerationFailed,
        "eglGetConfigs error",
        0x3008,
    );
    expect_failure(
        display.choose_config(Some(4), None, None, 0x3004),
        EGLErrorKind::EnumerationFailed,
        "eglChooseConfig error",
        0x3004,
    );
}

#[test]
fn no_config_with_the_attributes_is_refused() {
    let mut display = EGLDisplay::new(0x77, 0x3000).unwrap();
    expect_failure(
        display.choose_config(Some(4), Some(&Vec::new()), None, 0x3000),
        EGLErrorKind::NoMatchingConfig,
        "No EGL configs with appropriate attributes",
        0x3000,
    );
}

#[test]
fn first_config_is_taken_without_visuals() {
    let mut display = EGLDisplay::new(0x77, 0x3000).unwrap();
    let configs = vec![config(0xa, Some(5)), config(0xb, Some(6)), config(0xc, None)];
    assert_eq!(display.choose_config(Some(3), Some(&configs), None, 0x3000).unwrap(), 0xa);
    assert_eq!(display.choose_config(Some(9), Some(&configs[2..].to_vec()), None, 0x3000).unwrap(), 0xc);
}

#[test]
fn only_config_with_the_visual_is_taken() {
    let mut display = EGLDisplay::new(0x77, 0x3000).unwrap();
    let configs = vec![config(0xa, Some(5)), config(0xb, Some(6)), config(0xc, Some(7))];
    assert_eq!(display.choose_config(Some(3), Some(&configs), Some(&vec![6]), 0x3000).unwrap(), 0xb);
    assert_eq!(display.choose_config(Some(3), Some(&configs), Some(&vec![9, 7]), 0x3000).unwrap(), 0xc);
}

#[test]
fn first_config_with_any_listed_visual_is_taken() {
    let mut display = EGLDisplay::new(0x77, 0x3000).unwrap();
    let configs = vec![
        config(0xa, None),
        config(0xb, Some(6)),
        config(0xc, Some(7)),
        config(0xd, Some(6)),
    ];
    assert_eq!(
        display.choose_config(Some(4), Some(&configs), Some(&vec![7, 6]), 0x3000).unwrap(),
        0xb
    );
    assert_eq!(
        display.choose_config(Some(4), Some(&configs), Some(&vec![7]), 0x3000).unwrap(),
        0xc
    );
}

#[test]
fn no_config_with_a_listed_visual_is_refused() {
    let mut display = EGLDisplay::new(0x77, 0x3000).unwrap();
    let configs = vec![config(0xa, None), config(0xb, Some(6))];
    expect_failure(
        display.choose_config(Some(2), Some(&configs), Some(&vec![7]), 0x3000),
        EGLErrorKind::NoMatchingConfig,
        "could not find egl configuration",
        0x3000,
    );
    expect_failure(
        display.choose_config(Some(2), Some(&configs), Some(&Vec::new()), 0x3000),
        EGLErrorKind::NoMatchingConfig,
        "could not find egl configuration",
        0x3000,
    );
}

#[test]
fn display_extensions_are_parsed() {
    let display = EGLDisplay::new(0x77, 0x3000).unwrap();
    assert!(display.extensions(Some("EGL_KHR_stream"), 0x3000).unwrap().contains("EGL_KHR_stream"));
    assert!(display.extensions(None, 0x3000).is_err());
}

#[test]
fn image_belongs_to_its_display() {
    let display = EGLDisplay::new(0x77, 0x3000).unwrap();
    let mut image = Image::new(&display, 0x500, 0x3000).unwrap();
    assert_eq!(image.raw(), 0x500);
    assert_eq!(*image.raw_ref(), 0x500);
    *image.raw_mut_ref() = 0x600;
    assert_eq!(image.raw(), 0x600);
    assert_eq!(image.release(), (0x77, 0x600));
    match Image::new(&display, 0, 0x3003) {
        Ok(_) => panic!("a null image is no image"),
        Err(e) => {
            assert_eq!(e.kind(), EGLErrorKind::Other);
            assert_eq!(e.message(), "Failed to create image for display 0x77");
            assert_eq!(e.code(), 0x3003);
        }
    }
    assert_eq!(Image::context_argument(None), 0);
    assert_eq!(Image::context_argument(Some(0x42)), 0x42);
}

#[test]
fn library_is_loaded_once() {
    let mut loader = EglLoader::new();
    assert!(loader.needs_loading());
    assert_eq!(EglLoader::library_path(), "libEGL.so");
    expect_failure(
        loader.load_EGL(Err("libEGL.so: cannot open shared object file"), 0x3000),
        EGLErrorKind::InitializationFailed,
        "Impossible to load EGL Library: \"libEGL.so: cannot open shared object file\"",
        0x3000,
    );
    assert!(loader.needs_loading());
    loader.load_EGL(Ok(0x7f00), 0x3000).unwrap();
    assert!(!loader.needs_loading());
    loader.load_EGL(Err("ignored"), 0x3000).unwrap();
    loader.load_EGL(Ok(0x1), 0x3000).unwrap();
    assert!(!loader.needs_loading());
}

#[test]
fn entry_point_is_resolved_once() {
    let mut slot = FnPtr::new();
    assert_eq!(slot, FnPtr { f: 0, is_loaded: false });
    expect_failure(
        slot.load_with_GetProcAddress("eglQueryDevicesEXT", 0, 0x3000),
        EGLErrorKind::CapabilityMissing,
        "could not get address of eglQueryDevicesEXT",
        0x3000,
    );
    assert_eq!(slot, FnPtr { f: 0, is_loaded: false });
    slot.load_with_GetProcAddress("eglQueryDevicesEXT", 0x1234, 0x3000).unwrap();
    assert_eq!(slot, FnPtr { f: 0x1234, is_loaded: true });
    slot.load_with_GetProcAddress("eglQueryDevicesEXT", 0, 0x3000).unwrap();
    slot.load_with_GetProcAddress("eglQueryDevicesEXT", 0x9999, 0x3000).unwrap();
    assert_eq!(slot, FnPtr { f: 0x1234, is_loaded: true });
}
