use browserlify::devices::{get_device, Device, DeviceScreen, ScreenSize};

#[test]
fn known_devices_are_found() {
    let d = get_device("ipad").unwrap();
    assert_eq!(d.title, "iPad");
    assert!(d.has_touch);
    assert!(d.emulating_mobile);
    assert_eq!(d.accept_language, "en");
    assert_eq!(d.screen.device_pixel_ratio, 2);
    assert_eq!(d.screen.horizontal, ScreenSize { width: 1024, height: 768 });
    assert_eq!(d.screen.vertical, ScreenSize { width: 768, height: 1024 });

    let d = get_device("laptop-touch").unwrap();
    assert_eq!(d.title, "Laptop with touch");
    assert!(d.has_touch);
    assert!(!d.emulating_mobile);
    assert_eq!(d.screen.device_pixel_ratio, 1);
    assert_eq!(d.screen.horizontal, ScreenSize { width: 1280, height: 950 });

    let d = get_device("4k").unwrap();
    assert_eq!(d.title, "4K Laptop 1920 x 1080");
    assert_eq!(d.screen.device_pixel_ratio, 3);

    let d = get_device("galaxy-note-3").unwrap();
    assert_eq!(d.title, "Galaxy Note 3");
    assert_eq!(d.screen.vertical, ScreenSize { width: 360, height: 640 });
    assert!(d.user_agent.contains("SM-N900T"));
}

#[test]
fn unknown_device_yields_none() {
    assert!(get_device("").is_none());
    assert!(get_device("IPAD").is_none());
    assert!(get_device("laptop").is_none());
    assert!(get_device("iphone-14").is_none());
}

#[test]
fn viewport_follows_orientation() {
    let d = get_device("iphone-x").unwrap();
    let portrait = d.get_viewport(false);
    assert_eq!((portrait.width, portrait.height), (375, 812));
    assert!(!portrait.is_landscape);
    assert_eq!(portrait.device_scale_factor, Some(3));
    assert!(portrait.has_touch);
    assert!(portrait.emulating_mobile);
    let landscape = d.get_viewport(true);
    assert_eq!((landscape.width, landscape.height), (812, 375));
    assert!(landscape.is_landscape);
}

#[test]
fn device_constructor_keeps_fields() {
    let d = Device::new(
        "Custom".to_string(),
        true,
        false,
        "agent".to_string(),
        "de".to_string(),
        DeviceScreen {
            device_pixel_ratio: 2,
            horizontal: ScreenSize { width: 100, height: 50 },
            vertical: ScreenSize { width: 50, height: 100 },
        },
    );
    assert_eq!(d.title, "Custom");
    assert_eq!(d.accept_language, "de");
    let v = d.get_viewport(true);
    assert_eq!((v.width, v.height), (100, 50));
}
