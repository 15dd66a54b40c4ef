use websnap::cdp::{DeviceInfo, Orientation};
use websnap::device::{init_device_list, DeviceCatalog, DeviceJson, ViewPort};
use websnap::error::SnapError;
use websnap::snap::InForm;

fn base_request() -> InForm {
    InForm {
        url: "https://example.com".to_string(),
        device: None,
        h: 600,
        w: 800,
        filename: "shot".to_string(),
        fileformat: "png".to_string(),
        cookie: None,
        waittime: None,
        fullpage: None,
        useragent: None,
        platform: None,
        lang: None,
        factor: None,
        landscape: None,
        darkmode: None,
        touch: None,
    }
}

#[test]
fn catalog_has_bundled_devices() {
    let catalog = init_device_list();
    assert_eq!(catalog.len(), 5);
    let entry = catalog.lookup(&"iPhone 12".to_string()).unwrap();
    assert_eq!(entry.viewport.width, 390);
    assert_eq!(entry.viewport.height, 844);
    assert_eq!(entry.viewport.deviceScaleFactor, 3000);
    assert!(entry.viewport.isMobile);
    assert!(entry.viewport.hasTouch);
    assert!(!entry.viewport.isLandscape);
    assert!(entry.userAgent.contains("iPhone"));
    assert!(catalog.lookup(&"Nokia 3310".to_string()).is_none());
}

#[test]
fn catalog_rejects_duplicate_ids() {
    let mut catalog = DeviceCatalog::new();
    let entry = DeviceJson {
        id: "gadget".to_string(),
        name: "Gadget".to_string(),
        userAgent: "GadgetBrowser/1.0".to_string(),
        viewport: ViewPort {
            width: 320,
            height: 480,
            deviceScaleFactor: 1000,
            isMobile: true,
            hasTouch: true,
            isLandscape: false,
        },
    };
    assert!(catalog.add(entry.clone()).is_ok());
    assert_eq!(catalog.add(entry).unwrap_err(), SnapError::Other);
    assert_eq!(catalog.len(), 1);
}

#[test]
fn resolve_without_device_uses_request_fields() {
    let catalog = init_device_list();
    let payload = base_request();
    let d = DeviceInfo::resolve(&payload, &catalog).unwrap();
    assert_eq!(d.width, 800);
    assert_eq!(d.height, 600);
    assert_eq!(d.deviceScaleFactor, 1000);
    assert!(!d.mobile);
    assert!(!d.isTouchable);
    assert!(!d.isDarkMode);
    let orientation = d.screenOrientation.unwrap();
    assert_eq!(orientation.kind, Orientation::portraitPrimary);
    assert_eq!(orientation.angle, 0);
    // no explicit user agent and no device: the empty sentinel stays
    assert_eq!(d.userAgent.unwrap().userAgent, "");
}

#[test]
fn resolve_device_viewport_matches_catalog_exactly() {
    let catalog = init_device_list();
    let mut payload = base_request();
    payload.device = Some("iPhone 12".to_string());
    let d = DeviceInfo::resolve(&payload, &catalog).unwrap();
    let entry = catalog.lookup(&"iPhone 12".to_string()).unwrap();
    assert_eq!(d.width, entry.viewport.width);
    assert_eq!(d.height, entry.viewport.height);
    assert_eq!(d.deviceScaleFactor, entry.viewport.deviceScaleFactor);
    assert_eq!(d.mobile, entry.viewport.isMobile);
    let orientation = d.screenOrientation.unwrap();
    assert_eq!(orientation.kind, Orientation::portraitPrimary);
    assert_eq!(d.userAgent.unwrap().userAgent, entry.userAgent);
}

#[test]
fn resolve_landscape_device_orientation() {
    let catalog = init_device_list();
    let mut payload = base_request();
    payload.device = Some("iPhone 12 landscape".to_string());
    let d = DeviceInfo::resolve(&payload, &catalog).unwrap();
    assert_eq!(d.screenOrientation.unwrap().kind, Orientation::landscapePrimary);
}

#[test]
fn resolve_explicit_overrides_win_over_catalog() {
    let catalog = init_device_list();
    let mut payload = base_request();
    payload.device = Some("iPhone 12".to_string());
    payload.factor = Some(1500);
    payload.landscape = Some(true);
    payload.touch = Some(true);
    payload.darkmode = Some(true);
    payload.useragent = Some("MyAgent/2.0".to_string());
    payload.lang = Some("de-DE".to_string());
    payload.platform = Some("Linux".to_string());
    let d = DeviceInfo::resolve(&payload, &catalog).unwrap();
    assert_eq!(d.deviceScaleFactor, 1500);
    assert_eq!(d.screenOrientation.unwrap().kind, Orientation::landscapePrimary);
    assert!(d.isTouchable);
    assert!(d.isDarkMode);
    let ua = d.userAgent.unwrap();
    assert_eq!(ua.userAgent, "MyAgent/2.0");
    assert_eq!(ua.acceptLanguage.as_deref(), Some("de-DE"));
    assert_eq!(ua.platform.as_deref(), Some("Linux"));
}

#[test]
fn resolve_empty_useragent_falls_back_to_catalog() {
    let catalog = init_device_list();
    let mut payload = base_request();
    payload.device = Some("Pixel 5".to_string());
    payload.useragent = Some("".to_string());
    let d = DeviceInfo::resolve(&payload, &catalog).unwrap();
    let entry = catalog.lookup(&"Pixel 5".to_string()).unwrap();
    assert_eq!(d.userAgent.unwrap().userAgent, entry.userAgent);
}

#[test]
fn resolve_unknown_device_is_caller_error() {
    let catalog = init_device_list();
    let mut payload = base_request();
    payload.device = Some("Holodeck".to_string());
    assert_eq!(
        DeviceInfo::resolve(&payload, &catalog).unwrap_err(),
        SnapError::Other
    );
}
