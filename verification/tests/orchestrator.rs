use websnap::cdp::CdpCommand;
use websnap::device::init_device_list;
use websnap::error::SnapError;
use websnap::format_tran::{get_content_type, FileFormat};
use websnap::snap::{
    platform_probe_script, scroll_height_script, scroll_width_script, Action, CaptureOrchestrator,
    Event, InForm, Phase,
};

fn request(fileformat: &str) -> InForm {
    InForm {
        url: "https://example.com".to_string(),
        device: None,
        h: 600,
        w: 800,
        filename: "shot".to_string(),
        fileformat: fileformat.to_string(),
        cookie: None,
        waittime: None,
        fullpage: None,
        useragent: Some("TestAgent/1.0".to_string()),
        platform: None,
        lang: None,
        factor: None,
        landscape: None,
        darkmode: None,
        touch: None,
    }
}

fn small_png() -> Vec<u8> {
    let img = image::RgbImage::from_fn(8, 8, |x, y| {
        image::Rgb([(x * 30) as u8, (y * 30) as u8, 64])
    });
    let dynimg = image::DynamicImage::ImageRgb8(img);
    let mut buf: Vec<u8> = Vec::new();
    let mut cur = std::io::Cursor::new(&mut buf);
    dynimg.write_to(&mut cur, image::ImageFormat::Png).unwrap();
    buf
}

/// Drives the machine as the shell would, answering every action with a
/// simulated observation, and returns the actions, the response bytes and
/// the error, if any.
fn drive(
    o: &mut CaptureOrchestrator,
    png: &[u8],
    browser_ua: &str,
) -> (Vec<Action>, Option<Vec<u8>>, Option<SnapError>) {
    let mut actions: Vec<Action> = Vec::new();
    let mut ev = Event::Start;
    for _ in 0..64 {
        let a = o.step(ev);
        ev = match &a {
            Action::QueryBrowserUserAgent => Event::BrowserUserAgent(Some(browser_ua.to_string())),
            Action::SendCdp(_) => Event::CdpDone,
            Action::ProbePlatform => Event::PlatformProbed,
            Action::Navigate(_) => Event::Navigated,
            Action::MeasureScrollWidth => Event::MeasuredWidth(1200),
            Action::MeasureScrollHeight => Event::MeasuredHeight(4000),
            Action::AddCookie(_) => Event::CookieAdded,
            Action::Reload => Event::Reloaded,
            Action::Sleep(_) => Event::Slept,
            Action::Capture => Event::Screenshot(png.to_vec()),
            Action::Respond(bytes) => {
                let out = bytes.clone();
                actions.push(a);
                return (actions, Some(out), None);
            }
            Action::Abort(e) => {
                let err = *e;
                actions.push(a);
                return (actions, None, Some(err));
            }
        };
        actions.push(a);
    }
    panic!("the machine did not finish");
}

fn metrics_pushes(actions: &[Action]) -> Vec<usize> {
    actions
        .iter()
        .enumerate()
        .filter_map(|(i, a)| match a {
            Action::SendCdp(CdpCommand::SetDeviceMetricsOverride(_)) => Some(i),
            _ => None,
        })
        .collect()
}

#[test]
fn scripts_are_fixed() {
    assert_eq!(platform_probe_script(), "return navigator.platform");
    assert_eq!(
        scroll_width_script(),
        "return document.body.parentNode.scrollWidth"
    );
    assert_eq!(
        scroll_height_script(),
        "return document.body.parentNode.scrollHeight"
    );
}

#[test]
fn unknown_format_fails_before_any_browser_work() {
    let catalog = init_device_list();
    let mut o = CaptureOrchestrator::new(request("exe"), &catalog);
    let png = small_png();
    let (actions, out, err) = drive(&mut o, &png, "BrowserUA/1.0");
    assert_eq!(err, Some(SnapError::FormatError));
    assert!(out.is_none());
    assert_eq!(actions.len(), 1);
    assert_eq!(actions[0], Action::Abort(SnapError::FormatError));
    assert!(!actions.iter().any(|a| matches!(a, Action::Navigate(_))));
    assert!(!actions.iter().any(|a| matches!(a, Action::Capture)));
    assert_eq!(o.phase(), Phase::Failed);
}

#[test]
fn unknown_device_fails_fast() {
    let catalog = init_device_list();
    let mut payload = request("png");
    payload.device = Some("Holodeck".to_string());
    let mut o = CaptureOrchestrator::new(payload, &catalog);
    let png = small_png();
    let (actions, _, err) = drive(&mut o, &png, "BrowserUA/1.0");
    assert_eq!(err, Some(SnapError::Other));
    assert_eq!(actions.len(), 1);
}

#[test]
fn plain_run_pushes_metrics_once() {
    let catalog = init_device_list();
    let mut o = CaptureOrchestrator::new(request("png"), &catalog);
    let png = small_png();
    let (actions, out, err) = drive(&mut o, &png, "BrowserUA/1.0");
    assert_eq!(err, None);
    // passthrough: the response is the capture itself
    assert_eq!(out.unwrap(), png);
    assert_eq!(metrics_pushes(&actions).len(), 1);
    assert!(!actions.iter().any(|a| matches!(a, Action::MeasureScrollWidth)));
    assert_eq!(o.phase(), Phase::Done);
}

#[test]
fn full_page_pushes_metrics_twice_and_measures_between() {
    let catalog = init_device_list();
    let mut payload = request("png");
    payload.fullpage = Some(true);
    let mut o = CaptureOrchestrator::new(payload, &catalog);
    let png = small_png();
    let (actions, out, err) = drive(&mut o, &png, "BrowserUA/1.0");
    assert_eq!(err, None);
    assert!(out.is_some());
    let pushes = metrics_pushes(&actions);
    assert_eq!(pushes.len(), 2);
    let meas_w = actions
        .iter()
        .position(|a| matches!(a, Action::MeasureScrollWidth))
        .unwrap();
    let meas_h = actions
        .iter()
        .position(|a| matches!(a, Action::MeasureScrollHeight))
        .unwrap();
    // the first push completes before measurement, the second follows it
    assert!(pushes[0] < meas_w);
    assert!(meas_w < meas_h);
    assert!(meas_h < pushes[1]);
    // the second push carries the measured document size
    match &actions[pushes[1]] {
        Action::SendCdp(CdpCommand::SetDeviceMetricsOverride(d)) => {
            assert_eq!(d.width, 1200);
            assert_eq!(d.height, 4000);
        }
        other => panic!("unexpected action: {:?}", other),
    }
}

#[test]
fn named_device_uses_catalog_viewport_and_user_agent() {
    let catalog = init_device_list();
    let mut payload = request("jpeg");
    payload.device = Some("iPhone 12".to_string());
    payload.useragent = None;
    let mut o = CaptureOrchestrator::new(payload, &catalog);
    let png = small_png();
    let (actions, out, err) = drive(&mut o, &png, "BrowserUA/1.0");
    assert_eq!(err, None);
    let expected_ua = catalog
        .lookup(&"iPhone 12".to_string())
        .unwrap()
        .userAgent
        .clone();
    // the catalog's bundled user agent is sent, not the browser's
    assert!(!actions.iter().any(|a| matches!(a, Action::QueryBrowserUserAgent)));
    let ua_sent = actions.iter().find_map(|a| match a {
        Action::SendCdp(CdpCommand::SetUserAgentOverride(ua)) => Some(ua.userAgent.clone()),
        _ => None,
    });
    assert_eq!(ua_sent.unwrap(), expected_ua);
    let pushes = metrics_pushes(&actions);
    match &actions[pushes[0]] {
        Action::SendCdp(CdpCommand::SetDeviceMetricsOverride(d)) => {
            assert_eq!(d.width, 390);
            assert_eq!(d.height, 844);
            assert_eq!(d.deviceScaleFactor, 3000);
            assert!(d.mobile);
        }
        other => panic!("unexpected action: {:?}", other),
    }
    // the response is JPEG and is served with the JPEG content type
    let bytes = out.unwrap();
    assert_eq!(bytes[0], 0xFF);
    assert_eq!(bytes[1], 0xD8);
    assert_eq!(get_content_type(FileFormat::Jpeg), "image/jpeg");
}

#[test]
fn empty_user_agent_is_filled_from_browser() {
    let catalog = init_device_list();
    let mut payload = request("png");
    payload.useragent = None;
    let mut o = CaptureOrchestrator::new(payload, &catalog);
    let png = small_png();
    let (actions, _, err) = drive(&mut o, &png, "BrowserUA/7.7");
    assert_eq!(err, None);
    assert!(matches!(actions[0], Action::QueryBrowserUserAgent));
    match &actions[1] {
        Action::SendCdp(CdpCommand::SetUserAgentOverride(ua)) => {
            assert_eq!(ua.userAgent, "BrowserUA/7.7");
        }
        other => panic!("unexpected action: {:?}", other),
    }
}

#[test]
fn missing_browser_user_agent_is_fatal() {
    let catalog = init_device_list();
    let mut payload = request("png");
    payload.useragent = None;
    let mut o = CaptureOrchestrator::new(payload, &catalog);
    let a = o.step(Event::Start);
    assert!(matches!(a, Action::QueryBrowserUserAgent));
    let a = o.step(Event::BrowserUserAgent(None));
    assert_eq!(a, Action::Abort(SnapError::DriverError));
    assert_eq!(o.phase(), Phase::Failed);
}

#[test]
fn cookie_is_added_and_page_reloaded_before_capture() {
    let catalog = init_device_list();
    let mut payload = request("png");
    payload.cookie = Some("foo=bar; Domain=example.com".to_string());
    let mut o = CaptureOrchestrator::new(payload, &catalog);
    let png = small_png();
    let (actions, out, err) = drive(&mut o, &png, "BrowserUA/1.0");
    assert_eq!(err, None);
    assert!(out.is_some());
    let add = actions
        .iter()
        .position(|a| matches!(a, Action::AddCookie(_)))
        .unwrap();
    match &actions[add] {
        Action::AddCookie(c) => {
            assert_eq!(c.name, "foo");
            assert_eq!(c.value, "bar");
            assert_eq!(c.domain.as_deref(), Some("example.com"));
            assert!(c.path.is_none());
            assert!(c.expiry.is_none());
        }
        other => panic!("unexpected action: {:?}", other),
    }
    let nav = actions
        .iter()
        .position(|a| matches!(a, Action::Navigate(_)))
        .unwrap();
    let reload = actions.iter().position(|a| matches!(a, Action::Reload)).unwrap();
    let capture = actions.iter().position(|a| matches!(a, Action::Capture)).unwrap();
    assert!(nav < add);
    assert!(add < reload);
    assert!(reload < capture);
}

#[test]
fn malformed_cookie_is_caller_error() {
    let catalog = init_device_list();
    let mut payload = request("png");
    payload.cookie = Some("no pair here".to_string());
    let mut o = CaptureOrchestrator::new(payload, &catalog);
    let png = small_png();
    let (_, out, err) = drive(&mut o, &png, "BrowserUA/1.0");
    assert!(out.is_none());
    assert_eq!(err, Some(SnapError::CookieParseError));
}

#[test]
fn waittime_sleeps_before_capture() {
    let catalog = init_device_list();
    let mut payload = request("png");
    payload.waittime = Some(3);
    let mut o = CaptureOrchestrator::new(payload, &catalog);
    let png = small_png();
    let (actions, _, err) = drive(&mut o, &png, "BrowserUA/1.0");
    assert_eq!(err, None);
    let sleep = actions.iter().position(|a| matches!(a, Action::Sleep(3))).unwrap();
    let capture = actions.iter().position(|a| matches!(a, Action::Capture)).unwrap();
    assert!(sleep < capture);
}

#[test]
fn svg_run_traces_the_capture() {
    let catalog = init_device_list();
    let mut o = CaptureOrchestrator::new(request("svg"), &catalog);
    let png = small_png();
    let (_, out, err) = drive(&mut o, &png, "BrowserUA/1.0");
    assert_eq!(err, None);
    let bytes = out.unwrap();
    assert!(!bytes.is_empty());
    assert!(bytes.starts_with(b"<?xml"));
    assert!(bytes.ends_with(b"</svg>\n"));
    assert_eq!(get_content_type(FileFormat::Svg), "image/svg+xml");
}

#[test]
fn navigation_failure_aborts_with_driver_error() {
    let catalog = init_device_list();
    let mut o = CaptureOrchestrator::new(request("png"), &catalog);
    let mut a = o.step(Event::Start);
    // run the configuration up to the navigation action
    for _ in 0..16 {
        if matches!(a, Action::Navigate(_)) {
            break;
        }
        let ev = match &a {
            Action::SendCdp(_) => Event::CdpDone,
            Action::ProbePlatform => Event::PlatformProbed,
            other => panic!("unexpected action: {:?}", other),
        };
        a = o.step(ev);
    }
    assert!(matches!(a, Action::Navigate(_)));
    let a = o.step(Event::Failed(SnapError::DriverError));
    assert_eq!(a, Action::Abort(SnapError::DriverError));
    assert_eq!(o.phase(), Phase::Failed);
}

#[test]
fn finished_machine_only_aborts() {
    let catalog = init_device_list();
    let mut o = CaptureOrchestrator::new(request("png"), &catalog);
    let png = small_png();
    let (_, out, _) = drive(&mut o, &png, "BrowserUA/1.0");
    assert!(out.is_some());
    assert_eq!(o.phase(), Phase::Done);
    let a = o.step(Event::Start);
    assert_eq!(a, Action::Abort(SnapError::Other));
    assert_eq!(o.phase(), Phase::Done);
}
