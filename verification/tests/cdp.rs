use websnap::cdp::{
    cdp_command_name, classify_cdp_response, commands_for_cookie_enabled, commands_for_darkmode,
    commands_for_device, commands_for_scale_factor, commands_for_scrollbar_hidden,
    commands_for_touch, commands_for_useragent, CdpClass, CdpCommand, CdpResponseKind, DeviceInfo,
    Orientation, ScreenOrientation, UserAgent,
};

#[test]
fn screen_orientation_new() {
    let portrait = ScreenOrientation::new(false, 0);
    assert_eq!(portrait.kind, Orientation::portraitPrimary);
    assert_eq!(portrait.angle, 0);
    let landscape = ScreenOrientation::new(true, 90);
    assert_eq!(landscape.kind, Orientation::landscapePrimary);
    assert_eq!(landscape.angle, 90);
}

#[test]
fn device_info_new() {
    let d = DeviceInfo::new(1024, 768, 2000, true);
    assert_eq!(d.width, 1024);
    assert_eq!(d.height, 768);
    assert_eq!(d.deviceScaleFactor, 2000);
    assert!(d.mobile);
    assert!(d.scale.is_none());
    assert!(d.screenWidth.is_none());
    assert!(d.screenHeight.is_none());
    assert!(d.screenOrientation.is_none());
    assert!(!d.isTouchable);
    assert!(!d.isDarkMode);
    assert!(d.userAgent.is_none());
}

#[test]
fn device_override_is_metrics_then_touch() {
    let d = DeviceInfo::new(390, 844, 3000, true);
    let cmds = commands_for_device(&d);
    assert_eq!(cmds.len(), 2);
    assert_eq!(cdp_command_name(&cmds[0]), "Emulation.setDeviceMetricsOverride");
    assert_eq!(cdp_command_name(&cmds[1]), "Emulation.setTouchEmulationEnabled");
    match &cmds[0] {
        CdpCommand::SetDeviceMetricsOverride(payload) => {
            assert_eq!(payload.width, 390);
            assert_eq!(payload.height, 844);
            assert_eq!(payload.deviceScaleFactor, 3000);
            assert!(payload.mobile);
        }
        other => panic!("unexpected first command: {:?}", other),
    }
    // the touch toggle is driven by the same mobile flag
    assert_eq!(cmds[1], CdpCommand::SetTouchEmulationEnabled(true));

    // applying the same pair again issues the identical commands, so the
    // session ends in the same observable state
    let again = commands_for_device(&d);
    assert_eq!(cmds, again);
}

#[test]
fn scale_factor_resets_before_setting() {
    let cmds = commands_for_scale_factor(1500);
    assert_eq!(cmds.len(), 2);
    assert_eq!(cmds[0], CdpCommand::ResetPageScaleFactor);
    assert_eq!(cmds[1], CdpCommand::SetPageScaleFactor(1500));
    assert_eq!(cdp_command_name(&cmds[0]), "Emulation.resetPageScaleFactor");
    assert_eq!(cdp_command_name(&cmds[1]), "Emulation.setPageScaleFactor");
}

#[test]
fn single_command_builders() {
    let ua = UserAgent {
        userAgent: "MyAgent/2.0".to_string(),
        acceptLanguage: None,
        platform: None,
    };
    let cmds = commands_for_useragent(&ua);
    assert_eq!(cmds.len(), 1);
    assert_eq!(cdp_command_name(&cmds[0]), "Emulation.setUserAgentOverride");

    let cmds = commands_for_darkmode(true);
    assert_eq!(cmds, vec![CdpCommand::SetAutoDarkModeOverride(true)]);
    assert_eq!(cdp_command_name(&cmds[0]), "Emulation.setAutoDarkModeOverride");

    let cmds = commands_for_touch(false);
    assert_eq!(cmds, vec![CdpCommand::SetTouchEmulationEnabled(false)]);

    let cmds = commands_for_cookie_enabled(true);
    assert_eq!(cmds, vec![CdpCommand::SetDocumentCookieDisabled(true)]);
    assert_eq!(cdp_command_name(&cmds[0]), "Emulation.setDocumentCookieDisabled");

    let cmds = commands_for_scrollbar_hidden(true);
    assert_eq!(cmds, vec![CdpCommand::SetScrollbarsHidden(true)]);
    assert_eq!(cdp_command_name(&cmds[0]), "Emulation.setScrollbarsHidden");

    assert_eq!(cdp_command_name(&CdpCommand::GetVersion), "Browser.getVersion");
}

#[test]
fn classification_is_three_way() {
    assert_eq!(
        classify_cdp_response(CdpResponseKind::Payload),
        CdpClass::SuccessWithPayload
    );
    assert_eq!(
        classify_cdp_response(CdpResponseKind::UnrecognizedCommand),
        CdpClass::UnsupportedNoOp
    );
    assert_eq!(
        classify_cdp_response(CdpResponseKind::TransportFailure),
        CdpClass::Fatal
    );
}
