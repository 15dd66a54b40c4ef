//! The device-emulation layer over the remote-debugging protocol.
//!
//! This module resolves a request into an effective device profile, turns
//! the profile into typed protocol commands in their required order, and
//! classifies command outcomes. Sending a command over the wire is left to
//! the unverified shell; everything decided here is verified.

use vstd::prelude::*;

use crate::device::{DeviceCatalog, DeviceJson};
use crate::error::{SnapError, SnapResult};
use crate::snap::InForm;

verus! {

/// A user-agent override payload.
///
/// An empty `userAgent` is the unresolved sentinel: it is never sent to the
/// browser, but replaced by the browser's own default user agent at
/// configuration time.
#[allow(non_snake_case)]
#[derive(Debug, PartialEq)]
pub struct UserAgent {
    pub userAgent: String,
    pub acceptLanguage: Option<String>,
    pub platform: Option<String>,
}

/// A screen orientation kind.
#[allow(non_camel_case_types)]
#[derive(Debug, Clone, Copy, PartialEq, Eq, Structural)]
pub enum Orientation {
    portraitPrimary,
    portraitSecondary,
    landscapePrimary,
    landscapeSecondary,
}

/// A screen orientation: a kind and an angle in degrees.
#[derive(Debug, Clone, Copy, PartialEq, Eq, Structural)]
pub struct ScreenOrientation {
    pub kind: Orientation,
    pub angle: u32,
}

impl ScreenOrientation {
    /// The primary orientation for the given landscape flag.
    pub fn new(is_landscape: bool, angle: u32) -> (s: Self)
        ensures
            s == (ScreenOrientation {
                kind: if is_landscape {
                    Orientation::landscapePrimary
                } else {
                    Orientation::portraitPrimary
                },
                angle,
            }),
    {
        let orien = if is_landscape {
            Orientation::landscapePrimary
        } else {
            Orientation::portraitPrimary
        };
        ScreenOrientation { kind: orien, angle }
    }
}

/// The effective device profile of one request.
///
/// `deviceScaleFactor` and `scale` are device pixel ratios in thousandths.
/// The profile is resolved once per request and mutated at most once
/// in-flight: a full-page capture overwrites `width` and `height` with the
/// measured document size.
#[allow(non_snake_case)]
#[derive(Debug, PartialEq)]
pub struct DeviceInfo {
    pub width: u32,
    pub height: u32,
    pub deviceScaleFactor: u32,
    pub mobile: bool,
    pub scale: Option<u32>,
    pub screenWidth: Option<u32>,
    pub screenHeight: Option<u32>,
    pub screenOrientation: Option<ScreenOrientation>,
    pub isTouchable: bool,
    pub isDarkMode: bool,
    pub userAgent: Option<UserAgent>,
}

fn clone_opt_string(o: &Option<String>) -> (r: Option<String>)
    ensures
        r == *o,
{
    match o {
        Some(s) => Some(s.clone()),
        None => None,
    }
}

impl Clone for UserAgent {
    fn clone(&self) -> (r: Self)
        ensures
            r == *self,
    {
        UserAgent {
            userAgent: self.userAgent.clone(),
            acceptLanguage: clone_opt_string(&self.acceptLanguage),
            platform: clone_opt_string(&self.platform),
        }
    }
}

impl Clone for DeviceInfo {
    fn clone(&self) -> (r: Self)
        ensures
            r == *self,
    {
        DeviceInfo {
            width: self.width,
            height: self.height,
            deviceScaleFactor: self.deviceScaleFactor,
            mobile: self.mobile,
            scale: self.scale,
            screenWidth: self.screenWidth,
            screenHeight: self.screenHeight,
            screenOrientation: self.screenOrientation,
            isTouchable: self.isTouchable,
            isDarkMode: self.isDarkMode,
            userAgent: match &self.userAgent {
                Some(u) => Some(u.clone()),
                None => None,
            },
        }
    }
}

impl DeviceInfo {
    /// A bare profile with the given viewport and no overrides.
    pub fn new(w: u32, h: u32, sf: u32, is_mobile: bool) -> (d: Self)
        ensures
            d.width == w,
            d.height == h,
            d.deviceScaleFactor == sf,
            d.mobile == is_mobile,
            d.scale is None,
            d.screenWidth is None,
            d.screenHeight is None,
            d.screenOrientation is None,
            !d.isTouchable,
            !d.isDarkMode,
            d.userAgent is None,
    {
        DeviceInfo {
            width: w,
            height: h,
            deviceScaleFactor: sf,
            mobile: is_mobile,
            scale: None,
            screenWidth: None,
            screenHeight: None,
            screenOrientation: None,
            isTouchable: false,
            isDarkMode: false,
            userAgent: None,
        }
    }
}

/// The orientation flag of the resolved profile: an explicit `landscape`
/// always wins; otherwise a named device's flag; otherwise portrait.
pub open spec fn spec_landscape(payload: InForm, entry: Option<DeviceJson>) -> bool {
    match payload.landscape {
        Some(b) => b,
        None => match entry {
            Some(e) => e.viewport.isLandscape,
            None => false,
        },
    }
}

/// The scale factor of the resolved profile, in thousandths: an explicit
/// `factor` always wins; otherwise a named device's; otherwise 1000.
pub open spec fn spec_scale_factor(payload: InForm, entry: Option<DeviceJson>) -> u32 {
    match payload.factor {
        Some(f) => f,
        None => match entry {
            Some(e) => e.viewport.deviceScaleFactor,
            None => 1000u32,
        },
    }
}

/// The user-agent value of the resolved profile: an explicit, non-empty
/// `useragent` wins; otherwise a named device's bundled user agent;
/// otherwise the empty sentinel, to be filled from the browser later.
pub open spec fn spec_ua_value(payload: InForm, entry: Option<DeviceJson>) -> Seq<char> {
    if payload.useragent is Some && payload.useragent->0@.len() > 0 {
        payload.useragent->0@
    } else {
        match entry {
            Some(e) => e.userAgent@,
            None => Seq::<char>::empty(),
        }
    }
}

/// What the resolved profile must be, field by field, for a request and the
/// catalog entry its `device` named (if any).
pub open spec fn resolved_ok(payload: InForm, entry: Option<DeviceJson>, d: DeviceInfo) -> bool {
    &&& d.width == (match entry {
        Some(e) => e.viewport.width,
        None => payload.w,
    })
    &&& d.height == (match entry {
        Some(e) => e.viewport.height,
        None => payload.h,
    })
    &&& d.deviceScaleFactor == spec_scale_factor(payload, entry)
    &&& d.mobile == (match entry {
        Some(e) => e.viewport.isMobile,
        None => false,
    })
    &&& d.scale is None
    &&& d.screenWidth is None
    &&& d.screenHeight is None
    &&& d.screenOrientation == Some(
        ScreenOrientation {
            kind: if spec_landscape(payload, entry) {
                Orientation::landscapePrimary
            } else {
                Orientation::portraitPrimary
            },
            angle: 0u32,
        },
    )
    &&& d.isTouchable == (payload.touch == Some(true))
    &&& d.isDarkMode == (payload.darkmode == Some(true))
    &&& d.userAgent is Some
    &&& d.userAgent->0.userAgent@ == spec_ua_value(payload, entry)
    &&& d.userAgent->0.acceptLanguage == payload.lang
    &&& d.userAgent->0.platform == payload.platform
}

fn catalog_ua_or_empty(entry: Option<&DeviceJson>) -> (r: String)
    ensures
        r@ == (match entry {
            Some(e) => e.userAgent@,
            None => Seq::<char>::empty(),
        }),
{
    match entry {
        Some(e) => e.userAgent.clone(),
        None => String::new(),
    }
}

impl DeviceInfo {
    /// Resolves a request into its effective device profile.
    ///
    /// Explicit request fields always win over catalog values, field by
    /// field; a named device contributes its viewport, mobile flag,
    /// landscape flag and bundled user agent; an unknown device id is a
    /// caller error.
    pub fn resolve(payload: &InForm, catalog: &DeviceCatalog) -> (r: SnapResult<DeviceInfo>)
        requires
            catalog.wf(),
        ensures
            match payload.device {
                Some(id) => match catalog.spec_lookup(id@) {
                    Some(e) => r is Ok && resolved_ok(*payload, Some(e), r->Ok_0),
                    None => r == Err::<DeviceInfo, SnapError>(SnapError::Other),
                },
                None => r is Ok && resolved_ok(*payload, None::<DeviceJson>, r->Ok_0),
            },
    {
        let entry: Option<&DeviceJson> = match &payload.device {
            Some(id) => match catalog.lookup(id) {
                Some(e) => Some(e),
                None => {
                    return Err(SnapError::Other);
                },
            },
            None => None,
        };

        let width: u32 = match entry {
            Some(e) => e.viewport.width,
            None => payload.w,
        };
        let height: u32 = match entry {
            Some(e) => e.viewport.height,
            None => payload.h,
        };
        let sf: u32 = match payload.factor {
            Some(f) => f,
            None => match entry {
                Some(e) => e.viewport.deviceScaleFactor,
                None => 1000,
            },
        };
        let mobile: bool = match entry {
            Some(e) => e.viewport.isMobile,
            None => false,
        };
        let is_landscape: bool = match payload.landscape {
            Some(b) => b,
            None => match entry {
                Some(e) => e.viewport.isLandscape,
                None => false,
            },
        };
        let ua_value: String = match &payload.useragent {
            Some(u) => {
                if u.as_str().is_empty() {
                    catalog_ua_or_empty(entry)
                } else {
                    u.clone()
                }
            },
            None => catalog_ua_or_empty(entry),
        };

        Ok(
            DeviceInfo {
                width,
                height,
                deviceScaleFactor: sf,
                mobile,
                scale: None,
                screenWidth: None,
                screenHeight: None,
                screenOrientation: Some(ScreenOrientation::new(is_landscape, 0)),
                isTouchable: match payload.touch {
                    Some(b) => b,
                    None => false,
                },
                isDarkMode: match payload.darkmode {
                    Some(b) => b,
                    None => false,
                },
                userAgent: Some(
                    UserAgent {
                        userAgent: ua_value,
                        acceptLanguage: clone_opt_string(&payload.lang),
                        platform: clone_opt_string(&payload.platform),
                    },
                ),
            },
        )
    }
}

/// Explicit request fields always win over catalog values, field by
/// field: whenever both a named device and an explicit override are
/// given, the resolved profile carries the explicit value, never the
/// catalog's.
pub proof fn lemma_explicit_overrides_win(payload: InForm, entry: DeviceJson, d: DeviceInfo)
    requires
        resolved_ok(payload, Some(entry), d),
    ensures
        payload.factor is Some ==> d.deviceScaleFactor == payload.factor->0,
        payload.landscape is Some ==> d.screenOrientation == Some(
            ScreenOrientation {
                kind: if payload.landscape->0 {
                    Orientation::landscapePrimary
                } else {
                    Orientation::portraitPrimary
                },
                angle: 0u32,
            },
        ),
        payload.touch is Some ==> d.isTouchable == payload.touch->0,
        payload.darkmode is Some ==> d.isDarkMode == payload.darkmode->0,
        (payload.useragent is Some && payload.useragent->0@.len() > 0) ==> d.userAgent is Some
            && d.userAgent->0.userAgent@ == payload.useragent->0@,
        payload.lang is Some ==> d.userAgent->0.acceptLanguage == payload.lang,
        payload.platform is Some ==> d.userAgent->0.platform == payload.platform,
{
}

/// With a named device and no explicit overrides, the resolved profile's
/// viewport is the catalog entry's exactly: size, scale factor, mobile
/// flag and orientation all come from the catalog, and so does the
/// bundled user agent.
pub proof fn lemma_catalog_profile(payload: InForm, entry: DeviceJson, d: DeviceInfo)
    requires
        resolved_ok(payload, Some(entry), d),
        payload.factor is None,
        payload.landscape is None,
        payload.useragent is None,
    ensures
        d.width == entry.viewport.width,
        d.height == entry.viewport.height,
        d.deviceScaleFactor == entry.viewport.deviceScaleFactor,
        d.mobile == entry.viewport.isMobile,
        d.screenOrientation == Some(
            ScreenOrientation {
                kind: if entry.viewport.isLandscape {
                    Orientation::landscapePrimary
                } else {
                    Orientation::portraitPrimary
                },
                angle: 0u32,
            },
        ),
        d.userAgent is Some && d.userAgent->0.userAgent@ == entry.userAgent@,
{
}

/// One typed remote-debugging command with its parameters.
///
/// Each variant stands for one wire command; the unverified shell
/// serializes the payload, sends it under the name `cdp_command_name`
/// gives, and reports how it ended.
#[derive(Debug, PartialEq)]
pub enum CdpCommand {
    SetUserAgentOverride(UserAgent),
    SetDeviceMetricsOverride(DeviceInfo),
    SetTouchEmulationEnabled(bool),
    SetAutoDarkModeOverride(bool),
    ResetPageScaleFactor,
    SetPageScaleFactor(u32),
    SetDocumentCookieDisabled(bool),
    SetScrollbarsHidden(bool),
    GetVersion,
}

/// The wire name of each command.
pub open spec fn spec_cdp_command_name(cmd: CdpCommand) -> Seq<char> {
    match cmd {
        CdpCommand::SetUserAgentOverride(_) => "Emulation.setUserAgentOverride"@,
        CdpCommand::SetDeviceMetricsOverride(_) => "Emulation.setDeviceMetricsOverride"@,
        CdpCommand::SetTouchEmulationEnabled(_) => "Emulation.setTouchEmulationEnabled"@,
        CdpCommand::SetAutoDarkModeOverride(_) => "Emulation.setAutoDarkModeOverride"@,
        CdpCommand::ResetPageScaleFactor => "Emulation.resetPageScaleFactor"@,
        CdpCommand::SetPageScaleFactor(_) => "Emulation.setPageScaleFactor"@,
        CdpCommand::SetDocumentCookieDisabled(_) => "Emulation.setDocumentCookieDisabled"@,
        CdpCommand::SetScrollbarsHidden(_) => "Emulation.setScrollbarsHidden"@,
        CdpCommand::GetVersion => "Browser.getVersion"@,
    }
}

/// The wire name of a command.
pub fn cdp_command_name(cmd: &CdpCommand) -> (r: &'static str)
    ensures
        r@ == spec_cdp_command_name(*cmd),
{
    match cmd {
        CdpCommand::SetUserAgentOverride(_) => "Emulation.setUserAgentOverride",
        CdpCommand::SetDeviceMetricsOverride(_) => "Emulation.setDeviceMetricsOverride",
        CdpCommand::SetTouchEmulationEnabled(_) => "Emulation.setTouchEmulationEnabled",
        CdpCommand::SetAutoDarkModeOverride(_) => "Emulation.setAutoDarkModeOverride",
        CdpCommand::ResetPageScaleFactor => "Emulation.resetPageScaleFactor",
        CdpCommand::SetPageScaleFactor(_) => "Emulation.setPageScaleFactor",
        CdpCommand::SetDocumentCookieDisabled(_) => "Emulation.setDocumentCookieDisabled",
        CdpCommand::SetScrollbarsHidden(_) => "Emulation.setScrollbarsHidden",
        CdpCommand::GetVersion => "Browser.getVersion",
    }
}

/// The two commands that apply a device profile, in their required order:
/// the metrics push first, then the touch toggle driven by the same
/// `mobile` flag.
pub open spec fn device_override_cmds(d: DeviceInfo) -> Seq<CdpCommand> {
    seq![
        CdpCommand::SetDeviceMetricsOverride(d),
        CdpCommand::SetTouchEmulationEnabled(d.mobile),
    ]
}

/// The command sequence of the user-agent override.
pub fn commands_for_useragent(user_agent: &UserAgent) -> (r: Vec<CdpCommand>)
    ensures
        r@ == seq![CdpCommand::SetUserAgentOverride(*user_agent)],
{
    let mut v: Vec<CdpCommand> = Vec::new();
    v.push(CdpCommand::SetUserAgentOverride(user_agent.clone()));
    v
}

/// The command sequence of the device-metrics override: metrics first, then
/// the touch toggle; the toggle assumes the metrics just pushed.
pub fn commands_for_device(device: &DeviceInfo) -> (r: Vec<CdpCommand>)
    ensures
        r@ == device_override_cmds(*device),
{
    let mut v: Vec<CdpCommand> = Vec::new();
    v.push(CdpCommand::SetDeviceMetricsOverride(device.clone()));
    v.push(CdpCommand::SetTouchEmulationEnabled(device.mobile));
    v
}

/// The command sequence of the dark-mode override.
pub fn commands_for_darkmode(darkmode: bool) -> (r: Vec<CdpCommand>)
    ensures
        r@ == seq![CdpCommand::SetAutoDarkModeOverride(darkmode)],
{
    let mut v: Vec<CdpCommand> = Vec::new();
    v.push(CdpCommand::SetAutoDarkModeOverride(darkmode));
    v
}

/// The command sequence of the touch-emulation toggle.
pub fn commands_for_touch(touch: bool) -> (r: Vec<CdpCommand>)
    ensures
        r@ == seq![CdpCommand::SetTouchEmulationEnabled(touch)],
{
    let mut v: Vec<CdpCommand> = Vec::new();
    v.push(CdpCommand::SetTouchEmulationEnabled(touch));
    v
}

/// The command sequence of the page-scale override: the reset must precede
/// the set.
pub fn commands_for_scale_factor(factor_milli: u32) -> (r: Vec<CdpCommand>)
    ensures
        r@ == seq![
            CdpCommand::ResetPageScaleFactor,
            CdpCommand::SetPageScaleFactor(factor_milli),
        ],
{
    let mut v: Vec<CdpCommand> = Vec::new();
    v.push(CdpCommand::ResetPageScaleFactor);
    v.push(CdpCommand::SetPageScaleFactor(factor_milli));
    v
}

/// The command sequence of the document-cookie toggle. The flag is handed
/// through to the wire command unchanged.
pub fn commands_for_cookie_enabled(enable: bool) -> (r: Vec<CdpCommand>)
    ensures
        r@ == seq![CdpCommand::SetDocumentCookieDisabled(enable)],
{
    let mut v: Vec<CdpCommand> = Vec::new();
    v.push(CdpCommand::SetDocumentCookieDisabled(enable));
    v
}

/// The command sequence of the scrollbar-visibility override.
pub fn commands_for_scrollbar_hidden(hidden: bool) -> (r: Vec<CdpCommand>)
    ensures
        r@ == seq![CdpCommand::SetScrollbarsHidden(hidden)],
{
    let mut v: Vec<CdpCommand> = Vec::new();
    v.push(CdpCommand::SetScrollbarsHidden(hidden));
    v
}

/// How the transport reported one protocol command to have ended.
#[derive(Debug, Clone, Copy, PartialEq, Eq, Structural)]
pub enum CdpResponseKind {
    /// The command returned a payload.
    Payload,
    /// The browser build does not recognize the command or a parameter.
    UnrecognizedCommand,
    /// A transport or session failure.
    TransportFailure,
}

/// The three-way classification of a protocol command outcome.
#[derive(Debug, Clone, Copy, PartialEq, Eq, Structural)]
pub enum CdpClass {
    SuccessWithPayload,
    /// The command is an optional capability this browser build lacks; the
    /// outcome is swallowed as a no-op, never raised as an error.
    UnsupportedNoOp,
    /// A genuine fault; it propagates as `SnapError::DriverError`.
    Fatal,
}

/// Classifies a protocol command outcome: an unrecognized command or
/// parameter is soft-ignorable, every other failure is fatal.
pub fn classify_cdp_response(kind: CdpResponseKind) -> (c: CdpClass)
    ensures
        c is SuccessWithPayload <==> kind is Payload,
        c is UnsupportedNoOp <==> kind is UnrecognizedCommand,
        c is Fatal <==> kind is TransportFailure,
{
    match kind {
        CdpResponseKind::Payload => CdpClass::SuccessWithPayload,
        CdpResponseKind::UnrecognizedCommand => CdpClass::UnsupportedNoOp,
        CdpResponseKind::TransportFailure => CdpClass::Fatal,
    }
}

/// The observable emulation state of one browser session: what each
/// override command of this library leaves behind. `None` means the
/// browser default, untouched so far. `page_scale` is in thousandths.
pub struct EmulationState {
    pub user_agent: Option<UserAgent>,
    pub metrics: Option<DeviceInfo>,
    pub touch_enabled: Option<bool>,
    pub auto_dark_mode: Option<bool>,
    pub page_scale: Option<u32>,
    pub document_cookie_disabled: Option<bool>,
    pub scrollbars_hidden: Option<bool>,
}

/// The effect of one command on the session's observable emulation state.
pub open spec fn apply_cdp(s: EmulationState, c: CdpCommand) -> EmulationState {
    match c {
        CdpCommand::SetUserAgentOverride(ua) => EmulationState { user_agent: Some(ua), ..s },
        CdpCommand::SetDeviceMetricsOverride(d) => EmulationState { metrics: Some(d), ..s },
        CdpCommand::SetTouchEmulationEnabled(b) => EmulationState { touch_enabled: Some(b), ..s },
        CdpCommand::SetAutoDarkModeOverride(b) => EmulationState { auto_dark_mode: Some(b), ..s },
        CdpCommand::ResetPageScaleFactor => EmulationState { page_scale: Some(1000u32), ..s },
        CdpCommand::SetPageScaleFactor(f) => EmulationState { page_scale: Some(f), ..s },
        CdpCommand::SetDocumentCookieDisabled(b) => EmulationState {
            document_cookie_disabled: Some(b),
            ..s
        },
        CdpCommand::SetScrollbarsHidden(b) => EmulationState { scrollbars_hidden: Some(b), ..s },
        CdpCommand::GetVersion => s,
    }
}

/// The effect of a command sequence, applied left to right.
pub open spec fn apply_cdp_seq(s: EmulationState, cs: Seq<CdpCommand>) -> EmulationState
    decreases cs.len(),
{
    if cs.len() == 0 {
        s
    } else {
        apply_cdp_seq(apply_cdp(s, cs[0]), cs.drop_first())
    }
}

/// Applying the device-metrics override pair twice with the same profile is
/// idempotent: the session ends in the same observable state as after one
/// application.
pub proof fn lemma_device_override_idempotent(s: EmulationState, d: DeviceInfo)
    ensures
        apply_cdp_seq(apply_cdp_seq(s, device_override_cmds(d)), device_override_cmds(d))
            == apply_cdp_seq(s, device_override_cmds(d)),
{
    let cs = device_override_cmds(d);
    assert(cs.len() == 2);
    lemma_apply_pair(s, cs);
    lemma_apply_pair(apply_cdp_seq(s, cs), cs);
}

/// A two-command sequence applies as the two commands in order.
proof fn lemma_apply_pair(s: EmulationState, cs: Seq<CdpCommand>)
    requires
        cs.len() == 2,
    ensures
        apply_cdp_seq(s, cs) == apply_cdp(apply_cdp(s, cs[0]), cs[1]),
{
    let rest = cs.drop_first();
    assert(rest.len() == 1);
    assert(rest[0] == cs[1]);
    assert(rest.drop_first().len() == 0);
    let s1 = apply_cdp(s, cs[0]);
    assert(apply_cdp_seq(s, cs) == apply_cdp_seq(s1, rest));
    assert(apply_cdp_seq(s1, rest) == apply_cdp_seq(apply_cdp(s1, rest[0]), rest.drop_first()));
    assert(apply_cdp_seq(apply_cdp(s1, rest[0]), rest.drop_first()) == apply_cdp(s1, cs[1]));
}

} // verus!
