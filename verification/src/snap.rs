//! The capture request and the per-request capture state machine.
//!
//! `CaptureOrchestrator` drives one request through its strictly ordered
//! protocol work: configuration, navigation, optional full-page
//! measurement, optional cookie injection, optional wait, capture and
//! transcoding. It decides; the unverified shell performs. Each call of
//! `step` consumes what the shell observed of the last action and hands
//! out the next one, so within one request every operation completes
//! before the next is issued.

use vstd::prelude::*;

use crate::cdp::{CdpCommand, DeviceInfo};
use crate::device::{DeviceCatalog, DeviceJson};
use crate::error::{SnapError, SnapResult};
use crate::format_tran::{
    decoded_rgba, is_reencode_target, png_transformer, raster_encoding, raster_target,
    spec_parse_format, svg_framed, FileFormat,
};

verus! {

/// One inbound capture request.
///
/// `factor` is the requested device pixel ratio in thousandths (a ratio of
/// 1.5 is 1500), `waittime` a delay in seconds before capture, `fileformat`
/// the case-insensitive output-format token.
#[derive(Debug, PartialEq)]
pub struct InForm {
    pub url: String,
    pub device: Option<String>,
    pub h: u32,
    pub w: u32,
    pub filename: String,
    pub fileformat: String,
    pub cookie: Option<String>,
    pub waittime: Option<u8>,
    pub fullpage: Option<bool>,
    pub useragent: Option<String>,
    pub platform: Option<String>,
    pub lang: Option<String>,
    pub factor: Option<u32>,
    pub landscape: Option<bool>,
    pub darkmode: Option<bool>,
    pub touch: Option<bool>,
}

/// A structured cookie, parsed from the encoded cookie string of a
/// request. `expiry` is seconds since the epoch.
#[derive(Debug, PartialEq)]
pub struct CookieData {
    pub name: String,
    pub value: String,
    pub domain: Option<String>,
    pub path: Option<String>,
    pub secure: Option<bool>,
    pub http_only: Option<bool>,
    pub expiry: Option<i64>,
}

/// The view of an optional string.
pub open spec fn opt_str_view(o: Option<String>) -> Option<Seq<char>> {
    match o {
        Some(s) => Some(s@),
        None => None,
    }
}

/// What parsing an encoded cookie string yields: `None` for a malformed
/// string, else name, value, domain, path, secure, http-only and expiry.
pub uninterp spec fn parsed_cookie(s: Seq<char>) -> Option<
    (Seq<char>, Seq<char>, Option<Seq<char>>, Option<Seq<char>>, Option<bool>, Option<bool>, Option<
        i64,
    >),
>;

/// The fields of a structured cookie against the parse of its source.
pub open spec fn cookie_fields_match(
    c: CookieData,
    t: (
        Seq<char>,
        Seq<char>,
        Option<Seq<char>>,
        Option<Seq<char>>,
        Option<bool>,
        Option<bool>,
        Option<i64>,
    ),
) -> bool {
    &&& c.name@ == t.0
    &&& c.value@ == t.1
    &&& opt_str_view(c.domain) == t.2
    &&& opt_str_view(c.path) == t.3
    &&& c.secure == t.4
    &&& c.http_only == t.5
    &&& c.expiry == t.6
}

/// Relies on cookie::Cookie::parse_encoded, through its re-export by the
/// webdriver crate: the parse is a function of the string alone. A
/// malformed string is the caller error `CookieParseError`.
#[verifier::external_body]
fn parse_cookie_encoded(s: &str) -> (r: SnapResult<CookieData>)
    ensures
        match parsed_cookie(s@) {
            Some(t) => r is Ok && cookie_fields_match(r->Ok_0, t),
            None => (r == Err::<CookieData, SnapError>(SnapError::CookieParseError)),
        },
{
    match thirtyfour::cookie::Cookie::parse_encoded(s) {
        Ok(c) => Ok(
            CookieData {
                name: c.name().to_string(),
                value: c.value().to_string(),
                domain: c.domain().map(|d| d.to_string()),
                path: c.path().map(|p| p.to_string()),
                secure: c.secure(),
                http_only: c.http_only(),
                expiry: c.expires_datetime().map(|t| t.unix_timestamp()),
            },
        ),
        Err(_) => Err(SnapError::CookieParseError),
    }
}

/// The diagnostic script run once after configuration, before navigation.
pub fn platform_probe_script() -> (r: &'static str)
    ensures
        r@ == "return navigator.platform"@,
{
    "return navigator.platform"
}

/// The script that reads the full document scroll width.
pub fn scroll_width_script() -> (r: &'static str)
    ensures
        r@ == "return document.body.parentNode.scrollWidth"@,
{
    "return document.body.parentNode.scrollWidth"
}

/// The script that reads the full document scroll height.
pub fn scroll_height_script() -> (r: &'static str)
    ensures
        r@ == "return document.body.parentNode.scrollHeight"@,
{
    "return document.body.parentNode.scrollHeight"
}

/// One step's outside work, handed to the unverified shell to perform.
#[derive(Debug, PartialEq)]
pub enum Action {
    /// Ask the browser for its default user agent (a version query).
    QueryBrowserUserAgent,
    /// Send this protocol command and classify its outcome.
    SendCdp(CdpCommand),
    /// Run `platform_probe_script` and log the value.
    ProbePlatform,
    /// Navigate to this url.
    Navigate(String),
    /// Run `scroll_width_script` and hand back the value.
    MeasureScrollWidth,
    /// Run `scroll_height_script` and hand back the value.
    MeasureScrollHeight,
    /// Add this cookie to the session.
    AddCookie(CookieData),
    /// Reload the page, so the cookie applies.
    Reload,
    /// Suspend this request for the given seconds, without holding any
    /// process-wide resource.
    Sleep(u8),
    /// Capture the viewport as PNG bytes.
    Capture,
    /// The request is done; respond with these bytes.
    Respond(Vec<u8>),
    /// The request failed; answer with this error.
    Abort(SnapError),
}

/// What the shell observed of the last action.
#[derive(Debug, PartialEq)]
pub enum Event {
    /// Begin; the first call of `step` takes this.
    Start,
    /// The user-agent query ended; `None` when the version info lacks the
    /// field, which is fatal.
    BrowserUserAgent(Option<String>),
    /// The protocol command succeeded or was soft-ignored as an
    /// unsupported capability.
    CdpDone,
    /// The diagnostic script ran.
    PlatformProbed,
    /// Navigation ended.
    Navigated,
    /// The measured scroll width.
    MeasuredWidth(u32),
    /// The measured scroll height.
    MeasuredHeight(u32),
    /// The cookie was added.
    CookieAdded,
    /// The reload ended.
    Reloaded,
    /// The delay elapsed.
    Slept,
    /// The captured PNG bytes.
    Screenshot(Vec<u8>),
    /// The action failed fatally with this error.
    Failed(SnapError),
}

/// The phase of one request, `Init` through `Done` or `Failed`. Phases
/// with a `1` belong to the first device-metrics push, those with a `2` to
/// the full-page re-push after measurement.
#[derive(Debug, Clone, Copy, PartialEq, Eq, Structural)]
pub enum Phase {
    Init,
    FetchUa,
    SetUa,
    Metrics1,
    Touch1,
    Dark,
    Scrollbar,
    Diag,
    Nav,
    MeasW,
    MeasH,
    Metrics2,
    Touch2,
    Cookie,
    Reload,
    Wait,
    Cap,
    Done,
    Failed,
}

/// Whether the request asked for a full-page capture.
pub open spec fn fullpage_requested(p: InForm) -> bool {
    p.fullpage == Some(true)
}

/// Whether an action is a device-metrics push.
pub open spec fn is_metrics_push(a: Action) -> bool {
    match a {
        Action::SendCdp(c) => c is SetDeviceMetricsOverride,
        _ => false,
    }
}

/// Whether an action measures the document size.
pub open spec fn is_measure(a: Action) -> bool {
    a is MeasureScrollWidth || a is MeasureScrollHeight
}

/// How many device-metrics pushes a trace holds.
pub open spec fn count_metrics_pushes(t: Seq<Action>) -> int
    decreases t.len(),
{
    if t.len() == 0 {
        0
    } else {
        count_metrics_pushes(t.drop_last()) + if is_metrics_push(t.last()) {
            1int
        } else {
            0int
        }
    }
}

/// Measurements happen only in full-page requests, and only between the
/// first device-metrics push and the second.
pub open spec fn measures_after_first_push(t: Seq<Action>, p: InForm) -> bool {
    forall|i: int|
        0 <= i < t.len() && is_measure(#[trigger] t[i]) ==> fullpage_requested(p)
            && count_metrics_pushes(t.take(i)) == 1
}

/// Navigation and capture happen only for a recognized format token.
pub open spec fn browser_work_needs_format(t: Seq<Action>, p: InForm) -> bool {
    forall|i: int|
        0 <= i < t.len() && ((#[trigger] t[i]) is Navigate || t[i] is Capture)
            ==> spec_parse_format(p.fileformat@) is Some
}

proof fn lemma_count_push(t: Seq<Action>, a: Action)
    ensures
        count_metrics_pushes(t.push(a)) == count_metrics_pushes(t) + (if is_metrics_push(a) {
            1int
        } else {
            0int
        }),
{
    assert(t.push(a).drop_last() =~= t);
    assert(t.push(a).last() == a);
}

/// Appending one action keeps the trace invariants, provided the action
/// itself respects them.
proof fn lemma_step_trace(t: Seq<Action>, a: Action, p: InForm)
    requires
        measures_after_first_push(t, p),
        browser_work_needs_format(t, p),
        is_measure(a) ==> fullpage_requested(p) && count_metrics_pushes(t) == 1,
        (a is Navigate || a is Capture) ==> spec_parse_format(p.fileformat@) is Some,
    ensures
        count_metrics_pushes(t.push(a)) == count_metrics_pushes(t) + (if is_metrics_push(a) {
            1int
        } else {
            0int
        }),
        measures_after_first_push(t.push(a), p),
        browser_work_needs_format(t.push(a), p),
{
    lemma_count_push(t, a);
    let t1 = t.push(a);
    assert forall|i: int|
        0 <= i < t1.len() && is_measure(#[trigger] t1[i]) implies fullpage_requested(p)
        && count_metrics_pushes(t1.take(i)) == 1 by {
        if i < t.len() {
            assert(t1[i] == t[i]);
            assert(t1.take(i) =~= t.take(i));
        } else {
            assert(t1[i] == a);
            assert(t1.take(i) =~= t);
        }
    }
    assert forall|i: int|
        0 <= i < t1.len() && ((#[trigger] t1[i]) is Navigate || t1[i]
            is Capture) implies spec_parse_format(p.fileformat@) is Some by {
        if i < t.len() {
            assert(t1[i] == t[i]);
        } else {
            assert(t1[i] == a);
        }
    }
}

/// The per-request state machine.
pub struct CaptureOrchestrator {
    payload: InForm,
    format: Option<FileFormat>,
    profile: Option<DeviceInfo>,
    scroll_w: u32,
    phase: Phase,
    trace: Ghost<Seq<Action>>,
}

impl CaptureOrchestrator {
    /// The request being served.
    pub closed spec fn spec_payload(&self) -> InForm {
        self.payload
    }

    /// The validated output format; `None` for an unrecognized token.
    pub closed spec fn spec_format(&self) -> Option<FileFormat> {
        self.format
    }

    /// The resolved device profile; `None` for an unknown device id.
    pub closed spec fn spec_profile(&self) -> Option<DeviceInfo> {
        self.profile
    }

    /// The stored full-page scroll width, once measured.
    pub closed spec fn spec_scroll_w(&self) -> u32 {
        self.scroll_w
    }

    /// The current phase.
    pub closed spec fn spec_phase(&self) -> Phase {
        self.phase
    }

    /// Every action handed out so far, in order.
    pub closed spec fn trace(&self) -> Seq<Action> {
        self.trace@
    }

    /// How many device-metrics pushes the whole request takes.
    pub open spec fn expected_pushes(&self) -> int {
        if fullpage_requested(self.spec_payload()) {
            2
        } else {
            1
        }
    }

    /// The pushes already issued, as the phase determines them.
    pub open spec fn phase_pushes(&self) -> int {
        match self.spec_phase() {
            Phase::Init => 0,
            Phase::FetchUa => 0,
            Phase::SetUa => 0,
            Phase::Metrics1 => 1,
            Phase::Touch1 => 1,
            Phase::Dark => 1,
            Phase::Scrollbar => 1,
            Phase::Diag => 1,
            Phase::Nav => 1,
            Phase::MeasW => 1,
            Phase::MeasH => 1,
            Phase::Metrics2 => 2,
            Phase::Touch2 => 2,
            Phase::Cookie => self.expected_pushes(),
            Phase::Reload => self.expected_pushes(),
            Phase::Wait => self.expected_pushes(),
            Phase::Cap => self.expected_pushes(),
            Phase::Done => self.expected_pushes(),
            Phase::Failed => 0,
        }
    }

    /// The state invariant: the trace accounts for the phase.
    pub open spec fn wf(&self) -> bool {
        &&& (self.spec_phase() is Failed || count_metrics_pushes(self.trace())
            == self.phase_pushes())
        &&& count_metrics_pushes(self.trace()) <= self.expected_pushes()
        &&& measures_after_first_push(self.trace(), self.spec_payload())
        &&& browser_work_needs_format(self.trace(), self.spec_payload())
        &&& (match self.spec_format() {
            Some(f) => spec_parse_format(self.spec_payload().fileformat@) == Some(f),
            None => spec_parse_format(self.spec_payload().fileformat@) is None,
        })
        &&& (!(self.spec_phase() is Init) && !(self.spec_phase() is Failed)
            ==> self.spec_format() is Some)
        &&& ((self.spec_phase() is MeasW || self.spec_phase() is MeasH || self.spec_phase()
            is Metrics2 || self.spec_phase() is Touch2) ==> fullpage_requested(self.spec_payload()))
    }

    /// Prepares one request: validates the format token and resolves the
    /// device profile. Nothing touches the browser before the first
    /// `step`.
    pub fn new(payload: InForm, catalog: &DeviceCatalog) -> (o: CaptureOrchestrator)
        requires
            catalog.wf(),
        ensures
            o.wf(),
            o.spec_phase() is Init,
            o.trace() == Seq::<Action>::empty(),
            o.spec_payload() == payload,
            (match o.spec_format() {
                Some(f) => spec_parse_format(payload.fileformat@) == Some(f),
                None => spec_parse_format(payload.fileformat@) is None,
            }),
            (match payload.device {
                Some(id) => (match catalog.spec_lookup(id@) {
                    Some(e) => o.spec_profile() is Some && crate::cdp::resolved_ok(
                        payload,
                        Some(e),
                        o.spec_profile()->0,
                    ),
                    None => o.spec_profile() is None,
                }),
                None => o.spec_profile() is Some && crate::cdp::resolved_ok(
                    payload,
                    None::<DeviceJson>,
                    o.spec_profile()->0,
                ),
            }),
    {
        let format = match FileFormat::from_str(payload.fileformat.as_str()) {
            Ok(f) => Some(f),
            Err(_) => None,
        };
        let profile = match DeviceInfo::resolve(&payload, catalog) {
            Ok(d) => Some(d),
            Err(_) => None,
        };
        CaptureOrchestrator {
            payload,
            format,
            profile,
            scroll_w: 0,
            phase: Phase::Init,
            trace: Ghost(Seq::empty()),
        }
    }

    /// The current phase.
    pub fn phase(&self) -> (p: Phase)
        ensures
            p == self.spec_phase(),
    {
        self.phase
    }
}

/// What every step guarantees: the invariant holds again, the request and
/// format are untouched, the action is appended to the trace, and a
/// response only ends a capture.
pub open spec fn step_frame(
    pre: CaptureOrchestrator,
    post: CaptureOrchestrator,
    a: Action,
) -> bool {
    &&& post.wf()
    &&& post.spec_payload() == pre.spec_payload()
    &&& post.spec_format() == pre.spec_format()
    &&& post.trace() == pre.trace().push(a)
    &&& (a is Respond ==> pre.spec_phase() is Cap && post.spec_phase() is Done)
}

/// A fatal outcome of any action fails the request with its error.
pub open spec fn fail_on_event(ev: Event, post: CaptureOrchestrator, a: Action) -> bool {
    ev matches Event::Failed(e) ==> a == Action::Abort(e) && post.spec_phase() is Failed
}

/// After the page is ready for capture: the optional wait, then the
/// capture.
pub open spec fn spec_wait_or_capture(
    pre: CaptureOrchestrator,
    post: CaptureOrchestrator,
    a: Action,
) -> bool {
    match pre.spec_payload().waittime {
        Some(t) => a == Action::Sleep(t) && post.spec_phase() is Wait,
        None => a is Capture && post.spec_phase() is Cap,
    }
}

/// After navigation and any full-page work: the optional cookie injection
/// (a malformed cookie string is the caller error `CookieParseError`),
/// then the wait, then the capture.
pub open spec fn spec_cookie_or_later(
    pre: CaptureOrchestrator,
    post: CaptureOrchestrator,
    a: Action,
) -> bool {
    match pre.spec_payload().cookie {
        Some(s) => match parsed_cookie(s@) {
            Some(t) => (a matches Action::AddCookie(c) && cookie_fields_match(c, t))
                && post.spec_phase() is Cookie,
            None => a == Action::Abort(SnapError::CookieParseError) && post.spec_phase() is Failed,
        },
        None => spec_wait_or_capture(pre, post, a),
    }
}

/// The opening move of the configuration: fill the user-agent sentinel
/// from the browser if it is empty, else send the override; a profile
/// without a user agent goes straight to the metrics push.
pub open spec fn spec_config_start(d: DeviceInfo, post: CaptureOrchestrator, a: Action) -> bool {
    match d.userAgent {
        Some(u) => {
            if u.userAgent@.len() == 0 {
                a is QueryBrowserUserAgent && post.spec_phase() is FetchUa
            } else {
                a == Action::SendCdp(CdpCommand::SetUserAgentOverride(u)) && post.spec_phase()
                    is SetUa
            }
        },
        None => a == Action::SendCdp(CdpCommand::SetDeviceMetricsOverride(d)) && post.spec_phase()
            is Metrics1,
    }
}

impl CaptureOrchestrator {
    fn fail_with(&mut self, e: SnapError) -> (a: Action)
        ensures
            final(self).payload == old(self).payload,
            final(self).format == old(self).format,
            final(self).profile == old(self).profile,
            final(self).scroll_w == old(self).scroll_w,
            final(self).trace == old(self).trace,
            final(self).spec_phase() is Failed,
            a == Action::Abort(e),
    {
        self.phase = Phase::Failed;
        Action::Abort(e)
    }

    fn record(&mut self, a: Action) -> (r: Action)
        requires
            measures_after_first_push(old(self).trace@, old(self).payload),
            browser_work_needs_format(old(self).trace@, old(self).payload),
            is_measure(a) ==> fullpage_requested(old(self).payload) && count_metrics_pushes(
                old(self).trace@,
            ) == 1,
            (a is Navigate || a is Capture) ==> spec_parse_format(
                old(self).payload.fileformat@,
            ) is Some,
        ensures
            r == a,
            final(self).payload == old(self).payload,
            final(self).format == old(self).format,
            final(self).profile == old(self).profile,
            final(self).scroll_w == old(self).scroll_w,
            final(self).phase == old(self).phase,
            final(self).trace@ == old(self).trace@.push(a),
            count_metrics_pushes(final(self).trace@) == count_metrics_pushes(old(self).trace@) + (
            if is_metrics_push(a) {
                1int
            } else {
                0int
            }),
            measures_after_first_push(final(self).trace@, final(self).payload),
            browser_work_needs_format(final(self).trace@, final(self).payload),
    {
        proof {
            lemma_step_trace(self.trace@, a, self.payload);
        }
        self.trace = Ghost(self.trace@.push(a));
        a
    }

    fn step_init(&mut self, ev: Event) -> (a: Action)
        requires
            old(self).wf(),
            old(self).spec_phase() is Init,
        ensures
            step_frame(*old(self), *final(self), a),
            fail_on_event(ev, *final(self), a),
            (ev is Start && old(self).spec_format() is None) ==> a == Action::Abort(
                SnapError::FormatError,
            ) && final(self).spec_phase() is Failed,
            (ev is Start && old(self).spec_format() is Some && old(self).spec_profile() is None)
                ==> a == Action::Abort(SnapError::Other) && final(self).spec_phase() is Failed,
            (ev is Start && old(self).spec_format() is Some && old(self).spec_profile() is Some)
                ==> spec_config_start(old(self).spec_profile()->0, *final(self), a),
    {
        let act: Action = match ev {
            Event::Start => {
                if self.format.is_none() {
                    self.fail_with(SnapError::FormatError)
                } else {
                    match &self.profile {
                        Some(d) => {
                            match &d.userAgent {
                                Some(u) => {
                                    if u.userAgent.as_str().is_empty() {
                                        self.phase = Phase::FetchUa;
                                        Action::QueryBrowserUserAgent
                                    } else {
                                        self.phase = Phase::SetUa;
                                        Action::SendCdp(CdpCommand::SetUserAgentOverride(u.clone()))
                                    }
                                },
                                None => {
                                    self.phase = Phase::Metrics1;
                                    Action::SendCdp(CdpCommand::SetDeviceMetricsOverride(d.clone()))
                                },
                            }
                        },
                        None => self.fail_with(SnapError::Other),
                    }
                }
            },
            Event::Failed(e) => self.fail_with(e),
            _ => self.fail_with(SnapError::Other),
        };
        self.record(act)
    }

    fn step_fetch_ua(&mut self, ev: Event) -> (a: Action)
        requires
            old(self).wf(),
            old(self).spec_phase() is FetchUa,
        ensures
            step_frame(*old(self), *final(self), a),
            fail_on_event(ev, *final(self), a),
            (old(self).spec_profile() is Some && old(self).spec_profile()->0.userAgent is Some)
                ==> (match ev {
                Event::BrowserUserAgent(Some(u)) => (a matches Action::SendCdp(
                    CdpCommand::SetUserAgentOverride(ua),
                ) && ua.userAgent == u && ua.acceptLanguage == old(self).spec_profile()->0.userAgent->0.acceptLanguage && ua.platform == old(self).spec_profile()->0.userAgent->0.platform) && final(self).spec_phase() is SetUa
                    && final(self).spec_profile() is Some && final(self).spec_profile()->0.userAgent is Some && final(self).spec_profile()->0.userAgent->0.userAgent == u,
                Event::BrowserUserAgent(None) => a == Action::Abort(SnapError::DriverError)
                    && final(self).spec_phase() is Failed,
                _ => true,
            }),
    {
        let act: Action = match ev {
            Event::BrowserUserAgent(opt) => {
                match opt {
                    Some(u) => {
                        let mut filled: Option<Action> = None;
                        match &mut self.profile {
                            Some(d) => {
                                match &mut d.userAgent {
                                    Some(ua) => {
                                        ua.userAgent = u;
                                        filled = Some(
                                            Action::SendCdp(
                                                CdpCommand::SetUserAgentOverride(ua.clone()),
                                            ),
                                        );
                                    },
                                    None => {},
                                }
                            },
                            None => {},
                        }
                        match filled {
                            Some(a2) => {
                                self.phase = Phase::SetUa;
                                a2
                            },
                            None => self.fail_with(SnapError::Other),
                        }
                    },
                    None => self.fail_with(SnapError::DriverError),
                }
            },
            Event::Failed(e) => self.fail_with(e),
            _ => self.fail_with(SnapError::Other),
        };
        self.record(act)
    }

    fn step_set_ua(&mut self, ev: Event) -> (a: Action)
        requires
            old(self).wf(),
            old(self).spec_phase() is SetUa,
        ensures
            step_frame(*old(self), *final(self), a),
            fail_on_event(ev, *final(self), a),
            (ev is CdpDone && old(self).spec_profile() is Some) ==> a == Action::SendCdp(
                CdpCommand::SetDeviceMetricsOverride(old(self).spec_profile()->0),
            ) && final(self).spec_phase() is Metrics1 && final(self).spec_profile() == old(self).spec_profile(),
    {
        let act: Action = match ev {
            Event::CdpDone => {
                match &self.profile {
                    Some(d) => {
                        self.phase = Phase::Metrics1;
                        Action::SendCdp(CdpCommand::SetDeviceMetricsOverride(d.clone()))
                    },
                    None => self.fail_with(SnapError::Other),
                }
            },
            Event::Failed(e) => self.fail_with(e),
            _ => self.fail_with(SnapError::Other),
        };
        self.record(act)
    }

    fn step_metrics1(&mut self, ev: Event) -> (a: Action)
        requires
            old(self).wf(),
            old(self).spec_phase() is Metrics1,
        ensures
            step_frame(*old(self), *final(self), a),
            fail_on_event(ev, *final(self), a),
            (ev is CdpDone && old(self).spec_profile() is Some) ==> a == Action::SendCdp(
                CdpCommand::SetTouchEmulationEnabled(old(self).spec_profile()->0.mobile),
            ) && final(self).spec_phase() is Touch1,
    {
        let act: Action = match ev {
            Event::CdpDone => {
                match &self.profile {
                    Some(d) => {
                        self.phase = Phase::Touch1;
                        Action::SendCdp(CdpCommand::SetTouchEmulationEnabled(d.mobile))
                    },
                    None => self.fail_with(SnapError::Other),
                }
            },
            Event::Failed(e) => self.fail_with(e),
            _ => self.fail_with(SnapError::Other),
        };
        self.record(act)
    }

    fn step_touch1(&mut self, ev: Event) -> (a: Action)
        requires
            old(self).wf(),
            old(self).spec_phase() is Touch1,
        ensures
            step_frame(*old(self), *final(self), a),
            fail_on_event(ev, *final(self), a),
            (ev is CdpDone && old(self).spec_profile() is Some) ==> a == Action::SendCdp(
                CdpCommand::SetAutoDarkModeOverride(old(self).spec_profile()->0.isDarkMode),
            ) && final(self).spec_phase() is Dark,
    {
        let act: Action = match ev {
            Event::CdpDone => {
                match &self.profile {
                    Some(d) => {
                        self.phase = Phase::Dark;
                        Action::SendCdp(CdpCommand::SetAutoDarkModeOverride(d.isDarkMode))
                    },
                    None => self.fail_with(SnapError::Other),
                }
            },
            Event::Failed(e) => self.fail_with(e),
            _ => self.fail_with(SnapError::Other),
        };
        self.record(act)
    }

    fn step_dark(&mut self, ev: Event) -> (a: Action)
        requires
            old(self).wf(),
            old(self).spec_phase() is Dark,
        ensures
            step_frame(*old(self), *final(self), a),
            fail_on_event(ev, *final(self), a),
            ev is CdpDone ==> a == Action::SendCdp(CdpCommand::SetScrollbarsHidden(true)) && final(self).spec_phase() is Scrollbar,
    {
        let act: Action = match ev {
            Event::CdpDone => {
                self.phase = Phase::Scrollbar;
                Action::SendCdp(CdpCommand::SetScrollbarsHidden(true))
            },
            Event::Failed(e) => self.fail_with(e),
            _ => self.fail_with(SnapError::Other),
        };
        self.record(act)
    }

    fn step_scrollbar(&mut self, ev: Event) -> (a: Action)
        requires
            old(self).wf(),
            old(self).spec_phase() is Scrollbar,
        ensures
            step_frame(*old(self), *final(self), a),
            fail_on_event(ev, *final(self), a),
            ev is CdpDone ==> a is ProbePlatform && final(self).spec_phase() is Diag,
    {
        let act: Action = match ev {
            Event::CdpDone => {
                self.phase = Phase::Diag;
                Action::ProbePlatform
            },
            Event::Failed(e) => self.fail_with(e),
            _ => self.fail_with(SnapError::Other),
        };
        self.record(act)
    }

    fn step_diag(&mut self, ev: Event) -> (a: Action)
        requires
            old(self).wf(),
            old(self).spec_phase() is Diag,
        ensures
            step_frame(*old(self), *final(self), a),
            fail_on_event(ev, *final(self), a),
            ev is PlatformProbed ==> a == Action::Navigate(old(self).spec_payload().url) && final(self).spec_phase() is Nav,
    {
        let act: Action = match ev {
            Event::PlatformProbed => {
                self.phase = Phase::Nav;
                Action::Navigate(self.payload.url.clone())
            },
            Event::Failed(e) => self.fail_with(e),
            _ => self.fail_with(SnapError::Other),
        };
        self.record(act)
    }

    fn proceed_wait_or_capture(&mut self) -> (a: Action)
        ensures
            spec_wait_or_capture(*old(self), *final(self), a),
            final(self).payload == old(self).payload,
            final(self).format == old(self).format,
            final(self).profile == old(self).profile,
            final(self).scroll_w == old(self).scroll_w,
            final(self).trace == old(self).trace,
            final(self).spec_phase() is Wait || final(self).spec_phase() is Cap,
            !(a is Navigate) && !is_measure(a) && !is_metrics_push(a) && !(a is Respond),
    {
        match self.payload.waittime {
            Some(t) => {
                self.phase = Phase::Wait;
                Action::Sleep(t)
            },
            None => {
                self.phase = Phase::Cap;
                Action::Capture
            },
        }
    }

    fn proceed_cookie_or_later(&mut self) -> (a: Action)
        ensures
            spec_cookie_or_later(*old(self), *final(self), a),
            final(self).payload == old(self).payload,
            final(self).format == old(self).format,
            final(self).profile == old(self).profile,
            final(self).scroll_w == old(self).scroll_w,
            final(self).trace == old(self).trace,
            final(self).spec_phase() is Cookie || final(self).spec_phase() is Wait || final(self).spec_phase() is Cap || final(self).spec_phase() is Failed,
            !(a is Navigate) && !is_measure(a) && !is_metrics_push(a) && !(a is Respond),
    {
        let has_cookie = self.payload.cookie.is_some();
        if has_cookie {
            let parsed = match &self.payload.cookie {
                Some(s) => parse_cookie_encoded(s.as_str()),
                None => Err(SnapError::CookieParseError),
            };
            match parsed {
                Ok(c) => {
                    self.phase = Phase::Cookie;
                    Action::AddCookie(c)
                },
                Err(_) => {
                    self.phase = Phase::Failed;
                    Action::Abort(SnapError::CookieParseError)
                },
            }
        } else {
            self.proceed_wait_or_capture()
        }
    }

    fn step_nav(&mut self, ev: Event) -> (a: Action)
        requires
            old(self).wf(),
            old(self).spec_phase() is Nav,
        ensures
            step_frame(*old(self), *final(self), a),
            fail_on_event(ev, *final(self), a),
            (ev is Navigated && fullpage_requested(old(self).spec_payload())) ==> a
                is MeasureScrollWidth && final(self).spec_phase() is MeasW,
            (ev is Navigated && !fullpage_requested(old(self).spec_payload()))
                ==> spec_cookie_or_later(*old(self), *final(self), a),
    {
        let act: Action = match ev {
            Event::Navigated => {
                let fullpage = match self.payload.fullpage {
                    Some(b) => b,
                    None => false,
                };
                if fullpage {
                    self.phase = Phase::MeasW;
                    Action::MeasureScrollWidth
                } else {
                    self.proceed_cookie_or_later()
                }
            },
            Event::Failed(e) => self.fail_with(e),
            _ => self.fail_with(SnapError::Other),
        };
        self.record(act)
    }

    fn step_meas_w(&mut self, ev: Event) -> (a: Action)
        requires
            old(self).wf(),
            old(self).spec_phase() is MeasW,
        ensures
            step_frame(*old(self), *final(self), a),
            fail_on_event(ev, *final(self), a),
            ev is MeasuredWidth ==> a is MeasureScrollHeight && final(self).spec_phase()
                is MeasH && final(self).spec_scroll_w() == ev->MeasuredWidth_0,
    {
        let act: Action = match ev {
            Event::MeasuredWidth(w) => {
                self.scroll_w = w;
                self.phase = Phase::MeasH;
                Action::MeasureScrollHeight
            },
            Event::Failed(e) => self.fail_with(e),
            _ => self.fail_with(SnapError::Other),
        };
        self.record(act)
    }

    fn step_meas_h(&mut self, ev: Event) -> (a: Action)
        requires
            old(self).wf(),
            old(self).spec_phase() is MeasH,
        ensures
            step_frame(*old(self), *final(self), a),
            fail_on_event(ev, *final(self), a),
            (ev is MeasuredHeight && old(self).spec_profile() is Some) ==> (a matches
                Action::SendCdp(CdpCommand::SetDeviceMetricsOverride(d)) && d.width == old(self).spec_scroll_w() && d.height == ev->MeasuredHeight_0 && d.deviceScaleFactor == old(self).spec_profile()->0.deviceScaleFactor && d.mobile == old(self).spec_profile()->0.mobile
                && final(self).spec_profile() == Some(d)) && final(self).spec_phase() is Metrics2,
    {
        let act: Action = match ev {
            Event::MeasuredHeight(h) => {
                let mut resized: Option<Action> = None;
                match &mut self.profile {
                    Some(d) => {
                        d.width = self.scroll_w;
                        d.height = h;
                        resized = Some(
                            Action::SendCdp(CdpCommand::SetDeviceMetricsOverride(d.clone())),
                        );
                    },
                    None => {},
                }
                match resized {
                    Some(a2) => {
                        self.phase = Phase::Metrics2;
                        a2
                    },
                    None => self.fail_with(SnapError::Other),
                }
            },
            Event::Failed(e) => self.fail_with(e),
            _ => self.fail_with(SnapError::Other),
        };
        self.record(act)
    }

    fn step_metrics2(&mut self, ev: Event) -> (a: Action)
        requires
            old(self).wf(),
            old(self).spec_phase() is Metrics2,
        ensures
            step_frame(*old(self), *final(self), a),
            fail_on_event(ev, *final(self), a),
            (ev is CdpDone && old(self).spec_profile() is Some) ==> a == Action::SendCdp(
                CdpCommand::SetTouchEmulationEnabled(old(self).spec_profile()->0.mobile),
            ) && final(self).spec_phase() is Touch2,
    {
        let act: Action = match ev {
            Event::CdpDone => {
                match &self.profile {
                    Some(d) => {
                        self.phase = Phase::Touch2;
                        Action::SendCdp(CdpCommand::SetTouchEmulationEnabled(d.mobile))
                    },
                    None => self.fail_with(SnapError::Other),
                }
            },
            Event::Failed(e) => self.fail_with(e),
            _ => self.fail_with(SnapError::Other),
        };
        self.record(act)
    }

    fn step_touch2(&mut self, ev: Event) -> (a: Action)
        requires
            old(self).wf(),
            old(self).spec_phase() is Touch2,
        ensures
            step_frame(*old(self), *final(self), a),
            fail_on_event(ev, *final(self), a),
            ev is CdpDone ==> spec_cookie_or_later(*old(self), *final(self), a),
    {
        let act: Action = match ev {
            Event::CdpDone => self.proceed_cookie_or_later(),
            Event::Failed(e) => self.fail_with(e),
            _ => self.fail_with(SnapError::Other),
        };
        self.record(act)
    }

    fn step_cookie(&mut self, ev: Event) -> (a: Action)
        requires
            old(self).wf(),
            old(self).spec_phase() is Cookie,
        ensures
            step_frame(*old(self), *final(self), a),
            fail_on_event(ev, *final(self), a),
            ev is CookieAdded ==> a is Reload && final(self).spec_phase() is Reload,
    {
        let act: Action = match ev {
            Event::CookieAdded => {
                self.phase = Phase::Reload;
                Action::Reload
            },
            Event::Failed(e) => self.fail_with(e),
            _ => self.fail_with(SnapError::Other),
        };
        self.record(act)
    }

    fn step_reload(&mut self, ev: Event) -> (a: Action)
        requires
            old(self).wf(),
            old(self).spec_phase() is Reload,
        ensures
            step_frame(*old(self), *final(self), a),
            fail_on_event(ev, *final(self), a),
            ev is Reloaded ==> spec_wait_or_capture(*old(self), *final(self), a),
    {
        let act: Action = match ev {
            Event::Reloaded => self.proceed_wait_or_capture(),
            Event::Failed(e) => self.fail_with(e),
            _ => self.fail_with(SnapError::Other),
        };
        self.record(act)
    }

    fn step_wait(&mut self, ev: Event) -> (a: Action)
        requires
            old(self).wf(),
            old(self).spec_phase() is Wait,
        ensures
            step_frame(*old(self), *final(self), a),
            fail_on_event(ev, *final(self), a),
            ev is Slept ==> a is Capture && final(self).spec_phase() is Cap,
    {
        let act: Action = match ev {
            Event::Slept => {
                self.phase = Phase::Cap;
                Action::Capture
            },
            Event::Failed(e) => self.fail_with(e),
            _ => self.fail_with(SnapError::Other),
        };
        self.record(act)
    }

    fn step_cap(&mut self, ev: Event) -> (a: Action)
        requires
            old(self).wf(),
            old(self).spec_phase() is Cap,
        ensures
            step_frame(*old(self), *final(self), a),
            fail_on_event(ev, *final(self), a),
            (ev is Screenshot && decoded_rgba(ev->Screenshot_0@) is None) ==> a == Action::Abort(
                SnapError::ImgError,
            ) && final(self).spec_phase() is Failed,
            (ev is Screenshot && old(self).spec_format() == Some(FileFormat::Png) && decoded_rgba(
                ev->Screenshot_0@,
            ) is Some) ==> (a matches Action::Respond(out) && out@ == ev->Screenshot_0@) && final(self).spec_phase() is Done,
            (ev is Screenshot && old(self).spec_format() is Some && is_reencode_target(
                old(self).spec_format()->0,
            ) && decoded_rgba(ev->Screenshot_0@) is Some) ==> (match raster_encoding(
                raster_target(old(self).spec_format()->0),
                ev->Screenshot_0@,
            ) {
                Some(b) => (a matches Action::Respond(out) && out@ == b) && final(self).spec_phase() is Done,
                None => a == Action::Abort(SnapError::ImgError) && final(self).spec_phase()
                    is Failed,
            }),
            (ev is Screenshot && old(self).spec_format() == Some(FileFormat::Svg) && decoded_rgba(
                ev->Screenshot_0@,
            ) is Some) ==> ((a matches Action::Respond(out) && svg_framed(out@)) && final(self).spec_phase() is Done) || (a == Action::Abort(SnapError::ImgError) && final(self).spec_phase() is Failed),
    {
        let act: Action = match ev {
            Event::Screenshot(png) => {
                match self.format {
                    Some(fmt) => {
                        match png_transformer(png.as_slice(), fmt) {
                            Ok(out) => {
                                self.phase = Phase::Done;
                                Action::Respond(out)
                            },
                            Err(e) => self.fail_with(e),
                        }
                    },
                    None => self.fail_with(SnapError::Other),
                }
            },
            Event::Failed(e) => self.fail_with(e),
            _ => self.fail_with(SnapError::Other),
        };
        self.record(act)
    }

    fn step_finished(&mut self, ev: Event) -> (a: Action)
        requires
            old(self).wf(),
            old(self).spec_phase() is Done || old(self).spec_phase() is Failed,
        ensures
            step_frame(*old(self), *final(self), a),
            final(self).spec_phase() == old(self).spec_phase(),
            a == Action::Abort(SnapError::Other),
    {
        let act = Action::Abort(SnapError::Other);
        self.record(act)
    }

    /// Advances the state machine: takes what the shell observed of the
    /// last action and decides the next one. The machine is total: a
    /// fatal observation fails the request with its error, an observation
    /// that does not fit the phase fails it as an unknown error, and a
    /// finished request only aborts further steps.
    pub fn step(&mut self, ev: Event) -> (a: Action)
        requires
            old(self).wf(),
        ensures
            step_frame(*old(self), *final(self), a),
            old(self).spec_phase() is Done || old(self).spec_phase() is Failed || fail_on_event(
                ev,
                *final(self),
                a,
            ),
            // an unrecognized format token fails fast, before any browser work
            (old(self).spec_phase() is Init && ev is Start && old(self).spec_format() is None) ==> a
                == Action::Abort(SnapError::FormatError) && final(self).spec_phase() is Failed,
            // an unknown device id fails fast too
            (old(self).spec_phase() is Init && ev is Start && old(self).spec_format() is Some && old(self).spec_profile() is None) ==> a == Action::Abort(SnapError::Other) && final(self).spec_phase() is Failed,
            // configuration begins with the user agent
            (old(self).spec_phase() is Init && ev is Start && old(self).spec_format() is Some && old(self).spec_profile() is Some) ==> spec_config_start(
                old(self).spec_profile()->0,
                *final(self),
                a,
            ),
            // the browser's default user agent fills the sentinel; a missing field is fatal
            (old(self).spec_phase() is FetchUa && old(self).spec_profile() is Some && old(self).spec_profile()->0.userAgent is Some) ==> (match ev {
                Event::BrowserUserAgent(Some(u)) => (a matches Action::SendCdp(
                    CdpCommand::SetUserAgentOverride(ua),
                ) && ua.userAgent == u && ua.acceptLanguage == old(self).spec_profile()->0.userAgent->0.acceptLanguage && ua.platform == old(self).spec_profile()->0.userAgent->0.platform) && final(self).spec_phase() is SetUa
                    && final(self).spec_profile() is Some && final(self).spec_profile()->0.userAgent is Some && final(self).spec_profile()->0.userAgent->0.userAgent == u,
                Event::BrowserUserAgent(None) => a == Action::Abort(SnapError::DriverError)
                    && final(self).spec_phase() is Failed,
                _ => true,
            }),
            // the strict configuration order: metrics, touch, dark mode, scrollbars
            (old(self).spec_phase() is SetUa && ev is CdpDone && old(self).spec_profile() is Some)
                ==> a == Action::SendCdp(
                CdpCommand::SetDeviceMetricsOverride(old(self).spec_profile()->0),
            ) && final(self).spec_phase() is Metrics1 && final(self).spec_profile() == old(self).spec_profile(),
            (old(self).spec_phase() is Metrics1 && ev is CdpDone && old(self).spec_profile()
                is Some) ==> a == Action::SendCdp(
                CdpCommand::SetTouchEmulationEnabled(old(self).spec_profile()->0.mobile),
            ) && final(self).spec_phase() is Touch1,
            (old(self).spec_phase() is Touch1 && ev is CdpDone && old(self).spec_profile() is Some)
                ==> a == Action::SendCdp(
                CdpCommand::SetAutoDarkModeOverride(old(self).spec_profile()->0.isDarkMode),
            ) && final(self).spec_phase() is Dark,
            (old(self).spec_phase() is Dark && ev is CdpDone) ==> a == Action::SendCdp(
                CdpCommand::SetScrollbarsHidden(true),
            ) && final(self).spec_phase() is Scrollbar,
            // the diagnostic probe, then navigation
            (old(self).spec_phase() is Scrollbar && ev is CdpDone) ==> a is ProbePlatform && final(self).spec_phase() is Diag,
            (old(self).spec_phase() is Diag && ev is PlatformProbed) ==> a == Action::Navigate(
                old(self).spec_payload().url,
            ) && final(self).spec_phase() is Nav,
            // after navigation: measure when full page was asked, else go on
            (old(self).spec_phase() is Nav && ev is Navigated && fullpage_requested(
                old(self).spec_payload(),
            )) ==> a is MeasureScrollWidth && final(self).spec_phase() is MeasW,
            (old(self).spec_phase() is Nav && ev is Navigated && !fullpage_requested(
                old(self).spec_payload(),
            )) ==> spec_cookie_or_later(*old(self), *final(self), a),
            (old(self).spec_phase() is MeasW && ev is MeasuredWidth) ==> a
                is MeasureScrollHeight && final(self).spec_phase() is MeasH && final(self).spec_scroll_w() == ev->MeasuredWidth_0,
            // the one permitted in-flight profile mutation: the measured size
            (old(self).spec_phase() is MeasH && ev is MeasuredHeight && old(self).spec_profile()
                is Some) ==> (a matches Action::SendCdp(CdpCommand::SetDeviceMetricsOverride(d))
                && d.width == old(self).spec_scroll_w() && d.height == ev->MeasuredHeight_0
                && d.deviceScaleFactor == old(self).spec_profile()->0.deviceScaleFactor && d.mobile
                == old(self).spec_profile()->0.mobile && final(self).spec_profile() == Some(d))
                && final(self).spec_phase() is Metrics2,
            (old(self).spec_phase() is Metrics2 && ev is CdpDone && old(self).spec_profile()
                is Some) ==> a == Action::SendCdp(
                CdpCommand::SetTouchEmulationEnabled(old(self).spec_profile()->0.mobile),
            ) && final(self).spec_phase() is Touch2,
            (old(self).spec_phase() is Touch2 && ev is CdpDone) ==> spec_cookie_or_later(
                *old(self),
                *final(self),
                a,
            ),
            // cookie injection is followed by a reload
            (old(self).spec_phase() is Cookie && ev is CookieAdded) ==> a is Reload && final(self).spec_phase() is Reload,
            (old(self).spec_phase() is Reload && ev is Reloaded) ==> spec_wait_or_capture(
                *old(self),
                *final(self),
                a,
            ),
            (old(self).spec_phase() is Wait && ev is Slept) ==> a is Capture && final(self).spec_phase() is Cap,
            // capture ends in transcoding
            (old(self).spec_phase() is Cap && ev is Screenshot && decoded_rgba(
                ev->Screenshot_0@,
            ) is None) ==> a == Action::Abort(SnapError::ImgError) && final(self).spec_phase()
                is Failed,
            (old(self).spec_phase() is Cap && ev is Screenshot && old(self).spec_format() == Some(
                FileFormat::Png,
            ) && decoded_rgba(ev->Screenshot_0@) is Some) ==> (a matches Action::Respond(out)
                && out@ == ev->Screenshot_0@) && final(self).spec_phase() is Done,
            (old(self).spec_phase() is Cap && ev is Screenshot && old(self).spec_format() is Some
                && is_reencode_target(old(self).spec_format()->0) && decoded_rgba(
                ev->Screenshot_0@,
            ) is Some) ==> (match raster_encoding(
                raster_target(old(self).spec_format()->0),
                ev->Screenshot_0@,
            ) {
                Some(b) => (a matches Action::Respond(out) && out@ == b) && final(self).spec_phase() is Done,
                None => a == Action::Abort(SnapError::ImgError) && final(self).spec_phase()
                    is Failed,
            }),
            (old(self).spec_phase() is Cap && ev is Screenshot && old(self).spec_format() == Some(
                FileFormat::Svg,
            ) && decoded_rgba(ev->Screenshot_0@) is Some) ==> ((a matches Action::Respond(out)
                && svg_framed(out@)) && final(self).spec_phase() is Done) || (a == Action::Abort(
                SnapError::ImgError,
            ) && final(self).spec_phase() is Failed),
            // a finished request only aborts further steps
            old(self).spec_phase() is Done ==> final(self).spec_phase() is Done && a
                == Action::Abort(SnapError::Other),
            old(self).spec_phase() is Failed ==> final(self).spec_phase() is Failed && a
                == Action::Abort(SnapError::Other),
    {
        match self.phase {
            Phase::Init => self.step_init(ev),
            Phase::FetchUa => self.step_fetch_ua(ev),
            Phase::SetUa => self.step_set_ua(ev),
            Phase::Metrics1 => self.step_metrics1(ev),
            Phase::Touch1 => self.step_touch1(ev),
            Phase::Dark => self.step_dark(ev),
            Phase::Scrollbar => self.step_scrollbar(ev),
            Phase::Diag => self.step_diag(ev),
            Phase::Nav => self.step_nav(ev),
            Phase::MeasW => self.step_meas_w(ev),
            Phase::MeasH => self.step_meas_h(ev),
            Phase::Metrics2 => self.step_metrics2(ev),
            Phase::Touch2 => self.step_touch2(ev),
            Phase::Cookie => self.step_cookie(ev),
            Phase::Reload => self.step_reload(ev),
            Phase::Wait => self.step_wait(ev),
            Phase::Cap => self.step_cap(ev),
            Phase::Done => self.step_finished(ev),
            Phase::Failed => self.step_finished(ev),
        }
    }
}

/// A full-page request pushes device metrics exactly twice over a
/// completed run, and every measurement runs after the first push has
/// been issued and answered and before the second, so the measuring
/// script sees the pre-resize viewport.
pub proof fn lemma_full_page_two_pushes(o: CaptureOrchestrator)
    requires
        o.wf(),
        o.spec_phase() is Done,
        fullpage_requested(o.spec_payload()),
    ensures
        count_metrics_pushes(o.trace()) == 2,
        forall|i: int|
            0 <= i < o.trace().len() && is_measure(#[trigger] o.trace()[i])
                ==> count_metrics_pushes(o.trace().take(i)) == 1,
{
}

/// A request without full page pushes device metrics exactly once over a
/// completed run, and never measures the document.
pub proof fn lemma_single_push(o: CaptureOrchestrator)
    requires
        o.wf(),
        o.spec_phase() is Done,
        !fullpage_requested(o.spec_payload()),
    ensures
        count_metrics_pushes(o.trace()) == 1,
        forall|i: int| 0 <= i < o.trace().len() ==> !is_measure(#[trigger] o.trace()[i]),
{
}

/// An unrecognized format token is rejected before any browser
/// interaction: the trace of such a request never navigates and never
/// captures.
pub proof fn lemma_invalid_format_no_browser_work(o: CaptureOrchestrator)
    requires
        o.wf(),
        spec_parse_format(o.spec_payload().fileformat@) is None,
    ensures
        forall|i: int|
            0 <= i < o.trace().len() ==> !((#[trigger] o.trace()[i]) is Navigate) && !(o.trace()[i]
                is Capture),
{
}

} // verus!
