//! The headless-browser launch: admission, identifier and data
//! directory, the canonical argument set, and the session record that
//! a successful launch registers.
use vstd::prelude::*;
use crate::devices::{Device, Viewport, spec_viewport};
use crate::error::{Error, SERVICE_UNAVAILABLE};
use crate::session::{AppState, Session, SessionKind, SessionOption};
use crate::strutil::{join_under, spec_trim_slashes};

verus! {

broadcast use vstd::string::group_string_axioms;

/// Relies on uuid::Uuid::new_v4 and its hyphenated text form: a fresh
/// random identifier of 36 characters.
#[verifier::external_body]
pub(crate) fn new_session_id() -> (r: String)
    ensures
        r@.len() == 36,
{
    uuid::Uuid::new_v4().to_string()
}

/// The canonical flag set every headless browser is launched with;
/// external behavior depends on it.
pub open spec fn spec_headless_args() -> Seq<Seq<char>> {
    seq![
        "--enable-features=NetworkService,NetworkServiceInProcess"@,
        "--disable-background-timer-throttling"@,
        "--disable-backgrounding-occluded-windows"@,
        "--disable-breakpad"@,
        "--disable-client-side-phishing-detection"@,
        "--disable-component-extensions-with-background-pages"@,
        "--disable-default-apps"@,
        "--disable-dev-shm-usage"@,
        "--disable-extensions"@,
        "--disable-features=TranslateUI"@,
        "--disable-hang-monitor"@,
        "--disable-ipc-flooding-protection"@,
        "--disable-popup-blocking"@,
        "--disable-prompt-on-repost"@,
        "--disable-renderer-backgrounding"@,
        "--disable-sync"@,
        "--force-color-profile=srgb"@,
        "--metrics-recording-only"@,
        "--no-first-run"@,
        "--enable-automation"@,
        "--password-store=basic"@,
        "--use-mock-keychain"@,
        "--enable-blink-features=IdleDetection"@,
        "--lang=en_US"@,
    ]
}

pub fn headless_args() -> (r: Vec<&'static str>)
    ensures
        r@.map_values(|a: &'static str| a@) == spec_headless_args(),
{
    let mut v: Vec<&'static str> = Vec::new();
    v.push("--enable-features=NetworkService,NetworkServiceInProcess");
    v.push("--disable-background-timer-throttling");
    v.push("--disable-backgrounding-occluded-windows");
    v.push("--disable-breakpad");
    v.push("--disable-client-side-phishing-detection");
    v.push("--disable-component-extensions-with-background-pages");
    v.push("--disable-default-apps");
    v.push("--disable-dev-shm-usage");
    v.push("--disable-extensions");
    v.push("--disable-features=TranslateUI");
    v.push("--disable-hang-monitor");
    v.push("--disable-ipc-flooding-protection");
    v.push("--disable-popup-blocking");
    v.push("--disable-prompt-on-repost");
    v.push("--disable-renderer-backgrounding");
    v.push("--disable-sync");
    v.push("--force-color-profile=srgb");
    v.push("--metrics-recording-only");
    v.push("--no-first-run");
    v.push("--enable-automation");
    v.push("--password-store=basic");
    v.push("--use-mock-keychain");
    v.push("--enable-blink-features=IdleDetection");
    v.push("--lang=en_US");
    proof {
        assert(v@.map_values(|a: &'static str| a@) =~= spec_headless_args());
    }
    v
}

/// Everything the launcher needs to start one headless browser.
#[derive(Debug)]
pub struct HeadlessLaunchPlan {
    pub id: String,
    pub data_dir: String,
    pub args: Vec<&'static str>,
    pub disable_cache: bool,
    pub viewport: Option<Viewport>,
}

/// Admission and launch layout: a full pool is turned away with 503;
/// otherwise a fresh id names the data directory under the data root,
/// the canonical arguments apply, the cache is disabled unless asked
/// for, and a device profile fixes the viewport.
pub fn plan_headless_launch(state: &AppState, opt: &SessionOption, device: &Option<Device>) -> (r:
    Result<HeadlessLaunchPlan, Error>)
    ensures
        r is Err <==> state.max_sessions > 0 && state.sessions@.len() >= state.max_sessions,
        r is Err ==> r->Err_0.status_code == SERVICE_UNAVAILABLE && r->Err_0.message@
            == "too many sessions"@,
        r matches Ok(p) ==> {
            &&& p.id@.len() == 36
            &&& p.data_dir@ == spec_trim_slashes(state.data_root@) + seq!['/'] + p.id@
            &&& p.args@.map_values(|a: &'static str| a@) == spec_headless_args()
            &&& p.disable_cache == !opt.enable_cache
            &&& (p.viewport matches Some(vp) <==> device is Some)
            &&& (device matches Some(d) ==> p.viewport == Some(spec_viewport(*d, opt.landscape)))
        },
{
    if state.is_full() {
        return Err(Error::new(SERVICE_UNAVAILABLE, "too many sessions"));
    }
    let id = new_session_id();
    let data_dir = join_under(state.data_root.as_str(), id.as_str());
    let viewport = match device {
        Some(d) => Some(d.get_viewport(opt.landscape)),
        None => None,
    };
    Ok(
        HeadlessLaunchPlan {
            id,
            data_dir,
            args: headless_args(),
            disable_cache: !opt.enable_cache,
            viewport,
        },
    )
}

/// The session record of a launched headless browser, carrying the
/// DevTools endpoint the launcher captured.
pub fn make_headless_session(
    id: String,
    data_dir: String,
    ws_url: String,
    opt: &SessionOption,
    device: Option<Device>,
    shutdown_tx: Option<tokio::sync::oneshot::Sender<()>>,
    now: u64,
) -> (r: Session)
    ensures
        r.id == id,
        r.kind == SessionKind::Headless,
        r.data_dir == data_dir,
        r.device == device,
        r.cleanup == opt.cleanup,
        r.enable_cache == opt.enable_cache,
        r.created_at == now,
        r.updated_at == now,
        r.endpoint == ws_url,
        r.shutdown_tx == shutdown_tx,
        r.display_num is None,
{
    Session {
        id,
        kind: SessionKind::Headless,
        data_dir,
        device,
        cleanup: opt.cleanup,
        enable_cache: opt.enable_cache,
        created_at: now,
        updated_at: now,
        endpoint: ws_url,
        shutdown_tx,
        display_num: None,
    }
}

} // verus!
