//! Remote (X11/VNC) sessions: the persisted per-remote metadata, the
//! launch layout for Xvfb, x11vnc and the browser, the VNC endpoint,
//! screenshots of a display, and the expiry of stale directories.
use vstd::prelude::*;
use crate::error::{Error, BAD_GATEWAY};
use crate::numstr::{
    spec_udigits, spec_idigits, spec_run_end, spec_digits_val, spec_is_digit, u64_to_string,
    i64_to_string, run_end, long_digits_val, lemma_run_end_props, lemma_digits_val_bound,
    lemma_digits_val_lower, lemma_digits_val_strip, lemma_pow10_values, lemma_pow10_monotone,
};
use crate::session::{AppState, Session, SessionKind, first_with_id};
use crate::strutil::{join_under, spec_trim_slashes, spec_find_char, find_char};

verus! {

broadcast use vstd::string::group_string_axioms;

/// The file under a remote's directory that carries its metadata.
pub const REMOTE_SUFFIX: &'static str = ".remote.json";

/// Where a freshly created remote points its browser, until it is
/// configured otherwise.
pub const DEFAULT_HOMEPAGE: &'static str = "https://browserlify.com/?startup=docker";

/// The browser launched when a remote names none.
pub const DEFAULT_BROWSER: &'static str = "chromium";

/// The X screen used when a remote names none.
pub const DEFAULT_SCREEN: &'static str = "1200x900x24";

/// The metadata persisted for one remote.
pub struct RemoteInfo {
    pub id: String,
    pub name: Option<String>,
    pub created_at: String,
    pub screen: Option<String>,
    pub binary: Option<String>,
    pub homepage: Option<String>,
    pub http_proxy: Option<String>,
}

/// What a create or edit request may carry.
pub struct CreateRemoteParams {
    pub id: Option<String>,
    pub name: Option<String>,
    pub homepage: Option<String>,
    pub http_proxy: Option<String>,
}

/// The metadata a fresh remote starts with: the caller's name,
/// homepage and proxy, no screen and no binary yet.
pub fn initial_remote_info(id: String, params: CreateRemoteParams, created_at: String) -> (r:
    RemoteInfo)
    ensures
        r.id == id,
        r.name == params.name,
        r.created_at == created_at,
        r.screen is None,
        r.binary is None,
        r.homepage == params.homepage,
        r.http_proxy == params.http_proxy,
{
    RemoteInfo {
        id,
        name: params.name,
        created_at,
        screen: None,
        binary: None,
        homepage: params.homepage,
        http_proxy: params.http_proxy,
    }
}

/// An edit overrides name, homepage and proxy where the request
/// carries them and keeps everything else.
pub fn apply_remote_edit(info: &mut RemoteInfo, params: CreateRemoteParams)
    ensures
        final(info).id == old(info).id,
        final(info).created_at == old(info).created_at,
        final(info).screen == old(info).screen,
        final(info).binary == old(info).binary,
        final(info).name == if params.name is Some {
            params.name
        } else {
            old(info).name
        },
        final(info).homepage == if params.homepage is Some {
            params.homepage
        } else {
            old(info).homepage
        },
        final(info).http_proxy == if params.http_proxy is Some {
            params.http_proxy
        } else {
            old(info).http_proxy
        },
{
    if params.name.is_some() {
        info.name = params.name;
    }
    if params.homepage.is_some() {
        info.homepage = params.homepage;
    }
    if params.http_proxy.is_some() {
        info.http_proxy = params.http_proxy;
    }
}

/// The directory a remote owns under the data root.
pub fn remote_dir(data_root: &str, id: &str) -> (r: String)
    ensures
        r@ == spec_trim_slashes(data_root@) + seq!['/'] + id@,
{
    join_under(data_root, id)
}

/// The metadata file inside a remote's directory.
pub fn remote_file_path(dir: &str) -> (r: String)
    ensures
        r@ == spec_trim_slashes(dir@) + seq!['/'] + REMOTE_SUFFIX@,
{
    join_under(dir, REMOTE_SUFFIX)
}

/// Options an X11 session is started with.
pub struct X11SessionOption {
    pub id: String,
    pub name: Option<String>,
    pub data_dir: String,
    pub screen: Option<String>,
    pub binary: Option<String>,
    pub lc_ctype: Option<String>,
    pub timezone: Option<String>,
    pub homepage: Option<String>,
    pub http_proxy: Option<String>,
}

/// The start options of a remote: its persisted metadata plus the
/// locale and time zone the process sees.
pub fn session_option_from_info(
    id: String,
    info: RemoteInfo,
    data_dir: String,
    lc_ctype: Option<String>,
    timezone: Option<String>,
) -> (r: X11SessionOption)
    ensures
        r.id == id,
        r.name == info.name,
        r.data_dir == data_dir,
        r.screen == info.screen,
        r.binary == info.binary,
        r.lc_ctype == lc_ctype,
        r.timezone == timezone,
        r.homepage == info.homepage,
        r.http_proxy == info.http_proxy,
{
    X11SessionOption {
        id,
        name: info.name,
        data_dir,
        screen: info.screen,
        binary: info.binary,
        lc_ctype,
        timezone,
        homepage: info.homepage,
        http_proxy: info.http_proxy,
    }
}

/// The error for a binary the session needs but PATH does not hold.
pub fn missing_binary_error(name: &str) -> (r: Error)
    ensures
        r.status_code == BAD_GATEWAY,
        r.message@ == name@ + " is required"@,
{
    let msg = name.to_owned().concat(" is required");
    Error { status_code: BAD_GATEWAY, message: msg }
}

/// The display argument `:N`.
pub fn display_arg(display: i32) -> (r: String)
    requires
        display >= 0,
    ensures
        r@ == seq![':'] + spec_udigits(display as int),
{
    proof {
        reveal_strlit(":");
    }
    ":".to_owned().concat(u64_to_string(display as u64).as_str())
}

/// The Xvfb command line: the display, no TCP listener, and the
/// screen geometry.
pub fn xvfb_args(display_str: String, screen: String) -> (r: Vec<String>)
    ensures
        r@.len() == 6,
        r@[0] == display_str,
        r@[1]@ == "-nolisten"@,
        r@[2]@ == "tcp"@,
        r@[3]@ == "-screen"@,
        r@[4]@ == "scrn"@,
        r@[5] == screen,
{
    let mut v: Vec<String> = Vec::new();
    v.push(display_str);
    v.push("-nolisten".to_owned());
    v.push("tcp".to_owned());
    v.push("-screen".to_owned());
    v.push("scrn".to_owned());
    v.push(screen);
    v
}

/// The x11vnc command line: bound to the display and localhost, no
/// password, shared and persistent, logging into the session's
/// directory, serving the given port and desktop name.
pub fn x11vnc_args(display_str: String, log_path: String, port: i32, desktop: String) -> (r: Vec<
    String,
>)
    requires
        port >= 0,
    ensures
        r@.len() == 14,
        r@[0]@ == "-noxdamage"@,
        r@[1]@ == "-display"@,
        r@[2] == display_str,
        r@[3]@ == "-nopw"@,
        r@[4]@ == "-forever"@,
        r@[5]@ == "-shared"@,
        r@[6]@ == "-o"@,
        r@[7] == log_path,
        r@[8]@ == "-listen"@,
        r@[9]@ == "localhost"@,
        r@[10]@ == "-rfbport"@,
        r@[11]@ == spec_udigits(port as int),
        r@[12]@ == "-desktop"@,
        r@[13] == desktop,
{
    let mut v: Vec<String> = Vec::new();
    v.push("-noxdamage".to_owned());
    v.push("-display".to_owned());
    v.push(display_str);
    v.push("-nopw".to_owned());
    v.push("-forever".to_owned());
    v.push("-shared".to_owned());
    v.push("-o".to_owned());
    v.push(log_path);
    v.push("-listen".to_owned());
    v.push("localhost".to_owned());
    v.push("-rfbport".to_owned());
    v.push(u64_to_string(port as u64));
    v.push("-desktop".to_owned());
    v.push(desktop);
    v
}

/// The desktop name: the remote's name, or its id.
pub fn desktop_name(name: &Option<String>, id: &str) -> (r: String)
    ensures
        name matches Some(n) ==> r@ == n@,
        name is None ==> r@ == id@,
{
    match name {
        Some(n) => n.clone(),
        None => id.to_owned(),
    }
}

/// The browser command line of a remote desktop: its profile pinned to
/// the session's directory, crash and nag machinery off, maximized at
/// the screen's size, opening the homepage.
pub fn remote_browser_args(data_dir: &str, width: i32, height: i32, homepage: String) -> (r: Vec<
    String,
>)
    requires
        width >= 0,
        height >= 0,
    ensures
        r@.len() == 12,
        r@[0]@ == "--user-data-dir="@ + data_dir@,
        r@[1]@ == "--disable-breakpad"@,
        r@[2]@ == "--no-first-run"@,
        r@[3]@ == "--password-store=basic"@,
        r@[4]@ == "--disable-hang-monitor"@,
        r@[5]@ == "--disable-default-apps"@,
        r@[6]@ == "--disable-renderer-backgrounding"@,
        r@[7]@ == "--force-color-profile=srgb"@,
        r@[8]@ == "--no-default-browser-check"@,
        r@[9]@ == "--start-maximized"@,
        r@[10]@ == "--window-size="@ + spec_udigits(width as int) + seq![','] + spec_udigits(
            height as int,
        ),
        r@[11] == homepage,
{
    proof {
        reveal_strlit(",");
    }
    let mut v: Vec<String> = Vec::new();
    v.push("--user-data-dir=".to_owned().concat(data_dir));
    v.push("--disable-breakpad".to_owned());
    v.push("--no-first-run".to_owned());
    v.push("--password-store=basic".to_owned());
    v.push("--disable-hang-monitor".to_owned());
    v.push("--disable-default-apps".to_owned());
    v.push("--disable-renderer-backgrounding".to_owned());
    v.push("--force-color-profile=srgb".to_owned());
    v.push("--no-default-browser-check".to_owned());
    v.push("--start-maximized".to_owned());
    let ws = "--window-size=".to_owned().concat(u64_to_string(width as u64).as_str()).concat(
        ",",
    ).concat(u64_to_string(height as u64).as_str());
    v.push(ws);
    v.push(homepage);
    v
}

/// The environment of the remote's browser: the display always; the
/// locale, time zone, and proxy (for both protocol spellings) where
/// the options carry them.
pub fn remote_browser_env(
    display_str: String,
    lc_ctype: &Option<String>,
    timezone: &Option<String>,
    http_proxy: &Option<String>,
) -> (r: Vec<(String, String)>)
    ensures
        r@.len() == 1 + (if lc_ctype is Some {
            1int
        } else {
            0
        }) + (if timezone is Some {
            1int
        } else {
            0
        }) + (if http_proxy is Some {
            2int
        } else {
            0
        }),
        r@[0].0@ == "DISPLAY"@ && r@[0].1 == display_str,
        lc_ctype matches Some(v) ==> r@[1].0@ == "LC_CTYPE"@ && r@[1].1 == v,
        timezone matches Some(v) ==> ({
            let i = 1 + if lc_ctype is Some {
                1int
            } else {
                0
            };
            r@[i].0@ == "TZ"@ && r@[i].1 == v
        }),
        http_proxy matches Some(v) ==> ({
            let i = 1 + (if lc_ctype is Some {
                1int
            } else {
                0
            }) + (if timezone is Some {
                1int
            } else {
                0
            });
            r@[i].0@ == "http_proxy"@ && r@[i].1 == v && r@[i + 1].0@ == "https_proxy"@ && r@[i
                + 1].1 == v
        }),
{
    let mut v: Vec<(String, String)> = Vec::new();
    v.push(("DISPLAY".to_owned(), display_str));
    if let Some(lc) = lc_ctype {
        v.push(("LC_CTYPE".to_owned(), lc.clone()));
    }
    if let Some(tz) = timezone {
        v.push(("TZ".to_owned(), tz.clone()));
    }
    if let Some(p) = http_proxy {
        v.push(("http_proxy".to_owned(), p.clone()));
        v.push(("https_proxy".to_owned(), p.clone()));
    }
    v
}

/// The browser binary: the remote's configured one, or the default.
pub fn browser_binary(binary: &Option<String>) -> (r: String)
    ensures
        binary matches Some(b) ==> r@ == b@,
        binary is None ==> r@ == DEFAULT_BROWSER@,
{
    match binary {
        Some(b) => b.clone(),
        None => DEFAULT_BROWSER.to_owned(),
    }
}

/// The homepage the browser opens: the remote's configured one, or
/// the default.
pub fn homepage_or_default(homepage: &Option<String>) -> (r: String)
    ensures
        homepage matches Some(h) ==> r@ == h@,
        homepage is None ==> r@ == DEFAULT_HOMEPAGE@,
{
    match homepage {
        Some(h) => h.clone(),
        None => DEFAULT_HOMEPAGE.to_owned(),
    }
}

/// The screen geometry string: the remote's configured one, or the
/// default.
pub fn screen_or_default(screen: &Option<String>) -> (r: String)
    ensures
        screen matches Some(s) ==> r@ == s@,
        screen is None ==> r@ == DEFAULT_SCREEN@,
{
    match screen {
        Some(s) => s.clone(),
        None => DEFAULT_SCREEN.to_owned(),
    }
}

/// The stale singleton files cleared before each browser launch.
pub fn singleton_paths(data_dir: &str) -> (r: Vec<String>)
    ensures
        r@.len() == 3,
        r@[0]@ == spec_trim_slashes(data_dir@) + seq!['/'] + "SingletonCookie"@,
        r@[1]@ == spec_trim_slashes(data_dir@) + seq!['/'] + "SingletonLock"@,
        r@[2]@ == spec_trim_slashes(data_dir@) + seq!['/'] + "SingletonSocket"@,
{
    let mut v: Vec<String> = Vec::new();
    v.push(join_under(data_dir, "SingletonCookie"));
    v.push(join_under(data_dir, "SingletonLock"));
    v.push(join_under(data_dir, "SingletonSocket"));
    v
}

/// The log file the x11vnc process writes into.
pub fn x11vnc_log_path(data_dir: &str) -> (r: String)
    ensures
        r@ == spec_trim_slashes(data_dir@) + seq!['/'] + "x11vnc.log"@,
{
    join_under(data_dir, "x11vnc.log")
}

/// The VNC endpoint a remote session registers.
pub fn vnc_endpoint(port: i32) -> (r: String)
    requires
        port >= 0,
    ensures
        r@ == "vnc://127.0.0.1:"@ + spec_udigits(port as int),
{
    "vnc://127.0.0.1:".to_owned().concat(u64_to_string(port as u64).as_str())
}

/// The session record of a started remote: registered under the
/// remote's id, pointing at its VNC endpoint and display, with no
/// cleanup of its directory on exit.
pub fn make_remote_session(
    id: String,
    data_dir: String,
    endpoint: String,
    display_num: i32,
    shutdown_tx: Option<tokio::sync::oneshot::Sender<()>>,
    now: u64,
) -> (r: Session)
    ensures
        r.id == id,
        r.kind == SessionKind::RemoteChrome,
        r.data_dir == data_dir,
        r.device is None,
        !r.cleanup,
        !r.enable_cache,
        r.created_at == now,
        r.updated_at == now,
        r.endpoint == endpoint,
        r.shutdown_tx == shutdown_tx,
        r.display_num == Some(display_num),
{
    Session {
        id,
        kind: SessionKind::RemoteChrome,
        data_dir,
        device: None,
        cleanup: false,
        enable_cache: false,
        created_at: now,
        updated_at: now,
        endpoint,
        shutdown_tx,
        display_num: Some(display_num),
    }
}

/// The scrot command line: thumbnail percentage and target file.
pub fn scrot_args(percentage: i32, file: String) -> (r: Vec<String>)
    ensures
        r@.len() == 3,
        r@[0]@ == "-t"@,
        r@[1]@ == spec_idigits(percentage as int),
        r@[2] == file,
{
    let mut v: Vec<String> = Vec::new();
    v.push("-t".to_owned());
    v.push(i64_to_string(percentage as i64));
    v.push(file);
    v
}

/// A `<digits>x<digits>` geometry standing at position `i`: the two
/// runs' values, when a nonempty digit run, an 'x', and a second
/// nonempty digit run begin there.
pub open spec fn spec_screen_match_at(s: Seq<char>, i: int) -> Option<(int, int)> {
    let j = spec_run_end(s, i);
    if j == i {
        None
    } else if j < s.len() && s[j] == 'x' {
        let k = spec_run_end(s, j + 1);
        if k == j + 1 {
            None
        } else {
            Some((spec_digits_val(s.subrange(i, j)), spec_digits_val(s.subrange(j + 1, k))))
        }
    } else {
        None
    }
}

/// The leftmost geometry match at or after `i`.
pub open spec fn spec_screen_first_match(s: Seq<char>, i: int) -> Option<(int, int)>
    decreases s.len() - i,
{
    if i < 0 || i >= s.len() {
        None
    } else if spec_screen_match_at(s, i) is Some {
        spec_screen_match_at(s, i)
    } else {
        spec_screen_first_match(s, i + 1)
    }
}

proof fn lemma_screen_first_skip(s: Seq<char>, a: int, i: int)
    requires
        0 <= a <= i <= s.len(),
        forall|p: int| a <= p < i ==> spec_screen_match_at(s, p) is None,
    ensures
        spec_screen_first_match(s, a) == spec_screen_first_match(s, i),
    decreases i - a,
{
    if a < i {
        lemma_screen_first_skip(s, a + 1, i);
    }
}

/// The parsed screen geometry: the leftmost `<width>x<height>` match,
/// or 1200 by 900 when none stands in the string or a value does not
/// fit a 32-bit integer.
pub open spec fn spec_screen_dims(s: Seq<char>) -> (int, int) {
    match spec_screen_first_match(s, 0) {
        Some(p) => if p.0 <= 2147483647 && p.1 <= 2147483647 {
            p
        } else {
            (1200, 900)
        },
        None => (1200, 900),
    }
}

/// The value of the digit run on [from, to) when it fits a 32-bit
/// integer.
fn run_value(s: &str, from: usize, to: usize) -> (r: Option<i32>)
    requires
        from < to <= s@.len(),
        forall|k: int| from <= k < to ==> spec_is_digit(s@[k]),
    ensures
        ({
            let val = spec_digits_val(s@.subrange(from as int, to as int));
            if val <= 2147483647 {
                r == Some(val as i32) && val >= 0
            } else {
                r is None
            }
        }),
{
    let mut z: usize = from;
    while z < to && s.get_char(z) == '0'
        invariant
            from <= z <= to <= s@.len(),
            forall|k: int| from <= k < z ==> s@[k] == '0',
        decreases to - z,
    {
        z = z + 1;
    }
    proof {
        lemma_digits_val_strip(s@, from as int, z as int, to as int);
        lemma_digits_val_bound(s@.subrange(z as int, to as int));
        lemma_pow10_values();
    }
    if z == to {
        proof {
            assert(s@.subrange(z as int, to as int) =~= Seq::<char>::empty());
        }
        return Some(0);
    }
    if to - z > 10 {
        proof {
            assert(s@.subrange(z as int, to as int)[0] == s@[z as int]);
            lemma_digits_val_lower(s@.subrange(z as int, to as int));
            lemma_pow10_monotone(10, ((to - z) - 1) as nat);
        }
        return None;
    }
    let v = long_digits_val(s, z, to);
    proof {
        lemma_pow10_monotone(((to - z)) as nat, 10);
    }
    if v > 2147483647 {
        None
    } else {
        Some(v as i32)
    }
}

/// Parse a screen string such as "1200x900x24" into width and height:
/// the leftmost `<digits>x<digits>` wins, and anything unusable falls
/// back to 1200 by 900.
pub fn parse_screen_dimensions(s: &str) -> (r: (i32, i32))
    ensures
        r.0 == spec_screen_dims(s@).0,
        r.1 == spec_screen_dims(s@).1,
        r.0 >= 0,
        r.1 >= 0,
{
    let n = s.unicode_len();
    let mut i: usize = 0;
    while i < n
        invariant
            n == s@.len(),
            i <= n,
            forall|p: int| 0 <= p < i ==> spec_screen_match_at(s@, p) is None,
        decreases n - i,
    {
        let j = run_end(s, i);
        proof {
            lemma_run_end_props(s@, i as int);
        }
        if j > i && j < n && s.get_char(j) == 'x' {
            let k = run_end(s, j + 1);
            proof {
                lemma_run_end_props(s@, (j + 1) as int);
            }
            if k > j + 1 {
                proof {
                    lemma_screen_first_skip(s@, 0, i as int);
                }
                let w = run_value(s, i, j);
                let h = run_value(s, j + 1, k);
                if let (Some(wv), Some(hv)) = (w, h) {
                    return (wv, hv);
                }
                return (1200, 900);
            }
        }
        proof {
            assert(spec_screen_match_at(s@, i as int) is None);
        }
        i = i + 1;
    }
    proof {
        lemma_screen_first_skip(s@, 0, n as int);
    }
    (1200, 900)
}

/// What the epoch-second value of an RFC3339 timestamp is; the text
/// alone determines it.
pub uninterp spec fn rfc3339_epoch(s: Seq<char>) -> Option<int>;

/// Relies on chrono's parse_from_rfc3339 and timestamp: the epoch
/// seconds of an RFC3339 timestamp, taken verbatim; text it cannot
/// parse yields nothing. Callers trim surrounding whitespace first.
#[verifier::external_body]
pub(crate) fn parse_rfc3339_epoch(s: &str) -> (r: Option<i64>)
    ensures
        r is Some <==> rfc3339_epoch(s@) is Some,
        r matches Some(v) ==> rfc3339_epoch(s@) == Some(v as int),
{
    chrono::DateTime::parse_from_rfc3339(s).ok().map(|t| t.timestamp())
}

/// A directory's expiry stamp asks for removal when it parses and
/// lies in the past.
pub fn expire_stamp_due(stamp: &str, now_epoch: i64) -> (r: bool)
    ensures
        r == (rfc3339_epoch(stamp@) matches Some(t) && now_epoch > t),
{
    match parse_rfc3339_epoch(stamp) {
        Some(t) => now_epoch > t,
        None => false,
    }
}

/// A remote can start only when no session carries its id; a live one
/// is refused.
pub fn start_remote_check(state: &AppState, id: &str) -> (r: Result<(), Error>)
    ensures
        r is Ok <==> first_with_id(state.sessions@, id@) < 0,
        r is Err ==> r->Err_0.status_code == BAD_GATEWAY && r->Err_0.message@
            == "session is shutdown"@,
{
    if state.contains_id(id) {
        Err(Error::new(BAD_GATEWAY, "session is shutdown"))
    } else {
        Ok(())
    }
}

/// The endpoint to tunnel to: the live session's, or a refusal when
/// the remote is not running.
pub fn connect_endpoint(state: &AppState, id: &str) -> (r: Result<String, Error>)
    ensures
        ({
            let i = first_with_id(state.sessions@, id@);
            if i < 0 {
                r is Err && r->Err_0.status_code == BAD_GATEWAY && r->Err_0.message@
                    == "session is shutdown"@
            } else {
                r is Ok && r->Ok_0@ == state.sessions@[i].endpoint@
            }
        }),
{
    match state.find_endpoint(id) {
        Some(ep) => Ok(ep),
        None => Err(Error::new(BAD_GATEWAY, "session is shutdown")),
    }
}

/// The file a directory's expiry stamp is read from.
pub const EXPIRE_SUFFIX: &'static str = ".expire";

/// The host and port of an endpoint such as `vnc://127.0.0.1:5900`:
/// the text between `://` and the next colon, and the digits after
/// it, when they reach the end and fit a port.
pub open spec fn spec_endpoint_addr(s: Seq<char>) -> Option<(Seq<char>, int)> {
    let c1 = spec_find_char(s, 0, ':');
    if c1 + 2 >= s.len() || s[c1 + 1] != '/' || s[c1 + 2] != '/' {
        None
    } else {
        let hstart = c1 + 3;
        let c2 = spec_find_char(s, hstart, ':');
        if c2 >= s.len() {
            None
        } else {
            let pstart = c2 + 1;
            let pend = spec_run_end(s, pstart);
            if pend != s.len() || pend == pstart {
                None
            } else {
                let v = spec_digits_val(s.subrange(pstart, pend));
                if v <= 65535 {
                    Some((s.subrange(hstart, c2), v))
                } else {
                    None
                }
            }
        }
    }
}

/// Parse a tunnel endpoint into the address to dial.
pub fn parse_endpoint_addr(s: &str) -> (r: Option<(String, u16)>)
    ensures
        ({
            match spec_endpoint_addr(s@) {
                Some(a) => r matches Some(p) && p.0@ == a.0 && p.1 == a.1,
                None => r is None,
            }
        }),
{
    let n = s.unicode_len();
    let c1 = find_char(s, 0, ':');
    if n - c1 < 3 || s.get_char(c1 + 1) != '/' || s.get_char(c1 + 2) != '/' {
        return None;
    }
    let hstart = c1 + 3;
    let c2 = find_char(s, hstart, ':');
    if c2 >= n {
        return None;
    }
    let pstart = c2 + 1;
    let pend = run_end(s, pstart);
    proof {
        lemma_run_end_props(s@, pstart as int);
    }
    if pend != n || pend == pstart {
        return None;
    }
    match run_value(s, pstart, pend) {
        Some(v) => {
            if v <= 65535 {
                let host = s.substring_char(hstart, c2).to_owned();
                Some((host, v as u16))
            } else {
                None
            }
        },
        None => None,
    }
}

/// One row of the remote listing: the persisted metadata and whether
/// a session with that id is live.
pub struct RemoteEntry {
    pub info: RemoteInfo,
    pub running: bool,
}

/// Attach the live-status flag to each remote: it is running exactly
/// when the registry holds a session under its id.
pub fn mark_running(state: &AppState, infos: Vec<RemoteInfo>) -> (r: Vec<RemoteEntry>)
    ensures
        r@.len() == infos@.len(),
        forall|i: int|
            0 <= i < r@.len() ==> (#[trigger] r@[i]).info == infos@[i] && r@[i].running == (
            first_with_id(state.sessions@, infos@[i].id@) >= 0),
{
    let ghost orig = infos@;
    let mut rest = infos;
    let n = rest.len();
    let mut out: Vec<RemoteEntry> = Vec::new();
    let mut j: usize = 0;
    while j < n
        invariant
            n == orig.len(),
            j <= n,
            rest@ == orig.subrange(j as int, n as int),
            out@.len() == j,
            forall|i: int|
                0 <= i < j ==> (#[trigger] out@[i]).info == orig[i] && out@[i].running == (
                first_with_id(state.sessions@, orig[i].id@) >= 0),
        decreases n - j,
    {
        let info = rest.remove(0);
        proof {
            assert(rest@ =~= orig.subrange(j + 1, n as int));
        }
        let running = state.contains_id(info.id.as_str());
        out.push(RemoteEntry { info, running });
        j = j + 1;
    }
    out
}

/// How a screenshot of a session is taken.
#[derive(Debug)]
pub enum ScreenPlan {
    Devtools(String),
    Scrot(i32, i32),
}

/// Decide how to screenshot a session: over DevTools for a headless
/// one, with scrot on its display for a remote one (thumbnail
/// percentage defaulting to 50); sessions that are missing or carry
/// no display are refused.
pub fn plan_screen(state: &AppState, id: &str, percentage: Option<i32>) -> (r: Result<
    ScreenPlan,
    Error,
>)
    ensures
        ({
            let i = first_with_id(state.sessions@, id@);
            if i < 0 {
                r is Err && r->Err_0.status_code == BAD_GATEWAY && r->Err_0.message@
                    == "session not found"@
            } else {
                let s = state.sessions@[i];
                match s.kind {
                    SessionKind::Headless => r matches Ok(p) && (p matches ScreenPlan::Devtools(ep)
                        && ep@ == s.endpoint@),
                    SessionKind::RemoteChrome => {
                        match s.display_num {
                            Some(d) => r matches Ok(p) && p == ScreenPlan::Scrot(
                                d,
                                if percentage is Some {
                                    percentage->Some_0 as int
                                } else {
                                    50
                                } as i32,
                            ),
                            None => r is Err && r->Err_0.status_code == BAD_GATEWAY
                                && r->Err_0.message@ == "session not running"@,
                        }
                    },
                }
            }
        }),
{
    let kind = match state.find_kind(id) {
        Some(k) => k,
        None => {
            return Err(Error::new(BAD_GATEWAY, "session not found"));
        },
    };
    match kind {
        SessionKind::Headless => {
            match state.find_endpoint(id) {
                Some(ep) => Ok(ScreenPlan::Devtools(ep)),
                None => Err(Error::new(BAD_GATEWAY, "session not found")),
            }
        },
        SessionKind::RemoteChrome => {
            let display = match state.find_display(id) {
                Some(d) => d,
                None => {
                    return Err(Error::new(BAD_GATEWAY, "session not found"));
                },
            };
            match display {
                Some(d) => {
                    let pct = match percentage {
                        Some(p) => p,
                        None => 50,
                    };
                    Ok(ScreenPlan::Scrot(d, pct))
                },
                None => Err(Error::new(BAD_GATEWAY, "session not running")),
            }
        },
    }
}

} // verus!
