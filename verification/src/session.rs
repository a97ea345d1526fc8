//! Session bookkeeping: the central registry with admission control,
//! lookup, kill, touch, and reaping, plus the session record itself.
use vstd::prelude::*;
use crate::devices::{Device, spec_device_eq};
use crate::error::{Error, SERVICE_UNAVAILABLE};
use crate::strutil::str_eq;

verus! {

/// A session's one-shot shutdown signal. Relies on tokio's oneshot
/// channel: dropping or firing the sender wakes the receiving
/// supervisor, which then tears the session down.
#[verifier::external_type_specification]
#[verifier::external_body]
#[verifier::reject_recursive_types(T)]
pub struct ExOneshotSender<T>(tokio::sync::oneshot::Sender<T>);

#[derive(Clone, Copy, Debug, PartialEq, Eq, Structural)]
pub enum SessionKind {
    Headless,
    RemoteChrome,
}

/// Options chosen when a session is created.
#[derive(Debug)]
pub struct SessionOption {
    pub uuid: Option<String>,
    pub landscape: bool,
    pub cleanup: bool,
    pub enable_cache: bool,
    pub userdatadir_expire: Option<u64>,
}

impl Default for SessionOption {
    /// Fresh sessions clean their data directory up and run without a
    /// persistent cache.
    fn default() -> (r: Self)
        ensures
            r.uuid is None,
            !r.landscape,
            r.cleanup,
            !r.enable_cache,
            r.userdatadir_expire is None,
    {
        Self { uuid: None, landscape: false, cleanup: true, enable_cache: false, userdatadir_expire: None }
    }
}

/// Query parameters accepted when a tunnel session is opened.
pub struct CreateSessionParams {
    pub emulating_device: Option<String>,
}

impl SessionOption {
    /// Tunnel sessions always run with the default options.
    pub fn from_params(_params: &CreateSessionParams) -> (r: Self)
        ensures
            r.uuid is None,
            !r.landscape,
            r.cleanup,
            !r.enable_cache,
            r.userdatadir_expire is None,
    {
        Self::default()
    }
}

/// A live session: a launched headless browser or a remote desktop,
/// with its bookkeeping. Timestamps are milliseconds of wall-clock
/// time supplied by the caller.
pub struct Session {
    pub id: String,
    pub kind: SessionKind,
    pub data_dir: String,
    pub device: Option<Device>,
    pub cleanup: bool,
    pub enable_cache: bool,
    pub created_at: u64,
    pub updated_at: u64,
    pub endpoint: String,
    pub shutdown_tx: Option<tokio::sync::oneshot::Sender<()>>,
    pub display_num: Option<i32>,
}

impl Session {
    /// Bump the activity timestamp; called for every bridged message.
    pub fn touch_updatedat(&mut self, now: u64)
        ensures
            *final(self) == (Session { updated_at: now, ..*old(self) }),
    {
        self.updated_at = now;
    }
}

/// What `list` reports of one session.
pub struct SessionSnapshot {
    pub id: String,
    pub kind: SessionKind,
    pub data_dir: String,
    pub device: Option<Device>,
    pub cleanup: bool,
    pub enable_cache: bool,
    pub created_at: u64,
    pub updated_at: u64,
    pub endpoint: String,
}

/// The snapshot reports exactly the session's observable fields.
pub open spec fn spec_snapshot_matches(sn: SessionSnapshot, s: Session) -> bool {
    &&& sn.id@ == s.id@
    &&& sn.kind == s.kind
    &&& sn.data_dir@ == s.data_dir@
    &&& (sn.device is Some <==> s.device is Some)
    &&& (s.device is Some ==> spec_device_eq(sn.device->Some_0, s.device->Some_0))
    &&& sn.cleanup == s.cleanup
    &&& sn.enable_cache == s.enable_cache
    &&& sn.created_at == s.created_at
    &&& sn.updated_at == s.updated_at
    &&& sn.endpoint@ == s.endpoint@
}

/// Process-wide state: the mutable session list and the immutable
/// configuration around it.
pub struct AppState {
    pub sessions: Vec<Session>,
    pub max_sessions: usize,
    pub data_root: String,
    pub enable_private_ip: bool,
    pub max_timeout: u64,
    pub author: Option<String>,
}

/// The non-sessions configuration of the state is untouched.
pub open spec fn same_config(a: AppState, b: AppState) -> bool {
    &&& a.max_sessions == b.max_sessions
    &&& a.data_root == b.data_root
    &&& a.enable_private_ip == b.enable_private_ip
    &&& a.max_timeout == b.max_timeout
    &&& a.author == b.author
}

/// The admission bound: with a positive limit the registry never holds
/// more sessions than `max_sessions`.
pub open spec fn spec_bounded(st: AppState) -> bool {
    st.max_sessions > 0 ==> st.sessions.len() <= st.max_sessions
}

/// Index of the first session carrying `id`, or -1 when none does.
pub open spec fn first_with_id(s: Seq<Session>, id: Seq<char>) -> int
    decreases s.len(),
{
    if s.len() == 0 {
        -1
    } else if s[0].id@ == id {
        0
    } else {
        let r = first_with_id(s.drop_first(), id);
        if r < 0 {
            -1
        } else {
            r + 1
        }
    }
}

/// A linear scan that saw no match up to `i` pins `first_with_id` down.
pub proof fn lemma_first_with_id_is(s: Seq<Session>, id: Seq<char>, i: int)
    requires
        0 <= i <= s.len(),
        forall|j: int| 0 <= j < i ==> s[j].id@ != id,
        i < s.len() ==> s[i].id@ == id,
    ensures
        first_with_id(s, id) == if i == s.len() { -1 as int } else { i },
    decreases s.len(),
{
    if s.len() == 0 {
    } else if s[0].id@ == id {
    } else {
        assert(forall|j: int| 0 <= j < i - 1 ==> s.drop_first()[j].id@ != id);
        lemma_first_with_id_is(s.drop_first(), id, i - 1);
    }
}

/// `first_with_id` reads only the ids, so replacing a session with one
/// of the same id leaves it unchanged.
pub proof fn lemma_first_with_id_update(s: Seq<Session>, id: Seq<char>, i: int, x: Session)
    requires
        0 <= i < s.len(),
        x.id@ == s[i].id@,
    ensures
        first_with_id(s.update(i, x), id) == first_with_id(s, id),
    decreases s.len(),
{
    let t = s.update(i, x);
    if s[0].id@ == id {
    } else if i == 0 {
        assert(t.drop_first() =~= s.drop_first());
    } else {
        assert(t.drop_first() =~= s.drop_first().update(i - 1, x));
        lemma_first_with_id_update(s.drop_first(), id, i - 1, x);
    }
}

/// The session with its shutdown signal taken out.
pub open spec fn spec_cleared(s: Session) -> Session {
    Session { shutdown_tx: None, ..s }
}

/// The registry after `kill(id)`: the first session carrying `id`, if
/// any, loses its shutdown signal; nothing else changes.
pub open spec fn spec_kill(s: Seq<Session>, id: Seq<char>) -> Seq<Session> {
    let i = first_with_id(s, id);
    if i < 0 {
        s
    } else {
        s.update(i, spec_cleared(s[i]))
    }
}

/// How many sessions still hold their shutdown signal.
pub open spec fn spec_count_armed(s: Seq<Session>) -> int
    decreases s.len(),
{
    if s.len() == 0 {
        0
    } else {
        spec_count_armed(s.drop_last()) + if s.last().shutdown_tx is Some {
            1int
        } else {
            0
        }
    }
}

/// The registry after `touch(id, now)`.
pub open spec fn spec_touch(s: Seq<Session>, id: Seq<char>, now: u64) -> Seq<Session> {
    let i = first_with_id(s, id);
    if i < 0 {
        s
    } else {
        s.update(i, Session { updated_at: now, ..s[i] })
    }
}

/// Keeps every session whose id differs from the target.
pub open spec fn keeps_id(id: Seq<char>) -> spec_fn(Session) -> bool {
    |s: Session| s.id@ != id
}

/// Selects every session whose id equals the target.
pub open spec fn drops_id(id: Seq<char>) -> spec_fn(Session) -> bool {
    |s: Session| s.id@ == id
}

/// A session the reaper evicts at `now`: older than the maximum age.
pub open spec fn expired_at(now: u64, max_timeout: u64) -> spec_fn(Session) -> bool {
    |s: Session| s.created_at <= now && now - s.created_at > max_timeout
}

/// A session the reaper keeps at `now`.
pub open spec fn live_at(now: u64, max_timeout: u64) -> spec_fn(Session) -> bool {
    |s: Session| !(s.created_at <= now && now - s.created_at > max_timeout)
}

impl AppState {
    pub fn new(data_root: String, max_sessions: usize) -> (r: Self)
        ensures
            r.sessions@ =~= Seq::<Session>::empty(),
            r.max_sessions == max_sessions,
            r.data_root == data_root,
            !r.enable_private_ip,
            r.max_timeout == 60000,
            r.author is None,
    {
        AppState {
            sessions: Vec::new(),
            max_sessions,
            data_root,
            enable_private_ip: false,
            max_timeout: 60 * 1000,
            author: None,
        }
    }

    /// The same state with private-IP targets admitted.
    pub fn allow_private_ip(self) -> (r: Self)
        ensures
            r.sessions == self.sessions,
            r.max_sessions == self.max_sessions,
            r.data_root == self.data_root,
            r.enable_private_ip,
            r.max_timeout == self.max_timeout,
            r.author == self.author,
    {
        AppState { enable_private_ip: true, ..self }
    }

    /// The pool is full exactly when a positive limit is reached.
    pub fn is_full(&self) -> (r: bool)
        ensures
            r == (self.max_sessions > 0 && self.sessions.len() >= self.max_sessions),
    {
        if self.max_sessions <= 0 {
            return false;
        }
        self.sessions.len() >= self.max_sessions
    }

    /// Admission control and insertion in one step: a full pool turns
    /// the session away with 503, otherwise it is appended. Preserves
    /// the admission bound.
    pub fn admit_insert(&mut self, s: Session) -> (r: Result<(), Error>)
        ensures
            same_config(*final(self), *old(self)),
            r is Err ==> final(self).sessions@ == old(self).sessions@,
            r is Err <==> old(self).max_sessions > 0 && old(self).sessions.len()
                >= old(self).max_sessions,
            r is Err ==> r->Err_0.status_code == SERVICE_UNAVAILABLE && r->Err_0.message@
                == "too many sessions"@,
            r is Ok ==> final(self).sessions@ == old(self).sessions@.push(s),
            spec_bounded(*old(self)) ==> spec_bounded(*final(self)),
    {
        if self.is_full() {
            return Err(Error::new(SERVICE_UNAVAILABLE, "too many sessions"));
        }
        self.sessions.push(s);
        Ok(())
    }

    /// The position of the first session carrying this id.
    pub fn find_index(&self, id: &str) -> (r: Option<usize>)
        ensures
            ({
                let i = first_with_id(self.sessions@, id@);
                if i < 0 {
                    r is None
                } else {
                    r == Some(i as usize)
                }
            }),
            r matches Some(k) ==> k as int == first_with_id(self.sessions@, id@) && k
                < self.sessions@.len() && self.sessions@[k as int].id@ == id@,
    {
        let n = self.sessions.len();
        let mut i: usize = 0;
        while i < n
            invariant
                n == self.sessions@.len(),
                i <= n,
                forall|j: int| 0 <= j < i ==> self.sessions@[j].id@ != id@,
            decreases n - i,
        {
            if str_eq(self.sessions[i].id.as_str(), id) {
                proof {
                    lemma_first_with_id_is(self.sessions@, id@, i as int);
                }
                return Some(i);
            }
            i = i + 1;
        }
        proof {
            lemma_first_with_id_is(self.sessions@, id@, n as int);
        }
        None
    }

    /// True when some session carries this id.
    pub fn contains_id(&self, id: &str) -> (r: bool)
        ensures
            r == (first_with_id(self.sessions@, id@) >= 0),
    {
        self.find_index(id).is_some()
    }

    /// The endpoint of the first session carrying this id.
    pub fn find_endpoint(&self, id: &str) -> (r: Option<String>)
        ensures
            ({
                let i = first_with_id(self.sessions@, id@);
                if i < 0 {
                    r is None
                } else {
                    r is Some && r->Some_0@ == self.sessions@[i].endpoint@
                }
            }),
    {
        let i = match self.find_index(id) {
            Some(i) => i,
            None => {
                return None;
            },
        };
        proof {
            lemma_first_with_id_bounds(self.sessions@, id@);
        }
        Some(self.sessions[i].endpoint.clone())
    }

    /// The kind of the first session carrying this id.
    pub fn find_kind(&self, id: &str) -> (r: Option<SessionKind>)
        ensures
            ({
                let i = first_with_id(self.sessions@, id@);
                if i < 0 {
                    r is None
                } else {
                    r == Some(self.sessions@[i].kind)
                }
            }),
    {
        let i = match self.find_index(id) {
            Some(i) => i,
            None => {
                return None;
            },
        };
        proof {
            lemma_first_with_id_bounds(self.sessions@, id@);
        }
        Some(self.sessions[i].kind)
    }

    /// The X display number of the first session carrying this id.
    pub fn find_display(&self, id: &str) -> (r: Option<Option<i32>>)
        ensures
            ({
                let i = first_with_id(self.sessions@, id@);
                if i < 0 {
                    r is None
                } else {
                    r == Some(self.sessions@[i].display_num)
                }
            }),
    {
        let i = match self.find_index(id) {
            Some(i) => i,
            None => {
                return None;
            },
        };
        proof {
            lemma_first_with_id_bounds(self.sessions@, id@);
        }
        Some(self.sessions[i].display_num)
    }

    /// Take the shutdown signal out of the session carrying this id.
    /// The signal, if one was still present, is handed to the caller;
    /// the session stays registered until its supervisor exits.
    pub fn kill_session(&mut self, id: &str) -> (r: Option<
        tokio::sync::oneshot::Sender<()>,
    >)
        ensures
            same_config(*final(self), *old(self)),
            final(self).sessions@ == spec_kill(old(self).sessions@, id@),
            ({
                let i = first_with_id(old(self).sessions@, id@);
                if i < 0 {
                    r is None
                } else {
                    r == old(self).sessions@[i].shutdown_tx
                }
            }),
    {
        let i = match self.find_index(id) {
            Some(i) => i,
            None => {
                return None;
            },
        };
        proof {
            lemma_first_with_id_bounds(self.sessions@, id@);
        }
        let mut s = self.sessions.remove(i);
        let tx = s.shutdown_tx.take();
        self.sessions.insert(i, s);
        proof {
            assert(self.sessions@ =~= spec_kill(old(self).sessions@, id@));
        }
        tx
    }

    /// Bump the activity timestamp of the session carrying this id.
    pub fn touch_session(&mut self, id: &str, now: u64)
        ensures
            same_config(*final(self), *old(self)),
            final(self).sessions@ == spec_touch(old(self).sessions@, id@, now),
    {
        let i = match self.find_index(id) {
            Some(i) => i,
            None => {
                return;
            },
        };
        proof {
            lemma_first_with_id_bounds(self.sessions@, id@);
        }
        let mut s = self.sessions.remove(i);
        s.touch_updatedat(now);
        self.sessions.insert(i, s);
        proof {
            assert(self.sessions@ =~= spec_touch(old(self).sessions@, id@, now));
        }
    }

    /// Take the shutdown signal out of every session; the signals
    /// still present — one per session that had not been killed yet —
    /// are handed to the caller.
    pub fn killall_session(&mut self) -> (r: Vec<tokio::sync::oneshot::Sender<()>>)
        ensures
            same_config(*final(self), *old(self)),
            final(self).sessions@.len() == old(self).sessions@.len(),
            forall|i: int|
                0 <= i < old(self).sessions@.len() ==> final(self).sessions@[i] == spec_cleared(
                    #[trigger] old(self).sessions@[i],
                ),
            r@.len() == spec_count_armed(old(self).sessions@),
    {
        let ghost orig = self.sessions@;
        let n = self.sessions.len();
        let mut kept: Vec<Session> = Vec::new();
        let mut txs: Vec<tokio::sync::oneshot::Sender<()>> = Vec::new();
        let mut j: usize = 0;
        while j < n
            invariant
                n == orig.len(),
                j <= n,
                same_config(*self, *old(self)),
                self.sessions@ == orig.subrange(j as int, n as int),
                kept@.len() == j,
                forall|i: int| 0 <= i < j ==> kept@[i] == spec_cleared(#[trigger] orig[i]),
                txs@.len() == spec_count_armed(orig.subrange(0, j as int)),
            decreases n - j,
        {
            let mut s = self.sessions.remove(0);
            proof {
                assert(self.sessions@ =~= orig.subrange(j + 1, n as int));
                assert(orig.subrange(0, j + 1).drop_last() =~= orig.subrange(0, j as int));
                assert(orig.subrange(0, j + 1).last() == orig[j as int]);
            }
            if let Some(tx) = s.shutdown_tx.take() {
                txs.push(tx);
            }
            kept.push(s);
            j = j + 1;
        }
        proof {
            assert(orig.subrange(0, n as int) =~= orig);
        }
        self.sessions = kept;
        txs
    }

    /// Drop every session carrying this id from the registry, handing
    /// the dropped records back so the caller can run their cleanup.
    pub fn remove_session(&mut self, id: &str) -> (r: Vec<Session>)
        ensures
            same_config(*final(self), *old(self)),
            final(self).sessions@ == old(self).sessions@.filter(keeps_id(id@)),
            r@ == old(self).sessions@.filter(drops_id(id@)),
    {
        let ghost orig = self.sessions@;
        let n = self.sessions.len();
        let mut kept: Vec<Session> = Vec::new();
        let mut out: Vec<Session> = Vec::new();
        let mut j: usize = 0;
        while j < n
            invariant
                n == orig.len(),
                j <= n,
                same_config(*self, *old(self)),
                self.sessions@ == orig.subrange(j as int, n as int),
                kept@ == orig.subrange(0, j as int).filter(keeps_id(id@)),
                out@ == orig.subrange(0, j as int).filter(drops_id(id@)),
            decreases n - j,
        {
            let s = self.sessions.remove(0);
            proof {
                assert(self.sessions@ =~= orig.subrange(j + 1, n as int));
                assert(orig.subrange(0, j + 1).drop_last() =~= orig.subrange(0, j as int));
                assert(orig.subrange(0, j + 1).last() == orig[j as int]);
                reveal(Seq::filter);
            }
            if str_eq(s.id.as_str(), id) {
                out.push(s);
            } else {
                kept.push(s);
            }
            j = j + 1;
        }
        proof {
            assert(orig.subrange(0, n as int) =~= orig);
        }
        self.sessions = kept;
        out
    }

    /// One reaper pass at `now`: every session older than the maximum
    /// age leaves the registry and is handed back for cleanup; every
    /// younger session stays.
    pub fn reap(&mut self, now: u64) -> (r: Vec<Session>)
        ensures
            same_config(*final(self), *old(self)),
            final(self).sessions@ == old(self).sessions@.filter(
                live_at(now, old(self).max_timeout),
            ),
            r@ == old(self).sessions@.filter(expired_at(now, old(self).max_timeout)),
    {
        let ghost orig = self.sessions@;
        let max_timeout = self.max_timeout;
        let n = self.sessions.len();
        let mut kept: Vec<Session> = Vec::new();
        let mut out: Vec<Session> = Vec::new();
        let mut j: usize = 0;
        while j < n
            invariant
                n == orig.len(),
                j <= n,
                max_timeout == self.max_timeout,
                same_config(*self, *old(self)),
                self.sessions@ == orig.subrange(j as int, n as int),
                kept@ == orig.subrange(0, j as int).filter(live_at(now, max_timeout)),
                out@ == orig.subrange(0, j as int).filter(expired_at(now, max_timeout)),
            decreases n - j,
        {
            let s = self.sessions.remove(0);
            proof {
                assert(self.sessions@ =~= orig.subrange(j + 1, n as int));
                assert(orig.subrange(0, j + 1).drop_last() =~= orig.subrange(0, j as int));
                assert(orig.subrange(0, j + 1).last() == orig[j as int]);
                reveal(Seq::filter);
            }
            if s.created_at <= now && now - s.created_at > max_timeout {
                out.push(s);
            } else {
                kept.push(s);
            }
            j = j + 1;
        }
        proof {
            assert(orig.subrange(0, n as int) =~= orig);
        }
        self.sessions = kept;
        out
    }

    /// Snapshot every session for `list`.
    pub fn list_session(&self) -> (r: Vec<SessionSnapshot>)
        ensures
            r@.len() == self.sessions@.len(),
            forall|i: int|
                0 <= i < r@.len() ==> spec_snapshot_matches(#[trigger] r@[i], self.sessions@[i]),
    {
        let n = self.sessions.len();
        let mut out: Vec<SessionSnapshot> = Vec::new();
        let mut i: usize = 0;
        while i < n
            invariant
                n == self.sessions@.len(),
                i <= n,
                out@.len() == i,
                forall|j: int|
                    0 <= j < i ==> spec_snapshot_matches(#[trigger] out@[j], self.sessions@[j]),
            decreases n - i,
        {
            let s = &self.sessions[i];
            let device = match &s.device {
                Some(d) => Some(d.clone()),
                None => None,
            };
            out.push(
                SessionSnapshot {
                    id: s.id.clone(),
                    kind: s.kind,
                    data_dir: s.data_dir.clone(),
                    device,
                    cleanup: s.cleanup,
                    enable_cache: s.enable_cache,
                    created_at: s.created_at,
                    updated_at: s.updated_at,
                    endpoint: s.endpoint.clone(),
                },
            );
            i = i + 1;
        }
        out
    }
}

/// The registry invariant: every session carries a different id.
pub open spec fn spec_unique_ids(s: Seq<Session>) -> bool {
    forall|i: int, j: int| 0 <= i < j < s.len() ==> s[i].id@ != s[j].id@
}

/// Everything a filter keeps was in the sequence.
proof fn lemma_filter_membership(s: Seq<Session>, pred: spec_fn(Session) -> bool)
    ensures
        forall|i: int|
            0 <= i < s.filter(pred).len() ==> s.contains(#[trigger] s.filter(pred)[i]),
    decreases s.len(),
{
    reveal(Seq::filter);
    if s.len() > 0 {
        lemma_filter_membership(s.drop_last(), pred);
        let f = s.filter(pred);
        let fd = s.drop_last().filter(pred);
        assert forall|i: int| 0 <= i < f.len() implies s.contains(f[i]) by {
            if i < fd.len() {
                assert(s.drop_last().contains(fd[i]));
                let j = choose|j: int|
                    0 <= j < s.drop_last().len() && s.drop_last()[j] == fd[i];
                assert(s[j] == f[i]);
            } else {
                assert(s[s.len() - 1] == f[i]);
            }
        }
    }
}

/// A negative `first_with_id` means no session carries the id.
pub proof fn lemma_first_with_id_none(s: Seq<Session>, id: Seq<char>)
    requires
        first_with_id(s, id) < 0,
    ensures
        forall|j: int| 0 <= j < s.len() ==> (#[trigger] s[j]).id@ != id,
    decreases s.len(),
{
    if s.len() > 0 && s[0].id@ != id {
        lemma_first_with_id_none(s.drop_first(), id);
        assert forall|j: int| 0 <= j < s.len() implies (#[trigger] s[j]).id@ != id by {
            if j > 0 {
                assert(s.drop_first()[j - 1] == s[j]);
            }
        }
    }
}

/// Removal and reaping preserve the uniqueness of ids.
pub proof fn lemma_filter_preserves_unique(s: Seq<Session>, pred: spec_fn(Session) -> bool)
    requires
        spec_unique_ids(s),
    ensures
        spec_unique_ids(s.filter(pred)),
    decreases s.len(),
{
    reveal(Seq::filter);
    if s.len() > 0 {
        assert(spec_unique_ids(s.drop_last()));
        lemma_filter_preserves_unique(s.drop_last(), pred);
        lemma_filter_membership(s.drop_last(), pred);
        let f = s.filter(pred);
        let fd = s.drop_last().filter(pred);
        if pred(s.last()) {
            assert forall|i: int, j: int| 0 <= i < j < f.len() implies f[i].id@ != f[j].id@ by {
                if j < fd.len() {
                    assert(fd[i] == f[i] && fd[j] == f[j]);
                } else {
                    assert(f[j] == s.last());
                    assert(fd[i] == f[i]);
                    assert(s.drop_last().contains(fd[i]));
                    let k = choose|k: int|
                        0 <= k < s.drop_last().len() && s.drop_last()[k] == fd[i];
                    assert(s[k].id@ != s[s.len() - 1].id@);
                }
            }
        }
    }
}

/// Admitting a session whose id is fresh preserves the uniqueness of
/// ids.
pub proof fn lemma_insert_preserves_unique(s: Seq<Session>, x: Session)
    requires
        spec_unique_ids(s),
        first_with_id(s, x.id@) < 0,
    ensures
        spec_unique_ids(s.push(x)),
{
    lemma_first_with_id_none(s, x.id@);
}

/// Killing and touching preserve the uniqueness of ids: the replaced
/// session keeps its id.
pub proof fn lemma_update_preserves_unique(s: Seq<Session>, i: int, x: Session)
    requires
        spec_unique_ids(s),
        0 <= i < s.len(),
        x.id@ == s[i].id@,
    ensures
        spec_unique_ids(s.update(i, x)),
{
}

/// Killing a session twice is indistinguishable from killing it once:
/// the second pass finds the signal already taken and changes nothing.
pub proof fn lemma_kill_idempotent(s: Seq<Session>, id: Seq<char>)
    ensures
        spec_kill(spec_kill(s, id), id) == spec_kill(s, id),
{
    let i = first_with_id(s, id);
    if i >= 0 {
        lemma_first_with_id_bounds(s, id);
        let s1 = spec_kill(s, id);
        lemma_first_with_id_update(s, id, i, spec_cleared(s[i]));
        assert(s1.update(i, spec_cleared(s1[i])) =~= s1);
    }
}

/// `first_with_id` is either -1 or a valid index whose session carries
/// the id.
pub proof fn lemma_first_with_id_bounds(s: Seq<Session>, id: Seq<char>)
    ensures
        first_with_id(s, id) >= 0 ==> first_with_id(s, id) < s.len() && s[first_with_id(s, id)].id@
            == id,
    decreases s.len(),
{
    if s.len() > 0 && s[0].id@ != id {
        lemma_first_with_id_bounds(s.drop_first(), id);
    }
}

/// Touching never moves the activity timestamp backwards as long as the
/// clock does not: after touches at `t1` and then `t2 >= t1`, the
/// session's timestamp is `t2`, and it grew strictly if `t2 > t1`.
/// The registry takes its clock readings as arguments, so monotonicity
/// can only be inherited from the caller's clock; unconditional
/// monotonicity is not statable here.
pub proof fn lemma_touch_monotonic(s: Seq<Session>, id: Seq<char>, t1: u64, t2: u64)
    requires
        t1 <= t2,
        first_with_id(s, id) >= 0,
    ensures
        ({
            let i = first_with_id(s, id);
            let s1 = spec_touch(s, id, t1);
            let s2 = spec_touch(s1, id, t2);
            &&& s1[i].updated_at == t1
            &&& s2[i].updated_at == t2
            &&& s2[i].updated_at >= s1[i].updated_at
            &&& (t2 > t1 ==> s2[i].updated_at > s1[i].updated_at)
        }),
{
    let i = first_with_id(s, id);
    lemma_first_with_id_bounds(s, id);
    lemma_first_with_id_update(s, id, i, Session { updated_at: t1, ..s[i] });
}

/// After `remove(id)` completes, no session carrying that id stays
/// registered, and the records handed back — whose data directories
/// the caller removes for each that asks for cleanup — are exactly
/// those that carried it.
pub proof fn lemma_remove_completeness(s: Seq<Session>, id: Seq<char>)
    ensures
        forall|i: int|
            0 <= i < s.filter(keeps_id(id)).len() ==> (#[trigger] s.filter(keeps_id(id))[i]).id@
                != id,
        forall|i: int|
            0 <= i < s.filter(drops_id(id)).len() ==> (#[trigger] s.filter(drops_id(id))[i]).id@
                == id,
{
    assert forall|i: int| 0 <= i < s.filter(keeps_id(id)).len() implies (#[trigger] s.filter(
        keeps_id(id),
    )[i]).id@ != id by {
        s.lemma_filter_pred(keeps_id(id), i);
    }
    assert forall|i: int| 0 <= i < s.filter(drops_id(id)).len() implies (#[trigger] s.filter(
        drops_id(id),
    )[i]).id@ == id by {
        s.lemma_filter_pred(drops_id(id), i);
    }
}

/// Reaper safety: a session younger than the maximum age survives a
/// reaper pass.
pub proof fn lemma_reaper_safety(s: Seq<Session>, now: u64, max_timeout: u64, i: int)
    requires
        0 <= i < s.len(),
        s[i].created_at <= now,
        now - s[i].created_at < max_timeout,
    ensures
        s.filter(live_at(now, max_timeout)).contains(s[i]),
{
    s.lemma_filter_contains(live_at(now, max_timeout), i);
}

} // verus!
