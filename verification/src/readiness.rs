//! The "wait for readiness" protocol that runs against a page before
//! extraction: the network-idle tracker, the scroll choreography, the
//! poll decisions, and the ordered plan of steps.
use vstd::prelude::*;
use crate::strutil::str_eq;

verus! {

broadcast use vstd::string::group_string_axioms;

/// Polling interval of the readiness loops, in milliseconds.
pub const SLEEP_INTERVAL: u64 = 50;

/// The default readiness budget, in milliseconds.
pub const DEFAULT_WAIT_LOAD: u64 = 15000;

/// Tracks the page's in-flight requests and the time of the last
/// settled one. Request ids are kept unique.
pub struct NetworkIdleTracker {
    pub inflight: Vec<String>,
    pub last_activity: Option<u64>,
}

/// Some tracked request carries this id.
pub open spec fn spec_has_req(s: Seq<String>, id: Seq<char>) -> bool {
    exists|i: int| 0 <= i < s.len() && s[i]@ == id
}

/// Keeps every request whose id differs from the target.
pub open spec fn keeps_req(id: Seq<char>) -> spec_fn(String) -> bool {
    |r: String| r@ != id
}

/// An event of the page's network activity, timestamped by the caller
/// where the tracker needs a clock reading.
pub enum NetworkEvent {
    RequestWillBeSent(String),
    LoadingFinished(String, u64),
    LoadingFailed(String, u64),
    Tick(u64),
}

impl NetworkIdleTracker {
    pub fn new() -> (r: Self)
        ensures
            r.inflight@ =~= Seq::<String>::empty(),
            r.last_activity is None,
    {
        NetworkIdleTracker { inflight: Vec::new(), last_activity: None }
    }

    pub fn inflight_empty(&self) -> (r: bool)
        ensures
            r == (self.inflight@.len() == 0),
    {
        self.inflight.is_empty()
    }

    /// A request started: it joins the in-flight set and the idle clock
    /// is cleared.
    pub fn on_request(&mut self, id: String)
        ensures
            final(self).last_activity is None,
            spec_has_req(old(self).inflight@, id@) ==> final(self).inflight@ == old(
                self,
            ).inflight@,
            !spec_has_req(old(self).inflight@, id@) ==> final(self).inflight@ == old(
                self,
            ).inflight@.push(id),
    {
        self.last_activity = None;
        let n = self.inflight.len();
        let mut i: usize = 0;
        while i < n
            invariant
                n == self.inflight@.len(),
                i <= n,
                self.inflight@ == old(self).inflight@,
                self.last_activity is None,
                forall|j: int| 0 <= j < i ==> self.inflight@[j]@ != id@,
            decreases n - i,
        {
            if str_eq(self.inflight[i].as_str(), id.as_str()) {
                return ;
            }
            i = i + 1;
        }
        self.inflight.push(id);
    }

    /// A request finished or failed: it leaves the in-flight set and
    /// the idle clock starts at `now`.
    pub fn on_settled(&mut self, id: &str, now: u64)
        ensures
            final(self).last_activity == Some(now),
            final(self).inflight@ == old(self).inflight@.filter(keeps_req(id@)),
    {
        self.last_activity = Some(now);
        let ghost orig = self.inflight@;
        let n = self.inflight.len();
        let mut kept: Vec<String> = Vec::new();
        let mut j: usize = 0;
        while j < n
            invariant
                n == orig.len(),
                j <= n,
                self.last_activity == Some(now),
                self.inflight@ == orig.subrange(j as int, n as int),
                kept@ == orig.subrange(0, j as int).filter(keeps_req(id@)),
            decreases n - j,
        {
            let r = self.inflight.remove(0);
            proof {
                assert(self.inflight@ =~= orig.subrange(j + 1, n as int));
                assert(orig.subrange(0, j + 1).drop_last() =~= orig.subrange(0, j as int));
                assert(orig.subrange(0, j + 1).last() == orig[j as int]);
                reveal(Seq::filter);
            }
            if !str_eq(r.as_str(), id) {
                kept.push(r);
            }
            j = j + 1;
        }
        proof {
            assert(orig.subrange(0, n as int) =~= orig);
        }
        self.inflight = kept;
    }

    /// The exit condition evaluated after an event: the in-flight set
    /// is empty and more than `window` ms have passed since the last
    /// settled request. A clock that went backwards counts as no time
    /// passed.
    pub fn is_idle(&self, now: u64, window: u64) -> (r: bool)
        ensures
            r == (self.inflight@.len() == 0 && (self.last_activity matches Some(last) && last
                <= now && now - last > window)),
    {
        if !self.inflight.is_empty() {
            return false;
        }
        match self.last_activity {
            Some(last) => last <= now && now - last > window,
            None => false,
        }
    }

    /// Feed one event; the result says whether the wait is over. A
    /// tick means the idle window passed with no event at all, which
    /// ends the wait whatever is still in flight.
    pub fn step(&mut self, ev: NetworkEvent) -> (done: bool)
        ensures
            ({
                match ev {
                    NetworkEvent::RequestWillBeSent(id) => {
                        &&& final(self).last_activity is None
                        &&& (spec_has_req(old(self).inflight@, id@) ==> final(self).inflight@
                            == old(self).inflight@)
                        &&& (!spec_has_req(old(self).inflight@, id@) ==> final(self).inflight@
                            == old(self).inflight@.push(id))
                        &&& !done
                    },
                    NetworkEvent::LoadingFinished(id, now) => {
                        &&& final(self).last_activity == Some(now)
                        &&& final(self).inflight@ == old(self).inflight@.filter(keeps_req(id@))
                        &&& !done
                    },
                    NetworkEvent::LoadingFailed(id, now) => {
                        &&& final(self).last_activity == Some(now)
                        &&& final(self).inflight@ == old(self).inflight@.filter(keeps_req(id@))
                        &&& !done
                    },
                    NetworkEvent::Tick(_) => {
                        &&& *final(self) == *old(self)
                        &&& done
                    },
                }
            }),
    {
        match ev {
            NetworkEvent::RequestWillBeSent(id) => {
                self.on_request(id);
                false
            },
            NetworkEvent::LoadingFinished(id, now) => {
                // the idle window cannot have elapsed at the instant a
                // request settles, so the wait goes on
                self.on_settled(id.as_str(), now);
                false
            },
            NetworkEvent::LoadingFailed(id, now) => {
                self.on_settled(id.as_str(), now);
                false
            },
            NetworkEvent::Tick(_) => true,
        }
    }
}

/// The scroll choreography: `count` stops that end at the page bottom,
/// each `step` pixels below the previous one.
pub struct ScrollPlan {
    pub height: i64,
    pub count: u64,
    pub step: i64,
}

/// The plan's fields are consistent: a positive number of stops and
/// the step that divides the height among them.
pub open spec fn scroll_plan_wf(p: ScrollPlan) -> bool {
    &&& p.height >= 0
    &&& p.count >= 1
    &&& p.step == p.height as int / p.count as int
}

/// Lay out the scroll: `total_ms / interval` stops (at least one),
/// stepping `height / count` pixels at a time.
pub fn scroll_plan(height: i64, total_ms: u64, interval: u64) -> (r: ScrollPlan)
    requires
        height >= 0,
        interval > 0,
    ensures
        scroll_plan_wf(r),
        r.height == height,
        r.count == if total_ms / interval >= 1 {
            total_ms / interval
        } else {
            1
        },
{
    let mut count = total_ms / interval;
    if count < 1 {
        count = 1;
    }
    proof {
        assert((height as u64) as int / count as int >= 0) by (nonlinear_arith)
            requires
                height >= 0,
                count >= 1,
        ;
        assert((height as u64) as int / count as int <= height) by (nonlinear_arith)
            requires
                height >= 0,
                count >= 1,
        ;
    }
    let step = ((height as u64) / count) as i64;
    ScrollPlan { height, count, step }
}

impl ScrollPlan {
    /// The scroll target of stop `t`, counted down from `count - 1`
    /// (the first stop) to 0 (the page bottom).
    pub fn target(&self, t: u64) -> (r: i64)
        requires
            scroll_plan_wf(*self),
            t < self.count,
        ensures
            r == self.height as int - self.step as int * t as int,
    {
        proof {
            assert(self.step >= 0 && self.step as int * t as int <= self.height as int)
                by (nonlinear_arith)
                requires
                    self.height >= 0,
                    self.count >= 1,
                    self.step == self.height as int / self.count as int,
                    0 <= t < self.count,
            ;
        }
        let prod = (self.step as u64) * t;
        self.height - (prod as i64)
    }
}

/// The DOM-ready poll succeeds when the document reports completion.
pub fn page_ready(ready_state: &str) -> (r: bool)
    ensures
        r == (ready_state@ == "complete"@),
{
    str_eq(ready_state, "complete")
}

/// The images poll succeeds when no image exists or every image is
/// complete.
pub fn images_done(image_count: i64, all_complete: bool) -> (r: bool)
    ensures
        r == (image_count == 0 || all_complete),
{
    image_count == 0 || all_complete
}

/// The scroll-reset poll succeeds once the page is back at the top.
pub fn scroll_top_done(scroll_y: i64) -> (r: bool)
    ensures
        r == (scroll_y == 0),
{
    scroll_y == 0
}

/// The readiness budget: the requested wait capped by the configured
/// maximum, defaulting to fifteen seconds.
pub fn wait_budget(wait_load: Option<u64>, max_timeout: u64) -> (r: u64)
    ensures
        ({
            let want = if wait_load is Some {
                wait_load->Some_0 as int
            } else {
                DEFAULT_WAIT_LOAD as int
            };
            r == if want <= max_timeout {
                want
            } else {
                max_timeout as int
            }
        }),
{
    let want = match wait_load {
        Some(v) => v,
        None => DEFAULT_WAIT_LOAD,
    };
    if want <= max_timeout {
        want
    } else {
        max_timeout
    }
}

/// The hard deadline of a render: the requested timeout, floored at
/// the configured maximum.
pub fn hard_deadline(timeout: Option<u64>, max_timeout: u64) -> (r: u64)
    ensures
        ({
            let want = if timeout is Some {
                timeout->Some_0 as int
            } else {
                max_timeout as int
            };
            r == if want >= max_timeout {
                want
            } else {
                max_timeout as int
            }
        }),
{
    let want = match timeout {
        Some(v) => v,
        None => max_timeout,
    };
    if want >= max_timeout {
        want
    } else {
        max_timeout
    }
}

/// One step of the readiness protocol, in the order the plan lists
/// them.
pub enum ReadinessStep {
    NetworkIdle(u64),
    NavigationSettle,
    DomReady,
    ScrollBottom(u64, u64),
    ScrollTopReset,
    SelectorWait(String),
    ImagesComplete,
}

/// The ordered steps that a render with these options walks: the
/// network-idle wait when an idle window is given; the navigation
/// settle always; the DOM-ready poll when requested; then, when a
/// scroll time or the images option is present, the scroll
/// choreography for a positive scroll time, or a reset to the top
/// when the images option asked for one; the selector wait; and the
/// images poll when the images option is set.
pub open spec fn spec_readiness_plan(
    network_idle: Option<u64>,
    page_ready_opt: Option<bool>,
    scroll_bottom: Option<u64>,
    scroll_interval: Option<u64>,
    wait_images: Option<bool>,
    selector: Option<String>,
) -> Seq<ReadinessStep> {
    let s1: Seq<ReadinessStep> = if network_idle is Some {
        seq![ReadinessStep::NetworkIdle(network_idle->Some_0)]
    } else {
        Seq::empty()
    };
    let s2 = s1 + seq![ReadinessStep::NavigationSettle];
    let s3 = if page_ready_opt is Some {
        s2 + seq![ReadinessStep::DomReady]
    } else {
        s2
    };
    let sb = if scroll_bottom is Some {
        scroll_bottom->Some_0
    } else {
        0
    };
    let iv = if scroll_interval is Some {
        scroll_interval->Some_0
    } else {
        200
    };
    let s4 = if scroll_bottom is Some || wait_images is Some {
        if sb > 0 {
            s3 + seq![ReadinessStep::ScrollBottom(sb, iv)]
        } else if wait_images is Some {
            s3 + seq![ReadinessStep::ScrollTopReset]
        } else {
            s3
        }
    } else {
        s3
    };
    let s5 = if selector is Some {
        s4 + seq![ReadinessStep::SelectorWait(selector->Some_0)]
    } else {
        s4
    };
    if wait_images == Some(true) {
        s5 + seq![ReadinessStep::ImagesComplete]
    } else {
        s5
    }
}

/// Build the plan for these options.
pub fn readiness_plan(
    network_idle: Option<u64>,
    page_ready_opt: Option<bool>,
    scroll_bottom: Option<u64>,
    scroll_interval: Option<u64>,
    wait_images: Option<bool>,
    selector: Option<String>,
) -> (r: Vec<ReadinessStep>)
    ensures
        r@ == spec_readiness_plan(
            network_idle,
            page_ready_opt,
            scroll_bottom,
            scroll_interval,
            wait_images,
            selector,
        ),
{
    let mut plan: Vec<ReadinessStep> = Vec::new();
    if let Some(window) = network_idle {
        plan.push(ReadinessStep::NetworkIdle(window));
    }
    plan.push(ReadinessStep::NavigationSettle);
    if page_ready_opt.is_some() {
        plan.push(ReadinessStep::DomReady);
    }
    let sb = match scroll_bottom {
        Some(v) => v,
        None => 0,
    };
    let iv = match scroll_interval {
        Some(v) => v,
        None => 200,
    };
    if scroll_bottom.is_some() || wait_images.is_some() {
        if sb > 0 {
            plan.push(ReadinessStep::ScrollBottom(sb, iv));
        } else if wait_images.is_some() {
            plan.push(ReadinessStep::ScrollTopReset);
        }
    }
    if let Some(sel) = selector {
        plan.push(ReadinessStep::SelectorWait(sel));
    }
    let images = match wait_images {
        Some(v) => v,
        None => false,
    };
    if images {
        plan.push(ReadinessStep::ImagesComplete);
    }
    proof {
        assert(plan@ =~= spec_readiness_plan(
            network_idle,
            page_ready_opt,
            scroll_bottom,
            scroll_interval,
            wait_images,
            selector,
        ));
    }
    plan
}

} // verus!
