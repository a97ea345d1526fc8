//! Allocation of X display numbers and VNC TCP ports. The filesystem
//! scan and the bind attempts happen outside; the choices, bounds and
//! counter bookkeeping are decided here.
use vstd::prelude::*;
use crate::error::{Error, SERVICE_UNAVAILABLE};
use crate::numstr::{spec_udigits, u64_to_string};

verus! {

broadcast use vstd::string::group_string_axioms;

/// The X lock file that display `n` owns.
pub fn x_lock_path(n: i32) -> (r: String)
    requires
        n >= 0,
    ensures
        r@ == "/tmp/.X"@ + spec_udigits(n as int) + "-lock"@,
{
    let digits = u64_to_string(n as u64);
    "/tmp/.X".to_owned().concat(digits.as_str()).concat("-lock")
}

/// The first display number in [100, 1024) whose lock file is absent.
/// `occupied` holds the numbers of that range whose lock file exists;
/// when every number is taken the allocator fails with 503.
pub fn first_free_display(occupied: &Vec<i32>) -> (r: Result<i32, Error>)
    ensures
        r is Ok ==> 100 <= r->Ok_0 < 1024 && !occupied@.contains(r->Ok_0) && (forall|m: i32|
            100 <= m < r->Ok_0 ==> occupied@.contains(m)),
        r is Err <==> (forall|m: i32| 100 <= m < 1024 ==> occupied@.contains(m)),
        r is Err ==> r->Err_0.status_code == SERVICE_UNAVAILABLE && r->Err_0.message@
            == "not available xvfb num"@,
{
    let mut idx: i32 = 100;
    while idx < 1024
        invariant
            100 <= idx <= 1024,
            forall|m: i32| 100 <= m < idx ==> occupied@.contains(m),
        decreases 1024 - idx,
    {
        let mut taken = false;
        let n = occupied.len();
        let mut i: usize = 0;
        while i < n
            invariant
                n == occupied@.len(),
                i <= n,
                taken == exists|j: int| 0 <= j < i && occupied@[j] == idx,
            decreases n - i,
        {
            if occupied[i] == idx {
                taken = true;
            }
            i = i + 1;
        }
        if !taken {
            proof {
                assert(!occupied@.contains(idx));
            }
            return Ok(idx);
        }
        idx = idx + 1;
    }
    Err(Error::new(SERVICE_UNAVAILABLE, "not available xvfb num"))
}

/// The error when the VNC port scan finds no bindable candidate: the
/// allocator is exhausted, 503.
pub fn vnc_exhausted_error() -> (r: Error)
    ensures
        r.status_code == SERVICE_UNAVAILABLE,
        r.message@ == "no port available"@,
{
    Error::new(SERVICE_UNAVAILABLE, "no port available")
}

/// The VNC port counter: candidates are handed out sequentially from
/// `next`, rolling back to 5900 when the scan runs past 8000.
pub struct VncPortAlloc {
    pub next: i32,
}

/// The counter stays inside the managed range.
pub open spec fn vnc_alloc_wf(a: VncPortAlloc) -> bool {
    5900 <= a.next <= 8000
}

impl VncPortAlloc {
    pub fn new() -> (r: Self)
        ensures
            r.next == 5900,
            vnc_alloc_wf(r),
    {
        VncPortAlloc { next: 5900 }
    }

    /// The `idx`-th candidate of the current scan, or nothing when it
    /// would run past 8000.
    pub fn candidate(&self, idx: i32) -> (r: Option<i32>)
        requires
            vnc_alloc_wf(*self),
            0 <= idx < 10,
        ensures
            self.next + idx < 8000 ==> r == Some((self.next + idx) as i32),
            self.next + idx >= 8000 ==> r is None,
    {
        let p = self.next + idx;
        if p >= 8000 {
            None
        } else {
            Some(p)
        }
    }

    /// A candidate was bound successfully: advance the counter past it.
    pub fn accept(&mut self, port: i32)
        requires
            vnc_alloc_wf(*old(self)),
            old(self).next <= port < 8000,
        ensures
            final(self).next == port + 1,
            vnc_alloc_wf(*final(self)),
    {
        self.next = port + 1;
    }

    /// The scan ran past 8000: start over from 5900.
    pub fn reset(&mut self)
        ensures
            final(self).next == 5900,
            vnc_alloc_wf(*final(self)),
    {
        self.next = 5900;
    }
}

} // verus!
