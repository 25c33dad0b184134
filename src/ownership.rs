//! One-time acquisition of the two peripheral handles.
//!
//! Each handle can be issued once per process; a second request is refused.
use vstd::prelude::*;

verus! {

/// Proof that the core peripherals were issued to the holder.
pub struct CoreToken {
    issued_once: (),
}

/// Proof that the device peripherals were issued to the holder.
pub struct DeviceToken {
    issued_once: (),
}

/// What has been issued so far.
pub struct IssuedView {
    pub core: bool,
    pub device: bool,
}

/// The process-wide record of which peripheral handles have been issued.
pub struct PeripheralRegistry {
    core_issued: bool,
    device_issued: bool,
}

impl View for PeripheralRegistry {
    type V = IssuedView;

    closed spec fn view(&self) -> IssuedView {
        IssuedView { core: self.core_issued, device: self.device_issued }
    }
}

impl PeripheralRegistry {
    /// A registry in which nothing has been issued yet.
    pub fn new() -> (r: PeripheralRegistry)
        ensures
            !r@.core,
            !r@.device,
    {
        PeripheralRegistry { core_issued: false, device_issued: false }
    }

    /// Issues the core peripherals, or nothing if they were issued before.
    pub fn take_core(&mut self) -> (r: Option<CoreToken>)
        ensures
            r.is_some() == !is_issued(old(self)@, Handle::Core),
            final(self)@ == after_request(old(self)@, Handle::Core),
    {
        if self.core_issued {
            None
        } else {
            self.core_issued = true;
            Some(CoreToken { issued_once: () })
        }
    }

    /// Issues the device peripherals, or nothing if they were issued before.
    pub fn take_device(&mut self) -> (r: Option<DeviceToken>)
        ensures
            r.is_some() == !is_issued(old(self)@, Handle::Device),
            final(self)@ == after_request(old(self)@, Handle::Device),
    {
        if self.device_issued {
            None
        } else {
            self.device_issued = true;
            Some(DeviceToken { issued_once: () })
        }
    }
}

/// The two peripheral handles that can be requested.
pub enum Handle {
    Core,
    Device,
}

/// Whether `h` has been issued according to `v`.
pub open spec fn is_issued(v: IssuedView, h: Handle) -> bool {
    match h {
        Handle::Core => v.core,
        Handle::Device => v.device,
    }
}

/// The registry's record after one request for `h`.
pub open spec fn after_request(v: IssuedView, h: Handle) -> IssuedView {
    match h {
        Handle::Core => IssuedView { core: true, device: v.device },
        Handle::Device => IssuedView { core: v.core, device: true },
    }
}

/// The registry's record after the requests `reqs`, made in order.
pub open spec fn after_requests(v: IssuedView, reqs: Seq<Handle>) -> IssuedView
    decreases reqs.len(),
{
    if reqs.len() == 0 {
        v
    } else {
        after_request(after_requests(v, reqs.drop_last()), reqs.last())
    }
}

/// Whether the `i`-th of the requests `reqs` is granted.
pub open spec fn granted_at(v: IssuedView, reqs: Seq<Handle>, i: int) -> bool {
    !is_issued(after_requests(v, reqs.take(i)), reqs[i])
}

proof fn lemma_issued_stays(v: IssuedView, reqs: Seq<Handle>, h: Handle)
    requires
        is_issued(v, h),
    ensures
        is_issued(after_requests(v, reqs), h),
    decreases reqs.len(),
{
    if reqs.len() > 0 {
        lemma_issued_stays(v, reqs.drop_last(), h);
    }
}

/// Acquisition never succeeds twice: in any run of requests, a request for a
/// handle that was requested before is refused.
pub proof fn lemma_acquired_at_most_once(v: IssuedView, reqs: Seq<Handle>, i: int, j: int)
    requires
        0 <= i < j < reqs.len(),
        reqs[i] == reqs[j],
    ensures
        !granted_at(v, reqs, j),
{
    let before_i = after_requests(v, reqs.take(i));
    let after_i = after_request(before_i, reqs[i]);
    assert(reqs.take(i + 1).drop_last() =~= reqs.take(i));
    assert(after_requests(v, reqs.take(i + 1)) == after_i);
    assert(is_issued(after_i, reqs[j]));
    let rest = reqs.subrange(i + 1, j);
    lemma_issued_stays(after_i, rest, reqs[j]);
    lemma_requests_split(v, reqs.take(i + 1), rest);
    assert(reqs.take(i + 1) + rest =~= reqs.take(j));
}

proof fn lemma_requests_split(v: IssuedView, a: Seq<Handle>, b: Seq<Handle>)
    ensures
        after_requests(v, a + b) == after_requests(after_requests(v, a), b),
    decreases b.len(),
{
    if b.len() > 0 {
        lemma_requests_split(v, a, b.drop_last());
        assert((a + b).drop_last() =~= a + b.drop_last());
        assert((a + b).last() == b.last());
    } else {
        assert(a + b =~= a);
    }
}

} // verus!
