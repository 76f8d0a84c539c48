//! Per-category device containers.
//!
//! One container holds the devices of one category under one of two
//! storage disciplines, chosen once at startup from the build
//! configuration and never mixed within one running process:
//!
//! - *static*: a single slot; offering a second device is a
//!   `CapacityViolation`, which leaves the slot unchanged — more than
//!   one device of a statically modeled category is a configuration
//!   error and is surfaced loudly, never silently dropped;
//! - *dynamic*: a growable list; `push` always succeeds and keeps
//!   arrival order.

use vstd::prelude::*;

use crate::types::{DevError, DevResult};

verus! {

/// A per-category device holder with one of two storage disciplines.
pub enum AxDeviceContainer<D> {
    /// At most one device, resolved statically.
    Static(Option<D>),
    /// Zero or more devices, in arrival order.
    Dynamic(Vec<D>),
}

impl<D> View for AxDeviceContainer<D> {
    type V = Seq<D>;

    /// The abstract value is the held devices, in arrival order.
    closed spec fn view(&self) -> Seq<D> {
        match self {
            AxDeviceContainer::Static(slot) => match slot {
                Some(d) => seq![*d],
                None => Seq::empty(),
            },
            AxDeviceContainer::Dynamic(v) => v@,
        }
    }
}

/// How one `push` call relates the container before and after the call
/// to the offered device and the reported result.
pub open spec fn push_post<D>(
    pre: AxDeviceContainer<D>,
    post: AxDeviceContainer<D>,
    dev: D,
    r: DevResult,
) -> bool {
    &&& post is Static <==> pre is Static
    &&& if pre is Static && pre@.len() >= 1 {
        r == DevResult::Err(DevError::CapacityViolation) && post@ == pre@
    } else {
        r is Ok && post@ == pre@.push(dev)
    }
}

impl<D> AxDeviceContainer<D> {
    /// Creates an empty container of the static (single-slot) discipline.
    pub fn new_static() -> (r: AxDeviceContainer<D>)
        ensures
            r is Static,
            r@ == Seq::<D>::empty(),
    {
        let r = AxDeviceContainer::Static(None);
        proof {
            assert(r@ =~= Seq::<D>::empty());
        }
        r
    }

    /// Creates an empty container of the dynamic (growable) discipline.
    pub fn new_dynamic() -> (r: AxDeviceContainer<D>)
        ensures
            r is Dynamic,
            r@ == Seq::<D>::empty(),
    {
        let r = AxDeviceContainer::Dynamic(Vec::new());
        proof {
            assert(r@ =~= Seq::<D>::empty());
        }
        r
    }

    /// Reports whether this container uses the static discipline.
    pub fn is_static(&self) -> (b: bool)
        ensures
            b <==> *self is Static,
    {
        match self {
            AxDeviceContainer::Static(_) => true,
            AxDeviceContainer::Dynamic(_) => false,
        }
    }

    /// Accepts one more device.
    ///
    /// Under the dynamic discipline this always succeeds and appends.
    /// Under the static discipline it succeeds only into the empty
    /// slot; a second device is rejected with `CapacityViolation` and
    /// the held device is unchanged.
    pub fn push(&mut self, dev: D) -> (r: DevResult)
        ensures
            push_post(*old(self), *final(self), dev, r),
    {
        match self {
            AxDeviceContainer::Static(slot) => {
                if slot.is_some() {
                    proof {
                        assert(old(self)@.len() >= 1);
                    }
                    Err(DevError::CapacityViolation)
                } else {
                    *slot = Some(dev);
                    proof {
                        assert(self@ =~= old(self)@.push(dev));
                    }
                    Ok(())
                }
            },
            AxDeviceContainer::Dynamic(v) => {
                v.push(dev);
                proof {
                    assert(self@ =~= old(self)@.push(dev));
                }
                Ok(())
            },
        }
    }

    /// Returns how many devices are held.
    pub fn len(&self) -> (n: usize)
        ensures
            n == self@.len(),
    {
        match self {
            AxDeviceContainer::Static(slot) => {
                if slot.is_some() {
                    1
                } else {
                    0
                }
            },
            AxDeviceContainer::Dynamic(v) => v.len(),
        }
    }

    /// Reports whether no device is held.
    pub fn is_empty(&self) -> (b: bool)
        ensures
            b <==> self@.len() == 0,
    {
        self.len() == 0
    }

    /// Returns the device at position `i` in arrival order.
    pub fn get(&self, i: usize) -> (d: &D)
        requires
            i < self@.len(),
        ensures
            *d == self@[i as int],
    {
        match self {
            AxDeviceContainer::Static(slot) => match slot {
                Some(d) => d,
                None => {
                    proof {
                        assert(false);
                    }
                    unreached()
                },
            },
            AxDeviceContainer::Dynamic(v) => &v[i],
        }
    }
}

/// A static container never holds more than one device.
pub proof fn lemma_static_len<D>(c: AxDeviceContainer<D>)
    requires
        c is Static,
    ensures
        c@.len() <= 1,
{
}

/// Law of the static discipline: after one successful `push` into an
/// empty static container, a second `push` is rejected with
/// `CapacityViolation` and the contents are unchanged by the rejected
/// attempt.
pub proof fn lemma_static_push_rejects_second<D>(
    c0: AxDeviceContainer<D>,
    c1: AxDeviceContainer<D>,
    c2: AxDeviceContainer<D>,
    d1: D,
    d2: D,
    r1: DevResult,
    r2: DevResult,
)
    requires
        c0 is Static,
        c0@.len() == 0,
        push_post(c0, c1, d1, r1),
        push_post(c1, c2, d2, r2),
    ensures
        r1 is Ok,
        c1@ == seq![d1],
        r2 == DevResult::Err(DevError::CapacityViolation),
        c2@ == c1@,
{
    assert(c1@ =~= seq![d1]);
}

/// Law of the dynamic discipline: after any sequence of `push` calls
/// into a dynamic container, every call succeeded, and the held
/// devices are the initial ones followed by the pushed ones in call
/// order — so the final length grew by exactly the number of calls.
pub proof fn lemma_dynamic_push_sequence<D>(
    states: Seq<AxDeviceContainer<D>>,
    devs: Seq<D>,
    results: Seq<DevResult>,
)
    requires
        states.len() == devs.len() + 1,
        results.len() == devs.len(),
        !(states[0] is Static),
        forall|i: int| 0 <= i < devs.len() ==> push_post(
            #[trigger] states[i],
            states[i + 1],
            devs[i],
            results[i],
        ),
    ensures
        states.last()@ == states[0]@ + devs,
        states.last()@.len() == states[0]@.len() + devs.len(),
        forall|i: int| 0 <= i < results.len() ==> (#[trigger] results[i]) is Ok,
    decreases devs.len(),
{
    if devs.len() == 0 {
        assert(states.last() == states[0]);
        assert(states[0]@ + devs =~= states[0]@);
    } else {
        assert(push_post(states[0], states[1], devs[0], results[0]));
        lemma_dynamic_push_sequence(states.skip(1), devs.skip(1), results.skip(1));
        assert(states.skip(1).last() == states.last());
        assert(states.skip(1)[0] == states[1]);
        assert(states.last()@ == states[1]@ + devs.skip(1));
        assert(states[0]@.push(devs[0]) + devs.skip(1) =~= states[0]@ + devs);
        assert forall|i: int| 0 <= i < results.len() implies (#[trigger] results[i]) is Ok by {
            if i > 0 {
                assert(results.skip(1)[i - 1] is Ok);
            }
        }
    }
}

} // verus!
