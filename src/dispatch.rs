//! The event dispatcher: three add-only registries of subscribers, one per
//! category, each notified in registration order.

use vstd::prelude::*;
use crate::state::Notification;
use crate::types::{Button, SystemEvent, Wheel};

verus! {

/// A failure that a subscriber reported. It is handed back to the caller and
/// does not keep the other subscribers from being notified.
#[derive(Debug, Clone)]
pub struct CallbackError {
    pub message: String,
}

/// Code that wants to hear of payloads of type `P`.
pub trait Subscriber<P> {
    fn notify(&self, payload: P) -> Result<(), CallbackError>;
}

/// The subscribers of one category, in the order in which they subscribed.
#[derive(Debug, Clone)]
pub struct Registry<S> {
    subscribers: Vec<S>,
}

impl<S> View for Registry<S> {
    type V = Seq<S>;

    closed spec fn view(&self) -> Seq<S> {
        self.subscribers@
    }
}

impl<S> Registry<S> {
    /// A registry with no subscribers.
    pub fn new() -> (r: Registry<S>)
        ensures
            r@ == Seq::<S>::empty(),
    {
        Registry { subscribers: Vec::new() }
    }

    /// Adds a subscriber after all the others.
    pub fn subscribe(&mut self, subscriber: S)
        ensures
            final(self)@ == old(self)@.push(subscriber),
    {
        self.subscribers.push(subscriber);
    }

    /// How many subscribers there are.
    pub fn len(&self) -> (r: usize)
        ensures
            r == self@.len(),
    {
        self.subscribers.len()
    }

    /// Notifies every subscriber of `payload`, in registration order, and
    /// returns one outcome per subscriber, in the same order. A failing
    /// subscriber does not stop the others.
    pub fn dispatch<P: Copy>(&self, payload: P, outcomes: &mut Vec<Result<(), CallbackError>>) where
        S: Subscriber<P>,

        ensures
            final(outcomes)@.len() == old(outcomes)@.len() + self@.len(),
            final(outcomes)@.subrange(0, old(outcomes)@.len() as int) == old(outcomes)@,
            forall|k: int|
                0 <= k < self@.len() ==> call_ensures(
                    S::notify,
                    (&self@[k], payload),
                    #[trigger] final(outcomes)@[old(outcomes)@.len() + k],
                ),
    {
        let n = self.subscribers.len();
        let mut i: usize = 0;
        while i < n
            invariant
                n == self@.len(),
                i <= n,
                outcomes@.len() == old(outcomes)@.len() + i,
                outcomes@.subrange(0, old(outcomes)@.len() as int) == old(outcomes)@,
                forall|k: int|
                    0 <= k < i ==> call_ensures(
                        S::notify,
                        (&self@[k], payload),
                        #[trigger] outcomes@[old(outcomes)@.len() + k],
                    ),
            decreases n - i,
        {
            let outcome = self.subscribers[i].notify(payload);
            outcomes.push(outcome);
            assert(outcomes@.subrange(0, old(outcomes)@.len() as int) =~= old(outcomes)@);
            i = i + 1;
        }
    }
}

/// How many subscribers a notification goes to: those of its category.
pub open spec fn audience(n: Notification, wheel: nat, button: nat, device: nat) -> nat {
    match n {
        Notification::WheelMoved(_, _) => wheel,
        Notification::ButtonChanged(_) => button,
        Notification::Device(_) => device,
    }
}

/// The deliveries that a sequence of notifications makes, in order: each
/// notification in turn, paired with the index of each subscriber of its
/// category, in registration order.
pub open spec fn delivery_plan(
    ns: Seq<Notification>,
    wheel: nat,
    button: nat,
    device: nat,
) -> Seq<(Notification, int)>
    decreases ns.len(),
{
    if ns.len() == 0 {
        Seq::empty()
    } else {
        delivery_plan(ns.drop_last(), wheel, button, device) + Seq::new(
            audience(ns.last(), wheel, button, device),
            |k: int| (ns.last(), k),
        )
    }
}

/// `outcome` is what the subscriber that `delivery` names returned when it
/// was notified of the payload of that delivery's notification.
pub open spec fn delivered<W, B, D>(
    wheel: Seq<W>,
    button: Seq<B>,
    device: Seq<D>,
    delivery: (Notification, int),
    outcome: Result<(), CallbackError>,
) -> bool where
    W: Subscriber<(Wheel, u8)>,
    B: Subscriber<Button>,
    D: Subscriber<SystemEvent>,
 {
    match delivery.0 {
        Notification::WheelMoved(w, pos) => call_ensures(
            W::notify,
            (&wheel[delivery.1], (w, pos)),
            outcome,
        ),
        Notification::ButtonChanged(b) => call_ensures(
            B::notify,
            (&button[delivery.1], b),
            outcome,
        ),
        Notification::Device(e) => call_ensures(D::notify, (&device[delivery.1], e), outcome),
    }
}

/// Routes each notification, in order, to the registry of its category, and
/// notifies that registry's subscribers in registration order. Returns one
/// outcome per subscriber notified, in the order of the calls; a failure
/// does not stop the calls that follow it.
pub fn dispatch_all<W, B, D>(
    notifications: &Vec<Notification>,
    wheel: &Registry<W>,
    button: &Registry<B>,
    device: &Registry<D>,
) -> (r: Vec<Result<(), CallbackError>>) where
    W: Subscriber<(Wheel, u8)>,
    B: Subscriber<Button>,
    D: Subscriber<SystemEvent>,

    ensures
        r@.len() == delivery_plan(
            notifications@,
            wheel@.len(),
            button@.len(),
            device@.len(),
        ).len(),
        forall|j: int|
            0 <= j < r@.len() ==> delivered(
                wheel@,
                button@,
                device@,
                delivery_plan(notifications@, wheel@.len(), button@.len(), device@.len())[j],
                #[trigger] r@[j],
            ),
{
    let ghost wl = wheel@.len();
    let ghost bl = button@.len();
    let ghost dl = device@.len();
    let mut outcomes: Vec<Result<(), CallbackError>> = Vec::new();
    let mut i: usize = 0;
    while i < notifications.len()
        invariant
            i <= notifications@.len(),
            wl == wheel@.len(),
            bl == button@.len(),
            dl == device@.len(),
            outcomes@.len() == delivery_plan(notifications@.subrange(0, i as int), wl, bl, dl).len(),
            forall|j: int|
                0 <= j < outcomes@.len() ==> delivered(
                    wheel@,
                    button@,
                    device@,
                    delivery_plan(notifications@.subrange(0, i as int), wl, bl, dl)[j],
                    #[trigger] outcomes@[j],
                ),
        decreases notifications@.len() - i,
    {
        let ghost before = outcomes@;
        let ghost prefix = notifications@.subrange(0, i as int);
        let ghost next = notifications@.subrange(0, i + 1);
        let n = notifications[i];
        match n {
            Notification::WheelMoved(w, pos) => wheel.dispatch((w, pos), &mut outcomes),
            Notification::ButtonChanged(b) => button.dispatch(b, &mut outcomes),
            Notification::Device(e) => device.dispatch(e, &mut outcomes),
        }
        proof {
            assert(next.drop_last() =~= prefix);
            assert(next.last() == n);
            let old_plan = delivery_plan(prefix, wl, bl, dl);
            let new_plan = delivery_plan(next, wl, bl, dl);
            assert(new_plan == old_plan + Seq::new(
                audience(n, wl, bl, dl),
                |k: int| (n, k),
            ));
            assert forall|j: int| 0 <= j < outcomes@.len() implies delivered(
                wheel@,
                button@,
                device@,
                new_plan[j],
                #[trigger] outcomes@[j],
            ) by {
                if j < before.len() {
                    assert(outcomes@[j] == outcomes@.subrange(0, before.len() as int)[j]);
                    assert(new_plan[j] == old_plan[j]);
                } else {
                    let k = j - before.len();
                    assert(new_plan[j] == (n, k));
                    assert(outcomes@[before.len() + k] == outcomes@[j]);
                }
            }
        }
        i = i + 1;
    }
    assert(notifications@.subrange(0, notifications@.len() as int) =~= notifications@);
    outcomes
}

} // verus!
