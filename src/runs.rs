//! What a sequence of reports raises, and the edge detection of buttons over
//! such a sequence.

use vstd::prelude::*;
use crate::decode::{angular_of, back_of, button_code_of, button_of_code, front_of};
use crate::state::{
    button_notifications, cycle_notifications, next_state, wheel_notifications, ControllerState,
    Notification, SystemEventPolicy,
};

verus! {

/// All notifications raised when `reports` are handled in order from state `s`.
pub open spec fn notifications_over(
    s: ControllerState,
    reports: Seq<[u8; 6]>,
    policy: SystemEventPolicy,
) -> Seq<Notification>
    decreases reports.len(),
{
    if reports.len() == 0 {
        Seq::empty()
    } else {
        cycle_notifications(s, reports[0], policy) + notifications_over(
            next_state(reports[0]),
            reports.drop_first(),
            policy,
        )
    }
}

/// How many button notifications a sequence of notifications holds.
pub open spec fn button_change_count(ns: Seq<Notification>) -> nat
    decreases ns.len(),
{
    if ns.len() == 0 {
        0
    } else {
        (if ns[0] is ButtonChanged {
            1nat
        } else {
            0nat
        }) + button_change_count(ns.drop_first())
    }
}

proof fn lemma_count_concat(a: Seq<Notification>, b: Seq<Notification>)
    ensures
        button_change_count(a + b) == button_change_count(a) + button_change_count(b),
    decreases a.len(),
{
    if a.len() == 0 {
        assert(a + b =~= b);
    } else {
        assert((a + b).drop_first() =~= a.drop_first() + b);
        lemma_count_concat(a.drop_first(), b);
    }
}

proof fn lemma_count_single(n: Notification)
    ensures
        button_change_count(seq![n]) == (if n is ButtonChanged {
            1nat
        } else {
            0nat
        }),
{
    let one = seq![n];
    assert(one.drop_first() =~= Seq::<Notification>::empty());
    assert(button_change_count(one.drop_first()) == 0);
    assert(one[0] == n);
}

/// One cycle raises a button notification exactly when the decoded button
/// differs from the one dispatched last, and never more than one.
proof fn lemma_cycle_count(s: ControllerState, event: [u8; 6], policy: SystemEventPolicy)
    ensures
        button_change_count(cycle_notifications(s, event, policy)) == (if button_of_code(
            button_code_of(event),
        ) != s.last_button {
            1nat
        } else {
            0nat
        }),
{
    let w = wheel_notifications(s, event);
    let b = button_notifications(s, event);
    if w.len() > 0 {
        lemma_count_single(w[0]);
        assert(w =~= seq![w[0]]);
    } else {
        assert(w =~= Seq::<Notification>::empty());
    }
    if b.len() > 0 {
        lemma_count_single(b[0]);
        assert(b =~= seq![b[0]]);
    } else {
        assert(b =~= Seq::<Notification>::empty());
    }
    lemma_count_concat(w, b);
    let changes = w + b;
    if policy == SystemEventPolicy::EveryRead || changes.len() > 0 {
        let d = Notification::Device(crate::state::system_event_of(s, event));
        lemma_count_single(d);
        assert(changes.push(d) =~= changes + seq![d]);
        lemma_count_concat(changes, seq![d]);
    }
}

/// Splits a run after its first report: the button notifications of the run
/// are those of its first cycle and those of the rest, and the rest starts
/// from the state that the first report left.
proof fn lemma_count_first(s: ControllerState, reports: Seq<[u8; 6]>, policy: SystemEventPolicy)
    requires
        reports.len() > 0,
    ensures
        button_change_count(notifications_over(s, reports, policy)) == (if button_of_code(
            button_code_of(reports[0]),
        ) != s.last_button {
            1nat
        } else {
            0nat
        }) + button_change_count(
            notifications_over(next_state(reports[0]), reports.drop_first(), policy),
        ),
        forall|i: int|
            0 <= i < reports.drop_first().len() ==> #[trigger] reports.drop_first()[i] == reports[i
                + 1],
{
    let r0 = reports[0];
    lemma_cycle_count(s, r0, policy);
    lemma_count_concat(
        cycle_notifications(s, r0, policy),
        notifications_over(next_state(r0), reports.drop_first(), policy),
    );
}

proof fn lemma_held_button_is_quiet(
    s: ControllerState,
    reports: Seq<[u8; 6]>,
    policy: SystemEventPolicy,
)
    requires
        forall|i: int|
            0 <= i < reports.len() ==> button_of_code(button_code_of(#[trigger] reports[i]))
                == s.last_button,
    ensures
        button_change_count(notifications_over(s, reports, policy)) == 0,
    decreases reports.len(),
{
    if reports.len() > 0 {
        lemma_count_first(s, reports, policy);
        lemma_held_button_is_quiet(next_state(reports[0]), reports.drop_first(), policy);
    }
}

/// Holding one button code over any number of consecutive reports raises at
/// most one button notification: one exactly when that button differs from
/// the one dispatched before the first of them.
pub proof fn held_button_fires_at_most_once(
    s: ControllerState,
    reports: Seq<[u8; 6]>,
    policy: SystemEventPolicy,
    code: u8,
)
    requires
        forall|i: int| 0 <= i < reports.len() ==> button_code_of(#[trigger] reports[i]) == code,
    ensures
        button_change_count(notifications_over(s, reports, policy)) <= 1,
        reports.len() > 0 ==> button_change_count(notifications_over(s, reports, policy)) == (
        if button_of_code(code) != s.last_button {
            1nat
        } else {
            0nat
        }),
{
    if reports.len() > 0 {
        lemma_count_first(s, reports, policy);
        lemma_held_button_is_quiet(next_state(reports[0]), reports.drop_first(), policy);
    }
}

/// A report on which no wheel moved (front and back at rest, angular where it
/// was) raises no wheel notification, whatever the policy.
pub proof fn still_wheels_raise_no_wheel_event(
    s: ControllerState,
    event: [u8; 6],
    policy: SystemEventPolicy,
)
    requires
        front_of(event) == 0,
        angular_of(event) == angular_of(s.last_report),
        back_of(event) == 0,
    ensures
        forall|i: int|
            0 <= i < cycle_notifications(s, event, policy).len() ==> !(#[trigger] cycle_notifications(
                s,
                event,
                policy,
            )[i] is WheelMoved),
{
    assert(wheel_notifications(s, event) =~= Seq::<Notification>::empty());
}

} // verus!
