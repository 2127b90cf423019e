use vstd::prelude::*;
use crate::config::GameConfig;
use crate::geometry::UNIT;
use crate::limbs::{Arm, LostLimbs};
use crate::rig::{Rig, Segment, SegmentKind};
use crate::signal::{Sfx, Signal};

verus! {

/// Peak contact force above which a hit on a live arm or torso is heard.
pub const AUDIBLE_FORCE: i64 = UNIT;

/// A contact reported by the physics step: the two colliders, each the rig
/// segment it belongs to if any, and the peak force magnitude.
#[derive(Debug, Clone, Copy, PartialEq, Eq, Structural)]
pub struct ContactForceEvent {
    pub first: Option<SegmentKind>,
    pub second: Option<SegmentKind>,
    pub max_force: i64,
}

/// The arm named by `k`, if `k` names an arm that is live in `rig`.
pub open spec fn spec_live_arm(rig: Rig, k: Option<SegmentKind>) -> Option<Arm> {
    match k {
        Some(SegmentKind::Arm(side)) => if rig.arm_live(side) {
            Some(side)
        } else {
            None
        },
        _ => None,
    }
}

/// The live arm that a contact hits, the first collider tried first.
pub open spec fn spec_arm_hit(rig: Rig, e: ContactForceEvent) -> Option<Arm> {
    match spec_live_arm(rig, e.first) {
        Some(side) => Some(side),
        None => spec_live_arm(rig, e.second),
    }
}

/// Whether a contact hits the torso while it is live.
pub open spec fn spec_torso_hit(rig: Rig, e: ContactForceEvent) -> bool {
    rig.torso.live && (e.first == Some(SegmentKind::Torso) || e.second == Some(
        SegmentKind::Torso,
    ))
}

/// A segment cut loose: its joint is gone and it no longer counts damage.
pub open spec fn spec_cut_loose(s: Segment) -> Segment {
    Segment { joint: None, live: false, ..s }
}

/// `rig` with the arm on `side` cut loose.
pub open spec fn spec_detach_arm(rig: Rig, side: Arm) -> Rig {
    match side {
        Arm::Left => Rig {
            left_arm: match rig.left_arm {
                Some(a) => Some(spec_cut_loose(a)),
                None => None,
            },
            ..rig
        },
        Arm::Right => Rig {
            right_arm: match rig.right_arm {
                Some(a) => Some(spec_cut_loose(a)),
                None => None,
            },
            ..rig
        },
    }
}

/// `lost` with the arm on `side` recorded as lost.
pub open spec fn spec_mark_lost(lost: LostLimbs, side: Arm) -> LostLimbs {
    match side {
        Arm::Left => LostLimbs { left: true, ..lost },
        Arm::Right => LostLimbs { right: true, ..lost },
    }
}

/// The impact sound for a hit of `force`, if it is loud enough.
pub open spec fn spec_impact_sound(force: i64) -> Seq<Signal> {
    if force > AUDIBLE_FORCE {
        seq![Signal::PlaySound(Sfx::Clonk)]
    } else {
        seq![]
    }
}

/// The effect of one contact: a live arm hit harder than the detach force
/// is cut loose and recorded as lost; otherwise a live torso hit harder
/// than the death force stops counting damage and raises a death. Either
/// hit is heard when loud enough. Anything else has no effect.
pub open spec fn spec_damage_step(
    rig: Rig,
    lost: LostLimbs,
    e: ContactForceEvent,
    c: GameConfig,
) -> (Rig, LostLimbs, Seq<Signal>) {
    match spec_arm_hit(rig, e) {
        Some(side) => if e.max_force > c.arms.detach_force {
            (spec_detach_arm(rig, side), spec_mark_lost(lost, side), spec_impact_sound(e.max_force))
        } else {
            (rig, lost, spec_impact_sound(e.max_force))
        },
        None => if spec_torso_hit(rig, e) {
            if e.max_force > c.torso.death_force {
                (
                    Rig { torso: Segment { live: false, ..rig.torso }, ..rig },
                    lost,
                    spec_impact_sound(e.max_force).push(Signal::PlayerDeath),
                )
            } else {
                (rig, lost, spec_impact_sound(e.max_force))
            }
        } else {
            (rig, lost, seq![])
        },
    }
}

/// The effect of a batch of contacts, taken in order; the signals of each
/// follow those of the ones before.
pub open spec fn spec_damage_after(
    rig: Rig,
    lost: LostLimbs,
    events: Seq<ContactForceEvent>,
    c: GameConfig,
) -> (Rig, LostLimbs, Seq<Signal>)
    decreases events.len(),
{
    if events.len() == 0 {
        (rig, lost, seq![])
    } else {
        let before = spec_damage_after(rig, lost, events.drop_last(), c);
        let step = spec_damage_step(before.0, before.1, events.last(), c);
        (step.0, step.1, before.2 + step.2)
    }
}

/// The live arm named by `k`, if any.
fn live_arm(rig: &Rig, k: Option<SegmentKind>) -> (r: Option<Arm>)
    ensures
        r == spec_live_arm(*rig, k),
{
    match k {
        Some(SegmentKind::Arm(side)) => match rig.arm_on(side) {
            Some(a) => if a.live {
                Some(side)
            } else {
                None
            },
            None => None,
        },
        _ => None,
    }
}

/// Cuts the arm on `side` loose, if the rig has one.
fn detach_arm(rig: &mut Rig, side: Arm)
    ensures
        *final(rig) == spec_detach_arm(*old(rig), side),
{
    match side {
        Arm::Left => {
            if let Some(a) = &mut rig.left_arm {
                a.joint = None;
                a.live = false;
            }
        },
        Arm::Right => {
            if let Some(a) = &mut rig.right_arm {
                a.joint = None;
                a.live = false;
            }
        },
    }
}

/// Applies one contact to the rig and the lost limbs, and appends the
/// signals it raises.
pub fn resolve_contact(
    rig: &mut Rig,
    lost: &mut LostLimbs,
    e: &ContactForceEvent,
    c: &GameConfig,
    signals: &mut Vec<Signal>,
)
    ensures
        (*final(rig), *final(lost)) == (
            spec_damage_step(*old(rig), *old(lost), *e, *c).0,
            spec_damage_step(*old(rig), *old(lost), *e, *c).1,
        ),
        final(signals)@ == old(signals)@ + spec_damage_step(*old(rig), *old(lost), *e, *c).2,
{
    let arm = match live_arm(rig, e.first) {
        Some(side) => Some(side),
        None => live_arm(rig, e.second),
    };
    let loud = e.max_force > AUDIBLE_FORCE;
    match arm {
        Some(side) => {
            if loud {
                signals.push(Signal::PlaySound(Sfx::Clonk));
            }
            if e.max_force > c.arms.detach_force {
                detach_arm(rig, side);
                lost.mark_lost(side);
            }
            assert(final(signals)@ =~= old(signals)@ + spec_impact_sound(e.max_force));
        },
        None => {
            let torso_hit = rig.torso.live && (e.first == Some(SegmentKind::Torso) || e.second
                == Some(SegmentKind::Torso));
            if torso_hit {
                if loud {
                    signals.push(Signal::PlaySound(Sfx::Clonk));
                }
                if e.max_force > c.torso.death_force {
                    rig.torso.live = false;
                    signals.push(Signal::PlayerDeath);
                    assert(final(signals)@ =~= old(signals)@ + spec_impact_sound(e.max_force).push(
                        Signal::PlayerDeath,
                    ));
                } else {
                    assert(final(signals)@ =~= old(signals)@ + spec_impact_sound(e.max_force));
                }
            } else {
                assert(final(signals)@ =~= old(signals)@ + seq![]);
            }
        },
    }
}

/// Drains one tick's contacts: arms hit harder than the detach force are
/// cut loose and recorded as lost, a torso hit harder than the death force
/// raises a death; returns the signals raised, in order.
pub fn monitor_damage_contacts(
    rig: &mut Rig,
    lost: &mut LostLimbs,
    events: &Vec<ContactForceEvent>,
    c: &GameConfig,
) -> (signals: Vec<Signal>)
    ensures
        (*final(rig), *final(lost), signals@) == spec_damage_after(
            *old(rig),
            *old(lost),
            events@,
            *c,
        ),
{
    let mut signals: Vec<Signal> = Vec::new();
    let mut i: usize = 0;
    while i < events.len()
        invariant
            0 <= i <= events@.len(),
            (*rig, *lost, signals@) == spec_damage_after(
                *old(rig),
                *old(lost),
                events@.take(i as int),
                *c,
            ),
        decreases events@.len() - i,
    {
        let e = &events[i];
        resolve_contact(rig, lost, e, c, &mut signals);
        proof {
            let next = events@.take(i + 1);
            assert(next.drop_last() =~= events@.take(i as int));
            assert(next.last() == events@[i as int]);
        }
        i += 1;
    }
    assert(events@.take(events@.len() as int) =~= events@);
    signals
}

/// An arm segment that does not count damage keeps its state, and its loss
/// stays recorded, whatever contacts follow.
pub proof fn lemma_inert_arm_unchanged(
    rig: Rig,
    lost: LostLimbs,
    events: Seq<ContactForceEvent>,
    c: GameConfig,
    side: Arm,
)
    requires
        !rig.arm_live(side),
        lost.spec_is_lost(side),
    ensures
        !spec_damage_after(rig, lost, events, c).0.arm_live(side),
        spec_damage_after(rig, lost, events, c).0.spec_arm_on(side) == rig.spec_arm_on(side),
        spec_damage_after(rig, lost, events, c).1.spec_is_lost(side),
    decreases events.len(),
{
    if events.len() > 0 {
        lemma_inert_arm_unchanged(rig, lost, events.drop_last(), c, side);
    }
}

/// A contact that tears an arm off leaves that arm cut loose and recorded
/// as lost, and no later contact can detach it again: it stays exactly as
/// it was left.
pub proof fn lemma_detach_is_final(
    rig: Rig,
    lost: LostLimbs,
    e: ContactForceEvent,
    later: Seq<ContactForceEvent>,
    c: GameConfig,
    side: Arm,
)
    requires
        spec_arm_hit(rig, e) == Some(side),
        e.max_force > c.arms.detach_force,
    ensures
        !spec_damage_step(rig, lost, e, c).0.arm_live(side),
        spec_damage_step(rig, lost, e, c).0.spec_arm_on(side) matches Some(a) && a.joint is None,
        spec_damage_step(rig, lost, e, c).1.spec_is_lost(side),
        ({
            let after = spec_damage_step(rig, lost, e, c);
            spec_damage_after(after.0, after.1, later, c).0.spec_arm_on(side)
                == after.0.spec_arm_on(side)
        }),
{
    let after = spec_damage_step(rig, lost, e, c);
    lemma_inert_arm_unchanged(after.0, after.1, later, c, side);
}

/// Number of death signals in `s`.
pub open spec fn death_count(s: Seq<Signal>) -> nat
    decreases s.len(),
{
    if s.len() == 0 {
        0
    } else {
        death_count(s.drop_last()) + if s.last() == Signal::PlayerDeath {
            1nat
        } else {
            0nat
        }
    }
}

/// Death signals of two runs of signals add up.
pub proof fn lemma_death_count_add(a: Seq<Signal>, b: Seq<Signal>)
    ensures
        death_count(a + b) == death_count(a) + death_count(b),
    decreases b.len(),
{
    if b.len() > 0 {
        lemma_death_count_add(a, b.drop_last());
        assert((a + b).drop_last() =~= a + b.drop_last());
    } else {
        assert(a + b =~= a);
    }
}

/// One contact raises a death exactly when it kills a live torso, and a
/// dead torso stays dead.
pub proof fn lemma_step_death(rig: Rig, lost: LostLimbs, e: ContactForceEvent, c: GameConfig)
    ensures
        death_count(spec_damage_step(rig, lost, e, c).2) == if rig.torso.live
            && !spec_damage_step(rig, lost, e, c).0.torso.live {
            1nat
        } else {
            0nat
        },
        !rig.torso.live ==> !spec_damage_step(rig, lost, e, c).0.torso.live,
{
    reveal_with_fuel(death_count, 3);
    let sound = spec_impact_sound(e.max_force);
    assert(death_count(sound) == 0);
    assert(sound.push(Signal::PlayerDeath).drop_last() =~= sound);
}

/// A batch of contacts raises one death signal if it kills the torso and
/// none otherwise: a death is never raised twice.
pub proof fn lemma_death_raised_once(
    rig: Rig,
    lost: LostLimbs,
    events: Seq<ContactForceEvent>,
    c: GameConfig,
)
    ensures
        death_count(spec_damage_after(rig, lost, events, c).2) == if rig.torso.live
            && !spec_damage_after(rig, lost, events, c).0.torso.live {
            1nat
        } else {
            0nat
        },
        !rig.torso.live ==> !spec_damage_after(rig, lost, events, c).0.torso.live,
    decreases events.len(),
{
    reveal_with_fuel(death_count, 1);
    if events.len() > 0 {
        lemma_death_raised_once(rig, lost, events.drop_last(), c);
        let before = spec_damage_after(rig, lost, events.drop_last(), c);
        lemma_step_death(before.0, before.1, events.last(), c);
        lemma_death_count_add(before.2, spec_damage_step(before.0, before.1, events.last(), c).2);
    }
}

/// A run of signals that holds a death signal counts at least one.
pub proof fn lemma_death_counted(s: Seq<Signal>)
    requires
        s.contains(Signal::PlayerDeath),
    ensures
        death_count(s) >= 1,
    decreases s.len(),
{
    let i = choose|i: int| 0 <= i < s.len() && s[i] == Signal::PlayerDeath;
    if i < s.len() - 1 {
        assert(s.drop_last()[i] == Signal::PlayerDeath);
        lemma_death_counted(s.drop_last());
    }
}

/// `rig` after a death: every joint released and nothing counts damage;
/// the head stops following the torso.
pub open spec fn spec_wreck(rig: Rig) -> Rig {
    Rig {
        origin: rig.origin,
        wheel: spec_cut_loose(rig.wheel),
        tube: spec_cut_loose(rig.tube),
        torso: spec_cut_loose(rig.torso),
        head: spec_cut_loose(rig.head),
        left_arm: match rig.left_arm {
            Some(a) => Some(spec_cut_loose(a)),
            None => None,
        },
        right_arm: match rig.right_arm {
            Some(a) => Some(spec_cut_loose(a)),
            None => None,
        },
        head_attached: false,
    }
}

/// A contact that names a live arm, as the first collider or as the second
/// when the first is no live arm, with a force above the detach force cuts
/// that arm loose: it stays in the rig as debris, without joint and no
/// longer live, its side is recorded as lost, and the other side's arm and
/// flag are kept.
pub proof fn lemma_arm_detach_effect(
    rig: Rig,
    lost: LostLimbs,
    e: ContactForceEvent,
    c: GameConfig,
    side: Arm,
)
    requires
        rig.arm_live(side),
        e.first == Some(SegmentKind::Arm(side)) || (e.second == Some(SegmentKind::Arm(side))
            && spec_live_arm(rig, e.first) is None),
        e.max_force > c.arms.detach_force,
    ensures
        ({
            let after = spec_damage_step(rig, lost, e, c);
            &&& after.0.spec_arm_on(side) == Some(spec_cut_loose(rig.spec_arm_on(side).unwrap()))
            &&& !after.0.arm_live(side)
            &&& after.0.spec_arm_on(side).unwrap().joint is None
            &&& after.1.spec_is_lost(side)
            &&& (side == Arm::Left ==> after.1.right == lost.right && after.0.right_arm
                == rig.right_arm)
            &&& (side == Arm::Right ==> after.1.left == lost.left && after.0.left_arm
                == rig.left_arm)
            &&& after.0.torso == rig.torso
        }),
{
}

/// A contact that names an arm already cut loose, while the other collider
/// is neither a live arm nor the live torso, has no effect at all: nothing
/// changes and no signal is raised.
pub proof fn lemma_detached_arm_event_ignored(
    rig: Rig,
    lost: LostLimbs,
    e: ContactForceEvent,
    c: GameConfig,
    side: Arm,
)
    requires
        !rig.arm_live(side),
        (e.first == Some(SegmentKind::Arm(side)) && spec_live_arm(rig, e.second) is None && (
        !rig.torso.live || e.second != Some(SegmentKind::Torso))) || (e.second == Some(
            SegmentKind::Arm(side),
        ) && spec_live_arm(rig, e.first) is None && (!rig.torso.live || e.first != Some(
            SegmentKind::Torso,
        ))),
    ensures
        spec_damage_step(rig, lost, e, c) == (rig, lost, Seq::<Signal>::empty()),
{
}

/// Once the torso is dead and no arm is live, as after a death, no batch of
/// contacts changes anything or raises any signal: no second death and no
/// impact sound.
pub proof fn lemma_dead_rig_silent(
    rig: Rig,
    lost: LostLimbs,
    events: Seq<ContactForceEvent>,
    c: GameConfig,
)
    requires
        !rig.torso.live,
        !rig.arm_live(Arm::Left),
        !rig.arm_live(Arm::Right),
    ensures
        spec_damage_after(rig, lost, events, c) == (rig, lost, Seq::<Signal>::empty()),
    decreases events.len(),
{
    if events.len() > 0 {
        lemma_dead_rig_silent(rig, lost, events.drop_last(), c);
        assert(Seq::<Signal>::empty() + Seq::<Signal>::empty() =~= Seq::<Signal>::empty());
    }
}

/// A wrecked rig has a dead torso and no live arm.
pub proof fn lemma_wreck_is_dead(rig: Rig)
    ensures
        !spec_wreck(rig).torso.live,
        !spec_wreck(rig).arm_live(Arm::Left),
        !spec_wreck(rig).arm_live(Arm::Right),
{
}

/// Turns the rig into loose debris after a death.
pub fn wreck(rig: &mut Rig)
    ensures
        *final(rig) == spec_wreck(*old(rig)),
{
    rig.wheel.joint = None;
    rig.wheel.live = false;
    rig.tube.joint = None;
    rig.tube.live = false;
    rig.torso.joint = None;
    rig.torso.live = false;
    rig.head.joint = None;
    rig.head.live = false;
    detach_arm(rig, Arm::Left);
    detach_arm(rig, Arm::Right);
    rig.head_attached = false;
}

} // verus!
