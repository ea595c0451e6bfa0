//! Attack resolution: range, cooldown, damage and death.

use vstd::prelude::*;
use crate::event::queue::{drain, drained, ATTACK_DRAIN};
use crate::event::types::AttackEvent;
use crate::models::attributes::{ComputedAttributes, Health};
use crate::spatial::{in_attack_range, within_attack_range, Position};
use crate::utils::{capsule_radius, get_capsule_radius, Collider};
use crate::world::{Combatant, Entity, World};

verus! {

/// Nanoseconds in one thousandth of a second.
pub const NANOS_PER_MILLI: u64 = 1_000_000;

/// The pause a combatant has to keep between two hits, counted down in
/// nanoseconds of simulated time. A timer with nothing remaining is ready.
#[derive(Clone, Copy, Debug, PartialEq, Eq, Structural)]
pub struct AttackRateTimer {
    /// The full pause, to which a hit rearms the timer.
    pub duration: u64,
    /// What is left of the current pause.
    pub remaining: u64,
}

impl AttackRateTimer {
    /// What remains is never more than the full pause.
    pub open spec fn wf(&self) -> bool {
        self.remaining <= self.duration
    }

    /// Neither the passing of time nor a hit lets more remain than the full
    /// pause.
    pub proof fn lemma_wf_is_kept(self, delta: u64)
        requires
            self.wf(),
        ensures
            self.ticked(delta).wf(),
            self.rearmed().wf(),
    {
    }

    /// Whether the pause is over, so that the next attack in range lands.
    pub open spec fn is_ready(&self) -> bool {
        self.remaining == 0
    }

    /// The timer after `delta` nanoseconds have passed.
    pub open spec fn ticked(&self, delta: u64) -> AttackRateTimer {
        AttackRateTimer {
            duration: self.duration,
            remaining: if self.remaining > delta {
                (self.remaining - delta) as u64
            } else {
                0
            },
        }
    }

    /// The timer after a hit: the whole pause lies ahead again.
    pub open spec fn rearmed(&self) -> AttackRateTimer {
        AttackRateTimer { duration: self.duration, remaining: self.duration }
    }

    /// A timer for a pause of `attack_rate` thousandths of a second. It starts
    /// ready, so that the first attack is not held back.
    pub fn new(attack_rate: u32) -> (r: Self)
        ensures
            r.duration == attack_rate * NANOS_PER_MILLI,
            r.remaining == 0,
            r.is_ready(),
            r.wf(),
    {
        AttackRateTimer { duration: attack_rate as u64 * NANOS_PER_MILLI, remaining: 0 }
    }

    /// Lets `delta` nanoseconds pass. The countdown stops at zero.
    pub fn tick(&mut self, delta: u64)
        ensures
            *final(self) == old(self).ticked(delta),
    {
        if self.remaining > delta {
            self.remaining = self.remaining - delta;
        } else {
            self.remaining = 0;
        }
    }

    /// Whether the pause is over.
    pub fn finished(&self) -> (r: bool)
        ensures
            r == self.is_ready(),
    {
        self.remaining == 0
    }

    /// Starts the whole pause again.
    pub fn reset(&mut self)
        ensures
            *final(self) == old(self).rearmed(),
    {
        self.remaining = self.duration;
    }
}

/// What became of one attempt to attack.
#[derive(Clone, Copy, Debug, PartialEq, Eq, Structural)]
pub enum AttackOutcome {
    /// One of the two is gone, lacks a component that combat needs, or has a
    /// collider without a capsule radius. Nothing happened.
    Unresolved,
    /// The target is too far away. Nothing happened.
    OutOfRange,
    /// The attacker's pause is not over. The attempt is lost, not queued.
    CoolingDown,
    /// The hit landed and the target lives on with `remaining_hp`.
    Hit { remaining_hp: i64 },
    /// The hit landed and brought the target to `remaining_hp`, zero or less.
    Killed { remaining_hp: i64 },
}

/// Health after a hit of `amount`: plain subtraction, held at the lowest value
/// an `i64` has.
pub open spec fn hp_after_damage(hp: i64, amount: u32) -> i64 {
    if hp - amount < i64::MIN {
        i64::MIN
    } else {
        (hp - amount) as i64
    }
}

/// The stats after a hit of `amount`; only the current health changes.
pub open spec fn damaged(stats: ComputedAttributes, amount: u32) -> ComputedAttributes {
    ComputedAttributes {
        health: Health { hp: hp_after_damage(stats.health.hp, amount), ..stats.health },
        ..stats
    }
}

/// Whether `c` has everything that combat reads: a capsule collider, stats and
/// an attack timer.
pub open spec fn can_fight(c: Combatant) -> bool {
    &&& c.collider is Some
    &&& capsule_radius(c.collider->0) is Some
    &&& c.comp_attribs is Some
    &&& c.attack_timer is Some
}

/// The range rule applied to two colliders: false where one of them has no
/// capsule radius.
pub open spec fn colliders_in_attack_range(
    atkr_pos: Position,
    atkr_collider: Collider,
    atkr_range: u32,
    tgt_pos: Position,
    tgt_collider: Collider,
) -> bool {
    &&& capsule_radius(atkr_collider) is Some
    &&& capsule_radius(tgt_collider) is Some
    &&& within_attack_range(
        atkr_pos,
        capsule_radius(atkr_collider)->0,
        tgt_pos,
        capsule_radius(tgt_collider)->0,
        atkr_range,
    )
}

/// What an attack of `attacker` on `target` comes to: the range is checked
/// first, then the cooldown, then the damage is the attacker's attack stat,
/// with no mitigation.
pub open spec fn attack_outcome(attacker: Combatant, target: Combatant) -> AttackOutcome {
    if !can_fight(attacker) || !can_fight(target) {
        AttackOutcome::Unresolved
    } else if !colliders_in_attack_range(
        attacker.position,
        attacker.collider->0,
        attacker.comp_attribs->0.attack_range,
        target.position,
        target.collider->0,
    ) {
        AttackOutcome::OutOfRange
    } else if !attacker.attack_timer->0.is_ready() {
        AttackOutcome::CoolingDown
    } else {
        let hp = hp_after_damage(target.comp_attribs->0.health.hp, attacker.comp_attribs->0.attack);
        if hp <= 0 {
            AttackOutcome::Killed { remaining_hp: hp }
        } else {
            AttackOutcome::Hit { remaining_hp: hp }
        }
    }
}

/// `c` with its current health set to `hp`.
pub open spec fn with_hp(c: Combatant, hp: i64) -> Combatant {
    match c.comp_attribs {
        Some(stats) => Combatant {
            comp_attribs: Some(
                ComputedAttributes { health: Health { hp, ..stats.health }, ..stats },
            ),
            ..c
        },
        None => c,
    }
}

/// `c` with its attack timer rearmed to the full pause.
pub open spec fn with_rearmed_timer(c: Combatant) -> Combatant {
    match c.attack_timer {
        Some(timer) => Combatant { attack_timer: Some(timer.rearmed()), ..c },
        None => c,
    }
}

/// `c` after `delta` nanoseconds have passed on its attack timer.
pub open spec fn with_ticked_timer(c: Combatant, delta: u64) -> Combatant {
    match c.attack_timer {
        Some(timer) => Combatant { attack_timer: Some(timer.ticked(delta)), ..c },
        None => c,
    }
}

/// What one attack signal comes to in the world `m`: a signal that names a
/// missing entity, or one entity twice, is unresolved.
pub open spec fn attack_report(m: Map<Entity, Combatant>, ev: AttackEvent) -> AttackOutcome {
    if ev.attacker == ev.target || !m.contains_key(ev.attacker) || !m.contains_key(ev.target) {
        AttackOutcome::Unresolved
    } else {
        attack_outcome(m[ev.attacker], m[ev.target])
    }
}

/// The world after one attack signal. A hit lowers the target's health and
/// rearms the attacker; a kill removes the target and leaves the attacker as it
/// was; anything else leaves the world as it was.
pub open spec fn attack_applied(m: Map<Entity, Combatant>, ev: AttackEvent) -> Map<
    Entity,
    Combatant,
> {
    match attack_report(m, ev) {
        AttackOutcome::Hit { remaining_hp } => m.insert(
            ev.target,
            with_hp(m[ev.target], remaining_hp),
        ).insert(ev.attacker, with_rearmed_timer(m[ev.attacker])),
        AttackOutcome::Killed { .. } => m.remove(ev.target),
        _ => m,
    }
}

/// The world after the attack signals `evs`, taken oldest first.
pub open spec fn attacks_applied(m: Map<Entity, Combatant>, evs: Seq<AttackEvent>) -> Map<
    Entity,
    Combatant,
>
    decreases evs.len(),
{
    if evs.len() == 0 {
        m
    } else {
        attack_applied(attacks_applied(m, evs.drop_last()), evs.last())
    }
}

/// What each of the attack signals `evs` comes to, each in the world that the
/// signals before it have left.
pub open spec fn attack_reports(m: Map<Entity, Combatant>, evs: Seq<AttackEvent>) -> Seq<
    AttackOutcome,
>
    decreases evs.len(),
{
    if evs.len() == 0 {
        Seq::empty()
    } else {
        attack_reports(m, evs.drop_last()).push(
            attack_report(attacks_applied(m, evs.drop_last()), evs.last()),
        )
    }
}

/// Whether the attacker at `atkr_tfm` reaches the target at `tgt_tfm`. Without
/// a capsule radius on both sides the answer is no.
pub fn is_in_attack_range(
    atkr_tfm: &Position,
    atkr_collider: &Collider,
    atkr_range: u32,
    tgt_tfm: &Position,
    tgt_collider: &Collider,
) -> (r: bool)
    ensures
        r == colliders_in_attack_range(
            *atkr_tfm,
            *atkr_collider,
            atkr_range,
            *tgt_tfm,
            *tgt_collider,
        ),
{
    let atkr_radius: u32 = match get_capsule_radius(atkr_collider) {
        Some(radius) => radius,
        None => {
            return false;
        },
    };
    let tgt_radius: u32 = match get_capsule_radius(tgt_collider) {
        Some(radius) => radius,
        None => {
            return false;
        },
    };
    in_attack_range(*atkr_tfm, atkr_radius, *tgt_tfm, tgt_radius, atkr_range)
}

/// Takes `amount` from the target's health and says whether that brought it
/// to zero or below.
pub fn apply_damage(target: &mut ComputedAttributes, amount: u32) -> (died: bool)
    ensures
        *final(target) == damaged(*old(target), amount),
        died == (final(target).health.hp <= 0),
{
    let hp: i64 = target.health.hp;
    if hp < i64::MIN + amount as i64 {
        target.health.hp = i64::MIN;
    } else {
        target.health.hp = hp - amount as i64;
    }
    target.health.hp <= 0
}

/// Decides one attack of `attacker` on `target` without changing either.
pub fn resolve_attack(attacker: &Combatant, target: &Combatant) -> (r: AttackOutcome)
    ensures
        r == attack_outcome(*attacker, *target),
{
    let (atkr_collider, atkr_stats, atkr_timer) = match (
        attacker.collider,
        attacker.comp_attribs,
        attacker.attack_timer,
    ) {
        (Some(collider), Some(stats), Some(timer)) => (collider, stats, timer),
        _ => {
            return AttackOutcome::Unresolved;
        },
    };
    let (tgt_collider, mut tgt_stats) = match (
        target.collider,
        target.comp_attribs,
        target.attack_timer,
    ) {
        (Some(collider), Some(stats), Some(_)) => (collider, stats),
        _ => {
            return AttackOutcome::Unresolved;
        },
    };
    if get_capsule_radius(&atkr_collider).is_none() || get_capsule_radius(&tgt_collider).is_none() {
        return AttackOutcome::Unresolved;
    }
    if !is_in_attack_range(
        &attacker.position,
        &atkr_collider,
        atkr_stats.attack_range,
        &target.position,
        &tgt_collider,
    ) {
        return AttackOutcome::OutOfRange;
    }
    if !atkr_timer.finished() {
        return AttackOutcome::CoolingDown;
    }
    let died = apply_damage(&mut tgt_stats, atkr_stats.attack);
    if died {
        AttackOutcome::Killed { remaining_hp: tgt_stats.health.hp }
    } else {
        AttackOutcome::Hit { remaining_hp: tgt_stats.health.hp }
    }
}

/// Resolves one attack signal against the world.
pub fn apply_attack(world: &mut World, ev: AttackEvent) -> (r: AttackOutcome)
    ensures
        r == attack_report(old(world)@, ev),
        final(world)@ == attack_applied(old(world)@, ev),
        final(world).slot_count() == old(world).slot_count(),
        forall|x: Entity| old(world).retired(x) ==> final(world).retired(x),
        forall|x: Entity|
            old(world)@.contains_key(x) && !final(world)@.contains_key(x) ==> final(world).retired(
                x,
            ),
        forall|x: Entity| final(world)@.contains_key(x) ==> old(world)@.contains_key(x),
{
    if ev.attacker == ev.target {
        return AttackOutcome::Unresolved;
    }
    let attacker: Combatant = match world.get(ev.attacker) {
        Some(c) => c,
        None => {
            return AttackOutcome::Unresolved;
        },
    };
    let target: Combatant = match world.get(ev.target) {
        Some(c) => c,
        None => {
            return AttackOutcome::Unresolved;
        },
    };
    let outcome = resolve_attack(&attacker, &target);
    match outcome {
        AttackOutcome::Hit { remaining_hp } => {
            let hurt = set_hp(target, remaining_hp);
            world.replace(ev.target, hurt);
            let rearmed = rearm_timer(attacker);
            world.replace(ev.attacker, rearmed);
        },
        AttackOutcome::Killed { .. } => {
            world.despawn(ev.target);
        },
        _ => {},
    }
    outcome
}

fn set_hp(c: Combatant, hp: i64) -> (r: Combatant)
    ensures
        r == with_hp(c, hp),
{
    match c.comp_attribs {
        Some(stats) => Combatant {
            comp_attribs: Some(
                ComputedAttributes {
                    health: Health { hp, max_hp: stats.health.max_hp },
                    ..stats
                },
            ),
            ..c
        },
        None => c,
    }
}

fn rearm_timer(c: Combatant) -> (r: Combatant)
    ensures
        r == with_rearmed_timer(c),
{
    match c.attack_timer {
        Some(timer) => {
            let mut timer = timer;
            timer.reset();
            Combatant { attack_timer: Some(timer), ..c }
        },
        None => c,
    }
}

fn tick_timer(c: Combatant, delta: u64) -> (r: Combatant)
    ensures
        r == with_ticked_timer(c, delta),
{
    match c.attack_timer {
        Some(timer) => {
            let mut timer = timer;
            timer.tick(delta);
            Combatant { attack_timer: Some(timer), ..c }
        },
        None => c,
    }
}

/// Resolves every attack signal of the tick, oldest first, and reports what
/// each came to. A target that dies is removed at once, so a later signal of
/// the same tick that names it is unresolved.
pub fn handle_attack_event(events: &Vec<AttackEvent>, world: &mut World) -> (reports: Vec<
    AttackOutcome,
>)
    ensures
        drained(events@, ATTACK_DRAIN) == events@,
        final(world)@ == attacks_applied(old(world)@, events@),
        reports@ == attack_reports(old(world)@, events@),
        final(world).slot_count() == old(world).slot_count(),
        forall|x: Entity| old(world).retired(x) ==> final(world).retired(x),
        forall|x: Entity|
            old(world)@.contains_key(x) && !final(world)@.contains_key(x) ==> final(world).retired(
                x,
            ),
        forall|x: Entity| final(world)@.contains_key(x) ==> old(world)@.contains_key(x),
{
    let mut reports: Vec<AttackOutcome> = Vec::new();
    let events = drain(events, ATTACK_DRAIN);
    let mut i: usize = 0;
    proof {
        assert(events@.take(0) =~= Seq::<AttackEvent>::empty());
    }
    while i < events.len()
        invariant
            i <= events.len(),
            world@ == attacks_applied(old(world)@, events@.take(i as int)),
            reports@ == attack_reports(old(world)@, events@.take(i as int)),
            world.slot_count() == old(world).slot_count(),
            forall|x: Entity| old(world).retired(x) ==> world.retired(x),
            forall|x: Entity|
                old(world)@.contains_key(x) && !world@.contains_key(x) ==> world.retired(x),
            forall|x: Entity| world@.contains_key(x) ==> old(world)@.contains_key(x),
        decreases events.len() - i,
    {
        let outcome = apply_attack(world, events[i]);
        reports.push(outcome);
        proof {
            let next = events@.take(i + 1);
            assert(next.drop_last() =~= events@.take(i as int));
            assert(next.last() == events@[i as int]);
        }
        i = i + 1;
    }
    proof {
        assert(events@.take(events.len() as int) =~= events@);
    }
    reports
}

/// Lets `delta` nanoseconds pass on every attack timer in the world, whether or
/// not its owner is attacking or in range of anyone.
pub fn tick_attack_timers(world: &mut World, delta: u64)
    ensures
        final(world)@ == old(world)@.map_values(|c: Combatant| with_ticked_timer(c, delta)),
        final(world).slot_count() == old(world).slot_count(),
        final(world).entity_seq() == old(world).entity_seq(),
        forall|x: Entity| final(world).retired(x) == old(world).retired(x),
{
    let entities = world.entities();
    let mut i: usize = 0;
    proof {
        world.lemma_entity_seq();
    }
    while i < entities.len()
        invariant
            i <= entities.len(),
            entities@ == old(world).entity_seq(),
            world.entity_seq() == old(world).entity_seq(),
            world.slot_count() == old(world).slot_count(),
            forall|x: Entity| world.retired(x) == old(world).retired(x),
            forall|x: Entity| world@.contains_key(x) == old(world)@.contains_key(x),
            forall|x: Entity| #[trigger] entities@.contains(x) <==> old(world)@.contains_key(x),
            forall|a: int, b: int|
                0 <= a < b < entities@.len() ==> (#[trigger] entities@[a]).index < (
                #[trigger] entities@[b]).index,
            forall|k: int|
                0 <= k < i ==> world@[#[trigger] entities@[k]] == with_ticked_timer(
                    old(world)@[entities@[k]],
                    delta,
                ),
            forall|k: int|
                i <= k < entities@.len() ==> world@[#[trigger] entities@[k]] == old(
                    world,
                )@[entities@[k]],
        decreases entities.len() - i,
    {
        let e = entities[i];
        assert(entities@.contains(e));
        let record = world.get(e);
        match record {
            Some(c) => {
                let ticked = tick_timer(c, delta);
                world.replace(e, ticked);
            },
            None => {},
        }
        i = i + 1;
    }
    proof {
        let target = old(world)@.map_values(|c: Combatant| with_ticked_timer(c, delta));
        assert forall|x: Entity| world@.contains_key(x) implies #[trigger] world@[x] == target[x] by {
            assert(entities@.contains(x));
            let k = choose|k: int| 0 <= k < entities@.len() && entities@[k] == x;
            assert(world@[entities@[k]] == with_ticked_timer(old(world)@[entities@[k]], delta));
        }
        assert(world@ =~= target);
    }
}

/// The simulated time that the ticks `deltas` add up to.
pub open spec fn total_time(deltas: Seq<u64>) -> int
    decreases deltas.len(),
{
    if deltas.len() == 0 {
        0
    } else {
        total_time(deltas.drop_last()) + deltas.last()
    }
}

/// The timer after the ticks `deltas`, in their order.
pub open spec fn ticked_through(timer: AttackRateTimer, deltas: Seq<u64>) -> AttackRateTimer
    decreases deltas.len(),
{
    if deltas.len() == 0 {
        timer
    } else {
        ticked_through(timer, deltas.drop_last()).ticked(deltas.last())
    }
}

/// However a span of time is cut into ticks, a timer counts down by the span:
/// what remains is what remained before less the total, and never below zero.
pub proof fn lemma_ticks_add_up(timer: AttackRateTimer, deltas: Seq<u64>)
    ensures
        total_time(deltas) >= 0,
        ticked_through(timer, deltas).duration == timer.duration,
        ticked_through(timer, deltas).remaining == (if timer.remaining > total_time(deltas) {
            timer.remaining - total_time(deltas)
        } else {
            0
        }),
    decreases deltas.len(),
{
    if deltas.len() > 0 {
        lemma_ticks_add_up(timer, deltas.drop_last());
    }
}

/// A rearmed timer is ready again exactly when the ticks since the hit add up
/// to the full pause, however many ticks that takes.
pub proof fn lemma_rearmed_timer_ready_after_pause(timer: AttackRateTimer, deltas: Seq<u64>)
    ensures
        ticked_through(timer.rearmed(), deltas).is_ready() <==> total_time(deltas)
            >= timer.duration,
{
    lemma_ticks_add_up(timer.rearmed(), deltas);
}

/// A combatant whose timer is not ready lands no hit, on whatever target.
pub proof fn lemma_unready_attacker_never_hits(attacker: Combatant, target: Combatant)
    requires
        attacker.attack_timer is Some ==> !attacker.attack_timer->0.is_ready(),
    ensures
        !(attack_outcome(attacker, target) is Hit),
        !(attack_outcome(attacker, target) is Killed),
{
}

/// The cooldown law. After a hit that the target survived, the attacker lands
/// no further hit on any target while the ticks since then add up to less than
/// its pause. `later` is the attacker at any later moment: whatever else has
/// changed about it, its timer has gone through the ticks `deltas`.
pub proof fn lemma_cooldown_after_hit(
    m: Map<Entity, Combatant>,
    ev: AttackEvent,
    deltas: Seq<u64>,
    later: Combatant,
    next_target: Combatant,
)
    requires
        attack_report(m, ev) is Hit,
        total_time(deltas) < m[ev.attacker].attack_timer->0.duration,
        later.attack_timer == Some(
            ticked_through(attack_applied(m, ev)[ev.attacker].attack_timer->0, deltas),
        ),
    ensures
        attack_applied(m, ev)[ev.attacker].attack_timer == Some(
            m[ev.attacker].attack_timer->0.rearmed(),
        ),
        !(attack_outcome(later, next_target) is Hit),
        !(attack_outcome(later, next_target) is Killed),
{
    lemma_rearmed_timer_ready_after_pause(m[ev.attacker].attack_timer->0, deltas);
}

/// A target that survives a hit keeps its health within its pool: above zero
/// and no more than before.
pub proof fn lemma_survivor_within_bounds(attacker: Combatant, target: Combatant)
    requires
        attack_outcome(attacker, target) is Hit,
        target.comp_attribs->0.health.within_bounds(),
    ensures
        0 < attack_outcome(attacker, target)->Hit_remaining_hp <= target.comp_attribs->0.health.hp,
        with_hp(
            target,
            attack_outcome(attacker, target)->Hit_remaining_hp,
        ).comp_attribs->0.health.within_bounds(),
        attack_outcome(attacker, target)->Hit_remaining_hp == target.comp_attribs->0.health.hp
            - attacker.comp_attribs->0.attack,
{
}

/// Whether the health of `c`, if it has any, lies within its pool.
pub open spec fn health_within_bounds(c: Combatant) -> bool {
    c.comp_attribs is Some ==> c.comp_attribs->0.health.within_bounds()
}

/// Resolving attacks keeps every health pool within its bounds: who is hit
/// and lives has health left, and who is brought to zero or below is gone.
pub proof fn lemma_health_stays_within_bounds(m: Map<Entity, Combatant>, evs: Seq<AttackEvent>)
    requires
        forall|e: Entity| m.contains_key(e) ==> health_within_bounds(#[trigger] m[e]),
    ensures
        forall|e: Entity| #[trigger]
            attacks_applied(m, evs).contains_key(e) ==> health_within_bounds(
                attacks_applied(m, evs)[e],
            ),
    decreases evs.len(),
{
    if evs.len() > 0 {
        lemma_health_stays_within_bounds(m, evs.drop_last());
        let before = attacks_applied(m, evs.drop_last());
        let ev = evs.last();
        let after = attacks_applied(m, evs);
        assert(after == attack_applied(before, ev));
        assert forall|e: Entity| #[trigger] after.contains_key(e) implies health_within_bounds(
            after[e],
        ) by {
            if attack_report(before, ev) is Hit {
                assert(before.contains_key(ev.target) && before.contains_key(ev.attacker));
                assert(health_within_bounds(before[ev.target]));
                assert(health_within_bounds(before[ev.attacker]));
                if e != ev.target && e != ev.attacker {
                    assert(before.contains_key(e));
                    assert(after[e] == before[e]);
                }
            } else {
                assert(before.contains_key(e));
                assert(after[e] == before[e]);
            }
        }
    }
}

/// A kill does not rearm: the attacker is left exactly as it was.
pub proof fn lemma_kill_leaves_attacker(m: Map<Entity, Combatant>, ev: AttackEvent)
    requires
        attack_report(m, ev) is Killed,
    ensures
        !attack_applied(m, ev).contains_key(ev.target),
        attack_applied(m, ev).contains_key(ev.attacker),
        attack_applied(m, ev)[ev.attacker] == m[ev.attacker],
{
}

/// An attack that does not land changes nothing: neither health nor cooldown.
pub proof fn lemma_no_hit_no_change(m: Map<Entity, Combatant>, ev: AttackEvent)
    requires
        !(attack_report(m, ev) is Hit),
        !(attack_report(m, ev) is Killed),
    ensures
        attack_applied(m, ev) == m,
{
}

/// Evaluating pairs that are out of range, however often, changes nothing.
pub proof fn lemma_out_of_range_is_idempotent(m: Map<Entity, Combatant>, evs: Seq<AttackEvent>)
    requires
        forall|i: int| 0 <= i < evs.len() ==> attack_report(m, #[trigger] evs[i]) is OutOfRange,
    ensures
        attacks_applied(m, evs) == m,
        attack_reports(m, evs).len() == evs.len(),
        forall|i: int|
            0 <= i < evs.len() ==> #[trigger] attack_reports(m, evs)[i] == AttackOutcome::OutOfRange,
    decreases evs.len(),
{
    if evs.len() > 0 {
        let front = evs.drop_last();
        assert forall|i: int| 0 <= i < front.len() implies attack_report(m, #[trigger] front[i])
            is OutOfRange by {
            assert(front[i] == evs[i]);
        }
        lemma_out_of_range_is_idempotent(m, front);
        assert(attack_report(m, evs[evs.len() - 1]) is OutOfRange);
    }
}

/// A signal that names an entity which is not in the world has no effect.
pub proof fn lemma_signal_for_missing_entity(m: Map<Entity, Combatant>, ev: AttackEvent)
    requires
        !m.contains_key(ev.attacker) || !m.contains_key(ev.target),
    ensures
        attack_report(m, ev) == AttackOutcome::Unresolved,
        attack_applied(m, ev) == m,
{
}

/// Death is final. An entity that is not in the world is in no later world of
/// the tick, and the signals that name it, as attacker or as target, leave
/// the world as if they had not been sent.
pub proof fn lemma_death_is_final(m: Map<Entity, Combatant>, evs: Seq<AttackEvent>, dead: Entity)
    requires
        !m.contains_key(dead),
    ensures
        !attacks_applied(m, evs).contains_key(dead),
        attacks_applied(m, evs) == attacks_applied(
            m,
            evs.filter(|ev: AttackEvent| ev.attacker != dead && ev.target != dead),
        ),
    decreases evs.len(),
{
    let keep = |ev: AttackEvent| ev.attacker != dead && ev.target != dead;
    reveal(Seq::filter);
    if evs.len() > 0 {
        let front = evs.drop_last();
        lemma_death_is_final(m, front, dead);
        if keep(evs.last()) {
            let kept = front.filter(keep).push(evs.last());
            assert(evs.filter(keep) == kept);
            assert(kept.drop_last() =~= front.filter(keep));
        } else {
            assert(evs.filter(keep) == front.filter(keep));
        }
    }
}

} // verus!
