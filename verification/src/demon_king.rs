use vstd::prelude::*;

verus! {

/// Health of the demon king when the fight starts.
pub const BOSS_START_HEALTH: u16 = 15;

/// Bullets in one volley.
pub const VOLLEY_SIZE: u8 = 5;

/// The timers that drive the demon king. When one runs out, the engine calls
/// the handler wired to it: `Attack` calls `attack`, `Bullet` calls
/// `fire_bullet`, `Teleport` calls `tele_out`, `Teleport2` calls `tele_in`.
#[derive(Clone, Copy, Debug, PartialEq, Eq, Structural)]
pub enum BossTimer {
    Teleport,
    Teleport2,
    Bullet,
    Attack,
}

/// A timer to start, with a wait drawn at random between `min_wait_ms` and
/// `max_wait_ms` milliseconds (both included).
#[derive(Clone, Copy, Debug, PartialEq, Eq, Structural)]
pub struct TimerStart {
    pub timer: BossTimer,
    pub min_wait_ms: u32,
    pub max_wait_ms: u32,
}

/// The three attacks of the demon king.
#[derive(Clone, Copy, Debug, PartialEq, Eq, Structural)]
pub enum AttackKind {
    /// A volley of `VOLLEY_SIZE` bullets aimed at the player.
    Volley,
    /// Enemies summoned at random places, announced by the teleport sound.
    Summon,
    /// A kicked ball aimed at the player.
    Kick,
}

/// What an attack does: its kind, and the timer started after it.
#[derive(Clone, Copy, Debug, PartialEq, Eq, Structural)]
pub struct AttackPlan {
    pub kind: AttackKind,
    pub next: TimerStart,
}

/// The state of the demon king that its rules read and change.
pub struct DemonKing {
    health: u16,
    healed: bool,
    bullet_count: u8,
}

/// The mathematical model of a `DemonKing`.
pub struct DemonKingView {
    pub health: nat,
    pub healed: bool,
    /// Bullets fired in the current volley.
    pub bullet_count: nat,
}

impl View for DemonKing {
    type V = DemonKingView;

    closed spec fn view(&self) -> DemonKingView {
        DemonKingView {
            health: self.health as nat,
            healed: self.healed,
            bullet_count: self.bullet_count as nat,
        }
    }
}

/// The timer started when the fight begins: the first attack, after 2.5 to
/// 4 seconds.
pub open spec fn ready_timer() -> TimerStart {
    TimerStart { timer: BossTimer::Attack, min_wait_ms: 2500, max_wait_ms: 4000 }
}

/// The timer started after each attack but a volley, and after a volley's
/// last bullet: the teleport, after 0.5 to 1 second.
pub open spec fn teleport_timer() -> TimerStart {
    TimerStart { timer: BossTimer::Teleport, min_wait_ms: 500, max_wait_ms: 1000 }
}

/// The timer started by a volley: its first bullet, after 0.1 second.
pub open spec fn volley_timer() -> TimerStart {
    TimerStart { timer: BossTimer::Bullet, min_wait_ms: 100, max_wait_ms: 100 }
}

/// The timer started after a bullet that is not the volley's last: the next
/// bullet, after 0.35 to 0.55 second.
pub open spec fn next_bullet_timer() -> TimerStart {
    TimerStart { timer: BossTimer::Bullet, min_wait_ms: 350, max_wait_ms: 550 }
}

/// The timer started on vanishing: reappearing, after 1 to 2 seconds.
pub open spec fn reappear_timer() -> TimerStart {
    TimerStart { timer: BossTimer::Teleport2, min_wait_ms: 1000, max_wait_ms: 2000 }
}

/// The timer started on reappearing: the next attack, after 0.5 to 1 second.
pub open spec fn next_attack_timer() -> TimerStart {
    TimerStart { timer: BossTimer::Attack, min_wait_ms: 500, max_wait_ms: 1000 }
}

/// The attack chosen by a die roll: 0 and 3 give a volley, 1 a summoning,
/// any other value a kick.
pub open spec fn attack_kind(roll: u8) -> AttackKind {
    if roll == 0 || roll == 3 {
        AttackKind::Volley
    } else if roll == 1 {
        AttackKind::Summon
    } else {
        AttackKind::Kick
    }
}

/// The plan of the attack chosen by `roll`.
pub open spec fn attack_plan(roll: u8) -> AttackPlan {
    let kind = attack_kind(roll);
    AttackPlan {
        kind: kind,
        next: if kind == AttackKind::Volley { volley_timer() } else { teleport_timer() },
    }
}

/// The timer started after firing a bullet when `count` bullets of the
/// volley had been fired before it.
pub open spec fn after_shot(count: nat) -> TimerStart {
    if count + 1 < VOLLEY_SIZE {
        next_bullet_timer()
    } else {
        teleport_timer()
    }
}

impl DemonKing {
    /// A demon king at full health that has fired no bullet.
    pub fn new() -> (k: DemonKing)
        ensures
            k@ == (DemonKingView { health: BOSS_START_HEALTH as nat, healed: false, bullet_count: 0 }),
    {
        DemonKing { health: BOSS_START_HEALTH, healed: false, bullet_count: 0 }
    }

    /// The demon king's health.
    pub fn get_health(&self) -> (h: u16)
        ensures
            h == self@.health,
    {
        self.health
    }

    /// Bullets fired in the current volley.
    pub fn bullet_count(&self) -> (n: u8)
        ensures
            n == self@.bullet_count,
    {
        self.bullet_count
    }

    /// The timer to start when the demon king enters the scene.
    pub fn ready(&self) -> (t: TimerStart)
        ensures
            t == ready_timer(),
            t.timer == BossTimer::Attack && t.min_wait_ms == 2500 && t.max_wait_ms == 4000,
    {
        TimerStart { timer: BossTimer::Attack, min_wait_ms: 2500, max_wait_ms: 4000 }
    }

    /// The demon king is hit and loses one health point. The result says
    /// whether the hit sound plays: it does while health remains.
    pub fn hit(&mut self) -> (plays_sound: bool)
        requires
            old(self)@.health >= 1,
        ensures
            final(self)@ == (DemonKingView { health: (old(self)@.health - 1) as nat, ..old(self)@ }),
            plays_sound == (final(self)@.health > 0),
            final(self)@.health == old(self)@.health - 1,
            plays_sound == (old(self)@.health > 1),
    {
        self.health = self.health - 1;
        self.health > 0
    }

    /// The attack chosen by `roll`: a volley also starts counting bullets
    /// from zero.
    pub fn attack(&mut self, roll: u8) -> (plan: AttackPlan)
        ensures
            plan == attack_plan(roll),
            roll == 0 || roll == 3 ==> plan.kind == AttackKind::Volley && final(self)@.bullet_count == 0
                && plan.next.timer == BossTimer::Bullet && plan.next.min_wait_ms == 100 && plan.next.max_wait_ms == 100,
            roll == 1 ==> plan.kind == AttackKind::Summon,
            roll != 0 && roll != 1 && roll != 3 ==> plan.kind == AttackKind::Kick,
            roll != 0 && roll != 3 ==> final(self)@ == old(self)@ && plan.next.timer == BossTimer::Teleport
                && plan.next.min_wait_ms == 500 && plan.next.max_wait_ms == 1000,
            final(self)@ == (if plan.kind == AttackKind::Volley {
                DemonKingView { bullet_count: 0, ..old(self)@ }
            } else {
                old(self)@
            }),
    {
        if roll == 0 || roll == 3 {
            self.bullet_count = 0;
            AttackPlan {
                kind: AttackKind::Volley,
                next: TimerStart { timer: BossTimer::Bullet, min_wait_ms: 100, max_wait_ms: 100 },
            }
        } else if roll == 1 {
            AttackPlan {
                kind: AttackKind::Summon,
                next: TimerStart { timer: BossTimer::Teleport, min_wait_ms: 500, max_wait_ms: 1000 },
            }
        } else {
            AttackPlan {
                kind: AttackKind::Kick,
                next: TimerStart { timer: BossTimer::Teleport, min_wait_ms: 500, max_wait_ms: 1000 },
            }
        }
    }

    /// The demon king vanishes; it reappears when the returned timer runs
    /// out.
    pub fn tele_out(&self) -> (t: TimerStart)
        ensures
            t == reappear_timer(),
            t.timer == BossTimer::Teleport2 && t.min_wait_ms == 1000 && t.max_wait_ms == 2000,
    {
        TimerStart { timer: BossTimer::Teleport2, min_wait_ms: 1000, max_wait_ms: 2000 }
    }

    /// The demon king reappears; it attacks when the returned timer runs
    /// out.
    pub fn tele_in(&self) -> (t: TimerStart)
        ensures
            t == next_attack_timer(),
            t.timer == BossTimer::Attack && t.min_wait_ms == 500 && t.max_wait_ms == 1000,
    {
        TimerStart { timer: BossTimer::Attack, min_wait_ms: 500, max_wait_ms: 1000 }
    }

    /// Fires one bullet of the volley: the next bullet follows until
    /// `VOLLEY_SIZE` have been fired, then the demon king teleports.
    pub fn fire_bullet(&mut self) -> (t: TimerStart)
        requires
            old(self)@.bullet_count < u8::MAX,
        ensures
            final(self)@ == (DemonKingView { bullet_count: old(self)@.bullet_count + 1, ..old(self)@ }),
            t == after_shot(old(self)@.bullet_count),
            final(self)@.bullet_count == old(self)@.bullet_count + 1,
            old(self)@.bullet_count + 1 < 5 ==> t.timer == BossTimer::Bullet && t.min_wait_ms == 350 && t.max_wait_ms == 550,
            old(self)@.bullet_count + 1 >= 5 ==> t.timer == BossTimer::Teleport && t.min_wait_ms == 500 && t.max_wait_ms == 1000,
    {
        self.bullet_count = self.bullet_count + 1;
        if self.bullet_count < VOLLEY_SIZE {
            TimerStart { timer: BossTimer::Bullet, min_wait_ms: 350, max_wait_ms: 550 }
        } else {
            TimerStart { timer: BossTimer::Teleport, min_wait_ms: 500, max_wait_ms: 1000 }
        }
    }
}

/// A volley fires exactly `VOLLEY_SIZE` bullets: counted from the reset that
/// starts it, each shot but the last schedules another bullet, and the last
/// schedules the teleport.
pub proof fn lemma_volley_size(count: nat)
    requires
        count < VOLLEY_SIZE,
    ensures
        count + 1 < VOLLEY_SIZE ==> after_shot(count).timer == BossTimer::Bullet,
        count + 1 == VOLLEY_SIZE ==> after_shot(count) == teleport_timer(),
{
}

/// Every attack is followed by the teleport: a volley through its bullets,
/// any other attack directly. Teleporting out is followed by teleporting in,
/// and teleporting in by the next attack.
pub proof fn lemma_attack_cycle(roll: u8)
    ensures
        attack_plan(roll).kind == AttackKind::Volley <==> attack_plan(roll).next.timer == BossTimer::Bullet,
        attack_plan(roll).kind != AttackKind::Volley ==> attack_plan(roll).next == teleport_timer(),
        reappear_timer().timer == BossTimer::Teleport2,
        next_attack_timer().timer == BossTimer::Attack,
{
}

/// Each timer waits no less than its minimum and no more than its maximum:
/// every timer the demon king starts has `min_wait_ms <= max_wait_ms`.
pub proof fn lemma_timer_ranges(roll: u8, count: nat)
    ensures
        ready_timer().min_wait_ms <= ready_timer().max_wait_ms,
        attack_plan(roll).next.min_wait_ms <= attack_plan(roll).next.max_wait_ms,
        after_shot(count).min_wait_ms <= after_shot(count).max_wait_ms,
        reappear_timer().min_wait_ms <= reappear_timer().max_wait_ms,
        next_attack_timer().min_wait_ms <= next_attack_timer().max_wait_ms,
{
}

/// `new` is the demon king after one hit on `old`, as `hit` states, and
/// `sound` whether the hit sound played.
pub open spec fn hit_spec(old: DemonKingView, new: DemonKingView, sound: bool) -> bool {
    &&& old.health >= 1
    &&& new == (DemonKingView { health: (old.health - 1) as nat, ..old })
    &&& sound == (new.health > 0)
}

/// A run of hits: `states[i + 1]` follows `states[i]` by a hit that played
/// `sounds[i]`.
pub open spec fn is_hit_run(states: Seq<DemonKingView>, sounds: Seq<bool>) -> bool {
    &&& states.len() == sounds.len() + 1
    &&& forall|i: int| 0 <= i < sounds.len() ==> hit_spec(states[i], states[i + 1], #[trigger] sounds[i])
}

/// A run of `n` hits from health `h` (so `n <= h`): after the `k`-th hit the
/// health is `h - k`, and every hit plays the sound but the one that takes
/// the last point. From the start health of 15 the first 14 hits play it.
pub proof fn lemma_hit_run(states: Seq<DemonKingView>, sounds: Seq<bool>)
    requires
        is_hit_run(states, sounds),
    ensures
        sounds.len() <= states[0].health,
        forall|k: int| 0 <= k < states.len() ==> (#[trigger] states[k]).health == states[0].health - k,
        forall|i: int| 0 <= i < sounds.len() ==> (#[trigger] sounds[i] <==> i + 1 < states[0].health),
    decreases sounds.len(),
{
    if sounds.len() > 0 {
        let n = sounds.len() - 1;
        let prefix_states = states.take(n + 1);
        let prefix_sounds = sounds.take(n);
        assert forall|i: int| 0 <= i < prefix_sounds.len() implies hit_spec(prefix_states[i], prefix_states[i + 1], #[trigger] prefix_sounds[i]) by {
            assert(hit_spec(states[i], states[i + 1], sounds[i]));
        }
        lemma_hit_run(prefix_states, prefix_sounds);
        assert(hit_spec(states[n], states[n + 1], sounds[n]));
        assert(prefix_states[0] == states[0]);
        assert(prefix_states[n] == states[n]);
        assert forall|k: int| 0 <= k < states.len() implies (#[trigger] states[k]).health == states[0].health - k by {
            if k <= n {
                assert(prefix_states[k] == states[k]);
            }
        }
        assert forall|i: int| 0 <= i < sounds.len() implies (#[trigger] sounds[i] <==> i + 1 < states[0].health) by {
            if i < n {
                assert(prefix_sounds[i] == sounds[i]);
            }
            assert(hit_spec(states[i], states[i + 1], sounds[i]));
            assert(states[i + 1].health == states[0].health - (i + 1));
        }
    }
}

} // verus!
