use game_logic::demon_king::{AttackKind, BossTimer, DemonKing, TimerStart, BOSS_START_HEALTH, VOLLEY_SIZE};

fn timer(timer: BossTimer, min_wait_ms: u32, max_wait_ms: u32) -> TimerStart {
    TimerStart { timer, min_wait_ms, max_wait_ms }
}

#[test]
fn ready_schedules_first_attack() {
    let k = DemonKing::new();
    assert_eq!(k.ready(), timer(BossTimer::Attack, 2500, 4000));
}

#[test]
fn attack_rolls() {
    let mut k = DemonKing::new();
    for roll in [0u8, 3] {
        let plan = k.attack(roll);
        assert_eq!(plan.kind, AttackKind::Volley);
        assert_eq!(plan.next, timer(BossTimer::Bullet, 100, 100));
    }
    let plan = k.attack(1);
    assert_eq!(plan.kind, AttackKind::Summon);
    assert_eq!(plan.next, timer(BossTimer::Teleport, 500, 1000));
    for roll in [2u8, 4] {
        let plan = k.attack(roll);
        assert_eq!(plan.kind, AttackKind::Kick);
        assert_eq!(plan.next, timer(BossTimer::Teleport, 500, 1000));
    }
}

#[test]
fn volley_fires_five_bullets() {
    let mut k = DemonKing::new();
    k.attack(0);
    for _ in 0..4 {
        assert_eq!(k.fire_bullet(), timer(BossTimer::Bullet, 350, 550));
    }
    assert_eq!(k.fire_bullet(), timer(BossTimer::Teleport, 500, 1000));
    assert_eq!(VOLLEY_SIZE, 5);
}

#[test]
fn new_volley_restarts_the_count() {
    let mut k = DemonKing::new();
    k.attack(3);
    for _ in 0..5 {
        k.fire_bullet();
    }
    k.attack(3);
    assert_eq!(k.fire_bullet(), timer(BossTimer::Bullet, 350, 550));
}

#[test]
fn kick_does_not_restart_the_count() {
    let mut k = DemonKing::new();
    k.attack(0);
    for _ in 0..3 {
        k.fire_bullet();
    }
    k.attack(2);
    k.attack(1);
    assert_eq!(k.fire_bullet(), timer(BossTimer::Bullet, 350, 550));
    assert_eq!(k.fire_bullet(), timer(BossTimer::Teleport, 500, 1000));
}

#[test]
fn bullets_past_the_volley_keep_teleporting() {
    let mut k = DemonKing::new();
    for _ in 0..5 {
        k.fire_bullet();
    }
    assert_eq!(k.fire_bullet(), timer(BossTimer::Teleport, 500, 1000));
}

#[test]
fn teleport_cycle() {
    let k = DemonKing::new();
    assert_eq!(k.tele_out(), timer(BossTimer::Teleport2, 1000, 2000));
    assert_eq!(k.tele_in(), timer(BossTimer::Attack, 500, 1000));
}

#[test]
fn hits_until_defeat() {
    let mut k = DemonKing::new();
    assert_eq!(BOSS_START_HEALTH, 15);
    for _ in 0..14 {
        assert!(k.hit());
    }
    assert!(!k.hit());
}

#[test]
fn hit_sequence_health_and_sounds() {
    let mut k = DemonKing::new();
    let mut sounds = 0;
    for n in 1..=15u16 {
        if k.hit() {
            sounds += 1;
        }
        assert_eq!(k.get_health(), 15 - n);
        assert_eq!(sounds, n.min(14));
    }
}
