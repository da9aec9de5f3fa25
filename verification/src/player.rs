use vstd::prelude::*;

verus! {

/// The most health the player can have.
pub const MAX_HEALTH: u16 = 5;

/// Health of a newly created player.
pub const START_HEALTH: u16 = 5;

/// Walking speed, in pixels per second, for one unit of velocity.
pub const SPEED: i16 = 100;

/// The direction the player sprite faces.
#[derive(Clone, Copy, Debug, PartialEq, Eq, Structural)]
pub enum Direction {
    Up,
    Down,
    Left,
    Right,
}

/// The state of the player character that its rules read and change.
///
/// The velocity holds, per axis, the direction of the input: -1, 0 or 1.
pub struct Player {
    velocity_x: i8,
    velocity_y: i8,
    face: Direction,
    walking: bool,
    health: u16,
    iframes: bool,
    invincible: bool,
    loading: bool,
    lock_movement: bool,
    bullet_available: bool,
}

/// The mathematical model of a `Player`.
pub struct PlayerView {
    pub velocity_x: int,
    pub velocity_y: int,
    pub face: Direction,
    pub walking: bool,
    pub health: nat,
    pub iframes: bool,
    pub invincible: bool,
    pub loading: bool,
    pub lock_movement: bool,
    pub bullet_available: bool,
}

impl PlayerView {
    /// What holds of every player: each velocity component is -1, 0 or 1,
    /// the player walks exactly when it moves, health never exceeds
    /// `MAX_HEALTH`, and no operation ever sets it loading.
    pub open spec fn wf(self) -> bool {
        &&& -1 <= self.velocity_x <= 1
        &&& -1 <= self.velocity_y <= 1
        &&& self.walking == (self.velocity_x != 0 || self.velocity_y != 0)
        &&& self.health <= MAX_HEALTH
        &&& !self.loading
    }
}

/// Health after taking `amount` damage.
pub open spec fn damaged_health(health: nat, amount: nat) -> nat {
    (health - amount) as nat
}

/// Health after healing `amount`: the sum, capped at `MAX_HEALTH`.
pub open spec fn healed_health(health: nat, amount: nat) -> nat {
    if health + amount < MAX_HEALTH { health + amount } else { MAX_HEALTH as nat }
}


/// The direction faced after moving with velocity (`vx`, `vy`): movement
/// along one axis only turns the player that way; standing still or moving
/// diagonally keeps the direction `face`.
pub open spec fn facing_after(face: Direction, vx: int, vy: int) -> Direction {
    if vx == 0 {
        if vy == -1 {
            Direction::Up
        } else if vy == 1 {
            Direction::Down
        } else {
            face
        }
    } else if vy == 0 {
        if vx == -1 {
            Direction::Left
        } else if vx == 1 {
            Direction::Right
        } else {
            face
        }
    } else {
        face
    }
}

/// The name of the sprite animation for a direction.
pub open spec fn face_animation(face: Direction) -> Seq<char> {
    match face {
        Direction::Up => "up"@,
        Direction::Down => "down"@,
        Direction::Left => "left"@,
        Direction::Right => "right"@,
    }
}

/// The animation played for a direction: its name, followed by `_walk`
/// while walking.
pub open spec fn animation_name(face: Direction, walking: bool) -> Seq<char> {
    if walking {
        face_animation(face) + "_walk"@
    } else {
        face_animation(face)
    }
}

/// The input actions held down during one frame.
#[derive(Clone, Copy, Debug, PartialEq, Eq)]
pub struct MoveInput {
    pub right: bool,
    pub left: bool,
    pub down: bool,
    pub up: bool,
    /// The attack action was pressed in this frame.
    pub attack: bool,
}

/// One axis of the velocity: 1 for the positive action, -1 for the
/// negative one, 0 for both or neither.
pub open spec fn axis(positive: bool, negative: bool) -> int {
    (if positive { 1int } else { 0int }) - (if negative { 1int } else { 0int })
}

/// What the engine does after a frame of input.
pub struct ProcessOutcome {
    /// The sprite animation to play, if one is chosen this frame.
    pub animation: Option<&'static str>,
    /// Whether the player throws a bullet.
    pub throw_bullet: bool,
}

/// The player after one frame of `input`, and what is done then.
///
/// A locked player stands still, plays nothing and throws nothing. Otherwise
/// the velocity follows the held directions, the player walks when it
/// moves, turns as `facing_after` says, plays the animation of its facing,
/// and throws a bullet when attack is pressed and it has one, after which it
/// has none.
pub open spec fn process_spec(old: PlayerView, input: MoveInput, new: PlayerView, out_animation: Option<Seq<char>>, throw_bullet: bool) -> bool {
    if old.lock_movement {
        &&& new == (PlayerView { velocity_x: 0, velocity_y: 0, walking: false, ..old })
        &&& out_animation is None
        &&& !throw_bullet
    } else {
        let vx = axis(input.right, input.left);
        let vy = axis(input.down, input.up);
        let walking = vx != 0 || vy != 0;
        let face = facing_after(old.face, vx, vy);
        let throws = input.attack && old.bullet_available;
        &&& new == (PlayerView {
            velocity_x: vx,
            velocity_y: vy,
            walking: walking,
            face: face,
            bullet_available: old.bullet_available && !throws,
            ..old
        })
        &&& out_animation == Some(animation_name(face, walking))
        &&& throw_bullet == throws
    }
}

impl View for Player {
    type V = PlayerView;

    closed spec fn view(&self) -> PlayerView {
        PlayerView {
            velocity_x: self.velocity_x as int,
            velocity_y: self.velocity_y as int,
            face: self.face,
            walking: self.walking,
            health: self.health as nat,
            iframes: self.iframes,
            invincible: self.invincible,
            loading: self.loading,
            lock_movement: self.lock_movement,
            bullet_available: self.bullet_available,
        }
    }
}

impl Player {
    #[verifier::type_invariant]
    closed spec fn inv(self) -> bool {
        self@.wf()
    }

    /// A player at rest, facing down, with full health and a bullet at hand.
    pub fn new() -> (p: Player)
        ensures
            p@ == (PlayerView {
                velocity_x: 0,
                velocity_y: 0,
                face: Direction::Down,
                walking: false,
                health: START_HEALTH as nat,
                iframes: false,
                invincible: false,
                loading: false,
                lock_movement: false,
                bullet_available: true,
            }),
            p@.wf(),
    {
        Player {
            velocity_x: 0,
            velocity_y: 0,
            face: Direction::Down,
            walking: false,
            health: START_HEALTH,
            iframes: false,
            invincible: false,
            loading: false,
            lock_movement: false,
            bullet_available: true,
        }
    }

    /// The player's health, never above `MAX_HEALTH`.
    pub fn get_health(&self) -> (h: u16)
        ensures
            h == self@.health,
            h <= MAX_HEALTH,
    {
        proof { use_type_invariant(self); }
        self.health
    }

    /// Turns the player toward the axis it moves along, as `facing_after`
    /// says.
    pub fn direction_management(&mut self)
        ensures
            final(self)@ == (PlayerView {
                face: facing_after(old(self)@.face, old(self)@.velocity_x, old(self)@.velocity_y),
                ..old(self)@
            }),
            final(self)@.wf(),
            old(self)@.velocity_x == 0 && old(self)@.velocity_y == 0 ==> final(self)@.face == old(self)@.face,
            old(self)@.velocity_x != 0 && old(self)@.velocity_y != 0 ==> final(self)@.face == old(self)@.face,
            old(self)@.velocity_x == 0 && old(self)@.velocity_y == -1 ==> final(self)@.face == Direction::Up,
            old(self)@.velocity_x == 0 && old(self)@.velocity_y == 1 ==> final(self)@.face == Direction::Down,
            old(self)@.velocity_x == -1 && old(self)@.velocity_y == 0 ==> final(self)@.face == Direction::Left,
            old(self)@.velocity_x == 1 && old(self)@.velocity_y == 0 ==> final(self)@.face == Direction::Right,
    {
        proof { use_type_invariant(&*self); }
        if self.velocity_x == 0 {
            if self.velocity_y == -1 {
                self.face = Direction::Up;
            } else if self.velocity_y == 1 {
                self.face = Direction::Down;
            }
        } else if self.velocity_y == 0 {
            if self.velocity_x == -1 {
                self.face = Direction::Left;
            } else if self.velocity_x == 1 {
                self.face = Direction::Right;
            }
        }
    }

    /// The sprite animation that fits the player's facing and walking.
    pub fn sprite_management(&self) -> (anim: &'static str)
        ensures
            anim@ == animation_name(self@.face, self@.walking),
            !self@.walking && self@.face == Direction::Up ==> anim@ == "up"@,
            !self@.walking && self@.face == Direction::Down ==> anim@ == "down"@,
            !self@.walking && self@.face == Direction::Left ==> anim@ == "left"@,
            !self@.walking && self@.face == Direction::Right ==> anim@ == "right"@,
            self@.walking && self@.face == Direction::Up ==> anim@ == "up_walk"@,
            self@.walking && self@.face == Direction::Down ==> anim@ == "down_walk"@,
            self@.walking && self@.face == Direction::Left ==> anim@ == "left_walk"@,
            self@.walking && self@.face == Direction::Right ==> anim@ == "right_walk"@,
    {
        proof {
            reveal_strlit("_walk");
            reveal_strlit("up");
            reveal_strlit("down");
            reveal_strlit("left");
            reveal_strlit("right");
        }
        if self.walking {
            match self.face {
                Direction::Up => {
                    proof { reveal_strlit("up_walk"); }
                    "up_walk"
                },
                Direction::Down => {
                    proof { reveal_strlit("down_walk"); }
                    "down_walk"
                },
                Direction::Left => {
                    proof { reveal_strlit("left_walk"); }
                    "left_walk"
                },
                Direction::Right => {
                    proof { reveal_strlit("right_walk"); }
                    "right_walk"
                },
            }
        } else {
            match self.face {
                Direction::Up => "up",
                Direction::Down => "down",
                Direction::Left => "left",
                Direction::Right => "right",
            }
        }
    }

    /// One frame of the player's rules for `input`; see `process_spec`.
    pub fn process(&mut self, input: MoveInput) -> (out: ProcessOutcome)
        ensures
            process_spec(
                old(self)@,
                input,
                final(self)@,
                match out.animation {
                    Some(a) => Some(a@),
                    None => None,
                },
                out.throw_bullet,
            ),
            final(self)@.wf(),
            // An unlocked player throws exactly when attack is pressed and it
            // has a bullet, whatever it does otherwise; the throw uses the
            // bullet up.
            !old(self)@.lock_movement ==> out.throw_bullet == (input.attack && old(self)@.bullet_available),
            !old(self)@.lock_movement ==> final(self)@.bullet_available == (old(self)@.bullet_available && !input.attack),
            old(self)@.lock_movement ==> !out.throw_bullet && final(self)@.bullet_available == old(self)@.bullet_available,
            // The velocity follows the held direction actions; a locked
            // player stands still. The player walks exactly when it moves.
            !old(self)@.lock_movement ==> final(self)@.velocity_x == (if input.right { 1int } else { 0int }) - (if input.left { 1int } else { 0int }),
            !old(self)@.lock_movement ==> final(self)@.velocity_y == (if input.down { 1int } else { 0int }) - (if input.up { 1int } else { 0int }),
            old(self)@.lock_movement ==> final(self)@.velocity_x == 0 && final(self)@.velocity_y == 0,
            final(self)@.walking == (final(self)@.velocity_x != 0 || final(self)@.velocity_y != 0),
            old(self)@.lock_movement <==> out.animation is None,
            // Standing still or moving diagonally keeps the facing; moving
            // along one axis turns that way.
            input.right == input.left && input.up == input.down ==> final(self)@.face == old(self)@.face,
            input.right != input.left && input.up != input.down ==> final(self)@.face == old(self)@.face,
            !old(self)@.lock_movement && input.right == input.left && input.up && !input.down ==> final(self)@.face == Direction::Up,
            !old(self)@.lock_movement && input.right == input.left && input.down && !input.up ==> final(self)@.face == Direction::Down,
            !old(self)@.lock_movement && input.up == input.down && input.left && !input.right ==> final(self)@.face == Direction::Left,
            !old(self)@.lock_movement && input.up == input.down && input.right && !input.left ==> final(self)@.face == Direction::Right,
    {
        proof { use_type_invariant(&*self); }
        if !self.lock_movement {
            let x1: i8 = if input.right { 1 } else { 0 };
            let x2: i8 = if input.left { 1 } else { 0 };
            let y1: i8 = if input.down { 1 } else { 0 };
            let y2: i8 = if input.up { 1 } else { 0 };
            let vx: i8 = x1 - x2;
            let vy: i8 = y1 - y2;
            let walking = vx != 0 || vy != 0;
            *self = Player { velocity_x: vx, velocity_y: vy, walking: walking, ..*self };
            self.direction_management();
            let anim = self.sprite_management();
            let throws = input.attack && self.bullet_available;
            if throws {
                self.bullet_available = false;
            }
            ProcessOutcome { animation: Some(anim), throw_bullet: throws }
        } else {
            *self = Player { velocity_x: 0, velocity_y: 0, walking: false, ..*self };
            ProcessOutcome { animation: None, throw_bullet: false }
        }
    }

    /// The motion for the physics step: velocity times `SPEED`, in pixels
    /// per second.
    pub fn motion(&self) -> (m: (i16, i16))
        ensures
            m.0 == self@.velocity_x * SPEED,
            m.1 == self@.velocity_y * SPEED,
    {
        proof { use_type_invariant(self); }
        (self.velocity_x as i16 * SPEED, self.velocity_y as i16 * SPEED)
    }

    /// Sets the direction the player faces.
    pub fn set_face(&mut self, value: Direction)
        ensures
            final(self)@ == (PlayerView { face: value, ..old(self)@ }),
            final(self)@.wf(),
    {
        proof { use_type_invariant(&*self); }
        self.face = value;
    }

    /// Gives the player a bullet to throw, or takes it away.
    pub fn set_bullet_available(&mut self, value: bool)
        ensures
            final(self)@ == (PlayerView { bullet_available: value, ..old(self)@ }),
            final(self)@.wf(),
    {
        proof { use_type_invariant(&*self); }
        self.bullet_available = value;
    }

    /// Locks or unlocks the player's movement.
    pub fn set_lock_movement(&mut self, value: bool)
        ensures
            final(self)@ == (PlayerView { lock_movement: value, ..old(self)@ }),
            final(self)@.wf(),
    {
        proof { use_type_invariant(&*self); }
        self.lock_movement = value;
    }

    /// Whether the player is loading: never, since no operation sets it.
    pub fn is_loading(&self) -> (b: bool)
        ensures
            b == self@.loading,
            !b,
    {
        proof { use_type_invariant(self); }
        self.loading
    }

    /// Whether the player is in its invulnerability frames after a hit.
    pub fn is_in_iframes(&self) -> (b: bool)
        ensures
            b == self@.iframes,
    {
        self.iframes
    }

    /// The player takes `amount` damage and enters its invulnerability
    /// frames. Damage above the current health is not accepted.
    pub fn damage(&mut self, amount: u16)
        requires
            amount <= old(self)@.health,
        ensures
            final(self)@ == (PlayerView {
                health: damaged_health(old(self)@.health, amount as nat),
                iframes: true,
                ..old(self)@
            }),
            final(self)@.wf(),
            final(self)@.health == old(self)@.health - amount,
            final(self)@.iframes,
    {
        proof { use_type_invariant(&*self); }
        self.health = self.health - amount;
        self.iframes = true;
    }

    /// The player regains `amount` health, up to `MAX_HEALTH`.
    pub fn heal(&mut self, amount: u16)
        requires
            old(self)@.health + amount <= u16::MAX,
        ensures
            final(self)@ == (PlayerView {
                health: healed_health(old(self)@.health, amount as nat),
                ..old(self)@
            }),
            final(self)@.wf(),
            old(self)@.health + amount >= MAX_HEALTH ==> final(self)@.health == MAX_HEALTH,
            old(self)@.health + amount < MAX_HEALTH ==> final(self)@.health == old(self)@.health + amount,
    {
        proof { use_type_invariant(&*self); }
        let raised = self.health + amount;
        self.health = if raised < MAX_HEALTH { raised } else { MAX_HEALTH };
    }
}

/// Healing by the damage just taken gives back the health held before.
pub proof fn lemma_damage_then_heal_restores(health: nat, amount: nat)
    requires
        health <= MAX_HEALTH,
        amount <= health,
    ensures
        healed_health(damaged_health(health, amount), amount) == health,
{
}

/// Healing never lowers the health of a player and never raises it above
/// `MAX_HEALTH`.
pub proof fn lemma_heal_bounds(health: nat, amount: nat)
    requires
        health <= MAX_HEALTH,
    ensures
        health <= healed_health(health, amount) <= MAX_HEALTH,
{
}

/// Healing gives exactly the capped sum: `MAX_HEALTH` once health and
/// amount together reach it, their sum below that.
pub proof fn lemma_heal_capped_sum(health: nat, amount: nat)
    requires
        health <= MAX_HEALTH,
    ensures
        health + amount >= MAX_HEALTH ==> healed_health(health, amount) == MAX_HEALTH,
        health + amount < MAX_HEALTH ==> healed_health(health, amount) == health + amount,
{
}

/// The facing rule: standing still keeps the facing, so does moving
/// diagonally, and moving along one axis only turns the player that way.
pub proof fn lemma_facing_rules(face: Direction, vx: int, vy: int)
    requires
        -1 <= vx <= 1,
        -1 <= vy <= 1,
    ensures
        vx == 0 && vy == 0 ==> facing_after(face, vx, vy) == face,
        vx != 0 && vy != 0 ==> facing_after(face, vx, vy) == face,
        vx == 0 && vy == -1 ==> facing_after(face, vx, vy) == Direction::Up,
        vx == 0 && vy == 1 ==> facing_after(face, vx, vy) == Direction::Down,
        vx == -1 && vy == 0 ==> facing_after(face, vx, vy) == Direction::Left,
        vx == 1 && vy == 0 ==> facing_after(face, vx, vy) == Direction::Right,
{
}

/// An unlocked player throws exactly when attack is pressed and it has a
/// bullet, whichever direction actions are held, and a throw uses the bullet
/// up.
pub proof fn lemma_throw_rule(
    old: PlayerView,
    input: MoveInput,
    new: PlayerView,
    animation: Option<Seq<char>>,
    throw_bullet: bool,
)
    requires
        !old.lock_movement,
        process_spec(old, input, new, animation, throw_bullet),
    ensures
        throw_bullet == (input.attack && old.bullet_available),
        new.bullet_available == (old.bullet_available && !input.attack),
{
}

/// A frame in which the player stands still (opposite or no direction
/// actions on each axis) or moves diagonally keeps its facing.
pub proof fn lemma_frame_keeps_facing(
    old: PlayerView,
    input: MoveInput,
    new: PlayerView,
    animation: Option<Seq<char>>,
    throw_bullet: bool,
)
    requires
        process_spec(old, input, new, animation, throw_bullet),
        (input.right == input.left && input.up == input.down) || (input.right != input.left && input.up != input.down),
    ensures
        new.face == old.face,
{
}

/// Facing is settled by one step: turning again with the same velocity
/// changes nothing.
pub proof fn lemma_facing_stable(face: Direction, vx: int, vy: int)
    ensures
        facing_after(facing_after(face, vx, vy), vx, vy) == facing_after(face, vx, vy),
{
}

/// A locked player stands still: it neither moves, walks, turns, plays an
/// animation nor throws, whatever the input.
pub proof fn lemma_locked_player_stands_still(
    old: PlayerView,
    input: MoveInput,
    new: PlayerView,
    animation: Option<Seq<char>>,
    throw_bullet: bool,
)
    requires
        old.lock_movement,
        process_spec(old, input, new, animation, throw_bullet),
    ensures
        new.velocity_x == 0,
        new.velocity_y == 0,
        !new.walking,
        new.face == old.face,
        new.bullet_available == old.bullet_available,
        animation is None,
        !throw_bullet,
{
}

/// One bullet, one throw, for two frames in a row: after a frame in which
/// the player throws, the next frame does not throw. `lemma_one_throw_per_run`
/// states it for any sequence of operations.
pub proof fn lemma_one_throw_per_bullet(
    p0: PlayerView,
    input1: MoveInput,
    p1: PlayerView,
    animation1: Option<Seq<char>>,
    input2: MoveInput,
    p2: PlayerView,
    animation2: Option<Seq<char>>,
    throw2: bool,
)
    requires
        process_spec(p0, input1, p1, animation1, true),
        process_spec(p1, input2, p2, animation2, throw2),
    ensures
        !p1.bullet_available,
        !throw2,
        !p2.bullet_available,
{
}

/// A player that is not locked and holds the direction actions of exactly
/// one axis turns that way and walks.
pub proof fn lemma_single_axis_turns(
    old: PlayerView,
    input: MoveInput,
    new: PlayerView,
    animation: Option<Seq<char>>,
    throw_bullet: bool,
)
    requires
        !old.lock_movement,
        process_spec(old, input, new, animation, throw_bullet),
    ensures
        input.up && !input.down && input.left == input.right ==> new.face == Direction::Up && new.walking,
        input.down && !input.up && input.left == input.right ==> new.face == Direction::Down && new.walking,
        input.left && !input.right && input.up == input.down ==> new.face == Direction::Left && new.walking,
        input.right && !input.left && input.up == input.down ==> new.face == Direction::Right && new.walking,
{
}

/// One operation on a player, as a model: a frame of `process`, or a call
/// of one of the other operations that change the player.
pub enum PlayerStep {
    Frame(MoveInput),
    DirectionManagement,
    SetFace(Direction),
    SetBulletAvailable(bool),
    SetLockMovement(bool),
    Damage(nat),
    Heal(nat),
}

/// `new` is what the player becomes by `step` from `old`, as the operation's
/// contract states, and `threw` whether a bullet was thrown (only a frame
/// throws).
pub open spec fn step_spec(old: PlayerView, step: PlayerStep, new: PlayerView, threw: bool) -> bool {
    match step {
        PlayerStep::Frame(input) => exists|a: Option<Seq<char>>| #[trigger] process_spec(old, input, new, a, threw),
        PlayerStep::DirectionManagement => !threw && new == (PlayerView {
            face: facing_after(old.face, old.velocity_x, old.velocity_y),
            ..old
        }),
        PlayerStep::SetFace(d) => !threw && new == (PlayerView { face: d, ..old }),
        PlayerStep::SetBulletAvailable(b) => !threw && new == (PlayerView { bullet_available: b, ..old }),
        PlayerStep::SetLockMovement(b) => !threw && new == (PlayerView { lock_movement: b, ..old }),
        PlayerStep::Damage(amount) => !threw && amount <= old.health && new == (PlayerView {
            health: damaged_health(old.health, amount),
            iframes: true,
            ..old
        }),
        PlayerStep::Heal(amount) => !threw && new == (PlayerView {
            health: healed_health(old.health, amount),
            ..old
        }),
    }
}

/// `states` are the players passed through by doing `steps` one after the
/// other, and `throws[i]` says whether step `i` threw a bullet.
pub open spec fn is_run(states: Seq<PlayerView>, steps: Seq<PlayerStep>, throws: Seq<bool>) -> bool {
    &&& states.len() == steps.len() + 1
    &&& throws.len() == steps.len()
    &&& forall|i: int| 0 <= i < steps.len() ==> step_spec(states[i], #[trigger] steps[i], states[i + 1], throws[i])
}

/// Only a frame throws, and only with a bullet; and no step but giving the
/// bullet back gives one.
pub proof fn lemma_step_bullet(old: PlayerView, step: PlayerStep, new: PlayerView, threw: bool)
    requires
        step_spec(old, step, new, threw),
        step != PlayerStep::SetBulletAvailable(true),
    ensures
        threw ==> old.bullet_available && !new.bullet_available,
        !old.bullet_available ==> !new.bullet_available,
{
    if let PlayerStep::Frame(input) = step {
        let a = choose|a: Option<Seq<char>>| #[trigger] process_spec(old, input, new, a, threw);
        assert(process_spec(old, input, new, a, threw));
    }
}

/// Once the bullet is gone it stays gone for the rest of a run in which it
/// is never given back.
proof fn lemma_no_bullet_stays(states: Seq<PlayerView>, steps: Seq<PlayerStep>, throws: Seq<bool>, k: int)
    requires
        is_run(states, steps, throws),
        forall|i: int| 0 <= i < steps.len() ==> #[trigger] steps[i] != PlayerStep::SetBulletAvailable(true),
        0 <= k < states.len(),
        !states[k].bullet_available,
    ensures
        forall|m: int| k <= m < states.len() ==> !(#[trigger] states[m]).bullet_available,
    decreases states.len() - k,
{
    if k + 1 < states.len() {
        assert(step_spec(states[k], steps[k], states[k + 1], throws[k]));
        lemma_step_bullet(states[k], steps[k], states[k + 1], throws[k]);
        lemma_no_bullet_stays(states, steps, throws, k + 1);
    }
}

/// One bullet, one throw, over any run: in a sequence of operations that
/// never gives the bullet back, at most one frame throws, and after that
/// throw the player has no bullet to the end.
pub proof fn lemma_one_throw_per_run(states: Seq<PlayerView>, steps: Seq<PlayerStep>, throws: Seq<bool>)
    requires
        is_run(states, steps, throws),
        forall|i: int| 0 <= i < steps.len() ==> #[trigger] steps[i] != PlayerStep::SetBulletAvailable(true),
    ensures
        forall|i: int, j: int| 0 <= i < j < throws.len() && #[trigger] throws[i] ==> !#[trigger] throws[j],
        forall|i: int, k: int| 0 <= i < k < states.len() && #[trigger] throws[i] ==> !(#[trigger] states[k]).bullet_available,
{
    assert forall|i: int, k: int| 0 <= i < k < states.len() && #[trigger] throws[i] implies !(#[trigger] states[k]).bullet_available by {
        assert(step_spec(states[i], steps[i], states[i + 1], throws[i]));
        lemma_step_bullet(states[i], steps[i], states[i + 1], throws[i]);
        lemma_no_bullet_stays(states, steps, throws, i + 1);
    }
    assert forall|i: int, j: int| 0 <= i < j < throws.len() && #[trigger] throws[i] implies !#[trigger] throws[j] by {
        assert(step_spec(states[i], steps[i], states[i + 1], throws[i]));
        lemma_step_bullet(states[i], steps[i], states[i + 1], throws[i]);
        lemma_no_bullet_stays(states, steps, throws, i + 1);
        assert(!states[j].bullet_available);
        assert(step_spec(states[j], steps[j], states[j + 1], throws[j]));
        lemma_step_bullet(states[j], steps[j], states[j + 1], throws[j]);
    }
}

} // verus!
