//! The player: which way the four movement keys point, which animation the
//! sprite shows for it, and what happens when the player is readied,
//! started and hit.

use vstd::prelude::*;
use vstd::string::StringExecFns;

verus! {

/// The state of the four movement actions in one frame.
#[derive(Clone, Copy, Debug)]
pub struct MoveInput {
    pub up: bool,
    pub right: bool,
    pub down: bool,
    pub left: bool,
}

/// A direction on the screen grid: `x` grows to the right and `y` grows
/// downwards, each in -1..=1.
#[derive(Clone, Copy, Debug, PartialEq, Eq, Structural)]
pub struct Direction {
    pub x: i8,
    pub y: i8,
}

/// The contribution of a pair of opposite keys to one axis.
pub open spec fn axis(negative: bool, positive: bool) -> int {
    (if positive { 1int } else { 0int }) - (if negative { 1int } else { 0int })
}

/// The direction that the pressed keys add up to: up is -y, down is +y,
/// left is -x, right is +x.
pub open spec fn spec_direction(input: MoveInput) -> Direction {
    Direction { x: axis(input.left, input.right) as i8, y: axis(input.up, input.down) as i8 }
}

/// The animations of the player's sprite.
#[derive(Clone, Copy, Debug, PartialEq, Eq, Structural)]
pub enum SpriteAnimation {
    /// Moving vertically.
    Up,
    /// Moving horizontally only.
    Walk,
}

impl SpriteAnimation {
    /// The animation's name in the sprite frames.
    pub open spec fn spec_name(self) -> Seq<char> {
        match self {
            SpriteAnimation::Up => seq!['u', 'p'],
            SpriteAnimation::Walk => seq!['w', 'a', 'l', 'k'],
        }
    }

    /// The animation's name in the sprite frames: "up" or "walk".
    pub fn name(&self) -> (name: String)
        ensures
            name@ == self.spec_name(),
    {
        proof {
            reveal_strlit("up");
            reveal_strlit("walk");
        }
        match self {
            SpriteAnimation::Up => String::from_str("up"),
            SpriteAnimation::Walk => String::from_str("walk"),
        }
    }
}

/// What the sprite is told in one frame: play or stop, and, where set, the
/// animation and the vertical and horizontal flips.
#[derive(Clone, Copy, Debug, PartialEq, Eq, Structural)]
pub struct SpriteUpdate {
    pub playing: bool,
    pub animation: Option<SpriteAnimation>,
    pub flip_v: Option<bool>,
    pub flip_h: Option<bool>,
}

/// The sprite update for a direction: it plays while the direction is not
/// zero; vertical movement shows "up", flipped vertically when going down;
/// purely horizontal movement shows "walk", unflipped vertically and
/// flipped horizontally when going left; no movement changes neither.
pub open spec fn spec_sprite_update(d: Direction) -> SpriteUpdate {
    if d.y != 0 {
        SpriteUpdate {
            playing: true,
            animation: Some(SpriteAnimation::Up),
            flip_v: Some(d.y > 0),
            flip_h: None,
        }
    } else if d.x != 0 {
        SpriteUpdate {
            playing: true,
            animation: Some(SpriteAnimation::Walk),
            flip_v: Some(false),
            flip_h: Some(d.x < 0),
        }
    } else {
        SpriteUpdate { playing: false, animation: None, flip_v: None, flip_h: None }
    }
}

/// What one frame of input decides: the direction, whether the player moves
/// at all, and the sprite update.
#[derive(Clone, Copy, Debug, PartialEq, Eq, Structural)]
pub struct FrameDecision {
    pub direction: Direction,
    pub moving: bool,
    pub sprite: SpriteUpdate,
}

/// The steps that the player's handlers ask of its node.
#[derive(Clone, Copy, Debug, PartialEq, Eq, Structural)]
pub enum PlayerAction {
    /// Add an audio player named "DeathSound" that holds the death sound.
    AddDeathSound,
    /// Hide the player.
    Hide,
    /// Show the player.
    Show,
    /// Play the death sound.
    PlayDeathSound,
    /// Emit the "hit" signal.
    EmitHit,
    /// Disable the collision shape once the physics step is over.
    DisableCollisionDeferred,
    /// Enable the collision shape now.
    EnableCollision,
    /// Move the player to the start position it was given.
    PlaceAtStart,
}

/// The player's own state: the path of its death sound, if any, and
/// whether it is shown and can collide.
pub struct Player {
    pub death_sound: Option<String>,
    pub visible: bool,
    pub collision_enabled: bool,
}

/// The abstract state of a player.
pub struct PlayerView {
    pub death_sound: Option<Seq<char>>,
    pub visible: bool,
    pub collision_enabled: bool,
}

impl View for Player {
    type V = PlayerView;

    open spec fn view(&self) -> PlayerView {
        PlayerView {
            death_sound: match self.death_sound {
                Some(s) => Some(s@),
                None => None,
            },
            visible: self.visible,
            collision_enabled: self.collision_enabled,
        }
    }
}

/// The player after being readied: hidden.
pub open spec fn ready_view(v: PlayerView) -> PlayerView {
    PlayerView { visible: false, ..v }
}

/// The player after being hit: hidden and no longer colliding.
pub open spec fn hit_view(v: PlayerView) -> PlayerView {
    PlayerView { visible: false, collision_enabled: false, ..v }
}

/// The player after being started: shown and colliding.
pub open spec fn start_view(v: PlayerView) -> PlayerView {
    PlayerView { visible: true, collision_enabled: true, ..v }
}

/// The steps of readying a player: add the death sound where there is one,
/// then hide.
pub open spec fn ready_actions(has_sound: bool) -> Seq<PlayerAction> {
    if has_sound {
        seq![PlayerAction::AddDeathSound, PlayerAction::Hide]
    } else {
        seq![PlayerAction::Hide]
    }
}

/// The steps when a body enters the player: hide, play the death sound
/// where there is one, emit "hit", and disable collision after the physics
/// step.
pub open spec fn hit_actions(has_sound: bool) -> Seq<PlayerAction> {
    if has_sound {
        seq![
            PlayerAction::Hide,
            PlayerAction::PlayDeathSound,
            PlayerAction::EmitHit,
            PlayerAction::DisableCollisionDeferred,
        ]
    } else {
        seq![PlayerAction::Hide, PlayerAction::EmitHit, PlayerAction::DisableCollisionDeferred]
    }
}

/// The steps of starting a player: move to the start, show, enable collision.
pub open spec fn start_actions() -> Seq<PlayerAction> {
    seq![PlayerAction::PlaceAtStart, PlayerAction::Show, PlayerAction::EnableCollision]
}

/// The direction that the pressed movement keys add up to.
pub fn direction(input: MoveInput) -> (d: Direction)
    ensures
        d == spec_direction(input),
        -1 <= d.x <= 1,
        -1 <= d.y <= 1,
{
    let mut x: i8 = 0;
    let mut y: i8 = 0;
    if input.up {
        y = y - 1;
    }
    if input.right {
        x = x + 1;
    }
    if input.down {
        y = y + 1;
    }
    if input.left {
        x = x - 1;
    }
    Direction { x, y }
}

/// The sprite update for a direction.
pub fn sprite_update(d: Direction) -> (u: SpriteUpdate)
    ensures
        u == spec_sprite_update(d),
{
    if d.y != 0 {
        SpriteUpdate {
            playing: true,
            animation: Some(SpriteAnimation::Up),
            flip_v: Some(d.y > 0),
            flip_h: None,
        }
    } else if d.x != 0 {
        SpriteUpdate {
            playing: true,
            animation: Some(SpriteAnimation::Walk),
            flip_v: Some(false),
            flip_h: Some(d.x < 0),
        }
    } else {
        SpriteUpdate { playing: false, animation: None, flip_v: None, flip_h: None }
    }
}

impl Player {
    /// A new player: no death sound, shown, able to collide.
    pub fn new() -> (p: Player)
        ensures
            p@.death_sound is None,
            p@.visible,
            p@.collision_enabled,
    {
        Player { death_sound: None, visible: true, collision_enabled: true }
    }

    /// Records the path of the death sound.
    pub fn set_death_sound(&mut self, path: String)
        ensures
            final(self)@ == (PlayerView { death_sound: Some(path@), ..old(self)@ }),
    {
        self.death_sound = Some(path);
    }

    /// What one frame of input decides; the player moves exactly when the
    /// keys do not cancel out.
    pub fn process(&self, input: MoveInput) -> (f: FrameDecision)
        ensures
            f.direction == spec_direction(input),
            f.moving == (f.direction.x != 0 || f.direction.y != 0),
            f.sprite == spec_sprite_update(f.direction),
    {
        let d = direction(input);
        let moving = d.x != 0 || d.y != 0;
        FrameDecision { direction: d, moving, sprite: sprite_update(d) }
    }

    /// Readies the player: it is hidden until the game starts.
    pub fn ready(&mut self) -> (acts: Vec<PlayerAction>)
        ensures
            acts@ == ready_actions(old(self)@.death_sound is Some),
            final(self)@ == ready_view(old(self)@),
    {
        let mut acts: Vec<PlayerAction> = Vec::new();
        if self.death_sound.is_some() {
            acts.push(PlayerAction::AddDeathSound);
        }
        acts.push(PlayerAction::Hide);
        self.visible = false;
        proof {
            assert(acts@ =~= ready_actions(old(self)@.death_sound is Some));
        }
        acts
    }

    /// A body entered the player: it is hidden, plays its death sound where
    /// it has one, reports the hit, and stops colliding.
    pub fn on_body_entered(&mut self) -> (acts: Vec<PlayerAction>)
        ensures
            acts@ == hit_actions(old(self)@.death_sound is Some),
            final(self)@ == hit_view(old(self)@),
    {
        let mut acts: Vec<PlayerAction> = Vec::new();
        acts.push(PlayerAction::Hide);
        if self.death_sound.is_some() {
            acts.push(PlayerAction::PlayDeathSound);
        }
        acts.push(PlayerAction::EmitHit);
        acts.push(PlayerAction::DisableCollisionDeferred);
        self.visible = false;
        self.collision_enabled = false;
        proof {
            assert(acts@ =~= hit_actions(old(self)@.death_sound is Some));
        }
        acts
    }

    /// Starts the player at the start position: shown and able to collide.
    pub fn start(&mut self) -> (acts: Vec<PlayerAction>)
        ensures
            acts@ == start_actions(),
            final(self)@ == start_view(old(self)@),
    {
        let mut acts: Vec<PlayerAction> = Vec::new();
        acts.push(PlayerAction::PlaceAtStart);
        acts.push(PlayerAction::Show);
        acts.push(PlayerAction::EnableCollision);
        self.visible = true;
        self.collision_enabled = true;
        proof {
            assert(acts@ =~= start_actions());
        }
        acts
    }
}

/// Opposite keys cancel: up with down gives no vertical movement, left
/// with right no horizontal one; a single key of an axis moves one step
/// that way.
pub proof fn lemma_opposite_keys_cancel(input: MoveInput)
    ensures
        input.up == input.down ==> spec_direction(input).y == 0,
        input.left == input.right ==> spec_direction(input).x == 0,
        input.up && !input.down ==> spec_direction(input).y == -1,
        input.down && !input.up ==> spec_direction(input).y == 1,
        input.left && !input.right ==> spec_direction(input).x == -1,
        input.right && !input.left ==> spec_direction(input).x == 1,
{
}

/// The sprite plays exactly when the player moves, and the animation
/// follows the direction: "up" whenever there is vertical movement, "walk"
/// for purely horizontal movement.
pub proof fn lemma_sprite_follows_direction(input: MoveInput)
    ensures
        ({
            let d = spec_direction(input);
            let u = spec_sprite_update(d);
            &&& u.playing == (d.x != 0 || d.y != 0)
            &&& d.y != 0 ==> u.animation == Some(SpriteAnimation::Up) && u.flip_v == Some(
                input.down,
            )
            &&& d.y == 0 && d.x != 0 ==> u.animation == Some(SpriteAnimation::Walk) && u.flip_h
                == Some(input.left)
            &&& !u.playing ==> u.animation is None
        }),
{
}

/// A hit emits "hit" exactly once, and the death sound plays exactly when
/// the player has one.
pub proof fn lemma_hit_reported_once(has_sound: bool)
    ensures
        hit_actions(has_sound).contains(PlayerAction::EmitHit),
        forall|i: int, j: int|
            0 <= i < hit_actions(has_sound).len() && 0 <= j < hit_actions(has_sound).len()
                && #[trigger] hit_actions(has_sound)[i] == PlayerAction::EmitHit
                && #[trigger] hit_actions(has_sound)[j] == PlayerAction::EmitHit ==> i == j,
        hit_actions(has_sound).contains(PlayerAction::PlayDeathSound) <==> has_sound,
{
    let a = hit_actions(has_sound);
    if has_sound {
        assert(a[2] == PlayerAction::EmitHit);
        assert(a[1] == PlayerAction::PlayDeathSound);
    } else {
        assert(a[1] == PlayerAction::EmitHit);
        if a.contains(PlayerAction::PlayDeathSound) {
            let i = choose|i: int| 0 <= i < a.len() && a[i] == PlayerAction::PlayDeathSound;
            assert(false);
        }
    }
}

/// A round of the player: readied it is hidden; started it is shown and
/// collides; hit it is hidden and stops colliding until it is started
/// again, and its death sound is kept throughout.
pub proof fn lemma_player_round(v: PlayerView)
    ensures
        !ready_view(v).visible,
        start_view(ready_view(v)).visible && start_view(ready_view(v)).collision_enabled,
        !hit_view(start_view(v)).visible && !hit_view(start_view(v)).collision_enabled,
        start_view(hit_view(v)).visible && start_view(hit_view(v)).collision_enabled,
        hit_view(start_view(ready_view(v))).death_sound == v.death_sound,
{
}

/// Readying adds the death sound exactly when there is one and hides the
/// player exactly once; it reports no hit and leaves collision alone.
pub proof fn lemma_ready_only_prepares(has_sound: bool)
    ensures
        ready_actions(has_sound).contains(PlayerAction::AddDeathSound) <==> has_sound,
        ready_actions(has_sound).contains(PlayerAction::Hide),
        forall|i: int|
            0 <= i < ready_actions(has_sound).len() ==> {
                let a = #[trigger] ready_actions(has_sound)[i];
                a == PlayerAction::AddDeathSound || a == PlayerAction::Hide
            },
        ready_actions(has_sound).last() == PlayerAction::Hide,
{
    let a = ready_actions(has_sound);
    if has_sound {
        assert(a[0] == PlayerAction::AddDeathSound);
        assert(a[1] == PlayerAction::Hide);
    } else {
        assert(a[0] == PlayerAction::Hide);
        if a.contains(PlayerAction::AddDeathSound) {
            let i = choose|i: int| 0 <= i < a.len() && a[i] == PlayerAction::AddDeathSound;
            assert(false);
        }
    }
}

/// Starting places the player at the start first, then shows it and
/// enables its collision; it reports no hit and plays no sound.
pub proof fn lemma_start_only_places_and_shows()
    ensures
        start_actions().len() == 3,
        start_actions()[0] == PlayerAction::PlaceAtStart,
        start_actions().contains(PlayerAction::Show),
        start_actions().contains(PlayerAction::EnableCollision),
        !start_actions().contains(PlayerAction::EmitHit),
        !start_actions().contains(PlayerAction::Hide),
{
    let a = start_actions();
    assert(a[1] == PlayerAction::Show);
    assert(a[2] == PlayerAction::EnableCollision);
    if a.contains(PlayerAction::EmitHit) {
        let i = choose|i: int| 0 <= i < a.len() && a[i] == PlayerAction::EmitHit;
        assert(false);
    }
    if a.contains(PlayerAction::Hide) {
        let i = choose|i: int| 0 <= i < a.len() && a[i] == PlayerAction::Hide;
        assert(false);
    }
}

/// A hit hides the player and disables its collision after the physics
/// step, and asks for nothing but that, the death sound and the report;
/// it never shows the player or enables its collision.
pub proof fn lemma_hit_only_ends(has_sound: bool)
    ensures
        hit_actions(has_sound).contains(PlayerAction::Hide),
        hit_actions(has_sound).contains(PlayerAction::DisableCollisionDeferred),
        forall|i: int|
            0 <= i < hit_actions(has_sound).len() ==> {
                let a = #[trigger] hit_actions(has_sound)[i];
                a == PlayerAction::Hide || a == PlayerAction::PlayDeathSound || a
                    == PlayerAction::EmitHit || a == PlayerAction::DisableCollisionDeferred
            },
{
    let a = hit_actions(has_sound);
    assert(a[0] == PlayerAction::Hide);
    assert(a.last() == PlayerAction::DisableCollisionDeferred);
    assert(a[a.len() - 1] == PlayerAction::DisableCollisionDeferred);
}

} // verus!
