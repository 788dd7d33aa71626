//! The player's character: where it faces, how it is drawn, what its kick
//! does.

use vstd::prelude::*;
use crate::consts::PLAYER_HEALTH;
use crate::consts::PLAYER_IDLE_ANIM_OFFSET;
use crate::consts::PLAYER_KICK_DAMAGE;
use crate::consts::PLAYER_KICK_FORCE;
use crate::consts::PLAYER_KICK_HITSTUN_SECS;
use crate::consts::PLAYER_SPEED;
use crate::consts::PLAYER_WALK_ANIM_FRAMES;
use crate::consts::PLAYER_WALK_ANIM_OFFSET;
use crate::entity_set::EntityId;
use crate::geometry::Vector;
use crate::health::Health;
use crate::health::HealthChange;
use crate::hitbox::ImpulseRequest;
use crate::hitbox::Push;
use crate::hitstun::HitstunTimer;
use crate::potion::Primitives;
use crate::timer::Timer;
use crate::units::scale;
use crate::Element;

verus! {

/// Marks the entity that the player steers.
#[derive(Clone, Copy, Debug, PartialEq, Eq, Structural)]
pub struct Player;

/// The direction asked for by the keys: each coordinate is -1, 0 or 1.
#[derive(Clone, Copy, Debug, PartialEq, Eq, Structural)]
pub struct InputDirection {
    pub x: i8,
    pub y: i8,
}

/// The direction the character last walked in.
#[derive(Clone, Copy, Debug, PartialEq, Eq, Structural)]
pub struct PlayerDirection {
    pub x: i8,
    pub y: i8,
}

/// The state of the two keys of one axis in one tick.
#[derive(Clone, Copy, Debug, PartialEq, Eq, Structural)]
pub struct AxisKeys {
    pub negative_pressed: bool,
    pub positive_pressed: bool,
    pub negative_released: bool,
    pub positive_released: bool,
    pub negative_held: bool,
    pub positive_held: bool,
}

/// The value of an axis after the keys of one tick.
///
/// The key pressed last wins, so that holding both never stops the
/// character. When a key is released, the other takes over if it is held.
pub open spec fn axis_after(value: i8, keys: AxisKeys) -> i8 {
    let a: i8 = if keys.negative_pressed {
        -1i8
    } else {
        value
    };
    let b: i8 = if keys.positive_pressed {
        1
    } else {
        a
    };
    let c: i8 = if keys.negative_released {
        if keys.positive_held {
            1
        } else {
            0
        }
    } else {
        b
    };
    if keys.positive_released {
        if keys.negative_held {
            -1i8
        } else {
            0
        }
    } else {
        c
    }
}

/// Computes [`axis_after`].
pub fn resolve_axis(value: i8, keys: &AxisKeys) -> (r: i8)
    ensures
        r == axis_after(value, *keys),
{
    let mut v: i8 = value;
    if keys.negative_pressed {
        v = -1;
    }
    if keys.positive_pressed {
        v = 1;
    }
    if keys.negative_released {
        v = if keys.positive_held { 1 } else { 0 };
    }
    if keys.positive_released {
        v = if keys.negative_held { -1 } else { 0 };
    }
    v
}

/// The simulation state with which the player enters a level.
#[derive(Clone, Copy, Debug, PartialEq, Eq, Structural)]
pub struct PlayerBundle {
    pub hitstun: HitstunTimer,
    pub health: Health,
    pub anim_timer: Timer,
}

impl PlayerBundle {
    /// Creates the player: at full health, not stunned.
    pub fn bundle_entity() -> (b: PlayerBundle)
        ensures
            b == (PlayerBundle {
                hitstun: HitstunTimer(Timer::fresh(0, false)),
                health: Health { current: PLAYER_HEALTH, max: PLAYER_HEALTH },
                anim_timer: Timer::fresh(250_000_000, true),
            }),
    {
        PlayerBundle {
            hitstun: HitstunTimer(Timer::new(0, false)),
            health: Health::new(PLAYER_HEALTH),
            anim_timer: Timer::new(250_000_000, true),
        }
    }
}

/// Moves the character as the keys ask.
///
/// The keys always update the input direction. A stunned character does
/// not move: the result is `None`. Otherwise the result is the speed at
/// which to walk along the input direction, and a direction other than
/// zero becomes the one the character faces.
pub fn movement(
    input: &mut InputDirection,
    facing: &mut PlayerDirection,
    horizontal: &AxisKeys,
    vertical: &AxisKeys,
    hitstun: &HitstunTimer,
) -> (speed: Option<i64>)
    ensures
        final(input).x == axis_after(old(input).x, *horizontal),
        final(input).y == axis_after(old(input).y, *vertical),
        speed == (if hitstun.0.finished {
            Some(PLAYER_SPEED)
        } else {
            None
        }),
        *final(facing) == (if hitstun.0.finished && (final(input).x != 0 || final(input).y != 0) {
            PlayerDirection { x: final(input).x, y: final(input).y }
        } else {
            *old(facing)
        }),
{
    input.x = resolve_axis(input.x, horizontal);
    input.y = resolve_axis(input.y, vertical);
    if !hitstun.0.finished() {
        return None;
    }
    if input.x != 0 || input.y != 0 {
        facing.x = input.x;
        facing.y = input.y;
    }
    Some(PLAYER_SPEED)
}

/// The row of the sprite sheet for a facing: up, right, left, down, in
/// this order of precedence. A facing of zero has no row.
pub open spec fn facing_row(facing: PlayerDirection) -> Option<int> {
    if facing.y == 1 {
        Some(0)
    } else if facing.x == 1 {
        Some(1)
    } else if facing.x == -1 {
        Some(2)
    } else if facing.y == -1 {
        Some(3)
    } else {
        None
    }
}

/// Computes [`facing_row`].
pub fn row_of(facing: &PlayerDirection) -> (row: Option<usize>)
    ensures
        match row {
            Some(r) => facing_row(*facing) == Some(r as int),
            None => facing_row(*facing) is None,
        },
{
    if facing.y == 1 {
        Some(0)
    } else if facing.x == 1 {
        Some(1)
    } else if facing.x == -1 {
        Some(2)
    } else if facing.y == -1 {
        Some(3)
    } else {
        None
    }
}

/// The frame with which the character starts to stand or to walk in the
/// direction it faces.
pub open spec fn pose_frame(facing: PlayerDirection, walking: bool, index: int) -> int {
    match facing_row(facing) {
        Some(row) => if walking {
            PLAYER_WALK_ANIM_OFFSET + PLAYER_WALK_ANIM_FRAMES * row
        } else {
            PLAYER_IDLE_ANIM_OFFSET + row
        },
        None => index,
    }
}

/// The next frame of the walk in the direction the character faces.
pub open spec fn stride_frame(facing: PlayerDirection, index: int) -> int {
    match facing_row(facing) {
        Some(row) => PLAYER_WALK_ANIM_OFFSET + PLAYER_WALK_ANIM_FRAMES * row + (index
            - PLAYER_WALK_ANIM_OFFSET + 1) % (PLAYER_WALK_ANIM_FRAMES as int),
        None => index,
    }
}

/// Sets the frame for the character's pose.
pub fn update_player_spawn(sprite_index: &mut usize, facing: &PlayerDirection, walking: bool)
    ensures
        *final(sprite_index) == pose_frame(*facing, walking, *old(sprite_index) as int),
{
    match row_of(facing) {
        Some(row) => {
            *sprite_index = if walking {
                PLAYER_WALK_ANIM_OFFSET + PLAYER_WALK_ANIM_FRAMES * row
            } else {
                PLAYER_IDLE_ANIM_OFFSET + row
            };
        },
        None => {},
    }
}

/// Advances the character's animation by one tick.
///
/// A change of the input sets the pose. While the character walks, its
/// timer runs, `delta` being the scaled length of the tick, and each time
/// it completes the walk goes on by one frame. The frame must not lie
/// before the walk's first one when that happens.
pub fn animate(
    sprite_index: &mut usize,
    timer: &mut Timer,
    facing: &PlayerDirection,
    walking: bool,
    input_changed: bool,
    delta: u64,
)
    requires
        input_changed || !walking || *old(sprite_index) >= PLAYER_WALK_ANIM_OFFSET,
    ensures
        *final(timer) == (if walking {
            old(timer).ticked(delta)
        } else {
            *old(timer)
        }),
        *final(sprite_index) == ({
            let posed = if input_changed {
                pose_frame(*facing, walking, *old(sprite_index) as int)
            } else {
                *old(sprite_index) as int
            };
            if walking && final(timer).times_finished > 0 {
                stride_frame(*facing, posed)
            } else {
                posed
            }
        }),
{
    if input_changed {
        update_player_spawn(sprite_index, facing, walking);
    }
    if walking {
        timer.tick(delta);
        if timer.just_finished() {
            match row_of(facing) {
                Some(row) => {
                    if *sprite_index >= PLAYER_WALK_ANIM_OFFSET {
                        let step: u128 = ((*sprite_index - PLAYER_WALK_ANIM_OFFSET) as u128 + 1) % (
                        PLAYER_WALK_ANIM_FRAMES as u128);
                        *sprite_index = PLAYER_WALK_ANIM_OFFSET + PLAYER_WALK_ANIM_FRAMES * row
                            + step as usize;
                    }
                },
                None => {},
            }
        }
    }
}

/// What a kick that lands does.
#[derive(Clone, Copy, Debug, PartialEq, Eq, Structural)]
pub struct Kicked {
    pub target: EntityId,
    /// The direction of the kick, a vector of length one.
    pub direction: Vector,
}

/// The damage of a kick that landed on `target`.
pub fn kick(target: EntityId, direction: Vector) -> (r: (Kicked, HealthChange))
    ensures
        r.0 == (Kicked { target, direction }),
        r.1 == (HealthChange { target, amount: PLAYER_KICK_DAMAGE }),
{
    (Kicked { target, direction }, HealthChange { target, amount: PLAYER_KICK_DAMAGE })
}

/// Lets a kick act on the agent it landed on: the agent is thrown along
/// the kick, stunned, and drops an essence of its element.
pub fn handle_kick(kicked: &Kicked, element: Element, hitstun: &mut HitstunTimer) -> (r: (
    ImpulseRequest,
    Element,
))
    ensures
        r.0 == (ImpulseRequest {
            target: kicked.target,
            push: Push::Directed {
                impulse: Primitives::push_along(PLAYER_KICK_FORCE, kicked.direction),
            },
        }),
        r.1 == element,
        *final(hitstun) == old(hitstun).stunned_for(PLAYER_KICK_HITSTUN_SECS),
{
    hitstun.stun(PLAYER_KICK_HITSTUN_SECS);
    (
        ImpulseRequest {
            target: kicked.target,
            push: Push::Directed {
                impulse: Vector {
                    x: scale(kicked.direction.x, PLAYER_KICK_FORCE),
                    y: scale(kicked.direction.y, PLAYER_KICK_FORCE),
                },
            },
        },
        element,
    )
}

} // verus!
