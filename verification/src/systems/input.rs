//! What the keyboard does in each phase of the game. The keyboard is the
//! engine's own record of the keys, read and changed through a few calls.

use vstd::prelude::*;
use bevy::input::keyboard::KeyCode;
use bevy::input::Input;
use std::collections::HashMap;
use std::hash::Hash;
use crate::effects::{EntityEffect, EntityEffectDescriptor, EntityEffects, SpeedBoost};
use crate::game::{may_follow, GameState};
use crate::player::{self, Player, PlayerMovementState};
use crate::world::Velocity;

verus! {

/// The engine's record of what is held down and of what went down in the
/// current tick.
#[verifier::external_type_specification]
#[verifier::external_body]
#[verifier::reject_recursive_types(T)]
pub struct ExKeyRecord<T: Copy + Eq + Hash + Send + Sync + 'static>(bevy::input::Input<T>);

/// The engine's name for a key.
#[verifier::external_type_specification]
#[verifier::external_body]
pub struct ExKeyName(bevy::input::keyboard::KeyCode);

/// The keys that are held down, each by the number that the engine gives it.
pub uninterp spec fn keys_pressed(input: Input<KeyCode>) -> Set<u32>;

/// The keys that went down in the current tick, each by the number that the
/// engine gives it.
pub uninterp spec fn keys_just_pressed(input: Input<KeyCode>) -> Set<u32>;

/// The keys that the game reads.
#[derive(Clone, Copy, Debug, PartialEq, Eq, Structural)]
pub enum Key {
    /// Starts a game from the menu, and jumps.
    Space,
    /// Jumps.
    Up,
    /// Walks to the left.
    Left,
    /// Walks to the right.
    Right,
    /// Starts the game over.
    R,
    /// Pauses the game and lets it go on.
    P,
    /// Pauses the game and lets it go on.
    Escape,
}

impl Key {
    /// The number that the engine gives the key: its place among the
    /// engine's names for keys.
    pub open spec fn spec_code(self) -> u32 {
        match self {
            Key::Space => 76,
            Key::Up => 71,
            Key::Left => 70,
            Key::Right => 72,
            Key::R => 27,
            Key::P => 25,
            Key::Escape => 36,
        }
    }

    /// The number that the engine gives the key.
    #[verifier::when_used_as_spec(spec_code)]
    pub fn code(self) -> (code: u32)
        ensures
            code == self.spec_code(),
    {
        match self {
            Key::Space => 76,
            Key::Up => 71,
            Key::Left => 70,
            Key::Right => 72,
            Key::R => 27,
            Key::P => 25,
            Key::Escape => 36,
        }
    }
}

/// Two presses of one key within this many milliseconds are a double tap.
pub const DOUBLE_TAP_TIME: u64 = 500;

/// How many times faster a double tap makes the player.
pub const DOUBLE_TAP_BOOST: i32 = 3;

/// How long the boost of a double tap lasts, in milliseconds.
pub const DOUBLE_TAP_BOOST_TIME: u64 = 150;

/// Asks `bevy::input::Input::pressed` whether a key is held down.
///
/// The source shows that it looks the key up among the keys held down. The
/// key is handed over by the variant of `bevy::input::keyboard::KeyCode` of
/// the same name, whose place among the variants is `key.spec_code()`.
#[verifier::external_body]
fn is_pressed(input: &Input<KeyCode>, key: Key) -> (down: bool)
    ensures
        down == keys_pressed(*input).contains(key.spec_code()),
{
    input.pressed(match key {
        Key::Space => KeyCode::Space,
        Key::Up => KeyCode::Up,
        Key::Left => KeyCode::Left,
        Key::Right => KeyCode::Right,
        Key::R => KeyCode::R,
        Key::P => KeyCode::P,
        Key::Escape => KeyCode::Escape,
    })
}

/// Asks `bevy::input::Input::just_pressed` whether a key went down in the
/// current tick.
///
/// The source shows that it looks the key up among the keys that went down
/// in the current tick. The key is handed over as in `is_pressed`.
#[verifier::external_body]
fn is_just_pressed(input: &Input<KeyCode>, key: Key) -> (down: bool)
    ensures
        down == keys_just_pressed(*input).contains(key.spec_code()),
{
    input.just_pressed(match key {
        Key::Space => KeyCode::Space,
        Key::Up => KeyCode::Up,
        Key::Left => KeyCode::Left,
        Key::Right => KeyCode::Right,
        Key::R => KeyCode::R,
        Key::P => KeyCode::P,
        Key::Escape => KeyCode::Escape,
    })
}

/// Takes a key off the keyboard with `bevy::input::Input::reset`.
///
/// The source shows that it removes the key from the keys held down and
/// from those that went down in the current tick, and no other key. The key
/// is handed over as in `is_pressed`.
#[verifier::external_body]
fn reset_key(input: &mut Input<KeyCode>, key: Key)
    ensures
        keys_pressed(*final(input)) == keys_pressed(*old(input)).remove(key.spec_code()),
        keys_just_pressed(*final(input)) == keys_just_pressed(*old(input)).remove(
            key.spec_code(),
        ),
{
    input.reset(match key {
        Key::Space => KeyCode::Space,
        Key::Up => KeyCode::Up,
        Key::Left => KeyCode::Left,
        Key::Right => KeyCode::Right,
        Key::R => KeyCode::R,
        Key::P => KeyCode::P,
        Key::Escape => KeyCode::Escape,
    })
}

/// The key that `bevy::input::Input::get_just_pressed` hands out last, by
/// the number that the engine gives it.
///
/// The source shows that the keys that went down in the current tick are
/// handed out one by one, in no order that could be told beforehand. So the
/// last one is one of them, and there is none only if no key went down.
#[verifier::external_body]
fn last_just_pressed(input: &Input<KeyCode>) -> (code: Option<u32>)
    ensures
        code matches Some(c) ==> keys_just_pressed(*input).contains(c),
        code is None ==> keys_just_pressed(*input) == Set::<u32>::empty(),
{
    input.get_just_pressed().last().map(|key| *key as u32)
}

/// What the keyboard shows in one tick, keys given by their numbers.
pub struct Keys {
    /// The keys that are held down.
    pub pressed: Set<u32>,
    /// The keys that went down in this tick.
    pub just_pressed: Set<u32>,
}

/// What a keyboard shows.
pub open spec fn keys_of(input: Input<KeyCode>) -> Keys {
    Keys { pressed: keys_pressed(input), just_pressed: keys_just_pressed(input) }
}

impl Keys {
    /// The keyboard after a key is taken off it.
    pub open spec fn reset(self, key: Key) -> Keys {
        Keys {
            pressed: self.pressed.remove(key.spec_code()),
            just_pressed: self.just_pressed.remove(key.spec_code()),
        }
    }

    /// Whether a key asks to start over.
    pub open spec fn restart_requested(self) -> bool {
        self.just_pressed.contains(Key::R.spec_code())
    }

    /// Whether a key asks for a pause or for its end.
    pub open spec fn pause_requested(self) -> bool {
        self.just_pressed.contains(Key::Escape.spec_code()) || self.just_pressed.contains(
            Key::P.spec_code(),
        )
    }

    /// Whether a key asks for a jump.
    pub open spec fn jump_requested(self) -> bool {
        self.pressed.contains(Key::Up.spec_code()) || self.pressed.contains(
            Key::Space.spec_code(),
        )
    }

    /// The keyboard after a request to start over or to pause has been
    /// taken off it: the restart key if it went down, else both pause keys
    /// if one of them did.
    pub open spec fn commands_consumed(self) -> Keys {
        if self.restart_requested() {
            self.reset(Key::R)
        } else if self.pause_requested() {
            self.reset(Key::P).reset(Key::Escape)
        } else {
            self
        }
    }
}

/// Remembers when each key went down last, and which key did so last.
pub struct InputTracker {
    pub last_press_time: HashMap<u32, u64>,
    pub last_pressed: Option<u32>,
}

/// What the tracker remembers, as a value.
pub struct InputTrackerView {
    pub last_press_time: Map<u32, u64>,
    pub last_pressed: Option<u32>,
}

impl View for InputTracker {
    type V = InputTrackerView;

    open spec fn view(&self) -> InputTrackerView {
        InputTrackerView {
            last_press_time: self.last_press_time@,
            last_pressed: self.last_pressed,
        }
    }
}

impl InputTrackerView {
    /// Whether a press of `key` at the time `now` is the second press of a
    /// double tap: the key was also the last one to go down, less than
    /// `DOUBLE_TAP_TIME` milliseconds before.
    pub open spec fn double_tapped(self, key: u32, now: u64) -> bool {
        &&& self.last_pressed == Some(key)
        &&& self.last_press_time.contains_key(key)
        &&& now - self.last_press_time[key] < DOUBLE_TAP_TIME
    }

    /// What the tracker remembers after a press of `key` at the time `now`.
    pub open spec fn pressed(self, key: u32, now: u64) -> InputTrackerView {
        InputTrackerView {
            last_press_time: self.last_press_time.insert(key, now),
            last_pressed: Some(key),
        }
    }
}

impl InputTracker {
    /// A tracker that remembers nothing.
    pub fn new() -> (tracker: InputTracker)
        ensures
            tracker@ == (InputTrackerView { last_press_time: Map::empty(), last_pressed: None }),
    {
        InputTracker { last_press_time: HashMap::new(), last_pressed: None }
    }

    /// Takes note of a press of `key` at the time `now` and says whether it
    /// was the second press of a double tap.
    pub fn press(&mut self, key: u32, now: u64) -> (double_tap: bool)
        ensures
            double_tap == old(self)@.double_tapped(key, now),
            final(self)@ == old(self)@.pressed(key, now),
    {
        broadcast use vstd::std_specs::hash::group_hash_axioms;

        let mut double_tap: bool = false;
        if self.last_pressed == Some(key) {
            if let Some(last_press_time) = self.last_press_time.get(&key) {
                if (now as i128) - (*last_press_time as i128) < DOUBLE_TAP_TIME as i128 {
                    double_tap = true;
                }
            }
        }
        self.last_press_time.insert(key, now);
        self.last_pressed = Some(key);
        double_tap
    }
}

/// The boost that a double tap gives.
pub open spec fn double_tap_boost() -> EntityEffectDescriptor {
    EntityEffectDescriptor {
        effect: EntityEffect::SpeedBoost(
            SpeedBoost { boost: crate::world::Vector2 { x: DOUBLE_TAP_BOOST, y: 1 } },
        ),
        duration: crate::effects::EffectDuration::Temporary(DOUBLE_TAP_BOOST_TIME),
    }
}

/// Whether the player stands or runs, and so can be steered.
pub open spec fn can_steer(player: Player) -> bool {
    player.movement_state == PlayerMovementState::Staying || player.movement_state
        == PlayerMovementState::Running
}

/// The velocity of a steered player: a jump sets the vertical velocity, then
/// the left key and then the right key set the horizontal one.
pub open spec fn steered(velocity: Velocity, keys: Keys) -> Velocity {
    let jumped = if keys.jump_requested() {
        velocity.vertical_set(player::VELOCITY_ON_JUMP)
    } else {
        velocity
    };
    let left = if keys.pressed.contains(Key::Left.spec_code()) {
        jumped.horizontal_set((-player::MOVEMENT_VELOCITY) as i32)
    } else {
        jumped
    };
    if keys.pressed.contains(Key::Right.spec_code()) {
        left.horizontal_set(player::MOVEMENT_VELOCITY)
    } else {
        left
    }
}

/// In the start menu, the space key starts a game. The key is taken off the
/// keyboard. In any other phase nothing changes.
pub fn start_menu_input(input: &mut Input<KeyCode>, state: &mut GameState)
    ensures
        *final(state) == *old(state) || may_follow(*old(state), *final(state)),
        *old(state) == GameState::StartMenu && keys_pressed(*old(input)).contains(
            Key::Space.spec_code(),
        ) ==> {
            &&& *final(state) == GameState::Starting
            &&& keys_of(*final(input)) == keys_of(*old(input)).reset(Key::Space)
        },
        !(*old(state) == GameState::StartMenu && keys_pressed(*old(input)).contains(
            Key::Space.spec_code(),
        )) ==> {
            &&& *final(state) == *old(state)
            &&& *final(input) == *old(input)
        },
{
    if *state == GameState::StartMenu && is_pressed(input, Key::Space) {
        reset_key(input, Key::Space);
        *state = GameState::Starting;
    }
}

/// Takes a request to start over or to pause off the keyboard and says what
/// was asked: `Some(true)` to start over, `Some(false)` to pause or to go
/// on, `None` for neither. Starting over wins over a pause.
fn take_command(input: &mut Input<KeyCode>) -> (command: Option<bool>)
    ensures
        keys_of(*final(input)) == keys_of(*old(input)).commands_consumed(),
        command is None ==> *final(input) == *old(input),
        command == if keys_of(*old(input)).restart_requested() {
            Some(true)
        } else if keys_of(*old(input)).pause_requested() {
            Some(false)
        } else {
            None
        },
{
    if is_just_pressed(input, Key::R) {
        reset_key(input, Key::R);
        Some(true)
    } else if is_just_pressed(input, Key::Escape) || is_just_pressed(input, Key::P) {
        reset_key(input, Key::P);
        reset_key(input, Key::Escape);
        Some(false)
    } else {
        None
    }
}

/// The phase that follows a running game after the keyboard has been read.
pub open spec fn running_state_after(keys: Keys) -> GameState {
    if keys.restart_requested() {
        GameState::Starting
    } else if keys.pause_requested() {
        GameState::Paused
    } else {
        GameState::Running
    }
}

/// The phase that follows a paused game after the keyboard has been read.
pub open spec fn paused_state_after(keys: Keys) -> GameState {
    if keys.restart_requested() {
        GameState::Starting
    } else if keys.pause_requested() {
        GameState::Running
    } else {
        GameState::Paused
    }
}

/// Reads the requests to start over and to pause while the game is running.
/// In any other phase nothing changes.
///
/// The restart key starts the game over; else a pause key pauses it. The key
/// that did so is taken off the keyboard.
pub fn running_commands(input: &mut Input<KeyCode>, state: &mut GameState)
    ensures
        *final(state) == *old(state) || may_follow(*old(state), *final(state)),
        *old(state) != GameState::Running ==> {
            &&& *final(state) == *old(state)
            &&& *final(input) == *old(input)
        },
        *old(state) == GameState::Running ==> {
            &&& *final(state) == running_state_after(keys_of(*old(input)))
            &&& keys_of(*final(input)) == keys_of(*old(input)).commands_consumed()
        },
{
    if *state != GameState::Running {
        return;
    }
    match take_command(input) {
        Some(true) => {
            *state = GameState::Starting;
        },
        Some(false) => {
            *state = GameState::Paused;
        },
        None => {},
    }
}

/// Whether tracker and effects are what a press leaves: the tracker has
/// taken note of the key, and a double tap has added its boost. Without a
/// press both are what they were.
pub open spec fn press_noted(
    tracker: InputTrackerView,
    effects: Seq<EntityEffectDescriptor>,
    key: Option<u32>,
    now: u64,
    tracker_after: InputTrackerView,
    effects_after: Seq<EntityEffectDescriptor>,
) -> bool {
    match key {
        Some(key) => {
            &&& tracker_after == tracker.pressed(key, now)
            &&& effects_after == if tracker.double_tapped(key, now) {
                effects.push(double_tap_boost())
            } else {
                effects
            }
        },
        None => {
            &&& tracker_after == tracker
            &&& effects_after == effects
        },
    }
}

/// Whether tracker and effects are what the keys that went down in a tick
/// leave: a press of one of them is noted, and none if there is none.
pub open spec fn some_press_noted(
    just_pressed: Set<u32>,
    tracker: InputTrackerView,
    effects: Seq<EntityEffectDescriptor>,
    now: u64,
    tracker_after: InputTrackerView,
    effects_after: Seq<EntityEffectDescriptor>,
) -> bool {
    if just_pressed == Set::<u32>::empty() {
        press_noted(tracker, effects, None, now, tracker_after, effects_after)
    } else {
        exists|key: u32| #[trigger]
            just_pressed.contains(key) && press_noted(
                tracker,
                effects,
                Some(key),
                now,
                tracker_after,
                effects_after,
            )
    }
}

/// Steers a player by the keys that are held down and by the key, if any,
/// that went down last.
///
/// A player that stands or runs is steered: a jump key makes it jump, the
/// left and right keys make it walk. The tracker takes note of the key that
/// went down last, and a double tap gives the player a boost. A player in
/// the air is not steered, and its presses are not noted.
pub fn steer_with(
    now: u64,
    input: &Input<KeyCode>,
    just_pressed: Option<u32>,
    input_tracker: &mut InputTracker,
    player: &mut Player,
    velocity: &mut Velocity,
    effects: &mut EntityEffects,
)
    ensures
        final(player).health == old(player).health,
        final(player).max_health == old(player).max_health,
        !can_steer(*old(player)) ==> {
            &&& final(input_tracker)@ == old(input_tracker)@
            &&& *final(player) == *old(player)
            &&& *final(velocity) == *old(velocity)
            &&& final(effects)@ == old(effects)@
        },
        can_steer(*old(player)) ==> {
            &&& final(player).movement_state == if keys_of(*input).jump_requested() {
                PlayerMovementState::Jumping
            } else {
                old(player).movement_state
            }
            &&& *final(velocity) == steered(*old(velocity), keys_of(*input))
            &&& press_noted(
                old(input_tracker)@,
                old(effects)@,
                just_pressed,
                now,
                final(input_tracker)@,
                final(effects)@,
            )
        },
{
    match player.movement_state {
        PlayerMovementState::Staying | PlayerMovementState::Running => {
            if is_pressed(input, Key::Up) || is_pressed(input, Key::Space) {
                player.movement_state = PlayerMovementState::Jumping;
                velocity.set_vertical(player::VELOCITY_ON_JUMP);
            }
            if is_pressed(input, Key::Left) {
                velocity.set_horizontal(-player::MOVEMENT_VELOCITY);
            }
            if is_pressed(input, Key::Right) {
                velocity.set_horizontal(player::MOVEMENT_VELOCITY);
            }
            if let Some(key) = just_pressed {
                if input_tracker.press(key, now) {
                    let boost = SpeedBoost::horizontal(DOUBLE_TAP_BOOST);
                    effects.active.push(
                        EntityEffectDescriptor::new_temporary(
                            EntityEffect::SpeedBoost(boost),
                            DOUBLE_TAP_BOOST_TIME,
                        ),
                    );
                }
            }
        },
        _ => {},
    }
}

/// Steers a player by the keyboard.
///
/// The player is steered by the keys that are held down and by the key that
/// went down last in this tick. Where several keys went down, which of them
/// counts as the last is the keyboard's choice.
pub fn steer_player(
    now: u64,
    input: &Input<KeyCode>,
    input_tracker: &mut InputTracker,
    player: &mut Player,
    velocity: &mut Velocity,
    effects: &mut EntityEffects,
)
    ensures
        final(player).health == old(player).health,
        final(player).max_health == old(player).max_health,
        !can_steer(*old(player)) ==> {
            &&& final(input_tracker)@ == old(input_tracker)@
            &&& *final(player) == *old(player)
            &&& *final(velocity) == *old(velocity)
            &&& final(effects)@ == old(effects)@
        },
        can_steer(*old(player)) ==> {
            &&& final(player).movement_state == if keys_of(*input).jump_requested() {
                PlayerMovementState::Jumping
            } else {
                old(player).movement_state
            }
            &&& *final(velocity) == steered(*old(velocity), keys_of(*input))
            &&& some_press_noted(
                keys_just_pressed(*input),
                old(input_tracker)@,
                old(effects)@,
                now,
                final(input_tracker)@,
                final(effects)@,
            )
        },
{
    let just_pressed = last_just_pressed(input);
    steer_with(now, input, just_pressed, input_tracker, player, velocity, effects);
    proof {
        if let Some(key) = just_pressed {
            assert(keys_just_pressed(*input).contains(key));
            assert(!Set::<u32>::empty().contains(key));
        }
    }
}

/// Reads the keyboard while the game is running. In any other phase nothing
/// changes.
///
/// First the requests to start over and to pause are read, then the player
/// is steered by what is left on the keyboard, whatever the phase now is.
pub fn running_game_input(
    now: u64,
    input: &mut Input<KeyCode>,
    state: &mut GameState,
    input_tracker: &mut InputTracker,
    player: &mut Player,
    velocity: &mut Velocity,
    effects: &mut EntityEffects,
)
    ensures
        *final(state) == *old(state) || may_follow(*old(state), *final(state)),
        final(player).health == old(player).health,
        final(player).max_health == old(player).max_health,
        *old(state) != GameState::Running ==> {
            &&& *final(state) == *old(state)
            &&& *final(input) == *old(input)
            &&& final(input_tracker)@ == old(input_tracker)@
            &&& *final(player) == *old(player)
            &&& *final(velocity) == *old(velocity)
            &&& final(effects)@ == old(effects)@
        },
        *old(state) == GameState::Running ==> {
            &&& *final(state) == running_state_after(keys_of(*old(input)))
            &&& keys_of(*final(input)) == keys_of(*old(input)).commands_consumed()
        },
        *old(state) == GameState::Running && !can_steer(*old(player)) ==> {
            &&& final(input_tracker)@ == old(input_tracker)@
            &&& *final(player) == *old(player)
            &&& *final(velocity) == *old(velocity)
            &&& final(effects)@ == old(effects)@
        },
        *old(state) == GameState::Running && can_steer(*old(player)) ==> {
            &&& final(player).movement_state == if keys_of(*final(input)).jump_requested() {
                PlayerMovementState::Jumping
            } else {
                old(player).movement_state
            }
            &&& *final(velocity) == steered(*old(velocity), keys_of(*final(input)))
            &&& some_press_noted(
                keys_just_pressed(*final(input)),
                old(input_tracker)@,
                old(effects)@,
                now,
                final(input_tracker)@,
                final(effects)@,
            )
        },
{
    if *state != GameState::Running {
        return;
    }
    running_commands(input, state);
    steer_player(now, input, input_tracker, player, velocity, effects);
}

/// Reads the keyboard while the game is paused. In any other phase nothing
/// changes.
///
/// The restart key starts the game over; else a pause key lets the game go
/// on. The key that did so is taken off the keyboard.
pub fn paused_game_input(input: &mut Input<KeyCode>, state: &mut GameState)
    ensures
        *final(state) == *old(state) || may_follow(*old(state), *final(state)),
        *old(state) != GameState::Paused ==> {
            &&& *final(state) == *old(state)
            &&& *final(input) == *old(input)
        },
        *old(state) == GameState::Paused ==> {
            &&& *final(state) == paused_state_after(keys_of(*old(input)))
            &&& keys_of(*final(input)) == keys_of(*old(input)).commands_consumed()
        },
{
    if *state != GameState::Paused {
        return;
    }
    match take_command(input) {
        Some(true) => {
            *state = GameState::Starting;
        },
        Some(false) => {
            *state = GameState::Running;
        },
        None => {},
    }
}

/// When the game is over, the restart key starts a new one. The key is
/// taken off the keyboard. In any other phase nothing changes.
pub fn game_over_menu_input(input: &mut Input<KeyCode>, state: &mut GameState)
    ensures
        *final(state) == *old(state) || may_follow(*old(state), *final(state)),
        *old(state) == GameState::GameOver && keys_of(*old(input)).restart_requested() ==> {
            &&& *final(state) == GameState::Starting
            &&& keys_of(*final(input)) == keys_of(*old(input)).reset(Key::R)
        },
        !(*old(state) == GameState::GameOver && keys_of(*old(input)).restart_requested()) ==> {
            &&& *final(state) == *old(state)
            &&& *final(input) == *old(input)
        },
{
    if *state == GameState::GameOver && is_just_pressed(input, Key::R) {
        reset_key(input, Key::R);
        *state = GameState::Starting;
    }
}

} // verus!
