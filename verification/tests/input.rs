use arcade_runner::effects::{
    ActiveEffects, Effect, EffectDuration, EffectLength, EffectType, EntityEffect,
    EntityEffectDescriptor, EntityEffects, PeriodicInvisibility, SpeedBoost, VisualEffect,
    VisualEffects,
};
use arcade_runner::game::{Game, GameState};
use arcade_runner::player::{Player, PlayerMovementState};
use arcade_runner::systems::gameplay::start_game;
use arcade_runner::systems::input::{
    game_over_menu_input, paused_game_input, running_commands, running_game_input,
    start_menu_input, steer_player, steer_with, InputTracker, Key,
};
use arcade_runner::systems::physics::Collidable;
use arcade_runner::world::{Collider, Position, Size, Vector2, Velocity};
use bevy::input::keyboard::KeyCode;
use bevy::input::Input;

/// A keyboard on which exactly the one set of keys is held down and exactly
/// the other went down in this tick.
fn keys(pressed: &[KeyCode], just_pressed: &[KeyCode]) -> Input<KeyCode> {
    let mut input = Input::default();
    for key in pressed.iter().chain(just_pressed.iter()) {
        input.press(*key);
    }
    input.clear();
    for key in just_pressed {
        input.release(*key);
        input.press(*key);
        if !pressed.contains(key) {
            input.release(*key);
        }
    }
    input
}

fn held(input: &Input<KeyCode>) -> Vec<KeyCode> {
    let mut all: Vec<KeyCode> = input.get_pressed().copied().collect();
    all.sort();
    all
}

fn gone_down(input: &Input<KeyCode>) -> Vec<KeyCode> {
    let mut all: Vec<KeyCode> = input.get_just_pressed().copied().collect();
    all.sort();
    all
}

#[test]
fn key_numbers_are_the_engine_numbers() {
    assert_eq!(Key::Space.code(), KeyCode::Space as u32);
    assert_eq!(Key::Up.code(), KeyCode::Up as u32);
    assert_eq!(Key::Left.code(), KeyCode::Left as u32);
    assert_eq!(Key::Right.code(), KeyCode::Right as u32);
    assert_eq!(Key::R.code(), KeyCode::R as u32);
    assert_eq!(Key::P.code(), KeyCode::P as u32);
    assert_eq!(Key::Escape.code(), KeyCode::Escape as u32);
}

#[test]
fn test_keyboard_is_what_it_is_meant_to_be() {
    let input = keys(&[KeyCode::Left, KeyCode::R], &[KeyCode::R, KeyCode::Z]);
    assert_eq!(held(&input), vec![KeyCode::R, KeyCode::Left]);
    assert_eq!(gone_down(&input), vec![KeyCode::R, KeyCode::Z]);
}

#[test]
fn space_starts_from_the_menu() {
    let mut state = GameState::StartMenu;
    let mut input = keys(&[KeyCode::Up], &[KeyCode::Up]);
    start_menu_input(&mut input, &mut state);
    assert_eq!(state, GameState::StartMenu);
    assert_eq!(held(&input), vec![KeyCode::Up]);
    let mut input = keys(&[KeyCode::Space, KeyCode::Up], &[KeyCode::Space]);
    start_menu_input(&mut input, &mut state);
    assert_eq!(state, GameState::Starting);
    assert_eq!(held(&input), vec![KeyCode::Up]);
    assert_eq!(gone_down(&input), Vec::new());
    let mut state = GameState::StartMenu;
    let mut input = keys(&[KeyCode::Space], &[]);
    start_menu_input(&mut input, &mut state);
    assert_eq!(state, GameState::Starting);
    for other in [GameState::Starting, GameState::Running, GameState::Paused, GameState::GameOver] {
        let mut state = other;
        let mut input = keys(&[KeyCode::Space], &[KeyCode::Space]);
        start_menu_input(&mut input, &mut state);
        assert_eq!(state, other);
        assert_eq!(held(&input), vec![KeyCode::Space]);
        assert_eq!(gone_down(&input), vec![KeyCode::Space]);
    }
}

#[test]
fn paused_game_goes_on_or_starts_over() {
    let mut state = GameState::Paused;
    let mut input = keys(&[], &[KeyCode::Left]);
    paused_game_input(&mut input, &mut state);
    assert_eq!(state, GameState::Paused);
    assert_eq!(gone_down(&input), vec![KeyCode::Left]);
    let mut input = keys(&[KeyCode::P], &[KeyCode::P]);
    paused_game_input(&mut input, &mut state);
    assert_eq!(state, GameState::Running);
    assert_eq!(held(&input), Vec::new());
    assert_eq!(gone_down(&input), Vec::new());
    let mut state = GameState::Paused;
    let mut input = keys(&[KeyCode::Escape, KeyCode::P], &[KeyCode::Escape]);
    paused_game_input(&mut input, &mut state);
    assert_eq!(state, GameState::Running);
    assert_eq!(held(&input), Vec::new());
    let mut state = GameState::Paused;
    let mut input = keys(&[KeyCode::P], &[]);
    paused_game_input(&mut input, &mut state);
    assert_eq!(state, GameState::Paused);
    assert_eq!(held(&input), vec![KeyCode::P]);
    let mut state = GameState::Paused;
    let mut input = keys(&[KeyCode::R, KeyCode::P], &[KeyCode::P, KeyCode::R]);
    paused_game_input(&mut input, &mut state);
    assert_eq!(state, GameState::Starting);
    assert_eq!(gone_down(&input), vec![KeyCode::P]);
    assert_eq!(held(&input), vec![KeyCode::P]);
    let mut state = GameState::GameOver;
    let mut input = keys(&[KeyCode::P], &[KeyCode::P]);
    paused_game_input(&mut input, &mut state);
    assert_eq!(state, GameState::GameOver);
    assert_eq!(gone_down(&input), vec![KeyCode::P]);
}

#[test]
fn lost_game_only_starts_over() {
    let mut state = GameState::GameOver;
    let mut input = keys(&[KeyCode::P, KeyCode::Space], &[KeyCode::P, KeyCode::Space]);
    game_over_menu_input(&mut input, &mut state);
    assert_eq!(state, GameState::GameOver);
    let mut input = keys(&[KeyCode::R], &[]);
    game_over_menu_input(&mut input, &mut state);
    assert_eq!(state, GameState::GameOver);
    assert_eq!(held(&input), vec![KeyCode::R]);
    let mut input = keys(&[KeyCode::R], &[KeyCode::R]);
    game_over_menu_input(&mut input, &mut state);
    assert_eq!(state, GameState::Starting);
    assert_eq!(held(&input), Vec::new());
    assert_eq!(gone_down(&input), Vec::new());
    let mut state = GameState::Running;
    let mut input = keys(&[KeyCode::R], &[KeyCode::R]);
    game_over_menu_input(&mut input, &mut state);
    assert_eq!(state, GameState::Running);
    assert_eq!(gone_down(&input), vec![KeyCode::R]);
}

struct Run {
    state: GameState,
    tracker: InputTracker,
    player: Player,
    velocity: Velocity,
    effects: EntityEffects,
}

fn run() -> Run {
    Run {
        state: GameState::Running,
        tracker: InputTracker::new(),
        player: Player::new(),
        velocity: Velocity::default(),
        effects: EntityEffects::default(),
    }
}

fn read(run: &mut Run, now: u64, input: &mut Input<KeyCode>) {
    running_game_input(
        now,
        input,
        &mut run.state,
        &mut run.tracker,
        &mut run.player,
        &mut run.velocity,
        &mut run.effects,
    );
}

#[test]
fn running_game_pauses_and_starts_over() {
    let mut r = run();
    let mut input = keys(&[KeyCode::Escape], &[KeyCode::Escape]);
    read(&mut r, 0, &mut input);
    assert_eq!(r.state, GameState::Paused);
    assert_eq!(gone_down(&input), Vec::new());
    assert_eq!(r.tracker.last_pressed, None);
    let mut r = run();
    let mut input = keys(&[KeyCode::R, KeyCode::P], &[KeyCode::P, KeyCode::R]);
    read(&mut r, 0, &mut input);
    assert_eq!(r.state, GameState::Starting);
    assert_eq!(gone_down(&input), vec![KeyCode::P]);
    assert_eq!(r.tracker.last_pressed, Some(Key::P.code()));
    let mut r = run();
    let mut input = keys(&[KeyCode::P], &[]);
    read(&mut r, 0, &mut input);
    assert_eq!(r.state, GameState::Running);
    assert_eq!(held(&input), vec![KeyCode::P]);
}

#[test]
fn commands_are_read_without_a_player() {
    let mut state = GameState::Running;
    let mut input = keys(&[KeyCode::R, KeyCode::Left], &[KeyCode::R]);
    running_commands(&mut input, &mut state);
    assert_eq!(state, GameState::Starting);
    assert_eq!(held(&input), vec![KeyCode::Left]);
    let mut state = GameState::Running;
    let mut input = keys(&[KeyCode::P], &[KeyCode::P, KeyCode::Escape]);
    running_commands(&mut input, &mut state);
    assert_eq!(state, GameState::Paused);
    assert_eq!(gone_down(&input), Vec::new());
    let mut state = GameState::Paused;
    let mut input = keys(&[KeyCode::R], &[KeyCode::R]);
    running_commands(&mut input, &mut state);
    assert_eq!(state, GameState::Paused);
    assert_eq!(gone_down(&input), vec![KeyCode::R]);
}

#[test]
fn standing_player_is_steered() {
    let mut r = run();
    r.velocity.set_boost(Vector2::new(3, 3));
    let mut input = keys(&[KeyCode::Left], &[KeyCode::Left]);
    read(&mut r, 1_000, &mut input);
    assert_eq!(r.velocity.base, Vector2 { x: -400_000, y: 0 });
    assert_eq!(r.velocity.boost, Vector2 { x: 1, y: 3 });
    assert_eq!(r.player.movement_state, PlayerMovementState::Staying);
    let mut input = keys(&[KeyCode::Left, KeyCode::Right, KeyCode::Up], &[]);
    read(&mut r, 1_016, &mut input);
    assert_eq!(r.velocity.base, Vector2 { x: 400_000, y: 600_000 });
    assert_eq!(r.velocity.boost, Vector2 { x: 1, y: 1 });
    assert_eq!(r.player.movement_state, PlayerMovementState::Jumping);
    let mut input = keys(&[KeyCode::Left, KeyCode::Space], &[KeyCode::Left]);
    read(&mut r, 1_032, &mut input);
    assert_eq!(r.velocity.base, Vector2 { x: 400_000, y: 600_000 });
    assert_eq!(r.tracker.last_pressed, Some(Key::Left.code()));
    assert_eq!(r.tracker.last_press_time.get(&Key::Left.code()), Some(&1_000));
    r.player.movement_state = PlayerMovementState::Running;
    let mut input = keys(&[KeyCode::Space], &[]);
    read(&mut r, 1_048, &mut input);
    assert_eq!(r.player.movement_state, PlayerMovementState::Jumping);
}

#[test]
fn double_tap_gives_a_boost() {
    let boost = EntityEffectDescriptor {
        effect: EntityEffect::SpeedBoost(SpeedBoost { boost: Vector2 { x: 3, y: 1 } }),
        duration: EffectDuration::Temporary(150),
    };
    let right = Key::Right.code();
    let mut r = run();
    let mut input = keys(&[KeyCode::Right], &[KeyCode::Right]);
    read(&mut r, 1_000, &mut input);
    assert_eq!(r.effects.active, Vec::new());
    let mut input = keys(&[KeyCode::Right], &[KeyCode::Right]);
    read(&mut r, 1_499, &mut input);
    assert_eq!(r.effects.active, vec![boost]);
    assert_eq!(r.tracker.last_press_time.get(&right), Some(&1_499));
    let mut input = keys(&[KeyCode::Right], &[KeyCode::Right]);
    read(&mut r, 1_999, &mut input);
    assert_eq!(r.effects.active, vec![boost]);
    let mut input = keys(&[KeyCode::Right], &[KeyCode::Right]);
    read(&mut r, 2_000, &mut input);
    assert_eq!(r.effects.active, vec![boost, boost]);
    let mut input = keys(&[KeyCode::Left], &[KeyCode::Left]);
    read(&mut r, 2_001, &mut input);
    let mut input = keys(&[KeyCode::Right], &[KeyCode::Right]);
    read(&mut r, 2_002, &mut input);
    assert_eq!(r.effects.active, vec![boost, boost]);
    assert_eq!(r.tracker.last_pressed, Some(right));
    let mut input = keys(&[KeyCode::Right], &[KeyCode::Right]);
    read(&mut r, 1_000, &mut input);
    assert_eq!(r.effects.active, vec![boost, boost, boost]);
    let mut input = keys(&[KeyCode::Z], &[KeyCode::Z]);
    read(&mut r, 3_000, &mut input);
    let mut input = keys(&[KeyCode::Z], &[KeyCode::Z]);
    read(&mut r, 3_100, &mut input);
    assert_eq!(r.effects.active.len(), 4);
    assert_eq!(r.tracker.last_pressed, Some(KeyCode::Z as u32));
}

#[test]
fn one_of_the_keys_that_went_down_is_noted() {
    for _ in 0..50 {
        let mut r = run();
        let mut input = keys(&[], &[KeyCode::A, KeyCode::B, KeyCode::C]);
        steer_player(
            5,
            &input,
            &mut r.tracker,
            &mut r.player,
            &mut r.velocity,
            &mut r.effects,
        );
        let noted = r.tracker.last_pressed.unwrap();
        assert!([KeyCode::A as u32, KeyCode::B as u32, KeyCode::C as u32].contains(&noted));
        assert_eq!(r.tracker.last_press_time.get(&noted), Some(&5));
        assert_eq!(r.tracker.last_press_time.len(), 1);
        input.clear();
        steer_player(
            6,
            &input,
            &mut r.tracker,
            &mut r.player,
            &mut r.velocity,
            &mut r.effects,
        );
        assert_eq!(r.tracker.last_pressed, Some(noted));
        assert_eq!(r.tracker.last_press_time.get(&noted), Some(&5));
    }
}

#[test]
fn steering_takes_the_key_it_is_given() {
    let mut r = run();
    let input = keys(&[KeyCode::Right], &[KeyCode::Right, KeyCode::A]);
    steer_with(
        10,
        &input,
        Some(7),
        &mut r.tracker,
        &mut r.player,
        &mut r.velocity,
        &mut r.effects,
    );
    assert_eq!(r.tracker.last_pressed, Some(7));
    assert_eq!(r.velocity.base, Vector2 { x: 400_000, y: 0 });
    steer_with(
        20,
        &input,
        Some(7),
        &mut r.tracker,
        &mut r.player,
        &mut r.velocity,
        &mut r.effects,
    );
    assert_eq!(r.effects.active.len(), 1);
    steer_with(30, &input, None, &mut r.tracker, &mut r.player, &mut r.velocity, &mut r.effects);
    assert_eq!(r.tracker.last_press_time.get(&7), Some(&20));
    assert_eq!(r.effects.active.len(), 1);
}

#[test]
fn tracker_notes_presses() {
    let mut tracker = InputTracker::new();
    assert_eq!(tracker.last_pressed, None);
    assert!(!tracker.press(7, 100));
    assert!(tracker.press(7, 599));
    assert!(!tracker.press(7, 1_099));
    assert!(!tracker.press(8, 1_100));
    assert!(!tracker.press(7, 1_101));
    assert_eq!(tracker.last_pressed, Some(7));
    assert_eq!(tracker.last_press_time.get(&8), Some(&1_100));
    assert_eq!(tracker.last_press_time.len(), 2);
}

#[test]
fn player_in_the_air_is_not_steered() {
    for state in [PlayerMovementState::Jumping, PlayerMovementState::Falling] {
        let mut r = run();
        r.player.movement_state = state;
        r.velocity = Velocity::new(Vector2::new(5, 6));
        let mut input =
            keys(&[KeyCode::Left, KeyCode::Up, KeyCode::P], &[KeyCode::P, KeyCode::Left]);
        read(&mut r, 0, &mut input);
        assert_eq!(r.state, GameState::Paused);
        assert_eq!(r.velocity, Velocity::new(Vector2::new(5, 6)));
        assert_eq!(r.player.movement_state, state);
        assert_eq!(r.tracker.last_pressed, None);
        assert_eq!(r.effects.active, Vec::new());
    }
}

#[test]
fn keyboard_is_not_read_outside_a_running_game() {
    for state in [GameState::StartMenu, GameState::Starting, GameState::Paused, GameState::GameOver] {
        let mut r = run();
        r.state = state;
        let mut input =
            keys(&[KeyCode::Left, KeyCode::Up, KeyCode::R], &[KeyCode::R, KeyCode::Left]);
        read(&mut r, 0, &mut input);
        assert_eq!(r.state, state);
        assert_eq!(r.velocity, Velocity::default());
        assert_eq!(r.player, Player::new());
        assert_eq!(r.tracker.last_pressed, None);
        assert_eq!(gone_down(&input), vec![KeyCode::R, KeyCode::Left]);
    }
}

fn started() -> (Game, GameState, Player, EntityEffects, ActiveEffects, VisualEffects, Velocity, bool, Position, Vec<Collidable>)
{
    let mut player = Player::new();
    player.health = 1;
    player.movement_state = PlayerMovementState::Falling;
    let mut entity_effects = EntityEffects::default();
    entity_effects.active.push(EntityEffectDescriptor::new_permanent(EntityEffect::SpeedBoost(
        SpeedBoost::horizontal(3),
    )));
    let mut active_effects = ActiveEffects::new();
    active_effects.add(Effect {
        name: "x".to_string(),
        length: EffectLength::Permanent,
        effect: EffectType::Invulnerable,
    });
    let mut visual_effects = VisualEffects::new();
    visual_effects.effects.push(VisualEffect::PeriodicInvisibility(PeriodicInvisibility::new(1, 2)));
    let mut velocity = Velocity::new(Vector2::new(4, 5));
    velocity.set_boost(Vector2::new(6, 7));
    let entities = vec![Collidable {
        entity: 1,
        position: Position { x: 0, y: 0 },
        size: Size { width: 1, height: 1 },
        collider: Collider::Solid,
    }];
    (
        Game { score: 70, best_score: 120 },
        GameState::Starting,
        player,
        entity_effects,
        active_effects,
        visual_effects,
        velocity,
        false,
        Position { x: 9, y: 9 },
        entities,
    )
}

#[test]
fn start_resets_all_but_the_best_score() {
    let (mut game, mut state, mut player, mut ee, mut ae, mut ve, mut velocity, mut visible, mut position, mut entities) =
        started();
    start_game(
        &mut game, &mut state, &mut player, &mut ee, &mut ae, &mut ve, &mut velocity, &mut visible,
        &mut position, &mut entities,
    );
    assert_eq!(state, GameState::Running);
    assert_eq!(game, Game { score: 0, best_score: 120 });
    assert_eq!(player.health, 3);
    assert_eq!(player.max_health, 3);
    assert_eq!(ee.active.len(), 0);
    assert_eq!(ae.effects.len(), 0);
    assert_eq!(ve.effects.len(), 0);
    assert_eq!(velocity, Velocity { base: Vector2 { x: 0, y: 0 }, boost: Vector2 { x: 1, y: 1 } });
    assert!(visible);
    assert_eq!(position, Position { x: -512_000_000, y: 25_000_000 });
    assert_eq!(entities.len(), 0);
}

#[test]
fn start_needs_the_starting_phase() {
    for other in [GameState::StartMenu, GameState::Running, GameState::Paused, GameState::GameOver] {
        let (mut game, _, mut player, mut ee, mut ae, mut ve, mut velocity, mut visible, mut position, mut entities) =
            started();
        let mut state = other;
        start_game(
            &mut game, &mut state, &mut player, &mut ee, &mut ae, &mut ve, &mut velocity,
            &mut visible, &mut position, &mut entities,
        );
        assert_eq!(state, other);
        assert_eq!(game, Game { score: 70, best_score: 120 });
        assert_eq!(player.health, 1);
        assert_eq!(ee.active.len(), 1);
        assert_eq!(ae.effects.len(), 1);
        assert_eq!(ve.effects.len(), 1);
        assert!(!visible);
        assert_eq!(position, Position { x: 9, y: 9 });
        assert_eq!(entities.len(), 1);
    }
}
