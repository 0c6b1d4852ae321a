use angler::animation::{
    action_animation_control, added_animation, animation, changed_active_sprite,
    changed_direction, frame_for, game_animation_control, Playback,
};
use angler::components::{
    ActiveSprite, AnimationConfig, AnimationState, AnimationTimer, ConfigError, Direction,
    LoopMode, SpriteCollection, Velocity,
};

fn config(first: usize, last: usize, ms: u64, mode: LoopMode) -> AnimationConfig {
    AnimationConfig::new(first, last, ms, mode).unwrap()
}

#[test]
fn frame_follows_elapsed_time() {
    let c = config(2, 5, 100, LoopMode::Once);
    assert_eq!(frame_for(&c, 0), 2);
    assert_eq!(frame_for(&c, 99_999_999), 2);
    assert_eq!(frame_for(&c, 100_000_000), 3);
    assert_eq!(frame_for(&c, 250_000_000), 4);
    assert_eq!(frame_for(&c, 300_000_000), 5);
    assert_eq!(frame_for(&c, 399_999_999), 5);
}

#[test]
fn frame_never_leaves_the_sequence() {
    let c = config(2, 5, 100, LoopMode::Once);
    for elapsed in [400_000_000, 10_000_000_000, u64::MAX / 2, u64::MAX - 1, u64::MAX] {
        assert_eq!(frame_for(&c, elapsed), 5);
    }
    let single = config(7, 7, 1, LoopMode::Repeating);
    for elapsed in [0, 1, 1_000_000, u64::MAX] {
        assert_eq!(frame_for(&single, elapsed), 7);
    }
    let wide = config(usize::MAX - 1, usize::MAX, 1, LoopMode::Once);
    assert_eq!(frame_for(&wide, u64::MAX), usize::MAX);
}

#[test]
fn frame_stays_in_range_on_every_tick() {
    let c = config(3, 8, 50, LoopMode::Repeating);
    let mut playback = Playback::start(c, false);
    for step in 0..2_000u64 {
        let delta = (step * 7_919_003) % 90_000_000;
        action_animation_control(delta, &mut playback.timer);
        animation(&mut playback);
        assert!(3 <= playback.frame && playback.frame <= 8);
        assert!(playback.is_valid());
    }
    action_animation_control(u64::MAX, &mut playback.timer);
    animation(&mut playback);
    assert!(playback.is_valid());
}

#[test]
fn configuration_is_checked() {
    assert_eq!(
        AnimationConfig::new(0, 5, 100, LoopMode::Once),
        Ok(AnimationConfig { first_index: 0, last_index: 5, ms: 100, mode: LoopMode::Once })
    );
    assert_eq!(AnimationConfig::new(3, 2, 100, LoopMode::Once), Err(ConfigError::EmptyFrameRange));
    assert_eq!(AnimationConfig::new(3, 2, 0, LoopMode::Once), Err(ConfigError::EmptyFrameRange));
    assert_eq!(AnimationConfig::new(0, 0, 0, LoopMode::Once), Err(ConfigError::ZeroFrameDuration));
    assert_eq!(AnimationConfig::new(0, 0, 18_446_744_073_710, LoopMode::Once), Err(ConfigError::TooLong));
    assert!(AnimationConfig::new(0, 0, 18_446_744_073_709, LoopMode::Once).is_ok());
    assert_eq!(AnimationConfig::new(0, 1, 9_223_372_036_855, LoopMode::Once), Err(ConfigError::TooLong));
    assert!(AnimationConfig::new(0, 1, 9_223_372_036_854, LoopMode::Once).is_ok());
    assert!(!AnimationConfig { first_index: 1, last_index: 0, ms: 1, mode: LoopMode::Once }.is_valid());
    assert!(AnimationConfig { first_index: 0, last_index: 0, ms: 1, mode: LoopMode::Once }.is_valid());
}

#[test]
fn grid_gives_the_longer_side() {
    assert_eq!(
        AnimationConfig::from_grid(0, 6, 1, 100, LoopMode::Repeating),
        Ok(AnimationConfig { first_index: 0, last_index: 5, ms: 100, mode: LoopMode::Repeating })
    );
    assert_eq!(
        AnimationConfig::from_grid(1, 2, 4, 50, LoopMode::Once),
        Ok(AnimationConfig { first_index: 1, last_index: 3, ms: 50, mode: LoopMode::Once })
    );
    assert_eq!(AnimationConfig::from_grid(0, 0, 4, 50, LoopMode::Once), Err(ConfigError::EmptyGrid));
    assert_eq!(AnimationConfig::from_grid(0, 4, 0, 50, LoopMode::Once), Err(ConfigError::EmptyGrid));
    assert_eq!(AnimationConfig::from_grid(4, 2, 2, 50, LoopMode::Once), Err(ConfigError::EmptyFrameRange));
    assert_eq!(AnimationConfig::from_grid(0, 2, 2, 0, LoopMode::Once), Err(ConfigError::ZeroFrameDuration));
}

#[test]
fn duration_is_frames_times_frame_time() {
    assert_eq!(config(0, 5, 100, LoopMode::Once).duration_ns(), 600_000_000);
    assert_eq!(config(2, 2, 1, LoopMode::Once).duration_ns(), 1_000_000);
    assert_eq!(config(0, 0, 18_446_744_073_709, LoopMode::Once).duration_ns(), 18_446_744_073_709_000_000);
}

#[test]
fn clock_counts_up_to_its_duration() {
    let mut timer = AnimationTimer::new(1_000);
    assert_eq!(timer, AnimationTimer { elapsed_ns: 0, duration_ns: 1_000, finished: false });
    timer.tick(400);
    assert_eq!(timer, AnimationTimer { elapsed_ns: 400, duration_ns: 1_000, finished: false });
    assert!(!timer.is_finished());
    timer.tick(599);
    assert_eq!(timer, AnimationTimer { elapsed_ns: 999, duration_ns: 1_000, finished: false });
    timer.tick(1);
    assert_eq!(timer, AnimationTimer { elapsed_ns: 1_000, duration_ns: 1_000, finished: true });
    assert!(timer.is_finished());
    timer.tick(5_000);
    assert_eq!(timer, AnimationTimer { elapsed_ns: 1_000, duration_ns: 1_000, finished: true });
}

#[test]
fn clock_stops_at_its_duration() {
    let mut timer = AnimationTimer::new(1_000);
    timer.tick(u64::MAX);
    assert_eq!(timer, AnimationTimer { elapsed_ns: 1_000, duration_ns: 1_000, finished: true });
    let mut timer = AnimationTimer { elapsed_ns: u64::MAX - 1, duration_ns: u64::MAX, finished: false };
    timer.tick(u64::MAX);
    assert_eq!(timer, AnimationTimer { elapsed_ns: u64::MAX, duration_ns: u64::MAX, finished: true });
    let mut timer = AnimationTimer::default();
    assert_eq!(timer, AnimationTimer { elapsed_ns: 0, duration_ns: 0, finished: false });
    timer.tick(0);
    assert_eq!(timer, AnimationTimer { elapsed_ns: 0, duration_ns: 0, finished: true });
}

#[test]
fn clock_can_be_run_to_its_end() {
    let mut timer = AnimationTimer::new(1_000);
    timer.tick(250);
    timer.finish();
    assert_eq!(timer, AnimationTimer { elapsed_ns: 1_000, duration_ns: 1_000, finished: true });
    timer.finish();
    assert_eq!(timer, AnimationTimer { elapsed_ns: 1_000, duration_ns: 1_000, finished: true });
    assert_eq!(timer.elapsed_millis(), 0);
    let mut timer = AnimationTimer::new(2_500_000);
    timer.finish();
    assert_eq!(timer.elapsed_millis(), 2);
}

#[test]
fn clock_validity() {
    assert!(AnimationTimer::new(5).is_valid());
    assert!(AnimationTimer { elapsed_ns: 5, duration_ns: 5, finished: true }.is_valid());
    assert!(!AnimationTimer { elapsed_ns: 6, duration_ns: 5, finished: false }.is_valid());
    assert!(!AnimationTimer { elapsed_ns: 4, duration_ns: 5, finished: true }.is_valid());
}

#[test]
fn once_holds_on_the_first_frame_and_signals() {
    let c = config(1, 4, 10, LoopMode::Once);
    let mut playback = Playback::start(c, false);
    assert_eq!(playback.timer.duration_ns, 40_000_000);
    action_animation_control(25_000_000, &mut playback.timer);
    animation(&mut playback);
    assert_eq!(playback.frame, 3);
    assert_eq!(playback.state, AnimationState::Run);
    action_animation_control(15_000_000, &mut playback.timer);
    animation(&mut playback);
    assert_eq!(playback.frame, 1);
    assert_eq!(playback.state, AnimationState::Finish);
    assert!(playback.timer.finished);
    for _ in 0..3 {
        action_animation_control(15_000_000, &mut playback.timer);
        animation(&mut playback);
        assert_eq!(playback.frame, 1);
        assert_eq!(playback.state, AnimationState::Finish);
        assert_eq!(playback.timer.elapsed_ns, 40_000_000);
    }
}

#[test]
fn repeating_starts_over() {
    let c = config(1, 4, 10, LoopMode::Repeating);
    let mut playback = Playback::start(c, true);
    action_animation_control(1_000_000_000, &mut playback.timer);
    animation(&mut playback);
    assert_eq!(playback.frame, 1);
    assert_eq!(playback.state, AnimationState::Run);
    assert_eq!(playback.timer, AnimationTimer::new(40_000_000));
    assert!(playback.flip_x);
    action_animation_control(10_000_000, &mut playback.timer);
    animation(&mut playback);
    assert_eq!(playback.frame, 2);
}

#[test]
fn standing_still_runs_the_clock_out() {
    let c = config(0, 3, 100, LoopMode::Repeating);
    let mut playback = Playback::start(c, false);
    game_animation_control(150_000_000, &mut playback.timer, &Velocity { value: -1 });
    assert_eq!(playback.timer.elapsed_ns, 150_000_000);
    animation(&mut playback);
    assert_eq!(playback.frame, 1);
    game_animation_control(150_000_000, &mut playback.timer, &Velocity { value: 0 });
    assert_eq!(playback.timer, AnimationTimer { elapsed_ns: 400_000_000, duration_ns: 400_000_000, finished: true });
    animation(&mut playback);
    assert_eq!(playback.frame, 0);
}

#[test]
fn a_fresh_clock_is_added() {
    let c = config(0, 3, 100, LoopMode::Repeating);
    let mut playback = Playback {
        config: c,
        timer: AnimationTimer::default(),
        state: AnimationState::default(),
        frame: 2,
        flip_x: true,
    };
    assert_eq!(playback.state, AnimationState::Finish);
    added_animation(&mut playback);
    assert_eq!(
        playback,
        Playback { config: c, timer: AnimationTimer::new(400_000_000), state: AnimationState::Run, frame: 2, flip_x: true }
    );
}

#[test]
fn switching_sprites_starts_afresh() {
    let walk = config(0, 5, 100, LoopMode::Repeating);
    let hook = config(2, 7, 50, LoopMode::Once);
    let collection = SpriteCollection { animations: vec![walk, hook] };
    let mut playback = Playback::start(walk, false);
    action_animation_control(350_000_000, &mut playback.timer);
    animation(&mut playback);
    assert_eq!(playback.frame, 3);

    changed_active_sprite(&ActiveSprite { index: 1 }, &collection, Some(Direction::Left), &mut playback);
    assert_eq!(
        playback,
        Playback { config: hook, timer: AnimationTimer::new(300_000_000), state: AnimationState::Run, frame: 2, flip_x: true }
    );
    changed_active_sprite(&ActiveSprite { index: 0 }, &collection, Some(Direction::Right), &mut playback);
    assert_eq!(playback, Playback::start(walk, false));
    changed_active_sprite(&ActiveSprite { index: 0 }, &collection, None, &mut playback);
    assert_eq!(playback, Playback::start(walk, false));
}

#[test]
fn turning_mirrors_the_sprite() {
    let mut playback = Playback::start(config(0, 5, 100, LoopMode::Repeating), false);
    action_animation_control(120_000_000, &mut playback.timer);
    let before = playback;
    changed_direction(&Direction::Left, &mut playback);
    assert_eq!(playback, Playback { flip_x: true, ..before });
    changed_direction(&Direction::Right, &mut playback);
    assert_eq!(playback, before);
}
