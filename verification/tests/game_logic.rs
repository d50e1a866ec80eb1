use dodge_creeps::decimal::score_text;
use dodge_creeps::hud::{Hud, HudAction, HudMessage, HudTimer};
use dodge_creeps::main_scene::{
    check_instantiable, check_scene_load, music_missing_message, no_music_message, GameAction,
    GameTimer, MainScene, SceneResource, SetupStep,
};
use dodge_creeps::mob::{Mob, MobAnimation};
use dodge_creeps::player::{
    direction, sprite_update, Direction, MoveInput, Player, PlayerAction, SpriteAnimation,
    SpriteUpdate,
};
use dodge_creeps::routes::{signal_routes, GameSignal, Handler, SceneNode, SignalRoute};

fn keys(up: bool, right: bool, down: bool, left: bool) -> MoveInput {
    MoveInput { up, right, down, left }
}

fn scene_with_paths() -> MainScene {
    let mut s = MainScene::new();
    s.set_player_ref("res://Player.tscn".to_string());
    s.set_mob_ref("res://Mob.tscn".to_string());
    s.set_hud_res("res://Hud.tscn".to_string());
    s
}

#[test]
fn score_text_of_small_and_large_scores() {
    assert_eq!(score_text(0), "0");
    assert_eq!(score_text(7), "7");
    assert_eq!(score_text(10), "10");
    assert_eq!(score_text(42), "42");
    assert_eq!(score_text(1000), "1000");
    assert_eq!(score_text(i32::MAX), "2147483647");
}

#[test]
fn score_text_of_negative_scores() {
    assert_eq!(score_text(-7), "-7");
    assert_eq!(score_text(-120), "-120");
    assert_eq!(score_text(i32::MIN), "-2147483648");
}

#[test]
fn score_text_reads_back() {
    for n in [-1005, -1, 0, 1, 9, 99, 100, 123456] {
        assert_eq!(score_text(n).parse::<i32>().unwrap(), n);
    }
}

#[test]
fn direction_of_single_keys() {
    assert_eq!(direction(keys(true, false, false, false)), Direction { x: 0, y: -1 });
    assert_eq!(direction(keys(false, true, false, false)), Direction { x: 1, y: 0 });
    assert_eq!(direction(keys(false, false, true, false)), Direction { x: 0, y: 1 });
    assert_eq!(direction(keys(false, false, false, true)), Direction { x: -1, y: 0 });
    assert_eq!(direction(keys(false, false, false, false)), Direction { x: 0, y: 0 });
}

#[test]
fn opposite_keys_cancel() {
    assert_eq!(direction(keys(true, false, true, false)), Direction { x: 0, y: 0 });
    assert_eq!(direction(keys(false, true, false, true)), Direction { x: 0, y: 0 });
    assert_eq!(direction(keys(true, true, true, true)), Direction { x: 0, y: 0 });
    assert_eq!(direction(keys(true, true, false, false)), Direction { x: 1, y: -1 });
    assert_eq!(direction(keys(false, true, true, true)), Direction { x: 0, y: 1 });
}

#[test]
fn sprite_for_vertical_movement() {
    assert_eq!(
        sprite_update(Direction { x: 1, y: 1 }),
        SpriteUpdate {
            playing: true,
            animation: Some(SpriteAnimation::Up),
            flip_v: Some(true),
            flip_h: None
        }
    );
    assert_eq!(
        sprite_update(Direction { x: 0, y: -1 }),
        SpriteUpdate {
            playing: true,
            animation: Some(SpriteAnimation::Up),
            flip_v: Some(false),
            flip_h: None
        }
    );
}

#[test]
fn sprite_for_horizontal_and_no_movement() {
    assert_eq!(
        sprite_update(Direction { x: -1, y: 0 }),
        SpriteUpdate {
            playing: true,
            animation: Some(SpriteAnimation::Walk),
            flip_v: Some(false),
            flip_h: Some(true)
        }
    );
    assert_eq!(
        sprite_update(Direction { x: 1, y: 0 }),
        SpriteUpdate {
            playing: true,
            animation: Some(SpriteAnimation::Walk),
            flip_v: Some(false),
            flip_h: Some(false)
        }
    );
    assert_eq!(
        sprite_update(Direction { x: 0, y: 0 }),
        SpriteUpdate { playing: false, animation: None, flip_v: None, flip_h: None }
    );
}

#[test]
fn animation_names() {
    assert_eq!(SpriteAnimation::Up.name(), "up");
    assert_eq!(SpriteAnimation::Walk.name(), "walk");
}

#[test]
fn player_process_frame() {
    let p = Player::new();
    let f = p.process(keys(false, false, false, true));
    assert_eq!(f.direction, Direction { x: -1, y: 0 });
    assert!(f.moving);
    assert_eq!(f.sprite.animation, Some(SpriteAnimation::Walk));
    let idle = p.process(keys(true, false, true, false));
    assert!(!idle.moving);
    assert!(!idle.sprite.playing);
}

#[test]
fn player_ready_without_and_with_sound() {
    let mut p = Player::new();
    assert!(p.visible && p.collision_enabled && p.death_sound.is_none());
    assert_eq!(p.ready(), vec![PlayerAction::Hide]);
    assert!(!p.visible);
    let mut q = Player::new();
    q.set_death_sound("res://gameover.wav".to_string());
    assert_eq!(q.ready(), vec![PlayerAction::AddDeathSound, PlayerAction::Hide]);
    assert_eq!(q.death_sound.as_deref(), Some("res://gameover.wav"));
}

#[test]
fn player_hit_and_start() {
    let mut p = Player::new();
    assert_eq!(
        p.start(),
        vec![PlayerAction::PlaceAtStart, PlayerAction::Show, PlayerAction::EnableCollision]
    );
    assert!(p.visible && p.collision_enabled);
    assert_eq!(
        p.on_body_entered(),
        vec![PlayerAction::Hide, PlayerAction::EmitHit, PlayerAction::DisableCollisionDeferred]
    );
    assert!(!p.visible && !p.collision_enabled);
    p.set_death_sound("res://gameover.wav".to_string());
    p.start();
    assert_eq!(
        p.on_body_entered(),
        vec![
            PlayerAction::Hide,
            PlayerAction::PlayDeathSound,
            PlayerAction::EmitHit,
            PlayerAction::DisableCollisionDeferred
        ]
    );
}

#[test]
fn mob_with_no_animation() {
    let m = Mob::new();
    assert_eq!(m.ready(&Vec::new()), MobAnimation::NoAnimations);
    assert_eq!(m.no_animations_message(), "no animations present");
    assert_eq!(m.choose_animation(0, 0), MobAnimation::NoAnimations);
}

#[test]
fn mob_picks_one_of_its_animations() {
    let m = Mob::new();
    let names = vec!["fly".to_string(), "swim".to_string(), "walk".to_string()];
    let mut seen = [false; 3];
    for _ in 0..300 {
        match m.ready(&names) {
            MobAnimation::Play(i) => {
                assert!(i < 3);
                seen[i] = true;
            }
            MobAnimation::NoAnimations => panic!("a sprite with animations got none"),
        }
    }
    assert!(seen.iter().all(|s| *s));
    assert_eq!(m.choose_animation(3, 2), MobAnimation::Play(2));
    let one = vec!["fly".to_string()];
    assert_eq!(m.ready(&one), MobAnimation::Play(0));
}

#[test]
fn hud_messages() {
    assert_eq!(HudMessage::Title.text(), "Dodge the Creeps!");
    assert_eq!(HudMessage::GetReady.text(), "Get Ready");
    assert_eq!(HudMessage::GameOver.text(), "Game Over");
}

#[test]
fn hud_handlers() {
    let h = Hud::new();
    assert_eq!(h.on_get_ready_timeout(), vec![HudAction::HideMessage]);
    assert_eq!(
        h.on_game_over_timeout(),
        vec![
            HudAction::SetMessage(HudMessage::Title),
            HudAction::ShowMessage,
            HudAction::ShowStartButton
        ]
    );
    assert_eq!(
        h.on_start_button_pressed(),
        vec![
            HudAction::SetMessage(HudMessage::GetReady),
            HudAction::StartTimer(HudTimer::GetReady),
            HudAction::HideStartButton,
            HudAction::EmitStartGame
        ]
    );
    assert_eq!(
        h.show_game_over(),
        vec![
            HudAction::SetMessage(HudMessage::GameOver),
            HudAction::ShowMessage,
            HudAction::StartTimer(HudTimer::GameOver)
        ]
    );
    assert_eq!(h.score_update(0), "0");
    assert_eq!(h.score_update(31), "31");
}

#[test]
fn new_scene_is_empty() {
    let s = MainScene::new();
    assert_eq!(s.player_path(), "");
    assert_eq!(s.mob_path(), "");
    assert_eq!(s.hud_path(), "");
    assert!(s.music_path().is_none());
    assert_eq!(s.score(), 0);
}

#[test]
fn scene_paths_are_kept() {
    let mut s = scene_with_paths();
    s.set_music("res://House In a Forest Loop.ogg".to_string());
    assert_eq!(s.player_path(), "res://Player.tscn");
    assert_eq!(s.mob_path(), "res://Mob.tscn");
    assert_eq!(s.hud_path(), "res://Hud.tscn");
    assert_eq!(s.music_path().map(|m| m.as_str()), Some("res://House In a Forest Loop.ogg"));
}

#[test]
fn setup_without_music() {
    let s = scene_with_paths();
    assert_eq!(
        s.setup_steps(false),
        vec![
            SetupStep::AddTimer(GameTimer::Spawn),
            SetupStep::AddTimer(GameTimer::Score),
            SetupStep::AddTimer(GameTimer::StartDelay),
            SetupStep::AddMobPath,
            SetupStep::AddBackground,
            SetupStep::AddHud,
            SetupStep::WarnNoMusic,
            SetupStep::AddPlayer
        ]
    );
}

#[test]
fn setup_with_missing_and_found_music() {
    let mut s = scene_with_paths();
    s.set_music("res://music.ogg".to_string());
    let missing = s.setup_steps(false);
    assert_eq!(missing[6], SetupStep::WarnMusicMissing);
    assert_eq!(missing.len(), 8);
    let found = s.setup_steps(true);
    assert_eq!(found[6], SetupStep::AddMusic);
    assert_eq!(found[7], SetupStep::AddPlayer);
}

#[test]
fn timers() {
    assert!(GameTimer::StartDelay.one_shot());
    assert!(!GameTimer::Spawn.one_shot());
    assert!(!GameTimer::Score.one_shot());
    assert_eq!(GameTimer::Spawn.node_name(), "SpawnTimer");
    assert_eq!(GameTimer::Score.node_name(), "ScoreTimer");
    assert_eq!(GameTimer::StartDelay.node_name(), "StartDelay");
}

#[test]
fn new_game_without_and_with_music() {
    let mut s = scene_with_paths();
    assert_eq!(
        s.new_game(),
        vec![
            GameAction::ClearMobs,
            GameAction::ShowScore(0),
            GameAction::RandomizeBackground,
            GameAction::StartPlayer,
            GameAction::StartTimer(GameTimer::StartDelay)
        ]
    );
    s.set_music("res://music.ogg".to_string());
    assert_eq!(
        s.new_game(),
        vec![
            GameAction::ClearMobs,
            GameAction::ShowScore(0),
            GameAction::RandomizeBackground,
            GameAction::PlayMusic,
            GameAction::StartPlayer,
            GameAction::StartTimer(GameTimer::StartDelay)
        ]
    );
}

#[test]
fn score_ticks_count_and_recolor_every_tenth() {
    let mut s = scene_with_paths();
    s.new_game();
    assert_eq!(
        s.on_start_delay_timeout(),
        vec![GameAction::StartTimer(GameTimer::Spawn), GameAction::StartTimer(GameTimer::Score)]
    );
    for k in 1..=25 {
        let acts = s.on_score_increment();
        assert_eq!(acts[0], GameAction::EmitScoreUpdate(k));
        if k % 10 == 0 {
            assert_eq!(acts, vec![GameAction::EmitScoreUpdate(k), GameAction::RandomizeBackground]);
        } else {
            assert_eq!(acts, vec![GameAction::EmitScoreUpdate(k)]);
        }
    }
    assert_eq!(s.score(), 25);
    s.new_game();
    assert_eq!(s.score(), 0);
}

#[test]
fn game_over_stops_timers_and_music() {
    let mut s = scene_with_paths();
    assert_eq!(
        s.game_over(),
        vec![
            GameAction::StopTimer(GameTimer::Spawn),
            GameAction::StopTimer(GameTimer::Score),
            GameAction::EmitShowGameOver
        ]
    );
    s.set_music("res://music.ogg".to_string());
    s.new_game();
    s.on_start_delay_timeout();
    s.on_score_increment();
    assert_eq!(
        s.game_over(),
        vec![
            GameAction::StopTimer(GameTimer::Spawn),
            GameAction::StopTimer(GameTimer::Score),
            GameAction::EmitShowGameOver,
            GameAction::StopMusic
        ]
    );
    assert_eq!(s.score(), 1);
}

#[test]
fn exit_input_quits() {
    let s = MainScene::new();
    assert_eq!(s.input(true), vec![GameAction::Quit]);
    assert!(s.input(false).is_empty());
}

#[test]
fn scene_load_errors() {
    assert!(check_scene_load(SceneResource::Player, true, true).is_ok());
    assert_eq!(
        check_scene_load(SceneResource::Player, false, false),
        Err("Player source not defined".to_string())
    );
    assert_eq!(
        check_scene_load(SceneResource::Player, true, false),
        Err("Failed to load Player resource".to_string())
    );
    assert_eq!(
        check_scene_load(SceneResource::Mob, false, true),
        Err("Mob source not defined".to_string())
    );
    assert_eq!(
        check_scene_load(SceneResource::Mob, true, false),
        Err("Failed to load Mob resource".to_string())
    );
    assert_eq!(
        check_scene_load(SceneResource::Hud, false, false),
        Err("Hud resource not valid".to_string())
    );
    assert_eq!(
        check_scene_load(SceneResource::Hud, true, false),
        Err("Failed to load Hud resource".to_string())
    );
}

#[test]
fn instancing_and_music_messages() {
    assert!(check_instantiable(true).is_ok());
    assert_eq!(check_instantiable(false), Err("Resources not attached".to_string()));
    assert_eq!(no_music_message(), "No music registered");
    assert_eq!(
        music_missing_message(&"res://a.ogg".to_string()),
        "music source not found at:\n\tres://a.ogg"
    );
}

#[test]
fn wiring_of_signals() {
    let r = signal_routes();
    assert_eq!(r.len(), 7);
    assert_eq!(
        r[0],
        SignalRoute {
            source: SceneNode::Player,
            signal: GameSignal::Hit,
            target: SceneNode::Main,
            method: Handler::GameOver
        }
    );
    assert_eq!(r[2].source, SceneNode::Timer(GameTimer::Score));
    assert_eq!(r[2].method, Handler::ScoreIncrement);
    assert_eq!(r[4].method.name(), "new_game");
    assert_eq!(r[5].signal.name(), "score_update");
    assert_eq!(r[5].method.name(), "score_update");
    assert_eq!(Handler::StartDelayTimeout.name(), "_on_start_delay_timeout");
    assert_eq!(Handler::SpawnTimerTimeout.name(), "_on_spawn_timer_timeout");
    assert_eq!(Handler::ScoreIncrement.name(), "_on_score_increment");
    assert_eq!(GameSignal::Timeout.name(), "timeout");
    assert_eq!(GameSignal::ShowGameOver.name(), "show_game_over");
}

#[test]
fn hud_timer_names() {
    assert_eq!(HudTimer::GetReady.node_name(), "GetReadyTimer");
    assert_eq!(HudTimer::GameOver.node_name(), "GameOverTimer");
}
