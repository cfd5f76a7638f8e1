use hungry_pixel::bindings::KeyBindings;
use hungry_pixel::data::EngineData;
use hungry_pixel::edible::Edible;
use hungry_pixel::game::GameState;
use hungry_pixel::geometry::{Rect, UNIT};
use hungry_pixel::msg::{GameCommand, Key, MenuMsg, Movement, Msg, KEY_ESCAPE, KEY_LEFT, KEY_P};
use hungry_pixel::player::Player;
use hungry_pixel::settings::GameSettings;
use hungry_pixel::spike::Spike;

fn quiet_spike() -> Spike {
    Spike::new(0, 0, 1, 1, (0, 0), 0)
}

fn far_edible() -> Edible {
    Edible::new(900, 700, 20 * UNIT)
}

#[test]
fn one_second_tick_shrinks_player_by_rate() {
    let data = EngineData::new();
    let bindings = KeyBindings::new();
    let mut g = GameState::new();
    let r = g.process_message(&data, &bindings, Msg::Tick(1000));
    assert_eq!(r, Some(Msg::Tick(1000)));
    assert_eq!(g.player.size, 19_250_000);
    assert_eq!(g.player.rect, Rect { x: 0, y: 0, w: 19, h: 19 });
    assert!(g.edibles.is_empty());
    assert!(g.spikes.is_empty());
    assert_eq!(g.edible_eta, 2000);
    assert_eq!(g.spike_eta, 9000);
}

#[test]
fn ticks_without_input_shrink_by_total_time() {
    let data = EngineData::new();
    let bindings = KeyBindings::new();
    let mut g = GameState::new();
    for dt in [100u32, 250, 400, 50] {
        g.process_message(&data, &bindings, Msg::Tick(dt));
    }
    assert_eq!(g.player.size, 20 * UNIT - 750 * 800);
}

#[test]
fn dying_player_gives_game_over_once() {
    let mut g = GameState::new();
    g.player.resize(-(18 * UNIT));
    assert_eq!(g.player.size, 2 * UNIT);
    let r = g.advance(2000, (1024, 768), far_edible(), quiet_spike());
    assert_eq!(r, Msg::ShowGameOver);
    assert!(!g.running);
    let size = g.player.size;
    let x = g.player.x;
    let data = EngineData::new();
    let r2 = g.process_message(&data, &KeyBindings::new(), Msg::Tick(500));
    assert_eq!(r2, Some(Msg::Tick(500)));
    assert_eq!(g.player.size, size);
    assert_eq!(g.player.x, x);
}

#[test]
fn reaching_half_height_wins() {
    let mut g = GameState::new();
    g.player.resize(364 * UNIT);
    let r = g.advance(1, (1024, 768), far_edible(), quiet_spike());
    assert_eq!(g.player.size, 384 * UNIT - 750);
    assert_eq!(r, Msg::Tick(1));
    let mut h = GameState::new();
    h.player.resize(365 * UNIT);
    let r = h.advance(1, (1024, 768), far_edible(), quiet_spike());
    assert_eq!(r, Msg::ShowWinScreen);
}

#[test]
fn edible_pass_removes_spoiled_and_eaten_keeping_order() {
    let mut g = GameState::new();
    g.edibles = vec![
        Edible::new(500, 500, 20 * UNIT),
        Edible::new(300, 300, 1000),
        Edible::new(5, 5, 16 * UNIT),
        Edible::new(100, 600, 18 * UNIT),
        Edible::new(700, 100, 500),
    ];
    let r = g.advance(1, (1024, 768), far_edible(), quiet_spike());
    assert_eq!(r, Msg::Tick(1));
    assert_eq!(g.edibles.len(), 2);
    assert_eq!(g.edibles[0].rect.x, 500);
    assert_eq!(g.edibles[0].nutrition, 20 * UNIT - 2000);
    assert_eq!(g.edibles[1].rect.x, 100);
    assert_eq!(g.player.size, 20 * UNIT - 750 + 16 * UNIT - 2000);
    assert_eq!(g.player.rect.w, 35);
}

#[test]
fn spawn_countdown_adds_fresh_edible() {
    let mut g = GameState::new();
    let r = g.advance(3000, (1024, 768), far_edible(), quiet_spike());
    assert_eq!(r, Msg::Tick(3000));
    assert_eq!(g.edibles.len(), 1);
    assert_eq!(g.edibles[0].nutrition, 20 * UNIT - 6 * UNIT);
    assert_eq!(g.edible_eta, 3000);
    assert_eq!(g.spike_eta, 7000);
}

#[test]
fn spikes_penalise_flat_or_half() {
    let mut g = GameState::new();
    g.player.resize(30 * UNIT);
    g.spikes = vec![Spike::new(10, 10, 20, 20, (1, 0), 0), Spike::new(600, 600, 20, 20, (1, 0), 0)];
    g.advance(1, (1024, 768), far_edible(), quiet_spike());
    assert_eq!(g.player.size, 50 * UNIT - 750 - 20 * UNIT);
    assert_eq!(g.spikes.len(), 1);
    let mut h = GameState::new();
    h.spikes = vec![Spike::new(10, 10, 20, 20, (1, 0), 0)];
    h.advance(1000, (1024, 768), far_edible(), quiet_spike());
    assert_eq!(h.player.size, (20 * UNIT - 750_000) - (20 * UNIT - 750_000) / 2);
    assert!(h.spikes.is_empty());
}

#[test]
fn player_bounces_off_left_and_right_walls() {
    let settings = GameSettings::new();
    let mut p = Player::new();
    p.speed = (-1000, 0);
    assert!(p.process(10, (1024, 768), &settings));
    assert_eq!(p.x, 0);
    assert_eq!(p.speed.0, 1000);
    let mut q = Player::new();
    q.set_x(1010 * UNIT);
    q.speed = (5000, 0);
    assert!(q.process(10, (1024, 768), &settings));
    assert_eq!(q.x, 1024 * UNIT - q.size);
    assert_eq!(q.x, 1_004_007_500);
    assert_eq!(q.speed.0, -5000);
    assert_eq!(q.rect.x, 1004);
}

#[test]
fn player_bounces_off_top_and_bottom_walls() {
    let settings = GameSettings::new();
    let mut p = Player::new();
    p.speed = (0, -300);
    assert!(p.process(10, (1024, 768), &settings));
    assert_eq!(p.y, 0);
    assert_eq!(p.speed.1, 300);
    let mut q = Player::new();
    q.set_y(760 * UNIT);
    q.speed = (0, 200);
    assert!(q.process(1, (1024, 768), &settings));
    assert_eq!(q.y, 768 * UNIT - q.size);
    assert_eq!(q.speed.1, -200);
}

#[test]
fn held_direction_accelerates() {
    let settings = GameSettings::new();
    let mut p = Player::new();
    p.set_x(100 * UNIT);
    p.direction = (1, 0);
    assert!(p.process(10, (1024, 768), &settings));
    assert_eq!(p.speed.0, 1000);
    assert!(p.process(10, (1024, 768), &settings));
    assert_eq!(p.speed.0, 2000);
    assert_eq!(p.x, 100 * UNIT + 30_000);
}

#[test]
fn keys_move_and_pause() {
    let bindings = KeyBindings::new();
    let mut g = GameState::new();
    assert_eq!(g.process_button_press(&bindings, Key(KEY_LEFT)), None);
    assert_eq!(g.player.direction, (-1, 0));
    assert_eq!(g.process_button_release(&bindings, Key(KEY_LEFT)), None);
    assert_eq!(g.player.direction, (0, 0));
    assert_eq!(g.process_button_press(&bindings, Key(KEY_P)), None);
    assert!(!g.running);
    assert_eq!(g.process_button_press(&bindings, Key(KEY_P)), None);
    assert!(g.running);
    assert_eq!(
        g.process_button_press(&bindings, Key(KEY_ESCAPE)),
        Some(Msg::MenuCommand(MenuMsg::ShowGameMenu))
    );
    assert!(!g.running);
}

#[test]
fn commands_and_resume() {
    let data = EngineData::new();
    let bindings = KeyBindings::new();
    let mut g = GameState::new();
    g.process_game_command(GameCommand::StartMovement(Movement::Down));
    g.process_game_command(GameCommand::StartMovement(Movement::Right));
    assert_eq!(g.player.direction, (1, 1));
    g.process_game_command(GameCommand::StopMovement(Movement::Up));
    assert_eq!(g.player.direction, (1, 0));
    g.process_game_command(GameCommand::Pause);
    let size = g.player.size;
    assert_eq!(g.process_message(&data, &bindings, Msg::Tick(100)), Some(Msg::Tick(100)));
    assert_eq!(g.player.size, size);
    let resume = Msg::MenuCommand(MenuMsg::ResumeGame);
    assert_eq!(g.process_message(&data, &bindings, resume), Some(resume));
    assert!(g.running);
    assert_eq!(g.process_message(&data, &bindings, Msg::NoOp), None);
    assert_eq!(g.process_message(&data, &bindings, Msg::ShowCredits), Some(Msg::ShowCredits));
    assert!(g.is_fullscreen());
}

#[test]
fn spawning_respects_bounds() {
    let mut g = GameState::new();
    for _ in 0..20 {
        g.spawn_edible(999, 743);
        g.spawn_spike(1024, 768, 15, 55);
    }
    for e in &g.edibles {
        assert!(e.nutrition >= 15 * UNIT && e.nutrition < 25 * UNIT);
        assert!(e.rect.x >= 0 && e.rect.x < 999);
    }
    for s in &g.spikes {
        assert!(s.dimensions.0 >= 15 && s.dimensions.0 < 55);
        assert!(s.speed >= 0 && s.speed < 20_000);
    }
    let xs: Vec<i32> = g.edibles.iter().map(|e| e.rect.x).collect();
    assert!(xs.iter().any(|&x| x != xs[0]) || xs.iter().any(|&x| x != 0));
}

#[test]
fn paused_tick_keeps_countdowns_and_noop_keeps_running() {
    let data = EngineData::new();
    let bindings = KeyBindings::new();
    let mut g = GameState::new();
    g.process_message(&data, &bindings, Msg::Tick(500));
    g.process_game_command(GameCommand::Pause);
    assert_eq!(g.process_message(&data, &bindings, Msg::Tick(5000)), Some(Msg::Tick(5000)));
    assert_eq!(g.edible_eta, 2500);
    assert_eq!(g.spike_eta, 9500);
    assert!(g.edibles.is_empty());
    assert_eq!(g.process_message(&data, &bindings, Msg::NoOp), None);
    assert!(!g.running);
}
