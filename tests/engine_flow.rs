use hungry_pixel::engine::{frame_delay, main_menu, Engine, InputEvent};
use hungry_pixel::game::GameState;
use hungry_pixel::geometry::UNIT;
use hungry_pixel::msg::{Key, MenuMsg, Msg, KEY_DOWN, KEY_RETURN, KEY_UP};
use hungry_pixel::screen::Screen;

fn is_options(s: &Screen) -> bool {
    matches!(s, Screen::Options(_))
}

#[test]
fn main_menu_down_enter_opens_options_on_top() {
    let mut e = Engine::new();
    e.states_stack.push(main_menu());
    assert_eq!(e.update(Msg::ButtonPressed(Key(KEY_DOWN))), None);
    match &e.states_stack[0] {
        Screen::Menu(m) => assert_eq!(m.currently_selected, 1),
        _ => panic!("main menu expected"),
    }
    assert_eq!(e.update(Msg::ButtonPressed(Key(KEY_RETURN))), None);
    assert_eq!(e.states_stack.len(), 2);
    assert!(matches!(e.states_stack[0], Screen::Menu(_)));
    assert!(is_options(&e.states_stack[1]));
}

#[test]
fn winning_replaces_whole_stack() {
    let mut e = Engine::new();
    e.states_stack.push(main_menu());
    e.update(Msg::StartGame);
    assert_eq!(e.states_stack.len(), 2);
    e.update(Msg::MenuCommand(MenuMsg::ShowGameMenu));
    assert_eq!(e.states_stack.len(), 3);
    e.update(Msg::MenuCommand(MenuMsg::ResumeGame));
    assert_eq!(e.states_stack.len(), 2);
    if let Screen::Game(g) = &mut e.states_stack[1] {
        g.player.resize(365 * UNIT);
    }
    assert_eq!(e.update(Msg::Tick(1)), None);
    assert_eq!(e.states_stack.len(), 1);
    match &e.states_stack[0] {
        Screen::Static(s) => assert_eq!(s.next_msg, Msg::ShowCredits),
        _ => panic!("win screen expected"),
    }
}

#[test]
fn game_over_replaces_whole_stack() {
    let mut e = Engine::new();
    e.states_stack.push(main_menu());
    let mut g = GameState::new();
    g.player.resize(-(18 * UNIT));
    e.states_stack.push(Screen::Game(g));
    e.update(Msg::Tick(5000));
    assert_eq!(e.states_stack.len(), 1);
    match &e.states_stack[0] {
        Screen::Static(s) => assert_eq!(s.next_msg, Msg::MenuCommand(MenuMsg::ToMainMenu)),
        _ => panic!("game over screen expected"),
    }
}

#[test]
fn pop_state_and_exit() {
    let mut e = Engine::new();
    e.states_stack.push(main_menu());
    e.update(Msg::ShowOptions);
    e.update(Msg::ShowOptions);
    assert_eq!(e.states_stack.len(), 3);
    e.update(Msg::PopState(5));
    assert_eq!(e.states_stack.len(), 1);
    assert!(matches!(e.states_stack[0], Screen::Menu(_)));
    e.update(Msg::Exit);
    assert!(!e.engine_data.running);
}

#[test]
fn fullscreen_decides_what_is_drawn() {
    let mut e = Engine::new();
    assert_eq!(e.first_visible(), 0);
    e.states_stack.push(main_menu());
    e.update(Msg::StartGame);
    e.update(Msg::MenuCommand(MenuMsg::ShowGameMenu));
    assert_eq!(e.first_visible(), 1);
}

#[test]
fn nothing_drawn_without_a_fullscreen_screen() {
    let mut e = Engine::new();
    e.states_stack.push(main_menu());
    e.update(Msg::MenuCommand(MenuMsg::ShowGameMenu));
    e.states_stack.remove(0);
    assert_eq!(e.states_stack.len(), 1);
    assert_eq!(e.first_visible(), 1);
}

#[test]
fn resuming_the_last_screen_leaves_the_main_menu() {
    let mut e = Engine::new();
    e.states_stack.push(main_menu());
    e.update(Msg::MenuCommand(MenuMsg::ShowGameMenu));
    e.states_stack.remove(0);
    e.update(Msg::ButtonPressed(Key(KEY_RETURN)));
    assert_eq!(e.states_stack.len(), 1);
    match &e.states_stack[0] {
        Screen::Menu(m) => assert_eq!(m.menu_items.len(), 4),
        _ => panic!("main menu expected"),
    }
}

#[test]
fn repeated_key_downs_in_a_frame_count_once() {
    let mut e = Engine::new();
    e.begin_frame();
    e.accept_event(InputEvent::KeyDown(Key(KEY_UP)));
    e.accept_event(InputEvent::KeyDown(Key(KEY_UP)));
    e.accept_event(InputEvent::KeyUp(Key(KEY_UP)));
    e.accept_event(InputEvent::Other);
    e.accept_event(InputEvent::Quit);
    assert_eq!(
        e.messages.iter().copied().collect::<Vec<_>>(),
        vec![Msg::ButtonPressed(Key(KEY_UP)), Msg::ButtonReleased(Key(KEY_UP)), Msg::Exit]
    );
    e.begin_frame();
    e.accept_event(InputEvent::KeyDown(Key(KEY_UP)));
    assert_eq!(e.messages.len(), 4);
}

#[test]
fn queue_drains_and_options_messages_come_back() {
    let mut e = Engine::new();
    e.states_stack.push(main_menu());
    e.update(Msg::ShowOptions);
    e.messages.push_back(Msg::ButtonPressed(Key(KEY_RETURN)));
    e.process_messages();
    assert!(e.messages.is_empty());
    match &e.states_stack[1] {
        Screen::Options(o) => assert_eq!(o.current_receiver, Some(hungry_pixel::msg::Movement::Up)),
        _ => panic!("options expected"),
    }
    e.messages.push_back(Msg::ButtonPressed(Key(119)));
    e.process_messages();
    assert!(e.messages.is_empty());
    assert_eq!(e.bindings.get(Key(119)), Some(hungry_pixel::msg::Movement::Up));
    e.push_tick(16);
    assert_eq!(e.messages.len(), 1);
}

#[test]
fn message_no_screen_takes_is_dropped() {
    let mut e = Engine::new();
    e.states_stack.push(main_menu());
    e.update(Msg::ShowOptions);
    e.messages.push_back(Msg::ButtonPressed(Key(KEY_RETURN)));
    e.messages.push_back(Msg::ButtonPressed(Key(hungry_pixel::msg::KEY_ESCAPE)));
    e.process_messages();
    assert!(e.messages.is_empty());
    assert_eq!(e.states_stack.len(), 1);
    e.process_messages();
    assert!(e.messages.is_empty());
}

#[test]
fn frame_pacing() {
    assert_eq!(frame_delay(5), 10);
    assert_eq!(frame_delay(15), 0);
    assert_eq!(frame_delay(40), 0);
}

#[test]
fn intro_leads_to_main_menu() {
    let mut e = Engine::new();
    e.start_game();
    e.update(Msg::Tick(1000));
    assert_eq!(e.update(Msg::ButtonPressed(Key(KEY_UP))), None);
    assert_eq!(e.states_stack.len(), 1);
    assert!(matches!(e.states_stack[0], Screen::Menu(_)));
}
