use hungry_pixel::bindings::KeyBindings;
use hungry_pixel::font::{ColorMod, RenderableText};
use hungry_pixel::menu::{MenuPosition, MenuState};
use hungry_pixel::model::Model;
use hungry_pixel::msg::{
    Key, MenuMsg, Movement, Msg, KEY_DOWN, KEY_ESCAPE, KEY_LEFT, KEY_RETURN, KEY_RIGHT, KEY_UP,
};
use hungry_pixel::options::OptionsState;
use hungry_pixel::static_screen::StaticState;

fn three_item_menu(on_escape: Option<Msg>) -> MenuState {
    MenuState::new(
        vec![
            ("A".to_string(), Msg::StartGame),
            ("B".to_string(), Msg::ShowOptions),
            ("C".to_string(), Msg::Exit),
        ],
        on_escape,
        MenuPosition::Centered,
        None,
        true,
    )
}

#[test]
fn menu_selection_wraps_both_ways() {
    let mut m = three_item_menu(None);
    assert_eq!(m.process_button(Key(KEY_UP)), None);
    assert_eq!(m.currently_selected, 2);
    assert_eq!(m.process_button(Key(KEY_DOWN)), None);
    assert_eq!(m.currently_selected, 0);
    m.process_button(Key(KEY_DOWN));
    assert_eq!(m.process_button(Key(KEY_RETURN)), Some(Msg::ShowOptions));
}

#[test]
fn menu_escape_sends_configured_message_or_nothing() {
    let mut m = three_item_menu(None);
    assert_eq!(m.process_button(Key(KEY_ESCAPE)), None);
    let mut n = three_item_menu(Some(Msg::PopState(1)));
    assert_eq!(n.process_button(Key(KEY_ESCAPE)), Some(Msg::PopState(1)));
    assert_eq!(n.process_message(Msg::Tick(5)), None);
    assert_eq!(n.process_message(Msg::ButtonReleased(Key(KEY_UP))), None);
    assert_eq!(n.process_message(Msg::ShowCredits), Some(Msg::ShowCredits));
    assert!(n.is_fullscreen());
}

#[test]
fn menu_item_text_changes() {
    let mut m = three_item_menu(None);
    m.change_item_text(1, "Bee".to_string());
    assert_eq!(m.menu_items[1].text, "Bee");
    assert!(m.is_dirty);
    m.labels_drawn();
    assert!(!m.is_dirty);
    assert_eq!(m.menu_items[1].text, "Bee");
}

#[test]
fn static_screen_waits_then_sends_next() {
    let mut s = StaticState::new(vec![RenderableText::new("x".to_string())], 1000, Msg::ShowCredits);
    assert_eq!(s.process_message(Msg::ButtonPressed(Key(KEY_UP))), None);
    assert_eq!(s.process_message(Msg::Tick(600)), None);
    assert!(!s.skippable);
    assert_eq!(s.process_message(Msg::ButtonPressed(Key(KEY_UP))), None);
    s.process_message(Msg::Tick(400));
    assert!(s.skippable);
    assert_eq!(s.process_message(Msg::ButtonPressed(Key(KEY_UP))), Some(Msg::ShowCredits));
    assert_eq!(s.process_message(Msg::StartGame), None);
    assert!(s.is_fullscreen());
}

#[test]
fn remap_binds_one_key_per_direction() {
    let mut b = KeyBindings::new();
    b.remap(Movement::Up, Key(KEY_LEFT));
    assert_eq!(b.get(Key(KEY_LEFT)), Some(Movement::Up));
    assert_eq!(b.get(Key(KEY_UP)), None);
    assert_eq!(b.key_for(Movement::Left), None);
    assert_eq!(b.key_for(Movement::Down), Some(Key(KEY_DOWN)));
    b.remap(Movement::Left, Key(119));
    assert_eq!(b.get(Key(119)), Some(Movement::Left));
    assert_eq!(b.key_for(Movement::Right), Some(Key(KEY_RIGHT)));
}

#[test]
fn options_capture_next_key() {
    let mut b = KeyBindings::new();
    let mut o = OptionsState::new();
    o.update_mappings(&b);
    assert_eq!(o.shown_keys[0], Some(Key(KEY_UP)));
    assert!(!o.is_dirty);
    assert_eq!(o.process_message(&mut b, Msg::ButtonPressed(Key(KEY_DOWN))), None);
    let sel = o.process_message(&mut b, Msg::ButtonPressed(Key(KEY_RETURN)));
    assert_eq!(sel, Some(Msg::OptionsSelect(Movement::Down)));
    assert_eq!(o.process_message(&mut b, sel.unwrap()), None);
    assert_eq!(o.current_receiver, Some(Movement::Down));
    let set = o.process_message(&mut b, Msg::ButtonPressed(Key(115)));
    assert_eq!(set, Some(Msg::OptionsSet(Key(115))));
    assert_eq!(o.process_message(&mut b, set.unwrap()), None);
    assert_eq!(o.current_receiver, None);
    assert_eq!(b.get(Key(115)), Some(Movement::Down));
    assert_eq!(b.get(Key(KEY_DOWN)), None);
    assert!(o.is_dirty);
    o.update_mappings(&b);
    assert_eq!(o.shown_keys[1], Some(Key(115)));
    assert_eq!(o.process_message(&mut b, Msg::ButtonPressed(Key(KEY_ESCAPE))), Some(Msg::PopState(1)));
}

#[test]
fn text_colours() {
    let mut t = RenderableText::new("hi".to_string());
    assert_eq!(t.color_mod, ColorMod(255, 255, 255, 255));
    t.set_color(ColorMod(1, 2, 3, 4));
    assert_eq!(t.color_mod, ColorMod(1, 2, 3, 4));
    let g = RenderableText::with_color("g".to_string(), ColorMod::from((0, 255, 0, 0)));
    assert_eq!(g.color_mod, ColorMod(0, 255, 0, 0));
    assert_eq!(ColorMod::default(), ColorMod(255, 255, 255, 255));
}

#[test]
fn model_defaults() {
    let m = Model::new();
    assert!(m.running);
    assert_eq!(m.window_size, (1024, 768));
    assert_eq!(m.message, "Hello world");
}

#[test]
fn movement_names() {
    assert_eq!(Movement::Up.name(), "Up");
    assert_eq!(Movement::Right.name(), "Right");
    let _ = MenuMsg::ToMainMenu;
}

#[test]
fn empty_menu_only_answers_escape() {
    let mut m = MenuState::new(vec![], Some(Msg::PopState(1)), MenuPosition::Pos(3, 4), None, false);
    assert_eq!(m.currently_selected, 0);
    assert_eq!(m.process_button(Key(KEY_UP)), None);
    assert_eq!(m.process_button(Key(KEY_DOWN)), None);
    assert_eq!(m.currently_selected, 0);
    assert_eq!(m.process_button(Key(KEY_RETURN)), None);
    assert_eq!(m.process_button(Key(KEY_ESCAPE)), Some(Msg::PopState(1)));
}
