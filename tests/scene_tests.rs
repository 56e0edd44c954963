use scene_stack::input::{Axis, Button, Event};
use scene_stack::level::LevelScene;
use scene_stack::menu::MenuScene;
use scene_stack::scene::{Scene, SceneSwitch};
use scene_stack::title::{next_menu_index, TitleScene, TITLE_OPTIONS};
use scene_stack::useript::{UserInputScene, INPUT_MAX_CHAR};
use scene_stack::world::World;

fn is_no_change(sw: &SceneSwitch) -> bool {
    matches!(sw, SceneSwitch::NoChange)
}

#[test]
fn menu_index_wraps_backwards_and_forwards() {
    assert_eq!(next_menu_index(0, -1, 2), 1);
    assert_eq!(next_menu_index(1, -1, 2), 0);
    assert_eq!(next_menu_index(0, 1, 2), 1);
    assert_eq!(next_menu_index(1, 1, 2), 0);
    assert_eq!(next_menu_index(3, 1, 5), 4);
    assert_eq!(next_menu_index(4, 1, 5), 0);
    assert_eq!(next_menu_index(2, -1, 5), 1);
    assert_eq!(next_menu_index(0, -1, 5), 4);
    assert_eq!(next_menu_index(2, 0, 5), 2);
}

#[test]
fn title_cursor_moves_on_vertical_axis() {
    let world = World::new();
    let mut t = TitleScene::new(&world);
    assert_eq!(t.menu_idx, 0);
    assert_eq!(TITLE_OPTIONS, 2);
    // Down is the negative direction: -1 from the first entry wraps to the last.
    t.input(&world, Event::Axis(Axis::Vert, false), true);
    assert_eq!(t.menu_idx, 1);
    t.input(&world, Event::Axis(Axis::Vert, false), true);
    assert_eq!(t.menu_idx, 0);
    t.input(&world, Event::Axis(Axis::Vert, true), true);
    assert_eq!(t.menu_idx, 1);
    t.input(&world, Event::Axis(Axis::Vert, true), true);
    assert_eq!(t.menu_idx, 0);
    // Releases and the other axis leave the cursor.
    t.input(&world, Event::Axis(Axis::Vert, true), false);
    t.input(&world, Event::Axis(Axis::Horz, true), true);
    assert_eq!(t.menu_idx, 0);
    assert!(!t.done);
}

#[test]
fn title_confirm_starts_a_level() {
    let world = World::new();
    let mut t = TitleScene::new(&world);
    assert!(is_no_change(&t.update(&world)));
    t.input(&world, Event::Button(Button::Confirm), true);
    assert!(t.done);
    match t.update(&world) {
        SceneSwitch::Push(Scene::Level(l)) => assert!(!l.done),
        _ => panic!("expected a level to be pushed"),
    }
    assert!(!t.done);
    assert!(is_no_change(&t.update(&world)));
}

#[test]
fn user_input_types_up_to_the_maximum() {
    let mut world = World::new();
    let mut u = UserInputScene::new(&world);
    assert_eq!(INPUT_MAX_CHAR, 25);
    let letters: Vec<char> = "abcdefghijklmnopqrstuvwxy".chars().collect();
    for c in letters.iter() {
        u.text_input_event(&world, *c);
    }
    assert_eq!(u.input_text, letters);
    u.text_input_event(&world, 'z');
    assert_eq!(u.input_text, letters);
    // A character that arrives while delete is held is not typed.
    let mut v = UserInputScene::new(&world);
    world.input.update_effect(Event::Button(Button::Delete), true);
    v.text_input_event(&world, 'q');
    assert!(v.input_text.is_empty());
    world.input.update_effect(Event::Button(Button::Delete), false);
    v.text_input_event(&world, 'q');
    assert_eq!(v.input_text, vec!['q']);
}

#[test]
fn user_input_delete_removes_last_character() {
    let world = World::new();
    let mut u = UserInputScene::new(&world);
    u.input(&world, Event::Button(Button::Delete), true);
    assert!(u.input_text.is_empty());
    u.text_input_event(&world, 'a');
    u.text_input_event(&world, 'b');
    u.input(&world, Event::Button(Button::Delete), true);
    assert_eq!(u.input_text, vec!['a']);
    u.input(&world, Event::Button(Button::Delete), false);
    assert_eq!(u.input_text, vec!['a']);
}

#[test]
fn user_input_confirm_opens_the_menu() {
    let world = World::new();
    let mut u = UserInputScene::new(&world);
    u.input(&world, Event::Button(Button::Confirm), true);
    match u.update(&world) {
        SceneSwitch::Push(Scene::Menu(m)) => assert!(!m.done),
        _ => panic!("expected the menu to be pushed"),
    }
    assert!(is_no_change(&u.update(&world)));
}

#[test]
fn menu_confirm_pops_once() {
    let world = World::new();
    let mut m = MenuScene::new(&world);
    assert!(!m.done);
    m.input(&world, Event::Button(Button::Confirm), true);
    assert!(m.done);
    assert!(matches!(m.update(&world), SceneSwitch::Pop));
    assert!(!m.done);
    assert!(is_no_change(&m.update(&world)));
}

#[test]
fn menu_ignores_releases_and_axes() {
    let world = World::new();
    let mut m = MenuScene::new(&world);
    m.input(&world, Event::Button(Button::Confirm), false);
    m.input(&world, Event::Axis(Axis::Vert, true), true);
    m.input(&world, Event::Button(Button::Delete), true);
    assert!(!m.done);
    m.input(&world, Event::Button(Button::Menu), true);
    assert!(m.done);
}

#[test]
fn level_menu_press_opens_the_menu() {
    let world = World::new();
    let mut l = LevelScene::new(&world);
    l.input(&world, Event::Button(Button::Confirm), true);
    assert!(is_no_change(&l.update(&world)));
    l.input(&world, Event::Button(Button::Menu), true);
    assert!(matches!(l.update(&world), SceneSwitch::Push(Scene::Menu(_))));
    assert!(!l.done);
}

#[test]
fn scene_names() {
    let world = World::new();
    assert_eq!(Scene::Title(TitleScene::new(&world)).name(), "TitleScene");
    assert_eq!(Scene::Menu(MenuScene::new(&world)).name(), "MenuScene");
    assert_eq!(Scene::UserInput(UserInputScene::new(&world)).name(), "UserInputScene");
    assert_eq!(Scene::Level(LevelScene::new(&world)).name(), "LevelScene");
}
