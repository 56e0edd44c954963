use scene_stack::game::MainState;
use scene_stack::input::{Axis, Button, Event, KeyCode};
use scene_stack::level::LevelScene;
use scene_stack::menu::MenuScene;
use scene_stack::scene::Scene;
use scene_stack::stack::Stack;
use scene_stack::title::TitleScene;
use scene_stack::useript::UserInputScene;
use scene_stack::world::World;

fn title_index(s: &Scene) -> usize {
    match s {
        Scene::Title(t) => t.menu_idx,
        _ => panic!("expected the title scene"),
    }
}

fn typed_text(s: &Scene) -> Vec<char> {
    match s {
        Scene::UserInput(u) => u.input_text.clone(),
        _ => panic!("expected the text prompt"),
    }
}

#[test]
fn pop_on_a_single_scene_is_refused() {
    let world = World::new();
    let initial = Scene::Title(TitleScene::new(&world));
    let mut st = Stack::new(world, initial);
    assert!(st.pop().is_none());
    assert_eq!(st.len(), 1);
    assert_eq!(st.current().name(), "TitleScene");
}

#[test]
fn push_then_pop_restores_the_scene_beneath() {
    let world = World::new();
    let mut title = TitleScene::new(&world);
    title.menu_idx = 1;
    let mut st = Stack::new(world, Scene::Title(title));
    let level = LevelScene::new(st.world());
    st.push(Scene::Level(level));
    assert_eq!(st.len(), 2);
    assert_eq!(st.current().name(), "LevelScene");
    let popped = st.pop();
    assert!(matches!(popped, Some(Scene::Level(_))));
    assert_eq!(st.len(), 1);
    assert_eq!(st.current().name(), "TitleScene");
    assert_eq!(title_index(st.current()), 1);
}

#[test]
fn active_scene_is_most_recent_push() {
    let world = World::new();
    let initial = Scene::Title(TitleScene::new(&world));
    let mut st = Stack::new(world, initial);
    let m = MenuScene::new(st.world());
    st.push(Scene::Menu(m));
    let l = LevelScene::new(st.world());
    st.push(Scene::Level(l));
    let u = UserInputScene::new(st.world());
    st.push(Scene::UserInput(u));
    assert_eq!(st.current().name(), "UserInputScene");
    st.pop();
    assert_eq!(st.current().name(), "LevelScene");
    st.pop();
    assert_eq!(st.current().name(), "MenuScene");
    st.pop();
    assert_eq!(st.current().name(), "TitleScene");
    st.pop();
    assert_eq!(st.len(), 1);
}

#[test]
fn no_change_update_keeps_the_stack() {
    let world = World::new();
    let initial = Scene::Title(TitleScene::new(&world));
    let mut st = Stack::new(world, initial);
    let l = LevelScene::new(st.world());
    st.push(Scene::Level(l));
    st.update();
    st.update();
    assert_eq!(st.len(), 2);
    assert_eq!(st.current().name(), "LevelScene");
}

#[test]
fn suspended_scene_receives_no_input() {
    let world = World::new();
    let initial = Scene::Title(TitleScene::new(&world));
    let mut st = Stack::new(world, initial);
    let l = LevelScene::new(st.world());
    st.push(Scene::Level(l));
    st.input(Event::Axis(Axis::Vert, true), true);
    st.pop();
    assert_eq!(title_index(st.current()), 0);
}

#[test]
fn stack_update_applies_transitions() {
    let world = World::new();
    let initial = Scene::Level(LevelScene::new(&world));
    let mut st = Stack::new(world, initial);
    st.input(Event::Button(Button::Menu), true);
    st.update();
    assert_eq!(st.len(), 2);
    assert_eq!(st.current().name(), "MenuScene");
    st.input(Event::Button(Button::Confirm), true);
    st.update();
    assert_eq!(st.len(), 1);
    assert_eq!(st.current().name(), "LevelScene");
    st.update();
    assert_eq!(st.len(), 1);
}

#[test]
fn menu_pop_on_last_scene_keeps_it() {
    let world = World::new();
    let initial = Scene::Menu(MenuScene::new(&world));
    let mut st = Stack::new(world, initial);
    st.input(Event::Button(Button::Confirm), true);
    st.update();
    assert_eq!(st.len(), 1);
    assert_eq!(st.current().name(), "MenuScene");
}

#[test]
fn unbound_key_changes_nothing() {
    let mut app = MainState::new();
    app.text_input_event('a');
    app.key_down_event(KeyCode::Space);
    app.key_up_event(KeyCode::Other(99));
    assert_eq!(app.scenes.len(), 1);
    assert_eq!(typed_text(app.scenes.current()), vec!['a']);
    assert!(!app.scenes.world().input.menu);
    assert!(!app.scenes.world().input.confirm);
    assert!(!app.scenes.world().input.delete);
    assert_eq!(app.scenes.world().input.vert, 0);
}

#[test]
fn key_events_drive_the_prompt() {
    let mut app = MainState::new();
    assert_eq!(app.scenes.current().name(), "UserInputScene");
    for c in "bob".chars() {
        app.text_input_event(c);
    }
    app.key_down_event(KeyCode::Back);
    assert!(app.scenes.world().input.delete);
    // The character the backspace key produces is not typed.
    app.text_input_event('\u{8}');
    app.key_up_event(KeyCode::Back);
    assert!(!app.scenes.world().input.delete);
    assert_eq!(typed_text(app.scenes.current()), vec!['b', 'o']);
    app.key_down_event(KeyCode::Return);
    app.key_up_event(KeyCode::Return);
    app.update();
    assert_eq!(app.scenes.len(), 2);
    assert_eq!(app.scenes.current().name(), "MenuScene");
    app.key_down_event(KeyCode::Escape);
    app.update();
    assert_eq!(app.scenes.len(), 1);
    assert_eq!(typed_text(app.scenes.current()), vec!['b', 'o']);
}
