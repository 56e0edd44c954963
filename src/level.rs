use vstd::prelude::*;

use crate::input::{Button, Event};
use crate::menu::MenuScene;
use crate::scene::{Scene, SceneModel, SceneSwitch, SwitchModel};
use crate::world::World;

verus! {

/// The gameplay screen: a menu press opens the menu over it.
pub struct LevelScene {
    pub done: bool,
}

impl LevelScene {
    /// A level that is not done.
    pub fn new(_world: &World) -> (r: LevelScene)
        ensures
            !r.done,
    {
        LevelScene { done: false }
    }

    /// Opens the menu once asked to.
    pub fn update(&mut self, world: &World) -> (r: SceneSwitch)
        ensures
            !final(self).done,
            r@ == (if old(self).done {
                SwitchModel::Push(SceneModel::Menu { done: false })
            } else {
                SwitchModel::NoChange
            }),
    {
        if self.done {
            self.done = false;
            SceneSwitch::Push(Scene::Menu(MenuScene::new(world)))
        } else {
            SceneSwitch::NoChange
        }
    }

    /// A menu press marks the scene done.
    pub fn input(&mut self, _world: &World, ev: Event, started: bool)
        ensures
            final(self).done == (old(self).done || (started && ev == Event::Button(
                Button::Menu,
            ))),
    {
        if started && ev == Event::Button(Button::Menu) {
            self.done = true;
        }
    }
}

} // verus!
