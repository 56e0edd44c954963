use vstd::prelude::*;

use crate::input::{Button, Event};
use crate::menu::MenuScene;
use crate::scene::{Scene, SceneModel, SceneSwitch, SwitchModel};
use crate::world::World;

verus! {

/// Most characters the text buffer holds.
pub const INPUT_MAX_CHAR: usize = 25;

/// A prompt with a free-text field.
pub struct UserInputScene {
    pub input_text: Vec<char>,
    pub done: bool,
}

impl UserInputScene {
    /// An empty field, not done.
    pub fn new(_world: &World) -> (r: UserInputScene)
        ensures
            r.input_text@.len() == 0,
            !r.done,
    {
        UserInputScene { input_text: Vec::new(), done: false }
    }

    /// Opens the menu once the text has been confirmed.
    pub fn update(&mut self, world: &World) -> (r: SceneSwitch)
        ensures
            final(self).input_text@ == old(self).input_text@,
            !final(self).done,
            r@ == (if old(self).done {
                SwitchModel::Push(SceneModel::Menu { done: false })
            } else {
                SwitchModel::NoChange
            }),
    {
        if self.done {
            self.done = false;
            SceneSwitch::Push(Scene::Menu(MenuScene::new(world)))
        } else {
            SceneSwitch::NoChange
        }
    }

    /// A delete press removes the last character, if any; a confirm press
    /// marks the scene done.
    pub fn input(&mut self, _world: &World, ev: Event, started: bool)
        ensures
            final(self).input_text@ == (if started && ev == Event::Button(Button::Delete)
                && old(self).input_text@.len() > 0 {
                old(self).input_text@.drop_last()
            } else {
                old(self).input_text@
            }),
            final(self).done == (old(self).done || (started && ev == Event::Button(
                Button::Confirm,
            ))),
    {
        if started {
            match ev {
                Event::Button(Button::Delete) => {
                    let _ = self.input_text.pop();
                },
                Event::Button(Button::Confirm) => {
                    self.done = true;
                },
                _ => {},
            }
        }
    }

    /// Appends `c` unless the field is full or a delete or confirm press is
    /// under way (the character then came from that key).
    pub fn text_input_event(&mut self, world: &World, c: char)
        ensures
            final(self).input_text@ == (if !(world.input.delete || world.input.confirm)
                && old(self).input_text@.len() < INPUT_MAX_CHAR {
                old(self).input_text@.push(c)
            } else {
                old(self).input_text@
            }),
            final(self).done == old(self).done,
    {
        if !(world.input.delete || world.input.confirm)
            && self.input_text.len() < INPUT_MAX_CHAR {
            self.input_text.push(c);
        }
    }
}

} // verus!
