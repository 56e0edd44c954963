use vstd::prelude::*;

use crate::input::{Button, Event};
use crate::scene::{SceneSwitch, SwitchModel};
use crate::world::World;

verus! {

/// The in-game menu: closes on a confirm or menu press.
pub struct MenuScene {
    pub done: bool,
}

impl MenuScene {
    /// A menu that is not done.
    pub fn new(_world: &World) -> (r: MenuScene)
        ensures
            !r.done,
    {
        MenuScene { done: false }
    }

    /// Asks to be popped once closed, and clears the flag so that the
    /// request is made once per press.
    pub fn update(&mut self, _world: &World) -> (r: SceneSwitch)
        ensures
            !final(self).done,
            r@ == (if old(self).done {
                SwitchModel::Pop
            } else {
                SwitchModel::NoChange
            }),
    {
        if self.done {
            self.done = false;
            SceneSwitch::Pop
        } else {
            SceneSwitch::NoChange
        }
    }

    /// A confirm or menu press marks the scene done.
    pub fn input(&mut self, _world: &World, ev: Event, started: bool)
        ensures
            final(self).done == (old(self).done || (started && (ev == Event::Button(
                Button::Confirm,
            ) || ev == Event::Button(Button::Menu)))),
    {
        if started {
            match ev {
                Event::Button(Button::Confirm) | Event::Button(Button::Menu) => {
                    self.done = true;
                },
                _ => {},
            }
        }
    }
}

} // verus!
