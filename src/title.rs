use vstd::prelude::*;

use crate::input::{Axis, Button, Event};
use crate::level::LevelScene;
use crate::scene::{direction_value, step_index, Scene, SceneSwitch, SwitchModel, SceneModel};
use crate::world::World;

verus! {

/// Number of entries in the title menu.
pub const TITLE_OPTIONS: usize = 2;

/// The opening screen: a menu of `TITLE_OPTIONS` entries and a cursor.
pub struct TitleScene {
    pub menu_idx: usize,
    pub done: bool,
}

/// Position in a menu of `count` entries after an axis push of `value`.
pub fn next_menu_index(idx: usize, value: i8, count: usize) -> (r: usize)
    requires
        idx < count,
    ensures
        r == step_index(idx as nat, value as int, count as nat),
        r < count,
{
    if value == -1 {
        if idx > 0 {
            idx - 1
        } else {
            count - 1
        }
    } else if value == 1 {
        (idx + 1) % count
    } else {
        idx
    }
}

impl TitleScene {
    /// The cursor on the first entry, not done.
    pub fn new(_world: &World) -> (r: TitleScene)
        ensures
            r.menu_idx == 0,
            !r.done,
    {
        TitleScene { menu_idx: 0, done: false }
    }

    /// Starts a level once the player has confirmed.
    pub fn update(&mut self, world: &World) -> (r: SceneSwitch)
        ensures
            final(self).menu_idx == old(self).menu_idx,
            !final(self).done,
            r@ == (if old(self).done {
                SwitchModel::Push(SceneModel::Level { done: false })
            } else {
                SwitchModel::NoChange
            }),
    {
        if self.done {
            self.done = false;
            SceneSwitch::Push(Scene::Level(LevelScene::new(world)))
        } else {
            SceneSwitch::NoChange
        }
    }

    /// Moves the cursor on a vertical axis push; a confirm press marks the
    /// scene done.
    pub fn input(&mut self, _world: &World, ev: Event, started: bool)
        requires
            old(self).menu_idx < TITLE_OPTIONS,
        ensures
            final(self).menu_idx == (match ev {
                Event::Axis(Axis::Vert, positive) if started => step_index(
                    old(self).menu_idx as nat,
                    direction_value(positive),
                    TITLE_OPTIONS as nat,
                ),
                _ => old(self).menu_idx as nat,
            }),
            final(self).done == (old(self).done || (started && ev == Event::Button(
                Button::Confirm,
            ))),
    {
        if started {
            match ev {
                Event::Axis(Axis::Vert, positive) => {
                    let value: i8 = if positive { 1 } else { -1 };
                    self.menu_idx = next_menu_index(self.menu_idx, value, TITLE_OPTIONS);
                },
                Event::Button(Button::Confirm) => {
                    self.done = true;
                },
                _ => {},
            }
        }
    }
}

} // verus!
