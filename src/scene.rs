use vstd::prelude::*;

use crate::input::{Axis, Button, Event};
use crate::level::LevelScene;
use crate::menu::MenuScene;
use crate::title::{TitleScene, TITLE_OPTIONS};
use crate::useript::{UserInputScene, INPUT_MAX_CHAR};
use crate::world::World;

verus! {

/// The abstract state of a scene.
pub enum SceneModel {
    Title { menu_idx: nat, done: bool },
    Menu { done: bool },
    UserInput { text: Seq<char>, done: bool },
    Level { done: bool },
}

/// The abstract form of a transition request.
pub enum SwitchModel {
    NoChange,
    Pop,
    Push(SceneModel),
}

/// Position in a menu of `count` entries after an axis push of `value`:
/// -1 moves back, wrapping from the first entry to the last; 1 moves on,
/// modulo `count`; anything else stays.
pub open spec fn step_index(idx: nat, value: int, count: nat) -> nat {
    if value == -1 {
        if idx > 0 { (idx - 1) as nat } else { (count - 1) as nat }
    } else if value == 1 {
        ((idx + 1) % count) as nat
    } else {
        idx
    }
}

/// The axis value an axis event stands for.
pub open spec fn direction_value(positive: bool) -> int {
    if positive { 1 } else { -1 }
}

/// Whether `ev` is a press of `button`.
pub open spec fn is_press(ev: Event, started: bool, button: Button) -> bool {
    started && ev == Event::Button(button)
}

impl SceneModel {
    pub open spec fn wf(self) -> bool {
        match self {
            SceneModel::Title { menu_idx, .. } => menu_idx < TITLE_OPTIONS,
            SceneModel::UserInput { text, .. } => text.len() <= INPUT_MAX_CHAR,
            _ => true,
        }
    }

    pub open spec fn done(self) -> bool {
        match self {
            SceneModel::Title { done, .. } => done,
            SceneModel::Menu { done } => done,
            SceneModel::UserInput { done, .. } => done,
            SceneModel::Level { done } => done,
        }
    }

    /// The transition a scene requests on its next update: none unless it
    /// is done; then Title starts a level, Menu returns to what lies beneath,
    /// and UserInput and Level open the menu.
    pub open spec fn switch(self) -> SwitchModel {
        if !self.done() {
            SwitchModel::NoChange
        } else {
            match self {
                SceneModel::Title { .. } => SwitchModel::Push(SceneModel::Level { done: false }),
                SceneModel::Menu { .. } => SwitchModel::Pop,
                SceneModel::UserInput { .. } => SwitchModel::Push(SceneModel::Menu { done: false }),
                SceneModel::Level { .. } => SwitchModel::Push(SceneModel::Menu { done: false }),
            }
        }
    }

    /// The scene after an update: its completion flag is cleared.
    pub open spec fn after_update(self) -> SceneModel {
        match self {
            SceneModel::Title { menu_idx, .. } => SceneModel::Title { menu_idx, done: false },
            SceneModel::Menu { .. } => SceneModel::Menu { done: false },
            SceneModel::UserInput { text, .. } => SceneModel::UserInput { text, done: false },
            SceneModel::Level { .. } => SceneModel::Level { done: false },
        }
    }

    /// The scene after it receives `ev`.
    pub open spec fn after_input(self, ev: Event, started: bool) -> SceneModel {
        match self {
            SceneModel::Title { menu_idx, done } => SceneModel::Title {
                menu_idx: match ev {
                    Event::Axis(Axis::Vert, positive) if started => step_index(
                        menu_idx,
                        direction_value(positive),
                        TITLE_OPTIONS as nat,
                    ),
                    _ => menu_idx,
                },
                done: done || is_press(ev, started, Button::Confirm),
            },
            SceneModel::Menu { done } => SceneModel::Menu {
                done: done || is_press(ev, started, Button::Confirm) || is_press(
                    ev,
                    started,
                    Button::Menu,
                ),
            },
            SceneModel::UserInput { text, done } => SceneModel::UserInput {
                text: if is_press(ev, started, Button::Delete) && text.len() > 0 {
                    text.drop_last()
                } else {
                    text
                },
                done: done || is_press(ev, started, Button::Confirm),
            },
            SceneModel::Level { done } => SceneModel::Level {
                done: done || is_press(ev, started, Button::Menu),
            },
        }
    }

    /// The scene after a typed character `c`; `control_held` says whether
    /// the delete or confirm button is down, in which case the character
    /// came from that key and is dropped.
    pub open spec fn after_text(self, c: char, control_held: bool) -> SceneModel {
        match self {
            SceneModel::UserInput { text, done } => SceneModel::UserInput {
                text: if !control_held && text.len() < INPUT_MAX_CHAR {
                    text.push(c)
                } else {
                    text
                },
                done,
            },
            _ => self,
        }
    }
}

/// The scene after the characters `cs` are typed, first to last, with no
/// control button held.
pub open spec fn after_chars(m: SceneModel, cs: Seq<char>) -> SceneModel
    decreases cs.len(),
{
    if cs.len() == 0 {
        m
    } else {
        after_chars(m, cs.drop_last()).after_text(cs.last(), false)
    }
}

pub open spec fn min(a: int, b: int) -> int {
    if a < b { a } else { b }
}

/// Typing into the text prompt appends each character in order until the
/// buffer holds `INPUT_MAX_CHAR` characters; characters beyond that are
/// dropped.
pub proof fn lemma_typing_fills_to_max(text: Seq<char>, done: bool, cs: Seq<char>)
    requires
        text.len() <= INPUT_MAX_CHAR,
    ensures
        after_chars(SceneModel::UserInput { text, done }, cs) == (SceneModel::UserInput {
            text: (text + cs).take(min((text + cs).len() as int, INPUT_MAX_CHAR as int)),
            done,
        }),
    decreases cs.len(),
{
    if cs.len() == 0 {
        assert((text + cs).take(text.len() as int) =~= text);
    } else {
        let pre = cs.drop_last();
        lemma_typing_fills_to_max(text, done, pre);
        assert((text + pre) =~= (text + cs).drop_last());
        let n = min((text + pre).len() as int, INPUT_MAX_CHAR as int);
        let t = (text + pre).take(n);
        if t.len() < INPUT_MAX_CHAR {
            assert(t.push(cs.last()) =~= (text + cs).take(n + 1));
        } else {
            assert(t =~= (text + cs).take(INPUT_MAX_CHAR as int));
        }
    }
}

/// A confirm press on a menu that is not done marks it done; the next
/// update asks for exactly one pop and clears the flag, so the update after
/// that asks for nothing until a new press.
pub proof fn lemma_menu_confirm_pops_once()
    ensures
        ({
            let pressed = SceneModel::Menu { done: false }.after_input(
                Event::Button(Button::Confirm),
                true,
            );
            &&& pressed == SceneModel::Menu { done: true }
            &&& pressed.switch() == SwitchModel::Pop
            &&& pressed.after_update() == SceneModel::Menu { done: false }
            &&& pressed.after_update().switch() == SwitchModel::NoChange
        }),
{
}

/// One screen of the application.
pub enum Scene {
    Title(TitleScene),
    Menu(MenuScene),
    UserInput(UserInputScene),
    Level(LevelScene),
}

/// What a scene's update asks of the stack.
pub enum SceneSwitch {
    NoChange,
    Pop,
    Push(Scene),
}

impl View for Scene {
    type V = SceneModel;

    open spec fn view(&self) -> SceneModel {
        match self {
            Scene::Title(s) => SceneModel::Title { menu_idx: s.menu_idx as nat, done: s.done },
            Scene::Menu(s) => SceneModel::Menu { done: s.done },
            Scene::UserInput(s) => SceneModel::UserInput { text: s.input_text@, done: s.done },
            Scene::Level(s) => SceneModel::Level { done: s.done },
        }
    }
}

impl View for SceneSwitch {
    type V = SwitchModel;

    open spec fn view(&self) -> SwitchModel {
        match self {
            SceneSwitch::NoChange => SwitchModel::NoChange,
            SceneSwitch::Pop => SwitchModel::Pop,
            SceneSwitch::Push(s) => SwitchModel::Push(s@),
        }
    }
}

impl Scene {
    /// Advances the scene by one tick and returns the transition it asks for.
    pub fn update(&mut self, world: &World) -> (r: SceneSwitch)
        requires
            old(self)@.wf(),
        ensures
            final(self)@ == old(self)@.after_update(),
            final(self)@.wf(),
            r@ == old(self)@.switch(),
    {
        match self {
            Scene::Title(s) => s.update(world),
            Scene::Menu(s) => s.update(world),
            Scene::UserInput(s) => s.update(world),
            Scene::Level(s) => s.update(world),
        }
    }

    /// Delivers one logical event to the scene.
    pub fn input(&mut self, world: &World, ev: Event, started: bool)
        requires
            old(self)@.wf(),
        ensures
            final(self)@ == old(self)@.after_input(ev, started),
            final(self)@.wf(),
    {
        match self {
            Scene::Title(s) => s.input(world, ev, started),
            Scene::Menu(s) => s.input(world, ev, started),
            Scene::UserInput(s) => s.input(world, ev, started),
            Scene::Level(s) => s.input(world, ev, started),
        }
    }

    /// Delivers one typed character to the scene.
    pub fn text_input_event(&mut self, world: &World, c: char)
        requires
            old(self)@.wf(),
        ensures
            final(self)@ == old(self)@.after_text(
                c,
                world.input.delete || world.input.confirm,
            ),
            final(self)@.wf(),
    {
        match self {
            Scene::UserInput(s) => s.text_input_event(world, c),
            _ => {},
        }
    }

    /// The scene's name.
    pub fn name(&self) -> (r: &'static str)
        ensures
            r@ == (match self {
                Scene::Title(_) => "TitleScene"@,
                Scene::Menu(_) => "MenuScene"@,
                Scene::UserInput(_) => "UserInputScene"@,
                Scene::Level(_) => "LevelScene"@,
            }),
    {
        match self {
            Scene::Title(_) => "TitleScene",
            Scene::Menu(_) => "MenuScene",
            Scene::UserInput(_) => "UserInputScene",
            Scene::Level(_) => "LevelScene",
        }
    }
}

} // verus!
