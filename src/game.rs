use vstd::prelude::*;

use crate::input::{create_input_binding, default_key_event, Binding, InputState, KeyCode};
use crate::scene::{Scene, SceneModel};
use crate::stack::{stack_after_input, stack_after_text, stack_after_update, Stack};
use crate::useript::UserInputScene;
use crate::world::World;

verus! {

/// The application's state between platform callbacks: the key binding and
/// the scene stack.
pub struct MainState {
    pub input_binding: Binding,
    pub scenes: Stack,
}

impl MainState {
    pub open spec fn wf(&self) -> bool {
        self.scenes.wf()
    }

    /// The default binding and a stack holding an empty text prompt.
    pub fn new() -> (r: MainState)
        ensures
            r.wf(),
            forall|k: KeyCode| #[trigger] r.input_binding.spec_resolve(k) == default_key_event(k),
            r.scenes@ == seq![SceneModel::UserInput { text: Seq::empty(), done: false }],
            r.scenes.spec_world().input == (InputState {
                menu: false,
                confirm: false,
                delete: false,
                vert: 0,
                horz: 0,
            }),
    {
        let world = World::new();
        let initial = UserInputScene::new(&world);
        assert(initial.input_text@ =~= Seq::<char>::empty());
        let scenes = Stack::new(world, Scene::UserInput(initial));
        MainState { input_binding: create_input_binding(), scenes }
    }

    /// Runs one fixed-rate tick.
    pub fn update(&mut self)
        requires
            old(self).wf(),
        ensures
            final(self).wf(),
            final(self).input_binding == old(self).input_binding,
            final(self).scenes@ == stack_after_update(old(self).scenes@),
            final(self).scenes.spec_world() == old(self).scenes.spec_world(),
    {
        self.scenes.update();
    }

    /// A key went down (`started`) or up: a bound key's event goes to the
    /// active scene and then into the input state; an unbound key changes
    /// nothing.
    pub fn key_event(&mut self, key: KeyCode, started: bool)
        requires
            old(self).wf(),
        ensures
            final(self).wf(),
            match old(self).input_binding.spec_resolve(key) {
                None => *final(self) == *old(self),
                Some(ev) => {
                    &&& final(self).input_binding == old(self).input_binding
                    &&& final(self).scenes@ == stack_after_input(old(self).scenes@, ev, started)
                    &&& final(self).scenes.spec_world().input == old(
                        self,
                    ).scenes.spec_world().input.after(ev, started)
                },
            },
    {
        match self.input_binding.resolve(key) {
            Some(ev) => {
                self.scenes.input(ev, started);
                self.scenes.record_input(ev, started);
            },
            None => {},
        }
    }

    /// A key went down.
    pub fn key_down_event(&mut self, key: KeyCode)
        requires
            old(self).wf(),
        ensures
            final(self).wf(),
            match old(self).input_binding.spec_resolve(key) {
                None => *final(self) == *old(self),
                Some(ev) => {
                    &&& final(self).input_binding == old(self).input_binding
                    &&& final(self).scenes@ == stack_after_input(old(self).scenes@, ev, true)
                    &&& final(self).scenes.spec_world().input == old(
                        self,
                    ).scenes.spec_world().input.after(ev, true)
                },
            },
    {
        self.key_event(key, true)
    }

    /// A key went up.
    pub fn key_up_event(&mut self, key: KeyCode)
        requires
            old(self).wf(),
        ensures
            final(self).wf(),
            match old(self).input_binding.spec_resolve(key) {
                None => *final(self) == *old(self),
                Some(ev) => {
                    &&& final(self).input_binding == old(self).input_binding
                    &&& final(self).scenes@ == stack_after_input(old(self).scenes@, ev, false)
                    &&& final(self).scenes.spec_world().input == old(
                        self,
                    ).scenes.spec_world().input.after(ev, false)
                },
            },
    {
        self.key_event(key, false)
    }

    /// A character was typed.
    pub fn text_input_event(&mut self, c: char)
        requires
            old(self).wf(),
        ensures
            final(self).wf(),
            final(self).input_binding == old(self).input_binding,
            final(self).scenes@ == stack_after_text(
                old(self).scenes@,
                c,
                old(self).scenes.spec_world().input.delete || old(
                    self,
                ).scenes.spec_world().input.confirm,
            ),
            final(self).scenes.spec_world() == old(self).scenes.spec_world(),
    {
        self.scenes.text_input_event(c);
    }
}

} // verus!
