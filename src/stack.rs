use vstd::prelude::*;

use crate::input::Event;
use crate::scene::{Scene, SceneModel, SceneSwitch, SwitchModel};
use crate::world::World;

verus! {

/// Every scene of a stack is well formed.
pub open spec fn all_wf(st: Seq<SceneModel>) -> bool {
    forall|i: int| 0 <= i < st.len() ==> #[trigger] st[i].wf()
}

/// Removing the active scene; the last scene is never removed.
pub open spec fn stack_pop(st: Seq<SceneModel>) -> Seq<SceneModel> {
    if st.len() > 1 { st.drop_last() } else { st }
}

/// The stack after it carries out `sw`.
pub open spec fn apply_switch(st: Seq<SceneModel>, sw: SwitchModel) -> Seq<SceneModel> {
    match sw {
        SwitchModel::NoChange => st,
        SwitchModel::Pop => stack_pop(st),
        SwitchModel::Push(s) => st.push(s),
    }
}

/// The stack after one update: the active scene is updated, then the
/// transition it asked for is carried out.
pub open spec fn stack_after_update(st: Seq<SceneModel>) -> Seq<SceneModel> {
    if st.len() == 0 {
        st
    } else {
        apply_switch(st.update(st.len() - 1, st.last().after_update()), st.last().switch())
    }
}

/// The stack after the active scene receives `ev`.
pub open spec fn stack_after_input(st: Seq<SceneModel>, ev: Event, started: bool) -> Seq<
    SceneModel,
> {
    if st.len() == 0 {
        st
    } else {
        st.update(st.len() - 1, st.last().after_input(ev, started))
    }
}

/// The stack after the active scene receives a typed character.
pub open spec fn stack_after_text(st: Seq<SceneModel>, c: char, control_held: bool) -> Seq<
    SceneModel,
> {
    if st.len() == 0 {
        st
    } else {
        st.update(st.len() - 1, st.last().after_text(c, control_held))
    }
}

/// A stack operation, over scene models.
pub enum StackOp {
    Push(SceneModel),
    Pop,
}

pub open spec fn apply_op(st: Seq<SceneModel>, op: StackOp) -> Seq<SceneModel> {
    match op {
        StackOp::Push(s) => st.push(s),
        StackOp::Pop => stack_pop(st),
    }
}

/// The stack after `ops`, first to last.
pub open spec fn run_ops(st: Seq<SceneModel>, ops: Seq<StackOp>) -> Seq<SceneModel>
    decreases ops.len(),
{
    if ops.len() == 0 {
        st
    } else {
        apply_op(run_ops(st, ops.drop_last()), ops.last())
    }
}

/// No sequence of pushes and pops empties a stack that holds a scene.
pub proof fn lemma_ops_keep_stack_nonempty(st: Seq<SceneModel>, ops: Seq<StackOp>)
    requires
        st.len() >= 1,
    ensures
        run_ops(st, ops).len() >= 1,
    decreases ops.len(),
{
    if ops.len() > 0 {
        lemma_ops_keep_stack_nonempty(st, ops.drop_last());
    }
}

/// After any sequence of operations, a pushed scene is the active one.
pub proof fn lemma_pushed_scene_is_active(st: Seq<SceneModel>, ops: Seq<StackOp>, s: SceneModel)
    ensures
        run_ops(st, ops.push(StackOp::Push(s))).last() == s,
{
    assert(ops.push(StackOp::Push(s)).drop_last() =~= ops);
}

/// A pop right after a push undoes it: the scene beneath is active again,
/// with its state, and the whole stack is as it was.
pub proof fn lemma_push_then_pop_restores(st: Seq<SceneModel>, ops: Seq<StackOp>, s: SceneModel)
    requires
        st.len() >= 1,
    ensures
        run_ops(st, ops.push(StackOp::Push(s)).push(StackOp::Pop)) == run_ops(st, ops),
        stack_pop(st.push(s)) == st,
{
    let ops1 = ops.push(StackOp::Push(s));
    assert(ops1.push(StackOp::Pop).drop_last() =~= ops1);
    assert(ops1.drop_last() =~= ops);
    lemma_ops_keep_stack_nonempty(st, ops);
    assert(run_ops(st, ops1) == run_ops(st, ops).push(s));
    assert(run_ops(st, ops).push(s).drop_last() =~= run_ops(st, ops));
    assert(run_ops(st, ops1.push(StackOp::Pop)) == stack_pop(run_ops(st, ops1)));
    assert(st.push(s).drop_last() =~= st);
}

/// An update whose active scene asks for no change leaves the stack exactly
/// as it was: same size, same order, same scenes.
pub proof fn lemma_no_change_keeps_stack(st: Seq<SceneModel>)
    requires
        st.len() >= 1,
        st.last().switch() == SwitchModel::NoChange,
    ensures
        stack_after_update(st).len() == st.len(),
        stack_after_update(st) == st,
{
    assert(st.last().after_update() == st.last());
    assert(st.update(st.len() - 1, st.last()) =~= st);
}

/// The scenes of the application, bottom first; the last one is active and
/// alone receives updates and input. Scenes beneath keep their state.
pub struct Stack {
    world: World,
    scenes: Vec<Scene>,
}

impl View for Stack {
    type V = Seq<SceneModel>;

    closed spec fn view(&self) -> Seq<SceneModel> {
        self.scenes@.map_values(|s: Scene| s@)
    }
}

impl Stack {
    /// The stack holds at least one scene, each well formed, and its world
    /// is well formed.
    pub closed spec fn wf(&self) -> bool {
        self@.len() >= 1 && all_wf(self@) && self.world.wf()
    }

    /// The shared world the scenes are handed.
    pub closed spec fn spec_world(&self) -> World {
        self.world
    }

    /// The shared world the scenes are handed.
    pub fn world(&self) -> (r: &World)
        ensures
            *r == self.spec_world(),
    {
        &self.world
    }

    /// Records `ev` in the world's input state.
    pub fn record_input(&mut self, ev: Event, started: bool)
        requires
            old(self).wf(),
        ensures
            final(self).wf(),
            final(self)@ == old(self)@,
            final(self).spec_world().input == old(self).spec_world().input.after(ev, started),
    {
        self.world.input.update_effect(ev, started);
    }

    /// A stack holding `initial` alone.
    pub fn new(world: World, initial: Scene) -> (r: Stack)
        requires
            world.wf(),
            initial@.wf(),
        ensures
            r.wf(),
            r@ == seq![initial@],
            r.spec_world() == world,
    {
        let mut scenes: Vec<Scene> = Vec::new();
        scenes.push(initial);
        let r = Stack { world, scenes };
        assert(r@ =~= seq![initial@]);
        r
    }

    /// Number of scenes on the stack.
    pub fn len(&self) -> (r: usize)
        ensures
            r == self@.len(),
    {
        self.scenes.len()
    }

    /// The active scene.
    pub fn current(&self) -> (r: &Scene)
        requires
            self.wf(),
        ensures
            r@ == self@.last(),
    {
        let n = self.scenes.len();
        &self.scenes[n - 1]
    }

    /// Makes `scene` the active scene; the previous one is kept beneath it.
    pub fn push(&mut self, scene: Scene)
        requires
            old(self).wf(),
            scene@.wf(),
        ensures
            final(self).wf(),
            final(self)@ == old(self)@.push(scene@),
            final(self).spec_world() == old(self).spec_world(),
    {
        let ghost s = scene@;
        self.scenes.push(scene);
        assert(self@ =~= old(self)@.push(s));
    }

    /// Removes and returns the active scene, unless it is the only one.
    pub fn pop(&mut self) -> (r: Option<Scene>)
        requires
            old(self).wf(),
        ensures
            final(self).wf(),
            final(self)@ == stack_pop(old(self)@),
            final(self).spec_world() == old(self).spec_world(),
            old(self)@.len() > 1 <==> r.is_some(),
            r.is_some() ==> r.unwrap()@ == old(self)@.last(),
    {
        if self.scenes.len() > 1 {
            let r = self.scenes.pop();
            assert(self@ =~= old(self)@.drop_last());
            r
        } else {
            None
        }
    }

    /// Updates the active scene and carries out the transition it asks for.
    pub fn update(&mut self)
        requires
            old(self).wf(),
        ensures
            final(self).wf(),
            final(self)@ == stack_after_update(old(self)@),
            final(self).spec_world() == old(self).spec_world(),
    {
        let ghost st = self@;
        let mut top = self.scenes.pop().unwrap();
        assert(top@ == st.last());
        let sw = top.update(&self.world);
        self.scenes.push(top);
        let ghost mid = st.update(st.len() - 1, st.last().after_update());
        assert(self@ =~= mid);
        match sw {
            SceneSwitch::NoChange => {},
            SceneSwitch::Pop => {
                if self.scenes.len() > 1 {
                    let _ = self.scenes.pop();
                    assert(self@ =~= mid.drop_last());
                }
            },
            SceneSwitch::Push(s) => {
                let ghost sv = s@;
                self.scenes.push(s);
                assert(self@ =~= mid.push(sv));
            },
        }
    }

    /// Delivers one logical event to the active scene.
    pub fn input(&mut self, ev: Event, started: bool)
        requires
            old(self).wf(),
        ensures
            final(self).wf(),
            final(self)@ == stack_after_input(old(self)@, ev, started),
            final(self).spec_world() == old(self).spec_world(),
    {
        let ghost st = self@;
        let mut top = self.scenes.pop().unwrap();
        assert(top@ == st.last());
        top.input(&self.world, ev, started);
        self.scenes.push(top);
        assert(self@ =~= st.update(st.len() - 1, st.last().after_input(ev, started)));
    }

    /// Delivers one typed character to the active scene.
    pub fn text_input_event(&mut self, c: char)
        requires
            old(self).wf(),
        ensures
            final(self).wf(),
            final(self)@ == stack_after_text(
                old(self)@,
                c,
                old(self).spec_world().input.delete || old(self).spec_world().input.confirm,
            ),
            final(self).spec_world() == old(self).spec_world(),
    {
        let ghost st = self@;
        let mut top = self.scenes.pop().unwrap();
        assert(top@ == st.last());
        top.text_input_event(&self.world, c);
        self.scenes.push(top);
        assert(self@ =~= st.update(
            st.len() - 1,
            st.last().after_text(c, self.world.input.delete || self.world.input.confirm),
        ));
    }
}

} // verus!
