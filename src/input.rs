use vstd::prelude::*;

verus! {

/// Physical key identifiers the application can receive.
#[derive(PartialEq, Eq, Structural, Clone, Copy, Debug)]
pub enum KeyCode {
    Up,
    Down,
    Left,
    Right,
    Return,
    Back,
    Escape,
    Space,
    Tab,
    Z,
    X,
    /// Any other key, by its raw platform code.
    Other(u32),
}

/// Discrete logical buttons.
#[derive(PartialEq, Eq, Structural, Clone, Copy, Debug)]
pub enum Button {
    Menu,
    Confirm,
    Delete,
}

/// Continuous logical axes.
#[derive(PartialEq, Eq, Structural, Clone, Copy, Debug)]
pub enum Axis {
    Vert,
    Horz,
}

/// A logical input event: a button, or one direction of an axis
/// (`true` for the positive direction).
#[derive(PartialEq, Eq, Structural, Clone, Copy, Debug)]
pub enum Event {
    Button(Button),
    Axis(Axis, bool),
}

/// Resolution of a key against a list of bindings; a later binding of the
/// same key overrides an earlier one.
pub open spec fn lookup(entries: Seq<(KeyCode, Event)>, key: KeyCode) -> Option<Event>
    decreases entries.len(),
{
    if entries.len() == 0 {
        None
    } else if entries.last().0 == key {
        Some(entries.last().1)
    } else {
        lookup(entries.drop_last(), key)
    }
}

/// A mapping from physical keys to logical events: at most one event per key.
pub struct Binding {
    entries: Vec<(KeyCode, Event)>,
}

impl Binding {
    /// The event that `key` resolves to, if any.
    pub closed spec fn spec_resolve(&self, key: KeyCode) -> Option<Event> {
        lookup(self.entries@, key)
    }

    /// A binding that maps no key.
    pub fn new() -> (r: Binding)
        ensures
            forall|k: KeyCode| #[trigger] r.spec_resolve(k).is_none(),
    {
        Binding { entries: Vec::new() }
    }

    fn bind(self, key: KeyCode, ev: Event) -> (r: Binding)
        ensures
            forall|k: KeyCode|
                #[trigger] r.spec_resolve(k) == (if k == key {
                    Some(ev)
                } else {
                    self.spec_resolve(k)
                }),
    {
        let mut entries = self.entries;
        entries.push((key, ev));
        assert(entries@.drop_last() =~= self.entries@);
        Binding { entries }
    }

    /// Maps `key` to `button`, replacing any earlier mapping of `key`.
    pub fn bind_key_to_button(self, key: KeyCode, button: Button) -> (r: Binding)
        ensures
            forall|k: KeyCode|
                #[trigger] r.spec_resolve(k) == (if k == key {
                    Some(Event::Button(button))
                } else {
                    self.spec_resolve(k)
                }),
    {
        self.bind(key, Event::Button(button))
    }

    /// Maps `key` to one direction of `axis`, replacing any earlier mapping of `key`.
    pub fn bind_key_to_axis(self, key: KeyCode, axis: Axis, positive: bool) -> (r: Binding)
        ensures
            forall|k: KeyCode|
                #[trigger] r.spec_resolve(k) == (if k == key {
                    Some(Event::Axis(axis, positive))
                } else {
                    self.spec_resolve(k)
                }),
    {
        self.bind(key, Event::Axis(axis, positive))
    }

    /// The event that `key` is mapped to; `None` for an unmapped key.
    pub fn resolve(&self, key: KeyCode) -> (r: Option<Event>)
        ensures
            r == self.spec_resolve(key),
    {
        let mut i: usize = self.entries.len();
        assert(self.entries@.subrange(0, i as int) =~= self.entries@);
        while i > 0
            invariant
                i <= self.entries@.len(),
                lookup(self.entries@, key) == lookup(self.entries@.subrange(0, i as int), key),
            decreases i,
        {
            let entry = self.entries[i - 1];
            if entry.0 == key {
                return Some(entry.1);
            }
            assert(self.entries@.subrange(0, i as int).drop_last()
                =~= self.entries@.subrange(0, i - 1));
            i = i - 1;
        }
        None
    }
}

/// The event the application binds to `key`.
pub open spec fn default_key_event(key: KeyCode) -> Option<Event> {
    match key {
        KeyCode::Up => Some(Event::Axis(Axis::Vert, true)),
        KeyCode::Down => Some(Event::Axis(Axis::Vert, false)),
        KeyCode::Left => Some(Event::Axis(Axis::Horz, false)),
        KeyCode::Right => Some(Event::Axis(Axis::Horz, true)),
        KeyCode::Escape => Some(Event::Button(Button::Menu)),
        KeyCode::Return => Some(Event::Button(Button::Confirm)),
        KeyCode::Back => Some(Event::Button(Button::Delete)),
        _ => None,
    }
}

/// The application's key mapping: arrows drive the axes, Escape opens the
/// menu, Return confirms and Backspace deletes.
pub fn create_input_binding() -> (r: Binding)
    ensures
        forall|k: KeyCode| #[trigger] r.spec_resolve(k) == default_key_event(k),
{
    Binding::new()
        .bind_key_to_axis(KeyCode::Up, Axis::Vert, true)
        .bind_key_to_axis(KeyCode::Down, Axis::Vert, false)
        .bind_key_to_axis(KeyCode::Left, Axis::Horz, false)
        .bind_key_to_axis(KeyCode::Right, Axis::Horz, true)
        .bind_key_to_button(KeyCode::Escape, Button::Menu)
        .bind_key_to_button(KeyCode::Return, Button::Confirm)
        .bind_key_to_button(KeyCode::Back, Button::Delete)
}


/// The recorded state of the logical inputs: which buttons are held, and the
/// direction (-1, 0 or 1) each axis was last pushed in.
#[derive(PartialEq, Eq, Structural, Clone, Copy, Debug)]
pub struct InputState {
    pub menu: bool,
    pub confirm: bool,
    pub delete: bool,
    pub vert: i8,
    pub horz: i8,
}

/// Direction of an axis after a key transition in the given direction.
pub open spec fn axis_after(current: i8, positive: bool, started: bool) -> i8 {
    if started {
        if positive { 1i8 } else { -1i8 }
    } else if (positive && current > 0) || (!positive && current < 0) {
        0
    } else {
        current
    }
}

impl InputState {
    /// Every axis value lies in {-1, 0, 1}.
    pub open spec fn wf(&self) -> bool {
        -1 <= self.vert <= 1 && -1 <= self.horz <= 1
    }

    pub open spec fn spec_pressed(&self, button: Button) -> bool {
        match button {
            Button::Menu => self.menu,
            Button::Confirm => self.confirm,
            Button::Delete => self.delete,
        }
    }

    pub open spec fn spec_axis(&self, axis: Axis) -> i8 {
        match axis {
            Axis::Vert => self.vert,
            Axis::Horz => self.horz,
        }
    }

    /// The state after `ev` starts (`started`) or ends.
    pub open spec fn after(self, ev: Event, started: bool) -> InputState {
        match ev {
            Event::Button(Button::Menu) => InputState { menu: started, ..self },
            Event::Button(Button::Confirm) => InputState { confirm: started, ..self },
            Event::Button(Button::Delete) => InputState { delete: started, ..self },
            Event::Axis(Axis::Vert, positive) => InputState {
                vert: axis_after(self.vert, positive, started),
                ..self
            },
            Event::Axis(Axis::Horz, positive) => InputState {
                horz: axis_after(self.horz, positive, started),
                ..self
            },
        }
    }

    /// No button held, every axis at rest.
    pub fn new() -> (r: InputState)
        ensures
            r.wf(),
            !r.menu && !r.confirm && !r.delete && r.vert == 0 && r.horz == 0,
            forall|b: Button| !r.spec_pressed(b),
            forall|a: Axis| r.spec_axis(a) == 0,
    {
        InputState { menu: false, confirm: false, delete: false, vert: 0, horz: 0 }
    }

    /// Records that `ev` started (a key went down) or ended (it went up).
    pub fn update_effect(&mut self, ev: Event, started: bool)
        requires
            old(self).wf(),
        ensures
            final(self).wf(),
            *final(self) == old(self).after(ev, started),
    {
        match ev {
            Event::Button(Button::Menu) => self.menu = started,
            Event::Button(Button::Confirm) => self.confirm = started,
            Event::Button(Button::Delete) => self.delete = started,
            Event::Axis(Axis::Vert, positive) => self.vert = axis_step(self.vert, positive, started),
            Event::Axis(Axis::Horz, positive) => self.horz = axis_step(self.horz, positive, started),
        }
    }

    /// Whether `button` is currently held.
    pub fn get_button_pressed(&self, button: Button) -> (r: bool)
        ensures
            r == self.spec_pressed(button),
    {
        match button {
            Button::Menu => self.menu,
            Button::Confirm => self.confirm,
            Button::Delete => self.delete,
        }
    }

    /// The direction `axis` was last pushed in; 0 when at rest.
    pub fn get_axis_raw(&self, axis: Axis) -> (r: i8)
        ensures
            r == self.spec_axis(axis),
    {
        match axis {
            Axis::Vert => self.vert,
            Axis::Horz => self.horz,
        }
    }
}

fn axis_step(current: i8, positive: bool, started: bool) -> (r: i8)
    ensures
        r == axis_after(current, positive, started),
{
    if started {
        if positive { 1 } else { -1 }
    } else if (positive && current > 0) || (!positive && current < 0) {
        0
    } else {
        current
    }
}

/// Recording the same transition twice leaves the state as recording it once.
pub proof fn lemma_update_effect_idempotent(s: InputState, ev: Event, started: bool)
    ensures
        s.after(ev, started).after(ev, started) == s.after(ev, started),
{
}

} // verus!
