//! The puppet data model: a puppet owns one component per kind, each
//! component owns a default state and any number of named states.
//!
//! A component's *effective* state is the first entry of `states` whose id
//! equals `active_state`, when that is set and such an entry exists; in every
//! other case it is `default_state`. A stale `active_state` id is therefore
//! not an error: the lookup silently falls back to the default state.

use vstd::prelude::*;

use crate::geometry::{Point, Rect};
use crate::ids::random_id;

verus! {

/// The side length, in puppet-space units, of the square hit-box every
/// component answers to until it has an image surface of its own.
pub const HIT_BOX_SIZE: u32 = 10;

/// The number of characters in a generated state id.
pub const STATE_ID_LEN: usize = 8;

/// The fixed set of puppet parts. Their declaration order is the z-order the
/// default puppet is built in.
#[derive(Clone, Copy, PartialEq, Eq, Structural, Debug)]
pub enum ComponentKind {
    Head,
    Hat,
    Eyes,
    Mouth,
}

impl ComponentKind {
    /// Every kind, in declaration order.
    pub fn all() -> (r: Vec<ComponentKind>)
        ensures
            r@ =~= seq![
                ComponentKind::Head,
                ComponentKind::Hat,
                ComponentKind::Eyes,
                ComponentKind::Mouth,
            ],
    {
        let mut v: Vec<ComponentKind> = Vec::new();
        v.push(ComponentKind::Head);
        v.push(ComponentKind::Hat);
        v.push(ComponentKind::Eyes);
        v.push(ComponentKind::Mouth);
        v
    }
}

impl Default for ComponentKind {
    /// The kind a fresh editor starts out selecting.
    fn default() -> (r: ComponentKind)
        ensures
            r == ComponentKind::Hat,
    {
        ComponentKind::Hat
    }
}

/// A named positional variant of a component, e.g. "mouth open".
///
/// `position` is in puppet space: its origin is the center of the workspace
/// viewport, not the screen origin. `filepath` only names the sprite asset;
/// no logic here reads it.
pub struct State {
    pub id: String,
    pub name: String,
    pub filepath: String,
    pub position: (i32, i32),
}

impl State {
    /// What `State::default` promises: a fresh, unnamed state at the puppet
    /// origin, with a generated id.
    pub open spec fn is_fresh(self) -> bool {
        &&& self.id@.len() == STATE_ID_LEN
        &&& self.name@ == "new state"@
        &&& self.filepath@ == ""@
        &&& self.position == (0i32, 0i32)
    }
}

impl Default for State {
    fn default() -> (r: State)
        ensures
            r.is_fresh(),
    {
        State {
            id: random_id(STATE_ID_LEN),
            name: "new state".to_string(),
            filepath: "".to_string(),
            position: (0, 0),
        }
    }
}

/// The index of the first state in `states` whose id reads `key`, if any.
pub open spec fn first_match_idx(states: Seq<State>, key: Seq<char>) -> Option<int>
    decreases states.len(),
{
    if states.len() == 0 {
        None
    } else if states[0].id@ == key {
        Some(0int)
    } else {
        match first_match_idx(states.drop_first(), key) {
            Some(i) => Some(i + 1),
            None => None,
        }
    }
}

/// `first_match_idx` points at a match and at nothing earlier.
pub proof fn lemma_first_match_idx_props(states: Seq<State>, key: Seq<char>)
    ensures
        match first_match_idx(states, key) {
            Some(i) => {
                &&& 0 <= i < states.len()
                &&& states[i].id@ == key
                &&& forall|j: int| 0 <= j < i ==> states[j].id@ != key
            },
            None => forall|j: int| 0 <= j < states.len() ==> states[j].id@ != key,
        },
    decreases states.len(),
{
    if states.len() > 0 && states[0].id@ != key {
        let d = states.drop_first();
        lemma_first_match_idx_props(d, key);
        match first_match_idx(d, key) {
            Some(i2) => {
                assert(states[i2 + 1] == d[i2]);
                assert forall|j: int| 0 <= j < i2 + 1 implies states[j].id@ != key by {
                    if j > 0 {
                        assert(d[j - 1].id@ != key);
                        assert(d[j - 1] == states[j]);
                    }
                }
            },
            None => {
                assert forall|j: int| 0 <= j < states.len() implies states[j].id@ != key by {
                    if j > 0 {
                        assert(d[j - 1].id@ != key);
                        assert(d[j - 1] == states[j]);
                    }
                }
            },
        }
    }
}

/// The first `i` states hold no match, so the first match (if any) comes at
/// `i` or later; and a match at `i` settles it.
proof fn lemma_first_match_idx_step(states: Seq<State>, key: Seq<char>, i: int)
    requires
        0 <= i < states.len(),
        states[i].id@ == key,
        forall|j: int| 0 <= j < i ==> states[j].id@ != key,
    ensures
        first_match_idx(states, key) == Some(i),
    decreases i,
{
    if i > 0 {
        lemma_first_match_idx_step(states.drop_first(), key, i - 1);
    }
}

proof fn lemma_first_match_idx_none(states: Seq<State>, key: Seq<char>)
    requires
        forall|j: int| 0 <= j < states.len() ==> states[j].id@ != key,
    ensures
        first_match_idx(states, key) == None::<int>,
    decreases states.len(),
{
    if states.len() > 0 {
        lemma_first_match_idx_none(states.drop_first(), key);
    }
}

/// Where the effective state lives: inside `states` at the resolved index, or
/// in `default_state`.
pub proof fn lemma_effective_idx_bounds(c: Component)
    ensures
        match c.effective_idx() {
            Some(i) => 0 <= i < c.states@.len() && c.effective() == c.states@[i],
            None => c.effective() == c.default_state,
        },
{
    match c.active_state {
        Some(key) => {
            lemma_first_match_idx_props(c.states@, key@);
        },
        None => {},
    }
}

/// One visual part of the puppet's body.
pub struct Component {
    /// The part's identity; fixed once the component is built.
    pub kind: ComponentKind,
    /// Stacking order when drawing; higher is in front.
    pub zindex: u8,
    /// The state the component falls back to.
    pub default_state: State,
    /// The id of the state to show, or `None` for the default state.
    pub active_state: Option<String>,
    /// The component's additional named states.
    pub states: Vec<State>,
}

impl Component {
    /// The state the component shows: the first entry of `states` matching
    /// `active_state`, else the default state.
    pub open spec fn effective(self) -> State {
        match self.active_state {
            Some(key) => match first_match_idx(self.states@, key@) {
                Some(i) => self.states@[i],
                None => self.default_state,
            },
            None => self.default_state,
        }
    }

    /// Where `effective` looks: `Some(i)` when a state of `states` is shown,
    /// `None` when the default state is.
    pub open spec fn effective_idx(self) -> Option<int> {
        match self.active_state {
            Some(key) => first_match_idx(self.states@, key@),
            None => None,
        }
    }

    /// The component's square hit-box, centered on the effective state's
    /// puppet-space position.
    pub fn rect(&self) -> (r: Rect)
        requires
            i32::MIN + HIT_BOX_SIZE / 2 <= self.effective().position.0,
            i32::MIN + HIT_BOX_SIZE / 2 <= self.effective().position.1,
        ensures
            r == (Rect {
                x: (self.effective().position.0 - HIT_BOX_SIZE / 2) as i32,
                y: (self.effective().position.1 - HIT_BOX_SIZE / 2) as i32,
                w: HIT_BOX_SIZE,
                h: HIT_BOX_SIZE,
            }),
    {
        let r = Rect::new(0, 0, HIT_BOX_SIZE, HIT_BOX_SIZE);
        let position = self.get_state().position;
        r.centered_on(Point::new(position.0, position.1))
    }

    /// The effective state, resolved by the fallback rule.
    pub fn get_state(&self) -> (r: &State)
        ensures
            *r == self.effective(),
    {
        match &self.active_state {
            Some(state_id) => {
                let n: usize = self.states.len();
                for i in 0..n
                    invariant
                        n == self.states@.len(),
                        self.active_state == Some(*state_id),
                        forall|j: int| 0 <= j < i ==> self.states@[j].id@ != state_id@,
                {
                    if self.states[i].id == *state_id {
                        proof {
                            lemma_first_match_idx_step(self.states@, state_id@, i as int);
                        }
                        return &self.states[i];
                    }
                }
                proof {
                    lemma_first_match_idx_none(self.states@, state_id@);
                }
                &self.default_state
            },
            None => &self.default_state,
        }
    }

    /// The effective state, mutably. Writing through the result rewrites
    /// exactly the state `effective` resolves to; every other field keeps its
    /// value.
    pub fn get_state_mut(&mut self) -> (r: &mut State)
        ensures
            *r == old(self).effective(),
            match old(self).effective_idx() {
                Some(i) => *final(self) == (Component {
                    states: final(self).states,
                    ..*old(self)
                }) && final(self).states@ == old(self).states@.update(i, *final(r)),
                None => *final(self) == (Component { default_state: *final(r), ..*old(self) }),
            },
    {
        let use_default: bool;
        let mut found: usize = 0;
        match &self.active_state {
            Some(state_id) => {
                let n: usize = self.states.len();
                let mut hit: bool = false;
                while found < n && !hit
                    invariant
                        n == self.states@.len(),
                        found <= n,
                        forall|j: int| 0 <= j < found ==> self.states@[j].id@ != state_id@,
                        hit ==> found < n && self.states@[found as int].id@ == state_id@,
                    decreases n - found + (if hit { 0int } else { 1int }),
                {
                    if self.states[found].id == *state_id {
                        hit = true;
                    } else {
                        found = found + 1;
                    }
                }
                if hit {
                    proof {
                        lemma_first_match_idx_step(self.states@, state_id@, found as int);
                    }
                    use_default = false;
                } else {
                    proof {
                        lemma_first_match_idx_none(self.states@, state_id@);
                    }
                    use_default = true;
                }
            },
            None => {
                use_default = true;
            },
        }
        if use_default {
            &mut self.default_state
        } else {
            &mut self.states[found]
        }
    }
}

/// The full composed avatar: exactly one component per kind, in declaration
/// order, with ascending z-indices.
pub struct Puppet {
    pub components: Vec<Component>,
}

impl Puppet {
    /// The position a kind holds in a well-formed puppet.
    pub open spec fn kind_index(kind: ComponentKind) -> int {
        match kind {
            ComponentKind::Head => 0,
            ComponentKind::Hat => 1,
            ComponentKind::Eyes => 2,
            ComponentKind::Mouth => 3,
        }
    }

    /// One component per kind, in declaration order. This pins each kind to
    /// its index, so a lookup by kind always lands.
    pub open spec fn wf(self) -> bool {
        &&& self.components@.len() == 4
        &&& forall|i: int|
            0 <= i < 4 ==> Self::kind_index(#[trigger] self.components@[i].kind) == i
    }

    /// The component of the given kind, in a well-formed puppet.
    pub fn component_of(&self, kind: ComponentKind) -> (r: &Component)
        requires
            self.wf(),
        ensures
            *r == self.components@[Self::kind_index(kind)],
            r.kind == kind,
    {
        let i: usize = match kind {
            ComponentKind::Head => 0,
            ComponentKind::Hat => 1,
            ComponentKind::Eyes => 2,
            ComponentKind::Mouth => 3,
        };
        proof {
            assert(Self::kind_index(self.components@[i as int].kind) == i);
            assert(self.components@[i as int].kind == kind) by {
                let k = self.components@[i as int].kind;
                assert(Self::kind_index(k) == Self::kind_index(kind));
            }
        }
        &self.components[i]
    }

    /// The component of the given kind, mutably; the rest of the puppet is
    /// untouched, and the puppet stays well-formed as long as the caller
    /// leaves the component's kind alone.
    pub fn component_of_mut(&mut self, kind: ComponentKind) -> (r: &mut Component)
        requires
            old(self).wf(),
        ensures
            *r == old(self).components@[Self::kind_index(kind)],
            r.kind == kind,
            final(self).components@ == old(self).components@.update(
                Self::kind_index(kind),
                *final(r),
            ),
    {
        let i: usize = match kind {
            ComponentKind::Head => 0,
            ComponentKind::Hat => 1,
            ComponentKind::Eyes => 2,
            ComponentKind::Mouth => 3,
        };
        proof {
            assert(Self::kind_index(self.components@[i as int].kind) == i);
            assert(self.components@[i as int].kind == kind) by {
                let k = self.components@[i as int].kind;
                assert(Self::kind_index(k) == Self::kind_index(kind));
            }
        }
        &mut self.components[i]
    }
}

impl Default for Puppet {
    /// One fresh component per kind, in declaration order, z-indices
    /// ascending from zero, no named states and no active state.
    fn default() -> (r: Puppet)
        ensures
            r.wf(),
            forall|i: int|
                0 <= i < 4 ==> {
                    let c = #[trigger] r.components@[i];
                    &&& c.zindex == i
                    &&& c.active_state is None
                    &&& c.states@.len() == 0
                    &&& c.default_state.is_fresh()
                },
    {
        let kinds = ComponentKind::all();
        let mut components: Vec<Component> = Vec::new();
        let mut i: usize = 0;
        while i < kinds.len()
            invariant
                kinds@ =~= seq![
                    ComponentKind::Head,
                    ComponentKind::Hat,
                    ComponentKind::Eyes,
                    ComponentKind::Mouth,
                ],
                i <= 4,
                components@.len() == i,
                forall|j: int|
                    0 <= j < i ==> Puppet::kind_index(#[trigger] components@[j].kind) == j,
                forall|j: int|
                    0 <= j < i ==> {
                        let c = #[trigger] components@[j];
                        &&& c.zindex == j
                        &&& c.active_state is None
                        &&& c.states@.len() == 0
                        &&& c.default_state.is_fresh()
                    },
            decreases kinds.len() - i,
        {
            components.push(
                Component {
                    kind: kinds[i],
                    zindex: i as u8,
                    default_state: State::default(),
                    active_state: None,
                    states: Vec::new(),
                },
            );
            i = i + 1;
        }
        Puppet { components }
    }
}

} // verus!
