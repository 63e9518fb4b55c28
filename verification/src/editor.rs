//! The editor: owns the puppet, the active selection, the drag gesture and
//! the per-frame timer, and turns pointer events into selection and position
//! updates.
//!
//! Pointer coordinates arrive in viewport space. Component positions live in
//! puppet space, whose origin is the center of the workspace rectangle, so
//! every hit-test against a component first translates its hit-box by the
//! workspace center. Layer buttons live directly in viewport space.
//!
//! Hit-testing over an ordered list of regions is first-in-order: the first
//! region containing the pointer wins, and for hovering every later region is
//! explicitly unmarked, so overlapping regions never highlight twice.

use vstd::prelude::*;

use crate::geometry::{Point, Rect};
use crate::puppet::{Component, ComponentKind, Puppet, HIT_BOX_SIZE};
use crate::timer::Timer;
use crate::typedefs::DragState;

verus! {

/// Puppet-space positions are kept within this bound so that translating a
/// hit-box into viewport space always fits 32-bit coordinates.
pub const POS_LIMIT: i32 = 536870912;

/// Bound on the workspace rectangle's corners, for the same reason.
pub const COORD_LIMIT: i32 = 1073741824;

/// Width and height of the workspace viewport the puppet is displayed in.
pub const WORKSPACE_SIZE: u32 = 800;

/// How often, in milliseconds, a new audio-level sample is taken up.
pub const AUDIO_SAMPLE_INTERVAL_MS: u32 = 200;

/// An input event the editor consumes, already reduced to plain coordinates
/// and button edges by the host loop.
#[derive(Clone, Copy, PartialEq, Eq, Structural, Debug)]
pub enum EditorEvent {
    PointerMove { x: i32, y: i32 },
    PointerDown { x: i32, y: i32 },
    PointerUp,
}

/// One entry of the layer list: a clickable, hoverable button standing for a
/// component kind.
#[derive(Clone, Copy, PartialEq, Eq, Structural, Debug)]
pub struct LayerButton {
    pub kind: ComponentKind,
    pub rect: Rect,
    pub hovered: bool,
}

/// The editor state. A renderer reads it through the public fields and
/// accessors; the host loop feeds it `process` once per frame and
/// `handle_events` for each queued input event.
pub struct Editor {
    pub puppet: Puppet,
    /// The kind whose component selection and drags apply to.
    pub active_puppet_component: ComponentKind,
    /// The running drag gesture, if a pointer-down hit a component.
    pub active_puppet_dragstate: Option<DragState>,
    /// The last audio level handed in by the host, nominally `0..=100`.
    pub audio_level: i32,
    /// Gates how often the host should sample a new audio level.
    pub audio_level_set_timer: Timer,
    /// The area the puppet is displayed in; its center is the puppet-space
    /// origin.
    pub workspace_rect: Rect,
    /// The layer list, one button per component, in component order.
    pub layer_button_area: Vec<LayerButton>,
}

/// The state's puppet-space position is within [`POS_LIMIT`].
pub open spec fn state_pos_ok(s: crate::puppet::State) -> bool {
    &&& -POS_LIMIT <= s.position.0 <= POS_LIMIT
    &&& -POS_LIMIT <= s.position.1 <= POS_LIMIT
}

/// Every state of the component, default included, sits within bounds.
pub open spec fn component_pos_ok(c: Component) -> bool {
    &&& state_pos_ok(c.default_state)
    &&& forall|j: int| 0 <= j < c.states@.len() ==> state_pos_ok(#[trigger] c.states@[j])
}

/// Every position in the puppet sits within bounds.
pub open spec fn puppet_pos_ok(p: Puppet) -> bool {
    forall|i: int| 0 <= i < p.components@.len() ==> component_pos_ok(#[trigger] p.components@[i])
}

/// The workspace rectangle's corners are within [`COORD_LIMIT`].
pub open spec fn workspace_ok(r: Rect) -> bool {
    &&& -COORD_LIMIT <= r.x && r.x + r.w <= COORD_LIMIT
    &&& -COORD_LIMIT <= r.y && r.y + r.h <= COORD_LIMIT
}

/// Whether the button contains the viewport-space point.
pub open spec fn btn_hit(b: LayerButton, x: int, y: int) -> bool {
    b.rect.spec_contains(x, y)
}

/// Whether `bs[j]` is the first button under the pointer: it is hit and no
/// earlier button is.
pub open spec fn btn_first_hit_at(bs: Seq<LayerButton>, j: int, x: int, y: int) -> bool {
    &&& 0 <= j < bs.len()
    &&& btn_hit(bs[j], x, y)
    &&& forall|k: int| 0 <= k < j ==> !btn_hit(bs[k], x, y)
}

/// Whether the component's hit-box, translated by the workspace center
/// `(cx, cy)`, contains the viewport-space point.
pub open spec fn comp_hit(c: Component, cx: int, cy: int, x: int, y: int) -> bool {
    let px = c.effective().position.0 + cx - HIT_BOX_SIZE / 2;
    let py = c.effective().position.1 + cy - HIT_BOX_SIZE / 2;
    &&& px <= x < px + HIT_BOX_SIZE
    &&& py <= y < py + HIT_BOX_SIZE
}

/// Whether `cs[j]` is the first component under the pointer.
pub open spec fn comp_first_hit_at(
    cs: Seq<Component>,
    cx: int,
    cy: int,
    j: int,
    x: int,
    y: int,
) -> bool {
    &&& 0 <= j < cs.len()
    &&& comp_hit(cs[j], cx, cy, x, y)
    &&& forall|k: int| 0 <= k < j ==> !comp_hit(cs[k], cx, cy, x, y)
}

/// No component is under the pointer.
pub open spec fn comp_no_hit(cs: Seq<Component>, cx: int, cy: int, x: int, y: int) -> bool {
    forall|j: int| 0 <= j < cs.len() ==> !comp_hit(cs[j], cx, cy, x, y)
}

/// `c1` is `c0` with its effective state's position moved by `(dx, dy)` and
/// nothing else changed: same kind, z-index and active id, and the move lands
/// in the slot the effective state was resolved from.
pub open spec fn component_moved(c0: Component, c1: Component, dx: int, dy: int) -> bool {
    let s0 = c0.effective();
    let s1 = crate::puppet::State {
        position: ((s0.position.0 + dx) as i32, (s0.position.1 + dy) as i32),
        ..s0
    };
    &&& c1.kind == c0.kind
    &&& c1.zindex == c0.zindex
    &&& c1.active_state == c0.active_state
    &&& match c0.effective_idx() {
        Some(i) => c1.states@ == c0.states@.update(i, s1) && c1.default_state == c0.default_state,
        None => c1.states@ == c0.states@ && c1.default_state == s1,
    }
}

/// `p1` is `p0` with only the component at `ki` moved by `(dx, dy)`.
pub open spec fn puppet_component_moved(p0: Puppet, p1: Puppet, ki: int, dx: int, dy: int) -> bool {
    &&& p1.components@.len() == p0.components@.len()
    &&& forall|k: int|
        0 <= k < p0.components@.len() && k != ki ==> p1.components@[k] == #[trigger] p0.components@[k]
    &&& component_moved(p0.components@[ki], p1.components@[ki], dx, dy)
}

/// The effective state is one of the component's states, so its position is
/// bounded along with theirs.
pub proof fn lemma_effective_pos_ok(c: Component)
    requires
        component_pos_ok(c),
    ensures
        state_pos_ok(c.effective()),
{
    match c.active_state {
        Some(key) => {
            crate::puppet::lemma_first_match_idx_props(c.states@, key@);
        },
        None => {},
    }
}

/// What a pointer-move event does: every layer button's hover flag becomes
/// "is the first button under the pointer", and, while a drag gesture runs,
/// the active component's effective position moves by the step since the drag
/// origin and the origin moves to the pointer. Nothing else changes.
pub open spec fn pointer_move_rel(a: Editor, b: Editor, x: i32, y: i32) -> bool {
    &&& b.active_puppet_component == a.active_puppet_component
    &&& b.audio_level == a.audio_level
    &&& b.audio_level_set_timer == a.audio_level_set_timer
    &&& b.workspace_rect == a.workspace_rect
    &&& b.layer_button_area@.len() == a.layer_button_area@.len()
    &&& forall|j: int|
        0 <= j < a.layer_button_area@.len() ==> #[trigger] b.layer_button_area@[j]
            == (LayerButton {
            hovered: btn_first_hit_at(a.layer_button_area@, j, x as int, y as int),
            ..a.layer_button_area@[j]
        })
    &&& match a.active_puppet_dragstate {
        None => b.active_puppet_dragstate == a.active_puppet_dragstate && b.puppet == a.puppet,
        Some(ds) => {
            &&& b.active_puppet_dragstate == Some(DragState { initial_x: x, initial_y: y })
            &&& puppet_component_moved(
                a.puppet,
                b.puppet,
                Puppet::kind_index(a.active_puppet_component),
                x - ds.initial_x,
                y - ds.initial_y,
            )
        },
    }
}

/// What a pointer-down event does: the first component under the pointer (if
/// any) becomes the selection and a drag gesture starts at the pointer;
/// otherwise the first layer button under the pointer (if any) selects its
/// kind; otherwise the selection stands. Nothing else changes.
pub open spec fn pointer_down_rel(a: Editor, b: Editor, x: i32, y: i32) -> bool {
    let cx = a.workspace_rect.spec_center().0;
    let cy = a.workspace_rect.spec_center().1;
    &&& b == (Editor {
        active_puppet_component: b.active_puppet_component,
        active_puppet_dragstate: b.active_puppet_dragstate,
        ..a
    })
    &&& forall|j: int|
        comp_first_hit_at(a.puppet.components@, cx, cy, j, x as int, y as int) ==> {
            &&& b.active_puppet_component == a.puppet.components@[j].kind
            &&& b.active_puppet_dragstate == Some(DragState { initial_x: x, initial_y: y })
        }
    &&& comp_no_hit(a.puppet.components@, cx, cy, x as int, y as int) ==> {
        &&& b.active_puppet_dragstate == a.active_puppet_dragstate
        &&& forall|i: int|
            btn_first_hit_at(a.layer_button_area@, i, x as int, y as int)
                ==> b.active_puppet_component == a.layer_button_area@[i].kind
        &&& (forall|i: int|
            0 <= i < a.layer_button_area@.len() ==> !btn_hit(
                a.layer_button_area@[i],
                x as int,
                y as int,
            )) ==> b.active_puppet_component == a.active_puppet_component
    }
}

impl Editor {
    /// Everything the editor's operations rely on: a well-formed puppet and
    /// timer, and all coordinates within the bounds 32-bit hit-testing needs.
    pub open spec fn wf(self) -> bool {
        &&& self.puppet.wf()
        &&& self.audio_level_set_timer.wf()
        &&& workspace_ok(self.workspace_rect)
        &&& puppet_pos_ok(self.puppet)
    }

    /// The component selection and drags apply to.
    pub open spec fn active_component(self) -> Component {
        self.puppet.components@[Puppet::kind_index(self.active_puppet_component)]
    }

    /// A fresh editor around a default puppet: nothing hovered, nothing
    /// dragged, the default kind selected, the audio sampling timer looping,
    /// and the workspace centered on the viewport.
    pub fn new(viewport: Rect) -> (r: Editor)
        requires
            -COORD_LIMIT + WORKSPACE_SIZE <= viewport.spec_center().0 <= COORD_LIMIT
                - WORKSPACE_SIZE,
            -COORD_LIMIT + WORKSPACE_SIZE <= viewport.spec_center().1 <= COORD_LIMIT
                - WORKSPACE_SIZE,
            viewport.x + viewport.w / 2 <= i32::MAX,
            viewport.y + viewport.h / 2 <= i32::MAX,
        ensures
            r.wf(),
            r.active_puppet_component == ComponentKind::Hat,
            r.active_puppet_dragstate is None,
            r.audio_level == 0,
            r.audio_level_set_timer.is_active,
            r.audio_level_set_timer.is_loop,
            r.audio_level_set_timer.elapsed_ms == 0,
            r.audio_level_set_timer.duration_ms == AUDIO_SAMPLE_INTERVAL_MS,
            r.workspace_rect == (Rect {
                x: (viewport.spec_center().0 - WORKSPACE_SIZE / 2) as i32,
                y: (viewport.spec_center().1 - WORKSPACE_SIZE / 2) as i32,
                w: WORKSPACE_SIZE,
                h: WORKSPACE_SIZE,
            }),
            r.puppet.wf(),
            forall|i: int|
                0 <= i < 4 ==> {
                    let c = #[trigger] r.puppet.components@[i];
                    &&& c.zindex == i
                    &&& c.active_state is None
                    &&& c.states@.len() == 0
                    &&& c.default_state.is_fresh()
                },
            r.layer_button_area@.len() == 4,
            forall|i: int|
                0 <= i < 4 ==> #[trigger] r.layer_button_area@[i] == (LayerButton {
                    kind: r.puppet.components@[i].kind,
                    rect: Rect { x: 20, y: (20 + 50 * i) as i32, w: 80, h: 40 },
                    hovered: false,
                }),
    {
        let puppet = Puppet::default();
        let mut layer_button_area: Vec<LayerButton> = Vec::new();
        let mut i: usize = 0;
        while i < puppet.components.len()
            invariant
                puppet.wf(),
                puppet.components@.len() == 4,
                i <= 4,
                layer_button_area@.len() == i,
                forall|j: int|
                    0 <= j < i ==> #[trigger] layer_button_area@[j] == (LayerButton {
                        kind: puppet.components@[j].kind,
                        rect: Rect { x: 20, y: (20 + 50 * j) as i32, w: 80, h: 40 },
                        hovered: false,
                    }),
            decreases puppet.components@.len() - i,
        {
            // y is initial top padding + incremental y + spacing between rows
            let y: i32 = 20 + 40 * (i as i32) + 10 * (i as i32);
            layer_button_area.push(
                LayerButton {
                    kind: puppet.components[i].kind,
                    rect: Rect::new(20, y, 80, 40),
                    hovered: false,
                },
            );
            i = i + 1;
        }
        let mut audio_level_set_timer = Timer::new(AUDIO_SAMPLE_INTERVAL_MS);
        audio_level_set_timer.is_loop = true;
        audio_level_set_timer.play();
        let center = viewport.center();
        let workspace_rect = Rect::new(0, 0, WORKSPACE_SIZE, WORKSPACE_SIZE).centered_on(center);
        Editor {
            puppet,
            active_puppet_component: ComponentKind::default(),
            active_puppet_dragstate: None,
            audio_level: 0,
            audio_level_set_timer,
            workspace_rect,
            layer_button_area,
        }
    }

    /// Whether the host should take up a fresh audio-level sample now; valid
    /// until the next `process`, which consumes the trigger.
    pub fn audio_sample_due(&self) -> (r: bool)
        ensures
            r == self.audio_level_set_timer.spec_triggered(),
    {
        self.audio_level_set_timer.is_triggered()
    }

    /// Record the audio level the host sampled.
    pub fn set_audio_level(&mut self, level: i32)
        ensures
            *final(self) == (Editor { audio_level: level, ..*old(self) }),
    {
        self.audio_level = level;
    }

    /// One frame: advance the sampling timer by the measured delta. Call once
    /// per frame, before draining events.
    pub fn process(&mut self, delta_ms: u32)
        requires
            old(self).wf(),
        ensures
            final(self).wf(),
            *final(self) == (Editor {
                audio_level_set_timer: old(self).audio_level_set_timer.spec_ticked(
                    delta_ms as int,
                ),
                ..*old(self)
            }),
    {
        self.audio_level_set_timer.tick(delta_ms);
    }

    /// End of a drag gesture: the accumulator is discarded unconditionally.
    pub fn pointer_up(&mut self)
        ensures
            *final(self) == (Editor { active_puppet_dragstate: None, ..*old(self) }),
    {
        if self.active_puppet_dragstate.is_some() {
            self.active_puppet_dragstate = None;
        }
    }

    /// Whether a pointer move to `(x, y)` is in range: while a drag gesture
    /// runs, the step from its origin must fit 32 bits and the moved position
    /// must stay within [`POS_LIMIT`]. Without a gesture every move is fine.
    pub open spec fn drag_move_ok(self, x: int, y: int) -> bool {
        match self.active_puppet_dragstate {
            None => true,
            Some(ds) => {
                let dx = x - ds.initial_x;
                let dy = y - ds.initial_y;
                let pos = self.active_component().effective().position;
                &&& i32::MIN <= dx <= i32::MAX
                &&& i32::MIN <= dy <= i32::MAX
                &&& -POS_LIMIT <= pos.0 + dx <= POS_LIMIT
                &&& -POS_LIMIT <= pos.1 + dy <= POS_LIMIT
            },
        }
    }

    /// Decide `drag_move_ok` for a host that cannot evaluate it itself.
    pub fn can_pointer_move(&self, x: i32, y: i32) -> (r: bool)
        requires
            self.wf(),
        ensures
            r == self.drag_move_ok(x as int, y as int),
    {
        match &self.active_puppet_dragstate {
            None => true,
            Some(ds) => {
                let dx = x as i64 - ds.initial_x as i64;
                let dy = y as i64 - ds.initial_y as i64;
                let pos = self.puppet.component_of(self.active_puppet_component).get_state()
                    .position;
                i32::MIN as i64 <= dx && dx <= i32::MAX as i64 && i32::MIN as i64 <= dy && dy
                    <= i32::MAX as i64 && -(POS_LIMIT as i64) <= pos.0 as i64 + dx && pos.0 as i64
                    + dx <= POS_LIMIT as i64 && -(POS_LIMIT as i64) <= pos.1 as i64 + dy && pos.1
                    as i64 + dy <= POS_LIMIT as i64
            },
        }
    }

    /// Recompute which layer button is hovered: the first one under the
    /// pointer, and only it. Once one is picked the rest are unmarked without
    /// another hit-test.
    fn check_layer_text_surface_hover(&mut self, x: i32, y: i32)
        ensures
            *final(self) == (Editor {
                layer_button_area: final(self).layer_button_area,
                ..*old(self)
            }),
            final(self).layer_button_area@.len() == old(self).layer_button_area@.len(),
            forall|j: int|
                0 <= j < old(self).layer_button_area@.len() ==> #[trigger] final(self)
                    .layer_button_area@[j] == (LayerButton {
                    hovered: btn_first_hit_at(
                        old(self).layer_button_area@,
                        j,
                        x as int,
                        y as int,
                    ),
                    ..old(self).layer_button_area@[j]
                }),
    {
        let ghost btns0 = self.layer_button_area@;
        let n: usize = self.layer_button_area.len();
        let mut picked: bool = false;
        for i in 0..n
            invariant
                n == self.layer_button_area@.len(),
                btns0.len() == n,
                *self == (Editor { layer_button_area: self.layer_button_area, ..*old(self) }),
                forall|j: int| i <= j < n ==> #[trigger] self.layer_button_area@[j] == btns0[j],
                forall|j: int|
                    0 <= j < i ==> #[trigger] self.layer_button_area@[j] == (LayerButton {
                        hovered: btn_first_hit_at(btns0, j, x as int, y as int),
                        ..btns0[j]
                    }),
                picked == exists|j: int| 0 <= j < i && btn_hit(btns0[j], x as int, y as int),
        {
            if picked {
                // a button was picked already: unmark the rest instead of
                // hit-testing them again
                self.layer_button_area[i].hovered = false;
            } else {
                let hovered = self.layer_button_area[i].rect.contains_point(Point::new(x, y));
                self.layer_button_area[i].hovered = hovered;
                if hovered {
                    picked = hovered;
                }
            }
        }
    }

    /// Select the kind of the first layer button under the pointer, if any.
    fn check_layer_text_surface_click(&mut self, x: i32, y: i32)
        ensures
            *final(self) == (Editor {
                active_puppet_component: final(self).active_puppet_component,
                ..*old(self)
            }),
            forall|i: int|
                btn_first_hit_at(old(self).layer_button_area@, i, x as int, y as int)
                    ==> final(self).active_puppet_component
                    == old(self).layer_button_area@[i].kind,
            (forall|i: int|
                0 <= i < old(self).layer_button_area@.len() ==> !btn_hit(
                    #[trigger] old(self).layer_button_area@[i],
                    x as int,
                    y as int,
                )) ==> final(self).active_puppet_component == old(self).active_puppet_component,
    {
        let n: usize = self.layer_button_area.len();
        for i in 0..n
            invariant
                n == self.layer_button_area@.len(),
                *self == *old(self),
                forall|k: int|
                    0 <= k < i ==> !btn_hit(
                        #[trigger] self.layer_button_area@[k],
                        x as int,
                        y as int,
                    ),
        {
            if self.layer_button_area[i].rect.contains_point(Point::new(x, y)) {
                self.active_puppet_component = self.layer_button_area[i].kind;
                // once the active layer is found, quit checking
                return ;
            }
        }
    }

    /// Select and begin dragging the first component whose translated hit-box
    /// is under the pointer, if any.
    fn check_puppet_component_mouse_down(&mut self, x: i32, y: i32)
        requires
            old(self).wf(),
        ensures
            *final(self) == (Editor {
                active_puppet_component: final(self).active_puppet_component,
                active_puppet_dragstate: final(self).active_puppet_dragstate,
                ..*old(self)
            }),
            forall|j: int|
                comp_first_hit_at(
                    old(self).puppet.components@,
                    old(self).workspace_rect.spec_center().0,
                    old(self).workspace_rect.spec_center().1,
                    j,
                    x as int,
                    y as int,
                ) ==> {
                    &&& final(self).active_puppet_component == old(self).puppet.components@[j].kind
                    &&& final(self).active_puppet_dragstate == Some(
                        DragState { initial_x: x, initial_y: y },
                    )
                },
            comp_no_hit(
                old(self).puppet.components@,
                old(self).workspace_rect.spec_center().0,
                old(self).workspace_rect.spec_center().1,
                x as int,
                y as int,
            ) ==> *final(self) == *old(self),
    {
        let center = self.workspace_rect.center();
        let n: usize = self.puppet.components.len();
        for i in 0..n
            invariant
                n == self.puppet.components@.len(),
                *self == *old(self),
                self.wf(),
                center.x as int == self.workspace_rect.spec_center().0,
                center.y as int == self.workspace_rect.spec_center().1,
                forall|k: int|
                    0 <= k < i ==> !comp_hit(
                        #[trigger] self.puppet.components@[k],
                        center.x as int,
                        center.y as int,
                        x as int,
                        y as int,
                    ),
        {
            proof {
                lemma_effective_pos_ok(self.puppet.components@[i as int]);
            }
            // translate the hit-box by the workspace center before testing
            let rect = self.puppet.components[i].rect().translated(center.x, center.y);
            if rect.contains_point(Point::new(x, y)) {
                self.active_puppet_component = self.puppet.components[i].kind;
                self.active_puppet_dragstate = Some(DragState::start(x, y));
                return ;
            }
        }
    }

    /// While a drag gesture runs, move the active component's effective
    /// position by the step since the gesture's origin, then move the origin
    /// to the pointer so later steps do not compound.
    fn update_active_component_drag_state(&mut self, x: i32, y: i32)
        requires
            old(self).wf(),
            old(self).drag_move_ok(x as int, y as int),
        ensures
            final(self).wf(),
            match old(self).active_puppet_dragstate {
                None => *final(self) == *old(self),
                Some(ds) => {
                    &&& *final(self) == (Editor {
                        puppet: final(self).puppet,
                        active_puppet_dragstate: Some(DragState { initial_x: x, initial_y: y }),
                        ..*old(self)
                    })
                    &&& puppet_component_moved(
                        old(self).puppet,
                        final(self).puppet,
                        Puppet::kind_index(old(self).active_puppet_component),
                        x - ds.initial_x,
                        y - ds.initial_y,
                    )
                },
            },
    {
        let ds = match &self.active_puppet_dragstate {
            Some(d) => *d,
            None => { return ; },
        };
        let (dx, dy) = ds.dxdy(x, y);
        let kind = self.active_puppet_component;
        let component = self.puppet.component_of_mut(kind);
        let state = component.get_state_mut();
        let new_x = (state.position.0 as i64 + dx as i64) as i32;
        let new_y = (state.position.1 as i64 + dy as i64) as i32;
        state.position = (new_x, new_y);
        self.active_puppet_dragstate = Some(DragState::start(x, y));
        proof {
            let ki = Puppet::kind_index(old(self).active_puppet_component);
            let c0 = old(self).puppet.components@[ki];
            let c1 = self.puppet.components@[ki];
            assert(self.puppet.components@ == old(self).puppet.components@.update(ki, c1));
            assert(c1.kind == c0.kind);
            let s0 = c0.effective();
            let dx0 = x - ds.initial_x;
            let dy0 = y - ds.initial_y;
            let s1 = crate::puppet::State {
                position: ((s0.position.0 + dx0) as i32, (s0.position.1 + dy0) as i32),
                ..s0
            };
            crate::puppet::lemma_effective_idx_bounds(c0);
            match c0.effective_idx() {
                Some(i) => {
                    assert(c1.states@ == c0.states@.update(i, s1));
                },
                None => {
                    assert(c1.default_state == s1);
                },
            }
            assert forall|k: int|
                0 <= k < 4 implies Puppet::kind_index(
                #[trigger] self.puppet.components@[k].kind,
            ) == k by {
                if k != ki {
                    assert(self.puppet.components@[k] == old(self).puppet.components@[k]);
                }
            }
            assert(component_pos_ok(c0));
            assert(state_pos_ok(s1));
            assert(component_pos_ok(c1)) by {
                match c0.effective_idx() {
                    Some(i) => {
                        assert forall|j: int|
                            0 <= j < c1.states@.len() implies state_pos_ok(
                            #[trigger] c1.states@[j],
                        ) by {
                            if j != i {
                                assert(c0.states@.update(i, s1)[j] == c0.states@[j]);
                            } else {
                                assert(c0.states@.update(i, s1)[j] == s1);
                            }
                        }
                    },
                    None => {},
                }
            }
            assert forall|k: int|
                0 <= k < self.puppet.components@.len() implies component_pos_ok(
                #[trigger] self.puppet.components@[k],
            ) by {
                if k != ki {
                    assert(self.puppet.components@[k] == old(self).puppet.components@[k]);
                } else {
                    assert(self.puppet.components@[k] == c1);
                }
            }
        }
    }

    /// Dispatch one input event to the selection, hover and drag logic.
    pub fn handle_events(&mut self, event: EditorEvent)
        requires
            old(self).wf(),
            event matches EditorEvent::PointerMove { x, y } ==> old(self).drag_move_ok(
                x as int,
                y as int,
            ),
        ensures
            final(self).wf(),
            match event {
                EditorEvent::PointerMove { x, y } => pointer_move_rel(
                    *old(self),
                    *final(self),
                    x,
                    y,
                ),
                EditorEvent::PointerDown { x, y } => pointer_down_rel(
                    *old(self),
                    *final(self),
                    x,
                    y,
                ),
                EditorEvent::PointerUp => *final(self) == (Editor {
                    active_puppet_dragstate: None,
                    ..*old(self)
                }),
            },
    {
        match event {
            EditorEvent::PointerMove { x, y } => {
                self.check_layer_text_surface_hover(x, y);
                self.update_active_component_drag_state(x, y);
            },
            EditorEvent::PointerDown { x, y } => {
                self.check_layer_text_surface_click(x, y);
                self.check_puppet_component_mouse_down(x, y);
            },
            EditorEvent::PointerUp => {
                self.pointer_up();
            },
        }
    }

    /// The selected component, for a renderer to query.
    pub fn get_active_component(&self) -> (r: Option<&Component>)
        requires
            self.wf(),
        ensures
            r matches Some(c) && *c == self.active_component(),
    {
        Some(self.puppet.component_of(self.active_puppet_component))
    }

    /// In the workspace the coordinate origin is its center, so a puppet-space
    /// rectangle is offset by that center before it is drawn or hit-tested.
    pub fn use_canvas_coord_for_rect(&self, rect: Rect) -> (r: Rect)
        requires
            self.wf(),
            i32::MIN <= rect.x + self.workspace_rect.spec_center().0 <= i32::MAX,
            i32::MIN <= rect.y + self.workspace_rect.spec_center().1 <= i32::MAX,
        ensures
            r == (Rect {
                x: (rect.x + self.workspace_rect.spec_center().0) as i32,
                y: (rect.y + self.workspace_rect.spec_center().1) as i32,
                w: rect.w,
                h: rect.h,
            }),
    {
        let center = self.workspace_rect.center();
        rect.translated(center.x, center.y)
    }

    /// The same offset for a single point.
    pub fn use_canvas_coord_for_point(&self, point: Point) -> (r: Point)
        requires
            self.wf(),
            i32::MIN <= point.x + self.workspace_rect.spec_center().0 <= i32::MAX,
            i32::MIN <= point.y + self.workspace_rect.spec_center().1 <= i32::MAX,
        ensures
            r == (Point {
                x: (point.x + self.workspace_rect.spec_center().0) as i32,
                y: (point.y + self.workspace_rect.spec_center().1) as i32,
            }),
    {
        let center = self.workspace_rect.center();
        Point::new(
            (point.x as i64 + center.x as i64) as i32,
            (point.y as i64 + center.y as i64) as i32,
        )
    }
}

} // verus!
