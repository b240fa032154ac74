//! What a window has to redo before it is rendered again.
use vstd::prelude::*;

verus! {

/// The dirty state of a window.
///
/// The states are ordered: a window whose surface is dirty also needs a new layout.
#[derive(Default, Debug, Clone, Copy, PartialEq, Eq, Structural)]
pub enum DirtyState {
    /// The window is not dirty. Nothing needs to be done.
    #[default]
    Clean,
    /// The layout of the elements in the window needs to be re-calculated.
    Layout,
    /// The surface needs to be re-configured.
    Surface,
}

impl DirtyState {
    /// The position of the state in the order `Clean < Layout < Surface`.
    pub open spec fn rank(self) -> nat {
        match self {
            DirtyState::Clean => 0,
            DirtyState::Layout => 1,
            DirtyState::Surface => 2,
        }
    }

    /// The position of the state in the order `Clean < Layout < Surface`.
    pub fn level(self) -> (r: u8)
        ensures
            r == self.rank(),
    {
        match self {
            DirtyState::Clean => 0,
            DirtyState::Layout => 1,
            DirtyState::Surface => 2,
        }
    }

    /// Whether this state asks for at least as much work as `other`.
    pub fn at_least(self, other: Self) -> (r: bool)
        ensures
            r == (self.rank() >= other.rank()),
    {
        self.level() >= other.level()
    }

    /// Adds dirt: the state becomes the greater of itself and `dirt`.
    pub fn add_dirt(&mut self, dirt: Self)
        ensures
            *final(self) == dirt_join(*old(self), dirt),
    {
        if !self.at_least(dirt) {
            *self = dirt;
        }
    }
}

/// Two dirty states of the same rank are the same state.
pub proof fn lemma_rank_is_injective(a: DirtyState, b: DirtyState)
    ensures
        a.rank() == b.rank() ==> a == b,
{
}

/// Adding dirt gives the greater of the two states (one of them, never dirtier than both), so
/// it never lowers the state; adding the same dirt twice is adding it once, and the order in
/// which dirt is added does not matter.
pub proof fn lemma_add_dirt_is_a_join(s: DirtyState, a: DirtyState, b: DirtyState)
    ensures
        dirt_join(s, a) == s || dirt_join(s, a) == a,
        dirt_join(s, a).rank() == (if s.rank() >= a.rank() {
            s.rank()
        } else {
            a.rank()
        }),
        dirt_join(s, a).rank() >= s.rank(),
        dirt_join(s, a).rank() >= a.rank(),
        dirt_join(dirt_join(s, a), a) == dirt_join(s, a),
        dirt_join(dirt_join(s, a), b) == dirt_join(dirt_join(s, b), a),
{
}

/// The greater of two dirty states.
pub open spec fn dirt_join(a: DirtyState, b: DirtyState) -> DirtyState {
    if a.rank() >= b.rank() {
        a
    } else {
        b
    }
}

/// What rendering a window involves.
#[derive(Debug, Clone, Copy, PartialEq, Eq, Structural)]
pub struct RenderPlan {
    /// Nothing is rendered: the window has no area.
    pub skip: bool,
    /// The swapchain of the surface is re-configured first.
    pub reconfigure_surface: bool,
    /// The root element is given the size of the window and placed at the origin.
    pub relayout: bool,
}

/// The plan for rendering a window of the given size and dirt, and the dirt left afterwards.
///
/// A window without area is not rendered and keeps its dirt. Otherwise the window becomes
/// clean; its surface is re-configured when the surface was dirty, and its layout is computed
/// again when the layout (or the surface) was dirty.
pub open spec fn planned_render(width: u32, height: u32, dirty: DirtyState) -> (
    RenderPlan,
    DirtyState,
) {
    if width == 0 || height == 0 {
        (RenderPlan { skip: true, reconfigure_surface: false, relayout: false }, dirty)
    } else {
        (
            RenderPlan {
                skip: false,
                reconfigure_surface: dirty.rank() >= 2,
                relayout: dirty.rank() >= 1,
            },
            DirtyState::Clean,
        )
    }
}

/// Decides what rendering a window of the given size involves, and takes the dirt of the
/// window; see [`planned_render`].
pub fn plan_render(width: u32, height: u32, dirty: &mut DirtyState) -> (r: RenderPlan)
    ensures
        (r, *final(dirty)) == planned_render(width, height, *old(dirty)),
{
    if width == 0 || height == 0 {
        return RenderPlan { skip: true, reconfigure_surface: false, relayout: false };
    }
    let state = *dirty;
    *dirty = DirtyState::Clean;
    RenderPlan {
        skip: false,
        reconfigure_surface: state.at_least(DirtyState::Surface),
        relayout: state.at_least(DirtyState::Layout),
    }
}

/// Whenever a window re-configures its surface, it also computes its layout again; a window
/// that is rendered is clean afterwards, and rendering a clean window of some area does
/// nothing but draw.
pub proof fn lemma_render_plan(width: u32, height: u32, dirty: DirtyState)
    ensures
        planned_render(width, height, dirty).0.reconfigure_surface ==> planned_render(
            width,
            height,
            dirty,
        ).0.relayout,
        !planned_render(width, height, dirty).0.skip ==> planned_render(width, height, dirty).1
            == DirtyState::Clean,
        !planned_render(width, height, DirtyState::Clean).0.reconfigure_surface,
        !planned_render(width, height, DirtyState::Clean).0.relayout,
{
}

/// What presenting a frame on a surface involves.
#[derive(Debug, Clone, Copy, PartialEq, Eq, Structural)]
pub struct SurfacePlan {
    /// Nothing is presented: the surface has no area.
    pub skip: bool,
    /// The surface is configured again before the frame is drawn.
    pub configure: bool,
}

/// Decides what presenting a frame on a surface of the given size involves: a surface without
/// area presents nothing and stays as it is; otherwise the surface is configured again exactly
/// when it was marked dirty (by a new size or present mode), and is no longer dirty afterwards.
pub fn plan_surface_render(width: u32, height: u32, surface_dirty: &mut bool) -> (r: SurfacePlan)
    ensures
        r.skip == (width == 0 || height == 0),
        r.skip ==> !r.configure && *final(surface_dirty) == *old(surface_dirty),
        !r.skip ==> r.configure == *old(surface_dirty) && !*final(surface_dirty),
{
    if width == 0 || height == 0 {
        return SurfacePlan { skip: true, configure: false };
    }
    let configure = *surface_dirty;
    *surface_dirty = false;
    SurfacePlan { skip: false, configure }
}

/// Puts the root element `elem` of a window back into its slot once a callback that borrowed
/// it has returned: when the callback set a new root element meanwhile, the new root element
/// stays and `elem` is dropped; otherwise `elem` goes back into the slot.
pub fn restore_root_element<T>(slot: &mut Option<T>, elem: T)
    ensures
        *final(slot) == match *old(slot) {
            Some(replaced_by) => Some(replaced_by),
            None => Some(elem),
        },
{
    if slot.is_none() {
        *slot = Some(elem);
    }
}

} // verus!
