//! What a text element has to redo before it is measured or drawn again.
use vstd::prelude::*;

verus! {

/// The dirty state of a text element.
///
/// The states are ordered: changed text needs its lines broken again, and broken lines need
/// to be aligned again.
#[derive(Default, Debug, Clone, Copy, PartialEq, Eq, Structural)]
pub enum DirtyState {
    /// The layout is clean and does not need to be rebuilt.
    #[default]
    Clean,
    /// The alignment of the element has changed. The lines must be aligned again.
    Alignment,
    /// The layout of the element has changed without the text changing. The lines must be
    /// broken again.
    Lines,
    /// The text of the element has changed and the layout needs to be rebuilt.
    Text,
}

impl DirtyState {
    /// The position of the state in the order `Clean < Alignment < Lines < Text`.
    pub open spec fn rank(self) -> nat {
        match self {
            DirtyState::Clean => 0,
            DirtyState::Alignment => 1,
            DirtyState::Lines => 2,
            DirtyState::Text => 3,
        }
    }

    /// The position of the state in the order `Clean < Alignment < Lines < Text`.
    pub fn level(self) -> (r: u8)
        ensures
            r == self.rank(),
    {
        match self {
            DirtyState::Clean => 0,
            DirtyState::Alignment => 1,
            DirtyState::Lines => 2,
            DirtyState::Text => 3,
        }
    }

    /// Whether this state asks for at least as much work as `other`.
    pub fn at_least(self, other: Self) -> (r: bool)
        ensures
            r == (self.rank() >= other.rank()),
    {
        self.level() >= other.level()
    }

    /// Adds dirt to the text element: the state becomes the greater of itself and `dirt`.
    pub fn add_dirt(&mut self, dirt: Self)
        ensures
            *final(self) == dirt_join(*old(self), dirt),
    {
        if !self.at_least(dirt) {
            *self = dirt;
        }
    }

    /// Notes that the alignment of the text has changed.
    pub fn set_alignment(&mut self)
        ensures
            *final(self) == dirt_join(*old(self), DirtyState::Alignment),
    {
        self.add_dirt(DirtyState::Alignment);
    }

    /// Notes that whether lines may break has changed.
    pub fn set_break_lines(&mut self)
        ensures
            *final(self) == dirt_join(*old(self), DirtyState::Lines),
    {
        self.add_dirt(DirtyState::Lines);
    }

    /// Notes that the element was given a size; the lines are broken again only when the size
    /// differs from the previous one.
    pub fn set_size(&mut self, size_changed: bool)
        ensures
            *final(self) == if size_changed {
                dirt_join(*old(self), DirtyState::Lines)
            } else {
                *old(self)
            },
    {
        if size_changed {
            self.add_dirt(DirtyState::Lines);
        }
    }

    /// Notes that the text, or the style it is built with, has changed.
    pub fn notify_text_changed(&mut self)
        ensures
            *final(self) == DirtyState::Text,
    {
        self.add_dirt(DirtyState::Text);
    }
}

/// The greater of two dirty states.
pub open spec fn dirt_join(a: DirtyState, b: DirtyState) -> DirtyState {
    if a.rank() >= b.rank() {
        a
    } else {
        b
    }
}

/// The steps of building the layout of a text element.
#[derive(Debug, Clone, Copy, PartialEq, Eq, Structural)]
pub struct BuildPlan {
    /// The layout is built again from the text and its style.
    pub rebuild_text: bool,
    /// The lines are broken again.
    pub break_lines: bool,
    /// The lines are aligned again.
    pub align: bool,
}

/// The steps needed to build the layout of a text element in the dirty state `dirty`: each step
/// is needed when the state is at least the one that invalidates it.
pub open spec fn build_steps(dirty: DirtyState) -> BuildPlan {
    BuildPlan {
        rebuild_text: dirty.rank() >= 3,
        break_lines: dirty.rank() >= 2,
        align: dirty.rank() >= 1,
    }
}

/// Decides the steps of building the layout of a text element, which is clean afterwards.
pub fn plan_build(dirty: &mut DirtyState) -> (r: BuildPlan)
    ensures
        r == build_steps(*old(dirty)),
        *final(dirty) == DirtyState::Clean,
{
    let state = *dirty;
    *dirty = DirtyState::Clean;
    BuildPlan {
        rebuild_text: state.at_least(DirtyState::Text),
        break_lines: state.at_least(DirtyState::Lines),
        align: state.at_least(DirtyState::Alignment),
    }
}

/// Adding dirt gives the greater of the two states (one of them, never dirtier than both), so
/// it never lowers the state; adding the same dirt twice is adding it once, and the order in
/// which dirt is added does not matter.
pub proof fn lemma_add_dirt_is_a_join(s: DirtyState, a: DirtyState, b: DirtyState)
    ensures
        dirt_join(s, a) == s || dirt_join(s, a) == a,
        dirt_join(s, a).rank() == (if s.rank() >= a.rank() {
            s.rank()
        } else {
            a.rank()
        }),
        dirt_join(s, a).rank() >= s.rank(),
        dirt_join(s, a).rank() >= a.rank(),
        dirt_join(dirt_join(s, a), a) == dirt_join(s, a),
        dirt_join(dirt_join(s, a), b) == dirt_join(dirt_join(s, b), a),
{
}

/// Rebuilding the text implies breaking the lines again, which implies aligning them again;
/// a clean text needs no step at all.
pub proof fn lemma_build_steps_are_nested(dirty: DirtyState)
    ensures
        build_steps(dirty).rebuild_text ==> build_steps(dirty).break_lines,
        build_steps(dirty).break_lines ==> build_steps(dirty).align,
        build_steps(DirtyState::Clean) == (BuildPlan {
            rebuild_text: false,
            break_lines: false,
            align: false,
        }),
{
}

} // verus!
