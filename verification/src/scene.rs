//! What is selected in the scene.

use crate::handle::Handle;
use vstd::prelude::*;

verus! {

/// A part of an animation that can be selected, by its identifier.
#[derive(Clone, Copy, Debug, PartialEq, Eq, Structural)]
pub enum SelectedEntity {
    Track(u128),
    Curve(u128),
    Signal(u128),
}

/// An animation of an animation player, with the parts of it that are
/// selected.
#[derive(Clone, Debug, PartialEq, Eq)]
pub struct AnimationSelection {
    pub animation_player: Handle,
    pub animation: Handle,
    pub entities: Vec<SelectedEntity>,
}

pub struct AnimationSelectionView {
    pub animation_player: Handle,
    pub animation: Handle,
    pub entities: Seq<SelectedEntity>,
}

impl View for AnimationSelection {
    type V = AnimationSelectionView;

    open spec fn view(&self) -> AnimationSelectionView {
        AnimationSelectionView {
            animation_player: self.animation_player,
            animation: self.animation,
            entities: self.entities@,
        }
    }
}

impl AnimationSelection {
    /// The selection of nothing: no player, no animation, no parts.
    pub open spec fn empty() -> AnimationSelectionView {
        AnimationSelectionView {
            animation_player: Handle::none_spec(),
            animation: Handle::none_spec(),
            entities: Seq::<SelectedEntity>::empty(),
        }
    }

    /// The selection of one animation, with no part of it.
    pub fn new(animation_player: Handle, animation: Handle) -> (s: AnimationSelection)
        ensures
            s@ == (AnimationSelectionView {
                animation_player,
                animation,
                entities: Seq::<SelectedEntity>::empty(),
            }),
    {
        AnimationSelection { animation_player, animation, entities: Vec::new() }
    }

    /// A copy.
    pub fn duplicate(&self) -> (s: AnimationSelection)
        ensures
            s@ == self@,
    {
        let mut entities: Vec<SelectedEntity> = Vec::new();
        let mut i: usize = 0;
        while i < self.entities.len()
            invariant
                0 <= i <= self.entities@.len(),
                entities@ == self.entities@.take(i as int),
            decreases self.entities@.len() - i,
        {
            entities.push(self.entities[i]);
            proof {
                assert(self.entities@.take(i + 1) =~= self.entities@.take(i as int).push(
                    self.entities@[i as int],
                ));
            }
            i += 1;
        }
        proof {
            assert(self.entities@.take(i as int) =~= self.entities@);
        }
        AnimationSelection {
            animation_player: self.animation_player,
            animation: self.animation,
            entities,
        }
    }
}

/// What is selected in the scene.
#[derive(Clone, Debug, PartialEq, Eq)]
pub enum Selection {
    Empty,
    /// Nodes of the scene graph.
    Graph(Vec<Handle>),
    Animation(AnimationSelection),
}

pub enum SelectionView {
    Empty,
    Graph(Seq<Handle>),
    Animation(AnimationSelectionView),
}

impl View for Selection {
    type V = SelectionView;

    open spec fn view(&self) -> SelectionView {
        match *self {
            Selection::Empty => SelectionView::Empty,
            Selection::Graph(nodes) => SelectionView::Graph(nodes@),
            Selection::Animation(selection) => SelectionView::Animation(selection@),
        }
    }
}

/// A copy of a list of handles.
pub fn duplicate_handles(handles: &Vec<Handle>) -> (copy: Vec<Handle>)
    ensures
        copy@ == handles@,
{
    let mut copy: Vec<Handle> = Vec::new();
    let mut i: usize = 0;
    while i < handles.len()
        invariant
            0 <= i <= handles@.len(),
            copy@ == handles@.take(i as int),
        decreases handles@.len() - i,
    {
        copy.push(handles[i]);
        proof {
            assert(handles@.take(i + 1) =~= handles@.take(i as int).push(handles@[i as int]));
        }
        i += 1;
    }
    proof {
        assert(handles@.take(i as int) =~= handles@);
    }
    copy
}

impl Selection {
    /// A copy.
    pub fn duplicate(&self) -> (s: Selection)
        ensures
            s@ == self@,
    {
        match self {
            Selection::Empty => Selection::Empty,
            Selection::Graph(nodes) => Selection::Graph(duplicate_handles(nodes)),
            Selection::Animation(selection) => Selection::Animation(selection.duplicate()),
        }
    }

    /// The nodes of the scene graph that are selected, if nodes are what is
    /// selected.
    pub fn as_graph(&self) -> (r: Option<&Vec<Handle>>)
        ensures
            match self@ {
                SelectionView::Graph(nodes) => r matches Some(v) && v@ == nodes,
                _ => r is None,
            },
    {
        match self {
            Selection::Graph(nodes) => Some(nodes),
            _ => None,
        }
    }
}

/// The animation that the selection names: the one selected where an
/// animation is selected, and the selection of nothing otherwise.
pub open spec fn fetched(selection: SelectionView) -> AnimationSelectionView {
    match selection {
        SelectionView::Animation(s) => s,
        _ => AnimationSelection::empty(),
    }
}

/// The animation that the selection names: the one selected where an
/// animation is selected, and the selection of nothing otherwise.
pub fn fetch_selection(editor_selection: &Selection) -> (s: AnimationSelection)
    ensures
        s@ == fetched(editor_selection@),
{
    match editor_selection {
        Selection::Animation(s) => s.duplicate(),
        _ => AnimationSelection::new(Handle::none(), Handle::none()),
    }
}

} // verus!
