//! The list of tracks of the animation editor: one row for each curve,
//! under its track, under the node that the track moves.

use crate::animation::curve::CurveDataView;
use crate::handle::Handle;
use crate::message::Number;
use crate::tree::{built, holder, info, lemma_dialog, lemma_words, made, sound, Nodes};
use crate::ui::{spawn, BuildContext};
use crate::widget::{WidgetBuilder, WidgetInfo, WidgetKind};
use vstd::prelude::*;

verus! {

/// The width of the columns for the keys before and after, in pixels.
pub const KEY_SIZE: u32 = 50;

pub const EXPANDER_COLUMN: usize = 0;

pub const NAME_COLUMN: usize = 1;

pub const MODEL_COLUMN: usize = 2;

pub const VALUE_TO_MODEL: usize = 3;

pub const MODEL_TO_VALUE: usize = 4;

pub const VALUE_COLUMN: usize = 5;

pub const INTERP_TO_KEY: usize = 6;

pub const LEFT_TAN_COLUMN: usize = 7;

pub const RIGHT_TAN_COLUMN: usize = 8;

pub const PREV_COLUMN: usize = 9;

pub const NEXT_COLUMN: usize = 10;

/// What a track binds to.
#[derive(Clone, Debug, PartialEq, Eq)]
pub enum ValueBinding {
    Position,
    Scale,
    Rotation,
    Property { name: String },
}

/// The row of a track, with the rows of its curves.
pub struct TrackDataView {
    pub curves: Vec<CurveDataView>,
    pub id: u128,
    pub binding: ValueBinding,
    pub track_enabled_switch: Handle,
    pub track_enabled: bool,
    pub thumb: Number,
    pub name_text: Handle,
    pub next_key: Handle,
    pub prev_key: Handle,
}

/// The row of a node that tracks move, with the rows of those tracks.
pub struct TargetDataView {
    pub tracks: Vec<TrackDataView>,
    pub target: Handle,
    pub name_text: Handle,
    pub model_to_key: Handle,
    pub value_to_model: Handle,
    pub remove_key: Handle,
    pub next_key: Handle,
    pub prev_key: Handle,
}

/// The list of tracks: a grid, and the rows in it.
pub struct TrackDataList {
    pub content: Handle,
    pub targets: Vec<TargetDataView>,
}

impl TrackDataList {
    /// Builds the grid of the list into the tree, in row 1 of what will
    /// hold it, with no rows in it.
    pub fn new(ctx: &mut BuildContext) -> (list: TrackDataList)
        requires
            sound(old(ctx)@),
            old(ctx).has_room(1),
        ensures
            built(old(ctx)@, final(ctx)@, list.content, Seq::<Handle>::empty()),
            made(old(ctx)@, final(ctx)@, list.content),
            final(ctx)@.len() == old(ctx)@.len() + 1,
            info(final(ctx)@, list.content) == Some(
                WidgetInfo { row: 1, ..WidgetInfo::bare(WidgetKind::Grid) },
            ),
            list.targets@.len() == 0,
    {
        let ghost before = ctx@;
        proof {
            lemma_words(before, Handle::none_spec());
        }
        let grid = spawn(ctx, WidgetKind::Grid, WidgetBuilder::new().on_row(1));
        proof {
            lemma_dialog(before, ctx@, grid);
        }
        TrackDataList { content: grid, targets: Vec::new() }
    }

    /// Forgets the rows.
    pub fn clear(&mut self)
        ensures
            final(self).content == old(self).content,
            final(self).targets@.len() == 0,
    {
        self.targets = Vec::new();
    }
}

} // verus!
