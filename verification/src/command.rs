//! What the editor is asked to do: commands, which can be undone, and the
//! other messages that its parts send each other.

use crate::handle::Handle;
use crate::message::Number;
use crate::scene::{Selection, SelectionView};
use crate::tilemap::tiles::{Cell, TileDefinitionHandle, TileSetPageSource};
use vstd::prelude::*;

verus! {

/// A change that the editor can make and take back.
#[derive(Debug, PartialEq, Eq)]
pub enum Command {
    ChangeSelection { new: Selection, old: Selection },
    /// Adds an animation of the given name to a player: an empty one, or a
    /// copy of the animation `copy_of`.
    AddAnimation { animation_player: Handle, copy_of: Option<Handle>, name: String },
    RemoveAnimation { animation_player: Handle, animation: Handle },
    SetAnimationName { node_handle: Handle, animation_handle: Handle, value: String },
    SetAnimationLength { node_handle: Handle, animation_handle: Handle, value: Number },
    SetAnimationSpeed { node_handle: Handle, animation_handle: Handle, value: Number },
    /// Moves one end of the part of an animation that plays. The start
    /// goes to the number given, but not beyond the end; the end goes to the
    /// number given, but not before the start.
    SetAnimationTimeSlice { node_handle: Handle, animation_handle: Handle, bound: SliceBound },
    /// Gives a page of a tile set another tile to stand for it.
    ModifyPageIcon { tile_set: u64, page: Cell, icon: TileDefinitionHandle },
    /// Gives a page of a brush another tile to stand for it.
    ModifyBrushPageIcon { brush: u64, page: Cell, icon: TileDefinitionHandle },
    /// Puts a new, empty page into a brush.
    SetBrushPage { brush: u64, position: Cell, icon: TileDefinitionHandle },
    /// Puts a new, empty page into a tile set.
    SetTileSetPage {
        tile_set: u64,
        position: Cell,
        icon: TileDefinitionHandle,
        source: TileSetPageSource,
    },
    /// Puts new tiles, as they come, into a tile set.
    SetTileSetTiles { tile_set: u64, tiles: Vec<(TileDefinitionHandle, NewTile)> },
    ModifyPageMaterial { tile_set: u64, page: Cell, material: u64 },
    ModifyPageTileSize { tile_set: u64, page: Cell, width: u32, height: u32 },
}

/// The kinds of tile that can be put into a tile set as they come.
#[derive(Clone, Copy, Debug, PartialEq, Eq, Structural)]
pub enum NewTile {
    /// A tile cut from the picture of its page.
    MaterialTile,
    /// A tile of its own material and shape.
    FreeformTile,
}

/// One end of the part of an animation that plays, and where it is to go.
#[derive(Clone, Copy, Debug, PartialEq, Eq, Structural)]
pub enum SliceBound {
    Start(Number),
    End(Number),
}

pub enum CommandView {
    ChangeSelection { new: SelectionView, old: SelectionView },
    AddAnimation { animation_player: Handle, copy_of: Option<Handle>, name: Seq<char> },
    RemoveAnimation { animation_player: Handle, animation: Handle },
    SetAnimationName { node_handle: Handle, animation_handle: Handle, value: Seq<char> },
    SetAnimationLength { node_handle: Handle, animation_handle: Handle, value: Number },
    SetAnimationSpeed { node_handle: Handle, animation_handle: Handle, value: Number },
    SetAnimationTimeSlice { node_handle: Handle, animation_handle: Handle, bound: SliceBound },
    ModifyPageIcon { tile_set: u64, page: Cell, icon: TileDefinitionHandle },
    ModifyBrushPageIcon { brush: u64, page: Cell, icon: TileDefinitionHandle },
    SetBrushPage { brush: u64, position: Cell, icon: TileDefinitionHandle },
    SetTileSetPage {
        tile_set: u64,
        position: Cell,
        icon: TileDefinitionHandle,
        source: TileSetPageSource,
    },
    SetTileSetTiles { tile_set: u64, tiles: Seq<(TileDefinitionHandle, NewTile)> },
    ModifyPageMaterial { tile_set: u64, page: Cell, material: u64 },
    ModifyPageTileSize { tile_set: u64, page: Cell, width: u32, height: u32 },
}

impl View for Command {
    type V = CommandView;

    open spec fn view(&self) -> CommandView {
        match *self {
            Command::ChangeSelection { new, old } => CommandView::ChangeSelection {
                new: new@,
                old: old@,
            },
            Command::AddAnimation { animation_player, copy_of, name } => CommandView::AddAnimation {
                animation_player,
                copy_of,
                name: name@,
            },
            Command::RemoveAnimation { animation_player, animation } => CommandView::RemoveAnimation {
                animation_player,
                animation,
            },
            Command::SetAnimationName {
                node_handle,
                animation_handle,
                value,
            } => CommandView::SetAnimationName { node_handle, animation_handle, value: value@ },
            Command::SetAnimationLength {
                node_handle,
                animation_handle,
                value,
            } => CommandView::SetAnimationLength { node_handle, animation_handle, value },
            Command::SetAnimationSpeed {
                node_handle,
                animation_handle,
                value,
            } => CommandView::SetAnimationSpeed { node_handle, animation_handle, value },
            Command::SetAnimationTimeSlice {
                node_handle,
                animation_handle,
                bound,
            } => CommandView::SetAnimationTimeSlice { node_handle, animation_handle, bound },
            Command::ModifyPageIcon { tile_set, page, icon } => CommandView::ModifyPageIcon {
                tile_set,
                page,
                icon,
            },
            Command::ModifyBrushPageIcon { brush, page, icon } => CommandView::ModifyBrushPageIcon {
                brush,
                page,
                icon,
            },
            Command::SetBrushPage { brush, position, icon } => CommandView::SetBrushPage {
                brush,
                position,
                icon,
            },
            Command::SetTileSetPage {
                tile_set,
                position,
                icon,
                source,
            } => CommandView::SetTileSetPage { tile_set, position, icon, source },
            Command::SetTileSetTiles { tile_set, tiles } => CommandView::SetTileSetTiles {
                tile_set,
                tiles: tiles@,
            },
            Command::ModifyPageMaterial {
                tile_set,
                page,
                material,
            } => CommandView::ModifyPageMaterial { tile_set, page, material },
            Command::ModifyPageTileSize {
                tile_set,
                page,
                width,
                height,
            } => CommandView::ModifyPageTileSize { tile_set, page, width, height },
        }
    }
}

/// Commands that are done, and undone, together. The name, if it is not
/// empty, is what the editor calls the group.
#[derive(Debug, PartialEq, Eq)]
pub struct CommandGroup {
    pub commands: Vec<Command>,
    pub custom_name: String,
}

pub struct CommandGroupView {
    pub commands: Seq<CommandView>,
    pub custom_name: Seq<char>,
}

impl View for CommandGroup {
    type V = CommandGroupView;

    open spec fn view(&self) -> CommandGroupView {
        CommandGroupView {
            commands: self.commands@.map_values(|c: Command| c@),
            custom_name: self.custom_name@,
        }
    }
}

impl CommandGroup {
    /// The group of the given commands, without a name.
    pub fn from(commands: Vec<Command>) -> (g: CommandGroup)
        ensures
            g@.commands == commands@.map_values(|c: Command| c@),
            g@.custom_name == Seq::<char>::empty(),
    {
        CommandGroup { commands, custom_name: String::new() }
    }

    pub fn with_custom_name(self, name: &str) -> (g: CommandGroup)
        ensures
            g@.commands == self@.commands,
            g@.custom_name == name@,
    {
        CommandGroup { commands: self.commands, custom_name: String::from_str(name) }
    }
}

/// What the parts of the editor tell each other.
#[derive(Debug, PartialEq, Eq)]
pub enum Message {
    DoCommand(Command),
    DoCommandGroup(CommandGroup),
    UndoCurrentSceneCommand,
    RedoCurrentSceneCommand,
    SelectionChanged,
    /// Open the editor of tile sets on a tile set.
    OpenTileSetEditor(u64),
    /// Open the editor of tile sets on a brush.
    OpenTileMapBrushEditor(u64),
    /// The way of working in the scene has changed to the one with the
    /// given identifier.
    SetInteractionMode(u128),
}

pub enum MessageView {
    DoCommand(CommandView),
    DoCommandGroup(CommandGroupView),
    UndoCurrentSceneCommand,
    RedoCurrentSceneCommand,
    SelectionChanged,
    OpenTileSetEditor(u64),
    OpenTileMapBrushEditor(u64),
    SetInteractionMode(u128),
}

impl View for Message {
    type V = MessageView;

    open spec fn view(&self) -> MessageView {
        match *self {
            Message::DoCommand(c) => MessageView::DoCommand(c@),
            Message::DoCommandGroup(g) => MessageView::DoCommandGroup(g@),
            Message::UndoCurrentSceneCommand => MessageView::UndoCurrentSceneCommand,
            Message::RedoCurrentSceneCommand => MessageView::RedoCurrentSceneCommand,
            Message::SelectionChanged => MessageView::SelectionChanged,
            Message::OpenTileSetEditor(t) => MessageView::OpenTileSetEditor(t),
            Message::OpenTileMapBrushEditor(b) => MessageView::OpenTileMapBrushEditor(b),
            Message::SetInteractionMode(m) => MessageView::SetInteractionMode(m),
        }
    }
}

/// The way to the editor: messages put here reach it in their order.
pub struct MessageSender {
    queue: Vec<Message>,
}

impl MessageSender {
    /// The messages that wait, oldest first.
    pub closed spec fn sent(&self) -> Seq<MessageView> {
        self.queue@.map_values(|m: Message| m@)
    }

    pub fn new() -> (s: MessageSender)
        ensures
            s.sent() == Seq::<MessageView>::empty(),
    {
        let s = MessageSender { queue: Vec::new() };
        proof {
            assert(s.sent() =~= Seq::<MessageView>::empty());
        }
        s
    }

    pub fn send(&mut self, message: Message)
        ensures
            final(self).sent() == old(self).sent().push(message@),
    {
        self.queue.push(message);
        proof {
            assert(self.sent() =~= old(self).sent().push(message@));
        }
    }

    /// Asks the editor to do one command.
    pub fn do_command(&mut self, command: Command)
        ensures
            final(self).sent() == old(self).sent().push(MessageView::DoCommand(command@)),
    {
        self.send(Message::DoCommand(command));
    }

    /// Asks the editor to do a group of commands as one.
    pub fn do_command_group(&mut self, group: CommandGroup)
        ensures
            final(self).sent() == old(self).sent().push(MessageView::DoCommandGroup(group@)),
    {
        self.send(Message::DoCommandGroup(group));
    }

    /// Takes the oldest waiting message off the queue.
    pub fn poll(&mut self) -> (m: Option<Message>)
        ensures
            old(self).sent().len() == 0 ==> m is None && final(self).sent() == old(self).sent(),
            old(self).sent().len() > 0 ==> (m matches Some(first) && first@ == old(self).sent()[0])
                && final(self).sent() == old(self).sent().subrange(
                1,
                old(self).sent().len() as int,
            ),
    {
        if self.queue.len() == 0 {
            None
        } else {
            let first = self.queue.remove(0);
            proof {
                assert(self.sent() =~= old(self).sent().subrange(
                    1,
                    old(self).sent().len() as int,
                ));
            }
            Some(first)
        }
    }
}

} // verus!
