//! The part of a widget that every kind of widget has, and the builder that
//! collects it before the widget enters the tree.

use crate::handle::Handle;
use crate::message::Number;
use vstd::prelude::*;

verus! {

/// What a node of the widget tree is. The host decides how each kind looks.
#[derive(Clone, Copy, Debug, PartialEq, Eq, Structural)]
pub enum WidgetKind {
    Canvas,
    BitField,
    Border,
    Button,
    CheckBox,
    Decorator,
    DropdownList,
    Expander,
    Grid,
    Image,
    Inspector,
    MaterialField,
    NumericUpDown,
    ProgressBar,
    ScrollViewer,
    StackPanel,
    Text,
    TextBox,
    TileEditor,
    TileHandleField,
    Vec2Editor,
    VectorImage,
    Window,
    WrapPanel,
}

/// One node of the widget tree.
pub struct Widget {
    pub handle: Handle,
    pub kind: WidgetKind,
    pub parent: Handle,
    pub children: Vec<Handle>,
    pub enabled: bool,
    pub visibility: bool,
    pub row: usize,
    pub column: usize,
    /// The state of a check box; `None` for one that is undetermined, and
    /// for every other kind of widget.
    pub checked: Option<bool>,
    /// The number that a number box starts with; `None` where none was
    /// given, and for every other kind of widget.
    pub value: Option<Number>,
    /// The least number that a number box takes; `None` where none was
    /// given, and for every other kind of widget.
    pub min_value: Option<Number>,
    /// The name under which the host finds the widget again; may be empty.
    pub name: String,
    /// What the widget says: the caption of a button, the title of a window,
    /// the content of a text; may be empty.
    pub text: String,
    /// What the widget says of itself when asked; may be empty.
    pub tooltip: String,
}

/// A widget as contracts see it.
pub struct WidgetView {
    pub handle: Handle,
    pub kind: WidgetKind,
    pub parent: Handle,
    pub children: Seq<Handle>,
    pub enabled: bool,
    pub visibility: bool,
    pub row: usize,
    pub column: usize,
    pub checked: Option<bool>,
    pub value: Option<Number>,
    pub min_value: Option<Number>,
    pub name: Seq<char>,
    pub text: Seq<char>,
    pub tooltip: Seq<char>,
}

/// What a widget is and holds, apart from its place in the tree.
pub struct WidgetInfo {
    pub kind: WidgetKind,
    pub children: Seq<Handle>,
    pub enabled: bool,
    pub visibility: bool,
    pub row: usize,
    pub column: usize,
    pub checked: Option<bool>,
    pub value: Option<Number>,
    pub min_value: Option<Number>,
    pub name: Seq<char>,
    pub text: Seq<char>,
    pub tooltip: Seq<char>,
}

impl WidgetInfo {
    /// A widget of the given kind on which nothing is set: it works, is
    /// shown, sits in the first cell of its parent's grid, holds nothing
    /// and says nothing.
    pub open spec fn bare(kind: WidgetKind) -> WidgetInfo {
        WidgetInfo {
            kind,
            children: Seq::<Handle>::empty(),
            enabled: true,
            visibility: true,
            row: 0,
            column: 0,
            checked: None,
            value: None,
            min_value: None,
            name: Seq::<char>::empty(),
            text: Seq::<char>::empty(),
            tooltip: Seq::<char>::empty(),
        }
    }

    /// Whether the widget is as `with` says, whatever it holds.
    pub open spec fn is_like(self, with: WidgetInfo) -> bool {
        self == (WidgetInfo { children: self.children, ..with })
    }
}

impl WidgetView {
    /// The widget apart from its handle and its parent.
    pub open spec fn info(self) -> WidgetInfo {
        WidgetInfo {
            kind: self.kind,
            children: self.children,
            enabled: self.enabled,
            visibility: self.visibility,
            row: self.row,
            column: self.column,
            checked: self.checked,
            value: self.value,
            min_value: self.min_value,
            name: self.name,
            text: self.text,
            tooltip: self.tooltip,
        }
    }
}

impl View for Widget {
    type V = WidgetView;

    open spec fn view(&self) -> WidgetView {
        WidgetView {
            handle: self.handle,
            kind: self.kind,
            parent: self.parent,
            children: self.children@,
            enabled: self.enabled,
            visibility: self.visibility,
            row: self.row,
            column: self.column,
            checked: self.checked,
            value: self.value,
            min_value: self.min_value,
            name: self.name@,
            text: self.text@,
            tooltip: self.tooltip@,
        }
    }
}

impl Widget {
    /// Whether the widget is shown.
    pub fn visibility(&self) -> (b: bool)
        ensures
            b == self.visibility,
    {
        self.visibility
    }

    /// Whether the widget reacts to input.
    pub fn enabled(&self) -> (b: bool)
        ensures
            b == self.enabled,
    {
        self.enabled
    }
}

/// Collects what a new widget starts with.
pub struct WidgetBuilder {
    pub children: Vec<Handle>,
    pub enabled: bool,
    pub visibility: bool,
    pub row: usize,
    pub column: usize,
    pub checked: Option<bool>,
    pub value: Option<Number>,
    pub min_value: Option<Number>,
    pub name: String,
    pub text: String,
    pub tooltip: String,
}

/// The handles of `s` in their order, but for those that name nothing.
pub open spec fn named(s: Seq<Handle>) -> Seq<Handle>
    decreases s.len(),
{
    if s.len() == 0 {
        Seq::<Handle>::empty()
    } else if s.last().is_some() {
        named(s.drop_last()).push(s.last())
    } else {
        named(s.drop_last())
    }
}

/// Where no handle names nothing, none is left out.
pub proof fn lemma_named_all(s: Seq<Handle>)
    requires
        forall|k: int| 0 <= k < s.len() ==> (#[trigger] s[k]).is_some(),
    ensures
        named(s) == s,
    decreases s.len(),
{
    if s.len() > 0 {
        let r = s.drop_last();
        assert forall|k: int| 0 <= k < r.len() implies (#[trigger] r[k]).is_some() by {
            assert(s[k] == r[k]);
        }
        lemma_named_all(r);
        assert(s.last().is_some());
        assert(named(s) =~= s);
    } else {
        assert(named(s) =~= s);
    }
}

impl WidgetBuilder {
    /// Whether the widget under construction takes `h` as a child.
    pub open spec fn adopts(&self, h: Handle) -> bool {
        self.children@.contains(h)
    }

    /// The widget that the builder describes, as it enters the tree under
    /// the name `handle`, below the root.
    pub open spec fn describes(&self, handle: Handle, kind: WidgetKind) -> WidgetView {
        WidgetView {
            handle,
            kind,
            parent: Handle { index: 0, generation: 1 },
            children: self.children@,
            enabled: self.enabled,
            visibility: self.visibility,
            row: self.row,
            column: self.column,
            checked: self.checked,
            value: self.value,
            min_value: self.min_value,
            name: self.name@,
            text: self.text@,
            tooltip: self.tooltip@,
        }
    }

    /// What the widget that the builder describes is and holds.
    pub open spec fn info(&self, kind: WidgetKind) -> WidgetInfo {
        WidgetInfo {
            kind,
            children: self.children@,
            enabled: self.enabled,
            visibility: self.visibility,
            row: self.row,
            column: self.column,
            checked: self.checked,
            value: self.value,
            min_value: self.min_value,
            name: self.name@,
            text: self.text@,
            tooltip: self.tooltip@,
        }
    }

    /// A builder for an enabled, visible widget without children, name,
    /// text or tooltip, in the first cell of its parent's grid.
    pub fn new() -> (b: WidgetBuilder)
        ensures
            b.children@ == Seq::<Handle>::empty(),
            b.enabled,
            b.visibility,
            b.row == 0,
            b.column == 0,
            b.checked is None,
            b.value is None,
            b.min_value is None,
            b.name@ == Seq::<char>::empty(),
            b.text@ == Seq::<char>::empty(),
            b.tooltip@ == Seq::<char>::empty(),
            forall|h: Handle| !#[trigger] b.adopts(h),
    {
        WidgetBuilder {
            children: Vec::new(),
            enabled: true,
            visibility: true,
            row: 0,
            column: 0,
            checked: None,
            value: None,
            min_value: None,
            name: String::new(),
            text: String::new(),
            tooltip: String::new(),
        }
    }

    /// Adds a child after those already given. The handle that names nothing
    /// is skipped.
    pub fn with_child(self, handle: Handle) -> (b: WidgetBuilder)
        ensures
            b.children@ == if handle.is_none() {
                self.children@
            } else {
                self.children@.push(handle)
            },
            forall|h: Handle| #[trigger]
                b.adopts(h) == (self.adopts(h) || (h == handle && handle.is_some())),
            b.enabled == self.enabled,
            b.visibility == self.visibility,
            b.row == self.row,
            b.column == self.column,
            b.checked == self.checked,
            b.value == self.value,
            b.min_value == self.min_value,
            b.name == self.name,
            b.text == self.text,
            b.tooltip == self.tooltip,
    {
        let mut b = self;
        if handle.is_some() {
            b.children.push(handle);
            proof {
                assert forall|h: Handle| #[trigger]
                    b.adopts(h) == (self.adopts(h) || h == handle) by {
                    if self.adopts(h) {
                        let k = choose|k: int| 0 <= k < self.children@.len() && self.children@[k] == h;
                        assert(b.children@[k] == h);
                    }
                    if h == handle {
                        assert(b.children@[self.children@.len() as int] == h);
                    }
                }
            }
        }
        b
    }

    /// Adds children after those already given, in their order. Handles that
    /// name nothing are skipped.
    pub fn with_children(self, handles: &Vec<Handle>) -> (b: WidgetBuilder)
        ensures
            b.children@ == self.children@ + named(handles@),
            forall|h: Handle| #[trigger]
                b.adopts(h) == (self.adopts(h) || (handles@.contains(h) && h.is_some())),
            b.enabled == self.enabled,
            b.visibility == self.visibility,
            b.row == self.row,
            b.column == self.column,
            b.checked == self.checked,
            b.value == self.value,
            b.min_value == self.min_value,
            b.name == self.name,
            b.text == self.text,
            b.tooltip == self.tooltip,
    {
        let mut b = self;
        let mut k: usize = 0;
        while k < handles.len()
            invariant
                0 <= k <= handles.len(),
                b.children@ == self.children@ + named(handles@.take(k as int)),
                forall|h: Handle| #[trigger]
                    b.adopts(h) == (self.adopts(h) || (handles@.take(k as int).contains(h)
                        && h.is_some())),
                b.enabled == self.enabled,
                b.visibility == self.visibility,
                b.row == self.row,
                b.column == self.column,
                b.checked == self.checked,
                b.value == self.value,
                b.min_value == self.min_value,
            b.value == self.value,
            b.min_value == self.min_value,
                b.name == self.name,
                b.text == self.text,
                b.tooltip == self.tooltip,
            decreases handles.len() - k,
        {
            let ghost prev = b;
            let ghost before = handles@.take(k as int);
            let ghost after = handles@.take(k + 1);
            b = b.with_child(handles[k]);
            proof {
                assert(after.drop_last() =~= before);
                assert(after.last() == handles@[k as int]);
                assert(b.children@ =~= self.children@ + named(after));
                assert forall|h: Handle| #[trigger]
                    b.adopts(h) == (self.adopts(h) || (after.contains(h) && h.is_some())) by {
                    assert(prev.adopts(h) == (self.adopts(h) || (before.contains(h) && h.is_some())));
                    if before.contains(h) {
                        let j = choose|j: int| 0 <= j < before.len() && before[j] == h;
                        assert(after[j] == h);
                    }
                    if after.contains(h) {
                        let j = choose|j: int| 0 <= j < after.len() && after[j] == h;
                        if j < k {
                            assert(before[j] == h);
                        }
                    }
                    if h == handles@[k as int] {
                        assert(after[k as int] == h);
                    }
                }
            }
            k += 1;
        }
        proof {
            assert(handles@.take(k as int) =~= handles@);
        }
        b
    }

    pub fn with_enabled(self, enabled: bool) -> (b: WidgetBuilder)
        ensures
            b == (WidgetBuilder { enabled, ..self }),
    {
        let mut b = self;
        b.enabled = enabled;
        b
    }

    pub fn with_visibility(self, visibility: bool) -> (b: WidgetBuilder)
        ensures
            b == (WidgetBuilder { visibility, ..self }),
    {
        let mut b = self;
        b.visibility = visibility;
        b
    }

    pub fn on_row(self, row: usize) -> (b: WidgetBuilder)
        ensures
            b == (WidgetBuilder { row, ..self }),
    {
        let mut b = self;
        b.row = row;
        b
    }

    pub fn on_column(self, column: usize) -> (b: WidgetBuilder)
        ensures
            b == (WidgetBuilder { column, ..self }),
    {
        let mut b = self;
        b.column = column;
        b
    }

    pub fn with_name(self, name: &str) -> (b: WidgetBuilder)
        ensures
            b == (WidgetBuilder { name: b.name, ..self }),
            b.name@ == name@,
    {
        let mut b = self;
        b.name = String::from_str(name);
        b
    }

    pub fn with_text(self, text: &str) -> (b: WidgetBuilder)
        ensures
            b == (WidgetBuilder { text: b.text, ..self }),
            b.text@ == text@,
    {
        let mut b = self;
        b.text = String::from_str(text);
        b
    }

    pub fn with_tooltip(self, tooltip: &str) -> (b: WidgetBuilder)
        ensures
            b == (WidgetBuilder { tooltip: b.tooltip, ..self }),
            b.tooltip@ == tooltip@,
    {
        let mut b = self;
        b.tooltip = String::from_str(tooltip);
        b
    }

    /// Sets the number that a number box starts with.
    pub fn with_value(self, value: Number) -> (b: WidgetBuilder)
        ensures
            b == (WidgetBuilder { value: Some(value), ..self }),
    {
        let mut b = self;
        b.value = Some(value);
        b
    }

    /// Sets the least number that a number box takes.
    pub fn with_min_value(self, min_value: Number) -> (b: WidgetBuilder)
        ensures
            b == (WidgetBuilder { min_value: Some(min_value), ..self }),
    {
        let mut b = self;
        b.min_value = Some(min_value);
        b
    }

    /// Sets the state that a check box starts in.
    pub fn checked(self, checked: Option<bool>) -> (b: WidgetBuilder)
        ensures
            b == (WidgetBuilder { checked, ..self }),
    {
        let mut b = self;
        b.checked = checked;
        b
    }
}

} // verus!
