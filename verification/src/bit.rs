//! A widget that shows a number as a row of switches, one for each bit.

use crate::handle::Handle;
use crate::message::{
    plain, CheckBoxMessage, MessageData, MessageDataView, MessageDirection, MouseButton,
    UiMessage, UiMessageView, WidgetMessage,
};
use crate::tree::{
    alive, attachable, built, lemma_tops_alive, root, slot, top, under, wf, widget, Nodes,
};
use crate::ui::{BuildContext, UserInterface};
use crate::widget::{lemma_named_all, WidgetBuilder, WidgetInfo, WidgetKind, WidgetView};
use vstd::prelude::*;

verus! {

/// A number of any of the widths that a bit field can show. A message
/// carries the number in this form, and the widget that receives it takes
/// it only if the width is its own.
#[derive(Clone, Copy, Debug, PartialEq, Eq, Structural)]
pub enum BitValue {
    U8(u8),
    U16(u16),
    U32(u32),
    U64(u64),
    Usize(usize),
    I8(i8),
    I16(i16),
    I32(i32),
    I64(i64),
    Isize(isize),
}

/// A fixed number of bits with the operations that a bit field needs.
///
/// The bits are numbered from zero. A container also serves as the amount
/// of a shift, and then stands for the number `amount`.
pub trait BitContainer: Copy + Sized {
    /// How many bits a container holds.
    spec fn width() -> nat;

    /// Whether the bit `index` is set.
    spec fn bit(self, index: nat) -> bool;

    /// The number that the container stands for as the amount of a shift.
    spec fn amount(self) -> int;

    /// The greatest index that a container can stand for.
    spec fn limit() -> int;

    /// The container in the form in which a message carries it.
    spec fn wrapped(self) -> BitValue;

    /// The container that a message carries, if it has this width.
    spec fn unwrapped(v: BitValue) -> Option<Self>;

    /// Every index of a bit can be the amount of a shift.
    proof fn lemma_width()
        ensures
            0 < Self::width() <= Self::limit() + 1,
            Self::width() <= usize::MAX,
    ;

    /// The bits decide the container.
    proof fn lemma_bits_decide(a: Self, b: Self)
        requires
            forall|i: nat| i < Self::width() ==> a.bit(i) == b.bit(i),
        ensures
            a == b,
    ;

    /// Wrapping loses nothing.
    proof fn lemma_wrapped(a: Self)
        ensures
            Self::unwrapped(a.wrapped()) == Some(a),
    ;

    /// What can be unwrapped was wrapped.
    proof fn lemma_unwrapped(v: BitValue)
        ensures
            Self::unwrapped(v) matches Some(a) ==> a.wrapped() == v,
    ;

    fn bits() -> (n: usize)
        ensures
            n == Self::width(),
    ;

    /// The container with no bit set.
    fn zero() -> (r: Self)
        ensures
            forall|i: nat| i < Self::width() ==> !#[trigger] r.bit(i),
            r.amount() == 0,
    ;

    /// The container with only bit zero set.
    fn one() -> (r: Self)
        ensures
            forall|i: nat| i < Self::width() ==> #[trigger] r.bit(i) == (i == 0),
    ;

    /// The container that stands for `index`, if there is one.
    fn from_index(index: usize) -> (r: Option<Self>)
        ensures
            index <= Self::limit() ==> (r matches Some(a) && a.amount() == index),
            index > Self::limit() ==> r is None,
    ;

    /// The bits moved up by `rhs` places; what moves in from below is not set.
    fn shl(self, rhs: Self) -> (r: Self)
        requires
            0 <= rhs.amount() < Self::width(),
        ensures
            forall|i: nat|
                i < Self::width() ==> #[trigger] r.bit(i) == (i >= rhs.amount() && self.bit(
                    (i - rhs.amount()) as nat,
                )),
    ;

    fn bitor(self, rhs: Self) -> (r: Self)
        ensures
            forall|i: nat| i < Self::width() ==> #[trigger] r.bit(i) == (self.bit(i) || rhs.bit(i)),
    ;

    fn bitand(self, rhs: Self) -> (r: Self)
        ensures
            forall|i: nat| i < Self::width() ==> #[trigger] r.bit(i) == (self.bit(i) && rhs.bit(i)),
    ;

    fn not(self) -> (r: Self)
        ensures
            forall|i: nat| i < Self::width() ==> #[trigger] r.bit(i) == !self.bit(i),
    ;

    fn same(self, rhs: Self) -> (b: bool)
        ensures
            b == (self == rhs),
    ;

    fn wrap(self) -> (v: BitValue)
        ensures
            v == self.wrapped(),
    ;

    fn unwrap(v: BitValue) -> (r: Option<Self>)
        ensures
            r == Self::unwrapped(v),
    ;
}

/// The place by which `index` shifts: `index` itself where a container can
/// stand for it, and zero where none can.
pub open spec fn shift_of<T: BitContainer>(index: usize) -> nat {
    if index <= T::limit() {
        index as nat
    } else {
        0
    }
}

/// Whether `r` is `value` with the bit `index` set to `on`.
pub open spec fn is_with_bit<T: BitContainer>(r: T, value: T, index: nat, on: bool) -> bool {
    forall|i: nat|
        i < T::width() ==> #[trigger] r.bit(i) == if i == index {
            on
        } else {
            value.bit(i)
        }
}

/// Whether `r` has the bit `index` set to `on` and every other bit to the
/// opposite.
pub open spec fn is_single<T: BitContainer>(r: T, index: nat, on: bool) -> bool {
    forall|i: nat| i < T::width() ==> #[trigger] r.bit(i) == ((i == index) == on)
}

/// The container with the bit `index` set and no other.
pub open spec fn only_bit<T: BitContainer>(index: nat) -> T {
    choose|r: T| is_single(r, index, true)
}

/// The container with every bit set but the bit `index`.
pub open spec fn all_but_bit<T: BitContainer>(index: nat) -> T {
    choose|r: T| is_single(r, index, false)
}

/// `value` with the bit `index` set or cleared.
pub open spec fn with_bit<T: BitContainer>(value: T, index: nat, on: bool) -> T {
    choose|r: T| is_with_bit(r, value, index, on)
}

/// The container with only the bit set by which `index` shifts.
fn mask<T: BitContainer>(index: usize) -> (r: T)
    requires
        shift_of::<T>(index) < T::width(),
    ensures
        forall|i: nat| i < T::width() ==> #[trigger] r.bit(i) == (i == shift_of::<T>(index)),
        r == only_bit::<T>(shift_of::<T>(index)),
{
    let amount = match T::from_index(index) {
        Some(a) => a,
        None => T::zero(),
    };
    let one = T::one();
    let r = one.shl(amount);
    proof {
        let k = shift_of::<T>(index);
        T::lemma_width();
        assert forall|i: nat| i < T::width() implies #[trigger] r.bit(i) == (i == k) by {
            if i >= k {
                assert(one.bit((i - k) as nat) == (i - k == 0));
            }
        }
        assert(is_single(r, k, true));
        T::lemma_bits_decide(r, only_bit::<T>(k));
    }
    r
}

/// `value` with one more bit set: the bit by which `index` shifts.
#[must_use]
pub fn set_bit<T: BitContainer>(value: T, index: usize) -> (r: T)
    requires
        shift_of::<T>(index) < T::width(),
    ensures
        forall|i: nat|
            i < T::width() ==> #[trigger] r.bit(i) == (value.bit(i) || i == shift_of::<T>(index)),
        r == with_bit(value, shift_of::<T>(index), true),
{
    let r = value.bitor(mask::<T>(index));
    proof {
        assert(is_with_bit(r, value, shift_of::<T>(index), true));
        T::lemma_bits_decide(r, with_bit(value, shift_of::<T>(index), true));
    }
    r
}

/// `value` with one bit cleared: the bit by which `index` shifts.
#[must_use]
pub fn reset_bit<T: BitContainer>(value: T, index: usize) -> (r: T)
    requires
        shift_of::<T>(index) < T::width(),
    ensures
        forall|i: nat|
            i < T::width() ==> #[trigger] r.bit(i) == (value.bit(i) && i != shift_of::<T>(index)),
        r == with_bit(value, shift_of::<T>(index), false),
{
    let r = value.bitand(mask::<T>(index).not());
    proof {
        assert(is_with_bit(r, value, shift_of::<T>(index), false));
        T::lemma_bits_decide(r, with_bit(value, shift_of::<T>(index), false));
    }
    r
}

/// Whether the bit by which `index` shifts is set in `value`.
#[must_use]
pub fn is_bit_set<T: BitContainer>(value: T, index: usize) -> (b: bool)
    requires
        shift_of::<T>(index) < T::width(),
    ensures
        b == value.bit(shift_of::<T>(index)),
{
    let zero = T::zero();
    let masked = value.bitand(mask::<T>(index));
    proof {
        let k = shift_of::<T>(index);
        if value.bit(k) {
            assert(masked.bit(k));
            assert(!zero.bit(k));
        } else {
            T::lemma_bits_decide(masked, zero);
        }
    }
    !masked.same(zero)
}

/// What a bit field is told, and tells: its number.
#[derive(Clone, Copy, Debug, PartialEq, Eq)]
pub enum BitFieldMessage<T: BitContainer> {
    Value(T),
}

impl<T: BitContainer> BitFieldMessage<T> {
    /// The message that sets, or reports, the number of a bit field.
    pub open spec fn value_spec(
        destination: Handle,
        direction: MessageDirection,
        value: T,
    ) -> UiMessageView {
        plain(destination, direction, MessageDataView::BitField(value.wrapped()))
    }

    /// The message that sets, or reports, the number of a bit field.
    pub fn value(destination: Handle, direction: MessageDirection, value: T) -> (m: UiMessage)
        ensures
            m@ == Self::value_spec(destination, direction, value),
    {
        UiMessage::with_data(destination, direction, MessageData::BitField(value.wrap()))
    }

    /// What `message` says to a bit field of this width, if anything.
    pub open spec fn read_spec(message: UiMessage) -> Option<BitFieldMessage<T>> {
        match message.data {
            MessageData::BitField(v) => match T::unwrapped(v) {
                Some(value) => Some(BitFieldMessage::Value(value)),
                None => None,
            },
            _ => None,
        }
    }

    /// What `message` says to a bit field of this width, if anything.
    pub fn read(message: &UiMessage) -> (r: Option<BitFieldMessage<T>>)
        ensures
            r == Self::read_spec(*message),
    {
        match &message.data {
            MessageData::BitField(v) => match T::unwrap(*v) {
                Some(value) => Some(BitFieldMessage::Value(value)),
                None => None,
            },
            _ => None,
        }
    }
}

/// Whether `k` is the first place at which `h` stands in `s`.
pub open spec fn is_position(s: Seq<Handle>, h: Handle, k: int) -> bool {
    &&& 0 <= k < s.len()
    &&& s[k] == h
    &&& forall|j: int| 0 <= j < k ==> s[j] != h
}

/// The first place at which `h` stands in `s`.
pub open spec fn position(s: Seq<Handle>, h: Handle) -> int {
    choose|k: int| is_position(s, h, k)
}

/// The first place at which `h` stands in `v`, if it stands in it.
fn find(v: &Vec<Handle>, h: Handle) -> (r: Option<usize>)
    ensures
        match r {
            Some(k) => is_position(v@, h, k as int) && k == position(v@, h),
            None => !v@.contains(h),
        },
{
    let mut k: usize = 0;
    while k < v.len()
        invariant
            0 <= k <= v.len(),
            forall|j: int| 0 <= j < k ==> v@[j] != h,
        decreases v.len() - k,
    {
        if v[k] == h {
            proof {
                assert(is_position(v@, h, k as int));
                let c = position(v@, h);
                assert(is_position(v@, h, c));
            }
            return Some(k);
        }
        k += 1;
    }
    None
}

/// A number shown as a row of switches, the switch `i` for the bit `i`.
pub struct BitField<T: BitContainer> {
    /// The widget of the bit field in the tree.
    pub handle: Handle,
    pub value: T,
    pub bit_switches: Vec<Handle>,
}

impl<T: BitContainer> BitField<T> {
    /// The bit field has a switch for no more bits than its number has, and
    /// each switch is a widget of the tree.
    pub open spec fn wf(&self, tree: Nodes) -> bool {
        &&& self.bit_switches@.len() <= T::width()
        &&& forall|k: int|
            0 <= k < self.bit_switches@.len() ==> alive(tree, #[trigger] self.bit_switches@[k])
    }

    /// The panel that holds the switches: the last child of the widget of
    /// the bit field.
    pub open spec fn panel(&self, tree: Nodes) -> Handle {
        widget(tree, self.handle).children.last()
    }

    /// The switches are different check boxes, all in one wrap panel, which
    /// holds nothing else and sits in the widget of the bit field.
    pub open spec fn laid_out(&self, tree: Nodes) -> bool {
        let panel = self.panel(tree);
        &&& self.bit_switches@.no_duplicates()
        &&& alive(tree, panel)
        &&& widget(tree, panel).info().is_like(WidgetInfo::bare(WidgetKind::WrapPanel))
        &&& widget(tree, panel).parent == self.handle
        &&& widget(tree, panel).children == self.bit_switches@
        &&& forall|i: int|
            0 <= i < self.bit_switches@.len() ==> widget(tree, #[trigger] self.bit_switches@[i]).parent
                == panel
    }

    /// The messages that bring the first `n` switches in line with `value`.
    pub open spec fn switch_messages(&self, value: T, n: nat) -> Seq<UiMessageView> {
        Seq::new(
            n,
            |i: int|
                plain(
                    self.bit_switches@[i],
                    MessageDirection::ToWidget,
                    MessageDataView::CheckBox(CheckBoxMessage::Check(Some(value.bit(i as nat)))),
                ),
        )
    }

    /// What a click of the right button on `target` asks for, as far as the
    /// first `n` switches go: for each switch that `target` sits in, a number
    /// with only that switch's bit set, or with only that bit cleared if the
    /// bit is set now.
    pub open spec fn right_click(&self, tree: Nodes, target: Handle, n: nat) -> Seq<UiMessageView>
        decreases n,
    {
        if n == 0 {
            Seq::<UiMessageView>::empty()
        } else {
            let i = (n - 1) as nat;
            let rest = self.right_click(tree, target, i);
            let switch = self.bit_switches@[i as int];
            if switch != target && under(tree, switch, target) {
                rest.push(
                    BitFieldMessage::<T>::value_spec(
                        self.handle,
                        MessageDirection::ToWidget,
                        if self.value.bit(i) {
                            all_but_bit::<T>(i)
                        } else {
                            only_bit::<T>(i)
                        },
                    ),
                )
            } else {
                rest
            }
        }
    }

    /// The number that `message` gives the bit field, if it gives it one: a
    /// number of the field's own width, sent to the field itself, other than
    /// the one it has.
    pub open spec fn takes(&self, message: UiMessage) -> Option<T> {
        match BitFieldMessage::<T>::read_spec(message) {
            Some(BitFieldMessage::Value(value)) => if message.destination == self.handle
                && message.direction == MessageDirection::ToWidget && value != self.value {
                Some(value)
            } else {
                None
            },
            None => None,
        }
    }

    /// The messages with which the bit field answers `message`.
    pub open spec fn answer(&self, tree: Nodes, message: UiMessage) -> Seq<UiMessageView> {
        match message.data {
            MessageData::CheckBox(CheckBoxMessage::Check(Some(on))) => if message.direction
                == MessageDirection::FromWidget && self.bit_switches@.contains(message.destination) {
                seq![
                    BitFieldMessage::<T>::value_spec(
                        self.handle,
                        MessageDirection::ToWidget,
                        with_bit(
                            self.value,
                            position(self.bit_switches@, message.destination) as nat,
                            on,
                        ),
                    ),
                ]
            } else {
                Seq::<UiMessageView>::empty()
            },
            MessageData::BitField(_) => match self.takes(message) {
                Some(value) => self.switch_messages(value, self.bit_switches@.len()).push(
                    message@.reversed(),
                ),
                None => Seq::<UiMessageView>::empty(),
            },
            MessageData::Widget(WidgetMessage::MouseDown { button: MouseButton::Right }) => self.right_click(
                tree,
                message.destination,
                self.bit_switches@.len(),
            ),
            _ => Seq::<UiMessageView>::empty(),
        }
    }

    /// Tells every switch whether its bit is set.
    pub fn sync_switches(&self, ui: &mut UserInterface)
        requires
            self.bit_switches@.len() <= T::width(),
        ensures
            final(ui).tree() == old(ui).tree(),
            final(ui).sent() == old(ui).sent() + self.switch_messages(
                self.value,
                self.bit_switches@.len(),
            ),
    {
        let mut i: usize = 0;
        proof {
            T::lemma_width();
            assert(old(ui).sent() + self.switch_messages(self.value, 0) =~= old(ui).sent());
        }
        while i < self.bit_switches.len()
            invariant
                0 <= i <= self.bit_switches@.len(),
                self.bit_switches@.len() <= T::width() <= T::limit() + 1,
                ui.tree() == old(ui).tree(),
                ui.sent() == old(ui).sent() + self.switch_messages(self.value, i as nat),
            decreases self.bit_switches@.len() - i,
        {
            let handle = self.bit_switches[i];
            let set = is_bit_set(self.value, i);
            ui.send_message(
                CheckBoxMessage::checked(handle, MessageDirection::ToWidget, Some(set)),
            );
            proof {
                assert(self.switch_messages(self.value, (i + 1) as nat) =~= self.switch_messages(
                    self.value,
                    i as nat,
                ).push(
                    plain(
                        handle,
                        MessageDirection::ToWidget,
                        MessageDataView::CheckBox(
                            CheckBoxMessage::Check(Some(self.value.bit(i as nat))),
                        ),
                    ),
                ));
            }
            i += 1;
        }
    }

    /// Reacts to a message that passes the bit field.
    ///
    /// A switch that reports a new state asks the field for the number with
    /// that bit changed. A new number sent to the field is taken, shown on
    /// the switches and reported. A click of the right button on a switch
    /// asks for the number with only that bit set, or only that bit cleared.
    /// The tree is left as it is; the answers wait in the queue.
    pub fn handle_routed_message(&mut self, ui: &mut UserInterface, message: &UiMessage)
        requires
            old(self).wf(old(ui).tree()),
            old(ui).wf(),
        ensures
            final(self).handle == old(self).handle,
            final(self).bit_switches == old(self).bit_switches,
            final(self).value == match old(self).takes(*message) {
                Some(value) => value,
                None => old(self).value,
            },
            final(ui).tree() == old(ui).tree(),
            final(ui).sent() == old(ui).sent() + old(self).answer(old(ui).tree(), *message),
    {
        proof {
            T::lemma_width();
            assert(old(ui).sent() + Seq::<UiMessageView>::empty() =~= old(ui).sent());
        }
        match &message.data {
            MessageData::CheckBox(CheckBoxMessage::Check(Some(on))) => {
                if message.direction == MessageDirection::FromWidget {
                    if let Some(bit_index) = find(&self.bit_switches, message.destination) {
                        let new_value = if *on {
                            set_bit(self.value, bit_index)
                        } else {
                            reset_bit(self.value, bit_index)
                        };
                        ui.send_message(
                            BitFieldMessage::value(
                                self.handle,
                                MessageDirection::ToWidget,
                                new_value,
                            ),
                        );
                        proof {
                            assert(self.bit_switches@.contains(message.destination));
                            assert(old(ui).sent().push(
                                BitFieldMessage::<T>::value_spec(
                                    self.handle,
                                    MessageDirection::ToWidget,
                                    new_value,
                                ),
                            ) =~= old(ui).sent() + old(self).answer(old(ui).tree(), *message));
                        }
                    }
                }
            },
            MessageData::BitField(v) => {
                if let Some(BitFieldMessage::Value(value)) = BitFieldMessage::<T>::read(message) {
                    if message.destination == self.handle && message.direction
                        == MessageDirection::ToWidget && !value.same(self.value) {
                        self.value = value;
                        self.sync_switches(ui);
                        proof {
                            T::lemma_unwrapped(*v);
                        }
                        ui.send_message(
                            UiMessage {
                                destination: message.destination,
                                direction: message.direction.reverse(),
                                flags: message.flags,
                                data: MessageData::BitField(value.wrap()),
                            },
                        );
                        proof {
                            assert(self.switch_messages(value, self.bit_switches@.len())
                                =~= old(self).switch_messages(value, self.bit_switches@.len()));
                            assert(ui.sent() =~= old(ui).sent() + old(self).answer(
                                old(ui).tree(),
                                *message,
                            ));
                        }
                    }
                }
            },
            MessageData::Widget(WidgetMessage::MouseDown { button }) => {
                if matches!(button, MouseButton::Right) {
                    let mut index: usize = 0;
                    proof {
                        assert(old(ui).sent() + self.right_click(
                            ui.tree(),
                            message.destination,
                            0,
                        ) =~= old(ui).sent());
                    }
                    while index < self.bit_switches.len()
                        invariant
                            0 <= index <= self.bit_switches@.len(),
                            self.wf(ui.tree()),
                            ui.wf(),
                            T::width() <= T::limit() + 1,
                            *self == *old(self),
                            ui.tree() == old(ui).tree(),
                            ui.sent() == old(ui).sent() + self.right_click(
                                ui.tree(),
                                message.destination,
                                index as nat,
                            ),
                        decreases self.bit_switches@.len() - index,
                    {
                        let bit = self.bit_switches[index];
                        if ui.is_node_child_of(message.destination, bit) {
                            let single = mask::<T>(index);
                            let new_value = if is_bit_set(self.value, index) {
                                let inverted = single.not();
                                proof {
                                    assert(is_single(inverted, index as nat, false));
                                    T::lemma_bits_decide(inverted, all_but_bit::<T>(index as nat));
                                }
                                inverted
                            } else {
                                single
                            };
                            ui.send_message(
                                BitFieldMessage::value(
                                    self.handle,
                                    MessageDirection::ToWidget,
                                    new_value,
                                ),
                            );
                        }
                        proof {
                            assert(ui.sent() =~= old(ui).sent() + self.right_click(
                                ui.tree(),
                                message.destination,
                                (index + 1) as nat,
                            ));
                        }
                        index += 1;
                    }
                }
            },
            _ => {},
        }
    }
}

/// Collects what a new bit field starts with.
pub struct BitFieldBuilder<T: BitContainer> {
    pub widget_builder: WidgetBuilder,
    pub value: T,
}

impl<T: BitContainer> BitFieldBuilder<T> {
    /// A builder for a bit field with no bit set.
    pub fn new(widget_builder: WidgetBuilder) -> (b: BitFieldBuilder<T>)
        ensures
            b.widget_builder == widget_builder,
            forall|i: nat| i < T::width() ==> !#[trigger] b.value.bit(i),
    {
        BitFieldBuilder { widget_builder, value: T::zero() }
    }

    pub fn with_value(self, value: T) -> (b: BitFieldBuilder<T>)
        ensures
            b.widget_builder == self.widget_builder,
            b.value == value,
    {
        let mut b = self;
        b.value = value;
        b
    }

    /// Builds the bit field into the tree: one check box for each bit, the
    /// box `i` checked where the bit `i` is set, all of them in a wrap panel,
    /// and the panel in the widget of the bit field, after the children that
    /// the widget builder lists.
    pub fn build(self, ctx: &mut BuildContext) -> (field: BitField<T>)
        requires
            old(ctx).wf(),
            old(ctx).has_room(T::width() + 2),
            forall|k: int|
                0 <= k < self.widget_builder.children@.len() ==> attachable(
                    old(ctx)@,
                    #[trigger] self.widget_builder.children@[k],
                ),
        ensures
            built(old(ctx)@, final(ctx)@, field.handle, self.widget_builder.children@),
            field.value == self.value,
            field.bit_switches@.len() == T::width(),
            field.wf(final(ctx)@),
            widget(final(ctx)@, field.handle).info().is_like(
                self.widget_builder.info(WidgetKind::BitField),
            ),
            widget(final(ctx)@, field.handle).children == self.widget_builder.children@.push(
                field.panel(final(ctx)@),
            ),
            field.laid_out(final(ctx)@),
            forall|i: int|
                0 <= i < T::width() ==> {
                    let w = widget(final(ctx)@, #[trigger] field.bit_switches@[i]);
                    w.info() == (WidgetInfo {
                        checked: Some(self.value.bit(i as nat)),
                        ..WidgetInfo::bare(WidgetKind::CheckBox)
                    })
                },
            final(ctx)@.len() == old(ctx)@.len() + T::width() + 2,
    {
        let ghost before = ctx@;
        let n = T::bits();
        let value = self.value;
        let mut bit_switches: Vec<Handle> = Vec::new();
        let mut i: usize = 0;
        proof {
            T::lemma_width();
            lemma_tops_alive(before);
        }
        while i < n
            invariant
                0 <= i <= n,
                n == T::width(),
                T::width() <= T::limit() + 1,
                wf(before),
                ctx.wf(),
                ctx@.len() == before.len() + i,
                before.len() + n + 2 <= u32::MAX,
                bit_switches@.len() == i,
                forall|k: int|
                    0 <= k < i ==> (#[trigger] bit_switches@[k]) == slot(
                        before.len() + k,
                    ),
                forall|x: Handle|
                    #[trigger] alive(ctx@, x) == (alive(before, x) || (x.generation == 1
                        && before.len() <= x.index < before.len() + i)),
                forall|x: Handle| alive(before, x) ==> #[trigger] widget(ctx@, x) == widget(before, x),
                forall|x: Handle| alive(before, x) ==> #[trigger] top(ctx@, x) == top(before, x),
                forall|k: int|
                    0 <= k < i ==> {
                        let w = widget(ctx@, #[trigger] bit_switches@[k]);
                        &&& w.info() == (WidgetInfo {
                            checked: Some(value.bit(k as nat)),
                            ..WidgetInfo::bare(WidgetKind::CheckBox)
                        })
                        &&& w.parent == root()
                        &&& top(ctx@, bit_switches@[k]) == bit_switches@[k]
                    },
            decreases n - i,
        {
            let ghost here = ctx@;
            let checked = is_bit_set(value, i);
            let switch = ctx.add_node(
                WidgetKind::CheckBox,
                WidgetBuilder::new().checked(Some(checked)),
            );
            bit_switches.push(switch);
            proof {
                assert(switch.index == before.len() + i && switch.generation == 1);
                assert forall|x: Handle|
                    #[trigger] alive(ctx@, x) == (alive(before, x) || (x.generation == 1
                        && before.len() <= x.index < before.len() + i + 1)) by {
                    assert(alive(ctx@, x) == (alive(here, x) || x == switch));
                    assert(alive(here, x) == (alive(before, x) || (x.generation == 1
                        && before.len() <= x.index < before.len() + i)));
                }
                assert forall|k: int| 0 <= k < i + 1 implies {
                    let w = widget(ctx@, #[trigger] bit_switches@[k]);
                    &&& w.info() == (WidgetInfo {
                        checked: Some(value.bit(k as nat)),
                        ..WidgetInfo::bare(WidgetKind::CheckBox)
                    })
                    &&& w.parent == root()
                    &&& top(ctx@, bit_switches@[k]) == bit_switches@[k]
                } by {
                    if k < i {
                        let s = bit_switches@[k];
                        assert(alive(here, s));
                        assert(widget(ctx@, s) == widget(here, s));
                        assert(top(ctx@, s) == top(here, s));
                    }
                }
                assert forall|x: Handle| alive(before, x) implies #[trigger] top(ctx@, x) == top(
                    before,
                    x,
                ) by {
                    assert(alive(here, x));
                    assert(top(here, x) == top(before, x));
                }
                assert forall|x: Handle| alive(before, x) implies #[trigger] widget(ctx@, x)
                    == widget(before, x) by {
                    assert(alive(here, x));
                    assert(widget(here, x) == widget(before, x));
                }
            }
            i += 1;
        }
        let ghost boxes = ctx@;
        proof {
            assert forall|k: int| 0 <= k < bit_switches@.len() implies (
            #[trigger] bit_switches@[k]).is_some() && attachable(boxes, bit_switches@[k]) by {
                let s = bit_switches@[k];
                assert(widget(boxes, s).parent == root());
            }
            lemma_named_all(bit_switches@);
        }
        let panel_builder = WidgetBuilder::new().with_children(&bit_switches);
        proof {
            assert(panel_builder.children@ =~= bit_switches@);
        }
        let panel = ctx.add_node(WidgetKind::WrapPanel, panel_builder);
        let ghost paneled = ctx@;
        proof {
            assert forall|k: int|
                0 <= k < self.widget_builder.children@.len() implies attachable(
                paneled,
                #[trigger] self.widget_builder.children@[k],
            ) by {
                let c = self.widget_builder.children@[k];
                assert(attachable(before, c));
                assert(alive(boxes, c));
                assert(widget(boxes, c) == widget(before, c));
                assert(!panel_builder.adopts(c)) by {
                    if panel_builder.adopts(c) {
                        let j = choose|j: int| 0 <= j < bit_switches@.len() && bit_switches@[j] == c;
                        assert(bit_switches@[j] == slot(before.len() + j));
                    }
                }
                assert(widget(paneled, c) == widget(boxes, c));
            }
        }
        let field_builder = self.widget_builder.with_child(panel);
        proof {
            assert forall|k: int| 0 <= k < field_builder.children@.len() implies attachable(
                paneled,
                #[trigger] field_builder.children@[k],
            ) by {
                if k < self.widget_builder.children@.len() {
                    assert(field_builder.children@[k] == self.widget_builder.children@[k]);
                }
            }
        }
        let handle = ctx.add_node(WidgetKind::BitField, field_builder);
        let field = BitField { handle, value, bit_switches };
        proof {
            let after = ctx@;
            let adopted = self.widget_builder.children@;
            assert forall|x: Handle| alive(before, x) implies #[trigger] alive(after, x) by {
                assert(alive(boxes, x));
                assert(alive(paneled, x));
            }
            assert forall|x: Handle| alive(before, x) implies !panel_builder.adopts(x) by {
                if panel_builder.adopts(x) {
                    let j = choose|j: int|
                        0 <= j < field.bit_switches@.len() && field.bit_switches@[j] == x;
                    assert(field.bit_switches@[j] == slot(before.len() + j));
                }
            }
            assert forall|x: Handle| alive(before, x) implies #[trigger] widget(after, x)
                == if adopted.contains(x) {
                WidgetView { parent: handle, ..widget(before, x) }
            } else {
                widget(before, x)
            } by {
                assert(alive(boxes, x));
                assert(alive(paneled, x));
                assert(widget(boxes, x) == widget(before, x));
                assert(widget(paneled, x) == widget(boxes, x));
                assert(x != panel);
            }
            assert forall|x: Handle| alive(before, x) implies #[trigger] top(after, x)
                == if adopted.contains(top(before, x)) {
                handle
            } else {
                top(before, x)
            } by {
                assert(alive(boxes, x));
                assert(alive(paneled, x));
                assert(top(boxes, x) == top(before, x));
                assert(alive(before, top(before, x)));
                assert(top(paneled, x) == top(boxes, x));
                assert(top(before, x) != panel);
            }
            assert forall|x: Handle| alive(after, x) && !alive(before, x) implies #[trigger] top(
                after,
                x,
            ) == handle by {
                if x == handle {
                } else if x == panel {
                    assert(top(paneled, panel) == panel);
                    assert(field_builder.adopts(panel));
                } else {
                    assert(alive(boxes, x));
                    let k = x.index - before.len();
                    assert(field.bit_switches@[k] == x);
                    assert(top(boxes, x) == x);
                    assert(panel_builder.adopts(x));
                    assert(top(paneled, x) == panel);
                    assert(field_builder.adopts(panel));
                }
            }
            assert forall|i: int| 0 <= i < T::width() implies {
                let w = widget(after, #[trigger] field.bit_switches@[i]);
                w.info() == (WidgetInfo {
                    checked: Some(self.value.bit(i as nat)),
                    ..WidgetInfo::bare(WidgetKind::CheckBox)
                })
            } by {
                let s = field.bit_switches@[i];
                assert(alive(boxes, s));
                assert(alive(paneled, s));
                assert(panel_builder.adopts(s));
                assert(!field_builder.adopts(s)) by {
                    if self.widget_builder.adopts(s) {
                        let j = choose|j: int|
                            0 <= j < adopted.len() && adopted[j] == s;
                        assert(attachable(before, adopted[j]));
                    }
                }
            }
            assert(field.wf(after)) by {
                assert forall|k: int| 0 <= k < field.bit_switches@.len() implies alive(
                    after,
                    #[trigger] field.bit_switches@[k],
                ) by {
                    assert(alive(boxes, field.bit_switches@[k]));
                    assert(alive(paneled, field.bit_switches@[k]));
                }
            }
            assert(panel.is_some());
            assert(field_builder.children@ == adopted.push(panel));
            assert(field.panel(after) == panel);
            assert(alive(paneled, panel));
            assert(field_builder.adopts(panel));
            assert(widget(paneled, panel).children =~= field.bit_switches@);
            assert forall|i: int, j: int|
                0 <= i < field.bit_switches@.len() && 0 <= j < field.bit_switches@.len() && i
                    != j implies field.bit_switches@[i] != field.bit_switches@[j] by {
                assert(field.bit_switches@[i] == slot(before.len() + i));
                assert(field.bit_switches@[j] == slot(before.len() + j));
            }
            assert forall|i: int| 0 <= i < field.bit_switches@.len() implies widget(
                after,
                #[trigger] field.bit_switches@[i],
            ).parent == panel by {
                let s = field.bit_switches@[i];
                assert(alive(boxes, s));
                assert(alive(paneled, s));
                assert(panel_builder.adopts(s));
                assert(widget(paneled, s).parent == panel);
                assert(!field_builder.adopts(s)) by {
                    if self.widget_builder.adopts(s) {
                        let j = choose|j: int| 0 <= j < adopted.len() && adopted[j] == s;
                        assert(attachable(before, adopted[j]));
                    }
                }
            }
        }
        field
    }
}

} // verus!
