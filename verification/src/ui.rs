//! The widget tree in memory, and the queue of messages that the logic
//! leaves for the host to deliver.

use crate::handle::Handle;
use crate::message::{UiMessage, UiMessageView};
use crate::tree::{
    alive, attachable, child_ok, climbs, grown, holder, info, initial, kept, lemma_grown_top,
    lemma_grown_wf, lemma_live_count_push, lemma_live_count_shape, lemma_pruned_wf,
    lemma_under_below, lemma_without, live_count, loose, node_wf, pruned, root, slot, sound, top,
    under, wf, widget, without, Nodes,
};
use crate::widget::{Widget, WidgetBuilder, WidgetKind, WidgetView};
use vstd::prelude::*;

verus! {

/// The widget tree. Widgets enter it through [`BuildContext::add_node`] and
/// leave it, with all that is under them, through
/// [`BuildContext::remove_node`].
pub struct BuildContext {
    nodes: Vec<Option<Widget>>,
}

impl View for BuildContext {
    type V = Nodes;

    closed spec fn view(&self) -> Nodes {
        Seq::new(self.nodes@.len(), |i: int| slot_view(self.nodes@[i]))
    }
}

/// A slot as contracts see it.
spec fn slot_view(o: Option<Widget>) -> Option<WidgetView> {
    match o {
        Some(w) => Some(w@),
        None => None,
    }
}

/// The handles of `v` in their order, but for `h`.
fn filter_out(v: &Vec<Handle>, h: Handle) -> (out: Vec<Handle>)
    ensures
        out@ == without(v@, h),
{
    let mut out: Vec<Handle> = Vec::new();
    let mut k: usize = 0;
    while k < v.len()
        invariant
            0 <= k <= v.len(),
            out@ == without(v@.take(k as int), h),
        decreases v.len() - k,
    {
        proof {
            assert(v@.take(k + 1).drop_last() =~= v@.take(k as int));
        }
        if v[k] != h {
            out.push(v[k]);
        }
        k += 1;
    }
    proof {
        assert(v@.take(k as int) =~= v@);
    }
    out
}

impl BuildContext {
    /// The rules of the tree hold.
    pub open spec fn wf(&self) -> bool {
        wf(self@)
    }

    /// Whether `h` names a widget of the tree.
    pub open spec fn alive(&self, h: Handle) -> bool {
        alive(self@, h)
    }

    /// Whether the tree can take `n` more widgets.
    pub open spec fn has_room(&self, n: nat) -> bool {
        self@.len() + n <= u32::MAX
    }

    /// A tree that holds the root and nothing else.
    pub fn new() -> (ctx: BuildContext)
        ensures
            ctx@ == initial(),
            ctx.wf(),
            sound(ctx@),
            live_count(ctx@) == 1,
    {
        let mut nodes: Vec<Option<Widget>> = Vec::new();
        nodes.push(
            Some(
                Widget {
                    handle: Handle { index: 0, generation: 1 },
                    kind: WidgetKind::Canvas,
                    parent: Handle::none(),
                    children: Vec::new(),
                    enabled: true,
                    visibility: true,
                    row: 0,
                    column: 0,
                    checked: None,
                    value: None,
                    min_value: None,
                    name: String::new(),
                    text: String::new(),
                    tooltip: String::new(),
                },
            ),
        );
        let ctx = BuildContext { nodes };
        proof {
            reveal(sound);
            assert(ctx@ =~= initial());
            assert(node_wf(ctx@, 0));
            assert(ctx@.drop_last() =~= Seq::<Option<WidgetView>>::empty());
            assert(live_count(ctx@.drop_last()) == 0);
        }
        ctx
    }

    /// The handle of the root.
    pub fn root(&self) -> (h: Handle)
        ensures
            h == root(),
    {
        Handle { index: 0, generation: 1 }
    }

    /// Whether `h` names a widget of the tree.
    pub fn is_valid_handle(&self, h: Handle) -> (b: bool)
        ensures
            b == self.alive(h),
    {
        h.generation == 1 && (h.index as usize) < self.nodes.len() && self.nodes[h.index as usize].is_some()
    }

    /// The widget that `h` names, if it names one.
    pub fn try_get(&self, h: Handle) -> (r: Option<&Widget>)
        ensures
            self.alive(h) ==> (r matches Some(w) && w@ == widget(self@, h)),
            !self.alive(h) ==> r is None,
    {
        if h.generation == 1 && (h.index as usize) < self.nodes.len() {
            self.nodes[h.index as usize].as_ref()
        } else {
            None
        }
    }

    /// The widget that `h` names.
    pub fn node(&self, h: Handle) -> (w: &Widget)
        requires
            self.alive(h),
        ensures
            w@ == widget(self@, h),
    {
        self.nodes[h.index as usize].as_ref().unwrap()
    }

    /// The number of widgets in the tree, the root among them.
    pub fn alive_count(&self) -> (n: usize)
        ensures
            n == live_count(self@),
    {
        let mut n: usize = 0;
        let mut i: usize = 0;
        while i < self.nodes.len()
            invariant
                0 <= i <= self.nodes.len(),
                n == live_count(self@.take(i as int)),
                n <= i,
            decreases self.nodes.len() - i,
        {
            proof {
                assert(self@.take(i + 1).drop_last() =~= self@.take(i as int));
            }
            if self.nodes[i].is_some() {
                n += 1;
            }
            i += 1;
        }
        proof {
            assert(self@.take(i as int) =~= self@);
        }
        n
    }

    /// How many more widgets the tree can take.
    pub fn room_left(&self) -> (n: usize)
        requires
            self.wf(),
        ensures
            n == u32::MAX - self@.len(),
            forall|k: nat| self.has_room(k) <==> k <= n,
    {
        0xffff_ffff - self.nodes.len()
    }

    /// Puts a new widget of the given kind into the tree, below the root,
    /// and makes it the parent of the children that the builder lists.
    pub fn add_node(&mut self, kind: WidgetKind, builder: WidgetBuilder) -> (h: Handle)
        requires
            old(self).wf(),
            old(self).has_room(1),
            forall|k: int|
                0 <= k < builder.children@.len() ==> attachable(
                    old(self)@,
                    #[trigger] builder.children@[k],
                ),
        ensures
            final(self).wf(),
            h == slot(old(self)@.len() as int),
            final(self)@ == grown(old(self)@, builder.describes(h, kind)),
            !old(self).alive(h),
            h != root(),
            h.is_some(),
            attachable(final(self)@, h),
            forall|x: Handle| #[trigger] final(self).alive(x) == (old(self).alive(x) || x == h),
            widget(final(self)@, h) == builder.describes(h, kind),
            forall|x: Handle|
                old(self).alive(x) ==> #[trigger] widget(final(self)@, x) == if builder.adopts(x) {
                    WidgetView { parent: h, ..widget(old(self)@, x) }
                } else {
                    widget(old(self)@, x)
                },
            forall|x: Handle|
                old(self).alive(x) ==> #[trigger] top(final(self)@, x) == if builder.adopts(
                    top(old(self)@, x),
                ) {
                    h
                } else {
                    top(old(self)@, x)
                },
            top(final(self)@, h) == h,
            live_count(final(self)@) == live_count(old(self)@) + 1,
    {
        let n = self.nodes.len();
        let h = Handle { index: n as u32, generation: 1 };
        let ghost before = self@;
        let ghost w = builder.describes(h, kind);
        let mut k: usize = 0;
        while k < builder.children.len()
            invariant
                0 <= k <= builder.children@.len(),
                self.nodes@.len() == n,
                before.len() == n,
                n < u32::MAX,
                h == slot(n as int),
                wf(before),
                forall|j: int|
                    0 <= j < builder.children@.len() ==> attachable(
                        before,
                        #[trigger] builder.children@[j],
                    ),
                forall|i: int|
                    0 <= i < n ==> #[trigger] self@[i] == match before[i] {
                        Some(old) => if builder.children@.take(k as int).contains(slot(i)) {
                            Some(WidgetView { parent: h, ..old })
                        } else {
                            Some(old)
                        },
                        None => None,
                    },
            decreases builder.children.len() - k,
        {
            let c = builder.children[k];
            let ghost here = self@;
            proof {
                assert(attachable(before, builder.children@[k as int]));
                assert(slot(c.index as int) == c);
            }
            let ghost slots = self.nodes@;
            match &mut self.nodes[c.index as usize] {
                Some(child) => {
                    child.parent = h;
                },
                None => {},
            }
            proof {
                assert(forall|i: int| 0 <= i < n ==> here[i] == slot_view(slots[i]));
                assert(forall|i: int| 0 <= i < n ==> self@[i] == slot_view(self.nodes@[i]));
                assert(forall|i: int| 0 <= i < n && i != c.index ==> self.nodes@[i] == slots[i]);
                assert(here[c.index as int] is Some);
                assert(self@[c.index as int] == Some(
                    WidgetView { parent: h, ..here[c.index as int]->0 },
                ));
                let prev = builder.children@.take(k as int);
                let next = builder.children@.take(k + 1);
                assert(next =~= prev.push(c));
                assert forall|i: int| 0 <= i < n implies #[trigger] self@[i] == match before[i] {
                    Some(old) => if next.contains(slot(i)) {
                        Some(WidgetView { parent: h, ..old })
                    } else {
                        Some(old)
                    },
                    None => None,
                } by {
                    assert(here[i] == match before[i] {
                        Some(old) => if prev.contains(slot(i)) {
                            Some(WidgetView { parent: h, ..old })
                        } else {
                            Some(old)
                        },
                        None => None,
                    });
                    if next.contains(slot(i)) {
                        let j = choose|j: int| 0 <= j < next.len() && next[j] == slot(i);
                        if j < k {
                            assert(prev[j] == slot(i));
                        } else {
                            assert(c == slot(i));
                        }
                    }
                    if prev.contains(slot(i)) {
                        let j = choose|j: int| 0 <= j < prev.len() && prev[j] == slot(i);
                        assert(next[j] == slot(i));
                    }
                    if c == slot(i) {
                        assert(next[k as int] == c);
                    }
                }
            }
            k += 1;
        }
        let node = Widget {
            handle: h,
            kind,
            parent: Handle { index: 0, generation: 1 },
            children: builder.children,
            enabled: builder.enabled,
            visibility: builder.visibility,
            row: builder.row,
            column: builder.column,
            checked: builder.checked,
            value: builder.value,
            min_value: builder.min_value,
            name: builder.name,
            text: builder.text,
            tooltip: builder.tooltip,
        };
        let ghost adopted = self@;
        self.nodes.push(Some(node));
        proof {
            assert(builder.children@.take(k as int) =~= builder.children@);
            assert(node@ == w);
            assert(forall|i: int| 0 <= i < n ==> adopted[i] == slot_view(self.nodes@[i]));
            assert(forall|i: int| 0 <= i <= n ==> self@[i] == slot_view(self.nodes@[i]));
            assert(self@.len() == n + 1);
            assert(grown(before, w).len() == n + 1);
            assert forall|i: int| 0 <= i <= n implies self@[i] == grown(before, w)[i] by {
                if i < n {
                    assert(self@[i] == adopted[i]);
                }
            }
            assert(self@ =~= grown(before, w));
            lemma_grown_wf(before, w);
            assert forall|x: Handle| alive(before, x) implies #[trigger] top(self@, x) == if w.children.contains(
                top(before, x),
            ) {
                h
            } else {
                top(before, x)
            } by {
                lemma_grown_top(before, w, x);
            }
            assert(!climbs(self@, h));
            let shape = grown(before, w).drop_last();
            assert(shape.len() == before.len());
            lemma_live_count_shape(shape, before);
            lemma_live_count_push(shape, Some(w));
            assert(shape.push(Some(w)) =~= self@);
            assert forall|x: Handle| alive(before, x) implies #[trigger] widget(self@, x) == if w.children.contains(
                x,
            ) {
                WidgetView { parent: h, ..widget(before, x) }
            } else {
                widget(before, x)
            } by {
                assert(slot(x.index as int) == x);
            }
        }
        h
    }

    /// Whether `node` sits somewhere below `ancestor`.
    pub fn is_node_child_of(&self, node: Handle, ancestor: Handle) -> (b: bool)
        requires
            self.wf(),
            self.alive(ancestor),
        ensures
            b == (node != ancestor && under(self@, ancestor, node)),
    {
        if node == ancestor || !self.is_valid_handle(node) {
            return false;
        }
        let mut cur = node;
        loop
            invariant
                self.wf(),
                self.alive(cur),
                cur != ancestor,
                node != ancestor,
                under(self@, ancestor, node) == under(self@, ancestor, cur),
            decreases self@.len() - cur.index,
        {
            proof {
                assert(node_wf(self@, cur.index as int));
                assert(node_wf(self@, 0));
            }
            let parent = self.node(cur).parent;
            proof {
                assert(parent == widget(self@, cur).parent);
                assert(cur.index == 0 <==> cur == root());
                assert(parent.index == 0 ==> parent == root() || parent == Handle::none_spec());
            }
            if parent == ancestor {
                return cur.index != 0;
            }
            if cur.index == 0 || parent.index == 0 {
                return false;
            }
            cur = parent;
        }
    }

    /// Takes `h` and everything under it out of the tree.
    pub fn remove_node(&mut self, h: Handle)
        requires
            old(self).wf(),
            old(self).alive(h),
            h != root(),
        ensures
            final(self).wf(),
            final(self)@ == pruned(old(self)@, h),
            forall|x: Handle|
                #[trigger] final(self).alive(x) == (old(self).alive(x) && !under(old(self)@, h, x)),
            forall|x: Handle|
                final(self).alive(x) && x != widget(old(self)@, h).parent ==> #[trigger] widget(
                    final(self)@,
                    x,
                ) == widget(old(self)@, x),
    {
        let n = self.nodes.len();
        let ghost before = self@;
        let parent = self.node(h).parent;
        // Which slots are under `h`, from the last slot down: a parent sits
        // above its children, so its mark is known when theirs is needed.
        let mut marks: Vec<bool> = vec![false; n];
        let mut i: usize = n - 1;
        while i > 0
            invariant
                0 <= i < n,
                n == self.nodes@.len(),
                marks@.len() == n,
                self@ == before,
                wf(before),
                alive(before, h),
                h != root(),
                forall|j: int|
                    i < j < n ==> #[trigger] marks@[j] == (before[j] is Some && under(
                        before,
                        h,
                        slot(j),
                    )),
            decreases i,
        {
            let mark = match &self.nodes[i] {
                Some(w) => {
                    proof {
                        assert(node_wf(before, i as int));
                        assert(slot(w.parent.index as int) == w.parent || w.parent == root());
                        assert(before[i as int] == Some(w@));
                    }
                    (i as u32 == h.index) || (w.parent.index != 0 && marks[w.parent.index as usize])
                },
                None => false,
            };
            marks.set(i, mark);
            i -= 1;
        }
        proof {
            assert(!under(before, h, slot(0))) by {
                assert(node_wf(before, 0));
            }
        }
        let mut i: usize = 1;
        while i < n
            invariant
                1 <= i <= n,
                n == self.nodes@.len(),
                marks@.len() == n,
                before.len() == n,
                forall|j: int|
                    0 < j < n ==> #[trigger] marks@[j] == (before[j] is Some && under(
                        before,
                        h,
                        slot(j),
                    )),
                forall|j: int| i <= j < n ==> #[trigger] self@[j] == before[j],
                self@[0] == before[0],
                forall|j: int|
                    0 < j < i ==> #[trigger] self@[j] == if marks@[j] {
                        None
                    } else {
                        before[j]
                    },
            decreases n - i,
        {
            let ghost here = self@;
            let ghost slots = self.nodes@;
            if marks[i] {
                self.nodes.set(i, None);
            }
            proof {
                assert forall|j: int| 0 <= j < n && j != i implies #[trigger] self@[j]
                    == here[j] by {
                    assert(here[j] == slot_view(slots[j]));
                    assert(self@[j] == slot_view(self.nodes@[j]));
                    assert(self.nodes@[j] == slots[j]);
                }
                assert(here[i as int] == slot_view(slots[i as int]));
                assert(self@[i as int] == slot_view(self.nodes@[i as int]));
            }
            i += 1;
        }
        let ghost cleared = self@;
        let ghost cleared_slots = self.nodes@;
        if parent.index != 0 {
            proof {
                assert(node_wf(before, h.index as int));
                assert(slot(parent.index as int) == parent);
                assert(!under(before, h, parent)) by {
                    if under(before, h, parent) {
                        lemma_under_below(before, h, parent);
                    }
                }
            }
            match &mut self.nodes[parent.index as usize] {
                Some(p) => {
                    let kept = filter_out(&p.children, h);
                    p.children = kept;
                },
                None => {},
            }
        }
        proof {
            assert(node_wf(before, h.index as int));
            assert(node_wf(before, 0));
            if parent.index == 0 {
                assert(parent == root());
                lemma_without(before[0]->0.children, h);
                assert(before[0]->0.children.len() == 0);
            }
            assert(self@.len() == n);
            assert forall|j: int| 0 <= j < n implies self@[j] == pruned(before, h)[j] by {
                assert(cleared[j] == slot_view(cleared_slots[j]));
                assert(self@[j] == slot_view(self.nodes@[j]));
                if j == 0 {
                    assert(!under(before, h, slot(0)));
                }
                if parent.index == 0 || j != parent.index {
                    assert(self.nodes@[j] == cleared_slots[j]);
                }
                if j > 0 {
                    assert(cleared[j] == if marks@[j] {
                        None
                    } else {
                        before[j]
                    });
                }
            }
            assert(self@ =~= pruned(before, h));
            lemma_pruned_wf(before, h);
            assert forall|x: Handle| #[trigger]
                alive(self@, x) == (alive(before, x) && !under(before, h, x)) by {
                if x.generation == 1 && (x.index as int) < n {
                    assert(slot(x.index as int) == x);
                }
            }
            assert forall|x: Handle| alive(self@, x) && x != parent implies #[trigger] widget(
                self@,
                x,
            ) == widget(before, x) by {
                assert(slot(x.index as int) == x);
            }
        }
    }
}

/// Puts a new widget of the given kind into the tree, as
/// [`BuildContext::add_node`] does, and says what that does in the words in
/// which a longer construction is followed step by step.
pub fn spawn(ctx: &mut BuildContext, kind: WidgetKind, builder: WidgetBuilder) -> (h: Handle)
    requires
        sound(old(ctx)@),
        old(ctx).has_room(1),
        forall|c: Handle| #[trigger] builder.adopts(c) ==> loose(old(ctx)@, c),
    ensures
        sound(final(ctx)@),
        final(ctx)@.len() == old(ctx)@.len() + 1,
        h == slot(old(ctx)@.len() as int),
        h.is_some(),
        info(old(ctx)@, h) is None,
        !loose(old(ctx)@, h),
        forall|x: Handle|
            #[trigger] loose(final(ctx)@, x) == (x == h || (loose(old(ctx)@, x) && !builder.adopts(
                x,
            ))),
        forall|x: Handle|
            #[trigger] info(final(ctx)@, x) == if x == h {
                Some(builder.info(kind))
            } else {
                info(old(ctx)@, x)
            },
        forall|x: Handle|
            #[trigger] holder(final(ctx)@, x) == if x == h {
                root()
            } else if builder.adopts(x) {
                h
            } else {
                holder(old(ctx)@, x)
            },
        forall|b: Nodes|
            #[trigger] kept(b, old(ctx)@) && (forall|c: Handle|
                #[trigger] builder.adopts(c) ==> c.index >= b.len()) ==> kept(b, final(ctx)@),
{
    proof {
        reveal(sound);
        reveal(loose);
        reveal(info);
        reveal(holder);
        reveal(kept);
        assert forall|k: int| 0 <= k < builder.children@.len() implies attachable(
            ctx@,
            #[trigger] builder.children@[k],
        ) by {
            assert(builder.adopts(builder.children@[k]));
        }
    }
    let ghost before = ctx@;
    let ghost kids = builder.children@;
    let ghost described = builder.describes(slot(before.len() as int), kind);
    let ghost wanted = builder.info(kind);
    let ghost given = builder;
    let h = ctx.add_node(kind, builder);
    proof {
        let after = ctx@;
        assert(described.info() == wanted);
        assert forall|x: Handle|
            #[trigger] loose(after, x) == (x == h || (loose(before, x) && !kids.contains(x))) by {
            if alive(before, x) {
                assert(alive(after, x));
                assert(widget(after, x) == if kids.contains(x) {
                    WidgetView { parent: h, ..widget(before, x) }
                } else {
                    widget(before, x)
                });
            }
        }
        assert forall|x: Handle| #[trigger] info(after, x) == if x == h {
            Some(wanted)
        } else {
            info(before, x)
        } by {
            if alive(before, x) {
                assert(alive(after, x));
                assert(widget(after, x) == if kids.contains(x) {
                    WidgetView { parent: h, ..widget(before, x) }
                } else {
                    widget(before, x)
                });
            } else {
                assert(alive(after, x) == (x == h));
            }
        }
        assert forall|x: Handle| #[trigger] holder(after, x) == if x == h {
            root()
        } else if kids.contains(x) {
            h
        } else {
            holder(before, x)
        } by {
            if alive(before, x) {
                assert(alive(after, x));
                assert(widget(after, x) == if kids.contains(x) {
                    WidgetView { parent: h, ..widget(before, x) }
                } else {
                    widget(before, x)
                });
            } else {
                assert(alive(after, x) == (x == h));
                if kids.contains(x) {
                    let k = choose|k: int| 0 <= k < kids.len() && kids[k] == x;
                    assert(attachable(before, kids[k]));
                }
            }
        }
        assert forall|b: Nodes|
            #[trigger] kept(b, before) && (forall|c: Handle|
                #[trigger] given.adopts(c) ==> c.index >= b.len()) implies kept(b, after) by {
            assert forall|i: int| 0 <= i < b.len() implies after[i] == b[i] by {
                assert(before[i] == b[i]);
                if kids.contains(slot(i)) {
                    assert(given.adopts(slot(i)));
                    assert(slot(i).index >= b.len());
                }
            }
        }
    }
    h
}

/// The flag of a message that only brings a widget in line with what it
/// shows, and calls for no answer.
pub const MSG_SYNC_FLAG: u64 = 1;

/// Sends a message with the flag of [`MSG_SYNC_FLAG`].
pub fn send_sync_message(ui: &mut UserInterface, message: UiMessage)
    ensures
        final(ui).tree() == old(ui).tree(),
        final(ui).sent() == old(ui).sent().push(message@.flagged(MSG_SYNC_FLAG)),
{
    ui.send_message(message.with_flags(MSG_SYNC_FLAG));
}

/// The widget tree together with the messages that wait for delivery.
pub struct UserInterface {
    ctx: BuildContext,
    queue: Vec<UiMessage>,
}

impl UserInterface {
    /// The widget tree.
    pub closed spec fn tree(&self) -> Nodes {
        self.ctx@
    }

    /// The messages that wait, oldest first.
    pub closed spec fn sent(&self) -> Seq<UiMessageView> {
        self.queue@.map_values(|m: UiMessage| m@)
    }

    /// The rules of the tree hold.
    pub open spec fn wf(&self) -> bool {
        wf(self.tree())
    }

    /// Whether `h` names a widget of the tree.
    pub open spec fn alive(&self, h: Handle) -> bool {
        alive(self.tree(), h)
    }

    /// A user interface with only the root widget and no message waiting.
    pub fn new() -> (ui: UserInterface)
        ensures
            ui.wf(),
            sound(ui.tree()),
            ui.tree() == initial(),
            ui.sent() == Seq::<UiMessageView>::empty(),
    {
        let ui = UserInterface { ctx: BuildContext::new(), queue: Vec::new() };
        proof {
            assert(ui.sent() =~= Seq::<UiMessageView>::empty());
        }
        ui
    }

    /// The tree, for building widgets into it.
    pub fn build_ctx(&mut self) -> (ctx: &mut BuildContext)
        ensures
            ctx@ == old(self).tree(),
            final(self).tree() == final(ctx)@,
            final(self).sent() == old(self).sent(),
    {
        &mut self.ctx
    }

    /// The tree, for reading.
    pub fn nodes(&self) -> (ctx: &BuildContext)
        ensures
            ctx@ == self.tree(),
    {
        &self.ctx
    }

    /// Puts a message at the end of the queue.
    pub fn send_message(&mut self, message: UiMessage)
        ensures
            final(self).sent() == old(self).sent().push(message@),
            final(self).tree() == old(self).tree(),
    {
        self.queue.push(message);
        proof {
            assert(self.sent() =~= old(self).sent().push(message@));
        }
    }

    /// Takes the oldest waiting message off the queue.
    pub fn poll_message(&mut self) -> (m: Option<UiMessage>)
        ensures
            final(self).tree() == old(self).tree(),
            old(self).sent().len() == 0 ==> m is None && final(self).sent() == old(self).sent(),
            old(self).sent().len() > 0 ==> (m matches Some(first) && first@ == old(self).sent()[0])
                && final(self).sent() == old(self).sent().subrange(
                1,
                old(self).sent().len() as int,
            ),
    {
        if self.queue.len() == 0 {
            None
        } else {
            let first = self.queue.remove(0);
            proof {
                assert(self.sent() =~= old(self).sent().subrange(
                    1,
                    old(self).sent().len() as int,
                ));
            }
            Some(first)
        }
    }

    /// The widget that `h` names.
    pub fn node(&self, h: Handle) -> (w: &Widget)
        requires
            self.alive(h),
        ensures
            w@ == widget(self.tree(), h),
    {
        self.ctx.node(h)
    }

    /// The widget that `h` names, if it names one.
    pub fn try_get(&self, h: Handle) -> (r: Option<&Widget>)
        ensures
            self.alive(h) ==> (r matches Some(w) && w@ == widget(self.tree(), h)),
            !self.alive(h) ==> r is None,
    {
        self.ctx.try_get(h)
    }

    /// Whether `node` sits somewhere below `ancestor`.
    pub fn is_node_child_of(&self, node: Handle, ancestor: Handle) -> (b: bool)
        requires
            self.wf(),
            self.alive(ancestor),
        ensures
            b == (node != ancestor && under(self.tree(), ancestor, node)),
    {
        self.ctx.is_node_child_of(node, ancestor)
    }

    /// Takes `h` and everything under it out of the tree.
    pub fn remove_node(&mut self, h: Handle)
        requires
            old(self).wf(),
            old(self).alive(h),
            h != root(),
        ensures
            final(self).wf(),
            final(self).tree() == pruned(old(self).tree(), h),
            final(self).sent() == old(self).sent(),
            forall|x: Handle|
                #[trigger] final(self).alive(x) == (old(self).alive(x) && !under(
                    old(self).tree(),
                    h,
                    x,
                )),
    {
        self.ctx.remove_node(h);
    }

    /// The number of widgets in the tree, the root among them.
    pub fn alive_count(&self) -> (n: usize)
        ensures
            n == live_count(self.tree()),
    {
        self.ctx.alive_count()
    }

    /// How many more widgets the tree can take.
    pub fn room_left(&self) -> (n: usize)
        requires
            self.wf(),
        ensures
            n == u32::MAX - self.tree().len(),
    {
        self.ctx.room_left()
    }
}

} // verus!
