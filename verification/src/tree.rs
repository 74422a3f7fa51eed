//! The widget tree as a mathematical object: a sequence of slots, each empty
//! or holding a widget, with the rules that make it a forest below one root.
//!
//! Slots are never reused, and a widget enters the tree after its children.
//! So a child sits in a lower slot than its parent, the root excepted, which
//! sits in slot zero and is the parent of every widget that has no other.

use crate::handle::Handle;
use crate::widget::{WidgetInfo, WidgetKind, WidgetView};
use vstd::prelude::*;

verus! {

/// The slots of a tree.
pub type Nodes = Seq<Option<WidgetView>>;

/// The handle of the widget in slot `i`.
pub open spec fn slot(i: int) -> Handle {
    Handle { index: i as u32, generation: 1 }
}

/// The handle of the root.
pub open spec fn root() -> Handle {
    Handle { index: 0, generation: 1 }
}

/// Whether `h` names a widget of the tree.
pub open spec fn alive(s: Nodes, h: Handle) -> bool {
    h.generation == 1 && (h.index as int) < s.len() && s[h.index as int] is Some
}

/// The widget that `h` names.
pub open spec fn widget(s: Nodes, h: Handle) -> WidgetView
    recommends
        alive(s, h),
{
    s[h.index as int]->0
}

/// Whether `x` has a parent other than the root.
pub open spec fn climbs(s: Nodes, x: Handle) -> bool {
    &&& alive(s, x)
    &&& x != root()
    &&& widget(s, x).parent != root()
    &&& alive(s, widget(s, x).parent)
    &&& widget(s, x).parent.index > x.index
}

/// The ancestor of `x`, or `x` itself, whose parent is the root.
pub open spec fn top(s: Nodes, x: Handle) -> Handle
    decreases s.len() - x.index,
{
    if climbs(s, x) {
        top(s, widget(s, x).parent)
    } else {
        x
    }
}

/// Whether `x` is `a` or a descendant of `a`.
pub open spec fn under(s: Nodes, a: Handle, x: Handle) -> bool
    decreases s.len() - x.index,
{
    x == a || (alive(s, x) && x != root() && (widget(s, x).parent == a || (climbs(s, x) && under(
        s,
        a,
        widget(s, x).parent,
    ))))
}

/// The number of widgets in the tree.
pub open spec fn live_count(s: Nodes) -> nat
    decreases s.len(),
{
    if s.len() == 0 {
        0
    } else {
        live_count(s.drop_last()) + if s.last() is Some {
            1nat
        } else {
            0nat
        }
    }
}

/// Whether `c` can be listed as a child of the widget in slot `i`.
pub open spec fn child_ok(s: Nodes, i: int, c: Handle) -> bool {
    &&& c.generation == 1
    &&& 0 < c.index < i
    &&& s[c.index as int] matches Some(w) && w.parent == slot(i)
}

/// The rules for slot `i`.
pub open spec fn node_wf(s: Nodes, i: int) -> bool {
    s[i] matches Some(w) ==> {
        &&& w.handle == slot(i)
        &&& if i == 0 {
            w.parent == Handle::none_spec() && w.kind == WidgetKind::Canvas
        } else {
            w.parent == root() || (w.parent.generation == 1 && i < w.parent.index < s.len()
                && s[w.parent.index as int] is Some)
        }
        &&& forall|k: int| 0 <= k < w.children.len() ==> child_ok(s, i, #[trigger] w.children[k])
    }
}

/// The rules for the whole tree: a root in slot zero, slots that a `u32`
/// can count, and every slot in order.
pub open spec fn wf(s: Nodes) -> bool {
    &&& 1 <= s.len() <= u32::MAX
    &&& s[0] is Some
    &&& forall|i: int| 0 <= i < s.len() ==> #[trigger] node_wf(s, i)
}

/// Whether `c` is a widget that has no parent but the root, and so can be
/// given one.
pub open spec fn attachable(s: Nodes, c: Handle) -> bool {
    alive(s, c) && c != root() && widget(s, c).parent == root()
}

/// The tree of one root and nothing else.
pub open spec fn initial() -> Nodes {
    seq![
        Some(
            WidgetView {
                handle: root(),
                kind: WidgetKind::Canvas,
                parent: Handle::none_spec(),
                children: Seq::<Handle>::empty(),
                enabled: true,
                visibility: true,
                row: 0,
                column: 0,
                checked: None,
                value: None,
                min_value: None,
                name: Seq::<char>::empty(),
                text: Seq::<char>::empty(),
                tooltip: Seq::<char>::empty(),
            },
        ),
    ]
}

/// `s` after the widget `w` has entered it: `w` sits in a new last slot and
/// each child it lists now names it as parent.
pub open spec fn grown(s: Nodes, w: WidgetView) -> Nodes {
    Seq::new(
        s.len(),
        |i: int|
            match s[i] {
                Some(old) => if w.children.contains(slot(i)) {
                    Some(WidgetView { parent: w.handle, ..old })
                } else {
                    Some(old)
                },
                None => None,
            },
    ).push(Some(w))
}

/// The handles of `s` in their order, but for `h`.
pub open spec fn without(s: Seq<Handle>, h: Handle) -> Seq<Handle>
    decreases s.len(),
{
    if s.len() == 0 {
        Seq::<Handle>::empty()
    } else if s.last() != h {
        without(s.drop_last(), h).push(s.last())
    } else {
        without(s.drop_last(), h)
    }
}

/// What is left after taking `h` out was there before, and is not `h`.
pub proof fn lemma_without(s: Seq<Handle>, h: Handle)
    ensures
        forall|k: int|
            0 <= k < without(s, h).len() ==> (#[trigger] without(s, h)[k]) != h && s.contains(
                without(s, h)[k],
            ),
        forall|k: int| 0 <= k < s.len() && s[k] != h ==> without(s, h).contains(#[trigger] s[k]),
        !s.contains(h) ==> without(s, h) == s,
    decreases s.len(),
{
    if s.len() > 0 {
        let r = s.drop_last();
        lemma_without(r, h);
        assert forall|k: int| 0 <= k < without(s, h).len() implies (#[trigger] without(s, h)[k])
            != h && s.contains(without(s, h)[k]) by {
            if k < without(r, h).len() {
                let c = without(r, h)[k];
                let j = choose|j: int| 0 <= j < r.len() && r[j] == c;
                assert(s[j] == c);
            } else {
                assert(s[s.len() - 1] == s.last());
            }
        }
        assert forall|k: int| 0 <= k < s.len() && s[k] != h implies without(s, h).contains(
            #[trigger] s[k],
        ) by {
            if k < r.len() {
                assert(r[k] == s[k]);
                let j = choose|j: int| 0 <= j < without(r, h).len() && without(r, h)[j] == r[k];
                assert(without(s, h)[j] == s[k]);
            } else {
                assert(without(s, h)[without(r, h).len() as int] == s[k]);
            }
        }
        if !s.contains(h) {
            assert(s[s.len() - 1] != h);
            assert forall|k: int| 0 <= k < r.len() implies r[k] != h by {
                assert(s[k] == r[k]);
            }
            assert(without(s, h) =~= s);
        }
    } else {
        assert(without(s, h) =~= s);
    }
}

/// `s` after `h` and everything under it has left: their slots are empty,
/// and the parent of `h` no longer lists it.
pub open spec fn pruned(s: Nodes, h: Handle) -> Nodes {
    Seq::new(
        s.len(),
        |i: int|
            match s[i] {
                Some(old) => if under(s, h, slot(i)) {
                    None
                } else if slot(i) == widget(s, h).parent {
                    Some(WidgetView { children: without(old.children, h), ..old })
                } else {
                    Some(old)
                },
                None => None,
            },
    )
}

/// What building one widget, with all that belongs to it, does to a tree:
/// `after` is `before` with new widgets, all of them under the new widget
/// `h`, which sits below the root; the widgets in `adopted` have become
/// children of `h`, and nothing else of `before` has changed.
pub open spec fn built(before: Nodes, after: Nodes, h: Handle, adopted: Seq<Handle>) -> bool {
    &&& wf(after)
    &&& attachable(after, h)
    &&& !alive(before, h)
    &&& forall|x: Handle| alive(before, x) ==> #[trigger] alive(after, x)
    &&& forall|x: Handle|
        alive(before, x) ==> #[trigger] widget(after, x) == if adopted.contains(x) {
            WidgetView { parent: h, ..widget(before, x) }
        } else {
            widget(before, x)
        }
    &&& forall|x: Handle|
        alive(before, x) ==> #[trigger] top(after, x) == if adopted.contains(top(before, x)) {
            h
        } else {
            top(before, x)
        }
    &&& forall|x: Handle| alive(after, x) && !alive(before, x) ==> #[trigger] top(after, x) == h
}

/// The rules of the tree hold. The same as [`wf`], but taken as a whole:
/// a proof that needs the rules one by one reveals it.
#[verifier::opaque]
pub open spec fn sound(s: Nodes) -> bool {
    wf(s)
}

/// What the widget `h` is and holds, if `h` names a widget.
#[verifier::opaque]
pub open spec fn info(s: Nodes, h: Handle) -> Option<WidgetInfo> {
    if alive(s, h) {
        Some(widget(s, h).info())
    } else {
        None
    }
}

/// The parent of the widget `h`; the handle that names nothing if `h` names
/// no widget.
#[verifier::opaque]
pub open spec fn holder(s: Nodes, h: Handle) -> Handle {
    if alive(s, h) {
        widget(s, h).parent
    } else {
        Handle::none_spec()
    }
}

/// Whether `h` is a widget that has no parent but the root. The same as
/// [`attachable`], taken as a whole.
#[verifier::opaque]
pub open spec fn loose(s: Nodes, h: Handle) -> bool {
    attachable(s, h)
}

/// Whether the slots of `before` are the first slots of `after`, unchanged.
#[verifier::opaque]
pub open spec fn kept(before: Nodes, after: Nodes) -> bool {
    &&& before.len() <= after.len()
    &&& forall|i: int| 0 <= i < before.len() ==> after[i] == before[i]
}

/// What building one widget does to a tree, in the words in which a longer
/// construction is followed step by step: `h` is new and loose, no other
/// widget has become loose or ceased to be, and the widgets of `old` are
/// what and where they were.
pub open spec fn made(old: Nodes, new: Nodes, h: Handle) -> bool {
    &&& sound(new)
    &&& old.len() <= new.len()
    &&& h.generation == 1
    &&& old.len() <= h.index < new.len()
    &&& info(old, h) is None
    &&& !loose(old, h)
    &&& info(new, h) is Some
    &&& forall|x: Handle| #[trigger] loose(new, x) == (x == h || loose(old, x))
    &&& forall|x: Handle| info(old, x) is Some ==> #[trigger] info(new, x) == info(old, x)
    &&& forall|x: Handle| info(old, x) is Some ==> #[trigger] holder(new, x) == holder(old, x)
    &&& forall|b: Nodes| #[trigger] kept(b, old) ==> kept(b, new)
}

/// Handles in different slots are different handles.
pub proof fn lemma_apart(s: Seq<Handle>)
    requires
        forall|i: int, j: int|
            0 <= i < j < s.len() ==> (#[trigger] s[i]).index != (#[trigger] s[j]).index,
    ensures
        s.no_duplicates(),
{
    assert forall|i: int, j: int| 0 <= i < s.len() && 0 <= j < s.len() && i != j implies s[i]
        != s[j] by {
        if i < j {
            assert(s[i].index != s[j].index);
        } else {
            assert(s[j].index != s[i].index);
        }
    }
}

/// Whether the handles of `s` name slots from `low` up to, not including,
/// `high`.
pub open spec fn within(s: Seq<Handle>, low: int, high: int) -> bool {
    forall|k: int| 0 <= k < s.len() ==> low <= (#[trigger] s[k]).index < high
}

/// Different handles in lower slots, followed by different handles in
/// higher slots, are different handles.
pub proof fn lemma_apart_joined(a: Seq<Handle>, b: Seq<Handle>, low: int, cut: int, high: int)
    requires
        low <= cut <= high,
        a.no_duplicates(),
        b.no_duplicates(),
        within(a, low, cut),
        within(b, cut, high),
    ensures
        (a + b).no_duplicates(),
        within(a + b, low, high),
{
    let s = a + b;
    assert forall|i: int, j: int| 0 <= i < s.len() && 0 <= j < s.len() && i != j implies s[i]
        != s[j] by {
        if i < a.len() && j < a.len() {
            assert(s[i] == a[i] && s[j] == a[j]);
        } else if i >= a.len() && j >= a.len() {
            assert(s[i] == b[i - a.len()] && s[j] == b[j - a.len()]);
        } else if i < a.len() {
            assert(s[i] == a[i] && s[j] == b[j - a.len()]);
        } else {
            assert(s[j] == a[j] && s[i] == b[i - a.len()]);
        }
    }
    assert forall|k: int| 0 <= k < s.len() implies low <= (#[trigger] s[k]).index < high by {
        if k < a.len() {
            assert(s[k] == a[k]);
        } else {
            assert(s[k] == b[k - a.len()]);
        }
    }
}

/// What the words of a construction mean.
pub proof fn lemma_words(s: Nodes, h: Handle)
    ensures
        sound(s) == wf(s),
        loose(s, h) == attachable(s, h),
        info(s, h) == if alive(s, h) {
            Some(widget(s, h).info())
        } else {
            None
        },
        holder(s, h) == if alive(s, h) {
            widget(s, h).parent
        } else {
            Handle::none_spec()
        },
        kept(s, s),
{
    reveal(sound);
    reveal(loose);
    reveal(info);
    reveal(holder);
    reveal(kept);
}

/// Where the first slots are unchanged, the widgets in them have the tops
/// they had.
pub proof fn lemma_kept_top(before: Nodes, after: Nodes, x: Handle)
    requires
        wf(before),
        wf(after),
        kept(before, after),
        alive(before, x),
    ensures
        alive(after, x),
        widget(after, x) == widget(before, x),
        top(after, x) == top(before, x),
    decreases before.len() - x.index,
{
    reveal(kept);
    assert(node_wf(before, x.index as int));
    if climbs(before, x) {
        let p = widget(before, x).parent;
        lemma_kept_top(before, after, p);
        assert(climbs(after, x));
    } else {
        assert(x == root() || widget(before, x).parent == root());
        assert(!climbs(after, x));
    }
}

/// The end of a construction: where the tree has grown and the one new
/// widget that is loose is `h`, one widget has been built, and it is `h`.
pub proof fn lemma_dialog(before: Nodes, after: Nodes, h: Handle)
    requires
        sound(before),
        sound(after),
        kept(before, after),
        loose(after, h),
        info(before, h) is None,
        forall|x: Handle| loose(after, x) ==> x == h || loose(before, x),
    ensures
        built(before, after, h, Seq::<Handle>::empty()),
        made(before, after, h),
{
    reveal(sound);
    reveal(loose);
    reveal(info);
    reveal(holder);
    reveal(kept);
    lemma_tops_alive(after);
    assert forall|b: Nodes| #[trigger] kept(b, before) implies kept(b, after) by {
        assert forall|i: int| 0 <= i < b.len() implies after[i] == b[i] by {
            assert(before[i] == b[i]);
        }
    }
    assert forall|x: Handle| #[trigger] loose(after, x) == (x == h || loose(before, x)) by {
        if loose(before, x) {
            assert(after[x.index as int] == before[x.index as int]);
        }
    }
    assert forall|x: Handle| info(before, x) is Some implies #[trigger] info(after, x) == info(
        before,
        x,
    ) && #[trigger] holder(after, x) == holder(before, x) by {
        assert(after[x.index as int] == before[x.index as int]);
    }
    assert forall|x: Handle| alive(before, x) implies #[trigger] alive(after, x) && widget(
        after,
        x,
    ) == widget(before, x) && top(after, x) == top(before, x) by {
        lemma_kept_top(before, after, x);
    }
    assert forall|x: Handle| alive(after, x) && !alive(before, x) implies #[trigger] top(
        after,
        x,
    ) == h by {
        let t = top(after, x);
        assert(node_wf(before, 0));
        assert(x != root());
        assert(attachable(after, t));
        assert(loose(after, t));
        if t != h {
            assert(loose(before, t));
            lemma_top_over(after, x);
            lemma_under_below(after, t, x);
            assert(x.index < before.len());
            assert(after[x.index as int] == before[x.index as int]);
        }
    }
}

/// The top of a widget is a widget, and sits below the root unless it is
/// the root.
pub proof fn lemma_tops_alive(s: Nodes)
    requires
        wf(s),
    ensures
        forall|x: Handle| alive(s, x) ==> alive(s, #[trigger] top(s, x)),
        forall|x: Handle| alive(s, x) && x != root() ==> attachable(s, #[trigger] top(s, x)),
{
    assert forall|x: Handle| alive(s, x) implies alive(s, #[trigger] top(s, x)) && (x != root()
        ==> attachable(s, top(s, x))) by {
        lemma_top_over(s, x);
    }
}

/// Removing a widget takes out what was built with it. If `built` came
/// from `before` by building `h` without adopting anything, then `built`
/// without `h` holds the widgets of `before` and no others.
pub proof fn lemma_prune_undoes_build(before: Nodes, after: Nodes, h: Handle)
    requires
        wf(before),
        built(before, after, h, Seq::<Handle>::empty()),
    ensures
        wf(pruned(after, h)),
        forall|x: Handle| alive(pruned(after, h), x) == alive(before, x),
        live_count(pruned(after, h)) == live_count(before),
{
    let p = pruned(after, h);
    lemma_pruned_wf(after, h);
    lemma_tops_alive(before);
    assert(!climbs(after, h));
    assert forall|x: Handle| alive(p, x) == alive(before, x) by {
        if x.generation == 1 && (x.index as int) < after.len() {
            assert(slot(x.index as int) == x);
        }
        assert(alive(p, x) == (alive(after, x) && !under(after, h, x)));
        if alive(before, x) {
            assert(alive(after, x));
            if under(after, h, x) {
                lemma_under_top(after, h, x);
                assert(top(after, x) == top(before, x));
                assert(alive(before, top(before, x)));
            }
        } else if alive(after, x) {
            assert(top(after, x) == h);
            lemma_top_over(after, x);
        }
    }
    lemma_live_count_same_alive(p, before);
}

/// The count depends on which slots are filled, not on what fills them.
pub proof fn lemma_live_count_shape(a: Nodes, b: Nodes)
    requires
        a.len() == b.len(),
        forall|i: int| 0 <= i < a.len() ==> (a[i] is Some) == (b[i] is Some),
    ensures
        live_count(a) == live_count(b),
    decreases a.len(),
{
    if a.len() > 0 {
        lemma_live_count_shape(a.drop_last(), b.drop_last());
    }
}

/// An empty slot at the end counts for nothing, a filled one for one.
pub proof fn lemma_live_count_push(s: Nodes, e: Option<WidgetView>)
    ensures
        live_count(s.push(e)) == live_count(s) + if e is Some {
            1nat
        } else {
            0nat
        },
{
    assert(s.push(e).drop_last() =~= s);
}

/// Two trees with the same widgets alive hold the same number of them,
/// whatever the number of their slots.
pub proof fn lemma_live_count_same_alive(a: Nodes, b: Nodes)
    requires
        a.len() <= u32::MAX,
        b.len() <= u32::MAX,
        forall|h: Handle| alive(a, h) == alive(b, h),
    ensures
        live_count(a) == live_count(b),
    decreases a.len() + b.len(),
{
    if a.len() == 0 && b.len() == 0 {
    } else if a.len() >= b.len() {
        let i = a.len() - 1;
        assert(alive(a, slot(i)) == alive(b, slot(i)));
        if a.len() > b.len() {
            assert(a.last() is None);
            assert forall|h: Handle| alive(a.drop_last(), h) == alive(b, h) by {
                assert(alive(a, h) == alive(b, h));
            }
            lemma_live_count_same_alive(a.drop_last(), b);
        } else {
            assert forall|h: Handle| alive(a.drop_last(), h) == alive(b.drop_last(), h) by {
                assert(alive(a, h) == alive(b, h));
            }
            lemma_live_count_same_alive(a.drop_last(), b.drop_last());
        }
    } else {
        let i = b.len() - 1;
        assert(alive(a, slot(i)) == alive(b, slot(i)));
        assert(b.last() is None);
        assert forall|h: Handle| alive(a, h) == alive(b.drop_last(), h) by {
            assert(alive(a, h) == alive(b, h));
        }
        lemma_live_count_same_alive(a, b.drop_last());
    }
}

/// A descendant sits in a lower slot than its ancestor, unless the ancestor
/// is the root.
pub proof fn lemma_under_below(s: Nodes, a: Handle, x: Handle)
    requires
        wf(s),
        alive(s, a),
        a != root(),
        under(s, a, x),
    ensures
        x.index <= a.index,
        x == a || alive(s, x),
    decreases s.len() - x.index,
{
    if x != a {
        let p = widget(s, x).parent;
        assert(node_wf(s, x.index as int));
        if p != a {
            lemma_under_below(s, a, p);
        }
    }
}

/// What is under `a` has the same top as `a`.
pub proof fn lemma_under_top(s: Nodes, a: Handle, x: Handle)
    requires
        wf(s),
        alive(s, a),
        a != root(),
        under(s, a, x),
    ensures
        top(s, x) == top(s, a),
    decreases s.len() - x.index,
{
    if x != a {
        let p = widget(s, x).parent;
        assert(node_wf(s, x.index as int));
        assert(node_wf(s, a.index as int));
        if p != a {
            lemma_under_top(s, a, p);
        }
    }
}

/// A widget is under its top.
pub proof fn lemma_top_over(s: Nodes, x: Handle)
    requires
        wf(s),
    ensures
        under(s, top(s, x), x),
        alive(s, x) ==> alive(s, top(s, x)),
        alive(s, x) && x != root() ==> attachable(s, top(s, x)),
    decreases s.len() - x.index,
{
    if climbs(s, x) {
        let p = widget(s, x).parent;
        lemma_top_over(s, p);
        lemma_under_step(s, top(s, p), x);
    } else if alive(s, x) && x != root() {
        assert(node_wf(s, x.index as int));
    }
}

/// What is under `a` stays under `a` one step further down.
pub proof fn lemma_under_step(s: Nodes, a: Handle, x: Handle)
    requires
        climbs(s, x),
        under(s, a, widget(s, x).parent),
    ensures
        under(s, a, x),
{
}

/// Growing a well-formed tree by a widget whose children are attachable
/// gives a well-formed tree.
pub proof fn lemma_grown_wf(s: Nodes, w: WidgetView)
    requires
        wf(s),
        s.len() < u32::MAX,
        w.handle == slot(s.len() as int),
        w.parent == root(),
        forall|k: int| 0 <= k < w.children.len() ==> attachable(s, #[trigger] w.children[k]),
    ensures
        wf(grown(s, w)),
{
    let g = grown(s, w);
    let n = s.len() as int;
    assert forall|i: int| 0 <= i < g.len() implies #[trigger] node_wf(g, i) by {
        if i < n {
            assert(node_wf(s, i));
            if let Some(old) = s[i] {
                let new = g[i]->0;
                if w.children.contains(slot(i)) {
                    let k = choose|k: int| 0 <= k < w.children.len() && w.children[k] == slot(i);
                    assert(attachable(s, w.children[k]));
                }
                assert forall|k: int| 0 <= k < new.children.len() implies child_ok(
                    g,
                    i,
                    #[trigger] new.children[k],
                ) by {
                    let c = old.children[k];
                    assert(child_ok(s, i, c));
                    if w.children.contains(slot(c.index as int)) {
                        let j = choose|j: int|
                            0 <= j < w.children.len() && w.children[j] == slot(c.index as int);
                        assert(attachable(s, w.children[j]));
                        assert(slot(c.index as int) == c);
                    }
                }
            }
        } else {
            assert forall|k: int| 0 <= k < w.children.len() implies child_ok(
                g,
                i,
                #[trigger] w.children[k],
            ) by {
                let c = w.children[k];
                assert(attachable(s, c));
                assert(slot(c.index as int) == c);
                assert(w.children.contains(c));
            }
        }
    }
}

/// How growing moves the tops: a widget whose top is adopted gets the new
/// widget as its top, and every other widget keeps its top.
pub proof fn lemma_grown_top(s: Nodes, w: WidgetView, x: Handle)
    requires
        wf(s),
        s.len() < u32::MAX,
        w.handle == slot(s.len() as int),
        w.parent == root(),
        forall|k: int| 0 <= k < w.children.len() ==> attachable(s, #[trigger] w.children[k]),
        alive(s, x),
    ensures
        top(grown(s, w), x) == if w.children.contains(top(s, x)) {
            w.handle
        } else {
            top(s, x)
        },
    decreases s.len() - x.index,
{
    let g = grown(s, w);
    assert(node_wf(s, x.index as int));
    assert(slot(x.index as int) == x);
    if w.children.contains(x) {
        let k = choose|k: int| 0 <= k < w.children.len() && w.children[k] == x;
        assert(attachable(s, w.children[k]));
    }
    assert(alive(g, x));
    if climbs(s, x) {
        let p = widget(s, x).parent;
        assert(!w.children.contains(x));
        assert(widget(g, x) == widget(s, x));
        assert(alive(g, p));
        assert(climbs(g, x));
        lemma_grown_top(s, w, p);
        assert(top(g, x) == top(g, p));
        assert(top(s, x) == top(s, p));
    } else if w.children.contains(x) {
        assert(widget(g, x).parent == w.handle);
        assert(alive(g, w.handle));
        assert(climbs(g, x));
        assert(widget(g, w.handle) == w);
        assert(!climbs(g, w.handle));
        assert(top(g, x) == top(g, w.handle));
        assert(top(s, x) == x);
    } else {
        assert(widget(g, x) == widget(s, x));
        assert(x == root() || widget(s, x).parent == root());
        assert(!climbs(g, x));
        assert(top(s, x) == x);
    }
}

/// Pruning a well-formed tree at a widget other than the root gives a
/// well-formed tree.
pub proof fn lemma_pruned_wf(s: Nodes, h: Handle)
    requires
        wf(s),
        alive(s, h),
        h != root(),
    ensures
        wf(pruned(s, h)),
{
    let p = pruned(s, h);
    assert(node_wf(s, 0));
    assert(!under(s, h, slot(0)));
    assert forall|i: int| 0 <= i < p.len() implies #[trigger] node_wf(p, i) by {
        assert(node_wf(s, i));
        if let Some(new) = p[i] {
            let old = s[i]->0;
            assert(!under(s, h, slot(i)));
            if i > 0 && old.parent != root() {
                assert(slot(old.parent.index as int) == old.parent);
                assert(climbs(s, slot(i)));
                assert(!under(s, h, old.parent));
            }
            assert forall|k: int| 0 <= k < new.children.len() implies child_ok(
                p,
                i,
                #[trigger] new.children[k],
            ) by {
                let c = new.children[k];
                if slot(i) == widget(s, h).parent {
                    lemma_without(old.children, h);
                    assert(old.children.contains(c) && c != h);
                } else {
                    assert(old.children[k] == c);
                }
                let j = choose|j: int| 0 <= j < old.children.len() && old.children[j] == c;
                assert(child_ok(s, i, old.children[j]));
                assert(slot(c.index as int) == c);
                assert(widget(s, c).parent == slot(i));
                if c == h {
                    assert(slot(i) == widget(s, h).parent);
                }
                assert(!under(s, h, c));
            }
        }
    }
}

} // verus!
