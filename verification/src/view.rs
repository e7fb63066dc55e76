//! The view tree the UI layer hands around: every view has a rectangle,
//! an optional identity, a kind, and child views. This module holds the
//! tree manipulations the rest of the application relies on: shifting a
//! subtree, locating children by kind or identity, the bounding rectangle
//! of a subtree, and moving notifications between trees.

use vstd::prelude::*;
use crate::geom::{Point, Rectangle};

verus! {

/// The identity a view can carry, for lookups by id.
#[derive(Debug, Clone, Copy, PartialEq, Eq, Structural)]
pub enum ViewId {
    MainMenu,
    BatteryMenu,
    ClockMenu,
    InputHistoryMenu,
    KeyboardLayoutMenu,
    HelloApp,
    HomeSearchInput,
    ReaderSearchInput,
    DictionarySearchInput,
    CalculatorInput,
}

/// What kind of widget a view is, for lookups by kind.
#[derive(Debug, Clone, Copy, PartialEq, Eq, Structural)]
pub enum ViewKind {
    TopBar,
    Label,
    Menu,
    Notification,
    Icon,
}

/// One node of the view tree.
#[derive(Debug)]
pub struct ViewNode {
    pub id: Option<ViewId>,
    pub kind: ViewKind,
    pub rect: Rectangle,
    pub children: Vec<ViewNode>,
}

impl ViewNode {
    /// Give the view a new rectangle, leaving everything else alone.
    pub fn resize(&mut self, rect: Rectangle)
        ensures
            *final(self) == (ViewNode { rect, ..*old(self) }),
    {
        self.rect = rect;
    }
}

/// Whether `post` is `pre` with every rectangle in the tree moved by
/// `delta` and nothing else changed.
pub open spec fn spec_shifted(pre: ViewNode, post: ViewNode, delta: Point) -> bool
    decreases pre,
{
    &&& post.id == pre.id
    &&& post.kind == pre.kind
    &&& post.rect == pre.rect.translated(delta)
    &&& post.children@.len() == pre.children@.len()
    &&& forall|i: int|
        0 <= i < pre.children@.len() ==> spec_shifted(
            pre.children@[i],
            #[trigger] post.children@[i],
            delta,
        )
}

fn shifted_node(view: &ViewNode, delta: Point) -> (r: ViewNode)
    ensures
        spec_shifted(*view, r, delta),
    decreases *view,
{
    let mut rect = view.rect;
    rect.translate(delta);
    let mut children: Vec<ViewNode> = Vec::new();
    let n = view.children.len();
    for i in 0..n
        invariant
            n == view.children@.len(),
            children@.len() == i,
            forall|j: int|
                0 <= j < i ==> spec_shifted(view.children@[j], #[trigger] children@[j], delta),
    {
        children.push(shifted_node(&view.children[i], delta));
    }
    ViewNode { id: view.id, kind: view.kind, rect, children }
}

/// Move the view and all its descendants by `delta`.
pub fn shift(view: &mut ViewNode, delta: Point)
    ensures
        spec_shifted(*old(view), *final(view), delta),
{
    let r = shifted_node(view, delta);
    *view = r;
}

/// The index of the first child of the given kind.
pub fn locate(view: &ViewNode, kind: ViewKind) -> (r: Option<usize>)
    ensures
        match r {
            Some(i) => i < view.children@.len() && view.children@[i as int].kind == kind && forall|
                j: int,
            | 0 <= j < i ==> view.children@[j].kind != kind,
            None => forall|j: int| 0 <= j < view.children@.len() ==> view.children@[j].kind != kind,
        },
{
    let n = view.children.len();
    for i in 0..n
        invariant
            n == view.children@.len(),
            forall|j: int| 0 <= j < i ==> view.children@[j].kind != kind,
    {
        if view.children[i].kind == kind {
            return Some(i);
        }
    }
    None
}

/// The index of the last child of the given kind.
pub fn rlocate(view: &ViewNode, kind: ViewKind) -> (r: Option<usize>)
    ensures
        match r {
            Some(i) => i < view.children@.len() && view.children@[i as int].kind == kind && forall|
                j: int,
            | i < j < view.children@.len() ==> view.children@[j].kind != kind,
            None => forall|j: int| 0 <= j < view.children@.len() ==> view.children@[j].kind != kind,
        },
{
    let n = view.children.len();
    let mut i = n;
    while i > 0
        invariant
            i <= n,
            n == view.children@.len(),
            forall|j: int| i <= j < n ==> view.children@[j].kind != kind,
        decreases i,
    {
        i = i - 1;
        if view.children[i].kind == kind {
            return Some(i);
        }
    }
    None
}

/// The index of the first child carrying the given identity.
pub fn locate_by_id(view: &ViewNode, id: ViewId) -> (r: Option<usize>)
    ensures
        match r {
            Some(i) => i < view.children@.len() && view.children@[i as int].id == Some(id) && forall|
                j: int,
            | 0 <= j < i ==> view.children@[j].id != Some(id),
            None => forall|j: int| 0 <= j < view.children@.len() ==> view.children@[j].id != Some(
                id,
            ),
        },
{
    let n = view.children.len();
    for i in 0..n
        invariant
            n == view.children@.len(),
            forall|j: int| 0 <= j < i ==> view.children@[j].id != Some(id),
    {
        if let Some(child_id) = view.children[i].id {
            if child_id == id {
                return Some(i);
            }
        }
    }
    None
}

/// The bounding rectangle of a subtree: the view's own rectangle grown to
/// absorb every descendant's bounding rectangle, children in order.
pub open spec fn spec_overlapping(view: ViewNode) -> Rectangle
    decreases view,
{
    spec_overlapping_children(view.rect, view.children@)
}

pub open spec fn spec_overlapping_children(acc: Rectangle, children: Seq<ViewNode>) -> Rectangle
    decreases children, children.len(),
{
    if children.len() == 0 {
        acc
    } else {
        spec_overlapping_children(acc.absorbed(spec_overlapping(children[0])), children.skip(1))
    }
}

/// The smallest rectangle containing the view and everything under it.
pub fn overlapping_rectangle(view: &ViewNode) -> (r: Rectangle)
    ensures
        r == spec_overlapping(*view),
    decreases *view,
{
    let mut rect = view.rect;
    let n = view.children.len();
    proof {
        assert(view.children@.skip(0) =~= view.children@);
    }
    for i in 0..n
        invariant
            n == view.children@.len(),
            spec_overlapping(*view) == spec_overlapping_children(rect, view.children@.skip(i as int)),
    {
        let child_rect = overlapping_rectangle(&view.children[i]);
        proof {
            let rest = view.children@.skip(i as int);
            assert(rest[0] == view.children@[i as int]);
            assert(rest.skip(1) =~= view.children@.skip(i + 1));
        }
        rect.absorb(&child_rect);
    }
    proof {
        assert(view.children@.skip(n as int) =~= Seq::<ViewNode>::empty());
    }
    rect
}

/// Whether the child is a notification.
pub open spec fn spec_is_notification(c: ViewNode) -> bool {
    c.kind == ViewKind::Notification
}

/// The child as it arrives in the target tree: given the target's
/// rectangle when the two trees' rectangles differ, unchanged otherwise.
pub open spec fn spec_rehomed(c: ViewNode, target: Rectangle, resize: bool) -> ViewNode {
    if resize {
        ViewNode { rect: target, ..c }
    } else {
        c
    }
}

/// The children a tree keeps after its notifications are taken: walked
/// from the front.
pub open spec fn spec_kept(children: Seq<ViewNode>) -> Seq<ViewNode>
    decreases children.len(),
{
    if children.len() == 0 {
        Seq::empty()
    } else {
        (if spec_is_notification(children[0]) {
            Seq::empty()
        } else {
            seq![children[0]]
        }) + spec_kept(children.skip(1))
    }
}

/// The notifications a tree gives up, in the order they arrive at the
/// target: walked from the back, each rehomed.
pub open spec fn spec_moved(children: Seq<ViewNode>, target: Rectangle, resize: bool) -> Seq<
    ViewNode,
>
    decreases children.len(),
{
    if children.len() == 0 {
        Seq::empty()
    } else {
        (if spec_is_notification(children.last()) {
            seq![spec_rehomed(children.last(), target, resize)]
        } else {
            Seq::empty()
        }) + spec_moved(children.drop_last(), target, resize)
    }
}

/// Move every notification from the first tree to the second, starting
/// with the last one. A notification is resized to the second tree's
/// rectangle when the two trees' rectangles differ.
pub fn transfer_notifications(view1: &mut ViewNode, view2: &mut ViewNode)
    ensures
        final(view1).children@ == spec_kept(old(view1).children@),
        final(view2).children@ == old(view2).children@ + spec_moved(
            old(view1).children@,
            old(view2).rect,
            old(view2).rect != old(view1).rect,
        ),
        *final(view1) == (ViewNode { children: final(view1).children, ..*old(view1) }),
        *final(view2) == (ViewNode { children: final(view2).children, ..*old(view2) }),
{
    let resize = view2.rect != view1.rect;
    let ghost c1 = view1.children@;
    let ghost target = view2.rect;
    let ghost moved_all = spec_moved(c1, target, resize);
    let mut idx = view1.children.len();
    proof {
        assert(c1.take(idx as int) =~= c1);
        assert(c1.skip(idx as int) =~= Seq::<ViewNode>::empty());
    }
    while idx > 0
        invariant
            idx <= c1.len(),
            view1.children@ == c1.take(idx as int) + spec_kept(c1.skip(idx as int)),
            view2.children@ + spec_moved(c1.take(idx as int), target, resize) == old(view2).children@
                + moved_all,
            moved_all == spec_moved(c1, target, resize),
            target == old(view2).rect,
            resize == (old(view2).rect != old(view1).rect),
            c1 == old(view1).children@,
            view1.id == old(view1).id && view1.kind == old(view1).kind && view1.rect == old(
                view1,
            ).rect,
            view2.id == old(view2).id && view2.kind == old(view2).kind && view2.rect == old(
                view2,
            ).rect,
        decreases idx,
    {
        idx = idx - 1;
        proof {
            let pre = c1.take(idx + 1);
            assert(pre.drop_last() =~= c1.take(idx as int));
            assert(pre.last() == c1[idx as int]);
            assert(c1.skip(idx as int)[0] == c1[idx as int]);
            assert(c1.skip(idx as int).skip(1) =~= c1.skip(idx + 1));
        }
        let is_notification = match view1.children[idx].kind {
            ViewKind::Notification => true,
            _ => false,
        };
        if is_notification {
            let mut child = view1.children.remove(idx);
            if resize {
                child.resize(view2.rect);
            }
            view2.children.push(child);
            proof {
                assert(view1.children@ =~= c1.take(idx as int) + spec_kept(c1.skip(idx as int)));
            }
        } else {
            proof {
                assert(view1.children@ =~= c1.take(idx as int) + spec_kept(c1.skip(idx as int)));
            }
        }
    }
    proof {
        assert(c1.take(0) =~= Seq::<ViewNode>::empty());
        assert(view1.children@ =~= spec_kept(c1));
        assert(view2.children@ =~= old(view2).children@ + moved_all);
    }
}

} // verus!
