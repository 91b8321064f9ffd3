//! How the panes of a grid lie beside each other.

use iced_widget::pane_grid::{Axis, Pane};
use vstd::prelude::*;

verus! {

/// The layout of a grid: one pane, or a divider with a layout on either side.
/// Where exactly a divider lies is left out.
pub enum Layout {
    Leaf(Pane),
    Divided { axis: Axis, first: Box<Layout>, second: Box<Layout> },
}

/// Whether a layout shows a pane.
pub open spec fn shows(layout: Layout, pane: Pane) -> bool
    decreases layout,
{
    match layout {
        Layout::Leaf(leaf) => leaf == pane,
        Layout::Divided { first, second, .. } => shows(*first, pane) || shows(*second, pane),
    }
}

/// Whether a layout shows no pane twice.
pub open spec fn each_once(layout: Layout) -> bool
    decreases layout,
{
    match layout {
        Layout::Leaf(_) => true,
        Layout::Divided { first, second, .. } => {
            &&& each_once(*first)
            &&& each_once(*second)
            &&& forall|pane: Pane| #[trigger] shows(*first, pane) ==> !shows(*second, pane)
        },
    }
}

/// The first pane of a layout.
pub open spec fn leading(layout: Layout) -> Pane
    decreases layout,
{
    match layout {
        Layout::Leaf(leaf) => leaf,
        Layout::Divided { first, .. } => leading(*first),
    }
}

/// The layout in which a pane is divided, with a new pane behind it.
pub open spec fn divided(layout: Layout, pane: Pane, axis: Axis, new_pane: Pane) -> Layout
    decreases layout,
{
    match layout {
        Layout::Leaf(leaf) => if leaf == pane {
            Layout::Divided {
                axis,
                first: Box::new(layout),
                second: Box::new(Layout::Leaf(new_pane)),
            }
        } else {
            layout
        },
        Layout::Divided { axis: outer, first, second } => if shows(*first, pane) {
            Layout::Divided {
                axis: outer,
                first: Box::new(divided(*first, pane, axis, new_pane)),
                second,
            }
        } else {
            Layout::Divided {
                axis: outer,
                first,
                second: Box::new(divided(*second, pane, axis, new_pane)),
            }
        },
    }
}

/// The layout without a pane: what lies on the other side of its divider takes
/// its place. A single pane stays.
pub open spec fn closed_up(layout: Layout, pane: Pane) -> Layout
    decreases layout,
{
    match layout {
        Layout::Leaf(_) => layout,
        Layout::Divided { axis, first, second } => if *first == Layout::Leaf(pane) {
            *second
        } else if *second == Layout::Leaf(pane) {
            *first
        } else if shows(*first, pane) {
            Layout::Divided { axis, first: Box::new(closed_up(*first, pane)), second }
        } else {
            Layout::Divided { axis, first, second: Box::new(closed_up(*second, pane)) }
        },
    }
}

/// The first pane of what takes the place of a pane that is closed.
pub open spec fn successor(layout: Layout, pane: Pane) -> Pane
    decreases layout,
{
    match layout {
        Layout::Leaf(leaf) => leaf,
        Layout::Divided { first, second, .. } => if *first == Layout::Leaf(pane) {
            leading(*second)
        } else if *second == Layout::Leaf(pane) {
            leading(*first)
        } else if shows(*first, pane) {
            successor(*first, pane)
        } else {
            successor(*second, pane)
        },
    }
}

/// The first pane of a layout is shown.
pub proof fn leading_is_shown(layout: Layout)
    ensures
        shows(layout, leading(layout)),
    decreases layout,
{
    match layout {
        Layout::Leaf(_) => {},
        Layout::Divided { first, .. } => {
            leading_is_shown(*first);
        },
    }
}

/// Dividing a pane shows the new pane besides all others, each once.
pub proof fn divided_shows_one_more(layout: Layout, pane: Pane, axis: Axis, new_pane: Pane)
    requires
        each_once(layout),
        shows(layout, pane),
        !shows(layout, new_pane),
    ensures
        each_once(divided(layout, pane, axis, new_pane)),
        forall|other: Pane| #[trigger]
            shows(divided(layout, pane, axis, new_pane), other) == (shows(layout, other) || other
                == new_pane),
    decreases layout,
{
    match layout {
        Layout::Leaf(_) => {
            let after = divided(layout, pane, axis, new_pane);
            let new_leaf = Layout::Leaf(new_pane);
            assert forall|other: Pane| #[trigger] shows(after, other) == (shows(layout, other)
                || other == new_pane) by {
                assert(shows(new_leaf, other) == (other == new_pane));
                assert(shows(after, other) == (shows(layout, other) || shows(new_leaf, other)));
            }
            assert(each_once(layout) && each_once(new_leaf));
            assert forall|other: Pane| #[trigger] shows(layout, other) implies !shows(
                new_leaf,
                other,
            ) by {
                assert(shows(new_leaf, other) == (other == new_pane));
            }
        },
        Layout::Divided { first, second, .. } => {
            assert(!shows(*first, new_pane) && !shows(*second, new_pane));
            let after = divided(layout, pane, axis, new_pane);
            if shows(*first, pane) {
                divided_shows_one_more(*first, pane, axis, new_pane);
                assert forall|other: Pane| #[trigger] shows(after, other) == (shows(layout, other)
                    || other == new_pane) by {
                    let changed = divided(*first, pane, axis, new_pane);
                    assert(shows(after, other) == (shows(changed, other) || shows(*second, other)));
                }
            } else {
                divided_shows_one_more(*second, pane, axis, new_pane);
                assert forall|other: Pane| #[trigger] shows(after, other) == (shows(layout, other)
                    || other == new_pane) by {
                    let changed = divided(*second, pane, axis, new_pane);
                    assert(shows(after, other) == (shows(*first, other) || shows(changed, other)));
                }
            }
        },
    }
}

/// Closing a pane of several shows all others, each once; one of them takes its
/// place.
pub proof fn closing_shows_one_less(layout: Layout, pane: Pane)
    requires
        each_once(layout),
        shows(layout, pane),
        layout is Divided,
    ensures
        each_once(closed_up(layout, pane)),
        forall|other: Pane| #[trigger]
            shows(closed_up(layout, pane), other) == (shows(layout, other) && other != pane),
        shows(layout, successor(layout, pane)),
        successor(layout, pane) != pane,
    decreases layout,
{
    if let Layout::Divided { first, second, .. } = layout {
        leading_is_shown(*first);
        leading_is_shown(*second);
        assert(shows(*first, pane) || shows(*second, pane));
        if *first == Layout::Leaf(pane) {
            assert forall|other: Pane| #[trigger] shows(*second, other) == (shows(layout, other)
                && other != pane) by {
                assert(shows(*first, other) == (other == pane));
            }
        } else if *second == Layout::Leaf(pane) {
            assert forall|other: Pane| #[trigger] shows(*first, other) == (shows(layout, other)
                && other != pane) by {
                assert(shows(*second, other) == (other == pane));
            }
        } else if shows(*first, pane) {
            closing_shows_one_less(*first, pane);
            assert forall|other: Pane| #[trigger] shows(closed_up(layout, pane), other) == (shows(
                layout,
                other,
            ) && other != pane) by {
                let changed = closed_up(*first, pane);
                assert(shows(closed_up(layout, pane), other) == (shows(changed, other) || shows(
                    *second,
                    other,
                )));
            }
        } else {
            closing_shows_one_less(*second, pane);
            assert forall|other: Pane| #[trigger] shows(closed_up(layout, pane), other) == (shows(
                layout,
                other,
            ) && other != pane) by {
                let changed = closed_up(*second, pane);
                assert(shows(closed_up(layout, pane), other) == (shows(*first, other) || shows(
                    changed,
                    other,
                )));
            }
        }
    }
}

/// Closing the pane that dividing another has made gives back the layout, and
/// the other takes its place.
pub proof fn closing_undoes_dividing(layout: Layout, pane: Pane, axis: Axis, new_pane: Pane)
    requires
        shows(layout, pane),
        !shows(layout, new_pane),
    ensures
        closed_up(divided(layout, pane, axis, new_pane), new_pane) == layout,
        successor(divided(layout, pane, axis, new_pane), new_pane) == pane,
        shows(divided(layout, pane, axis, new_pane), new_pane),
    decreases layout,
{
    match layout {
        Layout::Leaf(_) => {
            assert(shows(Layout::Leaf(new_pane), new_pane));
        },
        Layout::Divided { first, second, .. } => {
            assert(!shows(*first, new_pane) && !shows(*second, new_pane));
            if shows(*first, pane) {
                closing_undoes_dividing(*first, pane, axis, new_pane);
                assert(divided(*first, pane, axis, new_pane) is Divided);
            } else {
                closing_undoes_dividing(*second, pane, axis, new_pane);
                assert(divided(*second, pane, axis, new_pane) is Divided);
            }
        },
    }
}

} // verus!
