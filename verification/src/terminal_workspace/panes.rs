//! The grid of panes of a tab, as the toolkit keeps it.
//!
//! Each pane of the grid carries the id of the terminal that it shows.

use iced_widget::pane_grid::{Axis, Pane, ResizeEvent, Split, State};
use vstd::prelude::*;

use crate::terminal_workspace::layout::{closed_up, divided, successor, Layout};

verus! {

/// The name of a pane.
#[verifier::external_type_specification]
#[verifier::external_body]
pub struct ExPane(iced_widget::pane_grid::Pane);

/// The name of a divider between panes.
#[verifier::external_type_specification]
#[verifier::external_body]
pub struct ExSplit(iced_widget::pane_grid::Split);

/// The direction of a divider.
#[verifier::external_type_specification]
#[verifier::external_body]
pub struct ExAxis(iced_widget::pane_grid::Axis);

/// A divider that is being moved.
#[verifier::external_type_specification]
#[verifier::external_body]
pub struct ExResizeEvent(iced_widget::pane_grid::ResizeEvent);

/// A grid of panes.
#[verifier::external_type_specification]
#[verifier::external_body]
#[verifier::reject_recursive_types(T)]
pub struct ExState<T>(iced_widget::pane_grid::State<T>);

/// What the panes of a grid carry.
pub uninterp spec fn grid_panes(grid: &State<u64>) -> Map<Pane, u64>;

/// Whether the layout of a grid shows exactly the panes that carry something,
/// under names that were all given out before. Every grid that `new` made and
/// that only `split`, `close` and `resize` have changed is of this kind.
pub uninterp spec fn grid_sound(grid: &State<u64>) -> bool;

/// How many names a grid can still give out.
pub uninterp spec fn grid_room(grid: &State<u64>) -> nat;

/// The name of the first pane of a grid that is made with a value.
pub uninterp spec fn grid_first_pane(value: u64) -> Pane;

/// The name that the next pane of a grid gets.
pub uninterp spec fn grid_next_pane(grid: &State<u64>) -> Pane;

/// How the panes of a grid lie beside each other.
pub uninterp spec fn grid_layout(grid: &State<u64>) -> Layout;

/// The grid in which a pane was divided.
pub uninterp spec fn grid_split_by(
    grid: State<u64>,
    axis: Axis,
    pane: Pane,
    value: u64,
) -> State<u64>;

/// The grid in which a pane was closed.
pub uninterp spec fn grid_closed_by(grid: State<u64>, pane: Pane) -> State<u64>;

/// The grid in which a divider was moved.
pub uninterp spec fn grid_resized_by(grid: State<u64>, event: ResizeEvent) -> State<u64>;

/// `State::new` makes a grid of one pane that carries the given value, and
/// returns the name of that pane. One name is given out for the pane and one
/// is set aside.
#[verifier::external_body]
pub(crate) fn new_grid(value: u64) -> (r: (State<u64>, Pane))
    ensures
        grid_sound(&r.0),
        r.1 == grid_first_pane(value),
        grid_panes(&r.0) == Map::<Pane, u64>::empty().insert(r.1, value),
        grid_layout(&r.0) == Layout::Leaf(r.1),
        grid_room(&r.0) == usize::MAX - 1,
{
    State::new(value)
}

/// `State::len` counts the panes.
#[verifier::external_body]
pub(crate) fn grid_len(grid: &State<u64>) -> (count: usize)
    ensures
        count == grid_panes(grid).dom().len(),
{
    grid.len()
}

/// `State::get` gives what a pane carries.
#[verifier::external_body]
pub(crate) fn grid_get(grid: &State<u64>, pane: Pane) -> (value: Option<u64>)
    ensures
        value == (if grid_panes(grid).contains_key(pane) {
            Some(grid_panes(grid)[pane])
        } else {
            None
        }),
{
    grid.get(pane).copied()
}

/// `State::iter` gives every pane once, with what it carries.
#[verifier::external_body]
pub(crate) fn grid_entries(grid: &State<u64>) -> (entries: Vec<(Pane, u64)>)
    ensures
        forall|i: int|
            0 <= i < entries@.len() ==> grid_panes(grid).contains_key((#[trigger] entries@[i]).0)
                && grid_panes(grid)[entries@[i].0] == entries@[i].1,
        forall|pane: Pane| #[trigger]
            grid_panes(grid).contains_key(pane) ==> exists|i: int|
                0 <= i < entries@.len() && (#[trigger] entries@[i]).0 == pane,
{
    grid.iter().map(|(pane, value)| (*pane, *value)).collect()
}

/// `State::split` divides a pane in two along the given axis. The new one lies
/// behind it and carries the given value under a name that no pane of the grid
/// has. It does so for every pane of the grid as long as there are two names
/// left, one for the pane and one for the divider. Otherwise the panes stay as
/// they are. The contract names the grid that comes of it, with the places of
/// its dividers.
#[verifier::external_body]
pub(crate) fn grid_split(grid: &mut State<u64>, axis: Axis, pane: Pane, value: u64) -> (r: Option<
    (Pane, Split),
>)
    requires
        grid_sound(old(grid)),
    ensures
        *final(grid) == grid_split_by(*old(grid), axis, pane, value),
        grid_sound(final(grid)),
        r is Some <==> grid_panes(old(grid)).contains_key(pane) && grid_room(old(grid)) >= 2,
        match r {
            Some((new_pane, _)) => {
                &&& new_pane == grid_next_pane(old(grid))
                &&& !grid_panes(old(grid)).contains_key(new_pane)
                &&& grid_panes(final(grid)) == grid_panes(old(grid)).insert(new_pane, value)
                &&& grid_layout(final(grid)) == divided(
                    grid_layout(old(grid)),
                    pane,
                    axis,
                    new_pane,
                )
                &&& grid_room(final(grid)) == grid_room(old(grid)) - 2
            },
            None => grid_panes(final(grid)) == grid_panes(old(grid)) && grid_layout(final(grid))
                == grid_layout(old(grid)),
        },
{
    grid.split(axis, pane, value)
}

/// `State::close` takes a pane out of a grid of at least two, and returns what
/// it carried and the first pane of what takes its place. The last pane cannot
/// be closed. The contract names the grid that comes of it, with the places of
/// its dividers.
#[verifier::external_body]
pub(crate) fn grid_close(grid: &mut State<u64>, pane: Pane) -> (r: Option<(u64, Pane)>)
    requires
        grid_sound(old(grid)),
    ensures
        *final(grid) == grid_closed_by(*old(grid), pane),
        grid_sound(final(grid)),
        r is Some <==> grid_panes(old(grid)).contains_key(pane) && grid_panes(
            old(grid),
        ).dom().len() > 1,
        match r {
            Some((value, sibling)) => {
                &&& value == grid_panes(old(grid))[pane]
                &&& sibling == successor(grid_layout(old(grid)), pane)
                &&& grid_panes(final(grid)) == grid_panes(old(grid)).remove(pane)
                &&& grid_layout(final(grid)) == closed_up(grid_layout(old(grid)), pane)
            },
            None => grid_panes(final(grid)) == grid_panes(old(grid)) && grid_layout(final(grid))
                == grid_layout(old(grid)),
        },
        grid_room(final(grid)) == grid_room(old(grid)),
{
    grid.close(pane)
}

/// `State::resize` moves a divider and leaves the panes and their layout as they
/// are. The contract names the grid that comes of it.
#[verifier::external_body]
pub(crate) fn grid_resize(grid: &mut State<u64>, event: ResizeEvent)
    requires
        grid_sound(old(grid)),
    ensures
        *final(grid) == grid_resized_by(*old(grid), event),
        grid_sound(final(grid)),
        grid_panes(final(grid)) == grid_panes(old(grid)),
        grid_room(final(grid)) == grid_room(old(grid)),
        grid_next_pane(final(grid)) == grid_next_pane(old(grid)),
        grid_layout(final(grid)) == grid_layout(old(grid)),
{
    grid.resize(event.split, event.ratio)
}

/// `Pane::eq` says whether two names are the same.
#[verifier::external_body]
pub(crate) fn same_pane(a: Pane, b: Pane) -> (r: bool)
    ensures
        r == (a == b),
{
    a == b
}

} // verus!
