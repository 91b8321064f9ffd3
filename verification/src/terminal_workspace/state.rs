//! State of the terminal tabs: the panes of a tab, the terminals in them, the
//! focus, the context menu and the selected block.

use std::collections::BTreeMap;

use iced_widget::pane_grid::{Axis, Pane, ResizeEvent, State};
use vstd::prelude::*;

use crate::geometry::{clamp_point, clamped_point, Point, Size};
use crate::ids::{ascending, ascending_keys, lists};
use crate::quick_launch::state::view_opt;
use crate::session_options::{Settings, SettingsModel};
use crate::terminal_workspace::commands::{
    batch_is_concat, batch_push, batch_tasks, clear_task, command_tasks, StateCommand,
};
use crate::terminal_workspace::layout::{
    closed_up, closing_shows_one_less, closing_undoes_dividing, divided, divided_shows_one_more,
    each_once, shows, successor, Layout,
};
use crate::terminal_workspace::panes::{
    grid_close, grid_closed_by, grid_entries, grid_first_pane, grid_get, grid_layout, grid_len,
    grid_next_pane, grid_panes, grid_resize, grid_resized_by, grid_room, grid_sound, grid_split,
    grid_split_by, new_grid, same_pane,
};
use crate::terminal_workspace::types::{
    BlockCommandModel, BlockSelection, EntryModel, SelectionModel, TerminalEntry, TerminalEvent,
    TerminalKind, WorkspaceEffectModel, WorkspaceTaskModel,
};

verus! {

broadcast use vstd::std_specs::btree::group_btree_axioms;

/// Why a tab could not be opened.
#[derive(Debug)]
pub enum TerminalWorkspaceError {
    Init { message: String },
}

/// The context menu of a pane.
pub struct PaneContextMenuState {
    pane: Pane,
    cursor: Point,
    grid_size: Size,
    terminal_id: u64,
    focus_target: u64,
}

/// The mathematical value of the context menu of a pane.
#[verifier::ext_equal]
pub struct PaneMenuModel {
    pub pane: Pane,
    pub cursor: Point,
    pub grid_size: Size,
    pub terminal_id: u64,
    pub focus_target: u64,
}

impl View for PaneContextMenuState {
    type V = PaneMenuModel;

    closed spec fn view(&self) -> PaneMenuModel {
        PaneMenuModel {
            pane: self.pane,
            cursor: self.cursor,
            grid_size: self.grid_size,
            terminal_id: self.terminal_id,
            focus_target: self.focus_target,
        }
    }
}

impl PaneContextMenuState {
    /// A menu on a pane. `focus_target` is an id that no element has yet.
    pub fn new(
        pane: Pane,
        cursor: Point,
        grid_size: Size,
        terminal_id: u64,
        focus_target: u64,
    ) -> (r: Self)
        ensures
            r@ == (PaneMenuModel { pane, cursor, grid_size, terminal_id, focus_target }),
    {
        PaneContextMenuState { pane, cursor, grid_size, terminal_id, focus_target }
    }

    /// The pane that the menu was opened on.
    pub fn pane(&self) -> (pane: Pane)
        ensures
            pane == self@.pane,
    {
        self.pane
    }

    /// Where the cursor was when the menu was opened.
    pub fn cursor(&self) -> (cursor: Point)
        ensures
            cursor == self@.cursor,
    {
        self.cursor
    }

    /// The bounds in which the menu is placed.
    pub fn grid_size(&self) -> (size: Size)
        ensures
            size == self@.grid_size,
    {
        self.grid_size
    }

    /// The terminal in the pane.
    pub fn terminal_id(&self) -> (id: u64)
        ensures
            id == self@.terminal_id,
    {
        self.terminal_id
    }

    /// The element that holds the keyboard focus while the menu is open.
    pub fn focus_target(&self) -> (id: u64)
        ensures
            id == self@.focus_target,
    {
        self.focus_target
    }
}

/// A terminal tab.
pub struct TerminalTabState {
    tab_id: u64,
    title: String,
    kind: TerminalKind,
    terminal_settings: Settings,
    panes: State<u64>,
    terminals: BTreeMap<u64, TerminalEntry>,
    focus: Option<Pane>,
    context_menu: Option<PaneContextMenuState>,
    selected_block: Option<BlockSelection>,
    default_title: String,
    grid_cursor: Option<Point>,
    grid_size: Size,
}

/// The mathematical value of a terminal tab.
#[verifier::ext_equal]
pub struct TabModel {
    pub tab_id: u64,
    pub title: Seq<char>,
    pub kind: TerminalKind,
    pub settings: SettingsModel,
    pub panes: Map<Pane, u64>,
    pub layout: Layout,
    pub terminals: Map<u64, EntryModel>,
    pub focus: Option<Pane>,
    pub context_menu: Option<PaneMenuModel>,
    pub selected_block: Option<SelectionModel>,
    pub default_title: Seq<char>,
    pub grid_cursor: Option<Point>,
    pub grid_size: Size,
}

/// The mathematical value of the terminals of a tab.
pub open spec fn entry_models(terminals: Map<u64, TerminalEntry>) -> Map<u64, EntryModel> {
    terminals.map_values(|entry: TerminalEntry| entry@)
}

impl View for TerminalTabState {
    type V = TabModel;

    closed spec fn view(&self) -> TabModel {
        TabModel {
            tab_id: self.tab_id,
            title: self.title@,
            kind: self.kind,
            settings: self.terminal_settings@,
            panes: grid_panes(&self.panes),
            layout: grid_layout(&self.panes),
            terminals: entry_models(self.terminals@),
            focus: self.focus,
            context_menu: view_opt(self.context_menu),
            selected_block: view_opt(self.selected_block),
            default_title: self.default_title@,
            grid_cursor: self.grid_cursor,
            grid_size: self.grid_size,
        }
    }
}

/// Whether some pane shows the terminal.
pub open spec fn is_shown(panes: Map<Pane, u64>, terminal_id: u64) -> bool {
    exists|pane: Pane| panes.contains_key(pane) && #[trigger] panes[pane] == terminal_id
}

/// The invariant of a tab: its layout shows every pane once, every pane shows a
/// terminal of the tab, every terminal of the tab is shown, none is shown
/// twice, one pane has the focus, and the title of the tab is that of the
/// terminal in it.
pub open spec fn tab_ok(tab: TabModel) -> bool {
    &&& tab.panes.dom().finite()
    &&& each_once(tab.layout)
    &&& forall|pane: Pane| #[trigger] shows(tab.layout, pane) == tab.panes.contains_key(pane)
    &&& forall|pane: Pane|
        tab.panes.contains_key(pane) ==> tab.terminals.contains_key(#[trigger] tab.panes[pane])
    &&& forall|id: u64| #[trigger] tab.terminals.contains_key(id) ==> is_shown(tab.panes, id)
    &&& forall|a: Pane, b: Pane|
        tab.panes.contains_key(a) && tab.panes.contains_key(b) && #[trigger] tab.panes[a]
            == #[trigger] tab.panes[b] ==> a == b
    &&& tab.focus is Some
    &&& tab.panes.contains_key(tab.focus->0)
    &&& tab.title == tab.terminals[tab.panes[tab.focus->0]].title
}

/// The tab that opens with one pane.
pub open spec fn new_tab(
    tab_id: u64,
    default_title: Seq<char>,
    terminal_id: u64,
    settings: SettingsModel,
    kind: TerminalKind,
    widget_id: u64,
) -> TabModel {
    let pane = grid_first_pane(terminal_id);
    TabModel {
        tab_id,
        title: default_title,
        kind,
        settings,
        panes: Map::empty().insert(pane, terminal_id),
        layout: Layout::Leaf(pane),
        terminals: Map::empty().insert(terminal_id, EntryModel { widget_id, title: default_title }),
        focus: Some(pane),
        context_menu: None,
        selected_block: None,
        default_title,
        grid_cursor: None,
        grid_size: Size::spec_zero(),
    }
}

/// The title of a terminal, or the default one where it is not in the tab.
pub open spec fn terminal_title(tab: TabModel, terminal_id: u64) -> Seq<char> {
    if tab.terminals.contains_key(terminal_id) {
        tab.terminals[terminal_id].title
    } else {
        tab.default_title
    }
}

/// The tab without a selected block of the given terminal.
pub open spec fn selection_cleared_for(tab: TabModel, terminal_id: u64) -> TabModel {
    TabModel {
        selected_block: match tab.selected_block {
            Some(selection) => if selection.terminal_id == terminal_id {
                None
            } else {
                tab.selected_block
            },
            None => None,
        },
        ..tab
    }
}

/// The tab with one more pane, which has the focus.
pub open spec fn pane_split(
    tab: TabModel,
    pane: Pane,
    axis: Axis,
    terminal_id: u64,
    widget_id: u64,
    new_pane: Pane,
) -> TabModel {
    TabModel {
        panes: tab.panes.insert(new_pane, terminal_id),
        layout: divided(tab.layout, pane, axis, new_pane),
        terminals: tab.terminals.insert(
            terminal_id,
            EntryModel { widget_id, title: tab.default_title },
        ),
        focus: Some(new_pane),
        context_menu: None,
        title: tab.default_title,
        ..selection_cleared_for(tab, tab.panes[pane])
    }
}

/// The work that follows a split: the old terminal loses its selection, the
/// new one gets the focus.
pub open spec fn split_tasks(tab: TabModel, pane: Pane, widget_id: u64) -> Seq<WorkspaceTaskModel> {
    seq![
        clear_task(tab.terminals[tab.panes[pane]].widget_id),
        WorkspaceTaskModel::FocusTerminal(widget_id),
    ]
}

/// The tab after a pane was closed, and the work that follows. The last pane
/// stays and asks for the tab to be closed.
pub open spec fn pane_closed(tab: TabModel, pane: Pane) -> (TabModel, Seq<WorkspaceTaskModel>) {
    if tab.panes.dom().len() == 1 {
        (tab, seq![WorkspaceTaskModel::Effect(WorkspaceEffectModel::TabClosed(tab.tab_id))])
    } else if !tab.panes.contains_key(pane) {
        (tab, Seq::empty())
    } else {
        let terminal_id = tab.panes[pane];
        let closed = TabModel {
            panes: tab.panes.remove(pane),
            layout: closed_up(tab.layout, pane),
            terminals: tab.terminals.remove(terminal_id),
            context_menu: None,
            ..selection_cleared_for(tab, terminal_id)
        };
        if tab.focus == Some(pane) {
            let sibling = successor(tab.layout, pane);
            let next_id = tab.panes[sibling];
            (
                TabModel {
                    focus: Some(sibling),
                    title: terminal_title(closed, next_id),
                    ..closed
                },
                seq![WorkspaceTaskModel::FocusTerminal(closed.terminals[next_id].widget_id)],
            )
        } else {
            (closed, Seq::empty())
        }
    }
}

/// The tab in which a pane has the focus. A pane that is not there gets none.
pub open spec fn pane_focused(tab: TabModel, pane: Pane, close_menu: bool) -> TabModel {
    if tab.panes.contains_key(pane) {
        TabModel {
            focus: Some(pane),
            context_menu: if close_menu {
                None
            } else {
                tab.context_menu
            },
            title: terminal_title(tab, tab.panes[pane]),
            ..tab
        }
    } else {
        tab
    }
}

/// The focus goes to the terminal in a pane.
pub open spec fn focus_tasks(tab: TabModel, pane: Pane) -> Seq<WorkspaceTaskModel> {
    if tab.panes.contains_key(pane) && tab.terminals.contains_key(tab.panes[pane]) {
        seq![WorkspaceTaskModel::FocusTerminal(tab.terminals[tab.panes[pane]].widget_id)]
    } else {
        Seq::empty()
    }
}

/// The tab in which a context menu is open, and the work that follows. There
/// is no menu on a terminal that the tab does not have, nor on one that shows
/// its alternate screen.
pub open spec fn menu_opened(tab: TabModel, menu: PaneMenuModel, alt_screen: bool) -> (
    TabModel,
    Seq<WorkspaceTaskModel>,
) {
    if !tab.terminals.contains_key(menu.terminal_id) || alt_screen {
        (tab, Seq::empty())
    } else {
        (
            TabModel { context_menu: Some(menu), ..pane_focused(tab, menu.pane, false) },
            seq![
                WorkspaceTaskModel::Block(
                    tab.terminals[menu.terminal_id].widget_id,
                    BlockCommandModel::SelectHovered,
                ),
                WorkspaceTaskModel::FocusElement(menu.focus_target),
            ],
        )
    }
}

/// The orders to all terminals of a tab to clear their selected blocks.
pub open spec fn clear_tasks(terminals: Map<u64, EntryModel>, ids: Seq<u64>) -> Seq<
    WorkspaceTaskModel,
> {
    ids.map_values(|id: u64| clear_task(terminals[id].widget_id))
}

/// The tab without a context menu, and the work that follows.
pub open spec fn menu_closed(tab: TabModel) -> (TabModel, Seq<WorkspaceTaskModel>) {
    if tab.context_menu is None {
        (tab, Seq::empty())
    } else {
        let closed = TabModel { context_menu: None, selected_block: None, ..tab };
        let clears = clear_tasks(tab.terminals, ascending(tab.terminals.dom()));
        match tab.focus {
            Some(pane) => (
                pane_focused(closed, pane, false),
                clears + focus_tasks(closed, pane),
            ),
            None => (closed, clears),
        }
    }
}

/// The tab in which a terminal has another title. Where the terminal has the
/// focus, that is the title of the tab too.
pub open spec fn terminal_renamed(tab: TabModel, terminal_id: u64, title: Seq<char>) -> TabModel {
    TabModel {
        terminals: if tab.terminals.contains_key(terminal_id) {
            tab.terminals.insert(
                terminal_id,
                EntryModel { title, ..tab.terminals[terminal_id] },
            )
        } else {
            tab.terminals
        },
        title: if focused_terminal(tab) == Some(terminal_id) {
            title
        } else {
            tab.title
        },
        ..tab
    }
}

/// The terminal in the pane that has the focus.
pub open spec fn focused_terminal(tab: TabModel) -> Option<u64> {
    match tab.focus {
        Some(pane) => if tab.panes.contains_key(pane) {
            Some(tab.panes[pane])
        } else {
            None
        },
        None => None,
    }
}

/// The pane that shows a terminal.
pub open spec fn pane_showing(tab: TabModel, terminal_id: u64) -> Pane {
    choose|pane: Pane| tab.panes.contains_key(pane) && #[trigger] tab.panes[pane] == terminal_id
}

/// The tab after something happened in a terminal, and the work that follows.
pub open spec fn terminal_event_handled(tab: TabModel, event: TerminalEvent) -> (
    TabModel,
    Seq<WorkspaceTaskModel>,
) {
    let terminal_id = event.spec_terminal_id();
    match event {
        TerminalEvent::Shutdown { .. } => if is_shown(tab.panes, terminal_id) {
            pane_closed(tab, pane_showing(tab, terminal_id))
        } else {
            (tab, Seq::empty())
        },
        TerminalEvent::TitleChanged { title, .. } => (
            terminal_renamed(tab, terminal_id, title@),
            Seq::empty(),
        ),
        TerminalEvent::ResetTitle { .. } => (
            terminal_renamed(tab, terminal_id, tab.default_title),
            Seq::empty(),
        ),
        _ => (
            tab,
            if tab.terminals.contains_key(terminal_id) {
                seq![WorkspaceTaskModel::Forward(terminal_id)]
            } else {
                Seq::empty()
            },
        ),
    }
}

/// The tab with another grid size; the cursor stays inside.
pub open spec fn grid_resized(tab: TabModel, size: Size) -> TabModel {
    TabModel {
        grid_size: size,
        grid_cursor: match tab.grid_cursor {
            Some(cursor) => Some(clamped_point(cursor, size)),
            None => None,
        },
        ..tab
    }
}

/// The tab with another look.
pub open spec fn restyled(tab: TabModel, appearance: u64) -> TabModel {
    TabModel { settings: SettingsModel { appearance, ..tab.settings }, ..tab }
}

/// The orders to all terminals of a tab to take its look.
pub open spec fn restyle_tasks(ids: Seq<u64>) -> Seq<WorkspaceTaskModel> {
    ids.map_values(|id: u64| WorkspaceTaskModel::Restyle(id))
}

proof fn lemma_entry_insert(terminals: Map<u64, TerminalEntry>, id: u64, entry: TerminalEntry)
    ensures
        entry_models(terminals.insert(id, entry)) == entry_models(terminals).insert(id, entry@),
        entry_models(terminals.remove(id)) == entry_models(terminals).remove(id),
{
    assert(entry_models(terminals.insert(id, entry)) =~= entry_models(terminals).insert(
        id,
        entry@,
    ));
    assert(entry_models(terminals.remove(id)) =~= entry_models(terminals).remove(id));
}

impl TerminalTabState {
    /// The invariant of a tab.
    pub closed spec fn wf(&self) -> bool {
        &&& grid_sound(&self.panes)
        &&& tab_ok(self@)
    }

    /// What the invariant says of the mathematical value.
    pub proof fn wf_tab_ok(&self)
        requires
            self.wf(),
        ensures
            tab_ok(self@),
    {
    }

    /// The name that the next pane gets.
    pub closed spec fn next_pane(&self) -> Pane {
        grid_next_pane(&self.panes)
    }

    /// The grid of the panes, with the places of its dividers.
    pub closed spec fn grid(&self) -> State<u64> {
        self.panes
    }

    /// How many names for panes and dividers are left.
    pub closed spec fn room(&self) -> nat {
        grid_room(&self.panes)
    }

    /// Open a tab on a terminal. `opened` is the widget of the terminal, or why
    /// it could not be opened.
    pub fn new(
        tab_id: u64,
        default_title: String,
        terminal_id: u64,
        settings: Settings,
        kind: TerminalKind,
        opened: Result<u64, String>,
    ) -> (r: Result<(TerminalTabState, u64), TerminalWorkspaceError>)
        ensures
            match opened {
                Ok(widget_id) => {
                    &&& r is Ok
                    &&& r->Ok_0.1 == widget_id
                    &&& r->Ok_0.0.wf()
                    &&& r->Ok_0.0.room() == usize::MAX - 1
                    &&& r->Ok_0.0@ == new_tab(
                        tab_id,
                        default_title@,
                        terminal_id,
                        settings@,
                        kind,
                        widget_id,
                    )
                },
                Err(message) => r == Err::<(TerminalTabState, u64), _>(
                    TerminalWorkspaceError::Init { message },
                ),
            },
    {
        let widget_id: u64 = match opened {
            Ok(widget_id) => widget_id,
            Err(message) => return Err(TerminalWorkspaceError::Init { message }),
        };
        let (panes, initial_pane) = new_grid(terminal_id);
        let mut terminals: BTreeMap<u64, TerminalEntry> = BTreeMap::new();
        let entry = TerminalEntry { widget_id, title: default_title.clone() };
        proof {
            lemma_entry_insert(terminals@, terminal_id, entry);
            assert(entry_models(terminals@) =~= Map::empty());
        }
        terminals.insert(terminal_id, entry);
        let tab = TerminalTabState {
            tab_id,
            title: default_title.clone(),
            kind,
            terminal_settings: settings,
            panes,
            terminals,
            focus: Some(initial_pane),
            context_menu: None,
            selected_block: None,
            default_title,
            grid_cursor: None,
            grid_size: Size::zero(),
        };
        proof {
            let model = new_tab(
                tab_id,
                default_title@,
                terminal_id,
                settings@,
                kind,
                widget_id,
            );
            assert(tab@ =~= model);
            assert(model.panes[initial_pane] == terminal_id);
            assert(is_shown(model.panes, terminal_id));
        }
        Ok((tab, widget_id))
    }

    /// The number of the tab.
    pub fn tab_id(&self) -> (id: u64)
        ensures
            id == self@.tab_id,
    {
        self.tab_id
    }

    /// The current title of the tab.
    pub fn title(&self) -> (title: &str)
        ensures
            title@ == self@.title,
    {
        self.title.as_str()
    }

    /// Whether the tab runs a shell.
    pub fn is_shell(&self) -> (r: bool)
        ensures
            r == (self@.kind == TerminalKind::Shell),
    {
        match self.kind {
            TerminalKind::Shell => true,
            TerminalKind::Command => false,
        }
    }

    /// The settings of the terminals of the tab.
    pub fn terminal_settings(&self) -> (settings: &Settings)
        ensures
            settings@ == self@.settings,
    {
        &self.terminal_settings
    }

    /// The grid of panes.
    pub fn panes(&self) -> (panes: &State<u64>)
        ensures
            *panes == self.grid(),
            grid_panes(panes) == self@.panes,
    {
        &self.panes
    }

    /// The terminals of the tab.
    pub fn terminals(&self) -> (terminals: &BTreeMap<u64, TerminalEntry>)
        ensures
            entry_models(terminals@) == self@.terminals,
    {
        &self.terminals
    }

    /// The pane that has the focus.
    pub fn focus(&self) -> (focus: Option<Pane>)
        ensures
            focus == self@.focus,
    {
        self.focus
    }

    /// The open context menu.
    pub fn context_menu(&self) -> (menu: Option<&PaneContextMenuState>)
        ensures
            match menu {
                Some(menu) => self@.context_menu == Some(menu@),
                None => self@.context_menu is None,
            },
    {
        self.context_menu.as_ref()
    }

    /// The selected block.
    pub fn selected_block(&self) -> (selection: Option<&BlockSelection>)
        ensures
            match selection {
                Some(selection) => self@.selected_block == Some(selection@),
                None => self@.selected_block is None,
            },
    {
        self.selected_block.as_ref()
    }

    /// Where the cursor is in the grid.
    pub fn grid_cursor(&self) -> (cursor: Option<Point>)
        ensures
            cursor == self@.grid_cursor,
    {
        self.grid_cursor
    }

    /// The size of the grid.
    pub fn grid_size(&self) -> (size: Size)
        ensures
            size == self@.grid_size,
    {
        self.grid_size
    }

    /// Whether the terminal is in the tab.
    pub fn contains_terminal(&self, id: u64) -> (r: bool)
        ensures
            r == self@.terminals.contains_key(id),
    {
        self.terminals.contains_key(&id)
    }

    /// The terminal in a pane.
    pub fn pane_terminal_id(&self, pane: Pane) -> (id: Option<u64>)
        ensures
            id == (if self@.panes.contains_key(pane) {
                Some(self@.panes[pane])
            } else {
                None
            }),
    {
        grid_get(&self.panes, pane)
    }

    /// The terminal in the pane that has the focus.
    pub fn focused_terminal_id(&self) -> (id: Option<u64>)
        ensures
            id == focused_terminal(self@),
    {
        match self.focus {
            Some(pane) => self.pane_terminal_id(pane),
            None => None,
        }
    }

    /// A terminal of the tab.
    pub fn terminal_entry(&self, id: u64) -> (entry: Option<&TerminalEntry>)
        ensures
            match entry {
                Some(entry) => self@.terminals.contains_key(id) && self@.terminals[id] == entry@,
                None => !self@.terminals.contains_key(id),
            },
    {
        self.terminals.get(&id)
    }

    /// The terminal that has the focus.
    pub fn focused_terminal_entry(&self) -> (entry: Option<&TerminalEntry>)
        ensures
            match entry {
                Some(entry) => focused_terminal(self@) is Some && self@.terminals.contains_key(
                    focused_terminal(self@)->0,
                ) && self@.terminals[focused_terminal(self@)->0] == entry@,
                None => focused_terminal(self@) is None || !self@.terminals.contains_key(
                    focused_terminal(self@)->0,
                ),
            },
    {
        match self.focused_terminal_id() {
            Some(id) => self.terminal_entry(id),
            None => None,
        }
    }

    /// The terminal of the selected block.
    pub fn selected_block_terminal(&self) -> (id: Option<u64>)
        ensures
            id == (match self@.selected_block {
                Some(selection) => Some(selection.terminal_id),
                None => None,
            }),
    {
        match &self.selected_block {
            Some(selection) => Some(selection.terminal_id()),
            None => None,
        }
    }

    /// Select a block of a terminal.
    pub fn set_selected_block(&mut self, terminal_id: u64, block_id: String)
        ensures
            final(self)@ == (TabModel {
                selected_block: Some(SelectionModel { terminal_id, block_id: block_id@ }),
                ..old(self)@
            }),
            final(self).wf() == old(self).wf(),
            final(self).room() == old(self).room(),
            final(self).grid() == old(self).grid(),
    {
        self.selected_block = Some(BlockSelection::new(terminal_id, block_id));
    }

    /// Select no block.
    pub fn clear_selected_block(&mut self)
        ensures
            final(self)@ == (TabModel { selected_block: None, ..old(self)@ }),
            final(self).wf() == old(self).wf(),
            final(self).room() == old(self).room(),
            final(self).grid() == old(self).grid(),
    {
        self.selected_block = None;
    }

    /// Select no block where the selected one is in the given terminal.
    pub fn clear_selected_block_for_terminal(&mut self, terminal_id: u64)
        ensures
            final(self)@ == selection_cleared_for(old(self)@, terminal_id),
            final(self).wf() == old(self).wf(),
            final(self).room() == old(self).room(),
            final(self).grid() == old(self).grid(),
    {
        self.drop_selection_of(terminal_id);
    }

    fn drop_selection_of(&mut self, terminal_id: u64)
        ensures
            final(self)@ == selection_cleared_for(old(self)@, terminal_id),
            final(self).panes == old(self).panes,
            final(self).terminals == old(self).terminals,
    {
        let matching = match &self.selected_block {
            Some(selection) => selection.terminal_id() == terminal_id,
            None => false,
        };
        if matching {
            self.selected_block = None;
        }
    }

    /// Whether a pane can be split: it is there, and there are names left for
    /// the new pane and the divider.
    pub open spec fn can_split(&self, pane: Pane) -> bool {
        self@.panes.contains_key(pane) && self.room() >= 2
    }

    fn update_title_from_terminal(&mut self, terminal_id: u64)
        ensures
            final(self)@ == (TabModel {
                title: terminal_title(old(self)@, terminal_id),
                ..old(self)@
            }),
            final(self).panes == old(self).panes,
    {
        let title = match self.terminals.get(&terminal_id) {
            Some(entry) => entry.title.clone(),
            None => self.default_title.clone(),
        };
        self.title = title;
    }

    /// Split a pane and show a new terminal in the new one. `opened` is the
    /// widget of the new terminal, or why it could not be opened; it is asked
    /// for only where the pane can be split.
    pub fn split_pane(
        &mut self,
        pane: Pane,
        axis: Axis,
        terminal_id: u64,
        opened: Result<u64, String>,
    ) -> (command: StateCommand)
        requires
            old(self).wf(),
            !old(self)@.terminals.contains_key(terminal_id),
        ensures
            final(self).wf(),
            if old(self).can_split(pane) && opened is Ok {
                &&& !old(self)@.panes.contains_key(old(self).next_pane())
                &&& final(self)@ == pane_split(
                    old(self)@,
                    pane,
                    axis,
                    terminal_id,
                    opened->Ok_0,
                    old(self).next_pane(),
                )
                &&& command_tasks(command) == split_tasks(old(self)@, pane, opened->Ok_0)
                &&& final(self).room() == old(self).room() - 2
            } else {
                &&& final(self)@ == old(self)@
                &&& command_tasks(command) == Seq::<WorkspaceTaskModel>::empty()
            },
            final(self).grid() == grid_after_split(*old(self), pane, axis, terminal_id, opened),
    {
        let ghost before = self@;
        let new_pane = match grid_split(&mut self.panes, axis, pane, terminal_id) {
            Some((new_pane, _)) => new_pane,
            None => {
                return StateCommand::Idle;
            },
        };
        let widget_id: u64 = match opened {
            Ok(widget_id) => widget_id,
            Err(_) => {
                proof {
                    let grown = grid_panes(&self.panes);
                    assert(grown.dom() =~= before.panes.dom().insert(new_pane));
                    assert(before.panes.dom().contains(pane));
                    assert(grown.dom().len() == before.panes.dom().len() + 1);
                    lemma_nonempty(before.panes.dom(), pane);
                    assert(grown.remove(new_pane) =~= before.panes);
                    assert(shows(before.layout, pane));
                    assert(!shows(before.layout, new_pane));
                    closing_undoes_dividing(before.layout, pane, axis, new_pane);
                }
                grid_close(&mut self.panes, new_pane);
                return StateCommand::Idle;
            },
        };
        let source_id: Option<u64> = grid_get(&self.panes, pane);
        let entry = TerminalEntry { widget_id, title: self.default_title.clone() };
        proof {
            lemma_entry_insert(self.terminals@, terminal_id, entry);
        }
        self.terminals.insert(terminal_id, entry);
        self.focus = Some(new_pane);
        self.context_menu = None;
        let mut commands: Vec<StateCommand> = Vec::new();
        let ghost none = commands@;
        if let Some(source_id) = source_id {
            self.drop_selection_of(source_id);
            if let Some(entry) = self.terminals.get(&source_id) {
                proof {
                    batch_push(commands@, StateCommand::ClearSelection(entry.widget_id));
                }
                commands.push(StateCommand::ClearSelection(entry.widget_id));
            }
        }
        self.update_title_from_terminal(terminal_id);
        proof {
            assert(batch_tasks(none) =~= Seq::empty());
            batch_push(commands@, StateCommand::FocusTerminal(widget_id));
        }
        commands.push(StateCommand::FocusTerminal(widget_id));
        proof {
            batch_is_concat(commands);
            assert(batch_tasks(commands@) =~= split_tasks(before, pane, widget_id));
            let after = self@;
            assert(after =~= pane_split(before, pane, axis, terminal_id, widget_id, new_pane));
            lemma_split_ok(before, pane, axis, terminal_id, widget_id, new_pane);
        }
        StateCommand::Batch(commands)
    }

    /// Close a pane. The last pane stays, and the tab is to be closed instead.
    pub fn close_pane(&mut self, pane: Pane) -> (command: StateCommand)
        requires
            old(self).wf(),
        ensures
            final(self).wf(),
            (final(self)@, command_tasks(command)) == pane_closed(old(self)@, pane),
            final(self).grid() == (if old(self)@.panes.dom().len() == 1 {
                old(self).grid()
            } else {
                grid_closed_by(old(self).grid(), pane)
            }),
            final(self).room() == old(self).room(),
    {
        let ghost before = self@;
        if grid_len(&self.panes) == 1 {
            let command = StateCommand::CloseTab { tab_id: self.tab_id };
            return command;
        }
        proof {
            if before.panes.contains_key(pane) {
                lemma_nonempty(before.panes.dom(), pane);
            }
        }
        proof {
            lemma_close_ok(before, pane);
        }
        let (terminal_id, sibling) = match grid_close(&mut self.panes, pane) {
            Some(result) => result,
            None => {
                return StateCommand::Idle;
            },
        };
        self.drop_selection_of(terminal_id);
        self.context_menu = None;
        proof {
            lemma_entry_insert(
                self.terminals@,
                terminal_id,
                self.terminals@[terminal_id],
            );
        }
        self.terminals.remove(&terminal_id);
        let needs_focus = match self.focus {
            Some(focused) => same_pane(focused, pane),
            None => true,
        };
        let mut command = StateCommand::Idle;
        if needs_focus {
            self.focus = Some(sibling);
            let next_id: Option<u64> = grid_get(&self.panes, sibling);
            if let Some(next_id) = next_id {
                assert(before.panes[sibling] == next_id);
                if let Some(entry) = self.terminals.get(&next_id) {
                    command = StateCommand::FocusTerminal(entry.widget_id);
                    self.update_title_from_terminal(next_id);
                }
            }
        }
        proof {
            assert((self@, command_tasks(command)) == pane_closed(before, pane)) by {
                let spec_after = pane_closed(before, pane).0;
                assert(self@ =~= spec_after);
            }
        }
        command
    }

    /// Give all terminals of the tab another look.
    pub fn apply_theme(&mut self, appearance: u64) -> (command: StateCommand)
        requires
            old(self).wf(),
        ensures
            final(self).wf(),
            final(self)@ == restyled(old(self)@, appearance),
            command_tasks(command) == restyle_tasks(ascending(old(self)@.terminals.dom())),
            final(self).room() == old(self).room(),
            final(self).grid() == old(self).grid(),
    {
        self.terminal_settings.appearance = appearance;
        let ids = ascending_keys(&self.terminals);
        assert(self.terminals@.dom() =~= entry_models(self.terminals@).dom());
        let mut commands: Vec<StateCommand> = Vec::new();
        let mut i: usize = 0;
        assert(batch_tasks(commands@) =~= restyle_tasks(ids@.take(0)));
        while i < ids.len()
            invariant
                i <= ids@.len(),
                batch_tasks(commands@) == restyle_tasks(ids@.take(i as int)),
            decreases ids@.len() - i,
        {
            proof {
                batch_push(commands@, StateCommand::Restyle(ids@[i as int]));
                assert(restyle_tasks(ids@.take(i + 1)) =~= restyle_tasks(ids@.take(i as int))
                    + seq![WorkspaceTaskModel::Restyle(ids@[i as int])]);
            }
            commands.push(StateCommand::Restyle(ids[i]));
            i += 1;
        }
        proof {
            assert(ids@.take(ids@.len() as int) =~= ids@);
            batch_is_concat(commands);
        }
        StateCommand::Batch(commands)
    }

    fn set_focus_on_pane(
        &mut self,
        pane: Pane,
        close_menu: bool,
        focus_terminal_widget: bool,
    ) -> (command: StateCommand)
        requires
            grid_sound(&old(self).panes),
        ensures
            final(self).panes == old(self).panes,
            final(self)@ == pane_focused(old(self)@, pane, close_menu),
            command_tasks(command) == (if focus_terminal_widget {
                focus_tasks(old(self)@, pane)
            } else {
                Seq::empty()
            }),
    {
        let terminal_id: u64 = match self.pane_terminal_id(pane) {
            Some(terminal_id) => terminal_id,
            None => return StateCommand::Idle,
        };
        self.focus = Some(pane);
        if close_menu {
            self.context_menu = None;
        }
        self.update_title_from_terminal(terminal_id);
        if focus_terminal_widget {
            if let Some(entry) = self.terminals.get(&terminal_id) {
                return StateCommand::FocusTerminal(entry.widget_id);
            }
        }
        StateCommand::Idle
    }

    /// Give a pane the focus, and close the context menu.
    pub fn focus_pane(&mut self, pane: Pane) -> (command: StateCommand)
        requires
            old(self).wf(),
        ensures
            final(self).wf(),
            final(self)@ == pane_focused(old(self)@, pane, true),
            command_tasks(command) == focus_tasks(old(self)@, pane),
            final(self).room() == old(self).room(),
            final(self).grid() == old(self).grid(),
    {
        self.set_focus_on_pane(pane, true, true)
    }

    /// Move a divider of the grid.
    pub fn resize(&mut self, event: ResizeEvent)
        requires
            old(self).wf(),
        ensures
            final(self).wf(),
            final(self)@ == old(self)@,
            final(self).grid() == grid_resized_by(old(self).grid(), event),
            final(self).room() == old(self).room(),
    {
        grid_resize(&mut self.panes, event);
    }

    /// Open a context menu on a pane.
    pub fn open_context_menu(
        &mut self,
        pane: Pane,
        terminal_id: u64,
        cursor: Point,
        grid_size: Size,
        alt_screen: bool,
        focus_target: u64,
    ) -> (command: StateCommand)
        requires
            old(self).wf(),
        ensures
            final(self).wf(),
            (final(self)@, command_tasks(command)) == menu_opened(
                old(self)@,
                PaneMenuModel { pane, cursor, grid_size, terminal_id, focus_target },
                alt_screen,
            ),
            final(self).room() == old(self).room(),
            final(self).grid() == old(self).grid(),
    {
        let widget_id: u64 = match self.terminals.get(&terminal_id) {
            Some(entry) => entry.widget_id,
            None => return StateCommand::Idle,
        };
        if alt_screen {
            return StateCommand::Idle;
        }
        let focus_command = self.set_focus_on_pane(pane, false, false);
        let menu = PaneContextMenuState::new(pane, cursor, grid_size, terminal_id, focus_target);
        self.context_menu = Some(menu);
        let mut commands: Vec<StateCommand> = Vec::new();
        proof {
            assert(batch_tasks(commands@) =~= Seq::empty());
            batch_push(commands@, focus_command);
        }
        commands.push(focus_command);
        proof {
            batch_push(commands@, StateCommand::SelectHovered(widget_id));
        }
        commands.push(StateCommand::SelectHovered(widget_id));
        proof {
            batch_push(commands@, StateCommand::FocusElement(focus_target));
        }
        commands.push(StateCommand::FocusElement(focus_target));
        proof {
            batch_is_concat(commands);
            assert(batch_tasks(commands@) =~= seq![
                WorkspaceTaskModel::Block(widget_id, BlockCommandModel::SelectHovered),
                WorkspaceTaskModel::FocusElement(focus_target),
            ]);
        }
        StateCommand::Batch(commands)
    }

    /// Close the context menu, and with it every selection.
    pub fn close_context_menu(&mut self) -> (command: StateCommand)
        requires
            old(self).wf(),
        ensures
            final(self).wf(),
            (final(self)@, command_tasks(command)) == menu_closed(old(self)@),
            final(self).room() == old(self).room(),
            final(self).grid() == old(self).grid(),
    {
        if self.context_menu.is_none() {
            return StateCommand::Idle;
        }
        self.context_menu = None;
        self.selected_block = None;
        let ids = ascending_keys(&self.terminals);
        let ghost terminals = entry_models(self.terminals@);
        assert(self.terminals@.dom() =~= terminals.dom());
        let mut commands: Vec<StateCommand> = Vec::new();
        let mut i: usize = 0;
        assert(batch_tasks(commands@) =~= clear_tasks(terminals, ids@.take(0)));
        let ghost start = *self;
        while i < ids.len()
            invariant
                *self == start,
                terminals == entry_models(self.terminals@),
                lists(ids@, self.terminals@.dom()),
                i <= ids@.len(),
                batch_tasks(commands@) == clear_tasks(terminals, ids@.take(i as int)),
            decreases ids@.len() - i,
        {
            proof {
                assert(ids@.to_set().contains(ids@[i as int]));
            }
            if let Some(entry) = self.terminals.get(&ids[i]) {
                proof {
                    batch_push(commands@, StateCommand::ClearSelection(entry.widget_id));
                    assert(clear_tasks(terminals, ids@.take(i + 1)) =~= clear_tasks(
                        terminals,
                        ids@.take(i as int),
                    ) + seq![clear_task(entry.widget_id)]);
                }
                commands.push(StateCommand::ClearSelection(entry.widget_id));
            }
            i += 1;
        }
        assert(ids@.take(ids@.len() as int) =~= ids@);
        if let Some(pane) = self.focus {
            let focus_command = self.set_focus_on_pane(pane, false, true);
            proof {
                batch_push(commands@, focus_command);
            }
            commands.push(focus_command);
        }
        proof {
            batch_is_concat(commands);
        }
        StateCommand::Batch(commands)
    }

    fn rename_terminal(&mut self, terminal_id: u64, title: String)
        requires
            grid_sound(&old(self).panes),
        ensures
            final(self).panes == old(self).panes,
            final(self)@ == terminal_renamed(old(self)@, terminal_id, title@),
    {
        let ghost before = self.terminals@;
        if let Some(entry) = self.terminals.remove(&terminal_id) {
            let renamed = TerminalEntry { widget_id: entry.widget_id, title: title.clone() };
            self.terminals.insert(terminal_id, renamed);
            proof {
                assert(entry_models(self.terminals@) =~= entry_models(before).insert(
                    terminal_id,
                    renamed@,
                ));
            }
        } else {
            assert(entry_models(self.terminals@) =~= entry_models(before));
        }
        let focused = match self.focused_terminal_id() {
            Some(id) => id == terminal_id,
            None => false,
        };
        if focused {
            self.title = title;
        }
    }

    fn pane_for_terminal(&self, terminal_id: u64) -> (pane: Option<Pane>)
        requires
            self.wf(),
        ensures
            match pane {
                Some(pane) => is_shown(self@.panes, terminal_id) && pane == pane_showing(
                    self@,
                    terminal_id,
                ),
                None => !is_shown(self@.panes, terminal_id),
            },
    {
        let entries = grid_entries(&self.panes);
        let ghost panes = self@.panes;
        let mut i: usize = 0;
        while i < entries.len()
            invariant
                self.wf(),
                panes == self@.panes,
                i <= entries@.len(),
                forall|j: int|
                    0 <= j < entries@.len() ==> panes.contains_key((#[trigger] entries@[j]).0)
                        && panes[entries@[j].0] == entries@[j].1,
                forall|pane: Pane| #[trigger]
                    panes.contains_key(pane) ==> exists|j: int|
                        0 <= j < entries@.len() && (#[trigger] entries@[j]).0 == pane,
                forall|j: int| 0 <= j < i ==> (#[trigger] entries@[j]).1 != terminal_id,
            decreases entries@.len() - i,
        {
            let (pane, id) = entries[i];
            if id == terminal_id {
                proof {
                    assert(panes.contains_key(pane) && panes[pane] == terminal_id);
                    let chosen = pane_showing(self@, terminal_id);
                    assert(panes.contains_key(chosen) && panes[chosen] == terminal_id);
                }
                return Some(pane);
            }
            i += 1;
        }
        None
    }

    /// Take note of what happened in a terminal.
    pub fn handle_terminal_event(&mut self, event: TerminalEvent) -> (command: StateCommand)
        requires
            old(self).wf(),
        ensures
            final(self).wf(),
            (final(self)@, command_tasks(command)) == terminal_event_handled(old(self)@, event),
            final(self).grid() == (if event is Shutdown && is_shown(
                old(self)@.panes,
                event.spec_terminal_id(),
            ) && old(self)@.panes.dom().len() != 1 {
                grid_closed_by(
                    old(self).grid(),
                    pane_showing(old(self)@, event.spec_terminal_id()),
                )
            } else {
                old(self).grid()
            }),
            final(self).room() == old(self).room(),
    {
        let terminal_id: u64 = event.terminal_id();
        match event {
            TerminalEvent::Shutdown { .. } => {
                if let Some(pane) = self.pane_for_terminal(terminal_id) {
                    return self.close_pane(pane);
                }
            },
            TerminalEvent::TitleChanged { title, .. } => {
                proof {
                    lemma_rename_ok(self@, terminal_id, title@);
                }
                self.rename_terminal(terminal_id, title);
            },
            TerminalEvent::ResetTitle { .. } => {
                let reset_title = self.default_title.clone();
                proof {
                    lemma_rename_ok(self@, terminal_id, reset_title@);
                }
                self.rename_terminal(terminal_id, reset_title);
            },
            _ => {
                if self.contains_terminal(terminal_id) {
                    return StateCommand::Forward(terminal_id);
                }
            },
        }
        StateCommand::Idle
    }

    /// Note where the cursor is in the grid.
    pub fn update_grid_cursor(&mut self, position: Point) -> (command: StateCommand)
        ensures
            final(self)@ == (TabModel {
                grid_cursor: Some(clamped_point(position, old(self)@.grid_size)),
                ..old(self)@
            }),
            command_tasks(command) == Seq::<WorkspaceTaskModel>::empty(),
            final(self).wf() == old(self).wf(),
            final(self).room() == old(self).room(),
            final(self).grid() == old(self).grid(),
    {
        self.grid_cursor = Some(clamp_point(position, self.grid_size));
        StateCommand::Idle
    }

    /// Set the size of the grid.
    pub fn set_grid_size(&mut self, size: Size)
        ensures
            final(self)@ == grid_resized(old(self)@, size),
            final(self).wf() == old(self).wf(),
            final(self).room() == old(self).room(),
            final(self).grid() == old(self).grid(),
    {
        self.grid_size = size;
        if let Some(cursor) = self.grid_cursor {
            self.grid_cursor = Some(clamp_point(cursor, size));
        }
    }
}

/// The grid of a tab after a split was asked for. A new pane for which there is
/// no terminal is closed again.
pub open spec fn grid_after_split(
    tab: TerminalTabState,
    pane: Pane,
    axis: Axis,
    terminal_id: u64,
    opened: Result<u64, String>,
) -> State<u64> {
    let divided_grid = grid_split_by(tab.grid(), axis, pane, terminal_id);
    if tab.can_split(pane) && opened is Err {
        grid_closed_by(divided_grid, tab.next_pane())
    } else {
        divided_grid
    }
}

proof fn lemma_nonempty(panes: Set<Pane>, pane: Pane)
    requires
        panes.finite(),
        panes.contains(pane),
    ensures
        panes.len() >= 1,
{
    if panes.len() == 0 {
        assert(panes =~= Set::empty());
    }
}

/// A tab with several panes has a divided layout.
proof fn lemma_several_are_divided(tab: TabModel)
    requires
        tab_ok(tab),
        tab.panes.dom().len() > 1,
    ensures
        tab.layout is Divided,
{
    if let Layout::Leaf(only) = tab.layout {
        assert(shows(tab.layout, only));
        assert(tab.panes.dom() =~= Set::empty().insert(only)) by {
            assert forall|pane: Pane| tab.panes.dom().contains(pane) implies pane == only by {
                assert(shows(tab.layout, pane));
            }
        }
    }
}

/// A split keeps the invariant of a tab.
proof fn lemma_split_ok(
    tab: TabModel,
    pane: Pane,
    axis: Axis,
    terminal_id: u64,
    widget_id: u64,
    new_pane: Pane,
)
    requires
        tab_ok(tab),
        tab.panes.contains_key(pane),
        !tab.panes.contains_key(new_pane),
        !tab.terminals.contains_key(terminal_id),
    ensures
        tab_ok(pane_split(tab, pane, axis, terminal_id, widget_id, new_pane)),
{
    let after = pane_split(tab, pane, axis, terminal_id, widget_id, new_pane);
    assert(shows(tab.layout, pane));
    assert(!shows(tab.layout, new_pane));
    divided_shows_one_more(tab.layout, pane, axis, new_pane);
    assert forall|id: u64| #[trigger] after.terminals.contains_key(id) implies is_shown(
        after.panes,
        id,
    ) by {
        if id == terminal_id {
            assert(after.panes[new_pane] == id);
        } else {
            assert(is_shown(tab.panes, id));
            let shown = choose|p: Pane| tab.panes.contains_key(p) && #[trigger] tab.panes[p] == id;
            assert(after.panes[shown] == id);
        }
    }
}

/// Closing a pane keeps the invariant of a tab.
proof fn lemma_close_ok(tab: TabModel, pane: Pane)
    requires
        tab_ok(tab),
    ensures
        tab_ok(pane_closed(tab, pane).0),
        tab.panes.dom().len() != 1 && tab.panes.contains_key(pane) ==> tab.panes.contains_key(
            successor(tab.layout, pane),
        ) && successor(tab.layout, pane) != pane,
{
    if tab.panes.dom().len() != 1 && tab.panes.contains_key(pane) {
        lemma_nonempty(tab.panes.dom(), pane);
        let sibling = successor(tab.layout, pane);
        let after = pane_closed(tab, pane).0;
        lemma_several_are_divided(tab);
        assert(shows(tab.layout, pane));
        closing_shows_one_less(tab.layout, pane);
        assert(shows(tab.layout, sibling));
        assert forall|p: Pane| after.panes.contains_key(p) implies after.terminals.contains_key(
            #[trigger] after.panes[p],
        ) by {
            assert(tab.panes[p] == after.panes[p]);
            assert(tab.panes[p] != tab.panes[pane]);
        }
        assert forall|id: u64| #[trigger] after.terminals.contains_key(id) implies is_shown(
            after.panes,
            id,
        ) by {
            assert(tab.terminals.contains_key(id));
            assert(is_shown(tab.panes, id));
            let shown = choose|p: Pane| tab.panes.contains_key(p) && #[trigger] tab.panes[p] == id;
            assert(after.panes[shown] == id);
        }
        if tab.focus == Some(pane) {
            assert(after.panes[sibling] == tab.panes[sibling]);
            assert(after.terminals.contains_key(after.panes[sibling]));
        } else {
            let focused = tab.focus->0;
            assert(after.panes[focused] == tab.panes[focused]);
            assert(after.terminals.contains_key(after.panes[focused]));
        }
    }
}

/// Another title for a terminal keeps the invariant of a tab.
proof fn lemma_rename_ok(tab: TabModel, terminal_id: u64, title: Seq<char>)
    requires
        tab_ok(tab),
    ensures
        tab_ok(terminal_renamed(tab, terminal_id, title)),
{
    let after = terminal_renamed(tab, terminal_id, title);
    let focused = tab.panes[tab.focus->0];
    assert(tab.terminals.contains_key(focused));
    assert forall|id: u64| #[trigger] after.terminals.contains_key(id) implies is_shown(
        after.panes,
        id,
    ) by {
        assert(tab.terminals.contains_key(id));
    }
}

/// The tabs by number.
pub struct TerminalWorkspaceState {
    tabs: BTreeMap<u64, TerminalTabState>,
}

/// The mathematical values of the tabs.
pub open spec fn tab_models(tabs: Map<u64, TerminalTabState>) -> Map<u64, TabModel> {
    tabs.map_values(|tab: TerminalTabState| tab@)
}

impl View for TerminalWorkspaceState {
    type V = Map<u64, TabModel>;

    closed spec fn view(&self) -> Map<u64, TabModel> {
        tab_models(self.tabs@)
    }
}

impl Default for TerminalWorkspaceState {
    fn default() -> (r: Self)
        ensures
            r.wf(),
            r@ == Map::<u64, TabModel>::empty(),
    {
        let r = TerminalWorkspaceState { tabs: BTreeMap::new() };
        assert(r@ =~= Map::<u64, TabModel>::empty());
        r
    }
}

impl TerminalWorkspaceState {
    /// Every tab keeps its invariant.
    pub closed spec fn wf(&self) -> bool {
        forall|tab_id: u64|
            self.tabs@.contains_key(tab_id) ==> (#[trigger] self.tabs@[tab_id]).wf()
    }

    /// The tab of the given number.
    pub closed spec fn tab_state(&self, tab_id: u64) -> TerminalTabState {
        self.tabs@[tab_id]
    }

    /// What the invariant says of the mathematical values.
    pub proof fn wf_tabs_ok(&self, tab_id: u64)
        requires
            self.wf(),
            self@.contains_key(tab_id),
        ensures
            tab_ok(self@[tab_id]),
            self.tab_state(tab_id)@ == self@[tab_id],
    {
        self.tabs@[tab_id].wf_tab_ok();
    }

    /// The tab of the given number.
    pub fn tab(&self, tab_id: u64) -> (tab: Option<&TerminalTabState>)
        ensures
            match tab {
                Some(tab) => self@.contains_key(tab_id) && self@[tab_id] == tab@ && *tab
                    == self.tab_state(tab_id) && (self.wf() ==> tab.wf()),
                None => !self@.contains_key(tab_id),
            },
    {
        self.tabs.get(&tab_id)
    }

    /// Add a tab.
    pub fn insert_tab(&mut self, tab_id: u64, tab: TerminalTabState)
        ensures
            final(self)@ == old(self)@.insert(tab_id, tab@),
            old(self).wf() && tab.wf() ==> final(self).wf(),
            final(self).tab_state(tab_id) == tab,
            forall|other: u64|
                other != tab_id ==> #[trigger] final(self).tab_state(other) == old(
                    self,
                ).tab_state(other),
    {
        let ghost before = self.tabs@;
        self.tabs.insert(tab_id, tab);
        assert(tab_models(self.tabs@) =~= tab_models(before).insert(tab_id, tab@));
    }

    /// Take a tab out.
    pub fn remove_tab(&mut self, tab_id: u64) -> (tab: Option<TerminalTabState>)
        ensures
            final(self)@ == old(self)@.remove(tab_id),
            old(self).wf() ==> final(self).wf(),
            match tab {
                Some(tab) => old(self)@.contains_key(tab_id) && old(self)@[tab_id] == tab@ && tab
                    == old(self).tab_state(tab_id) && (old(self).wf() ==> tab.wf()),
                None => !old(self)@.contains_key(tab_id),
            },
            forall|other: u64|
                other != tab_id ==> #[trigger] final(self).tab_state(other) == old(
                    self,
                ).tab_state(other),
    {
        let ghost before = self.tabs@;
        let tab = self.tabs.remove(&tab_id);
        assert(tab_models(self.tabs@) =~= tab_models(before).remove(tab_id));
        tab
    }

    /// The numbers of the tabs, in ascending order.
    pub fn tab_ids(&self) -> (ids: Vec<u64>)
        ensures
            ids@ == ascending(self@.dom()),
            lists(ids@, self@.dom()),
    {
        assert(self.tabs@.dom() =~= self@.dom());
        ascending_keys(&self.tabs)
    }
}

} // verus!
