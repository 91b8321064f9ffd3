//! State of the quick launch widget: the tree, the interaction with it, the
//! launches in progress and the editors.

use std::collections::HashMap;
use std::sync::atomic::{AtomicBool, Ordering};
use std::sync::Arc;

use vstd::prelude::*;

use crate::geometry::Point;
use crate::quick_launch::launches::{
    arrives, distinct_ids, launches_moved, launches_ticked, launches_without_id, share_token,
    LaunchInfo, LaunchMap,
};
use crate::quick_launch::tree::{empty_tree, FolderModel, QuickLaunchFile};
use crate::quick_launch::types::{copy_strings, NodePath};
use crate::quick_launch::wizard::{EditorModel, WizardState};
use crate::text::texts;

verus! {

broadcast use vstd::std_specs::hash::group_hash_axioms;

/// Where a context menu was opened.
#[derive(Debug)]
pub enum ContextMenuTarget {
    Background,
    Folder(NodePath),
    Command(NodePath),
}

/// The mathematical value of a context menu's target.
pub enum MenuTarget {
    Background,
    Folder(Seq<Seq<char>>),
    Command(Seq<Seq<char>>),
}

impl View for ContextMenuTarget {
    type V = MenuTarget;

    open spec fn view(&self) -> MenuTarget {
        match self {
            ContextMenuTarget::Background => MenuTarget::Background,
            ContextMenuTarget::Folder(path) => MenuTarget::Folder(texts(path@)),
            ContextMenuTarget::Command(path) => MenuTarget::Command(texts(path@)),
        }
    }
}

impl Clone for ContextMenuTarget {
    fn clone(&self) -> (r: Self)
        ensures
            r@ == self@,
    {
        match self {
            ContextMenuTarget::Background => ContextMenuTarget::Background,
            ContextMenuTarget::Folder(path) => ContextMenuTarget::Folder(copy_strings(path)),
            ContextMenuTarget::Command(path) => ContextMenuTarget::Command(copy_strings(path)),
        }
    }
}

/// An open context menu.
#[derive(Debug)]
pub struct ContextMenuState {
    target: ContextMenuTarget,
    cursor: Point,
}

/// The mathematical value of a context menu.
pub struct MenuModel {
    pub target: MenuTarget,
    pub cursor: Point,
}

impl View for ContextMenuState {
    type V = MenuModel;

    closed spec fn view(&self) -> MenuModel {
        MenuModel { target: self.target@, cursor: self.cursor }
    }
}

impl Default for ContextMenuState {
    fn default() -> (r: Self)
        ensures
            r@ == (MenuModel { target: MenuTarget::Background, cursor: Point::spec_origin() }),
    {
        ContextMenuState { target: ContextMenuTarget::Background, cursor: Point::origin() }
    }
}

impl Clone for ContextMenuState {
    fn clone(&self) -> (r: Self)
        ensures
            r@ == self@,
    {
        ContextMenuState { target: self.target.clone(), cursor: self.cursor }
    }
}

impl ContextMenuState {
    pub fn with_target(self, target: ContextMenuTarget) -> (r: Self)
        ensures
            r@ == (MenuModel { target: target@, ..self@ }),
    {
        ContextMenuState { target, ..self }
    }

    pub fn with_cursor(self, cursor: Point) -> (r: Self)
        ensures
            r@ == (MenuModel { cursor, ..self@ }),
    {
        ContextMenuState { cursor, ..self }
    }

    pub fn target(&self) -> (target: ContextMenuTarget)
        ensures
            target@ == self@.target,
    {
        self.target.clone()
    }

    pub fn cursor(&self) -> (cursor: Point)
        ensures
            cursor == self@.cursor,
    {
        self.cursor
    }
}

/// Where a dragged entry would be dropped.
#[derive(Debug)]
pub enum DropTarget {
    Root,
    Folder(NodePath),
}

impl DropTarget {
    /// The path of the folder that receives the entry.
    pub open spec fn path(self) -> Seq<Seq<char>> {
        match self {
            DropTarget::Root => Seq::empty(),
            DropTarget::Folder(path) => texts(path@),
        }
    }
}

/// The mathematical value of a drop target.
pub enum DropModel {
    Root,
    Folder(Seq<Seq<char>>),
}

impl DropModel {
    /// The path of the folder that receives the entry.
    pub open spec fn path(self) -> Seq<Seq<char>> {
        match self {
            DropModel::Root => Seq::empty(),
            DropModel::Folder(path) => path,
        }
    }
}

impl View for DropTarget {
    type V = DropModel;

    open spec fn view(&self) -> DropModel {
        match self {
            DropTarget::Root => DropModel::Root,
            DropTarget::Folder(path) => DropModel::Folder(texts(path@)),
        }
    }
}

/// What an inline edit is for.
#[derive(Debug)]
pub enum InlineEditKind {
    CreateFolder { parent_path: NodePath },
    Rename { path: NodePath },
}

/// The mathematical value of what an inline edit is for.
pub enum EditKindModel {
    CreateFolder(Seq<Seq<char>>),
    Rename(Seq<Seq<char>>),
}

impl View for InlineEditKind {
    type V = EditKindModel;

    open spec fn view(&self) -> EditKindModel {
        match self {
            InlineEditKind::CreateFolder { parent_path } => EditKindModel::CreateFolder(
                texts(parent_path@),
            ),
            InlineEditKind::Rename { path } => EditKindModel::Rename(texts(path@)),
        }
    }
}

/// Active inline edit.
#[derive(Debug)]
pub struct InlineEditState {
    pub kind: InlineEditKind,
    pub value: String,
    pub error: Option<String>,
    pub id: u64,
}

/// The mathematical value of an inline edit.
pub struct EditModel {
    pub kind: EditKindModel,
    pub value: Seq<char>,
    pub error: Option<Seq<char>>,
    pub id: u64,
}

impl View for InlineEditState {
    type V = EditModel;

    open spec fn view(&self) -> EditModel {
        EditModel {
            kind: self.kind@,
            value: self.value@,
            error: crate::text::text_opt(self.error),
            id: self.id,
        }
    }
}

/// Active drag.
#[derive(Debug)]
pub struct DragState {
    pub source: NodePath,
    pub origin: Point,
    pub active: bool,
}

/// The mathematical value of a drag.
pub struct DragModel {
    pub source: Seq<Seq<char>>,
    pub origin: Point,
    pub active: bool,
}

impl View for DragState {
    type V = DragModel;

    open spec fn view(&self) -> DragModel {
        DragModel { source: texts(self.source@), origin: self.origin, active: self.active }
    }
}

/// What an error tab shows.
#[derive(Debug)]
pub struct QuickLaunchErrorState {
    title: String,
    message: String,
}

/// The mathematical value of what an error tab shows.
pub struct ErrorTabModel {
    pub title: Seq<char>,
    pub message: Seq<char>,
}

impl View for QuickLaunchErrorState {
    type V = ErrorTabModel;

    closed spec fn view(&self) -> ErrorTabModel {
        ErrorTabModel { title: self.title@, message: self.message@ }
    }
}

impl QuickLaunchErrorState {
    pub fn new(title: String, message: String) -> (r: Self)
        ensures
            r@ == (ErrorTabModel { title: title@, message: message@ }),
    {
        QuickLaunchErrorState { title, message }
    }

    pub fn title(&self) -> (title: &str)
        ensures
            title@ == self@.title,
    {
        self.title.as_str()
    }

    pub fn message(&self) -> (message: &str)
        ensures
            message@ == self@.message,
    {
        self.message.as_str()
    }
}

/// A path that may be absent, as titles.
pub open spec fn path_opt(path: Option<NodePath>) -> Option<Seq<Seq<char>>> {
    match path {
        Some(path) => Some(texts(path@)),
        None => None,
    }
}

/// The mathematical value of what may be absent.
pub open spec fn view_opt<T: View>(value: Option<T>) -> Option<T::V> {
    match value {
        Some(value) => Some(value@),
        None => None,
    }
}

/// Core state of the quick launch tree and the interaction with it.
#[derive(Debug)]
pub struct QuickLaunchState {
    data: QuickLaunchFile,
    error_tabs: HashMap<u64, QuickLaunchErrorState>,
    dirty: bool,
    persist_in_flight: bool,
    selected_path: Option<NodePath>,
    hovered_path: Option<NodePath>,
    pressed_path: Option<NodePath>,
    launching: LaunchMap,
    canceled_launches: Vec<u64>,
    next_launch_id: u64,
    blink_nonce: u64,
    context_menu: Option<ContextMenuState>,
    inline_edit: Option<InlineEditState>,
    drag: Option<DragState>,
    drop_target: Option<DropTarget>,
    cursor: Point,
    wizard: WizardState,
}

/// The mathematical value of the widget's state.
#[verifier::ext_equal]
pub struct StateModel {
    pub data: FolderModel,
    pub error_tabs: Map<u64, ErrorTabModel>,
    pub dirty: bool,
    pub persist_in_flight: bool,
    pub selected_path: Option<Seq<Seq<char>>>,
    pub hovered_path: Option<Seq<Seq<char>>>,
    pub pressed_path: Option<Seq<Seq<char>>>,
    pub launching: Map<Seq<Seq<char>>, LaunchInfo>,
    pub canceled_launches: Seq<u64>,
    pub next_launch_id: u64,
    pub blink_nonce: u64,
    pub context_menu: Option<MenuModel>,
    pub inline_edit: Option<EditModel>,
    pub drag: Option<DragModel>,
    pub drop_target: Option<DropModel>,
    pub cursor: Point,
    pub wizard: Map<u64, EditorModel>,
}

impl View for QuickLaunchState {
    type V = StateModel;

    closed spec fn view(&self) -> StateModel {
        StateModel {
            data: self.data@,
            error_tabs: self.error_tabs@.map_values(|tab: QuickLaunchErrorState| tab@),
            dirty: self.dirty,
            persist_in_flight: self.persist_in_flight,
            selected_path: path_opt(self.selected_path),
            hovered_path: path_opt(self.hovered_path),
            pressed_path: path_opt(self.pressed_path),
            launching: self.launching@,
            canceled_launches: self.canceled_launches@,
            next_launch_id: self.next_launch_id,
            blink_nonce: self.blink_nonce,
            context_menu: view_opt(self.context_menu),
            inline_edit: view_opt(self.inline_edit),
            drag: view_opt(self.drag),
            drop_target: view_opt(self.drop_target),
            cursor: self.cursor,
            wizard: self.wizard@,
        }
    }
}

/// Every launch has its own id, and the next id is above all of them.
pub open spec fn launch_ids_fresh(
    launches: Map<Seq<Seq<char>>, LaunchInfo>,
    next_launch_id: u64,
) -> bool {
    &&& distinct_ids(launches)
    &&& forall|key: Seq<Seq<char>>|
        launches.contains_key(key) ==> (#[trigger] launches[key]).id < next_launch_id
}

/// The state of a widget that was just created on a tree.
pub open spec fn initial_state(data: FolderModel) -> StateModel {
    StateModel {
        data,
        error_tabs: Map::empty(),
        dirty: false,
        persist_in_flight: false,
        selected_path: None,
        hovered_path: None,
        pressed_path: None,
        launching: Map::empty(),
        canceled_launches: Seq::empty(),
        next_launch_id: 1,
        blink_nonce: 0,
        context_menu: None,
        inline_edit: None,
        drag: None,
        drop_target: None,
        cursor: Point::spec_origin(),
        wizard: Map::empty(),
    }
}

impl Default for QuickLaunchState {
    fn default() -> (r: Self)
        ensures
            r.wf(),
            r@ == initial_state(empty_tree()),
    {
        QuickLaunchState::with_data(QuickLaunchFile::default())
    }
}

impl QuickLaunchState {
    /// The invariant of the state: launches are keyed by distinct paths, and
    /// each has an id of its own below the next one to be given.
    pub closed spec fn wf(&self) -> bool {
        &&& self.launching.wf()
        &&& launch_ids_fresh(self.launching@, self.next_launch_id)
    }

    pub fn with_data(data: QuickLaunchFile) -> (r: Self)
        ensures
            r.wf(),
            r@ == initial_state(data@),
    {
        let r = QuickLaunchState {
            data,
            error_tabs: HashMap::new(),
            dirty: false,
            persist_in_flight: false,
            selected_path: None,
            hovered_path: None,
            pressed_path: None,
            launching: LaunchMap::new(),
            canceled_launches: Vec::new(),
            next_launch_id: 1,
            blink_nonce: 0,
            context_menu: None,
            inline_edit: None,
            drag: None,
            drop_target: None,
            cursor: Point::origin(),
            wizard: WizardState::default(),
        };
        assert(r@ =~= initial_state(data@));
        r
    }

    pub fn data(&self) -> (data: &QuickLaunchFile)
        ensures
            data@ == self@.data,
    {
        &self.data
    }

    pub fn data_mut(&mut self) -> (data: &mut QuickLaunchFile)
        ensures
            data@ == old(self)@.data,
            final(self)@ == (StateModel { data: final(data)@, ..old(self)@ }),
            final(self).wf() == old(self).wf(),
    {
        &mut self.data
    }

    pub fn error_tab(&self, tab_id: u64) -> (tab: Option<&QuickLaunchErrorState>)
        ensures
            match tab {
                Some(tab) => self@.error_tabs.contains_key(tab_id) && self@.error_tabs[tab_id]
                    == tab@,
                None => !self@.error_tabs.contains_key(tab_id),
            },
    {
        self.error_tabs.get(&tab_id)
    }

    pub fn set_error_tab(&mut self, tab_id: u64, state: QuickLaunchErrorState)
        ensures
            final(self)@ == (StateModel {
                error_tabs: old(self)@.error_tabs.insert(tab_id, state@),
                ..old(self)@
            }),
            final(self).wf() == old(self).wf(),
    {
        self.error_tabs.insert(tab_id, state);
        assert(self@.error_tabs =~= old(self)@.error_tabs.insert(tab_id, state@));
    }

    pub fn remove_error_tab(&mut self, tab_id: u64)
        ensures
            final(self)@ == (StateModel {
                error_tabs: old(self)@.error_tabs.remove(tab_id),
                ..old(self)@
            }),
            final(self).wf() == old(self).wf(),
    {
        self.error_tabs.remove(&tab_id);
        assert(self@.error_tabs =~= old(self)@.error_tabs.remove(tab_id));
    }

    pub fn is_dirty(&self) -> (r: bool)
        ensures
            r == self@.dirty,
    {
        self.dirty
    }

    pub fn mark_dirty(&mut self)
        ensures
            final(self)@ == (StateModel { dirty: true, ..old(self)@ }),
            final(self).wf() == old(self).wf(),
    {
        self.dirty = true;
    }

    pub fn is_persist_in_flight(&self) -> (r: bool)
        ensures
            r == self@.persist_in_flight,
    {
        self.persist_in_flight
    }

    pub fn begin_persist(&mut self)
        ensures
            final(self)@ == (StateModel { persist_in_flight: true, ..old(self)@ }),
            final(self).wf() == old(self).wf(),
    {
        self.persist_in_flight = true;
    }

    pub fn complete_persist(&mut self)
        ensures
            final(self)@ == (StateModel { persist_in_flight: false, dirty: false, ..old(self)@ }),
            final(self).wf() == old(self).wf(),
    {
        self.persist_in_flight = false;
        self.dirty = false;
    }

    pub fn fail_persist(&mut self)
        ensures
            final(self)@ == (StateModel { persist_in_flight: false, ..old(self)@ }),
            final(self).wf() == old(self).wf(),
    {
        self.persist_in_flight = false;
    }

    pub fn selected_path(&self) -> (path: Option<&NodePath>)
        ensures
            match path {
                Some(path) => self@.selected_path == Some(texts(path@)),
                None => self@.selected_path is None,
            },
    {
        self.selected_path.as_ref()
    }

    pub fn selected_path_cloned(&self) -> (path: Option<NodePath>)
        ensures
            path_opt(path) == self@.selected_path,
    {
        match &self.selected_path {
            Some(path) => Some(copy_strings(path)),
            None => None,
        }
    }

    pub fn set_selected_path(&mut self, path: Option<NodePath>)
        ensures
            final(self)@ == (StateModel { selected_path: path_opt(path), ..old(self)@ }),
            final(self).wf() == old(self).wf(),
    {
        self.selected_path = path;
    }

    pub fn clear_selected_path(&mut self)
        ensures
            final(self)@ == (StateModel { selected_path: None, ..old(self)@ }),
            final(self).wf() == old(self).wf(),
    {
        self.selected_path = None;
    }

    pub fn hovered_path(&self) -> (path: Option<&NodePath>)
        ensures
            match path {
                Some(path) => self@.hovered_path == Some(texts(path@)),
                None => self@.hovered_path is None,
            },
    {
        self.hovered_path.as_ref()
    }

    pub fn set_hovered_path(&mut self, path: Option<NodePath>)
        ensures
            final(self)@ == (StateModel { hovered_path: path_opt(path), ..old(self)@ }),
            final(self).wf() == old(self).wf(),
    {
        self.hovered_path = path;
    }

    pub fn pressed_path(&self) -> (path: Option<&NodePath>)
        ensures
            match path {
                Some(path) => self@.pressed_path == Some(texts(path@)),
                None => self@.pressed_path is None,
            },
    {
        self.pressed_path.as_ref()
    }

    pub fn set_pressed_path(&mut self, path: Option<NodePath>)
        ensures
            final(self)@ == (StateModel { pressed_path: path_opt(path), ..old(self)@ }),
            final(self).wf() == old(self).wf(),
    {
        self.pressed_path = path;
    }

    pub fn clear_pressed_path(&mut self)
        ensures
            final(self)@ == (StateModel { pressed_path: None, ..old(self)@ }),
            final(self).wf() == old(self).wf(),
    {
        self.pressed_path = None;
    }

    pub fn cursor(&self) -> (cursor: Point)
        ensures
            cursor == self@.cursor,
    {
        self.cursor
    }

    pub fn set_cursor(&mut self, position: Point)
        ensures
            final(self)@ == (StateModel { cursor: position, ..old(self)@ }),
            final(self).wf() == old(self).wf(),
    {
        self.cursor = position;
    }

    pub fn context_menu(&self) -> (r: Option<&ContextMenuState>)
        ensures
            match r {
                Some(r) => self@.context_menu == Some(r@),
                None => self@.context_menu is None,
            },
    {
        self.context_menu.as_ref()
    }

    pub fn context_menu_cloned(&self) -> (menu: Option<ContextMenuState>)
        ensures
            view_opt(menu) == self@.context_menu,
    {
        match &self.context_menu {
            Some(menu) => Some(menu.clone()),
            None => None,
        }
    }

    pub fn set_context_menu(&mut self, menu: Option<ContextMenuState>)
        ensures
            final(self)@ == (StateModel { context_menu: view_opt(menu), ..old(self)@ }),
            final(self).wf() == old(self).wf(),
    {
        self.context_menu = menu;
    }

    pub fn clear_context_menu(&mut self)
        ensures
            final(self)@ == (StateModel { context_menu: None, ..old(self)@ }),
            final(self).wf() == old(self).wf(),
    {
        self.context_menu = None;
    }

    pub fn inline_edit(&self) -> (r: Option<&InlineEditState>)
        ensures
            match r {
                Some(r) => self@.inline_edit == Some(r@),
                None => self@.inline_edit is None,
            },
    {
        self.inline_edit.as_ref()
    }

    pub fn inline_edit_mut(&mut self) -> (r: Option<&mut InlineEditState>)
        ensures
            match r {
                Some(r) => old(self)@.inline_edit == Some(r@) && final(self)@ == (StateModel {
                    inline_edit: Some(final(r)@),
                    ..old(self)@
                }),
                None => old(self)@.inline_edit is None && final(self)@ == old(self)@,
            },
            final(self).wf() == old(self).wf(),
    {
        self.inline_edit.as_mut()
    }

    pub fn set_inline_edit(&mut self, edit: Option<InlineEditState>)
        ensures
            final(self)@ == (StateModel { inline_edit: view_opt(edit), ..old(self)@ }),
            final(self).wf() == old(self).wf(),
    {
        self.inline_edit = edit;
    }

    pub fn clear_inline_edit(&mut self)
        ensures
            final(self)@ == (StateModel { inline_edit: None, ..old(self)@ }),
            final(self).wf() == old(self).wf(),
    {
        self.inline_edit = None;
    }

    pub fn take_inline_edit(&mut self) -> (r: Option<InlineEditState>)
        ensures
            view_opt(r) == old(self)@.inline_edit,
            final(self)@ == (StateModel { inline_edit: None, ..old(self)@ }),
            final(self).wf() == old(self).wf(),
    {
        self.inline_edit.take()
    }

    pub fn drag(&self) -> (r: Option<&DragState>)
        ensures
            match r {
                Some(r) => self@.drag == Some(r@),
                None => self@.drag is None,
            },
    {
        self.drag.as_ref()
    }

    pub fn drag_mut(&mut self) -> (r: Option<&mut DragState>)
        ensures
            match r {
                Some(r) => old(self)@.drag == Some(r@) && final(self)@ == (StateModel {
                    drag: Some(final(r)@),
                    ..old(self)@
                }),
                None => old(self)@.drag is None && final(self)@ == old(self)@,
            },
            final(self).wf() == old(self).wf(),
    {
        self.drag.as_mut()
    }

    pub fn set_drag(&mut self, drag: Option<DragState>)
        ensures
            final(self)@ == (StateModel { drag: view_opt(drag), ..old(self)@ }),
            final(self).wf() == old(self).wf(),
    {
        self.drag = drag;
    }

    pub fn take_drag(&mut self) -> (r: Option<DragState>)
        ensures
            view_opt(r) == old(self)@.drag,
            final(self)@ == (StateModel { drag: None, ..old(self)@ }),
            final(self).wf() == old(self).wf(),
    {
        self.drag.take()
    }

    pub fn clear_drag(&mut self)
        ensures
            final(self)@ == (StateModel { drag: None, ..old(self)@ }),
            final(self).wf() == old(self).wf(),
    {
        self.drag = None;
    }

    pub fn drop_target(&self) -> (r: Option<&DropTarget>)
        ensures
            match r {
                Some(r) => self@.drop_target == Some(r@),
                None => self@.drop_target is None,
            },
    {
        self.drop_target.as_ref()
    }

    pub fn set_drop_target(&mut self, target: Option<DropTarget>)
        ensures
            final(self)@ == (StateModel { drop_target: view_opt(target), ..old(self)@ }),
            final(self).wf() == old(self).wf(),
    {
        self.drop_target = target;
    }

    pub fn take_drop_target(&mut self) -> (r: Option<DropTarget>)
        ensures
            view_opt(r) == old(self)@.drop_target,
            final(self)@ == (StateModel { drop_target: None, ..old(self)@ }),
            final(self).wf() == old(self).wf(),
    {
        self.drop_target.take()
    }

    pub fn clear_drop_target(&mut self)
        ensures
            final(self)@ == (StateModel { drop_target: None, ..old(self)@ }),
            final(self).wf() == old(self).wf(),
    {
        self.drop_target = None;
    }

    pub fn launching(&self) -> (launches: &LaunchMap)
        requires
            self.wf(),
        ensures
            launches@ == self@.launching,
            launches.wf(),
    {
        &self.launching
    }

    pub fn has_active_launches(&self) -> (r: bool)
        requires
            self.wf(),
        ensures
            r == (self@.launching != Map::<Seq<Seq<char>>, LaunchInfo>::empty()),
    {
        !self.launching.is_empty()
    }

    pub fn is_launching(&self, path: &NodePath) -> (r: bool)
        requires
            self.wf(),
        ensures
            r == self@.launching.contains_key(texts(path@)),
    {
        self.launching.contains_key(path.as_slice())
    }

    pub fn launch_info(&self, path: &[String]) -> (info: Option<&LaunchInfo>)
        requires
            self.wf(),
        ensures
            match info {
                Some(info) => self@.launching.contains_key(texts(path@)) && self@.launching[texts(
                    path@,
                )] == *info,
                None => !self@.launching.contains_key(texts(path@)),
            },
    {
        self.launching.get(path)
    }

    /// Whether there is an id left for one more launch.
    pub fn has_free_launch_id(&self) -> (r: bool)
        ensures
            r == (self@.next_launch_id < u64::MAX),
    {
        self.next_launch_id < u64::MAX
    }

    /// Register a launch under a fresh id. The last id cannot be given out.
    pub fn begin_launch(&mut self, path: NodePath, cancel: Arc<AtomicBool>) -> (id: u64)
        requires
            old(self).wf(),
            old(self)@.next_launch_id < u64::MAX,
        ensures
            final(self).wf(),
            id == old(self)@.next_launch_id,
            final(self)@ == launch_begun(old(self)@, texts(path@), cancel),
    {
        let id: u64 = self.next_launch_id;
        self.next_launch_id += 1;
        let info = LaunchInfo {
            id,
            launch_ticks: 0,
            is_indicator_highlighted: false,
            cancel,
        };
        self.launching.insert(path, info);
        id
    }

    pub fn remove_launch(&mut self, path: &[String]) -> (info: Option<LaunchInfo>)
        requires
            old(self).wf(),
        ensures
            final(self).wf(),
            final(self)@ == (StateModel {
                launching: old(self)@.launching.remove(texts(path@)),
                ..old(self)@
            }),
            match info {
                Some(info) => old(self)@.launching.contains_key(texts(path@)) && old(
                    self,
                )@.launching[texts(path@)] == info,
                None => !old(self)@.launching.contains_key(texts(path@)),
            },
    {
        self.launching.remove(path)
    }

    /// Take out the launch of the given id.
    pub fn remove_launch_by_id(&mut self, launch_id: u64)
        requires
            old(self).wf(),
        ensures
            final(self).wf(),
            final(self)@ == (StateModel {
                launching: launches_without_id(old(self)@.launching, launch_id),
                ..old(self)@
            }),
    {
        self.launching.remove_by_id(launch_id);
    }

    /// Let the launches at or below `source` follow it to `target`.
    pub fn relocate_launches(&mut self, source: &[String], target: &[String])
        requires
            old(self).wf(),
        ensures
            final(self).wf(),
            final(self)@ == (StateModel {
                launching: launches_moved(
                    old(self)@.launching,
                    texts(source@),
                    texts(target@),
                ),
                ..old(self)@
            }),
    {
        proof {
            launches_moved_ids_fresh(
                self.launching@,
                texts(source@),
                texts(target@),
                self.next_launch_id,
            );
        }
        self.launching.relocate(source, target);
    }

    /// Let one tick pass for every launch.
    pub fn tick_launches(&mut self)
        requires
            old(self).wf(),
        ensures
            final(self).wf(),
            final(self)@ == (StateModel {
                launching: launches_ticked(old(self)@.launching, old(self)@.blink_nonce),
                ..old(self)@
            }),
    {
        self.launching.tick(self.blink_nonce);
    }

    /// Ask the launch at `path` to stop: raise its flag, note its id, and hand
    /// the flag out. What the flag holds from then on is a matter between
    /// threads and is not stated.
    pub fn cancel_launch(&mut self, path: &[String]) -> (token: Option<Arc<AtomicBool>>)
        requires
            old(self).wf(),
        ensures
            final(self).wf(),
            final(self)@ == launch_canceled(old(self)@, texts(path@)),
            token == cancel_token_at(old(self)@, texts(path@)),
    {
        let (id, token): (u64, Arc<AtomicBool>) = match self.launching.get(path) {
            Some(info) => {
                info.cancel.store(true, Ordering::Relaxed);
                (info.id, share_token(&info.cancel))
            },
            None => {
                return None;
            },
        };
        self.canceled_launches.push(id);
        Some(token)
    }

    /// Forget the first note of a canceled id; whether there was one.
    pub fn take_canceled_launch(&mut self, launch_id: u64) -> (taken: bool)
        ensures
            taken == old(self)@.canceled_launches.contains(launch_id),
            final(self)@ == (StateModel {
                canceled_launches: without_first(old(self)@.canceled_launches, launch_id),
                ..old(self)@
            }),
            final(self).wf() == old(self).wf(),
    {
        let ghost all = self.canceled_launches@;
        let mut i: usize = 0;
        while i < self.canceled_launches.len()
            invariant
                *self == *old(self),
                all == self.canceled_launches@,
                i <= all.len(),
                forall|j: int| 0 <= j < i ==> all[j] != launch_id,
            decreases all.len() - i,
        {
            if self.canceled_launches[i] == launch_id {
                proof {
                    without_first_at(all, launch_id, i as int);
                }
                self.canceled_launches.remove(i);
                return true;
            }
            i += 1;
        }
        proof {
            without_first_absent(all, launch_id);
        }
        false
    }

    pub fn blink_nonce(&self) -> (nonce: u64)
        ensures
            nonce == self@.blink_nonce,
    {
        self.blink_nonce
    }

    pub fn advance_blink_nonce(&mut self)
        ensures
            final(self)@ == (StateModel {
                blink_nonce: next_nonce(old(self)@.blink_nonce),
                ..old(self)@
            }),
            final(self).wf() == old(self).wf(),
    {
        self.blink_nonce = self.blink_nonce.wrapping_add(1);
    }

    pub fn set_blink_nonce(&mut self, value: u64)
        ensures
            final(self)@ == (StateModel { blink_nonce: value, ..old(self)@ }),
            final(self).wf() == old(self).wf(),
    {
        self.blink_nonce = value;
    }

    pub fn wizard(&self) -> (wizard: &WizardState)
        ensures
            wizard@ == self@.wizard,
    {
        &self.wizard
    }

    pub fn wizard_mut(&mut self) -> (wizard: &mut WizardState)
        ensures
            wizard@ == old(self)@.wizard,
            final(self)@ == (StateModel { wizard: final(wizard)@, ..old(self)@ }),
            final(self).wf() == old(self).wf(),
    {
        &mut self.wizard
    }
}

/// The blink counter one step later; it wraps around.
pub open spec fn next_nonce(nonce: u64) -> u64 {
    if nonce == u64::MAX {
        0
    } else {
        (nonce + 1) as u64
    }
}

/// The state after a launch was registered at `path`.
pub open spec fn launch_begun(
    state: StateModel,
    path: Seq<Seq<char>>,
    cancel: Arc<AtomicBool>,
) -> StateModel {
    StateModel {
        launching: state.launching.insert(
            path,
            LaunchInfo {
                id: state.next_launch_id,
                launch_ticks: 0,
                is_indicator_highlighted: false,
                cancel,
            },
        ),
        next_launch_id: (state.next_launch_id + 1) as u64,
        ..state
    }
}

/// The state after the launch at `path`, if any, was asked to stop.
pub open spec fn launch_canceled(state: StateModel, path: Seq<Seq<char>>) -> StateModel {
    if state.launching.contains_key(path) {
        StateModel {
            canceled_launches: state.canceled_launches.push(state.launching[path].id),
            ..state
        }
    } else {
        state
    }
}

/// The cancel token of the launch at `path`, if there is one.
pub open spec fn cancel_token_at(state: StateModel, path: Seq<Seq<char>>) -> Option<
    Arc<AtomicBool>,
> {
    if state.launching.contains_key(path) {
        Some(state.launching[path].cancel)
    } else {
        None
    }
}

/// `list` without the first occurrence of `value`.
pub open spec fn without_first(list: Seq<u64>, value: u64) -> Seq<u64>
    decreases list.len(),
{
    if list.len() == 0 {
        list
    } else if list[0] == value {
        list.skip(1)
    } else {
        seq![list[0]] + without_first(list.skip(1), value)
    }
}

proof fn without_first_at(list: Seq<u64>, value: u64, i: int)
    requires
        0 <= i < list.len(),
        list[i] == value,
        forall|j: int| 0 <= j < i ==> list[j] != value,
    ensures
        without_first(list, value) == list.remove(i),
    decreases list.len(),
{
    if i == 0 {
        assert(list.skip(1) =~= list.remove(0));
    } else {
        without_first_at(list.skip(1), value, i - 1);
        assert(seq![list[0]] + list.skip(1).remove(i - 1) =~= list.remove(i));
    }
}

proof fn without_first_absent(list: Seq<u64>, value: u64)
    requires
        forall|j: int| 0 <= j < list.len() ==> list[j] != value,
    ensures
        without_first(list, value) == list,
        !list.contains(value),
    decreases list.len(),
{
    if list.len() > 0 {
        without_first_absent(list.skip(1), value);
        assert(seq![list[0]] + list.skip(1) =~= list);
    }
}

/// Launches that follow a moved entry keep distinct ids below the next one.
proof fn launches_moved_ids_fresh(
    launches: Map<Seq<Seq<char>>, LaunchInfo>,
    source: Seq<Seq<char>>,
    target: Seq<Seq<char>>,
    next_launch_id: u64,
)
    requires
        launch_ids_fresh(launches, next_launch_id),
    ensures
        launch_ids_fresh(launches_moved(launches, source, target), next_launch_id),
{
    let moved = launches_moved(launches, source, target);
    assert forall|a: Seq<Seq<char>>, b: Seq<Seq<char>>|
        moved.contains_key(a) && moved.contains_key(b) && #[trigger] moved[a].id
            == #[trigger] moved[b].id implies a == b by {
        let from_a = if arrives(launches, source, target, a) {
            source + a.skip(target.len() as int)
        } else {
            a
        };
        let from_b = if arrives(launches, source, target, b) {
            source + b.skip(target.len() as int)
        } else {
            b
        };
        assert(launches[from_a].id == launches[from_b].id);
        assert(from_a == from_b);
        if arrives(launches, source, target, a) {
            assert(source =~= from_a.subrange(0, source.len() as int));
            assert(a =~= target + a.skip(target.len() as int));
            assert(a.skip(target.len() as int) =~= from_a.skip(source.len() as int));
        }
        if arrives(launches, source, target, b) {
            assert(source =~= from_b.subrange(0, source.len() as int));
            assert(b =~= target + b.skip(target.len() as int));
            assert(b.skip(target.len() as int) =~= from_b.skip(source.len() as int));
        }
    }
}

} // verus!
