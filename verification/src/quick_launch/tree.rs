//! The quick launch tree: lookup by path, and changes at a path.

use vstd::prelude::*;
use vstd::slice::slice_subrange;

use crate::quick_launch::errors::QuickLaunchError;
use crate::quick_launch::types::{LaunchModel, QuickLaunch};
use crate::text::{same_text, texts, trim_text};

verus! {

/// A folder of the tree.
#[derive(Debug)]
pub struct QuickLaunchFolder {
    pub title: String,
    pub expanded: bool,
    pub children: Vec<QuickLaunchNode>,
}

/// An entry of the tree.
#[derive(Debug)]
pub enum QuickLaunchNode {
    Folder(QuickLaunchFolder),
    Command(QuickLaunch),
}

/// The stored tree.
#[derive(Debug)]
pub struct QuickLaunchFile {
    pub root: QuickLaunchFolder,
}

/// The mathematical value of a folder.
#[verifier::ext_equal]
pub struct FolderModel {
    pub title: Seq<char>,
    pub expanded: bool,
    pub children: Seq<NodeModel>,
}

/// The mathematical value of an entry of the tree.
#[verifier::ext_equal]
pub enum NodeModel {
    Folder(FolderModel),
    Command(LaunchModel),
}

/// The mathematical value of an entry of the tree.
pub open spec fn node_model(node: QuickLaunchNode) -> NodeModel
    decreases node,
{
    match node {
        QuickLaunchNode::Folder(folder) => NodeModel::Folder(folder_model(folder)),
        QuickLaunchNode::Command(command) => NodeModel::Command(command@),
    }
}

/// The mathematical value of a folder, with that of all its descendants.
pub open spec fn folder_model(folder: QuickLaunchFolder) -> FolderModel
    decreases folder,
{
    FolderModel {
        title: folder.title@,
        expanded: folder.expanded,
        children: Seq::new(
            folder.children@.len(),
            |i: int|
                if 0 <= i < folder.children@.len() {
                    node_model(folder.children[i])
                } else {
                    arbitrary()
                },
        ),
    }
}

/// The mathematical value of a list of entries.
pub open spec fn node_models(nodes: Seq<QuickLaunchNode>) -> Seq<NodeModel> {
    nodes.map_values(|n: QuickLaunchNode| n@)
}

impl View for QuickLaunchNode {
    type V = NodeModel;

    open spec fn view(&self) -> NodeModel {
        node_model(*self)
    }
}

impl View for QuickLaunchFolder {
    type V = FolderModel;

    open spec fn view(&self) -> FolderModel {
        folder_model(*self)
    }
}

impl View for QuickLaunchFile {
    type V = FolderModel;

    open spec fn view(&self) -> FolderModel {
        self.root@
    }
}

/// A folder's value, field by field.
pub proof fn folder_value(folder: QuickLaunchFolder)
    ensures
        folder@.title == folder.title@,
        folder@.expanded == folder.expanded,
        folder@.children == node_models(folder.children@),
{
    assert(folder@.children =~= node_models(folder.children@));
}

/// `folder_value` and the effect of replacing one child, for all folders.
proof fn lemma_folder_values()
    ensures
        forall|f: QuickLaunchFolder|
            (#[trigger] folder_model(f)).children == node_models(f.children@),
        forall|s: Seq<QuickLaunchNode>, i: int, n: QuickLaunchNode|
            0 <= i < s.len() ==> #[trigger] node_models(s.update(i, n)) == node_models(s).update(
                i,
                n@,
            ),
        forall|s: Seq<QuickLaunchNode>, i: int, n: QuickLaunchNode|
            0 <= i < s.len() && n@ == s[i]@ ==> #[trigger] node_models(s.update(i, n))
                == node_models(s),
{
    assert forall|s: Seq<QuickLaunchNode>, i: int, n: QuickLaunchNode|
        0 <= i < s.len() && n@ == s[i]@ implies #[trigger] node_models(s.update(i, n))
        == node_models(s) by {
        assert(node_models(s.update(i, n)) =~= node_models(s));
    }
    assert forall|f: QuickLaunchFolder| (#[trigger] folder_model(f)).children == node_models(
        f.children@,
    ) by {
        folder_value(f);
    }
    assert forall|s: Seq<QuickLaunchNode>, i: int, n: QuickLaunchNode|
        0 <= i < s.len() implies #[trigger] node_models(s.update(i, n)) == node_models(s).update(
        i,
        n@,
    ) by {
        assert(node_models(s.update(i, n)) =~= node_models(s).update(i, n@));
    }
}

impl NodeModel {
    /// The title under which its parent lists the entry.
    pub open spec fn title(self) -> Seq<char> {
        match self {
            NodeModel::Folder(folder) => folder.title,
            NodeModel::Command(command) => command.title,
        }
    }

    /// The entry under another title.
    pub open spec fn with_title(self, title: Seq<char>) -> NodeModel {
        match self {
            NodeModel::Folder(folder) => NodeModel::Folder(FolderModel { title, ..folder }),
            NodeModel::Command(command) => NodeModel::Command(LaunchModel { title, ..command }),
        }
    }
}

/// The position of the first entry with the given title.
pub open spec fn child_position(children: Seq<NodeModel>, title: Seq<char>) -> Option<int>
    decreases children.len(),
{
    if children.len() == 0 {
        None
    } else if children[0].title() == title {
        Some(0)
    } else {
        match child_position(children.skip(1), title) {
            Some(i) => Some(i + 1),
            None => None,
        }
    }
}

/// Whether some entry has the given title.
pub open spec fn has_title(children: Seq<NodeModel>, title: Seq<char>) -> bool {
    exists|i: int| 0 <= i < children.len() && (#[trigger] children[i]).title() == title
}

/// The folder at `path`; the empty path is the starting folder itself.
pub open spec fn folder_at(folder: FolderModel, path: Seq<Seq<char>>) -> Option<FolderModel>
    decreases path.len(),
{
    if path.len() == 0 {
        Some(folder)
    } else {
        match child_position(folder.children, path[0]) {
            Some(i) => match folder.children[i] {
                NodeModel::Folder(inner) => folder_at(inner, path.skip(1)),
                NodeModel::Command(_) => None,
            },
            None => None,
        }
    }
}

/// The entry at `path`; nothing stands at the empty path.
pub open spec fn node_at(folder: FolderModel, path: Seq<Seq<char>>) -> Option<NodeModel> {
    if path.len() == 0 {
        None
    } else {
        match folder_at(folder, path.drop_last()) {
            Some(parent) => match child_position(parent.children, path.last()) {
                Some(i) => Some(parent.children[i]),
                None => None,
            },
            None => None,
        }
    }
}

/// The tree in which the folder at `path` is replaced.
pub open spec fn with_folder(
    folder: FolderModel,
    path: Seq<Seq<char>>,
    replacement: FolderModel,
) -> FolderModel
    decreases path.len(),
{
    if path.len() == 0 {
        replacement
    } else {
        match child_position(folder.children, path[0]) {
            Some(i) => match folder.children[i] {
                NodeModel::Folder(inner) => FolderModel {
                    children: folder.children.update(
                        i,
                        NodeModel::Folder(with_folder(inner, path.skip(1), replacement)),
                    ),
                    ..folder
                },
                NodeModel::Command(_) => folder,
            },
            None => folder,
        }
    }
}

/// The tree in which the entry at `path` is replaced.
pub open spec fn with_node(
    folder: FolderModel,
    path: Seq<Seq<char>>,
    replacement: NodeModel,
) -> FolderModel {
    match folder_at(folder, path.drop_last()) {
        Some(parent) => match child_position(parent.children, path.last()) {
            Some(i) => with_folder(
                folder,
                path.drop_last(),
                FolderModel { children: parent.children.update(i, replacement), ..parent },
            ),
            None => folder,
        },
        None => folder,
    }
}

/// What `child_position` finds: the least index with the title, or none.
pub proof fn child_position_is_first(children: Seq<NodeModel>, title: Seq<char>)
    ensures
        match child_position(children, title) {
            Some(i) => {
                &&& 0 <= i < children.len()
                &&& children[i].title() == title
                &&& forall|j: int| 0 <= j < i ==> (#[trigger] children[j]).title() != title
            },
            None => forall|j: int|
                0 <= j < children.len() ==> (#[trigger] children[j]).title() != title,
        },
        child_position(children, title) is Some <==> has_title(children, title),
    decreases children.len(),
{
    if children.len() > 0 && children[0].title() != title {
        let rest = children.skip(1);
        child_position_is_first(rest, title);
        assert forall|j: int| 0 < j < children.len() implies #[trigger] children[j] == rest[j
            - 1] by {}
    }
    match child_position(children, title) {
        Some(i) => {
            assert(children[i].title() == title);
        },
        None => {},
    }
}

/// The first index with the title is the one that `child_position` finds.
pub proof fn child_position_unique(children: Seq<NodeModel>, title: Seq<char>, i: int)
    requires
        0 <= i < children.len(),
        children[i].title() == title,
        forall|j: int| 0 <= j < i ==> (#[trigger] children[j]).title() != title,
    ensures
        child_position(children, title) == Some(i),
{
    child_position_is_first(children, title);
}

impl QuickLaunchNode {
    /// The title under which its parent lists the entry.
    pub fn title(&self) -> (title: &str)
        ensures
            title@ == self@.title(),
    {
        match self {
            QuickLaunchNode::Folder(folder) => folder.title.as_str(),
            QuickLaunchNode::Command(command) => command.title.as_str(),
        }
    }

    /// The entry's title, for changing.
    pub fn title_mut(&mut self) -> (title: &mut String)
        ensures
            title@ == old(self)@.title(),
            final(self)@ == old(self)@.with_title(final(title)@),
    {
        match self {
            QuickLaunchNode::Folder(folder) => &mut folder.title,
            QuickLaunchNode::Command(command) => &mut command.title,
        }
    }
}

impl QuickLaunchFolder {
    /// Whether the folder shows its children.
    pub fn is_expanded(&self) -> (r: bool)
        ensures
            r == self@.expanded,
    {
        self.expanded
    }

    /// Index of the first child with the given title.
    pub fn child_index(&self, title: &str) -> (index: Option<usize>)
        ensures
            match index {
                Some(i) => child_position(self@.children, title@) == Some(i as int) && i
                    < self.children@.len(),
                None => child_position(self@.children, title@) is None,
            },
    {
        proof {
            folder_value(*self);
        }
        let mut i: usize = 0;
        while i < self.children.len()
            invariant
                i <= self.children@.len(),
                self@.children == node_models(self.children@),
                forall|j: int| 0 <= j < i ==> (#[trigger] self@.children[j]).title() != title@,
            decreases self.children@.len() - i,
        {
            assert(self@.children[i as int] == self.children@[i as int]@);
            if same_text(self.children[i].title(), title) {
                proof {
                    child_position_unique(self@.children, title@, i as int);
                }
                return Some(i);
            }
            i += 1;
        }
        proof {
            child_position_is_first(self@.children, title@);
        }
        None
    }

    /// The folder at a path below this one.
    pub fn folder_mut(&mut self, path: &[String]) -> (found: Option<&mut QuickLaunchFolder>)
        ensures
            match found {
                Some(folder) => {
                    &&& folder_at(old(self)@, texts(path@)) == Some(folder@)
                    &&& final(self)@ == with_folder(old(self)@, texts(path@), final(folder)@)
                },
                None => folder_at(old(self)@, texts(path@)) is None && final(self)@ == old(self)@,
            },
        decreases path@.len(),
    {
        if path.len() == 0 {
            return Some(self);
        }
        let rest = slice_subrange(path, 1, path.len());
        assert(texts(rest@) =~= texts(path@).skip(1));
        proof {
            lemma_folder_values();
        }
        match self.child_index(path[0].as_str()) {
            Some(i) => match &mut self.children[i] {
                QuickLaunchNode::Folder(inner) => inner.folder_mut(rest),
                QuickLaunchNode::Command(_) => None,
            },
            None => None,
        }
    }

    /// The folder at a path below this one.
    pub fn folder(&self, path: &[String]) -> (found: Option<&QuickLaunchFolder>)
        ensures
            match found {
                Some(folder) => folder_at(self@, texts(path@)) == Some(folder@),
                None => folder_at(self@, texts(path@)) is None,
            },
        decreases path@.len(),
    {
        if path.len() == 0 {
            return Some(self);
        }
        let rest = slice_subrange(path, 1, path.len());
        assert(texts(rest@) =~= texts(path@).skip(1));
        proof {
            lemma_folder_values();
        }
        match self.child_index(path[0].as_str()) {
            Some(i) => match &self.children[i] {
                QuickLaunchNode::Folder(inner) => inner.folder(rest),
                QuickLaunchNode::Command(_) => None,
            },
            None => None,
        }
    }

    /// The entry at a path below this folder.
    pub fn node(&self, path: &[String]) -> (found: Option<&QuickLaunchNode>)
        ensures
            match found {
                Some(node) => node_at(self@, texts(path@)) == Some(node@),
                None => node_at(self@, texts(path@)) is None,
            },
    {
        if path.len() == 0 {
            return None;
        }
        let last = path.len() - 1;
        let parent = slice_subrange(path, 0, last);
        assert(texts(parent@) =~= texts(path@).drop_last());
        proof {
            lemma_folder_values();
        }
        match self.folder(parent) {
            Some(folder) => match folder.child_index(path[last].as_str()) {
                Some(i) => Some(&folder.children[i]),
                None => None,
            },
            None => None,
        }
    }

    /// The folder that holds the entry at a path, for changing.
    pub fn parent_folder_mut(&mut self, path: &[String]) -> (found: Option<&mut QuickLaunchFolder>)
        ensures
            match found {
                Some(folder) => {
                    &&& path@.len() > 0
                    &&& folder_at(old(self)@, texts(path@).drop_last()) == Some(folder@)
                    &&& final(self)@ == with_folder(
                        old(self)@,
                        texts(path@).drop_last(),
                        final(folder)@,
                    )
                },
                None => {
                    &&& path@.len() == 0 || folder_at(old(self)@, texts(path@).drop_last()) is None
                    &&& final(self)@ == old(self)@
                },
            },
    {
        if path.len() == 0 {
            return None;
        }
        let parent = slice_subrange(path, 0, path.len() - 1);
        assert(texts(parent@) =~= texts(path@).drop_last());
        self.folder_mut(parent)
    }

    /// The entry at a path below this folder, for changing.
    pub fn node_mut(&mut self, path: &[String]) -> (found: Option<&mut QuickLaunchNode>)
        ensures
            match found {
                Some(node) => {
                    &&& node_at(old(self)@, texts(path@)) == Some(node@)
                    &&& final(self)@ == with_node(old(self)@, texts(path@), final(node)@)
                },
                None => node_at(old(self)@, texts(path@)) is None && final(self)@ == old(self)@,
            },
    {
        proof {
            lemma_folder_values();
            with_folder_same(self@, texts(path@).drop_last());
        }
        match self.parent_folder_mut(path) {
            Some(folder) => {
                let i = match folder.child_index(path[path.len() - 1].as_str()) {
                    Some(i) => i,
                    None => return None,
                };
                Some(&mut folder.children[i])
            },
            None => None,
        }
    }

    /// Whether a child has the given title.
    pub fn contains_title(&self, title: &str) -> (found: bool)
        ensures
            found == has_title(self@.children, title@),
    {
        proof {
            child_position_is_first(self@.children, title@);
        }
        self.child_index(title).is_some()
    }

    /// The title under which a child can be stored: trimmed, not empty, and
    /// not taken by a child other than the one that has it now.
    pub fn normalize_title(&self, value: &str, current: Option<&str>) -> (r: Result<
        String,
        QuickLaunchError,
    >)
        ensures
            match title_for(self@.children, value@, match current {
                Some(c) => Some(c@),
                None => None,
            }) {
                Ok(title) => r is Ok && r->Ok_0@ == title,
                Err(TitleProblem::Empty) => r == Err::<String, _>(QuickLaunchError::TitleEmpty),
                Err(TitleProblem::Duplicate) => r == Err::<String, _>(
                    QuickLaunchError::TitleDuplicate,
                ),
            },
    {
        let title = value.trim();
        if title.is_empty() {
            return Err(QuickLaunchError::TitleEmpty);
        }
        if self.contains_title(title) {
            let own = match current {
                Some(current) => same_text(current, title),
                None => false,
            };
            if !own {
                return Err(QuickLaunchError::TitleDuplicate);
            }
        }
        Ok(title.to_string())
    }

    /// Take out the first child with the given title.
    pub fn remove_child(&mut self, title: &str) -> (removed: Option<QuickLaunchNode>)
        ensures
            final(self)@ == without_child(old(self)@, title@),
            match removed {
                Some(node) => child_position(old(self)@.children, title@) is Some && node@ == old(
                    self,
                )@.children[child_position(old(self)@.children, title@)->0],
                None => child_position(old(self)@.children, title@) is None,
            },
    {
        proof {
            lemma_folder_values();
        }
        match self.child_index(title) {
            Some(i) => {
                let node = self.children.remove(i);
                assert(node_models(self.children@) =~= node_models(old(self).children@).remove(
                    i as int,
                ));
                Some(node)
            },
            None => None,
        }
    }

    /// Append a child.
    pub fn push_child(&mut self, node: QuickLaunchNode)
        ensures
            final(self)@ == with_child(old(self)@, node@),
    {
        proof {
            lemma_folder_values();
        }
        self.children.push(node);
        assert(node_models(self.children@) =~= node_models(old(self).children@).push(node@));
    }
}

/// Why a title cannot be used in a folder.
pub enum TitleProblem {
    Empty,
    Duplicate,
}

/// The title that `value` gives an entry among `children`, where the entry is
/// listed as `current` so far.
pub open spec fn title_for(
    children: Seq<NodeModel>,
    value: Seq<char>,
    current: Option<Seq<char>>,
) -> Result<Seq<char>, TitleProblem> {
    let title = trim_text(value);
    if title.len() == 0 {
        Err(TitleProblem::Empty)
    } else if has_title(children, title) && current != Some(title) {
        Err(TitleProblem::Duplicate)
    } else {
        Ok(title)
    }
}

/// The folder without its first child of the given title.
pub open spec fn without_child(folder: FolderModel, title: Seq<char>) -> FolderModel {
    match child_position(folder.children, title) {
        Some(i) => FolderModel { children: folder.children.remove(i), ..folder },
        None => folder,
    }
}

/// The folder with one more child at the end.
pub open spec fn with_child(folder: FolderModel, node: NodeModel) -> FolderModel {
    FolderModel { children: folder.children.push(node), ..folder }
}

/// Replacing a folder by itself changes nothing.
pub proof fn with_folder_same(folder: FolderModel, path: Seq<Seq<char>>)
    ensures
        folder_at(folder, path) is Some ==> with_folder(folder, path, folder_at(folder, path)->0)
            == folder,
    decreases path.len(),
{
    if path.len() > 0 {
        child_position_is_first(folder.children, path[0]);
        match child_position(folder.children, path[0]) {
            Some(i) => match folder.children[i] {
                NodeModel::Folder(inner) => {
                    with_folder_same(inner, path.skip(1));
                    if folder_at(inner, path.skip(1)) is Some {
                        assert(folder.children.update(i, folder.children[i]) =~= folder.children);
                    }
                },
                NodeModel::Command(_) => {},
            },
            None => {},
        }
    }
}

/// Replacing an entry by itself changes nothing.
pub proof fn with_node_same(folder: FolderModel, path: Seq<Seq<char>>)
    ensures
        node_at(folder, path) is Some ==> with_node(folder, path, node_at(folder, path)->0)
            == folder,
{
    if node_at(folder, path) is Some {
        let parent = folder_at(folder, path.drop_last())->0;
        child_position_is_first(parent.children, path.last());
        let i = child_position(parent.children, path.last())->0;
        assert(parent.children.update(i, parent.children[i]) =~= parent.children);
        with_folder_same(folder, path.drop_last());
    }
}

impl QuickLaunchFile {
    pub fn node(&self, path: &[String]) -> (found: Option<&QuickLaunchNode>)
        ensures
            match found {
                Some(node) => node_at(self@, texts(path@)) == Some(node@),
                None => node_at(self@, texts(path@)) is None,
            },
    {
        self.root.node(path)
    }

    pub fn folder(&self, path: &[String]) -> (found: Option<&QuickLaunchFolder>)
        ensures
            match found {
                Some(folder) => folder_at(self@, texts(path@)) == Some(folder@),
                None => folder_at(self@, texts(path@)) is None,
            },
    {
        self.root.folder(path)
    }

    pub fn node_mut(&mut self, path: &[String]) -> (found: Option<&mut QuickLaunchNode>)
        ensures
            match found {
                Some(node) => {
                    &&& node_at(old(self)@, texts(path@)) == Some(node@)
                    &&& final(self)@ == with_node(old(self)@, texts(path@), final(node)@)
                },
                None => node_at(old(self)@, texts(path@)) is None && final(self)@ == old(self)@,
            },
    {
        self.root.node_mut(path)
    }

    pub fn folder_mut(&mut self, path: &[String]) -> (found: Option<&mut QuickLaunchFolder>)
        ensures
            match found {
                Some(folder) => {
                    &&& folder_at(old(self)@, texts(path@)) == Some(folder@)
                    &&& final(self)@ == with_folder(old(self)@, texts(path@), final(folder)@)
                },
                None => folder_at(old(self)@, texts(path@)) is None && final(self)@ == old(self)@,
            },
    {
        self.root.folder_mut(path)
    }

    pub fn parent_folder_mut(&mut self, path: &[String]) -> (found: Option<&mut QuickLaunchFolder>)
        ensures
            match found {
                Some(folder) => {
                    &&& path@.len() > 0
                    &&& folder_at(old(self)@, texts(path@).drop_last()) == Some(folder@)
                    &&& final(self)@ == with_folder(
                        old(self)@,
                        texts(path@).drop_last(),
                        final(folder)@,
                    )
                },
                None => {
                    &&& path@.len() == 0 || folder_at(old(self)@, texts(path@).drop_last()) is None
                    &&& final(self)@ == old(self)@
                },
            },
    {
        self.root.parent_folder_mut(path)
    }
}

/// The tree of a fresh installation: an open root folder without entries.
pub open spec fn empty_tree() -> FolderModel {
    FolderModel { title: "Root"@, expanded: true, children: Seq::empty() }
}

impl Default for QuickLaunchFile {
    fn default() -> (r: Self)
        ensures
            r@ == empty_tree(),
    {
        let root = QuickLaunchFolder {
            title: "Root".to_string(),
            expanded: true,
            children: Vec::new(),
        };
        assert(root@.children =~= Seq::<NodeModel>::empty());
        QuickLaunchFile { root }
    }
}

fn copy_nodes(nodes: &Vec<QuickLaunchNode>) -> (copy: Vec<QuickLaunchNode>)
    ensures
        node_models(copy@) == node_models(nodes@),
    decreases nodes,
{
    let mut copy: Vec<QuickLaunchNode> = Vec::new();
    let mut i: usize = 0;
    while i < nodes.len()
        invariant
            i <= nodes@.len(),
            copy@.len() == i,
            forall|j: int| 0 <= j < i ==> (#[trigger] copy@[j])@ == nodes@[j]@,
        decreases nodes@.len() - i,
    {
        copy.push(copy_node(&nodes[i]));
        i += 1;
    }
    assert(node_models(copy@) =~= node_models(nodes@));
    copy
}

fn copy_folder(folder: &QuickLaunchFolder) -> (copy: QuickLaunchFolder)
    ensures
        copy@ == folder@,
    decreases folder,
{
    proof {
        lemma_folder_values();
    }
    QuickLaunchFolder {
        title: folder.title.clone(),
        expanded: folder.expanded,
        children: copy_nodes(&folder.children),
    }
}

fn copy_node(node: &QuickLaunchNode) -> (copy: QuickLaunchNode)
    ensures
        copy@ == node@,
    decreases node,
{
    match node {
        QuickLaunchNode::Folder(folder) => QuickLaunchNode::Folder(copy_folder(folder)),
        QuickLaunchNode::Command(command) => QuickLaunchNode::Command(command.clone()),
    }
}

impl Clone for QuickLaunchNode {
    fn clone(&self) -> (r: Self)
        ensures
            r@ == self@,
    {
        copy_node(self)
    }
}

impl Clone for QuickLaunchFolder {
    fn clone(&self) -> (r: Self)
        ensures
            r@ == self@,
    {
        copy_folder(self)
    }
}

impl Clone for QuickLaunchFile {
    fn clone(&self) -> (r: Self)
        ensures
            r@ == self@,
    {
        QuickLaunchFile { root: self.root.clone() }
    }
}

} // verus!
