//! How changes at one path of the tree show at another.

use vstd::prelude::*;

use crate::quick_launch::tree::{
    child_position, child_position_is_first, child_position_unique, folder_at, has_title, node_at,
    with_child, with_folder, with_node, without_child, FolderModel, NodeModel,
};

verus! {

/// The titles of a list of entries.
pub open spec fn titles(children: Seq<NodeModel>) -> Seq<Seq<char>> {
    children.map_values(|n: NodeModel| n.title())
}

/// The tree without the entry at `path`.
pub open spec fn without_node(root: FolderModel, path: Seq<Seq<char>>) -> FolderModel {
    match folder_at(root, path.drop_last()) {
        Some(parent) => with_folder(root, path.drop_last(), without_child(parent, path.last())),
        None => root,
    }
}

/// The tree with one more entry in the folder at `path`.
pub open spec fn with_node_in(
    root: FolderModel,
    path: Seq<Seq<char>>,
    node: NodeModel,
) -> FolderModel {
    match folder_at(root, path) {
        Some(folder) => with_folder(root, path, with_child(folder, node)),
        None => root,
    }
}

/// Only the titles decide where an entry is found.
pub proof fn position_by_titles(a: Seq<NodeModel>, b: Seq<NodeModel>, title: Seq<char>)
    requires
        titles(a) == titles(b),
    ensures
        child_position(a, title) == child_position(b, title),
        has_title(a, title) == has_title(b, title),
{
    child_position_is_first(a, title);
    child_position_is_first(b, title);
    assert(a.len() == titles(a).len() && b.len() == titles(b).len());
    assert forall|i: int| 0 <= i < a.len() implies #[trigger] a[i].title() == b[i].title() by {
        assert(titles(a)[i] == titles(b)[i]);
    }
    match child_position(a, title) {
        Some(i) => {
            assert(b[i].title() == title);
            assert forall|j: int| 0 <= j < i implies (#[trigger] b[j]).title() != title by {
                assert(a[j].title() != title);
            }
            child_position_unique(b, title, i);
        },
        None => {
            assert forall|j: int| 0 <= j < b.len() implies (#[trigger] b[j]).title() != title by {
                assert(a[j].title() != title);
            }
        },
    }
}

/// Replacing an entry by one of the same title keeps the titles.
pub proof fn update_keeps_titles(children: Seq<NodeModel>, i: int, node: NodeModel)
    requires
        0 <= i < children.len(),
        node.title() == children[i].title(),
    ensures
        titles(children.update(i, node)) == titles(children),
{
    assert(titles(children.update(i, node)) =~= titles(children));
}

/// A folder that was put somewhere under its old title is found there again.
pub proof fn with_folder_found(root: FolderModel, path: Seq<Seq<char>>, folder: FolderModel)
    requires
        folder_at(root, path) is Some,
        path.len() > 0 ==> folder.title == folder_at(root, path)->0.title,
    ensures
        folder_at(with_folder(root, path, folder), path) == Some(folder),
        path.len() > 0 ==> with_folder(root, path, folder).title == root.title,
        path.len() > 0 ==> titles(with_folder(root, path, folder).children) == titles(
            root.children,
        ),
    decreases path.len(),
{
    if path.len() > 0 {
        child_position_is_first(root.children, path[0]);
        let i = child_position(root.children, path[0])->0;
        let inner = root.children[i]->Folder_0;
        let rest = path.skip(1);
        with_folder_found(inner, rest, folder);
        let changed = with_folder(inner, rest, folder);
        assert(changed.title == inner.title);
        let node = NodeModel::Folder(changed);
        update_keeps_titles(root.children, i, node);
        position_by_titles(root.children, root.children.update(i, node), path[0]);
    }
}

proof fn lemma_position_after_removal(children: Seq<NodeModel>, title: Seq<char>, other: Seq<char>)
    requires
        title != other,
    ensures
        match child_position(children, title) {
            None => true,
            Some(k) => match child_position(children, other) {
                None => child_position(children.remove(k), other) is None,
                Some(i) => child_position(children.remove(k), other) is Some && children.remove(
                    k,
                )[child_position(children.remove(k), other)->0] == children[i],
            },
        },
{
    child_position_is_first(children, title);
    child_position_is_first(children, other);
    match child_position(children, title) {
        None => {},
        Some(k) => {
            let rest = children.remove(k);
            child_position_is_first(rest, other);
            assert forall|j: int| 0 <= j < rest.len() implies #[trigger] rest[j] == children[if j
                < k {
                j
            } else {
                j + 1
            }] by {}
            match child_position(children, other) {
                None => {},
                Some(i) => {
                    let j = if i < k {
                        i
                    } else {
                        i - 1
                    };
                    assert(rest[j] == children[i]);
                    assert forall|m: int| 0 <= m < j implies (#[trigger] rest[m]).title()
                        != other by {
                        let from = if m < k {
                            m
                        } else {
                            m + 1
                        };
                        assert(rest[m] == children[from]);
                        assert(from < i);
                    }
                    child_position_unique(rest, other, j);
                },
            }
        },
    }
}

/// Taking out an entry keeps every folder that does not lie in it. Such a
/// folder keeps its title and, unless it is the one that held the entry, the
/// titles of its children.
pub proof fn removal_keeps_folder(
    root: FolderModel,
    source: Seq<Seq<char>>,
    target: Seq<Seq<char>>,
)
    requires
        node_at(root, source) is Some,
        folder_at(root, target) is Some,
        !source.is_prefix_of(target),
    ensures
        folder_at(without_node(root, source), target) is Some,
        folder_at(without_node(root, source), target)->0.title == folder_at(root, target)->0.title,
        target != source.drop_last() ==> titles(
            folder_at(without_node(root, source), target)->0.children,
        ) == titles(folder_at(root, target)->0.children),
        without_node(root, source).title == root.title,
        source.len() > 1 ==> titles(without_node(root, source).children) == titles(root.children),
    decreases source.len(),
{
    let after = without_node(root, source);
    let title = source.last();
    if source.len() == 1 {
        assert(source.drop_last() =~= Seq::empty());
        if target.len() == 0 {
            assert(target =~= source.drop_last());
        } else {
            assert(target[0] != title) by {
                if target[0] == title {
                    assert(source =~= target.subrange(0, 1));
                }
            }
            lemma_position_after_removal(root.children, title, target[0]);
        }
    } else {
        child_position_is_first(root.children, source[0]);
        let parent = source.drop_last();
        assert(parent[0] == source[0]);
        let i = child_position(root.children, source[0])->0;
        let inner = root.children[i]->Folder_0;
        let rest = source.skip(1);
        assert(rest.drop_last() =~= parent.skip(1));
        assert(rest.last() == title);
        assert(node_at(inner, rest) == node_at(root, source));
        let inner_after = without_node(inner, rest);
        let node = NodeModel::Folder(inner_after);
        assert(after.children == root.children.update(i, node));
        if target.len() == 0 {
            assert(!rest.is_prefix_of(Seq::<Seq<char>>::empty()));
            removal_keeps_folder(inner, rest, Seq::empty());
            update_keeps_titles(root.children, i, node);
        } else if target[0] == source[0] {
            let target_rest = target.skip(1);
            assert(!rest.is_prefix_of(target_rest)) by {
                if rest.is_prefix_of(target_rest) {
                    assert(source =~= target.subrange(0, source.len() as int)) by {
                        assert forall|j: int| 0 <= j < source.len() implies source[j]
                            == target[j] by {
                            if j > 0 {
                                assert(rest[j - 1] == target_rest.subrange(
                                    0,
                                    rest.len() as int,
                                )[j - 1]);
                            }
                        }
                    }
                }
            }
            removal_keeps_folder(inner, rest, target_rest);
            update_keeps_titles(root.children, i, node);
            position_by_titles(root.children, after.children, target[0]);
            if target != source.drop_last() {
                assert(target_rest != rest.drop_last()) by {
                    if target_rest == rest.drop_last() {
                        assert(target =~= source.drop_last()) by {
                            assert forall|j: int| 0 <= j < target.len() implies target[j]
                                == source.drop_last()[j] by {
                                if j > 0 {
                                    assert(target_rest[j - 1] == rest.drop_last()[j - 1]);
                                }
                            }
                        }
                    }
                }
            }
        } else {
            assert(!rest.is_prefix_of(Seq::<Seq<char>>::empty()));
            removal_keeps_folder(inner, rest, Seq::empty());
            update_keeps_titles(root.children, i, node);
            position_by_titles(root.children, after.children, target[0]);
            child_position_is_first(root.children, target[0]);
        }
    }
}

/// An entry that was appended to a folder without its title is found there.
pub proof fn appended_node_found(root: FolderModel, path: Seq<Seq<char>>, node: NodeModel)
    requires
        folder_at(root, path) is Some,
        !has_title(folder_at(root, path)->0.children, node.title()),
    ensures
        node_at(with_node_in(root, path, node), path.push(node.title())) == Some(node),
{
    let folder = folder_at(root, path)->0;
    let grown = with_child(folder, node);
    with_folder_found(root, path, grown);
    assert(path.push(node.title()).drop_last() =~= path);
    assert forall|j: int| 0 <= j < folder.children.len() implies (#[trigger]
    grown.children[j]).title() != node.title() by {
        assert(grown.children[j] == folder.children[j]);
    }
    child_position_unique(grown.children, node.title(), folder.children.len() as int);
}

/// A moved entry is found under its title in the folder that it was moved to.
pub proof fn moved_node_found(
    root: FolderModel,
    source: Seq<Seq<char>>,
    target: Seq<Seq<char>>,
)
    requires
        node_at(root, source) is Some,
        folder_at(root, target) is Some,
        !source.is_prefix_of(target),
        target != source.drop_last(),
        !has_title(folder_at(root, target)->0.children, source.last()),
    ensures
        node_at(
            with_node_in(without_node(root, source), target, node_at(root, source)->0),
            target.push(source.last()),
        ) == node_at(root, source),
{
    let node = node_at(root, source)->0;
    let parent = folder_at(root, source.drop_last())->0;
    child_position_is_first(parent.children, source.last());
    assert(node.title() == source.last());
    removal_keeps_folder(root, source, target);
    let removed = without_node(root, source);
    position_by_titles(
        folder_at(removed, target)->0.children,
        folder_at(root, target)->0.children,
        source.last(),
    );
    appended_node_found(removed, target, node);
}

/// Whether no two entries of one folder share a title, in the folder and in
/// all folders below it.
pub open spec fn unique_titles(folder: FolderModel) -> bool
    decreases folder,
{
    &&& titles(folder.children).no_duplicates()
    &&& forall|i: int|
        0 <= i < folder.children.len() ==> match #[trigger] folder.children[i] {
            NodeModel::Folder(inner) => unique_titles(inner),
            NodeModel::Command(_) => true,
        }
}

/// Whether an entry has unique titles below it.
pub open spec fn unique_below(node: NodeModel) -> bool {
    match node {
        NodeModel::Folder(inner) => unique_titles(inner),
        NodeModel::Command(_) => true,
    }
}

/// Folders of a tree with unique titles have unique titles.
pub proof fn unique_at(root: FolderModel, path: Seq<Seq<char>>)
    requires
        unique_titles(root),
    ensures
        folder_at(root, path) matches Some(folder) ==> unique_titles(folder),
    decreases path.len(),
{
    if path.len() > 0 {
        child_position_is_first(root.children, path[0]);
        match child_position(root.children, path[0]) {
            Some(i) => match root.children[i] {
                NodeModel::Folder(inner) => {
                    unique_at(inner, path.skip(1));
                },
                NodeModel::Command(_) => {},
            },
            None => {},
        }
    }
}

/// Entries of a tree with unique titles have unique titles below them.
pub proof fn unique_node_at(root: FolderModel, path: Seq<Seq<char>>)
    requires
        unique_titles(root),
    ensures
        node_at(root, path) matches Some(node) ==> unique_below(node),
{
    if path.len() > 0 {
        unique_at(root, path.drop_last());
        match folder_at(root, path.drop_last()) {
            Some(parent) => {
                child_position_is_first(parent.children, path.last());
            },
            None => {},
        }
    }
}

/// Replacing a folder by one with unique titles and the same title keeps the
/// titles of the tree unique.
pub proof fn unique_with_folder(root: FolderModel, path: Seq<Seq<char>>, folder: FolderModel)
    requires
        unique_titles(root),
        unique_titles(folder),
        folder_at(root, path) is Some,
        path.len() > 0 ==> folder.title == folder_at(root, path)->0.title,
    ensures
        unique_titles(with_folder(root, path, folder)),
    decreases path.len(),
{
    if path.len() > 0 {
        child_position_is_first(root.children, path[0]);
        let i = child_position(root.children, path[0])->0;
        let inner = root.children[i]->Folder_0;
        let rest = path.skip(1);
        unique_with_folder(inner, rest, folder);
        with_folder_found(inner, rest, folder);
        let changed = with_folder(inner, rest, folder);
        assert(changed.title == inner.title);
        let node = NodeModel::Folder(changed);
        update_keeps_titles(root.children, i, node);
    }
}

/// A folder with unique titles keeps them when an entry is taken out.
pub proof fn unique_without_child(folder: FolderModel, title: Seq<char>)
    requires
        unique_titles(folder),
    ensures
        unique_titles(without_child(folder, title)),
{
    child_position_is_first(folder.children, title);
    match child_position(folder.children, title) {
        Some(i) => {
            let after = folder.children.remove(i);
            let from = |j: int|
                if j < i {
                    j
                } else {
                    j + 1
                };
            assert forall|j: int| 0 <= j < after.len() implies #[trigger] after[j]
                == folder.children[from(j)] by {}
            assert forall|j: int, k: int|
                0 <= j < after.len() && 0 <= k < after.len() && j != k implies titles(after)[j]
                != titles(after)[k] by {
                assert(titles(after)[j] == titles(folder.children)[from(j)]);
                assert(titles(after)[k] == titles(folder.children)[from(k)]);
            }
            assert forall|j: int| 0 <= j < after.len() implies match #[trigger] after[j] {
                NodeModel::Folder(inner) => unique_titles(inner),
                NodeModel::Command(_) => true,
            } by {
                assert(after[j] == folder.children[from(j)]);
            }
        },
        None => {},
    }
}

/// A folder with unique titles keeps them when an entry of another title is
/// appended.
pub proof fn unique_with_child(folder: FolderModel, node: NodeModel)
    requires
        unique_titles(folder),
        unique_below(node),
        !has_title(folder.children, node.title()),
    ensures
        unique_titles(with_child(folder, node)),
{
    let after = folder.children.push(node);
    let n = folder.children.len() as int;
    assert forall|j: int, k: int|
        0 <= j < after.len() && 0 <= k < after.len() && j != k implies titles(after)[j] != titles(
        after,
    )[k] by {
        if j < n {
            assert(titles(after)[j] == titles(folder.children)[j]);
            assert(folder.children[j].title() != node.title());
        }
        if k < n {
            assert(titles(after)[k] == titles(folder.children)[k]);
            assert(folder.children[k].title() != node.title());
        }
    }
    assert forall|j: int| 0 <= j < after.len() implies match #[trigger] after[j] {
        NodeModel::Folder(inner) => unique_titles(inner),
        NodeModel::Command(_) => true,
    } by {
        if j < n {
            assert(after[j] == folder.children[j]);
        }
    }
}

/// A folder with unique titles keeps them when the entry of one title is
/// replaced by one whose title is the same or not in the folder.
pub proof fn unique_with_child_replaced(folder: FolderModel, i: int, node: NodeModel)
    requires
        unique_titles(folder),
        0 <= i < folder.children.len(),
        unique_below(node),
        node.title() == folder.children[i].title() || !has_title(folder.children, node.title()),
    ensures
        unique_titles(FolderModel { children: folder.children.update(i, node), ..folder }),
{
    let after = folder.children.update(i, node);
    assert forall|j: int, k: int|
        0 <= j < after.len() && 0 <= k < after.len() && j != k implies titles(after)[j] != titles(
        after,
    )[k] by {
        assert(j != i ==> titles(after)[j] == titles(folder.children)[j]);
        assert(k != i ==> titles(after)[k] == titles(folder.children)[k]);
        assert(titles(folder.children)[j] != titles(folder.children)[k]);
        assert(folder.children[j].title() == titles(folder.children)[j]);
        assert(folder.children[k].title() == titles(folder.children)[k]);
    }
    assert forall|j: int| 0 <= j < after.len() implies match #[trigger] after[j] {
        NodeModel::Folder(inner) => unique_titles(inner),
        NodeModel::Command(_) => true,
    } by {
        if j != i {
            assert(after[j] == folder.children[j]);
        }
    }
}

/// A tree keeps unique titles when an entry is taken out.
pub proof fn unique_without_node(root: FolderModel, path: Seq<Seq<char>>)
    requires
        unique_titles(root),
    ensures
        unique_titles(without_node(root, path)),
{
    let parent = path.drop_last();
    unique_at(root, parent);
    match folder_at(root, parent) {
        Some(folder) => {
            unique_without_child(folder, path.last());
            unique_with_folder(root, parent, without_child(folder, path.last()));
        },
        None => {},
    }
}

/// A tree keeps unique titles when an entry of a new title is appended to a
/// folder.
pub proof fn unique_with_node_in(root: FolderModel, path: Seq<Seq<char>>, node: NodeModel)
    requires
        unique_titles(root),
        unique_below(node),
        folder_at(root, path) matches Some(folder) ==> !has_title(folder.children, node.title()),
    ensures
        unique_titles(with_node_in(root, path, node)),
{
    unique_at(root, path);
    match folder_at(root, path) {
        Some(folder) => {
            unique_with_child(folder, node);
            unique_with_folder(root, path, with_child(folder, node));
        },
        None => {},
    }
}

/// A tree keeps unique titles when an entry is replaced by one whose title is
/// the same or not among its siblings.
pub proof fn unique_with_node(root: FolderModel, path: Seq<Seq<char>>, node: NodeModel)
    requires
        unique_titles(root),
        unique_below(node),
        folder_at(root, path.drop_last()) matches Some(parent) ==> (node.title() == path.last()
            || !has_title(parent.children, node.title())),
    ensures
        unique_titles(with_node(root, path, node)),
{
    let parent_path = path.drop_last();
    unique_at(root, parent_path);
    match folder_at(root, parent_path) {
        Some(parent) => {
            child_position_is_first(parent.children, path.last());
            match child_position(parent.children, path.last()) {
                Some(i) => {
                    unique_with_child_replaced(parent, i, node);
                    unique_with_folder(
                        root,
                        parent_path,
                        FolderModel { children: parent.children.update(i, node), ..parent },
                    );
                },
                None => {},
            }
        },
        None => {},
    }
}

/// A replaced entry of the same title is found where the old one was.
pub proof fn replaced_node_found(root: FolderModel, path: Seq<Seq<char>>, node: NodeModel)
    requires
        node_at(root, path) is Some,
        node.title() == path.last(),
    ensures
        node_at(with_node(root, path, node), path) == Some(node),
{
    let parent_path = path.drop_last();
    let parent = folder_at(root, parent_path)->0;
    child_position_is_first(parent.children, path.last());
    let i = child_position(parent.children, path.last())->0;
    let changed = FolderModel { children: parent.children.update(i, node), ..parent };
    with_folder_found(root, parent_path, changed);
    update_keeps_titles(parent.children, i, node);
    position_by_titles(parent.children, changed.children, path.last());
}

} // verus!
