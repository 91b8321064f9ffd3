//! A change in one folder of the tree leaves everything outside it alone.

use vstd::prelude::*;

use crate::quick_launch::tree::{
    child_position, child_position_is_first, child_position_unique, folder_at, has_title, node_at,
    with_child, with_folder, with_node, without_child, FolderModel, NodeModel,
};
use crate::quick_launch::tree_laws::{
    position_by_titles, titles, update_keeps_titles, with_folder_found, with_node_in, without_node,
};

verus! {

/// An entry is looked up step by step: first the folder, and then what stands in
/// it.
pub proof fn lookup_goes_through_the_folder(
    root: FolderModel,
    path: Seq<Seq<char>>,
    rest: Seq<Seq<char>>,
)
    requires
        folder_at(root, path) is Some,
    ensures
        folder_at(root, path + rest) == folder_at(folder_at(root, path)->0, rest),
        rest.len() > 0 ==> node_at(root, path + rest) == node_at(folder_at(root, path)->0, rest),
    decreases path.len(),
{
    if path.len() == 0 {
        assert(path + rest =~= rest);
    } else {
        let i = child_position(root.children, path[0])->0;
        let inner = root.children[i]->Folder_0;
        lookup_goes_through_the_folder(inner, path.skip(1), rest);
        assert((path + rest).skip(1) =~= path.skip(1) + rest);
        assert((path + rest)[0] == path[0]);
        if rest.len() > 0 {
            let all = path + rest;
            assert(all.drop_last() =~= path + rest.drop_last());
            assert(all.last() == rest.last());
            lookup_goes_through_the_folder(inner, path.skip(1), rest.drop_last());
            assert((path + rest.drop_last()).skip(1) =~= path.skip(1) + rest.drop_last());
            assert((path + rest.drop_last())[0] == path[0]);
        }
    }
}

/// What stands directly in a folder is found by its title; what stands deeper is
/// found through the folder of the first title.
pub proof fn lookup_starts_with_the_first_title(root: FolderModel, path: Seq<Seq<char>>)
    requires
        path.len() > 0,
    ensures
        path.len() == 1 ==> node_at(root, path) == match child_position(root.children, path[0]) {
            Some(i) => Some(root.children[i]),
            None => None,
        },
        path.len() > 1 ==> node_at(root, path) == match child_position(root.children, path[0]) {
            Some(i) => match root.children[i] {
                NodeModel::Folder(inner) => node_at(inner, path.skip(1)),
                NodeModel::Command(_) => None,
            },
            None => None,
        },
{
    if path.len() == 1 {
        assert(path.drop_last() =~= Seq::empty());
        assert(path.last() == path[0]);
    } else {
        assert(path.drop_last()[0] == path[0]);
        assert(path.drop_last().skip(1) =~= path.skip(1).drop_last());
        assert(path.skip(1).last() == path.last());
    }
}

proof fn lemma_not_prefix_skip(a: Seq<Seq<char>>, b: Seq<Seq<char>>)
    requires
        a.len() > 0,
        b.len() > 0,
        a[0] == b[0],
    ensures
        a.is_prefix_of(b) == a.skip(1).is_prefix_of(b.skip(1)),
{
    if a.is_prefix_of(b) {
        assert(a.skip(1) =~= b.skip(1).subrange(0, a.skip(1).len() as int)) by {
            assert forall|j: int| 0 <= j < a.len() - 1 implies a.skip(1)[j] == b.skip(1)[j] by {
                assert(a[j + 1] == b.subrange(0, a.len() as int)[j + 1]);
            }
        }
    }
    if a.skip(1).is_prefix_of(b.skip(1)) {
        assert(a =~= b.subrange(0, a.len() as int)) by {
            assert forall|j: int| 0 <= j < a.len() implies a[j] == b[j] by {
                if j > 0 {
                    assert(a.skip(1)[j - 1] == b.skip(1).subrange(0, a.len() - 1)[j - 1]);
                }
            }
        }
    }
}

/// A folder that is changed, but for its title, changes nothing that does not
/// lie in it or around it.
pub proof fn change_stays_in_its_folder(
    root: FolderModel,
    path: Seq<Seq<char>>,
    folder: FolderModel,
    other: Seq<Seq<char>>,
)
    requires
        folder_at(root, path) is Some,
        path.len() > 0 ==> folder.title == folder_at(root, path)->0.title,
        !path.is_prefix_of(other),
        !other.is_prefix_of(path),
    ensures
        node_at(with_folder(root, path, folder), other) == node_at(root, other),
    decreases path.len(),
{
    if path.len() == 0 {
        assert(path =~= other.subrange(0, 0));
    } else if other.len() == 0 {
        assert(other =~= path.subrange(0, 0));
    } else {
        child_position_is_first(root.children, path[0]);
        child_position_is_first(root.children, other[0]);
        let i = child_position(root.children, path[0])->0;
        let inner = root.children[i]->Folder_0;
        let rest = path.skip(1);
        with_folder_found(inner, rest, folder);
        let changed = with_folder(inner, rest, folder);
        let node = NodeModel::Folder(changed);
        assert(changed.title == inner.title);
        update_keeps_titles(root.children, i, node);
        let after = with_folder(root, path, folder);
        assert(after.children == root.children.update(i, node));
        position_by_titles(root.children, after.children, other[0]);
        lookup_starts_with_the_first_title(root, other);
        lookup_starts_with_the_first_title(after, other);
        if other[0] == path[0] {
            if other.len() == 1 {
                assert(other =~= path.subrange(0, 1));
                assert(false);
            }
            lemma_not_prefix_skip(path, other);
            lemma_not_prefix_skip(other, path);
            change_stays_in_its_folder(inner, rest, folder, other.skip(1));
        }
    }
}

/// What lies in a changed folder is what the change put there.
pub proof fn change_shows_in_its_folder(
    root: FolderModel,
    path: Seq<Seq<char>>,
    folder: FolderModel,
    rest: Seq<Seq<char>>,
)
    requires
        folder_at(root, path) is Some,
        path.len() > 0 ==> folder.title == folder_at(root, path)->0.title,
        rest.len() > 0,
    ensures
        node_at(with_folder(root, path, folder), path + rest) == node_at(folder, rest),
{
    with_folder_found(root, path, folder);
    lookup_goes_through_the_folder(with_folder(root, path, folder), path, rest);
}

/// Whether two entries are the same but for what stands in them.
pub open spec fn same_but_content(a: NodeModel, b: NodeModel) -> bool {
    match (a, b) {
        (NodeModel::Folder(x), NodeModel::Folder(y)) => x.title == y.title && x.expanded
            == y.expanded,
        (x, y) => x == y,
    }
}

/// The folders around a changed folder keep their titles and stay open or
/// closed.
pub proof fn folders_around_a_change_stay(
    root: FolderModel,
    path: Seq<Seq<char>>,
    folder: FolderModel,
    around: Seq<Seq<char>>,
)
    requires
        folder_at(root, path) is Some,
        folder.title == folder_at(root, path)->0.title,
        folder.expanded == folder_at(root, path)->0.expanded,
        around.len() > 0,
        around.is_prefix_of(path),
    ensures
        node_at(root, around) is Some,
        node_at(with_folder(root, path, folder), around) is Some,
        same_but_content(
            node_at(root, around)->0,
            node_at(with_folder(root, path, folder), around)->0,
        ),
    decreases path.len(),
{
    child_position_is_first(root.children, path[0]);
    let i = child_position(root.children, path[0])->0;
    let inner = root.children[i]->Folder_0;
    let rest = path.skip(1);
    with_folder_found(inner, rest, folder);
    let changed = with_folder(inner, rest, folder);
    let node = NodeModel::Folder(changed);
    assert(folder_at(root, path) == folder_at(inner, rest));
    if rest.len() == 0 {
        assert(folder_at(inner, rest) == Some(inner));
        assert(changed == folder);
    } else {
        lemma_expanded_kept(inner, rest, folder);
    }
    update_keeps_titles(root.children, i, node);
    let after = with_folder(root, path, folder);
    position_by_titles(root.children, after.children, path[0]);
    assert(around[0] == path.subrange(0, around.len() as int)[0]);
    lookup_starts_with_the_first_title(root, around);
    lookup_starts_with_the_first_title(after, around);
    if around.len() > 1 {
        lemma_not_prefix_skip(around, path);
        folders_around_a_change_stay(inner, rest, folder, around.skip(1));
    }
}

proof fn lemma_expanded_kept(root: FolderModel, path: Seq<Seq<char>>, folder: FolderModel)
    requires
        path.len() > 0,
    ensures
        with_folder(root, path, folder).expanded == root.expanded,
        with_folder(root, path, folder).title == root.title,
{
}

/// Whether a path leads to an entry that a change of the entry `name` in the
/// folder at `folder` does not touch: it does not lie in it, and not around it.
pub open spec fn lies_apart(path: Seq<Seq<char>>, folder: Seq<Seq<char>>, name: Seq<char>) -> bool {
    &&& !folder.push(name).is_prefix_of(path)
    &&& !path.is_prefix_of(folder)
}

proof fn lemma_apart_in_folder(path: Seq<Seq<char>>, folder: Seq<Seq<char>>, name: Seq<char>)
    requires
        lies_apart(path, folder, name),
        folder.is_prefix_of(path),
    ensures
        path.len() > folder.len(),
        path == folder + path.skip(folder.len() as int),
        path.skip(folder.len() as int)[0] != name,
{
    let n = folder.len() as int;
    assert(folder =~= path.subrange(0, n));
    if path.len() == n {
        assert(path =~= folder);
        assert(path =~= folder.subrange(0, n));
    }
    assert(path =~= folder + path.skip(n));
    if path[n] == name {
        assert(folder.push(name) =~= path.subrange(0, n + 1)) by {
            assert forall|j: int| 0 <= j < n implies folder[j] == path[j] by {
                assert(path.subrange(0, n)[j] == path[j]);
            }
        }
    }
}

proof fn lemma_same_lookup(a: FolderModel, b: FolderModel, rest: Seq<Seq<char>>)
    requires
        rest.len() > 0,
        match child_position(a.children, rest[0]) {
            Some(i) => child_position(b.children, rest[0]) is Some && b.children[child_position(
                b.children,
                rest[0],
            )->0] == a.children[i],
            None => child_position(b.children, rest[0]) is None,
        },
    ensures
        node_at(a, rest) == node_at(b, rest),
{
    lookup_starts_with_the_first_title(a, rest);
    lookup_starts_with_the_first_title(b, rest);
}

/// An entry that is replaced leaves all entries alone that lie apart from it,
/// and from the place of its new title.
pub proof fn replacing_leaves_the_others(
    root: FolderModel,
    path: Seq<Seq<char>>,
    node: NodeModel,
    other: Seq<Seq<char>>,
)
    requires
        node_at(root, path) is Some,
        lies_apart(other, path.drop_last(), path.last()),
        lies_apart(other, path.drop_last(), node.title()),
    ensures
        node_at(with_node(root, path, node), other) == node_at(root, other),
{
    let folder_path = path.drop_last();
    let folder = folder_at(root, folder_path)->0;
    child_position_is_first(folder.children, path.last());
    let i = child_position(folder.children, path.last())->0;
    let changed = FolderModel { children: folder.children.update(i, node), ..folder };
    if folder_path.is_prefix_of(other) {
        lemma_apart_in_folder(other, folder_path, path.last());
        lemma_apart_in_folder(other, folder_path, node.title());
        let rest = other.skip(folder_path.len() as int);
        lookup_goes_through_the_folder(root, folder_path, rest);
        change_shows_in_its_folder(root, folder_path, changed, rest);
        child_position_is_first(folder.children, rest[0]);
        child_position_is_first(changed.children, rest[0]);
        match child_position(folder.children, rest[0]) {
            Some(k) => {
                assert(k != i);
                assert(changed.children[k] == folder.children[k]);
                assert forall|j: int| 0 <= j < k implies (#[trigger] changed.children[j]).title()
                    != rest[0] by {
                    if j != i {
                        assert(changed.children[j] == folder.children[j]);
                    }
                }
                child_position_unique(changed.children, rest[0], k);
            },
            None => {
                match child_position(changed.children, rest[0]) {
                    Some(k) => {
                        assert(k != i);
                        assert(changed.children[k] == folder.children[k]);
                    },
                    None => {},
                }
            },
        }
        lemma_same_lookup(folder, changed, rest);
    } else {
        change_stays_in_its_folder(root, folder_path, changed, other);
    }
}

/// An entry that is added leaves all entries alone but the folders around it.
pub proof fn adding_leaves_the_others(
    root: FolderModel,
    path: Seq<Seq<char>>,
    node: NodeModel,
    other: Seq<Seq<char>>,
)
    requires
        folder_at(root, path) is Some,
        lies_apart(other, path, node.title()),
    ensures
        node_at(with_node_in(root, path, node), other) == node_at(root, other),
{
    let folder = folder_at(root, path)->0;
    let changed = with_child(folder, node);
    if path.is_prefix_of(other) {
        lemma_apart_in_folder(other, path, node.title());
        let rest = other.skip(path.len() as int);
        lookup_goes_through_the_folder(root, path, rest);
        change_shows_in_its_folder(root, path, changed, rest);
        child_position_is_first(folder.children, rest[0]);
        child_position_is_first(changed.children, rest[0]);
        match child_position(folder.children, rest[0]) {
            Some(k) => {
                assert(changed.children[k] == folder.children[k]);
                assert forall|j: int| 0 <= j < k implies (#[trigger] changed.children[j]).title()
                    != rest[0] by {
                    assert(changed.children[j] == folder.children[j]);
                }
                child_position_unique(changed.children, rest[0], k);
            },
            None => {
                match child_position(changed.children, rest[0]) {
                    Some(k) => {
                        if k < folder.children.len() {
                            assert(changed.children[k] == folder.children[k]);
                        }
                    },
                    None => {},
                }
            },
        }
        lemma_same_lookup(folder, changed, rest);
    } else {
        change_stays_in_its_folder(root, path, changed, other);
    }
}

/// An entry that is taken out leaves all entries alone but itself, what lies in
/// it and the folders around it.
pub proof fn removing_leaves_the_others(
    root: FolderModel,
    path: Seq<Seq<char>>,
    other: Seq<Seq<char>>,
)
    requires
        path.len() > 0,
        folder_at(root, path.drop_last()) is Some,
        lies_apart(other, path.drop_last(), path.last()),
    ensures
        node_at(without_node(root, path), other) == node_at(root, other),
{
    let folder_path = path.drop_last();
    let folder = folder_at(root, folder_path)->0;
    let title = path.last();
    let changed = without_child(folder, title);
    if folder_path.is_prefix_of(other) {
        lemma_apart_in_folder(other, folder_path, title);
        let rest = other.skip(folder_path.len() as int);
        lookup_goes_through_the_folder(root, folder_path, rest);
        change_shows_in_its_folder(root, folder_path, changed, rest);
        child_position_is_first(folder.children, title);
        child_position_is_first(folder.children, rest[0]);
        child_position_is_first(changed.children, rest[0]);
        match child_position(folder.children, title) {
            Some(gone) => {
                assert forall|j: int| 0 <= j < changed.children.len() implies #[trigger]
                    changed.children[j] == folder.children[if j < gone {
                    j
                } else {
                    j + 1
                }] by {}
                match child_position(folder.children, rest[0]) {
                    Some(k) => {
                        let at = if k < gone {
                            k
                        } else {
                            k - 1
                        };
                        assert(changed.children[at] == folder.children[k]);
                        assert forall|j: int| 0 <= j < at implies (#[trigger]
                        changed.children[j]).title() != rest[0] by {
                            let from = if j < gone {
                                j
                            } else {
                                j + 1
                            };
                            assert(changed.children[j] == folder.children[from]);
                        }
                        child_position_unique(changed.children, rest[0], at);
                    },
                    None => {
                        match child_position(changed.children, rest[0]) {
                            Some(k) => {
                                let from = if k < gone {
                                    k
                                } else {
                                    k + 1
                                };
                                assert(changed.children[k] == folder.children[from]);
                            },
                            None => {},
                        }
                    },
                }
            },
            None => {},
        }
        lemma_same_lookup(folder, changed, rest);
    } else {
        change_stays_in_its_folder(root, folder_path, changed, other);
    }
}

/// An entry that is replaced by one whose title is free is found under the new
/// title; under the old one there is nothing left where titles are unique.
pub proof fn replaced_entry_is_found(root: FolderModel, path: Seq<Seq<char>>, node: NodeModel)
    requires
        node_at(root, path) is Some,
        node.title() == path.last() || !has_title(
            folder_at(root, path.drop_last())->0.children,
            node.title(),
        ),
    ensures
        node_at(with_node(root, path, node), path.drop_last().push(node.title())) == Some(node),
        node.title() != path.last() && titles(
            folder_at(root, path.drop_last())->0.children,
        ).no_duplicates() ==> node_at(with_node(root, path, node), path) is None,
{
    let folder_path = path.drop_last();
    let folder = folder_at(root, folder_path)->0;
    child_position_is_first(folder.children, path.last());
    let i = child_position(folder.children, path.last())->0;
    let changed = FolderModel { children: folder.children.update(i, node), ..folder };
    let one = seq![node.title()];
    change_shows_in_its_folder(root, folder_path, changed, one);
    assert(folder_path + one =~= folder_path.push(node.title()));
    lookup_starts_with_the_first_title(changed, one);
    assert forall|j: int| 0 <= j < i implies (#[trigger] changed.children[j]).title()
        != node.title() by {
        assert(changed.children[j] == folder.children[j]);
    }
    child_position_unique(changed.children, node.title(), i);
    if node.title() != path.last() && titles(folder.children).no_duplicates() {
        let old = seq![path.last()];
        change_shows_in_its_folder(root, folder_path, changed, old);
        assert(folder_path + old =~= path);
        lookup_starts_with_the_first_title(changed, old);
        child_position_is_first(changed.children, path.last());
        match child_position(changed.children, path.last()) {
            Some(k) => {
                assert(changed.children[k] == folder.children[k]);
                assert(titles(folder.children)[k] == titles(folder.children)[i]);
            },
            None => {},
        }
    }
}

/// An entry that is taken out is gone where titles are unique.
pub proof fn removed_entry_is_gone(root: FolderModel, path: Seq<Seq<char>>)
    requires
        path.len() > 0,
        folder_at(root, path.drop_last()) is Some,
        titles(folder_at(root, path.drop_last())->0.children).no_duplicates(),
    ensures
        node_at(without_node(root, path), path) is None,
{
    let folder_path = path.drop_last();
    let folder = folder_at(root, folder_path)->0;
    let title = path.last();
    let changed = without_child(folder, title);
    let one = seq![title];
    change_shows_in_its_folder(root, folder_path, changed, one);
    assert(folder_path + one =~= path);
    lookup_starts_with_the_first_title(changed, one);
    child_position_is_first(folder.children, title);
    child_position_is_first(changed.children, title);
    match child_position(folder.children, title) {
        Some(gone) => {
            match child_position(changed.children, title) {
                Some(k) => {
                    let from = if k < gone {
                        k
                    } else {
                        k + 1
                    };
                    assert(changed.children[k] == folder.children[from]);
                    assert(titles(folder.children)[from] == titles(folder.children)[gone]);
                },
                None => {},
            }
        },
        None => {},
    }
}

} // verus!
