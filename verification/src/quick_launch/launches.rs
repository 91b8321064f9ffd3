//! The launches in progress, keyed by the path of their command.

use std::sync::atomic::AtomicBool;
use std::sync::Arc;

use vstd::prelude::*;

use crate::quick_launch::types::{copy_strings, NodePath};
use crate::text::texts;

verus! {

/// One launch in progress.
#[derive(Debug)]
pub struct LaunchInfo {
    pub id: u64,
    pub launch_ticks: u64,
    pub is_indicator_highlighted: bool,
    pub cancel: Arc<AtomicBool>,
}

/// `Arc::clone` gives another pointer to the same allocation, so the two stand
/// for one and the same flag.
#[verifier::external_body]
pub(crate) fn share_token(token: &Arc<AtomicBool>) -> (shared: Arc<AtomicBool>)
    ensures
        shared == *token,
{
    Arc::clone(token)
}

impl Clone for LaunchInfo {
    fn clone(&self) -> (r: Self)
        ensures
            r == *self,
    {
        LaunchInfo {
            id: self.id,
            launch_ticks: self.launch_ticks,
            is_indicator_highlighted: self.is_indicator_highlighted,
            cancel: share_token(&self.cancel),
        }
    }
}

/// Whether two paths name the same entry.
pub fn same_path(a: &[String], b: &[String]) -> (r: bool)
    ensures
        r == (texts(a@) == texts(b@)),
{
    if a.len() != b.len() {
        assert(texts(a@).len() != texts(b@).len());
        return false;
    }
    let r = is_prefix(a, b);
    assert(texts(b@).subrange(0, b@.len() as int) == texts(b@));
    r
}

/// Whether `prefix` leads to `path` or to an entry above it.
pub fn is_prefix(prefix: &[String], path: &[String]) -> (r: bool)
    ensures
        r == texts(prefix@).is_prefix_of(texts(path@)),
{
    if prefix.len() > path.len() {
        return false;
    }
    let mut i: usize = 0;
    while i < prefix.len()
        invariant
            i <= prefix@.len() <= path@.len(),
            forall|j: int| 0 <= j < i ==> (#[trigger] texts(prefix@)[j]) == texts(path@)[j],
        decreases prefix@.len() - i,
    {
        if prefix[i] != path[i] {
            assert(texts(prefix@)[i as int] != texts(path@)[i as int]);
            assert(texts(path@).subrange(0, prefix@.len() as int)[i as int] == texts(
                path@,
            )[i as int]);
            return false;
        }
        assert(texts(prefix@)[i as int] == texts(path@)[i as int]);
        i += 1;
    }
    assert(texts(prefix@) =~= texts(path@).subrange(0, prefix@.len() as int));
    true
}

/// The launches in progress. No path occurs twice.
#[derive(Debug)]
pub struct LaunchMap {
    entries: Vec<(NodePath, LaunchInfo)>,
}

spec fn key_at(entries: Seq<(NodePath, LaunchInfo)>, i: int) -> Seq<Seq<char>> {
    texts(entries[i].0@)
}

spec fn has_key(entries: Seq<(NodePath, LaunchInfo)>, key: Seq<Seq<char>>) -> bool {
    exists|i: int| 0 <= i < entries.len() && #[trigger] key_at(entries, i) == key
}

spec fn distinct_keys(entries: Seq<(NodePath, LaunchInfo)>) -> bool {
    forall|i: int, j: int|
        0 <= i < j < entries.len() ==> #[trigger] key_at(entries, i) != #[trigger] key_at(
            entries,
            j,
        )
}

spec fn index_of_key(entries: Seq<(NodePath, LaunchInfo)>, key: Seq<Seq<char>>) -> int {
    choose|i: int| 0 <= i < entries.len() && #[trigger] key_at(entries, i) == key
}

spec fn as_map(entries: Seq<(NodePath, LaunchInfo)>) -> Map<Seq<Seq<char>>, LaunchInfo> {
    Map::new(
        |key: Seq<Seq<char>>| has_key(entries, key),
        |key: Seq<Seq<char>>| entries[index_of_key(entries, key)].1,
    )
}

proof fn lemma_entry(entries: Seq<(NodePath, LaunchInfo)>, i: int)
    requires
        distinct_keys(entries),
        0 <= i < entries.len(),
    ensures
        as_map(entries).contains_key(key_at(entries, i)),
        as_map(entries)[key_at(entries, i)] == entries[i].1,
{
    let key = key_at(entries, i);
    assert(has_key(entries, key));
    let k = index_of_key(entries, key);
    assert(0 <= k < entries.len() && key_at(entries, k) == key);
    assert(k == i);
}

/// The launches after the entry at `source` has become the one at `target`:
/// launches at or below `source` follow it and take the place of a launch that
/// stood under their new path; the others stay.
pub open spec fn launches_moved(
    launches: Map<Seq<Seq<char>>, LaunchInfo>,
    source: Seq<Seq<char>>,
    target: Seq<Seq<char>>,
) -> Map<Seq<Seq<char>>, LaunchInfo> {
    Map::new(
        |key: Seq<Seq<char>>|
            arrives(launches, source, target, key) || (launches.contains_key(key)
                && !source.is_prefix_of(key)),
        |key: Seq<Seq<char>>|
            if arrives(launches, source, target, key) {
                launches[source + key.skip(target.len() as int)]
            } else {
                launches[key]
            },
    )
}

/// Whether a launch from at or below `source` ends up at `key`.
pub open spec fn arrives(
    launches: Map<Seq<Seq<char>>, LaunchInfo>,
    source: Seq<Seq<char>>,
    target: Seq<Seq<char>>,
    key: Seq<Seq<char>>,
) -> bool {
    target.is_prefix_of(key) && launches.contains_key(source + key.skip(target.len() as int))
}

/// The launches without the one of the given id.
pub open spec fn launches_without_id(
    launches: Map<Seq<Seq<char>>, LaunchInfo>,
    id: u64,
) -> Map<Seq<Seq<char>>, LaunchInfo> {
    Map::new(
        |key: Seq<Seq<char>>| launches.contains_key(key) && launches[key].id != id,
        |key: Seq<Seq<char>>| launches[key],
    )
}

/// Whether no two launches share an id.
pub open spec fn distinct_ids(launches: Map<Seq<Seq<char>>, LaunchInfo>) -> bool {
    forall|a: Seq<Seq<char>>, b: Seq<Seq<char>>|
        launches.contains_key(a) && launches.contains_key(b) && #[trigger] launches[a].id
            == #[trigger] launches[b].id ==> a == b
}

impl View for LaunchMap {
    type V = Map<Seq<Seq<char>>, LaunchInfo>;

    closed spec fn view(&self) -> Map<Seq<Seq<char>>, LaunchInfo> {
        as_map(self.entries@)
    }
}

impl LaunchMap {
    /// No path occurs twice.
    pub closed spec fn wf(&self) -> bool {
        distinct_keys(self.entries@)
    }

    pub fn new() -> (r: Self)
        ensures
            r.wf(),
            r@ == Map::<Seq<Seq<char>>, LaunchInfo>::empty(),
    {
        let r = LaunchMap { entries: Vec::new() };
        assert(r@ =~= Map::<Seq<Seq<char>>, LaunchInfo>::empty());
        r
    }

    pub fn is_empty(&self) -> (r: bool)
        requires
            self.wf(),
        ensures
            r == (self@ == Map::<Seq<Seq<char>>, LaunchInfo>::empty()),
    {
        proof {
            if self.entries@.len() > 0 {
                lemma_entry(self.entries@, 0);
            } else {
                assert(self@ =~= Map::<Seq<Seq<char>>, LaunchInfo>::empty());
            }
        }
        self.entries.len() == 0
    }

    fn position(&self, path: &[String]) -> (r: Option<usize>)
        requires
            self.wf(),
        ensures
            match r {
                Some(i) => i < self.entries@.len() && key_at(self.entries@, i as int) == texts(
                    path@,
                ) && self@.contains_key(texts(path@)) && self@[texts(path@)]
                    == self.entries@[i as int].1,
                None => !self@.contains_key(texts(path@)),
            },
    {
        let mut i: usize = 0;
        while i < self.entries.len()
            invariant
                self.wf(),
                i <= self.entries@.len(),
                forall|j: int| 0 <= j < i ==> #[trigger] key_at(self.entries@, j) != texts(path@),
            decreases self.entries@.len() - i,
        {
            if same_path(self.entries[i].0.as_slice(), path) {
                proof {
                    lemma_entry(self.entries@, i as int);
                }
                return Some(i);
            }
            i += 1;
        }
        None
    }

    pub fn contains_key(&self, path: &[String]) -> (r: bool)
        requires
            self.wf(),
        ensures
            r == self@.contains_key(texts(path@)),
    {
        self.position(path).is_some()
    }

    pub fn get(&self, path: &[String]) -> (r: Option<&LaunchInfo>)
        requires
            self.wf(),
        ensures
            match r {
                Some(info) => self@.contains_key(texts(path@)) && self@[texts(path@)] == *info,
                None => !self@.contains_key(texts(path@)),
            },
    {
        match self.position(path) {
            Some(i) => Some(&self.entries[i].1),
            None => None,
        }
    }

    pub fn insert(&mut self, path: NodePath, info: LaunchInfo)
        requires
            old(self).wf(),
        ensures
            final(self).wf(),
            final(self)@ == old(self)@.insert(texts(path@), info),
    {
        let ghost before = self.entries@;
        let ghost key = texts(path@);
        match self.position(path.as_slice()) {
            Some(i) => {
                self.entries.remove(i);
                proof {
                    lemma_remove(before, i as int);
                }
            },
            None => {
                assert(old(self)@.remove(key) =~= old(self)@);
            },
        }
        let ghost middle = self.entries@;
        self.entries.push((path, info));
        proof {
            lemma_push(middle, path, info);
        }
        assert(self@ =~= old(self)@.insert(key, info));
    }

    pub fn remove(&mut self, path: &[String]) -> (r: Option<LaunchInfo>)
        requires
            old(self).wf(),
        ensures
            final(self).wf(),
            final(self)@ == old(self)@.remove(texts(path@)),
            match r {
                Some(info) => old(self)@.contains_key(texts(path@)) && old(self)@[texts(path@)]
                    == info,
                None => !old(self)@.contains_key(texts(path@)),
            },
    {
        match self.position(path) {
            Some(i) => {
                proof {
                    lemma_remove(self.entries@, i as int);
                }
                let (_, info) = self.entries.remove(i);
                Some(info)
            },
            None => {
                assert(old(self)@.remove(texts(path@)) =~= old(self)@);
                None
            },
        }
    }
}

proof fn lemma_remove(entries: Seq<(NodePath, LaunchInfo)>, i: int)
    requires
        distinct_keys(entries),
        0 <= i < entries.len(),
    ensures
        distinct_keys(entries.remove(i)),
        as_map(entries.remove(i)) == as_map(entries).remove(key_at(entries, i)),
        !as_map(entries.remove(i)).contains_key(key_at(entries, i)),
{
    let rest = entries.remove(i);
    let key = key_at(entries, i);
    assert forall|j: int| 0 <= j < rest.len() implies #[trigger] key_at(rest, j) == key_at(
        entries,
        if j < i {
            j
        } else {
            j + 1
        },
    ) by {}
    assert(distinct_keys(rest));
    assert forall|k: Seq<Seq<char>>| has_key(rest, k) implies has_key(entries, k) && k != key
        && as_map(rest)[k] == as_map(entries)[k] by {
        let j = index_of_key(rest, k);
        let j2 = if j < i {
            j
        } else {
            j + 1
        };
        assert(key_at(rest, j) == k);
        assert(key_at(entries, j2) == k);
        lemma_entry(entries, j2);
        lemma_entry(rest, j);
    }
    assert forall|k: Seq<Seq<char>>| has_key(entries, k) && k != key implies has_key(rest, k) by {
        let j = index_of_key(entries, k);
        let j2 = if j < i {
            j
        } else {
            j - 1
        };
        assert(key_at(rest, j2) == k);
    }
    assert(as_map(rest) =~= as_map(entries).remove(key));
}

proof fn lemma_push(entries: Seq<(NodePath, LaunchInfo)>, path: NodePath, info: LaunchInfo)
    requires
        distinct_keys(entries),
        !as_map(entries).contains_key(texts(path@)),
    ensures
        distinct_keys(entries.push((path, info))),
        as_map(entries.push((path, info))) == as_map(entries).insert(texts(path@), info),
{
    let all = entries.push((path, info));
    let key = texts(path@);
    assert forall|j: int| 0 <= j < entries.len() implies #[trigger] key_at(all, j) == key_at(
        entries,
        j,
    ) && key_at(entries, j) != key by {
        lemma_entry(entries, j);
    }
    assert(key_at(all, entries.len() as int) == key);
    assert(distinct_keys(all));
    lemma_entry(all, entries.len() as int);
    assert forall|k: Seq<Seq<char>>| has_key(all, k) && k != key implies has_key(entries, k)
        && as_map(all)[k] == as_map(entries)[k] by {
        let j = index_of_key(all, k);
        assert(key_at(all, j) == k);
        assert(key_at(entries, j) == k);
        lemma_entry(entries, j);
        lemma_entry(all, j);
    }
    assert forall|k: Seq<Seq<char>>| has_key(entries, k) implies has_key(all, k) by {
        let j = index_of_key(entries, k);
        assert(key_at(all, j) == k);
    }
    assert(as_map(all) =~= as_map(entries).insert(key, info));
}

/// Milliseconds between two ticks of the widget.
pub const QUICK_LAUNCHES_TICK_MS: u64 = 200;

/// Milliseconds before a launch shows its indicator.
pub const LAUNCH_ICON_DELAY_MS: u64 = 1_000;

/// Milliseconds for which the indicator stays on, and then off.
pub const LAUNCH_ICON_BLINK_MS: u128 = 500;

/// Whether the indicator of a launch is on: not before the delay is over, and
/// from then on in every other blink interval.
pub open spec fn indicator_on(launch_ticks: u64, blink_nonce: u64) -> bool {
    &&& launch_ticks * QUICK_LAUNCHES_TICK_MS >= LAUNCH_ICON_DELAY_MS
    &&& (blink_nonce * QUICK_LAUNCHES_TICK_MS / LAUNCH_ICON_BLINK_MS as int) % 2 == 0
}

/// Whether the indicator of a launch is on.
pub fn should_highlight_launch_indicator(launch_ticks: u64, blink_nonce: u64) -> (on: bool)
    ensures
        on == indicator_on(launch_ticks, blink_nonce),
{
    let launch_age_ms: u128 = launch_ticks as u128 * QUICK_LAUNCHES_TICK_MS as u128;
    if launch_age_ms < LAUNCH_ICON_DELAY_MS as u128 {
        return false;
    }
    let blink_step: u128 = (blink_nonce as u128 * QUICK_LAUNCHES_TICK_MS as u128)
        / LAUNCH_ICON_BLINK_MS;
    blink_step % 2 == 0
}

/// A launch one tick later.
pub open spec fn ticked(info: LaunchInfo, blink_nonce: u64) -> LaunchInfo {
    let ticks = if info.launch_ticks == u64::MAX {
        0
    } else {
        (info.launch_ticks + 1) as u64
    };
    LaunchInfo {
        launch_ticks: ticks,
        is_indicator_highlighted: indicator_on(ticks, blink_nonce),
        ..info
    }
}

/// All launches one tick later.
pub open spec fn launches_ticked(
    launches: Map<Seq<Seq<char>>, LaunchInfo>,
    blink_nonce: u64,
) -> Map<Seq<Seq<char>>, LaunchInfo> {
    launches.map_values(|info: LaunchInfo| ticked(info, blink_nonce))
}

impl LaunchMap {
    /// Take out the launch of the given id.
    pub fn remove_by_id(&mut self, id: u64)
        requires
            old(self).wf(),
            distinct_ids(old(self)@),
        ensures
            final(self).wf(),
            final(self)@ == launches_without_id(old(self)@, id),
    {
        let mut i: usize = 0;
        while i < self.entries.len()
            invariant
                *self == *old(self),
                self.wf(),
                distinct_ids(self@),
                i <= self.entries@.len(),
                forall|j: int| 0 <= j < i ==> (#[trigger] self.entries@[j]).1.id != id,
            decreases self.entries@.len() - i,
        {
            if self.entries[i].1.id == id {
                proof {
                    lemma_remove(self.entries@, i as int);
                    lemma_entry(self.entries@, i as int);
                    let key = key_at(self.entries@, i as int);
                    assert forall|k: Seq<Seq<char>>|
                        self@.contains_key(k) implies (self@[k].id == id) == (k == key) by {
                        assert(self@[key].id == id);
                    }
                    assert(self@.remove(key) =~= launches_without_id(self@, id));
                }
                self.entries.remove(i);
                return;
            }
            i += 1;
        }
        proof {
            assert forall|k: Seq<Seq<char>>| self@.contains_key(k) implies self@[k].id != id by {
                let j = index_of_key(self.entries@, k);
                assert(key_at(self.entries@, j) == k);
                lemma_entry(self.entries@, j);
            }
            assert(launches_without_id(self@, id) =~= self@);
        }
    }

    /// Let the launches at or below `source` follow it to `target`.
    pub fn relocate(&mut self, source: &[String], target: &[String])
        requires
            old(self).wf(),
        ensures
            final(self).wf(),
            final(self)@ == launches_moved(old(self)@, texts(source@), texts(target@)),
    {
        let ghost src = texts(source@);
        let ghost dst = texts(target@);
        let ghost all = self.entries@;
        let mut moved = LaunchMap::new();
        let mut i: usize = 0;
        while i < self.entries.len()
            invariant
                *self == *old(self),
                self.wf(),
                all == self.entries@,
                src == texts(source@),
                dst == texts(target@),
                i <= all.len(),
                moved.wf(),
                forall|k: Seq<Seq<char>>|
                    #![trigger moved@.contains_key(k)]
                    moved@.contains_key(k) <==> moves_to(all.take(i as int), src, dst, k),
                forall|k: Seq<Seq<char>>|
                    #![trigger moved@[k]]
                    moved@.contains_key(k) ==> moved@[k] == self@[src + k.skip(
                        dst.len() as int,
                    )],
            decreases self.entries@.len() - i,
        {
            let ghost key = key_at(all, i as int);
            let ghost before = moved@;
            if is_prefix(source, self.entries[i].0.as_slice()) {
                let path = moved_path(self.entries[i].0.as_slice(), source.len(), target);
                let ghost new_key = texts(path@);
                moved.insert(path, self.entries[i].1.clone());
                proof {
                    lemma_entry(all, i as int);
                    assert(new_key == dst + key.skip(src.len() as int));
                    assert(src + key.skip(src.len() as int) =~= key);
                    assert(new_key.skip(dst.len() as int) =~= key.skip(src.len() as int));
                    assert(moved@[new_key] == self@[src + new_key.skip(dst.len() as int)]);
                    assert forall|k: Seq<Seq<char>>|
                        #![trigger moved@.contains_key(k)]
                        moved@.contains_key(k) <==> moves_to(all.take(i + 1), src, dst, k) by {
                        lemma_moves_to_step(all, i as int, src, dst, k);
                        if moves_to(all.take(i as int), src, dst, k) {
                            assert(before.contains_key(k));
                        }
                        if dst.is_prefix_of(k) && src + k.skip(dst.len() as int) == key {
                            assert(k =~= dst + k.skip(dst.len() as int));
                            assert(key.skip(src.len() as int) =~= k.skip(dst.len() as int));
                            assert(k == new_key);
                        }
                        if k == new_key {
                            assert(dst.is_prefix_of(k));
                            assert(src + k.skip(dst.len() as int) == key);
                        }
                    }
                }
            } else {
                proof {
                    assert forall|k: Seq<Seq<char>>|
                        #![trigger moved@.contains_key(k)]
                        moved@.contains_key(k) <==> moves_to(all.take(i + 1), src, dst, k) by {
                        lemma_moves_to_step(all, i as int, src, dst, k);
                        if src + k.skip(dst.len() as int) == key {
                            assert(src =~= key.subrange(0, src.len() as int));
                        }
                    }
                }
            }
            i += 1;
        }
        proof {
            assert(all.take(all.len() as int) == all);
            assert forall|k: Seq<Seq<char>>|
                moved@.contains_key(k) <==> #[trigger] arrives(self@, src, dst, k) by {
                assert(moved@.contains_key(k) <==> moves_to(all, src, dst, k));
            }
        }
        let ghost arrived = moved@;
        let mut i: usize = 0;
        while i < self.entries.len()
            invariant
                *self == *old(self),
                self.wf(),
                all == self.entries@,
                src == texts(source@),
                dst == texts(target@),
                i <= all.len(),
                moved.wf(),
                forall|k: Seq<Seq<char>>|
                    arrived.contains_key(k) <==> #[trigger] arrives(self@, src, dst, k),
                forall|k: Seq<Seq<char>>|
                    #![trigger moved@.contains_key(k)]
                    moved@.contains_key(k) <==> arrived.contains_key(k) || (!src.is_prefix_of(k)
                        && has_key(all.take(i as int), k)),
                forall|k: Seq<Seq<char>>|
                    #![trigger moved@[k]]
                    moved@.contains_key(k) ==> moved@[k] == (if arrived.contains_key(k) {
                        arrived[k]
                    } else {
                        self@[k]
                    }),
            decreases self.entries@.len() - i,
        {
            let ghost key = key_at(all, i as int);
            let ghost before = moved@;
            let path = &self.entries[i].0;
            if !is_prefix(source, path.as_slice()) && !moved.contains_key(path.as_slice()) {
                let copy = copy_strings(path);
                moved.insert(copy, self.entries[i].1.clone());
            }
            proof {
                lemma_entry(all, i as int);
                assert forall|k: Seq<Seq<char>>|
                    #![trigger moved@.contains_key(k)]
                    moved@.contains_key(k) <==> arrived.contains_key(k) || (!src.is_prefix_of(k)
                        && has_key(all.take(i + 1), k)) by {
                    lemma_has_key_step(all, i as int, k);
                    assert(before.contains_key(k) <==> arrived.contains_key(k) || (
                    !src.is_prefix_of(k) && has_key(all.take(i as int), k)));
                }
            }
            i += 1;
        }
        proof {
            assert(all.take(all.len() as int) == all);
            let result = launches_moved(self@, src, dst);
            assert forall|k: Seq<Seq<char>>|
                moved@.contains_key(k) <==> #[trigger] result.contains_key(k) by {
                assert(arrived.contains_key(k) <==> arrives(self@, src, dst, k));
                assert(moved@.contains_key(k) <==> arrived.contains_key(k) || (!src.is_prefix_of(k)
                    && has_key(all, k)));
            }
            assert forall|k: Seq<Seq<char>>| moved@.contains_key(k) implies #[trigger] result[k]
                == moved@[k] by {
                assert(arrived.contains_key(k) <==> arrives(self@, src, dst, k));
            }
            assert(moved@ =~= result);
        }
        self.entries = moved.entries;
    }

    /// Let one tick pass for every launch.
    pub fn tick(&mut self, blink_nonce: u64)
        requires
            old(self).wf(),
        ensures
            final(self).wf(),
            final(self)@ == launches_ticked(old(self)@, blink_nonce),
    {
        let ghost all = self.entries@;
        let mut i: usize = 0;
        while i < self.entries.len()
            invariant
                i <= all.len(),
                self.entries@.len() == all.len(),
                forall|j: int|
                    0 <= j < all.len() ==> (#[trigger] self.entries@[j]).0 == all[j].0,
                forall|j: int|
                    0 <= j < i ==> (#[trigger] self.entries@[j]).1 == ticked(
                        all[j].1,
                        blink_nonce,
                    ),
                forall|j: int| i <= j < all.len() ==> (#[trigger] self.entries@[j]) == all[j],
            decreases self.entries@.len() - i,
        {
            let entry = &mut self.entries[i];
            entry.1.launch_ticks = entry.1.launch_ticks.wrapping_add(1);
            entry.1.is_indicator_highlighted =
            should_highlight_launch_indicator(entry.1.launch_ticks, blink_nonce);
            i += 1;
        }
        proof {
            assert forall|j: int| 0 <= j < all.len() implies #[trigger] key_at(self.entries@, j)
                == key_at(all, j) by {}
            assert(self.wf());
            assert forall|k: Seq<Seq<char>>| has_key(self.entries@, k) <==> has_key(all, k) by {
                if has_key(all, k) {
                    assert(key_at(self.entries@, index_of_key(all, k)) == k);
                }
                if has_key(self.entries@, k) {
                    assert(key_at(all, index_of_key(self.entries@, k)) == k);
                }
            }
            assert forall|k: Seq<Seq<char>>| has_key(all, k) implies as_map(self.entries@)[k]
                == ticked(as_map(all)[k], blink_nonce) by {
                let j = index_of_key(all, k);
                assert(key_at(self.entries@, j) == k && key_at(all, j) == k);
                lemma_entry(all, j);
                lemma_entry(self.entries@, j);
            }
            assert(self@ =~= launches_ticked(old(self)@, blink_nonce));
        }
    }
}

spec fn moves_to(
    entries: Seq<(NodePath, LaunchInfo)>,
    source: Seq<Seq<char>>,
    target: Seq<Seq<char>>,
    key: Seq<Seq<char>>,
) -> bool {
    target.is_prefix_of(key) && has_key(entries, source + key.skip(target.len() as int))
}

proof fn lemma_has_key_step(entries: Seq<(NodePath, LaunchInfo)>, i: int, key: Seq<Seq<char>>)
    requires
        0 <= i < entries.len(),
    ensures
        has_key(entries.take(i + 1), key) <==> has_key(entries.take(i), key) || key_at(entries, i)
            == key,
{
    let less = entries.take(i);
    let more = entries.take(i + 1);
    if has_key(less, key) {
        assert(key_at(more, index_of_key(less, key)) == key);
    }
    if key_at(entries, i) == key {
        assert(key_at(more, i) == key);
    }
    if has_key(more, key) {
        let j = index_of_key(more, key);
        if j < i {
            assert(key_at(less, j) == key);
        }
    }
}

proof fn lemma_moves_to_step(
    entries: Seq<(NodePath, LaunchInfo)>,
    i: int,
    source: Seq<Seq<char>>,
    target: Seq<Seq<char>>,
    key: Seq<Seq<char>>,
)
    requires
        0 <= i < entries.len(),
    ensures
        moves_to(entries.take(i + 1), source, target, key) <==> moves_to(
            entries.take(i),
            source,
            target,
            key,
        ) || (target.is_prefix_of(key) && source + key.skip(target.len() as int) == key_at(
            entries,
            i,
        )),
{
    lemma_has_key_step(entries, i, source + key.skip(target.len() as int));
}

/// `target` followed by what stands in `path` after its first `skip` titles.
fn moved_path(path: &[String], skip: usize, target: &[String]) -> (moved: NodePath)
    requires
        skip <= path@.len(),
    ensures
        texts(moved@) == texts(target@) + texts(path@).skip(skip as int),
{
    let mut moved: NodePath = Vec::new();
    let mut i: usize = 0;
    while i < target.len()
        invariant
            i <= target@.len(),
            moved@.len() == i,
            forall|j: int| 0 <= j < i ==> (#[trigger] moved@[j])@ == target@[j]@,
        decreases target@.len() - i,
    {
        moved.push(target[i].clone());
        i += 1;
    }
    let mut i: usize = skip;
    while i < path.len()
        invariant
            skip <= i <= path@.len(),
            moved@.len() == target@.len() + i - skip,
            forall|j: int| 0 <= j < target@.len() ==> (#[trigger] moved@[j])@ == target@[j]@,
            forall|j: int|
                target@.len() <= j < moved@.len() ==> (#[trigger] moved@[j])@ == path@[j
                    - target@.len() + skip]@,
        decreases path@.len() - i,
    {
        moved.push(path[i].clone());
        i += 1;
    }
    assert(texts(moved@) =~= texts(target@) + texts(path@).skip(skip as int));
    moved
}

} // verus!
