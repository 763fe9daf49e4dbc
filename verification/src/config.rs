//! Configuration trees and the deep merge of persisted overrides onto defaults.

use vstd::prelude::*;

verus! {

/// A configuration document: scalars, arrays, and objects that map keys to
/// documents. A number is held as its literal text. An object is held as a
/// list of entries; where a key occurs more than once, its last entry counts.
#[derive(Debug, PartialEq, Eq)]
pub enum ConfigTree {
    Null,
    Bool(bool),
    Number(String),
    Text(String),
    Array(Vec<ConfigTree>),
    Object(Vec<(String, ConfigTree)>),
}

/// A configuration document as plain data.
#[verifier::ext_equal]
pub enum TreeView {
    Null,
    Bool(bool),
    Number(Seq<char>),
    Text(Seq<char>),
    Array(Seq<TreeView>),
    Object(Map<Seq<char>, TreeView>),
}

/// The map that a list of entries stands for: later entries win.
pub open spec fn entries_map(entries: Seq<(String, ConfigTree)>) -> Map<Seq<char>, TreeView>
    decreases entries, 0nat,
{
    if entries.len() == 0 {
        Map::empty()
    } else {
        entries_map(entries.drop_last()).insert(entries.last().0@, tree_view(entries.last().1))
    }
}

/// The items of an array as plain data.
pub open spec fn items_view(items: Seq<ConfigTree>) -> Seq<TreeView>
    decreases items, 0nat,
{
    if items.len() == 0 {
        Seq::empty()
    } else {
        items_view(items.drop_last()).push(tree_view(items.last()))
    }
}

/// A document as plain data.
pub open spec fn tree_view(tree: ConfigTree) -> TreeView
    decreases tree, 1nat,
{
    match tree {
        ConfigTree::Null => TreeView::Null,
        ConfigTree::Bool(b) => TreeView::Bool(b),
        ConfigTree::Number(n) => TreeView::Number(n@),
        ConfigTree::Text(t) => TreeView::Text(t@),
        ConfigTree::Array(items) => TreeView::Array(items_view(items@)),
        ConfigTree::Object(entries) => TreeView::Object(entries_map(entries@)),
    }
}

impl View for ConfigTree {
    type V = TreeView;

    open spec fn view(&self) -> TreeView {
        tree_view(*self)
    }
}

/// The deep merge of `over` onto `base`. Two objects merge key by key: a
/// key of one side alone keeps its value, a key of both merges the two
/// values. In every other pairing `over` stands.
pub open spec fn merge_trees(base: TreeView, over: TreeView) -> TreeView
    decreases over,
{
    match (base, over) {
        (TreeView::Object(b), TreeView::Object(o)) => TreeView::Object(
            Map::new(
                |k: Seq<char>| b.dom().contains(k) || o.dom().contains(k),
                |k: Seq<char>|
                    if o.dom().contains(k) {
                        if b.dom().contains(k) {
                            merge_trees(b[k], o[k])
                        } else {
                            o[k]
                        }
                    } else {
                        b[k]
                    },
            ),
        ),
        _ => over,
    }
}

/// The value that stands in `tree` at the end of `path`, a list of object
/// keys from the root down. The empty path ends at the tree itself.
pub open spec fn value_at(tree: TreeView, path: Seq<Seq<char>>) -> Option<TreeView>
    decreases path.len(),
{
    if path.len() == 0 {
        Some(tree)
    } else {
        match tree {
            TreeView::Object(entries) => if entries.dom().contains(path[0]) {
                value_at(entries[path[0]], path.drop_first())
            } else {
                None
            },
            _ => None,
        }
    }
}

/// `over` leaves `path` alone: it holds objects along the path down to one
/// that lacks the next key.
pub open spec fn leaves_alone(over: TreeView, path: Seq<Seq<char>>) -> bool
    decreases path.len(),
{
    &&& path.len() > 0
    &&& over matches TreeView::Object(entries)
    &&& entries.dom().contains(path[0]) ==> leaves_alone(entries[path[0]], path.drop_first())
}

/// What lies in the defaults alone survives a merge: a value of `base` on a
/// path that `over` leaves alone stands on that path in the merged tree.
pub proof fn lemma_default_survives(
    base: TreeView,
    over: TreeView,
    path: Seq<Seq<char>>,
    value: TreeView,
)
    requires
        value_at(base, path) == Some(value),
        leaves_alone(over, path),
    ensures
        value_at(merge_trees(base, over), path) == Some(value),
    decreases path.len(),
{
    let b = base->Object_0;
    let o = over->Object_0;
    let key = path[0];
    if o.dom().contains(key) {
        lemma_default_survives(b[key], o[key], path.drop_first(), value);
    }
}

/// What the override holds replaces the default: a value of `over` that is
/// no object stands on its path in the merged tree, whatever `base` holds.
pub proof fn lemma_override_replaces(
    base: TreeView,
    over: TreeView,
    path: Seq<Seq<char>>,
    value: TreeView,
)
    requires
        value_at(over, path) == Some(value),
        !(value is Object),
    ensures
        value_at(merge_trees(base, over), path) == Some(value),
    decreases path.len(),
{
    if path.len() > 0 {
        let o = over->Object_0;
        let key = path[0];
        if base is Object {
            let b = base->Object_0;
            if b.dom().contains(key) {
                lemma_override_replaces(b[key], o[key], path.drop_first(), value);
            }
        }
    }
}

/// Merging a tree with itself gives the tree.
pub proof fn lemma_merge_with_itself(tree: TreeView)
    ensures
        merge_trees(tree, tree) == tree,
    decreases tree,
{
    if let TreeView::Object(entries) = tree {
        let merged = merge_trees(tree, tree)->Object_0;
        assert forall|k: Seq<char>| entries.dom().contains(k) implies #[trigger] merged[k]
            == entries[k] by {
            lemma_merge_with_itself(entries[k]);
        }
        assert(merged =~= entries);
    }
}

/// Merging the same override a second time changes nothing.
pub proof fn lemma_merge_twice(base: TreeView, over: TreeView)
    ensures
        merge_trees(merge_trees(base, over), over) == merge_trees(base, over),
    decreases over,
{
    let once = merge_trees(base, over);
    match (base, over) {
        (TreeView::Object(b), TreeView::Object(o)) => {
            let m = once->Object_0;
            let twice = merge_trees(once, over)->Object_0;
            assert forall|k: Seq<char>| m.dom().contains(k) implies #[trigger] twice[k]
                == m[k] by {
                if o.dom().contains(k) {
                    if b.dom().contains(k) {
                        lemma_merge_twice(b[k], o[k]);
                    } else {
                        lemma_merge_with_itself(o[k]);
                    }
                }
            }
            assert(twice =~= m);
        },
        _ => {
            lemma_merge_with_itself(over);
        },
    }
}

/// Merging the empty object onto an object gives that object.
pub proof fn lemma_merge_empty_override(base: TreeView)
    requires
        base is Object,
    ensures
        merge_trees(base, TreeView::Object(Map::empty())) == base,
{
    let merged = merge_trees(base, TreeView::Object(Map::empty()))->Object_0;
    assert(merged =~= base->Object_0);
}

/// Merging onto anything but an object gives the override.
pub proof fn lemma_merge_onto_scalar(base: TreeView, over: TreeView)
    requires
        !(base is Object) || !(over is Object),
    ensures
        merge_trees(base, over) == over,
{
}

/// The part of a merge of two objects that lies under the keys of `base`.
pub open spec fn merged_under_base(
    base: Map<Seq<char>, TreeView>,
    over: Map<Seq<char>, TreeView>,
) -> Map<Seq<char>, TreeView> {
    Map::new(
        |k: Seq<char>| base.dom().contains(k),
        |k: Seq<char>|
            if over.dom().contains(k) {
                merge_trees(base[k], over[k])
            } else {
                base[k]
            },
    )
}

/// `merged` with the entries of `over` whose keys `merged` lacks.
pub open spec fn with_new_keys(
    merged: Map<Seq<char>, TreeView>,
    over: Map<Seq<char>, TreeView>,
) -> Map<Seq<char>, TreeView> {
    Map::new(
        |k: Seq<char>| merged.dom().contains(k) || over.dom().contains(k),
        |k: Seq<char>|
            if merged.dom().contains(k) {
                merged[k]
            } else {
                over[k]
            },
    )
}

/// The entries before position `n + 1` stand for the map of the entries
/// before `n` with entry `n` put on top.
pub proof fn lemma_entries_map_step(entries: Seq<(String, ConfigTree)>, n: int)
    requires
        0 <= n < entries.len(),
    ensures
        entries_map(entries.take(n + 1)) == entries_map(entries.take(n)).insert(
            entries[n].0@,
            tree_view(entries[n].1),
        ),
{
    assert(entries.take(n + 1).drop_last() =~= entries.take(n));
}

/// A key that no entry carries is not in the map.
pub proof fn lemma_entries_map_absent(entries: Seq<(String, ConfigTree)>, key: Seq<char>)
    requires
        forall|j: int| 0 <= j < entries.len() ==> (#[trigger] entries[j]).0@ != key,
    ensures
        !entries_map(entries).dom().contains(key),
    decreases entries.len(),
{
    if entries.len() > 0 {
        let front = entries.drop_last();
        assert forall|j: int| 0 <= j < front.len() implies (#[trigger] front[j]).0@ != key by {
            assert(front[j] == entries[j]);
        }
        lemma_entries_map_absent(front, key);
    }
}

/// The last entry that carries a key gives the key's value.
pub proof fn lemma_entries_map_last(entries: Seq<(String, ConfigTree)>, at: int, key: Seq<char>)
    requires
        0 <= at < entries.len(),
        entries[at].0@ == key,
        forall|j: int| at < j < entries.len() ==> (#[trigger] entries[j]).0@ != key,
    ensures
        entries_map(entries).dom().contains(key),
        entries_map(entries)[key] == tree_view(entries[at].1),
    decreases entries.len(),
{
    if at < entries.len() - 1 {
        let front = entries.drop_last();
        assert forall|j: int| at < j < front.len() implies (#[trigger] front[j]).0@ != key by {
            assert(front[j] == entries[j]);
        }
        assert(front[at] == entries[at]);
        lemma_entries_map_last(front, at, key);
    }
}

/// The view of an array has the views of its items, in order.
pub proof fn lemma_items_view(items: Seq<ConfigTree>)
    ensures
        items_view(items).len() == items.len(),
        forall|i: int| 0 <= i < items.len() ==> (#[trigger] items_view(items)[i]) == tree_view(items[i]),
    decreases items.len(),
{
    if items.len() > 0 {
        lemma_items_view(items.drop_last());
    }
}

/// The position of the entry that gives `key` its value, if there is one.
fn find_entry(entries: &Vec<(String, ConfigTree)>, key: &String) -> (found: Option<usize>)
    ensures
        match found {
            Some(at) => {
                &&& at < entries.len()
                &&& entries[at as int].0@ == key@
                &&& entries_map(entries@).dom().contains(key@)
                &&& entries_map(entries@)[key@] == tree_view(entries[at as int].1)
            },
            None => !entries_map(entries@).dom().contains(key@),
        },
{
    let mut at: usize = entries.len();
    while at > 0
        invariant
            at <= entries.len(),
            forall|j: int| at <= j < entries.len() ==> (#[trigger] entries@[j]).0@ != key@,
        decreases at,
    {
        at -= 1;
        if entries[at].0 == *key {
            proof {
                lemma_entries_map_last(entries@, at as int, key@);
            }
            return Some(at);
        }
    }
    proof {
        lemma_entries_map_absent(entries@, key@);
    }
    None
}

impl ConfigTree {
    /// A copy of this document.
    pub fn duplicate(&self) -> (copy: ConfigTree)
        ensures
            copy@ == self@,
        decreases self,
    {
        match self {
            ConfigTree::Null => ConfigTree::Null,
            ConfigTree::Bool(b) => ConfigTree::Bool(*b),
            ConfigTree::Number(n) => ConfigTree::Number(n.clone()),
            ConfigTree::Text(t) => ConfigTree::Text(t.clone()),
            ConfigTree::Array(items) => {
                let mut copies: Vec<ConfigTree> = Vec::new();
                let mut i: usize = 0;
                while i < items.len()
                    invariant
                        i <= items.len(),
                        self == ConfigTree::Array(*items),
                        items_view(copies@) == items_view(items@.take(i as int)),
                        copies.len() == i,
                    decreases items.len() - i,
                {
                    let ghost before = copies@;
                    proof {
                        vstd::std_specs::vec::axiom_vec_index_decreases(*items, i as int);
                        assert(decreases_to!(*self => self->Array_0));
                    }
                    let item = items[i].duplicate();
                    copies.push(item);
                    proof {
                        assert(items@.take(i + 1).drop_last() =~= items@.take(i as int));
                        assert(copies@.drop_last() =~= before);
                    }
                    i += 1;
                }
                assert(items@.take(i as int) =~= items@);
                ConfigTree::Array(copies)
            },
            ConfigTree::Object(entries) => {
                let mut copies: Vec<(String, ConfigTree)> = Vec::new();
                let mut i: usize = 0;
                while i < entries.len()
                    invariant
                        i <= entries.len(),
                        self == ConfigTree::Object(*entries),
                        entries_map(copies@) == entries_map(entries@.take(i as int)),
                    decreases entries.len() - i,
                {
                    let ghost before = copies@;
                    proof {
                        vstd::std_specs::vec::axiom_vec_index_decreases(*entries, i as int);
                        assert(decreases_to!(*self => self->Object_0));
                    }
                    let value = entries[i].1.duplicate();
                    let key = entries[i].0.clone();
                    copies.push((key, value));
                    proof {
                        lemma_entries_map_step(entries@, i as int);
                        assert(copies@.drop_last() =~= before);
                    }
                    i += 1;
                }
                assert(entries@.take(i as int) =~= entries@);
                ConfigTree::Object(copies)
            },
        }
    }
}

/// Merges the entries of two objects: the entries of `base`, each merged
/// with the value that `over` gives its key, then the entries of `over`
/// whose keys `base` lacks.
fn merge_entries(base: &Vec<(String, ConfigTree)>, over: &Vec<(String, ConfigTree)>) -> (merged: Vec<
    (String, ConfigTree),
>)
    ensures
        TreeView::Object(entries_map(merged@)) == merge_trees(
            TreeView::Object(entries_map(base@)),
            TreeView::Object(entries_map(over@)),
        ),
    decreases *over, 0nat,
{
    let ghost base_map = entries_map(base@);
    let ghost over_map = entries_map(over@);
    let mut merged: Vec<(String, ConfigTree)> = Vec::new();
    let mut i: usize = 0;
    while i < base.len()
        invariant
            i <= base.len(),
            over_map == entries_map(over@),
            entries_map(merged@) == merged_under_base(entries_map(base@.take(i as int)), over_map),
        decreases base.len() - i,
    {
        let ghost before = merged@;
        let key = base[i].0.clone();
        let value = match find_entry(over, &base[i].0) {
            Some(at) => {
                proof {
                    vstd::std_specs::vec::axiom_vec_index_decreases(*over, at as int);
                }
                deep_merge(&base[i].1, &over[at].1)
            },
            None => base[i].1.duplicate(),
        };
        merged.push((key, value));
        proof {
            lemma_entries_map_step(base@, i as int);
            assert(merged@.drop_last() =~= before);
            assert(entries_map(merged@) =~= merged_under_base(
                entries_map(base@.take(i + 1)),
                over_map,
            ));
        }
        i += 1;
    }
    assert(base@.take(i as int) =~= base@);
    let ghost under_base = entries_map(merged@);
    let mut j: usize = 0;
    while j < over.len()
        invariant
            j <= over.len(),
            base_map == entries_map(base@),
            under_base.dom() == base_map.dom(),
            entries_map(merged@) == with_new_keys(
                under_base,
                entries_map(over@.take(j as int)),
            ),
        decreases over.len() - j,
    {
        let ghost before = merged@;
        proof {
            lemma_entries_map_step(over@, j as int);
        }
        if find_entry(base, &over[j].0).is_none() {
            let key = over[j].0.clone();
            let value = over[j].1.duplicate();
            merged.push((key, value));
            proof {
                assert(merged@.drop_last() =~= before);
            }
        }
        assert(entries_map(merged@) =~= with_new_keys(
            under_base,
            entries_map(over@.take(j + 1)),
        ));
        j += 1;
    }
    assert(over@.take(j as int) =~= over@);
    proof {
        assert(entries_map(merged@) =~= merge_trees(
            TreeView::Object(base_map),
            TreeView::Object(over_map),
        )->Object_0);
    }
    merged
}

/// The deep merge of `over` onto `base`, as a new document.
pub fn deep_merge(base: &ConfigTree, over: &ConfigTree) -> (merged: ConfigTree)
    ensures
        merged@ == merge_trees(base@, over@),
    decreases *over, 1nat,
{
    match (base, over) {
        (ConfigTree::Object(base_entries), ConfigTree::Object(over_entries)) => {
            assert(decreases_to!(*over => over->Object_0));
            ConfigTree::Object(merge_entries(base_entries, over_entries))
        },
        _ => over.duplicate(),
    }
}

} // verus!
