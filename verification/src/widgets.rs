//! Widget registry: widget ids mapped to metadata for the debug interface.
//!
//! Entries are kept sorted by widget id, so a snapshot comes out in id order.
use vstd::prelude::*;
use crate::keyed::{assoc, distinct_keys, has_key, lemma_assoc_dom, lemma_assoc_index, lemma_assoc_insert, lemma_assoc_len, lemma_assoc_remove, lemma_assoc_update};
use crate::text::{
    lemma_text_less_asymmetric,
    lemma_text_less_irreflexive,
    lemma_text_less_total,
    lemma_text_less_transitive,
    owned,
    str_eq,
    str_less,
    text_less,
};

verus! {

/// Metadata about one registered widget.
#[derive(Debug)]
pub struct WidgetEntry {
    /// The widget's id; unique across the UI.
    pub id: String,
    /// Widget kind, e.g. "Button" or "TextInput".
    pub kind: String,
    /// Label shown to the user, if any.
    pub label: Option<String>,
    /// Whether the widget is enabled.
    pub enabled: bool,
    /// Current value, if the widget holds text or a scalar.
    pub value: Option<String>,
}

/// A copy of an optional string.
pub fn clone_opt_string(o: &Option<String>) -> (r: Option<String>)
    ensures
        r == *o,
{
    match o {
        Some(s) => Some(s.clone()),
        None => None,
    }
}

impl WidgetEntry {
    /// An enabled button with a label and no value.
    pub fn button(id: String, label: String) -> (e: Self)
        ensures
            e.id == id,
            e.kind@ == "Button"@,
            e.label == Some(label),
            e.enabled,
            e.value is None,
    {
        WidgetEntry { id, kind: owned("Button"), label: Some(label), enabled: true, value: None }
    }

    /// An enabled text input with a label and its current value.
    pub fn text_input(id: String, label: String, value: String) -> (e: Self)
        ensures
            e.id == id,
            e.kind@ == "TextInput"@,
            e.label == Some(label),
            e.enabled,
            e.value == Some(value),
    {
        WidgetEntry {
            id,
            kind: owned("TextInput"),
            label: Some(label),
            enabled: true,
            value: Some(value),
        }
    }

    /// A field-by-field copy.
    pub fn duplicate(&self) -> (e: Self)
        ensures
            e == *self,
    {
        WidgetEntry {
            id: self.id.clone(),
            kind: self.kind.clone(),
            label: clone_opt_string(&self.label),
            enabled: self.enabled,
            value: clone_opt_string(&self.value),
        }
    }
}

impl Clone for WidgetEntry {
    fn clone(&self) -> (e: Self)
        ensures
            e == *self,
    {
        self.duplicate()
    }
}

/// Entries keyed by their id text.
pub open spec fn keyed_entries(s: Seq<WidgetEntry>) -> Seq<(Seq<char>, WidgetEntry)> {
    s.map_values(|e: WidgetEntry| (e.id@, e))
}

/// Entries are in strictly increasing id order.
pub open spec fn sorted_by_id(s: Seq<WidgetEntry>) -> bool {
    forall|i: int, j: int| 0 <= i < j < s.len() ==> text_less(s[i].id@, s[j].id@)
}

/// The widget registry.
#[derive(Debug)]
pub struct WidgetRegistry {
    entries: Vec<WidgetEntry>,
}

impl WidgetRegistry {
    /// The entries in id order.
    pub closed spec fn entries_view(&self) -> Seq<WidgetEntry> {
        self.entries@
    }

    /// Registered entries by widget id.
    pub open spec fn by_id(&self) -> Map<Seq<char>, WidgetEntry> {
        assoc(keyed_entries(self.entries_view()))
    }

    /// Entries are kept in strictly increasing id order.
    pub open spec fn wf(&self) -> bool {
        sorted_by_id(self.entries_view())
    }

    /// An empty registry.
    pub fn new() -> (r: Self)
        ensures
            r.wf(),
            r.entries_view() == Seq::<WidgetEntry>::empty(),
            r.by_id() == Map::<Seq<char>, WidgetEntry>::empty(),
    {
        let r = WidgetRegistry { entries: Vec::new() };
        assert(keyed_entries(r.entries@) =~= Seq::empty());
        r
    }

    /// Registers an entry, replacing any entry with the same id.
    pub fn register(&mut self, entry: WidgetEntry)
        requires
            old(self).wf(),
        ensures
            final(self).wf(),
            final(self).by_id() == old(self).by_id().insert(entry.id@, entry),
    {
        let ghost s0 = self.entries@;
        proof {
            lemma_sorted_distinct(s0);
        }
        let n = self.entries.len();
        let mut i: usize = 0;
        while i < n && str_less(self.entries[i].id.as_str(), entry.id.as_str())
            invariant
                n == self.entries@.len(),
                s0 == self.entries@,
                i <= n,
                forall|j: int| 0 <= j < i ==> text_less(s0[j].id@, entry.id@),
            decreases n - i,
        {
            i = i + 1;
        }
        let ghost k = entry.id@;
        if i < n && self.entries[i].id == entry.id {
            proof {
                assert(keyed_entries(s0)[i as int] == (k, s0[i as int]));
                lemma_assoc_update(keyed_entries(s0), i as int, entry);
            }
            self.entries.set(i, entry);
            proof {
                assert(keyed_entries(self.entries@) =~= keyed_entries(s0).update(
                    i as int,
                    (k, entry),
                ));
                assert forall|a: int, b: int|
                    0 <= a < b < self.entries@.len() implies text_less(
                    self.entries@[a].id@,
                    self.entries@[b].id@,
                ) by {
                    assert(self.entries@[a].id@ == s0[a].id@);
                    assert(self.entries@[b].id@ == s0[b].id@);
                }
            }
        } else {
            proof {
                assert(!has_key(keyed_entries(s0), k)) by {
                    if has_key(keyed_entries(s0), k) {
                        let j = choose|j: int|
                            0 <= j < keyed_entries(s0).len() && keyed_entries(s0)[j].0 == k;
                        assert(s0[j].id@ == k);
                        if j < i {
                            lemma_text_less_irreflexive(k);
                        } else if j == i {
                        } else {
                            lemma_text_less_total(s0[i as int].id@, k);
                            lemma_text_less_transitive(k, s0[i as int].id@, s0[j].id@);
                            lemma_text_less_irreflexive(k);
                        }
                    }
                }
                lemma_assoc_insert(keyed_entries(s0), i as int, k, entry);
                if i < n {
                    lemma_text_less_total(s0[i as int].id@, k);
                }
            }
            self.entries.insert(i, entry);
            proof {
                let t = self.entries@;
                assert(keyed_entries(t) =~= keyed_entries(s0).insert(i as int, (k, entry)));
                assert forall|a: int, b: int| 0 <= a < b < t.len() implies text_less(
                    t[a].id@,
                    t[b].id@,
                ) by {
                    if b < i {
                        assert(t[a] == s0[a] && t[b] == s0[b]);
                    } else if b == i {
                        assert(t[a] == s0[a]);
                    } else if a < i {
                        assert(t[a] == s0[a] && t[b] == s0[b - 1]);
                        lemma_text_less_transitive(s0[a].id@, k, s0[i as int].id@);
                        if b - 1 > i {
                            lemma_text_less_transitive(s0[a].id@, s0[i as int].id@, s0[b - 1].id@);
                        }
                    } else if a == i {
                        assert(t[b] == s0[b - 1]);
                        if b - 1 > i {
                            lemma_text_less_transitive(k, s0[i as int].id@, s0[b - 1].id@);
                        }
                    } else {
                        assert(t[a] == s0[a - 1] && t[b] == s0[b - 1]);
                    }
                }
            }
        }
    }

    /// Removes the entry with the given id, if any.
    pub fn unregister(&mut self, id: &str)
        requires
            old(self).wf(),
        ensures
            final(self).wf(),
            final(self).by_id() == old(self).by_id().remove(id@),
    {
        let ghost s0 = self.entries@;
        proof {
            lemma_sorted_distinct(s0);
            lemma_assoc_dom(keyed_entries(s0));
        }
        let n = self.entries.len();
        let mut i: usize = 0;
        while i < n
            invariant
                n == self.entries@.len(),
                s0 == self.entries@,
                s0 == old(self).entries@,
                i <= n,
                distinct_keys(keyed_entries(s0)),
                sorted_by_id(s0),
                forall|j: int| 0 <= j < i ==> s0[j].id@ != id@,
            decreases n - i,
        {
            if str_eq(self.entries[i].id.as_str(), id) {
                proof {
                    assert(keyed_entries(s0)[i as int].0 == id@);
                    lemma_assoc_remove(keyed_entries(s0), i as int);
                }
                let _ = self.entries.remove(i);
                proof {
                    let t = self.entries@;
                    assert(keyed_entries(t) =~= keyed_entries(s0).remove(i as int));
                    assert forall|a: int, b: int| 0 <= a < b < t.len() implies text_less(
                        t[a].id@,
                        t[b].id@,
                    ) by {
                        let a1 = if a < i { a } else { a + 1 };
                        let b1 = if b < i { b } else { b + 1 };
                        assert(t[a] == s0[a1] && t[b] == s0[b1]);
                    }
                }
                return;
            }
            i = i + 1;
        }
        proof {
            if has_key(keyed_entries(s0), id@) {
                let j = choose|j: int|
                    0 <= j < keyed_entries(s0).len() && keyed_entries(s0)[j].0 == id@;
                assert(s0[j].id@ == id@);
            }
            assert(self.by_id() =~= self.by_id().remove(id@));
        }
    }

    /// Removes all entries.
    pub fn clear(&mut self)
        ensures
            final(self).wf(),
            final(self).entries_view() == Seq::<WidgetEntry>::empty(),
            final(self).by_id() == Map::<Seq<char>, WidgetEntry>::empty(),
    {
        self.entries.clear();
        assert(keyed_entries(self.entries@) =~= Seq::empty());
    }

    /// Copies of all entries, in strictly increasing id order.
    pub fn snapshot(&self) -> (r: Vec<WidgetEntry>)
        requires
            self.wf(),
        ensures
            r@ == self.entries_view(),
            sorted_by_id(r@),
    {
        let mut out: Vec<WidgetEntry> = Vec::new();
        let mut i: usize = 0;
        while i < self.entries.len()
            invariant
                i <= self.entries@.len(),
                out@ == self.entries@.take(i as int),
            decreases self.entries@.len() - i,
        {
            out.push(self.entries[i].duplicate());
            i = i + 1;
            assert(out@ =~= self.entries@.take(i as int));
        }
        assert(self.entries@.take(i as int) =~= self.entries@);
        out
    }

    /// The entry registered under `id`, if any.
    pub fn get(&self, id: &str) -> (r: Option<&WidgetEntry>)
        requires
            self.wf(),
        ensures
            match r {
                Some(e) => self.by_id().contains_key(id@) && *e == self.by_id()[id@],
                None => !self.by_id().contains_key(id@),
            },
    {
        let ghost s0 = self.entries@;
        proof {
            lemma_sorted_distinct(s0);
            lemma_assoc_dom(keyed_entries(s0));
        }
        let n = self.entries.len();
        let mut i: usize = 0;
        while i < n
            invariant
                n == self.entries@.len(),
                s0 == self.entries@,
                i <= n,
                distinct_keys(keyed_entries(s0)),
                forall|j: int| 0 <= j < i ==> s0[j].id@ != id@,
            decreases n - i,
        {
            if str_eq(self.entries[i].id.as_str(), id) {
                proof {
                    lemma_assoc_index(keyed_entries(s0), i as int);
                }
                return Some(&self.entries[i]);
            }
            i = i + 1;
        }
        proof {
            if has_key(keyed_entries(s0), id@) {
                let j = choose|j: int|
                    0 <= j < keyed_entries(s0).len() && keyed_entries(s0)[j].0 == id@;
                assert(s0[j].id@ == id@);
            }
        }
        None
    }
}

/// Sorted entries have distinct ids.
pub proof fn lemma_sorted_distinct(s: Seq<WidgetEntry>)
    requires
        sorted_by_id(s),
    ensures
        distinct_keys(keyed_entries(s)),
{
    let k = keyed_entries(s);
    assert forall|a: int, b: int| 0 <= a < k.len() && 0 <= b < k.len() && a != b implies k[a].0
        != k[b].0 by {
        if a < b {
            assert(text_less(s[a].id@, s[b].id@));
            if s[a].id@ == s[b].id@ {
                lemma_text_less_irreflexive(s[a].id@);
            }
        } else {
            assert(text_less(s[b].id@, s[a].id@));
            if s[a].id@ == s[b].id@ {
                lemma_text_less_irreflexive(s[a].id@);
            }
        }
    }
}

/// A snapshot lists exactly the registered entries, each once, in id order:
/// an id is registered if and only if some entry of the snapshot carries it,
/// and that entry is the registered one; so the snapshot has one entry per
/// registered id.
pub proof fn lemma_snapshot_matches_registry(reg: WidgetRegistry, snap: Seq<WidgetEntry>)
    requires
        reg.wf(),
        snap == reg.entries_view(),
    ensures
        sorted_by_id(snap),
        reg.by_id().dom().finite(),
        snap.len() == reg.by_id().dom().len(),
        forall|i: int| 0 <= i < snap.len() ==> #[trigger] reg.by_id().contains_key(snap[i].id@)
            && reg.by_id()[snap[i].id@] == snap[i],
        forall|k: Seq<char>| #[trigger]
            reg.by_id().contains_key(k) ==> exists|i: int| 0 <= i < snap.len() && snap[i].id@ == k,
{
    lemma_sorted_distinct(snap);
    lemma_assoc_dom(keyed_entries(snap));
    lemma_assoc_len(keyed_entries(snap));
    assert forall|i: int| 0 <= i < snap.len() implies #[trigger] reg.by_id().contains_key(
        snap[i].id@,
    ) && reg.by_id()[snap[i].id@] == snap[i] by {
        lemma_assoc_index(keyed_entries(snap), i);
    }
    assert forall|k: Seq<char>| #[trigger] reg.by_id().contains_key(k) implies exists|i: int|
        0 <= i < snap.len() && snap[i].id@ == k by {
        let j = choose|j: int| 0 <= j < keyed_entries(snap).len() && keyed_entries(snap)[j].0 == k;
        assert(snap[j].id@ == k);
    }
}

/// Registering an entry replaces the entry with its id, leaves every other
/// id as it was, and grows the snapshot by one exactly when the id was new.
pub proof fn lemma_register_count(before: WidgetRegistry, after: WidgetRegistry, e: WidgetEntry)
    requires
        before.wf(),
        after.wf(),
        after.by_id() == before.by_id().insert(e.id@, e),
    ensures
        after.by_id().contains_key(e.id@),
        after.by_id()[e.id@] == e,
        forall|k: Seq<char>| k != e.id@ ==> #[trigger] after.by_id().contains_key(k)
            == before.by_id().contains_key(k) && (before.by_id().contains_key(k) ==> after.by_id()[k]
            == before.by_id()[k]),
        after.entries_view().len() == before.entries_view().len() + if before.by_id().contains_key(
            e.id@,
        ) {
            0int
        } else {
            1int
        },
{
    lemma_snapshot_matches_registry(before, before.entries_view());
    lemma_snapshot_matches_registry(after, after.entries_view());
    if before.by_id().contains_key(e.id@) {
        assert(after.by_id().dom() =~= before.by_id().dom());
    } else {
        assert(after.by_id().dom() =~= before.by_id().dom().insert(e.id@));
    }
}

} // verus!
