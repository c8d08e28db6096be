//! Session reports: what changed between two widget-tree snapshots.
use vstd::prelude::*;
use crate::debugger::{has_widget, first_with_id, WidgetEntry};
use crate::text::{owned, str_eq};

verus! {

/// A changed field: its name and its text before and after.
#[derive(Debug, Clone)]
pub struct FieldDiff {
    pub field: String,
    pub before: String,
    pub after: String,
}

impl View for FieldDiff {
    type V = (Seq<char>, Seq<char>, Seq<char>);

    open spec fn view(&self) -> (Seq<char>, Seq<char>, Seq<char>) {
        (self.field@, self.before@, self.after@)
    }
}

/// A widget that was added, removed or changed between two snapshots.
#[derive(Debug, Clone)]
pub struct WidgetDiff {
    pub widget_id: String,
    pub kind: String,
    /// `"added"`, `"removed"` or `"changed"`.
    pub change: String,
    /// The changed fields, for a changed widget.
    pub fields: Vec<FieldDiff>,
}

/// A field diff as text.
pub type FieldDiffView = (Seq<char>, Seq<char>, Seq<char>);

/// A widget diff as text: id, kind, change and the changed fields.
pub type WidgetDiffView = (Seq<char>, Seq<char>, Seq<char>, Seq<FieldDiffView>);

/// The views of a sequence of field diffs.
pub open spec fn field_views(s: Seq<FieldDiff>) -> Seq<FieldDiffView> {
    s.map_values(|f: FieldDiff| f@)
}

impl View for WidgetDiff {
    type V = WidgetDiffView;

    open spec fn view(&self) -> WidgetDiffView {
        (self.widget_id@, self.kind@, self.change@, field_views(self.fields@))
    }
}

/// The views of a sequence of widget diffs.
pub open spec fn diff_views(s: Seq<WidgetDiff>) -> Seq<WidgetDiffView> {
    s.map_values(|d: WidgetDiff| d@)
}

/// The full report of one debugging session.
#[derive(Debug)]
pub struct SessionReport {
    pub session_id: String,
    pub timestamp: String,
    /// The action that was performed.
    pub action: String,
    /// True if a screenshot was unavailable.
    pub incomplete: bool,
    /// Changed application-state fields.
    pub state_diffs: Vec<FieldDiff>,
    /// Changed widgets.
    pub widget_diffs: Vec<WidgetDiff>,
    /// Free-form notes.
    pub notes: Vec<String>,
}

/// `true` or `false` as text.
pub open spec fn bool_text(b: bool) -> Seq<char> {
    if b {
        "true"@
    } else {
        "false"@
    }
}

/// An optional string as text.
pub open spec fn opt_view(o: Option<String>) -> Option<Seq<char>> {
    match o {
        Some(s) => Some(s@),
        None => None,
    }
}

/// The debug rendering of an optional string (`None` or `Some("…")` with the
/// string escaped), as std's `Debug` formats it.
pub uninterp spec fn option_debug_text(o: Option<Seq<char>>) -> Seq<char>;

/// std's `Debug` formatting of an `Option<String>`: `None` for none; for a
/// string, `Some(` and its escaped, quoted form and `)`, which is only named
/// here.
#[verifier::external_body]
fn debug_option(o: &Option<String>) -> (r: String)
    ensures
        r@ == option_debug_text(opt_view(*o)),
        o is None ==> r@ == "None"@,
{
    format!("{:?}", o)
}

/// The fields in which widget `b` differs from widget `a`, in the order
/// enabled, value, label.
pub open spec fn field_diffs(b: WidgetEntry, a: WidgetEntry) -> Seq<FieldDiffView> {
    (if b.enabled != a.enabled {
        seq![("enabled"@, bool_text(b.enabled), bool_text(a.enabled))]
    } else {
        Seq::empty()
    }) + (if opt_view(b.value) != opt_view(a.value) {
        seq![
            ("value"@, option_debug_text(opt_view(b.value)), option_debug_text(opt_view(a.value))),
        ]
    } else {
        Seq::empty()
    }) + (if b.label@ != a.label@ {
        seq![("label"@, b.label@, a.label@)]
    } else {
        Seq::empty()
    })
}

/// The first widget of `ws` whose id is `id`.
pub open spec fn match_of(ws: Seq<WidgetEntry>, id: Seq<char>) -> WidgetEntry {
    ws[choose|i: int| first_with_id(ws, id, i)]
}

/// What a widget of the earlier snapshot contributes: removed if the later
/// snapshot lacks its id, changed if the matching widget differs, else nothing.
pub open spec fn before_entry(b: WidgetEntry, after: Seq<WidgetEntry>) -> Seq<WidgetDiffView> {
    if !has_widget(after, b.id@) {
        seq![(b.id@, b.kind@, "removed"@, Seq::<FieldDiffView>::empty())]
    } else {
        let f = field_diffs(b, match_of(after, b.id@));
        if f.len() > 0 {
            seq![(b.id@, b.kind@, "changed"@, f)]
        } else {
            Seq::empty()
        }
    }
}

/// Removed and changed widgets, in the order of the earlier snapshot.
pub open spec fn removed_or_changed(before: Seq<WidgetEntry>, after: Seq<WidgetEntry>) -> Seq<
    WidgetDiffView,
>
    decreases before.len(),
{
    if before.len() == 0 {
        Seq::empty()
    } else {
        removed_or_changed(before.drop_last(), after) + before_entry(before.last(), after)
    }
}

/// Added widgets, in the order of the later snapshot.
pub open spec fn added(before: Seq<WidgetEntry>, after: Seq<WidgetEntry>) -> Seq<WidgetDiffView>
    decreases after.len(),
{
    if after.len() == 0 {
        Seq::empty()
    } else {
        added(before, after.drop_last()) + if has_widget(before, after.last().id@) {
            Seq::empty()
        } else {
            seq![(after.last().id@, after.last().kind@, "added"@, Seq::<FieldDiffView>::empty())]
        }
    }
}

/// All widget changes between two snapshots: removed and changed widgets
/// first, then added ones.
pub open spec fn widget_changes(before: Seq<WidgetEntry>, after: Seq<WidgetEntry>) -> Seq<
    WidgetDiffView,
> {
    removed_or_changed(before, after) + added(before, after)
}

/// Position of the first widget with id `id`, if any.
fn position_of(ws: &[WidgetEntry], id: &String) -> (r: Option<usize>)
    ensures
        match r {
            Some(i) => first_with_id(ws@, id@, i as int),
            None => !has_widget(ws@, id@),
        },
{
    let n = ws.len();
    let mut i: usize = 0;
    while i < n
        invariant
            n == ws@.len(),
            i <= n,
            forall|j: int| 0 <= j < i ==> ws@[j].id@ != id@,
        decreases n - i,
    {
        if str_eq(ws[i].id.as_str(), id.as_str()) {
            return Some(i);
        }
        i = i + 1;
    }
    None
}

/// Equality of optional strings by their text.
fn opt_text_eq(a: &Option<String>, b: &Option<String>) -> (r: bool)
    ensures
        r == (opt_view(*a) == opt_view(*b)),
{
    match (a, b) {
        (Some(x), Some(y)) => str_eq(x.as_str(), y.as_str()),
        (None, None) => true,
        _ => false,
    }
}

/// `true` or `false` as a `String`.
fn bool_string(b: bool) -> (r: String)
    ensures
        r@ == bool_text(b),
{
    if b {
        owned("true")
    } else {
        owned("false")
    }
}

/// The fields in which widget `b` differs from widget `a`.
fn diff_fields(b: &WidgetEntry, a: &WidgetEntry) -> (r: Vec<FieldDiff>)
    ensures
        field_views(r@) == field_diffs(*b, *a),
{
    let mut fields: Vec<FieldDiff> = Vec::new();
    if b.enabled != a.enabled {
        fields.push(
            FieldDiff {
                field: owned("enabled"),
                before: bool_string(b.enabled),
                after: bool_string(a.enabled),
            },
        );
    }
    let ghost f1 = field_views(fields@);
    if !opt_text_eq(&b.value, &a.value) {
        fields.push(
            FieldDiff {
                field: owned("value"),
                before: debug_option(&b.value),
                after: debug_option(&a.value),
            },
        );
    }
    let ghost f2 = field_views(fields@);
    if !str_eq(b.label.as_str(), a.label.as_str()) {
        fields.push(
            FieldDiff { field: owned("label"), before: b.label.clone(), after: a.label.clone() },
        );
    }
    proof {
        assert(field_views(fields@) =~= field_diffs(*b, *a));
    }
    fields
}

/// A widget diff with no field list.
fn plain_diff(w: &WidgetEntry, change: &str) -> (d: WidgetDiff)
    ensures
        d@ == (w.id@, w.kind@, change@, Seq::<FieldDiffView>::empty()),
{
    let d = WidgetDiff {
        widget_id: w.id.clone(),
        kind: w.kind.clone(),
        change: owned(change),
        fields: Vec::new(),
    };
    assert(field_views(d.fields@) =~= Seq::<FieldDiffView>::empty());
    d
}

/// Compares two widget lists: for each earlier widget, a removed entry if the
/// later list lacks its id, or a changed entry listing the differing fields of
/// the first later widget with that id; then an added entry for each later
/// widget whose id the earlier list lacks.
pub fn diff_widgets(before: &[WidgetEntry], after: &[WidgetEntry]) -> (r: Vec<WidgetDiff>)
    ensures
        diff_views(r@) == widget_changes(before@, after@),
{
    let mut diffs: Vec<WidgetDiff> = Vec::new();
    let nb = before.len();
    let mut i: usize = 0;
    while i < nb
        invariant
            nb == before@.len(),
            i <= nb,
            diff_views(diffs@) == removed_or_changed(before@.take(i as int), after@),
        decreases nb - i,
    {
        let bw = &before[i];
        let ghost d0 = diffs@;
        match position_of(after, &bw.id) {
            None => {
                diffs.push(plain_diff(bw, "removed"));
            },
            Some(j) => {
                let aw = &after[j];
                proof {
                    assert(first_with_id(after@, bw.id@, j as int));
                    let k = choose|k: int| first_with_id(after@, bw.id@, k);
                    assert(k == j as int) by {
                        if k < j {
                            assert(after@[k].id@ != bw.id@);
                        } else if k > j {
                            assert(after@[j as int].id@ != bw.id@);
                        }
                    }
                }
                let fields = diff_fields(bw, aw);
                if fields.len() > 0 {
                    let d = WidgetDiff {
                        widget_id: bw.id.clone(),
                        kind: bw.kind.clone(),
                        change: owned("changed"),
                        fields,
                    };
                    diffs.push(d);
                }
            },
        }
        proof {
            let t = before@.take(i + 1);
            assert(t.drop_last() =~= before@.take(i as int));
            assert(t.last() == before@[i as int]);
            assert(diff_views(diffs@) =~= removed_or_changed(before@.take(i as int), after@)
                + before_entry(before@[i as int], after@));
        }
        i = i + 1;
    }
    proof {
        assert(before@.take(nb as int) =~= before@);
    }
    let ghost first_part = diffs@;
    let na = after.len();
    let mut k: usize = 0;
    while k < na
        invariant
            na == after@.len(),
            k <= na,
            diff_views(first_part) == removed_or_changed(before@, after@),
            diffs@.len() >= first_part.len(),
            diffs@.subrange(0, first_part.len() as int) == first_part,
            diff_views(diffs@.subrange(first_part.len() as int, diffs@.len() as int)) == added(
                before@,
                after@.take(k as int),
            ),
        decreases na - k,
    {
        let aw = &after[k];
        let ghost d0 = diffs@;
        if position_of(before, &aw.id).is_none() {
            diffs.push(plain_diff(aw, "added"));
        }
        proof {
            let t = after@.take(k + 1);
            assert(t.drop_last() =~= after@.take(k as int));
            assert(t.last() == after@[k as int]);
            assert(diffs@.subrange(0, first_part.len() as int) =~= first_part);
            assert(diff_views(diffs@.subrange(first_part.len() as int, diffs@.len() as int))
                =~= added(before@, after@.take(k as int)) + if has_widget(
                before@,
                after@[k as int].id@,
            ) {
                Seq::empty()
            } else {
                seq![
                    (
                        after@[k as int].id@,
                        after@[k as int].kind@,
                        "added"@,
                        Seq::<FieldDiffView>::empty(),
                    ),
                ]
            });
        }
        k = k + 1;
    }
    proof {
        assert(after@.take(na as int) =~= after@);
        assert(diffs@ =~= diffs@.subrange(0, first_part.len() as int) + diffs@.subrange(
            first_part.len() as int,
            diffs@.len() as int,
        ));
        assert(diff_views(diffs@) =~= diff_views(first_part) + diff_views(
            diffs@.subrange(first_part.len() as int, diffs@.len() as int),
        ));
    }
    diffs
}

impl SessionReport {
    /// Assembles a report from the session's identity, the state diffs and the
    /// widget changes between the two trees.
    pub fn build(
        session_id: &str,
        timestamp: &str,
        action: &str,
        incomplete: bool,
        state_diffs: Vec<FieldDiff>,
        widgets_before: &[WidgetEntry],
        widgets_after: &[WidgetEntry],
        notes: Vec<String>,
    ) -> (r: Self)
        ensures
            r.session_id@ == session_id@,
            r.timestamp@ == timestamp@,
            r.action@ == action@,
            r.incomplete == incomplete,
            r.state_diffs == state_diffs,
            diff_views(r.widget_diffs@) == widget_changes(widgets_before@, widgets_after@),
            r.notes == notes,
    {
        let widget_diffs = diff_widgets(widgets_before, widgets_after);
        SessionReport {
            session_id: owned(session_id),
            timestamp: owned(timestamp),
            action: owned(action),
            incomplete,
            state_diffs,
            widget_diffs,
            notes,
        }
    }
}

/// Each field diff in `fs` is rendered from the earlier widget `b` (its before
/// text) and the later widget `a` (its after text), and names a field in which
/// the two widgets really differ.
pub open spec fn rendered_from(b: WidgetEntry, a: WidgetEntry, fs: Seq<FieldDiffView>) -> bool {
    forall|k: int|
        0 <= k < fs.len() ==> {
            &&& (#[trigger] fs[k]).0 == "label"@ ==> fs[k].1 == b.label@ && fs[k].2 == a.label@
                && b.label@ != a.label@
            &&& fs[k].0 == "enabled"@ ==> fs[k].1 == bool_text(b.enabled) && fs[k].2 == bool_text(
                a.enabled,
            ) && b.enabled != a.enabled
            &&& fs[k].0 == "value"@ ==> fs[k].1 == option_debug_text(opt_view(b.value)) && fs[k].2
                == option_debug_text(opt_view(a.value)) && opt_view(b.value) != opt_view(a.value)
        }
}

/// Every field in which `b` and `a` differ has a diff in `fs`.
pub open spec fn lists_every_change(b: WidgetEntry, a: WidgetEntry, fs: Seq<FieldDiffView>) -> bool {
    &&& b.label@ != a.label@ ==> exists|k: int| 0 <= k < fs.len() && (#[trigger] fs[k]).0 == "label"@
    &&& b.enabled != a.enabled ==> exists|k: int| 0 <= k < fs.len() && (#[trigger] fs[k]).0 == "enabled"@
    &&& opt_view(b.value) != opt_view(a.value) ==> exists|k: int|
        0 <= k < fs.len() && (#[trigger] fs[k]).0 == "value"@
}

proof fn lemma_field_names_differ()
    ensures
        "label"@ != "enabled"@,
        "label"@ != "value"@,
        "enabled"@ != "value"@,
        "changed"@ != "removed"@,
        "changed"@ != "added"@,
{
    reveal_strlit("label");
    reveal_strlit("enabled");
    reveal_strlit("value");
    reveal_strlit("changed");
    reveal_strlit("removed");
    reveal_strlit("added");
    assert("label"@.len() != "enabled"@.len());
    assert("enabled"@.len() != "value"@.len());
    assert("label"@[0] != "value"@[0]);
    assert("changed"@[0] != "removed"@[0]);
    assert("changed"@.len() != "added"@.len());
}

proof fn lemma_field_diffs_rendered(b: WidgetEntry, a: WidgetEntry)
    ensures
        rendered_from(b, a, field_diffs(b, a)),
        lists_every_change(b, a, field_diffs(b, a)),
{
    lemma_field_names_differ();
    let fs = field_diffs(b, a);
    let e: Seq<FieldDiffView> = if b.enabled != a.enabled {
        seq![("enabled"@, bool_text(b.enabled), bool_text(a.enabled))]
    } else {
        Seq::empty()
    };
    let v: Seq<FieldDiffView> = if opt_view(b.value) != opt_view(a.value) {
        seq![("value"@, option_debug_text(opt_view(b.value)), option_debug_text(opt_view(a.value)))]
    } else {
        Seq::empty()
    };
    let l: Seq<FieldDiffView> = if b.label@ != a.label@ {
        seq![("label"@, b.label@, a.label@)]
    } else {
        Seq::empty()
    };
    assert(fs == e + v + l);
    if b.label@ != a.label@ {
        assert(fs[fs.len() - 1].0 == "label"@);
    }
    if b.enabled != a.enabled {
        assert(fs[0].0 == "enabled"@);
    }
    if opt_view(b.value) != opt_view(a.value) {
        assert(fs[e.len() as int].0 == "value"@);
    }
}

proof fn lemma_first_with_id_exists(ws: Seq<WidgetEntry>, id: Seq<char>)
    requires
        has_widget(ws, id),
    ensures
        exists|j: int| first_with_id(ws, id, j),
    decreases ws.len(),
{
    let pre = ws.drop_last();
    if has_widget(pre, id) {
        lemma_first_with_id_exists(pre, id);
        let j = choose|j: int| first_with_id(pre, id, j);
        assert forall|k: int| 0 <= k < j implies ws[k].id@ != id by {
            assert(pre[k] == ws[k]);
        }
        assert(ws[j] == pre[j]);
        assert(first_with_id(ws, id, j));
    } else {
        assert forall|j: int| 0 <= j < ws.len() - 1 implies ws[j].id@ != id by {
            assert(pre[j] == ws[j]);
        }
        assert(first_with_id(ws, id, ws.len() - 1));
    }
}

/// A changed entry of a widget diff is about a widget `before[i]` of the
/// earlier snapshot and the first widget `after[j]` of the later snapshot with
/// the same id; it lists exactly the fields in which they differ, each with its
/// before text from `before[i]` and its after text from `after[j]`.
pub open spec fn changed_entry_ok(
    before: Seq<WidgetEntry>,
    after: Seq<WidgetEntry>,
    d: WidgetDiffView,
) -> bool {
    d.2 == "changed"@ ==> exists|i: int, j: int|
        {
            &&& 0 <= i < before.len()
            &&& #[trigger] first_with_id(after, before[i].id@, j)
            &&& d.0 == before[i].id@
            &&& d.1 == before[i].kind@
            &&& d.3.len() > 0
            &&& rendered_from(before[i], after[j], d.3)
            &&& lists_every_change(before[i], after[j], d.3)
        }
}

proof fn lemma_removed_or_changed_ok(before: Seq<WidgetEntry>, after: Seq<WidgetEntry>)
    ensures
        forall|k: int|
            0 <= k < removed_or_changed(before, after).len() ==> changed_entry_ok(
                before,
                after,
                #[trigger] removed_or_changed(before, after)[k],
            ),
    decreases before.len(),
{
    lemma_field_names_differ();
    if before.len() > 0 {
        let pre = before.drop_last();
        lemma_removed_or_changed_ok(pre, after);
        let r0 = removed_or_changed(pre, after);
        let b = before.last();
        let e = before_entry(b, after);
        assert forall|k: int|
            0 <= k < removed_or_changed(before, after).len() implies changed_entry_ok(
            before,
            after,
            #[trigger] removed_or_changed(before, after)[k],
        ) by {
            let d = removed_or_changed(before, after)[k];
            if k < r0.len() {
                assert(d == r0[k]);
                if d.2 == "changed"@ {
                    assert(changed_entry_ok(pre, after, r0[k]));
                    let (i, j) = choose|i: int, j: int|
                        {
                            &&& 0 <= i < pre.len()
                            &&& #[trigger] first_with_id(after, pre[i].id@, j)
                            &&& d.0 == pre[i].id@
                            &&& d.1 == pre[i].kind@
                            &&& d.3.len() > 0
                            &&& rendered_from(pre[i], after[j], d.3)
                            &&& lists_every_change(pre[i], after[j], d.3)
                        };
                    assert(pre[i] == before[i]);
                    assert(first_with_id(after, before[i].id@, j));
                }
            } else {
                assert(d == e[k - r0.len()]);
                if d.2 == "changed"@ {
                    let i = before.len() - 1;
                    assert(has_widget(after, b.id@));
                    lemma_first_with_id_exists(after, b.id@);
                    let j = choose|j: int| first_with_id(after, b.id@, j);
                    assert(match_of(after, b.id@) == after[j]) by {
                        let j2 = choose|j2: int| first_with_id(after, b.id@, j2);
                        if j2 < j {
                            assert(after[j2].id@ == b.id@);
                        } else if j < j2 {
                            assert(after[j].id@ == b.id@);
                        }
                    }
                    lemma_field_diffs_rendered(b, after[j]);
                    assert(before[i] == b);
                    assert(first_with_id(after, before[i].id@, j));
                }
            }
        }
    }
}

proof fn lemma_added_not_changed(before: Seq<WidgetEntry>, after: Seq<WidgetEntry>)
    ensures
        forall|k: int|
            0 <= k < added(before, after).len() ==> (#[trigger] added(before, after)[k]).2
                == "added"@,
    decreases after.len(),
{
    if after.len() > 0 {
        let pre = after.drop_last();
        lemma_added_not_changed(before, pre);
        let a0 = added(before, pre);
        assert forall|k: int| 0 <= k < added(before, after).len() implies (#[trigger] added(
            before,
            after,
        )[k]).2 == "added"@ by {
            if k < a0.len() {
                assert(added(before, after)[k] == a0[k]);
            }
        }
    }
}

/// What a session report says of a changed widget is true of the two
/// snapshots: every changed entry names a widget of the earlier snapshot and
/// the first widget of the later one with its id, lists every field in which
/// they differ and no other, and renders each field's before text from the
/// earlier widget and its after text from the later one (for the label: the
/// earlier label, then the later label).
pub proof fn lemma_changes_render_before_then_after(before: Seq<WidgetEntry>, after: Seq<WidgetEntry>)
    ensures
        forall|k: int|
            0 <= k < widget_changes(before, after).len() ==> changed_entry_ok(
                before,
                after,
                #[trigger] widget_changes(before, after)[k],
            ),
{
    lemma_field_names_differ();
    lemma_removed_or_changed_ok(before, after);
    lemma_added_not_changed(before, after);
    let r = removed_or_changed(before, after);
    let a = added(before, after);
    assert forall|k: int|
        0 <= k < widget_changes(before, after).len() implies changed_entry_ok(
        before,
        after,
        #[trigger] widget_changes(before, after)[k],
    ) by {
        if k < r.len() {
            assert(widget_changes(before, after)[k] == r[k]);
        } else {
            assert(widget_changes(before, after)[k] == a[k - r.len()]);
        }
    }
}

} // verus!
