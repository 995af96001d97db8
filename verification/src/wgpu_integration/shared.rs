//! The windows and the painter of all viewports.

use crate::backend::{active_ids, ids_are_distinct, NativeWindow, ViewportOutput, WgpuBackend};
use crate::builder::{
    builder_icon, builder_patch, builder_with_icon, clone_builder, inherit_icon, inherited_icon,
    inheriting, patch_entry, with_inherited_icon,
};
use crate::event::{ViewportId, ViewportIdPair, WindowId, ROOT};
use crate::maps::{keys_of, restrict_values, retain_keys, retain_values};
use std::collections::HashMap;
use std::collections::HashSet;
use std::sync::Arc;
use vstd::prelude::*;

verus! {

broadcast use vstd::std_specs::hash::group_hash_axioms;

/// A viewport and the native resources that it has so far.
pub struct Viewport<R: WgpuBackend> {
    pub window: Option<NativeWindow<R::Window>>,
    pub egui_winit: Option<R::InputState>,
    /// `None` for a viewport that is painted with its parent.
    pub viewport_ui_cb: Option<R::UiCallback>,
    pub parent_id: ViewportId,
}

/// Everything that a viewport needs which is painted while its parent is.
pub struct SharedState<R: WgpuBackend> {
    pub viewports: HashMap<ViewportId, Viewport<R>>,
    pub builders: HashMap<ViewportId, egui::ViewportBuilder>,
    pub painter: R::Painter,
    pub viewport_maps: HashMap<WindowId, ViewportId>,
}

/// An open viewport that the ui asks for again. Its parent and its callback are the latest ones.
pub open spec fn updated_viewport<R: WgpuBackend>(
    viewport: Viewport<R>,
    output: ViewportOutput<R>,
) -> Viewport<R> {
    Viewport {
        viewport_ui_cb: output.viewport_ui_cb,
        parent_id: output.id_pair.parent,
        ..viewport
    }
}

/// A viewport that the ui asks for the first time.
pub open spec fn new_viewport<R: WgpuBackend>(output: ViewportOutput<R>) -> Viewport<R> {
    Viewport {
        window: None,
        egui_winit: None,
        viewport_ui_cb: output.viewport_ui_cb,
        parent_id: output.id_pair.parent,
    }
}

/// How far the viewports have been brought in line with what the ui asks for.
#[verifier::ext_equal]
pub struct Progress<R: WgpuBackend> {
    pub viewports: Map<ViewportId, Viewport<R>>,
    pub builders: Map<ViewportId, egui::ViewportBuilder>,
    /// The outputs that no open viewport answers to.
    pub fresh: Seq<ViewportOutput<R>>,
}

/// The first pass, over the first `n` outputs: the open viewports get the latest callback and parent.
pub open spec fn update_existing<R: WgpuBackend>(
    viewports: Map<ViewportId, Viewport<R>>,
    builders: Map<ViewportId, egui::ViewportBuilder>,
    outputs: Seq<ViewportOutput<R>>,
    n: nat,
) -> Progress<R>
    decreases n,
{
    if n == 0 {
        Progress { viewports, builders, fresh: Seq::empty() }
    } else {
        let before = update_existing(viewports, builders, outputs, (n - 1) as nat);
        let output = outputs[n - 1];
        let id = output.id_pair.this;
        if before.viewports.contains_key(id) {
            Progress {
                viewports: before.viewports.insert(
                    id,
                    updated_viewport(before.viewports[id], output),
                ),
                ..before
            }
        } else {
            Progress { fresh: before.fresh.push(output), ..before }
        }
    }
}

/// The builder of a viewport that is not open, when the ui asks for it with `builder`, where `known` is
/// the builder that is known of it and `parent` that of its parent.
pub open spec fn added_builder(
    known: Option<egui::ViewportBuilder>,
    builder: egui::ViewportBuilder,
    parent: Option<egui::ViewportBuilder>,
) -> egui::ViewportBuilder {
    match known {
        Some(known) => builder_patch(known, inheriting(builder, parent)).0,
        None => inheriting(builder, parent),
    }
}

/// The icon of a viewport that is not open, when the ui asks for it with `builder`: the icon that is
/// asked for, or else that of its parent, or else the one that is known of it.
pub open spec fn added_icon(
    known: Option<egui::ViewportBuilder>,
    builder: egui::ViewportBuilder,
    parent: Option<egui::ViewportBuilder>,
) -> Option<Arc<egui::IconData>> {
    match (inherited_icon(builder, parent), known) {
        (Some(icon), _) => Some(icon),
        (None, Some(known)) => builder_icon(known),
        (None, None) => None,
    }
}

/// The second pass, over the first `n` of the outputs `fresh`: where there is a builder already it is
/// brought up to date, and else there is a new viewport.
pub open spec fn add_new<R: WgpuBackend>(
    viewports: Map<ViewportId, Viewport<R>>,
    builders: Map<ViewportId, egui::ViewportBuilder>,
    fresh: Seq<ViewportOutput<R>>,
    n: nat,
) -> Progress<R>
    decreases n,
{
    if n == 0 {
        Progress { viewports, builders, fresh }
    } else {
        let before = add_new(viewports, builders, fresh, (n - 1) as nat);
        let output = fresh[n - 1];
        let id = output.id_pair.this;
        Progress {
            viewports: if before.builders.contains_key(id) {
                before.viewports
            } else {
                before.viewports.insert(id, new_viewport(output))
            },
            builders: before.builders.insert(
                id,
                added_builder(
                    before.builders.get(id),
                    output.builder,
                    before.builders.get(output.id_pair.parent),
                ),
            ),
            fresh,
        }
    }
}

/// Both passes, over all outputs.
pub open spec fn reconciled<R: WgpuBackend>(
    viewports: Map<ViewportId, Viewport<R>>,
    builders: Map<ViewportId, egui::ViewportBuilder>,
    outputs: Seq<ViewportOutput<R>>,
) -> Progress<R> {
    let updated = update_existing(viewports, builders, outputs, outputs.len());
    add_new(updated.viewports, updated.builders, updated.fresh, updated.fresh.len())
}

/// The first pass neither opens nor drops a viewport, leaves the builders alone, and sorts every
/// output to an open viewport or to the fresh ones.
proof fn lemma_update_existing<R: WgpuBackend>(
    viewports: Map<ViewportId, Viewport<R>>,
    builders: Map<ViewportId, egui::ViewportBuilder>,
    outputs: Seq<ViewportOutput<R>>,
    n: nat,
)
    requires
        n <= outputs.len(),
    ensures
        ({
            let after = update_existing(viewports, builders, outputs, n);
            &&& after.viewports.dom() == viewports.dom()
            &&& after.builders == builders
            &&& forall|id: ViewportId| #[trigger]
                viewports.contains_key(id) ==> after.viewports[id].window == viewports[id].window
            &&& forall|k: int|
                0 <= k < after.fresh.len() ==> {
                    &&& outputs.contains(#[trigger] after.fresh[k])
                    &&& !viewports.contains_key(after.fresh[k].id_pair.this)
                }
            &&& forall|j: int|
                0 <= j < n ==> viewports.contains_key((#[trigger] outputs[j]).id_pair.this)
                    || after.fresh.contains(outputs[j])
        }),
    decreases n,
{
    if n > 0 {
        lemma_update_existing(viewports, builders, outputs, (n - 1) as nat);
        let before = update_existing(viewports, builders, outputs, (n - 1) as nat);
        let after = update_existing(viewports, builders, outputs, n);
        let output = outputs[n - 1];
        assert(after.viewports.dom() =~= viewports.dom());
        assert(outputs.contains(output));
        assert forall|j: int| 0 <= j < n implies viewports.contains_key(
            (#[trigger] outputs[j]).id_pair.this,
        ) || after.fresh.contains(outputs[j]) by {
            if !viewports.contains_key(outputs[j].id_pair.this) {
                if j < n - 1 {
                    let k = choose|k: int|
                        0 <= k < before.fresh.len() && before.fresh[k] == outputs[j];
                    assert(after.fresh[k] == outputs[j]);
                } else {
                    assert(after.fresh.last() == outputs[j]);
                }
            }
        }
    }
}

/// The second pass keeps a builder for each viewport, and the viewports that it adds have no window.
proof fn lemma_add_new<R: WgpuBackend>(
    viewports: Map<ViewportId, Viewport<R>>,
    builders: Map<ViewportId, egui::ViewportBuilder>,
    fresh: Seq<ViewportOutput<R>>,
    n: nat,
)
    requires
        n <= fresh.len(),
        viewports.dom().subset_of(builders.dom()),
    ensures
        ({
            let after = add_new(viewports, builders, fresh, n);
            &&& after.viewports.dom().subset_of(after.builders.dom())
            &&& builders.dom().subset_of(after.builders.dom())
            &&& viewports.dom().subset_of(after.viewports.dom())
            &&& forall|id: ViewportId| #[trigger]
                after.viewports.contains_key(id) && !viewports.contains_key(id)
                    ==> after.viewports[id].window is None && after.viewports[id].egui_winit is None
            &&& forall|id: ViewportId| #[trigger]
                viewports.contains_key(id) ==> after.viewports[id] == viewports[id]
            &&& forall|k: int|
                0 <= k < n ==> after.builders.contains_key((#[trigger] fresh[k]).id_pair.this)
            &&& forall|k: int|
                0 <= k < n && !builders.contains_key((#[trigger] fresh[k]).id_pair.this)
                    ==> after.viewports.contains_key(fresh[k].id_pair.this)
            &&& forall|id: ViewportId| #[trigger]
                after.builders.contains_key(id) && !builders.contains_key(id)
                    ==> after.viewports.contains_key(id)
        }),
    decreases n,
{
    if n > 0 {
        lemma_add_new(viewports, builders, fresh, (n - 1) as nat);
    }
}

/// The first pass heeds each output on its own, where no viewport is asked for twice.
proof fn lemma_update_each<R: WgpuBackend>(
    viewports: Map<ViewportId, Viewport<R>>,
    builders: Map<ViewportId, egui::ViewportBuilder>,
    outputs: Seq<ViewportOutput<R>>,
    n: nat,
)
    requires
        n <= outputs.len(),
        ids_are_distinct(outputs),
    ensures
        ({
            let after = update_existing(viewports, builders, outputs, n);
            &&& forall|j: int|
                0 <= j < n && viewports.contains_key((#[trigger] outputs[j]).id_pair.this)
                    ==> after.viewports[outputs[j].id_pair.this] == updated_viewport(
                    viewports[outputs[j].id_pair.this],
                    outputs[j],
                )
            &&& forall|id: ViewportId| #[trigger]
                viewports.contains_key(id) && !(exists|j: int|
                    0 <= j < n && (#[trigger] outputs[j]).id_pair.this == id)
                    ==> after.viewports[id] == viewports[id]
            &&& ids_are_distinct(after.fresh)
            &&& forall|k: int|
                0 <= k < after.fresh.len() ==> exists|j: int|
                    0 <= j < n && #[trigger] outputs[j] == #[trigger] after.fresh[k]
        }),
    decreases n,
{
    if n > 0 {
        lemma_update_each(viewports, builders, outputs, (n - 1) as nat);
        lemma_update_existing(viewports, builders, outputs, (n - 1) as nat);
        let before = update_existing(viewports, builders, outputs, (n - 1) as nat);
        let after = update_existing(viewports, builders, outputs, n);
        let id = outputs[n - 1].id_pair.this;
        assert(!(exists|j: int| 0 <= j < n - 1 && (#[trigger] outputs[j]).id_pair.this == id));
        assert(before.viewports.dom().contains(id) == viewports.dom().contains(id));
        assert forall|k: int| 0 <= k < after.fresh.len() implies exists|j: int|
            0 <= j < n && #[trigger] outputs[j] == #[trigger] after.fresh[k] by {
            if k < before.fresh.len() {
                assert(after.fresh[k] == before.fresh[k]);
                let j = choose|j: int| 0 <= j < n - 1 && #[trigger] outputs[j] == before.fresh[k];
                assert(outputs[j] == after.fresh[k]);
            } else {
                assert(outputs[n - 1] == after.fresh[k]);
            }
        }
        assert forall|other: ViewportId| #[trigger]
            viewports.contains_key(other) && !(exists|j: int|
                0 <= j < n && (#[trigger] outputs[j]).id_pair.this == other) implies
            after.viewports[other] == viewports[other] by {
            assert(outputs[n - 1].id_pair.this != other);
            assert(!(exists|j: int|
                0 <= j < n - 1 && (#[trigger] outputs[j]).id_pair.this == other));
        }
        assert(ids_are_distinct(after.fresh)) by {
            assert forall|a: int, b: int| 0 <= a < b < after.fresh.len() implies (
            #[trigger] after.fresh[a]).id_pair.this != (#[trigger] after.fresh[b]).id_pair.this by {
                if b == before.fresh.len() {
                    let j = choose|j: int| 0 <= j < n - 1 && #[trigger] outputs[j] == before.fresh[a];
                    assert(outputs[j].id_pair.this != outputs[n - 1].id_pair.this);
                }
            }
        }
    }
}

/// The second pass adds each fresh output that no builder is known of, where no viewport is asked for
/// twice.
proof fn lemma_add_each<R: WgpuBackend>(
    viewports: Map<ViewportId, Viewport<R>>,
    builders: Map<ViewportId, egui::ViewportBuilder>,
    fresh: Seq<ViewportOutput<R>>,
    n: nat,
)
    requires
        n <= fresh.len(),
        ids_are_distinct(fresh),
    ensures
        ({
            let after = add_new(viewports, builders, fresh, n);
            &&& forall|k: int|
                0 <= k < n ==> {
                    let output = #[trigger] fresh[k];
                    let id = output.id_pair.this;
                    &&& after.builders.contains_key(id)
                    &&& if builders.contains_key(id) {
                        &&& after.viewports.contains_key(id) == viewports.contains_key(id)
                        &&& viewports.contains_key(id) ==> after.viewports[id] == viewports[id]
                    } else {
                        after.viewports.contains_key(id) && after.viewports[id] == new_viewport(output)
                    }
                }
            &&& forall|id: ViewportId|
                !(exists|k: int| 0 <= k < n && (#[trigger] fresh[k]).id_pair.this == id) ==> {
                    &&& #[trigger] after.viewports.contains_key(id) == viewports.contains_key(id)
                    &&& viewports.contains_key(id) ==> after.viewports[id] == viewports[id]
                    &&& after.builders.contains_key(id) == builders.contains_key(id)
                    &&& builders.contains_key(id) ==> after.builders[id] == builders[id]
                }
        }),
    decreases n,
{
    if n > 0 {
        lemma_add_each(viewports, builders, fresh, (n - 1) as nat);
        let before = add_new(viewports, builders, fresh, (n - 1) as nat);
        let after = add_new(viewports, builders, fresh, n);
        let last = fresh[n - 1].id_pair.this;
        assert(!(exists|k: int| 0 <= k < n - 1 && (#[trigger] fresh[k]).id_pair.this == last));
        assert(before.viewports.contains_key(last) == viewports.contains_key(last));
        assert forall|k: int| 0 <= k < n implies {
            let id = (#[trigger] fresh[k]).id_pair.this;
            &&& after.builders.contains_key(id)
            &&& if builders.contains_key(id) {
                &&& after.viewports.contains_key(id) == viewports.contains_key(id)
                &&& viewports.contains_key(id) ==> after.viewports[id] == viewports[id]
            } else {
                after.viewports.contains_key(id) && after.viewports[id] == new_viewport(fresh[k])
            }
        } by {
            if k < n - 1 {
                assert(fresh[k].id_pair.this != last);
            }
        }
        assert forall|id: ViewportId|
            !(exists|k: int| 0 <= k < n && (#[trigger] fresh[k]).id_pair.this == id) implies {
            &&& #[trigger] after.viewports.contains_key(id) == viewports.contains_key(id)
            &&& viewports.contains_key(id) ==> after.viewports[id] == viewports[id]
            &&& after.builders.contains_key(id) == builders.contains_key(id)
            &&& builders.contains_key(id) ==> after.builders[id] == builders[id]
        } by {
            assert(fresh[n - 1].id_pair.this != id);
            assert(!(exists|k: int| 0 <= k < n - 1 && (#[trigger] fresh[k]).id_pair.this == id));
            assert(before.viewports.contains_key(id) == viewports.contains_key(id));
        }
    }
}

/// The builder that the parent of the viewport of `outputs[j]`, which is not open, has when it is that
/// viewport's turn. It is the one that the parent has in the end, unless the parent is not open either
/// and comes later.
pub open spec fn parent_builder<R: WgpuBackend>(
    viewports: Map<ViewportId, Viewport<R>>,
    builders: Map<ViewportId, egui::ViewportBuilder>,
    outputs: Seq<ViewportOutput<R>>,
    j: int,
) -> Option<egui::ViewportBuilder> {
    let parent = outputs[j].id_pair.parent;
    if !viewports.contains_key(parent) && exists|i: int|
        j <= i < outputs.len() && (#[trigger] outputs[i]).id_pair.this == parent {
        builders.get(parent)
    } else {
        reconciled(viewports, builders, outputs).builders.get(parent)
    }
}

/// Whether the viewports that `outputs` ask for and that are not open have the right icon in `after`.
pub open spec fn icons_are_inherited<R: WgpuBackend>(
    viewports: Map<ViewportId, Viewport<R>>,
    builders: Map<ViewportId, egui::ViewportBuilder>,
    outputs: Seq<ViewportOutput<R>>,
    after: Map<ViewportId, egui::ViewportBuilder>,
) -> bool {
    forall|j: int|
        0 <= j < outputs.len() && !viewports.contains_key((#[trigger] outputs[j]).id_pair.this)
            ==> builder_icon(after[outputs[j].id_pair.this]) == added_icon(
            builders.get(outputs[j].id_pair.this),
            outputs[j].builder,
            parent_builder(viewports, builders, outputs, j),
        )
}

/// Whether a viewport that is asked for more than once has the icon in `after` that the last of its
/// fresh outputs gives it.
pub open spec fn last_icons_count<R: WgpuBackend>(
    viewports: Map<ViewportId, Viewport<R>>,
    builders: Map<ViewportId, egui::ViewportBuilder>,
    outputs: Seq<ViewportOutput<R>>,
    after: Map<ViewportId, egui::ViewportBuilder>,
) -> bool {
    let updated = update_existing(viewports, builders, outputs, outputs.len());
    let fresh = updated.fresh;
    forall|k: int|
        0 <= k < fresh.len() && is_last(fresh, fresh.len(), k) ==> builder_icon(
            after[(#[trigger] fresh[k]).id_pair.this],
        ) == ({
            let seen = add_new(updated.viewports, updated.builders, fresh, k as nat).builders;
            added_icon(
                seen.get(fresh[k].id_pair.this),
                fresh[k].builder,
                seen.get(fresh[k].id_pair.parent),
            )
        })
}

/// Whether none of the first `n` outputs after the `k`th asks for the same viewport.
pub open spec fn is_last<R: WgpuBackend>(fresh: Seq<ViewportOutput<R>>, n: nat, k: int) -> bool {
    forall|m: int| k < m < n ==> (#[trigger] fresh[m]).id_pair.this != fresh[k].id_pair.this
}

/// The builder that an output gives to its viewport stays if no later output asks for the same.
proof fn lemma_last_counts<R: WgpuBackend>(
    viewports: Map<ViewportId, Viewport<R>>,
    builders: Map<ViewportId, egui::ViewportBuilder>,
    fresh: Seq<ViewportOutput<R>>,
    n: nat,
    k: int,
)
    requires
        0 <= k < n <= fresh.len(),
        is_last(fresh, n, k),
    ensures
        add_new(viewports, builders, fresh, n).builders[fresh[k].id_pair.this] == ({
            let seen = add_new(viewports, builders, fresh, k as nat).builders;
            added_builder(
                seen.get(fresh[k].id_pair.this),
                fresh[k].builder,
                seen.get(fresh[k].id_pair.parent),
            )
        }),
    decreases n,
{
    if k < n - 1 {
        assert(is_last(fresh, (n - 1) as nat, k));
        assert(fresh[n - 1].id_pair.this != fresh[k].id_pair.this);
        lemma_last_counts(viewports, builders, fresh, (n - 1) as nat, k);
    }
}

/// Whether the builder of `output`, the `k`th of the fresh ones, has the right icon.
spec fn inherits_icon<R: WgpuBackend>(
    updated: Progress<R>,
    output: ViewportOutput<R>,
    k: int,
) -> bool {
    let seen = add_new(updated.viewports, updated.builders, updated.fresh, k as nat).builders;
    let known = seen.get(output.id_pair.this);
    let parent = seen.get(output.id_pair.parent);
    builder_icon(added_builder(known, output.builder, parent)) == added_icon(
        known,
        output.builder,
        parent,
    )
}

/// The fresh outputs stand in the order in which the ui asks for them.
proof fn lemma_fresh_order<R: WgpuBackend>(
    viewports: Map<ViewportId, Viewport<R>>,
    builders: Map<ViewportId, egui::ViewportBuilder>,
    outputs: Seq<ViewportOutput<R>>,
    n: nat,
    a: int,
    b: int,
    i: int,
    j: int,
)
    requires
        n <= outputs.len(),
        ids_are_distinct(outputs),
        0 <= a < b < update_existing(viewports, builders, outputs, n).fresh.len(),
        0 <= i < n,
        0 <= j < n,
        update_existing(viewports, builders, outputs, n).fresh[a] == outputs[i],
        update_existing(viewports, builders, outputs, n).fresh[b] == outputs[j],
    ensures
        i < j,
    decreases n,
{
    let before = update_existing(viewports, builders, outputs, (n - 1) as nat);
    let after = update_existing(viewports, builders, outputs, n);
    lemma_update_each(viewports, builders, outputs, (n - 1) as nat);
    assert(after.fresh[a] == before.fresh[a]);
    let first = choose|first: int|
        0 <= first < n - 1 && #[trigger] outputs[first] == before.fresh[a];
    assert(outputs[first].id_pair.this == outputs[i].id_pair.this);
    assert(first == i);
    if b == before.fresh.len() {
        assert(outputs[j].id_pair.this == outputs[n - 1].id_pair.this);
        assert(j == n - 1);
    } else {
        assert(after.fresh[b] == before.fresh[b]);
        let second = choose|second: int|
            0 <= second < n - 1 && #[trigger] outputs[second] == before.fresh[b];
        assert(outputs[second].id_pair.this == outputs[j].id_pair.this);
        assert(second == j);
        lemma_fresh_order(viewports, builders, outputs, (n - 1) as nat, a, b, i, j);
    }
}

/// What becomes of `outputs[j]`, the `k`th of the fresh ones, whose viewport is not open.
proof fn lemma_new_builder<R: WgpuBackend>(
    viewports: Map<ViewportId, Viewport<R>>,
    builders: Map<ViewportId, egui::ViewportBuilder>,
    outputs: Seq<ViewportOutput<R>>,
    j: int,
) -> (k: int)
    requires
        ids_are_distinct(outputs),
        0 <= j < outputs.len(),
        !viewports.contains_key(outputs[j].id_pair.this),
    ensures
        ({
            let updated = update_existing(viewports, builders, outputs, outputs.len());
            let after = reconciled(viewports, builders, outputs);
            let seen = add_new(updated.viewports, updated.builders, updated.fresh, k as nat).builders;
            &&& 0 <= k < updated.fresh.len()
            &&& updated.fresh[k] == outputs[j]
            &&& seen.get(outputs[j].id_pair.parent) == parent_builder(viewports, builders, outputs, j)
            &&& seen.get(outputs[j].id_pair.this) == builders.get(outputs[j].id_pair.this)
            &&& after.builders.contains_key(outputs[j].id_pair.this)
            &&& after.builders[outputs[j].id_pair.this] == added_builder(
                builders.get(outputs[j].id_pair.this),
                outputs[j].builder,
                parent_builder(viewports, builders, outputs, j),
            )
            &&& if builders.contains_key(outputs[j].id_pair.this) {
                !after.viewports.contains_key(outputs[j].id_pair.this)
            } else {
                &&& after.viewports.contains_key(outputs[j].id_pair.this)
                &&& after.viewports[outputs[j].id_pair.this] == new_viewport(outputs[j])
            }
        }),
{
    let updated = update_existing(viewports, builders, outputs, outputs.len());
    let fresh = updated.fresh;
    let after = reconciled(viewports, builders, outputs);
    let parent = outputs[j].id_pair.parent;
    lemma_update_existing(viewports, builders, outputs, outputs.len());
    lemma_update_each(viewports, builders, outputs, outputs.len());
    assert(fresh.contains(outputs[j]));
    let k = choose|k: int| 0 <= k < fresh.len() && fresh[k] == outputs[j];
    let seen = add_new(updated.viewports, updated.builders, fresh, k as nat).builders;
    lemma_add_each(updated.viewports, updated.builders, fresh, k as nat);
    lemma_add_each(updated.viewports, updated.builders, fresh, fresh.len());
    assert(is_last(fresh, fresh.len(), k));
    lemma_last_counts(updated.viewports, updated.builders, fresh, fresh.len(), k);
    assert(!updated.viewports.dom().contains(outputs[j].id_pair.this));
    assert(!(exists|p: int|
        0 <= p < k && (#[trigger] fresh[p]).id_pair.this == outputs[j].id_pair.this));
    assert(add_new(updated.viewports, updated.builders, fresh, k as nat).viewports.contains_key(
        outputs[j].id_pair.this,
    ) == updated.viewports.contains_key(outputs[j].id_pair.this));
    if exists|m: int| 0 <= m < fresh.len() && (#[trigger] fresh[m]).id_pair.this == parent {
        let m = choose|m: int| 0 <= m < fresh.len() && (#[trigger] fresh[m]).id_pair.this == parent;
        let i = choose|i: int| 0 <= i < outputs.len() && #[trigger] outputs[i] == fresh[m];
        assert(outputs[i].id_pair.this == parent);
        if m < k {
            lemma_fresh_order(viewports, builders, outputs, outputs.len(), m, k, i, j);
            assert(is_last(fresh, fresh.len(), m));
            lemma_last_counts(updated.viewports, updated.builders, fresh, k as nat, m);
            lemma_last_counts(updated.viewports, updated.builders, fresh, fresh.len(), m);
            assert(!(exists|l: int|
                j <= l < outputs.len() && (#[trigger] outputs[l]).id_pair.this == parent));
            assert(seen[parent] == after.builders[parent]);
        } else {
            if m > k {
                lemma_fresh_order(viewports, builders, outputs, outputs.len(), k, m, j, i);
            } else {
                assert(outputs[i].id_pair.this == outputs[j].id_pair.this);
            }
            assert(j <= i);
            assert(outputs[i].id_pair.this == parent);
            let l = choose|l: int|
                j <= l < outputs.len() && (#[trigger] outputs[l]).id_pair.this == parent;
            assert(outputs[l].id_pair.this == outputs[i].id_pair.this);
            assert(l == i);
            assert(!(exists|p: int| 0 <= p < k && (#[trigger] fresh[p]).id_pair.this == parent)) by {
                if exists|p: int| 0 <= p < k && (#[trigger] fresh[p]).id_pair.this == parent {
                    let p = choose|p: int|
                        0 <= p < k && (#[trigger] fresh[p]).id_pair.this == parent;
                    assert(fresh[p].id_pair.this != fresh[m].id_pair.this);
                }
            }
            assert(add_new(
                updated.viewports,
                updated.builders,
                fresh,
                k as nat,
            ).viewports.contains_key(parent) == updated.viewports.contains_key(parent));
            assert(seen.get(parent) == updated.builders.get(parent));
        }
    } else {
        assert(!(exists|p: int| 0 <= p < k && (#[trigger] fresh[p]).id_pair.this == parent));
        assert(add_new(updated.viewports, updated.builders, fresh, k as nat).viewports.contains_key(
            parent,
        ) == updated.viewports.contains_key(parent));
        assert(after.viewports.contains_key(parent) == updated.viewports.contains_key(parent));
        assert(seen.get(parent) == after.builders.get(parent));
        if !viewports.contains_key(parent) {
            assert(!(exists|l: int|
                j <= l < outputs.len() && (#[trigger] outputs[l]).id_pair.this == parent)) by {
                if exists|l: int|
                    j <= l < outputs.len() && (#[trigger] outputs[l]).id_pair.this == parent {
                    let l = choose|l: int|
                        j <= l < outputs.len() && (#[trigger] outputs[l]).id_pair.this == parent;
                    assert(fresh.contains(outputs[l]));
                    let m = choose|m: int| 0 <= m < fresh.len() && fresh[m] == outputs[l];
                    assert(fresh[m].id_pair.this == parent);
                }
            }
        }
    }
    k
}

/// What becomes of a viewport that is open when both passes begin is settled by the first pass.
proof fn lemma_open_viewport<R: WgpuBackend>(
    viewports: Map<ViewportId, Viewport<R>>,
    builders: Map<ViewportId, egui::ViewportBuilder>,
    outputs: Seq<ViewportOutput<R>>,
    id: ViewportId,
)
    requires
        ids_are_distinct(outputs),
        viewports.contains_key(id),
    ensures
        ({
            let updated = update_existing(viewports, builders, outputs, outputs.len());
            let after = reconciled(viewports, builders, outputs);
            &&& after.viewports.contains_key(id)
            &&& after.viewports[id] == updated.viewports[id]
            &&& after.builders.get(id) == updated.builders.get(id)
        }),
{
    let updated = update_existing(viewports, builders, outputs, outputs.len());
    let after = reconciled(viewports, builders, outputs);
    lemma_update_existing(viewports, builders, outputs, outputs.len());
    lemma_update_each(viewports, builders, outputs, outputs.len());
    lemma_add_each(updated.viewports, updated.builders, updated.fresh, updated.fresh.len());
    assert(!(exists|k: int|
        0 <= k < updated.fresh.len() && (#[trigger] updated.fresh[k]).id_pair.this == id));
    assert(updated.viewports.dom().contains(id));
    assert(after.viewports.contains_key(id) == updated.viewports.contains_key(id));
}

/// What becomes of `outputs[j]` when the viewports are brought in line with the outputs: an open
/// viewport gets the latest parent and callback and keeps its window and its builder. One that is not
/// open and not known by a builder starts without a window. The builder of one that is not open
/// inherits the icon of its parent if it has none.
pub open spec fn is_heeded<R: WgpuBackend>(
    viewports: Map<ViewportId, Viewport<R>>,
    builders: Map<ViewportId, egui::ViewportBuilder>,
    outputs: Seq<ViewportOutput<R>>,
    j: int,
) -> bool {
    let after = reconciled(viewports, builders, outputs);
    let output = outputs[j];
    let id = output.id_pair.this;
    if viewports.contains_key(id) {
        &&& after.viewports.contains_key(id)
        &&& after.viewports[id] == updated_viewport(viewports[id], output)
        &&& after.builders.get(id) == builders.get(id)
    } else {
        &&& after.builders.contains_key(id)
        &&& after.builders[id] == added_builder(
            builders.get(id),
            output.builder,
            parent_builder(viewports, builders, outputs, j),
        )
        &&& if builders.contains_key(id) {
            !after.viewports.contains_key(id)
        } else {
            after.viewports.contains_key(id) && after.viewports[id] == new_viewport(output)
        }
    }
}

/// Where the ui asks for no viewport twice, each of its outputs is heeded. Viewports that the ui does
/// not ask for are not touched.
pub proof fn law_each_output_is_heeded<R: WgpuBackend>(
    viewports: Map<ViewportId, Viewport<R>>,
    builders: Map<ViewportId, egui::ViewportBuilder>,
    outputs: Seq<ViewportOutput<R>>,
)
    requires
        ids_are_distinct(outputs),
    ensures
        forall|j: int|
            #![trigger outputs[j]]
            0 <= j < outputs.len() ==> is_heeded(viewports, builders, outputs, j),
        forall|id: ViewportId| #[trigger]
            viewports.contains_key(id) && !(exists|j: int|
                0 <= j < outputs.len() && (#[trigger] outputs[j]).id_pair.this == id) ==> {
                let after = reconciled(viewports, builders, outputs);
                &&& after.viewports.contains_key(id) && after.viewports[id] == viewports[id]
                &&& after.builders.get(id) == builders.get(id)
            },
{
    let after = reconciled(viewports, builders, outputs);
    lemma_update_existing(viewports, builders, outputs, outputs.len());
    lemma_update_each(viewports, builders, outputs, outputs.len());
    assert forall|j: int|
        #![trigger outputs[j]]
        0 <= j < outputs.len() implies is_heeded(viewports, builders, outputs, j) by {
        let id = outputs[j].id_pair.this;
        if viewports.contains_key(id) {
            lemma_open_viewport(viewports, builders, outputs, id);
        } else {
            let _ = lemma_new_builder(viewports, builders, outputs, j);
        }
    }
    assert forall|id: ViewportId| #[trigger]
        viewports.contains_key(id) && !(exists|j: int|
            0 <= j < outputs.len() && (#[trigger] outputs[j]).id_pair.this == id) implies {
        &&& after.viewports.contains_key(id) && after.viewports[id] == viewports[id]
        &&& after.builders.get(id) == builders.get(id)
    } by {
        lemma_open_viewport(viewports, builders, outputs, id);
    }
}

/// When the viewports have been brought in line with what the ui asks for, the viewports there are
/// are the root viewport and those that the ui asked for, and each has a builder. This is so as long
/// as every builder belongs to a viewport.
pub proof fn law_viewports_are_those_asked_for<R: WgpuBackend>(
    viewports: Map<ViewportId, Viewport<R>>,
    builders: Map<ViewportId, egui::ViewportBuilder>,
    outputs: Seq<ViewportOutput<R>>,
)
    requires
        viewports.contains_key(ROOT),
        viewports.dom() == builders.dom(),
    ensures
        ({
            let after = reconciled(viewports, builders, outputs);
            let active = active_ids(outputs);
            &&& after.viewports.restrict(active).dom() == active
            &&& after.builders.restrict(active).dom() == active
        }),
{
    let updated = update_existing(viewports, builders, outputs, outputs.len());
    let after = reconciled(viewports, builders, outputs);
    let active = active_ids(outputs);
    lemma_update_existing(viewports, builders, outputs, outputs.len());
    lemma_add_new(updated.viewports, updated.builders, updated.fresh, updated.fresh.len());
    assert forall|id: ViewportId| active.contains(id) implies #[trigger] after.viewports.contains_key(
        id,
    ) by {
        if viewports.contains_key(id) {
            assert(updated.viewports.dom().contains(id));
        } else {
            let j = choose|j: int|
                0 <= j < outputs.len() && (#[trigger] outputs[j]).id_pair.this == id;
            assert(updated.fresh.contains(outputs[j]));
            let k = choose|k: int| 0 <= k < updated.fresh.len() && updated.fresh[k] == outputs[j];
            assert(!builders.dom().contains(updated.fresh[k].id_pair.this));
            assert(after.viewports.contains_key(updated.fresh[k].id_pair.this));
        }
    }
    assert(after.viewports.restrict(active).dom() =~= active);
    assert forall|id: ViewportId| active.contains(id) implies #[trigger] after.builders.contains_key(
        id,
    ) by {
        assert(after.viewports.dom().contains(id));
    }
    assert(after.builders.restrict(active).dom() =~= active);
}

/// A frame neither drops the root viewport nor its builder, nor takes its window, whether the ui asks
/// for it or not.
pub proof fn law_root_viewport_stays<R: WgpuBackend>(
    viewports: Map<ViewportId, Viewport<R>>,
    builders: Map<ViewportId, egui::ViewportBuilder>,
    outputs: Seq<ViewportOutput<R>>,
)
    requires
        viewports.contains_key(ROOT),
        viewports.dom().subset_of(builders.dom()),
    ensures
        ({
            let after = reconciled(viewports, builders, outputs);
            &&& after.viewports.restrict(active_ids(outputs)).contains_key(ROOT)
            &&& after.builders.restrict(active_ids(outputs)).contains_key(ROOT)
            &&& after.viewports[ROOT].window == viewports[ROOT].window
        }),
{
    let updated = update_existing(viewports, builders, outputs, outputs.len());
    lemma_update_existing(viewports, builders, outputs, outputs.len());
    lemma_add_new(updated.viewports, updated.builders, updated.fresh, updated.fresh.len());
    assert(updated.viewports.dom().contains(ROOT));
    assert(updated.builders.dom().contains(ROOT));
}

impl<R: WgpuBackend> SharedState<R> {
    /// What holds of every state: each viewport has a builder, one with a window has an input state,
    /// and open windows are found.
    pub open spec fn wf(&self) -> bool {
        &&& self.viewports@.dom().subset_of(self.builders@.dom())
        &&& forall|id: ViewportId| #[trigger]
            self.viewports@.contains_key(id) && self.viewports@[id].window is Some
                ==> self.viewports@[id].egui_winit is Some
        &&& self.windows_are_found()
    }

    /// The open window with the id `window_id`.
    pub open spec fn window_with_id(&self, window_id: WindowId) -> Option<NativeWindow<R::Window>> {
        if self.viewport_maps@.contains_key(window_id) && self.viewports@.contains_key(
            self.viewport_maps@[window_id],
        ) {
            self.viewports@[self.viewport_maps@[window_id]].window
        } else {
            None
        }
    }

    /// Whether the viewport of every open window is found by the id of the window.
    pub open spec fn windows_are_found(&self) -> bool {
        forall|id: ViewportId| #[trigger]
            self.viewports@.contains_key(id) ==> (self.viewports@[id].window matches Some(window) ==> {
                self.viewport_maps@.contains_key(window.id) && self.viewport_maps@[window.id] == id
            })
    }

    /// Whether `window_id` is the id of a window that another viewport than `id` is shown in.
    pub open spec fn is_taken(&self, id: ViewportId, window_id: WindowId) -> bool {
        exists|other: ViewportId| #[trigger]
            self.viewports@.contains_key(other) && other != id
                && self.viewports@[other].window is Some && self.viewports@[other].window->0.id
                == window_id
    }

    /// A state in which only the root viewport is known. It is shown in `window`, which was built
    /// with `builder`.
    pub fn new(
        builder: egui::ViewportBuilder,
        window: NativeWindow<R::Window>,
        egui_winit: R::InputState,
        painter: R::Painter,
    ) -> (shared: SharedState<R>)
        ensures
            shared.wf(),
            shared.viewports@ == map![
                ROOT => Viewport::<R> {
                    window: Some(window),
                    egui_winit: Some(egui_winit),
                    viewport_ui_cb: None,
                    parent_id: ROOT,
                },
            ],
            shared.builders@ == map![ROOT => builder],
            shared.viewport_maps@ == map![window.id => ROOT],
            shared.painter == painter,
    {
        let mut viewport_maps: HashMap<WindowId, ViewportId> = HashMap::new();
        viewport_maps.insert(window.id, ROOT);
        let mut viewports: HashMap<ViewportId, Viewport<R>> = HashMap::new();
        viewports.insert(
            ROOT,
            Viewport {
                window: Some(window),
                egui_winit: Some(egui_winit),
                viewport_ui_cb: None,
                parent_id: ROOT,
            },
        );
        let mut builders: HashMap<ViewportId, egui::ViewportBuilder> = HashMap::new();
        builders.insert(ROOT, builder);
        SharedState { viewports, builders, painter, viewport_maps }
    }

    /// Whether a window is to be opened for the viewport `id`.
    pub open spec fn lacks_window(&self, id: ViewportId) -> bool {
        self.viewports@.contains_key(id) && self.viewports@[id].window is None
    }

    /// The viewports that a window is to be opened for: those without one. Each has a builder.
    pub fn windows_to_build(&self) -> (ids: Vec<ViewportId>)
        requires
            self.wf(),
        ensures
            ids@.no_duplicates(),
            forall|id: ViewportId| #[trigger] ids@.contains(id) <==> self.lacks_window(id),
            forall|id: ViewportId| #[trigger]
                ids@.contains(id) <==> self.viewports@.contains_key(id)
                    && self.viewports@[id].window is None,
            forall|id: ViewportId| ids@.contains(id) ==> #[trigger] self.builders@.contains_key(id),
    {
        let all = keys_of(&self.viewports);
        let mut ids: Vec<ViewportId> = Vec::new();
        for i in 0..all.len()
            invariant
                all@.no_duplicates(),
                forall|id: ViewportId| all@.contains(id) <==> self.viewports@.contains_key(id),
                ids@.no_duplicates(),
                forall|id: ViewportId| #[trigger]
                    ids@.contains(id) <==> all@.take(i as int).contains(id)
                        && self.viewports@[id].window is None,
        {
            let id: ViewportId = all[i];
            assert(all@.contains(id));
            proof {
                assert(all@.take(i + 1) == all@.take(i as int).push(id));
                assert(!all@.take(i as int).contains(id));
            }
            broadcast use vstd::seq_lib::lemma_seq_contains_after_push;
            if self.viewports.get(&id).unwrap().window.is_none() {
                assert(!ids@.contains(id));
                ids.push(id);
            }
        }
        assert(all@.take(all@.len() as int) == all@);
        assert forall|id: ViewportId| ids@.contains(id) implies #[trigger] self.builders@.contains_key(
            id,
        ) by {
            assert(self.viewports@.dom().contains(id));
        }
        ids
    }

    /// The viewports when the viewport `id` is shown in `window`, with the input state that goes with it.
    pub open spec fn viewports_shown_in(
        &self,
        id: ViewportId,
        window: NativeWindow<R::Window>,
        egui_winit: R::InputState,
    ) -> Map<ViewportId, Viewport<R>> {
        self.viewports@.insert(
            id,
            Viewport {
                window: Some(window),
                egui_winit: Some(egui_winit),
                ..self.viewports@[id]
            },
        )
    }

    /// Shows the viewport `id` in `window`, with the input state that goes with it. No two open windows
    /// have the same id.
    pub fn init_window(
        &mut self,
        id: ViewportId,
        window: NativeWindow<R::Window>,
        egui_winit: R::InputState,
    )
        requires
            old(self).wf(),
            old(self).viewports@.contains_key(id),
            !old(self).is_taken(id, window.id),
        ensures
            final(self).wf(),
            final(self).viewports@ == old(self).viewports_shown_in(id, window, egui_winit),
            final(self).viewports@ == old(self).viewports@.insert(
                id,
                Viewport {
                    window: Some(window),
                    egui_winit: Some(egui_winit),
                    ..old(self).viewports@[id]
                },
            ),
            final(self).viewport_maps@ == old(self).viewport_maps@.insert(window.id, id),
            final(self).builders == old(self).builders,
            final(self).painter == old(self).painter,
            final(self).window_with_id(window.id) == Some(window),
    {
        let mut viewport = self.viewports.remove(&id).unwrap();
        self.viewport_maps.insert(window.id, id);
        viewport.egui_winit = Some(egui_winit);
        viewport.window = Some(window);
        self.viewports.insert(id, viewport);
        assert(self.viewports@ =~= old(self).viewports@.insert(id, viewport));
    }

    /// The viewports when the root viewport has been dropped.
    pub open spec fn viewports_without_root(&self) -> Map<ViewportId, Viewport<R>> {
        self.viewports@.remove(ROOT)
    }

    /// The viewports when the root viewport is shown again, in `window`.
    pub open spec fn viewports_with_root_in(
        &self,
        window: NativeWindow<R::Window>,
        egui_winit: R::InputState,
    ) -> Map<ViewportId, Viewport<R>> {
        self.viewports@.insert(
            ROOT,
            Viewport {
                window: Some(window),
                egui_winit: Some(egui_winit),
                viewport_ui_cb: None,
                parent_id: ROOT,
            },
        )
    }

    /// Drops the root viewport, whose window the system takes away.
    pub fn drop_window(&mut self)
        requires
            old(self).wf(),
        ensures
            final(self).wf(),
            final(self).viewports@ == old(self).viewports_without_root(),
            final(self).viewports@ == old(self).viewports@.remove(ROOT),
            *final(self) == (SharedState { viewports: final(self).viewports, ..*old(self) }),
    {
        self.viewports.remove(&ROOT);
    }

    /// Shows the root viewport again, in `window`, which was built with `builder`. No two open windows
    /// have the same id.
    pub fn restore_root(
        &mut self,
        builder: egui::ViewportBuilder,
        window: NativeWindow<R::Window>,
        egui_winit: R::InputState,
    )
        requires
            old(self).wf(),
            !old(self).is_taken(ROOT, window.id),
        ensures
            final(self).wf(),
            final(self).viewports@ == old(self).viewports_with_root_in(window, egui_winit),
            final(self).viewports@ == old(self).viewports@.insert(
                ROOT,
                Viewport {
                    window: Some(window),
                    egui_winit: Some(egui_winit),
                    viewport_ui_cb: None,
                    parent_id: ROOT,
                },
            ),
            final(self).builders@ == old(self).builders@.insert(ROOT, builder),
            final(self).viewport_maps@ == old(self).viewport_maps@.insert(window.id, ROOT),
            final(self).painter == old(self).painter,
            final(self).window_with_id(window.id) == Some(window),
    {
        self.viewport_maps.insert(window.id, ROOT);
        self.viewports.insert(
            ROOT,
            Viewport {
                window: Some(window),
                egui_winit: Some(egui_winit),
                viewport_ui_cb: None,
                parent_id: ROOT,
            },
        );
        self.builders.insert(ROOT, builder);
    }

    /// Whether the state of the application is saved when the run ends: the root viewport is there.
    pub fn saves(&self) -> (saves: bool)
        ensures
            saves == self.viewports@.contains_key(ROOT),
    {
        self.viewports.contains_key(&ROOT)
    }

    /// The viewports when there is one for `id_pair`, which its parent paints right now.
    pub open spec fn viewports_with(&self, id_pair: ViewportIdPair) -> Map<ViewportId, Viewport<R>> {
        if self.viewports@.contains_key(id_pair.this) {
            self.viewports@
        } else {
            self.viewports@.insert(
                id_pair.this,
                Viewport {
                    window: None,
                    egui_winit: None,
                    viewport_ui_cb: None,
                    parent_id: id_pair.parent,
                },
            )
        }
    }

    /// The builder to open the window of the viewport `id_pair` with, which is asked for with
    /// `viewport_builder`, if the viewport is new.
    pub open spec fn builder_to_build(
        &self,
        viewport_builder: egui::ViewportBuilder,
        id_pair: ViewportIdPair,
    ) -> Option<egui::ViewportBuilder> {
        if self.viewports@.contains_key(id_pair.this) {
            None
        } else if self.builders@.contains_key(id_pair.this) {
            Some(viewport_builder)
        } else {
            Some(with_inherited_icon(self.builders@, id_pair.parent, viewport_builder))
        }
    }

    /// The builders when there is a viewport for `id_pair`, which is asked for with `viewport_builder`.
    pub open spec fn builders_with(
        &self,
        viewport_builder: egui::ViewportBuilder,
        id_pair: ViewportIdPair,
    ) -> Map<ViewportId, egui::ViewportBuilder> {
        match self.builder_to_build(viewport_builder, id_pair) {
            Some(builder) if !self.builders@.contains_key(id_pair.this) => self.builders@.insert(
                id_pair.this,
                builder,
            ),
            _ => self.builders@,
        }
    }

    /// Makes sure that there is a viewport for `id_pair`, which its parent paints right now. If it is
    /// new, gives the builder to open its window with.
    pub fn ensure_immediate_viewport(
        &mut self,
        viewport_builder: egui::ViewportBuilder,
        id_pair: ViewportIdPair,
    ) -> (to_build: Option<egui::ViewportBuilder>)
        requires
            old(self).wf(),
        ensures
            final(self).wf(),
            to_build == old(self).builder_to_build(viewport_builder, id_pair),
            final(self).viewports@ == old(self).viewports_with(id_pair),
            final(self).builders@ == old(self).builders_with(viewport_builder, id_pair),
            if old(self).viewports@.contains_key(id_pair.this) {
                to_build is None && *final(self) == *old(self)
            } else {
                &&& to_build == Some(
                    if old(self).builders@.contains_key(id_pair.this) {
                        viewport_builder
                    } else {
                        with_inherited_icon(
                            old(self).builders@,
                            id_pair.parent,
                            viewport_builder,
                        )
                    },
                )
                &&& !old(self).builders@.contains_key(id_pair.this) ==> builder_icon(to_build->0)
                    == inherited_icon(viewport_builder, old(self).builders@.get(id_pair.parent))
                &&& final(self).viewports@ == old(self).viewports@.insert(
                    id_pair.this,
                    Viewport::<R> {
                        window: None,
                        egui_winit: None,
                        viewport_ui_cb: None,
                        parent_id: id_pair.parent,
                    },
                )
                &&& final(self).builders@ == (if old(self).builders@.contains_key(id_pair.this) {
                    old(self).builders@
                } else {
                    old(self).builders@.insert(id_pair.this, to_build->0)
                })
                &&& *final(self) == (SharedState {
                    viewports: final(self).viewports,
                    builders: final(self).builders,
                    ..*old(self)
                })
            },
    {
        if self.viewports.contains_key(&id_pair.this) {
            return None;
        }
        let is_known = self.builders.contains_key(&id_pair.this);
        let builder = if is_known {
            viewport_builder
        } else {
            inherit_icon(&self.builders, id_pair.parent, viewport_builder)
        };
        self.viewports.insert(
            id_pair.this,
            Viewport {
                window: None,
                egui_winit: None,
                viewport_ui_cb: None,
                parent_id: id_pair.parent,
            },
        );
        if !is_known {
            self.builders.insert(id_pair.this, clone_builder(&builder));
        }
        Some(builder)
    }

    /// Whether the viewport `id` can be shown: it is there and has a window and an input state.
    pub open spec fn can_show(&self, id: ViewportId) -> bool {
        &&& self.viewports@.contains_key(id)
        &&& self.viewports@[id].window is Some
        &&& self.viewports@[id].egui_winit is Some
    }

    /// Whether the viewport `id` can be shown. A viewport that cannot is skipped.
    pub fn is_ready(&self, id: ViewportId) -> (ready: bool)
        ensures
            ready == self.can_show(id),
    {
        match self.viewports.get(&id) {
            Some(viewport) => viewport.egui_winit.is_some() && viewport.window.is_some(),
            None => false,
        }
    }

    /// Brings the viewports in line with what the ui asks for: those that are open get the latest
    /// callback and parent, and those that are new are added. Gives the viewports that stay.
    #[verifier::rlimit(40)]
    #[verifier::spinoff_prover]
    pub fn reconcile(&mut self, outputs: Vec<ViewportOutput<R>>) -> (active: HashSet<ViewportId>)
        requires
            old(self).wf(),
        ensures
            final(self).wf(),
            final(self).viewports@ == reconciled(
                old(self).viewports@,
                old(self).builders@,
                outputs@,
            ).viewports,
            final(self).builders@ == reconciled(
                old(self).viewports@,
                old(self).builders@,
                outputs@,
            ).builders,
            final(self).viewport_maps == old(self).viewport_maps,
            final(self).painter == old(self).painter,
            active@ == active_ids(outputs@),
            ids_are_distinct(outputs@) ==> icons_are_inherited(
                old(self).viewports@,
                old(self).builders@,
                outputs@,
                final(self).builders@,
            ),
            last_icons_count(
                old(self).viewports@,
                old(self).builders@,
                outputs@,
                final(self).builders@,
            ),
            forall|j: int|
                0 <= j < outputs@.len() && old(self).viewports@.contains_key(
                    outputs@[j].id_pair.this,
                ) && (forall|m: int|
                    j < m < outputs@.len() ==> (#[trigger] outputs@[m]).id_pair.this
                        != outputs@[j].id_pair.this) ==> {
                    let id = (#[trigger] outputs@[j]).id_pair.this;
                    let viewport = final(self).viewports@[id];
                    &&& final(self).viewports@.contains_key(id)
                    &&& viewport.viewport_ui_cb == outputs@[j].viewport_ui_cb
                    &&& viewport.parent_id == outputs@[j].id_pair.parent
                    &&& viewport.window == old(self).viewports@[id].window
                    &&& viewport.egui_winit == old(self).viewports@[id].egui_winit
                },
    {
        let ghost viewports = self.viewports@;
        let ghost builders = self.builders@;
        let ghost all = outputs@;
        let mut active: HashSet<ViewportId> = HashSet::new();
        active.insert(ROOT);
        let mut fresh: Vec<ViewportOutput<R>> = Vec::new();
        for output in it: outputs.into_iter()
            invariant
                it.seq() == all,
                active@.contains(ROOT),
                forall|j: int|
                    0 <= j < it.index() && viewports.contains_key((#[trigger] all[j]).id_pair.this)
                        ==> active@.contains(all[j].id_pair.this),
                forall|id: ViewportId| #[trigger] active@.contains(id) ==> active_ids(all).contains(id),
                self.viewports@ == update_existing(viewports, builders, all, it.index() as nat).viewports,
                self.builders@ == update_existing(viewports, builders, all, it.index() as nat).builders,
                fresh@ == update_existing(viewports, builders, all, it.index() as nat).fresh,
                self.viewport_maps == old(self).viewport_maps,
                self.painter == old(self).painter,
                forall|id: ViewportId| #[trigger]
                    self.viewports@.contains_key(id) && self.viewports@[id].window is Some
                        ==> self.viewports@[id].egui_winit is Some,
        {
            let id: ViewportId = output.id_pair.this;
            proof {
                lemma_update_existing(viewports, builders, all, it.index() as nat);
                assert(all[it.index() as int].id_pair.this == id);
                assert(active_ids(all).contains(id));
            }
            match self.viewports.remove(&id) {
                Some(viewport) => {
                    self.viewports.insert(
                        id,
                        Viewport {
                            viewport_ui_cb: output.viewport_ui_cb,
                            parent_id: output.id_pair.parent,
                            ..viewport
                        },
                    );
                    active.insert(id);
                },
                None => {
                    fresh.push(output);
                },
            }
        }
        let ghost updated = update_existing(viewports, builders, all, all.len());
        proof {
            lemma_update_existing(viewports, builders, all, all.len());
        }
        for output in it: fresh.into_iter()
            invariant
                it.seq() == updated.fresh,
                updated.viewports.dom().subset_of(updated.builders.dom()),
                active@.contains(ROOT),
                forall|k: int|
                    0 <= k < updated.fresh.len() ==> {
                        &&& all.contains(#[trigger] updated.fresh[k])
                        &&& !updated.viewports.contains_key(updated.fresh[k].id_pair.this)
                    },
                forall|j: int|
                    0 <= j < all.len() && viewports.contains_key((#[trigger] all[j]).id_pair.this)
                        ==> active@.contains(all[j].id_pair.this),
                forall|k: int|
                    0 <= k < it.index() ==> active@.contains(
                        (#[trigger] updated.fresh[k]).id_pair.this,
                    ),
                forall|id: ViewportId| #[trigger] active@.contains(id) ==> active_ids(all).contains(id),
                self.viewports@ == add_new(
                    updated.viewports,
                    updated.builders,
                    updated.fresh,
                    it.index() as nat,
                ).viewports,
                self.builders@ == add_new(
                    updated.viewports,
                    updated.builders,
                    updated.fresh,
                    it.index() as nat,
                ).builders,
                forall|k: int|
                    0 <= k < it.index() ==> inherits_icon(updated, #[trigger] updated.fresh[k], k),
                self.viewport_maps == old(self).viewport_maps,
                self.painter == old(self).painter,
                forall|id: ViewportId| #[trigger]
                    self.viewports@.contains_key(id) && self.viewports@[id].window is Some
                        ==> self.viewports@[id].egui_winit is Some,
        {
            let id: ViewportId = output.id_pair.this;
            assert(all.contains(updated.fresh[it.index() as int]));
            assert(active_ids(all).contains(id));
            let builder = inherit_icon(&self.builders, output.id_pair.parent, output.builder);
            if self.builders.contains_key(&id) {
                // The viewport is not open, so there is no window to bring up to date or to open anew.
                proof {
                    lemma_add_new(
                        updated.viewports,
                        updated.builders,
                        updated.fresh,
                        it.index() as nat,
                    );
                    assert(self.viewports@.contains_key(id) ==> self.viewports@[id].window is None
                        && self.viewports@[id].egui_winit is None);
                }
                let _ = patch_entry(&mut self.builders, id, &builder);
            } else {
                self.viewports.insert(
                    id,
                    Viewport {
                        window: None,
                        egui_winit: None,
                        viewport_ui_cb: output.viewport_ui_cb,
                        parent_id: output.id_pair.parent,
                    },
                );
                self.builders.insert(id, builder);
            }
            active.insert(id);
        }
        proof {
            lemma_add_new(updated.viewports, updated.builders, updated.fresh, updated.fresh.len());
            assert forall|id: ViewportId| active_ids(all).contains(id) implies active@.contains(id) by {
                if id != ROOT {
                    let j = choose|j: int|
                        0 <= j < all.len() && (#[trigger] all[j]).id_pair.this == id;
                    if !viewports.contains_key(id) {
                        assert(updated.fresh.contains(all[j]));
                    }
                }
            }
            assert(active@ =~= active_ids(all));
            assert forall|j: int|
                ids_are_distinct(all) && 0 <= j < all.len() && !viewports.contains_key(
                    (#[trigger] all[j]).id_pair.this,
                ) implies builder_icon(self.builders@[all[j].id_pair.this]) == added_icon(
                builders.get(all[j].id_pair.this),
                all[j].builder,
                parent_builder(viewports, builders, all, j),
            ) by {
                let k = lemma_new_builder(viewports, builders, all, j);
                assert(inherits_icon(updated, updated.fresh[k], k));
            }
            assert(last_icons_count(viewports, builders, all, self.builders@)) by {
                assert forall|k: int|
                    #![trigger updated.fresh[k]]
                    0 <= k < updated.fresh.len() && is_last(
                        updated.fresh,
                        updated.fresh.len(),
                        k,
                    ) implies inherits_icon(updated, updated.fresh[k], k) && self.builders@[
                updated.fresh[k].id_pair.this] == ({
                    let seen = add_new(
                        updated.viewports,
                        updated.builders,
                        updated.fresh,
                        k as nat,
                    ).builders;
                    added_builder(
                        seen.get(updated.fresh[k].id_pair.this),
                        updated.fresh[k].builder,
                        seen.get(updated.fresh[k].id_pair.parent),
                    )
                }) by {
                    lemma_last_counts(
                        updated.viewports,
                        updated.builders,
                        updated.fresh,
                        updated.fresh.len(),
                        k,
                    );
                }
            }
            assert forall|id: ViewportId| #[trigger]
                self.viewports@.contains_key(id) && self.viewports@[id].window is Some implies
                viewports.contains_key(id) && self.viewports@[id].window == viewports[id].window by {
                assert(updated.viewports.contains_key(id));
                assert(viewports.dom().contains(id));
            }
            assert forall|j: int|
                #![trigger all[j]]
                0 <= j < all.len() && viewports.contains_key(all[j].id_pair.this) && (forall|m: int|
                    j < m < all.len() ==> (#[trigger] all[m]).id_pair.this != all[j].id_pair.this)
                    implies {
                let id = all[j].id_pair.this;
                &&& self.viewports@.contains_key(id)
                &&& self.viewports@[id].viewport_ui_cb == all[j].viewport_ui_cb
                &&& self.viewports@[id].parent_id == all[j].id_pair.parent
                &&& self.viewports@[id].window == viewports[id].window
                &&& self.viewports@[id].egui_winit == viewports[id].egui_winit
            } by {
                law_open_viewports_show_the_latest_ui(viewports, builders, all, j);
            }
        }
        active
    }

    /// Whether `after` is what is left of this state when only the viewports in `active` stay.
    pub open spec fn is_cut_down_to(&self, after: &SharedState<R>, active: Set<ViewportId>) -> bool {
        &&& after.viewports@ == self.viewports@.restrict(active)
        &&& after.builders@ == self.builders@.restrict(active)
        &&& after.viewport_maps@ == restrict_values(self.viewport_maps@, active)
        &&& after.painter == self.painter
    }

    /// Drops the viewports that are not in `active`, with their builders and their windows.
    pub fn collect_viewports(&mut self, active: &HashSet<ViewportId>)
        requires
            old(self).wf(),
        ensures
            final(self).wf(),
            old(self).is_cut_down_to(final(self), active@),
            final(self).viewports@ == old(self).viewports@.restrict(active@),
            final(self).builders@ == old(self).builders@.restrict(active@),
            final(self).viewport_maps@ == restrict_values(old(self).viewport_maps@, active@),
            final(self).painter == old(self).painter,
    {
        retain_keys(&mut self.viewports, active);
        retain_keys(&mut self.builders, active);
        retain_values(&mut self.viewport_maps, active);
    }
}

/// An open viewport has the callback and the parent of the last output that asks for it.
proof fn lemma_last_update<R: WgpuBackend>(
    viewports: Map<ViewportId, Viewport<R>>,
    builders: Map<ViewportId, egui::ViewportBuilder>,
    outputs: Seq<ViewportOutput<R>>,
    n: nat,
    j: int,
)
    requires
        0 <= j < n <= outputs.len(),
        is_last(outputs, n, j),
        viewports.contains_key(outputs[j].id_pair.this),
    ensures
        ({
            let id = outputs[j].id_pair.this;
            let after = update_existing(viewports, builders, outputs, n).viewports[id];
            &&& after.viewport_ui_cb == outputs[j].viewport_ui_cb
            &&& after.parent_id == outputs[j].id_pair.parent
        }),
    decreases n,
{
    lemma_update_existing(viewports, builders, outputs, (n - 1) as nat);
    let before = update_existing(viewports, builders, outputs, (n - 1) as nat);
    assert(before.viewports.dom().contains(outputs[j].id_pair.this));
    if j < n - 1 {
        assert(is_last(outputs, (n - 1) as nat, j));
        assert(outputs[n - 1].id_pair.this != outputs[j].id_pair.this);
        lemma_last_update(viewports, builders, outputs, (n - 1) as nat, j);
    }
}

/// The first pass touches neither the window nor the input state of an open viewport.
proof fn lemma_resources_stay<R: WgpuBackend>(
    viewports: Map<ViewportId, Viewport<R>>,
    builders: Map<ViewportId, egui::ViewportBuilder>,
    outputs: Seq<ViewportOutput<R>>,
    n: nat,
    id: ViewportId,
)
    requires
        n <= outputs.len(),
        viewports.contains_key(id),
    ensures
        ({
            let after = update_existing(viewports, builders, outputs, n).viewports[id];
            &&& after.egui_winit == viewports[id].egui_winit
            &&& after.window == viewports[id].window
        }),
    decreases n,
{
    if n > 0 {
        lemma_update_existing(viewports, builders, outputs, (n - 1) as nat);
        lemma_resources_stay(viewports, builders, outputs, (n - 1) as nat, id);
        assert(update_existing(viewports, builders, outputs, (n - 1) as nat).viewports.dom().contains(
            id,
        ));
    }
}

/// The second pass touches no viewport that none of the fresh outputs asks for.
proof fn lemma_others_stay<R: WgpuBackend>(
    viewports: Map<ViewportId, Viewport<R>>,
    builders: Map<ViewportId, egui::ViewportBuilder>,
    fresh: Seq<ViewportOutput<R>>,
    n: nat,
    id: ViewportId,
)
    requires
        n <= fresh.len(),
        forall|k: int| 0 <= k < n ==> (#[trigger] fresh[k]).id_pair.this != id,
    ensures
        ({
            let after = add_new(viewports, builders, fresh, n);
            &&& after.viewports.get(id) == viewports.get(id)
            &&& after.builders.get(id) == builders.get(id)
        }),
    decreases n,
{
    if n > 0 {
        lemma_others_stay(viewports, builders, fresh, (n - 1) as nat, id);
        assert(fresh[n - 1].id_pair.this != id);
    }
}

/// The first output that asks for a fresh viewport is among the fresh ones, and none before it asks for
/// the same.
proof fn lemma_first_fresh<R: WgpuBackend>(
    viewports: Map<ViewportId, Viewport<R>>,
    builders: Map<ViewportId, egui::ViewportBuilder>,
    outputs: Seq<ViewportOutput<R>>,
    n: nat,
    id: ViewportId,
    j: int,
) -> (k: int)
    requires
        n <= outputs.len(),
        0 <= j < outputs.len(),
        outputs[j].id_pair.this == id,
        forall|m: int| 0 <= m < j ==> (#[trigger] outputs[m]).id_pair.this != id,
        !viewports.contains_key(id),
    ensures
        ({
            let fresh = update_existing(viewports, builders, outputs, n).fresh;
            &&& 0 <= k <= fresh.len()
            &&& forall|m: int| 0 <= m < k ==> (#[trigger] fresh[m]).id_pair.this != id
            &&& if j < n {
                k < fresh.len() && fresh[k] == outputs[j]
            } else {
                k == fresh.len()
            }
        }),
    decreases n,
{
    if n == 0 {
        0
    } else {
        let before = update_existing(viewports, builders, outputs, (n - 1) as nat);
        let after = update_existing(viewports, builders, outputs, n);
        lemma_update_existing(viewports, builders, outputs, (n - 1) as nat);
        assert(before.viewports.dom().contains(outputs[n - 1].id_pair.this)
            == viewports.dom().contains(outputs[n - 1].id_pair.this));
        let k = lemma_first_fresh(viewports, builders, outputs, (n - 1) as nat, id, j);
        assert(forall|m: int| 0 <= m < before.fresh.len() ==> after.fresh[m] == before.fresh[m]);
        if j < n {
            k
        } else {
            assert(outputs[n - 1].id_pair.this != id);
            after.fresh.len() as int
        }
    }
}

/// A viewport without a builder is the one that the first fresh output gives.
proof fn lemma_first_added<R: WgpuBackend>(
    viewports: Map<ViewportId, Viewport<R>>,
    builders: Map<ViewportId, egui::ViewportBuilder>,
    fresh: Seq<ViewportOutput<R>>,
    n: nat,
    k: int,
)
    requires
        0 <= k < n <= fresh.len(),
        forall|m: int| 0 <= m < k ==> (#[trigger] fresh[m]).id_pair.this != fresh[k].id_pair.this,
        !builders.contains_key(fresh[k].id_pair.this),
    ensures
        ({
            let id = fresh[k].id_pair.this;
            let after = add_new(viewports, builders, fresh, n);
            &&& after.viewports.contains_key(id) && after.builders.contains_key(id)
            &&& after.viewports[id].viewport_ui_cb == fresh[k].viewport_ui_cb
            &&& after.viewports[id].parent_id == fresh[k].id_pair.parent
            &&& after.viewports[id].window is None && after.viewports[id].egui_winit is None
        }),
    decreases n,
{
    if k < n - 1 {
        lemma_first_added(viewports, builders, fresh, (n - 1) as nat, k);
    } else {
        let id = fresh[k].id_pair.this;
        lemma_others_stay(viewports, builders, fresh, k as nat, id);
        assert(add_new(viewports, builders, fresh, k as nat).builders.get(id) is None);
    }
}

/// The second pass opens no viewport that a builder is known of.
proof fn lemma_known_stay_closed<R: WgpuBackend>(
    viewports: Map<ViewportId, Viewport<R>>,
    builders: Map<ViewportId, egui::ViewportBuilder>,
    fresh: Seq<ViewportOutput<R>>,
    n: nat,
    id: ViewportId,
)
    requires
        n <= fresh.len(),
        builders.contains_key(id),
        !viewports.contains_key(id),
    ensures
        ({
            let after = add_new(viewports, builders, fresh, n);
            after.builders.contains_key(id) && !after.viewports.contains_key(id)
        }),
    decreases n,
{
    if n > 0 {
        lemma_known_stay_closed(viewports, builders, fresh, (n - 1) as nat, id);
    }
}

/// When the viewports have been brought in line with what the ui asks for, every open viewport that it
/// asks for has the callback that shows its latest ui, and the parent that it was asked for with: those of
/// the last output that asks for it. It keeps its window, its input state and its builder.
pub proof fn law_open_viewports_show_the_latest_ui<R: WgpuBackend>(
    viewports: Map<ViewportId, Viewport<R>>,
    builders: Map<ViewportId, egui::ViewportBuilder>,
    outputs: Seq<ViewportOutput<R>>,
    j: int,
)
    requires
        0 <= j < outputs.len(),
        forall|m: int|
            j < m < outputs.len() ==> (#[trigger] outputs[m]).id_pair.this
                != outputs[j].id_pair.this,
        viewports.contains_key(outputs[j].id_pair.this),
    ensures
        ({
            let id = outputs[j].id_pair.this;
            let after = reconciled(viewports, builders, outputs);
            &&& after.viewports.contains_key(id)
            &&& after.viewports[id].viewport_ui_cb == outputs[j].viewport_ui_cb
            &&& after.viewports[id].parent_id == outputs[j].id_pair.parent
            &&& after.viewports[id].window == viewports[id].window
            &&& after.viewports[id].egui_winit == viewports[id].egui_winit
            &&& after.builders.contains_key(id) <==> builders.contains_key(id)
            &&& builders.contains_key(id) ==> after.builders[id] == builders[id]
        }),
{
    let id = outputs[j].id_pair.this;
    let updated = update_existing(viewports, builders, outputs, outputs.len());
    let after = reconciled(viewports, builders, outputs);
    assert(is_last(outputs, outputs.len(), j));
    lemma_update_existing(viewports, builders, outputs, outputs.len());
    lemma_last_update(viewports, builders, outputs, outputs.len(), j);
    lemma_resources_stay(viewports, builders, outputs, outputs.len(), id);
    lemma_others_stay(
        updated.viewports,
        updated.builders,
        updated.fresh,
        updated.fresh.len(),
        id,
    );
    assert(updated.viewports.dom().contains(id));
    assert(after.viewports.get(id) == Some(updated.viewports[id]));
    assert(after.builders.get(id) == builders.get(id));
}

/// A viewport that the ui asks for, that is not open and that no builder is known of is opened, with the
/// callback and the parent of the first output that asks for it, and without any native resource. One that
/// a builder is known of is not.
pub proof fn law_new_viewports_are_added<R: WgpuBackend>(
    viewports: Map<ViewportId, Viewport<R>>,
    builders: Map<ViewportId, egui::ViewportBuilder>,
    outputs: Seq<ViewportOutput<R>>,
    j: int,
)
    requires
        0 <= j < outputs.len(),
        forall|m: int|
            0 <= m < j ==> (#[trigger] outputs[m]).id_pair.this != outputs[j].id_pair.this,
        !viewports.contains_key(outputs[j].id_pair.this),
    ensures
        ({
            let id = outputs[j].id_pair.this;
            let after = reconciled(viewports, builders, outputs);
            &&& after.builders.contains_key(id)
            &&& after.viewports.contains_key(id) <==> !builders.contains_key(id)
            &&& after.viewports.contains_key(id) ==> {
                &&& after.viewports[id].viewport_ui_cb == outputs[j].viewport_ui_cb
                &&& after.viewports[id].parent_id == outputs[j].id_pair.parent
                &&& after.viewports[id].window is None
                &&& after.viewports[id].egui_winit is None
            }
        }),
{
    let id = outputs[j].id_pair.this;
    let updated = update_existing(viewports, builders, outputs, outputs.len());
    lemma_update_existing(viewports, builders, outputs, outputs.len());
    assert(!updated.viewports.dom().contains(id));
    if builders.contains_key(id) {
        lemma_known_stay_closed(
            updated.viewports,
            updated.builders,
            updated.fresh,
            updated.fresh.len(),
            id,
        );
    } else {
        let k = lemma_first_fresh(viewports, builders, outputs, outputs.len(), id, j);
        lemma_first_added(
            updated.viewports,
            updated.builders,
            updated.fresh,
            updated.fresh.len(),
            k,
        );
    }
}

/// Where the ui asks for no viewport twice: the builder of a viewport that is not open is the one that is
/// asked for, with the icon of its parent if it has none. A builder that was known is patched with that.
/// The builder of the parent is the one that it has in the end, unless the parent is not open either and is
/// asked for later: then it is the one that was known.
pub proof fn law_new_builders_inherit_icons<R: WgpuBackend>(
    viewports: Map<ViewportId, Viewport<R>>,
    builders: Map<ViewportId, egui::ViewportBuilder>,
    outputs: Seq<ViewportOutput<R>>,
    j: int,
)
    requires
        forall|a: int, b: int|
            0 <= a < b < outputs.len() ==> (#[trigger] outputs[a]).id_pair.this != (
            #[trigger] outputs[b]).id_pair.this,
        0 <= j < outputs.len(),
        !viewports.contains_key(outputs[j].id_pair.this),
    ensures
        ({
            let output = outputs[j];
            let id = output.id_pair.this;
            let parent = output.id_pair.parent;
            let after = reconciled(viewports, builders, outputs).builders;
            let comes_later = !viewports.contains_key(parent) && exists|i: int|
                j <= i < outputs.len() && (#[trigger] outputs[i]).id_pair.this == parent;
            let seen = if comes_later {
                builders
            } else {
                after
            };
            let asked = if builder_icon(output.builder) is None && seen.contains_key(parent)
                && builder_icon(seen[parent]) is Some {
                builder_with_icon(output.builder, builder_icon(seen[parent])->0)
            } else {
                output.builder
            };
            &&& after.contains_key(id)
            &&& builders.contains_key(id) ==> after[id] == builder_patch(builders[id], asked).0
            &&& !builders.contains_key(id) ==> after[id] == asked
        }),
{
    law_each_output_is_heeded(viewports, builders, outputs);
    assert(is_heeded(viewports, builders, outputs, j));
}

/// When a frame ends, a viewport is there only if it is the root or the ui asked for it, and its builder
/// only then. A window is listed exactly if it was and its viewport is the root or was asked for, and it is
/// listed for the same viewport.
pub proof fn law_who_stays<R: WgpuBackend>(
    viewports: Map<ViewportId, Viewport<R>>,
    builders: Map<ViewportId, egui::ViewportBuilder>,
    viewport_maps: Map<WindowId, ViewportId>,
    outputs: Seq<ViewportOutput<R>>,
    id: ViewportId,
    window_id: WindowId,
)
    ensures
        ({
            let is_asked_for = |asked: ViewportId| asked == ROOT || exists|j: int|
                0 <= j < outputs.len() && (#[trigger] outputs[j]).id_pair.this == asked;
            let active = active_ids(outputs);
            &&& viewports.restrict(active).contains_key(id) <==> is_asked_for(id)
                && viewports.contains_key(id)
            &&& builders.restrict(active).contains_key(id) <==> is_asked_for(id)
                && builders.contains_key(id)
            &&& restrict_values(viewport_maps, active).contains_key(window_id)
                <==> viewport_maps.contains_key(window_id) && is_asked_for(viewport_maps[window_id])
            &&& restrict_values(viewport_maps, active).contains_key(window_id) ==> restrict_values(
                viewport_maps,
                active,
            )[window_id] == viewport_maps[window_id]
        }),
{
}

/// A viewport can be shown exactly if nothing that showing it needs is missing.
pub proof fn law_what_can_be_shown<R: WgpuBackend>(shared: SharedState<R>, id: ViewportId)
    ensures
        !shared.can_show(id) <==> !shared.viewports@.contains_key(id) || (
        shared.viewports@[id].window is None || shared.viewports@[id].egui_winit is None),
{
}

/// Showing a viewport in a window gives it that window and that input state, and changes nothing else of
/// it, nor anything of the others. The viewport is found by the window.
pub proof fn law_shown_viewports_have_their_window<R: WgpuBackend>(
    shared: SharedState<R>,
    id: ViewportId,
    window: NativeWindow<R::Window>,
    egui_winit: R::InputState,
    other: ViewportId,
)
    requires
        shared.viewports@.contains_key(id),
    ensures
        ({
            let after = shared.viewports_shown_in(id, window, egui_winit);
            &&& after.dom() == shared.viewports@.dom()
            &&& after[id].window == Some(window) && after[id].egui_winit == Some(egui_winit)
            &&& after[id].viewport_ui_cb == shared.viewports@[id].viewport_ui_cb
            &&& after[id].parent_id == shared.viewports@[id].parent_id
            &&& other != id ==> after[other] == shared.viewports@[other]
        }),
{
    assert(shared.viewports_shown_in(id, window, egui_winit).dom() =~= shared.viewports@.dom());
}

/// Making sure that there is a viewport which its parent paints keeps every viewport and every builder that
/// is there. A viewport that is new has the parent that is asked for, and no ui and no native resource of
/// its own yet. Its window is opened with the builder that is asked for, which has the icon of the parent
/// if it has none and no builder was known. That builder is kept, unless one was known.
pub proof fn law_immediate_viewports_are_added<R: WgpuBackend>(
    shared: SharedState<R>,
    viewport_builder: egui::ViewportBuilder,
    id_pair: ViewportIdPair,
    id: ViewportId,
)
    ensures
        ({
            let viewports = shared.viewports_with(id_pair);
            let builders = shared.builders_with(viewport_builder, id_pair);
            &&& shared.viewports@.contains_key(id) ==> viewports.contains_key(id) && viewports[id]
                == shared.viewports@[id]
            &&& shared.builders@.contains_key(id) ==> builders.contains_key(id) && builders[id]
                == shared.builders@[id]
            &&& viewports.contains_key(id) && !shared.viewports@.contains_key(id) ==> id
                == id_pair.this
            &&& builders.contains_key(id) && !shared.builders@.contains_key(id) ==> id
                == id_pair.this
        }),
        shared.builder_to_build(viewport_builder, id_pair) is Some
            <==> !shared.viewports@.contains_key(id_pair.this),
        shared.viewports@.contains_key(id_pair.this) ==> shared.builders_with(
            viewport_builder,
            id_pair,
        ) == shared.builders@,
        shared.builder_to_build(viewport_builder, id_pair) matches Some(builder) ==> {
            let viewport = shared.viewports_with(id_pair)[id_pair.this];
            let builders = shared.builders_with(viewport_builder, id_pair);
            let parent = shared.builders@[id_pair.parent];
            &&& viewport.parent_id == id_pair.parent
            &&& viewport.viewport_ui_cb is None
            &&& viewport.window is None && viewport.egui_winit is None
            &&& shared.viewports_with(id_pair).contains_key(id_pair.this)
            &&& builders.contains_key(id_pair.this)
            &&& !shared.builders@.contains_key(id_pair.this) ==> builders[id_pair.this] == builder
            &&& if !shared.builders@.contains_key(id_pair.this) && builder_icon(viewport_builder)
                is None && shared.builders@.contains_key(id_pair.parent) && builder_icon(parent)
                is Some {
                builder == builder_with_icon(viewport_builder, builder_icon(parent)->0)
            } else {
                builder == viewport_builder
            }
        },
{
}

/// When the root viewport is dropped it is gone, and when it is restored it is shown in the new window, and
/// is its own parent. The other viewports stay as they are all the while.
pub proof fn law_the_root_is_restored<R: WgpuBackend>(
    shared: SharedState<R>,
    window: NativeWindow<R::Window>,
    egui_winit: R::InputState,
    other: ViewportId,
)
    ensures
        ({
            let dropped = shared.viewports_without_root();
            let restored = shared.viewports_with_root_in(window, egui_winit);
            &&& !dropped.contains_key(ROOT)
            &&& restored.contains_key(ROOT)
            &&& restored[ROOT].window == Some(window)
            &&& restored[ROOT].egui_winit == Some(egui_winit)
            &&& restored[ROOT].viewport_ui_cb is None
            &&& restored[ROOT].parent_id == ROOT
            &&& other != ROOT ==> dropped.contains_key(other) == shared.viewports@.contains_key(other)
                && restored.contains_key(other) == shared.viewports@.contains_key(other)
            &&& other != ROOT && shared.viewports@.contains_key(other) ==> dropped[other]
                == shared.viewports@[other] && restored[other] == shared.viewports@[other]
        }),
{
}

/// A viewport that does not stay is gone, with its builder, and no window is listed for it. One that stays
/// is as it was, with its builder and its windows.
pub proof fn law_what_is_left_of_a_viewport<R: WgpuBackend>(
    shared: &SharedState<R>,
    after: &SharedState<R>,
    active: Set<ViewportId>,
    id: ViewportId,
    window_id: WindowId,
)
    requires
        shared.is_cut_down_to(after, active),
    ensures
        !active.contains(id) ==> !after.viewports@.contains_key(id) && !after.builders@.contains_key(id)
            && !(after.viewport_maps@.contains_key(window_id) && after.viewport_maps@[window_id] == id),
        active.contains(id) ==> {
            &&& after.viewports@.contains_key(id) == shared.viewports@.contains_key(id)
            &&& shared.viewports@.contains_key(id) ==> after.viewports@[id] == shared.viewports@[id]
            &&& after.builders@.contains_key(id) == shared.builders@.contains_key(id)
            &&& shared.builders@.contains_key(id) ==> after.builders@[id] == shared.builders@[id]
            &&& shared.viewport_maps@.contains_key(window_id) && shared.viewport_maps@[window_id] == id
                <==> after.viewport_maps@.contains_key(window_id) && after.viewport_maps@[window_id]
                == id
        },
        after.painter == shared.painter,
{
}

/// Every viewport that is there either has a window or is to get one, and once it is shown in one it is not
/// to get another. No window is opened for a viewport that is not there.
pub proof fn law_who_gets_a_window<R: WgpuBackend>(
    shared: SharedState<R>,
    after: SharedState<R>,
    id: ViewportId,
    window: NativeWindow<R::Window>,
    egui_winit: R::InputState,
)
    requires
        after.viewports@ == shared.viewports_shown_in(id, window, egui_winit),
    ensures
        shared.lacks_window(id) || (shared.viewports@.contains_key(id)
            && shared.viewports@[id].window is Some) <==> shared.viewports@.contains_key(id),
        shared.lacks_window(id) ==> shared.viewports@[id].window is None,
        !after.lacks_window(id),
{
}

} // verus!
