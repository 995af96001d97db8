//! The windows, surfaces and OpenGL context of all viewports.

use crate::backend::{active_ids, ids_are_distinct, GlBackend, NativeWindow, ViewportOutput};
use crate::builder::{
    builder_icon, builder_patch, builder_with_icon, inherit_icon, inherited_icon, inheriting, is_patch,
    patch_entry, patched, with_inherited_icon, WindowCommands,
};
use crate::event::{PhysicalSize, ViewportId, ViewportIdPair, WindowId, ROOT};
use crate::maps::{keys_of, restrict_values, retain_keys, retain_values};
use crate::options::{NativeOptions, SwapInterval};
use std::collections::hash_map::Entry;
use std::collections::HashMap;
use std::collections::HashSet;
use vstd::prelude::*;

verus! {

broadcast use vstd::std_specs::hash::group_hash_axioms;

/// A viewport and the native resources that it has so far.
pub struct Viewport<R: GlBackend> {
    pub gl_surface: Option<R::Surface>,
    pub window: Option<NativeWindow<R::Window>>,
    pub id_pair: ViewportIdPair,
    /// The user-code that shows the ui. `None` for a viewport that is painted with its parent.
    pub viewport_ui_cb: Option<R::UiCallback>,
    pub egui_winit: Option<R::InputState>,
}

impl<R: GlBackend> Viewport<R> {
    /// A viewport without any native resource.
    pub fn new(id_pair: ViewportIdPair) -> (viewport: Viewport<R>)
        ensures
            viewport == (Viewport::<R> {
                gl_surface: None,
                window: None,
                id_pair,
                viewport_ui_cb: None,
                egui_winit: None,
            }),
    {
        Viewport { gl_surface: None, window: None, id_pair, viewport_ui_cb: None, egui_winit: None }
    }
}

/// The size of the surface for a window of the size `size`. A surface has no empty side.
pub open spec fn surface_size_of(size: PhysicalSize) -> PhysicalSize {
    PhysicalSize {
        width: if size.width < 1 {
            1
        } else {
            size.width
        },
        height: if size.height < 1 {
            1
        } else {
            size.height
        },
    }
}

/// The size of the surface for a window of the size `size`. A surface has no empty side.
pub fn surface_size(size: PhysicalSize) -> (surface_size: PhysicalSize)
    ensures
        surface_size == surface_size_of(size),
        surface_size.width > 0 && surface_size.height > 0,
{
    PhysicalSize {
        width: if size.width < 1 {
            1
        } else {
            size.width
        },
        height: if size.height < 1 {
            1
        } else {
            size.height
        },
    }
}

/// An OpenGL context, current or not.
pub enum GlContext<R: GlBackend> {
    Current(R::CurrentContext),
    NotCurrent(R::NotCurrentContext),
}

/// All viewports, and the one OpenGL context that paints them.
pub struct GlutinWindowContext<R: GlBackend> {
    pub swap_interval: SwapInterval,
    pub max_texture_side: Option<usize>,
    pub current_gl_context: Option<R::CurrentContext>,
    pub not_current_gl_context: Option<R::NotCurrentContext>,
    pub viewports: HashMap<ViewportId, Viewport<R>>,
    pub viewport_maps: HashMap<WindowId, ViewportId>,
    pub window_maps: HashMap<ViewportId, WindowId>,
    pub builders: HashMap<ViewportId, egui::ViewportBuilder>,
}

/// An open viewport that the ui asks for again. Its parent and its callback are the latest ones,
/// and if it has to be opened anew it loses its window and its surface.
pub open spec fn updated_viewport<R: GlBackend>(
    viewport: Viewport<R>,
    output: ViewportOutput<R>,
    recreate: bool,
) -> Viewport<R> {
    Viewport {
        id_pair: ViewportIdPair { this: viewport.id_pair.this, parent: output.id_pair.parent },
        viewport_ui_cb: output.viewport_ui_cb,
        window: if recreate {
            None
        } else {
            viewport.window
        },
        gl_surface: if recreate {
            None
        } else {
            viewport.gl_surface
        },
        egui_winit: viewport.egui_winit,
    }
}

/// A viewport that the ui asks for the first time.
pub open spec fn new_viewport<R: GlBackend>(output: ViewportOutput<R>) -> Viewport<R> {
    Viewport {
        gl_surface: None,
        window: None,
        id_pair: output.id_pair,
        viewport_ui_cb: output.viewport_ui_cb,
        egui_winit: None,
    }
}

/// A viewport that has lost its window and its surface.
pub open spec fn without_window<R: GlBackend>(viewport: Viewport<R>) -> Viewport<R> {
    Viewport { window: None, gl_surface: None, ..viewport }
}

/// Whether every viewport with a surface has a window.
pub open spec fn have_windows<R: GlBackend>(viewports: Map<ViewportId, Viewport<R>>) -> bool {
    forall|id: ViewportId| #[trigger]
        viewports.contains_key(id) && viewports[id].gl_surface is Some ==> viewports[id].window
            is Some
}

/// What the viewport `id` is initialized with.
pub struct Initialization<R: GlBackend> {
    pub id: ViewportId,
    pub window: NativeWindow<R::Window>,
    pub gl_surface: R::Surface,
    /// Counts only if the viewport has no input state yet.
    pub input_state: Option<R::InputState>,
}

/// A viewport that has been initialized.
pub open spec fn initialized<R: GlBackend>(
    viewport: Viewport<R>,
    with: Initialization<R>,
) -> Viewport<R> {
    Viewport {
        gl_surface: Some(with.gl_surface),
        window: Some(with.window),
        egui_winit: if viewport.egui_winit is Some {
            viewport.egui_winit
        } else {
            with.input_state
        },
        ..viewport
    }
}

/// The viewports once `all` have been carried out in turn, each by `begin_init_viewport` and
/// `finish_init_viewport`.
pub open spec fn all_initialized<R: GlBackend>(
    viewports: Map<ViewportId, Viewport<R>>,
    all: Seq<Initialization<R>>,
) -> Map<ViewportId, Viewport<R>>
    decreases all.len(),
{
    if all.len() == 0 {
        viewports
    } else {
        let before = all_initialized(viewports, all.drop_last());
        let id = all.last().id;
        let begun = before.insert(id, Viewport { window: None, ..before[id] });
        begun.insert(id, initialized(begun[id], all.last()))
    }
}

/// How far the viewports have been brought in line with what the ui asks for.
#[verifier::ext_equal]
pub struct Progress<R: GlBackend> {
    pub viewports: Map<ViewportId, Viewport<R>>,
    pub builders: Map<ViewportId, egui::ViewportBuilder>,
    /// The outputs that no open viewport answers to.
    pub fresh: Seq<ViewportOutput<R>>,
}

/// The first pass, over the first `n` outputs: all builders, and the open viewports.
pub open spec fn update_existing<R: GlBackend>(
    viewports: Map<ViewportId, Viewport<R>>,
    builders: Map<ViewportId, egui::ViewportBuilder>,
    outputs: Seq<ViewportOutput<R>>,
    n: nat,
) -> Progress<R>
    decreases n,
{
    if n == 0 {
        Progress { viewports, builders, fresh: Seq::empty() }
    } else {
        let before = update_existing(viewports, builders, outputs, (n - 1) as nat);
        let output = outputs[n - 1];
        let id = output.id_pair.this;
        let (builder, recreate) = patched(before.builders, id, output.builder);
        if before.viewports.contains_key(id) {
            Progress {
                viewports: before.viewports.insert(
                    id,
                    updated_viewport(before.viewports[id], output, recreate),
                ),
                builders: before.builders.insert(id, builder),
                fresh: before.fresh,
            }
        } else {
            Progress {
                viewports: before.viewports,
                builders: before.builders.insert(id, builder),
                fresh: before.fresh.push(output),
            }
        }
    }
}

/// The changes to open windows that go with the first pass, where `patches` are the commands that
/// came of each output so far: those of an open viewport go to its window, if it has one and keeps
/// it.
pub open spec fn commands_to_windows<R: GlBackend>(
    viewports: Map<ViewportId, Viewport<R>>,
    builders: Map<ViewportId, egui::ViewportBuilder>,
    outputs: Seq<ViewportOutput<R>>,
    patches: Seq<Vec<egui::ViewportCommand>>,
) -> Seq<WindowCommands>
    decreases patches.len(),
{
    if patches.len() == 0 {
        Seq::empty()
    } else {
        let so_far = commands_to_windows(viewports, builders, outputs, patches.drop_last());
        let n = (patches.len() - 1) as nat;
        let before = update_existing(viewports, builders, outputs, n);
        let output = outputs[n as int];
        let id = output.id_pair.this;
        let recreate = patched(before.builders, id, output.builder).1;
        if before.viewports.contains_key(id) && !recreate {
            match before.viewports[id].window {
                Some(window) => so_far.push(
                    WindowCommands { window_id: window.id, commands: patches.last() },
                ),
                None => so_far,
            }
        } else {
            so_far
        }
    }
}

/// Whether `patches` are the commands that came of each output so far.
pub open spec fn are_patches<R: GlBackend>(
    viewports: Map<ViewportId, Viewport<R>>,
    builders: Map<ViewportId, egui::ViewportBuilder>,
    outputs: Seq<ViewportOutput<R>>,
    patches: Seq<Vec<egui::ViewportCommand>>,
) -> bool {
    forall|i: int|
        0 <= i < patches.len() ==> is_patch(
            update_existing(viewports, builders, outputs, i as nat).builders,
            outputs[i].id_pair.this,
            outputs[i].builder,
            (#[trigger] patches[i])@,
        )
}

/// The second pass, over the first `n` of the outputs `fresh`: the viewports that are new.
pub open spec fn add_new<R: GlBackend>(
    viewports: Map<ViewportId, Viewport<R>>,
    builders: Map<ViewportId, egui::ViewportBuilder>,
    fresh: Seq<ViewportOutput<R>>,
    n: nat,
) -> Progress<R>
    decreases n,
{
    if n == 0 {
        Progress { viewports, builders, fresh }
    } else {
        let before = add_new(viewports, builders, fresh, (n - 1) as nat);
        let output = fresh[n - 1];
        let id = output.id_pair.this;
        Progress {
            viewports: before.viewports.insert(id, new_viewport(output)),
            builders: before.builders.insert(
                id,
                with_inherited_icon(before.builders, output.id_pair.parent, output.builder),
            ),
            fresh,
        }
    }
}

/// Both passes, over all outputs.
pub open spec fn reconciled<R: GlBackend>(
    viewports: Map<ViewportId, Viewport<R>>,
    builders: Map<ViewportId, egui::ViewportBuilder>,
    outputs: Seq<ViewportOutput<R>>,
) -> Progress<R> {
    let updated = update_existing(viewports, builders, outputs, outputs.len());
    add_new(updated.viewports, updated.builders, updated.fresh, updated.fresh.len())
}

/// The first pass neither opens nor drops a viewport, shows none in another window, gives a builder
/// to each output, and sorts every output to an open viewport or to the fresh ones.
proof fn lemma_update_existing<R: GlBackend>(
    viewports: Map<ViewportId, Viewport<R>>,
    builders: Map<ViewportId, egui::ViewportBuilder>,
    outputs: Seq<ViewportOutput<R>>,
    n: nat,
)
    requires
        n <= outputs.len(),
    ensures
        ({
            let after = update_existing(viewports, builders, outputs, n);
            &&& after.viewports.dom() == viewports.dom()
            &&& forall|id: ViewportId| #[trigger]
                viewports.contains_key(id) ==> after.viewports[id].id_pair.this
                    == viewports[id].id_pair.this
            &&& forall|id: ViewportId| #[trigger]
                viewports.contains_key(id) ==> without_window(after.viewports[id])
                    == after.viewports[id] || after.viewports[id].window == viewports[id].window
                    && after.viewports[id].gl_surface == viewports[id].gl_surface
            &&& forall|id: ViewportId| #[trigger]
                builders.contains_key(id) ==> after.builders.contains_key(id)
            &&& forall|j: int|
                0 <= j < n ==> after.builders.contains_key((#[trigger] outputs[j]).id_pair.this)
            &&& forall|k: int|
                0 <= k < after.fresh.len() ==> outputs.contains(#[trigger] after.fresh[k])
            &&& forall|j: int|
                0 <= j < n ==> viewports.contains_key((#[trigger] outputs[j]).id_pair.this)
                    || after.fresh.contains(outputs[j])
        }),
    decreases n,
{
    if n > 0 {
        lemma_update_existing(viewports, builders, outputs, (n - 1) as nat);
        let before = update_existing(viewports, builders, outputs, (n - 1) as nat);
        let after = update_existing(viewports, builders, outputs, n);
        let output = outputs[n - 1];
        assert(after.viewports.dom() =~= viewports.dom());
        assert(outputs.contains(output));
        assert forall|j: int| 0 <= j < n implies viewports.contains_key(
            (#[trigger] outputs[j]).id_pair.this,
        ) || after.fresh.contains(outputs[j]) by {
            if !viewports.contains_key(outputs[j].id_pair.this) {
                if j < n - 1 {
                    let k = choose|k: int|
                        0 <= k < before.fresh.len() && before.fresh[k] == outputs[j];
                    assert(after.fresh[k] == outputs[j]);
                } else {
                    assert(after.fresh.last() == outputs[j]);
                }
            }
        }
    }
}

/// The second pass adds a viewport and a builder for each fresh output, and keeps the others.
proof fn lemma_add_new<R: GlBackend>(
    viewports: Map<ViewportId, Viewport<R>>,
    builders: Map<ViewportId, egui::ViewportBuilder>,
    fresh: Seq<ViewportOutput<R>>,
    n: nat,
)
    requires
        n <= fresh.len(),
        forall|id: ViewportId| #[trigger]
            viewports.contains_key(id) ==> viewports[id].id_pair.this == id && builders.contains_key(
                id,
            ),
    ensures
        ({
            let after = add_new(viewports, builders, fresh, n);
            &&& forall|id: ViewportId| #[trigger]
                after.viewports.contains_key(id) ==> after.viewports[id].id_pair.this == id
                    && after.builders.contains_key(id)
            &&& forall|id: ViewportId| #[trigger]
                viewports.contains_key(id) ==> after.viewports.contains_key(id)
            &&& forall|id: ViewportId| #[trigger]
                after.viewports.contains_key(id) ==> without_window(after.viewports[id])
                    == after.viewports[id] || viewports.contains_key(id)
                    && after.viewports[id].window == viewports[id].window
                    && after.viewports[id].gl_surface == viewports[id].gl_surface
            &&& forall|k: int|
                0 <= k < n ==> after.viewports.contains_key((#[trigger] fresh[k]).id_pair.this)
        }),
    decreases n,
{
    if n > 0 {
        lemma_add_new(viewports, builders, fresh, (n - 1) as nat);
    }
}

/// When the viewports have been brought in line with what the ui asks for, the viewports there are
/// are the root viewport and those that the ui asked for, and each has a builder.
pub proof fn law_viewports_are_those_asked_for<R: GlBackend>(
    viewports: Map<ViewportId, Viewport<R>>,
    builders: Map<ViewportId, egui::ViewportBuilder>,
    outputs: Seq<ViewportOutput<R>>,
)
    requires
        viewports.contains_key(ROOT),
        forall|id: ViewportId| #[trigger]
            viewports.contains_key(id) ==> viewports[id].id_pair.this == id && builders.contains_key(
                id,
            ),
    ensures
        ({
            let after = reconciled(viewports, builders, outputs);
            let active = active_ids(outputs);
            &&& after.viewports.restrict(active).dom() == active
            &&& after.builders.restrict(active).dom() == active
            &&& forall|id: ViewportId| #[trigger]
                active.contains(id) ==> after.viewports[id].id_pair.this == id
        }),
{
    let updated = update_existing(viewports, builders, outputs, outputs.len());
    let after = reconciled(viewports, builders, outputs);
    let active = active_ids(outputs);
    lemma_update_existing(viewports, builders, outputs, outputs.len());
    assert forall|id: ViewportId| #[trigger]
        updated.viewports.contains_key(id) implies updated.viewports[id].id_pair.this == id
        && updated.builders.contains_key(id) by {
        assert(viewports.contains_key(id));
    }
    lemma_add_new(updated.viewports, updated.builders, updated.fresh, updated.fresh.len());
    assert forall|id: ViewportId| active.contains(id) implies #[trigger] after.viewports.contains_key(
        id,
    ) by {
        if id != ROOT {
            let j = choose|j: int|
                0 <= j < outputs.len() && (#[trigger] outputs[j]).id_pair.this == id;
            if !viewports.contains_key(id) {
                assert(updated.fresh.contains(outputs[j]));
                let k = choose|k: int|
                    0 <= k < updated.fresh.len() && updated.fresh[k] == outputs[j];
                assert(after.viewports.contains_key(updated.fresh[k].id_pair.this));
            } else {
                assert(updated.viewports.contains_key(id));
            }
        } else {
            assert(updated.viewports.contains_key(id));
        }
    }
    assert(after.viewports.restrict(active).dom() =~= active);
    assert(after.builders.restrict(active).dom() =~= active);
}

/// The first pass heeds each output on its own, where no viewport is asked for twice.
proof fn lemma_update_each<R: GlBackend>(
    viewports: Map<ViewportId, Viewport<R>>,
    builders: Map<ViewportId, egui::ViewportBuilder>,
    outputs: Seq<ViewportOutput<R>>,
    n: nat,
)
    requires
        n <= outputs.len(),
        ids_are_distinct(outputs),
    ensures
        ({
            let after = update_existing(viewports, builders, outputs, n);
            &&& forall|j: int|
                0 <= j < n ==> {
                    let output = #[trigger] outputs[j];
                    let id = output.id_pair.this;
                    let (builder, recreate) = patched(builders, id, output.builder);
                    &&& after.builders.contains_key(id) && after.builders[id] == builder
                    &&& viewports.contains_key(id) ==> after.viewports[id] == updated_viewport(
                        viewports[id],
                        output,
                        recreate,
                    )
                }
            &&& forall|id: ViewportId|
                !(exists|j: int| 0 <= j < n && (#[trigger] outputs[j]).id_pair.this == id) ==> {
                    &&& #[trigger] after.builders.contains_key(id) == builders.contains_key(id)
                    &&& builders.contains_key(id) ==> after.builders[id] == builders[id]
                }
            &&& forall|id: ViewportId| #[trigger]
                viewports.contains_key(id) && !(exists|j: int|
                    0 <= j < n && (#[trigger] outputs[j]).id_pair.this == id)
                    ==> after.viewports[id] == viewports[id]
            &&& ids_are_distinct(after.fresh)
            &&& forall|k: int|
                0 <= k < after.fresh.len() ==> {
                    &&& !viewports.contains_key((#[trigger] after.fresh[k]).id_pair.this)
                    &&& exists|j: int| 0 <= j < n && #[trigger] outputs[j] == after.fresh[k]
                }
        }),
    decreases n,
{
    if n > 0 {
        lemma_update_each(viewports, builders, outputs, (n - 1) as nat);
        lemma_update_existing(viewports, builders, outputs, (n - 1) as nat);
        let before = update_existing(viewports, builders, outputs, (n - 1) as nat);
        let after = update_existing(viewports, builders, outputs, n);
        let last = outputs[n - 1];
        let id = last.id_pair.this;
        assert(!(exists|j: int| 0 <= j < n - 1 && (#[trigger] outputs[j]).id_pair.this == id));
        assert(before.builders.contains_key(id) == builders.contains_key(id));
        assert(before.viewports.dom().contains(id) == viewports.dom().contains(id));
        assert forall|k: int| 0 <= k < after.fresh.len() implies {
            &&& !viewports.contains_key((#[trigger] after.fresh[k]).id_pair.this)
            &&& exists|j: int| 0 <= j < n && #[trigger] outputs[j] == after.fresh[k]
        } by {
            if k < before.fresh.len() {
                assert(after.fresh[k] == before.fresh[k]);
                let j = choose|j: int| 0 <= j < n - 1 && #[trigger] outputs[j] == before.fresh[k];
                assert(outputs[j] == after.fresh[k]);
            } else {
                assert(outputs[n - 1] == after.fresh[k]);
            }
        }
        assert forall|other: ViewportId|
            !(exists|j: int| 0 <= j < n && (#[trigger] outputs[j]).id_pair.this == other) implies {
            &&& #[trigger] after.builders.contains_key(other) == builders.contains_key(other)
            &&& builders.contains_key(other) ==> after.builders[other] == builders[other]
        } by {
            assert(outputs[n - 1].id_pair.this != other);
            assert(!(exists|j: int|
                0 <= j < n - 1 && (#[trigger] outputs[j]).id_pair.this == other));
            assert(before.builders.contains_key(other) == builders.contains_key(other));
        }
        assert forall|other: ViewportId| #[trigger]
            viewports.contains_key(other) && !(exists|j: int|
                0 <= j < n && (#[trigger] outputs[j]).id_pair.this == other) implies
            after.viewports[other] == viewports[other] by {
            assert(outputs[n - 1].id_pair.this != other);
            assert(!(exists|j: int|
                0 <= j < n - 1 && (#[trigger] outputs[j]).id_pair.this == other));
        }
        assert(ids_are_distinct(after.fresh)) by {
            assert forall|a: int, b: int| 0 <= a < b < after.fresh.len() implies (
            #[trigger] after.fresh[a]).id_pair.this != (#[trigger] after.fresh[b]).id_pair.this by {
                if b == before.fresh.len() {
                    let j = choose|j: int| 0 <= j < n - 1 && #[trigger] outputs[j] == before.fresh[a];
                    assert(outputs[j].id_pair.this != outputs[n - 1].id_pair.this);
                }
            }
        }
    }
}

/// The fresh outputs stand in the order in which the ui asks for them.
proof fn lemma_fresh_order<R: GlBackend>(
    viewports: Map<ViewportId, Viewport<R>>,
    builders: Map<ViewportId, egui::ViewportBuilder>,
    outputs: Seq<ViewportOutput<R>>,
    n: nat,
    a: int,
    b: int,
    i: int,
    j: int,
)
    requires
        n <= outputs.len(),
        ids_are_distinct(outputs),
        0 <= a < b < update_existing(viewports, builders, outputs, n).fresh.len(),
        0 <= i < n,
        0 <= j < n,
        update_existing(viewports, builders, outputs, n).fresh[a] == outputs[i],
        update_existing(viewports, builders, outputs, n).fresh[b] == outputs[j],
    ensures
        i < j,
    decreases n,
{
    let before = update_existing(viewports, builders, outputs, (n - 1) as nat);
    let after = update_existing(viewports, builders, outputs, n);
    lemma_update_each(viewports, builders, outputs, (n - 1) as nat);
    assert(after.fresh[a] == before.fresh[a]);
    let first = choose|first: int|
        0 <= first < n - 1 && #[trigger] outputs[first] == before.fresh[a];
    assert(outputs[first].id_pair.this == outputs[i].id_pair.this);
    assert(first == i);
    if b == before.fresh.len() {
        assert(outputs[j].id_pair.this == outputs[n - 1].id_pair.this);
        assert(j == n - 1);
    } else {
        assert(after.fresh[b] == before.fresh[b]);
        let second = choose|second: int|
            0 <= second < n - 1 && #[trigger] outputs[second] == before.fresh[b];
        assert(outputs[second].id_pair.this == outputs[j].id_pair.this);
        assert(second == j);
        lemma_fresh_order(viewports, builders, outputs, (n - 1) as nat, a, b, i, j);
    }
}

/// The second pass adds each fresh output as it is, where no viewport is asked for twice.
proof fn lemma_add_each<R: GlBackend>(
    viewports: Map<ViewportId, Viewport<R>>,
    builders: Map<ViewportId, egui::ViewportBuilder>,
    fresh: Seq<ViewportOutput<R>>,
    n: nat,
)
    requires
        n <= fresh.len(),
        ids_are_distinct(fresh),
    ensures
        ({
            let after = add_new(viewports, builders, fresh, n);
            &&& forall|k: int|
                0 <= k < n ==> {
                    let output = #[trigger] fresh[k];
                    &&& after.viewports.contains_key(output.id_pair.this)
                    &&& after.viewports[output.id_pair.this] == new_viewport(output)
                    &&& after.builders.contains_key(output.id_pair.this)
                }
            &&& forall|id: ViewportId|
                !(exists|k: int| 0 <= k < n && (#[trigger] fresh[k]).id_pair.this == id) ==> {
                    &&& #[trigger] after.viewports.contains_key(id) == viewports.contains_key(id)
                    &&& viewports.contains_key(id) ==> after.viewports[id] == viewports[id]
                    &&& after.builders.contains_key(id) == builders.contains_key(id)
                    &&& builders.contains_key(id) ==> after.builders[id] == builders[id]
                }
        }),
    decreases n,
{
    if n > 0 {
        lemma_add_each(viewports, builders, fresh, (n - 1) as nat);
        let before = add_new(viewports, builders, fresh, (n - 1) as nat);
        let after = add_new(viewports, builders, fresh, n);
        assert forall|id: ViewportId|
            !(exists|k: int| 0 <= k < n && (#[trigger] fresh[k]).id_pair.this == id) implies {
            &&& #[trigger] after.viewports.contains_key(id) == viewports.contains_key(id)
            &&& viewports.contains_key(id) ==> after.viewports[id] == viewports[id]
            &&& after.builders.contains_key(id) == builders.contains_key(id)
            &&& builders.contains_key(id) ==> after.builders[id] == builders[id]
        } by {
            assert(fresh[n - 1].id_pair.this != id);
            assert(!(exists|k: int| 0 <= k < n - 1 && (#[trigger] fresh[k]).id_pair.this == id));
            assert(before.viewports.contains_key(id) == viewports.contains_key(id));
        }
    }
}

/// The builder that the parent of the new viewport of `outputs[j]` has when the viewport is added. It is
/// the one that the parent has in the end, unless the parent is new too and comes later.
pub open spec fn parent_builder<R: GlBackend>(
    viewports: Map<ViewportId, Viewport<R>>,
    builders: Map<ViewportId, egui::ViewportBuilder>,
    outputs: Seq<ViewportOutput<R>>,
    j: int,
) -> Option<egui::ViewportBuilder> {
    let parent = outputs[j].id_pair.parent;
    if !viewports.contains_key(parent) && exists|i: int|
        j <= i < outputs.len() && (#[trigger] outputs[i]).id_pair.this == parent {
        let i = choose|i: int|
            j <= i < outputs.len() && (#[trigger] outputs[i]).id_pair.this == parent;
        Some(patched(builders, parent, outputs[i].builder).0)
    } else {
        reconciled(viewports, builders, outputs).builders.get(parent)
    }
}

/// Whether the new viewports that `outputs` ask for have their own icon in `after`, or else that of
/// their parent.
pub open spec fn icons_are_inherited<R: GlBackend>(
    viewports: Map<ViewportId, Viewport<R>>,
    builders: Map<ViewportId, egui::ViewportBuilder>,
    outputs: Seq<ViewportOutput<R>>,
    after: Map<ViewportId, egui::ViewportBuilder>,
) -> bool {
    forall|j: int|
        0 <= j < outputs.len() && !viewports.contains_key((#[trigger] outputs[j]).id_pair.this)
            ==> builder_icon(after[outputs[j].id_pair.this]) == inherited_icon(
            outputs[j].builder,
            parent_builder(viewports, builders, outputs, j),
        )
}

/// The builder of the new viewport of `outputs[j]`, which is added as the `k`th of the fresh ones.
proof fn lemma_new_builder<R: GlBackend>(
    viewports: Map<ViewportId, Viewport<R>>,
    builders: Map<ViewportId, egui::ViewportBuilder>,
    outputs: Seq<ViewportOutput<R>>,
    j: int,
) -> (k: int)
    requires
        ids_are_distinct(outputs),
        0 <= j < outputs.len(),
        !viewports.contains_key(outputs[j].id_pair.this),
    ensures
        ({
            let updated = update_existing(viewports, builders, outputs, outputs.len());
            let after = reconciled(viewports, builders, outputs);
            let seen = add_new(updated.viewports, updated.builders, updated.fresh, k as nat).builders;
            &&& 0 <= k < updated.fresh.len()
            &&& updated.fresh[k] == outputs[j]
            &&& seen.get(outputs[j].id_pair.parent) == parent_builder(viewports, builders, outputs, j)
            &&& after.viewports.contains_key(outputs[j].id_pair.this)
            &&& after.viewports[outputs[j].id_pair.this] == new_viewport(outputs[j])
            &&& after.builders.contains_key(outputs[j].id_pair.this)
            &&& after.builders[outputs[j].id_pair.this] == with_inherited_icon(
                seen,
                outputs[j].id_pair.parent,
                outputs[j].builder,
            )
        }),
{
    let updated = update_existing(viewports, builders, outputs, outputs.len());
    let fresh = updated.fresh;
    let after = reconciled(viewports, builders, outputs);
    let parent = outputs[j].id_pair.parent;
    lemma_update_existing(viewports, builders, outputs, outputs.len());
    lemma_update_each(viewports, builders, outputs, outputs.len());
    assert(fresh.contains(outputs[j]));
    let k = choose|k: int| 0 <= k < fresh.len() && fresh[k] == outputs[j];
    let seen = add_new(updated.viewports, updated.builders, fresh, k as nat).builders;
    lemma_add_each(updated.viewports, updated.builders, fresh, k as nat);
    lemma_add_each(updated.viewports, updated.builders, fresh, fresh.len());
    assert(is_last(fresh, fresh.len(), k));
    lemma_last_counts(updated.viewports, updated.builders, fresh, fresh.len(), k);
    if exists|m: int| 0 <= m < fresh.len() && (#[trigger] fresh[m]).id_pair.this == parent {
        let m = choose|m: int| 0 <= m < fresh.len() && (#[trigger] fresh[m]).id_pair.this == parent;
        let i = choose|i: int| 0 <= i < outputs.len() && #[trigger] outputs[i] == fresh[m];
        assert(outputs[i].id_pair.this == parent);
        if m < k {
            lemma_fresh_order(viewports, builders, outputs, outputs.len(), m, k, i, j);
            assert(is_last(fresh, fresh.len(), m));
            lemma_last_counts(updated.viewports, updated.builders, fresh, k as nat, m);
            lemma_last_counts(updated.viewports, updated.builders, fresh, fresh.len(), m);
            assert(!(exists|l: int|
                j <= l < outputs.len() && (#[trigger] outputs[l]).id_pair.this == parent));
            assert(seen[parent] == after.builders[parent]);
        } else {
            if m > k {
                lemma_fresh_order(viewports, builders, outputs, outputs.len(), k, m, j, i);
            } else {
                assert(outputs[i].id_pair.this == outputs[j].id_pair.this);
            }
            assert(j <= i);
            assert(outputs[i].id_pair.this == parent);
            let l = choose|l: int|
                j <= l < outputs.len() && (#[trigger] outputs[l]).id_pair.this == parent;
            assert(outputs[l].id_pair.this == outputs[i].id_pair.this);
            assert(l == i);
            assert(!(exists|p: int| 0 <= p < k && (#[trigger] fresh[p]).id_pair.this == parent)) by {
                if exists|p: int| 0 <= p < k && (#[trigger] fresh[p]).id_pair.this == parent {
                    let p = choose|p: int|
                        0 <= p < k && (#[trigger] fresh[p]).id_pair.this == parent;
                    assert(fresh[p].id_pair.this != fresh[m].id_pair.this);
                }
            }
            assert(add_new(
                updated.viewports,
                updated.builders,
                fresh,
                k as nat,
            ).viewports.contains_key(parent) == updated.viewports.contains_key(parent));
            assert(seen.get(parent) == updated.builders.get(parent));
        }
    } else {
        assert(!(exists|p: int| 0 <= p < k && (#[trigger] fresh[p]).id_pair.this == parent));
        assert(add_new(updated.viewports, updated.builders, fresh, k as nat).viewports.contains_key(
            parent,
        ) == updated.viewports.contains_key(parent));
        assert(after.viewports.contains_key(parent) == updated.viewports.contains_key(parent));
        assert(seen.get(parent) == after.builders.get(parent));
        if !viewports.contains_key(parent) {
            assert(!(exists|l: int|
                j <= l < outputs.len() && (#[trigger] outputs[l]).id_pair.this == parent)) by {
                if exists|l: int|
                    j <= l < outputs.len() && (#[trigger] outputs[l]).id_pair.this == parent {
                    let l = choose|l: int|
                        j <= l < outputs.len() && (#[trigger] outputs[l]).id_pair.this == parent;
                    assert(fresh.contains(outputs[l]));
                    let m = choose|m: int| 0 <= m < fresh.len() && fresh[m] == outputs[l];
                    assert(fresh[m].id_pair.this == parent);
                }
            }
        }
    }
    k
}

/// What becomes of a viewport that is open when both passes begin is settled by the first pass.
proof fn lemma_open_viewport<R: GlBackend>(
    viewports: Map<ViewportId, Viewport<R>>,
    builders: Map<ViewportId, egui::ViewportBuilder>,
    outputs: Seq<ViewportOutput<R>>,
    id: ViewportId,
)
    requires
        ids_are_distinct(outputs),
        viewports.contains_key(id),
    ensures
        ({
            let updated = update_existing(viewports, builders, outputs, outputs.len());
            let after = reconciled(viewports, builders, outputs);
            &&& after.viewports.contains_key(id)
            &&& after.viewports[id] == updated.viewports[id]
            &&& after.builders.get(id) == updated.builders.get(id)
        }),
{
    let updated = update_existing(viewports, builders, outputs, outputs.len());
    let after = reconciled(viewports, builders, outputs);
    lemma_update_existing(viewports, builders, outputs, outputs.len());
    lemma_update_each(viewports, builders, outputs, outputs.len());
    lemma_add_each(updated.viewports, updated.builders, updated.fresh, updated.fresh.len());
    assert(!(exists|k: int|
        0 <= k < updated.fresh.len() && (#[trigger] updated.fresh[k]).id_pair.this == id));
    assert(updated.viewports.dom().contains(id));
    assert(after.viewports.contains_key(id) == updated.viewports.contains_key(id));
}

/// What becomes of `outputs[j]` when the viewports are brought in line with the outputs: an open
/// viewport gets the latest parent and callback and keeps its window unless it has to be opened anew,
/// and its builder is patched. A viewport that is not open starts without a window, and its builder
/// inherits the icon of its parent if it has none.
pub open spec fn is_heeded<R: GlBackend>(
    viewports: Map<ViewportId, Viewport<R>>,
    builders: Map<ViewportId, egui::ViewportBuilder>,
    outputs: Seq<ViewportOutput<R>>,
    j: int,
) -> bool {
    let after = reconciled(viewports, builders, outputs);
    let output = outputs[j];
    let id = output.id_pair.this;
    &&& after.viewports.contains_key(id)
    &&& after.builders.contains_key(id)
    &&& if viewports.contains_key(id) {
        let (builder, recreate) = patched(builders, id, output.builder);
        &&& after.viewports[id] == updated_viewport(viewports[id], output, recreate)
        &&& after.builders[id] == builder
    } else {
        &&& after.viewports[id] == new_viewport(output)
        &&& after.builders[id] == inheriting(
            output.builder,
            parent_builder(viewports, builders, outputs, j),
        )
    }
}

/// Where the ui asks for no viewport twice, each of its outputs is heeded. Viewports that the ui does
/// not ask for are not touched.
pub proof fn law_each_output_is_heeded<R: GlBackend>(
    viewports: Map<ViewportId, Viewport<R>>,
    builders: Map<ViewportId, egui::ViewportBuilder>,
    outputs: Seq<ViewportOutput<R>>,
)
    requires
        ids_are_distinct(outputs),
    ensures
        forall|j: int|
            #![trigger outputs[j]]
            0 <= j < outputs.len() ==> is_heeded(viewports, builders, outputs, j),
        forall|id: ViewportId| #[trigger]
            viewports.contains_key(id) && !(exists|j: int|
                0 <= j < outputs.len() && (#[trigger] outputs[j]).id_pair.this == id) ==> {
                let after = reconciled(viewports, builders, outputs);
                &&& after.viewports.contains_key(id) && after.viewports[id] == viewports[id]
                &&& after.builders.get(id) == builders.get(id)
            },
{
    let updated = update_existing(viewports, builders, outputs, outputs.len());
    let after = reconciled(viewports, builders, outputs);
    lemma_update_each(viewports, builders, outputs, outputs.len());
    assert forall|j: int|
        #![trigger outputs[j]]
        0 <= j < outputs.len() implies is_heeded(viewports, builders, outputs, j) by {
        let id = outputs[j].id_pair.this;
        if viewports.contains_key(id) {
            lemma_open_viewport(viewports, builders, outputs, id);
            assert(after.builders.get(id) == Some(updated.builders[id]));
        } else {
            let _ = lemma_new_builder(viewports, builders, outputs, j);
        }
    }
    assert forall|id: ViewportId| #[trigger]
        viewports.contains_key(id) && !(exists|j: int|
            0 <= j < outputs.len() && (#[trigger] outputs[j]).id_pair.this == id) implies {
        &&& after.viewports.contains_key(id) && after.viewports[id] == viewports[id]
        &&& after.builders.get(id) == builders.get(id)
    } by {
        lemma_open_viewport(viewports, builders, outputs, id);
        assert(updated.builders.contains_key(id) == builders.contains_key(id));
    }
}

/// Whether a viewport that is asked for more than once has the icon in `after` that the last of its
/// fresh outputs gives it.
pub open spec fn last_icons_count<R: GlBackend>(
    viewports: Map<ViewportId, Viewport<R>>,
    builders: Map<ViewportId, egui::ViewportBuilder>,
    outputs: Seq<ViewportOutput<R>>,
    after: Map<ViewportId, egui::ViewportBuilder>,
) -> bool {
    let updated = update_existing(viewports, builders, outputs, outputs.len());
    let fresh = updated.fresh;
    forall|k: int|
        0 <= k < fresh.len() && is_last(fresh, fresh.len(), k) ==> builder_icon(
            after[(#[trigger] fresh[k]).id_pair.this],
        ) == inherited_icon(
            fresh[k].builder,
            add_new(updated.viewports, updated.builders, fresh, k as nat).builders.get(
                fresh[k].id_pair.parent,
            ),
        )
}

/// Whether none of the first `n` outputs after the `k`th asks for the same viewport.
pub open spec fn is_last<R: GlBackend>(fresh: Seq<ViewportOutput<R>>, n: nat, k: int) -> bool {
    forall|m: int| k < m < n ==> (#[trigger] fresh[m]).id_pair.this != fresh[k].id_pair.this
}

/// The builder that an output gives to its viewport stays if no later output asks for the same.
proof fn lemma_last_counts<R: GlBackend>(
    viewports: Map<ViewportId, Viewport<R>>,
    builders: Map<ViewportId, egui::ViewportBuilder>,
    fresh: Seq<ViewportOutput<R>>,
    n: nat,
    k: int,
)
    requires
        0 <= k < n <= fresh.len(),
        is_last(fresh, n, k),
    ensures
        add_new(viewports, builders, fresh, n).builders[fresh[k].id_pair.this] == with_inherited_icon(
            add_new(viewports, builders, fresh, k as nat).builders,
            fresh[k].id_pair.parent,
            fresh[k].builder,
        ),
    decreases n,
{
    if k < n - 1 {
        assert(is_last(fresh, (n - 1) as nat, k));
        assert(fresh[n - 1].id_pair.this != fresh[k].id_pair.this);
        lemma_last_counts(viewports, builders, fresh, (n - 1) as nat, k);
    }
}

/// Whether the builder of `output`, the `k`th of the fresh ones, has its own icon or else that of the
/// parent.
spec fn inherits_icon<R: GlBackend>(updated: Progress<R>, output: ViewportOutput<R>, k: int) -> bool {
    let seen = add_new(updated.viewports, updated.builders, updated.fresh, k as nat).builders;
    builder_icon(with_inherited_icon(seen, output.id_pair.parent, output.builder))
        == inherited_icon(output.builder, seen.get(output.id_pair.parent))
}

/// No viewport gets a window or a surface when the viewports are brought in line with what the ui asks for.
proof fn lemma_windows_stay<R: GlBackend>(
    viewports: Map<ViewportId, Viewport<R>>,
    builders: Map<ViewportId, egui::ViewportBuilder>,
    outputs: Seq<ViewportOutput<R>>,
)
    requires
        forall|id: ViewportId| #[trigger]
            viewports.contains_key(id) ==> viewports[id].id_pair.this == id && builders.contains_key(
                id,
            ),
    ensures
        ({
            let after = reconciled(viewports, builders, outputs);
            forall|id: ViewportId| #[trigger]
                after.viewports.contains_key(id) ==> without_window(after.viewports[id])
                    == after.viewports[id] || viewports.contains_key(id)
                    && after.viewports[id].window == viewports[id].window
                    && after.viewports[id].gl_surface == viewports[id].gl_surface
        }),
{
    let updated = update_existing(viewports, builders, outputs, outputs.len());
    lemma_update_existing(viewports, builders, outputs, outputs.len());
    assert forall|id: ViewportId| #[trigger]
        updated.viewports.contains_key(id) implies updated.viewports[id].id_pair.this == id
        && updated.builders.contains_key(id) && viewports.contains_key(id) by {
        assert(viewports.dom().contains(id));
    }
    lemma_add_new(updated.viewports, updated.builders, updated.fresh, updated.fresh.len());
}

impl<R: GlBackend> GlutinWindowContext<R> {
    /// What holds of every context: the root viewport is there, every viewport has a builder, no
    /// window belongs to a viewport that is gone, and open windows are found.
    pub open spec fn wf(&self) -> bool {
        &&& self.viewports@.contains_key(ROOT)
        &&& forall|id: ViewportId| #[trigger]
            self.viewports@.contains_key(id) ==> self.viewports@[id].id_pair.this == id
                && self.builders@.contains_key(id)
        &&& forall|window_id: WindowId| #[trigger]
            self.viewport_maps@.contains_key(window_id) ==> self.viewports@.contains_key(
                self.viewport_maps@[window_id],
            )
        &&& forall|id: ViewportId| #[trigger]
            self.window_maps@.contains_key(id) ==> self.viewports@.contains_key(id)
        &&& self.windows_are_found()
    }

    /// Whether every window that a viewport is shown in is found by the id of the viewport, and the
    /// viewport by the id of the window.
    pub open spec fn windows_are_found(&self) -> bool {
        forall|id: ViewportId| #[trigger]
            self.viewports@.contains_key(id) ==> (self.viewports@[id].window matches Some(window) ==> {
                &&& self.window_maps@.contains_key(id) && self.window_maps@[id] == window.id
                &&& self.viewport_maps@.contains_key(window.id) && self.viewport_maps@[window.id] == id
            })
    }

    /// Whether every viewport with a surface has a window: a surface is part of a window.
    pub open spec fn surfaces_have_windows(&self) -> bool {
        have_windows(self.viewports@)
    }

    /// Whether every viewport has a surface.
    pub open spec fn is_initialized(&self) -> bool {
        forall|id: ViewportId| #[trigger]
            self.viewports@.contains_key(id) ==> self.viewports@[id].gl_surface is Some
    }

    /// Whether `window_id` is the id of a window that another viewport than `id` is shown in.
    pub open spec fn is_taken(&self, id: ViewportId, window_id: WindowId) -> bool {
        exists|other: ViewportId| #[trigger]
            self.viewports@.contains_key(other) && other != id
                && self.viewports@[other].window is Some && self.viewports@[other].window->0.id
                == window_id
    }

    /// Whether `after` paints with the same OpenGL context, in the same way.
    pub open spec fn paints_like(&self, after: &GlutinWindowContext<R>) -> bool {
        &&& after.swap_interval == self.swap_interval
        &&& after.max_texture_side == self.max_texture_side
        &&& after.current_gl_context == self.current_gl_context
        &&& after.not_current_gl_context == self.not_current_gl_context
    }

    /// Brings the viewports in line with what the ui asks for: updates those that are open, adds
    /// those that are new, and drops those that the ui did not ask for. Gives the changes to make
    /// to open windows.
    #[verifier::rlimit(40)]
    #[verifier::spinoff_prover]
    pub fn process_viewport_builders(&mut self, outputs: Vec<ViewportOutput<R>>) -> (commands: Vec<
        WindowCommands,
    >)
        requires
            old(self).wf(),
        ensures
            final(self).wf(),
            final(self).viewports@ == reconciled(
                old(self).viewports@,
                old(self).builders@,
                outputs@,
            ).viewports.restrict(active_ids(outputs@)),
            final(self).builders@ == reconciled(
                old(self).viewports@,
                old(self).builders@,
                outputs@,
            ).builders.restrict(active_ids(outputs@)),
            final(self).viewport_maps@ == restrict_values(
                old(self).viewport_maps@,
                active_ids(outputs@),
            ),
            final(self).window_maps@ == old(self).window_maps@.restrict(active_ids(outputs@)),
            old(self).paints_like(final(self)),
            forall|id: ViewportId| #[trigger]
                final(self).viewports@.contains_key(id) ==> id == ROOT || exists|j: int|
                    0 <= j < outputs@.len() && (#[trigger] outputs@[j]).id_pair.this == id,
            forall|id: ViewportId| #[trigger]
                final(self).builders@.contains_key(id) ==> final(self).viewports@.contains_key(id),
            exists|patches: Seq<Vec<egui::ViewportCommand>>|
                {
                    &&& patches.len() == outputs@.len()
                    &&& are_patches(old(self).viewports@, old(self).builders@, outputs@, patches)
                    &&& commands@ == #[trigger] commands_to_windows(
                        old(self).viewports@,
                        old(self).builders@,
                        outputs@,
                        patches,
                    )
                },
            final(self).swap_interval == old(self).swap_interval,
            final(self).max_texture_side == old(self).max_texture_side,
            final(self).current_gl_context == old(self).current_gl_context,
            final(self).not_current_gl_context == old(self).not_current_gl_context,
            old(self).surfaces_have_windows() ==> final(self).surfaces_have_windows(),
            ids_are_distinct(outputs@) ==> icons_are_inherited(
                old(self).viewports@,
                old(self).builders@,
                outputs@,
                final(self).builders@,
            ),
            last_icons_count(
                old(self).viewports@,
                old(self).builders@,
                outputs@,
                final(self).builders@,
            ),
            forall|j: int|
                0 <= j < outputs@.len() && (forall|m: int|
                    j < m < outputs@.len() ==> (#[trigger] outputs@[m]).id_pair.this
                        != outputs@[j].id_pair.this) ==> {
                    let id = (#[trigger] outputs@[j]).id_pair.this;
                    let viewport = final(self).viewports@[id];
                    &&& final(self).viewports@.contains_key(id)
                    &&& viewport.viewport_ui_cb == outputs@[j].viewport_ui_cb
                    &&& viewport.id_pair == outputs@[j].id_pair
                    &&& viewport.egui_winit == (if old(self).viewports@.contains_key(id) {
                        old(self).viewports@[id].egui_winit
                    } else {
                        None
                    })
                },
    {
        let ghost viewports = self.viewports@;
        let ghost builders = self.builders@;
        let ghost all = outputs@;
        let ghost mut patches = Seq::<Vec<egui::ViewportCommand>>::empty();
        let mut active: HashSet<ViewportId> = HashSet::new();
        active.insert(ROOT);
        let mut fresh: Vec<ViewportOutput<R>> = Vec::new();
        let mut all_commands: Vec<WindowCommands> = Vec::new();
        for output in it: outputs.into_iter()
            invariant
                it.seq() == all,
                patches.len() == it.index(),
                active@.contains(ROOT),
                forall|j: int|
                    0 <= j < it.index() && viewports.contains_key((#[trigger] all[j]).id_pair.this)
                        ==> active@.contains(all[j].id_pair.this),
                forall|id: ViewportId| #[trigger] active@.contains(id) ==> active_ids(all).contains(id),
                self.viewports@ == update_existing(viewports, builders, all, it.index() as nat).viewports,
                self.builders@ == update_existing(viewports, builders, all, it.index() as nat).builders,
                fresh@ == update_existing(viewports, builders, all, it.index() as nat).fresh,
                all_commands@ == commands_to_windows(viewports, builders, all, patches),
                are_patches(viewports, builders, all, patches),
                self.viewport_maps == old(self).viewport_maps,
                self.window_maps == old(self).window_maps,
                self.swap_interval == old(self).swap_interval,
                self.max_texture_side == old(self).max_texture_side,
                self.current_gl_context == old(self).current_gl_context,
                self.not_current_gl_context == old(self).not_current_gl_context,
        {
            let id: ViewportId = output.id_pair.this;
            proof {
                lemma_update_existing(viewports, builders, all, it.index() as nat);
                assert(all[it.index() as int].id_pair.this == id);
                assert(active_ids(all).contains(id));
            }
            let (commands, recreate) = patch_entry(&mut self.builders, id, &output.builder);
            let ghost sent = commands;
            match self.viewports.remove(&id) {
                Some(viewport) => {
                    let updated = if recreate {
                        Viewport { window: None, gl_surface: None, ..viewport }
                    } else {
                        if let Some(window) = &viewport.window {
                            all_commands.push(WindowCommands { window_id: window.id, commands });
                        }
                        viewport
                    };
                    self.viewports.insert(
                        id,
                        Viewport {
                            id_pair: ViewportIdPair {
                                this: updated.id_pair.this,
                                parent: output.id_pair.parent,
                            },
                            viewport_ui_cb: output.viewport_ui_cb,
                            ..updated
                        },
                    );
                    active.insert(id);
                },
                None => {
                    fresh.push(output);
                },
            }
            proof {
                assert(patches.push(sent).drop_last() == patches);
                patches = patches.push(sent);
            }
        }
        let ghost updated = update_existing(viewports, builders, all, all.len());
        proof {
            lemma_update_existing(viewports, builders, all, all.len());
        }
        for output in it: fresh.into_iter()
            invariant
                it.seq() == updated.fresh,
                active@.contains(ROOT),
                forall|k: int|
                    0 <= k < updated.fresh.len() ==> all.contains(#[trigger] updated.fresh[k]),
                forall|j: int|
                    0 <= j < all.len() && viewports.contains_key((#[trigger] all[j]).id_pair.this)
                        ==> active@.contains(all[j].id_pair.this),
                forall|k: int|
                    0 <= k < it.index() ==> active@.contains(
                        (#[trigger] updated.fresh[k]).id_pair.this,
                    ),
                forall|id: ViewportId| #[trigger] active@.contains(id) ==> active_ids(all).contains(id),
                self.viewports@ == add_new(
                    updated.viewports,
                    updated.builders,
                    updated.fresh,
                    it.index() as nat,
                ).viewports,
                self.builders@ == add_new(
                    updated.viewports,
                    updated.builders,
                    updated.fresh,
                    it.index() as nat,
                ).builders,
                forall|k: int|
                    0 <= k < it.index() ==> inherits_icon(updated, #[trigger] updated.fresh[k], k),
                self.viewport_maps == old(self).viewport_maps,
                self.window_maps == old(self).window_maps,
                self.swap_interval == old(self).swap_interval,
                self.max_texture_side == old(self).max_texture_side,
                self.current_gl_context == old(self).current_gl_context,
                self.not_current_gl_context == old(self).not_current_gl_context,
        {
            let id: ViewportId = output.id_pair.this;
            assert(all.contains(updated.fresh[it.index() as int]));
            assert(active_ids(all).contains(id));
            // Inherit from parent as fallback.
            let builder = inherit_icon(&self.builders, output.id_pair.parent, output.builder);
            self.viewports.insert(
                id,
                Viewport {
                    gl_surface: None,
                    window: None,
                    egui_winit: None,
                    viewport_ui_cb: output.viewport_ui_cb,
                    id_pair: output.id_pair,
                },
            );
            self.builders.insert(id, builder);
            active.insert(id);
        }
        proof {
            assert forall|id: ViewportId| active_ids(all).contains(id) implies active@.contains(id) by {
                if id != ROOT {
                    let j = choose|j: int|
                        0 <= j < all.len() && (#[trigger] all[j]).id_pair.this == id;
                    if !viewports.contains_key(id) {
                        assert(updated.fresh.contains(all[j]));
                    }
                }
            }
            assert(active@ =~= active_ids(all));
            law_viewports_are_those_asked_for(viewports, builders, all);
            lemma_windows_stay(viewports, builders, all);
        }
        let ghost reconciled_builders = self.builders@;
        retain_keys(&mut self.viewports, &active);
        retain_keys(&mut self.builders, &active);
        retain_values(&mut self.viewport_maps, &active);
        retain_keys(&mut self.window_maps, &active);
        proof {
            assert forall|j: int|
                ids_are_distinct(all) && 0 <= j < all.len() && !viewports.contains_key(
                    (#[trigger] all[j]).id_pair.this,
                ) implies builder_icon(self.builders@[all[j].id_pair.this]) == inherited_icon(
                all[j].builder,
                parent_builder(viewports, builders, all, j),
            ) by {
                let k = lemma_new_builder(viewports, builders, all, j);
                assert(inherits_icon(updated, updated.fresh[k], k));
                assert(active_ids(all).contains(all[j].id_pair.this));
                assert(self.builders@[all[j].id_pair.this]
                    == reconciled_builders[all[j].id_pair.this]);
            }
            assert forall|k: int|
                #![trigger updated.fresh[k]]
                0 <= k < updated.fresh.len() && is_last(
                    updated.fresh,
                    updated.fresh.len(),
                    k,
                ) implies builder_icon(self.builders@[updated.fresh[k].id_pair.this])
                == inherited_icon(
                updated.fresh[k].builder,
                add_new(
                    updated.viewports,
                    updated.builders,
                    updated.fresh,
                    k as nat,
                ).builders.get(updated.fresh[k].id_pair.parent),
            ) by {
                lemma_last_counts(
                    updated.viewports,
                    updated.builders,
                    updated.fresh,
                    updated.fresh.len(),
                    k,
                );
                assert(inherits_icon(updated, updated.fresh[k], k));
                assert(all.contains(updated.fresh[k]));
                assert(active_ids(all).contains(updated.fresh[k].id_pair.this));
            }
            assert forall|j: int|
                #![trigger all[j]]
                0 <= j < all.len() && (forall|m: int|
                    j < m < all.len() ==> (#[trigger] all[m]).id_pair.this != all[j].id_pair.this)
                    implies {
                let id = all[j].id_pair.this;
                &&& self.viewports@.contains_key(id)
                &&& self.viewports@[id].viewport_ui_cb == all[j].viewport_ui_cb
                &&& self.viewports@[id].id_pair == all[j].id_pair
                &&& self.viewports@[id].egui_winit == (if viewports.contains_key(id) {
                    viewports[id].egui_winit
                } else {
                    None
                })
            } by {
                law_viewports_show_the_latest_ui(viewports, builders, all, j);
            }
        }
        all_commands
    }

    /// The open window with the id `window_id`.
    pub open spec fn window_with_id(&self, window_id: WindowId) -> Option<NativeWindow<R::Window>> {
        if self.viewport_maps@.contains_key(window_id) && self.viewports@.contains_key(
            self.viewport_maps@[window_id],
        ) {
            self.viewports@[self.viewport_maps@[window_id]].window
        } else {
            None
        }
    }

    /// A context in which only the root viewport is known. `window` is its window, where the system
    /// needs one to create `gl_context`.
    pub fn new(
        window_builder: egui::ViewportBuilder,
        native_options: &NativeOptions,
        gl_context: R::NotCurrentContext,
        window: Option<NativeWindow<R::Window>>,
    ) -> (context: GlutinWindowContext<R>)
        ensures
            context.wf(),
            context.surfaces_have_windows(),
            context.swap_interval == native_options.swap_interval_of(),
            context.swap_interval == (if native_options.vsync {
                SwapInterval::Wait(1)
            } else {
                SwapInterval::DontWait
            }),
            context.max_texture_side is None,
            context.current_gl_context is None,
            context.not_current_gl_context == Some(gl_context),
            context.viewports@ == map![
                ROOT => Viewport::<R> {
                    gl_surface: None,
                    window,
                    id_pair: ViewportIdPair { this: ROOT, parent: ROOT },
                    viewport_ui_cb: None,
                    egui_winit: None,
                },
            ],
            context.builders@ == map![ROOT => window_builder],
            match window {
                Some(window) => {
                    &&& context.viewport_maps@ == map![window.id => ROOT]
                    &&& context.window_maps@ == map![ROOT => window.id]
                },
                None => {
                    &&& context.viewport_maps@ == Map::<u64, u64>::empty()
                    &&& context.window_maps@ == Map::<u64, u64>::empty()
                },
            },
    {
        let mut viewport_maps: HashMap<WindowId, ViewportId> = HashMap::new();
        let mut window_maps: HashMap<ViewportId, WindowId> = HashMap::new();
        if let Some(window) = &window {
            viewport_maps.insert(window.id, ROOT);
            window_maps.insert(ROOT, window.id);
        }
        let mut viewports: HashMap<ViewportId, Viewport<R>> = HashMap::new();
        viewports.insert(
            ROOT,
            Viewport {
                gl_surface: None,
                window,
                egui_winit: None,
                viewport_ui_cb: None,
                id_pair: ViewportIdPair::root(),
            },
        );
        let mut builders: HashMap<ViewportId, egui::ViewportBuilder> = HashMap::new();
        builders.insert(ROOT, window_builder);
        GlutinWindowContext {
            swap_interval: native_options.swap_interval(),
            max_texture_side: None,
            current_gl_context: None,
            not_current_gl_context: Some(gl_context),
            viewports,
            viewport_maps,
            window_maps,
            builders,
        }
    }

    /// The viewports that have to be initialized when the application resumes: those without a
    /// surface.
    pub fn viewports_to_init(&self) -> (ids: Vec<ViewportId>)
        ensures
            ids@.no_duplicates(),
            forall|id: ViewportId| #[trigger]
                ids@.contains(id) <==> self.viewports@.contains_key(id)
                    && self.viewports@[id].gl_surface is None,
            ids@.len() == 0 <==> self.is_initialized(),
    {
        let all = keys_of(&self.viewports);
        let mut ids: Vec<ViewportId> = Vec::new();
        for i in 0..all.len()
            invariant
                all@.no_duplicates(),
                forall|id: ViewportId| all@.contains(id) <==> self.viewports@.contains_key(id),
                ids@.no_duplicates(),
                forall|id: ViewportId| #[trigger]
                    ids@.contains(id) <==> all@.take(i as int).contains(id)
                        && self.viewports@[id].gl_surface is None,
        {
            let id: ViewportId = all[i];
            assert(all@.contains(id));
            proof {
                assert(all@.take(i + 1) == all@.take(i as int).push(id));
                assert(!all@.take(i as int).contains(id));
            }
            broadcast use vstd::seq_lib::lemma_seq_contains_after_push;
            if self.viewports.get(&id).unwrap().gl_surface.is_none() {
                assert(!ids@.contains(id));
                ids.push(id);
            }
        }
        assert(all@.take(all@.len() as int) == all@);
        proof {
            if ids@.len() > 0 {
                assert(ids@.contains(ids@[0]));
            } else {
                assert forall|id: ViewportId| #[trigger]
                    self.viewports@.contains_key(id) implies self.viewports@[id].gl_surface is Some by {
                    assert(!ids@.contains(id));
                }
            }
        }
        ids
    }

    /// Begins to initialize the viewport `id`: takes out the window that it has. Where there is none,
    /// one is to be opened with the builder of the viewport.
    pub fn begin_init_viewport(&mut self, id: ViewportId) -> (window: Option<NativeWindow<R::Window>>)
        requires
            old(self).wf(),
            old(self).viewports@.contains_key(id),
        ensures
            final(self).wf(),
            old(self).surfaces_have_windows() && old(self).viewports@[id].gl_surface is None
                ==> final(self).surfaces_have_windows(),
            window == old(self).viewports@[id].window,
            *final(self) == (GlutinWindowContext { viewports: final(self).viewports, ..*old(self) }),
            final(self).viewports@ == old(self).viewports@.insert(
                id,
                Viewport { window: None, ..old(self).viewports@[id] },
            ),
    {
        let mut viewport = self.viewports.remove(&id).unwrap();
        let window = viewport.window.take();
        self.viewports.insert(id, viewport);
        assert(self.viewports@ =~= old(self).viewports@.insert(id, viewport));
        window
    }

    /// The OpenGL context that is made current on another surface.
    pub open spec fn gl_context_to_take(&self) -> GlContext<R> {
        match self.not_current_gl_context {
            Some(not_current) => GlContext::NotCurrent(not_current),
            None => GlContext::Current(self.current_gl_context->0),
        }
    }

    /// Takes out the OpenGL context, to make it current on another surface. One that is current has
    /// to be made not current first.
    pub fn take_gl_context(&mut self) -> (gl_context: GlContext<R>)
        requires
            old(self).not_current_gl_context is Some || old(self).current_gl_context is Some,
        ensures
            gl_context == old(self).gl_context_to_take(),
            match old(self).not_current_gl_context {
                Some(not_current) => {
                    &&& gl_context == GlContext::<R>::NotCurrent(not_current)
                    &&& *final(self) == (GlutinWindowContext {
                        not_current_gl_context: None,
                        ..*old(self)
                    })
                },
                None => {
                    &&& gl_context == GlContext::<R>::Current(old(self).current_gl_context->0)
                    &&& *final(self) == (GlutinWindowContext {
                        current_gl_context: None,
                        ..*old(self)
                    })
                },
            },
    {
        match self.not_current_gl_context.take() {
            Some(not_current) => GlContext::NotCurrent(not_current),
            None => GlContext::Current(self.current_gl_context.take().unwrap()),
        }
    }

    /// Whether the viewport `id` has no input state yet.
    pub fn needs_input_state(&self, id: ViewportId) -> (needs: bool)
        requires
            self.viewports@.contains_key(id),
        ensures
            needs == (self.viewports@[id].egui_winit is None),
    {
        self.viewports.get(&id).unwrap().egui_winit.is_none()
    }

    /// Completes the initialization of the viewport `id`, which is shown in `window` from now on and
    /// painted on `gl_surface`, on which `gl_context` is current. An input state that the viewport
    /// has already stays; else it gets `input_state`. No two open windows have the same id.
    pub fn finish_init_viewport(
        &mut self,
        id: ViewportId,
        window: NativeWindow<R::Window>,
        gl_surface: R::Surface,
        gl_context: R::CurrentContext,
        input_state: Option<R::InputState>,
    )
        requires
            old(self).wf(),
            old(self).viewports@.contains_key(id),
            old(self).viewports@[id].egui_winit is None ==> input_state is Some,
            !old(self).is_taken(id, window.id),
        ensures
            final(self).wf(),
            have_windows(old(self).viewports@.remove(id)) ==> final(self).surfaces_have_windows(),
            final(self).viewports@ == old(self).viewports@.insert(
                id,
                initialized(
                    old(self).viewports@[id],
                    Initialization { id, window, gl_surface, input_state },
                ),
            ),
            final(self).viewport_maps@ == old(self).viewport_maps@.insert(window.id, id),
            final(self).window_maps@ == old(self).window_maps@.insert(id, window.id),
            final(self).current_gl_context == Some(gl_context),
            final(self).not_current_gl_context == old(self).not_current_gl_context,
            final(self).builders == old(self).builders,
            final(self).swap_interval == old(self).swap_interval,
            final(self).max_texture_side == old(self).max_texture_side,
            final(self).window_with_id(window.id) == Some(window),
    {
        let ghost before = self.viewports@;
        let mut viewport = self.viewports.remove(&id).unwrap();
        if viewport.egui_winit.is_none() {
            viewport.egui_winit = input_state;
        }
        viewport.gl_surface = Some(gl_surface);
        self.current_gl_context = Some(gl_context);
        self.viewport_maps.insert(window.id, id);
        self.window_maps.insert(id, window.id);
        viewport.window = Some(window);
        self.viewports.insert(id, viewport);
        assert(self.viewports@ =~= before.insert(id, viewport));
        assert forall|other: ViewportId| #[trigger]
            self.viewports@.contains_key(other) && self.viewports@[other].gl_surface is Some
                && have_windows(before.remove(id)) implies self.viewports@[other].window is Some by {
            if other != id {
                assert(before.remove(id).contains_key(other));
            }
        }
    }

    /// Begins to suspend the application: drops all windows and surfaces, and takes out the context
    /// if it is current, to make it not current. On a second suspend in a row there is none.
    pub fn begin_suspend(&mut self) -> (gl_context: Option<R::CurrentContext>)
        requires
            old(self).wf(),
        ensures
            final(self).wf(),
            final(self).surfaces_have_windows(),
            gl_context == old(self).current_gl_context,
            final(self).viewports@ == old(self).viewports@.map_values(
                |viewport: Viewport<R>| without_window(viewport),
            ),
            *final(self) == (GlutinWindowContext {
                viewports: final(self).viewports,
                current_gl_context: None,
                ..*old(self)
            }),
    {
        let ghost before = self.viewports@;
        let ids = keys_of(&self.viewports);
        let ghost mut done = Set::<u64>::empty();
        for i in 0..ids.len()
            invariant
                ids@.no_duplicates(),
                forall|id: ViewportId| ids@.contains(id) <==> before.contains_key(id),
                forall|j: int| 0 <= j < i ==> done.contains(#[trigger] ids@[j]),
                forall|j: int| i <= j < ids@.len() ==> !done.contains(#[trigger] ids@[j]),
                self.viewports@.dom() == before.dom(),
                forall|id: ViewportId| #[trigger]
                    before.contains_key(id) ==> self.viewports@[id] == (if done.contains(id) {
                        without_window(before[id])
                    } else {
                        before[id]
                    }),
                *self == (GlutinWindowContext { viewports: self.viewports, ..*old(self) }),
        {
            let id: ViewportId = ids[i];
            assert(ids@.contains(id));
            let mut viewport = self.viewports.remove(&id).unwrap();
            viewport.gl_surface = None;
            viewport.window = None;
            self.viewports.insert(id, viewport);
            proof {
                done = done.insert(id);
            }
            assert(self.viewports@.dom() =~= before.dom());
        }
        proof {
            assert forall|id: ViewportId| before.contains_key(id) implies done.contains(id) by {
                assert(ids@.contains(id));
            }
        }
        assert(self.viewports@ =~= before.map_values(
            |viewport: Viewport<R>| without_window(viewport),
        ));
        self.current_gl_context.take()
    }

    /// Completes the suspension: the context is not current any more.
    pub fn finish_suspend(&mut self, gl_context: R::NotCurrentContext)
        ensures
            *final(self) == (GlutinWindowContext {
                not_current_gl_context: Some(gl_context),
                ..*old(self)
            }),
    {
        self.not_current_gl_context = Some(gl_context);
    }

    /// The viewport `viewport_id`.
    pub fn viewport(&self, viewport_id: ViewportId) -> (viewport: &Viewport<R>)
        requires
            self.viewports@.contains_key(viewport_id),
        ensures
            *viewport == self.viewports@[viewport_id],
    {
        self.viewports.get(&viewport_id).unwrap()
    }

    /// The viewport `viewport_id`, to change it.
    pub fn viewport_mut(&mut self, viewport_id: ViewportId) -> (viewport: &mut Viewport<R>)
        requires
            old(self).viewports@.contains_key(viewport_id),
        ensures
            *viewport == old(self).viewports@[viewport_id],
            final(self).viewports@ == old(self).viewports@.insert(viewport_id, *final(viewport)),
            *final(self) == (GlutinWindowContext { viewports: final(self).viewports, ..*old(self) }),
            old(self).wf() && final(viewport).id_pair.this == viewport_id
                && (final(viewport).window is None || final(viewport).window == old(
                self,
            ).viewports@[viewport_id].window) ==> final(self).wf(),
    {
        match self.viewports.entry(viewport_id) {
            Entry::Occupied(entry) => entry.into_mut(),
            Entry::Vacant(_) => vstd::pervasive::unreached(),
        }
    }

    /// The window that the viewport `viewport_id` is shown in.
    pub fn window(&self, viewport_id: ViewportId) -> (window: &NativeWindow<R::Window>)
        requires
            self.viewports@.contains_key(viewport_id),
            self.viewports@[viewport_id].window is Some,
        ensures
            Some(*window) == self.viewports@[viewport_id].window,
    {
        self.viewport(viewport_id).window.as_ref().unwrap()
    }

    /// The context to make current on the surface of the viewport `viewport_id`, if that has one.
    pub open spec fn context_for(&self, viewport_id: ViewportId) -> Option<R::CurrentContext> {
        if self.viewports@.contains_key(viewport_id) && self.viewports@[viewport_id].gl_surface is Some {
            self.current_gl_context
        } else {
            None
        }
    }

    /// What resizing the viewport `viewport_id` to `physical_size` takes.
    pub open spec fn resize_of(&self, viewport_id: ViewportId, physical_size: PhysicalSize) -> Option<
        (R::CurrentContext, PhysicalSize),
    > {
        match self.context_for(viewport_id) {
            Some(gl_context) => Some((gl_context, surface_size_of(physical_size))),
            None => None,
        }
    }

    /// Takes out the current context to make it current on the surface of the viewport
    /// `viewport_id`, if that has a surface.
    pub fn take_context_for(&mut self, viewport_id: ViewportId) -> (gl_context: Option<
        R::CurrentContext,
    >)
        requires
            old(self).viewports@.contains_key(viewport_id) && old(
                self,
            ).viewports@[viewport_id].gl_surface is Some ==> old(self).current_gl_context is Some,
        ensures
            gl_context == old(self).context_for(viewport_id),
            if old(self).viewports@.contains_key(viewport_id) && old(
                self,
            ).viewports@[viewport_id].gl_surface is Some {
                &&& gl_context == old(self).current_gl_context
                &&& *final(self) == (GlutinWindowContext { current_gl_context: None, ..*old(self) })
            } else {
                gl_context is None && *final(self) == *old(self)
            },
    {
        match self.viewports.get(&viewport_id) {
            Some(viewport) => if viewport.gl_surface.is_some() {
                self.current_gl_context.take()
            } else {
                None
            },
            None => None,
        }
    }

    /// Puts back the context once it has been made current on a surface.
    pub fn put_context(&mut self, gl_context: R::CurrentContext)
        ensures
            *final(self) == (GlutinWindowContext {
                current_gl_context: Some(gl_context),
                ..*old(self)
            }),
    {
        self.current_gl_context = Some(gl_context);
    }

    /// Resizes the viewport `viewport_id` to `physical_size`: if it has a surface, the context to
    /// make current on it, and the size that it gets.
    pub fn resize(&mut self, viewport_id: ViewportId, physical_size: PhysicalSize) -> (resize: Option<
        (R::CurrentContext, PhysicalSize),
    >)
        requires
            old(self).viewports@.contains_key(viewport_id) && old(
                self,
            ).viewports@[viewport_id].gl_surface is Some ==> old(self).current_gl_context is Some,
        ensures
            resize == old(self).resize_of(viewport_id, physical_size),
            if old(self).viewports@.contains_key(viewport_id) && old(
                self,
            ).viewports@[viewport_id].gl_surface is Some {
                &&& resize == Some(
                    (old(self).current_gl_context->0, surface_size_of(physical_size)),
                )
                &&& *final(self) == (GlutinWindowContext { current_gl_context: None, ..*old(self) })
            } else {
                resize is None && *final(self) == *old(self)
            },
    {
        match self.take_context_for(viewport_id) {
            Some(gl_context) => Some((gl_context, surface_size(physical_size))),
            None => None,
        }
    }

    /// The viewports when there is one for `id_pair`, which its parent paints right now.
    pub open spec fn viewports_with(&self, id_pair: ViewportIdPair) -> Map<ViewportId, Viewport<R>> {
        if self.viewports@.contains_key(id_pair.this) {
            self.viewports@
        } else {
            self.viewports@.insert(
                id_pair.this,
                Viewport {
                    gl_surface: None,
                    window: None,
                    id_pair,
                    viewport_ui_cb: None,
                    egui_winit: None,
                },
            )
        }
    }

    /// The builders when there is a viewport for `id_pair`, which is asked for with `viewport_builder`.
    pub open spec fn builders_with(
        &self,
        viewport_builder: egui::ViewportBuilder,
        id_pair: ViewportIdPair,
    ) -> Map<ViewportId, egui::ViewportBuilder> {
        if self.viewports@.contains_key(id_pair.this) || self.builders@.contains_key(id_pair.this) {
            self.builders@
        } else {
            self.builders@.insert(
                id_pair.this,
                with_inherited_icon(self.builders@, id_pair.parent, viewport_builder),
            )
        }
    }

    /// Makes sure that there is a viewport for `id_pair`, which its parent paints right now. Says
    /// whether it is new and has to be initialized.
    pub fn ensure_immediate_viewport(
        &mut self,
        viewport_builder: egui::ViewportBuilder,
        id_pair: ViewportIdPair,
    ) -> (is_new: bool)
        requires
            old(self).wf(),
        ensures
            final(self).wf(),
            old(self).surfaces_have_windows() ==> final(self).surfaces_have_windows(),
            is_new == !old(self).viewports@.contains_key(id_pair.this),
            final(self).viewports@ == old(self).viewports_with(id_pair),
            final(self).builders@ == old(self).builders_with(viewport_builder, id_pair),
            if is_new {
                &&& final(self).viewports@ == old(self).viewports@.insert(
                    id_pair.this,
                    Viewport::<R> {
                        gl_surface: None,
                        window: None,
                        id_pair,
                        viewport_ui_cb: None,
                        egui_winit: None,
                    },
                )
                &&& final(self).builders@ == (if old(self).builders@.contains_key(id_pair.this) {
                    old(self).builders@
                } else {
                    old(self).builders@.insert(
                        id_pair.this,
                        with_inherited_icon(
                            old(self).builders@,
                            id_pair.parent,
                            viewport_builder,
                        ),
                    )
                })
                &&& !old(self).builders@.contains_key(id_pair.this) ==> builder_icon(
                    final(self).builders@[id_pair.this],
                ) == inherited_icon(viewport_builder, old(self).builders@.get(id_pair.parent))
                &&& *final(self) == (GlutinWindowContext {
                    viewports: final(self).viewports,
                    builders: final(self).builders,
                    ..*old(self)
                })
            } else {
                *final(self) == *old(self)
            },
    {
        if self.viewports.contains_key(&id_pair.this) {
            return false;
        }
        self.viewports.insert(id_pair.this, Viewport::new(id_pair));
        if !self.builders.contains_key(&id_pair.this) {
            let builder = inherit_icon(&self.builders, id_pair.parent, viewport_builder);
            self.builders.insert(id_pair.this, builder);
        }
        true
    }

    /// Whether the viewport `id` can be shown: it is there and has a window and an input state.
    pub open spec fn can_show(&self, id: ViewportId) -> bool {
        &&& self.viewports@.contains_key(id)
        &&& self.viewports@[id].window is Some
        &&& self.viewports@[id].egui_winit is Some
    }

    /// Whether the viewport `id` can be shown. A viewport that cannot is skipped.
    pub fn is_ready(&self, id: ViewportId) -> (ready: bool)
        ensures
            ready == self.can_show(id),
    {
        match self.viewports.get(&id) {
            Some(viewport) => viewport.window.is_some() && viewport.egui_winit.is_some(),
            None => false,
        }
    }
}

/// Initializing viewports gives each of them a window and a surface, leaves the others alone, and
/// neither adds nor drops a viewport.
proof fn lemma_all_initialized<R: GlBackend>(
    viewports: Map<ViewportId, Viewport<R>>,
    all: Seq<Initialization<R>>,
)
    requires
        forall|i: int| 0 <= i < all.len() ==> viewports.contains_key((#[trigger] all[i]).id),
    ensures
        ({
            let after = all_initialized(viewports, all);
            &&& after.dom() == viewports.dom()
            &&& forall|id: ViewportId| #[trigger]
                viewports.contains_key(id) ==> {
                    &&& after[id].id_pair == viewports[id].id_pair
                    &&& after[id].viewport_ui_cb == viewports[id].viewport_ui_cb
                    &&& viewports[id].egui_winit is Some ==> after[id].egui_winit
                        == viewports[id].egui_winit
                    &&& if exists|i: int| 0 <= i < all.len() && (#[trigger] all[i]).id == id {
                        after[id].window is Some && after[id].gl_surface is Some
                    } else {
                        after[id] == viewports[id]
                    }
                }
        }),
    decreases all.len(),
{
    if all.len() > 0 {
        let rest = all.drop_last();
        assert forall|i: int| 0 <= i < rest.len() implies viewports.contains_key(
            (#[trigger] rest[i]).id,
        ) by {
            assert(all[i].id == rest[i].id);
        }
        lemma_all_initialized(viewports, rest);
        let before = all_initialized(viewports, rest);
        let after = all_initialized(viewports, all);
        assert(viewports.contains_key(all[all.len() - 1].id));
        assert(before.dom().contains(all.last().id));
        assert(after.dom() =~= viewports.dom());
        assert forall|id: ViewportId| #[trigger] viewports.contains_key(id) && id
            != all.last().id implies (exists|i: int|
            0 <= i < all.len() && (#[trigger] all[i]).id == id) == (exists|i: int|
            0 <= i < rest.len() && (#[trigger] rest[i]).id == id) by {
            if exists|i: int| 0 <= i < all.len() && (#[trigger] all[i]).id == id {
                let i = choose|i: int| 0 <= i < all.len() && (#[trigger] all[i]).id == id;
                assert(rest[i].id == id);
            }
            if exists|i: int| 0 <= i < rest.len() && (#[trigger] rest[i]).id == id {
                let i = choose|i: int| 0 <= i < rest.len() && (#[trigger] rest[i]).id == id;
                assert(all[i].id == id);
            }
        }
        assert(all[all.len() - 1].id == all.last().id);
    }
}

/// When the viewports without a surface have been initialized, every viewport has a window and a
/// surface, so that nothing is left to initialize. Viewports that had a surface keep it and their
/// window. Of the others, nothing else is changed, apart from an input state for those without one.
pub proof fn law_resuming_restores_every_viewport<R: GlBackend>(
    viewports: Map<ViewportId, Viewport<R>>,
    all: Seq<Initialization<R>>,
)
    requires
        have_windows(viewports),
        forall|i: int|
            0 <= i < all.len() ==> viewports.contains_key((#[trigger] all[i]).id)
                && viewports[all[i].id].gl_surface is None,
        forall|id: ViewportId| #[trigger]
            viewports.contains_key(id) && viewports[id].gl_surface is None ==> exists|i: int|
                0 <= i < all.len() && (#[trigger] all[i]).id == id,
    ensures
        ({
            let after = all_initialized(viewports, all);
            &&& after.dom() == viewports.dom()
            &&& have_windows(after)
            &&& forall|id: ViewportId| #[trigger]
                viewports.contains_key(id) ==> {
                    &&& after[id].window is Some && after[id].gl_surface is Some
                    &&& viewports[id].gl_surface is Some ==> after[id] == viewports[id]
                    &&& after[id].id_pair == viewports[id].id_pair
                    &&& after[id].viewport_ui_cb == viewports[id].viewport_ui_cb
                    &&& viewports[id].egui_winit is Some ==> after[id].egui_winit
                        == viewports[id].egui_winit
                }
        }),
{
    lemma_all_initialized(viewports, all);
    let after = all_initialized(viewports, all);
    assert forall|id: ViewportId| #[trigger] viewports.contains_key(id) implies after[id].window
        is Some && after[id].gl_surface is Some && (viewports[id].gl_surface is Some ==> after[id]
        == viewports[id]) by {
        if viewports[id].gl_surface is Some {
            assert(!(exists|i: int| 0 <= i < all.len() && (#[trigger] all[i]).id == id));
        }
    }
    assert forall|id: ViewportId| #[trigger] after.contains_key(id) && after[id].gl_surface
        is Some implies after[id].window is Some by {
        assert(viewports.dom().contains(id));
    }
}

/// When an application has been suspended, no viewport has a window or a surface, so that all of them
/// are initialized again when it resumes. Nothing else is lost.
pub proof fn law_suspended_viewports_start_over<R: GlBackend>(
    viewports: Map<ViewportId, Viewport<R>>,
    id: ViewportId,
)
    requires
        viewports.contains_key(id),
    ensures
        ({
            let suspended = viewports.map_values(|viewport: Viewport<R>| without_window(viewport));
            &&& suspended.dom() == viewports.dom()
            &&& have_windows(suspended)
            &&& suspended[id].window is None && suspended[id].gl_surface is None
            &&& suspended[id].id_pair == viewports[id].id_pair
            &&& suspended[id].viewport_ui_cb == viewports[id].viewport_ui_cb
            &&& suspended[id].egui_winit == viewports[id].egui_winit
        }),
{
}

/// The last output that asks for a fresh viewport is among the fresh ones, and none after it asks for the
/// same.
proof fn lemma_last_fresh<R: GlBackend>(
    viewports: Map<ViewportId, Viewport<R>>,
    builders: Map<ViewportId, egui::ViewportBuilder>,
    outputs: Seq<ViewportOutput<R>>,
    n: nat,
    j: int,
) -> (k: int)
    requires
        0 <= j < n <= outputs.len(),
        is_last(outputs, n, j),
        !viewports.contains_key(outputs[j].id_pair.this),
    ensures
        ({
            let fresh = update_existing(viewports, builders, outputs, n).fresh;
            0 <= k < fresh.len() && fresh[k] == outputs[j] && is_last(fresh, fresh.len(), k)
        }),
    decreases n,
{
    let before = update_existing(viewports, builders, outputs, (n - 1) as nat);
    let after = update_existing(viewports, builders, outputs, n);
    lemma_update_existing(viewports, builders, outputs, (n - 1) as nat);
    assert(before.viewports.dom().contains(outputs[n - 1].id_pair.this) == viewports.dom().contains(
        outputs[n - 1].id_pair.this,
    ));
    if j == n - 1 {
        before.fresh.len() as int
    } else {
        assert(is_last(outputs, (n - 1) as nat, j));
        let k = lemma_last_fresh(viewports, builders, outputs, (n - 1) as nat, j);
        assert(outputs[n - 1].id_pair.this != outputs[j].id_pair.this);
        assert forall|m: int| k < m < after.fresh.len() implies (
        #[trigger] after.fresh[m]).id_pair.this != after.fresh[k].id_pair.this by {
            if m < before.fresh.len() {
                assert(after.fresh[m] == before.fresh[m]);
            }
        }
        k
    }
}

/// An open viewport has the callback and the parent of the last output that asks for it.
proof fn lemma_last_update<R: GlBackend>(
    viewports: Map<ViewportId, Viewport<R>>,
    builders: Map<ViewportId, egui::ViewportBuilder>,
    outputs: Seq<ViewportOutput<R>>,
    n: nat,
    j: int,
)
    requires
        0 <= j < n <= outputs.len(),
        is_last(outputs, n, j),
        viewports.contains_key(outputs[j].id_pair.this),
    ensures
        ({
            let id = outputs[j].id_pair.this;
            let after = update_existing(viewports, builders, outputs, n).viewports[id];
            &&& after.viewport_ui_cb == outputs[j].viewport_ui_cb
            &&& after.id_pair.parent == outputs[j].id_pair.parent
        }),
    decreases n,
{
    lemma_update_existing(viewports, builders, outputs, (n - 1) as nat);
    let before = update_existing(viewports, builders, outputs, (n - 1) as nat);
    assert(before.viewports.dom().contains(outputs[j].id_pair.this));
    if j < n - 1 {
        assert(is_last(outputs, (n - 1) as nat, j));
        assert(outputs[n - 1].id_pair.this != outputs[j].id_pair.this);
        lemma_last_update(viewports, builders, outputs, (n - 1) as nat, j);
    }
}

/// The first pass never touches the input state of an open viewport.
proof fn lemma_input_states_stay<R: GlBackend>(
    viewports: Map<ViewportId, Viewport<R>>,
    builders: Map<ViewportId, egui::ViewportBuilder>,
    outputs: Seq<ViewportOutput<R>>,
    n: nat,
    id: ViewportId,
)
    requires
        n <= outputs.len(),
        viewports.contains_key(id),
    ensures
        update_existing(viewports, builders, outputs, n).viewports[id].egui_winit
            == viewports[id].egui_winit,
    decreases n,
{
    if n > 0 {
        lemma_update_existing(viewports, builders, outputs, (n - 1) as nat);
        lemma_input_states_stay(viewports, builders, outputs, (n - 1) as nat, id);
        assert(update_existing(viewports, builders, outputs, (n - 1) as nat).viewports.dom().contains(
            id,
        ));
    }
}

/// The second pass touches no viewport that none of the fresh outputs asks for.
proof fn lemma_others_stay<R: GlBackend>(
    viewports: Map<ViewportId, Viewport<R>>,
    builders: Map<ViewportId, egui::ViewportBuilder>,
    fresh: Seq<ViewportOutput<R>>,
    n: nat,
    id: ViewportId,
)
    requires
        n <= fresh.len(),
        forall|k: int| 0 <= k < n ==> (#[trigger] fresh[k]).id_pair.this != id,
    ensures
        ({
            let after = add_new(viewports, builders, fresh, n);
            &&& after.viewports.get(id) == viewports.get(id)
            &&& after.builders.get(id) == builders.get(id)
        }),
    decreases n,
{
    if n > 0 {
        lemma_others_stay(viewports, builders, fresh, (n - 1) as nat, id);
        assert(fresh[n - 1].id_pair.this != id);
    }
}

/// A new viewport is the one that the last fresh output gives.
proof fn lemma_last_added<R: GlBackend>(
    viewports: Map<ViewportId, Viewport<R>>,
    builders: Map<ViewportId, egui::ViewportBuilder>,
    fresh: Seq<ViewportOutput<R>>,
    n: nat,
    k: int,
)
    requires
        0 <= k < n <= fresh.len(),
        is_last(fresh, n, k),
    ensures
        ({
            let after = add_new(viewports, builders, fresh, n);
            let viewport = after.viewports[fresh[k].id_pair.this];
            &&& after.viewports.contains_key(fresh[k].id_pair.this)
            &&& viewport.id_pair == fresh[k].id_pair
            &&& viewport.viewport_ui_cb == fresh[k].viewport_ui_cb
            &&& viewport.window is None
            &&& viewport.gl_surface is None
            &&& viewport.egui_winit is None
        }),
    decreases n,
{
    if k < n - 1 {
        assert(is_last(fresh, (n - 1) as nat, k));
        assert(fresh[n - 1].id_pair.this != fresh[k].id_pair.this);
        lemma_last_added(viewports, builders, fresh, (n - 1) as nat, k);
    }
}

/// When a frame ends, every viewport that the ui asks for has the callback that shows its latest ui, and
/// the parent that it was asked for with: those of the last output that asks for it. One that was open
/// keeps its input state. One that was not has no native resource yet.
pub proof fn law_viewports_show_the_latest_ui<R: GlBackend>(
    viewports: Map<ViewportId, Viewport<R>>,
    builders: Map<ViewportId, egui::ViewportBuilder>,
    outputs: Seq<ViewportOutput<R>>,
    j: int,
)
    requires
        forall|id: ViewportId| #[trigger]
            viewports.contains_key(id) ==> viewports[id].id_pair.this == id,
        0 <= j < outputs.len(),
        forall|m: int|
            j < m < outputs.len() ==> (#[trigger] outputs[m]).id_pair.this
                != outputs[j].id_pair.this,
    ensures
        ({
            let id = outputs[j].id_pair.this;
            let after = reconciled(viewports, builders, outputs).viewports.restrict(
                active_ids(outputs),
            );
            &&& after.contains_key(id)
            &&& after[id].viewport_ui_cb == outputs[j].viewport_ui_cb
            &&& after[id].id_pair == outputs[j].id_pair
            &&& viewports.contains_key(id) ==> after[id].egui_winit == viewports[id].egui_winit
            &&& !viewports.contains_key(id) ==> after[id].window is None && after[id].gl_surface
                is None && after[id].egui_winit is None
        }),
{
    let id = outputs[j].id_pair.this;
    let updated = update_existing(viewports, builders, outputs, outputs.len());
    let after = reconciled(viewports, builders, outputs);
    assert(is_last(outputs, outputs.len(), j));
    assert(active_ids(outputs).contains(id));
    lemma_update_existing(viewports, builders, outputs, outputs.len());
    if viewports.contains_key(id) {
        lemma_last_update(viewports, builders, outputs, outputs.len(), j);
        lemma_input_states_stay(viewports, builders, outputs, outputs.len(), id);
        lemma_fresh_are_not_open(viewports, builders, outputs, outputs.len());
        lemma_others_stay(
            updated.viewports,
            updated.builders,
            updated.fresh,
            updated.fresh.len(),
            id,
        );
        assert(updated.viewports.dom().contains(id));
        assert(after.viewports.get(id) == Some(updated.viewports[id]));
    } else {
        let k = lemma_last_fresh(viewports, builders, outputs, outputs.len(), j);
        lemma_last_added(
            updated.viewports,
            updated.builders,
            updated.fresh,
            updated.fresh.len(),
            k,
        );
    }
}

/// No fresh output asks for a viewport that is open.
proof fn lemma_fresh_are_not_open<R: GlBackend>(
    viewports: Map<ViewportId, Viewport<R>>,
    builders: Map<ViewportId, egui::ViewportBuilder>,
    outputs: Seq<ViewportOutput<R>>,
    n: nat,
)
    requires
        n <= outputs.len(),
    ensures
        ({
            let fresh = update_existing(viewports, builders, outputs, n).fresh;
            forall|k: int|
                0 <= k < fresh.len() ==> !viewports.contains_key((#[trigger] fresh[k]).id_pair.this)
        }),
    decreases n,
{
    if n > 0 {
        lemma_fresh_are_not_open(viewports, builders, outputs, (n - 1) as nat);
        lemma_update_existing(viewports, builders, outputs, (n - 1) as nat);
        let before = update_existing(viewports, builders, outputs, (n - 1) as nat);
        assert(before.viewports.dom().contains(outputs[n - 1].id_pair.this)
            == viewports.dom().contains(outputs[n - 1].id_pair.this));
    }
}

/// Where the ui asks for no viewport twice: an open viewport keeps its window and its surface exactly as
/// long as its new attributes can be given to the window, and else loses both. Its builder is what the
/// patch makes of it.
pub proof fn law_windows_are_kept_or_opened_anew<R: GlBackend>(
    viewports: Map<ViewportId, Viewport<R>>,
    builders: Map<ViewportId, egui::ViewportBuilder>,
    outputs: Seq<ViewportOutput<R>>,
    j: int,
)
    requires
        forall|a: int, b: int|
            0 <= a < b < outputs.len() ==> (#[trigger] outputs[a]).id_pair.this != (
            #[trigger] outputs[b]).id_pair.this,
        0 <= j < outputs.len(),
        viewports.contains_key(outputs[j].id_pair.this),
        builders.contains_key(outputs[j].id_pair.this),
    ensures
        ({
            let id = outputs[j].id_pair.this;
            let after = reconciled(viewports, builders, outputs);
            let patch = builder_patch(builders[id], outputs[j].builder);
            &&& after.builders.contains_key(id) && after.builders[id] == patch.0
            &&& if patch.1 {
                after.viewports[id].window is None && after.viewports[id].gl_surface is None
            } else {
                &&& after.viewports[id].window == viewports[id].window
                &&& after.viewports[id].gl_surface == viewports[id].gl_surface
            }
        }),
{
    law_each_output_is_heeded(viewports, builders, outputs);
    assert(is_heeded(viewports, builders, outputs, j));
}

/// Where the ui asks for no viewport twice: a new viewport whose builder has an icon has that builder. Any
/// other has the icon of its parent's builder, if that has one. The builder of the parent is the one that
/// it has in the end, unless the parent is new too and is asked for later.
pub proof fn law_new_builders_inherit_icons<R: GlBackend>(
    viewports: Map<ViewportId, Viewport<R>>,
    builders: Map<ViewportId, egui::ViewportBuilder>,
    outputs: Seq<ViewportOutput<R>>,
    j: int,
)
    requires
        forall|a: int, b: int|
            0 <= a < b < outputs.len() ==> (#[trigger] outputs[a]).id_pair.this != (
            #[trigger] outputs[b]).id_pair.this,
        0 <= j < outputs.len(),
        !viewports.contains_key(outputs[j].id_pair.this),
    ensures
        ({
            let output = outputs[j];
            let parent = output.id_pair.parent;
            let after = reconciled(viewports, builders, outputs).builders;
            let comes_later = !viewports.contains_key(parent) && exists|i: int|
                j <= i < outputs.len() && (#[trigger] outputs[i]).id_pair.this == parent;
            &&& after.contains_key(output.id_pair.this)
            &&& builder_icon(output.builder) is Some ==> after[output.id_pair.this]
                == output.builder
            &&& builder_icon(output.builder) is None && !comes_later ==> after[output.id_pair.this]
                == (if after.contains_key(parent) && builder_icon(after[parent]) is Some {
                builder_with_icon(output.builder, builder_icon(after[parent])->0)
            } else {
                output.builder
            })
            &&& forall|i: int|
                #![trigger outputs[i]]
                builder_icon(output.builder) is None && !viewports.contains_key(parent) && j <= i
                    < outputs.len() && outputs[i].id_pair.this == parent ==> {
                    let own = builder_patch(
                        if builders.contains_key(parent) {
                            builders[parent]
                        } else {
                            outputs[i].builder
                        },
                        outputs[i].builder,
                    ).0;
                    after[output.id_pair.this] == (match builder_icon(own) {
                        Some(icon) => builder_with_icon(output.builder, icon),
                        None => output.builder,
                    })
                }
        }),
{
    law_each_output_is_heeded(viewports, builders, outputs);
    assert(is_heeded(viewports, builders, outputs, j));
    let parent = outputs[j].id_pair.parent;
    assert forall|i: int|
        #![trigger outputs[i]]
        !viewports.contains_key(parent) && j <= i < outputs.len() && outputs[i].id_pair.this
            == parent implies parent_builder(viewports, builders, outputs, j) == Some(
        patched(builders, parent, outputs[i].builder).0,
    ) by {
        let l = choose|l: int|
            j <= l < outputs.len() && (#[trigger] outputs[l]).id_pair.this == parent;
        assert(outputs[l].id_pair.this == outputs[i].id_pair.this);
        assert(l == i);
    }
}

/// When a frame ends, a viewport is there only if it is the root or the ui asked for it, and its builder
/// only then. It is the one that the frame made. A window is listed exactly if it was and its viewport is
/// the root or was asked for, and it is listed for the same viewport.
pub proof fn law_who_stays<R: GlBackend>(
    viewports: Map<ViewportId, Viewport<R>>,
    builders: Map<ViewportId, egui::ViewportBuilder>,
    viewport_maps: Map<WindowId, ViewportId>,
    window_maps: Map<ViewportId, WindowId>,
    outputs: Seq<ViewportOutput<R>>,
    id: ViewportId,
    window_id: WindowId,
)
    ensures
        ({
            let is_asked_for = |asked: ViewportId| asked == ROOT || exists|j: int|
                0 <= j < outputs.len() && (#[trigger] outputs[j]).id_pair.this == asked;
            let made = reconciled(viewports, builders, outputs);
            let active = active_ids(outputs);
            &&& made.viewports.restrict(active).contains_key(id) <==> is_asked_for(id)
                && made.viewports.contains_key(id)
            &&& made.builders.restrict(active).contains_key(id) <==> is_asked_for(id)
                && made.builders.contains_key(id)
            &&& restrict_values(viewport_maps, active).contains_key(window_id)
                <==> viewport_maps.contains_key(window_id) && is_asked_for(viewport_maps[window_id])
            &&& restrict_values(viewport_maps, active).contains_key(window_id) ==> restrict_values(
                viewport_maps,
                active,
            )[window_id] == viewport_maps[window_id]
            &&& window_maps.restrict(active).contains_key(id) <==> window_maps.contains_key(id)
                && is_asked_for(id)
        }),
{
}

/// Where the ui asks for no viewport twice: each open window whose viewport is asked for, and that keeps
/// its window, gets the commands of its own patch, once. The windows come in the order in which the ui
/// asks for their viewports, and no other window gets any. `from` tells which output the commands of each
/// window came of.
pub proof fn law_patches_reach_their_windows<R: GlBackend>(
    viewports: Map<ViewportId, Viewport<R>>,
    builders: Map<ViewportId, egui::ViewportBuilder>,
    outputs: Seq<ViewportOutput<R>>,
    patches: Seq<Vec<egui::ViewportCommand>>,
) -> (from: Seq<int>)
    requires
        ids_are_distinct(outputs),
        patches.len() <= outputs.len(),
    ensures
        ({
            let sent = commands_to_windows(viewports, builders, outputs, patches);
            let keeps_window = |j: int|
                {
                    let id = outputs[j].id_pair.this;
                    let before = if builders.contains_key(id) {
                        builders[id]
                    } else {
                        outputs[j].builder
                    };
                    &&& viewports.contains_key(id) && viewports[id].window is Some
                    &&& !builder_patch(before, outputs[j].builder).1
                };
            &&& from.len() == sent.len()
            &&& forall|k: int, m: int| 0 <= k < m < from.len() ==> from[k] < from[m]
            &&& forall|k: int|
                0 <= k < from.len() ==> {
                    &&& 0 <= #[trigger] from[k] < patches.len()
                    &&& keeps_window(from[k])
                    &&& sent[k].window_id == viewports[outputs[from[k]].id_pair.this].window->0.id
                    &&& sent[k].commands == patches[from[k]]
                }
            &&& forall|j: int|
                #![trigger outputs[j]]
                0 <= j < patches.len() && keeps_window(j) ==> from.contains(j)
        }),
    decreases patches.len(),
{
    if patches.len() == 0 {
        Seq::empty()
    } else {
        let rest = patches.drop_last();
        let before = law_patches_reach_their_windows(viewports, builders, outputs, rest);
        let last = patches.len() - 1;
        let id = outputs[last].id_pair.this;
        let so_far = commands_to_windows(viewports, builders, outputs, rest);
        let sent = commands_to_windows(viewports, builders, outputs, patches);
        let progress = update_existing(viewports, builders, outputs, last as nat);
        lemma_update_existing(viewports, builders, outputs, last as nat);
        lemma_update_each(viewports, builders, outputs, last as nat);
        assert(!(exists|j: int| 0 <= j < last && (#[trigger] outputs[j]).id_pair.this == id));
        assert(progress.builders.contains_key(id) == builders.contains_key(id));
        assert(progress.viewports.dom().contains(id) == viewports.dom().contains(id));
        let keeps_window = viewports.contains_key(id) && viewports[id].window is Some && !patched(
            builders,
            id,
            outputs[last].builder,
        ).1;
        let from = if keeps_window {
            before.push(last)
        } else {
            before
        };
        assert forall|j: int|
            #![trigger outputs[j]]
            0 <= j < patches.len() && viewports.contains_key(outputs[j].id_pair.this)
                && viewports[outputs[j].id_pair.this].window is Some && !patched(
                builders,
                outputs[j].id_pair.this,
                outputs[j].builder,
            ).1 implies from.contains(j) by {
            if j == last {
                assert(from[from.len() - 1] == last);
            } else {
                assert(before.contains(j));
                let k = choose|k: int| 0 <= k < before.len() && before[k] == j;
                assert(from[k] == j);
            }
        }
        assert forall|k: int| 0 <= k < from.len() implies {
            &&& 0 <= #[trigger] from[k] < patches.len()
            &&& sent[k].window_id == viewports[outputs[from[k]].id_pair.this].window->0.id
            &&& sent[k].commands == patches[from[k]]
        } by {
            if k < before.len() {
                assert(from[k] == before[k]);
                assert(sent[k] == so_far[k]);
                assert(rest[before[k]] == patches[before[k]]);
            }
        }
        from
    }
}

/// No side of a surface is empty, and a side that is not empty in the window is as long in the surface.
pub proof fn law_surfaces_fit_their_windows(size: PhysicalSize)
    ensures
        ({
            let surface = surface_size_of(size);
            &&& surface.width >= 1 && surface.height >= 1
            &&& surface.width >= size.width && surface.height >= size.height
            &&& size.width >= 1 ==> surface.width <= size.width
            &&& size.height >= 1 ==> surface.height <= size.height
            &&& surface.width <= 1 || surface.width == size.width
            &&& surface.height <= 1 || surface.height == size.height
        }),
{
}

/// A viewport can be shown exactly if nothing that showing it needs is missing.
pub proof fn law_what_can_be_shown<R: GlBackend>(context: GlutinWindowContext<R>, id: ViewportId)
    ensures
        !context.can_show(id) <==> !context.viewports@.contains_key(id) || (
        context.viewports@[id].window is None || context.viewports@[id].egui_winit is None),
{
}

/// A viewport that has been initialized is shown in the window and on the surface that it was given, and
/// has an input state if it had one or was given one. One that it had stays.
pub proof fn law_initialized_viewports_are_shown<R: GlBackend>(
    viewport: Viewport<R>,
    with: Initialization<R>,
)
    ensures
        ({
            let after = initialized(viewport, with);
            &&& after.window == Some(with.window)
            &&& after.gl_surface == Some(with.gl_surface)
            &&& viewport.egui_winit is Some ==> after.egui_winit == viewport.egui_winit
            &&& viewport.egui_winit is None ==> after.egui_winit == with.input_state
            &&& after.id_pair == viewport.id_pair
            &&& after.viewport_ui_cb == viewport.viewport_ui_cb
        }),
{
}

/// The commands that came of an output are those of the patch that the output makes to the builder of its
/// viewport, where the ui asks for no viewport twice.
pub proof fn law_patches_come_of_their_outputs<R: GlBackend>(
    viewports: Map<ViewportId, Viewport<R>>,
    builders: Map<ViewportId, egui::ViewportBuilder>,
    outputs: Seq<ViewportOutput<R>>,
    patches: Seq<Vec<egui::ViewportCommand>>,
    j: int,
)
    requires
        ids_are_distinct(outputs),
        are_patches(viewports, builders, outputs, patches),
        0 <= j < patches.len() <= outputs.len(),
    ensures
        ({
            let id = outputs[j].id_pair.this;
            let before = if builders.contains_key(id) {
                builders[id]
            } else {
                outputs[j].builder
            };
            let patch = builder_patch(before, outputs[j].builder);
            patches[j]@ == patch.2 || patches[j]@ == patch.3
        }),
{
    let id = outputs[j].id_pair.this;
    let progress = update_existing(viewports, builders, outputs, j as nat);
    lemma_update_each(viewports, builders, outputs, j as nat);
    assert(!(exists|m: int| 0 <= m < j && (#[trigger] outputs[m]).id_pair.this == id));
    assert(progress.builders.contains_key(id) == builders.contains_key(id));
    assert(is_patch(progress.builders, id, outputs[j].builder, patches[j]@));
}

/// When viewports have been initialized, each is shown in the window and on the surface that it was given
/// last. An input state that it had stays. Viewports that were given nothing are as they were.
pub proof fn law_viewports_get_what_they_were_given<R: GlBackend>(
    viewports: Map<ViewportId, Viewport<R>>,
    all: Seq<Initialization<R>>,
    i: int,
    id: ViewportId,
)
    requires
        forall|k: int| 0 <= k < all.len() ==> viewports.contains_key((#[trigger] all[k]).id),
        viewports.contains_key(id),
        0 <= i < all.len() && all[i].id == id || i == -1,
        forall|k: int| i < k < all.len() ==> (#[trigger] all[k]).id != id,
    ensures
        ({
            let after = all_initialized(viewports, all);
            &&& after.contains_key(id)
            &&& i >= 0 ==> {
                &&& after[id].window == Some(all[i].window)
                &&& after[id].gl_surface == Some(all[i].gl_surface)
                &&& viewports[id].egui_winit is Some ==> after[id].egui_winit
                    == viewports[id].egui_winit
                &&& after[id].id_pair == viewports[id].id_pair
                &&& after[id].viewport_ui_cb == viewports[id].viewport_ui_cb
            }
            &&& i == -1 ==> after[id] == viewports[id]
        }),
    decreases all.len(),
{
    lemma_all_initialized(viewports, all);
    assert(viewports.dom().contains(id));
    if all.len() > 0 {
        let rest = all.drop_last();
        assert forall|k: int| 0 <= k < rest.len() implies viewports.contains_key(
            (#[trigger] rest[k]).id,
        ) by {
            assert(all[k].id == rest[k].id);
        }
        if i < all.len() - 1 {
            assert(all[all.len() - 1].id != id);
            assert forall|k: int| i < k < rest.len() implies (#[trigger] rest[k]).id != id by {
                assert(all[k].id == rest[k].id);
            }
            law_viewports_get_what_they_were_given(viewports, rest, i, id);
        }
    }
}

/// A viewport that is initialized once and had no input state has the one that it was given.
pub proof fn law_new_viewports_get_an_input_state<R: GlBackend>(
    viewports: Map<ViewportId, Viewport<R>>,
    all: Seq<Initialization<R>>,
    i: int,
)
    requires
        forall|k: int| 0 <= k < all.len() ==> viewports.contains_key((#[trigger] all[k]).id),
        0 <= i < all.len(),
        forall|k: int| 0 <= k < all.len() && k != i ==> (#[trigger] all[k]).id != all[i].id,
        viewports[all[i].id].egui_winit is None,
    ensures
        all_initialized(viewports, all)[all[i].id].egui_winit == all[i].input_state,
    decreases all.len(),
{
    let rest = all.drop_last();
    let id = all[i].id;
    assert(viewports.contains_key(id));
    assert forall|k: int| 0 <= k < rest.len() implies viewports.contains_key(
        (#[trigger] rest[k]).id,
    ) && (k != i ==> rest[k].id != id) by {
        assert(all[k].id == rest[k].id);
    }
    if i == all.len() - 1 {
        law_viewports_get_what_they_were_given(viewports, rest, -1, id);
    } else {
        assert(all[all.len() - 1].id != id);
        law_new_viewports_get_an_input_state(viewports, rest, i);
    }
}

/// A context that is not current is taken first. Only where there is none is the current one taken.
pub proof fn law_which_gl_context_is_taken<R: GlBackend>(
    context: GlutinWindowContext<R>,
    current: R::CurrentContext,
    not_current: R::NotCurrentContext,
)
    requires
        context.not_current_gl_context is Some || context.current_gl_context is Some,
    ensures
        context.gl_context_to_take() == GlContext::<R>::NotCurrent(not_current)
            <==> context.not_current_gl_context == Some(not_current),
        context.gl_context_to_take() == GlContext::<R>::Current(current)
            <==> context.not_current_gl_context is None && context.current_gl_context == Some(current),
{
}

/// A viewport is resized exactly if it is there and has a surface. The current context is made current on
/// that surface, whose size is that of the window, but for its empty sides.
pub proof fn law_who_is_resized<R: GlBackend>(
    context: GlutinWindowContext<R>,
    viewport_id: ViewportId,
    size: PhysicalSize,
)
    requires
        context.current_gl_context is Some,
    ensures
        ({
            let has_surface = context.viewports@.contains_key(viewport_id)
                && context.viewports@[viewport_id].gl_surface is Some;
            &&& context.context_for(viewport_id) is Some <==> has_surface
            &&& context.resize_of(viewport_id, size) is Some <==> has_surface
            &&& has_surface ==> context.context_for(viewport_id) == context.current_gl_context
            &&& context.resize_of(viewport_id, size) matches Some((gl_context, surface)) ==> {
                &&& Some(gl_context) == context.current_gl_context
                &&& surface.width >= 1 && surface.height >= 1
                &&& size.width >= 1 ==> surface.width == size.width
                &&& size.height >= 1 ==> surface.height == size.height
            }
        }),
{
}

/// Making sure that there is a viewport which its parent paints keeps every viewport and every builder that
/// is there. A viewport that is new has the parent that is asked for, and no ui and no native resource of
/// its own yet. A builder that is new has the icon of the builder that is asked for, or else that of the
/// parent.
pub proof fn law_immediate_viewports_are_added<R: GlBackend>(
    context: GlutinWindowContext<R>,
    viewport_builder: egui::ViewportBuilder,
    id_pair: ViewportIdPair,
    id: ViewportId,
)
    ensures
        ({
            let viewports = context.viewports_with(id_pair);
            let builders = context.builders_with(viewport_builder, id_pair);
            &&& context.viewports@.contains_key(id) ==> viewports.contains_key(id) && viewports[id]
                == context.viewports@[id]
            &&& context.builders@.contains_key(id) ==> builders.contains_key(id) && builders[id]
                == context.builders@[id]
            &&& viewports.contains_key(id) && !context.viewports@.contains_key(id) ==> id
                == id_pair.this
            &&& builders.contains_key(id) && !context.builders@.contains_key(id) ==> id
                == id_pair.this
        }),
        !context.viewports@.contains_key(id_pair.this) ==> {
            let viewports = context.viewports_with(id_pair);
            let builders = context.builders_with(viewport_builder, id_pair);
            &&& viewports.contains_key(id_pair.this) && builders.contains_key(id_pair.this)
            &&& viewports[id_pair.this].id_pair.parent == id_pair.parent
            &&& viewports[id_pair.this].id_pair.this == id_pair.this
            &&& viewports[id_pair.this].viewport_ui_cb is None
            &&& viewports[id_pair.this].window is None && viewports[id_pair.this].gl_surface is None
                && viewports[id_pair.this].egui_winit is None
            &&& !context.builders@.contains_key(id_pair.this) ==> {
                let parent = context.builders@[id_pair.parent];
                if builder_icon(viewport_builder) is None && context.builders@.contains_key(
                    id_pair.parent,
                ) && builder_icon(parent) is Some {
                    builders[id_pair.this] == builder_with_icon(
                        viewport_builder,
                        builder_icon(parent)->0,
                    )
                } else {
                    builders[id_pair.this] == viewport_builder
                }
            }
        },
        context.viewports@.contains_key(id_pair.this) ==> context.builders_with(
            viewport_builder,
            id_pair,
        ) == context.builders@,
{
}

/// What a viewport is painted with is not lost when the viewports are brought in line with what the ui asks
/// for: the context is current, or not, as it was.
pub proof fn law_frames_keep_the_gl_context<R: GlBackend>(
    context: &GlutinWindowContext<R>,
    after: &GlutinWindowContext<R>,
)
    requires
        context.paints_like(after),
    ensures
        after.current_gl_context is Some <==> context.current_gl_context is Some,
        after.current_gl_context == context.current_gl_context,
        after.not_current_gl_context == context.not_current_gl_context,
        after.max_texture_side == context.max_texture_side,
        after.swap_interval == context.swap_interval,
{
}

} // verus!
