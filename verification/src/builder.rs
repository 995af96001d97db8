//! The attributes of native windows, which `egui` keeps and compares.
//!
//! [`egui::ViewportBuilder`] is opaque here. What its functions make of a builder goes by the
//! names below; an icon is taken by its content.

use crate::event::{ViewportId, WindowId};
use std::collections::HashMap;
use std::sync::Arc;
use vstd::prelude::*;

verus! {

broadcast use vstd::std_specs::hash::group_hash_axioms;

/// `egui::ViewportBuilder`, the attributes that a native window is built with.
#[verifier::external_type_specification]
#[verifier::external_body]
pub struct ExViewportBuilder(egui::ViewportBuilder);

/// `egui::ViewportCommand`, a change to an open window.
#[verifier::external_type_specification]
#[verifier::external_body]
pub struct ExViewportCommand(egui::ViewportCommand);

/// `egui::IconData`, the pixels of a window's icon.
#[verifier::external_type_specification]
#[verifier::external_body]
pub struct ExIconData(egui::IconData);

/// What `egui::ViewportBuilder::patch` makes of the builder `old` when it is given `new`: the
/// builder that results; whether the window has to be opened anew; the commands that it gives if
/// both builders share one and the same icon in memory; and those that it gives if they do not.
pub uninterp spec fn builder_patch(
    old: egui::ViewportBuilder,
    new: egui::ViewportBuilder,
) -> (egui::ViewportBuilder, bool, Seq<egui::ViewportCommand>, Seq<egui::ViewportCommand>);

/// The icon that `builder` holds.
pub uninterp spec fn builder_icon(builder: egui::ViewportBuilder) -> Option<Arc<egui::IconData>>;

/// What `egui::ViewportBuilder::with_icon` makes of `builder` and `icon`.
pub uninterp spec fn builder_with_icon(
    builder: egui::ViewportBuilder,
    icon: Arc<egui::IconData>,
) -> egui::ViewportBuilder;

/// Calls `egui::ViewportBuilder::patch`, which brings `builder` up to date with the attributes that
/// are set in `new`, and gives the commands that do the same to an open window, and whether there
/// are changes that no command can make.
///
/// The builder that results and the flag are functions of the two builders. So are the commands, but
/// for the one that sets the icon: it is left out if both builders share one icon in memory. An icon
/// that is set in `new` is taken over, else the icon stays; and a builder is not changed by its own
/// attributes.
#[verifier::external_body]
pub(crate) fn patch_builder(
    builder: &mut egui::ViewportBuilder,
    new: egui::ViewportBuilder,
) -> (result: (Vec<egui::ViewportCommand>, bool))
    ensures
        *final(builder) == builder_patch(*old(builder), new).0,
        result.1 == builder_patch(*old(builder), new).1,
        result.0@ == builder_patch(*old(builder), new).2 || result.0@ == builder_patch(
            *old(builder),
            new,
        ).3,
        builder_icon(*final(builder)) == (if builder_icon(new) is Some {
            builder_icon(new)
        } else {
            builder_icon(*old(builder))
        }),
        *old(builder) == new ==> *final(builder) == new && !result.1,
{
    builder.patch(new)
}

/// Reads the field `icon` of an `egui::ViewportBuilder`.
#[verifier::external_body]
pub(crate) fn icon_of(builder: &egui::ViewportBuilder) -> (icon: Option<Arc<egui::IconData>>)
    ensures
        icon == builder_icon(*builder),
{
    builder.icon.clone()
}

/// Calls `egui::ViewportBuilder::with_icon`, which sets the icon and leaves the rest as it is.
#[verifier::external_body]
pub(crate) fn with_icon(
    builder: egui::ViewportBuilder,
    icon: Arc<egui::IconData>,
) -> (result: egui::ViewportBuilder)
    ensures
        result == builder_with_icon(builder, icon),
        builder_icon(result) == Some(icon),
{
    builder.with_icon(icon)
}

/// Calls `egui::ViewportBuilder::clone`, which copies every attribute.
#[verifier::external_body]
pub(crate) fn clone_builder(builder: &egui::ViewportBuilder) -> (copy: egui::ViewportBuilder)
    ensures
        copy == *builder,
{
    builder.clone()
}

/// Changes to make to an open window.
pub struct WindowCommands {
    pub window_id: WindowId,
    pub commands: Vec<egui::ViewportCommand>,
}

/// The builder of a new viewport whose parent has the builder `parent`: one without an icon has the
/// icon of its parent, if that has one.
pub open spec fn inheriting(
    builder: egui::ViewportBuilder,
    parent: Option<egui::ViewportBuilder>,
) -> egui::ViewportBuilder {
    match parent {
        Some(parent) if builder_icon(builder) is None && builder_icon(parent) is Some => {
            builder_with_icon(builder, builder_icon(parent)->0)
        },
        _ => builder,
    }
}

/// The icon of a new viewport whose parent has the builder `parent`: its own, or else that of its
/// parent.
pub open spec fn inherited_icon(
    builder: egui::ViewportBuilder,
    parent: Option<egui::ViewportBuilder>,
) -> Option<Arc<egui::IconData>> {
    match parent {
        Some(parent) if builder_icon(builder) is None => builder_icon(parent),
        _ => builder_icon(builder),
    }
}

/// The builder of a new viewport, where `builders` are those of the viewports there are.
pub open spec fn with_inherited_icon(
    builders: Map<u64, egui::ViewportBuilder>,
    parent: ViewportId,
    builder: egui::ViewportBuilder,
) -> egui::ViewportBuilder {
    inheriting(builder, builders.get(parent))
}

/// Gives the builder of a new viewport the icon of its parent, if it has none of its own.
pub fn inherit_icon(
    builders: &HashMap<u64, egui::ViewportBuilder>,
    parent: ViewportId,
    builder: egui::ViewportBuilder,
) -> (result: egui::ViewportBuilder)
    ensures
        result == with_inherited_icon(builders@, parent, builder),
        builder_icon(result) == inherited_icon(builder, builders@.get(parent)),
{
    if icon_of(&builder).is_some() {
        return builder;
    }
    match builders.get(&parent) {
        Some(parent_builder) => match icon_of(parent_builder) {
            Some(icon) => with_icon(builder, icon),
            None => builder,
        },
        None => builder,
    }
}

/// The builder that the viewport `id` has when the ui asks for `new`. A viewport without a builder
/// starts with `new`.
pub open spec fn builder_before(
    builders: Map<u64, egui::ViewportBuilder>,
    id: ViewportId,
    new: egui::ViewportBuilder,
) -> egui::ViewportBuilder {
    if builders.contains_key(id) {
        builders[id]
    } else {
        new
    }
}

/// What becomes of the builder of the viewport `id` when the ui asks for `new`: the builder that
/// results, and whether the window has to be opened anew.
pub open spec fn patched(
    builders: Map<u64, egui::ViewportBuilder>,
    id: ViewportId,
    new: egui::ViewportBuilder,
) -> (egui::ViewportBuilder, bool) {
    let patch = builder_patch(builder_before(builders, id, new), new);
    (patch.0, patch.1)
}

/// Whether `commands` bring an open window of the viewport `id` up to date when the ui asks for
/// `new`.
pub open spec fn is_patch(
    builders: Map<u64, egui::ViewportBuilder>,
    id: ViewportId,
    new: egui::ViewportBuilder,
    commands: Seq<egui::ViewportCommand>,
) -> bool {
    let patch = builder_patch(builder_before(builders, id, new), new);
    commands == patch.2 || commands == patch.3
}

/// Brings the builder of the viewport `id` up to date with what the ui asks for. Gives the
/// commands that do the same to the open window, and whether it has to be opened anew instead.
pub fn patch_entry(
    builders: &mut HashMap<u64, egui::ViewportBuilder>,
    id: ViewportId,
    new: &egui::ViewportBuilder,
) -> (result: (Vec<egui::ViewportCommand>, bool))
    ensures
        final(builders)@ == old(builders)@.insert(id, patched(old(builders)@, id, *new).0),
        result.1 == patched(old(builders)@, id, *new).1,
        is_patch(old(builders)@, id, *new, result.0@),
        old(builders)@.contains_key(id) && old(builders)@[id] != *new || !result.1,
        builder_icon(final(builders)@[id]) == (if builder_icon(*new) is Some
            || !old(builders)@.contains_key(id) {
            builder_icon(*new)
        } else {
            builder_icon(old(builders)@[id])
        }),
{
    let mut builder = match builders.remove(&id) {
        Some(builder) => builder,
        None => clone_builder(new),
    };
    let (commands, recreate) = patch_builder(&mut builder, clone_builder(new));
    let ghost before = old(builders)@;
    builders.insert(id, builder);
    assert(builders@ =~= before.insert(id, builder));
    (commands, recreate)
}

/// A builder with an icon of its own stays as it is, and so does one whose parent has none to give or
/// that has no parent. Any other gets the icon of its parent, and nothing else of it. Only the builder of
/// the parent counts.
pub proof fn law_icons_are_inherited_if_there_is_none(
    builders: Map<u64, egui::ViewportBuilder>,
    parent: ViewportId,
    builder: egui::ViewportBuilder,
)
    ensures
        ({
            let result = with_inherited_icon(builders, parent, builder);
            &&& builder_icon(builder) is Some ==> result == builder
            &&& !builders.contains_key(parent) ==> result == builder
            &&& builders.contains_key(parent) && builder_icon(builders[parent]) is None ==> result
                == builder
            &&& builders.contains_key(parent) && builder_icon(builder) is None ==> (builder_icon(
                builders[parent],
            ) matches Some(icon) ==> result == builder_with_icon(builder, icon))
        }),
        ({
            let icon = inherited_icon(builder, builders.get(parent));
            &&& builder_icon(builder) is Some ==> icon == builder_icon(builder)
            &&& builder_icon(builder) is None && !builders.contains_key(parent) ==> icon is None
            &&& builder_icon(builder) is None && builders.contains_key(parent) ==> icon
                == builder_icon(builders[parent])
        }),
{
}

/// A builder that is known is patched with what the ui asks for, and one that is not known starts from
/// it. The window is opened anew, and its commands are given, as the patch says.
pub proof fn law_builders_are_patched(
    builders: Map<u64, egui::ViewportBuilder>,
    id: ViewportId,
    new: egui::ViewportBuilder,
    commands: Seq<egui::ViewportCommand>,
)
    ensures
        ({
            let before = if builders.contains_key(id) {
                builders[id]
            } else {
                new
            };
            let patch = builder_patch(before, new);
            &&& patched(builders, id, new).0 == patch.0
            &&& patched(builders, id, new).1 == patch.1
            &&& is_patch(builders, id, new, commands) <==> commands == patch.2 || commands
                == patch.3
        }),
{
}

} // verus!
