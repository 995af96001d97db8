use eframe_native::builder::{inherit_icon, patch_entry};
use std::collections::HashMap;
use std::sync::Arc;

fn titled(title: &str) -> egui::ViewportBuilder {
    egui::ViewportBuilder::default().with_title(title)
}

fn icon(width: u32) -> Arc<egui::IconData> {
    Arc::new(egui::IconData { rgba: Vec::new(), width, height: 1 })
}

#[test]
fn a_new_viewport_inherits_the_icon_of_its_parent() {
    let mut builders = HashMap::new();
    builders.insert(1, titled("parent").with_icon(icon(4)));
    let builder = inherit_icon(&builders, 1, titled("child"));
    assert_eq!(builder, titled("child").with_icon(icon(4)));
}

#[test]
fn an_icon_of_its_own_stays() {
    let mut builders = HashMap::new();
    builders.insert(1, titled("parent").with_icon(icon(4)));
    let builder = inherit_icon(&builders, 1, titled("child").with_icon(icon(8)));
    assert_eq!(builder, titled("child").with_icon(icon(8)));
}

#[test]
fn there_may_be_no_icon_to_inherit() {
    let mut builders = HashMap::new();
    builders.insert(1, titled("parent"));
    assert_eq!(inherit_icon(&builders, 1, titled("child")), titled("child"));
    assert_eq!(inherit_icon(&builders, 2, titled("orphan")), titled("orphan"));
}

#[test]
fn a_viewport_without_a_builder_starts_with_the_new_one() {
    let mut builders = HashMap::new();
    let (commands, recreate) = patch_entry(&mut builders, 5, &titled("new"));
    assert!(commands.is_empty());
    assert!(!recreate);
    assert_eq!(builders.get(&5), Some(&titled("new")));
}

#[test]
fn a_changed_title_is_a_command() {
    let mut builders = HashMap::new();
    builders.insert(5, titled("old").with_decorations(true));
    builders.insert(6, titled("other"));
    let (commands, recreate) = patch_entry(&mut builders, 5, &titled("new"));
    assert_eq!(commands, vec![egui::ViewportCommand::Title("new".to_owned())]);
    assert!(!recreate);
    assert_eq!(builders.get(&5), Some(&titled("new").with_decorations(true)));
    assert_eq!(builders.get(&6), Some(&titled("other")));
}

#[test]
fn some_changes_need_a_new_window() {
    let mut builders = HashMap::new();
    builders.insert(5, titled("same"));
    let new = titled("same").with_close_button(false);
    let (commands, recreate) = patch_entry(&mut builders, 5, &new);
    assert!(commands.is_empty());
    assert!(recreate);
    assert_eq!(builders.get(&5), Some(&new));
    // The same attributes again change nothing.
    let (commands, recreate) = patch_entry(&mut builders, 5, &new);
    assert!(commands.is_empty());
    assert!(!recreate);
}

#[test]
fn an_icon_that_is_set_is_taken_over() {
    let mut builders = HashMap::new();
    builders.insert(5, titled("same").with_icon(icon(4)));
    patch_entry(&mut builders, 5, &titled("same"));
    assert_eq!(builders.get(&5).unwrap().icon, Some(icon(4)));
    let (commands, _) = patch_entry(&mut builders, 5, &titled("same").with_icon(icon(8)));
    assert_eq!(builders.get(&5).unwrap().icon, Some(icon(8)));
    assert_eq!(commands, vec![egui::ViewportCommand::Icon(Some(icon(8)))]);
}
