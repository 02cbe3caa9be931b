use image_viewer::events::{ImageItemEvent, ImageViewEvent, ItemEvent, Reaction};
use image_viewer::ids::{EntityId, FocusId, WorkspaceId};
use image_viewer::image_view::{
    breadcrumbs_text_for_image, title_from, BreadcrumbText, ImageItem, ImageView,
    TabContentParams, TabLabel, ToolbarItemLocation,
};
use image_viewer::persistence::PersistedRow;

fn view() -> ImageView {
    ImageView::new(EntityId(10), EntityId(20), FocusId(30))
}

fn image(path: &str, root_name: Option<&str>) -> ImageItem {
    ImageItem {
        path: path.to_string(),
        root_name: root_name.map(|name| name.to_string()),
    }
}

#[test]
fn new_view_holds_what_it_was_given() {
    let v = view();
    assert_eq!(v.image_item, EntityId(10));
    assert_eq!(v.project, EntityId(20));
    assert_eq!(v.focus_handle, FocusId(30));
    assert_eq!(v.focus_handle(), FocusId(30));
    assert!(v.is_singleton());
}

#[test]
fn reload_needed_calls_for_nothing() {
    let reaction = view().on_image_event(&ImageItemEvent::ReloadNeeded);
    assert_eq!(reaction, Reaction { emitted: vec![], redraw: false });
}

#[test]
fn file_handle_change_announces_the_title_once() {
    let reaction = view().on_image_event(&ImageItemEvent::FileHandleChanged);
    assert_eq!(
        reaction,
        Reaction { emitted: vec![ImageViewEvent::TitleChanged], redraw: true }
    );
}

#[test]
fn reload_announces_the_title_once() {
    let reaction = view().on_image_event(&ImageItemEvent::Reloaded);
    assert_eq!(
        reaction,
        Reaction { emitted: vec![ImageViewEvent::TitleChanged], redraw: true }
    );
}

#[test]
fn title_change_refreshes_tab_and_breadcrumbs() {
    assert_eq!(
        ImageView::to_item_events(&ImageViewEvent::TitleChanged),
        vec![ItemEvent::UpdateTab, ItemEvent::UpdateBreadcrumbs]
    );
}

#[test]
fn title_change_never_calls_for_a_save() {
    assert!(!view().should_serialize(&ImageViewEvent::TitleChanged));
}

#[test]
fn tab_shows_the_file_name() {
    let label = view().tab_content(
        TabContentParams { selected: true, preview: false },
        &image("pictures/cat.png", None),
    );
    assert_eq!(label, TabLabel { text: "cat.png".to_string(), italic: false });
}

#[test]
fn tab_of_a_preview_is_italic() {
    let label = view().tab_content(
        TabContentParams { selected: false, preview: true },
        &image("cat.png", None),
    );
    assert_eq!(label, TabLabel { text: "cat.png".to_string(), italic: true });
}

#[test]
fn tab_shows_the_whole_path_where_it_has_no_file_name() {
    let label = view().tab_content(
        TabContentParams { selected: true, preview: false },
        &image("pictures/..", None),
    );
    assert_eq!(label.text, "pictures/..");
    let label = view().tab_content(
        TabContentParams { selected: true, preview: false },
        &image("", None),
    );
    assert_eq!(label.text, "");
}

#[test]
fn title_from_prefers_the_file_name() {
    assert_eq!(title_from(Some("cat.png".to_string()), "pictures/cat.png"), "cat.png");
    assert_eq!(title_from(None, "pictures/.."), "pictures/..");
}

#[test]
fn tab_icon_follows_the_setting() {
    let icon = Some("icons/file_icons/image.svg".to_string());
    assert_eq!(view().tab_icon(true, icon.clone()), icon);
    assert_eq!(view().tab_icon(false, icon), None);
    assert_eq!(view().tab_icon(true, None), None);
}

#[test]
fn breadcrumb_of_a_single_root_is_the_path() {
    let img = image("pictures/cat.png", Some("album"));
    assert_eq!(breadcrumbs_text_for_image(1, &img), "pictures/cat.png");
    assert_eq!(breadcrumbs_text_for_image(0, &img), "pictures/cat.png");
}

#[test]
fn breadcrumb_of_several_roots_starts_with_the_root_name() {
    let img = image("pictures/cat.png", Some("album"));
    let expected = format!("album{}pictures/cat.png", std::path::MAIN_SEPARATOR);
    assert_eq!(breadcrumbs_text_for_image(2, &img), expected);
    assert_eq!(breadcrumbs_text_for_image(5, &img), expected);
}

#[test]
fn breadcrumb_of_an_unknown_root_is_the_path() {
    let img = image("pictures/cat.png", None);
    assert_eq!(breadcrumbs_text_for_image(3, &img), "pictures/cat.png");
}

#[test]
fn breadcrumbs_are_one_segment() {
    let img = image("pictures/cat.png", Some("album"));
    assert_eq!(
        view().breadcrumbs(1, &img),
        Some(vec![BreadcrumbText { text: "pictures/cat.png".to_string() }])
    );
    assert_eq!(view().breadcrumb_location(), ToolbarItemLocation::PrimaryLeft);
}

#[test]
fn split_shares_record_and_project() {
    let first = view();
    let twin = first.clone_on_split(Some(WorkspaceId(1)), FocusId(31));
    assert_eq!(
        twin,
        Some(ImageView { image_item: EntityId(10), project: EntityId(20), focus_handle: FocusId(31) })
    );
    assert_eq!(first.clone_on_split(None, FocusId(32)).map(|t| t.image_item), Some(EntityId(10)));
    assert_eq!(first, view());
}

#[test]
fn twin_outlives_the_view_that_was_split() {
    let first = view();
    let twin = first.clone_on_split(None, FocusId(31));
    drop(first);
    let twin = twin.expect("a split always gives a view");
    assert_eq!(twin.image_item, EntityId(10));
    assert_eq!(
        twin.on_image_event(&ImageItemEvent::Reloaded).emitted,
        vec![ImageViewEvent::TitleChanged]
    );
}

#[test]
fn kind_is_image_view() {
    assert_eq!(ImageView::serialized_item_kind(), "ImageView");
}

#[test]
fn serialize_gives_the_row_to_write() {
    let row = view().serialize(Some(WorkspaceId(3)), 7, false, Some(b"/a/b.png".to_vec()));
    assert_eq!(
        row,
        Some(PersistedRow {
            workspace_id: WorkspaceId(3),
            item_id: 7,
            image_path: b"/a/b.png".to_vec()
        })
    );
    let closing = view().serialize(Some(WorkspaceId(3)), 7, true, Some(b"/a/b.png".to_vec()));
    assert_eq!(closing, row);
}

#[test]
fn serialize_skips_an_image_without_local_path() {
    assert_eq!(view().serialize(Some(WorkspaceId(3)), 7, false, None), None);
}

#[test]
fn serialize_skips_a_workspace_without_identity() {
    assert_eq!(view().serialize(None, 7, false, Some(b"/a".to_vec())), None);
    assert_eq!(view().serialize(None, 7, true, None), None);
}
