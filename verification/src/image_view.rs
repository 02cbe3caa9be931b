//! The view of one open image, and what it tells its host.

use vstd::prelude::*;
use crate::events::{ImageItemEvent, ImageViewEvent, ItemEvent, Reaction};
use crate::ids::{EntityId, FocusId, ItemId, WorkspaceId};
use crate::paths::{file_name, file_name_of_path, join_under_root, joined_path};
use crate::persistence::PersistedRow;

verus! {

/// One pane that shows an image. Several views may share one image record;
/// each has a focus identity of its own.
#[derive(Clone, Copy, Debug, PartialEq, Eq, Structural)]
pub struct ImageView {
    /// The shared image record that the view shows.
    pub image_item: EntityId,
    /// The project that owns the record.
    pub project: EntityId,
    /// The identity by which the host routes keyboard focus to this pane.
    pub focus_handle: FocusId,
}

/// What a view reads of its image record, and of the project around it, to
/// label itself.
#[derive(Clone, Debug, PartialEq, Eq)]
pub struct ImageItem {
    /// The path of the file, relative to the tracked root that holds it.
    pub path: String,
    /// The display name of the tracked root that holds the file; `None` where
    /// the project does not know that root.
    pub root_name: Option<String>,
}

/// How the host is to draw a tab.
#[derive(Clone, Copy, Debug, PartialEq, Eq, Structural)]
pub struct TabContentParams {
    pub selected: bool,
    pub preview: bool,
}

/// The label of a tab: one line of text, in italics for a preview.
#[derive(Debug, PartialEq, Eq)]
pub struct TabLabel {
    pub text: String,
    pub italic: bool,
}

/// One segment of the breadcrumbs, without highlights, in the default font.
#[derive(Debug, PartialEq, Eq)]
pub struct BreadcrumbText {
    pub text: String,
}

/// Where the breadcrumbs of an item stand in the toolbar.
#[derive(Clone, Copy, Debug, PartialEq, Eq, Structural)]
pub enum ToolbarItemLocation {
    Hidden,
    PrimaryLeft,
    PrimaryRight,
    Secondary,
}

/// The view of an optional text.
pub open spec fn text_view(text: Option<String>) -> Option<Seq<char>> {
    match text {
        Some(t) => Some(t@),
        None => None,
    }
}

/// The title of a tab: the last component of the path, or the whole path
/// where it has none.
pub open spec fn title_text(file_name: Option<Seq<char>>, path: Seq<char>) -> Seq<char> {
    match file_name {
        Some(name) => name,
        None => path,
    }
}

/// The breadcrumb of an image: its path below its root, with the root's name
/// in front only where more than one root is visible and the root is known.
pub open spec fn breadcrumb_text(
    visible_worktrees: nat,
    path: Seq<char>,
    root_name: Option<Seq<char>>,
) -> Seq<char> {
    if visible_worktrees <= 1 {
        path
    } else {
        match root_name {
            Some(root) => joined_path(root, path),
            None => path,
        }
    }
}

/// The row that a save point writes: the item, its workspace and the
/// absolute path of the image. There is none where the workspace has no
/// identity in the store or the image has no local path.
pub open spec fn row_to_persist(
    workspace_id: Option<WorkspaceId>,
    item_id: ItemId,
    abs_path: Option<Vec<u8>>,
) -> Option<PersistedRow> {
    match (workspace_id, abs_path) {
        (Some(workspace_id), Some(image_path)) => Some(
            PersistedRow { workspace_id, item_id, image_path },
        ),
        _ => None,
    }
}

/// The title of a tab, from the path and what was found to be its last
/// component.
pub fn title_from(file_name: Option<String>, path: &str) -> (title: String)
    ensures
        title@ == title_text(text_view(file_name), path@),
{
    match file_name {
        Some(name) => name,
        None => path.to_owned(),
    }
}

/// The text of the single breadcrumb of `image`, in a project that shows
/// `visible_worktrees` tracked roots.
pub fn breadcrumbs_text_for_image(visible_worktrees: usize, image: &ImageItem) -> (text: String)
    ensures
        text@ == breadcrumb_text(visible_worktrees as nat, image.path@, text_view(image.root_name)),
{
    if visible_worktrees <= 1 {
        return image.path.clone();
    }
    match &image.root_name {
        Some(root) => join_under_root(root.as_str(), image.path.as_str()),
        None => image.path.clone(),
    }
}

impl ImageView {
    /// The name under which views of this kind are stored.
    pub open spec fn kind() -> Seq<char> {
        "ImageView"@
    }

    /// A view of `image_item` within `project`. The host hands every change
    /// that the record announces to `on_image_event`.
    pub fn new(image_item: EntityId, project: EntityId, focus_handle: FocusId) -> (view: ImageView)
        ensures
            view == (ImageView { image_item, project, focus_handle }),
    {
        ImageView { image_item, project, focus_handle }
    }

    /// What the view does on a change of its image record: where the file's
    /// place or content changed, it announces once that its title is stale and
    /// asks to be drawn again; a change that is only pending calls for nothing.
    pub fn on_image_event(&self, event: &ImageItemEvent) -> (reaction: Reaction)
        ensures
            event.invalidates_title() ==> reaction.emitted@ == seq![ImageViewEvent::TitleChanged]
                && reaction.redraw,
            !event.invalidates_title() ==> reaction.emitted@ == Seq::<ImageViewEvent>::empty()
                && !reaction.redraw,
    {
        let mut emitted: Vec<ImageViewEvent> = Vec::new();
        match event {
            ImageItemEvent::FileHandleChanged | ImageItemEvent::Reloaded => {
                emitted.push(ImageViewEvent::TitleChanged);
                assert(emitted@ =~= seq![ImageViewEvent::TitleChanged]);
                Reaction { emitted, redraw: true }
            },
            ImageItemEvent::ReloadNeeded => Reaction { emitted, redraw: false },
        }
    }

    /// What the container is to refresh on an event of the view: the tab,
    /// then the breadcrumbs.
    pub fn to_item_events(event: &ImageViewEvent) -> (events: Vec<ItemEvent>)
        ensures
            events@ == seq![ItemEvent::UpdateTab, ItemEvent::UpdateBreadcrumbs],
    {
        let mut events: Vec<ItemEvent> = Vec::new();
        match event {
            ImageViewEvent::TitleChanged => {
                events.push(ItemEvent::UpdateTab);
                events.push(ItemEvent::UpdateBreadcrumbs);
            },
        }
        assert(events@ =~= seq![ItemEvent::UpdateTab, ItemEvent::UpdateBreadcrumbs]);
        events
    }

    /// A view shows one image, and the container keeps one view of it per
    /// pane.
    pub fn is_singleton(&self) -> (single: bool)
        ensures
            single,
    {
        true
    }

    /// The label of the view's tab: the file name of the image, in italics
    /// for a preview.
    pub fn tab_content(&self, params: TabContentParams, image: &ImageItem) -> (label: TabLabel)
        ensures
            label.text@ == title_text(file_name_of_path(image.path@), image.path@),
            label.italic == params.preview,
    {
        let text = title_from(file_name(image.path.as_str()), image.path.as_str());
        TabLabel { text, italic: params.preview }
    }

    /// The icon of the view's tab: the icon that was found for the image's
    /// path, and none where the settings switch file icons off.
    pub fn tab_icon(&self, file_icons: bool, icon: Option<String>) -> (shown: Option<String>)
        ensures
            shown == if file_icons {
                icon
            } else {
                None
            },
    {
        if file_icons {
            icon
        } else {
            None
        }
    }

    /// The breadcrumbs stand at the left of the primary toolbar.
    pub fn breadcrumb_location(&self) -> (location: ToolbarItemLocation)
        ensures
            location == ToolbarItemLocation::PrimaryLeft,
    {
        ToolbarItemLocation::PrimaryLeft
    }

    /// The breadcrumbs of the view: always one segment.
    pub fn breadcrumbs(&self, visible_worktrees: usize, image: &ImageItem) -> (crumbs: Option<
        Vec<BreadcrumbText>,
    >)
        ensures
            crumbs matches Some(segments) && segments@.len() == 1 && segments@[0].text@
                == breadcrumb_text(
                visible_worktrees as nat,
                image.path@,
                text_view(image.root_name),
            ),
    {
        let text = breadcrumbs_text_for_image(visible_worktrees, image);
        let mut segments: Vec<BreadcrumbText> = Vec::new();
        segments.push(BreadcrumbText { text });
        Some(segments)
    }

    /// The view for the other half of a split pane: it shows the same image
    /// record within the same project, under the fresh focus identity that
    /// the host made for it. Nothing is read from the store.
    pub fn clone_on_split(&self, workspace_id: Option<WorkspaceId>, focus_handle: FocusId) -> (twin:
        Option<ImageView>)
        ensures
            twin == Some(
                ImageView { image_item: self.image_item, project: self.project, focus_handle },
            ),
    {
        Some(ImageView { image_item: self.image_item, project: self.project, focus_handle })
    }

    /// The name under which views of this kind are stored.
    pub fn serialized_item_kind() -> (kind: &'static str)
        ensures
            kind@ == Self::kind(),
    {
        "ImageView"
    }

    /// The row to write at a save point: the item, its workspace and the
    /// absolute path of the image. There is nothing to write where the
    /// workspace has no identity in the store or the image has no local path.
    pub fn serialize(
        &self,
        workspace_id: Option<WorkspaceId>,
        item_id: ItemId,
        closing: bool,
        abs_path: Option<Vec<u8>>,
    ) -> (row: Option<PersistedRow>)
        ensures
            row == row_to_persist(workspace_id, item_id, abs_path),
    {
        match workspace_id {
            Some(workspace_id) => match abs_path {
                Some(image_path) => Some(PersistedRow { workspace_id, item_id, image_path }),
                None => None,
            },
            None => None,
        }
    }

    /// No event of the view calls for a save: saving happens at the host's
    /// save points only.
    pub fn should_serialize(&self, event: &ImageViewEvent) -> (save: bool)
        ensures
            !save,
    {
        false
    }

    /// The focus identity of the pane.
    pub fn focus_handle(&self) -> (handle: FocusId)
        ensures
            handle == self.focus_handle,
    {
        self.focus_handle
    }
}

} // verus!
