use vstd::prelude::*;
use crate::config::{strs, Config};
use crate::fs::walker::{copy_entries, DirEntry};
use crate::git::GitContext;
use crate::navigation::Navigation;
use crate::preview::TerminalProtocol;
use crate::project::detector::DetectedCommand;

pub mod actions;
pub mod dashboard;
pub mod input;
pub mod load;
pub mod modes;
pub mod overlays;
pub mod preview_plan;
pub mod search;
pub mod state;
pub mod tabs;
pub mod tree;

verus! {

/// The order in which directory entries are listed.
#[derive(Debug, Clone, Copy, PartialEq, Eq, Structural)]
pub enum SortMode {
    SizeDesc,
    NameAsc,
    MtimeDesc,
}

/// One choice offered by a plugin's overlay.
#[derive(Debug, Clone)]
pub struct PluginOverlayItem {
    pub label: String,
    pub value: String,
}

/// Which modal dialog is open.
#[derive(Debug, Clone, Copy, PartialEq, Eq, Structural)]
pub enum ModalMode {
    NoModal,
    Bookmarks,
    Recent,
    OpenConfirmation,
    DeleteConfirmation,
    SearchOverlay,
    CommandPalette,
    SizeDetails,
    PluginOverlay,
}

/// What the search overlay searches.
#[derive(Debug, Clone, Copy, PartialEq, Eq, Structural)]
pub enum SearchOverlayMode {
    FuzzyFiles,
    LiveGrep,
}

/// One result of the search overlay.
#[derive(Debug, Clone, PartialEq, Eq)]
pub struct SearchMatch {
    pub path: String,
    pub line_number: Option<usize>,
    pub text: String,
}

/// How a file is previewed.
#[derive(Debug, Clone, Copy, PartialEq, Eq, Structural)]
pub enum PreviewType {
    Text,
    Image,
    Unsupported,
}

/// A request to render an image preview in the background.
#[derive(Debug)]
pub struct PreviewTask {
    pub path: String,
    pub query: String,
    pub width: u16,
    pub height: u16,
    pub protocol: TerminalProtocol,
}

/// One directory view with its own listing, expansion and filter.
pub struct Tab {
    pub current_path: String,
    pub navigation: Navigation,
    pub all_entries: Vec<DirEntry>,
    pub scan_applied: bool,
    pub git_ctx: Option<GitContext>,
}

/// The state that every key press changes and every frame draws.
///
/// The directory view of the active tab is held in the first fields; `tabs`
/// keeps every tab, the active one as it was last saved.
pub struct AppState {
    pub current_path: String,
    pub navigation: Navigation,
    pub all_entries: Vec<DirEntry>,
    pub scan_applied: bool,
    pub git_ctx: Option<GitContext>,
    pub search_mode: bool,
    pub tabs: Vec<Tab>,
    /// Index of the active tab.
    pub active_tab: usize,
    /// Bookmarks and recently visited directories.
    pub config: Config,
    /// The open modal dialog.
    pub modal_mode: ModalMode,
    /// Highlighted row inside the modal.
    pub modal_selected_index: usize,
    /// Typed digits that pick a modal row.
    pub modal_input: String,
    /// The message shown in the notification toast.
    pub notification: Option<String>,
    /// The directory a confirmation dialog is about to open.
    pub modal_target_path: Option<String>,
    /// The modal that was open before a confirmation dialog.
    pub modal_confirm_prev: ModalMode,
    /// Whether the confirmed directory opens in a new tab.
    pub modal_confirm_new_tab: bool,
    /// Paths marked for a batch operation, each once, in marking order.
    pub selected_paths: Vec<String>,
    /// Paths copied for pasting.
    pub yanked_files: Vec<String>,
    /// Paths cut for moving.
    pub cut_files: Vec<String>,
    /// The entry being renamed.
    pub rename_target: Option<String>,
    /// The new name being typed.
    pub rename_input: String,
    /// Whether the rename line is open.
    pub rename_mode: bool,
    /// Paths awaiting confirmation of their deletion.
    pub delete_targets: Vec<String>,
    /// Whether the help screen is open.
    pub show_help: bool,
    /// Highlighted row of the help screen.
    pub help_selected_index: usize,
    pub search_overlay_mode: SearchOverlayMode,
    pub search_overlay_input: String,
    pub search_overlay_results: Vec<SearchMatch>,
    pub search_overlay_selected_index: usize,
    pub search_overlay_cursor_index: usize,
    pub search_overlay_focused: bool,
    pub command_palette_input: String,
    pub command_palette_candidates: Vec<DetectedCommand>,
    pub command_palette_results: Vec<DetectedCommand>,
    pub command_palette_selected_index: usize,
    pub command_palette_cursor_index: usize,
    pub command_palette_focused: bool,
    /// The directory whose size details are shown.
    pub size_popup_path: Option<String>,
    pub plugin_modal_title: String,
    pub plugin_modal_items: Vec<PluginOverlayItem>,
    pub plugin_modal_filtered_items: Vec<PluginOverlayItem>,
    pub plugin_modal_input: String,
    pub plugin_modal_selected_index: usize,
}

/// A copy of an optional repository context.
pub fn copy_git(g: &Option<GitContext>) -> (r: Option<GitContext>)
    ensures
        r == *g,
{
    match g {
        Some(c) => Some(GitContext { branch: c.branch.clone(), dirty_count: c.dirty_count }),
        None => None,
    }
}

/// A copy of a list of commands.
pub fn copy_commands(v: &Vec<DetectedCommand>) -> (r: Vec<DetectedCommand>)
    ensures
        r@ == v@,
{
    let mut r: Vec<DetectedCommand> = Vec::new();
    let mut i: usize = 0;
    while i < v.len()
        invariant
            i <= v.len(),
            r@ == v@.subrange(0, i as int),
        decreases v.len() - i,
    {
        let c = &v[i];
        r.push(DetectedCommand { name: c.name.clone(), cmd: c.cmd.clone(), source: c.source.clone() });
        i = i + 1;
        assert(r@ =~= v@.subrange(0, i as int));
    }
    assert(v@.subrange(0, v.len() as int) =~= v@);
    r
}

impl AppState {
    /// The state is sound: at least one tab, the active one among them, and
    /// no path marked twice (as `Path` compares paths).
    pub open spec fn wf(&self) -> bool {
        &&& self.tabs.len() >= 1
        &&& self.active_tab < self.tabs.len()
        &&& crate::config::path_keys(strs(self.selected_paths@)).no_duplicates()
    }

    /// The state for a session opened at `root`, whose direct entries are
    /// `entries`: one tab on `root`, listed by size, with `config` recording
    /// `root` as visited, and the palette offering `candidates`.
    pub fn new(
        root: String,
        entries: Vec<DirEntry>,
        git_ctx: Option<GitContext>,
        config: Config,
        candidates: Vec<DetectedCommand>,
    ) -> (s: Self)
        ensures
            s.wf(),
            s.current_path@ == root@,
            s.all_entries@ == entries@,
            s.tabs.len() == 1,
            s.active_tab == 0,
            s.tabs[0].current_path@ == root@,
            s.tabs[0].all_entries@ == entries@,
            s.navigation.items_view() == s.tabs[0].navigation.items_view(),
            crate::sort::arranged(
                entries@,
                crate::navigation::entry_order(entries@, SortMode::SizeDesc),
                s.navigation.items_view(),
            ),
            s.navigation.cursor_view() == 0,
            s.navigation.query_view() is None,
            s.navigation.expanded_set() == Set::<Seq<char>>::empty(),
            s.git_ctx == git_ctx,
            strs(s.config.recent@) == crate::config::recorded(strs(config.recent@), root@),
            s.config.bookmarks@ == config.bookmarks@,
            s.modal_mode == ModalMode::NoModal,
            s.notification is None,
            s.selected_paths.len() == 0,
            s.yanked_files.len() == 0,
            s.cut_files.len() == 0,
            s.delete_targets.len() == 0,
            !s.search_mode && !s.rename_mode && !s.show_help,
            s.help_selected_index == 0,
            s.command_palette_candidates@ == candidates@,
            s.command_palette_results@ == candidates@,
            s.search_overlay_mode == SearchOverlayMode::FuzzyFiles,
            s.search_overlay_focused && s.command_palette_focused,
    {
        let mut config = config;
        let _ = config.record_recent(root.as_str());
        let tab_nav = Navigation::new(copy_entries(&entries), SortMode::SizeDesc);
        let nav = Navigation::new(copy_entries(&entries), SortMode::SizeDesc);
        proof {
            crate::navigation::lemma_entry_order_total(entries@, SortMode::SizeDesc);
            crate::sort::lemma_arranged_unique(
                entries@,
                crate::navigation::entry_order(entries@, SortMode::SizeDesc),
                nav.items_view(),
                tab_nav.items_view(),
            );
        }
        let tab = Tab {
            current_path: root.clone(),
            navigation: tab_nav,
            all_entries: copy_entries(&entries),
            scan_applied: false,
            git_ctx: copy_git(&git_ctx),
        };
        let results = copy_commands(&candidates);
        let mut tabs: Vec<Tab> = Vec::new();
        tabs.push(tab);
        let s = AppState {
            current_path: root,
            navigation: nav,
            all_entries: entries,
            scan_applied: false,
            git_ctx,
            search_mode: false,
            tabs,
            active_tab: 0,
            config,
            modal_mode: ModalMode::NoModal,
            modal_selected_index: 0,
            modal_input: String::new(),
            notification: None,
            modal_target_path: None,
            modal_confirm_prev: ModalMode::NoModal,
            modal_confirm_new_tab: false,
            selected_paths: Vec::new(),
            yanked_files: Vec::new(),
            cut_files: Vec::new(),
            rename_target: None,
            rename_input: String::new(),
            rename_mode: false,
            delete_targets: Vec::new(),
            show_help: false,
            help_selected_index: 0,
            search_overlay_mode: SearchOverlayMode::FuzzyFiles,
            search_overlay_input: String::new(),
            search_overlay_results: Vec::new(),
            search_overlay_selected_index: 0,
            search_overlay_cursor_index: 0,
            search_overlay_focused: true,
            command_palette_input: String::new(),
            command_palette_candidates: candidates,
            command_palette_results: results,
            command_palette_selected_index: 0,
            command_palette_cursor_index: 0,
            command_palette_focused: true,
            size_popup_path: None,
            plugin_modal_title: String::new(),
            plugin_modal_items: Vec::new(),
            plugin_modal_filtered_items: Vec::new(),
            plugin_modal_input: String::new(),
            plugin_modal_selected_index: 0,
        };
        assert(crate::config::path_keys(strs(s.selected_paths@)) =~= Seq::<Seq<char>>::empty());
        s
    }
}

} // verus!
