use vstd::prelude::*;
use crate::app::state::preview_type_of;
use crate::app::{AppState, ModalMode, PreviewType};
use crate::text::{chars_of, same_chars};

verus! {

/// What the preview pane is about: a file, the line to focus (from one),
/// and the text to highlight.
#[derive(Debug, Clone)]
pub struct PreviewTarget {
    pub path: Option<String>,
    pub line: Option<usize>,
    pub query: String,
}

/// What the preview pane needs next.
#[derive(Debug, Clone, Copy, PartialEq, Eq, Structural)]
pub enum PreviewStep {
    /// The cached preview still fits.
    Keep,
    /// Nothing to preview.
    Clear,
    /// Render the image in the background.
    Image,
    /// Highlight the text now.
    Text,
}

/// The texts of a preview target.
pub open spec fn target_view(t: PreviewTarget) -> (Option<Seq<char>>, Option<usize>, Seq<char>) {
    (
        match t.path {
            Some(p) => Some(p@),
            None => None,
        },
        t.line,
        t.query@,
    )
}

/// The preview target of a state: the highlighted result of the search
/// overlay while it is open, else the selected entry with the filter query.
pub open spec fn target_spec(s: AppState) -> (Option<Seq<char>>, Option<usize>, Seq<char>) {
    if s.modal_mode == ModalMode::SearchOverlay {
        let i = s.search_overlay_selected_index;
        if i < s.search_overlay_results.len() {
            (
                Some(s.search_overlay_results@[i as int].path@),
                s.search_overlay_results@[i as int].line_number,
                s.search_overlay_input@,
            )
        } else {
            (None, None, s.search_overlay_input@)
        }
    } else {
        (
            match s.navigation.selection_view() {
                Some(e) => Some(e.path@),
                None => None,
            },
            None,
            match s.navigation.query_view() {
                Some(q) => q,
                None => Seq::empty(),
            },
        )
    }
}

/// The texts of a cached preview's key: path, query and focused line.
pub open spec fn cached_view(c: Option<(String, String, Option<usize>)>) -> Option<(Seq<char>, Seq<char>, Option<usize>)> {
    match c {
        Some(k) => Some((k.0@, k.1@, k.2)),
        None => None,
    }
}

/// What the pane needs for the target `t`, given the key of the cached
/// preview and whether the target is a file on disk.
pub open spec fn step_spec(
    t: (Option<Seq<char>>, Option<usize>, Seq<char>),
    cached: Option<(Seq<char>, Seq<char>, Option<usize>)>,
    is_file: bool,
) -> PreviewStep {
    let fresh = match cached {
        Some(c) => t.0 == Some(c.0) && t.2 == c.1 && t.1 == c.2,
        None => false,
    };
    if fresh {
        PreviewStep::Keep
    } else {
        match t.0 {
            Some(p) => if !is_file {
                PreviewStep::Clear
            } else if preview_type_of(p) == PreviewType::Image {
                PreviewStep::Image
            } else {
                PreviewStep::Text
            },
            None => PreviewStep::Clear,
        }
    }
}

fn same_text(a: &String, b: &String) -> (r: bool)
    ensures
        r == (a@ == b@),
{
    same_chars(&chars_of(a.as_str()), &chars_of(b.as_str()))
}

impl AppState {
    /// What the preview pane is about.
    pub fn preview_target(&self) -> (t: PreviewTarget)
        ensures
            target_view(t) == target_spec(*self),
    {
        if self.modal_mode == ModalMode::SearchOverlay {
            let i = self.search_overlay_selected_index;
            if i < self.search_overlay_results.len() {
                let m = &self.search_overlay_results[i];
                PreviewTarget { path: Some(m.path.clone()), line: m.line_number, query: self.search_overlay_input.clone() }
            } else {
                PreviewTarget { path: None, line: None, query: self.search_overlay_input.clone() }
            }
        } else {
            let path = match self.navigation.current_selection() {
                Some(e) => Some(e.path),
                None => None,
            };
            let query = match self.navigation.filter_query() {
                Some(q) => q,
                None => String::new(),
            };
            PreviewTarget { path, line: None, query }
        }
    }

    /// What the preview pane needs next, given the key of the cached preview
    /// and whether the target is a file.
    pub fn preview_step(&self, target: &PreviewTarget, cached: &Option<(String, String, Option<usize>)>, is_file: bool) -> (r: PreviewStep)
        ensures
            r == step_spec(target_view(*target), cached_view(*cached), is_file),
    {
        let fresh = match (cached, &target.path) {
            (Some(c), Some(p)) => same_text(p, &c.0) && same_text(&target.query, &c.1) && target.line == c.2,
            _ => false,
        };
        if fresh {
            return PreviewStep::Keep;
        }
        match &target.path {
            Some(p) => if !is_file {
                PreviewStep::Clear
            } else if self.detect_preview_type(p.as_str()) == PreviewType::Image {
                PreviewStep::Image
            } else {
                PreviewStep::Text
            },
            None => PreviewStep::Clear,
        }
    }
}

} // verus!
