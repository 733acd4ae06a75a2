use vstd::prelude::*;
use vstd::relations::*;
use crate::app::{AppState, ModalMode, PluginOverlayItem, SearchMatch, SearchOverlayMode};
use crate::fs::walker::{DirEntry, EntryType};
use crate::fuzzy::{fuzzy_match, fuzzy_score};
use crate::paths::{file_name_or_empty, file_name_string};
use crate::project::detector::{commands_view, DetectedCommand};
use crate::search::ripgrep::{RgMessage, RgSearchQuery};
use crate::sort::{arrangement, by_score, is_index_permutation, lemma_arrangement, order_by_score};
use crate::text::{
    chars_of, contains_chars, contains_seq, decimal, lowercase, push_chars, push_decimal, push_str,
    string_of, to_lowercase, trim, trim_chars, trim_end, trim_end_chars,
};

verus! {

/// The texts of a search result: path, line, and what is shown.
pub open spec fn match_view(m: SearchMatch) -> (Seq<char>, Option<usize>, Seq<char>) {
    (m.path@, m.line_number, m.text@)
}

/// The texts of a list of search results.
pub open spec fn matches_view(v: Seq<SearchMatch>) -> Seq<(Seq<char>, Option<usize>, Seq<char>)> {
    v.map_values(|m: SearchMatch| match_view(m))
}

/// The regular files among `all`, in list order.
pub open spec fn file_entries(all: Seq<DirEntry>) -> Seq<DirEntry>
    decreases all.len(),
{
    if all.len() == 0 {
        Seq::empty()
    } else if all.last().entry_type == EntryType::File {
        file_entries(all.drop_last()).push(all.last())
    } else {
        file_entries(all.drop_last())
    }
}

/// The result that shows the file `e` by its name.
pub open spec fn file_result(e: DirEntry) -> (Seq<char>, Option<usize>, Seq<char>) {
    (e.path@, None, file_name_or_empty(e.path@))
}

/// The regular files among `all` whose names match `q`, with their scores.
pub open spec fn file_name_hits(all: Seq<DirEntry>, q: Seq<char>) -> Seq<(DirEntry, u32)>
    decreases all.len(),
{
    if all.len() == 0 {
        Seq::empty()
    } else {
        let rest = file_name_hits(all.drop_last(), q);
        if all.last().entry_type == EntryType::File {
            match fuzzy_score(q, file_name_or_empty(all.last().path@)) {
                Some(s) => rest.push((all.last(), s)),
                None => rest,
            }
        } else {
            rest
        }
    }
}

/// The scores of scored items.
pub open spec fn scores_of<T>(h: Seq<(T, u32)>) -> Seq<u32> {
    h.map_values(|x: (T, u32)| x.1)
}

/// Scored items, best first, equal scores in list order.
pub open spec fn ranked<T>(h: Seq<(T, u32)>) -> Seq<T> {
    arrangement(h, by_score(scores_of(h))).map_values(|x: (T, u32)| x.0)
}

/// What the search overlay lists for its input: every file when the input
/// is empty, the files whose names match it (best first) in fuzzy mode, and
/// nothing yet in content mode (the matches arrive from the search).
pub open spec fn overlay_results(s: AppState) -> Seq<(Seq<char>, Option<usize>, Seq<char>)> {
    overlay_list(s.search_overlay_input@, s.search_overlay_mode, s.all_entries@)
}

/// What the search overlay lists for `input` in `mode` over the entries `all`.
pub open spec fn overlay_list(input: Seq<char>, mode: SearchOverlayMode, all: Seq<DirEntry>) -> Seq<
    (Seq<char>, Option<usize>, Seq<char>),
> {
    if input.len() == 0 {
        file_entries(all).map_values(|e: DirEntry| file_result(e))
    } else if mode == SearchOverlayMode::FuzzyFiles {
        ranked(file_name_hits(all, input)).map_values(|e: DirEntry| file_result(e))
    } else {
        Seq::empty()
    }
}

/// The commands among `c` whose names match `q`, with their scores.
pub open spec fn palette_hits(c: Seq<DetectedCommand>, q: Seq<char>) -> Seq<(DetectedCommand, u32)>
    decreases c.len(),
{
    if c.len() == 0 {
        Seq::empty()
    } else {
        let rest = palette_hits(c.drop_last(), q);
        match fuzzy_score(q, c.last().name@) {
            Some(s) => rest.push((c.last(), s)),
            None => rest,
        }
    }
}

/// What the command palette offers for `input`: a shell command after `!`,
/// every candidate for an empty input, else the candidates whose names match
/// (best first).
pub open spec fn palette_results(input: Seq<char>, cands: Seq<DetectedCommand>) -> Seq<
    (Seq<char>, Seq<char>, Seq<char>),
> {
    if input.len() > 0 && input[0] == '!' {
        let cmd = trim(input.drop_first());
        if cmd.len() == 0 {
            seq![("Enter a shell command to execute..."@, ""@, "Shell"@)]
        } else {
            seq![("Run: "@ + cmd, cmd, "Shell"@)]
        }
    } else if input.len() == 0 {
        commands_view(cands)
    } else {
        commands_view(ranked(palette_hits(cands, input)))
    }
}

/// The overlay items whose lower-cased labels contain `q`.
pub open spec fn label_matches(items: Seq<PluginOverlayItem>, q: Seq<char>) -> Seq<PluginOverlayItem>
    decreases items.len(),
{
    if items.len() == 0 {
        Seq::empty()
    } else if contains_seq(lowercase(items.last().label@), q) {
        label_matches(items.drop_last(), q).push(items.last())
    } else {
        label_matches(items.drop_last(), q)
    }
}

/// The result shown for a content match in `path` at `line` with `text`:
/// `name:line: text` with the text's trailing white space dropped.
pub open spec fn grep_result(path: Seq<char>, line: usize, text: Seq<char>) -> (
    Seq<char>,
    Option<usize>,
    Seq<char>,
) {
    (
        path,
        Some(line),
        file_name_or_empty(path) + ":"@ + decimal(line as nat) + ": "@ + trim_end(text),
    )
}

/// The most content matches the overlay keeps.
pub open spec fn grep_limit() -> nat {
    200
}

fn file_result_of(e: &DirEntry) -> (m: SearchMatch)
    ensures
        match_view(m) == file_result(*e),
{
    SearchMatch { path: e.path.clone(), line_number: None, text: file_name_string(e.path.as_str()) }
}

fn copy_item(i: &PluginOverlayItem) -> (r: PluginOverlayItem)
    ensures
        r == *i,
{
    PluginOverlayItem { label: i.label.clone(), value: i.value.clone() }
}

fn copy_command(c: &DetectedCommand) -> (r: DetectedCommand)
    ensures
        r == *c,
{
    DetectedCommand { name: c.name.clone(), cmd: c.cmd.clone(), source: c.source.clone() }
}

proof fn lemma_ranked_by<T>(h: Seq<(T, u32)>, perm: Seq<usize>, scores: Seq<u32>)
    requires
        scores == scores_of(h),
        is_index_permutation(perm, h.len()),
        sorted_by(perm, by_score(scores)),
        perm.len() == h.len(),
        forall|k: int| 0 <= k < perm.len() ==> perm[k] < h.len(),
    ensures
        ranked(h) == perm.map_values(|i: usize| h[i as int].0),
{
    let r = perm.map_values(|i: usize| h[i as int]);
    assert(crate::sort::arranged(h, by_score(scores_of(h)), r));
    assert(total_ordering(by_score(scores_of(h))));
    lemma_arrangement(h, by_score(scores_of(h)), r);
    assert(ranked(h) =~= perm.map_values(|i: usize| h[i as int].0));
}

impl AppState {
    /// Refreshes the search overlay for its input and resets its highlight.
    /// In content mode the list is emptied and the search to run is returned.
    pub fn update_search_overlay_results(&mut self) -> (q: Option<RgSearchQuery>)
        ensures
            matches_view(final(self).search_overlay_results@) == overlay_results(*old(self)),
            final(self).search_overlay_selected_index == 0,
            old(self).search_overlay_input@.len() > 0 && old(self).search_overlay_mode
                == SearchOverlayMode::LiveGrep ==> (q matches Some(r) && r.query@
                == old(self).search_overlay_input@ && r.dir@ == old(self).current_path@),
            !(old(self).search_overlay_input@.len() > 0 && old(self).search_overlay_mode
                == SearchOverlayMode::LiveGrep) ==> q is None,
            *final(self) == (AppState {
                search_overlay_results: final(self).search_overlay_results,
                search_overlay_selected_index: 0,
                ..*old(self)
            }),
    {
        let ghost all = self.all_entries@;
        if self.search_overlay_input.as_str().is_empty() {
            let mut out: Vec<SearchMatch> = Vec::new();
            let mut i: usize = 0;
            while i < self.all_entries.len()
                invariant
                    i <= self.all_entries.len(),
                    all == self.all_entries@,
                    matches_view(out@) == file_entries(all.subrange(0, i as int)).map_values(
                        |e: DirEntry| file_result(e),
                    ),
                decreases self.all_entries.len() - i,
            {
                assert(all.subrange(0, i + 1).drop_last() =~= all.subrange(0, i as int));
                let ghost before = out@;
                if self.all_entries[i].entry_type == EntryType::File {
                    let m = file_result_of(&self.all_entries[i]);
                    out.push(m);
                    assert(matches_view(out@) =~= matches_view(before).push(match_view(m)));
                }
                i = i + 1;
                assert(matches_view(out@) =~= file_entries(all.subrange(0, i as int)).map_values(
                    |e: DirEntry| file_result(e),
                ));
            }
            assert(all.subrange(0, all.len() as int) =~= all);
            self.search_overlay_results = out;
            self.search_overlay_selected_index = 0;
            return None;
        }
        match self.search_overlay_mode {
            SearchOverlayMode::FuzzyFiles => {
                let mut hits: Vec<(DirEntry, u32)> = Vec::new();
                let mut scores: Vec<u32> = Vec::new();
                let mut i: usize = 0;
                while i < self.all_entries.len()
                    invariant
                        i <= self.all_entries.len(),
                        all == self.all_entries@,
                        hits@ == file_name_hits(all.subrange(0, i as int), self.search_overlay_input@),
                        scores@ == scores_of(hits@),
                    decreases self.all_entries.len() - i,
                {
                    assert(all.subrange(0, i + 1).drop_last() =~= all.subrange(0, i as int));
                    let e = &self.all_entries[i];
                    if e.entry_type == EntryType::File {
                        let name = file_name_string(e.path.as_str());
                        match fuzzy_match(self.search_overlay_input.as_str(), name.as_str()) {
                            Some(s) => {
                                hits.push((e.duplicate(), s));
                                scores.push(s);
                                assert(scores@ =~= scores_of(hits@));
                            },
                            None => {},
                        }
                    }
                    i = i + 1;
                }
                assert(all.subrange(0, all.len() as int) =~= all);
                let perm = order_by_score(&scores);
                proof {
                    lemma_ranked_by(hits@, perm@, scores@);
                }
                let mut out: Vec<SearchMatch> = Vec::new();
                let mut k: usize = 0;
                while k < perm.len()
                    invariant
                        k <= perm.len(),
                        perm.len() == hits.len(),
                        forall|x: int| 0 <= x < perm.len() ==> perm[x] < hits.len(),
                        matches_view(out@) == perm@.subrange(0, k as int).map_values(
                            |i: usize| file_result(hits@[i as int].0),
                        ),
                    decreases perm.len() - k,
                {
                    let m = file_result_of(&hits[perm[k]].0);
                    let ghost before = out@;
                    out.push(m);
                    assert(matches_view(out@) =~= matches_view(before).push(match_view(m)));
                    k = k + 1;
                    assert(matches_view(out@) =~= perm@.subrange(0, k as int).map_values(
                        |i: usize| file_result(hits@[i as int].0),
                    ));
                }
                assert(perm@.subrange(0, perm.len() as int) =~= perm@);
                assert(matches_view(out@) =~= ranked(hits@).map_values(|e: DirEntry| file_result(e)));
                self.search_overlay_results = out;
                self.search_overlay_selected_index = 0;
                None
            },
            SearchOverlayMode::LiveGrep => {
                self.search_overlay_results = Vec::new();
                assert(matches_view(self.search_overlay_results@) =~= Seq::empty());
                self.search_overlay_selected_index = 0;
                Some(
                    RgSearchQuery {
                        query: self.search_overlay_input.clone(),
                        dir: self.current_path.clone(),
                    },
                )
            },
        }
    }

    /// Takes in one message of the content search: while the overlay shows
    /// content matches, a match is added (up to the limit) as `name:line: text`.
    pub fn apply_search_message(&mut self, msg: &RgMessage)
        ensures
            ({
                let live = old(self).modal_mode == ModalMode::SearchOverlay
                    && old(self).search_overlay_mode == SearchOverlayMode::LiveGrep;
                match *msg {
                    RgMessage::Match(m) => if live && old(self).search_overlay_results.len()
                        < grep_limit() {
                        matches_view(final(self).search_overlay_results@) == matches_view(
                            old(self).search_overlay_results@,
                        ).push(grep_result(m.path@, m.line_number, m.text@))
                    } else {
                        final(self).search_overlay_results == old(self).search_overlay_results
                    },
                    RgMessage::Finished => final(self).search_overlay_results
                        == old(self).search_overlay_results,
                }
            }),
            final(self).search_overlay_selected_index == old(self).search_overlay_selected_index,
            final(self).navigation == old(self).navigation,
            final(self).tabs == old(self).tabs,
            final(self).active_tab == old(self).active_tab,
            final(self).selected_paths == old(self).selected_paths,
            final(self).config == old(self).config,
            *final(self) == (AppState {
                search_overlay_results: final(self).search_overlay_results,
                ..*old(self)
            }),
    {
        if self.modal_mode == ModalMode::SearchOverlay && self.search_overlay_mode
            == SearchOverlayMode::LiveGrep {
            match msg {
                RgMessage::Match(m) => {
                    if self.search_overlay_results.len() < 200 {
                        let mut text: Vec<char> = Vec::new();
                        let name = file_name_string(m.path.as_str());
                        push_str(&mut text, name.as_str());
                        push_str(&mut text, ":");
                        push_decimal(&mut text, m.line_number as u64);
                        push_str(&mut text, ": ");
                        let body = trim_end_chars(&chars_of(m.text.as_str()));
                        push_chars(&mut text, &body);
                        let ghost before = self.search_overlay_results@;
                        let r = SearchMatch {
                            path: m.path.clone(),
                            line_number: Some(m.line_number),
                            text: string_of(&text),
                        };
                        self.search_overlay_results.push(r);
                        assert(matches_view(self.search_overlay_results@) =~= matches_view(
                            before,
                        ).push(match_view(r)));
                    }
                },
                RgMessage::Finished => {},
            }
        }
    }

    /// Refilters the plugin overlay's items by its input (compared in lower
    /// case) and resets its highlight.
    pub fn update_plugin_modal_filtering(&mut self)
        ensures
            final(self).plugin_modal_filtered_items@ == if lowercase(
                old(self).plugin_modal_input@,
            ).len() == 0 {
                old(self).plugin_modal_items@
            } else {
                label_matches(old(self).plugin_modal_items@, lowercase(old(self).plugin_modal_input@))
            },
            *final(self) == (AppState {
                plugin_modal_filtered_items: final(self).plugin_modal_filtered_items,
                plugin_modal_selected_index: 0,
                ..*old(self)
            }),
    {
        let q = chars_of(to_lowercase(self.plugin_modal_input.as_str()).as_str());
        let ghost items = self.plugin_modal_items@;
        let mut out: Vec<PluginOverlayItem> = Vec::new();
        let mut i: usize = 0;
        while i < self.plugin_modal_items.len()
            invariant
                i <= self.plugin_modal_items.len(),
                items == self.plugin_modal_items@,
                q@ == lowercase(self.plugin_modal_input@),
                q@.len() == 0 ==> out@ == items.subrange(0, i as int),
                q@.len() > 0 ==> out@ == label_matches(items.subrange(0, i as int), q@),
            decreases self.plugin_modal_items.len() - i,
        {
            assert(items.subrange(0, i + 1).drop_last() =~= items.subrange(0, i as int));
            let it = &self.plugin_modal_items[i];
            if q.len() == 0 {
                out.push(copy_item(it));
                assert(out@ =~= items.subrange(0, i + 1));
            } else {
                let label = chars_of(to_lowercase(it.label.as_str()).as_str());
                if contains_chars(&label, &q) {
                    out.push(copy_item(it));
                }
            }
            i = i + 1;
        }
        assert(items.subrange(0, items.len() as int) =~= items);
        self.plugin_modal_filtered_items = out;
        self.plugin_modal_selected_index = 0;
    }

    /// Refreshes the command palette for its input and resets its highlight.
    pub fn update_command_palette_results(&mut self)
        ensures
            commands_view(final(self).command_palette_results@) == palette_results(
                old(self).command_palette_input@,
                old(self).command_palette_candidates@,
            ),
            *final(self) == (AppState {
                command_palette_results: final(self).command_palette_results,
                command_palette_selected_index: 0,
                ..*old(self)
            }),
    {
        let input = chars_of(self.command_palette_input.as_str());
        if input.len() > 0 && input[0] == '!' {
            let mut rest: Vec<char> = Vec::new();
            let mut i: usize = 1;
            while i < input.len()
                invariant
                    1 <= i <= input.len(),
                    rest@ == input@.subrange(1, i as int),
                decreases input.len() - i,
            {
                rest.push(input[i]);
                i = i + 1;
                assert(rest@ =~= input@.subrange(1, i as int));
            }
            assert(rest@ =~= input@.drop_first());
            let cmd = trim_chars(&rest);
            let mut results: Vec<DetectedCommand> = Vec::new();
            if cmd.len() == 0 {
                results.push(
                    DetectedCommand {
                        name: String::from_str("Enter a shell command to execute..."),
                        cmd: String::from_str(""),
                        source: String::from_str("Shell"),
                    },
                );
            } else {
                let mut name: Vec<char> = Vec::new();
                push_str(&mut name, "Run: ");
                push_chars(&mut name, &cmd);
                results.push(
                    DetectedCommand {
                        name: string_of(&name),
                        cmd: string_of(&cmd),
                        source: String::from_str("Shell"),
                    },
                );
            }
            self.command_palette_results = results;
            self.command_palette_selected_index = 0;
            assert(commands_view(self.command_palette_results@) =~= palette_results(
                input@,
                self.command_palette_candidates@,
            ));
            return;
        }
        if input.len() == 0 {
            self.command_palette_results = crate::app::copy_commands(&self.command_palette_candidates);
            self.command_palette_selected_index = 0;
            return;
        }
        let ghost cands = self.command_palette_candidates@;
        let mut hits: Vec<(DetectedCommand, u32)> = Vec::new();
        let mut scores: Vec<u32> = Vec::new();
        let mut i: usize = 0;
        while i < self.command_palette_candidates.len()
            invariant
                i <= self.command_palette_candidates.len(),
                cands == self.command_palette_candidates@,
                hits@ == palette_hits(cands.subrange(0, i as int), self.command_palette_input@),
                scores@ == scores_of(hits@),
            decreases self.command_palette_candidates.len() - i,
        {
            assert(cands.subrange(0, i + 1).drop_last() =~= cands.subrange(0, i as int));
            let c = &self.command_palette_candidates[i];
            match fuzzy_match(self.command_palette_input.as_str(), c.name.as_str()) {
                Some(s) => {
                    hits.push((copy_command(c), s));
                    scores.push(s);
                    assert(scores@ =~= scores_of(hits@));
                },
                None => {},
            }
            i = i + 1;
        }
        assert(cands.subrange(0, cands.len() as int) =~= cands);
        let perm = order_by_score(&scores);
        proof {
            lemma_ranked_by(hits@, perm@, scores@);
        }
        let mut out: Vec<DetectedCommand> = Vec::new();
        let mut k: usize = 0;
        while k < perm.len()
            invariant
                k <= perm.len(),
                perm.len() == hits.len(),
                forall|x: int| 0 <= x < perm.len() ==> perm[x] < hits.len(),
                out@ == perm@.subrange(0, k as int).map_values(|i: usize| hits@[i as int].0),
            decreases perm.len() - k,
        {
            out.push(copy_command(&hits[perm[k]].0));
            k = k + 1;
            assert(out@ =~= perm@.subrange(0, k as int).map_values(|i: usize| hits@[i as int].0));
        }
        assert(perm@.subrange(0, perm.len() as int) =~= perm@);
        self.command_palette_results = out;
        self.command_palette_selected_index = 0;
    }
}

} // verus!
