use vstd::prelude::*;

verus! {

/// A content search to run below `dir`.
#[derive(Debug, Clone)]
pub struct RgSearchQuery {
    pub query: String,
    pub dir: String,
}

/// One matching line.
#[derive(Debug, Clone)]
pub struct RgMatch {
    pub path: String,
    pub line_number: usize,
    pub text: String,
}

/// A message from the search worker.
#[derive(Debug, Clone)]
pub enum RgMessage {
    Match(RgMatch),
    Finished,
}

/// The fields of one line of `rg --json` output that the search reads.
#[derive(Debug, Clone)]
pub struct RgRecord {
    /// `type`
    pub kind: Option<String>,
    /// `data.path.text`
    pub path: Option<String>,
    /// `data.line_number`
    pub line_number: Option<u64>,
    /// `data.lines.text`
    pub text: Option<String>,
}

/// The text of an optional string.
pub open spec fn opt_str(s: Option<String>) -> Option<Seq<char>> {
    match s {
        Some(t) => Some(t@),
        None => None,
    }
}

/// The fields (`type`, `data.path.text`, `data.line_number`, `data.lines.text`)
/// of a line of `rg --json` output, `None` when the line is not JSON.
pub uninterp spec fn rg_json_fields(line: Seq<char>) -> Option<
    (Option<Seq<char>>, Option<Seq<char>>, Option<u64>, Option<Seq<char>>),
>;

/// Parses `line` with `serde_json::from_str` into a `serde_json::Value` and reads
/// the string at `type`, the strings at the pointers `/data/path/text` and
/// `/data/lines/text`, and the unsigned number at `/data/line_number`. The
/// contract only names the result, which depends on `line` alone.
#[verifier::external_body]
fn parse_rg_line(line: &str) -> (r: Option<RgRecord>)
    ensures
        match r {
            Some(rec) => rg_json_fields(line@) == Some(
                (opt_str(rec.kind), opt_str(rec.path), rec.line_number, opt_str(rec.text)),
            ),
            None => rg_json_fields(line@) is None,
        },
{
    let v: serde_json::Value = serde_json::from_str(line).ok()?;
    let kind = v.get("type").and_then(serde_json::Value::as_str).map(String::from);
    let path = v.pointer("/data/path/text").and_then(serde_json::Value::as_str).map(String::from);
    let line_number = v.pointer("/data/line_number").and_then(serde_json::Value::as_u64);
    let text = v.pointer("/data/lines/text").and_then(serde_json::Value::as_str).map(String::from);
    Some(RgRecord { kind, path, line_number, text })
}

/// Follows one line of `rg --json` output while the search is in the file
/// `current`: a line that is not JSON changes nothing; any other line moves the
/// search as its fields say.
pub fn read_rg_line(current: Option<String>, line: &str) -> (r: (Option<String>, Option<RgMatch>))
    ensures
        match rg_json_fields(line@) {
            Some(f) => step_agrees(r, rg_fields_step(opt_str(current), f)),
            None => opt_str(r.0) == opt_str(current) && r.1 is None,
        },
{
    match parse_rg_line(line) {
        Some(rec) => rg_step(current, &rec),
        None => (current, None),
    }
}

/// How one line of `rg --json` output moves the search along while it is in
/// the file `current`: a line that is not JSON changes nothing.
pub open spec fn line_step(current: Option<Seq<char>>, line: Seq<char>) -> (
    Option<Seq<char>>,
    Option<(Seq<char>, usize, Seq<char>)>,
) {
    match rg_json_fields(line) {
        Some(f) => rg_fields_step(current, f),
        None => (current, None),
    }
}

/// The file that the search is in and the matches found, in order, after
/// the lines `lines` of one `rg --json` run: the fold of `line_step` over
/// them from no file.
pub open spec fn rg_scan(lines: Seq<Seq<char>>) -> (Option<Seq<char>>, Seq<(Seq<char>, usize, Seq<char>)>)
    decreases lines.len(),
{
    if lines.len() == 0 {
        (None, Seq::empty())
    } else {
        let before = rg_scan(lines.drop_last());
        let step = line_step(before.0, lines.last());
        (
            step.0,
            match step.1 {
                Some(m) => before.1.push(m),
                None => before.1,
            },
        )
    }
}

/// The view of a match.
pub open spec fn match_view(m: RgMatch) -> (Seq<char>, usize, Seq<char>) {
    (m.path@, m.line_number, m.text@)
}

/// Reads the output of one `rg --json` run line by line as it arrives,
/// remembering the file that the search is in.
pub struct RgReader {
    current: Option<String>,
    lines: Ghost<Seq<Seq<char>>>,
}

impl RgReader {
    /// The lines read so far.
    pub closed spec fn lines_read(&self) -> Seq<Seq<char>> {
        self.lines@
    }

    /// The reader is in the file that the lines read so far leave it in.
    pub closed spec fn follows_lines(&self) -> bool {
        opt_str(self.current) == rg_scan(self.lines@).0
    }

    /// A reader for the run of a search: none for an empty query, for which
    /// no `rg` runs and the search is finished at once.
    pub fn for_query(q: &RgSearchQuery) -> (r: Option<RgReader>)
        ensures
            r is None <==> q.query@.len() == 0,
            r matches Some(rd) ==> rd.lines_read() == Seq::<Seq<char>>::empty() && rd.follows_lines(),
    {
        if q.query.as_str().is_empty() {
            None
        } else {
            Some(RgReader { current: None, lines: Ghost(Seq::empty()) })
        }
    }

    /// Reads the next line; returns the match it reports, if any. The matches
    /// returned over a run are exactly those of `rg_scan` of its lines.
    pub fn feed(&mut self, line: &str) -> (m: Option<RgMatch>)
        ensures
            final(self).lines_read() == old(self).lines_read().push(line@),
            old(self).follows_lines() ==> final(self).follows_lines(),
            old(self).follows_lines() ==> rg_scan(final(self).lines_read()).1 == match m {
                Some(x) => rg_scan(old(self).lines_read()).1.push(match_view(x)),
                None => rg_scan(old(self).lines_read()).1,
            },
    {
        let ghost before = self.lines@;
        let cur = self.current.take();
        let (next, found) = read_rg_line(cur, line);
        proof {
            assert(before.push(line@).drop_last() =~= before);
        }
        self.current = next;
        self.lines = Ghost(before.push(line@));
        found
    }
}

/// Whether `s` holds exactly the text `lit`.
fn is_text(s: &Option<String>, lit: &str) -> (r: bool)
    ensures
        r == (opt_str(*s) == Some(lit@)),
{
    match s {
        Some(t) => {
            let a = crate::text::chars_of(t.as_str());
            let b = crate::text::chars_of(lit);
            crate::text::same_chars(&a, &b)
        },
        None => false,
    }
}

/// The fields of a record: `type`, `data.path.text`, `data.line_number` and
/// `data.lines.text`.
pub open spec fn record_fields(rec: RgRecord) -> (Option<Seq<char>>, Option<Seq<char>>, Option<u64>, Option<Seq<char>>) {
    (opt_str(rec.kind), opt_str(rec.path), rec.line_number, opt_str(rec.text))
}

/// How a record with the fields `f` moves the search along: a `begin` record
/// with a path makes that path the current file; a `match` record under a
/// current file yields a match (line number 0 and empty text when missing).
pub open spec fn rg_fields_step(
    current: Option<Seq<char>>,
    f: (Option<Seq<char>>, Option<Seq<char>>, Option<u64>, Option<Seq<char>>),
) -> (Option<Seq<char>>, Option<(Seq<char>, usize, Seq<char>)>) {
    if f.0 == Some("begin"@) {
        match f.1 {
            Some(p) => (Some(p), None),
            None => (current, None),
        }
    } else if f.0 == Some("match"@) {
        match current {
            Some(p) => (current, Some((
                p,
                match f.2 {
                    Some(n) => n as usize,
                    None => 0usize,
                },
                match f.3 {
                    Some(t) => t,
                    None => Seq::empty(),
                },
            ))),
            None => (current, None),
        }
    } else {
        (current, None)
    }
}

/// How the record `rec` moves the search along.
pub open spec fn rg_step_spec(current: Option<Seq<char>>, rec: RgRecord) -> (Option<Seq<char>>, Option<(Seq<char>, usize, Seq<char>)>) {
    rg_fields_step(current, record_fields(rec))
}

/// Whether the result `r` of a step agrees with the spec step `s`.
pub open spec fn step_agrees(
    r: (Option<String>, Option<RgMatch>),
    s: (Option<Seq<char>>, Option<(Seq<char>, usize, Seq<char>)>),
) -> bool {
    &&& opt_str(r.0) == s.0
    &&& match r.1 {
        Some(m) => s.1 == Some((m.path@, m.line_number, m.text@)),
        None => s.1 is None,
    }
}

/// Follows one record of `rg --json` output.
pub fn rg_step(current: Option<String>, rec: &RgRecord) -> (r: (Option<String>, Option<RgMatch>))
    ensures
        step_agrees(r, rg_step_spec(opt_str(current), *rec)),
{
    if is_text(&rec.kind, "begin") {
        match &rec.path {
            Some(p) => (Some(p.clone()), None),
            None => (current, None),
        }
    } else if is_text(&rec.kind, "match") {
        match current {
            Some(p) => {
                let n: usize = match rec.line_number {
                    Some(v) => v as usize,
                    None => 0,
                };
                let text = match &rec.text {
                    Some(t) => t.clone(),
                    None => String::new(),
                };
                let m = RgMatch { path: p.clone(), line_number: n, text };
                (Some(p), Some(m))
            },
            None => (None, None),
        }
    } else {
        (current, None)
    }
}

/// The arguments `rg` runs with: JSON output, smart case, line numbers, no
/// colour, skipping `node_modules`, `target` and `.git`.
pub fn rg_args(query: &str, dir: &str) -> (r: Vec<String>)
    ensures
        r@.map_values(|s: String| s@) == seq![
            "--json"@,
            "-S"@,
            "--line-number"@,
            "--column"@,
            "--no-heading"@,
            "--color=never"@,
            "--glob=!node_modules"@,
            "--glob=!target"@,
            "--glob=!.git"@,
            query@,
            dir@,
        ],
{
    let mut r: Vec<String> = Vec::new();
    r.push(String::from_str("--json"));
    r.push(String::from_str("-S"));
    r.push(String::from_str("--line-number"));
    r.push(String::from_str("--column"));
    r.push(String::from_str("--no-heading"));
    r.push(String::from_str("--color=never"));
    r.push(String::from_str("--glob=!node_modules"));
    r.push(String::from_str("--glob=!target"));
    r.push(String::from_str("--glob=!.git"));
    r.push(String::from_str(query));
    r.push(String::from_str(dir));
    assert(r@.map_values(|s: String| s@) =~= seq![
        "--json"@,
        "-S"@,
        "--line-number"@,
        "--column"@,
        "--no-heading"@,
        "--color=never"@,
        "--glob=!node_modules"@,
        "--glob=!target"@,
        "--glob=!.git"@,
        query@,
        dir@,
    ]);
    r
}

} // verus!
