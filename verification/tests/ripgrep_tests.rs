use ascope::search::ripgrep::{read_rg_line, rg_args, rg_step, RgReader, RgRecord, RgSearchQuery};

const BEGIN: &str = r#"{"type":"begin","data":{"path":{"text":"/tmp/x/test1.txt"}}}"#;
const MATCH: &str = r#"{"type":"match","data":{"path":{"text":"/tmp/x/test1.txt"},"lines":{"text":"rust is awesome\n"},"line_number":3,"absolute_offset":30,"submatches":[]}}"#;
const END: &str = r#"{"type":"end","data":{"path":{"text":"/tmp/x/test1.txt"}}}"#;

#[test]
fn rg_output_yields_one_match_per_match_record() {
    let (cur, m) = read_rg_line(None, BEGIN);
    assert!(m.is_none());
    assert_eq!(cur.as_deref(), Some("/tmp/x/test1.txt"));
    let (cur, m) = read_rg_line(cur, MATCH);
    let m = m.expect("a match");
    assert_eq!(m.line_number, 3);
    assert_eq!(m.path, "/tmp/x/test1.txt");
    assert!(m.text.contains("rust is awesome"));
    let (cur, m) = read_rg_line(cur, END);
    assert!(m.is_none());
    assert_eq!(cur.as_deref(), Some("/tmp/x/test1.txt"));
}

#[test]
fn non_json_line_changes_nothing() {
    let (cur, m) = read_rg_line(Some("a".to_string()), "not json at all");
    assert_eq!(cur.as_deref(), Some("a"));
    assert!(m.is_none());
}

#[test]
fn match_before_begin_is_dropped() {
    let (cur, m) = read_rg_line(None, MATCH);
    assert!(cur.is_none());
    assert!(m.is_none());
}

#[test]
fn match_record_without_fields_defaults() {
    let rec = RgRecord { kind: Some("match".to_string()), path: None, line_number: None, text: None };
    let (cur, m) = rg_step(Some("f.rs".to_string()), &rec);
    assert_eq!(cur.as_deref(), Some("f.rs"));
    let m = m.unwrap();
    assert_eq!(m.line_number, 0);
    assert_eq!(m.text, "");
}

#[test]
fn rg_args_end_with_query_and_dir() {
    let args = rg_args("awesome", "/tmp/x");
    assert_eq!(args[0], "--json");
    assert_eq!(args.len(), 11);
    assert_eq!(args[9], "awesome");
    assert_eq!(args[10], "/tmp/x");
    assert!(args.contains(&"--glob=!node_modules".to_string()));
}

#[test]
fn reader_streams_the_matches_of_a_run() {
    let q = RgSearchQuery { query: "awesome".to_string(), dir: "/tmp/x".to_string() };
    let mut reader = RgReader::for_query(&q).expect("a reader");
    let found: Vec<_> = [MATCH, BEGIN, "not json", MATCH, END, MATCH]
        .iter()
        .filter_map(|line| reader.feed(line))
        .collect();
    assert_eq!(found.len(), 2);
    assert!(found.iter().all(|m| m.line_number == 3 && m.path == "/tmp/x/test1.txt"));
}

#[test]
fn an_empty_query_runs_no_search() {
    let q = RgSearchQuery { query: String::new(), dir: "/tmp/x".to_string() };
    assert!(RgReader::for_query(&q).is_none());
}
