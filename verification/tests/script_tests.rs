use p2a::script::{
    collect_string_items, execute, export_report, export_script, find_arg, history_text,
    load_failure_message, reconstruct_command, run_result_message, script_missing_message,
    script_start_message, temp_session_file, ArgValue, CommandRecord, DatasetInfo, ScriptCommands,
    ScriptRequest, SessionInfo,
};

fn record(argv: &[&str], args: Option<Vec<(String, ArgValue)>>, line: &str, ok: bool, ms: u64) -> CommandRecord {
    CommandRecord {
        command_line: line.into(),
        argv: argv.iter().map(|s| s.to_string()).collect(),
        category: "regression".into(),
        subcommand: "ols".into(),
        arguments: args,
        timestamp: "2024-01-01T00:00:00Z".into(),
        success: ok,
        duration_ms: ms,
    }
}

fn ols_args() -> Vec<(String, ArgValue)> {
    vec![
        ("dataset".to_string(), ArgValue::Text("my data".into())),
        ("dep_var".to_string(), ArgValue::Text("y".into())),
        ("indep_vars".to_string(), ArgValue::List(vec![Some("x1".into()), None, Some("x 2".into())])),
        ("robust".to_string(), ArgValue::Text("hc1".into())),
        ("k".to_string(), ArgValue::Count(3)),
    ]
}

#[test]
fn reconstructs_known_flags_in_order() {
    let r = record(&[], Some(ols_args()), "", true, 0);
    assert_eq!(reconstruct_command(&r), "regression ols 'my data' -y y -x x1 'x 2' --robust hc1 -k 3");
}

#[test]
fn reconstruct_without_arguments() {
    let r = record(&[], None, "", true, 0);
    assert_eq!(reconstruct_command(&r), "regression ols");
    let r = record(&[], Some(vec![("indep_vars".to_string(), ArgValue::List(vec![None]))]), "", true, 0);
    assert_eq!(reconstruct_command(&r), "regression ols");
}

#[test]
fn argument_lookup() {
    let args = ols_args();
    assert!(matches!(find_arg(&args, "k"), Some(ArgValue::Count(3))));
    assert!(find_arg(&args, "missing").is_none());
    assert_eq!(collect_string_items(&[Some("a".into()), None, Some("b".into())]), vec!["a".to_string(), "b".to_string()]);
}

fn session(commands: Vec<CommandRecord>) -> SessionInfo {
    SessionInfo {
        id: "abc".into(),
        title: Some("Demo".into()),
        created_at: "t0".into(),
        updated_at: "t1".into(),
        version: "0.1.0".into(),
        datasets: vec![DatasetInfo { name: "sales".into(), nrows: 10, ncols: 3 }],
        commands,
    }
}

#[test]
fn exported_script_replays_commands() {
    let s = session(vec![record(&["regression", "ols", "my data"], None, "p2a regression ols 'my data'", true, 5)]);
    let text = export_script(&s, ".p2a_session_x.json", true);
    let expected = "#!/bin/bash\n# p2a analytics script\n# Demo\n# Generated: t1\n# p2a version: 0.1.0\n\nset -euo pipefail\n\nSESSION_FILE=\".p2a_session_x.json\"\n\n# p2a regression ols 'my data'\np2a --session \"$SESSION_FILE\" regression ols 'my data'\n\n# Cleanup temporary session file\nrm -f \"$SESSION_FILE\"\n\necho \"Script completed successfully\"\n";
    assert_eq!(text, expected);
}

#[test]
fn exported_script_without_comments_reconstructs() {
    let mut s = session(vec![record(&[], Some(ols_args()), "ignored", true, 5)]);
    s.title = None;
    let text = export_script(&s, "f", false);
    assert!(text.contains("\np2a --session \"$SESSION_FILE\" regression ols 'my data' -y y -x x1 'x 2' --robust hc1 -k 3\n\n"));
    assert!(!text.contains("ignored"));
    assert!(!text.contains("# Demo"));
}

#[test]
fn history_listing() {
    let s = session(vec![
        record(&[], None, "p2a data load a.csv", true, 12),
        record(&[], None, "p2a regression ols", false, 3),
    ]);
    let expected = "Session: abc\nTitle: Demo\nCreated: t0\nUpdated: t1\nVersion: 0.1.0\n\nDatasets (1):\n  - sales (10 rows, 3 cols)\n\nCommands (2):\n  1. [OK] p2a data load a.csv (12ms)\n  2. [FAIL] p2a regression ols (3ms)\n";
    assert_eq!(history_text(&s), expected);
}

#[test]
fn script_messages() {
    assert_eq!(temp_session_file("u1"), ".p2a_session_u1.json");
    assert_eq!(load_failure_message("bad json"), "Failed to load session: bad json");
    assert_eq!(export_report(4, "out.sh"), "Exported 4 commands to: out.sh");
    assert_eq!(script_missing_message("s.sh"), "Script file not found: s.sh");
    assert_eq!(script_start_message("s.sh"), "Running script: s.sh");
    assert_eq!(run_result_message(true, Some(0)), ("Script completed successfully".to_string(), false));
    assert_eq!(run_result_message(false, Some(2)), ("Script failed with exit code: Some(2)".to_string(), true));
    assert_eq!(run_result_message(false, Some(-1)), ("Script failed with exit code: Some(-1)".to_string(), true));
    assert_eq!(run_result_message(false, None), ("Script failed with exit code: None".to_string(), true));
}

#[test]
fn script_dispatch() {
    let e = ScriptCommands::Export { session_file: "s.json".into(), output: "o.sh".into(), comments: true };
    assert!(matches!(execute(&e), ScriptRequest::LoadSession(p) if p == "s.json"));
    let r = ScriptCommands::Run { script_file: "r.sh".into() };
    assert!(matches!(execute(&r), ScriptRequest::CheckScript(p) if p == "r.sh"));
}

#[test]
fn member_order_does_not_change_reconstruction() {
    let mut reversed = ols_args();
    reversed.reverse();
    let a = record(&[], Some(ols_args()), "", true, 0);
    let b = record(&[], Some(reversed), "", true, 0);
    assert_eq!(reconstruct_command(&a), reconstruct_command(&b));
}

#[test]
fn exported_script_comments_every_line_of_session_text() {
    let mut s = session(vec![record(&["data", "load", "a.csv"], None, "p2a data load a.csv\nrm -rf /tmp/x", true, 5)]);
    s.title = Some("Demo\ntouch /tmp/pwned".into());
    let text = export_script(&s, ".p2a_session_x.json", true);
    let expected = "#!/bin/bash\n# p2a analytics script\n# Demo\n# touch /tmp/pwned\n# Generated: t1\n# p2a version: 0.1.0\n\nset -euo pipefail\n\nSESSION_FILE=\".p2a_session_x.json\"\n\n# p2a data load a.csv\n# rm -rf /tmp/x\np2a --session \"$SESSION_FILE\" data load a.csv\n\n# Cleanup temporary session file\nrm -f \"$SESSION_FILE\"\n\necho \"Script completed successfully\"\n";
    assert_eq!(text, expected);
    for line in text.lines() {
        assert!(!line.starts_with("rm -rf") && !line.starts_with("touch"));
    }
}

#[test]
fn exported_script_quotes_newlines_in_arguments() {
    let s = session(vec![record(&["data", "load", "a\nb.csv"], None, "x", true, 5)]);
    let text = export_script(&s, "f", false);
    assert!(text.contains("\np2a --session \"$SESSION_FILE\" data load 'a\nb.csv'\n\n"));
}

#[test]
fn reconstruction_quotes_category_and_subcommand() {
    let mut r = record(&[], None, "", true, 0);
    r.category = "data; rm".into();
    r.subcommand = "x\ny".into();
    assert_eq!(reconstruct_command(&r), "'data; rm' 'x\ny'");
}
