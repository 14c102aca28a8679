use p2a::data::{
    check_generated_columns, choose_reader, datasets_listing, execute as data_execute, format_listing,
    generated_report, loaded_dataset_name, DataCommands, DataRequest, FileFormat,
};
use p2a::munge::{
    bin_strategy, created_message, execute as munge_execute, failure_text, fill_strategy,
    parse_aggregation, parse_aggregations, parse_expression, parse_renames_list, result_dataset_name,
    AggFn, ArithOp, BinMethod, BinStrategy, FillMethod, FillStrategy, JoinType, MungeCommands,
    MungeStep, MutateExpr,
};

fn names(v: &[&str]) -> Vec<String> {
    v.iter().map(|s| s.to_string()).collect()
}

fn held(v: &[&str]) -> Option<Vec<String>> {
    Some(names(v))
}

fn filter_cmd(name: Option<&str>) -> MungeCommands {
    MungeCommands::Filter {
        dataset: "sales".into(),
        column: "x".into(),
        op: "gt".into(),
        value: "3".into(),
        name: name.map(|s| s.to_string()),
    }
}

#[test]
fn result_named_after_source_and_operation() {
    assert_eq!(result_dataset_name(&filter_cmd(None)), "sales_filtered");
    assert_eq!(result_dataset_name(&filter_cmd(Some("big"))), "big");
    let diff = MungeCommands::Diff { dataset: "ts".into(), column: "v".into(), periods: 1, pct: true, name: None };
    assert_eq!(result_dataset_name(&diff), "ts_pct_change");
    let std = MungeCommands::Standardize { dataset: "d".into(), columns: vec![], normalize: false, name: None };
    assert_eq!(result_dataset_name(&std), "d_standardized");
    let cat = MungeCommands::Concat { datasets: names(&["a", "b"]), name: None };
    assert_eq!(result_dataset_name(&cat), "a_concat");
}

#[test]
fn munge_needs_session_and_dataset() {
    assert_eq!(
        munge_execute(&filter_cmd(None), &None).err().unwrap(),
        "No session active. Use --session <file> to enable dataset storage."
    );
    assert_eq!(munge_execute(&filter_cmd(None), &held(&["other"])).err().unwrap(), "Dataset 'sales' not found");
    match munge_execute(&filter_cmd(None), &held(&["sales"])) {
        Ok(plan) => {
            assert_eq!(plan.output, "sales_filtered");
            assert!(matches!(plan.step, MungeStep::Plain));
        }
        Err(e) => panic!("unexpected error {}", e),
    }
}

#[test]
fn join_checks_both_sides() {
    let join = MungeCommands::Join {
        left: "l".into(),
        right: "r".into(),
        on: names(&["id"]),
        right_on: None,
        join_type: JoinType::Inner,
        suffix: "_right".into(),
        name: None,
    };
    assert_eq!(munge_execute(&join, &None).err().unwrap(), "Dataset 'l' not found");
    assert_eq!(munge_execute(&join, &held(&["l"])).err().unwrap(), "Dataset 'r' not found");
    assert_eq!(munge_execute(&join, &held(&["r", "l"])).ok().unwrap().output, "l_joined");
}

#[test]
fn concat_needs_two_held_datasets() {
    let one = MungeCommands::Concat { datasets: names(&["a"]), name: None };
    assert_eq!(munge_execute(&one, &None).err().unwrap(), "At least 2 datasets required for concatenation");
    let three = MungeCommands::Concat { datasets: names(&["a", "b", "c"]), name: Some("all".into()) };
    assert_eq!(munge_execute(&three, &held(&["a", "c"])).err().unwrap(), "Dataset 'b' not found");
    assert_eq!(munge_execute(&three, &held(&["a", "b", "c"])).ok().unwrap().output, "all");
}

#[test]
fn renames_parse_old_new_pairs() {
    let r = parse_renames_list(&names(&["a=b", "c=d"])).unwrap();
    assert_eq!(r, vec![("a".to_string(), "b".to_string()), ("c".to_string(), "d".to_string())]);
    assert_eq!(parse_renames_list(&names(&["a=b", "bad", "x=y=z"])).unwrap_err(), "Invalid rename format 'bad'. Use OLD=NEW");
    assert_eq!(parse_renames_list(&names(&["x=y=z"])).unwrap_err(), "Invalid rename format 'x=y=z'. Use OLD=NEW");
    assert_eq!(parse_renames_list(&names(&["=new"])).unwrap(), vec![(String::new(), "new".to_string())]);
}

#[test]
fn rename_command_reports_bad_pair() {
    let cmd = MungeCommands::Rename { dataset: "d".into(), renames: names(&["oops"]), name: None };
    assert_eq!(munge_execute(&cmd, &held(&["d"])).err().unwrap(), "Invalid rename format 'oops'. Use OLD=NEW");
    let ok = MungeCommands::Rename { dataset: "d".into(), renames: names(&["a=b"]), name: None };
    match munge_execute(&ok, &held(&["d"])).ok().unwrap().step {
        MungeStep::Renames(v) => assert_eq!(v, vec![("a".to_string(), "b".to_string())]),
        _ => panic!("expected renames"),
    }
}

#[test]
fn expressions_parse() {
    assert!(matches!(parse_expression(&"copy:x".to_string()), Some(MutateExpr::Copy(c)) if c == "x"));
    assert!(matches!(parse_expression(&"constant:1.5".to_string()), Some(MutateExpr::Constant(c)) if c == "1.5"));
    match parse_expression(&"div:a:b".to_string()) {
        Some(MutateExpr::Arithmetic(a, op, b)) => {
            assert_eq!(a, "a");
            assert!(op == ArithOp::Div);
            assert_eq!(b, "b");
        }
        _ => panic!("expected arithmetic"),
    }
    assert!(parse_expression(&"copy:a:b".to_string()).is_none());
    assert!(parse_expression(&"pow:a:b".to_string()).is_none());
    assert!(parse_expression(&"ADD:a:b".to_string()).is_none());
}

#[test]
fn mutate_command_reports_bad_expression() {
    let cmd = MungeCommands::Mutate { dataset: "d".into(), new_col: "z".into(), expr: "sqrt:x".into(), name: None };
    assert_eq!(
        munge_execute(&cmd, &held(&["d"])).err().unwrap(),
        "Invalid expression. Use: copy:COL, constant:VALUE, add:COL1:COL2, sub:COL1:COL2, mul:COL1:COL2, div:COL1:COL2"
    );
}

#[test]
fn aggregations_parse() {
    let a = parse_aggregation(&"sales:AVG".to_string()).ok().unwrap();
    assert_eq!(a.column, "sales");
    assert!(a.func == AggFn::Mean);
    assert_eq!(parse_aggregation(&"sales".to_string()).err().unwrap(), "Invalid aggregation format 'sales'. Use COLUMN:FUNCTION");
    assert_eq!(parse_aggregation(&"sales:mode".to_string()).err().unwrap(), "Unknown aggregation function 'mode'");
    let v = parse_aggregations(&names(&["a:sum", "b:Median", "c:last"])).ok().unwrap();
    assert_eq!(v.len(), 3);
    assert!(v[0].func == AggFn::Sum && v[1].func == AggFn::Median && v[2].func == AggFn::Last);
    assert_eq!(
        parse_aggregations(&names(&["a:sum", "b:Mode", "c"])).err().unwrap(),
        "Unknown aggregation function 'Mode'"
    );
}

#[test]
fn fill_and_bin_strategies() {
    assert!(matches!(fill_strategy(FillMethod::Constant, &None), FillStrategy::Constant(v) if v == "0"));
    assert!(matches!(fill_strategy(FillMethod::Constant, &Some("2.5".into())), FillStrategy::Constant(v) if v == "2.5"));
    assert!(matches!(fill_strategy(FillMethod::Forward, &None), FillStrategy::Forward));
    assert!(bin_strategy(BinMethod::Quantile, 4) == BinStrategy::Quantile(4));
    assert!(bin_strategy(BinMethod::EqualWidth, 10) == BinStrategy::EqualWidth(10));
}

#[test]
fn munge_messages() {
    assert_eq!(created_message("d_sorted", 100, 3), "Created dataset 'd_sorted' (100 rows x 3 columns)");
    let g = MungeCommands::GroupBy { dataset: "d".into(), by: vec![], aggs: vec![], name: None };
    assert_eq!(failure_text(&g, "no such column"), "Group by failed: no such column");
    let o = MungeCommands::OneHot { dataset: "d".into(), column: "c".into(), drop_first: true, name: None };
    assert_eq!(failure_text(&o, "x"), "One-hot encode failed: x");
}

#[test]
fn readers_by_extension() {
    assert!(choose_reader("CSV").unwrap() == FileFormat::Csv);
    assert!(choose_reader("xlsb").unwrap() == FileFormat::Excel);
    assert!(choose_reader("sas7bdat").unwrap() == FileFormat::Sas);
    assert_eq!(choose_reader("JSON").unwrap_err(), "Unsupported file format: json");
    assert_eq!(choose_reader("").unwrap_err(), "Unsupported file format: ");
}

#[test]
fn loaded_names() {
    assert_eq!(loaded_dataset_name(&Some("n".into()), &Some("file".into())), "n");
    assert_eq!(loaded_dataset_name(&None, &Some("file".into())), "file");
    assert_eq!(loaded_dataset_name(&None, &None), "dataset");
}

#[test]
fn listing_the_session() {
    assert!(matches!(data_execute(&DataCommands::List, &None),
        Ok(DataRequest::Notice { message }) if message == "No session active. Use --session <file> to enable dataset storage."));
    assert!(matches!(data_execute(&DataCommands::List, &held(&[])),
        Ok(DataRequest::Notice { message }) if message == "No datasets loaded"));
    assert!(matches!(data_execute(&DataCommands::List, &held(&["a", "b"])),
        Ok(DataRequest::List { names: n }) if n == vec!["a".to_string(), "b".to_string()]));
    assert_eq!(datasets_listing(&names(&["a", "b"])), "Loaded datasets:\n  - a\n  - b");
    assert_eq!(format_listing(&names(&["a"]), true), "{\n  \"datasets\": [\n    \"a\"\n  ]\n}");
}

#[test]
fn describe_and_head_need_dataset() {
    let d = DataCommands::Describe { dataset: "x".into() };
    assert_eq!(data_execute(&d, &None).err().unwrap(), "No session active. Use --session <file> to enable dataset storage.");
    assert_eq!(data_execute(&d, &held(&["y"])).err().unwrap(), "Dataset 'x' not found");
    let h = DataCommands::Head { dataset: "x".into(), n: 5 };
    assert!(matches!(data_execute(&h, &held(&["x"])), Ok(DataRequest::Head { dataset, n: 5 }) if dataset == "x"));
    let l = DataCommands::Load { path: "a/b.csv".into(), name: None };
    assert!(matches!(data_execute(&l, &None), Ok(DataRequest::Load { path, name: None }) if path == "a/b.csv"));
}

#[test]
fn generated_dataset_report() {
    assert_eq!(
        generated_report("gen", 100, 2, &names(&["x", "g"]), Some(7)),
        "Generated random dataset 'gen'\n  Rows: 100\n  Columns: 2\n  Column names: x, g\n  Seed: 7"
    );
    assert_eq!(
        generated_report("gen", 0, 0, &vec![], None),
        "Generated random dataset 'gen'\n  Rows: 0\n  Columns: 0\n  Column names: "
    );
    assert_eq!(check_generated_columns(0).unwrap_err(), "At least one column specification is required");
    assert!(check_generated_columns(2).is_ok());
}
