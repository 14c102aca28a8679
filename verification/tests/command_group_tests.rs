use p2a::causal::{
    execute as causal_execute, BandwidthMethod, CausalCommands, CausalPlan, GsynthEstimator,
    GsynthForce, KernelType,
};
use p2a::cli::{Cli, Commands};
use p2a::common::Real;
use p2a::ml::{execute as ml_execute, MlCommands};
use p2a::output::OutputFormat;
use p2a::regression::{execute as regression_execute, RegressionCommands, RobustSE};
use p2a::stats::{execute as stats_execute, PowerAlt, PowerTestType, StatsCommands, TTestAlternative};
use p2a::survival::{execute as survival_execute, ties_of_command, SurvivalCommands, TiesMethod};
use p2a::timeseries::{execute as ts_execute, plan as ts_plan, CostFunction, TimeseriesCommands, TimeseriesPlan};
use p2a::viz::{execute as viz_execute, linkage_of_command, Linkage, VizCommands};

fn names(v: &[&str]) -> Vec<String> {
    v.iter().map(|s| s.to_string()).collect()
}

fn held(v: &[&str]) -> Option<Vec<String>> {
    Some(names(v))
}

fn float_bits(x: f64) -> Real {
    Real { bits: x.to_bits() }
}

#[test]
fn real_carries_the_float_unchanged() {
    assert_eq!(f64::from_bits(float_bits(0.05).bits), 0.05);
    assert_eq!(f64::from_bits(float_bits(-1.5e300).bits), -1.5e300);
}

#[test]
fn causal_session_wording_and_dataset() {
    let iv = CausalCommands::Iv {
        dataset: "d".into(),
        dep_var: "y".into(),
        exog: vec![],
        endog: names(&["x"]),
        instruments: names(&["z"]),
    };
    assert_eq!(causal_execute(&iv, &None).err().unwrap(), "No session active. Use --session <file> to enable dataset storage.");
    let rd = CausalCommands::Rd {
        dataset: "d".into(),
        outcome: "y".into(),
        running: "r".into(),
        cutoff: float_bits(0.0),
        poly_order: 1,
        kernel: "Uniform".into(),
        bwselect: "CERRD".into(),
    };
    assert_eq!(causal_execute(&rd, &None).err().unwrap(), "No session active. Use --session <file>.");
    assert_eq!(causal_execute(&rd, &held(&["e"])).err().unwrap(), "Dataset 'd' not found");
    match causal_execute(&rd, &held(&["d"])) {
        Ok(CausalPlan::Rd { kernel, bandwidth }) => {
            assert!(kernel == KernelType::Uniform);
            assert!(bandwidth == BandwidthMethod::CerRd);
        }
        _ => panic!("expected a regression discontinuity plan"),
    }
}

#[test]
fn causal_lists_left_out_when_empty() {
    let did = CausalCommands::Did { dataset: "d".into(), outcome: "y".into(), treat: "t".into(), post: "p".into(), controls: vec![] };
    assert!(matches!(causal_execute(&did, &held(&["d"])), Ok(CausalPlan::Did { controls: None })));
    let did = CausalCommands::Did { dataset: "d".into(), outcome: "y".into(), treat: "t".into(), post: "p".into(), controls: names(&["x"]) };
    assert!(matches!(causal_execute(&did, &held(&["d"])), Ok(CausalPlan::Did { controls: Some(c) }) if c == names(&["x"])));
}

#[test]
fn gsynth_cross_validates_without_factor_count() {
    let g = |n: usize| CausalCommands::Gsynth {
        dataset: "d".into(),
        outcome: "y".into(),
        treatment: "t".into(),
        unit: "u".into(),
        time: "tm".into(),
        covariates: vec![],
        n_factors: n,
        force: "unit".into(),
        estimator: "mc".into(),
        bootstrap_se: false,
        n_bootstrap: 200,
    };
    match causal_execute(&g(0), &held(&["d"])) {
        Ok(CausalPlan::Gsynth { force, estimator, cross_validate }) => {
            assert!(force == GsynthForce::Unit);
            assert!(estimator == GsynthEstimator::MatrixCompletion);
            assert!(cross_validate);
        }
        _ => panic!("expected gsynth"),
    }
    assert!(matches!(causal_execute(&g(3), &held(&["d"])), Ok(CausalPlan::Gsynth { cross_validate: false, .. })));
}

#[test]
fn regression_checks() {
    let ols = RegressionCommands::Ols { dataset: "d".into(), dep_var: "y".into(), indep_vars: names(&["x"]), intercept: true, robust: RobustSE::HC1 };
    assert_eq!(regression_execute(&ols, &None).unwrap_err(), "No session active. Use --session <file> to enable dataset storage.");
    assert!(regression_execute(&ols, &held(&["d"])).is_ok());
    let nls = RegressionCommands::Nls { dataset: "d".into(), dep_var: "y".into(), indep_var: "x".into(), model: "mm".into(), start: "1,2".into() };
    assert_eq!(regression_execute(&nls, &None).unwrap_err(), "No session active. Use --session <file>.");
    assert_eq!(regression_execute(&nls, &held(&[])).unwrap_err(), "Dataset 'd' not found");
}

#[test]
fn stats_checks() {
    let t = StatsCommands::TTestOne { dataset: "d".into(), col: "x".into(), mu: float_bits(0.0), alternative: TTestAlternative::Less, conf_level: float_bits(0.95) };
    assert_eq!(stats_execute(&t, &None).unwrap_err(), "No session active. Use --session <file>.");
    assert!(stats_execute(&t, &held(&["d"])).is_ok());
    let p = StatsCommands::PowerT {
        n: None,
        delta: Some(float_bits(0.5)),
        sd: float_bits(1.0),
        sig_level: float_bits(0.05),
        power: Some(float_bits(0.8)),
        test_type: PowerTestType::TwoSample,
        alternative: PowerAlt::TwoSided,
    };
    assert!(stats_execute(&p, &None).is_ok());
}

#[test]
fn time_series_checks_and_plans() {
    let cp = TimeseriesCommands::Changepoint { dataset: "d".into(), col: "x".into(), penalty: None, min_segment: None, change_type: "BOTH".into() };
    assert_eq!(ts_execute(&cp, &held(&["z"])).unwrap_err(), "Dataset 'd' not found");
    assert!(matches!(ts_plan(&cp), TimeseriesPlan::Changepoint { cost: CostFunction::MeanAndVariance }));
    let sp = TimeseriesCommands::Spectrum { dataset: "d".into(), col: "x".into(), spans: Some("3,5".into()), taper: float_bits(0.1), detrend: true };
    assert!(matches!(ts_plan(&sp), TimeseriesPlan::Spectrum { spans: Some(v) } if v == vec![3, 5]));
    let ci = TimeseriesCommands::CausalImpact {
        dataset: "d".into(),
        response: "y".into(),
        time: "t".into(),
        pre_start: 0,
        pre_end: 10,
        post_start: 11,
        post_end: 20,
        controls: None,
    };
    assert!(matches!(ts_plan(&ci), TimeseriesPlan::CausalImpact { controls: None }));
}

#[test]
fn survival_checks() {
    let cox = SurvivalCommands::Cox { dataset: "d".into(), time: "t".into(), event: "e".into(), covariates: vec![], ties: "EFRON".into(), robust: false };
    assert!(ties_of_command(&cox) == Some(TiesMethod::Efron));
    assert_eq!(survival_execute(&cox, &None).unwrap_err(), "No session active. Use --session <file> to enable dataset storage.");
    let lr = SurvivalCommands::LogRank { dataset: "d".into(), time: "t".into(), event: "e".into(), group: "g".into() };
    assert!(ties_of_command(&lr).is_none());
}

#[test]
fn ml_and_viz_checks() {
    let km = MlCommands::Kmeans { dataset: "d".into(), cols: names(&["a"]), k: 3, seed: None, max_iter: 300 };
    assert_eq!(ml_execute(&km, &None).unwrap_err(), "No session active. Use --session <file> to enable dataset storage.");
    assert!(ml_execute(&km, &held(&["d"])).is_ok());
    let den = VizCommands::Dendrogram { dataset: "d".into(), cols: names(&["a"]), linkage: "Complete".into(), output: "o.png".into(), title: None };
    assert!(linkage_of_command(&den) == Some(Linkage::Complete));
    assert_eq!(viz_execute(&den, &None).unwrap_err(), "No session active. Use --session <file>.");
    let hist = VizCommands::Histogram { dataset: "d".into(), col: "x".into(), output: "h.png".into(), bins: 10, title: None };
    assert_eq!(viz_execute(&hist, &None).unwrap_err(), "No session active. Use --session <file> to enable dataset storage.");
}

#[test]
fn command_line_holds_a_command_group() {
    let cli = Cli { format: OutputFormat::Json, session: Some("s.json".into()), quiet: false, command: Commands::SmokeTest };
    assert!(cli.format == OutputFormat::Json);
    assert!(matches!(cli.command, Commands::SmokeTest));
}
