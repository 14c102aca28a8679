use p2a::causal::{
    parse_att_method, parse_bandwidth, parse_comparison_group, parse_distance, parse_dr_method,
    parse_estimand, parse_gsynth_estimator, parse_gsynth_force, parse_kernel, parse_match_method,
    parse_q_model, parse_se_method, parse_stdreg_estimand, parse_stdreg_model, parse_v_method,
    AttEstimationMethod, BandwidthMethod, ComparisonGroup, DRMethod, DistanceMethod, Estimand,
    GsynthEstimator, GsynthForce, KernelType, MatchKind, QModel, SEMethod, StdRegEstimand,
    StdRegModel, VOptimization,
};
use p2a::discrete::{execute as discrete_execute, parse_hurdle_dist, DiscreteCommands, DiscreteRequest, HurdleDist, OutcomeModel};
use p2a::panel::{
    execute as panel_execute, parse_glm_family, parse_gls_model, parse_pvcm_type, parse_unit_root_test,
    GlmFamily, PanelCommands, PanelGlsModel, PvcmType, UnitRootTest,
};
use p2a::regression::{
    choose_nls_model, nls_parameter_names, start_value_fields, CovarianceType, NlsModel, RobustSE,
};
use p2a::spatial::{
    check_columns, check_coordinate_lengths, check_coordinates, execute as spatial_execute,
    parse_moran_alternative, parse_weight_style, weights_failure_message, ColumnCheck, ColumnInfo,
    MoranAlternative, SpatialCommands, SpatialModel, SpatialRequest, WeightStyle,
};
use p2a::stats::{power_alternative_name, power_test_type_name, Alternative, PowerAlt, PowerTestType, TTestAlternative};
use p2a::survival::{parse_ties, TiesMethod};
use p2a::timeseries::{
    control_columns, parse_ar_method, parse_change_type, parse_decompose_type, parse_seasonal,
    parse_struct_ts_type, span_list, ArMethod, CostFunction, DecomposeType, SeasonalType, StructTsType,
};

fn names(v: &[&str]) -> Vec<String> {
    v.iter().map(|s| s.to_string()).collect()
}

fn held(v: &[&str]) -> Option<Vec<String>> {
    Some(names(v))
}

#[test]
fn causal_keywords_ignore_case_and_default() {
    assert!(parse_v_method("EQUAL") == VOptimization::Equal);
    assert!(parse_v_method("anything") == VOptimization::DataDriven);
    assert!(parse_estimand("ATT") == Estimand::ATT);
    assert!(parse_estimand("ate") == Estimand::ATE);
    assert!(parse_dr_method("IPW") == DRMethod::IPW);
    assert!(parse_dr_method("Regression") == DRMethod::Regression);
    assert!(parse_dr_method("aipw") == DRMethod::AIPW);
    assert!(parse_kernel("Uniform") == KernelType::Uniform);
    assert!(parse_kernel("epanechnikov") == KernelType::Epanechnikov);
    assert!(parse_kernel("triangular") == KernelType::Triangular);
    assert!(parse_bandwidth("MSETWO") == BandwidthMethod::MseTwo);
    assert!(parse_bandwidth("cerrd") == BandwidthMethod::CerRd);
    assert!(parse_bandwidth("") == BandwidthMethod::MseRd);
}

#[test]
fn staggered_and_tmle_keywords() {
    assert!(parse_comparison_group("nyt") == ComparisonGroup::NotYetTreated);
    assert!(parse_comparison_group("NotYet") == ComparisonGroup::NotYetTreated);
    assert!(parse_comparison_group("never") == ComparisonGroup::NeverTreated);
    assert!(parse_att_method("AIPW") == AttEstimationMethod::DoublyRobust);
    assert!(parse_att_method("ipw") == AttEstimationMethod::IPW);
    assert!(parse_att_method("reg") == AttEstimationMethod::OutcomeRegression);
    assert!(parse_q_model("Linear") == QModel::Linear);
    assert!(parse_q_model("logistic") == QModel::Logistic);
}

#[test]
fn gsynth_and_matching_keywords() {
    assert!(parse_gsynth_force("UNIT") == GsynthForce::Unit);
    assert!(parse_gsynth_force("time") == GsynthForce::Time);
    assert!(parse_gsynth_force("none") == GsynthForce::Neither);
    assert!(parse_gsynth_force("two-way") == GsynthForce::TwoWay);
    assert!(parse_gsynth_estimator("MC") == GsynthEstimator::MatrixCompletion);
    assert!(parse_gsynth_estimator("ife") == GsynthEstimator::Ife);
    assert!(parse_match_method("CEM") == MatchKind::CoarsenedExact);
    assert!(parse_match_method("optimal") == MatchKind::Full);
    assert!(parse_match_method("stratification") == MatchKind::Subclass);
    assert!(parse_match_method("nearest") == MatchKind::NearestNeighbor);
    assert!(parse_distance("Mahalanobis") == DistanceMethod::Mahalanobis);
    assert!(parse_distance("probit") == DistanceMethod::Probit);
    assert!(parse_distance("euclidean") == DistanceMethod::Euclidean);
    assert!(parse_distance("glm") == DistanceMethod::Logit);
}

#[test]
fn stdreg_keywords() {
    assert!(parse_stdreg_model("logit") == StdRegModel::Logistic);
    assert!(parse_stdreg_model("Poisson") == StdRegModel::Poisson);
    assert!(parse_stdreg_model("ols") == StdRegModel::Linear);
    assert!(parse_stdreg_estimand("ATC") == StdRegEstimand::ATC);
    assert!(parse_stdreg_estimand("levels") == StdRegEstimand::Levels);
    assert!(parse_stdreg_estimand("att") == StdRegEstimand::ATT);
    assert!(parse_stdreg_estimand("x") == StdRegEstimand::ATE);
    assert!(parse_se_method("Robust") == SEMethod::Sandwich);
    assert!(parse_se_method("delta") == SEMethod::Delta);
    assert!(parse_se_method("boot") == SEMethod::Bootstrap);
}

#[test]
fn time_series_and_survival_keywords() {
    assert!(parse_change_type("Variance") == CostFunction::VarianceChange);
    assert!(parse_change_type("both") == CostFunction::MeanAndVariance);
    assert!(parse_change_type("mean") == CostFunction::MeanChange);
    assert!(parse_seasonal("MULT") == SeasonalType::Multiplicative);
    assert!(parse_seasonal("additive") == SeasonalType::Additive);
    assert!(parse_ar_method("Burg") == ArMethod::Burg);
    assert!(parse_ar_method("ols") == ArMethod::Ols);
    assert!(parse_ar_method("yw") == ArMethod::YuleWalker);
    assert!(parse_decompose_type("multiplicative") == DecomposeType::Multiplicative);
    assert!(parse_decompose_type("x") == DecomposeType::Additive);
    assert!(parse_struct_ts_type("BSM") == StructTsType::BSM);
    assert!(parse_struct_ts_type("trend") == StructTsType::Trend);
    assert!(parse_struct_ts_type("level") == StructTsType::Level);
    assert!(parse_ties("Efron") == TiesMethod::Efron);
    assert!(parse_ties("breslow") == TiesMethod::Breslow);
}

#[test]
fn control_columns_are_split_and_trimmed() {
    let r = control_columns(&Some("x1, x2 ,x3".to_string())).unwrap();
    assert_eq!(r, names(&["x1", "x2", "x3"]));
    assert!(control_columns(&None).is_none());
    assert_eq!(control_columns(&Some(String::new())).unwrap(), names(&[""]));
}

#[test]
fn spans_skip_non_numbers() {
    assert_eq!(span_list(&Some("3, 5,x,+7, -1, 18446744073709551616".to_string())).unwrap(), vec![3, 5, 7]);
    assert!(span_list(&None).is_none());
    assert_eq!(span_list(&Some("".to_string())).unwrap(), Vec::<usize>::new());
}

#[test]
fn stats_options() {
    assert!(Alternative::from(TTestAlternative::Less) == Alternative::Less);
    assert!(Alternative::from(TTestAlternative::TwoSided) == Alternative::TwoSided);
    assert!(Alternative::from(TTestAlternative::Greater) == Alternative::Greater);
    assert_eq!(power_test_type_name(PowerTestType::OneSample), "one.sample");
    assert_eq!(power_test_type_name(PowerTestType::TwoSample), "two.sample");
    assert_eq!(power_test_type_name(PowerTestType::Paired), "paired");
    assert_eq!(power_alternative_name(PowerAlt::TwoSided), "two.sided");
    assert_eq!(power_alternative_name(PowerAlt::OneSided), "one.sided");
}

#[test]
fn robust_errors_select_covariance() {
    assert!(CovarianceType::from(RobustSE::HC1) == CovarianceType::HC1);
    assert!(CovarianceType::from(RobustSE::Standard) == CovarianceType::Standard);
}

#[test]
fn nls_model_choice() {
    assert!(choose_nls_model("MM", 2).unwrap() == NlsModel::MichaelisMenten);
    assert!(choose_nls_model("logistic", 3).unwrap() == NlsModel::LogisticGrowth);
    assert!(choose_nls_model("asymptotic", 3).unwrap() == NlsModel::Asymptotic);
    assert_eq!(
        choose_nls_model("power", 0).unwrap_err(),
        "Invalid starting values. Use comma-separated numbers."
    );
    assert_eq!(
        choose_nls_model("Cubic", 2).unwrap_err(),
        "Unknown model: Cubic. Options: exponential_decay, exponential_growth, michaelis_menten, logistic_growth, power, asymptotic"
    );
    assert_eq!(
        choose_nls_model("exp_decay", 3).unwrap_err(),
        "exponential_decay requires 2 starting values: a, b (y = a * exp(-b * x))"
    );
    assert_eq!(
        choose_nls_model("logistic_growth", 2).unwrap_err(),
        "logistic_growth requires 3 starting values: K, r, x0 (y = K / (1 + exp(-r * (x - x0))))"
    );
}

#[test]
fn nls_parameters_and_start_fields() {
    assert_eq!(nls_parameter_names(NlsModel::MichaelisMenten), names(&["Vmax", "Km"]));
    assert_eq!(nls_parameter_names(NlsModel::Asymptotic), names(&["a", "b", "c"]));
    assert_eq!(start_value_fields(" 1.5, 2 ,x"), names(&["1.5", "2", "x"]));
}

#[test]
fn discrete_needs_session_and_dataset() {
    let cmd = DiscreteCommands::Logit { dataset: "d".into(), dep_var: "y".into(), indep_vars: names(&["x"]) };
    let e = discrete_execute(&cmd, &None).err().unwrap();
    assert_eq!(e, "No session active. Use --session <file> to enable dataset storage.");
    let e = discrete_execute(&cmd, &held(&["other"])).err().unwrap();
    assert_eq!(e, "Dataset 'd' not found");
    let cmd2 = DiscreteCommands::Poisson { dataset: "d".into(), dep_var: "y".into(), indep_vars: vec![] };
    assert_eq!(discrete_execute(&cmd2, &None).err().unwrap(), "No session active. Use --session <file>.");
}

#[test]
fn discrete_request_carries_model() {
    let cmd = DiscreteCommands::Probit { dataset: "d".into(), dep_var: "y".into(), indep_vars: names(&["x1", "x2"]) };
    match discrete_execute(&cmd, &held(&["d"])) {
        Ok(DiscreteRequest::Outcome { model, dataset, dep_var, indep_vars }) => {
            assert!(model == OutcomeModel::Probit);
            assert_eq!(dataset, "d");
            assert_eq!(dep_var, "y");
            assert_eq!(indep_vars, names(&["x1", "x2"]));
        }
        _ => panic!("expected an outcome model"),
    }
    assert!(parse_hurdle_dist("NB") == HurdleDist::NegBin);
    assert!(parse_hurdle_dist("poisson") == HurdleDist::Poisson);
}

#[test]
fn mixed_logit_uses_all_regressors_when_none_random() {
    let cmd = DiscreteCommands::MixedLogit {
        dataset: "d".into(),
        choice_id: "id".into(),
        alt_id: "alt".into(),
        choice: "c".into(),
        indep_vars: names(&["p", "q"]),
        random_vars: None,
        n_draws: 50,
    };
    match discrete_execute(&cmd, &held(&["d"])) {
        Ok(DiscreteRequest::MixedLogit { random_vars, settings, .. }) => {
            assert_eq!(random_vars, names(&["p", "q"]));
            assert_eq!(settings.n_draws, 50);
            assert!(settings.halton);
            assert_eq!(settings.max_iter, 200);
            assert_eq!(settings.seed, 42);
        }
        _ => panic!("expected a mixed logit"),
    }
}

#[test]
fn panel_keywords() {
    assert!(parse_glm_family("Poisson") == GlmFamily::Poisson);
    assert!(parse_glm_family("x") == GlmFamily::Logit);
    assert!(parse_pvcm_type("RANDOM") == PvcmType::Random);
    assert!(parse_pvcm_type("within") == PvcmType::Within);
    assert!(parse_gls_model("fd") == PanelGlsModel::FirstDifference);
    assert!(parse_gls_model("pooling") == PanelGlsModel::Pooling);
    assert!(parse_gls_model("fe") == PanelGlsModel::FixedEffects);
    assert!(parse_unit_root_test("IPS") == UnitRootTest::IPS);
    assert!(parse_unit_root_test("llc") == UnitRootTest::LLC);
}

#[test]
fn panel_needs_session_and_dataset() {
    let fe = PanelCommands::Fe { dataset: "p".into(), dep_var: "y".into(), indep_vars: vec![], entity: "id".into() };
    assert_eq!(panel_execute(&fe, &None).err().unwrap(), "No session active. Use --session <file> to enable dataset storage.");
    let gmm = PanelCommands::Gmm { dataset: "p".into(), dep_var: "y".into(), indep_vars: vec![], entity: "id".into(), time: "t".into() };
    assert_eq!(panel_execute(&gmm, &None).err().unwrap(), "No session active. Use --session <file>.");
    assert_eq!(panel_execute(&gmm, &held(&[])).err().unwrap(), "Dataset 'p' not found");
    assert!(panel_execute(&gmm, &held(&["p"])).is_ok());
}

#[test]
fn spatial_requests() {
    assert!(parse_weight_style("B") == WeightStyle::Binary);
    assert!(parse_weight_style("mm") == WeightStyle::MinMax);
    assert!(parse_weight_style("W") == WeightStyle::RowStd);
    assert!(parse_moran_alternative("greater") == MoranAlternative::Greater);
    assert!(parse_moran_alternative("two.sided") == MoranAlternative::TwoSided);
    let sar = SpatialCommands::Sar {
        dataset: "geo".into(),
        dep_var: "y".into(),
        indep_vars: names(&["x"]),
        coord_x: "lon".into(),
        coord_y: "lat".into(),
        k_neighbors: 5,
        weight_style: "binary".into(),
        durbin: true,
        impacts: false,
    };
    assert_eq!(spatial_execute(&sar, &None).err().unwrap(), "No session active. Use --session <file> to enable dataset storage.");
    match spatial_execute(&sar, &held(&["geo"])) {
        Ok(SpatialRequest::Regression { model, weights, .. }) => {
            assert!(model == SpatialModel::Sar { durbin: true, impacts: false });
            assert_eq!(weights.k, 5);
            assert!(weights.style == WeightStyle::Binary);
            assert_eq!(weights.coord_x, "lon");
        }
        _ => panic!("expected a regression"),
    }
    assert!(check_coordinate_lengths(3, 3).is_ok());
    assert_eq!(check_coordinate_lengths(3, 4).unwrap_err(), "Coordinate columns have different lengths");
}

fn geo_columns() -> Vec<ColumnInfo> {
    vec![
        ColumnInfo { name: "lat".into(), is_float: true },
        ColumnInfo { name: "lon".into(), is_float: true },
        ColumnInfo { name: "region".into(), is_float: false },
        ColumnInfo { name: "price".into(), is_float: true },
    ]
}

fn moran(variable: &str, coord_x: &str) -> SpatialCommands {
    SpatialCommands::Moran {
        dataset: "geo".into(),
        variable: variable.into(),
        coord_x: coord_x.into(),
        coord_y: "lat".into(),
        k_neighbors: 5,
        weight_style: "W".into(),
        alternative: "greater".into(),
    }
}

#[test]
fn spatial_column_checks() {
    let cols = geo_columns();
    assert!(check_coordinates(&cols, &"lon".to_string(), &"lat".to_string()).is_ok());
    assert_eq!(check_coordinates(&cols, &"x".to_string(), &"y".to_string()).unwrap_err(), "Column 'x' not found");
    assert_eq!(check_coordinates(&cols, &"lon".to_string(), &"y".to_string()).unwrap_err(), "Column 'y' not found");
    assert_eq!(check_coordinates(&cols, &"region".to_string(), &"y".to_string()).unwrap_err(), "Column 'y' not found");
    assert_eq!(check_coordinates(&cols, &"region".to_string(), &"lat".to_string()).unwrap_err(), "Column 'region' must be numeric");
    assert_eq!(weights_failure_message("Column 'lon' not found"), "Failed to build spatial weights: Column 'lon' not found");
}

#[test]
fn moran_variable_missing_fails_unprinted() {
    let cols = geo_columns();
    match check_columns(&moran("v", "lon"), &cols) {
        ColumnCheck::Fail(m) => assert_eq!(m, "Column 'v' not found"),
        _ => panic!("expected a failure"),
    }
    match check_columns(&moran("region", "lon"), &cols) {
        ColumnCheck::Fail(m) => assert_eq!(m, "Column 'region' must be numeric"),
        _ => panic!("expected a failure"),
    }
    assert!(matches!(check_columns(&moran("price", "lon"), &cols), ColumnCheck::Proceed));
    match check_columns(&moran("v", "east"), &cols) {
        ColumnCheck::Report(m) => assert_eq!(m, "Failed to build spatial weights: Column 'east' not found"),
        _ => panic!("expected a report"),
    }
}

#[test]
fn sar_weights_failure_is_reported() {
    let cols = vec![ColumnInfo { name: "lat".into(), is_float: true }];
    let sar = SpatialCommands::Sar {
        dataset: "geo".into(),
        dep_var: "y".into(),
        indep_vars: names(&["x"]),
        coord_x: "lon".into(),
        coord_y: "lat".into(),
        k_neighbors: 5,
        weight_style: "W".into(),
        durbin: false,
        impacts: true,
    };
    match check_columns(&sar, &cols) {
        ColumnCheck::Report(m) => assert_eq!(m, "Failed to build spatial weights: Column 'lon' not found"),
        _ => panic!("expected a report"),
    }
    assert!(matches!(check_columns(&sar, &geo_columns()), ColumnCheck::Proceed));
}
