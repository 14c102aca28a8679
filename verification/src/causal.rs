//! Causal inference options: the keywords each method accepts.

use vstd::prelude::*;
use crate::common::{
    clone_strings, held_view, holds, lowered, no_session_text, not_found_text, option_is,
    require_dataset, Real, SessionHint,
};
use crate::text::{all_ascii, ascii_lowercase, lowercase};

verus! {

/// How the predictor weights of a synthetic control are chosen.
#[derive(Clone, Copy, Debug, PartialEq, Eq, Structural)]
pub enum VOptimization {
    Equal,
    DataDriven,
}

/// The weighting method that a lower-cased option word selects; any other word
/// selects `DataDriven`.
pub open spec fn v_optimization_of(w: Seq<char>) -> VOptimization {
    if w == "equal"@ {
        VOptimization::Equal
    } else {
        VOptimization::DataDriven
    }
}

/// Reads the weighting method option, without regard to case.
pub fn parse_v_method(option: &str) -> (r: VOptimization)
    ensures
        r == v_optimization_of(lowercase(option@)),
        all_ascii(option@) ==> r == v_optimization_of(ascii_lowercase(option@)),
{
    let w = lowered(option);
    if option_is(&w, "equal") {
        VOptimization::Equal
    } else {
        VOptimization::DataDriven
    }
}

/// The causal effect that a weighting estimator targets.
#[derive(Clone, Copy, Debug, PartialEq, Eq, Structural)]
pub enum Estimand {
    ATE,
    ATT,
}

/// The estimand that a lower-cased option word selects; any other word
/// selects `ATE`.
pub open spec fn estimand_of(w: Seq<char>) -> Estimand {
    if w == "att"@ {
        Estimand::ATT
    } else {
        Estimand::ATE
    }
}

/// Reads the estimand option, without regard to case.
pub fn parse_estimand(option: &str) -> (r: Estimand)
    ensures
        r == estimand_of(lowercase(option@)),
        all_ascii(option@) ==> r == estimand_of(ascii_lowercase(option@)),
{
    let w = lowered(option);
    if option_is(&w, "att") {
        Estimand::ATT
    } else {
        Estimand::ATE
    }
}

/// The doubly robust estimator.
#[derive(Clone, Copy, Debug, PartialEq, Eq, Structural)]
pub enum DRMethod {
    AIPW,
    IPW,
    Regression,
}

/// The doubly robust method that a lower-cased option word selects; any other word
/// selects `AIPW`.
pub open spec fn dr_method_of(w: Seq<char>) -> DRMethod {
    if w == "ipw"@ {
        DRMethod::IPW
    } else if w == "regression"@ {
        DRMethod::Regression
    } else {
        DRMethod::AIPW
    }
}

/// Reads the doubly robust method option, without regard to case.
pub fn parse_dr_method(option: &str) -> (r: DRMethod)
    ensures
        r == dr_method_of(lowercase(option@)),
        all_ascii(option@) ==> r == dr_method_of(ascii_lowercase(option@)),
{
    let w = lowered(option);
    if option_is(&w, "ipw") {
        DRMethod::IPW
    } else if option_is(&w, "regression") {
        DRMethod::Regression
    } else {
        DRMethod::AIPW
    }
}

/// The kernel of a regression discontinuity fit.
#[derive(Clone, Copy, Debug, PartialEq, Eq, Structural)]
pub enum KernelType {
    Triangular,
    Uniform,
    Epanechnikov,
}

/// The kernel that a lower-cased option word selects; any other word
/// selects `Triangular`.
pub open spec fn kernel_of(w: Seq<char>) -> KernelType {
    if w == "uniform"@ {
        KernelType::Uniform
    } else if w == "epanechnikov"@ {
        KernelType::Epanechnikov
    } else {
        KernelType::Triangular
    }
}

/// Reads the kernel option, without regard to case.
pub fn parse_kernel(option: &str) -> (r: KernelType)
    ensures
        r == kernel_of(lowercase(option@)),
        all_ascii(option@) ==> r == kernel_of(ascii_lowercase(option@)),
{
    let w = lowered(option);
    if option_is(&w, "uniform") {
        KernelType::Uniform
    } else if option_is(&w, "epanechnikov") {
        KernelType::Epanechnikov
    } else {
        KernelType::Triangular
    }
}

/// How a regression discontinuity bandwidth is selected.
#[derive(Clone, Copy, Debug, PartialEq, Eq, Structural)]
pub enum BandwidthMethod {
    MseRd,
    MseTwo,
    CerRd,
}

/// The bandwidth selector that a lower-cased option word selects; any other word
/// selects `MseRd`.
pub open spec fn bandwidth_of(w: Seq<char>) -> BandwidthMethod {
    if w == "msetwo"@ {
        BandwidthMethod::MseTwo
    } else if w == "cerrd"@ {
        BandwidthMethod::CerRd
    } else {
        BandwidthMethod::MseRd
    }
}

/// Reads the bandwidth selector option, without regard to case.
pub fn parse_bandwidth(option: &str) -> (r: BandwidthMethod)
    ensures
        r == bandwidth_of(lowercase(option@)),
        all_ascii(option@) ==> r == bandwidth_of(ascii_lowercase(option@)),
{
    let w = lowered(option);
    if option_is(&w, "msetwo") {
        BandwidthMethod::MseTwo
    } else if option_is(&w, "cerrd") {
        BandwidthMethod::CerRd
    } else {
        BandwidthMethod::MseRd
    }
}

/// The units that treated cohorts are compared with.
#[derive(Clone, Copy, Debug, PartialEq, Eq, Structural)]
pub enum ComparisonGroup {
    NeverTreated,
    NotYetTreated,
}

/// The comparison group that a lower-cased option word selects; any other word
/// selects `NeverTreated`.
pub open spec fn comparison_group_of(w: Seq<char>) -> ComparisonGroup {
    if w == "notyettreated"@ || w == "notyet"@ || w == "nyt"@ {
        ComparisonGroup::NotYetTreated
    } else {
        ComparisonGroup::NeverTreated
    }
}

/// Reads the comparison group option, without regard to case.
pub fn parse_comparison_group(option: &str) -> (r: ComparisonGroup)
    ensures
        r == comparison_group_of(lowercase(option@)),
        all_ascii(option@) ==> r == comparison_group_of(ascii_lowercase(option@)),
{
    let w = lowered(option);
    if option_is(&w, "notyettreated") || option_is(&w, "notyet") || option_is(&w, "nyt") {
        ComparisonGroup::NotYetTreated
    } else {
        ComparisonGroup::NeverTreated
    }
}

/// How group-time effects of a staggered design are estimated.
#[derive(Clone, Copy, Debug, PartialEq, Eq, Structural)]
pub enum AttEstimationMethod {
    OutcomeRegression,
    IPW,
    DoublyRobust,
}

/// The estimation method that a lower-cased option word selects; any other word
/// selects `OutcomeRegression`.
pub open spec fn att_method_of(w: Seq<char>) -> AttEstimationMethod {
    if w == "ipw"@ {
        AttEstimationMethod::IPW
    } else if w == "dr"@ || w == "doublyrobust"@ || w == "aipw"@ {
        AttEstimationMethod::DoublyRobust
    } else {
        AttEstimationMethod::OutcomeRegression
    }
}

/// Reads the estimation method option, without regard to case.
pub fn parse_att_method(option: &str) -> (r: AttEstimationMethod)
    ensures
        r == att_method_of(lowercase(option@)),
        all_ascii(option@) ==> r == att_method_of(ascii_lowercase(option@)),
{
    let w = lowered(option);
    if option_is(&w, "ipw") {
        AttEstimationMethod::IPW
    } else if option_is(&w, "dr") || option_is(&w, "doublyrobust") || option_is(&w, "aipw") {
        AttEstimationMethod::DoublyRobust
    } else {
        AttEstimationMethod::OutcomeRegression
    }
}

/// The outcome model of targeted maximum likelihood estimation.
#[derive(Clone, Copy, Debug, PartialEq, Eq, Structural)]
pub enum QModel {
    Logistic,
    Linear,
}

/// The outcome model that a lower-cased option word selects; any other word
/// selects `Logistic`.
pub open spec fn q_model_of(w: Seq<char>) -> QModel {
    if w == "linear"@ {
        QModel::Linear
    } else {
        QModel::Logistic
    }
}

/// Reads the outcome model option, without regard to case.
pub fn parse_q_model(option: &str) -> (r: QModel)
    ensures
        r == q_model_of(lowercase(option@)),
        all_ascii(option@) ==> r == q_model_of(ascii_lowercase(option@)),
{
    let w = lowered(option);
    if option_is(&w, "linear") {
        QModel::Linear
    } else {
        QModel::Logistic
    }
}

/// The fixed effects of a generalized synthetic control.
#[derive(Clone, Copy, Debug, PartialEq, Eq, Structural)]
pub enum GsynthForce {
    TwoWay,
    Unit,
    Time,
    Neither,
}

/// The fixed effects that a lower-cased option word selects; any other word
/// selects `TwoWay`.
pub open spec fn gsynth_force_of(w: Seq<char>) -> GsynthForce {
    if w == "unit"@ {
        GsynthForce::Unit
    } else if w == "time"@ {
        GsynthForce::Time
    } else if w == "none"@ {
        GsynthForce::Neither
    } else {
        GsynthForce::TwoWay
    }
}

/// Reads the fixed effects option, without regard to case.
pub fn parse_gsynth_force(option: &str) -> (r: GsynthForce)
    ensures
        r == gsynth_force_of(lowercase(option@)),
        all_ascii(option@) ==> r == gsynth_force_of(ascii_lowercase(option@)),
{
    let w = lowered(option);
    if option_is(&w, "unit") {
        GsynthForce::Unit
    } else if option_is(&w, "time") {
        GsynthForce::Time
    } else if option_is(&w, "none") {
        GsynthForce::Neither
    } else {
        GsynthForce::TwoWay
    }
}

/// The estimator of a generalized synthetic control.
#[derive(Clone, Copy, Debug, PartialEq, Eq, Structural)]
pub enum GsynthEstimator {
    Ife,
    MatrixCompletion,
}

/// The estimator that a lower-cased option word selects; any other word
/// selects `Ife`.
pub open spec fn gsynth_estimator_of(w: Seq<char>) -> GsynthEstimator {
    if w == "mc"@ || w == "matrixcompletion"@ {
        GsynthEstimator::MatrixCompletion
    } else {
        GsynthEstimator::Ife
    }
}

/// Reads the estimator option, without regard to case.
pub fn parse_gsynth_estimator(option: &str) -> (r: GsynthEstimator)
    ensures
        r == gsynth_estimator_of(lowercase(option@)),
        all_ascii(option@) ==> r == gsynth_estimator_of(ascii_lowercase(option@)),
{
    let w = lowered(option);
    if option_is(&w, "mc") || option_is(&w, "matrixcompletion") {
        GsynthEstimator::MatrixCompletion
    } else {
        GsynthEstimator::Ife
    }
}

/// The matching procedure; its tuning values come with the command.
#[derive(Clone, Copy, Debug, PartialEq, Eq, Structural)]
pub enum MatchKind {
    NearestNeighbor,
    CoarsenedExact,
    Full,
    Subclass,
}

/// The matching method that a lower-cased option word selects; any other word
/// selects `NearestNeighbor`.
pub open spec fn match_kind_of(w: Seq<char>) -> MatchKind {
    if w == "cem"@ || w == "coarsened"@ || w == "coarsenedexact"@ {
        MatchKind::CoarsenedExact
    } else if w == "full"@ || w == "optimal"@ {
        MatchKind::Full
    } else if w == "subclass"@ || w == "stratification"@ {
        MatchKind::Subclass
    } else {
        MatchKind::NearestNeighbor
    }
}

/// Reads the matching method option, without regard to case.
pub fn parse_match_method(option: &str) -> (r: MatchKind)
    ensures
        r == match_kind_of(lowercase(option@)),
        all_ascii(option@) ==> r == match_kind_of(ascii_lowercase(option@)),
{
    let w = lowered(option);
    if option_is(&w, "cem") || option_is(&w, "coarsened") || option_is(&w, "coarsenedexact") {
        MatchKind::CoarsenedExact
    } else if option_is(&w, "full") || option_is(&w, "optimal") {
        MatchKind::Full
    } else if option_is(&w, "subclass") || option_is(&w, "stratification") {
        MatchKind::Subclass
    } else {
        MatchKind::NearestNeighbor
    }
}

/// How the distance between units is measured for matching.
#[derive(Clone, Copy, Debug, PartialEq, Eq, Structural)]
pub enum DistanceMethod {
    Logit,
    Probit,
    Mahalanobis,
    Euclidean,
}

/// The distance that a lower-cased option word selects; any other word
/// selects `Logit`.
pub open spec fn distance_of(w: Seq<char>) -> DistanceMethod {
    if w == "probit"@ {
        DistanceMethod::Probit
    } else if w == "mahalanobis"@ {
        DistanceMethod::Mahalanobis
    } else if w == "euclidean"@ {
        DistanceMethod::Euclidean
    } else {
        DistanceMethod::Logit
    }
}

/// Reads the distance option, without regard to case.
pub fn parse_distance(option: &str) -> (r: DistanceMethod)
    ensures
        r == distance_of(lowercase(option@)),
        all_ascii(option@) ==> r == distance_of(ascii_lowercase(option@)),
{
    let w = lowered(option);
    if option_is(&w, "probit") {
        DistanceMethod::Probit
    } else if option_is(&w, "mahalanobis") {
        DistanceMethod::Mahalanobis
    } else if option_is(&w, "euclidean") {
        DistanceMethod::Euclidean
    } else {
        DistanceMethod::Logit
    }
}

/// The outcome model of regression standardization.
#[derive(Clone, Copy, Debug, PartialEq, Eq, Structural)]
pub enum StdRegModel {
    Linear,
    Logistic,
    Poisson,
}

/// The outcome model that a lower-cased option word selects; any other word
/// selects `Linear`.
pub open spec fn stdreg_model_of(w: Seq<char>) -> StdRegModel {
    if w == "logistic"@ || w == "logit"@ {
        StdRegModel::Logistic
    } else if w == "poisson"@ {
        StdRegModel::Poisson
    } else {
        StdRegModel::Linear
    }
}

/// Reads the outcome model option, without regard to case.
pub fn parse_stdreg_model(option: &str) -> (r: StdRegModel)
    ensures
        r == stdreg_model_of(lowercase(option@)),
        all_ascii(option@) ==> r == stdreg_model_of(ascii_lowercase(option@)),
{
    let w = lowered(option);
    if option_is(&w, "logistic") || option_is(&w, "logit") {
        StdRegModel::Logistic
    } else if option_is(&w, "poisson") {
        StdRegModel::Poisson
    } else {
        StdRegModel::Linear
    }
}

/// The contrast that regression standardization reports.
#[derive(Clone, Copy, Debug, PartialEq, Eq, Structural)]
pub enum StdRegEstimand {
    ATE,
    ATT,
    ATC,
    Levels,
}

/// The estimand that a lower-cased option word selects; any other word
/// selects `ATE`.
pub open spec fn stdreg_estimand_of(w: Seq<char>) -> StdRegEstimand {
    if w == "att"@ {
        StdRegEstimand::ATT
    } else if w == "atc"@ {
        StdRegEstimand::ATC
    } else if w == "levels"@ {
        StdRegEstimand::Levels
    } else {
        StdRegEstimand::ATE
    }
}

/// Reads the estimand option, without regard to case.
pub fn parse_stdreg_estimand(option: &str) -> (r: StdRegEstimand)
    ensures
        r == stdreg_estimand_of(lowercase(option@)),
        all_ascii(option@) ==> r == stdreg_estimand_of(ascii_lowercase(option@)),
{
    let w = lowered(option);
    if option_is(&w, "att") {
        StdRegEstimand::ATT
    } else if option_is(&w, "atc") {
        StdRegEstimand::ATC
    } else if option_is(&w, "levels") {
        StdRegEstimand::Levels
    } else {
        StdRegEstimand::ATE
    }
}

/// How standard errors of regression standardization are computed.
#[derive(Clone, Copy, Debug, PartialEq, Eq, Structural)]
pub enum SEMethod {
    Bootstrap,
    Delta,
    Sandwich,
}

/// The standard error method that a lower-cased option word selects; any other word
/// selects `Bootstrap`.
pub open spec fn se_method_of(w: Seq<char>) -> SEMethod {
    if w == "delta"@ {
        SEMethod::Delta
    } else if w == "sandwich"@ || w == "robust"@ {
        SEMethod::Sandwich
    } else {
        SEMethod::Bootstrap
    }
}

/// Reads the standard error method option, without regard to case.
pub fn parse_se_method(option: &str) -> (r: SEMethod)
    ensures
        r == se_method_of(lowercase(option@)),
        all_ascii(option@) ==> r == se_method_of(ascii_lowercase(option@)),
{
    let w = lowered(option);
    if option_is(&w, "delta") {
        SEMethod::Delta
    } else if option_is(&w, "sandwich") || option_is(&w, "robust") {
        SEMethod::Sandwich
    } else {
        SEMethod::Bootstrap
    }
}

/// Causal inference commands.
pub enum CausalCommands {
    /// Two-Stage Least Squares (Instrumental Variables)
    Iv {
        dataset: String,
        dep_var: String,
        exog: Vec<String>,
        endog: Vec<String>,
        instruments: Vec<String>,
    },
    /// Difference-in-Differences; `controls` may be empty
    Did { dataset: String, outcome: String, treat: String, post: String, controls: Vec<String> },
    /// Synthetic Control Method (Abadie et al.); `v_method` is datadriven
    /// (default) or equal
    Synth {
        dataset: String,
        outcome: String,
        unit: String,
        time: String,
        treated: String,
        treatment_time: i64,
        predictors: Vec<String>,
        v_method: String,
        placebos: bool,
    },
    /// Inverse Probability Weighting treatment effect; `estimand` is ate
    /// (default) or att
    Ipw {
        dataset: String,
        outcome: String,
        treatment: String,
        covariates: Vec<String>,
        estimand: String,
        trim: Real,
        bootstrap: usize,
    },
    /// Doubly robust treatment effect; `method` is aipw (default), ipw or
    /// regression
    DoublyRobust {
        dataset: String,
        outcome: String,
        treatment: String,
        covariates: Vec<String>,
        method: String,
        estimand: String,
        trim: Real,
        bootstrap: usize,
    },
    /// Causal mediation analysis
    Mediation {
        dataset: String,
        outcome: String,
        treatment: String,
        mediator: String,
        covariates: Vec<String>,
        bootstrap: usize,
    },
    /// Regression Discontinuity (sharp design)
    Rd {
        dataset: String,
        outcome: String,
        running: String,
        cutoff: Real,
        poly_order: usize,
        kernel: String,
        bwselect: String,
    },
    /// Fuzzy Regression Discontinuity
    FuzzyRd {
        dataset: String,
        outcome: String,
        running: String,
        treatment: String,
        cutoff: Real,
        poly_order: usize,
        kernel: String,
    },
    /// Staggered Difference-in-Differences (Callaway-Sant'Anna)
    StaggeredDid {
        dataset: String,
        outcome: String,
        treatment_time: String,
        time: String,
        unit: String,
        covariates: Vec<String>,
        comparison: String,
        method: String,
        bootstrap: usize,
    },
    /// Targeted Maximum Likelihood Estimation (TMLE)
    Tmle {
        dataset: String,
        outcome: String,
        treatment: String,
        covariates: Vec<String>,
        qmodel: String,
        truncate_lower: Real,
        truncate_upper: Real,
    },
    /// Generalized Synthetic Control (gsynth); `n_factors` 0 selects the
    /// number of factors by cross-validation
    Gsynth {
        dataset: String,
        outcome: String,
        treatment: String,
        unit: String,
        time: String,
        covariates: Vec<String>,
        n_factors: usize,
        force: String,
        estimator: String,
        bootstrap_se: bool,
        n_bootstrap: usize,
    },
    /// Propensity Score Matching (MatchIt)
    Matching {
        dataset: String,
        treatment: String,
        covariates: Vec<String>,
        method: String,
        distance: String,
        ratio: usize,
        caliper: Option<Real>,
        replace: bool,
        n_subclasses: usize,
    },
    /// Regression Standardization / G-computation (stdReg)
    Stdreg {
        dataset: String,
        outcome: String,
        treatment: String,
        covariates: Vec<String>,
        model: String,
        estimand: String,
        se_method: String,
        bootstrap: usize,
        interactions: bool,
    },
}

/// The options of a causal command once its keywords are read.
pub enum CausalPlan {
    Iv,
    /// The controls, `None` when none were given.
    Did { controls: Option<Vec<String>> },
    Synth { v_method: VOptimization },
    Ipw { estimand: Estimand },
    DoublyRobust { method: DRMethod, estimand: Estimand },
    Mediation,
    Rd { kernel: KernelType, bandwidth: BandwidthMethod },
    FuzzyRd { kernel: KernelType },
    /// The covariates, `None` when none were given.
    StaggeredDid {
        covariates: Option<Vec<String>>,
        comparison: ComparisonGroup,
        method: AttEstimationMethod,
    },
    Tmle { q_model: QModel },
    Gsynth { force: GsynthForce, estimator: GsynthEstimator, cross_validate: bool },
    Matching { kind: MatchKind, distance: DistanceMethod },
    Stdreg { model: StdRegModel, estimand: StdRegEstimand, se_method: SEMethod },
}

/// The dataset a command works on.
pub open spec fn dataset_of(cmd: CausalCommands) -> Seq<char> {
    match cmd {
        CausalCommands::Iv { dataset, .. } => dataset@,
        CausalCommands::Did { dataset, .. } => dataset@,
        CausalCommands::Synth { dataset, .. } => dataset@,
        CausalCommands::Ipw { dataset, .. } => dataset@,
        CausalCommands::DoublyRobust { dataset, .. } => dataset@,
        CausalCommands::Mediation { dataset, .. } => dataset@,
        CausalCommands::Rd { dataset, .. } => dataset@,
        CausalCommands::FuzzyRd { dataset, .. } => dataset@,
        CausalCommands::StaggeredDid { dataset, .. } => dataset@,
        CausalCommands::Tmle { dataset, .. } => dataset@,
        CausalCommands::Gsynth { dataset, .. } => dataset@,
        CausalCommands::Matching { dataset, .. } => dataset@,
        CausalCommands::Stdreg { dataset, .. } => dataset@,
    }
}

fn dataset_name(cmd: &CausalCommands) -> (r: &String)
    ensures
        r@ == dataset_of(*cmd),
{
    match cmd {
        CausalCommands::Iv { dataset, .. } => dataset,
        CausalCommands::Did { dataset, .. } => dataset,
        CausalCommands::Synth { dataset, .. } => dataset,
        CausalCommands::Ipw { dataset, .. } => dataset,
        CausalCommands::DoublyRobust { dataset, .. } => dataset,
        CausalCommands::Mediation { dataset, .. } => dataset,
        CausalCommands::Rd { dataset, .. } => dataset,
        CausalCommands::FuzzyRd { dataset, .. } => dataset,
        CausalCommands::StaggeredDid { dataset, .. } => dataset,
        CausalCommands::Tmle { dataset, .. } => dataset,
        CausalCommands::Gsynth { dataset, .. } => dataset,
        CausalCommands::Matching { dataset, .. } => dataset,
        CausalCommands::Stdreg { dataset, .. } => dataset,
    }
}

/// The wording of the no-session error of each command.
pub open spec fn causal_hint(cmd: CausalCommands) -> SessionHint {
    match cmd {
        CausalCommands::Iv { .. } | CausalCommands::Did { .. } | CausalCommands::Synth { .. } =>
            SessionHint::Long,
        _ => SessionHint::Short,
    }
}

/// A list of columns that is left out when empty.
pub open spec fn optional_names(v: Vec<String>, r: Option<Vec<String>>) -> bool {
    match r {
        None => v@.len() == 0,
        Some(w) => v@.len() > 0 && w@ == v@,
    }
}

/// The plan carries the keywords of the command, read without regard to case.
pub open spec fn planned(cmd: CausalCommands, plan: CausalPlan) -> bool {
    match (cmd, plan) {
        (CausalCommands::Iv { .. }, CausalPlan::Iv) => true,
        (CausalCommands::Did { controls, .. }, CausalPlan::Did { controls: c }) => optional_names(
            controls,
            c,
        ),
        (CausalCommands::Synth { v_method, .. }, CausalPlan::Synth { v_method: v }) => v
            == v_optimization_of(lowercase(v_method@)),
        (CausalCommands::Ipw { estimand, .. }, CausalPlan::Ipw { estimand: e }) => e == estimand_of(
            lowercase(estimand@),
        ),
        (
            CausalCommands::DoublyRobust { method, estimand, .. },
            CausalPlan::DoublyRobust { method: m, estimand: e },
        ) => m == dr_method_of(lowercase(method@)) && e == estimand_of(lowercase(estimand@)),
        (CausalCommands::Mediation { .. }, CausalPlan::Mediation) => true,
        (CausalCommands::Rd { kernel, bwselect, .. }, CausalPlan::Rd { kernel: k, bandwidth: b }) =>
            k == kernel_of(lowercase(kernel@)) && b == bandwidth_of(lowercase(bwselect@)),
        (CausalCommands::FuzzyRd { kernel, .. }, CausalPlan::FuzzyRd { kernel: k }) => k
            == kernel_of(lowercase(kernel@)),
        (
            CausalCommands::StaggeredDid { covariates, comparison, method, .. },
            CausalPlan::StaggeredDid { covariates: c, comparison: g, method: m },
        ) => optional_names(covariates, c) && g == comparison_group_of(lowercase(comparison@)) && m
            == att_method_of(lowercase(method@)),
        (CausalCommands::Tmle { qmodel, .. }, CausalPlan::Tmle { q_model: q }) => q == q_model_of(
            lowercase(qmodel@),
        ),
        (
            CausalCommands::Gsynth { force, estimator, n_factors, .. },
            CausalPlan::Gsynth { force: f, estimator: e, cross_validate: cv },
        ) => f == gsynth_force_of(lowercase(force@)) && e == gsynth_estimator_of(
            lowercase(estimator@),
        ) && cv == (n_factors == 0),
        (
            CausalCommands::Matching { method, distance, .. },
            CausalPlan::Matching { kind: k, distance: d },
        ) => k == match_kind_of(lowercase(method@)) && d == distance_of(lowercase(distance@)),
        (
            CausalCommands::Stdreg { model, estimand, se_method, .. },
            CausalPlan::Stdreg { model: m, estimand: e, se_method: s },
        ) => m == stdreg_model_of(lowercase(model@)) && e == stdreg_estimand_of(lowercase(estimand@))
            && s == se_method_of(lowercase(se_method@)),
        _ => false,
    }
}

fn optional_list(v: &Vec<String>) -> (r: Option<Vec<String>>)
    ensures
        optional_names(*v, r),
{
    if v.len() == 0 {
        None
    } else {
        Some(clone_strings(v))
    }
}

/// Checks a causal command against the datasets of the session (`None`
/// when no session is active) and reads its keyword options. The error says
/// whether the session or the dataset is missing.
pub fn execute(cmd: &CausalCommands, held: &Option<Vec<String>>) -> (r: Result<CausalPlan, String>)
    ensures
        match r {
            Ok(plan) => holds(held_view(*held), dataset_of(*cmd)) && planned(*cmd, plan),
            Err(msg) => !holds(held_view(*held), dataset_of(*cmd)) && msg@ == (if held is None {
                no_session_text(causal_hint(*cmd))
            } else {
                not_found_text(dataset_of(*cmd))
            }),
        },
{
    let hint = match cmd {
        CausalCommands::Iv { .. } | CausalCommands::Did { .. } | CausalCommands::Synth { .. } =>
            SessionHint::Long,
        _ => SessionHint::Short,
    };
    match require_dataset(held, dataset_name(cmd), hint) {
        Ok(_) => {},
        Err(e) => {
            return Err(e);
        },
    }
    let plan = match cmd {
        CausalCommands::Iv { .. } => CausalPlan::Iv,
        CausalCommands::Did { controls, .. } => CausalPlan::Did { controls: optional_list(controls) },
        CausalCommands::Synth { v_method, .. } => CausalPlan::Synth {
            v_method: parse_v_method(v_method.as_str()),
        },
        CausalCommands::Ipw { estimand, .. } => CausalPlan::Ipw {
            estimand: parse_estimand(estimand.as_str()),
        },
        CausalCommands::DoublyRobust { method, estimand, .. } => CausalPlan::DoublyRobust {
            method: parse_dr_method(method.as_str()),
            estimand: parse_estimand(estimand.as_str()),
        },
        CausalCommands::Mediation { .. } => CausalPlan::Mediation,
        CausalCommands::Rd { kernel, bwselect, .. } => CausalPlan::Rd {
            kernel: parse_kernel(kernel.as_str()),
            bandwidth: parse_bandwidth(bwselect.as_str()),
        },
        CausalCommands::FuzzyRd { kernel, .. } => CausalPlan::FuzzyRd {
            kernel: parse_kernel(kernel.as_str()),
        },
        CausalCommands::StaggeredDid { covariates, comparison, method, .. } =>
            CausalPlan::StaggeredDid {
            covariates: optional_list(covariates),
            comparison: parse_comparison_group(comparison.as_str()),
            method: parse_att_method(method.as_str()),
        },
        CausalCommands::Tmle { qmodel, .. } => CausalPlan::Tmle {
            q_model: parse_q_model(qmodel.as_str()),
        },
        CausalCommands::Gsynth { force, estimator, n_factors, .. } => CausalPlan::Gsynth {
            force: parse_gsynth_force(force.as_str()),
            estimator: parse_gsynth_estimator(estimator.as_str()),
            cross_validate: *n_factors == 0,
        },
        CausalCommands::Matching { method, distance, .. } => CausalPlan::Matching {
            kind: parse_match_method(method.as_str()),
            distance: parse_distance(distance.as_str()),
        },
        CausalCommands::Stdreg { model, estimand, se_method, .. } => CausalPlan::Stdreg {
            model: parse_stdreg_model(model.as_str()),
            estimand: parse_stdreg_estimand(estimand.as_str()),
            se_method: parse_se_method(se_method.as_str()),
        },
    };
    Ok(plan)
}

/// The option word of `v_optimization_of`, read without regard to case, selects the
/// choice it names (`equal`); any other word selects the default, DataDriven.
pub proof fn law_v_optimization_words(option: Seq<char>)
    ensures
        lowercase(option) == "equal"@ ==> v_optimization_of(lowercase(option)) == VOptimization::Equal,
        lowercase(option) != "equal"@ ==> v_optimization_of(lowercase(option)) == VOptimization::DataDriven,
{
    reveal_strlit("equal");
    assert("equal"@ =~= seq!['e', 'q', 'u', 'a', 'l']);
}

/// The option word of `estimand_of`, read without regard to case, selects the
/// choice it names (`att`); any other word selects the default, ATE.
pub proof fn law_estimand_words(option: Seq<char>)
    ensures
        lowercase(option) == "att"@ ==> estimand_of(lowercase(option)) == Estimand::ATT,
        lowercase(option) != "att"@ ==> estimand_of(lowercase(option)) == Estimand::ATE,
{
    reveal_strlit("att");
    assert("att"@ =~= seq!['a', 't', 't']);
}

/// The option word of `dr_method_of`, read without regard to case, selects the
/// choice it names (`ipw`, `regression`); any other word selects the default, AIPW.
pub proof fn law_dr_method_words(option: Seq<char>)
    ensures
        lowercase(option) == "ipw"@ ==> dr_method_of(lowercase(option)) == DRMethod::IPW,
        lowercase(option) == "regression"@ ==> dr_method_of(lowercase(option)) == DRMethod::Regression,
        lowercase(option) != "ipw"@ && lowercase(option) != "regression"@ ==> dr_method_of(lowercase(option)) == DRMethod::AIPW,
{
    reveal_strlit("ipw");
    assert("ipw"@ =~= seq!['i', 'p', 'w']);
    reveal_strlit("regression");
    assert("regression"@ =~= seq!['r', 'e', 'g', 'r', 'e', 's', 's', 'i', 'o', 'n']);
}

/// The option word of `kernel_of`, read without regard to case, selects the
/// choice it names (`uniform`, `epanechnikov`); any other word selects the default, Triangular.
pub proof fn law_kernel_words(option: Seq<char>)
    ensures
        lowercase(option) == "uniform"@ ==> kernel_of(lowercase(option)) == KernelType::Uniform,
        lowercase(option) == "epanechnikov"@ ==> kernel_of(lowercase(option)) == KernelType::Epanechnikov,
        lowercase(option) != "uniform"@ && lowercase(option) != "epanechnikov"@ ==> kernel_of(lowercase(option)) == KernelType::Triangular,
{
    reveal_strlit("uniform");
    assert("uniform"@ =~= seq!['u', 'n', 'i', 'f', 'o', 'r', 'm']);
    reveal_strlit("epanechnikov");
    assert("epanechnikov"@ =~= seq!['e', 'p', 'a', 'n', 'e', 'c', 'h', 'n', 'i', 'k', 'o', 'v']);
}

/// The option word of `bandwidth_of`, read without regard to case, selects the
/// choice it names (`msetwo`, `cerrd`); any other word selects the default, MseRd.
pub proof fn law_bandwidth_words(option: Seq<char>)
    ensures
        lowercase(option) == "msetwo"@ ==> bandwidth_of(lowercase(option)) == BandwidthMethod::MseTwo,
        lowercase(option) == "cerrd"@ ==> bandwidth_of(lowercase(option)) == BandwidthMethod::CerRd,
        lowercase(option) != "msetwo"@ && lowercase(option) != "cerrd"@ ==> bandwidth_of(lowercase(option)) == BandwidthMethod::MseRd,
{
    reveal_strlit("msetwo");
    assert("msetwo"@ =~= seq!['m', 's', 'e', 't', 'w', 'o']);
    reveal_strlit("cerrd");
    assert("cerrd"@ =~= seq!['c', 'e', 'r', 'r', 'd']);
}

/// The option word of `comparison_group_of`, read without regard to case, selects the
/// choice it names (`notyettreated`, `notyet`, `nyt`); any other word selects the default, NeverTreated.
pub proof fn law_comparison_group_words(option: Seq<char>)
    ensures
        (lowercase(option) == "notyettreated"@ || lowercase(option) == "notyet"@ || lowercase(option) == "nyt"@) ==> comparison_group_of(lowercase(option)) == ComparisonGroup::NotYetTreated,
        lowercase(option) != "notyettreated"@ && lowercase(option) != "notyet"@ && lowercase(option) != "nyt"@ ==> comparison_group_of(lowercase(option)) == ComparisonGroup::NeverTreated,
{
    reveal_strlit("notyettreated");
    assert("notyettreated"@ =~= seq!['n', 'o', 't', 'y', 'e', 't', 't', 'r', 'e', 'a', 't', 'e', 'd']);
    reveal_strlit("notyet");
    assert("notyet"@ =~= seq!['n', 'o', 't', 'y', 'e', 't']);
    reveal_strlit("nyt");
    assert("nyt"@ =~= seq!['n', 'y', 't']);
}

/// The option word of `att_method_of`, read without regard to case, selects the
/// choice it names (`ipw`, `dr`, `doublyrobust`, `aipw`); any other word selects the default, OutcomeRegression.
pub proof fn law_att_method_words(option: Seq<char>)
    ensures
        lowercase(option) == "ipw"@ ==> att_method_of(lowercase(option)) == AttEstimationMethod::IPW,
        (lowercase(option) == "dr"@ || lowercase(option) == "doublyrobust"@ || lowercase(option) == "aipw"@) ==> att_method_of(lowercase(option)) == AttEstimationMethod::DoublyRobust,
        lowercase(option) != "ipw"@ && lowercase(option) != "dr"@ && lowercase(option) != "doublyrobust"@ && lowercase(option) != "aipw"@ ==> att_method_of(lowercase(option)) == AttEstimationMethod::OutcomeRegression,
{
    reveal_strlit("ipw");
    assert("ipw"@ =~= seq!['i', 'p', 'w']);
    reveal_strlit("dr");
    assert("dr"@ =~= seq!['d', 'r']);
    reveal_strlit("doublyrobust");
    assert("doublyrobust"@ =~= seq!['d', 'o', 'u', 'b', 'l', 'y', 'r', 'o', 'b', 'u', 's', 't']);
    reveal_strlit("aipw");
    assert("aipw"@ =~= seq!['a', 'i', 'p', 'w']);
}

/// The option word of `q_model_of`, read without regard to case, selects the
/// choice it names (`linear`); any other word selects the default, Logistic.
pub proof fn law_q_model_words(option: Seq<char>)
    ensures
        lowercase(option) == "linear"@ ==> q_model_of(lowercase(option)) == QModel::Linear,
        lowercase(option) != "linear"@ ==> q_model_of(lowercase(option)) == QModel::Logistic,
{
    reveal_strlit("linear");
    assert("linear"@ =~= seq!['l', 'i', 'n', 'e', 'a', 'r']);
}

/// The option word of `gsynth_force_of`, read without regard to case, selects the
/// choice it names (`unit`, `time`, `none`); any other word selects the default, TwoWay.
pub proof fn law_gsynth_force_words(option: Seq<char>)
    ensures
        lowercase(option) == "unit"@ ==> gsynth_force_of(lowercase(option)) == GsynthForce::Unit,
        lowercase(option) == "time"@ ==> gsynth_force_of(lowercase(option)) == GsynthForce::Time,
        lowercase(option) == "none"@ ==> gsynth_force_of(lowercase(option)) == GsynthForce::Neither,
        lowercase(option) != "unit"@ && lowercase(option) != "time"@ && lowercase(option) != "none"@ ==> gsynth_force_of(lowercase(option)) == GsynthForce::TwoWay,
{
    reveal_strlit("unit");
    assert("unit"@ =~= seq!['u', 'n', 'i', 't']);
    reveal_strlit("time");
    assert("time"@ =~= seq!['t', 'i', 'm', 'e']);
    reveal_strlit("none");
    assert("none"@ =~= seq!['n', 'o', 'n', 'e']);
}

/// The option word of `gsynth_estimator_of`, read without regard to case, selects the
/// choice it names (`mc`, `matrixcompletion`); any other word selects the default, Ife.
pub proof fn law_gsynth_estimator_words(option: Seq<char>)
    ensures
        (lowercase(option) == "mc"@ || lowercase(option) == "matrixcompletion"@) ==> gsynth_estimator_of(lowercase(option)) == GsynthEstimator::MatrixCompletion,
        lowercase(option) != "mc"@ && lowercase(option) != "matrixcompletion"@ ==> gsynth_estimator_of(lowercase(option)) == GsynthEstimator::Ife,
{
    reveal_strlit("mc");
    assert("mc"@ =~= seq!['m', 'c']);
    reveal_strlit("matrixcompletion");
    assert("matrixcompletion"@ =~= seq!['m', 'a', 't', 'r', 'i', 'x', 'c', 'o', 'm', 'p', 'l', 'e', 't', 'i', 'o', 'n']);
}

/// The option word of `match_kind_of`, read without regard to case, selects the
/// choice it names (`cem`, `coarsened`, `coarsenedexact`, `full`, `optimal`, `subclass`, `stratification`); any other word selects the default, NearestNeighbor.
pub proof fn law_match_kind_words(option: Seq<char>)
    ensures
        (lowercase(option) == "cem"@ || lowercase(option) == "coarsened"@ || lowercase(option) == "coarsenedexact"@) ==> match_kind_of(lowercase(option)) == MatchKind::CoarsenedExact,
        (lowercase(option) == "full"@ || lowercase(option) == "optimal"@) ==> match_kind_of(lowercase(option)) == MatchKind::Full,
        (lowercase(option) == "subclass"@ || lowercase(option) == "stratification"@) ==> match_kind_of(lowercase(option)) == MatchKind::Subclass,
        lowercase(option) != "cem"@ && lowercase(option) != "coarsened"@ && lowercase(option) != "coarsenedexact"@ && lowercase(option) != "full"@ && lowercase(option) != "optimal"@ && lowercase(option) != "subclass"@ && lowercase(option) != "stratification"@ ==> match_kind_of(lowercase(option)) == MatchKind::NearestNeighbor,
{
    reveal_strlit("cem");
    assert("cem"@ =~= seq!['c', 'e', 'm']);
    reveal_strlit("coarsened");
    assert("coarsened"@ =~= seq!['c', 'o', 'a', 'r', 's', 'e', 'n', 'e', 'd']);
    reveal_strlit("coarsenedexact");
    assert("coarsenedexact"@ =~= seq!['c', 'o', 'a', 'r', 's', 'e', 'n', 'e', 'd', 'e', 'x', 'a', 'c', 't']);
    reveal_strlit("full");
    assert("full"@ =~= seq!['f', 'u', 'l', 'l']);
    reveal_strlit("optimal");
    assert("optimal"@ =~= seq!['o', 'p', 't', 'i', 'm', 'a', 'l']);
    reveal_strlit("subclass");
    assert("subclass"@ =~= seq!['s', 'u', 'b', 'c', 'l', 'a', 's', 's']);
    reveal_strlit("stratification");
    assert("stratification"@ =~= seq!['s', 't', 'r', 'a', 't', 'i', 'f', 'i', 'c', 'a', 't', 'i', 'o', 'n']);
}

/// The option word of `distance_of`, read without regard to case, selects the
/// choice it names (`probit`, `mahalanobis`, `euclidean`); any other word selects the default, Logit.
pub proof fn law_distance_words(option: Seq<char>)
    ensures
        lowercase(option) == "probit"@ ==> distance_of(lowercase(option)) == DistanceMethod::Probit,
        lowercase(option) == "mahalanobis"@ ==> distance_of(lowercase(option)) == DistanceMethod::Mahalanobis,
        lowercase(option) == "euclidean"@ ==> distance_of(lowercase(option)) == DistanceMethod::Euclidean,
        lowercase(option) != "probit"@ && lowercase(option) != "mahalanobis"@ && lowercase(option) != "euclidean"@ ==> distance_of(lowercase(option)) == DistanceMethod::Logit,
{
    reveal_strlit("probit");
    assert("probit"@ =~= seq!['p', 'r', 'o', 'b', 'i', 't']);
    reveal_strlit("mahalanobis");
    assert("mahalanobis"@ =~= seq!['m', 'a', 'h', 'a', 'l', 'a', 'n', 'o', 'b', 'i', 's']);
    reveal_strlit("euclidean");
    assert("euclidean"@ =~= seq!['e', 'u', 'c', 'l', 'i', 'd', 'e', 'a', 'n']);
}

/// The option word of `stdreg_model_of`, read without regard to case, selects the
/// choice it names (`logistic`, `logit`, `poisson`); any other word selects the default, Linear.
pub proof fn law_stdreg_model_words(option: Seq<char>)
    ensures
        (lowercase(option) == "logistic"@ || lowercase(option) == "logit"@) ==> stdreg_model_of(lowercase(option)) == StdRegModel::Logistic,
        lowercase(option) == "poisson"@ ==> stdreg_model_of(lowercase(option)) == StdRegModel::Poisson,
        lowercase(option) != "logistic"@ && lowercase(option) != "logit"@ && lowercase(option) != "poisson"@ ==> stdreg_model_of(lowercase(option)) == StdRegModel::Linear,
{
    reveal_strlit("logistic");
    assert("logistic"@ =~= seq!['l', 'o', 'g', 'i', 's', 't', 'i', 'c']);
    reveal_strlit("logit");
    assert("logit"@ =~= seq!['l', 'o', 'g', 'i', 't']);
    reveal_strlit("poisson");
    assert("poisson"@ =~= seq!['p', 'o', 'i', 's', 's', 'o', 'n']);
}

/// The option word of `stdreg_estimand_of`, read without regard to case, selects the
/// choice it names (`att`, `atc`, `levels`); any other word selects the default, ATE.
pub proof fn law_stdreg_estimand_words(option: Seq<char>)
    ensures
        lowercase(option) == "att"@ ==> stdreg_estimand_of(lowercase(option)) == StdRegEstimand::ATT,
        lowercase(option) == "atc"@ ==> stdreg_estimand_of(lowercase(option)) == StdRegEstimand::ATC,
        lowercase(option) == "levels"@ ==> stdreg_estimand_of(lowercase(option)) == StdRegEstimand::Levels,
        lowercase(option) != "att"@ && lowercase(option) != "atc"@ && lowercase(option) != "levels"@ ==> stdreg_estimand_of(lowercase(option)) == StdRegEstimand::ATE,
{
    reveal_strlit("att");
    assert("att"@ =~= seq!['a', 't', 't']);
    reveal_strlit("atc");
    assert("atc"@ =~= seq!['a', 't', 'c']);
    reveal_strlit("levels");
    assert("levels"@ =~= seq!['l', 'e', 'v', 'e', 'l', 's']);
}

/// The option word of `se_method_of`, read without regard to case, selects the
/// choice it names (`delta`, `sandwich`, `robust`); any other word selects the default, Bootstrap.
pub proof fn law_se_method_words(option: Seq<char>)
    ensures
        lowercase(option) == "delta"@ ==> se_method_of(lowercase(option)) == SEMethod::Delta,
        (lowercase(option) == "sandwich"@ || lowercase(option) == "robust"@) ==> se_method_of(lowercase(option)) == SEMethod::Sandwich,
        lowercase(option) != "delta"@ && lowercase(option) != "sandwich"@ && lowercase(option) != "robust"@ ==> se_method_of(lowercase(option)) == SEMethod::Bootstrap,
{
    reveal_strlit("delta");
    assert("delta"@ =~= seq!['d', 'e', 'l', 't', 'a']);
    reveal_strlit("sandwich");
    assert("sandwich"@ =~= seq!['s', 'a', 'n', 'd', 'w', 'i', 'c', 'h']);
    reveal_strlit("robust");
    assert("robust"@ =~= seq!['r', 'o', 'b', 'u', 's', 't']);
}

} // verus!
