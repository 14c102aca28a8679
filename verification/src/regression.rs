//! Regression options: robust standard errors and the models of
//! nonlinear least squares.

use vstd::prelude::*;
use crate::common::{
    Real, SessionHint, held_view, holds, lowered, no_session_text, not_found_text, option_is, require_dataset,
};
use crate::text::{lowercase, push_str, split_trimmed, trimmed_pieces, views};

verus! {

/// Robust standard error choices on the command line.
#[derive(Clone, Copy, Debug, PartialEq, Eq, Structural)]
pub enum RobustSE {
    Standard,
    HC0,
    HC1,
    HC2,
    HC3,
}

/// Covariance estimators of the regression routines.
#[derive(Clone, Copy, Debug, PartialEq, Eq, Structural)]
pub enum CovarianceType {
    Standard,
    HC0,
    HC1,
    HC2,
    HC3,
}

/// The estimator each choice selects: the one of the same name.
pub open spec fn covariance_of(val: RobustSE) -> CovarianceType {
    match val {
        RobustSE::Standard => CovarianceType::Standard,
        RobustSE::HC0 => CovarianceType::HC0,
        RobustSE::HC1 => CovarianceType::HC1,
        RobustSE::HC2 => CovarianceType::HC2,
        RobustSE::HC3 => CovarianceType::HC3,
    }
}

impl From<RobustSE> for CovarianceType {
    fn from(val: RobustSE) -> (r: Self) {
        match val {
            RobustSE::Standard => CovarianceType::Standard,
            RobustSE::HC0 => CovarianceType::HC0,
            RobustSE::HC1 => CovarianceType::HC1,
            RobustSE::HC2 => CovarianceType::HC2,
            RobustSE::HC3 => CovarianceType::HC3,
        }
    }
}

impl vstd::std_specs::convert::FromSpecImpl<RobustSE> for CovarianceType {
    open spec fn obeys_from_spec() -> bool {
        true
    }

    open spec fn from_spec(val: RobustSE) -> CovarianceType {
        covariance_of(val)
    }
}

/// The model functions of nonlinear least squares.
#[derive(Clone, Copy, Debug, PartialEq, Eq, Structural)]
pub enum NlsModel {
    /// y = a * exp(-b * x)
    ExponentialDecay,
    /// y = a * exp(b * x)
    ExponentialGrowth,
    /// y = Vmax * x / (Km + x)
    MichaelisMenten,
    /// y = K / (1 + exp(-r * (x - x0)))
    LogisticGrowth,
    /// y = a * x^b
    Power,
    /// y = a - b * exp(-c * x)
    Asymptotic,
}

/// The model that a lower-cased name selects, if any.
pub open spec fn nls_model_of(w: Seq<char>) -> Option<NlsModel> {
    if w == "exponential_decay"@ || w == "exp_decay"@ {
        Some(NlsModel::ExponentialDecay)
    } else if w == "exponential_growth"@ || w == "exp_growth"@ {
        Some(NlsModel::ExponentialGrowth)
    } else if w == "michaelis_menten"@ || w == "mm"@ {
        Some(NlsModel::MichaelisMenten)
    } else if w == "logistic_growth"@ || w == "logistic"@ {
        Some(NlsModel::LogisticGrowth)
    } else if w == "power"@ {
        Some(NlsModel::Power)
    } else if w == "asymptotic"@ {
        Some(NlsModel::Asymptotic)
    } else {
        None
    }
}

/// The parameter names of a model, in the order of its starting values.
pub open spec fn nls_params(m: NlsModel) -> Seq<Seq<char>> {
    match m {
        NlsModel::ExponentialDecay => seq!["a"@, "b"@],
        NlsModel::ExponentialGrowth => seq!["a"@, "b"@],
        NlsModel::MichaelisMenten => seq!["Vmax"@, "Km"@],
        NlsModel::LogisticGrowth => seq!["K"@, "r"@, "x0"@],
        NlsModel::Power => seq!["a"@, "b"@],
        NlsModel::Asymptotic => seq!["a"@, "b"@, "c"@],
    }
}

/// The error for a model given the wrong number of starting values.
pub open spec fn nls_arity_text(m: NlsModel) -> Seq<char> {
    match m {
        NlsModel::ExponentialDecay => "exponential_decay requires 2 starting values: a, b (y = a * exp(-b * x))"@,
        NlsModel::ExponentialGrowth => "exponential_growth requires 2 starting values: a, b (y = a * exp(b * x))"@,
        NlsModel::MichaelisMenten => "michaelis_menten requires 2 starting values: Vmax, Km (y = Vmax * x / (Km + x))"@,
        NlsModel::LogisticGrowth => "logistic_growth requires 3 starting values: K, r, x0 (y = K / (1 + exp(-r * (x - x0))))"@,
        NlsModel::Power => "power requires 2 starting values: a, b (y = a * x^b)"@,
        NlsModel::Asymptotic => "asymptotic requires 3 starting values: a, b, c (y = a - b * exp(-c * x))"@,
    }
}

/// The model to fit for a model name and a number of starting values, or
/// the error: no starting values, an unknown name, or the wrong number of
/// starting values, checked in that order.
pub open spec fn nls_choice(name: Seq<char>, n_start: nat) -> Result<NlsModel, Seq<char>> {
    if n_start == 0 {
        Err("Invalid starting values. Use comma-separated numbers."@)
    } else {
        match nls_model_of(lowercase(name)) {
            None => Err(
                "Unknown model: "@ + name
                    + ". Options: exponential_decay, exponential_growth, michaelis_menten, logistic_growth, power, asymptotic"@,
            ),
            Some(m) => if n_start == nls_params(m).len() {
                Ok(m)
            } else {
                Err(nls_arity_text(m))
            },
        }
    }
}

/// Each model name, read without regard to case, selects the model it
/// names (`exponential_decay`/`exp_decay`, `exponential_growth`/`exp_growth`,
/// `michaelis_menten`/`mm`, `logistic_growth`/`logistic`, `power`,
/// `asymptotic`), and only with as many starting values as the model has
/// parameters: two, or three for the logistic and asymptotic models.
pub proof fn law_nls_model_names(name: Seq<char>, n_start: nat)
    ensures
        (lowercase(name) == "exponential_decay"@ || lowercase(name) == "exp_decay"@) && n_start == 2 ==> nls_choice(name, n_start) == Ok::<NlsModel, Seq<char>>(NlsModel::ExponentialDecay),
        (lowercase(name) == "exponential_decay"@ || lowercase(name) == "exp_decay"@) && n_start != 2 ==> nls_choice(name, n_start) is Err,
        (lowercase(name) == "exponential_growth"@ || lowercase(name) == "exp_growth"@) && n_start == 2 ==> nls_choice(name, n_start) == Ok::<NlsModel, Seq<char>>(NlsModel::ExponentialGrowth),
        (lowercase(name) == "exponential_growth"@ || lowercase(name) == "exp_growth"@) && n_start != 2 ==> nls_choice(name, n_start) is Err,
        (lowercase(name) == "michaelis_menten"@ || lowercase(name) == "mm"@) && n_start == 2 ==> nls_choice(name, n_start) == Ok::<NlsModel, Seq<char>>(NlsModel::MichaelisMenten),
        (lowercase(name) == "michaelis_menten"@ || lowercase(name) == "mm"@) && n_start != 2 ==> nls_choice(name, n_start) is Err,
        (lowercase(name) == "logistic_growth"@ || lowercase(name) == "logistic"@) && n_start == 3 ==> nls_choice(name, n_start) == Ok::<NlsModel, Seq<char>>(NlsModel::LogisticGrowth),
        (lowercase(name) == "logistic_growth"@ || lowercase(name) == "logistic"@) && n_start != 3 ==> nls_choice(name, n_start) is Err,
        (lowercase(name) == "power"@) && n_start == 2 ==> nls_choice(name, n_start) == Ok::<NlsModel, Seq<char>>(NlsModel::Power),
        (lowercase(name) == "power"@) && n_start != 2 ==> nls_choice(name, n_start) is Err,
        (lowercase(name) == "asymptotic"@) && n_start == 3 ==> nls_choice(name, n_start) == Ok::<NlsModel, Seq<char>>(NlsModel::Asymptotic),
        (lowercase(name) == "asymptotic"@) && n_start != 3 ==> nls_choice(name, n_start) is Err,
{
    reveal_strlit("exponential_decay");
    assert("exponential_decay"@ =~= seq!['e', 'x', 'p', 'o', 'n', 'e', 'n', 't', 'i', 'a', 'l', '_', 'd', 'e', 'c', 'a', 'y']);
    reveal_strlit("exp_decay");
    assert("exp_decay"@ =~= seq!['e', 'x', 'p', '_', 'd', 'e', 'c', 'a', 'y']);
    reveal_strlit("exponential_growth");
    assert("exponential_growth"@ =~= seq!['e', 'x', 'p', 'o', 'n', 'e', 'n', 't', 'i', 'a', 'l', '_', 'g', 'r', 'o', 'w', 't', 'h']);
    reveal_strlit("exp_growth");
    assert("exp_growth"@ =~= seq!['e', 'x', 'p', '_', 'g', 'r', 'o', 'w', 't', 'h']);
    reveal_strlit("michaelis_menten");
    assert("michaelis_menten"@ =~= seq!['m', 'i', 'c', 'h', 'a', 'e', 'l', 'i', 's', '_', 'm', 'e', 'n', 't', 'e', 'n']);
    reveal_strlit("mm");
    assert("mm"@ =~= seq!['m', 'm']);
    reveal_strlit("logistic_growth");
    assert("logistic_growth"@ =~= seq!['l', 'o', 'g', 'i', 's', 't', 'i', 'c', '_', 'g', 'r', 'o', 'w', 't', 'h']);
    reveal_strlit("logistic");
    assert("logistic"@ =~= seq!['l', 'o', 'g', 'i', 's', 't', 'i', 'c']);
    reveal_strlit("power");
    assert("power"@ =~= seq!['p', 'o', 'w', 'e', 'r']);
    reveal_strlit("asymptotic");
    assert("asymptotic"@ =~= seq!['a', 's', 'y', 'm', 'p', 't', 'o', 't', 'i', 'c']);
    let l = lowercase(name);
    assert(nls_params(NlsModel::LogisticGrowth).len() == 3);
    assert(nls_params(NlsModel::Asymptotic).len() == 3);
    assert(nls_params(NlsModel::ExponentialGrowth).len() == 2);
}

fn nls_model_named(w: &String) -> (r: Option<NlsModel>)
    ensures
        r == nls_model_of(w@),
{
    if option_is(w, "exponential_decay") || option_is(w, "exp_decay") {
        Some(NlsModel::ExponentialDecay)
    } else if option_is(w, "exponential_growth") || option_is(w, "exp_growth") {
        Some(NlsModel::ExponentialGrowth)
    } else if option_is(w, "michaelis_menten") || option_is(w, "mm") {
        Some(NlsModel::MichaelisMenten)
    } else if option_is(w, "logistic_growth") || option_is(w, "logistic") {
        Some(NlsModel::LogisticGrowth)
    } else if option_is(w, "power") {
        Some(NlsModel::Power)
    } else if option_is(w, "asymptotic") {
        Some(NlsModel::Asymptotic)
    } else {
        None
    }
}

/// The parameter names of a model.
pub fn nls_parameter_names(m: NlsModel) -> (r: Vec<String>)
    ensures
        views(r@) == nls_params(m),
{
    let names: Vec<String> = match m {
        NlsModel::ExponentialDecay => vec!["a".to_owned(), "b".to_owned()],
        NlsModel::ExponentialGrowth => vec!["a".to_owned(), "b".to_owned()],
        NlsModel::MichaelisMenten => vec!["Vmax".to_owned(), "Km".to_owned()],
        NlsModel::LogisticGrowth => vec!["K".to_owned(), "r".to_owned(), "x0".to_owned()],
        NlsModel::Power => vec!["a".to_owned(), "b".to_owned()],
        NlsModel::Asymptotic => vec!["a".to_owned(), "b".to_owned(), "c".to_owned()],
    };
    proof {
        assert(views(names@) =~= nls_params(m));
    }
    names
}

fn nls_parameter_count(m: NlsModel) -> (r: usize)
    ensures
        r == nls_params(m).len(),
{
    match m {
        NlsModel::LogisticGrowth | NlsModel::Asymptotic => 3,
        _ => 2,
    }
}

/// Chooses the model of a nonlinear least squares fit from its name and the
/// number of starting values that were read.
pub fn choose_nls_model(model_name: &str, n_start: usize) -> (r: Result<NlsModel, String>)
    ensures
        match r {
            Ok(m) => nls_choice(model_name@, n_start as nat) == Ok::<NlsModel, Seq<char>>(m),
            Err(e) => nls_choice(model_name@, n_start as nat) == Err::<NlsModel, Seq<char>>(e@),
        },
{
    if n_start == 0 {
        return Err("Invalid starting values. Use comma-separated numbers.".to_owned());
    }
    let w = lowered(model_name);
    match nls_model_named(&w) {
        None => {
            let mut msg = "Unknown model: ".to_owned();
            push_str(&mut msg, model_name);
            push_str(
                &mut msg,
                ". Options: exponential_decay, exponential_growth, michaelis_menten, logistic_growth, power, asymptotic",
            );
            Err(msg)
        },
        Some(m) => {
            if n_start == nls_parameter_count(m) {
                Ok(m)
            } else {
                let msg = match m {
                    NlsModel::ExponentialDecay => "exponential_decay requires 2 starting values: a, b (y = a * exp(-b * x))",
                    NlsModel::ExponentialGrowth => "exponential_growth requires 2 starting values: a, b (y = a * exp(b * x))",
                    NlsModel::MichaelisMenten => "michaelis_menten requires 2 starting values: Vmax, Km (y = Vmax * x / (Km + x))",
                    NlsModel::LogisticGrowth => "logistic_growth requires 3 starting values: K, r, x0 (y = K / (1 + exp(-r * (x - x0))))",
                    NlsModel::Power => "power requires 2 starting values: a, b (y = a * x^b)",
                    NlsModel::Asymptotic => "asymptotic requires 3 starting values: a, b, c (y = a - b * exp(-c * x))",
                };
                Err(msg.to_owned())
            }
        },
    }
}

/// The comma-separated fields of the starting values, trimmed; each is
/// then read as a number, and those that are not numbers are skipped.
pub fn start_value_fields(start: &str) -> (r: Vec<String>)
    ensures
        views(r@) == trimmed_pieces(start@, ','),
{
    split_trimmed(start, ',')
}

/// Regression commands.
pub enum RegressionCommands {
    /// Ordinary Least Squares regression
    Ols {
        dataset: String,
        dep_var: String,
        indep_vars: Vec<String>,
        intercept: bool,
        robust: RobustSE,
    },
    /// Clustered standard errors regression
    Clustered {
        dataset: String,
        dep_var: String,
        indep_vars: Vec<String>,
        cluster: String,
        intercept: bool,
    },
    /// Run regression diagnostics
    Diagnostics {
        dataset: String,
        dep_var: String,
        indep_vars: Vec<String>,
    },
    /// Quantile regression
    Quantreg {
        dataset: String,
        dep_var: String,
        indep_vars: Vec<String>,
        tau: Real,
        intercept: bool,
    },
    /// LOESS (local polynomial regression)
    Loess {
        dataset: String,
        dep_var: String,
        indep_var: String,
        span: Real,
        degree: usize,
    },
    /// Nonlinear Least Squares regression
    Nls {
        dataset: String,
        dep_var: String,
        indep_var: String,
        model: String,
        start: String,
    },
    /// Generalized Least Squares regression
    Gls {
        dataset: String,
        dep_var: String,
        indep_vars: Vec<String>,
        correlation: String,
        rho: Option<Real>,
        intercept: bool,
    },
    /// Stepwise regression model selection
    Step {
        dataset: String,
        dep_var: String,
        indep_vars: Vec<String>,
        required_vars: Vec<String>,
        direction: String,
        use_bic: bool,
        intercept: bool,
    },
    /// Smoothing spline regression
    SmoothSpline {
        dataset: String,
        dep_var: String,
        indep_var: String,
        df: Option<Real>,
    },
    /// Friedman's SuperSmoother
    Supsmu {
        dataset: String,
        dep_var: String,
        indep_var: String,
        span: Option<Real>,
        bass: Real,
    },
    /// Tukey's resistant line (robust regression)
    Line {
        dataset: String,
        dep_var: String,
        indep_var: String,
        iter: usize,
    },
    /// HAC (Newey-West) standard errors for OLS
    Hac {
        dataset: String,
        dep_var: String,
        indep_vars: Vec<String>,
        lags: Option<usize>,
        intercept: bool,
    },
}

/// The dataset a command works on.
pub open spec fn dataset_of(cmd: RegressionCommands) -> Seq<char> {
    match cmd {
        RegressionCommands::Ols { dataset, .. } => dataset@,
        RegressionCommands::Clustered { dataset, .. } => dataset@,
        RegressionCommands::Diagnostics { dataset, .. } => dataset@,
        RegressionCommands::Quantreg { dataset, .. } => dataset@,
        RegressionCommands::Loess { dataset, .. } => dataset@,
        RegressionCommands::Nls { dataset, .. } => dataset@,
        RegressionCommands::Gls { dataset, .. } => dataset@,
        RegressionCommands::Step { dataset, .. } => dataset@,
        RegressionCommands::SmoothSpline { dataset, .. } => dataset@,
        RegressionCommands::Supsmu { dataset, .. } => dataset@,
        RegressionCommands::Line { dataset, .. } => dataset@,
        RegressionCommands::Hac { dataset, .. } => dataset@,
    }
}

fn dataset_name(cmd: &RegressionCommands) -> (r: &String)
    ensures
        r@ == dataset_of(*cmd),
{
    match cmd {
        RegressionCommands::Ols { dataset, .. } => dataset,
        RegressionCommands::Clustered { dataset, .. } => dataset,
        RegressionCommands::Diagnostics { dataset, .. } => dataset,
        RegressionCommands::Quantreg { dataset, .. } => dataset,
        RegressionCommands::Loess { dataset, .. } => dataset,
        RegressionCommands::Nls { dataset, .. } => dataset,
        RegressionCommands::Gls { dataset, .. } => dataset,
        RegressionCommands::Step { dataset, .. } => dataset,
        RegressionCommands::SmoothSpline { dataset, .. } => dataset,
        RegressionCommands::Supsmu { dataset, .. } => dataset,
        RegressionCommands::Line { dataset, .. } => dataset,
        RegressionCommands::Hac { dataset, .. } => dataset,
    }
}

/// The wording of the no-session error of each command.
pub open spec fn session_hint(cmd: RegressionCommands) -> SessionHint {
    match cmd {
        RegressionCommands::Ols { .. } | RegressionCommands::Clustered { .. } | RegressionCommands::Diagnostics { .. } => SessionHint::Long,
        _ => SessionHint::Short,
    }
}

/// Checks that the session (`None` when none is active) holds the dataset
/// a command works on; the error says whether the session or the dataset
/// is missing.
pub fn execute(cmd: &RegressionCommands, held: &Option<Vec<String>>) -> (r: Result<(), String>)
    ensures
        match r {
            Ok(()) => holds(held_view(*held), dataset_of(*cmd)),
            Err(msg) => !holds(held_view(*held), dataset_of(*cmd)) && msg@ == (if held is None {
                no_session_text(session_hint(*cmd))
            } else {
                not_found_text(dataset_of(*cmd))
            }),
        },
{
    let hint = match cmd {
        RegressionCommands::Ols { .. } | RegressionCommands::Clustered { .. } | RegressionCommands::Diagnostics { .. } => SessionHint::Long,
        _ => SessionHint::Short,
    };
    require_dataset(held, dataset_name(cmd), hint)
}


} // verus!
