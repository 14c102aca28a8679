//! Time series options: the keywords each method accepts, and the
//! lists that some methods take as comma-separated text.

use vstd::prelude::*;
use crate::common::{
    Real, SessionHint, held_view, holds, lowered, no_session_text, not_found_text, option_is, require_dataset,
};
use crate::text::{all_ascii, ascii_lowercase, lowercase, parse_usize, split_trimmed, trimmed_pieces, usize_text, views};

verus! {

/// What a change point marks a change in.
#[derive(Clone, Copy, Debug, PartialEq, Eq, Structural)]
pub enum CostFunction {
    MeanChange,
    VarianceChange,
    MeanAndVariance,
}

/// The change type that a lower-cased option word selects; any other word
/// selects `MeanChange`.
pub open spec fn cost_function_of(w: Seq<char>) -> CostFunction {
    if w == "variance"@ {
        CostFunction::VarianceChange
    } else if w == "both"@ {
        CostFunction::MeanAndVariance
    } else {
        CostFunction::MeanChange
    }
}

/// Reads the change type option, without regard to case.
pub fn parse_change_type(option: &str) -> (r: CostFunction)
    ensures
        r == cost_function_of(lowercase(option@)),
        all_ascii(option@) ==> r == cost_function_of(ascii_lowercase(option@)),
{
    let w = lowered(option);
    if option_is(&w, "variance") {
        CostFunction::VarianceChange
    } else if option_is(&w, "both") {
        CostFunction::MeanAndVariance
    } else {
        CostFunction::MeanChange
    }
}

/// How the seasonal component of Holt-Winters smoothing combines.
#[derive(Clone, Copy, Debug, PartialEq, Eq, Structural)]
pub enum SeasonalType {
    Additive,
    Multiplicative,
}

/// The seasonal form that a lower-cased option word selects; any other word
/// selects `Additive`.
pub open spec fn seasonal_type_of(w: Seq<char>) -> SeasonalType {
    if w == "multiplicative"@ || w == "mult"@ {
        SeasonalType::Multiplicative
    } else {
        SeasonalType::Additive
    }
}

/// Reads the seasonal form option, without regard to case.
pub fn parse_seasonal(option: &str) -> (r: SeasonalType)
    ensures
        r == seasonal_type_of(lowercase(option@)),
        all_ascii(option@) ==> r == seasonal_type_of(ascii_lowercase(option@)),
{
    let w = lowered(option);
    if option_is(&w, "multiplicative") || option_is(&w, "mult") {
        SeasonalType::Multiplicative
    } else {
        SeasonalType::Additive
    }
}

/// How an autoregressive model is fitted.
#[derive(Clone, Copy, Debug, PartialEq, Eq, Structural)]
pub enum ArMethod {
    YuleWalker,
    Burg,
    Ols,
}

/// The fitting method that a lower-cased option word selects; any other word
/// selects `YuleWalker`.
pub open spec fn ar_method_of(w: Seq<char>) -> ArMethod {
    if w == "burg"@ {
        ArMethod::Burg
    } else if w == "ols"@ {
        ArMethod::Ols
    } else {
        ArMethod::YuleWalker
    }
}

/// Reads the fitting method option, without regard to case.
pub fn parse_ar_method(option: &str) -> (r: ArMethod)
    ensures
        r == ar_method_of(lowercase(option@)),
        all_ascii(option@) ==> r == ar_method_of(ascii_lowercase(option@)),
{
    let w = lowered(option);
    if option_is(&w, "burg") {
        ArMethod::Burg
    } else if option_is(&w, "ols") {
        ArMethod::Ols
    } else {
        ArMethod::YuleWalker
    }
}

/// How a classical decomposition combines its components.
#[derive(Clone, Copy, Debug, PartialEq, Eq, Structural)]
pub enum DecomposeType {
    Additive,
    Multiplicative,
}

/// The decomposition form that a lower-cased option word selects; any other word
/// selects `Additive`.
pub open spec fn decompose_type_of(w: Seq<char>) -> DecomposeType {
    if w == "multiplicative"@ || w == "mult"@ {
        DecomposeType::Multiplicative
    } else {
        DecomposeType::Additive
    }
}

/// Reads the decomposition form option, without regard to case.
pub fn parse_decompose_type(option: &str) -> (r: DecomposeType)
    ensures
        r == decompose_type_of(lowercase(option@)),
        all_ascii(option@) ==> r == decompose_type_of(ascii_lowercase(option@)),
{
    let w = lowered(option);
    if option_is(&w, "multiplicative") || option_is(&w, "mult") {
        DecomposeType::Multiplicative
    } else {
        DecomposeType::Additive
    }
}

/// The structural time series model.
#[derive(Clone, Copy, Debug, PartialEq, Eq, Structural)]
pub enum StructTsType {
    Level,
    Trend,
    BSM,
}

/// The structural model that a lower-cased option word selects; any other word
/// selects `Level`.
pub open spec fn struct_ts_type_of(w: Seq<char>) -> StructTsType {
    if w == "trend"@ {
        StructTsType::Trend
    } else if w == "bsm"@ {
        StructTsType::BSM
    } else {
        StructTsType::Level
    }
}

/// Reads the structural model option, without regard to case.
pub fn parse_struct_ts_type(option: &str) -> (r: StructTsType)
    ensures
        r == struct_ts_type_of(lowercase(option@)),
        all_ascii(option@) ==> r == struct_ts_type_of(ascii_lowercase(option@)),
{
    let w = lowered(option);
    if option_is(&w, "trend") {
        StructTsType::Trend
    } else if option_is(&w, "bsm") {
        StructTsType::BSM
    } else {
        StructTsType::Level
    }
}

/// The numbers among the pieces, in order; pieces that are not numbers
/// are skipped.
pub open spec fn numbers_among(pieces: Seq<Seq<char>>) -> Seq<usize>
    decreases pieces.len(),
{
    if pieces.len() == 0 {
        Seq::empty()
    } else {
        let rest = numbers_among(pieces.drop_last());
        match usize_text(pieces.last()) {
            Some(n) => rest.push(n),
            None => rest,
        }
    }
}

/// The control series of a causal impact analysis, given as
/// comma-separated names.
pub fn control_columns(controls: &Option<String>) -> (r: Option<Vec<String>>)
    ensures
        match (r, *controls) {
            (Some(v), Some(c)) => views(v@) == trimmed_pieces(c@, ','),
            (None, None) => true,
            _ => false,
        },
{
    match controls {
        Some(c) => Some(split_trimmed(c.as_str(), ',')),
        None => None,
    }
}

/// The smoothing spans of a spectrum estimate, given as comma-separated
/// numbers; entries that are not numbers are skipped.
pub fn span_list(spans: &Option<String>) -> (r: Option<Vec<usize>>)
    ensures
        match (r, *spans) {
            (Some(v), Some(s)) => v@ == numbers_among(trimmed_pieces(s@, ',')),
            (None, None) => true,
            _ => false,
        },
{
    match spans {
        None => None,
        Some(s) => {
            let pieces = split_trimmed(s.as_str(), ',');
            let ghost all = views(pieces@);
            let mut out: Vec<usize> = Vec::new();
            let mut i: usize = 0;
            proof {
                assert(all.take(0) =~= Seq::<Seq<char>>::empty());
            }
            while i < pieces.len()
                invariant
                    i <= pieces@.len(),
                    all == views(pieces@),
                    out@ == numbers_among(all.take(i as int)),
                decreases pieces@.len() - i,
            {
                proof {
                    assert(all.take(i + 1).drop_last() =~= all.take(i as int));
                    assert(all.take(i + 1).last() == pieces@[i as int]@);
                }
                match parse_usize(pieces[i].as_str()) {
                    Some(n) => out.push(n),
                    None => {},
                }
                i = i + 1;
            }
            proof {
                assert(all.take(pieces@.len() as int) =~= all);
            }
            Some(out)
        },
    }
}

/// Time series commands.
pub enum TimeseriesCommands {
    /// ARIMA model estimation and forecasting
    Arima {
        dataset: String,
        col: String,
        ar: usize,
        diff: usize,
        ma: usize,
        horizon: Option<usize>,
    },
    /// MSTL seasonal decomposition
    Mstl {
        dataset: String,
        col: String,
        periods: Vec<usize>,
    },
    /// Vector Autoregression
    Var {
        dataset: String,
        cols: Vec<String>,
        lags: usize,
    },
    /// Vector ARMA model
    Varma {
        dataset: String,
        cols: Vec<String>,
        ar: usize,
        ma: usize,
    },
    /// Vector Error Correction Model (cointegration)
    Vecm {
        dataset: String,
        cols: Vec<String>,
        lags: usize,
        rank: usize,
    },
    /// Impulse Response Function from VAR model
    Irf {
        dataset: String,
        cols: Vec<String>,
        lags: usize,
        steps: usize,
    },
    /// Changepoint detection (PELT algorithm)
    Changepoint {
        dataset: String,
        col: String,
        penalty: Option<Real>,
        min_segment: Option<usize>,
        change_type: String,
    },
    /// GARCH volatility model
    Garch {
        dataset: String,
        col: String,
        arch: usize,
        garch: usize,
        horizon: Option<usize>,
    },
    /// Holt-Winters exponential smoothing
    HoltWinters {
        dataset: String,
        col: String,
        period: usize,
        seasonal: String,
        horizon: Option<usize>,
    },
    /// Granger causality test
    Granger {
        dataset: String,
        x: String,
        y: String,
        lags: usize,
    },
    /// Autoregressive (AR) model fitting
    Ar {
        dataset: String,
        col: String,
        order: Option<usize>,
        method: String,
        aic: bool,
    },
    /// STL decomposition (Seasonal-Trend using LOESS)
    Stl {
        dataset: String,
        col: String,
        period: usize,
        robust: bool,
    },
    /// Classical seasonal decomposition (moving averages)
    Decompose {
        dataset: String,
        col: String,
        period: usize,
        decompose_type: String,
    },
    /// Structural time series (state space) model
    StructTs {
        dataset: String,
        col: String,
        model_type: String,
        period: Option<usize>,
    },
    /// Bayesian structural time series causal inference (CausalImpact)
    CausalImpact {
        dataset: String,
        response: String,
        time: String,
        pre_start: i64,
        pre_end: i64,
        post_start: i64,
        post_end: i64,
        controls: Option<String>,
    },
    /// Spectral density estimation (periodogram)
    Spectrum {
        dataset: String,
        col: String,
        spans: Option<String>,
        taper: Real,
        detrend: bool,
    },
}

/// The dataset a command works on.
pub open spec fn dataset_of(cmd: TimeseriesCommands) -> Seq<char> {
    match cmd {
        TimeseriesCommands::Arima { dataset, .. } => dataset@,
        TimeseriesCommands::Mstl { dataset, .. } => dataset@,
        TimeseriesCommands::Var { dataset, .. } => dataset@,
        TimeseriesCommands::Varma { dataset, .. } => dataset@,
        TimeseriesCommands::Vecm { dataset, .. } => dataset@,
        TimeseriesCommands::Irf { dataset, .. } => dataset@,
        TimeseriesCommands::Changepoint { dataset, .. } => dataset@,
        TimeseriesCommands::Garch { dataset, .. } => dataset@,
        TimeseriesCommands::HoltWinters { dataset, .. } => dataset@,
        TimeseriesCommands::Granger { dataset, .. } => dataset@,
        TimeseriesCommands::Ar { dataset, .. } => dataset@,
        TimeseriesCommands::Stl { dataset, .. } => dataset@,
        TimeseriesCommands::Decompose { dataset, .. } => dataset@,
        TimeseriesCommands::StructTs { dataset, .. } => dataset@,
        TimeseriesCommands::CausalImpact { dataset, .. } => dataset@,
        TimeseriesCommands::Spectrum { dataset, .. } => dataset@,
    }
}

fn dataset_name(cmd: &TimeseriesCommands) -> (r: &String)
    ensures
        r@ == dataset_of(*cmd),
{
    match cmd {
        TimeseriesCommands::Arima { dataset, .. } => dataset,
        TimeseriesCommands::Mstl { dataset, .. } => dataset,
        TimeseriesCommands::Var { dataset, .. } => dataset,
        TimeseriesCommands::Varma { dataset, .. } => dataset,
        TimeseriesCommands::Vecm { dataset, .. } => dataset,
        TimeseriesCommands::Irf { dataset, .. } => dataset,
        TimeseriesCommands::Changepoint { dataset, .. } => dataset,
        TimeseriesCommands::Garch { dataset, .. } => dataset,
        TimeseriesCommands::HoltWinters { dataset, .. } => dataset,
        TimeseriesCommands::Granger { dataset, .. } => dataset,
        TimeseriesCommands::Ar { dataset, .. } => dataset,
        TimeseriesCommands::Stl { dataset, .. } => dataset,
        TimeseriesCommands::Decompose { dataset, .. } => dataset,
        TimeseriesCommands::StructTs { dataset, .. } => dataset,
        TimeseriesCommands::CausalImpact { dataset, .. } => dataset,
        TimeseriesCommands::Spectrum { dataset, .. } => dataset,
    }
}

/// The wording of the no-session error of each command.
pub open spec fn session_hint(cmd: TimeseriesCommands) -> SessionHint {
    match cmd {
        TimeseriesCommands::Arima { .. } | TimeseriesCommands::Mstl { .. } | TimeseriesCommands::Var { .. } => SessionHint::Long,
        _ => SessionHint::Short,
    }
}

/// Checks that the session (`None` when none is active) holds the dataset
/// a command works on; the error says whether the session or the dataset
/// is missing.
pub fn execute(cmd: &TimeseriesCommands, held: &Option<Vec<String>>) -> (r: Result<(), String>)
    ensures
        match r {
            Ok(()) => holds(held_view(*held), dataset_of(*cmd)),
            Err(msg) => !holds(held_view(*held), dataset_of(*cmd)) && msg@ == (if held is None {
                no_session_text(session_hint(*cmd))
            } else {
                not_found_text(dataset_of(*cmd))
            }),
        },
{
    let hint = match cmd {
        TimeseriesCommands::Arima { .. } | TimeseriesCommands::Mstl { .. } | TimeseriesCommands::Var { .. } => SessionHint::Long,
        _ => SessionHint::Short,
    };
    require_dataset(held, dataset_name(cmd), hint)
}


/// The options of a time series command once its keywords and lists are
/// read.
pub enum TimeseriesPlan {
    /// The command has no keyword to read.
    Plain,
    Changepoint { cost: CostFunction },
    HoltWinters { seasonal: SeasonalType },
    Ar { method: ArMethod },
    Decompose { kind: DecomposeType },
    StructTs { kind: StructTsType },
    /// The control series, `None` when none were given.
    CausalImpact { controls: Option<Vec<String>> },
    /// The smoothing spans, `None` when none were given.
    Spectrum { spans: Option<Vec<usize>> },
}

/// The plan carries the command's keywords, read without regard to case,
/// and its comma-separated lists.
pub open spec fn planned(cmd: TimeseriesCommands, plan: TimeseriesPlan) -> bool {
    match cmd {
        TimeseriesCommands::Changepoint { change_type, .. } => match plan {
            TimeseriesPlan::Changepoint { cost } => cost == cost_function_of(lowercase(change_type@)),
            _ => false,
        },
        TimeseriesCommands::HoltWinters { seasonal, .. } => match plan {
            TimeseriesPlan::HoltWinters { seasonal: k } => k == seasonal_type_of(lowercase(seasonal@)),
            _ => false,
        },
        TimeseriesCommands::Ar { method, .. } => match plan {
            TimeseriesPlan::Ar { method: m } => m == ar_method_of(lowercase(method@)),
            _ => false,
        },
        TimeseriesCommands::Decompose { decompose_type, .. } => match plan {
            TimeseriesPlan::Decompose { kind } => kind == decompose_type_of(lowercase(decompose_type@)),
            _ => false,
        },
        TimeseriesCommands::StructTs { model_type, .. } => match plan {
            TimeseriesPlan::StructTs { kind } => kind == struct_ts_type_of(lowercase(model_type@)),
            _ => false,
        },
        TimeseriesCommands::CausalImpact { controls, .. } => match plan {
            TimeseriesPlan::CausalImpact { controls: c } => match (c, controls) {
                (Some(v), Some(t)) => views(v@) == trimmed_pieces(t@, ','),
                (None, None) => true,
                _ => false,
            },
            _ => false,
        },
        TimeseriesCommands::Spectrum { spans, .. } => match plan {
            TimeseriesPlan::Spectrum { spans: sp } => match (sp, spans) {
                (Some(v), Some(t)) => v@ == numbers_among(trimmed_pieces(t@, ',')),
                (None, None) => true,
                _ => false,
            },
            _ => false,
        },
        _ => plan is Plain,
    }
}

/// Reads the keywords and lists of a time series command.
pub fn plan(cmd: &TimeseriesCommands) -> (r: TimeseriesPlan)
    ensures
        planned(*cmd, r),
{
    match cmd {
        TimeseriesCommands::Changepoint { change_type, .. } => TimeseriesPlan::Changepoint {
            cost: parse_change_type(change_type.as_str()),
        },
        TimeseriesCommands::HoltWinters { seasonal, .. } => TimeseriesPlan::HoltWinters {
            seasonal: parse_seasonal(seasonal.as_str()),
        },
        TimeseriesCommands::Ar { method, .. } => TimeseriesPlan::Ar {
            method: parse_ar_method(method.as_str()),
        },
        TimeseriesCommands::Decompose { decompose_type, .. } => TimeseriesPlan::Decompose {
            kind: parse_decompose_type(decompose_type.as_str()),
        },
        TimeseriesCommands::StructTs { model_type, .. } => TimeseriesPlan::StructTs {
            kind: parse_struct_ts_type(model_type.as_str()),
        },
        TimeseriesCommands::CausalImpact { controls, .. } => TimeseriesPlan::CausalImpact {
            controls: control_columns(controls),
        },
        TimeseriesCommands::Spectrum { spans, .. } => TimeseriesPlan::Spectrum {
            spans: span_list(spans),
        },
        _ => TimeseriesPlan::Plain,
    }
}

/// The option word of `cost_function_of`, read without regard to case, selects the
/// choice it names (`variance`, `both`); any other word selects the default, MeanChange.
pub proof fn law_cost_function_words(option: Seq<char>)
    ensures
        lowercase(option) == "variance"@ ==> cost_function_of(lowercase(option)) == CostFunction::VarianceChange,
        lowercase(option) == "both"@ ==> cost_function_of(lowercase(option)) == CostFunction::MeanAndVariance,
        lowercase(option) != "variance"@ && lowercase(option) != "both"@ ==> cost_function_of(lowercase(option)) == CostFunction::MeanChange,
{
    reveal_strlit("variance");
    assert("variance"@ =~= seq!['v', 'a', 'r', 'i', 'a', 'n', 'c', 'e']);
    reveal_strlit("both");
    assert("both"@ =~= seq!['b', 'o', 't', 'h']);
}

/// The option word of `seasonal_type_of`, read without regard to case, selects the
/// choice it names (`multiplicative`, `mult`); any other word selects the default, Additive.
pub proof fn law_seasonal_type_words(option: Seq<char>)
    ensures
        (lowercase(option) == "multiplicative"@ || lowercase(option) == "mult"@) ==> seasonal_type_of(lowercase(option)) == SeasonalType::Multiplicative,
        lowercase(option) != "multiplicative"@ && lowercase(option) != "mult"@ ==> seasonal_type_of(lowercase(option)) == SeasonalType::Additive,
{
    reveal_strlit("multiplicative");
    assert("multiplicative"@ =~= seq!['m', 'u', 'l', 't', 'i', 'p', 'l', 'i', 'c', 'a', 't', 'i', 'v', 'e']);
    reveal_strlit("mult");
    assert("mult"@ =~= seq!['m', 'u', 'l', 't']);
}

/// The option word of `ar_method_of`, read without regard to case, selects the
/// choice it names (`burg`, `ols`); any other word selects the default, YuleWalker.
pub proof fn law_ar_method_words(option: Seq<char>)
    ensures
        lowercase(option) == "burg"@ ==> ar_method_of(lowercase(option)) == ArMethod::Burg,
        lowercase(option) == "ols"@ ==> ar_method_of(lowercase(option)) == ArMethod::Ols,
        lowercase(option) != "burg"@ && lowercase(option) != "ols"@ ==> ar_method_of(lowercase(option)) == ArMethod::YuleWalker,
{
    reveal_strlit("burg");
    assert("burg"@ =~= seq!['b', 'u', 'r', 'g']);
    reveal_strlit("ols");
    assert("ols"@ =~= seq!['o', 'l', 's']);
}

/// The option word of `decompose_type_of`, read without regard to case, selects the
/// choice it names (`multiplicative`, `mult`); any other word selects the default, Additive.
pub proof fn law_decompose_type_words(option: Seq<char>)
    ensures
        (lowercase(option) == "multiplicative"@ || lowercase(option) == "mult"@) ==> decompose_type_of(lowercase(option)) == DecomposeType::Multiplicative,
        lowercase(option) != "multiplicative"@ && lowercase(option) != "mult"@ ==> decompose_type_of(lowercase(option)) == DecomposeType::Additive,
{
    reveal_strlit("multiplicative");
    assert("multiplicative"@ =~= seq!['m', 'u', 'l', 't', 'i', 'p', 'l', 'i', 'c', 'a', 't', 'i', 'v', 'e']);
    reveal_strlit("mult");
    assert("mult"@ =~= seq!['m', 'u', 'l', 't']);
}

/// The option word of `struct_ts_type_of`, read without regard to case, selects the
/// choice it names (`trend`, `bsm`); any other word selects the default, Level.
pub proof fn law_struct_ts_type_words(option: Seq<char>)
    ensures
        lowercase(option) == "trend"@ ==> struct_ts_type_of(lowercase(option)) == StructTsType::Trend,
        lowercase(option) == "bsm"@ ==> struct_ts_type_of(lowercase(option)) == StructTsType::BSM,
        lowercase(option) != "trend"@ && lowercase(option) != "bsm"@ ==> struct_ts_type_of(lowercase(option)) == StructTsType::Level,
{
    reveal_strlit("trend");
    assert("trend"@ =~= seq!['t', 'r', 'e', 'n', 'd']);
    reveal_strlit("bsm");
    assert("bsm"@ =~= seq!['b', 's', 'm']);
}

} // verus!
