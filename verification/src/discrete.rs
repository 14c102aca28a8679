//! Discrete choice model commands: which estimation each command asks for.

use vstd::prelude::*;
use crate::common::{
    SessionHint, clone_opt_strings, clone_strings, held_view, holds, lowered, no_session_text, not_found_text, option_is, require_dataset, same_opt_names,
};
use crate::text::lowercase;

verus! {

/// Discrete choice model commands.
pub enum DiscreteCommands {
    /// Logit (logistic regression)
    Logit { dataset: String, dep_var: String, indep_vars: Vec<String> },
    /// Probit regression
    Probit { dataset: String, dep_var: String, indep_vars: Vec<String> },
    /// Ordered Logit (proportional odds model)
    OLogit { dataset: String, dep_var: String, indep_vars: Vec<String> },
    /// Ordered Probit
    OProbit { dataset: String, dep_var: String, indep_vars: Vec<String> },
    /// Multinomial Logit; `base` is the reference category (not used by the estimator)
    Mlogit { dataset: String, dep_var: String, indep_vars: Vec<String>, base: Option<String> },
    /// Negative Binomial regression (count data with overdispersion)
    Negbin { dataset: String, dep_var: String, indep_vars: Vec<String> },
    /// Poisson regression (count data)
    Poisson { dataset: String, dep_var: String, indep_vars: Vec<String> },
    /// Zero-Inflated Poisson (ZIP) model
    Zip {
        dataset: String,
        dep_var: String,
        indep_vars: Vec<String>,
        zero_vars: Option<Vec<String>>,
    },
    /// Zero-Inflated Negative Binomial (ZINB) model
    Zinb {
        dataset: String,
        dep_var: String,
        indep_vars: Vec<String>,
        zero_vars: Option<Vec<String>>,
    },
    /// Hurdle model (two-part: binary + truncated count); `dist` is
    /// `poisson` or `negbin`
    Hurdle {
        dataset: String,
        dep_var: String,
        indep_vars: Vec<String>,
        zero_vars: Option<Vec<String>>,
        dist: String,
    },
    /// Conditional Logit (McFadden's choice model)
    Clogit {
        dataset: String,
        choice_id: String,
        alt_id: String,
        choice: String,
        indep_vars: Vec<String>,
        reference: Option<String>,
    },
    /// Mixed Logit / Random Parameters Logit
    MixedLogit {
        dataset: String,
        choice_id: String,
        alt_id: String,
        choice: String,
        indep_vars: Vec<String>,
        random_vars: Option<Vec<String>>,
        n_draws: usize,
    },
}

/// Estimators of a binary, ordered, multinomial or count outcome that take
/// a dependent variable and regressors.
#[derive(Clone, Copy, PartialEq, Eq, Structural)]
pub enum OutcomeModel {
    Logit,
    Probit,
    OrderedLogit,
    OrderedProbit,
    Multinomial,
    NegativeBinomial,
    Poisson,
}

/// Count distribution of a hurdle model.
#[derive(Clone, Copy, PartialEq, Eq, Structural)]
pub enum HurdleDist {
    Poisson,
    NegBin,
}

/// Settings of the mixed logit simulation. The estimator's convergence
/// tolerance is `1e-6`.
pub struct MixedLogitSettings {
    /// Number of simulation draws.
    pub n_draws: usize,
    /// Halton draws are used.
    pub halton: bool,
    /// Iteration limit.
    pub max_iter: usize,
    /// Seed of the draws.
    pub seed: u64,
}

/// The estimation a discrete command asks for, with its resolved options.
pub enum DiscreteRequest {
    /// An outcome model on a dependent variable and regressors.
    Outcome { model: OutcomeModel, dataset: String, dep_var: String, indep_vars: Vec<String> },
    /// Zero-inflated count model, Poisson or negative binomial.
    ZeroInflated {
        negative_binomial: bool,
        dataset: String,
        dep_var: String,
        indep_vars: Vec<String>,
        zero_vars: Option<Vec<String>>,
    },
    /// Hurdle model.
    Hurdle {
        dist: HurdleDist,
        dataset: String,
        dep_var: String,
        indep_vars: Vec<String>,
        zero_vars: Option<Vec<String>>,
    },
    /// Conditional logit.
    ConditionalLogit {
        dataset: String,
        choice_id: String,
        alt_id: String,
        choice: String,
        indep_vars: Vec<String>,
        reference: Option<String>,
    },
    /// Mixed logit; every random parameter is normally distributed.
    MixedLogit {
        dataset: String,
        choice_id: String,
        alt_id: String,
        choice: String,
        indep_vars: Vec<String>,
        random_vars: Vec<String>,
        settings: MixedLogitSettings,
    },
}

/// The hurdle distribution an option names: `negbin` or `nb` (any case)
/// select the negative binomial, anything else Poisson.
pub open spec fn hurdle_dist_of(dist: Seq<char>) -> HurdleDist {
    let d = lowercase(dist);
    if d == "negbin"@ || d == "nb"@ {
        HurdleDist::NegBin
    } else {
        HurdleDist::Poisson
    }
}

/// Parse the count distribution of a hurdle model.
pub fn parse_hurdle_dist(dist: &str) -> (r: HurdleDist)
    ensures
        r == hurdle_dist_of(dist@),
{
    let d = lowered(dist);
    if option_is(&d, "negbin") || option_is(&d, "nb") {
        HurdleDist::NegBin
    } else {
        HurdleDist::Poisson
    }
}

/// The wording of the no-session error of each command.
pub open spec fn discrete_hint(cmd: DiscreteCommands) -> SessionHint {
    match cmd {
        DiscreteCommands::Logit { .. } | DiscreteCommands::Probit { .. } => SessionHint::Long,
        _ => SessionHint::Short,
    }
}

} // verus!

verus! {

/// The request matches the command: same dataset and columns, the model the
/// command names, and its options resolved.
pub open spec fn requested(cmd: DiscreteCommands, req: DiscreteRequest) -> bool {
    match req {
        DiscreteRequest::Outcome { model, dataset: d, dep_var: y, indep_vars: x } => match cmd {
            DiscreteCommands::Logit { dataset, dep_var, indep_vars } => model == OutcomeModel::Logit
                && d == dataset && y == dep_var && x@ == indep_vars@,
            DiscreteCommands::Probit { dataset, dep_var, indep_vars } => model
                == OutcomeModel::Probit && d == dataset && y == dep_var && x@ == indep_vars@,
            DiscreteCommands::OLogit { dataset, dep_var, indep_vars } => model
                == OutcomeModel::OrderedLogit && d == dataset && y == dep_var && x@ == indep_vars@,
            DiscreteCommands::OProbit { dataset, dep_var, indep_vars } => model
                == OutcomeModel::OrderedProbit && d == dataset && y == dep_var && x@ == indep_vars@,
            DiscreteCommands::Mlogit { dataset, dep_var, indep_vars, .. } => model
                == OutcomeModel::Multinomial && d == dataset && y == dep_var && x@ == indep_vars@,
            DiscreteCommands::Negbin { dataset, dep_var, indep_vars } => model
                == OutcomeModel::NegativeBinomial && d == dataset && y == dep_var && x@
                == indep_vars@,
            DiscreteCommands::Poisson { dataset, dep_var, indep_vars } => model
                == OutcomeModel::Poisson && d == dataset && y == dep_var && x@ == indep_vars@,
            _ => false,
        },
        DiscreteRequest::ZeroInflated {
            negative_binomial,
            dataset: d,
            dep_var: y,
            indep_vars: x,
            zero_vars: z,
        } => match cmd {
            DiscreteCommands::Zip { dataset, dep_var, indep_vars, zero_vars } => !negative_binomial
                && d == dataset && y == dep_var && x@ == indep_vars@ && same_opt_names(z, zero_vars),
            DiscreteCommands::Zinb { dataset, dep_var, indep_vars, zero_vars } => negative_binomial
                && d == dataset && y == dep_var && x@ == indep_vars@ && same_opt_names(z, zero_vars),
            _ => false,
        },
        DiscreteRequest::Hurdle { dist: h, dataset: d, dep_var: y, indep_vars: x, zero_vars: z } =>
            match cmd {
            DiscreteCommands::Hurdle { dataset, dep_var, indep_vars, zero_vars, dist } => h
                == hurdle_dist_of(dist@) && d == dataset && y == dep_var && x@ == indep_vars@
                && same_opt_names(z, zero_vars),
            _ => false,
        },
        DiscreteRequest::ConditionalLogit {
            dataset: d,
            choice_id: ci,
            alt_id: ai,
            choice: ch,
            indep_vars: x,
            reference: rf,
        } => match cmd {
            DiscreteCommands::Clogit { dataset, choice_id, alt_id, choice, indep_vars, reference } =>
                d == dataset && ci == choice_id && ai == alt_id && ch == choice && x@ == indep_vars@
                && rf == reference,
            _ => false,
        },
        DiscreteRequest::MixedLogit {
            dataset: d,
            choice_id: ci,
            alt_id: ai,
            choice: ch,
            indep_vars: x,
            random_vars: rv,
            settings,
        } => match cmd {
            DiscreteCommands::MixedLogit {
                dataset,
                choice_id,
                alt_id,
                choice,
                indep_vars,
                random_vars,
                n_draws,
            } => d == dataset && ci == choice_id && ai == alt_id && ch == choice && x@
                == indep_vars@ && rv@ == match random_vars {
                Some(v) => v@,
                None => indep_vars@,
            } && settings.n_draws == n_draws && settings.halton && settings.max_iter == 200
                && settings.seed == 42,
            _ => false,
        },
    }
}

/// The dataset a command works on.
pub open spec fn dataset_of(cmd: DiscreteCommands) -> Seq<char> {
    match cmd {
        DiscreteCommands::Logit { dataset, .. } => dataset@,
        DiscreteCommands::Probit { dataset, .. } => dataset@,
        DiscreteCommands::OLogit { dataset, .. } => dataset@,
        DiscreteCommands::OProbit { dataset, .. } => dataset@,
        DiscreteCommands::Mlogit { dataset, .. } => dataset@,
        DiscreteCommands::Negbin { dataset, .. } => dataset@,
        DiscreteCommands::Poisson { dataset, .. } => dataset@,
        DiscreteCommands::Zip { dataset, .. } => dataset@,
        DiscreteCommands::Zinb { dataset, .. } => dataset@,
        DiscreteCommands::Hurdle { dataset, .. } => dataset@,
        DiscreteCommands::Clogit { dataset, .. } => dataset@,
        DiscreteCommands::MixedLogit { dataset, .. } => dataset@,
    }
}

fn dataset_name(cmd: &DiscreteCommands) -> (r: &String)
    ensures
        r@ == dataset_of(*cmd),
{
    match cmd {
        DiscreteCommands::Logit { dataset, .. } => dataset,
        DiscreteCommands::Probit { dataset, .. } => dataset,
        DiscreteCommands::OLogit { dataset, .. } => dataset,
        DiscreteCommands::OProbit { dataset, .. } => dataset,
        DiscreteCommands::Mlogit { dataset, .. } => dataset,
        DiscreteCommands::Negbin { dataset, .. } => dataset,
        DiscreteCommands::Poisson { dataset, .. } => dataset,
        DiscreteCommands::Zip { dataset, .. } => dataset,
        DiscreteCommands::Zinb { dataset, .. } => dataset,
        DiscreteCommands::Hurdle { dataset, .. } => dataset,
        DiscreteCommands::Clogit { dataset, .. } => dataset,
        DiscreteCommands::MixedLogit { dataset, .. } => dataset,
    }
}

/// Resolve a command into the estimation it asks for, once the session
/// (`None` when none is active) holds its dataset; the error says whether
/// the session or the dataset is missing.
pub fn execute(cmd: &DiscreteCommands, held: &Option<Vec<String>>) -> (r: Result<DiscreteRequest, String>)
    ensures
        match r {
            Ok(req) => holds(held_view(*held), dataset_of(*cmd)) && requested(*cmd, req),
            Err(msg) => !holds(held_view(*held), dataset_of(*cmd)) && msg@ == (if held is None {
                no_session_text(discrete_hint(*cmd))
            } else {
                not_found_text(dataset_of(*cmd))
            }),
        },
{
    let hint = match cmd {
        DiscreteCommands::Logit { .. } | DiscreteCommands::Probit { .. } => SessionHint::Long,
        _ => SessionHint::Short,
    };
    match require_dataset(held, dataset_name(cmd), hint) {
        Ok(_) => {},
        Err(e) => {
            return Err(e);
        },
    }
    let req = match cmd {
        DiscreteCommands::Logit { dataset, dep_var, indep_vars } => DiscreteRequest::Outcome {
            model: OutcomeModel::Logit,
            dataset: dataset.clone(),
            dep_var: dep_var.clone(),
            indep_vars: clone_strings(indep_vars),
        },
        DiscreteCommands::Probit { dataset, dep_var, indep_vars } => DiscreteRequest::Outcome {
            model: OutcomeModel::Probit,
            dataset: dataset.clone(),
            dep_var: dep_var.clone(),
            indep_vars: clone_strings(indep_vars),
        },
        DiscreteCommands::OLogit { dataset, dep_var, indep_vars } => DiscreteRequest::Outcome {
            model: OutcomeModel::OrderedLogit,
            dataset: dataset.clone(),
            dep_var: dep_var.clone(),
            indep_vars: clone_strings(indep_vars),
        },
        DiscreteCommands::OProbit { dataset, dep_var, indep_vars } => DiscreteRequest::Outcome {
            model: OutcomeModel::OrderedProbit,
            dataset: dataset.clone(),
            dep_var: dep_var.clone(),
            indep_vars: clone_strings(indep_vars),
        },
        DiscreteCommands::Mlogit { dataset, dep_var, indep_vars, .. } => DiscreteRequest::Outcome {
            model: OutcomeModel::Multinomial,
            dataset: dataset.clone(),
            dep_var: dep_var.clone(),
            indep_vars: clone_strings(indep_vars),
        },
        DiscreteCommands::Negbin { dataset, dep_var, indep_vars } => DiscreteRequest::Outcome {
            model: OutcomeModel::NegativeBinomial,
            dataset: dataset.clone(),
            dep_var: dep_var.clone(),
            indep_vars: clone_strings(indep_vars),
        },
        DiscreteCommands::Poisson { dataset, dep_var, indep_vars } => DiscreteRequest::Outcome {
            model: OutcomeModel::Poisson,
            dataset: dataset.clone(),
            dep_var: dep_var.clone(),
            indep_vars: clone_strings(indep_vars),
        },
        DiscreteCommands::Zip { dataset, dep_var, indep_vars, zero_vars } =>
            DiscreteRequest::ZeroInflated {
            negative_binomial: false,
            dataset: dataset.clone(),
            dep_var: dep_var.clone(),
            indep_vars: clone_strings(indep_vars),
            zero_vars: clone_opt_strings(zero_vars),
        },
        DiscreteCommands::Zinb { dataset, dep_var, indep_vars, zero_vars } =>
            DiscreteRequest::ZeroInflated {
            negative_binomial: true,
            dataset: dataset.clone(),
            dep_var: dep_var.clone(),
            indep_vars: clone_strings(indep_vars),
            zero_vars: clone_opt_strings(zero_vars),
        },
        DiscreteCommands::Hurdle { dataset, dep_var, indep_vars, zero_vars, dist } =>
            DiscreteRequest::Hurdle {
            dist: parse_hurdle_dist(dist.as_str()),
            dataset: dataset.clone(),
            dep_var: dep_var.clone(),
            indep_vars: clone_strings(indep_vars),
            zero_vars: clone_opt_strings(zero_vars),
        },
        DiscreteCommands::Clogit { dataset, choice_id, alt_id, choice, indep_vars, reference } =>
            DiscreteRequest::ConditionalLogit {
            dataset: dataset.clone(),
            choice_id: choice_id.clone(),
            alt_id: alt_id.clone(),
            choice: choice.clone(),
            indep_vars: clone_strings(indep_vars),
            reference: match reference {
                Some(x) => Some(x.clone()),
                None => None,
            },
        },
        DiscreteCommands::MixedLogit {
            dataset,
            choice_id,
            alt_id,
            choice,
            indep_vars,
            random_vars,
            n_draws,
        } => DiscreteRequest::MixedLogit {
            dataset: dataset.clone(),
            choice_id: choice_id.clone(),
            alt_id: alt_id.clone(),
            choice: choice.clone(),
            indep_vars: clone_strings(indep_vars),
            random_vars: match random_vars {
                Some(v) => clone_strings(v),
                None => clone_strings(indep_vars),
            },
            settings: MixedLogitSettings { n_draws: *n_draws, halton: true, max_iter: 200, seed: 42 },
        },
    };
    Ok(req)
}

/// The option word of `hurdle_dist_of`, read without regard to case, selects the
/// choice it names (`negbin`, `nb`); any other word selects the default, Poisson.
pub proof fn law_hurdle_dist_words(option: Seq<char>)
    ensures
        (lowercase(option) == "negbin"@ || lowercase(option) == "nb"@) ==> hurdle_dist_of(option) == HurdleDist::NegBin,
        lowercase(option) != "negbin"@ && lowercase(option) != "nb"@ ==> hurdle_dist_of(option) == HurdleDist::Poisson,
{
    reveal_strlit("negbin");
    assert("negbin"@ =~= seq!['n', 'e', 'g', 'b', 'i', 'n']);
    reveal_strlit("nb");
    assert("nb"@ =~= seq!['n', 'b']);
}

} // verus!
