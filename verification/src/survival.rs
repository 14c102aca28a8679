//! Survival analysis options.

use vstd::prelude::*;
use crate::common::{
    Real, SessionHint, held_view, holds, lowered, no_session_text, not_found_text, option_is, require_dataset,
};
use crate::text::{all_ascii, ascii_lowercase, lowercase};

verus! {

/// How tied event times are handled in a Cox model.
#[derive(Clone, Copy, Debug, PartialEq, Eq, Structural)]
pub enum TiesMethod {
    Breslow,
    Efron,
}

/// The ties method that a lower-cased option word selects; any other word
/// selects `Breslow`.
pub open spec fn ties_method_of(w: Seq<char>) -> TiesMethod {
    if w == "efron"@ {
        TiesMethod::Efron
    } else {
        TiesMethod::Breslow
    }
}

/// Reads the ties method option, without regard to case.
pub fn parse_ties(option: &str) -> (r: TiesMethod)
    ensures
        r == ties_method_of(lowercase(option@)),
        all_ascii(option@) ==> r == ties_method_of(ascii_lowercase(option@)),
{
    let w = lowered(option);
    if option_is(&w, "efron") {
        TiesMethod::Efron
    } else {
        TiesMethod::Breslow
    }
}

/// Survival analysis commands.
pub enum SurvivalCommands {
    /// Kaplan-Meier survival curve estimation
    Km {
        dataset: String,
        time: String,
        event: String,
        group: Option<String>,
        conf: Real,
    },
    /// Log-rank test comparing survival curves between groups
    LogRank {
        dataset: String,
        time: String,
        event: String,
        group: String,
    },
    /// Cox Proportional Hazards regression
    Cox {
        dataset: String,
        time: String,
        event: String,
        covariates: Vec<String>,
        ties: String,
        robust: bool,
    },
    /// Accelerated Failure Time model
    Aft {
        dataset: String,
        time: String,
        event: String,
        covariates: Vec<String>,
        dist: String,
    },
    /// Competing risks analysis (cumulative incidence)
    CompetingRisks {
        dataset: String,
        time: String,
        event_type: String,
        conf: Real,
    },
}

/// The dataset a command works on.
pub open spec fn dataset_of(cmd: SurvivalCommands) -> Seq<char> {
    match cmd {
        SurvivalCommands::Km { dataset, .. } => dataset@,
        SurvivalCommands::LogRank { dataset, .. } => dataset@,
        SurvivalCommands::Cox { dataset, .. } => dataset@,
        SurvivalCommands::Aft { dataset, .. } => dataset@,
        SurvivalCommands::CompetingRisks { dataset, .. } => dataset@,
    }
}

fn dataset_name(cmd: &SurvivalCommands) -> (r: &String)
    ensures
        r@ == dataset_of(*cmd),
{
    match cmd {
        SurvivalCommands::Km { dataset, .. } => dataset,
        SurvivalCommands::LogRank { dataset, .. } => dataset,
        SurvivalCommands::Cox { dataset, .. } => dataset,
        SurvivalCommands::Aft { dataset, .. } => dataset,
        SurvivalCommands::CompetingRisks { dataset, .. } => dataset,
    }
}

/// The wording of the no-session error of each command.
pub open spec fn session_hint(cmd: SurvivalCommands) -> SessionHint {
    match cmd {
        _ => SessionHint::Long,
    }
}

/// Checks that the session (`None` when none is active) holds the dataset
/// a command works on; the error says whether the session or the dataset
/// is missing.
pub fn execute(cmd: &SurvivalCommands, held: &Option<Vec<String>>) -> (r: Result<(), String>)
    ensures
        match r {
            Ok(()) => holds(held_view(*held), dataset_of(*cmd)),
            Err(msg) => !holds(held_view(*held), dataset_of(*cmd)) && msg@ == (if held is None {
                no_session_text(session_hint(*cmd))
            } else {
                not_found_text(dataset_of(*cmd))
            }),
        },
{
    let hint = match cmd {
        _ => SessionHint::Long,
    };
    require_dataset(held, dataset_name(cmd), hint)
}


/// How tied event times are handled by a command: for a Cox model, the
/// method its option names; `None` for the other commands.
pub fn ties_of_command(cmd: &SurvivalCommands) -> (r: Option<TiesMethod>)
    ensures
        match *cmd {
            SurvivalCommands::Cox { ties, .. } => r == Some(ties_method_of(lowercase(ties@))),
            _ => r is None,
        },
{
    match cmd {
        SurvivalCommands::Cox { ties, .. } => Some(parse_ties(ties.as_str())),
        _ => None,
    }
}

/// The option word of `ties_method_of`, read without regard to case, selects the
/// choice it names (`efron`); any other word selects the default, Breslow.
pub proof fn law_ties_method_words(option: Seq<char>)
    ensures
        lowercase(option) == "efron"@ ==> ties_method_of(lowercase(option)) == TiesMethod::Efron,
        lowercase(option) != "efron"@ ==> ties_method_of(lowercase(option)) == TiesMethod::Breslow,
{
    reveal_strlit("efron");
    assert("efron"@ =~= seq!['e', 'f', 'r', 'o', 'n']);
}

} // verus!
