//! The command line of the analytics front end: global options and the
//! command groups.

use vstd::prelude::*;
use crate::causal::CausalCommands;
use crate::data::DataCommands;
use crate::discrete::DiscreteCommands;
use crate::ml::MlCommands;
use crate::munge::MungeCommands;
use crate::output::OutputFormat;
use crate::panel::PanelCommands;
use crate::regression::RegressionCommands;
use crate::script::ScriptCommands;
use crate::stats::StatsCommands;
use crate::survival::SurvivalCommands;
use crate::timeseries::TimeseriesCommands;
use crate::viz::VizCommands;

verus! {

/// p2a - Analytics from the command line
pub struct Cli {
    /// Output format: text, json, or table
    pub format: OutputFormat,
    /// Session file for recording commands (enables reproducibility)
    pub session: Option<String>,
    /// Suppress non-essential output
    pub quiet: bool,
    /// The command to run
    pub command: Commands,
}

/// The command groups.
pub enum Commands {
    /// Data loading and inspection
    Data(DataCommands),
    /// Data munging (filter, join, reshape, clean, aggregate)
    Munge(MungeCommands),
    /// Regression analysis
    Regression(RegressionCommands),
    /// Panel data estimation
    Panel(PanelCommands),
    /// Causal inference methods
    Causal(CausalCommands),
    /// Discrete choice models
    Discrete(DiscreteCommands),
    /// Statistical tests and descriptive statistics
    Stats(StatsCommands),
    /// Time series analysis
    Timeseries(TimeseriesCommands),
    /// Survival analysis
    Survival(SurvivalCommands),
    /// Machine learning
    MachineLearning(MlCommands),
    /// Visualization (output to file)
    Visualize(VizCommands),
    /// Script generation and session management
    Script(ScriptCommands),
    /// Run a smoke test to verify the CLI works correctly
    SmokeTest,
}

} // verus!
