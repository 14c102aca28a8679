//! Statistical test options: the alternative hypothesis of a t-test and the
//! design of a power calculation.

use vstd::prelude::*;
use crate::common::{
    Real, SessionHint, held_view, holds, no_session_text, not_found_text, require_dataset,
};

verus! {

/// The alternative hypothesis chosen on the command line.
#[derive(Clone, Copy, Debug, PartialEq, Eq, Structural)]
pub enum TTestAlternative {
    TwoSided,
    Less,
    Greater,
}

/// The alternative hypothesis of the testing routines.
#[derive(Clone, Copy, Debug, PartialEq, Eq, Structural)]
pub enum Alternative {
    TwoSided,
    Less,
    Greater,
}

/// Each choice selects the alternative of the same name.
pub open spec fn alternative_of(val: TTestAlternative) -> Alternative {
    match val {
        TTestAlternative::TwoSided => Alternative::TwoSided,
        TTestAlternative::Less => Alternative::Less,
        TTestAlternative::Greater => Alternative::Greater,
    }
}

impl From<TTestAlternative> for Alternative {
    fn from(val: TTestAlternative) -> (r: Self) {
        match val {
            TTestAlternative::TwoSided => Alternative::TwoSided,
            TTestAlternative::Less => Alternative::Less,
            TTestAlternative::Greater => Alternative::Greater,
        }
    }
}

impl vstd::std_specs::convert::FromSpecImpl<TTestAlternative> for Alternative {
    open spec fn obeys_from_spec() -> bool {
        true
    }

    open spec fn from_spec(val: TTestAlternative) -> Alternative {
        alternative_of(val)
    }
}

/// The design of a power calculation for a t-test.
#[derive(Clone, Copy, Debug, PartialEq, Eq, Structural)]
pub enum PowerTestType {
    OneSample,
    TwoSample,
    Paired,
}

/// Whether a power calculation is for a two-sided or a one-sided test.
#[derive(Clone, Copy, Debug, PartialEq, Eq, Structural)]
pub enum PowerAlt {
    TwoSided,
    OneSided,
}

/// The name under which the power routine knows a design.
pub open spec fn power_type_text(t: PowerTestType) -> Seq<char> {
    match t {
        PowerTestType::OneSample => "one.sample"@,
        PowerTestType::TwoSample => "two.sample"@,
        PowerTestType::Paired => "paired"@,
    }
}

/// The name under which the power routine knows a sidedness.
pub open spec fn power_alt_text(a: PowerAlt) -> Seq<char> {
    match a {
        PowerAlt::TwoSided => "two.sided"@,
        PowerAlt::OneSided => "one.sided"@,
    }
}

/// The design's name as the power routine takes it.
pub fn power_test_type_name(t: PowerTestType) -> (r: &'static str)
    ensures
        r@ == power_type_text(t),
{
    match t {
        PowerTestType::OneSample => "one.sample",
        PowerTestType::TwoSample => "two.sample",
        PowerTestType::Paired => "paired",
    }
}

/// The sidedness' name as the power routine takes it.
pub fn power_alternative_name(a: PowerAlt) -> (r: &'static str)
    ensures
        r@ == power_alt_text(a),
{
    match a {
        PowerAlt::TwoSided => "two.sided",
        PowerAlt::OneSided => "one.sided",
    }
}

/// Statistical tests and descriptive statistics.
pub enum StatsCommands {
    /// One-sample t-test
    TTestOne {
        dataset: String,
        col: String,
        mu: Real,
        alternative: TTestAlternative,
        conf_level: Real,
    },
    /// Two-sample t-test (independent samples)
    TTestTwo {
        dataset: String,
        col1: String,
        col2: String,
        alternative: TTestAlternative,
        equal_var: bool,
    },
    /// Paired t-test
    TTestPaired {
        dataset: String,
        col1: String,
        col2: String,
        alternative: TTestAlternative,
    },
    /// Chi-squared goodness-of-fit test
    ChisqGof {
        dataset: String,
        observed: String,
    },
    /// Chi-squared test of independence
    ChisqIndep {
        dataset: String,
        row_var: String,
        col_var: String,
    },
    /// Fisher's exact test for 2x2 tables
    Fisher {
        dataset: String,
        row_var: String,
        col_var: String,
    },
    /// Shapiro-Wilk normality test
    Shapiro {
        dataset: String,
        col: String,
    },
    /// Wilcoxon rank-sum test (Mann-Whitney U)
    Wilcoxon {
        dataset: String,
        col1: String,
        col2: String,
        paired: bool,
        alternative: TTestAlternative,
    },
    /// Bartlett's test for homogeneity of variances
    Bartlett {
        dataset: String,
        col: String,
        group: String,
    },
    /// Kruskal-Wallis rank-sum test
    Kruskal {
        dataset: String,
        col: String,
        group: String,
    },
    /// Five-number summary (min, Q1, median, Q3, max)
    Fivenum {
        dataset: String,
        col: String,
    },
    /// Interquartile range
    Iqr {
        dataset: String,
        col: String,
    },
    /// Median Absolute Deviation
    Mad {
        dataset: String,
        col: String,
    },
    /// Autocorrelation function
    Acf {
        dataset: String,
        col: String,
        lag_max: usize,
        partial: bool,
    },
    /// One-way ANOVA
    Anova {
        dataset: String,
        response: String,
        factor: String,
    },
    /// Two-way ANOVA
    AnovaTwo {
        dataset: String,
        response: String,
        factor_a: String,
        factor_b: String,
        interaction: bool,
    },
    /// Tukey's HSD post-hoc test
    Tukey {
        dataset: String,
        response: String,
        factor: String,
        conf_level: Real,
    },
    /// Friedman rank sum test for blocked data
    Friedman {
        dataset: String,
        value: String,
        group: String,
        block: String,
    },
    /// Partial autocorrelation function
    Pacf {
        dataset: String,
        col: String,
        lag_max: usize,
    },
    /// Cross-correlation function
    Ccf {
        dataset: String,
        x: String,
        y: String,
        lag_max: usize,
    },
    /// Ljung-Box or Box-Pierce test for autocorrelation
    BoxTest {
        dataset: String,
        col: String,
        lag: usize,
        box_pierce: bool,
        fitdf: usize,
    },
    /// Kolmogorov-Smirnov two-sample test
    KsTest {
        dataset: String,
        x: String,
        y: String,
        alternative: TTestAlternative,
    },
    /// Phillips-Perron unit root test
    PpTest {
        dataset: String,
        col: String,
        lshort: bool,
    },
    /// Power analysis for t-test
    PowerT {
        n: Option<Real>,
        delta: Option<Real>,
        sd: Real,
        sig_level: Real,
        power: Option<Real>,
        test_type: PowerTestType,
        alternative: PowerAlt,
    },
}

/// The dataset a command works on, if it works on one.
pub open spec fn dataset_of(cmd: StatsCommands) -> Option<Seq<char>> {
    match cmd {
        StatsCommands::TTestOne { dataset, .. } => Some(dataset@),
        StatsCommands::TTestTwo { dataset, .. } => Some(dataset@),
        StatsCommands::TTestPaired { dataset, .. } => Some(dataset@),
        StatsCommands::ChisqGof { dataset, .. } => Some(dataset@),
        StatsCommands::ChisqIndep { dataset, .. } => Some(dataset@),
        StatsCommands::Fisher { dataset, .. } => Some(dataset@),
        StatsCommands::Shapiro { dataset, .. } => Some(dataset@),
        StatsCommands::Wilcoxon { dataset, .. } => Some(dataset@),
        StatsCommands::Bartlett { dataset, .. } => Some(dataset@),
        StatsCommands::Kruskal { dataset, .. } => Some(dataset@),
        StatsCommands::Fivenum { dataset, .. } => Some(dataset@),
        StatsCommands::Iqr { dataset, .. } => Some(dataset@),
        StatsCommands::Mad { dataset, .. } => Some(dataset@),
        StatsCommands::Acf { dataset, .. } => Some(dataset@),
        StatsCommands::Anova { dataset, .. } => Some(dataset@),
        StatsCommands::AnovaTwo { dataset, .. } => Some(dataset@),
        StatsCommands::Tukey { dataset, .. } => Some(dataset@),
        StatsCommands::Friedman { dataset, .. } => Some(dataset@),
        StatsCommands::Pacf { dataset, .. } => Some(dataset@),
        StatsCommands::Ccf { dataset, .. } => Some(dataset@),
        StatsCommands::BoxTest { dataset, .. } => Some(dataset@),
        StatsCommands::KsTest { dataset, .. } => Some(dataset@),
        StatsCommands::PpTest { dataset, .. } => Some(dataset@),
        StatsCommands::PowerT { .. } => None,
    }
}

fn dataset_name(cmd: &StatsCommands) -> (r: Option<&String>)
    ensures
        match (r, dataset_of(*cmd)) {
            (Some(n), Some(d)) => n@ == d,
            (None, None) => true,
            _ => false,
        },
{
    match cmd {
        StatsCommands::TTestOne { dataset, .. } => Some(dataset),
        StatsCommands::TTestTwo { dataset, .. } => Some(dataset),
        StatsCommands::TTestPaired { dataset, .. } => Some(dataset),
        StatsCommands::ChisqGof { dataset, .. } => Some(dataset),
        StatsCommands::ChisqIndep { dataset, .. } => Some(dataset),
        StatsCommands::Fisher { dataset, .. } => Some(dataset),
        StatsCommands::Shapiro { dataset, .. } => Some(dataset),
        StatsCommands::Wilcoxon { dataset, .. } => Some(dataset),
        StatsCommands::Bartlett { dataset, .. } => Some(dataset),
        StatsCommands::Kruskal { dataset, .. } => Some(dataset),
        StatsCommands::Fivenum { dataset, .. } => Some(dataset),
        StatsCommands::Iqr { dataset, .. } => Some(dataset),
        StatsCommands::Mad { dataset, .. } => Some(dataset),
        StatsCommands::Acf { dataset, .. } => Some(dataset),
        StatsCommands::Anova { dataset, .. } => Some(dataset),
        StatsCommands::AnovaTwo { dataset, .. } => Some(dataset),
        StatsCommands::Tukey { dataset, .. } => Some(dataset),
        StatsCommands::Friedman { dataset, .. } => Some(dataset),
        StatsCommands::Pacf { dataset, .. } => Some(dataset),
        StatsCommands::Ccf { dataset, .. } => Some(dataset),
        StatsCommands::BoxTest { dataset, .. } => Some(dataset),
        StatsCommands::KsTest { dataset, .. } => Some(dataset),
        StatsCommands::PpTest { dataset, .. } => Some(dataset),
        StatsCommands::PowerT { .. } => None,
    }
}

/// The wording of the no-session error of each command.
pub open spec fn session_hint(cmd: StatsCommands) -> SessionHint {
    match cmd {
        _ => SessionHint::Short,
    }
}

/// Checks that the session (`None` when none is active) holds the dataset
/// a command works on; the error says whether the session or the dataset
/// is missing. A command without a dataset needs no session.
pub fn execute(cmd: &StatsCommands, held: &Option<Vec<String>>) -> (r: Result<(), String>)
    ensures
        match dataset_of(*cmd) {
            None => r is Ok,
            Some(d) => match r {
                Ok(()) => holds(held_view(*held), d),
                Err(msg) => !holds(held_view(*held), d) && msg@ == (if held is None {
                    no_session_text(session_hint(*cmd))
                } else {
                    not_found_text(d)
                }),
            },
        },
{
    let hint = match cmd {
        _ => SessionHint::Short,
    };
    match dataset_name(cmd) {
        None => Ok(()),
        Some(name) => require_dataset(held, name, hint),
    }
}


} // verus!
