//! Visualization: chart images decoded from base64, the names of the files
//! they are saved to, and the options of the charts.

use vstd::prelude::*;
use crate::common::{
    Real, SessionHint, held_view, holds, lowered, no_session_text, not_found_text, option_is, require_dataset,
};
use crate::chat::{base64_decoded, decode_base64, decode_error_text};
use crate::text::{all_ascii, ascii_lowercase, lowercase, push_str};

verus! {

/// How clusters are merged when a dendrogram is built.
#[derive(Clone, Copy, Debug, PartialEq, Eq, Structural)]
pub enum Linkage {
    Ward,
    Single,
    Complete,
    Average,
}

/// The linkage method that a lower-cased option word selects; any other word
/// selects `Ward`.
pub open spec fn linkage_of(w: Seq<char>) -> Linkage {
    if w == "single"@ {
        Linkage::Single
    } else if w == "complete"@ {
        Linkage::Complete
    } else if w == "average"@ {
        Linkage::Average
    } else {
        Linkage::Ward
    }
}

/// Reads the linkage method option, without regard to case.
pub fn parse_linkage(option: &str) -> (r: Linkage)
    ensures
        r == linkage_of(lowercase(option@)),
        all_ascii(option@) ==> r == linkage_of(ascii_lowercase(option@)),
{
    let w = lowered(option);
    if option_is(&w, "single") {
        Linkage::Single
    } else if option_is(&w, "complete") {
        Linkage::Complete
    } else if option_is(&w, "average") {
        Linkage::Average
    } else {
        Linkage::Ward
    }
}

/// Decodes a chart image from its base64 text; the error says what failed.
pub fn decode_base64_image(base64_str: &str) -> (r: Result<Vec<u8>, String>)
    ensures
        match (r, base64_decoded(base64_str@)) {
            (Ok(bytes), Ok(b)) => bytes@ == b,
            (Err(msg), Err(e)) => msg@ == "Failed to decode image: "@ + decode_error_text(e),
            _ => false,
        },
{
    match decode_base64(base64_str) {
        Ok(bytes) => Ok(bytes),
        Err(e) => {
            let mut msg = "Failed to decode image: ".to_owned();
            push_str(&mut msg, e.as_str());
            Err(msg)
        },
    }
}

/// The charts a command can save.
#[derive(Clone, Copy, Debug, PartialEq, Eq, Structural)]
pub enum ChartKind {
    Histogram,
    Scatter,
    Line,
    Boxplot,
    Heatmap,
    Coefplot,
    Dendrogram,
    EventStudy,
    Irf,
}

/// How a chart is named in its messages.
pub open spec fn chart_title(kind: ChartKind) -> Seq<char> {
    match kind {
        ChartKind::Histogram => "Histogram"@,
        ChartKind::Scatter => "Scatter plot"@,
        ChartKind::Line => "Line plot"@,
        ChartKind::Boxplot => "Box plot"@,
        ChartKind::Heatmap => "Heatmap"@,
        ChartKind::Coefplot => "Coefficient plot"@,
        ChartKind::Dendrogram => "Dendrogram"@,
        ChartKind::EventStudy => "Event study plot"@,
        ChartKind::Irf => "IRF plot"@,
    }
}

fn chart_title_str(kind: ChartKind) -> (r: &'static str)
    ensures
        r@ == chart_title(kind),
{
    match kind {
        ChartKind::Histogram => "Histogram",
        ChartKind::Scatter => "Scatter plot",
        ChartKind::Line => "Line plot",
        ChartKind::Boxplot => "Box plot",
        ChartKind::Heatmap => "Heatmap",
        ChartKind::Coefplot => "Coefficient plot",
        ChartKind::Dendrogram => "Dendrogram",
        ChartKind::EventStudy => "Event study plot",
        ChartKind::Irf => "IRF plot",
    }
}

/// The message for a saved chart.
pub fn chart_saved_message(kind: ChartKind, path: &str) -> (r: String)
    ensures
        r@ == chart_title(kind) + " saved to: "@ + path@,
{
    let mut s = chart_title_str(kind).to_owned();
    push_str(&mut s, " saved to: ");
    push_str(&mut s, path);
    s
}

/// The word that follows a chart's title when drawing it failed:
/// `creation failed` for the charts drawn from data, `failed` for the
/// charts of a fitted model.
pub open spec fn chart_failure_word(kind: ChartKind) -> Seq<char> {
    match kind {
        ChartKind::Coefplot | ChartKind::EventStudy | ChartKind::Irf => " failed: "@,
        _ => " creation failed: "@,
    }
}

/// The message for a chart that could not be drawn.
pub fn chart_failed_message(kind: ChartKind, reason: &str) -> (r: String)
    ensures
        r@ == chart_title(kind) + chart_failure_word(kind) + reason@,
{
    let mut s = chart_title_str(kind).to_owned();
    match kind {
        ChartKind::Coefplot | ChartKind::EventStudy | ChartKind::Irf => push_str(&mut s, " failed: "),
        _ => push_str(&mut s, " creation failed: "),
    }
    push_str(&mut s, reason);
    s
}

/// The file names of the three further residual plots saved beside the
/// main one: `<stem>_qq.png`, `<stem>_scale_location.png` and
/// `<stem>_leverage.png`, the stem defaulting to `residuals`.
pub fn residual_companion_names(stem: &Option<String>) -> (r: (String, String, String))
    ensures
        ({
            let st = match *stem {
                Some(s) => s@,
                None => "residuals"@,
            };
            &&& r.0@ == st + "_qq.png"@
            &&& r.1@ == st + "_scale_location.png"@
            &&& r.2@ == st + "_leverage.png"@
        }),
{
    let base = match stem {
        Some(s) => s.clone(),
        None => "residuals".to_owned(),
    };
    let mut qq = base.clone();
    push_str(&mut qq, "_qq.png");
    let mut sl = base.clone();
    push_str(&mut sl, "_scale_location.png");
    let mut lev = base;
    push_str(&mut lev, "_leverage.png");
    (qq, sl, lev)
}

/// The message for saved residual diagnostics.
pub fn residuals_saved_message(path: &str) -> (r: String)
    ensures
        r@ == "Residual diagnostics saved to: "@ + path@ + " (+ _qq, _scale_location, _leverage)"@,
{
    let mut s = "Residual diagnostics saved to: ".to_owned();
    push_str(&mut s, path);
    push_str(&mut s, " (+ _qq, _scale_location, _leverage)");
    s
}

/// Visualization commands; each saves a chart to a file.
pub enum VizCommands {
    /// Create a histogram
    Histogram {
        dataset: String,
        col: String,
        output: String,
        bins: usize,
        title: Option<String>,
    },
    /// Create a scatter plot
    Scatter {
        dataset: String,
        x_col: String,
        y_col: String,
        output: String,
        title: Option<String>,
    },
    /// Create a line plot
    Line {
        dataset: String,
        x_col: String,
        y_col: String,
        output: String,
        title: Option<String>,
    },
    /// Create a box plot
    Box {
        dataset: String,
        value_col: String,
        group_col: Option<String>,
        output: String,
        title: Option<String>,
    },
    /// Create a correlation heatmap
    Heatmap {
        dataset: String,
        cols: Vec<String>,
        output: String,
        title: Option<String>,
    },
    /// Create a coefficient plot (forest plot) from regression
    Coefplot {
        dataset: String,
        dep_var: String,
        indep_vars: Vec<String>,
        output: String,
        conf_level: Real,
        title: Option<String>,
    },
    /// Create residual diagnostic plots from regression
    Residuals {
        dataset: String,
        dep_var: String,
        indep_vars: Vec<String>,
        output: String,
        title: Option<String>,
    },
    /// Create a dendrogram from hierarchical clustering
    Dendrogram {
        dataset: String,
        cols: Vec<String>,
        linkage: String,
        output: String,
        title: Option<String>,
    },
    /// Create an event study plot
    EventStudy {
        dataset: String,
        time_col: String,
        estimate_col: String,
        ci_lower_col: String,
        ci_upper_col: String,
        output: String,
        title: Option<String>,
    },
    /// Create an impulse response function plot
    Irf {
        dataset: String,
        horizon_col: String,
        response_col: String,
        ci_lower_col: Option<String>,
        ci_upper_col: Option<String>,
        shock_label: Option<String>,
        response_label: Option<String>,
        output: String,
        title: Option<String>,
    },
}

/// The dataset a command works on.
pub open spec fn dataset_of(cmd: VizCommands) -> Seq<char> {
    match cmd {
        VizCommands::Histogram { dataset, .. } => dataset@,
        VizCommands::Scatter { dataset, .. } => dataset@,
        VizCommands::Line { dataset, .. } => dataset@,
        VizCommands::Box { dataset, .. } => dataset@,
        VizCommands::Heatmap { dataset, .. } => dataset@,
        VizCommands::Coefplot { dataset, .. } => dataset@,
        VizCommands::Residuals { dataset, .. } => dataset@,
        VizCommands::Dendrogram { dataset, .. } => dataset@,
        VizCommands::EventStudy { dataset, .. } => dataset@,
        VizCommands::Irf { dataset, .. } => dataset@,
    }
}

fn dataset_name(cmd: &VizCommands) -> (r: &String)
    ensures
        r@ == dataset_of(*cmd),
{
    match cmd {
        VizCommands::Histogram { dataset, .. } => dataset,
        VizCommands::Scatter { dataset, .. } => dataset,
        VizCommands::Line { dataset, .. } => dataset,
        VizCommands::Box { dataset, .. } => dataset,
        VizCommands::Heatmap { dataset, .. } => dataset,
        VizCommands::Coefplot { dataset, .. } => dataset,
        VizCommands::Residuals { dataset, .. } => dataset,
        VizCommands::Dendrogram { dataset, .. } => dataset,
        VizCommands::EventStudy { dataset, .. } => dataset,
        VizCommands::Irf { dataset, .. } => dataset,
    }
}

/// The wording of the no-session error of each command.
pub open spec fn session_hint(cmd: VizCommands) -> SessionHint {
    match cmd {
        VizCommands::Histogram { .. } | VizCommands::Scatter { .. } | VizCommands::Line { .. } => SessionHint::Long,
        _ => SessionHint::Short,
    }
}

/// Checks that the session (`None` when none is active) holds the dataset
/// a command works on; the error says whether the session or the dataset
/// is missing.
pub fn execute(cmd: &VizCommands, held: &Option<Vec<String>>) -> (r: Result<(), String>)
    ensures
        match r {
            Ok(()) => holds(held_view(*held), dataset_of(*cmd)),
            Err(msg) => !holds(held_view(*held), dataset_of(*cmd)) && msg@ == (if held is None {
                no_session_text(session_hint(*cmd))
            } else {
                not_found_text(dataset_of(*cmd))
            }),
        },
{
    let hint = match cmd {
        VizCommands::Histogram { .. } | VizCommands::Scatter { .. } | VizCommands::Line { .. } => SessionHint::Long,
        _ => SessionHint::Short,
    };
    require_dataset(held, dataset_name(cmd), hint)
}


/// The linkage a command builds its dendrogram with; `None` for the other
/// charts.
pub fn linkage_of_command(cmd: &VizCommands) -> (r: Option<Linkage>)
    ensures
        match *cmd {
            VizCommands::Dendrogram { linkage, .. } => r == Some(linkage_of(lowercase(linkage@))),
            _ => r is None,
        },
{
    match cmd {
        VizCommands::Dendrogram { linkage, .. } => Some(parse_linkage(linkage.as_str())),
        _ => None,
    }
}

/// The option word of `linkage_of`, read without regard to case, selects the
/// choice it names (`single`, `complete`, `average`); any other word selects the default, Ward.
pub proof fn law_linkage_words(option: Seq<char>)
    ensures
        lowercase(option) == "single"@ ==> linkage_of(lowercase(option)) == Linkage::Single,
        lowercase(option) == "complete"@ ==> linkage_of(lowercase(option)) == Linkage::Complete,
        lowercase(option) == "average"@ ==> linkage_of(lowercase(option)) == Linkage::Average,
        lowercase(option) != "single"@ && lowercase(option) != "complete"@ && lowercase(option) != "average"@ ==> linkage_of(lowercase(option)) == Linkage::Ward,
{
    reveal_strlit("single");
    assert("single"@ =~= seq!['s', 'i', 'n', 'g', 'l', 'e']);
    reveal_strlit("complete");
    assert("complete"@ =~= seq!['c', 'o', 'm', 'p', 'l', 'e', 't', 'e']);
    reveal_strlit("average");
    assert("average"@ =~= seq!['a', 'v', 'e', 'r', 'a', 'g', 'e']);
}

} // verus!
