//! Spatial econometrics commands: which estimation each command asks for.

use vstd::prelude::*;
use crate::common::{
    SessionHint, clone_strings, held_view, holds, lowered, no_session_text, not_found_text, option_is, require_dataset,
};
use crate::text::{lowercase, push_str};

verus! {

/// Spatial econometrics commands. Spatial weights come from the `k` nearest
/// neighbours in the two coordinate columns.
pub enum SpatialCommands {
    /// Spatial Autoregressive Model (SAR / lagsarlm)
    Sar {
        dataset: String,
        dep_var: String,
        indep_vars: Vec<String>,
        coord_x: String,
        coord_y: String,
        k_neighbors: usize,
        weight_style: String,
        durbin: bool,
        impacts: bool,
    },
    /// Spatial Error Model (SEM / errorsarlm)
    Sem {
        dataset: String,
        dep_var: String,
        indep_vars: Vec<String>,
        coord_x: String,
        coord_y: String,
        k_neighbors: usize,
        weight_style: String,
    },
    /// Spatial Autoregressive Combined Model (SAC / SARAR)
    Sac {
        dataset: String,
        dep_var: String,
        indep_vars: Vec<String>,
        coord_x: String,
        coord_y: String,
        k_neighbors: usize,
        weight_style: String,
    },
    /// Moran's I test for spatial autocorrelation
    Moran {
        dataset: String,
        variable: String,
        coord_x: String,
        coord_y: String,
        k_neighbors: usize,
        weight_style: String,
        alternative: String,
    },
}

/// How neighbour weights are scaled.
#[derive(Clone, Copy, PartialEq, Eq, Structural)]
pub enum WeightStyle {
    RowStd,
    Binary,
    MinMax,
}

/// Alternative hypothesis of Moran's test.
#[derive(Clone, Copy, PartialEq, Eq, Structural)]
pub enum MoranAlternative {
    TwoSided,
    Greater,
    Less,
}

/// The weight style an option names; anything unknown is row standardisation.
pub open spec fn weight_style_of(s: Seq<char>) -> WeightStyle {
    let l = lowercase(s);
    if l == "binary"@ || l == "b"@ {
        WeightStyle::Binary
    } else if l == "minmax"@ || l == "mm"@ {
        WeightStyle::MinMax
    } else {
        WeightStyle::RowStd
    }
}

/// The alternative an option names; anything unknown is two-sided.
pub open spec fn moran_alternative_of(s: Seq<char>) -> MoranAlternative {
    let l = lowercase(s);
    if l == "greater"@ {
        MoranAlternative::Greater
    } else if l == "less"@ {
        MoranAlternative::Less
    } else {
        MoranAlternative::TwoSided
    }
}

/// Parse the weight style from a command-line option.
pub fn parse_weight_style(style: &str) -> (r: WeightStyle)
    ensures
        r == weight_style_of(style@),
{
    let l = lowered(style);
    if option_is(&l, "binary") || option_is(&l, "b") {
        WeightStyle::Binary
    } else if option_is(&l, "minmax") || option_is(&l, "mm") {
        WeightStyle::MinMax
    } else {
        WeightStyle::RowStd
    }
}

/// Parse the alternative hypothesis of Moran's test.
pub fn parse_moran_alternative(s: &str) -> (r: MoranAlternative)
    ensures
        r == moran_alternative_of(s@),
{
    let l = lowered(s);
    if option_is(&l, "greater") {
        MoranAlternative::Greater
    } else if option_is(&l, "less") {
        MoranAlternative::Less
    } else {
        MoranAlternative::TwoSided
    }
}

/// Spatial weights to build: coordinates, neighbour count and style.
pub struct WeightsSpec {
    pub coord_x: String,
    pub coord_y: String,
    pub k: usize,
    pub style: WeightStyle,
}

/// Spatial regression models.
#[derive(Clone, Copy, PartialEq, Eq, Structural)]
pub enum SpatialModel {
    /// Spatial lag; `durbin` adds lagged regressors, `impacts` computes effects.
    Sar { durbin: bool, impacts: bool },
    Sem,
    Sac,
}

/// The estimation a spatial command asks for.
pub enum SpatialRequest {
    /// A spatial regression.
    Regression {
        model: SpatialModel,
        dataset: String,
        dep_var: String,
        indep_vars: Vec<String>,
        weights: WeightsSpec,
    },
    /// Moran's I test of one variable.
    Moran {
        dataset: String,
        variable: String,
        weights: WeightsSpec,
        alternative: MoranAlternative,
    },
}

/// The weights match the coordinates, `k` and the style option.
pub open spec fn weights_for(w: WeightsSpec, cx: String, cy: String, k: usize, style: String) -> bool {
    w.coord_x == cx && w.coord_y == cy && w.k == k && w.style == weight_style_of(style@)
}

/// The request matches the command.
pub open spec fn requested(cmd: SpatialCommands, req: SpatialRequest) -> bool {
    match req {
        SpatialRequest::Regression { model: m, dataset: d, dep_var: y, indep_vars: x, weights: w } =>
            match cmd {
            SpatialCommands::Sar {
                dataset,
                dep_var,
                indep_vars,
                coord_x,
                coord_y,
                k_neighbors,
                weight_style,
                durbin,
                impacts,
            } => m == (SpatialModel::Sar { durbin, impacts }) && d == dataset && y == dep_var && x@
                == indep_vars@ && weights_for(w, coord_x, coord_y, k_neighbors, weight_style),
            SpatialCommands::Sem {
                dataset,
                dep_var,
                indep_vars,
                coord_x,
                coord_y,
                k_neighbors,
                weight_style,
            } => m == SpatialModel::Sem && d == dataset && y == dep_var && x@ == indep_vars@
                && weights_for(w, coord_x, coord_y, k_neighbors, weight_style),
            SpatialCommands::Sac {
                dataset,
                dep_var,
                indep_vars,
                coord_x,
                coord_y,
                k_neighbors,
                weight_style,
            } => m == SpatialModel::Sac && d == dataset && y == dep_var && x@ == indep_vars@
                && weights_for(w, coord_x, coord_y, k_neighbors, weight_style),
            _ => false,
        },
        SpatialRequest::Moran { dataset: d, variable: v, weights: w, alternative: a } => match cmd {
            SpatialCommands::Moran {
                dataset,
                variable,
                coord_x,
                coord_y,
                k_neighbors,
                weight_style,
                alternative,
            } => d == dataset && v == variable && weights_for(
                w,
                coord_x,
                coord_y,
                k_neighbors,
                weight_style,
            ) && a == moran_alternative_of(alternative@),
            _ => false,
        },
    }
}

fn weights(coord_x: &String, coord_y: &String, k: usize, style: &String) -> (w: WeightsSpec)
    ensures
        weights_for(w, *coord_x, *coord_y, k, *style),
{
    WeightsSpec {
        coord_x: coord_x.clone(),
        coord_y: coord_y.clone(),
        k,
        style: parse_weight_style(style.as_str()),
    }
}

/// The dataset a command works on.
pub open spec fn dataset_of(cmd: SpatialCommands) -> Seq<char> {
    match cmd {
        SpatialCommands::Sar { dataset, .. } => dataset@,
        SpatialCommands::Sem { dataset, .. } => dataset@,
        SpatialCommands::Sac { dataset, .. } => dataset@,
        SpatialCommands::Moran { dataset, .. } => dataset@,
    }
}

fn dataset_name(cmd: &SpatialCommands) -> (r: &String)
    ensures
        r@ == dataset_of(*cmd),
{
    match cmd {
        SpatialCommands::Sar { dataset, .. } => dataset,
        SpatialCommands::Sem { dataset, .. } => dataset,
        SpatialCommands::Sac { dataset, .. } => dataset,
        SpatialCommands::Moran { dataset, .. } => dataset,
    }
}

/// Resolve a command into the estimation it asks for, once the session
/// (`None` when none is active) holds its dataset; the error says whether
/// the session or the dataset is missing.
pub fn execute(cmd: &SpatialCommands, held: &Option<Vec<String>>) -> (r: Result<SpatialRequest, String>)
    ensures
        match r {
            Ok(req) => holds(held_view(*held), dataset_of(*cmd)) && requested(*cmd, req),
            Err(msg) => !holds(held_view(*held), dataset_of(*cmd)) && msg@ == (if held is None {
                no_session_text(SessionHint::Long)
            } else {
                not_found_text(dataset_of(*cmd))
            }),
        },
{
    let hint = SessionHint::Long;
    match require_dataset(held, dataset_name(cmd), hint) {
        Ok(_) => {},
        Err(e) => {
            return Err(e);
        },
    }
    let req = match cmd {
        SpatialCommands::Sar {
            dataset,
            dep_var,
            indep_vars,
            coord_x,
            coord_y,
            k_neighbors,
            weight_style,
            durbin,
            impacts,
        } => SpatialRequest::Regression {
            model: SpatialModel::Sar { durbin: *durbin, impacts: *impacts },
            dataset: dataset.clone(),
            dep_var: dep_var.clone(),
            indep_vars: clone_strings(indep_vars),
            weights: weights(coord_x, coord_y, *k_neighbors, weight_style),
        },
        SpatialCommands::Sem {
            dataset,
            dep_var,
            indep_vars,
            coord_x,
            coord_y,
            k_neighbors,
            weight_style,
        } => SpatialRequest::Regression {
            model: SpatialModel::Sem,
            dataset: dataset.clone(),
            dep_var: dep_var.clone(),
            indep_vars: clone_strings(indep_vars),
            weights: weights(coord_x, coord_y, *k_neighbors, weight_style),
        },
        SpatialCommands::Sac {
            dataset,
            dep_var,
            indep_vars,
            coord_x,
            coord_y,
            k_neighbors,
            weight_style,
        } => SpatialRequest::Regression {
            model: SpatialModel::Sac,
            dataset: dataset.clone(),
            dep_var: dep_var.clone(),
            indep_vars: clone_strings(indep_vars),
            weights: weights(coord_x, coord_y, *k_neighbors, weight_style),
        },
        SpatialCommands::Moran {
            dataset,
            variable,
            coord_x,
            coord_y,
            k_neighbors,
            weight_style,
            alternative,
        } => SpatialRequest::Moran {
            dataset: dataset.clone(),
            variable: variable.clone(),
            weights: weights(coord_x, coord_y, *k_neighbors, weight_style),
            alternative: parse_moran_alternative(alternative.as_str()),
        },
    };
    Ok(req)
}

/// The error when the coordinate columns differ in length.
pub fn check_coordinate_lengths(x_len: usize, y_len: usize) -> (r: Result<(), String>)
    ensures
        match r {
            Ok(()) => x_len == y_len,
            Err(msg) => x_len != y_len && msg@ == "Coordinate columns have different lengths"@,
        },
{
    if x_len != y_len {
        return Err("Coordinate columns have different lengths".to_owned());
    }
    Ok(())
}

/// A column of a dataset as the spatial commands read it: its name and
/// whether it holds floating-point values.
pub struct ColumnInfo {
    /// Column name.
    pub name: String,
    /// Whether the column's values are floating-point numbers.
    pub is_float: bool,
}

/// Whether the first column of that name holds floats; `None` when the
/// dataset has no such column.
pub open spec fn column_float(cols: Seq<ColumnInfo>, name: Seq<char>) -> Option<bool>
    decreases cols.len(),
{
    if cols.len() == 0 {
        None
    } else if cols[0].name@ == name {
        Some(cols[0].is_float)
    } else {
        column_float(cols.drop_first(), name)
    }
}

/// The error for a column that the dataset lacks.
pub open spec fn column_missing_text(name: Seq<char>) -> Seq<char> {
    "Column '"@ + name + "' not found"@
}

/// The error for a column that does not hold numbers.
pub open spec fn column_not_numeric_text(name: Seq<char>) -> Seq<char> {
    "Column '"@ + name + "' must be numeric"@
}

/// Why spatial weights cannot be built from two coordinate columns, in the
/// order they are checked: both must exist, then both must hold floats.
pub open spec fn coordinates_problem(cols: Seq<ColumnInfo>, x: Seq<char>, y: Seq<char>) -> Option<
    Seq<char>,
> {
    if column_float(cols, x) is None {
        Some(column_missing_text(x))
    } else if column_float(cols, y) is None {
        Some(column_missing_text(y))
    } else if column_float(cols, x) == Some(false) {
        Some(column_not_numeric_text(x))
    } else if column_float(cols, y) == Some(false) {
        Some(column_not_numeric_text(y))
    } else {
        None
    }
}

/// Why a column cannot be tested: it is missing or does not hold floats.
pub open spec fn variable_problem(cols: Seq<ColumnInfo>, v: Seq<char>) -> Option<Seq<char>> {
    match column_float(cols, v) {
        None => Some(column_missing_text(v)),
        Some(false) => Some(column_not_numeric_text(v)),
        Some(true) => None,
    }
}

/// The message printed when spatial weights cannot be built.
pub open spec fn weights_failure_text(reason: Seq<char>) -> Seq<char> {
    "Failed to build spatial weights: "@ + reason
}

/// What a spatial command does once its dataset's columns are known.
pub enum ColumnCheck {
    /// The columns serve: estimate.
    Proceed,
    /// Print this error and end the command without failing it.
    Report(String),
    /// End the command with this error, unprinted.
    Fail(String),
}

/// The coordinate columns of a command.
pub open spec fn coordinates_of(cmd: SpatialCommands) -> (Seq<char>, Seq<char>) {
    match cmd {
        SpatialCommands::Sar { coord_x, coord_y, .. } => (coord_x@, coord_y@),
        SpatialCommands::Sem { coord_x, coord_y, .. } => (coord_x@, coord_y@),
        SpatialCommands::Sac { coord_x, coord_y, .. } => (coord_x@, coord_y@),
        SpatialCommands::Moran { coord_x, coord_y, .. } => (coord_x@, coord_y@),
    }
}

/// Whether the first column of that name holds floats.
pub fn find_column_float(cols: &Vec<ColumnInfo>, name: &String) -> (r: Option<bool>)
    ensures
        r == column_float(cols@, name@),
{
    let mut i: usize = 0;
    proof {
        assert(cols@.skip(0) =~= cols@);
    }
    while i < cols.len()
        invariant
            i <= cols@.len(),
            column_float(cols@, name@) == column_float(cols@.skip(i as int), name@),
        decreases cols@.len() - i,
    {
        let ghost rest = cols@.skip(i as int);
        proof {
            assert(rest[0] == cols@[i as int]);
            assert(rest.drop_first() =~= cols@.skip(i + 1));
        }
        let same = cols[i].name == *name;
        if same {
            return Some(cols[i].is_float);
        }
        i = i + 1;
    }
    None
}

fn missing_column(name: &String) -> (r: String)
    ensures
        r@ == column_missing_text(name@),
{
    let mut s = String::new();
    push_str(&mut s, "Column '");
    push_str(&mut s, name.as_str());
    push_str(&mut s, "' not found");
    s
}

fn not_numeric_column(name: &String) -> (r: String)
    ensures
        r@ == column_not_numeric_text(name@),
{
    let mut s = String::new();
    push_str(&mut s, "Column '");
    push_str(&mut s, name.as_str());
    push_str(&mut s, "' must be numeric");
    s
}

/// Check the coordinate columns that spatial weights are built from.
pub fn check_coordinates(cols: &Vec<ColumnInfo>, coord_x: &String, coord_y: &String) -> (r: Result<
    (),
    String,
>)
    ensures
        match (r, coordinates_problem(cols@, coord_x@, coord_y@)) {
            (Ok(()), None) => true,
            (Err(msg), Some(p)) => msg@ == p,
            _ => false,
        },
{
    let fx = find_column_float(cols, coord_x);
    let fy = find_column_float(cols, coord_y);
    match (fx, fy) {
        (None, _) => Err(missing_column(coord_x)),
        (_, None) => Err(missing_column(coord_y)),
        (Some(false), _) => Err(not_numeric_column(coord_x)),
        (_, Some(false)) => Err(not_numeric_column(coord_y)),
        _ => Ok(()),
    }
}

/// The message printed when spatial weights cannot be built.
pub fn weights_failure_message(reason: &str) -> (r: String)
    ensures
        r@ == weights_failure_text(reason@),
{
    let mut s = String::new();
    push_str(&mut s, "Failed to build spatial weights: ");
    push_str(&mut s, reason);
    s
}

/// What a command does with its dataset's columns: a weights failure is
/// printed and ends the command quietly; for Moran's I, a variable that is
/// missing or not numeric ends it with an error, after the weights.
pub fn check_columns(cmd: &SpatialCommands, cols: &Vec<ColumnInfo>) -> (r: ColumnCheck)
    ensures
        match coordinates_problem(cols@, coordinates_of(*cmd).0, coordinates_of(*cmd).1) {
            Some(p) => r matches ColumnCheck::Report(m) && m@ == weights_failure_text(p),
            None => match *cmd {
                SpatialCommands::Moran { variable, .. } => match variable_problem(cols@, variable@) {
                    Some(q) => r matches ColumnCheck::Fail(m) && m@ == q,
                    None => r is Proceed,
                },
                _ => r is Proceed,
            },
        },
{
    let (coord_x, coord_y) = match cmd {
        SpatialCommands::Sar { coord_x, coord_y, .. } => (coord_x, coord_y),
        SpatialCommands::Sem { coord_x, coord_y, .. } => (coord_x, coord_y),
        SpatialCommands::Sac { coord_x, coord_y, .. } => (coord_x, coord_y),
        SpatialCommands::Moran { coord_x, coord_y, .. } => (coord_x, coord_y),
    };
    match check_coordinates(cols, coord_x, coord_y) {
        Err(reason) => {
            return ColumnCheck::Report(weights_failure_message(reason.as_str()));
        },
        Ok(()) => {},
    }
    match cmd {
        SpatialCommands::Moran { variable, .. } => match find_column_float(cols, variable) {
            None => ColumnCheck::Fail(missing_column(variable)),
            Some(false) => ColumnCheck::Fail(not_numeric_column(variable)),
            Some(true) => ColumnCheck::Proceed,
        },
        _ => ColumnCheck::Proceed,
    }
}

/// The option word of `weight_style_of`, read without regard to case, selects the
/// choice it names (`binary`, `b`, `minmax`, `mm`); any other word selects the default, RowStd.
pub proof fn law_weight_style_words(option: Seq<char>)
    ensures
        (lowercase(option) == "binary"@ || lowercase(option) == "b"@) ==> weight_style_of(option) == WeightStyle::Binary,
        (lowercase(option) == "minmax"@ || lowercase(option) == "mm"@) ==> weight_style_of(option) == WeightStyle::MinMax,
        lowercase(option) != "binary"@ && lowercase(option) != "b"@ && lowercase(option) != "minmax"@ && lowercase(option) != "mm"@ ==> weight_style_of(option) == WeightStyle::RowStd,
{
    reveal_strlit("binary");
    assert("binary"@ =~= seq!['b', 'i', 'n', 'a', 'r', 'y']);
    reveal_strlit("b");
    assert("b"@ =~= seq!['b']);
    reveal_strlit("minmax");
    assert("minmax"@ =~= seq!['m', 'i', 'n', 'm', 'a', 'x']);
    reveal_strlit("mm");
    assert("mm"@ =~= seq!['m', 'm']);
}

/// The option word of `moran_alternative_of`, read without regard to case, selects the
/// choice it names (`greater`, `less`); any other word selects the default, TwoSided.
pub proof fn law_moran_alternative_words(option: Seq<char>)
    ensures
        lowercase(option) == "greater"@ ==> moran_alternative_of(option) == MoranAlternative::Greater,
        lowercase(option) == "less"@ ==> moran_alternative_of(option) == MoranAlternative::Less,
        lowercase(option) != "greater"@ && lowercase(option) != "less"@ ==> moran_alternative_of(option) == MoranAlternative::TwoSided,
{
    reveal_strlit("greater");
    assert("greater"@ =~= seq!['g', 'r', 'e', 'a', 't', 'e', 'r']);
    reveal_strlit("less");
    assert("less"@ =~= seq!['l', 'e', 's', 's']);
}

} // verus!
