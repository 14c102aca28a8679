//! Data munging commands: which transformation a command asks for, the
//! parsing of its small textual arguments, and the name of the dataset it
//! creates.

use vstd::prelude::*;
use crate::common::{
    dataset_not_found_message, failure_message, held_view, holds, holds_dataset, lowered,
    no_session_message, no_session_text, not_found_text, option_is, SessionHint,
};
use crate::text::{decimal, free_of, lemma_split_pieces_nonempty, lemma_split_three,
    lemma_split_two, lowercase, push_decimal, push_str, split_char, split_pieces, views};

verus! {

/// How two datasets are joined.
#[derive(Clone, Copy, Debug, PartialEq, Eq, Structural)]
pub enum JoinType {
    Left,
    Right,
    Inner,
    Full,
}

/// How missing values are filled.
#[derive(Clone, Copy, Debug, PartialEq, Eq, Structural)]
pub enum FillMethod {
    Mean,
    Median,
    Constant,
    Forward,
    Backward,
    Zero,
}

/// How a continuous column is cut into bins.
#[derive(Clone, Copy, Debug, PartialEq, Eq, Structural)]
pub enum BinMethod {
    EqualWidth,
    Quantile,
}

/// Data munging commands. `name` is always the name of the resulting
/// dataset; without it the result is named `<source>_<operation>`.
pub enum MungeCommands {
    /// Filter rows based on a condition (`op`: eq, ne, gt, ge, lt, le,
    /// contains, startswith, endswith)
    Filter { dataset: String, column: String, op: String, value: String, name: Option<String> },
    /// Select specific columns
    Select { dataset: String, columns: Vec<String>, name: Option<String> },
    /// Drop columns from a dataset
    Drop { dataset: String, columns: Vec<String>, name: Option<String> },
    /// Rename columns, each given as `OLD=NEW`
    Rename { dataset: String, renames: Vec<String>, name: Option<String> },
    /// Sort by columns
    Sort { dataset: String, by: Vec<String>, desc: bool, name: Option<String> },
    /// Create a column from an expression: `copy:COL`, `constant:VALUE`,
    /// `add:COL1:COL2`, `sub:COL1:COL2`, `mul:COL1:COL2`, `div:COL1:COL2`
    Mutate { dataset: String, new_col: String, expr: String, name: Option<String> },
    /// Take a random sample of rows
    Sample { dataset: String, n: usize, replace: bool, seed: Option<u64>, name: Option<String> },
    /// Join two datasets
    Join {
        left: String,
        right: String,
        on: Vec<String>,
        right_on: Option<Vec<String>>,
        join_type: JoinType,
        suffix: String,
        name: Option<String>,
    },
    /// Concatenate datasets vertically
    Concat { datasets: Vec<String>, name: Option<String> },
    /// Group by and aggregate; each aggregation is `COLUMN:FUNCTION`
    GroupBy { dataset: String, by: Vec<String>, aggs: Vec<String>, name: Option<String> },
    /// Count value frequencies
    ValueCounts { dataset: String, column: String, name: Option<String> },
    /// Pivot from long to wide format
    Pivot { dataset: String, index: Vec<String>, on: String, values: String, name: Option<String> },
    /// Melt from wide to long format
    Melt {
        dataset: String,
        id_vars: Vec<String>,
        value_vars: Vec<String>,
        var_name: String,
        val_name: String,
        name: Option<String>,
    },
    /// Drop rows with missing values (`how`: any or all)
    DropNa { dataset: String, columns: Option<Vec<String>>, how: String, name: Option<String> },
    /// Fill missing values; `value` is the decimal text of the constant
    /// for the constant method
    FillNa {
        dataset: String,
        method: FillMethod,
        columns: Option<Vec<String>>,
        value: Option<String>,
        name: Option<String>,
    },
    /// Remove duplicate rows (`keep`: first, last or none)
    Deduplicate { dataset: String, subset: Option<Vec<String>>, keep: String, name: Option<String> },
    /// Create lag of a column
    Lag {
        dataset: String,
        column: String,
        periods: usize,
        group_by: Option<Vec<String>>,
        name: Option<String>,
    },
    /// Create lead of a column
    Lead {
        dataset: String,
        column: String,
        periods: usize,
        group_by: Option<Vec<String>>,
        name: Option<String>,
    },
    /// Compute the difference (or percentage change) of a column
    Diff { dataset: String, column: String, periods: usize, pct: bool, name: Option<String> },
    /// Standardize (z-score) or normalize (0-1) columns
    Standardize { dataset: String, columns: Vec<String>, normalize: bool, name: Option<String> },
    /// Bin a continuous column
    Bin { dataset: String, column: String, method: BinMethod, n_bins: usize, name: Option<String> },
    /// One-hot encode a categorical column
    OneHot { dataset: String, column: String, drop_first: bool, name: Option<String> },
}

/// An arithmetic operation between two columns.
#[derive(Clone, Copy, Debug, PartialEq, Eq, Structural)]
pub enum ArithOp {
    Add,
    Sub,
    Mul,
    Div,
}

/// A parsed column expression.
pub enum MutateExpr {
    Copy(String),
    Constant(String),
    Arithmetic(String, ArithOp, String),
}

/// The mathematical value of a column expression.
pub enum MutateExprView {
    Copy(Seq<char>),
    Constant(Seq<char>),
    Arithmetic(Seq<char>, ArithOp, Seq<char>),
}

impl View for MutateExpr {
    type V = MutateExprView;

    open spec fn view(&self) -> MutateExprView {
        match self {
            MutateExpr::Copy(c) => MutateExprView::Copy(c@),
            MutateExpr::Constant(v) => MutateExprView::Constant(v@),
            MutateExpr::Arithmetic(a, op, b) => MutateExprView::Arithmetic(a@, *op, b@),
        }
    }
}

/// An aggregation function.
#[derive(Clone, Copy, Debug, PartialEq, Eq, Structural)]
pub enum AggFn {
    Sum,
    Mean,
    Count,
    Min,
    Max,
    Std,
    Var,
    First,
    Last,
    Median,
}

/// One aggregation: a column and the function applied to it.
pub struct AggSpec {
    pub column: String,
    pub func: AggFn,
}

/// How missing values are filled, with the constant as text.
pub enum FillStrategy {
    Mean,
    Median,
    Constant(String),
    Forward,
    Backward,
    Zero,
}

/// The mathematical value of a fill strategy.
pub enum FillStrategyView {
    Mean,
    Median,
    Constant(Seq<char>),
    Forward,
    Backward,
    Zero,
}

impl View for FillStrategy {
    type V = FillStrategyView;

    open spec fn view(&self) -> FillStrategyView {
        match self {
            FillStrategy::Mean => FillStrategyView::Mean,
            FillStrategy::Median => FillStrategyView::Median,
            FillStrategy::Constant(v) => FillStrategyView::Constant(v@),
            FillStrategy::Forward => FillStrategyView::Forward,
            FillStrategy::Backward => FillStrategyView::Backward,
            FillStrategy::Zero => FillStrategyView::Zero,
        }
    }
}

/// A binning strategy with its number of bins.
#[derive(Clone, Copy, Debug, PartialEq, Eq, Structural)]
pub enum BinStrategy {
    EqualWidth(usize),
    Quantile(usize),
}

/// What a command hands to the transformation beyond its plain fields.
pub enum MungeStep {
    /// Nothing needs parsing.
    Plain,
    /// `(old, new)` column names.
    Renames(Vec<(String, String)>),
    Expr(MutateExpr),
    Aggs(Vec<AggSpec>),
    Fill(FillStrategy),
    Bins(BinStrategy),
}

/// A command that may run: the name of its result and its parsed arguments.
pub struct MungePlan {
    pub output: String,
    pub step: MungeStep,
}

// ---------------------------------------------------------------------------
// The model
// ---------------------------------------------------------------------------

/// The dataset whose name the result is derived from.
pub open spec fn source_of(cmd: MungeCommands) -> Seq<char> {
    match cmd {
        MungeCommands::Filter { dataset, .. } => dataset@,
        MungeCommands::Select { dataset, .. } => dataset@,
        MungeCommands::Drop { dataset, .. } => dataset@,
        MungeCommands::Rename { dataset, .. } => dataset@,
        MungeCommands::Sort { dataset, .. } => dataset@,
        MungeCommands::Mutate { dataset, .. } => dataset@,
        MungeCommands::Sample { dataset, .. } => dataset@,
        MungeCommands::Join { left, .. } => left@,
        MungeCommands::Concat { datasets, .. } => datasets@[0]@,
        MungeCommands::GroupBy { dataset, .. } => dataset@,
        MungeCommands::ValueCounts { dataset, .. } => dataset@,
        MungeCommands::Pivot { dataset, .. } => dataset@,
        MungeCommands::Melt { dataset, .. } => dataset@,
        MungeCommands::DropNa { dataset, .. } => dataset@,
        MungeCommands::FillNa { dataset, .. } => dataset@,
        MungeCommands::Deduplicate { dataset, .. } => dataset@,
        MungeCommands::Lag { dataset, .. } => dataset@,
        MungeCommands::Lead { dataset, .. } => dataset@,
        MungeCommands::Diff { dataset, .. } => dataset@,
        MungeCommands::Standardize { dataset, .. } => dataset@,
        MungeCommands::Bin { dataset, .. } => dataset@,
        MungeCommands::OneHot { dataset, .. } => dataset@,
    }
}

/// The operation word of the default result name.
pub open spec fn operation_of(cmd: MungeCommands) -> Seq<char> {
    match cmd {
        MungeCommands::Filter { .. } => "filtered"@,
        MungeCommands::Select { .. } => "selected"@,
        MungeCommands::Drop { .. } => "dropped"@,
        MungeCommands::Rename { .. } => "renamed"@,
        MungeCommands::Sort { .. } => "sorted"@,
        MungeCommands::Mutate { .. } => "mutated"@,
        MungeCommands::Sample { .. } => "sampled"@,
        MungeCommands::Join { .. } => "joined"@,
        MungeCommands::Concat { .. } => "concat"@,
        MungeCommands::GroupBy { .. } => "grouped"@,
        MungeCommands::ValueCounts { .. } => "counts"@,
        MungeCommands::Pivot { .. } => "pivoted"@,
        MungeCommands::Melt { .. } => "melted"@,
        MungeCommands::DropNa { .. } => "dropna"@,
        MungeCommands::FillNa { .. } => "fillna"@,
        MungeCommands::Deduplicate { .. } => "dedup"@,
        MungeCommands::Lag { .. } => "lagged"@,
        MungeCommands::Lead { .. } => "lead"@,
        MungeCommands::Diff { pct, .. } => if pct { "pct_change"@ } else { "diff"@ },
        MungeCommands::Standardize { normalize, .. } => if normalize {
            "normalized"@
        } else {
            "standardized"@
        },
        MungeCommands::Bin { .. } => "binned"@,
        MungeCommands::OneHot { .. } => "onehot"@,
    }
}

/// The label of a failed transformation: `<label> failed: <reason>`.
pub open spec fn label_of(cmd: MungeCommands) -> Seq<char> {
    match cmd {
        MungeCommands::Filter { .. } => "Filter"@,
        MungeCommands::Select { .. } => "Select"@,
        MungeCommands::Drop { .. } => "Drop"@,
        MungeCommands::Rename { .. } => "Rename"@,
        MungeCommands::Sort { .. } => "Sort"@,
        MungeCommands::Mutate { .. } => "Mutate"@,
        MungeCommands::Sample { .. } => "Sample"@,
        MungeCommands::Join { .. } => "Join"@,
        MungeCommands::Concat { .. } => "Concat"@,
        MungeCommands::GroupBy { .. } => "Group by"@,
        MungeCommands::ValueCounts { .. } => "Value counts"@,
        MungeCommands::Pivot { .. } => "Pivot"@,
        MungeCommands::Melt { .. } => "Melt"@,
        MungeCommands::DropNa { .. } => "Drop NA"@,
        MungeCommands::FillNa { .. } => "Fill NA"@,
        MungeCommands::Deduplicate { .. } => "Deduplicate"@,
        MungeCommands::Lag { .. } => "Lag"@,
        MungeCommands::Lead { .. } => "Lead"@,
        MungeCommands::Diff { .. } => "Diff"@,
        MungeCommands::Standardize { .. } => "Standardize"@,
        MungeCommands::Bin { .. } => "Bin"@,
        MungeCommands::OneHot { .. } => "One-hot encode"@,
    }
}

/// The name the command gives its result.
pub open spec fn output_of(cmd: MungeCommands) -> Option<String> {
    match cmd {
        MungeCommands::Filter { name, .. } => name,
        MungeCommands::Select { name, .. } => name,
        MungeCommands::Drop { name, .. } => name,
        MungeCommands::Rename { name, .. } => name,
        MungeCommands::Sort { name, .. } => name,
        MungeCommands::Mutate { name, .. } => name,
        MungeCommands::Sample { name, .. } => name,
        MungeCommands::Join { name, .. } => name,
        MungeCommands::Concat { name, .. } => name,
        MungeCommands::GroupBy { name, .. } => name,
        MungeCommands::ValueCounts { name, .. } => name,
        MungeCommands::Pivot { name, .. } => name,
        MungeCommands::Melt { name, .. } => name,
        MungeCommands::DropNa { name, .. } => name,
        MungeCommands::FillNa { name, .. } => name,
        MungeCommands::Deduplicate { name, .. } => name,
        MungeCommands::Lag { name, .. } => name,
        MungeCommands::Lead { name, .. } => name,
        MungeCommands::Diff { name, .. } => name,
        MungeCommands::Standardize { name, .. } => name,
        MungeCommands::Bin { name, .. } => name,
        MungeCommands::OneHot { name, .. } => name,
    }
}

/// The name of the dataset that the command creates.
pub open spec fn result_name(cmd: MungeCommands) -> Seq<char> {
    match output_of(cmd) {
        Some(n) => n@,
        None => source_of(cmd) + "_"@ + operation_of(cmd),
    }
}

/// The first of `names` that the session does not hold.
pub open spec fn first_missing(names: Seq<Seq<char>>, held: Option<Seq<Seq<char>>>) -> Option<
    Seq<char>,
>
    decreases names.len(),
{
    if names.len() == 0 {
        None
    } else {
        match first_missing(names.drop_last(), held) {
            Some(m) => Some(m),
            None => if holds(held, names.last()) {
                None
            } else {
                Some(names.last())
            },
        }
    }
}

/// `OLD=NEW` as a pair of column names.
pub open spec fn rename_pair(r: Seq<char>) -> Option<(Seq<char>, Seq<char>)> {
    let p = split_pieces(r, '=');
    if p.len() == 2 {
        Some((p[0], p[1]))
    } else {
        None
    }
}

/// A rename `OLD=NEW` renames the column before the `=` to the name after
/// it, for any two names that hold no `=`.
pub proof fn law_rename_direction(old_name: Seq<char>, new_name: Seq<char>)
    requires
        free_of(old_name, '='),
        free_of(new_name, '='),
    ensures
        rename_pair(old_name + seq!['='] + new_name) == Some((old_name, new_name)),
{
    lemma_split_two(old_name, new_name, '=');
}

/// The renames in order, or the error for the first malformed one.
pub open spec fn parse_renames(rs: Seq<Seq<char>>) -> Result<Seq<(Seq<char>, Seq<char>)>, Seq<char>>
    decreases rs.len(),
{
    if rs.len() == 0 {
        Ok(Seq::empty())
    } else {
        match parse_renames(rs.drop_last()) {
            Err(e) => Err(e),
            Ok(v) => match rename_pair(rs.last()) {
                Some(p) => Ok(v.push(p)),
                None => Err("Invalid rename format '"@ + rs.last() + "'. Use OLD=NEW"@),
            },
        }
    }
}

/// The views of parsed renames.
pub open spec fn pair_views(v: Seq<(String, String)>) -> Seq<(Seq<char>, Seq<char>)> {
    v.map_values(|p: (String, String)| (p.0@, p.1@))
}

/// The aggregation function a (lower-cased) word names.
pub open spec fn agg_fn_of(w: Seq<char>) -> Option<AggFn> {
    if w == "sum"@ {
        Some(AggFn::Sum)
    } else if w == "mean"@ || w == "avg"@ {
        Some(AggFn::Mean)
    } else if w == "count"@ {
        Some(AggFn::Count)
    } else if w == "min"@ {
        Some(AggFn::Min)
    } else if w == "max"@ {
        Some(AggFn::Max)
    } else if w == "std"@ {
        Some(AggFn::Std)
    } else if w == "var"@ {
        Some(AggFn::Var)
    } else if w == "first"@ {
        Some(AggFn::First)
    } else if w == "last"@ {
        Some(AggFn::Last)
    } else if w == "median"@ {
        Some(AggFn::Median)
    } else {
        None
    }
}

/// `COLUMN:FUNCTION` as a column and a function, the function's name
/// matched without regard to case.
pub open spec fn parse_agg(a: Seq<char>) -> Result<(Seq<char>, AggFn), Seq<char>> {
    let p = split_pieces(a, ':');
    if p.len() != 2 {
        Err("Invalid aggregation format '"@ + a + "'. Use COLUMN:FUNCTION"@)
    } else {
        match agg_fn_of(lowercase(p[1])) {
            Some(f) => Ok((p[0], f)),
            None => Err("Unknown aggregation function '"@ + p[1] + "'"@),
        }
    }
}

/// The aggregations in order, or the error for the first bad one.
pub open spec fn parse_aggs(aggs: Seq<Seq<char>>) -> Result<Seq<(Seq<char>, AggFn)>, Seq<char>>
    decreases aggs.len(),
{
    if aggs.len() == 0 {
        Ok(Seq::empty())
    } else {
        match parse_aggs(aggs.drop_last()) {
            Err(e) => Err(e),
            Ok(v) => match parse_agg(aggs.last()) {
                Ok(a) => Ok(v.push(a)),
                Err(e) => Err(e),
            },
        }
    }
}

/// The views of parsed aggregations.
pub open spec fn agg_views(v: Seq<AggSpec>) -> Seq<(Seq<char>, AggFn)> {
    v.map_values(|a: AggSpec| (a.column@, a.func))
}

/// A column expression, if it has one of the accepted forms.
pub open spec fn parse_mutate(e: Seq<char>) -> Option<MutateExprView> {
    let p = split_pieces(e, ':');
    if p[0] == "copy"@ && p.len() == 2 {
        Some(MutateExprView::Copy(p[1]))
    } else if p[0] == "constant"@ && p.len() == 2 {
        Some(MutateExprView::Constant(p[1]))
    } else if p[0] == "add"@ && p.len() == 3 {
        Some(MutateExprView::Arithmetic(p[1], ArithOp::Add, p[2]))
    } else if p[0] == "sub"@ && p.len() == 3 {
        Some(MutateExprView::Arithmetic(p[1], ArithOp::Sub, p[2]))
    } else if p[0] == "mul"@ && p.len() == 3 {
        Some(MutateExprView::Arithmetic(p[1], ArithOp::Mul, p[2]))
    } else if p[0] == "div"@ && p.len() == 3 {
        Some(MutateExprView::Arithmetic(p[1], ArithOp::Div, p[2]))
    } else {
        None
    }
}

/// An aggregation `COLUMN:FUNCTION` aggregates that column with the
/// function its word names, the word read without regard to case: `sum`,
/// `mean` or `avg`, `count`, `min`, `max`, `std`, `var`, `first`, `last`,
/// `median`.
pub proof fn law_aggregation_words(c: Seq<char>, w: Seq<char>)
    requires
        free_of(c, ':'),
        free_of(w, ':'),
    ensures
        lowercase(w) == "sum"@ ==> parse_agg(c + seq![':'] + w) == Ok::<(Seq<char>, AggFn), Seq<char>>((c, AggFn::Sum)),
        lowercase(w) == "mean"@ ==> parse_agg(c + seq![':'] + w) == Ok::<(Seq<char>, AggFn), Seq<char>>((c, AggFn::Mean)),
        lowercase(w) == "avg"@ ==> parse_agg(c + seq![':'] + w) == Ok::<(Seq<char>, AggFn), Seq<char>>((c, AggFn::Mean)),
        lowercase(w) == "count"@ ==> parse_agg(c + seq![':'] + w) == Ok::<(Seq<char>, AggFn), Seq<char>>((c, AggFn::Count)),
        lowercase(w) == "min"@ ==> parse_agg(c + seq![':'] + w) == Ok::<(Seq<char>, AggFn), Seq<char>>((c, AggFn::Min)),
        lowercase(w) == "max"@ ==> parse_agg(c + seq![':'] + w) == Ok::<(Seq<char>, AggFn), Seq<char>>((c, AggFn::Max)),
        lowercase(w) == "std"@ ==> parse_agg(c + seq![':'] + w) == Ok::<(Seq<char>, AggFn), Seq<char>>((c, AggFn::Std)),
        lowercase(w) == "var"@ ==> parse_agg(c + seq![':'] + w) == Ok::<(Seq<char>, AggFn), Seq<char>>((c, AggFn::Var)),
        lowercase(w) == "first"@ ==> parse_agg(c + seq![':'] + w) == Ok::<(Seq<char>, AggFn), Seq<char>>((c, AggFn::First)),
        lowercase(w) == "last"@ ==> parse_agg(c + seq![':'] + w) == Ok::<(Seq<char>, AggFn), Seq<char>>((c, AggFn::Last)),
        lowercase(w) == "median"@ ==> parse_agg(c + seq![':'] + w) == Ok::<(Seq<char>, AggFn), Seq<char>>((c, AggFn::Median)),
{
    lemma_split_two(c, w, ':');
    let p = split_pieces(c + seq![':'] + w, ':');
    assert(p.len() == 2 && p[0] == c && p[1] == w);
    let l = lowercase(w);
    reveal_strlit("sum");
    assert("sum"@ =~= seq!['s', 'u', 'm']);
    reveal_strlit("mean");
    assert("mean"@ =~= seq!['m', 'e', 'a', 'n']);
    reveal_strlit("avg");
    assert("avg"@ =~= seq!['a', 'v', 'g']);
    reveal_strlit("count");
    assert("count"@ =~= seq!['c', 'o', 'u', 'n', 't']);
    reveal_strlit("min");
    assert("min"@ =~= seq!['m', 'i', 'n']);
    reveal_strlit("max");
    assert("max"@ =~= seq!['m', 'a', 'x']);
    reveal_strlit("std");
    assert("std"@ =~= seq!['s', 't', 'd']);
    reveal_strlit("var");
    assert("var"@ =~= seq!['v', 'a', 'r']);
    reveal_strlit("first");
    assert("first"@ =~= seq!['f', 'i', 'r', 's', 't']);
    reveal_strlit("last");
    assert("last"@ =~= seq!['l', 'a', 's', 't']);
    reveal_strlit("median");
    assert("median"@ =~= seq!['m', 'e', 'd', 'i', 'a', 'n']);
}

/// An expression `OP:COL1:COL2` with an arithmetic operation combines the
/// first column (left operand) with the second (right operand) by the
/// operation its word names; `copy:COL` copies the column and
/// `constant:VALUE` fills in the value.
pub proof fn law_expression_operands(a: Seq<char>, b: Seq<char>)
    requires
        free_of(a, ':'),
        free_of(b, ':'),
    ensures
        parse_mutate("add"@ + seq![':'] + a + seq![':'] + b) == Some(MutateExprView::Arithmetic(a, ArithOp::Add, b)),
        parse_mutate("sub"@ + seq![':'] + a + seq![':'] + b) == Some(MutateExprView::Arithmetic(a, ArithOp::Sub, b)),
        parse_mutate("mul"@ + seq![':'] + a + seq![':'] + b) == Some(MutateExprView::Arithmetic(a, ArithOp::Mul, b)),
        parse_mutate("div"@ + seq![':'] + a + seq![':'] + b) == Some(MutateExprView::Arithmetic(a, ArithOp::Div, b)),
        parse_mutate("copy"@ + seq![':'] + a) == Some(MutateExprView::Copy(a)),
        parse_mutate("constant"@ + seq![':'] + a) == Some(MutateExprView::Constant(a)),
{
    lemma_expression_case("add"@, ArithOp::Add, a, b);
    lemma_expression_case("sub"@, ArithOp::Sub, a, b);
    lemma_expression_case("mul"@, ArithOp::Mul, a, b);
    lemma_expression_case("div"@, ArithOp::Div, a, b);
    reveal_strlit("copy");
    reveal_strlit("constant");
    lemma_split_two("copy"@, a, ':');
    lemma_split_two("constant"@, a, ':');
}

proof fn lemma_expression_case(word: Seq<char>, op: ArithOp, a: Seq<char>, b: Seq<char>)
    requires
        free_of(a, ':'),
        free_of(b, ':'),
        (word == "add"@ && op == ArithOp::Add) || (word == "sub"@ && op == ArithOp::Sub) || (word
            == "mul"@ && op == ArithOp::Mul) || (word == "div"@ && op == ArithOp::Div),
    ensures
        parse_mutate(word + seq![':'] + a + seq![':'] + b) == Some(MutateExprView::Arithmetic(a, op, b)),
{
    reveal_strlit("copy");
    assert("copy"@ =~= seq!['c', 'o', 'p', 'y']);
    reveal_strlit("constant");
    assert("constant"@ =~= seq!['c', 'o', 'n', 's', 't', 'a', 'n', 't']);
    reveal_strlit("add");
    assert("add"@ =~= seq!['a', 'd', 'd']);
    reveal_strlit("sub");
    assert("sub"@ =~= seq!['s', 'u', 'b']);
    reveal_strlit("mul");
    assert("mul"@ =~= seq!['m', 'u', 'l']);
    reveal_strlit("div");
    assert("div"@ =~= seq!['d', 'i', 'v']);
    lemma_split_three(word, a, b, ':');
    let p = split_pieces(word + seq![':'] + a + seq![':'] + b, ':');
    assert(p.len() == 3 && p[0] == word && p[1] == a && p[2] == b);
}

/// The error for an expression of no accepted form.
pub open spec fn bad_expression_text() -> Seq<char> {
    "Invalid expression. Use: copy:COL, constant:VALUE, add:COL1:COL2, sub:COL1:COL2, mul:COL1:COL2, div:COL1:COL2"@
}

/// The fill strategy of a method; the constant defaults to `0`.
pub open spec fn fill_of(method: FillMethod, value: Option<String>) -> FillStrategyView {
    match method {
        FillMethod::Mean => FillStrategyView::Mean,
        FillMethod::Median => FillStrategyView::Median,
        FillMethod::Constant => FillStrategyView::Constant(
            match value {
                Some(v) => v@,
                None => "0"@,
            },
        ),
        FillMethod::Forward => FillStrategyView::Forward,
        FillMethod::Backward => FillStrategyView::Backward,
        FillMethod::Zero => FillStrategyView::Zero,
    }
}

/// The binning strategy of a method.
pub open spec fn bin_of(method: BinMethod, n_bins: usize) -> BinStrategy {
    match method {
        BinMethod::EqualWidth => BinStrategy::EqualWidth(n_bins),
        BinMethod::Quantile => BinStrategy::Quantile(n_bins),
    }
}

/// The error, if any, in a command's own arguments.
pub open spec fn argument_error(cmd: MungeCommands) -> Option<Seq<char>> {
    match cmd {
        MungeCommands::Rename { renames, .. } => match parse_renames(views(renames@)) {
            Ok(_) => None,
            Err(e) => Some(e),
        },
        MungeCommands::Mutate { expr, .. } => if parse_mutate(expr@) is Some {
            None
        } else {
            Some(bad_expression_text())
        },
        MungeCommands::GroupBy { aggs, .. } => match parse_aggs(views(aggs@)) {
            Ok(_) => None,
            Err(e) => Some(e),
        },
        _ => None,
    }
}

/// The error with which a command stops before any transformation, if any:
/// too few datasets to concatenate, no session, a dataset that is not
/// held, or malformed arguments, checked in that order.
pub open spec fn munge_error(cmd: MungeCommands, held: Option<Seq<Seq<char>>>) -> Option<Seq<char>> {
    match cmd {
        MungeCommands::Concat { datasets, .. } => if datasets@.len() < 2 {
            Some("At least 2 datasets required for concatenation"@)
        } else {
            match first_missing(views(datasets@), held) {
                Some(m) => Some(not_found_text(m)),
                None => None,
            }
        },
        MungeCommands::Join { left, right, .. } => if !holds(held, left@) {
            Some(not_found_text(left@))
        } else if !holds(held, right@) {
            Some(not_found_text(right@))
        } else {
            None
        },
        _ => if held is None {
            Some(no_session_text(SessionHint::Long))
        } else if !holds(held, source_of(cmd)) {
            Some(not_found_text(source_of(cmd)))
        } else {
            argument_error(cmd)
        },
    }
}

/// The step handed to the transformation carries what the arguments say.
pub open spec fn step_of(cmd: MungeCommands, step: MungeStep) -> bool {
    match cmd {
        MungeCommands::Rename { renames, .. } => match step {
            MungeStep::Renames(v) => parse_renames(views(renames@)) == Ok::<
                Seq<(Seq<char>, Seq<char>)>,
                Seq<char>,
            >(pair_views(v@)),
            _ => false,
        },
        MungeCommands::Mutate { expr, .. } => match step {
            MungeStep::Expr(e) => parse_mutate(expr@) == Some(e@),
            _ => false,
        },
        MungeCommands::GroupBy { aggs, .. } => match step {
            MungeStep::Aggs(v) => parse_aggs(views(aggs@)) == Ok::<
                Seq<(Seq<char>, AggFn)>,
                Seq<char>,
            >(agg_views(v@)),
            _ => false,
        },
        MungeCommands::FillNa { method, value, .. } => match step {
            MungeStep::Fill(f) => f@ == fill_of(method, value),
            _ => false,
        },
        MungeCommands::Bin { method, n_bins, .. } => match step {
            MungeStep::Bins(b) => b == bin_of(method, n_bins),
            _ => false,
        },
        _ => step is Plain,
    }
}

// ---------------------------------------------------------------------------
// Checking and parsing
// ---------------------------------------------------------------------------

fn first_missing_dataset(names: &Vec<String>, held: &Option<Vec<String>>) -> (r: Option<String>)
    ensures
        match r {
            Some(m) => first_missing(views(names@), held_view(*held)) == Some(m@),
            None => first_missing(views(names@), held_view(*held)) is None,
        },
{
    let ghost h = held_view(*held);
    let ghost all = views(names@);
    let mut i: usize = 0;
    while i < names.len()
        invariant
            i <= names@.len(),
            all == views(names@),
            h == held_view(*held),
            first_missing(all.take(i as int), h) is None,
        decreases names@.len() - i,
    {
        proof {
            assert(all.take(i + 1).drop_last() =~= all.take(i as int));
            assert(all.take(i + 1).last() == names@[i as int]@);
        }
        if !holds_dataset(held, &names[i]) {
            proof {
                lemma_first_missing_prefix(all, h, i + 1);
            }
            return Some(names[i].clone());
        }
        i = i + 1;
    }
    proof {
        assert(all.take(names@.len() as int) =~= all);
    }
    None
}

/// Once a prefix has a missing name, the whole list has the same first one.
proof fn lemma_first_missing_prefix(names: Seq<Seq<char>>, held: Option<Seq<Seq<char>>>, k: int)
    requires
        0 <= k <= names.len(),
        first_missing(names.take(k), held) is Some,
    ensures
        first_missing(names, held) == first_missing(names.take(k), held),
    decreases names.len(),
{
    if k < names.len() {
        let d = names.drop_last();
        assert(d.take(k) =~= names.take(k));
        lemma_first_missing_prefix(d, held, k);
    } else {
        assert(names.take(k) =~= names);
    }
}

/// Once a prefix of the renames holds a malformed one, so does the whole list.
proof fn lemma_parse_renames_prefix(rs: Seq<Seq<char>>, k: int)
    requires
        0 <= k <= rs.len(),
        parse_renames(rs.take(k)) is Err,
    ensures
        parse_renames(rs) == parse_renames(rs.take(k)),
    decreases rs.len(),
{
    if k < rs.len() {
        let d = rs.drop_last();
        assert(d.take(k) =~= rs.take(k));
        lemma_parse_renames_prefix(d, k);
    } else {
        assert(rs.take(k) =~= rs);
    }
}

/// Once a prefix of the aggregations holds a bad one, so does the whole list.
proof fn lemma_parse_aggs_prefix(aggs: Seq<Seq<char>>, k: int)
    requires
        0 <= k <= aggs.len(),
        parse_aggs(aggs.take(k)) is Err,
    ensures
        parse_aggs(aggs) == parse_aggs(aggs.take(k)),
    decreases aggs.len(),
{
    if k < aggs.len() {
        let d = aggs.drop_last();
        assert(d.take(k) =~= aggs.take(k));
        lemma_parse_aggs_prefix(d, k);
    } else {
        assert(aggs.take(k) =~= aggs);
    }
}

/// Parses `OLD=NEW` renames, stopping at the first malformed one.
pub fn parse_renames_list(renames: &Vec<String>) -> (r: Result<Vec<(String, String)>, String>)
    ensures
        match r {
            Ok(v) => parse_renames(views(renames@)) == Ok::<
                Seq<(Seq<char>, Seq<char>)>,
                Seq<char>,
            >(pair_views(v@)),
            Err(e) => parse_renames(views(renames@)) == Err::<Seq<(Seq<char>, Seq<char>)>, Seq<char>>(
                e@,
            ),
        },
{
    let ghost all = views(renames@);
    let mut out: Vec<(String, String)> = Vec::new();
    proof {
        assert(all.take(0) =~= Seq::<Seq<char>>::empty());
        assert(pair_views(out@) =~= Seq::<(Seq<char>, Seq<char>)>::empty());
    }
    let mut i: usize = 0;
    while i < renames.len()
        invariant
            i <= renames@.len(),
            all == views(renames@),
            parse_renames(all.take(i as int)) == Ok::<Seq<(Seq<char>, Seq<char>)>, Seq<char>>(
                pair_views(out@),
            ),
        decreases renames@.len() - i,
    {
        proof {
            assert(all.take(i + 1).drop_last() =~= all.take(i as int));
            assert(all.take(i + 1).last() == renames@[i as int]@);
        }
        let parts = split_char(renames[i].as_str(), '=');
        if parts.len() != 2 {
            let mut msg = "Invalid rename format '".to_owned();
            push_str(&mut msg, renames[i].as_str());
            push_str(&mut msg, "'. Use OLD=NEW");
            proof {
                lemma_parse_renames_prefix(all, i + 1);
            }
            return Err(msg);
        }
        let pair = (parts[0].clone(), parts[1].clone());
        let ghost before = out@;
        out.push(pair);
        proof {
            assert(pair_views(out@) =~= pair_views(before).push((pair.0@, pair.1@)));
        }
        i = i + 1;
    }
    proof {
        assert(all.take(renames@.len() as int) =~= all);
    }
    Ok(out)
}

fn agg_fn_named(w: &String) -> (r: Option<AggFn>)
    ensures
        r == agg_fn_of(w@),
{
    if option_is(w, "sum") {
        Some(AggFn::Sum)
    } else if option_is(w, "mean") || option_is(w, "avg") {
        Some(AggFn::Mean)
    } else if option_is(w, "count") {
        Some(AggFn::Count)
    } else if option_is(w, "min") {
        Some(AggFn::Min)
    } else if option_is(w, "max") {
        Some(AggFn::Max)
    } else if option_is(w, "std") {
        Some(AggFn::Std)
    } else if option_is(w, "var") {
        Some(AggFn::Var)
    } else if option_is(w, "first") {
        Some(AggFn::First)
    } else if option_is(w, "last") {
        Some(AggFn::Last)
    } else if option_is(w, "median") {
        Some(AggFn::Median)
    } else {
        None
    }
}

/// Parses one `COLUMN:FUNCTION` aggregation.
pub fn parse_aggregation(a: &String) -> (r: Result<AggSpec, String>)
    ensures
        match r {
            Ok(spec) => parse_agg(a@) == Ok::<(Seq<char>, AggFn), Seq<char>>((spec.column@, spec.func)),
            Err(e) => parse_agg(a@) == Err::<(Seq<char>, AggFn), Seq<char>>(e@),
        },
{
    let parts = split_char(a.as_str(), ':');
    if parts.len() != 2 {
        let mut msg = "Invalid aggregation format '".to_owned();
        push_str(&mut msg, a.as_str());
        push_str(&mut msg, "'. Use COLUMN:FUNCTION");
        return Err(msg);
    }
    let w = lowered(parts[1].as_str());
    match agg_fn_named(&w) {
        Some(f) => Ok(AggSpec { column: parts[0].clone(), func: f }),
        None => {
            let mut msg = "Unknown aggregation function '".to_owned();
            push_str(&mut msg, parts[1].as_str());
            push_str(&mut msg, "'");
            Err(msg)
        },
    }
}

/// Parses the aggregations, stopping at the first bad one.
pub fn parse_aggregations(aggs: &Vec<String>) -> (r: Result<Vec<AggSpec>, String>)
    ensures
        match r {
            Ok(v) => parse_aggs(views(aggs@)) == Ok::<Seq<(Seq<char>, AggFn)>, Seq<char>>(
                agg_views(v@),
            ),
            Err(e) => parse_aggs(views(aggs@)) == Err::<Seq<(Seq<char>, AggFn)>, Seq<char>>(e@),
        },
{
    let ghost all = views(aggs@);
    let mut out: Vec<AggSpec> = Vec::new();
    proof {
        assert(all.take(0) =~= Seq::<Seq<char>>::empty());
        assert(agg_views(out@) =~= Seq::<(Seq<char>, AggFn)>::empty());
    }
    let mut i: usize = 0;
    while i < aggs.len()
        invariant
            i <= aggs@.len(),
            all == views(aggs@),
            parse_aggs(all.take(i as int)) == Ok::<Seq<(Seq<char>, AggFn)>, Seq<char>>(
                agg_views(out@),
            ),
        decreases aggs@.len() - i,
    {
        proof {
            assert(all.take(i + 1).drop_last() =~= all.take(i as int));
            assert(all.take(i + 1).last() == aggs@[i as int]@);
        }
        match parse_aggregation(&aggs[i]) {
            Ok(spec) => {
                let ghost before = out@;
                let ghost sv = (spec.column@, spec.func);
                out.push(spec);
                proof {
                    assert(agg_views(out@) =~= agg_views(before).push(sv));
                }
            },
            Err(e) => {
                proof {
                    lemma_parse_aggs_prefix(all, i + 1);
                }
                return Err(e);
            },
        }
        i = i + 1;
    }
    proof {
        assert(all.take(aggs@.len() as int) =~= all);
    }
    Ok(out)
}

/// Parses a column expression of one of the accepted forms.
pub fn parse_expression(expr: &String) -> (r: Option<MutateExpr>)
    ensures
        match r {
            Some(e) => parse_mutate(expr@) == Some(e@),
            None => parse_mutate(expr@) is None,
        },
{
    let parts = split_char(expr.as_str(), ':');
    proof {
        lemma_split_pieces_nonempty(expr@, ':');
    }
    let n = parts.len();
    let head = &parts[0];
    if option_is(head, "copy") && n == 2 {
        Some(MutateExpr::Copy(parts[1].clone()))
    } else if option_is(head, "constant") && n == 2 {
        Some(MutateExpr::Constant(parts[1].clone()))
    } else if option_is(head, "add") && n == 3 {
        Some(MutateExpr::Arithmetic(parts[1].clone(), ArithOp::Add, parts[2].clone()))
    } else if option_is(head, "sub") && n == 3 {
        Some(MutateExpr::Arithmetic(parts[1].clone(), ArithOp::Sub, parts[2].clone()))
    } else if option_is(head, "mul") && n == 3 {
        Some(MutateExpr::Arithmetic(parts[1].clone(), ArithOp::Mul, parts[2].clone()))
    } else if option_is(head, "div") && n == 3 {
        Some(MutateExpr::Arithmetic(parts[1].clone(), ArithOp::Div, parts[2].clone()))
    } else {
        None
    }
}

/// The fill strategy of a method, the constant defaulting to `0`.
pub fn fill_strategy(method: FillMethod, value: &Option<String>) -> (r: FillStrategy)
    ensures
        r@ == fill_of(method, *value),
{
    match method {
        FillMethod::Mean => FillStrategy::Mean,
        FillMethod::Median => FillStrategy::Median,
        FillMethod::Constant => match value {
            Some(v) => FillStrategy::Constant(v.clone()),
            None => FillStrategy::Constant("0".to_owned()),
        },
        FillMethod::Forward => FillStrategy::Forward,
        FillMethod::Backward => FillStrategy::Backward,
        FillMethod::Zero => FillStrategy::Zero,
    }
}

/// The binning strategy of a method.
pub fn bin_strategy(method: BinMethod, n_bins: usize) -> (r: BinStrategy)
    ensures
        r == bin_of(method, n_bins),
{
    match method {
        BinMethod::EqualWidth => BinStrategy::EqualWidth(n_bins),
        BinMethod::Quantile => BinStrategy::Quantile(n_bins),
    }
}

fn source_name(cmd: &MungeCommands) -> (r: &String)
    requires
        match *cmd {
            MungeCommands::Concat { datasets, .. } => datasets@.len() >= 1,
            _ => true,
        },
    ensures
        r@ == source_of(*cmd),
{
    match cmd {
        MungeCommands::Filter { dataset, .. } => dataset,
        MungeCommands::Select { dataset, .. } => dataset,
        MungeCommands::Drop { dataset, .. } => dataset,
        MungeCommands::Rename { dataset, .. } => dataset,
        MungeCommands::Sort { dataset, .. } => dataset,
        MungeCommands::Mutate { dataset, .. } => dataset,
        MungeCommands::Sample { dataset, .. } => dataset,
        MungeCommands::Join { left, .. } => left,
        MungeCommands::Concat { datasets, .. } => &datasets[0],
        MungeCommands::GroupBy { dataset, .. } => dataset,
        MungeCommands::ValueCounts { dataset, .. } => dataset,
        MungeCommands::Pivot { dataset, .. } => dataset,
        MungeCommands::Melt { dataset, .. } => dataset,
        MungeCommands::DropNa { dataset, .. } => dataset,
        MungeCommands::FillNa { dataset, .. } => dataset,
        MungeCommands::Deduplicate { dataset, .. } => dataset,
        MungeCommands::Lag { dataset, .. } => dataset,
        MungeCommands::Lead { dataset, .. } => dataset,
        MungeCommands::Diff { dataset, .. } => dataset,
        MungeCommands::Standardize { dataset, .. } => dataset,
        MungeCommands::Bin { dataset, .. } => dataset,
        MungeCommands::OneHot { dataset, .. } => dataset,
    }
}

fn operation_name(cmd: &MungeCommands) -> (r: &'static str)
    ensures
        r@ == operation_of(*cmd),
{
    match cmd {
        MungeCommands::Filter { .. } => "filtered",
        MungeCommands::Select { .. } => "selected",
        MungeCommands::Drop { .. } => "dropped",
        MungeCommands::Rename { .. } => "renamed",
        MungeCommands::Sort { .. } => "sorted",
        MungeCommands::Mutate { .. } => "mutated",
        MungeCommands::Sample { .. } => "sampled",
        MungeCommands::Join { .. } => "joined",
        MungeCommands::Concat { .. } => "concat",
        MungeCommands::GroupBy { .. } => "grouped",
        MungeCommands::ValueCounts { .. } => "counts",
        MungeCommands::Pivot { .. } => "pivoted",
        MungeCommands::Melt { .. } => "melted",
        MungeCommands::DropNa { .. } => "dropna",
        MungeCommands::FillNa { .. } => "fillna",
        MungeCommands::Deduplicate { .. } => "dedup",
        MungeCommands::Lag { .. } => "lagged",
        MungeCommands::Lead { .. } => "lead",
        MungeCommands::Diff { pct, .. } => if *pct { "pct_change" } else { "diff" },
        MungeCommands::Standardize { normalize, .. } => if *normalize {
            "normalized"
        } else {
            "standardized"
        },
        MungeCommands::Bin { .. } => "binned",
        MungeCommands::OneHot { .. } => "onehot",
    }
}

fn output_name(cmd: &MungeCommands) -> (r: &Option<String>)
    ensures
        *r == output_of(*cmd),
{
    match cmd {
        MungeCommands::Filter { name, .. } => name,
        MungeCommands::Select { name, .. } => name,
        MungeCommands::Drop { name, .. } => name,
        MungeCommands::Rename { name, .. } => name,
        MungeCommands::Sort { name, .. } => name,
        MungeCommands::Mutate { name, .. } => name,
        MungeCommands::Sample { name, .. } => name,
        MungeCommands::Join { name, .. } => name,
        MungeCommands::Concat { name, .. } => name,
        MungeCommands::GroupBy { name, .. } => name,
        MungeCommands::ValueCounts { name, .. } => name,
        MungeCommands::Pivot { name, .. } => name,
        MungeCommands::Melt { name, .. } => name,
        MungeCommands::DropNa { name, .. } => name,
        MungeCommands::FillNa { name, .. } => name,
        MungeCommands::Deduplicate { name, .. } => name,
        MungeCommands::Lag { name, .. } => name,
        MungeCommands::Lead { name, .. } => name,
        MungeCommands::Diff { name, .. } => name,
        MungeCommands::Standardize { name, .. } => name,
        MungeCommands::Bin { name, .. } => name,
        MungeCommands::OneHot { name, .. } => name,
    }
}

/// The name of the dataset that the command creates: the one it was given,
/// else `<source>_<operation>`.
pub fn result_dataset_name(cmd: &MungeCommands) -> (r: String)
    requires
        match *cmd {
            MungeCommands::Concat { datasets, .. } => datasets@.len() >= 1,
            _ => true,
        },
    ensures
        r@ == result_name(*cmd),
{
    match output_name(cmd) {
        Some(n) => n.clone(),
        None => {
            let mut s = source_name(cmd).clone();
            push_str(&mut s, "_");
            push_str(&mut s, operation_name(cmd));
            s
        },
    }
}

/// The message for a transformation that failed with `reason`.
pub fn failure_text(cmd: &MungeCommands, reason: &str) -> (r: String)
    ensures
        r@ == label_of(*cmd) + " failed: "@ + reason@,
{
    let label: &str = match cmd {
        MungeCommands::Filter { .. } => "Filter",
        MungeCommands::Select { .. } => "Select",
        MungeCommands::Drop { .. } => "Drop",
        MungeCommands::Rename { .. } => "Rename",
        MungeCommands::Sort { .. } => "Sort",
        MungeCommands::Mutate { .. } => "Mutate",
        MungeCommands::Sample { .. } => "Sample",
        MungeCommands::Join { .. } => "Join",
        MungeCommands::Concat { .. } => "Concat",
        MungeCommands::GroupBy { .. } => "Group by",
        MungeCommands::ValueCounts { .. } => "Value counts",
        MungeCommands::Pivot { .. } => "Pivot",
        MungeCommands::Melt { .. } => "Melt",
        MungeCommands::DropNa { .. } => "Drop NA",
        MungeCommands::FillNa { .. } => "Fill NA",
        MungeCommands::Deduplicate { .. } => "Deduplicate",
        MungeCommands::Lag { .. } => "Lag",
        MungeCommands::Lead { .. } => "Lead",
        MungeCommands::Diff { .. } => "Diff",
        MungeCommands::Standardize { .. } => "Standardize",
        MungeCommands::Bin { .. } => "Bin",
        MungeCommands::OneHot { .. } => "One-hot encode",
    };
    failure_message(label, reason)
}

/// The message for a stored result.
pub fn created_message(name: &str, nrows: usize, ncols: usize) -> (r: String)
    ensures
        r@ == "Created dataset '"@ + name@ + "' ("@ + decimal(nrows as nat) + " rows x "@ + decimal(
            ncols as nat,
        ) + " columns)"@,
{
    let mut s = "Created dataset '".to_owned();
    push_str(&mut s, name);
    push_str(&mut s, "' (");
    push_decimal(&mut s, nrows as u64);
    push_str(&mut s, " rows x ");
    push_decimal(&mut s, ncols as u64);
    push_str(&mut s, " columns)");
    s
}

/// Checks a munging command against the datasets of the session (`None`
/// when no session is active) and parses its arguments. The error is the
/// message that the command stops with; the plan names the result and
/// carries the parsed arguments.
pub fn execute(cmd: &MungeCommands, held: &Option<Vec<String>>) -> (r: Result<MungePlan, String>)
    ensures
        match r {
            Ok(plan) => {
                &&& munge_error(*cmd, held_view(*held)) is None
                &&& plan.output@ == result_name(*cmd)
                &&& step_of(*cmd, plan.step)
            },
            Err(msg) => munge_error(*cmd, held_view(*held)) == Some(msg@),
        },
{
    match cmd {
        MungeCommands::Concat { datasets, .. } => {
            if datasets.len() < 2 {
                return Err("At least 2 datasets required for concatenation".to_owned());
            }
            match first_missing_dataset(datasets, held) {
                Some(m) => {
                    return Err(dataset_not_found_message(m.as_str()));
                },
                None => {},
            }
        },
        MungeCommands::Join { left, right, .. } => {
            if !holds_dataset(held, left) {
                return Err(dataset_not_found_message(left.as_str()));
            }
            if !holds_dataset(held, right) {
                return Err(dataset_not_found_message(right.as_str()));
            }
        },
        _ => {
            if held.is_none() {
                return Err(no_session_message(SessionHint::Long));
            }
            let src = source_name(cmd);
            if !holds_dataset(held, src) {
                return Err(dataset_not_found_message(src.as_str()));
            }
        },
    }
    let step = match cmd {
        MungeCommands::Rename { renames, .. } => match parse_renames_list(renames) {
            Ok(v) => MungeStep::Renames(v),
            Err(e) => {
                return Err(e);
            },
        },
        MungeCommands::Mutate { expr, .. } => match parse_expression(expr) {
            Some(e) => MungeStep::Expr(e),
            None => {
                return Err(
                    "Invalid expression. Use: copy:COL, constant:VALUE, add:COL1:COL2, sub:COL1:COL2, mul:COL1:COL2, div:COL1:COL2".to_owned(),
                );
            },
        },
        MungeCommands::GroupBy { aggs, .. } => match parse_aggregations(aggs) {
            Ok(v) => MungeStep::Aggs(v),
            Err(e) => {
                return Err(e);
            },
        },
        MungeCommands::FillNa { method, value, .. } => MungeStep::Fill(fill_strategy(*method, value)),
        MungeCommands::Bin { method, n_bins, .. } => MungeStep::Bins(bin_strategy(*method, *n_bins)),
        _ => MungeStep::Plain,
    };
    let output = result_dataset_name(cmd);
    Ok(MungePlan { output, step })
}

} // verus!
