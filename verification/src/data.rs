//! Data loading and inspection commands: the name a loaded dataset gets,
//! the reader chosen for a file, and the listings printed for the session.

use vstd::prelude::*;
use crate::common::{
    held_view, holds, lowered, no_session_text, not_found_text, option_is, require_dataset,
    SessionHint,
};
use crate::output::{members_view, pretty_json_object, pretty_object_text, JsonField, JsonFieldView};
use crate::text::{decimal, join, lowercase, push_decimal, push_joined, push_str, views};

verus! {

/// Data loading and inspection commands.
pub enum DataCommands {
    /// Load a dataset from a file (CSV, Parquet, Excel, Stata, SAS)
    Load { path: String, name: Option<String> },
    /// List all loaded datasets
    List,
    /// Show dataset summary and statistics
    Describe { dataset: String },
    /// Show the first `n` rows of a dataset
    Head { dataset: String, n: usize },
    /// Generate random data; `columns` holds the column specifications as
    /// JSON
    Generate { rows: usize, name: String, columns: String, seed: Option<u64> },
}

/// What a data command goes on to do once its checks have passed.
pub enum DataRequest {
    /// Read the file at `path` and store it under `name`.
    Load { path: String, name: Option<String> },
    /// Show the datasets of the session.
    List { names: Vec<String> },
    /// Print an informational message and stop.
    Notice { message: String },
    /// Summarize a dataset of the session.
    Describe { dataset: String },
    /// Show the first rows of a dataset of the session.
    Head { dataset: String, n: usize },
    /// Generate a dataset.
    Generate { rows: usize, name: String, columns: String, seed: Option<u64> },
}

/// The file readers, chosen by extension.
#[derive(Clone, Copy, Debug, PartialEq, Eq, Structural)]
pub enum FileFormat {
    Csv,
    Parquet,
    Excel,
    Stata,
    Sas,
}

/// The reader for a lower-cased extension, if any.
pub open spec fn file_format_of(ext: Seq<char>) -> Option<FileFormat> {
    if ext == "csv"@ {
        Some(FileFormat::Csv)
    } else if ext == "parquet"@ {
        Some(FileFormat::Parquet)
    } else if ext == "xlsx"@ || ext == "xls"@ || ext == "xlsb"@ {
        Some(FileFormat::Excel)
    } else if ext == "dta"@ {
        Some(FileFormat::Stata)
    } else if ext == "sas7bdat"@ {
        Some(FileFormat::Sas)
    } else {
        None
    }
}

/// Each supported extension, read without regard to case, selects the
/// reader of its own format: `csv` CSV, `parquet` Parquet, `xlsx`, `xls` and
/// `xlsb` Excel, `dta` Stata, `sas7bdat` SAS; `choose_reader` returns that
/// reader.
pub proof fn law_reader_by_extension(ext: Seq<char>)
    ensures
        lowercase(ext) == "csv"@ ==> file_format_of(lowercase(ext)) == Some(FileFormat::Csv),
        lowercase(ext) == "parquet"@ ==> file_format_of(lowercase(ext)) == Some(FileFormat::Parquet),
        lowercase(ext) == "xlsx"@ ==> file_format_of(lowercase(ext)) == Some(FileFormat::Excel),
        lowercase(ext) == "xls"@ ==> file_format_of(lowercase(ext)) == Some(FileFormat::Excel),
        lowercase(ext) == "xlsb"@ ==> file_format_of(lowercase(ext)) == Some(FileFormat::Excel),
        lowercase(ext) == "dta"@ ==> file_format_of(lowercase(ext)) == Some(FileFormat::Stata),
        lowercase(ext) == "sas7bdat"@ ==> file_format_of(lowercase(ext)) == Some(FileFormat::Sas),
{
    reveal_strlit("csv");
    assert("csv"@ =~= seq!['c', 's', 'v']);
    reveal_strlit("parquet");
    assert("parquet"@ =~= seq!['p', 'a', 'r', 'q', 'u', 'e', 't']);
    reveal_strlit("xlsx");
    assert("xlsx"@ =~= seq!['x', 'l', 's', 'x']);
    reveal_strlit("xls");
    assert("xls"@ =~= seq!['x', 'l', 's']);
    reveal_strlit("xlsb");
    assert("xlsb"@ =~= seq!['x', 'l', 's', 'b']);
    reveal_strlit("dta");
    assert("dta"@ =~= seq!['d', 't', 'a']);
    reveal_strlit("sas7bdat");
    assert("sas7bdat"@ =~= seq!['s', 'a', 's', '7', 'b', 'd', 'a', 't']);
}

/// Chooses the reader for a file by its extension, without regard to case;
/// the error names the lower-cased extension.
pub fn choose_reader(extension: &str) -> (r: Result<FileFormat, String>)
    ensures
        match r {
            Ok(f) => file_format_of(lowercase(extension@)) == Some(f),
            Err(msg) => file_format_of(lowercase(extension@)) is None && msg@
                == "Unsupported file format: "@ + lowercase(extension@),
        },
{
    let w = lowered(extension);
    if option_is(&w, "csv") {
        Ok(FileFormat::Csv)
    } else if option_is(&w, "parquet") {
        Ok(FileFormat::Parquet)
    } else if option_is(&w, "xlsx") || option_is(&w, "xls") || option_is(&w, "xlsb") {
        Ok(FileFormat::Excel)
    } else if option_is(&w, "dta") {
        Ok(FileFormat::Stata)
    } else if option_is(&w, "sas7bdat") {
        Ok(FileFormat::Sas)
    } else {
        let mut msg = "Unsupported file format: ".to_owned();
        push_str(&mut msg, w.as_str());
        Err(msg)
    }
}

/// The name a loaded dataset is stored under: the one given, else the
/// file's stem, else `dataset`.
pub open spec fn load_name(name: Option<String>, stem: Option<String>) -> Seq<char> {
    match name {
        Some(n) => n@,
        None => match stem {
            Some(s) => s@,
            None => "dataset"@,
        },
    }
}

/// Names a loaded dataset; `stem` is the file name without its extension,
/// when the path has one.
pub fn loaded_dataset_name(name: &Option<String>, stem: &Option<String>) -> (r: String)
    ensures
        r@ == load_name(*name, *stem),
{
    match name {
        Some(n) => n.clone(),
        None => match stem {
            Some(s) => s.clone(),
            None => "dataset".to_owned(),
        },
    }
}

/// The notice for an empty session.
pub open spec fn empty_session_text() -> Seq<char> {
    "No datasets loaded"@
}

/// The error, if any, with which a data command stops before any work.
pub open spec fn data_error(cmd: DataCommands, held: Option<Seq<Seq<char>>>) -> Option<Seq<char>> {
    match cmd {
        DataCommands::Describe { dataset } => if holds(held, dataset@) {
            None
        } else if held is None {
            Some(no_session_text(SessionHint::Long))
        } else {
            Some(not_found_text(dataset@))
        },
        DataCommands::Head { dataset, .. } => if holds(held, dataset@) {
            None
        } else if held is None {
            Some(no_session_text(SessionHint::Long))
        } else {
            Some(not_found_text(dataset@))
        },
        _ => None,
    }
}

/// The request carries what the command says.
pub open spec fn data_request_of(cmd: DataCommands, held: Option<Seq<Seq<char>>>, req: DataRequest) -> bool {
    match cmd {
        DataCommands::Load { path, name } => match req {
            DataRequest::Load { path: p, name: n } => p@ == path@ && n == name,
            _ => false,
        },
        DataCommands::List => match held {
            None => match req {
                DataRequest::Notice { message } => message@ == no_session_text(SessionHint::Long),
                _ => false,
            },
            Some(h) => if h.len() == 0 {
                match req {
                    DataRequest::Notice { message } => message@ == empty_session_text(),
                    _ => false,
                }
            } else {
                match req {
                    DataRequest::List { names } => views(names@) == h,
                    _ => false,
                }
            },
        },
        DataCommands::Describe { dataset } => match req {
            DataRequest::Describe { dataset: d } => d@ == dataset@,
            _ => false,
        },
        DataCommands::Head { dataset, n } => match req {
            DataRequest::Head { dataset: d, n: k } => d@ == dataset@ && k == n,
            _ => false,
        },
        DataCommands::Generate { rows, name, columns, seed } => match req {
            DataRequest::Generate { rows: r, name: nm, columns: c, seed: s } => r == rows && nm@
                == name@ && c@ == columns@ && s == seed,
            _ => false,
        },
    }
}

/// Checks a data command against the datasets of the session (`None` when
/// no session is active) and says what it goes on to do.
pub fn execute(cmd: &DataCommands, held: &Option<Vec<String>>) -> (r: Result<DataRequest, String>)
    ensures
        match r {
            Ok(req) => data_error(*cmd, held_view(*held)) is None && data_request_of(
                *cmd,
                held_view(*held),
                req,
            ),
            Err(msg) => data_error(*cmd, held_view(*held)) == Some(msg@),
        },
{
    match cmd {
        DataCommands::Load { path, name } => Ok(
            DataRequest::Load { path: path.clone(), name: name.clone() },
        ),
        DataCommands::List => match held {
            None => Ok(
                DataRequest::Notice {
                    message: "No session active. Use --session <file> to enable dataset storage.".to_owned(),
                },
            ),
            Some(names) => {
                if names.len() == 0 {
                    Ok(DataRequest::Notice { message: "No datasets loaded".to_owned() })
                } else {
                    let copy = names.clone();
                    proof {
                        assert(copy@ =~= names@);
                    }
                    Ok(DataRequest::List { names: copy })
                }
            },
        },
        DataCommands::Describe { dataset } => {
            match require_dataset(held, dataset, SessionHint::Long) {
                Ok(_) => Ok(DataRequest::Describe { dataset: dataset.clone() }),
                Err(e) => Err(e),
            }
        },
        DataCommands::Head { dataset, n } => {
            match require_dataset(held, dataset, SessionHint::Long) {
                Ok(_) => Ok(DataRequest::Head { dataset: dataset.clone(), n: *n }),
                Err(e) => Err(e),
            }
        },
        DataCommands::Generate { rows, name, columns, seed } => Ok(
            DataRequest::Generate {
                rows: *rows,
                name: name.clone(),
                columns: columns.clone(),
                seed: *seed,
            },
        ),
    }
}

/// The text listing of the datasets of a session.
pub open spec fn listing_text(names: Seq<Seq<char>>) -> Seq<char>
    decreases names.len(),
{
    if names.len() == 0 {
        "Loaded datasets:"@
    } else {
        listing_text(names.drop_last()) + "\n  - "@ + names.last()
    }
}

/// Renders the text listing: a heading, then one line per dataset.
pub fn datasets_listing(names: &Vec<String>) -> (r: String)
    ensures
        r@ == listing_text(views(names@)),
{
    let mut s = "Loaded datasets:".to_owned();
    let mut i: usize = 0;
    proof {
        assert(views(names@).take(0) =~= Seq::<Seq<char>>::empty());
    }
    while i < names.len()
        invariant
            i <= names@.len(),
            s@ == listing_text(views(names@).take(i as int)),
        decreases names@.len() - i,
    {
        push_str(&mut s, "\n  - ");
        push_str(&mut s, names[i].as_str());
        proof {
            let t = views(names@).take(i + 1);
            assert(t.drop_last() =~= views(names@).take(i as int));
            assert(t.last() == names@[i as int]@);
        }
        i = i + 1;
    }
    proof {
        assert(views(names@).take(names@.len() as int) =~= views(names@));
    }
    s
}

/// The JSON listing of the datasets of a session: an object whose member
/// `datasets` holds the names.
pub open spec fn datasets_json(names: Seq<Seq<char>>) -> Seq<char> {
    pretty_json_object(seq![("datasets"@, JsonFieldView::Names(names))])
}

fn datasets_json_text(names: &Vec<String>) -> (r: String)
    ensures
        r@ == datasets_json(views(names@)),
{
    let copy = names.clone();
    proof {
        assert(copy@ =~= names@);
    }
    let members = vec![("datasets".to_owned(), JsonField::Names(copy))];
    let r = pretty_object_text(members.as_slice());
    proof {
        assert(members_view(members@) =~= seq![("datasets"@, JsonFieldView::Names(views(names@)))]);
    }
    r
}

/// The listing of the datasets of a session in the chosen format.
pub fn format_listing(names: &Vec<String>, json: bool) -> (r: String)
    ensures
        r@ == (if json {
            datasets_json(views(names@))
        } else {
            listing_text(views(names@))
        }),
{
    if json {
        datasets_json_text(names)
    } else {
        datasets_listing(names)
    }
}

/// The text report of a generated dataset.
pub open spec fn generated_text(
    name: Seq<char>,
    nrows: nat,
    ncols: nat,
    columns: Seq<Seq<char>>,
    seed: Option<u64>,
) -> Seq<char> {
    "Generated random dataset '"@ + name + "'\n  Rows: "@ + decimal(nrows) + "\n  Columns: "@
        + decimal(ncols) + "\n  Column names: "@ + join(columns, ", "@) + match seed {
        Some(s) => "\n  Seed: "@ + decimal(s as nat),
        None => Seq::empty(),
    }
}

/// Renders the text report of a generated dataset, one line per fact.
pub fn generated_report(
    name: &str,
    nrows: usize,
    ncols: usize,
    columns: &Vec<String>,
    seed: Option<u64>,
) -> (r: String)
    ensures
        r@ == generated_text(name@, nrows as nat, ncols as nat, views(columns@), seed),
{
    let mut s = "Generated random dataset '".to_owned();
    push_str(&mut s, name);
    push_str(&mut s, "'\n  Rows: ");
    push_decimal(&mut s, nrows as u64);
    push_str(&mut s, "\n  Columns: ");
    push_decimal(&mut s, ncols as u64);
    push_str(&mut s, "\n  Column names: ");
    push_joined(&mut s, columns.as_slice(), ", ");
    match seed {
        Some(v) => {
            push_str(&mut s, "\n  Seed: ");
            push_decimal(&mut s, v);
        },
        None => {},
    }
    s
}

/// The error for a generation request without columns.
pub fn check_generated_columns(count: usize) -> (r: Result<(), String>)
    ensures
        r is Ok <==> count > 0,
        r matches Err(msg) ==> msg@ == "At least one column specification is required"@,
{
    if count == 0 {
        Err("At least one column specification is required".to_owned())
    } else {
        Ok(())
    }
}

} // verus!
