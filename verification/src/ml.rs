//! Machine learning commands: the session checks before clustering,
//! dimension reduction and classification.

use vstd::prelude::*;
use crate::common::{
    Real, SessionHint, held_view, holds, no_session_text, not_found_text, require_dataset,
};

verus! {

/// Machine learning commands.
pub enum MlCommands {
    /// K-means clustering
    Kmeans {
        dataset: String,
        cols: Vec<String>,
        k: usize,
        seed: Option<u64>,
        max_iter: usize,
    },
    /// Principal Component Analysis
    Pca {
        dataset: String,
        cols: Vec<String>,
        n_components: Option<usize>,
        transform: bool,
    },
    /// t-SNE dimensionality reduction
    Tsne {
        dataset: String,
        cols: Vec<String>,
        n_components: usize,
        perplexity: Real,
        max_iter: usize,
        learning_rate: Real,
        seed: Option<u64>,
    },
    /// Random Forest regression/classification
    RandomForest {
        dataset: String,
        cols: Vec<String>,
        target: String,
        n_trees: usize,
        max_depth: usize,
        min_samples_split: usize,
        max_features: String,
        seed: Option<u64>,
    },
    /// DBSCAN density-based clustering
    Dbscan {
        dataset: String,
        cols: Vec<String>,
        eps: Real,
        min_samples: usize,
    },
    /// Hierarchical (agglomerative) clustering
    Hierarchical {
        dataset: String,
        cols: Vec<String>,
        n_clusters: Option<usize>,
        linkage: String,
        distance_threshold: Option<Real>,
    },
    /// Linear Support Vector Machine (SVM)
    Svm {
        dataset: String,
        cols: Vec<String>,
        target: String,
        c: Real,
        max_iter: usize,
        tolerance: Real,
    },
}

/// The dataset a command works on.
pub open spec fn dataset_of(cmd: MlCommands) -> Seq<char> {
    match cmd {
        MlCommands::Kmeans { dataset, .. } => dataset@,
        MlCommands::Pca { dataset, .. } => dataset@,
        MlCommands::Tsne { dataset, .. } => dataset@,
        MlCommands::RandomForest { dataset, .. } => dataset@,
        MlCommands::Dbscan { dataset, .. } => dataset@,
        MlCommands::Hierarchical { dataset, .. } => dataset@,
        MlCommands::Svm { dataset, .. } => dataset@,
    }
}

fn dataset_name(cmd: &MlCommands) -> (r: &String)
    ensures
        r@ == dataset_of(*cmd),
{
    match cmd {
        MlCommands::Kmeans { dataset, .. } => dataset,
        MlCommands::Pca { dataset, .. } => dataset,
        MlCommands::Tsne { dataset, .. } => dataset,
        MlCommands::RandomForest { dataset, .. } => dataset,
        MlCommands::Dbscan { dataset, .. } => dataset,
        MlCommands::Hierarchical { dataset, .. } => dataset,
        MlCommands::Svm { dataset, .. } => dataset,
    }
}

/// The wording of the no-session error of each command.
pub open spec fn session_hint(cmd: MlCommands) -> SessionHint {
    match cmd {
        MlCommands::Kmeans { .. } | MlCommands::Pca { .. } => SessionHint::Long,
        _ => SessionHint::Short,
    }
}

/// Checks that the session (`None` when none is active) holds the dataset
/// a command works on; the error says whether the session or the dataset
/// is missing.
pub fn execute(cmd: &MlCommands, held: &Option<Vec<String>>) -> (r: Result<(), String>)
    ensures
        match r {
            Ok(()) => holds(held_view(*held), dataset_of(*cmd)),
            Err(msg) => !holds(held_view(*held), dataset_of(*cmd)) && msg@ == (if held is None {
                no_session_text(session_hint(*cmd))
            } else {
                not_found_text(dataset_of(*cmd))
            }),
        },
{
    let hint = match cmd {
        MlCommands::Kmeans { .. } | MlCommands::Pca { .. } => SessionHint::Long,
        _ => SessionHint::Short,
    };
    require_dataset(held, dataset_name(cmd), hint)
}


} // verus!
