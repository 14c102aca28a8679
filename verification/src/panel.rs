//! Panel data estimation commands: which estimation each command asks for.

use vstd::prelude::*;
use crate::common::{
    SessionHint, clone_strings, held_view, holds, lowered, no_session_text, not_found_text, option_is, require_dataset,
};
use crate::regression::CovarianceType;
use crate::text::lowercase;

verus! {

/// Panel data estimation commands.
pub enum PanelCommands {
    /// Fixed Effects estimation
    Fe { dataset: String, dep_var: String, indep_vars: Vec<String>, entity: String },
    /// Random Effects estimation
    Re { dataset: String, dep_var: String, indep_vars: Vec<String>, entity: String },
    /// Hausman test (Fixed vs Random Effects)
    Hausman { dataset: String, dep_var: String, indep_vars: Vec<String>, entity: String },
    /// High-dimensional Fixed Effects
    Hdfe { dataset: String, dep_var: String, indep_vars: Vec<String>, fe: Vec<String> },
    /// Fixed Effects GLM; `family` is logit (default), probit, poisson or gaussian
    Feglm {
        dataset: String,
        dep_var: String,
        indep_vars: Vec<String>,
        fe: Vec<String>,
        family: String,
    },
    /// Arellano-Bond GMM estimation for dynamic panels
    Gmm { dataset: String, dep_var: String, indep_vars: Vec<String>, entity: String, time: String },
    /// Panel Variable Coefficients Model; `model` is within (default) or random
    Pvcm {
        dataset: String,
        dep_var: String,
        indep_vars: Vec<String>,
        entity: String,
        model: String,
    },
    /// Pooled Mean Group estimator
    Pmg { dataset: String, dep_var: String, indep_vars: Vec<String>, entity: String },
    /// Panel GLS; `model` is fe (default), pooling or fd
    Gls {
        dataset: String,
        dep_var: String,
        indep_vars: Vec<String>,
        entity: String,
        time: String,
        model: String,
    },
    /// Panel unit root tests; `test` is llc (default), ips, hadri or fisher
    UnitRoot {
        dataset: String,
        var: String,
        unit: String,
        time: String,
        test: String,
        lags: Option<usize>,
    },
}

/// Estimators on a dependent variable, regressors and an entity column.
#[derive(Clone, Copy, PartialEq, Eq, Structural)]
pub enum EntityModel {
    FixedEffects,
    RandomEffects,
    Hausman,
    PooledMeanGroup,
}

/// GLM families of the fixed-effects GLM.
#[derive(Clone, Copy, PartialEq, Eq, Structural)]
pub enum GlmFamily {
    Logit,
    Probit,
    Poisson,
    Gaussian,
}

/// Variable coefficient model types.
#[derive(Clone, Copy, PartialEq, Eq, Structural)]
pub enum PvcmType {
    Within,
    Random,
}

/// Panel GLS models.
#[derive(Clone, Copy, PartialEq, Eq, Structural)]
pub enum PanelGlsModel {
    FixedEffects,
    Pooling,
    FirstDifference,
}

/// Panel unit root tests.
#[derive(Clone, Copy, PartialEq, Eq, Structural)]
pub enum UnitRootTest {
    LLC,
    IPS,
    Hadri,
    Fisher,
}

/// The GLM family an option names; anything unknown is logit.
pub open spec fn glm_family_of(s: Seq<char>) -> GlmFamily {
    let l = lowercase(s);
    if l == "probit"@ {
        GlmFamily::Probit
    } else if l == "poisson"@ {
        GlmFamily::Poisson
    } else if l == "gaussian"@ {
        GlmFamily::Gaussian
    } else {
        GlmFamily::Logit
    }
}

/// The variable coefficient model an option names; anything but random is within.
pub open spec fn pvcm_type_of(s: Seq<char>) -> PvcmType {
    if lowercase(s) == "random"@ {
        PvcmType::Random
    } else {
        PvcmType::Within
    }
}

/// The GLS model an option names; anything unknown is fixed effects.
pub open spec fn gls_model_of(s: Seq<char>) -> PanelGlsModel {
    let l = lowercase(s);
    if l == "pooling"@ {
        PanelGlsModel::Pooling
    } else if l == "fd"@ || l == "first-difference"@ {
        PanelGlsModel::FirstDifference
    } else {
        PanelGlsModel::FixedEffects
    }
}

/// The unit root test an option names; anything unknown is Levin-Lin-Chu.
pub open spec fn unit_root_test_of(s: Seq<char>) -> UnitRootTest {
    let l = lowercase(s);
    if l == "ips"@ {
        UnitRootTest::IPS
    } else if l == "hadri"@ {
        UnitRootTest::Hadri
    } else if l == "fisher"@ {
        UnitRootTest::Fisher
    } else {
        UnitRootTest::LLC
    }
}

/// Parse a GLM family option.
pub fn parse_glm_family(s: &str) -> (r: GlmFamily)
    ensures
        r == glm_family_of(s@),
{
    let l = lowered(s);
    if option_is(&l, "probit") {
        GlmFamily::Probit
    } else if option_is(&l, "poisson") {
        GlmFamily::Poisson
    } else if option_is(&l, "gaussian") {
        GlmFamily::Gaussian
    } else {
        GlmFamily::Logit
    }
}

/// Parse a variable coefficient model option.
pub fn parse_pvcm_type(s: &str) -> (r: PvcmType)
    ensures
        r == pvcm_type_of(s@),
{
    let l = lowered(s);
    if option_is(&l, "random") {
        PvcmType::Random
    } else {
        PvcmType::Within
    }
}

/// Parse a panel GLS model option.
pub fn parse_gls_model(s: &str) -> (r: PanelGlsModel)
    ensures
        r == gls_model_of(s@),
{
    let l = lowered(s);
    if option_is(&l, "pooling") {
        PanelGlsModel::Pooling
    } else if option_is(&l, "fd") || option_is(&l, "first-difference") {
        PanelGlsModel::FirstDifference
    } else {
        PanelGlsModel::FixedEffects
    }
}

/// Parse a unit root test option.
pub fn parse_unit_root_test(s: &str) -> (r: UnitRootTest)
    ensures
        r == unit_root_test_of(s@),
{
    let l = lowered(s);
    if option_is(&l, "ips") {
        UnitRootTest::IPS
    } else if option_is(&l, "hadri") {
        UnitRootTest::Hadri
    } else if option_is(&l, "fisher") {
        UnitRootTest::Fisher
    } else {
        UnitRootTest::LLC
    }
}

/// The estimation a panel command asks for, with its resolved options.
pub enum PanelRequest {
    /// An estimator on an entity column.
    Entity {
        model: EntityModel,
        dataset: String,
        dep_var: String,
        indep_vars: Vec<String>,
        entity: String,
    },
    /// High-dimensional fixed effects with the given covariance estimator.
    Hdfe {
        dataset: String,
        dep_var: String,
        indep_vars: Vec<String>,
        fe: Vec<String>,
        covariance: CovarianceType,
    },
    /// Fixed-effects GLM.
    Feglm {
        dataset: String,
        dep_var: String,
        indep_vars: Vec<String>,
        fe: Vec<String>,
        family: GlmFamily,
    },
    /// Arellano-Bond GMM.
    Gmm { dataset: String, dep_var: String, indep_vars: Vec<String>, entity: String, time: String },
    /// Variable coefficients model.
    Pvcm {
        dataset: String,
        dep_var: String,
        indep_vars: Vec<String>,
        entity: String,
        model: PvcmType,
    },
    /// Panel GLS.
    Gls {
        dataset: String,
        dep_var: String,
        indep_vars: Vec<String>,
        entity: String,
        time: String,
        model: PanelGlsModel,
    },
    /// Panel unit root test with an intercept, lags as given and no lag limit.
    UnitRoot {
        dataset: String,
        var: String,
        unit: String,
        time: String,
        test: UnitRootTest,
        lags: Option<usize>,
    },
}

/// The wording of the no-session error of each command.
pub open spec fn panel_hint(cmd: PanelCommands) -> SessionHint {
    match cmd {
        PanelCommands::Fe { .. } | PanelCommands::Re { .. } | PanelCommands::Hausman { .. }
        | PanelCommands::Hdfe { .. } => SessionHint::Long,
        _ => SessionHint::Short,
    }
}

/// The request matches the command.
pub open spec fn requested(cmd: PanelCommands, req: PanelRequest) -> bool {
    match req {
        PanelRequest::Entity { model: m, dataset: d, dep_var: y, indep_vars: x, entity: e } =>
            match cmd {
            PanelCommands::Fe { dataset, dep_var, indep_vars, entity } => m
                == EntityModel::FixedEffects && d == dataset && y == dep_var && x@ == indep_vars@
                && e == entity,
            PanelCommands::Re { dataset, dep_var, indep_vars, entity } => m
                == EntityModel::RandomEffects && d == dataset && y == dep_var && x@ == indep_vars@
                && e == entity,
            PanelCommands::Hausman { dataset, dep_var, indep_vars, entity } => m
                == EntityModel::Hausman && d == dataset && y == dep_var && x@ == indep_vars@ && e
                == entity,
            PanelCommands::Pmg { dataset, dep_var, indep_vars, entity } => m
                == EntityModel::PooledMeanGroup && d == dataset && y == dep_var && x@
                == indep_vars@ && e == entity,
            _ => false,
        },
        PanelRequest::Hdfe { dataset: d, dep_var: y, indep_vars: x, fe: f, covariance } =>
            match cmd {
            PanelCommands::Hdfe { dataset, dep_var, indep_vars, fe } => d == dataset && y == dep_var
                && x@ == indep_vars@ && f@ == fe@ && covariance == CovarianceType::HC1,
            _ => false,
        },
        PanelRequest::Feglm { dataset: d, dep_var: y, indep_vars: x, fe: f, family: fam } =>
            match cmd {
            PanelCommands::Feglm { dataset, dep_var, indep_vars, fe, family } => d == dataset && y
                == dep_var && x@ == indep_vars@ && f@ == fe@ && fam == glm_family_of(family@),
            _ => false,
        },
        PanelRequest::Gmm { dataset: d, dep_var: y, indep_vars: x, entity: e, time: t } =>
            match cmd {
            PanelCommands::Gmm { dataset, dep_var, indep_vars, entity, time } => d == dataset && y
                == dep_var && x@ == indep_vars@ && e == entity && t == time,
            _ => false,
        },
        PanelRequest::Pvcm { dataset: d, dep_var: y, indep_vars: x, entity: e, model: m } =>
            match cmd {
            PanelCommands::Pvcm { dataset, dep_var, indep_vars, entity, model } => d == dataset && y
                == dep_var && x@ == indep_vars@ && e == entity && m == pvcm_type_of(model@),
            _ => false,
        },
        PanelRequest::Gls { dataset: d, dep_var: y, indep_vars: x, entity: e, time: t, model: m } =>
            match cmd {
            PanelCommands::Gls { dataset, dep_var, indep_vars, entity, time, model } => d == dataset
                && y == dep_var && x@ == indep_vars@ && e == entity && t == time && m
                == gls_model_of(model@),
            _ => false,
        },
        PanelRequest::UnitRoot { dataset: d, var: v, unit: u, time: t, test: tt, lags: l } =>
            match cmd {
            PanelCommands::UnitRoot { dataset, var, unit, time, test, lags } => d == dataset && v
                == var && u == unit && t == time && tt == unit_root_test_of(test@) && l == lags,
            _ => false,
        },
    }
}

/// The dataset a command works on.
pub open spec fn dataset_of(cmd: PanelCommands) -> Seq<char> {
    match cmd {
        PanelCommands::Fe { dataset, .. } => dataset@,
        PanelCommands::Re { dataset, .. } => dataset@,
        PanelCommands::Hausman { dataset, .. } => dataset@,
        PanelCommands::Hdfe { dataset, .. } => dataset@,
        PanelCommands::Feglm { dataset, .. } => dataset@,
        PanelCommands::Gmm { dataset, .. } => dataset@,
        PanelCommands::Pvcm { dataset, .. } => dataset@,
        PanelCommands::Pmg { dataset, .. } => dataset@,
        PanelCommands::Gls { dataset, .. } => dataset@,
        PanelCommands::UnitRoot { dataset, .. } => dataset@,
    }
}

fn dataset_name(cmd: &PanelCommands) -> (r: &String)
    ensures
        r@ == dataset_of(*cmd),
{
    match cmd {
        PanelCommands::Fe { dataset, .. } => dataset,
        PanelCommands::Re { dataset, .. } => dataset,
        PanelCommands::Hausman { dataset, .. } => dataset,
        PanelCommands::Hdfe { dataset, .. } => dataset,
        PanelCommands::Feglm { dataset, .. } => dataset,
        PanelCommands::Gmm { dataset, .. } => dataset,
        PanelCommands::Pvcm { dataset, .. } => dataset,
        PanelCommands::Pmg { dataset, .. } => dataset,
        PanelCommands::Gls { dataset, .. } => dataset,
        PanelCommands::UnitRoot { dataset, .. } => dataset,
    }
}

/// Resolve a command into the estimation it asks for, once the session
/// (`None` when none is active) holds its dataset; the error says whether
/// the session or the dataset is missing.
pub fn execute(cmd: &PanelCommands, held: &Option<Vec<String>>) -> (r: Result<PanelRequest, String>)
    ensures
        match r {
            Ok(req) => holds(held_view(*held), dataset_of(*cmd)) && requested(*cmd, req),
            Err(msg) => !holds(held_view(*held), dataset_of(*cmd)) && msg@ == (if held is None {
                no_session_text(panel_hint(*cmd))
            } else {
                not_found_text(dataset_of(*cmd))
            }),
        },
{
    let hint = match cmd {
        PanelCommands::Fe { .. } | PanelCommands::Re { .. } | PanelCommands::Hausman { .. }
        | PanelCommands::Hdfe { .. } => SessionHint::Long,
        _ => SessionHint::Short,
    };
    match require_dataset(held, dataset_name(cmd), hint) {
        Ok(_) => {},
        Err(e) => {
            return Err(e);
        },
    }
    let req = match cmd {
        PanelCommands::Fe { dataset, dep_var, indep_vars, entity } => PanelRequest::Entity {
            model: EntityModel::FixedEffects,
            dataset: dataset.clone(),
            dep_var: dep_var.clone(),
            indep_vars: clone_strings(indep_vars),
            entity: entity.clone(),
        },
        PanelCommands::Re { dataset, dep_var, indep_vars, entity } => PanelRequest::Entity {
            model: EntityModel::RandomEffects,
            dataset: dataset.clone(),
            dep_var: dep_var.clone(),
            indep_vars: clone_strings(indep_vars),
            entity: entity.clone(),
        },
        PanelCommands::Hausman { dataset, dep_var, indep_vars, entity } => PanelRequest::Entity {
            model: EntityModel::Hausman,
            dataset: dataset.clone(),
            dep_var: dep_var.clone(),
            indep_vars: clone_strings(indep_vars),
            entity: entity.clone(),
        },
        PanelCommands::Pmg { dataset, dep_var, indep_vars, entity } => PanelRequest::Entity {
            model: EntityModel::PooledMeanGroup,
            dataset: dataset.clone(),
            dep_var: dep_var.clone(),
            indep_vars: clone_strings(indep_vars),
            entity: entity.clone(),
        },
        PanelCommands::Hdfe { dataset, dep_var, indep_vars, fe } => PanelRequest::Hdfe {
            dataset: dataset.clone(),
            dep_var: dep_var.clone(),
            indep_vars: clone_strings(indep_vars),
            fe: clone_strings(fe),
            covariance: CovarianceType::HC1,
        },
        PanelCommands::Feglm { dataset, dep_var, indep_vars, fe, family } => PanelRequest::Feglm {
            dataset: dataset.clone(),
            dep_var: dep_var.clone(),
            indep_vars: clone_strings(indep_vars),
            fe: clone_strings(fe),
            family: parse_glm_family(family.as_str()),
        },
        PanelCommands::Gmm { dataset, dep_var, indep_vars, entity, time } => PanelRequest::Gmm {
            dataset: dataset.clone(),
            dep_var: dep_var.clone(),
            indep_vars: clone_strings(indep_vars),
            entity: entity.clone(),
            time: time.clone(),
        },
        PanelCommands::Pvcm { dataset, dep_var, indep_vars, entity, model } => PanelRequest::Pvcm {
            dataset: dataset.clone(),
            dep_var: dep_var.clone(),
            indep_vars: clone_strings(indep_vars),
            entity: entity.clone(),
            model: parse_pvcm_type(model.as_str()),
        },
        PanelCommands::Gls { dataset, dep_var, indep_vars, entity, time, model } => PanelRequest::Gls {
            dataset: dataset.clone(),
            dep_var: dep_var.clone(),
            indep_vars: clone_strings(indep_vars),
            entity: entity.clone(),
            time: time.clone(),
            model: parse_gls_model(model.as_str()),
        },
        PanelCommands::UnitRoot { dataset, var, unit, time, test, lags } => PanelRequest::UnitRoot {
            dataset: dataset.clone(),
            var: var.clone(),
            unit: unit.clone(),
            time: time.clone(),
            test: parse_unit_root_test(test.as_str()),
            lags: *lags,
        },
    };
    Ok(req)
}

/// The option word of `glm_family_of`, read without regard to case, selects the
/// choice it names (`probit`, `poisson`, `gaussian`); any other word selects the default, Logit.
pub proof fn law_glm_family_words(option: Seq<char>)
    ensures
        lowercase(option) == "probit"@ ==> glm_family_of(option) == GlmFamily::Probit,
        lowercase(option) == "poisson"@ ==> glm_family_of(option) == GlmFamily::Poisson,
        lowercase(option) == "gaussian"@ ==> glm_family_of(option) == GlmFamily::Gaussian,
        lowercase(option) != "probit"@ && lowercase(option) != "poisson"@ && lowercase(option) != "gaussian"@ ==> glm_family_of(option) == GlmFamily::Logit,
{
    reveal_strlit("probit");
    assert("probit"@ =~= seq!['p', 'r', 'o', 'b', 'i', 't']);
    reveal_strlit("poisson");
    assert("poisson"@ =~= seq!['p', 'o', 'i', 's', 's', 'o', 'n']);
    reveal_strlit("gaussian");
    assert("gaussian"@ =~= seq!['g', 'a', 'u', 's', 's', 'i', 'a', 'n']);
}

/// The option word of `pvcm_type_of`, read without regard to case, selects the
/// choice it names (`random`); any other word selects the default, Within.
pub proof fn law_pvcm_type_words(option: Seq<char>)
    ensures
        lowercase(option) == "random"@ ==> pvcm_type_of(option) == PvcmType::Random,
        lowercase(option) != "random"@ ==> pvcm_type_of(option) == PvcmType::Within,
{
    reveal_strlit("random");
    assert("random"@ =~= seq!['r', 'a', 'n', 'd', 'o', 'm']);
}

/// The option word of `gls_model_of`, read without regard to case, selects the
/// choice it names (`pooling`, `fd`, `first-difference`); any other word selects the default, FixedEffects.
pub proof fn law_gls_model_words(option: Seq<char>)
    ensures
        lowercase(option) == "pooling"@ ==> gls_model_of(option) == PanelGlsModel::Pooling,
        (lowercase(option) == "fd"@ || lowercase(option) == "first-difference"@) ==> gls_model_of(option) == PanelGlsModel::FirstDifference,
        lowercase(option) != "pooling"@ && lowercase(option) != "fd"@ && lowercase(option) != "first-difference"@ ==> gls_model_of(option) == PanelGlsModel::FixedEffects,
{
    reveal_strlit("pooling");
    assert("pooling"@ =~= seq!['p', 'o', 'o', 'l', 'i', 'n', 'g']);
    reveal_strlit("fd");
    assert("fd"@ =~= seq!['f', 'd']);
    reveal_strlit("first-difference");
    assert("first-difference"@ =~= seq!['f', 'i', 'r', 's', 't', '-', 'd', 'i', 'f', 'f', 'e', 'r', 'e', 'n', 'c', 'e']);
}

/// The option word of `unit_root_test_of`, read without regard to case, selects the
/// choice it names (`ips`, `hadri`, `fisher`); any other word selects the default, LLC.
pub proof fn law_unit_root_test_words(option: Seq<char>)
    ensures
        lowercase(option) == "ips"@ ==> unit_root_test_of(option) == UnitRootTest::IPS,
        lowercase(option) == "hadri"@ ==> unit_root_test_of(option) == UnitRootTest::Hadri,
        lowercase(option) == "fisher"@ ==> unit_root_test_of(option) == UnitRootTest::Fisher,
        lowercase(option) != "ips"@ && lowercase(option) != "hadri"@ && lowercase(option) != "fisher"@ ==> unit_root_test_of(option) == UnitRootTest::LLC,
{
    reveal_strlit("ips");
    assert("ips"@ =~= seq!['i', 'p', 's']);
    reveal_strlit("hadri");
    assert("hadri"@ =~= seq!['h', 'a', 'd', 'r', 'i']);
    reveal_strlit("fisher");
    assert("fisher"@ =~= seq!['f', 'i', 's', 'h', 'e', 'r']);
}

} // verus!
