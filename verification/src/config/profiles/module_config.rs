//! Module definitions: a named, ordered list of steps.
//!
//! In a definition file a step is a table whose kind — tool invocation,
//! archive extraction, or script — is inferred from which fields are
//! present. [`classify_step`] performs that inference.

use vstd::prelude::*;
use crate::text::clone_strings;

verus! {

/// Spec-level mirror of [`ModuleStep`].
pub ghost enum ModuleStepV {
    Tool { name: Seq<char>, tool: Seq<char>, packages: Seq<Seq<char>> },
    Zip { name: Seq<char>, extract_zip_to: Seq<char>, packages: Seq<Seq<char>> },
    Script { name: Seq<char>, script: Seq<char> },
}

/// One step of a module: invoke a tool on a list of packages, download and
/// extract archives, or run a shell script.
#[derive(Debug, PartialEq, Eq)]
pub enum ModuleStep {
    Tool { name: String, tool: String, packages: Vec<String> },
    Zip { name: String, extract_zip_to: String, packages: Vec<String> },
    Script { name: String, script: String },
}

impl View for ModuleStep {
    type V = ModuleStepV;

    open spec fn view(&self) -> ModuleStepV {
        match self {
            ModuleStep::Tool { name, tool, packages } => ModuleStepV::Tool {
                name: name@,
                tool: tool@,
                packages: packages.deep_view(),
            },
            ModuleStep::Zip { name, extract_zip_to, packages } => ModuleStepV::Zip {
                name: name@,
                extract_zip_to: extract_zip_to@,
                packages: packages.deep_view(),
            },
            ModuleStep::Script { name, script } => ModuleStepV::Script {
                name: name@,
                script: script@,
            },
        }
    }
}

impl DeepView for ModuleStep {
    type V = ModuleStepV;

    open spec fn deep_view(&self) -> ModuleStepV {
        self@
    }
}

impl Clone for ModuleStep {
    fn clone(&self) -> (r: Self)
        ensures
            r@ == self@,
    {
        match self {
            ModuleStep::Tool { name, tool, packages } => ModuleStep::Tool {
                name: name.clone(),
                tool: tool.clone(),
                packages: clone_strings(packages),
            },
            ModuleStep::Zip { name, extract_zip_to, packages } => ModuleStep::Zip {
                name: name.clone(),
                extract_zip_to: extract_zip_to.clone(),
                packages: clone_strings(packages),
            },
            ModuleStep::Script { name, script } => ModuleStep::Script {
                name: name.clone(),
                script: script.clone(),
            },
        }
    }
}

/// Spec-level mirror of [`ModuleConfig`].
pub ghost struct ModuleConfigV {
    pub name: Seq<char>,
    pub steps: Seq<ModuleStepV>,
}

/// A module: its declared name and its ordered steps.
#[derive(Debug, PartialEq, Eq)]
pub struct ModuleConfig {
    pub name: String,
    pub steps: Vec<ModuleStep>,
}

impl View for ModuleConfig {
    type V = ModuleConfigV;

    open spec fn view(&self) -> ModuleConfigV {
        ModuleConfigV { name: self.name@, steps: self.steps@.map_values(|s: ModuleStep| s@) }
    }
}

impl DeepView for ModuleConfig {
    type V = ModuleConfigV;

    open spec fn deep_view(&self) -> ModuleConfigV {
        self@
    }
}

impl Clone for ModuleConfig {
    fn clone(&self) -> (r: Self)
        ensures
            r@ == self@,
    {
        let mut steps: Vec<ModuleStep> = Vec::new();
        let mut i: usize = 0;
        while i < self.steps.len()
            invariant
                i <= self.steps.len(),
                steps@.len() == i,
                forall|j: int| #![auto] 0 <= j < i ==> steps@[j]@ == self.steps@[j]@,
            decreases self.steps.len() - i,
        {
            steps.push(self.steps[i].clone());
            i += 1;
        }
        proof {
            assert(steps@.map_values(|s: ModuleStep| s@) =~= self.steps@.map_values(
                |s: ModuleStep| s@,
            ));
        }
        ModuleConfig { name: self.name.clone(), steps }
    }
}

/// One step table as written in a definition file, before its kind is known:
/// every recognised field, each optional.
pub struct RawStep {
    pub name: Option<String>,
    pub tool: Option<String>,
    pub script: Option<String>,
    pub extract_zip_to: Option<String>,
    pub packages: Option<Vec<String>>,
}

/// Which fields give a step which kind, in precedence order: `tool` plus
/// `packages` make a tool step; otherwise `extract_zip_to` plus `packages`
/// make an archive step; otherwise `script` makes a script step. Every step
/// needs a `name`. Anything else matches no kind.
pub open spec fn classified_step(
    name: Option<Seq<char>>,
    tool: Option<Seq<char>>,
    script: Option<Seq<char>>,
    extract_zip_to: Option<Seq<char>>,
    packages: Option<Seq<Seq<char>>>,
) -> Option<ModuleStepV> {
    if name is Some && tool is Some && packages is Some {
        Some(
            ModuleStepV::Tool {
                name: name->0,
                tool: tool->0,
                packages: packages->0,
            },
        )
    } else if name is Some && extract_zip_to is Some && packages is Some {
        Some(
            ModuleStepV::Zip {
                name: name->0,
                extract_zip_to: extract_zip_to->0,
                packages: packages->0,
            },
        )
    } else if name is Some && script is Some {
        Some(ModuleStepV::Script { name: name->0, script: script->0 })
    } else {
        None
    }
}

/// Infers a step's kind from which fields its table carries. Returns `None`
/// when the fields match no step shape; the caller reports that as a
/// configuration parse failure.
pub fn classify_step(raw: RawStep) -> (r: Option<ModuleStep>)
    ensures
        match r {
            Some(step) => classified_step(
                raw.name.deep_view(),
                raw.tool.deep_view(),
                raw.script.deep_view(),
                raw.extract_zip_to.deep_view(),
                raw.packages.deep_view(),
            ) == Some(step@),
            None => classified_step(
                raw.name.deep_view(),
                raw.tool.deep_view(),
                raw.script.deep_view(),
                raw.extract_zip_to.deep_view(),
                raw.packages.deep_view(),
            ) is None,
        },
{
    let RawStep { name, tool, script, extract_zip_to, packages } = raw;
    match (name, tool, script, extract_zip_to, packages) {
        (Some(name), Some(tool), _, _, Some(packages)) => Some(
            ModuleStep::Tool { name, tool, packages },
        ),
        (Some(name), None, _, Some(extract_zip_to), Some(packages)) => Some(
            ModuleStep::Zip { name, extract_zip_to, packages },
        ),
        (Some(name), _, Some(script), _, _) => Some(ModuleStep::Script { name, script }),
        _ => None,
    }
}

} // verus!
