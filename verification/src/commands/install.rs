//! The installation engine: resolution of a selected profile's module-name
//! list into a flat, ordered sequence of concrete steps — every symbolic
//! reference validated before anything executes — and the planning and
//! fail-fast sequencing of the effects those steps ask for.

use vstd::prelude::*;
use crate::config::profiles::module_config::{ModuleConfig, ModuleConfigV, ModuleStep, ModuleStepV};
use crate::config::profiles::profiles_config::{ProfilesConfig, ProfilesConfigV};
use crate::config::profiles::tools_config::{ToolConfig, ToolConfigV};
use crate::errors::{InstallError, InstallErrorV};
use crate::registry::{assoc_get, lookup};
use crate::invocation::{
    Invocation,
    InvocationV,
    build_words,
    invocation_of_words,
    invocation_of_words_exec,
    template_words,
    words_with_packages,
};
use crate::text::{clone_strings, join_path, joined_path, split, split_chars, without_suffix};

verus! {

/// Command-line arguments of the installation command: the requested
/// profile, and an explicit root-configuration path.
pub struct InstallCommand {
    pub profile: Option<String>,
    pub profiles_path: Option<String>,
}

/// Spec-level mirror of [`ProfileModule`].
pub ghost enum ProfileModuleV {
    Tool { name: Seq<char>, config: ToolConfigV, packages: Seq<Seq<char>> },
    Script { name: Seq<char>, script: Seq<char> },
    Zip { name: Seq<char>, target_dir: Seq<char>, packages: Seq<Seq<char>> },
}

/// One fully resolved step: its symbolic tool reference, if it had one, has
/// been replaced by the tool's definition.
#[derive(Debug, PartialEq, Eq)]
pub enum ProfileModule {
    Tool { name: String, config: ToolConfig, packages: Vec<String> },
    Script { name: String, script: String },
    Zip { name: String, target_dir: String, packages: Vec<String> },
}

impl View for ProfileModule {
    type V = ProfileModuleV;

    open spec fn view(&self) -> ProfileModuleV {
        match self {
            ProfileModule::Tool { name, config, packages } => ProfileModuleV::Tool {
                name: name@,
                config: config@,
                packages: packages.deep_view(),
            },
            ProfileModule::Script { name, script } => ProfileModuleV::Script {
                name: name@,
                script: script@,
            },
            ProfileModule::Zip { name, target_dir, packages } => ProfileModuleV::Zip {
                name: name@,
                target_dir: target_dir@,
                packages: packages.deep_view(),
            },
        }
    }
}

/// The profile a run works on: the requested one when given, else the
/// configured default.
pub open spec fn selected_profile(cfg: ProfilesConfigV, requested: Option<Seq<char>>) -> Option<
    Seq<char>,
> {
    if requested is Some {
        requested
    } else {
        cfg.default_profile
    }
}

/// Resolution of a single step: a tool step's reference is looked up in the
/// tool registry; script and archive steps pass through unchanged.
pub open spec fn resolve_step(tools: Seq<(Seq<char>, ToolConfigV)>, step: ModuleStepV) -> Result<
    ProfileModuleV,
    InstallErrorV,
> {
    match step {
        ModuleStepV::Tool { name, tool, packages } => match lookup(tools, tool) {
            Some(config) => Ok(ProfileModuleV::Tool { name, config, packages }),
            None => Err(InstallErrorV::ToolNotFound { tool }),
        },
        ModuleStepV::Script { name, script } => Ok(ProfileModuleV::Script { name, script }),
        ModuleStepV::Zip { name, extract_zip_to, packages } => Ok(
            ProfileModuleV::Zip { name, target_dir: extract_zip_to, packages },
        ),
    }
}

/// Resolution of a step list, in order; the first failing step's error is
/// the result.
pub open spec fn resolve_steps(
    tools: Seq<(Seq<char>, ToolConfigV)>,
    steps: Seq<ModuleStepV>,
) -> Result<Seq<ProfileModuleV>, InstallErrorV>
    decreases steps.len(),
{
    if steps.len() == 0 {
        Ok(Seq::empty())
    } else {
        match resolve_step(tools, steps[0]) {
            Err(e) => Err(e),
            Ok(first) => match resolve_steps(tools, steps.drop_first()) {
                Ok(rest) => Ok(seq![first] + rest),
                Err(e) => Err(e),
            },
        }
    }
}

/// Looks every named module up, in order; the first undefined name is the
/// error.
pub open spec fn collect_modules(
    modules: Seq<(Seq<char>, ModuleConfigV)>,
    names: Seq<Seq<char>>,
) -> Result<Seq<ModuleConfigV>, InstallErrorV>
    decreases names.len(),
{
    if names.len() == 0 {
        Ok(Seq::empty())
    } else {
        match lookup(modules, names[0]) {
            None => Err(InstallErrorV::ModuleNotFound { module: names[0] }),
            Some(m) => match collect_modules(modules, names.drop_first()) {
                Ok(rest) => Ok(seq![m] + rest),
                Err(e) => Err(e),
            },
        }
    }
}

/// All steps of the given modules, flattened in module order with each
/// module's own step order kept.
pub open spec fn flatten_steps(mods: Seq<ModuleConfigV>) -> Seq<ModuleStepV>
    decreases mods.len(),
{
    if mods.len() == 0 {
        Seq::empty()
    } else {
        mods[0].steps + flatten_steps(mods.drop_first())
    }
}

/// What resolving a profile yields: the flat resolved step list, or the
/// first error — an unselected or unknown profile, an undefined module, or
/// an undefined tool.
pub open spec fn resolved_profile(cfg: ProfilesConfigV, requested: Option<Seq<char>>) -> Result<
    Seq<ProfileModuleV>,
    InstallErrorV,
> {
    match selected_profile(cfg, requested) {
        None => Err(InstallErrorV::ProfileNotSelected),
        Some(name) => match lookup(cfg.profiles, name) {
            None => Err(InstallErrorV::ProfileNotFound { profile: name }),
            Some(module_names) => match collect_modules(cfg.modules, module_names) {
                Err(e) => Err(e),
                Ok(mods) => resolve_steps(cfg.tools, flatten_steps(mods)),
            },
        },
    }
}

/// Step resolution distributes over concatenation: the first list's error
/// wins, then the second's.
pub proof fn lemma_resolve_steps_append(
    tools: Seq<(Seq<char>, ToolConfigV)>,
    s1: Seq<ModuleStepV>,
    s2: Seq<ModuleStepV>,
)
    ensures
        resolve_steps(tools, s1 + s2) == match resolve_steps(tools, s1) {
            Err(e) => Err::<Seq<ProfileModuleV>, InstallErrorV>(e),
            Ok(r1) => match resolve_steps(tools, s2) {
                Ok(r2) => Ok(r1 + r2),
                Err(e) => Err(e),
            },
        },
    decreases s1.len(),
{
    if s1.len() == 0 {
        assert(s1 + s2 =~= s2);
        if resolve_steps(tools, s2) is Ok {
            assert(resolve_steps(tools, s1)->Ok_0 + resolve_steps(tools, s2)->Ok_0 =~= resolve_steps(
                tools,
                s2,
            )->Ok_0);
        }
    } else {
        assert((s1 + s2)[0] == s1[0]);
        assert((s1 + s2).drop_first() =~= s1.drop_first() + s2);
        lemma_resolve_steps_append(tools, s1.drop_first(), s2);
        if resolve_step(tools, s1[0]) is Ok && resolve_steps(tools, s1.drop_first()) is Ok
            && resolve_steps(tools, s2) is Ok {
            let first = resolve_step(tools, s1[0])->Ok_0;
            let r1 = resolve_steps(tools, s1.drop_first())->Ok_0;
            let r2 = resolve_steps(tools, s2)->Ok_0;
            assert(seq![first] + (r1 + r2) =~= (seq![first] + r1) + r2);
        }
    }
}

/// Module collection distributes over concatenation of the name lists.
pub proof fn lemma_collect_modules_append(
    modules: Seq<(Seq<char>, ModuleConfigV)>,
    n1: Seq<Seq<char>>,
    n2: Seq<Seq<char>>,
)
    ensures
        collect_modules(modules, n1 + n2) == match collect_modules(modules, n1) {
            Err(e) => Err::<Seq<ModuleConfigV>, InstallErrorV>(e),
            Ok(r1) => match collect_modules(modules, n2) {
                Ok(r2) => Ok(r1 + r2),
                Err(e) => Err(e),
            },
        },
    decreases n1.len(),
{
    if n1.len() == 0 {
        assert(n1 + n2 =~= n2);
        if collect_modules(modules, n2) is Ok {
            assert(collect_modules(modules, n1)->Ok_0 + collect_modules(modules, n2)->Ok_0
                =~= collect_modules(modules, n2)->Ok_0);
        }
    } else {
        assert((n1 + n2)[0] == n1[0]);
        assert((n1 + n2).drop_first() =~= n1.drop_first() + n2);
        lemma_collect_modules_append(modules, n1.drop_first(), n2);
        if lookup(modules, n1[0]) is Some && collect_modules(modules, n1.drop_first()) is Ok
            && collect_modules(modules, n2) is Ok {
            let m = lookup(modules, n1[0])->0;
            let r1 = collect_modules(modules, n1.drop_first())->Ok_0;
            let r2 = collect_modules(modules, n2)->Ok_0;
            assert(seq![m] + (r1 + r2) =~= (seq![m] + r1) + r2);
        }
    }
}

/// Flattening distributes over concatenation of module lists.
pub proof fn lemma_flatten_steps_append(m1: Seq<ModuleConfigV>, m2: Seq<ModuleConfigV>)
    ensures
        flatten_steps(m1 + m2) == flatten_steps(m1) + flatten_steps(m2),
    decreases m1.len(),
{
    if m1.len() == 0 {
        assert(m1 + m2 =~= m2);
        assert(flatten_steps(m1) + flatten_steps(m2) =~= flatten_steps(m2));
    } else {
        assert((m1 + m2)[0] == m1[0]);
        assert((m1 + m2).drop_first() =~= m1.drop_first() + m2);
        lemma_flatten_steps_append(m1.drop_first(), m2);
        assert(m1[0].steps + (flatten_steps(m1.drop_first()) + flatten_steps(m2)) =~= (m1[0].steps
            + flatten_steps(m1.drop_first())) + flatten_steps(m2));
    }
}

/// The installation command's handler.
pub struct InstallCommandHandler {}

impl InstallCommandHandler {
    pub fn create() -> (r: Self) {
        Self {  }
    }

    /// Resolves the selected profile into its flat, ordered step list.
    ///
    /// Resolution is total and eager: every module and tool reference is
    /// validated here, before any step is executed, so an invalid reference
    /// anywhere aborts the run before any side effect.
    pub fn resolve_profile(self, config: &ProfilesConfig, requested: &Option<String>) -> (r: Result<
        Vec<ProfileModule>,
        InstallError,
    >)
        ensures
            match r {
                Ok(steps) => resolved_profile(config@, requested.deep_view()) == Ok::<
                    _,
                    InstallErrorV,
                >(steps@.map_values(|m: ProfileModule| m@)),
                Err(e) => resolved_profile(config@, requested.deep_view()) == Err::<
                    Seq<ProfileModuleV>,
                    InstallErrorV,
                >(e@),
            },
    {
        let name: &String = match requested {
            Some(n) => n,
            None => match &config.default_profile {
                Some(n) => n,
                None => {
                    return Err(InstallError::ProfileNotSelected);
                },
            },
        };
        assert(selected_profile(config@, requested.deep_view()) == Some(name@));

        let module_names: &Vec<String> = match assoc_get(&config.profiles, name) {
            Some(names) => names,
            None => {
                return Err(InstallError::ProfileNotFound { profile: name.clone() });
            },
        };
        let ghost names_v: Seq<Seq<char>> = module_names.deep_view();
        assert(lookup(config@.profiles, name@) == Some(names_v));

        // First pass: look every referenced module up, in order.
        let mut mods: Vec<ModuleConfig> = Vec::new();
        proof {
            assert(names_v.take(0) =~= Seq::<Seq<char>>::empty());
            assert(mods@.map_values(|m: ModuleConfig| m@) =~= Seq::<ModuleConfigV>::empty());
        }
        let mut i: usize = 0;
        while i < module_names.len()
            invariant
                i <= module_names@.len(),
                names_v == module_names.deep_view(),
                selected_profile(config@, requested.deep_view()) == Some(name@),
                lookup(config@.profiles, name@) == Some(names_v),
                collect_modules(config@.modules, names_v.take(i as int)) == Ok::<
                    _,
                    InstallErrorV,
                >(mods@.map_values(|m: ModuleConfig| m@)),
            decreases module_names@.len() - i,
        {
            let ghost mods_v = mods@.map_values(|m: ModuleConfig| m@);
            match assoc_get(&config.modules, &module_names[i]) {
                None => {
                    proof {
                        assert(names_v =~= names_v.take(i as int) + names_v.skip(i as int));
                        lemma_collect_modules_append(
                            config@.modules,
                            names_v.take(i as int),
                            names_v.skip(i as int),
                        );
                        assert(names_v.skip(i as int)[0] == names_v[i as int]);
                    }
                    return Err(InstallError::ModuleNotFound { module: module_names[i].clone() });
                },
                Some(m) => {
                    mods.push(m.clone());
                    proof {
                        assert(names_v.take(i + 1) =~= names_v.take(i as int) + seq![
                            names_v[i as int],
                        ]);
                        lemma_collect_modules_append(
                            config@.modules,
                            names_v.take(i as int),
                            seq![names_v[i as int]],
                        );
                        assert(seq![names_v[i as int]].drop_first() =~= Seq::<Seq<char>>::empty());
                        assert(collect_modules(config@.modules, Seq::<Seq<char>>::empty()) == Ok::<
                            _,
                            InstallErrorV,
                        >(Seq::<ModuleConfigV>::empty()));
                        assert(seq![m.deep_view()] + Seq::<ModuleConfigV>::empty() =~= seq![
                            m.deep_view(),
                        ]);
                        assert(collect_modules(config@.modules, seq![names_v[i as int]]) == Ok::<
                            _,
                            InstallErrorV,
                        >(seq![m.deep_view()]));
                        assert(mods@.map_values(|m: ModuleConfig| m@) =~= mods_v + seq![
                            m.deep_view(),
                        ]);
                    }
                },
            }
            i += 1;
        }
        proof {
            assert(names_v.take(names_v.len() as int) =~= names_v);
        }
        let ghost all_mods_v = mods@.map_values(|m: ModuleConfig| m@);

        // Second pass: flatten the modules' steps and substitute each tool
        // reference with its definition.
        let mut resolved: Vec<ProfileModule> = Vec::new();
        proof {
            assert(all_mods_v.take(0) =~= Seq::<ModuleConfigV>::empty());
            assert(resolved@.map_values(|m: ProfileModule| m@) =~= Seq::<ProfileModuleV>::empty());
        }
        let mut k: usize = 0;
        while k < mods.len()
            invariant
                k <= mods@.len(),
                all_mods_v == mods@.map_values(|m: ModuleConfig| m@),
                collect_modules(config@.modules, names_v) == Ok::<_, InstallErrorV>(all_mods_v),
                selected_profile(config@, requested.deep_view()) == Some(name@),
                lookup(config@.profiles, name@) == Some(names_v),
                resolve_steps(config@.tools, flatten_steps(all_mods_v.take(k as int))) == Ok::<
                    _,
                    InstallErrorV,
                >(resolved@.map_values(|m: ProfileModule| m@)),
            decreases mods@.len() - k,
        {
            let module: &ModuleConfig = &mods[k];
            let ghost module_steps = module@.steps;
            let ghost prefix = flatten_steps(all_mods_v.take(k as int));
            let mut j: usize = 0;
            while j < module.steps.len()
                invariant
                    j <= module_steps.len(),
                    module_steps == module@.steps,
                    module == &mods@[k as int],
                    k < mods@.len(),
                    all_mods_v == mods@.map_values(|m: ModuleConfig| m@),
                    collect_modules(config@.modules, names_v) == Ok::<_, InstallErrorV>(all_mods_v),
                    selected_profile(config@, requested.deep_view()) == Some(name@),
                    lookup(config@.profiles, name@) == Some(names_v),
                    prefix == flatten_steps(all_mods_v.take(k as int)),
                    resolve_steps(config@.tools, prefix + module_steps.take(j as int)) == Ok::<
                        _,
                        InstallErrorV,
                    >(resolved@.map_values(|m: ProfileModule| m@)),
                decreases module_steps.len() - j,
            {
                let ghost resolved_v = resolved@.map_values(|m: ProfileModule| m@);
                let ghost done = prefix + module_steps.take(j as int);
                let step: &ModuleStep = &module.steps[j];
                assert(step@ == module_steps[j as int]);
                let new_step: ProfileModule = match step {
                    ModuleStep::Tool { name: step_name, tool, packages } => {
                        match assoc_get(&config.tools, tool) {
                            None => {
                                proof {
                                    lemma_resolve_steps_fails_at(
                                        config@.tools,
                                        all_mods_v,
                                        k as int,
                                        j as int,
                                        InstallErrorV::ToolNotFound { tool: tool@ },
                                    );
                                }
                                return Err(InstallError::ToolNotFound { tool: tool.clone() });
                            },
                            Some(tc) => ProfileModule::Tool {
                                name: step_name.clone(),
                                config: tc.clone(),
                                packages: clone_strings(packages),
                            },
                        }
                    },
                    ModuleStep::Script { name: step_name, script } => ProfileModule::Script {
                        name: step_name.clone(),
                        script: script.clone(),
                    },
                    ModuleStep::Zip { name: step_name, extract_zip_to, packages } => {
                        ProfileModule::Zip {
                            name: step_name.clone(),
                            target_dir: extract_zip_to.clone(),
                            packages: clone_strings(packages),
                        }
                    },
                };
                let ghost new_v = new_step@;
                proof {
                    assert(resolve_step(config@.tools, module_steps[j as int]) == Ok::<
                        ProfileModuleV,
                        InstallErrorV,
                    >(new_v));
                }
                resolved.push(new_step);
                proof {
                    lemma_resolve_steps_snoc(config@.tools, done, module_steps[j as int]);
                    assert(prefix + module_steps.take(j + 1) =~= done.push(
                        module_steps[j as int],
                    ));
                    assert(resolved@.map_values(|m: ProfileModule| m@) =~= resolved_v.push(new_v));
                }
                j += 1;
            }
            proof {
                assert(module_steps.take(module_steps.len() as int) =~= module_steps);
                assert(all_mods_v.take(k + 1) =~= all_mods_v.take(k as int) + seq![
                    all_mods_v[k as int],
                ]);
                lemma_flatten_steps_append(all_mods_v.take(k as int), seq![all_mods_v[k as int]]);
                assert(seq![all_mods_v[k as int]].drop_first() =~= Seq::<ModuleConfigV>::empty());
                assert(flatten_steps(Seq::<ModuleConfigV>::empty()) =~= Seq::<ModuleStepV>::empty());
                assert(flatten_steps(seq![all_mods_v[k as int]]) =~= all_mods_v[k as int].steps);
                assert(prefix + module_steps =~= flatten_steps(all_mods_v.take(k + 1)));
            }
            k += 1;
        }
        proof {
            assert(all_mods_v.take(all_mods_v.len() as int) =~= all_mods_v);
        }
        Ok(resolved)
    }
}

/// Resolving one more step extends a resolution: the step's result is
/// appended, or its error becomes the whole result.
pub proof fn lemma_resolve_steps_snoc(
    tools: Seq<(Seq<char>, ToolConfigV)>,
    done: Seq<ModuleStepV>,
    step: ModuleStepV,
)
    ensures
        resolve_steps(tools, done.push(step)) == match resolve_steps(tools, done) {
            Err(e) => Err::<Seq<ProfileModuleV>, InstallErrorV>(e),
            Ok(r) => match resolve_step(tools, step) {
                Ok(x) => Ok(r.push(x)),
                Err(e) => Err(e),
            },
        },
{
    assert(done.push(step) =~= done + seq![step]);
    lemma_resolve_steps_append(tools, done, seq![step]);
    assert(seq![step].drop_first() =~= Seq::<ModuleStepV>::empty());
    if resolve_step(tools, step) is Ok {
        let x = resolve_step(tools, step)->Ok_0;
        assert(resolve_steps(tools, Seq::<ModuleStepV>::empty()) == Ok::<_, InstallErrorV>(
            Seq::<ProfileModuleV>::empty(),
        ));
        assert(seq![x] + Seq::<ProfileModuleV>::empty() =~= seq![x]);
        assert(resolve_steps(tools, seq![step]) == Ok::<_, InstallErrorV>(seq![x]));
        if resolve_steps(tools, done) is Ok {
            let r = resolve_steps(tools, done)->Ok_0;
            assert(r + seq![x] =~= r.push(x));
        }
    }
}

/// For any profile referencing modules `[a, b]`, the resolved step list is
/// module `a`'s resolved steps followed by module `b`'s, in exactly that
/// order.
pub proof fn lemma_profile_of_two_modules(
    cfg: ProfilesConfigV,
    requested: Option<Seq<char>>,
    name: Seq<char>,
    a: Seq<char>,
    b: Seq<char>,
    ma: ModuleConfigV,
    mb: ModuleConfigV,
    ra: Seq<ProfileModuleV>,
    rb: Seq<ProfileModuleV>,
)
    requires
        selected_profile(cfg, requested) == Some(name),
        lookup(cfg.profiles, name) == Some(seq![a, b]),
        lookup(cfg.modules, a) == Some(ma),
        lookup(cfg.modules, b) == Some(mb),
        resolve_steps(cfg.tools, ma.steps) == Ok::<_, InstallErrorV>(ra),
        resolve_steps(cfg.tools, mb.steps) == Ok::<_, InstallErrorV>(rb),
    ensures
        resolved_profile(cfg, requested) == Ok::<_, InstallErrorV>(ra + rb),
{
    let names = seq![a, b];
    assert(names.drop_first() =~= seq![b]);
    assert(seq![b].drop_first() =~= Seq::<Seq<char>>::empty());
    assert(collect_modules(cfg.modules, Seq::<Seq<char>>::empty()) == Ok::<_, InstallErrorV>(
        Seq::<ModuleConfigV>::empty(),
    ));
    assert(seq![mb] + Seq::<ModuleConfigV>::empty() =~= seq![mb]);
    assert(collect_modules(cfg.modules, seq![b]) == Ok::<_, InstallErrorV>(seq![mb]));
    assert(seq![ma] + seq![mb] =~= seq![ma, mb]);
    assert(collect_modules(cfg.modules, names) == Ok::<_, InstallErrorV>(seq![ma, mb]));

    assert(seq![ma, mb].drop_first() =~= seq![mb]);
    assert(seq![mb].drop_first() =~= Seq::<ModuleConfigV>::empty());
    assert(flatten_steps(Seq::<ModuleConfigV>::empty()) =~= Seq::<ModuleStepV>::empty());
    assert(flatten_steps(seq![mb]) =~= mb.steps);
    assert(flatten_steps(seq![ma, mb]) =~= ma.steps + mb.steps);
    lemma_resolve_steps_append(cfg.tools, ma.steps, mb.steps);
}

/// When every module name before position `i` is defined, collecting the
/// first `i` modules succeeds.
proof fn lemma_collect_prefix_ok(
    modules: Seq<(Seq<char>, ModuleConfigV)>,
    names: Seq<Seq<char>>,
    i: int,
)
    requires
        0 <= i <= names.len(),
        forall|j: int| 0 <= j < i ==> lookup(modules, #[trigger] names[j]) is Some,
    ensures
        collect_modules(modules, names.take(i)) is Ok,
    decreases i,
{
    if i == 0 {
        assert(names.take(0) =~= Seq::<Seq<char>>::empty());
    } else {
        lemma_collect_prefix_ok(modules, names, i - 1);
        assert(names.take(i) =~= names.take(i - 1) + seq![names[i - 1]]);
        lemma_collect_modules_append(modules, names.take(i - 1), seq![names[i - 1]]);
        assert(seq![names[i - 1]].drop_first() =~= Seq::<Seq<char>>::empty());
        assert(collect_modules(modules, Seq::<Seq<char>>::empty()) == Ok::<_, InstallErrorV>(
            Seq::<ModuleConfigV>::empty(),
        ));
        assert(lookup(modules, names[i - 1]) is Some);
        assert(collect_modules(modules, seq![names[i - 1]]) is Ok);
    }
}

/// Resolving a profile whose module list contains an undefined module name
/// fails with `ModuleNotFound`, naming the first such module. No resolved
/// step list exists, so no execution can begin.
pub proof fn lemma_undefined_module_fails(
    cfg: ProfilesConfigV,
    requested: Option<Seq<char>>,
    name: Seq<char>,
    names: Seq<Seq<char>>,
    i: int,
)
    requires
        selected_profile(cfg, requested) == Some(name),
        lookup(cfg.profiles, name) == Some(names),
        0 <= i < names.len(),
        lookup(cfg.modules, names[i]) is None,
        forall|j: int| 0 <= j < i ==> lookup(cfg.modules, #[trigger] names[j]) is Some,
    ensures
        resolved_profile(cfg, requested) == Err::<Seq<ProfileModuleV>, InstallErrorV>(
            InstallErrorV::ModuleNotFound { module: names[i] },
        ),
{
    lemma_collect_prefix_ok(cfg.modules, names, i);
    assert(names =~= names.take(i) + names.skip(i));
    lemma_collect_modules_append(cfg.modules, names.take(i), names.skip(i));
    assert(names.skip(i)[0] == names[i]);
}

/// When every step before position `i` resolves, resolving the first `i`
/// steps succeeds.
proof fn lemma_resolve_prefix_ok(
    tools: Seq<(Seq<char>, ToolConfigV)>,
    steps: Seq<ModuleStepV>,
    i: int,
)
    requires
        0 <= i <= steps.len(),
        forall|j: int| 0 <= j < i ==> resolve_step(tools, #[trigger] steps[j]) is Ok,
    ensures
        resolve_steps(tools, steps.take(i)) is Ok,
    decreases i,
{
    if i == 0 {
        assert(steps.take(0) =~= Seq::<ModuleStepV>::empty());
    } else {
        lemma_resolve_prefix_ok(tools, steps, i - 1);
        assert(steps.take(i) =~= steps.take(i - 1).push(steps[i - 1]));
        lemma_resolve_steps_snoc(tools, steps.take(i - 1), steps[i - 1]);
        assert(resolve_step(tools, steps[i - 1]) is Ok);
    }
}

/// A tool step referencing an undefined tool makes resolution fail with
/// `ToolNotFound` — during resolution itself, before any step could run.
/// `i` is the position of the first failing step in the flattened list.
pub proof fn lemma_undefined_tool_fails(
    cfg: ProfilesConfigV,
    requested: Option<Seq<char>>,
    name: Seq<char>,
    names: Seq<Seq<char>>,
    mods: Seq<ModuleConfigV>,
    steps: Seq<ModuleStepV>,
    i: int,
    tool: Seq<char>,
)
    requires
        selected_profile(cfg, requested) == Some(name),
        lookup(cfg.profiles, name) == Some(names),
        collect_modules(cfg.modules, names) == Ok::<_, InstallErrorV>(mods),
        steps == flatten_steps(mods),
        0 <= i < steps.len(),
        steps[i] matches ModuleStepV::Tool { tool: t, .. } && t == tool,
        lookup(cfg.tools, tool) is None,
        forall|j: int| 0 <= j < i ==> resolve_step(cfg.tools, #[trigger] steps[j]) is Ok,
    ensures
        resolved_profile(cfg, requested) == Err::<Seq<ProfileModuleV>, InstallErrorV>(
            InstallErrorV::ToolNotFound { tool },
        ),
{
    lemma_resolve_prefix_ok(cfg.tools, steps, i);
    assert(steps =~= steps.take(i) + steps.skip(i));
    lemma_resolve_steps_append(cfg.tools, steps.take(i), steps.skip(i));
    assert(steps.skip(i)[0] == steps[i]);
}

/// When every step before position `(k, j)` resolves and the step there
/// does not, the whole flattened list fails with that step's error.
proof fn lemma_resolve_steps_fails_at(
    tools: Seq<(Seq<char>, ToolConfigV)>,
    all_mods: Seq<ModuleConfigV>,
    k: int,
    j: int,
    e: InstallErrorV,
)
    requires
        0 <= k < all_mods.len(),
        0 <= j < all_mods[k].steps.len(),
        resolve_steps(tools, flatten_steps(all_mods.take(k)) + all_mods[k].steps.take(j)) is Ok,
        resolve_step(tools, all_mods[k].steps[j]) == Err::<ProfileModuleV, InstallErrorV>(e),
    ensures
        resolve_steps(tools, flatten_steps(all_mods)) == Err::<Seq<ProfileModuleV>, InstallErrorV>(
            e,
        ),
{
    let steps_k = all_mods[k].steps;
    let done = flatten_steps(all_mods.take(k)) + steps_k.take(j);
    let tail = steps_k.skip(j) + flatten_steps(all_mods.skip(k + 1));

    assert(all_mods =~= all_mods.take(k + 1) + all_mods.skip(k + 1));
    lemma_flatten_steps_append(all_mods.take(k + 1), all_mods.skip(k + 1));
    assert(all_mods.take(k + 1) =~= all_mods.take(k) + seq![all_mods[k]]);
    lemma_flatten_steps_append(all_mods.take(k), seq![all_mods[k]]);
    assert(seq![all_mods[k]].drop_first() =~= Seq::<ModuleConfigV>::empty());
    assert(flatten_steps(Seq::<ModuleConfigV>::empty()) =~= Seq::<ModuleStepV>::empty());
    assert(flatten_steps(seq![all_mods[k]]) =~= steps_k);
    assert(steps_k =~= steps_k.take(j) + steps_k.skip(j));
    assert(flatten_steps(all_mods) =~= done + tail);

    lemma_resolve_steps_append(tools, done, tail);
    assert(tail[0] == steps_k[j]);
    assert(resolve_steps(tools, tail) == Err::<Seq<ProfileModuleV>, InstallErrorV>(e));
}

impl DeepView for ProfileModule {
    type V = ProfileModuleV;

    open spec fn deep_view(&self) -> ProfileModuleV {
        self@
    }
}

/// Spec-level mirror of [`Action`].
pub ghost enum ActionV {
    Run { invocation: InvocationV },
    Fetch { url: Seq<char>, dest: Seq<char> },
}

/// One concrete effect a step asks the surrounding program to perform:
/// spawn a process, or download an archive and extract it into a directory.
#[derive(Debug, PartialEq, Eq)]
pub enum Action {
    Run { invocation: Invocation },
    Fetch { url: String, dest: String },
}

impl View for Action {
    type V = ActionV;

    open spec fn view(&self) -> ActionV {
        match self {
            Action::Run { invocation } => ActionV::Run { invocation: invocation@ },
            Action::Fetch { url, dest } => ActionV::Fetch { url: url@, dest: dest@ },
        }
    }
}

impl DeepView for Action {
    type V = ActionV;

    open spec fn deep_view(&self) -> ActionV {
        self@
    }
}

/// The final path segment of an archive URL with a trailing `.zip` removed:
/// the name of the directory the archive is extracted into.
pub open spec fn package_name(url: Seq<char>) -> Seq<char> {
    without_suffix(split_chars(url, '/').last(), ".zip"@)
}

/// A package URL is usable when its final path segment is not empty.
pub open spec fn valid_package_url(url: Seq<char>) -> bool {
    split_chars(url, '/').last().len() > 0
}

/// The invocations a tool step issues: a batching tool is invoked once with
/// every package; a non-batching tool once per package, in package order.
pub open spec fn tool_invocations(tool: ToolConfigV, packages: Seq<Seq<char>>) -> Seq<
    InvocationV,
> {
    let words = template_words(tool.cmd);
    if tool.batching {
        seq![invocation_of_words(words_with_packages(words, packages))]
    } else {
        packages.map_values(
            |p: Seq<char>| invocation_of_words(words_with_packages(words, seq![p])),
        )
    }
}

/// The single invocation a script step issues: the script handed to the
/// shell as one command line.
pub open spec fn script_invocation(script: Seq<char>) -> InvocationV {
    InvocationV { program: "sh"@, args: seq!["-c"@, script] }
}

/// The fetch-and-extract actions of an archive step, one per URL in order;
/// a URL without a final path segment stops the step with
/// `InvalidPackageUrl`.
pub open spec fn zip_actions(target_dir: Seq<char>, urls: Seq<Seq<char>>) -> Result<
    Seq<ActionV>,
    InstallErrorV,
>
    decreases urls.len(),
{
    if urls.len() == 0 {
        Ok(Seq::empty())
    } else if !valid_package_url(urls[0]) {
        Err(InstallErrorV::InvalidPackageUrl { url: urls[0] })
    } else {
        match zip_actions(target_dir, urls.drop_first()) {
            Ok(rest) => Ok(
                seq![
                    ActionV::Fetch {
                        url: urls[0],
                        dest: joined_path(target_dir, package_name(urls[0])),
                    },
                ] + rest,
            ),
            Err(e) => Err(e),
        }
    }
}

/// Archive planning distributes over concatenation of the URL lists.
pub proof fn lemma_zip_actions_append(
    target_dir: Seq<char>,
    u1: Seq<Seq<char>>,
    u2: Seq<Seq<char>>,
)
    ensures
        zip_actions(target_dir, u1 + u2) == match zip_actions(target_dir, u1) {
            Err(e) => Err::<Seq<ActionV>, InstallErrorV>(e),
            Ok(r1) => match zip_actions(target_dir, u2) {
                Ok(r2) => Ok(r1 + r2),
                Err(e) => Err(e),
            },
        },
    decreases u1.len(),
{
    if u1.len() == 0 {
        assert(u1 + u2 =~= u2);
        if zip_actions(target_dir, u2) is Ok {
            assert(zip_actions(target_dir, u1)->Ok_0 + zip_actions(target_dir, u2)->Ok_0
                =~= zip_actions(target_dir, u2)->Ok_0);
        }
    } else {
        assert((u1 + u2)[0] == u1[0]);
        assert((u1 + u2).drop_first() =~= u1.drop_first() + u2);
        lemma_zip_actions_append(target_dir, u1.drop_first(), u2);
        if valid_package_url(u1[0]) && zip_actions(target_dir, u1.drop_first()) is Ok
            && zip_actions(target_dir, u2) is Ok {
            let a = ActionV::Fetch {
                url: u1[0],
                dest: joined_path(target_dir, package_name(u1[0])),
            };
            let r1 = zip_actions(target_dir, u1.drop_first())->Ok_0;
            let r2 = zip_actions(target_dir, u2)->Ok_0;
            assert(seq![a] + (r1 + r2) =~= (seq![a] + r1) + r2);
        }
    }
}

/// The actions a resolved step asks the surrounding program to perform, or
/// the error that stops its planning.
pub open spec fn step_actions(step: ProfileModuleV) -> Result<Seq<ActionV>, InstallErrorV> {
    match step {
        ProfileModuleV::Tool { name, config, packages } => Ok(
            tool_invocations(config, packages).map_values(
                |i: InvocationV| ActionV::Run { invocation: i },
            ),
        ),
        ProfileModuleV::Script { name, script } => Ok(
            seq![ActionV::Run { invocation: script_invocation(script) }],
        ),
        ProfileModuleV::Zip { name, target_dir, packages } => zip_actions(target_dir, packages),
    }
}

impl ProfileModule {
    /// The step's display name, for progress reporting.
    pub fn step_name(&self) -> (r: &String)
        ensures
            r@ == match self@ {
                ProfileModuleV::Tool { name, .. } => name,
                ProfileModuleV::Script { name, .. } => name,
                ProfileModuleV::Zip { name, .. } => name,
            },
    {
        match self {
            ProfileModule::Tool { name, .. } => name,
            ProfileModule::Script { name, .. } => name,
            ProfileModule::Zip { name, .. } => name,
        }
    }

    /// The concrete actions this step asks the surrounding program to
    /// perform, in order.
    pub fn execute(&self) -> (r: Result<Vec<Action>, InstallError>)
        ensures
            match r {
                Ok(actions) => step_actions(self@) == Ok::<_, InstallErrorV>(actions.deep_view()),
                Err(e) => step_actions(self@) == Err::<Seq<ActionV>, InstallErrorV>(e@),
            },
    {
        match self {
            ProfileModule::Tool { name: _, config, packages } => {
                let invocations = Self::execute_tool(config, packages);
                let ghost invs_v = invocations.deep_view();
                let mut actions: Vec<Action> = Vec::new();
                let mut i: usize = 0;
                while i < invocations.len()
                    invariant
                        i <= invocations@.len(),
                        invs_v == invocations.deep_view(),
                        actions@.len() == i,
                        forall|j: int| #![auto] 0 <= j < i ==> actions@[j]@ == (ActionV::Run {
                            invocation: invs_v[j],
                        }),
                    decreases invocations@.len() - i,
                {
                    actions.push(Action::Run { invocation: invocations[i].clone() });
                    i += 1;
                }
                proof {
                    assert(actions.deep_view() =~= invs_v.map_values(
                        |inv: InvocationV| ActionV::Run { invocation: inv },
                    ));
                }
                Ok(actions)
            },
            ProfileModule::Script { name: _, script } => Ok(Self::execute_script(script)),
            ProfileModule::Zip { name: _, target_dir, packages } => {
                Self::execute_zip(target_dir, packages)
            },
        }
    }

    /// The invocations a tool step issues. A batching tool gets one
    /// invocation carrying every package; a non-batching tool one
    /// invocation per package, in package-list order.
    pub fn execute_tool(tool: &ToolConfig, packages: &Vec<String>) -> (r: Vec<Invocation>)
        ensures
            r.deep_view() == tool_invocations(tool@, packages.deep_view()),
    {
        let words = split(tool.cmd.as_str(), ' ');
        let ghost words_v = template_words(tool@.cmd);
        if tool.batching {
            let invocation = invocation_of_words_exec(build_words(&words, packages));
            let mut r: Vec<Invocation> = Vec::new();
            r.push(invocation);
            proof {
                assert(r.deep_view() =~= tool_invocations(tool@, packages.deep_view()));
            }
            r
        } else {
            let ghost packages_v = packages.deep_view();
            let mut r: Vec<Invocation> = Vec::new();
            let mut i: usize = 0;
            while i < packages.len()
                invariant
                    i <= packages@.len(),
                    packages_v == packages.deep_view(),
                    words_v == words.deep_view(),
                    r@.len() == i,
                    forall|j: int| #![auto] 0 <= j < i ==> r@[j]@ == invocation_of_words(
                        words_with_packages(words_v, seq![packages_v[j]]),
                    ),
                decreases packages@.len() - i,
            {
                let mut single: Vec<String> = Vec::new();
                single.push(packages[i].clone());
                proof {
                    assert(single.deep_view() =~= seq![packages_v[i as int]]);
                }
                let invocation = invocation_of_words_exec(build_words(&words, &single));
                r.push(invocation);
                i += 1;
            }
            proof {
                assert(r.deep_view() =~= tool_invocations(tool@, packages_v));
            }
            r
        }
    }

    /// The single invocation a script step issues: `sh -c <script>`.
    pub fn execute_script(script: &String) -> (r: Vec<Action>)
        ensures
            r.deep_view() == seq![ActionV::Run { invocation: script_invocation(script@) }],
    {
        let mut args: Vec<String> = Vec::new();
        args.push("-c".to_owned());
        args.push(script.clone());
        proof {
            assert(args.deep_view() =~= seq!["-c"@, script@]);
        }
        let invocation = Invocation { program: "sh".to_owned(), args };
        let mut r: Vec<Action> = Vec::new();
        r.push(Action::Run { invocation });
        proof {
            assert(r.deep_view() =~= seq![ActionV::Run { invocation: script_invocation(script@) }]);
        }
        r
    }

    /// The fetch-and-extract actions of an archive step: one download and
    /// extraction per URL, each into `target_dir` under the URL's derived
    /// package name. Every URL is validated before any action is handed out.
    pub fn execute_zip(target_dir: &String, packages: &Vec<String>) -> (r: Result<
        Vec<Action>,
        InstallError,
    >)
        ensures
            match r {
                Ok(actions) => zip_actions(target_dir@, packages.deep_view()) == Ok::<
                    _,
                    InstallErrorV,
                >(actions.deep_view()),
                Err(e) => zip_actions(target_dir@, packages.deep_view()) == Err::<
                    Seq<ActionV>,
                    InstallErrorV,
                >(e@),
            },
    {
        let ghost packages_v = packages.deep_view();
        let mut actions: Vec<Action> = Vec::new();
        proof {
            assert(packages_v.take(0) =~= Seq::<Seq<char>>::empty());
            assert(actions.deep_view() =~= Seq::<ActionV>::empty());
        }
        let mut i: usize = 0;
        while i < packages.len()
            invariant
                i <= packages@.len(),
                packages_v == packages.deep_view(),
                zip_actions(target_dir@, packages_v.take(i as int)) == Ok::<_, InstallErrorV>(
                    actions.deep_view(),
                ),
            decreases packages@.len() - i,
        {
            let ghost done = actions.deep_view();
            proof {
                assert(packages_v.take(i + 1) =~= packages_v.take(i as int) + seq![
                    packages_v[i as int],
                ]);
                lemma_zip_actions_append(
                    target_dir@,
                    packages_v.take(i as int),
                    seq![packages_v[i as int]],
                );
                assert(seq![packages_v[i as int]].drop_first() =~= Seq::<Seq<char>>::empty());
                assert(zip_actions(target_dir@, Seq::<Seq<char>>::empty()) == Ok::<
                    _,
                    InstallErrorV,
                >(Seq::<ActionV>::empty()));
            }
            let url = &packages[i];
            match Self::package_name_from_path(url.as_str()) {
                Err(e) => {
                    proof {
                        assert(packages_v =~= packages_v.take(i + 1) + packages_v.skip(i + 1));
                        lemma_zip_actions_append(
                            target_dir@,
                            packages_v.take(i + 1),
                            packages_v.skip(i + 1),
                        );
                    }
                    return Err(e);
                },
                Ok(name) => {
                    let dest = join_path(target_dir.as_str(), name.as_str());
                    actions.push(Action::Fetch { url: url.clone(), dest });
                    proof {
                        let a = ActionV::Fetch {
                            url: packages_v[i as int],
                            dest: joined_path(target_dir@, package_name(packages_v[i as int])),
                        };
                        assert(seq![a] + Seq::<ActionV>::empty() =~= seq![a]);
                        assert(actions.deep_view() =~= done + seq![a]);
                    }
                },
            }
            i += 1;
        }
        proof {
            assert(packages_v.take(packages_v.len() as int) =~= packages_v);
        }
        Ok(actions)
    }

    /// The directory name derived from an archive URL: its final path
    /// segment, with a trailing `.zip` removed. A URL whose final segment
    /// is empty is rejected as `InvalidPackageUrl`.
    pub fn package_name_from_path(url: &str) -> (r: Result<String, InstallError>)
        ensures
            match r {
                Ok(name) => valid_package_url(url@) && name@ == package_name(url@),
                Err(e) => !valid_package_url(url@) && e@ == (InstallErrorV::InvalidPackageUrl {
                    url: url@,
                }),
            },
    {
        let parts = split(url, '/');
        let last = &parts[parts.len() - 1];
        proof {
            assert(last@ == split_chars(url@, '/').last());
        }
        if last.as_str().unicode_len() == 0 {
            Err(InstallError::InvalidPackageUrl { url: url.to_owned() })
        } else {
            Ok(crate::text::strip_suffix(last.as_str(), ".zip"))
        }
    }
}

/// Spec model of a fail-fast run: the resolved steps, how many have been
/// completed, and whether one has failed.
pub ghost struct ExecutionV {
    pub steps: Seq<ProfileModuleV>,
    pub position: int,
    pub failed: bool,
}

/// A fresh run over `steps`: nothing done, nothing failed.
pub open spec fn initial_execution(steps: Seq<ProfileModuleV>) -> ExecutionV {
    ExecutionV { steps, position: 0, failed: false }
}

/// The step a run hands out next: none once every step is done or one has
/// failed.
pub open spec fn current_step(e: ExecutionV) -> Option<ProfileModuleV> {
    if !e.failed && 0 <= e.position < e.steps.len() {
        Some(e.steps[e.position])
    } else {
        None
    }
}

/// One recorded outcome: success moves past the current step, failure stops
/// the run for good. A run with no current step does not change.
pub open spec fn recorded(e: ExecutionV, success: bool) -> ExecutionV {
    if current_step(e) is None {
        e
    } else if success {
        ExecutionV { position: e.position + 1, ..e }
    } else {
        ExecutionV { failed: true, ..e }
    }
}

/// A run driven on by a list of outcomes, in order.
pub open spec fn run_outcomes(e: ExecutionV, outcomes: Seq<bool>) -> ExecutionV
    decreases outcomes.len(),
{
    if outcomes.len() == 0 {
        e
    } else {
        run_outcomes(recorded(e, outcomes[0]), outcomes.drop_first())
    }
}

/// `n` successful outcomes.
pub open spec fn successes(n: int) -> Seq<bool> {
    Seq::new(n as nat, |j: int| true)
}

/// Recording `n` successes moves a live run `n` steps forward.
proof fn lemma_successes_advance(e: ExecutionV, n: int)
    requires
        !e.failed,
        0 <= e.position,
        0 <= n,
        e.position + n <= e.steps.len(),
    ensures
        run_outcomes(e, successes(n)) == (ExecutionV { position: e.position + n, ..e }),
    decreases n,
{
    if n == 0 {
        assert(run_outcomes(e, successes(0)) == e);
        assert(e == (ExecutionV { position: e.position, ..e }));
    } else {
        let stepped = recorded(e, true);
        assert(successes(n)[0] == true);
        assert(successes(n).drop_first() =~= successes(n - 1));
        lemma_successes_advance(stepped, n - 1);
    }
}

/// A failed run never changes again, whatever outcomes follow.
pub proof fn lemma_failure_is_final(e: ExecutionV, later: Seq<bool>)
    requires
        e.failed,
    ensures
        run_outcomes(e, later) == e,
    decreases later.len(),
{
    if later.len() != 0 {
        lemma_failure_is_final(e, later.drop_first());
    }
}

/// Fail-fast: drive a fresh run with `i` successes and then one failure.
/// The failing step was the run's step `i`; afterwards no step — in
/// particular none after the failing one — is ever handed out again,
/// however the run is driven on; and the run still records exactly the
/// first `i` steps as completed, so what they applied stays applied.
pub proof fn lemma_fail_fast(steps: Seq<ProfileModuleV>, i: int, later: Seq<bool>)
    requires
        0 <= i < steps.len(),
    ensures
        ({
            let before = run_outcomes(initial_execution(steps), successes(i));
            let stopped = recorded(before, false);
            &&& current_step(before) == Some(steps[i])
            &&& current_step(stopped) is None
            &&& run_outcomes(stopped, later) == stopped
            &&& stopped.position == i
            &&& stopped.steps == steps
        }),
{
    lemma_successes_advance(initial_execution(steps), i);
    let before = run_outcomes(initial_execution(steps), successes(i));
    let stopped = recorded(before, false);
    lemma_failure_is_final(stopped, later);
}

/// Fail-fast, in-order execution of a resolved step list.
///
/// The surrounding program drives the run: it takes the current step with
/// [`Execution::next_step`], performs that step's actions, and reports how
/// it went with [`Execution::record`]. After a reported failure no further
/// step is ever handed out; completed steps are never revisited — there is
/// no rollback.
pub struct Execution {
    steps: Vec<ProfileModule>,
    position: usize,
    failed: bool,
}

impl View for Execution {
    type V = ExecutionV;

    closed spec fn view(&self) -> ExecutionV {
        ExecutionV {
            steps: self.steps.deep_view(),
            position: self.position as int,
            failed: self.failed,
        }
    }
}

impl Execution {
    /// Starts a run over the resolved steps.
    pub fn new(steps: Vec<ProfileModule>) -> (r: Self)
        ensures
            r@ == initial_execution(steps.deep_view()),
    {
        Execution { steps, position: 0, failed: false }
    }

    /// The step to perform next: none once the run is finished or failed.
    pub fn next_step(&self) -> (r: Option<&ProfileModule>)
        ensures
            match r {
                Some(step) => current_step(self@) == Some(step@),
                None => current_step(self@) is None,
            },
    {
        if !self.failed && self.position < self.steps.len() {
            Some(&self.steps[self.position])
        } else {
            None
        }
    }

    /// Records the current step's outcome: success moves on to the next
    /// step, failure stops the run for good.
    pub fn record(&mut self, success: bool)
        requires
            current_step(old(self)@) is Some,
        ensures
            final(self)@ == recorded(old(self)@, success),
    {
        let n = self.steps.len();
        proof {
            assert(self.steps.deep_view().len() == self.steps@.len());
            assert(self.position < n);
        }
        if success {
            self.position = self.position + 1;
        } else {
            self.failed = true;
        }
    }
}

} // verus!
