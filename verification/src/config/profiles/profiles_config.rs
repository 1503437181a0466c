//! The root profile configuration: profiles, tools, and modules, with
//! optional externally stored definitions merged in as overlays.

use vstd::prelude::*;
use crate::config::profiles::module_config::{ModuleConfig, ModuleConfigV};
use crate::config::profiles::tools_config::{ToolConfig, ToolConfigV};
use crate::registry::{entries_view, lookup, lemma_lookup_append};

verus! {

/// Spec-level mirror of [`ProfilesConfig`].
pub ghost struct ProfilesConfigV {
    pub tools_definitions: Option<Seq<char>>,
    pub modules_definitions: Option<Seq<char>>,
    pub default_profile: Option<Seq<char>>,
    pub profiles: Seq<(Seq<char>, Seq<Seq<char>>)>,
    pub tools: Seq<(Seq<char>, ToolConfigV)>,
    pub modules: Seq<(Seq<char>, ModuleConfigV)>,
}

/// The root configuration document: the selectable profiles, the tool and
/// module registries, the optional default profile, and the optional paths
/// of externally stored definitions.
///
/// The registries are ordered entry lists; later entries win on name
/// collision, so merging an overlay is appending it.
pub struct ProfilesConfig {
    pub tools_definitions: Option<String>,
    pub modules_definitions: Option<String>,
    pub default_profile: Option<String>,
    pub profiles: Vec<(String, Vec<String>)>,
    pub tools: Vec<(String, ToolConfig)>,
    pub modules: Vec<(String, ModuleConfig)>,
}

impl View for ProfilesConfig {
    type V = ProfilesConfigV;

    open spec fn view(&self) -> ProfilesConfigV {
        ProfilesConfigV {
            tools_definitions: self.tools_definitions.deep_view(),
            modules_definitions: self.modules_definitions.deep_view(),
            default_profile: self.default_profile.deep_view(),
            profiles: entries_view(self.profiles@),
            tools: entries_view(self.tools@),
            modules: entries_view(self.modules@),
        }
    }
}

impl ProfilesConfig {
    /// Where the profile document is looked for: the explicit path when one
    /// was given, else the environment-provided one, else the fixed default
    /// under the home directory.
    pub fn resolve_path(input_path: &Option<String>, env_path: Option<String>, home: &str) -> (r:
        String)
        ensures
            r@ == match input_path.deep_view() {
                Some(p) => p,
                None => match env_path.deep_view() {
                    Some(p) => p,
                    None => crate::text::joined_path(
                        home@,
                        ".config/pde/install/profiles.toml"@,
                    ),
                },
            },
    {
        match input_path {
            Some(p) => p.clone(),
            None => match env_path {
                Some(p) => p,
                None => crate::text::join_path(home, ".config/pde/install/profiles.toml"),
            },
        }
    }

    /// Merges externally stored tool definitions into the tool registry.
    /// The overlay's entries are appended, so on a name collision the
    /// overlay's definition wins.
    pub fn parse_tools_definitions(&mut self, overlay: Vec<(String, ToolConfig)>)
        ensures
            final(self)@ == (ProfilesConfigV {
                tools: old(self)@.tools + entries_view(overlay@),
                ..old(self)@
            }),
    {
        let ghost overlay_v = entries_view(overlay@);
        let mut overlay = overlay;
        let ghost old_tools = self.tools@;
        self.tools.append(&mut overlay);
        proof {
            assert(entries_view(self.tools@) =~= entries_view(old_tools) + overlay_v);
        }
    }

    /// Merges externally stored module definitions into the module registry,
    /// each keyed by its own declared name. The overlay's entries are
    /// appended, so on a name collision the overlay's definition wins.
    pub fn parse_modules_definitions(&mut self, overlay: Vec<ModuleConfig>)
        ensures
            final(self)@ == (ProfilesConfigV {
                modules: old(self)@.modules + overlay@.map_values(
                    |m: ModuleConfig| (m.name@, m@),
                ),
                ..old(self)@
            }),
    {
        let ghost overlay_v = overlay@.map_values(|m: ModuleConfig| (m.name@, m@));
        let ghost pre_vec = self.modules@;
        let ghost pre_n = self.modules@.len();
        let mut i: usize = 0;
        while i < overlay.len()
            invariant
                i <= overlay@.len(),
                overlay_v == overlay@.map_values(|m: ModuleConfig| (m.name@, m@)),
                self.modules@.len() == pre_n + i,
                forall|j: int| 0 <= j < pre_n ==> self.modules@[j] == pre_vec[j],
                forall|j: int| #![auto] 0 <= j < i ==> (self.modules@[pre_n + j].0@,
                    self.modules@[pre_n + j].1@) == overlay_v[j],
                self.tools_definitions == old(self).tools_definitions,
                self.modules_definitions == old(self).modules_definitions,
                self.default_profile == old(self).default_profile,
                self.profiles == old(self).profiles,
                self.tools == old(self).tools,
            decreases overlay@.len() - i,
        {
            let name = overlay[i].name.clone();
            let module = overlay[i].clone();
            self.modules.push((name, module));
            i += 1;
        }
        proof {
            assert(entries_view(self.modules@) =~= entries_view(pre_vec) + overlay_v);
        }
    }
}

/// Overlay merging wins on collision: a module name defined by an overlay
/// resolves, after the merge, to the overlay's definition — not to any
/// earlier (inline) definition of the same name.
pub proof fn lemma_overlay_wins(
    inline: Seq<(Seq<char>, ModuleConfigV)>,
    overlay: Seq<(Seq<char>, ModuleConfigV)>,
    name: Seq<char>,
)
    requires
        lookup(overlay, name) is Some,
    ensures
        lookup(inline + overlay, name) == lookup(overlay, name),
{
    lemma_lookup_append(inline, overlay, name);
}

} // verus!
