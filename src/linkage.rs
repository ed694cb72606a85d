//! How the native library gets linked.
//!
//! The build step looks, in turn, for a copy of the library in the directory
//! that `LCMS2_LIB_DIR` names, for a static build that the `static` feature or
//! `LCMS2_STATIC` forces, for a system copy that pkg-config finds (`dynamic`
//! feature), and for a static build of the bundled sources as a fallback
//! (`static-fallback` feature). The functions here make those decisions; the
//! caller reads the environment, looks at files and runs the probe.
use vstd::prelude::*;
use vstd::string::*;

verus! {

/// What the build step knows before it links.
#[derive(Debug, Copy, Clone, PartialEq, Eq, Structural)]
pub struct BuildSettings {
    /// `LCMS2_LIB_DIR` is set and the directory holds one of the library's files.
    pub lib_dir_has_library: bool,
    /// `LCMS2_STATIC` is set.
    pub static_requested: bool,
    /// The `static` feature is on.
    pub feature_static: bool,
    /// The `static-fallback` feature is on.
    pub feature_static_fallback: bool,
    /// The `dynamic` feature is on, which allows the pkg-config probe.
    pub feature_dynamic: bool,
}

/// The way the library ends up linked.
#[derive(Debug, Copy, Clone, PartialEq, Eq, Structural)]
pub enum LinkStrategy {
    /// Link the copy found in the `LCMS2_LIB_DIR` directory.
    LibDir,
    /// Link the system copy that pkg-config located.
    PkgConfig,
    /// Compile the bundled C sources into a static archive and link that.
    Vendored,
    /// Ask the linker for the library by name without building it: a static
    /// build was demanded while neither static feature is on.
    ByName,
    /// Nothing is linked; the symbols stay unresolved until the final link.
    Unlinked,
}

impl BuildSettings {
    /// A static build is demanded, by feature or by environment.
    pub open spec fn static_only(self) -> bool {
        self.feature_static || self.static_requested
    }

    /// The pkg-config probe runs.
    pub open spec fn probes(self) -> bool {
        !self.lib_dir_has_library && !self.static_only() && self.feature_dynamic
    }

    /// The strategy chosen when the probe, if it runs, reports `found`.
    pub open spec fn strategy(self, found: bool) -> LinkStrategy {
        if self.lib_dir_has_library {
            LinkStrategy::LibDir
        } else if self.static_only() || (!(self.probes() && found)
            && self.feature_static_fallback) {
            if self.feature_static || self.feature_static_fallback {
                LinkStrategy::Vendored
            } else {
                LinkStrategy::ByName
            }
        } else if self.probes() && found {
            LinkStrategy::PkgConfig
        } else {
            LinkStrategy::Unlinked
        }
    }
}

/// Whether the build step has to run the pkg-config probe.
pub fn needs_pkg_config_probe(s: &BuildSettings) -> (r: bool)
    ensures
        r == s.probes(),
{
    !s.lib_dir_has_library && !(s.feature_static || s.static_requested) && s.feature_dynamic
}

/// Chooses how to link, given what the pkg-config probe reported
/// (`pkg_config_found`; ignored where the probe does not run).
pub fn link_strategy(s: &BuildSettings, pkg_config_found: bool) -> (r: LinkStrategy)
    ensures
        r == s.strategy(pkg_config_found),
        r == LinkStrategy::LibDir <==> s.lib_dir_has_library,
        r == LinkStrategy::PkgConfig <==> s.probes() && pkg_config_found,
        r == LinkStrategy::Vendored <==> !s.lib_dir_has_library && (s.feature_static
            || s.feature_static_fallback) && (s.static_only() || !(s.probes()
            && pkg_config_found)),
        r == LinkStrategy::ByName <==> !s.lib_dir_has_library && s.static_requested
            && !s.feature_static && !s.feature_static_fallback,
        r == LinkStrategy::Unlinked <==> !s.lib_dir_has_library && !s.static_only()
            && !(s.probes() && pkg_config_found) && !s.feature_static_fallback,
{
    if s.lib_dir_has_library {
        return LinkStrategy::LibDir;
    }
    let static_only = s.feature_static || s.static_requested;
    let configured = !static_only && s.feature_dynamic && pkg_config_found;
    if static_only || (!configured && s.feature_static_fallback) {
        if s.feature_static || s.feature_static_fallback {
            LinkStrategy::Vendored
        } else {
            LinkStrategy::ByName
        }
    } else if configured {
        LinkStrategy::PkgConfig
    } else {
        LinkStrategy::Unlinked
    }
}

/// The choice depends on the settings alone wherever the pkg-config probe
/// does not run: the probe's outcome is consulted only when it is taken.
pub proof fn probe_outcome_matters_only_when_probed(s: BuildSettings, a: bool, b: bool)
    requires
        !s.probes(),
    ensures
        s.strategy(a) == s.strategy(b),
{
}

/// The files whose presence in the `LCMS2_LIB_DIR` directory counts as a copy
/// of the library: the platform's shared-library name, made of `dll_prefix`,
/// `lcms2` and `dll_suffix`, then the static and the other usual names.
pub fn library_file_names(dll_prefix: &str, dll_suffix: &str) -> (r: Vec<String>)
    ensures
        r@.len() == 4,
        r@[0]@ == dll_prefix@ + "lcms2"@ + dll_suffix@,
        r@[1]@ == "liblcms2.a"@,
        r@[2]@ == "lcms2.so"@,
        r@[3]@ == "lcms2.lib"@,
{
    let mut dylib = String::from_str(dll_prefix);
    dylib.append("lcms2");
    dylib.append(dll_suffix);
    let mut names: Vec<String> = Vec::new();
    names.push(dylib);
    names.push(String::from_str("liblcms2.a"));
    names.push(String::from_str("lcms2.so"));
    names.push(String::from_str("lcms2.lib"));
    names
}

/// Preprocessor symbol for a big-endian target.
pub const CMS_USE_BIG_ENDIAN: &'static str = "CMS_USE_BIG_ENDIAN";
/// Preprocessor symbol for strict CGATS parsing.
pub const CMS_STRICT_CGATS: &'static str = "CMS_STRICT_CGATS";
/// Preprocessor symbol that turns off the C assertions.
pub const NDEBUG: &'static str = "NDEBUG";

/// The symbols, each defined to `1`, for compiling the bundled sources: one for
/// a big-endian target, one for strict CGATS parsing, and `NDEBUG` unless the
/// build is a debug build.
pub fn vendored_defines(big_endian: bool, strict_cgats: bool, debug: bool) -> (r: Vec<
    &'static str,
>)
    ensures
        r@ == (if big_endian {
            seq![CMS_USE_BIG_ENDIAN]
        } else {
            seq![]
        }) + (if strict_cgats {
            seq![CMS_STRICT_CGATS]
        } else {
            seq![]
        }) + (if debug {
            seq![]
        } else {
            seq![NDEBUG]
        }),
{
    let mut defines: Vec<&'static str> = Vec::new();
    if big_endian {
        defines.push(CMS_USE_BIG_ENDIAN);
    }
    if strict_cgats {
        defines.push(CMS_STRICT_CGATS);
    }
    if !debug {
        defines.push(NDEBUG);
    }
    assert(defines@ =~= (if big_endian {
        seq![CMS_USE_BIG_ENDIAN]
    } else {
        seq![]
    }) + (if strict_cgats {
        seq![CMS_STRICT_CGATS]
    } else {
        seq![]
    }) + (if debug {
        seq![]
    } else {
        seq![NDEBUG]
    }));
    defines
}

} // verus!
