use lcms2_sys::linkage::{
    library_file_names, link_strategy, needs_pkg_config_probe, vendored_defines,
    CMS_STRICT_CGATS, CMS_USE_BIG_ENDIAN, NDEBUG,
};
use lcms2_sys::{BuildSettings, LinkStrategy};

fn settings(bits: u32) -> BuildSettings {
    BuildSettings {
        lib_dir_has_library: bits & 1 != 0,
        static_requested: bits & 2 != 0,
        feature_static: bits & 4 != 0,
        feature_static_fallback: bits & 8 != 0,
        feature_dynamic: bits & 16 != 0,
    }
}

fn plain() -> BuildSettings {
    settings(0)
}

#[test]
fn library_in_lib_dir_wins_over_everything() {
    for bits in 0..32u32 {
        let s = settings(bits | 1);
        assert!(!needs_pkg_config_probe(&s));
        assert_eq!(LinkStrategy::LibDir, link_strategy(&s, true));
        assert_eq!(LinkStrategy::LibDir, link_strategy(&s, false));
    }
}

#[test]
fn static_feature_compiles_the_bundled_sources() {
    let s = BuildSettings { feature_static: true, feature_dynamic: true, ..plain() };
    assert!(!needs_pkg_config_probe(&s));
    assert_eq!(LinkStrategy::Vendored, link_strategy(&s, true));
}

#[test]
fn static_env_without_static_features_links_by_name() {
    let s = BuildSettings { static_requested: true, ..plain() };
    assert_eq!(LinkStrategy::ByName, link_strategy(&s, false));
    let s = BuildSettings { static_requested: true, feature_dynamic: true, ..plain() };
    assert!(!needs_pkg_config_probe(&s));
    assert_eq!(LinkStrategy::ByName, link_strategy(&s, true));
}

#[test]
fn static_env_with_fallback_feature_compiles() {
    let s = BuildSettings { static_requested: true, feature_static_fallback: true, ..plain() };
    assert_eq!(LinkStrategy::Vendored, link_strategy(&s, true));
}

#[test]
fn pkg_config_found_links_the_system_copy() {
    let s = BuildSettings { feature_dynamic: true, feature_static_fallback: true, ..plain() };
    assert!(needs_pkg_config_probe(&s));
    assert_eq!(LinkStrategy::PkgConfig, link_strategy(&s, true));
}

#[test]
fn pkg_config_missing_falls_back_to_static() {
    let s = BuildSettings { feature_dynamic: true, feature_static_fallback: true, ..plain() };
    assert_eq!(LinkStrategy::Vendored, link_strategy(&s, false));
}

#[test]
fn pkg_config_missing_without_fallback_links_nothing() {
    let s = BuildSettings { feature_dynamic: true, ..plain() };
    assert_eq!(LinkStrategy::Unlinked, link_strategy(&s, false));
}

#[test]
fn no_features_no_environment_links_nothing() {
    let s = plain();
    assert!(!needs_pkg_config_probe(&s));
    assert_eq!(LinkStrategy::Unlinked, link_strategy(&s, true));
    assert_eq!(LinkStrategy::Unlinked, link_strategy(&s, false));
}

#[test]
fn fallback_alone_compiles_without_probing() {
    let s = BuildSettings { feature_static_fallback: true, ..plain() };
    assert!(!needs_pkg_config_probe(&s));
    assert_eq!(LinkStrategy::Vendored, link_strategy(&s, true));
}

#[test]
fn every_combination_is_decided_by_settings_and_probe() {
    for bits in 0..32u32 {
        let s = settings(bits);
        let probes = needs_pkg_config_probe(&s);
        assert_eq!(
            probes,
            !s.lib_dir_has_library
                && !s.feature_static
                && !s.static_requested
                && s.feature_dynamic
        );
        for found in [false, true] {
            let r = link_strategy(&s, found);
            assert_eq!(r, link_strategy(&s, found));
            if !probes {
                assert_eq!(r, link_strategy(&s, !found));
            }
            let static_only = s.feature_static || s.static_requested;
            let expected = if s.lib_dir_has_library {
                LinkStrategy::LibDir
            } else if static_only && (s.feature_static || s.feature_static_fallback) {
                LinkStrategy::Vendored
            } else if static_only {
                LinkStrategy::ByName
            } else if probes && found {
                LinkStrategy::PkgConfig
            } else if s.feature_static_fallback {
                LinkStrategy::Vendored
            } else {
                LinkStrategy::Unlinked
            };
            assert_eq!(expected, r, "settings {:?}, found {}", s, found);
        }
    }
}

#[test]
fn library_file_names_on_each_platform() {
    let unix = library_file_names("lib", ".so");
    assert_eq!(vec!["liblcms2.so", "liblcms2.a", "lcms2.so", "lcms2.lib"], unix);
    let mac = library_file_names("lib", ".dylib");
    assert_eq!("liblcms2.dylib", mac[0]);
    let windows = library_file_names("", ".dll");
    assert_eq!("lcms2.dll", windows[0]);
    assert_eq!(4, windows.len());
}

#[test]
fn vendored_defines_per_target() {
    assert_eq!(vec![NDEBUG], vendored_defines(false, false, false));
    assert!(vendored_defines(false, false, true).is_empty());
    assert_eq!(
        vec![CMS_USE_BIG_ENDIAN, CMS_STRICT_CGATS, NDEBUG],
        vendored_defines(true, true, false)
    );
    assert_eq!(vec!["CMS_USE_BIG_ENDIAN"], vendored_defines(true, false, true));
    assert_eq!(vec!["CMS_STRICT_CGATS"], vendored_defines(false, true, true));
}
