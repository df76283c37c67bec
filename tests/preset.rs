use swc_preset_types::browser_data::{parse_versions, should_enable_row, BrowserData, Versions, VersionsError};
use swc_preset_types::feature::Feature;
use swc_preset_types::preset::{preset_env, Config, Mode};
use swc_preset_types::version::{parse_version, Version};

fn no_versions() -> Versions {
    Config::default().versions
}

fn chrome(major: u64) -> Versions {
    let mut v = no_versions();
    v.chrome = Some(Version::new(major, 0, 0));
    v
}

const ALL: [Feature; 22] = [
    Feature::ObjectRestSpread,
    Feature::OptionalCatchBinding,
    Feature::AsyncToGenerator,
    Feature::ExponentiationOperator,
    Feature::BlockScopedFunctions,
    Feature::TemplateLiterals,
    Feature::Classes,
    Feature::Spread,
    Feature::FunctionName,
    Feature::ArrowFunctions,
    Feature::DuplicateKeys,
    Feature::StickyRegex,
    Feature::TypeOfSymbol,
    Feature::ShorthandProperties,
    Feature::Parameters,
    Feature::ForOf,
    Feature::ComputedProperties,
    Feature::Destructuring,
    Feature::BlockScoping,
    Feature::PropertyLiterals,
    Feature::MemberExpressionLiterals,
    Feature::ReservedWords,
];

fn is_es2015(f: Feature) -> bool {
    !matches!(
        f,
        Feature::ObjectRestSpread
            | Feature::OptionalCatchBinding
            | Feature::AsyncToGenerator
            | Feature::ExponentiationOperator
            | Feature::PropertyLiterals
            | Feature::MemberExpressionLiterals
            | Feature::ReservedWords
    )
}

#[test]
fn no_targets_gives_default() {
    for f in ALL {
        assert!(f.should_enable(&no_versions(), true));
        assert!(!f.should_enable(&no_versions(), false));
    }
}

#[test]
fn supported_single_target_disables() {
    for f in ALL {
        assert!(!f.should_enable(&chrome(100), true), "{:?}", f);
        assert!(!f.should_enable(&chrome(100), false), "{:?}", f);
    }
}

#[test]
fn older_target_enables() {
    assert!(Feature::ArrowFunctions.should_enable(&chrome(46), false));
    assert!(!Feature::ArrowFunctions.should_enable(&chrome(47), true));
}

#[test]
fn platform_without_row_enables() {
    let mut v = no_versions();
    v.edge = Some(Version::new(18, 0, 0));
    // Function names never shipped on this edge line in the table.
    assert!(Feature::FunctionName.should_enable(&v, false));
    assert!(!Feature::ArrowFunctions.should_enable(&v, true));
}

#[test]
fn row_rule_on_given_rows() {
    let mut row = no_versions();
    row.node = Some(Version::new(6, 5, 0));
    let mut t = no_versions();
    t.node = Some(Version::new(6, 4, 9));
    assert!(should_enable_row(&row, &t, false));
    t.node = Some(Version::new(6, 5, 0));
    assert!(!should_enable_row(&row, &t, true));
    assert!(should_enable_row(&row, &no_versions(), true));
}

#[test]
fn default_config_pipeline() {
    let p = preset_env(Config::default());
    assert_eq!(p.stages.len(), ALL.len());
    for (s, f) in p.stages.iter().zip(ALL.iter()) {
        assert_eq!(s.feature, *f);
        assert_eq!(s.enabled, is_es2015(*f), "{:?}", f);
    }
}

#[test]
fn chrome_70_disables_async_classes_block_scoping() {
    let mut c = Config::default();
    c.versions = chrome(70);
    let p = preset_env(c);
    for s in &p.stages {
        if matches!(s.feature, Feature::AsyncToGenerator | Feature::Classes | Feature::BlockScoping) {
            assert!(!s.enabled);
        }
    }
    assert!(p.stages.iter().all(|s| !s.enabled));
}

#[test]
fn default_config_enables_arrow_functions() {
    let p = preset_env(Config::default());
    let s = p.stages.iter().find(|s| s.feature == Feature::ArrowFunctions).unwrap();
    assert!(s.enabled);
}

#[test]
fn core_js_zero_becomes_two() {
    let p = preset_env(Config::default());
    assert_eq!(p.polyfills.c.core_js, 2);
    let mut c = Config::default();
    c.core_js = 3;
    assert_eq!(preset_env(c).polyfills.c.core_js, 3);
}

#[test]
fn loose_and_dynamic_import_pass_through() {
    let mut c = Config::default();
    c.loose = true;
    c.dynamic_import = true;
    c.mode = Some(Mode::Entry);
    let p = preset_env(c);
    for s in &p.stages {
        let loose = matches!(s.feature, Feature::Spread | Feature::ForOf | Feature::Destructuring);
        assert_eq!(s.loose, loose);
        assert_eq!(s.preserve_import, s.feature == Feature::ReservedWords);
    }
    assert_eq!(p.polyfills.c.mode, Some(Mode::Entry));
}

#[test]
fn trace_lists_each_stage() {
    let p = preset_env(Config::default());
    let t = p.trace();
    assert_eq!(t.len(), 22);
    assert_eq!(t[0], ("proposal-object-rest-spread", false));
    assert_eq!(t[9], ("transform-arrow-functions", true));
}

#[test]
fn parse_versions_reads_table() {
    let v = parse_versions(&vec![
        ("chrome".to_string(), "70.0.0".to_string()),
        ("node".to_string(), "8.3.1".to_string()),
    ])
    .unwrap();
    assert_eq!(v.chrome, Some(Version::new(70, 0, 0)));
    assert_eq!(v.node, Some(Version::new(8, 3, 1)));
    assert_eq!(v.ie, None);
    assert!(!v.is_any_target());
}

#[test]
fn parse_versions_rejects_unknown_platform() {
    let r = parse_versions(&vec![("netscape".to_string(), "4.0.0".to_string())]);
    assert_eq!(r.unwrap_err(), VersionsError::UnknownPlatform);
}

#[test]
fn parse_versions_rejects_duplicate() {
    let r = parse_versions(&vec![
        ("ios".to_string(), "10.0.0".to_string()),
        ("ios".to_string(), "11.0.0".to_string()),
    ]);
    assert_eq!(r.unwrap_err(), VersionsError::DuplicatePlatform);
}

#[test]
fn parse_versions_rejects_invalid_version() {
    let r = parse_versions(&vec![("safari".to_string(), "ten".to_string())]);
    assert_eq!(r.unwrap_err(), VersionsError::InvalidVersion);
}

#[test]
fn parse_version_reads_parts() {
    assert_eq!(parse_version("70.1.2"), Some(Version::new(70, 1, 2)));
    assert_eq!(parse_version("1.2"), None);
}

#[test]
fn version_order() {
    assert!(Version::new(1, 2, 3).lt(&Version::new(1, 3, 0)));
    assert!(!Version::new(2, 0, 0).lt(&Version::new(1, 9, 9)));
    assert!(!Version::new(1, 0, 0).lt(&Version::new(1, 0, 0)));
}

#[test]
fn any_target_and_as_ref() {
    let v = no_versions();
    assert!(v.is_any_target());
    let c = chrome(5);
    let r = c.as_ref();
    assert_eq!(r.chrome, Some(&Version::new(5, 0, 0)));
    assert_eq!(r.ie, None);
    let b: BrowserData<Option<u8>> = BrowserData::default();
    assert!(b.as_ref().phantom.is_none());
}

#[test]
fn pre_release_orders_before_release() {
    let beta = parse_version("70.0.0-beta.1").unwrap();
    assert!(beta.pre_release);
    assert_eq!((beta.major, beta.minor, beta.patch), (70, 0, 0));
    assert!(beta.lt(&Version::new(70, 0, 0)));
    assert!(!Version::new(70, 0, 0).lt(&beta));
    assert!(Version::new(69, 9, 9).lt(&beta));
    let mut row = no_versions();
    row.chrome = Some(Version::new(70, 0, 0));
    let mut t = no_versions();
    t.chrome = Some(beta);
    assert!(should_enable_row(&row, &t, false));
}

#[test]
fn trace_names_each_stage() {
    let p = preset_env(Config::default());
    let names: Vec<&str> = p.trace().iter().map(|(n, _)| *n).collect();
    assert_eq!(names[2], "transform-async-to-generator");
    assert_eq!(names[21], "transform-reserved-words");
    for (s, (n, _)) in p.stages.iter().zip(p.trace()) {
        assert_eq!(s.feature.as_str(), n);
    }
}
