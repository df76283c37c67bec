use vstd::prelude::*;
use crate::browser_data::{BrowserData, Versions, enable_rule, no_targets, lemma_no_targets_gives_default};
use crate::feature::{Edition, Feature};

verus! {

/// How polyfills are brought in.
#[derive(Clone, Copy, Debug, PartialEq, Eq, Structural)]
pub enum Mode {
    /// Imports are added for what the module uses.
    Usage,
    /// The module imports the polyfills itself.
    Entry,
}

/// The options of the composer.
#[derive(Clone, Debug)]
pub struct Config {
    pub mode: Option<Mode>,
    pub debug: bool,
    pub dynamic_import: bool,
    pub loose: bool,
    /// Polyfill module specifiers that are never imported, such as `core-js/modules/foo`.
    pub skip: Vec<String>,
    /// The major version of core-js; `0` stands for `2`.
    pub core_js: usize,
    pub versions: Versions,
}

impl Default for Config {
    fn default() -> (r: Config)
        ensures
            r.mode is None,
            !r.debug,
            !r.dynamic_import,
            !r.loose,
            r.skip@.len() == 0,
            r.core_js == 0,
            no_targets(r.versions),
    {
        Config {
            mode: None,
            debug: false,
            dynamic_import: false,
            loose: false,
            skip: Vec::new(),
            core_js: 0,
            versions: BrowserData {
                chrome: None,
                ie: None,
                edge: None,
                firefox: None,
                safari: None,
                node: None,
                ios: None,
                samsung: None,
                opera: None,
                android: None,
                electron: None,
                phantom: None,
            },
        }
    }
}

/// The lowerings in the order they are applied: newer editions first.
pub open spec fn pipeline_order() -> Seq<Feature> {
    seq![
        Feature::ObjectRestSpread,
        Feature::OptionalCatchBinding,
        Feature::AsyncToGenerator,
        Feature::ExponentiationOperator,
        Feature::BlockScopedFunctions,
        Feature::TemplateLiterals,
        Feature::Classes,
        Feature::Spread,
        Feature::FunctionName,
        Feature::ArrowFunctions,
        Feature::DuplicateKeys,
        Feature::StickyRegex,
        Feature::TypeOfSymbol,
        Feature::ShorthandProperties,
        Feature::Parameters,
        Feature::ForOf,
        Feature::ComputedProperties,
        Feature::Destructuring,
        Feature::BlockScoping,
        Feature::PropertyLiterals,
        Feature::MemberExpressionLiterals,
        Feature::ReservedWords,
    ]
}

fn pipeline_features() -> (r: Vec<Feature>)
    ensures
        r@ == pipeline_order(),
{
    let r = vec![
        Feature::ObjectRestSpread,
        Feature::OptionalCatchBinding,
        Feature::AsyncToGenerator,
        Feature::ExponentiationOperator,
        Feature::BlockScopedFunctions,
        Feature::TemplateLiterals,
        Feature::Classes,
        Feature::Spread,
        Feature::FunctionName,
        Feature::ArrowFunctions,
        Feature::DuplicateKeys,
        Feature::StickyRegex,
        Feature::TypeOfSymbol,
        Feature::ShorthandProperties,
        Feature::Parameters,
        Feature::ForOf,
        Feature::ComputedProperties,
        Feature::Destructuring,
        Feature::BlockScoping,
        Feature::PropertyLiterals,
        Feature::MemberExpressionLiterals,
        Feature::ReservedWords,
    ];
    proof {
        assert(r@ =~= pipeline_order());
    }
    r
}

/// One lowering of the pipeline; a disabled stage leaves the module as it is.
#[derive(Clone, Copy, Debug, PartialEq, Eq, Structural)]
pub struct Stage {
    pub feature: Feature,
    pub enabled: bool,
    /// Loose output, for the stages that have it (spread, for-of, destructuring).
    pub loose: bool,
    /// Keeps `import` as an identifier, for the reserved-words stage.
    pub preserve_import: bool,
}

/// The final stage, which injects polyfill imports.
#[derive(Clone, Debug)]
pub struct Polyfills {
    pub c: Config,
}

/// The composed rewriter: the lowerings in order, then the polyfill injector.
#[derive(Clone, Debug)]
pub struct Pipeline {
    pub stages: Vec<Stage>,
    pub polyfills: Polyfills,
}

/// The stage that `c` gives for feature `f`.
pub open spec fn stage_for(c: Config, f: Feature) -> Stage {
    Stage {
        feature: f,
        enabled: enable_rule(f.row(), c.versions, f.default_on()),
        loose: c.loose && (f == Feature::Spread || f == Feature::ForOf || f == Feature::Destructuring),
        preserve_import: c.dynamic_import && f == Feature::ReservedWords,
    }
}

/// `p` is the pipeline composed from `c`.
pub open spec fn composed(c: Config, p: Pipeline) -> bool {
    &&& p.stages@.len() == pipeline_order().len()
    &&& forall|i: int| 0 <= i < p.stages@.len() ==> #[trigger] p.stages@[i] == stage_for(c, pipeline_order()[i])
    &&& p.polyfills.c.mode == c.mode
    &&& p.polyfills.c.debug == c.debug
    &&& p.polyfills.c.dynamic_import == c.dynamic_import
    &&& p.polyfills.c.loose == c.loose
    &&& p.polyfills.c.skip@ == c.skip@
    &&& p.polyfills.c.versions == c.versions
    &&& p.polyfills.c.core_js == if c.core_js == 0 { 2 } else { c.core_js }
}

/// Composes the lowerings that the targets of `c` need, followed by the polyfill injector.
pub fn preset_env(c: Config) -> (r: Pipeline)
    ensures
        composed(c, r),
{
    let mut c = c;
    let ghost c0 = c;
    if c.core_js == 0 {
        c.core_js = 2;
    }
    let features = pipeline_features();
    let mut stages: Vec<Stage> = Vec::new();
    let mut i: usize = 0;
    while i < features.len()
        invariant
            features@ == pipeline_order(),
            c.versions == c0.versions,
            c.loose == c0.loose,
            c.dynamic_import == c0.dynamic_import,
            0 <= i <= features.len(),
            stages@.len() == i,
            forall|j: int| 0 <= j < i ==> #[trigger] stages@[j] == stage_for(c0, pipeline_order()[j]),
        decreases features.len() - i,
    {
        let f = features[i];
        let enabled = f.should_enable(&c.versions, f.is_default_on());
        let loose = c.loose && (f == Feature::Spread || f == Feature::ForOf || f == Feature::Destructuring);
        let preserve_import = c.dynamic_import && f == Feature::ReservedWords;
        stages.push(Stage { feature: f, enabled, loose, preserve_import });
        i += 1;
    }
    Pipeline { stages, polyfills: Polyfills { c } }
}

impl Pipeline {
    /// The feature and state of each stage, in order, for a debug trace.
    pub fn trace(&self) -> (r: Vec<(&'static str, bool)>)
        ensures
            r@.len() == self.stages@.len(),
            forall|i: int| 0 <= i < r@.len() ==> (#[trigger] r@[i]).1 == self.stages@[i].enabled,
            forall|i: int| 0 <= i < r@.len() ==> (#[trigger] r@[i]).0@ == self.stages@[i].feature.name_m(),
    {
        let mut r: Vec<(&'static str, bool)> = Vec::new();
        let mut i: usize = 0;
        while i < self.stages.len()
            invariant
                0 <= i <= self.stages@.len(),
                r@.len() == i,
                forall|j: int| 0 <= j < i ==> (#[trigger] r@[j]).1 == self.stages@[j].enabled,
                forall|j: int| 0 <= j < i ==> (#[trigger] r@[j]).0@ == self.stages@[j].feature.name_m(),
            decreases self.stages@.len() - i,
        {
            let s = self.stages[i];
            r.push((s.feature.as_str(), s.enabled));
            i += 1;
        }
        r
    }
}

/// Without targets, exactly the ES2015 lowerings are active: every other
/// edition's stage is inert.
pub proof fn lemma_untargeted_pipeline(c: Config, p: Pipeline)
    requires
        no_targets(c.versions),
        composed(c, p),
    ensures
        forall|i: int|
            0 <= i < p.stages@.len() ==> (#[trigger] p.stages@[i]).enabled == (p.stages@[i].feature.edition()
                == Edition::Es2015),
{
    assert forall|i: int| 0 <= i < p.stages@.len() implies (#[trigger] p.stages@[i]).enabled == (
    p.stages@[i].feature.edition() == Edition::Es2015) by {
        let f = pipeline_order()[i];
        lemma_no_targets_gives_default(f.row(), c.versions, f.default_on());
    }
}

} // verus!
