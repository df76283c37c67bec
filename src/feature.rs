use vstd::prelude::*;
use crate::browser_data::{BrowserData, Versions, enable_rule, should_enable_row};
use crate::version::Version;

verus! {

/// A syntactic lowering that a target may need.
#[derive(Clone, Copy, Debug, PartialEq, Eq, Structural)]
pub enum Feature {
    ObjectRestSpread,
    OptionalCatchBinding,
    AsyncToGenerator,
    ExponentiationOperator,
    BlockScopedFunctions,
    TemplateLiterals,
    Classes,
    Spread,
    FunctionName,
    ArrowFunctions,
    DuplicateKeys,
    StickyRegex,
    TypeOfSymbol,
    ShorthandProperties,
    Parameters,
    ForOf,
    ComputedProperties,
    Destructuring,
    BlockScoping,
    PropertyLiterals,
    MemberExpressionLiterals,
    ReservedWords,
}

/// The language edition that introduced a feature.
#[derive(Clone, Copy, Debug, PartialEq, Eq, Structural)]
pub enum Edition {
    Es3,
    Es2015,
    Es2016,
    Es2017,
    Es2018,
}

/// `major.minor.0`.
pub open spec fn v(major: u64, minor: u64) -> Option<Version> {
    Some(Version { major, minor, patch: 0, pre_release: false })
}

fn ver(major: u64, minor: u64) -> (r: Option<Version>)
    ensures
        r == v(major, minor),
{
    Some(Version { major, minor, patch: 0, pre_release: false })
}

impl Feature {
    pub open spec fn edition(self) -> Edition {
        match self {
            Feature::ObjectRestSpread => Edition::Es2018,
            Feature::OptionalCatchBinding => Edition::Es2018,
            Feature::AsyncToGenerator => Edition::Es2017,
            Feature::ExponentiationOperator => Edition::Es2016,
            Feature::BlockScopedFunctions => Edition::Es2015,
            Feature::TemplateLiterals => Edition::Es2015,
            Feature::Classes => Edition::Es2015,
            Feature::Spread => Edition::Es2015,
            Feature::FunctionName => Edition::Es2015,
            Feature::ArrowFunctions => Edition::Es2015,
            Feature::DuplicateKeys => Edition::Es2015,
            Feature::StickyRegex => Edition::Es2015,
            Feature::TypeOfSymbol => Edition::Es2015,
            Feature::ShorthandProperties => Edition::Es2015,
            Feature::Parameters => Edition::Es2015,
            Feature::ForOf => Edition::Es2015,
            Feature::ComputedProperties => Edition::Es2015,
            Feature::Destructuring => Edition::Es2015,
            Feature::BlockScoping => Edition::Es2015,
            Feature::PropertyLiterals => Edition::Es3,
            Feature::MemberExpressionLiterals => Edition::Es3,
            Feature::ReservedWords => Edition::Es3,
        }
    }

    /// The lowerings of ES2015 are on by default when there are no targets.
    pub open spec fn default_on(self) -> bool {
        self.edition() == Edition::Es2015
    }

    /// The earliest version of each platform that ships the feature natively.
    pub open spec fn row(self) -> Versions {
        match self {
            Feature::ObjectRestSpread => BrowserData {
                chrome: v(60, 0),
                ie: None,
                edge: None,
                firefox: v(55, 0),
                safari: v(11, 1),
                node: v(8, 3),
                ios: v(11, 3),
                samsung: v(8, 0),
                opera: v(47, 0),
                android: None,
                electron: v(2, 0),
                phantom: None,
            },
            Feature::OptionalCatchBinding => BrowserData {
                chrome: v(66, 0),
                ie: None,
                edge: None,
                firefox: v(58, 0),
                safari: v(11, 1),
                node: v(10, 0),
                ios: v(11, 3),
                samsung: v(9, 0),
                opera: v(53, 0),
                android: None,
                electron: v(3, 0),
                phantom: None,
            },
            Feature::AsyncToGenerator => BrowserData {
                chrome: v(55, 0),
                ie: None,
                edge: v(15, 0),
                firefox: v(52, 0),
                safari: v(11, 0),
                node: v(7, 6),
                ios: v(11, 0),
                samsung: v(6, 0),
                opera: v(42, 0),
                android: None,
                electron: v(1, 6),
                phantom: None,
            },
            Feature::ExponentiationOperator => BrowserData {
                chrome: v(52, 0),
                ie: None,
                edge: v(14, 0),
                firefox: v(52, 0),
                safari: v(10, 1),
                node: v(7, 0),
                ios: v(10, 3),
                samsung: v(6, 0),
                opera: v(39, 0),
                android: None,
                electron: v(1, 3),
                phantom: None,
            },
            Feature::BlockScopedFunctions => BrowserData {
                chrome: v(41, 0),
                ie: v(11, 0),
                edge: v(12, 0),
                firefox: v(46, 0),
                safari: v(10, 0),
                node: v(4, 0),
                ios: v(10, 0),
                samsung: v(3, 4),
                opera: v(28, 0),
                android: None,
                electron: v(0, 21),
                phantom: None,
            },
            Feature::TemplateLiterals => BrowserData {
                chrome: v(41, 0),
                ie: None,
                edge: v(13, 0),
                firefox: v(34, 0),
                safari: v(13, 0),
                node: v(4, 0),
                ios: v(13, 0),
                samsung: v(3, 4),
                opera: v(28, 0),
                android: None,
                electron: v(0, 21),
                phantom: None,
            },
            Feature::Classes => BrowserData {
                chrome: v(46, 0),
                ie: None,
                edge: v(13, 0),
                firefox: v(45, 0),
                safari: v(10, 0),
                node: v(5, 0),
                ios: v(10, 0),
                samsung: v(5, 0),
                opera: v(33, 0),
                android: None,
                electron: v(0, 36),
                phantom: None,
            },
            Feature::Spread => BrowserData {
                chrome: v(46, 0),
                ie: None,
                edge: v(13, 0),
                firefox: v(36, 0),
                safari: v(10, 0),
                node: v(5, 0),
                ios: v(10, 0),
                samsung: v(5, 0),
                opera: v(33, 0),
                android: None,
                electron: v(0, 36),
                phantom: None,
            },
            Feature::FunctionName => BrowserData {
                chrome: v(51, 0),
                ie: None,
                edge: None,
                firefox: v(53, 0),
                safari: v(10, 0),
                node: v(6, 5),
                ios: v(10, 0),
                samsung: v(5, 0),
                opera: v(38, 0),
                android: None,
                electron: v(1, 2),
                phantom: None,
            },
            Feature::ArrowFunctions => BrowserData {
                chrome: v(47, 0),
                ie: None,
                edge: v(13, 0),
                firefox: v(45, 0),
                safari: v(10, 0),
                node: v(6, 0),
                ios: v(10, 0),
                samsung: v(5, 0),
                opera: v(34, 0),
                android: None,
                electron: v(0, 36),
                phantom: None,
            },
            Feature::DuplicateKeys => BrowserData {
                chrome: v(42, 0),
                ie: None,
                edge: v(12, 0),
                firefox: v(34, 0),
                safari: v(9, 0),
                node: v(4, 0),
                ios: v(9, 0),
                samsung: v(3, 4),
                opera: v(29, 0),
                android: None,
                electron: v(0, 25),
                phantom: None,
            },
            Feature::StickyRegex => BrowserData {
                chrome: v(49, 0),
                ie: None,
                edge: v(13, 0),
                firefox: v(3, 0),
                safari: v(10, 0),
                node: v(6, 0),
                ios: v(10, 0),
                samsung: v(5, 0),
                opera: v(36, 0),
                android: None,
                electron: v(0, 37),
                phantom: None,
            },
            Feature::TypeOfSymbol => BrowserData {
                chrome: v(38, 0),
                ie: None,
                edge: v(12, 0),
                firefox: v(36, 0),
                safari: v(9, 0),
                node: v(0, 12),
                ios: v(9, 0),
                samsung: v(3, 0),
                opera: v(25, 0),
                android: None,
                electron: v(0, 2),
                phantom: None,
            },
            Feature::ShorthandProperties => BrowserData {
                chrome: v(43, 0),
                ie: None,
                edge: v(12, 0),
                firefox: v(33, 0),
                safari: v(9, 0),
                node: v(4, 0),
                ios: v(9, 0),
                samsung: v(4, 0),
                opera: v(30, 0),
                android: None,
                electron: v(0, 27),
                phantom: None,
            },
            Feature::Parameters => BrowserData {
                chrome: v(49, 0),
                ie: None,
                edge: v(18, 0),
                firefox: v(53, 0),
                safari: v(10, 0),
                node: v(6, 0),
                ios: v(10, 0),
                samsung: v(5, 0),
                opera: v(36, 0),
                android: None,
                electron: v(0, 37),
                phantom: None,
            },
            Feature::ForOf => BrowserData {
                chrome: v(51, 0),
                ie: None,
                edge: v(15, 0),
                firefox: v(53, 0),
                safari: v(10, 0),
                node: v(6, 5),
                ios: v(10, 0),
                samsung: v(5, 0),
                opera: v(38, 0),
                android: None,
                electron: v(1, 2),
                phantom: None,
            },
            Feature::ComputedProperties => BrowserData {
                chrome: v(44, 0),
                ie: None,
                edge: v(12, 0),
                firefox: v(34, 0),
                safari: v(7, 1),
                node: v(4, 0),
                ios: v(8, 0),
                samsung: v(4, 0),
                opera: v(31, 0),
                android: None,
                electron: v(0, 3),
                phantom: None,
            },
            Feature::Destructuring => BrowserData {
                chrome: v(51, 0),
                ie: None,
                edge: v(15, 0),
                firefox: v(53, 0),
                safari: v(10, 0),
                node: v(6, 5),
                ios: v(10, 0),
                samsung: v(5, 0),
                opera: v(38, 0),
                android: None,
                electron: v(1, 2),
                phantom: None,
            },
            Feature::BlockScoping => BrowserData {
                chrome: v(49, 0),
                ie: None,
                edge: v(14, 0),
                firefox: v(51, 0),
                safari: v(11, 0),
                node: v(6, 0),
                ios: v(11, 0),
                samsung: v(5, 0),
                opera: v(36, 0),
                android: None,
                electron: v(0, 37),
                phantom: None,
            },
            Feature::PropertyLiterals => BrowserData {
                chrome: v(7, 0),
                ie: v(9, 0),
                edge: v(12, 0),
                firefox: v(2, 0),
                safari: v(5, 1),
                node: v(0, 10),
                ios: v(6, 0),
                samsung: v(1, 0),
                opera: v(12, 0),
                android: v(4, 4),
                electron: v(0, 2),
                phantom: v(2, 0),
            },
            Feature::MemberExpressionLiterals => BrowserData {
                chrome: v(7, 0),
                ie: v(9, 0),
                edge: v(12, 0),
                firefox: v(2, 0),
                safari: v(5, 1),
                node: v(0, 10),
                ios: v(6, 0),
                samsung: v(1, 0),
                opera: v(12, 0),
                android: v(4, 4),
                electron: v(0, 2),
                phantom: v(2, 0),
            },
            Feature::ReservedWords => BrowserData {
                chrome: v(13, 0),
                ie: v(9, 0),
                edge: v(12, 0),
                firefox: v(2, 0),
                safari: v(3, 1),
                node: v(0, 10),
                ios: v(6, 0),
                samsung: v(1, 0),
                opera: v(10, 5),
                android: v(4, 4),
                electron: v(0, 2),
                phantom: v(2, 0),
            },
        }
    }

    /// The compatibility row of the feature.
    pub fn compat_row(&self) -> (r: Versions)
        ensures
            r == self.row(),
    {
        match self {
            Feature::ObjectRestSpread => BrowserData {
                chrome: ver(60, 0),
                ie: None,
                edge: None,
                firefox: ver(55, 0),
                safari: ver(11, 1),
                node: ver(8, 3),
                ios: ver(11, 3),
                samsung: ver(8, 0),
                opera: ver(47, 0),
                android: None,
                electron: ver(2, 0),
                phantom: None,
            },
            Feature::OptionalCatchBinding => BrowserData {
                chrome: ver(66, 0),
                ie: None,
                edge: None,
                firefox: ver(58, 0),
                safari: ver(11, 1),
                node: ver(10, 0),
                ios: ver(11, 3),
                samsung: ver(9, 0),
                opera: ver(53, 0),
                android: None,
                electron: ver(3, 0),
                phantom: None,
            },
            Feature::AsyncToGenerator => BrowserData {
                chrome: ver(55, 0),
                ie: None,
                edge: ver(15, 0),
                firefox: ver(52, 0),
                safari: ver(11, 0),
                node: ver(7, 6),
                ios: ver(11, 0),
                samsung: ver(6, 0),
                opera: ver(42, 0),
                android: None,
                electron: ver(1, 6),
                phantom: None,
            },
            Feature::ExponentiationOperator => BrowserData {
                chrome: ver(52, 0),
                ie: None,
                edge: ver(14, 0),
                firefox: ver(52, 0),
                safari: ver(10, 1),
                node: ver(7, 0),
                ios: ver(10, 3),
                samsung: ver(6, 0),
                opera: ver(39, 0),
                android: None,
                electron: ver(1, 3),
                phantom: None,
            },
            Feature::BlockScopedFunctions => BrowserData {
                chrome: ver(41, 0),
                ie: ver(11, 0),
                edge: ver(12, 0),
                firefox: ver(46, 0),
                safari: ver(10, 0),
                node: ver(4, 0),
                ios: ver(10, 0),
                samsung: ver(3, 4),
                opera: ver(28, 0),
                android: None,
                electron: ver(0, 21),
                phantom: None,
            },
            Feature::TemplateLiterals => BrowserData {
                chrome: ver(41, 0),
                ie: None,
                edge: ver(13, 0),
                firefox: ver(34, 0),
                safari: ver(13, 0),
                node: ver(4, 0),
                ios: ver(13, 0),
                samsung: ver(3, 4),
                opera: ver(28, 0),
                android: None,
                electron: ver(0, 21),
                phantom: None,
            },
            Feature::Classes => BrowserData {
                chrome: ver(46, 0),
                ie: None,
                edge: ver(13, 0),
                firefox: ver(45, 0),
                safari: ver(10, 0),
                node: ver(5, 0),
                ios: ver(10, 0),
                samsung: ver(5, 0),
                opera: ver(33, 0),
                android: None,
                electron: ver(0, 36),
                phantom: None,
            },
            Feature::Spread => BrowserData {
                chrome: ver(46, 0),
                ie: None,
                edge: ver(13, 0),
                firefox: ver(36, 0),
                safari: ver(10, 0),
                node: ver(5, 0),
                ios: ver(10, 0),
                samsung: ver(5, 0),
                opera: ver(33, 0),
                android: None,
                electron: ver(0, 36),
                phantom: None,
            },
            Feature::FunctionName => BrowserData {
                chrome: ver(51, 0),
                ie: None,
                edge: None,
                firefox: ver(53, 0),
                safari: ver(10, 0),
                node: ver(6, 5),
                ios: ver(10, 0),
                samsung: ver(5, 0),
                opera: ver(38, 0),
                android: None,
                electron: ver(1, 2),
                phantom: None,
            },
            Feature::ArrowFunctions => BrowserData {
                chrome: ver(47, 0),
                ie: None,
                edge: ver(13, 0),
                firefox: ver(45, 0),
                safari: ver(10, 0),
                node: ver(6, 0),
                ios: ver(10, 0),
                samsung: ver(5, 0),
                opera: ver(34, 0),
                android: None,
                electron: ver(0, 36),
                phantom: None,
            },
            Feature::DuplicateKeys => BrowserData {
                chrome: ver(42, 0),
                ie: None,
                edge: ver(12, 0),
                firefox: ver(34, 0),
                safari: ver(9, 0),
                node: ver(4, 0),
                ios: ver(9, 0),
                samsung: ver(3, 4),
                opera: ver(29, 0),
                android: None,
                electron: ver(0, 25),
                phantom: None,
            },
            Feature::StickyRegex => BrowserData {
                chrome: ver(49, 0),
                ie: None,
                edge: ver(13, 0),
                firefox: ver(3, 0),
                safari: ver(10, 0),
                node: ver(6, 0),
                ios: ver(10, 0),
                samsung: ver(5, 0),
                opera: ver(36, 0),
                android: None,
                electron: ver(0, 37),
                phantom: None,
            },
            Feature::TypeOfSymbol => BrowserData {
                chrome: ver(38, 0),
                ie: None,
                edge: ver(12, 0),
                firefox: ver(36, 0),
                safari: ver(9, 0),
                node: ver(0, 12),
                ios: ver(9, 0),
                samsung: ver(3, 0),
                opera: ver(25, 0),
                android: None,
                electron: ver(0, 2),
                phantom: None,
            },
            Feature::ShorthandProperties => BrowserData {
                chrome: ver(43, 0),
                ie: None,
                edge: ver(12, 0),
                firefox: ver(33, 0),
                safari: ver(9, 0),
                node: ver(4, 0),
                ios: ver(9, 0),
                samsung: ver(4, 0),
                opera: ver(30, 0),
                android: None,
                electron: ver(0, 27),
                phantom: None,
            },
            Feature::Parameters => BrowserData {
                chrome: ver(49, 0),
                ie: None,
                edge: ver(18, 0),
                firefox: ver(53, 0),
                safari: ver(10, 0),
                node: ver(6, 0),
                ios: ver(10, 0),
                samsung: ver(5, 0),
                opera: ver(36, 0),
                android: None,
                electron: ver(0, 37),
                phantom: None,
            },
            Feature::ForOf => BrowserData {
                chrome: ver(51, 0),
                ie: None,
                edge: ver(15, 0),
                firefox: ver(53, 0),
                safari: ver(10, 0),
                node: ver(6, 5),
                ios: ver(10, 0),
                samsung: ver(5, 0),
                opera: ver(38, 0),
                android: None,
                electron: ver(1, 2),
                phantom: None,
            },
            Feature::ComputedProperties => BrowserData {
                chrome: ver(44, 0),
                ie: None,
                edge: ver(12, 0),
                firefox: ver(34, 0),
                safari: ver(7, 1),
                node: ver(4, 0),
                ios: ver(8, 0),
                samsung: ver(4, 0),
                opera: ver(31, 0),
                android: None,
                electron: ver(0, 3),
                phantom: None,
            },
            Feature::Destructuring => BrowserData {
                chrome: ver(51, 0),
                ie: None,
                edge: ver(15, 0),
                firefox: ver(53, 0),
                safari: ver(10, 0),
                node: ver(6, 5),
                ios: ver(10, 0),
                samsung: ver(5, 0),
                opera: ver(38, 0),
                android: None,
                electron: ver(1, 2),
                phantom: None,
            },
            Feature::BlockScoping => BrowserData {
                chrome: ver(49, 0),
                ie: None,
                edge: ver(14, 0),
                firefox: ver(51, 0),
                safari: ver(11, 0),
                node: ver(6, 0),
                ios: ver(11, 0),
                samsung: ver(5, 0),
                opera: ver(36, 0),
                android: None,
                electron: ver(0, 37),
                phantom: None,
            },
            Feature::PropertyLiterals => BrowserData {
                chrome: ver(7, 0),
                ie: ver(9, 0),
                edge: ver(12, 0),
                firefox: ver(2, 0),
                safari: ver(5, 1),
                node: ver(0, 10),
                ios: ver(6, 0),
                samsung: ver(1, 0),
                opera: ver(12, 0),
                android: ver(4, 4),
                electron: ver(0, 2),
                phantom: ver(2, 0),
            },
            Feature::MemberExpressionLiterals => BrowserData {
                chrome: ver(7, 0),
                ie: ver(9, 0),
                edge: ver(12, 0),
                firefox: ver(2, 0),
                safari: ver(5, 1),
                node: ver(0, 10),
                ios: ver(6, 0),
                samsung: ver(1, 0),
                opera: ver(12, 0),
                android: ver(4, 4),
                electron: ver(0, 2),
                phantom: ver(2, 0),
            },
            Feature::ReservedWords => BrowserData {
                chrome: ver(13, 0),
                ie: ver(9, 0),
                edge: ver(12, 0),
                firefox: ver(2, 0),
                safari: ver(3, 1),
                node: ver(0, 10),
                ios: ver(6, 0),
                samsung: ver(1, 0),
                opera: ver(10, 5),
                android: ver(4, 4),
                electron: ver(0, 2),
                phantom: ver(2, 0),
            },
        }
    }

    /// Whether the lowering is on when no targets are given.
    pub fn is_default_on(&self) -> (r: bool)
        ensures
            r == self.default_on(),
    {
        match self {
            Feature::ObjectRestSpread => false,
            Feature::OptionalCatchBinding => false,
            Feature::AsyncToGenerator => false,
            Feature::ExponentiationOperator => false,
            Feature::BlockScopedFunctions => true,
            Feature::TemplateLiterals => true,
            Feature::Classes => true,
            Feature::Spread => true,
            Feature::FunctionName => true,
            Feature::ArrowFunctions => true,
            Feature::DuplicateKeys => true,
            Feature::StickyRegex => true,
            Feature::TypeOfSymbol => true,
            Feature::ShorthandProperties => true,
            Feature::Parameters => true,
            Feature::ForOf => true,
            Feature::ComputedProperties => true,
            Feature::Destructuring => true,
            Feature::BlockScoping => true,
            Feature::PropertyLiterals => false,
            Feature::MemberExpressionLiterals => false,
            Feature::ReservedWords => false,
        }
    }

    /// The plugin name of the feature.
    pub open spec fn name_m(self) -> Seq<char> {
        match self {
            Feature::ObjectRestSpread => "proposal-object-rest-spread"@,
            Feature::OptionalCatchBinding => "proposal-optional-catch-binding"@,
            Feature::AsyncToGenerator => "transform-async-to-generator"@,
            Feature::ExponentiationOperator => "transform-exponentiation-operator"@,
            Feature::BlockScopedFunctions => "transform-block-scoped-functions"@,
            Feature::TemplateLiterals => "transform-template-literals"@,
            Feature::Classes => "transform-classes"@,
            Feature::Spread => "transform-spread"@,
            Feature::FunctionName => "transform-function-name"@,
            Feature::ArrowFunctions => "transform-arrow-functions"@,
            Feature::DuplicateKeys => "transform-duplicate-keys"@,
            Feature::StickyRegex => "transform-sticky-regex"@,
            Feature::TypeOfSymbol => "transform-typeof-symbol"@,
            Feature::ShorthandProperties => "transform-shorthand-properties"@,
            Feature::Parameters => "transform-parameters"@,
            Feature::ForOf => "transform-for-of"@,
            Feature::ComputedProperties => "transform-computed-properties"@,
            Feature::Destructuring => "transform-destructuring"@,
            Feature::BlockScoping => "transform-block-scoping"@,
            Feature::PropertyLiterals => "transform-property-literals"@,
            Feature::MemberExpressionLiterals => "transform-member-expression-literals"@,
            Feature::ReservedWords => "transform-reserved-words"@,
        }
    }

    /// The plugin name of the feature.
    pub fn as_str(&self) -> (r: &'static str)
        ensures
            r@ == self.name_m(),
    {
        match self {
            Feature::ObjectRestSpread => "proposal-object-rest-spread",
            Feature::OptionalCatchBinding => "proposal-optional-catch-binding",
            Feature::AsyncToGenerator => "transform-async-to-generator",
            Feature::ExponentiationOperator => "transform-exponentiation-operator",
            Feature::BlockScopedFunctions => "transform-block-scoped-functions",
            Feature::TemplateLiterals => "transform-template-literals",
            Feature::Classes => "transform-classes",
            Feature::Spread => "transform-spread",
            Feature::FunctionName => "transform-function-name",
            Feature::ArrowFunctions => "transform-arrow-functions",
            Feature::DuplicateKeys => "transform-duplicate-keys",
            Feature::StickyRegex => "transform-sticky-regex",
            Feature::TypeOfSymbol => "transform-typeof-symbol",
            Feature::ShorthandProperties => "transform-shorthand-properties",
            Feature::Parameters => "transform-parameters",
            Feature::ForOf => "transform-for-of",
            Feature::ComputedProperties => "transform-computed-properties",
            Feature::Destructuring => "transform-destructuring",
            Feature::BlockScoping => "transform-block-scoping",
            Feature::PropertyLiterals => "transform-property-literals",
            Feature::MemberExpressionLiterals => "transform-member-expression-literals",
            Feature::ReservedWords => "transform-reserved-words",
        }
    }

    /// Whether the feature must be lowered for `targets`.
    pub fn should_enable(&self, targets: &Versions, default_on: bool) -> (r: bool)
        ensures
            r == enable_rule(self.row(), *targets, default_on),
    {
        let row = self.compat_row();
        should_enable_row(&row, targets, default_on)
    }
}

} // verus!
