use vstd::prelude::*;

verus! {

/// Whether the user package is compiled as a program or as a library.
#[derive(Clone, Copy, Debug, PartialEq, Eq, Structural)]
pub enum PackageType {
    Exe,
    Lib,
}

/// A target capability profile: the restriction level that constrains which
/// language features compiled code may use.
///
/// The fully restricted `Base` profile is validated by a separate
/// earlier-stage checker, and the fully unrestricted profile needs no
/// checking at all, so the capability pass runs only for the adaptive
/// profiles in between.
#[derive(Clone, Copy, Debug, PartialEq, Eq, Structural)]
pub enum Profile {
    /// The fully restricted baseline profile.
    Base,
    /// Adaptive profile with integer computation.
    AdaptiveRi,
    /// Adaptive profile with integer and floating-point computation.
    AdaptiveRif,
    /// The fully unrestricted profile.
    Unrestricted,
}

impl Profile {
    /// True when the lowering/capability pass has work to do for this
    /// profile: neither the fully restricted baseline nor the fully
    /// unrestricted profile is checked by it.
    pub open spec fn needs_capability_check(self) -> bool {
        self != Profile::Base && self != Profile::Unrestricted
    }
}

/// An opaque set of language feature flags, forwarded unchanged to the
/// external front end.
#[derive(Clone, Copy, Debug, PartialEq, Eq, Structural)]
pub struct LanguageFeatures {
    pub flags: u32,
}

/// Configuration of one lint rule, forwarded unchanged to the external lint
/// engine: which rule, and at which severity level it reports.
#[derive(Clone, Copy, Debug, PartialEq, Eq, Structural)]
pub struct LintConfig {
    pub rule: u32,
    pub level: u32,
}

/// An editor-reported position: a zero-based line and a column counted in
/// units of the caller's text encoding.
#[derive(Clone, Copy, Debug, PartialEq, Eq, Structural)]
pub struct Position {
    pub line: u32,
    pub column: u32,
}

/// The text encoding in which a caller expresses column numbers.
#[derive(Clone, Copy, Debug, PartialEq, Eq, Structural)]
pub enum Encoding {
    /// Columns count UTF-8 code units (bytes).
    Utf8,
    /// Columns count UTF-16 code units.
    Utf16,
}

} // verus!
