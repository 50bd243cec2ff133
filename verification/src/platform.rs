//! Platform inspector: identity facts about the running host.

use vstd::prelude::*;

verus! {

/// The operating-system identifiers classified as mobile platforms.
pub open spec fn is_mobile_os(os: Seq<char>) -> bool {
    os == "android"@ || os == "ios"@
}

/// Identity facts about the running host: operating-system family, CPU
/// architecture, the application's own release version, and whether the
/// operating system is a mobile one. A value type with no identity beyond
/// its fields, constructed fresh on every query.
pub struct PlatformInfo {
    pub os: String,
    pub arch: String,
    pub version: String,
    pub is_mobile: bool,
}

/// The mathematical content of a `PlatformInfo`.
pub struct PlatformInfoView {
    pub os: Seq<char>,
    pub arch: Seq<char>,
    pub version: Seq<char>,
    pub is_mobile: bool,
}

impl View for PlatformInfo {
    type V = PlatformInfoView;

    open spec fn view(&self) -> PlatformInfoView {
        PlatformInfoView {
            os: self.os@,
            arch: self.arch@,
            version: self.version@,
            is_mobile: self.is_mobile,
        }
    }
}

/// What the platform inspector reports for the given build-time facts:
/// the three strings verbatim, and the mobile flag derived from `os`.
pub open spec fn platform_info_of(os: Seq<char>, arch: Seq<char>, version: Seq<char>) -> PlatformInfoView {
    PlatformInfoView { os, arch, version, is_mobile: is_mobile_os(os) }
}

impl PlatformInfo {
    /// The one invariant of the type: the mobile flag is consistent with
    /// the operating-system identifier.
    pub open spec fn wf(self) -> bool {
        self.is_mobile == is_mobile_os(self.os@)
    }
}

/// Whether `os` names a mobile operating system.
pub fn os_is_mobile(os: &String) -> (r: bool)
    ensures
        r == is_mobile_os(os@),
{
    let android: String = String::from_str("android");
    let ios: String = String::from_str("ios");
    *os == android || *os == ios
}

/// Builds the platform report for the given build-time facts: the target
/// operating system, the target CPU architecture, and the package's
/// declared version string. Total: there is no failure path, and the
/// result is a function of the three arguments alone.
pub fn get_platform_info(os: String, arch: String, version: String) -> (r: PlatformInfo)
    ensures
        r@ == platform_info_of(os@, arch@, version@),
        r.wf(),
{
    let is_mobile = os_is_mobile(&os);
    PlatformInfo { is_mobile, os, arch, version }
}

/// The mobile classification holds exactly of "android" and "ios", and of
/// no other operating-system identifier.
pub proof fn lemma_mobile_iff_android_or_ios(os: Seq<char>, arch: Seq<char>, version: Seq<char>)
    ensures
        platform_info_of(os, arch, version).is_mobile <==> (os == "android"@ || os == "ios"@),
{
}

/// The platform report is idempotent: two reports built from the same
/// build-time facts are equal in every field.
pub proof fn lemma_platform_info_idempotent(a: PlatformInfo, b: PlatformInfo, os: Seq<char>, arch: Seq<char>, version: Seq<char>)
    requires
        a@ == platform_info_of(os, arch, version),
        b@ == platform_info_of(os, arch, version),
    ensures
        a@ == b@,
{
}

} // verus!
