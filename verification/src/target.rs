//! The target identifier: the `{os}-{arch}` key under which a manifest lists
//! the artifact for the running platform.

use vstd::prelude::*;
use vstd::string::*;

use crate::error::{UpdateError, UpdateErrorView};
use crate::text::str_eq;

verus! {

/// Which family of platforms the updater was built for. Each family knows its
/// own operating systems and names architectures in its own way.
#[derive(Clone, Copy, Debug, PartialEq, Eq, Structural)]
pub enum TargetFamily {
    Desktop,
    Mobile,
}

/// The operating-system token of a target identifier, for the name under
/// which the toolchain knows the operating system.
pub open spec fn updater_target(family: TargetFamily, os: Seq<char>) -> Option<Seq<char>> {
    match family {
        TargetFamily::Desktop => if os == "linux"@ {
            Some("linux"@)
        } else if os == "macos"@ {
            Some("darwin"@)
        } else if os == "windows"@ {
            Some("windows"@)
        } else {
            None
        },
        TargetFamily::Mobile => if os == "android"@ {
            Some("android"@)
        } else {
            None
        },
    }
}

/// The architecture token of a target identifier. Mobile artifacts are
/// universal: there the token depends on the operating system alone.
pub open spec fn updater_arch(family: TargetFamily, os: Seq<char>, arch: Seq<char>) -> Option<
    Seq<char>,
> {
    match family {
        TargetFamily::Desktop => if arch == "x86"@ {
            Some("i686"@)
        } else if arch == "x86_64"@ {
            Some("x86_64"@)
        } else if arch == "arm"@ {
            Some("armv7"@)
        } else if arch == "aarch64"@ {
            Some("aarch64"@)
        } else {
            None
        },
        TargetFamily::Mobile => if os == "android"@ {
            Some("universal"@)
        } else {
            None
        },
    }
}

/// The target identifier of a platform, or the error that says which part of
/// the platform is not recognized. The architecture is looked at first.
pub open spec fn target_id_of(family: TargetFamily, os: Seq<char>, arch: Seq<char>) -> Result<
    Seq<char>,
    UpdateErrorView,
> {
    match updater_arch(family, os, arch) {
        None => Err(UpdateErrorView::UnsupportedArch),
        Some(arch_token) => match updater_target(family, os) {
            None => Err(UpdateErrorView::UnsupportedOs),
            Some(os_token) => Ok(os_token + "-"@ + arch_token),
        },
    }
}

/// The operating-system token for the running operating system, `None`
/// where the family does not know it.
pub fn get_updater_target(family: TargetFamily, os: &str) -> (token: Option<&'static str>)
    ensures
        match token {
            Some(t) => updater_target(family, os@) == Some(t@),
            None => updater_target(family, os@) is None,
        },
{
    match family {
        TargetFamily::Desktop => {
            if str_eq(os, "linux") {
                Some("linux")
            } else if str_eq(os, "macos") {
                Some("darwin")
            } else if str_eq(os, "windows") {
                Some("windows")
            } else {
                None
            }
        },
        TargetFamily::Mobile => {
            if str_eq(os, "android") {
                Some("android")
            } else {
                None
            }
        },
    }
}

/// The architecture token for the running platform, `None` where the family
/// does not know it.
pub fn get_updater_arch(family: TargetFamily, os: &str, arch: &str) -> (token: Option<
    &'static str,
>)
    ensures
        match token {
            Some(t) => updater_arch(family, os@, arch@) == Some(t@),
            None => updater_arch(family, os@, arch@) is None,
        },
{
    match family {
        TargetFamily::Desktop => {
            if str_eq(arch, "x86") {
                Some("i686")
            } else if str_eq(arch, "x86_64") {
                Some("x86_64")
            } else if str_eq(arch, "arm") {
                Some("armv7")
            } else if str_eq(arch, "aarch64") {
                Some("aarch64")
            } else {
                None
            }
        },
        TargetFamily::Mobile => {
            if str_eq(os, "android") {
                Some("universal")
            } else {
                None
            }
        },
    }
}

/// Derives the `{os}-{arch}` target identifier of a platform.
pub fn target_id(family: TargetFamily, os: &str, arch: &str) -> (id: Result<String, UpdateError>)
    ensures
        match id {
            Ok(text) => target_id_of(family, os@, arch@) == Ok::<Seq<char>, UpdateErrorView>(text@),
            Err(e) => target_id_of(family, os@, arch@) == Err::<Seq<char>, UpdateErrorView>(e@),
        },
{
    let arch_token = match get_updater_arch(family, os, arch) {
        Some(token) => token,
        None => {
            return Err(UpdateError::UnsupportedArch);
        },
    };
    let os_token = match get_updater_target(family, os) {
        Some(token) => token,
        None => {
            return Err(UpdateError::UnsupportedOs);
        },
    };
    let mut id = String::from_str(os_token);
    id.append("-");
    id.append(arch_token);
    Ok(id)
}

} // verus!
