//! Resolution of the link mode and of the linker directives handed to the
//! host build orchestrator.
//!
//! An explicit override variable decides the mode when it is set; absent
//! the override, the mode is static exactly when a conventionally named
//! static archive sits in one of the discovered search paths. Windows
//! toolchains bypass the resolver and hard-code a single directive of
//! their own. The filesystem probe for the archive happens in the
//! unverified shell, which hands its outcome in as a plain value.

use crate::discovery::DiscoveryResult;
use crate::text::join_path;
use vstd::prelude::*;
use vstd::string::*;

verus! {

/// Whether a native library is embedded into the output at build time or
/// referenced for load at run time.
#[derive(Clone, Copy, Debug, PartialEq, Eq, Structural)]
pub enum LinkMode {
    Static,
    Dynamic,
}

/// The toolchain family the directives are emitted for. The two Windows
/// families carry their own fixed directives; every other target goes
/// through the mode resolver.
#[derive(Clone, Copy, Debug, PartialEq, Eq, Structural)]
pub enum TargetFamily {
    WindowsGnu,
    WindowsMsvc,
    Other,
}

/// One instruction to the host build orchestrator: link the named library
/// in the given mode.
#[derive(Debug)]
pub struct LinkDirective {
    pub library_name: String,
    pub mode: LinkMode,
}

/// Everything the host build orchestrator is told when linking is
/// required: one search path entry per discovered path, then one link
/// directive per required library.
#[derive(Debug)]
pub struct LinkInstructions {
    pub search_paths: Vec<String>,
    pub libraries: Vec<LinkDirective>,
}

/// The link mode for one library. `mode_override` is the value of the
/// force-flag variable: exactly `"0"` forces dynamic and any other value
/// forces static. Absent the override, `static_archive_present` reports
/// whether the library's static archive was found in any discovered
/// search path, and decides the mode.
pub fn determine_mode(mode_override: Option<String>, static_archive_present: bool) -> (r: LinkMode)
    ensures
        match mode_override {
            Option::Some(flag) => r == (if flag@ == "0"@ {
                LinkMode::Dynamic
            } else {
                LinkMode::Static
            }),
            Option::None => r == (if static_archive_present {
                LinkMode::Static
            } else {
                LinkMode::Dynamic
            }),
        },
{
    match mode_override {
        Some(flag) => {
            if flag.eq(&String::from_str("0")) {
                LinkMode::Dynamic
            } else {
                LinkMode::Static
            }
        },
        None => {
            if static_archive_present {
                LinkMode::Static
            } else {
                LinkMode::Dynamic
            }
        },
    }
}

/// The conventional file name of a library's static archive.
pub fn static_archive_name(lib: &str) -> (r: String)
    ensures
        r@ == "lib"@ + lib@ + ".a"@,
{
    String::from_str("lib").concat(lib).concat(".a")
}

/// The full paths at which a library's static archive may sit: one
/// candidate per discovered search path. The unverified shell tests each
/// for existence; the probe is an existence check only, and never opens
/// the archive.
pub fn static_archive_candidates(libdirs: &Vec<String>, lib: &str) -> (r: Vec<String>)
    ensures
        r@.len() == libdirs@.len(),
        forall|i: int|
            0 <= i < libdirs@.len() ==> r@[i]@ == libdirs@[i]@ + "/"@ + ("lib"@ + lib@ + ".a"@),
{
    let mut r: Vec<String> = Vec::new();
    let mut idx: usize = 0;
    while idx < libdirs.len()
        invariant
            idx <= libdirs@.len(),
            r@.len() == idx,
            forall|i: int|
                0 <= i < idx ==> r@[i]@ == libdirs@[i]@ + "/"@ + ("lib"@ + lib@ + ".a"@),
        decreases libdirs@.len() - idx,
    {
        let name = static_archive_name(lib);
        r.push(join_path(libdirs[idx].as_str(), name.as_str()));
        idx += 1;
    }
    r
}

fn clone_strings(paths: &Vec<String>) -> (r: Vec<String>)
    ensures
        r@ == paths@,
{
    let mut r: Vec<String> = Vec::new();
    let mut idx: usize = 0;
    while idx < paths.len()
        invariant
            idx <= paths@.len(),
            r@ == paths@.subrange(0, idx as int),
        decreases paths@.len() - idx,
    {
        r.push(paths[idx].clone());
        proof {
            assert(r@ =~= paths@.subrange(0, idx + 1));
        }
        idx += 1;
    }
    proof {
        assert(paths@.subrange(0, paths@.len() as int) =~= paths@);
    }
    r
}

/// The directives owed to the host build orchestrator for the winning
/// discovery result. Directives are emitted if and only if the result
/// requires linking: the strategies that configure linking themselves
/// must not be linked twice. On the Windows GNU family a single
/// alternately named library is linked dynamically; on the Windows
/// vendor family the primary name is linked statically; everywhere else
/// the client, TLS and cryptography libraries are linked, each in the
/// mode resolved for it.
pub fn link_directives(
    result: &DiscoveryResult,
    target: TargetFamily,
    client_mode: LinkMode,
    tls_mode: LinkMode,
    crypto_mode: LinkMode,
) -> (r: Option<LinkInstructions>)
    ensures
        r is Some <==> result.link_required,
        (r matches Some(out) ==> (out.search_paths@ == result.library_search_paths@ && {
            match target {
                TargetFamily::WindowsGnu => {
                    &&& out.libraries@.len() == 1
                    &&& out.libraries@[0].library_name@ == "mysql"@
                    &&& out.libraries@[0].mode == LinkMode::Dynamic
                },
                TargetFamily::WindowsMsvc => {
                    &&& out.libraries@.len() == 1
                    &&& out.libraries@[0].library_name@ == "mysqlclient"@
                    &&& out.libraries@[0].mode == LinkMode::Static
                },
                TargetFamily::Other => {
                    &&& out.libraries@.len() == 3
                    &&& out.libraries@[0].library_name@ == "mysqlclient"@
                    &&& out.libraries@[0].mode == client_mode
                    &&& out.libraries@[1].library_name@ == "ssl"@
                    &&& out.libraries@[1].mode == tls_mode
                    &&& out.libraries@[2].library_name@ == "crypto"@
                    &&& out.libraries@[2].mode == crypto_mode
                },
            }
        })),
{
    if !result.link_required {
        return None;
    }
    let search_paths = clone_strings(&result.library_search_paths);
    let mut libraries: Vec<LinkDirective> = Vec::new();
    match target {
        TargetFamily::WindowsGnu => {
            libraries.push(
                LinkDirective { library_name: String::from_str("mysql"), mode: LinkMode::Dynamic },
            );
        },
        TargetFamily::WindowsMsvc => {
            libraries.push(
                LinkDirective {
                    library_name: String::from_str("mysqlclient"),
                    mode: LinkMode::Static,
                },
            );
        },
        TargetFamily::Other => {
            libraries.push(
                LinkDirective { library_name: String::from_str("mysqlclient"), mode: client_mode },
            );
            libraries.push(
                LinkDirective { library_name: String::from_str("ssl"), mode: tls_mode },
            );
            libraries.push(
                LinkDirective { library_name: String::from_str("crypto"), mode: crypto_mode },
            );
        },
    }
    Some(LinkInstructions { search_paths, libraries })
}

/// The text of one search-path directive.
pub fn search_directive(path: &str) -> (r: String)
    ensures
        r@ == "cargo:rustc-link-search=native="@ + path@,
{
    String::from_str("cargo:rustc-link-search=native=").concat(path)
}

/// The directive word for a link mode.
pub open spec fn mode_text(mode: LinkMode) -> Seq<char> {
    match mode {
        LinkMode::Static => "static"@,
        LinkMode::Dynamic => "dylib"@,
    }
}

/// The text of one link-library directive.
pub fn link_lib_directive(directive: &LinkDirective) -> (r: String)
    ensures
        r@ == "cargo:rustc-link-lib="@ + mode_text(directive.mode) + "="@
            + directive.library_name@,
{
    let word = match directive.mode {
        LinkMode::Static => "static",
        LinkMode::Dynamic => "dylib",
    };
    String::from_str("cargo:rustc-link-lib=").concat(word).concat("=").concat(
        directive.library_name.as_str(),
    )
}

} // verus!
