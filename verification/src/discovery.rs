//! Discovery of the client library's search and include paths.
//!
//! Four strategies are consulted in a fixed priority order: the explicit
//! environment override, the system package-metadata registry, the
//! platform package manager, and the vendor configuration tool. The first
//! strategy that resolves wins; nothing is merged. The unverified shell
//! performs the external reads (environment, processes) and hands their
//! outcomes in as plain values.

use crate::text::{join_path, trim_ascii, trim_text};
use vstd::prelude::*;
use vstd::string::*;

verus! {

/// The winning strategy's answer: where to search for the library, where
/// its headers live, and whether link directives must still be emitted.
/// The registry and package-manager strategies configure linking
/// themselves, so a result they produced must not be linked again.
pub struct DiscoveryResult {
    pub library_search_paths: Vec<String>,
    pub include_paths: Vec<String>,
    pub link_required: bool,
}

/// The text carried by an optional string.
pub open spec fn opt_text(o: Option<String>) -> Option<Seq<char>> {
    match o {
        Option::Some(s) => Option::Some(s@),
        Option::None => Option::None,
    }
}

/// What the environment strategy resolves from the two explicit directory
/// variables and the combined root variable: both explicit values when
/// present, otherwise each missing one derived from the root.
pub open spec fn env_paths(
    lib_dir: Option<Seq<char>>,
    include_dir: Option<Seq<char>>,
    base_dir: Option<Seq<char>>,
) -> Option<(Seq<char>, Seq<char>)> {
    match (lib_dir, include_dir) {
        (Option::Some(l), Option::Some(i)) => Option::Some((l, i)),
        _ => match base_dir {
            Option::None => Option::None,
            Option::Some(b) => Option::Some(
                (
                    match lib_dir {
                        Option::Some(l) => l,
                        Option::None => b + "/"@ + "lib"@,
                    },
                    match include_dir {
                        Option::Some(i) => i,
                        Option::None => b + "/"@ + "include"@,
                    },
                ),
            ),
        },
    }
}

/// The environment-override strategy. `lib_dir` and `include_dir` are the
/// values of the explicit directory variables, `base_dir` the value of the
/// combined root variable; each is absent when the variable is unset.
pub fn try_env_variables(
    lib_dir: Option<String>,
    include_dir: Option<String>,
    base_dir: Option<String>,
) -> (r: Option<(String, String)>)
    ensures
        match r {
            Option::Some(p) => env_paths(
                opt_text(lib_dir),
                opt_text(include_dir),
                opt_text(base_dir),
            ) == Option::Some((p.0@, p.1@)),
            Option::None => env_paths(
                opt_text(lib_dir),
                opt_text(include_dir),
                opt_text(base_dir),
            ) is None,
        },
{
    if lib_dir.is_some() && include_dir.is_some() {
        Some((lib_dir.unwrap(), include_dir.unwrap()))
    } else {
        match base_dir {
            None => None,
            Some(base) => {
                let l = match lib_dir {
                    Some(l) => l,
                    None => join_path(base.as_str(), "lib"),
                };
                let i = match include_dir {
                    Some(i) => i,
                    None => join_path(base.as_str(), "include"),
                };
                Some((l, i))
            },
        }
    }
}

/// What one vendor-tool query yields: the trimmed standard output of the
/// tool, absent when the tool failed or printed only whitespace.
pub open spec fn mysql_config_value(output: Option<Seq<char>>) -> Option<Seq<char>> {
    match output {
        Option::None => Option::None,
        Option::Some(s) => if trim_text(s).len() == 0 {
            Option::None
        } else {
            Option::Some(trim_text(s))
        },
    }
}

/// One vendor-tool variable query. `output` is the tool's standard output
/// when it ran and exited successfully with readable text, and absent
/// otherwise; a missing tool, a failed run and unreadable output all
/// collapse to the same empty answer.
pub fn mysql_config_variable(output: Option<String>) -> (r: Option<String>)
    ensures
        match r {
            Option::Some(v) => mysql_config_value(opt_text(output)) == Option::Some(v@),
            Option::None => mysql_config_value(opt_text(output)) is None,
        },
{
    match output {
        None => None,
        Some(s) => {
            let t = trim_ascii(s.as_str());
            if t.as_str().unicode_len() == 0 {
                None
            } else {
                Some(t)
            }
        },
    }
}

/// The argument handed to the vendor configuration tool to query one of
/// its variables.
pub fn mysql_config_argument(var_name: &str) -> (r: String)
    ensures
        r@ == "--variable="@ + var_name@,
{
    String::from_str("--variable=").concat(var_name)
}

/// The platform package manager is consulted only on Windows vendor
/// toolchains; on every other target the probe reports no result. The
/// unverified shell performs the real query where it applies.
pub fn try_vcpkg(_should_link: bool) -> (r: Result<(Vec<String>, Vec<String>), ()>)
    ensures
        r is Err,
{
    Err(())
}

/// The fatal outcome when every discovery strategy has reported nothing.
/// There is no retry and no default: the build cannot continue.
pub struct DiscoveryExhausted;

/// The diagnostic for an exhausted discovery, naming every alternative
/// that was tried and the variables that bypass discovery entirely.
pub open spec fn exhaustion_message_text() -> Seq<char> {
    "Could not find `mysqlclient` lib. Either `pkg-config`, `vcpkg` or `mysql_config` needs to be installed or the environment flags `MYSQLCLIENT_LIB_DIR` and `MYSQLCLIENT_INCLUDE_DIR` need to be set."@
}

impl DiscoveryExhausted {
    pub fn message(&self) -> (r: String)
        ensures
            r@ == exhaustion_message_text(),
    {
        String::from_str(
            "Could not find `mysqlclient` lib. Either `pkg-config`, `vcpkg` or `mysql_config` needs to be installed or the environment flags `MYSQLCLIENT_LIB_DIR` and `MYSQLCLIENT_INCLUDE_DIR` need to be set.",
        )
    }
}

/// The discovery orchestrator. Strategy outcomes arrive as plain values:
/// the three environment variables, the package-metadata registry's
/// answer, the platform package manager's answer, and the raw output of
/// the two vendor-tool queries. Strategies are ranked environment first,
/// then registry, then package manager, then vendor tool; the first that
/// resolves supplies the result alone, and only when all four fail is the
/// exhaustion error returned.
pub fn probe_libs(
    env_lib_dir: Option<String>,
    env_include_dir: Option<String>,
    env_base_dir: Option<String>,
    pkg_config_paths: Option<(Vec<String>, Vec<String>)>,
    vcpkg_paths: Option<(Vec<String>, Vec<String>)>,
    mysql_config_libdir: Option<String>,
    mysql_config_includedir: Option<String>,
    should_link: bool,
) -> (r: Result<DiscoveryResult, DiscoveryExhausted>)
    ensures
        ({
            let env = env_paths(opt_text(env_lib_dir), opt_text(env_include_dir), opt_text(env_base_dir));
            let ml = mysql_config_value(opt_text(mysql_config_libdir));
            let mi = mysql_config_value(opt_text(mysql_config_includedir));
            &&& (r is Err <==> {
                &&& env is None
                &&& pkg_config_paths is None
                &&& vcpkg_paths is None
                &&& !(ml is Some && mi is Some)
            })
            &&& (env matches Some(p) ==> (r matches Ok(d) && {
                &&& d.library_search_paths@.len() == 1
                &&& d.library_search_paths@[0]@ == p.0
                &&& d.include_paths@.len() == 1
                &&& d.include_paths@[0]@ == p.1
                &&& d.link_required == should_link
            }))
            &&& (env is None ==> (pkg_config_paths matches Some(p) ==> (r matches Ok(d) && {
                &&& d.library_search_paths == p.0
                &&& d.include_paths == p.1
                &&& !d.link_required
            })))
            &&& ((env is None && pkg_config_paths is None) ==> (vcpkg_paths matches Some(p) ==> (
            r matches Ok(d) && {
                &&& d.library_search_paths == p.0
                &&& d.include_paths == p.1
                &&& !d.link_required
            })))
            &&& ((env is None && pkg_config_paths is None && vcpkg_paths is None) ==> (ml matches Some(
                l,
            ) ==> (mi matches Some(i) ==> (r matches Ok(d) && {
                &&& d.library_search_paths@.len() == 1
                &&& d.library_search_paths@[0]@ == l
                &&& d.include_paths@.len() == 1
                &&& d.include_paths@[0]@ == i
                &&& d.link_required == should_link
            }))))
        }),
{
    if let Some((lib, inc)) = try_env_variables(env_lib_dir, env_include_dir, env_base_dir) {
        let mut search: Vec<String> = Vec::new();
        search.push(lib);
        let mut includes: Vec<String> = Vec::new();
        includes.push(inc);
        Ok(
            DiscoveryResult {
                library_search_paths: search,
                include_paths: includes,
                link_required: should_link,
            },
        )
    } else if let Some((search, includes)) = pkg_config_paths {
        Ok(
            DiscoveryResult {
                library_search_paths: search,
                include_paths: includes,
                link_required: false,
            },
        )
    } else if let Some((search, includes)) = vcpkg_paths {
        Ok(
            DiscoveryResult {
                library_search_paths: search,
                include_paths: includes,
                link_required: false,
            },
        )
    } else {
        let lib = mysql_config_variable(mysql_config_libdir);
        let inc = mysql_config_variable(mysql_config_includedir);
        match (lib, inc) {
            (Some(l), Some(i)) => {
                let mut search: Vec<String> = Vec::new();
                search.push(l);
                let mut includes: Vec<String> = Vec::new();
                includes.push(i);
                Ok(
                    DiscoveryResult {
                        library_search_paths: search,
                        include_paths: includes,
                        link_required: should_link,
                    },
                )
            },
            _ => Err(DiscoveryExhausted),
        }
    }
}

} // verus!
