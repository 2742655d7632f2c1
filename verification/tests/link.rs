use mysqlclient_build::discovery::DiscoveryResult;
use mysqlclient_build::link::{
    determine_mode, link_directives, link_lib_directive, search_directive,
    static_archive_candidates, static_archive_name, LinkMode, TargetFamily,
};

fn s(text: &str) -> String {
    text.to_string()
}

fn discovered(link_required: bool) -> DiscoveryResult {
    DiscoveryResult {
        library_search_paths: vec![s("/usr/lib/mysql"), s("/usr/lib")],
        include_paths: vec![s("/usr/include/mysql")],
        link_required,
    }
}

#[test]
fn override_zero_forces_dynamic() {
    assert_eq!(determine_mode(Some(s("0")), true), LinkMode::Dynamic);
}

#[test]
fn override_other_forces_static() {
    assert_eq!(determine_mode(Some(s("1")), false), LinkMode::Static);
    assert_eq!(determine_mode(Some(s("true")), false), LinkMode::Static);
}

#[test]
fn archive_presence_decides_without_override() {
    assert_eq!(determine_mode(None, true), LinkMode::Static);
    assert_eq!(determine_mode(None, false), LinkMode::Dynamic);
}

#[test]
fn archive_name_follows_convention() {
    assert_eq!(static_archive_name("mysqlclient"), s("libmysqlclient.a"));
    assert_eq!(static_archive_name("ssl"), s("libssl.a"));
}

#[test]
fn archive_candidates_cover_every_search_path() {
    let dirs = vec![s("/a"), s("/b/c")];
    assert_eq!(
        static_archive_candidates(&dirs, "crypto"),
        vec![s("/a/libcrypto.a"), s("/b/c/libcrypto.a")]
    );
}

#[test]
fn no_directives_when_linking_is_preconfigured() {
    let r = link_directives(
        &discovered(false),
        TargetFamily::Other,
        LinkMode::Static,
        LinkMode::Static,
        LinkMode::Static,
    );
    assert!(r.is_none());
}

#[test]
fn directives_for_ordinary_targets() {
    let out = link_directives(
        &discovered(true),
        TargetFamily::Other,
        LinkMode::Static,
        LinkMode::Dynamic,
        LinkMode::Dynamic,
    )
    .unwrap();
    assert_eq!(out.search_paths, vec![s("/usr/lib/mysql"), s("/usr/lib")]);
    assert_eq!(out.libraries.len(), 3);
    assert_eq!(out.libraries[0].library_name, s("mysqlclient"));
    assert_eq!(out.libraries[0].mode, LinkMode::Static);
    assert_eq!(out.libraries[1].library_name, s("ssl"));
    assert_eq!(out.libraries[1].mode, LinkMode::Dynamic);
    assert_eq!(out.libraries[2].library_name, s("crypto"));
    assert_eq!(out.libraries[2].mode, LinkMode::Dynamic);
}

#[test]
fn directives_for_windows_gnu() {
    let out = link_directives(
        &discovered(true),
        TargetFamily::WindowsGnu,
        LinkMode::Static,
        LinkMode::Static,
        LinkMode::Static,
    )
    .unwrap();
    assert_eq!(out.libraries.len(), 1);
    assert_eq!(out.libraries[0].library_name, s("mysql"));
    assert_eq!(out.libraries[0].mode, LinkMode::Dynamic);
}

#[test]
fn directives_for_windows_msvc() {
    let out = link_directives(
        &discovered(true),
        TargetFamily::WindowsMsvc,
        LinkMode::Dynamic,
        LinkMode::Dynamic,
        LinkMode::Dynamic,
    )
    .unwrap();
    assert_eq!(out.libraries.len(), 1);
    assert_eq!(out.libraries[0].library_name, s("mysqlclient"));
    assert_eq!(out.libraries[0].mode, LinkMode::Static);
}

#[test]
fn directive_texts() {
    assert_eq!(
        search_directive("/usr/lib/mysql"),
        s("cargo:rustc-link-search=native=/usr/lib/mysql")
    );
    let out = link_directives(
        &discovered(true),
        TargetFamily::Other,
        LinkMode::Static,
        LinkMode::Dynamic,
        LinkMode::Static,
    )
    .unwrap();
    assert_eq!(
        link_lib_directive(&out.libraries[0]),
        s("cargo:rustc-link-lib=static=mysqlclient")
    );
    assert_eq!(link_lib_directive(&out.libraries[1]), s("cargo:rustc-link-lib=dylib=ssl"));
}
