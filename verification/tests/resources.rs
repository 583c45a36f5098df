use server_supervisor::address::choose_local_ip;
use server_supervisor::errors::ServerError;
use server_supervisor::resources::{
    check_resources, get_resource_path, node_resource, resolve_paths, server_resource,
    ResolvedPaths,
};

#[test]
fn resource_path_joins_under_directory() {
    let dir = Some("/opt/app/resources".to_string());
    let p = get_resource_path(&dir, "binaries/node/node.exe");
    assert_eq!(p, Some("/opt/app/resources/binaries/node/node.exe".to_string()));
}

#[test]
fn resource_path_without_directory_is_none() {
    let p = get_resource_path(&None, "binaries/node/node.exe");
    assert_eq!(p, None);
}

#[test]
fn resolve_paths_yields_both_absolute_paths() {
    let dir = Some("/opt/app/resources".to_string());
    let paths = resolve_paths(&dir).unwrap();
    assert_eq!(paths.exe, "/opt/app/resources/binaries/node/node.exe");
    assert_eq!(paths.entry, "/opt/app/resources/binaries/server/dist/index.js");
}

#[test]
fn resolve_paths_without_directory_fails() {
    let r = resolve_paths(&None);
    assert_eq!(r, Err(ServerError::ResourceDirUnavailable));
    let msg = ServerError::ResourceDirUnavailable.message();
    assert_eq!(msg, "Resource directory unavailable");
}

#[test]
fn missing_executable_error_names_its_path() {
    let dir = Some("/bundle".to_string());
    let paths = resolve_paths(&dir).unwrap();
    let r = check_resources(&paths, false, true);
    let expected_path = "/bundle/binaries/node/node.exe".to_string();
    assert_eq!(r, Err(ServerError::MissingResource { path: expected_path.clone() }));
    let msg = ServerError::MissingResource { path: expected_path.clone() }.message();
    assert!(msg.contains(&expected_path));
    assert_eq!(msg, "Resource not found at: /bundle/binaries/node/node.exe");
}

#[test]
fn missing_entry_point_error_names_its_path() {
    let dir = Some("/bundle".to_string());
    let paths = resolve_paths(&dir).unwrap();
    let r = check_resources(&paths, true, false);
    assert_eq!(
        r,
        Err(ServerError::MissingResource {
            path: "/bundle/binaries/server/dist/index.js".to_string(),
        })
    );
}

#[test]
fn missing_both_reports_executable_first() {
    let paths = ResolvedPaths { exe: "/a/exe".to_string(), entry: "/a/entry".to_string() };
    let r = check_resources(&paths, false, false);
    assert_eq!(r, Err(ServerError::MissingResource { path: "/a/exe".to_string() }));
}

#[test]
fn both_resources_present_allows_launch() {
    let paths = ResolvedPaths { exe: "/a/exe".to_string(), entry: "/a/entry".to_string() };
    assert_eq!(check_resources(&paths, true, true), Ok(()));
}

#[test]
fn resource_names_are_fixed() {
    assert_eq!(node_resource(), "binaries/node/node.exe");
    assert_eq!(server_resource(), "binaries/server/dist/index.js");
}

#[test]
fn probed_address_is_kept() {
    assert_eq!(choose_local_ip(Some("192.168.7.7".to_string())), "192.168.7.7");
}

#[test]
fn failed_probe_falls_back_to_loopback() {
    assert_eq!(choose_local_ip(None), "127.0.0.1");
}

#[test]
fn error_messages_are_descriptive() {
    assert_eq!(ServerError::NotRunning.message(), "Server not running");
    assert_eq!(ServerError::LockFailure.message(), "Lock failure");
    assert_eq!(
        ServerError::LaunchFailed { reason: "boom".to_string() }.message(),
        "Failed to start server: boom"
    );
}
