use sidecar_supervisor::locator::{
    dev_script_path, generic_binary_name, qualified_binary_name, resolve_dev_sidecar,
    resolve_launch_command, resolve_sidecar_path, EnvVar, LaunchCommand, PackagedProbes,
    PathProbe, MAX_SEARCH_DEPTH,
};

fn probe(path: &str, exists: bool) -> PathProbe {
    PathProbe { path: path.to_string(), exists }
}

fn packaged(qualified: bool, generic: bool) -> Option<PackagedProbes> {
    Some(PackagedProbes {
        qualified: Some(probe("/opt/app/patze-api-x86_64-unknown-linux-gnu", qualified)),
        generic: probe("/opt/app/patze-api", generic),
    })
}

/// The probes taken on a platform that has no qualified name.
fn packaged_on_unknown_platform(generic: bool) -> Option<PackagedProbes> {
    Some(PackagedProbes { qualified: None, generic: probe("/opt/app/patze-api", generic) })
}

fn env(port: &str) -> Vec<EnvVar> {
    vec![
        EnvVar { name: "PORT".to_string(), value: port.to_string() },
        EnvVar { name: "HOST".to_string(), value: "127.0.0.1".to_string() },
    ]
}

fn chain(exists: &[bool]) -> Vec<PathProbe> {
    let mut out = Vec::new();
    for (i, e) in exists.iter().enumerate() {
        out.push(probe(&format!("/level{}/apps/api-server/src/index.ts", i), *e));
    }
    out
}

#[test]
fn candidate_names() {
    assert_eq!(
        qualified_binary_name("linux", "x86_64"),
        Some("patze-api-x86_64-unknown-linux-gnu".to_string())
    );
    assert_eq!(
        qualified_binary_name("linux", "aarch64"),
        Some("patze-api-aarch64-unknown-linux-gnu".to_string())
    );
    assert_eq!(
        qualified_binary_name("macos", "x86_64"),
        Some("patze-api-x86_64-apple-darwin".to_string())
    );
    assert_eq!(
        qualified_binary_name("macos", "aarch64"),
        Some("patze-api-aarch64-apple-darwin".to_string())
    );
    assert_eq!(
        qualified_binary_name("windows", "x86_64"),
        Some("patze-api-x86_64-pc-windows-msvc".to_string())
    );
    assert_eq!(generic_binary_name(), "patze-api");
    assert_eq!(dev_script_path(), "apps/api-server/src/index.ts");
    assert_eq!(MAX_SEARCH_DEPTH, 6);
}

#[test]
fn unknown_platform_has_no_qualified_name() {
    assert_eq!(qualified_binary_name("plan9", "mips"), None);
    assert_eq!(qualified_binary_name("windows", "aarch64"), None);
    assert_eq!(qualified_binary_name("linux", "riscv64"), None);
    assert_eq!(qualified_binary_name("", ""), None);
}

#[test]
fn unknown_platform_matches_generic_binary_or_nothing() {
    assert_eq!(resolve_sidecar_path(&packaged_on_unknown_platform(false)), None);
    assert_eq!(
        resolve_sidecar_path(&packaged_on_unknown_platform(true)),
        Some("/opt/app/patze-api".to_string())
    );
    assert_eq!(
        resolve_launch_command(9700, &packaged_on_unknown_platform(false), &chain(&[false])),
        None
    );
}

#[test]
fn packaged_prefers_qualified_name() {
    assert_eq!(
        resolve_sidecar_path(&packaged(true, true)),
        Some("/opt/app/patze-api-x86_64-unknown-linux-gnu".to_string())
    );
    assert_eq!(
        resolve_sidecar_path(&packaged(true, false)),
        Some("/opt/app/patze-api-x86_64-unknown-linux-gnu".to_string())
    );
}

#[test]
fn packaged_falls_back_to_generic_name() {
    assert_eq!(resolve_sidecar_path(&packaged(false, true)), Some("/opt/app/patze-api".to_string()));
}

#[test]
fn packaged_finds_nothing() {
    assert_eq!(resolve_sidecar_path(&packaged(false, false)), None);
    assert_eq!(resolve_sidecar_path(&None), None);
}

#[test]
fn dev_search_finds_script_in_working_directory() {
    let found = resolve_dev_sidecar(&chain(&[true, false, true]));
    assert_eq!(
        found,
        Some(("tsx".to_string(), vec!["/level0/apps/api-server/src/index.ts".to_string()]))
    );
}

#[test]
fn dev_search_finds_nearest_ancestor() {
    let found = resolve_dev_sidecar(&chain(&[false, false, true, true]));
    assert_eq!(
        found,
        Some(("tsx".to_string(), vec!["/level2/apps/api-server/src/index.ts".to_string()]))
    );
}

#[test]
fn dev_search_reaches_sixth_level() {
    let found = resolve_dev_sidecar(&chain(&[false, false, false, false, false, true]));
    assert_eq!(
        found,
        Some(("tsx".to_string(), vec!["/level5/apps/api-server/src/index.ts".to_string()]))
    );
}

#[test]
fn dev_search_stops_after_six_levels() {
    assert_eq!(resolve_dev_sidecar(&chain(&[false, false, false, false, false, false, true])), None);
    assert_eq!(
        resolve_dev_sidecar(&chain(&[false, false, false, false, false, false, true, true, true])),
        None
    );
}

#[test]
fn dev_search_stops_at_root() {
    assert_eq!(resolve_dev_sidecar(&chain(&[false, false])), None);
    assert_eq!(resolve_dev_sidecar(&chain(&[false])), None);
    assert_eq!(resolve_dev_sidecar(&chain(&[])), None);
}

#[test]
fn launch_command_for_packaged_binary() {
    let command = resolve_launch_command(9700, &packaged(true, true), &chain(&[true]));
    assert_eq!(
        command,
        Some(LaunchCommand {
            program: "/opt/app/patze-api-x86_64-unknown-linux-gnu".to_string(),
            args: vec![],
            env: env("9700"),
        })
    );
}

#[test]
fn launch_command_prefers_generic_binary_over_script() {
    let command = resolve_launch_command(51234, &packaged(false, true), &chain(&[true]));
    assert_eq!(
        command,
        Some(LaunchCommand {
            program: "/opt/app/patze-api".to_string(),
            args: vec![],
            env: env("51234"),
        })
    );
}

#[test]
fn launch_command_for_dev_script() {
    let command = resolve_launch_command(9700, &packaged(false, false), &chain(&[false, true]));
    assert_eq!(
        command,
        Some(LaunchCommand {
            program: "tsx".to_string(),
            args: vec!["/level1/apps/api-server/src/index.ts".to_string()],
            env: env("9700"),
        })
    );
    let without_exe_dir = resolve_launch_command(9700, &None, &chain(&[true]));
    assert_eq!(
        without_exe_dir,
        Some(LaunchCommand {
            program: "tsx".to_string(),
            args: vec!["/level0/apps/api-server/src/index.ts".to_string()],
            env: env("9700"),
        })
    );
}

#[test]
fn launch_command_not_found() {
    assert_eq!(resolve_launch_command(9700, &packaged(false, false), &chain(&[false; 6])), None);
    assert_eq!(
        resolve_launch_command(
            9700,
            &packaged(false, false),
            &chain(&[false, false, false, false, false, false, true])
        ),
        None
    );
    assert_eq!(resolve_launch_command(9700, &None, &chain(&[])), None);
}

#[test]
fn launch_command_env_carries_port_in_decimal() {
    let command = resolve_launch_command(80, &packaged(true, false), &chain(&[])).unwrap();
    assert_eq!(command.env.len(), 2);
    assert_eq!(command.env[0].name, "PORT");
    assert_eq!(command.env[0].value, "80");
    assert_eq!(command.env[1].name, "HOST");
    assert_eq!(command.env[1].value, "127.0.0.1");
    let high = resolve_launch_command(65535, &packaged(true, false), &chain(&[])).unwrap();
    assert_eq!(high.env[0].value, "65535");
}
