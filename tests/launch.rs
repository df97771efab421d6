use meshmonitor_desktop::config::Config;
use meshmonitor_desktop::launch::{build_launch_spec, get_web_url, port_string, ArtifactKind, LaunchSpec};
use meshmonitor_desktop::paths::TargetOs;
use meshmonitor_desktop::preflight::check_artifacts;

fn sample_config() -> Config {
    let mut c = Config::with_secret(String::from("feedface"));
    c.meshtastic_ip = String::from("192.168.1.50");
    c.meshtastic_port = 4403;
    c.web_port = 9090;
    c.setup_completed = true;
    c
}

fn env_value<'a>(spec: &'a LaunchSpec, key: &str) -> &'a str {
    spec.env.iter().find(|(k, _)| k == key).map(|(_, v)| v.as_str()).unwrap()
}

#[test]
fn port_strings() {
    assert_eq!(port_string(0), "0");
    assert_eq!(port_string(7), "7");
    assert_eq!(port_string(4403), "4403");
    assert_eq!(port_string(65535), "65535");
}

#[test]
fn web_url_of_configured_port() {
    assert_eq!(get_web_url(&sample_config()), "http://localhost:9090");
    let d = Config::with_secret(String::from("x"));
    assert_eq!(get_web_url(&d), "http://localhost:8080");
}

#[test]
fn launch_spec_on_unix() {
    let s = build_launch_spec(&sample_config(), "/opt/mm/resources", "/home/u/.local/share/MeshMonitor", TargetOs::Other);
    assert_eq!(s.executable, "/opt/mm/resources/binaries/node");
    assert_eq!(s.working_dir, "/opt/mm/resources/dist");
    assert_eq!(s.entry_script, "/opt/mm/resources/dist/server/server.js");
    assert_eq!(s.args, vec![String::from("/opt/mm/resources/dist/server/server.js")]);
    let keys: Vec<&str> = s.env.iter().map(|(k, _)| k.as_str()).collect();
    assert_eq!(keys, vec!["NODE_ENV", "PORT", "MESHTASTIC_NODE_IP", "MESHTASTIC_TCP_PORT", "DATABASE_PATH", "SESSION_SECRET", "ALLOWED_ORIGINS"]);
    assert_eq!(env_value(&s, "NODE_ENV"), "production");
    assert_eq!(env_value(&s, "PORT"), "9090");
    assert_eq!(env_value(&s, "MESHTASTIC_NODE_IP"), "192.168.1.50");
    assert_eq!(env_value(&s, "MESHTASTIC_TCP_PORT"), "4403");
    assert_eq!(env_value(&s, "DATABASE_PATH"), "/home/u/.local/share/MeshMonitor/meshmonitor.db");
    assert_eq!(env_value(&s, "SESSION_SECRET"), "feedface");
    assert_eq!(env_value(&s, "ALLOWED_ORIGINS"), "http://localhost:9090");
    let kinds: Vec<ArtifactKind> = s.artifacts.iter().map(|a| a.kind).collect();
    assert_eq!(kinds, vec![ArtifactKind::NodeBinary, ArtifactKind::ServerScript, ArtifactKind::PackageManifest, ArtifactKind::NodeModules, ArtifactKind::ServicesDir]);
    assert_eq!(s.artifacts[2].path, "/opt/mm/resources/dist/package.json");
    assert_eq!(s.artifacts[3].path, "/opt/mm/resources/dist/node_modules");
    assert_eq!(s.artifacts[4].path, "/opt/mm/resources/dist/services");
}

#[test]
fn launch_spec_on_windows_strips_prefix() {
    let s = build_launch_spec(&sample_config(), r"\\?\C:\app\resources", r"C:\data\MeshMonitor", TargetOs::Windows);
    assert_eq!(s.executable, r"C:\app\resources\binaries\node.exe");
    assert_eq!(s.working_dir, r"C:\app\resources\dist");
    assert_eq!(s.entry_script, r"C:\app\resources\dist\server\server.js");
    assert_eq!(env_value(&s, "DATABASE_PATH"), r"C:\data\MeshMonitor\meshmonitor.db");
}

#[test]
fn launch_spec_is_deterministic() {
    let c = sample_config();
    let a = build_launch_spec(&c, "/r", "/d", TargetOs::Other);
    let b = build_launch_spec(&c, "/r", "/d", TargetOs::Other);
    assert_eq!(a.executable, b.executable);
    assert_eq!(a.working_dir, b.working_dir);
    assert_eq!(a.args, b.args);
    assert_eq!(a.env, b.env);
}

#[test]
fn end_to_end_web_url_and_preflight() {
    let c = sample_config();
    assert!(!c.needs_setup());
    assert_eq!(get_web_url(&c), "http://localhost:9090");
    let s = build_launch_spec(&c, "/r", "/d", TargetOs::Other);
    assert!(check_artifacts(&s.artifacts, &vec![true; 5]).is_ok());
}
