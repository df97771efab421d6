use vstd::prelude::*;
use vstd::string::*;
use crate::config::Config;
use crate::paths::{get_database_path, join, joined, normalized, strip_extended_length_prefix, TargetOs};

verus! {

/// The character of a decimal digit.
pub open spec fn digit_char(d: nat) -> char {
    if d == 0 { '0' }
    else if d == 1 { '1' }
    else if d == 2 { '2' }
    else if d == 3 { '3' }
    else if d == 4 { '4' }
    else if d == 5 { '5' }
    else if d == 6 { '6' }
    else if d == 7 { '7' }
    else if d == 8 { '8' }
    else { '9' }
}

/// The decimal notation of `n`, without leading zeros.
pub open spec fn decimal(n: nat) -> Seq<char>
    decreases n,
{
    if n < 10 {
        seq![digit_char(n)]
    } else {
        decimal(n / 10).push(digit_char(n % 10))
    }
}

fn digit_str(d: u32) -> (r: &'static str)
    requires
        d < 10,
    ensures
        r@ == seq![digit_char(d as nat)],
{
    proof {
        reveal_strlit("0");
        reveal_strlit("1");
        reveal_strlit("2");
        reveal_strlit("3");
        reveal_strlit("4");
        reveal_strlit("5");
        reveal_strlit("6");
        reveal_strlit("7");
        reveal_strlit("8");
        reveal_strlit("9");
    }
    let r = if d == 0 { "0" }
    else if d == 1 { "1" }
    else if d == 2 { "2" }
    else if d == 3 { "3" }
    else if d == 4 { "4" }
    else if d == 5 { "5" }
    else if d == 6 { "6" }
    else if d == 7 { "7" }
    else if d == 8 { "8" }
    else { "9" };
    assert(r@ =~= seq![digit_char(d as nat)]);
    r
}

fn append_decimal(n: u32, out: &mut String)
    ensures
        final(out)@ == old(out)@ + decimal(n as nat),
    decreases n,
{
    if n >= 10 {
        append_decimal(n / 10, out);
    }
    out.append(digit_str(n % 10));
    assert(final(out)@ =~= old(out)@ + decimal(n as nat));
}

/// The decimal notation of a port number.
pub fn port_string(port: u16) -> (r: String)
    ensures
        r@ == decimal(port as nat),
{
    let mut r = String::new();
    append_decimal(port as u32, &mut r);
    assert(r@ =~= decimal(port as nat));
    r
}

/// The local address of the web interface.
pub open spec fn web_url_for(port: u16) -> Seq<char> {
    "http://localhost:"@ + decimal(port as nat)
}

/// The address of the web interface served on the configured port.
pub fn get_web_url(config: &Config) -> (r: String)
    ensures
        r@ == web_url_for(config.web_port),
{
    proof {
        reveal_strlit("http://localhost:");
    }
    let port = port_string(config.web_port);
    String::from_str("http://localhost:").concat(port.as_str())
}


/// A filesystem artifact that must exist before the server is spawned.
#[derive(Debug, Clone, Copy, PartialEq, Eq, Structural)]
pub enum ArtifactKind {
    /// The bundled runtime executable.
    NodeBinary,
    /// The server's entry script.
    ServerScript,
    /// The package manifest of the distribution.
    PackageManifest,
    /// The dependency directory of the distribution.
    NodeModules,
    /// The services directory beside the server.
    ServicesDir,
}

/// One required artifact and where it is expected.
#[derive(Debug, Clone)]
pub struct RequiredArtifact {
    pub kind: ArtifactKind,
    pub path: String,
}

/// How to run the server for one start attempt.
#[derive(Debug, Clone)]
pub struct LaunchSpec {
    /// The runtime executable.
    pub executable: String,
    /// The server's entry script.
    pub entry_script: String,
    /// Working directory of the child.
    pub working_dir: String,
    /// Arguments handed to the executable, in order.
    pub args: Vec<String>,
    /// Environment variables handed to the child, in order.
    pub env: Vec<(String, String)>,
    /// Artifacts checked before spawning, in the order they are checked.
    pub artifacts: Vec<RequiredArtifact>,
}

/// The executable's file name on a platform.
pub open spec fn executable_name(os: TargetOs) -> Seq<char> {
    match os {
        TargetOs::Windows => "node.exe"@,
        TargetOs::Other => "node"@,
    }
}

/// The distribution directory, which is the child's working directory.
pub open spec fn working_dir_of(root: Seq<char>, os: TargetOs) -> Seq<char> {
    joined(normalized(root, os), "dist"@, os)
}

/// The runtime executable under the resource root.
pub open spec fn executable_of(root: Seq<char>, os: TargetOs) -> Seq<char> {
    joined(joined(normalized(root, os), "binaries"@, os), executable_name(os), os)
}

/// The entry script under the working directory.
pub open spec fn entry_script_of(root: Seq<char>, os: TargetOs) -> Seq<char> {
    joined(joined(working_dir_of(root, os), "server"@, os), "server.js"@, os)
}

/// The artifacts that must exist, in the order they are checked.
pub open spec fn artifacts_of(root: Seq<char>, os: TargetOs) -> Seq<(ArtifactKind, Seq<char>)> {
    let dist = working_dir_of(root, os);
    seq![
        (ArtifactKind::NodeBinary, executable_of(root, os)),
        (ArtifactKind::ServerScript, entry_script_of(root, os)),
        (ArtifactKind::PackageManifest, joined(dist, "package.json"@, os)),
        (ArtifactKind::NodeModules, joined(dist, "node_modules"@, os)),
        (ArtifactKind::ServicesDir, joined(dist, "services"@, os)),
    ]
}

/// The environment the child receives, in order.
pub open spec fn env_of(config: Config, data_root: Seq<char>, os: TargetOs) -> Seq<(Seq<char>, Seq<char>)> {
    seq![
        ("NODE_ENV"@, "production"@),
        ("PORT"@, decimal(config.web_port as nat)),
        ("MESHTASTIC_NODE_IP"@, config.meshtastic_ip@),
        ("MESHTASTIC_TCP_PORT"@, decimal(config.meshtastic_port as nat)),
        ("DATABASE_PATH"@, joined(data_root, "meshmonitor.db"@, os)),
        ("SESSION_SECRET"@, config.session_secret@),
        ("ALLOWED_ORIGINS"@, web_url_for(config.web_port)),
    ]
}

/// The character sequences held by a list of variables.
pub open spec fn env_view(env: Seq<(String, String)>) -> Seq<(Seq<char>, Seq<char>)> {
    env.map_values(|p: (String, String)| (p.0@, p.1@))
}

/// The kinds and paths held by a list of artifacts.
pub open spec fn artifacts_view(a: Seq<RequiredArtifact>) -> Seq<(ArtifactKind, Seq<char>)> {
    a.map_values(|x: RequiredArtifact| (x.kind, x.path@))
}

/// `spec` is the launch specification for the given record, resource root,
/// data root and platform.
pub open spec fn describes(spec: LaunchSpec, config: Config, root: Seq<char>, data_root: Seq<char>, os: TargetOs) -> bool {
    &&& spec.executable@ == executable_of(root, os)
    &&& spec.entry_script@ == entry_script_of(root, os)
    &&& spec.working_dir@ == working_dir_of(root, os)
    &&& spec.args@.len() == 1
    &&& spec.args@[0]@ == entry_script_of(root, os)
    &&& env_view(spec.env@) == env_of(config, data_root, os)
    &&& artifacts_view(spec.artifacts@) == artifacts_of(root, os)
}

fn var(key: &str, value: String) -> (r: (String, String))
    ensures
        r.0@ == key@,
        r.1@ == value@,
{
    (String::from_str(key), value)
}

fn artifact(kind: ArtifactKind, path: String) -> (r: RequiredArtifact)
    ensures
        r.kind == kind,
        r.path@ == path@,
{
    RequiredArtifact { kind, path }
}

/// Derives how to run the server from the settings record, the resource
/// root, the data root and the platform. Nothing is read or written.
pub fn build_launch_spec(config: &Config, resource_root: &str, data_root: &str, os: TargetOs) -> (r: LaunchSpec)
    ensures
        describes(r, *config, resource_root@, data_root@, os),
{
    proof {
        reveal_strlit("dist");
        reveal_strlit("binaries");
        reveal_strlit("node.exe");
        reveal_strlit("node");
        reveal_strlit("server");
        reveal_strlit("server.js");
        reveal_strlit("package.json");
        reveal_strlit("node_modules");
        reveal_strlit("services");
        reveal_strlit("NODE_ENV");
        reveal_strlit("production");
        reveal_strlit("PORT");
        reveal_strlit("MESHTASTIC_NODE_IP");
        reveal_strlit("MESHTASTIC_TCP_PORT");
        reveal_strlit("DATABASE_PATH");
        reveal_strlit("SESSION_SECRET");
        reveal_strlit("ALLOWED_ORIGINS");
    }
    let root = strip_extended_length_prefix(String::from_str(resource_root), os);
    let exe_name = match os {
        TargetOs::Windows => "node.exe",
        TargetOs::Other => "node",
    };
    let binaries = join(root.as_str(), "binaries", os);
    let executable = join(binaries.as_str(), exe_name, os);
    let working_dir = join(root.as_str(), "dist", os);
    let server_dir = join(working_dir.as_str(), "server", os);
    let entry_script = join(server_dir.as_str(), "server.js", os);

    let mut args: Vec<String> = Vec::new();
    args.push(entry_script.clone());

    let mut env: Vec<(String, String)> = Vec::new();
    env.push(var("NODE_ENV", String::from_str("production")));
    env.push(var("PORT", port_string(config.web_port)));
    env.push(var("MESHTASTIC_NODE_IP", config.meshtastic_ip.clone()));
    env.push(var("MESHTASTIC_TCP_PORT", port_string(config.meshtastic_port)));
    env.push(var("DATABASE_PATH", get_database_path(data_root, os)));
    env.push(var("SESSION_SECRET", config.session_secret.clone()));
    env.push(var("ALLOWED_ORIGINS", get_web_url(config)));

    let mut artifacts: Vec<RequiredArtifact> = Vec::new();
    artifacts.push(artifact(ArtifactKind::NodeBinary, executable.clone()));
    artifacts.push(artifact(ArtifactKind::ServerScript, entry_script.clone()));
    artifacts.push(artifact(ArtifactKind::PackageManifest, join(working_dir.as_str(), "package.json", os)));
    artifacts.push(artifact(ArtifactKind::NodeModules, join(working_dir.as_str(), "node_modules", os)));
    artifacts.push(artifact(ArtifactKind::ServicesDir, join(working_dir.as_str(), "services", os)));

    assert(env_view(env@) =~= env_of(*config, data_root@, os));
    assert(artifacts_view(artifacts@) =~= artifacts_of(resource_root@, os));
    LaunchSpec { executable, entry_script, working_dir, args, env, artifacts }
}

/// Building twice from the same record, resource root, data root and
/// platform gives the same executable, entry script, working directory,
/// arguments, environment and artifact list.
pub proof fn lemma_build_is_deterministic(
    config: Config,
    root: Seq<char>,
    data_root: Seq<char>,
    os: TargetOs,
    a: LaunchSpec,
    b: LaunchSpec,
)
    requires
        describes(a, config, root, data_root, os),
        describes(b, config, root, data_root, os),
    ensures
        a.executable@ == b.executable@,
        a.entry_script@ == b.entry_script@,
        a.working_dir@ == b.working_dir@,
        a.args@.map_values(|s: String| s@) == b.args@.map_values(|s: String| s@),
        env_view(a.env@) == env_view(b.env@),
        artifacts_view(a.artifacts@) == artifacts_view(b.artifacts@),
{
    assert(a.args@.map_values(|s: String| s@) =~= b.args@.map_values(|s: String| s@));
}

} // verus!
