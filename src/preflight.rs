use vstd::prelude::*;
use vstd::string::*;
use crate::config::Config;
use crate::launch::{artifacts_of, artifacts_view, describes, ArtifactKind, LaunchSpec, RequiredArtifact};
use crate::paths::TargetOs;

verus! {

/// A required artifact that was found missing before any spawn.
#[derive(Debug, Clone)]
pub struct MissingArtifact {
    pub kind: ArtifactKind,
    pub path: String,
}

/// `i` is the first position whose artifact is absent.
pub open spec fn is_first_missing(present: Seq<bool>, i: int) -> bool {
    &&& 0 <= i < present.len()
    &&& !present[i]
    &&& forall|j: int| 0 <= j < i ==> present[j]
}

/// `r` is the verdict owed for the artifacts and what was found of them:
/// success when all are present, else the first absent one, by kind and path.
pub open spec fn verdict(artifacts: Seq<RequiredArtifact>, present: Seq<bool>, r: Result<(), MissingArtifact>) -> bool {
    match r {
        Ok(()) => forall|i: int| 0 <= i < present.len() ==> #[trigger] present[i],
        Err(m) => exists|i: int|
            #![trigger present[i]]
            is_first_missing(present, i) && m.kind == artifacts[i].kind && m.path@ == artifacts[i].path@,
    }
}

/// Checks the artifacts in their fixed order against whether each was found
/// (`present[i]` for `artifacts[i]`), and reports the first one absent.
pub fn check_artifacts(artifacts: &Vec<RequiredArtifact>, present: &Vec<bool>) -> (r: Result<(), MissingArtifact>)
    requires
        present@.len() == artifacts@.len(),
    ensures
        verdict(artifacts@, present@, r),
{
    let mut i: usize = 0;
    while i < present.len()
        invariant
            i <= present@.len(),
            present@.len() == artifacts@.len(),
            forall|j: int| 0 <= j < i ==> present@[j],
        decreases present@.len() - i,
    {
        if !present[i] {
            let a = &artifacts[i];
            let m = MissingArtifact { kind: a.kind, path: a.path.clone() };
            assert(is_first_missing(present@, i as int));
            return Err(m);
        }
        i = i + 1;
    }
    Ok(())
}

/// Where both of two absent artifacts are named in a verdict, the earlier one
/// is reported and never the later one.
pub proof fn lemma_earliest_absent_is_reported(
    artifacts: Seq<RequiredArtifact>,
    present: Seq<bool>,
    r: Result<(), MissingArtifact>,
    i: int,
    k: int,
)
    requires
        verdict(artifacts, present, r),
        0 <= i < k < present.len(),
        !present[i],
        !present[k],
        forall|j: int| 0 <= j < i ==> present[j],
    ensures
        r is Err,
        r->Err_0.kind == artifacts[i].kind,
        r->Err_0.path@ == artifacts[i].path@,
{
    if r is Ok {
        assert(present[i]);
    } else {
        let t = choose|t: int| #![trigger present[t]] is_first_missing(present, t)
            && r->Err_0.kind == artifacts[t].kind && r->Err_0.path@ == artifacts[t].path@;
        if t < i {
            assert(present[t]);
        } else if t > i {
            assert(present[i]);
        }
    }
}

/// For a built launch specification whose executable is present, a missing
/// entry script is reported ahead of a missing dependency directory.
pub proof fn lemma_entry_script_reported_first(
    spec: LaunchSpec,
    config: Config,
    root: Seq<char>,
    data_root: Seq<char>,
    os: TargetOs,
    present: Seq<bool>,
    r: Result<(), MissingArtifact>,
)
    requires
        describes(spec, config, root, data_root, os),
        present.len() == spec.artifacts@.len(),
        verdict(spec.artifacts@, present, r),
        present[0],
        !present[1],
        !present[3],
    ensures
        r is Err,
        r->Err_0.kind == ArtifactKind::ServerScript,
        r->Err_0.path@ == spec.entry_script@,
{
    assert(artifacts_view(spec.artifacts@)[1] == artifacts_of(root, os)[1]);
    assert(artifacts_view(spec.artifacts@).len() == 5);
    lemma_earliest_absent_is_reported(spec.artifacts@, present, r, 1, 3);
}

/// A human-readable label for an artifact.
pub open spec fn label_of(kind: ArtifactKind) -> Seq<char> {
    match kind {
        ArtifactKind::NodeBinary => "Node.js binary"@,
        ArtifactKind::ServerScript => "Server.js"@,
        ArtifactKind::PackageManifest => "package.json"@,
        ArtifactKind::NodeModules => "node_modules"@,
        ArtifactKind::ServicesDir => "services"@,
    }
}

impl MissingArtifact {
    /// The message shown for this failure.
    pub fn message(&self) -> (r: String)
        ensures
            r@ == "ERROR: "@ + label_of(self.kind) + " not found at "@ + self.path@,
    {
        proof {
            reveal_strlit("ERROR: ");
            reveal_strlit(" not found at ");
            reveal_strlit("Node.js binary");
            reveal_strlit("Server.js");
            reveal_strlit("package.json");
            reveal_strlit("node_modules");
            reveal_strlit("services");
        }
        let label = match self.kind {
            ArtifactKind::NodeBinary => "Node.js binary",
            ArtifactKind::ServerScript => "Server.js",
            ArtifactKind::PackageManifest => "package.json",
            ArtifactKind::NodeModules => "node_modules",
            ArtifactKind::ServicesDir => "services",
        };
        let r = String::from_str("ERROR: ").concat(label).concat(" not found at ").concat(self.path.as_str());
        r
    }
}

} // verus!
