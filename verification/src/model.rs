//! Provisioning of the speech-recognition model artifact: where it lives
//! under the application data directory, and when a download is needed.
//! The fetch itself (one HTTPS GET, written atomically) is the runtime's
//! job; the rule decided here is that it happens only when the artifact is
//! absent.

use vstd::prelude::*;

use vstd::string::StringExecFns;

verus! {

/// What provisioning does next.
#[derive(Clone, Copy, Debug, PartialEq, Eq, Structural)]
pub enum ModelAction {
    /// The artifact is already cached: do nothing.
    UseExisting,
    /// The artifact is absent: fetch it from the fixed remote location.
    Download,
}

/// The action provisioning plans for a given cache state.
pub open spec fn spec_plan_model_fetch(artifact_exists: bool) -> ModelAction {
    if artifact_exists {
        ModelAction::UseExisting
    } else {
        ModelAction::Download
    }
}

/// Decide whether the model must be fetched: a download is planned exactly
/// when the artifact is absent from the cache.
pub fn plan_model_fetch(artifact_exists: bool) -> (r: ModelAction)
    ensures
        r == spec_plan_model_fetch(artifact_exists),
        (r is UseExisting) <==> artifact_exists,
{
    if artifact_exists {
        ModelAction::UseExisting
    } else {
        ModelAction::Download
    }
}

/// Provisioning is idempotent: once the artifact exists — in particular
/// right after a fetch that succeeded — every later check plans no download,
/// so a second call performs no network access.
pub proof fn lemma_provisioning_idempotent()
    ensures
        spec_plan_model_fetch(true) is UseExisting,
{
}

/// The fixed cache location of the model artifact under the application
/// data directory.
pub fn model_artifact_path(app_data_dir: &str) -> (r: String)
    ensures
        r@ == app_data_dir@ + "/models/ggml-base.bin"@,
{
    let mut r: String = String::from_str(app_data_dir);
    r.append("/models/ggml-base.bin");
    r
}

} // verus!
