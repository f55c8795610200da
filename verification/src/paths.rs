//! Filesystem probes and voice-asset path construction.
//!
//! Path strings are built and specified here; the single probe into the
//! machine's disk is the trusted `path_exists`.

use vstd::prelude::*;

verus! {

/// Relies on std::path::Path::exists: whether anything exists on disk at
/// this path at the moment of the call. The answer depends on the machine's
/// disk, so nothing is stated of the result.
#[verifier::external_body]
pub fn path_exists(path: &str) -> bool {
    std::path::Path::new(path).exists()
}

/// The voice model used when the configuration names none.
pub fn default_voice_model() -> (s: &'static str)
    ensures
        s@ == "en_US-amy-medium"@,
{
    "en_US-amy-medium"
}

/// The config JSON of a voice lives at
/// `<voices_dir>/<voice>/<voice>.onnx.json`, beside its model file.
pub open spec fn spec_voice_config_path(dir: Seq<char>, voice: Seq<char>) -> Seq<char> {
    dir + "/"@ + voice + "/"@ + voice + ".onnx.json"@
}

/// The path of a voice's config JSON under the voices directory.
pub fn voice_config(voices_dir: &str, voice_name: &str) -> (p: String)
    ensures
        p@ == spec_voice_config_path(voices_dir@, voice_name@),
{
    let mut p = voices_dir.to_owned();
    p.append("/");
    p.append(voice_name);
    p.append("/");
    p.append(voice_name);
    p.append(".onnx.json");
    p
}

/// The path of the default voice's config JSON.
pub fn default_voice_config(voices_dir: &str) -> (p: String)
    ensures
        p@ == spec_voice_config_path(voices_dir@, "en_US-amy-medium"@),
{
    voice_config(voices_dir, default_voice_model())
}

/// Whether this voice's config file is present under the voices directory.
/// The answer depends on the machine's disk.
pub fn voice_ready(voices_dir: &str, voice_name: &str) -> bool {
    let p = voice_config(voices_dir, voice_name);
    path_exists(p.as_str())
}

/// Whether the default voice's config file is present.
pub fn default_voice_ready(voices_dir: &str) -> bool {
    voice_ready(voices_dir, default_voice_model())
}

} // verus!
