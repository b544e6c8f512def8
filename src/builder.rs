use vstd::prelude::*;
use vstd::utf8::{decode_utf8, valid_utf8};

verus! {

/// The profile the build tool is asked for.
#[derive(Clone, Copy, Debug, PartialEq, Eq, Structural)]
pub enum BuildProfile {
    Debug,
    Release,
}

/// The arguments handed to the build tool for a profile.
pub open spec fn arguments_spec(profile: BuildProfile) -> Seq<Seq<char>> {
    match profile {
        BuildProfile::Debug => seq!["build"@],
        BuildProfile::Release => seq!["build"@, "--release"@],
    }
}

/// The argument list for `profile`.
pub fn build_arguments(profile: BuildProfile) -> (r: Vec<String>)
    ensures
        r@.len() == arguments_spec(profile).len(),
        forall|i: int| 0 <= i < r@.len() ==> #[trigger] r@[i]@ == arguments_spec(profile)[i],
{
    let mut args: Vec<String> = Vec::new();
    args.push(String::from_str("build"));
    match profile {
        BuildProfile::Debug => {},
        BuildProfile::Release => {
            args.push(String::from_str("--release"));
        },
    }
    args
}

/// What one run of the build tool gave: whether it succeeded, its two output
/// streams in full, and its exit status as text.
#[derive(Debug)]
pub struct BuildResult {
    pub succeeded: bool,
    pub stdout: Vec<u8>,
    pub stderr: Vec<u8>,
    pub status: String,
}

/// The text that lossy UTF-8 decoding makes of some bytes.
pub uninterp spec fn lossy_text_of(bytes: Seq<u8>) -> Seq<char>;

/// Relies on `String::from_utf8_lossy`: valid UTF-8 comes back decoded
/// unchanged, and the result depends on the bytes alone.
#[verifier::external_body]
fn utf8_lossy(bytes: &[u8]) -> (r: String)
    ensures
        r@ == lossy_text_of(bytes@),
        valid_utf8(bytes@) ==> r@ == decode_utf8(bytes@),
{
    String::from_utf8_lossy(bytes).into_owned()
}

impl BuildResult {
    /// The lines reported for a failed build: status, output, error output.
    pub open spec fn report_spec(&self) -> Seq<Seq<char>> {
        seq![self.status@, lossy_text_of(self.stdout@), lossy_text_of(self.stderr@)]
    }

    /// The lines to report for this build, in order.
    pub fn failure_report(&self) -> (r: Vec<String>)
        ensures
            r@.len() == 3,
            forall|i: int| 0 <= i < 3 ==> #[trigger] r@[i]@ == self.report_spec()[i],
            valid_utf8(self.stdout@) ==> r@[1]@ == decode_utf8(self.stdout@),
            valid_utf8(self.stderr@) ==> r@[2]@ == decode_utf8(self.stderr@),
    {
        let mut lines: Vec<String> = Vec::new();
        lines.push(self.status.clone());
        lines.push(utf8_lossy(self.stdout.as_slice()));
        lines.push(utf8_lossy(self.stderr.as_slice()));
        lines
    }
}

} // verus!
