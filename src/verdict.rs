use vstd::prelude::*;

verus! {

/// Outcome of comparing a generated module with its reference module.
#[derive(Clone, Copy, Debug, PartialEq, Eq, Structural)]
pub enum Verdict {
    /// The binary encodings are byte-identical.
    Identical,
    /// The binary encodings differ but the textual dumps agree, so the
    /// difference lies in the encoding only.
    EncodingArtifact,
    /// Both the binary encodings and the textual dumps differ.
    Mismatch,
}

/// The verdict that a comparison owes for the given encodings and dumps.
pub open spec fn verdict_of(
    generated_bitcode: Seq<u8>,
    reference_bitcode: Seq<u8>,
    generated_text: Seq<u8>,
    reference_text: Seq<u8>,
) -> Verdict {
    if generated_bitcode == reference_bitcode {
        Verdict::Identical
    } else if generated_text == reference_text {
        Verdict::EncodingArtifact
    } else {
        Verdict::Mismatch
    }
}

impl Verdict {
    /// Whether a run may go on to build the program after this verdict.
    pub open spec fn spec_is_acceptable(self) -> bool {
        self != Verdict::Mismatch
    }

    /// Whether a run may go on to build the program after this verdict.
    pub fn is_acceptable(self) -> (r: bool)
        ensures
            r == self.spec_is_acceptable(),
    {
        match self {
            Verdict::Mismatch => false,
            _ => true,
        }
    }
}

/// Byte-wise equality of two buffers.
pub fn bytes_equal(a: &[u8], b: &[u8]) -> (r: bool)
    ensures
        r == (a@ == b@),
{
    if a.len() != b.len() {
        return false;
    }
    let mut i: usize = 0;
    while i < a.len()
        invariant
            a@.len() == b@.len(),
            0 <= i <= a@.len(),
            forall|k: int| 0 <= k < i ==> a@[k] == b@[k],
        decreases a@.len() - i,
    {
        if a[i] != b[i] {
            return false;
        }
        i = i + 1;
    }
    assert(a@ =~= b@);
    true
}

/// The verdict of the binary encodings alone: `Identical` when they agree,
/// and `None` when the textual dumps must decide.
pub fn bitcode_verdict(generated_bitcode: &[u8], reference_bitcode: &[u8]) -> (r: Option<Verdict>)
    ensures
        r == (if generated_bitcode@ == reference_bitcode@ {
            Some(Verdict::Identical)
        } else {
            None
        }),
{
    if bytes_equal(generated_bitcode, reference_bitcode) {
        Some(Verdict::Identical)
    } else {
        None
    }
}

/// The verdict of the textual dumps, once the binary encodings differ.
pub fn text_verdict(generated_text: &[u8], reference_text: &[u8]) -> (r: Verdict)
    ensures
        r == (if generated_text@ == reference_text@ {
            Verdict::EncodingArtifact
        } else {
            Verdict::Mismatch
        }),
{
    if bytes_equal(generated_text, reference_text) {
        Verdict::EncodingArtifact
    } else {
        Verdict::Mismatch
    }
}

/// Compares a generated module with its reference. The binary encodings
/// decide first; only when they differ are the textual dumps compared, and
/// equal dumps mark the difference as an encoding artifact.
pub fn compare_modules(
    generated_bitcode: &[u8],
    reference_bitcode: &[u8],
    generated_text: &[u8],
    reference_text: &[u8],
) -> (r: Verdict)
    ensures
        r == verdict_of(generated_bitcode@, reference_bitcode@, generated_text@, reference_text@),
{
    match bitcode_verdict(generated_bitcode, reference_bitcode) {
        Some(v) => v,
        None => text_verdict(generated_text, reference_text),
    }
}

/// A copy of a textual module with a terminating zero byte, the form in
/// which a module parser reads text from memory.
pub fn nul_terminated(text: &[u8]) -> (r: Vec<u8>)
    ensures
        r@ == text@.push(0u8),
{
    let mut r: Vec<u8> = Vec::new();
    let mut i: usize = 0;
    while i < text.len()
        invariant
            0 <= i <= text@.len(),
            r@ == text@.subrange(0, i as int),
        decreases text@.len() - i,
    {
        r.push(text[i]);
        i = i + 1;
        assert(r@ =~= text@.subrange(0, i as int));
    }
    assert(r@ =~= text@);
    r.push(0u8);
    r
}

} // verus!
