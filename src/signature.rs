use vstd::prelude::*;

verus! {

/// What to do about package signatures.
#[derive(Clone, Copy, Debug, PartialEq, Eq, Structural)]
pub enum SignaturePolicy {
    /// Don't process any signing information at all.
    Ignore,
    /// Verify and fail if a signature is found, but pass a signature-less package.
    IfPresent,
    /// Require signatures to be present (and valid).
    Require,
}

impl SignaturePolicy {
    /// Whether signature checking is attempted at all under this policy.
    pub open spec fn spec_verifies(self) -> bool {
        !(self is Ignore)
    }

    /// Whether a package without any signature is rejected under this policy.
    pub open spec fn spec_requires_signature(self) -> bool {
        self is Require
    }

    /// Returns `true` unless the policy is `Ignore`.
    pub fn verifies(&self) -> (r: bool)
        ensures
            r == self.spec_verifies(),
    {
        !matches!(self, SignaturePolicy::Ignore)
    }

    /// Returns `true` only for `Require`: a missing signature is then an error.
    pub fn requires_signature(&self) -> (r: bool)
        ensures
            r == self.spec_requires_signature(),
    {
        matches!(self, SignaturePolicy::Require)
    }
}

} // verus!
