//! The secret resolver: one named string value, bound once when the host
//! binary is built and immutable for the lifetime of that build.

use vstd::prelude::*;

verus! {

/// The build-configuration error: the secret's build-time binding was absent,
/// so the build must abort instead of producing an artifact.
#[derive(Clone, Copy, PartialEq, Eq, Structural, Debug)]
pub enum BuildError {
    MissingSecretBinding,
}

/// A single secret, fixed when the artifact is built. The value is never
/// mutated afterwards and exists identically across all invocations.
pub struct SecretResolver {
    value: String,
}

impl View for SecretResolver {
    type V = Seq<char>;

    closed spec fn view(&self) -> Seq<char> {
        self.value@
    }
}

impl SecretResolver {
    /// The build step's binding of the secret. A present binding becomes the
    /// resolver baked into the artifact; an absent one aborts the build, so
    /// no artifact ever exists whose resolver lacks a value.
    pub fn bind(binding: Option<String>) -> (r: Result<SecretResolver, BuildError>)
        ensures
            match r {
                Ok(resolver) => binding is Some && resolver@ == binding->0@,
                Err(e) => binding is None && e == BuildError::MissingSecretBinding,
            },
    {
        match binding {
            Some(value) => Ok(SecretResolver { value }),
            None => Err(BuildError::MissingSecretBinding),
        }
    }

    /// A pure read of the build-bound constant: returns the bound string,
    /// verbatim, with no side effect.
    pub fn resolve(&self) -> (r: String)
        ensures
            r@ == self@,
    {
        self.value.clone()
    }
}

/// The handler of the one registered command: returns the secret that was
/// bound into the artifact, verbatim.
pub fn get_secret(resolver: &SecretResolver) -> (r: String)
    ensures
        r@ == resolver@,
{
    resolver.resolve()
}

/// Resolution is idempotent: the secret is immutable, so any two results of
/// resolving it within one lifetime of the resolver are the identical value.
pub proof fn lemma_resolve_idempotent(resolver: SecretResolver, r1: Seq<char>, r2: Seq<char>)
    requires
        r1 == resolver@,
        r2 == resolver@,
    ensures
        r1 == r2,
{
}

} // verus!
