//! Tagged error values carried end-to-end through the update pipeline.
//!
//! Every fatal error keeps its taxonomy kind and a causal chain of
//! human-readable context lines, outermost first, so the surfaced message
//! explains each layer the error crossed.

use vstd::prelude::*;

verus! {

/// The closed set of failure classes the pipeline distinguishes.
#[derive(Clone, Copy, PartialEq, Eq, Debug, Structural)]
pub enum UpdateErrorKind {
    /// The network cannot be reached; recoverable to an offline run when the
    /// installation is already bootstrapped.
    NetworkUnavailable,
    /// A remote document failed to parse.
    RemoteDataMalformed,
    /// A required prerequisite is absent from the host and cannot be
    /// installed automatically.
    ComponentRuntimeMissing,
    /// A downloaded payload failed verification after all retries.
    DownloadVerificationFailed,
    /// A filesystem operation failed.
    Filesystem,
    /// An external collaborator process exited with a failure.
    ExternalProcessFailed,
    /// The self-update stage failed; always recovered, never fatal.
    SelfUpdateFailed,
}

/// An error with its kind and the chain of context lines it accumulated.
#[derive(Debug)]
pub struct UpdateError {
    pub kind: UpdateErrorKind,
    pub chain: Vec<String>,
}

/// `parts` joined with `sep` between consecutive elements.
pub open spec fn spec_join(parts: Seq<Seq<char>>, sep: Seq<char>) -> Seq<char>
    decreases parts.len(),
{
    if parts.len() == 0 {
        Seq::empty()
    } else if parts.len() == 1 {
        parts[0]
    } else {
        parts[0] + sep + spec_join(parts.drop_first(), sep)
    }
}

impl UpdateError {
    /// A fresh error of the given kind with one line of detail.
    pub fn new(kind: UpdateErrorKind, detail: String) -> (r: UpdateError)
        ensures
            r.kind == kind,
            r.chain@.len() == 1,
            r.chain@[0]@ == detail@,
    {
        let mut chain: Vec<String> = Vec::new();
        chain.push(detail);
        UpdateError { kind, chain }
    }

    /// The same error seen one layer further out: `context` is prepended to
    /// the causal chain; the kind is unchanged.
    pub fn wrap(self, context: String) -> (r: UpdateError)
        ensures
            r.kind == self.kind,
            r.chain@.len() == self.chain@.len() + 1,
            r.chain@[0]@ == context@,
            forall|i: int| 1 <= i < r.chain@.len() ==> r.chain@[i] == self.chain@[i - 1],
    {
        let ghost ctx = context@;
        let mut chain: Vec<String> = Vec::new();
        chain.push(context);
        let mut rest = self.chain;
        let ghost orig = rest@;
        let mut i: usize = 0;
        while i < rest.len()
            invariant
                rest@ == orig,
                0 <= i <= orig.len(),
                chain@.len() == i + 1,
                chain@[0]@ == ctx,
                forall|j: int| 1 <= j < chain@.len() ==> chain@[j] == orig[j - 1],
            decreases rest.len() - i,
        {
            chain.push(rest[i].clone());
            i += 1;
        }
        UpdateError { kind: self.kind, chain }
    }

    /// The full causal message: the chain joined with `": "`.
    pub fn message(&self) -> (r: String)
        ensures
            r@ == spec_join(self.chain@.map_values(|s: String| s@), ": "@),
    {
        let ghost parts = self.chain@.map_values(|s: String| s@);
        if self.chain.len() == 0 {
            let out = String::new();
            proof {
                assert(out@ =~= spec_join(parts, ": "@));
            }
            return out;
        }
        let mut out = self.chain[0].clone();
        proof {
            if parts.len() == 1 {
                assert(parts.subrange(1, parts.len() as int) =~= Seq::<Seq<char>>::empty());
            } else {
                assert(parts.subrange(1, parts.len() as int) =~= parts.drop_first());
            }
        }
        let mut i: usize = 1;
        while i < self.chain.len()
            invariant
                parts == self.chain@.map_values(|s: String| s@),
                parts.len() == self.chain@.len(),
                1 <= i <= self.chain@.len(),
                spec_join(parts, ": "@) =~= out@ + spec_join_tail(
                    parts.subrange(i as int, parts.len() as int),
                    ": "@,
                ),
            decreases self.chain.len() - i,
        {
            proof {
                let rest = parts.subrange(i as int, parts.len() as int);
                assert(rest[0] == parts[i as int]);
                assert(rest.drop_first() =~= parts.subrange(i + 1, parts.len() as int));
                lemma_join_unfold(rest, ": "@);
            }
            out.append(": ");
            out.append(self.chain[i].as_str());
            i += 1;
        }
        proof {
            assert(parts.subrange(parts.len() as int, parts.len() as int)
                =~= Seq::<Seq<char>>::empty());
        }
        out
    }
}

/// What follows the first element inside a join: empty for no elements,
/// otherwise the separator and the join of the rest.
pub open spec fn spec_join_tail(parts: Seq<Seq<char>>, sep: Seq<char>) -> Seq<char> {
    if parts.len() == 0 {
        Seq::empty()
    } else {
        sep + spec_join(parts, sep)
    }
}

proof fn lemma_join_unfold(parts: Seq<Seq<char>>, sep: Seq<char>)
    requires
        parts.len() >= 1,
    ensures
        spec_join_tail(parts, sep) =~= sep + parts[0] + spec_join_tail(parts.drop_first(), sep),
{
    if parts.len() == 1 {
        assert(spec_join(parts, sep) == parts[0]);
    } else {
        assert(spec_join(parts, sep) == parts[0] + sep + spec_join(parts.drop_first(), sep));
    }
}

} // verus!
