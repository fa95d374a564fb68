//! The light client: the sole authority on whether parentchain state is
//! trustworthy.
//!
//! One [`ValidatorState`] is kept per tracked chain. It advances only through
//! [`ValidatorState::submit_finalized_header`], which admits a candidate
//! exactly when it chains directly from the latest finalized header and, on a
//! finalizing chain, carries a quorum of distinct signatures of the current
//! authority set under the current set generation. Authority-set changes
//! carried in a header activate only once a header at the scheduled height is
//! itself finalized.

use vstd::prelude::*;
use crate::errors::ValidationError;
use crate::hashing::H256;
use crate::primitives::{
    header_hash, hash_of_header, AuthoritySet, FinalityProof, Header, ParentchainId,
    ParentchainInitParams,
};

verus! {

/// Signature quorum: at least `QUORUM_NUMERATOR / QUORUM_DENOMINATOR` of the
/// current authority set must have signed, and at least one signer.
///
/// The exact fraction is a parameter of the underlying finality protocol;
/// this library fixes it here, in one place, as its configured threshold.
pub const QUORUM_NUMERATOR: u64 = 2;

/// See [`QUORUM_NUMERATOR`].
pub const QUORUM_DENOMINATOR: u64 = 3;

/// How finality of a tracked chain is established.
#[derive(Clone, Copy, Debug, PartialEq, Eq, Structural)]
pub enum FinalityMode {
    /// Headers are final when a quorum of the authority set signed them.
    Grandpa,
    /// A non-finalizing chain, followed on a best-effort basis: ancestry is
    /// still enforced, signatures are not.
    Simple,
}

/// An authority-set change that was verified but is not active yet: it
/// activates once a header at `activation_height` is finalized.
#[derive(Clone, Debug)]
pub struct PendingChange {
    pub activation_height: u64,
    pub next_authorities: Vec<u64>,
}

/// The full persisted state of one light client instance. Mutated only by a
/// successful `submit_finalized_header`; the caller is responsible for
/// sealing it durably after every successful mutation.
#[derive(Clone, Debug)]
pub struct ValidatorState {
    pub parentchain_id: ParentchainId,
    pub finality: FinalityMode,
    pub latest_finalized_header: Header,
    /// Cache of the latest finalized header's hash.
    pub latest_hash: H256,
    pub current_authority_set: AuthoritySet,
    pub pending_change: Option<PendingChange>,
}

/// How many entries of `signers` are in `set` and not already among the
/// earlier entries of `signers`: the number of distinct valid signers.
pub open spec fn distinct_in_count(set: Seq<u64>, signers: Seq<u64>) -> nat
    decreases signers.len(),
{
    if signers.len() == 0 {
        0
    } else {
        distinct_in_count(set, signers.drop_last()) + if set.contains(signers.last())
            && !signers.drop_last().contains(signers.last()) {
            1nat
        } else {
            0nat
        }
    }
}

/// Whether the distinct valid signers form a quorum of `set`.
pub open spec fn quorum_met(set: Seq<u64>, signers: Seq<u64>) -> bool {
    let c = distinct_in_count(set, signers);
    c >= 1 && (QUORUM_DENOMINATOR as nat) * c >= (QUORUM_NUMERATOR as nat) * set.len()
}

/// Whether `candidate` chains directly from the trusted state.
pub open spec fn chains_from(s: ValidatorState, candidate: Header) -> bool {
    candidate.parent_hash == s.latest_hash && candidate.number
        == s.latest_finalized_header.number + 1
}

/// Whether `candidate` sits at the height of the latest finalized header,
/// chaining from the same parent: a re-submission within the one-header
/// unfinalized window. Such a candidate connects to the trusted chain, so
/// its proof is judged, but it cannot extend the chain.
pub open spec fn resubmits_latest(s: ValidatorState, candidate: Header) -> bool {
    candidate.number == s.latest_finalized_header.number && candidate.parent_hash
        == s.latest_finalized_header.parent_hash
}

/// Whether `candidate`'s parent matches the trusted chain at all: either it
/// extends the latest finalized header, or it re-submits at its height.
pub open spec fn ancestry_connects(s: ValidatorState, candidate: Header) -> bool {
    chains_from(s, candidate) || resubmits_latest(s, candidate)
}

/// Whether the proof finalizes `candidate` for the current authority set.
pub open spec fn proof_accepted(s: ValidatorState, proof: FinalityProof) -> bool {
    s.finality == FinalityMode::Simple || (proof.set_id == s.current_authority_set.set_id
        && quorum_met(s.current_authority_set.authorities@, proof.signers@))
}

/// Whether `submit_finalized_header` succeeds on this input.
pub open spec fn spec_accepts(s: ValidatorState, candidate: Header, proof: FinalityProof) -> bool {
    chains_from(s, candidate) && proof_accepted(s, proof)
}

/// The state after a successful submission of `candidate`: the header becomes
/// the latest finalized one (its change digest consumed, not retained), a
/// carried change is scheduled at `number + delay` (saturating), and a
/// scheduled change whose height is reached activates, replacing the
/// authority set wholesale and stepping the set generation.
///
/// A header carrying a change digest while an earlier change is still
/// pending supersedes that earlier change: at most one change is pending at
/// a time, the most recently finalized one.
pub open spec fn spec_submit(s: ValidatorState, candidate: Header) -> ValidatorState {
    let scheduled = match candidate.change {
        Option::Some(c) => Option::Some(
            PendingChange {
                activation_height: candidate.number.saturating_add(c.delay),
                next_authorities: c.next_authorities,
            },
        ),
        Option::None => s.pending_change,
    };
    let stored = Header { number: candidate.number, parent_hash: candidate.parent_hash, change: Option::None };
    match scheduled {
        Option::Some(p) => if candidate.number >= p.activation_height {
            ValidatorState {
                latest_finalized_header: stored,
                latest_hash: header_hash(candidate),
                current_authority_set: AuthoritySet {
                    authorities: p.next_authorities,
                    set_id: s.current_authority_set.set_id.saturating_add(1),
                },
                pending_change: Option::None,
                ..s
            }
        } else {
            ValidatorState {
                latest_finalized_header: stored,
                latest_hash: header_hash(candidate),
                pending_change: Option::Some(p),
                ..s
            }
        },
        Option::None => ValidatorState {
            latest_finalized_header: stored,
            latest_hash: header_hash(candidate),
            pending_change: Option::None,
            ..s
        },
    }
}

/// What a fresh light client state looks like for given init parameters:
/// everything but the authority list, which for a non-finalizing chain is
/// empty and for a finalizing chain is the one supplied.
pub open spec fn spec_initialized(s: ValidatorState, params: ParentchainInitParams) -> bool {
    s.parentchain_id == params.spec_id() && s.latest_finalized_header
        == params.spec_genesis_header() && s.latest_hash == header_hash(
        params.spec_genesis_header(),
    ) && s.pending_change is None && s.current_authority_set.set_id == 0 && (match params {
        ParentchainInitParams::Grandpa { authorities, .. } => s.finality == FinalityMode::Grandpa
            && s.current_authority_set.authorities == authorities,
        ParentchainInitParams::Simple { .. } => s.finality == FinalityMode::Simple
            && s.current_authority_set.authorities@ == Seq::<u64>::empty(),
    })
}

impl ValidatorState {
    /// The cached hash is the hash of the latest finalized header.
    pub open spec fn wf(self) -> bool {
        self.latest_hash == header_hash(self.latest_finalized_header)
    }

    /// Creates the state of a fresh light client from a trusted genesis
    /// header and, for a finalizing chain, the initial authority set.
    ///
    /// Fails with `InvalidGenesis` exactly when the header's number is not
    /// zero.
    pub fn initialize(params: ParentchainInitParams) -> (r: Result<ValidatorState, ValidationError>)
        ensures
            r is Ok <==> params.spec_genesis_header().number == 0,
            r matches Ok(s) ==> spec_initialized(s, params) && s.wf(),
            r matches Err(e) ==> e == ValidationError::InvalidGenesis,
    {
        match params {
            ParentchainInitParams::Grandpa { id, genesis_header, authorities, .. } => {
                if genesis_header.number != 0 {
                    return Err(ValidationError::InvalidGenesis);
                }
                let latest_hash = hash_of_header(&genesis_header);
                Ok(ValidatorState {
                    parentchain_id: id,
                    finality: FinalityMode::Grandpa,
                    latest_hash,
                    latest_finalized_header: genesis_header,
                    current_authority_set: AuthoritySet { authorities, set_id: 0 },
                    pending_change: None,
                })
            },
            ParentchainInitParams::Simple { id, genesis_header } => {
                if genesis_header.number != 0 {
                    return Err(ValidationError::InvalidGenesis);
                }
                let latest_hash = hash_of_header(&genesis_header);
                Ok(ValidatorState {
                    parentchain_id: id,
                    finality: FinalityMode::Simple,
                    latest_hash,
                    latest_finalized_header: genesis_header,
                    current_authority_set: AuthoritySet { authorities: Vec::new(), set_id: 0 },
                    pending_change: None,
                })
            },
        }
    }

    /// Decides whether `candidate` may become the new latest finalized
    /// header, and advances the state exactly on success.
    ///
    /// Ancestry is judged first: a candidate whose parent matches neither
    /// the latest finalized header nor, as a re-submission, that header's
    /// own parent is answered `UnknownAncestor` whatever its proof carries.
    /// The proof is judged second. A fully valid candidate advances the
    /// state only when it extends the chain; one that merely re-finalizes
    /// the current height is answered `UnknownAncestor` as well, since
    /// nothing is left to extend there. The proof is consumed once and not
    /// retained. Failures leave the state untouched and are never retried
    /// here: the sync engine decides whether to re-fetch or abort.
    pub fn submit_finalized_header(&mut self, candidate: Header, proof: FinalityProof) -> (r:
        Result<(), ValidationError>)
        requires
            old(self).wf(),
        ensures
            r is Ok <==> spec_accepts(*old(self), candidate, proof),
            r is Ok ==> *final(self) == spec_submit(*old(self), candidate),
            r is Err ==> *final(self) == *old(self),
            final(self).wf(),
            r == Err::<(), ValidationError>(ValidationError::UnknownAncestor) <==> !ancestry_connects(
                *old(self),
                candidate,
            ) || (resubmits_latest(*old(self), candidate) && proof_accepted(*old(self), proof)),
            r == Err::<(), ValidationError>(ValidationError::StaleSetId) <==> ancestry_connects(
                *old(self),
                candidate,
            ) && old(self).finality == FinalityMode::Grandpa && proof.set_id != old(
                self,
            ).current_authority_set.set_id,
            r == Err::<(), ValidationError>(ValidationError::InsufficientSignatures) <==>
                ancestry_connects(*old(self), candidate) && old(self).finality
                == FinalityMode::Grandpa && proof.set_id == old(
                self,
            ).current_authority_set.set_id && !quorum_met(
                old(self).current_authority_set.authorities@,
                proof.signers@,
            ),
    {
        let chains = candidate.parent_hash == self.latest_hash
            && self.latest_finalized_header.number < u64::MAX && candidate.number
            == self.latest_finalized_header.number + 1;
        let resubmits = candidate.number == self.latest_finalized_header.number
            && candidate.parent_hash == self.latest_finalized_header.parent_hash;
        if !(chains || resubmits) {
            return Err(ValidationError::UnknownAncestor);
        }
        if matches!(self.finality, FinalityMode::Grandpa) {
            if proof.set_id != self.current_authority_set.set_id {
                return Err(ValidationError::StaleSetId);
            }
            if !has_quorum(&self.current_authority_set.authorities, &proof.signers) {
                return Err(ValidationError::InsufficientSignatures);
            }
        }
        if !chains {
            return Err(ValidationError::UnknownAncestor);
        }
        let Header { number, parent_hash, change } = candidate;
        let scheduled: Option<PendingChange> = match change {
            Some(c) => Some(
                PendingChange {
                    activation_height: number.saturating_add(c.delay),
                    next_authorities: c.next_authorities,
                },
            ),
            None => self.pending_change.take(),
        };
        self.latest_hash = hash_of_header(
            &Header { number, parent_hash, change: None },
        );
        self.latest_finalized_header = Header { number, parent_hash, change: None };
        match scheduled {
            Some(p) => {
                if number >= p.activation_height {
                    self.current_authority_set = AuthoritySet {
                        authorities: p.next_authorities,
                        set_id: self.current_authority_set.set_id.saturating_add(1),
                    };
                    self.pending_change = None;
                } else {
                    self.pending_change = Some(p);
                }
            },
            None => {
                self.pending_change = None;
            },
        }
        Ok(())
    }
}

/// Whether `signers` contains a quorum of distinct members of `set`.
fn has_quorum(set: &Vec<u64>, signers: &Vec<u64>) -> (r: bool)
    ensures
        r == quorum_met(set@, signers@),
{
    let c = count_distinct_valid(set, signers);
    c >= 1 && (QUORUM_DENOMINATOR as u128) * (c as u128) >= (QUORUM_NUMERATOR as u128) * (
    set.len() as u128)
}

/// Counts the distinct entries of `signers` that are members of `set`.
fn count_distinct_valid(set: &Vec<u64>, signers: &Vec<u64>) -> (c: usize)
    ensures
        c == distinct_in_count(set@, signers@),
        c <= signers@.len(),
{
    let mut c: usize = 0;
    let mut i: usize = 0;
    while i < signers.len()
        invariant
            i <= signers@.len(),
            c == distinct_in_count(set@, signers@.subrange(0, i as int)),
            c <= i,
        decreases signers@.len() - i,
    {
        let x = signers[i];
        if vec_contains_u64(set, x) && !prefix_contains_u64(signers, i, x) {
            c = c + 1;
        }
        proof {
            let pre = signers@.subrange(0, i as int + 1);
            assert(pre.drop_last() =~= signers@.subrange(0, i as int));
            assert(pre.last() == signers@[i as int]);
        }
        i = i + 1;
    }
    proof {
        assert(signers@.subrange(0, signers@.len() as int) =~= signers@);
    }
    c
}

/// Whether `v` contains `x`.
fn vec_contains_u64(v: &Vec<u64>, x: u64) -> (r: bool)
    ensures
        r == v@.contains(x),
{
    let mut i: usize = 0;
    while i < v.len()
        invariant
            i <= v@.len(),
            forall|j: int| 0 <= j < i ==> v@[j] != x,
        decreases v@.len() - i,
    {
        if v[i] == x {
            return true;
        }
        i = i + 1;
    }
    false
}

/// Whether the first `end` entries of `v` contain `x`.
fn prefix_contains_u64(v: &Vec<u64>, end: usize, x: u64) -> (r: bool)
    requires
        end <= v@.len(),
    ensures
        r == v@.subrange(0, end as int).contains(x),
{
    let mut i: usize = 0;
    while i < end
        invariant
            i <= end <= v@.len(),
            forall|j: int| 0 <= j < i ==> v@[j] != x,
        decreases end - i,
    {
        if v[i] == x {
            assert(v@.subrange(0, end as int)[i as int] == x);
            return true;
        }
        i = i + 1;
    }
    assert(forall|j: int| 0 <= j < end ==> v@.subrange(0, end as int)[j] == v@[j]);
    false
}

/// A sequence of candidate headers, each accepted and submitted in turn from
/// state `s`.
pub open spec fn accepted_from(
    s: ValidatorState,
    headers: Seq<Header>,
    proofs: Seq<FinalityProof>,
) -> bool
    decreases headers.len(),
{
    headers.len() == proofs.len() && (headers.len() == 0 || (spec_accepts(s, headers[0], proofs[0])
        && accepted_from(spec_submit(s, headers[0]), headers.drop_first(), proofs.drop_first())))
}

/// In a run of successful submissions the header numbers count up one by one
/// from the initially trusted header.
pub proof fn lemma_accepted_numbers(
    s: ValidatorState,
    headers: Seq<Header>,
    proofs: Seq<FinalityProof>,
)
    requires
        accepted_from(s, headers, proofs),
    ensures
        forall|i: int|
            0 <= i < headers.len() ==> (#[trigger] headers[i]).number
                == s.latest_finalized_header.number + 1 + i,
    decreases headers.len(),
{
    if headers.len() > 0 {
        let s1 = spec_submit(s, headers[0]);
        assert(s1.latest_finalized_header.number == headers[0].number);
        lemma_accepted_numbers(s1, headers.drop_first(), proofs.drop_first());
        assert forall|i: int| 0 <= i < headers.len() implies (#[trigger] headers[i]).number
            == s.latest_finalized_header.number + 1 + i by {
            if i > 0 {
                assert(headers.drop_first()[i - 1] == headers[i]);
            }
        }
    }
}

/// Monotonic trust: over any sequence of successful `submit_finalized_header`
/// calls, the numbers of the accepted headers are strictly increasing.
pub proof fn lemma_monotonic_trust(
    s: ValidatorState,
    headers: Seq<Header>,
    proofs: Seq<FinalityProof>,
    i: int,
    j: int,
)
    requires
        accepted_from(s, headers, proofs),
        0 <= i < j < headers.len(),
    ensures
        headers[i].number < headers[j].number,
{
    lemma_accepted_numbers(s, headers, proofs);
}

/// At most one import per number: over any sequence of successful
/// submissions on a fixed chain, no two accepted headers share a block
/// number, so in particular no number is ever reported with two different
/// hashes.
pub proof fn lemma_at_most_one_per_number(
    s: ValidatorState,
    headers: Seq<Header>,
    proofs: Seq<FinalityProof>,
    i: int,
    j: int,
)
    requires
        accepted_from(s, headers, proofs),
        0 <= i < headers.len(),
        0 <= j < headers.len(),
        i != j,
    ensures
        headers[i].number != headers[j].number,
{
    if i < j {
        lemma_monotonic_trust(s, headers, proofs, i, j);
    } else {
        lemma_monotonic_trust(s, headers, proofs, j, i);
    }
}

} // verus!
