//! Shared data model: chains, headers, finality proofs and authority sets.

use vstd::prelude::*;
use vstd::bytes::spec_u64_to_le_bytes;
use vstd::bytes::u64_to_le_bytes;
use crate::hashing::{content_hash, h256_of, h256_to_bytes, spec_h256_to_bytes, H256};

verus! {

/// Which tracked parentchain an entity belongs to: the primary chain plus
/// up to two auxiliary chains.
#[derive(Clone, Copy, Debug, PartialEq, Eq, Structural)]
pub enum ParentchainId {
    Integritee,
    TargetA,
    TargetB,
}

/// The operating mode of the whole worker; it decides which dispatcher
/// variant a chain handler is built with.
#[derive(Clone, Copy, Debug, PartialEq, Eq, Structural)]
pub enum WorkerMode {
    OffChainWorker,
    Sidechain,
    Teeracle,
}

/// A block named by number and hash.
#[derive(Clone, Copy, Debug, PartialEq, Eq, Structural)]
pub struct BlockRef {
    pub number: u64,
    pub hash: H256,
}

/// An authority-set change carried in a header: the next set, active once a
/// header at height `number + delay` is finalized.
#[derive(Clone, Debug)]
pub struct AuthorityChange {
    pub next_authorities: Vec<u64>,
    pub delay: u64,
}

/// A parentchain block header: a monotonic ordinal, a back-reference to the
/// parent, and an optional authority-set-change digest.
///
/// A header's own hash is computed from its chain-link fields, number and
/// parent hash; see [`header_hash`].
#[derive(Clone, Debug)]
pub struct Header {
    pub number: u64,
    pub parent_hash: H256,
    pub change: Option<AuthorityChange>,
}

/// Equality of two optional authority changes, content-wise.
pub open spec fn change_eq(a: Option<AuthorityChange>, b: Option<AuthorityChange>) -> bool {
    match (a, b) {
        (Option::None, Option::None) => true,
        (Option::Some(x), Option::Some(y)) => x.next_authorities@ == y.next_authorities@
            && x.delay == y.delay,
        _ => false,
    }
}

/// Equality of two headers, content-wise.
pub open spec fn header_eq(a: Header, b: Header) -> bool {
    a.number == b.number && a.parent_hash == b.parent_hash && change_eq(a.change, b.change)
}

/// The bytes a header is hashed over: its number and its parent hash.
pub open spec fn header_encoding(h: Header) -> Seq<u8> {
    spec_u64_to_le_bytes(h.number) + spec_h256_to_bytes(h.parent_hash)
}

/// The content identifier of a header.
pub open spec fn header_hash(h: Header) -> H256 {
    h256_of(header_encoding(h))
}

/// Computes the content identifier of a header.
pub fn hash_of_header(h: &Header) -> (r: H256)
    ensures
        r == header_hash(*h),
{
    let mut encoding = u64_to_le_bytes(h.number);
    let mut parent_bytes = h256_to_bytes(&h.parent_hash);
    encoding.append(&mut parent_bytes);
    content_hash(encoding.as_slice())
}

/// Copies a vector of authority identities.
pub fn dup_u64s(v: &Vec<u64>) -> (r: Vec<u64>)
    ensures
        r@ == v@,
{
    let r = v.clone();
    proof {
        assert(r@ =~= v@);
    }
    r
}

/// Copies a byte vector.
pub fn dup_bytes(v: &Vec<u8>) -> (r: Vec<u8>)
    ensures
        r@ == v@,
{
    let r = v.clone();
    proof {
        assert(r@ =~= v@);
    }
    r
}

/// Copies a header, content-wise.
pub fn dup_header(h: &Header) -> (r: Header)
    ensures
        header_eq(r, *h),
        r.number == h.number,
        r.parent_hash == h.parent_hash,
{
    let change = match &h.change {
        Option::Some(c) => Option::Some(
            AuthorityChange { next_authorities: dup_u64s(&c.next_authorities), delay: c.delay },
        ),
        Option::None => Option::None,
    };
    Header { number: h.number, parent_hash: h.parent_hash, change }
}

/// Evidence that a header is final: the identities out of the current
/// authority set that signed it, under a claimed set generation.
///
/// The cryptographic validity of each signature is established by the
/// consensus collaborator before the proof reaches the light client; the
/// light client decides set membership, distinctness and quorum.
#[derive(Clone, Debug)]
pub struct FinalityProof {
    pub set_id: u64,
    pub signers: Vec<u64>,
}

/// Copies a finality proof.
pub fn dup_proof(p: &FinalityProof) -> (r: FinalityProof)
    ensures
        r.set_id == p.set_id,
        r.signers@ == p.signers@,
{
    FinalityProof { set_id: p.set_id, signers: dup_u64s(&p.signers) }
}

/// The identities entitled to finalize blocks, with their generation
/// counter. Replaced wholesale on a verified change, never mutated in place.
#[derive(Clone, Debug)]
pub struct AuthoritySet {
    pub authorities: Vec<u64>,
    pub set_id: u64,
}

/// A block as fetched from a parentchain data source: header plus the
/// justification that finalizes it.
#[derive(Clone, Debug)]
pub struct SignedBlock {
    pub header: Header,
    pub proof: FinalityProof,
}

/// A fetched block assembled with its events and the storage proof for the
/// event root, ready for import. Events and proof are carried opaquely to
/// the executor.
#[derive(Clone, Debug)]
pub struct ParentchainBlock {
    pub header: Header,
    pub proof: FinalityProof,
    pub events: Vec<u8>,
    pub events_proof: Vec<u8>,
}

impl ParentchainBlock {
    /// The number and hash this block is known by.
    pub open spec fn reference(self) -> BlockRef {
        BlockRef { number: self.header.number, hash: header_hash(self.header) }
    }

    /// Computes the number and hash this block is known by.
    pub fn block_reference(&self) -> (r: BlockRef)
        ensures
            r == self.reference(),
    {
        BlockRef { number: self.header.number, hash: hash_of_header(&self.header) }
    }
}

/// What a light client is initialized from: the trusted genesis header, and,
/// for a finalizing chain, the initial authority set.
#[derive(Clone, Debug)]
pub enum ParentchainInitParams {
    /// A chain finalized by an authority set with quorum signatures; the
    /// storage proof of the authority list at genesis is carried opaquely.
    Grandpa {
        id: ParentchainId,
        genesis_header: Header,
        authorities: Vec<u64>,
        authorities_proof: Vec<u8>,
    },
    /// A non-finalizing chain followed on a best-effort basis.
    Simple { id: ParentchainId, genesis_header: Header },
}

impl ParentchainInitParams {
    /// The chain these parameters belong to.
    pub open spec fn spec_id(self) -> ParentchainId {
        match self {
            ParentchainInitParams::Grandpa { id, .. } => id,
            ParentchainInitParams::Simple { id, .. } => id,
        }
    }

    /// The chain these parameters belong to.
    pub fn id(&self) -> (r: ParentchainId)
        ensures
            r == self.spec_id(),
    {
        match self {
            ParentchainInitParams::Grandpa { id, .. } => *id,
            ParentchainInitParams::Simple { id, .. } => *id,
        }
    }

    /// The trusted genesis header.
    pub open spec fn spec_genesis_header(self) -> Header {
        match self {
            ParentchainInitParams::Grandpa { genesis_header, .. } => genesis_header,
            ParentchainInitParams::Simple { genesis_header, .. } => genesis_header,
        }
    }

    /// Content equality of two init parameter values.
    pub open spec fn params_eq(a: ParentchainInitParams, b: ParentchainInitParams) -> bool {
        match (a, b) {
            (
                ParentchainInitParams::Grandpa {
                    id: ia,
                    genesis_header: ga,
                    authorities: aa,
                    authorities_proof: pa,
                },
                ParentchainInitParams::Grandpa {
                    id: ib,
                    genesis_header: gb,
                    authorities: ab,
                    authorities_proof: pb,
                },
            ) => ia == ib && header_eq(ga, gb) && aa@ == ab@ && pa@ == pb@,
            (
                ParentchainInitParams::Simple { id: ia, genesis_header: ga },
                ParentchainInitParams::Simple { id: ib, genesis_header: gb },
            ) => ia == ib && header_eq(ga, gb),
            _ => false,
        }
    }

    /// Copies init parameters, content-wise.
    pub fn dup(&self) -> (r: ParentchainInitParams)
        ensures
            Self::params_eq(r, *self),
            r.spec_id() == self.spec_id(),
            header_eq(r.spec_genesis_header(), self.spec_genesis_header()),
    {
        match self {
            ParentchainInitParams::Grandpa { id, genesis_header, authorities, authorities_proof } => {
                ParentchainInitParams::Grandpa {
                    id: *id,
                    genesis_header: dup_header(genesis_header),
                    authorities: dup_u64s(authorities),
                    authorities_proof: dup_bytes(authorities_proof),
                }
            },
            ParentchainInitParams::Simple { id, genesis_header } => {
                ParentchainInitParams::Simple { id: *id, genesis_header: dup_header(genesis_header) }
            },
        }
    }

    /// The trusted genesis header.
    pub fn genesis_header_ref(&self) -> (r: &Header)
        ensures
            *r == self.spec_genesis_header(),
    {
        match self {
            ParentchainInitParams::Grandpa { genesis_header, .. } => genesis_header,
            ParentchainInitParams::Simple { genesis_header, .. } => genesis_header,
        }
    }
}

} // verus!
