//! Route replay support: the exact cache identity of a replay record and
//! the wire encoding of the SVT enhancement set.

use vstd::prelude::*;

verus! {

/// SHA-256 of a byte string (32 bytes).
pub uninterp spec fn sha256_digest(data: Seq<u8>) -> Seq<u8>;

/// Calls `sha2::Sha256::digest`. Claimed: the 32-byte digest is a function
/// of the message bytes alone.
#[verifier::external_body]
fn sha256(data: &[u8]) -> (r: [u8; 32])
    ensures
        r@ == sha256_digest(data@),
{
    <sha2::Sha256 as sha2::Digest>::digest(data).into()
}

/// The domain-separation prefix of the route cache key (`zenavif-route-cache-v1\0`).
pub open spec fn cache_key_prefix() -> Seq<u8> {
    seq![0x7a, 0x65, 0x6e, 0x61, 0x76, 0x69, 0x66, 0x2d, 0x72, 0x6f, 0x75, 0x74, 0x65, 0x2d,
        0x63, 0x61, 0x63, 0x68, 0x65, 0x2d, 0x76, 0x31, 0x00]
}

/// The hashed message: prefix, then the caller's pixel digest, then the
/// serialized replay record.
pub open spec fn cache_key_message(record: Seq<u8>, pixel_digest: Seq<u8>) -> Seq<u8> {
    cache_key_prefix() + pixel_digest + record
}

/// SHA-256 over the domain prefix, the caller's pixel digest and the
/// serialized replay record: an exact cache identity.
pub fn cache_key_for_record(record: &[u8], pixel_digest: [u8; 32]) -> (r: [u8; 32])
    ensures
        r@ == sha256_digest(cache_key_message(record@, pixel_digest@)),
{
    let prefix: [u8; 23] = [0x7a, 0x65, 0x6e, 0x61, 0x76, 0x69, 0x66, 0x2d, 0x72, 0x6f, 0x75, 0x74, 0x65, 0x2d,
        0x63, 0x61, 0x63, 0x68, 0x65, 0x2d, 0x76, 0x31, 0x00];
    let mut msg: Vec<u8> = Vec::new();
    let mut i: usize = 0;
    while i < 23
        invariant
            i <= 23,
            msg@ == prefix@.subrange(0, i as int),
        decreases 23 - i,
    {
        msg.push(prefix[i]);
        i = i + 1;
    }
    let mut j: usize = 0;
    while j < 32
        invariant
            j <= 32,
            msg@ == prefix@ + pixel_digest@.subrange(0, j as int),
        decreases 32 - j,
    {
        msg.push(pixel_digest[j]);
        j = j + 1;
    }
    let mut k: usize = 0;
    while k < record.len()
        invariant
            k <= record@.len(),
            msg@ == prefix@ + pixel_digest@ + record@.subrange(0, k as int),
        decreases record@.len() - k,
    {
        msg.push(record[k]);
        k = k + 1;
    }
    assert(prefix@ =~= cache_key_prefix());
    assert(pixel_digest@.subrange(0, 32) =~= pixel_digest@);
    assert(record@.subrange(0, record@.len() as int) =~= record@);
    assert(msg@ =~= cache_key_message(record@, pixel_digest@));
    sha256(msg.as_slice())
}

/// Records that differ only in their pixel digest hash distinct messages:
/// the message determines both the digest and the record.
pub proof fn law_cache_message_injective(r1: Seq<u8>, d1: Seq<u8>, r2: Seq<u8>, d2: Seq<u8>)
    requires
        d1.len() == 32,
        d2.len() == 32,
        cache_key_message(r1, d1) == cache_key_message(r2, d2),
    ensures
        d1 == d2,
        r1 == r2,
{
    let m = cache_key_message(r1, d1);
    assert(m.subrange(23, 55) =~= d1);
    assert(cache_key_message(r2, d2).subrange(23, 55) =~= d2);
    assert(m.subrange(55, m.len() as int) =~= r1);
    assert(cache_key_message(r2, d2).subrange(55, m.len() as int) =~= r2);
}

/// The opt-in SVT enhancements of a route request.
#[derive(Debug, Clone, Copy, PartialEq, Eq, Structural)]
pub struct ZenEnhancements {
    /// The libaom intra edge filter.
    pub aom_intra_edge_filter: bool,
    /// The libaom restoration-unit search.
    pub aom_restoration_unit_search: bool,
}

/// Wire bits of an enhancement set: bit 0 intra edge filter, bit 1
/// restoration-unit search.
pub open spec fn enhancement_bits_spec(set: ZenEnhancements) -> u8 {
    ((if set.aom_intra_edge_filter { 1u8 } else { 0u8 }) + (if set.aom_restoration_unit_search { 2u8 } else { 0u8 })) as u8
}

/// Encode an enhancement set as wire bits.
pub fn enhancement_bits(set: ZenEnhancements) -> (r: u8)
    ensures
        r == enhancement_bits_spec(set),
{
    let a: u8 = if set.aom_intra_edge_filter { 1 } else { 0 };
    let b: u8 = if set.aom_restoration_unit_search { 2 } else { 0 };
    a + b
}

/// Decode wire bits, refusing unknown bits.
pub fn enhancements_from_bits(bits: u8) -> (r: Result<ZenEnhancements, &'static str>)
    ensures
        bits >= 4 ==> r is Err,
        bits < 4 ==> r == Ok::<ZenEnhancements, &'static str>(ZenEnhancements {
            aom_intra_edge_filter: bits % 2 == 1,
            aom_restoration_unit_search: bits / 2 == 1,
        }),
{
    if bits >= 4 {
        return Err("unknown SVT enhancement bits");
    }
    Ok(ZenEnhancements { aom_intra_edge_filter: bits % 2 == 1, aom_restoration_unit_search: bits / 2 == 1 })
}

/// Decoding the bits of a set gives the set back, and every accepted bit
/// pattern is the encoding of the set it decodes to.
pub proof fn law_enhancement_bits_round_trip(set: ZenEnhancements, bits: u8)
    ensures
        enhancement_bits_spec(set) < 4,
        enhancement_bits_spec(set) % 2 == 1 <==> set.aom_intra_edge_filter,
        enhancement_bits_spec(set) / 2 == 1 <==> set.aom_restoration_unit_search,
        bits < 4 ==> enhancement_bits_spec(ZenEnhancements {
            aom_intra_edge_filter: bits % 2 == 1,
            aom_restoration_unit_search: bits / 2 == 1,
        }) == bits,
{
}

/// Why a configuration cannot be stored or restored as a replay record.
#[derive(Debug, Clone, Copy, PartialEq, Eq, Structural)]
pub enum ReplayRefusal {
    /// The record's schema is not 1.
    UnsupportedSchema,
    /// The record's build identity or feature list differs from this build's.
    IdentityChanged,
    /// No build identity was given.
    MissingIdentity,
    /// The thread count is not pinned to a positive number.
    ThreadsNotPinned,
    /// A quality is not finite.
    NonFiniteQuality,
    /// Another floating-point control is not finite.
    NonFiniteControls,
}

impl ReplayRefusal {
    /// The text reported for each refusal.
    pub open spec fn text(self) -> Seq<char> {
        match self {
            ReplayRefusal::UnsupportedSchema => "unsupported route replay schema"@,
            ReplayRefusal::IdentityChanged => "route replay build identity or feature envelope changed"@,
            ReplayRefusal::MissingIdentity => "replay requires an implementation/build identity"@,
            ReplayRefusal::ThreadsNotPinned => "portable replay requires a pinned positive thread count"@,
            ReplayRefusal::NonFiniteQuality => "non-finite quality cannot be replayed"@,
            ReplayRefusal::NonFiniteControls => "non-finite encoder controls cannot be replayed"@,
        }
    }

    /// The message reported for the refusal.
    pub fn message(&self) -> (r: &'static str)
        ensures
            r@ == self.text(),
    {
        match self {
            ReplayRefusal::UnsupportedSchema => "unsupported route replay schema",
            ReplayRefusal::IdentityChanged => "route replay build identity or feature envelope changed",
            ReplayRefusal::MissingIdentity => "replay requires an implementation/build identity",
            ReplayRefusal::ThreadsNotPinned => "portable replay requires a pinned positive thread count",
            ReplayRefusal::NonFiniteQuality => "non-finite quality cannot be replayed",
            ReplayRefusal::NonFiniteControls => "non-finite encoder controls cannot be replayed",
        }
    }
}

/// The first portability rule a configuration breaks, in order: a build
/// identity, a pinned positive thread count, finite qualities, finite
/// other controls.
pub open spec fn portable_refusal(id_blank: bool, threads: Option<usize>, quality_finite: bool, controls_finite: bool) -> Option<ReplayRefusal> {
    if id_blank {
        Some(ReplayRefusal::MissingIdentity)
    } else if !(threads matches Some(n) && n > 0) {
        Some(ReplayRefusal::ThreadsNotPinned)
    } else if !quality_finite {
        Some(ReplayRefusal::NonFiniteQuality)
    } else if !controls_finite {
        Some(ReplayRefusal::NonFiniteControls)
    } else {
        None
    }
}

/// Whether a configuration can be replayed: `id_blank` when the build
/// identity is empty after trimming; `quality_finite` and `controls_finite`
/// for the floating-point settings.
pub fn check_portable(id_blank: bool, threads: Option<usize>, quality_finite: bool, controls_finite: bool) -> (r: Result<(), ReplayRefusal>)
    ensures
        match portable_refusal(id_blank, threads, quality_finite, controls_finite) {
            Some(e) => r == Err::<(), ReplayRefusal>(e),
            None => r is Ok,
        },
{
    if id_blank {
        return Err(ReplayRefusal::MissingIdentity);
    }
    match threads {
        Some(n) => if n == 0 { return Err(ReplayRefusal::ThreadsNotPinned); },
        None => { return Err(ReplayRefusal::ThreadsNotPinned); },
    }
    if !quality_finite {
        return Err(ReplayRefusal::NonFiniteQuality);
    }
    if !controls_finite {
        return Err(ReplayRefusal::NonFiniteControls);
    }
    Ok(())
}

/// Check a parsed replay record before its configuration is used: schema 1,
/// the same build identity and feature list (`identity_matches`), then the
/// portability rules of [`check_portable`].
pub fn check_replay_record(
    schema: u32,
    identity_matches: bool,
    id_blank: bool,
    threads: Option<usize>,
    quality_finite: bool,
    controls_finite: bool,
) -> (r: Result<(), ReplayRefusal>)
    ensures
        schema != 1 ==> r == Err::<(), ReplayRefusal>(ReplayRefusal::UnsupportedSchema),
        schema == 1 && !identity_matches ==> r == Err::<(), ReplayRefusal>(ReplayRefusal::IdentityChanged),
        schema == 1 && identity_matches ==> match portable_refusal(id_blank, threads, quality_finite, controls_finite) {
            Some(e) => r == Err::<(), ReplayRefusal>(e),
            None => r is Ok,
        },
{
    if schema != 1 {
        return Err(ReplayRefusal::UnsupportedSchema);
    }
    if !identity_matches {
        return Err(ReplayRefusal::IdentityChanged);
    }
    check_portable(id_blank, threads, quality_finite, controls_finite)
}

} // verus!
