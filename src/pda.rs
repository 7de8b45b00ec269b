//! Account keys and program-derived addresses.
use vstd::prelude::*;

verus! {

/// A 32-byte account key.
#[derive(Clone, Copy, Debug)]
pub struct Pubkey {
    pub bytes: [u8; 32],
}

impl View for Pubkey {
    type V = Seq<u8>;

    open spec fn view(&self) -> Seq<u8> {
        self.bytes@
    }
}

impl Pubkey {
    /// Whether two keys hold the same bytes.
    pub fn same_as(&self, other: &Pubkey) -> (r: bool)
        ensures
            r == (self@ == other@),
    {
        let mut i: usize = 0;
        while i < 32
            invariant
                i <= 32,
                self@.len() == 32,
                other@.len() == 32,
                forall|j: int| 0 <= j < i ==> self@[j] == other@[j],
            decreases 32 - i,
        {
            if self.bytes[i] != other.bytes[i] {
                return false;
            }
            i = i + 1;
        }
        assert(self@ =~= other@);
        true
    }

    /// The key's bytes, as a vector.
    pub fn to_vec(&self) -> (r: Vec<u8>)
        ensures
            r@ == self@,
    {
        let mut r: Vec<u8> = Vec::new();
        let mut i: usize = 0;
        while i < 32
            invariant
                i <= 32,
                self@.len() == 32,
                r@ == self@.subrange(0, i as int),
            decreases 32 - i,
        {
            r.push(self.bytes[i]);
            i = i + 1;
            assert(r@ =~= self@.subrange(0, i as int));
        }
        assert(self@.subrange(0, 32) =~= self@);
        r
    }
}

/// The address that the seeds and the program id derive, if they derive one.
pub uninterp spec fn program_address(seeds: Seq<Seq<u8>>, program_id: Seq<u8>) -> Option<Seq<u8>>;

/// The seeds as byte sequences.
pub open spec fn seeds_view(seeds: Seq<Vec<u8>>) -> Seq<Seq<u8>> {
    seeds.map_values(|s: Vec<u8>| s@)
}

pub open spec fn key_option_view(k: Option<Pubkey>) -> Option<Seq<u8>> {
    match k {
        Some(k) => Some(k@),
        None => None,
    }
}

/// `addr` is derived from `seeds` followed by the one-byte seed `bump`.
pub open spec fn derives(seeds: Seq<Seq<u8>>, program_id: Seq<u8>, addr: Seq<u8>, bump: u8) -> bool {
    program_address(seeds.push(seq![bump]), program_id) == Some(addr)
}

/// `bump` is the largest non-zero bump seed that derives an address from
/// `seeds`, and that address is `addr`.
pub open spec fn canonical_bump(seeds: Seq<Seq<u8>>, program_id: Seq<u8>, addr: Seq<u8>, bump: u8) -> bool {
    &&& 1 <= bump
    &&& derives(seeds, program_id, addr, bump)
    &&& forall|c: u8| bump < c ==> #[trigger] program_address(seeds.push(seq![c]), program_id) is None
}

/// `addr` is the canonical program-derived address of `seeds`.
pub open spec fn is_pda(seeds: Seq<Seq<u8>>, program_id: Seq<u8>, addr: Seq<u8>) -> bool {
    exists|b: u8| canonical_bump(seeds, program_id, addr, b)
}

/// The canonical bump seed of `addr`, where `is_pda` holds.
pub open spec fn pda_bump(seeds: Seq<Seq<u8>>, program_id: Seq<u8>, addr: Seq<u8>) -> u8 {
    choose|b: u8| canonical_bump(seeds, program_id, addr, b)
}

/// Seeds determine at most one canonical address and bump.
pub proof fn lemma_canonical_unique(
    seeds: Seq<Seq<u8>>,
    program_id: Seq<u8>,
    a1: Seq<u8>,
    b1: u8,
    a2: Seq<u8>,
    b2: u8,
)
    requires
        canonical_bump(seeds, program_id, a1, b1),
        canonical_bump(seeds, program_id, a2, b2),
    ensures
        a1 == a2,
        b1 == b2,
{
    if b1 < b2 {
        assert(program_address(seeds.push(seq![b2]), program_id) is None);
    } else if b2 < b1 {
        assert(program_address(seeds.push(seq![b1]), program_id) is None);
    }
}

/// Relies on `Pubkey::create_program_address` of solana-program (re-exported by
/// anchor-lang): the address depends on the seeds and the program id alone;
/// its error (too many or too long seeds, or a hash on the curve) becomes `None`.
#[verifier::external_body]
pub(crate) fn create_program_address(seeds: &Vec<Vec<u8>>, program_id: &Pubkey) -> (r: Option<Pubkey>)
    ensures
        key_option_view(r) == program_address(seeds_view(seeds@), program_id@),
{
    let refs: Vec<&[u8]> = seeds.iter().map(|s| s.as_slice()).collect();
    let pid = anchor_lang::prelude::Pubkey::new_from_array(program_id.bytes);
    anchor_lang::prelude::Pubkey::create_program_address(&refs, &pid).ok().map(|k| Pubkey { bytes: k.to_bytes() })
}

/// Relies on `Pubkey::try_find_program_address` of solana-program (re-exported
/// by anchor-lang): it appends the bump seeds 255 down to 1 in turn and returns
/// the first address that `create_program_address` gives, with its bump.
#[verifier::external_body]
pub(crate) fn try_find_program_address(seeds: &Vec<Vec<u8>>, program_id: &Pubkey) -> (r: Option<(Pubkey, u8)>)
    ensures
        r matches Some((k, b)) ==> canonical_bump(seeds_view(seeds@), program_id@, k@, b),
        r is None ==> forall|c: u8|
            1 <= c ==> #[trigger] program_address(seeds_view(seeds@).push(seq![c]), program_id@) is None,
{
    let refs: Vec<&[u8]> = seeds.iter().map(|s| s.as_slice()).collect();
    let pid = anchor_lang::prelude::Pubkey::new_from_array(program_id.bytes);
    anchor_lang::prelude::Pubkey::try_find_program_address(&refs, &pid).map(|(k, b)| (Pubkey { bytes: k.to_bytes() }, b))
}

} // verus!
