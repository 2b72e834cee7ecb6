//! Genomes and the crossover that mixes two of them.

use vstd::prelude::*;

verus! {

/// One creature: nothing but its genome, which never changes once stored.
#[derive(Clone, Copy, Debug, PartialEq, Eq)]
pub struct Kitty(pub [u8; 16]);

impl View for Kitty {
    type V = Seq<u8>;

    open spec fn view(&self) -> Seq<u8> {
        self.0@
    }
}

/// One byte of a child: the bits of `first` where `selector` has a one, the
/// bits of `second` where it has a zero.
pub open spec fn mix_byte(selector: u8, first: u8, second: u8) -> u8 {
    (selector & first) | (!selector & second)
}

/// The child genome of two parents under a selector mask, byte by byte.
pub open spec fn crossover(selector: Seq<u8>, first: Seq<u8>, second: Seq<u8>) -> Seq<u8> {
    Seq::new(16, |i: int| mix_byte(selector[i], first[i], second[i]))
}

/// The mask with every bit flipped.
pub open spec fn complement(selector: Seq<u8>) -> Seq<u8> {
    Seq::new(selector.len(), |i: int| !selector[i])
}

impl Kitty {
    /// The genome as bytes.
    pub fn dna(&self) -> (dna: [u8; 16])
        ensures
            dna@ == self@,
    {
        self.0
    }

    /// Breeds a child genome from two parent genomes. Each bit of the child
    /// comes from `dna_1` where the selector bit is set and from `dna_2`
    /// where it is clear.
    pub fn combine(selector: &[u8; 16], dna_1: &[u8; 16], dna_2: &[u8; 16]) -> (child: [u8; 16])
        ensures
            child@ == crossover(selector@, dna_1@, dna_2@),
    {
        let mut new_dna: [u8; 16] = [0u8; 16];
        let mut i: usize = 0;
        while i < 16
            invariant
                i <= 16,
                forall|j: int| 0 <= j < i ==> new_dna@[j] == mix_byte(selector@[j], dna_1@[j], dna_2@[j]),
            decreases 16 - i,
        {
            new_dna[i] = (selector[i] & dna_1[i]) | (!selector[i] & dna_2[i]);
            i += 1;
        }
        assert(new_dna@ =~= crossover(selector@, dna_1@, dna_2@));
        new_dna
    }
}

/// Bit `k` of a byte.
pub open spec fn bit(byte: u8, k: u8) -> bool {
    (byte >> k) & 1 == 1
}

/// The crossover is a multiplexer bit by bit: every bit of the child is the
/// first parent's where the selector has a one and the second parent's where
/// it has a zero.
pub proof fn lemma_mix_byte_selects(selector: u8, first: u8, second: u8, k: u8)
    requires
        k < 8,
    ensures
        bit(mix_byte(selector, first, second), k) == if bit(selector, k) {
            bit(first, k)
        } else {
            bit(second, k)
        },
{
    assert(k < 8 ==> ((((selector & first) | (!selector & second)) >> k) & 1 == 1) == (if (selector
        >> k) & 1 == 1 {
        (first >> k) & 1 == 1
    } else {
        (second >> k) & 1 == 1
    })) by (bit_vector);
}

/// A child has sixteen bytes, and its byte `i` mixes byte `i` of the mask and
/// of the parents.
pub proof fn lemma_crossover_bytes(selector: Seq<u8>, first: Seq<u8>, second: Seq<u8>, i: int)
    requires
        0 <= i < 16,
    ensures
        crossover(selector, first, second).len() == 16,
        crossover(selector, first, second)[i] == mix_byte(selector[i], first[i], second[i]),
{
}

/// Swapping the parents is the same as flipping every bit of the mask.
pub proof fn lemma_crossover_swap_is_complement(
    selector: Seq<u8>,
    first: Seq<u8>,
    second: Seq<u8>,
)
    requires
        selector.len() == 16,
    ensures
        crossover(selector, second, first) == crossover(complement(selector), first, second),
{
    assert forall|i: int| 0 <= i < 16 implies mix_byte(selector[i], second[i], first[i])
        == mix_byte(complement(selector)[i], first[i], second[i]) by {
        let s = selector[i];
        let a = first[i];
        let b = second[i];
        assert(((s & b) | (!s & a)) == ((!s & a) | (!!s & b))) by (bit_vector);
    }
    assert(crossover(selector, second, first) =~= crossover(
        complement(selector),
        first,
        second,
    ));
}

/// Under one mask, swapping the parents gives the same child only when the
/// parents have the same genome: crossover does not commute.
pub proof fn lemma_crossover_swap_differs(selector: Seq<u8>, first: Seq<u8>, second: Seq<u8>)
    requires
        first.len() == 16,
        second.len() == 16,
    ensures
        crossover(selector, first, second) == crossover(selector, second, first) <==> first
            == second,
{
    if crossover(selector, first, second) == crossover(selector, second, first) {
        assert forall|i: int| 0 <= i < 16 implies first[i] == second[i] by {
            let s = selector[i];
            let a = first[i];
            let b = second[i];
            lemma_crossover_bytes(selector, first, second, i);
            lemma_crossover_bytes(selector, second, first, i);
            assert(((s & a) | (!s & b)) == ((s & b) | (!s & a)) ==> a == b) by (bit_vector);
        }
        assert(first =~= second);
    }
}

/// A mask of all ones copies the first parent, a mask of all zeros the
/// second.
pub proof fn lemma_crossover_extremes(selector: Seq<u8>, first: Seq<u8>, second: Seq<u8>)
    requires
        first.len() == 16,
        second.len() == 16,
    ensures
        (forall|i: int| 0 <= i < 16 ==> selector[i] == 0xff) ==> crossover(selector, first, second)
            == first,
        (forall|i: int| 0 <= i < 16 ==> selector[i] == 0) ==> crossover(selector, first, second)
            == second,
{
    if forall|i: int| 0 <= i < 16 ==> selector[i] == 0xff {
        assert forall|i: int| 0 <= i < 16 implies mix_byte(selector[i], first[i], second[i])
            == first[i] by {
            let a = first[i];
            let b = second[i];
            assert(((0xffu8 & a) | (!0xffu8 & b)) == a) by (bit_vector);
        }
        assert(crossover(selector, first, second) =~= first);
    }
    if forall|i: int| 0 <= i < 16 ==> selector[i] == 0 {
        assert forall|i: int| 0 <= i < 16 implies mix_byte(selector[i], first[i], second[i])
            == second[i] by {
            let a = first[i];
            let b = second[i];
            assert(((0u8 & a) | (!0u8 & b)) == b) by (bit_vector);
        }
        assert(crossover(selector, first, second) =~= second);
    }
}

} // verus!
