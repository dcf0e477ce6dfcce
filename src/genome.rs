use vstd::prelude::*;

verus! {

/// The binary trait that a genome determines.
#[derive(Clone, Copy, Debug, PartialEq, Eq, Structural)]
pub enum KittyGender {
    Male,
    Female,
}

/// A gender label independent of any genome.
#[derive(Clone, Copy, Debug, PartialEq, Eq, Structural)]
pub enum Gender {
    Male,
    Female,
}

/// A kitty: nothing but its 16-byte genome.
#[derive(Clone, Copy, Debug, PartialEq, Eq)]
pub struct Kitty(pub [u8; 16]);

/// The gender carried by a genome: the parity of its first byte.
pub open spec fn gender_of(dna: Seq<u8>) -> KittyGender
    recommends
        dna.len() > 0,
{
    if dna[0] % 2 == 0 {
        KittyGender::Male
    } else {
        KittyGender::Female
    }
}

impl View for Kitty {
    type V = Seq<u8>;

    open spec fn view(&self) -> Seq<u8> {
        self.0@
    }
}

impl Kitty {
    /// Even first byte: male; odd: female.
    pub fn gender(&self) -> (r: KittyGender)
        ensures
            r == gender_of(self@),
    {
        if self.0[0] % 2 == 0 {
            KittyGender::Male
        } else {
            KittyGender::Female
        }
    }
}

/// One byte of a child genome: each bit set in the selector takes the bit of
/// the first parent, each clear bit the bit of the second.
pub open spec fn mix_byte(a: u8, b: u8, selector: u8) -> u8 {
    (selector & a) | (!selector & b)
}

/// The child genome of parents `a` and `b` under `selector`, byte by byte.
pub open spec fn combined(a: Seq<u8>, b: Seq<u8>, selector: Seq<u8>) -> Seq<u8> {
    Seq::new(a.len(), |i: int| mix_byte(a[i], b[i], selector[i]))
}

/// Recombines two parent genomes under a selector mask.
pub fn combine(a: &[u8; 16], b: &[u8; 16], selector: &[u8; 16]) -> (r: [u8; 16])
    ensures
        r@ == combined(a@, b@, selector@),
{
    let mut dna: [u8; 16] = [0u8; 16];
    let mut i: usize = 0;
    while i < 16
        invariant
            i <= 16,
            dna@.len() == 16,
            forall|j: int| 0 <= j < i ==> dna@[j] == mix_byte(a@[j], b@[j], selector@[j]),
        decreases 16 - i,
    {
        dna[i] = (selector[i] & a[i]) | (!selector[i] & b[i]);
        i = i + 1;
    }
    assert(dna@ =~= combined(a@, b@, selector@));
    dna
}

/// The gender of a genome is a function of the parity of its first byte
/// alone: genomes whose first bytes have the same parity have the same
/// gender, and those whose first bytes differ in parity have different ones.
pub proof fn lemma_gender_by_parity(g: Seq<u8>, h: Seq<u8>)
    requires
        g.len() > 0,
        h.len() > 0,
    ensures
        gender_of(g) == KittyGender::Male || gender_of(g) == KittyGender::Female,
        (gender_of(g) == gender_of(h)) <==> (g[0] % 2 == h[0] % 2),
{
}

/// Each byte of a child genome depends on the bytes of the parents and of the
/// selector at the same position only.
pub proof fn lemma_combine_positionwise(
    a: Seq<u8>,
    b: Seq<u8>,
    s: Seq<u8>,
    a2: Seq<u8>,
    b2: Seq<u8>,
    s2: Seq<u8>,
    i: int,
)
    requires
        0 <= i < a.len(),
        0 <= i < a2.len(),
        a[i] == a2[i],
        b[i] == b2[i],
        s[i] == s2[i],
    ensures
        combined(a, b, s)[i] == combined(a2, b2, s2)[i],
{
}

/// Breeding a genome with itself gives that genome back, whatever the
/// selector.
pub proof fn lemma_combine_same_parent(a: Seq<u8>, s: Seq<u8>)
    ensures
        combined(a, a, s) == a,
{
    assert forall|i: int| 0 <= i < a.len() implies #[trigger] combined(a, a, s)[i] == a[i] by {
        let x = a[i];
        let m = s[i];
        assert((m & x) | (!m & x) == x) by (bit_vector);
    }
    assert(combined(a, a, s) =~= a);
}

} // verus!
