use pallet_kitties::{
    combine, generate_dna, reserve_next_id, Config, Error, Event, Kitty, KittyGender, KittyStore,
    Pallet,
};

struct FixedRuntime {
    seed: [u8; 32],
    index: Option<u32>,
}

impl Config for FixedRuntime {
    fn random_seed(&self) -> [u8; 32] {
        self.seed
    }

    fn extrinsic_index(&self) -> Option<u32> {
        self.index
    }
}

fn rt(index: u32) -> FixedRuntime {
    FixedRuntime { seed: [9u8; 32], index: Some(index) }
}

const U: u64 = 5;

#[test]
fn gender_follows_first_byte_parity() {
    let mut dna = [0u8; 16];
    assert_eq!(Kitty(dna).gender(), KittyGender::Male);
    dna[0] = 1;
    assert_eq!(Kitty(dna).gender(), KittyGender::Female);
    dna[0] = 254;
    dna[1] = 1;
    assert_eq!(Kitty(dna).gender(), KittyGender::Male);
    dna[0] = 255;
    assert_eq!(Kitty(dna).gender(), KittyGender::Female);
}

#[test]
fn combine_takes_bits_by_selector() {
    let a = [0b1111_0000u8; 16];
    let b = [0b1010_1010u8; 16];
    let mut s = [0b1100_1100u8; 16];
    s[15] = 0xff;
    let r = combine(&a, &b, &s);
    assert_eq!(r[0], 0b1110_0010);
    assert_eq!(r[14], 0b1110_0010);
    assert_eq!(r[15], 0b1111_0000);
    assert_eq!(combine(&a, &b, &[0u8; 16]), b);
    assert_eq!(combine(&a, &b, &[0xffu8; 16]), a);
}

#[test]
fn combine_same_parent_returns_it() {
    let mut a = [0u8; 16];
    for i in 0..16 {
        a[i] = (i as u8).wrapping_mul(37).wrapping_add(11);
    }
    let s = [0x5au8; 16];
    assert_eq!(combine(&a, &a, &s), a);
    assert_eq!(combine(&a, &a, &[0x13u8; 16]), a);
}

#[test]
fn reserve_hands_out_contiguous_ids() {
    let mut next: u32 = 7;
    for expected in 7u32..12 {
        assert_eq!(reserve_next_id(&mut next), Ok(expected));
    }
    assert_eq!(next, 12);
}

#[test]
fn reserve_fails_at_max() {
    let mut next: u32 = u32::MAX - 1;
    assert_eq!(reserve_next_id(&mut next), Ok(u32::MAX - 1));
    assert_eq!(next, u32::MAX);
    assert_eq!(reserve_next_id(&mut next), Err(Error::Overflow));
    assert_eq!(next, u32::MAX);
}

#[test]
fn store_get_insert_duplicate() {
    let mut store = KittyStore::new();
    let k = Kitty([3u8; 16]);
    assert_eq!(store.get(1, 0), Err(Error::InvalidKittyId));
    assert!(!store.contains(1, 0));
    assert_eq!(store.insert(1, 0, k), Ok(()));
    assert_eq!(store.get(1, 0), Ok(k));
    assert!(store.contains(1, 0));
    assert_eq!(store.get(0, 1), Err(Error::InvalidKittyId));
    assert_eq!(store.get(1, 1), Err(Error::InvalidKittyId));
    assert_eq!(store.insert(1, 0, Kitty([4u8; 16])), Err(Error::DuplicateKittyId));
    assert_eq!(store.get(1, 0), Ok(k));
    assert_eq!(store.insert(u64::MAX, u32::MAX, Kitty([4u8; 16])), Ok(()));
    assert_eq!(store.get(u64::MAX, u32::MAX), Ok(Kitty([4u8; 16])));
}

#[test]
fn generate_dna_is_blake2_of_encoded_payload() {
    assert_eq!(
        generate_dna(&[7u8; 32], 42, Some(3)),
        [32, 129, 152, 160, 174, 139, 198, 6, 103, 199, 224, 108, 253, 147, 8, 221]
    );
    assert_eq!(
        generate_dna(&[7u8; 32], 42, None),
        [7, 72, 252, 214, 193, 57, 44, 152, 58, 46, 159, 4, 168, 64, 169, 204]
    );
    assert_eq!(
        generate_dna(&[0u8; 32], 1, Some(0)),
        [39, 140, 77, 194, 163, 1, 154, 220, 108, 18, 30, 32, 100, 223, 46, 1]
    );
}

#[test]
fn mint_once() {
    let mut p = Pallet::new();
    assert_eq!(p.create(&rt(0), U), Ok(()));
    let dna = generate_dna(&[9u8; 32], U, Some(0));
    assert_eq!(p.kitties(U, 0), Some(Kitty(dna)));
    assert_eq!(p.kitties(U, 1), None);
    assert_eq!(p.kitties(U + 1, 0), None);
    assert_eq!(p.next_kitty_id(), 1);
    assert_eq!(p.events().len(), 1);
    assert_eq!(p.events()[0], Event::KittyCreated(U, 0, Kitty(dna)));
}

#[test]
fn mint_twice_then_breed() {
    let mut p = Pallet::new();
    assert_eq!(p.create(&rt(0), U), Ok(()));
    assert_eq!(p.create(&rt(1), U), Ok(()));
    let k0 = p.kitties(U, 0).unwrap();
    let k1 = p.kitties(U, 1).unwrap();
    assert_ne!(k0.gender(), k1.gender());
    assert_eq!(p.breed(&rt(2), U, 0, 1), Ok(()));
    let selector = generate_dna(&[9u8; 32], U, Some(2));
    let child = Kitty(combine(&k0.0, &k1.0, &selector));
    assert_eq!(p.kitties(U, 2), Some(child));
    assert_eq!(p.next_kitty_id(), 3);
    assert_eq!(p.events().len(), 3);
    assert_eq!(p.events()[2], Event::KittyBred(U, 2, child));
}

#[test]
fn breed_same_gender_fails() {
    let mut p = Pallet::new();
    assert_eq!(p.create(&rt(1), U), Ok(()));
    assert_eq!(p.create(&rt(4), U), Ok(()));
    let k0 = p.kitties(U, 0).unwrap();
    let k1 = p.kitties(U, 1).unwrap();
    assert_eq!(k0.gender(), k1.gender());
    assert_eq!(p.breed(&rt(2), U, 0, 1), Err(Error::SameGender));
    assert_eq!(p.kitties(U, 2), None);
    assert_eq!(p.next_kitty_id(), 2);
    assert_eq!(p.events().len(), 2);
}

#[test]
fn breed_with_itself_fails() {
    let mut p = Pallet::new();
    assert_eq!(p.create(&rt(0), U), Ok(()));
    assert_eq!(p.breed(&rt(1), U, 0, 0), Err(Error::SameGender));
    assert_eq!(p.next_kitty_id(), 1);
}

#[test]
fn breed_not_owned_fails() {
    let mut p = Pallet::new();
    assert_eq!(p.create(&rt(0), U), Ok(()));
    assert_eq!(p.create(&rt(1), U), Ok(()));
    assert_eq!(p.breed(&rt(2), U + 1, 0, 1), Err(Error::InvalidKittyId));
    assert_eq!(p.breed(&rt(2), U, 0, 7), Err(Error::InvalidKittyId));
    assert_eq!(p.breed(&rt(2), U, 7, 1), Err(Error::InvalidKittyId));
    assert_eq!(p.next_kitty_id(), 2);
    assert_eq!(p.kitties(U, 2), None);
    assert_eq!(p.kitties(U + 1, 2), None);
    assert_eq!(p.events().len(), 2);
}

#[test]
fn seeded_transitions_match_runtime_ones() {
    let mut p = Pallet::new();
    let mut q = Pallet::new();
    let seed = [9u8; 32];
    assert_eq!(p.create_from_seed(U, &seed, Some(0)), Ok(()));
    assert_eq!(p.create_from_seed(U, &seed, Some(1)), Ok(()));
    assert_eq!(p.breed_from_seed(U, 0, 1, &seed, Some(2)), Ok(()));
    assert_eq!(q.create(&rt(0), U), Ok(()));
    assert_eq!(q.create(&rt(1), U), Ok(()));
    assert_eq!(q.breed(&rt(2), U, 0, 1), Ok(()));
    assert_eq!(p.kitties(U, 2), q.kitties(U, 2));
    assert_eq!(p.events(), q.events());
    assert_eq!(p.breed_from_seed(U, 0, 9, &seed, None), Err(Error::InvalidKittyId));
}
