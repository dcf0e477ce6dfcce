//! Ownership and breeding of kitties: fixed-width genomes, a bitwise
//! inheritance rule, an identifier allocator and an owner-keyed store, tied
//! together by the `Pallet` state machine.
pub mod allocator;
pub mod dna;
pub mod error;
pub mod genome;
pub mod pallet;
pub mod store;

pub use allocator::{reserve_next_id, lemma_reserve_at_max, lemma_reserve_contiguous};
pub use dna::generate_dna;
pub use error::Error;
pub use genome::{
    combine, lemma_combine_positionwise, lemma_combine_same_parent, lemma_gender_by_parity, Gender,
    Kitty, KittyGender,
};
pub use pallet::{Config, Event, Pallet};
pub use store::{lemma_store_insert_get, KittyStore};
