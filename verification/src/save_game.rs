//! The save-state snapshot and the seed that floor generation derives from it.

use vstd::prelude::*;

verus! {

/// A snapshot of the persistent game state, as far as the simulation reads it.
#[derive(Clone, Copy, Debug, PartialEq, Eq, Structural)]
pub struct SaveGame {
    pub level_seed: i64,
    pub current_floor: i64,
    pub in_shop: bool,
    pub mod_shop_page: i32,
    pub money: i64,
}

/// The value of a 64-bit signed integer read as an unsigned one (two's complement).
pub open spec fn unsigned_value(x: i64) -> nat {
    if x < 0 {
        (x + 0x1_0000_0000_0000_0000) as nat
    } else {
        x as nat
    }
}

/// The first `count` base-256 digits of `value`, least significant first.
pub open spec fn le_digits(value: nat, count: nat) -> Seq<u8>
    decreases count,
{
    if count == 0 {
        Seq::empty()
    } else {
        seq![(value % 256) as u8] + le_digits(value / 256, (count - 1) as nat)
    }
}

/// The eight bytes of a 64-bit signed integer in little-endian order.
pub open spec fn le_bytes(x: i64) -> Seq<u8> {
    le_digits(unsigned_value(x), 8)
}

proof fn lemma_le_digits_len(value: nat, count: nat)
    ensures
        le_digits(value, count).len() == count,
    decreases count,
{
    if count > 0 {
        lemma_le_digits_len(value / 256, (count - 1) as nat);
    }
}

/// Writes the little-endian bytes of `x` into `seed[offset..offset + 8]`.
fn write_le_bytes(seed: &mut [u8; 32], offset: usize, x: i64)
    requires
        offset + 8 <= 32,
    ensures
        final(seed)@ == old(seed)@.subrange(0, offset as int) + le_bytes(x) + old(seed)@.subrange(
            offset + 8,
            32,
        ),
{
    let mut rest: u64 = if x < 0 {
        ((x - i64::MIN) as u64) + 0x8000_0000_0000_0000u64
    } else {
        x as u64
    };
    let ghost before = seed@;
    let mut i: usize = 0;
    while i < 8
        invariant
            i <= 8,
            offset + 8 <= 32,
            seed@.len() == 32,
            before.len() == 32,
            seed@.subrange(0, offset as int) == before.subrange(0, offset as int),
            seed@.subrange(offset + 8, 32) == before.subrange(offset + 8, 32),
            seed@.subrange(offset as int, offset + i) + le_digits(rest as nat, (8 - i) as nat)
                == le_bytes(x),
        decreases 8 - i,
    {
        let ghost prev = seed@;
        let digit = (rest % 256) as u8;
        seed[offset + i] = digit;
        proof {
            assert(seed@.subrange(0, offset as int) =~= prev.subrange(0, offset as int));
            assert(seed@.subrange(offset + 8, 32) =~= prev.subrange(offset + 8, 32));
            assert(seed@.subrange(offset as int, offset + i + 1) =~= prev.subrange(
                offset as int,
                offset + i,
            ) + seq![digit]);
        }
        rest = rest / 256;
        i += 1;
    }
    proof {
        assert(le_digits(rest as nat, 0) =~= Seq::<u8>::empty());
        lemma_le_digits_len(unsigned_value(x), 8);
        assert(seed@ =~= before.subrange(0, offset as int) + le_bytes(x) + before.subrange(
            offset + 8,
            32,
        ));
    }
}

impl SaveGame {
    /// The value that stands for the shop in the seed: one more than the shop page while the
    /// player is in the shop, and zero otherwise.
    pub open spec fn spec_shop_value(self) -> i64 {
        if self.in_shop {
            (self.mod_shop_page + 1) as i64
        } else {
            0
        }
    }

    /// The seed bytes of a snapshot: the little-endian bytes of the level seed, the floor, the
    /// shop value and the money, in that order.
    pub open spec fn spec_rng_seed(self) -> Seq<u8> {
        le_bytes(self.level_seed) + le_bytes(self.current_floor) + le_bytes(self.spec_shop_value())
            + le_bytes(self.money)
    }

    /// Starts a new game on floor zero with the given level seed.
    pub fn new(seed: i64) -> (save: SaveGame)
        ensures
            save == (SaveGame {
                level_seed: seed,
                current_floor: 0,
                in_shop: false,
                mod_shop_page: 0,
                money: 0,
            }),
    {
        SaveGame { level_seed: seed, current_floor: 0, in_shop: false, mod_shop_page: 0, money: 0 }
    }

    /// Packs the snapshot into the 32 seed bytes of the floor generator.
    pub fn get_rng_seed(&self) -> (seed: [u8; 32])
        ensures
            seed@ == self.spec_rng_seed(),
    {
        let shop_value: i64 = if self.in_shop {
            (self.mod_shop_page as i64) + 1
        } else {
            0
        };
        let mut seed = [0u8; 32];
        write_le_bytes(&mut seed, 0, self.level_seed);
        write_le_bytes(&mut seed, 8, self.current_floor);
        write_le_bytes(&mut seed, 16, shop_value);
        write_le_bytes(&mut seed, 24, self.money);
        proof {
            lemma_le_digits_len(unsigned_value(self.level_seed), 8);
            lemma_le_digits_len(unsigned_value(self.current_floor), 8);
            lemma_le_digits_len(unsigned_value(shop_value), 8);
            lemma_le_digits_len(unsigned_value(self.money), 8);
            assert(seed@ =~= self.spec_rng_seed());
        }
        seed
    }
}

} // verus!
