//! The session-scoped symmetric transform applied to every frame after the
//! handshake.
//!
//! The cipher is a stateful byte stream transform: each byte is masked with
//! a keystream byte derived from the running 32-bit state, and the state is
//! then advanced using the ciphertext byte. Because the state absorbs the
//! ciphertext on both sides, a decrypting cipher seeded with the same
//! handshake key tracks the encrypting cipher exactly as long as frames are
//! processed in order — reordering or replay desynchronizes the stream,
//! which is intended.

use vstd::prelude::*;

verus! {

/// Keystream byte derived from the current cipher state.
pub open spec fn ks_byte(k: u32) -> u8 {
    (((k >> 16) ^ k) & 0xFF) as u8
}

/// State advance: a linear congruential mix of the old state and the
/// ciphertext byte, reduced to 32 bits.
pub open spec fn step_state(k: u32, c: u8) -> u32 {
    (((k * 196314165) + c + 907633515) % 0x1_0000_0000) as u32
}

/// Ciphertext produced by encrypting `s` from state `k`.
pub open spec fn enc_bytes(k: u32, s: Seq<u8>) -> Seq<u8>
    decreases s.len(),
{
    if s.len() == 0 {
        Seq::empty()
    } else {
        let c = s[0] ^ ks_byte(k);
        seq![c] + enc_bytes(step_state(k, c), s.skip(1))
    }
}

/// Cipher state after encrypting `s` from state `k`.
pub open spec fn enc_state(k: u32, s: Seq<u8>) -> u32
    decreases s.len(),
{
    if s.len() == 0 {
        k
    } else {
        let c = s[0] ^ ks_byte(k);
        enc_state(step_state(k, c), s.skip(1))
    }
}

/// Plaintext recovered by decrypting `s` from state `k`.
pub open spec fn dec_bytes(k: u32, s: Seq<u8>) -> Seq<u8>
    decreases s.len(),
{
    if s.len() == 0 {
        Seq::empty()
    } else {
        seq![s[0] ^ ks_byte(k)] + dec_bytes(step_state(k, s[0]), s.skip(1))
    }
}

/// Cipher state after decrypting `s` from state `k`.
pub open spec fn dec_state(k: u32, s: Seq<u8>) -> u32
    decreases s.len(),
{
    if s.len() == 0 {
        k
    } else {
        dec_state(step_state(k, s[0]), s.skip(1))
    }
}

/// Appending one plaintext byte extends the ciphertext by one masked byte
/// and advances the final state with that ciphertext byte.
#[verifier::rlimit(100)]
proof fn lemma_enc_snoc(k: u32, s: Seq<u8>, b: u8)
    ensures
        enc_bytes(k, s.push(b)) =~= enc_bytes(k, s).push(b ^ ks_byte(enc_state(k, s))),
        enc_state(k, s.push(b)) == step_state(enc_state(k, s), b ^ ks_byte(enc_state(k, s))),
    decreases s.len(),
{
    if s.len() == 0 {
        assert(s.push(b)[0] == b);
        assert(s.push(b).skip(1) =~= Seq::<u8>::empty());
        assert(enc_bytes(k, s) =~= Seq::<u8>::empty());
        assert(enc_bytes(step_state(k, b ^ ks_byte(k)), Seq::<u8>::empty()) =~= Seq::<u8>::empty());
        assert(enc_state(step_state(k, b ^ ks_byte(k)), Seq::<u8>::empty()) == step_state(
            k,
            b ^ ks_byte(k),
        ));
        assert(enc_state(k, s.push(b)) == step_state(k, b ^ ks_byte(k)));
    } else {
        let c = s[0] ^ ks_byte(k);
        let k1 = step_state(k, c);
        assert(s.push(b)[0] == s[0]);
        assert(s.push(b).skip(1) =~= s.skip(1).push(b));
        lemma_enc_snoc(k1, s.skip(1), b);
        let tail = enc_bytes(k1, s.skip(1));
        let kt = enc_state(k1, s.skip(1));
        assert(enc_bytes(k, s.push(b)) =~= seq![c] + enc_bytes(k1, s.skip(1).push(b)));
        assert(enc_state(k, s.push(b)) == enc_state(k1, s.skip(1).push(b)));
        assert(enc_bytes(k, s) =~= seq![c] + tail);
        assert(enc_state(k, s) == kt);
        assert(seq![c] + tail.push(b ^ ks_byte(kt)) =~= (seq![c] + tail).push(b ^ ks_byte(kt)));
    }
}

/// Appending one ciphertext byte extends the plaintext by one unmasked
/// byte and advances the final state with the ciphertext byte.
#[verifier::rlimit(100)]
proof fn lemma_dec_snoc(k: u32, s: Seq<u8>, b: u8)
    ensures
        dec_bytes(k, s.push(b)) =~= dec_bytes(k, s).push(b ^ ks_byte(dec_state(k, s))),
        dec_state(k, s.push(b)) == step_state(dec_state(k, s), b),
    decreases s.len(),
{
    if s.len() == 0 {
        assert(s.push(b)[0] == b);
        assert(s.push(b).skip(1) =~= Seq::<u8>::empty());
        assert(dec_bytes(k, s) =~= Seq::<u8>::empty());
        assert(dec_bytes(step_state(k, b), Seq::<u8>::empty()) =~= Seq::<u8>::empty());
        assert(dec_state(step_state(k, b), Seq::<u8>::empty()) == step_state(k, b));
        assert(dec_state(k, s.push(b)) == step_state(k, b));
    } else {
        let k1 = step_state(k, s[0]);
        let p = s[0] ^ ks_byte(k);
        assert(s.push(b)[0] == s[0]);
        assert(s.push(b).skip(1) =~= s.skip(1).push(b));
        lemma_dec_snoc(k1, s.skip(1), b);
        let tail = dec_bytes(k1, s.skip(1));
        let kt = dec_state(k1, s.skip(1));
        assert(dec_bytes(k, s.push(b)) =~= seq![p] + dec_bytes(k1, s.skip(1).push(b)));
        assert(dec_state(k, s.push(b)) == dec_state(k1, s.skip(1).push(b)));
        assert(dec_bytes(k, s) =~= seq![p] + tail);
        assert(dec_state(k, s) == kt);
        assert(seq![p] + tail.push(b ^ ks_byte(kt)) =~= (seq![p] + tail).push(b ^ ks_byte(kt)));
    }
}

/// Round trip: decrypting the ciphertext from the same seed recovers the
/// payload byte for byte, and both ciphers end in the same state, so the
/// next frame round-trips as well. This is what makes sequential,
/// non-reordered application of a freshly seeded cipher pair lossless.
pub proof fn lemma_cipher_round_trip(key: u32, payload: Seq<u8>)
    ensures
        dec_bytes(key, enc_bytes(key, payload)) =~= payload,
        dec_state(key, enc_bytes(key, payload)) == enc_state(key, payload),
    decreases payload.len(),
{
    if payload.len() == 0 {
    } else {
        let b0 = payload[0];
        let m = ks_byte(key);
        let c = payload[0] ^ ks_byte(key);
        assert((b0 ^ m) ^ m == b0) by (bit_vector);
        let rest = enc_bytes(step_state(key, c), payload.skip(1));
        assert((seq![c] + rest)[0] == c);
        assert((seq![c] + rest).skip(1) =~= rest);
        lemma_cipher_round_trip(step_state(key, c), payload.skip(1));
        assert(dec_bytes(key, enc_bytes(key, payload)) =~= seq![payload[0]] + dec_bytes(
            step_state(key, c),
            rest,
        ));
        assert(seq![payload[0]] + payload.skip(1) =~= payload);
    }
}

/// Per-connection cipher state, seeded once from the handshake key.
pub struct Cipher {
    k: u32,
}

impl Cipher {
    /// Spec view of the running state.
    pub closed spec fn state(&self) -> u32 {
        self.k
    }

    pub fn new(key: u32) -> (c: Cipher)
        ensures
            c.state() == key,
    {
        Cipher { k: key }
    }

    fn keystream_byte(&self) -> (b: u8)
        ensures
            b == ks_byte(self.state()),
    {
        (((self.k >> 16) ^ self.k) & 0xFF) as u8
    }

    fn advance(&mut self, c: u8)
        ensures
            final(self).state() == step_state(old(self).state(), c),
    {
        let wide: u64 = (self.k as u64) * 196314165 + (c as u64) + 907633515;
        self.k = (wide % 0x1_0000_0000) as u32;
    }

    /// Encrypt `data` in place, advancing the cipher state across the call.
    pub fn encrypt(&mut self, data: &mut Vec<u8>)
        ensures
            final(data)@ == enc_bytes(old(self).state(), old(data)@),
            final(self).state() == enc_state(old(self).state(), old(data)@),
    {
        let ghost k0 = self.k;
        let ghost d0 = data@;
        let n = data.len();
        let mut i: usize = 0;
        proof {
            assert(d0.take(0) =~= Seq::<u8>::empty());
        }
        while i < n
            invariant
                i <= n,
                n == d0.len(),
                data@.len() == d0.len(),
                data@.subrange(0, i as int) =~= enc_bytes(k0, d0.take(i as int)),
                forall|j: int| i <= j < n ==> data@[j] == d0[j],
                self.state() == enc_state(k0, d0.take(i as int)),
            decreases n - i,
        {
            let p = data[i];
            let c = p ^ self.keystream_byte();
            data.set(i, c);
            self.advance(c);
            proof {
                lemma_enc_snoc(k0, d0.take(i as int), d0[i as int]);
                assert(d0.take(i as int).push(d0[i as int]) =~= d0.take(i + 1));
                assert(data@.subrange(0, i + 1) =~= enc_bytes(k0, d0.take(i as int)).push(c));
            }
            i += 1;
        }
        proof {
            assert(d0.take(n as int) =~= d0);
            assert(data@.subrange(0, n as int) =~= data@);
        }
    }

    /// Decrypt `data` in place, advancing the cipher state across the call.
    pub fn decrypt(&mut self, data: &mut Vec<u8>)
        ensures
            final(data)@ == dec_bytes(old(self).state(), old(data)@),
            final(self).state() == dec_state(old(self).state(), old(data)@),
    {
        let ghost k0 = self.k;
        let ghost d0 = data@;
        let n = data.len();
        let mut i: usize = 0;
        proof {
            assert(d0.take(0) =~= Seq::<u8>::empty());
        }
        while i < n
            invariant
                i <= n,
                n == d0.len(),
                data@.len() == d0.len(),
                data@.subrange(0, i as int) =~= dec_bytes(k0, d0.take(i as int)),
                forall|j: int| i <= j < n ==> data@[j] == d0[j],
                self.state() == dec_state(k0, d0.take(i as int)),
            decreases n - i,
        {
            let c = data[i];
            let p = c ^ self.keystream_byte();
            data.set(i, p);
            self.advance(c);
            proof {
                lemma_dec_snoc(k0, d0.take(i as int), d0[i as int]);
                assert(d0.take(i as int).push(d0[i as int]) =~= d0.take(i + 1));
                assert(data@.subrange(0, i + 1) =~= dec_bytes(k0, d0.take(i as int)).push(p));
            }
            i += 1;
        }
        proof {
            assert(d0.take(n as int) =~= d0);
            assert(data@.subrange(0, n as int) =~= data@);
        }
    }
}

} // verus!
