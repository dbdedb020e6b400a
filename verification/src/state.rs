//! The persisted data model: identities, the escrow record, and the
//! fixed-width byte layout in which a record is stored.
//!
//! An escrow record is either Empty (`is_initialized` false) or Live.  It is
//! persisted in exactly 105 bytes: a one-byte flag, three 32-byte
//! identities, and an eight-byte little-endian amount.

use vstd::prelude::*;
use vstd::bytes::{
    lemma_auto_spec_u64_to_from_le_bytes, spec_u64_from_le_bytes, spec_u64_to_le_bytes,
    u64_from_le_bytes, u64_to_le_bytes,
};
use vstd::slice::slice_subrange;
use crate::error::OpError;

verus! {

/// A fixed-size public identifier naming an account or authority,
/// held as four 64-bit words; its byte form is the little-endian
/// bytes of each word in order, 32 bytes in all.
#[derive(Clone, Copy, Debug, PartialEq, Eq, Structural)]
pub struct Identity {
    pub w0: u64,
    pub w1: u64,
    pub w2: u64,
    pub w3: u64,
}

impl View for Identity {
    type V = Seq<u8>;

    open spec fn view(&self) -> Seq<u8> {
        spec_u64_to_le_bytes(self.w0) + spec_u64_to_le_bytes(self.w1)
            + spec_u64_to_le_bytes(self.w2) + spec_u64_to_le_bytes(self.w3)
    }
}

/// The identity whose byte form is the given 32-byte sequence.
pub open spec fn identity_of(s: Seq<u8>) -> Identity {
    Identity {
        w0: spec_u64_from_le_bytes(s.subrange(0, 8)),
        w1: spec_u64_from_le_bytes(s.subrange(8, 16)),
        w2: spec_u64_from_le_bytes(s.subrange(16, 24)),
        w3: spec_u64_from_le_bytes(s.subrange(24, 32)),
    }
}

/// The byte form determines the identity: reading the 32 bytes back gives
/// the same four words, so distinct identities have distinct byte forms.
pub proof fn lemma_identity_view_injective(i: Identity)
    ensures
        i@.len() == 32,
        identity_of(i@) == i,
{
    lemma_auto_spec_u64_to_from_le_bytes();
    assert(i@.subrange(0, 8) =~= spec_u64_to_le_bytes(i.w0));
    assert(i@.subrange(8, 16) =~= spec_u64_to_le_bytes(i.w1));
    assert(i@.subrange(16, 24) =~= spec_u64_to_le_bytes(i.w2));
    assert(i@.subrange(24, 32) =~= spec_u64_to_le_bytes(i.w3));
}

impl Identity {
    /// Serializes the identity as its 32-byte form.
    pub fn to_bytes(&self) -> (v: Vec<u8>)
        ensures
            v@ == self@,
    {
        proof {
            lemma_auto_spec_u64_to_from_le_bytes();
        }
        let mut v = u64_to_le_bytes(self.w0);
        let mut v1 = u64_to_le_bytes(self.w1);
        let mut v2 = u64_to_le_bytes(self.w2);
        let mut v3 = u64_to_le_bytes(self.w3);
        v.append(&mut v1);
        v.append(&mut v2);
        v.append(&mut v3);
        v
    }

    /// Reads an identity from 32 bytes of `src` starting at `offset`.
    pub fn from_slice(src: &[u8], offset: usize) -> (i: Identity)
        requires
            offset + 32 <= src@.len(),
        ensures
            i@ == src@.subrange(offset as int, offset + 32),
    {
        let n: usize = src.len();
        let i = Identity {
            w0: u64_from_le_bytes(slice_subrange(src, offset, offset + 8)),
            w1: u64_from_le_bytes(slice_subrange(src, offset + 8, offset + 16)),
            w2: u64_from_le_bytes(slice_subrange(src, offset + 16, offset + 24)),
            w3: u64_from_le_bytes(slice_subrange(src, offset + 24, offset + 32)),
        };
        proof {
            lemma_auto_spec_u64_to_from_le_bytes();
            let s = src@.subrange(offset as int, offset + 32);
            assert(s.subrange(0, 8) =~= src@.subrange(offset as int, offset + 8));
            assert(s.subrange(8, 16) =~= src@.subrange(offset + 8, offset + 16));
            assert(s.subrange(16, 24) =~= src@.subrange(offset + 16, offset + 24));
            assert(s.subrange(24, 32) =~= src@.subrange(offset + 24, offset + 32));
            assert(i@ =~= s);
        }
        i
    }
}

/// The length in bytes of a packed escrow record.
pub const ESCROW_LEN: usize = 105;

/// The escrow record: the one persisted entity of the protocol.
#[derive(Clone, Copy, Debug, PartialEq, Eq, Structural)]
pub struct Escrow {
    /// Discriminates a live record from an empty storage slot.
    pub is_initialized: bool,
    /// The maker's public identity; only this identity may cancel.
    pub initializer_pubkey: Identity,
    /// The holding account that custodies the maker's locked asset.
    pub temp_token_account_pubkey: Identity,
    /// The account that must receive the counter-asset on exchange.
    pub initializer_token_to_receive_account_pubkey: Identity,
    /// The quantity of the counter-asset the maker demands.
    pub expected_amount: u64,
}

/// The flag byte that encodes the initialization state.
pub open spec fn flag_byte(b: bool) -> u8 {
    if b {
        1u8
    } else {
        0u8
    }
}

/// The 105-byte form of a record:
/// `[flag][initializer][holding][receive][amount le]`.
pub open spec fn escrow_bytes(e: Escrow) -> Seq<u8> {
    seq![flag_byte(e.is_initialized)] + e.initializer_pubkey@ + e.temp_token_account_pubkey@
        + e.initializer_token_to_receive_account_pubkey@ + spec_u64_to_le_bytes(e.expected_amount)
}

/// What unpacking a byte sequence yields: the record it encodes, or
/// `InvalidAccountData` when the length is wrong or the flag byte is
/// neither 0 nor 1.
pub open spec fn parse_escrow(s: Seq<u8>) -> Result<Escrow, OpError> {
    if s.len() != 105 {
        Err(OpError::InvalidAccountData)
    } else if s[0] != 0 && s[0] != 1 {
        Err(OpError::InvalidAccountData)
    } else {
        Ok(
            Escrow {
                is_initialized: s[0] == 1,
                initializer_pubkey: identity_of(s.subrange(1, 33)),
                temp_token_account_pubkey: identity_of(s.subrange(33, 65)),
                initializer_token_to_receive_account_pubkey: identity_of(s.subrange(65, 97)),
                expected_amount: spec_u64_from_le_bytes(s.subrange(97, 105)),
            },
        )
    }
}

/// What unpacking a byte sequence as a live record yields: as
/// `parse_escrow`, but an Empty record is refused as uninitialized.
pub open spec fn parse_live_escrow(s: Seq<u8>) -> Result<Escrow, OpError> {
    match parse_escrow(s) {
        Ok(e) => if e.is_initialized {
            Ok(e)
        } else {
            Err(OpError::UninitializedAccount)
        },
        Err(err) => Err(err),
    }
}

/// A packed record is 105 bytes, and unpacking it restores the record:
/// the byte layout loses nothing.
pub proof fn lemma_escrow_round_trip(e: Escrow)
    ensures
        escrow_bytes(e).len() == 105,
        parse_escrow(escrow_bytes(e)) == Ok::<Escrow, OpError>(e),
{
    lemma_identity_view_injective(e.initializer_pubkey);
    lemma_identity_view_injective(e.temp_token_account_pubkey);
    lemma_identity_view_injective(e.initializer_token_to_receive_account_pubkey);
    lemma_auto_spec_u64_to_from_le_bytes();
    let s = escrow_bytes(e);
    assert(s.subrange(1, 33) =~= e.initializer_pubkey@);
    assert(s.subrange(33, 65) =~= e.temp_token_account_pubkey@);
    assert(s.subrange(65, 97) =~= e.initializer_token_to_receive_account_pubkey@);
    assert(s.subrange(97, 105) =~= spec_u64_to_le_bytes(e.expected_amount));
}

/// Unpacking 105 zero bytes yields the Empty record with all-zero fields.
pub proof fn lemma_parse_zeroed_bytes()
    ensures
        parse_escrow(Seq::new(105, |i: int| 0u8)) == Ok::<Escrow, OpError>(
            Escrow {
                is_initialized: false,
                initializer_pubkey: Identity { w0: 0, w1: 0, w2: 0, w3: 0 },
                temp_token_account_pubkey: Identity { w0: 0, w1: 0, w2: 0, w3: 0 },
                initializer_token_to_receive_account_pubkey: Identity { w0: 0, w1: 0, w2: 0, w3: 0 },
                expected_amount: 0,
            },
        ),
{
    let zero = Identity { w0: 0, w1: 0, w2: 0, w3: 0 };
    lemma_identity_view_injective(zero);
    lemma_auto_spec_u64_to_from_le_bytes();
    vstd::bytes::spec_u64_to_le_bytes_to_open(0u64);
    let s = Seq::new(105, |i: int| 0u8);
    assert((0u64 & 0xff) as u8 == 0 && ((0u64 >> 8) & 0xff) as u8 == 0 && ((0u64 >> 16) & 0xff)
        as u8 == 0 && ((0u64 >> 24) & 0xff) as u8 == 0 && ((0u64 >> 32) & 0xff) as u8 == 0 && ((0u64
        >> 40) & 0xff) as u8 == 0 && ((0u64 >> 48) & 0xff) as u8 == 0 && ((0u64 >> 56) & 0xff) as u8
        == 0) by (bit_vector);
    assert(spec_u64_to_le_bytes(0u64) =~= Seq::new(8, |i: int| 0u8));
    assert(spec_u64_from_le_bytes(Seq::new(8, |i: int| 0u8)) == 0);
    assert(zero@ =~= Seq::new(32, |i: int| 0u8));
    assert(s.subrange(1, 33) =~= zero@);
    assert(s.subrange(33, 65) =~= zero@);
    assert(s.subrange(65, 97) =~= zero@);
    assert(s.subrange(97, 105) =~= spec_u64_to_le_bytes(0u64));
}

impl Escrow {
    /// Whether the record is Live rather than Empty.
    pub fn is_initialized(&self) -> (r: bool)
        ensures
            r == self.is_initialized,
    {
        self.is_initialized
    }

    /// Unpacks a record from stored bytes, Empty or Live.
    pub fn unpack_unchecked(src: &[u8]) -> (r: Result<Escrow, OpError>)
        ensures
            r == parse_escrow(src@),
    {
        if src.len() != ESCROW_LEN {
            return Err(OpError::InvalidAccountData);
        }
        let flag = *vstd::slice::slice_index_get(src, 0);
        if flag != 0 && flag != 1 {
            return Err(OpError::InvalidAccountData);
        }
        let e = Escrow {
            is_initialized: flag == 1,
            initializer_pubkey: Identity::from_slice(src, 1),
            temp_token_account_pubkey: Identity::from_slice(src, 33),
            initializer_token_to_receive_account_pubkey: Identity::from_slice(src, 65),
            expected_amount: u64_from_le_bytes(slice_subrange(src, 97, 105)),
        };
        proof {
            lemma_identity_view_injective(e.initializer_pubkey);
            lemma_identity_view_injective(e.temp_token_account_pubkey);
            lemma_identity_view_injective(e.initializer_token_to_receive_account_pubkey);
        }
        Ok(e)
    }

    /// Unpacks a record that must be Live; an Empty record is refused.
    pub fn unpack(src: &[u8]) -> (r: Result<Escrow, OpError>)
        ensures
            r == parse_live_escrow(src@),
    {
        match Self::unpack_unchecked(src) {
            Ok(e) => if e.is_initialized {
                Ok(e)
            } else {
                Err(OpError::UninitializedAccount)
            },
            Err(err) => Err(err),
        }
    }

    /// Packs the record into a 105-byte destination, which must already
    /// have exactly the packed length.
    pub fn pack(&self, dst: &mut Vec<u8>) -> (r: Result<(), OpError>)
        ensures
            match r {
                Ok(()) => old(dst)@.len() == 105 && final(dst)@ == escrow_bytes(*self),
                Err(err) => {
                    &&& err == OpError::InvalidAccountData
                    &&& old(dst)@.len() != 105
                    &&& final(dst)@ == old(dst)@
                },
            },
    {
        if dst.len() != ESCROW_LEN {
            return Err(OpError::InvalidAccountData);
        }
        let mut v: Vec<u8> = Vec::new();
        v.push(if self.is_initialized { 1 } else { 0 });
        let mut b0 = self.initializer_pubkey.to_bytes();
        let mut b1 = self.temp_token_account_pubkey.to_bytes();
        let mut b2 = self.initializer_token_to_receive_account_pubkey.to_bytes();
        let mut b3 = u64_to_le_bytes(self.expected_amount);
        v.append(&mut b0);
        v.append(&mut b1);
        v.append(&mut b2);
        v.append(&mut b3);
        proof {
            assert(v@ =~= escrow_bytes(*self));
        }
        *dst = v;
        Ok(())
    }
}

/// One caller-provided storage slot: its balance and its stored bytes.
#[derive(Debug)]
pub struct Slot {
    /// The storage balance held by the slot.
    pub lamports: u64,
    /// The bytes stored in the slot.
    pub data: Vec<u8>,
}

} // verus!
