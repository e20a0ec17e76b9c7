//! The persisted layout: a deterministic, bounded-size byte schema for
//! every record type, with a verified encode/decode pair.
//!
//! Integers are little-endian and fixed-width, an identity is its
//! eight-byte key, a tag enum is one byte, a boolean is one byte (zero or
//! one), and a byte string is a four-byte length prefix followed by its
//! bytes, rejected at decode when it exceeds the field's hard maximum.
//! Decoding consumes a prefix of the input and returns the rest, so
//! records can be read back from any stream that carries them; decoding
//! what encode produced returns the record unchanged, field for field.

use vstd::prelude::*;
use vstd::bytes::{
    lemma_auto_spec_u16_to_from_le_bytes, lemma_auto_spec_u32_to_from_le_bytes,
    lemma_auto_spec_u64_to_from_le_bytes, spec_u16_from_le_bytes, spec_u16_to_le_bytes,
    spec_u32_from_le_bytes, spec_u32_to_le_bytes, spec_u64_from_le_bytes, spec_u64_to_le_bytes,
    u16_from_le_bytes, u16_to_le_bytes, u32_from_le_bytes, u32_to_le_bytes, u64_from_le_bytes,
    u64_to_le_bytes,
};
use vstd::slice::{slice_subrange, slice_to_vec};
use crate::governance::UserVote;
use crate::constants::{MAX_DESCRIPTION_LEN, MAX_TITLE_LEN};
use crate::state::{
    AccountId, NetworkState, PoolType, Proposal, ProposalType, StakingPool, UserProfile, UserStake,
    Vote,
};

verus! {

// ---------------------------------------------------------------------
// Primitive fields: fixed-width integers, booleans and byte strings.
// Each has an encoding to bytes, a spec-level reader that consumes a
// prefix of a byte sequence, an executable reader over a cursor into a
// buffer, and a lemma that reading what was encoded yields the value.
// ---------------------------------------------------------------------
/// Little-endian bytes of a signed 64-bit value: its two's-complement
/// image, bit for bit.
pub open spec fn spec_i64_to_le_bytes(x: i64) -> Seq<u8> {
    spec_u64_to_le_bytes(x as u64)
}

/// The one-byte image of a boolean.
pub open spec fn spec_bool_to_byte(b: bool) -> u8 {
    if b {
        1u8
    } else {
        0u8
    }
}

/// Read one byte from the front.
pub open spec fn spec_take_u8(s: Seq<u8>) -> Option<(u8, Seq<u8>)> {
    if s.len() >= 1 {
        Some((s[0], s.skip(1)))
    } else {
        None
    }
}

/// Read a little-endian 16-bit value from the front.
pub open spec fn spec_take_u16(s: Seq<u8>) -> Option<(u16, Seq<u8>)> {
    if s.len() >= 2 {
        Some((spec_u16_from_le_bytes(s.take(2)), s.skip(2)))
    } else {
        None
    }
}

/// Read a little-endian 32-bit value from the front.
pub open spec fn spec_take_u32(s: Seq<u8>) -> Option<(u32, Seq<u8>)> {
    if s.len() >= 4 {
        Some((spec_u32_from_le_bytes(s.take(4)), s.skip(4)))
    } else {
        None
    }
}

/// Read a little-endian 64-bit value from the front.
pub open spec fn spec_take_u64(s: Seq<u8>) -> Option<(u64, Seq<u8>)> {
    if s.len() >= 8 {
        Some((spec_u64_from_le_bytes(s.take(8)), s.skip(8)))
    } else {
        None
    }
}

/// Read a signed 64-bit value from the front.
pub open spec fn spec_take_i64(s: Seq<u8>) -> Option<(i64, Seq<u8>)> {
    match spec_take_u64(s) {
        None => None,
        Some((x, rest)) => Some((x as i64, rest)),
    }
}

/// Read a boolean from the front; any byte but zero or one is malformed.
pub open spec fn spec_take_bool(s: Seq<u8>) -> Option<(bool, Seq<u8>)> {
    match spec_take_u8(s) {
        None => None,
        Some((b, rest)) => if b == 0 {
            Some((false, rest))
        } else if b == 1 {
            Some((true, rest))
        } else {
            None
        },
    }
}

/// A length-prefixed byte string.
pub open spec fn spec_encode_bytes(b: Seq<u8>) -> Seq<u8> {
    spec_u32_to_le_bytes(b.len() as u32) + b
}

/// Read a length-prefixed byte string from the front; a length beyond
/// `max` or beyond the input is malformed.
pub open spec fn spec_take_bytes(s: Seq<u8>, max: int) -> Option<(Seq<u8>, Seq<u8>)> {
    match spec_take_u32(s) {
        None => None,
        Some((n, rest)) => if n > max || rest.len() < n {
            None
        } else {
            Some((rest.take(n as int), rest.skip(n as int)))
        },
    }
}

/// Append one byte.
pub fn encode_u8(out: &mut Vec<u8>, x: u8)
    ensures
        final(out)@ == old(out)@ + seq![x],
{
    out.push(x);
    assert(final(out)@ =~= old(out)@ + seq![x]);
}

/// Append a 16-bit value, little-endian.
pub fn encode_u16(out: &mut Vec<u8>, x: u16)
    ensures
        final(out)@ == old(out)@ + spec_u16_to_le_bytes(x),
{
    let mut bytes = u16_to_le_bytes(x);
    out.append(&mut bytes);
}

/// Append a 32-bit value, little-endian.
pub fn encode_u32(out: &mut Vec<u8>, x: u32)
    ensures
        final(out)@ == old(out)@ + spec_u32_to_le_bytes(x),
{
    let mut bytes = u32_to_le_bytes(x);
    out.append(&mut bytes);
}

/// Append a 64-bit value, little-endian.
pub fn encode_u64(out: &mut Vec<u8>, x: u64)
    ensures
        final(out)@ == old(out)@ + spec_u64_to_le_bytes(x),
{
    let mut bytes = u64_to_le_bytes(x);
    out.append(&mut bytes);
}

/// Append a signed 64-bit value as its two's-complement image.
pub fn encode_i64(out: &mut Vec<u8>, x: i64)
    ensures
        final(out)@ == old(out)@ + spec_i64_to_le_bytes(x),
{
    encode_u64(out, x as u64);
}

/// Append a boolean as one byte.
pub fn encode_bool(out: &mut Vec<u8>, b: bool)
    ensures
        final(out)@ == old(out)@ + seq![spec_bool_to_byte(b)],
{
    encode_u8(out, if b { 1 } else { 0 });
}

/// Append a length-prefixed byte string.
pub fn encode_bytes(out: &mut Vec<u8>, b: &Vec<u8>)
    requires
        b@.len() <= u32::MAX,
    ensures
        final(out)@ == old(out)@ + spec_encode_bytes(b@),
{
    encode_u32(out, b.len() as u32);
    let mut copy = slice_to_vec(b.as_slice());
    out.append(&mut copy);
    assert(final(out)@ =~= old(out)@ + spec_encode_bytes(b@));
}

/// Read one byte at the cursor.
pub fn read_u8(buf: &[u8], pos: usize) -> (r: Option<(u8, usize)>)
    ensures
        match r {
            Some((x, end)) => {
                &&& pos <= end <= buf@.len()
                &&& spec_take_u8(buf@.skip(pos as int)) == Some((x, buf@.skip(end as int)))
            },
            None => pos > buf@.len() || spec_take_u8(buf@.skip(pos as int)) is None,
        },
{
    if pos >= buf.len() {
        return None;
    }
    let x = *vstd::slice::slice_index_get(buf, pos);
    proof {
        assert(buf@.skip(pos as int)[0] == buf@[pos as int]);
        assert(buf@.skip(pos as int).skip(1) =~= buf@.skip(pos as int + 1));
    }
    Some((x, pos + 1))
}

/// Read a little-endian 16-bit value at the cursor.
pub fn read_u16(buf: &[u8], pos: usize) -> (r: Option<(u16, usize)>)
    ensures
        match r {
            Some((x, end)) => {
                &&& pos <= end <= buf@.len()
                &&& spec_take_u16(buf@.skip(pos as int)) == Some((x, buf@.skip(end as int)))
            },
            None => pos > buf@.len() || spec_take_u16(buf@.skip(pos as int)) is None,
        },
{
    if pos >= buf.len() || buf.len() - pos < 2 {
        return None;
    }
    let x = u16_from_le_bytes(slice_subrange(buf, pos, pos + 2));
    proof {
        assert(buf@.skip(pos as int).take(2) =~= buf@.subrange(pos as int, pos as int + 2));
        assert(buf@.skip(pos as int).skip(2) =~= buf@.skip(pos as int + 2));
    }
    Some((x, pos + 2))
}

/// Read a little-endian 32-bit value at the cursor.
pub fn read_u32(buf: &[u8], pos: usize) -> (r: Option<(u32, usize)>)
    ensures
        match r {
            Some((x, end)) => {
                &&& pos <= end <= buf@.len()
                &&& spec_take_u32(buf@.skip(pos as int)) == Some((x, buf@.skip(end as int)))
            },
            None => pos > buf@.len() || spec_take_u32(buf@.skip(pos as int)) is None,
        },
{
    if pos >= buf.len() || buf.len() - pos < 4 {
        return None;
    }
    let x = u32_from_le_bytes(slice_subrange(buf, pos, pos + 4));
    proof {
        assert(buf@.skip(pos as int).take(4) =~= buf@.subrange(pos as int, pos as int + 4));
        assert(buf@.skip(pos as int).skip(4) =~= buf@.skip(pos as int + 4));
    }
    Some((x, pos + 4))
}

/// Read a little-endian 64-bit value at the cursor.
pub fn read_u64(buf: &[u8], pos: usize) -> (r: Option<(u64, usize)>)
    ensures
        match r {
            Some((x, end)) => {
                &&& pos <= end <= buf@.len()
                &&& spec_take_u64(buf@.skip(pos as int)) == Some((x, buf@.skip(end as int)))
            },
            None => pos > buf@.len() || spec_take_u64(buf@.skip(pos as int)) is None,
        },
{
    if pos >= buf.len() || buf.len() - pos < 8 {
        return None;
    }
    let x = u64_from_le_bytes(slice_subrange(buf, pos, pos + 8));
    proof {
        assert(buf@.skip(pos as int).take(8) =~= buf@.subrange(pos as int, pos as int + 8));
        assert(buf@.skip(pos as int).skip(8) =~= buf@.skip(pos as int + 8));
    }
    Some((x, pos + 8))
}

/// Read a signed 64-bit value at the cursor.
pub fn read_i64(buf: &[u8], pos: usize) -> (r: Option<(i64, usize)>)
    ensures
        match r {
            Some((x, end)) => {
                &&& pos <= end <= buf@.len()
                &&& spec_take_i64(buf@.skip(pos as int)) == Some((x, buf@.skip(end as int)))
            },
            None => pos > buf@.len() || spec_take_i64(buf@.skip(pos as int)) is None,
        },
{
    match read_u64(buf, pos) {
        Some((x, end)) => Some((x as i64, end)),
        None => None,
    }
}

/// Read a boolean at the cursor.
pub fn read_bool(buf: &[u8], pos: usize) -> (r: Option<(bool, usize)>)
    ensures
        match r {
            Some((b, end)) => {
                &&& pos <= end <= buf@.len()
                &&& spec_take_bool(buf@.skip(pos as int)) == Some((b, buf@.skip(end as int)))
            },
            None => pos > buf@.len() || spec_take_bool(buf@.skip(pos as int)) is None,
        },
{
    match read_u8(buf, pos) {
        Some((x, end)) => if x == 0 {
            Some((false, end))
        } else if x == 1 {
            Some((true, end))
        } else {
            None
        },
        None => None,
    }
}

/// Read a length-prefixed byte string at the cursor, rejecting a length
/// beyond `max`.
pub fn read_bytes(buf: &[u8], pos: usize, max: usize) -> (r: Option<(Vec<u8>, usize)>)
    ensures
        match r {
            Some((b, end)) => {
                &&& pos <= end <= buf@.len()
                &&& spec_take_bytes(buf@.skip(pos as int), max as int) == Some(
                    (b@, buf@.skip(end as int)),
                )
                &&& b@.len() <= max
            },
            None => pos > buf@.len() || spec_take_bytes(buf@.skip(pos as int), max as int) is None,
        },
{
    let (n, mid) = match read_u32(buf, pos) {
        Some(v) => v,
        None => {
            return None;
        },
    };
    if (n as usize) > max || n as usize > buf.len() - mid {
        return None;
    }
    let end = mid + n as usize;
    let b = slice_to_vec(slice_subrange(buf, mid, end));
    proof {
        assert(buf@.skip(mid as int).take(n as int) =~= buf@.subrange(mid as int, end as int));
        assert(buf@.skip(mid as int).skip(n as int) =~= buf@.skip(end as int));
    }
    Some((b, end))
}

// ---------------------------------------------------------------------
// Reading back what was encoded, at the spec level. Each lemma says the
// front reader consumes exactly the field's encoding and hands back the
// rest of the stream.
// ---------------------------------------------------------------------
/// Reading a byte sequence starting with `x`'s byte yields `x`.
pub proof fn lemma_take_u8(x: u8, rest: Seq<u8>)
    ensures
        spec_take_u8(seq![x] + rest) == Some((x, rest)),
{
    assert((seq![x] + rest).skip(1) =~= rest);
}

/// Reading a byte sequence starting with `x`'s encoding yields `x`.
pub proof fn lemma_take_u16(x: u16, rest: Seq<u8>)
    ensures
        spec_take_u16(spec_u16_to_le_bytes(x) + rest) == Some((x, rest)),
{
    lemma_auto_spec_u16_to_from_le_bytes();
    let s = spec_u16_to_le_bytes(x) + rest;
    assert(s.take(2) =~= spec_u16_to_le_bytes(x));
    assert(s.skip(2) =~= rest);
}

/// Reading a byte sequence starting with `x`'s encoding yields `x`.
pub proof fn lemma_take_u32(x: u32, rest: Seq<u8>)
    ensures
        spec_take_u32(spec_u32_to_le_bytes(x) + rest) == Some((x, rest)),
{
    lemma_auto_spec_u32_to_from_le_bytes();
    let s = spec_u32_to_le_bytes(x) + rest;
    assert(s.take(4) =~= spec_u32_to_le_bytes(x));
    assert(s.skip(4) =~= rest);
}

/// Reading a byte sequence starting with `x`'s encoding yields `x`.
pub proof fn lemma_take_u64(x: u64, rest: Seq<u8>)
    ensures
        spec_take_u64(spec_u64_to_le_bytes(x) + rest) == Some((x, rest)),
{
    lemma_auto_spec_u64_to_from_le_bytes();
    let s = spec_u64_to_le_bytes(x) + rest;
    assert(s.take(8) =~= spec_u64_to_le_bytes(x));
    assert(s.skip(8) =~= rest);
}

/// Reading a byte sequence starting with `x`'s encoding yields `x`: the
/// two's-complement image decodes to the signed value it came from.
pub proof fn lemma_take_i64(x: i64, rest: Seq<u8>)
    ensures
        spec_take_i64(spec_i64_to_le_bytes(x) + rest) == Some((x, rest)),
{
    lemma_take_u64(x as u64, rest);
    assert(((x as u64) as i64) == x) by (bit_vector);
}

/// Reading a byte sequence starting with `b`'s byte yields `b`.
pub proof fn lemma_take_bool(b: bool, rest: Seq<u8>)
    ensures
        spec_take_bool(seq![spec_bool_to_byte(b)] + rest) == Some((b, rest)),
{
    lemma_take_u8(spec_bool_to_byte(b), rest);
}

/// Reading a byte sequence starting with a byte string's encoding yields
/// that byte string, for any string within the reader's bound.
pub proof fn lemma_take_bytes(b: Seq<u8>, rest: Seq<u8>, max: int)
    requires
        b.len() <= max,
        b.len() <= u32::MAX,
    ensures
        spec_take_bytes(spec_encode_bytes(b) + rest, max) == Some((b, rest)),
{
    let n = b.len() as u32;
    assert(spec_encode_bytes(b) + rest =~= spec_u32_to_le_bytes(n) + (b + rest));
    lemma_take_u32(n, b + rest);
    assert((b + rest).take(n as int) =~= b);
    assert((b + rest).skip(n as int) =~= rest);
}

// ---------------------------------------------------------------------
// Tag enums: one byte each.
// ---------------------------------------------------------------------
/// The one-byte tag of a pool category.
pub open spec fn spec_pool_type_to_byte(t: PoolType) -> u8 {
    match t {
        PoolType::WiFiInfrastructure => 0u8,
        PoolType::LogisticsOptimization => 1u8,
        PoolType::AgricultureData => 2u8,
        PoolType::Governance => 3u8,
        PoolType::LiquidityMining => 4u8,
    }
}

/// Read a pool category tag from the front; an unknown tag is malformed.
pub open spec fn spec_take_pool_type(s: Seq<u8>) -> Option<(PoolType, Seq<u8>)> {
    match spec_take_u8(s) {
        None => None,
        Some((b, rest)) => if b == 0 {
            Some((PoolType::WiFiInfrastructure, rest))
        } else if b == 1 {
            Some((PoolType::LogisticsOptimization, rest))
        } else if b == 2 {
            Some((PoolType::AgricultureData, rest))
        } else if b == 3 {
            Some((PoolType::Governance, rest))
        } else if b == 4 {
            Some((PoolType::LiquidityMining, rest))
        } else {
            None
        },
    }
}

fn encode_pool_type(out: &mut Vec<u8>, t: PoolType)
    ensures
        final(out)@ == old(out)@ + seq![spec_pool_type_to_byte(t)],
{
    encode_u8(
        out,
        match t {
            PoolType::WiFiInfrastructure => 0,
            PoolType::LogisticsOptimization => 1,
            PoolType::AgricultureData => 2,
            PoolType::Governance => 3,
            PoolType::LiquidityMining => 4,
        },
    );
}

fn read_pool_type(buf: &[u8], pos: usize) -> (r: Option<(PoolType, usize)>)
    ensures
        match r {
            Some((t, end)) => {
                &&& pos <= end <= buf@.len()
                &&& spec_take_pool_type(buf@.skip(pos as int)) == Some((t, buf@.skip(end as int)))
            },
            None => pos > buf@.len() || spec_take_pool_type(buf@.skip(pos as int)) is None,
        },
{
    match read_u8(buf, pos) {
        None => None,
        Some((b, end)) => match b {
            0 => Some((PoolType::WiFiInfrastructure, end)),
            1 => Some((PoolType::LogisticsOptimization, end)),
            2 => Some((PoolType::AgricultureData, end)),
            3 => Some((PoolType::Governance, end)),
            4 => Some((PoolType::LiquidityMining, end)),
            _ => None,
        },
    }
}

proof fn lemma_take_pool_type(t: PoolType, rest: Seq<u8>)
    ensures
        spec_take_pool_type(seq![spec_pool_type_to_byte(t)] + rest) == Some((t, rest)),
{
    lemma_take_u8(spec_pool_type_to_byte(t), rest);
}

/// The one-byte tag of a proposal category.
pub open spec fn spec_proposal_type_to_byte(t: ProposalType) -> u8 {
    match t {
        ProposalType::ParameterChange => 0u8,
        ProposalType::TreasurySpend => 1u8,
        ProposalType::ProtocolUpgrade => 2u8,
        ProposalType::RewardRateChange => 3u8,
        ProposalType::NetworkExpansion => 4u8,
    }
}

/// Read a proposal category tag from the front; an unknown tag is
/// malformed.
pub open spec fn spec_take_proposal_type(s: Seq<u8>) -> Option<(ProposalType, Seq<u8>)> {
    match spec_take_u8(s) {
        None => None,
        Some((b, rest)) => if b == 0 {
            Some((ProposalType::ParameterChange, rest))
        } else if b == 1 {
            Some((ProposalType::TreasurySpend, rest))
        } else if b == 2 {
            Some((ProposalType::ProtocolUpgrade, rest))
        } else if b == 3 {
            Some((ProposalType::RewardRateChange, rest))
        } else if b == 4 {
            Some((ProposalType::NetworkExpansion, rest))
        } else {
            None
        },
    }
}

fn encode_proposal_type(out: &mut Vec<u8>, t: ProposalType)
    ensures
        final(out)@ == old(out)@ + seq![spec_proposal_type_to_byte(t)],
{
    encode_u8(
        out,
        match t {
            ProposalType::ParameterChange => 0,
            ProposalType::TreasurySpend => 1,
            ProposalType::ProtocolUpgrade => 2,
            ProposalType::RewardRateChange => 3,
            ProposalType::NetworkExpansion => 4,
        },
    );
}

fn read_proposal_type(buf: &[u8], pos: usize) -> (r: Option<(ProposalType, usize)>)
    ensures
        match r {
            Some((t, end)) => {
                &&& pos <= end <= buf@.len()
                &&& spec_take_proposal_type(buf@.skip(pos as int)) == Some(
                    (t, buf@.skip(end as int)),
                )
            },
            None => pos > buf@.len() || spec_take_proposal_type(buf@.skip(pos as int)) is None,
        },
{
    match read_u8(buf, pos) {
        None => None,
        Some((b, end)) => match b {
            0 => Some((ProposalType::ParameterChange, end)),
            1 => Some((ProposalType::TreasurySpend, end)),
            2 => Some((ProposalType::ProtocolUpgrade, end)),
            3 => Some((ProposalType::RewardRateChange, end)),
            4 => Some((ProposalType::NetworkExpansion, end)),
            _ => None,
        },
    }
}

proof fn lemma_take_proposal_type(t: ProposalType, rest: Seq<u8>)
    ensures
        spec_take_proposal_type(seq![spec_proposal_type_to_byte(t)] + rest) == Some((t, rest)),
{
    lemma_take_u8(spec_proposal_type_to_byte(t), rest);
}

/// The one-byte tag of a ballot choice.
pub open spec fn spec_vote_to_byte(v: Vote) -> u8 {
    match v {
        Vote::Yes => 0u8,
        Vote::No => 1u8,
        Vote::Abstain => 2u8,
    }
}

/// Read a ballot choice tag from the front; an unknown tag is malformed.
pub open spec fn spec_take_vote(s: Seq<u8>) -> Option<(Vote, Seq<u8>)> {
    match spec_take_u8(s) {
        None => None,
        Some((b, rest)) => if b == 0 {
            Some((Vote::Yes, rest))
        } else if b == 1 {
            Some((Vote::No, rest))
        } else if b == 2 {
            Some((Vote::Abstain, rest))
        } else {
            None
        },
    }
}

fn encode_vote(out: &mut Vec<u8>, v: Vote)
    ensures
        final(out)@ == old(out)@ + seq![spec_vote_to_byte(v)],
{
    encode_u8(
        out,
        match v {
            Vote::Yes => 0,
            Vote::No => 1,
            Vote::Abstain => 2,
        },
    );
}

fn read_vote(buf: &[u8], pos: usize) -> (r: Option<(Vote, usize)>)
    ensures
        match r {
            Some((v, end)) => {
                &&& pos <= end <= buf@.len()
                &&& spec_take_vote(buf@.skip(pos as int)) == Some((v, buf@.skip(end as int)))
            },
            None => pos > buf@.len() || spec_take_vote(buf@.skip(pos as int)) is None,
        },
{
    match read_u8(buf, pos) {
        None => None,
        Some((b, end)) => match b {
            0 => Some((Vote::Yes, end)),
            1 => Some((Vote::No, end)),
            2 => Some((Vote::Abstain, end)),
            _ => None,
        },
    }
}

proof fn lemma_take_vote(v: Vote, rest: Seq<u8>)
    ensures
        spec_take_vote(seq![spec_vote_to_byte(v)] + rest) == Some((v, rest)),
{
    lemma_take_u8(spec_vote_to_byte(v), rest);
}

/// Concatenation is associative; used to peel one field's encoding off
/// the front of a record's image.
pub proof fn lemma_concat_assoc(a: Seq<u8>, b: Seq<u8>, c: Seq<u8>)
    ensures
        (a + b) + c == a + (b + c),
{
    assert((a + b) + c =~= a + (b + c));
}

// ---------------------------------------------------------------------
// Staking position records.
// ---------------------------------------------------------------------
/// The byte image of a staking position.
pub open spec fn spec_encode_user_stake(r: UserStake) -> Seq<u8> {
    spec_u64_to_le_bytes(r.user.id) + (spec_u64_to_le_bytes(r.pool.id) + (spec_u64_to_le_bytes(
        r.amount,
    ) + (spec_i64_to_le_bytes(r.start_time) + (spec_i64_to_le_bytes(r.last_reward_claim)
        + spec_u64_to_le_bytes(r.pending_rewards)))))
}

/// Read a staking position from the front.
pub open spec fn spec_take_user_stake(s: Seq<u8>) -> Option<(UserStake, Seq<u8>)> {
    match spec_take_u64(s) {
        None => None,
        Some((user_id, s)) => match spec_take_u64(s) {
            None => None,
            Some((pool_id, s)) => match spec_take_u64(s) {
                None => None,
                Some((amount, s)) => match spec_take_i64(s) {
                    None => None,
                    Some((start_time, s)) => match spec_take_i64(s) {
                        None => None,
                        Some((last_reward_claim, s)) => match spec_take_u64(s) {
                            None => None,
                            Some((pending_rewards, s)) => Some(
                                (
                                    UserStake {
                                        user: AccountId { id: user_id },
                                        pool: AccountId { id: pool_id },
                                        amount,
                                        start_time,
                                        last_reward_claim,
                                        pending_rewards,
                                    },
                                    s,
                                ),
                            ),
                        },
                    },
                },
            },
        },
    }
}

/// Append a staking position's byte image.
pub fn encode_user_stake(out: &mut Vec<u8>, r: &UserStake)
    ensures
        final(out)@ == old(out)@ + spec_encode_user_stake(*r),
{
    encode_u64(out, r.user.id);
    encode_u64(out, r.pool.id);
    encode_u64(out, r.amount);
    encode_i64(out, r.start_time);
    encode_i64(out, r.last_reward_claim);
    encode_u64(out, r.pending_rewards);
    assert(final(out)@ =~= old(out)@ + spec_encode_user_stake(*r));
}

/// Read a staking position at the cursor.
pub fn decode_user_stake(buf: &[u8], pos: usize) -> (r: Option<(UserStake, usize)>)
    ensures
        match r {
            Some((v, end)) => {
                &&& pos <= end <= buf@.len()
                &&& spec_take_user_stake(buf@.skip(pos as int)) == Some((v, buf@.skip(end as int)))
            },
            None => pos > buf@.len() || spec_take_user_stake(buf@.skip(pos as int)) is None,
        },
{
    let (user_id, pos) = match read_u64(buf, pos) {
        Some(v) => v,
        None => {
            return None;
        },
    };
    let (pool_id, pos) = match read_u64(buf, pos) {
        Some(v) => v,
        None => {
            return None;
        },
    };
    let (amount, pos) = match read_u64(buf, pos) {
        Some(v) => v,
        None => {
            return None;
        },
    };
    let (start_time, pos) = match read_i64(buf, pos) {
        Some(v) => v,
        None => {
            return None;
        },
    };
    let (last_reward_claim, pos) = match read_i64(buf, pos) {
        Some(v) => v,
        None => {
            return None;
        },
    };
    let (pending_rewards, pos) = match read_u64(buf, pos) {
        Some(v) => v,
        None => {
            return None;
        },
    };
    Some(
        (
            UserStake {
                user: AccountId { id: user_id },
                pool: AccountId { id: pool_id },
                amount,
                start_time,
                last_reward_claim,
                pending_rewards,
            },
            pos,
        ),
    )
}

/// Round trip: reading a stream that starts with a position's byte image
/// yields that position, every field preserved, and the rest of the
/// stream untouched.
pub proof fn lemma_user_stake_roundtrip(r: UserStake, rest: Seq<u8>)
    ensures
        spec_take_user_stake(spec_encode_user_stake(r) + rest) == Some((r, rest)),
{
    let e1 = spec_u64_to_le_bytes(r.user.id);
    let e2 = spec_u64_to_le_bytes(r.pool.id);
    let e3 = spec_u64_to_le_bytes(r.amount);
    let e4 = spec_i64_to_le_bytes(r.start_time);
    let e5 = spec_i64_to_le_bytes(r.last_reward_claim);
    let e6 = spec_u64_to_le_bytes(r.pending_rewards);
    lemma_concat_assoc(e1, e2 + (e3 + (e4 + (e5 + e6))), rest);
    lemma_take_u64(r.user.id, (e2 + (e3 + (e4 + (e5 + e6)))) + rest);
    lemma_concat_assoc(e2, e3 + (e4 + (e5 + e6)), rest);
    lemma_take_u64(r.pool.id, (e3 + (e4 + (e5 + e6))) + rest);
    lemma_concat_assoc(e3, e4 + (e5 + e6), rest);
    lemma_take_u64(r.amount, (e4 + (e5 + e6)) + rest);
    lemma_concat_assoc(e4, e5 + e6, rest);
    lemma_take_i64(r.start_time, (e5 + e6) + rest);
    lemma_concat_assoc(e5, e6, rest);
    lemma_take_i64(r.last_reward_claim, e6 + rest);
    lemma_take_u64(r.pending_rewards, rest);
}

// ---------------------------------------------------------------------
// Staking pool records.
// ---------------------------------------------------------------------
/// The byte image of a staking pool.
pub open spec fn spec_encode_staking_pool(r: StakingPool) -> Seq<u8> {
    seq![spec_pool_type_to_byte(r.pool_type)] + (spec_u64_to_le_bytes(r.total_staked) + (
    spec_u64_to_le_bytes(r.reward_rate) + (spec_u64_to_le_bytes(r.min_stake_amount) + (
    spec_u64_to_le_bytes(r.max_capacity) + (spec_i64_to_le_bytes(r.lock_period) + (
    spec_u64_to_le_bytes(r.total_rewards_paid) + seq![spec_bool_to_byte(r.is_active)]))))))
}

/// Read a staking pool from the front.
pub open spec fn spec_take_staking_pool(s: Seq<u8>) -> Option<(StakingPool, Seq<u8>)> {
    match spec_take_pool_type(s) {
        None => None,
        Some((pool_type, s)) => match spec_take_u64(s) {
            None => None,
            Some((total_staked, s)) => match spec_take_u64(s) {
                None => None,
                Some((reward_rate, s)) => match spec_take_u64(s) {
                    None => None,
                    Some((min_stake_amount, s)) => match spec_take_u64(s) {
                        None => None,
                        Some((max_capacity, s)) => match spec_take_i64(s) {
                            None => None,
                            Some((lock_period, s)) => match spec_take_u64(s) {
                                None => None,
                                Some((total_rewards_paid, s)) => match spec_take_bool(s) {
                                    None => None,
                                    Some((is_active, s)) => Some(
                                        (
                                            StakingPool {
                                                pool_type,
                                                total_staked,
                                                reward_rate,
                                                min_stake_amount,
                                                max_capacity,
                                                lock_period,
                                                total_rewards_paid,
                                                is_active,
                                            },
                                            s,
                                        ),
                                    ),
                                },
                            },
                        },
                    },
                },
            },
        },
    }
}

/// Append a staking pool's byte image.
pub fn encode_staking_pool(out: &mut Vec<u8>, r: &StakingPool)
    ensures
        final(out)@ == old(out)@ + spec_encode_staking_pool(*r),
{
    encode_pool_type(out, r.pool_type);
    encode_u64(out, r.total_staked);
    encode_u64(out, r.reward_rate);
    encode_u64(out, r.min_stake_amount);
    encode_u64(out, r.max_capacity);
    encode_i64(out, r.lock_period);
    encode_u64(out, r.total_rewards_paid);
    encode_bool(out, r.is_active);
    assert(final(out)@ =~= old(out)@ + spec_encode_staking_pool(*r));
}

/// Read a staking pool at the cursor.
pub fn decode_staking_pool(buf: &[u8], pos: usize) -> (r: Option<(StakingPool, usize)>)
    ensures
        match r {
            Some((v, end)) => {
                &&& pos <= end <= buf@.len()
                &&& spec_take_staking_pool(buf@.skip(pos as int)) == Some(
                    (v, buf@.skip(end as int)),
                )
            },
            None => pos > buf@.len() || spec_take_staking_pool(buf@.skip(pos as int)) is None,
        },
{
    let (pool_type, pos) = match read_pool_type(buf, pos) {
        Some(v) => v,
        None => {
            return None;
        },
    };
    let (total_staked, pos) = match read_u64(buf, pos) {
        Some(v) => v,
        None => {
            return None;
        },
    };
    let (reward_rate, pos) = match read_u64(buf, pos) {
        Some(v) => v,
        None => {
            return None;
        },
    };
    let (min_stake_amount, pos) = match read_u64(buf, pos) {
        Some(v) => v,
        None => {
            return None;
        },
    };
    let (max_capacity, pos) = match read_u64(buf, pos) {
        Some(v) => v,
        None => {
            return None;
        },
    };
    let (lock_period, pos) = match read_i64(buf, pos) {
        Some(v) => v,
        None => {
            return None;
        },
    };
    let (total_rewards_paid, pos) = match read_u64(buf, pos) {
        Some(v) => v,
        None => {
            return None;
        },
    };
    let (is_active, pos) = match read_bool(buf, pos) {
        Some(v) => v,
        None => {
            return None;
        },
    };
    Some(
        (
            StakingPool {
                pool_type,
                total_staked,
                reward_rate,
                min_stake_amount,
                max_capacity,
                lock_period,
                total_rewards_paid,
                is_active,
            },
            pos,
        ),
    )
}

/// Round trip: reading a stream that starts with a pool's byte image
/// yields that pool, every field preserved, and the rest untouched.
pub proof fn lemma_staking_pool_roundtrip(r: StakingPool, rest: Seq<u8>)
    ensures
        spec_take_staking_pool(spec_encode_staking_pool(r) + rest) == Some((r, rest)),
{
    let e1 = seq![spec_pool_type_to_byte(r.pool_type)];
    let e2 = spec_u64_to_le_bytes(r.total_staked);
    let e3 = spec_u64_to_le_bytes(r.reward_rate);
    let e4 = spec_u64_to_le_bytes(r.min_stake_amount);
    let e5 = spec_u64_to_le_bytes(r.max_capacity);
    let e6 = spec_i64_to_le_bytes(r.lock_period);
    let e7 = spec_u64_to_le_bytes(r.total_rewards_paid);
    let e8 = seq![spec_bool_to_byte(r.is_active)];
    lemma_concat_assoc(e1, e2 + (e3 + (e4 + (e5 + (e6 + (e7 + e8))))), rest);
    lemma_take_pool_type(r.pool_type, (e2 + (e3 + (e4 + (e5 + (e6 + (e7 + e8)))))) + rest);
    lemma_concat_assoc(e2, e3 + (e4 + (e5 + (e6 + (e7 + e8)))), rest);
    lemma_take_u64(r.total_staked, (e3 + (e4 + (e5 + (e6 + (e7 + e8))))) + rest);
    lemma_concat_assoc(e3, e4 + (e5 + (e6 + (e7 + e8))), rest);
    lemma_take_u64(r.reward_rate, (e4 + (e5 + (e6 + (e7 + e8)))) + rest);
    lemma_concat_assoc(e4, e5 + (e6 + (e7 + e8)), rest);
    lemma_take_u64(r.min_stake_amount, (e5 + (e6 + (e7 + e8))) + rest);
    lemma_concat_assoc(e5, e6 + (e7 + e8), rest);
    lemma_take_u64(r.max_capacity, (e6 + (e7 + e8)) + rest);
    lemma_concat_assoc(e6, e7 + e8, rest);
    lemma_take_i64(r.lock_period, (e7 + e8) + rest);
    lemma_concat_assoc(e7, e8, rest);
    lemma_take_u64(r.total_rewards_paid, e8 + rest);
    lemma_take_bool(r.is_active, rest);
}

// ---------------------------------------------------------------------
// Ballot records.
// ---------------------------------------------------------------------
/// The byte image of a ballot.
pub open spec fn spec_encode_user_vote(r: UserVote) -> Seq<u8> {
    spec_u64_to_le_bytes(r.voter.id) + (spec_u64_to_le_bytes(r.proposal.id) + (seq![
        spec_vote_to_byte(r.vote),
    ] + (spec_u64_to_le_bytes(r.voting_power) + spec_i64_to_le_bytes(r.timestamp))))
}

/// Read a ballot from the front.
pub open spec fn spec_take_user_vote(s: Seq<u8>) -> Option<(UserVote, Seq<u8>)> {
    match spec_take_u64(s) {
        None => None,
        Some((voter_id, s)) => match spec_take_u64(s) {
            None => None,
            Some((proposal_id, s)) => match spec_take_vote(s) {
                None => None,
                Some((vote, s)) => match spec_take_u64(s) {
                    None => None,
                    Some((voting_power, s)) => match spec_take_i64(s) {
                        None => None,
                        Some((timestamp, s)) => Some(
                            (
                                UserVote {
                                    voter: AccountId { id: voter_id },
                                    proposal: AccountId { id: proposal_id },
                                    vote,
                                    voting_power,
                                    timestamp,
                                },
                                s,
                            ),
                        ),
                    },
                },
            },
        },
    }
}

/// Append a ballot's byte image.
pub fn encode_user_vote(out: &mut Vec<u8>, r: &UserVote)
    ensures
        final(out)@ == old(out)@ + spec_encode_user_vote(*r),
{
    encode_u64(out, r.voter.id);
    encode_u64(out, r.proposal.id);
    encode_vote(out, r.vote);
    encode_u64(out, r.voting_power);
    encode_i64(out, r.timestamp);
    assert(final(out)@ =~= old(out)@ + spec_encode_user_vote(*r));
}

/// Read a ballot at the cursor.
pub fn decode_user_vote(buf: &[u8], pos: usize) -> (r: Option<(UserVote, usize)>)
    ensures
        match r {
            Some((v, end)) => {
                &&& pos <= end <= buf@.len()
                &&& spec_take_user_vote(buf@.skip(pos as int)) == Some((v, buf@.skip(end as int)))
            },
            None => pos > buf@.len() || spec_take_user_vote(buf@.skip(pos as int)) is None,
        },
{
    let (voter_id, pos) = match read_u64(buf, pos) {
        Some(v) => v,
        None => {
            return None;
        },
    };
    let (proposal_id, pos) = match read_u64(buf, pos) {
        Some(v) => v,
        None => {
            return None;
        },
    };
    let (vote, pos) = match read_vote(buf, pos) {
        Some(v) => v,
        None => {
            return None;
        },
    };
    let (voting_power, pos) = match read_u64(buf, pos) {
        Some(v) => v,
        None => {
            return None;
        },
    };
    let (timestamp, pos) = match read_i64(buf, pos) {
        Some(v) => v,
        None => {
            return None;
        },
    };
    Some(
        (
            UserVote {
                voter: AccountId { id: voter_id },
                proposal: AccountId { id: proposal_id },
                vote,
                voting_power,
                timestamp,
            },
            pos,
        ),
    )
}

/// Round trip: reading a stream that starts with a ballot's byte image
/// yields that ballot, every field preserved, and the rest untouched.
pub proof fn lemma_user_vote_roundtrip(r: UserVote, rest: Seq<u8>)
    ensures
        spec_take_user_vote(spec_encode_user_vote(r) + rest) == Some((r, rest)),
{
    let e1 = spec_u64_to_le_bytes(r.voter.id);
    let e2 = spec_u64_to_le_bytes(r.proposal.id);
    let e3 = seq![spec_vote_to_byte(r.vote)];
    let e4 = spec_u64_to_le_bytes(r.voting_power);
    let e5 = spec_i64_to_le_bytes(r.timestamp);
    lemma_concat_assoc(e1, e2 + (e3 + (e4 + e5)), rest);
    lemma_take_u64(r.voter.id, (e2 + (e3 + (e4 + e5))) + rest);
    lemma_concat_assoc(e2, e3 + (e4 + e5), rest);
    lemma_take_u64(r.proposal.id, (e3 + (e4 + e5)) + rest);
    lemma_concat_assoc(e3, e4 + e5, rest);
    lemma_take_vote(r.vote, (e4 + e5) + rest);
    lemma_concat_assoc(e4, e5, rest);
    lemma_take_u64(r.voting_power, e5 + rest);
    lemma_take_i64(r.timestamp, rest);
}

// ---------------------------------------------------------------------
// User profile records.
// ---------------------------------------------------------------------
/// The byte image of a user profile.
pub open spec fn spec_encode_user_profile(r: UserProfile) -> Seq<u8> {
    spec_u64_to_le_bytes(r.owner.id) + (spec_u64_to_le_bytes(r.total_earned) + (
    spec_u64_to_le_bytes(r.total_staked) + (spec_u16_to_le_bytes(r.reputation_score) + (
    spec_i64_to_le_bytes(r.last_activity) + (seq![r.wifi_hotspots] + (seq![r.logistics_partners]
        + (seq![r.farms] + spec_u32_to_le_bytes(r.governance_votes))))))))
}

/// Read a user profile from the front.
pub open spec fn spec_take_user_profile(s: Seq<u8>) -> Option<(UserProfile, Seq<u8>)> {
    match spec_take_u64(s) {
        None => None,
        Some((owner_id, s)) => match spec_take_u64(s) {
            None => None,
            Some((total_earned, s)) => match spec_take_u64(s) {
                None => None,
                Some((total_staked, s)) => match spec_take_u16(s) {
                    None => None,
                    Some((reputation_score, s)) => match spec_take_i64(s) {
                        None => None,
                        Some((last_activity, s)) => match spec_take_u8(s) {
                            None => None,
                            Some((wifi_hotspots, s)) => match spec_take_u8(s) {
                                None => None,
                                Some((logistics_partners, s)) => match spec_take_u8(s) {
                                    None => None,
                                    Some((farms, s)) => match spec_take_u32(s) {
                                        None => None,
                                        Some((governance_votes, s)) => Some(
                                            (
                                                UserProfile {
                                                    owner: AccountId { id: owner_id },
                                                    total_earned,
                                                    total_staked,
                                                    reputation_score,
                                                    last_activity,
                                                    wifi_hotspots,
                                                    logistics_partners,
                                                    farms,
                                                    governance_votes,
                                                },
                                                s,
                                            ),
                                        ),
                                    },
                                },
                            },
                        },
                    },
                },
            },
        },
    }
}

/// Append a user profile's byte image.
pub fn encode_user_profile(out: &mut Vec<u8>, r: &UserProfile)
    ensures
        final(out)@ == old(out)@ + spec_encode_user_profile(*r),
{
    encode_u64(out, r.owner.id);
    encode_u64(out, r.total_earned);
    encode_u64(out, r.total_staked);
    encode_u16(out, r.reputation_score);
    encode_i64(out, r.last_activity);
    encode_u8(out, r.wifi_hotspots);
    encode_u8(out, r.logistics_partners);
    encode_u8(out, r.farms);
    encode_u32(out, r.governance_votes);
    assert(final(out)@ =~= old(out)@ + spec_encode_user_profile(*r));
}

/// Read a user profile at the cursor.
pub fn decode_user_profile(buf: &[u8], pos: usize) -> (r: Option<(UserProfile, usize)>)
    ensures
        match r {
            Some((v, end)) => {
                &&& pos <= end <= buf@.len()
                &&& spec_take_user_profile(buf@.skip(pos as int)) == Some(
                    (v, buf@.skip(end as int)),
                )
            },
            None => pos > buf@.len() || spec_take_user_profile(buf@.skip(pos as int)) is None,
        },
{
    let (owner_id, pos) = match read_u64(buf, pos) {
        Some(v) => v,
        None => {
            return None;
        },
    };
    let (total_earned, pos) = match read_u64(buf, pos) {
        Some(v) => v,
        None => {
            return None;
        },
    };
    let (total_staked, pos) = match read_u64(buf, pos) {
        Some(v) => v,
        None => {
            return None;
        },
    };
    let (reputation_score, pos) = match read_u16(buf, pos) {
        Some(v) => v,
        None => {
            return None;
        },
    };
    let (last_activity, pos) = match read_i64(buf, pos) {
        Some(v) => v,
        None => {
            return None;
        },
    };
    let (wifi_hotspots, pos) = match read_u8(buf, pos) {
        Some(v) => v,
        None => {
            return None;
        },
    };
    let (logistics_partners, pos) = match read_u8(buf, pos) {
        Some(v) => v,
        None => {
            return None;
        },
    };
    let (farms, pos) = match read_u8(buf, pos) {
        Some(v) => v,
        None => {
            return None;
        },
    };
    let (governance_votes, pos) = match read_u32(buf, pos) {
        Some(v) => v,
        None => {
            return None;
        },
    };
    Some(
        (
            UserProfile {
                owner: AccountId { id: owner_id },
                total_earned,
                total_staked,
                reputation_score,
                last_activity,
                wifi_hotspots,
                logistics_partners,
                farms,
                governance_votes,
            },
            pos,
        ),
    )
}

/// Round trip: reading a stream that starts with a profile's byte image
/// yields that profile, every field preserved, and the rest untouched.
pub proof fn lemma_user_profile_roundtrip(r: UserProfile, rest: Seq<u8>)
    ensures
        spec_take_user_profile(spec_encode_user_profile(r) + rest) == Some((r, rest)),
{
    let e1 = spec_u64_to_le_bytes(r.owner.id);
    let e2 = spec_u64_to_le_bytes(r.total_earned);
    let e3 = spec_u64_to_le_bytes(r.total_staked);
    let e4 = spec_u16_to_le_bytes(r.reputation_score);
    let e5 = spec_i64_to_le_bytes(r.last_activity);
    let e6 = seq![r.wifi_hotspots];
    let e7 = seq![r.logistics_partners];
    let e8 = seq![r.farms];
    let e9 = spec_u32_to_le_bytes(r.governance_votes);
    lemma_concat_assoc(e1, e2 + (e3 + (e4 + (e5 + (e6 + (e7 + (e8 + e9)))))), rest);
    lemma_take_u64(r.owner.id, (e2 + (e3 + (e4 + (e5 + (e6 + (e7 + (e8 + e9))))))) + rest);
    lemma_concat_assoc(e2, e3 + (e4 + (e5 + (e6 + (e7 + (e8 + e9))))), rest);
    lemma_take_u64(r.total_earned, (e3 + (e4 + (e5 + (e6 + (e7 + (e8 + e9)))))) + rest);
    lemma_concat_assoc(e3, e4 + (e5 + (e6 + (e7 + (e8 + e9)))), rest);
    lemma_take_u64(r.total_staked, (e4 + (e5 + (e6 + (e7 + (e8 + e9))))) + rest);
    lemma_concat_assoc(e4, e5 + (e6 + (e7 + (e8 + e9))), rest);
    lemma_take_u16(r.reputation_score, (e5 + (e6 + (e7 + (e8 + e9)))) + rest);
    lemma_concat_assoc(e5, e6 + (e7 + (e8 + e9)), rest);
    lemma_take_i64(r.last_activity, (e6 + (e7 + (e8 + e9))) + rest);
    lemma_concat_assoc(e6, e7 + (e8 + e9), rest);
    lemma_take_u8(r.wifi_hotspots, (e7 + (e8 + e9)) + rest);
    lemma_concat_assoc(e7, e8 + e9, rest);
    lemma_take_u8(r.logistics_partners, (e8 + e9) + rest);
    lemma_concat_assoc(e8, e9, rest);
    lemma_take_u8(r.farms, e9 + rest);
    lemma_take_u32(r.governance_votes, rest);
}

// ---------------------------------------------------------------------
// The network registry record.
// ---------------------------------------------------------------------
/// The byte image of the registry's identities, supply and staked total.
pub open spec fn spec_encode_registry_head(r: NetworkState) -> Seq<u8> {
    spec_u64_to_le_bytes(r.authority.id) + (spec_u64_to_le_bytes(r.mint.id) + (
    spec_u64_to_le_bytes(r.total_supply) + spec_u64_to_le_bytes(r.total_staked)))
}

/// The byte image of the registry's five per-category entity counts.
pub open spec fn spec_encode_registry_counts(r: NetworkState) -> Seq<u8> {
    spec_u32_to_le_bytes(r.wifi_hotspots_count) + (spec_u32_to_le_bytes(
        r.logistics_partners_count,
    ) + (spec_u32_to_le_bytes(r.farms_count) + (spec_u32_to_le_bytes(r.healthcare_providers_count)
        + spec_u32_to_le_bytes(r.tax_points_count))))
}

/// The byte image of the registry's five per-category reward rates.
pub open spec fn spec_encode_registry_rates(r: NetworkState) -> Seq<u8> {
    spec_u64_to_le_bytes(r.wifi_reward_rate) + (spec_u64_to_le_bytes(r.logistics_reward_rate) + (
    spec_u64_to_le_bytes(r.agriculture_reward_rate) + (spec_u64_to_le_bytes(
        r.healthcare_reward_rate,
    ) + spec_u64_to_le_bytes(r.taxation_reward_rate))))
}

/// The byte image of the registry's clock, threshold and sequence.
pub open spec fn spec_encode_registry_tail(r: NetworkState) -> Seq<u8> {
    spec_i64_to_le_bytes(r.last_reward_distribution) + (spec_u64_to_le_bytes(
        r.governance_threshold,
    ) + spec_u64_to_le_bytes(r.proposals_count))
}

/// The byte image of the network registry.
pub open spec fn spec_encode_network_state(r: NetworkState) -> Seq<u8> {
    spec_encode_registry_head(r) + (spec_encode_registry_counts(r) + (spec_encode_registry_rates(r)
        + spec_encode_registry_tail(r)))
}

/// Read the registry's identities, supply and staked total.
pub open spec fn spec_take_registry_head(s: Seq<u8>) -> Option<((u64, u64, u64, u64), Seq<u8>)> {
    match spec_take_u64(s) {
        None => None,
        Some((authority_id, s)) => match spec_take_u64(s) {
            None => None,
            Some((mint_id, s)) => match spec_take_u64(s) {
                None => None,
                Some((total_supply, s)) => match spec_take_u64(s) {
                    None => None,
                    Some((total_staked, s)) => Some(
                        ((authority_id, mint_id, total_supply, total_staked), s),
                    ),
                },
            },
        },
    }
}

/// Read the registry's five per-category entity counts.
pub open spec fn spec_take_registry_counts(s: Seq<u8>) -> Option<
    ((u32, u32, u32, u32, u32), Seq<u8>),
> {
    match spec_take_u32(s) {
        None => None,
        Some((wifi, s)) => match spec_take_u32(s) {
            None => None,
            Some((logistics, s)) => match spec_take_u32(s) {
                None => None,
                Some((farms, s)) => match spec_take_u32(s) {
                    None => None,
                    Some((healthcare, s)) => match spec_take_u32(s) {
                        None => None,
                        Some((tax, s)) => Some(((wifi, logistics, farms, healthcare, tax), s)),
                    },
                },
            },
        },
    }
}

/// Read the registry's five per-category reward rates.
pub open spec fn spec_take_registry_rates(s: Seq<u8>) -> Option<
    ((u64, u64, u64, u64, u64), Seq<u8>),
> {
    match spec_take_u64(s) {
        None => None,
        Some((wifi, s)) => match spec_take_u64(s) {
            None => None,
            Some((logistics, s)) => match spec_take_u64(s) {
                None => None,
                Some((agriculture, s)) => match spec_take_u64(s) {
                    None => None,
                    Some((healthcare, s)) => match spec_take_u64(s) {
                        None => None,
                        Some((tax, s)) => Some(
                            ((wifi, logistics, agriculture, healthcare, tax), s),
                        ),
                    },
                },
            },
        },
    }
}

/// Read the registry's distribution clock, threshold and sequence.
pub open spec fn spec_take_registry_tail(s: Seq<u8>) -> Option<((i64, u64, u64), Seq<u8>)> {
    match spec_take_i64(s) {
        None => None,
        Some((last_reward_distribution, s)) => match spec_take_u64(s) {
            None => None,
            Some((governance_threshold, s)) => match spec_take_u64(s) {
                None => None,
                Some((proposals_count, s)) => Some(
                    ((last_reward_distribution, governance_threshold, proposals_count), s),
                ),
            },
        },
    }
}

/// Read the network registry from the front.
pub open spec fn spec_take_network_state(s: Seq<u8>) -> Option<(NetworkState, Seq<u8>)> {
    match spec_take_registry_head(s) {
        None => None,
        Some((head, s)) => match spec_take_registry_counts(s) {
            None => None,
            Some((counts, s)) => match spec_take_registry_rates(s) {
                None => None,
                Some((rates, s)) => match spec_take_registry_tail(s) {
                    None => None,
                    Some((tail, s)) => Some(
                        (
                            NetworkState {
                                authority: AccountId { id: head.0 },
                                mint: AccountId { id: head.1 },
                                total_supply: head.2,
                                total_staked: head.3,
                                wifi_hotspots_count: counts.0,
                                logistics_partners_count: counts.1,
                                farms_count: counts.2,
                                healthcare_providers_count: counts.3,
                                tax_points_count: counts.4,
                                wifi_reward_rate: rates.0,
                                logistics_reward_rate: rates.1,
                                agriculture_reward_rate: rates.2,
                                healthcare_reward_rate: rates.3,
                                taxation_reward_rate: rates.4,
                                last_reward_distribution: tail.0,
                                governance_threshold: tail.1,
                                proposals_count: tail.2,
                            },
                            s,
                        ),
                    ),
                },
            },
        },
    }
}

/// Append the network registry's byte image.
#[verifier::rlimit(50)]
pub fn encode_network_state(out: &mut Vec<u8>, r: &NetworkState)
    ensures
        final(out)@ == old(out)@ + spec_encode_network_state(*r),
{
    encode_u64(out, r.authority.id);
    encode_u64(out, r.mint.id);
    encode_u64(out, r.total_supply);
    encode_u64(out, r.total_staked);
    encode_u32(out, r.wifi_hotspots_count);
    encode_u32(out, r.logistics_partners_count);
    encode_u32(out, r.farms_count);
    encode_u32(out, r.healthcare_providers_count);
    encode_u32(out, r.tax_points_count);
    encode_u64(out, r.wifi_reward_rate);
    encode_u64(out, r.logistics_reward_rate);
    encode_u64(out, r.agriculture_reward_rate);
    encode_u64(out, r.healthcare_reward_rate);
    encode_u64(out, r.taxation_reward_rate);
    encode_i64(out, r.last_reward_distribution);
    encode_u64(out, r.governance_threshold);
    encode_u64(out, r.proposals_count);
    assert(final(out)@ =~= old(out)@ + spec_encode_network_state(*r));
}

/// Read the network registry at the cursor.
pub fn decode_network_state(buf: &[u8], pos: usize) -> (r: Option<(NetworkState, usize)>)
    ensures
        match r {
            Some((v, end)) => {
                &&& pos <= end <= buf@.len()
                &&& spec_take_network_state(buf@.skip(pos as int)) == Some(
                    (v, buf@.skip(end as int)),
                )
            },
            None => pos > buf@.len() || spec_take_network_state(buf@.skip(pos as int)) is None,
        },
{
    let (authority_id, pos) = match read_u64(buf, pos) {
        Some(v) => v,
        None => {
            return None;
        },
    };
    let (mint_id, pos) = match read_u64(buf, pos) {
        Some(v) => v,
        None => {
            return None;
        },
    };
    let (total_supply, pos) = match read_u64(buf, pos) {
        Some(v) => v,
        None => {
            return None;
        },
    };
    let (total_staked, pos) = match read_u64(buf, pos) {
        Some(v) => v,
        None => {
            return None;
        },
    };
    let (wifi_hotspots_count, pos) = match read_u32(buf, pos) {
        Some(v) => v,
        None => {
            return None;
        },
    };
    let (logistics_partners_count, pos) = match read_u32(buf, pos) {
        Some(v) => v,
        None => {
            return None;
        },
    };
    let (farms_count, pos) = match read_u32(buf, pos) {
        Some(v) => v,
        None => {
            return None;
        },
    };
    let (healthcare_providers_count, pos) = match read_u32(buf, pos) {
        Some(v) => v,
        None => {
            return None;
        },
    };
    let (tax_points_count, pos) = match read_u32(buf, pos) {
        Some(v) => v,
        None => {
            return None;
        },
    };
    let (wifi_reward_rate, pos) = match read_u64(buf, pos) {
        Some(v) => v,
        None => {
            return None;
        },
    };
    let (logistics_reward_rate, pos) = match read_u64(buf, pos) {
        Some(v) => v,
        None => {
            return None;
        },
    };
    let (agriculture_reward_rate, pos) = match read_u64(buf, pos) {
        Some(v) => v,
        None => {
            return None;
        },
    };
    let (healthcare_reward_rate, pos) = match read_u64(buf, pos) {
        Some(v) => v,
        None => {
            return None;
        },
    };
    let (taxation_reward_rate, pos) = match read_u64(buf, pos) {
        Some(v) => v,
        None => {
            return None;
        },
    };
    let (last_reward_distribution, pos) = match read_i64(buf, pos) {
        Some(v) => v,
        None => {
            return None;
        },
    };
    let (governance_threshold, pos) = match read_u64(buf, pos) {
        Some(v) => v,
        None => {
            return None;
        },
    };
    let (proposals_count, pos) = match read_u64(buf, pos) {
        Some(v) => v,
        None => {
            return None;
        },
    };
    Some(
        (
            NetworkState {
                authority: AccountId { id: authority_id },
                mint: AccountId { id: mint_id },
                total_supply,
                total_staked,
                wifi_hotspots_count,
                logistics_partners_count,
                farms_count,
                healthcare_providers_count,
                tax_points_count,
                wifi_reward_rate,
                logistics_reward_rate,
                agriculture_reward_rate,
                healthcare_reward_rate,
                taxation_reward_rate,
                last_reward_distribution,
                governance_threshold,
                proposals_count,
            },
            pos,
        ),
    )
}

/// Reading a stream that starts with the head stage yields its fields.
proof fn lemma_take_registry_head(r: NetworkState, rest: Seq<u8>)
    ensures
        spec_take_registry_head(spec_encode_registry_head(r) + rest) == Some(
            ((r.authority.id, r.mint.id, r.total_supply, r.total_staked), rest),
        ),
{
    let e1 = spec_u64_to_le_bytes(r.authority.id);
    let e2 = spec_u64_to_le_bytes(r.mint.id);
    let e3 = spec_u64_to_le_bytes(r.total_supply);
    let e4 = spec_u64_to_le_bytes(r.total_staked);
    lemma_concat_assoc(e1, e2 + (e3 + e4), rest);
    lemma_take_u64(r.authority.id, (e2 + (e3 + e4)) + rest);
    lemma_concat_assoc(e2, e3 + e4, rest);
    lemma_take_u64(r.mint.id, (e3 + e4) + rest);
    lemma_concat_assoc(e3, e4, rest);
    lemma_take_u64(r.total_supply, e4 + rest);
    lemma_take_u64(r.total_staked, rest);
}

/// Reading a stream that starts with the counts stage yields its fields.
proof fn lemma_take_registry_counts(r: NetworkState, rest: Seq<u8>)
    ensures
        spec_take_registry_counts(spec_encode_registry_counts(r) + rest) == Some(
            (
                (
                    r.wifi_hotspots_count,
                    r.logistics_partners_count,
                    r.farms_count,
                    r.healthcare_providers_count,
                    r.tax_points_count,
                ),
                rest,
            ),
        ),
{
    let e1 = spec_u32_to_le_bytes(r.wifi_hotspots_count);
    let e2 = spec_u32_to_le_bytes(r.logistics_partners_count);
    let e3 = spec_u32_to_le_bytes(r.farms_count);
    let e4 = spec_u32_to_le_bytes(r.healthcare_providers_count);
    let e5 = spec_u32_to_le_bytes(r.tax_points_count);
    lemma_concat_assoc(e1, e2 + (e3 + (e4 + e5)), rest);
    lemma_take_u32(r.wifi_hotspots_count, (e2 + (e3 + (e4 + e5))) + rest);
    lemma_concat_assoc(e2, e3 + (e4 + e5), rest);
    lemma_take_u32(r.logistics_partners_count, (e3 + (e4 + e5)) + rest);
    lemma_concat_assoc(e3, e4 + e5, rest);
    lemma_take_u32(r.farms_count, (e4 + e5) + rest);
    lemma_concat_assoc(e4, e5, rest);
    lemma_take_u32(r.healthcare_providers_count, e5 + rest);
    lemma_take_u32(r.tax_points_count, rest);
}

/// Reading a stream that starts with the rates stage yields its fields.
proof fn lemma_take_registry_rates(r: NetworkState, rest: Seq<u8>)
    ensures
        spec_take_registry_rates(spec_encode_registry_rates(r) + rest) == Some(
            (
                (
                    r.wifi_reward_rate,
                    r.logistics_reward_rate,
                    r.agriculture_reward_rate,
                    r.healthcare_reward_rate,
                    r.taxation_reward_rate,
                ),
                rest,
            ),
        ),
{
    let e1 = spec_u64_to_le_bytes(r.wifi_reward_rate);
    let e2 = spec_u64_to_le_bytes(r.logistics_reward_rate);
    let e3 = spec_u64_to_le_bytes(r.agriculture_reward_rate);
    let e4 = spec_u64_to_le_bytes(r.healthcare_reward_rate);
    let e5 = spec_u64_to_le_bytes(r.taxation_reward_rate);
    lemma_concat_assoc(e1, e2 + (e3 + (e4 + e5)), rest);
    lemma_take_u64(r.wifi_reward_rate, (e2 + (e3 + (e4 + e5))) + rest);
    lemma_concat_assoc(e2, e3 + (e4 + e5), rest);
    lemma_take_u64(r.logistics_reward_rate, (e3 + (e4 + e5)) + rest);
    lemma_concat_assoc(e3, e4 + e5, rest);
    lemma_take_u64(r.agriculture_reward_rate, (e4 + e5) + rest);
    lemma_concat_assoc(e4, e5, rest);
    lemma_take_u64(r.healthcare_reward_rate, e5 + rest);
    lemma_take_u64(r.taxation_reward_rate, rest);
}

/// Reading a stream that starts with the tail stage yields its fields.
proof fn lemma_take_registry_tail(r: NetworkState, rest: Seq<u8>)
    ensures
        spec_take_registry_tail(spec_encode_registry_tail(r) + rest) == Some(
            ((r.last_reward_distribution, r.governance_threshold, r.proposals_count), rest),
        ),
{
    let e1 = spec_i64_to_le_bytes(r.last_reward_distribution);
    let e2 = spec_u64_to_le_bytes(r.governance_threshold);
    let e3 = spec_u64_to_le_bytes(r.proposals_count);
    lemma_concat_assoc(e1, e2 + e3, rest);
    lemma_take_i64(r.last_reward_distribution, (e2 + e3) + rest);
    lemma_concat_assoc(e2, e3, rest);
    lemma_take_u64(r.governance_threshold, e3 + rest);
    lemma_take_u64(r.proposals_count, rest);
}

/// Round trip: reading a stream that starts with the registry's byte
/// image yields that registry, every field preserved, and the rest
/// untouched.
pub proof fn lemma_network_state_roundtrip(r: NetworkState, rest: Seq<u8>)
    ensures
        spec_take_network_state(spec_encode_network_state(r) + rest) == Some((r, rest)),
{
    let head = spec_encode_registry_head(r);
    let counts = spec_encode_registry_counts(r);
    let rates = spec_encode_registry_rates(r);
    let tail = spec_encode_registry_tail(r);
    lemma_concat_assoc(head, counts + (rates + tail), rest);
    lemma_take_registry_head(r, (counts + (rates + tail)) + rest);
    lemma_concat_assoc(counts, rates + tail, rest);
    lemma_take_registry_counts(r, (rates + tail) + rest);
    lemma_concat_assoc(rates, tail, rest);
    lemma_take_registry_rates(r, tail + rest);
    lemma_take_registry_tail(r, rest);
}

// ---------------------------------------------------------------------
// Proposal records. A proposal carries two byte strings, so its
// mathematical image is a model record whose text fields are sequences;
// the view of a proposal is that model.
// ---------------------------------------------------------------------
/// A proposal as mathematics: the same fields, with the text fields as
/// byte sequences.
pub ghost struct ProposalModel {
    pub id: u64,
    pub proposer: AccountId,
    pub title: Seq<u8>,
    pub description: Seq<u8>,
    pub proposal_type: ProposalType,
    pub yes_votes: u64,
    pub no_votes: u64,
    pub total_votes: u32,
    pub start_time: i64,
    pub end_time: i64,
    pub executed: bool,
    pub approved: bool,
}

impl View for Proposal {
    type V = ProposalModel;

    open spec fn view(&self) -> ProposalModel {
        ProposalModel {
            id: self.id,
            proposer: self.proposer,
            title: self.title@,
            description: self.description@,
            proposal_type: self.proposal_type,
            yes_votes: self.yes_votes,
            no_votes: self.no_votes,
            total_votes: self.total_votes,
            start_time: self.start_time,
            end_time: self.end_time,
            executed: self.executed,
            approved: self.approved,
        }
    }
}

/// The byte image of a proposal's identity and text.
pub open spec fn spec_encode_proposal_head(m: ProposalModel) -> Seq<u8> {
    spec_u64_to_le_bytes(m.id) + (spec_u64_to_le_bytes(m.proposer.id) + (spec_encode_bytes(m.title)
        + spec_encode_bytes(m.description)))
}

/// The byte image of a proposal's category and tallies.
pub open spec fn spec_encode_proposal_mid(m: ProposalModel) -> Seq<u8> {
    seq![spec_proposal_type_to_byte(m.proposal_type)] + (spec_u64_to_le_bytes(m.yes_votes) + (
    spec_u64_to_le_bytes(m.no_votes) + spec_u32_to_le_bytes(m.total_votes)))
}

/// The byte image of a proposal's window and flags.
pub open spec fn spec_encode_proposal_tail(m: ProposalModel) -> Seq<u8> {
    spec_i64_to_le_bytes(m.start_time) + (spec_i64_to_le_bytes(m.end_time) + (seq![
        spec_bool_to_byte(m.executed),
    ] + seq![spec_bool_to_byte(m.approved)]))
}

/// The byte image of a proposal.
pub open spec fn spec_encode_proposal(m: ProposalModel) -> Seq<u8> {
    spec_encode_proposal_head(m) + (spec_encode_proposal_mid(m) + spec_encode_proposal_tail(m))
}

/// Read a proposal's identity and text from the front.
pub open spec fn spec_take_proposal_head(s: Seq<u8>) -> Option<
    ((u64, u64, Seq<u8>, Seq<u8>), Seq<u8>),
> {
    match spec_take_u64(s) {
        None => None,
        Some((id, s)) => match spec_take_u64(s) {
            None => None,
            Some((proposer_id, s)) => match spec_take_bytes(s, MAX_TITLE_LEN as int) {
                None => None,
                Some((title, s)) => match spec_take_bytes(s, MAX_DESCRIPTION_LEN as int) {
                    None => None,
                    Some((description, s)) => Some(((id, proposer_id, title, description), s)),
                },
            },
        },
    }
}

/// Read a proposal's category and tallies from the front.
pub open spec fn spec_take_proposal_mid(s: Seq<u8>) -> Option<
    ((ProposalType, u64, u64, u32), Seq<u8>),
> {
    match spec_take_proposal_type(s) {
        None => None,
        Some((proposal_type, s)) => match spec_take_u64(s) {
            None => None,
            Some((yes_votes, s)) => match spec_take_u64(s) {
                None => None,
                Some((no_votes, s)) => match spec_take_u32(s) {
                    None => None,
                    Some((total_votes, s)) => Some(
                        ((proposal_type, yes_votes, no_votes, total_votes), s),
                    ),
                },
            },
        },
    }
}

/// Read a proposal's window and flags from the front.
pub open spec fn spec_take_proposal_tail(s: Seq<u8>) -> Option<((i64, i64, bool, bool), Seq<u8>)> {
    match spec_take_i64(s) {
        None => None,
        Some((start_time, s)) => match spec_take_i64(s) {
            None => None,
            Some((end_time, s)) => match spec_take_bool(s) {
                None => None,
                Some((executed, s)) => match spec_take_bool(s) {
                    None => None,
                    Some((approved, s)) => Some(((start_time, end_time, executed, approved), s)),
                },
            },
        },
    }
}

/// Read a proposal from the front; oversize text is malformed.
pub open spec fn spec_take_proposal(s: Seq<u8>) -> Option<(ProposalModel, Seq<u8>)> {
    match spec_take_proposal_head(s) {
        None => None,
        Some((head, s)) => match spec_take_proposal_mid(s) {
            None => None,
            Some((mid, s)) => match spec_take_proposal_tail(s) {
                None => None,
                Some((tail, s)) => Some(
                    (
                        ProposalModel {
                            id: head.0,
                            proposer: AccountId { id: head.1 },
                            title: head.2,
                            description: head.3,
                            proposal_type: mid.0,
                            yes_votes: mid.1,
                            no_votes: mid.2,
                            total_votes: mid.3,
                            start_time: tail.0,
                            end_time: tail.1,
                            executed: tail.2,
                            approved: tail.3,
                        },
                        s,
                    ),
                ),
            },
        },
    }
}

/// Append a well-formed proposal's byte image.
pub fn encode_proposal(out: &mut Vec<u8>, r: &Proposal)
    requires
        r.wf(),
    ensures
        final(out)@ == old(out)@ + spec_encode_proposal(r@),
{
    encode_u64(out, r.id);
    encode_u64(out, r.proposer.id);
    encode_bytes(out, &r.title);
    encode_bytes(out, &r.description);
    encode_proposal_type(out, r.proposal_type);
    encode_u64(out, r.yes_votes);
    encode_u64(out, r.no_votes);
    encode_u32(out, r.total_votes);
    encode_i64(out, r.start_time);
    encode_i64(out, r.end_time);
    encode_bool(out, r.executed);
    encode_bool(out, r.approved);
    assert(final(out)@ =~= old(out)@ + spec_encode_proposal(r@));
}

/// Read a proposal at the cursor. A decoded proposal is well-formed: its
/// text fields are within their hard maxima.
pub fn decode_proposal(buf: &[u8], pos: usize) -> (r: Option<(Proposal, usize)>)
    ensures
        match r {
            Some((v, end)) => {
                &&& pos <= end <= buf@.len()
                &&& spec_take_proposal(buf@.skip(pos as int)) == Some((v@, buf@.skip(end as int)))
                &&& v.wf()
            },
            None => pos > buf@.len() || spec_take_proposal(buf@.skip(pos as int)) is None,
        },
{
    let (id, pos) = match read_u64(buf, pos) {
        Some(v) => v,
        None => {
            return None;
        },
    };
    let (proposer_id, pos) = match read_u64(buf, pos) {
        Some(v) => v,
        None => {
            return None;
        },
    };
    let (title, pos) = match read_bytes(buf, pos, MAX_TITLE_LEN) {
        Some(v) => v,
        None => {
            return None;
        },
    };
    let (description, pos) = match read_bytes(buf, pos, MAX_DESCRIPTION_LEN) {
        Some(v) => v,
        None => {
            return None;
        },
    };
    let (proposal_type, pos) = match read_proposal_type(buf, pos) {
        Some(v) => v,
        None => {
            return None;
        },
    };
    let (yes_votes, pos) = match read_u64(buf, pos) {
        Some(v) => v,
        None => {
            return None;
        },
    };
    let (no_votes, pos) = match read_u64(buf, pos) {
        Some(v) => v,
        None => {
            return None;
        },
    };
    let (total_votes, pos) = match read_u32(buf, pos) {
        Some(v) => v,
        None => {
            return None;
        },
    };
    let (start_time, pos) = match read_i64(buf, pos) {
        Some(v) => v,
        None => {
            return None;
        },
    };
    let (end_time, pos) = match read_i64(buf, pos) {
        Some(v) => v,
        None => {
            return None;
        },
    };
    let (executed, pos) = match read_bool(buf, pos) {
        Some(v) => v,
        None => {
            return None;
        },
    };
    let (approved, pos) = match read_bool(buf, pos) {
        Some(v) => v,
        None => {
            return None;
        },
    };
    Some(
        (
            Proposal {
                id,
                proposer: AccountId { id: proposer_id },
                title,
                description,
                proposal_type,
                yes_votes,
                no_votes,
                total_votes,
                start_time,
                end_time,
                executed,
                approved,
            },
            pos,
        ),
    )
}

/// Reading a stream that starts with the head stage yields its fields.
proof fn lemma_take_proposal_head(m: ProposalModel, rest: Seq<u8>)
    requires
        m.title.len() <= MAX_TITLE_LEN,
        m.description.len() <= MAX_DESCRIPTION_LEN,
    ensures
        spec_take_proposal_head(spec_encode_proposal_head(m) + rest) == Some(
            ((m.id, m.proposer.id, m.title, m.description), rest),
        ),
{
    let e1 = spec_u64_to_le_bytes(m.id);
    let e2 = spec_u64_to_le_bytes(m.proposer.id);
    let e3 = spec_encode_bytes(m.title);
    let e4 = spec_encode_bytes(m.description);
    lemma_concat_assoc(e1, e2 + (e3 + e4), rest);
    lemma_take_u64(m.id, (e2 + (e3 + e4)) + rest);
    lemma_concat_assoc(e2, e3 + e4, rest);
    lemma_take_u64(m.proposer.id, (e3 + e4) + rest);
    lemma_concat_assoc(e3, e4, rest);
    lemma_take_bytes(m.title, e4 + rest, MAX_TITLE_LEN as int);
    lemma_take_bytes(m.description, rest, MAX_DESCRIPTION_LEN as int);
}

/// Reading a stream that starts with the middle stage yields its fields.
proof fn lemma_take_proposal_mid(m: ProposalModel, rest: Seq<u8>)
    ensures
        spec_take_proposal_mid(spec_encode_proposal_mid(m) + rest) == Some(
            ((m.proposal_type, m.yes_votes, m.no_votes, m.total_votes), rest),
        ),
{
    let e1 = seq![spec_proposal_type_to_byte(m.proposal_type)];
    let e2 = spec_u64_to_le_bytes(m.yes_votes);
    let e3 = spec_u64_to_le_bytes(m.no_votes);
    let e4 = spec_u32_to_le_bytes(m.total_votes);
    lemma_concat_assoc(e1, e2 + (e3 + e4), rest);
    lemma_take_proposal_type(m.proposal_type, (e2 + (e3 + e4)) + rest);
    lemma_concat_assoc(e2, e3 + e4, rest);
    lemma_take_u64(m.yes_votes, (e3 + e4) + rest);
    lemma_concat_assoc(e3, e4, rest);
    lemma_take_u64(m.no_votes, e4 + rest);
    lemma_take_u32(m.total_votes, rest);
}

/// Reading a stream that starts with the tail stage yields its fields.
proof fn lemma_take_proposal_tail(m: ProposalModel, rest: Seq<u8>)
    ensures
        spec_take_proposal_tail(spec_encode_proposal_tail(m) + rest) == Some(
            ((m.start_time, m.end_time, m.executed, m.approved), rest),
        ),
{
    let e1 = spec_i64_to_le_bytes(m.start_time);
    let e2 = spec_i64_to_le_bytes(m.end_time);
    let e3 = seq![spec_bool_to_byte(m.executed)];
    let e4 = seq![spec_bool_to_byte(m.approved)];
    lemma_concat_assoc(e1, e2 + (e3 + e4), rest);
    lemma_take_i64(m.start_time, (e2 + (e3 + e4)) + rest);
    lemma_concat_assoc(e2, e3 + e4, rest);
    lemma_take_i64(m.end_time, (e3 + e4) + rest);
    lemma_concat_assoc(e3, e4, rest);
    lemma_take_bool(m.executed, e4 + rest);
    lemma_take_bool(m.approved, rest);
}

/// Round trip: reading a stream that starts with a well-formed proposal's
/// byte image yields that proposal, every field preserved bit for bit —
/// boundary-length text included — and the rest untouched.
pub proof fn lemma_proposal_roundtrip(m: ProposalModel, rest: Seq<u8>)
    requires
        m.title.len() <= MAX_TITLE_LEN,
        m.description.len() <= MAX_DESCRIPTION_LEN,
    ensures
        spec_take_proposal(spec_encode_proposal(m) + rest) == Some((m, rest)),
{
    let head = spec_encode_proposal_head(m);
    let mid = spec_encode_proposal_mid(m);
    let tail = spec_encode_proposal_tail(m);
    lemma_concat_assoc(head, mid + tail, rest);
    lemma_take_proposal_head(m, (mid + tail) + rest);
    lemma_concat_assoc(mid, tail, rest);
    lemma_take_proposal_mid(m, tail + rest);
    lemma_take_proposal_tail(m, rest);
}

// ---------------------------------------------------------------------
// Lists of byte strings (service areas, crop types): a four-byte count
// prefix followed by each entry length-prefixed.
// ---------------------------------------------------------------------
/// The byte image of a list of byte strings, one entry after another.
pub open spec fn spec_encode_texts(texts: Seq<Seq<u8>>) -> Seq<u8>
    decreases texts.len(),
{
    if texts.len() == 0 {
        Seq::empty()
    } else {
        spec_encode_bytes(texts[0]) + spec_encode_texts(texts.skip(1))
    }
}

/// The byte image of a counted list of byte strings.
pub open spec fn spec_encode_text_list(texts: Seq<Seq<u8>>) -> Seq<u8> {
    spec_u32_to_le_bytes(texts.len() as u32) + spec_encode_texts(texts)
}

/// Read `n` byte strings from the front, each within `max_item` bytes.
pub open spec fn spec_take_texts(s: Seq<u8>, n: int, max_item: int) -> Option<
    (Seq<Seq<u8>>, Seq<u8>),
>
    decreases n,
{
    if n <= 0 {
        Some((Seq::empty(), s))
    } else {
        match spec_take_bytes(s, max_item) {
            None => None,
            Some((t, rest)) => match spec_take_texts(rest, n - 1, max_item) {
                None => None,
                Some((ts, rest)) => Some((seq![t] + ts, rest)),
            },
        }
    }
}

/// Read a counted list of byte strings from the front: at most
/// `max_count` entries of at most `max_item` bytes each.
pub open spec fn spec_take_text_list(s: Seq<u8>, max_count: int, max_item: int) -> Option<
    (Seq<Seq<u8>>, Seq<u8>),
> {
    match spec_take_u32(s) {
        None => None,
        Some((n, rest)) => if n > max_count {
            None
        } else {
            spec_take_texts(rest, n as int, max_item)
        },
    }
}

/// Append the entries of `texts` from index `i` on, each length-prefixed.
fn encode_texts_from(out: &mut Vec<u8>, texts: &Vec<Vec<u8>>, i: usize)
    requires
        i <= texts@.len(),
        forall|k: int| 0 <= k < texts@.len() ==> #[trigger] texts@[k]@.len() <= u32::MAX,
    ensures
        final(out)@ == old(out)@ + spec_encode_texts(texts.deep_view().skip(i as int)),
    decreases texts@.len() - i,
{
    if i == texts.len() {
        assert(final(out)@ =~= old(out)@ + spec_encode_texts(texts.deep_view().skip(i as int)));
        return ;
    }
    encode_bytes(out, &texts[i]);
    encode_texts_from(out, texts, i + 1);
    proof {
        let dv = texts.deep_view();
        assert(dv.skip(i as int).skip(1) =~~= dv.skip(i as int + 1));
        assert(dv[i as int] == texts@[i as int]@);
        lemma_concat_assoc(
            spec_encode_bytes(dv[i as int]),
            spec_encode_texts(dv.skip(i as int + 1)),
            Seq::empty(),
        );
        assert(spec_encode_texts(dv.skip(i as int)) == spec_encode_bytes(dv[i as int])
            + spec_encode_texts(dv.skip(i as int + 1)));
        assert(final(out)@ =~= old(out)@ + spec_encode_texts(dv.skip(i as int)));
    }
}

/// Append a counted list of byte strings.
pub fn encode_text_list(out: &mut Vec<u8>, texts: &Vec<Vec<u8>>)
    requires
        texts@.len() <= u32::MAX,
        forall|k: int| 0 <= k < texts@.len() ==> #[trigger] texts@[k]@.len() <= u32::MAX,
    ensures
        final(out)@ == old(out)@ + spec_encode_text_list(texts.deep_view()),
{
    encode_u32(out, texts.len() as u32);
    encode_texts_from(out, texts, 0);
    proof {
        let dv = texts.deep_view();
        assert(dv.skip(0) =~~= dv);
        assert(final(out)@ =~= old(out)@ + spec_encode_text_list(dv));
    }
}

/// Read `n` byte strings at the cursor.
fn read_texts(buf: &[u8], pos: usize, n: u32, max_item: usize) -> (r: Option<(Vec<Vec<u8>>, usize)>)
    ensures
        match r {
            Some((ts, end)) => {
                &&& pos <= end <= buf@.len()
                &&& ts@.len() == n
                &&& forall|k: int| 0 <= k < ts@.len() ==> #[trigger] ts@[k]@.len() <= max_item
                &&& spec_take_texts(buf@.skip(pos as int), n as int, max_item as int) == Some(
                    (ts.deep_view(), buf@.skip(end as int)),
                )
            },
            None => pos > buf@.len() || spec_take_texts(
                buf@.skip(pos as int),
                n as int,
                max_item as int,
            ) is None,
        },
    decreases n,
{
    if n == 0 {
        if pos > buf.len() {
            return None;
        }
        let ts: Vec<Vec<u8>> = Vec::new();
        proof {
            assert(ts.deep_view() =~~= Seq::<Seq<u8>>::empty());
        }
        return Some((ts, pos));
    }
    let (t, mid) = match read_bytes(buf, pos, max_item) {
        Some(v) => v,
        None => {
            return None;
        },
    };
    let (mut ts, end) = match read_texts(buf, mid, n - 1, max_item) {
        Some(v) => v,
        None => {
            return None;
        },
    };
    let ghost tail_view = ts.deep_view();
    ts.insert(0, t);
    proof {
        assert(ts.deep_view() =~~= seq![t@] + tail_view);
    }
    Some((ts, end))
}

/// Read a counted list of byte strings at the cursor, rejecting more than
/// `max_count` entries or an entry beyond `max_item` bytes.
pub fn read_text_list(buf: &[u8], pos: usize, max_count: usize, max_item: usize) -> (r: Option<
    (Vec<Vec<u8>>, usize),
>)
    requires
        max_count <= u32::MAX,
    ensures
        match r {
            Some((ts, end)) => {
                &&& pos <= end <= buf@.len()
                &&& spec_take_text_list(
                    buf@.skip(pos as int),
                    max_count as int,
                    max_item as int,
                ) == Some((ts.deep_view(), buf@.skip(end as int)))
                &&& ts.deep_view().len() <= max_count
                &&& forall|k: int| 0 <= k < ts@.len() ==> #[trigger] ts@[k]@.len() <= max_item
            },
            None => pos > buf@.len() || spec_take_text_list(
                buf@.skip(pos as int),
                max_count as int,
                max_item as int,
            ) is None,
        },
{
    let (n, mid) = match read_u32(buf, pos) {
        Some(v) => v,
        None => {
            return None;
        },
    };
    if n as usize > max_count {
        return None;
    }
    match read_texts(buf, mid, n, max_item) {
        Some((ts, end)) => {
            proof {
                assert(ts.deep_view().len() == n as int);
            }
            Some((ts, end))
        },
        None => None,
    }
}

/// The encoding of a list's entries is bounded by the entry count times
/// one entry's largest image: its four-byte prefix plus `max_item` bytes.
pub proof fn lemma_encode_texts_len(texts: Seq<Seq<u8>>, max_item: int)
    requires
        max_item >= 0,
        forall|k: int| 0 <= k < texts.len() ==> #[trigger] texts[k].len() <= max_item,
    ensures
        spec_encode_texts(texts).len() <= texts.len() * (4 + max_item),
    decreases texts.len(),
{
    if texts.len() > 0 {
        assert forall|k: int| 0 <= k < texts.skip(1).len() implies #[trigger] texts.skip(
            1,
        )[k].len() <= max_item by {
            assert(texts.skip(1)[k] == texts[k + 1]);
        }
        lemma_encode_texts_len(texts.skip(1), max_item);
        lemma_auto_spec_u32_to_from_le_bytes();
        assert(texts.skip(1).len() * (4 + max_item) + (4 + max_item) == texts.len() * (4
            + max_item)) by (nonlinear_arith)
            requires
                texts.len() >= 1,
                texts.skip(1).len() == texts.len() - 1,
        ;
    }
}

/// Reading a stream that starts with `n` encoded byte strings yields
/// exactly those strings.
proof fn lemma_take_texts(texts: Seq<Seq<u8>>, rest: Seq<u8>, max_item: int)
    requires
        forall|k: int| 0 <= k < texts.len() ==> #[trigger] texts[k].len() <= max_item,
        forall|k: int| 0 <= k < texts.len() ==> #[trigger] texts[k].len() <= u32::MAX,
    ensures
        spec_take_texts(spec_encode_texts(texts) + rest, texts.len() as int, max_item) == Some(
            (texts, rest),
        ),
    decreases texts.len(),
{
    if texts.len() == 0 {
        assert(spec_encode_texts(texts) + rest =~= rest);
        assert(texts =~~= Seq::<Seq<u8>>::empty());
    } else {
        let tail = texts.skip(1);
        lemma_concat_assoc(spec_encode_bytes(texts[0]), spec_encode_texts(tail), rest);
        lemma_take_bytes(texts[0], spec_encode_texts(tail) + rest, max_item);
        lemma_take_texts(tail, rest, max_item);
        assert(seq![texts[0]] + tail =~~= texts);
    }
}

/// Reading a stream that starts with a counted list's byte image yields
/// exactly that list, for any list within the reader's bounds.
pub proof fn lemma_take_text_list(texts: Seq<Seq<u8>>, rest: Seq<u8>, max_count: int, max_item: int)
    requires
        texts.len() <= max_count,
        max_count <= u32::MAX,
        forall|k: int| 0 <= k < texts.len() ==> #[trigger] texts[k].len() <= max_item,
        forall|k: int| 0 <= k < texts.len() ==> #[trigger] texts[k].len() <= u32::MAX,
    ensures
        spec_take_text_list(spec_encode_text_list(texts) + rest, max_count, max_item) == Some(
            (texts, rest),
        ),
{
    let n = texts.len() as u32;
    assert(spec_encode_text_list(texts) + rest =~= spec_u32_to_le_bytes(n) + (spec_encode_texts(
        texts,
    ) + rest));
    lemma_take_u32(n, spec_encode_texts(texts) + rest);
    lemma_take_texts(texts, rest, max_item);
}

// ---------------------------------------------------------------------
// Size budgets: every record pre-declares its encoded size, fixed for
// the scalar records and bounded for those that carry text, so a host
// that pre-allocates fixed storage can budget each slot.
// ---------------------------------------------------------------------
/// Encoded size of a staking position.
pub const USER_STAKE_ENCODED_LEN: usize = 48;

/// Encoded size of a staking pool.
pub const STAKING_POOL_ENCODED_LEN: usize = 50;

/// Encoded size of a ballot.
pub const USER_VOTE_ENCODED_LEN: usize = 33;

/// Encoded size of a user profile.
pub const USER_PROFILE_ENCODED_LEN: usize = 41;

/// Encoded size of the network registry.
pub const NETWORK_STATE_ENCODED_LEN: usize = 116;

/// Largest encoded size of a well-formed proposal: its fixed fields plus
/// both text fields at their hard maxima.
pub const PROPOSAL_MAX_ENCODED_LEN: usize = 63 + 100 + 500;

/// A staking position's byte image has its declared size.
pub proof fn lemma_user_stake_encoded_len(r: UserStake)
    ensures
        spec_encode_user_stake(r).len() == USER_STAKE_ENCODED_LEN,
{
    lemma_auto_spec_u64_to_from_le_bytes();
}

/// A staking pool's byte image has its declared size.
pub proof fn lemma_staking_pool_encoded_len(r: StakingPool)
    ensures
        spec_encode_staking_pool(r).len() == STAKING_POOL_ENCODED_LEN,
{
    lemma_auto_spec_u64_to_from_le_bytes();
}

/// A ballot's byte image has its declared size.
pub proof fn lemma_user_vote_encoded_len(r: UserVote)
    ensures
        spec_encode_user_vote(r).len() == USER_VOTE_ENCODED_LEN,
{
    lemma_auto_spec_u64_to_from_le_bytes();
}

/// A user profile's byte image has its declared size.
pub proof fn lemma_user_profile_encoded_len(r: UserProfile)
    ensures
        spec_encode_user_profile(r).len() == USER_PROFILE_ENCODED_LEN,
{
    lemma_auto_spec_u16_to_from_le_bytes();
    lemma_auto_spec_u32_to_from_le_bytes();
    lemma_auto_spec_u64_to_from_le_bytes();
}

/// The registry's byte image has its declared size.
pub proof fn lemma_network_state_encoded_len(r: NetworkState)
    ensures
        spec_encode_network_state(r).len() == NETWORK_STATE_ENCODED_LEN,
{
    lemma_auto_spec_u32_to_from_le_bytes();
    lemma_auto_spec_u64_to_from_le_bytes();
}

/// A proposal's byte image is its fixed fields plus its text, and within
/// the declared budget whenever the proposal is well-formed.
pub proof fn lemma_proposal_encoded_len(m: ProposalModel)
    ensures
        spec_encode_proposal(m).len() == 63 + m.title.len() + m.description.len(),
        m.title.len() <= MAX_TITLE_LEN && m.description.len() <= MAX_DESCRIPTION_LEN
            ==> spec_encode_proposal(m).len() <= PROPOSAL_MAX_ENCODED_LEN,
{
    lemma_auto_spec_u32_to_from_le_bytes();
    lemma_auto_spec_u64_to_from_le_bytes();
}

} // verus!
