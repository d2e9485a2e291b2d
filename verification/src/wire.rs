//! How values travel as bytes.
//!
//! Every value is written so that its end is known without looking for a
//! mark: a count or a length is eight bytes, lowest first; a block of bytes
//! and a text are their length and then their bytes; a flag is one byte,
//! zero or one. Each reader takes the front of the bytes it is given and
//! says what is left.

use vstd::prelude::*;
use vstd::slice::*;
use vstd::string::*;
use vstd::utf8::*;

verus! {

/// The number of bytes that a count or a length takes.
pub const LENGTH_WIDTH: usize = 8;

/// Why bytes could not be read as a value.
#[derive(Clone, Copy, Debug, PartialEq, Eq, Structural)]
pub enum DecodeError {
    /// The bytes end before the value does.
    Truncated,
    /// The bytes of a text are not UTF-8.
    InvalidText,
    /// The byte of a flag is neither zero nor one.
    InvalidFlag,
    /// Bytes are left after the value.
    TrailingBytes,
}

/// 256 to the power of `exponent`.
pub open spec fn spec_pow256(exponent: nat) -> nat
    decreases exponent,
{
    if exponent == 0 {
        1
    } else {
        256 * spec_pow256((exponent - 1) as nat)
    }
}

/// The lowest `width` digits of `value` to the base 256, lowest first.
pub open spec fn spec_le_bytes(value: nat, width: nat) -> Seq<u8>
    decreases width,
{
    if width == 0 {
        Seq::empty()
    } else {
        seq![(value % 256) as u8] + spec_le_bytes(value / 256, (width - 1) as nat)
    }
}

/// The number whose digits to the base 256 are `bytes`, lowest first.
pub open spec fn spec_le_value(bytes: Seq<u8>) -> nat
    decreases bytes.len(),
{
    if bytes.len() == 0 {
        0
    } else {
        bytes[0] as nat + 256 * spec_le_value(bytes.drop_first())
    }
}

/// A count or a length as bytes.
pub open spec fn spec_length(value: nat) -> Seq<u8> {
    spec_le_bytes(value, LENGTH_WIDTH as nat)
}

/// A block of bytes as bytes: its length, then the block.
pub open spec fn spec_block(block: Seq<u8>) -> Seq<u8> {
    spec_length(block.len()) + block
}

/// A text as bytes: its UTF-8 form as a block.
pub open spec fn spec_text(text: Seq<char>) -> Seq<u8> {
    spec_block(encode_utf8(text))
}

/// A flag as bytes.
pub open spec fn spec_flag(flag: bool) -> Seq<u8> {
    if flag {
        seq![1u8]
    } else {
        seq![0u8]
    }
}

/// Reads a count or a length from the front of `bytes`.
pub open spec fn spec_read_length(bytes: Seq<u8>) -> Result<(nat, Seq<u8>), DecodeError> {
    if bytes.len() < LENGTH_WIDTH {
        Err(DecodeError::Truncated)
    } else {
        Ok((spec_le_value(bytes.take(LENGTH_WIDTH as int)), bytes.skip(LENGTH_WIDTH as int)))
    }
}

/// Reads one byte from the front of `bytes`.
pub open spec fn spec_read_byte(bytes: Seq<u8>) -> Result<(u8, Seq<u8>), DecodeError> {
    if bytes.len() < 1 {
        Err(DecodeError::Truncated)
    } else {
        Ok((bytes[0], bytes.skip(1)))
    }
}

/// Reads a flag from the front of `bytes`.
pub open spec fn spec_read_flag(bytes: Seq<u8>) -> Result<(bool, Seq<u8>), DecodeError> {
    match spec_read_byte(bytes) {
        Err(error) => Err(error),
        Ok((byte, rest)) => if byte == 0 {
            Ok((false, rest))
        } else if byte == 1 {
            Ok((true, rest))
        } else {
            Err(DecodeError::InvalidFlag)
        },
    }
}

/// Reads a block of bytes from the front of `bytes`.
pub open spec fn spec_read_block(bytes: Seq<u8>) -> Result<(Seq<u8>, Seq<u8>), DecodeError> {
    match spec_read_length(bytes) {
        Err(error) => Err(error),
        Ok((length, rest)) => if rest.len() < length {
            Err(DecodeError::Truncated)
        } else {
            Ok((rest.take(length as int), rest.skip(length as int)))
        },
    }
}

/// Reads a text from the front of `bytes`.
pub open spec fn spec_read_text(bytes: Seq<u8>) -> Result<(Seq<char>, Seq<u8>), DecodeError> {
    match spec_read_block(bytes) {
        Err(error) => Err(error),
        Ok((block, rest)) => if valid_utf8(block) {
            Ok((decode_utf8(block), rest))
        } else {
            Err(DecodeError::InvalidText)
        },
    }
}

/// `spec_le_bytes` gives as many bytes as it is asked for.
pub proof fn lemma_le_bytes_len(value: nat, width: nat)
    ensures
        spec_le_bytes(value, width).len() == width,
    decreases width,
{
    if width > 0 {
        lemma_le_bytes_len(value / 256, (width - 1) as nat);
    }
}

/// A number below 256 to the power of `width` is read back from its `width`
/// bytes.
pub proof fn lemma_le_value_of_le_bytes(value: nat, width: nat)
    requires
        value < spec_pow256(width),
    ensures
        spec_le_value(spec_le_bytes(value, width)) == value,
    decreases width,
{
    if width > 0 {
        let rest = spec_le_bytes(value / 256, (width - 1) as nat);
        let bytes = spec_le_bytes(value, width);
        lemma_le_value_of_le_bytes(value / 256, (width - 1) as nat);
        assert(bytes.drop_first() =~= rest);
        assert(bytes[0] == (value % 256) as u8);
    }
}

/// What `bytes` stand for is below 256 to the power of their number.
pub proof fn lemma_le_value_bound(bytes: Seq<u8>)
    ensures
        spec_le_value(bytes) < spec_pow256(bytes.len()),
    decreases bytes.len(),
{
    if bytes.len() > 0 {
        lemma_le_value_bound(bytes.drop_first());
    }
}

/// 256 to the power of eight is one more than the largest `u64`.
pub proof fn lemma_pow256_of_length_width()
    ensures
        spec_pow256(LENGTH_WIDTH as nat) == u64::MAX + 1,
        spec_pow256(7) == 0x100_0000_0000_0000,
{
    reveal_with_fuel(spec_pow256, 9);
}

/// 256 to a power grows with the power.
pub proof fn lemma_pow256_grows(low: nat, high: nat)
    requires
        low <= high,
    ensures
        spec_pow256(low) <= spec_pow256(high),
        spec_pow256(low) >= 1,
    decreases high,
{
    if low < high {
        lemma_pow256_grows(low, (high - 1) as nat);
    } else if low > 0 {
        lemma_pow256_grows((low - 1) as nat, (low - 1) as nat);
    }
}

/// A length that was written is read back, and what followed it is left.
pub proof fn lemma_read_length_of_length(value: nat, rest: Seq<u8>)
    requires
        value <= u64::MAX,
    ensures
        spec_read_length(spec_length(value) + rest) == Ok::<(nat, Seq<u8>), DecodeError>(
            (value, rest),
        ),
{
    let written = spec_length(value);
    lemma_le_bytes_len(value, LENGTH_WIDTH as nat);
    lemma_pow256_of_length_width();
    lemma_le_value_of_le_bytes(value, LENGTH_WIDTH as nat);
    assert((written + rest).take(LENGTH_WIDTH as int) =~= written);
    assert((written + rest).skip(LENGTH_WIDTH as int) =~= rest);
}

/// A block that was written is read back, and what followed it is left.
pub proof fn lemma_read_block_of_block(block: Seq<u8>, rest: Seq<u8>)
    requires
        block.len() <= u64::MAX,
    ensures
        spec_read_block(spec_block(block) + rest) == Ok::<(Seq<u8>, Seq<u8>), DecodeError>(
            (block, rest),
        ),
{
    lemma_read_length_of_length(block.len(), block + rest);
    assert(spec_block(block) + rest =~= spec_length(block.len()) + (block + rest));
    assert((block + rest).take(block.len() as int) =~= block);
    assert((block + rest).skip(block.len() as int) =~= rest);
}

/// A text that was written is read back, and what followed it is left.
pub proof fn lemma_read_text_of_text(text: Seq<char>, rest: Seq<u8>)
    requires
        encode_utf8(text).len() <= u64::MAX,
    ensures
        spec_read_text(spec_text(text) + rest) == Ok::<(Seq<char>, Seq<u8>), DecodeError>(
            (text, rest),
        ),
{
    lemma_read_block_of_block(encode_utf8(text), rest);
    encode_utf8_valid_utf8(text);
    encode_utf8_decode_utf8(text);
}

/// A flag that was written is read back, and what followed it is left.
pub proof fn lemma_read_flag_of_flag(flag: bool, rest: Seq<u8>)
    ensures
        spec_read_flag(spec_flag(flag) + rest) == Ok::<(bool, Seq<u8>), DecodeError>((flag, rest)),
{
    assert((spec_flag(flag) + rest).skip(1) =~= rest);
}

/// Appends `value` to `out` as a count or a length.
pub fn write_length(out: &mut Vec<u8>, value: u64)
    ensures
        final(out)@ == old(out)@ + spec_length(value as nat),
{
    let ghost before = out@;
    let mut rest: u64 = value;
    let mut i: usize = 0;
    while i < LENGTH_WIDTH
        invariant
            i <= LENGTH_WIDTH,
            out@ + spec_le_bytes(rest as nat, (LENGTH_WIDTH - i) as nat) == before + spec_length(
                value as nat,
            ),
        decreases LENGTH_WIDTH - i,
    {
        let ghost written = out@;
        let digit: u8 = (rest % 256) as u8;
        out.push(digit);
        proof {
            let tail = spec_le_bytes((rest / 256) as nat, (LENGTH_WIDTH - i - 1) as nat);
            assert(spec_le_bytes(rest as nat, (LENGTH_WIDTH - i) as nat) == seq![digit] + tail);
            assert(out@ + tail =~= written + (seq![digit] + tail));
        }
        rest = rest / 256;
        i += 1;
    }
    assert(out@ + Seq::<u8>::empty() =~= out@);
}

/// Appends `block` to `out`: its length, then its bytes.
pub fn write_block(out: &mut Vec<u8>, block: &[u8])
    ensures
        final(out)@ == old(out)@ + spec_block(block@),
{
    let ghost before = out@;
    write_length(out, block.len() as u64);
    let ghost headed = out@;
    let mut i: usize = 0;
    while i < block.len()
        invariant
            i <= block.len(),
            out@ == headed + block@.take(i as int),
        decreases block.len() - i,
    {
        out.push(block[i]);
        assert(out@ =~= headed + block@.take(i + 1));
        i += 1;
    }
    assert(block@.take(block.len() as int) =~= block@);
    assert(out@ =~= before + spec_block(block@));
}

/// Appends `text` to `out`: the length of its UTF-8 form, then that form.
pub fn write_text(out: &mut Vec<u8>, text: &str)
    ensures
        final(out)@ == old(out)@ + spec_text(text@),
        encode_utf8(text@).len() <= usize::MAX,
{
    let form = text.as_bytes();
    assert(form@.len() == form.len());
    write_block(out, form);
}

/// Appends `flag` to `out` as one byte.
pub fn write_flag(out: &mut Vec<u8>, flag: bool)
    ensures
        final(out)@ == old(out)@ + spec_flag(flag),
{
    if flag {
        out.push(1u8);
    } else {
        out.push(0u8);
    }
    assert(out@ =~= old(out)@ + spec_flag(flag));
}

/// Whether a reader that started at `at` and answered `outcome` did what
/// `expected` says of the bytes from `at` on: a value with the same view
/// and, from the place it names, the same rest; or the same error.
pub open spec fn spec_read_as<T: View>(
    bytes: Seq<u8>,
    at: usize,
    outcome: Result<(T, usize), DecodeError>,
    expected: Result<(T::V, Seq<u8>), DecodeError>,
) -> bool {
    match outcome {
        Ok((value, next)) => {
            &&& at <= next <= bytes.len()
            &&& expected == Ok::<(T::V, Seq<u8>), DecodeError>((value@, bytes.skip(next as int)))
        },
        Err(error) => expected == Err::<(T::V, Seq<u8>), DecodeError>(error),
    }
}

/// What a reading is worth where the bytes must hold the value and nothing
/// more.
pub open spec fn spec_whole<V>(read: Result<(V, Seq<u8>), DecodeError>) -> Result<V, DecodeError> {
    match read {
        Err(error) => Err(error),
        Ok((value, rest)) => if rest.len() == 0 {
            Ok(value)
        } else {
            Err(DecodeError::TrailingBytes)
        },
    }
}

/// Whether `outcome` is what `expected` says: a value with the same view,
/// or the same error.
pub open spec fn spec_decoded_as<T: View>(
    outcome: Result<T, DecodeError>,
    expected: Result<T::V, DecodeError>,
) -> bool {
    match outcome {
        Ok(value) => expected == Ok::<T::V, DecodeError>(value@),
        Err(error) => expected == Err::<T::V, DecodeError>(error),
    }
}

/// Turns a reading of `bytes` into the value they hold, where they hold
/// nothing more.
pub(crate) fn whole<T: View>(bytes: &[u8], read: Result<(T, usize), DecodeError>) -> (outcome:
    Result<T, DecodeError>)
    requires
        read is Ok ==> read->Ok_0.1 <= bytes@.len(),
    ensures
        outcome == match read {
            Err(error) => Err::<T, DecodeError>(error),
            Ok((value, next)) => if next == bytes@.len() {
                Ok::<T, DecodeError>(value)
            } else {
                Err::<T, DecodeError>(DecodeError::TrailingBytes)
            },
        },
{
    match read {
        Err(error) => Err(error),
        Ok((value, next)) => if next == bytes.len() {
            Ok(value)
        } else {
            Err(DecodeError::TrailingBytes)
        },
    }
}

/// Reads a count or a length from `bytes` at `at`, and says where it ends.
pub(crate) fn read_length(bytes: &[u8], at: usize) -> (outcome: Result<(u64, usize), DecodeError>)
    requires
        at <= bytes@.len(),
    ensures
        match outcome {
            Ok((value, next)) => {
                &&& at <= next <= bytes@.len()
                &&& spec_read_length(bytes@.skip(at as int)) == Ok::<
                    (nat, Seq<u8>),
                    DecodeError,
                >((value as nat, bytes@.skip(next as int)))
            },
            Err(error) => spec_read_length(bytes@.skip(at as int)) == Err::<
                (nat, Seq<u8>),
                DecodeError,
            >(error),
        },
{
    if bytes.len() - at < LENGTH_WIDTH {
        return Err(DecodeError::Truncated);
    }
    let ghost window = bytes@.skip(at as int).take(LENGTH_WIDTH as int);
    let mut value: u64 = 0;
    let mut i: usize = 0;
    while i < LENGTH_WIDTH
        invariant
            i <= LENGTH_WIDTH,
            at + LENGTH_WIDTH <= bytes@.len() <= usize::MAX,
            window == bytes@.skip(at as int).take(LENGTH_WIDTH as int),
            value as nat == spec_le_value(window.skip(LENGTH_WIDTH - i)),
        decreases LENGTH_WIDTH - i,
    {
        let digit: u8 = bytes[at + (LENGTH_WIDTH - 1 - i)];
        proof {
            let seen = window.skip(LENGTH_WIDTH - i);
            let wider = window.skip(LENGTH_WIDTH - i - 1);
            lemma_le_value_bound(seen);
            lemma_pow256_grows(i as nat, 7);
            lemma_pow256_of_length_width();
            assert(wider.drop_first() =~= seen);
            assert(wider[0] == digit);
        }
        value = value * 256 + digit as u64;
        i += 1;
    }
    assert(window.skip(0) =~= window);
    assert(bytes@.skip(at as int).skip(LENGTH_WIDTH as int) =~= bytes@.skip(
        (at + LENGTH_WIDTH) as int,
    ));
    Ok((value, at + LENGTH_WIDTH))
}

/// Reads one byte from `bytes` at `at`, and says where it ends.
pub(crate) fn read_byte(bytes: &[u8], at: usize) -> (outcome: Result<(u8, usize), DecodeError>)
    requires
        at <= bytes@.len(),
    ensures
        spec_read_as(bytes@, at, outcome, spec_read_byte(bytes@.skip(at as int))),
{
    if bytes.len() - at < 1 {
        return Err(DecodeError::Truncated);
    }
    assert(bytes@.skip(at as int).skip(1) =~= bytes@.skip(at + 1));
    Ok((bytes[at], at + 1))
}

/// Reads a flag from `bytes` at `at`, and says where it ends.
pub(crate) fn read_flag(bytes: &[u8], at: usize) -> (outcome: Result<(bool, usize), DecodeError>)
    requires
        at <= bytes@.len(),
    ensures
        spec_read_as(bytes@, at, outcome, spec_read_flag(bytes@.skip(at as int))),
{
    match read_byte(bytes, at) {
        Err(error) => Err(error),
        Ok((byte, next)) => if byte == 0 {
            Ok((false, next))
        } else if byte == 1 {
            Ok((true, next))
        } else {
            Err(DecodeError::InvalidFlag)
        },
    }
}

/// Reads a block of bytes from `bytes` at `at`, and says where it ends.
pub(crate) fn read_block(bytes: &[u8], at: usize) -> (outcome: Result<(Vec<u8>, usize), DecodeError>)
    requires
        at <= bytes@.len(),
    ensures
        spec_read_as(bytes@, at, outcome, spec_read_block(bytes@.skip(at as int))),
{
    match read_length(bytes, at) {
        Err(error) => Err(error),
        Ok((length, start)) => {
            let available: u64 = (bytes.len() - start) as u64;
            if available < length {
                return Err(DecodeError::Truncated);
            }
            let end: usize = start + length as usize;
            let block = slice_to_vec(slice_subrange(bytes, start, end));
            assert(bytes@.skip(start as int).take(length as int) =~= bytes@.subrange(
                start as int,
                end as int,
            ));
            assert(bytes@.skip(start as int).skip(length as int) =~= bytes@.skip(end as int));
            Ok((block, end))
        },
    }
}

/// Calls `String::from_utf8`: the text whose UTF-8 form is `bytes`, or
/// nothing where `bytes` are not UTF-8.
#[verifier::external_body]
fn text_of_utf8(bytes: Vec<u8>) -> (text: Option<String>)
    ensures
        text is Some <==> valid_utf8(bytes@),
        text is Some ==> encode_utf8(text->Some_0@) == bytes@,
{
    String::from_utf8(bytes).ok()
}

/// Reads a text from `bytes` at `at`, and says where it ends.
pub(crate) fn read_text(bytes: &[u8], at: usize) -> (outcome: Result<(String, usize), DecodeError>)
    requires
        at <= bytes@.len(),
    ensures
        spec_read_as(bytes@, at, outcome, spec_read_text(bytes@.skip(at as int))),
{
    match read_block(bytes, at) {
        Err(error) => Err(error),
        Ok((block, next)) => match text_of_utf8(block) {
            None => Err(DecodeError::InvalidText),
            Some(text) => {
                proof {
                    encode_utf8_decode_utf8(text@);
                }
                Ok((text, next))
            },
        },
    }
}

} // verus!
