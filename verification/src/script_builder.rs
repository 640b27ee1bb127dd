//! The canonical script byte-code builder.
//!
//! The builder appends opcodes, data pushes and script numbers to a growing
//! byte buffer, always choosing the canonical (minimal) encoding, and refuses
//! any operation whose result would exceed the script engine's hard size cap.
//! Refused operations leave the buffer untouched: every mutation is atomic.

use vstd::prelude::*;

use crate::hashing::push_bytes;
use crate::opcodes::{OP_1, OP_16, OP_1_NEGATE, OP_FALSE, OP_PUSH_DATA_1, OP_PUSH_DATA_2, OP_PUSH_DATA_4};
use crate::tx::spec_u64_le;
use crate::{MAX_SCRIPTS_SIZE, MAX_SCRIPT_ELEMENT_SIZE};

verus! {

/// Why a builder operation was refused.
#[derive(Clone, Copy, Debug, PartialEq, Eq, Structural)]
pub enum ScriptBuilderError {
    /// The result would exceed the maximum allowed script size.
    ScriptTooLong,
    /// A single pushed element would exceed the maximum element size.
    ElementTooLarge,
    /// Reserved for a byte that is no recognized opcode; the opcode table
    /// recognizes every byte value, so no operation produces it today.
    OpcodeRejected(u8),
}

/// The canonical push encoding of `d`: the shortest script that pushes
/// exactly `d` onto the stack.
pub open spec fn spec_data_push(d: Seq<u8>) -> Seq<u8> {
    if d.len() == 0 {
        seq![OP_FALSE]
    } else if d.len() == 1 && d[0] == 0 {
        seq![OP_FALSE]
    } else if d.len() == 1 && 1 <= d[0] <= 16 {
        seq![(OP_1 - 1 + d[0]) as u8]
    } else if d.len() == 1 && d[0] == 0x81 {
        seq![OP_1_NEGATE]
    } else if d.len() < 76 {
        seq![d.len() as u8] + d
    } else if d.len() <= 0xff {
        seq![OP_PUSH_DATA_1, d.len() as u8] + d
    } else if d.len() <= 0xffff {
        seq![OP_PUSH_DATA_2, (d.len() % 0x100) as u8, ((d.len() / 0x100) % 0x100) as u8] + d
    } else {
        seq![
            OP_PUSH_DATA_4,
            (d.len() % 0x100) as u8,
            ((d.len() / 0x100) % 0x100) as u8,
            ((d.len() / 0x1_0000) % 0x100) as u8,
            ((d.len() / 0x100_0000) % 0x100) as u8,
        ] + d
    }
}

/// `s` with its trailing zero bytes removed.
pub open spec fn spec_trim_zeros(s: Seq<u8>) -> Seq<u8>
    decreases s.len(),
{
    if s.len() > 0 && s.last() == 0 {
        spec_trim_zeros(s.drop_last())
    } else {
        s
    }
}

/// The minimal little-endian bytes of `v`: its eight bytes without the
/// trailing zeros. Zero encodes as the empty sequence.
pub open spec fn spec_min_le(v: u64) -> Seq<u8> {
    spec_trim_zeros(spec_u64_le(v))
}

/// The magnitude of `v` as an unsigned value.
pub open spec fn spec_magnitude(v: i64) -> u64 {
    if v >= 0 {
        v as u64
    } else {
        (-(v as int)) as u64
    }
}

/// The canonical script-number bytes of `v`: little-endian magnitude with the
/// sign carried in the top bit of the last byte, an extra sign byte being
/// appended when the magnitude already uses that bit.
pub open spec fn spec_i64_bytes(v: i64) -> Seq<u8> {
    let b = spec_min_le(spec_magnitude(v));
    if b.len() == 0 {
        b
    } else if b.last() >= 0x80 {
        b.push(
            if v < 0 {
                0x80u8
            } else {
                0x00u8
            },
        )
    } else if v < 0 {
        b.drop_last().push((b.last() + 0x80) as u8)
    } else {
        b
    }
}

/// The canonical bytes of an unsigned 64-bit value such as a lock time or a
/// sequence: minimal little-endian, with a trailing zero byte when the top
/// bit of the last byte is set.
pub open spec fn spec_u64_bytes(v: u64) -> Seq<u8> {
    let b = spec_min_le(v);
    if b.len() > 0 && b.last() >= 0x80 {
        b.push(0u8)
    } else {
        b
    }
}

/// What a successful `add_i64` appends: the small-number opcodes where they
/// exist, the canonical data push of the script-number bytes otherwise.
pub open spec fn spec_i64_push(v: i64) -> Seq<u8> {
    if v == 0 {
        seq![OP_FALSE]
    } else if 1 <= v <= 16 {
        seq![(OP_1 - 1 + v) as u8]
    } else if v == -1 {
        seq![OP_1_NEGATE]
    } else {
        spec_data_push(spec_i64_bytes(v))
    }
}

/// What a successful `add_lock_time` or `add_sequence` appends.
pub open spec fn spec_u64_push(v: u64) -> Seq<u8> {
    spec_data_push(spec_u64_bytes(v))
}

/// Builds custom scripts by pushing opcodes, numbers and data under canonical
/// encoding. It does not ensure the script will execute correctly, but a push
/// that would exceed the script engine's hard limits is refused, leaving the
/// buffer unchanged.
#[derive(Clone, Debug)]
pub struct ScriptBuilder {
    script: Vec<u8>,
}

impl View for ScriptBuilder {
    type V = Seq<u8>;

    closed spec fn view(&self) -> Seq<u8> {
        self.script@
    }
}

/// The eight bytes of `v`, then the trailing zeros popped off.
fn min_le_bytes(v: u64) -> (r: Vec<u8>)
    ensures
        r@ == spec_min_le(v),
        r@.len() <= 8,
{
    let mut b: Vec<u8> = Vec::new();
    crate::tx::push_u64_le(&mut b, v);
    assert(b@ == spec_u64_le(v));
    while b.len() > 0 && b[b.len() - 1] == 0
        invariant
            b@.len() <= 8,
            spec_trim_zeros(b@) == spec_min_le(v),
        decreases b@.len(),
    {
        b.pop();
    }
    assert(spec_trim_zeros(b@) == b@);
    b
}

/// The canonical script-number bytes of `v`.
fn i64_to_script_bytes(v: i64) -> (r: Vec<u8>)
    ensures
        r@ == spec_i64_bytes(v),
        r@.len() <= 9,
{
    let m: u64 = if v >= 0 {
        v as u64
    } else {
        ((-(v + 1)) as u64) + 1
    };
    assert(m == spec_magnitude(v));
    let mut b = min_le_bytes(m);
    if b.len() == 0 {
        return b;
    }
    let last = b[b.len() - 1];
    if last >= 0x80 {
        if v < 0 {
            b.push(0x80);
        } else {
            b.push(0x00);
        }
    } else if v < 0 {
        b.pop();
        b.push(last + 0x80);
        assert(b@ =~= spec_i64_bytes(v));
    }
    b
}

/// The canonical bytes of an unsigned 64-bit value.
fn u64_to_script_bytes(v: u64) -> (r: Vec<u8>)
    ensures
        r@ == spec_u64_bytes(v),
        r@.len() <= 9,
{
    let mut b = min_le_bytes(v);
    if b.len() > 0 && b[b.len() - 1] >= 0x80 {
        b.push(0);
    }
    b
}

impl ScriptBuilder {
    /// A fresh builder with an empty buffer.
    pub fn new() -> (r: ScriptBuilder)
        ensures
            r@ == Seq::<u8>::empty(),
    {
        ScriptBuilder { script: Vec::new() }
    }

    /// The current script bytes, without consuming them.
    pub fn script(&self) -> (r: &Vec<u8>)
        ensures
            r@ == self@,
    {
        &self.script
    }

    /// The current script bytes; the same as [`ScriptBuilder::script`].
    pub fn data(&self) -> (r: &Vec<u8>)
        ensures
            r@ == self@,
    {
        self.script()
    }

    /// Returns the script bytes and resets the buffer to empty, atomically.
    pub fn drain(&mut self) -> (r: Vec<u8>)
        ensures
            r@ == old(self)@,
            final(self)@ == Seq::<u8>::empty(),
    {
        let mut out: Vec<u8> = Vec::new();
        core::mem::swap(&mut out, &mut self.script);
        out
    }

    /// How many bytes `add_data` would append for `data`, without mutating
    /// anything.
    pub fn canonical_data_size(data: &[u8]) -> (r: usize)
        requires
            data@.len() <= usize::MAX - 5,
        ensures
            r == spec_data_push(data@).len(),
    {
        let data_len = data.len();
        if data_len == 0 || (data_len == 1 && (data[0] <= 16 || data[0] == 0x81)) {
            return 1;
        }
        if data_len < 76 {
            return 1 + data_len;
        }
        if data_len <= 0xff {
            return 2 + data_len;
        }
        if data_len <= 0xffff {
            return 3 + data_len;
        }
        5 + data_len
    }

    /// Pushes one opcode. The script is not modified if the push would take
    /// it past the maximum allowed script size.
    pub fn add_op(&mut self, op: u8) -> (r: Result<(), ScriptBuilderError>)
        ensures
            r is Ok <==> old(self)@.len() + 1 <= MAX_SCRIPTS_SIZE,
            r is Ok ==> final(self)@ == old(self)@.push(op),
            r is Err ==> final(self)@ == old(self)@ && r == Err::<(), ScriptBuilderError>(
                ScriptBuilderError::ScriptTooLong,
            ),
    {
        if self.script.len() >= MAX_SCRIPTS_SIZE {
            return Err(ScriptBuilderError::ScriptTooLong);
        }
        self.script.push(op);
        Ok(())
    }

    /// Pushes a run of opcodes, all or nothing with respect to the size cap.
    /// Every byte value is a recognized opcode, the unknown ones included, so
    /// no byte is refused for its value.
    pub fn add_ops(&mut self, opcodes: &[u8]) -> (r: Result<(), ScriptBuilderError>)
        ensures
            r is Ok <==> old(self)@.len() + opcodes@.len() <= MAX_SCRIPTS_SIZE,
            r is Ok ==> final(self)@ == old(self)@ + opcodes@,
            r is Err ==> final(self)@ == old(self)@ && r == Err::<(), ScriptBuilderError>(
                ScriptBuilderError::ScriptTooLong,
            ),
    {
        if opcodes.len() > MAX_SCRIPTS_SIZE || self.script.len() > MAX_SCRIPTS_SIZE
            - opcodes.len() {
            return Err(ScriptBuilderError::ScriptTooLong);
        }
        push_bytes(&mut self.script, opcodes);
        Ok(())
    }

    /// Pushes `data` under its canonical encoding. An element over the
    /// maximum element size is refused outright, a push past the maximum
    /// script size likewise; either way the script is unchanged.
    pub fn add_data(&mut self, data: &[u8]) -> (r: Result<(), ScriptBuilderError>)
        ensures
            data@.len() > MAX_SCRIPT_ELEMENT_SIZE ==> r == Err::<(), ScriptBuilderError>(
                ScriptBuilderError::ElementTooLarge,
            ) && final(self)@ == old(self)@,
            data@.len() <= MAX_SCRIPT_ELEMENT_SIZE && old(self)@.len() + spec_data_push(
                data@,
            ).len() > MAX_SCRIPTS_SIZE ==> r == Err::<(), ScriptBuilderError>(
                ScriptBuilderError::ScriptTooLong,
            ) && final(self)@ == old(self)@,
            data@.len() <= MAX_SCRIPT_ELEMENT_SIZE && old(self)@.len() + spec_data_push(
                data@,
            ).len() <= MAX_SCRIPTS_SIZE ==> r is Ok && final(self)@ == old(self)@ + spec_data_push(
                data@,
            ),
    {
        if data.len() > MAX_SCRIPT_ELEMENT_SIZE {
            return Err(ScriptBuilderError::ElementTooLarge);
        }
        let size = Self::canonical_data_size(data);
        if self.script.len() > MAX_SCRIPTS_SIZE || size > MAX_SCRIPTS_SIZE - self.script.len() {
            return Err(ScriptBuilderError::ScriptTooLong);
        }
        let ghost orig: Seq<u8> = self.script@;
        if data.len() == 0 || (data.len() == 1 && data[0] == 0) {
            self.script.push(OP_FALSE);
        } else if data.len() == 1 && data[0] <= 16 {
            self.script.push(OP_1 - 1 + data[0]);
        } else if data.len() == 1 && data[0] == 0x81 {
            self.script.push(OP_1_NEGATE);
        } else if data.len() < 76 {
            self.script.push(data.len() as u8);
            push_bytes(&mut self.script, data);
        } else if data.len() <= 0xff {
            self.script.push(OP_PUSH_DATA_1);
            self.script.push(data.len() as u8);
            push_bytes(&mut self.script, data);
        } else {
            // The element cap keeps every remaining length within the
            // two-byte range.
            self.script.push(OP_PUSH_DATA_2);
            self.script.push((data.len() % 0x100) as u8);
            self.script.push(((data.len() / 0x100) % 0x100) as u8);
            push_bytes(&mut self.script, data);
        }
        assert(self.script@ =~= orig + spec_data_push(data@));
        Ok(())
    }

    /// Pushes the canonical encoding of a signed 64-bit script number.
    pub fn add_i64(&mut self, val: i64) -> (r: Result<(), ScriptBuilderError>)
        ensures
            r is Ok <==> old(self)@.len() + spec_i64_push(val).len() <= MAX_SCRIPTS_SIZE,
            r is Ok ==> final(self)@ == old(self)@ + spec_i64_push(val),
            r is Err ==> final(self)@ == old(self)@ && r == Err::<(), ScriptBuilderError>(
                ScriptBuilderError::ScriptTooLong,
            ),
    {
        let ghost orig: Seq<u8> = self.script@;
        if val == 0 {
            let r = self.add_op(OP_FALSE);
            proof {
                if r is Ok {
                    assert(self.script@ =~= orig + spec_i64_push(val));
                }
            }
            return r;
        }
        if val == -1 {
            let r = self.add_op(OP_1_NEGATE);
            proof {
                if r is Ok {
                    assert(self.script@ =~= orig + spec_i64_push(val));
                }
            }
            return r;
        }
        if 1 <= val && val <= 16 {
            let r = self.add_op(OP_1 - 1 + (val as u8));
            proof {
                if r is Ok {
                    assert(self.script@ =~= orig + spec_i64_push(val));
                }
            }
            return r;
        }
        let bytes = i64_to_script_bytes(val);
        self.add_data(bytes.as_slice())
    }

    /// Pushes the canonical encoding of a lock time.
    pub fn add_lock_time(&mut self, lock_time: u64) -> (r: Result<(), ScriptBuilderError>)
        ensures
            r is Ok <==> old(self)@.len() + spec_u64_push(lock_time).len() <= MAX_SCRIPTS_SIZE,
            r is Ok ==> final(self)@ == old(self)@ + spec_u64_push(lock_time),
            r is Err ==> final(self)@ == old(self)@ && r == Err::<(), ScriptBuilderError>(
                ScriptBuilderError::ScriptTooLong,
            ),
    {
        self.add_u64(lock_time)
    }

    /// Pushes the canonical encoding of a sequence number.
    pub fn add_sequence(&mut self, sequence: u64) -> (r: Result<(), ScriptBuilderError>)
        ensures
            r is Ok <==> old(self)@.len() + spec_u64_push(sequence).len() <= MAX_SCRIPTS_SIZE,
            r is Ok ==> final(self)@ == old(self)@ + spec_u64_push(sequence),
            r is Err ==> final(self)@ == old(self)@ && r == Err::<(), ScriptBuilderError>(
                ScriptBuilderError::ScriptTooLong,
            ),
    {
        self.add_u64(sequence)
    }

    fn add_u64(&mut self, val: u64) -> (r: Result<(), ScriptBuilderError>)
        ensures
            r is Ok <==> old(self)@.len() + spec_u64_push(val).len() <= MAX_SCRIPTS_SIZE,
            r is Ok ==> final(self)@ == old(self)@ + spec_u64_push(val),
            r is Err ==> final(self)@ == old(self)@ && r == Err::<(), ScriptBuilderError>(
                ScriptBuilderError::ScriptTooLong,
            ),
    {
        let bytes = u64_to_script_bytes(val);
        self.add_data(bytes.as_slice())
    }
}

/// The data element a canonical push encoding pushes: the inverse reading of
/// [`spec_data_push`].
pub open spec fn spec_extract_push(e: Seq<u8>) -> Option<Seq<u8>> {
    if e.len() == 1 && e[0] == OP_FALSE {
        Some(Seq::<u8>::empty())
    } else if e.len() == 1 && OP_1 <= e[0] <= OP_16 {
        Some(seq![(e[0] - (OP_1 - 1)) as u8])
    } else if e.len() == 1 && e[0] == OP_1_NEGATE {
        Some(seq![0x81u8])
    } else if e.len() >= 1 && 1 <= e[0] <= 75 && e.len() == 1 + e[0] {
        Some(e.skip(1))
    } else if e.len() >= 2 && e[0] == OP_PUSH_DATA_1 && e.len() == 2 + e[1] {
        Some(e.skip(2))
    } else if e.len() >= 3 && e[0] == OP_PUSH_DATA_2 && e.len() == 3 + e[1] + 0x100 * e[2] {
        Some(e.skip(3))
    } else if e.len() >= 5 && e[0] == OP_PUSH_DATA_4 && e.len() == 5 + e[1] + 0x100 * e[2]
        + 0x1_0000 * e[3] + 0x100_0000 * e[4] {
        Some(e.skip(5))
    } else {
        None
    }
}

/// The canonical push of any element within the size cap fits a script of its
/// own: `canonical_data_size` is then also the number of bytes a successful
/// `add_data` appends, both being the length of the push encoding.
pub proof fn lemma_canonical_push_fits(d: Seq<u8>)
    requires
        d.len() <= MAX_SCRIPT_ELEMENT_SIZE,
    ensures
        spec_data_push(d).len() <= MAX_SCRIPTS_SIZE,
{
}

/// Round trip: the canonical push encoding of any data element within the
/// size cap, other than the single zero byte, reads back to exactly that
/// element. The single zero byte alone is canonicalized to the empty push.
pub proof fn lemma_push_round_trip(d: Seq<u8>)
    requires
        d.len() <= MAX_SCRIPT_ELEMENT_SIZE,
        d != seq![0u8],
    ensures
        spec_extract_push(spec_data_push(d)) == Some(d),
{
    let e = spec_data_push(d);
    if d.len() == 0 {
        assert(spec_extract_push(e) == Some(Seq::<u8>::empty()));
        assert(Seq::<u8>::empty() =~= d);
    } else if d.len() == 1 && d[0] == 0 {
        assert(d =~= seq![0u8]);
    } else if d.len() == 1 && 1 <= d[0] <= 16 {
        assert(e[0] == OP_1 - 1 + d[0]);
        assert(seq![(e[0] - (OP_1 - 1)) as u8] =~= d);
    } else if d.len() == 1 && d[0] == 0x81 {
        assert(seq![0x81u8] =~= d);
    } else if d.len() < 76 {
        assert(e[0] == d.len());
        assert(e.skip(1) =~= d);
    } else if d.len() <= 0xff {
        assert(e[0] == OP_PUSH_DATA_1 && e[1] == d.len());
        assert(e.skip(2) =~= d);
    } else {
        assert(e[0] == OP_PUSH_DATA_2);
        assert(e[1] == d.len() % 0x100 && e[2] == (d.len() / 0x100) % 0x100);
        assert(e.len() == 3 + e[1] + 0x100 * e[2]);
        assert(e.skip(3) =~= d);
    }
}

impl Default for ScriptBuilder {
    fn default() -> (r: ScriptBuilder)
        ensures
            r@ == Seq::<u8>::empty(),
    {
        ScriptBuilder::new()
    }
}

} // verus!
