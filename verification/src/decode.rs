//! Cursor over a byte slice for the typed binary (SBOR) format: little-endian
//! scalars, length-prefixed collections, and optional type metadata.

use vstd::prelude::*;

verus! {

pub const TYPE_UNIT: u8 = 0;
pub const TYPE_BOOL: u8 = 1;
pub const TYPE_I8: u8 = 2;
pub const TYPE_I16: u8 = 3;
pub const TYPE_I32: u8 = 4;
pub const TYPE_I64: u8 = 5;
pub const TYPE_I128: u8 = 6;
pub const TYPE_U8: u8 = 7;
pub const TYPE_U16: u8 = 8;
pub const TYPE_U32: u8 = 9;
pub const TYPE_U64: u8 = 10;
pub const TYPE_U128: u8 = 11;
pub const TYPE_STRING: u8 = 12;
pub const TYPE_OPTION: u8 = 13;
pub const TYPE_ARRAY: u8 = 14;
pub const TYPE_VEC: u8 = 15;
pub const TYPE_TUPLE: u8 = 16;
pub const TYPE_B_TREE_MAP: u8 = 22;
pub const TYPE_BOX: u8 = 23;

#[derive(Debug)]
pub enum DecodeError {
    Underflow { required: usize, remaining: usize },
    InvalidType { expected: u8, actual: u8 },
    InvalidName { expected: String, actual: String },
    InvalidLength { expected: usize, actual: usize },
    InvalidIndex(u8),
    InvalidBool(u8),
    InvalidUtf8,
}

pub struct Decoder<'de> {
    input: &'de [u8],
    offset: usize,
    with_metadata: bool,
}

impl<'de> Decoder<'de> {
    /// The cursor never runs past the end of the input.
    pub open spec fn wf(&self) -> bool {
        self.spec_offset() <= self.bytes().len()
    }

    pub closed spec fn bytes(&self) -> Seq<u8> {
        self.input@
    }

    pub closed spec fn spec_offset(&self) -> int {
        self.offset as int
    }

    pub closed spec fn metadata(&self) -> bool {
        self.with_metadata
    }

    pub open spec fn spec_remaining(&self) -> int {
        self.bytes().len() - self.spec_offset()
    }

    /// The cursor `post` is `pre` advanced by `n` bytes, on the same input.
    pub open spec fn advanced(pre: Self, post: Self, n: int) -> bool {
        &&& post.bytes() == pre.bytes()
        &&& post.metadata() == pre.metadata()
        &&& post.spec_offset() == pre.spec_offset() + n
    }

    pub fn new(input: &'de [u8], with_metadata: bool) -> (r: Self)
        ensures
            r.wf(),
            r.bytes() == input@,
            r.spec_offset() == 0,
            r.metadata() == with_metadata,
    {
        Self { input, offset: 0, with_metadata }
    }

    pub fn with_metadata(input: &'de [u8]) -> (r: Self)
        ensures
            r.wf(),
            r.bytes() == input@,
            r.spec_offset() == 0,
            r.metadata() == true,
    {
        Self::new(input, true)
    }

    pub fn no_metadata(input: &'de [u8]) -> (r: Self)
        ensures
            r.wf(),
            r.bytes() == input@,
            r.spec_offset() == 0,
            r.metadata() == false,
    {
        Self::new(input, false)
    }

    pub fn remaining(&self) -> (r: usize)
        requires
            self.wf(),
        ensures
            r == self.spec_remaining(),
    {
        self.input.len() - self.offset
    }

    pub fn require(&self, n: usize) -> (r: Result<(), DecodeError>)
        requires
            self.wf(),
        ensures
            self.spec_remaining() >= n ==> r is Ok,
            self.spec_remaining() < n ==> (r matches Err(e) && e matches
                DecodeError::Underflow { required, remaining }
                && required == n && remaining == self.spec_remaining()),
    {
        if self.remaining() < n {
            Err(DecodeError::Underflow { required: n, remaining: self.remaining() })
        } else {
            Ok(())
        }
    }

    pub fn read_u8(&mut self) -> (r: Result<u8, DecodeError>)
        requires
            old(self).wf(),
        ensures
            final(self).wf(),
            old(self).spec_remaining() >= 1 ==> {
                &&& r matches Ok(b) && b == old(self).bytes()[old(self).spec_offset()]
                &&& Self::advanced(*old(self), *final(self), 1)
            },
            old(self).spec_remaining() < 1 ==> (r matches Err(e) && e matches
                DecodeError::Underflow { required, remaining } && required == 1 && remaining
                == old(self).spec_remaining()) && *final(self) == *old(self),
    {
        match self.require(1) {
            Ok(_) => {
                let result = self.input[self.offset];
                self.offset = self.offset + 1;
                Ok(result)
            }
            Err(e) => Err(e),
        }
    }

    pub fn read_bytes(&mut self, n: usize) -> (r: Result<&'de [u8], DecodeError>)
        requires
            old(self).wf(),
        ensures
            final(self).wf(),
            old(self).spec_remaining() >= n ==> {
                &&& r matches Ok(s) && s@ == old(self).bytes().subrange(
                    old(self).spec_offset(), old(self).spec_offset() + n)
                &&& Self::advanced(*old(self), *final(self), n as int)
            },
            old(self).spec_remaining() < n ==> (r matches Err(e) && e matches
                DecodeError::Underflow { required, remaining } && required == n && remaining
                == old(self).spec_remaining()) && *final(self) == *old(self),
    {
        match self.require(n) {
            Ok(_) => {
                let total: usize = self.input.len();
                proof {
                    assert(self.offset + n <= total);
                }
                let slice = vstd::slice::slice_subrange(self.input, self.offset, self.offset + n);
                self.offset = self.offset + n;
                Ok(slice)
            }
            Err(e) => Err(e),
        }
    }

    pub fn read_type(&mut self) -> (r: Result<u8, DecodeError>)
        requires
            old(self).wf(),
        ensures
            final(self).wf(),
            old(self).spec_remaining() >= 1 ==> {
                &&& r matches Ok(b) && b == old(self).bytes()[old(self).spec_offset()]
                &&& Self::advanced(*old(self), *final(self), 1)
            },
            old(self).spec_remaining() < 1 ==> (r matches Err(e) && e matches
                DecodeError::Underflow { required, remaining } && required == 1 && remaining
                == old(self).spec_remaining()) && *final(self) == *old(self),
    {
        self.read_u8()
    }

    pub fn read_len(&mut self) -> (r: Result<usize, DecodeError>)
        requires
            old(self).wf(),
        ensures
            final(self).wf(),
            old(self).spec_remaining() >= 2 ==> {
                &&& r matches Ok(n) && n == le16(old(self).bytes(), old(self).spec_offset())
                &&& Self::advanced(*old(self), *final(self), 2)
            },
            old(self).spec_remaining() < 2 ==> (r matches Err(e) && e matches
                DecodeError::Underflow { required, remaining } && required == 2 && remaining
                == old(self).spec_remaining()) && *final(self) == *old(self),
    {
        match self.read_bytes(2) {
            Ok(slice) => {
                let b0 = slice[0];
                let b1 = slice[1];
                Ok((b0 as usize) + 256 * (b1 as usize))
            }
            Err(e) => Err(e),
        }
    }

    pub fn read_index(&mut self) -> (r: Result<u8, DecodeError>)
        requires
            old(self).wf(),
        ensures
            final(self).wf(),
            old(self).spec_remaining() >= 1 ==> {
                &&& r matches Ok(b) && b == old(self).bytes()[old(self).spec_offset()]
                &&& Self::advanced(*old(self), *final(self), 1)
            },
            old(self).spec_remaining() < 1 ==> (r matches Err(e) && e matches
                DecodeError::Underflow { required, remaining } && required == 1 && remaining
                == old(self).spec_remaining()) && *final(self) == *old(self),
    {
        self.read_u8()
    }

    /// With metadata on, consumes one type byte and demands it equal `expected`;
    /// with metadata off, reads nothing.
    pub fn check_type(&mut self, expected: u8) -> (r: Result<(), DecodeError>)
        requires
            old(self).wf(),
        ensures
            final(self).wf(),
            final(self).bytes() == old(self).bytes(),
            final(self).metadata() == old(self).metadata(),
            !old(self).metadata() ==> r is Ok && *final(self) == *old(self),
            old(self).metadata() && old(self).spec_remaining() >= 1
                && old(self).bytes()[old(self).spec_offset()] == expected ==> {
                &&& r is Ok
                &&& Self::advanced(*old(self), *final(self), 1)
            },
            old(self).metadata() && old(self).spec_remaining() >= 1
                && old(self).bytes()[old(self).spec_offset()] != expected ==> (
                r matches Err(e) && e matches DecodeError::InvalidType { expected: x, actual }
                && x == expected && actual == old(self).bytes()[old(self).spec_offset()])
                && Self::advanced(*old(self), *final(self), 1),
            old(self).metadata() && old(self).spec_remaining() < 1 ==> (r matches Err(e) && e
                matches DecodeError::Underflow { required, remaining } && required == 1
                && remaining == 0) && *final(self) == *old(self),
    {
        if self.with_metadata {
            let ty = match self.read_type() {
                Ok(t) => t,
                Err(e) => { return Err(e); }
            };
            if ty != expected {
                return Err(DecodeError::InvalidType { expected, actual: ty });
            }
        }
        Ok(())
    }

    /// Consumes a length prefix and demands it equal `expected`.
    pub fn check_len(&mut self, expected: usize) -> (r: Result<(), DecodeError>)
        requires
            old(self).wf(),
        ensures
            final(self).wf(),
            final(self).bytes() == old(self).bytes(),
            final(self).metadata() == old(self).metadata(),
            old(self).spec_remaining() >= 2
                && le16(old(self).bytes(), old(self).spec_offset()) == expected ==> {
                &&& r is Ok
                &&& Self::advanced(*old(self), *final(self), 2)
            },
            old(self).spec_remaining() >= 2
                && le16(old(self).bytes(), old(self).spec_offset()) != expected ==> (
                r matches Err(e) && e matches DecodeError::InvalidLength { expected: x, actual }
                && x == expected && actual == le16(old(self).bytes(), old(self).spec_offset()))
                && Self::advanced(*old(self), *final(self), 2),
            old(self).spec_remaining() < 2 ==> (r matches Err(e) && e matches
                DecodeError::Underflow { required, remaining } && required == 2 && remaining
                == old(self).spec_remaining()) && *final(self) == *old(self),
    {
        let len = match self.read_len() {
            Ok(n) => n,
            Err(e) => { return Err(e); }
        };
        if len != expected {
            return Err(DecodeError::InvalidLength { expected, actual: len });
        }
        Ok(())
    }
}

/// The 16-bit little-endian value starting at `off`.
pub open spec fn le16(bytes: Seq<u8>, off: int) -> int
    recommends 0 <= off, off + 2 <= bytes.len(),
{
    bytes[off] + 256 * bytes[off + 1]
}

} // verus!

verus! {

/// The little-endian value of `n` bytes starting at `off`.
pub open spec fn le_val(bytes: Seq<u8>, off: int, n: nat) -> int
    decreases n,
{
    if n == 0 {
        0
    } else {
        bytes[off] + 256 * le_val(bytes, off + 1, (n - 1) as nat)
    }
}

pub proof fn lemma_le_val_bound(bytes: Seq<u8>, off: int, n: nat)
    requires
        0 <= off,
        off + n <= bytes.len(),
    ensures
        0 <= le_val(bytes, off, n) < pow256(n),
    decreases n,
{
    if n > 0 {
        lemma_le_val_bound(bytes, off + 1, (n - 1) as nat);
        assert(pow256(n) == 256 * pow256((n - 1) as nat));
    }
}

pub open spec fn pow256(n: nat) -> int
    decreases n,
{
    if n == 0 {
        1
    } else {
        256 * pow256((n - 1) as nat)
    }
}

/// Decoding of one value of a given type: where its encoding ends, and which
/// value it denotes. `decode_end` is `None` exactly when no value of the type
/// stands at `start`.
pub trait Decode: Sized {
    /// The type byte that announces this type when metadata is on.
    spec fn sbor_type_spec() -> u8;

    /// End offset of the value encoded at `start` (no leading type byte).
    spec fn decode_end(bytes: Seq<u8>, start: int, meta: bool) -> Option<int>;

    /// The value encoded at `start` is `v`.
    spec fn value_at(bytes: Seq<u8>, start: int, meta: bool, v: Self) -> bool;

    fn sbor_type() -> (t: u8)
        ensures
            t == Self::sbor_type_spec(),
    ;

    fn decode_value<'de>(decoder: &mut Decoder<'de>) -> (r: Result<Self, DecodeError>)
        requires
            old(decoder).wf(),
        ensures
            final(decoder).wf(),
            final(decoder).bytes() == old(decoder).bytes(),
            final(decoder).metadata() == old(decoder).metadata(),
            r matches Ok(v) ==> {
                &&& Self::decode_end(old(decoder).bytes(), old(decoder).spec_offset(),
                        old(decoder).metadata()) == Some(final(decoder).spec_offset())
                &&& Self::value_at(old(decoder).bytes(), old(decoder).spec_offset(),
                        old(decoder).metadata(), v)
            },
            r is Err ==> Self::decode_end(old(decoder).bytes(), old(decoder).spec_offset(),
                old(decoder).metadata()) is None,
    ;

    fn decode<'de>(decoder: &mut Decoder<'de>) -> (r: Result<Self, DecodeError>)
        requires
            old(decoder).wf(),
        ensures
            final(decoder).wf(),
            final(decoder).bytes() == old(decoder).bytes(),
            final(decoder).metadata() == old(decoder).metadata(),
            r matches Ok(v) ==> {
                let s = if old(decoder).metadata() { old(decoder).spec_offset() + 1 } else {
                    old(decoder).spec_offset()
                };
                &&& old(decoder).metadata() ==> old(decoder).spec_offset()
                    < old(decoder).bytes().len()
                    && old(decoder).bytes()[old(decoder).spec_offset()] == Self::sbor_type_spec()
                &&& Self::decode_end(old(decoder).bytes(), s, old(decoder).metadata())
                    == Some(final(decoder).spec_offset())
                &&& Self::value_at(old(decoder).bytes(), s, old(decoder).metadata(), v)
            },
            r is Err ==> {
                let s = if old(decoder).metadata() { old(decoder).spec_offset() + 1 } else {
                    old(decoder).spec_offset()
                };
                ||| old(decoder).metadata() && (old(decoder).spec_offset()
                    >= old(decoder).bytes().len()
                    || old(decoder).bytes()[old(decoder).spec_offset()] != Self::sbor_type_spec())
                ||| Self::decode_end(old(decoder).bytes(), s, old(decoder).metadata()) is None
            },
    {
        let t = Self::sbor_type();
        match decoder.check_type(t) {
            Ok(_) => Self::decode_value(decoder),
            Err(e) => Err(e),
        }
    }
}

impl Decode for () {
    open spec fn sbor_type_spec() -> u8 {
        TYPE_UNIT
    }

    open spec fn decode_end(bytes: Seq<u8>, start: int, meta: bool) -> Option<int> {
        Some(start)
    }

    open spec fn value_at(bytes: Seq<u8>, start: int, meta: bool, v: Self) -> bool {
        true
    }

    fn sbor_type() -> u8 {
        TYPE_UNIT
    }

    fn decode_value<'de>(decoder: &mut Decoder<'de>) -> Result<Self, DecodeError> {
        Ok(())
    }
}

impl Decode for bool {
    open spec fn sbor_type_spec() -> u8 {
        TYPE_BOOL
    }

    open spec fn decode_end(bytes: Seq<u8>, start: int, meta: bool) -> Option<int> {
        if start < bytes.len() && (bytes[start] == 0 || bytes[start] == 1) {
            Some(start + 1)
        } else {
            None
        }
    }

    open spec fn value_at(bytes: Seq<u8>, start: int, meta: bool, v: Self) -> bool {
        start < bytes.len() && bytes[start] == (if v { 1int } else { 0int })
    }

    fn sbor_type() -> u8 {
        TYPE_BOOL
    }

    fn decode_value<'de>(decoder: &mut Decoder<'de>) -> Result<Self, DecodeError> {
        let value = match decoder.read_u8() {
            Ok(b) => b,
            Err(e) => { return Err(e); }
        };
        match value {
            0 => Ok(false),
            1 => Ok(true),
            _ => Err(DecodeError::InvalidBool(value)),
        }
    }
}

impl Decode for u8 {
    open spec fn sbor_type_spec() -> u8 {
        TYPE_U8
    }

    open spec fn decode_end(bytes: Seq<u8>, start: int, meta: bool) -> Option<int> {
        if start + 1 <= bytes.len() {
            Some(start + 1)
        } else {
            None
        }
    }

    open spec fn value_at(bytes: Seq<u8>, start: int, meta: bool, v: Self) -> bool {
        start < bytes.len() && v == bytes[start]
    }

    fn sbor_type() -> u8 {
        TYPE_U8
    }

    fn decode_value<'de>(decoder: &mut Decoder<'de>) -> Result<Self, DecodeError> {
        match decoder.read_u8() {
            Ok(b) => Ok(b),
            Err(e) => Err(e),
        }
    }
}

impl Decode for i8 {
    open spec fn sbor_type_spec() -> u8 {
        TYPE_I8
    }

    open spec fn decode_end(bytes: Seq<u8>, start: int, meta: bool) -> Option<int> {
        if start + 1 <= bytes.len() {
            Some(start + 1)
        } else {
            None
        }
    }

    open spec fn value_at(bytes: Seq<u8>, start: int, meta: bool, v: Self) -> bool {
        start < bytes.len() && v == bytes[start] as i8
    }

    fn sbor_type() -> u8 {
        TYPE_I8
    }

    fn decode_value<'de>(decoder: &mut Decoder<'de>) -> Result<Self, DecodeError> {
        match decoder.read_u8() {
            Ok(b) => Ok(b as i8),
            Err(e) => Err(e),
        }
    }
}

} // verus!

verus! {

/// Reinterpretation of an unsigned value below `2 * half` as a two's
/// complement signed value.
pub open spec fn to_signed(val: int, half: int) -> int {
    if val < half {
        val
    } else {
        val - 2 * half
    }
}

/// `le_val` over a suffix equals `le_val` over that suffix taken as its own
/// sequence.
pub proof fn lemma_le_val_shift(bytes: Seq<u8>, off: int, n: nat)
    requires
        0 <= off,
        off + n <= bytes.len(),
    ensures
        le_val(bytes, off, n) == le_val(bytes.subrange(off, off + n), 0, n),
    decreases n,
{
    if n > 0 {
        let sub = bytes.subrange(off, off + n);
        lemma_le_val_shift(bytes, off + 1, (n - 1) as nat);
        assert(bytes.subrange(off + 1, off + 1 + (n - 1)) =~= sub.subrange(1, n as int));
        lemma_le_val_shift(sub, 1, (n - 1) as nat);
        assert(sub.subrange(1, n as int) =~= sub.subrange(1, 1 + (n - 1)));
    }
}

proof fn lemma_pow256_values()
    ensures
        pow256(2) == 0x10000,
        pow256(4) == 0x1_0000_0000,
        pow256(8) == 0x1_0000_0000_0000_0000,
        pow256(16) == 0x1_0000_0000_0000_0000_0000_0000_0000_0000,
{
    reveal_with_fuel(pow256, 17);
}

/// Reads `n` little-endian bytes into an unsigned value.
fn read_le<'de>(decoder: &mut Decoder<'de>, n: usize) -> (r: Result<u128, DecodeError>)
    requires
        old(decoder).wf(),
        1 <= n <= 16,
    ensures
        final(decoder).wf(),
        old(decoder).spec_remaining() >= n ==> {
            &&& r matches Ok(v) && v == le_val(old(decoder).bytes(), old(decoder).spec_offset(),
                n as nat)
            &&& Decoder::advanced(*old(decoder), *final(decoder), n as int)
        },
        old(decoder).spec_remaining() < n ==> r is Err && *final(decoder) == *old(decoder),
{
    let ghost pre = *decoder;
    let slice = match decoder.read_bytes(n) {
        Ok(s) => s,
        Err(e) => { return Err(e); }
    };
    proof {
        lemma_le_val_shift(pre.bytes(), pre.spec_offset(), n as nat);
        lemma_pow256_values();
    }
    let mut acc: u128 = 0;
    let mut i: usize = n;
    while i > 0
        invariant
            i <= n <= 16,
            slice@.len() == n,
            acc == le_val(slice@, i as int, (n - i) as nat),
            0 <= acc < pow256((n - i) as nat),
            pow256(16) == 0x1_0000_0000_0000_0000_0000_0000_0000_0000,
        decreases i,
    {
        proof {
            lemma_le_val_bound(slice@, i as int, (n - i) as nat);
            lemma_pow256_mono((n - i) as nat, 15);
        }
        i = i - 1;
        acc = (slice[i] as u128) + 256 * acc;
        proof {
            lemma_pow256_mono((n - i) as nat, 16);
        }
    }
    Ok(acc)
}

pub proof fn lemma_pow256_mono(a: nat, b: nat)
    requires
        a <= b,
    ensures
        pow256(a) <= pow256(b),
    decreases b,
{
    if a < b {
        lemma_pow256_mono(a, (b - 1) as nat);
        lemma_pow256_positive((b - 1) as nat);
    }
}

pub proof fn lemma_pow256_positive(n: nat)
    ensures
        pow256(n) >= 1,
    decreases n,
{
    if n > 0 {
        lemma_pow256_positive((n - 1) as nat);
    }
}

impl Decode for u16 {
    open spec fn sbor_type_spec() -> u8 {
        TYPE_U16
    }

    open spec fn decode_end(bytes: Seq<u8>, start: int, meta: bool) -> Option<int> {
        if start + 2 <= bytes.len() {
            Some(start + 2)
        } else {
            None
        }
    }

    open spec fn value_at(bytes: Seq<u8>, start: int, meta: bool, v: Self) -> bool {
        v == le_val(bytes, start, 2)
    }

    fn sbor_type() -> u8 {
        TYPE_U16
    }

    fn decode_value<'de>(decoder: &mut Decoder<'de>) -> Result<Self, DecodeError> {
        let ghost pre = *decoder;
        match read_le(decoder, 2) {
            Ok(v) => {
                proof {
                    lemma_le_val_bound(pre.bytes(), pre.spec_offset(), 2);
                    lemma_pow256_values();
                }
                Ok(v as u16)
            }
            Err(e) => Err(e),
        }
    }
}

impl Decode for u32 {
    open spec fn sbor_type_spec() -> u8 {
        TYPE_U32
    }

    open spec fn decode_end(bytes: Seq<u8>, start: int, meta: bool) -> Option<int> {
        if start + 4 <= bytes.len() {
            Some(start + 4)
        } else {
            None
        }
    }

    open spec fn value_at(bytes: Seq<u8>, start: int, meta: bool, v: Self) -> bool {
        v == le_val(bytes, start, 4)
    }

    fn sbor_type() -> u8 {
        TYPE_U32
    }

    fn decode_value<'de>(decoder: &mut Decoder<'de>) -> Result<Self, DecodeError> {
        let ghost pre = *decoder;
        match read_le(decoder, 4) {
            Ok(v) => {
                proof {
                    lemma_le_val_bound(pre.bytes(), pre.spec_offset(), 4);
                    lemma_pow256_values();
                }
                Ok(v as u32)
            }
            Err(e) => Err(e),
        }
    }
}

impl Decode for u64 {
    open spec fn sbor_type_spec() -> u8 {
        TYPE_U64
    }

    open spec fn decode_end(bytes: Seq<u8>, start: int, meta: bool) -> Option<int> {
        if start + 8 <= bytes.len() {
            Some(start + 8)
        } else {
            None
        }
    }

    open spec fn value_at(bytes: Seq<u8>, start: int, meta: bool, v: Self) -> bool {
        v == le_val(bytes, start, 8)
    }

    fn sbor_type() -> u8 {
        TYPE_U64
    }

    fn decode_value<'de>(decoder: &mut Decoder<'de>) -> Result<Self, DecodeError> {
        let ghost pre = *decoder;
        match read_le(decoder, 8) {
            Ok(v) => {
                proof {
                    lemma_le_val_bound(pre.bytes(), pre.spec_offset(), 8);
                    lemma_pow256_values();
                }
                Ok(v as u64)
            }
            Err(e) => Err(e),
        }
    }
}

impl Decode for u128 {
    open spec fn sbor_type_spec() -> u8 {
        TYPE_U128
    }

    open spec fn decode_end(bytes: Seq<u8>, start: int, meta: bool) -> Option<int> {
        if start + 16 <= bytes.len() {
            Some(start + 16)
        } else {
            None
        }
    }

    open spec fn value_at(bytes: Seq<u8>, start: int, meta: bool, v: Self) -> bool {
        v == le_val(bytes, start, 16)
    }

    fn sbor_type() -> u8 {
        TYPE_U128
    }

    fn decode_value<'de>(decoder: &mut Decoder<'de>) -> Result<Self, DecodeError> {
        match read_le(decoder, 16) {
            Ok(v) => Ok(v),
            Err(e) => Err(e),
        }
    }
}

impl Decode for i16 {
    open spec fn sbor_type_spec() -> u8 {
        TYPE_I16
    }

    open spec fn decode_end(bytes: Seq<u8>, start: int, meta: bool) -> Option<int> {
        if start + 2 <= bytes.len() {
            Some(start + 2)
        } else {
            None
        }
    }

    open spec fn value_at(bytes: Seq<u8>, start: int, meta: bool, v: Self) -> bool {
        v == to_signed(le_val(bytes, start, 2), 0x8000)
    }

    fn sbor_type() -> u8 {
        TYPE_I16
    }

    fn decode_value<'de>(decoder: &mut Decoder<'de>) -> Result<Self, DecodeError> {
        let ghost pre = *decoder;
        match read_le(decoder, 2) {
            Ok(v) => {
                proof {
                    lemma_le_val_bound(pre.bytes(), pre.spec_offset(), 2);
                    lemma_pow256_values();
                }
                if v < 0x8000 {
                    Ok(v as i16)
                } else {
                    Ok(((v as i32) - 0x10000) as i16)
                }
            }
            Err(e) => Err(e),
        }
    }
}

impl Decode for i32 {
    open spec fn sbor_type_spec() -> u8 {
        TYPE_I32
    }

    open spec fn decode_end(bytes: Seq<u8>, start: int, meta: bool) -> Option<int> {
        if start + 4 <= bytes.len() {
            Some(start + 4)
        } else {
            None
        }
    }

    open spec fn value_at(bytes: Seq<u8>, start: int, meta: bool, v: Self) -> bool {
        v == to_signed(le_val(bytes, start, 4), 0x8000_0000)
    }

    fn sbor_type() -> u8 {
        TYPE_I32
    }

    fn decode_value<'de>(decoder: &mut Decoder<'de>) -> Result<Self, DecodeError> {
        let ghost pre = *decoder;
        match read_le(decoder, 4) {
            Ok(v) => {
                proof {
                    lemma_le_val_bound(pre.bytes(), pre.spec_offset(), 4);
                    lemma_pow256_values();
                }
                if v < 0x8000_0000 {
                    Ok(v as i32)
                } else {
                    Ok(((v as i64) - 0x1_0000_0000) as i32)
                }
            }
            Err(e) => Err(e),
        }
    }
}

impl Decode for i64 {
    open spec fn sbor_type_spec() -> u8 {
        TYPE_I64
    }

    open spec fn decode_end(bytes: Seq<u8>, start: int, meta: bool) -> Option<int> {
        if start + 8 <= bytes.len() {
            Some(start + 8)
        } else {
            None
        }
    }

    open spec fn value_at(bytes: Seq<u8>, start: int, meta: bool, v: Self) -> bool {
        v == to_signed(le_val(bytes, start, 8), 0x8000_0000_0000_0000)
    }

    fn sbor_type() -> u8 {
        TYPE_I64
    }

    fn decode_value<'de>(decoder: &mut Decoder<'de>) -> Result<Self, DecodeError> {
        let ghost pre = *decoder;
        match read_le(decoder, 8) {
            Ok(v) => {
                proof {
                    lemma_le_val_bound(pre.bytes(), pre.spec_offset(), 8);
                    lemma_pow256_values();
                }
                if v < 0x8000_0000_0000_0000 {
                    Ok(v as i64)
                } else {
                    Ok(((v as i128) - 0x1_0000_0000_0000_0000) as i64)
                }
            }
            Err(e) => Err(e),
        }
    }
}

impl Decode for i128 {
    open spec fn sbor_type_spec() -> u8 {
        TYPE_I128
    }

    open spec fn decode_end(bytes: Seq<u8>, start: int, meta: bool) -> Option<int> {
        if start + 16 <= bytes.len() {
            Some(start + 16)
        } else {
            None
        }
    }

    open spec fn value_at(bytes: Seq<u8>, start: int, meta: bool, v: Self) -> bool {
        v == to_signed(le_val(bytes, start, 16), 0x8000_0000_0000_0000_0000_0000_0000_0000)
    }

    fn sbor_type() -> u8 {
        TYPE_I128
    }

    fn decode_value<'de>(decoder: &mut Decoder<'de>) -> Result<Self, DecodeError> {
        let ghost pre = *decoder;
        match read_le(decoder, 16) {
            Ok(v) => {
                proof {
                    lemma_le_val_bound(pre.bytes(), pre.spec_offset(), 16);
                    lemma_pow256_values();
                }
                if v < 0x8000_0000_0000_0000_0000_0000_0000_0000 {
                    Ok(v as i128)
                } else {
                    let d: u128 = v - 0x8000_0000_0000_0000_0000_0000_0000_0000;
                    Ok((d as i128) + i128::MIN)
                }
            }
            Err(e) => Err(e),
        }
    }
}

} // verus!

verus! {

/// Like `Decode::decode_end`, for a value announced by its own type byte.
pub open spec fn typed_decode_end<T: Decode>(bytes: Seq<u8>, start: int, meta: bool) -> Option<
    int,
> {
    if meta {
        if start < bytes.len() && bytes[start] == T::sbor_type_spec() {
            T::decode_end(bytes, start + 1, meta)
        } else {
            None
        }
    } else {
        T::decode_end(bytes, start, meta)
    }
}

/// Like `Decode::value_at`, for a value announced by its own type byte.
pub open spec fn typed_value_at<T: Decode>(bytes: Seq<u8>, start: int, meta: bool, v: T) -> bool {
    if meta {
        start < bytes.len() && bytes[start] == T::sbor_type_spec() && T::value_at(
            bytes,
            start + 1,
            meta,
            v,
        )
    } else {
        T::value_at(bytes, start, meta, v)
    }
}

/// End offset after `n` values of `T` encoded back to back (no type bytes).
pub open spec fn seq_decode_end<T: Decode>(bytes: Seq<u8>, start: int, meta: bool, n: nat) -> Option<
    int,
>
    decreases n,
{
    if n == 0 {
        Some(start)
    } else {
        match T::decode_end(bytes, start, meta) {
            Some(mid) => seq_decode_end::<T>(bytes, mid, meta, (n - 1) as nat),
            None => None,
        }
    }
}

/// The values of `T` encoded back to back from `start` are `vs`.
pub open spec fn seq_values_at<T: Decode>(bytes: Seq<u8>, start: int, meta: bool, vs: Seq<T>) -> bool
    decreases vs.len(),
{
    if vs.len() == 0 {
        true
    } else {
        T::value_at(bytes, start, meta, vs[0]) && match T::decode_end(bytes, start, meta) {
            Some(mid) => seq_values_at::<T>(bytes, mid, meta, vs.drop_first()),
            None => false,
        }
    }
}

/// One more element extends the chain by one decode step.
pub proof fn lemma_seq_end_extend<T: Decode>(bytes: Seq<u8>, start: int, meta: bool, i: nat)
    ensures
        seq_decode_end::<T>(bytes, start, meta, i + 1) == (match seq_decode_end::<T>(
            bytes,
            start,
            meta,
            i,
        ) {
            Some(cur) => T::decode_end(bytes, cur, meta),
            None => None::<int>,
        }),
    decreases i,
{
    if i == 0 {
        assert(seq_decode_end::<T>(bytes, start, meta, 1) == (match T::decode_end(
            bytes,
            start,
            meta,
        ) {
            Some(mid) => seq_decode_end::<T>(bytes, mid, meta, 0),
            None => None::<int>,
        }));
    } else {
        match T::decode_end(bytes, start, meta) {
            Some(mid) => {
                lemma_seq_end_extend::<T>(bytes, mid, meta, (i - 1) as nat);
                assert((i + 1 - 1) as nat == i);
                assert(seq_decode_end::<T>(bytes, start, meta, i + 1) == seq_decode_end::<T>(
                    bytes,
                    mid,
                    meta,
                    i,
                ));
            }
            None => {
                assert(seq_decode_end::<T>(bytes, start, meta, i + 1) is None);
            }
        }
    }
}

/// A value that decodes where the chain of `vs` ends extends `vs`.
pub proof fn lemma_seq_values_push<T: Decode>(
    bytes: Seq<u8>,
    start: int,
    meta: bool,
    vs: Seq<T>,
    cur: int,
    v: T,
)
    requires
        seq_values_at::<T>(bytes, start, meta, vs),
        seq_decode_end::<T>(bytes, start, meta, vs.len()) == Some(cur),
        T::value_at(bytes, cur, meta, v),
        T::decode_end(bytes, cur, meta) is Some,
    ensures
        seq_values_at::<T>(bytes, start, meta, vs.push(v)),
    decreases vs.len(),
{
    let ws = vs.push(v);
    if vs.len() == 0 {
        assert(cur == start);
        assert(ws[0] == v);
        assert(ws.drop_first() =~= Seq::<T>::empty());
        let mid = T::decode_end(bytes, start, meta).unwrap();
        assert(seq_values_at::<T>(bytes, mid, meta, ws.drop_first()));
    } else {
        assert(T::decode_end(bytes, start, meta) is Some);
        let mid = T::decode_end(bytes, start, meta).unwrap();
        assert(seq_decode_end::<T>(bytes, mid, meta, (vs.len() - 1) as nat) == Some(cur));
        lemma_seq_values_push::<T>(bytes, mid, meta, vs.drop_first(), cur, v);
        assert(ws[0] == vs[0]);
        assert(ws.drop_first() =~= vs.drop_first().push(v));
        assert(seq_values_at::<T>(bytes, mid, meta, ws.drop_first()));
    }
}

/// Relies on String::from_utf8: succeeds exactly on valid UTF-8 input and
/// yields its decoding, per vstd's UTF-8 specification.
#[verifier::external_body]
fn string_from_utf8(bytes: Vec<u8>) -> (r: Option<String>)
    ensures
        r matches Some(s) ==> vstd::utf8::valid_utf8(bytes@) && s@ == vstd::utf8::decode_utf8(
            bytes@,
        ),
        r is None ==> !vstd::utf8::valid_utf8(bytes@),
{
    match String::from_utf8(bytes) {
        Ok(s) => Some(s),
        Err(_) => None,
    }
}

impl Decode for String {
    open spec fn sbor_type_spec() -> u8 {
        TYPE_STRING
    }

    open spec fn decode_end(bytes: Seq<u8>, start: int, meta: bool) -> Option<int> {
        if start + 2 <= bytes.len() {
            let n = le16(bytes, start);
            if start + 2 + n <= bytes.len() && vstd::utf8::valid_utf8(
                bytes.subrange(start + 2, start + 2 + n),
            ) {
                Some(start + 2 + n)
            } else {
                None
            }
        } else {
            None
        }
    }

    open spec fn value_at(bytes: Seq<u8>, start: int, meta: bool, v: Self) -> bool {
        start + 2 <= bytes.len() && {
            let n = le16(bytes, start);
            start + 2 + n <= bytes.len() && v@ == vstd::utf8::decode_utf8(
                bytes.subrange(start + 2, start + 2 + n),
            )
        }
    }

    fn sbor_type() -> u8 {
        TYPE_STRING
    }

    fn decode_value<'de>(decoder: &mut Decoder<'de>) -> Result<Self, DecodeError> {
        let len = match decoder.read_len() {
            Ok(n) => n,
            Err(e) => { return Err(e); }
        };
        let slice = match decoder.read_bytes(len) {
            Ok(s) => s,
            Err(e) => { return Err(e); }
        };
        let owned = vstd::slice::slice_to_vec(slice);
        match string_from_utf8(owned) {
            Some(s) => Ok(s),
            None => Err(DecodeError::InvalidUtf8),
        }
    }
}

impl<T: Decode> Decode for Option<T> {
    open spec fn sbor_type_spec() -> u8 {
        TYPE_OPTION
    }

    open spec fn decode_end(bytes: Seq<u8>, start: int, meta: bool) -> Option<int> {
        if start < bytes.len() {
            if bytes[start] == 0 {
                Some(start + 1)
            } else if bytes[start] == 1 {
                typed_decode_end::<T>(bytes, start + 1, meta)
            } else {
                None
            }
        } else {
            None
        }
    }

    open spec fn value_at(bytes: Seq<u8>, start: int, meta: bool, v: Self) -> bool {
        start < bytes.len() && match v {
            None => bytes[start] == 0,
            Some(x) => bytes[start] == 1 && typed_value_at::<T>(bytes, start + 1, meta, x),
        }
    }

    fn sbor_type() -> u8 {
        TYPE_OPTION
    }

    fn decode_value<'de>(decoder: &mut Decoder<'de>) -> Result<Self, DecodeError> {
        let index = match decoder.read_index() {
            Ok(b) => b,
            Err(e) => { return Err(e); }
        };
        match index {
            0 => Ok(None),
            1 => match T::decode(decoder) {
                Ok(v) => Ok(Some(v)),
                Err(e) => Err(e),
            },
            _ => Err(DecodeError::InvalidIndex(index)),
        }
    }
}

impl<T: Decode> Decode for Box<T> {
    open spec fn sbor_type_spec() -> u8 {
        TYPE_BOX
    }

    open spec fn decode_end(bytes: Seq<u8>, start: int, meta: bool) -> Option<int> {
        typed_decode_end::<T>(bytes, start, meta)
    }

    open spec fn value_at(bytes: Seq<u8>, start: int, meta: bool, v: Self) -> bool {
        typed_value_at::<T>(bytes, start, meta, *v)
    }

    fn sbor_type() -> u8 {
        TYPE_BOX
    }

    fn decode_value<'de>(decoder: &mut Decoder<'de>) -> Result<Self, DecodeError> {
        match T::decode(decoder) {
            Ok(v) => Ok(Box::new(v)),
            Err(e) => Err(e),
        }
    }
}

} // verus!

verus! {

/// A failed decode step inside a chain fails the whole chain.
pub proof fn lemma_seq_end_fail<T: Decode>(
    bytes: Seq<u8>,
    start: int,
    meta: bool,
    i: nat,
    n: nat,
    cur: int,
)
    requires
        i < n,
        seq_decode_end::<T>(bytes, start, meta, i) == Some(cur),
        T::decode_end(bytes, cur, meta) is None,
    ensures
        seq_decode_end::<T>(bytes, start, meta, n) is None,
    decreases i,
{
    if i == 0 {
        assert(cur == start);
    } else {
        match T::decode_end(bytes, start, meta) {
            Some(mid) => {
                lemma_seq_end_fail::<T>(bytes, mid, meta, (i - 1) as nat, (n - 1) as nat, cur);
            }
            None => {}
        }
    }
}

impl<T: Decode> Decode for Vec<T> {
    open spec fn sbor_type_spec() -> u8 {
        TYPE_VEC
    }

    open spec fn decode_end(bytes: Seq<u8>, start: int, meta: bool) -> Option<int> {
        if start + 2 <= bytes.len() {
            let n = le16(bytes, start);
            if meta {
                if start + 2 < bytes.len() && bytes[start + 2] == T::sbor_type_spec() {
                    seq_decode_end::<T>(bytes, start + 3, meta, n as nat)
                } else {
                    None
                }
            } else {
                seq_decode_end::<T>(bytes, start + 2, meta, n as nat)
            }
        } else {
            None
        }
    }

    open spec fn value_at(bytes: Seq<u8>, start: int, meta: bool, v: Self) -> bool {
        start + 2 <= bytes.len() && {
            let n = le16(bytes, start);
            let p = if meta {
                start + 3
            } else {
                start + 2
            };
            v@.len() == n && seq_values_at::<T>(bytes, p, meta, v@)
        }
    }

    fn sbor_type() -> u8 {
        TYPE_VEC
    }

    fn decode_value<'de>(decoder: &mut Decoder<'de>) -> Result<Self, DecodeError> {
        let ghost pre = *decoder;
        let len = match decoder.read_len() {
            Ok(n) => n,
            Err(e) => { return Err(e); }
        };
        let t = T::sbor_type();
        match decoder.check_type(t) {
            Ok(_) => {}
            Err(e) => { return Err(e); }
        }
        let ghost p = decoder.spec_offset();
        let mut result: Vec<T> = Vec::new();
        let mut i: usize = 0;
        while i < len
            invariant
                pre == *old(decoder),
                decoder.wf(),
                decoder.bytes() == pre.bytes(),
                decoder.metadata() == pre.metadata(),
                i <= len,
                result@.len() == i,
                pre.spec_offset() + 2 <= pre.bytes().len(),
                le16(pre.bytes(), pre.spec_offset()) == len,
                pre.metadata() ==> pre.spec_offset() + 2 < pre.bytes().len()
                    && pre.bytes()[pre.spec_offset() + 2] == T::sbor_type_spec(),
                p == if pre.metadata() { pre.spec_offset() + 3 } else { pre.spec_offset() + 2 },
                seq_decode_end::<T>(pre.bytes(), p, pre.metadata(), i as nat) == Some(
                    decoder.spec_offset()),
                seq_values_at::<T>(pre.bytes(), p, pre.metadata(), result@),
            decreases len - i,
        {
            let ghost cur = decoder.spec_offset();
            let ghost done = result@;
            match T::decode_value(decoder) {
                Ok(v) => {
                    proof {
                        lemma_seq_end_extend::<T>(pre.bytes(), p, pre.metadata(), i as nat);
                        lemma_seq_values_push::<T>(
                            pre.bytes(), p, pre.metadata(), done, cur, v);
                    }
                    result.push(v);
                }
                Err(e) => {
                    proof {
                        lemma_seq_end_fail::<T>(
                            pre.bytes(), p, pre.metadata(), i as nat, len as nat, cur);
                    }
                    return Err(e);
                }
            }
            i = i + 1;
        }
        Ok(result)
    }
}

/// Relies on TryInto<[T; N]> for Vec<T>: a vector of length N converts into
/// the array of its elements.
#[verifier::external_body]
fn vec_into_array<T, const N: usize>(v: Vec<T>) -> (r: Option<[T; N]>)
    ensures
        r matches Some(a) ==> a@ == v@,
        v@.len() == N ==> r is Some,
{
    match v.try_into() {
        Ok(a) => Some(a),
        Err(_) => None,
    }
}

impl<T: Decode, const N: usize> Decode for [T; N] {
    open spec fn sbor_type_spec() -> u8 {
        TYPE_ARRAY
    }

    open spec fn decode_end(bytes: Seq<u8>, start: int, meta: bool) -> Option<int> {
        if start + 2 <= bytes.len() && le16(bytes, start) == N {
            if meta {
                if start + 2 < bytes.len() && bytes[start + 2] == T::sbor_type_spec() {
                    seq_decode_end::<T>(bytes, start + 3, meta, N as nat)
                } else {
                    None
                }
            } else {
                seq_decode_end::<T>(bytes, start + 2, meta, N as nat)
            }
        } else {
            None
        }
    }

    open spec fn value_at(bytes: Seq<u8>, start: int, meta: bool, v: Self) -> bool {
        start + 2 <= bytes.len() && le16(bytes, start) == N && {
            let p = if meta {
                start + 3
            } else {
                start + 2
            };
            seq_values_at::<T>(bytes, p, meta, v@)
        }
    }

    fn sbor_type() -> u8 {
        TYPE_ARRAY
    }

    fn decode_value<'de>(decoder: &mut Decoder<'de>) -> Result<Self, DecodeError> {
        let ghost pre = *decoder;
        match decoder.check_len(N) {
            Ok(_) => {}
            Err(e) => { return Err(e); }
        }
        let t = T::sbor_type();
        match decoder.check_type(t) {
            Ok(_) => {}
            Err(e) => { return Err(e); }
        }
        let ghost p = decoder.spec_offset();
        let mut result: Vec<T> = Vec::new();
        let mut i: usize = 0;
        while i < N
            invariant
                pre == *old(decoder),
                decoder.wf(),
                decoder.bytes() == pre.bytes(),
                decoder.metadata() == pre.metadata(),
                i <= N,
                result@.len() == i,
                pre.spec_offset() + 2 <= pre.bytes().len(),
                le16(pre.bytes(), pre.spec_offset()) == N,
                pre.metadata() ==> pre.spec_offset() + 2 < pre.bytes().len()
                    && pre.bytes()[pre.spec_offset() + 2] == T::sbor_type_spec(),
                p == if pre.metadata() { pre.spec_offset() + 3 } else { pre.spec_offset() + 2 },
                seq_decode_end::<T>(pre.bytes(), p, pre.metadata(), i as nat) == Some(
                    decoder.spec_offset()),
                seq_values_at::<T>(pre.bytes(), p, pre.metadata(), result@),
            decreases N - i,
        {
            let ghost cur = decoder.spec_offset();
            let ghost done = result@;
            match T::decode_value(decoder) {
                Ok(v) => {
                    proof {
                        lemma_seq_end_extend::<T>(pre.bytes(), p, pre.metadata(), i as nat);
                        lemma_seq_values_push::<T>(
                            pre.bytes(), p, pre.metadata(), done, cur, v);
                    }
                    result.push(v);
                }
                Err(e) => {
                    proof {
                        lemma_seq_end_fail::<T>(
                            pre.bytes(), p, pre.metadata(), i as nat, N as nat, cur);
                    }
                    return Err(e);
                }
            }
            i = i + 1;
        }
        match vec_into_array::<T, N>(result) {
            Some(a) => Ok(a),
            None => {
                proof {
                    assert(false);
                }
                Err(DecodeError::InvalidLength { expected: N, actual: 0 })
            }
        }
    }
}

impl<A: Decode, B: Decode> Decode for (A, B) {
    open spec fn sbor_type_spec() -> u8 {
        TYPE_TUPLE
    }

    open spec fn decode_end(bytes: Seq<u8>, start: int, meta: bool) -> Option<int> {
        if start + 2 <= bytes.len() && le16(bytes, start) == 2 {
            match typed_decode_end::<A>(bytes, start + 2, meta) {
                Some(m1) => typed_decode_end::<B>(bytes, m1, meta),
                None => None,
            }
        } else {
            None
        }
    }

    open spec fn value_at(bytes: Seq<u8>, start: int, meta: bool, v: Self) -> bool {
        start + 2 <= bytes.len() && le16(bytes, start) == 2 && typed_value_at::<A>(
            bytes,
            start + 2,
            meta,
            v.0,
        ) && match typed_decode_end::<A>(bytes, start + 2, meta) {
            Some(m1) => typed_value_at::<B>(bytes, m1, meta, v.1),
            None => false,
        }
    }

    fn sbor_type() -> u8 {
        TYPE_TUPLE
    }

    fn decode_value<'de>(decoder: &mut Decoder<'de>) -> Result<Self, DecodeError> {
        let len = match decoder.read_len() {
            Ok(n) => n,
            Err(e) => { return Err(e); }
        };
        if len != 2 {
            return Err(DecodeError::InvalidLength { expected: 2, actual: len });
        }
        let a = match A::decode(decoder) {
            Ok(v) => v,
            Err(e) => { return Err(e); }
        };
        let b = match B::decode(decoder) {
            Ok(v) => v,
            Err(e) => { return Err(e); }
        };
        Ok((a, b))
    }
}

impl<A: Decode, B: Decode, C: Decode> Decode for (A, B, C) {
    open spec fn sbor_type_spec() -> u8 {
        TYPE_TUPLE
    }

    open spec fn decode_end(bytes: Seq<u8>, start: int, meta: bool) -> Option<int> {
        if start + 2 <= bytes.len() && le16(bytes, start) == 3 {
            match typed_decode_end::<A>(bytes, start + 2, meta) {
                Some(m1) => match typed_decode_end::<B>(bytes, m1, meta) {
                    Some(m2) => typed_decode_end::<C>(bytes, m2, meta),
                    None => None,
                },
                None => None,
            }
        } else {
            None
        }
    }

    open spec fn value_at(bytes: Seq<u8>, start: int, meta: bool, v: Self) -> bool {
        start + 2 <= bytes.len() && le16(bytes, start) == 3 && typed_value_at::<A>(
            bytes,
            start + 2,
            meta,
            v.0,
        ) && match typed_decode_end::<A>(bytes, start + 2, meta) {
            Some(m1) => typed_value_at::<B>(bytes, m1, meta, v.1) && match typed_decode_end::<B>(
                bytes,
                m1,
                meta,
            ) {
                Some(m2) => typed_value_at::<C>(bytes, m2, meta, v.2),
                None => false,
            },
            None => false,
        }
    }

    fn sbor_type() -> u8 {
        TYPE_TUPLE
    }

    fn decode_value<'de>(decoder: &mut Decoder<'de>) -> Result<Self, DecodeError> {
        let len = match decoder.read_len() {
            Ok(n) => n,
            Err(e) => { return Err(e); }
        };
        if len != 3 {
            return Err(DecodeError::InvalidLength { expected: 3, actual: len });
        }
        let a = match A::decode(decoder) {
            Ok(v) => v,
            Err(e) => { return Err(e); }
        };
        let b = match B::decode(decoder) {
            Ok(v) => v,
            Err(e) => { return Err(e); }
        };
        let c = match C::decode(decoder) {
            Ok(v) => v,
            Err(e) => { return Err(e); }
        };
        Ok((a, b, c))
    }
}

} // verus!

verus! {

use vstd::laws_cmp::obeys_cmp;

/// End offset after `n` key-value pairs encoded back to back.
pub open spec fn map_entries_end<K: Decode, V: Decode>(
    bytes: Seq<u8>,
    start: int,
    meta: bool,
    n: nat,
) -> Option<int>
    decreases n,
{
    if n == 0 {
        Some(start)
    } else {
        match K::decode_end(bytes, start, meta) {
            Some(m1) => match V::decode_end(bytes, m1, meta) {
                Some(m2) => map_entries_end::<K, V>(bytes, m2, meta, (n - 1) as nat),
                None => None,
            },
            None => None,
        }
    }
}

/// The key-value pairs encoded back to back from `start` are `kvs`.
pub open spec fn map_entries_at<K: Decode, V: Decode>(
    bytes: Seq<u8>,
    start: int,
    meta: bool,
    kvs: Seq<(K, V)>,
) -> bool
    decreases kvs.len(),
{
    if kvs.len() == 0 {
        true
    } else {
        K::value_at(bytes, start, meta, kvs[0].0) && match K::decode_end(bytes, start, meta) {
            Some(m1) => V::value_at(bytes, m1, meta, kvs[0].1) && match V::decode_end(
                bytes,
                m1,
                meta,
            ) {
                Some(m2) => map_entries_at::<K, V>(bytes, m2, meta, kvs.drop_first()),
                None => false,
            },
            None => false,
        }
    }
}

/// The map that the pairs build up, later keys overwriting earlier ones.
pub open spec fn map_of<K, V>(kvs: Seq<(K, V)>) -> Map<K, V>
    decreases kvs.len(),
{
    if kvs.len() == 0 {
        Map::empty()
    } else {
        map_of(kvs.drop_last()).insert(kvs.last().0, kvs.last().1)
    }
}

/// The pairs `kvs` stand encoded at `start` (length prefix included) and,
/// when `K`'s order obeys its specification, build exactly the map `m`.
pub open spec fn map_decodes_to<K: Decode + Ord, V: Decode>(
    bytes: Seq<u8>,
    start: int,
    meta: bool,
    kvs: Seq<(K, V)>,
    m: std::collections::BTreeMap<K, V>,
) -> bool {
    &&& start + 2 <= bytes.len()
    &&& kvs.len() == le16(bytes, start)
    &&& map_entries_at::<K, V>(
        bytes,
        if meta {
            start + 4
        } else {
            start + 2
        },
        meta,
        kvs,
    )
    &&& (obeys_cmp::<K>() ==> m@ == map_of(kvs))
}

pub proof fn lemma_map_entries_extend<K: Decode, V: Decode>(
    bytes: Seq<u8>,
    start: int,
    meta: bool,
    i: nat,
)
    ensures
        map_entries_end::<K, V>(bytes, start, meta, i + 1) == (match map_entries_end::<K, V>(
            bytes,
            start,
            meta,
            i,
        ) {
            Some(cur) => match K::decode_end(bytes, cur, meta) {
                Some(m1) => V::decode_end(bytes, m1, meta),
                None => None::<int>,
            },
            None => None::<int>,
        }),
    decreases i,
{
    if i == 0 {
        assert(map_entries_end::<K, V>(bytes, start, meta, 1) == (match K::decode_end(
            bytes,
            start,
            meta,
        ) {
            Some(m1) => match V::decode_end(bytes, m1, meta) {
                Some(m2) => map_entries_end::<K, V>(bytes, m2, meta, 0),
                None => None::<int>,
            },
            None => None::<int>,
        }));
    } else {
        match K::decode_end(bytes, start, meta) {
            Some(m1) => {
                match V::decode_end(bytes, m1, meta) {
                    Some(m2) => {
                        lemma_map_entries_extend::<K, V>(bytes, m2, meta, (i - 1) as nat);
                        assert((i + 1 - 1) as nat == i);
                        assert(map_entries_end::<K, V>(bytes, start, meta, i + 1)
                            == map_entries_end::<K, V>(bytes, m2, meta, i));
                    }
                    None => {
                        assert(map_entries_end::<K, V>(bytes, start, meta, i + 1) is None);
                    }
                }
            }
            None => {
                assert(map_entries_end::<K, V>(bytes, start, meta, i + 1) is None);
            }
        }
    }
}

pub proof fn lemma_map_entries_push<K: Decode, V: Decode>(
    bytes: Seq<u8>,
    start: int,
    meta: bool,
    kvs: Seq<(K, V)>,
    cur: int,
    k: K,
    v: V,
    m1: int,
)
    requires
        map_entries_at::<K, V>(bytes, start, meta, kvs),
        map_entries_end::<K, V>(bytes, start, meta, kvs.len()) == Some(cur),
        K::value_at(bytes, cur, meta, k),
        K::decode_end(bytes, cur, meta) == Some(m1),
        V::value_at(bytes, m1, meta, v),
        V::decode_end(bytes, m1, meta) is Some,
    ensures
        map_entries_at::<K, V>(bytes, start, meta, kvs.push((k, v))),
    decreases kvs.len(),
{
    let ws = kvs.push((k, v));
    if kvs.len() == 0 {
        assert(cur == start);
        assert(ws[0] == (k, v));
        assert(ws.drop_first() =~= Seq::<(K, V)>::empty());
        let m2 = V::decode_end(bytes, m1, meta).unwrap();
        assert(map_entries_at::<K, V>(bytes, m2, meta, ws.drop_first()));
    } else {
        let a1 = K::decode_end(bytes, start, meta).unwrap();
        let a2 = V::decode_end(bytes, a1, meta).unwrap();
        assert(map_entries_end::<K, V>(bytes, a2, meta, (kvs.len() - 1) as nat) == Some(cur));
        lemma_map_entries_push::<K, V>(bytes, a2, meta, kvs.drop_first(), cur, k, v, m1);
        assert(ws[0] == kvs[0]);
        assert(ws.drop_first() =~= kvs.drop_first().push((k, v)));
        assert(map_entries_at::<K, V>(bytes, a2, meta, ws.drop_first()));
    }
}

pub proof fn lemma_map_entries_fail<K: Decode, V: Decode>(
    bytes: Seq<u8>,
    start: int,
    meta: bool,
    i: nat,
    n: nat,
    cur: int,
)
    requires
        i < n,
        map_entries_end::<K, V>(bytes, start, meta, i) == Some(cur),
        K::decode_end(bytes, cur, meta) is None || (K::decode_end(bytes, cur, meta) matches Some(
            m1,
        ) && V::decode_end(bytes, m1, meta) is None),
    ensures
        map_entries_end::<K, V>(bytes, start, meta, n) is None,
    decreases i,
{
    if i == 0 {
        assert(cur == start);
    } else {
        match K::decode_end(bytes, start, meta) {
            Some(m1) => match V::decode_end(bytes, m1, meta) {
                Some(m2) => {
                    lemma_map_entries_fail::<K, V>(
                        bytes, m2, meta, (i - 1) as nat, (n - 1) as nat, cur);
                }
                None => {}
            },
            None => {}
        }
    }
}

impl<K: Decode + Ord + core::hash::Hash, V: Decode> Decode for std::collections::BTreeMap<K, V> {
    open spec fn sbor_type_spec() -> u8 {
        TYPE_B_TREE_MAP
    }

    open spec fn decode_end(bytes: Seq<u8>, start: int, meta: bool) -> Option<int> {
        if start + 2 <= bytes.len() {
            let n = le16(bytes, start);
            if meta {
                if start + 3 < bytes.len() && bytes[start + 2] == K::sbor_type_spec() && bytes[start
                    + 3] == V::sbor_type_spec() {
                    map_entries_end::<K, V>(bytes, start + 4, meta, n as nat)
                } else {
                    None
                }
            } else {
                map_entries_end::<K, V>(bytes, start + 2, meta, n as nat)
            }
        } else {
            None
        }
    }

    open spec fn value_at(bytes: Seq<u8>, start: int, meta: bool, v: Self) -> bool {
        exists|kvs: Seq<(K, V)>| map_decodes_to::<K, V>(bytes, start, meta, kvs, v)
    }

    fn sbor_type() -> u8 {
        TYPE_B_TREE_MAP
    }

    fn decode_value<'de>(decoder: &mut Decoder<'de>) -> Result<Self, DecodeError> {
        let ghost pre = *decoder;
        let len = match decoder.read_len() {
            Ok(n) => n,
            Err(e) => { return Err(e); }
        };
        let kt = K::sbor_type();
        match decoder.check_type(kt) {
            Ok(_) => {}
            Err(e) => { return Err(e); }
        }
        let vt = V::sbor_type();
        match decoder.check_type(vt) {
            Ok(_) => {}
            Err(e) => { return Err(e); }
        }
        let ghost p = decoder.spec_offset();
        let mut map = std::collections::BTreeMap::<K, V>::new();
        let ghost kvs = Seq::<(K, V)>::empty();
        let mut i: usize = 0;
        while i < len
            invariant
                pre == *old(decoder),
                decoder.wf(),
                decoder.bytes() == pre.bytes(),
                decoder.metadata() == pre.metadata(),
                i <= len,
                kvs.len() == i,
                pre.spec_offset() + 2 <= pre.bytes().len(),
                le16(pre.bytes(), pre.spec_offset()) == len,
                pre.metadata() ==> pre.spec_offset() + 3 < pre.bytes().len()
                    && pre.bytes()[pre.spec_offset() + 2] == K::sbor_type_spec()
                    && pre.bytes()[pre.spec_offset() + 3] == V::sbor_type_spec(),
                p == if pre.metadata() { pre.spec_offset() + 4 } else { pre.spec_offset() + 2 },
                map_entries_end::<K, V>(pre.bytes(), p, pre.metadata(), i as nat) == Some(
                    decoder.spec_offset()),
                map_entries_at::<K, V>(pre.bytes(), p, pre.metadata(), kvs),
                obeys_cmp::<K>() ==> map@ == map_of(kvs),
            decreases len - i,
        {
            let ghost cur = decoder.spec_offset();
            let ghost done = kvs;
            let k = match K::decode_value(decoder) {
                Ok(k) => k,
                Err(e) => {
                    proof {
                        lemma_map_entries_fail::<K, V>(
                            pre.bytes(), p, pre.metadata(), i as nat, len as nat, cur);
                    }
                    return Err(e);
                }
            };
            let ghost m1 = decoder.spec_offset();
            let v = match V::decode_value(decoder) {
                Ok(v) => v,
                Err(e) => {
                    proof {
                        lemma_map_entries_fail::<K, V>(
                            pre.bytes(), p, pre.metadata(), i as nat, len as nat, cur);
                    }
                    return Err(e);
                }
            };
            proof {
                lemma_map_entries_extend::<K, V>(pre.bytes(), p, pre.metadata(), i as nat);
                lemma_map_entries_push::<K, V>(
                    pre.bytes(), p, pre.metadata(), done, cur, k, v, m1);
                kvs = kvs.push((k, v));
                assert(kvs.drop_last() =~= done);
            }
            map.insert(k, v);
            i = i + 1;
        }
        proof {
            assert(map_decodes_to::<K, V>(pre.bytes(), pre.spec_offset(), pre.metadata(), kvs,
                map));
        }
        Ok(map)
    }
}

} // verus!

verus! {

use vstd::string::StringSliceAdditionalSpecFns;
use vstd::string::StringExecFns;

impl<'de> Decoder<'de> {
    /// With metadata on, consumes a string header and its bytes and demands
    /// they spell exactly `expected`; with metadata off, reads nothing.
    #[verifier::rlimit(50)]
    pub fn check_name(&mut self, expected: &str) -> (r: Result<(), DecodeError>)
        requires
            old(self).wf(),
        ensures
            final(self).wf(),
            final(self).bytes() == old(self).bytes(),
            final(self).metadata() == old(self).metadata(),
            !old(self).metadata() ==> r is Ok && *final(self) == *old(self),
            old(self).metadata() ==> {
                let b = old(self).bytes();
                let s = old(self).spec_offset();
                let n = expected.spec_bytes().len() as usize as int;
                if s >= b.len() {
                    (r matches Err(e) && e matches DecodeError::Underflow { required, remaining }
                        && required == 1 && remaining == 0) && *final(self) == *old(self)
                } else if b[s] != TYPE_STRING {
                    (r matches Err(e) && e matches DecodeError::InvalidType { expected: x, actual }
                        && x == TYPE_STRING && actual == b[s]) && Self::advanced(*old(self),
                        *final(self), 1)
                } else if s + 3 > b.len() {
                    (r matches Err(e) && e matches DecodeError::Underflow { required, remaining }
                        && required == 2 && remaining == b.len() - (s + 1)) && Self::advanced(
                        *old(self), *final(self), 1)
                } else if le16(b, s + 1) != n {
                    (r matches Err(e) && e matches DecodeError::InvalidLength {
                        expected: x,
                        actual,
                    } && x == n && actual == le16(b, s + 1)) && Self::advanced(*old(self),
                        *final(self), 3)
                } else if s + 3 + n > b.len() {
                    (r matches Err(e) && e matches DecodeError::Underflow { required, remaining }
                        && required == n && remaining == b.len() - (s + 3)) && Self::advanced(
                        *old(self), *final(self), 3)
                } else if b.subrange(s + 3, s + 3 + n) != expected.spec_bytes() {
                    (r matches Err(e) && e matches DecodeError::InvalidName { expected: ex, .. }
                        && ex@ == expected@) && Self::advanced(*old(self), *final(self), 3 + n)
                } else {
                    r is Ok && Self::advanced(*old(self), *final(self), 3 + n)
                }
            },
    {
        if self.with_metadata {
            match self.check_type(TYPE_STRING) {
                Ok(_) => {}
                Err(e) => {
                    proof {
                        if old(self).spec_offset() >= old(self).bytes().len() {
                            assert(e matches DecodeError::Underflow { required, remaining }
                                && required == 1 && remaining == 0);
                            assert(*self == *old(self));
                        } else {
                            assert(old(self).bytes()[old(self).spec_offset()] != TYPE_STRING);
                            assert(e matches DecodeError::InvalidType { expected: x, actual }
                                && x == TYPE_STRING && actual == old(self).bytes()[old(
                                self).spec_offset()]);
                            assert(Self::advanced(*old(self), *self, 1));
                        }
                    }
                    return Err(e);
                }
            }
            let n = expected.len();
            match self.check_len(n) {
                Ok(_) => {}
                Err(e) => {
                    proof {
                        let b = old(self).bytes();
                        let s0 = old(self).spec_offset();
                        if s0 + 3 > b.len() {
                            assert(e matches DecodeError::Underflow { required, remaining }
                                && required == 2 && remaining == b.len() - (s0 + 1));
                            assert(Self::advanced(*old(self), *self, 1));
                        } else {
                            assert(le16(b, s0 + 1) != n);
                            assert(e matches DecodeError::InvalidLength { expected: x, actual }
                                && x == n && actual == le16(b, s0 + 1));
                            assert(Self::advanced(*old(self), *self, 3));
                        }
                    }
                    return Err(e);
                }
            }
            let slice = match self.read_bytes(n) {
                Ok(s) => s,
                Err(e) => {
                    proof {
                        let b = old(self).bytes();
                        let s0 = old(self).spec_offset();
                        assert(s0 + 3 + n > b.len());
                        assert(e matches DecodeError::Underflow { required, remaining }
                            && required == n && remaining == b.len() - (s0 + 3));
                        assert(Self::advanced(*old(self), *self, 3));
                    }
                    return Err(e);
                }
            };
            if !crate::util::bytes_eq(slice, expected.as_bytes()) {
                let actual = match string_from_utf8(vstd::slice::slice_to_vec(slice)) {
                    Some(s) => s,
                    None => String::from_str("<unknown>"),
                };
                return Err(DecodeError::InvalidName { expected: expected.to_owned(), actual });
            }
            Ok(())
        } else {
            Ok(())
        }
    }
}

} // verus!

verus! {

/// Writes an unsigned value as `n` little-endian bytes: the inverse of the
/// scalar reads above.
pub fn write_le(value: u128, n: usize) -> (r: Vec<u8>)
    requires
        n <= 16,
        value < pow256(n as nat),
    ensures
        r@.len() == n,
        le_val(r@, 0, n as nat) == value,
{
    let mut out: Vec<u8> = Vec::new();
    let mut rest: u128 = value;
    let mut i: usize = 0;
    while i < n
        invariant
            i <= n <= 16,
            out@.len() == i,
            value < pow256(n as nat),
            le_val(out@, 0, i as nat) + rest * pow256(i as nat) == value,
            rest < pow256((n - i) as nat),
        decreases n - i,
    {
        let ghost out0 = out@;
        let ghost rest0 = rest as int;
        let byte = (rest % 256) as u8;
        out.push(byte);
        rest = rest / 256;
        proof {
            lemma_le_val_snoc(out0, byte, i as nat);
            assert(pow256((i + 1) as nat) == pow256(i as nat) * 256);
            assert(rest0 == 256 * (rest0 / 256) + rest0 % 256);
            assert((rest0 % 256) * pow256(i as nat) + (rest0 / 256) * (pow256(i as nat) * 256)
                == rest0 * pow256(i as nat)) by (nonlinear_arith)
                requires
                    rest0 == 256 * (rest0 / 256) + rest0 % 256,
            ;
            assert(pow256((n - i) as nat) == 256 * pow256((n - i - 1) as nat));
        }
        i = i + 1;
    }
    proof {
        assert(pow256(0) == 1);
        lemma_pow256_positive((n - i) as nat);
        assert(rest == 0) by (nonlinear_arith)
            requires
                le_val(out@, 0, i as nat) + rest * pow256(i as nat) == value,
                0 <= le_val(out@, 0, i as nat),
                value < pow256(i as nat),
                rest >= 0,
                pow256(i as nat) >= 1,
        ;
    }
    out
}

/// Appending one byte raises the value by that byte at the next place.
pub proof fn lemma_le_val_snoc(bytes: Seq<u8>, b: u8, n: nat)
    requires
        bytes.len() == n,
    ensures
        le_val(bytes.push(b), 0, n + 1) == le_val(bytes, 0, n) + b * pow256(n),
    decreases n,
{
    if n == 0 {
        assert(bytes.push(b)[0] == b);
        assert(le_val(bytes.push(b), 1, 0) == 0);
    } else {
        assert(bytes.push(b)[0] == bytes[0]);
        assert(bytes.push(b).drop_first() =~= bytes.drop_first().push(b));
        lemma_le_val_snoc(bytes.drop_first(), b, (n - 1) as nat);
        lemma_le_val_shift(bytes.push(b), 1, n);
        assert(bytes.push(b).subrange(1, n as int + 1) =~= bytes.drop_first().push(b));
        lemma_le_val_shift(bytes.drop_first().push(b), 0, n);
        assert(bytes.drop_first().push(b).subrange(0, n as int) =~= bytes.drop_first().push(b));
        lemma_le_val_shift(bytes, 1, (n - 1) as nat);
        lemma_le_val_shift(bytes.drop_first(), 0, (n - 1) as nat);
        assert(bytes.subrange(1, n as int) =~= bytes.drop_first());
        assert(bytes.drop_first().subrange(0, n as int - 1) =~= bytes.drop_first());
        assert(pow256(n) == 256 * pow256((n - 1) as nat));
        assert(bytes[0] + 256 * (le_val(bytes.drop_first(), 0, (n - 1) as nat) + b * pow256(
            (n - 1) as nat,
        )) == bytes[0] + 256 * le_val(bytes.drop_first(), 0, (n - 1) as nat) + b * (256 * pow256(
            (n - 1) as nat,
        ))) by (nonlinear_arith);
    }
}

/// The little-endian form is canonical: two byte strings of the same length
/// spelling the same value are byte-identical. With `write_le` this is the
/// scalar round trip: decoding and re-encoding any `n`-byte scalar gives the
/// original bytes back.
pub proof fn lemma_le_canonical(b1: Seq<u8>, b2: Seq<u8>, n: nat)
    requires
        b1.len() == n,
        b2.len() == n,
        le_val(b1, 0, n) == le_val(b2, 0, n),
    ensures
        b1 =~= b2,
    decreases n,
{
    if n > 0 {
        let v = le_val(b1, 0, n);
        lemma_le_val_bound(b1, 1, (n - 1) as nat);
        lemma_le_val_bound(b2, 1, (n - 1) as nat);
        assert(b1[0] == v % 256 && b2[0] == v % 256) by (nonlinear_arith)
            requires
                v == b1[0] + 256 * le_val(b1, 1, (n - 1) as nat),
                v == b2[0] + 256 * le_val(b2, 1, (n - 1) as nat),
                0 <= b1[0] < 256,
                0 <= b2[0] < 256,
        ;
        assert(le_val(b1, 1, (n - 1) as nat) == le_val(b2, 1, (n - 1) as nat))
            by (nonlinear_arith)
            requires
                b1[0] + 256 * le_val(b1, 1, (n - 1) as nat) == b2[0] + 256 * le_val(
                    b2,
                    1,
                    (n - 1) as nat,
                ),
                b1[0] == b2[0],
        ;
        lemma_le_val_shift(b1, 1, (n - 1) as nat);
        lemma_le_val_shift(b2, 1, (n - 1) as nat);
        lemma_le_canonical(
            b1.subrange(1, n as int),
            b2.subrange(1, n as int),
            (n - 1) as nat,
        );
        assert forall|j: int| 0 <= j < n implies b1[j] == b2[j] by {
            if j > 0 {
                assert(b1.subrange(1, n as int)[j - 1] == b2.subrange(1, n as int)[j - 1]);
            }
        }
    }
}

} // verus!

verus! {

impl<A: Decode, B: Decode, C: Decode, D: Decode> Decode for (A, B, C, D) {
    open spec fn sbor_type_spec() -> u8 {
        TYPE_TUPLE
    }

    open spec fn decode_end(bytes: Seq<u8>, start: int, meta: bool) -> Option<int> {
        if start + 2 <= bytes.len() && le16(bytes, start) == 4 {
            match typed_decode_end::<A>(bytes, start + 2, meta) {
            Some(m1) => match typed_decode_end::<B>(bytes, m1, meta) {
            Some(m2) => match typed_decode_end::<C>(bytes, m2, meta) {
            Some(m3) => match typed_decode_end::<D>(bytes, m3, meta) {
            Some(m4) => Some(m4),
            None => None,
        },
            None => None,
        },
            None => None,
        },
            None => None,
        }
        } else {
            None
        }
    }

    open spec fn value_at(bytes: Seq<u8>, start: int, meta: bool, v: Self) -> bool {
        start + 2 <= bytes.len() && le16(bytes, start) == 4 && typed_value_at::<A>(bytes, start + 2, meta, v.0) && match typed_decode_end::<A>(bytes, start + 2, meta) {
            Some(m1) => typed_value_at::<B>(bytes, m1, meta, v.1) && match typed_decode_end::<B>(bytes, m1, meta) {
            Some(m2) => typed_value_at::<C>(bytes, m2, meta, v.2) && match typed_decode_end::<C>(bytes, m2, meta) {
            Some(m3) => typed_value_at::<D>(bytes, m3, meta, v.3),
            None => false,
        },
            None => false,
        },
            None => false,
        }
    }

    fn sbor_type() -> u8 {
        TYPE_TUPLE
    }

    fn decode_value<'de>(decoder: &mut Decoder<'de>) -> Result<Self, DecodeError> {
        let len = match decoder.read_len() {
            Ok(n) => n,
            Err(e) => { return Err(e); }
        };
        if len != 4 {
            return Err(DecodeError::InvalidLength { expected: 4, actual: len });
        }
        let x0 = match A::decode(decoder) {
            Ok(v) => v,
            Err(e) => { return Err(e); }
        };
        let x1 = match B::decode(decoder) {
            Ok(v) => v,
            Err(e) => { return Err(e); }
        };
        let x2 = match C::decode(decoder) {
            Ok(v) => v,
            Err(e) => { return Err(e); }
        };
        let x3 = match D::decode(decoder) {
            Ok(v) => v,
            Err(e) => { return Err(e); }
        };
        Ok((x0, x1, x2, x3))
    }
}

impl<A: Decode, B: Decode, C: Decode, D: Decode, E: Decode> Decode for (A, B, C, D, E) {
    open spec fn sbor_type_spec() -> u8 {
        TYPE_TUPLE
    }

    open spec fn decode_end(bytes: Seq<u8>, start: int, meta: bool) -> Option<int> {
        if start + 2 <= bytes.len() && le16(bytes, start) == 5 {
            match typed_decode_end::<A>(bytes, start + 2, meta) {
            Some(m1) => match typed_decode_end::<B>(bytes, m1, meta) {
            Some(m2) => match typed_decode_end::<C>(bytes, m2, meta) {
            Some(m3) => match typed_decode_end::<D>(bytes, m3, meta) {
            Some(m4) => match typed_decode_end::<E>(bytes, m4, meta) {
            Some(m5) => Some(m5),
            None => None,
        },
            None => None,
        },
            None => None,
        },
            None => None,
        },
            None => None,
        }
        } else {
            None
        }
    }

    open spec fn value_at(bytes: Seq<u8>, start: int, meta: bool, v: Self) -> bool {
        start + 2 <= bytes.len() && le16(bytes, start) == 5 && typed_value_at::<A>(bytes, start + 2, meta, v.0) && match typed_decode_end::<A>(bytes, start + 2, meta) {
            Some(m1) => typed_value_at::<B>(bytes, m1, meta, v.1) && match typed_decode_end::<B>(bytes, m1, meta) {
            Some(m2) => typed_value_at::<C>(bytes, m2, meta, v.2) && match typed_decode_end::<C>(bytes, m2, meta) {
            Some(m3) => typed_value_at::<D>(bytes, m3, meta, v.3) && match typed_decode_end::<D>(bytes, m3, meta) {
            Some(m4) => typed_value_at::<E>(bytes, m4, meta, v.4),
            None => false,
        },
            None => false,
        },
            None => false,
        },
            None => false,
        }
    }

    fn sbor_type() -> u8 {
        TYPE_TUPLE
    }

    fn decode_value<'de>(decoder: &mut Decoder<'de>) -> Result<Self, DecodeError> {
        let len = match decoder.read_len() {
            Ok(n) => n,
            Err(e) => { return Err(e); }
        };
        if len != 5 {
            return Err(DecodeError::InvalidLength { expected: 5, actual: len });
        }
        let x0 = match A::decode(decoder) {
            Ok(v) => v,
            Err(e) => { return Err(e); }
        };
        let x1 = match B::decode(decoder) {
            Ok(v) => v,
            Err(e) => { return Err(e); }
        };
        let x2 = match C::decode(decoder) {
            Ok(v) => v,
            Err(e) => { return Err(e); }
        };
        let x3 = match D::decode(decoder) {
            Ok(v) => v,
            Err(e) => { return Err(e); }
        };
        let x4 = match E::decode(decoder) {
            Ok(v) => v,
            Err(e) => { return Err(e); }
        };
        Ok((x0, x1, x2, x3, x4))
    }
}

impl<A: Decode, B: Decode, C: Decode, D: Decode, E: Decode, F: Decode> Decode for (A, B, C, D, E, F) {
    open spec fn sbor_type_spec() -> u8 {
        TYPE_TUPLE
    }

    open spec fn decode_end(bytes: Seq<u8>, start: int, meta: bool) -> Option<int> {
        if start + 2 <= bytes.len() && le16(bytes, start) == 6 {
            match typed_decode_end::<A>(bytes, start + 2, meta) {
            Some(m1) => match typed_decode_end::<B>(bytes, m1, meta) {
            Some(m2) => match typed_decode_end::<C>(bytes, m2, meta) {
            Some(m3) => match typed_decode_end::<D>(bytes, m3, meta) {
            Some(m4) => match typed_decode_end::<E>(bytes, m4, meta) {
            Some(m5) => match typed_decode_end::<F>(bytes, m5, meta) {
            Some(m6) => Some(m6),
            None => None,
        },
            None => None,
        },
            None => None,
        },
            None => None,
        },
            None => None,
        },
            None => None,
        }
        } else {
            None
        }
    }

    open spec fn value_at(bytes: Seq<u8>, start: int, meta: bool, v: Self) -> bool {
        start + 2 <= bytes.len() && le16(bytes, start) == 6 && typed_value_at::<A>(bytes, start + 2, meta, v.0) && match typed_decode_end::<A>(bytes, start + 2, meta) {
            Some(m1) => typed_value_at::<B>(bytes, m1, meta, v.1) && match typed_decode_end::<B>(bytes, m1, meta) {
            Some(m2) => typed_value_at::<C>(bytes, m2, meta, v.2) && match typed_decode_end::<C>(bytes, m2, meta) {
            Some(m3) => typed_value_at::<D>(bytes, m3, meta, v.3) && match typed_decode_end::<D>(bytes, m3, meta) {
            Some(m4) => typed_value_at::<E>(bytes, m4, meta, v.4) && match typed_decode_end::<E>(bytes, m4, meta) {
            Some(m5) => typed_value_at::<F>(bytes, m5, meta, v.5),
            None => false,
        },
            None => false,
        },
            None => false,
        },
            None => false,
        },
            None => false,
        }
    }

    fn sbor_type() -> u8 {
        TYPE_TUPLE
    }

    fn decode_value<'de>(decoder: &mut Decoder<'de>) -> Result<Self, DecodeError> {
        let len = match decoder.read_len() {
            Ok(n) => n,
            Err(e) => { return Err(e); }
        };
        if len != 6 {
            return Err(DecodeError::InvalidLength { expected: 6, actual: len });
        }
        let x0 = match A::decode(decoder) {
            Ok(v) => v,
            Err(e) => { return Err(e); }
        };
        let x1 = match B::decode(decoder) {
            Ok(v) => v,
            Err(e) => { return Err(e); }
        };
        let x2 = match C::decode(decoder) {
            Ok(v) => v,
            Err(e) => { return Err(e); }
        };
        let x3 = match D::decode(decoder) {
            Ok(v) => v,
            Err(e) => { return Err(e); }
        };
        let x4 = match E::decode(decoder) {
            Ok(v) => v,
            Err(e) => { return Err(e); }
        };
        let x5 = match F::decode(decoder) {
            Ok(v) => v,
            Err(e) => { return Err(e); }
        };
        Ok((x0, x1, x2, x3, x4, x5))
    }
}

impl<A: Decode, B: Decode, C: Decode, D: Decode, E: Decode, F: Decode, G: Decode> Decode for (A, B, C, D, E, F, G) {
    open spec fn sbor_type_spec() -> u8 {
        TYPE_TUPLE
    }

    open spec fn decode_end(bytes: Seq<u8>, start: int, meta: bool) -> Option<int> {
        if start + 2 <= bytes.len() && le16(bytes, start) == 7 {
            match typed_decode_end::<A>(bytes, start + 2, meta) {
            Some(m1) => match typed_decode_end::<B>(bytes, m1, meta) {
            Some(m2) => match typed_decode_end::<C>(bytes, m2, meta) {
            Some(m3) => match typed_decode_end::<D>(bytes, m3, meta) {
            Some(m4) => match typed_decode_end::<E>(bytes, m4, meta) {
            Some(m5) => match typed_decode_end::<F>(bytes, m5, meta) {
            Some(m6) => match typed_decode_end::<G>(bytes, m6, meta) {
            Some(m7) => Some(m7),
            None => None,
        },
            None => None,
        },
            None => None,
        },
            None => None,
        },
            None => None,
        },
            None => None,
        },
            None => None,
        }
        } else {
            None
        }
    }

    open spec fn value_at(bytes: Seq<u8>, start: int, meta: bool, v: Self) -> bool {
        start + 2 <= bytes.len() && le16(bytes, start) == 7 && typed_value_at::<A>(bytes, start + 2, meta, v.0) && match typed_decode_end::<A>(bytes, start + 2, meta) {
            Some(m1) => typed_value_at::<B>(bytes, m1, meta, v.1) && match typed_decode_end::<B>(bytes, m1, meta) {
            Some(m2) => typed_value_at::<C>(bytes, m2, meta, v.2) && match typed_decode_end::<C>(bytes, m2, meta) {
            Some(m3) => typed_value_at::<D>(bytes, m3, meta, v.3) && match typed_decode_end::<D>(bytes, m3, meta) {
            Some(m4) => typed_value_at::<E>(bytes, m4, meta, v.4) && match typed_decode_end::<E>(bytes, m4, meta) {
            Some(m5) => typed_value_at::<F>(bytes, m5, meta, v.5) && match typed_decode_end::<F>(bytes, m5, meta) {
            Some(m6) => typed_value_at::<G>(bytes, m6, meta, v.6),
            None => false,
        },
            None => false,
        },
            None => false,
        },
            None => false,
        },
            None => false,
        },
            None => false,
        }
    }

    fn sbor_type() -> u8 {
        TYPE_TUPLE
    }

    fn decode_value<'de>(decoder: &mut Decoder<'de>) -> Result<Self, DecodeError> {
        let len = match decoder.read_len() {
            Ok(n) => n,
            Err(e) => { return Err(e); }
        };
        if len != 7 {
            return Err(DecodeError::InvalidLength { expected: 7, actual: len });
        }
        let x0 = match A::decode(decoder) {
            Ok(v) => v,
            Err(e) => { return Err(e); }
        };
        let x1 = match B::decode(decoder) {
            Ok(v) => v,
            Err(e) => { return Err(e); }
        };
        let x2 = match C::decode(decoder) {
            Ok(v) => v,
            Err(e) => { return Err(e); }
        };
        let x3 = match D::decode(decoder) {
            Ok(v) => v,
            Err(e) => { return Err(e); }
        };
        let x4 = match E::decode(decoder) {
            Ok(v) => v,
            Err(e) => { return Err(e); }
        };
        let x5 = match F::decode(decoder) {
            Ok(v) => v,
            Err(e) => { return Err(e); }
        };
        let x6 = match G::decode(decoder) {
            Ok(v) => v,
            Err(e) => { return Err(e); }
        };
        Ok((x0, x1, x2, x3, x4, x5, x6))
    }
}

impl<A: Decode, B: Decode, C: Decode, D: Decode, E: Decode, F: Decode, G: Decode, H: Decode> Decode for (A, B, C, D, E, F, G, H) {
    open spec fn sbor_type_spec() -> u8 {
        TYPE_TUPLE
    }

    open spec fn decode_end(bytes: Seq<u8>, start: int, meta: bool) -> Option<int> {
        if start + 2 <= bytes.len() && le16(bytes, start) == 8 {
            match typed_decode_end::<A>(bytes, start + 2, meta) {
            Some(m1) => match typed_decode_end::<B>(bytes, m1, meta) {
            Some(m2) => match typed_decode_end::<C>(bytes, m2, meta) {
            Some(m3) => match typed_decode_end::<D>(bytes, m3, meta) {
            Some(m4) => match typed_decode_end::<E>(bytes, m4, meta) {
            Some(m5) => match typed_decode_end::<F>(bytes, m5, meta) {
            Some(m6) => match typed_decode_end::<G>(bytes, m6, meta) {
            Some(m7) => match typed_decode_end::<H>(bytes, m7, meta) {
            Some(m8) => Some(m8),
            None => None,
        },
            None => None,
        },
            None => None,
        },
            None => None,
        },
            None => None,
        },
            None => None,
        },
            None => None,
        },
            None => None,
        }
        } else {
            None
        }
    }

    open spec fn value_at(bytes: Seq<u8>, start: int, meta: bool, v: Self) -> bool {
        start + 2 <= bytes.len() && le16(bytes, start) == 8 && typed_value_at::<A>(bytes, start + 2, meta, v.0) && match typed_decode_end::<A>(bytes, start + 2, meta) {
            Some(m1) => typed_value_at::<B>(bytes, m1, meta, v.1) && match typed_decode_end::<B>(bytes, m1, meta) {
            Some(m2) => typed_value_at::<C>(bytes, m2, meta, v.2) && match typed_decode_end::<C>(bytes, m2, meta) {
            Some(m3) => typed_value_at::<D>(bytes, m3, meta, v.3) && match typed_decode_end::<D>(bytes, m3, meta) {
            Some(m4) => typed_value_at::<E>(bytes, m4, meta, v.4) && match typed_decode_end::<E>(bytes, m4, meta) {
            Some(m5) => typed_value_at::<F>(bytes, m5, meta, v.5) && match typed_decode_end::<F>(bytes, m5, meta) {
            Some(m6) => typed_value_at::<G>(bytes, m6, meta, v.6) && match typed_decode_end::<G>(bytes, m6, meta) {
            Some(m7) => typed_value_at::<H>(bytes, m7, meta, v.7),
            None => false,
        },
            None => false,
        },
            None => false,
        },
            None => false,
        },
            None => false,
        },
            None => false,
        },
            None => false,
        }
    }

    fn sbor_type() -> u8 {
        TYPE_TUPLE
    }

    fn decode_value<'de>(decoder: &mut Decoder<'de>) -> Result<Self, DecodeError> {
        let len = match decoder.read_len() {
            Ok(n) => n,
            Err(e) => { return Err(e); }
        };
        if len != 8 {
            return Err(DecodeError::InvalidLength { expected: 8, actual: len });
        }
        let x0 = match A::decode(decoder) {
            Ok(v) => v,
            Err(e) => { return Err(e); }
        };
        let x1 = match B::decode(decoder) {
            Ok(v) => v,
            Err(e) => { return Err(e); }
        };
        let x2 = match C::decode(decoder) {
            Ok(v) => v,
            Err(e) => { return Err(e); }
        };
        let x3 = match D::decode(decoder) {
            Ok(v) => v,
            Err(e) => { return Err(e); }
        };
        let x4 = match E::decode(decoder) {
            Ok(v) => v,
            Err(e) => { return Err(e); }
        };
        let x5 = match F::decode(decoder) {
            Ok(v) => v,
            Err(e) => { return Err(e); }
        };
        let x6 = match G::decode(decoder) {
            Ok(v) => v,
            Err(e) => { return Err(e); }
        };
        let x7 = match H::decode(decoder) {
            Ok(v) => v,
            Err(e) => { return Err(e); }
        };
        Ok((x0, x1, x2, x3, x4, x5, x6, x7))
    }
}

impl<A: Decode, B: Decode, C: Decode, D: Decode, E: Decode, F: Decode, G: Decode, H: Decode, I: Decode> Decode for (A, B, C, D, E, F, G, H, I) {
    open spec fn sbor_type_spec() -> u8 {
        TYPE_TUPLE
    }

    open spec fn decode_end(bytes: Seq<u8>, start: int, meta: bool) -> Option<int> {
        if start + 2 <= bytes.len() && le16(bytes, start) == 9 {
            match typed_decode_end::<A>(bytes, start + 2, meta) {
            Some(m1) => match typed_decode_end::<B>(bytes, m1, meta) {
            Some(m2) => match typed_decode_end::<C>(bytes, m2, meta) {
            Some(m3) => match typed_decode_end::<D>(bytes, m3, meta) {
            Some(m4) => match typed_decode_end::<E>(bytes, m4, meta) {
            Some(m5) => match typed_decode_end::<F>(bytes, m5, meta) {
            Some(m6) => match typed_decode_end::<G>(bytes, m6, meta) {
            Some(m7) => match typed_decode_end::<H>(bytes, m7, meta) {
            Some(m8) => match typed_decode_end::<I>(bytes, m8, meta) {
            Some(m9) => Some(m9),
            None => None,
        },
            None => None,
        },
            None => None,
        },
            None => None,
        },
            None => None,
        },
            None => None,
        },
            None => None,
        },
            None => None,
        },
            None => None,
        }
        } else {
            None
        }
    }

    open spec fn value_at(bytes: Seq<u8>, start: int, meta: bool, v: Self) -> bool {
        start + 2 <= bytes.len() && le16(bytes, start) == 9 && typed_value_at::<A>(bytes, start + 2, meta, v.0) && match typed_decode_end::<A>(bytes, start + 2, meta) {
            Some(m1) => typed_value_at::<B>(bytes, m1, meta, v.1) && match typed_decode_end::<B>(bytes, m1, meta) {
            Some(m2) => typed_value_at::<C>(bytes, m2, meta, v.2) && match typed_decode_end::<C>(bytes, m2, meta) {
            Some(m3) => typed_value_at::<D>(bytes, m3, meta, v.3) && match typed_decode_end::<D>(bytes, m3, meta) {
            Some(m4) => typed_value_at::<E>(bytes, m4, meta, v.4) && match typed_decode_end::<E>(bytes, m4, meta) {
            Some(m5) => typed_value_at::<F>(bytes, m5, meta, v.5) && match typed_decode_end::<F>(bytes, m5, meta) {
            Some(m6) => typed_value_at::<G>(bytes, m6, meta, v.6) && match typed_decode_end::<G>(bytes, m6, meta) {
            Some(m7) => typed_value_at::<H>(bytes, m7, meta, v.7) && match typed_decode_end::<H>(bytes, m7, meta) {
            Some(m8) => typed_value_at::<I>(bytes, m8, meta, v.8),
            None => false,
        },
            None => false,
        },
            None => false,
        },
            None => false,
        },
            None => false,
        },
            None => false,
        },
            None => false,
        },
            None => false,
        }
    }

    fn sbor_type() -> u8 {
        TYPE_TUPLE
    }

    fn decode_value<'de>(decoder: &mut Decoder<'de>) -> Result<Self, DecodeError> {
        let len = match decoder.read_len() {
            Ok(n) => n,
            Err(e) => { return Err(e); }
        };
        if len != 9 {
            return Err(DecodeError::InvalidLength { expected: 9, actual: len });
        }
        let x0 = match A::decode(decoder) {
            Ok(v) => v,
            Err(e) => { return Err(e); }
        };
        let x1 = match B::decode(decoder) {
            Ok(v) => v,
            Err(e) => { return Err(e); }
        };
        let x2 = match C::decode(decoder) {
            Ok(v) => v,
            Err(e) => { return Err(e); }
        };
        let x3 = match D::decode(decoder) {
            Ok(v) => v,
            Err(e) => { return Err(e); }
        };
        let x4 = match E::decode(decoder) {
            Ok(v) => v,
            Err(e) => { return Err(e); }
        };
        let x5 = match F::decode(decoder) {
            Ok(v) => v,
            Err(e) => { return Err(e); }
        };
        let x6 = match G::decode(decoder) {
            Ok(v) => v,
            Err(e) => { return Err(e); }
        };
        let x7 = match H::decode(decoder) {
            Ok(v) => v,
            Err(e) => { return Err(e); }
        };
        let x8 = match I::decode(decoder) {
            Ok(v) => v,
            Err(e) => { return Err(e); }
        };
        Ok((x0, x1, x2, x3, x4, x5, x6, x7, x8))
    }
}

impl<A: Decode, B: Decode, C: Decode, D: Decode, E: Decode, F: Decode, G: Decode, H: Decode, I: Decode, J: Decode> Decode for (A, B, C, D, E, F, G, H, I, J) {
    open spec fn sbor_type_spec() -> u8 {
        TYPE_TUPLE
    }

    open spec fn decode_end(bytes: Seq<u8>, start: int, meta: bool) -> Option<int> {
        if start + 2 <= bytes.len() && le16(bytes, start) == 10 {
            match typed_decode_end::<A>(bytes, start + 2, meta) {
            Some(m1) => match typed_decode_end::<B>(bytes, m1, meta) {
            Some(m2) => match typed_decode_end::<C>(bytes, m2, meta) {
            Some(m3) => match typed_decode_end::<D>(bytes, m3, meta) {
            Some(m4) => match typed_decode_end::<E>(bytes, m4, meta) {
            Some(m5) => match typed_decode_end::<F>(bytes, m5, meta) {
            Some(m6) => match typed_decode_end::<G>(bytes, m6, meta) {
            Some(m7) => match typed_decode_end::<H>(bytes, m7, meta) {
            Some(m8) => match typed_decode_end::<I>(bytes, m8, meta) {
            Some(m9) => match typed_decode_end::<J>(bytes, m9, meta) {
            Some(m10) => Some(m10),
            None => None,
        },
            None => None,
        },
            None => None,
        },
            None => None,
        },
            None => None,
        },
            None => None,
        },
            None => None,
        },
            None => None,
        },
            None => None,
        },
            None => None,
        }
        } else {
            None
        }
    }

    open spec fn value_at(bytes: Seq<u8>, start: int, meta: bool, v: Self) -> bool {
        start + 2 <= bytes.len() && le16(bytes, start) == 10 && typed_value_at::<A>(bytes, start + 2, meta, v.0) && match typed_decode_end::<A>(bytes, start + 2, meta) {
            Some(m1) => typed_value_at::<B>(bytes, m1, meta, v.1) && match typed_decode_end::<B>(bytes, m1, meta) {
            Some(m2) => typed_value_at::<C>(bytes, m2, meta, v.2) && match typed_decode_end::<C>(bytes, m2, meta) {
            Some(m3) => typed_value_at::<D>(bytes, m3, meta, v.3) && match typed_decode_end::<D>(bytes, m3, meta) {
            Some(m4) => typed_value_at::<E>(bytes, m4, meta, v.4) && match typed_decode_end::<E>(bytes, m4, meta) {
            Some(m5) => typed_value_at::<F>(bytes, m5, meta, v.5) && match typed_decode_end::<F>(bytes, m5, meta) {
            Some(m6) => typed_value_at::<G>(bytes, m6, meta, v.6) && match typed_decode_end::<G>(bytes, m6, meta) {
            Some(m7) => typed_value_at::<H>(bytes, m7, meta, v.7) && match typed_decode_end::<H>(bytes, m7, meta) {
            Some(m8) => typed_value_at::<I>(bytes, m8, meta, v.8) && match typed_decode_end::<I>(bytes, m8, meta) {
            Some(m9) => typed_value_at::<J>(bytes, m9, meta, v.9),
            None => false,
        },
            None => false,
        },
            None => false,
        },
            None => false,
        },
            None => false,
        },
            None => false,
        },
            None => false,
        },
            None => false,
        },
            None => false,
        }
    }

    fn sbor_type() -> u8 {
        TYPE_TUPLE
    }

    fn decode_value<'de>(decoder: &mut Decoder<'de>) -> Result<Self, DecodeError> {
        let len = match decoder.read_len() {
            Ok(n) => n,
            Err(e) => { return Err(e); }
        };
        if len != 10 {
            return Err(DecodeError::InvalidLength { expected: 10, actual: len });
        }
        let x0 = match A::decode(decoder) {
            Ok(v) => v,
            Err(e) => { return Err(e); }
        };
        let x1 = match B::decode(decoder) {
            Ok(v) => v,
            Err(e) => { return Err(e); }
        };
        let x2 = match C::decode(decoder) {
            Ok(v) => v,
            Err(e) => { return Err(e); }
        };
        let x3 = match D::decode(decoder) {
            Ok(v) => v,
            Err(e) => { return Err(e); }
        };
        let x4 = match E::decode(decoder) {
            Ok(v) => v,
            Err(e) => { return Err(e); }
        };
        let x5 = match F::decode(decoder) {
            Ok(v) => v,
            Err(e) => { return Err(e); }
        };
        let x6 = match G::decode(decoder) {
            Ok(v) => v,
            Err(e) => { return Err(e); }
        };
        let x7 = match H::decode(decoder) {
            Ok(v) => v,
            Err(e) => { return Err(e); }
        };
        let x8 = match I::decode(decoder) {
            Ok(v) => v,
            Err(e) => { return Err(e); }
        };
        let x9 = match J::decode(decoder) {
            Ok(v) => v,
            Err(e) => { return Err(e); }
        };
        Ok((x0, x1, x2, x3, x4, x5, x6, x7, x8, x9))
    }
}

} // verus!

verus! {

/// A chain of bare bytes ends after `n` positions exactly when they exist.
pub proof fn lemma_u8_chain_end(bytes: Seq<u8>, start: int, meta: bool, n: nat)
    requires
        0 <= start <= bytes.len(),
    ensures
        seq_decode_end::<u8>(bytes, start, meta, n) == (if start + n <= bytes.len() {
            Some((start + n) as int)
        } else {
            None::<int>
        }),
    decreases n,
{
    if n > 0 && start + 1 <= bytes.len() {
        lemma_u8_chain_end(bytes, start + 1, meta, (n - 1) as nat);
    }
}

/// A chain of bare bytes holds exactly the raw bytes it covers.
pub proof fn lemma_u8_chain_values(bytes: Seq<u8>, start: int, meta: bool, vs: Seq<u8>)
    requires
        0 <= start,
        start + vs.len() <= bytes.len(),
        seq_values_at::<u8>(bytes, start, meta, vs),
    ensures
        vs =~= bytes.subrange(start, start + vs.len() as int),
    decreases vs.len(),
{
    if vs.len() > 0 {
        lemma_u8_chain_values(bytes, start + 1, meta, vs.drop_first());
        assert forall|j: int| 0 <= j < vs.len() implies vs[j] == bytes[start + j] by {
            if j > 0 {
                assert(vs.drop_first()[j - 1] == bytes.subrange(
                    start + 1,
                    start + 1 + (vs.len() - 1),
                )[j - 1]);
            }
        }
    }
}

} // verus!
