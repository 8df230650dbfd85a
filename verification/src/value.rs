//! The values that cross the boundary between the host and a guest.
use vstd::prelude::*;

verus! {

/// The types of the values that a host function takes and returns.
#[derive(Debug, Clone, Copy, PartialEq, Eq, Structural)]
pub enum ValueType {
    /// A 32-bit integer.
    I32,
    /// A 64-bit integer.
    I64,
    /// A 32-bit floating-point number.
    F32,
    /// A 64-bit floating-point number.
    F64,
}

/// The types of the globals of a guest.
#[derive(Debug, Clone, Copy, PartialEq, Eq, Structural)]
pub enum GlobalType {
    /// A 32-bit integer.
    I32,
    /// A 64-bit integer.
    I64,
    /// A 32-bit floating-point number.
    F32,
    /// A 64-bit floating-point number.
    F64,
    /// Any other type.
    Other,
}

/// A value that a host function takes or returns. Floating-point numbers are held by their bits.
#[derive(Debug, Clone, Copy, PartialEq, Eq, Structural)]
pub enum Value {
    /// A 32-bit integer.
    I32(i32),
    /// A 64-bit integer.
    I64(i64),
    /// The bits of a 32-bit floating-point number.
    F32(u32),
    /// The bits of a 64-bit floating-point number.
    F64(u64),
}

/// A value that a guest function takes or returns. Floating-point numbers are held by their bits.
#[derive(Debug, Clone, Copy, PartialEq, Eq)]
pub enum RuntimeValue {
    /// A 32-bit integer.
    I32(i32),
    /// A 64-bit integer.
    I64(i64),
    /// The bits of a 32-bit floating-point number.
    F32(u32),
    /// The bits of a 64-bit floating-point number.
    F64(u64),
    /// The bytes of a vector.
    V128([u8; 16]),
}

/// The types of the arguments and of the result of a host function.
#[derive(Debug)]
pub struct FunctionSignature {
    /// The types of the arguments.
    pub args: Vec<ValueType>,
    /// The type of the result, where there is one.
    pub return_value: Option<ValueType>,
}

/// What the executor knows of a host function.
#[derive(Debug)]
pub struct HostFunction {
    /// The name under which the guest imports the function.
    pub name: String,
    /// The signature of the function.
    pub signature: FunctionSignature,
}

/// The mathematical counterpart of [`FunctionSignature`].
pub struct FunctionSignatureView {
    pub args: Seq<ValueType>,
    pub return_value: Option<ValueType>,
}

/// The mathematical counterpart of [`HostFunction`].
pub struct HostFunctionView {
    pub name: Seq<char>,
    pub signature: FunctionSignatureView,
}

impl View for FunctionSignature {
    type V = FunctionSignatureView;

    open spec fn view(&self) -> FunctionSignatureView {
        FunctionSignatureView { args: self.args@, return_value: self.return_value }
    }
}

impl View for HostFunction {
    type V = HostFunctionView;

    open spec fn view(&self) -> HostFunctionView {
        HostFunctionView { name: self.name@, signature: self.signature@ }
    }
}

impl DeepView for HostFunction {
    type V = HostFunctionView;

    open spec fn deep_view(&self) -> HostFunctionView {
        self@
    }
}

/// The 32-bit integer that has the same bits as `word` in two's complement.
pub open spec fn signed_word(word: u32) -> i32 {
    if word < 0x8000_0000 {
        word as i32
    } else {
        (word - 0x1_0000_0000) as i32
    }
}

/// The number whose binary digits are the bits of `value` in two's complement.
pub open spec fn unsigned_bits(value: i64) -> u64 {
    if value >= 0 {
        value as u64
    } else {
        (value + 0x1_0000_0000_0000_0000) as u64
    }
}

/// The argument by which a guest is handed an address or a length: an `i32` with the same bits.
pub fn word_argument(word: u32) -> (argument: RuntimeValue)
    ensures
        argument == RuntimeValue::I32(signed_word(word)),
{
    let signed: i32 = word as i32;
    assert(signed == signed_word(word)) by {
        assert(word < 0x8000_0000 ==> (word as i32) == word) by (bit_vector);
        assert(word >= 0x8000_0000 ==> (word as i32) == word - 0x1_0000_0000) by (bit_vector);
    }
    RuntimeValue::I32(signed)
}

/// A guest that takes an argument by its bits finds the address or the length that was meant: no
/// two of them are handed over by the same argument.
pub proof fn words_keep_their_bits(a: u32, b: u32)
    ensures
        signed_word(a) == signed_word(b) ==> a == b,
        (signed_word(a) as int) % 0x1_0000_0000 == a,
{
}

/// Unpacks a 64-bit value into a pointer and a length.
///
/// `sp_runtime_interface::unpack_ptr_and_len` takes the pointer from the 32 least significant bits
/// and the length from the 32 most significant ones.
pub assume_specification[ sp_runtime_interface::unpack_ptr_and_len ](val: u64) -> (unpacked: (
    u32,
    u32,
))
    ensures
        unpacked.0 == val % 0x1_0000_0000,
        unpacked.1 == val / 0x1_0000_0000,
;

/// The address that a guest returns in `value`: its 32 least significant bits.
pub open spec fn returned_address(value: i64) -> u32 {
    (unsigned_bits(value) % 0x1_0000_0000) as u32
}

/// The length that a guest returns in `value`: its 32 most significant bits.
pub open spec fn returned_length(value: i64) -> u32 {
    (unsigned_bits(value) / 0x1_0000_0000) as u32
}

/// The address and the length of the output that a guest returns in `value`.
pub fn returned_location(value: i64) -> (location: (u32, u32))
    ensures
        location == (returned_address(value), returned_length(value)),
        (value - (location.1 * 0x1_0000_0000 + location.0)) % 0x1_0000_0000_0000_0000 == 0,
{
    let bits: u64 = value as u64;
    assert(bits == unsigned_bits(value)) by {
        assert(value >= 0 ==> (value as u64) == value) by (bit_vector);
        assert(value < 0 ==> (value as u64) == value + 0x1_0000_0000_0000_0000) by (bit_vector);
    }
    sp_runtime_interface::unpack_ptr_and_len(bits)
}

/// A value with the bits of `length` before those of `address` is taken for that length at that
/// address.
pub proof fn returned_location_is_decoded(value: i64, address: u32, length: u32)
    requires
        value == length * 0x1_0000_0000 + address || value == length * 0x1_0000_0000 + address
            - 0x1_0000_0000_0000_0000,
    ensures
        returned_address(value) == address,
        returned_length(value) == length,
{
}

/// What a guest has to return for its output to be found: every address and every length can be
/// returned, and each pair by one value alone.
pub proof fn returned_location_is_a_bijection(address: u32, length: u32)
    ensures
        exists|value: i64|
            returned_address(value) == address && #[trigger] returned_length(value) == length,
        forall|a: i64, b: i64|
            returned_address(a) == returned_address(b) && #[trigger] returned_length(a)
                == #[trigger] returned_length(b) ==> a == b,
{
    let bits = length * 0x1_0000_0000 + address;
    let value = if bits < 0x8000_0000_0000_0000 {
        bits as i64
    } else {
        (bits - 0x1_0000_0000_0000_0000) as i64
    };
    assert(unsigned_bits(value) == bits);
    assert(returned_address(value) == address && returned_length(value) == length);
}

} // verus!
