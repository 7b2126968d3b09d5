//! The wire-level ABI contract shared by every generated target: packing a
//! pointer/length pair into a single fat pointer, and the asynchronous-result
//! record with its pending/ready/consumed protocol.

use vstd::prelude::*;

verus! {

/// The packed form: the 32-bit memory offset in the high bits, the 32-bit
/// byte length in the low bits.
pub open spec fn spec_to_fat_ptr(ptr: u32, len: u32) -> u64 {
    ((ptr as u64) << 32u64) | (len as u64)
}

pub open spec fn spec_fat_ptr_ptr(fat: u64) -> u32 {
    (fat >> 32u64) as u32
}

pub open spec fn spec_fat_ptr_len(fat: u64) -> u32 {
    (fat & 0xffff_ffffu64) as u32
}

/// Packs a 32-bit offset and a 32-bit length into one 64-bit fat pointer.
pub fn to_fat_ptr(ptr: u32, len: u32) -> (fat: u64)
    ensures
        fat == spec_to_fat_ptr(ptr, len),
{
    ((ptr as u64) << 32u64) | (len as u64)
}

/// Unpacks a fat pointer into its offset and length.
pub fn from_fat_ptr(fat: u64) -> (r: (u32, u32))
    ensures
        r.0 == spec_fat_ptr_ptr(fat),
        r.1 == spec_fat_ptr_len(fat),
{
    ((fat >> 32u64) as u32, (fat & 0xffff_ffffu64) as u32)
}

/// Law: packing then unpacking returns the original pair, for every 32-bit
/// offset and length.
pub proof fn lemma_fat_ptr_round_trip(ptr: u32, len: u32)
    ensures
        spec_fat_ptr_ptr(spec_to_fat_ptr(ptr, len)) == ptr,
        spec_fat_ptr_len(spec_to_fat_ptr(ptr, len)) == len,
{
    assert(((((ptr as u64) << 32u64) | (len as u64)) >> 32u64) as u32 == ptr) by (bit_vector);
    assert(((((ptr as u64) << 32u64) | (len as u64)) & 0xffff_ffffu64) as u32 == len)
        by (bit_vector);
}

/// Status value of an asynchronous result whose callee has not finished.
pub const STATUS_PENDING: u32 = 0;

/// Status value of an asynchronous result whose fields have been written.
pub const STATUS_READY: u32 = 1;

/// The asynchronous-result record: three consecutive 32-bit fields. The
/// caller allocates it zeroed; the callee writes the result location and
/// length and then flips `status` to ready, exactly once; the caller reads
/// the fields once, only after that transition.
pub struct AsyncValue {
    pub status: u32,
    pub result_ptr: u32,
    pub result_len: u32,
    /// Whether the caller has already taken the result (and with it the
    /// responsibility for the referenced buffer).
    pub consumed: bool,
}

/// The ways the asynchronous protocol refuses a misuse of a handle.
#[derive(Clone, Copy, PartialEq, Eq, Structural, Debug)]
pub enum AsyncValueError {
    /// The result fields were read while the status was still pending.
    NotReady,
    /// A second resolution was attempted on the same handle.
    AlreadyResolved,
    /// The result was taken a second time from the same handle.
    AlreadyConsumed,
}

impl AsyncValue {
    pub open spec fn is_pending(&self) -> bool {
        self.status == STATUS_PENDING
    }

    pub open spec fn is_ready(&self) -> bool {
        self.status == STATUS_READY && !self.consumed
    }

    /// A freshly created handle: all three fields zeroed, nothing consumed.
    pub fn new() -> (r: AsyncValue)
        ensures
            r.is_pending(),
            r.result_ptr == 0,
            r.result_len == 0,
            !r.consumed,
    {
        AsyncValue { status: STATUS_PENDING, result_ptr: 0, result_len: 0, consumed: false }
    }

    /// One resolution of a pending handle writes the result fields and flips
    /// the status to ready; any later resolution attempt is rejected and
    /// leaves the handle unchanged.
    pub fn resolve(&mut self, result_ptr: u32, result_len: u32) -> (r: Result<
        (),
        AsyncValueError,
    >)
        ensures
            (*final(self), r) == spec_resolve(*old(self), result_ptr, result_len),
    {
        if self.status == STATUS_PENDING {
            self.result_ptr = result_ptr;
            self.result_len = result_len;
            self.status = STATUS_READY;
            Ok(())
        } else {
            Err(AsyncValueError::AlreadyResolved)
        }
    }

    /// Reading the result is rejected while the handle is pending; a ready
    /// handle yields its fields exactly once; a second read is rejected.
    pub fn take_result(&mut self) -> (r: Result<(u32, u32), AsyncValueError>)
        ensures
            (*final(self), r) == spec_take_result(*old(self)),
    {
        if self.status == STATUS_PENDING {
            Err(AsyncValueError::NotReady)
        } else if !self.consumed {
            self.consumed = true;
            Ok((self.result_ptr, self.result_len))
        } else {
            Err(AsyncValueError::AlreadyConsumed)
        }
    }
}

/// What `resolve` does: a pending handle accepts the written fields and
/// becomes ready; any other handle rejects the attempt unchanged.
pub open spec fn spec_resolve(v: AsyncValue, result_ptr: u32, result_len: u32) -> (
    AsyncValue,
    Result<(), AsyncValueError>,
) {
    if v.is_pending() {
        (
            AsyncValue { status: STATUS_READY, result_ptr, result_len, consumed: v.consumed },
            Ok(()),
        )
    } else {
        (v, Err(AsyncValueError::AlreadyResolved))
    }
}

/// What `take_result` does: pending rejects the read; ready hands the
/// fields out once and marks them consumed; consumed rejects a second read.
pub open spec fn spec_take_result(v: AsyncValue) -> (
    AsyncValue,
    Result<(u32, u32), AsyncValueError>,
) {
    if v.is_pending() {
        (v, Err(AsyncValueError::NotReady))
    } else if !v.consumed {
        (AsyncValue { consumed: true, ..v }, Ok((v.result_ptr, v.result_len)))
    } else {
        (v, Err(AsyncValueError::AlreadyConsumed))
    }
}

/// Law of the asynchronous protocol, for every pending handle and every
/// result pair: reading while pending is rejected and changes nothing;
/// after exactly one resolution the status is ready and the fields read
/// back exactly once; a second resolution attempt and a second read are
/// both rejected.
pub proof fn lemma_async_protocol(v: AsyncValue, result_ptr: u32, result_len: u32)
    requires
        v.is_pending(),
        !v.consumed,
    ensures
        spec_take_result(v) == (v, Result::<(u32, u32), AsyncValueError>::Err(
            AsyncValueError::NotReady,
        )),
        ({
            let (ready, accepted) = spec_resolve(v, result_ptr, result_len);
            &&& accepted is Ok
            &&& ready.status == STATUS_READY
            &&& ready.is_ready()
            &&& spec_resolve(ready, result_ptr, result_len).1 == Result::<
                (),
                AsyncValueError,
            >::Err(AsyncValueError::AlreadyResolved)
            &&& spec_take_result(ready).1 == Result::<(u32, u32), AsyncValueError>::Ok(
                (result_ptr, result_len),
            )
            &&& spec_take_result(spec_take_result(ready).0).1 == Result::<
                (u32, u32),
                AsyncValueError,
            >::Err(AsyncValueError::AlreadyConsumed)
        }),
{
}

} // verus!
