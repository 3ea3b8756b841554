//! The device emulator: a NOR-flash device with fixed read/write/erase unit
//! sizes over an in-memory byte store, enforcing alignment, bounds and the
//! erase-before-write discipline of real NOR hardware.

use vstd::prelude::*;

use crate::model::{
    ERASED_BYTE, erase_range, is_power_of_two, overlay, range_erased, valid_erase, valid_geometry,
    valid_range,
};

verus! {

/// The ways an operation on the emulated device can fail.
#[derive(Debug, Clone, Copy, PartialEq, Eq, Structural)]
pub enum FlashMockError {
    /// Rejected at construction: a unit size is not a power of two, or the
    /// capacity does not fit the geometry.
    ConfigurationError,
    /// A read, write or erase with a misaligned offset or length, or a range
    /// that reaches past the device's capacity.
    AlignmentOrBounds,
    /// A write into a region holding at least one byte that is not in the
    /// erased state; `offset` is the start of the rejected write.
    WriteToNonErased { offset: u32 },
}

/// An emulated NOR-flash device.
///
/// The const generics fix the geometry for the lifetime of the type: the
/// minimum read, write and erase granularity in bytes, each a power of two.
/// The byte store behind the device is the view `self@`.
#[derive(Debug)]
pub struct FlashMock<const READ_SIZE: usize, const WRITE_SIZE: usize, const ERASE_SIZE: usize> {
    contents: Vec<u8>,
}

impl<const READ_SIZE: usize, const WRITE_SIZE: usize, const ERASE_SIZE: usize> View for FlashMock<
    READ_SIZE,
    WRITE_SIZE,
    ERASE_SIZE,
> {
    type V = Seq<u8>;

    closed spec fn view(&self) -> Seq<u8> {
        self.contents@
    }
}

/// Decides whether `n` is a positive power of two.
fn check_power_of_two(n: usize) -> (r: bool)
    ensures
        r == is_power_of_two(n as int),
{
    if n == 0 {
        return false;
    }
    let mut m: usize = n;
    while m > 1 && m % 2 == 0
        invariant
            m >= 1,
            is_power_of_two(n as int) == is_power_of_two(m as int),
        decreases m,
    {
        m = m / 2;
    }
    m == 1
}

/// Builds a byte vector of length `len` holding only the erased value.
pub(crate) fn erased_vec(len: usize) -> (r: Vec<u8>)
    ensures
        r@.len() == len,
        range_erased(r@, 0, len as int),
{
    let mut v: Vec<u8> = Vec::new();
    let mut i: usize = 0;
    while i < len
        invariant
            i <= len,
            v@.len() == i,
            range_erased(v@, 0, i as int),
        decreases len - i,
    {
        v.push(ERASED_BYTE);
        i = i + 1;
    }
    v
}

impl<const READ_SIZE: usize, const WRITE_SIZE: usize, const ERASE_SIZE: usize> FlashMock<
    READ_SIZE,
    WRITE_SIZE,
    ERASE_SIZE,
> {
    /// The invariant every constructed device satisfies: a valid geometry
    /// around a store of exactly the device's capacity.
    pub open spec fn wf(&self) -> bool {
        valid_geometry(READ_SIZE as int, WRITE_SIZE as int, ERASE_SIZE as int, self@.len() as int)
    }

    /// Creates a fresh device whose whole capacity is in the erased state.
    ///
    /// Fails with `ConfigurationError` exactly when a unit size is not a
    /// power of two, the capacity is not a multiple of the erase unit, or a
    /// byte of the capacity would not be addressable through 32-bit offsets.
    pub fn new(total_capacity: usize) -> (r: Result<Self, FlashMockError>)
        ensures
            match r {
                Ok(m) => {
                    &&& valid_geometry(
                        READ_SIZE as int,
                        WRITE_SIZE as int,
                        ERASE_SIZE as int,
                        total_capacity as int,
                    )
                    &&& m.wf()
                    &&& m@.len() == total_capacity
                    &&& range_erased(m@, 0, total_capacity as int)
                },
                Err(e) => {
                    &&& e == FlashMockError::ConfigurationError
                    &&& !valid_geometry(
                        READ_SIZE as int,
                        WRITE_SIZE as int,
                        ERASE_SIZE as int,
                        total_capacity as int,
                    )
                },
            },
    {
        if !check_power_of_two(READ_SIZE) {
            return Err(FlashMockError::ConfigurationError);
        }
        if !check_power_of_two(WRITE_SIZE) {
            return Err(FlashMockError::ConfigurationError);
        }
        if !check_power_of_two(ERASE_SIZE) {
            return Err(FlashMockError::ConfigurationError);
        }
        if total_capacity % ERASE_SIZE != 0 {
            return Err(FlashMockError::ConfigurationError);
        }
        if total_capacity > u32::MAX as usize {
            return Err(FlashMockError::ConfigurationError);
        }
        Ok(FlashMock { contents: erased_vec(total_capacity) })
    }

    /// Recovers a device from previously persisted contents, trusted as-is.
    ///
    /// Fails with `ConfigurationError` under the same geometry rules as
    /// `new`, with the length of `contents` as the capacity.
    pub fn from_contents(contents: Vec<u8>) -> (r: Result<Self, FlashMockError>)
        ensures
            match r {
                Ok(m) => {
                    &&& valid_geometry(
                        READ_SIZE as int,
                        WRITE_SIZE as int,
                        ERASE_SIZE as int,
                        contents@.len() as int,
                    )
                    &&& m.wf()
                    &&& m@ == contents@
                },
                Err(e) => {
                    &&& e == FlashMockError::ConfigurationError
                    &&& !valid_geometry(
                        READ_SIZE as int,
                        WRITE_SIZE as int,
                        ERASE_SIZE as int,
                        contents@.len() as int,
                    )
                },
            },
    {
        if !check_power_of_two(READ_SIZE) {
            return Err(FlashMockError::ConfigurationError);
        }
        if !check_power_of_two(WRITE_SIZE) {
            return Err(FlashMockError::ConfigurationError);
        }
        if !check_power_of_two(ERASE_SIZE) {
            return Err(FlashMockError::ConfigurationError);
        }
        if contents.len() % ERASE_SIZE != 0 {
            return Err(FlashMockError::ConfigurationError);
        }
        if contents.len() > u32::MAX as usize {
            return Err(FlashMockError::ConfigurationError);
        }
        Ok(FlashMock { contents })
    }

    /// Total addressable bytes of the device.
    pub fn capacity(&self) -> (r: usize)
        ensures
            r == self@.len(),
    {
        self.contents.len()
    }

    /// The current device contents, for the storage layer to persist.
    pub fn as_bytes(&self) -> (r: &Vec<u8>)
        ensures
            r@ == self@,
    {
        &self.contents
    }

    /// Decides whether `[offset, offset + len)` is aligned to `unit` at both
    /// ends and within the device, without overflowing `usize` arithmetic.
    fn check_range(&self, offset: u32, len: usize, unit: usize) -> (r: bool)
        requires
            is_power_of_two(unit as int),
        ensures
            r == valid_range(offset as int, len as int, unit as int, self@.len() as int),
    {
        let cap = self.contents.len();
        offset as usize % unit == 0 && len % unit == 0 && len <= cap && offset as usize <= cap
            - len
    }

    /// Checks that every byte of `[offset, offset + length)` is erased.
    fn is_area_erased(&self, offset: usize, length: usize) -> (r: bool)
        requires
            offset + length <= self@.len(),
        ensures
            r == range_erased(self@, offset as int, length as int),
    {
        let cap = self.contents.len();
        let mut i: usize = 0;
        while i < length
            invariant
                i <= length,
                offset + length <= cap,
                cap == self@.len(),
                forall|j: int| offset <= j < offset + i ==> self@[j] == ERASED_BYTE,
            decreases length - i,
        {
            if self.contents[offset + i] != ERASED_BYTE {
                return false;
            }
            i = i + 1;
        }
        true
    }

    /// Reads the exact current contents of `[offset, offset + bytes.len())`
    /// into `bytes`. Pure observation: the device is never changed.
    ///
    /// Fails with `AlignmentOrBounds` exactly when `offset` or `bytes.len()`
    /// is not a multiple of `READ_SIZE` or the range reaches past the
    /// capacity; the buffer is then left unchanged.
    pub fn read(&mut self, offset: u32, bytes: &mut Vec<u8>) -> (r: Result<(), FlashMockError>)
        requires
            old(self).wf(),
        ensures
            *final(self) == *old(self),
            match r {
                Ok(()) => {
                    &&& valid_range(
                        offset as int,
                        old(bytes)@.len() as int,
                        READ_SIZE as int,
                        old(self)@.len() as int,
                    )
                    &&& final(bytes)@ == old(self)@.subrange(
                        offset as int,
                        offset + old(bytes)@.len(),
                    )
                },
                Err(e) => {
                    &&& e == FlashMockError::AlignmentOrBounds
                    &&& !valid_range(
                        offset as int,
                        old(bytes)@.len() as int,
                        READ_SIZE as int,
                        old(self)@.len() as int,
                    )
                    &&& *final(bytes) == *old(bytes)
                },
            },
    {
        let len = bytes.len();
        if !self.check_range(offset, len, READ_SIZE) {
            return Err(FlashMockError::AlignmentOrBounds);
        }
        let start = offset as usize;
        let cap = self.contents.len();
        let mut i: usize = 0;
        while i < len
            invariant
                i <= len,
                bytes@.len() == len,
                start + len <= cap,
                cap == self@.len(),
                forall|j: int| 0 <= j < i ==> bytes@[j] == self@[start + j],
            decreases len - i,
        {
            let v = self.contents[start + i];
            bytes.set(i, v);
            i = i + 1;
        }
        assert(bytes@ =~= self@.subrange(start as int, start + len));
        Ok(())
    }

    /// Erases `[from, to)`: afterwards every byte of the range holds the
    /// erased value, and no other byte has changed. A zero-length range is a
    /// no-op success.
    ///
    /// Fails with `AlignmentOrBounds` exactly when `from > to`, a bound is
    /// not a multiple of `ERASE_SIZE`, or `to` reaches past the capacity;
    /// the device is then left unchanged.
    pub fn erase(&mut self, from: u32, to: u32) -> (r: Result<(), FlashMockError>)
        requires
            old(self).wf(),
        ensures
            final(self).wf(),
            match r {
                Ok(()) => {
                    &&& valid_erase(from as int, to as int, ERASE_SIZE as int, old(self)@.len() as int)
                    &&& final(self)@ == erase_range(old(self)@, from as int, to as int)
                },
                Err(e) => {
                    &&& e == FlashMockError::AlignmentOrBounds
                    &&& !valid_erase(
                        from as int,
                        to as int,
                        ERASE_SIZE as int,
                        old(self)@.len() as int,
                    )
                    &&& *final(self) == *old(self)
                },
            },
    {
        let cap = self.contents.len();
        if !(from <= to && from as usize % ERASE_SIZE == 0 && to as usize % ERASE_SIZE == 0
            && to as usize <= cap) {
            return Err(FlashMockError::AlignmentOrBounds);
        }
        let mut i: usize = from as usize;
        while i < to as usize
            invariant
                from as usize <= i <= to as usize,
                to as usize <= self@.len(),
                self@.len() == old(self)@.len(),
                forall|j: int| from <= j < i ==> self@[j] == ERASED_BYTE,
                forall|j: int| 0 <= j < self@.len() && !(from <= j < i) ==> self@[j] == old(
                    self,
                )@[j],
            decreases to as usize - i,
        {
            self.contents.set(i, ERASED_BYTE);
            i = i + 1;
        }
        assert(self@ =~= erase_range(old(self)@, from as int, to as int));
        Ok(())
    }

    /// Writes `bytes` verbatim at `offset`. The target range must be wholly
    /// in the erased state; the check runs before any mutation, so a failed
    /// write leaves the device byte-for-byte unchanged.
    ///
    /// Fails with `AlignmentOrBounds` exactly when `offset` or `bytes.len()`
    /// is not a multiple of `WRITE_SIZE` or the range reaches past the
    /// capacity — this check comes first — and otherwise with
    /// `WriteToNonErased` exactly when a byte of the target range is not
    /// erased.
    pub fn write(&mut self, offset: u32, bytes: &Vec<u8>) -> (r: Result<(), FlashMockError>)
        requires
            old(self).wf(),
        ensures
            final(self).wf(),
            match r {
                Ok(()) => {
                    &&& valid_range(
                        offset as int,
                        bytes@.len() as int,
                        WRITE_SIZE as int,
                        old(self)@.len() as int,
                    )
                    &&& range_erased(old(self)@, offset as int, bytes@.len() as int)
                    &&& final(self)@ == overlay(old(self)@, offset as int, bytes@)
                },
                Err(e) => {
                    &&& *final(self) == *old(self)
                    &&& if !valid_range(
                        offset as int,
                        bytes@.len() as int,
                        WRITE_SIZE as int,
                        old(self)@.len() as int,
                    ) {
                        e == FlashMockError::AlignmentOrBounds
                    } else {
                        &&& !range_erased(old(self)@, offset as int, bytes@.len() as int)
                        &&& e == (FlashMockError::WriteToNonErased { offset })
                    }
                },
            },
    {
        let len = bytes.len();
        if !self.check_range(offset, len, WRITE_SIZE) {
            return Err(FlashMockError::AlignmentOrBounds);
        }
        let start = offset as usize;
        if !self.is_area_erased(start, len) {
            return Err(FlashMockError::WriteToNonErased { offset });
        }
        let cap = self.contents.len();
        let mut i: usize = 0;
        while i < len
            invariant
                i <= len,
                bytes@.len() == len,
                start + len <= cap,
                cap == self@.len(),
                self@.len() == old(self)@.len(),
                forall|j: int| 0 <= j < i ==> self@[start + j] == bytes@[j],
                forall|j: int| 0 <= j < self@.len() && !(start <= j < start + i) ==> self@[j]
                    == old(self)@[j],
            decreases len - i,
        {
            self.contents.set(start + i, bytes[i]);
            i = i + 1;
        }
        assert(self@ =~= overlay(old(self)@, offset as int, bytes@));
        Ok(())
    }
}

} // verus!
