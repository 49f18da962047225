//! Address windows and the policies that select them.

use vstd::prelude::*;
use crate::error::DumpError;

verus! {

/// Highest address of the instrument's memory.
pub const MAX_ADDRESS: u16 = 0x7FFF;

/// First address of the calibration memory on early hardware revisions.
pub const PRESET_A_START: u16 = 0x0040;

/// Last address of the calibration memory on early hardware revisions.
pub const PRESET_A_END: u16 = 0x01FF;

/// First address of the calibration memory on later hardware revisions.
pub const PRESET_B_START: u16 = 0x5000;

/// Last address of the calibration memory on later hardware revisions.
pub const PRESET_B_END: u16 = 0x57FF;

/// An inclusive window of memory addresses. Memory is read one 16-bit word at
/// a time, so the addresses visited are `start`, `start + 2`, and so on.
#[derive(Clone, Copy, Debug, PartialEq, Eq)]
pub struct AddressRange {
    pub start: u16,
    pub end: u16,
}

/// How the window to dump is chosen.
#[derive(Clone, Copy, Debug, PartialEq, Eq)]
pub enum RangePolicy {
    /// The window of early hardware revisions.
    PresetA,
    /// The window of later hardware revisions.
    PresetB,
    /// A window given by the user.
    UserDefined { start: u16, end: u16 },
}

impl AddressRange {
    /// The window is not empty and lies inside the address space.
    pub open spec fn wf(&self) -> bool {
        self.start <= self.end && self.end <= MAX_ADDRESS
    }

    /// Number of addresses visited.
    pub open spec fn spec_len(&self) -> nat {
        ((self.end - self.start) / 2 + 1) as nat
    }

    /// The `i`-th address visited.
    pub open spec fn spec_address_at(&self, i: int) -> int {
        self.start + 2 * i
    }

    /// The addresses visited, in the order of the visit.
    pub open spec fn spec_addresses(&self) -> Seq<u16> {
        Seq::new(self.spec_len(), |i: int| self.spec_address_at(i) as u16)
    }

    /// Builds the window from `start` to `end`, both included.
    pub fn new(start: u16, end: u16) -> (r: Result<AddressRange, DumpError>)
        ensures
            start <= end && end <= MAX_ADDRESS ==> r == Ok::<AddressRange, DumpError>(
                (AddressRange { start, end }),
            ),
            !(start <= end && end <= MAX_ADDRESS) ==> r == Err::<AddressRange, DumpError>(
                (DumpError::InvalidRange { start, end }),
            ),
    {
        if start <= end && end <= MAX_ADDRESS {
            Ok(AddressRange { start, end })
        } else {
            Err(DumpError::InvalidRange { start, end })
        }
    }

    /// Number of addresses visited.
    pub fn len(&self) -> (n: usize)
        requires
            self.wf(),
        ensures
            n == self.spec_len(),
            1 <= n <= 0x4000,
    {
        let span: u16 = self.end - self.start;
        let steps: u16 = span / 2;
        steps as usize + 1
    }

    /// The `i`-th address visited, counted from zero.
    pub fn address_at(&self, i: usize) -> (a: u16)
        requires
            self.wf(),
            i < self.spec_len(),
        ensures
            a == self.spec_address_at(i as int),
            a == self.spec_addresses()[i as int],
            self.start <= a <= self.end,
    {
        let offset: u16 = (2 * i) as u16;
        self.start + offset
    }

    /// The addresses visited, in the order of the visit.
    pub fn addresses(&self) -> (v: Vec<u16>)
        requires
            self.wf(),
        ensures
            v@ == self.spec_addresses(),
    {
        let n: usize = self.len();
        let mut v: Vec<u16> = Vec::new();
        let mut i: usize = 0;
        while i < n
            invariant
                self.wf(),
                n == self.spec_len(),
                i <= n,
                v@.len() == i,
                forall|k: int| 0 <= k < i ==> v@[k] == self.spec_address_at(k) as u16,
            decreases n - i,
        {
            let a: u16 = self.address_at(i);
            v.push(a);
            i = i + 1;
        }
        assert(v@ =~= self.spec_addresses());
        v
    }
}

impl RangePolicy {
    /// The window that the policy stands for, where it has one.
    pub open spec fn spec_resolve(&self) -> Result<AddressRange, DumpError> {
        match *self {
            RangePolicy::PresetA => Ok(AddressRange { start: PRESET_A_START, end: PRESET_A_END }),
            RangePolicy::PresetB => Ok(AddressRange { start: PRESET_B_START, end: PRESET_B_END }),
            RangePolicy::UserDefined { start, end } => if start <= end && end <= MAX_ADDRESS {
                Ok(AddressRange { start, end })
            } else {
                Err(DumpError::InvalidRange { start, end })
            },
        }
    }

    /// Resolves the policy into a window. A preset always resolves; a user's
    /// window is refused when it is empty or ends beyond the address space.
    pub fn resolve(&self) -> (r: Result<AddressRange, DumpError>)
        ensures
            r == self.spec_resolve(),
            r matches Ok(range) ==> range.wf(),
    {
        match *self {
            RangePolicy::PresetA => Ok(AddressRange { start: PRESET_A_START, end: PRESET_A_END }),
            RangePolicy::PresetB => Ok(AddressRange { start: PRESET_B_START, end: PRESET_B_END }),
            RangePolicy::UserDefined { start, end } => AddressRange::new(start, end),
        }
    }
}

/// The addresses of a window start at its first address, rise by two, never
/// pass its last address, and stop only where one more step would pass it.
pub proof fn lemma_addresses_step_by_two(range: AddressRange)
    requires
        range.wf(),
    ensures
        range.spec_addresses().len() == (range.end - range.start) / 2 + 1,
        range.spec_addresses()[0] == range.start,
        forall|i: int|
            0 <= i < range.spec_addresses().len() ==> #[trigger] range.spec_addresses()[i]
                == range.start + 2 * i,
        forall|i: int|
            0 <= i < range.spec_addresses().len() ==> #[trigger] range.spec_addresses()[i]
                <= range.end,
        range.spec_addresses().last() + 2 > range.end,
{
}

/// A user's window from `start` to `end` resolves exactly when it is not
/// empty and ends inside the address space, and its addresses are then
/// `start`, `start + 2` and so on, as many as fit; otherwise both bounds come
/// back in the error.
pub proof fn lemma_user_window(start: u16, end: u16)
    ensures
        start <= end && end <= MAX_ADDRESS ==> {
            &&& (RangePolicy::UserDefined { start, end }).spec_resolve() == Ok::<
                AddressRange,
                DumpError,
            >((AddressRange { start, end }))
            &&& (AddressRange { start, end }).spec_addresses() =~= Seq::new(
                ((end - start) / 2 + 1) as nat,
                |i: int| (start + 2 * i) as u16,
            )
        },
        start > end || end > MAX_ADDRESS ==> (RangePolicy::UserDefined { start, end }).spec_resolve()
            == Err::<AddressRange, DumpError>((DumpError::InvalidRange { start, end })),
{
}

/// The preset windows are those of the two hardware revisions: the early one spans 448
/// addresses and is read as 224 words, the later one spans 2048 addresses and
/// is read as 1024 words.
pub proof fn lemma_preset_windows()
    ensures
        RangePolicy::PresetA.spec_resolve() == Ok::<AddressRange, DumpError>(
            (AddressRange { start: 0x0040, end: 0x01FF }),
        ),
        RangePolicy::PresetB.spec_resolve() == Ok::<AddressRange, DumpError>(
            (AddressRange { start: 0x5000, end: 0x57FF }),
        ),
        0x01FF - 0x0040 + 1 == 448,
        (AddressRange { start: 0x0040, end: 0x01FF }).spec_len() == 224,
        0x57FF - 0x5000 + 1 == 2048,
        (AddressRange { start: 0x5000, end: 0x57FF }).spec_len() == 1024,
{
}

} // verus!
