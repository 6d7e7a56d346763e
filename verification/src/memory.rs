//! Tagged values and the event-logging memory store.
//!
//! A `MemoryValue` carries its bit width (or field kind) as a runtime tag;
//! arithmetic is defined only between values of identical tags, and overflow
//! is an explicit error, never a silent wrap.  A `MemoryChip` maps 32-bit
//! addresses to values and logs every access as a `MemoryEvent` carrying the
//! channel, clock cycle and operation kind the proof system's lookup
//! argument needs.

use vstd::prelude::*;

use std::collections::HashMap;

use crate::WitgenError;
use crate::ranges;

verus! {

broadcast use vstd::std_specs::hash::group_hash_axioms;

/// Order of the proof system's native field (the Goldilocks prime),
/// the modulus for `FF` arithmetic.
pub const FIELD_ORDER: u64 = 18446744069414584321;

/// The kind of one memory access.
#[derive(Clone, Copy, Debug, PartialEq, Eq, Structural)]
pub enum MemoryOp {
    Read,
    Write,
}

/// Width/kind discriminant of a `MemoryValue`.
#[derive(Clone, Copy, Debug, PartialEq, Eq, Structural)]
pub enum MemoryTag {
    U0,
    U1,
    U8,
    U16,
    U32,
    U64,
    U128,
    FF,
}

/// A value with an exact bit width: `U0` is the zero-width uninitialized
/// marker, `U1` through `U128` are unsigned integers of the named width, and
/// `FF` is a native field element held as an unsigned surrogate below
/// `FIELD_ORDER`.
#[derive(Clone, Copy, Debug, PartialEq, Eq, Structural)]
pub enum MemoryValue {
    U0(u8),
    U1(u8),
    U8(u8),
    U16(u16),
    U32(u32),
    U64(u64),
    U128(u128),
    FF(u64),
}

impl MemoryValue {
    /// The tag, as a spec-level function of the value.
    pub open spec fn tag_spec(&self) -> MemoryTag {
        match self {
            MemoryValue::U0(_) => MemoryTag::U0,
            MemoryValue::U1(_) => MemoryTag::U1,
            MemoryValue::U8(_) => MemoryTag::U8,
            MemoryValue::U16(_) => MemoryTag::U16,
            MemoryValue::U32(_) => MemoryTag::U32,
            MemoryValue::U64(_) => MemoryTag::U64,
            MemoryValue::U128(_) => MemoryTag::U128,
            MemoryValue::FF(_) => MemoryTag::FF,
        }
    }

    /// The numeric content of the value.
    pub open spec fn as_nat(&self) -> nat {
        match self {
            MemoryValue::U0(x) => *x as nat,
            MemoryValue::U1(x) => *x as nat,
            MemoryValue::U8(x) => *x as nat,
            MemoryValue::U16(x) => *x as nat,
            MemoryValue::U32(x) => *x as nat,
            MemoryValue::U64(x) => *x as nat,
            MemoryValue::U128(x) => *x as nat,
            MemoryValue::FF(x) => *x as nat,
        }
    }

    /// Largest numeric content a value of tag `t` may hold.
    pub open spec fn tag_max(t: MemoryTag) -> nat {
        match t {
            MemoryTag::U0 => 0,
            MemoryTag::U1 => 1,
            MemoryTag::U8 => u8::MAX as nat,
            MemoryTag::U16 => u16::MAX as nat,
            MemoryTag::U32 => u32::MAX as nat,
            MemoryTag::U64 => u64::MAX as nat,
            MemoryTag::U128 => u128::MAX as nat,
            MemoryTag::FF => (FIELD_ORDER - 1) as nat,
        }
    }

    /// A value's content fits the width its tag declares.  This is the
    /// invariant the range-checking component enforces on every store.
    pub open spec fn wf(&self) -> bool {
        self.as_nat() <= Self::tag_max(self.tag_spec())
    }

    /// The value of tag `t` whose content is `n` (for `n` within `t`'s width).
    pub open spec fn from_tag(t: MemoryTag, n: nat) -> MemoryValue {
        match t {
            MemoryTag::U0 => MemoryValue::U0(n as u8),
            MemoryTag::U1 => MemoryValue::U1(n as u8),
            MemoryTag::U8 => MemoryValue::U8(n as u8),
            MemoryTag::U16 => MemoryValue::U16(n as u16),
            MemoryTag::U32 => MemoryValue::U32(n as u32),
            MemoryTag::U64 => MemoryValue::U64(n as u64),
            MemoryTag::U128 => MemoryValue::U128(n as u128),
            MemoryTag::FF => MemoryValue::FF(n as u64),
        }
    }

    /// Width-checked addition: tags must match, the sum must fit the width,
    /// and field elements reduce modulo `FIELD_ORDER` instead of overflowing.
    pub open spec fn spec_add(self, other: MemoryValue) -> Result<MemoryValue, WitgenError> {
        if self.tag_spec() != other.tag_spec() {
            Err(WitgenError::TagMismatch)
        } else if self.tag_spec() == MemoryTag::FF {
            Ok(Self::from_tag(MemoryTag::FF, (self.as_nat() + other.as_nat()) % (FIELD_ORDER as nat)))
        } else if self.as_nat() + other.as_nat() <= Self::tag_max(self.tag_spec()) {
            Ok(Self::from_tag(self.tag_spec(), self.as_nat() + other.as_nat()))
        } else {
            Err(WitgenError::Overflow)
        }
    }

    /// Width-checked subtraction: tags must match, a negative result does not
    /// fit any width, and field elements subtract modulo `FIELD_ORDER`.
    pub open spec fn spec_sub(self, other: MemoryValue) -> Result<MemoryValue, WitgenError> {
        if self.tag_spec() != other.tag_spec() {
            Err(WitgenError::TagMismatch)
        } else if self.tag_spec() == MemoryTag::FF {
            Ok(Self::from_tag(
                MemoryTag::FF,
                ((self.as_nat() + FIELD_ORDER as int - other.as_nat()) % (FIELD_ORDER as int)) as nat,
            ))
        } else if self.as_nat() >= other.as_nat() {
            Ok(Self::from_tag(self.tag_spec(), (self.as_nat() - other.as_nat()) as nat))
        } else {
            Err(WitgenError::Overflow)
        }
    }

    /// Unsigned less-than on values of matching tags.
    pub open spec fn spec_lt(self, other: MemoryValue) -> Result<bool, WitgenError> {
        if self.tag_spec() != other.tag_spec() {
            Err(WitgenError::TagMismatch)
        } else {
            Ok(self.as_nat() < other.as_nat())
        }
    }

    /// The width/kind discriminant, without exposing the raw bits.
    pub fn tag(&self) -> (t: MemoryTag)
        ensures
            t == self.tag_spec(),
    {
        match self {
            MemoryValue::U0(_) => MemoryTag::U0,
            MemoryValue::U1(_) => MemoryTag::U1,
            MemoryValue::U8(_) => MemoryTag::U8,
            MemoryValue::U16(_) => MemoryTag::U16,
            MemoryValue::U32(_) => MemoryTag::U32,
            MemoryValue::U64(_) => MemoryTag::U64,
            MemoryValue::U128(_) => MemoryTag::U128,
            MemoryValue::FF(_) => MemoryTag::FF,
        }
    }

    /// Width-preserving addition per `spec_add`.  Never panics: a tag
    /// mismatch or an overflow comes back as an error value.
    pub fn add(self, other: MemoryValue) -> (r: Result<MemoryValue, WitgenError>)
        requires
            self.wf(),
            other.wf(),
        ensures
            r == self.spec_add(other),
    {
        match (self, other) {
            (MemoryValue::U0(a), MemoryValue::U0(b)) => {
                if a == 0 && b == 0 {
                    Ok(MemoryValue::U0(0))
                } else {
                    Err(WitgenError::Overflow)
                }
            }
            (MemoryValue::U1(a), MemoryValue::U1(b)) => {
                if a + b <= 1 {
                    Ok(MemoryValue::U1(a + b))
                } else {
                    Err(WitgenError::Overflow)
                }
            }
            (MemoryValue::U8(a), MemoryValue::U8(b)) => {
                if a <= u8::MAX - b {
                    Ok(MemoryValue::U8(a + b))
                } else {
                    Err(WitgenError::Overflow)
                }
            }
            (MemoryValue::U16(a), MemoryValue::U16(b)) => {
                if a <= u16::MAX - b {
                    Ok(MemoryValue::U16(a + b))
                } else {
                    Err(WitgenError::Overflow)
                }
            }
            (MemoryValue::U32(a), MemoryValue::U32(b)) => {
                if a <= u32::MAX - b {
                    Ok(MemoryValue::U32(a + b))
                } else {
                    Err(WitgenError::Overflow)
                }
            }
            (MemoryValue::U64(a), MemoryValue::U64(b)) => {
                if a <= u64::MAX - b {
                    Ok(MemoryValue::U64(a + b))
                } else {
                    Err(WitgenError::Overflow)
                }
            }
            (MemoryValue::U128(a), MemoryValue::U128(b)) => {
                if a <= u128::MAX - b {
                    Ok(MemoryValue::U128(a + b))
                } else {
                    Err(WitgenError::Overflow)
                }
            }
            (MemoryValue::FF(a), MemoryValue::FF(b)) => {
                let sum: u128 = a as u128 + b as u128;
                Ok(MemoryValue::FF((sum % (FIELD_ORDER as u128)) as u64))
            }
            _ => Err(WitgenError::TagMismatch),
        }
    }

    /// Width-preserving subtraction per `spec_sub`.
    pub fn sub(self, other: MemoryValue) -> (r: Result<MemoryValue, WitgenError>)
        requires
            self.wf(),
            other.wf(),
        ensures
            r == self.spec_sub(other),
    {
        match (self, other) {
            (MemoryValue::U0(a), MemoryValue::U0(b)) => {
                if a >= b {
                    Ok(MemoryValue::U0(a - b))
                } else {
                    Err(WitgenError::Overflow)
                }
            }
            (MemoryValue::U1(a), MemoryValue::U1(b)) => {
                if a >= b {
                    Ok(MemoryValue::U1(a - b))
                } else {
                    Err(WitgenError::Overflow)
                }
            }
            (MemoryValue::U8(a), MemoryValue::U8(b)) => {
                if a >= b {
                    Ok(MemoryValue::U8(a - b))
                } else {
                    Err(WitgenError::Overflow)
                }
            }
            (MemoryValue::U16(a), MemoryValue::U16(b)) => {
                if a >= b {
                    Ok(MemoryValue::U16(a - b))
                } else {
                    Err(WitgenError::Overflow)
                }
            }
            (MemoryValue::U32(a), MemoryValue::U32(b)) => {
                if a >= b {
                    Ok(MemoryValue::U32(a - b))
                } else {
                    Err(WitgenError::Overflow)
                }
            }
            (MemoryValue::U64(a), MemoryValue::U64(b)) => {
                if a >= b {
                    Ok(MemoryValue::U64(a - b))
                } else {
                    Err(WitgenError::Overflow)
                }
            }
            (MemoryValue::U128(a), MemoryValue::U128(b)) => {
                if a >= b {
                    Ok(MemoryValue::U128(a - b))
                } else {
                    Err(WitgenError::Overflow)
                }
            }
            (MemoryValue::FF(a), MemoryValue::FF(b)) => {
                let diff: u128 = a as u128 + FIELD_ORDER as u128 - b as u128;
                Ok(MemoryValue::FF((diff % (FIELD_ORDER as u128)) as u64))
            }
            _ => Err(WitgenError::TagMismatch),
        }
    }

    /// Width-aware unsigned comparison per `spec_lt`.
    pub fn less_than(self, other: MemoryValue) -> (r: Result<bool, WitgenError>)
        ensures
            r == self.spec_lt(other),
    {
        match (self, other) {
            (MemoryValue::U0(a), MemoryValue::U0(b)) => Ok(a < b),
            (MemoryValue::U1(a), MemoryValue::U1(b)) => Ok(a < b),
            (MemoryValue::U8(a), MemoryValue::U8(b)) => Ok(a < b),
            (MemoryValue::U16(a), MemoryValue::U16(b)) => Ok(a < b),
            (MemoryValue::U32(a), MemoryValue::U32(b)) => Ok(a < b),
            (MemoryValue::U64(a), MemoryValue::U64(b)) => Ok(a < b),
            (MemoryValue::U128(a), MemoryValue::U128(b)) => Ok(a < b),
            (MemoryValue::FF(a), MemoryValue::FF(b)) => Ok(a < b),
            _ => Err(WitgenError::TagMismatch),
        }
    }
}

/// Adding two well-formed values of one tag either preserves that tag or
/// reports `TagMismatch`/`Overflow`; it never produces a value of another
/// tag.  With distinct tags the result is always `TagMismatch`.
pub proof fn lemma_add_tag_preservation(x: MemoryValue, y: MemoryValue)
    ensures
        x.tag_spec() == y.tag_spec() && x.spec_add(y) is Ok
            ==> x.spec_add(y)->Ok_0.tag_spec() == x.tag_spec(),
        x.tag_spec() != y.tag_spec() ==> x.spec_add(y) == Err::<MemoryValue, WitgenError>(
            WitgenError::TagMismatch,
        ),
{
}

/// A well-formed sum stays well-formed: the checked `add` never stores an
/// out-of-width result.
pub proof fn lemma_add_result_wf(x: MemoryValue, y: MemoryValue)
    ensures
        x.spec_add(y) is Ok ==> x.spec_add(y)->Ok_0.wf(),
{
}

/// One logged memory access: which clock cycle and channel it belongs to,
/// the address, the value observed or stored, and the operation kind.
#[derive(Clone, Copy, Debug, PartialEq, Eq, Structural)]
pub struct MemoryEvent {
    pub clk: u64,
    pub channel: u8,
    pub addr: u32,
    pub value: MemoryValue,
    pub operation: MemoryOp,
}

/// The VM's memory: an address-indexed store of tagged values together with
/// the two-stage event log.  `staged` holds the events of the clock cycle in
/// progress; `advance_cycle` moves them to the committed log and opens the
/// next cycle.
pub struct MemoryChip {
    memory: HashMap<u32, MemoryValue>,
    committed: Vec<MemoryEvent>,
    staged: Vec<MemoryEvent>,
    clk: u64,
}

impl MemoryChip {
    /// The store's contents as a mathematical map.
    pub closed spec fn mem(&self) -> Map<u32, MemoryValue> {
        self.memory@
    }

    /// Events whose clock cycle has closed, in order of occurrence.
    pub closed spec fn committed_log(&self) -> Seq<MemoryEvent> {
        self.committed@
    }

    /// Events of the cycle in progress, in order of occurrence.
    pub closed spec fn staged_log(&self) -> Seq<MemoryEvent> {
        self.staged@
    }

    /// The clock cycle in progress.
    pub closed spec fn clock(&self) -> u64 {
        self.clk
    }

    /// Every stored value passed the width check: the store never holds a
    /// value whose bits exceed its tag.
    pub open spec fn inv(&self) -> bool {
        forall|a: u32| self.mem().contains_key(a) ==> (#[trigger] self.mem()[a]).wf()
    }

    /// What an address reads as: the stored value, or the uninitialized
    /// marker `U0(0)` for an address never written.
    pub open spec fn lookup(m: Map<u32, MemoryValue>, addr: u32) -> MemoryValue {
        if m.contains_key(addr) {
            m[addr]
        } else {
            MemoryValue::U0(0)
        }
    }

    /// A fresh store: no contents, no events, clock cycle zero.
    pub fn new() -> (chip: MemoryChip)
        ensures
            chip.mem() == Map::<u32, MemoryValue>::empty(),
            chip.committed_log() == Seq::<MemoryEvent>::empty(),
            chip.staged_log() == Seq::<MemoryEvent>::empty(),
            chip.clock() == 0,
            chip.inv(),
    {
        MemoryChip { memory: HashMap::new(), committed: Vec::new(), staged: Vec::new(), clk: 0 }
    }

    /// Reads `addr` on behalf of `channel`: returns the stored value
    /// (default `U0(0)`), stages a Read event for the current cycle, and
    /// leaves the contents untouched.
    pub fn read(&mut self, addr: u32, channel: u8) -> (r: MemoryValue)
        ensures
            r == Self::lookup(old(self).mem(), addr),
            final(self).mem() == old(self).mem(),
            final(self).committed_log() == old(self).committed_log(),
            final(self).clock() == old(self).clock(),
            final(self).staged_log() == old(self).staged_log().push(
                (MemoryEvent {
                    clk: old(self).clock(),
                    channel,
                    addr,
                    value: r,
                    operation: MemoryOp::Read,
                }),
            ),
            old(self).inv() ==> final(self).inv() && r.wf(),
    {
        let value: MemoryValue = match self.memory.get(&addr) {
            Some(v) => *v,
            None => MemoryValue::U0(0),
        };
        self.staged.push(
            MemoryEvent { clk: self.clk, channel, addr, value, operation: MemoryOp::Read },
        );
        value
    }

    /// Writes `value` to `addr` on behalf of `channel`, staging a Write
    /// event — but only after the range-checking component accepts both the
    /// address and the value.  A rejected access returns `RangeViolation`
    /// and leaves the store exactly as it was: no partial commit.
    pub fn write(&mut self, addr: u32, channel: u8, value: &MemoryValue) -> (r: Result<
        (),
        WitgenError,
    >)
        ensures
            if value.wf() && ranges::address_in_range(addr) {
                &&& r == Ok::<(), WitgenError>(())
                &&& final(self).mem() == old(self).mem().insert(addr, *value)
                &&& final(self).committed_log() == old(self).committed_log()
                &&& final(self).clock() == old(self).clock()
                &&& final(self).staged_log() == old(self).staged_log().push(
                    (MemoryEvent {
                        clk: old(self).clock(),
                        channel,
                        addr,
                        value: *value,
                        operation: MemoryOp::Write,
                    }),
                )
            } else {
                &&& r == Err::<(), WitgenError>(WitgenError::RangeViolation)
                &&& *final(self) == *old(self)
            },
            old(self).inv() ==> final(self).inv(),
    {
        if !(ranges::check_address_range(addr) && ranges::check_value_width(value)) {
            return Err(WitgenError::RangeViolation);
        }
        self.memory.insert(addr, *value);
        self.staged.push(
            MemoryEvent { clk: self.clk, channel, addr, value: *value, operation: MemoryOp::Write },
        );
        proof {
            if old(self).inv() {
                assert forall|a: u32| self.mem().contains_key(a) implies (
                #[trigger] self.mem()[a]).wf() by {
                    if a != addr {
                        assert(old(self).mem().contains_key(a));
                    }
                }
            }
        }
        Ok(())
    }

    /// Closes the cycle in progress: every staged event moves, in order, to
    /// the committed log, the staged collection empties, and the clock
    /// advances, so that the whole cycle's memory traffic carries one clock
    /// value.
    pub fn advance_cycle(&mut self)
        requires
            old(self).clock() < u64::MAX,
        ensures
            final(self).mem() == old(self).mem(),
            final(self).committed_log() == old(self).committed_log() + old(self).staged_log(),
            final(self).staged_log() == Seq::<MemoryEvent>::empty(),
            final(self).clock() == old(self).clock() + 1,
            old(self).inv() ==> final(self).inv(),
    {
        self.committed.append(&mut self.staged);
        self.clk = self.clk + 1;
        proof {
            if old(self).inv() {
                assert forall|a: u32| self.mem().contains_key(a) implies (
                #[trigger] self.mem()[a]).wf() by {
                    assert(old(self).mem().contains_key(a));
                }
            }
        }
    }

    /// The committed event log, for the driver to drain into the trace.
    pub fn committed_events(&self) -> (r: &Vec<MemoryEvent>)
        ensures
            r@ == self.committed_log(),
    {
        &self.committed
    }

    /// The staged events of the cycle in progress.
    pub fn staged_events(&self) -> (r: &Vec<MemoryEvent>)
        ensures
            r@ == self.staged_log(),
    {
        &self.staged
    }

    /// The clock cycle in progress.
    pub fn current_clk(&self) -> (r: u64)
        ensures
            r == self.clock(),
    {
        self.clk
    }
}

/// Overwriting an address with the value it already holds changes nothing
/// observable: two identical writes leave the store as one does.  (Each
/// write still stages its own Write event.)
pub proof fn lemma_overwrite_idempotent(m: Map<u32, MemoryValue>, addr: u32, v: MemoryValue)
    ensures
        m.insert(addr, v).insert(addr, v) == m.insert(addr, v),
{
    assert(m.insert(addr, v).insert(addr, v) =~= m.insert(addr, v));
}

} // verus!
