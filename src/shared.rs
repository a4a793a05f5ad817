//! State handed between the main flow and an interrupt handler.
use crate::critical::CriticalSection;
use vstd::prelude::*;

verus! {

/// What one context can do to the received flag.
pub enum FlagOp {
    /// The handler reports that data arrived.
    Raise,
    /// The main flow polls the flag.
    Observe,
    /// The main flow resets the flag after consuming the event.
    Clear,
}

/// The flag after one operation.
pub open spec fn flag_after(flag: bool, op: FlagOp) -> bool {
    match op {
        FlagOp::Raise => true,
        FlagOp::Observe => flag,
        FlagOp::Clear => false,
    }
}

/// The flag after a sequence of operations, applied in order.
pub open spec fn flag_after_all(flag: bool, ops: Seq<FlagOp>) -> bool
    decreases ops.len(),
{
    if ops.len() == 0 {
        flag
    } else {
        flag_after(flag_after_all(flag, ops.drop_last()), ops.last())
    }
}

/// Once raised, the flag stays raised through any operations that do not clear it.
pub proof fn lemma_flag_stays_raised(flag: bool, ops: Seq<FlagOp>, i: int)
    requires
        0 <= i < ops.len(),
        ops[i] == FlagOp::Raise,
        forall|k: int| i < k < ops.len() ==> !(#[trigger] ops[k] is Clear),
    ensures
        flag_after_all(flag, ops),
    decreases ops.len(),
{
    if i < ops.len() - 1 {
        let front = ops.drop_last();
        assert forall|k: int| i < k < front.len() implies !(#[trigger] front[k] is Clear) by {
            assert(front[k] == ops[k]);
        }
        lemma_flag_stays_raised(flag, front, i);
        assert(!(ops[ops.len() - 1] is Clear));
    }
}

/// A single-word flag that the handler raises and the main flow polls. Reads
/// and writes of it are single accesses, so it needs no critical section;
/// it orders nothing else around it.
pub struct ReceivedFlag {
    raised: bool,
}

impl ReceivedFlag {
    /// Whether the flag is raised.
    pub closed spec fn view(&self) -> bool {
        self.raised
    }

    /// A flag that is not raised.
    pub fn new() -> (r: ReceivedFlag)
        ensures
            !r@,
    {
        ReceivedFlag { raised: false }
    }

    /// Raises the flag.
    pub fn raise(&mut self)
        ensures
            final(self)@ == flag_after(old(self)@, FlagOp::Raise),
    {
        self.raised = true;
    }

    pub fn is_raised(&self) -> (r: bool)
        ensures
            r == self@,
            self@ == flag_after(self@, FlagOp::Observe),
    {
        self.raised
    }

    /// Lowers the flag.
    pub fn clear(&mut self)
        ensures
            final(self)@ == flag_after(old(self)@, FlagOp::Clear),
    {
        self.raised = false;
    }
}

/// A slot of state that either context may read or write, only while holding
/// a critical section. It starts empty and is filled during setup.
pub struct Shared<T> {
    value: Option<T>,
}

impl<T> Shared<T> {
    /// What the slot holds.
    pub closed spec fn view(&self) -> Option<T> {
        self.value
    }

    /// An empty slot.
    pub fn new() -> (r: Shared<T>)
        ensures
            r@ is None,
    {
        Shared { value: None }
    }

    /// What the slot holds, read inside a critical section, shown by `_cs`.
    pub fn borrow<'a>(&'a self, _cs: &CriticalSection) -> (r: &'a Option<T>)
        ensures
            *r == self@,
    {
        &self.value
    }

    /// The slot's contents, for changing them in place inside a critical section, shown by `_cs`.
    pub fn borrow_mut<'a>(&'a mut self, _cs: &CriticalSection) -> (r: &'a mut Option<T>)
        ensures
            *r == old(self)@,
            final(self)@ == *final(r),
    {
        &mut self.value
    }

    /// Stores `value` inside a critical section, shown by `_cs`, replacing whatever was there.
    pub fn set(&mut self, _cs: &CriticalSection, value: T)
        ensures
            final(self)@ == Some(value),
    {
        self.value = Some(value);
    }

    /// Empties the slot inside a critical section, shown by `_cs`, and returns what it held.
    pub fn take(&mut self, _cs: &CriticalSection) -> (r: Option<T>)
        ensures
            r == old(self)@,
            final(self)@ is None,
    {
        self.value.take()
    }
}

/// Whether a read from the receive endpoint means that data arrived: a read
/// of `Some(count)` bytes with `count > 0`. A failed read (`None`) counts as
/// zero bytes.
pub open spec fn data_arrived(read: Option<usize>) -> bool {
    match read {
        Some(count) => count > 0,
        None => false,
    }
}

/// The handler's decision after draining the receive endpoint: raise the flag
/// when data arrived, and leave it alone otherwise.
pub fn on_receive(flag: &mut ReceivedFlag, read: Option<usize>)
    ensures
        final(flag)@ == (old(flag)@ || data_arrived(read)),
{
    match read {
        Some(count) => {
            if count > 0 {
                flag.raise();
            }
        },
        None => {},
    }
}

/// How many bytes of a message of `len` bytes have been sent after one more
/// write, starting from `sent`. The write reported `Some(count)` bytes taken,
/// or `None` for a failure, which counts as none. The result never passes `len`.
pub fn advance_sent(sent: usize, len: usize, written: Option<usize>) -> (r: usize)
    requires
        sent <= len,
    ensures
        r == match written {
            Some(count) => if count <= len - sent {
                sent + count
            } else {
                len as int
            },
            None => sent as int,
        },
        sent <= r <= len,
{
    match written {
        Some(count) => {
            if count <= len - sent {
                sent + count
            } else {
                len
            }
        },
        None => sent,
    }
}

} // verus!
