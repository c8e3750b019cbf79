use vstd::prelude::*;
use vstd::string::StringSliceAdditionalSpecFns;

verus! {

/// The bytes that a message occupies when it crosses the boundary (UTF-8).
pub open spec fn message_bytes(msg: Seq<char>) -> Seq<u8> {
    vstd::utf8::encode_utf8(msg)
}

/// What `last_error_length` reports for a slot: nothing pending gives zero,
/// otherwise the message's byte length plus one terminating zero byte
/// (saturated at `i32::MAX`, which no caller's buffer can exceed).
pub open spec fn length_report(pending: Option<Seq<char>>) -> i32 {
    match pending {
        None => 0,
        Some(m) => if message_bytes(m).len() < i32::MAX {
            (message_bytes(m).len() + 1) as i32
        } else {
            i32::MAX
        },
    }
}

/// What `last_error_message` returns for a slot and a buffer of `capacity`
/// bytes: zero when nothing is pending, the message's byte length when it fits
/// with its terminator, and -1 when it does not.
pub open spec fn read_report(pending: Option<Seq<char>>, capacity: int) -> i32 {
    match pending {
        None => 0,
        Some(m) => if message_bytes(m).len() < capacity {
            message_bytes(m).len() as i32
        } else {
            -1i32
        },
    }
}

/// The per-thread error store: at most one pending message, last write wins.
pub struct ErrorSlot {
    pending: Option<String>,
}

impl View for ErrorSlot {
    type V = Option<Seq<char>>;

    closed spec fn view(&self) -> Option<Seq<char>> {
        match self.pending {
            Some(m) => Some(m@),
            None => None,
        }
    }
}

impl ErrorSlot {
    /// An empty slot.
    pub fn new() -> (r: ErrorSlot)
        ensures
            r@ == None::<Seq<char>>,
    {
        ErrorSlot { pending: None }
    }

    /// Whether a message is pending.
    pub fn has_error(&self) -> (r: bool)
        ensures
            r == self@.is_some(),
    {
        self.pending.is_some()
    }
}

/// Stores `msg` as the pending error, discarding any earlier one.
pub fn update_last_error(slot: &mut ErrorSlot, msg: String)
    ensures
        final(slot)@ == Some(msg@),
{
    slot.pending = Some(msg);
}

/// Retrieves the pending error, clearing the slot.
pub fn take_last_error(slot: &mut ErrorSlot) -> (r: Option<String>)
    ensures
        final(slot)@ == None::<Seq<char>>,
        match r {
            Some(m) => old(slot)@ == Some(m@),
            None => old(slot)@ == None::<Seq<char>>,
        },
{
    slot.pending.take()
}

/// The buffer size needed for the pending message with its terminator, or
/// zero when nothing is pending. Leaves the slot as it is.
pub fn last_error_length(slot: &ErrorSlot) -> (r: i32)
    ensures
        r == length_report(slot@),
{
    match &slot.pending {
        None => 0,
        Some(m) => {
            let n = m.as_str().as_bytes().len();
            if n < i32::MAX as usize {
                (n + 1) as i32
            } else {
                i32::MAX
            }
        },
    }
}

/// Consumes the pending message and copies it, zero-terminated, to the front
/// of `buffer`, whose length is the caller's capacity. Returns the number of
/// message bytes written, 0 when nothing was pending, and -1 when the
/// message and its terminator do not fit (the message is consumed all the same).
pub fn last_error_message(slot: &mut ErrorSlot, buffer: &mut Vec<u8>) -> (r: i32)
    requires
        old(buffer)@.len() <= i32::MAX,
    ensures
        final(slot)@ == None::<Seq<char>>,
        final(buffer)@.len() == old(buffer)@.len(),
        r == read_report(old(slot)@, old(buffer)@.len() as int),
        match old(slot)@ {
            None => r == 0 && final(buffer)@ == old(buffer)@,
            Some(m) => if message_bytes(m).len() < old(buffer)@.len() {
                &&& r == message_bytes(m).len()
                &&& final(buffer)@.subrange(0, r as int) == message_bytes(m)
                &&& final(buffer)@[r as int] == 0
                &&& final(buffer)@.subrange(r + 1, final(buffer)@.len() as int)
                    == old(buffer)@.subrange(r + 1, old(buffer)@.len() as int)
            } else {
                r == -1 && final(buffer)@ == old(buffer)@
            },
        },
{
    let msg = match take_last_error(slot) {
        Some(m) => m,
        None => return 0,
    };
    let bytes = msg.as_str().as_bytes();
    let n = bytes.len();
    if n >= buffer.len() {
        return -1;
    }
    let ghost before = buffer@;
    let mut i: usize = 0;
    while i < n
        invariant
            n == bytes@.len(),
            n < buffer@.len(),
            buffer@.len() == before.len(),
            0 <= i <= n,
            forall|j: int| 0 <= j < i ==> buffer@[j] == bytes@[j],
            forall|j: int| i <= j < buffer@.len() ==> buffer@[j] == before[j],
        decreases n - i,
    {
        buffer.set(i, bytes[i]);
        i = i + 1;
    }
    buffer.set(n, 0u8);
    assert(buffer@.subrange(0, n as int) =~= bytes@);
    assert(buffer@.subrange(n + 1, buffer@.len() as int) =~= before.subrange(
        n + 1,
        before.len() as int,
    ));
    n as i32
}

/// Consume-once: with a message pending, a buffer of the size that
/// `last_error_length` reports receives the whole message, and the slot, now
/// empty, reports nothing to a second read of any size.
pub proof fn law_consume_once(m: Seq<char>, capacity: int)
    requires
        message_bytes(m).len() < i32::MAX,
        capacity == length_report(Some(m)),
    ensures
        read_report(Some(m), capacity) == message_bytes(m).len(),
        forall|c: int| read_report(None, c) == 0,
        length_report(None) == 0,
{
}

/// A pending error always reports a positive length.
pub proof fn law_pending_length_positive(pending: Option<Seq<char>>)
    requires
        pending is Some,
    ensures
        length_report(pending) > 0,
{
}

} // verus!
