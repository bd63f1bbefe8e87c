use crate::net::frame::{HEADER_SIZE, after_first, decode_length, first_payload, holds_frame, missing, prefixed_length};
use crate::net::unit_sender::append_bytes;
use vstd::prelude::*;

verus! {

/// The receiving side of the unit layer. Whoever owns the read half of the
/// socket feeds it the bytes that arrive; it cuts them into frames and keeps
/// the payload of the last one in a buffer that it reuses.
pub struct UnitReceiver {
    arrived: Vec<u8>,
    buffer: Vec<u8>,
}

impl UnitReceiver {
    /// The bytes that arrived and belong to no frame received so far.
    pub closed spec fn unread(&self) -> Seq<u8> {
        self.arrived@
    }

    /// The buffer that holds the payload of the frame received last.
    pub closed spec fn received(&self) -> Vec<u8> {
        self.buffer
    }

    /// The payload of the frame received last.
    pub open spec fn payload(&self) -> Seq<u8> {
        self.received()@
    }

    pub fn new() -> (receiver: Self)
        ensures
            receiver.unread() == Seq::<u8>::empty(),
            receiver.payload() == Seq::<u8>::empty(),
    {
        UnitReceiver { arrived: Vec::new(), buffer: Vec::new() }
    }

    /// Takes in bytes read from the socket.
    pub fn feed(&mut self, bytes: &[u8])
        ensures
            final(self).unread() == old(self).unread() + bytes@,
            final(self).received() == old(self).received(),
    {
        append_bytes(&mut self.arrived, bytes);
    }

    /// The payload length that the unread bytes' header announces.
    fn announced(&self) -> (size: usize)
        requires
            self.unread().len() >= 4,
        ensures
            size == prefixed_length(self.unread()),
    {
        let header = [self.arrived[0], self.arrived[1], self.arrived[2], self.arrived[3]];
        decode_length(&header) as usize
    }

    /// How many bytes the socket still owes before a frame can be received:
    /// what is left of the header, or else what is left of the payload.
    pub fn demand(&self) -> (count: usize)
        ensures
            count == missing(self.unread()),
    {
        let available = self.arrived.len();
        if available < HEADER_SIZE {
            HEADER_SIZE - available
        } else {
            let size = self.announced();
            if available - HEADER_SIZE < size {
                size - (available - HEADER_SIZE)
            } else {
                0
            }
        }
    }

    /// Receives the next frame. Where the unread bytes start with a whole
    /// frame, its payload replaces the buffer's contents and the frame leaves
    /// the unread bytes. Otherwise nothing changes, and the error is the
    /// number of bytes still owed.
    pub fn receive(&mut self) -> (outcome: Result<&Vec<u8>, usize>)
        ensures
            holds_frame(old(self).unread()) ==> outcome is Ok
                && *outcome->Ok_0 == final(self).received()
                && final(self).payload() == first_payload(old(self).unread())
                && final(self).unread() == after_first(old(self).unread()),
            !holds_frame(old(self).unread()) ==> outcome == Err::<&Vec<u8>, usize>(
                missing(old(self).unread()) as usize,
            ) && missing(old(self).unread()) > 0 && final(self).unread() == old(self).unread()
                && final(self).received() == old(self).received(),
    {
        let owed = self.demand();
        if owed > 0 {
            return Err(owed);
        }
        let available = self.arrived.len();
        let size = self.announced();
        assert(size <= available - HEADER_SIZE);
        let end = HEADER_SIZE + size;
        let mut rest = self.arrived.split_off(end);
        self.buffer.clear();
        let mut index: usize = HEADER_SIZE;
        while index < end
            invariant
                4 <= index <= end,
                end == 4 + prefixed_length(old(self).arrived@),
                end <= old(self).arrived@.len(),
                end == self.arrived@.len(),
                self.arrived@ == old(self).arrived@.subrange(0, end as int),
                self.buffer@ == self.arrived@.subrange(4, index as int),
            decreases end - index,
        {
            self.buffer.push(self.arrived[index]);
            index += 1;
            assert(self.buffer@ =~= self.arrived@.subrange(4, index as int));
        }
        core::mem::swap(&mut self.arrived, &mut rest);
        assert(self.buffer@ =~= first_payload(old(self).arrived@));
        Ok(&self.buffer)
    }

    /// The payload of the frame received last.
    pub fn buffer(&self) -> (payload: &Vec<u8>)
        ensures
            *payload == self.received(),
    {
        &self.buffer
    }
}

} // verus!
