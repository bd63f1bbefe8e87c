use crate::net::frame::{encode_length, fits_frame, frame};
use vstd::prelude::*;

verus! {

/// Appends `source` to `target`, byte by byte.
pub fn append_bytes(target: &mut Vec<u8>, source: &[u8])
    ensures
        final(target)@ == old(target)@ + source@,
{
    let mut index: usize = 0;
    while index < source.len()
        invariant
            index <= source.len(),
            target@ == old(target)@ + source@.subrange(0, index as int),
        decreases source.len() - index,
    {
        target.push(source[index]);
        index += 1;
        assert(target@ =~= old(target)@ + source@.subrange(0, index as int));
    }
    assert(source@.subrange(0, index as int) =~= source@);
}

/// The sending side of the unit layer. It turns each message into a frame and
/// stages the frame's bytes; whoever owns the write half of the socket takes
/// the staged bytes and writes them out.
pub struct UnitSender {
    staged: Vec<u8>,
}

impl View for UnitSender {
    type V = Seq<u8>;

    /// The bytes that are staged and not yet taken, oldest first.
    closed spec fn view(&self) -> Seq<u8> {
        self.staged@
    }
}

impl UnitSender {
    pub fn new() -> (sender: Self)
        ensures
            sender@ == Seq::<u8>::empty(),
    {
        UnitSender { staged: Vec::new() }
    }

    /// Stages the frame of `msg` behind what is already staged. The message
    /// must fit a frame.
    pub fn send(&mut self, msg: &Vec<u8>)
        requires
            fits_frame(msg@.len()),
        ensures
            final(self)@ == old(self)@ + frame(msg@),
    {
        let header = encode_length(msg.len() as u32);
        append_bytes(&mut self.staged, header.as_slice());
        append_bytes(&mut self.staged, msg.as_slice());
        assert(self.staged@ =~= old(self).staged@ + frame(msg@));
    }

    /// Number of staged bytes.
    pub fn staged_len(&self) -> (length: usize)
        ensures
            length == self@.len(),
    {
        self.staged.len()
    }

    /// Hands out the staged bytes, in the order in which they are to be
    /// written, and leaves nothing staged.
    pub fn take(&mut self) -> (bytes: Vec<u8>)
        ensures
            bytes@ == old(self)@,
            final(self)@ == Seq::<u8>::empty(),
    {
        let mut bytes: Vec<u8> = Vec::new();
        core::mem::swap(&mut self.staged, &mut bytes);
        bytes
    }
}

} // verus!
