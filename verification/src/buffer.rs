//! A bounded buffer of received bytes.

use crate::log::MAX_LOG_LINES;
use std::collections::VecDeque;
use vstd::prelude::*;

verus! {

/// The first of the two runs in which a deque holds its items, by
/// `VecDeque::as_slices`. The two runs together are the contents in order,
/// so the first run is a front part of the contents; where the runs divide
/// is the deque's own business.
#[verifier::external_body]
fn front_run(buf: &VecDeque<u8>) -> (run: &[u8])
    ensures
        run@.len() <= buf@.len(),
        run@ == buf@.take(run@.len() as int),
{
    buf.as_slices().0
}

/// A buffer as plain values.
pub struct RxBufferView {
    /// The bytes held, oldest first.
    pub bytes: Seq<u8>,
    /// Number of bytes ever pushed.
    pub rx_count: u64,
}

impl RxBufferView {
    /// The bytes that stay when one more is pushed: the oldest byte leaves
    /// a buffer that is full.
    pub open spec fn kept(self) -> Seq<u8> {
        if self.bytes.len() >= MAX_LOG_LINES {
            self.bytes.drop_first()
        } else {
            self.bytes
        }
    }

    /// The buffer after `byte` was pushed.
    pub open spec fn pushed(self, byte: u8) -> RxBufferView {
        RxBufferView { bytes: self.kept().push(byte), rx_count: (self.rx_count + 1) as u64 }
    }

    /// The buffer after the bytes of `bytes` were pushed one by one.
    pub open spec fn extended(self, bytes: Seq<u8>) -> RxBufferView
        decreases bytes.len(),
    {
        if bytes.len() == 0 {
            self
        } else {
            self.extended(bytes.drop_last()).pushed(bytes.last())
        }
    }
}

/// The last 10000 bytes received, and how many were received in all.
pub struct RxBuffer {
    buf: VecDeque<u8>,
    rx_count: u64,
}

impl View for RxBuffer {
    type V = RxBufferView;

    closed spec fn view(&self) -> RxBufferView {
        RxBufferView { bytes: self.buf@, rx_count: self.rx_count }
    }
}

impl RxBuffer {
    /// An empty buffer.
    pub fn new() -> (r: RxBuffer)
        ensures
            r@ == (RxBufferView { bytes: Seq::empty(), rx_count: 0 }),
    {
        RxBuffer { buf: VecDeque::with_capacity(MAX_LOG_LINES), rx_count: 0 }
    }

    /// Appends a byte, after dropping the oldest one if the buffer is full.
    pub fn push(&mut self, byte: u8)
        requires
            old(self)@.rx_count < u64::MAX,
        ensures
            final(self)@ == old(self)@.pushed(byte),
    {
        if self.buf.len() >= MAX_LOG_LINES {
            let _ = self.buf.pop_front();
        }
        self.buf.push_back(byte);
        self.rx_count += 1;
        assert(self.buf@ =~= old(self)@.kept().push(byte));
    }

    /// Appends the bytes one by one.
    pub fn extend(&mut self, bytes: &[u8])
        requires
            old(self)@.rx_count + bytes@.len() <= u64::MAX,
        ensures
            final(self)@ == old(self)@.extended(bytes@),
    {
        let mut i: usize = 0;
        assert(bytes@.take(0) =~= Seq::<u8>::empty());
        while i < bytes.len()
            invariant
                i <= bytes@.len(),
                self@ == old(self)@.extended(bytes@.take(i as int)),
                self@.rx_count == old(self)@.rx_count + i,
                old(self)@.rx_count + bytes@.len() <= u64::MAX,
            decreases bytes@.len() - i,
        {
            proof {
                let next = bytes@.take(i + 1);
                assert(next.drop_last() =~= bytes@.take(i as int));
                assert(next.last() == bytes@[i as int]);
            }
            self.push(bytes[i]);
            i += 1;
        }
        assert(bytes@.take(bytes@.len() as int) =~= bytes@);
    }

    /// Drops every byte. The count of bytes received stays.
    pub fn clear(&mut self)
        ensures
            final(self)@ == (RxBufferView { bytes: Seq::empty(), rx_count: old(self)@.rx_count }),
    {
        self.buf.clear();
    }

    /// The bytes at the front of the buffer that lie in one run of memory.
    /// These are the first bytes held; how many of them, the deque decides.
    pub fn as_slice(&self) -> (r: &[u8])
        ensures
            r@.len() <= self@.bytes.len(),
            r@ == self@.bytes.take(r@.len() as int),
    {
        front_run(&self.buf)
    }

    /// Number of bytes ever pushed.
    pub fn rx_count(&self) -> (n: u64)
        ensures
            n == self@.rx_count,
    {
        self.rx_count
    }

    /// Number of bytes held.
    pub fn len(&self) -> (n: usize)
        ensures
            n == self@.bytes.len(),
    {
        self.buf.len()
    }

    /// Whether no byte is held.
    pub fn is_empty(&self) -> (r: bool)
        ensures
            r == (self@.bytes.len() == 0),
    {
        self.buf.len() == 0
    }
}

} // verus!
