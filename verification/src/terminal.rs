use tokio::sync::mpsc::error::TrySendError;
use tokio::sync::mpsc::{Receiver, Sender};
use crate::escape::{clear_all, enter_alt_screen, hide_cursor, spec_clear_all, spec_enter_alt_screen, spec_hide_cursor};
use vstd::prelude::*;

verus! {

#[verifier::external_type_specification]
#[verifier::external_body]
#[verifier::reject_recursive_types(T)]
pub struct ExSender<T>(Sender<T>);

#[verifier::external_type_specification]
#[verifier::external_body]
#[verifier::reject_recursive_types(T)]
pub struct ExReceiver<T>(Receiver<T>);

/// What became of one frame offered to the output channel without waiting.
#[derive(Clone, Copy, Debug, PartialEq, Eq, Structural)]
pub enum Delivery {
    /// The channel took the frame.
    Sent,
    /// The channel's buffer was full; the frame was not taken.
    Full,
    /// The receiving side is gone; the frame was not taken.
    Closed,
}

/// The largest buffer a tokio bounded channel accepts (its semaphore's
/// `MAX_PERMITS`).
pub const MAX_CHANNEL_BUFFER: usize = usize::MAX >> 3;

/// Every frame that the channel behind `sender` has taken from it, oldest
/// first.
pub uninterp spec fn frames_taken(sender: Sender<Vec<u8>>) -> Seq<Seq<u8>>;

/// The number of frames the channel behind `sender` was made to hold.
pub uninterp spec fn channel_bound(sender: Sender<Vec<u8>>) -> usize;

/// Calls `tokio::sync::mpsc::channel`, which creates a bounded channel with
/// room for `buffer` frames. Tokio panics when `buffer` is zero or above
/// `MAX_PERMITS`, so the contract leaves those inputs out. The new channel
/// holds `buffer` frames and has taken none.
#[verifier::external_body]
fn bounded_channel(buffer: usize) -> (r: (Sender<Vec<u8>>, Receiver<Vec<u8>>))
    requires
        0 < buffer <= MAX_CHANNEL_BUFFER,
    ensures
        channel_bound(r.0) == buffer,
        frames_taken(r.0) == Seq::<Seq<u8>>::empty(),
{
    tokio::sync::mpsc::channel(buffer)
}

/// Calls `tokio::sync::mpsc::Sender::try_send` and tells its outcomes apart.
/// Which outcome comes back depends on the state of the channel at the time of
/// the call (how full it is, whether the receiver still exists), so the
/// contract promises none of them. When the channel takes the frame
/// (`Sent`), `frame` is appended to what it has taken; otherwise the frame is
/// handed back inside the error and nothing is appended. The channel's bound
/// does not change. A channel answers `Full` only when it holds `bound` frames not yet
/// received; since every frame it holds came through this sender, it has
/// then taken at least `bound` frames.
#[verifier::external_body]
fn offer_frame(sender: &mut Sender<Vec<u8>>, frame: Vec<u8>) -> (r: Delivery)
    ensures
        channel_bound(*final(sender)) == channel_bound(*old(sender)),
        r == Delivery::Sent ==> frames_taken(*final(sender)) == frames_taken(*old(sender)).push(
            frame@,
        ),
        r != Delivery::Sent ==> frames_taken(*final(sender)) == frames_taken(*old(sender)),
        r == Delivery::Full ==> frames_taken(*old(sender)).len() >= channel_bound(*old(sender)),
{
    match sender.try_send(frame) {
        Ok(()) => Delivery::Sent,
        Err(TrySendError::Full(_)) => Delivery::Full,
        Err(TrySendError::Closed(_)) => Delivery::Closed,
    }
}

/// The output side of one connection's terminal.
///
/// Bytes written by the terminal backend gather in a pending buffer; a flush
/// offers everything pending as one frame to the connection's bounded output
/// channel. A full channel drops the frame rather than wait for room.
pub struct TerminalHandle {
    sender: Sender<Vec<u8>>,
    sink: Vec<u8>,
}

/// The abstract state of a [`TerminalHandle`].
pub struct TerminalHandleView {
    /// Bytes written since the pending buffer was last emptied.
    pub pending: Seq<u8>,
    /// Every frame the output channel has taken, oldest first.
    pub taken: Seq<Seq<u8>>,
    /// The number of frames the output channel holds.
    pub capacity: usize,
}

impl View for TerminalHandle {
    type V = TerminalHandleView;

    closed spec fn view(&self) -> TerminalHandleView {
        TerminalHandleView {
            pending: self.sink@,
            taken: frames_taken(self.sender),
            capacity: channel_bound(self.sender),
        }
    }
}

/// A flush found the receiving side of the output channel gone.
#[derive(Clone, Copy, Debug, PartialEq, Eq, Structural)]
pub enum ChannelClosed {
    /// The pending bytes were kept; nothing was delivered.
    Closed,
}

/// The pending bytes after a flush whose frame met `delivery`: a frame that
/// was taken, or refused for want of room, leaves nothing pending; a closed
/// channel leaves the pending bytes as they were.
pub open spec fn pending_after(pending: Seq<u8>, delivery: Delivery) -> Seq<u8> {
    match delivery {
        Delivery::Closed => pending,
        _ => Seq::empty(),
    }
}

/// What a flush of `before` that returned `r` leaves: on `Ok(Sent)` the
/// pending bytes were taken by the channel as one frame; on `Ok(Full)` they
/// were dropped; on an error they are still pending and nothing was taken.
/// `Full` comes only from a channel that has taken at least as many frames
/// as it holds.
pub open spec fn flushed(
    before: TerminalHandleView,
    after: TerminalHandleView,
    r: Result<Delivery, ChannelClosed>,
) -> bool {
    &&& after.capacity == before.capacity
    &&& r == Ok::<Delivery, ChannelClosed>(Delivery::Full) ==> before.taken.len() >= before.capacity
    &&& match r {
        Ok(Delivery::Sent) => {
            &&& after.taken == before.taken.push(before.pending)
            &&& after.pending == Seq::<u8>::empty()
        },
        Ok(Delivery::Full) => {
            &&& after.taken == before.taken
            &&& after.pending == Seq::<u8>::empty()
        },
        Ok(Delivery::Closed) => false,
        Err(_) => {
            &&& after.taken == before.taken
            &&& after.pending == before.pending
        },
    }
}

impl TerminalHandle {
    /// Creates the output channel of a connection, with room for `buffer`
    /// frames, and a handle with nothing pending. The receiving half is
    /// returned for the task that forwards frames to the SSH channel.
    pub fn open(buffer: usize) -> (r: (TerminalHandle, Receiver<Vec<u8>>))
        requires
            0 < buffer <= MAX_CHANNEL_BUFFER,
        ensures
            r.0@.pending == Seq::<u8>::empty(),
            r.0@.taken == Seq::<Seq<u8>>::empty(),
            r.0@.capacity == buffer,
    {
        let (sender, receiver) = bounded_channel(buffer);
        (TerminalHandle { sender, sink: Vec::new() }, receiver)
    }

    /// The bytes written since the pending buffer was last emptied.
    pub fn pending(&self) -> (r: &[u8])
        ensures
            r@ == self@.pending,
    {
        self.sink.as_slice()
    }

    /// Appends `buf` to the pending bytes and reports all of it as written.
    pub fn write(&mut self, buf: &[u8]) -> (n: usize)
        ensures
            final(self)@.pending == old(self)@.pending + buf@,
            final(self)@.taken == old(self)@.taken,
            final(self)@.capacity == old(self)@.capacity,
            n == buf@.len(),
    {
        self.sink.extend_from_slice(buf);
        proof {
            assert forall|i: int| 0 <= i < self.sink@.len() implies #[trigger] self.sink@[i] == (
            old(self)@.pending + buf@)[i] by {
                if i >= old(self)@.pending.len() {
                    assert(cloned::<u8>(buf@[i - old(self)@.pending.len()], self.sink@[i]));
                }
            }
            assert(self.sink@ =~= old(self)@.pending + buf@);
        }
        buf.len()
    }

    /// Settles a flush whose frame met `delivery`: see [`pending_after`].
    /// The result tells the frame's fate: `Ok(Sent)`, `Ok(Full)` (the frame was
    /// dropped), or an error for a closed channel.
    pub fn settle(&mut self, delivery: Delivery) -> (r: Result<Delivery, ChannelClosed>)
        ensures
            final(self)@.pending == pending_after(old(self)@.pending, delivery),
            final(self)@.taken == old(self)@.taken,
            final(self)@.capacity == old(self)@.capacity,
            r is Err <==> delivery == Delivery::Closed,
            r matches Ok(d) ==> d == delivery,
    {
        match delivery {
            Delivery::Closed => Err(ChannelClosed::Closed),
            _ => {
                self.sink.clear();
                Ok(delivery)
            },
        }
    }

    /// Offers everything pending as one frame to the output channel, without
    /// waiting. The pending bytes are emptied when the frame was taken and
    /// also when the channel was full (the frame is then dropped); they are
    /// kept, and an error is returned, when the channel is closed.
    pub fn flush(&mut self) -> (r: Result<Delivery, ChannelClosed>)
        ensures
            flushed(old(self)@, final(self)@, r),
    {
        let frame = self.sink.clone();
        assert(frame@ =~= self.sink@);
        let delivery = offer_frame(&mut self.sender, frame);
        self.settle(delivery)
    }

    /// Prepares the remote terminal for a session: switches to the alternate
    /// screen, hides the cursor, and flushes, so that both sequences leave
    /// after whatever was pending, in one frame.
    pub fn begin_session(&mut self) -> (r: Result<Delivery, ChannelClosed>)
        ensures
            flushed(
                TerminalHandleView {
                    pending: old(self)@.pending + spec_enter_alt_screen() + spec_hide_cursor(),
                    ..old(self)@
                },
                final(self)@,
                r,
            ),
    {
        let enter = enter_alt_screen();
        self.write(enter.as_slice());
        let hide = hide_cursor();
        self.write(hide.as_slice());
        self.flush()
    }

    /// Queues a full screen clear without flushing it, so that it leaves in
    /// the same frame as the next drawing.
    pub fn queue_clear(&mut self)
        ensures
            final(self)@.pending == old(self)@.pending + spec_clear_all(),
            final(self)@.taken == old(self)@.taken,
            final(self)@.capacity == old(self)@.capacity,
    {
        let clear = clear_all();
        self.write(clear.as_slice());
    }
}

/// The bytes of `writes`, one after another.
pub open spec fn concat_all(writes: Seq<Seq<u8>>) -> Seq<u8>
    decreases writes.len(),
{
    if writes.len() == 0 {
        Seq::empty()
    } else {
        concat_all(writes.drop_last()) + writes.last()
    }
}

/// A frame holds exactly what was written since the pending bytes were last
/// emptied: when a handle with nothing pending (fresh, or after a flush that
/// returned `Ok`) receives `writes` in turn, as `write` describes
/// (`states[i]` is the handle before the `i`-th write), and a flush then
/// returns `Ok(Sent)` (`after`), the frame the channel took last is the
/// concatenation of `writes`.
pub proof fn frame_is_writes_since_empty(
    states: Seq<TerminalHandleView>,
    writes: Seq<Seq<u8>>,
    after: TerminalHandleView,
)
    requires
        states.len() == writes.len() + 1,
        states[0].pending == Seq::<u8>::empty(),
        forall|i: int|
            0 <= i < writes.len() ==> #[trigger] states[i + 1].pending == states[i].pending
                + writes[i],
        flushed(states.last(), after, Ok(Delivery::Sent)),
    ensures
        after.taken.last() == concat_all(writes),
{
    pending_is_prefix_concat(states, writes, writes.len() as int);
    assert(writes.take(writes.len() as int) =~= writes);
    assert(states.last() == states[writes.len() as int]);
}

proof fn pending_is_prefix_concat(states: Seq<TerminalHandleView>, writes: Seq<Seq<u8>>, n: int)
    requires
        states.len() == writes.len() + 1,
        0 <= n <= writes.len(),
        states[0].pending == Seq::<u8>::empty(),
        forall|i: int|
            0 <= i < writes.len() ==> #[trigger] states[i + 1].pending == states[i].pending
                + writes[i],
    ensures
        states[n].pending == concat_all(writes.take(n)),
    decreases n,
{
    if n == 0 {
        assert(writes.take(0) =~= Seq::<Seq<u8>>::empty());
    } else {
        pending_is_prefix_concat(states, writes, n - 1);
        assert(writes.take(n).drop_last() =~= writes.take(n - 1));
        assert(states[(n - 1) + 1].pending == states[n - 1].pending + writes[n - 1]);
    }
    if n == writes.len() {
        assert(writes.take(n) =~= writes);
    }
}

/// A channel with room is never reported full: a flush of a handle whose
/// channel has taken fewer frames than it holds either succeeds, with the
/// channel taking exactly the pending bytes as one frame and nothing left
/// pending, or fails, keeping the pending bytes and taking nothing.
pub proof fn flush_with_room_sends(
    before: TerminalHandleView,
    after: TerminalHandleView,
    r: Result<Delivery, ChannelClosed>,
)
    requires
        flushed(before, after, r),
        before.taken.len() < before.capacity,
    ensures
        r is Ok ==> {
            &&& r == Ok::<Delivery, ChannelClosed>(Delivery::Sent)
            &&& after.taken == before.taken.push(before.pending)
            &&& after.taken.len() == before.taken.len() + 1
            &&& after.pending.len() == 0
        },
        r is Err ==> {
            &&& after.taken == before.taken
            &&& after.pending == before.pending
        },
{
}

/// A fresh handle's first flush is never dropped for want of room: the
/// channel takes the pending bytes, or the flush fails.
pub proof fn first_flush_is_not_dropped(
    before: TerminalHandleView,
    after: TerminalHandleView,
    r: Result<Delivery, ChannelClosed>,
)
    requires
        flushed(before, after, r),
        before.taken.len() == 0,
        before.capacity > 0,
    ensures
        r != Ok::<Delivery, ChannelClosed>(Delivery::Full),
        r is Ok ==> after.taken == seq![before.pending],
{
    assert(before.taken.push(before.pending) =~= seq![before.pending]);
}

/// A session starts with one frame: whatever was pending, then the switch to
/// the alternate screen, then the hidden cursor. When the channel has room,
/// `begin_session` either has the channel take exactly that frame, or fails,
/// keeping those bytes pending.
pub proof fn session_start_is_one_frame(
    before: TerminalHandleView,
    after: TerminalHandleView,
    r: Result<Delivery, ChannelClosed>,
)
    requires
        flushed(
            TerminalHandleView {
                pending: before.pending + spec_enter_alt_screen() + spec_hide_cursor(),
                ..before
            },
            after,
            r,
        ),
        before.taken.len() < before.capacity,
    ensures
        r is Ok ==> {
            &&& r == Ok::<Delivery, ChannelClosed>(Delivery::Sent)
            &&& after.taken == before.taken.push(
                before.pending + spec_enter_alt_screen() + spec_hide_cursor(),
            )
            &&& after.pending.len() == 0
        },
        r is Err ==> {
            &&& after.taken == before.taken
            &&& after.pending == before.pending + spec_enter_alt_screen() + spec_hide_cursor()
        },
{
}

} // verus!
