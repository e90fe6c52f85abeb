//! What the adapter expects of the kernel, written down: a bounded queue of
//! messages that non-blocking descriptors refer to, and a namespace of queue
//! names beside it. Nothing here runs; the model is what the end-to-end laws
//! of the adapter are stated against.
//!
//! Every message has priority 0, as every message that the adapter sends
//! has, so the queue is first in, first out.

use vstd::prelude::*;
use crate::am::{Direction, Event, State, TransferView};
use crate::error::{EAGAIN, EBADF, EMSGSIZE, ENOENT};

verus! {

/// One kernel queue: its capacity, and the messages in it, oldest first.
pub ghost struct QueueModel {
    pub maxmsg: nat,
    pub msgsize: nat,
    pub messages: Seq<Seq<u8>>,
}

impl QueueModel {
    /// The queue holds no more messages than its capacity, and none larger
    /// than its message size.
    pub open spec fn wf(&self) -> bool {
        &&& self.messages.len() <= self.maxmsg
        &&& self.msgsize <= usize::MAX
        &&& forall|i: int|
            0 <= i < self.messages.len() ==> (#[trigger] self.messages[i]).len() <= self.msgsize
    }

    pub open spec fn with_messages(&self, messages: Seq<Seq<u8>>) -> QueueModel {
        QueueModel { messages, ..*self }
    }

    /// A non-blocking send: too large a message is refused, a full queue
    /// would block, and otherwise the message joins the queue at its end.
    pub open spec fn send(&self, message: Seq<u8>) -> (QueueModel, Result<usize, i32>) {
        if message.len() > self.msgsize {
            (*self, Err(EMSGSIZE))
        } else if self.messages.len() >= self.maxmsg {
            (*self, Err(EAGAIN))
        } else {
            (self.with_messages(self.messages.push(message)), Ok(0usize))
        }
    }

    /// A non-blocking receive into a buffer of `capacity` bytes: too small
    /// a buffer is refused, an empty queue would block, and otherwise the
    /// oldest message leaves the queue and is delivered with its length.
    pub open spec fn receive(&self, capacity: usize) -> (
        QueueModel,
        Result<usize, i32>,
        Seq<u8>,
    ) {
        if capacity < self.msgsize {
            (*self, Err(EMSGSIZE), Seq::empty())
        } else if self.messages.len() == 0 {
            (*self, Err(EAGAIN), Seq::empty())
        } else {
            (
                self.with_messages(self.messages.drop_first()),
                Ok(self.messages[0].len() as usize),
                self.messages[0],
            )
        }
    }
}

/// The kernel as far as queues go: which names and which open descriptors
/// refer to which queue.
pub ghost struct KernelModel {
    pub names: Map<Seq<u8>, nat>,
    pub descriptors: Map<i32, nat>,
    pub queues: Map<nat, QueueModel>,
}

impl KernelModel {
    /// Every name and every open descriptor refers to a queue, and every
    /// queue is well formed.
    pub open spec fn wf(&self) -> bool {
        &&& forall|name: Seq<u8>| #[trigger]
            self.names.dom().contains(name) ==> self.queues.dom().contains(self.names[name])
        &&& forall|fd: i32| #[trigger]
            self.descriptors.dom().contains(fd) ==> self.queues.dom().contains(
                self.descriptors[fd],
            )
        &&& forall|id: nat| #[trigger] self.queues.dom().contains(id) ==> self.queues[id].wf()
    }

    pub open spec fn is_open(&self, fd: i32) -> bool {
        self.descriptors.dom().contains(fd)
    }

    /// The queue that an open descriptor refers to.
    pub open spec fn queue_of(&self, fd: i32) -> QueueModel {
        self.queues[self.descriptors[fd]]
    }

    pub open spec fn with_queue_of(&self, fd: i32, queue: QueueModel) -> KernelModel {
        KernelModel { queues: self.queues.insert(self.descriptors[fd], queue), ..*self }
    }

    /// Removing a name leaves every descriptor and every queue as it is.
    pub open spec fn unlink(&self, name: Seq<u8>) -> (KernelModel, Result<usize, i32>) {
        if self.names.dom().contains(name) {
            (KernelModel { names: self.names.remove(name), ..*self }, Ok(0usize))
        } else {
            (*self, Err(ENOENT))
        }
    }

    /// Closing forgets the descriptor.
    pub open spec fn close(&self, fd: i32) -> (KernelModel, Result<usize, i32>) {
        if self.is_open(fd) {
            (KernelModel { descriptors: self.descriptors.remove(fd), ..*self }, Ok(0usize))
        } else {
            (*self, Err(EBADF))
        }
    }

    /// The kernel's answer to the attempt of a call: the kernel afterwards,
    /// the outcome, and the message delivered, if one was.
    pub open spec fn attempt(&self, t: TransferView) -> (
        KernelModel,
        Result<usize, i32>,
        Seq<u8>,
    ) {
        if !self.is_open(t.fd) {
            (*self, Err(EBADF), Seq::empty())
        } else {
            match t.direction {
                Direction::Write => {
                    let (queue, outcome) = self.queue_of(t.fd).send(t.payload);
                    (self.with_queue_of(t.fd, queue), outcome, Seq::empty())
                },
                Direction::Read => {
                    let (queue, outcome, delivered) = self.queue_of(t.fd).receive(t.capacity);
                    (self.with_queue_of(t.fd, queue), outcome, delivered)
                },
            }
        }
    }

    /// One round of a waiting call: the notifier reports the descriptor
    /// ready, the machine attempts, the kernel answers, and the machine
    /// takes the answer. Gives the call and the kernel afterwards, and the
    /// message delivered, if one was.
    pub open spec fn round(&self, t: TransferView) -> (TransferView, KernelModel, Seq<u8>) {
        let (kernel, outcome, delivered) = self.attempt(t);
        (t.step(Event::Ready).0.step(Event::Attempted(outcome)).0, kernel, delivered)
    }

    /// The kernel after one write of each of `payloads` on `fd`, in order,
    /// each given one round.
    pub open spec fn write_all(&self, fd: i32, payloads: Seq<Seq<u8>>) -> KernelModel
        decreases payloads.len(),
    {
        if payloads.len() == 0 {
            *self
        } else {
            self.round(TransferView::writing(fd, payloads[0])).1.write_all(
                fd,
                payloads.drop_first(),
            )
        }
    }

    /// The kernel after `count` reads on `fd`, each given one round, and
    /// the messages that they delivered, in order.
    pub open spec fn read_many(&self, fd: i32, capacity: usize, count: nat) -> (
        KernelModel,
        Seq<Seq<u8>>,
    )
        decreases count,
    {
        if count == 0 {
            (*self, Seq::empty())
        } else {
            let (_, kernel, delivered) = self.round(TransferView::reading(fd, capacity));
            let (last, rest) = kernel.read_many(fd, capacity, (count - 1) as nat);
            (last, seq![delivered] + rest)
        }
    }

    /// A reader and a writer taking turns over `payloads`: for each message
    /// the reader is given a round first, then the writer writes the
    /// message, then the reader is given another round. Gives the kernel
    /// afterwards, what the reader's second rounds delivered, and whether
    /// each turn went as it should: the reader's first round left it parked
    /// as at its start and delivered nothing, the write completed, and the
    /// reader's second round completed with the message's length.
    pub open spec fn relay(
        &self,
        writer: i32,
        reader: i32,
        capacity: usize,
        payloads: Seq<Seq<u8>>,
    ) -> (KernelModel, Seq<Seq<u8>>, bool)
        decreases payloads.len(),
    {
        if payloads.len() == 0 {
            (*self, Seq::empty(), true)
        } else {
            let read = TransferView::reading(reader, capacity);
            let (parked, k1, nothing) = self.round(read);
            let (written, k2, _) = k1.round(TransferView::writing(writer, payloads[0]));
            let (done, k3, delivered) = k2.round(parked);
            let (last, rest, in_turn) = k3.relay(writer, reader, capacity, payloads.drop_first());
            (
                last,
                seq![delivered] + rest,
                in_turn && parked == read && nothing.len() == 0 && written.state
                    == State::Complete(Ok(0)) && done.state == State::Complete(
                    Ok(payloads[0].len() as usize),
                ),
            )
        }
    }
}

/// The model keeps itself well formed: no attempt, unlink or close breaks
/// the kernel's invariant.
pub proof fn lemma_kernel_stays_wf(k: KernelModel, t: TransferView, name: Seq<u8>, fd: i32)
    requires
        k.wf(),
    ensures
        k.attempt(t).0.wf(),
        k.round(t).1.wf(),
        k.unlink(name).0.wf(),
        k.close(fd).0.wf(),
{
    if k.is_open(t.fd) {
        let q = k.queue_of(t.fd);
        assert(q.wf());
        let after = k.attempt(t).0;
        let q1 = after.queues[k.descriptors[t.fd]];
        match t.direction {
            Direction::Write => {
                if q.send(t.payload).1 is Ok {
                    assert forall|i: int| 0 <= i < q1.messages.len() implies (
                    #[trigger] q1.messages[i]).len() <= q1.msgsize by {
                        if i < q.messages.len() {
                            assert(q1.messages[i] == q.messages[i]);
                        }
                    }
                }
            },
            Direction::Read => {
                if q.receive(t.capacity).1 is Ok {
                    assert forall|i: int| 0 <= i < q1.messages.len() implies (
                    #[trigger] q1.messages[i]).len() <= q1.msgsize by {
                        assert(q1.messages[i] == q.messages[i + 1]);
                    }
                }
            },
        }
        assert(q1.wf());
        assert forall|id: nat| #[trigger] after.queues.dom().contains(id) implies after.queues[id].wf() by {
            if id != k.descriptors[t.fd] {
                assert(k.queues.dom().contains(id));
            }
        }
    }
}

/// Round trip: on an empty queue with room for a message, a write of
/// `payload` no larger than the message size completes in one round, and
/// the read that follows, into a buffer no smaller than the message size,
/// completes in one round with exactly `payload`: its bytes and its length.
/// The two calls may use different descriptors of the one queue.
pub proof fn law_round_trip(
    k: KernelModel,
    writer: i32,
    reader: i32,
    payload: Seq<u8>,
    capacity: usize,
)
    requires
        k.wf(),
        k.is_open(writer),
        k.is_open(reader),
        k.descriptors[writer] == k.descriptors[reader],
        k.queue_of(writer).messages.len() == 0,
        k.queue_of(writer).maxmsg >= 1,
        payload.len() <= k.queue_of(writer).msgsize,
        capacity >= k.queue_of(writer).msgsize,
    ensures
        ({
            let (written, k1, _) = k.round(TransferView::writing(writer, payload));
            let (read, k2, delivered) = k1.round(TransferView::reading(reader, capacity));
            &&& written.state == State::Complete(Ok(0))
            &&& read.state == State::Complete(Ok(payload.len() as usize))
            &&& delivered == payload
            &&& k2.queue_of(reader).messages.len() == 0
        }),
{
    let (written, k1, _) = k.round(TransferView::writing(writer, payload));
    let q1 = k1.queue_of(reader);
    assert(q1.messages =~= seq![payload]);
    assert(q1.messages[0] == payload);
}

/// A full queue does not block the writer's thread: the attempt returns at
/// once, the call is parked awaiting writability, and the queue is as it
/// was. Once a receive has freed a place, the next round completes the
/// write, and the messages that were queued keep their order, with the new
/// one behind them.
pub proof fn law_full_queue_parks_the_writer(
    k: KernelModel,
    fd: i32,
    payload: Seq<u8>,
    capacity: usize,
)
    requires
        k.wf(),
        k.is_open(fd),
        k.queue_of(fd).messages.len() == k.queue_of(fd).maxmsg,
        k.queue_of(fd).maxmsg >= 1,
        payload.len() <= k.queue_of(fd).msgsize,
        capacity >= k.queue_of(fd).msgsize,
    ensures
        ({
            let write = TransferView::writing(fd, payload);
            let (parked, k1, _) = k.round(write);
            let (_, k2, oldest) = k1.round(TransferView::reading(fd, capacity));
            let (written, k3, _) = k2.round(parked);
            &&& parked == write
            &&& k1 == k
            &&& oldest == k.queue_of(fd).messages[0]
            &&& written.state == State::Complete(Ok(0))
            &&& k3.queue_of(fd).messages == k.queue_of(fd).messages.drop_first().push(payload)
        }),
{
    let write = TransferView::writing(fd, payload);
    let q = k.queue_of(fd);
    let (parked, k1, _) = k.round(write);
    assert(k.queues.insert(k.descriptors[fd], q) =~= k.queues);
    assert(k1 == k);
    let (_, k2, oldest) = k1.round(TransferView::reading(fd, capacity));
    assert(k2.queue_of(fd).messages == q.messages.drop_first());
}

/// An empty queue parks the reader: the attempt returns at once, nothing
/// is delivered, and the call awaits readability as at its start. Once a
/// message has been sent, the next round completes the read with that
/// message, and the queue is empty again, so that the same holds of the
/// next message, and the one after.
pub proof fn law_empty_queue_parks_the_reader(
    k: KernelModel,
    fd: i32,
    payload: Seq<u8>,
    capacity: usize,
)
    requires
        k.wf(),
        k.is_open(fd),
        k.queue_of(fd).messages.len() == 0,
        k.queue_of(fd).maxmsg >= 1,
        payload.len() <= k.queue_of(fd).msgsize,
        capacity >= k.queue_of(fd).msgsize,
    ensures
        ({
            let read = TransferView::reading(fd, capacity);
            let (parked, k1, nothing) = k.round(read);
            let (_, k2, _) = k1.round(TransferView::writing(fd, payload));
            let (done, k3, delivered) = k2.round(parked);
            &&& parked == read
            &&& k1 == k
            &&& nothing.len() == 0
            &&& done.state == State::Complete(Ok(payload.len() as usize))
            &&& delivered == payload
            &&& k3.queue_of(fd).messages.len() == 0
        }),
{
    let read = TransferView::reading(fd, capacity);
    let q = k.queue_of(fd);
    assert(k.queues.insert(k.descriptors[fd], q) =~= k.queues);
    let (parked, k1, nothing) = k.round(read);
    assert(k1 == k);
    let (_, k2, _) = k1.round(TransferView::writing(fd, payload));
    assert(k2.queue_of(fd).messages =~= seq![payload]);
}

/// After a close, the descriptor is of no use: every read and every write
/// on it ends in one round with the kernel's bad-descriptor error, and
/// touches no queue.
pub proof fn law_closed_descriptor_fails(k: KernelModel, t: TransferView)
    requires
        k.wf(),
        t.state is AwaitingReadiness,
    ensures
        ({
            let closed = k.close(t.fd).0;
            let (done, after, delivered) = closed.round(t);
            &&& done.state == State::Complete(Err(t.error(EBADF)))
            &&& after == closed
            &&& delivered.len() == 0
        }),
{
}

/// Unlinking a name changes nothing for the descriptors that are open:
/// whatever the name, a round of any call on any descriptor has the same
/// result, delivers the same message and leaves the same queues as it
/// would have without the unlink.
pub proof fn law_unlink_keeps_descriptors_working(k: KernelModel, name: Seq<u8>, t: TransferView)
    requires
        k.wf(),
    ensures
        ({
            let unlinked = k.unlink(name).0;
            &&& unlinked.descriptors == k.descriptors
            &&& unlinked.queues == k.queues
            &&& unlinked.round(t).0 == k.round(t).0
            &&& unlinked.round(t).2 == k.round(t).2
            &&& unlinked.round(t).1.queues == k.round(t).1.queues
            &&& unlinked.round(t).1.descriptors == k.round(t).1.descriptors
        }),
{
}

/// Writes that find room join the queue in the order in which they were
/// made, behind what was queued already.
pub proof fn lemma_write_all_appends(k: KernelModel, fd: i32, payloads: Seq<Seq<u8>>)
    requires
        k.wf(),
        k.is_open(fd),
        k.queue_of(fd).messages.len() + payloads.len() <= k.queue_of(fd).maxmsg,
        forall|i: int|
            0 <= i < payloads.len() ==> (#[trigger] payloads[i]).len() <= k.queue_of(fd).msgsize,
    ensures
        k.write_all(fd, payloads).wf(),
        k.write_all(fd, payloads).descriptors == k.descriptors,
        k.write_all(fd, payloads).queue_of(fd) == k.queue_of(fd).with_messages(
            k.queue_of(fd).messages + payloads,
        ),
    decreases payloads.len(),
{
    let q = k.queue_of(fd);
    if payloads.len() == 0 {
        assert(q.messages + payloads =~= q.messages);
    } else {
        let first = TransferView::writing(fd, payloads[0]);
        let k1 = k.round(first).1;
        lemma_kernel_stays_wf(k, first, Seq::empty(), fd);
        let rest = payloads.drop_first();
        assert forall|i: int| 0 <= i < rest.len() implies (#[trigger] rest[i]).len() <= k1.queue_of(
            fd,
        ).msgsize by {
            assert(rest[i] == payloads[i + 1]);
        }
        lemma_write_all_appends(k1, fd, rest);
        assert(q.messages.push(payloads[0]) + rest =~= q.messages + payloads);
    }
}

/// Reads that find a message take the queue's messages from the front, in
/// order.
pub proof fn lemma_read_many_takes_the_front(k: KernelModel, fd: i32, capacity: usize, count: nat)
    requires
        k.wf(),
        k.is_open(fd),
        count <= k.queue_of(fd).messages.len(),
        capacity >= k.queue_of(fd).msgsize,
    ensures
        k.read_many(fd, capacity, count).1 == k.queue_of(fd).messages.subrange(0, count as int),
        k.read_many(fd, capacity, count).0.queue_of(fd) == k.queue_of(fd).with_messages(
            k.queue_of(fd).messages.subrange(count as int, k.queue_of(fd).messages.len() as int),
        ),
    decreases count,
{
    let q = k.queue_of(fd);
    if count == 0 {
        assert(q.messages.subrange(0, 0) =~= Seq::<Seq<u8>>::empty());
        assert(q.messages.subrange(0, q.messages.len() as int) =~= q.messages);
    } else {
        let first = TransferView::reading(fd, capacity);
        let (_, k1, delivered) = k.round(first);
        lemma_kernel_stays_wf(k, first, Seq::empty(), fd);
        lemma_read_many_takes_the_front(k1, fd, capacity, (count - 1) as nat);
        let q1 = k1.queue_of(fd);
        assert(q1.messages == q.messages.drop_first());
        assert(seq![delivered] + q1.messages.subrange(0, count - 1) =~= q.messages.subrange(
            0,
            count as int,
        ));
        assert(q1.messages.subrange(count - 1, q1.messages.len() as int) =~= q.messages.subrange(
            count as int,
            q.messages.len() as int,
        ));
    }
}

/// First in, first out: when one task writes a sequence of messages that
/// the queue has room for, and another then reads all that the queue
/// holds, the reader receives what was queued before and then exactly the
/// writer's sequence, in the writer's order, whatever descriptors of the
/// queue the two use.
pub proof fn law_reads_follow_the_order_of_writes(
    k: KernelModel,
    writer: i32,
    reader: i32,
    payloads: Seq<Seq<u8>>,
    capacity: usize,
)
    requires
        k.wf(),
        k.is_open(writer),
        k.is_open(reader),
        k.descriptors[writer] == k.descriptors[reader],
        k.queue_of(writer).messages.len() + payloads.len() <= k.queue_of(writer).maxmsg,
        forall|i: int|
            0 <= i < payloads.len() ==> (#[trigger] payloads[i]).len() <= k.queue_of(
                writer,
            ).msgsize,
        capacity >= k.queue_of(writer).msgsize,
    ensures
        ({
            let queued = k.queue_of(writer).messages;
            let (after, delivered) = k.write_all(writer, payloads).read_many(
                reader,
                capacity,
                queued.len() + payloads.len(),
            );
            &&& delivered == queued + payloads
            &&& after.queue_of(reader).messages.len() == 0
        }),
{
    let queued = k.queue_of(writer).messages;
    lemma_write_all_appends(k, writer, payloads);
    let k1 = k.write_all(writer, payloads);
    let all = queued + payloads;
    assert(k1.queue_of(reader).messages == all);
    lemma_read_many_takes_the_front(k1, reader, capacity, all.len());
    assert(all.subrange(0, all.len() as int) =~= all);
}

/// No wake-up is missed: when a writer enqueues messages one at a time on
/// an empty queue, and the reader is parked before each, the reader
/// receives every message once it is there and not before, in the order
/// written, and the queue is empty at the end.
pub proof fn law_parked_reader_receives_each_message(
    k: KernelModel,
    writer: i32,
    reader: i32,
    capacity: usize,
    payloads: Seq<Seq<u8>>,
)
    requires
        k.wf(),
        k.is_open(writer),
        k.is_open(reader),
        k.descriptors[writer] == k.descriptors[reader],
        k.queue_of(writer).messages.len() == 0,
        k.queue_of(writer).maxmsg >= 1,
        forall|i: int|
            0 <= i < payloads.len() ==> (#[trigger] payloads[i]).len() <= k.queue_of(
                writer,
            ).msgsize,
        capacity >= k.queue_of(writer).msgsize,
    ensures
        k.relay(writer, reader, capacity, payloads).1 == payloads,
        k.relay(writer, reader, capacity, payloads).2,
        k.relay(writer, reader, capacity, payloads).0.queue_of(reader).messages.len() == 0,
    decreases payloads.len(),
{
    if payloads.len() > 0 {
        let q = k.queue_of(writer);
        let read = TransferView::reading(reader, capacity);
        let write = TransferView::writing(writer, payloads[0]);
        assert(k.queues.insert(k.descriptors[reader], q) =~= k.queues);
        let (parked, k1, nothing) = k.round(read);
        assert(k1 == k);
        let (written, k2, _) = k1.round(write);
        assert(k2.queue_of(reader).messages =~= seq![payloads[0]]);
        let (done, k3, delivered) = k2.round(parked);
        assert(delivered == payloads[0]);
        lemma_kernel_stays_wf(k, write, Seq::empty(), writer);
        lemma_kernel_stays_wf(k2, parked, Seq::empty(), writer);
        let rest = payloads.drop_first();
        assert(k3.queue_of(writer).messages.len() == 0);
        assert(k3.queue_of(writer).msgsize == q.msgsize);
        assert(k3.queue_of(writer).maxmsg == q.maxmsg);
        assert forall|i: int| 0 <= i < rest.len() implies (#[trigger] rest[i]).len() <= k3.queue_of(
            writer,
        ).msgsize by {
            assert(rest[i] == payloads[i + 1]);
        }
        law_parked_reader_receives_each_message(k3, writer, reader, capacity, rest);
        assert(seq![delivered] + rest =~= payloads);
    }
}

} // verus!
