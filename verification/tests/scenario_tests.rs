use std::collections::VecDeque;

use async_mqueue::am::{Action, AsyncMQueue, Direction, Event, Transfer};
use async_mqueue::error::{EAGAIN, EBADF, EMSGSIZE};
use async_mqueue::error::{ErrorKind, QueueError};
use async_mqueue::mqueue::{mq_close, reply, MqAttr, MqdT, Request};
use async_mqueue::simple;

/// A queue in memory that answers requests as a non-blocking kernel queue
/// does.
struct Kernel {
    maxmsg: usize,
    msgsize: usize,
    messages: VecDeque<Vec<u8>>,
    open: Vec<i32>,
    linked: bool,
    attempts: usize,
}

impl Kernel {
    fn new(maxmsg: usize, msgsize: usize) -> Kernel {
        Kernel { maxmsg, msgsize, messages: VecDeque::new(), open: vec![], linked: false, attempts: 0 }
    }

    fn perform(&mut self, request: &Request, buffer: &mut Vec<u8>) -> Result<usize, i32> {
        match request {
            Request::Open { attr, .. } => {
                let attr: MqAttr = attr.unwrap();
                self.maxmsg = attr.maxmsg() as usize;
                self.msgsize = attr.msgsize() as usize;
                self.linked = true;
                let fd = 3 + self.open.len() as i32;
                self.open.push(fd);
                Ok(fd as usize)
            }
            Request::Unlink { .. } => {
                self.linked = false;
                Ok(0)
            }
            Request::Close { fd } => {
                let before = self.open.len();
                self.open.retain(|open| open != fd);
                if self.open.len() < before { Ok(0) } else { Err(EBADF) }
            }
            Request::Send { fd, message, .. } => {
                self.attempts += 1;
                if !self.open.contains(fd) {
                    Err(EBADF)
                } else if message.len() > self.msgsize {
                    Err(EMSGSIZE)
                } else if self.messages.len() >= self.maxmsg {
                    Err(EAGAIN)
                } else {
                    self.messages.push_back(message.clone());
                    Ok(0)
                }
            }
            Request::Receive { fd, capacity } => {
                self.attempts += 1;
                if !self.open.contains(fd) {
                    Err(EBADF)
                } else if *capacity < self.msgsize {
                    Err(EMSGSIZE)
                } else if self.messages.is_empty() {
                    Err(EAGAIN)
                } else {
                    *buffer = self.messages.pop_front().unwrap();
                    Ok(buffer.len())
                }
            }
            _ => Err(EBADF),
        }
    }

    fn ready(&self, direction: Direction) -> bool {
        match direction {
            Direction::Read => !self.messages.is_empty(),
            Direction::Write => self.messages.len() < self.maxmsg,
        }
    }

    fn open_queue(&mut self, request: Request) -> AsyncMQueue {
        let fd = self.perform(&request, &mut vec![]).map(|fd| fd as i32);
        AsyncMQueue::from(MqdT::opened(fd).unwrap())
    }
}

/// Drives a call as a polled driver does, until it completes or suspends.
fn poll(
    kernel: &mut Kernel,
    transfer: &mut Transfer,
    buffer: &mut Vec<u8>,
) -> Option<Result<usize, QueueError>> {
    let mut action = transfer.start();
    loop {
        let event = match action {
            Action::Await(direction) => {
                if kernel.ready(direction) { Event::Ready } else { Event::Pending }
            }
            Action::Attempt(request) => Event::Attempted(kernel.perform(&request, buffer)),
            Action::Suspend => return None,
            Action::Finish(result) => return Some(result),
        };
        action = transfer.step(event);
    }
}

#[test]
fn it_works() {
    let mpath = String::from("/mqueue0");
    let start = 10;
    let mut kernel = Kernel::new(0, 0);
    let sender = kernel.open_queue(simple::create(mpath.clone(), None, None).unwrap());
    let receiver = kernel.open_queue(simple::open(mpath.clone(), None, None).unwrap());
    let data = [0u8; 16];
    let mut received = 0;
    for _ in 0..start {
        let mut buffer = vec![];
        let mut read = receiver.read(simple::DEFAULT_MESSAGE_SIZE);
        assert_eq!(poll(&mut kernel, &mut read, &mut buffer), None);
        let mut write = sender.write(&data);
        assert_eq!(poll(&mut kernel, &mut write, &mut vec![]), Some(Ok(0)));
        assert_eq!(poll(&mut kernel, &mut read, &mut buffer), Some(Ok(16)));
        assert_eq!(buffer, data.to_vec());
        received += 1;
    }
    assert_eq!(received, 10);
    let unlink = simple::unlink(mpath).unwrap();
    assert_eq!(kernel.perform(&unlink, &mut vec![]), Ok(0));
}

#[test]
fn ten_messages_arrive_in_the_order_written() {
    let mut kernel = Kernel::new(0, 0);
    let a = kernel.open_queue(simple::create(String::from("/q1"), Some(10), Some(4096)).unwrap());
    let b = kernel.open_queue(simple::open(String::from("/q1"), Some(10), Some(4096)).unwrap());
    let written: Vec<Vec<u8>> = (0..10).map(|i| format!("msg-{}", i).into_bytes()).collect();
    let mut received: Vec<Vec<u8>> = vec![];
    let mut read = b.read(4096);
    let mut buffer = vec![];
    for message in &written {
        // The reader is parked until the writer has written.
        assert_eq!(poll(&mut kernel, &mut read, &mut buffer), None);
        let mut write = a.write(message);
        assert_eq!(poll(&mut kernel, &mut write, &mut vec![]), Some(Ok(0)));
        assert_eq!(poll(&mut kernel, &mut read, &mut buffer), Some(Ok(message.len())));
        received.push(buffer.clone());
        read = b.read(4096);
    }
    assert_eq!(received, written);
    assert_eq!(received[9], b"msg-9".to_vec());
}

#[test]
fn payload_round_trips() {
    let mut kernel = Kernel::new(0, 0);
    let q = kernel.open_queue(simple::create(String::from("/rt"), Some(2), Some(8)).unwrap());
    for payload in [&b""[..], &b"a"[..], &b"12345678"[..]] {
        let mut write = q.write(payload);
        assert_eq!(poll(&mut kernel, &mut write, &mut vec![]), Some(Ok(0)));
        let mut buffer = vec![0xff];
        let mut read = q.read(8);
        assert_eq!(poll(&mut kernel, &mut read, &mut buffer), Some(Ok(payload.len())));
        assert_eq!(buffer, payload.to_vec());
    }
}

#[test]
fn full_queue_parks_the_writer_and_keeps_the_order() {
    let mut kernel = Kernel::new(0, 0);
    let q = kernel.open_queue(simple::create(String::from("/full"), Some(2), Some(8)).unwrap());
    for payload in [b"one", b"two"] {
        let mut write = q.write(payload);
        assert_eq!(poll(&mut kernel, &mut write, &mut vec![]), Some(Ok(0)));
    }
    let mut parked = q.write(b"three");
    assert_eq!(poll(&mut kernel, &mut parked, &mut vec![]), None);
    assert_eq!(kernel.messages, vec![b"one".to_vec(), b"two".to_vec()]);
    let mut buffer = vec![];
    let mut read = q.read(8);
    assert_eq!(poll(&mut kernel, &mut read, &mut buffer), Some(Ok(3)));
    assert_eq!(buffer, b"one".to_vec());
    assert_eq!(poll(&mut kernel, &mut parked, &mut vec![]), Some(Ok(0)));
    assert_eq!(kernel.messages, vec![b"two".to_vec(), b"three".to_vec()]);
}

#[test]
fn parked_reader_makes_no_attempt() {
    let mut kernel = Kernel::new(0, 0);
    let q = kernel.open_queue(simple::create(String::from("/idle"), None, None).unwrap());
    let mut read = q.read(8192);
    for _ in 0..5 {
        assert_eq!(poll(&mut kernel, &mut read, &mut vec![]), None);
    }
    assert_eq!(kernel.attempts, 0);
}

#[test]
fn spurious_readiness_is_absorbed() {
    let mut kernel = Kernel::new(0, 0);
    let q = kernel.open_queue(simple::create(String::from("/race"), None, None).unwrap());
    let mut read = q.read(8192);
    let mut buffer = vec![];
    // The notifier reports ready although another reader took the message.
    let action = read.step(Event::Ready);
    let outcome = match action {
        Action::Attempt(request) => kernel.perform(&request, &mut buffer),
        _ => panic!("no attempt after readiness"),
    };
    assert_eq!(outcome, Err(EAGAIN));
    assert_eq!(read.step(Event::Attempted(outcome)), Action::Await(Direction::Read));
    assert_eq!(read.result(), None);
    let mut write = q.write(b"late");
    assert_eq!(poll(&mut kernel, &mut write, &mut vec![]), Some(Ok(0)));
    assert_eq!(poll(&mut kernel, &mut read, &mut buffer), Some(Ok(4)));
    assert_eq!(buffer, b"late".to_vec());
}

#[test]
fn unlinked_queue_still_serves_its_descriptors() {
    let mut kernel = Kernel::new(0, 0);
    let q = kernel.open_queue(simple::create(String::from("/gone"), None, None).unwrap());
    let unlink = simple::unlink(String::from("/gone")).unwrap();
    assert_eq!(reply(unlink.operation(), kernel.perform(&unlink, &mut vec![])), Ok(0));
    assert!(!kernel.linked);
    let mut write = q.write(b"still here");
    assert_eq!(poll(&mut kernel, &mut write, &mut vec![]), Some(Ok(0)));
    let mut buffer = vec![];
    let mut read = q.read(8192);
    assert_eq!(poll(&mut kernel, &mut read, &mut buffer), Some(Ok(10)));
    assert_eq!(buffer, b"still here".to_vec());
}

#[test]
fn closed_descriptor_fails_every_call() {
    let mut kernel = Kernel::new(0, 0);
    let q = kernel.open_queue(simple::create(String::from("/shut"), None, None).unwrap());
    let close = mq_close(q.into_inner());
    assert_eq!(close, Request::Close { fd: 3 });
    assert_eq!(kernel.perform(&close, &mut vec![]), Ok(0));
    // Whoever still holds the number finds it dead.
    let stale = AsyncMQueue::from(MqdT::opened(Ok(3)).unwrap());
    let bad = QueueError { kind: ErrorKind::Other(EBADF), raw_code: EBADF };
    let mut read = stale.read(8192);
    let mut write = stale.write(b"x");
    for transfer in [&mut read, &mut write] {
        let outcome = match transfer.step(Event::Ready) {
            Action::Attempt(request) => kernel.perform(&request, &mut vec![]),
            _ => panic!("no attempt after readiness"),
        };
        assert_eq!(transfer.step(Event::Attempted(outcome)), Action::Finish(Err(bad)));
    }
    assert!(kernel.messages.is_empty());
    assert_eq!(kernel.perform(&Request::Close { fd: 3 }, &mut vec![]), Err(EBADF));
}
