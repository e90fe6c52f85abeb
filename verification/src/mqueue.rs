//! The descriptor binding: queue attributes, the owned descriptor, and the
//! kernel request that each queue operation amounts to.
//!
//! Nothing here talks to the kernel. An operation is split in two: a function
//! that checks its arguments and builds the [`Request`] to perform, and
//! [`reply`], which turns what the kernel answered into a typed result. The
//! caller performs the request in between.

use vstd::prelude::*;
use crate::error::{Operation, QueueError};

verus! {

/// Width of one member of the kernel's attribute record.
pub type MqAttrMemberT = i64;

// Open flags, with their Linux values.
pub const O_RDONLY: i32 = 0;
pub const O_WRONLY: i32 = 1;
pub const O_RDWR: i32 = 2;
pub const O_CREAT: i32 = 64;
pub const O_EXCL: i32 = 128;
pub const O_NONBLOCK: i32 = 2048;

// Permission bits.
pub const S_IRUSR: u32 = 256;
pub const S_IWUSR: u32 = 128;
pub const S_IRGRP: u32 = 32;
pub const S_IROTH: u32 = 4;

/// The attributes of a message queue: given when a queue is created, and
/// reported back by the kernel when a descriptor is inspected.
///
/// The value is immutable once built. `mq_curmsgs` is only meaningful in a
/// value that the kernel reported.
#[derive(Clone, Copy, Debug, PartialEq, Eq, Hash, Structural)]
pub struct MqAttr {
    pub mq_flags: MqAttrMemberT,
    pub mq_maxmsg: MqAttrMemberT,
    pub mq_msgsize: MqAttrMemberT,
    pub mq_curmsgs: MqAttrMemberT,
}

impl MqAttr {
    /// Builds an attribute value.
    ///
    /// - `mq_flags`: either `0` or `O_NONBLOCK`.
    /// - `mq_maxmsg`: maximum number of messages on the queue.
    /// - `mq_msgsize`: maximum message size in bytes.
    /// - `mq_curmsgs`: number of messages currently in the queue.
    pub fn new(
        mq_flags: MqAttrMemberT,
        mq_maxmsg: MqAttrMemberT,
        mq_msgsize: MqAttrMemberT,
        mq_curmsgs: MqAttrMemberT,
    ) -> (attr: MqAttr)
        ensures
            attr == (MqAttr { mq_flags, mq_maxmsg, mq_msgsize, mq_curmsgs }),
    {
        MqAttr { mq_flags, mq_maxmsg, mq_msgsize, mq_curmsgs }
    }

    /// The current flags, either `0` or `O_NONBLOCK`.
    pub fn flags(&self) -> (flags: MqAttrMemberT)
        ensures
            flags == self.mq_flags,
    {
        self.mq_flags
    }

    /// The largest number of messages that the queue holds.
    pub fn maxmsg(&self) -> (maxmsg: MqAttrMemberT)
        ensures
            maxmsg == self.mq_maxmsg,
    {
        self.mq_maxmsg
    }

    /// The largest size of one message, in bytes.
    pub fn msgsize(&self) -> (msgsize: MqAttrMemberT)
        ensures
            msgsize == self.mq_msgsize,
    {
        self.mq_msgsize
    }

    /// The number of messages that the queue held when the kernel reported
    /// this value.
    pub fn curmsgs(&self) -> (curmsgs: MqAttrMemberT)
        ensures
            curmsgs == self.mq_curmsgs,
    {
        self.mq_curmsgs
    }

    /// This value with its flags replaced, and every capacity field kept.
    pub open spec fn with_flags(&self, mq_flags: MqAttrMemberT) -> MqAttr {
        MqAttr {
            mq_flags,
            mq_maxmsg: self.mq_maxmsg,
            mq_msgsize: self.mq_msgsize,
            mq_curmsgs: self.mq_curmsgs,
        }
    }
}

/// An open message queue descriptor.
///
/// The descriptor is owned: the type is neither `Clone` nor `Copy`, a value is
/// only made from the kernel's answer to an open request, and closing takes
/// the value away. Two closes of one kernel object can therefore not be
/// written.
#[derive(Debug)]
pub struct MqdT {
    fd: i32,
}

impl MqdT {
    /// The raw descriptor that the kernel knows this queue by.
    pub closed spec fn descriptor(&self) -> i32 {
        self.fd
    }

    /// Hands the descriptor on unchanged.
    pub fn from(self) -> (same: Self)
        ensures
            same.descriptor() == self.descriptor(),
    {
        self
    }

    /// A borrowed view of the raw descriptor, for registering it with a
    /// readiness notifier. Ownership stays with `self`.
    pub fn as_raw_fd(&self) -> (fd: i32)
        ensures
            fd == self.descriptor(),
    {
        self.fd
    }

    /// The descriptor that the kernel's answer to an open request stands
    /// for: the owner of the raw descriptor on success, the typed error of
    /// the kernel code otherwise.
    pub fn opened(outcome: Result<i32, i32>) -> (result: Result<MqdT, QueueError>)
        ensures
            match outcome {
                Ok(fd) => result is Ok && result->Ok_0.descriptor() == fd,
                Err(code) => result is Err && result->Err_0 == QueueError::spec_from_errno(
                    Operation::Open,
                    code,
                ),
            },
    {
        match outcome {
            Ok(fd) => Ok(MqdT { fd }),
            Err(code) => Err(QueueError::from_errno(Operation::Open, code)),
        }
    }

    /// The request that receives the oldest message of highest priority into
    /// a buffer of `capacity` bytes.
    pub fn read(&self, capacity: usize) -> (request: Request)
        ensures
            request@ == (RequestView::Receive { fd: self.descriptor(), capacity }),
    {
        mq_receive(self, capacity)
    }

    /// The request that sends `buf` as one message of priority 0.
    pub fn write(&self, buf: &[u8]) -> (request: Request)
        ensures
            request@ == (RequestView::Send { fd: self.descriptor(), message: buf@, priority: 0 }),
    {
        mq_send(self, buf, 0)
    }
}

/// One call into the kernel, with everything that the call is given.
#[derive(Debug, PartialEq, Eq)]
pub enum Request {
    Open { name: Vec<u8>, oflag: i32, mode: u32, attr: Option<MqAttr> },
    Unlink { name: Vec<u8> },
    Close { fd: i32 },
    Receive { fd: i32, capacity: usize },
    Send { fd: i32, message: Vec<u8>, priority: u32 },
    GetAttr { fd: i32 },
    SetAttr { fd: i32, newattr: MqAttr },
}

/// A [`Request`] as a mathematical value.
pub ghost enum RequestView {
    Open { name: Seq<u8>, oflag: i32, mode: u32, attr: Option<MqAttr> },
    Unlink { name: Seq<u8> },
    Close { fd: i32 },
    Receive { fd: i32, capacity: usize },
    Send { fd: i32, message: Seq<u8>, priority: u32 },
    GetAttr { fd: i32 },
    SetAttr { fd: i32, newattr: MqAttr },
}

impl View for Request {
    type V = RequestView;

    open spec fn view(&self) -> RequestView {
        match *self {
            Request::Open { name, oflag, mode, attr } => RequestView::Open {
                name: name@,
                oflag,
                mode,
                attr,
            },
            Request::Unlink { name } => RequestView::Unlink { name: name@ },
            Request::Close { fd } => RequestView::Close { fd },
            Request::Receive { fd, capacity } => RequestView::Receive { fd, capacity },
            Request::Send { fd, message, priority } => RequestView::Send {
                fd,
                message: message@,
                priority,
            },
            Request::GetAttr { fd } => RequestView::GetAttr { fd },
            Request::SetAttr { fd, newattr } => RequestView::SetAttr { fd, newattr },
        }
    }
}

impl RequestView {
    /// The operation that the request performs.
    pub open spec fn operation(&self) -> Operation {
        match *self {
            RequestView::Open { .. } => Operation::Open,
            RequestView::Unlink { .. } => Operation::Unlink,
            RequestView::Close { .. } => Operation::Close,
            RequestView::Receive { .. } => Operation::Receive,
            RequestView::Send { .. } => Operation::Send,
            RequestView::GetAttr { .. } => Operation::GetAttr,
            RequestView::SetAttr { .. } => Operation::SetAttr,
        }
    }
}

impl Request {
    /// The operation that the request performs.
    pub fn operation(&self) -> (op: Operation)
        ensures
            op == self@.operation(),
    {
        match self {
            Request::Open { .. } => Operation::Open,
            Request::Unlink { .. } => Operation::Unlink,
            Request::Close { .. } => Operation::Close,
            Request::Receive { .. } => Operation::Receive,
            Request::Send { .. } => Operation::Send,
            Request::GetAttr { .. } => Operation::GetAttr,
            Request::SetAttr { .. } => Operation::SetAttr,
        }
    }
}

/// A queue name is acceptable when it is not empty and holds no zero byte.
pub open spec fn valid_name(name: Seq<u8>) -> bool {
    name.len() > 0 && forall|i: int| 0 <= i < name.len() ==> name[i] != 0
}

/// Decides [`valid_name`].
pub fn is_valid_name(name: &[u8]) -> (valid: bool)
    ensures
        valid == valid_name(name@),
{
    if name.len() == 0 {
        return false;
    }
    let mut i: usize = 0;
    while i < name.len()
        invariant
            i <= name.len(),
            forall|j: int| 0 <= j < i ==> name@[j] != 0,
        decreases name.len() - i,
    {
        if name[i] == 0 {
            return false;
        }
        i += 1;
    }
    true
}

/// An owned copy of `bytes`.
pub fn copy_bytes(bytes: &[u8]) -> (copy: Vec<u8>)
    ensures
        copy@ == bytes@,
{
    let mut copy: Vec<u8> = Vec::with_capacity(bytes.len());
    let mut i: usize = 0;
    while i < bytes.len()
        invariant
            i <= bytes.len(),
            copy@ == bytes@.subrange(0, i as int),
        decreases bytes.len() - i,
    {
        copy.push(bytes[i]);
        i += 1;
        assert(copy@ =~= bytes@.subrange(0, i as int));
    }
    assert(bytes@.subrange(0, bytes@.len() as int) =~= bytes@);
    copy
}

/// The request that opens the queue `name`.
///
/// The name is rejected as `InvalidName`, without a request, exactly when it
/// is empty or holds a zero byte. Otherwise the request carries the name,
/// the flags, the permissions and the attributes as they were given.
pub fn mq_open(name: &[u8], oflag: i32, mode: u32, attr: Option<&MqAttr>) -> (result: Result<
    Request,
    QueueError,
>)
    ensures
        valid_name(name@) ==> result is Ok && result->Ok_0@ == (RequestView::Open {
            name: name@,
            oflag,
            mode,
            attr: match attr {
                Some(a) => Some(*a),
                None => None,
            },
        }),
        !valid_name(name@) ==> result == Err::<Request, QueueError>(
            QueueError::spec_invalid_name(),
        ),
{
    if !is_valid_name(name) {
        return Err(QueueError::invalid_name());
    }
    let attr = match attr {
        Some(a) => Some(*a),
        None => None,
    };
    Ok(Request::Open { name: copy_bytes(name), oflag, mode, attr })
}

/// The request that removes the queue `name` from the namespace.
///
/// The name is rejected as `InvalidName`, without a request, exactly when it
/// is empty or holds a zero byte.
pub fn mq_unlink(name: &[u8]) -> (result: Result<Request, QueueError>)
    ensures
        valid_name(name@) ==> result is Ok && result->Ok_0@ == (RequestView::Unlink {
            name: name@,
        }),
        !valid_name(name@) ==> result == Err::<Request, QueueError>(
            QueueError::spec_invalid_name(),
        ),
{
    if !is_valid_name(name) {
        return Err(QueueError::invalid_name());
    }
    Ok(Request::Unlink { name: copy_bytes(name) })
}

/// The request that closes a descriptor. The descriptor is taken: no
/// operation can name it afterwards.
pub fn mq_close(mqdes: MqdT) -> (request: Request)
    ensures
        request@ == (RequestView::Close { fd: mqdes.descriptor() }),
{
    Request::Close { fd: mqdes.fd }
}

/// The request that receives one message into a buffer of `capacity` bytes.
pub fn mq_receive(mqdes: &MqdT, capacity: usize) -> (request: Request)
    ensures
        request@ == (RequestView::Receive { fd: mqdes.descriptor(), capacity }),
{
    Request::Receive { fd: mqdes.fd, capacity }
}

/// The request that sends `message`, whole and unchanged, with priority
/// `msq_prio`.
pub fn mq_send(mqdes: &MqdT, message: &[u8], msq_prio: u32) -> (request: Request)
    ensures
        request@ == (RequestView::Send {
            fd: mqdes.descriptor(),
            message: message@,
            priority: msq_prio,
        }),
{
    Request::Send { fd: mqdes.fd, message: copy_bytes(message), priority: msq_prio }
}

/// The request that reads a descriptor's attributes.
pub fn mq_getattr(mqd: &MqdT) -> (request: Request)
    ensures
        request@ == (RequestView::GetAttr { fd: mqd.descriptor() }),
{
    Request::GetAttr { fd: mqd.fd }
}

/// The request that sets a descriptor's attributes. The kernel only takes
/// the non-blocking flag from `newattr`, and answers with the attributes
/// that held before.
pub fn mq_setattr(mqd: &MqdT, newattr: &MqAttr) -> (request: Request)
    ensures
        request@ == (RequestView::SetAttr { fd: mqd.descriptor(), newattr: *newattr }),
{
    Request::SetAttr { fd: mqd.fd, newattr: *newattr }
}

/// What follows the kernel's answer `current` to a [`mq_getattr`] request
/// when the flags are to become `mq_flags`: the typed error if the answer
/// was one, else the request that sets the flags and keeps the capacity
/// fields that were read.
pub open spec fn spec_change_flags(
    fd: i32,
    mq_flags: MqAttrMemberT,
    current: Result<MqAttr, i32>,
) -> Result<RequestView, QueueError> {
    match current {
        Ok(oldattr) => Ok(RequestView::SetAttr { fd, newattr: oldattr.with_flags(mq_flags) }),
        Err(code) => Err(QueueError::spec_from_errno(Operation::GetAttr, code)),
    }
}

/// Second step of making a descriptor non-blocking; the first is
/// [`mq_getattr`], whose answer is `current`. See [`spec_change_flags`].
pub fn mq_set_nonblock(mqd: &MqdT, current: Result<MqAttr, i32>) -> (result: Result<
    Request,
    QueueError,
>)
    ensures
        result is Ok <==> current is Ok,
        match result {
            Ok(request) => Ok(request@),
            Err(e) => Err(e),
        } == spec_change_flags(mqd.descriptor(), O_NONBLOCK as i64, current),
{
    match current {
        Ok(oldattr) => {
            let newattr = MqAttr::new(
                O_NONBLOCK as i64,
                oldattr.mq_maxmsg,
                oldattr.mq_msgsize,
                oldattr.mq_curmsgs,
            );
            Ok(mq_setattr(mqd, &newattr))
        },
        Err(code) => Err(QueueError::from_errno(Operation::GetAttr, code)),
    }
}

/// Second step of making a descriptor blocking; the first is
/// [`mq_getattr`], whose answer is `current`. See [`spec_change_flags`].
pub fn mq_remove_nonblock(mqd: &MqdT, current: Result<MqAttr, i32>) -> (result: Result<
    Request,
    QueueError,
>)
    ensures
        result is Ok <==> current is Ok,
        match result {
            Ok(request) => Ok(request@),
            Err(e) => Err(e),
        } == spec_change_flags(mqd.descriptor(), 0, current),
{
    match current {
        Ok(oldattr) => {
            let newattr = MqAttr::new(
                0,
                oldattr.mq_maxmsg,
                oldattr.mq_msgsize,
                oldattr.mq_curmsgs,
            );
            Ok(mq_setattr(mqd, &newattr))
        },
        Err(code) => Err(QueueError::from_errno(Operation::GetAttr, code)),
    }
}

/// The typed result of an operation, given the kernel's answer to its
/// request: the value on success, the typed error of the code otherwise.
pub open spec fn spec_reply<T>(op: Operation, outcome: Result<T, i32>) -> Result<T, QueueError> {
    match outcome {
        Ok(value) => Ok(value),
        Err(code) => Err(QueueError::spec_from_errno(op, code)),
    }
}

/// Turns the kernel's answer to a request of `op` into the operation's
/// result. See [`spec_reply`].
pub fn reply<T>(op: Operation, outcome: Result<T, i32>) -> (result: Result<T, QueueError>)
    ensures
        result == spec_reply(op, outcome),
{
    match outcome {
        Ok(value) => Ok(value),
        Err(code) => Err(QueueError::from_errno(op, code)),
    }
}

} // verus!
