//! Convenience layer: the open, create and unlink requests with the usual
//! defaults filled in.

use vstd::prelude::*;
use vstd::utf8::encode_utf8;
use crate::error::QueueError;
use crate::mqueue::{
    mq_open, mq_unlink, valid_name, MqAttr, Request, RequestView, O_CREAT, O_NONBLOCK, O_RDWR,
    S_IRGRP, S_IROTH, S_IRUSR, S_IWUSR,
};

verus! {

/// The message size of a queue that is opened without one, and the ceiling
/// below which every size that a caller names must stay.
pub const DEFAULT_MESSAGE_SIZE: usize = 8192;

/// The number of messages that a queue holds when the caller names none.
pub const DEFAULT_CHANNEL_SIZE: usize = 10;

/// The flags of every open: read and write, non-blocking, and creation on
/// demand.
pub open spec fn open_flags(create: bool) -> i32 {
    if create {
        O_RDWR | O_CREAT | O_NONBLOCK
    } else {
        O_RDWR | O_NONBLOCK
    }
}

/// The permissions of a queue that is created: read and write for the
/// owner, read for group and others.
pub open spec fn open_mode() -> u32 {
    S_IWUSR | S_IRUSR | S_IRGRP | S_IROTH
}

/// The attributes that an open asks for: no flags, the named capacity or
/// the defaults, and no messages.
pub open spec fn open_attr(msg_channel_size: Option<usize>, msg_size: Option<usize>) -> MqAttr {
    MqAttr {
        mq_flags: 0,
        mq_maxmsg: match msg_channel_size {
            Some(x) => x,
            None => DEFAULT_CHANNEL_SIZE,
        } as i64,
        mq_msgsize: match msg_size {
            Some(x) => x,
            None => DEFAULT_MESSAGE_SIZE,
        } as i64,
        mq_curmsgs: 0,
    }
}

/// The open request of the convenience layer, or the error of a name that
/// is empty or holds a zero byte.
pub open spec fn open_request(
    mpath: Seq<char>,
    create: bool,
    msg_channel_size: Option<usize>,
    msg_size: Option<usize>,
) -> Result<RequestView, QueueError> {
    if valid_name(encode_utf8(mpath)) {
        Ok(
            RequestView::Open {
                name: encode_utf8(mpath),
                oflag: open_flags(create),
                mode: open_mode(),
                attr: Some(open_attr(msg_channel_size, msg_size)),
            },
        )
    } else {
        Err(QueueError::spec_invalid_name())
    }
}

/// The flags and permissions as plain numbers.
pub proof fn lemma_open_numbers()
    ensures
        open_flags(true) == 2114,
        open_flags(false) == 2050,
        open_mode() == 420,
{
    assert(2i32 | 64i32 | 2048i32 == 2114i32) by (bit_vector);
    assert(2i32 | 2048i32 == 2050i32) by (bit_vector);
    assert(128u32 | 256u32 | 32u32 | 4u32 == 420u32) by (bit_vector);
}

/// The request that creates the queue `mpath` if it is absent, and opens it.
/// See [`open_request`].
pub fn create(mpath: String, msg_channel_size: Option<usize>, msg_size: Option<usize>) -> (result:
    Result<Request, QueueError>)
    requires
        msg_size is Some ==> msg_size->Some_0 < DEFAULT_MESSAGE_SIZE,
    ensures
        result is Ok <==> valid_name(encode_utf8(mpath@)),
        match result {
            Ok(request) => Ok(request@),
            Err(e) => Err(e),
        } == open_request(mpath@, true, msg_channel_size, msg_size),
{
    inside_open(mpath, true, msg_channel_size, msg_size)
}

/// The request that opens the queue `mpath`, which must exist. See
/// [`open_request`].
pub fn open(mpath: String, msg_channel_size: Option<usize>, msg_size: Option<usize>) -> (result:
    Result<Request, QueueError>)
    requires
        msg_size is Some ==> msg_size->Some_0 < DEFAULT_MESSAGE_SIZE,
    ensures
        result is Ok <==> valid_name(encode_utf8(mpath@)),
        match result {
            Ok(request) => Ok(request@),
            Err(e) => Err(e),
        } == open_request(mpath@, false, msg_channel_size, msg_size),
{
    inside_open(mpath, false, msg_channel_size, msg_size)
}

/// The request that removes the queue `mpath` from the namespace, or the
/// error of a name that is empty or holds a zero byte. Descriptors that are
/// open on the queue are not touched.
pub fn unlink(mpath: String) -> (result: Result<Request, QueueError>)
    ensures
        valid_name(encode_utf8(mpath@)) ==> result is Ok && result->Ok_0@ == (RequestView::Unlink {
            name: encode_utf8(mpath@),
        }),
        !valid_name(encode_utf8(mpath@)) ==> result == Err::<Request, QueueError>(
            QueueError::spec_invalid_name(),
        ),
{
    mq_unlink(mpath.as_str().as_bytes())
}

/// Whether a message size may be named to [`create`] and [`open`].
pub fn size_in_range(msg_size: Option<usize>) -> (in_range: bool)
    ensures
        in_range == (msg_size is Some ==> msg_size->Some_0 < DEFAULT_MESSAGE_SIZE),
{
    match msg_size {
        Some(x) => x < DEFAULT_MESSAGE_SIZE,
        None => true,
    }
}

pub fn inside_open(
    mpath: String,
    create: bool,
    msg_channel_size: Option<usize>,
    msg_size: Option<usize>,
) -> (result: Result<Request, QueueError>)
    requires
        msg_size is Some ==> msg_size->Some_0 < DEFAULT_MESSAGE_SIZE,
    ensures
        result is Ok <==> valid_name(encode_utf8(mpath@)),
        match result {
            Ok(request) => Ok(request@),
            Err(e) => Err(e),
        } == open_request(mpath@, create, msg_channel_size, msg_size),
{
    let channel_size = if let Some(x) = msg_channel_size {
        x
    } else {
        DEFAULT_CHANNEL_SIZE
    };
    let size = if let Some(x) = msg_size {
        x
    } else {
        DEFAULT_MESSAGE_SIZE
    };
    let attr = MqAttr::new(0, channel_size as i64, size as i64, 0);
    let oflag = if create {
        O_RDWR | O_CREAT | O_NONBLOCK
    } else {
        O_RDWR | O_NONBLOCK
    };
    let mode = S_IWUSR | S_IRUSR | S_IRGRP | S_IROTH;
    mq_open(mpath.as_str().as_bytes(), oflag, mode, Some(&attr))
}

} // verus!
