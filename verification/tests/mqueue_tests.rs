use async_mqueue::add;
use async_mqueue::error::{
    ErrorKind, Operation, QueueError, EACCES, EAGAIN, EBADF, EEXIST, EINVAL, EMFILE, EMSGSIZE,
    ENAMETOOLONG, ENFILE, ENOENT, ENOMEM, ENOSPC, EPERM,
};
use async_mqueue::mqueue::{
    copy_bytes, is_valid_name, mq_close, mq_getattr, mq_open, mq_receive, mq_remove_nonblock,
    mq_send, mq_set_nonblock, mq_setattr, mq_unlink, reply, MqAttr, MqdT, Request, O_CREAT,
    O_NONBLOCK, O_RDWR,
};

fn descriptor(fd: i32) -> MqdT {
    MqdT::opened(Ok(fd)).unwrap()
}

#[test]
fn add_sums() {
    assert_eq!(add(2, 2), 4);
    assert_eq!(add(0, u64::MAX), u64::MAX);
}

#[test]
fn attr_accessors_return_fields_verbatim() {
    let attr = MqAttr::new(2048, 10, 4096, 3);
    assert_eq!(attr.flags(), 2048);
    assert_eq!(attr.maxmsg(), 10);
    assert_eq!(attr.msgsize(), 4096);
    assert_eq!(attr.curmsgs(), 3);
    assert_eq!(attr, MqAttr { mq_flags: 2048, mq_maxmsg: 10, mq_msgsize: 4096, mq_curmsgs: 3 });
}

#[test]
fn attr_keeps_negative_and_extreme_members() {
    let attr = MqAttr::new(-1, i64::MAX, i64::MIN, 0);
    assert_eq!(attr.flags(), -1);
    assert_eq!(attr.maxmsg(), i64::MAX);
    assert_eq!(attr.msgsize(), i64::MIN);
    assert_eq!(attr.curmsgs(), 0);
}

#[test]
fn errno_kinds() {
    let kind = |op, code| QueueError::from_errno(op, code).kind();
    assert_eq!(kind(Operation::Open, ENOENT), ErrorKind::NotFound);
    assert_eq!(kind(Operation::Open, EEXIST), ErrorKind::AlreadyExists);
    assert_eq!(kind(Operation::Receive, EAGAIN), ErrorKind::WouldBlock);
    assert_eq!(kind(Operation::Send, EAGAIN), ErrorKind::WouldBlock);
    assert_eq!(kind(Operation::Send, EMSGSIZE), ErrorKind::MessageTooLarge);
    assert_eq!(kind(Operation::Receive, EMSGSIZE), ErrorKind::BufferTooSmall);
    assert_eq!(kind(Operation::GetAttr, EMSGSIZE), ErrorKind::Other(90));
    assert_eq!(kind(Operation::Open, ENAMETOOLONG), ErrorKind::InvalidName);
    assert_eq!(kind(Operation::Unlink, ENAMETOOLONG), ErrorKind::InvalidName);
    assert_eq!(kind(Operation::Send, ENAMETOOLONG), ErrorKind::Other(36));
    assert_eq!(kind(Operation::Open, EACCES), ErrorKind::PermissionDenied);
    assert_eq!(kind(Operation::Unlink, EPERM), ErrorKind::PermissionDenied);
    assert_eq!(kind(Operation::Open, EMFILE), ErrorKind::ResourceExhausted);
    assert_eq!(kind(Operation::Open, ENFILE), ErrorKind::ResourceExhausted);
    assert_eq!(kind(Operation::Open, ENOMEM), ErrorKind::ResourceExhausted);
    assert_eq!(kind(Operation::Open, ENOSPC), ErrorKind::ResourceExhausted);
    assert_eq!(kind(Operation::Close, EBADF), ErrorKind::Other(9));
    assert_eq!(kind(Operation::Open, EINVAL), ErrorKind::Other(22));
    assert_eq!(kind(Operation::Send, 0), ErrorKind::Other(0));
    assert_eq!(kind(Operation::Send, -7), ErrorKind::Other(-7));
}

#[test]
fn errno_numbers_are_the_linux_ones() {
    assert_eq!(
        [EPERM, ENOENT, EBADF, EAGAIN, ENOMEM, EACCES, EEXIST],
        [1, 2, 9, 11, 12, 13, 17]
    );
    assert_eq!([EINVAL, ENFILE, EMFILE, ENOSPC, ENAMETOOLONG, EMSGSIZE], [22, 23, 24, 28, 36, 90]);
}

#[test]
fn error_keeps_the_raw_code() {
    let e = QueueError::from_errno(Operation::Open, ENOENT);
    assert_eq!(e, QueueError { kind: ErrorKind::NotFound, raw_code: 2 });
    assert_eq!(e.raw_code(), 2);
    assert!(!e.is_would_block());
    assert!(QueueError::from_errno(Operation::Send, 11).is_would_block());
    assert_eq!(
        QueueError::invalid_name(),
        QueueError { kind: ErrorKind::InvalidName, raw_code: 22 }
    );
}

#[test]
fn names_without_zero_bytes_are_valid() {
    assert!(is_valid_name(b"/mqueue0"));
    assert!(is_valid_name(b"x"));
    assert!(!is_valid_name(b""));
    assert!(!is_valid_name(b"\0"));
    assert!(!is_valid_name(b"/mq\0ueue"));
    assert!(!is_valid_name(b"/mqueue\0"));
}

#[test]
fn copy_bytes_copies() {
    assert_eq!(copy_bytes(b"msg-0"), b"msg-0".to_vec());
    assert_eq!(copy_bytes(b""), Vec::<u8>::new());
}

#[test]
fn open_request_carries_its_arguments() {
    let attr = MqAttr::new(0, 10, 4096, 0);
    let request = mq_open(b"/q1", O_RDWR | O_CREAT | O_NONBLOCK, 0o644, Some(&attr));
    assert_eq!(
        request,
        Ok(Request::Open { name: b"/q1".to_vec(), oflag: 2114, mode: 420, attr: Some(attr) })
    );
    assert_eq!(
        mq_open(b"/q1", O_RDWR, 0, None),
        Ok(Request::Open { name: b"/q1".to_vec(), oflag: 2, mode: 0, attr: None })
    );
}

#[test]
fn open_rejects_malformed_names() {
    let invalid = QueueError { kind: ErrorKind::InvalidName, raw_code: EINVAL };
    assert_eq!(mq_open(b"", O_RDWR, 0, None), Err(invalid));
    assert_eq!(mq_open(b"/a\0b", O_RDWR, 0, None), Err(invalid));
    assert_eq!(mq_unlink(b""), Err(invalid));
    assert_eq!(mq_unlink(b"\0/q"), Err(invalid));
}

#[test]
fn unlink_request_carries_the_name() {
    assert_eq!(mq_unlink(b"/mqueue0"), Ok(Request::Unlink { name: b"/mqueue0".to_vec() }));
}

#[test]
fn opened_maps_the_kernel_answer() {
    let mqd = MqdT::opened(Ok(7)).unwrap();
    assert_eq!(mqd.as_raw_fd(), 7);
    let mqd = mqd.from();
    assert_eq!(mqd.as_raw_fd(), 7);
    let e = MqdT::opened(Err(ENOENT)).unwrap_err();
    assert_eq!(e, QueueError { kind: ErrorKind::NotFound, raw_code: 2 });
    let e = MqdT::opened(Err(EEXIST)).unwrap_err();
    assert_eq!(e.kind(), ErrorKind::AlreadyExists);
}

#[test]
fn descriptor_requests() {
    let mqd = descriptor(5);
    assert_eq!(mq_receive(&mqd, 8192), Request::Receive { fd: 5, capacity: 8192 });
    assert_eq!(
        mq_send(&mqd, b"msg-3", 4),
        Request::Send { fd: 5, message: b"msg-3".to_vec(), priority: 4 }
    );
    assert_eq!(mq_send(&mqd, b"", 0), Request::Send { fd: 5, message: vec![], priority: 0 });
    assert_eq!(mq_getattr(&mqd), Request::GetAttr { fd: 5 });
    let attr = MqAttr::new(2048, 1, 2, 3);
    assert_eq!(mq_setattr(&mqd, &attr), Request::SetAttr { fd: 5, newattr: attr });
    assert_eq!(mqd.read(16), Request::Receive { fd: 5, capacity: 16 });
    assert_eq!(mqd.write(b"ab"), Request::Send { fd: 5, message: b"ab".to_vec(), priority: 0 });
    assert_eq!(mq_close(mqd), Request::Close { fd: 5 });
}

#[test]
fn request_names_its_operation() {
    let mqd = descriptor(1);
    assert_eq!(mq_open(b"/q", 0, 0, None).unwrap().operation(), Operation::Open);
    assert_eq!(mq_unlink(b"/q").unwrap().operation(), Operation::Unlink);
    assert_eq!(mq_receive(&mqd, 1).operation(), Operation::Receive);
    assert_eq!(mq_send(&mqd, b"", 0).operation(), Operation::Send);
    assert_eq!(mq_getattr(&mqd).operation(), Operation::GetAttr);
    assert_eq!(mq_setattr(&mqd, &MqAttr::new(0, 0, 0, 0)).operation(), Operation::SetAttr);
    assert_eq!(mq_close(mqd).operation(), Operation::Close);
}

#[test]
fn set_nonblock_keeps_the_capacity_fields() {
    let mqd = descriptor(3);
    let old = MqAttr::new(0, 10, 8192, 4);
    assert_eq!(
        mq_set_nonblock(&mqd, Ok(old)),
        Ok(Request::SetAttr { fd: 3, newattr: MqAttr::new(2048, 10, 8192, 4) })
    );
    assert_eq!(O_NONBLOCK, 2048);
    let old = MqAttr::new(2048, 10, 8192, 4);
    assert_eq!(
        mq_remove_nonblock(&mqd, Ok(old)),
        Ok(Request::SetAttr { fd: 3, newattr: MqAttr::new(0, 10, 8192, 4) })
    );
}

#[test]
fn set_nonblock_stops_at_a_failed_getattr() {
    let mqd = descriptor(3);
    let e = QueueError { kind: ErrorKind::Other(EBADF), raw_code: EBADF };
    assert_eq!(mq_set_nonblock(&mqd, Err(EBADF)), Err(e));
    assert_eq!(mq_remove_nonblock(&mqd, Err(EBADF)), Err(e));
}

#[test]
fn reply_maps_only_the_error() {
    assert_eq!(reply(Operation::Receive, Ok(5usize)), Ok(5));
    assert_eq!(reply(Operation::Send, Ok(())), Ok(()));
    let attr = MqAttr::new(0, 10, 8192, 2);
    assert_eq!(reply(Operation::GetAttr, Ok(attr)), Ok(attr));
    assert_eq!(
        reply::<usize>(Operation::Receive, Err(EMSGSIZE)),
        Err(QueueError { kind: ErrorKind::BufferTooSmall, raw_code: 90 })
    );
    assert_eq!(
        reply::<()>(Operation::Send, Err(EMSGSIZE)),
        Err(QueueError { kind: ErrorKind::MessageTooLarge, raw_code: 90 })
    );
    assert_eq!(
        reply::<()>(Operation::Send, Err(EAGAIN)),
        Err(QueueError { kind: ErrorKind::WouldBlock, raw_code: 11 })
    );
}
