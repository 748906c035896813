//! Pairs built by the kernel exactly as `plan_pair` asks, on a Unix target
//! with `SOCK_CLOEXEC` and `SOCK_SEQPACKET`.

use rustix::fd::OwnedFd;
use rustix::net::{AddressFamily, RecvFlags, SocketFlags, SocketType};
use socketpair::{plan_pair, Backend, Construction, PairKind};

const HOST: Backend = Backend::UnixSocketpair { atomic_cloexec: true, seqpacket: true };

fn planned_pair(kind: PairKind) -> (OwnedFd, OwnedFd) {
    match plan_pair(HOST, kind).unwrap() {
        Construction::Socketpair { kind, cloexec_flag, cloexec_after } => {
            assert!(cloexec_flag);
            assert!(!cloexec_after);
            let type_ = match kind {
                PairKind::Stream => SocketType::STREAM,
                PairKind::SeqPacket => SocketType::SEQPACKET,
            };
            rustix::net::socketpair(AddressFamily::UNIX, type_, SocketFlags::CLOEXEC, None)
                .unwrap()
        }
        Construction::NamedPipe => panic!("a Unix host never synthesizes from a pipe"),
    }
}

fn write_all(fd: &OwnedFd, mut bytes: &[u8]) {
    while !bytes.is_empty() {
        let n = rustix::io::write(fd, bytes).unwrap();
        bytes = &bytes[n..];
    }
}

fn read_to_end(fd: &OwnedFd) -> Vec<u8> {
    let mut out = Vec::new();
    let mut buf = [0u8; 4096];
    loop {
        let n = rustix::io::read(fd, &mut buf).unwrap();
        if n == 0 {
            return out;
        }
        out.extend_from_slice(&buf[..n]);
    }
}

#[test]
fn planned_ends_are_close_on_exec() {
    let (a, b) = planned_pair(PairKind::Stream);
    assert!(rustix::io::fcntl_getfd(&a).unwrap().contains(rustix::io::FdFlags::CLOEXEC));
    assert!(rustix::io::fcntl_getfd(&b).unwrap().contains(rustix::io::FdFlags::CLOEXEC));
}

#[test]
fn one_way_to_end_of_stream() {
    let (a, b) = planned_pair(PairKind::Stream);
    write_all(&a, b"hello world\n");
    drop(a);
    assert_eq!(read_to_end(&b), b"hello world\n".to_vec());
}

#[test]
fn every_byte_delivered_in_order() {
    let (a, b) = planned_pair(PairKind::Stream);
    let sent: Vec<u8> = (0..10_000u32).map(|i| (i * 7 % 251) as u8).collect();
    let mut received = Vec::new();
    let mut buf = [0u8; 1000];
    for chunk in sent.chunks(1000) {
        write_all(&a, chunk);
        let goal = received.len() + chunk.len();
        while received.len() < goal {
            let n = rustix::io::read(&b, &mut buf).unwrap();
            received.extend_from_slice(&buf[..n]);
        }
    }
    assert_eq!(received, sent);
}

#[test]
fn both_directions_independent() {
    let (a, b) = planned_pair(PairKind::Stream);
    write_all(&a, b"hello world\n");
    write_all(&b, b"greetings\n");
    let mut buf = [0u8; 4096];
    let n = rustix::io::read(&b, &mut buf).unwrap();
    assert_eq!(&buf[..n], b"hello world\n");
    let n = rustix::io::read(&a, &mut buf).unwrap();
    assert_eq!(&buf[..n], b"greetings\n");
    write_all(&a, b"goodbye\n");
    let n = rustix::io::read(&b, &mut buf).unwrap();
    assert_eq!(&buf[..n], b"goodbye\n");
}

#[test]
fn peek_leaves_bytes_and_ready_count_is_exact() {
    let (a, b) = planned_pair(PairKind::Stream);
    write_all(&a, b"hello world\n");
    assert_eq!(rustix::io::ioctl_fionread(&b).unwrap(), 12);

    let mut buf = vec![0u8; 11];
    assert_eq!(rustix::net::recv(&b, &mut buf, RecvFlags::PEEK).unwrap(), 11);
    assert_eq!(buf, b"hello world".to_vec());
    let mut again = vec![0u8; 11];
    assert_eq!(rustix::net::recv(&b, &mut again, RecvFlags::PEEK).unwrap(), 11);
    assert_eq!(again, buf);
    assert_eq!(rustix::io::ioctl_fionread(&b).unwrap(), 12);

    drop(a);
    assert_eq!(read_to_end(&b), b"hello world\n".to_vec());
}

#[test]
fn clone_outlives_original() {
    let (a, b) = planned_pair(PairKind::Stream);
    let c = rustix::io::dup(&b).unwrap();
    write_all(&a, b"hello world\n");
    let mut buf = [0u8; 6];
    assert_eq!(rustix::io::read(&b, &mut buf).unwrap(), 6);
    assert_eq!(&buf, b"hello ");
    drop(b);
    assert_eq!(rustix::io::read(&c, &mut buf).unwrap(), 6);
    assert_eq!(&buf, b"world\n");
}

#[test]
fn seqpacket_keeps_message_boundaries() {
    let (a, b) = planned_pair(PairKind::SeqPacket);
    write_all(&a, b"hello");
    write_all(&a, b"world");
    let mut buf = [0u8; 4096];
    let n = rustix::io::read(&b, &mut buf).unwrap();
    assert_eq!(&buf[..n], b"hello");
    let n = rustix::io::read(&b, &mut buf).unwrap();
    assert_eq!(&buf[..n], b"world");
}

#[test]
fn seqpacket_peek_and_ready_count() {
    let (a, b) = planned_pair(PairKind::SeqPacket);
    write_all(&a, b"hello world\n");
    assert_eq!(rustix::io::ioctl_fionread(&b).unwrap(), 12);
    let mut buf = vec![0u8; 11];
    assert_eq!(rustix::net::recv(&b, &mut buf, RecvFlags::PEEK).unwrap(), 11);
    assert_eq!(buf, b"hello world".to_vec());
    let mut all = [0u8; 4096];
    let n = rustix::io::read(&b, &mut all).unwrap();
    assert_eq!(&all[..n], b"hello world\n");
}
