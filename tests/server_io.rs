use std::pin::Pin;
use tokio::io::{AsyncRead, AsyncWriteExt, ReadBuf};
use tonic_io::poll::Progress;
use tonic_io::read_cursor::{advance_len, ReadCursor};
use tonic_io::server_io::{
    Connected, NoneConnectInfo, ServerIo, ServerIoConnectInfo, ServerIoMut, ServerIoRef, StreamKind,
};

struct PlainStream {
    written: Vec<u8>,
    peer: u32,
}

struct TlsStream {
    written: Vec<u8>,
    sni: String,
}

impl Connected for PlainStream {
    type ConnectInfo = u32;
    fn info_spec(&self) -> u32 {
        self.peer
    }
    fn connect_info(&self) -> u32 {
        self.peer
    }
}

impl Connected for TlsStream {
    type ConnectInfo = String;
    fn info_spec(&self) -> String {
        self.sni.clone()
    }
    fn connect_info(&self) -> String {
        self.sni.clone()
    }
}

struct BareStream;

impl Connected for BareStream {
    type ConnectInfo = NoneConnectInfo;
    fn info_spec(&self) -> NoneConnectInfo {
        NoneConnectInfo
    }
    fn connect_info(&self) -> NoneConnectInfo {
        NoneConnectInfo
    }
}

fn write(s: &mut ServerIo<PlainStream, TlsStream>, bytes: &[u8]) {
    match s.active_mut() {
        ServerIoMut::Io(io) => io.written.extend_from_slice(bytes),
        ServerIoMut::TlsIo(io) => io.written.extend_from_slice(bytes),
    }
}

#[test]
fn plain_stream_dispatches_to_plain_case_only() {
    let mut s = ServerIo::<PlainStream, TlsStream>::new_io(PlainStream { written: vec![], peer: 7 });
    assert_eq!(s.kind(), StreamKind::Plain);
    write(&mut s, b"abc");
    assert_eq!(s.as_plain().unwrap().written, b"abc".to_vec());
    assert!(s.as_tls().is_none());
    assert_eq!(s.connect_info(), ServerIoConnectInfo::Io(7));
}

#[test]
fn encrypted_stream_dispatches_to_encrypted_case_only() {
    let tls = TlsStream { written: vec![], sni: "example.org".to_string() };
    let mut s = ServerIo::<PlainStream, TlsStream>::new_tls_io(tls);
    assert_eq!(s.kind(), StreamKind::Encrypted);
    write(&mut s, b"xyz");
    assert_eq!(s.as_tls().unwrap().written, b"xyz".to_vec());
    assert!(s.as_plain().is_none());
    assert_eq!(s.connect_info(), ServerIoConnectInfo::TlsIo("example.org".to_string()));
}

#[test]
fn info_kind_matches_stream_kind_for_many_streams() {
    for i in 0u32..16 {
        let s = if i % 3 == 0 {
            ServerIo::<PlainStream, TlsStream>::new_tls_io(TlsStream {
                written: vec![],
                sni: format!("h{}", i),
            })
        } else {
            ServerIo::new_io(PlainStream { written: vec![], peer: i })
        };
        assert_eq!(s.connect_info().kind(), s.kind());
    }
}

#[test]
fn plain_only_server_never_reports_encrypted_info() {
    let s = ServerIo::<BareStream, TlsStream>::new_io(BareStream);
    let info = s.connect_info();
    assert!(matches!(info, ServerIoConnectInfo::Io(NoneConnectInfo)));
    assert_eq!(info.kind(), StreamKind::Plain);
}

#[test]
fn plain_duplex_ping_reads_four_bytes() {
    let rt = tokio::runtime::Builder::new_current_thread().build().unwrap();
    rt.block_on(async {
        let (near, mut far) = tokio::io::duplex(64);
        far.write_all(b"ping").await.unwrap();
        let mut s = ServerIo::<tokio::io::DuplexStream, ()>::new_io(near);
        let mut region = [0u8; 16];
        let mut tbuf = ReadBuf::new(&mut region);
        let result = std::future::poll_fn(|cx| match s.active_mut() {
            ServerIoMut::Io(io) => Pin::new(io).poll_read(cx, &mut tbuf),
            ServerIoMut::TlsIo(_) => unreachable!(),
        })
        .await;
        let outcome = match result {
            Ok(()) => Progress::Ready(Ok(())),
            Err(e) => Progress::Ready(Err(e.kind())),
        };
        let advanced = advance_len(&outcome, tbuf.filled().len());
        assert_eq!(advanced, 4);
        assert_eq!(tbuf.filled(), b"ping");
        let mut c = ReadCursor::new(16);
        assert_eq!(c.read_available(tbuf.filled()), 4);
        assert_eq!(c.filled(), b"ping".to_vec());
    });
}

#[test]
fn connect_info_is_the_active_stream_info_and_repeatable() {
    let mut s = ServerIo::<PlainStream, TlsStream>::new_io(PlainStream { written: vec![], peer: 3 });
    if let ServerIoMut::Io(io) = s.active_mut() {
        io.peer = 11;
    }
    write(&mut s, b"data");
    assert_eq!(s.connect_info(), ServerIoConnectInfo::Io(11));
    assert_eq!(s.connect_info(), s.connect_info());
}

#[test]
fn active_ref_borrows_the_active_case() {
    let s = ServerIo::<PlainStream, TlsStream>::new_tls_io(TlsStream {
        written: b"q".to_vec(),
        sni: "a".to_string(),
    });
    match s.active_ref() {
        ServerIoRef::Io(_) => panic!("plain case on an encrypted stream"),
        ServerIoRef::TlsIo(t) => assert_eq!(t.written, b"q".to_vec()),
    }
}
