use vstd::prelude::*;
use rustls::ServerSession;
use rustls::Session;
use std::io::Read;
use std::io::Write;

verus! {

#[verifier::external_type_specification]
#[verifier::external_body]
pub struct ExServerSession(rustls::ServerSession);

#[verifier::external_type_specification]
#[verifier::external_body]
pub struct ExServerConfig(rustls::ServerConfig);

/// The decrypted application data that a session has received and not yet
/// handed out, in order.
pub uninterp spec fn received_plaintext(s: ServerSession) -> Seq<u8>;

/// The encoded TLS records that a session has queued for the peer, in order.
pub uninterp spec fn sendable_tls(s: ServerSession) -> Seq<u8>;

/// Whether a session is still negotiating, before application traffic.
pub uninterp spec fn handshaking(s: ServerSession) -> bool;

/// Whether a session has rejected what it received: it holds a stored
/// protocol error, or its record buffer lost the record boundaries.
pub uninterp spec fn rejected(s: ServerSession) -> bool;

/// Whether a limit was set on a session's outgoing buffers.
pub uninterp spec fn buffer_limited(s: ServerSession) -> bool;

/// All plaintext that a session has accepted to send, in order.
pub uninterp spec fn accepted_plaintext(s: ServerSession) -> Seq<u8>;

/// All ciphertext that a session has taken in from the connection, in order.
pub uninterp spec fn taken_ciphertext(s: ServerSession) -> Seq<u8>;

/// Relies on rustls's `ServerSession::new`: a new session has sent and
/// received nothing, is negotiating, has rejected nothing, and its buffers
/// have no limit.
#[verifier::external_body]
pub(crate) fn new_server_session(config: &std::sync::Arc<rustls::ServerConfig>) -> (s: ServerSession)
    ensures
        received_plaintext(s).len() == 0,
        sendable_tls(s).len() == 0,
        handshaking(s),
        !rejected(s),
        !buffer_limited(s),
        accepted_plaintext(s).len() == 0,
        taken_ciphertext(s).len() == 0,
{
    ServerSession::new(config)
}

/// Relies on rustls's `ServerSession::wants_read`: true exactly when no
/// received plaintext is waiting.
#[verifier::external_body]
pub(crate) fn session_wants_read(s: &ServerSession) -> (r: bool)
    ensures
        r == (received_plaintext(*s).len() == 0),
{
    s.wants_read()
}

/// Relies on rustls's `ServerSession::wants_write`: true exactly when TLS
/// records are queued for the peer.
#[verifier::external_body]
pub(crate) fn session_wants_write(s: &ServerSession) -> (r: bool)
    ensures
        r == (sendable_tls(*s).len() > 0),
{
    s.wants_write()
}

/// Relies on rustls's `ServerSession::is_handshaking`.
#[verifier::external_body]
pub(crate) fn session_is_handshaking(s: &ServerSession) -> (r: bool)
    ensures
        r == handshaking(*s),
{
    s.is_handshaking()
}

/// Relies on rustls's `ServerSession::read_tls`, reading from a byte slice:
/// it takes a prefix of the bytes into its record buffer, and touches
/// neither the plaintext nor the outgoing queue. Reading a slice never
/// fails; a record that cannot be framed marks the session as rejected.
#[verifier::external_body]
pub(crate) fn session_read_tls(s: &mut ServerSession, data: &[u8]) -> (r: Result<usize, ()>)
    ensures
        r is Ok,
        r->Ok_0 <= data@.len(),
        taken_ciphertext(*final(s)) == taken_ciphertext(*old(s)) + data@.take(r->Ok_0 as int),
        rejected(*old(s)) ==> rejected(*final(s)),
        buffer_limited(*final(s)) == buffer_limited(*old(s)),
        accepted_plaintext(*final(s)) == accepted_plaintext(*old(s)),
        received_plaintext(*final(s)) == received_plaintext(*old(s)),
        sendable_tls(*final(s)) == sendable_tls(*old(s)),
        handshaking(*final(s)) == handshaking(*old(s)),
{
    let mut rd: &[u8] = data;
    s.read_tls(&mut rd).map_err(|_| ())
}

/// Relies on rustls's `ServerSession::process_new_packets`: it decodes the
/// buffered records, and fails exactly when the session has rejected what
/// it received, now or before: the error is stored and never cleared.
#[verifier::external_body]
pub(crate) fn session_process_new_packets(s: &mut ServerSession) -> (r: Result<(), ()>)
    ensures
        r is Err <==> rejected(*final(s)),
        rejected(*old(s)) ==> rejected(*final(s)),
        buffer_limited(*final(s)) == buffer_limited(*old(s)),
        accepted_plaintext(*final(s)) == accepted_plaintext(*old(s)),
        taken_ciphertext(*final(s)) == taken_ciphertext(*old(s)),
{
    s.process_new_packets().map_err(|_| ())
}

/// Relies on rustls's `ServerSession::write_tls`, writing into a vector: the
/// whole outgoing queue is moved into the result, in order; writing into a
/// vector never fails.
#[verifier::external_body]
pub(crate) fn session_write_tls(s: &mut ServerSession) -> (r: Result<Vec<u8>, ()>)
    ensures
        r is Ok,
        r->Ok_0@ == sendable_tls(*old(s)),
        sendable_tls(*final(s)).len() == 0,
        rejected(*final(s)) == rejected(*old(s)),
        buffer_limited(*final(s)) == buffer_limited(*old(s)),
        accepted_plaintext(*final(s)) == accepted_plaintext(*old(s)),
        taken_ciphertext(*final(s)) == taken_ciphertext(*old(s)),
        received_plaintext(*final(s)) == received_plaintext(*old(s)),
        handshaking(*final(s)) == handshaking(*old(s)),
{
    let mut out: Vec<u8> = Vec::new();
    match s.write_tls(&mut out) {
        Ok(_) => Ok(out),
        Err(_) => Err(()),
    }
}

/// Relies on rustls's `Read` impl for `ServerSession`: it hands out the
/// front of the received plaintext, as much as fits in `max` bytes, and
/// fails only when none is waiting and the peer has closed the session.
/// The buffer it reads into is allocated first, so `max` is bounded.
#[verifier::external_body]
pub(crate) fn session_read(s: &mut ServerSession, max: usize) -> (r: Result<Vec<u8>, ()>)
    requires
        max <= isize::MAX,
    ensures
        r is Ok ==> r->Ok_0@ == received_plaintext(*old(s)).take(
            vstd::math::min(max as int, received_plaintext(*old(s)).len() as int),
        ),
        r is Ok ==> received_plaintext(*final(s)) == received_plaintext(*old(s)).skip(
            vstd::math::min(max as int, received_plaintext(*old(s)).len() as int),
        ),
        r is Err ==> received_plaintext(*old(s)).len() == 0,
        r is Err ==> received_plaintext(*final(s)) == received_plaintext(*old(s)),
        sendable_tls(*final(s)) == sendable_tls(*old(s)),
        handshaking(*final(s)) == handshaking(*old(s)),
        rejected(*final(s)) == rejected(*old(s)),
        buffer_limited(*final(s)) == buffer_limited(*old(s)),
        accepted_plaintext(*final(s)) == accepted_plaintext(*old(s)),
        taken_ciphertext(*final(s)) == taken_ciphertext(*old(s)),
{
    let mut buf: Vec<u8> = vec![0u8; max];
    match s.read(&mut buf) {
        Ok(n) => {
            buf.truncate(n);
            Ok(buf)
        },
        Err(_) => Err(()),
    }
}

/// Relies on rustls's `Write` impl for `ServerSession`: it always succeeds,
/// accepting a prefix of `data` to encrypt and send (all of it where no
/// buffer limit is set), and hands out no plaintext.
#[verifier::external_body]
pub(crate) fn session_write(s: &mut ServerSession, data: &[u8]) -> (r: Result<usize, ()>)
    ensures
        r is Ok,
        r->Ok_0 <= data@.len(),
        !buffer_limited(*old(s)) ==> r->Ok_0 == data@.len(),
        accepted_plaintext(*final(s)) == accepted_plaintext(*old(s)) + data@.take(
            r->Ok_0 as int,
        ),
        received_plaintext(*final(s)) == received_plaintext(*old(s)),
        rejected(*final(s)) == rejected(*old(s)),
        buffer_limited(*final(s)) == buffer_limited(*old(s)),
        taken_ciphertext(*final(s)) == taken_ciphertext(*old(s)),
{
    s.write(data).map_err(|_| ())
}

} // verus!
