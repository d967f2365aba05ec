use vstd::prelude::*;
use rustls::ServerSession;
use crate::errno::Errno;
use crate::iov::{capacity, gather, iov_bytes, iov_capacity, same_shape, scatter};
use crate::tls::{
    accepted_plaintext, buffer_limited, taken_ciphertext, handshaking, new_server_session, received_plaintext,
    rejected, sendable_tls, session_is_handshaking,
    session_process_new_packets, session_read, session_read_tls, session_wants_read,
    session_wants_write, session_write, session_write_tls,
};

verus! {

/// The server side of one TLS connection: the protocol state, the plaintext
/// received and not yet read, and the records waiting to go out.
pub struct TlsSession {
    session: ServerSession,
}

impl TlsSession {
    /// Decrypted application data received and not yet read, in order.
    pub closed spec fn plaintext(&self) -> Seq<u8> {
        received_plaintext(self.session)
    }

    /// Encoded records waiting to be sent on the connection, in order.
    pub closed spec fn outgoing(&self) -> Seq<u8> {
        sendable_tls(self.session)
    }

    /// Whether the handshake is still going on.
    pub closed spec fn handshaking(&self) -> bool {
        handshaking(self.session)
    }

    /// Whether the session has rejected what it received. It keeps that
    /// state: every later decode fails.
    pub closed spec fn rejected(&self) -> bool {
        rejected(self.session)
    }

    /// All plaintext the session has accepted to send, in order.
    pub closed spec fn sent(&self) -> Seq<u8> {
        accepted_plaintext(self.session)
    }

    /// All ciphertext the session has taken in from the connection, in
    /// order.
    pub closed spec fn taken(&self) -> Seq<u8> {
        taken_ciphertext(self.session)
    }

    /// A well-formed session: its buffers have no limit, so a write is
    /// taken whole.
    pub closed spec fn wf(&self) -> bool {
        !buffer_limited(self.session)
    }

    /// A new server session under `config`, about to start its handshake.
    pub fn new(config: &std::sync::Arc<rustls::ServerConfig>) -> (r: TlsSession)
        ensures
            r.wf(),
            r.plaintext().len() == 0,
            r.outgoing().len() == 0,
            r.handshaking(),
            !r.rejected(),
            r.sent().len() == 0,
            r.taken().len() == 0,
    {
        TlsSession { session: new_server_session(config) }
    }

    /// Whether ciphertext should be read from the connection: exactly when
    /// no plaintext is waiting.
    pub fn wants_ciphertext(&self) -> (r: bool)
        ensures
            r == (self.plaintext().len() == 0),
    {
        session_wants_read(&self.session)
    }

    /// Whether records are waiting to be sent on the connection.
    pub fn has_output(&self) -> (r: bool)
        ensures
            r == (self.outgoing().len() > 0),
    {
        session_wants_write(&self.session)
    }

    /// Whether the handshake is still going on.
    pub fn is_handshaking(&self) -> (r: bool)
        ensures
            r == self.handshaking(),
    {
        session_is_handshaking(&self.session)
    }

    /// Takes in the ciphertext that one read from the connection returned,
    /// and decodes the records it completes; returns how many bytes it took
    /// in, which is all of them. An empty `incoming` (the peer closed) only
    /// decodes what was buffered. `Proto` comes exactly when the session has
    /// rejected what it received, now or at an earlier call: the session
    /// keeps that error. `Inval` comes when the record buffer takes no more
    /// bytes although records were decoded without error.
    pub fn receive(&mut self, incoming: &[u8]) -> (r: Result<usize, Errno>)
        requires
            old(self).wf(),
        ensures
            final(self).wf(),
            r is Ok ==> r->Ok_0 == incoming@.len(),
            r is Ok ==> final(self).taken() == old(self).taken() + incoming@,
            r is Ok ==> !final(self).rejected(),
            r == Err::<usize, Errno>(Errno::Proto) <==> final(self).rejected(),
            r is Err ==> r == Err::<usize, Errno>(Errno::Proto) || r == Err::<usize, Errno>(
                Errno::Inval,
            ),
            old(self).rejected() ==> r == Err::<usize, Errno>(Errno::Proto),
            r == Err::<usize, Errno>(Errno::Inval) ==> final(self).taken().len() < old(
                self,
            ).taken().len() + incoming@.len(),
            final(self).sent() == old(self).sent(),
    {
        let len = incoming.len();
        let mut pos: usize = 0;
        loop
            invariant
                pos <= incoming@.len(),
                len == incoming@.len(),
                self.wf(),
                self.sent() == old(self).sent(),
                self.taken() == old(self).taken() + incoming@.take(pos as int),
                old(self).rejected() ==> self.rejected(),
            decreases incoming@.len() - pos,
        {
            let rest = slice_from(incoming, pos);
            let n = match session_read_tls(&mut self.session, rest) {
                Ok(n) => n,
                Err(_) => 0,
            };
            if session_process_new_packets(&mut self.session).is_err() {
                return Err(Errno::Proto);
            }
            assert(incoming@.take(pos as int) + rest@.take(n as int) =~= incoming@.take(
                (pos + n) as int,
            ));
            pos = pos + n;
            if pos >= len {
                assert(incoming@.take(pos as int) =~= incoming@);
                return Ok(len);
            }
            if n == 0 {
                assert(self.taken().len() == old(self).taken().len() + pos);
                return Err(Errno::Inval);
            }
        }
    }

    /// Takes every record waiting to go out, to be sent on the connection.
    pub fn take_output(&mut self) -> (r: Vec<u8>)
        requires
            old(self).wf(),
        ensures
            final(self).wf(),
            r@ == old(self).outgoing(),
            final(self).outgoing().len() == 0,
            final(self).plaintext() == old(self).plaintext(),
            final(self).handshaking() == old(self).handshaking(),
            final(self).rejected() == old(self).rejected(),
            final(self).sent() == old(self).sent(),
            final(self).taken() == old(self).taken(),
    {
        if !session_wants_write(&self.session) {
            return Vec::new();
        }
        match session_write_tls(&mut self.session) {
            Ok(v) => v,
            Err(_) => Vec::new(),
        }
    }

    /// Moves waiting plaintext into the front of `bufs`, as much as they
    /// hold (up to `isize::MAX`, the most one allocation can take), and
    /// returns how many bytes moved. Nothing waiting gives 0: the
    /// end of the stream, or no data yet.
    pub fn read_into(&mut self, bufs: &mut Vec<Vec<u8>>) -> (n: usize)
        requires
            old(self).wf(),
        ensures
            n == vstd::math::min(
                vstd::math::min(iov_capacity(old(bufs)@) as int, isize::MAX as int),
                old(self).plaintext().len() as int,
            ),
            n <= iov_capacity(old(bufs)@),
            same_shape(final(bufs)@, old(bufs)@),
            iov_bytes(final(bufs)@) == old(self).plaintext().take(n as int) + iov_bytes(
                old(bufs)@,
            ).skip(n as int),
            final(self).plaintext() == old(self).plaintext().skip(n as int),
            final(self).outgoing() == old(self).outgoing(),
            final(self).handshaking() == old(self).handshaking(),
            final(self).rejected() == old(self).rejected(),
            final(self).sent() == old(self).sent(),
            final(self).wf(),
            final(self).taken() == old(self).taken(),
    {
        let total = capacity(bufs);
        let cap = if total > isize::MAX as usize {
            isize::MAX as usize
        } else {
            total
        };
        match session_read(&mut self.session, cap) {
            Ok(data) => {
                scatter(bufs, data.as_slice());
                data.len()
            },
            Err(_) => {
                proof {
                    assert(iov_bytes(bufs@).skip(0) =~= iov_bytes(bufs@));
                    assert(old(self).plaintext().take(0) =~= Seq::<u8>::empty());
                    assert(old(self).plaintext().skip(0) =~= old(self).plaintext());
                    assert(iov_bytes(bufs@) =~= Seq::<u8>::empty() + iov_bytes(bufs@));
                }
                0
            },
        }
    }

    /// Hands the bytes of `bufs`, in order, to the session to encrypt; the
    /// session takes them all, and the count is returned.
    pub fn write_from(&mut self, bufs: &Vec<Vec<u8>>) -> (r: usize)
        requires
            old(self).wf(),
        ensures
            r == iov_capacity(bufs@),
            final(self).sent() == old(self).sent() + iov_bytes(bufs@),
            final(self).plaintext() == old(self).plaintext(),
            final(self).rejected() == old(self).rejected(),
            final(self).wf(),
            final(self).taken() == old(self).taken(),
    {
        let data = gather(bufs);
        match session_write(&mut self.session, data.as_slice()) {
            Ok(n) => {
                assert(data@.take(n as int) =~= data@);
                n
            },
            Err(_) => 0,
        }
    }
}

/// What a run of reads hands out: piece `i` is the first `counts[i]` bytes
/// of the plaintext `states[i]` that the `i`-th read found waiting.
pub open spec fn read_pieces(states: Seq<Seq<u8>>, counts: Seq<int>) -> Seq<Seq<u8>> {
    Seq::new(counts.len(), |i: int| states[i].take(counts[i]))
}

/// The sum of the counts.
pub open spec fn total(counts: Seq<int>) -> int
    decreases counts.len(),
{
    if counts.len() == 0 {
        0
    } else {
        total(counts.drop_last()) + counts.last()
    }
}

/// Successive reads hand out the plaintext in the order it arrived, every
/// byte exactly once: where each read takes `counts[i]` bytes from the
/// front of what waits (`read_into`), and nothing arrives in between, the
/// pieces read, one after the other, are the first `total(counts)` bytes
/// that waited at the start, and the rest still waits.
pub proof fn lemma_reads_keep_order(states: Seq<Seq<u8>>, counts: Seq<int>)
    requires
        states.len() == counts.len() + 1,
        forall|i: int|
            0 <= i < counts.len() ==> 0 <= #[trigger] counts[i] <= states[i].len() && states[i
                + 1] == states[i].skip(counts[i]),
    ensures
        0 <= total(counts) <= states[0].len(),
        read_pieces(states, counts).flatten() == states[0].take(total(counts)),
        states[counts.len() as int] == states[0].skip(total(counts)),
    decreases counts.len(),
{
    let pieces = read_pieces(states, counts);
    pieces.lemma_flatten_and_flatten_alt_are_equivalent();
    if counts.len() == 0 {
        assert(states[0].take(0) =~= Seq::<u8>::empty());
        assert(states[0].skip(0) =~= states[0]);
    } else {
        let k = counts.len() - 1;
        let cs = counts.drop_last();
        let ss = states.drop_last();
        assert forall|i: int| 0 <= i < cs.len() implies 0 <= #[trigger] cs[i] <= ss[i].len()
            && ss[i + 1] == ss[i].skip(cs[i]) by {
            assert(cs[i] == counts[i]);
        }
        lemma_reads_keep_order(ss, cs);
        let front = read_pieces(ss, cs);
        front.lemma_flatten_and_flatten_alt_are_equivalent();
        assert(pieces.drop_last() =~= front);
        let t = total(cs);
        let c = counts[k];
        assert(states[0].take(t) + states[k].take(c) =~= states[0].take(t + c));
        assert(states[k].skip(c) =~= states[0].skip(t + c));
    }
}

/// The bytes of `s` from `start` on.
fn slice_from(s: &[u8], start: usize) -> (r: &[u8])
    requires
        start <= s@.len(),
    ensures
        r@ == s@.skip(start as int),
{
    s.split_at(start).1
}

} // verus!
