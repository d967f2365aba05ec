use vstd::prelude::*;
use crate::handle::SocketHandle;
use crate::rights::SOCKET_BASE_RIGHTS;
use crate::session::TlsSession;

verus! {

/// What the owner of the connection does next for an operation in progress.
#[derive(Clone, Copy, Debug, PartialEq, Eq, Structural)]
pub enum Action {
    /// Read once from the connection and hand the bytes to
    /// `TlsSession::receive` (no bytes: the peer closed).
    Receive,
    /// Move the caller's plaintext: `preadv` or `pwritev` on the handle.
    Transfer,
    /// Send what `TlsSession::take_output` returns on the connection.
    Send,
    /// The operation is over.
    Finish,
    /// The operation cannot go on and fails: a handshake whose peer closed,
    /// or whose session neither wants ciphertext nor has records to send.
    Abort,
}

/// Where an operation stands in its fixed sequence of steps.
#[derive(Clone, Copy, Debug, PartialEq, Eq, Structural)]
pub enum Stage {
    /// Before anything: a read checks for ciphertext to take in first.
    Start,
    /// Ciphertext is taken in; the plaintext moves next.
    Received,
    /// The plaintext has moved; waiting records go out next.
    Transferred,
    /// Records went out; a write checks for ciphertext to take in.
    Sent,
    /// Nothing is left to do.
    Done,
}

/// The record-layer steps around one read from the session: take in
/// ciphertext if no plaintext waits, move plaintext, send waiting records.
pub struct ReadPump {
    pub stage: Stage,
}

/// The record-layer steps around one write to the session: move plaintext,
/// send waiting records, take in ciphertext if no plaintext waits.
pub struct WritePump {
    pub stage: Stage,
}

/// The steps of a server handshake: while it goes on, take in ciphertext
/// when the session wants it, then send what it has queued. A handshake
/// that can do neither, or whose peer closed, is aborted.
pub struct Handshake {
    /// Whether the next step is the one that sends.
    pub sending: bool,
    /// Whether the last read from the connection brought nothing.
    pub peer_closed: bool,
}

impl ReadPump {
    pub fn new() -> (r: ReadPump)
        ensures
            r.stage == Stage::Start,
    {
        ReadPump { stage: Stage::Start }
    }

    /// The next step, from the session as it is now.
    pub fn next(&mut self, session: &TlsSession) -> (a: Action)
        ensures
            old(self).stage == Stage::Start && session.plaintext().len() == 0 ==> a
                == Action::Receive && final(self).stage == Stage::Received,
            old(self).stage == Stage::Start && session.plaintext().len() > 0 ==> a
                == Action::Transfer && final(self).stage == Stage::Transferred,
            old(self).stage == Stage::Received ==> a == Action::Transfer && final(self).stage
                == Stage::Transferred,
            old(self).stage == Stage::Transferred && session.outgoing().len() > 0 ==> a
                == Action::Send && final(self).stage == Stage::Done,
            old(self).stage == Stage::Transferred && session.outgoing().len() == 0 ==> a
                == Action::Finish && final(self).stage == Stage::Done,
            old(self).stage == Stage::Sent || old(self).stage == Stage::Done ==> a
                == Action::Finish && final(self).stage == Stage::Done,
            a == Action::Receive ==> old(self).stage == Stage::Start,
            a == Action::Send ==> old(self).stage == Stage::Transferred,
    {
        match self.stage {
            Stage::Start => {
                if session.wants_ciphertext() {
                    self.stage = Stage::Received;
                    Action::Receive
                } else {
                    self.stage = Stage::Transferred;
                    Action::Transfer
                }
            },
            Stage::Received => {
                self.stage = Stage::Transferred;
                Action::Transfer
            },
            Stage::Transferred => {
                self.stage = Stage::Done;
                if session.has_output() {
                    Action::Send
                } else {
                    Action::Finish
                }
            },
            _ => {
                self.stage = Stage::Done;
                Action::Finish
            },
        }
    }
}

impl WritePump {
    pub fn new() -> (r: WritePump)
        ensures
            r.stage == Stage::Start,
    {
        WritePump { stage: Stage::Start }
    }

    /// The next step, from the session as it is now.
    pub fn next(&mut self, session: &TlsSession) -> (a: Action)
        ensures
            old(self).stage == Stage::Start ==> a == Action::Transfer && final(self).stage
                == Stage::Transferred,
            old(self).stage == Stage::Transferred && session.outgoing().len() > 0 ==> a
                == Action::Send && final(self).stage == Stage::Sent,
            (old(self).stage == Stage::Sent || (old(self).stage == Stage::Transferred
                && session.outgoing().len() == 0)) && session.plaintext().len() == 0 ==> a
                == Action::Receive && final(self).stage == Stage::Done,
            (old(self).stage == Stage::Sent || (old(self).stage == Stage::Transferred
                && session.outgoing().len() == 0)) && session.plaintext().len() > 0 ==> a
                == Action::Finish && final(self).stage == Stage::Done,
            old(self).stage == Stage::Received || old(self).stage == Stage::Done ==> a
                == Action::Finish && final(self).stage == Stage::Done,
            a == Action::Send ==> old(self).stage == Stage::Transferred,
            a == Action::Receive ==> old(self).stage == Stage::Sent || old(self).stage
                == Stage::Transferred,
    {
        match self.stage {
            Stage::Start => {
                self.stage = Stage::Transferred;
                Action::Transfer
            },
            Stage::Transferred => {
                if session.has_output() {
                    self.stage = Stage::Sent;
                    Action::Send
                } else {
                    self.stage = Stage::Done;
                    if session.wants_ciphertext() {
                        Action::Receive
                    } else {
                        Action::Finish
                    }
                }
            },
            Stage::Sent => {
                self.stage = Stage::Done;
                if session.wants_ciphertext() {
                    Action::Receive
                } else {
                    Action::Finish
                }
            },
            _ => {
                self.stage = Stage::Done;
                Action::Finish
            },
        }
    }
}

impl Handshake {
    pub fn new() -> (r: Handshake)
        ensures
            !r.sending,
            !r.peer_closed,
    {
        Handshake { sending: false, peer_closed: false }
    }

    /// Notes how many bytes the read that a `Receive` asked for brought.
    pub fn received(&mut self, n: usize)
        ensures
            final(self).peer_closed == (n == 0),
            final(self).sending == old(self).sending,
    {
        self.peer_closed = n == 0;
    }

    /// The next step, from the session as it is now. After a receive, the
    /// queued records go out first; then the handshake is over (`Finish`)
    /// if the session has left it, and otherwise ciphertext is read when
    /// the session wants it, records are sent when it has some, and the
    /// handshake is aborted when neither holds or the peer closed.
    pub fn next(&mut self, session: &TlsSession) -> (a: Action)
        ensures
            old(self).sending && session.outgoing().len() > 0 ==> a == Action::Send
                && !final(self).sending,
            (!old(self).sending || session.outgoing().len() == 0) ==> (a == Action::Finish
                <==> !session.handshaking()),
            (!old(self).sending || session.outgoing().len() == 0) && session.handshaking()
                && old(self).peer_closed ==> a == Action::Abort,
            (!old(self).sending || session.outgoing().len() == 0) && session.handshaking()
                && !old(self).peer_closed && session.plaintext().len() == 0 ==> a
                == Action::Receive && final(self).sending,
            (!old(self).sending || session.outgoing().len() == 0) && session.handshaking()
                && !old(self).peer_closed && session.plaintext().len() > 0 ==> (a == Action::Send
                <==> session.outgoing().len() > 0) && (a == Action::Abort <==> session.outgoing(
            ).len() == 0),
            a == Action::Finish ==> !session.handshaking(),
            a == Action::Receive ==> session.handshaking() && session.plaintext().len() == 0,
            a == Action::Send ==> session.outgoing().len() > 0,
            a != Action::Transfer,
            final(self).peer_closed == old(self).peer_closed,
    {
        if self.sending {
            self.sending = false;
            if session.has_output() {
                return Action::Send;
            }
        }
        if !session.is_handshaking() {
            return Action::Finish;
        }
        if self.peer_closed {
            return Action::Abort;
        }
        if session.wants_ciphertext() {
            self.sending = true;
            Action::Receive
        } else if session.has_output() {
            Action::Send
        } else {
            Action::Abort
        }
    }
}

/// The handle of a connection whose handshake is over, or none while the
/// session is still negotiating: no handle is ever made mid-handshake.
pub fn establish(session: &TlsSession) -> (r: Option<SocketHandle>)
    ensures
        r is Some <==> !session.handshaking(),
        r is Some ==> r->Some_0.rights_view().base == SOCKET_BASE_RIGHTS,
        r is Some ==> r->Some_0.rights_view().inheriting == 0,
{
    if session.is_handshaking() {
        None
    } else {
        Some(SocketHandle::new(session))
    }
}

} // verus!
