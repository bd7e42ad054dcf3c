//! The decision logic of one RCON client call.
//!
//! A call opens a connection, sends a login packet carrying the password,
//! checks the login reply, sends one command packet, and reads exactly one
//! reply whose request id must match. The connection itself is plain
//! network I/O and lives outside the library; these functions decide what
//! each reply means.

use vstd::prelude::*;

verus! {

use crate::rcon::RCONPacketError;
use crate::rcon::RconPacket;
use crate::rcon::RconPacketType;

/// Why an RCON call failed.
#[derive(Debug, Clone, Copy, PartialEq, Eq, Structural)]
pub enum RconError {
    /// The server could not be reached, or closed the connection.
    Unreachable,
    /// The server rejected the password.
    AuthFailed,
    /// The server sent a reply that does not answer the request.
    MalformedResponse,
}

/// A connection's request-id counter. Ids start at zero and grow by one per
/// request, so that within one session no two requests share an id.
pub struct RconSession {
    pub next_request_id: i32,
}

impl RconSession {
    /// A fresh session, with ids starting at zero.
    pub fn new() -> (s: RconSession)
        ensures
            s.next_request_id == 0,
    {
        RconSession { next_request_id: 0 }
    }

    /// Hands out the next request id.
    pub fn take_request_id(&mut self) -> (id: i32)
        requires
            old(self).next_request_id < i32::MAX,
        ensures
            id == old(self).next_request_id,
            final(self).next_request_id == id + 1,
    {
        let id = self.next_request_id;
        self.next_request_id = id + 1;
        id
    }
}

/// Builds the login packet for a password.
pub fn login_packet(request_id: i32, password: &str) -> (r: Result<RconPacket, RCONPacketError>)
    ensures
        match r {
            Ok(p) => {
                &&& p.wf()
                &&& p.request_id == request_id
                &&& p.packet_type == RconPacketType::Login
                &&& p.payload@ == password@
            },
            Err(e) => RconPacket::new_would_fail(password@, e),
        },
{
    RconPacket::new(request_id, RconPacketType::Login, password)
}

/// Builds the command packet for a command line.
pub fn command_packet(request_id: i32, command: &str) -> (r: Result<RconPacket, RCONPacketError>)
    ensures
        match r {
            Ok(p) => {
                &&& p.wf()
                &&& p.request_id == request_id
                &&& p.packet_type == RconPacketType::Command
                &&& p.payload@ == command@
            },
            Err(e) => RconPacket::new_would_fail(command@, e),
        },
{
    RconPacket::new(request_id, RconPacketType::Command, command)
}

/// What a login reply means: a reply carrying request id -1 is the server
/// refusing the password; one carrying any id other than the request's is
/// no answer to it; one carrying the request's id accepts the login.
pub fn check_login_reply(sent_id: i32, reply: &RconPacket) -> (r: Result<(), RconError>)
    requires
        sent_id >= 0,
    ensures
        r is Ok <==> reply.request_id == sent_id,
        r == Err::<(), RconError>(RconError::AuthFailed) <==> reply.request_id == -1,
        r == Err::<(), RconError>(RconError::MalformedResponse) <==> reply.request_id != sent_id
            && reply.request_id != -1,
{
    if reply.request_id == -1 {
        Err(RconError::AuthFailed)
    } else if reply.request_id != sent_id {
        Err(RconError::MalformedResponse)
    } else {
        Ok(())
    }
}

/// What a command reply means: only a reply carrying the request's id
/// answers it, and then its payload is the command's output.
pub fn check_command_reply(sent_id: i32, reply: RconPacket) -> (r: Result<String, RconError>)
    ensures
        match r {
            Ok(text) => reply.request_id == sent_id && text@ == reply.payload@,
            Err(e) => reply.request_id != sent_id && e == RconError::MalformedResponse,
        },
{
    if reply.request_id != sent_id {
        Err(RconError::MalformedResponse)
    } else {
        Ok(reply.payload)
    }
}

} // verus!
