//! What the Gemini client decides, apart from the connection itself.
//!
//! One request is one connection: resolve the host, connect, shake hands
//! over TLS, write the request line, read until the peer closes, frame what
//! came. Any step may fail, and a failure ends that request; nothing is
//! tried again. The program that owns the socket reports how far it came,
//! and `receive` makes the response of it.

use vstd::prelude::*;
use crate::framing::{frame, framed, FramedResponse, FramedSeq};

verus! {

/// The port of a Gemini server where the endpoint names none.
pub const DEFAULT_PORT: u16 = 1965;

/// How long a connection attempt may take, in seconds. It is the only wait
/// with a bound: handshake and reading have none.
pub const CONNECT_TIMEOUT_SECS: u64 = 5;

/// The settings of the client.
#[derive(Debug, Clone, Copy, PartialEq, Eq, Structural)]
pub struct ClientConfig {
    /// Accept any certificate of the server, and any host name in it.
    ///
    /// With this set the connection is encrypted and the peer is not
    /// authenticated: whoever answers at the address is believed.
    pub insecure_transport: bool,
    /// The port used where the endpoint names none.
    pub default_port: u16,
    /// The bound on a connection attempt, in seconds.
    pub connect_timeout_secs: u64,
}

impl Default for ClientConfig {
    /// The settings of a plain helper: every certificate is accepted, the
    /// port is 1965, a connection attempt may take five seconds.
    fn default() -> (config: ClientConfig)
        ensures
            config.insecure_transport,
            config.default_port == DEFAULT_PORT,
            config.connect_timeout_secs == CONNECT_TIMEOUT_SECS,
    {
        ClientConfig {
            insecure_transport: true,
            default_port: DEFAULT_PORT,
            connect_timeout_secs: CONNECT_TIMEOUT_SECS,
        }
    }
}

/// The step at which a request failed.
#[derive(Debug, Clone, Copy, PartialEq, Eq, Structural)]
pub enum FetchError {
    /// The host did not resolve to an address.
    Resolve,
    /// The connection was refused, or timed out.
    Connect,
    /// The TLS handshake failed.
    Handshake,
    /// The request line could not be written.
    Write,
    /// The response could not be read to its end.
    Read,
    /// The response holds no `CR LF`.
    Framing,
}

impl FetchError {
    /// The error as callers see it. Whatever the step, a caller learns one
    /// thing: the content could not be had.
    pub fn message(&self) -> (text: &'static str)
        ensures
            text@ == "failed to get content"@,
    {
        "failed to get content"
    }
}

/// What `receive` makes of the outcome of a connection: the framed bytes
/// where there are bytes with a delimiter, the failure otherwise.
pub open spec fn received(transport: Result<Seq<u8>, FetchError>) -> Result<FramedSeq, FetchError> {
    match transport {
        Ok(raw) => match framed(raw) {
            Some(f) => Ok(f),
            None => Err(FetchError::Framing),
        },
        Err(e) => Err(e),
    }
}

/// The outcome of a connection, with its bytes as a sequence.
pub open spec fn transport_view(transport: Result<Vec<u8>, FetchError>) -> Result<
    Seq<u8>,
    FetchError,
> {
    match transport {
        Ok(raw) => Ok(raw@),
        Err(e) => Err(e),
    }
}

/// The result of a request, with its bytes as sequences.
pub open spec fn response_view(response: Result<FramedResponse, FetchError>) -> Result<
    FramedSeq,
    FetchError,
> {
    match response {
        Ok(f) => Ok(f@),
        Err(e) => Err(e),
    }
}

/// Ends a request: frames the bytes that the connection gave, or passes on
/// the failure of the connection.
///
/// Bytes without a delimiter are a failure of their own, never an empty
/// body.
pub fn receive(transport: Result<Vec<u8>, FetchError>) -> (response: Result<
    FramedResponse,
    FetchError,
>)
    ensures
        response_view(response) == received(transport_view(transport)),
{
    match transport {
        Ok(raw) => match frame(raw) {
            Ok(f) => Ok(f),
            Err(_) => Err(FetchError::Framing),
        },
        Err(e) => Err(e),
    }
}

} // verus!
