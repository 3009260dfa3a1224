//! The target of a console session and the ways in which a session can end.

use crate::text::{decimal, decimal_string};
use vstd::prelude::*;
use vstd::string::StringExecFns;

verus! {

/// What stands between the host and the port in an endpoint.
pub const ENDPOINT_SEPARATOR: &'static str = ":";

/// The console of one game server: where it listens and the shared secret
/// that opens it.
#[derive(Debug, Clone, PartialEq, Eq)]
pub struct ServerAddress {
    pub host: String,
    pub port: u16,
    pub secret: String,
}

/// The mathematical value of a [`ServerAddress`].
pub struct ServerAddressView {
    pub host: Seq<char>,
    pub port: u16,
    pub secret: Seq<char>,
}

impl View for ServerAddress {
    type V = ServerAddressView;

    open spec fn view(&self) -> ServerAddressView {
        ServerAddressView { host: self.host@, port: self.port, secret: self.secret@ }
    }
}

/// The endpoint of a console: host, colon, port in decimal.
pub open spec fn endpoint_text(host: Seq<char>, port: u16) -> Seq<char> {
    host + ENDPOINT_SEPARATOR@ + decimal(port as int)
}

impl ServerAddress {
    /// The endpoint to connect to.
    pub fn endpoint(&self) -> (r: String)
        ensures
            r@ == endpoint_text(self.host@, self.port),
    {
        let mut r = self.host.clone();
        r.append(ENDPOINT_SEPARATOR);
        let port = decimal_string(self.port as i64);
        r.append(port.as_str());
        r
    }
}

/// How one session ended. A session gives exactly one outcome.
#[derive(Debug, Clone, PartialEq, Eq)]
pub enum RconOutcome {
    /// The command ran; this is the text that the server answered.
    Success(String),
    /// The server refused the shared secret.
    AuthFailed,
    /// No connection could be opened.
    ConnectFailed(String),
    /// The server did not answer within the bounded wait.
    Timeout,
    /// The connection broke, or the server sent what the protocol does not allow.
    ProtocolError(String),
}

/// The mathematical value of an [`RconOutcome`].
pub enum OutcomeView {
    Success(Seq<char>),
    AuthFailed,
    ConnectFailed(Seq<char>),
    Timeout,
    ProtocolError(Seq<char>),
}

impl View for RconOutcome {
    type V = OutcomeView;

    open spec fn view(&self) -> OutcomeView {
        match self {
            RconOutcome::Success(body) => OutcomeView::Success(body@),
            RconOutcome::AuthFailed => OutcomeView::AuthFailed,
            RconOutcome::ConnectFailed(cause) => OutcomeView::ConnectFailed(cause@),
            RconOutcome::Timeout => OutcomeView::Timeout,
            RconOutcome::ProtocolError(cause) => OutcomeView::ProtocolError(cause@),
        }
    }
}

impl RconOutcome {
    /// Whether the command ran.
    pub fn is_success(&self) -> (r: bool)
        ensures
            r == (self@ is Success),
    {
        match self {
            RconOutcome::Success(_) => true,
            _ => false,
        }
    }

    /// A copy of this outcome.
    pub fn duplicate(&self) -> (r: RconOutcome)
        ensures
            r@ == self@,
    {
        match self {
            RconOutcome::Success(body) => RconOutcome::Success(body.clone()),
            RconOutcome::AuthFailed => RconOutcome::AuthFailed,
            RconOutcome::ConnectFailed(cause) => RconOutcome::ConnectFailed(cause.clone()),
            RconOutcome::Timeout => RconOutcome::Timeout,
            RconOutcome::ProtocolError(cause) => RconOutcome::ProtocolError(cause.clone()),
        }
    }
}

} // verus!
