use vstd::prelude::*;

verus! {

/// WebSocket close codes used by the gateway (RFC 6455 range).
#[derive(Debug, Clone, Copy, PartialEq, Eq, Structural)]
pub enum GatewayCloseCode {
    /// Successful operation / regular socket shutdown.
    Normal,
    /// Client is leaving (browser tab closing).
    GoingAway,
    /// Endpoint received a malformed frame.
    ProtocolError,
    /// Endpoint received an unsupported frame (e.g. a binary frame on a text-only endpoint).
    Unsupported,
    /// Expected close status, received none.
    NoStatus,
    /// No close code frame has been received.
    Abnormal,
    /// Endpoint received an inconsistent message (e.g. malformed UTF-8).
    InvalidPayload,
    /// Generic code used for situations other than 1003 and 1009.
    PolicyViolation,
    /// Endpoint won't process a large frame.
    TooLarge,
    /// Client wanted an extension which the server did not negotiate.
    ExtensionRequired,
    /// Internal server error while operating.
    ServerError,
    /// Server/service is restarting.
    ServiceRestart,
    /// Temporary server condition forced blocking the client's request.
    TryAgainLater,
    /// Server acting as gateway received an invalid response.
    BadGateway,
    /// Transport Layer Security handshake failure.
    TLSHandshakeFail,
}

impl GatewayCloseCode {
    /// The numeric code sent in a close frame.
    pub open spec fn spec_code(self) -> u16 {
        match self {
            GatewayCloseCode::Normal => 1000,
            GatewayCloseCode::GoingAway => 1001,
            GatewayCloseCode::ProtocolError => 1002,
            GatewayCloseCode::Unsupported => 1003,
            GatewayCloseCode::NoStatus => 1005,
            GatewayCloseCode::Abnormal => 1006,
            GatewayCloseCode::InvalidPayload => 1007,
            GatewayCloseCode::PolicyViolation => 1008,
            GatewayCloseCode::TooLarge => 1009,
            GatewayCloseCode::ExtensionRequired => 1010,
            GatewayCloseCode::ServerError => 1011,
            GatewayCloseCode::ServiceRestart => 1012,
            GatewayCloseCode::TryAgainLater => 1013,
            GatewayCloseCode::BadGateway => 1014,
            GatewayCloseCode::TLSHandshakeFail => 1015,
        }
    }

    /// The numeric code sent in a close frame.
    pub fn code(&self) -> (r: u16)
        ensures
            r == self.spec_code(),
    {
        match self {
            GatewayCloseCode::Normal => 1000,
            GatewayCloseCode::GoingAway => 1001,
            GatewayCloseCode::ProtocolError => 1002,
            GatewayCloseCode::Unsupported => 1003,
            GatewayCloseCode::NoStatus => 1005,
            GatewayCloseCode::Abnormal => 1006,
            GatewayCloseCode::InvalidPayload => 1007,
            GatewayCloseCode::PolicyViolation => 1008,
            GatewayCloseCode::TooLarge => 1009,
            GatewayCloseCode::ExtensionRequired => 1010,
            GatewayCloseCode::ServerError => 1011,
            GatewayCloseCode::ServiceRestart => 1012,
            GatewayCloseCode::TryAgainLater => 1013,
            GatewayCloseCode::BadGateway => 1014,
            GatewayCloseCode::TLSHandshakeFail => 1015,
        }
    }

    /// The close code a received numeric value stands for; values
    /// that name no known code count as an abnormal closure.
    pub open spec fn spec_from_code(value: u16) -> Self {
        if value == 1000 {
            GatewayCloseCode::Normal
        } else if value == 1001 {
            GatewayCloseCode::GoingAway
        } else if value == 1002 {
            GatewayCloseCode::ProtocolError
        } else if value == 1003 {
            GatewayCloseCode::Unsupported
        } else if value == 1005 {
            GatewayCloseCode::NoStatus
        } else if value == 1007 {
            GatewayCloseCode::InvalidPayload
        } else if value == 1008 {
            GatewayCloseCode::PolicyViolation
        } else if value == 1009 {
            GatewayCloseCode::TooLarge
        } else if value == 1010 {
            GatewayCloseCode::ExtensionRequired
        } else if value == 1011 {
            GatewayCloseCode::ServerError
        } else if value == 1012 {
            GatewayCloseCode::ServiceRestart
        } else if value == 1013 {
            GatewayCloseCode::TryAgainLater
        } else if value == 1014 {
            GatewayCloseCode::BadGateway
        } else if value == 1015 {
            GatewayCloseCode::TLSHandshakeFail
        } else {
            GatewayCloseCode::Abnormal
        }
    }

    /// Interpret a received numeric close code.
    pub fn from_code(value: u16) -> (r: Self)
        ensures
            r == Self::spec_from_code(value),
    {
        match value {
            1000 => GatewayCloseCode::Normal,
            1001 => GatewayCloseCode::GoingAway,
            1002 => GatewayCloseCode::ProtocolError,
            1003 => GatewayCloseCode::Unsupported,
            1005 => GatewayCloseCode::NoStatus,
            1006 => GatewayCloseCode::Abnormal,
            1007 => GatewayCloseCode::InvalidPayload,
            1008 => GatewayCloseCode::PolicyViolation,
            1009 => GatewayCloseCode::TooLarge,
            1010 => GatewayCloseCode::ExtensionRequired,
            1011 => GatewayCloseCode::ServerError,
            1012 => GatewayCloseCode::ServiceRestart,
            1013 => GatewayCloseCode::TryAgainLater,
            1014 => GatewayCloseCode::BadGateway,
            1015 => GatewayCloseCode::TLSHandshakeFail,
            _ => GatewayCloseCode::Abnormal,
        }
    }
}

impl From<u16> for GatewayCloseCode {
    /// Interpret a received numeric close code.
    fn from(value: u16) -> (r: Self) {
        GatewayCloseCode::from_code(value)
    }
}

impl vstd::std_specs::convert::FromSpecImpl<u16> for GatewayCloseCode {
    open spec fn obeys_from_spec() -> bool {
        true
    }

    open spec fn from_spec(value: u16) -> Self {
        GatewayCloseCode::spec_from_code(value)
    }
}

/// Round trip: sending a close code over the wire and reading it
/// back yields the same code, for every variant.
pub proof fn lemma_close_code_round_trip(c: GatewayCloseCode)
    ensures
        GatewayCloseCode::spec_from_code(c.spec_code()) == c,
{
}

} // verus!
