//! The errors of the library.
use vstd::prelude::*;

verus! {

/// What went wrong. Errors raised by I/O around the library carry the
/// message of the underlying error.
#[derive(Debug, Clone, PartialEq, Eq)]
pub enum CrowserError {
    Generic(String),
    IpcError(String),
    IoError(String),
    WebserverSendError(String),
    WebserverRecvError(String),
    NoBrowser(String),
    NoTab(String),
    DoAfterCreate(String),
    DoBeforeCreate(String),
    WebserverError(String),
    CDPError(String),
    WebRequestError(String),
    WebsocketError(String),
    FromUtf8Error(String),
    FlumeSendError(String),
    FlumeRecvError(String),
    Unknown,
}

/// The model of an error: its kind and its message.
pub enum ErrorV {
    Generic(Seq<char>),
    IpcError(Seq<char>),
    IoError(Seq<char>),
    WebserverSendError(Seq<char>),
    WebserverRecvError(Seq<char>),
    NoBrowser(Seq<char>),
    NoTab(Seq<char>),
    DoAfterCreate(Seq<char>),
    DoBeforeCreate(Seq<char>),
    WebserverError(Seq<char>),
    CDPError(Seq<char>),
    WebRequestError(Seq<char>),
    WebsocketError(Seq<char>),
    FromUtf8Error(Seq<char>),
    FlumeSendError(Seq<char>),
    FlumeRecvError(Seq<char>),
    Unknown,
}

impl View for CrowserError {
    type V = ErrorV;

    open spec fn view(&self) -> ErrorV {
        match self {
            CrowserError::Generic(m) => ErrorV::Generic(m@),
            CrowserError::IpcError(m) => ErrorV::IpcError(m@),
            CrowserError::IoError(m) => ErrorV::IoError(m@),
            CrowserError::WebserverSendError(m) => ErrorV::WebserverSendError(m@),
            CrowserError::WebserverRecvError(m) => ErrorV::WebserverRecvError(m@),
            CrowserError::NoBrowser(m) => ErrorV::NoBrowser(m@),
            CrowserError::NoTab(m) => ErrorV::NoTab(m@),
            CrowserError::DoAfterCreate(m) => ErrorV::DoAfterCreate(m@),
            CrowserError::DoBeforeCreate(m) => ErrorV::DoBeforeCreate(m@),
            CrowserError::WebserverError(m) => ErrorV::WebserverError(m@),
            CrowserError::CDPError(m) => ErrorV::CDPError(m@),
            CrowserError::WebRequestError(m) => ErrorV::WebRequestError(m@),
            CrowserError::WebsocketError(m) => ErrorV::WebsocketError(m@),
            CrowserError::FromUtf8Error(m) => ErrorV::FromUtf8Error(m@),
            CrowserError::FlumeSendError(m) => ErrorV::FlumeSendError(m@),
            CrowserError::FlumeRecvError(m) => ErrorV::FlumeRecvError(m@),
            CrowserError::Unknown => ErrorV::Unknown,
        }
    }
}

/// A protocol error with the given message.
pub fn cdp_error(msg: &str) -> (r: CrowserError)
    ensures
        r@ == ErrorV::CDPError(msg@),
{
    CrowserError::CDPError(String::from_str(msg))
}

impl CrowserError {
    /// The heading that the kind of error is shown under.
    pub open spec fn heading_of(e: ErrorV) -> Seq<char> {
        match e {
            ErrorV::Generic(_) => "Generic error: "@,
            ErrorV::IpcError(_) => "IPC error: "@,
            ErrorV::IoError(_) => "IO Error: "@,
            ErrorV::WebserverSendError(_) => "Webserver send error: "@,
            ErrorV::WebserverRecvError(_) => "Webserver receive error: "@,
            ErrorV::NoBrowser(_) => "No browser found: "@,
            ErrorV::NoTab(_) => "No tabs found: "@,
            ErrorV::DoAfterCreate(_) => "Do after create error: "@,
            ErrorV::DoBeforeCreate(_) => "Do before create error: "@,
            ErrorV::WebserverError(_) => "Webserver error: "@,
            ErrorV::CDPError(_) => "CDP error: "@,
            ErrorV::WebRequestError(_) => "Web request error: "@,
            ErrorV::WebsocketError(_) => "Websocket error: "@,
            ErrorV::FromUtf8Error(_) => "UTF-8 error: "@,
            ErrorV::FlumeSendError(_) => "Flume send error: "@,
            ErrorV::FlumeRecvError(_) => "Flume receive error: "@,
            ErrorV::Unknown => "Unknown error"@,
        }
    }

    pub open spec fn detail_of(e: ErrorV) -> Seq<char> {
        match e {
            ErrorV::Generic(m) | ErrorV::IpcError(m) | ErrorV::IoError(m)
            | ErrorV::WebserverSendError(m) | ErrorV::WebserverRecvError(m)
            | ErrorV::NoBrowser(m) | ErrorV::NoTab(m) | ErrorV::DoAfterCreate(m)
            | ErrorV::DoBeforeCreate(m) | ErrorV::WebserverError(m) | ErrorV::CDPError(m)
            | ErrorV::WebRequestError(m) | ErrorV::WebsocketError(m)
            | ErrorV::FromUtf8Error(m) | ErrorV::FlumeSendError(m)
            | ErrorV::FlumeRecvError(m) => m,
            ErrorV::Unknown => Seq::empty(),
        }
    }

    /// The error as a line of text: its heading, then its message.
    pub fn message(&self) -> (r: String)
        ensures
            r@ == Self::heading_of(self@) + Self::detail_of(self@),
    {
        let (heading, detail): (&str, &String) = match self {
            CrowserError::Generic(m) => ("Generic error: ", m),
            CrowserError::IpcError(m) => ("IPC error: ", m),
            CrowserError::IoError(m) => ("IO Error: ", m),
            CrowserError::WebserverSendError(m) => ("Webserver send error: ", m),
            CrowserError::WebserverRecvError(m) => ("Webserver receive error: ", m),
            CrowserError::NoBrowser(m) => ("No browser found: ", m),
            CrowserError::NoTab(m) => ("No tabs found: ", m),
            CrowserError::DoAfterCreate(m) => ("Do after create error: ", m),
            CrowserError::DoBeforeCreate(m) => ("Do before create error: ", m),
            CrowserError::WebserverError(m) => ("Webserver error: ", m),
            CrowserError::CDPError(m) => ("CDP error: ", m),
            CrowserError::WebRequestError(m) => ("Web request error: ", m),
            CrowserError::WebsocketError(m) => ("Websocket error: ", m),
            CrowserError::FromUtf8Error(m) => ("UTF-8 error: ", m),
            CrowserError::FlumeSendError(m) => ("Flume send error: ", m),
            CrowserError::FlumeRecvError(m) => ("Flume receive error: ", m),
            CrowserError::Unknown => {
                return String::from_str("Unknown error");
            },
        };
        let mut r = String::from_str(heading);
        r.append(detail.as_str());
        r
    }
}

} // verus!
