use crate::json::DecodeError;
use crate::text::{decimal, to_decimal};
use vstd::prelude::*;
use vstd::string::StringExecFns;

pub mod systems;

verus! {

/// What is asked of the service.
#[derive(Debug, Clone, Copy, PartialEq, Eq, Structural)]
pub enum Request {
    /// The ids of all systems.
    AllIds,
    /// What is known of the system with this id.
    SystemInfo(usize),
}

/// What the service sent back: the status code of the HTTP response and the
/// whole of its body.
#[derive(Debug, Clone, PartialEq, Eq)]
pub struct Response {
    pub status: u16,
    pub body: Vec<u8>,
}

/// A request that brought no usable response.
#[derive(Debug, Clone, PartialEq, Eq)]
pub enum TransportError {
    /// No response came; the transport's own account of it.
    Io(String),
    /// A response came with a status that does not stand for success; its
    /// status code and its body.
    BadStatusCode(u16, Vec<u8>),
}

/// Why a fetch failed.
#[derive(Debug, Clone, PartialEq, Eq)]
pub enum FetchError {
    Transport(TransportError),
    Decode(DecodeError),
}

/// The address under which the service lists the systems.
pub const SYSTEMS_URL: &'static str = "https://esi.tech.ccp.is/latest/universe/systems/";

/// The address that `request` is sent to: that of the list for the ids, and
/// below it the id in base ten and a slash for one system.
pub open spec fn url_of(request: Request) -> Seq<char> {
    match request {
        Request::AllIds => SYSTEMS_URL@,
        Request::SystemInfo(id) => SYSTEMS_URL@ + decimal(id as nat) + "/"@,
    }
}

impl Request {
    /// The address that this request is sent to.
    pub fn url(&self) -> (url: String)
        ensures
            url@ == url_of(*self),
    {
        let mut url = SYSTEMS_URL.to_owned();
        match self {
            Request::AllIds => {},
            Request::SystemInfo(id) => {
                let digits = to_decimal(*id);
                url.append(digits.as_str());
                url.append("/");
            },
        }
        url
    }
}

impl TransportError {
    /// The failure in one line.
    pub open spec fn text(self) -> Seq<char> {
        match self {
            TransportError::Io(account) => account@,
            TransportError::BadStatusCode(_, _) => "BasStatusCode"@,
        }
    }

    /// The failure in one line.
    pub fn message(&self) -> (text: String)
        ensures
            text@ == self.text(),
    {
        match self {
            TransportError::Io(account) => account.clone(),
            TransportError::BadStatusCode(_, _) => "BasStatusCode".to_owned(),
        }
    }

    /// What kind of failure this is.
    pub fn description(&self) -> (text: &str)
        ensures
            text@ == (match self {
                TransportError::Io(account) => account@,
                TransportError::BadStatusCode(_, _) =>
                    "We recieved non successful response code for the given reqeust"@,
            }),
    {
        match self {
            TransportError::Io(account) => account.as_str(),
            TransportError::BadStatusCode(_, _) =>
                "We recieved non successful response code for the given reqeust",
        }
    }
}

impl FetchError {
    /// The failure in one line.
    pub open spec fn text(self) -> Seq<char> {
        match self {
            FetchError::Transport(error) => error.text(),
            FetchError::Decode(error) => error.text(),
        }
    }

    /// The failure in one line.
    pub fn message(&self) -> (text: String)
        ensures
            text@ == self.text(),
    {
        match self {
            FetchError::Transport(error) => error.message(),
            FetchError::Decode(error) => error.message(),
        }
    }
}

} // verus!
