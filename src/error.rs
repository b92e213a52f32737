//! Errors that the session surfaces to its user.
use vstd::prelude::*;
use vstd::string::*;

verus! {

#[derive(Debug, Clone, PartialEq, Eq)]
pub enum CommandError {
    IO(String),
    Dfu(String),
    Device(String),
    Retieval(String),
    Http(String),
    Update(String),
}

impl CommandError {
    pub open spec fn spec_message(&self) -> Seq<char> {
        match self {
            CommandError::IO(m) => "unable to retrieve file: "@ + m@,
            CommandError::Dfu(m) => "unable to perform install: "@ + m@,
            CommandError::Device(m) => "unable to send command to device: "@ + m@,
            CommandError::Retieval(m) => "unable to fetch releases: "@ + m@,
            CommandError::Http(m) => "failed to make a request: "@ + m@,
            CommandError::Update(m) => "unable to update: "@ + m@,
        }
    }

    /// A one-line description of the error.
    pub fn message(&self) -> (r: String)
        ensures
            r@ == self.spec_message(),
    {
        let (mut out, m) = match self {
            CommandError::IO(m) => (String::from_str("unable to retrieve file: "), m),
            CommandError::Dfu(m) => (String::from_str("unable to perform install: "), m),
            CommandError::Device(m) => (String::from_str("unable to send command to device: "), m),
            CommandError::Retieval(m) => (String::from_str("unable to fetch releases: "), m),
            CommandError::Http(m) => (String::from_str("failed to make a request: "), m),
            CommandError::Update(m) => (String::from_str("unable to update: "), m),
        };
        out.append(m.as_str());
        out
    }

    /// An equal copy of the error.
    pub fn duplicate(&self) -> (r: CommandError)
        ensures
            r == *self,
    {
        match self {
            CommandError::IO(m) => CommandError::IO(m.clone()),
            CommandError::Dfu(m) => CommandError::Dfu(m.clone()),
            CommandError::Device(m) => CommandError::Device(m.clone()),
            CommandError::Retieval(m) => CommandError::Retieval(m.clone()),
            CommandError::Http(m) => CommandError::Http(m.clone()),
            CommandError::Update(m) => CommandError::Update(m.clone()),
        }
    }
}

} // verus!
