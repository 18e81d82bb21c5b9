//! The tunnel client: the process identifier of a running tunnel and the
//! OpenVPN specific parts.

pub mod openvpn;

use crate::cache::CachedObject;
use crate::text::{decimal, decimal_text, parse_u32, parse_u32_text, trim, trim_text};
use vstd::prelude::*;
use vstd::std_specs::convert::{FromSpecImpl, TryFromSpecImpl};

verus! {

/// Identifier of an operating system process.
#[derive(Clone, Copy, Debug, PartialEq, Eq, Structural)]
pub struct Pid(u32);

/// A text that is no process identifier.
#[derive(Debug)]
pub struct PidParseError {
    /// The text as it was given.
    pub text: String,
}

impl View for Pid {
    type V = u32;

    closed spec fn view(&self) -> u32 {
        self.0
    }
}

impl Pid {
    /// The process with the given number.
    pub closed spec fn of(value: u32) -> Pid {
        Pid(value)
    }

    /// What a text denotes as a process identifier: white space around it is
    /// ignored, the rest is an unsigned 32-bit decimal number.
    pub open spec fn parse(text: Seq<char>) -> Option<u32> {
        parse_u32(trim(text))
    }

    /// A process is known by its number alone.
    pub proof fn lemma_view(self)
        ensures
            self == Pid::of(self@),
            forall|n: u32| #[trigger] Pid::of(n)@ == n,
    {
    }

    pub fn as_u32(&self) -> (value: u32)
        ensures
            value == self@,
    {
        self.0
    }

    /// The decimal notation of the identifier.
    pub fn to_string(&self) -> (out: String)
        ensures
            out@ == decimal(self@ as nat),
    {
        decimal_text(self.0)
    }
}

impl From<u32> for Pid {
    fn from(value: u32) -> (pid: Pid) {
        Pid(value)
    }
}

impl FromSpecImpl<u32> for Pid {
    open spec fn obeys_from_spec() -> bool {
        true
    }

    open spec fn from_spec(value: u32) -> Pid {
        Pid::of(value)
    }
}

impl TryFrom<String> for Pid {
    type Error = PidParseError;

    fn try_from(value: String) -> (r: Result<Pid, PidParseError>) {
        let parsed = parse_u32_text(trim_text(value.as_str()));
        match parsed {
            Some(n) => Ok(Pid(n)),
            None => Err(PidParseError { text: value }),
        }
    }
}

impl TryFromSpecImpl<String> for Pid {
    open spec fn obeys_try_from_spec() -> bool {
        true
    }

    open spec fn try_from_spec(value: String) -> Result<Pid, PidParseError> {
        match Pid::parse(value@) {
            Some(n) => Ok(Pid::of(n)),
            None => Err(PidParseError { text: value }),
        }
    }
}

impl CachedObject for Pid {
    open spec fn spec_filename() -> Seq<char> {
        "pid"@
    }

    fn filename() -> (name: &'static str) {
        "pid"
    }
}

} // verus!
