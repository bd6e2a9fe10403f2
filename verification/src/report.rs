//! The wire report that tells the firmware which operating system hosts it.
//!
//! A report is three bytes: the report ID, the command, the code of the
//! operating system. The shorter form of the command, without a code, which
//! only makes the firmware detect the host again, is never built.

use vstd::prelude::*;

verus! {

/// Report-ID byte in front of every report; the transport framing wants it and
/// the protocol gives it no meaning.
pub const REPORT_ID: u8 = 0x00;

/// Command byte: "the host reports its operating system".
pub const COMMAND_HOST_OS: u8 = 0x2A;

/// Number of bytes of one report on the wire.
pub const REPORT_LEN: usize = 3;

/// The operating systems the firmware tells apart.
#[derive(Clone, Copy, Debug, PartialEq, Eq, Structural)]
pub enum HostOs {
    Linux,
    Windows,
    MacOs,
}

impl HostOs {
    /// The code the firmware knows this operating system by.
    pub open spec fn spec_code(self) -> u8 {
        match self {
            HostOs::Linux => 1u8,
            HostOs::Windows => 2u8,
            HostOs::MacOs => 3u8,
        }
    }

    /// The code the firmware knows this operating system by.
    #[verifier::when_used_as_spec(spec_code)]
    pub fn code(self) -> (code: u8)
        ensures
            code == self.spec_code(),
            1 <= code <= 3,
    {
        match self {
            HostOs::Linux => 1,
            HostOs::Windows => 2,
            HostOs::MacOs => 3,
        }
    }

    /// The operating system a firmware code stands for, if it stands for one.
    pub fn from_code(code: u8) -> (os: Option<HostOs>)
        ensures
            os is Some <==> 1 <= code <= 3,
            os matches Some(o) ==> o.spec_code() == code,
    {
        if code == 1 {
            Some(HostOs::Linux)
        } else if code == 2 {
            Some(HostOs::Windows)
        } else if code == 3 {
            Some(HostOs::MacOs)
        } else {
            None
        }
    }
}

/// The bytes of the report that announces `os`, in wire order.
pub open spec fn report_bytes(os: HostOs) -> Seq<u8> {
    seq![REPORT_ID, COMMAND_HOST_OS, os.spec_code()]
}

/// Builds the report that announces `os`: the report-ID byte, the command
/// byte, then the code of the operating system.
pub fn build_report(os: HostOs) -> (report: [u8; 3])
    ensures
        report@ == report_bytes(os),
        report@.len() == REPORT_LEN,
        report[0] == REPORT_ID,
        report[1] == COMMAND_HOST_OS,
        report[2] == os.spec_code(),
{
    let report: [u8; 3] = [REPORT_ID, COMMAND_HOST_OS, os.code()];
    assert(report@ =~= report_bytes(os));
    report
}

} // verus!
