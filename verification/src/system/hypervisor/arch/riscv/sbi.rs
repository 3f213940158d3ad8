//! SBI (supervisor binary interface) calls.
use vstd::prelude::*;

verus! {

/// SBI extensions; each has its number (see `number`).
#[derive(PartialEq, Eq, Structural, Clone, Copy, Debug)]
pub enum Extension {
    SetTimer,
    ConsolePutchar,
    ConsoleGetchar,
    ClearIpi,
    SendIpi,
    RemoteFenceI,
    RemoteSfenceVma,
    RemoteSfenceVmaWithAsid,
    SystemShutdown,
    Base,
    Timer,
    Ipi,
    Rfence,
}

impl Extension {
    /// The extension number: 0 to 8 for the legacy calls in order, 0x10 for
    /// `Base`, and the ASCII codes "TIME", "sPI" and "RFNC" for the others.
    pub fn number(&self) -> (r: i32)
        ensures
            r == match *self {
                Extension::SetTimer => 0i32,
                Extension::ConsolePutchar => 1,
                Extension::ConsoleGetchar => 2,
                Extension::ClearIpi => 3,
                Extension::SendIpi => 4,
                Extension::RemoteFenceI => 5,
                Extension::RemoteSfenceVma => 6,
                Extension::RemoteSfenceVmaWithAsid => 7,
                Extension::SystemShutdown => 8,
                Extension::Base => 0x10,
                Extension::Timer => 0x54494D45,
                Extension::Ipi => 0x735049,
                Extension::Rfence => 0x52464E43,
            },
    {
        match self {
            Extension::SetTimer => 0,
            Extension::ConsolePutchar => 1,
            Extension::ConsoleGetchar => 2,
            Extension::ClearIpi => 3,
            Extension::SendIpi => 4,
            Extension::RemoteFenceI => 5,
            Extension::RemoteSfenceVma => 6,
            Extension::RemoteSfenceVmaWithAsid => 7,
            Extension::SystemShutdown => 8,
            Extension::Base => 0x10,
            Extension::Timer => 0x54494D45,
            Extension::Ipi => 0x735049,
            Extension::Rfence => 0x52464E43,
        }
    }
}

/// The arguments of the SBI call that sets the timer to `stime_value`:
/// extension, function and first argument.
pub fn sbi_set_timer(stime_value: u64) -> (r: (i32, i32, u64))
    ensures
        r == (0i32, 0i32, stime_value),
{
    (Extension::SetTimer.number(), 0, stime_value)
}

} // verus!
