//! The polling lifecycle: the sequence counter, the fixed credentials and
//! capability selection, and what one tick sends and records. The caller
//! performs the transport send and the sink append; this module decides
//! what is sent and what is appended.
use vstd::prelude::*;
use vstd::string::StringExecFns;
use crate::schema::{AccountAuth, RequestEnvelope, RetrieveMessage};

verus! {

/// Capability flag: request the control section.
pub const INFO_CNTL: u8 = 0x01;

/// Capability flag: request the schedules section.
pub const INFO_SDL: u8 = 0x02;

/// Capability flag: request the configuration section.
pub const INFO_CFG: u8 = 0x04;

/// Capability flag: request the report section.
pub const INFO_RPT: u8 = 0x08;

/// Capability flag: request the status section.
pub const INFO_STS: u8 = 0x10;

/// Capability flag: request a wifi scan section.
pub const INFO_WFS: u8 = 0x20;

/// Capability flag: request the report section with its details.
pub const INFO_RPTDL: u8 = 0x40;

/// Advance the 16-bit poll sequence counter by one, wrapping silently to
/// zero after the maximum representable value, with no error.
pub fn advance_seq(seqnr: u16) -> (r: u16)
    ensures
        r == (seqnr + 1) % 0x1_0000,
{
    if seqnr == 0xffff {
        0
    } else {
        seqnr + 1
    }
}

/// The state a poll loop owns: the fixed credentials, the fixed
/// capability selection, and the sequence counter that advances once per
/// tick.
pub struct Poller {
    pub user_account: String,
    pub mac_address: String,
    pub info: u8,
    pub seqnr: u16,
}

impl Poller {
    /// A poller that will send its first request with the counter one
    /// past the given start value.
    pub fn new(user_account: String, mac_address: String, info: u8, start_seqnr: u16) -> (r:
        Poller)
        ensures
            r.user_account@ == user_account@,
            r.mac_address@ == mac_address@,
            r.info == info,
            r.seqnr == start_seqnr,
    {
        Poller { user_account, mac_address, info, seqnr: start_seqnr }
    }

    /// One tick's request: the counter advances by one, wrapping at the
    /// maximum, and the envelope carries the new counter value together
    /// with the fixed credentials and capability flags. Nothing else of
    /// the state changes.
    pub fn next_request(&mut self) -> (r: RequestEnvelope)
        ensures
            final(self).seqnr == (old(self).seqnr + 1) % 0x1_0000,
            final(self).user_account@ == old(self).user_account@,
            final(self).mac_address@ == old(self).mac_address@,
            final(self).info == old(self).info,
            r@.retrieve_message.seqnr == final(self).seqnr,
            r@.retrieve_message.account_auth.user_account == old(self).user_account@,
            r@.retrieve_message.account_auth.mac_address == old(self).mac_address@,
            r@.retrieve_message.info == old(self).info,
    {
        self.seqnr = advance_seq(self.seqnr);
        RequestEnvelope {
            retrieve_message: RetrieveMessage {
                seqnr: self.seqnr,
                account_auth: AccountAuth {
                    user_account: self.user_account.clone(),
                    mac_address: self.mac_address.clone(),
                },
                info: self.info,
            },
        }
    }
}

/// The line one tick appends to the sink: the raw reply text, exactly as
/// received, terminated by a newline.
pub fn log_line(raw: &str) -> (r: String)
    ensures
        r@ == raw@ + "\n"@,
{
    let mut s = String::from_str(raw);
    s.append("\n");
    s
}

} // verus!
