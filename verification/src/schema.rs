//! The wire schema: the request a poll tick sends and the nested,
//! partially optional reply the device returns. Telemetry readings that
//! the device reports with a decimal point travel as their literal number
//! tokens (`String` fields below), preserved exactly as they appear on
//! the wire; integer fields carry their fixed semantic width.
use vstd::prelude::*;
use crate::numtext::is_normal_number_token;

verus! {

/// Device identity and clock, returned when the status section was
/// requested.
#[derive(Debug, Clone, PartialEq, Eq)]
pub struct StatusReply {
    pub device_id: String,
    pub device_status: u16,
    pub connection_status: u8,
    pub date_time: u64,
}

pub struct SpecStatusReply {
    pub device_id: Seq<char>,
    pub device_status: u16,
    pub connection_status: u8,
    pub date_time: u64,
}

impl View for StatusReply {
    type V = SpecStatusReply;

    open spec fn view(&self) -> SpecStatusReply {
        SpecStatusReply {
            device_id: self.device_id@,
            device_status: self.device_status,
            connection_status: self.connection_status,
            date_time: self.date_time,
        }
    }
}

/// Internal regulation-loop state, returned when the detailed report
/// section was requested. Fields holding a reading with a decimal point
/// carry the literal number token from the wire.
#[allow(non_snake_case)]
#[derive(Debug, Clone, PartialEq, Eq)]
pub struct ReportDetailReply {
    pub boiler_temp: String,
    pub boiler_return_temp: String,
    pub min_mod_level: u8,
    pub rel_mod_level: u8,
    pub boiler_capacity: u8,
    pub target_temp: String,
    pub overshoot: String,
    pub max_boiler_temp: String,
    pub alpha_used: String,
    pub regulation_state: u8,
    pub ch_m_dot_c: String,
    pub c_house: u8,
    pub r_rad: String,
    pub r_env: String,
    pub alpha: String,
    pub alpha_max: String,
    pub delay: u8,
    pub mu: String,
    pub threshold_offs: String,
    pub wd_k_factor: String,
    pub wd_exponent: String,
    pub lmuc_burner_hours: u32,
    pub lmuc_dhw_hours: u32,
    pub KP: String,
    pub KI: String,
}

#[allow(non_snake_case)]
pub struct SpecReportDetailReply {
    pub boiler_temp: Seq<char>,
    pub boiler_return_temp: Seq<char>,
    pub min_mod_level: u8,
    pub rel_mod_level: u8,
    pub boiler_capacity: u8,
    pub target_temp: Seq<char>,
    pub overshoot: Seq<char>,
    pub max_boiler_temp: Seq<char>,
    pub alpha_used: Seq<char>,
    pub regulation_state: u8,
    pub ch_m_dot_c: Seq<char>,
    pub c_house: u8,
    pub r_rad: Seq<char>,
    pub r_env: Seq<char>,
    pub alpha: Seq<char>,
    pub alpha_max: Seq<char>,
    pub delay: u8,
    pub mu: Seq<char>,
    pub threshold_offs: Seq<char>,
    pub wd_k_factor: Seq<char>,
    pub wd_exponent: Seq<char>,
    pub lmuc_burner_hours: u32,
    pub lmuc_dhw_hours: u32,
    pub KP: Seq<char>,
    pub KI: Seq<char>,
}

impl View for ReportDetailReply {
    type V = SpecReportDetailReply;

    open spec fn view(&self) -> SpecReportDetailReply {
        SpecReportDetailReply {
            boiler_temp: self.boiler_temp@,
            boiler_return_temp: self.boiler_return_temp@,
            min_mod_level: self.min_mod_level,
            rel_mod_level: self.rel_mod_level,
            boiler_capacity: self.boiler_capacity,
            target_temp: self.target_temp@,
            overshoot: self.overshoot@,
            max_boiler_temp: self.max_boiler_temp@,
            alpha_used: self.alpha_used@,
            regulation_state: self.regulation_state,
            ch_m_dot_c: self.ch_m_dot_c@,
            c_house: self.c_house,
            r_rad: self.r_rad@,
            r_env: self.r_env@,
            alpha: self.alpha@,
            alpha_max: self.alpha_max@,
            delay: self.delay,
            mu: self.mu@,
            threshold_offs: self.threshold_offs@,
            wd_k_factor: self.wd_k_factor@,
            wd_exponent: self.wd_exponent@,
            lmuc_burner_hours: self.lmuc_burner_hours,
            lmuc_dhw_hours: self.lmuc_dhw_hours,
            KP: self.KP@,
            KI: self.KI@,
        }
    }
}

/// The combustion report, returned when the report section was requested.
/// The two error fields are free-form strings passed through verbatim.
#[derive(Debug, Clone, PartialEq, Eq)]
pub struct ReportReply {
    pub report_time: u64,
    pub burning_hours: String,
    pub device_errors: String,
    pub boiler_errors: String,
    pub room_temp: String,
    pub outside_temp: String,
    pub dbg_outside_temp: String,
    pub pcb_temp: String,
    pub ch_setpoint: String,
    pub dhw_water_temp: String,
    pub ch_water_temp: String,
    pub dhw_water_pres: String,
    pub ch_water_pres: String,
    pub ch_return_temp: String,
    pub boiler_status: u16,
    pub boiler_config: u16,
    pub ch_time_to_temp: u16,
    pub shown_set_temp: String,
    pub power_cons: u16,
    pub tout_avg: String,
    pub rssi: u16,
    pub current: i16,
    pub voltage: u16,
    pub charge_status: u16,
    pub lmuc_burner_starts: u32,
    pub dhw_flow_rate: String,
    pub resets: u16,
    pub memory_allocation: u16,
    pub details: Option<ReportDetailReply>,
}

pub struct SpecReportReply {
    pub report_time: u64,
    pub burning_hours: Seq<char>,
    pub device_errors: Seq<char>,
    pub boiler_errors: Seq<char>,
    pub room_temp: Seq<char>,
    pub outside_temp: Seq<char>,
    pub dbg_outside_temp: Seq<char>,
    pub pcb_temp: Seq<char>,
    pub ch_setpoint: Seq<char>,
    pub dhw_water_temp: Seq<char>,
    pub ch_water_temp: Seq<char>,
    pub dhw_water_pres: Seq<char>,
    pub ch_water_pres: Seq<char>,
    pub ch_return_temp: Seq<char>,
    pub boiler_status: u16,
    pub boiler_config: u16,
    pub ch_time_to_temp: u16,
    pub shown_set_temp: Seq<char>,
    pub power_cons: u16,
    pub tout_avg: Seq<char>,
    pub rssi: u16,
    pub current: i16,
    pub voltage: u16,
    pub charge_status: u16,
    pub lmuc_burner_starts: u32,
    pub dhw_flow_rate: Seq<char>,
    pub resets: u16,
    pub memory_allocation: u16,
    pub details: Option<SpecReportDetailReply>,
}

impl View for ReportReply {
    type V = SpecReportReply;

    open spec fn view(&self) -> SpecReportReply {
        SpecReportReply {
            report_time: self.report_time,
            burning_hours: self.burning_hours@,
            device_errors: self.device_errors@,
            boiler_errors: self.boiler_errors@,
            room_temp: self.room_temp@,
            outside_temp: self.outside_temp@,
            dbg_outside_temp: self.dbg_outside_temp@,
            pcb_temp: self.pcb_temp@,
            ch_setpoint: self.ch_setpoint@,
            dhw_water_temp: self.dhw_water_temp@,
            ch_water_temp: self.ch_water_temp@,
            dhw_water_pres: self.dhw_water_pres@,
            ch_water_pres: self.ch_water_pres@,
            ch_return_temp: self.ch_return_temp@,
            boiler_status: self.boiler_status,
            boiler_config: self.boiler_config,
            ch_time_to_temp: self.ch_time_to_temp,
            shown_set_temp: self.shown_set_temp@,
            power_cons: self.power_cons,
            tout_avg: self.tout_avg@,
            rssi: self.rssi,
            current: self.current,
            voltage: self.voltage,
            charge_status: self.charge_status,
            lmuc_burner_starts: self.lmuc_burner_starts,
            dhw_flow_rate: self.dhw_flow_rate@,
            resets: self.resets,
            memory_allocation: self.memory_allocation,
            details: match self.details {
                Some(ref d) => Some(d@),
                None => None,
            },
        }
    }
}

/// One reply: the echoed sequence number, the optional sections, and the
/// accumulated-status byte.
#[derive(Debug, Clone, PartialEq, Eq)]
pub struct RetrieveReply {
    pub seqnr: u16,
    pub status: Option<StatusReply>,
    pub report: Option<ReportReply>,
    pub acc_status: u8,
}

pub struct SpecRetrieveReply {
    pub seqnr: u16,
    pub status: Option<SpecStatusReply>,
    pub report: Option<SpecReportReply>,
    pub acc_status: u8,
}

impl View for RetrieveReply {
    type V = SpecRetrieveReply;

    open spec fn view(&self) -> SpecRetrieveReply {
        SpecRetrieveReply {
            seqnr: self.seqnr,
            status: match self.status {
                Some(ref s) => Some(s@),
                None => None,
            },
            report: match self.report {
                Some(ref r) => Some(r@),
                None => None,
            },
            acc_status: self.acc_status,
        }
    }
}

/// The single top-level object wrapping one reply.
#[derive(Debug, Clone, PartialEq, Eq)]
pub struct ResponseEnvelope {
    pub retrieve_reply: RetrieveReply,
}

pub struct SpecResponseEnvelope {
    pub retrieve_reply: SpecRetrieveReply,
}

impl View for ResponseEnvelope {
    type V = SpecResponseEnvelope;

    open spec fn view(&self) -> SpecResponseEnvelope {
        SpecResponseEnvelope { retrieve_reply: self.retrieve_reply@ }
    }
}

/// The account credentials sent with every request.
#[derive(Debug, Clone, PartialEq, Eq)]
pub struct AccountAuth {
    pub user_account: String,
    pub mac_address: String,
}

pub struct SpecAccountAuth {
    pub user_account: Seq<char>,
    pub mac_address: Seq<char>,
}

impl View for AccountAuth {
    type V = SpecAccountAuth;

    open spec fn view(&self) -> SpecAccountAuth {
        SpecAccountAuth { user_account: self.user_account@, mac_address: self.mac_address@ }
    }
}

/// One poll request: a fresh sequence number, the credentials, and the
/// capability-flag byte selecting which report sections to return.
#[derive(Debug, Clone, PartialEq, Eq)]
pub struct RetrieveMessage {
    pub seqnr: u16,
    pub account_auth: AccountAuth,
    pub info: u8,
}

pub struct SpecRetrieveMessage {
    pub seqnr: u16,
    pub account_auth: SpecAccountAuth,
    pub info: u8,
}

impl View for RetrieveMessage {
    type V = SpecRetrieveMessage;

    open spec fn view(&self) -> SpecRetrieveMessage {
        SpecRetrieveMessage {
            seqnr: self.seqnr,
            account_auth: self.account_auth@,
            info: self.info,
        }
    }
}

/// The single top-level object wrapping one request.
#[derive(Debug, Clone, PartialEq, Eq)]
pub struct RequestEnvelope {
    pub retrieve_message: RetrieveMessage,
}

pub struct SpecRequestEnvelope {
    pub retrieve_message: SpecRetrieveMessage,
}

impl View for RequestEnvelope {
    type V = SpecRequestEnvelope;

    open spec fn view(&self) -> SpecRequestEnvelope {
        SpecRequestEnvelope { retrieve_message: self.retrieve_message@ }
    }
}

/// Every number-token field of the detail record holds a number token in
/// the wire library's normalized form.
pub open spec fn detail_wf(d: SpecReportDetailReply) -> bool {
    &&& is_normal_number_token(d.boiler_temp)
    &&& is_normal_number_token(d.boiler_return_temp)
    &&& is_normal_number_token(d.target_temp)
    &&& is_normal_number_token(d.overshoot)
    &&& is_normal_number_token(d.max_boiler_temp)
    &&& is_normal_number_token(d.alpha_used)
    &&& is_normal_number_token(d.ch_m_dot_c)
    &&& is_normal_number_token(d.r_rad)
    &&& is_normal_number_token(d.r_env)
    &&& is_normal_number_token(d.alpha)
    &&& is_normal_number_token(d.alpha_max)
    &&& is_normal_number_token(d.mu)
    &&& is_normal_number_token(d.threshold_offs)
    &&& is_normal_number_token(d.wd_k_factor)
    &&& is_normal_number_token(d.wd_exponent)
    &&& is_normal_number_token(d.KP)
    &&& is_normal_number_token(d.KI)
}

/// Every number-token field of the report holds a number token in the
/// wire library's normalized form, and so does its detail record when
/// present.
pub open spec fn report_wf(r: SpecReportReply) -> bool {
    &&& is_normal_number_token(r.burning_hours)
    &&& is_normal_number_token(r.room_temp)
    &&& is_normal_number_token(r.outside_temp)
    &&& is_normal_number_token(r.dbg_outside_temp)
    &&& is_normal_number_token(r.pcb_temp)
    &&& is_normal_number_token(r.ch_setpoint)
    &&& is_normal_number_token(r.dhw_water_temp)
    &&& is_normal_number_token(r.ch_water_temp)
    &&& is_normal_number_token(r.dhw_water_pres)
    &&& is_normal_number_token(r.ch_water_pres)
    &&& is_normal_number_token(r.ch_return_temp)
    &&& is_normal_number_token(r.shown_set_temp)
    &&& is_normal_number_token(r.tout_avg)
    &&& is_normal_number_token(r.dhw_flow_rate)
    &&& match r.details {
        Some(d) => detail_wf(d),
        None => true,
    }
}

/// A response is well formed when each of its number-token fields holds a
/// number token in the wire library's normalized form — the form in which
/// tokens arrive off the wire, and the only form the writer passes
/// through unchanged.
pub open spec fn response_wf(v: SpecResponseEnvelope) -> bool {
    match v.retrieve_reply.report {
        Some(r) => report_wf(r),
        None => true,
    }
}

} // verus!
