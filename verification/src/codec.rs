//! The mapping between wire JSON and the schema records: what each member
//! of each envelope means, which members are mandatory, and when decoding
//! fails. `spec_decode_response` is the meaning of a reply document;
//! `decode_response` computes it.
use vstd::prelude::*;
use crate::jsonval::{
    jmodel, json_to_text, parse_json, printed_json, spec_parse_json, v_as_str, v_empty_object,
    v_from_i64, v_from_num_token, v_from_string, v_from_u64, v_get, v_insert, v_is_null,
    v_num_token,
};
use crate::model::{member, obj_of, wire_ready, JsonModel};
use crate::numtext::{
    dec_text, dec_text_int, is_normal_number_token, is_number_token, lemma_dec_text_int_normal,
    parse_i16_str, parse_i16_text, parse_u16_str,
    parse_u16_text, parse_u32_str, parse_u32_text, parse_u64_str, parse_u64_text, parse_u8_str,
    parse_u8_text,
};
use crate::schema::{
    detail_wf, report_wf, response_wf, ReportDetailReply, ReportReply, ResponseEnvelope,
    RetrieveReply, SpecReportDetailReply, SpecReportReply, SpecResponseEnvelope,
    SpecRetrieveReply, SpecStatusReply, StatusReply,
};

verus! {

broadcast use vstd::string::group_string_axioms;

/// Why a reply text was rejected: it was not valid JSON at all, or it was
/// JSON whose structure does not match the envelope shape (a mandatory
/// member missing or of the wrong type).
#[derive(Debug, Clone, Copy, PartialEq, Eq)]
pub enum DecodeError {
    InvalidJson,
    InvalidShape,
}

pub open spec fn spec_str_member(o: Map<Seq<char>, JsonModel>, k: Seq<char>) -> Option<Seq<char>> {
    match member(o, k) {
        Some(JsonModel::Str(s)) => Some(s),
        _ => None,
    }
}

pub open spec fn spec_num_member(o: Map<Seq<char>, JsonModel>, k: Seq<char>) -> Option<Seq<char>> {
    match member(o, k) {
        Some(JsonModel::Num(t)) => Some(t),
        _ => None,
    }
}

pub open spec fn spec_u64_member(o: Map<Seq<char>, JsonModel>, k: Seq<char>) -> Option<u64> {
    match spec_num_member(o, k) {
        Some(t) => parse_u64_text(t),
        None => None,
    }
}

pub open spec fn spec_u32_member(o: Map<Seq<char>, JsonModel>, k: Seq<char>) -> Option<u32> {
    match spec_num_member(o, k) {
        Some(t) => parse_u32_text(t),
        None => None,
    }
}

pub open spec fn spec_u16_member(o: Map<Seq<char>, JsonModel>, k: Seq<char>) -> Option<u16> {
    match spec_num_member(o, k) {
        Some(t) => parse_u16_text(t),
        None => None,
    }
}

pub open spec fn spec_u8_member(o: Map<Seq<char>, JsonModel>, k: Seq<char>) -> Option<u8> {
    match spec_num_member(o, k) {
        Some(t) => parse_u8_text(t),
        None => None,
    }
}

pub open spec fn spec_i16_member(o: Map<Seq<char>, JsonModel>, k: Seq<char>) -> Option<i16> {
    match spec_num_member(o, k) {
        Some(t) => parse_i16_text(t),
        None => None,
    }
}

/// The status section of a reply object.
pub open spec fn spec_decode_status(m: JsonModel) -> Option<SpecStatusReply> {
    match obj_of(m) {
        Some(o) => {
            let device_id = spec_str_member(o, "device_id"@);
            let device_status = spec_u16_member(o, "device_status"@);
            let connection_status = spec_u8_member(o, "connection_status"@);
            let date_time = spec_u64_member(o, "date_time"@);
            if device_id is Some && device_status is Some && connection_status is Some
                && date_time is Some {
                Some(
                    SpecStatusReply {
                        device_id: device_id.unwrap(),
                        device_status: device_status.unwrap(),
                        connection_status: connection_status.unwrap(),
                        date_time: date_time.unwrap(),
                    },
                )
            } else {
                None
            }
        },
        None => None,
    }
}

/// The detailed regulation section of a report object.
pub open spec fn spec_decode_detail(m: JsonModel) -> Option<SpecReportDetailReply> {
    match obj_of(m) {
        Some(o) => {
            let boiler_temp = spec_num_member(o, "boiler_temp"@);
            let boiler_return_temp = spec_num_member(o, "boiler_return_temp"@);
            let min_mod_level = spec_u8_member(o, "min_mod_level"@);
            let rel_mod_level = spec_u8_member(o, "rel_mod_level"@);
            let boiler_capacity = spec_u8_member(o, "boiler_capacity"@);
            let target_temp = spec_num_member(o, "target_temp"@);
            let overshoot = spec_num_member(o, "overshoot"@);
            let max_boiler_temp = spec_num_member(o, "max_boiler_temp"@);
            let alpha_used = spec_num_member(o, "alpha_used"@);
            let regulation_state = spec_u8_member(o, "regulation_state"@);
            let ch_m_dot_c = spec_num_member(o, "ch_m_dot_c"@);
            let c_house = spec_u8_member(o, "c_house"@);
            let r_rad = spec_num_member(o, "r_rad"@);
            let r_env = spec_num_member(o, "r_env"@);
            let alpha = spec_num_member(o, "alpha"@);
            let alpha_max = spec_num_member(o, "alpha_max"@);
            let delay = spec_u8_member(o, "delay"@);
            let mu = spec_num_member(o, "mu"@);
            let threshold_offs = spec_num_member(o, "threshold_offs"@);
            let wd_k_factor = spec_num_member(o, "wd_k_factor"@);
            let wd_exponent = spec_num_member(o, "wd_exponent"@);
            let lmuc_burner_hours = spec_u32_member(o, "lmuc_burner_hours"@);
            let lmuc_dhw_hours = spec_u32_member(o, "lmuc_dhw_hours"@);
            let kp = spec_num_member(o, "KP"@);
            let ki = spec_num_member(o, "KI"@);
            if boiler_temp is Some && boiler_return_temp is Some && min_mod_level is Some
                && rel_mod_level is Some && boiler_capacity is Some && target_temp is Some
                && overshoot is Some && max_boiler_temp is Some && alpha_used is Some
                && regulation_state is Some && ch_m_dot_c is Some && c_house is Some
                && r_rad is Some && r_env is Some && alpha is Some && alpha_max is Some
                && delay is Some && mu is Some && threshold_offs is Some && wd_k_factor is Some
                && wd_exponent is Some && lmuc_burner_hours is Some && lmuc_dhw_hours is Some
                && kp is Some && ki is Some {
                Some(
                    SpecReportDetailReply {
                        boiler_temp: boiler_temp.unwrap(),
                        boiler_return_temp: boiler_return_temp.unwrap(),
                        min_mod_level: min_mod_level.unwrap(),
                        rel_mod_level: rel_mod_level.unwrap(),
                        boiler_capacity: boiler_capacity.unwrap(),
                        target_temp: target_temp.unwrap(),
                        overshoot: overshoot.unwrap(),
                        max_boiler_temp: max_boiler_temp.unwrap(),
                        alpha_used: alpha_used.unwrap(),
                        regulation_state: regulation_state.unwrap(),
                        ch_m_dot_c: ch_m_dot_c.unwrap(),
                        c_house: c_house.unwrap(),
                        r_rad: r_rad.unwrap(),
                        r_env: r_env.unwrap(),
                        alpha: alpha.unwrap(),
                        alpha_max: alpha_max.unwrap(),
                        delay: delay.unwrap(),
                        mu: mu.unwrap(),
                        threshold_offs: threshold_offs.unwrap(),
                        wd_k_factor: wd_k_factor.unwrap(),
                        wd_exponent: wd_exponent.unwrap(),
                        lmuc_burner_hours: lmuc_burner_hours.unwrap(),
                        lmuc_dhw_hours: lmuc_dhw_hours.unwrap(),
                        KP: kp.unwrap(),
                        KI: ki.unwrap(),
                    },
                )
            } else {
                None
            }
        },
        None => None,
    }
}

/// The report section of a reply object; its detail sub-record is decoded
/// when and only when the member is present and not an explicit null,
/// which counts as absent.
pub open spec fn spec_decode_report(m: JsonModel) -> Option<SpecReportReply> {
    match obj_of(m) {
        Some(o) => {
            let report_time = spec_u64_member(o, "report_time"@);
            let burning_hours = spec_num_member(o, "burning_hours"@);
            let device_errors = spec_str_member(o, "device_errors"@);
            let boiler_errors = spec_str_member(o, "boiler_errors"@);
            let room_temp = spec_num_member(o, "room_temp"@);
            let outside_temp = spec_num_member(o, "outside_temp"@);
            let dbg_outside_temp = spec_num_member(o, "dbg_outside_temp"@);
            let pcb_temp = spec_num_member(o, "pcb_temp"@);
            let ch_setpoint = spec_num_member(o, "ch_setpoint"@);
            let dhw_water_temp = spec_num_member(o, "dhw_water_temp"@);
            let ch_water_temp = spec_num_member(o, "ch_water_temp"@);
            let dhw_water_pres = spec_num_member(o, "dhw_water_pres"@);
            let ch_water_pres = spec_num_member(o, "ch_water_pres"@);
            let ch_return_temp = spec_num_member(o, "ch_return_temp"@);
            let boiler_status = spec_u16_member(o, "boiler_status"@);
            let boiler_config = spec_u16_member(o, "boiler_config"@);
            let ch_time_to_temp = spec_u16_member(o, "ch_time_to_temp"@);
            let shown_set_temp = spec_num_member(o, "shown_set_temp"@);
            let power_cons = spec_u16_member(o, "power_cons"@);
            let tout_avg = spec_num_member(o, "tout_avg"@);
            let rssi = spec_u16_member(o, "rssi"@);
            let current = spec_i16_member(o, "current"@);
            let voltage = spec_u16_member(o, "voltage"@);
            let charge_status = spec_u16_member(o, "charge_status"@);
            let lmuc_burner_starts = spec_u32_member(o, "lmuc_burner_starts"@);
            let dhw_flow_rate = spec_num_member(o, "dhw_flow_rate"@);
            let resets = spec_u16_member(o, "resets"@);
            let memory_allocation = spec_u16_member(o, "memory_allocation"@);
            let details_ok = match member(o, "details"@) {
                Some(JsonModel::Null) => true,
                Some(dm) => spec_decode_detail(dm) is Some,
                None => true,
            };
            if report_time is Some && burning_hours is Some && device_errors is Some
                && boiler_errors is Some && room_temp is Some && outside_temp is Some
                && dbg_outside_temp is Some && pcb_temp is Some && ch_setpoint is Some
                && dhw_water_temp is Some && ch_water_temp is Some && dhw_water_pres is Some
                && ch_water_pres is Some && ch_return_temp is Some && boiler_status is Some
                && boiler_config is Some && ch_time_to_temp is Some && shown_set_temp is Some
                && power_cons is Some && tout_avg is Some && rssi is Some && current is Some
                && voltage is Some && charge_status is Some && lmuc_burner_starts is Some
                && dhw_flow_rate is Some && resets is Some && memory_allocation is Some
                && details_ok {
                Some(
                    SpecReportReply {
                        report_time: report_time.unwrap(),
                        burning_hours: burning_hours.unwrap(),
                        device_errors: device_errors.unwrap(),
                        boiler_errors: boiler_errors.unwrap(),
                        room_temp: room_temp.unwrap(),
                        outside_temp: outside_temp.unwrap(),
                        dbg_outside_temp: dbg_outside_temp.unwrap(),
                        pcb_temp: pcb_temp.unwrap(),
                        ch_setpoint: ch_setpoint.unwrap(),
                        dhw_water_temp: dhw_water_temp.unwrap(),
                        ch_water_temp: ch_water_temp.unwrap(),
                        dhw_water_pres: dhw_water_pres.unwrap(),
                        ch_water_pres: ch_water_pres.unwrap(),
                        ch_return_temp: ch_return_temp.unwrap(),
                        boiler_status: boiler_status.unwrap(),
                        boiler_config: boiler_config.unwrap(),
                        ch_time_to_temp: ch_time_to_temp.unwrap(),
                        shown_set_temp: shown_set_temp.unwrap(),
                        power_cons: power_cons.unwrap(),
                        tout_avg: tout_avg.unwrap(),
                        rssi: rssi.unwrap(),
                        current: current.unwrap(),
                        voltage: voltage.unwrap(),
                        charge_status: charge_status.unwrap(),
                        lmuc_burner_starts: lmuc_burner_starts.unwrap(),
                        dhw_flow_rate: dhw_flow_rate.unwrap(),
                        resets: resets.unwrap(),
                        memory_allocation: memory_allocation.unwrap(),
                        details: match member(o, "details"@) {
                            Some(JsonModel::Null) => None,
                            Some(dm) => Some(spec_decode_detail(dm).unwrap()),
                            None => None,
                        },
                    },
                )
            } else {
                None
            }
        },
        None => None,
    }
}

/// One reply object: the sequence number and the accumulated-status byte
/// are mandatory; the status and report sections are read when and only
/// when their members are present and not an explicit null, which counts
/// as absent.
pub open spec fn spec_decode_reply(m: JsonModel) -> Option<SpecRetrieveReply> {
    match obj_of(m) {
        Some(o) => {
            let seqnr = spec_u16_member(o, "seqnr"@);
            let acc_status = spec_u8_member(o, "acc_status"@);
            let status_ok = match member(o, "status"@) {
                Some(JsonModel::Null) => true,
                Some(sm) => spec_decode_status(sm) is Some,
                None => true,
            };
            let report_ok = match member(o, "report"@) {
                Some(JsonModel::Null) => true,
                Some(rm) => spec_decode_report(rm) is Some,
                None => true,
            };
            if seqnr is Some && acc_status is Some && status_ok && report_ok {
                Some(
                    SpecRetrieveReply {
                        seqnr: seqnr.unwrap(),
                        status: match member(o, "status"@) {
                            Some(JsonModel::Null) => None,
                            Some(sm) => Some(spec_decode_status(sm).unwrap()),
                            None => None,
                        },
                        report: match member(o, "report"@) {
                            Some(JsonModel::Null) => None,
                            Some(rm) => Some(spec_decode_report(rm).unwrap()),
                            None => None,
                        },
                        acc_status: acc_status.unwrap(),
                    },
                )
            } else {
                None
            }
        },
        None => None,
    }
}

/// A whole reply document: one top-level object holding the reply under
/// the single nesting key.
pub open spec fn spec_decode_response(m: JsonModel) -> Option<SpecResponseEnvelope> {
    match obj_of(m) {
        Some(o) => match member(o, "retrieve_reply"@) {
            Some(rm) => match spec_decode_reply(rm) {
                Some(r) => Some(SpecResponseEnvelope { retrieve_reply: r }),
                None => None,
            },
            None => None,
        },
        None => None,
    }
}

fn get_str_member(v: &serde_json::Value, k: &str) -> (r: Option<String>)
    ensures
        match obj_of(jmodel(*v)) {
            Some(o) => match r {
                Some(s) => spec_str_member(o, k@) == Some(s@),
                None => spec_str_member(o, k@) is None,
            },
            None => r is None,
        },
{
    match v_get(v, k) {
        Some(x) => match v_as_str(x) {
            Some(s) => Some(s.to_owned()),
            None => None,
        },
        None => None,
    }
}

fn get_num_member(v: &serde_json::Value, k: &str) -> (r: Option<String>)
    ensures
        match obj_of(jmodel(*v)) {
            Some(o) => match r {
                Some(s) => spec_num_member(o, k@) == Some(s@) && is_number_token(s@),
                None => spec_num_member(o, k@) is None,
            },
            None => r is None,
        },
{
    match v_get(v, k) {
        Some(x) => v_num_token(x),
        None => None,
    }
}

fn get_u64_member(v: &serde_json::Value, k: &str) -> (r: Option<u64>)
    ensures
        match obj_of(jmodel(*v)) {
            Some(o) => r == spec_u64_member(o, k@),
            None => r is None,
        },
{
    match get_num_member(v, k) {
        Some(t) => parse_u64_str(t.as_str()),
        None => None,
    }
}

fn get_u32_member(v: &serde_json::Value, k: &str) -> (r: Option<u32>)
    ensures
        match obj_of(jmodel(*v)) {
            Some(o) => r == spec_u32_member(o, k@),
            None => r is None,
        },
{
    match get_num_member(v, k) {
        Some(t) => parse_u32_str(t.as_str()),
        None => None,
    }
}

fn get_u16_member(v: &serde_json::Value, k: &str) -> (r: Option<u16>)
    ensures
        match obj_of(jmodel(*v)) {
            Some(o) => r == spec_u16_member(o, k@),
            None => r is None,
        },
{
    match get_num_member(v, k) {
        Some(t) => parse_u16_str(t.as_str()),
        None => None,
    }
}

fn get_u8_member(v: &serde_json::Value, k: &str) -> (r: Option<u8>)
    ensures
        match obj_of(jmodel(*v)) {
            Some(o) => r == spec_u8_member(o, k@),
            None => r is None,
        },
{
    match get_num_member(v, k) {
        Some(t) => parse_u8_str(t.as_str()),
        None => None,
    }
}

fn get_i16_member(v: &serde_json::Value, k: &str) -> (r: Option<i16>)
    ensures
        match obj_of(jmodel(*v)) {
            Some(o) => r == spec_i16_member(o, k@),
            None => r is None,
        },
{
    match get_num_member(v, k) {
        Some(t) => parse_i16_str(t.as_str()),
        None => None,
    }
}

fn decode_status_value(v: &serde_json::Value) -> (r: Option<StatusReply>)
    ensures
        match r {
            Some(s) => spec_decode_status(jmodel(*v)) == Some(s@),
            None => spec_decode_status(jmodel(*v)) is None,
        },
{
    let device_id = match get_str_member(v, "device_id") {
        Some(x) => x,
        None => {
            return None;
        },
    };
    let device_status = match get_u16_member(v, "device_status") {
        Some(x) => x,
        None => {
            return None;
        },
    };
    let connection_status = match get_u8_member(v, "connection_status") {
        Some(x) => x,
        None => {
            return None;
        },
    };
    let date_time = match get_u64_member(v, "date_time") {
        Some(x) => x,
        None => {
            return None;
        },
    };
    Some(StatusReply { device_id, device_status, connection_status, date_time })
}

#[verifier::rlimit(50)]
fn decode_detail_value(v: &serde_json::Value) -> (r: Option<ReportDetailReply>)
    requires
        crate::model::wire_ready(jmodel(*v), 125),
    ensures
        match r {
            Some(d) => spec_decode_detail(jmodel(*v)) == Some(d@) && detail_wf(d@),
            None => spec_decode_detail(jmodel(*v)) is None,
        },
{
    let boiler_temp = match get_num_member(v, "boiler_temp") {
        Some(x) => x,
        None => {
            return None;
        },
    };
    let boiler_return_temp = match get_num_member(v, "boiler_return_temp") {
        Some(x) => x,
        None => {
            return None;
        },
    };
    let min_mod_level = match get_u8_member(v, "min_mod_level") {
        Some(x) => x,
        None => {
            return None;
        },
    };
    let rel_mod_level = match get_u8_member(v, "rel_mod_level") {
        Some(x) => x,
        None => {
            return None;
        },
    };
    let boiler_capacity = match get_u8_member(v, "boiler_capacity") {
        Some(x) => x,
        None => {
            return None;
        },
    };
    let target_temp = match get_num_member(v, "target_temp") {
        Some(x) => x,
        None => {
            return None;
        },
    };
    let overshoot = match get_num_member(v, "overshoot") {
        Some(x) => x,
        None => {
            return None;
        },
    };
    let max_boiler_temp = match get_num_member(v, "max_boiler_temp") {
        Some(x) => x,
        None => {
            return None;
        },
    };
    let alpha_used = match get_num_member(v, "alpha_used") {
        Some(x) => x,
        None => {
            return None;
        },
    };
    let regulation_state = match get_u8_member(v, "regulation_state") {
        Some(x) => x,
        None => {
            return None;
        },
    };
    let ch_m_dot_c = match get_num_member(v, "ch_m_dot_c") {
        Some(x) => x,
        None => {
            return None;
        },
    };
    let c_house = match get_u8_member(v, "c_house") {
        Some(x) => x,
        None => {
            return None;
        },
    };
    let r_rad = match get_num_member(v, "r_rad") {
        Some(x) => x,
        None => {
            return None;
        },
    };
    let r_env = match get_num_member(v, "r_env") {
        Some(x) => x,
        None => {
            return None;
        },
    };
    let alpha = match get_num_member(v, "alpha") {
        Some(x) => x,
        None => {
            return None;
        },
    };
    let alpha_max = match get_num_member(v, "alpha_max") {
        Some(x) => x,
        None => {
            return None;
        },
    };
    let delay = match get_u8_member(v, "delay") {
        Some(x) => x,
        None => {
            return None;
        },
    };
    let mu = match get_num_member(v, "mu") {
        Some(x) => x,
        None => {
            return None;
        },
    };
    let threshold_offs = match get_num_member(v, "threshold_offs") {
        Some(x) => x,
        None => {
            return None;
        },
    };
    let wd_k_factor = match get_num_member(v, "wd_k_factor") {
        Some(x) => x,
        None => {
            return None;
        },
    };
    let wd_exponent = match get_num_member(v, "wd_exponent") {
        Some(x) => x,
        None => {
            return None;
        },
    };
    let lmuc_burner_hours = match get_u32_member(v, "lmuc_burner_hours") {
        Some(x) => x,
        None => {
            return None;
        },
    };
    let lmuc_dhw_hours = match get_u32_member(v, "lmuc_dhw_hours") {
        Some(x) => x,
        None => {
            return None;
        },
    };
    let kp = match get_num_member(v, "KP") {
        Some(x) => x,
        None => {
            return None;
        },
    };
    let ki = match get_num_member(v, "KI") {
        Some(x) => x,
        None => {
            return None;
        },
    };
    proof {
        let o = obj_of(jmodel(*v)).unwrap();
        assert forall|k: Seq<char>| #[trigger] spec_num_member(o, k) is Some implies is_normal_number_token(
            spec_num_member(o, k).unwrap(),
        ) by {
            if o.contains_key(k) {
                assert(crate::model::wire_ready(o[k], 124));
            }
        };
    }
    Some(
        ReportDetailReply {
            boiler_temp,
            boiler_return_temp,
            min_mod_level,
            rel_mod_level,
            boiler_capacity,
            target_temp,
            overshoot,
            max_boiler_temp,
            alpha_used,
            regulation_state,
            ch_m_dot_c,
            c_house,
            r_rad,
            r_env,
            alpha,
            alpha_max,
            delay,
            mu,
            threshold_offs,
            wd_k_factor,
            wd_exponent,
            lmuc_burner_hours,
            lmuc_dhw_hours,
            KP: kp,
            KI: ki,
        },
    )
}

#[verifier::rlimit(50)]
fn decode_report_value(v: &serde_json::Value) -> (r: Option<ReportReply>)
    requires
        crate::model::wire_ready(jmodel(*v), 126),
    ensures
        match r {
            Some(rep) => spec_decode_report(jmodel(*v)) == Some(rep@) && report_wf(rep@),
            None => spec_decode_report(jmodel(*v)) is None,
        },
{
    let report_time = match get_u64_member(v, "report_time") {
        Some(x) => x,
        None => {
            return None;
        },
    };
    let burning_hours = match get_num_member(v, "burning_hours") {
        Some(x) => x,
        None => {
            return None;
        },
    };
    let device_errors = match get_str_member(v, "device_errors") {
        Some(x) => x,
        None => {
            return None;
        },
    };
    let boiler_errors = match get_str_member(v, "boiler_errors") {
        Some(x) => x,
        None => {
            return None;
        },
    };
    let room_temp = match get_num_member(v, "room_temp") {
        Some(x) => x,
        None => {
            return None;
        },
    };
    let outside_temp = match get_num_member(v, "outside_temp") {
        Some(x) => x,
        None => {
            return None;
        },
    };
    let dbg_outside_temp = match get_num_member(v, "dbg_outside_temp") {
        Some(x) => x,
        None => {
            return None;
        },
    };
    let pcb_temp = match get_num_member(v, "pcb_temp") {
        Some(x) => x,
        None => {
            return None;
        },
    };
    let ch_setpoint = match get_num_member(v, "ch_setpoint") {
        Some(x) => x,
        None => {
            return None;
        },
    };
    let dhw_water_temp = match get_num_member(v, "dhw_water_temp") {
        Some(x) => x,
        None => {
            return None;
        },
    };
    let ch_water_temp = match get_num_member(v, "ch_water_temp") {
        Some(x) => x,
        None => {
            return None;
        },
    };
    let dhw_water_pres = match get_num_member(v, "dhw_water_pres") {
        Some(x) => x,
        None => {
            return None;
        },
    };
    let ch_water_pres = match get_num_member(v, "ch_water_pres") {
        Some(x) => x,
        None => {
            return None;
        },
    };
    let ch_return_temp = match get_num_member(v, "ch_return_temp") {
        Some(x) => x,
        None => {
            return None;
        },
    };
    let boiler_status = match get_u16_member(v, "boiler_status") {
        Some(x) => x,
        None => {
            return None;
        },
    };
    let boiler_config = match get_u16_member(v, "boiler_config") {
        Some(x) => x,
        None => {
            return None;
        },
    };
    let ch_time_to_temp = match get_u16_member(v, "ch_time_to_temp") {
        Some(x) => x,
        None => {
            return None;
        },
    };
    let shown_set_temp = match get_num_member(v, "shown_set_temp") {
        Some(x) => x,
        None => {
            return None;
        },
    };
    let power_cons = match get_u16_member(v, "power_cons") {
        Some(x) => x,
        None => {
            return None;
        },
    };
    let tout_avg = match get_num_member(v, "tout_avg") {
        Some(x) => x,
        None => {
            return None;
        },
    };
    let rssi = match get_u16_member(v, "rssi") {
        Some(x) => x,
        None => {
            return None;
        },
    };
    let current = match get_i16_member(v, "current") {
        Some(x) => x,
        None => {
            return None;
        },
    };
    let voltage = match get_u16_member(v, "voltage") {
        Some(x) => x,
        None => {
            return None;
        },
    };
    let charge_status = match get_u16_member(v, "charge_status") {
        Some(x) => x,
        None => {
            return None;
        },
    };
    let lmuc_burner_starts = match get_u32_member(v, "lmuc_burner_starts") {
        Some(x) => x,
        None => {
            return None;
        },
    };
    let dhw_flow_rate = match get_num_member(v, "dhw_flow_rate") {
        Some(x) => x,
        None => {
            return None;
        },
    };
    let resets = match get_u16_member(v, "resets") {
        Some(x) => x,
        None => {
            return None;
        },
    };
    let memory_allocation = match get_u16_member(v, "memory_allocation") {
        Some(x) => x,
        None => {
            return None;
        },
    };
    let details = match v_get(v, "details") {
        Some(dv) => {
            proof {
                let o = obj_of(jmodel(*v)).unwrap();
                assert(crate::model::wire_ready(o["details"@], 125));
            }
            if v_is_null(dv) {
                None
            } else {
                match decode_detail_value(dv) {
                    Some(d) => Some(d),
                    None => {
                        return None;
                    },
                }
            }
        },
        None => None,
    };
    proof {
        let o = obj_of(jmodel(*v)).unwrap();
        assert forall|k: Seq<char>| #[trigger] spec_num_member(o, k) is Some implies is_normal_number_token(
            spec_num_member(o, k).unwrap(),
        ) by {
            if o.contains_key(k) {
                assert(crate::model::wire_ready(o[k], 125));
            }
        };
    }
    Some(
        ReportReply {
            report_time,
            burning_hours,
            device_errors,
            boiler_errors,
            room_temp,
            outside_temp,
            dbg_outside_temp,
            pcb_temp,
            ch_setpoint,
            dhw_water_temp,
            ch_water_temp,
            dhw_water_pres,
            ch_water_pres,
            ch_return_temp,
            boiler_status,
            boiler_config,
            ch_time_to_temp,
            shown_set_temp,
            power_cons,
            tout_avg,
            rssi,
            current,
            voltage,
            charge_status,
            lmuc_burner_starts,
            dhw_flow_rate,
            resets,
            memory_allocation,
            details,
        },
    )
}

fn decode_reply_value(v: &serde_json::Value) -> (r: Option<RetrieveReply>)
    requires
        crate::model::wire_ready(jmodel(*v), 127),
    ensures
        match r {
            Some(rep) => spec_decode_reply(jmodel(*v)) == Some(rep@) && (match rep@.report {
                Some(rr) => report_wf(rr),
                None => true,
            }),
            None => spec_decode_reply(jmodel(*v)) is None,
        },
{
    let seqnr = match get_u16_member(v, "seqnr") {
        Some(x) => x,
        None => {
            return None;
        },
    };
    let acc_status = match get_u8_member(v, "acc_status") {
        Some(x) => x,
        None => {
            return None;
        },
    };
    let status = match v_get(v, "status") {
        Some(sv) => if v_is_null(sv) {
            None
        } else {
            match decode_status_value(sv) {
                Some(s) => Some(s),
                None => {
                    return None;
                },
            }
        },
        None => None,
    };
    let report = match v_get(v, "report") {
        Some(rv) => {
            proof {
                let o = obj_of(jmodel(*v)).unwrap();
                assert(crate::model::wire_ready(o["report"@], 126));
            }
            if v_is_null(rv) {
                None
            } else {
                match decode_report_value(rv) {
                    Some(rep) => Some(rep),
                    None => {
                        return None;
                    },
                }
            }
        },
        None => None,
    };
    Some(RetrieveReply { seqnr, status, report, acc_status })
}

/// Decode one reply text. Succeeds exactly when the text is valid JSON
/// whose structure matches the reply envelope; the optional sections are
/// absent in the result exactly when their members are absent from the
/// payload or carried as an explicit null. No field of the result is
/// ever defaulted.
pub fn decode_response(text: &str) -> (r: Result<ResponseEnvelope, DecodeError>)
    ensures
        match r {
            Ok(resp) => spec_parse_json(text@) matches Some(m) && spec_decode_response(m) == Some(
                resp@,
            ) && response_wf(resp@),
            Err(e) => match spec_parse_json(text@) {
                None => e == DecodeError::InvalidJson,
                Some(m) => spec_decode_response(m) is None && e == DecodeError::InvalidShape,
            },
        },
{
    let doc = match parse_json(text) {
        Ok(v) => v,
        Err(_) => {
            return Err(DecodeError::InvalidJson);
        },
    };
    let reply_value = match v_get(&doc, "retrieve_reply") {
        Some(x) => x,
        None => {
            return Err(DecodeError::InvalidShape);
        },
    };
    proof {
        let o = obj_of(jmodel(doc)).unwrap();
        assert(crate::model::wire_ready(o["retrieve_reply"@], 127));
    }
    match decode_reply_value(reply_value) {
        Some(rep) => Ok(ResponseEnvelope { retrieve_reply: rep }),
        None => Err(DecodeError::InvalidShape),
    }
}


/// The wire form of a status record.
pub open spec fn spec_encode_status(s: SpecStatusReply) -> JsonModel {
    JsonModel::Obj(
        Map::<Seq<char>, JsonModel>::empty().insert(
            "device_id"@,
            JsonModel::Str(s.device_id),
        ).insert("device_status"@, JsonModel::Num(dec_text(s.device_status as nat))).insert(
            "connection_status"@,
            JsonModel::Num(dec_text(s.connection_status as nat)),
        ).insert("date_time"@, JsonModel::Num(dec_text(s.date_time as nat))),
    )
}

/// The wire form of a detail record.
pub open spec fn spec_encode_detail(d: SpecReportDetailReply) -> JsonModel {
    JsonModel::Obj(
        Map::<Seq<char>, JsonModel>::empty().insert(
            "boiler_temp"@,
            JsonModel::Num(d.boiler_temp),
        ).insert("boiler_return_temp"@, JsonModel::Num(d.boiler_return_temp)).insert(
            "min_mod_level"@,
            JsonModel::Num(dec_text(d.min_mod_level as nat)),
        ).insert("rel_mod_level"@, JsonModel::Num(dec_text(d.rel_mod_level as nat))).insert(
            "boiler_capacity"@,
            JsonModel::Num(dec_text(d.boiler_capacity as nat)),
        ).insert("target_temp"@, JsonModel::Num(d.target_temp)).insert(
            "overshoot"@,
            JsonModel::Num(d.overshoot),
        ).insert("max_boiler_temp"@, JsonModel::Num(d.max_boiler_temp)).insert(
            "alpha_used"@,
            JsonModel::Num(d.alpha_used),
        ).insert("regulation_state"@, JsonModel::Num(dec_text(d.regulation_state as nat))).insert(
            "ch_m_dot_c"@,
            JsonModel::Num(d.ch_m_dot_c),
        ).insert("c_house"@, JsonModel::Num(dec_text(d.c_house as nat))).insert(
            "r_rad"@,
            JsonModel::Num(d.r_rad),
        ).insert("r_env"@, JsonModel::Num(d.r_env)).insert(
            "alpha"@,
            JsonModel::Num(d.alpha),
        ).insert("alpha_max"@, JsonModel::Num(d.alpha_max)).insert(
            "delay"@,
            JsonModel::Num(dec_text(d.delay as nat)),
        ).insert("mu"@, JsonModel::Num(d.mu)).insert(
            "threshold_offs"@,
            JsonModel::Num(d.threshold_offs),
        ).insert("wd_k_factor"@, JsonModel::Num(d.wd_k_factor)).insert(
            "wd_exponent"@,
            JsonModel::Num(d.wd_exponent),
        ).insert("lmuc_burner_hours"@, JsonModel::Num(dec_text(d.lmuc_burner_hours as nat))).insert(
            "lmuc_dhw_hours"@,
            JsonModel::Num(dec_text(d.lmuc_dhw_hours as nat)),
        ).insert("KP"@, JsonModel::Num(d.KP)).insert("KI"@, JsonModel::Num(d.KI)),
    )
}

/// The members every encoded report carries, without the optional detail
/// member.
pub open spec fn spec_encode_report_members(r: SpecReportReply) -> Map<Seq<char>, JsonModel> {
    Map::<Seq<char>, JsonModel>::empty().insert(
        "report_time"@,
        JsonModel::Num(dec_text(r.report_time as nat)),
    ).insert("burning_hours"@, JsonModel::Num(r.burning_hours)).insert(
        "device_errors"@,
        JsonModel::Str(r.device_errors),
    ).insert("boiler_errors"@, JsonModel::Str(r.boiler_errors)).insert(
        "room_temp"@,
        JsonModel::Num(r.room_temp),
    ).insert("outside_temp"@, JsonModel::Num(r.outside_temp)).insert(
        "dbg_outside_temp"@,
        JsonModel::Num(r.dbg_outside_temp),
    ).insert("pcb_temp"@, JsonModel::Num(r.pcb_temp)).insert(
        "ch_setpoint"@,
        JsonModel::Num(r.ch_setpoint),
    ).insert("dhw_water_temp"@, JsonModel::Num(r.dhw_water_temp)).insert(
        "ch_water_temp"@,
        JsonModel::Num(r.ch_water_temp),
    ).insert("dhw_water_pres"@, JsonModel::Num(r.dhw_water_pres)).insert(
        "ch_water_pres"@,
        JsonModel::Num(r.ch_water_pres),
    ).insert("ch_return_temp"@, JsonModel::Num(r.ch_return_temp)).insert(
        "boiler_status"@,
        JsonModel::Num(dec_text(r.boiler_status as nat)),
    ).insert("boiler_config"@, JsonModel::Num(dec_text(r.boiler_config as nat))).insert(
        "ch_time_to_temp"@,
        JsonModel::Num(dec_text(r.ch_time_to_temp as nat)),
    ).insert("shown_set_temp"@, JsonModel::Num(r.shown_set_temp)).insert(
        "power_cons"@,
        JsonModel::Num(dec_text(r.power_cons as nat)),
    ).insert("tout_avg"@, JsonModel::Num(r.tout_avg)).insert(
        "rssi"@,
        JsonModel::Num(dec_text(r.rssi as nat)),
    ).insert("current"@, JsonModel::Num(dec_text_int(r.current as int))).insert(
        "voltage"@,
        JsonModel::Num(dec_text(r.voltage as nat)),
    ).insert("charge_status"@, JsonModel::Num(dec_text(r.charge_status as nat))).insert(
        "lmuc_burner_starts"@,
        JsonModel::Num(dec_text(r.lmuc_burner_starts as nat)),
    ).insert("dhw_flow_rate"@, JsonModel::Num(r.dhw_flow_rate)).insert(
        "resets"@,
        JsonModel::Num(dec_text(r.resets as nat)),
    ).insert("memory_allocation"@, JsonModel::Num(dec_text(r.memory_allocation as nat)))
}

/// The wire form of a report record; the detail member is written when and
/// only when the detail record is present.
pub open spec fn spec_encode_report(r: SpecReportReply) -> JsonModel {
    JsonModel::Obj(
        match r.details {
            Some(d) => spec_encode_report_members(r).insert("details"@, spec_encode_detail(d)),
            None => spec_encode_report_members(r),
        },
    )
}

/// The wire form of one reply; the optional sections are written when and
/// only when they are present.
pub open spec fn spec_encode_reply(r: SpecRetrieveReply) -> JsonModel {
    let m0 = Map::<Seq<char>, JsonModel>::empty().insert(
        "seqnr"@,
        JsonModel::Num(dec_text(r.seqnr as nat)),
    );
    let m1 = match r.status {
        Some(s) => m0.insert("status"@, spec_encode_status(s)),
        None => m0,
    };
    let m2 = match r.report {
        Some(rep) => m1.insert("report"@, spec_encode_report(rep)),
        None => m1,
    };
    JsonModel::Obj(m2.insert("acc_status"@, JsonModel::Num(dec_text(r.acc_status as nat))))
}

/// The wire form of a whole reply document.
pub open spec fn spec_encode_response(v: SpecResponseEnvelope) -> JsonModel {
    JsonModel::Obj(
        Map::<Seq<char>, JsonModel>::empty().insert(
            "retrieve_reply"@,
            spec_encode_reply(v.retrieve_reply),
        ),
    )
}

/// The wire form of the credentials record.
pub open spec fn spec_encode_auth(a: crate::schema::SpecAccountAuth) -> JsonModel {
    JsonModel::Obj(
        Map::<Seq<char>, JsonModel>::empty().insert(
            "user_account"@,
            JsonModel::Str(a.user_account),
        ).insert("mac_address"@, JsonModel::Str(a.mac_address)),
    )
}

/// The wire form of one request message.
pub open spec fn spec_encode_message(m: crate::schema::SpecRetrieveMessage) -> JsonModel {
    JsonModel::Obj(
        Map::<Seq<char>, JsonModel>::empty().insert(
            "seqnr"@,
            JsonModel::Num(dec_text(m.seqnr as nat)),
        ).insert("account_auth"@, spec_encode_auth(m.account_auth)).insert(
            "info"@,
            JsonModel::Num(dec_text(m.info as nat)),
        ),
    )
}

/// The wire form of a whole request document.
pub open spec fn spec_encode_request(req: crate::schema::SpecRequestEnvelope) -> JsonModel {
    JsonModel::Obj(
        Map::<Seq<char>, JsonModel>::empty().insert(
            "retrieve_message"@,
            spec_encode_message(req.retrieve_message),
        ),
    )
}

fn put_str(obj: &mut serde_json::Value, k: &str, s: &str)
    requires
        obj_of(jmodel(*old(obj))) is Some,
    ensures
        jmodel(*final(obj)) == JsonModel::Obj(
            obj_of(jmodel(*old(obj))).unwrap().insert(k@, JsonModel::Str(s@)),
        ),
{
    let val = v_from_string(s);
    v_insert(obj, k, val);
}

fn put_u64(obj: &mut serde_json::Value, k: &str, n: u64)
    requires
        obj_of(jmodel(*old(obj))) is Some,
    ensures
        jmodel(*final(obj)) == JsonModel::Obj(
            obj_of(jmodel(*old(obj))).unwrap().insert(k@, JsonModel::Num(dec_text(n as nat))),
        ),
{
    let val = v_from_u64(n);
    v_insert(obj, k, val);
}

fn put_i16(obj: &mut serde_json::Value, k: &str, n: i16)
    requires
        obj_of(jmodel(*old(obj))) is Some,
    ensures
        jmodel(*final(obj)) == JsonModel::Obj(
            obj_of(jmodel(*old(obj))).unwrap().insert(k@, JsonModel::Num(dec_text_int(n as int))),
        ),
{
    let val = v_from_i64(n as i64);
    v_insert(obj, k, val);
}

fn put_num_token(obj: &mut serde_json::Value, k: &str, t: &str)
    requires
        obj_of(jmodel(*old(obj))) is Some,
        is_normal_number_token(t@),
    ensures
        jmodel(*final(obj)) == JsonModel::Obj(
            obj_of(jmodel(*old(obj))).unwrap().insert(k@, JsonModel::Num(t@)),
        ),
{
    match v_from_num_token(t) {
        Some(val) => v_insert(obj, k, val),
        None => {
            proof {
                assert(false);
            }
        },
    }
}

fn encode_status_value(s: &StatusReply) -> (r: serde_json::Value)
    ensures
        jmodel(r) == spec_encode_status(s@),
{
    let mut o = v_empty_object();
    put_str(&mut o, "device_id", s.device_id.as_str());
    put_u64(&mut o, "device_status", s.device_status as u64);
    put_u64(&mut o, "connection_status", s.connection_status as u64);
    put_u64(&mut o, "date_time", s.date_time);
    o
}

#[verifier::rlimit(50)]
fn encode_detail_value(d: &ReportDetailReply) -> (r: serde_json::Value)
    requires
        detail_wf(d@),
    ensures
        jmodel(r) == spec_encode_detail(d@),
{
    let mut o = v_empty_object();
    put_num_token(&mut o, "boiler_temp", d.boiler_temp.as_str());
    put_num_token(&mut o, "boiler_return_temp", d.boiler_return_temp.as_str());
    put_u64(&mut o, "min_mod_level", d.min_mod_level as u64);
    put_u64(&mut o, "rel_mod_level", d.rel_mod_level as u64);
    put_u64(&mut o, "boiler_capacity", d.boiler_capacity as u64);
    put_num_token(&mut o, "target_temp", d.target_temp.as_str());
    put_num_token(&mut o, "overshoot", d.overshoot.as_str());
    put_num_token(&mut o, "max_boiler_temp", d.max_boiler_temp.as_str());
    put_num_token(&mut o, "alpha_used", d.alpha_used.as_str());
    put_u64(&mut o, "regulation_state", d.regulation_state as u64);
    put_num_token(&mut o, "ch_m_dot_c", d.ch_m_dot_c.as_str());
    put_u64(&mut o, "c_house", d.c_house as u64);
    put_num_token(&mut o, "r_rad", d.r_rad.as_str());
    put_num_token(&mut o, "r_env", d.r_env.as_str());
    put_num_token(&mut o, "alpha", d.alpha.as_str());
    put_num_token(&mut o, "alpha_max", d.alpha_max.as_str());
    put_u64(&mut o, "delay", d.delay as u64);
    put_num_token(&mut o, "mu", d.mu.as_str());
    put_num_token(&mut o, "threshold_offs", d.threshold_offs.as_str());
    put_num_token(&mut o, "wd_k_factor", d.wd_k_factor.as_str());
    put_num_token(&mut o, "wd_exponent", d.wd_exponent.as_str());
    put_u64(&mut o, "lmuc_burner_hours", d.lmuc_burner_hours as u64);
    put_u64(&mut o, "lmuc_dhw_hours", d.lmuc_dhw_hours as u64);
    put_num_token(&mut o, "KP", d.KP.as_str());
    put_num_token(&mut o, "KI", d.KI.as_str());
    o
}

#[verifier::rlimit(50)]
fn encode_report_value(rep: &ReportReply) -> (r: serde_json::Value)
    requires
        report_wf(rep@),
    ensures
        jmodel(r) == spec_encode_report(rep@),
{
    let mut o = v_empty_object();
    put_u64(&mut o, "report_time", rep.report_time);
    put_num_token(&mut o, "burning_hours", rep.burning_hours.as_str());
    put_str(&mut o, "device_errors", rep.device_errors.as_str());
    put_str(&mut o, "boiler_errors", rep.boiler_errors.as_str());
    put_num_token(&mut o, "room_temp", rep.room_temp.as_str());
    put_num_token(&mut o, "outside_temp", rep.outside_temp.as_str());
    put_num_token(&mut o, "dbg_outside_temp", rep.dbg_outside_temp.as_str());
    put_num_token(&mut o, "pcb_temp", rep.pcb_temp.as_str());
    put_num_token(&mut o, "ch_setpoint", rep.ch_setpoint.as_str());
    put_num_token(&mut o, "dhw_water_temp", rep.dhw_water_temp.as_str());
    put_num_token(&mut o, "ch_water_temp", rep.ch_water_temp.as_str());
    put_num_token(&mut o, "dhw_water_pres", rep.dhw_water_pres.as_str());
    put_num_token(&mut o, "ch_water_pres", rep.ch_water_pres.as_str());
    put_num_token(&mut o, "ch_return_temp", rep.ch_return_temp.as_str());
    put_u64(&mut o, "boiler_status", rep.boiler_status as u64);
    put_u64(&mut o, "boiler_config", rep.boiler_config as u64);
    put_u64(&mut o, "ch_time_to_temp", rep.ch_time_to_temp as u64);
    put_num_token(&mut o, "shown_set_temp", rep.shown_set_temp.as_str());
    put_u64(&mut o, "power_cons", rep.power_cons as u64);
    put_num_token(&mut o, "tout_avg", rep.tout_avg.as_str());
    put_u64(&mut o, "rssi", rep.rssi as u64);
    put_i16(&mut o, "current", rep.current);
    put_u64(&mut o, "voltage", rep.voltage as u64);
    put_u64(&mut o, "charge_status", rep.charge_status as u64);
    put_u64(&mut o, "lmuc_burner_starts", rep.lmuc_burner_starts as u64);
    put_num_token(&mut o, "dhw_flow_rate", rep.dhw_flow_rate.as_str());
    put_u64(&mut o, "resets", rep.resets as u64);
    put_u64(&mut o, "memory_allocation", rep.memory_allocation as u64);
    match &rep.details {
        Some(d) => {
            let dv = encode_detail_value(d);
            v_insert(&mut o, "details", dv);
        },
        None => {},
    }
    o
}

fn encode_reply_value(rep: &RetrieveReply) -> (r: serde_json::Value)
    requires
        match rep@.report {
            Some(rr) => report_wf(rr),
            None => true,
        },
    ensures
        jmodel(r) == spec_encode_reply(rep@),
{
    let mut o = v_empty_object();
    put_u64(&mut o, "seqnr", rep.seqnr as u64);
    match &rep.status {
        Some(s) => {
            let sv = encode_status_value(s);
            v_insert(&mut o, "status", sv);
        },
        None => {},
    }
    match &rep.report {
        Some(rr) => {
            let rv = encode_report_value(rr);
            v_insert(&mut o, "report", rv);
        },
        None => {},
    }
    put_u64(&mut o, "acc_status", rep.acc_status as u64);
    o
}


proof fn lemma_wire_ready_status(s: SpecStatusReply, n: int)
    requires
        n >= 2,
    ensures
        wire_ready(spec_encode_status(s), n),
{
    lemma_dec_text_int_normal(s.device_status as int);
    lemma_dec_text_int_normal(s.connection_status as int);
    lemma_dec_text_int_normal(s.date_time as int);
    assert(dec_text_int(s.device_status as int) == dec_text(s.device_status as nat));
    assert(dec_text_int(s.connection_status as int) == dec_text(s.connection_status as nat));
    assert(dec_text_int(s.date_time as int) == dec_text(s.date_time as nat));
    let o = obj_of(spec_encode_status(s)).unwrap();
    assert forall|k: Seq<char>| o.contains_key(k) implies wire_ready(#[trigger] o[k], n - 1) by {}
    assert(wire_ready(spec_encode_status(s), n));
}

proof fn lemma_wire_ready_detail(d: SpecReportDetailReply, n: int)
    requires
        n >= 2,
        detail_wf(d),
    ensures
        wire_ready(spec_encode_detail(d), n),
{
    lemma_dec_text_int_normal(d.min_mod_level as int);
    lemma_dec_text_int_normal(d.rel_mod_level as int);
    lemma_dec_text_int_normal(d.boiler_capacity as int);
    lemma_dec_text_int_normal(d.regulation_state as int);
    lemma_dec_text_int_normal(d.c_house as int);
    lemma_dec_text_int_normal(d.delay as int);
    lemma_dec_text_int_normal(d.lmuc_burner_hours as int);
    lemma_dec_text_int_normal(d.lmuc_dhw_hours as int);
    assert(dec_text_int(d.min_mod_level as int) == dec_text(d.min_mod_level as nat));
    assert(dec_text_int(d.rel_mod_level as int) == dec_text(d.rel_mod_level as nat));
    assert(dec_text_int(d.boiler_capacity as int) == dec_text(d.boiler_capacity as nat));
    assert(dec_text_int(d.regulation_state as int) == dec_text(d.regulation_state as nat));
    assert(dec_text_int(d.c_house as int) == dec_text(d.c_house as nat));
    assert(dec_text_int(d.delay as int) == dec_text(d.delay as nat));
    assert(dec_text_int(d.lmuc_burner_hours as int) == dec_text(d.lmuc_burner_hours as nat));
    assert(dec_text_int(d.lmuc_dhw_hours as int) == dec_text(d.lmuc_dhw_hours as nat));
    let o = obj_of(spec_encode_detail(d)).unwrap();
    assert forall|k: Seq<char>| o.contains_key(k) implies wire_ready(#[trigger] o[k], n - 1) by {}
    assert(wire_ready(spec_encode_detail(d), n));
}

proof fn lemma_wire_ready_report(r: SpecReportReply, n: int)
    requires
        n >= 3,
        report_wf(r),
    ensures
        wire_ready(spec_encode_report(r), n),
{
    lemma_dec_text_int_normal(r.report_time as int);
    lemma_dec_text_int_normal(r.boiler_status as int);
    lemma_dec_text_int_normal(r.boiler_config as int);
    lemma_dec_text_int_normal(r.ch_time_to_temp as int);
    lemma_dec_text_int_normal(r.power_cons as int);
    lemma_dec_text_int_normal(r.rssi as int);
    lemma_dec_text_int_normal(r.current as int);
    lemma_dec_text_int_normal(r.voltage as int);
    lemma_dec_text_int_normal(r.charge_status as int);
    lemma_dec_text_int_normal(r.lmuc_burner_starts as int);
    lemma_dec_text_int_normal(r.resets as int);
    lemma_dec_text_int_normal(r.memory_allocation as int);
    assert(dec_text_int(r.report_time as int) == dec_text(r.report_time as nat));
    assert(dec_text_int(r.boiler_status as int) == dec_text(r.boiler_status as nat));
    assert(dec_text_int(r.boiler_config as int) == dec_text(r.boiler_config as nat));
    assert(dec_text_int(r.ch_time_to_temp as int) == dec_text(r.ch_time_to_temp as nat));
    assert(dec_text_int(r.power_cons as int) == dec_text(r.power_cons as nat));
    assert(dec_text_int(r.rssi as int) == dec_text(r.rssi as nat));
    assert(dec_text_int(r.voltage as int) == dec_text(r.voltage as nat));
    assert(dec_text_int(r.charge_status as int) == dec_text(r.charge_status as nat));
    assert(dec_text_int(r.lmuc_burner_starts as int) == dec_text(r.lmuc_burner_starts as nat));
    assert(dec_text_int(r.resets as int) == dec_text(r.resets as nat));
    assert(dec_text_int(r.memory_allocation as int) == dec_text(r.memory_allocation as nat));
    if let Some(d) = r.details {
        lemma_wire_ready_detail(d, n - 1);
    }
    let o = obj_of(spec_encode_report(r)).unwrap();
    assert forall|k: Seq<char>| o.contains_key(k) implies wire_ready(#[trigger] o[k], n - 1) by {}
    assert(wire_ready(spec_encode_report(r), n));
}

proof fn lemma_wire_ready_reply(r: SpecRetrieveReply, n: int)
    requires
        n >= 4,
        match r.report {
            Some(rr) => report_wf(rr),
            None => true,
        },
    ensures
        wire_ready(spec_encode_reply(r), n),
{
    lemma_dec_text_int_normal(r.seqnr as int);
    lemma_dec_text_int_normal(r.acc_status as int);
    assert(dec_text_int(r.seqnr as int) == dec_text(r.seqnr as nat));
    assert(dec_text_int(r.acc_status as int) == dec_text(r.acc_status as nat));
    if let Some(st) = r.status {
        lemma_wire_ready_status(st, n - 1);
    }
    if let Some(rr) = r.report {
        lemma_wire_ready_report(rr, n - 1);
    }
    let o = obj_of(spec_encode_reply(r)).unwrap();
    assert forall|k: Seq<char>| o.contains_key(k) implies wire_ready(#[trigger] o[k], n - 1) by {}
    assert(wire_ready(spec_encode_reply(r), n));
}

proof fn lemma_wire_ready_response(v: SpecResponseEnvelope, n: int)
    requires
        n >= 5,
        response_wf(v),
    ensures
        wire_ready(spec_encode_response(v), n),
{
    lemma_wire_ready_reply(v.retrieve_reply, n - 1);
    let o = obj_of(spec_encode_response(v)).unwrap();
    assert forall|k: Seq<char>| o.contains_key(k) implies wire_ready(#[trigger] o[k], n - 1) by {}
    assert(wire_ready(spec_encode_response(v), n));
}

proof fn lemma_wire_ready_request(req: crate::schema::SpecRequestEnvelope, n: int)
    requires
        n >= 4,
    ensures
        wire_ready(spec_encode_request(req), n),
{
    let m = req.retrieve_message;
    lemma_dec_text_int_normal(m.seqnr as int);
    lemma_dec_text_int_normal(m.info as int);
    assert(dec_text_int(m.seqnr as int) == dec_text(m.seqnr as nat));
    assert(dec_text_int(m.info as int) == dec_text(m.info as nat));
    let ao = obj_of(spec_encode_auth(m.account_auth)).unwrap();
    assert forall|k: Seq<char>| ao.contains_key(k) implies wire_ready(#[trigger] ao[k], n - 3) by {}
    assert(wire_ready(spec_encode_auth(m.account_auth), n - 2));
    let mo = obj_of(spec_encode_message(m)).unwrap();
    assert forall|k: Seq<char>| mo.contains_key(k) implies wire_ready(#[trigger] mo[k], n - 2) by {}
    assert(wire_ready(spec_encode_message(m), n - 1));
    let o = obj_of(spec_encode_request(req)).unwrap();
    assert forall|k: Seq<char>| o.contains_key(k) implies wire_ready(#[trigger] o[k], n - 1) by {}
    assert(wire_ready(spec_encode_request(req), n));
}

/// Write one reply document as compact JSON text, the inverse of
/// `decode_response`. The reply envelope is encoded only so that decoding
/// can be exercised; the device, not this system, produces replies.
pub fn encode_response(v: &ResponseEnvelope) -> (r: String)
    requires
        response_wf(v@),
    ensures
        spec_parse_json(r@) == Some(spec_encode_response(v@)),
        r@ == printed_json(spec_encode_response(v@)),
{
    let mut o = v_empty_object();
    let rv = encode_reply_value(&v.retrieve_reply);
    v_insert(&mut o, "retrieve_reply", rv);
    proof {
        assert(jmodel(o) == spec_encode_response(v@));
        lemma_wire_ready_response(v@, 127);
    }
    json_to_text(&o)
}

/// Write one request document as compact JSON text, with the wire member
/// names exactly as the device expects them. Total: every request record
/// encodes.
pub fn encode_request(req: &crate::schema::RequestEnvelope) -> (r: String)
    ensures
        spec_parse_json(r@) == Some(spec_encode_request(req@)),
        r@ == printed_json(spec_encode_request(req@)),
{
    let msg = &req.retrieve_message;
    let mut auth = v_empty_object();
    put_str(&mut auth, "user_account", msg.account_auth.user_account.as_str());
    put_str(&mut auth, "mac_address", msg.account_auth.mac_address.as_str());
    let mut m = v_empty_object();
    put_u64(&mut m, "seqnr", msg.seqnr as u64);
    v_insert(&mut m, "account_auth", auth);
    put_u64(&mut m, "info", msg.info as u64);
    let mut o = v_empty_object();
    v_insert(&mut o, "retrieve_message", m);
    proof {
        assert(jmodel(o) == spec_encode_request(req@));
        lemma_wire_ready_request(req@, 127);
    }
    json_to_text(&o)
}


proof fn reveal_status_keys()
    ensures
        "device_id"@ != "device_status"@,
        "device_id"@ != "connection_status"@,
        "device_id"@ != "date_time"@,
        "device_status"@ != "connection_status"@,
        "device_status"@ != "date_time"@,
        "connection_status"@ != "date_time"@,
{
    reveal_strlit("device_id");
    reveal_strlit("device_status");
    reveal_strlit("connection_status");
    reveal_strlit("date_time");
    assert("device_id"@.len() == 9);
    assert("device_status"@.len() == 13);
    assert("connection_status"@.len() == 17);
    assert("date_time"@.len() == 9);
    assert("device_id"@[1] == 'e');
    assert("date_time"@[1] == 'a');
}

/// Encoding a status record and reading it back yields the record.
pub proof fn lemma_status_round_trip(s: SpecStatusReply)
    ensures
        spec_decode_status(spec_encode_status(s)) == Some(s),
{
    reveal_status_keys();
    crate::numtext::lemma_dec_text(s.device_status as nat);
    crate::numtext::lemma_dec_text(s.connection_status as nat);
    crate::numtext::lemma_dec_text(s.date_time as nat);
    let o = obj_of(spec_encode_status(s)).unwrap();
    assert(member(o, "device_id"@) == Some(JsonModel::Str(s.device_id)));
    assert(member(o, "device_status"@) == Some(
        JsonModel::Num(dec_text(s.device_status as nat)),
    ));
    assert(member(o, "connection_status"@) == Some(
        JsonModel::Num(dec_text(s.connection_status as nat)),
    ));
    assert(member(o, "date_time"@) == Some(JsonModel::Num(dec_text(s.date_time as nat))));
}

/// Reading canonical signed decimal text back as an `i16` yields the
/// number it was written from.
proof fn lemma_i16_text_round_trip(n: i16)
    ensures
        parse_i16_text(dec_text_int(n as int)) == Some(n),
{
    if n >= 0 {
        crate::numtext::lemma_dec_text(n as nat);
        let s = dec_text_int(n as int);
        assert(crate::numtext::is_digit(s[0]));
        assert(s[0] != '-');
    } else {
        crate::numtext::lemma_dec_text((-(n as int)) as nat);
        let s = dec_text_int(n as int);
        let t = s.subrange(1, s.len() as int);
        assert(t =~= dec_text((-(n as int)) as nat));
        assert(s[0] == '-');
    }
}

#[verifier::rlimit(100)]
#[verifier::spinoff_prover]
proof fn lemma_detail_members(d: SpecReportDetailReply)
    ensures
        spec_decode_detail(spec_encode_detail(d)) == Some(d),
{
    reveal_strlit("boiler_temp");
    reveal_strlit("boiler_return_temp");
    reveal_strlit("min_mod_level");
    reveal_strlit("rel_mod_level");
    reveal_strlit("boiler_capacity");
    reveal_strlit("target_temp");
    reveal_strlit("overshoot");
    reveal_strlit("max_boiler_temp");
    reveal_strlit("alpha_used");
    reveal_strlit("regulation_state");
    reveal_strlit("ch_m_dot_c");
    reveal_strlit("c_house");
    reveal_strlit("r_rad");
    reveal_strlit("r_env");
    reveal_strlit("alpha");
    reveal_strlit("alpha_max");
    reveal_strlit("delay");
    reveal_strlit("mu");
    reveal_strlit("threshold_offs");
    reveal_strlit("wd_k_factor");
    reveal_strlit("wd_exponent");
    reveal_strlit("lmuc_burner_hours");
    reveal_strlit("lmuc_dhw_hours");
    reveal_strlit("KP");
    reveal_strlit("KI");
    assert("boiler_temp"@.len() == 11);
    assert("boiler_return_temp"@.len() == 18);
    assert("min_mod_level"@.len() == 13);
    assert("rel_mod_level"@.len() == 13);
    assert("boiler_capacity"@.len() == 15);
    assert("target_temp"@.len() == 11);
    assert("overshoot"@.len() == 9);
    assert("max_boiler_temp"@.len() == 15);
    assert("alpha_used"@.len() == 10);
    assert("regulation_state"@.len() == 16);
    assert("ch_m_dot_c"@.len() == 10);
    assert("c_house"@.len() == 7);
    assert("r_rad"@.len() == 5);
    assert("r_env"@.len() == 5);
    assert("alpha"@.len() == 5);
    assert("alpha_max"@.len() == 9);
    assert("delay"@.len() == 5);
    assert("mu"@.len() == 2);
    assert("threshold_offs"@.len() == 14);
    assert("wd_k_factor"@.len() == 11);
    assert("wd_exponent"@.len() == 11);
    assert("lmuc_burner_hours"@.len() == 17);
    assert("lmuc_dhw_hours"@.len() == 14);
    assert("KP"@.len() == 2);
    assert("KI"@.len() == 2);
    assert("boiler_temp"@[0] == 'b' && "target_temp"@[0] == 't' && "wd_k_factor"@[0] == 'w'
        && "wd_exponent"@[0] == 'w' && "wd_k_factor"@[3] == 'k' && "wd_exponent"@[3] == 'e');
    assert("min_mod_level"@[0] == 'm' && "rel_mod_level"@[0] == 'r');
    assert("boiler_capacity"@[0] == 'b' && "max_boiler_temp"@[0] == 'm');
    assert("overshoot"@[0] == 'o' && "alpha_max"@[0] == 'a');
    assert("alpha_used"@[0] == 'a' && "ch_m_dot_c"@[0] == 'c');
    assert("r_rad"@[2] == 'r' && "r_env"@[2] == 'e' && "r_rad"@[0] == 'r' && "alpha"@[0] == 'a'
        && "delay"@[0] == 'd');
    assert("threshold_offs"@[0] == 't' && "lmuc_dhw_hours"@[0] == 'l');
    assert("mu"@[0] == 'm' && "KP"@[0] == 'K' && "KI"@[0] == 'K' && "KP"@[1] == 'P' && "KI"@[1]
        == 'I');
    crate::numtext::lemma_dec_text(d.min_mod_level as nat);
    crate::numtext::lemma_dec_text(d.rel_mod_level as nat);
    crate::numtext::lemma_dec_text(d.boiler_capacity as nat);
    crate::numtext::lemma_dec_text(d.regulation_state as nat);
    crate::numtext::lemma_dec_text(d.c_house as nat);
    crate::numtext::lemma_dec_text(d.delay as nat);
    crate::numtext::lemma_dec_text(d.lmuc_burner_hours as nat);
    crate::numtext::lemma_dec_text(d.lmuc_dhw_hours as nat);
    let o = obj_of(spec_encode_detail(d)).unwrap();
    assert(member(o, "boiler_temp"@) == Some(JsonModel::Num(d.boiler_temp)));
    assert(member(o, "boiler_return_temp"@) == Some(JsonModel::Num(d.boiler_return_temp)));
    assert(member(o, "min_mod_level"@) == Some(
        JsonModel::Num(dec_text(d.min_mod_level as nat)),
    ));
    assert(member(o, "rel_mod_level"@) == Some(
        JsonModel::Num(dec_text(d.rel_mod_level as nat)),
    ));
    assert(member(o, "boiler_capacity"@) == Some(
        JsonModel::Num(dec_text(d.boiler_capacity as nat)),
    ));
    assert(member(o, "target_temp"@) == Some(JsonModel::Num(d.target_temp)));
    assert(member(o, "overshoot"@) == Some(JsonModel::Num(d.overshoot)));
    assert(member(o, "max_boiler_temp"@) == Some(JsonModel::Num(d.max_boiler_temp)));
    assert(member(o, "alpha_used"@) == Some(JsonModel::Num(d.alpha_used)));
    assert(member(o, "regulation_state"@) == Some(
        JsonModel::Num(dec_text(d.regulation_state as nat)),
    ));
    assert(member(o, "ch_m_dot_c"@) == Some(JsonModel::Num(d.ch_m_dot_c)));
    assert(member(o, "c_house"@) == Some(JsonModel::Num(dec_text(d.c_house as nat))));
    assert(member(o, "r_rad"@) == Some(JsonModel::Num(d.r_rad)));
    assert(member(o, "r_env"@) == Some(JsonModel::Num(d.r_env)));
    assert(member(o, "alpha"@) == Some(JsonModel::Num(d.alpha)));
    assert(member(o, "alpha_max"@) == Some(JsonModel::Num(d.alpha_max)));
    assert(member(o, "delay"@) == Some(JsonModel::Num(dec_text(d.delay as nat))));
    assert(member(o, "mu"@) == Some(JsonModel::Num(d.mu)));
    assert(member(o, "threshold_offs"@) == Some(JsonModel::Num(d.threshold_offs)));
    assert(member(o, "wd_k_factor"@) == Some(JsonModel::Num(d.wd_k_factor)));
    assert(member(o, "wd_exponent"@) == Some(JsonModel::Num(d.wd_exponent)));
    assert(member(o, "lmuc_burner_hours"@) == Some(
        JsonModel::Num(dec_text(d.lmuc_burner_hours as nat)),
    ));
    assert(member(o, "lmuc_dhw_hours"@) == Some(
        JsonModel::Num(dec_text(d.lmuc_dhw_hours as nat)),
    ));
    assert(member(o, "KP"@) == Some(JsonModel::Num(d.KP)));
    assert(member(o, "KI"@) == Some(JsonModel::Num(d.KI)));
}

/// Encoding a detail record and reading it back yields the record.
pub proof fn lemma_detail_round_trip(d: SpecReportDetailReply)
    ensures
        spec_decode_detail(spec_encode_detail(d)) == Some(d),
{
    lemma_detail_members(d);
}


#[verifier::rlimit(100)]
#[verifier::spinoff_prover]
proof fn lemma_report_members(r: SpecReportReply)
    ensures
        spec_decode_report(spec_encode_report(r)) == Some(r),
{
    reveal_strlit("report_time");
    reveal_strlit("burning_hours");
    reveal_strlit("device_errors");
    reveal_strlit("boiler_errors");
    reveal_strlit("room_temp");
    reveal_strlit("outside_temp");
    reveal_strlit("dbg_outside_temp");
    reveal_strlit("pcb_temp");
    reveal_strlit("ch_setpoint");
    reveal_strlit("dhw_water_temp");
    reveal_strlit("ch_water_temp");
    reveal_strlit("dhw_water_pres");
    reveal_strlit("ch_water_pres");
    reveal_strlit("ch_return_temp");
    reveal_strlit("boiler_status");
    reveal_strlit("boiler_config");
    reveal_strlit("ch_time_to_temp");
    reveal_strlit("shown_set_temp");
    reveal_strlit("power_cons");
    reveal_strlit("tout_avg");
    reveal_strlit("rssi");
    reveal_strlit("current");
    reveal_strlit("voltage");
    reveal_strlit("charge_status");
    reveal_strlit("lmuc_burner_starts");
    reveal_strlit("dhw_flow_rate");
    reveal_strlit("resets");
    reveal_strlit("memory_allocation");
    reveal_strlit("details");
    assert("report_time"@.len() == 11);
    assert("burning_hours"@.len() == 13);
    assert("device_errors"@.len() == 13);
    assert("boiler_errors"@.len() == 13);
    assert("room_temp"@.len() == 9);
    assert("outside_temp"@.len() == 12);
    assert("dbg_outside_temp"@.len() == 16);
    assert("pcb_temp"@.len() == 8);
    assert("ch_setpoint"@.len() == 11);
    assert("dhw_water_temp"@.len() == 14);
    assert("ch_water_temp"@.len() == 13);
    assert("dhw_water_pres"@.len() == 14);
    assert("ch_water_pres"@.len() == 13);
    assert("ch_return_temp"@.len() == 14);
    assert("boiler_status"@.len() == 13);
    assert("boiler_config"@.len() == 13);
    assert("ch_time_to_temp"@.len() == 15);
    assert("shown_set_temp"@.len() == 14);
    assert("power_cons"@.len() == 10);
    assert("tout_avg"@.len() == 8);
    assert("rssi"@.len() == 4);
    assert("current"@.len() == 7);
    assert("voltage"@.len() == 7);
    assert("charge_status"@.len() == 13);
    assert("lmuc_burner_starts"@.len() == 18);
    assert("dhw_flow_rate"@.len() == 13);
    assert("resets"@.len() == 6);
    assert("memory_allocation"@.len() == 17);
    assert("details"@.len() == 7);
    assert("report_time"@[0] == 'r' && "ch_setpoint"@[0] == 'c');
    assert("burning_hours"@[0] == 'b' && "burning_hours"@[1] == 'u');
    assert("device_errors"@[0] == 'd' && "device_errors"@[1] == 'e');
    assert("boiler_errors"@[0] == 'b' && "boiler_errors"@[1] == 'o' && "boiler_errors"@[7]
        == 'e');
    assert("boiler_status"@[1] == 'o' && "boiler_status"@[7] == 's');
    assert("boiler_config"@[1] == 'o' && "boiler_config"@[7] == 'c');
    assert("ch_water_temp"@[0] == 'c' && "ch_water_temp"@[2] == '_' && "ch_water_temp"@[9]
        == 't');
    assert("ch_water_pres"@[0] == 'c' && "ch_water_pres"@[2] == '_' && "ch_water_pres"@[9]
        == 'p');
    assert("charge_status"@[0] == 'c' && "charge_status"@[2] == 'a');
    assert("dhw_flow_rate"@[0] == 'd' && "dhw_flow_rate"@[1] == 'h');
    assert("pcb_temp"@[0] == 'p' && "tout_avg"@[0] == 't');
    assert("dhw_water_temp"@[0] == 'd' && "dhw_water_temp"@[10] == 't');
    assert("dhw_water_pres"@[0] == 'd' && "dhw_water_pres"@[10] == 'p');
    assert("ch_return_temp"@[0] == 'c' && "shown_set_temp"@[0] == 's');
    assert("current"@[0] == 'c' && "voltage"@[0] == 'v' && "details"@[0] == 'd');
    crate::numtext::lemma_dec_text(r.report_time as nat);
    crate::numtext::lemma_dec_text(r.boiler_status as nat);
    crate::numtext::lemma_dec_text(r.boiler_config as nat);
    crate::numtext::lemma_dec_text(r.ch_time_to_temp as nat);
    crate::numtext::lemma_dec_text(r.power_cons as nat);
    crate::numtext::lemma_dec_text(r.rssi as nat);
    crate::numtext::lemma_dec_text(r.voltage as nat);
    crate::numtext::lemma_dec_text(r.charge_status as nat);
    crate::numtext::lemma_dec_text(r.lmuc_burner_starts as nat);
    crate::numtext::lemma_dec_text(r.resets as nat);
    crate::numtext::lemma_dec_text(r.memory_allocation as nat);
    lemma_i16_text_round_trip(r.current);
    match r.details {
        Some(d) => {
            lemma_detail_members(d);
        },
        None => {},
    }
    let o = obj_of(spec_encode_report(r)).unwrap();
    assert(member(o, "report_time"@) == Some(JsonModel::Num(dec_text(r.report_time as nat))));
    assert(member(o, "burning_hours"@) == Some(JsonModel::Num(r.burning_hours)));
    assert(member(o, "device_errors"@) == Some(JsonModel::Str(r.device_errors)));
    assert(member(o, "boiler_errors"@) == Some(JsonModel::Str(r.boiler_errors)));
    assert(member(o, "room_temp"@) == Some(JsonModel::Num(r.room_temp)));
    assert(member(o, "outside_temp"@) == Some(JsonModel::Num(r.outside_temp)));
    assert(member(o, "dbg_outside_temp"@) == Some(JsonModel::Num(r.dbg_outside_temp)));
    assert(member(o, "pcb_temp"@) == Some(JsonModel::Num(r.pcb_temp)));
    assert(member(o, "ch_setpoint"@) == Some(JsonModel::Num(r.ch_setpoint)));
    assert(member(o, "dhw_water_temp"@) == Some(JsonModel::Num(r.dhw_water_temp)));
    assert(member(o, "ch_water_temp"@) == Some(JsonModel::Num(r.ch_water_temp)));
    assert(member(o, "dhw_water_pres"@) == Some(JsonModel::Num(r.dhw_water_pres)));
    assert(member(o, "ch_water_pres"@) == Some(JsonModel::Num(r.ch_water_pres)));
    assert(member(o, "ch_return_temp"@) == Some(JsonModel::Num(r.ch_return_temp)));
    assert(member(o, "boiler_status"@) == Some(
        JsonModel::Num(dec_text(r.boiler_status as nat)),
    ));
    assert(member(o, "boiler_config"@) == Some(
        JsonModel::Num(dec_text(r.boiler_config as nat)),
    ));
    assert(member(o, "ch_time_to_temp"@) == Some(
        JsonModel::Num(dec_text(r.ch_time_to_temp as nat)),
    ));
    assert(member(o, "shown_set_temp"@) == Some(JsonModel::Num(r.shown_set_temp)));
    assert(member(o, "power_cons"@) == Some(JsonModel::Num(dec_text(r.power_cons as nat))));
    assert(member(o, "tout_avg"@) == Some(JsonModel::Num(r.tout_avg)));
    assert(member(o, "rssi"@) == Some(JsonModel::Num(dec_text(r.rssi as nat))));
    assert(member(o, "current"@) == Some(JsonModel::Num(dec_text_int(r.current as int))));
    assert(member(o, "voltage"@) == Some(JsonModel::Num(dec_text(r.voltage as nat))));
    assert(member(o, "charge_status"@) == Some(
        JsonModel::Num(dec_text(r.charge_status as nat)),
    ));
    assert(member(o, "lmuc_burner_starts"@) == Some(
        JsonModel::Num(dec_text(r.lmuc_burner_starts as nat)),
    ));
    assert(member(o, "dhw_flow_rate"@) == Some(JsonModel::Num(r.dhw_flow_rate)));
    assert(member(o, "resets"@) == Some(JsonModel::Num(dec_text(r.resets as nat))));
    assert(member(o, "memory_allocation"@) == Some(
        JsonModel::Num(dec_text(r.memory_allocation as nat)),
    ));
    match r.details {
        Some(d) => {
            assert(member(o, "details"@) == Some(spec_encode_detail(d)));
        },
        None => {
            assert(member(o, "details"@) is None);
        },
    }
}

/// Encoding a report record and reading it back yields the record.
pub proof fn lemma_report_round_trip(r: SpecReportReply)
    ensures
        spec_decode_report(spec_encode_report(r)) == Some(r),
{
    lemma_report_members(r);
}

/// Writing a reply and reading it back yields the reply: the optional
/// sections come back present exactly where they were present, and every
/// field, number tokens included, comes back equal. This holds for every
/// reply value, over all combinations of present and absent sections.
#[verifier::rlimit(100)]
#[verifier::spinoff_prover]
pub proof fn lemma_reply_round_trip(r: SpecRetrieveReply)
    ensures
        spec_decode_reply(spec_encode_reply(r)) == Some(r),
{
    reveal_strlit("seqnr");
    reveal_strlit("status");
    reveal_strlit("report");
    reveal_strlit("acc_status");
    assert("seqnr"@.len() == 5);
    assert("status"@.len() == 6);
    assert("report"@.len() == 6);
    assert("acc_status"@.len() == 10);
    assert("status"@[0] == 's' && "report"@[0] == 'r');
    crate::numtext::lemma_dec_text(r.seqnr as nat);
    crate::numtext::lemma_dec_text(r.acc_status as nat);
    match r.status {
        Some(s) => {
            lemma_status_round_trip(s);
        },
        None => {},
    }
    match r.report {
        Some(rep) => {
            lemma_report_members(rep);
        },
        None => {},
    }
    let o = obj_of(spec_encode_reply(r)).unwrap();
    assert(member(o, "seqnr"@) == Some(JsonModel::Num(dec_text(r.seqnr as nat))));
    assert(member(o, "acc_status"@) == Some(JsonModel::Num(dec_text(r.acc_status as nat))));
    match r.status {
        Some(s) => {
            assert(member(o, "status"@) == Some(spec_encode_status(s)));
        },
        None => {
            assert(member(o, "status"@) is None);
        },
    }
    match r.report {
        Some(rep) => {
            assert(member(o, "report"@) == Some(spec_encode_report(rep)));
        },
        None => {
            assert(member(o, "report"@) is None);
        },
    }
}

/// Round trip of the response schema: decoding an encoded response
/// envelope yields the original envelope, field for field, for every
/// envelope value and every combination of present and absent optional
/// sections.
pub proof fn lemma_response_round_trip(v: SpecResponseEnvelope)
    ensures
        spec_decode_response(spec_encode_response(v)) == Some(v),
{
    reveal_strlit("retrieve_reply");
    lemma_reply_round_trip(v.retrieve_reply);
    let o = obj_of(spec_encode_response(v)).unwrap();
    assert(member(o, "retrieve_reply"@) == Some(spec_encode_reply(v.retrieve_reply)));
}

/// Decoding tolerates absent optional sections: a reply object with valid
/// mandatory members and neither a status nor a report member decodes to
/// a reply with both sections absent, not to an error.
pub proof fn lemma_partial_presence_none(o: Map<Seq<char>, JsonModel>)
    requires
        spec_u16_member(o, "seqnr"@) is Some,
        spec_u8_member(o, "acc_status"@) is Some,
        !o.contains_key("status"@),
        !o.contains_key("report"@),
    ensures
        spec_decode_reply(JsonModel::Obj(o)) matches Some(r) && r.status is None
            && r.report is None,
{
}

/// Decoding tolerates a payload carrying only the status section: a reply
/// object with valid mandatory members, a status member that decodes, and
/// no report member decodes to a reply with the status present and the
/// report absent.
pub proof fn lemma_partial_presence_status_only(o: Map<Seq<char>, JsonModel>)
    requires
        spec_u16_member(o, "seqnr"@) is Some,
        spec_u8_member(o, "acc_status"@) is Some,
        o.contains_key("status"@),
        spec_decode_status(o["status"@]) is Some,
        !o.contains_key("report"@),
    ensures
        spec_decode_reply(JsonModel::Obj(o)) matches Some(r) && r.status is Some
            && r.report is None,
{
}

/// An optional section carried as an explicit JSON null decodes to an
/// absent section, exactly as a missing member does, not to an error.
pub proof fn lemma_null_sections_are_absent(o: Map<Seq<char>, JsonModel>)
    requires
        spec_u16_member(o, "seqnr"@) is Some,
        spec_u8_member(o, "acc_status"@) is Some,
        o.contains_key("status"@),
        o["status"@] == JsonModel::Null,
        o.contains_key("report"@),
        o["report"@] == JsonModel::Null,
    ensures
        spec_decode_reply(JsonModel::Obj(o)) matches Some(r) && r.status is None
            && r.report is None,
{
}

/// A reply object without the mandatory accumulated-status member is
/// rejected as a whole, whatever else it carries.
pub proof fn lemma_missing_acc_status_rejected(o: Map<Seq<char>, JsonModel>)
    requires
        !o.contains_key("acc_status"@),
    ensures
        spec_decode_reply(JsonModel::Obj(o)) is None,
{
}

/// A report whose report-time member is a string rather than a number
/// makes the whole reply decode fail.
pub proof fn lemma_report_time_wrong_type_rejected(
    o: Map<Seq<char>, JsonModel>,
    ro: Map<Seq<char>, JsonModel>,
)
    requires
        o.contains_key("report"@),
        o["report"@] == JsonModel::Obj(ro),
        ro.contains_key("report_time"@),
        ro["report_time"@] matches JsonModel::Str(_),
    ensures
        spec_decode_reply(JsonModel::Obj(o)) is None,
{
}

} // verus!
