use atag_one::codec::{decode_response, encode_request, encode_response, DecodeError};
use atag_one::poller::{advance_seq, log_line, Poller, INFO_RPTDL};
use atag_one::schema::{
    AccountAuth, ReportDetailReply, ReportReply, RequestEnvelope, ResponseEnvelope,
    RetrieveMessage, RetrieveReply, StatusReply,
};

fn status_fixture() -> StatusReply {
    StatusReply {
        device_id: "0000-0000-0000_00-00-000-000".to_owned(),
        device_status: 16385,
        connection_status: 7,
        date_time: 728864357,
    }
}

fn detail_fixture() -> ReportDetailReply {
    ReportDetailReply {
        boiler_temp: "52.5".to_owned(),
        boiler_return_temp: "49.5".to_owned(),
        min_mod_level: 22,
        rel_mod_level: 0,
        boiler_capacity: 0,
        target_temp: "16.0".to_owned(),
        overshoot: "0.000".to_owned(),
        max_boiler_temp: "70.0".to_owned(),
        alpha_used: "0.00007".to_owned(),
        regulation_state: 1,
        ch_m_dot_c: "0.000".to_owned(),
        c_house: 0,
        r_rad: "0.0000".to_owned(),
        r_env: "0.0000".to_owned(),
        alpha: "0.00000".to_owned(),
        alpha_max: "0.00007".to_owned(),
        delay: 1,
        mu: "0.30".to_owned(),
        threshold_offs: "15.0".to_owned(),
        wd_k_factor: "1.6".to_owned(),
        wd_exponent: "1.2".to_owned(),
        lmuc_burner_hours: 2560,
        lmuc_dhw_hours: 29730,
        KP: "24.900".to_owned(),
        KI: "0.00433".to_owned(),
    }
}

fn report_fixture() -> ReportReply {
    ReportReply {
        report_time: 728865408,
        burning_hours: "2560.10".to_owned(),
        device_errors: "".to_owned(),
        boiler_errors: "".to_owned(),
        room_temp: "18.3".to_owned(),
        outside_temp: "-100.0".to_owned(),
        dbg_outside_temp: "21.0".to_owned(),
        pcb_temp: "25.3".to_owned(),
        ch_setpoint: "0.0".to_owned(),
        dhw_water_temp: "43.3".to_owned(),
        ch_water_temp: "18.3".to_owned(),
        dhw_water_pres: "0.0".to_owned(),
        ch_water_pres: "1.4".to_owned(),
        ch_return_temp: "18.3".to_owned(),
        boiler_status: 516,
        boiler_config: 772,
        ch_time_to_temp: 0,
        shown_set_temp: "16.0".to_owned(),
        power_cons: 131,
        tout_avg: "0.0".to_owned(),
        rssi: 47,
        current: 7,
        voltage: 3850,
        charge_status: 1,
        lmuc_burner_starts: 35865,
        dhw_flow_rate: "0.0".to_owned(),
        resets: 2,
        memory_allocation: 5704,
        details: Some(detail_fixture()),
    }
}

#[test]
fn test_status_reply() {
    let inp = r#"{ "retrieve_reply":{ "seqnr":1,"status":{"device_id":"0000-0000-0000_00-00-000-000","device_status":16385,"connection_status":7,"date_time":728864357},"acc_status":2} }"#;

    let ret = ResponseEnvelope {
        retrieve_reply: RetrieveReply {
            seqnr: 1,
            status: Some(StatusReply {
                device_id: "0000-0000-0000_00-00-000-000".to_owned(),
                device_status: 16385,
                connection_status: 7,
                date_time: 728864357,
            }),
            report: None,
            acc_status: 2,
        },
    };

    assert_eq!(decode_response(inp).unwrap(), ret);
}

#[test]
fn test_compleet_reply() {
    let inp = r#"{ "retrieve_reply":{ "seqnr":1,"status":{"device_id":"0000-0000-0000_00-00-000-000","device_status":16385,"connection_status":7,"date_time":728865408},"report":{"report_time":728865408,"burning_hours":2560.10,"device_errors":"","boiler_errors":"","room_temp":18.3,"outside_temp":-100.0,"dbg_outside_temp":21.0,"pcb_temp":25.3,"ch_setpoint":0.0,"dhw_water_temp":43.3,"ch_water_temp":18.3,"dhw_water_pres":0.0,"ch_water_pres":1.4,"ch_return_temp":18.3,"boiler_status":516,"boiler_config":772,"ch_time_to_temp":0,"shown_set_temp":16.0,"power_cons":131,"tout_avg":0.0,"rssi":47,"current":7,"voltage":3850,"charge_status":1,"lmuc_burner_starts":35865,"dhw_flow_rate":0.0,"resets":2,"memory_allocation":5704,"details":{"boiler_temp":52.5,"boiler_return_temp":49.5,"min_mod_level":22,"rel_mod_level":0,"boiler_capacity":0,"target_temp":16.0,"overshoot":0.000,"max_boiler_temp":70.0,"alpha_used":0.00007,"regulation_state":1,"ch_m_dot_c":0.000,"c_house":0,"r_rad":0.0000,"r_env":0.0000,"alpha":0.00000,"alpha_max":0.00007,"delay":1,"mu":0.30,"threshold_offs":15.0,"wd_k_factor":1.6,"wd_exponent":1.2,"lmuc_burner_hours":2560,"lmuc_dhw_hours":29730,"KP":24.900,"KI":0.00433}},"acc_status":2} }"#;

    let ret = ResponseEnvelope {
        retrieve_reply: RetrieveReply {
            seqnr: 1,
            status: Some(StatusReply {
                device_id: "0000-0000-0000_00-00-000-000".to_owned(),
                device_status: 16385,
                connection_status: 7,
                date_time: 728865408,
            }),
            report: Some(report_fixture()),
            acc_status: 2,
        },
    };

    assert_eq!(decode_response(inp).unwrap(), ret);
}

#[test]
fn test_full_reply_preserves_tokens_and_empty_errors() {
    let inp = r#"{"retrieve_reply":{"seqnr":1,"status":{"device_id":"0000-0000-0000_00-00-000-000","device_status":16385,"connection_status":7,"date_time":728865408},"report":{"report_time":728865408,"burning_hours":2560.10,"device_errors":"","boiler_errors":"","room_temp":18.3,"outside_temp":-100.0,"dbg_outside_temp":21.0,"pcb_temp":25.3,"ch_setpoint":0.0,"dhw_water_temp":43.3,"ch_water_temp":18.3,"dhw_water_pres":0.0,"ch_water_pres":1.4,"ch_return_temp":18.3,"boiler_status":516,"boiler_config":772,"ch_time_to_temp":0,"shown_set_temp":16.0,"power_cons":131,"tout_avg":0.0,"rssi":47,"current":7,"voltage":3850,"charge_status":1,"lmuc_burner_starts":35865,"dhw_flow_rate":0.0,"resets":2,"memory_allocation":5704,"details":{"boiler_temp":52.5,"boiler_return_temp":49.5,"min_mod_level":22,"rel_mod_level":0,"boiler_capacity":0,"target_temp":16.0,"overshoot":0.000,"max_boiler_temp":70.0,"alpha_used":0.00007,"regulation_state":1,"ch_m_dot_c":0.000,"c_house":0,"r_rad":0.0000,"r_env":0.0000,"alpha":0.00000,"alpha_max":0.00007,"delay":1,"mu":0.30,"threshold_offs":15.0,"wd_k_factor":1.6,"wd_exponent":1.2,"lmuc_burner_hours":2560,"lmuc_dhw_hours":29730,"KP":24.900,"KI":0.00433}},"acc_status":2}}"#;
    let resp = decode_response(inp).unwrap();
    let report = resp.retrieve_reply.report.as_ref().unwrap();
    assert_eq!(report.device_errors, "");
    assert_eq!(report.boiler_errors, "");
    assert_eq!(report.burning_hours, "2560.10");
    let details = report.details.as_ref().unwrap();
    assert_eq!(details.alpha_used, "0.00007");
    assert_eq!(details.KI, "0.00433");
    assert_eq!(details.KP, "24.900");
}

#[test]
fn test_status_only_scenario() {
    let inp = r#"{"retrieve_reply":{"seqnr":1,"status":{"device_id":"0000-0000-0000_00-00-000-000","device_status":16385,"connection_status":7,"date_time":728864357},"acc_status":2}}"#;
    let resp = decode_response(inp).unwrap();
    assert!(resp.retrieve_reply.report.is_none());
    assert_eq!(resp.retrieve_reply.status.as_ref().unwrap().connection_status, 7);
}

#[test]
fn test_partial_presence_neither_section() {
    let inp = r#"{"retrieve_reply":{"seqnr":9,"acc_status":3}}"#;
    let resp = decode_response(inp).unwrap();
    assert!(resp.retrieve_reply.status.is_none());
    assert!(resp.retrieve_reply.report.is_none());
    assert_eq!(resp.retrieve_reply.seqnr, 9);
    assert_eq!(resp.retrieve_reply.acc_status, 3);
}

fn round_trip(envelope: &ResponseEnvelope) {
    let text = encode_response(envelope);
    let back = decode_response(&text).unwrap();
    assert_eq!(&back, envelope);
}

#[test]
fn test_round_trip_all_presence_combinations() {
    let statuses = [None, Some(status_fixture())];
    for status in &statuses {
        // Without a report, with a report lacking details, and with a
        // report carrying details.
        let mut no_details = report_fixture();
        no_details.details = None;
        let reports = [None, Some(no_details), Some(report_fixture())];
        for report in &reports {
            let envelope = ResponseEnvelope {
                retrieve_reply: RetrieveReply {
                    seqnr: 65535,
                    status: status.clone(),
                    report: report.clone(),
                    acc_status: 2,
                },
            };
            round_trip(&envelope);
        }
    }
}

#[test]
fn test_decode_rejects_invalid_json() {
    assert_eq!(decode_response("not json at all"), Err(DecodeError::InvalidJson));
    assert_eq!(decode_response(""), Err(DecodeError::InvalidJson));
}

#[test]
fn test_decode_rejects_missing_acc_status() {
    let inp = r#"{"retrieve_reply":{"seqnr":1,"status":{"device_id":"x","device_status":1,"connection_status":7,"date_time":3}}}"#;
    assert_eq!(decode_response(inp), Err(DecodeError::InvalidShape));
}

#[test]
fn test_decode_rejects_report_time_as_string() {
    let inp = r#"{"retrieve_reply":{"seqnr":1,"report":{"report_time":"728865408","burning_hours":2560.10,"device_errors":"","boiler_errors":"","room_temp":18.3,"outside_temp":-100.0,"dbg_outside_temp":21.0,"pcb_temp":25.3,"ch_setpoint":0.0,"dhw_water_temp":43.3,"ch_water_temp":18.3,"dhw_water_pres":0.0,"ch_water_pres":1.4,"ch_return_temp":18.3,"boiler_status":516,"boiler_config":772,"ch_time_to_temp":0,"shown_set_temp":16.0,"power_cons":131,"tout_avg":0.0,"rssi":47,"current":7,"voltage":3850,"charge_status":1,"lmuc_burner_starts":35865,"dhw_flow_rate":0.0,"resets":2,"memory_allocation":5704},"acc_status":2}}"#;
    assert_eq!(decode_response(inp), Err(DecodeError::InvalidShape));
}

#[test]
fn test_decode_rejects_wrong_envelope_shape() {
    assert_eq!(decode_response(r#"{"something_else":{}}"#), Err(DecodeError::InvalidShape));
    assert_eq!(decode_response(r#"[1,2,3]"#), Err(DecodeError::InvalidShape));
    assert_eq!(
        decode_response(r#"{"retrieve_reply":{"seqnr":"1","acc_status":2}}"#),
        Err(DecodeError::InvalidShape)
    );
}

#[test]
fn test_sequence_wraparound() {
    assert_eq!(advance_seq(65535), 0);
    assert_eq!(advance_seq(0), 1);
    assert_eq!(advance_seq(41), 42);
}

#[test]
fn test_poller_next_request_advances_and_wraps() {
    let mut poller = Poller::new("1".to_owned(), "d8:61:62:00:00:00".to_owned(), INFO_RPTDL, 65534);
    let first = poller.next_request();
    assert_eq!(first.retrieve_message.seqnr, 65535);
    let second = poller.next_request();
    assert_eq!(second.retrieve_message.seqnr, 0);
    assert_eq!(second.retrieve_message.info, 64);
    assert_eq!(second.retrieve_message.account_auth.user_account, "1");
    assert_eq!(second.retrieve_message.account_auth.mac_address, "d8:61:62:00:00:00");
}

#[test]
fn test_encode_request_exact_text() {
    let req = RequestEnvelope {
        retrieve_message: RetrieveMessage {
            seqnr: 2,
            account_auth: AccountAuth {
                user_account: "1".to_owned(),
                mac_address: "d8:61:62:00:00:00".to_owned(),
            },
            info: INFO_RPTDL,
        },
    };
    let text = encode_request(&req);
    assert_eq!(
        text,
        r#"{"retrieve_message":{"account_auth":{"mac_address":"d8:61:62:00:00:00","user_account":"1"},"info":64,"seqnr":2}}"#
    );
}

#[test]
fn test_encode_request_round_trips_as_json() {
    let req = RequestEnvelope {
        retrieve_message: RetrieveMessage {
            seqnr: 65535,
            account_auth: AccountAuth {
                user_account: "user".to_owned(),
                mac_address: "00:00:00:00:00:00".to_owned(),
            },
            info: 0x10,
        },
    };
    let text = encode_request(&req);
    let doc: serde_json::Value = serde_json::from_str(&text).unwrap();
    let msg = doc.get("retrieve_message").unwrap();
    assert_eq!(msg.get("seqnr").unwrap().as_u64(), Some(65535));
    assert_eq!(msg.get("info").unwrap().as_u64(), Some(16));
    let auth = msg.get("account_auth").unwrap();
    assert_eq!(auth.get("user_account").unwrap().as_str(), Some("user"));
    assert_eq!(auth.get("mac_address").unwrap().as_str(), Some("00:00:00:00:00:00"));
}

#[test]
fn test_log_line_appends_newline() {
    assert_eq!(log_line("{\"retrieve_reply\":{}}"), "{\"retrieve_reply\":{}}\n");
    assert_eq!(log_line(""), "\n");
}

#[test]
fn test_decode_null_sections_absent() {
    let inp = r#"{"retrieve_reply":{"seqnr":4,"status":null,"report":null,"acc_status":2}}"#;
    let resp = decode_response(inp).unwrap();
    assert!(resp.retrieve_reply.status.is_none());
    assert!(resp.retrieve_reply.report.is_none());
}

#[test]
fn test_decode_null_details_absent() {
    let inp = r#"{"retrieve_reply":{"seqnr":1,"report":{"report_time":728865408,"burning_hours":2560.10,"device_errors":"","boiler_errors":"","room_temp":18.3,"outside_temp":-100.0,"dbg_outside_temp":21.0,"pcb_temp":25.3,"ch_setpoint":0.0,"dhw_water_temp":43.3,"ch_water_temp":18.3,"dhw_water_pres":0.0,"ch_water_pres":1.4,"ch_return_temp":18.3,"boiler_status":516,"boiler_config":772,"ch_time_to_temp":0,"shown_set_temp":16.0,"power_cons":131,"tout_avg":0.0,"rssi":47,"current":7,"voltage":3850,"charge_status":1,"lmuc_burner_starts":35865,"dhw_flow_rate":0.0,"resets":2,"memory_allocation":5704,"details":null},"acc_status":2}}"#;
    let resp = decode_response(inp).unwrap();
    let report = resp.retrieve_reply.report.as_ref().unwrap();
    assert!(report.details.is_none());
}

#[test]
fn test_round_trip_exponent_tokens() {
    // Tokens with exponents survive a round trip in the normalized form
    // the wire reader produces: lowercase 'e' with an explicit sign.
    let mut report = report_fixture();
    report.tout_avg = "1e+30".to_owned();
    report.dhw_flow_rate = "5.5e-9".to_owned();
    let envelope = ResponseEnvelope {
        retrieve_reply: RetrieveReply {
            seqnr: 1,
            status: None,
            report: Some(report),
            acc_status: 2,
        },
    };
    round_trip(&envelope);
}

#[test]
fn test_decode_normalizes_exponent_tokens() {
    let inp = r#"{"retrieve_reply":{"seqnr":4,"report":{"report_time":728865408,"burning_hours":2560.10,"device_errors":"","boiler_errors":"","room_temp":18.3,"outside_temp":-100.0,"dbg_outside_temp":21.0,"pcb_temp":25.3,"ch_setpoint":0.0,"dhw_water_temp":43.3,"ch_water_temp":18.3,"dhw_water_pres":0.0,"ch_water_pres":1.4,"ch_return_temp":18.3,"boiler_status":516,"boiler_config":772,"ch_time_to_temp":0,"shown_set_temp":16.0,"power_cons":131,"tout_avg":1E30,"rssi":47,"current":7,"voltage":3850,"charge_status":1,"lmuc_burner_starts":35865,"dhw_flow_rate":5.5e-9,"resets":2,"memory_allocation":5704},"acc_status":2}}"#;
    let resp = decode_response(inp).unwrap();
    let report = resp.retrieve_reply.report.as_ref().unwrap();
    // The reader rewrites exponents to a lowercase 'e' with an explicit
    // sign as it scans; decoded tokens carry that normalized spelling.
    assert_eq!(report.tout_avg, "1e+30");
    assert_eq!(report.dhw_flow_rate, "5.5e-9");
}
