use osint_recon::error::OsintError;
use osint_recon::fetch::Request;
use osint_recon::json::{parse_response, OsintResult};
use osint_recon::lookup::{dispatch, hibp_request, shodan_request, whois_request, LookupKind};
use osint_recon::report::{report_filename, save_report, saved_notice};
use osint_recon::summary::{analysis_outcome, chat_request};

#[test]
fn kind_names_are_read_exactly() {
    assert_eq!(LookupKind::from_name("whois"), Some(LookupKind::Whois));
    assert_eq!(LookupKind::from_name("shodan"), Some(LookupKind::Shodan));
    assert_eq!(LookupKind::from_name("hibp"), Some(LookupKind::Hibp));
    let strangers = vec!["", "WHOIS", "Whois", "whois ", " whois", "nmap", "dns", "hibp2", "shoda"];
    for name in strangers {
        assert_eq!(LookupKind::from_name(name), None);
    }
}

#[test]
fn whois_request_has_no_key_and_no_agent() {
    let request = whois_request("example.com");
    assert_eq!(
        request,
        Request { url: "https://api.whois.vu/?q=example.com".to_string(), user_agent: None }
    );
}

#[test]
fn shodan_request_embeds_the_key_as_query_parameter() {
    let request = shodan_request("1.2.3.4", Some("k3y"));
    assert_eq!(
        request,
        Ok(Request {
            url: "https://api.shodan.io/shodan/host/1.2.3.4?key=k3y".to_string(),
            user_agent: None,
        })
    );
}

#[test]
fn shodan_request_accepts_an_empty_key() {
    let request = shodan_request("1.2.3.4", Some(""));
    assert_eq!(
        request,
        Ok(Request {
            url: "https://api.shodan.io/shodan/host/1.2.3.4?key=".to_string(),
            user_agent: None,
        })
    );
}

#[test]
fn shodan_request_without_key_names_the_variable() {
    assert_eq!(
        shodan_request("1.2.3.4", None),
        Err(OsintError::MissingApiKey("SHODAN_API_KEY".to_string()))
    );
}

#[test]
fn hibp_request_names_the_tool() {
    let request = hibp_request("someone@example.com");
    assert_eq!(
        request,
        Request {
            url: "https://haveibeenpwned.com/api/v3/breachedaccount/someone@example.com"
                .to_string(),
            user_agent: Some("Rust-OSINT-Tool/1.0".to_string()),
        }
    );
}

#[test]
fn dispatch_chooses_the_provider_by_name() {
    assert_eq!(dispatch("whois", "example.com", None), Ok(whois_request("example.com")));
    assert_eq!(dispatch("whois", "example.com", Some("k")), Ok(whois_request("example.com")));
    assert_eq!(dispatch("shodan", "1.2.3.4", Some("k")), shodan_request("1.2.3.4", Some("k")));
    assert_eq!(dispatch("hibp", "a@b.c", None), Ok(hibp_request("a@b.c")));
}

#[test]
fn dispatch_refuses_unknown_kinds() {
    let strangers = vec!["", "nmap", "WHOIS", "device-intel", "breach", "whois,hibp"];
    for name in strangers {
        assert_eq!(dispatch(name, "example.com", Some("k")), Err(OsintError::InvalidType));
        assert_eq!(dispatch(name, "example.com", None), Err(OsintError::InvalidType));
    }
}

#[test]
fn dispatch_of_shodan_without_key_is_a_missing_credential() {
    assert_eq!(
        dispatch("shodan", "1.2.3.4", None),
        Err(OsintError::MissingApiKey("SHODAN_API_KEY".to_string()))
    );
}

#[test]
fn targets_are_not_validated_or_escaped() {
    assert_eq!(whois_request("").url, "https://api.whois.vu/?q=");
    assert_eq!(whois_request("a b&c=d").url, "https://api.whois.vu/?q=a b&c=d");
    assert_eq!(
        hibp_request("ü@ex.com").url,
        "https://haveibeenpwned.com/api/v3/breachedaccount/ü@ex.com"
    );
}

#[test]
fn parse_response_keeps_compact_json() {
    let data = parse_response("{\"status\":\"ok\"}").expect("a JSON object");
    assert_eq!(data.as_str(), "{\"status\":\"ok\"}");
}

#[test]
fn parse_response_renders_the_value_compactly() {
    let data = parse_response(" { \"status\" :\n \"ok\" , \"n\" : [ 1 , 2 ] } ").expect("JSON");
    assert_eq!(data.as_str(), "{\"n\":[1,2],\"status\":\"ok\"}");
    let scalar = parse_response("  42 ").expect("a JSON number");
    assert_eq!(scalar.as_str(), "42");
    let nothing = parse_response("null").expect("a JSON null");
    assert_eq!(nothing.as_str(), "null");
}

#[test]
fn parse_response_rejects_what_is_not_json() {
    let bodies = vec!["", "not json", "{", "{\"a\":}", "<html></html>", "{\"a\":1} trailing", "{'a':1}"];
    for body in bodies {
        assert_eq!(parse_response(body), Err(OsintError::MalformedResponse));
    }
}

#[test]
fn interpret_takes_what_the_parser_made() {
    let data = OsintResult::interpret(Some("[1,2]".to_string())).expect("a text");
    assert_eq!(data.as_str(), "[1,2]");
    assert_eq!(OsintResult::interpret(None), Err(OsintError::MalformedResponse));
}

#[test]
fn report_name_is_made_of_the_target() {
    assert_eq!(report_filename("example.com"), "example.com_osint_report.json");
    assert_eq!(report_filename("1.2.3.4"), "1.2.3.4_osint_report.json");
    assert_eq!(report_filename(""), "_osint_report.json");
}

#[test]
fn report_round_trip() {
    let data = parse_response("{\"status\":\"ok\"}").expect("a JSON object");
    let file = save_report("example.com", &data);
    assert_eq!(file.name, "example.com_osint_report.json");
    let read_back: serde_json::Value =
        serde_json::from_str(&file.contents).expect("the report is JSON");
    let mut fields = serde_json::Map::new();
    fields.insert("status".to_string(), serde_json::Value::String("ok".to_string()));
    assert_eq!(read_back, serde_json::Value::Object(fields));
}

#[test]
fn report_contents_are_the_compact_text() {
    let data = parse_response("{ \"b\": [true, null], \"a\": {\"x\": 1.5} }").expect("JSON");
    let file = save_report("t", &data);
    assert_eq!(file.contents, "{\"a\":{\"x\":1.5},\"b\":[true,null]}");
    assert_eq!(file.contents, data.as_str());
}

#[test]
fn saved_notice_tells_the_file_name() {
    assert_eq!(
        saved_notice("example.com_osint_report.json"),
        "Report saved to: example.com_osint_report.json"
    );
}

#[test]
fn chat_request_holds_the_two_messages() {
    let data = parse_response("{\"status\": \"ok\"}").expect("JSON");
    let chat = chat_request("sk-test", &data);
    assert_eq!(chat.api_key, "sk-test");
    assert_eq!(chat.system, "You are a cybersecurity expert.");
    assert_eq!(chat.user, "Analyze this OSINT data: {\"status\":\"ok\"}");
}

#[test]
fn analysis_outcome_hands_the_reply_on_unmodified() {
    assert_eq!(
        analysis_outcome(Ok("  Looks fine.\n".to_string())),
        Ok("  Looks fine.\n".to_string())
    );
    assert_eq!(analysis_outcome(Ok(String::new())), Ok(String::new()));
}

#[test]
fn analysis_outcome_turns_every_failure_into_an_error() {
    assert_eq!(
        analysis_outcome(Err("status 401".to_string())),
        Err(OsintError::Analysis("status 401".to_string()))
    );
    assert_eq!(analysis_outcome(Err(String::new())), Err(OsintError::Analysis(String::new())));
}
