use galion::errors::GalionError;
use galion::config::{GalionApp, GalionArgs, GalionConfig};
use galion::json::{parse, quote, Json, JsonNumber};
use galion::rclone::{RcJobList, Rclone, RpcRequest};

fn ok(text: &str) -> Result<String, String> {
    Ok(text.to_string())
}

fn failed(text: &str) -> Result<String, String> {
    Err(text.to_string())
}

#[test]
fn documents_are_read_into_plain_values() {
    let value = parse(r#"{"b":[1,-2,2.5,"x",null,true],"a":{"k":"v"}}"#).unwrap();
    let items = match value.get("b") {
        Some(Json::Array(items)) => items,
        other => panic!("no array: {:?}", other),
    };
    assert_eq!(items.len(), 6);
    assert_eq!(
        items[0],
        Json::Number(JsonNumber { unsigned: Some(1), decimal: Some("1".to_string()) })
    );
    assert_eq!(
        items[1],
        Json::Number(JsonNumber { unsigned: None, decimal: Some("-2".to_string()) })
    );
    assert_eq!(
        items[2],
        Json::Number(JsonNumber { unsigned: None, decimal: Some("2.5".to_string()) })
    );
    assert_eq!(items[3], Json::Text("x".to_string()));
    assert_eq!(items[4], Json::Null);
    assert_eq!(items[5], Json::Bool(true));
    assert_eq!(items[0].as_u64(), Some(1));
    assert_eq!(items[2].as_u64(), None);
    assert_eq!(items[3].as_str(), Some("x"));
    assert_eq!(items[5].as_bool(), Some(true));
    assert_eq!(items[4].as_bool(), None);
    let inner = value.get("a").unwrap();
    assert_eq!(inner.get("k"), Some(&Json::Text("v".to_string())));
    assert_eq!(inner.get("missing"), None);
    assert_eq!(items[0].get("k"), None);
    assert!(parse("{ not json").is_none());
}

#[test]
fn a_failed_call_gives_the_output_as_the_error() {
    let error = Rclone::decode(&failed("engine is down")).unwrap_err();
    assert_eq!(error, GalionError { message: "engine is down".to_string(), source: None });
}

#[test]
fn an_output_that_is_no_document_gives_the_parser_message() {
    let expected = serde_json::from_str::<serde_json::Value>("{ not json").unwrap_err().to_string();
    let error = Rclone::decode(&ok("{ not json")).unwrap_err();
    assert_eq!(error.message, expected);
    assert_eq!(error.source, Some(expected.clone()));
    assert_eq!(error.to_string(), format!("{} - caused by: {}", expected, expected));
}

#[test]
fn remotes_are_the_strings_of_the_list() {
    let names = Rclone::list_remotes(&ok(r#"{"remotes":["drive",3,"s3",null]}"#)).unwrap();
    assert_eq!(names, vec!["drive".to_string(), "s3".to_string()]);
    assert_eq!(Rclone::list_remotes(&ok(r#"{}"#)).unwrap(), Vec::<String>::new());
    assert_eq!(Rclone::list_remotes(&ok(r#"{"remotes":"x"}"#)).unwrap(), Vec::<String>::new());
    let error = Rclone::list_remotes(&ok(r#"["drive"]"#)).unwrap_err();
    assert_eq!(error, GalionError::new("Bad response - no remotes"));
    let error = Rclone::list_remotes(&failed("boom")).unwrap_err();
    assert_eq!(error, GalionError::new("boom"));
}

#[test]
fn a_failed_sync_gives_the_error_that_the_engine_describes() {
    let error = Rclone::sync(&failed(r#"{"error":"no such remote","status":404}"#)).unwrap_err();
    assert_eq!(error, GalionError::new("no such remote"));
    let error = Rclone::sync(&failed(r#"{ "status": 500, "input": {} }"#)).unwrap_err();
    assert_eq!(error, GalionError::new(r#"{"input":{},"status":500}"#));
    let error = Rclone::sync(&failed(r#"{ "error": 5 }"#)).unwrap_err();
    assert_eq!(error, GalionError::new(r#"{"error":5}"#));
    let error = Rclone::sync(&failed("plain text")).unwrap_err();
    assert!(error.source.is_some());
    assert_eq!(Some(error.message.clone()), error.source);
}

#[test]
fn a_sync_reply_gives_the_job_id() {
    let value = Rclone::sync(&ok(r#"{"jobid":7}"#)).unwrap();
    assert_eq!(Rclone::job_id_of(&value), Some(7));
    assert_eq!(Rclone::job_id_of(&parse(r#"{"jobid":-7}"#).unwrap()), None);
    assert_eq!(Rclone::job_id_of(&parse(r#"{"jobid":"7"}"#).unwrap()), None);
    assert_eq!(Rclone::job_id_of(&parse(r#"{}"#).unwrap()), None);
    assert_eq!(Rclone::job_id_of(&parse(r#"{"jobid":18446744073709551615}"#).unwrap()), Some(u64::MAX));
}

#[test]
fn the_job_list_has_three_lists_of_numbers() {
    let list = Rclone::job_list(&ok(r#"{"jobids":[1,2,3],"runningIds":[2],"finishedIds":[1,3]}"#));
    assert_eq!(
        list,
        Ok(RcJobList { job_ids: vec![1, 2, 3], running_ids: vec![2], finished_ids: vec![1, 3] })
    );
    let list = Rclone::job_list(&ok(r#"{"jobids":[1],"finishedIds":[]}"#));
    assert_eq!(list, Err(GalionError::new("invalid job list: runningIds")));
    let list = Rclone::job_list(&ok(r#"{"jobids":[1,"x"],"runningIds":[],"finishedIds":[]}"#));
    assert_eq!(list, Err(GalionError::new("invalid job list: jobids")));
    let list = Rclone::job_list(&ok(r#"{"jobids":[],"runningIds":[],"finishedIds":7}"#));
    assert_eq!(list, Err(GalionError::new("invalid job list: finishedIds")));
    assert_eq!(Rclone::number_list(&parse(r#"{"k":[4,5]}"#).unwrap(), "k"), Ok(vec![4, 5]));
}

#[test]
fn a_remote_is_read_from_its_configuration() {
    let text = Rclone::get_remote(&ok(r#"{"type":"alias","remote":"drive:photos"}"#)).unwrap();
    assert_eq!(text, r#"{"type":"alias","remote":"drive:photos"}"#);
    assert_eq!(Rclone::remote_target(&parse(&text).unwrap()), Some("drive:photos".to_string()));
    assert_eq!(Rclone::remote_target(&parse(r#"{"remote":1}"#).unwrap()), None);
    assert_eq!(Rclone::remote_target(&parse(r#"{"type":"s3"}"#).unwrap()), None);
    assert_eq!(Rclone::get_remote(&failed("gone")), Err(GalionError::new("gone")));
}

#[test]
fn the_engine_is_started_and_stopped_once() {
    let mut engine = Rclone::new();
    assert!(engine.initialize());
    assert!(!engine.initialize());
    assert!(engine.finalize());
    assert!(!engine.finalize());
    assert!(Rclone::default().initialize());
}

#[test]
fn errors_have_their_texts() {
    let plain = GalionError::new("broken");
    assert_eq!(plain.to_string(), "broken");
    assert_eq!(plain.clone(), plain);
    let caused = GalionError::caused_by("disk full");
    assert_eq!(caused.to_string(), "disk full - caused by: disk full");
    assert_eq!(GalionError::from("text".to_string()), GalionError::new("text"));
    let described = Rclone::error_of(&parse(r#"{"error":"denied"}"#).unwrap(), "whole");
    assert_eq!(described, GalionError::new("denied"));
    let other = Rclone::error_of(&parse(r#"{"status":1}"#).unwrap(), "whole");
    assert_eq!(other, GalionError::new("whole"));
}

fn object(members: &[(&str, serde_json::Value)]) -> String {
    let mut map = serde_json::Map::new();
    for (key, value) in members {
        map.insert(key.to_string(), value.clone());
    }
    serde_json::Value::Object(map).to_string()
}

fn request(method: &str, input: String) -> RpcRequest {
    RpcRequest { method: method.to_string(), input }
}

#[test]
fn strings_are_written_as_json() {
    assert_eq!(quote("plain"), r#""plain""#);
    assert_eq!(quote("a\"b\\c\n"), r#""a\"b\\c\n""#);
    assert_eq!(quote("é€"), "\"é€\"");
    assert_eq!(quote(""), r#""""#);
}

#[test]
fn calls_name_their_method_and_carry_their_input() {
    let nothing = object(&[]);
    assert_eq!(nothing, "{}");
    assert_eq!(Rclone::get_rpc_config_request(), request("options/get", nothing.clone()));
    assert_eq!(Rclone::dump_config_request(), request("config/dump", nothing.clone()));
    assert_eq!(Rclone::list_remotes_request(), request("config/listremotes", nothing.clone()));
    assert_eq!(Rclone::job_list_request(), request("job/list", nothing.clone()));
    assert_eq!(Rclone::plain_request("rc/noop"), request("rc/noop", nothing));
    let tricky = "C:\\rclone \"conf\"/é.conf";
    assert_eq!(
        Rclone::set_config_path_request(tricky),
        request("config/setpath", object(&[("path", serde_json::Value::String(tricky.to_string()))]))
    );
    assert_eq!(
        Rclone::get_remote_request("drive"),
        request("config/get", r#"{"name":"drive"}"#.to_string())
    );
    assert_eq!(
        Rclone::set_config_options_request(r#"{"main":{}}"#),
        request("options/set", r#"{"main":{}}"#.to_string())
    );
    for job_id in [0u64, 7, 1203, u64::MAX] {
        assert_eq!(
            Rclone::job_status_request(job_id),
            request("job/status", object(&[("jobid", serde_json::Value::from(job_id))]))
        );
    }
    for is_async in [true, false] {
        let expected = object(&[
            ("srcFs", serde_json::Value::String("/da\"ta".to_string())),
            ("dstFs", serde_json::Value::String("remote:bück\\et".to_string())),
            ("_async", serde_json::Value::Bool(is_async)),
        ]);
        assert_eq!(
            Rclone::sync_request("/da\"ta", "remote:bück\\et", is_async),
            request("sync/sync", expected)
        );
    }
    assert_eq!(
        Rclone::sync_request("/data", "remote:bucket", true).input,
        r#"{"_async":true,"dstFs":"remote:bucket","srcFs":"/data"}"#
    );
}

#[test]
fn the_engine_is_told_to_be_quiet() {
    let config = GalionConfig::default();
    let quiet = GalionApp::new(GalionArgs::default(), config.clone());
    assert_eq!(
        quiet.engine_options(),
        vec![
            r#"{"main":{"LogLevel":"CRITICAL"}}"#.to_string(),
            r#"{"main":{"AskPassword":false}}"#.to_string(),
        ]
    );
    let asking = GalionApp::new(GalionArgs { rclone_ask_password: true, ..GalionArgs::default() }, config);
    assert_eq!(asking.engine_options(), vec![r#"{"main":{"LogLevel":"CRITICAL"}}"#.to_string()]);
    for options in quiet.engine_options() {
        assert!(parse(&options).is_some());
    }
}
