use dlmm_gateway::json::{Json, JsonNumber};
use dlmm_gateway::simulation::{parse_simulation_result, SimulationStatus};

fn obj(members: Vec<(&str, Json)>) -> Json {
    Json::Object(members.into_iter().map(|(k, v)| (k.to_string(), v)).collect())
}

fn num(n: u64) -> Json {
    Json::Number(JsonNumber::Unsigned(n))
}

#[test]
fn missing_members_take_defaults() {
    let response = obj(vec![(
        "result",
        obj(vec![("context", obj(vec![("slot", num(42))])), ("value", obj(vec![]))]),
    )]);
    let r = parse_simulation_result(&response);
    assert!(r.logs.is_empty());
    assert_eq!(r.fee, 0);
    assert!(r.error.is_none());
    assert_eq!(r.status, SimulationStatus::Success);
    assert_eq!(r.status.as_str(), "success");
    assert_eq!(r.slot, 42);
    assert_eq!(r.units, 0);
    assert!(matches!(r.pre_token_balances, Json::Null));
}

#[test]
fn empty_response_takes_defaults() {
    let r = parse_simulation_result(&Json::Null);
    assert_eq!(r.slot, 0);
    assert_eq!(r.status, SimulationStatus::Success);
}

#[test]
fn error_member_marks_failure() {
    let response = obj(vec![(
        "result",
        obj(vec![(
            "value",
            obj(vec![
                ("err", Json::Str("InstructionError".to_string())),
                ("fee", num(5000)),
                ("unitsConsumed", num(1234)),
                (
                    "logs",
                    Json::Array(vec![
                        Json::Str("Program log: a".to_string()),
                        num(3),
                        Json::Str("Program log: b".to_string()),
                    ]),
                ),
                ("preTokenBalances", Json::Array(vec![])),
            ]),
        )]),
    )]);
    let r = parse_simulation_result(&response);
    assert_eq!(r.status, SimulationStatus::Error);
    assert_eq!(r.status.as_str(), "error");
    assert!(matches!(r.error, Some(Json::Str(s)) if s == "InstructionError"));
    assert_eq!(r.fee, 5000);
    assert_eq!(r.units, 1234);
    assert_eq!(r.logs, vec!["Program log: a".to_string(), "Program log: b".to_string()]);
    assert!(matches!(r.pre_token_balances, Json::Array(v) if v.is_empty()));
    assert!(matches!(r.post_token_balances, Json::Null));
}

#[test]
fn null_error_member_is_success() {
    let response = obj(vec![("result", obj(vec![("value", obj(vec![("err", Json::Null)]))]))]);
    let r = parse_simulation_result(&response);
    assert_eq!(r.status, SimulationStatus::Success);
    assert!(r.error.is_none());
}

#[test]
fn negative_fee_reads_as_zero() {
    let response = obj(vec![(
        "result",
        obj(vec![("value", obj(vec![("fee", Json::Number(JsonNumber::Negative(-3)))]))]),
    )]);
    assert_eq!(parse_simulation_result(&response).fee, 0);
}
