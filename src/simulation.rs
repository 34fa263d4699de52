//! Normalisation of a ledger's dry-run (simulation) response.
use vstd::prelude::*;
use vstd::string::StringExecFns;

use crate::json::{as_u64, field, get_field, get_u64, member_of, Json};

verus! {

/// Whether the simulated transaction failed on chain.
#[derive(Clone, Copy, Debug, PartialEq, Eq, Structural)]
pub enum SimulationStatus {
    Success,
    Error,
}

impl SimulationStatus {
    /// The status as the API spells it.
    pub fn as_str(&self) -> (r: &'static str)
        ensures
            *self == SimulationStatus::Success ==> r@ == "success"@,
            *self == SimulationStatus::Error ==> r@ == "error"@,
    {
        match self {
            SimulationStatus::Success => "success",
            SimulationStatus::Error => "error",
        }
    }
}

/// The stable shape of a simulation outcome; the token balances and the
/// error are borrowed from the response as they stand.
#[derive(Debug)]
pub struct SimulationResult<'a> {
    pub slot: u64,
    pub status: SimulationStatus,
    pub fee: u64,
    pub units: u64,
    pub error: Option<&'a Json>,
    pub logs: Vec<String>,
    pub pre_token_balances: &'a Json,
    pub post_token_balances: &'a Json,
}

/// The texts among `items`, in order; other items are skipped.
pub open spec fn text_items(items: Seq<Json>) -> Seq<Seq<char>>
    decreases items.len(),
{
    if items.len() == 0 {
        Seq::empty()
    } else {
        let rest = text_items(items.drop_last());
        match items.last() {
            Json::Str(s) => rest.push(s@),
            _ => rest,
        }
    }
}

/// The log lines of a `logs` member: its texts where it is an array, none otherwise.
pub open spec fn log_lines(logs: Json) -> Seq<Seq<char>> {
    match logs {
        Json::Array(items) => text_items(items@),
        _ => Seq::empty(),
    }
}

pub open spec fn strings_view(v: Seq<String>) -> Seq<Seq<char>> {
    v.map_values(|s: String| s@)
}

/// `response.result.value`, where the outcome proper stands.
pub open spec fn outcome_of(response: Json) -> Json {
    field(field(response, "result"@), "value"@)
}

pub open spec fn u64_or_zero(v: Json) -> u64 {
    match as_u64(v) {
        Some(n) => n,
        None => 0,
    }
}

fn texts_of(v: &Json) -> (r: Vec<String>)
    ensures
        strings_view(r@) == log_lines(*v),
{
    let mut out: Vec<String> = Vec::new();
    match v {
        Json::Array(items) => {
            let mut i: usize = 0;
            while i < items.len()
                invariant
                    i <= items@.len(),
                    log_lines(*v) == text_items(items@),
                    strings_view(out@) == text_items(items@.subrange(0, i as int)),
                decreases items@.len() - i,
            {
                let ghost before = out@;
                assert(items@.subrange(0, i + 1).drop_last() =~= items@.subrange(0, i as int));
                if let Json::Str(s) = &items[i] {
                    out.push(s.clone());
                    assert(strings_view(out@) =~= strings_view(before).push(s@));
                }
                i = i + 1;
            }
            assert(items@.subrange(0, items@.len() as int) =~= items@);
            out
        },
        _ => {
            assert(strings_view(out@) =~= Seq::<Seq<char>>::empty());
            out
        },
    }
}

/// Reads a raw simulation response into its stable shape. Every member
/// that is missing or of another kind takes its default: zero for numbers,
/// no log lines, null balances; the status is an error exactly where the
/// outcome's `err` member is present and not null.
pub fn parse_simulation_result(response: &Json) -> (r: SimulationResult<'_>)
    ensures
        r.slot == u64_or_zero(field(field(field(*response, "result"@), "context"@), "slot"@)),
        r.fee == u64_or_zero(field(outcome_of(*response), "fee"@)),
        r.units == u64_or_zero(field(outcome_of(*response), "unitsConsumed"@)),
        strings_view(r.logs@) == log_lines(field(outcome_of(*response), "logs"@)),
        field(outcome_of(*response), "err"@) is Null ==> r.error is None && r.status
            == SimulationStatus::Success,
        !(field(outcome_of(*response), "err"@) is Null) ==> r.error == Some(
            &field(outcome_of(*response), "err"@),
        ) && r.status == SimulationStatus::Error,
        *r.pre_token_balances == field(outcome_of(*response), "preTokenBalances"@),
        *r.post_token_balances == field(outcome_of(*response), "postTokenBalances"@),
{
    let result = get_field(response, &String::from_str("result"));
    let outcome = get_field(result, &String::from_str("value"));
    let context = get_field(result, &String::from_str("context"));
    let logs = texts_of(get_field(outcome, &String::from_str("logs")));
    let err = get_field(outcome, &String::from_str("err"));
    let (error, status) = match err {
        Json::Null => (None, SimulationStatus::Success),
        _ => (Some(err), SimulationStatus::Error),
    };
    let slot = match get_u64(get_field(context, &String::from_str("slot"))) {
        Some(n) => n,
        None => 0,
    };
    let fee = match get_u64(get_field(outcome, &String::from_str("fee"))) {
        Some(n) => n,
        None => 0,
    };
    let units = match get_u64(get_field(outcome, &String::from_str("unitsConsumed"))) {
        Some(n) => n,
        None => 0,
    };
    SimulationResult {
        slot,
        status,
        fee,
        units,
        error,
        logs,
        pre_token_balances: get_field(outcome, &String::from_str("preTokenBalances")),
        post_token_balances: get_field(outcome, &String::from_str("postTokenBalances")),
    }
}

/// A response whose outcome has no `logs`, `fee` or `err` member reads as
/// no log lines, a zero fee, no error and success.
pub proof fn lemma_missing_members_default(members: Seq<(String, Json)>, response: Json)
    requires
        outcome_of(response) matches Json::Object(v) && v@ == members,
        forall|i: int|
            0 <= i < members.len() ==> #[trigger] members[i].0@ != "logs"@ && members[i].0@
                != "fee"@ && members[i].0@ != "err"@,
    ensures
        log_lines(field(outcome_of(response), "logs"@)) == Seq::<Seq<char>>::empty(),
        u64_or_zero(field(outcome_of(response), "fee"@)) == 0,
        field(outcome_of(response), "err"@) is Null,
{
    lemma_absent_member(members, "logs"@);
    lemma_absent_member(members, "fee"@);
    lemma_absent_member(members, "err"@);
}

/// A member that no entry names reads as null.
pub proof fn lemma_absent_member(members: Seq<(String, Json)>, name: Seq<char>)
    requires
        forall|i: int| 0 <= i < members.len() ==> #[trigger] members[i].0@ != name,
    ensures
        member_of(members, name) == Json::Null,
    decreases members.len(),
{
    if members.len() > 0 {
        assert forall|i: int| 0 <= i < members.drop_first().len() implies #[trigger] members.drop_first()[i].0@ != name by {
            assert(members.drop_first()[i] == members[i + 1]);
        }
        lemma_absent_member(members.drop_first(), name);
    }
}

} // verus!
