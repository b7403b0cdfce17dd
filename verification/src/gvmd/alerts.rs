//! Alerts: the gvmd command each request becomes.
//!
//! Event, condition and method names are judged by GMP's vocabulary
//! outside this crate; the caller hands in that judgement as a check that
//! gives the refusal for a name it does not accept.

use vstd::prelude::*;

use crate::domain::alerts::{CreateAlertInput, ModifyAlertInput};
use crate::errors::{fails_with, ErrorCode, GatewayError};
use crate::ids::{invalid_id_detail, optional_id_match, optional_id_valid, parse_optional_id, EntityId};
use crate::sorting::{lemma_text_total, sort_by_name, stably_sorted_by_name, text_before};
use crate::text::owned;

verus! {

/// One name-value entry of an alert's data.
#[derive(Clone, Debug, PartialEq, Eq)]
pub struct AlertData {
    pub name: String,
    pub value: String,
}

/// The name-value pairs of alert data entries.
pub open spec fn data_pairs(data: Seq<AlertData>) -> Seq<(String, String)> {
    data.map_values(|d: AlertData| (d.name, d.value))
}

/// Whether `data` holds the entries of `entries`, ordered by name, entries
/// with equal names in the order they came in.
pub open spec fn data_in_name_order(data: Seq<AlertData>, entries: Seq<(String, String)>) -> bool {
    exists|p: Seq<int>| stably_sorted_by_name(data_pairs(data), entries, p)
}

/// Whether no two entries share a name (as in a map from names to values).
pub open spec fn names_distinct(entries: Seq<(String, String)>) -> bool {
    forall|i: int, j: int| 0 <= i < j < entries.len() ==> #[trigger] entries[i].0@ != #[trigger] entries[j].0@
}

/// The data entries of an alert, ordered by name (the request's maps have
/// no order of their own); entries of a map, whose names are distinct,
/// come out in strictly ascending name order.
pub fn alert_data(values: Vec<(String, String)>) -> (data: Vec<AlertData>)
    ensures
        data_in_name_order(data@, values@),
        names_distinct(values@) ==> forall|i: int, j: int|
            0 <= i < j < data@.len() ==> text_before(#[trigger] data@[i].name@, #[trigger] data@[j].name@),
{
    let ghost orig = values@;
    let sorted = sort_by_name(values);
    let ghost sorted_view = sorted@;
    let n = sorted.len();
    let mut data: Vec<AlertData> = Vec::new();
    let mut rest = sorted;
    let mut j: usize = 0;
    while j < n
        invariant
            n == sorted_view.len(),
            j <= n,
            rest@ == sorted_view.subrange(j as int, n as int),
            data@.len() == j,
            forall|i: int| 0 <= i < j ==> (#[trigger] data@[i]).name == sorted_view[i].0 && data@[i].value == sorted_view[i].1,
        decreases n - j,
    {
        proof {
            assert(rest@[0] == sorted_view[j as int]);
        }
        let (name, value) = rest.remove(0);
        proof {
            assert(rest@ =~= sorted_view.subrange(j + 1, n as int));
        }
        data.push(AlertData { name, value });
        j = j + 1;
    }
    proof {
        assert(data_pairs(data@) =~= sorted_view);
        let p = choose|p: Seq<int>| stably_sorted_by_name(sorted_view, orig, p);
        if names_distinct(orig) {
            assert forall|i: int, j: int| 0 <= i < j < data@.len() implies text_before(
                #[trigger] data@[i].name@,
                #[trigger] data@[j].name@,
            ) by {
                assert(sorted_view[i] == orig[p[i]]);
                assert(sorted_view[j] == orig[p[j]]);
                assert(p[i] != p[j]);
                if p[i] < p[j] {
                    assert(orig[p[i]].0@ != orig[p[j]].0@);
                } else {
                    assert(orig[p[j]].0@ != orig[p[i]].0@);
                }
                assert(!text_before(sorted_view[j].0@, sorted_view[i].0@));
                lemma_text_total(data@[i].name@, data@[j].name@);
            }
        }
    }
    data
}

/// The parts of an alert whose names GMP's vocabulary judges.
#[derive(Clone, Copy, Debug, PartialEq, Eq, Structural)]
pub enum AlertPart {
    Event,
    Condition,
    Method,
}

/// The refusal the check gave (or `None` when it accepted) for the name
/// `name` of part `part`.
pub open spec fn judged<F: Fn(AlertPart, &String) -> Option<GatewayError>>(check: F, part: AlertPart, name: String, verdict: Option<GatewayError>) -> bool {
    check.ensures((part, &name), verdict)
}

/// Whether the check gives one answer per part and name, as a parse does.
pub open spec fn consistent_alert_check<F: Fn(AlertPart, &String) -> Option<GatewayError>>(check: F) -> bool {
    forall|p: AlertPart, s: &String, a: Option<GatewayError>, b: Option<GatewayError>|
        #![trigger check.ensures((p, s), a), check.ensures((p, s), b)]
        check.ensures((p, s), a) && check.ensures((p, s), b) ==> a == b
}

/// An optional part is absent or was accepted by the check.
pub open spec fn part_accepted<F: Fn(AlertPart, &String) -> Option<GatewayError>>(check: F, part: AlertPart, value: Option<String>) -> bool {
    match value {
        None => true,
        Some(v) => judged(check, part, v, None),
    }
}

/// Where the check refuses the given part with an error, the request fails
/// with exactly that error.
pub open spec fn refusal_is_the_answer<F: Fn(AlertPart, &String) -> Option<GatewayError>, T>(
    check: F,
    part: AlertPart,
    value: Option<String>,
    result: Result<T, GatewayError>,
) -> bool {
    match value {
        None => true,
        Some(v) => forall|e: GatewayError| #[trigger] judged(check, part, v, Some(e)) ==> result == Err::<T, GatewayError>(e),
    }
}

/// The order in which an alert create request is checked, each step
/// reached only when the ones before it passed: the event is required and
/// judged, then the condition, then the method, then the filter identifier
/// must be well formed; a request that passes every step is accepted.
pub open spec fn alert_create_checked_in_order<F: Fn(AlertPart, &String) -> Option<GatewayError>, T>(
    check: F,
    input: CreateAlertInput,
    result: Result<T, GatewayError>,
) -> bool {
    let event_ok = input.event.is_some() && part_accepted(check, AlertPart::Event, input.event);
    let condition_ok = event_ok && input.condition.is_some() && part_accepted(check, AlertPart::Condition, input.condition);
    let method_ok = condition_ok && input.method.is_some() && part_accepted(check, AlertPart::Method, input.method);
    &&& input.event.is_none() ==> fails_with(result, ErrorCode::InvalidInput, "event is required"@)
    &&& refusal_is_the_answer(check, AlertPart::Event, input.event, result)
    &&& event_ok && input.condition.is_none() ==> fails_with(result, ErrorCode::InvalidInput, "condition is required"@)
    &&& event_ok ==> refusal_is_the_answer(check, AlertPart::Condition, input.condition, result)
    &&& condition_ok && input.method.is_none() ==> fails_with(result, ErrorCode::InvalidInput, "method is required"@)
    &&& condition_ok ==> refusal_is_the_answer(check, AlertPart::Method, input.method, result)
    &&& method_ok && !optional_id_valid(input.filter_id) ==> fails_with(
        result,
        ErrorCode::InvalidInput,
        invalid_id_detail(input.filter_id->0@),
    )
    &&& method_ok && optional_id_valid(input.filter_id) ==> result is Ok
}

/// The order in which an alert update is checked, each step reached only
/// when the ones before it passed: the alert's identifier, then the event,
/// the condition and the method that are given, then the filter
/// identifier; an update that passes every step is accepted.
pub open spec fn alert_update_checked_in_order<F: Fn(AlertPart, &String) -> Option<GatewayError>, T>(
    check: F,
    id: Seq<char>,
    input: ModifyAlertInput,
    result: Result<T, GatewayError>,
) -> bool {
    let id_ok = crate::ids::is_entity_id(id);
    let event_ok = id_ok && part_accepted(check, AlertPart::Event, input.event);
    let condition_ok = event_ok && part_accepted(check, AlertPart::Condition, input.condition);
    let method_ok = condition_ok && part_accepted(check, AlertPart::Method, input.method);
    &&& !id_ok ==> fails_with(result, ErrorCode::InvalidInput, invalid_id_detail(id))
    &&& id_ok ==> refusal_is_the_answer(check, AlertPart::Event, input.event, result)
    &&& event_ok ==> refusal_is_the_answer(check, AlertPart::Condition, input.condition, result)
    &&& condition_ok ==> refusal_is_the_answer(check, AlertPart::Method, input.method, result)
    &&& method_ok && !optional_id_valid(input.filter_id) ==> fails_with(
        result,
        ErrorCode::InvalidInput,
        invalid_id_detail(input.filter_id->0@),
    )
    &&& method_ok && optional_id_valid(input.filter_id) ==> result is Ok
}

/// The gvmd command an alert create request becomes.
#[derive(Clone, Debug)]
pub struct CreateAlertCommand {
    pub name: String,
    pub comment: Option<String>,
    pub event: String,
    pub condition: String,
    pub method: String,
    pub event_data: Vec<AlertData>,
    pub condition_data: Vec<AlertData>,
    pub method_data: Vec<AlertData>,
    pub filter_id: Option<EntityId>,
}

fn required_part<F: Fn(AlertPart, &String) -> Option<GatewayError>>(check: &F, part: AlertPart, value: Option<String>, missing: &str) -> (result: Result<String, GatewayError>)
    requires
        forall|p: AlertPart, s: &String| check.requires((p, s)),
    ensures
        match value {
            None => fails_with(result, ErrorCode::InvalidInput, missing@),
            Some(v) => match result {
                Ok(r) => r == v && judged(*check, part, v, None),
                Err(e) => judged(*check, part, v, Some(e)),
            },
        },
{
    match value {
        None => Err(GatewayError::InvalidInput(owned(missing))),
        Some(v) => match check(part, &v) {
            None => Ok(v),
            Some(e) => Err(e),
        },
    }
}

fn optional_part<F: Fn(AlertPart, &String) -> Option<GatewayError>>(check: &F, part: AlertPart, value: Option<String>) -> (result: Result<Option<String>, GatewayError>)
    requires
        forall|p: AlertPart, s: &String| check.requires((p, s)),
    ensures
        match value {
            None => result == Ok::<Option<String>, GatewayError>(None),
            Some(v) => match result {
                Ok(r) => r == Some(v) && judged(*check, part, v, None),
                Err(e) => judged(*check, part, v, Some(e)),
            },
        },
{
    match value {
        None => Ok(None),
        Some(v) => match check(part, &v) {
            None => Ok(Some(v)),
            Some(e) => Err(e),
        },
    }
}

/// Decides the gvmd command for an alert create request. The event, the
/// condition and the method are each required and judged, in this order;
/// then the filter identifier is checked. The data entries are sent in
/// name order.
pub fn create_alert_command<F: Fn(AlertPart, &String) -> Option<GatewayError>>(check: &F, input: CreateAlertInput) -> (result: Result<CreateAlertCommand, GatewayError>)
    requires
        forall|p: AlertPart, s: &String| check.requires((p, s)),
        consistent_alert_check(*check),
    ensures
        alert_create_checked_in_order(*check, input, result),
        input.event.is_none() ==> fails_with(result, ErrorCode::InvalidInput, "event is required"@),
        result matches Ok(c) ==> {
            &&& c.name == input.name
            &&& c.comment == input.comment
            &&& input.event == Some(c.event) && judged(*check, AlertPart::Event, c.event, None)
            &&& input.condition == Some(c.condition) && judged(*check, AlertPart::Condition, c.condition, None)
            &&& input.method == Some(c.method) && judged(*check, AlertPart::Method, c.method, None)
            &&& data_in_name_order(c.event_data@, input.event_data@)
            &&& data_in_name_order(c.condition_data@, input.condition_data@)
            &&& data_in_name_order(c.method_data@, input.method_data@)
            &&& optional_id_match(c.filter_id, input.filter_id)
        },
        match result {
            Err(e) => input.event.is_some() ==> {
                ||| judged(*check, AlertPart::Event, input.event->0, Some(e))
                ||| input.condition.is_none() && e@ == (ErrorCode::InvalidInput, "condition is required"@)
                ||| input.condition.is_some() && judged(*check, AlertPart::Condition, input.condition->0, Some(e))
                ||| input.method.is_none() && e@ == (ErrorCode::InvalidInput, "method is required"@)
                ||| input.method.is_some() && judged(*check, AlertPart::Method, input.method->0, Some(e))
                ||| !optional_id_valid(input.filter_id) && e@ == (ErrorCode::InvalidInput, invalid_id_detail(input.filter_id->0@))
            },
            Ok(_) => true,
        },
{
    let event = required_part(check, AlertPart::Event, input.event, "event is required")?;
    let condition = required_part(check, AlertPart::Condition, input.condition, "condition is required")?;
    let method = required_part(check, AlertPart::Method, input.method, "method is required")?;
    let event_data = alert_data(input.event_data);
    let condition_data = alert_data(input.condition_data);
    let method_data = alert_data(input.method_data);
    let filter_id = parse_optional_id(&input.filter_id)?;
    Ok(
        CreateAlertCommand {
            name: input.name,
            comment: input.comment,
            event,
            condition,
            method,
            event_data,
            condition_data,
            method_data,
            filter_id,
        },
    )
}

/// The gvmd command an alert update becomes; absent data maps are sent
/// empty.
#[derive(Clone, Debug)]
pub struct ModifyAlertCommand {
    pub id: EntityId,
    pub name: Option<String>,
    pub comment: Option<String>,
    pub event: Option<String>,
    pub event_data: Vec<AlertData>,
    pub condition: Option<String>,
    pub condition_data: Vec<AlertData>,
    pub method: Option<String>,
    pub method_data: Vec<AlertData>,
    pub filter_id: Option<EntityId>,
}

/// The entries of an optional data map; an absent one has none.
pub open spec fn entries_or_empty(entries: Option<Vec<(String, String)>>) -> Seq<(String, String)> {
    match entries {
        Some(v) => v@,
        None => Seq::empty(),
    }
}

/// Decides the gvmd command for an alert update: the alert's identifier,
/// then the event, the condition and the method that are given, then the
/// filter identifier.
pub fn modify_alert_command<F: Fn(AlertPart, &String) -> Option<GatewayError>>(check: &F, id: &str, input: ModifyAlertInput) -> (result: Result<ModifyAlertCommand, GatewayError>)
    requires
        forall|p: AlertPart, s: &String| check.requires((p, s)),
        consistent_alert_check(*check),
    ensures
        alert_update_checked_in_order(*check, id@, input, result),
        !crate::ids::is_entity_id(id@) ==> fails_with(result, ErrorCode::InvalidInput, invalid_id_detail(id@)),
        result matches Ok(c) ==> {
            &&& c.id@ == id@
            &&& c.name == input.name
            &&& c.comment == input.comment
            &&& c.event == input.event && (input.event matches Some(v) ==> judged(*check, AlertPart::Event, v, None))
            &&& c.condition == input.condition && (input.condition matches Some(v) ==> judged(*check, AlertPart::Condition, v, None))
            &&& c.method == input.method && (input.method matches Some(v) ==> judged(*check, AlertPart::Method, v, None))
            &&& data_in_name_order(c.event_data@, entries_or_empty(input.event_data))
            &&& data_in_name_order(c.condition_data@, entries_or_empty(input.condition_data))
            &&& data_in_name_order(c.method_data@, entries_or_empty(input.method_data))
            &&& optional_id_match(c.filter_id, input.filter_id)
        },
        match result {
            Err(e) => crate::ids::is_entity_id(id@) ==> {
                ||| input.event.is_some() && judged(*check, AlertPart::Event, input.event->0, Some(e))
                ||| input.condition.is_some() && judged(*check, AlertPart::Condition, input.condition->0, Some(e))
                ||| input.method.is_some() && judged(*check, AlertPart::Method, input.method->0, Some(e))
                ||| !optional_id_valid(input.filter_id) && e@ == (ErrorCode::InvalidInput, invalid_id_detail(input.filter_id->0@))
            },
            Ok(_) => true,
        },
{
    let alert = crate::ids::parse_entity_id(id)?;
    let event = optional_part(check, AlertPart::Event, input.event)?;
    let event_data = alert_data(
        match input.event_data {
            Some(v) => v,
            None => Vec::new(),
        },
    );
    let condition = optional_part(check, AlertPart::Condition, input.condition)?;
    let condition_data = alert_data(
        match input.condition_data {
            Some(v) => v,
            None => Vec::new(),
        },
    );
    let method = optional_part(check, AlertPart::Method, input.method)?;
    let method_data = alert_data(
        match input.method_data {
            Some(v) => v,
            None => Vec::new(),
        },
    );
    let filter_id = parse_optional_id(&input.filter_id)?;
    Ok(
        ModifyAlertCommand {
            id: alert,
            name: input.name,
            comment: input.comment,
            event,
            event_data,
            condition,
            condition_data,
            method,
            method_data,
            filter_id,
        },
    )
}

} // verus!
