//! Hosts, notes and overrides: the gvmd command each request becomes.
//!
//! Note and override updates are patch-shaped while gvmd replaces every
//! restriction of the resource, so an update is completed with the current
//! values of whatever it leaves out. Severities travel as text; whether a
//! text is a number is judged by the check the caller hands in.

use vstd::prelude::*;

use crate::domain::supporting_resources::{
    CreateFilterInput, CreateHostInput, CreateNoteInput, CreateOverrideInput, CreateTagInput,
    ModifyFilterInput, ModifyNoteInput, ModifyOverrideInput, ModifyTagInput,
};
use crate::errors::{fails_with, ErrorCode, GatewayError};
use crate::ids::{invalid_id_detail, optional_id_match, optional_id_valid, parse_optional_id, EntityId};
use crate::text::{joined, owned};

verus! {

/// gvmd's activation duration for an active flag: `-1` (forever) when
/// active, `0` (disabled) otherwise.
pub fn active_days(active: bool) -> (days: i32)
    ensures
        days == (if active { -1i32 } else { 0i32 }),
{
    if active {
        -1
    } else {
        0
    }
}

/// The activation duration of an optional active flag.
pub open spec fn days_active(active: Option<bool>) -> Option<i32> {
    match active {
        None => None,
        Some(a) => Some(if a { -1i32 } else { 0i32 }),
    }
}

fn optional_active_days(active: Option<bool>) -> (days: Option<i32>)
    ensures
        days == days_active(active),
{
    match active {
        None => None,
        Some(a) => Some(active_days(a)),
    }
}

/// The comment a host update sends: gvmd replaces the whole comment, so an
/// omitted comment keeps the current one, and a host without one gets the
/// empty comment.
pub fn host_update_comment(comment: Option<String>, current_comment: Option<String>) -> (result: String)
    ensures
        result@ == match comment {
            Some(c) => c@,
            None => match current_comment {
                Some(c) => c@,
                None => Seq::<char>::empty(),
            },
        },
{
    match comment {
        Some(c) => c,
        None => match current_comment {
            Some(c) => c,
            None => String::new(),
        },
    }
}

/// The gvmd command a host asset create request becomes.
#[derive(Clone, Debug, PartialEq, Eq)]
pub struct CreateHostCommand {
    pub value: String,
    pub comment: Option<String>,
}

/// Decides the gvmd command for a host asset create request.
pub fn create_host_command(input: CreateHostInput) -> (command: CreateHostCommand)
    ensures
        command.value == input.value,
        command.comment == input.comment,
{
    CreateHostCommand { value: input.value, comment: input.comment }
}

/// Whether the check judged the severity text `text` to be (`numeric`) or
/// not to be a number.
pub open spec fn judged_numeric<F: Fn(&String) -> bool>(check: F, text: String, numeric: bool) -> bool {
    check.ensures((&text,), numeric)
}

/// Detail of the error for a severity field that is not a number.
pub open spec fn non_numeric_detail(field: Seq<char>) -> Seq<char> {
    field + " must be a numeric severity"@
}

/// Detail of the error for a required field that is missing.
pub open spec fn required_detail(field: Seq<char>) -> Seq<char> {
    field + " is required"@
}

/// Checks an optional severity text.
fn checked_severity<F: Fn(&String) -> bool>(check: &F, value: Option<String>, field: &str) -> (result: Result<Option<String>, GatewayError>)
    requires
        forall|s: &String| check.requires((s,)),
    ensures
        match value {
            None => result == Ok::<Option<String>, GatewayError>(None),
            Some(v) => (result == Ok::<Option<String>, GatewayError>(Some(v)) && judged_numeric(*check, v, true))
                || (fails_with(result, ErrorCode::InvalidInput, non_numeric_detail(field@)) && judged_numeric(*check, v, false)),
        },
{
    match value {
        None => Ok(None),
        Some(v) => {
            if check(&v) {
                Ok(Some(v))
            } else {
                Err(GatewayError::InvalidInput(joined(field, " must be a numeric severity")))
            }
        },
    }
}

/// Checks a required severity text: a non-numeric text is refused before a
/// missing one.
fn required_severity<F: Fn(&String) -> bool>(check: &F, value: Option<String>, field: &str) -> (result: Result<String, GatewayError>)
    requires
        forall|s: &String| check.requires((s,)),
    ensures
        match value {
            None => fails_with(result, ErrorCode::InvalidInput, required_detail(field@)),
            Some(v) => (result == Ok::<String, GatewayError>(v) && judged_numeric(*check, v, true))
                || (fails_with(result, ErrorCode::InvalidInput, non_numeric_detail(field@)) && judged_numeric(*check, v, false)),
        },
{
    match checked_severity(check, value, field)? {
        Some(v) => Ok(v),
        None => Err(GatewayError::InvalidInput(joined(field, " is required"))),
    }
}

/// The restrictions of an existing note or override: what selects the
/// results it applies to.
#[derive(Clone, Debug, Default, PartialEq, Eq)]
pub struct CurrentRestrictions {
    pub text: Option<String>,
    pub hosts: Vec<String>,
    pub port: Option<String>,
    pub severity: Option<String>,
    pub new_severity: Option<String>,
    pub task_id: Option<String>,
    pub result_id: Option<String>,
}

/// The gvmd command a note create or update request becomes.
#[derive(Clone, Debug)]
pub struct NoteCommand {
    pub text: String,
    pub hosts: Vec<String>,
    pub port: Option<String>,
    pub severity: Option<String>,
    pub task_id: Option<EntityId>,
    pub result_id: Option<EntityId>,
    pub days_active: Option<i32>,
}

/// The gvmd command an override create or update request becomes.
#[derive(Clone, Debug)]
pub struct OverrideCommand {
    pub text: String,
    pub new_severity: String,
    pub hosts: Vec<String>,
    pub port: Option<String>,
    pub severity: Option<String>,
    pub task_id: Option<EntityId>,
    pub result_id: Option<EntityId>,
    pub days_active: Option<i32>,
}

/// The value an update sends for a field: its own, else the current one.
pub open spec fn patched<T>(update: Option<T>, current: Option<T>) -> Option<T> {
    match update {
        Some(v) => Some(v),
        None => current,
    }
}

/// The restrictions a note update results in: each omitted field keeps its
/// current value.
pub open spec fn patched_note(input: ModifyNoteInput, current: CurrentRestrictions) -> CurrentRestrictions {
    CurrentRestrictions {
        text: patched(input.text, current.text),
        hosts: match input.hosts {
            Some(h) => h,
            None => current.hosts,
        },
        port: patched(input.port, current.port),
        severity: patched(input.severity, current.severity),
        new_severity: current.new_severity,
        task_id: patched(input.task_id, current.task_id),
        result_id: patched(input.result_id, current.result_id),
    }
}

/// The restrictions an override update results in: each omitted field
/// keeps its current value.
pub open spec fn patched_override(input: ModifyOverrideInput, current: CurrentRestrictions) -> CurrentRestrictions {
    CurrentRestrictions {
        text: patched(input.text, current.text),
        hosts: match input.hosts {
            Some(h) => h,
            None => current.hosts,
        },
        port: patched(input.port, current.port),
        severity: patched(input.severity, current.severity),
        new_severity: patched(input.new_severity, current.new_severity),
        task_id: patched(input.task_id, current.task_id),
        result_id: patched(input.result_id, current.result_id),
    }
}

/// `command` carries the restrictions `r` and the activation `active`.
pub open spec fn note_command_carries(command: NoteCommand, r: CurrentRestrictions, active: Option<bool>) -> bool {
    &&& r.text == Some(command.text)
    &&& command.hosts@ == r.hosts@
    &&& command.port == r.port
    &&& command.severity == r.severity
    &&& optional_id_match(command.task_id, r.task_id)
    &&& optional_id_match(command.result_id, r.result_id)
    &&& command.days_active == days_active(active)
}

/// `command` carries the restrictions `r` and the activation `active`.
pub open spec fn override_command_carries(command: OverrideCommand, r: CurrentRestrictions, active: Option<bool>) -> bool {
    &&& r.text == Some(command.text)
    &&& r.new_severity == Some(command.new_severity)
    &&& command.hosts@ == r.hosts@
    &&& command.port == r.port
    &&& command.severity == r.severity
    &&& optional_id_match(command.task_id, r.task_id)
    &&& optional_id_match(command.result_id, r.result_id)
    &&& command.days_active == days_active(active)
}

/// Whether every severity of `r` that is present was judged numeric.
pub open spec fn severities_numeric<F: Fn(&String) -> bool>(check: F, r: CurrentRestrictions, with_new: bool) -> bool {
    &&& (r.severity matches Some(s) ==> judged_numeric(check, s, true))
    &&& (with_new ==> (r.new_severity matches Some(s) ==> judged_numeric(check, s, true)))
}

/// Whether the severity check gives one answer per text, as a parse does.
pub open spec fn consistent_check<F: Fn(&String) -> bool>(check: F) -> bool {
    forall|s: &String, a: bool, b: bool|
        #![trigger check.ensures((s,), a), check.ensures((s,), b)]
        check.ensures((s,), a) && check.ensures((s,), b) ==> a == b
}

/// An optional severity text is absent or was judged a number.
pub open spec fn numeric_ok<F: Fn(&String) -> bool>(check: F, value: Option<String>) -> bool {
    match value {
        None => true,
        Some(s) => judged_numeric(check, s, true),
    }
}

/// An optional severity text is present and was judged not a number.
pub open spec fn numeric_refused<F: Fn(&String) -> bool>(check: F, value: Option<String>) -> bool {
    match value {
        None => false,
        Some(s) => judged_numeric(check, s, false),
    }
}

/// The order in which a note's restrictions `r` are checked, each step
/// reached only when the ones before it passed: the text is required, the
/// severity must be a number, then the task and the result identifiers
/// must be well formed; a note that passes every step is accepted.
pub open spec fn note_checked_in_order<F: Fn(&String) -> bool, T>(check: F, r: CurrentRestrictions, result: Result<T, GatewayError>) -> bool {
    &&& r.text.is_none() ==> fails_with(result, ErrorCode::InvalidInput, required_detail("text"@))
    &&& r.text.is_some() && numeric_refused(check, r.severity) ==> fails_with(
        result,
        ErrorCode::InvalidInput,
        non_numeric_detail("severity"@),
    )
    &&& r.text.is_some() && numeric_ok(check, r.severity) && !optional_id_valid(r.task_id) ==> fails_with(
        result,
        ErrorCode::InvalidInput,
        invalid_id_detail(r.task_id->0@),
    )
    &&& r.text.is_some() && numeric_ok(check, r.severity) && optional_id_valid(r.task_id)
        && !optional_id_valid(r.result_id) ==> fails_with(
        result,
        ErrorCode::InvalidInput,
        invalid_id_detail(r.result_id->0@),
    )
    &&& r.text.is_some() && numeric_ok(check, r.severity) && optional_id_valid(r.task_id)
        && optional_id_valid(r.result_id) ==> result is Ok
}

/// The order in which an override's restrictions `r` are checked, each
/// step reached only when the ones before it passed: the text is required,
/// the new severity must be a number and is required, the matching
/// severity must be a number, then the task and the result identifiers
/// must be well formed; an override that passes every step is accepted.
pub open spec fn override_checked_in_order<F: Fn(&String) -> bool, T>(check: F, r: CurrentRestrictions, result: Result<T, GatewayError>) -> bool {
    &&& r.text.is_none() ==> fails_with(result, ErrorCode::InvalidInput, required_detail("text"@))
    &&& r.text.is_some() && numeric_refused(check, r.new_severity) ==> fails_with(
        result,
        ErrorCode::InvalidInput,
        non_numeric_detail("newSeverity"@),
    )
    &&& r.text.is_some() && r.new_severity.is_none() ==> fails_with(
        result,
        ErrorCode::InvalidInput,
        required_detail("newSeverity"@),
    )
    &&& r.text.is_some() && r.new_severity.is_some() && numeric_ok(check, r.new_severity)
        && numeric_refused(check, r.severity) ==> fails_with(
        result,
        ErrorCode::InvalidInput,
        non_numeric_detail("severity"@),
    )
    &&& r.text.is_some() && r.new_severity.is_some() && numeric_ok(check, r.new_severity)
        && numeric_ok(check, r.severity) && !optional_id_valid(r.task_id) ==> fails_with(
        result,
        ErrorCode::InvalidInput,
        invalid_id_detail(r.task_id->0@),
    )
    &&& r.text.is_some() && r.new_severity.is_some() && numeric_ok(check, r.new_severity)
        && numeric_ok(check, r.severity) && optional_id_valid(r.task_id) && !optional_id_valid(
        r.result_id,
    ) ==> fails_with(result, ErrorCode::InvalidInput, invalid_id_detail(r.result_id->0@))
    &&& r.text.is_some() && r.new_severity.is_some() && numeric_ok(check, r.new_severity)
        && numeric_ok(check, r.severity) && optional_id_valid(r.task_id) && optional_id_valid(
        r.result_id,
    ) ==> result is Ok
}

/// Builds the note command from complete restrictions: the text is
/// required, then the severity must be a number, then the task and result
/// identifiers must be well formed.
fn note_command<F: Fn(&String) -> bool>(check: &F, r: CurrentRestrictions, active: Option<bool>) -> (result: Result<NoteCommand, GatewayError>)
    requires
        forall|s: &String| check.requires((s,)),
        consistent_check(*check),
    ensures
        note_checked_in_order(*check, r, result),
        r.text.is_none() ==> fails_with(result, ErrorCode::InvalidInput, required_detail("text"@)),
        r.text.is_some() ==> match result {
            Ok(command) => note_command_carries(command, r, active) && severities_numeric(*check, r, false),
            Err(e) => (r.severity matches Some(s) && judged_numeric(*check, s, false) && e@ == (
                ErrorCode::InvalidInput,
                non_numeric_detail("severity"@),
            )) || (severities_numeric(*check, r, false) && !optional_id_valid(r.task_id) && e@ == (
                ErrorCode::InvalidInput,
                invalid_id_detail(r.task_id->0@),
            )) || (severities_numeric(*check, r, false) && optional_id_valid(r.task_id)
                && !optional_id_valid(r.result_id) && e@ == (
                ErrorCode::InvalidInput,
                invalid_id_detail(r.result_id->0@),
            )),
        },
{
    let text = match r.text {
        Some(t) => t,
        None => {
            return Err(GatewayError::InvalidInput(joined("text", " is required")));
        },
    };
    let severity = checked_severity(check, r.severity, "severity")?;
    let task_id = parse_optional_id(&r.task_id)?;
    let result_id = parse_optional_id(&r.result_id)?;
    Ok(
        NoteCommand {
            text,
            hosts: r.hosts,
            port: r.port,
            severity,
            task_id,
            result_id,
            days_active: optional_active_days(active),
        },
    )
}

/// The restrictions a note create request sets.
pub open spec fn created_note(input: CreateNoteInput) -> CurrentRestrictions {
    CurrentRestrictions {
        text: input.text,
        hosts: input.hosts,
        port: input.port,
        severity: input.severity,
        new_severity: None,
        task_id: input.task_id,
        result_id: input.result_id,
    }
}

/// Decides the gvmd command for a note create request; the note applies to
/// the NVT `nvt_oid` of the input.
pub fn create_note_command<F: Fn(&String) -> bool>(check: &F, input: CreateNoteInput) -> (result: Result<(String, NoteCommand), GatewayError>)
    requires
        forall|s: &String| check.requires((s,)),
        consistent_check(*check),
    ensures
        note_checked_in_order(*check, created_note(input), result),
        input.text.is_none() ==> fails_with(result, ErrorCode::InvalidInput, required_detail("text"@)),
        result matches Ok((oid, command)) ==> oid == input.nvt_oid && note_command_carries(
            command,
            created_note(input),
            input.active,
        ) && severities_numeric(*check, created_note(input), false),
        match result {
            Err(e) => input.text.is_some() ==> (input.severity matches Some(s)
                && judged_numeric(*check, s, false) && e@ == (ErrorCode::InvalidInput, non_numeric_detail("severity"@)))
                || (!optional_id_valid(input.task_id) && e@ == (ErrorCode::InvalidInput, invalid_id_detail(input.task_id->0@)))
                || (!optional_id_valid(input.result_id) && e@ == (ErrorCode::InvalidInput, invalid_id_detail(input.result_id->0@))),
            Ok(_) => true,
        },
{
    let ghost r = created_note(input);
    let command = note_command(
        check,
        CurrentRestrictions {
            text: input.text,
            hosts: input.hosts,
            port: input.port,
            severity: input.severity,
            new_severity: None,
            task_id: input.task_id,
            result_id: input.result_id,
        },
        input.active,
    )?;
    Ok((input.nvt_oid, command))
}

/// Decides the gvmd command for a note update: every field the update
/// leaves out keeps the note's current value, so that changing the text
/// alone keeps the hosts, port, severity, task and result it applies to.
pub fn modify_note_command<F: Fn(&String) -> bool>(check: &F, input: ModifyNoteInput, current: CurrentRestrictions) -> (result: Result<NoteCommand, GatewayError>)
    requires
        forall|s: &String| check.requires((s,)),
        consistent_check(*check),
    ensures
        note_checked_in_order(*check, patched_note(input, current), result),
        patched_note(input, current).text.is_none() ==> fails_with(
            result,
            ErrorCode::InvalidInput,
            required_detail("text"@),
        ),
        result matches Ok(command) ==> note_command_carries(command, patched_note(input, current), input.active)
            && severities_numeric(*check, patched_note(input, current), false),
        ({
            let r = patched_note(input, current);
            match result {
                Err(e) => r.text.is_some() ==> (r.severity matches Some(s)
                    && judged_numeric(*check, s, false) && e@ == (ErrorCode::InvalidInput, non_numeric_detail("severity"@)))
                    || (!optional_id_valid(r.task_id) && e@ == (ErrorCode::InvalidInput, invalid_id_detail(r.task_id->0@)))
                    || (!optional_id_valid(r.result_id) && e@ == (ErrorCode::InvalidInput, invalid_id_detail(r.result_id->0@))),
                Ok(_) => true,
            }
        }),
{
    let r = CurrentRestrictions {
        text: match input.text {
            Some(t) => Some(t),
            None => current.text,
        },
        hosts: match input.hosts {
            Some(h) => h,
            None => current.hosts,
        },
        port: match input.port {
            Some(p) => Some(p),
            None => current.port,
        },
        severity: match input.severity {
            Some(s) => Some(s),
            None => current.severity,
        },
        new_severity: current.new_severity,
        task_id: match input.task_id {
            Some(t) => Some(t),
            None => current.task_id,
        },
        result_id: match input.result_id {
            Some(t) => Some(t),
            None => current.result_id,
        },
    };
    note_command(check, r, input.active)
}

/// Why an override with text was refused: its new severity is missing or
/// was judged not a number, its severity was judged not a number, or its
/// task or result identifier is malformed.
pub open spec fn override_refusal<F: Fn(&String) -> bool>(check: F, r: CurrentRestrictions, e: GatewayError) -> bool {
    ||| r.new_severity.is_none() && e@ == (ErrorCode::InvalidInput, required_detail("newSeverity"@))
    ||| r.new_severity matches Some(s) && judged_numeric(check, s, false) && e@ == (
        ErrorCode::InvalidInput,
        non_numeric_detail("newSeverity"@),
    )
    ||| r.severity matches Some(s) && judged_numeric(check, s, false) && e@ == (
        ErrorCode::InvalidInput,
        non_numeric_detail("severity"@),
    )
    ||| !optional_id_valid(r.task_id) && e@ == (ErrorCode::InvalidInput, invalid_id_detail(r.task_id->0@))
    ||| !optional_id_valid(r.result_id) && e@ == (ErrorCode::InvalidInput, invalid_id_detail(r.result_id->0@))
}

/// Builds the override command from complete restrictions: the text is
/// required, then the new severity (a number, and present), then the
/// matching severity must be a number, then the task and result
/// identifiers must be well formed.
fn override_command<F: Fn(&String) -> bool>(check: &F, r: CurrentRestrictions, active: Option<bool>) -> (result: Result<OverrideCommand, GatewayError>)
    requires
        forall|s: &String| check.requires((s,)),
        consistent_check(*check),
    ensures
        override_checked_in_order(*check, r, result),
        r.text.is_none() ==> fails_with(result, ErrorCode::InvalidInput, required_detail("text"@)),
        r.text.is_some() && r.new_severity.is_none() ==> fails_with(
            result,
            ErrorCode::InvalidInput,
            required_detail("newSeverity"@),
        ),
        r.text.is_some() ==> match result {
            Ok(command) => override_command_carries(command, r, active) && severities_numeric(*check, r, true),
            Err(e) => override_refusal(*check, r, e),
        },
{
    let text = match r.text {
        Some(t) => t,
        None => {
            return Err(GatewayError::InvalidInput(joined("text", " is required")));
        },
    };
    let new_severity = required_severity(check, r.new_severity, "newSeverity")?;
    let severity = checked_severity(check, r.severity, "severity")?;
    let task_id = parse_optional_id(&r.task_id)?;
    let result_id = parse_optional_id(&r.result_id)?;
    Ok(
        OverrideCommand {
            text,
            new_severity,
            hosts: r.hosts,
            port: r.port,
            severity,
            task_id,
            result_id,
            days_active: optional_active_days(active),
        },
    )
}

/// The restrictions an override create request sets.
pub open spec fn created_override(input: CreateOverrideInput) -> CurrentRestrictions {
    CurrentRestrictions {
        text: input.text,
        hosts: input.hosts,
        port: input.port,
        severity: input.severity,
        new_severity: input.new_severity,
        task_id: input.task_id,
        result_id: input.result_id,
    }
}

/// Decides the gvmd command for an override create request; the override
/// applies to the NVT `nvt_oid` of the input.
pub fn create_override_command<F: Fn(&String) -> bool>(check: &F, input: CreateOverrideInput) -> (result: Result<(String, OverrideCommand), GatewayError>)
    requires
        forall|s: &String| check.requires((s,)),
        consistent_check(*check),
    ensures
        override_checked_in_order(*check, created_override(input), result),
        input.text.is_none() ==> fails_with(result, ErrorCode::InvalidInput, required_detail("text"@)),
        input.text.is_some() && input.new_severity.is_none() ==> fails_with(
            result,
            ErrorCode::InvalidInput,
            required_detail("newSeverity"@),
        ),
        result matches Ok((oid, command)) ==> oid == input.nvt_oid && override_command_carries(
            command,
            created_override(input),
            input.active,
        ) && severities_numeric(*check, created_override(input), true),
        match result {
            Err(e) => input.text.is_some() ==> override_refusal(*check, created_override(input), e),
            Ok(_) => true,
        },
{
    let command = override_command(
        check,
        CurrentRestrictions {
            text: input.text,
            hosts: input.hosts,
            port: input.port,
            severity: input.severity,
            new_severity: input.new_severity,
            task_id: input.task_id,
            result_id: input.result_id,
        },
        input.active,
    )?;
    Ok((input.nvt_oid, command))
}

/// Decides the gvmd command for an override update: every field the update
/// leaves out keeps the override's current value, the text and the new
/// severity included.
pub fn modify_override_command<F: Fn(&String) -> bool>(check: &F, input: ModifyOverrideInput, current: CurrentRestrictions) -> (result: Result<OverrideCommand, GatewayError>)
    requires
        forall|s: &String| check.requires((s,)),
        consistent_check(*check),
    ensures
        override_checked_in_order(*check, patched_override(input, current), result),
        patched_override(input, current).text.is_none() ==> fails_with(
            result,
            ErrorCode::InvalidInput,
            required_detail("text"@),
        ),
        patched_override(input, current).text.is_some() && patched_override(input, current).new_severity.is_none()
            ==> fails_with(result, ErrorCode::InvalidInput, required_detail("newSeverity"@)),
        result matches Ok(command) ==> override_command_carries(
            command,
            patched_override(input, current),
            input.active,
        ) && severities_numeric(*check, patched_override(input, current), true),
        match result {
            Err(e) => patched_override(input, current).text.is_some() ==> override_refusal(
                *check,
                patched_override(input, current),
                e,
            ),
            Ok(_) => true,
        },
{
    let r = CurrentRestrictions {
        text: match input.text {
            Some(t) => Some(t),
            None => current.text,
        },
        hosts: match input.hosts {
            Some(h) => h,
            None => current.hosts,
        },
        port: match input.port {
            Some(p) => Some(p),
            None => current.port,
        },
        severity: match input.severity {
            Some(s) => Some(s),
            None => current.severity,
        },
        new_severity: match input.new_severity {
            Some(s) => Some(s),
            None => current.new_severity,
        },
        task_id: match input.task_id {
            Some(t) => Some(t),
            None => current.task_id,
        },
        result_id: match input.result_id {
            Some(t) => Some(t),
            None => current.result_id,
        },
    };
    override_command(check, r, input.active)
}

/// Whether the check judged `name` to be (`known`) or not to be one of
/// gvmd's names for a kind of resource.
pub open spec fn judged_known<F: Fn(&String) -> bool>(check: F, name: String, known: bool) -> bool {
    check.ensures((&name,), known)
}

/// Detail of the error for an unknown filter type.
pub open spec fn invalid_filter_type_detail(value: Seq<char>) -> Seq<char> {
    "invalid filter type: "@ + value
}

/// Detail of the error for an unknown resource type.
pub open spec fn invalid_resource_type_detail(value: Seq<char>) -> Seq<char> {
    "invalid resource type: "@ + value
}

fn checked_filter_type<F: Fn(&String) -> bool>(is_known_type: &F, value: Option<String>) -> (result: Result<Option<String>, GatewayError>)
    requires
        forall|s: &String| is_known_type.requires((s,)),
    ensures
        match value {
            None => result == Ok::<Option<String>, GatewayError>(None),
            Some(v) => (result == Ok::<Option<String>, GatewayError>(Some(v)) && judged_known(*is_known_type, v, true))
                || (fails_with(result, ErrorCode::InvalidInput, invalid_filter_type_detail(v@))
                && judged_known(*is_known_type, v, false)),
        },
{
    match value {
        None => Ok(None),
        Some(v) => {
            if is_known_type(&v) {
                Ok(Some(v))
            } else {
                Err(GatewayError::InvalidInput(joined("invalid filter type: ", v.as_str())))
            }
        },
    }
}

/// The gvmd command a saved-filter create or update request becomes.
#[derive(Clone, Debug, PartialEq, Eq)]
pub struct FilterCommand {
    pub name: Option<String>,
    pub comment: Option<String>,
    pub term: Option<String>,
    pub filter_type: Option<String>,
}

/// Decides the gvmd command for a saved-filter create request; the filter
/// type must be one that gvmd knows.
pub fn create_filter_command<F: Fn(&String) -> bool>(is_known_type: &F, input: CreateFilterInput) -> (result: Result<FilterCommand, GatewayError>)
    requires
        forall|s: &String| is_known_type.requires((s,)),
    ensures
        match result {
            Ok(command) => command == (FilterCommand {
                name: Some(input.name),
                comment: input.comment,
                term: input.term,
                filter_type: input.filter_type,
            }) && (input.filter_type matches Some(t) ==> judged_known(*is_known_type, t, true)),
            Err(e) => input.filter_type matches Some(t) && judged_known(*is_known_type, t, false) && e@ == (
                ErrorCode::InvalidInput,
                invalid_filter_type_detail(t@),
            ),
        },
{
    let filter_type = checked_filter_type(is_known_type, input.filter_type)?;
    Ok(FilterCommand { name: Some(input.name), comment: input.comment, term: input.term, filter_type })
}

/// Decides the gvmd command for a saved-filter update.
pub fn modify_filter_command<F: Fn(&String) -> bool>(is_known_type: &F, input: ModifyFilterInput) -> (result: Result<FilterCommand, GatewayError>)
    requires
        forall|s: &String| is_known_type.requires((s,)),
    ensures
        match result {
            Ok(command) => command == (FilterCommand {
                name: None,
                comment: input.comment,
                term: input.term,
                filter_type: input.filter_type,
            }) && (input.filter_type matches Some(t) ==> judged_known(*is_known_type, t, true)),
            Err(e) => input.filter_type matches Some(t) && judged_known(*is_known_type, t, false) && e@ == (
                ErrorCode::InvalidInput,
                invalid_filter_type_detail(t@),
            ),
        },
{
    let filter_type = checked_filter_type(is_known_type, input.filter_type)?;
    Ok(FilterCommand { name: None, comment: input.comment, term: input.term, filter_type })
}

/// The resources a tag is attached to: a resource type and the
/// identifiers of that type.
#[derive(Clone, Debug)]
pub struct TagResources {
    pub resource_type: String,
    pub resource_ids: Vec<EntityId>,
}

/// `resources` names the type `t` and, if `id` is given, that one resource.
pub open spec fn tag_resources_match(resources: TagResources, t: String, id: Option<String>) -> bool {
    &&& resources.resource_type == t
    &&& match id {
        None => resources.resource_ids@.len() == 0,
        Some(i) => resources.resource_ids@.len() == 1 && resources.resource_ids@[0]@ == i@,
    }
}

/// Why attaching a tag to resources of type `t` (and resource `id`) was
/// refused.
pub open spec fn tag_resources_refusal<F: Fn(&String) -> bool>(check: F, t: String, id: Option<String>, e: GatewayError) -> bool {
    ||| judged_known(check, t, false) && e@ == (ErrorCode::InvalidInput, invalid_resource_type_detail(t@))
    ||| judged_known(check, t, true) && !optional_id_valid(id) && e@ == (
        ErrorCode::InvalidInput,
        invalid_id_detail(id->0@),
    )
}

fn tag_resources<F: Fn(&String) -> bool>(is_known_type: &F, resource_type: String, resource_id: &Option<String>) -> (result: Result<TagResources, GatewayError>)
    requires
        forall|s: &String| is_known_type.requires((s,)),
    ensures
        match result {
            Ok(r) => tag_resources_match(r, resource_type, *resource_id) && judged_known(*is_known_type, resource_type, true),
            Err(e) => tag_resources_refusal(*is_known_type, resource_type, *resource_id, e),
        },
{
    if !is_known_type(&resource_type) {
        return Err(GatewayError::InvalidInput(joined("invalid resource type: ", resource_type.as_str())));
    }
    let mut resource_ids: Vec<EntityId> = Vec::new();
    if let Some(id) = parse_optional_id(resource_id)? {
        resource_ids.push(id);
    }
    Ok(TagResources { resource_type, resource_ids })
}

/// The gvmd command a tag create request becomes.
#[derive(Clone, Debug)]
pub struct CreateTagCommand {
    pub name: String,
    pub resources: TagResources,
    pub comment: Option<String>,
    pub value: Option<String>,
    pub active: Option<bool>,
}

/// Decides the gvmd command for a tag create request: a resource type is
/// required and must be known, and the optional resource identifier must
/// be well formed.
pub fn create_tag_command<F: Fn(&String) -> bool>(is_known_type: &F, input: CreateTagInput) -> (result: Result<CreateTagCommand, GatewayError>)
    requires
        forall|s: &String| is_known_type.requires((s,)),
    ensures
        input.resource_type.is_none() ==> fails_with(result, ErrorCode::InvalidInput, "resourceType is required"@),
        match result {
            Ok(command) => input.resource_type matches Some(t) && tag_resources_match(
                command.resources,
                t,
                input.resource_id,
            ) && command.name == input.name && command.comment == input.comment && command.value
                == input.value && command.active == input.active,
            Err(e) => input.resource_type matches Some(t) ==> tag_resources_refusal(
                *is_known_type,
                t,
                input.resource_id,
                e,
            ),
        },
{
    let resource_type = match input.resource_type {
        Some(t) => t,
        None => {
            return Err(GatewayError::InvalidInput(owned("resourceType is required")));
        },
    };
    let resources = tag_resources(is_known_type, resource_type, &input.resource_id)?;
    Ok(
        CreateTagCommand {
            name: input.name,
            resources,
            comment: input.comment,
            value: input.value,
            active: input.active,
        },
    )
}

/// The gvmd command a tag update becomes; `resources` is `None` when the
/// tag stays attached to what it is attached to.
#[derive(Clone, Debug)]
pub struct ModifyTagCommand {
    pub comment: Option<String>,
    pub value: Option<String>,
    pub active: Option<bool>,
    pub resources: Option<TagResources>,
}

/// Detail of the error for a resource identifier without its type.
pub open spec fn resource_id_without_type_detail() -> Seq<char> {
    "resourceId requires resourceType"@
}

/// Decides the gvmd command for a tag update: a resource type replaces the
/// tag's resources; a resource identifier without a type is refused.
pub fn modify_tag_command<F: Fn(&String) -> bool>(is_known_type: &F, input: ModifyTagInput) -> (result: Result<ModifyTagCommand, GatewayError>)
    requires
        forall|s: &String| is_known_type.requires((s,)),
    ensures
        input.resource_type.is_none() && input.resource_id.is_some() ==> fails_with(
            result,
            ErrorCode::InvalidInput,
            resource_id_without_type_detail(),
        ),
        input.resource_type.is_none() && input.resource_id.is_none() ==> (result matches Ok(command)
            && command.resources.is_none()),
        match result {
            Ok(command) => command.comment == input.comment && command.value == input.value
                && command.active == input.active && match input.resource_type {
                None => command.resources.is_none(),
                Some(t) => command.resources matches Some(r) && tag_resources_match(r, t, input.resource_id),
            },
            Err(e) => input.resource_type matches Some(t) ==> tag_resources_refusal(
                *is_known_type,
                t,
                input.resource_id,
                e,
            ),
        },
{
    let resources = match input.resource_type {
        Some(t) => Some(tag_resources(is_known_type, t, &input.resource_id)?),
        None => {
            if input.resource_id.is_some() {
                return Err(GatewayError::InvalidInput(owned("resourceId requires resourceType")));
            }
            None
        },
    };
    Ok(ModifyTagCommand { comment: input.comment, value: input.value, active: input.active, resources })
}

/// A note update that sets nothing leaves every restriction of the note as
/// it is.
pub proof fn empty_note_update_keeps_every_restriction(input: ModifyNoteInput, current: CurrentRestrictions)
    requires
        input.text.is_none(),
        input.hosts.is_none(),
        input.port.is_none(),
        input.severity.is_none(),
        input.task_id.is_none(),
        input.result_id.is_none(),
    ensures
        patched_note(input, current) == current,
{
}

/// A note update changes exactly the restrictions it sets: each field it
/// sends replaces the current one, and every other field is kept.
pub proof fn note_update_changes_only_what_it_sets(input: ModifyNoteInput, current: CurrentRestrictions)
    ensures
        input.text.is_some() ==> patched_note(input, current).text == input.text,
        input.text.is_none() ==> patched_note(input, current).text == current.text,
        input.hosts matches Some(h) ==> patched_note(input, current).hosts == h,
        input.hosts.is_none() ==> patched_note(input, current).hosts == current.hosts,
        input.port.is_some() ==> patched_note(input, current).port == input.port,
        input.port.is_none() ==> patched_note(input, current).port == current.port,
        input.severity.is_some() ==> patched_note(input, current).severity == input.severity,
        input.severity.is_none() ==> patched_note(input, current).severity == current.severity,
        input.task_id.is_some() ==> patched_note(input, current).task_id == input.task_id,
        input.task_id.is_none() ==> patched_note(input, current).task_id == current.task_id,
        input.result_id.is_some() ==> patched_note(input, current).result_id == input.result_id,
        input.result_id.is_none() ==> patched_note(input, current).result_id == current.result_id,
{
}

/// An override update that sets nothing leaves every restriction of the
/// override as it is, its text and new severity included.
pub proof fn empty_override_update_keeps_every_restriction(input: ModifyOverrideInput, current: CurrentRestrictions)
    requires
        input.text.is_none(),
        input.hosts.is_none(),
        input.port.is_none(),
        input.severity.is_none(),
        input.new_severity.is_none(),
        input.task_id.is_none(),
        input.result_id.is_none(),
    ensures
        patched_override(input, current) == current,
{
}

} // verus!
