//! Log-safe renderings. Write-only secrets (passwords, keys, communities,
//! store references, store preference values) are shown only as a shared
//! marker, so diagnostics never carry them.

use vstd::prelude::*;
use vstd::string::*;

use crate::domain::credentials::{
    CreateCredentialInput, CredentialStorePreferenceInput, ModifyCredentialInput,
    ModifyCredentialStoreInput,
};
use crate::text::{decimal, decimal_text, owned};

verus! {

/// The marker shown in place of a hidden value.
pub open spec fn redacted_marker() -> Seq<char> {
    "<redacted>"@
}

/// A value that is shown only as the redaction marker.
#[derive(Clone, Copy, PartialEq, Eq)]
pub struct HiddenValue;

/// An optional value of which only the presence is shown.
#[derive(Clone, Copy, PartialEq, Eq)]
pub struct HiddenOptionalValue {
    present: bool,
}

/// Rendering of an optional hidden value: `Some(<redacted>)` or `None`.
pub open spec fn hidden_optional_text(present: bool) -> Seq<char> {
    if present {
        "Some(<redacted>)"@
    } else {
        "None"@
    }
}

/// Hides `value`: the result renders as the marker alone.
pub fn hide_value(value: &String) -> (hidden: HiddenValue) {
    HiddenValue
}

/// Hides an optional value, keeping only whether it is present.
pub fn hide_optional_value(value: &Option<String>) -> (hidden: HiddenOptionalValue)
    ensures
        hidden.is_present() == value.is_some(),
{
    HiddenOptionalValue { present: value.is_some() }
}

impl HiddenValue {
    /// The rendering of a hidden value (for display and for debugging alike).
    pub fn rendered(&self) -> (text: &'static str)
        ensures
            text@ == redacted_marker(),
    {
        "<redacted>"
    }
}

impl HiddenOptionalValue {
    /// Whether a value was present.
    pub closed spec fn is_present(&self) -> bool {
        self.present
    }

    /// The debug rendering: `Some(<redacted>)` or `None`.
    pub fn rendered(&self) -> (text: String)
        ensures
            text@ == hidden_optional_text(self.is_present()),
    {
        if self.present {
            owned("Some(<redacted>)")
        } else {
            owned("None")
        }
    }
}

/// What std's `Debug` prints for a text: the text quoted, with special
/// characters escaped.
pub uninterp spec fn debug_quoted(s: Seq<char>) -> Seq<char>;

/// `format!("{:?}", s)`, std's `Debug` rendering of a text.
#[verifier::external_body]
fn debug_quote(s: &str) -> (r: String)
    ensures
        r@ == debug_quoted(s@),
{
    format!("{:?}", s)
}

/// Debug rendering of an optional text.
pub open spec fn optional_text(value: Option<String>) -> Seq<char> {
    match value {
        Some(s) => "Some("@ + debug_quoted(s@) + ")"@,
        None => "None"@,
    }
}

/// Debug rendering of an optional flag.
pub open spec fn optional_flag(value: Option<bool>) -> Seq<char> {
    match value {
        Some(true) => "Some(true)"@,
        Some(false) => "Some(false)"@,
        None => "None"@,
    }
}

/// Debug rendering of an optional port number.
pub open spec fn optional_port(value: Option<u16>) -> Seq<char> {
    match value {
        Some(p) => "Some("@ + decimal(p as nat) + ")"@,
        None => "None"@,
    }
}

fn push_text(out: &mut String, value: &String)
    ensures
        final(out)@ == old(out)@ + debug_quoted(value@),
{
    let q = debug_quote(value.as_str());
    out.append(q.as_str());
}

fn push_optional_text(out: &mut String, value: &Option<String>)
    ensures
        final(out)@ == old(out)@ + optional_text(*value),
{
    match value {
        Some(s) => {
            out.append("Some(");
            push_text(out, s);
            out.append(")");
        },
        None => out.append("None"),
    }
}

fn push_hidden(out: &mut String, value: &Option<String>)
    ensures
        final(out)@ == old(out)@ + hidden_optional_text(value.is_some()),
{
    let h = hide_optional_value(value).rendered();
    out.append(h.as_str());
}

/// Debug rendering of a credential create command; every secret shows only
/// whether it was given.
pub open spec fn create_credential_text(c: CreateCredentialInput) -> Seq<char> {
    "CreateCredentialInput { name: "@ + debug_quoted(c.name@) + ", comment: "@ + optional_text(
        c.comment,
    ) + ", credential_type: "@ + debug_quoted(c.credential_type@) + ", login: "@ + optional_text(
        c.login,
    ) + ", password: "@ + hidden_optional_text(c.password.is_some()) + ", private_key: "@
        + hidden_optional_text(c.private_key.is_some()) + ", certificate: "@ + optional_text(
        c.certificate,
    ) + ", community: "@ + hidden_optional_text(c.community.is_some()) + ", auth_algorithm: "@
        + optional_text(c.auth_algorithm) + ", privacy_algorithm: "@ + optional_text(
        c.privacy_algorithm,
    ) + ", privacy_password: "@ + hidden_optional_text(c.privacy_password.is_some())
        + ", credential_store_id: "@ + optional_text(c.credential_store_id) + ", vault_id: "@
        + hidden_optional_text(c.vault_id.is_some()) + ", host_identifier: "@
        + hidden_optional_text(c.host_identifier.is_some()) + " }"@
}

/// Debug rendering of a credential update command; every secret shows only
/// whether it was given.
pub open spec fn modify_credential_text(c: ModifyCredentialInput) -> Seq<char> {
    "ModifyCredentialInput { name: "@ + optional_text(c.name) + ", comment: "@ + optional_text(
        c.comment,
    ) + ", login: "@ + optional_text(c.login) + ", password: "@ + hidden_optional_text(
        c.password.is_some(),
    ) + ", private_key: "@ + hidden_optional_text(c.private_key.is_some()) + ", certificate: "@
        + optional_text(c.certificate) + ", community: "@ + hidden_optional_text(
        c.community.is_some(),
    ) + ", auth_algorithm: "@ + optional_text(c.auth_algorithm) + ", privacy_algorithm: "@
        + optional_text(c.privacy_algorithm) + ", privacy_password: "@ + hidden_optional_text(
        c.privacy_password.is_some(),
    ) + ", credential_store_id: "@ + optional_text(c.credential_store_id) + ", vault_id: "@
        + hidden_optional_text(c.vault_id.is_some()) + ", host_identifier: "@
        + hidden_optional_text(c.host_identifier.is_some()) + " }"@
}

/// Debug rendering of a store preference update; the value is replaced by
/// the marker.
pub open spec fn preference_text(p: CredentialStorePreferenceInput) -> Seq<char> {
    "CredentialStorePreferenceInput { name: "@ + debug_quoted(p.name@) + ", value: "@
        + debug_quoted(redacted_marker()) + " }"@
}

/// The renderings of `items`, separated by `, `.
pub open spec fn comma_separated(items: Seq<Seq<char>>) -> Seq<char>
    decreases items.len(),
{
    if items.len() == 0 {
        Seq::empty()
    } else if items.len() == 1 {
        items[0]
    } else {
        comma_separated(items.drop_last()) + ", "@ + items.last()
    }
}

/// Debug rendering of a list of store preference updates.
pub open spec fn preferences_text(ps: Seq<CredentialStorePreferenceInput>) -> Seq<char> {
    "["@ + comma_separated(ps.map_values(|p: CredentialStorePreferenceInput| preference_text(p)))
        + "]"@
}

/// Debug rendering of a credential-store update command.
pub open spec fn modify_credential_store_text(c: ModifyCredentialStoreInput) -> Seq<char> {
    "ModifyCredentialStoreInput { active: "@ + optional_flag(c.active) + ", host: "@
        + optional_text(c.host) + ", path: "@ + optional_text(c.path) + ", port: "@
        + optional_port(c.port) + ", comment: "@ + optional_text(c.comment) + ", preferences: "@
        + preferences_text(c.preferences@) + " }"@
}

impl CredentialStorePreferenceInput {
    /// The log-safe debug rendering of this preference update.
    pub fn debug_text(&self) -> (text: String)
        ensures
            text@ == preference_text(*self),
    {
        let mut out = owned("CredentialStorePreferenceInput { name: ");
        push_text(&mut out, &self.name);
        out.append(", value: ");
        let marker = debug_quote("<redacted>");
        out.append(marker.as_str());
        out.append(" }");
        out
    }
}

impl ModifyCredentialStoreInput {
    /// The log-safe debug rendering of this command.
    pub fn debug_text(&self) -> (text: String)
        ensures
            text@ == modify_credential_store_text(*self),
    {
        let mut out = owned("ModifyCredentialStoreInput { active: ");
        match self.active {
            Some(true) => out.append("Some(true)"),
            Some(false) => out.append("Some(false)"),
            None => out.append("None"),
        }
        out.append(", host: ");
        push_optional_text(&mut out, &self.host);
        out.append(", path: ");
        push_optional_text(&mut out, &self.path);
        out.append(", port: ");
        match self.port {
            Some(p) => {
                out.append("Some(");
                let digits = decimal_text(p as u64);
                out.append(digits.as_str());
                out.append(")");
            },
            None => out.append("None"),
        }
        out.append(", comment: ");
        push_optional_text(&mut out, &self.comment);
        out.append(", preferences: [");
        let ghost rendered = self.preferences@.map_values(
            |p: CredentialStorePreferenceInput| preference_text(p),
        );
        let ghost prefix = out@;
        let mut i: usize = 0;
        while i < self.preferences.len()
            invariant
                i <= self.preferences@.len(),
                rendered == self.preferences@.map_values(
                    |p: CredentialStorePreferenceInput| preference_text(p),
                ),
                out@ == prefix + comma_separated(rendered.take(i as int)),
            decreases self.preferences@.len() - i,
        {
            let ghost before = out@;
            if i > 0 {
                out.append(", ");
            }
            let item = self.preferences[i].debug_text();
            out.append(item.as_str());
            proof {
                assert(rendered.take(i + 1).drop_last() =~= rendered.take(i as int));
                assert(rendered.take(i + 1).last() == rendered[i as int]);
                if i == 0 {
                    assert(comma_separated(rendered.take(0)) =~= Seq::<char>::empty());
                }
            }
            i = i + 1;
        }
        proof {
            assert(rendered.take(self.preferences@.len() as int) =~= rendered);
        }
        out.append("] }");
        proof {
            reveal_strlit("] }");
            reveal_strlit("]");
            reveal_strlit(" }");
            assert("] }"@ =~= "]"@ + " }"@);
            reveal_strlit(", preferences: [");
            reveal_strlit(", preferences: ");
            reveal_strlit("[");
            assert(", preferences: ["@ =~= ", preferences: "@ + "["@);
            assert(out@ =~= modify_credential_store_text(*self));
        }
        out
    }
}

impl CreateCredentialInput {
    /// The log-safe debug rendering of this command.
    pub fn debug_text(&self) -> (text: String)
        ensures
            text@ == create_credential_text(*self),
    {
        let mut out = owned("CreateCredentialInput { name: ");
        push_text(&mut out, &self.name);
        out.append(", comment: ");
        push_optional_text(&mut out, &self.comment);
        out.append(", credential_type: ");
        push_text(&mut out, &self.credential_type);
        out.append(", login: ");
        push_optional_text(&mut out, &self.login);
        out.append(", password: ");
        push_hidden(&mut out, &self.password);
        out.append(", private_key: ");
        push_hidden(&mut out, &self.private_key);
        out.append(", certificate: ");
        push_optional_text(&mut out, &self.certificate);
        out.append(", community: ");
        push_hidden(&mut out, &self.community);
        out.append(", auth_algorithm: ");
        push_optional_text(&mut out, &self.auth_algorithm);
        out.append(", privacy_algorithm: ");
        push_optional_text(&mut out, &self.privacy_algorithm);
        out.append(", privacy_password: ");
        push_hidden(&mut out, &self.privacy_password);
        out.append(", credential_store_id: ");
        push_optional_text(&mut out, &self.credential_store_id);
        out.append(", vault_id: ");
        push_hidden(&mut out, &self.vault_id);
        out.append(", host_identifier: ");
        push_hidden(&mut out, &self.host_identifier);
        out.append(" }");
        out
    }
}

impl ModifyCredentialInput {
    /// The log-safe debug rendering of this command.
    pub fn debug_text(&self) -> (text: String)
        ensures
            text@ == modify_credential_text(*self),
    {
        let mut out = owned("ModifyCredentialInput { name: ");
        push_optional_text(&mut out, &self.name);
        out.append(", comment: ");
        push_optional_text(&mut out, &self.comment);
        out.append(", login: ");
        push_optional_text(&mut out, &self.login);
        out.append(", password: ");
        push_hidden(&mut out, &self.password);
        out.append(", private_key: ");
        push_hidden(&mut out, &self.private_key);
        out.append(", certificate: ");
        push_optional_text(&mut out, &self.certificate);
        out.append(", community: ");
        push_hidden(&mut out, &self.community);
        out.append(", auth_algorithm: ");
        push_optional_text(&mut out, &self.auth_algorithm);
        out.append(", privacy_algorithm: ");
        push_optional_text(&mut out, &self.privacy_algorithm);
        out.append(", privacy_password: ");
        push_hidden(&mut out, &self.privacy_password);
        out.append(", credential_store_id: ");
        push_optional_text(&mut out, &self.credential_store_id);
        out.append(", vault_id: ");
        push_hidden(&mut out, &self.vault_id);
        out.append(", host_identifier: ");
        push_hidden(&mut out, &self.host_identifier);
        out.append(" }");
        out
    }
}

/// Two credential create commands that differ only in their secrets (and
/// agree on which secrets are given) render identically: the rendering
/// reveals nothing of a secret but its presence.
pub proof fn create_credential_text_hides_secrets(a: CreateCredentialInput, b: CreateCredentialInput)
    requires
        a.name == b.name,
        a.comment == b.comment,
        a.credential_type == b.credential_type,
        a.login == b.login,
        a.certificate == b.certificate,
        a.auth_algorithm == b.auth_algorithm,
        a.privacy_algorithm == b.privacy_algorithm,
        a.credential_store_id == b.credential_store_id,
        a.password.is_some() == b.password.is_some(),
        a.private_key.is_some() == b.private_key.is_some(),
        a.community.is_some() == b.community.is_some(),
        a.privacy_password.is_some() == b.privacy_password.is_some(),
        a.vault_id.is_some() == b.vault_id.is_some(),
        a.host_identifier.is_some() == b.host_identifier.is_some(),
    ensures
        create_credential_text(a) == create_credential_text(b),
{
}

/// Two credential update commands that differ only in their secrets (and
/// agree on which secrets are given) render identically.
pub proof fn modify_credential_text_hides_secrets(a: ModifyCredentialInput, b: ModifyCredentialInput)
    requires
        a.name == b.name,
        a.comment == b.comment,
        a.login == b.login,
        a.certificate == b.certificate,
        a.auth_algorithm == b.auth_algorithm,
        a.privacy_algorithm == b.privacy_algorithm,
        a.credential_store_id == b.credential_store_id,
        a.password.is_some() == b.password.is_some(),
        a.private_key.is_some() == b.private_key.is_some(),
        a.community.is_some() == b.community.is_some(),
        a.privacy_password.is_some() == b.privacy_password.is_some(),
        a.vault_id.is_some() == b.vault_id.is_some(),
        a.host_identifier.is_some() == b.host_identifier.is_some(),
    ensures
        modify_credential_text(a) == modify_credential_text(b),
{
}

/// Two credential-store updates whose preference lists differ only in the
/// preference values render identically.
pub proof fn modify_credential_store_text_hides_preference_values(
    a: ModifyCredentialStoreInput,
    b: ModifyCredentialStoreInput,
)
    requires
        a.active == b.active,
        a.host == b.host,
        a.path == b.path,
        a.port == b.port,
        a.comment == b.comment,
        a.preferences@.len() == b.preferences@.len(),
        forall|i: int|
            0 <= i < a.preferences@.len() ==> #[trigger] a.preferences@[i].name == b.preferences@[i].name,
    ensures
        modify_credential_store_text(a) == modify_credential_store_text(b),
{
    let ra = a.preferences@.map_values(|p: CredentialStorePreferenceInput| preference_text(p));
    let rb = b.preferences@.map_values(|p: CredentialStorePreferenceInput| preference_text(p));
    assert forall|i: int| 0 <= i < ra.len() implies ra[i] == rb[i] by {
        assert(a.preferences@[i].name == b.preferences@[i].name);
    }
    assert(ra =~= rb);
}

} // verus!
