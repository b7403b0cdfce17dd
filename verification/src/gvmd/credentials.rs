//! Credentials and credential stores.

use vstd::prelude::*;

use crate::backend::{
    credential_store_capability_unavailable, credential_stores_unavailable,
    is_unsupported_command, unsupported_command, unsupported_credential_store_detail,
    unsupported_credential_store_error, BackendError,
};
use crate::domain::credentials::{CreateCredentialInput, ModifyCredentialInput};
use crate::errors::{fails_with, ErrorCode, GatewayError};
use crate::ids::{invalid_id_detail, is_entity_id, parse_entity_id, parse_optional_entity_id, EntityId};
use crate::text::{joined, owned, text_eq};

verus! {

/// Whether the connected gvmd offers credential stores, as learned when
/// the session was opened.
#[derive(Clone, Copy, Debug, PartialEq, Eq, Structural)]
pub enum CredentialStoreCapability {
    Unknown,
    Supported,
    Unsupported,
}

/// What the credential-store probe at session start found out.
#[derive(Clone, Copy, Debug, PartialEq, Eq, Structural)]
pub struct CredentialStoreProbeOutcome {
    /// The capability to record for the session.
    pub capability: CredentialStoreCapability,
    /// Whether the probe left the connection unusable, so it must be
    /// re-established before the session is published.
    pub requires_reconnect: bool,
}

/// Classifies the answer to the `get_credential_stores` probe: success
/// means supported; a missing command means unsupported; a disabled command
/// means unsupported on a connection that must be re-established; any
/// other failure is passed on.
pub fn credential_store_probe_outcome(answer: Result<(), BackendError>) -> (result: Result<
    CredentialStoreProbeOutcome,
    BackendError,
>)
    ensures
        match answer {
            Ok(()) => result == Ok::<CredentialStoreProbeOutcome, BackendError>(
                CredentialStoreProbeOutcome {
                    capability: CredentialStoreCapability::Supported,
                    requires_reconnect: false,
                },
            ),
            Err(e) => if is_unsupported_command(e, "get_credential_stores"@) {
                result == Ok::<CredentialStoreProbeOutcome, BackendError>(
                    CredentialStoreProbeOutcome {
                        capability: CredentialStoreCapability::Unsupported,
                        requires_reconnect: false,
                    },
                )
            } else if credential_stores_unavailable(e) {
                result == Ok::<CredentialStoreProbeOutcome, BackendError>(
                    CredentialStoreProbeOutcome {
                        capability: CredentialStoreCapability::Unsupported,
                        requires_reconnect: true,
                    },
                )
            } else {
                result == Err::<CredentialStoreProbeOutcome, BackendError>(e)
            },
        },
{
    match answer {
        Ok(()) => Ok(
            CredentialStoreProbeOutcome {
                capability: CredentialStoreCapability::Supported,
                requires_reconnect: false,
            },
        ),
        Err(e) => {
            if unsupported_command(&e, "get_credential_stores") {
                Ok(
                    CredentialStoreProbeOutcome {
                        capability: CredentialStoreCapability::Unsupported,
                        requires_reconnect: false,
                    },
                )
            } else if credential_store_capability_unavailable(&e) {
                Ok(
                    CredentialStoreProbeOutcome {
                        capability: CredentialStoreCapability::Unsupported,
                        requires_reconnect: true,
                    },
                )
            } else {
                Err(e)
            }
        },
    }
}

/// What opening a session records after the probe: the probed capability
/// (reconnecting if the probe asks for it), or, when the probe itself
/// failed, an unknown capability on a fresh connection.
pub fn capability_after_probe(probe: &Result<CredentialStoreProbeOutcome, BackendError>) -> (result: (
    CredentialStoreCapability,
    bool,
))
    ensures
        match *probe {
            Ok(o) => result == (o.capability, o.requires_reconnect),
            Err(_) => result == (CredentialStoreCapability::Unknown, true),
        },
{
    match probe {
        Ok(o) => (o.capability, o.requires_reconnect),
        Err(_) => (CredentialStoreCapability::Unknown, true),
    }
}

/// Refuses credential-store operations on sessions whose backend is known
/// not to offer them.
pub fn ensure_credential_stores_supported(capability: CredentialStoreCapability) -> (result: Result<(), GatewayError>)
    ensures
        capability == CredentialStoreCapability::Unsupported ==> fails_with(result, 
            ErrorCode::NotImplemented,
            unsupported_credential_store_detail(),
        ),
        capability != CredentialStoreCapability::Unsupported ==> result is Ok,
{
    if capability == CredentialStoreCapability::Unsupported {
        return Err(unsupported_credential_store_error());
    }
    Ok(())
}

/// Kinds of credential whose secret lives in an external credential store.
#[derive(Clone, Copy, Debug, PartialEq, Eq, Structural)]
pub enum CredentialStoreCredentialType {
    ClientCertificate,
    PasswordOnly,
    PgpEncryptionKey,
    SmimeCertificate,
    Snmp,
    UsernamePassword,
    UsernameSshKey,
}

/// The `cs_`-prefixed type code of each store-backed credential kind.
pub open spec fn store_type_code(t: CredentialStoreCredentialType) -> Seq<char> {
    match t {
        CredentialStoreCredentialType::ClientCertificate => "cs_cc"@,
        CredentialStoreCredentialType::PasswordOnly => "cs_pw"@,
        CredentialStoreCredentialType::PgpEncryptionKey => "cs_pgp"@,
        CredentialStoreCredentialType::SmimeCertificate => "cs_smime"@,
        CredentialStoreCredentialType::Snmp => "cs_snmp"@,
        CredentialStoreCredentialType::UsernamePassword => "cs_up"@,
        CredentialStoreCredentialType::UsernameSshKey => "cs_usk"@,
    }
}

/// Whether `value` names a store-backed credential kind.
pub open spec fn is_store_type_code(value: Seq<char>) -> bool {
    exists|t: CredentialStoreCredentialType| store_type_code(t) == value
}

/// The store-backed credential kind named by `value`, if any.
pub fn parse_credential_store_type(value: &str) -> (result: Option<CredentialStoreCredentialType>)
    ensures
        value@ == "cs_cc"@ ==> result == Some::<CredentialStoreCredentialType>(CredentialStoreCredentialType::ClientCertificate),
        value@ == "cs_pw"@ ==> result == Some::<CredentialStoreCredentialType>(CredentialStoreCredentialType::PasswordOnly),
        value@ == "cs_pgp"@ ==> result == Some::<CredentialStoreCredentialType>(CredentialStoreCredentialType::PgpEncryptionKey),
        value@ == "cs_smime"@ ==> result == Some::<CredentialStoreCredentialType>(CredentialStoreCredentialType::SmimeCertificate),
        value@ == "cs_snmp"@ ==> result == Some::<CredentialStoreCredentialType>(CredentialStoreCredentialType::Snmp),
        value@ == "cs_up"@ ==> result == Some::<CredentialStoreCredentialType>(CredentialStoreCredentialType::UsernamePassword),
        value@ == "cs_usk"@ ==> result == Some::<CredentialStoreCredentialType>(CredentialStoreCredentialType::UsernameSshKey),
        match result {
            Some(t) => store_type_code(t) == value@,
            None => !is_store_type_code(value@),
        },
{
    proof {
        reveal_strlit("cs_cc");
        reveal_strlit("cs_pw");
        reveal_strlit("cs_pgp");
        reveal_strlit("cs_smime");
        reveal_strlit("cs_snmp");
        reveal_strlit("cs_up");
        reveal_strlit("cs_usk");
        assert("cs_cc"@[3] != "cs_pw"@[3]);
        assert("cs_cc"@[3] != "cs_up"@[3]);
        assert("cs_pw"@[3] != "cs_up"@[3]);
        assert("cs_pgp"@[3] != "cs_usk"@[3]);
        assert("cs_cc"@ != "cs_pw"@);
        assert("cs_cc"@[3] != "cs_pgp"@[3]);
        assert("cs_cc"@ != "cs_pgp"@);
        assert("cs_cc"@[3] != "cs_smime"@[3]);
        assert("cs_cc"@ != "cs_smime"@);
        assert("cs_cc"@[3] != "cs_snmp"@[3]);
        assert("cs_cc"@ != "cs_snmp"@);
        assert("cs_cc"@ != "cs_up"@);
        assert("cs_cc"@[3] != "cs_usk"@[3]);
        assert("cs_cc"@ != "cs_usk"@);
        assert("cs_pw"@[4] != "cs_pgp"@[4]);
        assert("cs_pw"@ != "cs_pgp"@);
        assert("cs_pw"@[3] != "cs_smime"@[3]);
        assert("cs_pw"@ != "cs_smime"@);
        assert("cs_pw"@[3] != "cs_snmp"@[3]);
        assert("cs_pw"@ != "cs_snmp"@);
        assert("cs_pw"@ != "cs_up"@);
        assert("cs_pw"@[3] != "cs_usk"@[3]);
        assert("cs_pw"@ != "cs_usk"@);
        assert("cs_pgp"@[3] != "cs_smime"@[3]);
        assert("cs_pgp"@ != "cs_smime"@);
        assert("cs_pgp"@[3] != "cs_snmp"@[3]);
        assert("cs_pgp"@ != "cs_snmp"@);
        assert("cs_pgp"@[3] != "cs_up"@[3]);
        assert("cs_pgp"@ != "cs_up"@);
        assert("cs_pgp"@ != "cs_usk"@);
        assert("cs_smime"@[4] != "cs_snmp"@[4]);
        assert("cs_smime"@ != "cs_snmp"@);
        assert("cs_smime"@[3] != "cs_up"@[3]);
        assert("cs_smime"@ != "cs_up"@);
        assert("cs_smime"@[3] != "cs_usk"@[3]);
        assert("cs_smime"@ != "cs_usk"@);
        assert("cs_snmp"@[3] != "cs_up"@[3]);
        assert("cs_snmp"@ != "cs_up"@);
        assert("cs_snmp"@[3] != "cs_usk"@[3]);
        assert("cs_snmp"@ != "cs_usk"@);
        assert("cs_up"@[4] != "cs_usk"@[4]);
        assert("cs_up"@ != "cs_usk"@);
    }
    if text_eq(value, "cs_cc") {
        Some(CredentialStoreCredentialType::ClientCertificate)
    } else if text_eq(value, "cs_pw") {
        Some(CredentialStoreCredentialType::PasswordOnly)
    } else if text_eq(value, "cs_pgp") {
        Some(CredentialStoreCredentialType::PgpEncryptionKey)
    } else if text_eq(value, "cs_smime") {
        Some(CredentialStoreCredentialType::SmimeCertificate)
    } else if text_eq(value, "cs_snmp") {
        Some(CredentialStoreCredentialType::Snmp)
    } else if text_eq(value, "cs_up") {
        Some(CredentialStoreCredentialType::UsernamePassword)
    } else if text_eq(value, "cs_usk") {
        Some(CredentialStoreCredentialType::UsernameSshKey)
    } else {
        proof {
            assert forall|t: CredentialStoreCredentialType| store_type_code(t) != value@ by {
                match t {
                    _ => {},
                }
            }
        }
        None
    }
}

/// Kinds of locally stored credential.
#[derive(Clone, Copy, Debug, PartialEq, Eq, Structural)]
pub enum CredentialType {
    ClientCertificate,
    Kerberos,
    PasswordOnly,
    PgpEncryptionKey,
    SmimeCertificate,
    Snmp,
    UsernamePassword,
    UsernameSshKey,
}

/// The GMP type code of each local credential kind.
pub open spec fn credential_type_code(t: CredentialType) -> Seq<char> {
    match t {
        CredentialType::ClientCertificate => "cc"@,
        CredentialType::Kerberos => "krb5"@,
        CredentialType::PasswordOnly => "pw"@,
        CredentialType::PgpEncryptionKey => "pgp"@,
        CredentialType::SmimeCertificate => "smime"@,
        CredentialType::Snmp => "snmp"@,
        CredentialType::UsernamePassword => "up"@,
        CredentialType::UsernameSshKey => "usk"@,
    }
}

/// Detail of the error for an unknown local credential type.
pub open spec fn invalid_credential_type_detail(value: Seq<char>) -> Seq<char> {
    "invalid credential type: "@ + value
}

/// Parses a local credential type code.
pub fn parse_credential_type(value: &str) -> (result: Result<CredentialType, GatewayError>)
    ensures
        value@ == "cc"@ ==> result == Ok::<CredentialType, GatewayError>(CredentialType::ClientCertificate),
        value@ == "krb5"@ ==> result == Ok::<CredentialType, GatewayError>(CredentialType::Kerberos),
        value@ == "pw"@ ==> result == Ok::<CredentialType, GatewayError>(CredentialType::PasswordOnly),
        value@ == "pgp"@ ==> result == Ok::<CredentialType, GatewayError>(CredentialType::PgpEncryptionKey),
        value@ == "smime"@ ==> result == Ok::<CredentialType, GatewayError>(CredentialType::SmimeCertificate),
        value@ == "snmp"@ ==> result == Ok::<CredentialType, GatewayError>(CredentialType::Snmp),
        value@ == "up"@ ==> result == Ok::<CredentialType, GatewayError>(CredentialType::UsernamePassword),
        value@ == "usk"@ ==> result == Ok::<CredentialType, GatewayError>(CredentialType::UsernameSshKey),
        match result {
            Ok(t) => credential_type_code(t) == value@,
            Err(e) => (forall|t: CredentialType| credential_type_code(t) != value@) && e@ == (
                ErrorCode::InvalidInput,
                invalid_credential_type_detail(value@),
            ),
        },
{
    proof {
        reveal_strlit("cc");
        reveal_strlit("krb5");
        reveal_strlit("pw");
        reveal_strlit("pgp");
        reveal_strlit("smime");
        reveal_strlit("snmp");
        reveal_strlit("up");
        reveal_strlit("usk");
        assert("cc"@[0] != "pw"@[0]);
        assert("cc"@[0] != "up"@[0]);
        assert("krb5"@[0] != "snmp"@[0]);
        assert("pw"@[0] != "up"@[0]);
        assert("pgp"@[0] != "usk"@[0]);
        assert("cc"@[0] != "krb5"@[0]);
        assert("cc"@ != "krb5"@);
        assert("cc"@ != "pw"@);
        assert("cc"@[0] != "pgp"@[0]);
        assert("cc"@ != "pgp"@);
        assert("cc"@[0] != "smime"@[0]);
        assert("cc"@ != "smime"@);
        assert("cc"@[0] != "snmp"@[0]);
        assert("cc"@ != "snmp"@);
        assert("cc"@ != "up"@);
        assert("cc"@[0] != "usk"@[0]);
        assert("cc"@ != "usk"@);
        assert("krb5"@[0] != "pw"@[0]);
        assert("krb5"@ != "pw"@);
        assert("krb5"@[0] != "pgp"@[0]);
        assert("krb5"@ != "pgp"@);
        assert("krb5"@[0] != "smime"@[0]);
        assert("krb5"@ != "smime"@);
        assert("krb5"@ != "snmp"@);
        assert("krb5"@[0] != "up"@[0]);
        assert("krb5"@ != "up"@);
        assert("krb5"@[0] != "usk"@[0]);
        assert("krb5"@ != "usk"@);
        assert("pw"@[1] != "pgp"@[1]);
        assert("pw"@ != "pgp"@);
        assert("pw"@[0] != "smime"@[0]);
        assert("pw"@ != "smime"@);
        assert("pw"@[0] != "snmp"@[0]);
        assert("pw"@ != "snmp"@);
        assert("pw"@ != "up"@);
        assert("pw"@[0] != "usk"@[0]);
        assert("pw"@ != "usk"@);
        assert("pgp"@[0] != "smime"@[0]);
        assert("pgp"@ != "smime"@);
        assert("pgp"@[0] != "snmp"@[0]);
        assert("pgp"@ != "snmp"@);
        assert("pgp"@[0] != "up"@[0]);
        assert("pgp"@ != "up"@);
        assert("pgp"@ != "usk"@);
        assert("smime"@[1] != "snmp"@[1]);
        assert("smime"@ != "snmp"@);
        assert("smime"@[0] != "up"@[0]);
        assert("smime"@ != "up"@);
        assert("smime"@[0] != "usk"@[0]);
        assert("smime"@ != "usk"@);
        assert("snmp"@[0] != "up"@[0]);
        assert("snmp"@ != "up"@);
        assert("snmp"@[0] != "usk"@[0]);
        assert("snmp"@ != "usk"@);
        assert("up"@[1] != "usk"@[1]);
        assert("up"@ != "usk"@);
    }
    if text_eq(value, "cc") {
        Ok(CredentialType::ClientCertificate)
    } else if text_eq(value, "krb5") {
        Ok(CredentialType::Kerberos)
    } else if text_eq(value, "pw") {
        Ok(CredentialType::PasswordOnly)
    } else if text_eq(value, "pgp") {
        Ok(CredentialType::PgpEncryptionKey)
    } else if text_eq(value, "smime") {
        Ok(CredentialType::SmimeCertificate)
    } else if text_eq(value, "snmp") {
        Ok(CredentialType::Snmp)
    } else if text_eq(value, "up") {
        Ok(CredentialType::UsernamePassword)
    } else if text_eq(value, "usk") {
        Ok(CredentialType::UsernameSshKey)
    } else {
        proof {
            assert forall|t: CredentialType| credential_type_code(t) != value@ by {
                match t {
                    _ => {},
                }
            }
        }
        Err(GatewayError::InvalidInput(joined("invalid credential type: ", value)))
    }
}

/// SNMP authentication algorithms.
#[derive(Clone, Copy, Debug, PartialEq, Eq, Structural)]
pub enum SnmpAuthAlgorithm {
    Md5,
    Sha1,
}

/// SNMP privacy algorithms.
#[derive(Clone, Copy, Debug, PartialEq, Eq, Structural)]
pub enum SnmpPrivacyAlgorithm {
    Aes,
    Des,
}

/// The GMP name of each SNMP authentication algorithm.
pub open spec fn snmp_auth_name(a: SnmpAuthAlgorithm) -> Seq<char> {
    match a {
        SnmpAuthAlgorithm::Md5 => "md5"@,
        SnmpAuthAlgorithm::Sha1 => "sha1"@,
    }
}

/// The GMP name of each SNMP privacy algorithm.
pub open spec fn snmp_privacy_name(a: SnmpPrivacyAlgorithm) -> Seq<char> {
    match a {
        SnmpPrivacyAlgorithm::Aes => "aes"@,
        SnmpPrivacyAlgorithm::Des => "des"@,
    }
}

/// Parses an SNMP authentication algorithm.
pub fn parse_snmp_auth_algorithm(value: &str) -> (result: Result<SnmpAuthAlgorithm, GatewayError>)
    ensures
        value@ == "md5"@ ==> result == Ok::<SnmpAuthAlgorithm, GatewayError>(SnmpAuthAlgorithm::Md5),
        value@ == "sha1"@ ==> result == Ok::<SnmpAuthAlgorithm, GatewayError>(SnmpAuthAlgorithm::Sha1),
        match result {
            Ok(a) => snmp_auth_name(a) == value@,
            Err(e) => value@ != "md5"@ && value@ != "sha1"@ && e@ == (
                ErrorCode::InvalidInput,
                "invalid SNMP auth algorithm: "@ + value@,
            ),
        },
{
    proof {
        reveal_strlit("md5");
        reveal_strlit("sha1");
        assert("md5"@[0] != "sha1"@[0]);
        assert("md5"@ != "sha1"@);
    }
    if text_eq(value, "md5") {
        Ok(SnmpAuthAlgorithm::Md5)
    } else if text_eq(value, "sha1") {
        Ok(SnmpAuthAlgorithm::Sha1)
    } else {
        Err(GatewayError::InvalidInput(joined("invalid SNMP auth algorithm: ", value)))
    }
}

/// Parses an SNMP privacy algorithm.
pub fn parse_snmp_privacy_algorithm(value: &str) -> (result: Result<SnmpPrivacyAlgorithm, GatewayError>)
    ensures
        value@ == "aes"@ ==> result == Ok::<SnmpPrivacyAlgorithm, GatewayError>(SnmpPrivacyAlgorithm::Aes),
        value@ == "des"@ ==> result == Ok::<SnmpPrivacyAlgorithm, GatewayError>(SnmpPrivacyAlgorithm::Des),
        match result {
            Ok(a) => snmp_privacy_name(a) == value@,
            Err(e) => value@ != "aes"@ && value@ != "des"@ && e@ == (
                ErrorCode::InvalidInput,
                "invalid SNMP privacy algorithm: "@ + value@,
            ),
        },
{
    proof {
        reveal_strlit("aes");
        reveal_strlit("des");
        assert("aes"@[0] != "des"@[0]);
        assert("aes"@ != "des"@);
    }
    if text_eq(value, "aes") {
        Ok(SnmpPrivacyAlgorithm::Aes)
    } else if text_eq(value, "des") {
        Ok(SnmpPrivacyAlgorithm::Des)
    } else {
        Err(GatewayError::InvalidInput(joined("invalid SNMP privacy algorithm: ", value)))
    }
}

/// Detail of the error for store references combined with local secrets.
pub open spec fn mixed_secret_detail() -> Seq<char> {
    "credential-store references cannot be combined with local credential values"@
}

/// Refuses local credential values next to credential-store references.
pub fn ensure_no_local_secret_fields(
    login: Option<&String>,
    password: Option<&String>,
    private_key: Option<&String>,
    certificate: Option<&String>,
    community: Option<&String>,
    auth_algorithm: Option<&String>,
    privacy_algorithm: Option<&String>,
    privacy_password: Option<&String>,
) -> (result: Result<(), GatewayError>)
    ensures
        (login.is_some() || password.is_some() || private_key.is_some() || certificate.is_some()
            || community.is_some() || auth_algorithm.is_some() || privacy_algorithm.is_some()
            || privacy_password.is_some()) ==> fails_with(result, 
            ErrorCode::InvalidInput,
            mixed_secret_detail(),
        ),
        !(login.is_some() || password.is_some() || private_key.is_some() || certificate.is_some()
            || community.is_some() || auth_algorithm.is_some() || privacy_algorithm.is_some()
            || privacy_password.is_some()) ==> result is Ok,
{
    if login.is_some() || password.is_some() || private_key.is_some() || certificate.is_some()
        || community.is_some() || auth_algorithm.is_some() || privacy_algorithm.is_some()
        || privacy_password.is_some() {
        return Err(
            GatewayError::InvalidInput(
                owned("credential-store references cannot be combined with local credential values"),
            ),
        );
    }
    Ok(())
}

/// Whether a create command carries any local credential value.
pub open spec fn create_has_local_values(i: CreateCredentialInput) -> bool {
    i.login.is_some() || i.password.is_some() || i.private_key.is_some() || i.certificate.is_some()
        || i.community.is_some() || i.auth_algorithm.is_some() || i.privacy_algorithm.is_some()
        || i.privacy_password.is_some()
}

/// Whether a create command carries any credential-store reference.
pub open spec fn create_has_store_fields(i: CreateCredentialInput) -> bool {
    i.credential_store_id.is_some() || i.vault_id.is_some() || i.host_identifier.is_some()
}

/// The gvmd command a credential create request becomes. It carries the
/// credential's secrets, so it has no `Debug` rendering.
#[derive(Clone)]
pub enum CreateCredentialCommand {
    /// A credential whose secret lives in an external credential store.
    StoreBacked {
        name: String,
        credential_type: CredentialStoreCredentialType,
        vault_id: String,
        host_identifier: String,
        comment: Option<String>,
        credential_store_id: Option<EntityId>,
    },
    /// A credential stored by gvmd itself.
    Local {
        name: String,
        comment: Option<String>,
        credential_type: CredentialType,
        login: Option<String>,
        password: Option<String>,
        private_key: Option<String>,
        certificate: Option<String>,
        community: Option<String>,
        auth_algorithm: Option<SnmpAuthAlgorithm>,
        privacy_password: Option<String>,
        privacy_algorithm: Option<SnmpPrivacyAlgorithm>,
    },
}

/// Detail of the error for store fields on a non-store credential type.
pub open spec fn store_fields_need_store_type_detail() -> Seq<char> {
    "credential-store fields require a credential type with the `cs_` prefix"@
}

/// Decides the gvmd command for a credential create request.
///
/// Store fields (`credentialStoreId`, `vaultId`, `hostIdentifier`) require a
/// `cs_` type. A `cs_` type requires a backend with credential stores, no
/// local secret values, a vault id and a host identifier. Every other type
/// becomes a local credential with validated type and SNMP algorithms.
pub fn create_credential_command(input: CreateCredentialInput, capability: CredentialStoreCapability) -> (result: Result<
    CreateCredentialCommand,
    GatewayError,
>)
    ensures
        !is_store_type_code(input.credential_type@) && create_has_store_fields(input) ==> fails_with(result, ErrorCode::InvalidInput, store_fields_need_store_type_detail()),
        is_store_type_code(input.credential_type@) && capability
            == CredentialStoreCapability::Unsupported ==> fails_with(result, 
            ErrorCode::NotImplemented,
            unsupported_credential_store_detail(),
        ),
        is_store_type_code(input.credential_type@) && capability
            != CredentialStoreCapability::Unsupported && create_has_local_values(input) ==> fails_with(result, 
            ErrorCode::InvalidInput,
            mixed_secret_detail(),
        ),
        is_store_type_code(input.credential_type@) && capability
            != CredentialStoreCapability::Unsupported && !create_has_local_values(input)
            && input.vault_id.is_none() ==> fails_with(result, 
            ErrorCode::InvalidInput,
            "vaultId is required for a credential-store-backed credential"@,
        ),
        is_store_type_code(input.credential_type@) && capability
            != CredentialStoreCapability::Unsupported && !create_has_local_values(input)
            && input.vault_id.is_some() && input.host_identifier.is_none() ==> fails_with(result, 
            ErrorCode::InvalidInput,
            "hostIdentifier is required for a credential-store-backed credential"@,
        ),
        result matches Ok(CreateCredentialCommand::StoreBacked {
            name,
            credential_type,
            vault_id,
            host_identifier,
            comment,
            credential_store_id,
        }) ==> {
            &&& is_store_type_code(input.credential_type@)
            &&& capability != CredentialStoreCapability::Unsupported
            &&& !create_has_local_values(input)
            &&& store_type_code(credential_type) == input.credential_type@
            &&& name == input.name
            &&& comment == input.comment
            &&& input.vault_id == Some(vault_id)
            &&& input.host_identifier == Some(host_identifier)
            &&& match input.credential_store_id {
                None => credential_store_id.is_none(),
                Some(s) => credential_store_id matches Some(id) && id@ == s@,
            }
        },
        result matches Ok(CreateCredentialCommand::Local {
            name,
            comment,
            credential_type,
            login,
            password,
            private_key,
            certificate,
            community,
            auth_algorithm,
            privacy_password,
            privacy_algorithm,
        }) ==> {
            &&& !is_store_type_code(input.credential_type@)
            &&& !create_has_store_fields(input)
            &&& credential_type_code(credential_type) == input.credential_type@
            &&& name == input.name
            &&& comment == input.comment
            &&& login == input.login
            &&& password == input.password
            &&& private_key == input.private_key
            &&& certificate == input.certificate
            &&& community == input.community
            &&& privacy_password == input.privacy_password
            &&& match input.auth_algorithm {
                None => auth_algorithm.is_none(),
                Some(a) => auth_algorithm matches Some(x) && snmp_auth_name(x) == a@,
            }
            &&& match input.privacy_algorithm {
                None => privacy_algorithm.is_none(),
                Some(a) => privacy_algorithm matches Some(x) && snmp_privacy_name(x) == a@,
            }
        },
        is_store_type_code(input.credential_type@) && capability != CredentialStoreCapability::Unsupported
            && !create_has_local_values(input) && input.vault_id.is_some() && input.host_identifier.is_some()
            ==> match input.credential_store_id {
                Some(s) if !is_entity_id(s@) => fails_with(result, ErrorCode::InvalidInput, invalid_id_detail(s@)),
                _ => result is Ok,
            },
        !is_store_type_code(input.credential_type@) && !create_has_store_fields(input) ==> if !(exists|t: CredentialType|
            credential_type_code(t) == input.credential_type@) {
            fails_with(result, ErrorCode::InvalidInput, invalid_credential_type_detail(input.credential_type@))
        } else if input.auth_algorithm matches Some(a) && a@ != "md5"@ && a@ != "sha1"@ {
            fails_with(result, ErrorCode::InvalidInput, "invalid SNMP auth algorithm: "@ + input.auth_algorithm->0@)
        } else if input.privacy_algorithm matches Some(a) && a@ != "aes"@ && a@ != "des"@ {
            fails_with(result, ErrorCode::InvalidInput, "invalid SNMP privacy algorithm: "@ + input.privacy_algorithm->0@)
        } else {
            result is Ok
        },
{
    let store_type = parse_credential_store_type(input.credential_type.as_str());
    match store_type {
        None => {
            if input.credential_store_id.is_some() || input.vault_id.is_some()
                || input.host_identifier.is_some() {
                return Err(
                    GatewayError::InvalidInput(
                        owned(
                            "credential-store fields require a credential type with the `cs_` prefix",
                        ),
                    ),
                );
            }
            let credential_type = parse_credential_type(input.credential_type.as_str())?;
            let auth_algorithm = match &input.auth_algorithm {
                Some(a) => Some(parse_snmp_auth_algorithm(a.as_str())?),
                None => None,
            };
            let privacy_algorithm = match &input.privacy_algorithm {
                Some(a) => Some(parse_snmp_privacy_algorithm(a.as_str())?),
                None => None,
            };
            Ok(
                CreateCredentialCommand::Local {
                    name: input.name,
                    comment: input.comment,
                    credential_type,
                    login: input.login,
                    password: input.password,
                    private_key: input.private_key,
                    certificate: input.certificate,
                    community: input.community,
                    auth_algorithm,
                    privacy_password: input.privacy_password,
                    privacy_algorithm,
                },
            )
        },
        Some(credential_type) => {
            ensure_credential_stores_supported(capability)?;
            ensure_no_local_secret_fields(
                input.login.as_ref(),
                input.password.as_ref(),
                input.private_key.as_ref(),
                input.certificate.as_ref(),
                input.community.as_ref(),
                input.auth_algorithm.as_ref(),
                input.privacy_algorithm.as_ref(),
                input.privacy_password.as_ref(),
            )?;
            let vault_id = match input.vault_id {
                Some(v) => v,
                None => {
                    return Err(
                        GatewayError::InvalidInput(
                            owned("vaultId is required for a credential-store-backed credential"),
                        ),
                    );
                },
            };
            let host_identifier = match input.host_identifier {
                Some(h) => h,
                None => {
                    return Err(
                        GatewayError::InvalidInput(
                            owned(
                                "hostIdentifier is required for a credential-store-backed credential",
                            ),
                        ),
                    );
                },
            };
            let credential_store_id = match &input.credential_store_id {
                Some(s) => Some(parse_entity_id(s.as_str())?),
                None => None,
            };
            Ok(
                CreateCredentialCommand::StoreBacked {
                    name: input.name,
                    credential_type,
                    vault_id,
                    host_identifier,
                    comment: input.comment,
                    credential_store_id,
                },
            )
        },
    }
}

/// Whether a credential update carries any local credential value.
pub open spec fn modify_has_local_values(i: ModifyCredentialInput) -> bool {
    i.login.is_some() || i.password.is_some() || i.private_key.is_some() || i.certificate.is_some()
        || i.community.is_some() || i.auth_algorithm.is_some() || i.privacy_algorithm.is_some()
        || i.privacy_password.is_some()
}

/// Whether a credential update touches the credential-store reference.
pub open spec fn modify_has_store_fields(i: ModifyCredentialInput) -> bool {
    i.credential_store_id.is_some() || i.vault_id.is_some() || i.host_identifier.is_some()
}

/// The gvmd command a credential update becomes. It carries the
/// credential's secrets, so it has no `Debug` rendering.
#[derive(Clone)]
pub enum ModifyCredentialCommand {
    /// Update of a credential-store-backed credential's reference.
    StoreReference {
        id: EntityId,
        name: Option<String>,
        comment: Option<String>,
        credential_store_id: Option<EntityId>,
        vault_id: Option<String>,
        host_identifier: Option<String>,
    },
    /// Update of a credential stored by gvmd itself.
    Local {
        id: EntityId,
        name: Option<String>,
        comment: Option<String>,
        login: Option<String>,
        password: Option<String>,
        private_key: Option<String>,
        certificate: Option<String>,
        community: Option<String>,
        auth_algorithm: Option<SnmpAuthAlgorithm>,
        privacy_password: Option<String>,
        privacy_algorithm: Option<SnmpPrivacyAlgorithm>,
    },
}

/// Decides the gvmd command for a credential update.
///
/// An update that touches `credentialStoreId`, `vaultId` or
/// `hostIdentifier` needs a backend with credential stores and no local
/// secret values; every other update is a local one whose SNMP algorithms
/// are validated.
pub fn modify_credential_command(id: &str, input: ModifyCredentialInput, capability: CredentialStoreCapability) -> (result: Result<
    ModifyCredentialCommand,
    GatewayError,
>)
    ensures
        modify_has_store_fields(input) && capability == CredentialStoreCapability::Unsupported
            ==> fails_with(result, ErrorCode::NotImplemented, unsupported_credential_store_detail()),
        modify_has_store_fields(input) && capability != CredentialStoreCapability::Unsupported
            && modify_has_local_values(input) ==> fails_with(result, ErrorCode::InvalidInput, mixed_secret_detail()),
        modify_has_store_fields(input) && capability != CredentialStoreCapability::Unsupported
            && !modify_has_local_values(input) && !is_entity_id(id@) ==> fails_with(result, ErrorCode::InvalidInput, invalid_id_detail(id@)),
        modify_has_store_fields(input) && capability != CredentialStoreCapability::Unsupported
            && !modify_has_local_values(input) && is_entity_id(id@) ==> match input.credential_store_id {
                Some(s) if !is_entity_id(s@) => fails_with(result, ErrorCode::InvalidInput, invalid_id_detail(s@)),
                _ => result is Ok,
            },
        !modify_has_store_fields(input) ==> if !is_entity_id(id@) {
            fails_with(result, ErrorCode::InvalidInput, invalid_id_detail(id@))
        } else if input.auth_algorithm matches Some(a) && a@ != "md5"@ && a@ != "sha1"@ {
            fails_with(result, ErrorCode::InvalidInput, "invalid SNMP auth algorithm: "@ + input.auth_algorithm->0@)
        } else if input.privacy_algorithm matches Some(a) && a@ != "aes"@ && a@ != "des"@ {
            fails_with(result, ErrorCode::InvalidInput, "invalid SNMP privacy algorithm: "@ + input.privacy_algorithm->0@)
        } else {
            result is Ok
        },
        result matches Ok(ModifyCredentialCommand::StoreReference {
            id: cid,
            name,
            comment,
            credential_store_id,
            vault_id,
            host_identifier,
        }) ==> {
            &&& modify_has_store_fields(input)
            &&& cid@ == id@
            &&& name == input.name
            &&& comment == input.comment
            &&& vault_id == input.vault_id
            &&& host_identifier == input.host_identifier
            &&& match input.credential_store_id {
                None => credential_store_id.is_none(),
                Some(s) => credential_store_id matches Some(x) && x@ == s@,
            }
        },
        result matches Ok(ModifyCredentialCommand::Local {
            id: cid,
            name,
            comment,
            login,
            password,
            private_key,
            certificate,
            community,
            auth_algorithm,
            privacy_password,
            privacy_algorithm,
        }) ==> {
            &&& !modify_has_store_fields(input)
            &&& cid@ == id@
            &&& name == input.name
            &&& comment == input.comment
            &&& login == input.login
            &&& password == input.password
            &&& private_key == input.private_key
            &&& certificate == input.certificate
            &&& community == input.community
            &&& privacy_password == input.privacy_password
            &&& match input.auth_algorithm {
                None => auth_algorithm.is_none(),
                Some(a) => auth_algorithm matches Some(x) && snmp_auth_name(x) == a@,
            }
            &&& match input.privacy_algorithm {
                None => privacy_algorithm.is_none(),
                Some(a) => privacy_algorithm matches Some(x) && snmp_privacy_name(x) == a@,
            }
        },
{
    if input.credential_store_id.is_some() || input.vault_id.is_some()
        || input.host_identifier.is_some() {
        ensure_credential_stores_supported(capability)?;
        ensure_no_local_secret_fields(
            input.login.as_ref(),
            input.password.as_ref(),
            input.private_key.as_ref(),
            input.certificate.as_ref(),
            input.community.as_ref(),
            input.auth_algorithm.as_ref(),
            input.privacy_algorithm.as_ref(),
            input.privacy_password.as_ref(),
        )?;
        let cid = parse_entity_id(id)?;
        let credential_store_id = match &input.credential_store_id {
            Some(s) => Some(parse_entity_id(s.as_str())?),
            None => None,
        };
        return Ok(
            ModifyCredentialCommand::StoreReference {
                id: cid,
                name: input.name,
                comment: input.comment,
                credential_store_id,
                vault_id: input.vault_id,
                host_identifier: input.host_identifier,
            },
        );
    }
    let cid = parse_entity_id(id)?;
    let auth_algorithm = match &input.auth_algorithm {
        Some(a) => Some(parse_snmp_auth_algorithm(a.as_str())?),
        None => None,
    };
    let privacy_algorithm = match &input.privacy_algorithm {
        Some(a) => Some(parse_snmp_privacy_algorithm(a.as_str())?),
        None => None,
    };
    Ok(
        ModifyCredentialCommand::Local {
            id: cid,
            name: input.name,
            comment: input.comment,
            login: input.login,
            password: input.password,
            private_key: input.private_key,
            certificate: input.certificate,
            community: input.community,
            auth_algorithm,
            privacy_password: input.privacy_password,
            privacy_algorithm,
        },
    )
}

} // verus!
