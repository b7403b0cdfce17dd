//! Resource identifiers and the other enumerated inputs that are checked
//! before any command reaches gvmd.

use vstd::prelude::*;

use crate::errors::{fails_with, ErrorCode, GatewayError};
use crate::text::{joined, owned, text_eq};

verus! {

/// Characters that may appear in a resource identifier.
pub open spec fn is_id_char(c: char) -> bool {
    ('0' <= c && c <= '9') || ('a' <= c && c <= 'z') || ('A' <= c && c <= 'Z') || c == '-' || c
        == '_'
}

/// A resource identifier: a non-empty run of ASCII letters, digits, `-`
/// and `_` (UUIDs among them).
pub open spec fn is_entity_id(s: Seq<char>) -> bool {
    s.len() > 0 && forall|i: int| 0 <= i < s.len() ==> is_id_char(#[trigger] s[i])
}

/// A validated resource identifier.
#[derive(Debug, PartialEq, Eq)]
pub struct EntityId {
    value: String,
}

impl View for EntityId {
    type V = Seq<char>;

    closed spec fn view(&self) -> Seq<char> {
        self.value@
    }
}

impl Clone for EntityId {
    fn clone(&self) -> (copy: Self)
        ensures
            copy@ == self@,
    {
        proof {
            use_type_invariant(self);
        }
        EntityId { value: self.value.clone() }
    }
}

impl EntityId {
    #[verifier::type_invariant]
    spec fn well_formed(self) -> bool {
        is_entity_id(self.value@)
    }

    /// The identifier text.
    pub fn as_str(&self) -> (s: &str)
        ensures
            s@ == self@,
            is_entity_id(s@),
    {
        proof {
            use_type_invariant(self);
        }
        self.value.as_str()
    }
}

fn id_char(c: char) -> (ok: bool)
    ensures
        ok == is_id_char(c),
{
    ('0' <= c && c <= '9') || ('a' <= c && c <= 'z') || ('A' <= c && c <= 'Z') || c == '-' || c
        == '_'
}

/// Whether `value` is a well-formed resource identifier.
pub fn is_valid_entity_id(value: &str) -> (ok: bool)
    ensures
        ok == is_entity_id(value@),
{
    let n = value.unicode_len();
    if n == 0 {
        return false;
    }
    let mut i: usize = 0;
    while i < n
        invariant
            n == value@.len(),
            i <= n,
            forall|k: int| 0 <= k < i ==> is_id_char(value@[k]),
        decreases n - i,
    {
        if !id_char(value.get_char(i)) {
            return false;
        }
        i = i + 1;
    }
    true
}

/// Detail of the error for a malformed identifier.
pub open spec fn invalid_id_detail(value: Seq<char>) -> Seq<char> {
    "invalid resource identifier: "@ + value
}

/// Parses a resource identifier.
pub fn parse_entity_id(value: &str) -> (result: Result<EntityId, GatewayError>)
    ensures
        match result {
            Ok(id) => is_entity_id(value@) && id@ == value@,
            Err(e) => !is_entity_id(value@) && e@ == (ErrorCode::InvalidInput, invalid_id_detail(
                value@,
            )),
        },
{
    if is_valid_entity_id(value) {
        Ok(EntityId { value: owned(value) })
    } else {
        Err(GatewayError::InvalidInput(joined("invalid resource identifier: ", value)))
    }
}

/// Parses an optional identifier with `parse_entity_id`.
pub fn parse_optional_entity_id(value: Option<&str>) -> (result: Result<Option<EntityId>, GatewayError>)
    ensures
        match value {
            None => result matches Ok(None),
            Some(v) => match result {
                Ok(Some(id)) => is_entity_id(v@) && id@ == v@,
                Ok(None) => false,
                Err(e) => !is_entity_id(v@) && e@ == (ErrorCode::InvalidInput, invalid_id_detail(v@)),
            },
        },
{
    match value {
        None => Ok(None),
        Some(v) => match parse_entity_id(v) {
            Ok(id) => Ok(Some(id)),
            Err(e) => Err(e),
        },
    }
}

/// Parses an optional saved-filter identifier; a malformed one is reported
/// as `invalid filterId`.
pub fn parse_optional_filter_id(value: Option<&str>) -> (result: Result<Option<EntityId>, GatewayError>)
    ensures
        match value {
            None => result matches Ok(None),
            Some(v) => match result {
                Ok(Some(id)) => is_entity_id(v@) && id@ == v@,
                Ok(None) => false,
                Err(e) => !is_entity_id(v@) && e@ == (ErrorCode::InvalidInput, "invalid filterId"@),
            },
        },
{
    match value {
        None => Ok(None),
        Some(v) => match parse_entity_id(v) {
            Ok(id) => Ok(Some(id)),
            Err(_) => Err(GatewayError::InvalidInput(owned("invalid filterId"))),
        },
    }
}

/// Parses every identifier of `ids`, failing on the first malformed one.
pub fn parse_entity_ids(ids: &Vec<String>) -> (result: Result<Vec<EntityId>, GatewayError>)
    ensures
        match result {
            Ok(parsed) => (forall|i: int| 0 <= i < ids@.len() ==> is_entity_id(#[trigger] ids@[i]@))
                && parsed@.len() == ids@.len() && forall|i: int|
                0 <= i < ids@.len() ==> #[trigger] parsed@[i]@ == ids@[i]@,
            Err(e) => exists|i: int|
                0 <= i < ids@.len() && !is_entity_id(#[trigger] ids@[i]@) && (forall|j: int|
                    0 <= j < i ==> is_entity_id(#[trigger] ids@[j]@)) && e@ == (
                    ErrorCode::InvalidInput,
                    invalid_id_detail(ids@[i]@),
                ),
        },
{
    let mut parsed: Vec<EntityId> = Vec::new();
    let mut i: usize = 0;
    while i < ids.len()
        invariant
            i <= ids@.len(),
            parsed@.len() == i,
            forall|k: int| 0 <= k < i ==> is_entity_id(#[trigger] ids@[k]@),
            forall|k: int| 0 <= k < i ==> #[trigger] parsed@[k]@ == ids@[k]@,
        decreases ids@.len() - i,
    {
        match parse_entity_id(ids[i].as_str()) {
            Ok(id) => parsed.push(id),
            Err(e) => {
                return Err(e);
            },
        }
        i = i + 1;
    }
    Ok(parsed)
}

/// Whether every identifier of `ids` is well formed.
pub open spec fn all_ids_valid(ids: Seq<String>) -> bool {
    forall|i: int| 0 <= i < ids.len() ==> is_entity_id(#[trigger] ids[i]@)
}

/// Whether an optional identifier is absent or well formed.
pub open spec fn optional_id_valid(id: Option<String>) -> bool {
    match id {
        None => true,
        Some(v) => is_entity_id(v@),
    }
}

/// `parsed` holds exactly the identifiers `ids`, in order.
pub open spec fn ids_match(parsed: Seq<EntityId>, ids: Seq<String>) -> bool {
    parsed.len() == ids.len() && forall|i: int| 0 <= i < ids.len() ==> #[trigger] parsed[i]@ == ids[i]@
}

/// `parsed` is the parsed form of the optional identifier `id`.
pub open spec fn optional_id_match(parsed: Option<EntityId>, id: Option<String>) -> bool {
    match id {
        None => parsed.is_none(),
        Some(v) => parsed matches Some(p) && p@ == v@,
    }
}

/// The error for the first malformed identifier of `ids`.
pub open spec fn first_invalid_id_error<T>(result: Result<T, GatewayError>, ids: Seq<String>) -> bool {
    exists|i: int|
        0 <= i < ids.len() && !is_entity_id(#[trigger] ids[i]@) && (forall|j: int|
            0 <= j < i ==> is_entity_id(#[trigger] ids[j]@)) && fails_with(
            result,
            ErrorCode::InvalidInput,
            invalid_id_detail(ids[i]@),
        )
}

/// Parses an optional identifier held as an owned string.
pub fn parse_optional_id(value: &Option<String>) -> (result: Result<Option<EntityId>, GatewayError>)
    ensures
        result is Ok <==> optional_id_valid(*value),
        result matches Ok(p) ==> optional_id_match(p, *value),
        !optional_id_valid(*value) ==> fails_with(result, ErrorCode::InvalidInput, invalid_id_detail(value->0@)),
{
    match value {
        None => Ok(None),
        Some(v) => match parse_entity_id(v.as_str()) {
            Ok(id) => Ok(Some(id)),
            Err(e) => Err(e),
        },
    }
}

/// Host liveness probes that a target may request.
#[derive(Clone, Copy, Debug, PartialEq, Eq)]
pub enum AliveTest {
    ScanConfigDefault,
    IcmpPing,
    TcpAckServicePing,
    TcpSynServicePing,
    ArpPing,
    IcmpAndTcpAckServicePing,
    IcmpAndArpPing,
    TcpAckServiceAndArpPing,
    IcmpTcpAckServiceAndArpPing,
    ConsiderAlive,
}

/// The GMP name of each alive test.
pub open spec fn alive_test_name(test: AliveTest) -> Seq<char> {
    match test {
        AliveTest::ScanConfigDefault => "Scan Config Default"@,
        AliveTest::IcmpPing => "ICMP Ping"@,
        AliveTest::TcpAckServicePing => "TCP-ACK Service Ping"@,
        AliveTest::TcpSynServicePing => "TCP-SYN Service Ping"@,
        AliveTest::ArpPing => "ARP Ping"@,
        AliveTest::IcmpAndTcpAckServicePing => "ICMP & TCP-ACK Service Ping"@,
        AliveTest::IcmpAndArpPing => "ICMP & ARP Ping"@,
        AliveTest::TcpAckServiceAndArpPing => "TCP-ACK Service & ARP Ping"@,
        AliveTest::IcmpTcpAckServiceAndArpPing => "ICMP, TCP-ACK Service & ARP Ping"@,
        AliveTest::ConsiderAlive => "Consider Alive"@,
    }
}

/// Detail of the error for an unknown alive test.
pub open spec fn invalid_alive_test_detail(value: Seq<char>) -> Seq<char> {
    "invalid alive test: "@ + value
}

/// Parses an alive test by its GMP name.
pub fn parse_alive_test(value: &str) -> (result: Result<AliveTest, GatewayError>)
    ensures
        value@ == "Scan Config Default"@ ==> result == Ok::<AliveTest, GatewayError>(AliveTest::ScanConfigDefault),
        value@ == "ICMP Ping"@ ==> result == Ok::<AliveTest, GatewayError>(AliveTest::IcmpPing),
        value@ == "TCP-ACK Service Ping"@ ==> result == Ok::<AliveTest, GatewayError>(AliveTest::TcpAckServicePing),
        value@ == "TCP-SYN Service Ping"@ ==> result == Ok::<AliveTest, GatewayError>(AliveTest::TcpSynServicePing),
        value@ == "ARP Ping"@ ==> result == Ok::<AliveTest, GatewayError>(AliveTest::ArpPing),
        value@ == "ICMP & TCP-ACK Service Ping"@ ==> result == Ok::<AliveTest, GatewayError>(AliveTest::IcmpAndTcpAckServicePing),
        value@ == "ICMP & ARP Ping"@ ==> result == Ok::<AliveTest, GatewayError>(AliveTest::IcmpAndArpPing),
        value@ == "TCP-ACK Service & ARP Ping"@ ==> result == Ok::<AliveTest, GatewayError>(AliveTest::TcpAckServiceAndArpPing),
        value@ == "ICMP, TCP-ACK Service & ARP Ping"@ ==> result == Ok::<AliveTest, GatewayError>(AliveTest::IcmpTcpAckServiceAndArpPing),
        value@ == "Consider Alive"@ ==> result == Ok::<AliveTest, GatewayError>(AliveTest::ConsiderAlive),
        match result {
            Ok(test) => alive_test_name(test) == value@,
            Err(e) => (forall|t: AliveTest| alive_test_name(t) != value@) && e@ == (
                ErrorCode::InvalidInput,
                invalid_alive_test_detail(value@),
            ),
        },
{
    proof {
        reveal_strlit("Scan Config Default");
        reveal_strlit("ICMP Ping");
        reveal_strlit("TCP-ACK Service Ping");
        reveal_strlit("TCP-SYN Service Ping");
        reveal_strlit("ARP Ping");
        reveal_strlit("ICMP & TCP-ACK Service Ping");
        reveal_strlit("ICMP & ARP Ping");
        reveal_strlit("TCP-ACK Service & ARP Ping");
        reveal_strlit("ICMP, TCP-ACK Service & ARP Ping");
        reveal_strlit("Consider Alive");
        assert("TCP-ACK Service Ping"@[4] != "TCP-SYN Service Ping"@[4]);
        assert("Scan Config Default"@[0] != "ICMP Ping"@[0]);
        assert("Scan Config Default"@ != "ICMP Ping"@);
        assert("Scan Config Default"@[0] != "TCP-ACK Service Ping"@[0]);
        assert("Scan Config Default"@ != "TCP-ACK Service Ping"@);
        assert("Scan Config Default"@[0] != "TCP-SYN Service Ping"@[0]);
        assert("Scan Config Default"@ != "TCP-SYN Service Ping"@);
        assert("Scan Config Default"@[0] != "ARP Ping"@[0]);
        assert("Scan Config Default"@ != "ARP Ping"@);
        assert("Scan Config Default"@[0] != "ICMP & TCP-ACK Service Ping"@[0]);
        assert("Scan Config Default"@ != "ICMP & TCP-ACK Service Ping"@);
        assert("Scan Config Default"@[0] != "ICMP & ARP Ping"@[0]);
        assert("Scan Config Default"@ != "ICMP & ARP Ping"@);
        assert("Scan Config Default"@[0] != "TCP-ACK Service & ARP Ping"@[0]);
        assert("Scan Config Default"@ != "TCP-ACK Service & ARP Ping"@);
        assert("Scan Config Default"@[0] != "ICMP, TCP-ACK Service & ARP Ping"@[0]);
        assert("Scan Config Default"@ != "ICMP, TCP-ACK Service & ARP Ping"@);
        assert("Scan Config Default"@[0] != "Consider Alive"@[0]);
        assert("Scan Config Default"@ != "Consider Alive"@);
        assert("ICMP Ping"@[0] != "TCP-ACK Service Ping"@[0]);
        assert("ICMP Ping"@ != "TCP-ACK Service Ping"@);
        assert("ICMP Ping"@[0] != "TCP-SYN Service Ping"@[0]);
        assert("ICMP Ping"@ != "TCP-SYN Service Ping"@);
        assert("ICMP Ping"@[0] != "ARP Ping"@[0]);
        assert("ICMP Ping"@ != "ARP Ping"@);
        assert("ICMP Ping"@[5] != "ICMP & TCP-ACK Service Ping"@[5]);
        assert("ICMP Ping"@ != "ICMP & TCP-ACK Service Ping"@);
        assert("ICMP Ping"@[5] != "ICMP & ARP Ping"@[5]);
        assert("ICMP Ping"@ != "ICMP & ARP Ping"@);
        assert("ICMP Ping"@[0] != "TCP-ACK Service & ARP Ping"@[0]);
        assert("ICMP Ping"@ != "TCP-ACK Service & ARP Ping"@);
        assert("ICMP Ping"@[4] != "ICMP, TCP-ACK Service & ARP Ping"@[4]);
        assert("ICMP Ping"@ != "ICMP, TCP-ACK Service & ARP Ping"@);
        assert("ICMP Ping"@[0] != "Consider Alive"@[0]);
        assert("ICMP Ping"@ != "Consider Alive"@);
        assert("TCP-ACK Service Ping"@ != "TCP-SYN Service Ping"@);
        assert("TCP-ACK Service Ping"@[0] != "ARP Ping"@[0]);
        assert("TCP-ACK Service Ping"@ != "ARP Ping"@);
        assert("TCP-ACK Service Ping"@[0] != "ICMP & TCP-ACK Service Ping"@[0]);
        assert("TCP-ACK Service Ping"@ != "ICMP & TCP-ACK Service Ping"@);
        assert("TCP-ACK Service Ping"@[0] != "ICMP & ARP Ping"@[0]);
        assert("TCP-ACK Service Ping"@ != "ICMP & ARP Ping"@);
        assert("TCP-ACK Service Ping"@[16] != "TCP-ACK Service & ARP Ping"@[16]);
        assert("TCP-ACK Service Ping"@ != "TCP-ACK Service & ARP Ping"@);
        assert("TCP-ACK Service Ping"@[0] != "ICMP, TCP-ACK Service & ARP Ping"@[0]);
        assert("TCP-ACK Service Ping"@ != "ICMP, TCP-ACK Service & ARP Ping"@);
        assert("TCP-ACK Service Ping"@[0] != "Consider Alive"@[0]);
        assert("TCP-ACK Service Ping"@ != "Consider Alive"@);
        assert("TCP-SYN Service Ping"@[0] != "ARP Ping"@[0]);
        assert("TCP-SYN Service Ping"@ != "ARP Ping"@);
        assert("TCP-SYN Service Ping"@[0] != "ICMP & TCP-ACK Service Ping"@[0]);
        assert("TCP-SYN Service Ping"@ != "ICMP & TCP-ACK Service Ping"@);
        assert("TCP-SYN Service Ping"@[0] != "ICMP & ARP Ping"@[0]);
        assert("TCP-SYN Service Ping"@ != "ICMP & ARP Ping"@);
        assert("TCP-SYN Service Ping"@[4] != "TCP-ACK Service & ARP Ping"@[4]);
        assert("TCP-SYN Service Ping"@ != "TCP-ACK Service & ARP Ping"@);
        assert("TCP-SYN Service Ping"@[0] != "ICMP, TCP-ACK Service & ARP Ping"@[0]);
        assert("TCP-SYN Service Ping"@ != "ICMP, TCP-ACK Service & ARP Ping"@);
        assert("TCP-SYN Service Ping"@[0] != "Consider Alive"@[0]);
        assert("TCP-SYN Service Ping"@ != "Consider Alive"@);
        assert("ARP Ping"@[0] != "ICMP & TCP-ACK Service Ping"@[0]);
        assert("ARP Ping"@ != "ICMP & TCP-ACK Service Ping"@);
        assert("ARP Ping"@[0] != "ICMP & ARP Ping"@[0]);
        assert("ARP Ping"@ != "ICMP & ARP Ping"@);
        assert("ARP Ping"@[0] != "TCP-ACK Service & ARP Ping"@[0]);
        assert("ARP Ping"@ != "TCP-ACK Service & ARP Ping"@);
        assert("ARP Ping"@[0] != "ICMP, TCP-ACK Service & ARP Ping"@[0]);
        assert("ARP Ping"@ != "ICMP, TCP-ACK Service & ARP Ping"@);
        assert("ARP Ping"@[0] != "Consider Alive"@[0]);
        assert("ARP Ping"@ != "Consider Alive"@);
        assert("ICMP & TCP-ACK Service Ping"@[7] != "ICMP & ARP Ping"@[7]);
        assert("ICMP & TCP-ACK Service Ping"@ != "ICMP & ARP Ping"@);
        assert("ICMP & TCP-ACK Service Ping"@[0] != "TCP-ACK Service & ARP Ping"@[0]);
        assert("ICMP & TCP-ACK Service Ping"@ != "TCP-ACK Service & ARP Ping"@);
        assert("ICMP & TCP-ACK Service Ping"@[4] != "ICMP, TCP-ACK Service & ARP Ping"@[4]);
        assert("ICMP & TCP-ACK Service Ping"@ != "ICMP, TCP-ACK Service & ARP Ping"@);
        assert("ICMP & TCP-ACK Service Ping"@[0] != "Consider Alive"@[0]);
        assert("ICMP & TCP-ACK Service Ping"@ != "Consider Alive"@);
        assert("ICMP & ARP Ping"@[0] != "TCP-ACK Service & ARP Ping"@[0]);
        assert("ICMP & ARP Ping"@ != "TCP-ACK Service & ARP Ping"@);
        assert("ICMP & ARP Ping"@[4] != "ICMP, TCP-ACK Service & ARP Ping"@[4]);
        assert("ICMP & ARP Ping"@ != "ICMP, TCP-ACK Service & ARP Ping"@);
        assert("ICMP & ARP Ping"@[0] != "Consider Alive"@[0]);
        assert("ICMP & ARP Ping"@ != "Consider Alive"@);
        assert("TCP-ACK Service & ARP Ping"@[0] != "ICMP, TCP-ACK Service & ARP Ping"@[0]);
        assert("TCP-ACK Service & ARP Ping"@ != "ICMP, TCP-ACK Service & ARP Ping"@);
        assert("TCP-ACK Service & ARP Ping"@[0] != "Consider Alive"@[0]);
        assert("TCP-ACK Service & ARP Ping"@ != "Consider Alive"@);
        assert("ICMP, TCP-ACK Service & ARP Ping"@[0] != "Consider Alive"@[0]);
        assert("ICMP, TCP-ACK Service & ARP Ping"@ != "Consider Alive"@);
    }
    if text_eq(value, "Scan Config Default") {
        Ok(AliveTest::ScanConfigDefault)
    } else if text_eq(value, "ICMP Ping") {
        Ok(AliveTest::IcmpPing)
    } else if text_eq(value, "TCP-ACK Service Ping") {
        Ok(AliveTest::TcpAckServicePing)
    } else if text_eq(value, "TCP-SYN Service Ping") {
        Ok(AliveTest::TcpSynServicePing)
    } else if text_eq(value, "ARP Ping") {
        Ok(AliveTest::ArpPing)
    } else if text_eq(value, "ICMP & TCP-ACK Service Ping") {
        Ok(AliveTest::IcmpAndTcpAckServicePing)
    } else if text_eq(value, "ICMP & ARP Ping") {
        Ok(AliveTest::IcmpAndArpPing)
    } else if text_eq(value, "TCP-ACK Service & ARP Ping") {
        Ok(AliveTest::TcpAckServiceAndArpPing)
    } else if text_eq(value, "ICMP, TCP-ACK Service & ARP Ping") {
        Ok(AliveTest::IcmpTcpAckServiceAndArpPing)
    } else if text_eq(value, "Consider Alive") {
        Ok(AliveTest::ConsiderAlive)
    } else {
        proof {
            assert forall|t: AliveTest| alive_test_name(t) != value@ by {
                match t {
                    _ => {},
                }
            }
        }
        Err(GatewayError::InvalidInput(joined("invalid alive test: ", value)))
    }
}

} // verus!
