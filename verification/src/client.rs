//! Clients: registration and status changes.
use crate::request::RequestError;
use crate::text::text_eq;
use vstd::prelude::*;

verus! {

/// A client as stored.
#[derive(Debug, Clone)]
pub struct ClientRecord {
    pub client_id: String,
    pub last_name: String,
    pub first_name: String,
    pub middle_name: Option<String>,
    pub birth_date: Option<String>,
    pub passport_series: Option<String>,
    pub passport_number: Option<String>,
    pub status: String,
    pub created_at: i64,
}

/// An optional request field: an empty text means absent.
pub open spec fn optional_spec(text: String) -> Option<String> {
    if text@.len() == 0 {
        None
    } else {
        Some(text)
    }
}

/// An optional field from its request text.
pub fn optional_field(text: String) -> (r: Option<String>)
    ensures
        r == optional_spec(text),
{
    if text.as_str().is_empty() {
        None
    } else {
        Some(text)
    }
}

/// Registering a client needs a last and a first name.
pub fn validate_new_client(last_name: &str, first_name: &str) -> (r: Result<(), RequestError>)
    ensures
        r == (if last_name@.len() == 0 || first_name@.len() == 0 {
            Err(RequestError::InvalidArgument("last_name and first_name are required"))
        } else {
            Ok(())
        }),
{
    if last_name.is_empty() || first_name.is_empty() {
        return Err(RequestError::InvalidArgument("last_name and first_name are required"));
    }
    Ok(())
}

/// The statuses a client may be set to.
pub open spec fn is_client_status(s: Seq<char>) -> bool {
    s == "active"@ || s == "blocked"@ || s == "closed"@
}

/// Validates a requested client status.
pub fn validate_client_status(new_status: &str) -> (r: Result<(), RequestError>)
    ensures
        r == (if is_client_status(new_status@) {
            Ok(())
        } else {
            Err(RequestError::InvalidArgument("invalid status"))
        }),
{
    if text_eq(new_status, "active") || text_eq(new_status, "blocked") || text_eq(new_status, "closed") {
        Ok(())
    } else {
        Err(RequestError::InvalidArgument("invalid status"))
    }
}

impl ClientRecord {
    /// A newly registered client: active, with empty optional fields left
    /// absent.
    pub fn registered(
        client_id: String,
        last_name: String,
        first_name: String,
        middle_name: String,
        birth_date: String,
        passport_series: String,
        passport_number: String,
        now: i64,
    ) -> (r: ClientRecord)
        ensures
            r.client_id == client_id,
            r.last_name == last_name,
            r.first_name == first_name,
            r.middle_name == optional_spec(middle_name),
            r.birth_date == optional_spec(birth_date),
            r.passport_series == optional_spec(passport_series),
            r.passport_number == optional_spec(passport_number),
            r.status@ == "active"@,
            r.created_at == now,
    {
        ClientRecord {
            client_id,
            last_name,
            first_name,
            middle_name: optional_field(middle_name),
            birth_date: optional_field(birth_date),
            passport_series: optional_field(passport_series),
            passport_number: optional_field(passport_number),
            status: String::from_str("active"),
            created_at: now,
        }
    }
}

/// A client may be set to active, blocked or closed, and to nothing else.
pub proof fn lemma_client_statuses()
    ensures
        is_client_status("active"@) == true,
        is_client_status("blocked"@) == true,
        is_client_status("closed"@) == true,
        forall|k: Seq<char>| k != "active"@ && k != "blocked"@ && k != "closed"@ ==> #[trigger] is_client_status(k) == false,
{
    reveal_strlit("active");
    reveal_strlit("blocked");
    reveal_strlit("closed");
    assert("active"@.len() == 6);
    assert("blocked"@.len() == 7);
    assert("closed"@.len() == 6);
    assert("active"@[0] != "closed"@[0]);
    assert("active"@ != "closed"@);
}

} // verus!
