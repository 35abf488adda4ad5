//! The two routes' decision logic, free of any transport concern.
//!
//! The health route returns its fixed envelope. The protected send route runs
//! the pipeline: authentication gate, then request validation, then message
//! composition; what the upstream transport reported is classified afterwards
//! and every outcome lands in the uniform `{success, message}` envelope.

use vstd::prelude::*;

use crate::error::RelayError;
use crate::middleware::auth;
use crate::middleware::spec_authorized;
use crate::service::ComposedMessage;
use crate::service::RelayRequest;
use crate::service::RelayResponse;
use crate::service::RelayService;
use crate::service::address_ok;
use crate::service::body_len_ok;
use crate::service::email_ok;
use crate::service::spec_request_valid;
use crate::service::subject_len_ok;

verus! {

/// The unauthenticated health check: a fixed success envelope under 200.
pub fn health() -> (r: (u16, RelayResponse))
    ensures
        r.0 == 200,
        r.1.success == true,
        r.1.message@ == "relay is running"@,
{
    RelayResponse::respond(200, true, "relay is running")
}

/// The send route's request half: token check, then validation, then
/// composition.
///
/// A request whose token does not pass is `Unauthorized`, whatever else it
/// holds; neither validation nor composition runs. An authorized but invalid
/// request is a `Validation` error naming the first field that fails, in the
/// order `to`, `subject`, `body`. An authorized, valid request whose two
/// addresses are inside the mailbox grammar always yields the message for
/// the upstream transport, and the plan beside it says exactly what that
/// message carries; an address outside the grammar is an `InvalidEmail`
/// error.
pub fn email_request(
    service: &RelayService,
    key: &str,
    header: Option<&str>,
    req: &RelayRequest,
) -> (r: Result<ComposedMessage, RelayError>)
    ensures
        r is Ok <==> spec_authorized(header, key@) && spec_request_valid(req) && address_ok(
            service.user@,
        ) && address_ok(req.to@),
        r matches Ok(c) ==> {
            &&& c.plan.from_name@ == service.name@
            &&& c.plan.from_address@ == service.user@
            &&& c.plan.to_name == req.name
            &&& c.plan.to_address@ == req.to@
            &&& c.plan.subject@ == req.subject@
            &&& c.plan.body@ == req.body@
        },
        !spec_authorized(header, key@) ==> r matches Err(RelayError::Unauthorized),
        spec_authorized(header, key@) && !email_ok(req.to@) ==> (r matches Err(
            RelayError::Validation(m),
        ) && m@ == "to must be a valid email address"@),
        spec_authorized(header, key@) && email_ok(req.to@) && !subject_len_ok(req.subject@) ==> (
        r matches Err(RelayError::Validation(m)) && m@
            == "subject must have between 1 and 256 characters"@),
        spec_authorized(header, key@) && email_ok(req.to@) && subject_len_ok(req.subject@)
            && !body_len_ok(req.body@) ==> (r matches Err(RelayError::Validation(m)) && m@
            == "body must have between 1 and 256000 characters"@),
        spec_authorized(header, key@) && spec_request_valid(req) && !(address_ok(service.user@)
            && address_ok(req.to@)) ==> r matches Err(RelayError::InvalidEmail(_)),
{
    auth(header, key)?;
    req.validate()?;
    service.compose(req)
}

/// The send route's response half: the envelope for the outcome. When the
/// upstream server took the message, the reply is the fixed envelope under
/// 200; every error surfaces under its own status with its own message.
pub fn email_response(outcome: &Result<(), RelayError>) -> (r: (u16, RelayResponse))
    ensures
        outcome is Ok ==> r.0 == 200 && r.1.success == true && r.1.message@
            == "email sent successfully"@,
        outcome matches Err(e) ==> r.0 == e.spec_status_code() && r.1.success == false
            && r.1.message@ == e.spec_message(),
{
    match outcome {
        Ok(()) => RelayResponse::respond(200, true, "email sent successfully"),
        Err(e) => e.to_response(),
    }
}

} // verus!
