//! The relay request and response types, the request validator, and the
//! dispatcher that composes a plain-text message for the upstream SMTP
//! transport.

use vstd::prelude::*;
use vstd::string::StrSliceExecFns;

use crate::config::RelaySMTPConfig;
use crate::error::RelayError;

verus! {

/// One inbound send request: recipient address, subject, body, and an
/// optional display name for the recipient.
pub struct RelayRequest {
    pub to: String,
    pub subject: String,
    pub body: String,
    pub name: Option<String>,
}

/// The uniform response envelope every route returns: a success flag and a
/// human-readable message.
pub struct RelayResponse {
    pub success: bool,
    pub message: String,
}

impl RelayResponse {
    /// Builds the envelope together with the HTTP status it travels under.
    pub fn respond(status: u16, success: bool, message: &str) -> (r: (u16, RelayResponse))
        ensures
            r.0 == status,
            r.1.success == success,
            r.1.message@ == message@,
    {
        (status, RelayResponse { success, message: message.to_owned() })
    }
}

/// Whether a string is a syntactically valid email address under the HTML5
/// grammar that the `validator` crate implements. The check depends on the
/// characters alone.
pub uninterp spec fn email_ok(s: Seq<char>) -> bool;

/// Relies on `validator::ValidateEmail::validate_email` for `&str`: a
/// syntactic email-address check that is a function of the string alone.
#[verifier::external_body]
fn check_email(s: &str) -> (r: bool)
    ensures
        r == email_ok(s@),
{
    validator::ValidateEmail::validate_email(&s)
}

/// The subject bound: at least one and at most 256 characters.
pub open spec fn subject_len_ok(s: Seq<char>) -> bool {
    1 <= s.len() <= 256
}

/// The body bound: at least one and at most 256000 characters.
pub open spec fn body_len_ok(s: Seq<char>) -> bool {
    1 <= s.len() <= 256000
}

/// A request is valid when its recipient address is syntactically valid and
/// its subject and body are within bounds. The optional display name is
/// unconstrained.
pub open spec fn spec_request_valid(req: &RelayRequest) -> bool {
    email_ok(req.to@) && subject_len_ok(req.subject@) && body_len_ok(req.body@)
}

impl RelayRequest {
    /// Checks the request against the validation rules, in the fixed order
    /// `to`, `subject`, `body`, and reports the first rule that fails with a
    /// message naming the field. Accepts exactly the valid requests.
    pub fn validate(&self) -> (r: Result<(), RelayError>)
        ensures
            r is Ok <==> spec_request_valid(self),
            !email_ok(self.to@) ==> (r matches Err(RelayError::Validation(m)) && m@
                == "to must be a valid email address"@),
            email_ok(self.to@) && !subject_len_ok(self.subject@) ==> (r matches Err(
                RelayError::Validation(m),
            ) && m@ == "subject must have between 1 and 256 characters"@),
            email_ok(self.to@) && subject_len_ok(self.subject@) && !body_len_ok(self.body@) ==> (
            r matches Err(RelayError::Validation(m)) && m@
                == "body must have between 1 and 256000 characters"@),
    {
        if !check_email(self.to.as_str()) {
            return Err(RelayError::Validation("to must be a valid email address".to_owned()));
        }
        let subject_len = self.subject.as_str().unicode_len();
        if subject_len < 1 || subject_len > 256 {
            return Err(RelayError::Validation(
                "subject must have between 1 and 256 characters".to_owned(),
            ));
        }
        let body_len = self.body.as_str().unicode_len();
        if body_len < 1 || body_len > 256000 {
            return Err(RelayError::Validation(
                "body must have between 1 and 256000 characters".to_owned(),
            ));
        }
        Ok(())
    }
}

#[verifier::external_type_specification]
#[verifier::external_body]
pub struct ExSmtpTransport(lettre::SmtpTransport);

#[verifier::external_type_specification]
#[verifier::external_body]
pub struct ExSmtpTransportBuilder(lettre::transport::smtp::SmtpTransportBuilder);

#[verifier::external_type_specification]
#[verifier::external_body]
pub struct ExCredentials(lettre::transport::smtp::authentication::Credentials);

#[verifier::external_type_specification]
#[verifier::external_body]
pub struct ExMessage(lettre::Message);

/// Relies on `SmtpTransport::relay`: builds a TLS transport descriptor for
/// the host without touching the network; the error is returned as its
/// description.
#[verifier::external_body]
fn smtp_relay(host: &str) -> (r: Result<lettre::transport::smtp::SmtpTransportBuilder, String>) {
    lettre::SmtpTransport::relay(host).map_err(|e| e.to_string())
}

/// Relies on `Credentials::new`: packs a username and password pair.
#[verifier::external_body]
fn smtp_credentials(user: &str, pass: &str) -> (r: lettre::transport::smtp::authentication::Credentials) {
    lettre::transport::smtp::authentication::Credentials::new(user.to_owned(), pass.to_owned())
}

/// Relies on `SmtpTransportBuilder::credentials`: binds the credentials the
/// transport will authenticate with.
#[verifier::external_body]
fn smtp_builder_credentials(
    builder: lettre::transport::smtp::SmtpTransportBuilder,
    credentials: lettre::transport::smtp::authentication::Credentials,
) -> (r: lettre::transport::smtp::SmtpTransportBuilder) {
    builder.credentials(credentials)
}

/// Relies on `SmtpTransportBuilder::port`: binds the port the transport will
/// connect to.
#[verifier::external_body]
fn smtp_builder_port(builder: lettre::transport::smtp::SmtpTransportBuilder, port: u16) -> (r:
    lettre::transport::smtp::SmtpTransportBuilder) {
    builder.port(port)
}

/// Relies on `SmtpTransportBuilder::build`: finishes the transport.
#[verifier::external_body]
fn smtp_builder_build(builder: lettre::transport::smtp::SmtpTransportBuilder) -> (r:
    lettre::SmtpTransport) {
    builder.build()
}

/// Whether a string is a syntactically valid mailbox address under
/// `lettre`'s grammar (local part, `@`, domain). The check depends on the
/// characters alone.
pub uninterp spec fn address_ok(s: Seq<char>) -> bool;

/// Relies on `str::parse::<lettre::Address>`: a syntactic check that is a
/// function of the string alone; the error is returned as its description.
#[verifier::external_body]
fn address_check(s: &str) -> (r: Result<(), String>)
    ensures
        r is Ok <==> address_ok(s@),
{
    s.parse::<lettre::Address>().map(|_| ()).map_err(|e| e.to_string())
}

/// The outgoing message as plain values: exactly what the rendered message
/// carries — sender display name and address, recipient display name and
/// address, subject, and the plain-text body.
pub struct MessagePlan {
    pub from_name: String,
    pub from_address: String,
    pub to_name: Option<String>,
    pub to_address: String,
    pub subject: String,
    pub body: String,
}

/// A message ready for the transport, paired with the plan it was rendered
/// from: the plan is the verified description of the message's content.
pub struct ComposedMessage {
    pub plan: MessagePlan,
    pub message: lettre::Message,
}

/// Relies on lettre's `Mailbox::new`, `str::parse::<Address>` and the
/// `MessageBuilder` chain (`new`, `from`, `to`, `subject`, `header` with
/// `ContentType::TEXT_PLAIN`, `body`): renders exactly the plan, nothing
/// else. With both addresses inside the address grammar the parses succeed,
/// and with exactly one `From` and one `To` mailbox set `body` always
/// returns `Ok` (it fails only on a missing or duplicated originator or an
/// empty recipient list), so rendering cannot fail.
#[verifier::external_body]
fn render_message(plan: &MessagePlan) -> (r: lettre::Message)
    requires
        address_ok(plan.from_address@),
        address_ok(plan.to_address@),
{
    let from = lettre::message::Mailbox::new(
        Some(plan.from_name.clone()),
        plan.from_address.parse().unwrap(),
    );
    let to = lettre::message::Mailbox::new(plan.to_name.clone(), plan.to_address.parse().unwrap());
    lettre::message::MessageBuilder::new()
        .from(from)
        .to(to)
        .subject(plan.subject.as_str())
        .header(lettre::message::header::ContentType::TEXT_PLAIN)
        .body(plan.body.clone())
        .unwrap()
}

/// The validation verdict is a function of the recipient, subject and body
/// alone. Two consequences: a request submitted twice is dispatched twice,
/// since the relay keeps no history and deduplicates nothing; and the
/// optional display name never enters the verdict, so a request that carries
/// none is treated exactly like one that carries any.
pub proof fn lemma_validation_is_stateless(a: &RelayRequest, b: &RelayRequest)
    requires
        a.to@ == b.to@,
        a.subject@ == b.subject@,
        a.body@ == b.body@,
    ensures
        spec_request_valid(a) == spec_request_valid(b),
{
}

/// The relay dispatcher. It owns who the mail goes out as (username plus
/// display name) and the long-lived transport handle that already knows the
/// upstream host, port and login. Once built it is only ever read.
pub struct RelayService {
    pub transport: lettre::SmtpTransport,
    pub user: String,
    pub name: String,
}

impl RelayService {
    /// Builds the dispatcher from the SMTP settings, binding host, port and
    /// credentials into the reusable transport handle. When no transport can
    /// be built for the host, construction fails with `InvalidSmtpServer`,
    /// and the process must not start serving.
    pub fn new(config: RelaySMTPConfig) -> (r: Result<RelayService, RelayError>)
        ensures
            r matches Ok(s) ==> s.user@ == config.user@ && s.name@ == config.name@,
            r is Err ==> r matches Err(RelayError::InvalidSmtpServer),
    {
        let builder = match smtp_relay(config.host.as_str()) {
            Ok(b) => b,
            Err(_) => { return Err(RelayError::InvalidSmtpServer) },
        };
        let credentials = smtp_credentials(config.user.as_str(), config.pass.as_str());
        let builder = smtp_builder_credentials(builder, credentials);
        let builder = smtp_builder_port(builder, config.port);
        let transport = smtp_builder_build(builder);
        Ok(RelayService { transport, user: config.user, name: config.name })
    }

    /// Turns a request into the plain-text message handed to the transport,
    /// together with the plan that says exactly what the message carries:
    /// `From` is this dispatcher's own identity, `To` pairs the request's
    /// address with its optional display name, and subject and body are the
    /// request's own.
    ///
    /// Succeeds exactly when both addresses are inside the mailbox grammar;
    /// an address outside it is an `InvalidEmail` error, the sender checked
    /// before the recipient.
    pub fn compose(&self, req: &RelayRequest) -> (r: Result<ComposedMessage, RelayError>)
        ensures
            r is Ok <==> address_ok(self.user@) && address_ok(req.to@),
            r matches Ok(c) ==> {
                &&& c.plan.from_name@ == self.name@
                &&& c.plan.from_address@ == self.user@
                &&& c.plan.to_name == req.name
                &&& c.plan.to_address@ == req.to@
                &&& c.plan.subject@ == req.subject@
                &&& c.plan.body@ == req.body@
            },
            !address_ok(self.user@) ==> r matches Err(RelayError::InvalidEmail(_)),
            address_ok(self.user@) && !address_ok(req.to@) ==> r matches Err(
                RelayError::InvalidEmail(_),
            ),
    {
        match address_check(self.user.as_str()) {
            Ok(()) => (),
            Err(d) => { return Err(RelayError::InvalidEmail(d)) },
        }
        match address_check(req.to.as_str()) {
            Ok(()) => (),
            Err(d) => { return Err(RelayError::InvalidEmail(d)) },
        }
        let to_name = match &req.name {
            Some(n) => Some(n.clone()),
            None => None,
        };
        let plan = MessagePlan {
            from_name: self.name.clone(),
            from_address: self.user.clone(),
            to_name,
            to_address: req.to.clone(),
            subject: req.subject.clone(),
            body: req.body.clone(),
        };
        let message = render_message(&plan);
        Ok(ComposedMessage { plan, message })
    }

    /// Classifies what the upstream transport reported for a submitted
    /// message: acceptance passes through, and a failure's description
    /// becomes an `EmailSend` error. A passing result says only that the
    /// upstream server took the message; it says nothing about delivery.
    pub fn send_outcome(outcome: Result<(), String>) -> (r: Result<(), RelayError>)
        ensures
            r is Ok <==> outcome is Ok,
            outcome matches Err(d) ==> (r matches Err(RelayError::EmailSend(m)) && m@ == d@),
    {
        match outcome {
            Ok(()) => Ok(()),
            Err(d) => Err(RelayError::EmailSend(d)),
        }
    }
}

} // verus!
