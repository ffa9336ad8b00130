use vstd::prelude::*;

use vstd::string::StringExecFns;

use crate::domain::subscriber_email::SubscriberEmail;

verus! {

/// Failure of the email notifier.
#[derive(Clone, Copy, Debug, PartialEq, Eq, Structural)]
pub enum NotifierError {
    /// The request never completed: connection or timeout failure.
    Transport,
    /// The email API answered, but with the carried non-success status.
    RemoteRejected(u16),
}

/// The JSON body of one send-email call, as plain fields. The transport
/// serializes it as `{From, To, Subject, HtmlBody, TextBody}`.
#[derive(Debug)]
pub struct EmailPayload {
    pub from: String,
    pub to: String,
    pub subject: String,
    pub html_body: String,
    pub text_body: String,
}

/// One fully prepared send-email HTTP request: where to POST, the value of
/// the `X-Some-Server-Token` header, the body, and the request timeout. The
/// transport posts it verbatim and feeds the status back to
/// `classify_response`.
#[derive(Debug)]
pub struct EmailRequest {
    pub url: String,
    pub auth_token: String,
    pub payload: EmailPayload,
    pub timeout_millis: u64,
}

/// Mathematical image of the email client's configuration.
#[verifier::ext_equal]
pub struct EmailClientView {
    pub base_url: Seq<char>,
    pub sender: Seq<char>,
    pub auth_token: Seq<char>,
    pub timeout_millis: u64,
}

/// The email notifier's fixed configuration: the base URL of the email API,
/// the address the confirmation emails come from, the authentication token
/// the API expects, and the bound on how long one request may take.
pub struct EmailClient {
    base_url: String,
    sender: SubscriberEmail,
    auth_token: String,
    timeout_millis: u64,
}

impl View for EmailClient {
    type V = EmailClientView;

    closed spec fn view(&self) -> EmailClientView {
        EmailClientView {
            base_url: self.base_url@,
            sender: self.sender@,
            auth_token: self.auth_token@,
            timeout_millis: self.timeout_millis,
        }
    }
}

/// Statuses the email API answers with on success: any 2xx.
pub open spec fn success_status(status: u16) -> bool {
    200 <= status < 300
}

impl EmailClient {
    /// Builds a client for a fixed email API endpoint and sender.
    pub fn new(
        base_url: String,
        sender: SubscriberEmail,
        auth_token: String,
        timeout_millis: u64,
    ) -> (c: EmailClient)
        ensures
            c@ == (EmailClientView {
                base_url: base_url@,
                sender: sender@,
                auth_token: auth_token@,
                timeout_millis,
            }),
    {
        EmailClient { base_url, sender, auth_token, timeout_millis }
    }

    /// The computational half of sending an email: assembles the one HTTP
    /// request the notifier POSTs to `{base_url}/email`, with the client's
    /// sender, authentication token and timeout, and the given recipient,
    /// subject and bodies.
    pub fn send_email_request(
        &self,
        recipient: &SubscriberEmail,
        subject: &str,
        html_content: &str,
        text_content: &str,
    ) -> (r: EmailRequest)
        ensures
            r.url@ == self@.base_url + "/email"@,
            r.auth_token@ == self@.auth_token,
            r.payload.from@ == self@.sender,
            r.payload.to@ == recipient@,
            r.payload.subject@ == subject@,
            r.payload.html_body@ == html_content@,
            r.payload.text_body@ == text_content@,
            r.timeout_millis == self@.timeout_millis,
    {
        let mut url = self.base_url.clone();
        url.append("/email");
        EmailRequest {
            url,
            auth_token: self.auth_token.clone(),
            payload: EmailPayload {
                from: self.sender.as_ref().to_owned(),
                to: recipient.as_ref().to_owned(),
                subject: subject.to_owned(),
                html_body: html_content.to_owned(),
                text_body: text_content.to_owned(),
            },
            timeout_millis: self.timeout_millis,
        }
    }

    /// The confirmation email the enrollment pipeline sends: a fixed
    /// subject, and HTML and plain-text bodies that embed the confirmation
    /// link.
    pub fn confirmation_email_request(
        &self,
        recipient: &SubscriberEmail,
        confirmation_link: &str,
    ) -> (r: EmailRequest)
        ensures
            r.url@ == self@.base_url + "/email"@,
            r.auth_token@ == self@.auth_token,
            r.payload.from@ == self@.sender,
            r.payload.to@ == recipient@,
            r.payload.subject@ == "Welcome!"@,
            r.payload.html_body@ == "Welcome to our newsletter!<br />Click <a href=\""@
                + confirmation_link@ + "\">here</a> to confirm your subscription."@,
            r.payload.text_body@ == "Welcome to our newsletter!\nVisit "@ + confirmation_link@
                + " to confirm your subscription."@,
            r.timeout_millis == self@.timeout_millis,
    {
        let mut html_body = String::from_str("Welcome to our newsletter!<br />Click <a href=\"");
        html_body.append(confirmation_link);
        html_body.append("\">here</a> to confirm your subscription.");
        let mut text_body = String::from_str("Welcome to our newsletter!\nVisit ");
        text_body.append(confirmation_link);
        text_body.append(" to confirm your subscription.");
        self.send_email_request(recipient, "Welcome!", html_body.as_str(), text_body.as_str())
    }
}

/// The notifier's reading of the email API's HTTP status: a 2xx answer is
/// success, any other answer is a rejection carrying that status.
pub fn classify_response(status: u16) -> (r: Result<(), NotifierError>)
    ensures
        r is Ok <==> success_status(status),
        r is Err ==> r == Err::<(), NotifierError>(NotifierError::RemoteRejected(status)),
{
    if 200 <= status && status < 300 {
        Ok(())
    } else {
        Err(NotifierError::RemoteRejected(status))
    }
}

} // verus!
