//! Construction of the confirmation email.
//!
//! The email embeds a confirmation link built from the externally
//! visible base URL and the subscription token. Building the message is
//! pure string work and is verified down to the exact character
//! sequences; delivering it is the notification sender's business,
//! outside the library.

use vstd::prelude::*;
use vstd::string::StringExecFns;
use crate::domain::NewSubscriber;

verus! {

/// The confirmation link: the base URL followed by the confirmation
/// path and the token as its query parameter.
pub open spec fn confirmation_link_of(base_url: Seq<char>, token: Seq<char>) -> Seq<char> {
    base_url + "/subscriptions/confirm?subscription_token="@ + token
}

/// The plain-text body around a confirmation link.
pub open spec fn text_body_of(link: Seq<char>) -> Seq<char> {
    "Welcome to our newsletter!\nVisit "@ + link + " to confirm your subscription."@
}

/// The HTML body around a confirmation link.
pub open spec fn html_body_of(link: Seq<char>) -> Seq<char> {
    "Welcome to our newsletter!<bt />Click <a href=\""@ + link
        + "\">here</a> to confirm your subscription."@
}

/// A confirmation email, ready for the notification sender.
pub struct ConfirmationEmail {
    pub to: String,
    pub subject: String,
    pub html_body: String,
    pub text_body: String,
}

/// Mathematical image of a confirmation email.
#[verifier::ext_equal]
pub ghost struct EmailModel {
    pub to: Seq<char>,
    pub subject: Seq<char>,
    pub html_body: Seq<char>,
    pub text_body: Seq<char>,
}

impl View for ConfirmationEmail {
    type V = EmailModel;

    open spec fn view(&self) -> EmailModel {
        EmailModel {
            to: self.to@,
            subject: self.subject@,
            html_body: self.html_body@,
            text_body: self.text_body@,
        }
    }
}

/// The one confirmation email a sign-up produces, as a function of the
/// recipient, the base URL and the token.
pub open spec fn confirmation_email_of(
    to: Seq<char>,
    base_url: Seq<char>,
    token: Seq<char>,
) -> EmailModel {
    EmailModel {
        to,
        subject: "Welcome!"@,
        html_body: html_body_of(confirmation_link_of(base_url, token)),
        text_body: text_body_of(confirmation_link_of(base_url, token)),
    }
}

/// Builds the confirmation email for a validated subscriber: subject,
/// link, and both bodies are pinned down exactly.
pub fn build_confirmation_email(
    new_subscriber: &NewSubscriber,
    base_url: &str,
    subscription_token: &str,
) -> (e: ConfirmationEmail)
    ensures
        e@ == confirmation_email_of(new_subscriber.email@, base_url@, subscription_token@),
{
    let mut link = String::from_str(base_url);
    link.append("/subscriptions/confirm?subscription_token=");
    link.append(subscription_token);
    let mut text_body = String::from_str("Welcome to our newsletter!\nVisit ");
    text_body.append(link.as_str());
    text_body.append(" to confirm your subscription.");
    let mut html_body = String::from_str("Welcome to our newsletter!<bt />Click <a href=\"");
    html_body.append(link.as_str());
    html_body.append("\">here</a> to confirm your subscription.");
    let e = ConfirmationEmail {
        to: String::from_str(new_subscriber.email.as_ref()),
        subject: String::from_str("Welcome!"),
        html_body,
        text_body,
    };
    proof {
        assert(e@.html_body =~= confirmation_email_of(
            new_subscriber.email@,
            base_url@,
            subscription_token@,
        ).html_body);
        assert(e@.text_body =~= confirmation_email_of(
            new_subscriber.email@,
            base_url@,
            subscription_token@,
        ).text_body);
        assert(e@ =~= confirmation_email_of(new_subscriber.email@, base_url@, subscription_token@));
    }
    e
}

} // verus!
