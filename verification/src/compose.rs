use crate::challenge::Challenge;
use crate::mail::Notification;
use crate::user::User;
use std::collections::HashMap;
use vstd::prelude::*;

verus! {

/// The text that a template gives once each `{{name}}` in it that the
/// values name is replaced by its value.
pub uninterp spec fn rendered(template: Seq<char>, values: Map<Seq<char>, Seq<char>>) -> Seq<char>;

/// Calls `Template::new` and `Template::render` of the `string_template`
/// crate, with a map of the two pairs given; where both have the same
/// name, the second counts. The contract names the text.
#[verifier::external_body]
fn render(template: &str, first: (&str, &str), second: (&str, &str)) -> (text: String)
    ensures
        text@ == rendered(template@, map![first.0@ => first.1@].insert(second.0@, second.1@)),
{
    let mut values = HashMap::new();
    values.insert(first.0, first.1);
    values.insert(second.0, second.1);
    string_template::Template::new(template).render(&values)
}

/// Where the text of a message is kept, and its subject line.
#[derive(Debug, Clone, Copy)]
pub struct MailTemplate {
    pub path: &'static str,
    pub subject: &'static str,
}

/// A template as contracts see it: its path and its subject.
pub open spec fn template_view(template: Option<MailTemplate>) -> Option<(Seq<char>, Seq<char>)> {
    match template {
        Some(t) => Some((t.path@, t.subject@)),
        None => None,
    }
}

/// The template of the message that carries a challenge of a kind. The
/// core has none for a custom challenge: the application that defines the
/// kind words its message.
pub fn challenge_template(challenge: Challenge) -> (template: Option<MailTemplate>)
    ensures
        template_view(template) == match challenge {
            Challenge::LogIn => Some(("templates/log_in.txt"@, "Log in"@)),
            Challenge::ResetPassword => Some(
                ("templates/reset_password.txt"@, "Reset your password"@),
            ),
            Challenge::VerifyNewUser => Some(
                ("templates/verify_account.txt"@, "Verify your account"@),
            ),
            Challenge::Custom => None,
        },
{
    match challenge {
        Challenge::LogIn => Some(MailTemplate { path: "templates/log_in.txt", subject: "Log in" }),
        Challenge::ResetPassword => Some(
            MailTemplate { path: "templates/reset_password.txt", subject: "Reset your password" },
        ),
        Challenge::VerifyNewUser => Some(
            MailTemplate { path: "templates/verify_account.txt", subject: "Verify your account" },
        ),
        Challenge::Custom => None,
    }
}

/// The template of a notice.
pub fn notification_template(notification: &Notification) -> (template: MailTemplate)
    ensures
        template_view(Some(template)) == match notification {
            Notification::UserRegistered { .. } => Some(
                ("templates/user_registered.txt"@, "Your account has been created"@),
            ),
            Notification::PasswordChanged => Some(
                ("templates/password_changed.txt"@, "Your password has been changed"@),
            ),
        },
{
    match notification {
        Notification::UserRegistered { .. } => MailTemplate {
            path: "templates/user_registered.txt",
            subject: "Your account has been created",
        },
        Notification::PasswordChanged => MailTemplate {
            path: "templates/password_changed.txt",
            subject: "Your password has been changed",
        },
    }
}

/// The text of the message that carries a challenge: the template with the
/// link and the user's display name filled in.
pub fn compose_challenge(template: &str, user: &User, link: &str) -> (text: String)
    ensures
        text@ == rendered(
            template@,
            map!["link"@ => link@].insert("display_name"@, user.display_name@),
        ),
{
    render(template, ("link", link), ("display_name", user.display_name.as_str()))
}

/// The text of a notice: the template with the user's display name filled
/// in, and the temporary password where the notice has one.
pub fn compose_notification(template: &str, user: &User, notification: &Notification) -> (text:
    String)
    ensures
        text@ == match notification {
            Notification::UserRegistered { temporary_password } => rendered(
                template@,
                map!["temporary_password"@ => temporary_password@].insert(
                    "display_name"@,
                    user.display_name@,
                ),
            ),
            Notification::PasswordChanged => rendered(
                template@,
                map!["display_name"@ => user.display_name@].insert(
                    "display_name"@,
                    user.display_name@,
                ),
            ),
        },
{
    let name = user.display_name.as_str();
    match notification {
        Notification::UserRegistered { temporary_password } => render(
            template,
            ("temporary_password", temporary_password.as_str()),
            ("display_name", name),
        ),
        Notification::PasswordChanged => render(
            template,
            ("display_name", name),
            ("display_name", name),
        ),
    }
}

} // verus!
