use confirm_auth::config;
use confirm_auth::database::{
    add_confirmation, add_user, delete_confirmation, get_confirmation, get_user, init,
};
use confirm_auth::mail::{
    assemble, compose, confirmation_link, recipient_line, sender_line, MailError,
};
use confirm_auth::models::{Confirmation, User};
use confirm_auth::templates::HomeTemplate;

fn s(text: &str) -> String {
    text.to_string()
}

#[test]
fn empty_store_holds_nothing() {
    let store = init();
    assert_eq!(store.user_count(), 0);
    assert_eq!(store.confirmation_count(), 0);
    assert!(get_user(&store, "a@b.com").is_none());
    assert!(get_confirmation(&store, "t").is_none());
}

#[test]
fn add_user_replaces_the_same_email() {
    let mut store = init();
    add_user(&mut store, &User::new(s("a@b.com"), s("h1")));
    add_user(&mut store, &User::new(s("c@d.com"), s("h2")));
    add_user(&mut store, &User::new(s("a@b.com"), s("h3")));
    assert_eq!(store.user_count(), 2);
    assert_eq!(get_user(&store, "a@b.com").unwrap().password(), "h3");
    assert_eq!(get_user(&store, "c@d.com").unwrap().password(), "h2");
    assert_eq!(store.confirmation_count(), 0);
}

#[test]
fn add_confirmation_keeps_a_pending_row() {
    let mut store = init();
    assert!(add_confirmation(&mut store, &Confirmation::new(s("t1"), s("a@b.com"), s("h1"))));
    assert!(add_confirmation(&mut store, &Confirmation::new(s("t2"), s("a@b.com"), s("h2"))));
    assert!(!add_confirmation(&mut store, &Confirmation::new(s("t1"), s("x@y.com"), s("h3"))));
    assert_eq!(store.confirmation_count(), 2);
    let row = get_confirmation(&store, "t1").unwrap();
    assert_eq!(row.uuid(), "t1");
    assert_eq!(row.email(), "a@b.com");
    assert_eq!(row.password(), "h1");
    assert_eq!(get_confirmation(&store, "t2").unwrap().password(), "h2");
    assert_eq!(store.user_count(), 0);
}

#[test]
fn add_confirmation_after_delete_writes_again() {
    let mut store = init();
    assert!(add_confirmation(&mut store, &Confirmation::new(s("t1"), s("a@b.com"), s("h1"))));
    delete_confirmation(&mut store, "t1");
    assert!(add_confirmation(&mut store, &Confirmation::new(s("t1"), s("x@y.com"), s("h3"))));
    assert_eq!(get_confirmation(&store, "t1").unwrap().email(), "x@y.com");
}

#[test]
fn delete_confirmation_takes_out_one_row() {
    let mut store = init();
    add_confirmation(&mut store, &Confirmation::new(s("t1"), s("a@b.com"), s("h1")));
    add_confirmation(&mut store, &Confirmation::new(s("t2"), s("c@d.com"), s("h2")));
    add_confirmation(&mut store, &Confirmation::new(s("t3"), s("e@f.com"), s("h3")));
    delete_confirmation(&mut store, "t2");
    assert_eq!(store.confirmation_count(), 2);
    assert!(get_confirmation(&store, "t2").is_none());
    assert_eq!(get_confirmation(&store, "t1").unwrap().email(), "a@b.com");
    assert_eq!(get_confirmation(&store, "t3").unwrap().email(), "e@f.com");
    delete_confirmation(&mut store, "t2");
    assert_eq!(store.confirmation_count(), 2);
}

#[test]
fn records_keep_their_fields() {
    let user = User::new(s("a@b.com"), s("h"));
    assert_eq!(user.email(), "a@b.com");
    assert_eq!(user.password(), "h");
    let copy = user.clone();
    assert_eq!(copy.email(), "a@b.com");
    assert_eq!(copy.password(), "h");
    let pending = Confirmation::new(s("t"), s("a@b.com"), s("h"));
    assert_eq!(pending.uuid(), "t");
    assert_eq!(pending.email(), "a@b.com");
    assert_eq!(pending.password(), "h");
    let copy = pending.clone();
    assert_eq!(copy.uuid(), "t");
}

#[test]
fn home_template_states() {
    let visitor = HomeTemplate::invalid();
    assert!(!visitor.is_valid());
    assert_eq!(visitor.email(), "");
    assert_eq!(visitor.password(), "");
    let user = HomeTemplate::valid(s("a@b.com"), s("h"));
    assert!(user.is_valid());
    assert_eq!(user.email(), "a@b.com");
    assert_eq!(user.password(), "h");
}

#[test]
fn link_has_the_documented_form() {
    assert_eq!(
        confirmation_link("example.org", "8443", "0123abcd"),
        "https://example.org:8443/confirm/0123abcd"
    );
    assert_eq!(confirmation_link("", "", ""), "https://:/confirm/");
}

#[test]
fn message_is_composed_from_its_parts() {
    let pending = Confirmation::new(s("0123abcd"), s("a@b.com"), s("h"));
    let mail = compose(&pending, "Server", "noreply@example.org", "example.org", "8080").unwrap();
    assert_eq!(mail.from(), "Server <noreply@example.org>");
    assert_eq!(mail.to(), "<a@b.com>");
    assert_eq!(mail.subject(), "Confirmation");
    assert_eq!(mail.body(), "https://example.org:8080/confirm/0123abcd");
}

#[test]
fn configuration_values_are_handed_on() {
    assert_eq!(config::name(Some(s("n"))), "n");
    assert_eq!(config::domain(Some(s("example.org"))), "example.org");
    assert_eq!(config::port(Some(s("443"))), "443");
    assert_eq!(config::database(Some(s("x.db"))), "x.db");
    assert_eq!(config::smtp_username(Some(s("u"))), "u");
    assert_eq!(config::smtp_password(Some(s("p"))), "p");
    assert_eq!(config::smtp_host(Some(s("h"))), "h");
    assert_eq!(config::salt(Some(s("somesalt"))), "somesalt");
}

#[test]
fn configuration_is_complete_with_all_eight_values() {
    let some = Some(s("v"));
    assert!(config::complete(&some, &some, &some, &some, &some, &some, &some, &some));
    assert!(!config::complete(&None, &some, &some, &some, &some, &some, &some, &some));
    assert!(!config::complete(&some, &None, &some, &some, &some, &some, &some, &some));
    assert!(!config::complete(&some, &some, &None, &some, &some, &some, &some, &some));
    assert!(!config::complete(&some, &some, &some, &None, &some, &some, &some, &some));
    assert!(!config::complete(&some, &some, &some, &some, &None, &some, &some, &some));
    assert!(!config::complete(&some, &some, &some, &some, &some, &None, &some, &some));
    assert!(!config::complete(&some, &some, &some, &some, &some, &some, &None, &some));
    assert!(!config::complete(&some, &some, &some, &some, &some, &some, &some, &None));
}

#[test]
fn message_needs_a_recipient_mailbox() {
    let pending = Confirmation::new(s("0123abcd"), s("not an address"), s("h"));
    let result = compose(&pending, "Server", "noreply@example.org", "example.org", "8080");
    assert_eq!(result.unwrap_err(), MailError::Recipient);
    let both_bad = compose(&pending, "Server", "", "example.org", "8080");
    assert_eq!(both_bad.unwrap_err(), MailError::Recipient);
}

#[test]
fn message_needs_a_sender_mailbox() {
    let pending = Confirmation::new(s("0123abcd"), s("a@b.com"), s("h"));
    let result = compose(&pending, "Server", "", "example.org", "8080");
    assert_eq!(result.unwrap_err(), MailError::Sender);
}

#[test]
fn assemble_looks_at_the_recipient_first() {
    let mail = assemble(s("f"), s("t"), s("b"), true, true).unwrap();
    assert_eq!(mail.from(), "f");
    assert_eq!(mail.to(), "t");
    assert_eq!(mail.subject(), "Confirmation");
    assert_eq!(mail.body(), "b");
    assert_eq!(assemble(s("f"), s("t"), s("b"), false, true).unwrap_err(), MailError::Recipient);
    assert_eq!(assemble(s("f"), s("t"), s("b"), false, false).unwrap_err(), MailError::Recipient);
    assert_eq!(assemble(s("f"), s("t"), s("b"), true, false).unwrap_err(), MailError::Sender);
}

#[test]
fn address_lines() {
    assert_eq!(recipient_line("a@b.com"), "<a@b.com>");
    assert_eq!(recipient_line(""), "<>");
    assert_eq!(sender_line("Server", "noreply@example.org"), "Server <noreply@example.org>");
}
