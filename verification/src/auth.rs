//! The life of a confirmation token, and signing in and out.
//!
//! A registration is pending from the moment its row is written. It ends in
//! one of two ways, whichever comes first: the token is confirmed and the row
//! becomes a user, or the token expires and the row is discarded. Taking the
//! row out of the store decides which.
use crate::database::{
    add_confirmation, add_user, delete_confirmation, get_confirmation, get_user, Store, StoreView,
};
use crate::hasher::{argon2_encoded, encode, text_view};
use crate::models::{Confirmation, ConfirmationView, User, UserView};
use crate::templates::{HomeTemplate, HomeTemplateView};
use crate::token::{fresh_token, is_token};
use vstd::prelude::*;

verus! {

/// How many seconds a confirmation stays pending before it expires, where
/// the configuration gives no other time.
pub const CONFIRMATION_TTL_SECONDS: u64 = 10;

/// The user that a pending confirmation becomes.
pub open spec fn promoted(c: ConfirmationView) -> UserView {
    UserView { email: c.email, password: c.password }
}

/// The store after a pending confirmation was handed in: it is filed under
/// its token, unless a confirmation is pending under that token already,
/// which then stays as it is.
pub open spec fn registered(s: StoreView, c: ConfirmationView) -> StoreView {
    if s.confirmations.contains_key(c.uuid) {
        s
    } else {
        StoreView { users: s.users, confirmations: s.confirmations.insert(c.uuid, c) }
    }
}

/// The store after the token expired.
pub open spec fn expired(s: StoreView, token: Seq<char>) -> StoreView {
    StoreView { users: s.users, confirmations: s.confirmations.remove(token) }
}

/// The user that confirming the token gives, if the token is pending.
pub open spec fn confirm_outcome(s: StoreView, token: Seq<char>) -> Option<UserView> {
    if s.confirmations.contains_key(token) {
        Some(promoted(s.confirmations[token]))
    } else {
        None
    }
}

/// The store after the token was presented for confirmation: a pending row
/// is taken out and its user filed, in one step; otherwise nothing changes.
pub open spec fn confirmed(s: StoreView, token: Seq<char>) -> StoreView {
    if s.confirmations.contains_key(token) {
        StoreView {
            users: s.users.insert(
                s.confirmations[token].email,
                promoted(s.confirmations[token]),
            ),
            confirmations: s.confirmations.remove(token),
        }
    } else {
        s
    }
}

/// The store after each of the tokens was presented for confirmation, in
/// order.
pub open spec fn confirmed_all(s: StoreView, tokens: Seq<Seq<char>>) -> StoreView
    decreases tokens.len(),
{
    if tokens.len() == 0 {
        s
    } else {
        confirmed(confirmed_all(s, tokens.drop_last()), tokens.last())
    }
}

/// What can happen to the store in the life of its tokens.
pub enum Event {
    /// A pending confirmation is written.
    Register(ConfirmationView),
    /// A token is presented for confirmation.
    Confirm(Seq<char>),
    /// A token's time runs out.
    Expire(Seq<char>),
}

/// The store after one event.
pub open spec fn applied(s: StoreView, event: Event) -> StoreView {
    match event {
        Event::Register(c) => registered(s, c),
        Event::Confirm(token) => confirmed(s, token),
        Event::Expire(token) => expired(s, token),
    }
}

/// The store after each of the events, in order.
pub open spec fn applied_all(s: StoreView, events: Seq<Event>) -> StoreView
    decreases events.len(),
{
    if events.len() == 0 {
        s
    } else {
        applied(applied_all(s, events.drop_last()), events.last())
    }
}

/// Whether the event writes a pending confirmation under the token.
pub open spec fn registers(event: Event, token: Seq<char>) -> bool {
    match event {
        Event::Register(c) => c.uuid == token,
        _ => false,
    }
}

/// Who is signed in by an e-mail address and the digest of the submitted
/// password: the user filed under the address, if its digest is the same.
pub open spec fn login_outcome(
    s: StoreView,
    email: Seq<char>,
    digest: Option<Seq<char>>,
) -> Option<UserView> {
    if digest is Some && s.users.contains_key(email) && s.users[email].password == digest->0 {
        Some(s.users[email])
    } else {
        None
    }
}

/// What an optional user stands for.
pub open spec fn user_view(user: Option<User>) -> Option<UserView> {
    match user {
        Some(u) => Some(u@),
        None => None,
    }
}

/// Writes the pending confirmation of a registration whose password was
/// hashed to `digest` and whose token was drawn as `token`, and gives the
/// token back. Without a digest nothing is written and no token is given;
/// the same holds where a confirmation is pending under the token already,
/// which stays as it is.
pub fn register_pending(
    store: &mut Store,
    token: String,
    email: &String,
    digest: Option<String>,
) -> (r: Option<String>)
    requires
        old(store).wf(),
    ensures
        final(store).wf(),
        match digest {
            Some(d) => final(store)@ == registered(
                old(store)@,
                (ConfirmationView { uuid: token@, email: email@, password: d@ }),
            ) && text_view(r) == if old(store)@.confirmations.contains_key(token@) {
                None
            } else {
                Some(token@)
            },
            None => r is None && final(store)@ == old(store)@,
        },
{
    match digest {
        Some(d) => {
            let confirmation = Confirmation::new(token.clone(), email.clone(), d);
            if add_confirmation(store, &confirmation) {
                Some(token)
            } else {
                None
            }
        },
        None => None,
    }
}

/// Begins a registration: hashes the password under the salt, draws a fresh
/// token and writes the pending confirmation under it. The row is in the
/// store when the function returns, so a dispatch or an expiry that is
/// scheduled afterwards cannot come before it. The token that is returned
/// was not pending before. Where hashing fails, or the token drawn is
/// pending already, nothing is written and no token is given.
pub fn begin_registration(
    store: &mut Store,
    email: &String,
    password: &String,
    salt: &String,
) -> (r: Option<String>)
    requires
        old(store).wf(),
    ensures
        final(store).wf(),
        argon2_encoded(password@, salt@) is None ==> r is None,
        match r {
            Some(token) => is_token(token@) && argon2_encoded(password@, salt@) is Some
                && !old(store)@.confirmations.contains_key(token@) && final(store)@ == registered(
                old(store)@,
                (ConfirmationView {
                    uuid: token@,
                    email: email@,
                    password: argon2_encoded(password@, salt@)->0,
                }),
            ),
            None => final(store)@ == old(store)@ && (argon2_encoded(password@, salt@) is None
                || exists|taken: Seq<char>| #[trigger]
                is_token(taken) && old(store)@.confirmations.contains_key(taken)),
        },
{
    match encode(password, salt) {
        Some(digest) => {
            let token = fresh_token();
            let ghost drawn = token@;
            let r = register_pending(store, token, email, Some(digest));
            proof {
                if r is None {
                    assert(is_token(drawn) && old(store)@.confirmations.contains_key(drawn));
                }
            }
            r
        },
        None => None,
    }
}

/// The seconds after which a pending confirmation expires: the time that the
/// configuration gives, or `CONFIRMATION_TTL_SECONDS` where it gives none.
pub open spec fn delay_of(configured: Option<u64>) -> u64 {
    match configured {
        Some(d) => d,
        None => CONFIRMATION_TTL_SECONDS,
    }
}

/// After how many seconds a pending confirmation is to expire.
pub fn expiry_delay(configured: Option<u64>) -> (seconds: u64)
    ensures
        seconds == delay_of(configured),
{
    match configured {
        Some(d) => d,
        None => CONFIRMATION_TTL_SECONDS,
    }
}

/// Answers a registration request: begins the registration and says what is
/// to be scheduled for it, the token whose message is to be sent and the
/// seconds after which that token is to expire, counted from this call.
/// Those are the seconds that the configuration gives. Where no registration
/// begins nothing is to be scheduled.
pub fn register_post(
    store: &mut Store,
    email: &String,
    password: &String,
    salt: &String,
    configured: Option<u64>,
) -> (r: Option<(String, u64)>)
    requires
        old(store).wf(),
    ensures
        final(store).wf(),
        argon2_encoded(password@, salt@) is None ==> r is None,
        match r {
            Some((token, seconds)) => seconds == delay_of(configured) && is_token(token@)
                && argon2_encoded(password@, salt@) is Some
                && !old(store)@.confirmations.contains_key(token@) && final(store)@ == registered(
                old(store)@,
                (ConfirmationView {
                    uuid: token@,
                    email: email@,
                    password: argon2_encoded(password@, salt@)->0,
                }),
            ),
            None => final(store)@ == old(store)@ && (argon2_encoded(password@, salt@) is None
                || exists|taken: Seq<char>| #[trigger]
                is_token(taken) && old(store)@.confirmations.contains_key(taken)),
        },
{
    match begin_registration(store, email, password, salt) {
        Some(token) => Some((token, expiry_delay(configured))),
        None => None,
    }
}

/// Discards the pending confirmation of the token, if it is still there.
pub fn expire(store: &mut Store, token: &str)
    requires
        old(store).wf(),
    ensures
        final(store).wf(),
        final(store)@ == expired(old(store)@, token@),
{
    delete_confirmation(store, token);
}

/// Settles a registration once the dispatch of its message is known: a
/// delivered message leaves the pending row in place, a failed one discards
/// it, so that no row stays behind whose token nobody received.
pub fn settle_delivery(store: &mut Store, token: &str, delivered: bool)
    requires
        old(store).wf(),
    ensures
        final(store).wf(),
        final(store)@ == if delivered {
            old(store)@
        } else {
            expired(old(store)@, token@)
        },
{
    if !delivered {
        expire(store, token);
    }
}

/// Confirms the token. A pending row is taken out and its user filed as one
/// step, and that user is returned; a token that is not pending gives `None`
/// and changes nothing.
pub fn confirm(store: &mut Store, token: &str) -> (r: Option<User>)
    requires
        old(store).wf(),
    ensures
        final(store).wf(),
        user_view(r) == confirm_outcome(old(store)@, token@),
        final(store)@ == confirmed(old(store)@, token@),
{
    match get_confirmation(store, token) {
        Some(confirmation) => {
            delete_confirmation(store, token);
            let user = User::new(confirmation.email().clone(), confirmation.password().clone());
            add_user(store, &user);
            Some(user)
        },
        None => None,
    }
}

/// Decides a sign-in from the digest of the submitted password: the user
/// filed under the address, where its digest is the same; `None` otherwise,
/// whether the address is unknown, the digest differs or there is no digest.
pub fn check_credentials(store: &Store, email: &str, digest: Option<String>) -> (r: Option<User>)
    requires
        store.wf(),
    ensures
        user_view(r) == login_outcome(store@, email@, text_view(digest)),
{
    match digest {
        Some(d) => match get_user(store, email) {
            Some(user) => {
                if d.eq(user.password()) {
                    Some(user)
                } else {
                    None
                }
            },
            None => None,
        },
        None => None,
    }
}

/// What a client's session entry holds, once read.
#[derive(Debug)]
pub enum Session {
    /// The client holds no entry.
    Absent,
    /// The client holds an entry that is no user.
    Malformed,
    /// The client holds the entry of this user.
    Valid(User),
}

impl Session {
    /// Who the session speaks for, if anybody.
    pub open spec fn identity(self) -> Option<UserView> {
        match self {
            Session::Valid(user) => Some(user@),
            _ => None,
        }
    }
}

/// The session of a user who has just signed in or confirmed.
pub fn establish(user: &User) -> (r: Session)
    ensures
        r.identity() == Some(user@),
{
    Session::Valid(user.clone())
}

/// Who the session speaks for. An absent or malformed entry speaks for
/// nobody.
pub fn authenticate(session: &Session) -> (r: Option<User>)
    ensures
        user_view(r) == session.identity(),
{
    match session {
        Session::Valid(user) => Some(user.clone()),
        _ => None,
    }
}

/// Clears the session, whatever it held.
pub fn logout(session: &mut Session)
    ensures
        *final(session) == Session::Absent,
{
    *session = Session::Absent;
}

/// Signs in with an e-mail address and a password: where the address has a
/// user and the password hashes to that user's digest, a session that speaks
/// for the user; otherwise nothing, for whatever reason.
pub fn login(store: &Store, email: &String, password: &String, salt: &String) -> (r: Option<
    Session,
>)
    requires
        store.wf(),
    ensures
        match r {
            Some(session) => session.identity() is Some && session.identity() == login_outcome(
                store@,
                email@,
                argon2_encoded(password@, salt@),
            ),
            None => login_outcome(store@, email@, argon2_encoded(password@, salt@)) is None,
        },
{
    let digest = encode(password, salt);
    match check_credentials(store, email.as_str(), digest) {
        Some(user) => Some(Session::Valid(user)),
        None => None,
    }
}

/// What a request for the sign-in or the registration form is answered
/// with.
#[derive(Debug, PartialEq, Eq, Clone, Copy)]
pub enum Page {
    /// Somebody is signed in already: go to the home page.
    Redirect,
    /// The session entry is malformed.
    Invalid,
    /// Nobody is signed in: show the form.
    Form,
}

/// Answers a request for the sign-in or the registration form.
pub fn entry_page(session: &Session) -> (r: Page)
    ensures
        r == match *session {
            Session::Valid(_) => Page::Redirect,
            Session::Malformed => Page::Invalid,
            Session::Absent => Page::Form,
        },
{
    match session {
        Session::Valid(_) => Page::Redirect,
        Session::Malformed => Page::Invalid,
        Session::Absent => Page::Form,
    }
}

/// What the home page is answered with, given the session: the signed-in
/// user's page, the page of a visitor, or nothing where the entry is
/// malformed.
pub fn home(session: &Session) -> (r: Option<HomeTemplate>)
    ensures
        match *session {
            Session::Valid(user) => r is Some && r->0@ == (HomeTemplateView {
                email: user@.email,
                password: user@.password,
                valid: true,
            }),
            Session::Malformed => r is None,
            Session::Absent => r is Some && r->0@ == (HomeTemplateView {
                email: Seq::<char>::empty(),
                password: Seq::<char>::empty(),
                valid: false,
            }),
        },
{
    match session {
        Session::Valid(user) => Some(
            HomeTemplate::valid(user.email().clone(), user.password().clone()),
        ),
        Session::Malformed => None,
        Session::Absent => Some(HomeTemplate::invalid()),
    }
}

/// Writing a pending confirmation, expiring a token and presenting a token
/// for confirmation each keep every row filed under its own key: after any
/// of them each e-mail address still has at most one user.
pub proof fn lemma_steps_keep_one_user_per_email(
    s: StoreView,
    c: ConfirmationView,
    token: Seq<char>,
)
    requires
        s.wf(),
    ensures
        registered(s, c).wf(),
        expired(s, token).wf(),
        confirmed(s, token).wf(),
{
}

/// After any sequence of confirmations each e-mail address has at most one
/// user, and that user is filed under the address.
pub proof fn lemma_confirmations_keep_one_user_per_email(s: StoreView, tokens: Seq<Seq<char>>)
    requires
        s.wf(),
    ensures
        confirmed_all(s, tokens).wf(),
    decreases tokens.len(),
{
    if tokens.len() > 0 {
        lemma_confirmations_keep_one_user_per_email(s, tokens.drop_last());
    }
}

/// Whatever happens to the store, in whatever order, every row stays filed
/// under its own key: each e-mail address has at most one user.
pub proof fn lemma_events_keep_one_user_per_email(s: StoreView, events: Seq<Event>)
    requires
        s.wf(),
    ensures
        applied_all(s, events).wf(),
    decreases events.len(),
{
    if events.len() > 0 {
        lemma_events_keep_one_user_per_email(s, events.drop_last());
    }
}

/// A token that is gone, confirmed or expired, stays gone: unless it is
/// written again, nothing that happens later makes it confirmable.
pub proof fn lemma_gone_stays_gone(s: StoreView, events: Seq<Event>, token: Seq<char>)
    requires
        !s.confirmations.contains_key(token),
        forall|i: int| 0 <= i < events.len() ==> !registers(#[trigger] events[i], token),
    ensures
        !applied_all(s, events).confirmations.contains_key(token),
        confirm_outcome(applied_all(s, events), token) is None,
    decreases events.len(),
{
    if events.len() > 0 {
        let earlier = events.drop_last();
        assert forall|i: int| 0 <= i < earlier.len() implies !registers(
            #[trigger] earlier[i],
            token,
        ) by {
            assert(earlier[i] == events[i]);
        }
        lemma_gone_stays_gone(s, earlier, token);
        assert(!registers(events[events.len() - 1], token));
    }
}

/// A pending confirmation is never changed: whatever happens, a row that is
/// pending before and after holds what it held.
pub proof fn lemma_pending_is_never_changed(s: StoreView, event: Event, token: Seq<char>)
    requires
        s.confirmations.contains_key(token),
        applied(s, event).confirmations.contains_key(token),
    ensures
        applied(s, event).confirmations[token] == s.confirmations[token],
{
}

/// A token is confirmed at most once: once it was presented, with success or
/// without, presenting it again gives nothing and changes nothing.
pub proof fn lemma_confirm_at_most_once(s: StoreView, token: Seq<char>)
    ensures
        confirm_outcome(confirmed(s, token), token) is None,
        confirmed(confirmed(s, token), token) == confirmed(s, token),
{
}

/// An expired token is gone from the store and cannot be confirmed; its
/// expiry touches neither the users nor any other token.
pub proof fn lemma_expired_is_unusable(s: StoreView, token: Seq<char>)
    ensures
        !expired(s, token).confirmations.contains_key(token),
        confirm_outcome(expired(s, token), token) is None,
        confirmed(expired(s, token), token) == expired(s, token),
        expired(s, token).users == s.users,
        forall|other: Seq<char>|
            other != token ==> confirm_outcome(expired(s, token), other) == confirm_outcome(
                s,
                other,
            ),
{
}

/// Expiring a token that was confirmed or has expired already changes
/// nothing.
pub proof fn lemma_expire_is_idempotent(s: StoreView, token: Seq<char>)
    ensures
        !s.confirmations.contains_key(token) ==> expired(s, token) == s,
        expired(expired(s, token), token) == expired(s, token),
        expired(confirmed(s, token), token) == confirmed(s, token),
{
    assert(expired(expired(s, token), token).confirmations =~= expired(s, token).confirmations);
    assert(expired(confirmed(s, token), token).confirmations =~= confirmed(
        s,
        token,
    ).confirmations);
    if !s.confirmations.contains_key(token) {
        assert(expired(s, token).confirmations =~= s.confirmations);
    }
}

/// A sign-in with an address that no user has and a sign-in with a known
/// address and a digest that is not its user's end the same way: nobody is
/// signed in.
pub proof fn lemma_failed_logins_are_alike(
    s: StoreView,
    unknown: Seq<char>,
    any_digest: Option<Seq<char>>,
    known: Seq<char>,
    wrong_digest: Option<Seq<char>>,
)
    requires
        !s.users.contains_key(unknown),
        s.users.contains_key(known),
        wrong_digest != Some(s.users[known].password),
    ensures
        login_outcome(s, unknown, any_digest) == login_outcome(s, known, wrong_digest),
        login_outcome(s, unknown, any_digest) is None,
{
}

} // verus!
