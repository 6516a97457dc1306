//! User accounts keyed by their chat id, and subscription state.
use crate::clock::{current_timestamp, SECONDS_PER_DAY};
use vstd::prelude::*;
use vstd::string::*;

verus! {

/// Days credited for one month of subscription: a fixed 30-day month, not a
/// calendar month.
pub const DAYS_PER_MONTH: i64 = 30;

/// An account. Times are seconds since the epoch, UTC.
#[derive(Clone, Debug)]
pub struct User {
    pub chat_id: i64,
    pub username: Option<String>,
    /// The chosen language; unset means the default one.
    pub language_code: Option<String>,
    pub created_at: Option<i64>,
    pub updated_at: Option<i64>,
    /// The subscription is active while this lies in the future.
    pub subscription_ends_at: Option<i64>,
}

pub open spec fn active_at(ends_at: Option<i64>, now: i64) -> bool {
    ends_at matches Some(e) && e > now
}

/// The expiry after crediting `months` months at `now`: the period is added
/// to the later of now and the current expiry, saturating at the largest
/// representable instant.
pub open spec fn extended_expiry(ends_at: Option<i64>, now: i64, months: int) -> i64 {
    let base: int = match ends_at {
        Some(e) => if e > now {
            e as int
        } else {
            now as int
        },
        None => now as int,
    };
    let t = base + months * 30 * 86400;
    if t > i64::MAX {
        i64::MAX
    } else {
        t as i64
    }
}

/// `v` and `u` differ at most in their subscription expiry.
pub open spec fn same_but_expiry(v: User, u: User) -> bool {
    &&& v.chat_id == u.chat_id
    &&& v.username == u.username
    &&& v.language_code == u.language_code
    &&& v.created_at == u.created_at
    &&& v.updated_at == u.updated_at
}

fn copy_text(s: &Option<String>) -> (r: Option<String>)
    ensures
        r == *s,
{
    match s {
        Some(t) => Some(t.clone()),
        None => None,
    }
}

impl User {
    /// An exact copy of the account.
    pub fn duplicate(&self) -> (r: User)
        ensures
            r == *self,
    {
        User {
            chat_id: self.chat_id,
            username: copy_text(&self.username),
            language_code: copy_text(&self.language_code),
            created_at: self.created_at,
            updated_at: self.updated_at,
            subscription_ends_at: self.subscription_ends_at,
        }
    }

    /// Whether the subscription is active at `now`.
    pub fn is_active_at(&self, now: i64) -> (r: bool)
        ensures
            r == active_at(self.subscription_ends_at, now),
    {
        match self.subscription_ends_at {
            Some(e) => e > now,
            None => false,
        }
    }

    /// Whether the subscription is active now.
    pub fn is_subscription_active(&self) -> (r: bool)
        ensures
            exists|now: i64| r == active_at(self.subscription_ends_at, now),
    {
        let now = current_timestamp();
        self.is_active_at(now)
    }

    /// Credits `months` months of subscription at `now`.
    pub fn extend_subscription_at(&mut self, months: i64, now: i64)
        requires
            months >= 0,
        ensures
            same_but_expiry(*final(self), *old(self)),
            final(self).subscription_ends_at == Some(
                extended_expiry(old(self).subscription_ends_at, now, months as int),
            ),
    {
        let base: i64 = match self.subscription_ends_at {
            Some(e) => if e > now {
                e
            } else {
                now
            },
            None => now,
        };
        let per_month: i64 = DAYS_PER_MONTH * SECONDS_PER_DAY;
        assert(months * 2592000 <= i64::MAX * 2592000) by (nonlinear_arith)
            requires months <= i64::MAX, months >= 0;
        let wide: i128 = base as i128 + months as i128 * per_month as i128;
        let t: i64 = if wide > i64::MAX as i128 {
            i64::MAX
        } else {
            wide as i64
        };
        self.subscription_ends_at = Some(t);
    }

    /// Credits `months` months of subscription now.
    pub fn extend_subscription(&mut self, months: i64)
        requires
            months >= 0,
        ensures
            same_but_expiry(*final(self), *old(self)),
            exists|now: i64|
                final(self).subscription_ends_at == Some(
                    extended_expiry(old(self).subscription_ends_at, now, months as int),
                ),
    {
        let now = current_timestamp();
        self.extend_subscription_at(months, now);
    }
}

/// Crediting one month to an account without an expiry activates it until
/// 30 days from now; crediting one month to an account that runs 10 more
/// days moves its expiry 30 days past the old one, not past now.
pub proof fn lemma_extend_one_month(now: i64, ends_in_ten_days: i64)
    requires
        now + 40 * 86400 <= i64::MAX,
        ends_in_ten_days == now + 10 * 86400,
    ensures
        extended_expiry(None, now, 1) == now + 30 * 86400,
        active_at(Some(extended_expiry(None, now, 1)), now),
        extended_expiry(Some(ends_in_ten_days), now, 1) == ends_in_ten_days + 30 * 86400,
{
}

/// The accounts, at most one per chat id.
pub struct UserDirectory {
    users: Vec<User>,
}

impl View for UserDirectory {
    type V = Seq<User>;

    closed spec fn view(&self) -> Seq<User> {
        self.users@
    }
}

pub open spec fn unique_chat_ids(s: Seq<User>) -> bool {
    forall|i: int, j: int| 0 <= i < j < s.len() ==> s[i].chat_id != s[j].chat_id
}

pub open spec fn holds_chat(s: Seq<User>, chat_id: i64) -> bool {
    exists|i: int| 0 <= i < s.len() && s[i].chat_id == chat_id
}

/// A fresh account, created at `now`.
pub open spec fn new_account(chat_id: i64, now: i64) -> User {
    User {
        chat_id,
        username: None,
        language_code: None,
        created_at: Some(now),
        updated_at: Some(now),
        subscription_ends_at: None,
    }
}

/// `after` is `before` with `chat_id` registered at `now`: unchanged where
/// the account exists, else with one new account at the end.
pub open spec fn registered(before: Seq<User>, chat_id: i64, now: i64, after: Seq<User>) -> bool {
    if holds_chat(before, chat_id) {
        after == before
    } else {
        after == before.push(new_account(chat_id, now))
    }
}

impl UserDirectory {
    pub open spec fn wf(&self) -> bool {
        unique_chat_ids(self@)
    }

    pub fn new() -> (r: UserDirectory)
        ensures
            r@ == Seq::<User>::empty(),
            r.wf(),
    {
        UserDirectory { users: Vec::new() }
    }

    /// The accounts, oldest first.
    pub fn users(&self) -> (r: &Vec<User>)
        ensures
            r@ == self@,
    {
        &self.users
    }

    fn find(&self, chat_id: i64) -> (r: Option<usize>)
        ensures
            match r {
                Some(i) => i < self@.len() && self@[i as int].chat_id == chat_id,
                None => !holds_chat(self@, chat_id),
            },
    {
        let mut i: usize = 0;
        while i < self.users.len()
            invariant
                i <= self@.len(),
                forall|k: int| 0 <= k < i ==> self@[k].chat_id != chat_id,
            decreases self@.len() - i,
        {
            if self.users[i].chat_id == chat_id {
                return Some(i);
            }
            i = i + 1;
        }
        None
    }
}

/// Creates the account of `chat_id` at `now` unless it exists.
pub fn register_user_at(users: &mut UserDirectory, chat_id: i64, now: i64)
    requires
        old(users).wf(),
    ensures
        final(users).wf(),
        registered(old(users)@, chat_id, now, final(users)@),
{
    match users.find(chat_id) {
        Some(_) => {},
        None => {
            let u = User {
                chat_id,
                username: None,
                language_code: None,
                created_at: Some(now),
                updated_at: Some(now),
                subscription_ends_at: None,
            };
            users.users.push(u);
            assert(users@[users@.len() - 1].chat_id == chat_id);
        },
    }
}

/// Creates the account of `chat_id` unless it exists.
pub fn register_user(users: &mut UserDirectory, chat_id: i64)
    requires
        old(users).wf(),
    ensures
        final(users).wf(),
        exists|now: i64| registered(old(users)@, chat_id, now, final(users)@),
{
    let now = current_timestamp();
    register_user_at(users, chat_id, now);
}

/// Sets the language of the account of `chat_id`, if there is one.
pub fn update_language(users: &mut UserDirectory, chat_id: i64, lang: &str)
    requires
        old(users).wf(),
    ensures
        final(users).wf(),
        final(users)@.len() == old(users)@.len(),
        forall|i: int|
            0 <= i < old(users)@.len() ==> if old(users)@[i].chat_id == chat_id {
                &&& final(users)@[i].language_code matches Some(l) && l@ == lang@
                &&& final(users)@[i].chat_id == old(users)@[i].chat_id
                &&& final(users)@[i].username == old(users)@[i].username
                &&& final(users)@[i].created_at == old(users)@[i].created_at
                &&& final(users)@[i].updated_at == old(users)@[i].updated_at
                &&& final(users)@[i].subscription_ends_at == old(users)@[i].subscription_ends_at
            } else {
                final(users)@[i] == old(users)@[i]
            },
{
    match users.find(chat_id) {
        Some(i) => {
            let mut u = users.users[i].duplicate();
            u.language_code = Some(String::from_str(lang));
            users.users.set(i, u);
        },
        None => {},
    }
}

/// The account of `chat_id`, if there is one.
pub fn get_user(users: &UserDirectory, chat_id: i64) -> (r: Option<User>)
    ensures
        match r {
            Some(u) => u.chat_id == chat_id && exists|i: int| 0 <= i < users@.len() && users@[i] == u,
            None => !holds_chat(users@, chat_id),
        },
{
    match users.find(chat_id) {
        Some(i) => Some(users.users[i].duplicate()),
        None => None,
    }
}

/// `after` is `before` with the expiry of `chat_id`'s account set to `t`.
pub open spec fn expiry_set(before: Seq<User>, chat_id: i64, t: i64, after: Seq<User>) -> bool {
    &&& after.len() == before.len()
    &&& forall|i: int|
        0 <= i < before.len() ==> if before[i].chat_id == chat_id {
            same_but_expiry(after[i], before[i]) && after[i].subscription_ends_at == Some(t)
        } else {
            after[i] == before[i]
        }
}

/// Sets the subscription expiry of the account of `chat_id`; tells whether
/// there was such an account.
pub fn update_subscription(users: &mut UserDirectory, chat_id: i64, ends_at: i64) -> (r: bool)
    requires
        old(users).wf(),
    ensures
        final(users).wf(),
        r == holds_chat(old(users)@, chat_id),
        expiry_set(old(users)@, chat_id, ends_at, final(users)@),
{
    match users.find(chat_id) {
        Some(i) => {
            let mut u = users.users[i].duplicate();
            u.subscription_ends_at = Some(ends_at);
            users.users.set(i, u);
            true
        },
        None => false,
    }
}

/// Registering the same chat id twice leaves exactly one account for it; the
/// second registration changes nothing.
pub proof fn lemma_register_twice(
    d0: Seq<User>,
    d1: Seq<User>,
    d2: Seq<User>,
    chat_id: i64,
    t1: i64,
    t2: i64,
)
    requires
        unique_chat_ids(d0),
        registered(d0, chat_id, t1, d1),
        registered(d1, chat_id, t2, d2),
    ensures
        d2 == d1,
        exists|i: int|
            0 <= i < d2.len() && d2[i].chat_id == chat_id && forall|j: int|
                0 <= j < d2.len() && #[trigger] d2[j].chat_id == chat_id ==> j == i,
{
    if holds_chat(d0, chat_id) {
        let i = choose|i: int| 0 <= i < d0.len() && d0[i].chat_id == chat_id;
        assert forall|j: int| 0 <= j < d2.len() && #[trigger] d2[j].chat_id == chat_id implies j == i by {
            if j < i {
                assert(d0[j].chat_id != d0[i].chat_id);
            } else if j > i {
                assert(d0[i].chat_id != d0[j].chat_id);
            }
        }
    } else {
        let i = d0.len() as int;
        assert(d1[i].chat_id == chat_id);
        assert(holds_chat(d1, chat_id));
        assert forall|j: int| 0 <= j < d2.len() && #[trigger] d2[j].chat_id == chat_id implies j == i by {
            if j < i {
                assert(d1[j] == d0[j]);
            }
        }
    }
}

/// The language of an account, Russian where none was chosen or there is no
/// account.
pub open spec fn language_of(user: Option<User>) -> Seq<char> {
    match user {
        Some(u) => match u.language_code {
            Some(c) => c@,
            None => "ru"@,
        },
        None => "ru"@,
    }
}

/// The language to speak to the holder of an account.
pub fn user_language(user: &Option<User>) -> (r: String)
    ensures
        r@ == language_of(*user),
{
    match user {
        Some(u) => match &u.language_code {
            Some(c) => c.clone(),
            None => String::from_str("ru"),
        },
        None => String::from_str("ru"),
    }
}

/// `chat_id` holds an account whose subscription is active at `now`.
pub open spec fn subscribed_at(users: Seq<User>, chat_id: i64, now: i64) -> bool {
    exists|i: int|
        0 <= i < users.len() && users[i].chat_id == chat_id && active_at(
            users[i].subscription_ends_at,
            now,
        )
}

/// Whether `chat_id` has an active subscription at `now`.
pub fn check_subscription_at(users: &UserDirectory, chat_id: i64, now: i64) -> (r: bool)
    requires
        users.wf(),
    ensures
        r == subscribed_at(users@, chat_id, now),
{
    match users.find(chat_id) {
        Some(i) => {
            let r = users.users[i].is_active_at(now);
            proof {
                if subscribed_at(users@, chat_id, now) {
                    let j = choose|j: int|
                        0 <= j < users@.len() && users@[j].chat_id == chat_id && active_at(
                            users@[j].subscription_ends_at,
                            now,
                        );
                    if j < i {
                        assert(users@[j].chat_id != users@[i as int].chat_id);
                    } else if j > i {
                        assert(users@[i as int].chat_id != users@[j].chat_id);
                    }
                }
            }
            r
        },
        None => false,
    }
}

/// Whether `chat_id` has an active subscription now.
pub fn check_subscription(users: &UserDirectory, chat_id: i64) -> (r: bool)
    requires
        users.wf(),
    ensures
        exists|now: i64| r == subscribed_at(users@, chat_id, now),
{
    let now = current_timestamp();
    check_subscription_at(users, chat_id, now)
}

} // verus!
