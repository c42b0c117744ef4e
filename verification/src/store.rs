//! Record access service: accounts, users and messages against a store whose
//! behaviour is specified here as an in-memory model. The store assigns user
//! and message ids from monotone counters and stamps each message at creation
//! time, so listing messages newest-first is reversing creation order.

use vstd::prelude::*;

use crate::credential::{bcrypt_hash_wf, bcrypt_matches, hash_secret, verify_secret};
use crate::errors::OpError;

verus! {

/// A credential record: an email (the natural key) and the one-way hash of
/// the account's secret. The plaintext secret is never stored.
pub struct Account {
    pub email: String,
    pub hash: String,
}

/// The mathematical value of an [`Account`].
pub ghost struct AccountV {
    pub email: Seq<char>,
    pub hash: Seq<char>,
}

impl View for Account {
    type V = AccountV;

    open spec fn view(&self) -> AccountV {
        AccountV { email: self.email@, hash: self.hash@ }
    }
}

/// A user record; the id is assigned by the store and immutable thereafter.
pub struct UserRec {
    pub id: i32,
    pub name: String,
    pub email: String,
}

/// The mathematical value of a [`UserRec`].
pub ghost struct UserV {
    pub id: int,
    pub name: Seq<char>,
    pub email: Seq<char>,
}

impl View for UserRec {
    type V = UserV;

    open spec fn view(&self) -> UserV {
        UserV { id: self.id as int, name: self.name@, email: self.email@ }
    }
}

impl UserRec {
    /// A field-for-field copy.
    pub fn duplicate(&self) -> (r: UserRec)
        ensures
            r@ == self@,
    {
        UserRec { id: self.id, name: self.name.clone(), email: self.email.clone() }
    }
}

/// A message record; id and creation stamp are assigned by the store.
pub struct MessageRec {
    pub id: i32,
    pub author_email: String,
    pub department: String,
    pub text: String,
    pub content_type: String,
    pub created_at: i64,
}

/// The mathematical value of a [`MessageRec`].
pub ghost struct MessageV {
    pub id: int,
    pub author_email: Seq<char>,
    pub department: Seq<char>,
    pub text: Seq<char>,
    pub content_type: Seq<char>,
    pub created_at: int,
}

impl View for MessageRec {
    type V = MessageV;

    open spec fn view(&self) -> MessageV {
        MessageV {
            id: self.id as int,
            author_email: self.author_email@,
            department: self.department@,
            text: self.text@,
            content_type: self.content_type@,
            created_at: self.created_at as int,
        }
    }
}

impl MessageRec {
    /// A field-for-field copy.
    pub fn duplicate(&self) -> (r: MessageRec)
        ensures
            r@ == self@,
    {
        MessageRec {
            id: self.id,
            author_email: self.author_email.clone(),
            department: self.department.clone(),
            text: self.text.clone(),
            content_type: self.content_type.clone(),
            created_at: self.created_at,
        }
    }
}

/// The store model: the single source of truth for all three record kinds.
pub struct Store {
    accounts: Vec<Account>,
    users: Vec<UserRec>,
    messages: Vec<MessageRec>,
    next_user_id: i32,
    next_message_id: i32,
    next_stamp: i64,
}

/// The mathematical value of a [`Store`].
pub ghost struct StoreV {
    pub accounts: Seq<AccountV>,
    pub users: Seq<UserV>,
    pub messages: Seq<MessageV>,
    pub next_user_id: int,
    pub next_message_id: int,
    pub next_stamp: int,
}

impl View for Store {
    type V = StoreV;

    closed spec fn view(&self) -> StoreV {
        StoreV {
            accounts: self.accounts@.map_values(|a: Account| a@),
            users: self.users@.map_values(|u: UserRec| u@),
            messages: self.messages@.map_values(|m: MessageRec| m@),
            next_user_id: self.next_user_id as int,
            next_message_id: self.next_message_id as int,
            next_stamp: self.next_stamp as int,
        }
    }
}

/// Whether some account carries the email.
pub open spec fn has_account(accounts: Seq<AccountV>, email: Seq<char>) -> bool {
    exists|i: int| 0 <= i < accounts.len() && accounts[i].email == email
}

/// The index of the account carrying the email (meaningful when
/// `has_account` holds; unique under the store invariant).
pub open spec fn account_index(accounts: Seq<AccountV>, email: Seq<char>) -> int {
    choose|i: int| 0 <= i < accounts.len() && accounts[i].email == email
}

/// The hash stored for the email.
pub open spec fn stored_hash(accounts: Seq<AccountV>, email: Seq<char>) -> Seq<char> {
    accounts[account_index(accounts, email)].hash
}

/// What a login check yields: `Some(false)` when no account carries the
/// email (indistinguishable, by design, from a wrong password), the
/// verification verdict when the stored hash is well formed, and `None` (an
/// error) exactly when the stored hash is malformed.
pub open spec fn login_of(
    accounts: Seq<AccountV>,
    email: Seq<char>,
    password: Seq<char>,
) -> Option<bool> {
    if !has_account(accounts, email) {
        Some(false)
    } else if bcrypt_hash_wf(stored_hash(accounts, email)) {
        Some(bcrypt_matches(password, stored_hash(accounts, email)))
    } else {
        None
    }
}

/// Whether some user record carries the id.
pub open spec fn has_user(users: Seq<UserV>, id: int) -> bool {
    exists|i: int| 0 <= i < users.len() && users[i].id == id
}

/// The index of the user record carrying the id (meaningful when `has_user`
/// holds; unique under the store invariant).
pub open spec fn user_index(users: Seq<UserV>, id: int) -> int {
    choose|i: int| 0 <= i < users.len() && users[i].id == id
}

/// Whether some message record carries the id.
pub open spec fn has_message(messages: Seq<MessageV>, id: int) -> bool {
    exists|i: int| 0 <= i < messages.len() && messages[i].id == id
}

/// The index of the message record carrying the id (meaningful when
/// `has_message` holds; unique under the store invariant).
pub open spec fn message_index(messages: Seq<MessageV>, id: int) -> int {
    choose|i: int| 0 <= i < messages.len() && messages[i].id == id
}

impl StoreV {
    /// The store invariant: counters start at one and dominate every assigned
    /// id and stamp (so the next id is previously unseen), ids and emails are
    /// unique, and message stamps strictly increase in creation order.
    pub open spec fn inv(self) -> bool {
        &&& 1 <= self.next_user_id
        &&& 1 <= self.next_message_id
        &&& 1 <= self.next_stamp
        &&& forall|i: int|
            0 <= i < self.users.len() ==> #[trigger] self.users[i].id < self.next_user_id
        &&& forall|i: int, j: int|
            0 <= i < j < self.users.len() ==> self.users[i].id != self.users[j].id
        &&& forall|i: int|
            0 <= i < self.messages.len() ==> #[trigger] self.messages[i].id
                < self.next_message_id
        &&& forall|i: int, j: int|
            0 <= i < j < self.messages.len() ==> self.messages[i].id != self.messages[j].id
        &&& forall|i: int|
            0 <= i < self.messages.len() ==> #[trigger] self.messages[i].created_at
                < self.next_stamp
        &&& forall|i: int, j: int|
            0 <= i < j < self.messages.len() ==> self.messages[i].created_at
                < self.messages[j].created_at
        &&& forall|i: int, j: int|
            0 <= i < j < self.accounts.len() ==> self.accounts[i].email != self.accounts[j].email
    }
}

impl Store {
    /// Whether the store is well formed.
    pub open spec fn wf(&self) -> bool {
        self@.inv()
    }

    /// An empty store; ids and stamps will be assigned from one upward.
    pub fn new() -> (r: Store)
        ensures
            r.wf(),
            r@.accounts == Seq::<AccountV>::empty(),
            r@.users == Seq::<UserV>::empty(),
            r@.messages == Seq::<MessageV>::empty(),
            r@.next_user_id == 1,
            r@.next_message_id == 1,
            r@.next_stamp == 1,
    {
        let r = Store {
            accounts: Vec::new(),
            users: Vec::new(),
            messages: Vec::new(),
            next_user_id: 1,
            next_message_id: 1,
            next_stamp: 1,
        };
        proof {
            assert(r@.accounts =~= Seq::<AccountV>::empty());
            assert(r@.users =~= Seq::<UserV>::empty());
            assert(r@.messages =~= Seq::<MessageV>::empty());
        }
        r
    }

    /// The id the next created user will receive.
    pub fn upcoming_user_id(&self) -> (r: i32)
        ensures
            r as int == self@.next_user_id,
    {
        self.next_user_id
    }

    /// The id the next created message will receive.
    pub fn upcoming_message_id(&self) -> (r: i32)
        ensures
            r as int == self@.next_message_id,
    {
        self.next_message_id
    }

    /// The creation stamp the next created message will receive.
    pub fn upcoming_stamp(&self) -> (r: i64)
        ensures
            r as int == self@.next_stamp,
    {
        self.next_stamp
    }

    /// Registers an account: inserts {email, hash of the secret}. The store
    /// enforces email uniqueness, so a duplicate attempt surfaces as exactly
    /// the insert error; on a fresh email the salted hashing fault is the
    /// only failure source.
    pub fn register_user(&mut self, email: &str, password: &str) -> (r: Result<bool, OpError>)
        requires
            old(self).wf(),
        ensures
            final(self).wf(),
            final(self)@.users == old(self)@.users,
            final(self)@.messages == old(self)@.messages,
            final(self)@.next_user_id == old(self)@.next_user_id,
            final(self)@.next_message_id == old(self)@.next_message_id,
            final(self)@.next_stamp == old(self)@.next_stamp,
            r is Err ==> final(self)@ == old(self)@,
            r matches Ok(b) ==> b,
            r is Ok ==> !has_account(old(self)@.accounts, email@),
            r is Ok ==> final(self)@.accounts.len() == old(self)@.accounts.len() + 1,
            r is Ok ==> final(self)@.accounts.subrange(0, old(self)@.accounts.len() as int)
                == old(self)@.accounts,
            r is Ok ==> final(self)@.accounts.last().email == email@,
            r is Ok ==> bcrypt_hash_wf(final(self)@.accounts.last().hash),
            r is Ok ==> bcrypt_matches(password@, final(self)@.accounts.last().hash),
            r is Ok ==> final(self)@.accounts.last().hash.len() == 60,
            r == Result::<bool, OpError>::Err(OpError::DuplicateEmail) <==> has_account(
                old(self)@.accounts,
                email@,
            ),
            r matches Err(e) ==> e is Hash || e is DuplicateEmail,
    {
        let target = email.to_owned();
        match find_account_index(&self.accounts, &target) {
            Some(i) => {
                proof {
                    assert(self@.accounts[i as int].email == email@);
                }
                Err(OpError::DuplicateEmail)
            },
            None => {
                proof {
                    assert forall|j: int|
                        0 <= j < self@.accounts.len() implies self@.accounts[j].email
                        != email@ by {
                        assert(self.accounts@[j].email@ != target@);
                    }
                }
                let hashed = match hash_secret(password) {
                    Ok(h) => h,
                    Err(e) => {
                        return Err(e);
                    },
                };
                let ghost pre = self@.accounts;
                self.accounts.push(Account { email: target, hash: hashed });
                proof {
                    let post = self@.accounts;
                    assert(post =~= pre.push(
                        AccountV { email: email@, hash: hashed@ },
                    ));
                    assert(post.subrange(0, pre.len() as int) =~= pre);
                    assert(final(self)@.users =~= old(self)@.users);
                    assert(final(self)@.messages =~= old(self)@.messages);
                }
                Ok(true)
            },
        }
    }

    /// Checks a login attempt: an absent account yields `false` (not an
    /// error, and indistinguishable from a wrong password), a present one
    /// delegates to secret verification.
    pub fn check_login(&self, email: &str, password: &str) -> (r: Result<bool, OpError>)
        requires
            self.wf(),
        ensures
            match login_of(self@.accounts, email@, password@) {
                Some(b) => r == Result::<bool, OpError>::Ok(b),
                None => r == Result::<bool, OpError>::Err(OpError::InvalidStoredHash),
            },
    {
        let target = email.to_owned();
        match find_account_index(&self.accounts, &target) {
            None => {
                proof {
                    assert forall|j: int|
                        0 <= j < self@.accounts.len() implies self@.accounts[j].email
                        != email@ by {
                        assert(self.accounts@[j].email@ != target@);
                    }
                    assert(!has_account(self@.accounts, email@));
                }
                Ok(false)
            },
            Some(i) => {
                proof {
                    let accs = self@.accounts;
                    assert(accs[i as int].email == email@);
                    assert(has_account(accs, email@));
                    let k = account_index(accs, email@);
                    assert(0 <= k < accs.len() && accs[k].email == email@);
                    if k != i as int {
                        assert(accs[k].email != accs[i as int].email);
                        assert(false);
                    }
                }
                verify_secret(password, self.accounts[i].hash.as_str())
            },
        }
    }
}

impl Store {
    /// Lists all user records, in store order.
    pub fn list_users(&self) -> (r: Result<Vec<UserRec>, OpError>)
        ensures
            r matches Ok(v) && v@.map_values(|u: UserRec| u@) == self@.users,
    {
        let mut out: Vec<UserRec> = Vec::new();
        let mut i: usize = 0;
        while i < self.users.len()
            invariant
                i <= self.users@.len(),
                out@.len() == i,
                forall|t: int| 0 <= t < i ==> #[trigger] out@[t]@ == self.users@[t]@,
            decreases self.users@.len() - i,
        {
            out.push(self.users[i].duplicate());
            i += 1;
        }
        proof {
            assert(out@.map_values(|u: UserRec| u@) =~= self@.users);
        }
        Ok(out)
    }

    /// Creates a user record: the store assigns the next id (previously
    /// unseen) and echoes the name and email into the returned record.
    pub fn create_user(&mut self, name: &str, email: &str) -> (r: Result<UserRec, OpError>)
        requires
            old(self).wf(),
            old(self)@.next_user_id < i32::MAX as int,
        ensures
            final(self).wf(),
            final(self)@.accounts == old(self)@.accounts,
            final(self)@.messages == old(self)@.messages,
            final(self)@.next_message_id == old(self)@.next_message_id,
            final(self)@.next_stamp == old(self)@.next_stamp,
            final(self)@.next_user_id == old(self)@.next_user_id + 1,
            r matches Ok(u) && ({
                &&& u@.id == old(self)@.next_user_id
                &&& u@.name == name@
                &&& u@.email == email@
                &&& !has_user(old(self)@.users, u@.id)
                &&& final(self)@.users == old(self)@.users.push(u@)
            }),
    {
        let rec = UserRec { id: self.next_user_id, name: name.to_owned(), email: email.to_owned() };
        let out = rec.duplicate();
        let ghost pre = self@.users;
        self.users.push(rec);
        self.next_user_id = self.next_user_id + 1;
        proof {
            assert(final(self)@.users =~= pre.push(out@));
            assert(final(self)@.accounts =~= old(self)@.accounts);
            assert(final(self)@.messages =~= old(self)@.messages);
            if has_user(pre, out@.id) {
                let k = user_index(pre, out@.id);
                assert(pre[k].id < old(self)@.next_user_id);
                assert(false);
            }
        }
        Ok(out)
    }

    /// Updates the name and email of the user record carrying the id;
    /// an id that matches no row yields `OpError::NotFound`.
    pub fn update_user(&mut self, id: i32, name: &str, email: &str) -> (r: Result<
        UserRec,
        OpError,
    >)
        requires
            old(self).wf(),
        ensures
            final(self).wf(),
            final(self)@.accounts == old(self)@.accounts,
            final(self)@.messages == old(self)@.messages,
            final(self)@.next_user_id == old(self)@.next_user_id,
            final(self)@.next_message_id == old(self)@.next_message_id,
            final(self)@.next_stamp == old(self)@.next_stamp,
            !has_user(old(self)@.users, id as int) ==> r == Result::<UserRec, OpError>::Err(
                OpError::NotFound,
            ) && final(self)@ == old(self)@,
            has_user(old(self)@.users, id as int) ==> (r matches Ok(u) && ({
                &&& u@.id == id as int
                &&& u@.name == name@
                &&& u@.email == email@
                &&& final(self)@.users == old(self)@.users.update(
                    user_index(old(self)@.users, id as int),
                    u@,
                )
            })),
    {
        match find_user_index(&self.users, id) {
            None => {
                proof {
                    assert forall|j: int|
                        0 <= j < self@.users.len() implies self@.users[j].id != id as int by {
                        assert(self.users@[j].id != id);
                    }
                }
                Err(OpError::NotFound)
            },
            Some(i) => {
                let ghost pre = self@.users;
                proof {
                    assert(pre[i as int].id == id as int);
                    assert(has_user(pre, id as int));
                    let k = user_index(pre, id as int);
                    assert(0 <= k < pre.len() && pre[k].id == id as int);
                    if k != i as int {
                        assert(pre[k].id != pre[i as int].id);
                        assert(false);
                    }
                }
                let rec = UserRec { id, name: name.to_owned(), email: email.to_owned() };
                let out = rec.duplicate();
                self.users.remove(i);
                self.users.insert(i, rec);
                proof {
                    assert(final(self)@.users =~= pre.update(i as int, out@));
                    assert(final(self)@.accounts =~= old(self)@.accounts);
                    assert(final(self)@.messages =~= old(self)@.messages);
                }
                Ok(out)
            },
        }
    }

    /// Deletes the user record carrying the id. The result reports whether a
    /// row was removed; an id that matches nothing is `false`, not an error.
    pub fn delete_user(&mut self, id: i32) -> (r: Result<bool, OpError>)
        requires
            old(self).wf(),
        ensures
            final(self).wf(),
            final(self)@.accounts == old(self)@.accounts,
            final(self)@.messages == old(self)@.messages,
            final(self)@.next_user_id == old(self)@.next_user_id,
            final(self)@.next_message_id == old(self)@.next_message_id,
            final(self)@.next_stamp == old(self)@.next_stamp,
            r matches Ok(b) && (b <==> has_user(old(self)@.users, id as int)),
            !has_user(old(self)@.users, id as int) ==> final(self)@ == old(self)@,
            has_user(old(self)@.users, id as int) ==> final(self)@.users == old(
                self,
            )@.users.remove(user_index(old(self)@.users, id as int)),
            !has_user(final(self)@.users, id as int),
    {
        match find_user_index(&self.users, id) {
            None => {
                proof {
                    assert forall|j: int|
                        0 <= j < self@.users.len() implies self@.users[j].id != id as int by {
                        assert(self.users@[j].id != id);
                    }
                }
                Ok(false)
            },
            Some(i) => {
                let ghost pre = self@.users;
                proof {
                    assert(pre[i as int].id == id as int);
                    assert(has_user(pre, id as int));
                    let k = user_index(pre, id as int);
                    assert(0 <= k < pre.len() && pre[k].id == id as int);
                    if k != i as int {
                        assert(pre[k].id != pre[i as int].id);
                        assert(false);
                    }
                }
                self.users.remove(i);
                proof {
                    assert(final(self)@.users =~= pre.remove(i as int));
                    assert(final(self)@.accounts =~= old(self)@.accounts);
                    assert(final(self)@.messages =~= old(self)@.messages);
                    crate::laws::lemma_delete_user_exactly_once(pre, id as int);
                }
                Ok(true)
            },
        }
    }
}

impl Store {
    /// Creates a message record: the store assigns the next id and the
    /// creation stamp, strictly later than every stamp already assigned, and
    /// echoes the remaining fields into the returned record.
    pub fn create_message(
        &mut self,
        author_email: &str,
        department: &str,
        text: &str,
        content_type: &str,
    ) -> (r: Result<MessageRec, OpError>)
        requires
            old(self).wf(),
            old(self)@.next_message_id < i32::MAX as int,
            old(self)@.next_stamp < i64::MAX as int,
        ensures
            final(self).wf(),
            final(self)@.accounts == old(self)@.accounts,
            final(self)@.users == old(self)@.users,
            final(self)@.next_user_id == old(self)@.next_user_id,
            final(self)@.next_message_id == old(self)@.next_message_id + 1,
            final(self)@.next_stamp == old(self)@.next_stamp + 1,
            r matches Ok(m) && ({
                &&& m@.id == old(self)@.next_message_id
                &&& m@.author_email == author_email@
                &&& m@.department == department@
                &&& m@.text == text@
                &&& m@.content_type == content_type@
                &&& m@.created_at == old(self)@.next_stamp
                &&& !has_message(old(self)@.messages, m@.id)
                &&& forall|i: int|
                    0 <= i < old(self)@.messages.len()
                        ==> #[trigger] old(self)@.messages[i].created_at < m@.created_at
                &&& final(self)@.messages == old(self)@.messages.push(m@)
            }),
    {
        let rec = MessageRec {
            id: self.next_message_id,
            author_email: author_email.to_owned(),
            department: department.to_owned(),
            text: text.to_owned(),
            content_type: content_type.to_owned(),
            created_at: self.next_stamp,
        };
        let out = rec.duplicate();
        let ghost pre = self@.messages;
        self.messages.push(rec);
        self.next_message_id = self.next_message_id + 1;
        self.next_stamp = self.next_stamp + 1;
        proof {
            assert(final(self)@.messages =~= pre.push(out@));
            assert(final(self)@.accounts =~= old(self)@.accounts);
            assert(final(self)@.users =~= old(self)@.users);
            if has_message(pre, out@.id) {
                let k = message_index(pre, out@.id);
                assert(pre[k].id < old(self)@.next_message_id);
                assert(false);
            }
        }
        Ok(out)
    }

    /// Lists all message records newest first: the result is the creation
    /// sequence reversed, so creation stamps strictly decrease along it.
    pub fn list_messages(&self) -> (r: Result<Vec<MessageRec>, OpError>)
        requires
            self.wf(),
        ensures
            r matches Ok(v) && v@.map_values(|m: MessageRec| m@) == self@.messages.reverse(),
            r matches Ok(v) ==> forall|i: int, j: int|
                0 <= i < j < v@.len() ==> v@[i].created_at > v@[j].created_at,
    {
        let n: usize = self.messages.len();
        let mut out: Vec<MessageRec> = Vec::new();
        let mut k: usize = n;
        while k > 0
            invariant
                k <= n,
                n == self.messages@.len(),
                out@.len() == n - k,
                forall|t: int|
                    0 <= t < out@.len() ==> #[trigger] out@[t]@ == self@.messages[n - 1 - t],
            decreases k,
        {
            k = k - 1;
            out.push(self.messages[k].duplicate());
        }
        proof {
            assert(out@.map_values(|m: MessageRec| m@) =~= self@.messages.reverse());
            crate::laws::lemma_reversed_messages_newest_first(self@.messages);
            let rev = self@.messages.reverse();
            assert forall|i: int, j: int|
                0 <= i < j < out@.len() implies out@[i].created_at > out@[j].created_at by {
                assert(out@[i]@ == rev[i]);
                assert(out@[j]@ == rev[j]);
                assert(rev[i].created_at > rev[j].created_at);
            }
        }
        Ok(out)
    }

    /// Deletes the message record carrying the id. The result reports
    /// whether a row was removed; an id that matches nothing is `false`, not
    /// an error.
    pub fn delete_message(&mut self, id: i32) -> (r: Result<bool, OpError>)
        requires
            old(self).wf(),
        ensures
            final(self).wf(),
            final(self)@.accounts == old(self)@.accounts,
            final(self)@.users == old(self)@.users,
            final(self)@.next_user_id == old(self)@.next_user_id,
            final(self)@.next_message_id == old(self)@.next_message_id,
            final(self)@.next_stamp == old(self)@.next_stamp,
            r matches Ok(b) && (b <==> has_message(old(self)@.messages, id as int)),
            !has_message(old(self)@.messages, id as int) ==> final(self)@ == old(self)@,
            has_message(old(self)@.messages, id as int) ==> final(self)@.messages == old(
                self,
            )@.messages.remove(message_index(old(self)@.messages, id as int)),
            !has_message(final(self)@.messages, id as int),
    {
        match find_message_index(&self.messages, id) {
            None => {
                proof {
                    assert forall|j: int|
                        0 <= j < self@.messages.len() implies self@.messages[j].id != id as int by {
                        assert(self.messages@[j].id != id);
                    }
                }
                Ok(false)
            },
            Some(i) => {
                let ghost pre = self@.messages;
                proof {
                    assert(pre[i as int].id == id as int);
                    assert(has_message(pre, id as int));
                    let k = message_index(pre, id as int);
                    assert(0 <= k < pre.len() && pre[k].id == id as int);
                    if k != i as int {
                        assert(pre[k].id != pre[i as int].id);
                        assert(false);
                    }
                }
                self.messages.remove(i);
                proof {
                    assert(final(self)@.messages =~= pre.remove(i as int));
                    assert(final(self)@.accounts =~= old(self)@.accounts);
                    assert(final(self)@.users =~= old(self)@.users);
                    crate::laws::lemma_delete_message_exactly_once(pre, id as int);
                }
                Ok(true)
            },
        }
    }
}

/// Finds the index of the message record carrying the id, if any.
fn find_message_index(messages: &Vec<MessageRec>, id: i32) -> (r: Option<usize>)
    ensures
        r matches Some(i) ==> i < messages@.len() && messages@[i as int].id == id,
        r is None ==> forall|j: int| 0 <= j < messages@.len() ==> messages@[j].id != id,
{
    let mut i: usize = 0;
    while i < messages.len()
        invariant
            i <= messages@.len(),
            forall|j: int| 0 <= j < i ==> messages@[j].id != id,
        decreases messages@.len() - i,
    {
        if messages[i].id == id {
            return Some(i);
        }
        i += 1;
    }
    None
}

/// Finds the index of the user record carrying the id, if any.
fn find_user_index(users: &Vec<UserRec>, id: i32) -> (r: Option<usize>)
    ensures
        r matches Some(i) ==> i < users@.len() && users@[i as int].id == id,
        r is None ==> forall|j: int| 0 <= j < users@.len() ==> users@[j].id != id,
{
    let mut i: usize = 0;
    while i < users.len()
        invariant
            i <= users@.len(),
            forall|j: int| 0 <= j < i ==> users@[j].id != id,
        decreases users@.len() - i,
    {
        if users[i].id == id {
            return Some(i);
        }
        i += 1;
    }
    None
}

/// Finds the index of the account whose email equals the target, if any.
fn find_account_index(accounts: &Vec<Account>, email: &String) -> (r: Option<usize>)
    ensures
        r matches Some(i) ==> i < accounts@.len() && accounts@[i as int].email@ == email@,
        r is None ==> forall|j: int| 0 <= j < accounts@.len() ==> accounts@[j].email@ != email@,
{
    let mut i: usize = 0;
    while i < accounts.len()
        invariant
            i <= accounts@.len(),
            forall|j: int| 0 <= j < i ==> accounts@[j].email@ != email@,
        decreases accounts@.len() - i,
    {
        if accounts[i].email == *email {
            return Some(i);
        }
        i += 1;
    }
    None
}

} // verus!
