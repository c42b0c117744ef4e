//! The behavioural laws of the layer, stated over the store model's spec
//! functions and proved once and for all.

use vstd::prelude::*;

use crate::credential::{bcrypt_hash_wf, bcrypt_matches};
use crate::store::{
    account_index, has_account, has_message, has_user, login_of, message_index, stored_hash,
    user_index, AccountV, MessageV, UserV,
};

verus! {

/// Registering valid credentials and then checking the same ones yields
/// true. The hypotheses are exactly what `Store::register_user` ensures of a
/// successful registration: the email was fresh, the accounts grew by one
/// record carrying it, and the stored hash is well formed and matches the
/// password. The conclusion is the login outcome `Store::check_login`
/// ensures.
pub proof fn lemma_register_then_check_login(
    pre: Seq<AccountV>,
    post: Seq<AccountV>,
    email: Seq<char>,
    password: Seq<char>,
)
    requires
        !has_account(pre, email),
        post.len() == pre.len() + 1,
        post.subrange(0, pre.len() as int) == pre,
        post.last().email == email,
        bcrypt_hash_wf(post.last().hash),
        bcrypt_matches(password, post.last().hash),
    ensures
        login_of(post, email, password) == Some(true),
{
    let n = pre.len() as int;
    assert(post[n] == post.last());
    assert(has_account(post, email));
    let k = account_index(post, email);
    assert(0 <= k < post.len() && post[k].email == email);
    if k < n {
        assert(post.subrange(0, n)[k] == post[k]);
        assert(post[k] == pre[k]);
        assert(false);
    }
    assert(stored_hash(post, email) == post.last().hash);
}

/// A login attempt against a present account whose stored hash is well
/// formed is never an error: it yields exactly the verification verdict, so
/// an incorrect password — one the stored hash does not match — yields
/// false.
pub proof fn lemma_login_wrong_password_is_false_not_error(
    accounts: Seq<AccountV>,
    email: Seq<char>,
    password: Seq<char>,
)
    requires
        has_account(accounts, email),
        bcrypt_hash_wf(stored_hash(accounts, email)),
    ensures
        login_of(accounts, email, password) == Some(
            bcrypt_matches(password, stored_hash(accounts, email)),
        ),
        !bcrypt_matches(password, stored_hash(accounts, email)) ==> login_of(
            accounts,
            email,
            password,
        ) == Some(false),
{
}

/// A login attempt for an email no account carries yields false, not an
/// error, whatever the password.
pub proof fn lemma_login_unknown_email_is_false(
    accounts: Seq<AccountV>,
    email: Seq<char>,
    password: Seq<char>,
)
    requires
        !has_account(accounts, email),
    ensures
        login_of(accounts, email, password) == Some(false),
{
}

/// Deleting a user succeeds exactly once: when the ids are unique (as the
/// store invariant guarantees) and the id is present, removing its record
/// leaves no record carrying that id, so a second delete reports false.
pub proof fn lemma_delete_user_exactly_once(users: Seq<UserV>, id: int)
    requires
        forall|i: int, j: int| 0 <= i < j < users.len() ==> users[i].id != users[j].id,
        has_user(users, id),
    ensures
        !has_user(users.remove(user_index(users, id)), id),
{
    let k = user_index(users, id);
    assert(0 <= k < users.len() && users[k].id == id);
    let removed = users.remove(k);
    users.remove_ensures(k);
    if has_user(removed, id) {
        let t = choose|t: int| 0 <= t < removed.len() && removed[t].id == id;
        if t < k {
            assert(removed[t] == users[t]);
            assert(users[t].id != users[k].id);
        } else {
            assert(removed[t] == users[t + 1]);
            assert(users[k].id != users[t + 1].id);
        }
        assert(false);
    }
}

/// The same, for messages.
pub proof fn lemma_delete_message_exactly_once(messages: Seq<MessageV>, id: int)
    requires
        forall|i: int, j: int| 0 <= i < j < messages.len() ==> messages[i].id != messages[j].id,
        has_message(messages, id),
    ensures
        !has_message(messages.remove(message_index(messages, id)), id),
{
    let k = message_index(messages, id);
    assert(0 <= k < messages.len() && messages[k].id == id);
    let removed = messages.remove(k);
    messages.remove_ensures(k);
    if has_message(removed, id) {
        let t = choose|t: int| 0 <= t < removed.len() && removed[t].id == id;
        if t < k {
            assert(removed[t] == messages[t]);
            assert(messages[t].id != messages[k].id);
        } else {
            assert(removed[t] == messages[t + 1]);
            assert(messages[k].id != messages[t + 1].id);
        }
        assert(false);
    }
}

/// Messages whose creation stamps strictly increase in creation order come
/// out strictly newest-first when the sequence is reversed: what was created
/// last stands first. In particular, creations A then B then C list as C, B,
/// A.
pub proof fn lemma_reversed_messages_newest_first(messages: Seq<MessageV>)
    requires
        forall|i: int, j: int|
            0 <= i < j < messages.len() ==> messages[i].created_at < messages[j].created_at,
    ensures
        forall|i: int, j: int|
            0 <= i < j < messages.reverse().len() ==> messages.reverse()[i].created_at
                > messages.reverse()[j].created_at,
{
    let rev = messages.reverse();
    assert forall|i: int, j: int|
        0 <= i < j < rev.len() implies rev[i].created_at > rev[j].created_at by {
        let n = messages.len();
        assert(rev[i] == messages[n - 1 - i]);
        assert(rev[j] == messages[n - 1 - j]);
        assert(messages[n - 1 - j].created_at < messages[n - 1 - i].created_at);
    }
}

} // verus!
