//! What holds of the configuration and its accounts.

use vstd::prelude::*;
use crate::accounts::AccountConfig;
use crate::config::{
    configured, first_non_empty, place_of, with_account, AuthConfig, GameConfig,
};

verus! {

/// The game directory is the first configured one that is not empty; where all are
/// empty, or none is configured, it is called `.minecraft`.
pub proof fn law_first_directory_counts(game: GameConfig, path: Seq<char>)
    requires
        game.is_minecraft_path(path),
    ensures
        game.minecraft_path matches Some(paths) ==> forall|i: int|
            0 <= i < paths@.len() && (#[trigger] paths@[i])@.len() > 0 && (forall|j: int|
                0 <= j < i ==> (#[trigger] paths@[j])@.len() == 0) ==> path == paths@[i]@,
        (game.minecraft_path matches Some(paths) ==> forall|i: int|
            0 <= i < paths@.len() ==> (#[trigger] paths@[i])@.len() == 0) ==> path.len() >= 10
            && path.skip(path.len() - 10) == ".minecraft"@,
{
    reveal_strlit(".minecraft");
    if let Some(paths) = game.minecraft_path {
        lemma_first_path(paths@);
    }
    if configured(game.minecraft_path) is None {
        crate::paths::law_default_is_called_minecraft(path);
    }
}

/// The Java runtime is the first configured one that is not empty; where all are empty,
/// or none is configured, it is `java` or `javaw.exe`.
pub proof fn law_first_java_counts(game: GameConfig, path: Seq<char>)
    requires
        game.is_java_path(path),
    ensures
        game.java_path matches Some(paths) ==> forall|i: int|
            0 <= i < paths@.len() && (#[trigger] paths@[i])@.len() > 0 && (forall|j: int|
                0 <= j < i ==> (#[trigger] paths@[j])@.len() == 0) ==> path == paths@[i]@,
        (game.java_path matches Some(paths) ==> forall|i: int|
            0 <= i < paths@.len() ==> (#[trigger] paths@[i])@.len() == 0) ==> path == "java"@
            || path == "javaw.exe"@,
{
    if let Some(paths) = game.java_path {
        lemma_first_path(paths@);
    }
}

/// The account in use is the selected one, or the last where the selection lies beyond
/// the list.
pub proof fn law_selected_account_is_in_use(auth: AuthConfig)
    ensures
        auth.accounts matches Some(accounts) ==> auth.known() == accounts@,
        auth.accounts is None ==> auth.known().len() == 0,
        auth.accounts matches Some(accounts) ==> (auth.selected_account_index < accounts@.len()
            ==> auth.known()[auth.current()] == accounts@[auth.selected_account_index as int]),
        auth.accounts matches Some(accounts) ==> (accounts@.len() > 0
            && auth.selected_account_index >= accounts@.len() ==> auth.known()[auth.current()]
            == accounts@.last()),
{
}

/// Storing an account puts it where the first entry of the same account was, or last
/// where there is none, and leaves every other entry where it is.
pub proof fn law_account_takes_its_place(
    accounts: Seq<AccountConfig>,
    account: AccountConfig,
    at: int,
)
    requires
        0 <= at <= accounts.len(),
        forall|j: int| 0 <= j < at ==> !(#[trigger] accounts[j]).is_same(account),
        at < accounts.len() ==> accounts[at].is_same(account),
    ensures
        with_account(accounts, account).len() == if at < accounts.len() {
            accounts.len()
        } else {
            accounts.len() + 1
        },
        with_account(accounts, account)[at] == account,
        forall|i: int|
            0 <= i < accounts.len() && i != at ==> #[trigger] with_account(accounts, account)[i]
                == accounts[i],
{
    lemma_place_found(accounts, account, at);
}

/// The place of an account is the first that matches, or none.
proof fn lemma_place_found(accounts: Seq<AccountConfig>, account: AccountConfig, at: int)
    requires
        0 <= at <= accounts.len(),
        forall|j: int| 0 <= j < at ==> !(#[trigger] accounts[j]).is_same(account),
        at < accounts.len() ==> accounts[at].is_same(account),
    ensures
        place_of(accounts, account) == if at < accounts.len() {
            Some(at)
        } else {
            None
        },
    decreases accounts.len(),
{
    if accounts.len() > 0 && at > 0 {
        let rest = accounts.drop_first();
        assert(!accounts[0].is_same(account));
        assert forall|j: int| 0 <= j < at - 1 implies !(#[trigger] rest[j]).is_same(account) by {
            assert(rest[j] == accounts[j + 1]);
        }
        lemma_place_found(rest, account, at - 1);
    }
}

/// The first path that is not empty is the one that counts, and an earlier empty one
/// never is.
pub proof fn lemma_first_path(texts: Seq<String>)
    ensures
        forall|i: int|
            0 <= i < texts.len() && (#[trigger] texts[i])@.len() > 0 && (forall|j: int|
                0 <= j < i ==> (#[trigger] texts[j])@.len() == 0) ==> first_non_empty(texts)
                == Some(texts[i]@),
        (forall|i: int| 0 <= i < texts.len() ==> (#[trigger] texts[i])@.len() == 0)
            ==> first_non_empty(texts) is None,
    decreases texts.len(),
{
    if texts.len() > 0 {
        let rest = texts.drop_first();
        lemma_first_path(rest);
        if texts[0]@.len() == 0 {
            assert forall|i: int|
                0 <= i < texts.len() && (#[trigger] texts[i])@.len() > 0 && (forall|j: int|
                    0 <= j < i ==> (#[trigger] texts[j])@.len() == 0) implies first_non_empty(texts)
                == Some(texts[i]@) by {
                assert(rest[i - 1] == texts[i]);
                assert forall|j: int| 0 <= j < i - 1 implies (#[trigger] rest[j])@.len() == 0 by {
                    assert(rest[j] == texts[j + 1]);
                }
            }
            if forall|i: int| 0 <= i < texts.len() ==> (#[trigger] texts[i])@.len() == 0 {
                assert forall|i: int| 0 <= i < rest.len() implies (#[trigger] rest[i])@.len() == 0 by {
                    assert(rest[i] == texts[i + 1]);
                }
            }
        }
    }
}

} // verus!
