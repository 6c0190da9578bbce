use crate::account::{AccountKey, KeyView};
use vstd::prelude::*;

verus! {

/// The origin under which accounts of the single Twitter instance are keyed.
pub const TWITTER_ORIGIN: &'static str = "https://twitter.com";

/// One configured account, with the credentials of its platform.
pub enum Account {
    AtProtocol { origin: String, identifier: String, password: String },
    Mastodon { origin: String, access_token: String },
    Misskey { origin: String, access_token: String },
    Twitter {
        api_key: String,
        api_key_secret: String,
        access_token: String,
        access_token_secret: String,
    },
}

impl Account {
    /// The key under which this account's state is kept: its origin and the
    /// identifier it logs in with (the access token where the platform has no
    /// other identifier).
    pub open spec fn key(&self) -> KeyView {
        match self {
            Account::AtProtocol { origin, identifier, .. } => KeyView {
                origin: origin@,
                identifier: identifier@,
            },
            Account::Mastodon { origin, access_token } => KeyView {
                origin: origin@,
                identifier: access_token@,
            },
            Account::Misskey { origin, access_token } => KeyView {
                origin: origin@,
                identifier: access_token@,
            },
            Account::Twitter { access_token, .. } => KeyView {
                origin: TWITTER_ORIGIN@,
                identifier: access_token@,
            },
        }
    }

    pub fn to_account_key(&self) -> (r: AccountKey)
        ensures
            r@ == self.key(),
    {
        match self {
            Account::AtProtocol { origin, identifier, .. } => AccountKey {
                origin: origin.clone(),
                identifier: identifier.clone(),
            },
            Account::Mastodon { origin, access_token } => AccountKey {
                origin: origin.clone(),
                identifier: access_token.clone(),
            },
            Account::Misskey { origin, access_token } => AccountKey {
                origin: origin.clone(),
                identifier: access_token.clone(),
            },
            Account::Twitter { access_token, .. } => AccountKey {
                origin: TWITTER_ORIGIN.to_owned(),
                identifier: access_token.clone(),
            },
        }
    }
}

/// One configured source account and the accounts it is mirrored to.
pub struct User {
    pub src: Account,
    pub dsts: Vec<Account>,
}

impl User {
    /// The keys of the destination accounts, in configured order.
    pub fn dst_account_keys(&self) -> (r: Vec<AccountKey>)
        ensures
            r@.len() == self.dsts@.len(),
            forall|i: int| 0 <= i < r@.len() ==> #[trigger] r@[i]@ == self.dsts@[i].key(),
    {
        let mut keys: Vec<AccountKey> = Vec::new();
        let mut i: usize = 0;
        while i < self.dsts.len()
            invariant
                i <= self.dsts@.len(),
                keys@.len() == i,
                forall|j: int| 0 <= j < i ==> #[trigger] keys@[j]@ == self.dsts@[j].key(),
            decreases self.dsts@.len() - i,
        {
            keys.push(self.dsts[i].to_account_key());
            i = i + 1;
        }
        keys
    }
}

/// Every configured source account with its destinations.
pub struct Config {
    pub users: Vec<User>,
}

} // verus!
