use vstd::prelude::*;
use vstd::string::*;

use crate::client::Client;

verus! {

/// The path of an account's full details, relative to the API's base URL.
pub open spec fn details_path_of(id: Seq<char>) -> Seq<char> {
    "accounts/"@ + id
}

/// The path of the instruments that an account may trade.
pub open spec fn instruments_path_of(id: Seq<char>) -> Seq<char> {
    details_path_of(id) + "/instruments"@
}

/// The path of an account's summary.
pub open spec fn summary_path_of(id: Seq<char>) -> Seq<char> {
    details_path_of(id) + "/summary"@
}

/// What `{:?}` writes for a string: the characters between double quotes,
/// with quotes, backslashes and control characters escaped.
pub uninterp spec fn quoted_of(s: Seq<char>) -> Seq<char>;

/// Relies on `<str as Debug>::fmt`, through `format!("{:?}")`: the text
/// depends on the characters of `s` alone.
#[verifier::external_body]
fn quoted(s: &str) -> (r: String)
    ensures
        r@ == quoted_of(s@),
{
    format!("{:?}", s)
}

/// Items written one after another, separated by a comma and a space.
pub open spec fn comma_list(items: Seq<Seq<char>>) -> Seq<char>
    decreases items.len(),
{
    if items.len() == 0 {
        Seq::empty()
    } else if items.len() == 1 {
        items[0]
    } else {
        comma_list(items.drop_last()) + ", "@ + items.last()
    }
}

/// The debug text of an account, from the debug texts of its identifier and
/// of its tags; the client is left out.
pub open spec fn account_text(id: Seq<char>, tags: Seq<Seq<char>>) -> Seq<char> {
    "Account { id: "@ + id + ", tags: ["@ + comma_list(tags) + "] }"@
}

/// The debug text of a list of accounts, from the debug text of each.
pub open spec fn accounts_text(accounts: Seq<Seq<char>>) -> Seq<char> {
    "Accounts { accounts: ["@ + comma_list(accounts) + "] }"@
}

/// The debug texts of the given strings, in order.
pub open spec fn quoted_all(items: Seq<String>) -> Seq<Seq<char>> {
    items.map_values(|t: String| quoted_of(t@))
}

/// The debug text of an account as `{:?}` writes it.
pub open spec fn account_debug_of(a: Account) -> Seq<char> {
    account_text(quoted_of(a.id@), quoted_all(a.tags@))
}

/// Joins the texts in `items`, separated by a comma and a space.
pub fn join_comma(items: &Vec<String>) -> (r: String)
    ensures
        r@ == comma_list(items@.map_values(|t: String| t@)),
{
    let ghost views = items@.map_values(|t: String| t@);
    let mut r = String::new();
    let mut i: usize = 0;
    while i < items.len()
        invariant
            i <= items.len(),
            views == items@.map_values(|t: String| t@),
            r@ == comma_list(views.take(i as int)),
        decreases items.len() - i,
    {
        if i > 0 {
            r.append(", ");
        }
        r.append(items[i].as_str());
        proof {
            assert(views.take(i + 1).drop_last() =~= views.take(i as int));
        }
        i = i + 1;
    }
    assert(views.take(i as int) =~= views);
    r
}

/// The debug text of an account, from the debug text of its identifier and
/// those of its tags.
pub fn account_debug_text(id: &str, tags: &Vec<String>) -> (r: String)
    ensures
        r@ == account_text(id@, tags@.map_values(|t: String| t@)),
{
    let mut r = String::from_str("Account { id: ");
    r.append(id);
    r.append(", tags: [");
    let list = join_comma(tags);
    r.append(list.as_str());
    r.append("] }");
    r
}

/// The debug text of a list of accounts, from the debug text of each.
pub fn accounts_debug_text(accounts: &Vec<String>) -> (r: String)
    ensures
        r@ == accounts_text(accounts@.map_values(|t: String| t@)),
{
    let mut r = String::from_str("Accounts { accounts: [");
    let list = join_comma(accounts);
    r.append(list.as_str());
    r.append("] }");
    r
}

/// No client: what an account holds until one is attached to it.
pub fn none() -> (r: Option<&'static Client>)
    ensures
        r is None,
{
    None
}

/// The debug texts of `items`, in order.
fn quoted_each(items: &Vec<String>) -> (r: Vec<String>)
    ensures
        r@.map_values(|t: String| t@) == quoted_all(items@),
{
    let mut r: Vec<String> = Vec::new();
    let mut i: usize = 0;
    while i < items.len()
        invariant
            i <= items.len(),
            r.len() == i,
            forall|j: int| 0 <= j < i ==> #[trigger] r@[j]@ == quoted_of(items@[j]@),
        decreases items.len() - i,
    {
        let q = quoted(items[i].as_str());
        r.push(q);
        i = i + 1;
    }
    assert(r@.map_values(|t: String| t@) =~= quoted_all(items@));
    r
}

/// The accounts that an API key may use, as the API lists them.
#[derive(Clone)]
pub struct Accounts<'a> {
    pub accounts: Vec<Account<'a>>,
}

/// An account: its identifier, its tags, and the client through which its
/// requests are made.
#[derive(Clone)]
pub struct Account<'a> {
    pub id: String,
    pub tags: Vec<String>,
    pub client: Option<&'a Client>,
}

impl<'a> Accounts<'a> {
    /// The accounts with `client` attached to each, in the order listed.
    pub fn with_client(&self, client: &'a Client) -> (r: Vec<Account<'a>>)
        ensures
            r.len() == self.accounts.len(),
            forall|i: int|
                0 <= i < r.len() ==> {
                    &&& #[trigger] r[i].id@ == self.accounts[i].id@
                    &&& r[i].tags@ == self.accounts[i].tags@
                    &&& r[i].client == Some(client)
                },
    {
        let mut r: Vec<Account<'a>> = Vec::new();
        let mut i: usize = 0;
        while i < self.accounts.len()
            invariant
                i <= self.accounts.len(),
                r.len() == i,
                forall|j: int|
                    0 <= j < i ==> {
                        &&& #[trigger] r[j].id@ == self.accounts[j].id@
                        &&& r[j].tags@ == self.accounts[j].tags@
                        &&& r[j].client == Some(client)
                    },
            decreases self.accounts.len() - i,
        {
            let a = &self.accounts[i];
            let tags = a.tags.clone();
            assert(tags@ =~= a.tags@);
            r.push(Account { id: a.id.clone(), tags, client: Some(client) });
            i = i + 1;
        }
        r
    }

    /// The list as `{:?}` writes it, without the accounts' clients.
    pub fn debug_string(&self) -> (r: String)
        ensures
            r@ == accounts_text(self.accounts@.map_values(|a: Account| account_debug_of(a))),
    {
        let mut texts: Vec<String> = Vec::new();
        let mut i: usize = 0;
        while i < self.accounts.len()
            invariant
                i <= self.accounts.len(),
                texts.len() == i,
                forall|j: int|
                    0 <= j < i ==> #[trigger] texts@[j]@ == account_debug_of(self.accounts@[j]),
            decreases self.accounts.len() - i,
        {
            let t = self.accounts[i].debug_string();
            texts.push(t);
            i = i + 1;
        }
        assert(texts@.map_values(|t: String| t@) =~= self.accounts@.map_values(
            |a: Account| account_debug_of(a),
        ));
        accounts_debug_text(&texts)
    }
}

impl<'a> Account<'a> {
    /// The account as `{:?}` writes it, without its client.
    pub fn debug_string(&self) -> (r: String)
        ensures
            r@ == account_debug_of(*self),
    {
        let id = quoted(self.id.as_str());
        let tags = quoted_each(&self.tags);
        account_debug_text(id.as_str(), &tags)
    }

    /// The path of this account's details.
    pub fn details_path(&self) -> (r: String)
        ensures
            r@ == details_path_of(self.id@),
    {
        let mut r = String::from_str("accounts/");
        r.append(self.id.as_str());
        r
    }

    /// The path of the instruments that this account may trade.
    pub fn instruments_path(&self) -> (r: String)
        ensures
            r@ == instruments_path_of(self.id@),
    {
        let mut r = self.details_path();
        r.append("/instruments");
        r
    }

    /// The path of this account's summary.
    pub fn summary_path(&self) -> (r: String)
        ensures
            r@ == summary_path_of(self.id@),
    {
        let mut r = self.details_path();
        r.append("/summary");
        r
    }

    /// The client that this account's requests go through.
    pub fn client(&self) -> (r: &'a Client)
        requires
            self.client is Some,
        ensures
            r == self.client->0,
    {
        self.client.unwrap()
    }
}

} // verus!
