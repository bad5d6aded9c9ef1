//! The overview: every server with its crawl progress, and under it the
//! server's accounts, one row each.

use vstd::prelude::*;
use crate::account::{aggregate_status, DisplayFacts, ScrapbookInfo, StatusRead};
use crate::crawl::CrawlingStatus;
use crate::instant::{read_clock, Timestamp};
use crate::lexical::{chars_of, lemma_text_before_asymmetric, lemma_text_before_irreflexive};
use crate::names::{title_cased, titlecase_of};
use crate::order::{
    is_listing_order, key_texts, lemma_listed_positions_exist, lemma_listing_order_is_unique,
    listing_order, positions, ranks_before,
};

verus! {

/// One account as the dashboard sees it in one frame.
#[derive(Clone, Debug, PartialEq, Eq)]
pub struct Account {
    /// The character's name as the game spells it.
    pub name: String,
    /// What locking the account's status cell gave.
    pub status: StatusRead,
    /// The account's scrapbook settings, if it has any.
    pub scrapbook_info: Option<ScrapbookInfo>,
}

/// One server as the dashboard sees it in one frame.
#[derive(Clone, Debug, PartialEq, Eq)]
pub struct Server {
    /// The key that identifies the server and by which servers are ordered.
    pub ident: String,
    /// The state of the server's crawl.
    pub crawling: CrawlingStatus,
    /// The server's accounts, in no particular order.
    pub accounts: Vec<Account>,
}

/// One line of the overview: what is shown for one account.
#[derive(Clone, Debug, PartialEq, Eq)]
pub struct AccountRow {
    /// The position of the account in its server's list of accounts.
    pub account: usize,
    /// The account's name in title case.
    pub display_name: String,
    /// The account's status label, countdown and auto-battle marker.
    pub facts: DisplayFacts,
}

/// One group of the overview: a server's progress label, and below it the
/// rows of the server's accounts.
#[derive(Clone, Debug, PartialEq, Eq)]
pub struct ServerSummary {
    /// The position of the server in the list of servers.
    pub server: usize,
    /// The label for the server's crawl.
    pub progress: String,
    /// The rows of the server's accounts, ordered by name.
    pub rows: Vec<AccountRow>,
}

/// The names of a list of accounts.
pub open spec fn account_names(accounts: Seq<Account>) -> Seq<Seq<char>> {
    Seq::new(accounts.len(), |i: int| accounts[i].name@)
}

/// The identity keys of a list of servers.
pub open spec fn server_idents(servers: Seq<Server>) -> Seq<Seq<char>> {
    Seq::new(servers.len(), |i: int| servers[i].ident@)
}

/// For each row, the position of the account it shows.
pub open spec fn row_accounts(rows: Seq<AccountRow>) -> Seq<int> {
    Seq::new(rows.len(), |i: int| rows[i].account as int)
}

/// For each group, the position of the server it shows.
pub open spec fn summary_servers(summaries: Seq<ServerSummary>) -> Seq<int> {
    Seq::new(summaries.len(), |i: int| summaries[i].server as int)
}

impl AccountRow {
    /// Whether this is the row for `account` at the instant `now`, given
    /// that `shown` is the account's name in title case.
    pub open spec fn shows_as(self, account: Account, shown: Seq<char>, now: Timestamp) -> bool {
        &&& self.display_name@ == shown
        &&& self.facts.describes(account.status, account.scrapbook_info, now)
    }

    /// Whether this is the row for `account` at the instant `now`.
    pub open spec fn shows(self, account: Account, now: Timestamp) -> bool {
        self.shows_as(account, titlecase_of(account.name@), now)
    }

    /// Whether this row and `other` look the same on the dashboard: the same
    /// name and the same facts.
    pub open spec fn same_display(self, other: AccountRow) -> bool {
        &&& self.display_name@ == other.display_name@
        &&& self.facts.same_as(other.facts)
    }
}

/// Whether `first` and `second` are the same rows: in every position they
/// show the account at the same place in the list, and look the same.
pub open spec fn same_rows(first: Seq<AccountRow>, second: Seq<AccountRow>) -> bool {
    &&& first.len() == second.len()
    &&& forall|i: int|
        0 <= i < first.len() ==> {
            &&& (#[trigger] first[i]).account == second[i].account
            &&& first[i].same_display(second[i])
        }
}

/// Whether `rows` are the rows of `accounts` at the instant `now`: one row
/// for each account, ordered by account name, accounts of the same name in
/// the order they were given in.
pub open spec fn lists_accounts(rows: Seq<AccountRow>, accounts: Seq<Account>, now: Timestamp) -> bool {
    &&& is_listing_order(account_names(accounts), row_accounts(rows))
    &&& forall|i: int|
        0 <= i < rows.len() ==> (#[trigger] rows[i]).shows(accounts[rows[i].account as int], now)
}

/// Whether no two of `accounts` have the same name.
pub open spec fn names_differ(accounts: Seq<Account>) -> bool {
    forall|i: int, j: int|
        0 <= i < j < accounts.len() ==> #[trigger] accounts[i].name@ != #[trigger] accounts[j].name@
}

impl ServerSummary {
    /// Whether this is the group for `server` at the instant `now`: it
    /// carries the server's progress label and the rows of the server's
    /// accounts.
    pub open spec fn summarizes(self, server: Server, now: Timestamp) -> bool {
        &&& self.progress@ == server.crawling.progress_text()
        &&& lists_accounts(self.rows@, server.accounts@, now)
    }
}

/// Whether `summaries` is the overview of `servers` at the instant `now`:
/// one group for each server, the groups ordered by the servers' identity
/// keys.
pub open spec fn is_overview(
    summaries: Seq<ServerSummary>,
    servers: Seq<Server>,
    now: Timestamp,
) -> bool {
    &&& is_listing_order(server_idents(servers), summary_servers(summaries))
    &&& forall|i: int|
        0 <= i < summaries.len() ==> (#[trigger] summaries[i]).summarizes(
            servers[summaries[i].server as int],
            now,
        )
}

/// Puts together the row of the account at position `index`, whose name in
/// title case is `shown`.
pub fn account_row(index: usize, shown: String, account: &Account, now: &Timestamp) -> (row:
    AccountRow)
    ensures
        row.account == index,
        row.shows_as(*account, shown@, *now),
{
    AccountRow {
        account: index,
        display_name: shown,
        facts: aggregate_status(&account.status, &account.scrapbook_info, now),
    }
}

/// Builds the rows of `accounts` at the instant `now`, ordered by account
/// name.
pub fn account_rows(accounts: &Vec<Account>, now: &Timestamp) -> (rows: Vec<AccountRow>)
    ensures
        lists_accounts(rows@, accounts@, *now),
{
    let mut names: Vec<Vec<char>> = Vec::new();
    let mut i: usize = 0;
    while i < accounts.len()
        invariant
            i <= accounts.len(),
            names.len() == i,
            forall|j: int| 0 <= j < i ==> (#[trigger] names[j])@ == accounts[j].name@,
        decreases accounts.len() - i,
    {
        names.push(chars_of(accounts[i].name.as_str()));
        i += 1;
    }
    assert(key_texts(names@) =~= account_names(accounts@));
    let order = listing_order(&names);
    proof {
        lemma_listed_positions_exist(account_names(accounts@), accounts.len() as int, order@);
    }
    let mut rows: Vec<AccountRow> = Vec::new();
    let mut p: usize = 0;
    while p < order.len()
        invariant
            p <= order.len(),
            rows.len() == p,
            forall|q: int| 0 <= q < order.len() ==> (#[trigger] order[q]) < accounts.len(),
            is_listing_order(account_names(accounts@), positions(order@)),
            forall|q: int| 0 <= q < p ==> (#[trigger] rows[q]).account == order[q],
            forall|q: int|
                0 <= q < p ==> (#[trigger] rows[q]).shows(
                    accounts[rows[q].account as int],
                    *now,
                ),
        decreases order.len() - p,
    {
        let index: usize = order[p];
        let account = &accounts[index];
        let shown = title_cased(account.name.as_str());
        rows.push(account_row(index, shown, account, now));
        p += 1;
    }
    assert(row_accounts(rows@) =~= positions(order@));
    rows
}

/// Summarizes the server at position `index` at the instant `now`.
pub fn summarize_server(index: usize, server: &Server, now: &Timestamp) -> (summary:
    ServerSummary)
    ensures
        summary.server == index,
        summary.summarizes(*server, *now),
{
    ServerSummary {
        server: index,
        progress: server.crawling.progress_label(),
        rows: account_rows(&server.accounts, now),
    }
}

/// Builds the overview of `servers` at the instant `now`. Nothing in the
/// input makes this fail: an account whose lock is poisoned gets an error
/// row and the others are shown as usual.
pub fn summarize_overview(servers: &Vec<Server>, now: &Timestamp) -> (summaries: Vec<
    ServerSummary,
>)
    ensures
        is_overview(summaries@, servers@, *now),
{
    let mut idents: Vec<Vec<char>> = Vec::new();
    let mut i: usize = 0;
    while i < servers.len()
        invariant
            i <= servers.len(),
            idents.len() == i,
            forall|j: int| 0 <= j < i ==> (#[trigger] idents[j])@ == servers[j].ident@,
        decreases servers.len() - i,
    {
        idents.push(chars_of(servers[i].ident.as_str()));
        i += 1;
    }
    assert(key_texts(idents@) =~= server_idents(servers@));
    let order = listing_order(&idents);
    proof {
        lemma_listed_positions_exist(server_idents(servers@), servers.len() as int, order@);
    }
    let mut summaries: Vec<ServerSummary> = Vec::new();
    let mut p: usize = 0;
    while p < order.len()
        invariant
            p <= order.len(),
            summaries.len() == p,
            forall|q: int| 0 <= q < order.len() ==> (#[trigger] order[q]) < servers.len(),
            is_listing_order(server_idents(servers@), positions(order@)),
            forall|q: int| 0 <= q < p ==> (#[trigger] summaries[q]).server == order[q],
            forall|q: int|
                0 <= q < p ==> (#[trigger] summaries[q]).summarizes(
                    servers[summaries[q].server as int],
                    *now,
                ),
        decreases order.len() - p,
    {
        let index: usize = order[p];
        summaries.push(summarize_server(index, &servers[index], now));
        p += 1;
    }
    assert(summary_servers(summaries@) =~= positions(order@));
    summaries
}

/// Reads the wall clock once and builds the overview of `servers` at that
/// instant, so that every countdown in it is counted from the same moment.
pub fn summarize_overview_now(servers: &Vec<Server>) -> (summaries: Vec<ServerSummary>)
    ensures
        exists|now: Timestamp| is_overview(summaries@, servers@, now),
{
    let now = read_clock();
    summarize_overview(servers, &now)
}

proof fn lemma_rows_agree_up_to(
    first: Seq<Account>,
    second: Seq<Account>,
    first_order: Seq<int>,
    second_order: Seq<int>,
    m: int,
)
    requires
        first.to_multiset() == second.to_multiset(),
        names_differ(first),
        names_differ(second),
        is_listing_order(account_names(first), first_order),
        is_listing_order(account_names(second), second_order),
        0 <= m <= first.len(),
    ensures
        first.len() == second.len(),
        forall|j: int|
            0 <= j < m ==> first[first_order[j]] == second[second_order[j]],
    decreases m,
{
    first.to_multiset_ensures();
    second.to_multiset_ensures();
    if m > 0 {
        lemma_rows_agree_up_to(first, second, first_order, second_order, m - 1);
        let i = m - 1;
        let x = first[first_order[i]];
        let y = second[second_order[i]];
        if x != y {
            let first_names = account_names(first);
            let second_names = account_names(second);
            lemma_text_before_irreflexive(x.name@);
            lemma_text_before_irreflexive(y.name@);
            lemma_text_before_asymmetric(x.name@, y.name@);
            // where the other list shows `x`
            assert(first.contains(x));
            assert(first.to_multiset().count(x) > 0);
            assert(second.to_multiset().count(x) > 0);
            assert(second.contains(x));
            let xs = choose|k: int| 0 <= k < second.len() && second[k] == x;
            assert(second_order.contains(xs));
            let q = choose|q: int| 0 <= q < second_order.len() && second_order[q] == xs;
            // where this list shows `y`
            assert(second.contains(y));
            assert(second.to_multiset().count(y) > 0);
            assert(first.to_multiset().count(y) > 0);
            assert(first.contains(y));
            let ys = choose|k: int| 0 <= k < first.len() && first[k] == y;
            assert(first_order.contains(ys));
            let p = choose|p: int| 0 <= p < first_order.len() && first_order[p] == ys;
            if q < i {
                assert(ranks_before(first_names, first_order[q], first_order[i]));
            } else {
                assert(ranks_before(second_names, second_order[i], second_order[q]));
            }
            if p < i {
                assert(ranks_before(second_names, second_order[p], second_order[i]));
            } else {
                assert(ranks_before(first_names, first_order[i], first_order[p]));
            }
        }
    }
}

/// The rows of a server's accounts do not depend on the order in which the
/// accounts are handed over. Where no two accounts have the same name, two
/// lists that hold the same accounts give the same rows in the same order:
/// row for row they show the same account, under the same name, with the
/// same label, countdown and auto-battle marker.
pub proof fn lemma_rows_ignore_given_order(
    first: Seq<Account>,
    second: Seq<Account>,
    first_rows: Seq<AccountRow>,
    second_rows: Seq<AccountRow>,
    now: Timestamp,
)
    requires
        first.to_multiset() == second.to_multiset(),
        names_differ(first),
        names_differ(second),
        lists_accounts(first_rows, first, now),
        lists_accounts(second_rows, second, now),
    ensures
        first_rows.len() == second_rows.len(),
        forall|i: int|
            0 <= i < first_rows.len() ==> first[first_rows[i].account as int]
                == second[second_rows[i].account as int],
        forall|i: int|
            0 <= i < first_rows.len() ==> (#[trigger] first_rows[i]).same_display(second_rows[i]),
{
    lemma_rows_agree_up_to(
        first,
        second,
        row_accounts(first_rows),
        row_accounts(second_rows),
        first.len() as int,
    );
    assert forall|i: int| 0 <= i < first_rows.len() implies first[first_rows[i].account as int]
        == second[second_rows[i].account as int] by {
        assert(row_accounts(first_rows)[i] == first_rows[i].account);
        assert(row_accounts(second_rows)[i] == second_rows[i].account);
    }
}

/// The rows of a list of accounts at one instant are a function of the
/// list: two sets of rows for the same accounts name the same account in
/// every position and show the same for it.
pub proof fn lemma_rows_are_repeatable(
    accounts: Seq<Account>,
    first_rows: Seq<AccountRow>,
    second_rows: Seq<AccountRow>,
    now: Timestamp,
)
    requires
        lists_accounts(first_rows, accounts, now),
        lists_accounts(second_rows, accounts, now),
    ensures
        same_rows(first_rows, second_rows),
{
    lemma_listing_order_is_unique(
        account_names(accounts),
        row_accounts(first_rows),
        row_accounts(second_rows),
    );
    assert forall|i: int| 0 <= i < first_rows.len() implies first_rows[i].account
        == second_rows[i].account by {
        assert(row_accounts(first_rows)[i] == row_accounts(second_rows)[i]);
    }
}

/// The overview of a list of servers at one instant is a function of the
/// list: two overviews of the same servers show the same server in every
/// position, with the same progress label and the same rows.
pub proof fn lemma_overview_is_repeatable(
    servers: Seq<Server>,
    first: Seq<ServerSummary>,
    second: Seq<ServerSummary>,
    now: Timestamp,
)
    requires
        is_overview(first, servers, now),
        is_overview(second, servers, now),
    ensures
        first.len() == second.len(),
        forall|i: int|
            0 <= i < first.len() ==> {
                &&& (#[trigger] first[i]).server == second[i].server
                &&& first[i].progress@ == second[i].progress@
                &&& same_rows(first[i].rows@, second[i].rows@)
            },
{
    lemma_listing_order_is_unique(
        server_idents(servers),
        summary_servers(first),
        summary_servers(second),
    );
    assert forall|i: int| 0 <= i < first.len() implies {
        &&& (#[trigger] first[i]).server == second[i].server
        &&& first[i].progress@ == second[i].progress@
        &&& same_rows(first[i].rows@, second[i].rows@)
    } by {
        assert(summary_servers(first)[i] == summary_servers(second)[i]);
        assert(second[i].summarizes(servers[second[i].server as int], now));
        lemma_rows_are_repeatable(
            servers[first[i].server as int].accounts@,
            first[i].rows@,
            second[i].rows@,
            now,
        );
    }
}

} // verus!
