//! The compute side of the account endpoints whose data lives in the
//! database: search-pattern validation and escaping, the projection of
//! stored users to what may be shared, and the small decisions around the
//! transaction listing and the username update.

use vstd::prelude::*;
use vstd::string::StringSliceAdditionalSpecFns;
use crate::messages::Currency;
use crate::requests::{byte_len, RequestError};

verus! {

/// A search fragment shorter than this many bytes is refused.
pub const MINIMUM_PATTERN_LENGTH: usize = 3;

/// How one byte of a search fragment reaches the LIKE pattern: the two
/// wildcards gain a leading backslash, everything else passes through.
pub open spec fn escape_byte(b: u8) -> Seq<u8> {
    if b == 37 || b == 95 {
        seq![92u8, b]
    } else {
        seq![b]
    }
}

/// The LIKE-escaped form of a byte string.
pub open spec fn escape_like(s: Seq<u8>) -> Seq<u8>
    decreases s.len(),
{
    if s.len() == 0 {
        Seq::empty()
    } else {
        escape_byte(s[0]) + escape_like(s.drop_first())
    }
}

/// Escaping distributes over concatenation.
pub proof fn lemma_escape_like_append(s: Seq<u8>, t: Seq<u8>)
    ensures
        escape_like(s + t) == escape_like(s) + escape_like(t),
    decreases s.len(),
{
    if s.len() == 0 {
        assert(s + t =~= t);
        assert(escape_like(s) + escape_like(t) =~= escape_like(t));
    } else {
        assert((s + t).len() > 0);
        assert((s + t)[0] == s[0]);
        assert((s + t).drop_first() =~= s.drop_first() + t);
        lemma_escape_like_append(s.drop_first(), t);
        assert(escape_like(s + t) == escape_byte(s[0]) + (escape_like(s.drop_first())
            + escape_like(t)));
        assert(escape_byte(s[0]) + (escape_like(s.drop_first()) + escape_like(t)) =~= (escape_byte(
            s[0],
        ) + escape_like(s.drop_first())) + escape_like(t));
    }
}

/// Escapes the SQL LIKE wildcards in a search fragment: `%` and `_` each
/// gain a leading backslash, byte for byte as `escape_like` lays it out.
pub fn escape_like_pattern(text: &str) -> (out: Vec<u8>)
    ensures
        out@ == escape_like(text.spec_bytes()),
{
    let bytes = text.as_bytes();
    let mut out: Vec<u8> = Vec::new();
    let mut i: usize = 0;
    while i < bytes.len()
        invariant
            bytes@ == text.spec_bytes(),
            i <= bytes@.len(),
            out@ == escape_like(bytes@.take(i as int)),
        decreases bytes@.len() - i,
    {
        let b = bytes[i];
        if b == 37 || b == 95 {
            out.push(92);
            out.push(b);
        } else {
            out.push(b);
        }
        proof {
            let prefix = bytes@.take(i as int);
            let one = seq![bytes@[i as int]];
            assert(bytes@.take(i as int + 1) =~= prefix + one);
            lemma_escape_like_append(prefix, one);
            assert(one.drop_first() =~= Seq::<u8>::empty());
            assert(one[0] == b);
            assert(escape_like(one) == escape_byte(b) + escape_like(Seq::<u8>::empty()));
            assert(escape_byte(b) + escape_like(Seq::<u8>::empty()) =~= escape_byte(b));
            assert(out@ =~= escape_like(prefix) + escape_byte(b));
        }
        i += 1;
    }
    proof {
        assert(bytes@.take(bytes@.len() as int) =~= bytes@);
    }
    out
}

/// The search endpoint's validation and escaping in one step: a fragment
/// shorter than `MINIMUM_PATTERN_LENGTH` bytes is refused; otherwise the
/// LIKE-escaped bytes of the fragment come back, ready for the lookup.
pub fn prepare_user_search(text: &str) -> (r: Result<Vec<u8>, RequestError>)
    ensures
        byte_len(text@) < MINIMUM_PATTERN_LENGTH ==> r == Err::<Vec<u8>, RequestError>(
            RequestError::InvalidDataSupplied,
        ),
        byte_len(text@) >= MINIMUM_PATTERN_LENGTH ==> (r matches Ok(out) && out@ == escape_like(
            text.spec_bytes(),
        )),
{
    if text.len() < MINIMUM_PATTERN_LENGTH {
        return Err(RequestError::InvalidDataSupplied);
    }
    Ok(escape_like_pattern(text))
}

/// The search endpoint's client fields.
#[derive(Debug, PartialEq)]
pub struct SearchUserParams {
    pub text: String,
}

/// The username-update endpoint's client fields.
#[derive(Debug, PartialEq)]
pub struct UpdateUsernameData {
    pub username: String,
}

/// The transaction-listing endpoint's client fields.
#[derive(Debug, PartialEq)]
pub struct TransactionsParams {
    pub from: Option<i64>,
    pub to: Option<i64>,
    pub currency: Option<Currency>,
}

/// A stored user row, as the search path reads it.
#[derive(Clone, Debug, PartialEq)]
pub struct UserRecord {
    pub uid: u64,
    pub username: String,
    pub password_hash: String,
}

/// The caller-visible projection of a stored user: everything else stays
/// behind.
#[derive(Debug, PartialEq)]
pub struct ShareableUser {
    pub uid: u64,
    pub username: String,
}

/// Strips each found row down to its shareable fields, in order.
pub fn to_shareable(users: &Vec<UserRecord>) -> (r: Vec<ShareableUser>)
    ensures
        r@.len() == users@.len(),
        forall|i: int| 0 <= i < users@.len() ==> r@[i].uid == users@[i].uid && r@[i].username
            == users@[i].username,
{
    let mut r: Vec<ShareableUser> = Vec::new();
    let mut i: usize = 0;
    while i < users.len()
        invariant
            i <= users@.len(),
            r@.len() == i,
            forall|j: int| 0 <= j < i ==> r@[j].uid == users@[j].uid && r@[j].username
                == users@[j].username,
        decreases users@.len() - i,
    {
        r.push(ShareableUser { uid: users[i].uid, username: users[i].username.clone() });
        i += 1;
    }
    r
}

/// Which read the transaction listing performs.
#[derive(Clone, Copy, Debug, PartialEq, Eq, Structural)]
pub enum TransactionQuery {
    /// Every transaction of the account holder in the window.
    All,
    /// Only the transactions in this currency.
    ByCurrency(Currency),
}

/// A named currency narrows the listing; none lists everything.
pub fn select_transaction_query(currency: Option<Currency>) -> (q: TransactionQuery)
    ensures
        q == match currency {
            Some(c) => TransactionQuery::ByCurrency(c),
            None => TransactionQuery::All,
        },
{
    match currency {
        Some(c) => TransactionQuery::ByCurrency(c),
        None => TransactionQuery::All,
    }
}

/// The code the ledger stores for each currency.
pub fn currency_code(c: Currency) -> (r: String)
    ensures
        c == Currency::BTC ==> r@ == "BTC"@,
        c == Currency::USD ==> r@ == "USD"@,
        c == Currency::EUR ==> r@ == "EUR"@,
{
    match c {
        Currency::BTC => "BTC".to_owned(),
        Currency::USD => "USD".to_owned(),
        Currency::EUR => "EUR".to_owned(),
    }
}

/// A username update took hold exactly when one row was rewritten; any
/// other count is a failed update.
pub fn username_update_applied(rows_updated: u64) -> (ok: bool)
    ensures
        ok == (rows_updated == 1),
{
    rows_updated == 1
}

} // verus!
