use corrbus::messages::Currency;
use corrbus::requests::RequestError;
use corrbus::users::{
    currency_code, escape_like_pattern, prepare_user_search, select_transaction_query,
    to_shareable, username_update_applied, ShareableUser, TransactionQuery, UserRecord,
};

#[test]
fn escape_backslashes_both_wildcards() {
    assert_eq!(escape_like_pattern("100%_sure"), b"100\\%\\_sure".to_vec());
}

#[test]
fn escape_leaves_plain_text_alone() {
    assert_eq!(escape_like_pattern("alice"), b"alice".to_vec());
    assert_eq!(escape_like_pattern(""), b"".to_vec());
}

#[test]
fn escape_handles_runs_of_wildcards() {
    assert_eq!(escape_like_pattern("%%__"), b"\\%\\%\\_\\_".to_vec());
}

#[test]
fn search_refuses_short_fragments() {
    assert_eq!(prepare_user_search(""), Err(RequestError::InvalidDataSupplied));
    assert_eq!(prepare_user_search("ab"), Err(RequestError::InvalidDataSupplied));
}

#[test]
fn search_escapes_accepted_fragments() {
    assert_eq!(prepare_user_search("al_ce"), Ok(b"al\\_ce".to_vec()));
    assert_eq!(prepare_user_search("abc"), Ok(b"abc".to_vec()));
}

#[test]
fn shareable_projection_keeps_uid_and_username_only() {
    let rows = vec![
        UserRecord {
            uid: 1,
            username: "alice".to_string(),
            password_hash: "never-shared".to_string(),
        },
        UserRecord {
            uid: 2,
            username: "bob".to_string(),
            password_hash: "never-shared".to_string(),
        },
    ];
    let shared = to_shareable(&rows);
    assert_eq!(
        shared,
        vec![
            ShareableUser { uid: 1, username: "alice".to_string() },
            ShareableUser { uid: 2, username: "bob".to_string() },
        ]
    );
}

#[test]
fn transaction_query_narrows_only_on_a_named_currency() {
    assert_eq!(select_transaction_query(None), TransactionQuery::All);
    assert_eq!(
        select_transaction_query(Some(Currency::USD)),
        TransactionQuery::ByCurrency(Currency::USD)
    );
}

#[test]
fn currency_codes_are_the_ledger_names() {
    assert_eq!(currency_code(Currency::BTC), "BTC");
    assert_eq!(currency_code(Currency::USD), "USD");
    assert_eq!(currency_code(Currency::EUR), "EUR");
}

#[test]
fn username_update_applies_on_exactly_one_row() {
    assert!(username_update_applied(1));
    assert!(!username_update_applied(0));
    assert!(!username_update_applied(2));
}
