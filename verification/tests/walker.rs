use cosmos_balance_watcher::query::{BalancePage, BalanceWalk, PageStep, RawBalance};

fn raw(denom: &str, amount: &str) -> RawBalance {
    RawBalance {
        denom: denom.to_string(),
        amount: amount.to_string(),
    }
}

#[test]
fn first_request_starts_with_an_empty_key() {
    let walk = BalanceWalk::new();
    let request = walk.next_request();
    assert!(request.key.is_empty());
    assert_eq!(request.offset, 0);
    assert_eq!(request.limit, 100);
    assert!(request.count_total);
    assert!(request.reverse);
}

#[test]
fn three_pages_concatenate_each_entry_exactly_once() {
    let mut walk = BalanceWalk::new();

    let step = walk.absorb_page(BalancePage {
        balances: vec![raw("uatom", "1"), raw("uosmo", "2")],
        next_key: Some(vec![1, 2]),
    });
    assert_eq!(step, PageStep::Continue);
    assert_eq!(walk.next_request().key, vec![1, 2]);

    let step = walk.absorb_page(BalancePage {
        balances: vec![raw("ujuno", "3")],
        next_key: Some(vec![3]),
    });
    assert_eq!(step, PageStep::Continue);
    assert_eq!(walk.next_request().key, vec![3]);

    let step = walk.absorb_page(BalancePage {
        balances: vec![raw("untrn", "4")],
        next_key: None,
    });
    assert_eq!(step, PageStep::Done);

    let denoms: Vec<&str> = walk.entries.iter().map(|b| b.denom.as_str()).collect();
    assert_eq!(denoms, vec!["uatom", "uosmo", "ujuno", "untrn"]);
    let amounts: Vec<&str> = walk.entries.iter().map(|b| b.amount.as_str()).collect();
    assert_eq!(amounts, vec!["1", "2", "3", "4"]);
}

#[test]
fn an_empty_continuation_key_ends_the_walk() {
    let mut walk = BalanceWalk::new();
    let step = walk.absorb_page(BalancePage {
        balances: vec![raw("uatom", "1")],
        next_key: Some(vec![]),
    });
    assert_eq!(step, PageStep::Done);
    assert_eq!(walk.entries.len(), 1);
}

#[test]
fn a_key_with_no_new_entries_is_a_stall() {
    let mut walk = BalanceWalk::new();
    let step = walk.absorb_page(BalancePage {
        balances: vec![],
        next_key: Some(vec![9]),
    });
    assert_eq!(step, PageStep::Stalled);
    assert_eq!(walk.entries.len(), 0);
}

#[test]
fn an_empty_final_page_still_ends_the_walk() {
    let mut walk = BalanceWalk::new();
    let step = walk.absorb_page(BalancePage {
        balances: vec![],
        next_key: None,
    });
    assert_eq!(step, PageStep::Done);
    assert_eq!(walk.entries.len(), 0);
}
