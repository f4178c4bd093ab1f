use ledger_node::client::ClientCommands;
use ledger_node::commands::{check_balance, create_account, transfer};
use ledger_node::producer::cut;
use ledger_node::server::{confirm, decide, Decision, Rejection, ServerResponse};
use ledger_node::store::{account_exists, balance, block_contains, submit};
use ledger_node::types::{
    Amount, Balance, Blocks, Transaction, TransactionId, Transactions, MASTER_ID,
};

/// Amounts are counted in hundredths.
fn units(value: f64) -> Amount {
    (value * 100.0).round() as Amount
}

fn total(value: f64) -> Balance {
    Balance::from(units(value))
}

fn count(blocks: &Blocks, pending: &Transactions) -> usize {
    blocks.iter().map(|block| block.transactions.len()).sum::<usize>() + pending.len()
}

/// Runs a request to its end as the node does: decide, submit, cut, confirm.
fn serve(
    command: ClientCommands,
    blocks: &mut Blocks,
    pending: &mut Transactions,
    seconds: u64,
) -> Result<ServerResponse, Rejection> {
    match decide(command, blocks, pending, seconds) {
        Decision::Reply(answer) => answer,
        Decision::Enqueue(operation) => {
            submit(pending, operation);
            let published = cut(blocks, pending);
            Ok(confirm(blocks, published, operation.id).expect("confirmed by the cut"))
        }
    }
}

fn enqueued(decision: Decision) -> Transaction {
    match decision {
        Decision::Enqueue(operation) => operation,
        Decision::Reply(answer) => panic!("answered at once: {:?}", answer),
    }
}

#[test]
fn created_account_has_its_starting_balance_after_the_cut() {
    let mut blocks: Blocks = Vec::new();
    let mut pending: Transactions = Vec::new();

    let answer = serve(create_account(1, units(100.0)), &mut blocks, &mut pending, 10);
    let id: TransactionId = Transaction::new(1, MASTER_ID, units(100.0), 10).id;
    assert_eq!(answer, Ok(ServerResponse::Transferred { block_id: 0, transaction_id: id }));
    assert_eq!(balance(&blocks, &pending, 1), Some(total(100.0)));
    assert_eq!(
        serve(check_balance(1), &mut blocks, &mut pending, 11),
        Ok(ServerResponse::Balance { balance: total(100.0) })
    );
}

#[test]
fn transfer_moves_the_amount() {
    let mut blocks: Blocks = Vec::new();
    let mut pending: Transactions = Vec::new();
    serve(create_account(1, units(100.0)), &mut blocks, &mut pending, 10).unwrap();
    serve(create_account(2, units(0.0)), &mut blocks, &mut pending, 11).unwrap();

    let answer = serve(transfer(1, 2, units(40.0)), &mut blocks, &mut pending, 12);
    let id = Transaction::new(2, 1, units(40.0), 12).id;
    assert_eq!(answer, Ok(ServerResponse::Transferred { block_id: 2, transaction_id: id }));
    assert_eq!(balance(&blocks, &pending, 1), Some(total(60.0)));
    assert_eq!(balance(&blocks, &pending, 2), Some(total(40.0)));
}

#[test]
fn transfer_to_an_unknown_account_makes_it_known() {
    let mut blocks: Blocks = Vec::new();
    let mut pending: Transactions = Vec::new();
    serve(create_account(1, units(100.0)), &mut blocks, &mut pending, 10).unwrap();
    assert_eq!(balance(&blocks, &pending, 2), None);
    serve(transfer(1, 2, units(40.0)), &mut blocks, &mut pending, 12).unwrap();
    assert_eq!(balance(&blocks, &pending, 1), Some(total(60.0)));
    assert_eq!(balance(&blocks, &pending, 2), Some(total(40.0)));
}

#[test]
fn overdrawing_transfer_is_rejected_and_changes_nothing() {
    let mut blocks: Blocks = Vec::new();
    let mut pending: Transactions = Vec::new();
    serve(create_account(1, units(100.0)), &mut blocks, &mut pending, 10).unwrap();
    serve(transfer(1, 2, units(40.0)), &mut blocks, &mut pending, 12).unwrap();
    let before = count(&blocks, &pending);

    let decision = decide(transfer(1, 2, units(1000.0)), &blocks, &pending, 13);
    assert_eq!(
        decision,
        Decision::Reply(Err(Rejection::InsufficientFunds {
            account: 1,
            amount: units(1000.0),
            available: Some(total(60.0)),
        }))
    );
    assert_eq!(count(&blocks, &pending), before);
    assert!(pending.is_empty());
    assert_eq!(balance(&blocks, &pending, 1), Some(total(60.0)));
    assert_eq!(balance(&blocks, &pending, 2), Some(total(40.0)));
}

#[test]
fn transfer_of_the_whole_balance_is_accepted() {
    let mut blocks: Blocks = Vec::new();
    let mut pending: Transactions = Vec::new();
    serve(create_account(1, 100), &mut blocks, &mut pending, 10).unwrap();
    let op = enqueued(decide(transfer(1, 2, 100), &blocks, &pending, 11));
    assert_eq!(op, Transaction::new(2, 1, 100, 11));
    assert_eq!(
        decide(transfer(1, 2, 101), &blocks, &pending, 11),
        Decision::Reply(Err(Rejection::InsufficientFunds {
            account: 1,
            amount: 101,
            available: Some(100),
        }))
    );
}

#[test]
fn transfer_from_an_unknown_account_is_rejected() {
    let blocks: Blocks = Vec::new();
    let pending: Transactions = Vec::new();
    assert_eq!(
        decide(transfer(7, 8, 1), &blocks, &pending, 0),
        Decision::Reply(Err(Rejection::InsufficientFunds {
            account: 7,
            amount: 1,
            available: None,
        }))
    );
}

#[test]
fn creating_the_reserved_account_is_rejected() {
    let blocks: Blocks = Vec::new();
    let pending: Transactions = Vec::new();
    assert_eq!(
        decide(create_account(MASTER_ID, units(100.0)), &blocks, &pending, 0),
        Decision::Reply(Err(Rejection::ReservedCreate))
    );
    assert!(pending.is_empty());
}

#[test]
fn reserved_account_is_no_party_to_a_transfer() {
    let mut blocks: Blocks = Vec::new();
    let mut pending: Transactions = Vec::new();
    serve(create_account(1, 100), &mut blocks, &mut pending, 10).unwrap();
    assert_eq!(
        decide(transfer(MASTER_ID, 1, 5), &blocks, &pending, 0),
        Decision::Reply(Err(Rejection::ReservedSender))
    );
    assert_eq!(
        decide(transfer(1, MASTER_ID, 5), &blocks, &pending, 0),
        Decision::Reply(Err(Rejection::ReservedRecipient))
    );
    assert_eq!(
        decide(transfer(MASTER_ID, MASTER_ID, 5), &blocks, &pending, 0),
        Decision::Reply(Err(Rejection::ReservedSender))
    );
}

#[test]
fn balance_of_the_reserved_account_is_not_reported() {
    let mut blocks: Blocks = Vec::new();
    let mut pending: Transactions = Vec::new();
    serve(create_account(1, 100), &mut blocks, &mut pending, 10).unwrap();
    assert_eq!(
        decide(check_balance(MASTER_ID), &blocks, &pending, 0),
        Decision::Reply(Err(Rejection::ReservedBalance))
    );
    assert_eq!(balance(&blocks, &pending, MASTER_ID), Some(-100));
}

#[test]
fn balance_of_an_unknown_account_is_no_result_every_time() {
    let blocks: Blocks = Vec::new();
    let pending: Transactions = Vec::new();
    let first = decide(check_balance(5), &blocks, &pending, 0);
    let second = decide(check_balance(5), &blocks, &pending, 1);
    assert_eq!(first, Decision::Reply(Err(Rejection::AccountNotFound { account: 5 })));
    assert_eq!(second, first);
    assert_eq!(balance(&blocks, &pending, 5), None);
    assert_eq!(balance(&blocks, &pending, 5), None);
}

#[test]
fn account_cannot_be_created_twice() {
    let mut blocks: Blocks = Vec::new();
    let mut pending: Transactions = Vec::new();
    let op = enqueued(decide(create_account(1, 100), &blocks, &pending, 10));
    submit(&mut pending, op);
    assert_eq!(
        decide(create_account(1, 100), &blocks, &pending, 11),
        Decision::Reply(Err(Rejection::AccountExists { account: 1 }))
    );
    cut(&mut blocks, &mut pending);
    assert_eq!(
        decide(create_account(1, 5), &blocks, &pending, 12),
        Decision::Reply(Err(Rejection::AccountExists { account: 1 }))
    );
}

#[test]
fn pending_operations_count_towards_the_balance() {
    let mut blocks: Blocks = Vec::new();
    let mut pending: Transactions = Vec::new();
    serve(create_account(1, 100), &mut blocks, &mut pending, 10).unwrap();
    let op = enqueued(decide(transfer(1, 2, 40), &blocks, &pending, 11));
    submit(&mut pending, op);
    assert_eq!(balance(&blocks, &pending, 1), Some(60));
    assert_eq!(balance(&blocks, &pending, 2), Some(40));
    assert!(account_exists(&blocks, &pending, 2));
    assert!(!account_exists(&blocks, &pending, 3));
    assert_eq!(
        decide(check_balance(2), &blocks, &pending, 12),
        Decision::Reply(Ok(ServerResponse::Balance { balance: 40 }))
    );
    assert_eq!(
        decide(transfer(1, 2, 61), &blocks, &pending, 12),
        Decision::Reply(Err(Rejection::InsufficientFunds {
            account: 1,
            amount: 61,
            available: Some(60),
        }))
    );
}

#[test]
fn cuts_lose_nothing_and_double_nothing() {
    let mut blocks: Blocks = Vec::new();
    let mut pending: Transactions = Vec::new();
    let mut submitted: Vec<Transaction> = Vec::new();
    let mut next: u64 = 1;
    for round in 0..5u64 {
        for _ in 0..round {
            let op = Transaction { id: next, to: next, from: MASTER_ID, amount: 1 };
            next += 1;
            submit(&mut pending, op);
            submitted.push(op);
            assert_eq!(count(&blocks, &pending), submitted.len());
        }
        let id = cut(&mut blocks, &mut pending);
        assert_eq!(id, round);
        assert!(pending.is_empty());
        assert_eq!(count(&blocks, &pending), submitted.len());
    }
    submit(&mut pending, Transaction { id: next, to: next, from: MASTER_ID, amount: 1 });
    submitted.push(Transaction { id: next, to: next, from: MASTER_ID, amount: 1 });

    assert_eq!(blocks.len(), 5);
    let mut held: Vec<Transaction> = Vec::new();
    for (position, block) in blocks.iter().enumerate() {
        assert_eq!(block.id, position as u64);
        assert_eq!(block.transactions.len(), position);
        held.extend(block.transactions.iter().copied());
    }
    held.extend(pending.iter().copied());
    assert_eq!(held, submitted);
}

#[test]
fn cut_of_an_empty_buffer_publishes_an_empty_block() {
    let mut blocks: Blocks = Vec::new();
    let mut pending: Transactions = Vec::new();
    assert_eq!(cut(&mut blocks, &mut pending), 0);
    assert_eq!(cut(&mut blocks, &mut pending), 1);
    assert_eq!(blocks.len(), 2);
    assert!(blocks[0].transactions.is_empty());
    assert!(blocks[1].transactions.is_empty());
    assert_eq!(blocks[1].id, 1);
}

#[test]
fn cut_keeps_the_order_of_submission() {
    let mut blocks: Blocks = Vec::new();
    let mut pending: Transactions = Vec::new();
    let first = Transaction { id: 11, to: 1, from: MASTER_ID, amount: 5 };
    let second = Transaction { id: 12, to: 2, from: 1, amount: 3 };
    submit(&mut pending, first);
    submit(&mut pending, second);
    assert_eq!(pending, vec![first, second]);
    let id = cut(&mut blocks, &mut pending);
    assert_eq!(blocks[id as usize].transactions, vec![first, second]);
    assert!(block_contains(&blocks, id, 11));
    assert!(block_contains(&blocks, id, 12));
}

#[test]
fn waiting_request_is_confirmed_only_by_its_own_block() {
    let mut blocks: Blocks = Vec::new();
    let mut pending: Transactions = Vec::new();
    let other = Transaction { id: 21, to: 1, from: MASTER_ID, amount: 5 };
    let mine = Transaction { id: 22, to: 2, from: MASTER_ID, amount: 5 };
    submit(&mut pending, other);
    let first = cut(&mut blocks, &mut pending);
    assert_eq!(confirm(&blocks, first, mine.id), None);
    assert_eq!(confirm(&blocks, first + 1, mine.id), None);
    submit(&mut pending, mine);
    assert_eq!(confirm(&blocks, first, mine.id), None);
    let second = cut(&mut blocks, &mut pending);
    assert_eq!(
        confirm(&blocks, second, mine.id),
        Some(ServerResponse::Transferred { block_id: second, transaction_id: mine.id })
    );
    assert_eq!(confirm(&blocks, first, mine.id), None);
    assert_eq!(
        confirm(&blocks, first, other.id),
        Some(ServerResponse::Transferred { block_id: first, transaction_id: other.id })
    );
}

#[test]
fn requests_are_built_from_their_parts() {
    assert_eq!(
        create_account(3, 500),
        ClientCommands::CreateAccount { account: 3, starting_balance: 500 }
    );
    assert_eq!(
        transfer(3, 4, 20),
        ClientCommands::Transfer { from_account: 3, to_account: 4, amount: 20 }
    );
    assert_eq!(check_balance(4), ClientCommands::Balance { account: 4 });
}

#[test]
fn accepted_requests_name_the_right_parties() {
    let mut blocks: Blocks = Vec::new();
    let mut pending: Transactions = Vec::new();
    let opened = enqueued(decide(create_account(1, 100), &blocks, &pending, 10));
    assert_eq!(opened, Transaction::new(1, MASTER_ID, 100, 10));
    assert_eq!((opened.to, opened.from, opened.amount), (1, MASTER_ID, 100));
    submit(&mut pending, opened);
    cut(&mut blocks, &mut pending);
    let moved = enqueued(decide(transfer(1, 2, 30), &blocks, &pending, 20));
    assert_eq!((moved.to, moved.from, moved.amount), (2, 1, 30));
    assert_eq!(moved.id, Transaction::new(2, 1, 30, 20).id);
}
