use key_value::command::Operation;
use key_value::owner::{Owner, OwnerAction, Request};
use key_value::reply::Reply;
use tokio::sync::mpsc;

type Command = Request<mpsc::Sender<Reply>>;

/// Runs a future to its end on a runtime of its own.
fn block_on<F: std::future::Future>(future: F) -> F::Output {
    tokio::runtime::Builder::new_multi_thread()
        .worker_threads(2)
        .build()
        .unwrap()
        .block_on(future)
}

/// The owner as a task: takes requests from the queue until it is closed and
/// sends each reply to where the owner says.
async fn state_manager(mut rx: mpsc::Receiver<Command>) {
    let mut owner = Owner::new();
    loop {
        match owner.step(rx.recv().await) {
            OwnerAction::Deliver { reply, to } => {
                let _ = to.send(reply).await;
            }
            OwnerAction::Stop => break,
        }
    }
}

/// Lets the owner serve what is in its queue right now, and delivers each
/// reply to the destination that the owner names.
fn serve_queue(owner: &mut Owner, rx: &mut mpsc::Receiver<Command>) {
    while let Ok(command) = rx.try_recv() {
        match owner.step(Some(command)) {
            OwnerAction::Deliver { reply, to } => {
                let _ = to.try_send(reply);
            }
            OwnerAction::Stop => panic!("the owner stopped on a request"),
        }
    }
}

fn set(key: &str, value: &str, response_tx: mpsc::Sender<Reply>) -> Command {
    Request {
        operation: Operation::SetValue { key: key.to_string(), value: value.to_string() },
        reply_to: response_tx,
    }
}

fn get(key: &str, response_tx: mpsc::Sender<Reply>) -> Command {
    Request { operation: Operation::Get { key: key.to_string() }, reply_to: response_tx }
}

fn delete(key: &str, response_tx: mpsc::Sender<Reply>) -> Command {
    Request { operation: Operation::Delete { key: key.to_string() }, reply_to: response_tx }
}

#[test]
fn test_state_manager_set_command() {
    block_on(async {
        let (tx, rx) = mpsc::channel(100);
        let (response_tx, mut response_rx) = mpsc::channel(1);

        tokio::spawn(async move {
            state_manager(rx).await;
        });

        let key = "test_key".to_string();
        let value = "test_value".to_string();
        tx.send(Request { operation: Operation::SetValue { key, value }, reply_to: response_tx })
            .await
            .unwrap();

        let response = response_rx.recv().await.unwrap();
        assert_eq!(response, Reply::Success(Some("Ok".to_string())));

        let (response_tx_get, mut response_rx_get) = mpsc::channel(1);
        tx.send(get("test_key", response_tx_get)).await.unwrap();
        let get_response = response_rx_get.recv().await.unwrap();
        assert_eq!(get_response, Reply::Success(Some("test_value".to_string())));
    });
}

#[test]
fn test_state_manager_get_command() {
    block_on(async {
        let (tx, rx) = mpsc::channel(100);
        let (response_tx_set, mut response_rx_set) = mpsc::channel(1);
        let (response_tx_get, mut response_rx_get) = mpsc::channel(1);

        tokio::spawn(async move {
            state_manager(rx).await;
        });

        tx.send(set("test_key", "test_value", response_tx_set)).await.unwrap();
        assert!(matches!(response_rx_set.recv().await.unwrap(), Reply::Success(_)));

        tx.send(get("test_key", response_tx_get)).await.unwrap();
        let get_response = response_rx_get.recv().await.unwrap();
        assert_eq!(get_response, Reply::Success(Some("test_value".to_string())));

        let (response_tx_get_nonexistent, mut response_rx_get_nonexistent) = mpsc::channel(1);
        tx.send(get("nonexistent_key", response_tx_get_nonexistent)).await.unwrap();
        let get_response_nonexistent = response_rx_get_nonexistent.recv().await.unwrap();
        assert_eq!(get_response_nonexistent, Reply::Success(None));
    });
}

#[test]
fn test_state_manager_delete_command() {
    block_on(async {
        let (tx, rx) = mpsc::channel(100);
        let (response_tx_set, mut response_rx_set) = mpsc::channel(1);
        let (response_tx_delete, mut response_rx_delete) = mpsc::channel(1);
        let (response_tx_get, mut response_rx_get) = mpsc::channel(1);

        tokio::spawn(async move {
            state_manager(rx).await;
        });

        tx.send(set("delete_key", "delete_value", response_tx_set)).await.unwrap();
        assert!(matches!(response_rx_set.recv().await.unwrap(), Reply::Success(_)));

        tx.send(delete("delete_key", response_tx_delete)).await.unwrap();
        let delete_response = response_rx_delete.recv().await.unwrap();
        assert_eq!(delete_response, Reply::Success(Some("delete_value".to_string())));

        tx.send(get("delete_key", response_tx_get)).await.unwrap();
        let get_response = response_rx_get.recv().await.unwrap();
        assert_eq!(get_response, Reply::Success(None));
    });
}

#[test]
fn test_state_manager_error_command() {
    block_on(async {
        let (tx, rx) = mpsc::channel(100);
        let (response_tx, mut response_rx) = mpsc::channel(1);

        tokio::spawn(async move {
            state_manager(rx).await;
        });

        tx.send(Request { operation: Operation::Invalid, reply_to: response_tx }).await.unwrap();
        let response = response_rx.recv().await.unwrap();
        assert_eq!(response, Reply::Failure("Error command".to_string()));
    });
}

#[test]
fn the_owner_task_ends_when_every_sender_is_gone() {
    block_on(async {
        let (tx, rx) = mpsc::channel(100);
        let (response_tx, mut response_rx) = mpsc::channel(1);
        let owner = tokio::spawn(state_manager(rx));

        tx.send(set("k", "v", response_tx)).await.unwrap();
        assert_eq!(response_rx.recv().await.unwrap(), Reply::Success(Some("Ok".to_string())));
        drop(tx);
        owner.await.unwrap();
    });
}

#[test]
fn tasks_that_set_one_key_at_once_leave_one_whole_value() {
    block_on(async {
        let (tx, rx) = mpsc::channel(100);
        tokio::spawn(state_manager(rx));

        let mut writers = Vec::new();
        for value in ["v1", "v2"] {
            let tx = tx.clone();
            writers.push(tokio::spawn(async move {
                let (response_tx, mut response_rx) = mpsc::channel(1);
                tx.send(set("k", value, response_tx)).await.unwrap();
                response_rx.recv().await.unwrap()
            }));
        }
        for writer in writers {
            assert_eq!(writer.await.unwrap(), Reply::Success(Some("Ok".to_string())));
        }

        let (response_tx, mut response_rx) = mpsc::channel(1);
        tx.send(get("k", response_tx)).await.unwrap();
        let seen = response_rx.recv().await.unwrap();
        assert!(
            seen == Reply::Success(Some("v1".to_string()))
                || seen == Reply::Success(Some("v2".to_string()))
        );
    });
}

#[test]
fn owner_stops_on_a_closed_queue() {
    let mut owner = Owner::new();
    let action: OwnerAction<u8> = owner.step(None);
    assert!(matches!(action, OwnerAction::Stop));
}

#[test]
fn closed_queue_leaves_the_store_alone() {
    let mut owner = Owner::new();
    let _ = owner.step(Some(Request {
        operation: Operation::SetValue { key: "k".to_string(), value: "v".to_string() },
        reply_to: 0u8,
    }));
    let _: OwnerAction<u8> = owner.step(None);
    match owner.step(Some(Request { operation: Operation::Get { key: "k".to_string() }, reply_to: 0u8 })) {
        OwnerAction::Deliver { reply, .. } => {
            assert_eq!(reply, Reply::Success(Some("v".to_string())))
        }
        OwnerAction::Stop => panic!("the owner stopped on a request"),
    }
}

#[test]
fn each_reply_goes_to_the_destination_of_its_request() {
    let mut owner = Owner::new();
    let requests = vec![
        (7u32, Operation::SetValue { key: "a".to_string(), value: "1".to_string() }),
        (3u32, Operation::Get { key: "a".to_string() }),
        (9u32, Operation::Get { key: "b".to_string() }),
        (3u32, Operation::Invalid),
    ];
    let expected = vec![
        (7u32, Reply::Success(Some("Ok".to_string()))),
        (3u32, Reply::Success(Some("1".to_string()))),
        (9u32, Reply::Success(None)),
        (3u32, Reply::Failure("Error command".to_string())),
    ];
    let mut delivered = Vec::new();
    for (reply_to, operation) in requests {
        match owner.step(Some(Request { operation, reply_to })) {
            OwnerAction::Deliver { reply, to } => delivered.push((to, reply)),
            OwnerAction::Stop => panic!("the owner stopped on a request"),
        }
    }
    assert_eq!(delivered, expected);
}

#[test]
fn overlapping_sets_leave_one_whole_value() {
    // Two connections set the same key at about the same time: the queue
    // holds the two requests in one order or the other.
    for first_wins_queue in [true, false] {
        let (tx, mut rx) = mpsc::channel(100);
        let tx_one = tx.clone();
        let tx_two = tx.clone();
        let (reply_one, mut from_one) = mpsc::channel(1);
        let (reply_two, mut from_two) = mpsc::channel(1);
        if first_wins_queue {
            tx_one.try_send(set("k", "v1", reply_one)).unwrap();
            tx_two.try_send(set("k", "v2", reply_two)).unwrap();
        } else {
            tx_two.try_send(set("k", "v2", reply_two)).unwrap();
            tx_one.try_send(set("k", "v1", reply_one)).unwrap();
        }
        let (reply_three, mut from_three) = mpsc::channel(1);
        tx.try_send(get("k", reply_three)).unwrap();

        let mut owner = Owner::new();
        serve_queue(&mut owner, &mut rx);

        assert_eq!(from_one.try_recv().unwrap(), Reply::Success(Some("Ok".to_string())));
        assert_eq!(from_two.try_recv().unwrap(), Reply::Success(Some("Ok".to_string())));
        let seen = from_three.try_recv().unwrap();
        let last = if first_wins_queue { "v2" } else { "v1" };
        assert_eq!(seen, Reply::Success(Some(last.to_string())));
        assert!(
            seen == Reply::Success(Some("v1".to_string()))
                || seen == Reply::Success(Some("v2".to_string()))
        );
    }
}
