use argus::services::PollUpdate;

#[test]
fn test_poll_update_channel() {
    let rt = tokio::runtime::Runtime::new().unwrap();
    rt.block_on(async {
        let (tx, mut rx) = tokio::sync::mpsc::channel(8);

        let update = PollUpdate::PipelinesUpdated("test-source".into(), vec![]);
        tx.send(update).await.unwrap();

        let received = rx.recv().await.unwrap();
        match received {
            PollUpdate::PipelinesUpdated(name, pipes) => {
                assert_eq!(name, "test-source");
                assert!(pipes.is_empty());
            }
            _ => panic!("Expected PipelinesUpdated"),
        }
    });
}

#[test]
fn test_poll_update_error_variant() {
    let rt = tokio::runtime::Runtime::new().unwrap();
    rt.block_on(async {
        let (tx, mut rx) = tokio::sync::mpsc::channel(8);
        tx.send(PollUpdate::Error("src".into(), "network down".into())).await.unwrap();

        match rx.recv().await.unwrap() {
            PollUpdate::Error(name, msg) => {
                assert_eq!(name, "src");
                assert_eq!(msg, "network down");
            }
            _ => panic!("Expected Error variant"),
        }
    });
}
