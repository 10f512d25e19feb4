use apollo_puller::materialize::materialize;
use apollo_puller::sink::{app_dir_path, target_path};
use apollo_puller::watch::{plan_batch, NamespaceOutcome, Snapshot};

fn block_on<F: std::future::Future>(future: F) -> F::Output {
    tokio::runtime::Builder::new_current_thread()
        .enable_all()
        .build()
        .unwrap()
        .block_on(future)
}

#[test]
fn sink_paths_follow_the_layout() {
    let dir = app_dir_path("/etc/conf", "order-service");
    assert_eq!(dir, "/etc/conf/order-service");
    let file = target_path(&dir, "application.properties");
    assert_eq!(file, "/etc/conf/order-service/application.properties");
}

#[test]
fn directory_creation_is_idempotent() {
    block_on(async {
        let dir = app_dir_path("/tmp/apollo_puller_test_dirs", "order-service");
        tokio::fs::create_dir_all(&dir).await.unwrap();
        tokio::fs::create_dir_all(&dir).await.unwrap();
        let meta = tokio::fs::metadata(&dir).await.unwrap();
        assert!(meta.is_dir());
    });
}

#[test]
fn second_snapshot_overwrites_the_first_on_disk() {
    block_on(async {
        let base = "/tmp/apollo_puller_test_overwrite";
        let dir = app_dir_path(base, "shop");
        tokio::fs::create_dir_all(&dir).await.unwrap();

        let older = vec![("content".to_string(), "first version, long".to_string())];
        let newer = vec![("content".to_string(), "second".to_string())];
        let (filename, first_bytes) = materialize("feature.json", &older);
        let (_, second_bytes) = materialize("feature.json", &newer);
        let path = target_path(&dir, &filename);

        tokio::fs::write(&path, &first_bytes).await.unwrap();
        tokio::fs::write(&path, &second_bytes).await.unwrap();
        let on_disk = tokio::fs::read(&path).await.unwrap();
        assert_eq!(on_disk, b"second".to_vec());
        assert_ne!(on_disk, first_bytes);
    });
}

#[test]
fn end_to_end_order_service_batch() {
    block_on(async {
        let base = "/tmp/apollo_puller_test_e2e/etc/conf";
        let batch = vec![
            NamespaceOutcome::Update(Snapshot {
                app_id: "order-service".to_string(),
                namespace_name: "application.properties".to_string(),
                configurations: vec![(
                    "db.url".to_string(),
                    "jdbc:mysql://h/d".to_string(),
                )],
            }),
            NamespaceOutcome::Update(Snapshot {
                app_id: "order-service".to_string(),
                namespace_name: "feature.json".to_string(),
                configurations: vec![(
                    "content".to_string(),
                    "{\"flag\":true}".to_string(),
                )],
            }),
        ];

        let plan = plan_batch(&batch);
        assert!(plan.failure.is_none());
        for write in &plan.writes {
            let dir = app_dir_path(base, &write.app_id);
            tokio::fs::create_dir_all(&dir).await.unwrap();
            tokio::fs::write(&target_path(&dir, &write.filename), &write.bytes).await.unwrap();
        }

        let properties_path = "/tmp/apollo_puller_test_e2e/etc/conf/order-service/application.properties";
        let properties = tokio::fs::read_to_string(properties_path).await.unwrap();
        let parsed = ini::Ini::load_from_str(&properties).unwrap();
        assert_eq!(parsed.general_section().get("db.url"), Some("jdbc:mysql://h/d"));

        let json_path = "/tmp/apollo_puller_test_e2e/etc/conf/order-service/feature.json";
        let blob = tokio::fs::read(json_path).await.unwrap();
        assert_eq!(blob, b"{\"flag\":true}".to_vec());
    });
}
