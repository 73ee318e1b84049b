use std::collections::HashMap;

use dm_gateway::authority::StatusEnvelope;
use dm_gateway::authority::accept_response;
use dm_gateway::download::mesh_download_path;
use dm_gateway::errors::ErrorKind;
use dm_gateway::records::DataSourceInfo;
use dm_gateway::records::DataSourceRecord;
use dm_gateway::records::DatasetRecord;
use dm_gateway::resolve::LogicalReference;
use dm_gateway::resolve::resolve_write;
use dm_gateway::upload::FieldKind;
use dm_gateway::upload::UploadGather;
use dm_gateway::upload::classify_field;
use dm_gateway::upload::plan_commit;
use dm_gateway::upload::scratch_target;

fn sample_record(name: &str, data_type: &str) -> DatasetRecord {
    DatasetRecord {
        id: String::new(),
        name: name.to_owned(),
        data_type: data_type.to_owned(),
        relative_uri: String::new(),
        datasource_id: String::new(),
        attributes: Vec::new(),
        columns: Vec::new(),
        vendor: String::new(),
        file_format: 0,
    }
}

fn local_source(id: &str, root: &str) -> DataSourceRecord {
    DataSourceRecord {
        id: id.to_owned(),
        info: Some(DataSourceInfo { localfs_path: Some(root.to_owned()) }),
    }
}

#[test]
fn classify_recognizes_the_three_fields() {
    assert_eq!(classify_field("store_path"), FieldKind::StorePath);
    assert_eq!(classify_field("file"), FieldKind::FileContent);
    assert_eq!(classify_field("domain_data"), FieldKind::DatasetMeta);
    assert_eq!(classify_field("comment"), FieldKind::Other);
}

#[test]
fn missing_store_path_fails_before_any_write() {
    let mut gather = UploadGather::new();
    gather.note_staged("/tmp/dm_gateway_scratch/alice.csv".to_owned());
    gather.note_record(sample_record("alice.csv", "table"));
    let err = gather.finish().unwrap_err();
    assert_eq!(err.kind, ErrorKind::MissingField);
    assert_eq!(err.detail, "lack store_path");
}

#[test]
fn missing_file_fails_before_any_write() {
    let mut gather = UploadGather::new();
    gather.note_store_path("dm://output?datasource_id=ds1&id=a&uri=a.csv".to_owned());
    gather.note_record(sample_record("alice.csv", "table"));
    let err = gather.finish().unwrap_err();
    assert_eq!(err.kind, ErrorKind::MissingField);
    assert_eq!(err.detail, "lack file");
}

#[test]
fn missing_domain_data_fails_before_any_write() {
    let mut gather = UploadGather::new();
    gather.note_store_path("dm://output?datasource_id=ds1&id=a&uri=a.csv".to_owned());
    gather.note_staged("/tmp/dm_gateway_scratch/alice.csv".to_owned());
    let err = gather.finish().unwrap_err();
    assert_eq!(err.kind, ErrorKind::MissingField);
    assert_eq!(err.detail, "lack domain_data");
}

#[test]
fn scratch_requires_a_declared_filename() {
    let err = scratch_target(None).unwrap_err();
    assert_eq!(err.kind, ErrorKind::MissingField);
    assert_eq!(err.detail, "lack filename");
    let name = "alice.csv".to_owned();
    assert_eq!(scratch_target(Some(&name)).unwrap(), "/tmp/dm_gateway_scratch/alice.csv");
}

#[test]
fn upload_scenario_commits_to_the_data_source_root() {
    let mut gather = UploadGather::new();
    gather.note_store_path(
        "dm://output?datasource_id=ds1&id=alice-table&uri=alice.csv".to_owned(),
    );
    let staged = scratch_target(Some(&"alice.csv".to_owned())).unwrap();
    gather.note_staged(staged);
    gather.note_record(sample_record("alice.csv", "table"));
    let parts = gather.finish().unwrap();

    let (datasource_id, id, relative_uri) = match resolve_write(&parts.store_path) {
        Ok(LogicalReference::MeshWrite { datasource_id, id, relative_uri }) => {
            (datasource_id, id, relative_uri)
        }
        _ => panic!("expected a mesh write"),
    };
    assert_eq!(datasource_id, "ds1");

    let source = local_source("ds1", "/data");
    let plan = plan_commit(&id, &relative_uri, &datasource_id, &parts.staged_path, &parts.record, &source)
        .unwrap();
    assert_eq!(plan.dest_path, "/data/alice.csv");
    assert_eq!(plan.scratch_path, "/tmp/dm_gateway_scratch/alice.csv");
    assert_eq!(plan.request.dataset_id, "alice-table");
    assert_eq!(plan.request.relative_uri, "alice.csv");
    assert_eq!(plan.request.datasource_id, "ds1");
    assert_eq!(plan.request.name, "alice.csv");
    assert_eq!(plan.request.data_type, "table");
}

#[test]
fn upload_then_download_round_trip_returns_the_same_bytes() {
    let content: &[u8] = b"a,b\n1,2\n";
    let source = local_source("ds1", "/data");

    // The upload side: commit the staged bytes to the planned destination.
    let record = sample_record("alice.csv", "table");
    let plan = plan_commit(
        "alice-table",
        "alice.csv",
        "ds1",
        "/tmp/dm_gateway_scratch/alice.csv",
        &record,
        &source,
    )
    .unwrap();
    let mut store: HashMap<String, Vec<u8>> = HashMap::new();
    store.insert(plan.dest_path.clone(), content.to_vec());

    // The download side: the fetched record carries what was registered.
    let fetched = DatasetRecord {
        id: plan.request.dataset_id.clone(),
        relative_uri: plan.request.relative_uri.clone(),
        datasource_id: plan.request.datasource_id.clone(),
        ..sample_record("alice.csv", "table")
    };
    let path = mesh_download_path(&fetched, &source).unwrap();
    assert_eq!(store.get(&path).map(|b| b.as_slice()), Some(content));
}

#[test]
fn commit_requires_a_local_filesystem_backend() {
    let record = sample_record("alice.csv", "table");
    let no_info = DataSourceRecord { id: "ds1".to_owned(), info: None };
    let err = plan_commit("a", "a.csv", "ds1", "/tmp/x", &record, &no_info).unwrap_err();
    assert_eq!(err.kind, ErrorKind::MissingField);
    assert_eq!(err.detail, "lack datasource info");

    let no_localfs =
        DataSourceRecord { id: "ds1".to_owned(), info: Some(DataSourceInfo { localfs_path: None }) };
    let err = plan_commit("a", "a.csv", "ds1", "/tmp/x", &record, &no_localfs).unwrap_err();
    assert_eq!(err.kind, ErrorKind::MissingField);
    assert_eq!(err.detail, "lack localfs config");
}

#[test]
fn download_path_follows_the_record_and_source() {
    let mut record = sample_record("alice.csv", "table");
    record.relative_uri = "alice.csv".to_owned();
    let source = local_source("ds1", "/data/");
    assert_eq!(mesh_download_path(&record, &source).unwrap(), "/data/alice.csv");
}

#[test]
fn metadata_lookup_scenario_returns_the_registered_record() {
    let id = dm_gateway::resolve::resolve_lookup("dm://input?id=alice-table").unwrap();
    assert_eq!(id, "alice-table");
    let mut registered = sample_record("alice.csv", "table");
    registered.id = "alice-table".to_owned();
    registered.datasource_id = "ds1".to_owned();
    let status = Some(StatusEnvelope { code: 0, message: String::new() });
    let record = accept_response(status, Some(registered)).unwrap();
    assert_eq!(record.id, "alice-table");
    assert_eq!(record.datasource_id, "ds1");
}
