use dm_gateway::errors::ErrorKind;
use dm_gateway::resolve::LogicalReference;
use dm_gateway::resolve::resolve_lookup;
use dm_gateway::resolve::resolve_read;
use dm_gateway::resolve::resolve_write;

#[test]
fn read_resolves_mesh_reference() {
    match resolve_read("dm://input?id=alice-table") {
        Ok(LogicalReference::MeshRead { id }) => assert_eq!(id, "alice-table"),
        _ => panic!("expected a mesh read"),
    }
}

#[test]
fn read_resolves_direct_file_reference() {
    match resolve_read("file:///data/alice.csv") {
        Ok(LogicalReference::DirectFile { path }) => assert_eq!(path, "/data/alice.csv"),
        _ => panic!("expected a direct file"),
    }
}

#[test]
fn read_decodes_percent_encoded_parameters() {
    match resolve_read("dm://input?id=alice%20table") {
        Ok(LogicalReference::MeshRead { id }) => assert_eq!(id, "alice table"),
        _ => panic!("expected a mesh read"),
    }
}

#[test]
fn read_decodes_plus_as_space_in_parameters() {
    match resolve_read("dm://input?id=alice+table") {
        Ok(LogicalReference::MeshRead { id }) => assert_eq!(id, "alice table"),
        _ => panic!("expected a mesh read"),
    }
}

#[test]
fn write_resolves_mesh_output_reference() {
    match resolve_write("dm://output?datasource_id=ds1&id=alice-table&uri=alice.csv") {
        Ok(LogicalReference::MeshWrite { datasource_id, id, relative_uri }) => {
            assert_eq!(datasource_id, "ds1");
            assert_eq!(id, "alice-table");
            assert_eq!(relative_uri, "alice.csv");
        }
        _ => panic!("expected a mesh write"),
    }
}

#[test]
fn unrecognized_scheme_fails_every_pipeline() {
    let reference = "s3://bucket/key";
    assert_eq!(resolve_read(reference).unwrap_err().kind, ErrorKind::UnsupportedScheme);
    assert_eq!(resolve_write(reference).unwrap_err().kind, ErrorKind::UnsupportedScheme);
    assert_eq!(resolve_lookup(reference).unwrap_err().kind, ErrorKind::UnsupportedScheme);
}

#[test]
fn file_scheme_is_unsupported_for_writes_and_lookups() {
    let reference = "file:///data/alice.csv";
    assert_eq!(resolve_write(reference).unwrap_err().kind, ErrorKind::UnsupportedScheme);
    assert_eq!(resolve_lookup(reference).unwrap_err().kind, ErrorKind::UnsupportedScheme);
}

#[test]
fn malformed_reference_is_rejected() {
    assert_eq!(resolve_read("not a uri").unwrap_err().kind, ErrorKind::MalformedReference);
    assert_eq!(resolve_write("::").unwrap_err().kind, ErrorKind::MalformedReference);
}

#[test]
fn missing_query_is_a_missing_parameter() {
    assert_eq!(resolve_read("dm://input").unwrap_err().kind, ErrorKind::MissingParameter);
    assert_eq!(resolve_lookup("dm://input").unwrap_err().kind, ErrorKind::MissingParameter);
}

#[test]
fn missing_id_is_a_missing_parameter() {
    assert_eq!(
        resolve_read("dm://input?name=alice").unwrap_err().kind,
        ErrorKind::MissingParameter
    );
}

#[test]
fn write_missing_any_parameter_is_a_missing_parameter() {
    assert_eq!(
        resolve_write("dm://output?id=alice-table&uri=alice.csv").unwrap_err().kind,
        ErrorKind::MissingParameter
    );
    assert_eq!(
        resolve_write("dm://output?datasource_id=ds1&uri=alice.csv").unwrap_err().kind,
        ErrorKind::MissingParameter
    );
    assert_eq!(
        resolve_write("dm://output?datasource_id=ds1&id=alice-table").unwrap_err().kind,
        ErrorKind::MissingParameter
    );
}

#[test]
fn lookup_returns_the_dataset_id() {
    assert_eq!(resolve_lookup("dm://input?id=alice-table").unwrap(), "alice-table");
}

#[test]
fn first_occurrence_of_a_repeated_parameter_wins() {
    match resolve_read("dm://input?id=first&id=second") {
        Ok(LogicalReference::MeshRead { id }) => assert_eq!(id, "first"),
        _ => panic!("expected a mesh read"),
    }
}
