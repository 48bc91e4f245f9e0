use build_tracker::error::{from_storage_fault, Error, StorageFault};

struct FakeDbInfo;

impl diesel::result::DatabaseErrorInformation for FakeDbInfo {
    fn message(&self) -> &str {
        "duplicate key value violates unique constraint"
    }
    fn details(&self) -> Option<&str> {
        None
    }
    fn hint(&self) -> Option<&str> {
        None
    }
    fn table_name(&self) -> Option<&str> {
        Some("jobs")
    }
    fn column_name(&self) -> Option<&str> {
        None
    }
    fn constraint_name(&self) -> Option<&str> {
        None
    }
    fn statement_position(&self) -> Option<i32> {
        None
    }
}

#[test]
fn status_of_plain_kinds() {
    assert_eq!(Error::Authentication.status(), 401);
    assert_eq!(Error::Authorization.status(), 403);
    assert_eq!(Error::BadRequest.status(), 400);
    assert_eq!(Error::Conflict.status(), 409);
    assert_eq!(Error::NotFound.status(), 404);
    assert_eq!(Error::Unprocessable.status(), 422);
    assert_eq!(Error::System(String::from("boom")).status(), 500);
}

#[test]
fn status_of_storage_faults() {
    assert_eq!(
        Error::Storage(StorageFault::RowNotFound, String::new()).status(),
        404
    );
    assert_eq!(
        Error::Storage(StorageFault::UniqueViolation, String::new()).status(),
        409
    );
    assert_eq!(Error::Storage(StorageFault::Other, String::new()).status(), 500);
}

#[test]
fn persistence_not_found_maps_to_404() {
    let e = from_storage_fault(&diesel::result::Error::NotFound);
    assert_eq!(e.status(), 404);
    assert!(matches!(e, Error::Storage(StorageFault::RowNotFound, _)));
}

#[test]
fn persistence_unique_violation_maps_to_409() {
    let fault = diesel::result::Error::DatabaseError(
        diesel::result::DatabaseErrorKind::UniqueViolation,
        Box::new(FakeDbInfo),
    );
    let e = from_storage_fault(&fault);
    assert_eq!(e.status(), 409);
    assert!(matches!(e, Error::Storage(StorageFault::UniqueViolation, _)));
}

#[test]
fn persistence_unrecognized_fault_maps_to_500() {
    let e = from_storage_fault(&diesel::result::Error::RollbackTransaction);
    assert_eq!(e.status(), 500);
    assert!(matches!(e, Error::Storage(StorageFault::Other, _)));

    let other = diesel::result::Error::DatabaseError(
        diesel::result::DatabaseErrorKind::ForeignKeyViolation,
        Box::new(FakeDbInfo),
    );
    assert_eq!(from_storage_fault(&other).status(), 500);
}

#[test]
fn upstream_code_passes_through_when_transmissible() {
    assert_eq!(Error::Upstream(Some(503), String::new()).status(), 503);
    assert_eq!(Error::Upstream(Some(404), String::new()).status(), 404);
    assert_eq!(Error::Upstream(Some(100), String::new()).status(), 100);
    assert_eq!(Error::Upstream(Some(599), String::new()).status(), 599);
}

#[test]
fn upstream_code_folds_to_500_when_invalid_or_absent() {
    assert_eq!(Error::Upstream(Some(42), String::new()).status(), 500);
    assert_eq!(Error::Upstream(Some(600), String::new()).status(), 500);
    assert_eq!(Error::Upstream(Some(0), String::new()).status(), 500);
    assert_eq!(Error::Upstream(None, String::new()).status(), 500);
}

#[test]
fn wire_message_is_fixed_per_kind() {
    assert_eq!(Error::Authentication.message(), "User is not authenticated");
    assert_eq!(
        Error::Authorization.message(),
        "User is not authorized to perform operation"
    );
    assert_eq!(Error::BadRequest.message(), "Bad request");
    assert_eq!(Error::Conflict.message(), "Entity conflict");
    assert_eq!(Error::NotFound.message(), "Entity not found");
    assert_eq!(Error::Unprocessable.message(), "Unprocessable entity");
    assert_eq!(Error::System(String::from("cause")).message(), "Internal error");
    assert_eq!(
        Error::Storage(StorageFault::Other, String::from("cause")).message(),
        "Data store error"
    );
    assert_eq!(
        Error::Upstream(Some(503), String::from("cause")).message(),
        "Upstream service error"
    );
}

#[test]
fn detail_retains_the_underlying_cause() {
    assert_eq!(Error::System(String::from("io broke")).detail(), "io broke");
    assert_eq!(
        Error::Storage(StorageFault::UniqueViolation, String::from("dup key")).detail(),
        "dup key"
    );
    assert_eq!(
        Error::Upstream(None, String::from("rpc lost")).detail(),
        "rpc lost"
    );
    assert_eq!(Error::Conflict.detail(), "Entity conflict");
}

#[test]
fn classification_reads_the_fault_not_the_input_shape() {
    let nf = from_storage_fault(&diesel::result::Error::NotFound);
    let rb = from_storage_fault(&diesel::result::Error::RollbackTransaction);
    assert_ne!(nf.status(), rb.status());
}
