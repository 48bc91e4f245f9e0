//! The error taxonomy: every failure that can reach the API boundary is
//! normalized into a closed set of outcome kinds, each with a fixed
//! externally visible status and a fixed wire phrase. Underlying causes are
//! retained only as opaque detail for logging.

use diesel::result::Error as DieselFault;
use vstd::prelude::*;

verus! {

/// How a persistence-layer fault is classified before it reaches the API
/// boundary: a missing row, a violated uniqueness constraint, or any other
/// fault of the storage driver.
#[derive(Clone, Copy, PartialEq, Eq, Structural, Debug)]
pub enum StorageFault {
    RowNotFound,
    UniqueViolation,
    Other,
}

/// The closed set of outcome kinds. Kinds that arise from an underlying
/// subsystem fault carry that fault's rendered message as opaque context
/// for logging; the wire-visible message is always a fixed phrase.
#[derive(Clone, PartialEq, Debug)]
pub enum Error {
    /// Missing or invalid credentials.
    Authentication,
    /// Valid credentials but insufficient rights.
    Authorization,
    /// Malformed input.
    BadRequest,
    /// A state or uniqueness violation, including a stale concurrency token.
    Conflict,
    /// The entity is absent.
    NotFound,
    /// Well-formed but semantically invalid input.
    Unprocessable,
    /// An internal or unexpected fault: serialization, I/O, or an
    /// upstream-integration fault not otherwise classified.
    System(String),
    /// A persistence-layer fault, reclassified by `StorageFault`.
    Storage(StorageFault, String),
    /// A remote-procedure fault that may carry its own status code; the
    /// code is passed through only when it is transmissible.
    Upstream(Option<u16>, String),
}

/// A status code that can be transmitted verbatim; an upstream code outside
/// this range folds into the internal-error status instead.
pub open spec fn valid_status(c: u16) -> bool {
    100 <= c <= 599
}

/// The externally observable status of each outcome kind.
pub open spec fn spec_status(e: Error) -> u16 {
    match e {
        Error::Authentication => 401,
        Error::Authorization => 403,
        Error::BadRequest => 400,
        Error::Conflict => 409,
        Error::NotFound => 404,
        Error::Unprocessable => 422,
        Error::System(_) => 500,
        Error::Storage(f, _) => match f {
            StorageFault::RowNotFound => 404,
            StorageFault::UniqueViolation => 409,
            StorageFault::Other => 500,
        },
        Error::Upstream(c, _) => match c {
            Some(code) => if valid_status(code) { code } else { 500 },
            None => 500,
        },
    }
}

/// The fixed wire-exposed phrase of each outcome kind.
pub open spec fn spec_message(e: Error) -> Seq<char> {
    match e {
        Error::Authentication => "User is not authenticated"@,
        Error::Authorization => "User is not authorized to perform operation"@,
        Error::BadRequest => "Bad request"@,
        Error::Conflict => "Entity conflict"@,
        Error::NotFound => "Entity not found"@,
        Error::Unprocessable => "Unprocessable entity"@,
        Error::System(_) => "Internal error"@,
        Error::Storage(_, _) => "Data store error"@,
        Error::Upstream(_, _) => "Upstream service error"@,
    }
}

/// The message retained for logging: the underlying cause's own message
/// where one exists, the fixed phrase otherwise.
pub open spec fn spec_detail(e: Error) -> Seq<char> {
    match e {
        Error::System(d) => d@,
        Error::Storage(_, d) => d@,
        Error::Upstream(_, d) => d@,
        _ => spec_message(e),
    }
}

impl Error {
    /// The status carried by the response for this outcome kind.
    /// Persistence faults map through their classification; upstream codes
    /// pass through verbatim only when transmissible.
    pub fn status(&self) -> (r: u16)
        ensures
            r == spec_status(*self),
    {
        match self {
            Error::Authentication => 401,
            Error::Authorization => 403,
            Error::BadRequest => 400,
            Error::Conflict => 409,
            Error::NotFound => 404,
            Error::Unprocessable => 422,
            Error::System(_) => 500,
            Error::Storage(f, _) => match f {
                StorageFault::RowNotFound => 404,
                StorageFault::UniqueViolation => 409,
                StorageFault::Other => 500,
            },
            Error::Upstream(c, _) => match c {
                Some(code) => {
                    let v: u16 = *code;
                    if 100 <= v && v <= 599 {
                        v
                    } else {
                        500
                    }
                },
                None => 500,
            },
        }
    }

    /// The fixed phrase exposed on the wire for this outcome kind; no
    /// detail of the underlying cause leaks into it.
    pub fn message(&self) -> (r: String)
        ensures
            r@ == spec_message(*self),
    {
        match self {
            Error::Authentication => "User is not authenticated".to_owned(),
            Error::Authorization => "User is not authorized to perform operation".to_owned(),
            Error::BadRequest => "Bad request".to_owned(),
            Error::Conflict => "Entity conflict".to_owned(),
            Error::NotFound => "Entity not found".to_owned(),
            Error::Unprocessable => "Unprocessable entity".to_owned(),
            Error::System(_) => "Internal error".to_owned(),
            Error::Storage(_, _) => "Data store error".to_owned(),
            Error::Upstream(_, _) => "Upstream service error".to_owned(),
        }
    }

    /// The full message retained for logging.
    pub fn detail(&self) -> (r: String)
        ensures
            r@ == spec_detail(*self),
    {
        match self {
            Error::System(d) => d.clone(),
            Error::Storage(_, d) => d.clone(),
            Error::Upstream(_, d) => d.clone(),
            _ => self.message(),
        }
    }
}

#[verifier::external_type_specification]
#[verifier::external_body]
pub struct ExDieselError(DieselFault);

/// Relies on diesel::result::Error: its row-not-found variant and its
/// unique-constraint-violation variant are told apart from every other
/// persistence fault, and the fault's rendered message is kept.
#[verifier::external_body]
fn classify_storage_fault(e: &DieselFault) -> (r: (StorageFault, String)) {
    let kind = match e {
        DieselFault::NotFound => StorageFault::RowNotFound,
        DieselFault::DatabaseError(diesel::result::DatabaseErrorKind::UniqueViolation, _) => {
            StorageFault::UniqueViolation
        },
        _ => StorageFault::Other,
    };
    (kind, format!("{}", e))
}

/// Reclassifies a persistence-layer fault into the taxonomy. The outcome is
/// always a storage kind; which classification it carries is decided by the
/// fault itself, and the status mapping of each classification is fixed by
/// `spec_status`.
pub fn from_storage_fault(e: &DieselFault) -> (r: Error)
    ensures
        r matches Error::Storage(_, _),
{
    let (kind, detail) = classify_storage_fault(e);
    Error::Storage(kind, detail)
}

/// Law: a persistence fault mapped through the taxonomy yields the
/// not-found status for a missing row, the conflict status for a
/// uniqueness violation, and the internal-error status for anything else.
pub proof fn lemma_persistence_fault_status(e: Error, f: StorageFault)
    requires
        e matches Error::Storage(g, _) && g == f,
    ensures
        f == StorageFault::RowNotFound ==> spec_status(e) == 404,
        f == StorageFault::UniqueViolation ==> spec_status(e) == 409,
        f == StorageFault::Other ==> spec_status(e) == 500,
{
}

/// Law: every outcome kind maps to a transmissible status; no response can
/// leave the boundary without one.
pub proof fn lemma_status_always_transmissible(e: Error)
    ensures
        valid_status(spec_status(e)),
{
}

} // verus!
