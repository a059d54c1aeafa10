//! Decoding STL mesh streams.
//!
//! The tool never looks inside a mesh: it decodes the byte stream to
//! learn whether it is a well-formed STL file, and keeps only the sizes
//! of the decoded mesh. The decoding itself is `stl_io`'s; what it
//! accepts is abstracted by `stl_mesh_counts`.

use vstd::prelude::*;

verus! {

/// The vertex and face counts of the mesh that `stl_io` decodes from a
/// byte stream: `Some((vertices, faces))` exactly when the stream is a
/// well-formed ASCII or binary STL file, `None` otherwise.
pub uninterp spec fn stl_mesh_counts(bytes: Seq<u8>) -> Option<(nat, nat)>;

/// Sizes of a decoded mesh: how many distinct vertices and how many
/// triangular faces it has.
#[derive(Debug)]
pub struct StlSummary {
    pub vertex_count: usize,
    pub face_count: usize,
}

/// Why a byte stream could not be loaded as an STL mesh.
#[derive(Debug, PartialEq, Eq)]
pub enum StlError {
    /// The stream is not a well-formed ASCII or binary STL file.
    InvalidStream,
}

impl StlError {
    /// The fatal message the command line reports for this error.
    pub fn message(&self) -> (r: String)
        ensures
            r@ == "Failed to read STL"@,
    {
        "Failed to read STL".to_owned()
    }
}

/// Relies on stl_io::read_stl: decodes an ASCII or binary STL stream
/// from an in-memory cursor, returning the mesh or an error; the
/// outcome depends on the bytes alone, and no input makes it panic.
#[verifier::external_body]
fn read_stl_counts(bytes: &Vec<u8>) -> (r: Option<(usize, usize)>)
    ensures
        r is Some <==> stl_mesh_counts(bytes@) is Some,
        r matches Some(c) ==> stl_mesh_counts(bytes@) == Some((c.0 as nat, c.1 as nat)),
{
    match stl_io::read_stl(&mut std::io::Cursor::new(bytes.as_slice())) {
        Ok(mesh) => Some((mesh.vertices.len(), mesh.faces.len())),
        Err(_) => None,
    }
}

/// Decode a byte stream as an STL mesh.
///
/// Succeeds exactly on the streams that the STL decoder accepts, and
/// then reports the decoded mesh's sizes; every other stream gives
/// `StlError::InvalidStream`.
pub fn load_stl(bytes: &Vec<u8>) -> (r: Result<StlSummary, StlError>)
    ensures
        r is Ok <==> stl_mesh_counts(bytes@) is Some,
        r matches Ok(s) ==> stl_mesh_counts(bytes@) == Some(
            (s.vertex_count as nat, s.face_count as nat),
        ),
        r matches Err(e) ==> e == StlError::InvalidStream,
{
    match read_stl_counts(bytes) {
        Some(counts) => Ok(
            StlSummary { vertex_count: counts.0, face_count: counts.1 },
        ),
        None => Err(StlError::InvalidStream),
    }
}

} // verus!
