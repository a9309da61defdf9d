//! Result artifacts: the durable bytes a published result stands on.
use vstd::prelude::*;
use crate::domain::fence::{SafeToken, Timestamp};
use crate::domain::id::ResultArtifactId;

verus! {

/// A committed result artifact.
#[derive(Debug, PartialEq, Eq)]
pub struct ResultArtifact {
    pub id: ResultArtifactId,
    /// Daemon-allocated opaque storage key.
    pub storage_ref: SafeToken,
    /// SHA-256 digest of the bytes as written.
    pub digest: [u8; 32],
    /// Length of the bytes as written.
    pub byte_len: u64,
    pub created_at: Timestamp,
}

impl Clone for ResultArtifact {
    fn clone(&self) -> (r: Self)
        ensures
            r == *self,
    {
        ResultArtifact {
            id: self.id,
            storage_ref: self.storage_ref.clone(),
            digest: self.digest,
            byte_len: self.byte_len,
            created_at: self.created_at,
        }
    }
}

/// A result artifact on values alone.
#[verifier::ext_equal]
pub struct ArtifactView {
    pub id: ResultArtifactId,
    pub storage_ref: Seq<char>,
    pub digest: Seq<u8>,
    pub byte_len: u64,
    pub created_at: Timestamp,
}

impl View for ResultArtifact {
    type V = ArtifactView;

    open spec fn view(&self) -> ArtifactView {
        ArtifactView {
            id: self.id,
            storage_ref: self.storage_ref@,
            digest: self.digest@,
            byte_len: self.byte_len,
            created_at: self.created_at,
        }
    }
}

} // verus!
