//! The read-only backend connector handed to the sync engine.

use vstd::prelude::*;
use crate::text::{occurs_at, seq_contains};

verus! {

/// Why every upload is refused: the daemon never writes through the sync engine.
pub const READ_ONLY_UPLOAD_MESSAGE: &'static str = "local write queue is not supported in rust-edge deadline mode; keep the daemon read-only and send writes through your backend workflow";

/// The sync endpoint and the token that authenticates against it.
#[derive(Clone, Debug)]
pub struct FieldMidConnector {
    endpoint: String,
    token: String,
}

impl FieldMidConnector {
    pub closed spec fn spec_endpoint(&self) -> Seq<char> {
        self.endpoint@
    }

    pub closed spec fn spec_token(&self) -> Seq<char> {
        self.token@
    }

    /// A connector for `endpoint`, authenticated by `token`.
    pub fn new(endpoint: String, token: String) -> (res: Self)
        ensures
            res.spec_endpoint() == endpoint@,
            res.spec_token() == token@,
    {
        Self { endpoint, token }
    }

    /// The credentials the sync engine asks for: the endpoint and the token, unchanged.
    pub fn credentials(&self) -> (res: (String, String))
        ensures
            res.0@ == self.spec_endpoint(),
            res.1@ == self.spec_token(),
    {
        (self.endpoint.clone(), self.token.clone())
    }

    /// The answer to every upload request: the read-only refusal.
    pub fn upload_refusal(&self) -> (res: &'static str)
        ensures
            res@ == READ_ONLY_UPLOAD_MESSAGE@,
    {
        READ_ONLY_UPLOAD_MESSAGE
    }
}

/// Every upload refusal says that the daemon is read-only.
pub proof fn lemma_refusal_mentions_read_only()
    ensures
        seq_contains(READ_ONLY_UPLOAD_MESSAGE@, "read-only"@),
{
    reveal_strlit("local write queue is not supported in rust-edge deadline mode; keep the daemon read-only and send writes through your backend workflow");
    reveal_strlit("read-only");
    assert(READ_ONLY_UPLOAD_MESSAGE@.subrange(79, 88) =~= "read-only"@);
    assert(occurs_at(READ_ONLY_UPLOAD_MESSAGE@, "read-only"@, 79));
}

} // verus!
