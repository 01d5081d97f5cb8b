//! The handler behind the gateway's one route.

use vstd::prelude::*;
use crate::envelope::Post;

verus! {

/// Answers a posted envelope with that same envelope.
///
/// The handler accepts every envelope and never fails: the reply is the
/// request, identifier and all.
pub fn post(json: Post) -> (reply: Post)
    ensures
        reply == json,
        reply@ == json@,
{
    json
}

} // verus!
