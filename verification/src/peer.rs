//! Peer identifiers: the token under which a connection is registered, taken
//! once from the path that the connection asked for.

use crate::text::chars_of;
use vstd::prelude::*;

verus! {

/// Why a connection is refused before it becomes active.
#[derive(Clone, Copy, Debug, PartialEq, Eq, Structural)]
pub enum HandshakeError {
    /// The requested path holds no `/`, so no segment follows one.
    MalformedRequest,
    /// The segment behind the first `/` is empty.
    MissingIdentifier,
}

/// The first position at or after `from` that holds a `/`, or the length of
/// the path where none does.
pub open spec fn next_slash(path: Seq<char>, from: int) -> int
    decreases path.len() - from,
{
    if from < 0 || from >= path.len() {
        path.len() as int
    } else if path[from] == '/' {
        from
    } else {
        next_slash(path, from + 1)
    }
}

/// The identifier that a path names: what stands between its first `/` and
/// the next one, or the end of the path.
pub open spec fn peer_id_of(path: Seq<char>) -> Result<Seq<char>, HandshakeError> {
    let first = next_slash(path, 0);
    let second = next_slash(path, first + 1);
    if first >= path.len() {
        Err(HandshakeError::MalformedRequest)
    } else if second == first + 1 {
        Err(HandshakeError::MissingIdentifier)
    } else {
        Ok(path.subrange(first + 1, second))
    }
}

proof fn lemma_next_slash(path: Seq<char>, from: int)
    requires
        0 <= from <= path.len(),
    ensures
        from <= next_slash(path, from) <= path.len(),
        next_slash(path, from) < path.len() ==> path[next_slash(path, from)] == '/',
        forall|i: int| from <= i < next_slash(path, from) ==> path[i] != '/',
    decreases path.len() - from,
{
    if from < path.len() && path[from] != '/' {
        lemma_next_slash(path, from + 1);
    }
}

/// The identifier of a path is its first segment: it is not empty, holds no
/// `/`, stands directly behind the first `/` of the path and ends at the next
/// `/` or at the end of the path. A path is malformed exactly when it holds
/// no `/`, and lacks an identifier exactly when its first `/` is its last
/// character or is followed by another.
pub proof fn law_peer_id_is_the_first_segment(path: Seq<char>)
    ensures
        match peer_id_of(path) {
            Ok(id) => {
                let first = next_slash(path, 0);
                &&& id.len() > 0
                &&& forall|i: int| 0 <= i < id.len() ==> id[i] != '/'
                &&& 0 <= first < path.len() && path[first] == '/'
                &&& forall|i: int| 0 <= i < first ==> path[i] != '/'
                &&& first + 1 + id.len() <= path.len()
                &&& path.subrange(first + 1, first + 1 + id.len()) == id
                &&& first + 1 + id.len() == path.len() || path[first + 1 + id.len()] == '/'
            },
            Err(HandshakeError::MalformedRequest) => forall|i: int|
                0 <= i < path.len() ==> path[i] != '/',
            Err(HandshakeError::MissingIdentifier) => {
                let first = next_slash(path, 0);
                &&& 0 <= first < path.len() && path[first] == '/'
                &&& forall|i: int| 0 <= i < first ==> path[i] != '/'
                &&& first + 1 == path.len() || path[first + 1] == '/'
            },
        },
{
    lemma_next_slash(path, 0);
    let first = next_slash(path, 0);
    if first < path.len() {
        lemma_next_slash(path, first + 1);
    }
}

fn find_slash(chars: &Vec<char>, from: usize) -> (at: usize)
    requires
        from <= chars.len(),
    ensures
        at == next_slash(chars@, from as int),
        from <= at <= chars.len(),
{
    let mut at: usize = from;
    while at < chars.len() && chars[at] != '/'
        invariant
            from <= at <= chars.len(),
            next_slash(chars@, from as int) == next_slash(chars@, at as int),
        decreases chars.len() - at,
    {
        at = at + 1;
    }
    at
}

/// Takes the peer identifier from the path of a connection request: the
/// segment behind the first `/`. A path without `/` and an empty segment are
/// refused.
pub fn extract_peer_id(path: &str) -> (id: Result<String, HandshakeError>)
    ensures
        match peer_id_of(path@) {
            Ok(expected) => id matches Ok(found) && found@ == expected,
            Err(error) => id == Err::<String, HandshakeError>(error),
        },
{
    let chars = chars_of(path);
    let first = find_slash(&chars, 0);
    if first >= chars.len() {
        return Err(HandshakeError::MalformedRequest);
    }
    let second = find_slash(&chars, first + 1);
    if second == first + 1 {
        return Err(HandshakeError::MissingIdentifier);
    }
    Ok(String::from_str(path.substring_char(first + 1, second)))
}

} // verus!
