//! The authorization laws the registry guarantees, stated over the spec
//! functions that the public contracts use.

use vstd::prelude::*;

use crate::validation::payload_bytes;
use crate::{native_key, resolve_spec, set_outcome, AuthError, Id};

verus! {

/// Self-write invariant: a call with no requested identity always resolves
/// to the caller's own native namespace, whatever the delegation records,
/// the payload and the proof hold.
pub proof fn law_self_write(
    delegates: Map<Seq<char>, Seq<char>>,
    caller: Seq<char>,
    payload: Seq<u8>,
    proof_hex: Option<String>,
)
    ensures
        resolve_spec(delegates, caller, None, payload, proof_hex) == Ok::<Seq<char>, AuthError>(
            native_key(caller),
        ),
{
}

/// Delegation exclusivity: while a grantor's record names a delegate, a
/// write requested for the grantor succeeds for the grantor itself and for
/// that delegate, and fails with `NotDelegate` for every other caller.
pub proof fn law_delegation_exclusivity(
    delegates: Map<Seq<char>, Seq<char>>,
    grantor: String,
    other: Seq<char>,
    payload: Seq<u8>,
    proof_hex: Option<String>,
)
    requires
        delegates.contains_key(grantor@),
    ensures
        resolve_spec(delegates, grantor@, Some(Id::AccountId(grantor)), payload, proof_hex)
            == Ok::<Seq<char>, AuthError>(native_key(grantor@)),
        resolve_spec(
            delegates,
            delegates[grantor@],
            Some(Id::AccountId(grantor)),
            payload,
            proof_hex,
        ) == Ok::<Seq<char>, AuthError>(native_key(grantor@)),
        other != grantor@ && other != delegates[grantor@] ==> resolve_spec(
            delegates,
            other,
            Some(Id::AccountId(grantor)),
            payload,
            proof_hex,
        ) == Err::<Seq<char>, AuthError>(AuthError::NotDelegate),
{
}

/// Delegation revocation: once the grantor's record is removed, a
/// previously-valid delegate can no longer write to the grantor's namespace.
pub proof fn law_delegation_revocation(
    delegates: Map<Seq<char>, Seq<char>>,
    grantor: String,
    previous: Seq<char>,
    payload: Seq<u8>,
    proof_hex: Option<String>,
)
    requires
        previous != grantor@,
    ensures
        resolve_spec(
            delegates.remove(grantor@),
            previous,
            Some(Id::AccountId(grantor)),
            payload,
            proof_hex,
        ) == Err::<Seq<char>, AuthError>(AuthError::NotDelegate),
{
}

/// Delegation overwrite: granting twice keeps only the later delegate; the
/// earlier one loses authorization, the later one holds it.
pub proof fn law_delegation_overwrite(
    delegates: Map<Seq<char>, Seq<char>>,
    grantor: String,
    first: Seq<char>,
    second: Seq<char>,
    payload: Seq<u8>,
    proof_hex: Option<String>,
)
    ensures
        resolve_spec(
            delegates.insert(grantor@, first).insert(grantor@, second),
            second,
            Some(Id::AccountId(grantor)),
            payload,
            proof_hex,
        ) == Ok::<Seq<char>, AuthError>(native_key(grantor@)),
        first != grantor@ && first != second ==> resolve_spec(
            delegates.insert(grantor@, first).insert(grantor@, second),
            first,
            Some(Id::AccountId(grantor)),
            payload,
            proof_hex,
        ) == Err::<Seq<char>, AuthError>(AuthError::NotDelegate),
{
}

/// Deletion semantics: a deleting `set` passes through the same
/// authorization gate as any other write, and on success the entry under the
/// resolved key and label is absent.
pub proof fn law_deletion(
    delegates: Map<Seq<char>, Seq<char>>,
    mappings: Map<(Seq<char>, Seq<char>), Seq<char>>,
    caller: Seq<char>,
    id: Id,
    label: Seq<char>,
    proof_hex: Option<String>,
)
    ensures
        (match resolve_spec(delegates, caller, Some(id), payload_bytes(None), proof_hex) {
            Ok(key) => set_outcome(delegates, mappings, caller, Some(id), label, None, proof_hex)
                == Ok::<Map<(Seq<char>, Seq<char>), Seq<char>>, AuthError>(
                mappings.remove((key, label)),
            ) && !mappings.remove((key, label)).contains_key((key, label)),
            Err(e) => set_outcome(delegates, mappings, caller, Some(id), label, None, proof_hex)
                == Err::<Map<(Seq<char>, Seq<char>), Seq<char>>, AuthError>(e),
        }),
{
}

/// Idempotence: a second `set` with the same arguments leaves the stored
/// mappings exactly as the first left them, and fails exactly when the first
/// failed.
pub proof fn law_set_idempotent(
    delegates: Map<Seq<char>, Seq<char>>,
    mappings: Map<(Seq<char>, Seq<char>), Seq<char>>,
    caller: Seq<char>,
    id: Option<Id>,
    label: Seq<char>,
    content: Option<String>,
    proof_hex: Option<String>,
)
    ensures
        (match set_outcome(delegates, mappings, caller, id, label, content, proof_hex) {
            Ok(once) => set_outcome(delegates, once, caller, id, label, content, proof_hex)
                == Ok::<Map<(Seq<char>, Seq<char>), Seq<char>>, AuthError>(once),
            Err(e) => set_outcome(delegates, mappings, caller, id, label, content, proof_hex)
                == Err::<Map<(Seq<char>, Seq<char>), Seq<char>>, AuthError>(e),
        }),
{
    let resolved = resolve_spec(
        delegates,
        caller,
        id,
        payload_bytes(content),
        proof_hex,
    );
    if resolved is Ok {
        let key = resolved->Ok_0;
        match content {
            Some(c) => {
                assert(mappings.insert((key, label), c@).insert((key, label), c@)
                    =~= mappings.insert((key, label), c@));
            },
            None => {
                assert(mappings.remove((key, label)).remove((key, label)) =~= mappings.remove(
                    (key, label),
                ));
            },
        }
    }
}

} // verus!
