//! An identity-bound key-value registry.
//!
//! Callers store, retrieve and delete labeled string values attributed to an
//! identity: either a native platform account or a foreign secp256k1-derived
//! address. Writes under a native identity require the caller to be that
//! account or to hold a delegated write grant from it; writes under a foreign
//! identity require a valid recoverable signature over the content written.

use vstd::prelude::*;

pub mod laws;
pub mod primitives;
pub mod store;
pub mod validation;

verus! {

/// An identity that values can be attributed to.
pub enum Id {
    /// An account in the host platform's native namespace.
    AccountId(String),
    /// A hex string (optionally `0x`-prefixed) of a 20-byte secp256k1-derived
    /// address, foreign to the native namespace.
    EvmAddress(String),
}

/// Why an attempted write was refused. Every failure aborts the whole call;
/// no partial mutation survives.
#[derive(Clone, Copy, Debug, PartialEq, Eq)]
pub enum AuthError {
    /// A native-account write was attempted by a caller that is neither the
    /// account itself nor its current delegate.
    NotDelegate,
    /// A foreign-identity write was attempted without a signature.
    MissingSignature,
    /// The claimed foreign address is not valid hex of exactly 20 bytes.
    MalformedAddress,
    /// The signature is not valid hex of exactly 65 bytes.
    MalformedSignature,
    /// Public-key recovery rejected the signature.
    RecoveryFailed,
    /// Recovery succeeded but the derived address differs from the claim.
    SignatureMismatch,
}

/// Canonical storage-key form of a native account: `near|<account>`.
pub open spec fn native_key(account: Seq<char>) -> Seq<char> {
    "near|"@ + account
}

/// Canonical storage-key form of a foreign address: `evm|<address>`.
pub open spec fn evm_key(address: Seq<char>) -> Seq<char> {
    "evm|"@ + address
}

/// Canonical storage-key form of an identity. The fixed tag prefix keeps the
/// encoding injective across the two variants.
pub open spec fn canon(id: Id) -> Seq<char> {
    match id {
        Id::AccountId(account) => native_key(account@),
        Id::EvmAddress(address) => evm_key(address@),
    }
}

impl Id {
    /// The canonical string form of this identity, used as the identity
    /// component of storage keys.
    pub fn to_string(&self) -> (r: String)
        ensures
            r@ == canon(*self),
    {
        match self {
            Id::AccountId(account) => String::from_str("near|").concat(account.as_str()),
            Id::EvmAddress(address) => String::from_str("evm|").concat(address.as_str()),
        }
    }
}

/// The verdict of the identity resolver: the canonical storage-key prefix
/// the caller may write under, or the failure that aborts the call.
///
/// With no requested identity the caller writes to its own native namespace.
/// A requested native account must be the caller itself or a grantor whose
/// current delegate is the caller. A requested foreign address must come with
/// a signature over the payload that proves control of the address.
pub open spec fn resolve_spec(
    delegates: Map<Seq<char>, Seq<char>>,
    caller: Seq<char>,
    id: Option<Id>,
    payload: Seq<u8>,
    proof_hex: Option<String>,
) -> Result<Seq<char>, AuthError> {
    match id {
        None => Ok(native_key(caller)),
        Some(Id::AccountId(account)) => if account@ == caller {
            Ok(native_key(account@))
        } else if delegates.contains_key(account@) && delegates[account@] == caller {
            Ok(native_key(account@))
        } else {
            Err(AuthError::NotDelegate)
        },
        Some(Id::EvmAddress(address)) => match proof_hex {
            None => Err(AuthError::MissingSignature),
            Some(signature) => match validation::evm_verify_spec(address@, payload, signature@) {
                Ok(_) => Ok(evm_key(address@)),
                Err(e) => Err(e),
            },
        },
    }
}

/// What one `set` call does to the stored mappings: on authorization, the
/// entry under the resolved key and the label is overwritten by the content,
/// or removed when the content is absent; on failure nothing changes.
pub open spec fn set_outcome(
    delegates: Map<Seq<char>, Seq<char>>,
    mappings: Map<(Seq<char>, Seq<char>), Seq<char>>,
    caller: Seq<char>,
    id: Option<Id>,
    label: Seq<char>,
    content: Option<String>,
    proof_hex: Option<String>,
) -> Result<Map<(Seq<char>, Seq<char>), Seq<char>>, AuthError> {
    match resolve_spec(delegates, caller, id, validation::payload_bytes(content), proof_hex) {
        Ok(key) => Ok(
            match content {
                Some(c) => mappings.insert((key, label), c@),
                None => mappings.remove((key, label)),
            },
        ),
        Err(e) => Err(e),
    }
}

/// The registry: the stored mappings and the delegation records.
pub struct Contract {
    mappings: store::PairTable,
    delegates: vstd::hash_map::StringHashMap<String>,
}

impl Contract {
    /// The table invariant every operation preserves.
    pub closed spec fn wf(self) -> bool {
        self.mappings.wf()
    }

    /// The stored mappings: composite `(identity key, label)` to content.
    pub closed spec fn mappings_view(self) -> Map<(Seq<char>, Seq<char>), Seq<char>> {
        self.mappings@
    }

    /// The delegation records: grantor account to its single current
    /// delegate.
    pub closed spec fn delegates_view(self) -> Map<Seq<char>, Seq<char>> {
        self.delegates@.map_values(|v: String| v@)
    }

    /// An empty registry: nothing stored, nothing delegated.
    pub fn new() -> (c: Contract)
        ensures
            c.wf(),
            c.mappings_view() == Map::<(Seq<char>, Seq<char>), Seq<char>>::empty(),
            c.delegates_view() == Map::<Seq<char>, Seq<char>>::empty(),
    {
        let c = Contract {
            mappings: store::PairTable::new(),
            delegates: vstd::hash_map::StringHashMap::new(),
        };
        proof {
            assert(c.delegates_view() =~= Map::<Seq<char>, Seq<char>>::empty());
        }
        c
    }

    /// Decides whether the caller may write under the requested identity and
    /// returns the canonical key to write under, or the failure that aborts
    /// the call.
    pub fn resolve_id(
        &self,
        caller: &String,
        id: Option<Id>,
        content: &Option<String>,
        proof_hex: Option<String>,
    ) -> (r: Result<String, AuthError>)
        ensures
            match r {
                Ok(key) => resolve_spec(
                    self.delegates_view(),
                    caller@,
                    id,
                    validation::payload_bytes(*content),
                    proof_hex,
                ) == Ok::<Seq<char>, AuthError>(key@),
                Err(e) => resolve_spec(
                    self.delegates_view(),
                    caller@,
                    id,
                    validation::payload_bytes(*content),
                    proof_hex,
                ) == Err::<Seq<char>, AuthError>(e),
            },
    {
        match id {
            None => Ok(Id::AccountId(caller.clone()).to_string()),
            Some(Id::AccountId(account)) => {
                let authorized = if account == *caller {
                    true
                } else {
                    match self.delegates.get(account.as_str()) {
                        Some(delegate) => *delegate == *caller,
                        None => false,
                    }
                };
                if authorized {
                    Ok(Id::AccountId(account).to_string())
                } else {
                    Err(AuthError::NotDelegate)
                }
            },
            Some(Id::EvmAddress(address)) => match proof_hex {
                None => Err(AuthError::MissingSignature),
                Some(signature) => match validation::validate_evm_address(
                    address.as_str(),
                    content,
                    signature.as_str(),
                ) {
                    Ok(_) => Ok(Id::EvmAddress(address).to_string()),
                    Err(e) => Err(e),
                },
            },
        }
    }

    /// Stores, overwrites or deletes the value under `label` in the
    /// requested identity's namespace, after authorizing the caller; on
    /// failure nothing is mutated.
    pub fn set(
        &mut self,
        caller: &String,
        id: Option<Id>,
        label: String,
        content: Option<String>,
        proof_hex: Option<String>,
    ) -> (r: Result<(), AuthError>)
        requires
            old(self).wf(),
        ensures
            final(self).wf(),
            final(self).delegates_view() == old(self).delegates_view(),
            match r {
                Ok(_) => set_outcome(
                    old(self).delegates_view(),
                    old(self).mappings_view(),
                    caller@,
                    id,
                    label@,
                    content,
                    proof_hex,
                ) == Ok::<Map<(Seq<char>, Seq<char>), Seq<char>>, AuthError>(
                    final(self).mappings_view(),
                ),
                Err(e) => set_outcome(
                    old(self).delegates_view(),
                    old(self).mappings_view(),
                    caller@,
                    id,
                    label@,
                    content,
                    proof_hex,
                ) == Err::<Map<(Seq<char>, Seq<char>), Seq<char>>, AuthError>(e)
                    && final(self).mappings_view() == old(self).mappings_view(),
            },
    {
        let key = match self.resolve_id(caller, id, &content, proof_hex) {
            Ok(key) => key,
            Err(e) => {
                return Err(e);
            },
        };
        match content {
            Some(c) => self.mappings.insert(key, label, c),
            None => self.mappings.remove(&key, &label),
        }
        Ok(())
    }

    /// Looks up the value stored under `label` in the identity's namespace.
    /// Reads are public: no authorization, and a missing entry is a normal
    /// absent result, never an error.
    pub fn get(&self, id: Id, label: String) -> (r: Option<String>)
        requires
            self.wf(),
        ensures
            match r {
                Some(v) => self.mappings_view().contains_key((canon(id), label@)) && v@
                    == self.mappings_view()[(canon(id), label@)],
                None => !self.mappings_view().contains_key((canon(id), label@)),
            },
    {
        let key = id.to_string();
        match self.mappings.get(&key, &label) {
            Some(v) => Some(v.clone()),
            None => None,
        }
    }

    /// Grants `account_id` the right to write into the caller's own
    /// namespace, replacing any earlier grant; with no target, revokes the
    /// caller's grant. Only ever keyed by the caller.
    pub fn delegate(&mut self, caller: &String, account_id: Option<String>)
        requires
            old(self).wf(),
        ensures
            final(self).wf(),
            final(self).mappings_view() == old(self).mappings_view(),
            final(self).delegates_view() == (match account_id {
                Some(delegate) => old(self).delegates_view().insert(caller@, delegate@),
                None => old(self).delegates_view().remove(caller@),
            }),
    {
        match account_id {
            Some(delegate) => {
                let ghost dv = self.delegates_view();
                let ghost d = delegate@;
                self.delegates.insert(caller.clone(), delegate);
                proof {
                    assert(self.delegates_view() =~= dv.insert(caller@, d));
                }
            },
            None => {
                let ghost dv = self.delegates_view();
                self.delegates.remove(caller.as_str());
                proof {
                    assert(self.delegates_view() =~= dv.remove(caller@));
                }
            },
        }
    }
}

/// Canonicalization is injective: equal canonical forms come from the same
/// variant with the same payload, so keys of distinct identities never
/// collide.
pub proof fn lemma_canon_injective(id1: Id, id2: Id)
    requires
        canon(id1) == canon(id2),
    ensures
        id1 matches Id::AccountId(a1) ==> (id2 matches Id::AccountId(a2) && a1@ == a2@),
        id1 matches Id::EvmAddress(e1) ==> (id2 matches Id::EvmAddress(e2) && e1@ == e2@),
{
    reveal_strlit("near|");
    reveal_strlit("evm|");
    match (id1, id2) {
        (Id::AccountId(a1), Id::AccountId(a2)) => {
            assert(canon(id1).len() == 5 + a1@.len());
            assert(canon(id2).len() == 5 + a2@.len());
            assert(a1@ =~= a2@) by {
                assert forall|i: int| 0 <= i < a1@.len() implies a1@[i] == a2@[i] by {
                    assert(a1@[i] == ("near|"@ + a1@)[i + 5]);
                    assert(a2@[i] == ("near|"@ + a2@)[i + 5]);
                }
            }
        },
        (Id::EvmAddress(e1), Id::EvmAddress(e2)) => {
            assert(canon(id1).len() == 4 + e1@.len());
            assert(canon(id2).len() == 4 + e2@.len());
            assert(e1@ =~= e2@) by {
                assert forall|i: int| 0 <= i < e1@.len() implies e1@[i] == e2@[i] by {
                    assert(e1@[i] == ("evm|"@ + e1@)[i + 4]);
                    assert(e2@[i] == ("evm|"@ + e2@)[i + 4]);
                }
            }
        },
        (Id::AccountId(a1), Id::EvmAddress(e2)) => {
            assert(canon(id1)[0] == 'n');
            assert(canon(id2)[0] == 'e');
        },
        (Id::EvmAddress(e1), Id::AccountId(a2)) => {
            assert(canon(id1)[0] == 'e');
            assert(canon(id2)[0] == 'n');
        },
    }
}

} // verus!
