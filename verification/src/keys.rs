//! Public signing keys and the key set that an issuer publishes.

use vstd::prelude::*;

verus! {

/// The algorithm-specific public parameters of a signing key.
#[derive(Debug, Clone, PartialEq, Eq)]
pub enum KeyParameters {
    /// An RSA public key: modulus and exponent, each base64url-encoded.
    Rsa { modulus: String, exponent: String },
    /// An elliptic-curve key. No signature is accepted under one.
    EllipticCurve,
    /// An octet key pair. No signature is accepted under one.
    OctetKeyPair,
    /// A symmetric key. No signature is accepted under one.
    Octet,
}

/// What `KeyParameters` holds, as plain values.
pub enum KeyParametersView {
    Rsa { modulus: Seq<char>, exponent: Seq<char> },
    EllipticCurve,
    OctetKeyPair,
    Octet,
}

impl View for KeyParameters {
    type V = KeyParametersView;

    open spec fn view(&self) -> KeyParametersView {
        match self {
            KeyParameters::Rsa { modulus, exponent } => KeyParametersView::Rsa {
                modulus: modulus@,
                exponent: exponent@,
            },
            KeyParameters::EllipticCurve => KeyParametersView::EllipticCurve,
            KeyParameters::OctetKeyPair => KeyParametersView::OctetKeyPair,
            KeyParameters::Octet => KeyParametersView::Octet,
        }
    }
}

/// One public key of an issuer. Immutable once constructed.
#[derive(Debug, Clone, PartialEq, Eq)]
pub struct SigningKey {
    /// The identifier by which token headers refer to this key, if it has one.
    pub key_id: Option<String>,
    pub parameters: KeyParameters,
}

/// What a `SigningKey` holds, as plain values.
pub struct SigningKeyView {
    pub key_id: Option<Seq<char>>,
    pub parameters: KeyParametersView,
}

impl View for SigningKey {
    type V = SigningKeyView;

    open spec fn view(&self) -> SigningKeyView {
        SigningKeyView { key_id: self.key_id.deep_view(), parameters: self.parameters@ }
    }
}

impl KeyParameters {
    /// A copy of these parameters.
    pub fn duplicate(&self) -> (copy: KeyParameters)
        ensures
            copy@ == self@,
    {
        match self {
            KeyParameters::Rsa { modulus, exponent } => KeyParameters::Rsa {
                modulus: modulus.clone(),
                exponent: exponent.clone(),
            },
            KeyParameters::EllipticCurve => KeyParameters::EllipticCurve,
            KeyParameters::OctetKeyPair => KeyParameters::OctetKeyPair,
            KeyParameters::Octet => KeyParameters::Octet,
        }
    }
}

impl SigningKey {
    /// A copy of this key.
    pub fn duplicate(&self) -> (copy: SigningKey)
        ensures
            copy@ == self@,
    {
        let key_id = match &self.key_id {
            Some(id) => Some(id.clone()),
            None => None,
        };
        SigningKey { key_id, parameters: self.parameters.duplicate() }
    }
}

/// The views of a list of keys.
pub open spec fn key_views(keys: Seq<SigningKey>) -> Seq<SigningKeyView> {
    keys.map_values(|k: SigningKey| k@)
}

/// The first key of `keys` whose identifier is `key_id`. Keys without an
/// identifier are never found.
pub open spec fn first_key_with_id(keys: Seq<SigningKeyView>, key_id: Seq<char>) -> Option<
    SigningKeyView,
>
    decreases keys.len(),
{
    if keys.len() == 0 {
        None
    } else if keys[0].key_id == Some(key_id) {
        Some(keys[0])
    } else {
        first_key_with_id(keys.drop_first(), key_id)
    }
}

/// A key that was found is one of the keys and carries the identifier.
pub proof fn lemma_found_key_is_member(keys: Seq<SigningKeyView>, key_id: Seq<char>)
    ensures
        match first_key_with_id(keys, key_id) {
            Some(key) => keys.contains(key) && key.key_id == Some(key_id),
            None => forall|k: int| 0 <= k < keys.len() ==> (#[trigger] keys[k]).key_id != Some(key_id),
        },
    decreases keys.len(),
{
    if keys.len() > 0 {
        if keys[0].key_id == Some(key_id) {
            assert(keys.contains(keys[0]));
        } else {
            let rest = keys.drop_first();
            lemma_found_key_is_member(rest, key_id);
            match first_key_with_id(rest, key_id) {
                Some(key) => {
                    let at = choose|k: int| 0 <= k < rest.len() && rest[k] == key;
                    assert(keys[at + 1] == key);
                },
                None => {
                    assert forall|k: int| 0 <= k < keys.len() implies (#[trigger] keys[k]).key_id
                        != Some(key_id) by {
                        if k > 0 {
                            assert(rest[k - 1] == keys[k]);
                        }
                    }
                },
            }
        }
    }
}

/// The keys most recently fetched from one issuer. A key set is only ever
/// replaced as a whole.
#[derive(Debug, Clone, PartialEq, Eq)]
pub struct KeySet {
    pub issuer_name: String,
    pub keys: Vec<SigningKey>,
    /// When the keys were fetched, in seconds since the epoch; `None` for a
    /// set that was never fetched.
    pub fetched_at: Option<i64>,
}

/// What a `KeySet` holds, as plain values.
pub struct KeySetView {
    pub issuer_name: Seq<char>,
    pub keys: Seq<SigningKeyView>,
    pub fetched_at: Option<int>,
}

impl View for KeySet {
    type V = KeySetView;

    open spec fn view(&self) -> KeySetView {
        KeySetView {
            issuer_name: self.issuer_name@,
            keys: key_views(self.keys@),
            fetched_at: match self.fetched_at {
                Some(at) => Some(at as int),
                None => None,
            },
        }
    }
}

impl KeySet {
    /// The empty key set of an issuer whose keys were not fetched yet.
    pub fn empty(issuer_name: String) -> (set: KeySet)
        ensures
            set@ == (KeySetView {
                issuer_name: issuer_name@,
                keys: Seq::<SigningKeyView>::empty(),
                fetched_at: None,
            }),
    {
        let set = KeySet { issuer_name, keys: Vec::new(), fetched_at: None };
        assert(key_views(set.keys@) =~= Seq::<SigningKeyView>::empty());
        set
    }

    /// A key set holding `keys`, fetched at `fetched_at`.
    pub fn fetched(issuer_name: String, keys: Vec<SigningKey>, fetched_at: i64) -> (set: KeySet)
        ensures
            set@ == (KeySetView {
                issuer_name: issuer_name@,
                keys: key_views(keys@),
                fetched_at: Some(fetched_at as int),
            }),
    {
        KeySet { issuer_name, keys, fetched_at: Some(fetched_at) }
    }

    /// Finds the key with the given identifier: the first one, where several
    /// carry it.
    pub fn find(&self, key_id: &str) -> (found: Option<&SigningKey>)
        ensures
            match found {
                Some(key) => first_key_with_id(self@.keys, key_id@) == Some(key@),
                None => first_key_with_id(self@.keys, key_id@) is None,
            },
    {
        let wanted: String = key_id.to_owned();
        let n: usize = self.keys.len();
        let mut i: usize = 0;
        assert(self@.keys.skip(0) =~= self@.keys);
        while i < n
            invariant
                0 <= i <= n,
                n == self.keys@.len(),
                wanted@ == key_id@,
                first_key_with_id(self@.keys, key_id@) == first_key_with_id(
                    self@.keys.skip(i as int),
                    key_id@,
                ),
            decreases n - i,
        {
            let ghost rest = self@.keys.skip(i as int);
            assert(rest[0] == self.keys@[i as int]@);
            assert(rest.drop_first() =~= self@.keys.skip(i + 1));
            let key: &SigningKey = &self.keys[i];
            match &key.key_id {
                Some(id) => {
                    if *id == wanted {
                        return Some(key);
                    }
                },
                None => {},
            }
            i = i + 1;
        }
        None
    }
}

} // verus!
