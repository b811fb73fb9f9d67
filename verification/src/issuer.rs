//! The trusted issuers and the registry that resolves an issuer claim.

use vstd::prelude::*;

verus! {

/// A trusted issuer. Loaded at start-up and never changed afterwards.
#[derive(Debug, Clone, PartialEq, Eq)]
pub struct Issuer {
    /// The value that the issuer writes into the issuer claim of its tokens.
    pub name: String,
    /// Where the issuer publishes its key set.
    pub metadata_url: String,
    /// The audience that tokens of this issuer must carry.
    pub expected_audience: String,
}

/// What an `Issuer` holds, as plain values.
pub struct IssuerView {
    pub name: Seq<char>,
    pub metadata_url: Seq<char>,
    pub expected_audience: Seq<char>,
}

impl View for Issuer {
    type V = IssuerView;

    open spec fn view(&self) -> IssuerView {
        IssuerView {
            name: self.name@,
            metadata_url: self.metadata_url@,
            expected_audience: self.expected_audience@,
        }
    }
}

impl Issuer {
    pub fn new(name: String, metadata_url: String, expected_audience: String) -> (issuer: Issuer)
        ensures
            issuer@ == (IssuerView {
                name: name@,
                metadata_url: metadata_url@,
                expected_audience: expected_audience@,
            }),
    {
        Issuer { name, metadata_url, expected_audience }
    }
}

/// The views of a list of issuers.
pub open spec fn issuer_views(issuers: Seq<Issuer>) -> Seq<IssuerView> {
    issuers.map_values(|i: Issuer| i@)
}

/// The position, at or after `start`, of the first issuer whose name is
/// exactly `claim`.
pub open spec fn resolve_from(issuers: Seq<IssuerView>, claim: Seq<char>, start: int) -> Option<int>
    decreases issuers.len() - start,
{
    if start < 0 || start >= issuers.len() {
        None
    } else if issuers[start].name == claim {
        Some(start)
    } else {
        resolve_from(issuers, claim, start + 1)
    }
}

/// The position of the issuer that an issuer claim names.
///
/// The match is exact and case-sensitive: no prefix, substring or wildcard
/// ever matches. Where two issuers were configured under one name, the
/// first is taken.
pub open spec fn resolve_issuer(issuers: Seq<IssuerView>, claim: Seq<char>) -> Option<int> {
    resolve_from(issuers, claim, 0)
}

/// A resolved position is in range and names an issuer of exactly that name.
pub proof fn lemma_resolve_from_sound(issuers: Seq<IssuerView>, claim: Seq<char>, start: int)
    requires
        0 <= start,
    ensures
        match resolve_from(issuers, claim, start) {
            Some(at) => start <= at < issuers.len() && issuers[at].name == claim && forall|j: int|
                start <= j < at ==> issuers[j].name != claim,
            None => forall|j: int| start <= j < issuers.len() ==> issuers[j].name != claim,
        },
    decreases issuers.len() - start,
{
    if start < issuers.len() && issuers[start].name != claim {
        lemma_resolve_from_sound(issuers, claim, start + 1);
    }
}

/// The static list of trusted issuers.
#[derive(Debug, Clone)]
pub struct IssuerRegistry {
    pub issuers: Vec<Issuer>,
}

impl View for IssuerRegistry {
    type V = Seq<IssuerView>;

    open spec fn view(&self) -> Seq<IssuerView> {
        issuer_views(self.issuers@)
    }
}

impl IssuerRegistry {
    pub fn new(issuers: Vec<Issuer>) -> (registry: IssuerRegistry)
        ensures
            registry@ == issuer_views(issuers@),
    {
        IssuerRegistry { issuers }
    }

    /// How many issuers are trusted.
    pub fn len(&self) -> (n: usize)
        ensures
            n == self@.len(),
    {
        self.issuers.len()
    }

    /// The issuer at a position.
    pub fn get(&self, at: usize) -> (issuer: &Issuer)
        requires
            at < self@.len(),
        ensures
            issuer@ == self@[at as int],
    {
        &self.issuers[at]
    }

    /// Resolves an issuer claim to the position of a trusted issuer, or to
    /// `None` where the claim names none of them.
    pub fn resolve(&self, claim: &str) -> (found: Option<usize>)
        ensures
            found is Some <==> resolve_issuer(self@, claim@) is Some,
            found matches Some(at) ==> resolve_issuer(self@, claim@) == Some(at as int) && at
                < self@.len() && self@[at as int].name == claim@,
    {
        let wanted: String = claim.to_owned();
        let n: usize = self.issuers.len();
        let mut i: usize = 0;
        while i < n
            invariant
                0 <= i <= n,
                n == self.issuers@.len(),
                wanted@ == claim@,
                resolve_issuer(self@, claim@) == resolve_from(self@, claim@, i as int),
            decreases n - i,
        {
            if self.issuers[i].name == wanted {
                return Some(i);
            }
            i = i + 1;
        }
        None
    }
}

} // verus!
