//! Signature algorithms by name, and the key family each belongs to.

use vstd::prelude::*;
use crate::keys::{KeyParameters, KeyParametersView};
use crate::text::same_text;

verus! {

/// The kind of key that an algorithm signs with.
#[derive(Debug, Clone, Copy, PartialEq, Eq, Structural)]
pub enum KeyFamily {
    Hmac,
    Rsa,
    EllipticCurve,
    Edwards,
}

/// A signature algorithm that a token header can declare.
#[derive(Debug, Clone, Copy, PartialEq, Eq, Structural)]
pub enum Algorithm {
    HS256,
    HS384,
    HS512,
    ES256,
    ES384,
    RS256,
    RS384,
    RS512,
    PS256,
    PS384,
    PS512,
    EdDSA,
}

/// The algorithm that a name, as written in a token header, stands for.
pub open spec fn algorithm_named(name: Seq<char>) -> Option<Algorithm> {
    if name == "HS256"@ {
        Some(Algorithm::HS256)
    } else if name == "HS384"@ {
        Some(Algorithm::HS384)
    } else if name == "HS512"@ {
        Some(Algorithm::HS512)
    } else if name == "ES256"@ {
        Some(Algorithm::ES256)
    } else if name == "ES384"@ {
        Some(Algorithm::ES384)
    } else if name == "RS256"@ {
        Some(Algorithm::RS256)
    } else if name == "RS384"@ {
        Some(Algorithm::RS384)
    } else if name == "RS512"@ {
        Some(Algorithm::RS512)
    } else if name == "PS256"@ {
        Some(Algorithm::PS256)
    } else if name == "PS384"@ {
        Some(Algorithm::PS384)
    } else if name == "PS512"@ {
        Some(Algorithm::PS512)
    } else if name == "EdDSA"@ {
        Some(Algorithm::EdDSA)
    } else {
        None
    }
}

/// The names of the algorithms that sign with an RSA key.
pub open spec fn is_rsa_algorithm_name(name: Seq<char>) -> bool {
    ||| name == "RS256"@
    ||| name == "RS384"@
    ||| name == "RS512"@
    ||| name == "PS256"@
    ||| name == "PS384"@
    ||| name == "PS512"@
}

impl Algorithm {
    /// The name under which token headers declare this algorithm.
    pub open spec fn spec_name(self) -> Seq<char> {
        match self {
            Algorithm::HS256 => "HS256"@,
            Algorithm::HS384 => "HS384"@,
            Algorithm::HS512 => "HS512"@,
            Algorithm::ES256 => "ES256"@,
            Algorithm::ES384 => "ES384"@,
            Algorithm::RS256 => "RS256"@,
            Algorithm::RS384 => "RS384"@,
            Algorithm::RS512 => "RS512"@,
            Algorithm::PS256 => "PS256"@,
            Algorithm::PS384 => "PS384"@,
            Algorithm::PS512 => "PS512"@,
            Algorithm::EdDSA => "EdDSA"@,
        }
    }

    /// The key family that this algorithm signs with.
    pub open spec fn spec_family(self) -> KeyFamily {
        match self {
            Algorithm::HS256 | Algorithm::HS384 | Algorithm::HS512 => KeyFamily::Hmac,
            Algorithm::ES256 | Algorithm::ES384 => KeyFamily::EllipticCurve,
            Algorithm::RS256
            | Algorithm::RS384
            | Algorithm::RS512
            | Algorithm::PS256
            | Algorithm::PS384
            | Algorithm::PS512 => KeyFamily::Rsa,
            Algorithm::EdDSA => KeyFamily::Edwards,
        }
    }

    /// The name under which token headers declare this algorithm.
    pub fn name(&self) -> (name: &'static str)
        ensures
            name@ == self.spec_name(),
    {
        match self {
            Algorithm::HS256 => "HS256",
            Algorithm::HS384 => "HS384",
            Algorithm::HS512 => "HS512",
            Algorithm::ES256 => "ES256",
            Algorithm::ES384 => "ES384",
            Algorithm::RS256 => "RS256",
            Algorithm::RS384 => "RS384",
            Algorithm::RS512 => "RS512",
            Algorithm::PS256 => "PS256",
            Algorithm::PS384 => "PS384",
            Algorithm::PS512 => "PS512",
            Algorithm::EdDSA => "EdDSA",
        }
    }

    /// The key family that this algorithm signs with.
    pub fn family(&self) -> (family: KeyFamily)
        ensures
            family == self.spec_family(),
    {
        match self {
            Algorithm::HS256 | Algorithm::HS384 | Algorithm::HS512 => KeyFamily::Hmac,
            Algorithm::ES256 | Algorithm::ES384 => KeyFamily::EllipticCurve,
            Algorithm::RS256
            | Algorithm::RS384
            | Algorithm::RS512
            | Algorithm::PS256
            | Algorithm::PS384
            | Algorithm::PS512 => KeyFamily::Rsa,
            Algorithm::EdDSA => KeyFamily::Edwards,
        }
    }

    /// Reads an algorithm from its name. Names are case-sensitive; any
    /// other text gives `None`.
    pub fn parse(name: &str) -> (parsed: Option<Algorithm>)
        ensures
            parsed == algorithm_named(name@),
    {
        if same_text(name, "HS256") {
            Some(Algorithm::HS256)
        } else if same_text(name, "HS384") {
            Some(Algorithm::HS384)
        } else if same_text(name, "HS512") {
            Some(Algorithm::HS512)
        } else if same_text(name, "ES256") {
            Some(Algorithm::ES256)
        } else if same_text(name, "ES384") {
            Some(Algorithm::ES384)
        } else if same_text(name, "RS256") {
            Some(Algorithm::RS256)
        } else if same_text(name, "RS384") {
            Some(Algorithm::RS384)
        } else if same_text(name, "RS512") {
            Some(Algorithm::RS512)
        } else if same_text(name, "PS256") {
            Some(Algorithm::PS256)
        } else if same_text(name, "PS384") {
            Some(Algorithm::PS384)
        } else if same_text(name, "PS512") {
            Some(Algorithm::PS512)
        } else if same_text(name, "EdDSA") {
            Some(Algorithm::EdDSA)
        } else {
            None
        }
    }
}

/// An algorithm of the RSA family carries an RSA algorithm name.
pub proof fn lemma_rsa_family_name(algorithm: Algorithm)
    requires
        algorithm.spec_family() == KeyFamily::Rsa,
    ensures
        is_rsa_algorithm_name(algorithm.spec_name()),
{
}

impl KeyParametersView {
    /// The family of algorithms that can sign with a key of these parameters.
    pub open spec fn family(self) -> KeyFamily {
        match self {
            KeyParametersView::Rsa { .. } => KeyFamily::Rsa,
            KeyParametersView::EllipticCurve => KeyFamily::EllipticCurve,
            KeyParametersView::OctetKeyPair => KeyFamily::Edwards,
            KeyParametersView::Octet => KeyFamily::Hmac,
        }
    }
}

impl KeyParameters {
    /// The family of algorithms that can sign with a key of these parameters.
    pub fn family(&self) -> (family: KeyFamily)
        ensures
            family == self@.family(),
    {
        match self {
            KeyParameters::Rsa { .. } => KeyFamily::Rsa,
            KeyParameters::EllipticCurve => KeyFamily::EllipticCurve,
            KeyParameters::OctetKeyPair => KeyFamily::Edwards,
            KeyParameters::Octet => KeyFamily::Hmac,
        }
    }
}

} // verus!
