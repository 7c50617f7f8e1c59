//! The shared identity values: the authentication provider, the identifier a
//! provider gives a user, and the service's own user identifier.

use vstd::prelude::*;
use crate::text::text;

verus! {

/// The provider that authenticated a user.
#[allow(non_camel_case_types)]
#[derive(Debug, Clone, Copy, PartialEq, Eq, Structural, Hash)]
pub enum AuthProvider {
    KEYCLOAK,
}

/// The name under which a provider is written and read.
pub open spec fn auth_provider_name(p: AuthProvider) -> Seq<char> {
    match p {
        AuthProvider::KEYCLOAK => "KEYCLOAK"@,
    }
}

/// Different providers have different names, so a provider read back from
/// the name it was written under is the same provider.
pub proof fn lemma_auth_provider_name_round_trip(p: AuthProvider, q: AuthProvider)
    ensures
        auth_provider_name(p) == auth_provider_name(q) <==> p == q,
{
    match p {
        AuthProvider::KEYCLOAK => {},
    }
    match q {
        AuthProvider::KEYCLOAK => {},
    }
}

/// The error of reading a provider name that names no provider.
#[derive(Debug, Clone, Copy, PartialEq, Eq, Structural)]
pub struct UnknownAuthProvider;

/// The message of an unknown provider name.
pub open spec fn unknown_auth_provider_message() -> Seq<char> {
    "Matching variant not found"@
}

impl UnknownAuthProvider {
    /// The error's message.
    pub fn to_string(&self) -> (s: String)
        ensures
            s@ == unknown_auth_provider_message(),
    {
        text("Matching variant not found")
    }
}

impl AuthProvider {
    /// The provider's name.
    pub fn to_string(&self) -> (s: String)
        ensures
            s@ == auth_provider_name(*self),
    {
        match self {
            AuthProvider::KEYCLOAK => text("KEYCLOAK"),
        }
    }

    /// Reads a provider from its exact name.
    pub fn from_str(s: &str) -> (r: Result<AuthProvider, UnknownAuthProvider>)
        ensures
            r matches Ok(p) ==> auth_provider_name(p) == s@,
            r is Err <==> (forall|p: AuthProvider| auth_provider_name(p) != s@),
    {
        let keycloak = "KEYCLOAK";
        proof {
            reveal_strlit("KEYCLOAK");
        }
        let n = s.unicode_len();
        if n != 8 {
            proof {
                assert forall|p: AuthProvider| auth_provider_name(p) != s@ by {
                    reveal_strlit("KEYCLOAK");
                }
            }
            return Err(UnknownAuthProvider);
        }
        let mut i: usize = 0;
        while i < 8
            invariant
                n == 8,
                n == s@.len(),
                keycloak@ == "KEYCLOAK"@,
                keycloak@.len() == 8,
                i <= 8,
                forall|k: int| 0 <= k < i ==> s@[k] == keycloak@[k],
            decreases 8 - i,
        {
            if s.get_char(i) != keycloak.get_char(i) {
                proof {
                    assert(s@[i as int] != keycloak@[i as int]);
                    assert forall|p: AuthProvider| auth_provider_name(p) != s@ by {
                        assert(auth_provider_name(p) == keycloak@);
                    }
                }
                return Err(UnknownAuthProvider);
            }
            i = i + 1;
        }
        assert(s@ =~= keycloak@);
        Ok(AuthProvider::KEYCLOAK)
    }
}

/// The identifier that a provider gives a user.
#[derive(Debug, PartialEq, Eq, Hash)]
pub struct AuthId(String);

impl View for AuthId {
    type V = Seq<char>;

    closed spec fn view(&self) -> Seq<char> {
        self.0@
    }
}

impl Clone for AuthId {
    fn clone(&self) -> (r: Self)
        ensures
            r@ == self@,
    {
        AuthId(self.0.clone())
    }
}

impl AuthId {
    /// An identifier with the given text.
    pub fn new(value: String) -> (r: Self)
        ensures
            r@ == value@,
    {
        AuthId(value)
    }

    /// The identifier's text.
    pub fn get_value(&self) -> (r: &String)
        ensures
            r@ == self@,
    {
        &self.0
    }

    /// The identifier's text, as a new string.
    pub fn to_string(&self) -> (r: String)
        ensures
            r@ == self@,
    {
        self.0.clone()
    }
}

/// The service's identifier of a user.
#[derive(Debug, Clone, Copy, PartialEq, Eq, Structural, Hash)]
pub struct UserId(i64);

impl UserId {
    /// The number of this identifier.
    pub closed spec fn value(self) -> i64 {
        self.0
    }

    /// The identifier with the given number.
    pub fn new(value: i64) -> (r: Self)
        ensures
            r.value() == value,
    {
        UserId(value)
    }

    /// The identifier's number.
    pub fn get_value(&self) -> (r: i64)
        ensures
            r == self.value(),
    {
        self.0
    }
}

} // verus!
