//! Identities and admission facts of X11 client connections.
use vstd::prelude::*;

verus! {

/// Monotonically assigned identity for one live X11 client connection.
#[derive(Clone, Copy, Debug, PartialEq, Eq, Hash, PartialOrd, Ord, Structural)]
pub struct XServerFrontendClientId(pub u64);

impl XServerFrontendClientId {
    pub fn from_raw(raw: u64) -> (id: Self)
        ensures
            id.0 == raw,
    {
        XServerFrontendClientId(raw)
    }

    pub fn raw(self) -> (raw: u64)
        ensures
            raw == self.0,
    {
        self.0
    }
}

/// How a connecting client must authorize itself in its setup request.
#[derive(Clone, Debug, PartialEq, Eq)]
pub enum XServerFrontendSetupAuthorization {
    UnauthenticatedLocal,
    MitMagicCookie([u8; 16]),
}

impl Default for XServerFrontendSetupAuthorization {
    fn default() -> (authorization: Self)
        ensures
            authorization is UnauthenticatedLocal,
    {
        XServerFrontendSetupAuthorization::UnauthenticatedLocal
    }
}

/// The authorization protocol name of the MIT magic cookie scheme,
/// `MIT-MAGIC-COOKIE-1`, as bytes.
pub open spec fn mit_magic_cookie_name() -> Seq<u8> {
    seq![77u8, 73, 84, 45, 77, 65, 71, 73, 67, 45, 67, 79, 79, 75, 73, 69, 45, 49]
}

fn is_mit_magic_cookie_name(name: &[u8]) -> (matches: bool)
    ensures
        matches == (name@ == mit_magic_cookie_name()),
{
    let expected: [u8; 18] = [77, 73, 84, 45, 77, 65, 71, 73, 67, 45, 67, 79, 79, 75, 73, 69, 45, 49];
    assert(expected@ =~= mit_magic_cookie_name());
    if name.len() != 18 {
        return false;
    }
    let mut i: usize = 0;
    while i < 18
        invariant
            name@.len() == 18,
            expected@ == mit_magic_cookie_name(),
            i <= 18,
            forall|j: int| 0 <= j < i ==> name@[j] == expected@[j],
        decreases 18 - i,
    {
        if name[i] != expected[i] {
            return false;
        }
        i = i + 1;
    }
    assert(name@ =~= expected@);
    true
}

/// How an admitted client proved who it is, as the rest of the system
/// records it.
#[derive(Clone, Copy, Debug, PartialEq, Eq, Structural)]
pub enum ClientAuthenticationMethod {
    /// A local client admitted without a cookie.
    TrustedLocal,
    /// A client that presented the `MIT-MAGIC-COOKIE-1` cookie.
    MitMagicCookie1,
}

impl XServerFrontendSetupAuthorization {
    /// The authentication method a client admitted under this scheme used.
    pub fn authentication_method(&self) -> (method: ClientAuthenticationMethod)
        ensures
            method == match self {
                XServerFrontendSetupAuthorization::UnauthenticatedLocal => {
                    ClientAuthenticationMethod::TrustedLocal
                },
                XServerFrontendSetupAuthorization::MitMagicCookie(_) => {
                    ClientAuthenticationMethod::MitMagicCookie1
                },
            },
    {
        match self {
            XServerFrontendSetupAuthorization::UnauthenticatedLocal => {
                ClientAuthenticationMethod::TrustedLocal
            },
            XServerFrontendSetupAuthorization::MitMagicCookie(_) => {
                ClientAuthenticationMethod::MitMagicCookie1
            },
        }
    }

    /// Whether a setup request that names `protocol_name` and carries `data`
    /// is admitted.
    pub fn permits(&self, protocol_name: &[u8], data: &[u8]) -> (permitted: bool)
        ensures
            permitted == match self {
                XServerFrontendSetupAuthorization::UnauthenticatedLocal => true,
                XServerFrontendSetupAuthorization::MitMagicCookie(expected) => protocol_name@
                    == mit_magic_cookie_name() && data@ == expected@,
            },
    {
        match self {
            XServerFrontendSetupAuthorization::UnauthenticatedLocal => true,
            XServerFrontendSetupAuthorization::MitMagicCookie(expected) => {
                is_mit_magic_cookie_name(protocol_name) && authorization_data_eq(data, expected)
            },
        }
    }
}

#[derive(Clone, Copy, Debug, PartialEq, Eq, Hash, Structural)]
pub struct XServerFrontendPeerCredentials {
    pub process_id: u32,
    pub user_id: u32,
    pub group_id: u32,
}

/// What the admission policy is asked to decide on for one connecting
/// client: who is on the other end of the socket, and how it authenticated.
#[derive(Clone, Copy, Debug, PartialEq, Eq, Structural)]
pub struct XServerFrontendAdmissionRequest {
    pub peer_credentials: Option<XServerFrontendPeerCredentials>,
    pub setup_authentication: ClientAuthenticationMethod,
}

#[derive(Clone, Copy, Debug, PartialEq, Eq, Structural)]
pub enum XServerFrontendAdmissionError {
    Denied,
    Unavailable,
}

#[derive(Clone, Copy, Debug, PartialEq, Eq, Structural)]
pub enum XServerFrontendRenderDeviceError {
    Unavailable,
    OpenFailed,
}

proof fn lemma_or_xor_zero(difference: u8, a: u8, b: u8)
    ensures
        (difference | (a ^ b)) == 0 <==> (difference == 0 && a == b),
{
    assert((difference | (a ^ b)) == 0 <==> (difference == 0 && a == b)) by (bit_vector);
}

/// Compares two byte strings in time that depends on their length alone.
pub fn authorization_data_eq(actual: &[u8], expected: &[u8]) -> (equal: bool)
    ensures
        equal == (actual@ == expected@),
{
    if actual.len() != expected.len() {
        return false;
    }
    let mut difference: u8 = 0;
    let mut i: usize = 0;
    while i < actual.len()
        invariant
            actual@.len() == expected@.len(),
            i <= actual@.len(),
            (difference == 0) == (forall|j: int| 0 <= j < i ==> actual@[j] == expected@[j]),
        decreases actual@.len() - i,
    {
        proof {
            lemma_or_xor_zero(difference, actual@[i as int], expected@[i as int]);
        }
        let ghost before = difference;
        difference = difference | (actual[i] ^ expected[i]);
        proof {
            if difference == 0 {
                assert forall|j: int| 0 <= j < i + 1 implies actual@[j] == expected@[j] by {
                    if j < i {
                        assert(before == 0);
                    }
                }
            } else {
                if before == 0 {
                    assert(actual@[i as int] != expected@[i as int]);
                }
            }
        }
        i = i + 1;
    }
    if difference == 0 {
        assert(actual@ =~= expected@);
    }
    difference == 0
}

} // verus!
