//! The boundary between the interface and a music service, in terms the
//! interface understands: errors, authentication state, optional
//! capabilities and the safe previews of a two-phase sign-in.

use vstd::prelude::*;

pub mod mock;

verus! {

/// An error at the provider boundary.
#[derive(Debug)]
pub enum ProviderError {
    /// The authenticated session was rejected; the interface offers to sign
    /// in again.
    SessionExpired,
    /// Any other failure, with a readable message.
    Message(String),
}

impl ProviderError {
    /// The readable form of the error ("session expired", or the message).
    pub fn describe(&self) -> (r: String)
        ensures
            match self {
                ProviderError::SessionExpired => r@ == "session expired"@,
                ProviderError::Message(m) => r@ == m@,
            },
    {
        match self {
            ProviderError::SessionExpired => crate::text::string_from("session expired"),
            ProviderError::Message(m) => crate::text::copy_string(m),
        }
    }
}

/// Authentication state as the interface sees it.
#[derive(Debug, Clone, Copy, PartialEq, Eq, Structural)]
pub enum AuthState {
    Anonymous,
    Authenticated,
    Expired,
    InvalidCredentials,
}

impl AuthState {
    /// Whether a session is active.
    pub fn is_authenticated(self) -> (r: bool)
        ensures
            r == (self == AuthState::Authenticated),
    {
        match self {
            AuthState::Authenticated => true,
            _ => false,
        }
    }
}

/// Optional actions a provider may offer; the interface hides the others.
#[derive(Debug, Clone, Copy, PartialEq, Eq, Structural)]
pub struct Capabilities {
    /// Recommendations for the Home screen.
    pub home: bool,
    /// A user library (needs authentication).
    pub library: bool,
    /// Lyrics.
    pub lyrics: bool,
    /// Radio of similar tracks.
    pub radio: bool,
    /// Liking tracks.
    pub likes: bool,
    /// An interactive sign-in.
    pub sign_in: bool,
}

impl Capabilities {
    /// Every capability.
    pub open spec fn spec_all() -> Capabilities {
        Capabilities { home: true, library: true, lyrics: true, radio: true, likes: true, sign_in: true }
    }

    /// Every capability.
    #[verifier::when_used_as_spec(spec_all)]
    pub fn all() -> (r: Capabilities)
        ensures
            r == Capabilities::spec_all(),
    {
        Capabilities { home: true, library: true, lyrics: true, radio: true, likes: true, sign_in: true }
    }

    /// No capability.
    pub fn none() -> (r: Capabilities)
        ensures
            r == (Capabilities {
                home: false,
                library: false,
                lyrics: false,
                radio: false,
                likes: false,
                sign_in: false,
            }),
    {
        Capabilities { home: false, library: false, lyrics: false, radio: false, likes: false, sign_in: false }
    }
}

/// Result of a successful sign-in.
#[derive(Debug, Clone)]
pub struct SignInSummary {
    /// How the session was obtained (e.g. the browser the cookies came from).
    pub method: String,
    /// Credentials path to persist, when any.
    pub credentials_path: Option<String>,
    /// Display name of the activated account.
    pub account_name: String,
    /// Index selecting the account at the provider.
    pub account_index: u8,
}

/// An account available inside an authenticated browser session.
#[derive(Debug, Clone, PartialEq, Eq)]
pub struct SignInAccount {
    pub index: u8,
    pub name: String,
    pub handle: Option<String>,
}

/// The safe result of preparing a sign-in, before the active session
/// changes. Credential paths stay private to the provider until confirmed.
#[derive(Debug, Clone)]
pub struct SignInPreview {
    pub id: u64,
    pub method: String,
    pub profile_label: Option<String>,
    pub accounts: Vec<SignInAccount>,
    pub current_account_name: Option<String>,
}

} // verus!
