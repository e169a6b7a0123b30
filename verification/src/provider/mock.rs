//! The state machine of a canned provider used to exercise the interface
//! without any network, disk or external process.

use vstd::prelude::*;
use crate::models::{HomeSection, Lyrics, Playlist, SearchResults, Track};
use crate::provider::{Capabilities, ProviderError, SignInAccount, SignInPreview, SignInSummary};
use crate::text::{copy_opt_string, string_from};

verus! {

/// Canned data and the sign-in bookkeeping of the test provider.
pub struct MockProvider {
    pub search_results: SearchResults,
    pub home_sections: Vec<HomeSection>,
    pub library: Vec<Playlist>,
    pub playlist_tracks: Vec<Track>,
    pub artist_tracks: Vec<Track>,
    pub radio_tracks: Vec<Track>,
    pub lyrics: Option<Lyrics>,
    pub account: Option<String>,
    /// What this provider claims to support.
    pub capabilities: Capabilities,
    /// When set, every request fails with this message.
    pub fail_with: Option<String>,
    /// When set, every request fails with an expired session.
    pub expire_session: bool,
    pub authenticated: bool,
    pub next_preview_id: u64,
    pub pending_preview_id: Option<u64>,
}

impl MockProvider {
    /// An empty, signed-out provider with every capability.
    pub fn new() -> (r: MockProvider)
        ensures
            !r.authenticated,
            r.capabilities == Capabilities::all(),
            r.fail_with is None,
            !r.expire_session,
            r.next_preview_id == 1,
            r.pending_preview_id is None,
    {
        MockProvider {
            search_results: SearchResults {
                songs: Vec::new(),
                playlists: Vec::new(),
                artists: Vec::new(),
                albums: Vec::new(),
            },
            home_sections: Vec::new(),
            library: Vec::new(),
            playlist_tracks: Vec::new(),
            artist_tracks: Vec::new(),
            radio_tracks: Vec::new(),
            lyrics: None,
            account: None,
            capabilities: Capabilities::all(),
            fail_with: None,
            expire_session: false,
            authenticated: false,
            next_preview_id: 1,
            pending_preview_id: None,
        }
    }

    /// An empty provider with an active session.
    pub fn authenticated() -> (r: MockProvider)
        ensures
            r.authenticated,
            r.capabilities == Capabilities::all(),
            r.fail_with is None,
            !r.expire_session,
            r.pending_preview_id is None,
    {
        let mut mock = MockProvider::new();
        mock.authenticated = true;
        mock
    }

    /// Whether requests currently fail, and how: an expired session takes
    /// precedence over a configured message.
    pub fn outcome(&self) -> (r: Option<ProviderError>)
        ensures
            self.expire_session ==> r matches Some(ProviderError::SessionExpired),
            !self.expire_session ==> match self.fail_with {
                Some(m) => r matches Some(ProviderError::Message(x)) && x@ == m@,
                None => r is None,
            },
    {
        if self.expire_session {
            return Some(ProviderError::SessionExpired);
        }
        match &self.fail_with {
            Some(message) => Some(ProviderError::Message(crate::text::copy_string(message))),
            None => None,
        }
    }

    /// Prepares a sign-in: hands out a fresh preview id, remembers it as the
    /// pending one, and offers two accounts.
    pub fn prepare_sign_in(&mut self) -> (r: SignInPreview)
        ensures
            r.id == old(self).next_preview_id,
            final(self).pending_preview_id == Some(old(self).next_preview_id),
            final(self).next_preview_id == old(self).next_preview_id.wrapping_add(1),
            r.accounts.len() == 2,
            r.accounts[0].index == 0,
            r.accounts[1].index == 1,
            final(self).authenticated == old(self).authenticated,
    {
        let id = self.next_preview_id;
        self.next_preview_id = self.next_preview_id.wrapping_add(1);
        self.pending_preview_id = Some(id);
        let mut accounts: Vec<SignInAccount> = Vec::new();
        accounts.push(SignInAccount {
            index: 0,
            name: string_from("Mock Account 1"),
            handle: Some(string_from("@mock1")),
        });
        accounts.push(SignInAccount {
            index: 1,
            name: string_from("Mock Account 2"),
            handle: Some(string_from("@mock2")),
        });
        SignInPreview {
            id,
            method: string_from("mock"),
            profile_label: None,
            accounts,
            current_account_name: copy_opt_string(&self.account),
        }
    }

    /// Activates account `account_index` of the pending preview `preview_id`.
    /// Fails for an unknown account or a preview that is no longer pending;
    /// on success the preview is consumed and the session becomes active.
    pub fn activate_sign_in(&mut self, preview_id: u64, account_index: u8) -> (r: Result<SignInSummary, String>)
        ensures
            account_index > 1 ==> r is Err && *final(self) == *old(self),
            account_index <= 1 && old(self).pending_preview_id != Some(preview_id)
                ==> r is Err && *final(self) == *old(self),
            account_index <= 1 && old(self).pending_preview_id == Some(preview_id) ==> ({
                &&& r matches Ok(s) && s.account_index == account_index
                &&& final(self).pending_preview_id is None
                &&& final(self).authenticated
                &&& final(self).next_preview_id == old(self).next_preview_id
            }),
    {
        if account_index > 1 {
            return Err(string_from("invalid mock account index"));
        }
        match self.pending_preview_id {
            Some(p) => {
                if p != preview_id {
                    return Err(string_from("sign-in preview is no longer pending"));
                }
            },
            None => {
                return Err(string_from("sign-in preview is no longer pending"));
            },
        }
        self.pending_preview_id = None;
        self.authenticated = true;
        let account_name = if account_index == 0 {
            string_from("Mock Account 1")
        } else {
            string_from("Mock Account 2")
        };
        Ok(SignInSummary { method: string_from("mock"), credentials_path: None, account_name, account_index })
    }

    /// Discards only the pending preview identified by `preview_id`.
    pub fn cancel_sign_in(&mut self, preview_id: u64)
        ensures
            final(self).pending_preview_id == (if old(self).pending_preview_id == Some(preview_id) {
                None
            } else {
                old(self).pending_preview_id
            }),
            final(self).authenticated == old(self).authenticated,
            final(self).next_preview_id == old(self).next_preview_id,
    {
        if self.pending_preview_id == Some(preview_id) {
            self.pending_preview_id = None;
        }
    }
}

} // verus!
