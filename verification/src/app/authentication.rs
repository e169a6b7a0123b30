//! Two-phase sign-in coordination.
//!
//! Preparation is separate from activation: the provider keeps prepared
//! credentials private while the active account and the state bound to it
//! stay unchanged until the user confirms one of the account previews.
//! Every reply carries the operation that asked for it, and a reply for any
//! other operation changes nothing.

use vstd::prelude::*;
use crate::app::{App, AuthenticationFlow, Effect};
use crate::app::tasks::{sat_dec, sat_inc};
use crate::provider::{AuthState, SignInPreview};
use crate::text::{copy_opt_string, copy_string, push_str, string_from};

verus! {

/// Whether a sign-in step is running that could still change credentials.
pub open spec fn in_flight(flow: AuthenticationFlow) -> bool {
    flow is Preparing || flow is Activating
}

/// Whether `after` and `r` are what the account previews `preview` of
/// operation `operation_id` arriving give.
pub open spec fn sign_in_prepared_applied(before: App, operation_id: u64, preview: SignInPreview, after: App, r: Option<Effect>) -> bool {
    &&& !(before.authentication_flow matches AuthenticationFlow::Preparing { operation_id: o } && o == operation_id) ==>
        r == Some(Effect::CancelSignIn { preview_id: preview.id }) && after == before
    &&& (before.authentication_flow matches AuthenticationFlow::Preparing { operation_id: o } && o == operation_id) ==> ({
        &&& r is None
        &&& after == (App {
            busy_tasks: sat_dec(before.busy_tasks),
            authentication_flow: after.authentication_flow,
            status: after.status,
            ..before
        })
        &&& after.authentication_flow matches AuthenticationFlow::AwaitingConfirmation { operation_id: o, preview: p, selected }
            && o == operation_id && selected == 0
            && p == (SignInPreview { current_account_name: p.current_account_name, ..preview })
            && crate::text::opt_view(p.current_account_name) == crate::text::opt_view(before.account_name)
        &&& after.status@ == "Escolha uma conta para concluir a conexão."@
    })
}

/// Whether `after` and `r` are what the activation of operation
/// `operation_id` for preview `preview_id` committing gives.
pub open spec fn signed_in_applied(before: App, operation_id: u64, preview_id: u64, method: Seq<char>, credentials_path: Option<String>, account_name: String, after: App, r: Seq<Effect>) -> bool {
    &&& !(before.authentication_flow matches AuthenticationFlow::Activating { operation_id: o, preview_id: p }
        && o == operation_id && p == preview_id) ==> r.len() == 0 && after == before
    &&& (before.authentication_flow matches AuthenticationFlow::Activating { operation_id: o, preview_id: p }
        && o == operation_id && p == preview_id) ==> ({
        let mid = App {
            busy_tasks: sat_dec(before.busy_tasks),
            authentication_flow: AuthenticationFlow::Idle,
            authentication: AuthState::Authenticated,
            cookies: if credentials_path is Some { credentials_path } else { before.cookies },
            account_name: Some(account_name),
            status: after.status,
            ..before
        };
        let home = mid.capabilities.home;
        let library = mid.capabilities.library;
        let n = 1 + (if home { 1int } else { 0 }) + (if library { 1int } else { 0 });
        &&& after.status@ == "✔ Conectado via "@ + method + ". Carregando suas músicas…"@
        &&& r.len() == n
        &&& r[0] == Effect::LoadAccount { session_generation: mid.session_generation }
        &&& home ==> r[1] == Effect::LoadHome { session_generation: mid.session_generation }
        &&& library ==> r[n - 1] == Effect::LoadLibrary { session_generation: mid.session_generation }
        &&& after == (App {
            home_error: if home { None } else { mid.home_error },
            busy_tasks: {
                let b1 = sat_inc(mid.busy_tasks);
                let b2 = if home { sat_inc(b1) } else { b1 };
                if library { sat_inc(b2) } else { b2 }
            },
            ..mid
        })
    })
}

/// Whether `after` and `r` are what operation `operation_id` failing with
/// `message` gives.
pub open spec fn sign_in_failed_applied(before: App, operation_id: u64, message: Seq<char>, preview_id: Option<u64>, after: App, r: Option<Effect>) -> bool {
    &&& ({
        let matches = match before.authentication_flow {
            AuthenticationFlow::Preparing { operation_id: o } => o == operation_id && preview_id is None,
            AuthenticationFlow::Activating { operation_id: o, preview_id: p } => o == operation_id && preview_id == Some(p),
            _ => false,
        };
        &&& !matches ==> r is None && after == before
        &&& matches ==> ({
            &&& r == match preview_id {
                Some(p) => Some(Effect::CancelSignIn { preview_id: p }),
                None => None,
            }
            &&& after == (App {
                busy_tasks: sat_dec(before.busy_tasks),
                authentication_flow: AuthenticationFlow::Idle,
                status: after.status,
                ..before
            })
            &&& after.status@ == "⚠ "@ + message
        })
    })
}

impl App {
    /// What `request_quit` leaves and returns.
    pub open spec fn request_quit_outcome(before: App, after: App) -> bool {
        &&& in_flight(before.authentication_flow) ==> after == (App { status: after.status, ..before })
                    && after.status@ == "Aguarde a conexão em andamento terminar antes de sair."@
        &&& !in_flight(before.authentication_flow) ==> after == (App { running: false, ..before })
    }

    /// Leaves, unless a sign-in step that can change credentials is still
    /// running (it could race with saving the configuration).
    pub fn request_quit(&mut self)
        ensures
            App::request_quit_outcome(*old(self), *final(self)),
    {
        match self.authentication_flow {
            AuthenticationFlow::Preparing { .. } | AuthenticationFlow::Activating { .. } => {
                self.status = string_from("Aguarde a conexão em andamento terminar antes de sair.");
            },
            _ => {
                self.running = false;
            },
        }
    }

    /// What `prepare_sign_in` leaves and returns.
    pub open spec fn prepare_sign_in_outcome(before: App, after: App, r: Option<Effect>) -> bool {
        &&& !before.capabilities.sign_in ==> r is None
                    && after == (App { status: after.status, ..before })
                    && after.status@ == before.provider_name@ + " não tem fluxo de conexão interativo."@
        &&& before.capabilities.sign_in && !(before.authentication_flow is Idle) ==> r is None
                    && after == (App { status: after.status, ..before })
                    && after.status@ == "Aguarde: a conexão anterior ainda está em andamento."@
        &&& before.capabilities.sign_in && before.authentication_flow is Idle ==> ({
                    let op = before.next_authentication_operation;
                    &&& r == Some(Effect::PrepareSignIn { operation_id: op })
                    &&& after == (App {
                        next_authentication_operation: (if op == u64::MAX { 0 } else { op + 1 }) as u64,
                        busy_tasks: sat_inc(before.busy_tasks),
                        authentication_flow: AuthenticationFlow::Preparing { operation_id: op },
                        status: after.status,
                        ..before
                    })
                    &&& after.status@ == "Preparando conexão com "@ + before.provider_name@ + "…"@
                })
    }

    /// Starts preparing a sign-in: browser credentials and the account
    /// choices, without touching the active account.
    #[verifier::spinoff_prover]
    #[verifier::rlimit(30)]
    pub fn prepare_sign_in(&mut self) -> (r: Option<Effect>)
        ensures
            App::prepare_sign_in_outcome(*old(self), *final(self), r),
    {
        if !self.capabilities.sign_in {
            let mut status = copy_string(&self.provider_name);
            push_str(&mut status, " não tem fluxo de conexão interativo.");
            self.status = status;
            return None;
        }
        match self.authentication_flow {
            AuthenticationFlow::Idle => {},
            _ => {
                self.status = string_from("Aguarde: a conexão anterior ainda está em andamento.");
                return None;
            },
        }
        let operation_id = self.next_authentication_operation;
        self.next_authentication_operation = if operation_id == u64::MAX { 0 } else { operation_id + 1 };
        self.begin_task();
        self.authentication_flow = AuthenticationFlow::Preparing { operation_id };
        let mut status = string_from("Preparando conexão com ");
        push_str(&mut status, self.provider_name.as_str());
        push_str(&mut status, "…");
        self.status = status;
        Some(Effect::PrepareSignIn { operation_id })
    }

    /// The account previews and the selected row while a confirmation is
    /// pending.
    pub fn sign_in_preview(&self) -> (r: Option<(&SignInPreview, usize)>)
        ensures
            match self.authentication_flow {
                AuthenticationFlow::AwaitingConfirmation { preview, selected, .. } => r == Some((&preview, selected)),
                _ => r is None,
            },
    {
        match &self.authentication_flow {
            AuthenticationFlow::AwaitingConfirmation { preview, selected, .. } => Some((preview, *selected)),
            _ => None,
        }
    }

    /// What `select_next_sign_in_account` leaves and returns.
    pub open spec fn select_next_sign_in_account_outcome(before: App, after: App) -> bool {
        &&& match before.authentication_flow {
                    AuthenticationFlow::AwaitingConfirmation { operation_id, preview, selected } => after == (App {
                        authentication_flow: AuthenticationFlow::AwaitingConfirmation {
                            operation_id,
                            preview,
                            selected: if preview.accounts@.len() > 0 {
                                ((selected + 1) % (preview.accounts@.len() as int)) as usize
                            } else {
                                selected
                            },
                        },
                        ..before
                    }),
                    _ => after == before,
                }
    }

    /// Moves the account selection down, wrapping at the end.
    pub fn select_next_sign_in_account(&mut self)
        ensures
            App::select_next_sign_in_account_outcome(*old(self), *final(self)),
    {
        let mut flow = AuthenticationFlow::Idle;
        core::mem::swap(&mut flow, &mut self.authentication_flow);
        self.authentication_flow = match flow {
            AuthenticationFlow::AwaitingConfirmation { operation_id, preview, selected } => {
                let n = preview.accounts.len();
                let next = if n > 0 { ((selected as u128 + 1) % (n as u128)) as usize } else { selected };
                AuthenticationFlow::AwaitingConfirmation { operation_id, preview, selected: next }
            },
            other => other,
        };
    }

    /// What `select_previous_sign_in_account` leaves and returns.
    pub open spec fn select_previous_sign_in_account_outcome(before: App, after: App) -> bool {
        &&& match before.authentication_flow {
                    AuthenticationFlow::AwaitingConfirmation { operation_id, preview, selected } => after == (App {
                        authentication_flow: AuthenticationFlow::AwaitingConfirmation {
                            operation_id,
                            preview,
                            selected: if preview.accounts@.len() == 0 {
                                selected
                            } else if selected == 0 {
                                (preview.accounts@.len() - 1) as usize
                            } else {
                                (selected - 1) as usize
                            },
                        },
                        ..before
                    }),
                    _ => after == before,
                }
    }

    /// Moves the account selection up, wrapping at the start.
    pub fn select_previous_sign_in_account(&mut self)
        ensures
            App::select_previous_sign_in_account_outcome(*old(self), *final(self)),
    {
        let mut flow = AuthenticationFlow::Idle;
        core::mem::swap(&mut flow, &mut self.authentication_flow);
        self.authentication_flow = match flow {
            AuthenticationFlow::AwaitingConfirmation { operation_id, preview, selected } => {
                let n = preview.accounts.len();
                let next = if n == 0 {
                    selected
                } else if selected == 0 {
                    n - 1
                } else {
                    selected - 1
                };
                AuthenticationFlow::AwaitingConfirmation { operation_id, preview, selected: next }
            },
            other => other,
        };
    }

    /// What `confirm_sign_in` leaves and returns.
    pub open spec fn confirm_sign_in_outcome(before: App, after: App, r: Option<Effect>) -> bool {
        &&& match before.authentication_flow {
                    AuthenticationFlow::AwaitingConfirmation { operation_id, preview, selected } => if selected < preview.accounts@.len() {
                        &&& r == Some(Effect::ActivateSignIn {
                            operation_id,
                            preview_id: preview.id,
                            account_index: preview.accounts@[selected as int].index,
                        })
                        &&& after == (App {
                            busy_tasks: sat_inc(before.busy_tasks),
                            session_generation: (if before.session_generation == u64::MAX { 0 } else { before.session_generation + 1 }) as u64,
                            authentication_flow: AuthenticationFlow::Activating { operation_id, preview_id: preview.id },
                            status: after.status,
                            ..before
                        })
                        &&& after.status@ == "Conectando ao "@ + before.provider_name@ + "…"@
                    } else {
                        &&& r is None
                        &&& after == (App { status: after.status, ..before })
                        &&& after.status@ == "Nenhuma conta disponível para conectar."@
                    },
                    _ => r is None && after == before,
                }
    }

    /// Activates the selected account. Account-scoped replies still in
    /// flight are retired first (the session generation moves on), so none
    /// can land on the new account.
    pub fn confirm_sign_in(&mut self) -> (r: Option<Effect>)
        ensures
            App::confirm_sign_in_outcome(*old(self), *final(self), r),
    {
        let selection = match &self.authentication_flow {
            AuthenticationFlow::AwaitingConfirmation { operation_id, preview, selected } => {
                if *selected < preview.accounts.len() {
                    Some((*operation_id, preview.id, preview.accounts[*selected].index))
                } else {
                    None
                }
            },
            _ => {
                return None;
            },
        };
        let (operation_id, preview_id, account_index) = match selection {
            Some(s) => s,
            None => {
                self.status = string_from("Nenhuma conta disponível para conectar.");
                return None;
            },
        };
        self.begin_task();
        self.session_generation = if self.session_generation == u64::MAX { 0 } else { self.session_generation + 1 };
        self.authentication_flow = AuthenticationFlow::Activating { operation_id, preview_id };
        let mut status = string_from("Conectando ao ");
        push_str(&mut status, self.provider_name.as_str());
        push_str(&mut status, "…");
        self.status = status;
        Some(Effect::ActivateSignIn { operation_id, preview_id, account_index })
    }

    /// What `cancel_sign_in` leaves and returns.
    pub open spec fn cancel_sign_in_outcome(before: App, after: App, r: Option<Effect>) -> bool {
        &&& match before.authentication_flow {
                    AuthenticationFlow::AwaitingConfirmation { preview, .. } => {
                        &&& r == Some(Effect::CancelSignIn { preview_id: preview.id })
                        &&& after == (App {
                            authentication_flow: AuthenticationFlow::Idle,
                            status: after.status,
                            ..before
                        })
                        &&& after.status@ == "Conexão cancelada; a conta atual foi preservada."@
                    },
                    _ => r is None && after == before,
                }
    }

    /// Discards a prepared sign-in, keeping the active account. Only a
    /// pending confirmation can be cancelled.
    pub fn cancel_sign_in(&mut self) -> (r: Option<Effect>)
        ensures
            App::cancel_sign_in_outcome(*old(self), *final(self), r),
    {
        let mut flow = AuthenticationFlow::Idle;
        core::mem::swap(&mut flow, &mut self.authentication_flow);
        match flow {
            AuthenticationFlow::AwaitingConfirmation { preview, .. } => {
                self.status = string_from("Conexão cancelada; a conta atual foi preservada.");
                Some(Effect::CancelSignIn { preview_id: preview.id })
            },
            other => {
                self.authentication_flow = other;
                None
            },
        }
    }

    /// Asks for the account name, when signed in.
    pub fn load_account(&mut self) -> (r: Option<Effect>)
        ensures
            old(self).authentication != AuthState::Authenticated ==> r is None && *final(self) == *old(self),
            old(self).authentication == AuthState::Authenticated ==>
                r == Some(Effect::LoadAccount { session_generation: old(self).session_generation })
                && *final(self) == (App { busy_tasks: sat_inc(old(self).busy_tasks), ..*old(self) }),
    {
        if !self.is_authenticated() {
            return None;
        }
        self.begin_task();
        Some(Effect::LoadAccount { session_generation: self.session_generation })
    }

    /// The account previews of operation `operation_id` are ready. A reply
    /// for any other operation is discarded at the provider.
    pub fn handle_sign_in_prepared(&mut self, operation_id: u64, preview: SignInPreview) -> (r: Option<Effect>)
        ensures
            sign_in_prepared_applied(*old(self), operation_id, preview, *final(self), r),

    {
        let expected = match self.authentication_flow {
            AuthenticationFlow::Preparing { operation_id: o } => o == operation_id,
            _ => false,
        };
        if !expected {
            return Some(Effect::CancelSignIn { preview_id: preview.id });
        }
        self.finish_task();
        let mut preview = preview;
        preview.current_account_name = copy_opt_string(&self.account_name);
        self.status = string_from("Escolha uma conta para concluir a conexão.");
        self.authentication_flow = AuthenticationFlow::AwaitingConfirmation { operation_id, preview, selected: 0 };
        None
    }

    /// Activation of operation `operation_id` for preview `preview_id`
    /// committed: the new account becomes active and its data is loaded.
    /// A reply for any other operation changes nothing.
    pub fn handle_signed_in(
        &mut self,
        operation_id: u64,
        preview_id: u64,
        method: &String,
        credentials_path: Option<String>,
        account_name: String,
    ) -> (r: Vec<Effect>)
        ensures
            signed_in_applied(*old(self), operation_id, preview_id, method@, credentials_path, account_name, *final(self), r@),

    {
        let expected = match self.authentication_flow {
            AuthenticationFlow::Activating { operation_id: o, preview_id: p } => o == operation_id && p == preview_id,
            _ => false,
        };
        if !expected {
            return Vec::new();
        }
        self.commit_sign_in(method, credentials_path, account_name);
        let effects = self.load_account_data();
        effects
    }

    /// Makes the signed-in account the active one.
    fn commit_sign_in(&mut self, method: &String, credentials_path: Option<String>, account_name: String)
        ensures
            *final(self) == (App {
                busy_tasks: sat_dec(old(self).busy_tasks),
                authentication_flow: AuthenticationFlow::Idle,
                authentication: AuthState::Authenticated,
                cookies: if credentials_path is Some { credentials_path } else { old(self).cookies },
                account_name: Some(account_name),
                status: final(self).status,
                ..*old(self)
            }),
            final(self).status@ == "✔ Conectado via "@ + method@ + ". Carregando suas músicas…"@,
    {
        self.finish_task();
        self.authentication_flow = AuthenticationFlow::Idle;
        self.authentication = AuthState::Authenticated;
        if credentials_path.is_some() {
            self.cookies = credentials_path;
        }
        self.account_name = Some(account_name);
        let mut status = string_from("✔ Conectado via ");
        push_str(&mut status, method.as_str());
        push_str(&mut status, ". Carregando suas músicas…");
        self.status = status;
    }

    /// Loads the data of the account just activated: its name, Home and
    /// library.
    #[verifier::spinoff_prover]
    fn load_account_data(&mut self) -> (r: Vec<Effect>)
        requires
            old(self).authentication == AuthState::Authenticated,
        ensures
            ({
                let home = old(self).capabilities.home;
                let library = old(self).capabilities.library;
                let n = 1 + (if home { 1int } else { 0 }) + (if library { 1int } else { 0 });
                &&& r@.len() == n
                &&& r@[0] == Effect::LoadAccount { session_generation: old(self).session_generation }
                &&& home ==> r@[1] == Effect::LoadHome { session_generation: old(self).session_generation }
                &&& library ==> r@[n - 1] == Effect::LoadLibrary { session_generation: old(self).session_generation }
                &&& *final(self) == (App {
                    home_error: if home { None } else { old(self).home_error },
                    busy_tasks: {
                        let b1 = sat_inc(old(self).busy_tasks);
                        let b2 = if home { sat_inc(b1) } else { b1 };
                        if library { sat_inc(b2) } else { b2 }
                    },
                    ..*old(self)
                })
            }),
    {
        let mut effects: Vec<Effect> = Vec::new();
        match self.load_account() {
            Some(e) => effects.push(e),
            None => {},
        }
        match self.load_home() {
            Some(e) => effects.push(e),
            None => {},
        }
        match self.load_library() {
            Some(e) => effects.push(e),
            None => {},
        }
        effects
    }

    /// Operation `operation_id` failed. It counts only when it is the step
    /// in flight: a preparation reports no preview, an activation reports
    /// its own; an activated preview is then discarded at the provider.
    pub fn handle_sign_in_failed(&mut self, operation_id: u64, message: &String, preview_id: Option<u64>) -> (r: Option<Effect>)
        ensures
            sign_in_failed_applied(*old(self), operation_id, message@, preview_id, *final(self), r),

    {
        let matches = match self.authentication_flow {
            AuthenticationFlow::Preparing { operation_id: o } => o == operation_id && preview_id.is_none(),
            AuthenticationFlow::Activating { operation_id: o, preview_id: p } => o == operation_id && preview_id == Some(p),
            _ => false,
        };
        if !matches {
            return None;
        }
        self.finish_task();
        self.authentication_flow = AuthenticationFlow::Idle;
        let mut status = string_from("⚠ ");
        push_str(&mut status, message.as_str());
        self.status = status;
        match preview_id {
            Some(p) => Some(Effect::CancelSignIn { preview_id: p }),
            None => None,
        }
    }
}

} // verus!
