//! The login panel: collects server credentials and dispatches the
//! save-configuration command.
//!
//! The command runs outside the coordination loop; its outcome comes
//! back as a typed completion. Success is announced to the surrounding
//! application, failure is surfaced as a notification and leaves the
//! typed-in credentials intact.

use vstd::prelude::*;

use crate::sync::{SyncConfig, SyncError};

verus! {

/// The credentials as currently typed.
#[derive(Debug)]
pub struct LoginPageModel {
    pub url: String,
    pub email: String,
    pub password: String,
}

/// Requests entering the login panel.
#[derive(Debug)]
pub enum LoginPageInput {
    ChangeUrl(String),
    ChangeEmail(String),
    ChangePassword(String),
    Login,
}

/// Completion of the dispatched save-configuration command.
#[derive(Debug)]
pub enum LoginPageCommandOutput {
    LoginResult(Result<(), SyncError>),
}

/// What the login panel tells the surrounding application.
#[derive(Debug)]
pub enum LoginPageOutput {
    LoginSuccess,
}

/// Everything the login panel asks its surroundings to do.
#[derive(Debug)]
pub enum LoginEffect {
    StartLogin(SyncConfig),
    Output(LoginPageOutput),
    Notify(SyncError),
}

/// How one input transforms the panel and what it emits.
pub open spec fn login_step(
    pre: LoginPageModel,
    input: LoginPageInput,
    post: LoginPageModel,
    effs: Seq<LoginEffect>,
) -> bool {
    match input {
        LoginPageInput::ChangeUrl(url) => {
            &&& post == LoginPageModel { url, ..pre }
            &&& effs == Seq::<LoginEffect>::empty()
        },
        LoginPageInput::ChangeEmail(email) => {
            &&& post == LoginPageModel { email, ..pre }
            &&& effs == Seq::<LoginEffect>::empty()
        },
        LoginPageInput::ChangePassword(password) => {
            &&& post == LoginPageModel { password, ..pre }
            &&& effs == Seq::<LoginEffect>::empty()
        },
        LoginPageInput::Login => {
            &&& post == pre
            &&& effs == seq![
                LoginEffect::StartLogin(
                    SyncConfig::JoplinServer {
                        host: pre.url,
                        email: pre.email,
                        password: pre.password,
                    },
                ),
            ]
        },
    }
}

/// How one completion transforms the panel and what it emits.
pub open spec fn login_cmd_step(
    pre: LoginPageModel,
    cmd: LoginPageCommandOutput,
    post: LoginPageModel,
    effs: Seq<LoginEffect>,
) -> bool {
    match cmd {
        LoginPageCommandOutput::LoginResult(r) => {
            &&& post == pre
            &&& match r {
                Ok(_) => effs == seq![LoginEffect::Output(LoginPageOutput::LoginSuccess)],
                Err(e) => effs == seq![LoginEffect::Notify(e)],
            }
        },
    }
}

impl LoginPageModel {
    /// A panel with nothing typed in yet.
    pub fn new() -> (m: Self)
        ensures
            m.url@ == Seq::<char>::empty(),
            m.email@ == Seq::<char>::empty(),
            m.password@ == Seq::<char>::empty(),
    {
        LoginPageModel { url: String::new(), email: String::new(), password: String::new() }
    }

    /// Whether the login action is available: all three fields are
    /// non-empty.
    pub fn can_login(&self) -> (r: bool)
        ensures
            r == (self.url@.len() > 0 && self.email@.len() > 0 && self.password@.len() > 0),
    {
        !self.url.as_str().is_empty() && !self.email.as_str().is_empty()
            && !self.password.as_str().is_empty()
    }

    /// Handles one input.
    pub fn update(&mut self, input: LoginPageInput) -> (effs: Vec<LoginEffect>)
        ensures
            login_step(*old(self), input, *final(self), effs@),
    {
        let mut effs: Vec<LoginEffect> = Vec::new();
        match input {
            LoginPageInput::ChangeUrl(url) => {
                self.url = url;
            },
            LoginPageInput::ChangeEmail(email) => {
                self.email = email;
            },
            LoginPageInput::ChangePassword(password) => {
                self.password = password;
            },
            LoginPageInput::Login => {
                effs.push(
                    LoginEffect::StartLogin(
                        SyncConfig::JoplinServer {
                            host: self.url.clone(),
                            email: self.email.clone(),
                            password: self.password.clone(),
                        },
                    ),
                );
                proof {
                    assert(effs@ =~= seq![
                        LoginEffect::StartLogin(
                            SyncConfig::JoplinServer {
                                host: self.url,
                                email: self.email,
                                password: self.password,
                            },
                        ),
                    ]);
                }
            },
        }
        effs
    }

    /// Handles one completion.
    pub fn update_cmd(&mut self, cmd: LoginPageCommandOutput) -> (effs: Vec<LoginEffect>)
        ensures
            login_cmd_step(*old(self), cmd, *final(self), effs@),
    {
        let mut effs: Vec<LoginEffect> = Vec::new();
        match cmd {
            LoginPageCommandOutput::LoginResult(r) => {
                match r {
                    Ok(_) => {
                        effs.push(LoginEffect::Output(LoginPageOutput::LoginSuccess));
                        proof {
                            assert(effs@ =~= seq![
                                LoginEffect::Output(LoginPageOutput::LoginSuccess),
                            ]);
                        }
                    },
                    Err(e) => {
                        let ghost g = e;
                        effs.push(LoginEffect::Notify(e));
                        proof {
                            assert(effs@ =~= seq![LoginEffect::Notify(g)]);
                        }
                    },
                }
            },
        }
        effs
    }
}

} // verus!
