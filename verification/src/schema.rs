//! Rows of the database and the objects that are shown of them.
//!
//! A row is known by a number; the object made of it carries the public
//! id that stands for that number, which the caller supplies. `T` is the
//! type of a point in time, carried over as it is.

use crate::oauth::OAuthProvider;
use vstd::prelude::*;

verus! {

#[derive(Debug)]
pub struct InvitationDAO<T> {
    pub id: i32,
    pub email: String,
    pub code: String,
    pub created_at: T,
}

#[derive(Debug)]
pub struct Invitation<T> {
    pub id: String,
    pub email: String,
    pub code: String,
    pub created_at: T,
}

#[derive(Debug)]
pub struct JobRunDAO<T> {
    pub id: i32,
    pub job: String,
    pub created_at: T,
    pub updated_at: T,
    pub finished_at: Option<T>,
    pub exit_code: Option<i32>,
    pub stdout: String,
    pub stderr: String,
}

#[derive(Debug)]
pub struct JobRun<T> {
    pub id: String,
    pub job: String,
    pub created_at: T,
    pub updated_at: T,
    pub finished_at: Option<T>,
    pub exit_code: Option<i32>,
    pub stdout: String,
    pub stderr: String,
}

#[derive(Debug)]
pub struct UserDAO<T> {
    pub id: i32,
    pub email: String,
    pub is_admin: bool,
    pub auth_token: String,
    pub created_at: T,
    pub active: bool,
}

#[derive(Debug)]
pub struct User<T> {
    pub id: String,
    pub email: String,
    pub is_admin: bool,
    pub auth_token: String,
    pub created_at: T,
    pub active: bool,
}

#[derive(Debug)]
pub struct GithubOAuthCredentialDAO<T> {
    pub client_id: String,
    pub client_secret: String,
    pub created_at: T,
    pub updated_at: T,
}

#[derive(Debug)]
pub struct GoogleOAuthCredentialDAO<T> {
    pub client_id: String,
    pub client_secret: String,
    pub redirect_uri: String,
    pub created_at: T,
    pub updated_at: T,
}

#[derive(Debug)]
pub struct OAuthCredential<T> {
    pub provider: OAuthProvider,
    pub client_id: String,
    pub client_secret: String,
    pub redirect_uri: Option<String>,
    pub created_at: T,
    pub updated_at: T,
}

#[derive(Debug)]
pub struct RepositoryDAO {
    pub id: i32,
    pub name: String,
    pub git_url: String,
}

#[derive(Debug)]
pub struct Repository {
    pub id: String,
    pub name: String,
    pub git_url: String,
}

#[derive(Debug)]
pub struct EmailSettingDAO {
    pub smtp_username: String,
    pub smtp_server: String,
}

#[derive(Debug)]
pub struct EmailSetting {
    pub smtp_username: String,
    pub smtp_server: String,
}

impl<T> Invitation<T> {
    /// The invitation of the row `val`, under the public id `id`.
    pub fn from_dao(val: InvitationDAO<T>, id: String) -> (shown: Invitation<T>)
        ensures
            shown == (Invitation {
                id,
                email: val.email,
                code: val.code,
                created_at: val.created_at,
            }),
    {
        Invitation { id, email: val.email, code: val.code, created_at: val.created_at }
    }
}

impl<T> JobRun<T> {
    /// The job run of the row `run`, under the public id `id`.
    pub fn from_dao(run: JobRunDAO<T>, id: String) -> (shown: JobRun<T>)
        ensures
            shown == (JobRun {
                id,
                job: run.job,
                created_at: run.created_at,
                updated_at: run.updated_at,
                finished_at: run.finished_at,
                exit_code: run.exit_code,
                stdout: run.stdout,
                stderr: run.stderr,
            }),
    {
        JobRun {
            id,
            job: run.job,
            created_at: run.created_at,
            updated_at: run.updated_at,
            finished_at: run.finished_at,
            exit_code: run.exit_code,
            stdout: run.stdout,
            stderr: run.stderr,
        }
    }
}

impl<T> User<T> {
    /// The user of the row `val`, under the public id `id`.
    pub fn from_dao(val: UserDAO<T>, id: String) -> (shown: User<T>)
        ensures
            shown == (User {
                id,
                email: val.email,
                is_admin: val.is_admin,
                auth_token: val.auth_token,
                created_at: val.created_at,
                active: val.active,
            }),
    {
        User {
            id,
            email: val.email,
            is_admin: val.is_admin,
            auth_token: val.auth_token,
            created_at: val.created_at,
            active: val.active,
        }
    }
}

impl<T> OAuthCredential<T> {
    /// The credential kept for Github, which has no redirect address of
    /// its own.
    pub fn from_github(val: GithubOAuthCredentialDAO<T>) -> (shown: OAuthCredential<T>)
        ensures
            shown == (OAuthCredential {
                provider: OAuthProvider::Github,
                client_id: val.client_id,
                client_secret: val.client_secret,
                redirect_uri: None,
                created_at: val.created_at,
                updated_at: val.updated_at,
            }),
    {
        OAuthCredential {
            provider: OAuthProvider::Github,
            client_id: val.client_id,
            client_secret: val.client_secret,
            redirect_uri: None,
            created_at: val.created_at,
            updated_at: val.updated_at,
        }
    }

    /// The credential kept for Google, with its redirect address.
    pub fn from_google(val: GoogleOAuthCredentialDAO<T>) -> (shown: OAuthCredential<T>)
        ensures
            shown == (OAuthCredential {
                provider: OAuthProvider::Google,
                client_id: val.client_id,
                client_secret: val.client_secret,
                redirect_uri: Some(val.redirect_uri),
                created_at: val.created_at,
                updated_at: val.updated_at,
            }),
    {
        OAuthCredential {
            provider: OAuthProvider::Google,
            client_id: val.client_id,
            client_secret: val.client_secret,
            redirect_uri: Some(val.redirect_uri),
            created_at: val.created_at,
            updated_at: val.updated_at,
        }
    }
}

impl Repository {
    /// The repository of the row `value`, under the public id `id`.
    pub fn from_dao(value: RepositoryDAO, id: String) -> (shown: Repository)
        ensures
            shown == (Repository { id, name: value.name, git_url: value.git_url }),
    {
        Repository { id, name: value.name, git_url: value.git_url }
    }
}

impl EmailSetting {
    /// What is shown of the mail settings.
    pub fn from_dao(value: EmailSettingDAO) -> (shown: EmailSetting)
        ensures
            shown == (EmailSetting {
                smtp_username: value.smtp_username,
                smtp_server: value.smtp_server,
            }),
    {
        EmailSetting { smtp_username: value.smtp_username, smtp_server: value.smtp_server }
    }
}

} // verus!
