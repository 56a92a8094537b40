use tabby_hub::oauth::OAuthProvider;
use tabby_hub::schema::{
    EmailSetting, EmailSettingDAO, GithubOAuthCredentialDAO, GoogleOAuthCredentialDAO, Invitation,
    InvitationDAO, JobRun, JobRunDAO, OAuthCredential, Repository, RepositoryDAO, User, UserDAO,
};
use tabby_hub::text::str_eq;

#[test]
fn invitation_from_its_row() {
    let row = InvitationDAO {
        id: 3,
        email: "a@example.com".to_string(),
        code: "c0de".to_string(),
        created_at: 1700u64,
    };
    let shown = Invitation::from_dao(row, "xK9".to_string());
    assert_eq!(shown.id, "xK9");
    assert_eq!(shown.email, "a@example.com");
    assert_eq!(shown.code, "c0de");
    assert_eq!(shown.created_at, 1700);
}

#[test]
fn job_run_from_its_row() {
    let row = JobRunDAO {
        id: 8,
        job: "scheduler".to_string(),
        created_at: 1i64,
        updated_at: 2i64,
        finished_at: Some(3i64),
        exit_code: Some(-2),
        stdout: "out".to_string(),
        stderr: "err".to_string(),
    };
    let shown = JobRun::from_dao(row, "j8".to_string());
    assert_eq!(shown.id, "j8");
    assert_eq!(shown.job, "scheduler");
    assert_eq!(shown.created_at, 1);
    assert_eq!(shown.updated_at, 2);
    assert_eq!(shown.finished_at, Some(3));
    assert_eq!(shown.exit_code, Some(-2));
    assert_eq!(shown.stdout, "out");
    assert_eq!(shown.stderr, "err");
}

#[test]
fn running_job_run_from_its_row() {
    let row = JobRunDAO {
        id: 9,
        job: "sync".to_string(),
        created_at: 1i64,
        updated_at: 1i64,
        finished_at: None,
        exit_code: None,
        stdout: String::new(),
        stderr: String::new(),
    };
    let shown = JobRun::from_dao(row, "j9".to_string());
    assert_eq!(shown.finished_at, None);
    assert_eq!(shown.exit_code, None);
}

#[test]
fn user_from_its_row() {
    let row = UserDAO {
        id: 1,
        email: "root@example.com".to_string(),
        is_admin: true,
        auth_token: "auth_abc".to_string(),
        created_at: "2024-01-01",
        active: false,
    };
    let shown = User::from_dao(row, "u1".to_string());
    assert_eq!(shown.id, "u1");
    assert_eq!(shown.email, "root@example.com");
    assert!(shown.is_admin);
    assert_eq!(shown.auth_token, "auth_abc");
    assert_eq!(shown.created_at, "2024-01-01");
    assert!(!shown.active);
}

#[test]
fn github_credential_has_no_redirect_address() {
    let row = GithubOAuthCredentialDAO {
        client_id: "id".to_string(),
        client_secret: "secret".to_string(),
        created_at: 1u8,
        updated_at: 2u8,
    };
    let shown = OAuthCredential::from_github(row);
    assert_eq!(shown.provider, OAuthProvider::Github);
    assert_eq!(shown.client_id, "id");
    assert_eq!(shown.client_secret, "secret");
    assert_eq!(shown.redirect_uri, None);
    assert_eq!(shown.created_at, 1);
    assert_eq!(shown.updated_at, 2);
}

#[test]
fn google_credential_keeps_its_redirect_address() {
    let row = GoogleOAuthCredentialDAO {
        client_id: "id".to_string(),
        client_secret: "secret".to_string(),
        redirect_uri: "https://tabby.example.com/oauth/callback/google".to_string(),
        created_at: 1u8,
        updated_at: 2u8,
    };
    let shown = OAuthCredential::from_google(row);
    assert_eq!(shown.provider, OAuthProvider::Google);
    assert_eq!(shown.client_id, "id");
    assert_eq!(shown.client_secret, "secret");
    assert_eq!(
        shown.redirect_uri,
        Some("https://tabby.example.com/oauth/callback/google".to_string())
    );
    assert_eq!(shown.created_at, 1);
    assert_eq!(shown.updated_at, 2);
}

#[test]
fn repository_from_its_row() {
    let row = RepositoryDAO {
        id: 5,
        name: "tabby".to_string(),
        git_url: "https://github.com/TabbyML/tabby".to_string(),
    };
    let shown = Repository::from_dao(row, "r5".to_string());
    assert_eq!(shown.id, "r5");
    assert_eq!(shown.name, "tabby");
    assert_eq!(shown.git_url, "https://github.com/TabbyML/tabby");
}

#[test]
fn email_setting_from_its_row() {
    let row = EmailSettingDAO {
        smtp_username: "mailer".to_string(),
        smtp_server: "smtp.example.com".to_string(),
    };
    let shown = EmailSetting::from_dao(row);
    assert_eq!(shown.smtp_username, "mailer");
    assert_eq!(shown.smtp_server, "smtp.example.com");
}

#[test]
fn texts_are_compared_by_their_characters() {
    assert!(str_eq("", ""));
    assert!(str_eq("abc", "abc"));
    assert!(!str_eq("abc", "abd"));
    assert!(!str_eq("abc", "ab"));
    assert!(!str_eq("", "a"));
    assert!(str_eq("héllo 👾", "héllo 👾"));
    assert!(!str_eq("héllo", "hello"));
}
