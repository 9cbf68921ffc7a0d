use carbonbond::error::{DataType, Error, ErrorCode};
use carbonbond::signup::{
    Reply, ResetAction, ResetPasswordFlow, SignupAction, SignupByTokenFlow, SignupTokenFlow, SignupTokenRequest,
    TokenAction,
};

fn request(inviter: Option<i64>) -> SignupTokenRequest {
    SignupTokenRequest {
        email: "a@b.tw".to_string(),
        birth_year: 1990,
        gender: "女".to_string(),
        license_id: "112台檢律字第1號".to_string(),
        inviter_id: inviter,
    }
}

fn code(c: ErrorCode) -> Error {
    Error::Logic { code: c, context: None }
}

fn token_run(inviter: Option<i64>, replies: Vec<Reply>) -> Vec<TokenAction> {
    let (mut flow, first) = SignupTokenFlow::begin(request(inviter));
    let mut actions = vec![first];
    for r in replies {
        assert!(flow.accepts(&r));
        let (next, a) = flow.step(r);
        flow = next;
        actions.push(a);
    }
    actions
}

#[test]
fn uninvited_signup_token_is_issued() {
    let actions = token_run(None, vec![
        Reply::RowCount(0),
        Reply::RowCount(0),
        Reply::Token("tok".to_string()),
        Reply::Done,
        Reply::Done,
        Reply::Done,
    ]);
    assert_eq!(actions, vec![
        TokenAction::CountUsersWithEmail("a@b.tw".to_string()),
        TokenAction::CountTokensForEmail("a@b.tw".to_string()),
        TokenAction::GenerateToken,
        TokenAction::InsertToken {
            email: "a@b.tw".to_string(),
            birth_year: 1990,
            gender: "女".to_string(),
            license_id: "112台檢律字第1號".to_string(),
            token: "tok".to_string(),
            inviter_id: None,
        },
        TokenAction::SendSignupEmail { token: "tok".to_string(), email: "a@b.tw".to_string() },
        TokenAction::Commit,
        TokenAction::Finish(Ok(())),
    ]);
}

#[test]
fn invited_signup_token_checks_credit_first() {
    let actions = token_run(Some(4), vec![Reply::RemainingCredit(Some(1)), Reply::RowCount(0)]);
    assert_eq!(actions, vec![
        TokenAction::QueryRemainingCredit(4),
        TokenAction::CountUsersWithEmail("a@b.tw".to_string()),
        TokenAction::CountTokensForEmail("a@b.tw".to_string()),
    ]);
}

#[test]
fn exhausted_credit_is_refused() {
    for credit in [None, Some(0), Some(-3)] {
        let actions = token_run(Some(4), vec![Reply::RemainingCredit(credit)]);
        assert_eq!(actions, vec![
            TokenAction::QueryRemainingCredit(4),
            TokenAction::Finish(Err(code(ErrorCode::CreditExhausted))),
        ]);
    }
}

#[test]
fn registered_email_is_refused() {
    let actions = token_run(None, vec![Reply::RowCount(1)]);
    assert_eq!(actions[1], TokenAction::Finish(Err(code(ErrorCode::DuplicateRegister))));
}

#[test]
fn invited_email_is_refused() {
    let actions = token_run(None, vec![Reply::RowCount(0), Reply::RowCount(2)]);
    assert_eq!(actions[2], TokenAction::Finish(Err(code(ErrorCode::DuplicateInvitation))));
}

#[test]
fn finished_token_flow_accepts_nothing() {
    let (flow, _) = SignupTokenFlow::begin(request(None));
    let (flow, _) = flow.step(Reply::RowCount(3));
    assert!(!flow.accepts(&Reply::Done));
    assert!(!flow.accepts(&Reply::RowCount(0)));
}

#[test]
fn reset_mail_for_a_user() {
    let (mut flow, first) = ResetPasswordFlow::begin("u@x.tw".to_string());
    let mut actions = vec![first];
    for r in vec![Reply::RowCount(1), Reply::Token("t".to_string()), Reply::Done, Reply::Done, Reply::Done] {
        assert!(flow.accepts(&r));
        let (next, a) = flow.step(r);
        flow = next;
        actions.push(a);
    }
    assert_eq!(actions, vec![
        ResetAction::CountUsersWithEmail("u@x.tw".to_string()),
        ResetAction::GenerateToken,
        ResetAction::InsertResetToken { email: "u@x.tw".to_string(), token: "t".to_string() },
        ResetAction::SendResetEmail { token: "t".to_string(), email: "u@x.tw".to_string() },
        ResetAction::Commit,
        ResetAction::Finish(Ok(())),
    ]);
}

#[test]
fn reset_mail_for_unknown_address_is_refused() {
    let (flow, _) = ResetPasswordFlow::begin("u@x.tw".to_string());
    let (_, a) = flow.step(Reply::RowCount(0));
    assert_eq!(a, ResetAction::Finish(Err(code(ErrorCode::NotFound(DataType::Email, "u@x.tw".to_string())))));
}

#[test]
fn signup_with_known_token() {
    let (mut flow, first) = SignupByTokenFlow::begin("amy".to_string(), "secret1".to_string(), "tk".to_string());
    let mut actions = vec![first];
    let replies = vec![
        Reply::Email(Some("amy@law.tw".to_string())),
        Reply::Done,
        Reply::UserId(77),
        Reply::Done,
        Reply::Done,
        Reply::Done,
        Reply::Done,
        Reply::Done,
    ];
    for r in replies {
        assert!(flow.accepts(&r));
        let (next, a) = flow.step(r);
        flow = next;
        actions.push(a);
    }
    assert_eq!(actions, vec![
        SignupAction::FindEmailByToken("tk".to_string()),
        SignupAction::BeginTransaction,
        SignupAction::SignUp {
            name: "amy".to_string(),
            password: "secret1".to_string(),
            email: "amy@law.tw".to_string(),
        },
        SignupAction::MarkTokenUsed("tk".to_string()),
        SignupAction::CopyProfile { token: "tk".to_string(), name: "amy".to_string() },
        SignupAction::GrantTitle { user_id: 77, title: "律師" },
        SignupAction::RecordTitleHolder { title: "律師", unique_id: "amy@law.tw".to_string() },
        SignupAction::Commit,
        SignupAction::Finish(Ok(77)),
    ]);
}

#[test]
fn signup_with_unknown_token_is_refused() {
    let (flow, _) = SignupByTokenFlow::begin("amy".to_string(), "secret1".to_string(), "tk".to_string());
    let (flow, a) = flow.step(Reply::Email(None));
    assert_eq!(a, SignupAction::Finish(Err(code(ErrorCode::NotFound(DataType::SignupToken, "tk".to_string())))));
    assert!(!flow.accepts(&Reply::Done));
}
