//! The account transactions that alternate database work with decisions:
//! creating a sign-up token, mailing a password reset, and signing up with
//! a token. Each is a state machine: it names the work to do next, and is
//! advanced with the reply to that work.

use vstd::prelude::*;

use crate::error::{DataType, Error, ErrorCode, logic_error};

verus! {

/// The reply to a piece of work asked for by one of the account transactions.
#[derive(Debug, Clone, PartialEq, Eq)]
pub enum Reply {
    /// The inviter's invitation credit minus the invitations already sent;
    /// `None` when the inviter has no credit record.
    RemainingCredit(Option<i64>),
    /// The number of rows a lookup found.
    RowCount(usize),
    /// A freshly generated token.
    Token(String),
    /// The e-mail address registered for a sign-up token, if any.
    Email(Option<String>),
    /// The id of a newly created user.
    UserId(i64),
    /// The write, mail or commit asked for has been done.
    Done,
}

// ---------------------------------------------------------------------------
// Creating a sign-up token.

/// A request for a sign-up token, possibly on the invitation of a user.
#[derive(Debug, Clone, PartialEq, Eq)]
pub struct SignupTokenRequest {
    pub email: String,
    pub birth_year: i32,
    pub gender: String,
    pub license_id: String,
    pub inviter_id: Option<i64>,
}

/// Where the sign-up token transaction stands.
#[derive(Debug, Clone, Copy, PartialEq, Eq)]
pub enum TokenStage {
    CheckingCredit,
    CheckingRegistered,
    CheckingInvited,
    GeneratingToken,
    Inserting,
    Mailing,
    Committing,
    Finished,
}

/// The work the sign-up token transaction asks for next.
#[derive(Debug, PartialEq, Eq)]
pub enum TokenAction {
    /// Compute the inviter's remaining invitation credit.
    QueryRemainingCredit(i64),
    /// Count the users registered with the e-mail address.
    CountUsersWithEmail(String),
    /// Count the sign-up tokens issued for the e-mail address.
    CountTokensForEmail(String),
    /// Generate a fresh token.
    GenerateToken,
    /// Store the sign-up token with the applicant's data.
    InsertToken {
        email: String,
        birth_year: i32,
        gender: String,
        license_id: String,
        token: String,
        inviter_id: Option<i64>,
    },
    /// Mail the token to the applicant.
    SendSignupEmail { token: String, email: String },
    /// Commit the transaction.
    Commit,
    /// The transaction is over with this outcome.
    Finish(Result<(), Error>),
}

/// The transaction that issues a sign-up token for a request.
#[derive(Debug, Clone, PartialEq, Eq)]
pub struct SignupTokenFlow {
    pub request: SignupTokenRequest,
    pub stage: TokenStage,
    pub token: Option<String>,
}

/// The reply that the sign-up token transaction waits for in its stage.
pub open spec fn token_accepts(stage: TokenStage, r: Reply) -> bool {
    match stage {
        TokenStage::CheckingCredit => r is RemainingCredit,
        TokenStage::CheckingRegistered => r is RowCount,
        TokenStage::CheckingInvited => r is RowCount,
        TokenStage::GeneratingToken => r is Token,
        TokenStage::Inserting => r is Done,
        TokenStage::Mailing => r is Done,
        TokenStage::Committing => r is Done,
        TokenStage::Finished => false,
    }
}

/// An inviter may invite while the remaining credit is positive.
pub open spec fn credit_allows(remaining: Option<i64>) -> bool {
    remaining matches Some(n) && n > 0
}

/// The next state and action of the sign-up token transaction `s` on the reply `r`.
pub open spec fn token_step(s: SignupTokenFlow, r: Reply) -> (SignupTokenFlow, TokenAction) {
    let q = s.request;
    let at = |stage: TokenStage| SignupTokenFlow { stage, ..s };
    let fail = |code: ErrorCode| (at(TokenStage::Finished), TokenAction::Finish(Err(logic_error(code))));
    match (s.stage, r) {
        (TokenStage::CheckingCredit, Reply::RemainingCredit(remaining)) =>
            if credit_allows(remaining) {
                (at(TokenStage::CheckingRegistered), TokenAction::CountUsersWithEmail(q.email))
            } else {
                fail(ErrorCode::CreditExhausted)
            },
        (TokenStage::CheckingRegistered, Reply::RowCount(n)) =>
            if n > 0 {
                fail(ErrorCode::DuplicateRegister)
            } else {
                (at(TokenStage::CheckingInvited), TokenAction::CountTokensForEmail(q.email))
            },
        (TokenStage::CheckingInvited, Reply::RowCount(n)) =>
            if n > 0 {
                fail(ErrorCode::DuplicateInvitation)
            } else {
                (at(TokenStage::GeneratingToken), TokenAction::GenerateToken)
            },
        (TokenStage::GeneratingToken, Reply::Token(t)) => (
            SignupTokenFlow { stage: TokenStage::Inserting, token: Some(t), ..s },
            TokenAction::InsertToken {
                email: q.email,
                birth_year: q.birth_year,
                gender: q.gender,
                license_id: q.license_id,
                token: t,
                inviter_id: q.inviter_id,
            },
        ),
        (TokenStage::Inserting, Reply::Done) => (
            at(TokenStage::Mailing),
            TokenAction::SendSignupEmail { token: s.token.unwrap(), email: q.email },
        ),
        (TokenStage::Mailing, Reply::Done) => (at(TokenStage::Committing), TokenAction::Commit),
        (TokenStage::Committing, Reply::Done) => (at(TokenStage::Finished), TokenAction::Finish(Ok(()))),
        _ => (s, TokenAction::Commit),
    }
}

/// Runs the transaction `s` on the replies `rs`, collecting the actions it
/// asks for; the run stops at the first reply that is not waited for.
pub open spec fn token_run(s: SignupTokenFlow, rs: Seq<Reply>) -> (SignupTokenFlow, Seq<TokenAction>)
    decreases rs.len(),
{
    if rs.len() == 0 || !token_accepts(s.stage, rs[0]) {
        (s, Seq::empty())
    } else {
        let (t, a) = token_step(s, rs[0]);
        let (u, rest) = token_run(t, rs.drop_first());
        (u, seq![a] + rest)
    }
}

/// The state in which the transaction for `request` begins.
pub open spec fn token_started(request: SignupTokenRequest) -> SignupTokenFlow {
    SignupTokenFlow {
        stage: if request.inviter_id is Some { TokenStage::CheckingCredit } else { TokenStage::CheckingRegistered },
        request,
        token: None,
    }
}

/// The first action of the transaction for `request`.
pub open spec fn token_first_action(request: SignupTokenRequest) -> TokenAction {
    match request.inviter_id {
        Some(inviter) => TokenAction::QueryRemainingCredit(inviter),
        None => TokenAction::CountUsersWithEmail(request.email),
    }
}

impl SignupTokenFlow {
    /// A transaction that is storing its token holds it.
    pub open spec fn wf(self) -> bool {
        self.stage == TokenStage::Inserting ==> self.token is Some
    }

    /// Begins the transaction: an invited request first checks the
    /// inviter's credit, any other request first checks the e-mail address.
    pub fn begin(request: SignupTokenRequest) -> (r: (SignupTokenFlow, TokenAction))
        ensures
            r.0 == token_started(request),
            r.1 == token_first_action(request),
            r.0.wf(),
    {
        match request.inviter_id {
            Some(inviter) => (
                SignupTokenFlow { request, stage: TokenStage::CheckingCredit, token: None },
                TokenAction::QueryRemainingCredit(inviter),
            ),
            None => {
                let email = request.email.clone();
                (
                    SignupTokenFlow { request, stage: TokenStage::CheckingRegistered, token: None },
                    TokenAction::CountUsersWithEmail(email),
                )
            },
        }
    }

    /// Whether the transaction waits for the reply `r`.
    pub fn accepts(&self, r: &Reply) -> (b: bool)
        ensures
            b == token_accepts(self.stage, *r),
    {
        match (self.stage, r) {
            (TokenStage::CheckingCredit, Reply::RemainingCredit(_)) => true,
            (TokenStage::CheckingRegistered, Reply::RowCount(_)) => true,
            (TokenStage::CheckingInvited, Reply::RowCount(_)) => true,
            (TokenStage::GeneratingToken, Reply::Token(_)) => true,
            (TokenStage::Inserting, Reply::Done) => true,
            (TokenStage::Mailing, Reply::Done) => true,
            (TokenStage::Committing, Reply::Done) => true,
            _ => false,
        }
    }

    /// Advances the transaction on the reply it waits for. The inviter must
    /// have credit left, the address must belong to no user and have no
    /// token yet; then a token is generated, stored, mailed and committed.
    pub fn step(self, r: Reply) -> (res: (SignupTokenFlow, TokenAction))
        requires
            token_accepts(self.stage, r),
            self.wf(),
        ensures
            res == token_step(self, r),
            res.0.wf(),
            self.stage == TokenStage::CheckingCredit ==> (r matches Reply::RemainingCredit(Some(n)) && n > 0 ==> {
                &&& res.0.stage == TokenStage::CheckingRegistered
                &&& res.1 == TokenAction::CountUsersWithEmail(self.request.email)
            }),
            self.stage == TokenStage::CheckingCredit ==> (r == Reply::RemainingCredit(None) || (r matches Reply::RemainingCredit(Some(n)) && n <= 0) ==> {
                &&& res.0.stage == TokenStage::Finished
                &&& res.1 == TokenAction::Finish(Err(logic_error(ErrorCode::CreditExhausted)))
            }),
            self.stage == TokenStage::CheckingRegistered ==> (r matches Reply::RowCount(n) ==> if n > 0 {
                res.0.stage == TokenStage::Finished && res.1 == TokenAction::Finish(
                    Err(logic_error(ErrorCode::DuplicateRegister)),
                )
            } else {
                res.0.stage == TokenStage::CheckingInvited && res.1 == TokenAction::CountTokensForEmail(
                    self.request.email,
                )
            }),
            self.stage == TokenStage::CheckingInvited ==> (r matches Reply::RowCount(n) ==> if n > 0 {
                res.0.stage == TokenStage::Finished && res.1 == TokenAction::Finish(
                    Err(logic_error(ErrorCode::DuplicateInvitation)),
                )
            } else {
                res.0.stage == TokenStage::GeneratingToken && res.1 == TokenAction::GenerateToken
            }),
            self.stage == TokenStage::GeneratingToken ==> (r matches Reply::Token(t) ==> res.1 == (TokenAction::InsertToken {
                email: self.request.email,
                birth_year: self.request.birth_year,
                gender: self.request.gender,
                license_id: self.request.license_id,
                token: t,
                inviter_id: self.request.inviter_id,
            }) && res.0.token == Some(t)),
            self.stage == TokenStage::Inserting ==> res.1 == (TokenAction::SendSignupEmail {
                token: self.token.unwrap(),
                email: self.request.email,
            }),
    {
        let SignupTokenFlow { request, stage, token } = self;
        match (stage, r) {
            (TokenStage::CheckingCredit, Reply::RemainingCredit(remaining)) => {
                let allowed = match remaining {
                    Some(n) => n > 0,
                    None => false,
                };
                if allowed {
                    let email = request.email.clone();
                    (
                        SignupTokenFlow { request, stage: TokenStage::CheckingRegistered, token },
                        TokenAction::CountUsersWithEmail(email),
                    )
                } else {
                    (
                        SignupTokenFlow { request, stage: TokenStage::Finished, token },
                        TokenAction::Finish(Err(Error::from_code(ErrorCode::CreditExhausted))),
                    )
                }
            },
            (TokenStage::CheckingRegistered, Reply::RowCount(n)) => {
                if n > 0 {
                    (
                        SignupTokenFlow { request, stage: TokenStage::Finished, token },
                        TokenAction::Finish(Err(Error::from_code(ErrorCode::DuplicateRegister))),
                    )
                } else {
                    let email = request.email.clone();
                    (
                        SignupTokenFlow { request, stage: TokenStage::CheckingInvited, token },
                        TokenAction::CountTokensForEmail(email),
                    )
                }
            },
            (TokenStage::CheckingInvited, Reply::RowCount(n)) => {
                if n > 0 {
                    (
                        SignupTokenFlow { request, stage: TokenStage::Finished, token },
                        TokenAction::Finish(Err(Error::from_code(ErrorCode::DuplicateInvitation))),
                    )
                } else {
                    (
                        SignupTokenFlow { request, stage: TokenStage::GeneratingToken, token },
                        TokenAction::GenerateToken,
                    )
                }
            },
            (TokenStage::GeneratingToken, Reply::Token(t)) => {
                let action = TokenAction::InsertToken {
                    email: request.email.clone(),
                    birth_year: request.birth_year,
                    gender: request.gender.clone(),
                    license_id: request.license_id.clone(),
                    token: t.clone(),
                    inviter_id: request.inviter_id,
                };
                (SignupTokenFlow { request, stage: TokenStage::Inserting, token: Some(t) }, action)
            },
            (TokenStage::Inserting, _) => {
                let t = match &token {
                    Some(t) => t.clone(),
                    None => String::new(),
                };
                let email = request.email.clone();
                (
                    SignupTokenFlow { request, stage: TokenStage::Mailing, token },
                    TokenAction::SendSignupEmail { token: t, email },
                )
            },
            (TokenStage::Mailing, _) => (
                SignupTokenFlow { request, stage: TokenStage::Committing, token },
                TokenAction::Commit,
            ),
            (TokenStage::Committing, _) => (
                SignupTokenFlow { request, stage: TokenStage::Finished, token },
                TokenAction::Finish(Ok(())),
            ),
            (stage, _) => (SignupTokenFlow { request, stage, token }, TokenAction::Commit),
        }
    }
}

/// The actions that act on the world: storing or mailing the token,
/// committing, and finishing with success.
pub open spec fn token_effect(a: TokenAction) -> bool {
    ||| a is InsertToken
    ||| a is SendSignupEmail
    ||| a is Commit
    ||| a == TokenAction::Finish(Ok(()))
}

/// Some action of `actions` acts on the world.
pub open spec fn has_token_effect(actions: Seq<TokenAction>) -> bool {
    exists|i: int| 0 <= i < actions.len() && token_effect(#[trigger] actions[i])
}

/// The replies `rs`, given from the check stage `stage` on, let every
/// remaining check pass: the inviter's credit is positive, no user has the
/// address, and no token was issued for it.
pub open spec fn token_checks_pass_from(stage: TokenStage, rs: Seq<Reply>) -> bool {
    match stage {
        TokenStage::CheckingCredit => {
            &&& rs.len() >= 3
            &&& rs[0] matches Reply::RemainingCredit(c) && credit_allows(c)
            &&& rs[1] == Reply::RowCount(0)
            &&& rs[2] == Reply::RowCount(0)
        },
        TokenStage::CheckingRegistered => {
            &&& rs.len() >= 2
            &&& rs[0] == Reply::RowCount(0)
            &&& rs[1] == Reply::RowCount(0)
        },
        TokenStage::CheckingInvited => rs.len() >= 1 && rs[0] == Reply::RowCount(0),
        _ => true,
    }
}

proof fn lemma_token_finished_run(s: SignupTokenFlow, rs: Seq<Reply>)
    requires
        s.stage == TokenStage::Finished,
    ensures
        token_run(s, rs).1 == Seq::<TokenAction>::empty(),
{
}

proof fn lemma_token_effects_need_checks(s: SignupTokenFlow, rs: Seq<Reply>)
    requires
        s.stage == TokenStage::CheckingCredit || s.stage == TokenStage::CheckingRegistered
            || s.stage == TokenStage::CheckingInvited,
        has_token_effect(token_run(s, rs).1),
    ensures
        token_checks_pass_from(s.stage, rs),
    decreases rs.len(),
{
    let acts = token_run(s, rs).1;
    if rs.len() == 0 || !token_accepts(s.stage, rs[0]) {
        assert(acts.len() == 0);
    } else {
        let (t, a) = token_step(s, rs[0]);
        let rest = token_run(t, rs.drop_first()).1;
        assert(acts == seq![a] + rest);
        let i = choose|i: int| 0 <= i < acts.len() && token_effect(#[trigger] acts[i]);
        if t.stage == TokenStage::Finished {
            lemma_token_finished_run(t, rs.drop_first());
            assert(acts.len() == 1);
            assert(acts[0] == a);
        } else if s.stage != TokenStage::CheckingInvited {
            assert(!token_effect(a));
            assert(i > 0);
            assert(rest[i - 1] == acts[i]);
            lemma_token_effects_need_checks(t, rs.drop_first());
        }
    }
}

/// No sign-up token is stored, mailed or committed, and no request
/// succeeds, unless every check passed first: for an invited request the
/// inviter's remaining credit was positive, and the address belonged to no
/// user and had no token yet.
pub proof fn law_token_issued_only_after_checks(request: SignupTokenRequest, rs: Seq<Reply>)
    requires
        has_token_effect(token_run(token_started(request), rs).1),
    ensures
        token_checks_pass_from(token_started(request).stage, rs),
        request.inviter_id is Some ==> (rs[0] matches Reply::RemainingCredit(c) && credit_allows(c)),
{
    lemma_token_effects_need_checks(token_started(request), rs);
}

/// Once the address is being checked, replies that clear both checks lead
/// to a token that is generated, stored with the applicant's data, mailed to
/// the applicant, committed, and a successful finish, in that order.
pub proof fn law_token_issued(s: SignupTokenFlow, token: String)
    requires
        s.stage == TokenStage::CheckingRegistered,
    ensures
        ({
            let (end, actions) = token_run(
                s,
                seq![Reply::RowCount(0), Reply::RowCount(0), Reply::Token(token), Reply::Done, Reply::Done, Reply::Done],
            );
            let q = s.request;
            &&& end.stage == TokenStage::Finished
            &&& actions == seq![
                TokenAction::CountTokensForEmail(q.email),
                TokenAction::GenerateToken,
                TokenAction::InsertToken {
                    email: q.email,
                    birth_year: q.birth_year,
                    gender: q.gender,
                    license_id: q.license_id,
                    token,
                    inviter_id: q.inviter_id,
                },
                TokenAction::SendSignupEmail { token, email: q.email },
                TokenAction::Commit,
                TokenAction::Finish(Ok(())),
            ]
        }),
{
    let q = s.request;
    let r0 = seq![Reply::RowCount(0), Reply::RowCount(0), Reply::Token(token), Reply::Done, Reply::Done, Reply::Done];
    let r1 = r0.drop_first();
    let r2 = r1.drop_first();
    let r3 = r2.drop_first();
    let r4 = r3.drop_first();
    let r5 = r4.drop_first();
    let r6 = r5.drop_first();
    assert(r1 =~= seq![Reply::RowCount(0), Reply::Token(token), Reply::Done, Reply::Done, Reply::Done]);
    assert(r2 =~= seq![Reply::Token(token), Reply::Done, Reply::Done, Reply::Done]);
    assert(r3 =~= seq![Reply::Done, Reply::Done, Reply::Done]);
    assert(r4 =~= seq![Reply::Done, Reply::Done]);
    assert(r5 =~= seq![Reply::Done]);
    assert(r6.len() == 0);
    let s1 = token_step(s, r0[0]).0;
    let s2 = token_step(s1, r1[0]).0;
    let s3 = token_step(s2, r2[0]).0;
    let s4 = token_step(s3, r3[0]).0;
    let s5 = token_step(s4, r4[0]).0;
    let s6 = token_step(s5, r5[0]).0;
    assert(token_run(s6, r6).1 =~= Seq::<TokenAction>::empty());
    assert(token_run(s5, r5).1 =~= seq![TokenAction::Finish(Ok(()))]);
    assert(token_run(s4, r4).1 =~= seq![TokenAction::Commit, TokenAction::Finish(Ok(()))]);
    assert(token_run(s3, r3).1 =~= seq![
        TokenAction::SendSignupEmail { token, email: q.email },
        TokenAction::Commit,
        TokenAction::Finish(Ok(())),
    ]);
    assert(token_run(s2, r2).1 =~= seq![
        TokenAction::InsertToken {
            email: q.email,
            birth_year: q.birth_year,
            gender: q.gender,
            license_id: q.license_id,
            token,
            inviter_id: q.inviter_id,
        },
        TokenAction::SendSignupEmail { token, email: q.email },
        TokenAction::Commit,
        TokenAction::Finish(Ok(())),
    ]);
    assert(token_run(s1, r1).1 =~= seq![
        TokenAction::GenerateToken,
        TokenAction::InsertToken {
            email: q.email,
            birth_year: q.birth_year,
            gender: q.gender,
            license_id: q.license_id,
            token,
            inviter_id: q.inviter_id,
        },
        TokenAction::SendSignupEmail { token, email: q.email },
        TokenAction::Commit,
        TokenAction::Finish(Ok(())),
    ]);
}

/// An invited request goes on to the address checks exactly when the
/// inviter's remaining credit is positive; otherwise it ends at once,
/// refused with `CreditExhausted`, and asks for nothing more.
pub proof fn law_invitation_needs_credit(request: SignupTokenRequest, remaining: Option<i64>, rest: Seq<Reply>)
    requires
        request.inviter_id is Some,
    ensures
        credit_allows(remaining) ==> token_step(token_started(request), Reply::RemainingCredit(remaining)).0.stage
            == TokenStage::CheckingRegistered,
        !credit_allows(remaining) ==> token_run(
            token_started(request),
            seq![Reply::RemainingCredit(remaining)] + rest,
        ).1 == seq![TokenAction::Finish(Err(logic_error(ErrorCode::CreditExhausted)))],
{
    let s = token_started(request);
    let rs = seq![Reply::RemainingCredit(remaining)] + rest;
    assert(rs[0] == Reply::RemainingCredit(remaining));
    assert(rs.drop_first() =~= rest);
    if !credit_allows(remaining) {
        let t = token_step(s, rs[0]).0;
        lemma_token_finished_run(t, rest);
        assert(token_run(s, rs).1 =~= seq![TokenAction::Finish(Err(logic_error(ErrorCode::CreditExhausted)))]);
    }
}

/// The credit rule of invitations: an invited request whose inviter has
/// `n` invitations left goes on to the address checks, asking whether a
/// user has the address, for every `n > 0`; it is refused with
/// `CreditExhausted` when `n <= 0` or when the inviter has no credit record.
pub proof fn law_invitation_credit_rule(request: SignupTokenRequest, n: i64)
    requires
        request.inviter_id is Some,
    ensures
        n > 0 ==> token_step(token_started(request), Reply::RemainingCredit(Some(n))) == (
            SignupTokenFlow { stage: TokenStage::CheckingRegistered, ..token_started(request) },
            TokenAction::CountUsersWithEmail(request.email),
        ),
        n <= 0 ==> token_step(token_started(request), Reply::RemainingCredit(Some(n))).1 == TokenAction::Finish(
            Err(logic_error(ErrorCode::CreditExhausted)),
        ),
        token_step(token_started(request), Reply::RemainingCredit(None)).1 == TokenAction::Finish(
            Err(logic_error(ErrorCode::CreditExhausted)),
        ),
{
}

// ---------------------------------------------------------------------------
// Mailing a password reset.

/// Where the password reset transaction stands.
#[derive(Debug, Clone, Copy, PartialEq, Eq)]
pub enum ResetStage {
    CheckingEmail,
    GeneratingToken,
    Inserting,
    Mailing,
    Committing,
    Finished,
}

/// The work the password reset transaction asks for next.
#[derive(Debug, PartialEq, Eq)]
pub enum ResetAction {
    /// Count the users registered with the e-mail address.
    CountUsersWithEmail(String),
    /// Generate a fresh token.
    GenerateToken,
    /// Store the reset token for the user with the e-mail address.
    InsertResetToken { email: String, token: String },
    /// Mail the reset token to the address.
    SendResetEmail { token: String, email: String },
    /// Commit the transaction.
    Commit,
    /// The transaction is over with this outcome.
    Finish(Result<(), Error>),
}

/// The transaction that mails a password reset token to `email`.
#[derive(Debug, Clone, PartialEq, Eq)]
pub struct ResetPasswordFlow {
    pub email: String,
    pub stage: ResetStage,
    pub token: Option<String>,
}

/// The reply that the password reset transaction waits for in its stage.
pub open spec fn reset_accepts(stage: ResetStage, r: Reply) -> bool {
    match stage {
        ResetStage::CheckingEmail => r is RowCount,
        ResetStage::GeneratingToken => r is Token,
        ResetStage::Inserting => r is Done,
        ResetStage::Mailing => r is Done,
        ResetStage::Committing => r is Done,
        ResetStage::Finished => false,
    }
}

/// The refusal of an address that belongs to no user.
pub open spec fn email_not_found(email: String) -> Error {
    logic_error(ErrorCode::NotFound(DataType::Email, email))
}

/// The next state and action of the password reset transaction `s` on the reply `r`.
pub open spec fn reset_step(s: ResetPasswordFlow, r: Reply) -> (ResetPasswordFlow, ResetAction) {
    let at = |stage: ResetStage| ResetPasswordFlow { stage, ..s };
    match (s.stage, r) {
        (ResetStage::CheckingEmail, Reply::RowCount(n)) =>
            if n == 0 {
                (at(ResetStage::Finished), ResetAction::Finish(Err(email_not_found(s.email))))
            } else {
                (at(ResetStage::GeneratingToken), ResetAction::GenerateToken)
            },
        (ResetStage::GeneratingToken, Reply::Token(t)) => (
            ResetPasswordFlow { stage: ResetStage::Inserting, token: Some(t), ..s },
            ResetAction::InsertResetToken { email: s.email, token: t },
        ),
        (ResetStage::Inserting, Reply::Done) => (
            at(ResetStage::Mailing),
            ResetAction::SendResetEmail { token: s.token.unwrap(), email: s.email },
        ),
        (ResetStage::Mailing, Reply::Done) => (at(ResetStage::Committing), ResetAction::Commit),
        (ResetStage::Committing, Reply::Done) => (at(ResetStage::Finished), ResetAction::Finish(Ok(()))),
        _ => (s, ResetAction::Commit),
    }
}

/// Runs the transaction `s` on the replies `rs`, collecting the actions it
/// asks for; the run stops at the first reply that is not waited for.
pub open spec fn reset_run(s: ResetPasswordFlow, rs: Seq<Reply>) -> (ResetPasswordFlow, Seq<ResetAction>)
    decreases rs.len(),
{
    if rs.len() == 0 || !reset_accepts(s.stage, rs[0]) {
        (s, Seq::empty())
    } else {
        let (t, a) = reset_step(s, rs[0]);
        let (u, rest) = reset_run(t, rs.drop_first());
        (u, seq![a] + rest)
    }
}

/// The state in which the transaction for `email` begins.
pub open spec fn reset_started(email: String) -> ResetPasswordFlow {
    ResetPasswordFlow { email, stage: ResetStage::CheckingEmail, token: None }
}

impl ResetPasswordFlow {
    /// A transaction that is storing its token holds it.
    pub open spec fn wf(self) -> bool {
        self.stage == ResetStage::Inserting ==> self.token is Some
    }

    /// Begins the transaction: the address is looked up among the users.
    pub fn begin(email: String) -> (r: (ResetPasswordFlow, ResetAction))
        ensures
            r.0 == reset_started(email),
            r.1 == ResetAction::CountUsersWithEmail(email),
            r.0.wf(),
    {
        let e = email.clone();
        (ResetPasswordFlow { email, stage: ResetStage::CheckingEmail, token: None }, ResetAction::CountUsersWithEmail(e))
    }

    /// Whether the transaction waits for the reply `r`.
    pub fn accepts(&self, r: &Reply) -> (b: bool)
        ensures
            b == reset_accepts(self.stage, *r),
    {
        match (self.stage, r) {
            (ResetStage::CheckingEmail, Reply::RowCount(_)) => true,
            (ResetStage::GeneratingToken, Reply::Token(_)) => true,
            (ResetStage::Inserting, Reply::Done) => true,
            (ResetStage::Mailing, Reply::Done) => true,
            (ResetStage::Committing, Reply::Done) => true,
            _ => false,
        }
    }

    /// Advances the transaction on the reply it waits for. An address of no
    /// user is refused; otherwise a token is generated, stored, mailed and
    /// committed.
    pub fn step(self, r: Reply) -> (res: (ResetPasswordFlow, ResetAction))
        requires
            reset_accepts(self.stage, r),
            self.wf(),
        ensures
            res == reset_step(self, r),
            res.0.wf(),
            self.stage == ResetStage::CheckingEmail ==> (r matches Reply::RowCount(n) ==> if n == 0 {
                res.0.stage == ResetStage::Finished && res.1 == ResetAction::Finish(
                    Err(logic_error(ErrorCode::NotFound(DataType::Email, self.email))),
                )
            } else {
                res.0.stage == ResetStage::GeneratingToken && res.1 == ResetAction::GenerateToken
            }),
    {
        let ResetPasswordFlow { email, stage, token } = self;
        match (stage, r) {
            (ResetStage::CheckingEmail, Reply::RowCount(n)) => {
                if n == 0 {
                    let e = email.clone();
                    (
                        ResetPasswordFlow { email, stage: ResetStage::Finished, token },
                        ResetAction::Finish(Err(Error::from_code(ErrorCode::NotFound(DataType::Email, e)))),
                    )
                } else {
                    (ResetPasswordFlow { email, stage: ResetStage::GeneratingToken, token }, ResetAction::GenerateToken)
                }
            },
            (ResetStage::GeneratingToken, Reply::Token(t)) => {
                let action = ResetAction::InsertResetToken { email: email.clone(), token: t.clone() };
                (ResetPasswordFlow { email, stage: ResetStage::Inserting, token: Some(t) }, action)
            },
            (ResetStage::Inserting, _) => {
                let t = match &token {
                    Some(t) => t.clone(),
                    None => String::new(),
                };
                let e = email.clone();
                (
                    ResetPasswordFlow { email, stage: ResetStage::Mailing, token },
                    ResetAction::SendResetEmail { token: t, email: e },
                )
            },
            (ResetStage::Mailing, _) => (ResetPasswordFlow { email, stage: ResetStage::Committing, token }, ResetAction::Commit),
            (ResetStage::Committing, _) => (
                ResetPasswordFlow { email, stage: ResetStage::Finished, token },
                ResetAction::Finish(Ok(())),
            ),
            (stage, _) => (ResetPasswordFlow { email, stage, token }, ResetAction::Commit),
        }
    }
}

// ---------------------------------------------------------------------------
// Signing up with a sign-up token.

/// The title granted to every user who signs up with a token.
pub open spec fn lawyer_title() -> &'static str {
    "律師"
}

/// Where the sign-up-by-token transaction stands.
#[derive(Debug, Clone, Copy, PartialEq, Eq)]
pub enum SignupStage {
    FindingEmail,
    Beginning,
    SigningUp,
    MarkingTokenUsed,
    CopyingProfile,
    GrantingTitle,
    RecordingTitleHolder,
    Committing,
    Finished,
}

/// The work the sign-up-by-token transaction asks for next.
#[derive(Debug, PartialEq, Eq)]
pub enum SignupAction {
    /// Look up the e-mail address the token was issued for.
    FindEmailByToken(String),
    /// Begin the database transaction.
    BeginTransaction,
    /// Create the user (checking the password and hashing it).
    SignUp { name: String, password: String, email: String },
    /// Mark the token as used.
    MarkTokenUsed(String),
    /// Copy the gender and birth year stored with the token to the user.
    CopyProfile { token: String, name: String },
    /// Grant the user a title.
    GrantTitle { user_id: i64, title: &'static str },
    /// Record who holds the title.
    RecordTitleHolder { title: &'static str, unique_id: String },
    /// Commit the transaction.
    Commit,
    /// The transaction is over with this outcome: the new user's id.
    Finish(Result<i64, Error>),
}

/// The transaction that signs up `name` with `password` using the sign-up `token`.
#[derive(Debug, Clone, PartialEq, Eq)]
pub struct SignupByTokenFlow {
    pub name: String,
    pub password: String,
    pub token: String,
    pub stage: SignupStage,
    pub email: Option<String>,
    pub user_id: Option<i64>,
}

/// The reply that the sign-up-by-token transaction waits for in its stage.
pub open spec fn signup_accepts(stage: SignupStage, r: Reply) -> bool {
    match stage {
        SignupStage::FindingEmail => r is Email,
        SignupStage::SigningUp => r is UserId,
        SignupStage::Finished => false,
        _ => r is Done,
    }
}

/// The refusal of an unknown sign-up token.
pub open spec fn token_not_found(token: String) -> Error {
    logic_error(ErrorCode::NotFound(DataType::SignupToken, token))
}

/// The next state and action of the sign-up-by-token transaction `s` on the reply `r`.
pub open spec fn signup_step(s: SignupByTokenFlow, r: Reply) -> (SignupByTokenFlow, SignupAction) {
    let at = |stage: SignupStage| SignupByTokenFlow { stage, ..s };
    match (s.stage, r) {
        (SignupStage::FindingEmail, Reply::Email(None)) => (
            at(SignupStage::Finished),
            SignupAction::Finish(Err(token_not_found(s.token))),
        ),
        (SignupStage::FindingEmail, Reply::Email(Some(email))) => (
            SignupByTokenFlow { stage: SignupStage::Beginning, email: Some(email), ..s },
            SignupAction::BeginTransaction,
        ),
        (SignupStage::Beginning, Reply::Done) => (
            at(SignupStage::SigningUp),
            SignupAction::SignUp { name: s.name, password: s.password, email: s.email.unwrap() },
        ),
        (SignupStage::SigningUp, Reply::UserId(id)) => (
            SignupByTokenFlow { stage: SignupStage::MarkingTokenUsed, user_id: Some(id), ..s },
            SignupAction::MarkTokenUsed(s.token),
        ),
        (SignupStage::MarkingTokenUsed, Reply::Done) => (
            at(SignupStage::CopyingProfile),
            SignupAction::CopyProfile { token: s.token, name: s.name },
        ),
        (SignupStage::CopyingProfile, Reply::Done) => (
            at(SignupStage::GrantingTitle),
            SignupAction::GrantTitle { user_id: s.user_id.unwrap(), title: lawyer_title() },
        ),
        (SignupStage::GrantingTitle, Reply::Done) => (
            at(SignupStage::RecordingTitleHolder),
            SignupAction::RecordTitleHolder { title: lawyer_title(), unique_id: s.email.unwrap() },
        ),
        (SignupStage::RecordingTitleHolder, Reply::Done) => (at(SignupStage::Committing), SignupAction::Commit),
        (SignupStage::Committing, Reply::Done) => (
            at(SignupStage::Finished),
            SignupAction::Finish(Ok(s.user_id.unwrap())),
        ),
        _ => (s, SignupAction::Commit),
    }
}

/// Runs the transaction `s` on the replies `rs`, collecting the actions it
/// asks for; the run stops at the first reply that is not waited for.
pub open spec fn signup_run(s: SignupByTokenFlow, rs: Seq<Reply>) -> (SignupByTokenFlow, Seq<SignupAction>)
    decreases rs.len(),
{
    if rs.len() == 0 || !signup_accepts(s.stage, rs[0]) {
        (s, Seq::empty())
    } else {
        let (t, a) = signup_step(s, rs[0]);
        let (u, rest) = signup_run(t, rs.drop_first());
        (u, seq![a] + rest)
    }
}

/// The state in which the transaction begins.
pub open spec fn signup_started(name: String, password: String, token: String) -> SignupByTokenFlow {
    SignupByTokenFlow { name, password, token, stage: SignupStage::FindingEmail, email: None, user_id: None }
}

impl SignupByTokenFlow {
    /// Past the lookup the transaction holds the address, and past the
    /// creation of the user it holds the user's id.
    pub open spec fn wf(self) -> bool {
        &&& (self.stage != SignupStage::FindingEmail && self.stage != SignupStage::Finished) ==> self.email is Some
        &&& (self.stage != SignupStage::FindingEmail && self.stage != SignupStage::Finished
            && self.stage != SignupStage::Beginning && self.stage != SignupStage::SigningUp) ==> self.user_id is Some
    }

    /// Begins the transaction: the token's e-mail address is looked up.
    pub fn begin(name: String, password: String, token: String) -> (r: (SignupByTokenFlow, SignupAction))
        ensures
            r.0 == signup_started(name, password, token),
            r.1 == SignupAction::FindEmailByToken(token),
            r.0.wf(),
    {
        let t = token.clone();
        (
            SignupByTokenFlow { name, password, token, stage: SignupStage::FindingEmail, email: None, user_id: None },
            SignupAction::FindEmailByToken(t),
        )
    }

    /// Whether the transaction waits for the reply `r`.
    pub fn accepts(&self, r: &Reply) -> (b: bool)
        ensures
            b == signup_accepts(self.stage, *r),
    {
        match (self.stage, r) {
            (SignupStage::FindingEmail, Reply::Email(_)) => true,
            (SignupStage::SigningUp, Reply::UserId(_)) => true,
            (SignupStage::FindingEmail, _) => false,
            (SignupStage::SigningUp, _) => false,
            (SignupStage::Finished, _) => false,
            (_, Reply::Done) => true,
            _ => false,
        }
    }

    /// Advances the transaction on the reply it waits for. An unknown token
    /// is refused; otherwise the user is created for the token's address,
    /// the token marked used, the profile copied, the lawyer title granted
    /// and recorded, and the new user's id returned after the commit.
    pub fn step(self, r: Reply) -> (res: (SignupByTokenFlow, SignupAction))
        requires
            signup_accepts(self.stage, r),
            self.wf(),
        ensures
            res == signup_step(self, r),
            res.0.wf(),
            self.stage == SignupStage::FindingEmail ==> (r == Reply::Email(None) ==> res.1 == SignupAction::Finish(
                Err(logic_error(ErrorCode::NotFound(DataType::SignupToken, self.token))),
            )),
            self.stage == SignupStage::FindingEmail ==> (r matches Reply::Email(Some(e)) ==> res.0.email == Some(e)
                && res.1 == SignupAction::BeginTransaction),
            self.stage == SignupStage::Beginning ==> res.1 == (SignupAction::SignUp {
                name: self.name,
                password: self.password,
                email: self.email.unwrap(),
            }),
            self.stage == SignupStage::SigningUp ==> (r matches Reply::UserId(id) ==> res.0.user_id == Some(id)),
            self.stage == SignupStage::Committing ==> res.1 == SignupAction::Finish(Ok(self.user_id.unwrap())),
    {
        let SignupByTokenFlow { name, password, token, stage, email, user_id } = self;
        match (stage, r) {
            (SignupStage::FindingEmail, Reply::Email(None)) => {
                let t = token.clone();
                (
                    SignupByTokenFlow { name, password, token, stage: SignupStage::Finished, email, user_id },
                    SignupAction::Finish(Err(Error::from_code(ErrorCode::NotFound(DataType::SignupToken, t)))),
                )
            },
            (SignupStage::FindingEmail, Reply::Email(Some(e))) => (
                SignupByTokenFlow { name, password, token, stage: SignupStage::Beginning, email: Some(e), user_id },
                SignupAction::BeginTransaction,
            ),
            (SignupStage::Beginning, _) => {
                let e = match &email {
                    Some(e) => e.clone(),
                    None => String::new(),
                };
                let action = SignupAction::SignUp { name: name.clone(), password: password.clone(), email: e };
                (SignupByTokenFlow { name, password, token, stage: SignupStage::SigningUp, email, user_id }, action)
            },
            (SignupStage::SigningUp, Reply::UserId(id)) => {
                let t = token.clone();
                (
                    SignupByTokenFlow { name, password, token, stage: SignupStage::MarkingTokenUsed, email, user_id: Some(id) },
                    SignupAction::MarkTokenUsed(t),
                )
            },
            (SignupStage::MarkingTokenUsed, _) => {
                let action = SignupAction::CopyProfile { token: token.clone(), name: name.clone() };
                (SignupByTokenFlow { name, password, token, stage: SignupStage::CopyingProfile, email, user_id }, action)
            },
            (SignupStage::CopyingProfile, _) => {
                let id = match user_id {
                    Some(id) => id,
                    None => 0,
                };
                (
                    SignupByTokenFlow { name, password, token, stage: SignupStage::GrantingTitle, email, user_id },
                    SignupAction::GrantTitle { user_id: id, title: "律師" },
                )
            },
            (SignupStage::GrantingTitle, _) => {
                let e = match &email {
                    Some(e) => e.clone(),
                    None => String::new(),
                };
                (
                    SignupByTokenFlow { name, password, token, stage: SignupStage::RecordingTitleHolder, email, user_id },
                    SignupAction::RecordTitleHolder { title: "律師", unique_id: e },
                )
            },
            (SignupStage::RecordingTitleHolder, _) => (
                SignupByTokenFlow { name, password, token, stage: SignupStage::Committing, email, user_id },
                SignupAction::Commit,
            ),
            (SignupStage::Committing, _) => {
                let id = match user_id {
                    Some(id) => id,
                    None => 0,
                };
                (
                    SignupByTokenFlow { name, password, token, stage: SignupStage::Finished, email, user_id },
                    SignupAction::Finish(Ok(id)),
                )
            },
            (stage, _) => (SignupByTokenFlow { name, password, token, stage, email, user_id }, SignupAction::Commit),
        }
    }
}

// ---------------------------------------------------------------------------
// Laws of the password reset and sign-up-by-token transactions.

/// The actions of the password reset transaction that act on the world.
pub open spec fn reset_effect(a: ResetAction) -> bool {
    ||| a is InsertResetToken
    ||| a is SendResetEmail
    ||| a is Commit
    ||| a == ResetAction::Finish(Ok(()))
}

/// No reset token is stored, mailed or committed, and no reset succeeds,
/// unless the address belongs to a user.
pub proof fn law_reset_only_for_registered_email(email: String, rs: Seq<Reply>)
    requires
        exists|i: int| 0 <= i < reset_run(reset_started(email), rs).1.len()
            && reset_effect(#[trigger] reset_run(reset_started(email), rs).1[i]),
    ensures
        rs.len() > 0,
        rs[0] matches Reply::RowCount(n) && n > 0,
{
    let s = reset_started(email);
    let acts = reset_run(s, rs).1;
    let i = choose|i: int| 0 <= i < acts.len() && reset_effect(#[trigger] acts[i]);
    if rs.len() == 0 || !reset_accepts(s.stage, rs[0]) {
        assert(acts.len() == 0);
    } else if rs[0] == Reply::RowCount(0) {
        let (t, a) = reset_step(s, rs[0]);
        assert(t.stage == ResetStage::Finished);
        assert(reset_run(t, rs.drop_first()).1.len() == 0);
        assert(acts == seq![a]);
        assert(!reset_effect(a));
    }
}

/// The actions of the sign-up-by-token transaction past the user's creation.
pub open spec fn signup_late_stage(stage: SignupStage) -> bool {
    ||| stage == SignupStage::MarkingTokenUsed
    ||| stage == SignupStage::CopyingProfile
    ||| stage == SignupStage::GrantingTitle
    ||| stage == SignupStage::RecordingTitleHolder
    ||| stage == SignupStage::Committing
    ||| stage == SignupStage::Finished
}

proof fn lemma_signup_late_finish(s: SignupByTokenFlow, rs: Seq<Reply>, id: i64)
    requires
        signup_late_stage(s.stage),
        s.wf(),
        signup_run(s, rs).1.contains(SignupAction::Finish(Ok(id))),
    ensures
        s.user_id == Some(id),
    decreases rs.len(),
{
    let acts = signup_run(s, rs).1;
    if rs.len() == 0 || !signup_accepts(s.stage, rs[0]) {
        assert(acts.len() == 0);
    } else {
        let (t, a) = signup_step(s, rs[0]);
        let rest = signup_run(t, rs.drop_first()).1;
        assert(acts == seq![a] + rest);
        let i = choose|i: int| 0 <= i < acts.len() && acts[i] == SignupAction::Finish(Ok(id));
        if i > 0 {
            assert(rest[i - 1] == acts[i]);
            lemma_signup_late_finish(t, rs.drop_first(), id);
        }
    }
}

/// Signing up with a token creates a user only for the address the token
/// was issued for (an unknown token creates nobody), and a successful
/// sign-up answers the id of the user it created.
pub proof fn law_signup_with_token(name: String, password: String, token: String, rs: Seq<Reply>, id: i64)
    ensures
        signup_run(signup_started(name, password, token), rs).1.contains(
            SignupAction::Finish(Ok(id)),
        ) ==> rs.len() >= 3 && rs[0] is Email && rs[0]->Email_0 is Some && rs[2] == Reply::UserId(id),
        forall|n: String, p: String, e: String|
            #[trigger] signup_run(signup_started(name, password, token), rs).1.contains(
                SignupAction::SignUp { name: n, password: p, email: e },
            ) ==> rs.len() >= 2 && rs[0] == Reply::Email(Some(e)) && n == name && p == password,
{
    let s0 = signup_started(name, password, token);
    let acts = signup_run(s0, rs).1;
    if rs.len() == 0 || !signup_accepts(s0.stage, rs[0]) {
        assert(acts.len() == 0);
    } else {
        let (s1, a0) = signup_step(s0, rs[0]);
        let r1 = rs.drop_first();
        let acts1 = signup_run(s1, r1).1;
        assert(acts == seq![a0] + acts1);
        if s1.stage == SignupStage::Finished {
            assert(acts1.len() == 0);
        } else if r1.len() == 0 || !signup_accepts(s1.stage, r1[0]) {
            assert(acts1.len() == 0);
        } else {
            let (s2, a1) = signup_step(s1, r1[0]);
            let r2 = r1.drop_first();
            let acts2 = signup_run(s2, r2).1;
            assert(acts1 == seq![a1] + acts2);
            assert(r1[0] == rs[1]);
            if r2.len() == 0 || !signup_accepts(s2.stage, r2[0]) {
                assert(acts2.len() == 0);
            } else {
                let (s3, a2) = signup_step(s2, r2[0]);
                let r3 = r2.drop_first();
                let acts3 = signup_run(s3, r3).1;
                assert(acts2 == seq![a2] + acts3);
                assert(r2[0] == rs[2]);
                if acts.contains(SignupAction::Finish(Ok(id))) {
                    let i = choose|i: int| 0 <= i < acts.len() && acts[i] == SignupAction::Finish(Ok(id));
                    assert(i >= 3);
                    assert(acts3[i - 3] == acts[i]);
                    lemma_signup_late_finish(s3, r3, id);
                }
                assert forall|n: String, p: String, e: String|
                    #[trigger] acts.contains(SignupAction::SignUp { name: n, password: p, email: e })
                    implies rs.len() >= 2 && rs[0] == Reply::Email(Some(e)) && n == name && p == password by {
                    let i = choose|i: int| 0 <= i < acts.len() && acts[i] == SignupAction::SignUp { name: n, password: p, email: e };
                    if i >= 3 {
                        assert(acts3[i - 3] == acts[i]);
                        lemma_signup_late_no_signup(s3, r3, n, p, e);
                    }
                }
            }
        }
    }
}

proof fn lemma_signup_late_no_signup(s: SignupByTokenFlow, rs: Seq<Reply>, n: String, p: String, e: String)
    requires
        signup_late_stage(s.stage),
    ensures
        !signup_run(s, rs).1.contains(SignupAction::SignUp { name: n, password: p, email: e }),
    decreases rs.len(),
{
    let acts = signup_run(s, rs).1;
    if rs.len() == 0 || !signup_accepts(s.stage, rs[0]) {
        assert(acts.len() == 0);
    } else {
        let (t, a) = signup_step(s, rs[0]);
        let rest = signup_run(t, rs.drop_first()).1;
        assert(acts == seq![a] + rest);
        lemma_signup_late_no_signup(t, rs.drop_first(), n, p, e);
        if acts.contains(SignupAction::SignUp { name: n, password: p, email: e }) {
            let i = choose|i: int| 0 <= i < acts.len() && acts[i] == SignupAction::SignUp { name: n, password: p, email: e };
            assert(i > 0);
            assert(rest[i - 1] == acts[i]);
        }
    }
}

/// Signing up with a known token, when every step succeeds: the
/// transaction begins, creates the user for the token's address, marks the
/// token used, copies the profile stored with the token, grants the user
/// the lawyer title and records the address as its holder, commits, and
/// answers the new user's id.
pub proof fn law_signup_complete_run(name: String, password: String, token: String, email: String, id: i64)
    ensures
        ({
            let (end, actions) = signup_run(
                signup_started(name, password, token),
                seq![Reply::Email(Some(email)), Reply::Done, Reply::UserId(id), Reply::Done, Reply::Done, Reply::Done, Reply::Done, Reply::Done],
            );
            &&& end.stage == SignupStage::Finished
            &&& actions == seq![
                SignupAction::BeginTransaction,
                SignupAction::SignUp { name, password, email },
                SignupAction::MarkTokenUsed(token),
                SignupAction::CopyProfile { token, name },
                SignupAction::GrantTitle { user_id: id, title: lawyer_title() },
                SignupAction::RecordTitleHolder { title: lawyer_title(), unique_id: email },
                SignupAction::Commit,
                SignupAction::Finish(Ok(id)),
            ]
        }),
{
    let s0 = signup_started(name, password, token);
    let r0 = seq![Reply::Email(Some(email)), Reply::Done, Reply::UserId(id), Reply::Done, Reply::Done, Reply::Done, Reply::Done, Reply::Done];
    let r1 = r0.drop_first();
    let r2 = r1.drop_first();
    let r3 = r2.drop_first();
    let r4 = r3.drop_first();
    let r5 = r4.drop_first();
    let r6 = r5.drop_first();
    let r7 = r6.drop_first();
    let r8 = r7.drop_first();
    assert(r1 =~= seq![Reply::Done, Reply::UserId(id), Reply::Done, Reply::Done, Reply::Done, Reply::Done, Reply::Done]);
    assert(r2 =~= seq![Reply::UserId(id), Reply::Done, Reply::Done, Reply::Done, Reply::Done, Reply::Done]);
    assert(r3 =~= seq![Reply::Done, Reply::Done, Reply::Done, Reply::Done, Reply::Done]);
    assert(r4 =~= seq![Reply::Done, Reply::Done, Reply::Done, Reply::Done]);
    assert(r5 =~= seq![Reply::Done, Reply::Done, Reply::Done]);
    assert(r6 =~= seq![Reply::Done, Reply::Done]);
    assert(r7 =~= seq![Reply::Done]);
    assert(r8.len() == 0);
    let s1 = signup_step(s0, r0[0]).0;
    let s2 = signup_step(s1, r1[0]).0;
    let s3 = signup_step(s2, r2[0]).0;
    let s4 = signup_step(s3, r3[0]).0;
    let s5 = signup_step(s4, r4[0]).0;
    let s6 = signup_step(s5, r5[0]).0;
    let s7 = signup_step(s6, r6[0]).0;
    let s8 = signup_step(s7, r7[0]).0;
    assert(signup_run(s8, r8).1 =~= Seq::<SignupAction>::empty());
    assert(signup_run(s7, r7).1 =~= seq![SignupAction::Finish(Ok(id))]);
    assert(signup_run(s6, r6).1 =~= seq![SignupAction::Commit, SignupAction::Finish(Ok(id))]);
    assert(signup_run(s5, r5).1 =~= seq![SignupAction::RecordTitleHolder { title: lawyer_title(), unique_id: email }, SignupAction::Commit, SignupAction::Finish(Ok(id))]);
    assert(signup_run(s4, r4).1 =~= seq![SignupAction::GrantTitle { user_id: id, title: lawyer_title() }, SignupAction::RecordTitleHolder { title: lawyer_title(), unique_id: email }, SignupAction::Commit, SignupAction::Finish(Ok(id))]);
    assert(signup_run(s3, r3).1 =~= seq![SignupAction::CopyProfile { token, name }, SignupAction::GrantTitle { user_id: id, title: lawyer_title() }, SignupAction::RecordTitleHolder { title: lawyer_title(), unique_id: email }, SignupAction::Commit, SignupAction::Finish(Ok(id))]);
    assert(signup_run(s2, r2).1 =~= seq![SignupAction::MarkTokenUsed(token), SignupAction::CopyProfile { token, name }, SignupAction::GrantTitle { user_id: id, title: lawyer_title() }, SignupAction::RecordTitleHolder { title: lawyer_title(), unique_id: email }, SignupAction::Commit, SignupAction::Finish(Ok(id))]);
    assert(signup_run(s1, r1).1 =~= seq![SignupAction::SignUp { name, password, email }, SignupAction::MarkTokenUsed(token), SignupAction::CopyProfile { token, name }, SignupAction::GrantTitle { user_id: id, title: lawyer_title() }, SignupAction::RecordTitleHolder { title: lawyer_title(), unique_id: email }, SignupAction::Commit, SignupAction::Finish(Ok(id))]);
}

/// Mailing a password reset to the address of a user, when every step
/// succeeds: a token is generated, stored for the user, mailed to the
/// address, committed, and the reset succeeds.
pub proof fn law_reset_complete_run(email: String, users: usize, token: String)
    requires
        users > 0,
    ensures
        ({
            let (end, actions) = reset_run(reset_started(email), seq![Reply::RowCount(users), Reply::Token(token), Reply::Done, Reply::Done, Reply::Done]);
            &&& end.stage == ResetStage::Finished
            &&& actions == seq![
                ResetAction::GenerateToken,
                ResetAction::InsertResetToken { email, token },
                ResetAction::SendResetEmail { token, email },
                ResetAction::Commit,
                ResetAction::Finish(Ok(())),
            ]
        }),
{
    let s0 = reset_started(email);
    let r0 = seq![Reply::RowCount(users), Reply::Token(token), Reply::Done, Reply::Done, Reply::Done];
    let r1 = r0.drop_first();
    let r2 = r1.drop_first();
    let r3 = r2.drop_first();
    let r4 = r3.drop_first();
    let r5 = r4.drop_first();
    assert(r1 =~= seq![Reply::Token(token), Reply::Done, Reply::Done, Reply::Done]);
    assert(r2 =~= seq![Reply::Done, Reply::Done, Reply::Done]);
    assert(r3 =~= seq![Reply::Done, Reply::Done]);
    assert(r4 =~= seq![Reply::Done]);
    assert(r5.len() == 0);
    let s1 = reset_step(s0, r0[0]).0;
    let s2 = reset_step(s1, r1[0]).0;
    let s3 = reset_step(s2, r2[0]).0;
    let s4 = reset_step(s3, r3[0]).0;
    let s5 = reset_step(s4, r4[0]).0;
    assert(reset_run(s5, r5).1 =~= Seq::<ResetAction>::empty());
    assert(reset_run(s4, r4).1 =~= seq![ResetAction::Finish(Ok(()))]);
    assert(reset_run(s3, r3).1 =~= seq![ResetAction::Commit, ResetAction::Finish(Ok(()))]);
    assert(reset_run(s2, r2).1 =~= seq![ResetAction::SendResetEmail { token, email }, ResetAction::Commit, ResetAction::Finish(Ok(()))]);
    assert(reset_run(s1, r1).1 =~= seq![ResetAction::InsertResetToken { email, token }, ResetAction::SendResetEmail { token, email }, ResetAction::Commit, ResetAction::Finish(Ok(()))]);
}

} // verus!
