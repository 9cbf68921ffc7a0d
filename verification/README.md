# carbonbond

The server of the carbonbond forum. The library (`src/`) holds the
service's rules, verified with Verus; the program (`app/`) runs the
database queries, HTTP requests and mails that the library asks for.

- `error`: the error type of the API.
- `account`: password length and self-introduction rules, and password
  checking against a stored argon2 hash (login).
- `signup`: the transactions that issue a sign-up token, mail a password
  reset and sign a user up with a token, as state machines: each names the
  next piece of work and is advanced with its reply.
- `chat`: how a direct chat is shown to a member, and the transaction that
  opens a direct chat with a first message.
- `lawyerbc`: the lawyer registry's URLs and the reading of its answers.
- `routing`: which handler answers an HTTP request.
- `forum`: the article templates of a new board.
- `password_hash`: the contract of `argon2::verify_raw` that the account
  rules rest on.

The laws that span several steps of a transaction are proof functions named
`law_*` beside the state machine they speak of.
