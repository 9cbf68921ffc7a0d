//! Direct (one-to-one) chats: how a chat row is shown to one of its members,
//! and the transaction that opens a chat with a first message.

use vstd::prelude::*;

verus! {

/// Who sent a message, as seen by the reader.
#[derive(Debug, Clone, Copy, PartialEq, Eq)]
pub enum Sender {
    Myself,
    Opposite,
}

/// A chat message as shown to a reader; `T` is the type of timestamps.
#[derive(Debug, Clone, PartialEq, Eq)]
pub struct Message<T> {
    pub id: i64,
    pub text: String,
    pub sender: Sender,
    pub time: T,
}

/// A direct chat as shown to one of its members.
#[derive(Debug, Clone, PartialEq, Eq)]
pub struct Direct<T> {
    pub channel_id: i64,
    pub opposite_id: i64,
    pub name: String,
    pub read_time: T,
    pub last_msg: Message<T>,
}

/// A chat channel as shown to a reader.
#[derive(Debug, Clone, PartialEq, Eq)]
pub enum Channel<T> {
    Direct(Direct<T>),
}

/// A direct chat joined with its two members' names and its last message.
#[derive(Debug, Clone, PartialEq, Eq)]
pub struct DirectChatRow<T> {
    pub id: i64,
    pub name_1: String,
    pub name_2: String,
    pub user_id_1: i64,
    pub user_id_2: i64,
    pub read_time_1: T,
    pub read_time_2: T,
    pub sender_id: i64,
    pub time: T,
    pub text: String,
    pub msg_id: i64,
}

/// The chat `row` as its member `user_id` sees it: the other member is the
/// opposite, the read time is the viewer's own, and the last message is the
/// viewer's own when the viewer sent it. A viewer that is not the first
/// member is taken for the second.
pub open spec fn seen_by<T>(row: DirectChatRow<T>, user_id: i64) -> Channel<T> {
    let (opposite_id, name, read_time) = if row.user_id_1 == user_id {
        (row.user_id_2, row.name_2, row.read_time_1)
    } else {
        (row.user_id_1, row.name_1, row.read_time_2)
    };
    Channel::Direct(
        Direct {
            channel_id: row.id,
            opposite_id,
            name,
            read_time,
            last_msg: Message {
                id: row.msg_id,
                text: row.text,
                sender: if row.sender_id == user_id { Sender::Myself } else { Sender::Opposite },
                time: row.time,
            },
        },
    )
}

/// Shows the direct chat `row` to its member `user_id`.
pub fn direct_channel<T>(row: DirectChatRow<T>, user_id: i64) -> (r: Channel<T>)
    ensures
        r == seen_by(row, user_id),
        r matches Channel::Direct(d) && {
            &&& d.channel_id == row.id
            &&& d.last_msg.id == row.msg_id
            &&& d.last_msg.text == row.text
            &&& d.last_msg.time == row.time
            &&& (d.last_msg.sender == Sender::Myself <==> row.sender_id == user_id)
            &&& row.user_id_1 == user_id ==> d.opposite_id == row.user_id_2 && d.name == row.name_2
                && d.read_time == row.read_time_1
            &&& row.user_id_1 != user_id ==> d.opposite_id == row.user_id_1 && d.name == row.name_1
                && d.read_time == row.read_time_2
        },
{
    let DirectChatRow {
        id,
        name_1,
        name_2,
        user_id_1,
        user_id_2,
        read_time_1,
        read_time_2,
        sender_id,
        time,
        text,
        msg_id,
    } = row;
    let (opposite_id, name, read_time) = if user_id_1 == user_id {
        (user_id_2, name_2, read_time_1)
    } else {
        (user_id_1, name_1, read_time_2)
    };
    let sender = if sender_id == user_id { Sender::Myself } else { Sender::Opposite };
    Channel::Direct(
        Direct {
            channel_id: id,
            opposite_id,
            name,
            read_time,
            last_msg: Message { id: msg_id, text, sender, time },
        },
    )
}

/// Each member of a chat between two different users sees the other member
/// as the opposite, under the other's name, with the own read time; the last
/// message is "mine" for exactly the member that sent it.
pub proof fn law_members_see_each_other<T>(row: DirectChatRow<T>)
    requires
        row.user_id_1 != row.user_id_2,
    ensures
        seen_by(row, row.user_id_1) matches Channel::Direct(d1) && {
            &&& d1.opposite_id == row.user_id_2
            &&& d1.name == row.name_2
            &&& d1.read_time == row.read_time_1
            &&& (d1.last_msg.sender == Sender::Myself <==> row.sender_id == row.user_id_1)
        },
        seen_by(row, row.user_id_2) matches Channel::Direct(d2) && {
            &&& d2.opposite_id == row.user_id_1
            &&& d2.name == row.name_1
            &&& d2.read_time == row.read_time_2
            &&& (d2.last_msg.sender == Sender::Myself <==> row.sender_id == row.user_id_2)
        },
{
}

/// The key under which the chat between `a` and `b` is stored: the smaller
/// user id first.
pub open spec fn direct_pair(a: i64, b: i64) -> (i64, i64) {
    if a < b { (a, b) } else { (b, a) }
}

/// The chat between two users is stored under one key, whichever of them
/// opens it, and that key lists the smaller id first.
pub proof fn law_direct_pair_symmetric(a: i64, b: i64)
    ensures
        direct_pair(a, b) == direct_pair(b, a),
        direct_pair(a, b).0 <= direct_pair(a, b).1,
        (direct_pair(a, b).0 == a && direct_pair(a, b).1 == b) || (direct_pair(a, b).0 == b && direct_pair(a, b).1
            == a),
{
}

/// Where the transaction that opens a direct chat stands.
#[derive(Debug, Clone, Copy, PartialEq, Eq)]
pub enum OpenStage {
    /// Waiting for the lookup of an existing chat.
    Finding,
    /// Waiting for the id of the newly created chat.
    Creating,
    /// Waiting for the first message to be stored in the chat.
    Sending(i64),
    /// Waiting for the sender's read time to be set.
    MarkingRead(i64),
    /// Waiting for the commit.
    Committing(i64),
    /// Finished with the chat's id.
    Done(i64),
}

/// The work the opening transaction asks for next.
#[derive(Debug, Clone, PartialEq, Eq)]
pub enum OpenAction {
    /// Look up the chat stored under the pair of user ids.
    FindChat { user_id_1: i64, user_id_2: i64 },
    /// Create the chat under the pair of user ids.
    CreateChat { user_id_1: i64, user_id_2: i64 },
    /// Store a message in the chat.
    SendMessage { chat_id: i64, sender_id: i64, text: String },
    /// Set the user's read time of the chat to now.
    MarkRead { chat_id: i64, user_id: i64 },
    /// Commit the transaction.
    Commit,
    /// The transaction is over; the chat's id is the answer.
    Finish(i64),
}

/// What came of the work last asked for.
#[derive(Debug, Clone, Copy, PartialEq, Eq)]
pub enum OpenEvent {
    Found(Option<i64>),
    Created(i64),
    MessageSent,
    MarkedRead,
    Committed,
}

/// The transaction that opens the direct chat of `user_id` with
/// `opposite_id` (creating it when there is none) and posts `msg` in it.
#[derive(Debug, Clone, PartialEq, Eq)]
pub struct OpenDirectChat {
    pub user_id: i64,
    pub opposite_id: i64,
    pub msg: String,
    pub stage: OpenStage,
}

/// The event that the transaction waits for in its stage.
pub open spec fn open_accepts(stage: OpenStage, e: OpenEvent) -> bool {
    match stage {
        OpenStage::Finding => e is Found,
        OpenStage::Creating => e is Created,
        OpenStage::Sending(_) => e is MessageSent,
        OpenStage::MarkingRead(_) => e is MarkedRead,
        OpenStage::Committing(_) => e is Committed,
        OpenStage::Done(_) => false,
    }
}

/// The next stage and action of the opening transaction `s` on the event `e`.
pub open spec fn open_step(s: OpenDirectChat, e: OpenEvent) -> (OpenDirectChat, OpenAction) {
    let pair = direct_pair(s.user_id, s.opposite_id);
    let at = |stage: OpenStage| OpenDirectChat { stage, ..s };
    match (s.stage, e) {
        (OpenStage::Finding, OpenEvent::Found(Some(id))) => (
            at(OpenStage::Sending(id)),
            OpenAction::SendMessage { chat_id: id, sender_id: s.user_id, text: s.msg },
        ),
        (OpenStage::Finding, OpenEvent::Found(None)) => (
            at(OpenStage::Creating),
            OpenAction::CreateChat { user_id_1: pair.0, user_id_2: pair.1 },
        ),
        (OpenStage::Creating, OpenEvent::Created(id)) => (
            at(OpenStage::Sending(id)),
            OpenAction::SendMessage { chat_id: id, sender_id: s.user_id, text: s.msg },
        ),
        (OpenStage::Sending(id), OpenEvent::MessageSent) => (
            at(OpenStage::MarkingRead(id)),
            OpenAction::MarkRead { chat_id: id, user_id: s.user_id },
        ),
        (OpenStage::MarkingRead(id), OpenEvent::MarkedRead) => (
            at(OpenStage::Committing(id)),
            OpenAction::Commit,
        ),
        (OpenStage::Committing(id), OpenEvent::Committed) => (
            at(OpenStage::Done(id)),
            OpenAction::Finish(id),
        ),
        _ => (s, OpenAction::Commit),
    }
}

/// Runs the transaction `s` on the events `evs`, collecting the actions it
/// asks for; the run stops at the first event that is not waited for.
pub open spec fn open_run(s: OpenDirectChat, evs: Seq<OpenEvent>) -> (OpenDirectChat, Seq<OpenAction>)
    decreases evs.len(),
{
    if evs.len() == 0 || !open_accepts(s.stage, evs[0]) {
        (s, Seq::empty())
    } else {
        let (t, a) = open_step(s, evs[0]);
        let (u, rest) = open_run(t, evs.drop_first());
        (u, seq![a] + rest)
    }
}

impl OpenDirectChat {
    /// The state right after the transaction began.
    pub open spec fn started(user_id: i64, opposite_id: i64, msg: String) -> OpenDirectChat {
        OpenDirectChat { user_id, opposite_id, msg, stage: OpenStage::Finding }
    }

    /// Begins the transaction: the chat is looked up under the ordered pair
    /// of the two user ids.
    pub fn begin(user_id: i64, opposite_id: i64, msg: String) -> (r: (OpenDirectChat, OpenAction))
        ensures
            r.0 == Self::started(user_id, opposite_id, msg),
            r.1 == (OpenAction::FindChat {
                user_id_1: direct_pair(user_id, opposite_id).0,
                user_id_2: direct_pair(user_id, opposite_id).1,
            }),
            r.1 matches OpenAction::FindChat { user_id_1: x, user_id_2: y } && x <= y && (
            (x == user_id && y == opposite_id) || (x == opposite_id && y == user_id)),
    {
        let user_id_1 = if user_id < opposite_id { user_id } else { opposite_id };
        let user_id_2 = if user_id < opposite_id { opposite_id } else { user_id };
        (
            OpenDirectChat { user_id, opposite_id, msg, stage: OpenStage::Finding },
            OpenAction::FindChat { user_id_1, user_id_2 },
        )
    }

    /// Whether the transaction waits for the event `e`.
    pub fn accepts(&self, e: &OpenEvent) -> (r: bool)
        ensures
            r == open_accepts(self.stage, *e),
    {
        match (self.stage, e) {
            (OpenStage::Finding, OpenEvent::Found(_)) => true,
            (OpenStage::Creating, OpenEvent::Created(_)) => true,
            (OpenStage::Sending(_), OpenEvent::MessageSent) => true,
            (OpenStage::MarkingRead(_), OpenEvent::MarkedRead) => true,
            (OpenStage::Committing(_), OpenEvent::Committed) => true,
            _ => false,
        }
    }

    /// Advances the transaction on the event it waits for: an existing chat
    /// is used, a missing one is created under the ordered pair; then the
    /// message is stored, the sender's read time set, the transaction
    /// committed, and the chat's id returned.
    pub fn step(self, e: OpenEvent) -> (r: (OpenDirectChat, OpenAction))
        requires
            open_accepts(self.stage, e),
        ensures
            r == open_step(self, e),
            self.stage == OpenStage::Finding && e == OpenEvent::Found(None) ==> (r.1 matches OpenAction::CreateChat {
                user_id_1: x,
                user_id_2: y,
            } && x <= y && ((x == self.user_id && y == self.opposite_id) || (x == self.opposite_id && y
                == self.user_id))),
    {
        let OpenDirectChat { user_id, opposite_id, msg, stage } = self;
        match (stage, e) {
            (OpenStage::Finding, OpenEvent::Found(Some(id))) => {
                let text = msg.clone();
                (
                    OpenDirectChat { user_id, opposite_id, msg, stage: OpenStage::Sending(id) },
                    OpenAction::SendMessage { chat_id: id, sender_id: user_id, text },
                )
            },
            (OpenStage::Finding, _) => {
                let user_id_1 = if user_id < opposite_id { user_id } else { opposite_id };
                let user_id_2 = if user_id < opposite_id { opposite_id } else { user_id };
                (
                    OpenDirectChat { user_id, opposite_id, msg, stage: OpenStage::Creating },
                    OpenAction::CreateChat { user_id_1, user_id_2 },
                )
            },
            (OpenStage::Creating, OpenEvent::Created(id)) => {
                let text = msg.clone();
                (
                    OpenDirectChat { user_id, opposite_id, msg, stage: OpenStage::Sending(id) },
                    OpenAction::SendMessage { chat_id: id, sender_id: user_id, text },
                )
            },
            (OpenStage::Sending(id), _) => (
                OpenDirectChat { user_id, opposite_id, msg, stage: OpenStage::MarkingRead(id) },
                OpenAction::MarkRead { chat_id: id, user_id },
            ),
            (OpenStage::MarkingRead(id), _) => (
                OpenDirectChat { user_id, opposite_id, msg, stage: OpenStage::Committing(id) },
                OpenAction::Commit,
            ),
            (OpenStage::Committing(id), _) => (
                OpenDirectChat { user_id, opposite_id, msg, stage: OpenStage::Done(id) },
                OpenAction::Finish(id),
            ),
            (stage, _) => (OpenDirectChat { user_id, opposite_id, msg, stage }, OpenAction::Commit),
        }
    }
}

/// When a chat between the two users exists, opening it posts the message
/// there, marks it read for the sender, commits and answers its id, without
/// creating any chat.
pub proof fn law_open_existing_chat(user_id: i64, opposite_id: i64, msg: String, chat_id: i64)
    ensures
        ({
            let (end, actions) = open_run(
                OpenDirectChat::started(user_id, opposite_id, msg),
                seq![OpenEvent::Found(Some(chat_id)), OpenEvent::MessageSent, OpenEvent::MarkedRead, OpenEvent::Committed],
            );
            &&& end.stage == OpenStage::Done(chat_id)
            &&& actions == seq![
                OpenAction::SendMessage { chat_id, sender_id: user_id, text: msg },
                OpenAction::MarkRead { chat_id, user_id },
                OpenAction::Commit,
                OpenAction::Finish(chat_id),
            ]
        }),
{
    let s0 = OpenDirectChat::started(user_id, opposite_id, msg);
    let e0 = seq![OpenEvent::Found(Some(chat_id)), OpenEvent::MessageSent, OpenEvent::MarkedRead, OpenEvent::Committed];
    let e1 = e0.drop_first();
    let e2 = e1.drop_first();
    let e3 = e2.drop_first();
    let e4 = e3.drop_first();
    assert(e1 =~= seq![OpenEvent::MessageSent, OpenEvent::MarkedRead, OpenEvent::Committed]);
    assert(e2 =~= seq![OpenEvent::MarkedRead, OpenEvent::Committed]);
    assert(e3 =~= seq![OpenEvent::Committed]);
    assert(e4.len() == 0);
    let s1 = open_step(s0, e0[0]).0;
    let s2 = open_step(s1, e1[0]).0;
    let s3 = open_step(s2, e2[0]).0;
    let s4 = open_step(s3, e3[0]).0;
    assert(open_run(s4, e4).1 =~= Seq::<OpenAction>::empty());
    assert(open_run(s3, e3).1 =~= seq![OpenAction::Finish(chat_id)]);
    assert(open_run(s2, e2).1 =~= seq![OpenAction::Commit, OpenAction::Finish(chat_id)]);
    assert(open_run(s1, e1).1 =~= seq![
        OpenAction::MarkRead { chat_id, user_id },
        OpenAction::Commit,
        OpenAction::Finish(chat_id),
    ]);
}

/// When no chat between the two users exists, opening it creates exactly
/// one, under the ordered pair of their ids, posts the message in the new
/// chat, marks it read for the sender, commits and answers the new id.
pub proof fn law_open_new_chat(user_id: i64, opposite_id: i64, msg: String, chat_id: i64)
    ensures
        ({
            let (end, actions) = open_run(
                OpenDirectChat::started(user_id, opposite_id, msg),
                seq![
                    OpenEvent::Found(None),
                    OpenEvent::Created(chat_id),
                    OpenEvent::MessageSent,
                    OpenEvent::MarkedRead,
                    OpenEvent::Committed,
                ],
            );
            &&& end.stage == OpenStage::Done(chat_id)
            &&& actions == seq![
                OpenAction::CreateChat {
                    user_id_1: direct_pair(user_id, opposite_id).0,
                    user_id_2: direct_pair(user_id, opposite_id).1,
                },
                OpenAction::SendMessage { chat_id, sender_id: user_id, text: msg },
                OpenAction::MarkRead { chat_id, user_id },
                OpenAction::Commit,
                OpenAction::Finish(chat_id),
            ]
        }),
{
    let s0 = OpenDirectChat::started(user_id, opposite_id, msg);
    let e0 = seq![
        OpenEvent::Found(None),
        OpenEvent::Created(chat_id),
        OpenEvent::MessageSent,
        OpenEvent::MarkedRead,
        OpenEvent::Committed,
    ];
    let e1 = e0.drop_first();
    let e2 = e1.drop_first();
    let e3 = e2.drop_first();
    let e4 = e3.drop_first();
    let e5 = e4.drop_first();
    assert(e1 =~= seq![OpenEvent::Created(chat_id), OpenEvent::MessageSent, OpenEvent::MarkedRead, OpenEvent::Committed]);
    assert(e2 =~= seq![OpenEvent::MessageSent, OpenEvent::MarkedRead, OpenEvent::Committed]);
    assert(e3 =~= seq![OpenEvent::MarkedRead, OpenEvent::Committed]);
    assert(e4 =~= seq![OpenEvent::Committed]);
    assert(e5.len() == 0);
    let s1 = open_step(s0, e0[0]).0;
    let s2 = open_step(s1, e1[0]).0;
    let s3 = open_step(s2, e2[0]).0;
    let s4 = open_step(s3, e3[0]).0;
    let s5 = open_step(s4, e4[0]).0;
    assert(open_run(s5, e5).1 =~= Seq::<OpenAction>::empty());
    assert(open_run(s4, e4).1 =~= seq![OpenAction::Finish(chat_id)]);
    assert(open_run(s3, e3).1 =~= seq![OpenAction::Commit, OpenAction::Finish(chat_id)]);
    assert(open_run(s2, e2).1 =~= seq![
        OpenAction::MarkRead { chat_id, user_id },
        OpenAction::Commit,
        OpenAction::Finish(chat_id),
    ]);
    assert(open_run(s1, e1).1 =~= seq![
        OpenAction::SendMessage { chat_id, sender_id: user_id, text: msg },
        OpenAction::MarkRead { chat_id, user_id },
        OpenAction::Commit,
        OpenAction::Finish(chat_id),
    ]);
}

/// The chat id a stage past the lookup (and creation) is bound to.
pub open spec fn bound_chat(stage: OpenStage) -> Option<i64> {
    match stage {
        OpenStage::Sending(id) => Some(id),
        OpenStage::MarkingRead(id) => Some(id),
        OpenStage::Committing(id) => Some(id),
        OpenStage::Done(id) => Some(id),
        _ => None,
    }
}

proof fn lemma_open_bound_run(s: OpenDirectChat, evs: Seq<OpenEvent>, c: i64)
    requires
        bound_chat(s.stage) is Some,
    ensures
        open_run(s, evs).1.contains(OpenAction::Finish(c)) ==> bound_chat(s.stage) == Some(c),
        forall|u1: i64, u2: i64| !#[trigger] open_run(s, evs).1.contains(
            OpenAction::CreateChat { user_id_1: u1, user_id_2: u2 },
        ),
    decreases evs.len(),
{
    let acts = open_run(s, evs).1;
    if evs.len() == 0 || !open_accepts(s.stage, evs[0]) {
        assert(acts.len() == 0);
    } else {
        let (t, a) = open_step(s, evs[0]);
        let rest = open_run(t, evs.drop_first()).1;
        assert(acts == seq![a] + rest);
        lemma_open_bound_run(t, evs.drop_first(), c);
        if acts.contains(OpenAction::Finish(c)) {
            let i = choose|i: int| 0 <= i < acts.len() && acts[i] == OpenAction::Finish(c);
            if i > 0 {
                assert(rest[i - 1] == acts[i]);
            }
        }
        assert forall|u1: i64, u2: i64| !#[trigger] acts.contains(
            OpenAction::CreateChat { user_id_1: u1, user_id_2: u2 },
        ) by {
            if acts.contains(OpenAction::CreateChat { user_id_1: u1, user_id_2: u2 }) {
                let i = choose|i: int| 0 <= i < acts.len() && acts[i] == OpenAction::CreateChat { user_id_1: u1, user_id_2: u2 };
                assert(i > 0);
                assert(rest[i - 1] == acts[i]);
                assert(rest.contains(OpenAction::CreateChat { user_id_1: u1, user_id_2: u2 }));
            }
        }
    }
}

/// Whatever the replies, the opening transaction creates a chat only when
/// the lookup found none, and then under the ordered pair of the two ids;
/// and when it answers a chat id, that is the chat the lookup found, or,
/// when it found none, the chat just created.
pub proof fn law_open_direct_chat(user_id: i64, opposite_id: i64, msg: String, evs: Seq<OpenEvent>, c: i64)
    ensures
        forall|u1: i64, u2: i64|
            #[trigger] open_run(OpenDirectChat::started(user_id, opposite_id, msg), evs).1.contains(
                OpenAction::CreateChat { user_id_1: u1, user_id_2: u2 },
            ) ==> evs[0] == OpenEvent::Found(None) && (u1, u2) == direct_pair(user_id, opposite_id),
        open_run(OpenDirectChat::started(user_id, opposite_id, msg), evs).1.contains(OpenAction::Finish(c)) ==> {
            ||| evs[0] == OpenEvent::Found(Some(c))
            ||| evs[0] == OpenEvent::Found(None) && evs.len() >= 2 && evs[1] == OpenEvent::Created(c)
        },
{
    let s0 = OpenDirectChat::started(user_id, opposite_id, msg);
    let acts = open_run(s0, evs).1;
    if evs.len() == 0 || !open_accepts(s0.stage, evs[0]) {
        assert(acts.len() == 0);
    } else {
        let (s1, a0) = open_step(s0, evs[0]);
        let e1 = evs.drop_first();
        let acts1 = open_run(s1, e1).1;
        assert(acts == seq![a0] + acts1);
        if evs[0] == OpenEvent::Found(None) {
            // The lookup found nothing: the first action creates the chat.
            if e1.len() == 0 || !open_accepts(s1.stage, e1[0]) {
                assert(acts1.len() == 0);
            } else {
                let (s2, a1) = open_step(s1, e1[0]);
                let acts2 = open_run(s2, e1.drop_first()).1;
                assert(acts1 == seq![a1] + acts2);
                lemma_open_bound_run(s2, e1.drop_first(), c);
                assert(e1[0] == evs[1]);
                if acts.contains(OpenAction::Finish(c)) {
                    let i = choose|i: int| 0 <= i < acts.len() && acts[i] == OpenAction::Finish(c);
                    assert(i >= 2);
                    assert(acts2[i - 2] == acts[i]);
                }
                assert forall|u1: i64, u2: i64|
                    #[trigger] acts.contains(OpenAction::CreateChat { user_id_1: u1, user_id_2: u2 })
                    implies evs[0] == OpenEvent::Found(None) && (u1, u2) == direct_pair(user_id, opposite_id) by {
                    let i = choose|i: int| 0 <= i < acts.len() && acts[i] == OpenAction::CreateChat { user_id_1: u1, user_id_2: u2 };
                    if i >= 2 {
                        assert(acts2[i - 2] == acts[i]);
                        assert(acts2.contains(OpenAction::CreateChat { user_id_1: u1, user_id_2: u2 }));
                    } else if i == 1 {
                        assert(acts[1] == a1);
                    } else {
                        assert(acts[0] == a0);
                    }
                }
            }
        } else {
            lemma_open_bound_run(s1, e1, c);
            if acts.contains(OpenAction::Finish(c)) {
                let i = choose|i: int| 0 <= i < acts.len() && acts[i] == OpenAction::Finish(c);
                assert(i >= 1);
                assert(acts1[i - 1] == acts[i]);
            }
            assert forall|u1: i64, u2: i64|
                #[trigger] acts.contains(OpenAction::CreateChat { user_id_1: u1, user_id_2: u2 })
                implies evs[0] == OpenEvent::Found(None) && (u1, u2) == direct_pair(user_id, opposite_id) by {
                let i = choose|i: int| 0 <= i < acts.len() && acts[i] == OpenAction::CreateChat { user_id_1: u1, user_id_2: u2 };
                if i >= 1 {
                    assert(acts1[i - 1] == acts[i]);
                    assert(acts1.contains(OpenAction::CreateChat { user_id_1: u1, user_id_2: u2 }));
                } else {
                    assert(acts[0] == a0);
                }
            }
        }
    }
}

/// Whoever views a chat and whoever sent its last message, the chat shown
/// is the row's chat (its id), and the last message shown is the row's
/// message: same id, text and time.
pub proof fn law_channel_shows_the_row<T>(row: DirectChatRow<T>, user_id: i64)
    ensures
        seen_by(row, user_id) matches Channel::Direct(d) && {
            &&& d.channel_id == row.id
            &&& d.last_msg.id == row.msg_id
            &&& d.last_msg.text == row.text
            &&& d.last_msg.time == row.time
        },
{
}

/// The key of the chat between `a` and `b` holds exactly the two ids, the
/// smaller first; opening the chat looks it up under that key, and creates
/// it under that key when it is missing.
pub proof fn law_direct_pair_holds_both_ids(a: i64, b: i64, msg: String)
    ensures
        direct_pair(a, b).0 <= direct_pair(a, b).1,
        (direct_pair(a, b).0 == a && direct_pair(a, b).1 == b) || (direct_pair(a, b).0 == b && direct_pair(a, b).1
            == a),
        open_step(OpenDirectChat::started(a, b, msg), OpenEvent::Found(None)).1 matches OpenAction::CreateChat {
            user_id_1: x,
            user_id_2: y,
        } && x <= y && ((x == a && y == b) || (x == b && y == a)),
{
}

} // verus!
