use carbonbond::chat::{
    direct_channel, Channel, Direct, DirectChatRow, Message, OpenAction, OpenDirectChat, OpenEvent, Sender,
};

fn row() -> DirectChatRow<i64> {
    DirectChatRow {
        id: 9,
        name_1: "alice".to_string(),
        name_2: "bob".to_string(),
        user_id_1: 1,
        user_id_2: 2,
        read_time_1: 100,
        read_time_2: 200,
        sender_id: 2,
        time: 300,
        text: "hi".to_string(),
        msg_id: 42,
    }
}

#[test]
fn first_member_sees_the_second() {
    assert_eq!(
        direct_channel(row(), 1),
        Channel::Direct(Direct {
            channel_id: 9,
            opposite_id: 2,
            name: "bob".to_string(),
            read_time: 100,
            last_msg: Message { id: 42, text: "hi".to_string(), sender: Sender::Opposite, time: 300 },
        })
    );
}

#[test]
fn second_member_sees_the_first() {
    assert_eq!(
        direct_channel(row(), 2),
        Channel::Direct(Direct {
            channel_id: 9,
            opposite_id: 1,
            name: "alice".to_string(),
            read_time: 200,
            last_msg: Message { id: 42, text: "hi".to_string(), sender: Sender::Myself, time: 300 },
        })
    );
}

fn run(user: i64, opposite: i64, events: Vec<OpenEvent>) -> Vec<OpenAction> {
    let (mut flow, first) = OpenDirectChat::begin(user, opposite, "hello".to_string());
    let mut actions = vec![first];
    for e in events {
        assert!(flow.accepts(&e));
        let (next, a) = flow.step(e);
        flow = next;
        actions.push(a);
    }
    actions
}

#[test]
fn opening_an_existing_chat_posts_there() {
    let actions = run(5, 3, vec![
        OpenEvent::Found(Some(11)),
        OpenEvent::MessageSent,
        OpenEvent::MarkedRead,
        OpenEvent::Committed,
    ]);
    assert_eq!(actions, vec![
        OpenAction::FindChat { user_id_1: 3, user_id_2: 5 },
        OpenAction::SendMessage { chat_id: 11, sender_id: 5, text: "hello".to_string() },
        OpenAction::MarkRead { chat_id: 11, user_id: 5 },
        OpenAction::Commit,
        OpenAction::Finish(11),
    ]);
}

#[test]
fn opening_a_missing_chat_creates_it() {
    let actions = run(3, 5, vec![
        OpenEvent::Found(None),
        OpenEvent::Created(12),
        OpenEvent::MessageSent,
        OpenEvent::MarkedRead,
        OpenEvent::Committed,
    ]);
    assert_eq!(actions, vec![
        OpenAction::FindChat { user_id_1: 3, user_id_2: 5 },
        OpenAction::CreateChat { user_id_1: 3, user_id_2: 5 },
        OpenAction::SendMessage { chat_id: 12, sender_id: 3, text: "hello".to_string() },
        OpenAction::MarkRead { chat_id: 12, user_id: 3 },
        OpenAction::Commit,
        OpenAction::Finish(12),
    ]);
}

#[test]
fn both_members_look_up_the_same_pair() {
    let (_, a) = OpenDirectChat::begin(8, 4, String::new());
    let (_, b) = OpenDirectChat::begin(4, 8, String::new());
    assert_eq!(a, b);
    let (_, c) = OpenDirectChat::begin(6, 6, String::new());
    assert_eq!(c, OpenAction::FindChat { user_id_1: 6, user_id_2: 6 });
}

#[test]
fn an_unexpected_event_is_not_accepted() {
    let (flow, _) = OpenDirectChat::begin(1, 2, String::new());
    assert!(!flow.accepts(&OpenEvent::Committed));
    assert!(flow.accepts(&OpenEvent::Found(None)));
}
