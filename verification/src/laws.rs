//! Properties of the chat system that span several operations, stated over
//! the specifications that the operations themselves are proved against.

use vstd::prelude::*;
use crate::resc::{Channel, password_admits};
use crate::server::{join_channel_decision, password_hash_spec, JoinChannelDecision};
use crate::tui_state::{
    capped, key_applied, ui_update_applied, Key, KeyAction, Notification, TuiChatClient, UIUpdate, MAX_NOTIFICATIONS,
};
use crate::text::{decimal, parse_u16_spec, all_digits, digits_value, digit_char, words, join_words};
use crate::tui_state::command_applied;
use crate::cli::{cli_parse_spec, display_spec, CliRequestView};
use crate::protocol;
use crate::resc::{Message, MessageType, ServerInfo, UserStatus};
use crate::voice_client::may_transmit;

verus! {

/// A voice token is good for one use: once registered for a user and room
/// it is accepted for that user and room, and after it was accepted it is
/// accepted no more.
pub proof fn law_voice_token_single_use(pending: Map<Seq<char>, (u16, u16)>, token: Seq<char>, user_id: u16, room_id: u16)
    ensures
        pending.insert(token, (user_id, room_id)).get(token) == Some((user_id, room_id)),
        pending.insert(token, (user_id, room_id)).remove(token).get(token) is None,
{
}

/// A member who gives the password that a protected channel was created
/// with is let in.
pub proof fn law_channel_password_admits(c: Channel, password: Option<String>, p: Seq<char>)
    requires
        c.password_hash is Some,
        c.password_hash.unwrap()@ == password_hash_spec(p),
        password is Some,
        password.unwrap()@ == p,
    ensures
        join_channel_decision(Some(c), true, password) == JoinChannelDecision::Join,
{
}

/// A member is let into a channel without a password whatever password is
/// given, and nobody gets into a protected channel without giving one.
pub proof fn law_channel_open_or_closed(c: Channel, password: Option<String>)
    ensures
        c.password_hash is None ==> join_channel_decision(Some(c), true, password) == JoinChannelDecision::Join,
        (c.password_hash is Some && password is None)
            ==> join_channel_decision(Some(c), true, password) == JoinChannelDecision::BadPassword,
{
}

/// The client never shows more than five notifications: adding one to at
/// most five keeps at most five, the new one last.
pub proof fn law_notifications_bounded(shown: Seq<Notification>, n: Notification)
    requires
        shown.len() <= MAX_NOTIFICATIONS,
    ensures
        capped(shown.push(n)).len() <= MAX_NOTIFICATIONS,
        capped(shown.push(n)).last() == n,
{
}

/// A client that is not connected sends nothing, whatever update arrives.
pub proof fn law_disconnected_update_sends_nothing(o: TuiChatClient, n: TuiChatClient, update: UIUpdate, now: u64)
    requires
        !o.connected,
        ui_update_applied(o, n, update, now),
    ensures
        n.outbox@ == o.outbox@,
{
}

/// A client that is not connected sends nothing, whatever key is pressed.
pub proof fn law_disconnected_key_sends_nothing(o: TuiChatClient, n: TuiChatClient, key: Key, now: u64, r: KeyAction)
    requires
        !o.connected,
        key_applied(o, n, key, now, r),
    ensures
        n.outbox@ == o.outbox@,
{
}

proof fn lemma_decimal_digits(n: nat)
    ensures
        decimal(n).len() > 0,
        all_digits(decimal(n)),
        digits_value(decimal(n)) == n,
    decreases n,
{
    let c = digit_char(n % 10);
    assert(c as u32 - 48 == n % 10) by {
        assert(0 <= n % 10 < 10);
    }
    if n >= 10 {
        lemma_decimal_digits(n / 10);
        let d = decimal(n);
        assert(d.drop_last() =~= decimal(n / 10));
        assert(d.last() == digit_char(n % 10));
        assert forall|i: int| 0 <= i < d.len() implies '0' <= #[trigger] d[i] <= '9' by {
            if i < d.len() - 1 {
                assert(d[i] == decimal(n / 10)[i]);
            }
        }
        assert(digits_value(d) == digits_value(decimal(n / 10)) * 10 + n % 10);
        assert((n / 10) * 10 + n % 10 == n);
    } else {
        let d = decimal(n);
        assert(d == seq![c]);
        assert(d.drop_last() =~= Seq::<char>::empty());
        assert(digits_value(d.drop_last()) == 0);
        assert(d.last() == c);
        assert(digits_value(d) == digits_value(d.drop_last()) * 10 + ((d.last() as u32) - 48) as nat);
        assert(n % 10 == n);
    }
}

/// An id shown in decimal reads back as the same id: what the programs print
/// of servers, rooms and users can be typed back in commands.
pub proof fn law_decimal_reads_back(id: u16)
    ensures
        parse_u16_spec(decimal(id as nat)) == Some(id),
{
    lemma_decimal_digits(id as nat);
    let d = decimal(id as nat);
    assert(d[0] != '+');
}

/// Whether text `s` ends with `t`.
pub open spec fn ends_with(s: Seq<char>, t: Seq<char>) -> bool {
    s.len() >= t.len() && s.skip(s.len() - t.len()) == t
}

/// A logged-in user's `/private <id> <words...>` is a private message to
/// user `id` carrying the words after the id, joined by single spaces, and
/// prints nothing; it is never a message to a room.
pub proof fn law_private_goes_to_the_user(input: Seq<char>, id: u16)
    requires
        words(input).len() >= 3,
        words(input)[0] == "/private"@,
        parse_u16_spec(words(input)[1]) == Some(id),
    ensures
        cli_parse_spec(input, true).0 == Some(CliRequestView::PrivateMessage(id, join_words(words(input).skip(2)))),
        !(cli_parse_spec(input, true).0 matches Some(CliRequestView::RoomMessage(_, _))),
        cli_parse_spec(input, true).1.len() == 0,
{
    reveal_strlit("/private");
    reveal_strlit("/register");
    reveal_strlit("/login");
    reveal_strlit("/join");
    reveal_strlit("/leave");
    reveal_strlit("/msg");
    reveal_strlit("/create");
    let w = words(input)[0];
    assert(w.len() == 8);
    assert(w != "/register"@ && w != "/login"@ && w != "/join"@ && w != "/leave"@ && w != "/msg"@ && w != "/create"@) by {
        assert(w[1] == 'p');
    }
}

/// The line printed for a user's status update names the user and ends in
/// "online" exactly when the update says the user is online, and in
/// "offline" exactly when it says the user is offline.
pub proof fn law_status_line_tells_presence(sender_id: u16, user_id: u16, username: String, is_online: bool)
    ensures
        ({
            let lines = display_spec(protocol::Message {
                sender_id,
                message_type: protocol::MessageType::UserStatusUpdate { user_id, username, is_online },
            });
            &&& lines.len() == 1
            &&& lines[0].take(5 + username@.len() as int) == "User "@ + username@
            &&& ends_with(lines[0], "online"@) <==> is_online
            &&& ends_with(lines[0], "offline"@) <==> !is_online
        }),
{
    reveal_strlit("User ");
    reveal_strlit(" (");
    reveal_strlit(") is now ");
    reveal_strlit("online");
    reveal_strlit("offline");
    let head = "User "@ + username@;
    let mid = head + " ("@ + decimal(user_id as nat) + ") is now "@;
    let l = mid + (if is_online { "online"@ } else { "offline"@ });
    assert(l.take(5 + username@.len() as int) =~= head);
    assert(mid.len() >= 9);
    if is_online {
        assert(l.skip(l.len() - 6) =~= "online"@);
        let t = l.skip(l.len() - 7);
        assert(t[1] == "online"@[0]);
        assert(t[1] != "offline"@[1]);
    } else {
        assert(l.skip(l.len() - 7) =~= "offline"@);
        let t = l.skip(l.len() - 6);
        assert(t[0] == "offline"@[1]);
        assert(t[0] != "online"@[0]);
    }
}

/// `/leave`, typed by a connected user with an open server, asks the server
/// to leave that server, from the user, as the one message queued, and
/// changes nothing else.
pub proof fn law_leave_leaves_the_open_server(o: TuiChatClient, n: TuiChatClient, now: u64, sid: u16)
    requires
        o.connected,
        o.current_server == Some(sid),
        words(o.input@).len() >= 1,
        words(o.input@)[0] == "/leave"@,
        command_applied(o, n, now),
    ensures
        n.outbox@ == o.outbox@.push(Message { sender_id: o.user_id, message_type: MessageType::LeaveServer { server_id: sid } }),
        n == (TuiChatClient { outbox: n.outbox, ..o }),
{
    reveal_strlit("/leave");
    reveal_strlit("/server");
    reveal_strlit("/channel");
    reveal_strlit("/join");
    let w = words(o.input@)[0];
    assert(w != "/server"@ && w != "/channel"@ && w != "/join"@) by {
        assert(w.len() == 6);
        assert(w[2] == 'e');
    }
}

/// A muted client never transmits, whatever the push-to-talk settings; an
/// unmuted client in voice-activated mode always may, and in push-to-talk
/// mode only while the key is held.
pub proof fn law_muted_client_is_silent(is_muted: bool, push_to_talk: bool, ptt_active: bool)
    ensures
        is_muted ==> !may_transmit(is_muted, push_to_talk, ptt_active),
        !is_muted && !push_to_talk ==> may_transmit(is_muted, push_to_talk, ptt_active),
        !is_muted && push_to_talk ==> (may_transmit(is_muted, push_to_talk, ptt_active) <==> ptt_active),
{
}

/// After a server list arrives, the servers offered are exactly those
/// received, and the first of them is selected.
pub proof fn law_server_list_replaces_offer(o: TuiChatClient, n: TuiChatClient, servers: Vec<ServerInfo>, now: u64)
    requires
        ui_update_applied(o, n, UIUpdate::ServerList { servers }, now),
    ensures
        n.available_servers == servers,
        n.selected_server_index == 0,
{
}

/// What the command-line client sends for each command, over all typed
/// lines: only `/register` and `/login` go out before logging in, and never
/// after; `/register` and `/login` carry the user name, then the password;
/// `/msg <id> <words...>` goes to room `id`; `/join <id> [password]` and
/// `/leave <id>` name room `id`.
pub proof fn law_cli_requests(input: Seq<char>)
    ensures
        ({
            let ws = words(input);
            &&& (cli_parse_spec(input, false).0 matches Some(q) ==> (q is Register || q is Login))
            &&& (cli_parse_spec(input, true).0 matches Some(q) ==> !(q is Register || q is Login))
            &&& (ws.len() >= 3 && ws[0] == "/register"@
                ==> cli_parse_spec(input, false).0 == Some(CliRequestView::Register(ws[1], ws[2])))
            &&& (ws.len() >= 3 && ws[0] == "/login"@
                ==> cli_parse_spec(input, false).0 == Some(CliRequestView::Login(ws[1], ws[2])))
            &&& (ws.len() >= 3 && ws[0] == "/msg"@ && parse_u16_spec(ws[1]) is Some
                ==> cli_parse_spec(input, true).0
                    == Some(CliRequestView::RoomMessage(parse_u16_spec(ws[1]).unwrap(), join_words(ws.skip(2)))))
            &&& (ws.len() >= 2 && ws[0] == "/join"@ && parse_u16_spec(ws[1]) is Some
                ==> cli_parse_spec(input, true).0 == Some(CliRequestView::Join(
                    parse_u16_spec(ws[1]).unwrap(),
                    if ws.len() > 2 { Some(ws[2]) } else { None },
                )))
            &&& (ws.len() >= 2 && ws[0] == "/leave"@ && parse_u16_spec(ws[1]) is Some
                ==> cli_parse_spec(input, true).0 == Some(CliRequestView::Leave(parse_u16_spec(ws[1]).unwrap())))
        }),
{
    reveal_strlit("/private");
    reveal_strlit("/register");
    reveal_strlit("/login");
    reveal_strlit("/join");
    reveal_strlit("/leave");
    reveal_strlit("/msg");
    reveal_strlit("/create");
    reveal_strlit("/rooms");
    reveal_strlit("/users");
    reveal_strlit("/voice");
    let ws = words(input);
    if ws.len() > 0 {
        let w = ws[0];
        if w == "/msg"@ {
            assert(w.len() == 4);
        }
        if w == "/join"@ {
            assert(w.len() == 5);
        }
        if w == "/leave"@ {
            assert(w.len() == 6 && w[2] == 'e');
        }
        if w == "/login"@ {
            assert(w.len() == 6 && w[2] == 'o');
        }
        if w == "/register"@ {
            assert(w.len() == 9);
        }
    }
}

/// Updates that carry a value leave it in the client as it arrived: a
/// refused login's reason, the online users, the voice level, and the
/// members of a server, each replacing what was there.
pub proof fn law_updates_store_what_arrives(
    o: TuiChatClient,
    n: TuiChatClient,
    reason: String,
    users: Vec<UserStatus>,
    level_bits: u32,
    server_id: u16,
    now: u64,
)
    ensures
        ui_update_applied(o, n, UIUpdate::AuthFailure { reason }, now) ==> n.auth_error == Some(reason),
        ui_update_applied(o, n, UIUpdate::UserListUpdate { users }, now) ==> n.online_users == users,
        ui_update_applied(o, n, UIUpdate::VoiceLevel { level_bits }, now) ==> n.voice_level_bits == level_bits,
        ui_update_applied(o, n, UIUpdate::ServerMemberList { server_id, members: users }, now) ==> n.online_users == users,
{
}

/// The command-line client prints a room or private message, a server
/// reply and a refused login with the text that came, at the end of the
/// line; a server reply shows "[Server]: " in front exactly when it reports
/// success.
pub proof fn law_printed_text_is_what_came(sender_id: u16, id: u16, name: String, content: String, success: bool)
    ensures
        ({
            let room = display_spec(protocol::Message {
                sender_id,
                message_type: protocol::MessageType::RoomMessage { room_id: id, sender_username: name, content },
            });
            room.len() == 1 && ends_with(room[0], content@)
        }),
        ({
            let private = display_spec(protocol::Message {
                sender_id,
                message_type: protocol::MessageType::PrivateMessage { to_user_id: id, sender_username: name, content },
            });
            private.len() == 1 && ends_with(private[0], content@)
        }),
        ({
            let refused = display_spec(protocol::Message {
                sender_id,
                message_type: protocol::MessageType::AuthFailure { reason: content },
            });
            refused.len() == 1 && ends_with(refused[0], content@)
        }),
        ({
            let reply = display_spec(protocol::Message {
                sender_id,
                message_type: protocol::MessageType::ServerResponse { success, content },
            });
            &&& reply.len() == 1
            &&& ends_with(reply[0], content@)
            &&& (reply[0].take(10) == "[Server]: "@ <==> success)
        }),
{
    reveal_strlit("[Server]: ");
    reveal_strlit("[Server Error]: ");
    let a = "[Server]: "@ + content@;
    let b = "[Server Error]: "@ + content@;
    assert(a.take(10) =~= "[Server]: "@);
    assert(b.take(10)[7] != "[Server]: "@[7]);
    assert(a.skip(a.len() - content@.len()) =~= content@);
    assert(b.skip(b.len() - content@.len()) =~= content@);
    let r = "[Room "@ + decimal(id as nat) + "] "@ + name@ + ": "@ + content@;
    assert(r.skip(r.len() - content@.len()) =~= content@);
    let p = "[Private from "@ + name@ + "]: "@ + content@;
    assert(p.skip(p.len() - content@.len()) =~= content@);
    let e = "[ERROR] "@ + content@;
    assert(e.skip(e.len() - content@.len()) =~= content@);
}

/// `/members`, typed by a connected user with an open server, asks for the
/// members of that server as the one message queued; a client that is not
/// connected carries out no command at all.
pub proof fn law_members_asks_for_the_open_server(o: TuiChatClient, n: TuiChatClient, now: u64, sid: u16)
    requires
        command_applied(o, n, now),
    ensures
        !o.connected ==> n == o,
        o.connected && o.current_server == Some(sid) && words(o.input@).len() >= 1 && words(o.input@)[0] == "/members"@
            ==> n.outbox@ == o.outbox@.push(
                Message { sender_id: o.user_id, message_type: MessageType::RequestServerMembers { server_id: sid } },
            ) && n == (TuiChatClient { outbox: n.outbox, ..o }),
{
    reveal_strlit("/members");
    reveal_strlit("/leave");
    reveal_strlit("/server");
    reveal_strlit("/channel");
    reveal_strlit("/join");
    reveal_strlit("/msg");
    reveal_strlit("/pm");
    if words(o.input@).len() >= 1 && words(o.input@)[0] == "/members"@ {
        let w = words(o.input@)[0];
        assert(w.len() == 8 && w[2] == 'e');
    }
}

} // verus!
