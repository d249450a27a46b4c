//! The consumer side of the event router: how each network event, timer
//! tick and focus change updates the application state, and which side
//! effects (saving the record, notifying, dropping the dead session's
//! command channel) the runtime must carry out afterwards.

use vstd::prelude::*;

use crate::clock::TimestampValue;
use crate::clock::format_timestamp;
use crate::clock::now_local_hm;
use crate::clock::rfc3339_instant;
use crate::config::remember_profile;
use crate::config::remembered_ok;
use crate::session::NetEvent;
use crate::state::App;
use crate::state::ChatMessage;
use crate::state::ChatState;
use crate::state::Screen;
use crate::text::prefix_spec;
use crate::wire::ServerMsg;
use vstd::string::StringExecFns;

verus! {

/// A request to notify the user of a message that arrived while the
/// terminal was not focused.
pub struct Notification {
    pub from: String,
    pub text: String,
}

/// What the runtime must do after applying a network event.
pub struct NetEffects {
    /// Persist the configuration record.
    pub save_config: bool,
    /// The session is over: drop the command channel endpoint.
    pub drop_command_channel: bool,
    /// Deliver a notification for this message.
    pub notification: Option<Notification>,
}

impl NetEffects {
    pub fn none() -> (r: NetEffects)
        ensures
            r.save_config == false,
            r.drop_command_channel == false,
            r.notification is None,
    {
        NetEffects { save_config: false, drop_command_channel: false, notification: None }
    }
}

/// When an arriving message notifies the user: it is a real message from
/// someone else, and the terminal is unfocused with notifications on.
pub open spec fn should_notify(a: App, m: ChatMessage) -> bool {
    &&& !m.is_system
    &&& m.from@ != a.chat.username@
    &&& !a.terminal_focused
    &&& !a.notifications_muted
}

pub open spec fn sat_inc(n: u32) -> u32 {
    if n == u32::MAX {
        n
    } else {
        (n + 1) as u32
    }
}

/// Everything of an `App` except the chat state and the unread counter is
/// unchanged.
pub open spec fn same_app_but_chat_unread(a: App, b: App) -> bool {
    &&& a.screen == b.screen
    &&& a.config == b.config
    &&& a.profiles == b.profiles
    &&& a.selected_profile == b.selected_profile
    &&& a.connect_form == b.connect_form
    &&& a.enroll_form == b.enroll_form
    &&& a.identity == b.identity
    &&& a.pubkey_b64 == b.pubkey_b64
    &&& a.is_new_key == b.is_new_key
    &&& a.tick_count == b.tick_count
    &&& a.splash_done == b.splash_done
    &&& a.status_msg == b.status_msg
    &&& a.focus_on_profiles == b.focus_on_profiles
    &&& a.terminal_focused == b.terminal_focused
    &&& a.notifications_muted == b.notifications_muted
}

/// Everything of a `ChatState` except the transcript is unchanged.
pub open spec fn same_chat_but_messages(a: ChatState, b: ChatState) -> bool {
    &&& a.online_users == b.online_users
    &&& a.scroll_offset == b.scroll_offset
    &&& a.input == b.input
    &&& a.input_cursor == b.input_cursor
    &&& a.username == b.username
    &&& a.server == b.server
    &&& a.show_help == b.show_help
    &&& a.user_count == b.user_count
    &&& a.focus_users == b.focus_users
    &&& a.admin_response == b.admin_response
}

/// What appending one message does: the transcript grows by exactly that
/// message, the unread counter advances when the message notifies, and
/// nothing else moves.
pub open spec fn message_pushed(pre: App, post: App, m: ChatMessage, r: Option<
    Notification,
>) -> bool {
    &&& post.chat.messages@ == pre.chat.messages@.push(m)
    &&& same_chat_but_messages(pre.chat, post.chat)
    &&& same_app_but_chat_unread(pre, post)
    &&& post.unread_count == if should_notify(pre, m) {
        sat_inc(pre.unread_count)
    } else {
        pre.unread_count
    }
    &&& (r is Some <==> should_notify(pre, m))
    &&& (r matches Some(n) ==> n.from@ == m.from@ && n.text@ == m.text@)
}

impl App {
    /// Appends a message to the transcript; reports the notification to
    /// deliver when it arrived unseen.
    pub fn push_message(&mut self, msg: ChatMessage) -> (r: Option<Notification>)
        ensures
            message_pushed(*old(self), *final(self), msg, r),
    {
        let notify = !msg.is_system && !crate::text::str_eq(
            msg.from.as_str(),
            self.chat.username.as_str(),
        ) && !self.terminal_focused && !self.notifications_muted;
        let r = if notify {
            Some(Notification { from: msg.from.clone(), text: msg.text.clone() })
        } else {
            None
        };
        if notify {
            self.unread_count = self.unread_count.saturating_add(1);
        }
        self.chat.messages.push(msg);
        r
    }

    /// Appends a system line (local origin, never notifies).
    pub fn push_system_msg(&mut self, text: &str)
        ensures
            final(self).chat.messages@.len() == old(self).chat.messages@.len() + 1,
            final(self).chat.messages@.drop_last() == old(self).chat.messages@,
            ({
                let m = final(self).chat.messages@.last();
                &&& m.from@ == "\u{2500} sys \u{2500}"@
                &&& m.text@ == text@
                &&& m.timestamp@.len() == 5
                &&& m.is_system == true
                &&& m.is_admin == false
            }),
            same_chat_but_messages(old(self).chat, final(self).chat),
            same_app_but_chat_unread(*old(self), *final(self)),
            final(self).unread_count == old(self).unread_count,
    {
        let m = ChatMessage {
            from: "\u{2500} sys \u{2500}".to_owned(),
            text: text.to_owned(),
            timestamp: now_local_hm(),
            is_system: true,
            is_admin: false,
        };
        let _ = self.push_message(m);
        proof {
            assert(self.chat.messages@.drop_last() =~= old(self).chat.messages@);
        }
    }

    /// Applies one decoded server message: presence bookkeeping always, and
    /// a transcript line for everything that is not pure presence.
    pub fn handle_server_msg(&mut self, msg: ServerMsg) -> (r: Option<Notification>)
        ensures
            server_msg_applied(*old(self), *final(self), msg, r),
    {
        match msg.users_count {
            Some(c) => {
                self.chat.user_count = (c % 0x1_0000_0000u64) as u32;
            },
            None => {},
        }
        match msg.user_names {
            Some(v) => {
                self.chat.online_users = v;
            },
            None => {},
        }
        if crate::text::str_eq(msg.msg_type.as_str(), "presence") {
            return None;
        }
        let from = match msg.from {
            Some(f) => f,
            None => "system".to_owned(),
        };
        let text = match msg.text {
            Some(t) => t,
            None => String::new(),
        };
        let timestamp = format_timestamp(&msg.timestamp);
        let m = ChatMessage { from, text, timestamp, is_system: false, is_admin: false };
        let r = self.push_message(m);
        proof {
            assert(self.chat.messages@.drop_last() =~= old(self).chat.messages@);
        }
        r
    }
}

/// The truncation of a user count to the 32 bits the view keeps.
pub open spec fn count32(c: u64) -> u32 {
    (c % 0x1_0000_0000) as u32
}

/// How the presence fields of a message land in the chat state.
pub open spec fn presence_applied(pre: ChatState, post: ChatState, msg: ServerMsg) -> bool {
    &&& post.user_count == match msg.users_count {
        Some(c) => count32(c),
        None => pre.user_count,
    }
    &&& post.online_users == match msg.user_names {
        Some(v) => v,
        None => pre.online_users,
    }
}

/// The timestamp column a message gets: five characters of local time, or
/// the head of an unparsable timestamp string.
pub open spec fn timestamp_shown(col: Seq<char>, ts: TimestampValue) -> bool {
    match ts {
        TimestampValue::Text(s) => if rfc3339_instant(s@) is None {
            col == prefix_spec(s@, 5)
        } else {
            col.len() == 5
        },
        TimestampValue::Epoch(_) => col.len() == 5,
        TimestampValue::Absent => col.len() == 5,
    }
}

/// What applying a decoded server message does. Presence bookkeeping (user
/// count and name list) always applies; a `presence` message does nothing
/// else, and every other message lands in the transcript with defaulted
/// origin and text.
pub open spec fn server_msg_applied(pre: App, post: App, msg: ServerMsg, r: Option<
    Notification,
>) -> bool {
    &&& same_app_but_chat_unread(pre, post)
    &&& presence_applied(pre.chat, post.chat, msg)
    &&& post.chat.scroll_offset == pre.chat.scroll_offset
    &&& post.chat.input == pre.chat.input
    &&& post.chat.input_cursor == pre.chat.input_cursor
    &&& post.chat.username == pre.chat.username
    &&& post.chat.server == pre.chat.server
    &&& post.chat.show_help == pre.chat.show_help
    &&& post.chat.focus_users == pre.chat.focus_users
    &&& post.chat.admin_response == pre.chat.admin_response
    &&& if msg.msg_type@ == "presence"@ {
        &&& post.chat.messages@ == pre.chat.messages@
        &&& post.unread_count == pre.unread_count
        &&& r is None
    } else {
        &&& post.chat.messages@.len() == pre.chat.messages@.len() + 1
        &&& post.chat.messages@.drop_last() == pre.chat.messages@
        &&& ({
            let m = post.chat.messages@.last();
            &&& m.from@ == match msg.from {
                Some(f) => f@,
                None => "system"@,
            }
            &&& m.text@ == match msg.text {
                Some(t) => t@,
                None => Seq::<char>::empty(),
            }
            &&& timestamp_shown(m.timestamp@, msg.timestamp)
            &&& m.is_system == false
            &&& m.is_admin == false
            &&& post.unread_count == if should_notify(pre, m) {
                sat_inc(pre.unread_count)
            } else {
                pre.unread_count
            }
            &&& (r is Some <==> should_notify(pre, m))
            &&& (r matches Some(n) ==> n.from@ == m.from@ && n.text@ == m.text@)
        })
    }
}


/// No side effects requested.
pub open spec fn no_effects(fx: NetEffects) -> bool {
    &&& fx.save_config == false
    &&& fx.drop_command_channel == false
    &&& fx.notification is None
}

/// Nothing about the application changed.
pub open spec fn app_unchanged(a: App, b: App) -> bool {
    &&& same_app_but_chat_unread(a, b)
    &&& a.chat == b.chat
    &&& a.unread_count == b.unread_count
}

/// Everything but the status line is unchanged.
pub open spec fn same_app_but_status(a: App, b: App) -> bool {
    &&& a.screen == b.screen
    &&& a.config == b.config
    &&& a.profiles == b.profiles
    &&& a.selected_profile == b.selected_profile
    &&& a.connect_form == b.connect_form
    &&& a.enroll_form == b.enroll_form
    &&& a.chat == b.chat
    &&& a.identity == b.identity
    &&& a.pubkey_b64 == b.pubkey_b64
    &&& a.is_new_key == b.is_new_key
    &&& a.tick_count == b.tick_count
    &&& a.splash_done == b.splash_done
    &&& a.focus_on_profiles == b.focus_on_profiles
    &&& a.terminal_focused == b.terminal_focused
    &&& a.unread_count == b.unread_count
    &&& a.notifications_muted == b.notifications_muted
}

/// Everything but the screen is unchanged.
pub open spec fn same_app_but_screen(a: App, b: App) -> bool {
    &&& a.config == b.config
    &&& a.profiles == b.profiles
    &&& a.selected_profile == b.selected_profile
    &&& a.connect_form == b.connect_form
    &&& a.enroll_form == b.enroll_form
    &&& a.chat == b.chat
    &&& a.identity == b.identity
    &&& a.pubkey_b64 == b.pubkey_b64
    &&& a.is_new_key == b.is_new_key
    &&& a.tick_count == b.tick_count
    &&& a.splash_done == b.splash_done
    &&& a.status_msg == b.status_msg
    &&& a.focus_on_profiles == b.focus_on_profiles
    &&& a.terminal_focused == b.terminal_focused
    &&& a.unread_count == b.unread_count
    &&& a.notifications_muted == b.notifications_muted
}

/// Everything but screen and status line is unchanged.
pub open spec fn same_app_but_screen_status(a: App, b: App) -> bool {
    &&& a.config == b.config
    &&& a.profiles == b.profiles
    &&& a.selected_profile == b.selected_profile
    &&& a.connect_form == b.connect_form
    &&& a.enroll_form == b.enroll_form
    &&& a.chat == b.chat
    &&& a.identity == b.identity
    &&& a.pubkey_b64 == b.pubkey_b64
    &&& a.is_new_key == b.is_new_key
    &&& a.tick_count == b.tick_count
    &&& a.splash_done == b.splash_done
    &&& a.focus_on_profiles == b.focus_on_profiles
    &&& a.terminal_focused == b.terminal_focused
    &&& a.unread_count == b.unread_count
    &&& a.notifications_muted == b.notifications_muted
}

/// What applying each network event does to the application and which side
/// effects it requests. This is the router's per-event rule; draining a
/// burst applies it once per event, in arrival order, before the next
/// redraw.
pub open spec fn net_event_applied(pre: App, post: App, evt: NetEvent, fx: NetEffects) -> bool {
    match evt {
        NetEvent::Connected => {
            &&& post.status_msg matches Some(s) && s@ == "Authenticating\u{2026}"@
            &&& same_app_but_status(pre, post)
            &&& no_effects(fx)
        },
        NetEvent::AuthOk { username } => {
            &&& post.screen is Chat
            &&& post.status_msg is None
            &&& post.chat.username@ == username@
            &&& same_chat_but_username(pre.chat, post.chat)
            &&& post.config.last_server matches Some(s) && s@ == pre.chat.server@
            &&& post.config.last_username matches Some(u) && u@ == username@
            &&& remembered_ok(
                pre.config.profiles@,
                pre.chat.server@,
                username@,
                post.config.profiles@,
            )
            &&& post.profiles@ == post.config.profiles@
            &&& post.selected_profile == pre.selected_profile
            &&& post.connect_form == pre.connect_form
            &&& post.enroll_form == pre.enroll_form
            &&& post.identity == pre.identity
            &&& post.pubkey_b64 == pre.pubkey_b64
            &&& post.is_new_key == pre.is_new_key
            &&& post.tick_count == pre.tick_count
            &&& post.splash_done == pre.splash_done
            &&& post.focus_on_profiles == pre.focus_on_profiles
            &&& post.terminal_focused == pre.terminal_focused
            &&& post.unread_count == pre.unread_count
            &&& post.notifications_muted == pre.notifications_muted
            &&& fx.save_config == true
            &&& fx.drop_command_channel == false
            &&& fx.notification is None
        },
        NetEvent::AuthFail { reason } => {
            &&& post.screen is Enroll
            &&& post.status_msg matches Some(s) && s@ == "Auth failed: "@ + reason@
                + ". Enter invite code to enroll."@
            &&& same_app_but_screen_status(pre, post)
            &&& no_effects(fx)
        },
        NetEvent::Message(m) => {
            &&& server_msg_applied(pre, post, m, fx.notification)
            &&& fx.save_config == false
            &&& fx.drop_command_channel == false
        },
        NetEvent::AdminResponse { action, data } => {
            &&& post.chat.admin_response matches Some(s) && s@ == "[ADMIN >> "@ + action@ + "] "@
                + data@
            &&& post.chat.messages@.len() == pre.chat.messages@.len() + 1
            &&& post.chat.messages@.drop_last() == pre.chat.messages@
            &&& ({
                let m = post.chat.messages@.last();
                &&& m.from@ == "ADMIN"@
                &&& m.text@ == "["@ + action@ + "] "@ + data@
                &&& m.timestamp@.len() == 5
                &&& m.is_system == true
                &&& m.is_admin == true
            })
            &&& post.chat.online_users == pre.chat.online_users
            &&& post.chat.scroll_offset == pre.chat.scroll_offset
            &&& post.chat.input == pre.chat.input
            &&& post.chat.input_cursor == pre.chat.input_cursor
            &&& post.chat.username == pre.chat.username
            &&& post.chat.server == pre.chat.server
            &&& post.chat.show_help == pre.chat.show_help
            &&& post.chat.user_count == pre.chat.user_count
            &&& post.chat.focus_users == pre.chat.focus_users
            &&& same_app_but_chat_unread(pre, post)
            &&& post.unread_count == pre.unread_count
            &&& no_effects(fx)
        },
        NetEvent::Error(e) => {
            &&& post.screen matches Screen::Error(m) && m@ == e@
            &&& same_app_but_screen(pre, post)
            &&& no_effects(fx)
        },
        NetEvent::Disconnected => if pre.screen is Chat {
            &&& post.chat.messages@.len() == pre.chat.messages@.len() + 1
            &&& post.chat.messages@.drop_last() == pre.chat.messages@
            &&& ({
                let m = post.chat.messages@.last();
                &&& m.text@ == "Disconnected from server"@
                &&& m.is_system == true
            })
            &&& same_chat_but_messages(pre.chat, post.chat)
            &&& same_app_but_chat_unread(pre, post)
            &&& post.unread_count == pre.unread_count
            &&& fx.save_config == false
            &&& fx.drop_command_channel == true
            &&& fx.notification is None
        } else {
            &&& app_unchanged(pre, post)
            &&& no_effects(fx)
        },
    }
}

/// Everything of a `ChatState` except the username is unchanged.
pub open spec fn same_chat_but_username(a: ChatState, b: ChatState) -> bool {
    &&& a.messages == b.messages
    &&& a.online_users == b.online_users
    &&& a.scroll_offset == b.scroll_offset
    &&& a.input == b.input
    &&& a.input_cursor == b.input_cursor
    &&& a.server == b.server
    &&& a.show_help == b.show_help
    &&& a.user_count == b.user_count
    &&& a.focus_users == b.focus_users
    &&& a.admin_response == b.admin_response
}

impl App {
    /// Applies one event from the network session and reports the side
    /// effects the runtime must carry out.
    pub fn handle_net_event(&mut self, evt: NetEvent) -> (fx: NetEffects)
        ensures
            net_event_applied(*old(self), *final(self), evt, fx),
    {
        match evt {
            NetEvent::Connected => {
                self.status_msg = Some("Authenticating\u{2026}".to_owned());
                NetEffects::none()
            },
            NetEvent::AuthOk { username } => {
                self.screen = Screen::Chat;
                self.status_msg = None;
                self.chat.username = username.clone();
                self.config.last_server = Some(self.chat.server.clone());
                self.config.last_username = Some(username.clone());
                let updated = remember_profile(
                    &self.config.profiles,
                    self.chat.server.as_str(),
                    username.as_str(),
                );
                self.config.profiles = updated;
                self.profiles = crate::state::copy_profiles(&self.config.profiles);
                let mut fx = NetEffects::none();
                fx.save_config = true;
                fx
            },
            NetEvent::AuthFail { reason } => {
                self.screen = Screen::Enroll;
                let mut s = "Auth failed: ".to_owned();
                s.append(reason.as_str());
                s.append(". Enter invite code to enroll.");
                self.status_msg = Some(s);
                NetEffects::none()
            },
            NetEvent::Message(m) => {
                let n = self.handle_server_msg(m);
                let mut fx = NetEffects::none();
                fx.notification = n;
                fx
            },
            NetEvent::AdminResponse { action, data } => {
                let mut s = "[ADMIN >> ".to_owned();
                s.append(action.as_str());
                s.append("] ");
                s.append(data.as_str());
                self.chat.admin_response = Some(s);
                let mut text = "[".to_owned();
                text.append(action.as_str());
                text.append("] ");
                text.append(data.as_str());
                let m = ChatMessage {
                    from: "ADMIN".to_owned(),
                    text,
                    timestamp: now_local_hm(),
                    is_system: true,
                    is_admin: true,
                };
                let _ = self.push_message(m);
                proof {
                    assert(self.chat.messages@.drop_last() =~= old(self).chat.messages@);
                }
                NetEffects::none()
            },
            NetEvent::Error(e) => {
                self.screen = Screen::Error(e);
                NetEffects::none()
            },
            NetEvent::Disconnected => {
                match self.screen {
                    Screen::Chat => {
                        self.push_system_msg("Disconnected from server");
                        let mut fx = NetEffects::none();
                        fx.drop_command_channel = true;
                        fx
                    },
                    _ => NetEffects::none(),
                }
            },
        }
    }
}

/// How a server address is completed: the default port is appended when the
/// address names none.
pub open spec fn normalized_server(s: Seq<char>) -> Seq<char> {
    if crate::text::has_colon(s) {
        s
    } else {
        s + ":7000"@
    }
}

/// The outcome of asking for a connection.
pub enum StartOutcome {
    /// The form names no username: nothing was done.
    Idle,
    /// A fresh identity was generated: show it before connecting. The seed
    /// must be persisted first.
    ShowKeyInfo { write_seed: Option<Vec<u8>> },
    /// Rejected before any network activity; the screen says why.
    Rejected,
    /// Launch a connector with these parameters, persisting the seed first
    /// when one is given.
    Connect { write_seed: Option<Vec<u8>>, params: crate::session::NetParams },
}

/// The state and parameters a launched connection attempt must have.
pub open spec fn connect_launched(
    pre: App,
    post: App,
    enroll_code: Option<String>,
    r: StartOutcome,
    seed: Seq<u8>,
    ws: Option<Seq<u8>>,
    is_new: bool,
) -> bool {
    let user = crate::text::trim_spec(pre.connect_form.username@);
    let server = normalized_server(crate::text::trim_spec(pre.connect_form.server@));
    &&& seed.len() == 32
    &&& post.identity matches Some(id) && id.seed_view() == seed
    &&& post.pubkey_b64 matches Some(pk) && pk@
        == crate::identity::public_key_b64_of(seed)
    &&& post.is_new_key == is_new
    &&& post.config == pre.config
    &&& post.profiles == pre.profiles
    &&& post.selected_profile == pre.selected_profile
    &&& post.connect_form == pre.connect_form
    &&& post.enroll_form == pre.enroll_form
    &&& post.tick_count == pre.tick_count
    &&& post.splash_done == pre.splash_done
    &&& post.focus_on_profiles == pre.focus_on_profiles
    &&& post.terminal_focused == pre.terminal_focused
    &&& post.unread_count == pre.unread_count
    &&& post.notifications_muted == pre.notifications_muted
    &&& post.chat.messages == pre.chat.messages
    &&& post.chat.online_users == pre.chat.online_users
    &&& post.chat.scroll_offset == pre.chat.scroll_offset
    &&& post.chat.input == pre.chat.input
    &&& post.chat.input_cursor == pre.chat.input_cursor
    &&& post.chat.show_help == pre.chat.show_help
    &&& post.chat.user_count == pre.chat.user_count
    &&& post.chat.focus_users == pre.chat.focus_users
    &&& post.chat.admin_response == pre.chat.admin_response
    &&& if is_new && enroll_code is None {
        // A fresh key pauses at the key-info screen instead of connecting.
        &&& post.screen is KeyInfo
        &&& post.status_msg == pre.status_msg
        &&& post.chat.username == pre.chat.username
        &&& post.chat.server == pre.chat.server
        &&& r matches StartOutcome::ShowKeyInfo { write_seed } && write_seed_is(write_seed, ws)
    } else {
        &&& post.screen is Auth
        &&& post.status_msg matches Some(st) && st@ == "Connecting..."@
        &&& post.chat.username@ == user
        &&& post.chat.server@ == server
        &&& r matches StartOutcome::Connect { write_seed, params } && ({
            &&& write_seed_is(write_seed, ws)
            &&& params.username@ == user
            &&& params.server@ == server
            &&& params.pubkey_b64@ == crate::identity::public_key_b64_of(seed)
            &&& params.identity matches Some(pid) && pid.seed_view() == seed
            &&& params.enroll_code == enroll_code
            &&& params.insecure == pre.connect_form.insecure
            &&& params.wf()
        })
    }
}

pub open spec fn write_seed_is(actual: Option<Vec<u8>>, expected: Option<Seq<u8>>) -> bool {
    match expected {
        Some(x) => actual matches Some(v) && v@ == x,
        None => actual is None,
    }
}

/// What asking for a connection does, by case: an empty username does
/// nothing; a bad manual key or a corrupt key file is rejected with the
/// error on screen; a fresh key (outside enrollment) pauses at the key-info
/// screen with the seed to persist; otherwise a connector launch is
/// requested with the parameters of this attempt.
pub open spec fn start_connection_ok(
    pre: App,
    post: App,
    key_file: Option<Vec<u8>>,
    enroll_code: Option<String>,
    r: StartOutcome,
) -> bool {
    let user = crate::text::trim_spec(pre.connect_form.username@);
    let manual = crate::text::trim_spec(pre.connect_form.manual_key@);
    if user.len() == 0 {
        r is Idle && app_unchanged(pre, post)
    } else if manual.len() > 0 {
        match crate::identity::imported_seed(manual) {
            Some(seed) => {
                &&& connect_launched(pre, post, enroll_code, r, seed, Some(seed), false)
                &&& post.status_msg matches Some(st) && st@ == "Connecting..."@
            },
            None => {
                &&& r is Rejected
                &&& same_app_but_screen(pre, post)
                &&& post.screen matches Screen::Error(m) && m@ == (match crate::identity::b64_decoded(
                    manual,
                ) {
                    None => "Invalid manual key format (expected Base64)"@,
                    Some(_) => "Invalid manual key length (expected 32 bytes)"@,
                })
            },
        }
    } else {
        match key_file {
            Some(raw) => if raw@.len() == 32 {
                connect_launched(pre, post, enroll_code, r, raw@, None, false)
            } else {
                &&& r is Rejected
                &&& same_app_but_screen(pre, post)
                &&& post.screen matches Screen::Error(m) && m@ == "Key error: "@
                    + "Key file is corrupt (expected 32 bytes)"@
            },
            None => {
                &&& post.identity matches Some(id) && connect_launched(
                    pre,
                    post,
                    enroll_code,
                    r,
                    id.seed_view(),
                    Some(id.seed_view()),
                    true,
                )
            },
        }
    }
}

impl App {
    /// Validates the form, settles the identity (manual import, stored key,
    /// or fresh generation) and either requests a connector launch or stops
    /// at a screen. `key_file` is the stored seed file's contents for the
    /// form's (trimmed) username, if that file exists; any seed handed back
    /// must be written there before the connector starts.
    pub fn start_connection(&mut self, key_file: Option<Vec<u8>>, enroll_code: Option<String>) -> (r:
        StartOutcome)
        ensures
            start_connection_ok(*old(self), *final(self), key_file, enroll_code, r),
    {
        let username = crate::text::trim_line(self.connect_form.username.as_str());
        if username.as_str().is_empty() {
            return StartOutcome::Idle;
        }
        let manual = crate::text::trim_line(self.connect_form.manual_key.as_str());
        let mut write_seed: Option<Vec<u8>> = None;
        let identity: crate::identity::Identity;
        let is_new: bool;
        if !manual.as_str().is_empty() {
            match crate::identity::import_seed(manual.as_str()) {
                Ok(seed) => {
                    write_seed = Some(crate::identity::clone_bytes(&seed));
                    match crate::identity::load_or_generate(Some(seed)) {
                        Ok(p) => {
                            identity = p.0;
                            is_new = p.1;
                        },
                        Err(_) => {
                            // An imported seed is 32 bytes, so the load
                            // cannot fail; the arm only keeps the match
                            // total.
                            proof {
                                assert(false);
                            }
                            return StartOutcome::Rejected;
                        },
                    }
                    self.status_msg = Some("Imported manual key".to_owned());
                },
                Err(e) => {
                    self.screen = Screen::Error(e.message());
                    return StartOutcome::Rejected;
                },
            }
        } else {
            match crate::identity::load_or_generate(key_file) {
                Ok(p) => {
                    identity = p.0;
                    is_new = p.1;
                    if is_new {
                        write_seed = Some(crate::identity::clone_bytes(identity.seed_bytes()));
                    }
                },
                Err(e) => {
                    let mut m = "Key error: ".to_owned();
                    m.append(e.message().as_str());
                    self.screen = Screen::Error(m);
                    return StartOutcome::Rejected;
                },
            }
        }
        proof {
            crate::identity::lemma_wf_seed_len(&identity);
        }
        let pubkey = crate::identity::pubkey_b64(&identity);
        self.pubkey_b64 = Some(pubkey.clone());
        self.is_new_key = is_new;
        let id_copy = identity.duplicate();
        self.identity = Some(identity);
        if is_new && enroll_code.is_none() {
            self.screen = Screen::KeyInfo;
            return StartOutcome::ShowKeyInfo { write_seed };
        }
        let raw_server = crate::text::trim_line(self.connect_form.server.as_str());
        let server = if crate::text::contains_colon(raw_server.as_str()) {
            raw_server
        } else {
            let mut s = raw_server;
            s.append(":7000");
            s
        };
        let params = crate::session::NetParams {
            server: server.clone(),
            username: username.clone(),
            pubkey_b64: pubkey,
            identity: Some(id_copy),
            enroll_code,
            insecure: self.connect_form.insecure,
        };
        self.chat.username = username;
        self.chat.server = server;
        self.screen = Screen::Auth;
        self.status_msg = Some("Connecting...".to_owned());
        StartOutcome::Connect { write_seed, params }
    }

    /// The username whose stored key a reset would delete: the form's
    /// trimmed username, when it names one.
    pub fn reset_identity_target(&self) -> (r: Option<String>)
        ensures
            match r {
                Some(u) => u@ == crate::text::trim_spec(self.connect_form.username@) && u@.len()
                    > 0,
                None => crate::text::trim_spec(self.connect_form.username@).len() == 0,
            },
    {
        let username = crate::text::trim_line(self.connect_form.username.as_str());
        if username.as_str().is_empty() {
            None
        } else {
            Some(username)
        }
    }

    /// Records a completed key deletion: the cached identity is forgotten
    /// and the status line says whose key went away.
    pub fn reset_identity(&mut self)
        ensures
            final(self).identity is None,
            final(self).pubkey_b64 is None,
            final(self).status_msg matches Some(s) && s@ == "Deleted identity for "@
                + crate::text::trim_spec(old(self).connect_form.username@),
            final(self).screen == old(self).screen,
            final(self).config == old(self).config,
            final(self).profiles == old(self).profiles,
            final(self).selected_profile == old(self).selected_profile,
            final(self).connect_form == old(self).connect_form,
            final(self).enroll_form == old(self).enroll_form,
            final(self).chat == old(self).chat,
            final(self).is_new_key == old(self).is_new_key,
            final(self).tick_count == old(self).tick_count,
            final(self).splash_done == old(self).splash_done,
            final(self).focus_on_profiles == old(self).focus_on_profiles,
            final(self).terminal_focused == old(self).terminal_focused,
            final(self).unread_count == old(self).unread_count,
            final(self).notifications_muted == old(self).notifications_muted,
    {
        let username = crate::text::trim_line(self.connect_form.username.as_str());
        let mut s = "Deleted identity for ".to_owned();
        s.append(username.as_str());
        self.status_msg = Some(s);
        self.identity = None;
        self.pubkey_b64 = None;
    }

    /// One animation tick: the counter advances (wrapping), and the splash
    /// screen gives way to the connect screen once it has been up long
    /// enough.
    pub fn on_tick(&mut self)
        ensures
            final(self).tick_count == if old(self).tick_count == u64::MAX {
                0u64
            } else {
                (old(self).tick_count + 1) as u64
            },
            ({
                let advanced = old(self).screen is Splash && final(self).tick_count >= 30 && !old(
                    self,
                ).splash_done;
                &&& final(self).screen == if advanced {
                    Screen::Connect
                } else {
                    old(self).screen
                }
                &&& final(self).splash_done == (old(self).splash_done || advanced)
            }),
            final(self).config == old(self).config,
            final(self).profiles == old(self).profiles,
            final(self).selected_profile == old(self).selected_profile,
            final(self).connect_form == old(self).connect_form,
            final(self).enroll_form == old(self).enroll_form,
            final(self).chat == old(self).chat,
            final(self).identity == old(self).identity,
            final(self).pubkey_b64 == old(self).pubkey_b64,
            final(self).is_new_key == old(self).is_new_key,
            final(self).status_msg == old(self).status_msg,
            final(self).focus_on_profiles == old(self).focus_on_profiles,
            final(self).terminal_focused == old(self).terminal_focused,
            final(self).unread_count == old(self).unread_count,
            final(self).notifications_muted == old(self).notifications_muted,
    {
        self.tick_count = self.tick_count.wrapping_add(1);
        let advance = match self.screen {
            Screen::Splash => self.tick_count >= 30 && !self.splash_done,
            _ => false,
        };
        if advance {
            self.splash_done = true;
            self.screen = Screen::Connect;
        }
    }

    /// The terminal regained focus: unread messages are considered seen.
    /// Reports whether the window title must be reset.
    pub fn on_focus_gained(&mut self) -> (clear_title: bool)
        ensures
            final(self).terminal_focused == true,
            final(self).unread_count == 0,
            clear_title == (old(self).unread_count > 0),
            same_app_but_focus_unread(*old(self), *final(self)),
    {
        self.terminal_focused = true;
        if self.unread_count > 0 {
            self.unread_count = 0;
            true
        } else {
            false
        }
    }

    /// The terminal lost focus: arriving messages may notify from now on.
    pub fn on_focus_lost(&mut self)
        ensures
            final(self).terminal_focused == false,
            final(self).unread_count == old(self).unread_count,
            same_app_but_focus_unread(*old(self), *final(self)),
    {
        self.terminal_focused = false;
    }
}

/// Everything but the focus flag and the unread counter is unchanged.
pub open spec fn same_app_but_focus_unread(a: App, b: App) -> bool {
    &&& a.screen == b.screen
    &&& a.config == b.config
    &&& a.profiles == b.profiles
    &&& a.selected_profile == b.selected_profile
    &&& a.connect_form == b.connect_form
    &&& a.enroll_form == b.enroll_form
    &&& a.chat == b.chat
    &&& a.identity == b.identity
    &&& a.pubkey_b64 == b.pubkey_b64
    &&& a.is_new_key == b.is_new_key
    &&& a.tick_count == b.tick_count
    &&& a.splash_done == b.splash_done
    &&& a.status_msg == b.status_msg
    &&& a.focus_on_profiles == b.focus_on_profiles
    &&& a.notifications_muted == b.notifications_muted
}


/// What a submitted input line asks for.
pub enum InputAction {
    /// Silence notifications.
    Mute,
    /// Re-enable notifications.
    Unmute,
    /// Send an administrative command with this action.
    Admin(String),
    /// Send the line as a chat message.
    Say(String),
    /// Nothing to do (an admin command without an action).
    Nothing,
}

/// Whether the line invokes the admin command prefix.
pub open spec fn has_admin_prefix(text: Seq<char>) -> bool {
    text.len() >= 7 && text.take(7) == "/admin "@
}

/// How a submitted input line is classified. `/mute` and `/unmute` toggle
/// notifications locally; `/admin <action>` becomes an administrative
/// command; anything else — other slash-words included — is sent as chat
/// text.
pub open spec fn input_action_ok(text: Seq<char>, r: InputAction) -> bool {
    if text == "/mute"@ {
        r is Mute
    } else if text == "/unmute"@ {
        r is Unmute
    } else if has_admin_prefix(text) {
        let action = crate::text::trim_spec(text.skip(7));
        if action.len() > 0 {
            r matches InputAction::Admin(a) && a@ == action
        } else {
            r is Nothing
        }
    } else {
        r matches InputAction::Say(t) && t@ == text
    }
}

/// Classifies a submitted (already trimmed, nonempty) input line.
pub fn classify_input(text: &str) -> (r: InputAction)
    ensures
        input_action_ok(text@, r),
{
    if crate::text::str_eq(text, "/mute") {
        return InputAction::Mute;
    }
    if crate::text::str_eq(text, "/unmute") {
        return InputAction::Unmute;
    }
    let cs = crate::text::chars_of(text);
    let prefix = crate::text::chars_of("/admin ");
    proof {
        reveal_strlit("/admin ");
    }
    if cs.len() >= 7 {
        let mut matches_prefix = true;
        let mut i: usize = 0;
        while i < 7
            invariant
                i <= 7,
                cs@ == text@,
                prefix@ == "/admin "@,
                cs@.len() >= 7,
                prefix@.len() == 7,
                matches_prefix == (forall|j: int| 0 <= j < i ==> cs@[j] == prefix@[j]),
            decreases 7 - i,
        {
            if cs[i] != prefix[i] {
                matches_prefix = false;
            }
            i += 1;
        }
        proof {
            if matches_prefix {
                assert(text@.take(7) =~= "/admin "@);
            } else {
                assert(text@.take(7) != "/admin "@) by {
                    let j = choose|j: int| 0 <= j < 7 && !(cs@[j] == prefix@[j]);
                    assert(text@.take(7)[j] != "/admin "@[j]);
                }
            }
        }
        if matches_prefix {
            let mut rest: Vec<char> = Vec::new();
            let mut k: usize = 7;
            while k < cs.len()
                invariant
                    7 <= k <= cs@.len(),
                    cs@ == text@,
                    rest@ =~= text@.skip(7).take(k - 7),
                decreases cs@.len() - k,
            {
                rest.push(cs[k]);
                proof {
                    assert(rest@ =~= text@.skip(7).take(k - 6));
                }
                k += 1;
            }
            proof {
                assert(text@.skip(7).take(cs@.len() - 7) =~= text@.skip(7));
            }
            let rest_str = crate::text::string_of(&rest);
            let action = crate::text::trim_line(rest_str.as_str());
            if action.as_str().is_empty() {
                return InputAction::Nothing;
            }
            return InputAction::Admin(action);
        }
    }
    InputAction::Say(text.to_owned())
}

} // verus!
