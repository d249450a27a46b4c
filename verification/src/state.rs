//! The application's visible state: which screen is up, the connect and
//! enrollment forms, the chat transcript and its scroll position, and the
//! session-wide flags. The update rules that drive it live in `update`.

use vstd::prelude::*;

use crate::config::Config;
use crate::config::ServerProfile;
use crate::identity::Identity;

verus! {

/// Which screen the client shows.
#[derive(Debug, Clone)]
pub enum Screen {
    Splash,
    Connect,
    KeyInfo,
    Auth,
    Enroll,
    Chat,
    Error(String),
}

/// One line of the transcript, ready for display.
#[derive(Debug, Clone)]
pub struct ChatMessage {
    pub from: String,
    pub text: String,
    pub timestamp: String,
    pub is_system: bool,
    pub is_admin: bool,
}

/// The connect form's fields.
#[derive(Debug, Clone)]
pub struct ConnectForm {
    pub server: String,
    pub username: String,
    pub manual_key: String,
    pub focused_field: usize,
    pub insecure: bool,
}

impl ConnectForm {
    pub fn empty() -> (r: ConnectForm)
        ensures
            r.server@.len() == 0,
            r.username@.len() == 0,
            r.manual_key@.len() == 0,
            r.focused_field == 0,
            r.insecure == false,
    {
        ConnectForm {
            server: String::new(),
            username: String::new(),
            manual_key: String::new(),
            focused_field: 0,
            insecure: false,
        }
    }
}

/// The live chat view: transcript, presence, input line and scroll state.
#[derive(Debug)]
pub struct ChatState {
    pub messages: Vec<ChatMessage>,
    pub online_users: Vec<String>,
    pub scroll_offset: usize,
    pub input: String,
    pub input_cursor: usize,
    pub username: String,
    pub server: String,
    pub show_help: bool,
    pub user_count: u32,
    pub focus_users: bool,
    pub admin_response: Option<String>,
}

impl ChatState {
    pub fn empty() -> (r: ChatState)
        ensures
            r.messages@.len() == 0,
            r.online_users@.len() == 0,
            r.scroll_offset == 0,
            r.input@.len() == 0,
            r.input_cursor == 0,
            r.username@.len() == 0,
            r.server@.len() == 0,
            r.show_help == false,
            r.user_count == 0,
            r.focus_users == false,
            r.admin_response is None,
    {
        ChatState {
            messages: Vec::new(),
            online_users: Vec::new(),
            scroll_offset: 0,
            input: String::new(),
            input_cursor: 0,
            username: String::new(),
            server: String::new(),
            show_help: false,
            user_count: 0,
            focus_users: false,
            admin_response: None,
        }
    }

    /// Scrolls `n` lines back into the transcript, saturating.
    pub fn scroll_up(&mut self, n: usize)
        ensures
            final(self).scroll_offset == if old(self).scroll_offset + n <= usize::MAX {
                (old(self).scroll_offset + n) as int
            } else {
                usize::MAX as int
            },
            same_chat_but_scroll(*old(self), *final(self)),
    {
        self.scroll_offset = self.scroll_offset.saturating_add(n);
    }

    /// Scrolls `n` lines toward the newest message, saturating at the bottom.
    pub fn scroll_down(&mut self, n: usize)
        ensures
            final(self).scroll_offset == if old(self).scroll_offset >= n {
                old(self).scroll_offset - n
            } else {
                0
            },
            same_chat_but_scroll(*old(self), *final(self)),
    {
        self.scroll_offset = self.scroll_offset.saturating_sub(n);
    }

    /// Jumps to the newest message.
    pub fn scroll_to_bottom(&mut self)
        ensures
            final(self).scroll_offset == 0,
            same_chat_but_scroll(*old(self), *final(self)),
    {
        self.scroll_offset = 0;
    }

    /// Jumps to the oldest message (the view clamps the offset).
    pub fn scroll_to_top(&mut self)
        ensures
            final(self).scroll_offset == usize::MAX,
            same_chat_but_scroll(*old(self), *final(self)),
    {
        self.scroll_offset = usize::MAX;
    }
}

/// Everything of a `ChatState` except the scroll position is unchanged.
pub open spec fn same_chat_but_scroll(a: ChatState, b: ChatState) -> bool {
    &&& a.messages == b.messages
    &&& a.online_users == b.online_users
    &&& a.input == b.input
    &&& a.input_cursor == b.input_cursor
    &&& a.username == b.username
    &&& a.server == b.server
    &&& a.show_help == b.show_help
    &&& a.user_count == b.user_count
    &&& a.focus_users == b.focus_users
    &&& a.admin_response == b.admin_response
}

/// The enrollment form: just the invite code being typed.
#[derive(Debug, Clone)]
pub struct EnrollForm {
    pub invite_code: String,
}

/// The whole application state the presentation layer renders from. Channel
/// endpoints and other live handles stay with the runtime that owns the
/// event loop; everything here is plain data.
pub struct App {
    pub screen: Screen,
    pub config: Config,
    pub profiles: Vec<ServerProfile>,
    pub selected_profile: Option<usize>,
    pub connect_form: ConnectForm,
    pub enroll_form: EnrollForm,
    pub chat: ChatState,
    pub identity: Option<Identity>,
    pub pubkey_b64: Option<String>,
    pub is_new_key: bool,
    pub tick_count: u64,
    pub splash_done: bool,
    pub status_msg: Option<String>,
    pub focus_on_profiles: bool,
    pub terminal_focused: bool,
    pub unread_count: u32,
    pub notifications_muted: bool,
}

/// Copies a profile list, element for element.
pub fn copy_profiles(v: &Vec<ServerProfile>) -> (r: Vec<ServerProfile>)
    ensures
        r@ =~= v@,
{
    let mut out: Vec<ServerProfile> = Vec::new();
    let n = v.len();
    let mut i: usize = 0;
    while i < n
        invariant
            n == v@.len(),
            i <= n,
            out@ =~= v@.take(i as int),
        decreases n - i,
    {
        let p = &v[i];
        out.push(ServerProfile { server: p.server.clone(), username: p.username.clone() });
        proof {
            assert(out@ =~= v@.take(i + 1));
        }
        i += 1;
    }
    proof {
        assert(v@.take(n as int) =~= v@);
    }
    out
}

impl App {
    /// A fresh application over a loaded configuration record: the splash
    /// screen, the connect form prefilled with the last-used connection, and
    /// the recent-profile list taken from the record.
    pub fn new(config: Config) -> (r: App)
        ensures
            r.screen is Splash,
            r.config == config,
            r.profiles@ =~= config.profiles@,
            r.selected_profile is None,
            r.connect_form.server@ == match config.last_server {
                Some(s) => s@,
                None => Seq::<char>::empty(),
            },
            r.connect_form.username@ == match config.last_username {
                Some(s) => s@,
                None => Seq::<char>::empty(),
            },
            r.connect_form.manual_key@.len() == 0,
            r.connect_form.insecure == false,
            r.enroll_form.invite_code@.len() == 0,
            r.chat.messages@.len() == 0,
            r.identity is None,
            r.pubkey_b64 is None,
            r.is_new_key == false,
            r.tick_count == 0,
            r.splash_done == false,
            r.status_msg is None,
            r.focus_on_profiles == false,
            r.terminal_focused == true,
            r.unread_count == 0,
            r.notifications_muted == false,
    {
        let profiles = copy_profiles(&config.profiles);
        let mut connect_form = ConnectForm::empty();
        connect_form.server = match &config.last_server {
            Some(s) => s.clone(),
            None => String::new(),
        };
        connect_form.username = match &config.last_username {
            Some(s) => s.clone(),
            None => String::new(),
        };
        App {
            screen: Screen::Splash,
            config,
            profiles,
            selected_profile: None,
            connect_form,
            enroll_form: EnrollForm { invite_code: String::new() },
            chat: ChatState::empty(),
            identity: None,
            pubkey_b64: None,
            is_new_key: false,
            tick_count: 0,
            splash_done: false,
            status_msg: None,
            focus_on_profiles: false,
            terminal_focused: true,
            unread_count: 0,
            notifications_muted: false,
        }
    }
}

} // verus!
