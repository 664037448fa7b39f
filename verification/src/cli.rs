//! The command-line chat program's logic: reading its options, deriving
//! the hub to run from the server URL, and reading what is typed at its
//! prompt.
use crate::gateway::{
    CommunicationModeEnum, GatewayConfigView, GatewayRuntimeConfig, default_port_for_peer, default_port_spec,
    default_runtime_storage_dir, display_name_for_peer, display_name_spec, join_path, join_path_spec, mode_name,
};
use crate::gateway_state::UiEventModel;
use crate::hub::{is_white_space, white_space};
use crate::model::opt_str_view;
use crate::runtime::{
    GatewayRuntimeInfoModel, HubRuntimeInfoModel, DEFAULT_CLEANUP_INTERVAL_SECS, DEFAULT_PRESENCE_LEASE_SECS, DEFAULT_RELAY_SESSION_TIMEOUT_SECS,
    HubRuntimeConfig, PeerModeEnum, PeerRuntimeConfig, peer_mode_name,
};
use crate::text::{
    after_scheme_sep, before_first, chars_of, decimal, eq_ignore_ascii_case, eq_ignore_ascii_case_spec, find_last,
    last_index_of, parse_u16, parse_u16_spec, parse_u64, parse_u64_spec, push_decimal, push_str, slice_of,
    split_after_scheme, str_eq, string_of, take_before,
};
use vstd::prelude::*;

verus! {

/// The bind host the chat program assumes when none is given and none is
/// detected.
pub const DEFAULT_HOST: &'static str = "127.0.0.1";

/// The hub the chat program talks to by default.
pub const DEFAULT_SERVER_BASE_URL: &'static str = "http://127.0.0.1:8080";

/// The heartbeat interval of the chat program by default.
pub const DEFAULT_CHAT_HEARTBEAT_INTERVAL_SECS: u64 = 10;

/// The communication mode of the chat program by default.
pub const DEFAULT_COMMUNICATION_MODE: &'static str = "auto";

// ---------------------------------------------------------------------------
// Options
// ---------------------------------------------------------------------------

/// The character sequences of a list of arguments.
pub open spec fn args_view(args: Seq<String>) -> Seq<Seq<char>> {
    args.map_values(|s: String| s@)
}

/// The value after the first occurrence of `name` among `args`; none when
/// `name` does not occur or is the last argument.
pub open spec fn option_value(args: Seq<Seq<char>>, name: Seq<char>) -> Option<Seq<char>>
    decreases args.len(),
{
    if args.len() == 0 {
        None
    } else if args[0] == name {
        if args.len() > 1 {
            Some(args[1])
        } else {
            None
        }
    } else {
        option_value(args.drop_first(), name)
    }
}

/// The value of an option, or `d` when it is absent.
pub open spec fn or_default(o: Option<Seq<char>>, d: Seq<char>) -> Seq<char> {
    match o {
        Some(v) => v,
        None => d,
    }
}

/// The value after the first occurrence of `name` among `args`.
pub fn optional_option(args: &Vec<String>, name: &str) -> (r: Option<String>)
    ensures
        opt_str_view(r) == option_value(args_view(args@), name@),
{
    let n = args.len();
    let mut i: usize = 0;
    assert(args_view(args@).skip(0) == args_view(args@));
    while i < n
        invariant
            n == args@.len(),
            i <= n,
            option_value(args_view(args@).skip(i as int), name@) == option_value(args_view(args@), name@),
        decreases n - i,
    {
        let ghost rest = args_view(args@).skip(i as int);
        assert(rest[0] == args@[i as int]@);
        if str_eq(args[i].as_str(), name) {
            if i + 1 < n {
                assert(rest[1] == args@[i + 1]@);
                return Some(args[i + 1].clone());
            }
            return None;
        }
        assert(args_view(args@).skip(i + 1) == rest.drop_first());
        i = i + 1;
    }
    None
}

/// The message for a missing required option.
pub open spec fn required_message(name: Seq<char>) -> Seq<char> {
    name + " is required"@
}

/// The value after the first occurrence of `name` among `args`, which must
/// be there.
pub fn required_option(args: &Vec<String>, name: &str) -> (r: Result<String, String>)
    ensures
        match r {
            Ok(v) => option_value(args_view(args@), name@) == Some(v@),
            Err(e) => option_value(args_view(args@), name@) is None && e@ == required_message(name@),
        },
{
    match optional_option(args, name) {
        Some(v) => Ok(v),
        None => {
            let mut m: Vec<char> = Vec::new();
            push_str(&mut m, name);
            push_str(&mut m, " is required");
            Err(string_of(m.as_slice()))
        },
    }
}

/// The communication mode a name stands for.
pub open spec fn communication_mode_of(v: Seq<char>) -> Option<CommunicationModeEnum> {
    if v == "auto"@ {
        Some(CommunicationModeEnum::Auto)
    } else if v == "direct"@ {
        Some(CommunicationModeEnum::Direct)
    } else if v == "relay"@ {
        Some(CommunicationModeEnum::RelayOnly)
    } else {
        None
    }
}

/// The message for an unknown communication mode.
pub open spec fn communication_mode_message(v: Seq<char>) -> Seq<char> {
    "invalid --communication-mode value: "@ + v + " (expected 'auto', 'direct', or 'relay')"@
}

/// The communication mode named `value`.
pub fn parse_communication_mode(value: &str) -> (r: Result<CommunicationModeEnum, String>)
    ensures
        match r {
            Ok(m) => communication_mode_of(value@) == Some(m),
            Err(e) => communication_mode_of(value@) is None && e@ == communication_mode_message(value@),
        },
{
    if str_eq(value, "auto") {
        Ok(CommunicationModeEnum::Auto)
    } else if str_eq(value, "direct") {
        Ok(CommunicationModeEnum::Direct)
    } else if str_eq(value, "relay") {
        Ok(CommunicationModeEnum::RelayOnly)
    } else {
        let mut m: Vec<char> = Vec::new();
        push_str(&mut m, "invalid --communication-mode value: ");
        push_str(&mut m, value);
        push_str(&mut m, " (expected 'auto', 'direct', or 'relay')");
        Err(string_of(m.as_slice()))
    }
}

/// The peer mode a name stands for.
pub open spec fn peer_mode_of(v: Seq<char>) -> Option<PeerModeEnum> {
    if v == "both"@ {
        Some(PeerModeEnum::Both)
    } else if v == "hub"@ {
        Some(PeerModeEnum::Hub)
    } else if v == "gateway"@ {
        Some(PeerModeEnum::Gateway)
    } else {
        None
    }
}

/// The message for an unknown peer mode.
pub open spec fn peer_mode_message(v: Seq<char>) -> Seq<char> {
    "invalid --peer-mode value: "@ + v + " (expected 'both', 'hub', or 'gateway')"@
}

/// The peer mode named `value`.
pub fn parse_peer_mode(value: &str) -> (r: Result<PeerModeEnum, String>)
    ensures
        match r {
            Ok(m) => peer_mode_of(value@) == Some(m),
            Err(e) => peer_mode_of(value@) is None && e@ == peer_mode_message(value@),
        },
{
    if str_eq(value, "both") {
        Ok(PeerModeEnum::Both)
    } else if str_eq(value, "hub") {
        Ok(PeerModeEnum::Hub)
    } else if str_eq(value, "gateway") {
        Ok(PeerModeEnum::Gateway)
    } else {
        let mut m: Vec<char> = Vec::new();
        push_str(&mut m, "invalid --peer-mode value: ");
        push_str(&mut m, value);
        push_str(&mut m, " (expected 'both', 'hub', or 'gateway')");
        Err(string_of(m.as_slice()))
    }
}

// ---------------------------------------------------------------------------
// The hub derived from the server URL
// ---------------------------------------------------------------------------

/// The authority of a URL: what follows the scheme's `://`, if any, up to
/// the first `/`.
pub open spec fn authority_of(url: Seq<char>) -> Seq<char> {
    before_first(
        match after_scheme_sep(url) {
            Some(rest) => rest,
            None => url,
        },
        '/',
    )
}

/// The host and port of a URL's authority, split at its last `:`; or why
/// there are none.
pub open spec fn host_port_spec(url: Seq<char>) -> Result<(Seq<char>, u16), Seq<char>> {
    let a = authority_of(url);
    match last_index_of(a, ':') {
        None => Err("server URL must include a port: "@ + url),
        Some(k) => match parse_u16_spec(a.subrange(k + 1, a.len() as int)) {
            Some(p) => Ok((a.subrange(0, k), p)),
            None => Err("invalid server port in URL: "@ + url),
        },
    }
}

/// The host and port of `url`.
pub fn host_and_port_from_url(url: &str) -> (r: Result<(String, u16), String>)
    ensures
        match r {
            Ok((h, p)) => host_port_spec(url@) == Ok::<(Seq<char>, u16), Seq<char>>((h@, p)),
            Err(e) => host_port_spec(url@) == Err::<(Seq<char>, u16), Seq<char>>(e@),
        },
{
    let all = chars_of(url);
    let rest = match split_after_scheme(&all) {
        Some(r) => r,
        None => all,
    };
    let authority = take_before(&rest, '/');
    match find_last(&authority, ':') {
        None => {
            let mut m: Vec<char> = Vec::new();
            push_str(&mut m, "server URL must include a port: ");
            push_str(&mut m, url);
            Err(string_of(m.as_slice()))
        },
        Some(k) => {
            let len = authority.len();
            assert(k < len);
            let port_chars = slice_of(&authority, k + 1, len);
            let port_text = string_of(port_chars.as_slice());
            match parse_u16(port_text.as_str()) {
                Some(p) => {
                    let host = slice_of(&authority, 0, k);
                    Ok((string_of(host.as_slice()), p))
                },
                None => {
                    let mut m: Vec<char> = Vec::new();
                    push_str(&mut m, "invalid server port in URL: ");
                    push_str(&mut m, url);
                    Err(string_of(m.as_slice()))
                },
            }
        },
    }
}

/// The host a peer's hub binds to: the loopback host of the server URL
/// stays, any other becomes the wildcard address.
pub open spec fn hub_bind_host(host: Seq<char>) -> Seq<char> {
    if host == "127.0.0.1"@ || eq_ignore_ascii_case_spec(host, "localhost"@) {
        host
    } else {
        "0.0.0.0"@
    }
}

/// Whether `c` is the hub configuration for a server URL with host `h` and
/// port `p`.
pub open spec fn hub_config_for(c: HubRuntimeConfig, h: Seq<char>, p: u16) -> bool {
    &&& c.bind_addr@ == hub_bind_host(h) + ":"@ + decimal(p as nat)
    &&& c.discovery_udp_bind_addr@ == hub_bind_host(h) + ":3478"@
    &&& c.presence_lease_secs == DEFAULT_PRESENCE_LEASE_SECS
    &&& c.cleanup_interval_secs == DEFAULT_CLEANUP_INTERVAL_SECS
    &&& c.relay_session_timeout_secs == DEFAULT_RELAY_SESSION_TIMEOUT_SECS
}

/// The hub a peer runs for the server URL `server_base_url`: bound to its
/// port, with discovery on port 3478, on the URL's host when it is
/// loopback and on all interfaces otherwise; other settings as by default.
pub fn hub_runtime_config(server_base_url: &str) -> (r: Result<HubRuntimeConfig, String>)
    ensures
        match r {
            Ok(c) => host_port_spec(server_base_url@) matches Ok((h, p)) && hub_config_for(c, h, p),
            Err(e) => host_port_spec(server_base_url@) == Err::<(Seq<char>, u16), Seq<char>>(e@),
        },
{
    let (host, port) = host_and_port_from_url(server_base_url)?;
    let bind_host = if str_eq(host.as_str(), "127.0.0.1") || eq_ignore_ascii_case(host.as_str(), "localhost") {
        host
    } else {
        "0.0.0.0".to_owned()
    };
    let mut b: Vec<char> = Vec::new();
    push_str(&mut b, bind_host.as_str());
    push_str(&mut b, ":");
    push_decimal(&mut b, port as u64);
    let mut d: Vec<char> = Vec::new();
    push_str(&mut d, bind_host.as_str());
    push_str(&mut d, ":3478");
    let defaults = HubRuntimeConfig::default();
    Ok(HubRuntimeConfig {
        bind_addr: string_of(b.as_slice()),
        discovery_udp_bind_addr: string_of(d.as_slice()),
        presence_lease_secs: defaults.presence_lease_secs,
        cleanup_interval_secs: defaults.cleanup_interval_secs,
        relay_session_timeout_secs: defaults.relay_session_timeout_secs,
    })
}

// ---------------------------------------------------------------------------
// The chat program's configuration
// ---------------------------------------------------------------------------

/// What the chat program runs, and the file of its inbox.
#[derive(Debug, Clone)]
pub struct ChatConfig {
    pub runtime: PeerRuntimeConfig,
    pub inbox_file: String,
}

/// The peer mode's name given in options `a`, `gateway` by default.
pub open spec fn chat_mode_text(a: Seq<Seq<char>>) -> Seq<char> {
    or_default(option_value(a, "--peer-mode"@), "gateway"@)
}

/// The communication mode's name given in options `a`, `auto` by default.
pub open spec fn chat_comm_text(a: Seq<Seq<char>>) -> Seq<char> {
    or_default(option_value(a, "--communication-mode"@), DEFAULT_COMMUNICATION_MODE@)
}

/// The server URL given in options `a`, or the default one.
pub open spec fn chat_server(a: Seq<Seq<char>>) -> Seq<char> {
    or_default(option_value(a, "--server"@), DEFAULT_SERVER_BASE_URL@)
}

/// The complaint about a numeric option's value `o` that `parses` rejects.
pub open spec fn number_error(o: Option<Seq<char>>, parses: bool, name: Seq<char>) -> Option<Seq<char>> {
    match o {
        Some(v) => if parses {
            None
        } else {
            Some("invalid "@ + name + " value: "@ + v)
        },
        None => None,
    }
}

/// Whether an optional port option parses.
pub open spec fn port_parses(o: Option<Seq<char>>) -> bool {
    match o {
        Some(v) => parse_u16_spec(v) is Some,
        None => true,
    }
}

/// Whether an optional heartbeat option parses.
pub open spec fn interval_parses(o: Option<Seq<char>>) -> bool {
    match o {
        Some(v) => parse_u64_spec(v) is Some,
        None => true,
    }
}

/// Why options `a` make no chat configuration, the first reason in the
/// order the options are read; none when they make one.
pub open spec fn chat_config_error(a: Seq<Seq<char>>) -> Option<Seq<char>> {
    if option_value(a, "--id"@) is None {
        Some(required_message("--id"@))
    } else if peer_mode_of(chat_mode_text(a)) is None {
        Some(peer_mode_message(chat_mode_text(a)))
    } else if option_value(a, "--target"@) is None && peer_mode_of(chat_mode_text(a)) != Some(PeerModeEnum::Hub) {
        Some("--target is required unless --peer-mode hub is used"@)
    } else if !port_parses(option_value(a, "--port"@)) {
        number_error(option_value(a, "--port"@), false, "--port"@)
    } else if !interval_parses(option_value(a, "--heartbeat-interval-secs"@)) {
        number_error(option_value(a, "--heartbeat-interval-secs"@), false, "--heartbeat-interval-secs"@)
    } else if communication_mode_of(chat_comm_text(a)) is None {
        Some(communication_mode_message(chat_comm_text(a)))
    } else {
        match host_port_spec(chat_server(a)) {
            Err(e) => Some(e),
            Ok(_) => None,
        }
    }
}

/// The storage directory of peer `id` under `root`.
pub open spec fn chat_storage_dir(root: Seq<char>, id: Seq<char>) -> Seq<char> {
    join_path_spec(join_path_spec(root, "peers"@), id)
}

/// The gateway configuration that options `a` make, when they make one;
/// `default_host` is the bind host when none is given.
pub open spec fn chat_gateway_spec(a: Seq<Seq<char>>, default_host: Seq<char>, root: Seq<char>) -> GatewayConfigView {
    let id = option_value(a, "--id"@)->0;
    GatewayConfigView {
        peer_id: id,
        device_key: or_default(option_value(a, "--device-key"@), "device-key-"@ + id),
        display_name: Some(or_default(option_value(a, "--display-name"@), display_name_spec(id))),
        target_peer_id: or_default(option_value(a, "--target"@), id),
        server_base_url: chat_server(a),
        direct_bind_host: or_default(option_value(a, "--host"@), default_host),
        direct_bind_port: match option_value(a, "--port"@) {
            Some(v) => parse_u16_spec(v)->0,
            None => default_port_spec(id),
        },
        communication_mode: communication_mode_of(chat_comm_text(a))->0,
        heartbeat_interval_secs: match option_value(a, "--heartbeat-interval-secs"@) {
            Some(v) => parse_u64_spec(v)->0,
            None => DEFAULT_CHAT_HEARTBEAT_INTERVAL_SECS,
        },
        storage_dir: chat_storage_dir(root, id),
    }
}

fn number_message(name: &str, value: &str) -> (r: String)
    ensures
        r@ == "invalid "@ + name@ + " value: "@ + value@,
{
    let mut m: Vec<char> = Vec::new();
    push_str(&mut m, "invalid ");
    push_str(&mut m, name);
    push_str(&mut m, " value: ");
    push_str(&mut m, value);
    string_of(m.as_slice())
}

/// The chat program's configuration from its options `args`; the bind host
/// is `default_host` when none is given, and peers keep their files under
/// `runtime_root`.
pub fn parse_chat_config(args: &Vec<String>, default_host: &str, runtime_root: &str) -> (r: Result<ChatConfig, String>)
    ensures
        match r {
            Ok(c) => {
                &&& chat_config_error(args_view(args@)) is None
                &&& c.runtime.peer_mode == peer_mode_of(chat_mode_text(args_view(args@)))->0
                &&& c.runtime.gateway@ == chat_gateway_spec(args_view(args@), default_host@, runtime_root@)
                &&& host_port_spec(chat_server(args_view(args@))) matches Ok((h, p)) && hub_config_for(c.runtime.hub, h, p)
                &&& c.inbox_file@ == join_path_spec(
                    chat_storage_dir(runtime_root@, option_value(args_view(args@), "--id"@)->0),
                    "inbox.jsonl"@,
                )
            },
            Err(e) => chat_config_error(args_view(args@)) == Some(e@),
        },
{
    let ghost a = args_view(args@);
    let peer_id = required_option(args, "--id")?;
    let mode_text = match optional_option(args, "--peer-mode") {
        Some(v) => v,
        None => "gateway".to_owned(),
    };
    let peer_mode = parse_peer_mode(mode_text.as_str())?;
    let target_peer_id = match optional_option(args, "--target") {
        Some(t) => t,
        None => {
            if peer_mode.runs_gateway() {
                return Err("--target is required unless --peer-mode hub is used".to_owned());
            }
            peer_id.clone()
        },
    };
    let host = match optional_option(args, "--host") {
        Some(h) => h,
        None => default_host.to_owned(),
    };
    let port = match optional_option(args, "--port") {
        Some(v) => match parse_u16(v.as_str()) {
            Some(p) => p,
            None => {
                return Err(number_message("--port", v.as_str()));
            },
        },
        None => default_port_for_peer(peer_id.as_str()),
    };
    let server_base_url = match optional_option(args, "--server") {
        Some(v) => v,
        None => DEFAULT_SERVER_BASE_URL.to_owned(),
    };
    let communication_mode_text = match optional_option(args, "--communication-mode") {
        Some(v) => v,
        None => DEFAULT_COMMUNICATION_MODE.to_owned(),
    };
    let heartbeat_interval_secs = match optional_option(args, "--heartbeat-interval-secs") {
        Some(v) => match parse_u64(v.as_str()) {
            Some(n) => n,
            None => {
                return Err(number_message("--heartbeat-interval-secs", v.as_str()));
            },
        },
        None => DEFAULT_CHAT_HEARTBEAT_INTERVAL_SECS,
    };
    let device_key = match optional_option(args, "--device-key") {
        Some(v) => v,
        None => {
            let mut m: Vec<char> = Vec::new();
            push_str(&mut m, "device-key-");
            push_str(&mut m, peer_id.as_str());
            string_of(m.as_slice())
        },
    };
    let display_name = match optional_option(args, "--display-name") {
        Some(v) => Some(v),
        None => Some(display_name_for_peer(peer_id.as_str())),
    };
    let storage_dir = default_runtime_storage_dir(runtime_root, peer_id.as_str());
    let inbox_file = join_path(storage_dir.as_str(), "inbox.jsonl");
    let communication_mode = parse_communication_mode(communication_mode_text.as_str())?;
    let hub = hub_runtime_config(server_base_url.as_str())?;
    Ok(ChatConfig {
        runtime: PeerRuntimeConfig {
            peer_mode,
            gateway: GatewayRuntimeConfig {
                peer_id,
                device_key,
                display_name,
                target_peer_id,
                server_base_url,
                direct_bind_host: host,
                direct_bind_port: port,
                communication_mode,
                heartbeat_interval_secs,
                storage_dir,
            },
            hub,
        },
        inbox_file,
    })
}

// ---------------------------------------------------------------------------
// The prompt
// ---------------------------------------------------------------------------

/// `s` without leading white space.
pub open spec fn trim_start_ws(s: Seq<char>) -> Seq<char>
    decreases s.len(),
{
    if s.len() > 0 && is_white_space(s[0]) {
        trim_start_ws(s.drop_first())
    } else {
        s
    }
}

/// `s` without trailing white space.
pub open spec fn trim_end_ws(s: Seq<char>) -> Seq<char>
    decreases s.len(),
{
    if s.len() > 0 && is_white_space(s.last()) {
        trim_end_ws(s.drop_last())
    } else {
        s
    }
}

/// `s` without leading and trailing white space (`str::trim`).
pub open spec fn trim_ws(s: Seq<char>) -> Seq<char> {
    trim_end_ws(trim_start_ws(s))
}

/// The characters of `v` without trailing white space.
pub(crate) fn trim_end_chars(v: &mut Vec<char>)
    ensures
        final(v)@ == trim_end_ws(old(v)@),
{
    while v.len() > 0 && white_space(v[v.len() - 1])
        invariant
            trim_end_ws(v@) == trim_end_ws(old(v)@),
        decreases v.len(),
    {
        let ghost before = v@;
        v.pop();
        assert(v@ == before.drop_last());
    }
}

/// `s` without leading and trailing white space.
pub fn trim(s: &str) -> (r: String)
    ensures
        r@ == trim_ws(s@),
{
    let cs = chars_of(s);
    let n = cs.len();
    let mut i: usize = 0;
    assert(cs@.subrange(0, n as int) == cs@);
    while i < n && white_space(cs[i])
        invariant
            n == cs@.len(),
            i <= n,
            trim_start_ws(cs@.subrange(i as int, n as int)) == trim_start_ws(cs@),
        decreases n - i,
    {
        assert(cs@.subrange(i + 1, n as int) == cs@.subrange(i as int, n as int).drop_first());
        i = i + 1;
    }
    let mut rest = slice_of(&cs, i, n);
    trim_end_chars(&mut rest);
    string_of(rest.as_slice())
}

/// What a line typed at the chat prompt asks for.
#[derive(Debug, Clone, PartialEq, Eq)]
pub enum ChatCommand {
    /// Nothing: the line was blank.
    Nothing,
    /// Leave the program.
    Quit,
    /// Look the target peer up.
    Lookup,
    /// Ask the hub how to reach the target peer.
    Connect,
    /// Show the inbox.
    Inbox,
    /// Show the runtime's status.
    Status,
    /// Send the text to the target peer.
    Send { message: String },
}

/// What a typed line asks for: after trimming, a blank line asks nothing,
/// the commands `/quit` (or `/exit`), `/lookup`, `/connect`, `/inbox` and
/// `/status` ask for themselves, and any other text is a message.
pub open spec fn chat_command_spec(line: Seq<char>) -> ChatCommandView {
    let t = trim_ws(line);
    if t.len() == 0 {
        ChatCommandView::Nothing
    } else if t == "/quit"@ || t == "/exit"@ {
        ChatCommandView::Quit
    } else if t == "/lookup"@ {
        ChatCommandView::Lookup
    } else if t == "/connect"@ {
        ChatCommandView::Connect
    } else if t == "/inbox"@ {
        ChatCommandView::Inbox
    } else if t == "/status"@ {
        ChatCommandView::Status
    } else {
        ChatCommandView::Send { message: t }
    }
}

/// The view of a [`ChatCommand`].
pub enum ChatCommandView {
    Nothing,
    Quit,
    Lookup,
    Connect,
    Inbox,
    Status,
    Send { message: Seq<char> },
}

impl View for ChatCommand {
    type V = ChatCommandView;

    open spec fn view(&self) -> ChatCommandView {
        match self {
            ChatCommand::Nothing => ChatCommandView::Nothing,
            ChatCommand::Quit => ChatCommandView::Quit,
            ChatCommand::Lookup => ChatCommandView::Lookup,
            ChatCommand::Connect => ChatCommandView::Connect,
            ChatCommand::Inbox => ChatCommandView::Inbox,
            ChatCommand::Status => ChatCommandView::Status,
            ChatCommand::Send { message } => ChatCommandView::Send { message: message@ },
        }
    }
}

/// What the typed `line` asks for.
pub fn parse_chat_command(line: &str) -> (r: ChatCommand)
    ensures
        r@ == chat_command_spec(line@),
{
    let t = trim(line);
    let ts = t.as_str();
    proof {
        reveal_strlit("/quit");
        reveal_strlit("/exit");
        reveal_strlit("/lookup");
        reveal_strlit("/connect");
        reveal_strlit("/inbox");
        reveal_strlit("/status");
    }
    if chars_of(ts).len() == 0 {
        ChatCommand::Nothing
    } else if str_eq(ts, "/quit") || str_eq(ts, "/exit") {
        ChatCommand::Quit
    } else if str_eq(ts, "/lookup") {
        ChatCommand::Lookup
    } else if str_eq(ts, "/connect") {
        ChatCommand::Connect
    } else if str_eq(ts, "/inbox") {
        ChatCommand::Inbox
    } else if str_eq(ts, "/status") {
        ChatCommand::Status
    } else {
        ChatCommand::Send { message: t }
    }
}

/// The line printed when an event tells of a received message.
pub open spec fn inbox_notice_spec(e: crate::gateway_state::EventView) -> Option<Seq<char>> {
    if e.kind == "message_received"@ {
        Some("[inbox @ "@ + decimal(e.created_at_unix_ms as nat) + "] "@ + e.message)
    } else {
        None
    }
}

/// The line the chat program prints for `event`: only received messages
/// are shown.
pub fn inbox_notice(event: &UiEventModel) -> (r: Option<String>)
    ensures
        opt_str_view(r) == inbox_notice_spec(event@),
{
    if !str_eq(event.kind.as_str(), "message_received") {
        return None;
    }
    let mut m: Vec<char> = Vec::new();
    push_str(&mut m, "[inbox @ ");
    push_decimal(&mut m, event.created_at_unix_ms);
    push_str(&mut m, "] ");
    push_str(&mut m, event.message.as_str());
    Some(string_of(m.as_slice()))
}

// ---------------------------------------------------------------------------
// What the program prints on start
// ---------------------------------------------------------------------------

/// The name the chat program shows for its peer.
pub open spec fn shown_name(c: GatewayConfigView) -> Seq<char> {
    or_default(c.display_name, c.peer_id)
}

/// The lines the chat program prints once its runtime is up: who it is, how
/// it talks, where it listens, a warning when it advertises the loopback
/// host, and how to use the prompt.
pub open spec fn chat_banner_spec(
    c: GatewayConfigView,
    peer_mode: PeerModeEnum,
    server_base_url: Seq<char>,
    direct_endpoint: Seq<char>,
    hub: Option<(Seq<char>, Seq<char>)>,
) -> Seq<Seq<char>> {
    let head = seq![
        "Starting "@ + shown_name(c),
        "Peer mode: "@ + peer_mode_name(peer_mode),
        "Server: "@ + server_base_url,
        "Communication mode: "@ + mode_name(c.communication_mode),
        "Direct TCP endpoint: "@ + direct_endpoint,
    ];
    let hub_lines = match hub {
        Some((bind, discovery)) => seq!["Hub HTTP bind: "@ + bind, "Hub UDP discovery bind: "@ + discovery],
        None => Seq::<Seq<char>>::empty(),
    };
    let warning = if c.communication_mode != CommunicationModeEnum::RelayOnly && c.direct_bind_host == DEFAULT_HOST@ {
        seq![
            "Warning: advertising 127.0.0.1. This only works for same-device tests. Use --host <your LAN IP> for phone or cross-device messaging."@,
        ]
    } else {
        Seq::<Seq<char>>::empty()
    };
    head + hub_lines + warning + seq![
        shown_name(c) + " registered and ready."@,
        "Type a message and press Enter to send it to "@ + c.target_peer_id + "."@,
        "Commands: /lookup, /connect, /inbox, /status, /quit"@,
    ]
}

/// The view of an optional hub's addresses.
pub open spec fn hub_addresses(h: Option<HubRuntimeInfoModel>) -> Option<(Seq<char>, Seq<char>)> {
    match h {
        Some(i) => Some((i.bind_addr@, i.discovery_udp_bind_addr@)),
        None => None,
    }
}

/// The character sequences of a list of lines.
pub open spec fn lines_view(v: Seq<String>) -> Seq<Seq<char>> {
    v.map_values(|s: String| s@)
}

fn push_line(lines: &mut Vec<String>, a: &str, b: &str)
    ensures
        lines_view(final(lines)@) == lines_view(old(lines)@).push(a@ + b@),
{
    let mut m: Vec<char> = Vec::new();
    push_str(&mut m, a);
    push_str(&mut m, b);
    let ghost before = lines@;
    lines.push(string_of(m.as_slice()));
    assert(lines_view(lines@) =~= lines_view(before).push(a@ + b@));
}

/// The lines the chat program with `config` prints once its runtime is up,
/// given where its gateway and, if it runs one, its hub are.
pub fn chat_banner(config: &ChatConfig, gateway: &GatewayRuntimeInfoModel, hub: &Option<HubRuntimeInfoModel>) -> (r: Vec<String>)
    ensures
        lines_view(r@) == chat_banner_spec(
            config.runtime.gateway@,
            config.runtime.peer_mode,
            gateway.server_base_url@,
            gateway.direct_base_url@ + gateway.message_endpoint@,
            hub_addresses(*hub),
        ),
{
    let g = &config.runtime.gateway;
    let name: &str = match &g.display_name {
        Some(n) => n.as_str(),
        None => g.peer_id.as_str(),
    };
    let endpoint = {
        let mut m: Vec<char> = Vec::new();
        push_str(&mut m, gateway.direct_base_url.as_str());
        push_str(&mut m, gateway.message_endpoint.as_str());
        string_of(m.as_slice())
    };
    let mut lines: Vec<String> = Vec::new();
    assert(lines_view(lines@) =~= Seq::<Seq<char>>::empty());
    push_line(&mut lines, "Starting ", name);
    push_line(&mut lines, "Peer mode: ", config.runtime.peer_mode.as_str());
    push_line(&mut lines, "Server: ", gateway.server_base_url.as_str());
    push_line(&mut lines, "Communication mode: ", g.communication_mode.as_str());
    push_line(&mut lines, "Direct TCP endpoint: ", endpoint.as_str());
    match hub {
        Some(h) => {
            push_line(&mut lines, "Hub HTTP bind: ", h.bind_addr.as_str());
            push_line(&mut lines, "Hub UDP discovery bind: ", h.discovery_udp_bind_addr.as_str());
        },
        None => {},
    }
    if g.communication_mode.supports_direct_advertisement() && str_eq(g.direct_bind_host.as_str(), DEFAULT_HOST) {
        push_line(
            &mut lines,
            "Warning: advertising 127.0.0.1. This only works for same-device tests. Use --host <your LAN IP> for phone or cross-device messaging.",
            "",
        );
        proof {
            reveal_strlit("");
            assert(
                "Warning: advertising 127.0.0.1. This only works for same-device tests. Use --host <your LAN IP> for phone or cross-device messaging."@ + ""@
                    =~= "Warning: advertising 127.0.0.1. This only works for same-device tests. Use --host <your LAN IP> for phone or cross-device messaging."@
            );
        }
    }
    push_line(&mut lines, name, " registered and ready.");
    let mut m: Vec<char> = Vec::new();
    push_str(&mut m, "Type a message and press Enter to send it to ");
    push_str(&mut m, g.target_peer_id.as_str());
    push_str(&mut m, ".");
    let ghost before = lines@;
    lines.push(string_of(m.as_slice()));
    assert(lines_view(lines@) =~= lines_view(before).push(lines@.last()@));
    let ghost before2 = lines@;
    lines.push("Commands: /lookup, /connect, /inbox, /status, /quit".to_owned());
    assert(lines_view(lines@) =~= lines_view(before2).push(lines@.last()@));
    assert(lines_view(lines@) =~= chat_banner_spec(
        config.runtime.gateway@,
        config.runtime.peer_mode,
        gateway.server_base_url@,
        gateway.direct_base_url@ + gateway.message_endpoint@,
        hub_addresses(*hub),
    ));
    lines
}

/// The lines a peer that runs only a hub prints once it is up.
pub fn hub_banner(peer_mode: &str, hub: &HubRuntimeInfoModel) -> (r: Vec<String>)
    ensures
        lines_view(r@) == seq![
            "Peer mode: "@ + peer_mode@,
            "Hub HTTP bind: "@ + hub.bind_addr@,
            "Hub UDP discovery bind: "@ + hub.discovery_udp_bind_addr@,
            "Hub is running. Press Ctrl-C to stop."@,
        ],
{
    let mut lines: Vec<String> = Vec::new();
    assert(lines_view(lines@) =~= Seq::<Seq<char>>::empty());
    push_line(&mut lines, "Peer mode: ", peer_mode);
    push_line(&mut lines, "Hub HTTP bind: ", hub.bind_addr.as_str());
    push_line(&mut lines, "Hub UDP discovery bind: ", hub.discovery_udp_bind_addr.as_str());
    let ghost before = lines@;
    lines.push("Hub is running. Press Ctrl-C to stop.".to_owned());
    assert(lines_view(lines@) =~= lines_view(before).push("Hub is running. Press Ctrl-C to stop."@));
    lines
}

} // verus!
