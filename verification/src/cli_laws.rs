//! Properties of the command-line options and of the texts the library
//! writes and reads back.
use crate::cli::{chat_config_error, chat_gateway_spec, communication_mode_of, host_port_spec, option_value, peer_mode_of};
use crate::gateway::{CommunicationModeEnum, http_url, mode_name};
use crate::runtime::{PeerModeEnum, peer_mode_name};
use crate::text::{
    after_scheme_sep, all_digits, before_first, decimal, digit_char, digit_value, digits_value, is_digit,
    last_index_of, parse_u16_spec, trim_end_char,
};
use vstd::prelude::*;

verus! {

/// Every communication mode is read back from its name.
pub proof fn law_communication_mode_name_parses(m: CommunicationModeEnum)
    ensures
        communication_mode_of(mode_name(m)) == Some(m),
{
    reveal_strlit("auto");
    reveal_strlit("direct");
    reveal_strlit("relay");
    assert("auto"@ != "direct"@ && "auto"@ != "relay"@ && "direct"@ != "relay"@) by {
        assert("auto"@.len() != "direct"@.len());
        assert("auto"@[0] != "relay"@[0]);
        assert("direct"@.len() != "relay"@.len());
    }
}

/// Every peer mode is read back from its name.
pub proof fn law_peer_mode_name_parses(m: PeerModeEnum)
    ensures
        peer_mode_of(peer_mode_name(m)) == Some(m),
{
    reveal_strlit("both");
    reveal_strlit("hub");
    reveal_strlit("gateway");
    assert("both"@ != "hub"@ && "both"@ != "gateway"@ && "hub"@ != "gateway"@) by {
        assert("both"@.len() != "hub"@.len());
        assert("both"@.len() != "gateway"@.len());
        assert("hub"@.len() != "gateway"@.len());
    }
}

proof fn lemma_digit_char(d: nat)
    requires
        d < 10,
    ensures
        is_digit(digit_char(d)),
        digit_value(digit_char(d)) == d,
{
}

proof fn lemma_decimal_digits(n: nat)
    ensures
        decimal(n).len() > 0,
        all_digits(decimal(n)),
        digits_value(decimal(n)) == n,
        forall|i: int| 0 <= i < decimal(n).len() ==> (#[trigger] decimal(n)[i]) != '/' && decimal(n)[i] != ':'
            && decimal(n)[i] != '+',
    decreases n,
{
    if n < 10 {
        lemma_digit_char(n);
        let s = decimal(n);
        assert(s == seq![digit_char(n)]);
        assert(s.drop_last() =~= Seq::<char>::empty());
        assert(digits_value(s.drop_last()) == 0);
        assert(digits_value(s) == digits_value(s.drop_last()) * 10 + digit_value(s.last()));
    } else {
        lemma_decimal_digits(n / 10);
        lemma_digit_char(n % 10);
        let s = decimal(n);
        assert(s == decimal(n / 10).push(digit_char(n % 10)));
        assert(s.drop_last() == decimal(n / 10));
        assert(digits_value(s) == digits_value(s.drop_last()) * 10 + digit_value(s.last()));
        assert(n == (n / 10) * 10 + n % 10);
        assert forall|i: int| 0 <= i < s.len() implies is_digit(#[trigger] s[i]) by {
            if i < s.len() - 1 {
                assert(s[i] == decimal(n / 10)[i]);
            }
        }
        assert forall|i: int| 0 <= i < s.len() implies (#[trigger] s[i]) != '/' && s[i] != ':' && s[i] != '+' by {
            if i < s.len() - 1 {
                assert(s[i] == decimal(n / 10)[i]);
            }
        }
    }
}

/// The decimal notation of a sixteen-bit number is read back as that
/// number.
pub proof fn law_decimal_parses(n: u16)
    ensures
        parse_u16_spec(decimal(n as nat)) == Some(n),
{
    lemma_decimal_digits(n as nat);
}

/// Removing trailing slashes twice removes no more than once.
pub proof fn law_trim_end_idempotent(s: Seq<char>, c: char)
    ensures
        trim_end_char(trim_end_char(s, c), c) == trim_end_char(s, c),
    decreases s.len(),
{
    if s.len() > 0 && s.last() == c {
        law_trim_end_idempotent(s.drop_last(), c);
    }
}

proof fn lemma_before_first_none(s: Seq<char>, c: char)
    requires
        forall|i: int| 0 <= i < s.len() ==> s[i] != c,
    ensures
        before_first(s, c) == s,
    decreases s.len(),
{
    if s.len() > 0 {
        lemma_before_first_none(s.drop_first(), c);
        assert(s == seq![s[0]] + s.drop_first());
    }
}

proof fn lemma_last_index_after(a: Seq<char>, b: Seq<char>, c: char)
    requires
        forall|i: int| 0 <= i < b.len() ==> b[i] != c,
    ensures
        last_index_of(a + seq![c] + b, c) == Some(a.len() as int),
    decreases b.len(),
{
    if b.len() == 0 {
        assert(a + seq![c] + b == a.push(c));
    } else {
        lemma_last_index_after(a, b.drop_last(), c);
        assert((a + seq![c] + b).drop_last() == a + seq![c] + b.drop_last());
    }
}

/// The server URL `http://host:port` of a host without slashes is read
/// back as that host and port.
pub proof fn law_http_url_host_port(host: Seq<char>, port: u16)
    requires
        forall|i: int| 0 <= i < host.len() ==> host[i] != '/',
    ensures
        host_port_spec(http_url(host, port)) == Ok::<(Seq<char>, u16), Seq<char>>((host, port)),
{
    reveal_strlit("http://");
    reveal_strlit(":");
    let d = decimal(port as nat);
    lemma_decimal_digits(port as nat);
    let url = http_url(host, port);
    let rest = host + seq![':'] + d;
    assert(url =~= seq!['h', 't', 't', 'p'] + (seq![':', '/', '/'] + rest));
    assert(after_scheme_sep(url) == Some(rest)) by {
        let u1 = url.drop_first();
        let u2 = u1.drop_first();
        let u3 = u2.drop_first();
        let u4 = u3.drop_first();
        assert(url[0] == 'h');
        assert(after_scheme_sep(url) == after_scheme_sep(u1));
        assert(u1[0] == 't');
        assert(after_scheme_sep(u1) == after_scheme_sep(u2));
        assert(u2[0] == 't');
        assert(after_scheme_sep(u2) == after_scheme_sep(u3));
        assert(u3[0] == 'p');
        assert(after_scheme_sep(u3) == after_scheme_sep(u4));
        assert(u4 =~= seq![':', '/', '/'] + rest);
        assert(u4[0] == ':' && u4[1] == '/' && u4[2] == '/');
        assert(u4.subrange(3, u4.len() as int) =~= rest);
    }
    assert forall|i: int| 0 <= i < rest.len() implies rest[i] != '/' by {
        if i < host.len() {
            assert(rest[i] == host[i]);
        } else if i > host.len() {
            assert(rest[i] == d[i - host.len() - 1]);
        }
    }
    lemma_before_first_none(rest, '/');
    lemma_last_index_after(host, d, ':');
    assert(rest.subrange(host.len() as int + 1, rest.len() as int) =~= d);
    assert(rest.subrange(0, host.len() as int) =~= host);
}

/// Every peer runs a gateway, a hub, or both.
pub proof fn law_every_peer_runs_something(m: PeerModeEnum)
    ensures
        m.runs_gateway() || m.runs_hub(),
{
}

/// The chat program runs in the communication mode that its first
/// `--communication-mode` option names; a name that is no mode's is
/// refused, and when nothing else is wrong with the options, with the
/// invalid-mode message.
pub proof fn law_chat_communication_mode(a: Seq<Seq<char>>, default_host: Seq<char>, root: Seq<char>, v: Seq<char>)
    requires
        option_value(a, "--communication-mode"@) == Some(v),
    ensures
        forall|m: CommunicationModeEnum|
            v == #[trigger] mode_name(m) && chat_config_error(a) is None ==> chat_gateway_spec(
                a,
                default_host,
                root,
            ).communication_mode == m,
        (forall|m: CommunicationModeEnum| v != #[trigger] mode_name(m)) ==> chat_config_error(a) is Some,
        (forall|m: CommunicationModeEnum| v != #[trigger] mode_name(m)) && option_value(a, "--id"@) is Some
            && option_value(a, "--target"@) is Some && option_value(a, "--peer-mode"@) is None && option_value(
            a,
            "--port"@,
        ) is None && option_value(a, "--heartbeat-interval-secs"@) is None ==> chat_config_error(a) == Some(
            "invalid --communication-mode value: "@ + v + " (expected 'auto', 'direct', or 'relay')"@,
        ),
{
    assert forall|m: CommunicationModeEnum|
        v == #[trigger] mode_name(m) && chat_config_error(a) is None implies chat_gateway_spec(
            a,
            default_host,
            root,
        ).communication_mode == m by {
        law_communication_mode_name_parses(m);
    }
    if forall|m: CommunicationModeEnum| v != #[trigger] mode_name(m) {
        assert(v != mode_name(CommunicationModeEnum::Auto));
        assert(v != mode_name(CommunicationModeEnum::Direct));
        assert(v != mode_name(CommunicationModeEnum::RelayOnly));
        assert(communication_mode_of(v) is None);
        law_peer_mode_name_parses(PeerModeEnum::Gateway);
        assert(peer_mode_of("gateway"@) == Some(PeerModeEnum::Gateway));
    }
}

} // verus!
