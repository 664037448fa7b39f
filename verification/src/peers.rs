//! Peers as the hub holds them, and the rules by which the hub judges their
//! reachability: observed addresses, direct candidates and relay reasons.
use crate::clock::{sat_add, sat_sub, TimeUtil};
use crate::model::{
    addresses_view, duplicate_opt_string, opt_address_view, opt_str_view, AddressView,
    DirectReachabilityModeModel, NatBehaviorModel, PeerReachabilityModel, PeerRecordModel, PeerRecordView,
    ReachabilityAddressModel, ReachabilityConfidenceModel, ReachabilityScopeModel,
    ReachabilitySourceModel, ReachabilityView, TransportProtocolEnum,
};
use crate::text::{chars_of, decimal, parse_u16, parse_u16_spec, push_decimal, push_str, string_of};
use vstd::prelude::*;

verus! {

// ---------------------------------------------------------------------------
// Addresses the hub observes
// ---------------------------------------------------------------------------

/// What the standard library says of an IP address: its family and the
/// classification predicates that the hub uses.
#[derive(Debug, Clone, Copy, PartialEq, Eq, Structural)]
pub struct IpAddressFacts {
    pub is_ipv4: bool,
    pub is_loopback: bool,
    pub is_private: bool,
    pub is_link_local: bool,
    pub is_unique_local: bool,
    pub is_unicast_link_local: bool,
}

/// The address a registration came from: the IP address's text and facts.
#[derive(Debug, Clone)]
pub struct ObservedAddress {
    pub ip_text: String,
    pub facts: IpAddressFacts,
}

/// How far an address seen by the hub reaches: private, link-local and
/// loopback addresses count as the local network.
pub open spec fn observed_scope_spec(f: IpAddressFacts) -> ReachabilityScopeModel {
    if f.is_ipv4 {
        if f.is_private || f.is_link_local || f.is_loopback {
            ReachabilityScopeModel::Lan
        } else {
            ReachabilityScopeModel::Public
        }
    } else {
        if f.is_unique_local || f.is_unicast_link_local || f.is_loopback {
            ReachabilityScopeModel::Lan
        } else {
            ReachabilityScopeModel::Public
        }
    }
}

/// The scope of an address seen by the hub.
pub fn observed_scope(f: &IpAddressFacts) -> (r: ReachabilityScopeModel)
    ensures
        r == observed_scope_spec(*f),
{
    if f.is_ipv4 {
        if f.is_private || f.is_link_local || f.is_loopback {
            ReachabilityScopeModel::Lan
        } else {
            ReachabilityScopeModel::Public
        }
    } else {
        if f.is_unique_local || f.is_unicast_link_local || f.is_loopback {
            ReachabilityScopeModel::Lan
        } else {
            ReachabilityScopeModel::Public
        }
    }
}

/// The part of `s` after its last `c` (all of `s` when it holds no `c`), as
/// `str::rsplit(c).next()` gives it.
pub open spec fn after_last(s: Seq<char>, c: char) -> Seq<char>
    decreases s.len(),
{
    if s.len() == 0 {
        s
    } else if s.last() == c {
        Seq::empty()
    } else {
        after_last(s.drop_last(), c).push(s.last())
    }
}

fn after_last_vec(v: &Vec<char>, c: char) -> (r: Vec<char>)
    ensures
        r@ == after_last(v@, c),
{
    let n = v.len();
    let mut j: usize = n;
    assert(v@.take(n as int) == v@);
    while j > 0 && v[j - 1] != c
        invariant
            n == v@.len(),
            j <= n,
            after_last(v@, c) == after_last(v@.take(j as int), c) + v@.subrange(j as int, n as int),
        decreases j,
    {
        assert(v@.take(j as int).drop_last() == v@.take(j - 1));
        assert(v@.subrange(j - 1, n as int) == seq![v@[j - 1]] + v@.subrange(j as int, n as int));
        assert(after_last(v@.take(j as int), c) == after_last(v@.take(j - 1), c).push(v@[j - 1]));
        assert(after_last(v@.take(j - 1), c).push(v@[j - 1]) + v@.subrange(j as int, n as int)
            == after_last(v@.take(j - 1), c) + v@.subrange(j - 1, n as int));
        j = j - 1;
    }
    assert(after_last(v@.take(j as int), c) == Seq::<char>::empty());
    assert(after_last(v@, c) == v@.subrange(j as int, n as int));
    let mut r: Vec<char> = Vec::new();
    let mut k: usize = j;
    while k < n
        invariant
            n == v@.len(),
            j <= k <= n,
            r@ == v@.subrange(j as int, k as int),
        decreases n - k,
    {
        r.push(v[k]);
        k = k + 1;
    }
    r
}

/// The port of a peer's bind address: the number after the last `:` of its
/// base URL.
pub open spec fn bind_port_spec(r: ReachabilityView) -> Option<u16> {
    match r.bind_address {
        Some(a) => parse_u16_spec(after_last(a.base_url, ':')),
        None => None,
    }
}

/// The address under which the hub saw a peer, when the peer allows direct
/// delivery and has a bind port: the observed IP with the bind port, over TCP,
/// with low confidence.
pub open spec fn observed_candidate_spec(r: ReachabilityView, ip: Seq<char>, facts: IpAddressFacts) -> Option<AddressView> {
    if r.mode == DirectReachabilityModeModel::RelayOnly {
        None
    } else {
        match bind_port_spec(r) {
            Some(port) => Some(
                AddressView {
                    base_url: "http://"@ + ip + ":"@ + decimal(port as nat),
                    scope: observed_scope_spec(facts),
                    source: ReachabilitySourceModel::HubObserved,
                    transport_protocol: TransportProtocolEnum::DirectTcp,
                    confidence: ReachabilityConfidenceModel::Low,
                    address_hint: ip,
                },
            ),
            None => None,
        }
    }
}

/// Whether some address of `s` has base URL `u`.
pub open spec fn has_base_url(s: Seq<AddressView>, u: Seq<char>) -> bool {
    exists|i: int| 0 <= i < s.len() && (#[trigger] s[i]).base_url == u
}

fn observed_address_candidate(
    reachability: &PeerReachabilityModel,
    observed: &ObservedAddress,
) -> (r: Option<ReachabilityAddressModel>)
    ensures
        opt_address_view(r) == observed_candidate_spec(reachability@, observed.ip_text@, observed.facts),
{
    if reachability.mode == DirectReachabilityModeModel::RelayOnly {
        return None;
    }
    let bind = match &reachability.bind_address {
        Some(a) => a,
        None => return None,
    };
    let url = chars_of(bind.base_url.as_str());
    let tail = after_last_vec(&url, ':');
    let tail_text = string_of(tail.as_slice());
    let port = match parse_u16(tail_text.as_str()) {
        Some(p) => p,
        None => return None,
    };
    let mut text: Vec<char> = Vec::new();
    push_str(&mut text, "http://");
    push_str(&mut text, observed.ip_text.as_str());
    push_str(&mut text, ":");
    push_decimal(&mut text, port as u64);
    proof {
        reveal_strlit("http://");
    }
    Some(ReachabilityAddressModel {
        base_url: string_of(text.as_slice()),
        scope: observed_scope(&observed.facts),
        source: ReachabilitySourceModel::HubObserved,
        transport_protocol: TransportProtocolEnum::DirectTcp,
        confidence: ReachabilityConfidenceModel::Low,
        address_hint: observed.ip_text.clone(),
    })
}

/// A peer's reachability once the hub has added the address it saw the
/// registration come from, unless an observed address has that base URL
/// already.
pub open spec fn apply_observed_spec(r: ReachabilityView, obs: Option<(Seq<char>, IpAddressFacts)>) -> ReachabilityView {
    match obs {
        None => r,
        Some((ip, facts)) => match observed_candidate_spec(r, ip, facts) {
            Some(c) => if has_base_url(r.observed_addresses, c.base_url) {
                r
            } else {
                ReachabilityView { observed_addresses: r.observed_addresses.push(c), ..r }
            },
            None => r,
        },
    }
}

/// The view of an optional observed address.
pub open spec fn observed_view(o: Option<ObservedAddress>) -> Option<(Seq<char>, IpAddressFacts)> {
    match o {
        Some(a) => Some((a.ip_text@, a.facts)),
        None => None,
    }
}

/// Whether some address of `v` has the base URL `url`.
fn contains_base_url(v: &Vec<ReachabilityAddressModel>, url: &String) -> (r: bool)
    ensures
        r == has_base_url(addresses_view(v@), url@),
{
    let n = v.len();
    for i in 0..n
        invariant
            n == v@.len(),
            forall|j: int| 0 <= j < i ==> (#[trigger] v@[j]).base_url@ != url@,
    {
        if v[i].base_url == *url {
            assert(addresses_view(v@)[i as int].base_url == url@);
            return true;
        }
    }
    assert forall|j: int| 0 <= j < addresses_view(v@).len() implies (#[trigger] addresses_view(
        v@,
    )[j]).base_url != url@ by {
        assert(addresses_view(v@)[j] == v@[j]@);
    }
    false
}

/// Adds the address the hub saw a registration come from to the peer's
/// observed addresses.
pub fn apply_observed_reachability(
    reachability: PeerReachabilityModel,
    observed: Option<ObservedAddress>,
) -> (r: PeerReachabilityModel)
    ensures
        r@ == apply_observed_spec(reachability@, observed_view(observed)),
{
    let mut reachability = reachability;
    let observed = match observed {
        Some(o) => o,
        None => return reachability,
    };
    match observed_address_candidate(&reachability, &observed) {
        Some(candidate) => {
            if !contains_base_url(&reachability.observed_addresses, &candidate.base_url) {
                let ghost before = reachability.observed_addresses@;
                reachability.observed_addresses.push(candidate);
                assert(addresses_view(reachability.observed_addresses@) == addresses_view(before).push(
                    candidate@,
                ));
            }
        },
        None => {},
    }
    reachability
}

// ---------------------------------------------------------------------------
// Peers held by the hub
// ---------------------------------------------------------------------------

/// A registered peer and its lease, in milliseconds of the hub's monotonic
/// clock.
#[derive(Debug, Clone)]
pub struct PeerPresenceModel {
    pub peer_id: String,
    pub device_key: String,
    pub display_name: Option<String>,
    pub reachability: PeerReachabilityModel,
    pub registered_at: u64,
    pub expires_at: u64,
}

/// The view of a [`PeerPresenceModel`].
pub struct PresenceView {
    pub peer_id: Seq<char>,
    pub device_key: Seq<char>,
    pub display_name: Option<Seq<char>>,
    pub reachability: ReachabilityView,
    pub registered_at: u64,
    pub expires_at: u64,
}

impl View for PeerPresenceModel {
    type V = PresenceView;

    open spec fn view(&self) -> PresenceView {
        PresenceView {
            peer_id: self.peer_id@,
            device_key: self.device_key@,
            display_name: opt_str_view(self.display_name),
            reachability: self.reachability@,
            registered_at: self.registered_at,
            expires_at: self.expires_at,
        }
    }
}

/// The record the hub gives out for a peer when its monotonic clock reads
/// `now` and the wall clock reads `unix_now`: both times are moved onto the
/// wall clock.
pub open spec fn record_of(p: PresenceView, now: u64, unix_now: u64) -> PeerRecordView {
    PeerRecordView {
        peer_id: p.peer_id,
        device_key: p.device_key,
        display_name: p.display_name,
        reachability: p.reachability,
        registered_at_unix_ms: sat_sub(unix_now as int, sat_sub(now as int, p.registered_at as int) as int),
        expires_at_unix_ms: sat_add(unix_now as int, sat_sub(p.expires_at as int, now as int) as int),
    }
}

impl PeerPresenceModel {
    /// The record given out for this peer when the monotonic clock reads
    /// `now_ms` and the wall clock reads `unix_now_ms`.
    pub fn to_record_model(&self, now_ms: u64, unix_now_ms: u64) -> (r: PeerRecordModel)
        ensures
            r@ == record_of(self@, now_ms, unix_now_ms),
    {
        let expires_in_ms = self.expires_at.saturating_sub(now_ms);
        PeerRecordModel {
            peer_id: self.peer_id.clone(),
            device_key: self.device_key.clone(),
            display_name: duplicate_opt_string(&self.display_name),
            reachability: self.reachability.duplicate(),
            registered_at_unix_ms: TimeUtil::shifted_back(unix_now_ms, now_ms, self.registered_at),
            expires_at_unix_ms: TimeUtil::shifted_forward(unix_now_ms, expires_in_ms),
        }
    }
}

// ---------------------------------------------------------------------------
// Direct or relayed delivery
// ---------------------------------------------------------------------------

/// Whether `a` is a TCP address of scope `scope`.
pub open spec fn is_tcp_with_scope(a: AddressView, scope: ReachabilityScopeModel) -> bool {
    a.transport_protocol == TransportProtocolEnum::DirectTcp && a.scope == scope
}

/// The TCP addresses of `s` of scope `scope`, in order.
pub open spec fn scoped_tcp(s: Seq<AddressView>, scope: ReachabilityScopeModel) -> Seq<AddressView>
    decreases s.len(),
{
    if s.len() == 0 {
        s
    } else if is_tcp_with_scope(s.last(), scope) {
        scoped_tcp(s.drop_last(), scope).push(s.last())
    } else {
        scoped_tcp(s.drop_last(), scope)
    }
}

/// The local-network TCP addresses of `s` whose hint is among `hints`, in order.
pub open spec fn hinted_lan_tcp(s: Seq<AddressView>, hints: Seq<Seq<char>>) -> Seq<AddressView>
    decreases s.len(),
{
    if s.len() == 0 {
        s
    } else if is_tcp_with_scope(s.last(), ReachabilityScopeModel::Lan) && hints.contains(
        s.last().address_hint,
    ) {
        hinted_lan_tcp(s.drop_last(), hints).push(s.last())
    } else {
        hinted_lan_tcp(s.drop_last(), hints)
    }
}

/// The hints of a source peer's advertised, then observed, addresses.
pub open spec fn source_hints_spec(r: ReachabilityView) -> Seq<Seq<char>> {
    (r.advertised_addresses + r.observed_addresses).map_values(|a: AddressView| a.address_hint)
}

/// `s` without the addresses whose base URL occurs earlier in `s`.
pub open spec fn dedupe_spec(s: Seq<AddressView>) -> Seq<AddressView>
    decreases s.len(),
{
    if s.len() == 0 {
        s
    } else if has_base_url(dedupe_spec(s.drop_last()), s.last().base_url) {
        dedupe_spec(s.drop_last())
    } else {
        dedupe_spec(s.drop_last()).push(s.last())
    }
}

/// The reason given when the target has public TCP addresses.
pub open spec fn public_evidence_reason() -> Seq<char> {
    "target has externally scoped reachability evidence"@
}

/// The reason given when the peers share a local-network hint.
pub open spec fn same_network_reason() -> Seq<char> {
    "peers appear to share the same local network reachability hint"@
}

/// The direct candidates and the reason, when the hub can offer the source a
/// direct path to the target: neither is relay-only or behind a symmetric
/// NAT, the target has a message endpoint, and it advertises public TCP
/// addresses or local-network TCP addresses with a hint that the source also
/// has.
pub open spec fn select_direct_spec(s: ReachabilityView, t: ReachabilityView) -> Option<(Seq<AddressView>, Seq<char>)> {
    if s.mode == DirectReachabilityModeModel::RelayOnly || t.mode == DirectReachabilityModeModel::RelayOnly {
        None
    } else if s.nat_behavior == NatBehaviorModel::Symmetric {
        None
    } else if t.nat_behavior == NatBehaviorModel::Symmetric {
        None
    } else if scoped_tcp(t.advertised_addresses, ReachabilityScopeModel::Public).len() > 0
        && t.message_endpoint is Some {
        Some((dedupe_spec(scoped_tcp(t.advertised_addresses, ReachabilityScopeModel::Public)), public_evidence_reason()))
    } else if hinted_lan_tcp(t.advertised_addresses, source_hints_spec(s)).len() > 0
        && t.message_endpoint is Some {
        Some((dedupe_spec(hinted_lan_tcp(t.advertised_addresses, source_hints_spec(s))), same_network_reason()))
    } else {
        None
    }
}

/// The reason the hub gives for a relay decision.
pub open spec fn relay_reason_spec(s: ReachabilityView, t: ReachabilityView, prefer_direct: bool) -> Seq<char> {
    if !prefer_direct {
        "direct delivery was not requested"@
    } else if s.mode == DirectReachabilityModeModel::RelayOnly {
        "source is configured for relay-only delivery"@
    } else if t.mode == DirectReachabilityModeModel::RelayOnly {
        "target is configured for relay-only delivery"@
    } else if s.nat_behavior == NatBehaviorModel::Symmetric {
        "source is behind symmetric NAT; direct hole punching is not credible"@
    } else if t.nat_behavior == NatBehaviorModel::Symmetric {
        "target is behind symmetric NAT; direct hole punching is not credible"@
    } else if t.message_endpoint is None {
        "target has no shared message endpoint"@
    } else {
        "target has no verified public direct TCP candidate or same-LAN path"@
    }
}

fn public_tcp_candidates(v: &Vec<ReachabilityAddressModel>) -> (r: Vec<ReachabilityAddressModel>)
    ensures
        addresses_view(r@) == scoped_tcp(addresses_view(v@), ReachabilityScopeModel::Public),
{
    let mut r: Vec<ReachabilityAddressModel> = Vec::new();
    let n = v.len();
    for i in 0..n
        invariant
            n == v@.len(),
            addresses_view(r@) == scoped_tcp(addresses_view(v@).take(i as int), ReachabilityScopeModel::Public),
    {
        let ghost before = r@;
        assert(addresses_view(v@).take(i + 1).drop_last() == addresses_view(v@).take(i as int));
        assert(addresses_view(v@).take(i + 1).last() == v@[i as int]@);
        if v[i].transport_protocol == TransportProtocolEnum::DirectTcp
            && v[i].scope == ReachabilityScopeModel::Public {
            r.push(v[i].duplicate());
            assert(addresses_view(r@) == addresses_view(before).push(v@[i as int]@));
        }
    }
    assert(addresses_view(v@).take(n as int) == addresses_view(v@));
    r
}

/// Whether `hints` holds a string equal to `h`.
fn hints_contain(hints: &Vec<String>, h: &String) -> (r: bool)
    ensures
        r == hints@.map_values(|x: String| x@).contains(h@),
{
    let n = hints.len();
    for i in 0..n
        invariant
            n == hints@.len(),
            forall|j: int| 0 <= j < i ==> (#[trigger] hints@[j])@ != h@,
    {
        if hints[i] == *h {
            assert(hints@.map_values(|x: String| x@)[i as int] == h@);
            return true;
        }
    }
    false
}

fn hinted_lan_candidates(v: &Vec<ReachabilityAddressModel>, hints: &Vec<String>) -> (r: Vec<ReachabilityAddressModel>)
    ensures
        addresses_view(r@) == hinted_lan_tcp(addresses_view(v@), hints@.map_values(|x: String| x@)),
{
    let ghost hv = hints@.map_values(|x: String| x@);
    let mut r: Vec<ReachabilityAddressModel> = Vec::new();
    let n = v.len();
    for i in 0..n
        invariant
            n == v@.len(),
            hv == hints@.map_values(|x: String| x@),
            addresses_view(r@) == hinted_lan_tcp(addresses_view(v@).take(i as int), hv),
    {
        let ghost before = r@;
        assert(addresses_view(v@).take(i + 1).drop_last() == addresses_view(v@).take(i as int));
        assert(addresses_view(v@).take(i + 1).last() == v@[i as int]@);
        if v[i].transport_protocol == TransportProtocolEnum::DirectTcp
            && v[i].scope == ReachabilityScopeModel::Lan
            && hints_contain(hints, &v[i].address_hint) {
            r.push(v[i].duplicate());
            assert(addresses_view(r@) == addresses_view(before).push(v@[i as int]@));
        }
    }
    assert(addresses_view(v@).take(n as int) == addresses_view(v@));
    r
}

/// The hints of the source peer's advertised, then observed, addresses.
pub fn source_public_hints(source: &PeerPresenceModel) -> (r: Vec<String>)
    ensures
        r@.map_values(|x: String| x@) == source_hints_spec(source@.reachability),
{
    let ghost all = source@.reachability.advertised_addresses + source@.reachability.observed_addresses;
    let mut r: Vec<String> = Vec::new();
    let adv = &source.reachability.advertised_addresses;
    let obs = &source.reachability.observed_addresses;
    for i in 0..adv.len()
        invariant
            all == addresses_view(adv@) + addresses_view(obs@),
            r@.map_values(|x: String| x@) == all.take(i as int).map_values(|a: AddressView| a.address_hint),
    {
        let ghost before = r@;
        r.push(adv[i].address_hint.clone());
        assert(r@.map_values(|x: String| x@) == before.map_values(|x: String| x@).push(adv@[i as int].address_hint@));
        assert(all.take(i + 1) == all.take(i as int).push(adv@[i as int]@));
        assert(all.take(i + 1).map_values(|a: AddressView| a.address_hint) == all.take(i as int).map_values(
            |a: AddressView| a.address_hint,
        ).push(adv@[i as int].address_hint@));
    }
    let m = adv.len();
    for k in 0..obs.len()
        invariant
            m == adv@.len(),
            all == addresses_view(adv@) + addresses_view(obs@),
            r@.map_values(|x: String| x@) == all.take(m + k).map_values(|a: AddressView| a.address_hint),
    {
        let ghost before = r@;
        r.push(obs[k].address_hint.clone());
        assert(r@.map_values(|x: String| x@) == before.map_values(|x: String| x@).push(obs@[k as int].address_hint@));
        assert(all.take(m + k + 1) == all.take(m + k).push(obs@[k as int]@));
        assert(all.take(m + k + 1).map_values(|a: AddressView| a.address_hint) == all.take(m + k).map_values(
            |a: AddressView| a.address_hint,
        ).push(obs@[k as int].address_hint@));
    }
    assert(all.take(all.len() as int) == all);
    r
}

/// Keeps the first address of each base URL, in order.
pub fn dedupe_candidates(candidates: Vec<ReachabilityAddressModel>) -> (r: Vec<ReachabilityAddressModel>)
    ensures
        addresses_view(r@) == dedupe_spec(addresses_view(candidates@)),
{
    let mut unique: Vec<ReachabilityAddressModel> = Vec::new();
    let n = candidates.len();
    for i in 0..n
        invariant
            n == candidates@.len(),
            addresses_view(unique@) == dedupe_spec(addresses_view(candidates@).take(i as int)),
    {
        let ghost before = unique@;
        assert(addresses_view(candidates@).take(i + 1).drop_last() == addresses_view(candidates@).take(i as int));
        assert(addresses_view(candidates@).take(i + 1).last() == candidates@[i as int]@);
        if !contains_base_url(&unique, &candidates[i].base_url) {
            unique.push(candidates[i].duplicate());
            assert(addresses_view(unique@) == addresses_view(before).push(candidates@[i as int]@));
        }
    }
    assert(addresses_view(candidates@).take(n as int) == addresses_view(candidates@));
    unique
}

/// The candidates and reason for a direct path from `source` to `target`,
/// when the hub can offer one.
pub fn select_direct_candidates(
    source: &PeerPresenceModel,
    target: &PeerPresenceModel,
) -> (r: Option<(Vec<ReachabilityAddressModel>, String)>)
    ensures
        match r {
            Some((c, reason)) => select_direct_spec(source@.reachability, target@.reachability)
                == Some((addresses_view(c@), reason@)),
            None => select_direct_spec(source@.reachability, target@.reachability) is None,
        },
{
    if source.reachability.mode == DirectReachabilityModeModel::RelayOnly
        || target.reachability.mode == DirectReachabilityModeModel::RelayOnly {
        return None;
    }
    if source.reachability.nat_behavior == NatBehaviorModel::Symmetric {
        return None;
    }
    if target.reachability.nat_behavior == NatBehaviorModel::Symmetric {
        return None;
    }
    let public_candidates = public_tcp_candidates(&target.reachability.advertised_addresses);
    if public_candidates.len() > 0 && target.reachability.message_endpoint.is_some() {
        let reason = "target has externally scoped reachability evidence".to_owned();
        return Some((dedupe_candidates(public_candidates), reason));
    }
    let hints = source_public_hints(source);
    let same_network = hinted_lan_candidates(&target.reachability.advertised_addresses, &hints);
    if same_network.len() > 0 && target.reachability.message_endpoint.is_some() {
        let reason = "peers appear to share the same local network reachability hint".to_owned();
        return Some((dedupe_candidates(same_network), reason));
    }
    None
}

/// Why the hub chose relayed delivery.
pub fn relay_decision_reason(
    source: &PeerPresenceModel,
    target: &PeerPresenceModel,
    prefer_direct: bool,
) -> (r: String)
    ensures
        r@ == relay_reason_spec(source@.reachability, target@.reachability, prefer_direct),
{
    if !prefer_direct {
        return "direct delivery was not requested".to_owned();
    }
    if source.reachability.mode == DirectReachabilityModeModel::RelayOnly {
        return "source is configured for relay-only delivery".to_owned();
    }
    if target.reachability.mode == DirectReachabilityModeModel::RelayOnly {
        return "target is configured for relay-only delivery".to_owned();
    }
    if source.reachability.nat_behavior == NatBehaviorModel::Symmetric {
        return "source is behind symmetric NAT; direct hole punching is not credible".to_owned();
    }
    if target.reachability.nat_behavior == NatBehaviorModel::Symmetric {
        return "target is behind symmetric NAT; direct hole punching is not credible".to_owned();
    }
    if target.reachability.message_endpoint.is_none() {
        return "target has no shared message endpoint".to_owned();
    }
    "target has no verified public direct TCP candidate or same-LAN path".to_owned()
}

} // verus!
