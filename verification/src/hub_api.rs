//! The hub's answers to its HTTP and UDP requests, and a gateway's reading
//! of those answers.
use crate::hub::{
    ApiErrorModel, BAD_REQUEST, ErrorView, HubView, ServerStateModel, check_register_request, heartbeat_spec,
    is_blank, lookup_spec, opt_record, peer_offline_error, peer_offline_message, prune_spec,
    register_view, registered_presence, upsert_peer,
};
use crate::model::{
    DiscoveryProbeRequestModel, DiscoveryProbeResponseModel, HeartbeatRequestModel, PeerLookupResponseModel,
    RegisterPeerRequestModel, RegisterPeerResponseModel, TransportProtocolEnum,
};
use crate::peers::{ObservedAddress, observed_view, record_of};
use crate::text::{concat, concat3, str_eq};
use vstd::prelude::*;

verus! {

impl ServerStateModel {
    /// The answer to a registration that came from `observed`: a request
    /// whose peer identifier or device key is blank is refused and changes
    /// nothing; otherwise the peer is registered now and its record is
    /// returned with the lease in whole seconds.
    pub fn answer_register(&mut self, request: RegisterPeerRequestModel, observed: Option<ObservedAddress>) -> (r: Result<RegisterPeerResponseModel, ApiErrorModel>)
        requires
            old(self).wf(),
        ensures
            final(self).wf(),
            is_blank(request.peer_id@) ==> final(self)@ == old(self)@ && (r matches Err(e) && e@ == (ErrorView {
                status: BAD_REQUEST,
                message: "peer_id must not be empty"@,
            })),
            !is_blank(request.peer_id@) && is_blank(request.device_key@) ==> final(self)@ == old(self)@ && (r matches Err(e)
                && e@ == (ErrorView { status: BAD_REQUEST, message: "device_key must not be empty"@ })),
            !is_blank(request.peer_id@) && !is_blank(request.device_key@) ==> (r matches Ok(resp) && {
                &&& resp.lease_seconds == old(self).presence_lease_ms / 1000
                &&& exists|now: u64, unix_now: u64| {
                    &&& final(self)@ == (HubView {
                        peers: upsert_peer(
                            old(self)@.peers,
                            registered_presence(old(self)@, register_view(request), observed_view(observed), now),
                        ),
                        ..old(self)@
                    })
                    &&& resp.peer@ == record_of(
                        registered_presence(old(self)@, register_view(request), observed_view(observed), now),
                        now,
                        unix_now,
                    )
                }
            }),
    {
        match check_register_request(&request) {
            Err(e) => Err(e),
            Ok(()) => {
                let lease_seconds = self.lease_seconds();
                let peer = self.register_peer(request, observed);
                Ok(RegisterPeerResponseModel { lease_seconds, peer })
            },
        }
    }

    /// The answer to a heartbeat: the refreshed record with the lease in
    /// whole seconds, or "not found" for a peer that is not registered.
    pub fn answer_heartbeat(&mut self, request: HeartbeatRequestModel) -> (r: Result<RegisterPeerResponseModel, ApiErrorModel>)
        requires
            old(self).wf(),
        ensures
            final(self).wf(),
            exists|now: u64, unix_now: u64|
                #![trigger opt_record(heartbeat_spec(old(self)@, request.peer_id@, now).1, now, unix_now)]
            {
                &&& final(self)@ == heartbeat_spec(old(self)@, request.peer_id@, now).0
                &&& match r {
                    Ok(resp) => resp.lease_seconds == old(self).presence_lease_ms / 1000 && Some(resp.peer@) == opt_record(
                        heartbeat_spec(old(self)@, request.peer_id@, now).1,
                        now,
                        unix_now,
                    ),
                    Err(e) => heartbeat_spec(old(self)@, request.peer_id@, now).1 is None && e@ == (ErrorView {
                        status: crate::hub::NOT_FOUND,
                        message: peer_offline_message(request.peer_id@),
                    }),
                }
            },
    {
        let lease_seconds = self.lease_seconds();
        match self.heartbeat(request.peer_id.as_str()) {
            Some(peer) => Ok(RegisterPeerResponseModel { lease_seconds, peer }),
            None => Err(peer_offline_error(request.peer_id.as_str())),
        }
    }

    /// The answer to a lookup: the record of a registered peer, or "not
    /// found".
    pub fn answer_lookup(&mut self, peer_id: &str) -> (r: Result<PeerLookupResponseModel, ApiErrorModel>)
        requires
            old(self).wf(),
        ensures
            final(self).wf(),
            exists|now: u64, unix_now: u64|
                #![trigger opt_record(lookup_spec(old(self)@, peer_id@, now), now, unix_now)]
            {
                &&& final(self)@ == prune_spec(old(self)@, now)
                &&& match r {
                    Ok(found) => Some(found.peer@) == opt_record(lookup_spec(old(self)@, peer_id@, now), now, unix_now),
                    Err(e) => lookup_spec(old(self)@, peer_id@, now) is None && e@ == (ErrorView {
                        status: crate::hub::NOT_FOUND,
                        message: peer_offline_message(peer_id@),
                    }),
                }
            },
    {
        match self.lookup_peer(peer_id) {
            Some(peer) => Ok(PeerLookupResponseModel { peer }),
            None => Err(peer_offline_error(peer_id)),
        }
    }
}

/// The hub's answer to a discovery probe seen from `observed_addr`: the
/// probe's transaction, the address, and the UDP transport.
pub fn discovery_answer(request: DiscoveryProbeRequestModel, observed_addr: String) -> (r: DiscoveryProbeResponseModel)
    ensures
        r.transaction_id@ == request.transaction_id@,
        r.observed_addr@ == observed_addr@,
        r.transport_protocol == TransportProtocolEnum::DirectUdp,
{
    DiscoveryProbeResponseModel {
        transaction_id: request.transaction_id,
        observed_addr,
        transport_protocol: TransportProtocolEnum::DirectUdp,
    }
}

/// Whether the answer to the probe with `transaction_id` is for that probe.
pub fn check_probe_response(transaction_id: &str, response: &DiscoveryProbeResponseModel) -> (r: Result<(), String>)
    ensures
        match r {
            Ok(_) => response.transaction_id@ == transaction_id@,
            Err(e) => response.transaction_id@ != transaction_id@ && e@ == "UDP discovery response transaction mismatch"@,
        },
{
    if str_eq(response.transaction_id.as_str(), transaction_id) {
        Ok(())
    } else {
        Err("UDP discovery response transaction mismatch".to_owned())
    }
}

/// The error for an unsuccessful HTTP answer with status `status` (as it is
/// shown, such as `404 Not Found`) and `body`.
pub fn http_error_message(status: &str, body: &str) -> (r: String)
    ensures
        r@ == if body@.len() == 0 {
            "HTTP "@ + status@
        } else {
            "HTTP "@ + status@ + ": "@ + body@
        },
{
    if crate::text::chars_of(body).len() == 0 {
        concat("HTTP ", status)
    } else {
        let head = concat3("HTTP ", status, ": ");
        concat(head.as_str(), body)
    }
}

} // verus!
