//! The fixed ready payload.
use vstd::prelude::*;

verus! {

/// The payload sent to every subscriber on connect and as the reply to a
/// successful IPC handshake.
pub fn connection_resp() -> (r: String)
    ensures
        r@ == ready_payload(),
{
    "{\"cmd\":\"DISPATCH\",\"evt\":\"READY\",\"data\":{\"v\":1,\"user\":{\"id\":\"1045800378228281345\",\"username\":\"arRPC\",\"discriminator\":\"0000\",\"avatar\":\"cfefa4d9839fb4bdf030f91c2a13e95c\",\"flags\":0,\"premium_type\":0},\"config\":{\"api_endpoint\":\"//discord.com/api\",\"cdn_host\":\"cdn.discordapp.com\",\"environment\":\"production\"}}}".to_string()
}

/// The ready payload's text.
pub open spec fn ready_payload() -> Seq<char> {
    "{\"cmd\":\"DISPATCH\",\"evt\":\"READY\",\"data\":{\"v\":1,\"user\":{\"id\":\"1045800378228281345\",\"username\":\"arRPC\",\"discriminator\":\"0000\",\"avatar\":\"cfefa4d9839fb4bdf030f91c2a13e95c\",\"flags\":0,\"premium_type\":0},\"config\":{\"api_endpoint\":\"//discord.com/api\",\"cdn_host\":\"cdn.discordapp.com\",\"environment\":\"production\"}}}"@
}

} // verus!
