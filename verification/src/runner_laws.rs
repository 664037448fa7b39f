//! Properties of the desktop runner's launch arguments.
use crate::cli::option_value;
use crate::runner::{args_spec, ProcessKey};
use vstd::prelude::*;

verus! {

/// The options of gateway `k`'s launch, read the way the command-line
/// program reads them: its `--id` and its `--target`.
proof fn lemma_gateway_options(k: ProcessKey, server: Seq<char>, host: Seq<char>)
    requires
        k != ProcessKey::Hub,
    ensures
        option_value(args_spec(k, server, host), "--id"@) == Some(
            if k == ProcessKey::GatewayA {
                "gateway-a"@
            } else {
                "gateway-b"@
            },
        ),
        option_value(args_spec(k, server, host), "--target"@) == Some(
            if k == ProcessKey::GatewayA {
                "gateway-b"@
            } else {
                "gateway-a"@
            },
        ),
        option_value(args_spec(k, server, host), "--peer-mode"@) == Some("gateway"@),
{
    reveal_strlit("--id");
    reveal_strlit("--target");
    reveal_strlit("--peer-mode");
    reveal_strlit("gateway-a");
    reveal_strlit("gateway-b");
    reveal_strlit("gateway");
    let a = args_spec(k, server, host);
    assert(a.len() == 10);
    assert(a[0] == "--id"@ && a[2] == "--target"@ && a[4] == "--peer-mode"@ && a[5] == "gateway"@);
    assert(a[1] == "gateway-a"@ || a[1] == "gateway-b"@);
    assert(a[3] == "gateway-a"@ || a[3] == "gateway-b"@);
    assert("--id"@.len() == 4 && "--target"@.len() == 8 && "--peer-mode"@.len() == 11);
    assert("gateway-a"@.len() == 9 && "gateway-b"@.len() == 9);
    let a1 = a.drop_first();
    let a2 = a1.drop_first();
    let a3 = a2.drop_first();
    let a4 = a3.drop_first();
    assert(a1[0] == a[1] && a1[1] == a[2]);
    assert(a2[0] == a[2] && a2[1] == a[3]);
    assert(a3[0] == a[3] && a3[1] == a[4]);
    assert(a4[0] == a[4] && a4[1] == a[5]);
    assert(a[0] != "--target"@ && a[1] != "--target"@);
    assert(a[0] != "--peer-mode"@ && a[1] != "--peer-mode"@ && a[2] != "--peer-mode"@ && a[3] != "--peer-mode"@);
    reveal_with_fuel(option_value, 5);
}

/// The two gateways are launched to talk to each other: each one's
/// `--target` is the other one's `--id`, never its own, and both run as
/// gateways, whatever hub URL and bind host the runner uses.
pub proof fn law_gateways_target_each_other(server: Seq<char>, host: Seq<char>)
    ensures
        option_value(args_spec(ProcessKey::GatewayA, server, host), "--target"@) == option_value(
            args_spec(ProcessKey::GatewayB, server, host),
            "--id"@,
        ),
        option_value(args_spec(ProcessKey::GatewayB, server, host), "--target"@) == option_value(
            args_spec(ProcessKey::GatewayA, server, host),
            "--id"@,
        ),
        option_value(args_spec(ProcessKey::GatewayA, server, host), "--target"@) != option_value(
            args_spec(ProcessKey::GatewayA, server, host),
            "--id"@,
        ),
        option_value(args_spec(ProcessKey::GatewayB, server, host), "--target"@) != option_value(
            args_spec(ProcessKey::GatewayB, server, host),
            "--id"@,
        ),
        option_value(args_spec(ProcessKey::GatewayA, server, host), "--peer-mode"@) == Some("gateway"@),
        option_value(args_spec(ProcessKey::GatewayB, server, host), "--peer-mode"@) == Some("gateway"@),
{
    lemma_gateway_options(ProcessKey::GatewayA, server, host);
    lemma_gateway_options(ProcessKey::GatewayB, server, host);
    reveal_strlit("gateway-a");
    reveal_strlit("gateway-b");
    assert("gateway-a"@[8] != "gateway-b"@[8]);
}

} // verus!
