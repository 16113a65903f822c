use sms_request_handler::balance::{aggregate, ChainBalance};
use sms_request_handler::chain::Chain;
use sms_request_handler::executor::{CallResult, Machine, Step};
use sms_request_handler::parser::CommandProcessor;

fn bal(chain: Chain, native: u64, usdc_cents: Option<u64>) -> ChainBalance {
    ChainBalance { chain, native, usdc_cents }
}

fn reply_text(step: Step) -> String {
    match step {
        Step::Reply(t) => t,
        Step::Ask(_, _) => panic!("expected a reply, got a collaborator call"),
    }
}

#[test]
fn aggregator_is_deterministic_in_registry_order() {
    // Registry order [A, B, C]; only B is non-zero. Whatever order the
    // underlying queries finished in, the outcomes are positional, so the
    // merge depends on nothing but this vector.
    let results = vec![
        Some(bal(Chain::Polygon, 0, Some(0))),
        Some(bal(Chain::Base, 7, None)),
        Some(bal(Chain::Eth, 0, None)),
    ];
    let out = aggregate(&results);
    assert_eq!(out.len(), 1);
    assert!(matches!(out[0].chain, Chain::Base));
    assert_eq!(out[0].native, 7);
    // Running the same merge again gives the same answer.
    let out2 = aggregate(&results);
    assert_eq!(out2.len(), 1);
    assert!(matches!(out2[0].chain, Chain::Base));
}

#[test]
fn aggregator_tolerates_one_provider_fault() {
    // C's query failed; A and B succeeded non-zero. The call does not fail
    // and A/B are still reported, in registry order.
    let results = vec![
        Some(bal(Chain::Polygon, 3, None)),
        Some(bal(Chain::Base, 0, Some(250))),
        None,
    ];
    let out = aggregate(&results);
    assert_eq!(out.len(), 2);
    assert!(matches!(out[0].chain, Chain::Polygon));
    assert!(matches!(out[1].chain, Chain::Base));
}

#[test]
fn aggregator_keeps_usdc_only_entries() {
    let results = vec![Some(bal(Chain::Eth, 0, Some(1)))];
    let out = aggregate(&results);
    assert_eq!(out.len(), 1);
    assert_eq!(out[0].usdc_cents, Some(1));
}

#[test]
fn balance_reply_renders_lines_in_registry_order() {
    let p = CommandProcessor::with_repos(true, true, true, true);
    let results = vec![
        Some(bal(Chain::Polygon, 5, Some(1234))),
        None,
        Some(bal(Chain::Eth, 0, Some(0))),
        Some(bal(Chain::Arb, 2, None)),
    ];
    let step = p.resume(Machine::BalanceAwaitQueries, CallResult::QueryAllBalances(results));
    assert_eq!(
        reply_text(step),
        "Balances:\nPolygon Amoy: 5 MATIC / $12.34 USDC\nArbitrum: 2 ETH\n\nReply DEPOSIT for address."
    );
}

#[test]
fn empty_aggregate_means_no_funds_not_an_error() {
    let p = CommandProcessor::with_repos(true, true, true, true);
    let results = vec![None, None, None, None];
    let step = p.resume(Machine::BalanceAwaitQueries, CallResult::QueryAllBalances(results));
    assert_eq!(reply_text(step), "Balance: $0.00\n\nReply DEPOSIT to fund wallet.");
}

#[test]
fn chain_registry_resolution() {
    assert!(matches!(Chain::from_input("polygon"), Some(Chain::Polygon)));
    assert!(matches!(Chain::from_input("PoLyGoN"), Some(Chain::Polygon)));
    assert!(matches!(Chain::from_input("base"), Some(Chain::Base)));
    assert!(matches!(Chain::from_input("eth"), Some(Chain::Eth)));
    assert!(matches!(Chain::from_input("arb"), Some(Chain::Arb)));
    assert!(Chain::from_input("poly").is_none());
    assert!(Chain::from_input("").is_none());
    let all = Chain::list_all();
    assert_eq!(all.len(), 4);
    assert!(matches!(all[0], Chain::Polygon));
    assert!(matches!(all[3], Chain::Arb));
    assert_eq!(Chain::Eth.chain_id(), 1);
    assert_eq!(Chain::Polygon.native_token(), "MATIC");
    assert_eq!(Chain::Arb.name(), "Arbitrum");
}
