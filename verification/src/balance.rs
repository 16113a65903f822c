//! The balance aggregator's merge step. The driver queries every registered
//! chain concurrently and hands back one positional outcome per chain, in
//! registry order; the merge keeps the successful non-zero entries, in that
//! same order, so the reply text is deterministic however the queries raced.
//! A per-chain failure is excluded and never fails the aggregate as a whole.

use vstd::prelude::*;
use crate::chain::{Chain, name_spec, native_token_spec};
use crate::text::{append_chars, append_str_chars, dec_str, join_with, money_str, money_chars,
    u64_dec_chars};

verus! {

/// One chain's successful balance query: the native amount in display units
/// and, where the chain carries the stablecoin, the stablecoin amount in
/// cents. Amounts are integers; zero-detection never goes through floating
/// point.
#[derive(Clone, Copy, Debug)]
pub struct ChainBalance {
    pub chain: Chain,
    pub native: u64,
    pub usdc_cents: Option<u64>,
}

/// A balance worth reporting: native or stablecoin strictly non-zero.
pub open spec fn nonzero(b: ChainBalance) -> bool {
    b.native != 0 || (b.usdc_cents is Some && b.usdc_cents->0 != 0)
}

/// The merge: keep every successful non-zero entry, in input (registry)
/// order; drop failures and all-zero entries.
pub open spec fn aggregate_spec(rs: Seq<Option<ChainBalance>>) -> Seq<ChainBalance>
    decreases rs.len(),
{
    if rs.len() == 0 {
        Seq::empty()
    } else {
        aggregate_spec(rs.drop_last()) + match rs.last() {
            Some(b) => if nonzero(b) {
                seq![b]
            } else {
                Seq::empty()
            },
            None => Seq::empty(),
        }
    }
}

/// Merge the per-chain outcomes (one per registered chain, positionally, in
/// registry order) into the ordered sequence of non-zero results.
pub fn aggregate(results: &Vec<Option<ChainBalance>>) -> (out: Vec<ChainBalance>)
    ensures
        out@ == aggregate_spec(results@),
{
    let mut out: Vec<ChainBalance> = Vec::new();
    let mut i: usize = 0;
    while i < results.len()
        invariant
            i <= results@.len(),
            out@ == aggregate_spec(results@.take(i as int)),
        decreases results@.len() - i,
    {
        proof {
            assert(results@.take(i + 1).drop_last() =~= results@.take(i as int));
            assert(results@.take(i + 1).last() == results@[i as int]);
        }
        match &results[i] {
            Some(b) => {
                let keep = b.native != 0 || match b.usdc_cents {
                    Some(u) => u != 0,
                    None => false,
                };
                if keep {
                    out.push(*b);
                }
            },
            None => {},
        }
        i += 1;
    }
    proof {
        assert(results@.take(results@.len() as int) =~= results@);
    }
    out
}

/// Fault tolerance: a chain whose query failed contributes nothing — the
/// merge of the outcomes equals the merge with that chain removed, and the
/// aggregate call itself never fails.
pub proof fn lemma_aggregate_failure_excluded(rs: Seq<Option<ChainBalance>>, j: int)
    requires
        0 <= j < rs.len(),
        rs[j] is None,
    ensures
        aggregate_spec(rs) == aggregate_spec(rs.remove(j)),
    decreases rs.len(),
{
    if j == rs.len() - 1 {
        assert(rs.remove(j) =~= rs.drop_last());
    } else {
        assert(rs.remove(j).drop_last() =~= rs.drop_last().remove(j));
        assert(rs.remove(j).last() == rs.last());
        lemma_aggregate_failure_excluded(rs.drop_last(), j);
    }
}

/// Every reported entry is a non-zero entry that some chain actually
/// returned: the aggregator invents nothing and reports no zero balances.
pub proof fn lemma_aggregate_members(rs: Seq<Option<ChainBalance>>)
    ensures
        forall|k: int|
            0 <= k < aggregate_spec(rs).len() ==> nonzero(#[trigger] aggregate_spec(rs)[k])
                && rs.contains(Some(aggregate_spec(rs)[k])),
    decreases rs.len(),
{
    if rs.len() > 0 {
        lemma_aggregate_members(rs.drop_last());
        assert forall|k: int| 0 <= k < aggregate_spec(rs).len() implies nonzero(
            #[trigger] aggregate_spec(rs)[k],
        ) && rs.contains(Some(aggregate_spec(rs)[k])) by {
            let pre = aggregate_spec(rs.drop_last());
            if k < pre.len() {
                assert(aggregate_spec(rs)[k] == pre[k]);
                let i = choose|i: int|
                    0 <= i < rs.drop_last().len() && rs.drop_last()[i] == Some(pre[k]);
                assert(rs[i] == Some(pre[k]));
            } else {
                assert(aggregate_spec(rs)[k] == rs.last()->0);
                assert(rs[rs.len() - 1] == Some(aggregate_spec(rs)[k]));
            }
        }
    }
}

/// A successful non-zero entry is reported.
pub proof fn lemma_aggregate_member_index(rs: Seq<Option<ChainBalance>>, i: int)
    requires
        0 <= i < rs.len(),
        rs[i] is Some,
        nonzero(rs[i]->0),
    ensures
        exists|k: int|
            0 <= k < aggregate_spec(rs).len() && #[trigger] aggregate_spec(rs)[k] == rs[i]->0,
    decreases rs.len(),
{
    let pre = aggregate_spec(rs.drop_last());
    if i == rs.len() - 1 {
        assert(aggregate_spec(rs)[pre.len() as int] == rs[i]->0);
    } else {
        assert(rs.drop_last()[i] == rs[i]);
        lemma_aggregate_member_index(rs.drop_last(), i);
        let k = choose|k: int| 0 <= k < pre.len() && #[trigger] pre[k] == rs[i]->0;
        assert(aggregate_spec(rs)[k] == rs[i]->0);
    }
}

/// Registry order is kept: two successful non-zero entries are reported in
/// the order of their chains, never in arrival order.
pub proof fn lemma_aggregate_keeps_order(rs: Seq<Option<ChainBalance>>, i: int, j: int)
    requires
        0 <= i < j < rs.len(),
        rs[i] is Some,
        nonzero(rs[i]->0),
        rs[j] is Some,
        nonzero(rs[j]->0),
    ensures
        exists|k1: int, k2: int|
            0 <= k1 < k2 < aggregate_spec(rs).len() && #[trigger] aggregate_spec(rs)[k1]
                == rs[i]->0 && #[trigger] aggregate_spec(rs)[k2] == rs[j]->0,
    decreases rs.len(),
{
    let pre = aggregate_spec(rs.drop_last());
    if j == rs.len() - 1 {
        assert(rs.drop_last()[i] == rs[i]);
        lemma_aggregate_member_index(rs.drop_last(), i);
        let k1 = choose|k: int| 0 <= k < pre.len() && #[trigger] pre[k] == rs[i]->0;
        let k2 = pre.len() as int;
        assert(aggregate_spec(rs)[k1] == rs[i]->0);
        assert(aggregate_spec(rs)[k2] == rs[j]->0);
        assert(0 <= k1 < k2 < aggregate_spec(rs).len());
    } else {
        assert(rs.drop_last()[i] == rs[i]);
        assert(rs.drop_last()[j] == rs[j]);
        lemma_aggregate_keeps_order(rs.drop_last(), i, j);
        let (k1, k2) = choose|k1: int, k2: int|
            0 <= k1 < k2 < pre.len() && #[trigger] pre[k1] == rs[i]->0
                && #[trigger] pre[k2] == rs[j]->0;
        assert(aggregate_spec(rs)[k1] == rs[i]->0);
        assert(aggregate_spec(rs)[k2] == rs[j]->0);
    }
}

/// One reply line for one chain's balance.
pub open spec fn balance_line_spec(b: ChainBalance) -> Seq<char> {
    name_spec(b.chain) + ": "@ + dec_str(b.native as int) + " "@ + native_token_spec(b.chain)
        + match b.usdc_cents {
        Some(c) => " / "@ + money_str(c as int) + " USDC"@,
        None => Seq::empty(),
    }
}

/// The lines of the balance reply, one per reported chain.
pub open spec fn balance_lines_spec(bs: Seq<ChainBalance>) -> Seq<char> {
    join_with(bs.map_values(|b: ChainBalance| balance_line_spec(b)), seq!['\n'])
}

/// Render one chain's balance as a reply line.
pub fn balance_line(b: &ChainBalance) -> (out: Vec<char>)
    ensures
        out@ == balance_line_spec(*b),
{
    let mut out: Vec<char> = Vec::new();
    let name = b.chain.name();
    append_str_chars(&mut out, name.as_str());
    append_str_chars(&mut out, ": ");
    let native = u64_dec_chars(b.native);
    append_chars(&mut out, &native);
    append_str_chars(&mut out, " ");
    let sym = b.chain.native_token();
    append_str_chars(&mut out, sym.as_str());
    match b.usdc_cents {
        Some(c) => {
            append_str_chars(&mut out, " / ");
            let m = money_chars(c);
            append_chars(&mut out, &m);
            append_str_chars(&mut out, " USDC");
        },
        None => {},
    }
    out
}

/// Render the reported balances, one line per chain, in registry order.
pub fn balance_lines(bs: &Vec<ChainBalance>) -> (out: Vec<char>)
    ensures
        out@ == balance_lines_spec(bs@),
{
    let ghost lines = bs@.map_values(|b: ChainBalance| balance_line_spec(b));
    let mut out: Vec<char> = Vec::new();
    let mut i: usize = 0;
    while i < bs.len()
        invariant
            i <= bs@.len(),
            lines == bs@.map_values(|b: ChainBalance| balance_line_spec(b)),
            lines.len() == bs@.len(),
            out@ == join_with(lines.take(i as int), seq!['\n']),
        decreases bs@.len() - i,
    {
        proof {
            assert(lines.take(i + 1).drop_last() =~= lines.take(i as int));
            assert(lines.take(i + 1).last() == lines[i as int]);
        }
        if i > 0 {
            out.push('\n');
        }
        let line = balance_line(&bs[i]);
        append_chars(&mut out, &line);
        proof {
            if i == 0 {
                assert(out@ =~= join_with(lines.take(1), seq!['\n']));
            }
        }
        i += 1;
    }
    proof {
        assert(lines.take(lines.len() as int) =~= lines);
    }
    out
}

} // verus!
