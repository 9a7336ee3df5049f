use vstd::prelude::*;
use crate::error::TradeError;
use crate::orders::CancelOrderData;

verus! {

/// How long placed orders are left working before they are cancelled.
pub const HOLD_SECONDS: u64 = 86400;

/// Pause after a cancellation before the next cycle starts.
pub const COOLDOWN_SECONDS: u64 = 60;

/// The symbols traded each cycle.
pub open spec fn traded_symbols() -> Seq<Seq<char>> {
    seq!["BEAMUSDT"@, "SEIUSDT"@, "AGIXUSDT"@]
}

pub fn symbols() -> (r: Vec<String>)
    ensures
        r@.map_values(|s: String| s@) == traded_symbols(),
{
    let r = vec![String::from_str("BEAMUSDT"), String::from_str("SEIUSDT"), String::from_str("AGIXUSDT")];
    assert(r@.map_values(|s: String| s@) =~= traded_symbols());
    r
}

/// The (symbol, price) pairs of the fetches that succeeded, in order.
pub open spec fn fetched_prices(results: Seq<Result<(String, String), TradeError>>) -> Seq<(Seq<char>, Seq<char>)>
    decreases results.len(),
{
    if results.len() == 0 {
        seq![]
    } else {
        let rest = fetched_prices(results.drop_last());
        match results.last() {
            Ok(pair) => rest.push((pair.0@, pair.1@)),
            Err(_) => rest,
        }
    }
}

/// Keeps the fetches that succeeded; a failed symbol sits this cycle out.
pub fn tradable_prices(results: &Vec<Result<(String, String), TradeError>>) -> (r: Vec<(String, String)>)
    ensures
        r@.map_values(|p: (String, String)| (p.0@, p.1@)) == fetched_prices(results@),
{
    let mut out: Vec<(String, String)> = Vec::new();
    let mut i: usize = 0;
    while i < results.len()
        invariant
            i <= results@.len(),
            out@.map_values(|p: (String, String)| (p.0@, p.1@)) == fetched_prices(results@.take(i as int)),
        decreases results@.len() - i,
    {
        assert(results@.take(i + 1).drop_last() =~= results@.take(i as int));
        match &results[i] {
            Ok(pair) => {
                let symbol = pair.0.clone();
                let price = pair.1.clone();
                let ghost before = out@;
                out.push((symbol, price));
                assert(out@.map_values(|p: (String, String)| (p.0@, p.1@)) =~= before.map_values(
                    |p: (String, String)| (p.0@, p.1@),
                ).push((pair.0@, pair.1@)));
            },
            Err(_) => {},
        }
        i = i + 1;
    }
    assert(results@.take(results@.len() as int) =~= results@);
    out
}

/// Adds the records of one placement to the cycle's cancel batch.
pub fn append_records(batch: &mut Vec<CancelOrderData>, placed: Vec<CancelOrderData>)
    ensures
        final(batch)@ == old(batch)@ + placed@,
{
    let mut placed = placed;
    batch.append(&mut placed);
}

/// Where a cycle stands.
#[derive(Clone, Copy, Debug, PartialEq, Eq, Structural)]
pub enum CyclePhase {
    /// Prices are to be fetched and the ladders placed.
    Placing,
    /// Orders are working; the holding period runs.
    Active,
    /// The holding period is over; what was placed is to be cancelled.
    Cancelling,
    /// Cancellation is done; the cooldown runs before the next cycle.
    Settling,
}

/// What the runner does next.
#[derive(Clone, Copy, Debug, PartialEq, Eq, Structural)]
pub enum CycleAction {
    /// Fetch every symbol's price and place a ladder for each that came back.
    FetchAndPlace,
    /// Sleep this many seconds.
    Sleep(u64),
    /// Cancel every order of the cycle's batch.
    CancelBatch,
    /// Nothing to do in this phase.
    Skip,
}

/// One step of the cycle: the action for `phase` and the phase after it.
pub open spec fn cycle_step_of(phase: CyclePhase, pending: nat) -> (CycleAction, CyclePhase) {
    match phase {
        CyclePhase::Placing => (CycleAction::FetchAndPlace, CyclePhase::Active),
        CyclePhase::Active => (CycleAction::Sleep(HOLD_SECONDS), CyclePhase::Cancelling),
        CyclePhase::Cancelling => (
            if pending > 0 { CycleAction::CancelBatch } else { CycleAction::Skip },
            CyclePhase::Settling,
        ),
        CyclePhase::Settling => (CycleAction::Sleep(COOLDOWN_SECONDS), CyclePhase::Placing),
    }
}

/// Decides the next action from the phase and the orders still to cancel.
/// The holding period ends on time whatever has filled, and the next cycle
/// always follows the cooldown.
pub fn cycle_step(phase: CyclePhase, pending: &Vec<CancelOrderData>) -> (r: (CycleAction, CyclePhase))
    ensures
        r == cycle_step_of(phase, pending@.len()),
{
    match phase {
        CyclePhase::Placing => (CycleAction::FetchAndPlace, CyclePhase::Active),
        CyclePhase::Active => (CycleAction::Sleep(HOLD_SECONDS), CyclePhase::Cancelling),
        CyclePhase::Cancelling => (
            if should_cancel(pending) { CycleAction::CancelBatch } else { CycleAction::Skip },
            CyclePhase::Settling,
        ),
        CyclePhase::Settling => (CycleAction::Sleep(COOLDOWN_SECONDS), CyclePhase::Placing),
    }
}

/// A cancellation is sent only when the cycle placed something.
pub fn should_cancel(batch: &Vec<CancelOrderData>) -> (r: bool)
    ensures
        r == (batch@.len() > 0),
{
    batch.len() > 0
}

} // verus!
