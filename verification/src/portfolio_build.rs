//! The admission checks of a portfolio build: the runtime's native models, the
//! one real point-in-time forward dataset, distinct members, an all-in cost
//! source, per-asset costs and liquidity, and the job's de-duplicated inputs.
use vstd::prelude::*;
use crate::error::{DomainError, StoreError};
use crate::ids::{DbCounter, DecimalValue, Id, UtcTime};
use crate::native::RuntimeInput;
use crate::release::{all_real, all_real_sources};
use crate::text::same_text;

verus! {

/// One native engine version a runtime reports.
#[derive(Clone, Debug)]
pub struct EngineVersion {
    pub name: String,
    pub version: String,
}

/// The runtime reports engine `name` (its first entry by that name) at `version`.
pub open spec fn pins(engines: Seq<EngineVersion>, name: Seq<char>, version: Seq<char>) -> bool {
    exists|i: int|
        0 <= i < engines.len() && (#[trigger] engines[i]).name@ == name && engines[i].version@
            == version && forall|k: int| 0 <= k < i ==> (#[trigger] engines[k]).name@ != name
}

/// The first entry naming an engine, at whatever position, decides its version:
/// the engine is pinned at a version exactly when that entry gives it, and an
/// engine no entry names is pinned at none.
pub proof fn first_entry_decides(engines: Seq<EngineVersion>, name: Seq<char>, version: Seq<char>, i: int)
    ensures
        (0 <= i < engines.len() && engines[i].name@ == name && forall|k: int|
            0 <= k < i ==> (#[trigger] engines[k]).name@ != name) ==> (pins(engines, name, version)
            <==> engines[i].version@ == version),
        (forall|k: int| 0 <= k < engines.len() ==> (#[trigger] engines[k]).name@ != name) ==> !pins(
            engines,
            name,
            version,
        ),
{
    if 0 <= i < engines.len() && engines[i].name@ == name && forall|k: int|
        0 <= k < i ==> (#[trigger] engines[k]).name@ != name {
        if pins(engines, name, version) {
            let j = choose|j: int|
                0 <= j < engines.len() && (#[trigger] engines[j]).name@ == name && engines[j].version@
                    == version && forall|k: int| 0 <= k < j ==> (#[trigger] engines[k]).name@ != name;
            if j < i {
                assert(engines[j].name@ != name);
            }
            if j > i {
                assert(engines[i].name@ != name);
            }
        }
    }
}

/// The runtime reports each engine under one name only, as a map from name to version does.
pub open spec fn distinct_names(engines: Seq<EngineVersion>) -> bool {
    forall|i: int, j: int|
        0 <= i < j < engines.len() ==> (#[trigger] engines[i]).name@ != (#[trigger] engines[j]).name@
}

/// With each engine reported under one name, the list reads as the runtime's map:
/// an engine is pinned at a version exactly when some entry names it at that version.
pub proof fn pins_reads_as_map(engines: Seq<EngineVersion>, name: Seq<char>, version: Seq<char>)
    requires
        distinct_names(engines),
    ensures
        pins(engines, name, version) <==> exists|i: int|
            0 <= i < engines.len() && (#[trigger] engines[i]).name@ == name && engines[i].version@
                == version,
{
    if exists|i: int|
        0 <= i < engines.len() && (#[trigger] engines[i]).name@ == name && engines[i].version@
            == version {
        let i = choose|i: int|
            0 <= i < engines.len() && (#[trigger] engines[i]).name@ == name && engines[i].version@
                == version;
        assert forall|k: int| 0 <= k < i implies (#[trigger] engines[k]).name@ != name by {
            assert(engines[k].name@ != engines[i].name@);
        }
        assert(pins(engines, name, version));
    }
}

pub fn pinned(engines: &Vec<EngineVersion>, name: &str, version: &str) -> (r: bool)
    ensures
        r == pins(engines@, name@, version@),
{
    let mut i: usize = 0;
    while i < engines.len()
        invariant
            i <= engines@.len(),
            forall|k: int| 0 <= k < i ==> (#[trigger] engines@[k]).name@ != name@,
        decreases engines@.len() - i,
    {
        if same_text(engines[i].name.as_str(), name) {
            let r = same_text(engines[i].version.as_str(), version);
            proof {
                if !r {
                    assert forall|j: int|
                        0 <= j < engines@.len() && (#[trigger] engines@[j]).name@ == name@
                            && engines@[j].version@ == version@ implies exists|k: int|
                        0 <= k < j && (#[trigger] engines@[k]).name@ == name@ by {
                        if j > i {
                            assert(engines@[i as int].name@ == name@);
                        }
                    }
                }
            }
            return r;
        }
        i = i + 1;
    }
    false
}

pub open spec fn unavailable(reason: &'static str) -> StoreError {
    StoreError::Domain(DomainError::CapabilityUnavailable(reason))
}

/// The native models a build needs, each at its exact version.
pub open spec fn native_models(
    engines: Seq<EngineVersion>,
    solver: Seq<char>,
    ensemble: Seq<char>,
    covariance: Seq<char>,
) -> bool {
    &&& pins(engines, "portfolio-models"@, "4"@)
    &&& pins(engines, "portfolio-weights"@, "1"@)
    &&& pins(engines, "portfolio-cost-source"@, "1"@)
    &&& pins(engines, "clarabel"@, solver)
    &&& pins(engines, "ndarray"@, ensemble)
    &&& pins(engines, "ndarray-stats"@, covariance)
}

/// The runtime runs the portfolio models, weights, cost source, solver,
/// ensemble and covariance engines at the versions the build was written for.
pub fn check_native_models(
    engines: &Vec<EngineVersion>,
    solver: &str,
    ensemble: &str,
    covariance: &str,
) -> (r: Result<(), StoreError>)
    ensures
        native_models(engines@, solver@, ensemble@, covariance@) ==> r == Ok::<(), StoreError>(()),
        !native_models(engines@, solver@, ensemble@, covariance@) ==> r == Err::<(), StoreError>(
            unavailable("portfolio_native_models"),
        ),
{
    if !pinned(engines, "portfolio-models", "4") || !pinned(engines, "portfolio-weights", "1")
        || !pinned(engines, "portfolio-cost-source", "1") || !pinned(engines, "clarabel", solver)
        || !pinned(engines, "ndarray", ensemble) || !pinned(engines, "ndarray-stats", covariance) {
        return Err(StoreError::Domain(DomainError::CapabilityUnavailable("portfolio_native_models")));
    }
    Ok(())
}

/// A forward dataset an input set binds for a build.
#[derive(Clone, Debug)]
pub struct ForwardDataset {
    pub origin: String,
    pub pit_status: String,
    pub revision_policy: String,
    pub universe_version: Id,
}

pub open spec fn real_pit(d: ForwardDataset) -> bool {
    d.origin@ == "REAL"@ && d.pit_status@ == "VERIFIED"@ && d.revision_policy@ == "AS_KNOWN_THEN"@
}

/// The one dataset an admission reads: exactly one, real verified
/// point-in-time data, of the mandate's universe; each refusal with its code.
pub open spec fn dataset_check(
    datasets: Seq<ForwardDataset>,
    universe: Id,
    count_code: &'static str,
    real_code: &'static str,
    universe_code: &'static str,
) -> Result<(), StoreError> {
    if datasets.len() != 1 {
        Err(StoreError::Invalid(count_code))
    } else if !real_pit(datasets[0]) {
        Err(StoreError::Invalid(real_code))
    } else if datasets[0].universe_version != universe {
        Err(StoreError::Invalid(universe_code))
    } else {
        Ok(())
    }
}

fn dataset_gate(
    datasets: &Vec<ForwardDataset>,
    universe: Id,
    count_code: &'static str,
    real_code: &'static str,
    universe_code: &'static str,
) -> (r: Result<(), StoreError>)
    ensures
        r == dataset_check(datasets@, universe, count_code, real_code, universe_code),
{
    if datasets.len() != 1 {
        return Err(StoreError::Invalid(count_code));
    }
    let d = &datasets[0];
    if !(same_text(d.origin.as_str(), "REAL") && same_text(d.pit_status.as_str(), "VERIFIED")
        && same_text(d.revision_policy.as_str(), "AS_KNOWN_THEN")) {
        return Err(StoreError::Invalid(real_code));
    }
    if d.universe_version != universe {
        return Err(StoreError::Invalid(universe_code));
    }
    Ok(())
}

/// A build reads exactly one forward dataset: real, verified point-in-time data,
/// revised only as known then, of the mandate's universe.
pub fn check_build_dataset(datasets: &Vec<ForwardDataset>, universe: Id) -> (r: Result<
    (),
    StoreError,
>)
    ensures
        r == dataset_check(
            datasets@,
            universe,
            "portfolio_forward_dataset",
            "portfolio_real_pit_required",
            "portfolio_universe",
        ),
{
    dataset_gate(
        datasets,
        universe,
        "portfolio_forward_dataset",
        "portfolio_real_pit_required",
        "portfolio_universe",
    )
}

/// A Candidate simulation likewise reads exactly one real forward dataset of
/// the mandate's universe.
pub fn check_simulation_dataset(datasets: &Vec<ForwardDataset>, universe: Id) -> (r: Result<
    (),
    StoreError,
>)
    ensures
        r == dataset_check(
            datasets@,
            universe,
            "candidate_simulation_dataset",
            "candidate_simulation_real_pit",
            "candidate_simulation_universe",
        ),
{
    dataset_gate(
        datasets,
        universe,
        "candidate_simulation_dataset",
        "candidate_simulation_real_pit",
        "candidate_simulation_universe",
    )
}

/// No Alpha version is selected twice.
pub open spec fn distinct_ids(ids: Seq<Id>) -> bool {
    forall|i: int, j: int| 0 <= i < j < ids.len() ==> ids[i] != ids[j]
}

/// Members are distinct exactly when no two positions, however far apart, hold the same identity.
pub proof fn repeated_member_anywhere(ids: Seq<Id>)
    ensures
        forall|i: int, j: int|
            0 <= i < j < ids.len() && #[trigger] ids[i] == #[trigger] ids[j] ==> !distinct_ids(ids),
        distinct_ids(ids) ==> forall|i: int, j: int|
            0 <= i < ids.len() && 0 <= j < ids.len() && i != j ==> #[trigger] ids[i] != #[trigger] ids[j],
{
    if distinct_ids(ids) {
        assert forall|i: int, j: int|
            0 <= i < ids.len() && 0 <= j < ids.len() && i != j implies #[trigger] ids[i] != #[trigger] ids[j] by {
            if j < i {
                assert(ids[j] != ids[i]);
            }
        }
    }
}

fn contains_id(ids: &Vec<Id>, n: usize, id: Id) -> (r: bool)
    requires
        n <= ids@.len(),
    ensures
        r == exists|k: int| 0 <= k < n && ids@[k] == id,
{
    let mut k: usize = 0;
    while k < n
        invariant
            n <= ids@.len(),
            k <= n,
            forall|m: int| 0 <= m < k ==> ids@[m] != id,
        decreases n - k,
    {
        if ids[k] == id {
            return true;
        }
        k = k + 1;
    }
    false
}

/// The members of a build are distinct Alpha versions.
pub fn check_distinct_members(versions: &Vec<Id>) -> (r: Result<(), StoreError>)
    ensures
        distinct_ids(versions@) ==> r == Ok::<(), StoreError>(()),
        !distinct_ids(versions@) ==> r == Err::<(), StoreError>(
            StoreError::Invalid("portfolio_duplicate_version"),
        ),
{
    let mut j: usize = 0;
    while j < versions.len()
        invariant
            j <= versions@.len(),
            forall|a: int, b: int| 0 <= a < b < j ==> versions@[a] != versions@[b],
        decreases versions@.len() - j,
    {
        if contains_id(versions, j, versions[j]) {
            return Err(StoreError::Invalid("portfolio_duplicate_version"));
        }
        j = j + 1;
    }
    Ok(())
}

/// A positive slippage probability needs the runtime's slippage model.
pub fn check_slippage(prob_slippage: DecimalValue, engines: &Vec<EngineVersion>) -> (r: Result<
    (),
    StoreError,
>)
    ensures
        (prob_slippage.digits() > 0 && !pins(engines@, "portfolio-slippage"@, "1"@)) ==> r == Err::<
            (),
            StoreError,
        >(unavailable("portfolio_slippage")),
        !(prob_slippage.digits() > 0 && !pins(engines@, "portfolio-slippage"@, "1"@)) ==> r == Ok::<
            (),
            StoreError,
        >(()),
{
    if prob_slippage.is_positive() && !pinned(engines, "portfolio-slippage", "1") {
        return Err(StoreError::Domain(DomainError::CapabilityUnavailable("portfolio_slippage")));
    }
    Ok(())
}

/// The execution settings a build's cost source declares.
#[derive(Clone, Debug)]
pub struct CostSource {
    pub status: String,
    pub base_currency: String,
    pub starting_capital: DecimalValue,
}

pub open spec fn all_in_cost(source: CostSource, currency: Seq<char>, capital: DecimalValue) -> bool {
    &&& source.status@ == "CONSERVATIVE_ASSUMPTION"@
    &&& source.base_currency@ == currency
    &&& source.starting_capital == capital
}

/// The cost source is a conservative all-in assumption in the mandate's base
/// currency and capital.
pub fn check_cost_source(source: &CostSource, currency: &str, capital: DecimalValue) -> (r: Result<
    (),
    StoreError,
>)
    ensures
        all_in_cost(*source, currency@, capital) ==> r == Ok::<(), StoreError>(()),
        !all_in_cost(*source, currency@, capital) ==> r == Err::<(), StoreError>(
            unavailable("portfolio_all_in_cost_source"),
        ),
{
    if !same_text(source.status.as_str(), "CONSERVATIVE_ASSUMPTION") || !same_text(
        source.base_currency.as_str(),
        currency,
    ) || source.starting_capital != capital {
        return Err(
            StoreError::Domain(DomainError::CapabilityUnavailable("portfolio_all_in_cost_source")),
        );
    }
    Ok(())
}

/// How a build learns what each asset can trade.
#[derive(Clone, Copy, Debug, PartialEq, Eq, Structural)]
pub enum LiquiditySource {
    Rolling,
    Frozen,
    Unbounded,
}

pub open spec fn liquidity_check(source: LiquiditySource, engines: Seq<EngineVersion>) -> Result<
    (),
    StoreError,
> {
    match source {
        LiquiditySource::Rolling => if pins(engines, "portfolio-build-rolling"@, "1"@) {
            Ok(())
        } else {
            Err(unavailable("portfolio_build_rolling"))
        },
        LiquiditySource::Frozen => if pins(engines, "portfolio-liquidity"@, "1"@) {
            Ok(())
        } else {
            Err(unavailable("portfolio_liquidity"))
        },
        LiquiditySource::Unbounded => Ok(()),
    }
}

/// A rolling or frozen liquidity source needs the runtime's model for it.
pub fn check_liquidity_engine(source: LiquiditySource, engines: &Vec<EngineVersion>) -> (r: Result<
    (),
    StoreError,
>)
    ensures
        r == liquidity_check(source, engines@),
{
    match source {
        LiquiditySource::Rolling => if pinned(engines, "portfolio-build-rolling", "1") {
            Ok(())
        } else {
            Err(StoreError::Domain(DomainError::CapabilityUnavailable("portfolio_build_rolling")))
        },
        LiquiditySource::Frozen => if pinned(engines, "portfolio-liquidity", "1") {
            Ok(())
        } else {
            Err(StoreError::Domain(DomainError::CapabilityUnavailable("portfolio_liquidity")))
        },
        LiquiditySource::Unbounded => Ok(()),
    }
}

/// An instrument's value in a per-instrument table (a fee rate, a notional).
#[derive(Clone, Debug)]
pub struct InstrumentValue {
    pub instrument_id: String,
    pub value: DecimalValue,
}

/// `i` is where the table first lists the instrument.
pub open spec fn value_at(table: Seq<InstrumentValue>, instrument: Seq<char>, i: int) -> bool {
    &&& 0 <= i < table.len()
    &&& table[i].instrument_id@ == instrument
    &&& forall|k: int| 0 <= k < i ==> (#[trigger] table[k]).instrument_id@ != instrument
}

pub open spec fn lists_instrument(table: Seq<InstrumentValue>, instrument: Seq<char>) -> bool {
    exists|i: int| 0 <= i < table.len() && (#[trigger] table[i]).instrument_id@ == instrument
}

/// A table lists an instrument exactly when some row, at whatever position, names it.
pub proof fn instrument_listed_anywhere(table: Seq<InstrumentValue>, instrument: Seq<char>)
    ensures
        forall|i: int|
            0 <= i < table.len() && (#[trigger] table[i]).instrument_id@ == instrument
                ==> lists_instrument(table, instrument),
        lists_instrument(table, instrument) ==> exists|i: int|
            0 <= i < table.len() && (#[trigger] table[i]).instrument_id@ == instrument,
{
}

/// The value the table first lists for the instrument.
pub open spec fn first_value(table: Seq<InstrumentValue>, instrument: Seq<char>) -> Option<
    DecimalValue,
> {
    if exists|i: int| value_at(table, instrument, i) {
        Some(table[choose|i: int| value_at(table, instrument, i)].value)
    } else {
        None
    }
}

/// The value of an instrument is the one its first row, at whatever position,
/// gives; there is one exactly when some row names the instrument.
pub proof fn first_value_is_the_first_row(table: Seq<InstrumentValue>, instrument: Seq<char>)
    ensures
        first_value(table, instrument) is Some <==> exists|i: int|
            0 <= i < table.len() && (#[trigger] table[i]).instrument_id@ == instrument,
        first_value(table, instrument) matches Some(v) ==> exists|i: int|
            0 <= i < table.len() && (#[trigger] table[i]).instrument_id@ == instrument && table[i].value
                == v && forall|k: int| 0 <= k < i ==> (#[trigger] table[k]).instrument_id@ != instrument,
{
    if exists|i: int| 0 <= i < table.len() && (#[trigger] table[i]).instrument_id@ == instrument {
        let w = choose|i: int| 0 <= i < table.len() && (#[trigger] table[i]).instrument_id@ == instrument;
        lemma_first_row(table, instrument, w);
        let c = choose|i: int| value_at(table, instrument, i);
        assert(value_at(table, instrument, c));
    }
}

proof fn lemma_first_row(table: Seq<InstrumentValue>, instrument: Seq<char>, w: int)
    requires
        0 <= w < table.len(),
        table[w].instrument_id@ == instrument,
    ensures
        exists|i: int| value_at(table, instrument, i),
    decreases w,
{
    if exists|k: int| 0 <= k < w && (#[trigger] table[k]).instrument_id@ == instrument {
        let k = choose|k: int| 0 <= k < w && (#[trigger] table[k]).instrument_id@ == instrument;
        lemma_first_row(table, instrument, k);
    } else {
        assert(value_at(table, instrument, w));
    }
}

pub fn value_for(table: &Vec<InstrumentValue>, instrument: &str) -> (r: Option<DecimalValue>)
    ensures
        r == first_value(table@, instrument@),
        r is None <==> !lists_instrument(table@, instrument@),
        r matches Some(v) ==> exists|i: int|
            0 <= i < table@.len() && (#[trigger] table@[i]).instrument_id@ == instrument@
                && table@[i].value == v && forall|k: int|
                0 <= k < i ==> (#[trigger] table@[k]).instrument_id@ != instrument@,
        r is None ==> forall|i: int| 0 <= i < table@.len() ==> (#[trigger] table@[i]).instrument_id@ != instrument@,
{
    proof {
        first_value_is_the_first_row(table@, instrument@);
    }
    let mut i: usize = 0;
    while i < table.len()
        invariant
            i <= table@.len(),
            forall|k: int| 0 <= k < i ==> (#[trigger] table@[k]).instrument_id@ != instrument@,
        decreases table@.len() - i,
    {
        if same_text(table[i].instrument_id.as_str(), instrument) {
            proof {
                assert(value_at(table@, instrument@, i as int));
                let c = choose|c: int| value_at(table@, instrument@, c);
                if c < i {
                    assert(table@[c].instrument_id@ != instrument@);
                }
                if c > i {
                    assert(table@[i as int].instrument_id@ != instrument@);
                }
            }
            return Some(table[i].value);
        }
        i = i + 1;
    }
    None
}

/// What a build allocates one asset with.
#[derive(Clone, Copy, Debug, PartialEq, Eq, Structural)]
pub struct AssetCosts {
    pub transaction_cost_rate: DecimalValue,
    pub available_notional: Option<DecimalValue>,
}

/// The notionals a liquidity report gives, where one bounds the build.
pub open spec fn table_of(notionals: Option<Vec<InstrumentValue>>) -> Option<Seq<InstrumentValue>> {
    match notionals {
        Some(t) => Some(t@),
        None => None,
    }
}

/// The costs of one asset: its taker fee rate, and, where a liquidity report
/// bounds the build, its last-bar notional; `None` where one is missing.
pub open spec fn costs_of(
    instrument: Seq<char>,
    fees: Seq<InstrumentValue>,
    notionals: Option<Seq<InstrumentValue>>,
) -> Result<AssetCosts, StoreError> {
    match first_value(fees, instrument) {
        None => Err(StoreError::Invalid("portfolio_cost_asset")),
        Some(rate) => match notionals {
            None => Ok(AssetCosts { transaction_cost_rate: rate, available_notional: None }),
            Some(t) => match first_value(t, instrument) {
                None => Err(StoreError::Invalid("portfolio_liquidity_asset")),
                Some(n) => Ok(AssetCosts { transaction_cost_rate: rate, available_notional: Some(n) }),
            },
        },
    }
}

/// The costs of every weighted asset in order, or the refusal of the first
/// one without them.
pub open spec fn all_costs(
    instruments: Seq<String>,
    fees: Seq<InstrumentValue>,
    notionals: Option<Seq<InstrumentValue>>,
) -> Result<Seq<AssetCosts>, StoreError>
    decreases instruments.len(),
{
    if instruments.len() == 0 {
        Ok(Seq::<AssetCosts>::empty())
    } else {
        match all_costs(instruments.drop_last(), fees, notionals) {
            Err(e) => Err(e),
            Ok(out) => match costs_of(instruments.last()@, fees, notionals) {
                Err(e) => Err(e),
                Ok(c) => Ok(out.push(c)),
            },
        }
    }
}

proof fn lemma_costs_prefix(
    instruments: Seq<String>,
    fees: Seq<InstrumentValue>,
    notionals: Option<Seq<InstrumentValue>>,
    n: int,
)
    requires
        0 <= n <= instruments.len(),
        all_costs(instruments.subrange(0, n), fees, notionals) is Err,
    ensures
        all_costs(instruments, fees, notionals) == all_costs(
            instruments.subrange(0, n),
            fees,
            notionals,
        ),
    decreases instruments.len() - n,
{
    if n == instruments.len() {
        assert(instruments.subrange(0, n) =~= instruments);
    } else {
        assert(instruments.subrange(0, n + 1).drop_last() =~= instruments.subrange(0, n));
        assert(all_costs(instruments.subrange(0, n + 1), fees, notionals) == all_costs(
            instruments.subrange(0, n),
            fees,
            notionals,
        ));
        lemma_costs_prefix(instruments, fees, notionals, n + 1);
    }
}

/// The allocation costs of each weighted asset, in the weights' order.
/// Every weighted asset, at whatever position, gets its own costs, in order:
/// the costs are exactly one entry per asset, each that asset's; and one asset
/// anywhere without a fee (or without a notional where liquidity bounds the build)
/// refuses them all.
pub proof fn every_asset_is_costed(
    instruments: Seq<String>,
    fees: Seq<InstrumentValue>,
    notionals: Option<Seq<InstrumentValue>>,
)
    ensures
        all_costs(instruments, fees, notionals) matches Ok(out) ==> out.len() == instruments.len()
            && forall|i: int|
            0 <= i < instruments.len() ==> costs_of((#[trigger] instruments[i])@, fees, notionals)
                == Ok::<AssetCosts, StoreError>(out[i]),
        (exists|i: int|
            0 <= i < instruments.len() && costs_of((#[trigger] instruments[i])@, fees, notionals) is Err)
            ==> all_costs(instruments, fees, notionals) is Err,
    decreases instruments.len(),
{
    if instruments.len() > 0 {
        let rest = instruments.drop_last();
        every_asset_is_costed(rest, fees, notionals);
        assert forall|i: int| 0 <= i < rest.len() implies #[trigger] rest[i] == instruments[i] by {}
        let n = instruments.len() - 1;
        assert(instruments[n] == instruments.last());
        if exists|i: int|
            0 <= i < instruments.len() && costs_of((#[trigger] instruments[i])@, fees, notionals) is Err {
            let i = choose|i: int|
                0 <= i < instruments.len() && costs_of((#[trigger] instruments[i])@, fees, notionals) is Err;
            if i < n {
                assert(costs_of(rest[i]@, fees, notionals) is Err);
            }
        }
        if let Ok(out) = all_costs(instruments, fees, notionals) {
            let out0 = all_costs(rest, fees, notionals)->Ok_0;
            assert(out == out0.push(costs_of(instruments.last()@, fees, notionals)->Ok_0));
            assert forall|i: int| 0 <= i < instruments.len() implies costs_of(
                (#[trigger] instruments[i])@,
                fees,
                notionals,
            ) == Ok::<AssetCosts, StoreError>(out[i]) by {
                if i < n {
                    assert(rest[i] == instruments[i]);
                    assert(out[i] == out0[i]);
                }
            }
        }
    }
}

pub fn asset_costs(
    instruments: &Vec<String>,
    fees: &Vec<InstrumentValue>,
    notionals: &Option<Vec<InstrumentValue>>,
) -> (r: Result<Vec<AssetCosts>, StoreError>)
    ensures
        match all_costs(instruments@, fees@, table_of(*notionals)) {
            Ok(costs) => r matches Ok(out) && out@ == costs,
            Err(e) => r == Err::<Vec<AssetCosts>, StoreError>(e),
        },
        r matches Ok(out) ==> out@.len() == instruments@.len() && forall|i: int|
            0 <= i < instruments@.len() ==> costs_of(
                (#[trigger] instruments@[i])@,
                fees@,
                table_of(*notionals),
            ) == Ok::<AssetCosts, StoreError>(out@[i]),
{
    proof {
        every_asset_is_costed(instruments@, fees@, table_of(*notionals));
    }
    let ghost table = table_of(*notionals);
    let mut out: Vec<AssetCosts> = Vec::new();
    let mut j: usize = 0;
    while j < instruments.len()
        invariant
            j <= instruments@.len(),
            table == table_of(*notionals),
            all_costs(instruments@.subrange(0, j as int), fees@, table) == Ok::<
                Seq<AssetCosts>,
                StoreError,
            >(out@),
        decreases instruments@.len() - j,
    {
        proof {
            assert(instruments@.subrange(0, j + 1).drop_last() =~= instruments@.subrange(0, j as int));
            assert(instruments@.subrange(0, j + 1).last() == instruments@[j as int]);
        }
        let rate = match value_for(fees, instruments[j].as_str()) {
            Some(v) => v,
            None => {
                proof {
                    lemma_costs_prefix(instruments@, fees@, table, j + 1);
                }
                return Err(StoreError::Invalid("portfolio_cost_asset"));
            },
        };
        let notional = match notionals {
            Some(t) => match value_for(t, instruments[j].as_str()) {
                Some(v) => Some(v),
                None => {
                    proof {
                        lemma_costs_prefix(instruments@, fees@, table, j + 1);
                    }
                    return Err(StoreError::Invalid("portfolio_liquidity_asset"));
                },
            },
            None => None,
        };
        out.push(AssetCosts { transaction_cost_rate: rate, available_notional: notional });
        j = j + 1;
    }
    proof {
        assert(instruments@.subrange(0, instruments@.len() as int) =~= instruments@);
    }
    Ok(out)
}

/// The runtime's image for portfolio builds is the one the cost source was frozen with.
pub fn check_frozen_image(image: &str, frozen: &str) -> (r: Result<(), StoreError>)
    ensures
        image@ == frozen@ ==> r == Ok::<(), StoreError>(()),
        image@ != frozen@ ==> r == Err::<(), StoreError>(unavailable("portfolio_frozen_image")),
{
    if !same_text(image, frozen) {
        return Err(StoreError::Domain(DomainError::CapabilityUnavailable("portfolio_frozen_image")));
    }
    Ok(())
}

/// The cycle running the build is judged under the mandate's evaluation policy.
pub fn check_build_policy(cycle_policy: Id, required: Id) -> (r: Result<(), StoreError>)
    ensures
        cycle_policy == required ==> r == Ok::<(), StoreError>(()),
        cycle_policy != required ==> r == Err::<(), StoreError>(StoreError::Invalid("portfolio_policy")),
{
    if cycle_policy != required {
        return Err(StoreError::Invalid("portfolio_policy"));
    }
    Ok(())
}

/// A member's qualified Alpha ran on the image the runtime gives portfolio builds.
pub fn check_member_image(member_image: &str, image: &str) -> (r: Result<(), StoreError>)
    ensures
        member_image@ == image@ ==> r == Ok::<(), StoreError>(()),
        member_image@ != image@ ==> r == Err::<(), StoreError>(unavailable("portfolio_alpha_image")),
{
    if !same_text(member_image, image) {
        return Err(StoreError::Domain(DomainError::CapabilityUnavailable("portfolio_alpha_image")));
    }
    Ok(())
}

/// Each input set behind a member's qualification (discovery, validation and the
/// qualification's own) holds at least one dataset, all real verified point-in-time data.
pub fn check_member_sources(datasets: &Vec<ForwardDataset>) -> (r: Result<(), StoreError>)
    ensures
        all_real(datasets@) ==> r == Ok::<(), StoreError>(()),
        !all_real(datasets@) ==> r == Err::<(), StoreError>(
            StoreError::Invalid("portfolio_qualification_sources"),
        ),
        datasets@.len() == 0 ==> r == Err::<(), StoreError>(
            StoreError::Invalid("portfolio_qualification_sources"),
        ),
        forall|i: int|
            0 <= i < datasets@.len() && !((#[trigger] datasets@[i]).origin@ == "REAL"@ && datasets@[i].pit_status@ == "VERIFIED"@
                && datasets@[i].revision_policy@ == "AS_KNOWN_THEN"@) ==> r == Err::<(), StoreError>(
                StoreError::Invalid("portfolio_qualification_sources"),
            ),
{
    if !all_real_sources(datasets) {
        return Err(StoreError::Invalid("portfolio_qualification_sources"));
    }
    Ok(())
}

/// Current weights must still be valid when the build is checked.
pub fn check_weights_current(valid_until_ns: DbCounter, checked: UtcTime) -> (r: Result<
    (),
    StoreError,
>)
    ensures
        !(0 <= checked.nanos <= crate::ids::DB_MAX) ==> r == Err::<(), StoreError>(
            StoreError::Integrity,
        ),
        (0 <= checked.nanos <= crate::ids::DB_MAX && valid_until_ns.amount() <= checked.nanos)
            ==> r == Err::<(), StoreError>(StoreError::Invalid("portfolio_weights_expired")),
        (0 <= checked.nanos <= crate::ids::DB_MAX && valid_until_ns.amount() > checked.nanos)
            ==> r == Ok::<(), StoreError>(()),
{
    let now = crate::portfolio::nanos(checked)?;
    if valid_until_ns.get() <= now.get() {
        return Err(StoreError::Invalid("portfolio_weights_expired"));
    }
    Ok(())
}

/// The artifact an input reads, if it reads one.
pub open spec fn artifact_of(input: RuntimeInput) -> Option<Id> {
    match input {
        RuntimeInput::Artifact { artifact_id, .. } => Some(artifact_id),
        RuntimeInput::Dataset { .. } => None,
    }
}

/// An artifact input whose artifact an earlier input already reads.
pub open spec fn repeats(inputs: Seq<RuntimeInput>, j: int) -> bool {
    artifact_of(inputs[j]) is Some && exists|k: int|
        0 <= k < j && artifact_of(#[trigger] inputs[k]) == artifact_of(inputs[j])
}

/// The inputs with each artifact kept only where it first occurs.
pub open spec fn first_occurrences(inputs: Seq<RuntimeInput>) -> Seq<RuntimeInput>
    decreases inputs.len(),
{
    if inputs.len() == 0 {
        Seq::<RuntimeInput>::empty()
    } else {
        let earlier = first_occurrences(inputs.drop_last());
        if repeats(inputs, inputs.len() - 1) {
            earlier
        } else {
            earlier.push(inputs.last())
        }
    }
}

fn seen(ids: &Vec<Id>, id: Id) -> (r: bool)
    ensures
        r == exists|k: int| 0 <= k < ids@.len() && ids@[k] == id,
{
    contains_id(ids, ids.len(), id)
}

/// A job reads each artifact once: later inputs of an artifact already read
/// are dropped, datasets and first occurrences stay in order.
#[verifier::rlimit(50)]
pub fn dedup_inputs(inputs: Vec<RuntimeInput>) -> (r: Vec<RuntimeInput>)
    ensures
        r@ == first_occurrences(inputs@),
{
    let ghost all = inputs@;
    let mut rest = inputs;
    let mut out: Vec<RuntimeInput> = Vec::new();
    let mut ids: Vec<Id> = Vec::new();
    let mut i: usize = 0;
    let n = rest.len();
    while i < n
        invariant
            n == all.len(),
            i <= n,
            rest@ == all.subrange(i as int, n as int),
            out@ == first_occurrences(all.subrange(0, i as int)),
            forall|m: int|
                0 <= m < ids@.len() ==> exists|k: int|
                    0 <= k < i && artifact_of(#[trigger] all[k]) == Some(#[trigger] ids@[m]),
            forall|k: int|
                0 <= k < i && (#[trigger] artifact_of(all[k])) is Some ==> exists|m: int|
                    0 <= m < ids@.len() && Some(#[trigger] ids@[m]) == artifact_of(all[k]),
        decreases n - i,
    {
        let input = rest.remove(0);
        let ghost pre = all.subrange(0, i + 1);
        proof {
            assert(input == all[i as int]);
            assert(pre.drop_last() =~= all.subrange(0, i as int));
            assert(rest@ =~= all.subrange(i + 1, n as int));
        }
        let keep = match &input {
            RuntimeInput::Artifact { artifact_id, .. } => !seen(&ids, *artifact_id),
            RuntimeInput::Dataset { .. } => true,
        };
        proof {
            assert(keep == !repeats(pre, i as int)) by {
                if let RuntimeInput::Artifact { artifact_id, .. } = input {
                    if repeats(pre, i as int) {
                        let k = choose|k: int|
                            0 <= k < i && artifact_of(#[trigger] pre[k]) == artifact_of(pre[i as int]);
                        assert(all[k] == pre[k]);
                        let m = choose|m: int|
                            0 <= m < ids@.len() && Some(#[trigger] ids@[m]) == artifact_of(all[k]);
                        assert(ids@[m] == artifact_id);
                    }
                    if !keep {
                        let m = choose|m: int| 0 <= m < ids@.len() && ids@[m] == artifact_id;
                        let k = choose|k: int|
                            0 <= k < i && artifact_of(#[trigger] all[k]) == Some(ids@[m]);
                        assert(pre[k] == all[k]);
                    }
                }
            }
        }
        let ghost before = ids@;
        if let RuntimeInput::Artifact { artifact_id, .. } = &input {
            ids.push(*artifact_id);
        }
        proof {
            assert forall|m: int| 0 <= m < ids@.len() implies exists|k: int|
                0 <= k < i + 1 && artifact_of(#[trigger] all[k]) == Some(#[trigger] ids@[m]) by {
                if m < before.len() {
                    assert(before[m] == ids@[m]);
                } else {
                    assert(artifact_of(all[i as int]) == Some(ids@[m]));
                }
            }
            assert forall|k: int|
                0 <= k < i + 1 && (#[trigger] artifact_of(all[k])) is Some implies exists|m: int|
                0 <= m < ids@.len() && Some(#[trigger] ids@[m]) == artifact_of(all[k]) by {
                if k < i {
                    let m = choose|m: int|
                        0 <= m < before.len() && Some(#[trigger] before[m]) == artifact_of(all[k]);
                    assert(ids@[m] == before[m]);
                } else {
                    assert(ids@[ids@.len() - 1] == artifact_of(all[k])->0);
                }
            }
        }
        if keep {
            out.push(input);
        }
        proof {
            assert(out@ =~= first_occurrences(pre));
        }
        i = i + 1;
    }
    proof {
        assert(all.subrange(0, n as int) =~= all);
    }
    out
}

/// Every input kept is one of the inputs.
proof fn lemma_kept_from_inputs(inputs: Seq<RuntimeInput>)
    ensures
        forall|m: int|
            0 <= m < first_occurrences(inputs).len() ==> exists|k: int|
                0 <= k < inputs.len() && inputs[k] == #[trigger] first_occurrences(inputs)[m],
    decreases inputs.len(),
{
    if inputs.len() > 0 {
        let earlier = inputs.drop_last();
        lemma_kept_from_inputs(earlier);
        assert forall|m: int| 0 <= m < first_occurrences(inputs).len() implies exists|k: int|
            0 <= k < inputs.len() && inputs[k] == #[trigger] first_occurrences(inputs)[m] by {
            if m < first_occurrences(earlier).len() {
                let k = choose|k: int|
                    0 <= k < earlier.len() && earlier[k] == #[trigger] first_occurrences(earlier)[m];
                assert(inputs[k] == earlier[k]);
            } else {
                assert(first_occurrences(inputs)[m] == inputs[inputs.len() - 1]);
            }
        }
    }
}

/// De-duplication invents nothing and drops no dataset: every kept input is
/// one of the inputs, every dataset input at whatever position is kept, and an
/// artifact input is known by its own artifact.
pub proof fn dedup_keeps_every_dataset(inputs: Seq<RuntimeInput>)
    ensures
        forall|m: int|
            0 <= m < first_occurrences(inputs).len() ==> exists|k: int|
                0 <= k < inputs.len() && inputs[k] == #[trigger] first_occurrences(inputs)[m],
        forall|k: int|
            0 <= k < inputs.len() && (#[trigger] inputs[k] matches RuntimeInput::Dataset { .. })
                ==> exists|m: int|
                0 <= m < first_occurrences(inputs).len() && first_occurrences(inputs)[m] == inputs[k],
        forall|k: int|
            0 <= k < inputs.len() && (#[trigger] inputs[k] matches RuntimeInput::Artifact {
                artifact_id,
                ..
            }) ==> artifact_of(inputs[k]) == Some(inputs[k]->artifact_id),
    decreases inputs.len(),
{
    lemma_kept_from_inputs(inputs);
    if inputs.len() > 0 {
        let earlier = inputs.drop_last();
        let last = inputs.len() - 1;
        dedup_keeps_every_dataset(earlier);
        let fo = first_occurrences(inputs);
        let fe = first_occurrences(earlier);
        assert forall|k: int|
            0 <= k < inputs.len() && (#[trigger] inputs[k] matches RuntimeInput::Dataset { .. }) implies exists|m: int|
            0 <= m < fo.len() && fo[m] == inputs[k] by {
            if k < last {
                assert(inputs[k] == earlier[k]);
                assert(earlier[k] matches RuntimeInput::Dataset { .. });
                let m = choose|m: int| 0 <= m < fe.len() && fe[m] == earlier[k];
                assert(fo[m] == fe[m]);
            } else {
                assert(!repeats(inputs, last));
                assert(fo[fo.len() - 1] == inputs[last]);
            }
        }
    }
}

/// A job built from de-duplicated inputs reads no artifact twice, and still
/// reads every artifact that any of the inputs named.
pub proof fn dedup_reads_each_artifact_once(inputs: Seq<RuntimeInput>)
    ensures
        forall|a: int, b: int|
            0 <= a < b < first_occurrences(inputs).len() && artifact_of(
                first_occurrences(inputs)[a],
            ) is Some ==> artifact_of(#[trigger] first_occurrences(inputs)[a]) != artifact_of(
                #[trigger] first_occurrences(inputs)[b],
            ),
        forall|k: int|
            0 <= k < inputs.len() && artifact_of(#[trigger] inputs[k]) is Some ==> exists|m: int|
                0 <= m < first_occurrences(inputs).len() && artifact_of(
                    #[trigger] first_occurrences(inputs)[m],
                ) == artifact_of(inputs[k]),
    decreases inputs.len(),
{
    if inputs.len() > 0 {
        let earlier = inputs.drop_last();
        let last = inputs.len() - 1;
        dedup_reads_each_artifact_once(earlier);
        lemma_kept_from_inputs(earlier);
        let fo = first_occurrences(inputs);
        let fe = first_occurrences(earlier);
        assert forall|a: int, b: int|
            0 <= a < b < fo.len() && artifact_of(fo[a]) is Some implies artifact_of(
                #[trigger] fo[a],
            ) != artifact_of(#[trigger] fo[b]) by {
            if b < fe.len() {
                assert(fo[a] == fe[a] && fo[b] == fe[b]);
            } else {
                assert(!repeats(inputs, last));
                assert(fo[b] == inputs[last]);
                assert(fo[a] == fe[a]);
                let k = choose|k: int| 0 <= k < earlier.len() && earlier[k] == #[trigger] fe[a];
                assert(inputs[k] == earlier[k]);
                if artifact_of(fo[a]) == artifact_of(fo[b]) {
                    assert(artifact_of(inputs[k]) == artifact_of(inputs[last]));
                }
            }
        }
        assert forall|k: int|
            0 <= k < inputs.len() && artifact_of(#[trigger] inputs[k]) is Some implies exists|m: int|
            0 <= m < fo.len() && artifact_of(#[trigger] fo[m]) == artifact_of(inputs[k]) by {
            if k < last {
                assert(inputs[k] == earlier[k]);
                let m = choose|m: int|
                    0 <= m < fe.len() && artifact_of(#[trigger] fe[m]) == artifact_of(earlier[k]);
                assert(fo[m] == fe[m]);
            } else if repeats(inputs, last) {
                let j = choose|j: int|
                    0 <= j < last && artifact_of(#[trigger] inputs[j]) == artifact_of(inputs[last]);
                assert(inputs[j] == earlier[j]);
                let m = choose|m: int|
                    0 <= m < fe.len() && artifact_of(#[trigger] fe[m]) == artifact_of(earlier[j]);
                assert(fo[m] == fe[m]);
            } else {
                assert(fo[fo.len() - 1] == inputs[last]);
            }
        }
    }
}

/// A Candidate is published with targets only while its target window and the
/// current weights it was built on are both still valid.
pub fn check_candidate_current(until: UtcTime, weights_until_ns: DbCounter, now: UtcTime) -> (r:
    Result<(), StoreError>)
    ensures
        until.nanos <= now.nanos ==> r == Err::<(), StoreError>(
            StoreError::Invalid("portfolio_expired"),
        ),
        (now.nanos < until.nanos && !(0 <= now.nanos <= crate::ids::DB_MAX)) ==> r == Err::<
            (),
            StoreError,
        >(StoreError::Integrity),
        (now.nanos < until.nanos && 0 <= now.nanos <= crate::ids::DB_MAX) ==> r == (if weights_until_ns.amount()
            <= now.nanos {
            Err::<(), StoreError>(StoreError::Invalid("portfolio_expired"))
        } else {
            Ok::<(), StoreError>(())
        }),
{
    if !now.is_before(&until) {
        return Err(StoreError::Invalid("portfolio_expired"));
    }
    let n = crate::portfolio::nanos(now)?;
    if weights_until_ns.get() <= n.get() {
        return Err(StoreError::Invalid("portfolio_expired"));
    }
    Ok(())
}

} // verus!
