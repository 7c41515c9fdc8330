//! The sync-progress aggregator: from the state-query answers to the
//! wall-clock percentage record, all on integers. The percentage is a
//! ratio of whole seconds; the callers divide at the edge.

use vstd::prelude::*;
use vstd::string::StringExecFns;

use crate::errors::BlockfrostError;
use crate::hex::hex_encode;
use crate::hex::hex_of;
use crate::render::dec_of;
use crate::render::u64_to_dec;

verus! {

/// A chain point: the origin, or a slot with its block hash.
#[derive(Debug, PartialEq, Eq)]
pub enum ChainPoint {
    Origin,
    Specific(u64, Vec<u8>),
}

/// The system start reported by the node.
#[derive(Debug, Clone, Copy, PartialEq, Eq, Structural)]
pub struct SystemStart {
    pub year: i64,
    pub day_of_year: i64,
    pub picoseconds_of_day: u64,
}

/// The well-known time parameters of a public network, as
/// pallas_traverse hard-codes them.
#[derive(Debug, Clone, Copy, PartialEq, Eq, Structural)]
pub struct WellKnownTimes {
    pub shelley_known_slot: u64,
    pub shelley_known_time: u64,
    pub shelley_slot_length: u64,
    pub byron_known_slot: u64,
    pub byron_known_time: u64,
    pub byron_slot_length: u64,
}

/// The table of well-known networks: mainnet, the legacy testnet,
/// preview and pre-production, by network magic.
pub open spec fn sp_well_known(magic: u64) -> Option<WellKnownTimes> {
    if magic == 764824073 {
        Some(
            WellKnownTimes {
                shelley_known_slot: 4492800,
                shelley_known_time: 1596059091,
                shelley_slot_length: 1,
                byron_known_slot: 0,
                byron_known_time: 1506203091,
                byron_slot_length: 20,
            },
        )
    } else if magic == 1097911063 {
        Some(
            WellKnownTimes {
                shelley_known_slot: 1598400,
                shelley_known_time: 1595967616,
                shelley_slot_length: 1,
                byron_known_slot: 0,
                byron_known_time: 1564010416,
                byron_slot_length: 20,
            },
        )
    } else if magic == 2 {
        Some(
            WellKnownTimes {
                shelley_known_slot: 0,
                shelley_known_time: 1666656000,
                shelley_slot_length: 1,
                byron_known_slot: 0,
                byron_known_time: 1666656000,
                byron_slot_length: 20,
            },
        )
    } else if magic == 1 {
        Some(
            WellKnownTimes {
                shelley_known_slot: 86400,
                shelley_known_time: 1655769600,
                shelley_slot_length: 1,
                byron_known_slot: 0,
                byron_known_time: 1654041600,
                byron_slot_length: 20,
            },
        )
    } else {
        None
    }
}

/// Relies on pallas_traverse's well-known network table
/// (`GenesisValues::from_magic`): for the four public networks it returns
/// the hard-coded genesis times above, and nothing for any other magic.
#[verifier::external_body]
fn well_known_times(magic: u64) -> (r: Option<WellKnownTimes>)
    ensures
        r == sp_well_known(magic),
{
    pallas_traverse::wellknown::GenesisValues::from_magic(magic).map(
        |g| WellKnownTimes {
            shelley_known_slot: g.shelley_known_slot,
            shelley_known_time: g.shelley_known_time,
            shelley_slot_length: g.shelley_slot_length as u64,
            byron_known_slot: g.byron_known_slot,
            byron_known_time: g.byron_known_time,
            byron_slot_length: g.byron_slot_length as u64,
        },
    )
}

/// The wall-clock second of a slot under the given network parameters:
/// linear from the nearest known point, as the node's own time
/// translation does it.
pub open spec fn sp_slot_to_wallclock(t: WellKnownTimes, slot: u64) -> int {
    if slot < t.shelley_known_slot {
        t.byron_known_time + (slot - t.byron_known_slot) * t.byron_slot_length
    } else {
        t.shelley_known_time + (slot - t.shelley_known_slot) * t.shelley_slot_length
    }
}

/// The parameter sizes every well-known network respects.
pub open spec fn wk_bounded(t: WellKnownTimes) -> bool {
    &&& t.byron_known_slot == 0
    &&& t.byron_slot_length <= 20
    &&& t.shelley_slot_length <= 20
    &&& t.byron_known_time <= 4294967296
    &&& t.shelley_known_time <= 4294967296
}

/// The wall-clock second of a slot.
pub fn slot_to_wallclock(t: &WellKnownTimes, slot: u64) -> (r: u128)
    requires
        wk_bounded(*t),
    ensures
        r == sp_slot_to_wallclock(*t, slot),
        r <= 400000000000000000000,
{
    if slot < t.shelley_known_slot {
        proof {
            assert((slot as int) * (t.byron_slot_length as int) <= 368934881474191032300)
                by (nonlinear_arith)
                requires
                    slot <= 18446744073709551615,
                    t.byron_slot_length <= 20,
            ;
        }
        (t.byron_known_time as u128) + (slot as u128) * (t.byron_slot_length as u128)
    } else {
        proof {
            assert(((slot - t.shelley_known_slot) as int) * (t.shelley_slot_length as int)
                <= 368934881474191032300) by (nonlinear_arith)
                requires
                    t.shelley_known_slot <= slot <= 18446744073709551615,
                    t.shelley_slot_length <= 20,
            ;
        }
        (t.shelley_known_time as u128) + ((slot - t.shelley_known_slot) as u128)
            * (t.shelley_slot_length as u128)
    }
}

/// The days from the Unix epoch to the first of January of a year of the
/// common era.
pub open spec fn sp_days_to_jan1(year: int) -> int {
    let y = year - 1;
    let era = y / 400;
    let yoe = y - era * 400;
    let doe = yoe * 365 + yoe / 4 - yoe / 100 + 306;
    era * 146097 + doe - 719468
}

/// The days from the Unix epoch to the first of January.
pub fn days_to_jan1(year: i64) -> (r: i64)
    requires
        1 <= year <= 400000,
    ensures
        r == sp_days_to_jan1(year as int),
{
    let y = year - 1;
    let era = y / 400;
    let yoe = y - era * 400;
    let doe = yoe * 365 + yoe / 4 - yoe / 100 + 306;
    era * 146097 + doe - 719468
}

/// Whole seconds of a nanosecond span, truncated toward zero, the way
/// wall-clock durations are counted.
pub open spec fn sp_whole_seconds(ns: int) -> int {
    if ns >= 0 {
        ns / 1000000000
    } else {
        -((-ns) / 1000000000)
    }
}

/// The moment the network started, in nanoseconds since the Unix epoch.
pub open spec fn sp_utc_start_ns(start: SystemStart) -> int {
    sp_days_to_jan1(start.year as int) * 86400000000000 + (start.day_of_year - 1) * 86400000000000
        + start.picoseconds_of_day / 1000
}

/// The sync progress record: the percentage as a ratio of whole seconds,
/// and the chain point's coordinates.
#[derive(Debug, PartialEq, Eq)]
pub struct SyncProgress {
    pub percentage_num: i128,
    pub percentage_den: i128,
    pub era: u16,
    pub epoch: u32,
    pub slot: u64,
    pub block: String,
}

/// How far behind the wall clock a node may be while still reported
/// fully synced, in seconds.
pub open spec fn sync_tolerance_secs() -> int {
    60
}

/// Computes the sync progress record from the state-query answers.
///
/// The answers are taken as plain values: the era and epoch, the network
/// magic of each genesis entry, the system start, the chain point, and
/// the wall clock now in nanoseconds since the Unix epoch. Exactly when
/// the chain tip is within the tolerance of now, the percentage is the
/// ratio one over one.
#[verifier::rlimit(30)]
pub fn compute_sync_progress(
    era: u16,
    epoch: u32,
    genesis_magics: &Vec<u64>,
    start: SystemStart,
    point: &ChainPoint,
    now_ns: i128,
) -> (r: Result<SyncProgress, BlockfrostError>)
    requires
        -1000000000000000000000000000000 <= now_ns <= 1000000000000000000000000000000,
    ensures
        genesis_magics@.len() == 0 ==> (r matches Err(e) && e.status_code == 500 && e.message@
            == "Expected at least one genesis"@),
        genesis_magics@.len() > 0 && sp_well_known(genesis_magics@[0]) is None ==> (r matches Err(
            e,
        ) && e.status_code == 500 && e.message@
            == "Only well-known networks are supported (unsupported network magic: "@
            + dec_of(genesis_magics@[0] as int) + ")"@),
        genesis_magics@.len() > 0 && sp_well_known(genesis_magics@[0]) is Some && !(1
            <= start.year <= 400000) ==> (r matches Err(e) && e.status_code == 500 && e.message@
            == "Invalid base date"@),
        r matches Ok(p) ==> {
            &&& genesis_magics@.len() > 0
            &&& sp_well_known(genesis_magics@[0]) is Some
            &&& 1 <= start.year <= 400000
            &&& p.era == era
            &&& p.epoch == epoch
            &&& p.slot == (match point {
                ChainPoint::Origin => 0u64,
                ChainPoint::Specific(s, _) => *s,
            })
            &&& p.block@ == (match point {
                ChainPoint::Origin => Seq::<char>::empty(),
                ChainPoint::Specific(_, h) => hex_of(h@),
            })
            &&& {
                let t = sp_well_known(genesis_magics@[0]).unwrap();
                let slot_ns = sp_slot_to_wallclock(
                    t,
                    match point {
                        ChainPoint::Origin => 0u64,
                        ChainPoint::Specific(s, _) => *s,
                    },
                ) * 1000000000;
                let capped = if now_ns < slot_ns {
                    now_ns as int
                } else {
                    slot_ns
                };
                let start_ns = sp_utc_start_ns(start);
                if sp_whole_seconds(now_ns - capped) < sync_tolerance_secs() {
                    p.percentage_num == 1 && p.percentage_den == 1
                } else {
                    p.percentage_num == sp_whole_seconds(capped - start_ns)
                        && p.percentage_den == sp_whole_seconds(now_ns - start_ns)
                }
            }
        },
        r is Ok <==> genesis_magics@.len() > 0 && sp_well_known(genesis_magics@[0]) is Some && 1
            <= start.year <= 400000,
{
    if genesis_magics.len() == 0 {
        return Err(
            BlockfrostError::internal_server_error(String::from_str("Expected at least one genesis")),
        );
    }
    let magic = genesis_magics[0];
    let times = match well_known_times(magic) {
        Some(t) => t,
        None => {
            let mut m = String::from_str(
                "Only well-known networks are supported (unsupported network magic: ",
            );
            let d = u64_to_dec(magic);
            m.append(d.as_str());
            m.append(")");
            return Err(BlockfrostError::internal_server_error(m));
        },
    };
    if !(1 <= start.year && start.year <= 400000) {
        return Err(BlockfrostError::internal_server_error(String::from_str("Invalid base date")));
    }
    let slot: u64 = match point {
        ChainPoint::Origin => 0,
        ChainPoint::Specific(s, _) => *s,
    };
    proof {
        assert(wk_bounded(times));
    }
    let slot_secs: u128 = slot_to_wallclock(&times, slot);
    let slot_ns: i128 = (slot_secs as i128) * 1000000000;
    let capped: i128 = if now_ns < slot_ns {
        now_ns
    } else {
        slot_ns
    };
    let days: i64 = days_to_jan1(start.year);
    let start_ns: i128 = (days as i128) * 86400000000000 + ((start.day_of_year as i128) - 1)
        * 86400000000000 + ((start.picoseconds_of_day / 1000) as i128);
    let behind: i128 = whole_seconds(now_ns - capped);
    let (num, den): (i128, i128) = if behind < 60 {
        (1, 1)
    } else {
        (whole_seconds(capped - start_ns), whole_seconds(now_ns - start_ns))
    };
    let block: String = match point {
        ChainPoint::Origin => String::new(),
        ChainPoint::Specific(_, h) => hex_encode(h),
    };
    Ok(
        SyncProgress {
            percentage_num: num,
            percentage_den: den,
            era,
            epoch,
            slot,
            block,
        },
    )
}

/// Whole seconds of a nanosecond span, truncated toward zero.
fn whole_seconds(ns: i128) -> (r: i128)
    requires
        -10000000000000000000000000000000000 <= ns <= 10000000000000000000000000000000000,
    ensures
        r == sp_whole_seconds(ns as int),
{
    if ns >= 0 {
        ns / 1000000000
    } else {
        -((-ns) / 1000000000)
    }
}

} // verus!
