//! Frequency resolution: the clock of each cluster, derived from the
//! voltage-state tables of the power-management ("pmgr") registry entry.

use vstd::prelude::*;
use crate::decode::{
    bytes_property, c_text_equals_ignoring_case, is_c_text_ignoring_case, le_u64, read_u64_le,
    PropertyDictionary, PropertyValue,
};
use crate::status::RegistryError;

verus! {

/// The divisor that takes a voltage-state word, already divided by the
/// platform clock rate, to MHz.
pub const VOLTAGE_STATE_SCALE: u64 = 10_001_000;

/// The clocks of the two clusters, in MHz. A clock of 0 was not found and
/// stands for "unknown", never for a measured zero.
#[derive(Clone, Copy, Debug, PartialEq, Eq, Structural)]
pub struct FrequencyPair {
    pub efficiency: u64,
    pub performance: u64,
}

/// The pair before any power-management entry was seen: both clocks unknown.
pub open spec fn unknown_pair() -> FrequencyPair {
    FrequencyPair { efficiency: 0, performance: 0 }
}

/// Both clocks are known.
pub open spec fn is_complete(p: FrequencyPair) -> bool {
    p.efficiency != 0 && p.performance != 0
}

/// The text `pmgr` that names the power-management entry.
pub open spec fn pmgr_text() -> Seq<u8> {
    seq![112u8, 109u8, 103u8, 114u8]
}

/// The entry is the power manager: its "name" is a byte buffer whose text is
/// `pmgr`, in any letter case.
pub open spec fn is_pmgr(d: Map<Seq<char>, PropertyValue>) -> bool {
    match bytes_property(d, "name"@) {
        Some(n) => is_c_text_ignoring_case(n, pmgr_text()),
        None => false,
    }
}

/// The clock a voltage-state table yields: its leading 64-bit word divided by
/// the clock rate and then by [`VOLTAGE_STATE_SCALE`]. A missing table, one
/// shorter than eight bytes, or a clock rate of 0 yields none.
pub open spec fn table_clock(
    d: Map<Seq<char>, PropertyValue>,
    key: Seq<char>,
    clock_hz: u32,
) -> Option<u64> {
    match bytes_property(d, key) {
        Some(b) => if b.len() >= 8 && clock_hz > 0 {
            Some((le_u64(b) / (clock_hz as int) / (VOLTAGE_STATE_SCALE as int)) as u64)
        } else {
            None
        },
        None => None,
    }
}

/// The pair after taking in one entry: a power-management entry sets each
/// clock whose table it holds ("voltage-states1-sram" the efficiency clock,
/// "voltage-states5-sram" the performance clock); any other entry changes
/// nothing.
pub open spec fn absorb_entry(p: FrequencyPair, d: Map<Seq<char>, PropertyValue>, clock_hz: u32) -> FrequencyPair {
    if is_pmgr(d) {
        FrequencyPair {
            efficiency: match table_clock(d, "voltage-states1-sram"@, clock_hz) {
                Some(c) => c,
                None => p.efficiency,
            },
            performance: match table_clock(d, "voltage-states5-sram"@, clock_hz) {
                Some(c) => c,
                None => p.performance,
            },
        }
    } else {
        p
    }
}

/// The outcome of traversing the entries in order: the first entry whose
/// properties could not be fetched fails the traversal, and once both clocks
/// are known the entries after are not looked at.
pub open spec fn resolution_of(
    entries: Seq<Result<PropertyDictionary, RegistryError>>,
    clock_hz: u32,
) -> Result<FrequencyPair, RegistryError>
    decreases entries.len(),
{
    if entries.len() == 0 {
        Ok(unknown_pair())
    } else {
        match resolution_of(entries.drop_last(), clock_hz) {
            Err(e) => Err(e),
            Ok(p) => if is_complete(p) {
                Ok(p)
            } else {
                match entries.last() {
                    Err(e) => Err(e),
                    Ok(d) => Ok(absorb_entry(p, d@, clock_hz)),
                }
            },
        }
    }
}

/// Whether the entry is the power manager, whose tables give the clocks.
pub fn is_power_manager(props: &PropertyDictionary) -> (r: bool)
    ensures
        r == is_pmgr(props@),
{
    let pmgr: [u8; 4] = [112u8, 109u8, 103u8, 114u8];
    assert(pmgr@ =~= pmgr_text());
    match props.bytes("name") {
        Some(n) => c_text_equals_ignoring_case(n, pmgr.as_slice()),
        None => false,
    }
}

fn read_table_clock(props: &PropertyDictionary, key: &str, clock_hz: u32) -> (r: Option<u64>)
    ensures
        r == table_clock(props@, key@, clock_hz),
{
    if clock_hz == 0 {
        return None;
    }
    match props.bytes(key) {
        Some(b) => match read_u64_le(b) {
            Some(raw) => Some(raw / (clock_hz as u64) / VOLTAGE_STATE_SCALE),
            None => None,
        },
        None => None,
    }
}

/// The state of one traversal of the "AppleARMIODevice" class.
pub struct FrequencyResolver {
    pair: FrequencyPair,
}

impl View for FrequencyResolver {
    type V = FrequencyPair;

    closed spec fn view(&self) -> FrequencyPair {
        self.pair
    }
}

impl FrequencyResolver {
    /// A traversal that has seen nothing yet.
    pub fn new() -> (r: FrequencyResolver)
        ensures
            r@ == unknown_pair(),
    {
        FrequencyResolver { pair: FrequencyPair { efficiency: 0, performance: 0 } }
    }

    /// The clocks found so far.
    pub fn pair(&self) -> (r: FrequencyPair)
        ensures
            r == self@,
    {
        self.pair
    }

    /// Whether both clocks are known, so that the traversal can stop.
    pub fn is_complete(&self) -> (r: bool)
        ensures
            r == is_complete(self@),
    {
        self.pair.efficiency != 0 && self.pair.performance != 0
    }

    /// Takes in the properties of one entry, with the platform clock rate in
    /// Hz.
    pub fn absorb(&mut self, props: &PropertyDictionary, clock_hz: u32)
        ensures
            final(self)@ == absorb_entry(old(self)@, props@, clock_hz),
    {
        if is_power_manager(props) {
            if let Some(c) = read_table_clock(props, "voltage-states1-sram", clock_hz) {
                self.pair.efficiency = c;
            }
            if let Some(c) = read_table_clock(props, "voltage-states5-sram", clock_hz) {
                self.pair.performance = c;
            }
        }
    }
}

/// Resolves the cluster clocks from the entries of one traversal of the
/// "AppleARMIODevice" class, in the order the registry produced them, with the
/// platform clock rate in Hz.
pub fn resolve(
    entries: &Vec<Result<PropertyDictionary, RegistryError>>,
    clock_hz: u32,
) -> (r: Result<FrequencyPair, RegistryError>)
    ensures
        r == resolution_of(entries@, clock_hz),
{
    let mut resolver = FrequencyResolver::new();
    let mut i: usize = 0;
    while i < entries.len()
        invariant
            i <= entries@.len(),
            resolution_of(entries@.take(i as int), clock_hz) == Ok::<FrequencyPair, RegistryError>(resolver@),
            !is_complete(resolver@),
        decreases entries@.len() - i,
    {
        assert(entries@.take(i + 1).drop_last() =~= entries@.take(i as int));
        match &entries[i] {
            Err(e) => {
                proof {
                    lemma_resolution_fixed_after(entries@.take(i + 1), entries@.skip(i + 1), clock_hz);
                    assert(entries@.take(i + 1) + entries@.skip(i + 1) =~= entries@);
                }
                return Err(*e);
            },
            Ok(props) => {
                resolver.absorb(props, clock_hz);
            },
        }
        i = i + 1;
        if resolver.is_complete() {
            proof {
                lemma_resolution_fixed_after(entries@.take(i as int), entries@.skip(i as int), clock_hz);
                assert(entries@.take(i as int) + entries@.skip(i as int) =~= entries@);
            }
            return Ok(resolver.pair());
        }
    }
    assert(entries@.take(i as int) =~= entries@);
    Ok(resolver.pair())
}

/// Once a prefix of the entries has failed the traversal or made both clocks
/// known, the entries after it do not change the outcome.
pub proof fn lemma_resolution_fixed_after(
    prefix: Seq<Result<PropertyDictionary, RegistryError>>,
    rest: Seq<Result<PropertyDictionary, RegistryError>>,
    clock_hz: u32,
)
    requires
        match resolution_of(prefix, clock_hz) {
            Err(_) => true,
            Ok(p) => is_complete(p),
        },
    ensures
        resolution_of(prefix + rest, clock_hz) == resolution_of(prefix, clock_hz),
    decreases rest.len(),
{
    if rest.len() > 0 {
        lemma_resolution_fixed_after(prefix, rest.drop_last(), clock_hz);
        assert((prefix + rest).drop_last() =~= prefix + rest.drop_last());
    } else {
        assert(prefix + rest =~= prefix);
    }
}

/// The first power-management entry that holds both tables, with both clocks
/// non-zero, decides the outcome: reached with a clock still unknown, it sets
/// both clocks, and the traversal stops there whatever entries follow.
pub proof fn lemma_first_full_pmgr_wins(
    prefix: Seq<Result<PropertyDictionary, RegistryError>>,
    d: PropertyDictionary,
    rest: Seq<Result<PropertyDictionary, RegistryError>>,
    clock_hz: u32,
    efficiency: u64,
    performance: u64,
)
    requires
        resolution_of(prefix, clock_hz) matches Ok(p) && !is_complete(p),
        is_pmgr(d@),
        table_clock(d@, "voltage-states1-sram"@, clock_hz) == Some(efficiency),
        table_clock(d@, "voltage-states5-sram"@, clock_hz) == Some(performance),
        efficiency != 0,
        performance != 0,
    ensures
        resolution_of(prefix.push(Ok(d)) + rest, clock_hz) == Ok::<FrequencyPair, RegistryError>(
            FrequencyPair { efficiency, performance },
        ),
{
    let with_d = prefix.push(Ok(d));
    assert(with_d.drop_last() =~= prefix);
    lemma_resolution_fixed_after(with_d, rest, clock_hz);
}

/// Without a power-management entry the clocks stay unknown: a traversal
/// whose entries were all fetched and none of which is the power manager
/// (among them, one with no entries at all) resolves to (0, 0).
pub proof fn lemma_no_pmgr_leaves_clocks_unknown(entries: Seq<Result<PropertyDictionary, RegistryError>>, clock_hz: u32)
    requires
        forall|i: int| 0 <= i < entries.len() ==> (#[trigger] entries[i] matches Ok(d) && !is_pmgr(d@)),
    ensures
        resolution_of(entries, clock_hz) == Ok::<FrequencyPair, RegistryError>(unknown_pair()),
    decreases entries.len(),
{
    if entries.len() > 0 {
        let pre = entries.drop_last();
        assert forall|i: int| 0 <= i < pre.len() implies (#[trigger] pre[i] matches Ok(d) && !is_pmgr(d@)) by {
            assert(pre[i] == entries[i]);
        }
        lemma_no_pmgr_leaves_clocks_unknown(pre, clock_hz);
        assert(entries[entries.len() - 1] == entries.last());
    }
}

} // verus!
