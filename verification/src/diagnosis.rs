//! Diagnostic counters and the accumulator that merges them.
//!
//! Diagnostic retrieval issues several independent request frames; each
//! response carries a two-byte discriminator at offsets 2 and 3 that selects
//! which counters the frame updates.  The accumulator parses the responses
//! in order, overwriting recognized counters (last parse wins) and skipping
//! frames with an unrecognized discriminator without error.

use vstd::prelude::*;

use crate::error::IqosError;
use crate::wire::{le16, spec_le16};

verus! {

/// Request frame that asks for the telemetry counters.
pub const LOAD_TOTAL_SMOKING_SIGNAL: [u8; 8] = [0x00, 0xC9, 0x10, 0x02, 0x01, 0x01, 0x75, 0xD6];

/// Request frame that asks for the timestamp counters.
pub const LOAD_TIMESTAMP_SIGNAL: [u8; 8] = [0x00, 0xC0, 0x10, 0x02, 0x00, 0x04, 0x38, 0xEF];

/// Request frame that asks for the usage-count and heating-time counters.
pub const LOAD_USAGE_COUNT_HEATING_TIME_SIGNAL: [u8; 8] = [
    0x00,
    0xC9,
    0x10,
    0x02,
    0x01,
    0x01,
    0x75,
    0xD6,
];

/// Request frame that asks for the battery voltage.
pub const LOAD_BATTERY_VOLTAGE_SIGNAL: [u8; 5] = [0x00, 0xC0, 0x00, 0x21, 0xE7];

/// Discriminator of a telemetry fragment.
pub const TOTAL_SMOKING_HEADER: [u8; 2] = [0x90, 0x22];

/// Discriminator of a timestamp fragment.
pub const TIMESTAMP_HEADER: [u8; 2] = [0x80, 0x02];

/// Discriminator of a battery-voltage fragment.
pub const BATTERY_VOLTAGE_HEADER: [u8; 2] = [0x88, 0x21];

/// Every diagnosis response must carry at least the discriminator bytes.
pub const DIAGNOSIS_FRAME_MIN_LEN: usize = 4;

/// A telemetry fragment reads counters up to offsets 34 and 35.
pub const TELEMETRY_FRAGMENT_MIN_LEN: usize = 36;

/// A timestamp fragment reads the days-used counter at offsets 4 and 5.
pub const TIMESTAMP_FRAGMENT_MIN_LEN: usize = 8;

/// A battery-voltage fragment reads the raw millivolt value at offsets 5 and 6.
pub const BATTERY_FRAGMENT_MIN_LEN: usize = 7;

/// A set of independently-optional diagnostic counters.
///
/// The battery reading is kept as the raw millivolt value the frame carries;
/// presentation layers derive volts from it.  A report is complete once the
/// total usage count and the session count are both populated; every other
/// counter may stay absent.
#[derive(Debug, Clone, PartialEq, Eq, Structural)]
pub struct Diagnosis {
    pub total_smoking_count: Option<u16>,
    pub session: Option<u8>,
    pub days_used: Option<u16>,
    pub heating_count: Option<u32>,
    pub composite_counter: Option<u16>,
    pub battery_millivolts: Option<u16>,
    pub usage_period: Option<u8>,
    pub total_heating_time: Option<u32>,
}

/// The report with every counter absent.
pub open spec fn spec_empty_diagnosis() -> Diagnosis {
    Diagnosis {
        total_smoking_count: None,
        session: None,
        days_used: None,
        heating_count: None,
        composite_counter: None,
        battery_millivolts: None,
        usage_period: None,
        total_heating_time: None,
    }
}

/// A report is complete once both required counters are populated.
pub open spec fn spec_is_complete(d: Diagnosis) -> bool {
    d.total_smoking_count is Some && d.session is Some
}

impl Default for Diagnosis {
    /// The empty report.
    fn default() -> (r: Self)
        ensures
            r == spec_empty_diagnosis(),
    {
        Diagnosis::new()
    }
}

impl Diagnosis {
    /// Creates a new empty report.
    pub fn new() -> (r: Self)
        ensures
            r == spec_empty_diagnosis(),
    {
        Diagnosis {
            total_smoking_count: None,
            session: None,
            days_used: None,
            heating_count: None,
            composite_counter: None,
            battery_millivolts: None,
            usage_period: None,
            total_heating_time: None,
        }
    }

    /// Creates a builder for constructing a report incrementally.
    pub fn builder() -> (r: DiagnosisBuilder)
        ensures
            r.inner == spec_empty_diagnosis(),
    {
        DiagnosisBuilder::new()
    }

    pub fn total_usage_count(&self) -> (r: Option<u16>)
        ensures
            r == self.total_smoking_count,
    {
        self.total_smoking_count
    }

    pub fn session(&self) -> (r: Option<u8>)
        ensures
            r == self.session,
    {
        self.session
    }

    pub fn days_used(&self) -> (r: Option<u16>)
        ensures
            r == self.days_used,
    {
        self.days_used
    }

    pub fn heating_count(&self) -> (r: Option<u32>)
        ensures
            r == self.heating_count,
    {
        self.heating_count
    }

    pub fn composite_counter(&self) -> (r: Option<u16>)
        ensures
            r == self.composite_counter,
    {
        self.composite_counter
    }

    /// The raw battery reading in millivolts; the voltage in volts is this
    /// value divided by one thousand.
    pub fn battery_millivolts(&self) -> (r: Option<u16>)
        ensures
            r == self.battery_millivolts,
    {
        self.battery_millivolts
    }

    pub fn usage_period(&self) -> (r: Option<u8>)
        ensures
            r == self.usage_period,
    {
        self.usage_period
    }

    pub fn total_heating_time(&self) -> (r: Option<u32>)
        ensures
            r == self.total_heating_time,
    {
        self.total_heating_time
    }

    /// Returns true if both required counters are populated.
    pub fn is_complete(&self) -> (r: bool)
        ensures
            r == spec_is_complete(*self),
    {
        self.total_smoking_count.is_some() && self.session.is_some()
    }
}

/// What parsing one response buffer does to a report.
///
/// A buffer shorter than the discriminator fails; a recognized discriminator
/// demands its fragment's minimum length and overwrites exactly the counters
/// its shape carries; an unrecognized discriminator is accepted and updates
/// nothing.
pub open spec fn spec_parse_fragment(d: Diagnosis, bytes: Seq<u8>) -> Result<
    Diagnosis,
    IqosError,
> {
    if bytes.len() < DIAGNOSIS_FRAME_MIN_LEN {
        Err(IqosError::FrameTooShort { expected_min: DIAGNOSIS_FRAME_MIN_LEN })
    } else if bytes[2] == TOTAL_SMOKING_HEADER[0] && bytes[3] == TOTAL_SMOKING_HEADER[1] {
        if bytes.len() < TELEMETRY_FRAGMENT_MIN_LEN {
            Err(IqosError::FrameTooShort { expected_min: TELEMETRY_FRAGMENT_MIN_LEN })
        } else {
            Ok(
                Diagnosis {
                    total_smoking_count: Some(spec_le16(bytes[10], bytes[11])),
                    session: Some(bytes[13]),
                    composite_counter: Some(spec_le16(bytes[26], bytes[27])),
                    days_used: Some(spec_le16(bytes[34], bytes[35])),
                    ..d
                },
            )
        }
    } else if bytes[2] == TIMESTAMP_HEADER[0] && bytes[3] == TIMESTAMP_HEADER[1] {
        if bytes.len() < TIMESTAMP_FRAGMENT_MIN_LEN {
            Err(IqosError::FrameTooShort { expected_min: TIMESTAMP_FRAGMENT_MIN_LEN })
        } else {
            Ok(Diagnosis { days_used: Some(spec_le16(bytes[4], bytes[5])), ..d })
        }
    } else if bytes[2] == BATTERY_VOLTAGE_HEADER[0] && bytes[3] == BATTERY_VOLTAGE_HEADER[1] {
        if bytes.len() < BATTERY_FRAGMENT_MIN_LEN {
            Err(IqosError::FrameTooShort { expected_min: BATTERY_FRAGMENT_MIN_LEN })
        } else {
            Ok(Diagnosis { battery_millivolts: Some(spec_le16(bytes[5], bytes[6])), ..d })
        }
    } else {
        Ok(d)
    }
}

/// What parsing a list of response buffers in order does to a report:
/// each buffer is parsed in turn, and the first failure stops the run with
/// every earlier update committed.
pub open spec fn spec_parse_all(d: Diagnosis, responses: Seq<Seq<u8>>) -> Result<
    Diagnosis,
    IqosError,
>
    decreases responses.len(),
{
    if responses.len() == 0 {
        Ok(d)
    } else {
        match spec_parse_fragment(d, responses[0]) {
            Ok(d2) => spec_parse_all(d2, responses.skip(1)),
            Err(e) => Err(e),
        }
    }
}

/// A builder that accumulates diagnosis counters from successive byte
/// responses; parsing is last-wins per counter.
#[derive(Debug, Clone, PartialEq, Eq, Structural)]
pub struct DiagnosisBuilder {
    pub inner: Diagnosis,
}

impl Default for DiagnosisBuilder {
    /// A builder over the empty report.
    fn default() -> (r: Self)
        ensures
            r.inner == spec_empty_diagnosis(),
    {
        DiagnosisBuilder::new()
    }
}

impl DiagnosisBuilder {
    /// Creates a builder over an empty report.
    pub fn new() -> (r: Self)
        ensures
            r.inner == spec_empty_diagnosis(),
    {
        DiagnosisBuilder { inner: Diagnosis::new() }
    }

    /// Parses one response buffer and updates the accumulated counters the
    /// way its discriminator demands; unrecognized discriminators update
    /// nothing and are not an error.
    pub fn parse(self, bytes: &[u8]) -> (r: Result<Self, IqosError>)
        ensures
            r matches Ok(b) ==> spec_parse_fragment(self.inner, bytes@) == Ok::<
                Diagnosis,
                IqosError,
            >(b.inner),
            r matches Err(e) ==> spec_parse_fragment(self.inner, bytes@) == Err::<
                Diagnosis,
                IqosError,
            >(e),
    {
        if bytes.len() < DIAGNOSIS_FRAME_MIN_LEN {
            return Err(IqosError::FrameTooShort { expected_min: DIAGNOSIS_FRAME_MIN_LEN });
        }
        let mut inner = self.inner;
        if bytes[2] == TOTAL_SMOKING_HEADER[0] && bytes[3] == TOTAL_SMOKING_HEADER[1] {
            if bytes.len() < TELEMETRY_FRAGMENT_MIN_LEN {
                return Err(IqosError::FrameTooShort { expected_min: TELEMETRY_FRAGMENT_MIN_LEN });
            }
            inner.total_smoking_count = Some(le16(bytes[10], bytes[11]));
            inner.session = Some(bytes[13]);
            inner.composite_counter = Some(le16(bytes[26], bytes[27]));
            inner.days_used = Some(le16(bytes[34], bytes[35]));
        } else if bytes[2] == TIMESTAMP_HEADER[0] && bytes[3] == TIMESTAMP_HEADER[1] {
            if bytes.len() < TIMESTAMP_FRAGMENT_MIN_LEN {
                return Err(IqosError::FrameTooShort { expected_min: TIMESTAMP_FRAGMENT_MIN_LEN });
            }
            inner.days_used = Some(le16(bytes[4], bytes[5]));
        } else if bytes[2] == BATTERY_VOLTAGE_HEADER[0] && bytes[3] == BATTERY_VOLTAGE_HEADER[1] {
            if bytes.len() < BATTERY_FRAGMENT_MIN_LEN {
                return Err(IqosError::FrameTooShort { expected_min: BATTERY_FRAGMENT_MIN_LEN });
            }
            inner.battery_millivolts = Some(le16(bytes[5], bytes[6]));
        }
        Ok(DiagnosisBuilder { inner })
    }

    /// Parses several response buffers in the given order, stopping at the
    /// first failure with every earlier update committed.
    pub fn parse_all(self, responses: &Vec<Vec<u8>>) -> (r: Result<Self, IqosError>)
        ensures
            r matches Ok(b) ==> spec_parse_all(self.inner, responses.deep_view()) == Ok::<
                Diagnosis,
                IqosError,
            >(b.inner),
            r matches Err(e) ==> spec_parse_all(self.inner, responses.deep_view()) == Err::<
                Diagnosis,
                IqosError,
            >(e),
    {
        let ghost init = self.inner;
        let ghost all = responses.deep_view();
        let mut builder = self;
        proof {
            assert(all.skip(0) =~= all);
        }
        for i in 0..responses.len()
            invariant
                all == responses.deep_view(),
                init == self.inner,
                spec_parse_all(builder.inner, all.skip(i as int)) == spec_parse_all(init, all),
        {
            proof {
                assert(all.skip(i as int)[0] == all[i as int]);
                assert(all.skip(i as int).skip(1) =~= all.skip(i as int + 1));
                assert(all[i as int] =~= responses@[i as int]@);
            }
            let ghost pre = builder.inner;
            match builder.parse(responses[i].as_slice()) {
                Ok(b) => {
                    builder = b;
                },
                Err(e) => {
                    proof {
                        assert(spec_parse_all(pre, all.skip(i as int)) == Err::<
                            Diagnosis,
                            IqosError,
                        >(e));
                        assert(spec_parse_all(init, all) == Err::<Diagnosis, IqosError>(e));
                    }
                    return Err(e);
                },
            }
        }
        proof {
            assert(all.skip(responses.len() as int) =~= Seq::<Seq<u8>>::empty());
        }
        Ok(builder)
    }

    /// Finalizes the builder and returns the accumulated, possibly partial,
    /// report.
    pub fn build(self) -> (r: Diagnosis)
        ensures
            r == self.inner,
    {
        self.inner
    }

    /// Finalizes the builder, failing exactly when the total usage count or
    /// the session count is absent.
    pub fn build_complete(self) -> (r: Result<Diagnosis, IqosError>)
        ensures
            spec_is_complete(self.inner) ==> r == Ok::<Diagnosis, IqosError>(self.inner),
            !spec_is_complete(self.inner) ==> r == Err::<Diagnosis, IqosError>(IqosError::Incomplete),
    {
        if !self.inner.is_complete() {
            return Err(IqosError::Incomplete);
        }
        Ok(self.inner)
    }

    /// Overwrites the total usage count.
    pub fn with_total_usage_count(self, value: u16) -> (r: Self)
        ensures
            r.inner == (Diagnosis { total_smoking_count: Some(value), ..self.inner }),
    {
        DiagnosisBuilder { inner: Diagnosis { total_smoking_count: Some(value), ..self.inner } }
    }

    /// Overwrites the session count.
    pub fn with_session(self, value: u8) -> (r: Self)
        ensures
            r.inner == (Diagnosis { session: Some(value), ..self.inner }),
    {
        DiagnosisBuilder { inner: Diagnosis { session: Some(value), ..self.inner } }
    }

    /// Overwrites the days-used counter.
    pub fn with_days_used(self, value: u16) -> (r: Self)
        ensures
            r.inner == (Diagnosis { days_used: Some(value), ..self.inner }),
    {
        DiagnosisBuilder { inner: Diagnosis { days_used: Some(value), ..self.inner } }
    }

    /// Overwrites the heating count.
    pub fn with_heating_count(self, value: u32) -> (r: Self)
        ensures
            r.inner == (Diagnosis { heating_count: Some(value), ..self.inner }),
    {
        DiagnosisBuilder { inner: Diagnosis { heating_count: Some(value), ..self.inner } }
    }

    /// Overwrites the raw battery reading in millivolts.
    pub fn with_battery_millivolts(self, value: u16) -> (r: Self)
        ensures
            r.inner == (Diagnosis { battery_millivolts: Some(value), ..self.inner }),
    {
        DiagnosisBuilder { inner: Diagnosis { battery_millivolts: Some(value), ..self.inner } }
    }

    /// Overwrites the usage period.
    pub fn with_usage_period(self, value: u8) -> (r: Self)
        ensures
            r.inner == (Diagnosis { usage_period: Some(value), ..self.inner }),
    {
        DiagnosisBuilder { inner: Diagnosis { usage_period: Some(value), ..self.inner } }
    }

    /// Overwrites the total heating time.
    pub fn with_total_heating_time(self, value: u32) -> (r: Self)
        ensures
            r.inner == (Diagnosis { total_heating_time: Some(value), ..self.inner }),
    {
        DiagnosisBuilder { inner: Diagnosis { total_heating_time: Some(value), ..self.inner } }
    }
}

/// The diagnostic merge is field-independent: a telemetry fragment and a
/// battery-voltage fragment update disjoint counters, so parsing them in
/// either order succeeds and yields the same final report.
pub proof fn lemma_disjoint_fragments_commute(d: Diagnosis, t: Seq<u8>, b: Seq<u8>)
    requires
        t.len() >= TELEMETRY_FRAGMENT_MIN_LEN,
        t[2] == TOTAL_SMOKING_HEADER[0] && t[3] == TOTAL_SMOKING_HEADER[1],
        b.len() >= BATTERY_FRAGMENT_MIN_LEN,
        b[2] == BATTERY_VOLTAGE_HEADER[0] && b[3] == BATTERY_VOLTAGE_HEADER[1],
    ensures
        spec_parse_fragment(d, t) is Ok,
        spec_parse_fragment(d, b) is Ok,
        spec_parse_fragment(spec_parse_fragment(d, t)->Ok_0, b) == spec_parse_fragment(
            spec_parse_fragment(d, b)->Ok_0,
            t,
        ),
{
}

/// Parsing the list of a telemetry fragment and a battery-voltage fragment
/// yields the identical final report in either order, since no counter
/// appears in both fragments.
pub proof fn lemma_disjoint_lists_merge_equal(d: Diagnosis, t: Seq<u8>, b: Seq<u8>)
    requires
        t.len() >= TELEMETRY_FRAGMENT_MIN_LEN,
        t[2] == TOTAL_SMOKING_HEADER[0] && t[3] == TOTAL_SMOKING_HEADER[1],
        b.len() >= BATTERY_FRAGMENT_MIN_LEN,
        b[2] == BATTERY_VOLTAGE_HEADER[0] && b[3] == BATTERY_VOLTAGE_HEADER[1],
    ensures
        spec_parse_all(d, seq![t, b]) is Ok,
        spec_parse_all(d, seq![t, b]) == spec_parse_all(d, seq![b, t]),
{
    lemma_disjoint_fragments_commute(d, t, b);
    let dt = spec_parse_fragment(d, t)->Ok_0;
    let db = spec_parse_fragment(d, b)->Ok_0;
    assert(seq![t, b][0] == t && seq![b, t][0] == b);
    assert(seq![t, b].skip(1) =~= seq![b]);
    assert(seq![b, t].skip(1) =~= seq![t]);
    assert(seq![b][0] == b && seq![t][0] == t);
    assert(seq![b].skip(1) =~= Seq::<Seq<u8>>::empty());
    assert(seq![t].skip(1) =~= Seq::<Seq<u8>>::empty());
    assert(spec_parse_all(d, seq![t, b]) == spec_parse_all(dt, seq![b]));
    assert(spec_parse_all(dt, seq![b]) == spec_parse_all(
        spec_parse_fragment(dt, b)->Ok_0,
        Seq::<Seq<u8>>::empty(),
    ));
    assert(spec_parse_all(d, seq![b, t]) == spec_parse_all(db, seq![t]));
    assert(spec_parse_all(db, seq![t]) == spec_parse_all(
        spec_parse_fragment(db, t)->Ok_0,
        Seq::<Seq<u8>>::empty(),
    ));
}

/// The diagnostic merge is order-dependent where two fragments carry the
/// same counter: parsing one timestamp fragment after another leaves the
/// days-used counter of the one parsed last.
pub proof fn lemma_same_counter_last_wins(d: Diagnosis, first: Seq<u8>, second: Seq<u8>)
    requires
        first.len() >= TIMESTAMP_FRAGMENT_MIN_LEN,
        first[2] == TIMESTAMP_HEADER[0] && first[3] == TIMESTAMP_HEADER[1],
        second.len() >= TIMESTAMP_FRAGMENT_MIN_LEN,
        second[2] == TIMESTAMP_HEADER[0] && second[3] == TIMESTAMP_HEADER[1],
    ensures
        spec_parse_fragment(d, first) is Ok,
        spec_parse_fragment(spec_parse_fragment(d, first)->Ok_0, second) matches Ok(r)
            && r.days_used == Some(spec_le16(second[4], second[5])),
{
}

} // verus!
