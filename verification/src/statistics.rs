//! The integer side of the Statistics answer: counts, byte and time totals,
//! codec frequencies, the calendar range, the cumulative savings series and
//! run totals. Conversion savings, times and codecs cover converted facts
//! only; remux facts are counted and summed separately. The ratios and
//! spreads a caller derives in floating point come from the sized pairs and
//! the fixed-point samples kept here.

use vstd::prelude::*;

use crate::key_order::records_by_key;

use crate::lookup::{
    entry_views, find_key, first_index, keyed, lemma_first_index, lemma_first_index_is, lemma_first_index_none,
    lookup, put_key, upsert,
};
use crate::model::{views, Duplicate, SameView};
use crate::text::{lemma_text_less_asymmetric, lemma_text_less_transitive, text_less, text_precedes};
use crate::projection::{collect_stat_facts, epoch_day, local_epoch_day, one_more, run_totals, run_totals_of, stat_facts_of};
use crate::{
    ContentKeyView, Crf, DurableState, DurableStateView, FileRecordView, ParkedRecord, ParkedRecordView,
    ParkedStatus, RunTotals, StatFact, StatFactKind, StatFactView, UnixMillis, VideoCodec, VideoCodecView,
    VmafScore,
};

verus! {

/// One contribution to the Statistics answer.
pub enum StatSample {
    Converted {
        at: UnixMillis,
        codec: Option<VideoCodecView>,
        input: Option<u64>,
        output: Option<u64>,
        time_ms: u64,
        vmaf: Option<VmafScore>,
        crf: Option<Crf>,
    },
    Remuxed { saved: Option<i128> },
    NotWorthwhile,
    Nothing,
}

/// A sum of two times, saturating at the maximum.
pub open spec fn saturated_u64(value: int) -> u64 {
    if value > u64::MAX { u64::MAX } else { value as u64 }
}

/// A sum of two byte totals, saturating at the maximum.
pub open spec fn saturated_u128(value: int) -> u128 {
    if value > u128::MAX { u128::MAX } else { value as u128 }
}

/// A signed sum, saturating at either bound.
pub open spec fn saturated_i128(value: int) -> i128 {
    if value > i128::MAX {
        i128::MAX
    } else if value < i128::MIN {
        i128::MIN
    } else {
        value as i128
    }
}

/// What a fact decided by a run contributes.
pub open spec fn native_sample(fact: StatFactView) -> StatSample {
    match fact.kind {
        StatFactKind::Converted => StatSample::Converted {
            at: fact.finished_at,
            codec: Some(fact.codec),
            input: fact.input_size_bytes,
            output: fact.output_size_bytes,
            time_ms: saturated_u64(fact.analyzing_ms + fact.encoding_ms),
            vmaf: fact.vmaf,
            crf: fact.crf,
        },
        StatFactKind::Remuxed => StatSample::Remuxed {
            saved: match (fact.input_size_bytes, fact.output_size_bytes) {
                (Some(input), Some(output)) => Some((input - output) as i128),
                _ => None,
            },
        },
        StatFactKind::NotWorthwhile { .. } => StatSample::NotWorthwhile,
    }
}

/// What an imported record contributes: a converted or not-worthwhile
/// record counts, a merely scanned or analyzed one does not.
pub open spec fn imported_sample(record: ParkedRecordView) -> StatSample {
    match record.status {
        ParkedStatus::Converted => StatSample::Converted {
            at: record.decided_at,
            codec: record.video_codec,
            input: record.size,
            output: record.output_size,
            time_ms: match record.encoding_time {
                Some(duration) => duration.0,
                None => 0,
            },
            vmaf: record.vmaf,
            crf: record.crf,
        },
        ParkedStatus::NotWorthwhile => StatSample::NotWorthwhile,
        ParkedStatus::Scanned | ParkedStatus::Analyzed => StatSample::Nothing,
    }
}

/// The decisive imported record behind a fact, if the fact was adopted from
/// an import rather than decided by a run.
pub open spec fn adopted_record(records: Seq<(ContentKeyView, FileRecordView)>, fact: StatFactView) -> Option<ParkedRecordView> {
    if fact.source_run is Some {
        None
    } else {
        match lookup(records, fact.content_key) {
            Some(record) => match record.imported {
                Some(provenance) => match provenance.record.status {
                    ParkedStatus::Converted | ParkedStatus::NotWorthwhile => Some(provenance.record),
                    _ => None,
                },
                None => None,
            },
            None => None,
        }
    }
}

/// What a fact contributes: an adopted fact counts as its imported record.
pub open spec fn fact_sample(records: Seq<(ContentKeyView, FileRecordView)>, fact: StatFactView) -> StatSample {
    match adopted_record(records, fact) {
        Some(record) => imported_sample(record),
        None => native_sample(fact),
    }
}

/// What the facts contribute, in order.
pub open spec fn fact_samples(records: Seq<(ContentKeyView, FileRecordView)>, facts: Seq<StatFactView>) -> Seq<StatSample> {
    facts.map_values(|fact: StatFactView| fact_sample(records, fact))
}

/// What the parked imports contribute, in order.
pub open spec fn parked_samples(parked: Seq<(crate::ImportPathView, ParkedRecordView)>) -> Seq<StatSample> {
    parked.map_values(|entry: (crate::ImportPathView, ParkedRecordView)| imported_sample(entry.1))
}

/// Every contribution of the durable state: the current facts, then the
/// parked imports.
pub open spec fn samples_of(state: DurableStateView) -> Seq<StatSample> {
    fact_samples(state.records, stat_facts_of(state, records_by_key(state.records))) + parked_samples(state.parked)
}

/// The running aggregates of the Statistics answer.
pub struct StatisticsTally {
    pub converted_files: u32,
    pub sized_converted_files: u32,
    pub remuxed_files: u32,
    pub not_worthwhile_files: u32,
    pub total_input: u128,
    pub total_output: u128,
    pub remux_saved: i128,
    pub total_time_ms: u64,
    pub grew_count: u32,
    /// Converted facts per source codec, in first-counted order; no codec
    /// twice.
    pub codecs: Vec<(VideoCodec, u32)>,
    /// Saved bytes per local calendar day, days strictly increasing.
    pub daily_savings: Vec<(i64, i128)>,
    pub first_epoch_day: Option<i64>,
    pub last_epoch_day: Option<i64>,
    /// Input and output sizes of the converted facts that carry both.
    pub sizes: Vec<(u64, u64)>,
    pub vmaf_scores: Vec<VmafScore>,
    pub crfs: Vec<Crf>,
}

/// The mathematical value of [`StatisticsTally`].
pub struct StatisticsTallyView {
    pub converted_files: u32,
    pub sized_converted_files: u32,
    pub remuxed_files: u32,
    pub not_worthwhile_files: u32,
    pub total_input: u128,
    pub total_output: u128,
    pub remux_saved: i128,
    pub total_time_ms: u64,
    pub grew_count: u32,
    pub codecs: Seq<(VideoCodecView, u32)>,
    pub daily_savings: Seq<(i64, i128)>,
    pub first_epoch_day: Option<i64>,
    pub last_epoch_day: Option<i64>,
    pub sizes: Seq<(u64, u64)>,
    pub vmaf_scores: Seq<VmafScore>,
    pub crfs: Seq<Crf>,
}

impl View for StatisticsTally {
    type V = StatisticsTallyView;

    open spec fn view(&self) -> StatisticsTallyView {
        StatisticsTallyView {
            converted_files: self.converted_files,
            sized_converted_files: self.sized_converted_files,
            remuxed_files: self.remuxed_files,
            not_worthwhile_files: self.not_worthwhile_files,
            total_input: self.total_input,
            total_output: self.total_output,
            remux_saved: self.remux_saved,
            total_time_ms: self.total_time_ms,
            grew_count: self.grew_count,
            codecs: entry_views(self.codecs@),
            daily_savings: self.daily_savings@,
            first_epoch_day: self.first_epoch_day,
            last_epoch_day: self.last_epoch_day,
            sizes: self.sizes@,
            vmaf_scores: self.vmaf_scores@,
            crfs: self.crfs@,
        }
    }
}

/// Nothing counted yet.
pub open spec fn empty_tally() -> StatisticsTallyView {
    StatisticsTallyView {
        converted_files: 0,
        sized_converted_files: 0,
        remuxed_files: 0,
        not_worthwhile_files: 0,
        total_input: 0,
        total_output: 0,
        remux_saved: 0,
        total_time_ms: 0,
        grew_count: 0,
        codecs: Seq::empty(),
        daily_savings: Seq::empty(),
        first_epoch_day: None,
        last_epoch_day: None,
        sizes: Seq::empty(),
        vmaf_scores: Seq::empty(),
        crfs: Seq::empty(),
    }
}

/// The codec counts with one more converted fact of `codec`.
pub open spec fn counted_codec(codecs: Seq<(VideoCodecView, u32)>, codec: VideoCodecView) -> Seq<(VideoCodecView, u32)> {
    upsert(
        codecs,
        keyed(codec),
        (codec, match lookup(codecs, codec) {
            Some(count) => one_more(count),
            None => 1u32,
        }),
    )
}

/// Whether a day entry falls on or after `day`.
pub open spec fn on_or_after(day: i64) -> spec_fn((i64, i128)) -> bool {
    |entry: (i64, i128)| entry.0 >= day
}

/// The daily savings with `saved` added on `day`, days kept in increasing
/// order.
pub open spec fn saved_on(days: Seq<(i64, i128)>, day: i64, saved: i128) -> Seq<(i64, i128)> {
    let index = first_index(days, on_or_after(day));
    if index >= 0 && days[index].0 == day {
        days.update(index, (day, saturated_i128(days[index].1 + saved)))
    } else if index >= 0 {
        days.insert(index, (day, saved))
    } else {
        days.push((day, saved))
    }
}

/// The earlier of a known first day and `day`.
pub open spec fn earliest(first: Option<i64>, day: i64) -> i64 {
    match first {
        Some(first) => if first <= day { first } else { day },
        None => day,
    }
}

/// The later of a known last day and `day`.
pub open spec fn latest(last: Option<i64>, day: i64) -> i64 {
    match last {
        Some(last) => if last >= day { last } else { day },
        None => day,
    }
}

/// The tally after one converted contribution.
pub open spec fn tallied_conversion(
    tally: StatisticsTallyView,
    at: UnixMillis,
    codec: Option<VideoCodecView>,
    input: Option<u64>,
    output: Option<u64>,
    time_ms: u64,
    vmaf: Option<VmafScore>,
    crf: Option<Crf>,
    utc_offset_minutes: i32,
) -> StatisticsTallyView {
    let day = epoch_day(at, utc_offset_minutes) as i64;
    let counted = StatisticsTallyView {
        converted_files: one_more(tally.converted_files),
        total_time_ms: saturated_u64(tally.total_time_ms + time_ms),
        codecs: match codec {
            Some(codec) => counted_codec(tally.codecs, codec),
            None => tally.codecs,
        },
        vmaf_scores: match vmaf {
            Some(score) => tally.vmaf_scores.push(score),
            None => tally.vmaf_scores,
        },
        crfs: match crf {
            Some(crf) => tally.crfs.push(crf),
            None => tally.crfs,
        },
        first_epoch_day: Some(earliest(tally.first_epoch_day, day)),
        last_epoch_day: Some(latest(tally.last_epoch_day, day)),
        ..tally
    };
    match (input, output) {
        (Some(input), Some(output)) => StatisticsTallyView {
            sized_converted_files: one_more(counted.sized_converted_files),
            total_input: saturated_u128(counted.total_input + input),
            total_output: saturated_u128(counted.total_output + output),
            daily_savings: saved_on(counted.daily_savings, day, (input - output) as i128),
            sizes: counted.sizes.push((input, output)),
            grew_count: if input > 0 && output > input { one_more(counted.grew_count) } else { counted.grew_count },
            ..counted
        },
        _ => counted,
    }
}

/// The tally after one contribution.
pub open spec fn tallied_sample(tally: StatisticsTallyView, sample: StatSample, utc_offset_minutes: i32) -> StatisticsTallyView {
    match sample {
        StatSample::Converted { at, codec, input, output, time_ms, vmaf, crf } => tallied_conversion(
            tally,
            at,
            codec,
            input,
            output,
            time_ms,
            vmaf,
            crf,
            utc_offset_minutes,
        ),
        StatSample::Remuxed { saved } => StatisticsTallyView {
            remuxed_files: one_more(tally.remuxed_files),
            remux_saved: match saved {
                Some(saved) => saturated_i128(tally.remux_saved + saved),
                None => tally.remux_saved,
            },
            ..tally
        },
        StatSample::NotWorthwhile => StatisticsTallyView { not_worthwhile_files: one_more(tally.not_worthwhile_files), ..tally },
        StatSample::Nothing => tally,
    }
}

/// The tally of the contributions, in order.
pub open spec fn tallied(tally: StatisticsTallyView, samples: Seq<StatSample>, utc_offset_minutes: i32) -> StatisticsTallyView
    decreases samples.len(),
{
    if samples.len() == 0 {
        tally
    } else {
        tallied_sample(tallied(tally, samples.drop_last(), utc_offset_minutes), samples.last(), utc_offset_minutes)
    }
}

fn saturating_add_i128(left: i128, right: i128) -> (sum: i128)
    ensures
        sum == saturated_i128(left + right),
{
    match left.checked_add(right) {
        Some(sum) => sum,
        None => if right > 0 { i128::MAX } else { i128::MIN },
    }
}

fn increment(count: u32) -> (next: u32)
    ensures
        next == one_more(count),
{
    if count < u32::MAX { count + 1 } else { count }
}

impl StatisticsTally {
    /// Nothing counted yet.
    pub fn new() -> (tally: Self)
        ensures
            tally@ == empty_tally(),
    {
        let tally = StatisticsTally {
            converted_files: 0,
            sized_converted_files: 0,
            remuxed_files: 0,
            not_worthwhile_files: 0,
            total_input: 0,
            total_output: 0,
            remux_saved: 0,
            total_time_ms: 0,
            grew_count: 0,
            codecs: Vec::new(),
            daily_savings: Vec::new(),
            first_epoch_day: None,
            last_epoch_day: None,
            sizes: Vec::new(),
            vmaf_scores: Vec::new(),
            crfs: Vec::new(),
        };
        assert(tally@.codecs =~= Seq::<(VideoCodecView, u32)>::empty());
        tally
    }

    fn count_codec(&mut self, codec: &VideoCodec)
        ensures
            final(self)@ == (StatisticsTallyView { codecs: counted_codec(old(self)@.codecs, codec@), ..old(self)@ }),
    {
        let count = match find_key(&self.codecs, codec) {
            Some(index) => {
                assert(entry_views(self.codecs@)[index as int] == self.codecs@[index as int]@);
                increment(self.codecs[index].1)
            },
            None => 1,
        };
        put_key(&mut self.codecs, codec.duplicate(), count);
    }

    fn save_on(&mut self, day: i64, saved: i128)
        ensures
            final(self)@ == (StatisticsTallyView { daily_savings: saved_on(old(self)@.daily_savings, day, saved), ..old(self)@ }),
    {
        let ghost days = self.daily_savings@;
        let mut index: usize = 0;
        while index < self.daily_savings.len()
            invariant
                index <= self.daily_savings.len(),
                days == self.daily_savings@,
                *self == *old(self),
                forall|k: int| 0 <= k < index ==> !(#[trigger] on_or_after(day)(days[k])),
            decreases self.daily_savings.len() - index,
        {
            if self.daily_savings[index].0 >= day {
                proof {
                    lemma_first_index_is(days, on_or_after(day), index as int);
                }
                let current = self.daily_savings[index].1;
                if self.daily_savings[index].0 == day {
                    self.daily_savings.set(index, (day, saturating_add_i128(current, saved)));
                } else {
                    self.daily_savings.insert(index, (day, saved));
                }
                return;
            }
            index += 1;
        }
        proof {
            lemma_first_index_none(days, on_or_after(day));
        }
        self.daily_savings.push((day, saved));
    }

    fn add_conversion(
        &mut self,
        at: UnixMillis,
        codec: Option<&VideoCodec>,
        input: Option<u64>,
        output: Option<u64>,
        time_ms: u64,
        vmaf: Option<VmafScore>,
        crf: Option<Crf>,
        utc_offset_minutes: i32,
    )
        ensures
            final(self)@ == tallied_conversion(
                old(self)@,
                at,
                match codec { Some(c) => Some(c@), None => None },
                input,
                output,
                time_ms,
                vmaf,
                crf,
                utc_offset_minutes,
            ),
    {
        self.converted_files = increment(self.converted_files);
        self.total_time_ms = self.total_time_ms.saturating_add(time_ms);
        if let Some(codec) = codec {
            self.count_codec(codec);
        }
        if let Some(score) = vmaf {
            self.vmaf_scores.push(score);
        }
        if let Some(crf) = crf {
            self.crfs.push(crf);
        }
        let day = local_epoch_day(at, utc_offset_minutes);
        self.first_epoch_day = Some(match self.first_epoch_day {
            Some(first) => if first <= day { first } else { day },
            None => day,
        });
        self.last_epoch_day = Some(match self.last_epoch_day {
            Some(last) => if last >= day { last } else { day },
            None => day,
        });
        if let (Some(input), Some(output)) = (input, output) {
            self.sized_converted_files = increment(self.sized_converted_files);
            self.total_input = self.total_input.saturating_add(input as u128);
            self.total_output = self.total_output.saturating_add(output as u128);
            self.save_on(day, input as i128 - output as i128);
            self.sizes.push((input, output));
            if input > 0 && output > input {
                self.grew_count = increment(self.grew_count);
            }
        }
    }

    /// Count what a fact decided by a run contributes.
    fn add_native(&mut self, fact: &StatFact, utc_offset_minutes: i32)
        ensures
            final(self)@ == tallied_sample(old(self)@, native_sample(fact@), utc_offset_minutes),
    {
        match fact.kind {
            StatFactKind::Converted => self.add_conversion(
                fact.finished_at,
                Some(&fact.codec),
                fact.input_size_bytes,
                fact.output_size_bytes,
                fact.analyzing_ms.saturating_add(fact.encoding_ms),
                fact.vmaf,
                fact.crf,
                utc_offset_minutes,
            ),
            StatFactKind::Remuxed => {
                self.remuxed_files = increment(self.remuxed_files);
                if let Some(saved) = fact.saved_bytes() {
                    self.remux_saved = saturating_add_i128(self.remux_saved, saved);
                }
            },
            StatFactKind::NotWorthwhile { .. } => {
                self.not_worthwhile_files = increment(self.not_worthwhile_files);
            },
        }
    }

    /// Count what an imported record contributes.
    fn add_imported(&mut self, record: &ParkedRecord, utc_offset_minutes: i32)
        ensures
            final(self)@ == tallied_sample(old(self)@, imported_sample(record@), utc_offset_minutes),
    {
        match record.status {
            ParkedStatus::Converted => {
                let codec = match &record.video_codec {
                    Some(codec) => Some(codec),
                    None => None,
                };
                let time_ms = match record.encoding_time {
                    Some(duration) => duration.0,
                    None => 0,
                };
                self.add_conversion(
                    record.decided_at,
                    codec,
                    record.size,
                    record.output_size,
                    time_ms,
                    record.vmaf,
                    record.crf,
                    utc_offset_minutes,
                );
            },
            ParkedStatus::NotWorthwhile => {
                self.not_worthwhile_files = increment(self.not_worthwhile_files);
            },
            ParkedStatus::Scanned | ParkedStatus::Analyzed => {},
        }
    }
}

/// The decisive imported record behind a fact adopted from an import.
fn adopted<'a>(state: &'a DurableState, fact: &StatFact) -> (record: Option<&'a ParkedRecord>)
    ensures
        (match record { Some(r) => Some(r@), None => None }) == adopted_record(state@.records, fact@),
{
    if fact.source_run.is_some() {
        return None;
    }
    proof {
        crate::state::lemma_durable_views(*state);
    }
    match find_key(&state.records, &fact.content_key) {
        Some(index) => {
            assert(state@.records[index as int] == state.records@[index as int]@);
            match &state.records[index].1.imported {
                Some(provenance) => match provenance.record.status {
                    ParkedStatus::Converted | ParkedStatus::NotWorthwhile => Some(&provenance.record),
                    _ => None,
                },
                None => None,
            }
        },
        None => None,
    }
}

/// Tally every contribution of the durable state: the current facts, an
/// adopted fact as its imported record, then the parked imports.
pub fn tally_statistics(state: &DurableState, utc_offset_minutes: i32) -> (tally: StatisticsTally)
    ensures
        tally@ == tallied(empty_tally(), samples_of(state@), utc_offset_minutes),
{
    let facts = collect_stat_facts(state);
    let ghost fact_views = views(facts@);
    let ghost records = state@.records;
    let mut tally = StatisticsTally::new();
    let mut index: usize = 0;
    while index < facts.len()
        invariant
            index <= facts.len(),
            fact_views == views(facts@),
            records == state@.records,
            tally@ == tallied(empty_tally(), fact_samples(records, fact_views.take(index as int)), utc_offset_minutes),
        decreases facts.len() - index,
    {
        let ghost before = fact_samples(records, fact_views.take(index as int));
        assert(fact_samples(records, fact_views.take(index as int + 1)) =~= before.push(
            fact_sample(records, fact_views[index as int]),
        ));
        assert(before.push(fact_sample(records, fact_views[index as int])).drop_last() =~= before);
        assert(fact_views[index as int] == facts@[index as int]@);
        match adopted(state, &facts[index]) {
            Some(record) => tally.add_imported(record, utc_offset_minutes),
            None => tally.add_native(&facts[index], utc_offset_minutes),
        }
        index += 1;
    }
    assert(fact_views.take(facts.len() as int) =~= fact_views);
    let ghost counted = fact_samples(records, fact_views);
    proof {
        crate::state::lemma_durable_views(*state);
    }
    let ghost parked = state@.parked;
    let mut position: usize = 0;
    while position < state.parked.len()
        invariant
            position <= state.parked.len(),
            parked == state@.parked,
            parked == entry_views(state.parked@),
            tally@ == tallied(empty_tally(), counted + parked_samples(parked.take(position as int)), utc_offset_minutes),
        decreases state.parked.len() - position,
    {
        let ghost before = counted + parked_samples(parked.take(position as int));
        assert(counted + parked_samples(parked.take(position as int + 1)) =~= before.push(
            imported_sample(parked[position as int].1),
        ));
        assert(before.push(imported_sample(parked[position as int].1)).drop_last() =~= before);
        assert(parked[position as int] == state.parked@[position as int]@);
        tally.add_imported(&state.parked[position].1, utc_offset_minutes);
        position += 1;
    }
    assert(parked.take(parked.len() as int) =~= parked);
    assert(stat_facts_of(state@, records_by_key(state@.records)) == fact_views);
    tally
}


/// The position of a codec's variant in the codec order.
pub open spec fn codec_rank(codec: VideoCodecView) -> int {
    match codec {
        VideoCodecView::Av1 => 0,
        VideoCodecView::H264 => 1,
        VideoCodecView::Hevc => 2,
        VideoCodecView::Vp9 => 3,
        VideoCodecView::Other(_) => 4,
    }
}

/// The canonical codec order: by variant, other codecs by name.
pub open spec fn codec_less(a: VideoCodecView, b: VideoCodecView) -> bool {
    if codec_rank(a) != codec_rank(b) {
        codec_rank(a) < codec_rank(b)
    } else {
        match (a, b) {
            (VideoCodecView::Other(x), VideoCodecView::Other(y)) => text_less(x, y),
            _ => false,
        }
    }
}

fn codec_precedes(a: &VideoCodec, b: &VideoCodec) -> (less: bool)
    ensures
        less == codec_less(a@, b@),
{
    let rank = |codec: &VideoCodec| -> (rank: u8)
        ensures
            rank as int == codec_rank(codec@),
        {
            match codec {
                VideoCodec::Av1 => 0u8,
                VideoCodec::H264 => 1u8,
                VideoCodec::Hevc => 2u8,
                VideoCodec::Vp9 => 3u8,
                VideoCodec::Other(_) => 4u8,
            }
        };
    let left = rank(a);
    let right = rank(b);
    if left != right {
        return left < right;
    }
    match (a, b) {
        (VideoCodec::Other(x), VideoCodec::Other(y)) => text_precedes(x, y),
        _ => false,
    }
}


/// How often converted facts had one source codec.
#[derive(Clone, Debug, PartialEq, Eq)]
pub struct CodecCount {
    pub codec: VideoCodec,
    pub count: u32,
}

/// The mathematical value of [`CodecCount`].
pub struct CodecCountView {
    pub codec: VideoCodecView,
    pub count: u32,
}

impl View for CodecCount {
    type V = CodecCountView;

    open spec fn view(&self) -> CodecCountView {
        CodecCountView { codec: self.codec@, count: self.count }
    }
}

/// Codec counts from the tally's entries.
pub open spec fn codec_counts(codecs: Seq<(VideoCodecView, u32)>) -> Seq<CodecCountView> {
    codecs.map_values(|entry: (VideoCodecView, u32)| CodecCountView { codec: entry.0, count: entry.1 })
}

/// The frequency order: most frequent first, ties in codec order.
pub open spec fn ranks_before(a: CodecCountView, b: CodecCountView) -> bool {
    a.count > b.count || (a.count == b.count && codec_less(a.codec, b.codec))
}

/// Whether no entry ranks before an earlier one.
pub open spec fn frequency_ordered(counts: Seq<CodecCountView>) -> bool {
    forall|i: int, j: int| 0 <= i < j < counts.len() ==> !ranks_before(#[trigger] counts[j], #[trigger] counts[i])
}

proof fn lemma_ranks_before_transitive(a: CodecCountView, b: CodecCountView, c: CodecCountView)
    requires
        ranks_before(a, b),
        ranks_before(b, c),
    ensures
        ranks_before(a, c),
{
    if a.count == b.count && b.count == c.count && codec_rank(a.codec) == codec_rank(b.codec) && codec_rank(b.codec)
        == codec_rank(c.codec) {
        match (a.codec, b.codec, c.codec) {
            (VideoCodecView::Other(x), VideoCodecView::Other(y), VideoCodecView::Other(z)) => {
                lemma_text_less_transitive(x, y, z);
            },
            _ => {},
        }
    }
}

proof fn lemma_ranks_before_asymmetric(a: CodecCountView, b: CodecCountView)
    requires
        ranks_before(a, b),
    ensures
        !ranks_before(b, a),
{
    if a.count == b.count && codec_rank(a.codec) == codec_rank(b.codec) {
        match (a.codec, b.codec) {
            (VideoCodecView::Other(x), VideoCodecView::Other(y)) => {
                lemma_text_less_asymmetric(x, y);
            },
            _ => {},
        }
    }
}

/// Order the codec counts by frequency, most frequent first, ties in codec
/// order.
pub fn order_codecs(codecs: &Vec<(VideoCodec, u32)>) -> (ordered: Vec<CodecCount>)
    ensures
        views(ordered@).to_multiset() == codec_counts(entry_views(codecs@)).to_multiset(),
        frequency_ordered(views(ordered@)),
{
    broadcast use vstd::seq_lib::group_to_multiset_ensures;

    let ghost all = codec_counts(entry_views(codecs@));
    let mut ordered: Vec<CodecCount> = Vec::new();
    let mut index: usize = 0;
    assert(all.take(0).to_multiset() =~= views(ordered@).to_multiset()) by {
        assert(all.take(0) =~= Seq::<CodecCountView>::empty());
        assert(views(ordered@) =~= Seq::<CodecCountView>::empty());
    }
    while index < codecs.len()
        invariant
            index <= codecs.len(),
            all == codec_counts(entry_views(codecs@)),
            views(ordered@).to_multiset() == all.take(index as int).to_multiset(),
            frequency_ordered(views(ordered@)),
        decreases codecs.len() - index,
    {
        let entry = CodecCount { codec: codecs[index].0.duplicate(), count: codecs[index].1 };
        assert(entry@ == all[index as int]);
        let ghost placed = views(ordered@);
        let mut position: usize = 0;
        while position < ordered.len()
            invariant
                position <= ordered.len(),
                placed == views(ordered@),
                forall|k: int| 0 <= k < position ==> !ranks_before(entry@, #[trigger] placed[k]),
            ensures
                position <= ordered.len(),
                forall|k: int| 0 <= k < position ==> !ranks_before(entry@, #[trigger] placed[k]),
                position < ordered.len() ==> ranks_before(entry@, placed[position as int]),
            decreases ordered.len() - position,
        {
            let before = entry.count > ordered[position].count || (entry.count == ordered[position].count
                && codec_precedes(&entry.codec, &ordered[position].codec));
            assert(placed[position as int] == ordered@[position as int]@);
            if before {
                break;
            }
            position += 1;
        }
        let ghost e = entry@;
        if position < ordered.len() {
            assert(ranks_before(e, placed[position as int]));
            ordered.insert(position, entry);
            assert(views(ordered@) =~= placed.insert(position as int, e));
            proof {
                vstd::seq_lib::to_multiset_insert(placed, position as int, e);
            }
            assert forall|i: int, j: int| 0 <= i < j < views(ordered@).len() implies !ranks_before(
                #[trigger] views(ordered@)[j],
                #[trigger] views(ordered@)[i],
            ) by {
                let r = views(ordered@);
                if j == position {
                    assert(r[i] == placed[i]);
                } else if i == position {
                    assert(r[j] == placed[j - 1]);
                    if ranks_before(placed[j - 1], e) {
                        if j - 1 == position {
                            lemma_ranks_before_asymmetric(e, placed[position as int]);
                        } else {
                            lemma_ranks_before_transitive(placed[j - 1], e, placed[position as int]);
                        }
                    }
                } else {
                    let a = if i < position { i } else { i - 1 };
                    let b = if j < position { j } else { j - 1 };
                    assert(r[i] == placed[a]);
                    assert(r[j] == placed[b]);
                }
            }
        } else {
            ordered.push(entry);
            assert(views(ordered@) =~= placed.push(e));
            proof {
                vstd::seq_lib::to_multiset_build(placed, e);
            }
        }
        assert(all.take(index as int + 1) =~= all.take(index as int).push(e));
        proof {
            vstd::seq_lib::to_multiset_build(all.take(index as int), e);
        }
        index += 1;
    }
    assert(all.take(codecs.len() as int) =~= all);
    ordered
}

/// Clamp a signed total into `i64`.
pub open spec fn clamped_i64(value: i128) -> i64 {
    if value > i64::MAX {
        i64::MAX
    } else if value < i64::MIN {
        i64::MIN
    } else {
        value as i64
    }
}

/// A signed total clamped into `i64`.
pub fn clamp_to_i64(value: i128) -> (clamped: i64)
    ensures
        clamped == clamped_i64(value),
{
    if value > i64::MAX as i128 {
        i64::MAX
    } else if value < i64::MIN as i128 {
        i64::MIN
    } else {
        value as i64
    }
}

/// One point of the cumulative savings series: a local calendar day and
/// the running total through that day. The series can dip when an output
/// grew.
#[derive(Clone, Copy, Debug, PartialEq, Eq, Structural)]
pub struct CumulativeSavingsPoint {
    pub epoch_day: i64,
    pub cumulative_saved_bytes: i64,
}

/// The running saturated total of the days' savings.
pub open spec fn running_savings(days: Seq<(i64, i128)>) -> i128
    decreases days.len(),
{
    if days.len() == 0 {
        0
    } else {
        saturated_i128(running_savings(days.drop_last()) + days.last().1)
    }
}

/// The cumulative savings series: each day with the running total through
/// it.
pub open spec fn cumulative_series(days: Seq<(i64, i128)>) -> Seq<CumulativeSavingsPoint> {
    Seq::new(
        days.len(),
        |i: int| CumulativeSavingsPoint {
            epoch_day: days[i].0,
            cumulative_saved_bytes: clamped_i64(running_savings(days.take(i + 1))),
        },
    )
}

fn cumulative_savings(days: &Vec<(i64, i128)>) -> (series: Vec<CumulativeSavingsPoint>)
    ensures
        series@ == cumulative_series(days@),
{
    let ghost all = days@;
    let mut series: Vec<CumulativeSavingsPoint> = Vec::new();
    let mut running: i128 = 0;
    let mut index: usize = 0;
    while index < days.len()
        invariant
            index <= days.len(),
            all == days@,
            running == running_savings(all.take(index as int)),
            series@ =~= cumulative_series(all).take(index as int),
        decreases days.len() - index,
    {
        assert(all.take(index as int + 1).drop_last() =~= all.take(index as int));
        running = saturating_add_i128(running, days[index].1);
        series.push(CumulativeSavingsPoint { epoch_day: days[index].0, cumulative_saved_bytes: clamp_to_i64(running) });
        index += 1;
    }
    series
}

/// A byte total clamped into `u64`.
pub open spec fn clamped_u64(value: u128) -> u64 {
    if value > u64::MAX { u64::MAX } else { value as u64 }
}

/// A byte total clamped into `i128`.
pub open spec fn clamped_i128(value: u128) -> i128 {
    if value > i128::MAX { i128::MAX } else { value as i128 }
}

/// The integer side of the Statistics answer for one timezone offset.
#[derive(Clone, Debug, PartialEq, Eq)]
pub struct StatisticsTotals {
    /// The requester-supplied offset the calendar bucketing used.
    pub utc_offset_minutes: i32,
    pub converted_files: u32,
    /// Converted facts that carried both sizes and therefore contribute to
    /// savings totals and the cumulative series.
    pub sized_converted_files: u32,
    pub remuxed_files: u32,
    pub not_worthwhile_files: u32,
    pub total_input_bytes: u64,
    pub total_output_bytes: u64,
    /// Negative when outputs grew past their inputs overall.
    pub total_saved_bytes: i64,
    pub remux_saved_bytes: i64,
    /// Analyzing plus encoding time across converted facts.
    pub total_time_ms: u64,
    /// Converted facts whose output grew.
    pub grew_count: u32,
    /// Source codecs of converted facts, most frequent first; ties in codec
    /// order.
    pub codecs: Vec<CodecCount>,
    pub cumulative_savings: Vec<CumulativeSavingsPoint>,
    pub first_epoch_day: Option<i64>,
    pub last_epoch_day: Option<i64>,
    pub runs: RunTotals,
    /// Input and output sizes of the converted facts carrying both, for the
    /// reduction percentages.
    pub sizes: Vec<(u64, u64)>,
    /// Fixed-point VMAF scores of the converted facts.
    pub vmaf_scores: Vec<VmafScore>,
    /// Fixed-point CRFs of the converted facts.
    pub crfs: Vec<Crf>,
}

/// The mathematical value of [`StatisticsTotals`].
pub struct StatisticsTotalsView {
    pub utc_offset_minutes: i32,
    pub converted_files: u32,
    pub sized_converted_files: u32,
    pub remuxed_files: u32,
    pub not_worthwhile_files: u32,
    pub total_input_bytes: u64,
    pub total_output_bytes: u64,
    pub total_saved_bytes: i64,
    pub remux_saved_bytes: i64,
    pub total_time_ms: u64,
    pub grew_count: u32,
    pub codecs: Seq<CodecCountView>,
    pub cumulative_savings: Seq<CumulativeSavingsPoint>,
    pub first_epoch_day: Option<i64>,
    pub last_epoch_day: Option<i64>,
    pub runs: RunTotals,
    pub sizes: Seq<(u64, u64)>,
    pub vmaf_scores: Seq<VmafScore>,
    pub crfs: Seq<Crf>,
}

impl View for StatisticsTotals {
    type V = StatisticsTotalsView;

    open spec fn view(&self) -> StatisticsTotalsView {
        StatisticsTotalsView {
            utc_offset_minutes: self.utc_offset_minutes,
            converted_files: self.converted_files,
            sized_converted_files: self.sized_converted_files,
            remuxed_files: self.remuxed_files,
            not_worthwhile_files: self.not_worthwhile_files,
            total_input_bytes: self.total_input_bytes,
            total_output_bytes: self.total_output_bytes,
            total_saved_bytes: self.total_saved_bytes,
            remux_saved_bytes: self.remux_saved_bytes,
            total_time_ms: self.total_time_ms,
            grew_count: self.grew_count,
            codecs: views(self.codecs@),
            cumulative_savings: self.cumulative_savings@,
            first_epoch_day: self.first_epoch_day,
            last_epoch_day: self.last_epoch_day,
            runs: self.runs,
            sizes: self.sizes@,
            vmaf_scores: self.vmaf_scores@,
            crfs: self.crfs@,
        }
    }
}

/// Whether `totals` answers the Statistics question for the tally: every
/// field follows from the tally, the codecs in frequency order.
pub open spec fn totals_of(
    totals: StatisticsTotalsView,
    tally: StatisticsTallyView,
    runs: RunTotals,
    utc_offset_minutes: i32,
) -> bool {
    &&& totals.utc_offset_minutes == utc_offset_minutes
    &&& totals.converted_files == tally.converted_files
    &&& totals.sized_converted_files == tally.sized_converted_files
    &&& totals.remuxed_files == tally.remuxed_files
    &&& totals.not_worthwhile_files == tally.not_worthwhile_files
    &&& totals.total_input_bytes == clamped_u64(tally.total_input)
    &&& totals.total_output_bytes == clamped_u64(tally.total_output)
    &&& totals.total_saved_bytes == clamped_i64(
        (clamped_i128(tally.total_input) - clamped_i128(tally.total_output)) as i128,
    )
    &&& totals.remux_saved_bytes == clamped_i64(tally.remux_saved)
    &&& totals.total_time_ms == tally.total_time_ms
    &&& totals.grew_count == tally.grew_count
    &&& totals.codecs.to_multiset() == codec_counts(tally.codecs).to_multiset()
    &&& frequency_ordered(totals.codecs)
    &&& totals.cumulative_savings == cumulative_series(tally.daily_savings)
    &&& totals.first_epoch_day == tally.first_epoch_day
    &&& totals.last_epoch_day == tally.last_epoch_day
    &&& totals.runs == runs
    &&& totals.sizes == tally.sizes
    &&& totals.vmaf_scores == tally.vmaf_scores
    &&& totals.crfs == tally.crfs
}

/// The integer side of the Statistics answer for the requester's timezone
/// offset: every current fact (an adopted fact as its imported record) and
/// every parked import, and the terminal outcomes of every run.
pub fn statistics_totals(state: &DurableState, utc_offset_minutes: i32) -> (totals: StatisticsTotals)
    ensures
        totals_of(
            totals@,
            tallied(empty_tally(), samples_of(state@), utc_offset_minutes),
            run_totals_of(state@.conversion_runs),
            utc_offset_minutes,
        ),
{
    let tally = tally_statistics(state, utc_offset_minutes);
    let input: i128 = if tally.total_input > i128::MAX as u128 { i128::MAX } else { tally.total_input as i128 };
    let output: i128 = if tally.total_output > i128::MAX as u128 { i128::MAX } else { tally.total_output as i128 };
    let total_input_bytes = if tally.total_input > u64::MAX as u128 { u64::MAX } else { tally.total_input as u64 };
    let total_output_bytes = if tally.total_output > u64::MAX as u128 { u64::MAX } else { tally.total_output as u64 };
    let codecs = order_codecs(&tally.codecs);
    let cumulative = cumulative_savings(&tally.daily_savings);
    StatisticsTotals {
        utc_offset_minutes,
        converted_files: tally.converted_files,
        sized_converted_files: tally.sized_converted_files,
        remuxed_files: tally.remuxed_files,
        not_worthwhile_files: tally.not_worthwhile_files,
        total_input_bytes,
        total_output_bytes,
        total_saved_bytes: clamp_to_i64(input - output),
        remux_saved_bytes: clamp_to_i64(tally.remux_saved),
        total_time_ms: tally.total_time_ms,
        grew_count: tally.grew_count,
        codecs,
        cumulative_savings: cumulative,
        first_epoch_day: tally.first_epoch_day,
        last_epoch_day: tally.last_epoch_day,
        runs: run_totals(state),
        sizes: tally.sizes,
        vmaf_scores: tally.vmaf_scores,
        crfs: tally.crfs,
    }
}

/// Whether the days of the savings entries strictly increase.
pub open spec fn days_increasing(days: Seq<(i64, i128)>) -> bool {
    forall|i: int, j: int| 0 <= i < j < days.len() ==> (#[trigger] days[i]).0 < (#[trigger] days[j]).0
}

/// Adding savings on a day keeps the days strictly increasing and makes
/// the day an entry of its own.
pub proof fn lemma_savings_stay_ordered_by_day(days: Seq<(i64, i128)>, day: i64, saved: i128)
    requires
        days_increasing(days),
    ensures
        days_increasing(saved_on(days, day, saved)),
        exists|k: int| 0 <= k < saved_on(days, day, saved).len() && (#[trigger] saved_on(days, day, saved)[k]).0 == day,
{
    lemma_first_index(days, on_or_after(day));
    let index = first_index(days, on_or_after(day));
    let after = saved_on(days, day, saved);
    if index >= 0 && days[index].0 == day {
        assert(after[index].0 == day);
    } else if index >= 0 {
        assert(after[index].0 == day);
        assert forall|i: int, j: int| 0 <= i < j < after.len() implies (#[trigger] after[i]).0 < (#[trigger] after[j]).0 by {
            if i < index && j == index {
                assert(!on_or_after(day)(days[i]));
            } else if i == index && j > index {
                assert(after[j] == days[j - 1]);
                if j - 1 > index {
                    assert(days[index].0 < days[j - 1].0);
                }
            } else if i < index && j > index {
                assert(after[j] == days[j - 1]);
            } else if i > index {
                assert(after[i] == days[i - 1]);
                assert(after[j] == days[j - 1]);
            }
        }
    } else {
        assert(after[days.len() as int].0 == day);
        assert forall|i: int, j: int| 0 <= i < j < after.len() implies (#[trigger] after[i]).0 < (#[trigger] after[j]).0 by {
            if j == days.len() {
                assert(!on_or_after(day)(days[i]));
            }
        }
    }
}

/// A remuxed contribution never blends into the conversion aggregates: it
/// changes only the remux count and the remux savings.
pub proof fn lemma_remux_stays_separate(tally: StatisticsTallyView, saved: Option<i128>, utc_offset_minutes: i32)
    ensures
        ({
            let after = tallied_sample(tally, StatSample::Remuxed { saved }, utc_offset_minutes);
            after == StatisticsTallyView { remuxed_files: after.remuxed_files, remux_saved: after.remux_saved, ..tally }
        }),
        tallied_sample(tally, StatSample::Remuxed { saved }, utc_offset_minutes).remuxed_files == one_more(tally.remuxed_files),
{
}

/// The plain sum of the days' savings.
pub open spec fn day_sum(days: Seq<(i64, i128)>) -> int
    decreases days.len(),
{
    if days.len() == 0 {
        0
    } else {
        day_sum(days.drop_last()) + days.last().1
    }
}

/// The magnitude of a signed amount.
pub open spec fn magnitude(value: int) -> int {
    if value < 0 { -value } else { value }
}

/// The sum of the magnitudes of the days' savings.
pub open spec fn magnitude_sum(days: Seq<(i64, i128)>) -> int
    decreases days.len(),
{
    if days.len() == 0 {
        0
    } else {
        magnitude_sum(days.drop_last()) + magnitude(days.last().1 as int)
    }
}

proof fn lemma_sums_bound_entries(days: Seq<(i64, i128)>)
    ensures
        magnitude(day_sum(days)) <= magnitude_sum(days),
        forall|k: int| 0 <= k < days.len() ==> magnitude((#[trigger] days[k]).1 as int) <= magnitude_sum(days),
    decreases days.len(),
{
    if days.len() > 0 {
        lemma_sums_bound_entries(days.drop_last());
        assert forall|k: int| 0 <= k < days.len() implies magnitude((#[trigger] days[k]).1 as int) <= magnitude_sum(days) by {
            if k < days.len() - 1 {
                assert(days[k] == days.drop_last()[k]);
            }
        }
    }
}

proof fn lemma_sums_after_update(days: Seq<(i64, i128)>, index: int, entry: (i64, i128))
    requires
        0 <= index < days.len(),
    ensures
        day_sum(days.update(index, entry)) == day_sum(days) - days[index].1 + entry.1,
        magnitude_sum(days.update(index, entry)) == magnitude_sum(days) - magnitude(days[index].1 as int) + magnitude(entry.1 as int),
    decreases days.len(),
{
    let after = days.update(index, entry);
    if index == days.len() - 1 {
        assert(after.drop_last() =~= days.drop_last());
    } else {
        lemma_sums_after_update(days.drop_last(), index, entry);
        assert(after.drop_last() =~= days.drop_last().update(index, entry));
    }
}

proof fn lemma_sums_after_insert(days: Seq<(i64, i128)>, index: int, entry: (i64, i128))
    requires
        0 <= index <= days.len(),
    ensures
        day_sum(days.insert(index, entry)) == day_sum(days) + entry.1,
        magnitude_sum(days.insert(index, entry)) == magnitude_sum(days) + magnitude(entry.1 as int),
    decreases days.len(),
{
    let after = days.insert(index, entry);
    if index == days.len() {
        assert(after.drop_last() =~= days);
    } else {
        lemma_sums_after_insert(days.drop_last(), index, entry);
        assert(after.drop_last() =~= days.drop_last().insert(index, entry));
    }
}

proof fn lemma_sums_after_saving(days: Seq<(i64, i128)>, day: i64, saved: i128)
    requires
        magnitude_sum(days) + magnitude(saved as int) <= i128::MAX,
    ensures
        day_sum(saved_on(days, day, saved)) == day_sum(days) + saved,
        magnitude_sum(saved_on(days, day, saved)) <= magnitude_sum(days) + magnitude(saved as int),
{
    lemma_first_index(days, on_or_after(day));
    lemma_sums_bound_entries(days);
    let index = first_index(days, on_or_after(day));
    if index >= 0 && days[index].0 == day {
        let merged = days[index].1 + saved;
        assert(magnitude(days[index].1 as int) <= magnitude_sum(days));
        assert(saturated_i128(merged) == merged);
        lemma_sums_after_update(days, index, (day, saturated_i128(merged)));
    } else if index >= 0 {
        lemma_sums_after_insert(days, index, (day, saved));
    } else {
        assert(days.push((day, saved)).drop_last() =~= days);
    }
}

/// The most bytes that `contributions` contributions can add up to.
pub open spec fn size_bound(contributions: int) -> int {
    contributions * 18446744073709551615
}

/// What the tally of `contributions` samples keeps: its byte totals are
/// exact, and the daily savings add up to their difference.
pub open spec fn savings_add_up(tally: StatisticsTallyView, contributions: int) -> bool {
    &&& tally.total_input <= size_bound(contributions)
    &&& tally.total_output <= size_bound(contributions)
    &&& magnitude_sum(tally.daily_savings) <= size_bound(contributions)
    &&& day_sum(tally.daily_savings) == tally.total_input - tally.total_output
}

proof fn lemma_tally_savings_add_up(samples: Seq<StatSample>, utc_offset_minutes: i32)
    requires
        samples.len() <= i64::MAX,
    ensures
        savings_add_up(tallied(empty_tally(), samples, utc_offset_minutes), samples.len() as int),
    decreases samples.len(),
{
    if samples.len() > 0 {
        let k = samples.len() - 1;
        lemma_tally_savings_add_up(samples.drop_last(), utc_offset_minutes);
        let before = tallied(empty_tally(), samples.drop_last(), utc_offset_minutes);
        assert(size_bound(k) + 18446744073709551615 == size_bound(k + 1));
        assert(size_bound(k + 1) <= size_bound(i64::MAX as int));
        match samples.last() {
            StatSample::Converted { at, codec, input, output, time_ms, vmaf, crf } => {
                match (input, output) {
                    (Some(input), Some(output)) => {
                        let day = epoch_day(at, utc_offset_minutes) as i64;
                        lemma_sums_after_saving(before.daily_savings, day, (input - output) as i128);
                    },
                    _ => {},
                }
            },
            _ => {},
        }
    }
}

proof fn lemma_running_savings_exact(days: Seq<(i64, i128)>)
    requires
        magnitude_sum(days) <= i128::MAX,
    ensures
        running_savings(days) == day_sum(days),
    decreases days.len(),
{
    if days.len() > 0 {
        lemma_running_savings_exact(days.drop_last());
        lemma_sums_bound_entries(days.drop_last());
    }
}

/// The savings figures agree: wherever the number of contributions is one
/// a machine can hold, the last point of the cumulative series is the total
/// saved, the total saved is zero when the series is empty, and the total
/// saved is the total input less the total output whenever both totals fit
/// a signed 64-bit count.
pub proof fn lemma_savings_totals_agree(
    samples: Seq<StatSample>,
    runs: RunTotals,
    utc_offset_minutes: i32,
    totals: StatisticsTotalsView,
)
    requires
        samples.len() <= i64::MAX,
        totals_of(totals, tallied(empty_tally(), samples, utc_offset_minutes), runs, utc_offset_minutes),
    ensures
        totals.cumulative_savings.len() > 0 ==> totals.cumulative_savings.last().cumulative_saved_bytes
            == totals.total_saved_bytes,
        totals.cumulative_savings.len() == 0 ==> totals.total_saved_bytes == 0,
        totals.total_input_bytes <= i64::MAX && totals.total_output_bytes <= i64::MAX ==> totals.total_saved_bytes
            == totals.total_input_bytes - totals.total_output_bytes,
{
    let tally = tallied(empty_tally(), samples, utc_offset_minutes);
    lemma_tally_savings_add_up(samples, utc_offset_minutes);
    assert(size_bound(samples.len() as int) <= size_bound(i64::MAX as int));
    let days = tally.daily_savings;
    lemma_running_savings_exact(days);
    assert(clamped_i128(tally.total_input) == tally.total_input);
    assert(clamped_i128(tally.total_output) == tally.total_output);
    if days.len() > 0 {
        assert(days.take(days.len() as int) =~= days);
    } else {
        assert(day_sum(days) == 0);
    }
}

} // verus!
