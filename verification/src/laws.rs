//! What holds of the capabilities whatever their tables are: a value that
//! was written is read back from a device that reports what it was told.

use vstd::prelude::*;
use crate::audio::{be_bytes_round_trip, AudioCh, CtlAttr, FeatureCtl};
use crate::clock::{ClkFreqStep, MediaClockFrequencyOperation, SamplingClockSourceOperation};
use crate::error::{Argument, Error};
use crate::frame::AvcCmdType;
use crate::level::{balance_of, feature_command, feature_outcome, level_of, mute_of, VALUE_UNSET};
use crate::selector::AvcSelectorOperation;
use crate::signal_source::signal_addr_round_trip;
use crate::stream_format::{compound_freq, compound_freq_code};
use crate::table::{distinct, position, position_in_bounds, position_of_entry};

verus! {

/// Response code "implemented/stable" in the first byte of a frame.
pub const IMPLEMENTED_STABLE: u8 = 0x0c;

/// The response of a device that answers a status command with the operands
/// of the control command `frame` that it obeyed before: the same target,
/// opcode and operands under the code "implemented/stable".
pub open spec fn echo(frame: Seq<u8>) -> Seq<u8>
    recommends
        frame.len() >= 3,
{
    frame.update(0, IMPLEMENTED_STABLE)
}

/// The response of a device to the status command for the stream format of
/// its isochronous output plug 0 when the plug carries a compound AM824
/// stream at `freq` without further entries.
pub open spec fn freq_report(freq: u32) -> Seq<u8> {
    seq![
        IMPLEMENTED_STABLE,
        0xff,
        0xbf,
        0xc0,
        0x01,
        0x00,
        0x00,
        0x00,
        0xff,
        0x00,
        0x90,
        0x40,
        compound_freq_code(freq),
        0x00,
        0x00,
    ]
}

/// A level that was written is the level that is read, for every entry of
/// the table whose channel has an encoding and for every level.
pub proof fn level_round_trip(entries: Seq<(u8, AudioCh)>, idx: usize, vol: i16)
    requires
        idx < entries.len(),
        entries[idx as int].1.spec_encodable(),
    ensures
        feature_command(entries, idx, AvcCmdType::Control, FeatureCtl::Volume(vol)) is Ok,
        level_of(
            feature_outcome(
                entries,
                idx,
                AvcCmdType::Status,
                FeatureCtl::Volume(VALUE_UNSET),
                echo(
                    feature_command(entries, idx, AvcCmdType::Control, FeatureCtl::Volume(vol))->Ok_0,
                ),
            ),
        ) == Ok::<i16, Error>(vol),
{
    be_bytes_round_trip(vol);
    feature_echo(entries, idx, FeatureCtl::Volume(vol), FeatureCtl::Volume(VALUE_UNSET));
}

/// A balance that was written is the balance that is read.
pub proof fn lr_balance_round_trip(entries: Seq<(u8, AudioCh)>, idx: usize, balance: i16)
    requires
        idx < entries.len(),
        entries[idx as int].1.spec_encodable(),
    ensures
        feature_command(entries, idx, AvcCmdType::Control, FeatureCtl::LrBalance(balance)) is Ok,
        balance_of(
            feature_outcome(
                entries,
                idx,
                AvcCmdType::Status,
                FeatureCtl::LrBalance(VALUE_UNSET),
                echo(
                    feature_command(
                        entries,
                        idx,
                        AvcCmdType::Control,
                        FeatureCtl::LrBalance(balance),
                    )->Ok_0,
                ),
            ),
        ) == Ok::<i16, Error>(balance),
{
    be_bytes_round_trip(balance);
    feature_echo(entries, idx, FeatureCtl::LrBalance(balance), FeatureCtl::LrBalance(VALUE_UNSET));
}

/// A mute that was written is the mute that is read.
pub proof fn mute_round_trip(entries: Seq<(u8, AudioCh)>, idx: usize, mute: bool)
    requires
        idx < entries.len(),
        entries[idx as int].1.spec_encodable(),
    ensures
        feature_command(entries, idx, AvcCmdType::Control, FeatureCtl::Mute(mute)) is Ok,
        mute_of(
            feature_outcome(
                entries,
                idx,
                AvcCmdType::Status,
                FeatureCtl::Mute(false),
                echo(
                    feature_command(entries, idx, AvcCmdType::Control, FeatureCtl::Mute(mute))->Ok_0,
                ),
            ),
        ) == Ok::<bool, Error>(mute),
{
    feature_echo(entries, idx, FeatureCtl::Mute(mute), FeatureCtl::Mute(false));
}

/// The response that echoes the control command for `set` is read, by the
/// status command for the same control, as the control that was set.
proof fn feature_echo(entries: Seq<(u8, AudioCh)>, idx: usize, set: FeatureCtl, asked: FeatureCtl)
    requires
        idx < entries.len(),
        entries[idx as int].1.spec_encodable(),
        set.spec_selector() == asked.spec_selector(),
        set is Volume || set is LrBalance ==> {
            let bytes = crate::audio::be_bytes(set->0);
            crate::audio::be_value(bytes[0], bytes[1]) == set->0
        },
    ensures
        feature_command(entries, idx, AvcCmdType::Control, set) is Ok,
        feature_outcome(
            entries,
            idx,
            AvcCmdType::Status,
            asked,
            echo(feature_command(entries, idx, AvcCmdType::Control, set)->Ok_0),
        ) == Ok::<FeatureCtl, Error>(set),
{
    let frame = feature_command(entries, idx, AvcCmdType::Control, set)->Ok_0;
    let response = echo(frame);
    let operands = response.subrange(3, response.len() as int);
    let op = crate::audio::AudioFeature {
        func_blk_id: entries[idx as int].0,
        ctl_attr: CtlAttr::Current,
        audio_ch: entries[idx as int].1,
        ctl: set,
    };
    assert(operands =~= op.operands());
    assert(IMPLEMENTED_STABLE & 0x0f == 0x0c) by (bit_vector);
    assert(crate::audio::ctl_offset(operands) == 5);
    assert(crate::audio::ctl_data(operands) =~= set.data());
}

/// The input that is read after a selection is the first place of the
/// selected input plug in the list, whatever the list holds.
pub proof fn selector_reads_first_place(op: AvcSelectorOperation, idx: usize, val: usize)
    requires
        idx < op.func_block_id_list@.len(),
        val < op.input_plug_id_list@.len(),
    ensures
        op.write_command(idx, val) is Ok,
        position(op.input_plug_id_list@, op.input_plug_id_list@[val as int]) matches Some(first)
            && first <= val && op.read_outcome(idx, echo(op.write_command(idx, val)->Ok_0))
            == Ok::<int, Error>(first),
{
    let frame = op.write_command(idx, val)->Ok_0;
    let response = echo(frame);
    let operands = response.subrange(3, response.len() as int);
    let selector = crate::audio::AudioSelector {
        func_blk_id: op.func_block_id_list@[idx as int],
        ctl_attr: CtlAttr::Current,
        input_plug_id: op.input_plug_id_list@[val as int],
    };
    assert(operands =~= selector.operands());
    assert(IMPLEMENTED_STABLE & 0x0f == 0x0c) by (bit_vector);
    assert(crate::audio::ctl_offset(operands) == 5);
    assert(crate::audio::ctl_data(operands) =~= Seq::<u8>::empty());
    let plug = op.input_plug_id_list@[val as int];
    position_in_bounds(op.input_plug_id_list@, plug);
    assert(op.input_plug_id_list@.contains(plug));
    let first = position(op.input_plug_id_list@, plug)->0;
    if first > val {
        let chosen = choose|i: int| crate::table::is_position(op.input_plug_id_list@, plug, i);
        assert(crate::table::is_position(op.input_plug_id_list@, plug, chosen));
    }
}

/// The input that was selected is the input that is read, where no input
/// plug stands twice in the list.
pub proof fn selector_round_trip(op: AvcSelectorOperation, idx: usize, val: usize)
    requires
        idx < op.func_block_id_list@.len(),
        val < op.input_plug_id_list@.len(),
        distinct(op.input_plug_id_list@),
    ensures
        op.write_command(idx, val) is Ok,
        op.read_outcome(idx, echo(op.write_command(idx, val)->Ok_0)) == Ok::<int, Error>(
            val as int,
        ),
{
    let frame = op.write_command(idx, val)->Ok_0;
    let response = echo(frame);
    let operands = response.subrange(3, response.len() as int);
    let selector = crate::audio::AudioSelector {
        func_blk_id: op.func_block_id_list@[idx as int],
        ctl_attr: CtlAttr::Current,
        input_plug_id: op.input_plug_id_list@[val as int],
    };
    assert(operands =~= selector.operands());
    assert(IMPLEMENTED_STABLE & 0x0f == 0x0c) by (bit_vector);
    assert(crate::audio::ctl_offset(operands) == 5);
    assert(crate::audio::ctl_data(operands) =~= Seq::<u8>::empty());
    position_of_entry(op.input_plug_id_list@, val as int);
}

/// The source that was selected is the source that is read, where no source
/// stands twice in the list and the selected one is named by its own bytes.
pub proof fn clk_src_round_trip(op: SamplingClockSourceOperation, idx: usize)
    requires
        idx < op.src_list@.len(),
        distinct(op.src_list@),
        op.src_list@[idx as int].canonical(),
    ensures
        op.write_command(idx) is Ok,
        op.read_outcome(echo(op.write_command(idx)->Ok_0)) == Ok::<int, Error>(idx as int),
{
    let src = op.src_list@[idx as int];
    let frame = op.write_command(idx)->Ok_0;
    let response = echo(frame);
    let operands = response.subrange(3, response.len() as int);
    signal_addr_round_trip(src);
    assert(operands =~= seq![0xffu8] + src.bytes() + op.dst.bytes());
    assert(IMPLEMENTED_STABLE & 0x0f == 0x0c) by (bit_vector);
    assert(operands[1] == src.bytes()[0]);
    assert(operands[2] == src.bytes()[1]);
    position_of_entry(op.src_list@, idx as int);
}

/// The frequency that was set is the frequency that is read, where no
/// frequency stands twice in the list and the one that was set has a code
/// in the stream format.
pub proof fn clk_freq_round_trip(op: MediaClockFrequencyOperation, idx: usize)
    requires
        idx < op.freq_list@.len(),
        distinct(op.freq_list@),
        compound_freq(compound_freq_code(op.freq_list@[idx as int])) == op.freq_list@[idx as int],
    ensures
        op.write_command(idx, ClkFreqStep::InputPlug) is Ok,
        op.write_command(idx, ClkFreqStep::OutputPlug) is Ok,
        op.read_outcome(freq_report(op.freq_list@[idx as int])) == Ok::<int, Error>(idx as int),
{
    let freq = op.freq_list@[idx as int];
    let response = freq_report(freq);
    let operands = response.subrange(3, response.len() as int);
    assert(operands =~= seq![
        0xc0u8,
        0x01,
        0x00,
        0x00,
        0x00,
        0xff,
        0x00,
        0x90,
        0x40,
        compound_freq_code(freq),
        0x00,
        0x00,
    ]);
    assert(IMPLEMENTED_STABLE & 0x0f == 0x0c) by (bit_vector);
    position_of_entry(op.freq_list@, idx as int);
}

/// A write with an index outside the table fails for its argument before
/// any frame exists, so that nothing reaches the bus.
pub proof fn write_outside_table(
    freq: MediaClockFrequencyOperation,
    src: SamplingClockSourceOperation,
    entries: Seq<(u8, AudioCh)>,
    selector: AvcSelectorOperation,
    idx: usize,
    val: usize,
    step: ClkFreqStep,
    ctl: FeatureCtl,
)
    ensures
        idx >= freq.freq_list@.len() ==> freq.write_command(idx, step) == Err::<Seq<u8>, Error>(
            Error::InvalidArgument(Argument::Frequency, idx),
        ),
        idx >= src.src_list@.len() ==> src.write_command(idx) == Err::<Seq<u8>, Error>(
            Error::InvalidArgument(Argument::ClockSource, idx),
        ),
        idx >= entries.len() ==> feature_command(entries, idx, AvcCmdType::Control, ctl) == Err::<
            Seq<u8>,
            Error,
        >(Error::InvalidArgument(Argument::FunctionBlock, idx)),
        idx >= selector.func_block_id_list@.len() ==> selector.write_command(idx, val) == Err::<
            Seq<u8>,
            Error,
        >(Error::InvalidArgument(Argument::Selector, idx)),
        idx < selector.func_block_id_list@.len() && val >= selector.input_plug_id_list@.len()
            ==> selector.write_command(idx, val) == Err::<Seq<u8>, Error>(
            Error::InvalidArgument(Argument::InputPlug, val),
        ),
{
}

/// A read of a clock yields an index inside its list or a failure.
pub proof fn clock_read_in_bounds(
    freq: MediaClockFrequencyOperation,
    src: SamplingClockSourceOperation,
    frame: Seq<u8>,
)
    ensures
        freq.read_outcome(frame) matches Ok(i) ==> 0 <= i < freq.freq_list@.len(),
        src.read_outcome(frame) matches Ok(i) ==> 0 <= i < src.src_list@.len(),
{
    match freq.read_outcome(frame) {
        Ok(i) => {
            let reported = crate::bebob_avc::outcome_of(
                AvcCmdType::Status,
                crate::frame::AvcAddr::Unit,
                crate::clock::freq_query(),
                frame,
            );
            match reported {
                Ok(crate::operation::AvcOperationView::ExtendedStreamFormatSingle(single)) => {
                    crate::table::position_in_bounds(freq.freq_list@, single.freq->0);
                },
                _ => {},
            }
        },
        Err(_) => {},
    }
    match src.read_outcome(frame) {
        Ok(i) => {
            let reported = crate::bebob_avc::outcome_of(
                AvcCmdType::Status,
                crate::frame::AvcAddr::Unit,
                src.query(),
                frame,
            );
            match reported {
                Ok(crate::operation::AvcOperationView::SignalSource(source)) => {
                    crate::table::position_in_bounds(src.src_list@, source.src);
                },
                _ => {},
            }
        },
        Err(_) => {},
    }
}

} // verus!
