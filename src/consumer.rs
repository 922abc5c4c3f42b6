use vstd::prelude::*;

use crate::calibration::{
    CalibrationConstants,
    ConversionError,
    Resolution,
    channel_millivolts,
    channel_mv_spec,
    supply_millivolts,
    supply_mv_spec,
    temperature_celsius,
    temperature_centi_spec,
};
use crate::sequence::{
    ChannelRole,
    ScanSequence,
    Channel,
    find_role,
    first_with_role,
    has_role,
};
use crate::transfer::{CircularBuffer, TransferError, TransferView};

verus! {

/// Per-position mean of the two frames of a double frame: position `i` of the
/// result is `(frame[i] + frame[i + width]) / 2`.
pub open spec fn averaged(frame: Seq<u16>, width: nat) -> Seq<u16> {
    Seq::new(width, |i: int| ((frame[i] as int + frame[i + width] as int) / 2) as u16)
}

/// Averages each channel position across the two frames of a double frame.
pub fn average_double_frame(frame: &[u16], width: usize) -> (r: Vec<u16>)
    requires
        frame@.len() == 2 * width,
    ensures
        r@ == averaged(frame@, width as nat),
{
    let mut out: Vec<u16> = Vec::with_capacity(width);
    let mut i: usize = 0;
    while i < width
        invariant
            frame@.len() == 2 * width,
            i <= width,
            out@ == averaged(frame@, width as nat).take(i as int),
        decreases width - i,
    {
        let sum: u32 = frame[i] as u32 + frame[i + width] as u32;
        out.push((sum / 2) as u16);
        i = i + 1;
        assert(out@ =~= averaged(frame@, width as nat).take(i as int));
    }
    assert(out@ =~= averaged(frame@, width as nat));
    out
}

/// Abstract outcome of converting one averaged frame.
pub struct ConversionView {
    pub supply_mv: int,
    pub channel_mv: Seq<int>,
    pub temperature_centi: int,
}

/// Calibrated values from one averaged frame.
pub struct ConversionResult {
    /// Supply voltage, millivolts.
    pub supply_mv: u32,
    /// Voltage at each scan position, millivolts.
    pub channel_mv: Vec<u64>,
    /// Temperature, hundredths of a degree Celsius.
    pub temperature_centi: i64,
}

impl View for ConversionResult {
    type V = ConversionView;

    open spec fn view(&self) -> ConversionView {
        ConversionView {
            supply_mv: self.supply_mv as int,
            channel_mv: self.channel_mv@.map_values(|v: u64| v as int),
            temperature_centi: self.temperature_centi as int,
        }
    }
}

/// What converting the averaged frame `avg` of the scan `chs` yields: the
/// supply from the first reference channel, every position's voltage against
/// it, and the temperature from the first temperature channel.
pub open spec fn conversion_spec(
    avg: Seq<u16>,
    chs: Seq<Channel>,
    cal: CalibrationConstants,
    res: Resolution,
) -> Result<ConversionView, ConversionError> {
    if !has_role(chs, ChannelRole::Reference) {
        Err(ConversionError::MissingReferenceChannel)
    } else {
        let ref_raw = avg[first_with_role(chs, ChannelRole::Reference)];
        if ref_raw == 0 {
            Err(ConversionError::ZeroReference)
        } else if !has_role(chs, ChannelRole::Temperature) {
            Err(ConversionError::MissingTemperatureChannel)
        } else if cal.nominal_mv == 0 {
            Err(ConversionError::ZeroNominalSupply)
        } else if cal.cal30_raw == cal.cal130_raw {
            Err(ConversionError::EqualCalibrationPoints)
        } else {
            let supply = supply_mv_spec(ref_raw, cal.vref_cal_raw, cal.nominal_mv);
            Ok(
                ConversionView {
                    supply_mv: supply,
                    channel_mv: Seq::new(
                        avg.len(),
                        |i: int| channel_mv_spec(avg[i], supply as u32, res),
                    ),
                    temperature_centi: temperature_centi_spec(
                        avg[first_with_role(chs, ChannelRole::Temperature)],
                        supply as u32,
                        cal.nominal_mv,
                        cal.cal30_raw,
                        cal.cal130_raw,
                    ),
                },
            )
        }
    }
}

/// The abstract view of a conversion outcome.
pub open spec fn result_view(r: Result<ConversionResult, ConversionError>) -> Result<
    ConversionView,
    ConversionError,
> {
    match r {
        Ok(c) => Ok(c@),
        Err(e) => Err(e),
    }
}

/// Converts an averaged frame into calibrated supply, channel and temperature values.
pub fn convert(
    averages: &Vec<u16>,
    sequence: &ScanSequence,
    calibration: CalibrationConstants,
    resolution: Resolution,
) -> (r: Result<ConversionResult, ConversionError>)
    requires
        averages@.len() == sequence@.len(),
    ensures
        result_view(r) == conversion_spec(averages@, sequence@, calibration, resolution),
{
    let chs = sequence.channels();
    let ref_pos = match find_role(chs, ChannelRole::Reference) {
        Some(p) => p,
        None => return Err(ConversionError::MissingReferenceChannel),
    };
    let ref_raw = averages[ref_pos];
    let supply = match supply_millivolts(ref_raw, calibration.vref_cal_raw, calibration.nominal_mv) {
        Ok(v) => v,
        Err(e) => return Err(e),
    };
    let temp_pos = match find_role(chs, ChannelRole::Temperature) {
        Some(p) => p,
        None => return Err(ConversionError::MissingTemperatureChannel),
    };
    let temperature = match temperature_celsius(
        averages[temp_pos],
        supply,
        calibration.nominal_mv,
        calibration.cal30_raw,
        calibration.cal130_raw,
    ) {
        Ok(t) => t,
        Err(e) => return Err(e),
    };
    let ghost spec_supply = supply_mv_spec(ref_raw, calibration.vref_cal_raw, calibration.nominal_mv);
    let mut mv: Vec<u64> = Vec::with_capacity(averages.len());
    let mut i: usize = 0;
    while i < averages.len()
        invariant
            i <= averages@.len(),
            supply == spec_supply,
            mv@.len() == i,
            forall|j: int| 0 <= j < i ==> mv@[j] == channel_mv_spec(averages@[j], supply, resolution),
        decreases averages.len() - i,
    {
        mv.push(channel_millivolts(averages[i], supply, resolution));
        i = i + 1;
    }
    let r = ConversionResult { supply_mv: supply, channel_mv: mv, temperature_centi: temperature };
    assert(r@.channel_mv =~= Seq::new(
        averages@.len(),
        |i: int| channel_mv_spec(averages@[i], supply, resolution),
    ));
    Ok(r)
}

/// The interrupt-driven consumer: drains whole double frames of its scan,
/// averages them and converts the result.
pub struct FrameConsumer {
    sequence: ScanSequence,
    calibration: CalibrationConstants,
    resolution: Resolution,
}

impl FrameConsumer {
    pub closed spec fn sequence_spec(&self) -> Seq<Channel> {
        self.sequence@
    }

    pub closed spec fn calibration_spec(&self) -> CalibrationConstants {
        self.calibration
    }

    pub closed spec fn resolution_spec(&self) -> Resolution {
        self.resolution
    }

    /// A consumer is built from a configured sequence.
    pub closed spec fn wf(&self) -> bool {
        self.sequence.wf()
    }

    /// Samples in one double frame.
    pub open spec fn double_frame_width_spec(&self) -> nat {
        2 * self.sequence_spec().len()
    }

    pub fn new(
        sequence: ScanSequence,
        calibration: CalibrationConstants,
        resolution: Resolution,
    ) -> (r: FrameConsumer)
        requires
            sequence.wf(),
        ensures
            r.wf(),
            r.sequence_spec() == sequence@,
            r.calibration_spec() == calibration,
            r.resolution_spec() == resolution,
    {
        FrameConsumer { sequence, calibration, resolution }
    }

    /// Samples in one double frame: twice the scan length.
    pub fn double_frame_width(&self) -> (r: usize)
        requires
            self.wf(),
        ensures
            r == self.double_frame_width_spec(),
            0 < r <= 2 * crate::sequence::MAX_CHANNELS,
    {
        2 * self.sequence.frame_width()
    }

    /// An idle ring of `capacity` cells drained in this consumer's double
    /// frames. Fails unless `capacity` is a positive multiple of the
    /// double-frame width.
    pub fn new_ring(&self, capacity: usize) -> (r: Result<CircularBuffer, TransferError>)
        requires
            self.wf(),
        ensures
            r is Ok <==> (capacity > 0 && capacity as int % self.double_frame_width_spec() as int
                == 0),
            r is Err ==> r == Err::<CircularBuffer, TransferError>(TransferError::InvalidCapacity),
            r matches Ok(b) ==> b.wf() && b@ == (TransferView {
                unread: Seq::empty(),
                capacity: capacity as nat,
                frame_width: self.double_frame_width_spec(),
                write_cursor: 0,
                running: false,
                complete_pending: false,
            }),
    {
        CircularBuffer::new(capacity, self.double_frame_width())
    }

    /// Handles one transfer-complete wake-up. When a whole double frame is
    /// unread it is drained, averaged per position and converted (`Some`);
    /// otherwise nothing is read (`None`). Either way the signal is
    /// acknowledged exactly once.
    pub fn on_transfer_complete(&self, transfer: &mut CircularBuffer) -> (r: Option<
        Result<ConversionResult, ConversionError>,
    >)
        requires
            self.wf(),
            old(transfer).wf(),
            old(transfer)@.frame_width == self.double_frame_width_spec(),
        ensures
            final(transfer).wf(),
            old(transfer)@.unread.len() < self.double_frame_width_spec() ==> r is None
                && final(transfer)@ == old(transfer)@.cleared(),
            old(transfer)@.unread.len() >= self.double_frame_width_spec() ==> (r matches Some(c)
                && result_view(c) == conversion_spec(
                averaged(
                    old(transfer)@.unread.take(self.double_frame_width_spec() as int),
                    self.sequence_spec().len(),
                ),
                self.sequence_spec(),
                self.calibration_spec(),
                self.resolution_spec(),
            ) && final(transfer)@ == old(transfer)@.drained(
                self.double_frame_width_spec(),
            ).cleared()),
    {
        let width = self.sequence.frame_width();
        let double = 2 * width;
        if transfer.elements_available() < double {
            transfer.clear_transfer_complete_interrupt();
            return None;
        }
        let mut frame: Vec<u16> = vec![0u16; double];
        let read = transfer.read_exact(frame.as_mut_slice());
        assert(read is Ok);
        let averages = average_double_frame(frame.as_slice(), width);
        let result = convert(&averages, &self.sequence, self.calibration, self.resolution);
        transfer.clear_transfer_complete_interrupt();
        Some(result)
    }
}

} // verus!
