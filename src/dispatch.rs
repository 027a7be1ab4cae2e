//! Report framing and dispatch to the devices of a rule.
use vstd::prelude::*;
use crate::config::{Device, Event, Rule};
use crate::registry::{EnumeratedDevice, HidDevices, entries_view, first_match};
use crate::window::WindowMetadata;

verus! {

/// Why one `(device, report)` pair was not delivered.
#[derive(Debug, Clone, Copy, PartialEq, Eq, Structural)]
pub enum DispatchError {
    /// The registry holds no device with the profile's identity.
    DeviceNotFound,
    /// The transport could not open the device.
    DeviceOpenFailure,
    /// The transport opened the device but the write failed.
    DeviceWriteFailure,
    /// The payload is longer than the profile's report length.
    PayloadTooLong,
}

/// A failure reported by the transport that opens and writes a device.
#[derive(Debug, Clone, Copy, PartialEq, Eq, Structural)]
pub enum LinkFailure {
    Open,
    Write,
}

/// A failed pair: `device` indexes the rule's devices, `report` the
/// selected report set.
#[derive(Debug, Clone, Copy, PartialEq, Eq, Structural)]
pub struct DispatchFailure {
    pub device: usize,
    pub report: usize,
    pub error: DispatchError,
}

/// The frame for a payload: the report id, the payload, then zeros up to
/// `report_length` bytes after the id.
pub open spec fn frame_of(report_id: u8, report_length: nat, payload: Seq<u8>) -> Seq<u8> {
    seq![report_id] + payload + Seq::new((report_length - payload.len()) as nat, |_i: int| 0u8)
}

pub open spec fn link_result(out: Result<usize, LinkFailure>) -> Result<usize, DispatchError> {
    match out {
        Ok(n) => Ok(n),
        Err(LinkFailure::Open) => Err(DispatchError::DeviceOpenFailure),
        Err(LinkFailure::Write) => Err(DispatchError::DeviceWriteFailure),
    }
}

/// What sending `payload` to `dev` may give, with `devs` the registry's
/// enumeration and `transmit` the transport: not found, too long, or what
/// the transport returned for the device's entry and the frame.
pub open spec fn send_outcome<T, F: Fn(&T, &[u8]) -> Result<usize, LinkFailure>>(
    dev: Device,
    devs: Seq<EnumeratedDevice<T>>,
    payload: Seq<u8>,
    transmit: F,
    r: Result<usize, DispatchError>,
) -> bool {
    match first_match(entries_view(devs), dev.spec_key()) {
        None => r == Err::<usize, DispatchError>(DispatchError::DeviceNotFound),
        Some(i) => if payload.len() > dev.report_length {
            r == Err::<usize, DispatchError>(DispatchError::PayloadTooLong)
        } else {
            exists|frame: &[u8], out: Result<usize, LinkFailure>|
                frame@ == frame_of(dev.report_id, dev.report_length as nat, payload)
                    && #[trigger] transmit.ensures((&devs[i].info, frame), out) && r == link_result(
                    out,
                )
        },
    }
}

impl Device {
    /// Frames `payload` for this device: the report id followed by exactly
    /// `report_length` bytes, the payload first and zeros after it. A payload
    /// longer than `report_length` is refused.
    pub fn build_frame(&self, payload: &[u8]) -> (r: Result<Vec<u8>, DispatchError>)
        ensures
            payload@.len() > self.report_length ==> r == Err::<Vec<u8>, DispatchError>(
                DispatchError::PayloadTooLong,
            ),
            payload@.len() <= self.report_length ==> r is Ok && r->Ok_0@ == frame_of(
                self.report_id,
                self.report_length as nat,
                payload@,
            ),
    {
        let n = self.report_length as usize;
        if payload.len() > n {
            return Err(DispatchError::PayloadTooLong);
        }
        let mut frame: Vec<u8> = Vec::with_capacity(n + 1);
        frame.push(self.report_id);
        let mut i: usize = 0;
        while i < payload.len()
            invariant
                0 <= i <= payload@.len(),
                frame@ == seq![self.report_id] + payload@.take(i as int),
            decreases payload@.len() - i,
        {
            frame.push(payload[i]);
            i += 1;
            assert(frame@ =~= seq![self.report_id] + payload@.take(i as int));
        }
        assert(payload@.take(i as int) =~= payload@);
        let ghost head = frame@;
        while frame.len() < n + 1
            invariant
                n == self.report_length as usize,
                head.len() <= frame@.len() <= n + 1,
                head == seq![self.report_id] + payload@,
                frame@ == head + Seq::new((frame@.len() - head.len()) as nat, |_i: int| 0u8),
            decreases n + 1 - frame@.len(),
        {
            frame.push(0u8);
            assert(frame@ =~= head + Seq::new((frame@.len() - head.len()) as nat, |_i: int| 0u8));
        }
        Ok(frame)
    }

    /// Sends one report to this device: resolves it in `registry`, frames
    /// `report`, and hands the device's entry and the frame to `transmit`,
    /// which opens the device and writes. Returns the bytes written, or why
    /// nothing was.
    pub fn send_report<T, F: Fn(&T, &[u8]) -> Result<usize, LinkFailure>>(
        &self,
        registry: &HidDevices<T>,
        report: &[u8],
        transmit: &F,
    ) -> (r: Result<usize, DispatchError>)
        requires
            registry.wf(),
            forall|t: &T, frame: &[u8]| #[trigger] transmit.requires((t, frame)),
        ensures
            send_outcome(*self, registry@, report@, *transmit, r),
    {
        let key = self.key();
        let info = match registry.get(&key) {
            Some(info) => info,
            None => return Err(DispatchError::DeviceNotFound),
        };
        let frame = match self.build_frame(report) {
            Ok(frame) => frame,
            Err(e) => return Err(e),
        };
        let out = transmit(info, frame.as_slice());
        match out {
            Ok(n) => Ok(n),
            Err(LinkFailure::Open) => Err(DispatchError::DeviceOpenFailure),
            Err(LinkFailure::Write) => Err(DispatchError::DeviceWriteFailure),
        }
    }
}

/// The failures of one device's row of outcomes, in report order.
pub open spec fn row_failures(device: int, row: Seq<Result<usize, DispatchError>>) -> Seq<
    DispatchFailure,
>
    decreases row.len(),
{
    if row.len() == 0 {
        Seq::empty()
    } else {
        row_failures(device, row.drop_last()) + match row.last() {
            Ok(_) => Seq::empty(),
            Err(e) => seq![
                DispatchFailure { device: device as usize, report: (row.len() - 1) as usize, error: e },
            ],
        }
    }
}

/// The failures of a whole trigger: device by device, report by report.
pub open spec fn all_failures(outs: Seq<Seq<Result<usize, DispatchError>>>) -> Seq<DispatchFailure>
    decreases outs.len(),
{
    if outs.len() == 0 {
        Seq::empty()
    } else {
        all_failures(outs.drop_last()) + row_failures(outs.len() - 1, outs.last())
    }
}

pub open spec fn payload_views(reports: Seq<Vec<u8>>) -> Seq<Seq<u8>> {
    reports.map_values(|p: Vec<u8>| p@)
}

/// `outs` holds one outcome for each pair of a device of `devices` and a
/// payload of `reports`, each one that `send_report` may give.
pub open spec fn dispatch_outcomes<T, F: Fn(&T, &[u8]) -> Result<usize, LinkFailure>>(
    devices: Seq<Device>,
    devs: Seq<EnumeratedDevice<T>>,
    reports: Seq<Seq<u8>>,
    transmit: F,
    outs: Seq<Seq<Result<usize, DispatchError>>>,
) -> bool {
    &&& outs.len() == devices.len()
    &&& forall|d: int| 0 <= d < outs.len() ==> (#[trigger] outs[d]).len() == reports.len()
    &&& forall|d: int, k: int|
        0 <= d < outs.len() && 0 <= k < reports.len() ==> send_outcome(
            devices[d],
            devs,
            reports[k],
            transmit,
            #[trigger] outs[d][k],
        )
}

/// The report set that a rule's event selects for `window`.
pub open spec fn selected_reports(rule: Rule, window: crate::window::WindowMetadataView) -> Seq<Vec<u8>> {
    match rule.event {
        Event::FocusedWindowChanged(cfg) => if cfg.spec_matches(window) {
            cfg.on_match_reports@
        } else {
            cfg.on_no_match_reports@
        },
    }
}

/// Evaluates `rule` against `window` and sends the selected reports to each
/// of the rule's devices, in device order and then report order. A failure
/// is recorded against its `(device, report)` pair and the run goes on with
/// the remaining pairs; nothing is retried.
pub fn evaluate_and_dispatch<T, F: Fn(&T, &[u8]) -> Result<usize, LinkFailure>>(
    rule: &Rule,
    window: &WindowMetadata,
    registry: &HidDevices<T>,
    transmit: &F,
) -> (r: Vec<DispatchFailure>)
    requires
        registry.wf(),
        forall|t: &T, frame: &[u8]| #[trigger] transmit.requires((t, frame)),
    ensures
        exists|outs: Seq<Seq<Result<usize, DispatchError>>>|
            dispatch_outcomes(
                rule.devices@,
                registry@,
                payload_views(selected_reports(*rule, window@)),
                *transmit,
                outs,
            ) && r@ == all_failures(outs),
{
    let reports = match &rule.event {
        Event::FocusedWindowChanged(cfg) => cfg.select_reports(window),
    };
    let ghost pv = payload_views(reports@);
    assert(pv == payload_views(selected_reports(*rule, window@)));
    let mut failures: Vec<DispatchFailure> = Vec::new();
    let ghost mut outs: Seq<Seq<Result<usize, DispatchError>>> = Seq::empty();
    let mut d: usize = 0;
    while d < rule.devices.len()
        invariant
            0 <= d <= rule.devices.len(),
            pv == payload_views(reports@),
            registry.wf(),
            forall|t: &T, frame: &[u8]| #[trigger] transmit.requires((t, frame)),
            dispatch_outcomes(rule.devices@.take(d as int), registry@, pv, *transmit, outs),
            failures@ == all_failures(outs),
        decreases rule.devices.len() - d,
    {
        let ghost mut row: Seq<Result<usize, DispatchError>> = Seq::empty();
        let ghost before = failures@;
        let mut k: usize = 0;
        while k < reports.len()
            invariant
                0 <= d < rule.devices.len(),
                0 <= k <= reports.len(),
                pv == payload_views(reports@),
                registry.wf(),
                forall|t: &T, frame: &[u8]| #[trigger] transmit.requires((t, frame)),
                row.len() == k,
                forall|j: int|
                    0 <= j < k ==> send_outcome(
                        rule.devices@[d as int],
                        registry@,
                        pv[j],
                        *transmit,
                        #[trigger] row[j],
                    ),
                before == all_failures(outs),
                failures@ == before + row_failures(d as int, row),
            decreases reports.len() - k,
        {
            let out = rule.devices[d].send_report(registry, reports[k].as_slice(), transmit);
            proof {
                assert(row.push(out).drop_last() =~= row);
                row = row.push(out);
            }
            match out {
                Ok(_) => {
                    assert(failures@ =~= before + row_failures(d as int, row));
                },
                Err(e) => {
                    failures.push(DispatchFailure { device: d, report: k, error: e });
                    assert(failures@ =~= before + row_failures(d as int, row));
                },
            }
            k += 1;
        }
        proof {
            let next = outs.push(row);
            assert(next.drop_last() =~= outs);
            assert(rule.devices@.take(d + 1).drop_last() =~= rule.devices@.take(d as int));
            assert forall|i: int, j: int|
                0 <= i < next.len() && 0 <= j < pv.len() implies send_outcome(
                rule.devices@.take(d + 1)[i],
                registry@,
                pv[j],
                *transmit,
                #[trigger] next[i][j],
            ) by {
                if i < d {
                    assert(next[i] == outs[i]);
                    assert(rule.devices@.take(d + 1)[i] == rule.devices@.take(d as int)[i]);
                }
            }
            assert(failures@ =~= all_failures(next));
            outs = next;
        }
        d += 1;
    }
    assert(rule.devices@.take(d as int) =~= rule.devices@);
    failures
}

} // verus!
