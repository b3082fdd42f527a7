//! Compute passes: an active pass that records pipeline, binding and
//! dispatch commands in issue order.

use vstd::prelude::*;
use vstd::slice::slice_to_vec;

use crate::wgpu::bind::BindGroup;
use crate::wgpu::pipeline::ComputePipeline;
use crate::wgpu::render_pass::TimestampWrites;

verus! {

/// One recorded operation of an active compute pass.
#[derive(Debug)]
pub enum ComputeCommand {
    SetPipeline { pipeline: u64 },
    SetBindGroup { index: u32, group: u64, offsets: Vec<u32> },
    Dispatch { x: u32, y: u32, z: u32 },
}

/// A finished compute pass as it sits in a command buffer.
pub struct ComputePassRecord {
    pub label: Option<String>,
    pub timestamp_writes: Option<TimestampWrites>,
    pub commands: Vec<ComputeCommand>,
}

/// An active compute pass: every fluent call appends one command to its
/// record, in issue order.
pub struct ComputePass {
    pub record: ComputePassRecord,
}

/// The parts of a pass record that command recording leaves untouched.
pub open spec fn same_compute_attachments(a: ComputePassRecord, b: ComputePassRecord) -> bool {
    &&& a.label == b.label
    &&& a.timestamp_writes == b.timestamp_writes
}

impl ComputePass {
    /// An open pass with nothing recorded yet.
    pub fn new(label: Option<String>, timestamp_writes: Option<TimestampWrites>) -> (r:
        ComputePass)
        ensures
            r.record.label == label,
            r.record.timestamp_writes == timestamp_writes,
            r.record.commands@ =~= Seq::<ComputeCommand>::empty(),
    {
        ComputePass { record: ComputePassRecord { label, timestamp_writes, commands: Vec::new() } }
    }

    /// Record binding the pipeline that subsequent dispatches use.
    pub fn with_pipeline(self, pipeline: &ComputePipeline) -> (r: ComputePass)
        ensures
            same_compute_attachments(r.record, self.record),
            r.record.commands@ == self.record.commands@.push(
                (ComputeCommand::SetPipeline { pipeline: pipeline.id }),
            ),
    {
        let mut pass = self;
        pass.record.commands.push(ComputeCommand::SetPipeline { pipeline: pipeline.id });
        pass
    }

    /// Record binding a group at an explicit index, with dynamic offsets.
    pub fn with_offset_bind_group(self, index: u32, bind_group: &BindGroup, offsets: &[u32]) -> (r:
        ComputePass)
        ensures
            same_compute_attachments(r.record, self.record),
            r.record.commands@.len() == self.record.commands@.len() + 1,
            r.record.commands@.take(self.record.commands@.len() as int) == self.record.commands@,
            r.record.commands@.last() matches ComputeCommand::SetBindGroup {
                index: i,
                group: g,
                offsets: o,
            } && i == index && g == bind_group.id && o@ == offsets@,
    {
        let mut pass = self;
        pass.record.commands.push(
            ComputeCommand::SetBindGroup {
                index,
                group: bind_group.id,
                offsets: slice_to_vec(offsets),
            },
        );
        pass
    }

    /// Record binding a group at an explicit index.
    pub fn with_bind_group(self, index: u32, bind_group: &BindGroup) -> (r: ComputePass)
        ensures
            same_compute_attachments(r.record, self.record),
            r.record.commands@.len() == self.record.commands@.len() + 1,
            r.record.commands@.take(self.record.commands@.len() as int) == self.record.commands@,
            r.record.commands@.last() matches ComputeCommand::SetBindGroup {
                index: i,
                group: g,
                offsets: o,
            } && i == index && g == bind_group.id && o@ =~= Seq::<u32>::empty(),
    {
        let empty: Vec<u32> = Vec::new();
        self.with_offset_bind_group(index, bind_group, empty.as_slice())
    }

    /// Record binding a fixed array of groups at indices 0 .. N-1, in
    /// array order.
    pub fn with_bind_groups<const N: usize>(self, bind_groups: [&BindGroup; N]) -> (r: ComputePass)
        requires
            N <= u32::MAX,
        ensures
            same_compute_attachments(r.record, self.record),
            r.record.commands@.len() == self.record.commands@.len() + N,
            r.record.commands@.take(self.record.commands@.len() as int) == self.record.commands@,
            forall|j: int|
                0 <= j < N ==> ((#[trigger] r.record.commands@[self.record.commands@.len() + j])
                    matches ComputeCommand::SetBindGroup { index, group, offsets } && index == j
                    && group == bind_groups@[j].id && offsets@.len() == 0),
    {
        let ghost base = self.record.commands@.len() as int;
        let ghost orig = self.record;
        let mut pass = self;
        let mut k: usize = 0;
        while k < N
            invariant
                N <= u32::MAX,
                k <= N,
                0 <= base,
                same_compute_attachments(pass.record, orig),
                pass.record.commands@.len() == base + k,
                pass.record.commands@.take(base) == orig.commands@,
                forall|j: int|
                    0 <= j < k ==> ((#[trigger] pass.record.commands@[base + j])
                        matches ComputeCommand::SetBindGroup { index, group, offsets } && index == j
                        && group == bind_groups@[j].id && offsets@.len() == 0),
            decreases N - k,
        {
            let ghost prev = pass.record.commands@;
            let pass2 = pass.with_bind_group(k as u32, bind_groups[k]);
            pass = pass2;
            proof {
                let newc = pass.record.commands@;
                assert(newc.take(prev.len() as int) == prev);
                assert forall|i: int| 0 <= i < base implies newc[i] == orig.commands@[i] by {
                    assert(newc.take(prev.len() as int)[i] == prev[i]);
                    assert(prev.take(base)[i] == orig.commands@[i]);
                }
                assert(newc.take(base) =~= orig.commands@);
                assert forall|j: int|
                    0 <= j < k + 1 implies ((#[trigger] newc[base + j])
                    matches ComputeCommand::SetBindGroup { index, group, offsets } && index == j
                    && group == bind_groups@[j].id && offsets@.len() == 0) by {
                    if j < k {
                        assert(newc.take(prev.len() as int)[base + j] == prev[base + j]);
                        assert(newc[base + j] == prev[base + j]);
                    } else {
                        assert(newc[base + j] == newc.last());
                    }
                }
            }
            k = k + 1;
        }
        pass
    }

    /// Record one dispatch with explicit workgroup counts.
    pub fn dispatch(self, x: u32, y: u32, z: u32) -> (r: ComputePass)
        ensures
            same_compute_attachments(r.record, self.record),
            r.record.commands@ == self.record.commands@.push((ComputeCommand::Dispatch { x, y, z })),
    {
        let mut pass = self;
        pass.record.commands.push(ComputeCommand::Dispatch { x, y, z });
        pass
    }
}

} // verus!
