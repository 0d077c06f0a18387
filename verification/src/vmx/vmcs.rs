pub mod encoding;

use vstd::prelude::*;

use super::sim::{SimEvent, SimState, SimView};

verus! {

/// Failure of a VMCS field access.
#[derive(Debug, Clone, Copy, PartialEq, Eq)]
pub enum VmcsError {
    VmreadFailed,
    VmwriteFailed,
}

/// The VMCS contents after the `(field, value)` writes, in order (a later
/// write of a field replaces an earlier one).
pub open spec fn spec_apply_writes(vmcs: Map<u32, u64>, writes: Seq<(u32, u64)>) -> Map<u32, u64>
    decreases writes.len(),
{
    if writes.len() == 0 {
        vmcs
    } else {
        spec_apply_writes(vmcs, writes.drop_last()).insert(writes.last().0, writes.last().1)
    }
}

/// The `VMWRITE` records of the writes, in order.
pub open spec fn spec_write_events(writes: Seq<(u32, u64)>) -> Seq<SimEvent> {
    writes.map_values(|w: (u32, u64)| SimEvent::Vmwrite { field: w.0, value: w.1 })
}

/// The processor state after attempting the writes in order: with a current
/// VMCS all succeed; without one the first fails and nothing changes.
pub open spec fn spec_after_writes(v: SimView, writes: Seq<(u32, u64)>) -> SimView {
    if v.vmcs_loaded {
        SimView {
            events: v.events + spec_write_events(writes),
            vmcs: spec_apply_writes(v.vmcs, writes),
            ..v
        }
    } else {
        v
    }
}

/// The result of attempting the writes in order.
pub open spec fn spec_writes_result(v: SimView, writes: Seq<(u32, u64)>) -> Result<(), VmcsError> {
    if v.vmcs_loaded || writes.len() == 0 {
        Ok(())
    } else {
        Err(VmcsError::VmwriteFailed)
    }
}

/// Writing `a` then `b` is writing `a + b`.
pub proof fn lemma_apply_writes_concat(vmcs: Map<u32, u64>, a: Seq<(u32, u64)>, b: Seq<(u32, u64)>)
    ensures
        spec_apply_writes(vmcs, a + b) == spec_apply_writes(spec_apply_writes(vmcs, a), b),
    decreases b.len(),
{
    if b.len() == 0 {
        assert(a + b =~= a);
    } else {
        assert((a + b).drop_last() =~= a + b.drop_last());
        assert((a + b).last() == b.last());
        lemma_apply_writes_concat(vmcs, a, b.drop_last());
    }
}

/// Attempting writes `a` then writes `b` is attempting `a + b`.
pub proof fn lemma_after_writes_concat(v: SimView, a: Seq<(u32, u64)>, b: Seq<(u32, u64)>)
    ensures
        spec_after_writes(spec_after_writes(v, a), b) == spec_after_writes(v, a + b),
{
    lemma_apply_writes_concat(v.vmcs, a, b);
    assert(spec_write_events(a + b) =~= spec_write_events(a) + spec_write_events(b));
    assert(v.events + spec_write_events(a) + spec_write_events(b) =~= v.events
        + spec_write_events(a + b));
}

/// A field holds the value of its last write.
pub proof fn lemma_apply_writes_last(vmcs: Map<u32, u64>, writes: Seq<(u32, u64)>, i: int)
    requires
        0 <= i < writes.len(),
        forall|j: int| i < j < writes.len() ==> #[trigger] writes[j].0 != writes[i].0,
    ensures
        spec_apply_writes(vmcs, writes).contains_key(writes[i].0),
        spec_apply_writes(vmcs, writes)[writes[i].0] == writes[i].1,
    decreases writes.len(),
{
    if i < writes.len() - 1 {
        assert(writes[writes.len() - 1].0 != writes[i].0);
        assert forall|j: int| i < j < writes.drop_last().len() implies #[trigger] writes.drop_last()[j].0
            != writes.drop_last()[i].0 by {
            assert(writes.drop_last()[j] == writes[j]);
        }
        lemma_apply_writes_last(vmcs, writes.drop_last(), i);
    }
}

/// Writes to other fields leave a field as it was.
pub proof fn lemma_apply_writes_untouched(vmcs: Map<u32, u64>, writes: Seq<(u32, u64)>, field: u32)
    requires
        forall|i: int| 0 <= i < writes.len() ==> #[trigger] writes[i].0 != field,
    ensures
        spec_apply_writes(vmcs, writes).contains_key(field) == vmcs.contains_key(field),
        spec_apply_writes(vmcs, writes)[field] == vmcs[field],
    decreases writes.len(),
{
    if writes.len() > 0 {
        assert forall|i: int| 0 <= i < writes.drop_last().len() implies #[trigger] writes.drop_last()[i].0
            != field by {
            assert(writes.drop_last()[i] == writes[i]);
        }
        lemma_apply_writes_untouched(vmcs, writes.drop_last(), field);
        assert(writes[writes.len() - 1].0 != field);
    }
}

/// A `VMWRITE` to the current VMCS is seen by a later `VMREAD` of that field,
/// and every other field keeps its value.
pub proof fn lemma_write_then_read(v: SimView, field: u32, value: u64, other: u32)
    requires
        v.vmcs_loaded,
    ensures
        ({
            let w = spec_after_writes(v, seq![(field, value)]);
            &&& w.vmcs_loaded
            &&& w.vmcs_value(field) == value
            &&& other != field ==> w.vmcs_value(other) == v.vmcs_value(other)
        }),
{
    lemma_single_write(v, field, value);
}

/// Read a field from the current VMCS.
pub fn vmread(sim: &mut SimState, field: u32) -> (r: Result<u64, VmcsError>)
    ensures
        old(sim)@.vmcs_loaded ==> r == Ok::<u64, VmcsError>(old(sim)@.vmcs_value(field))
            && final(sim)@ == (SimView {
            events: old(sim)@.events.push(SimEvent::Vmread { field }),
            ..old(sim)@
        }),
        !old(sim)@.vmcs_loaded ==> r == Err::<u64, VmcsError>(VmcsError::VmreadFailed)
            && final(sim)@ == old(sim)@,
{
    super::sim::vmread(sim, field)
}

/// Write a field to the current VMCS.
pub fn vmwrite(sim: &mut SimState, field: u32, value: u64) -> (r: Result<(), VmcsError>)
    ensures
        old(sim)@.vmcs_loaded ==> r is Ok && final(sim)@ == (SimView {
            events: old(sim)@.events.push(SimEvent::Vmwrite { field, value }),
            vmcs: old(sim)@.vmcs.insert(field, value),
            ..old(sim)@
        }),
        !old(sim)@.vmcs_loaded ==> r == Err::<(), VmcsError>(VmcsError::VmwriteFailed)
            && final(sim)@ == old(sim)@,
{
    super::sim::vmwrite(sim, field, value)
}

/// A single write is a one-element write sequence.
pub proof fn lemma_single_write(v: SimView, field: u32, value: u64)
    ensures
        v.vmcs_loaded ==> spec_after_writes(v, seq![(field, value)]) == (SimView {
            events: v.events.push(SimEvent::Vmwrite { field, value }),
            vmcs: v.vmcs.insert(field, value),
            ..v
        }),
        spec_writes_result(v, seq![(field, value)]) == (if v.vmcs_loaded {
            Ok::<(), VmcsError>(())
        } else {
            Err(VmcsError::VmwriteFailed)
        }),
{
    let w = seq![(field, value)];
    assert(w.drop_last() =~= Seq::<(u32, u64)>::empty());
    assert(spec_apply_writes(v.vmcs, w.drop_last()) == v.vmcs);
    assert(spec_write_events(w) =~= seq![SimEvent::Vmwrite { field, value }]);
    assert(v.events + spec_write_events(w) =~= v.events.push(SimEvent::Vmwrite { field, value }));
}

/// Write the fields in order, stopping at the first failure.
pub fn vmwrite_all(sim: &mut SimState, writes: &[(u32, u64)]) -> (r: Result<(), VmcsError>)
    ensures
        r == spec_writes_result(old(sim)@, writes@),
        final(sim)@ == spec_after_writes(old(sim)@, writes@),
{
    let mut i: usize = 0;
    while i < writes.len()
        invariant
            0 <= i <= writes@.len(),
            sim@ == spec_after_writes(old(sim)@, writes@.take(i as int)),
            i > 0 ==> old(sim)@.vmcs_loaded,
        decreases writes@.len() - i,
    {
        let (field, value) = writes[i];
        let ghost before = sim@;
        proof {
            lemma_single_write(before, field, value);
        }
        match vmwrite(sim, field, value) {
            Ok(()) => {},
            Err(e) => {
                assert(writes@.take(0) =~= Seq::<(u32, u64)>::empty());
                assert(spec_apply_writes(old(sim)@.vmcs, Seq::<(u32, u64)>::empty()) == old(
                    sim,
                )@.vmcs);
                assert(old(sim)@.events + spec_write_events(Seq::<(u32, u64)>::empty())
                    =~= old(sim)@.events);
                return Err(e);
            },
        }
        proof {
            lemma_after_writes_concat(old(sim)@, writes@.take(i as int), seq![(field, value)]);
            assert(writes@.take(i as int) + seq![(field, value)] =~= writes@.take(i + 1));
        }
        i = i + 1;
    }
    proof {
        assert(writes@.take(i as int) =~= writes@);
        if writes@.len() == 0 {
            assert(spec_apply_writes(old(sim)@.vmcs, writes@) == old(sim)@.vmcs);
            assert(old(sim)@.events + spec_write_events(writes@) =~= old(sim)@.events);
        }
    }
    Ok(())
}

/// Read the VM-instruction error field after a failed VMX instruction
/// (0 when it cannot be read).
pub fn vm_instruction_error(sim: &mut SimState) -> (error: u32)
    ensures
        old(sim)@.vmcs_loaded ==> error == old(sim)@.vmcs_value(
            encoding::VM_INSTRUCTION_ERROR,
        ) as u32 && final(sim)@ == (SimView {
            events: old(sim)@.events.push(SimEvent::Vmread { field: encoding::VM_INSTRUCTION_ERROR }),
            ..old(sim)@
        }),
        !old(sim)@.vmcs_loaded ==> error == 0 && final(sim)@ == old(sim)@,
{
    match vmread(sim, encoding::VM_INSTRUCTION_ERROR) {
        Ok(value) => value as u32,
        Err(_) => 0,
    }
}

} // verus!
