//! The laws of the modelled accumulator, stated over the same spec
//! functions that the executable operations are proved against.

use vstd::prelude::*;

use crate::accumulator::{assembled_fields, first_missing_from, ready, InstanceField, Value};
use crate::classify::spec_is_wf_option;
use crate::model::FieldSchema;
use crate::synth::{spec_generated_for, GeneratedSet, SlotType};

verus! {

/// A generated layout marks a slot as the wrapped, required kind exactly
/// where the field was not classified optional — so an accumulator built
/// from it requires exactly the required fields.
pub proof fn law_layout_marks_required(name: String, fields: Seq<FieldSchema>, g: GeneratedSet)
    requires
        spec_generated_for(name, fields, g),
    ensures
        forall|i: int|
            0 <= i < fields.len() ==> ((#[trigger] g.layout.slots@[i].ty is OptionOf)
                <==> !spec_is_wf_option(fields[i].ty)),
{
}

/// A sequence of absent slots.
pub open spec fn empty_slots(n: nat) -> Seq<Option<Value>> {
    Seq::new(n, |i: int| Option::<Value>::None)
}

/// The slot states after a sequence of positional setter calls, applied in
/// order: each call stores its value as present in its slot.
pub open spec fn apply_sets(
    slots: Seq<Option<Value>>,
    calls: Seq<(int, Value)>,
) -> Seq<Option<Value>>
    decreases calls.len(),
{
    if calls.len() == 0 {
        slots
    } else {
        apply_sets(slots.update(calls[0].0, Some(calls[0].1)), calls.drop_first())
    }
}

/// One setter call per field, in declaration order, with the given values.
pub open spec fn setter_calls(values: Seq<Value>) -> Seq<(int, Value)> {
    Seq::new(values.len(), |i: int| (i, values[i]))
}

/// The instance constructed directly from a full value set: required fields
/// hold their value, optional fields hold it as present.
pub open spec fn direct_fields(required: Seq<bool>, values: Seq<Value>) -> Seq<InstanceField> {
    Seq::new(
        required.len(),
        |i: int|
            if required[i] {
                InstanceField::Req(values[i])
            } else {
                InstanceField::Opt(Some(values[i]))
            },
    )
}

/// With only optional fields, assembly of a fresh accumulator — zero setter
/// calls — succeeds and yields an instance with every field absent.
pub proof fn law_all_optional_assembles_empty(required: Seq<bool>)
    requires
        forall|i: int| 0 <= i < required.len() ==> !required[i],
    ensures
        ready(required, empty_slots(required.len())),
        assembled_fields(required, empty_slots(required.len())).len() == required.len(),
        forall|i: int|
            0 <= i < required.len() ==> assembled_fields(required, empty_slots(required.len()))[i]
                == InstanceField::Opt(Option::<Value>::None),
{
}

/// While any required field's slot is absent, assembly fails — and it fails
/// on the first such field in declaration order.
pub proof fn law_missing_required_blocks_assembly(
    required: Seq<bool>,
    slots: Seq<Option<Value>>,
    k: int,
)
    requires
        slots.len() == required.len(),
        0 <= k < required.len(),
        required[k],
        slots[k] is None,
    ensures
        !ready(required, slots),
        0 <= first_missing_from(required, slots, 0) <= k,
{
    lemma_first_missing_bounded(required, slots, 0, k);
}

/// Once every required field's slot is present, assembly succeeds.
pub proof fn law_all_required_present_assembles(required: Seq<bool>, slots: Seq<Option<Value>>)
    requires
        slots.len() == required.len(),
        forall|i: int| 0 <= i < required.len() ==> (required[i] ==> #[trigger] slots[i] is Some),
    ensures
        ready(required, slots),
{
}

/// Setter calls are idempotent-overwritable: setting the same field first
/// to `v1` and then to `v2` leaves exactly what setting it once to `v2`
/// leaves — last write wins, `v1` is gone.
pub proof fn law_setter_overwrites(slots: Seq<Option<Value>>, i: int, v1: Value, v2: Value)
    requires
        0 <= i < slots.len(),
    ensures
        apply_sets(slots, seq![(i, v1), (i, v2)]) == slots.update(i, Some(v2)),
{
    reveal_with_fuel(apply_sets, 3);
    let calls = seq![(i, v1), (i, v2)];
    assert(calls[0] == (i, v1));
    assert(calls.drop_first() =~= seq![(i, v2)]);
    assert(seq![(i, v2)].drop_first() =~= Seq::<(int, Value)>::empty());
    assert(apply_sets(slots, calls) == slots.update(i, Some(v1)).update(i, Some(v2)));
    assert(slots.update(i, Some(v1)).update(i, Some(v2)) =~= slots.update(i, Some(v2)));
}

/// Setter calls on distinct fields commute: the slot states — and with them
/// the assembled instance — do not depend on the order of the calls.
pub proof fn law_setters_commute(slots: Seq<Option<Value>>, i: int, vi: Value, j: int, vj: Value)
    requires
        0 <= i < slots.len(),
        0 <= j < slots.len(),
        i != j,
    ensures
        apply_sets(slots, seq![(i, vi), (j, vj)]) == apply_sets(slots, seq![(j, vj), (i, vi)]),
{
    reveal_with_fuel(apply_sets, 3);
    let a = seq![(i, vi), (j, vj)];
    let b = seq![(j, vj), (i, vi)];
    assert(a[0] == (i, vi));
    assert(b[0] == (j, vj));
    assert(a.drop_first() =~= seq![(j, vj)]);
    assert(b.drop_first() =~= seq![(i, vi)]);
    assert(seq![(j, vj)].drop_first() =~= Seq::<(int, Value)>::empty());
    assert(seq![(i, vi)].drop_first() =~= Seq::<(int, Value)>::empty());
    assert(apply_sets(slots, a) == slots.update(i, Some(vi)).update(j, Some(vj)));
    assert(apply_sets(slots, b) == slots.update(j, Some(vj)).update(i, Some(vi)));
    assert(slots.update(i, Some(vi)).update(j, Some(vj)) =~= slots.update(j, Some(vj)).update(
        i,
        Some(vi),
    ));
}

/// Field order in the assembled instance matches declaration order: position
/// `i` of the instance is determined by slot `i` alone, whatever order the
/// slots were filled in.
pub proof fn law_fields_follow_declaration_order(required: Seq<bool>, slots: Seq<Option<Value>>)
    ensures
        assembled_fields(required, slots).len() == required.len(),
        forall|i: int|
            0 <= i < required.len() ==> assembled_fields(required, slots)[i] == (if required[i] {
                InstanceField::Req(slots[i]->0)
            } else {
                InstanceField::Opt(slots[i])
            }),
{
}

/// Round trip: starting from a fresh accumulator, applying every field's
/// setter with a full value set and assembling yields exactly the instance
/// constructed directly from that value set.
pub proof fn law_round_trip(required: Seq<bool>, values: Seq<Value>)
    requires
        values.len() == required.len(),
    ensures
        ready(required, apply_sets(empty_slots(required.len()), setter_calls(values))),
        assembled_fields(required, apply_sets(empty_slots(required.len()), setter_calls(values)))
            == direct_fields(required, values),
{
    let n = required.len();
    lemma_apply_setter_prefix(values, n as int);
    assert(setter_calls(values).subrange(0, n as int) =~= setter_calls(values));
    let full = apply_sets(empty_slots(n), setter_calls(values));
    assert(forall|i: int| 0 <= i < n ==> full[i] == Some(values[i]));
    assert(assembled_fields(required, full) =~= direct_fields(required, values));
}

/// Helper: the first missing slot is never past a known missing slot.
proof fn lemma_first_missing_bounded(
    required: Seq<bool>,
    slots: Seq<Option<Value>>,
    from: int,
    k: int,
)
    requires
        slots.len() == required.len(),
        0 <= from <= k,
        0 <= k < required.len(),
        required[k],
        slots[k] is None,
    ensures
        from <= first_missing_from(required, slots, from) <= k,
    decreases k - from,
{
    if from < k && !(required[from] && slots[from] is None) {
        lemma_first_missing_bounded(required, slots, from + 1, k);
    }
}

/// Helper: applying the first `k` positional setter calls fills exactly the
/// first `k` slots with their values.
proof fn lemma_apply_setter_prefix(values: Seq<Value>, k: int)
    requires
        0 <= k <= values.len(),
    ensures
        apply_sets(empty_slots(values.len()), setter_calls(values).subrange(0, k)) =~= Seq::new(
            values.len(),
            |i: int| if i < k {
                Some(values[i])
            } else {
                Option::<Value>::None
            },
        ),
    decreases k,
{
    let n = values.len();
    let calls = setter_calls(values);
    if k == 0 {
        assert(calls.subrange(0, 0) =~= Seq::<(int, Value)>::empty());
    } else {
        lemma_apply_setter_prefix(values, k - 1);
        lemma_apply_sets_snoc(empty_slots(n), calls.subrange(0, k - 1), (k - 1, values[k - 1]));
        assert(calls.subrange(0, k) =~= calls.subrange(0, k - 1).push((k - 1, values[k - 1])));
    }
}

/// Helper: applying calls and then one more is applying the calls and then
/// updating the last call's slot.
proof fn lemma_apply_sets_snoc(
    slots: Seq<Option<Value>>,
    calls: Seq<(int, Value)>,
    call: (int, Value),
)
    ensures
        apply_sets(slots, calls.push(call)) == apply_sets(slots, calls).update(
            call.0,
            Some(call.1),
        ),
    decreases calls.len(),
{
    reveal_with_fuel(apply_sets, 2);
    if calls.len() == 0 {
        assert(calls.push(call)[0] == call);
        assert(calls.push(call).drop_first() =~= Seq::<(int, Value)>::empty());
    } else {
        assert(calls.push(call)[0] == calls[0]);
        assert(calls.push(call).drop_first() =~= calls.drop_first().push(call));
        lemma_apply_sets_snoc(slots.update(calls[0].0, Some(calls[0].1)), calls.drop_first(), call);
    }
}

} // verus!
