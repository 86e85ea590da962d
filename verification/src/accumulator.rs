//! A dynamic model of the generated accumulator: one presence-tracked slot
//! per field, filled by position through setter calls and drained by a
//! validating, all-or-nothing assembly operation.
//!
//! The generated code itself is only declared by [`crate::synth`]; this
//! module gives those declarations their intended runtime behaviour, so that
//! it can be stated and proved: construction always succeeds with every slot
//! absent, a setter overwrites its slot and nothing else, and assembly either
//! produces the whole instance in declaration order or reports the first
//! missing required field without producing anything.

use vstd::prelude::*;

use crate::synth::{GeneratedSet, SlotType};

verus! {

/// A runtime field value of the modelled instance.
#[derive(Debug, PartialEq, Eq)]
pub enum Value {
    Text(String),
    Int(i64),
    Flag(bool),
}

impl Value {
    /// A copy equal to the original.
    pub fn duplicate(&self) -> (r: Value)
        ensures
            r == *self,
    {
        match self {
            Value::Text(s) => Value::Text(s.clone()),
            Value::Int(n) => Value::Int(*n),
            Value::Flag(b) => Value::Flag(*b),
        }
    }
}

/// One field of an assembled instance: a required field holds its value
/// unwrapped, an optional field holds its slot's state as-is.
#[derive(Debug, PartialEq, Eq)]
pub enum InstanceField {
    Req(Value),
    Opt(Option<Value>),
}

/// An assembled instance: the original structure's fields, in declaration
/// order.  Produced only by assembly, never partially constructed.
#[derive(Debug, PartialEq, Eq)]
pub struct Instance {
    pub fields: Vec<InstanceField>,
}

/// The one error a generated construct can produce after generation: a
/// required field's slot was absent when assembly was invoked.
#[derive(Debug, PartialEq, Eq)]
pub enum AssembleError {
    MissingField { field: String },
}

/// Every required slot is present.
pub open spec fn ready(required: Seq<bool>, slots: Seq<Option<Value>>) -> bool {
    forall|i: int| 0 <= i < required.len() ==> (required[i] ==> #[trigger] slots[i] is Some)
}

/// The first index at or after `from` whose slot is required and absent;
/// the length when there is none.
pub open spec fn first_missing_from(
    required: Seq<bool>,
    slots: Seq<Option<Value>>,
    from: int,
) -> int
    decreases required.len() - from,
{
    if from < 0 || from >= required.len() {
        required.len() as int
    } else if required[from] && slots[from] is None {
        from
    } else {
        first_missing_from(required, slots, from + 1)
    }
}

/// The fields of the instance assembled from the given slots: position `i`
/// of the instance comes from slot `i`, so field order always matches
/// declaration order.
pub open spec fn assembled_fields(
    required: Seq<bool>,
    slots: Seq<Option<Value>>,
) -> Seq<InstanceField> {
    Seq::new(
        required.len(),
        |i: int|
            if required[i] {
                InstanceField::Req(slots[i]->0)
            } else {
                InstanceField::Opt(slots[i])
            },
    )
}

/// The modelled accumulator: per field, its name, whether it is required,
/// and its slot, all in declaration order.
#[derive(Debug)]
pub struct Accumulator {
    pub names: Vec<String>,
    pub required: Vec<bool>,
    pub slots: Vec<Option<Value>>,
}

impl Accumulator {
    /// One name, one required mark and one slot per field.
    pub open spec fn wf(self) -> bool {
        self.names@.len() == self.required@.len() && self.slots@.len() == self.required@.len()
    }

    /// The number of fields.
    pub open spec fn field_count(self) -> nat {
        self.required@.len()
    }

    /// Whether assembly would succeed in the current state.
    pub open spec fn is_ready(self) -> bool {
        ready(self.required@, self.slots@)
    }

    /// The setter for field `index`: stores the value as present,
    /// overwriting any earlier value — last write wins, no error.  Nothing
    /// but that one slot changes.  (The generated setter also hands back a
    /// borrow of the accumulator so calls can be chained; the chaining is
    /// syntax only, the mutation is what is modelled here.)
    pub fn set(&mut self, index: usize, value: Value)
        requires
            old(self).wf(),
            index < old(self).field_count(),
        ensures
            final(self).wf(),
            final(self).names == old(self).names,
            final(self).required == old(self).required,
            final(self).slots@ == old(self).slots@.update(index as int, Some(value)),
    {
        self.slots[index] = Some(value);
    }

    /// The assembly operation.  It reads the slots in declaration order and
    /// either constructs the whole instance, or fails on the first required
    /// slot found absent, naming that field; no partial instance escapes.
    /// The slots are read, not consumed: the accumulator stays as it is and
    /// can be assembled again.
    pub fn assemble(&self) -> (r: Result<Instance, AssembleError>)
        requires
            self.wf(),
        ensures
            ((r is Ok) <==> self.is_ready()),
            r matches Ok(inst) ==> inst.fields@ == assembled_fields(self.required@, self.slots@),
            r matches Err(e) ==> {
                let k = first_missing_from(self.required@, self.slots@, 0);
                &&& 0 <= k < self.required@.len()
                &&& self.required@[k] && self.slots@[k] is None
                &&& e == (AssembleError::MissingField { field: self.names@[k] })
            },
    {
        let n = self.required.len();
        let mut fields: Vec<InstanceField> = Vec::new();
        for i in 0..n
            invariant
                self.wf(),
                n == self.required@.len(),
                fields@.len() == i,
                forall|j: int|
                    0 <= j < i ==> (self.required@[j] ==> #[trigger] self.slots@[j] is Some),
                forall|j: int|
                    0 <= j < i ==> #[trigger] fields@[j] == assembled_fields(
                        self.required@,
                        self.slots@,
                    )[j],
        {
            if self.required[i] {
                match &self.slots[i] {
                    Some(v) => {
                        fields.push(InstanceField::Req(v.duplicate()));
                    },
                    None => {
                        proof {
                            lemma_first_missing_pins(self.required@, self.slots@, i as int);
                        }
                        return Err(AssembleError::MissingField { field: self.names[i].clone() });
                    },
                }
            } else {
                let copied = match &self.slots[i] {
                    Some(v) => Some(v.duplicate()),
                    None => None,
                };
                fields.push(InstanceField::Opt(copied));
            }
        }
        proof {
            assert(fields@ =~= assembled_fields(self.required@, self.slots@));
        }
        Ok(Instance { fields })
    }
}

/// When every required slot before `i` is present and slot `i` is required
/// and absent, `i` is the first missing slot.
pub proof fn lemma_first_missing_pins(required: Seq<bool>, slots: Seq<Option<Value>>, i: int)
    requires
        slots.len() == required.len(),
        0 <= i < required.len(),
        required[i],
        slots[i] is None,
        forall|j: int| 0 <= j < i ==> (required[j] ==> #[trigger] slots[j] is Some),
    ensures
        first_missing_from(required, slots, 0) == i,
{
    lemma_first_missing_step(required, slots, 0, i);
}

/// Helper: scanning from any point at or before the first missing slot
/// lands on it.
proof fn lemma_first_missing_step(
    required: Seq<bool>,
    slots: Seq<Option<Value>>,
    from: int,
    i: int,
)
    requires
        slots.len() == required.len(),
        0 <= from <= i,
        0 <= i < required.len(),
        required[i],
        slots[i] is None,
        forall|j: int| 0 <= j < i ==> (required[j] ==> #[trigger] slots[j] is Some),
    ensures
        first_missing_from(required, slots, from) == i,
    decreases i - from,
{
    if from < i {
        lemma_first_missing_step(required, slots, from + 1, i);
    }
}

impl GeneratedSet {
    /// The factory the generated set associates with the original structure:
    /// a fresh accumulator whose every slot is absent, one slot per declared
    /// field, required exactly where the layout wrapped the declared type.
    /// Construction always succeeds.
    pub fn factory(&self) -> (acc: Accumulator)
        ensures
            acc.wf(),
            acc.field_count() == self.layout.slots@.len(),
            forall|i: int| 0 <= i < self.layout.slots@.len() ==> #[trigger] acc.slots@[i] is None,
            forall|i: int|
                0 <= i < self.layout.slots@.len() ==> #[trigger] acc.required@[i]
                    == (self.layout.slots@[i].ty is OptionOf),
            forall|i: int|
                0 <= i < self.layout.slots@.len() ==> #[trigger] acc.names@[i]
                    == self.layout.slots@[i].name,
    {
        let n = self.layout.slots.len();
        let mut names: Vec<String> = Vec::new();
        let mut required: Vec<bool> = Vec::new();
        let mut slots: Vec<Option<Value>> = Vec::new();
        for i in 0..n
            invariant
                n == self.layout.slots@.len(),
                names@.len() == i,
                required@.len() == i,
                slots@.len() == i,
                forall|j: int| 0 <= j < i ==> #[trigger] slots@[j] is None,
                forall|j: int|
                    0 <= j < i ==> #[trigger] required@[j] == (self.layout.slots@[j].ty
                        is OptionOf),
                forall|j: int|
                    0 <= j < i ==> #[trigger] names@[j] == self.layout.slots@[j].name,
        {
            let slot = &self.layout.slots[i];
            names.push(slot.name.clone());
            let is_required = match &slot.ty {
                SlotType::OptionOf(_) => true,
                SlotType::Declared(_) => false,
            };
            required.push(is_required);
            slots.push(None);
        }
        Accumulator { names, required, slots }
    }
}

} // verus!
