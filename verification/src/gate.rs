//! The change gate: it remembers, for each quantity, the text that was last
//! forwarded, and lets a value through only when its text differs from
//! that.
//!
//! Texts are compared, not numbers: two values that are written the
//! same way are the same value, and a whole number equals another
//! exactly when their texts are equal.

use vstd::prelude::*;
use crate::vehicle::data::{Field, FIELD_COUNT};

verus! {

/// Whether `value` passes for `field`: it does unless `value` is what is
/// remembered for that quantity.
pub open spec fn gate_changed(
    memory: Map<Field, Seq<char>>,
    field: Field,
    value: Seq<char>,
) -> bool {
    !(memory.dom().contains(field) && memory[field] == value)
}

/// What is remembered after `value` was asked about for `field`.
pub open spec fn gate_after(
    memory: Map<Field, Seq<char>>,
    field: Field,
    value: Seq<char>,
) -> Map<Field, Seq<char>> {
    memory.insert(field, value)
}

/// The memory of what was forwarded last, one text for each quantity that
/// was ever asked about.
#[derive(Debug)]
pub struct ChangeGate {
    last: Vec<Option<String>>,
}

impl View for ChangeGate {
    type V = Map<Field, Seq<char>>;

    closed spec fn view(&self) -> Map<Field, Seq<char>> {
        Map::new(
            |f: Field| self.last@[f.spec_index()] is Some,
            |f: Field| self.last@[f.spec_index()]->0@,
        )
    }
}

impl ChangeGate {
    #[verifier::type_invariant]
    spec fn well_formed(self) -> bool {
        self.last@.len() == FIELD_COUNT
    }

    /// A gate that remembers nothing: the first value of every quantity
    /// will pass.
    pub fn new() -> (gate: ChangeGate)
        ensures
            gate@ == Map::<Field, Seq<char>>::empty(),
    {
        let mut last: Vec<Option<String>> = Vec::new();
        let mut i: usize = 0;
        while i < FIELD_COUNT
            invariant
                i <= FIELD_COUNT,
                last@.len() == i,
                forall|k: int| 0 <= k < i ==> last@[k] is None,
            decreases FIELD_COUNT - i,
        {
            last.push(None);
            i += 1;
        }
        let gate = ChangeGate { last };
        assert(gate@ =~= Map::<Field, Seq<char>>::empty());
        gate
    }

    /// Says whether `value` differs from what was last forwarded for
    /// `field`, and remembers `value` as forwarded. The first value of a
    /// quantity always differs. No other quantity's memory changes.
    pub fn changed(&mut self, field: Field, value: &str) -> (differs: bool)
        ensures
            differs == gate_changed(old(self)@, field, value@),
            final(self)@ == gate_after(old(self)@, field, value@),
    {
        proof {
            use_type_invariant(&*self);
        }
        let i: usize = field.index();
        let text: String = value.to_owned();
        let differs: bool = match &self.last[i] {
            Some(previous) => !(*previous == text),
            None => true,
        };
        self.last[i] = Some(text);
        proof {
            assert forall|f: Field| #[trigger]
                self@.dom().contains(f) == gate_after(old(self)@, field, value@).dom().contains(
                    f,
                ) && (self@.dom().contains(f) ==> self@[f] == gate_after(
                    old(self)@,
                    field,
                    value@,
                )[f]) by {
                if f != field && f.spec_index() == field.spec_index() {
                    Field::lemma_index_injective(f, field);
                }
            }
            assert(self@ =~= gate_after(old(self)@, field, value@));
        }
        differs
    }

    /// The text last forwarded for a quantity, if one was ever asked about.
    pub fn last_forwarded(&self, field: Field) -> (text: Option<String>)
        ensures
            text is Some <==> self@.dom().contains(field),
            text matches Some(t) ==> t@ == self@[field],
    {
        proof {
            use_type_invariant(self);
        }
        match &self.last[field.index()] {
            Some(previous) => Some(previous.clone()),
            None => None,
        }
    }
}

/// The first value seen for a quantity passes; the same value right after
/// it does not, however often it is repeated; a different value passes; and
/// after that the first value passes again.
pub proof fn lemma_gate_passes_changes_only(
    memory: Map<Field, Seq<char>>,
    field: Field,
    first: Seq<char>,
    second: Seq<char>,
)
    requires
        !memory.dom().contains(field),
        first != second,
    ensures
        gate_changed(memory, field, first),
        !gate_changed(gate_after(memory, field, first), field, first),
        !gate_changed(gate_after(gate_after(memory, field, first), field, first), field, first),
        gate_changed(gate_after(memory, field, first), field, second),
        gate_changed(
            gate_after(gate_after(memory, field, first), field, second),
            field,
            first,
        ),
{
}

/// Whatever is remembered, a value that was just asked about does not
/// pass a second time, and asking about it again leaves the memory as it
/// is.
pub proof fn lemma_gate_repeat_blocked(
    memory: Map<Field, Seq<char>>,
    field: Field,
    value: Seq<char>,
)
    ensures
        !gate_changed(gate_after(memory, field, value), field, value),
        gate_after(gate_after(memory, field, value), field, value) == gate_after(
            memory,
            field,
            value,
        ),
{
    assert(gate_after(gate_after(memory, field, value), field, value) =~= gate_after(
        memory,
        field,
        value,
    ));
}

/// Asking about one quantity does not touch what passes for another.
pub proof fn lemma_gate_fields_independent(
    memory: Map<Field, Seq<char>>,
    field: Field,
    value: Seq<char>,
    other: Field,
    other_value: Seq<char>,
)
    requires
        field != other,
    ensures
        gate_changed(gate_after(memory, field, value), other, other_value) == gate_changed(
            memory,
            other,
            other_value,
        ),
{
}

} // verus!
