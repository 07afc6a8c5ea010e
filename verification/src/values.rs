//! The tagged representation of everything a name can resolve to, and the
//! external witness inputs that unbound variables draw from.

use crate::ast::Function;
use crate::ast::FunctionV;
use crate::ast::Struct;
use crate::ast::StructMember;
use crate::ast::StructMemberV;
use crate::ast::StructV;
use crate::ast::Variable;
use crate::ast::function_view;
use crate::ast::lemma_members_view_index;
use crate::ast::members_view;
use crate::ast::struct_view;
use crate::sink::GateBool;
use crate::sink::GateUint;
use vstd::prelude::*;

verus! {

broadcast use vstd::std_specs::vec::group_vec_axioms;

/// Mirror of a resolved value.
pub enum ValueV {
    Boolean(GateBool),
    BooleanArray(Seq<GateBool>),
    FieldElement(GateUint),
    FieldElementArray(Seq<GateUint>),
    StructDefinition(StructV),
    StructExpression(Seq<char>, Seq<StructMemberV>),
    Function(FunctionV),
}

/// Everything a name can resolve to.  A value's variant never changes after
/// creation; rebinding a name replaces the value wholesale.
#[derive(Debug)]
pub enum ResolvedValue {
    /// A gate-backed boolean.
    Boolean(GateBool),
    /// An ordered sequence of gate-backed booleans.
    BooleanArray(Vec<GateBool>),
    /// A gate-backed fixed-width integer.
    FieldElement(GateUint),
    /// An ordered sequence of gate-backed fixed-width integers.
    FieldElementArray(Vec<GateUint>),
    /// A struct declaration, resolvable before any statement executes.
    StructDefinition(Struct),
    /// A struct instance: the struct name and the original, unevaluated
    /// member initializer list (field access re-resolves on demand).
    StructExpression(Variable, Vec<StructMember>),
    /// A function declaration; stored but never invoked by this driver.
    Function(Function),
}

/// Mirror of a resolved value.
pub open spec fn value_view(v: ResolvedValue) -> ValueV {
    match v {
        ResolvedValue::Boolean(g) => ValueV::Boolean(g),
        ResolvedValue::BooleanArray(arr) => ValueV::BooleanArray(arr@),
        ResolvedValue::FieldElement(g) => ValueV::FieldElement(g),
        ResolvedValue::FieldElementArray(arr) => ValueV::FieldElementArray(arr@),
        ResolvedValue::StructDefinition(s) => ValueV::StructDefinition(struct_view(s)),
        ResolvedValue::StructExpression(name, members) => ValueV::StructExpression(
            name.0@,
            members_view(members@),
        ),
        ResolvedValue::Function(f) => ValueV::Function(function_view(f)),
    }
}

impl DeepView for ResolvedValue {
    type V = ValueV;

    open spec fn deep_view(&self) -> ValueV {
        value_view(*self)
    }
}

impl Clone for ResolvedValue {
    fn clone(&self) -> (r: Self)
        ensures
            r.deep_view() == self.deep_view(),
    {
        match self {
            ResolvedValue::Boolean(g) => ResolvedValue::Boolean(*g),
            ResolvedValue::BooleanArray(arr) => {
                let mut out: Vec<GateBool> = Vec::new();
                let mut idx: usize = 0;
                while idx < arr.len()
                    invariant
                        idx <= arr.len(),
                        out@ =~= arr@.subrange(0, idx as int),
                    decreases arr.len() - idx,
                {
                    out.push(arr[idx]);
                    idx = idx + 1;
                }
                proof {
                    assert(out@ =~= arr@);
                }
                ResolvedValue::BooleanArray(out)
            },
            ResolvedValue::FieldElement(g) => ResolvedValue::FieldElement(*g),
            ResolvedValue::FieldElementArray(arr) => {
                let mut out: Vec<GateUint> = Vec::new();
                let mut idx: usize = 0;
                while idx < arr.len()
                    invariant
                        idx <= arr.len(),
                        out@ =~= arr@.subrange(0, idx as int),
                    decreases arr.len() - idx,
                {
                    out.push(arr[idx]);
                    idx = idx + 1;
                }
                proof {
                    assert(out@ =~= arr@);
                }
                ResolvedValue::FieldElementArray(out)
            },
            ResolvedValue::StructDefinition(s) => ResolvedValue::StructDefinition(s.clone()),
            ResolvedValue::StructExpression(name, members) => {
                let mut out: Vec<StructMember> = Vec::new();
                let mut idx: usize = 0;
                while idx < members.len()
                    invariant
                        idx <= members.len(),
                        out@.len() == idx,
                        forall|i: int|
                            0 <= i < idx ==> #[trigger] out@[i].deep_view()
                                == members@[i].deep_view(),
                    decreases members.len() - idx,
                {
                    out.push(members[idx].clone());
                    idx = idx + 1;
                }
                proof {
                    lemma_members_view_index(members@);
                    lemma_members_view_index(out@);
                    assert forall|i: int| 0 <= i < out@.len() implies members_view(out@)[i]
                        == members_view(members@)[i] by {
                        assert(out@[i].deep_view() == members@[i].deep_view());
                    }
                    assert(members_view(out@) =~= members_view(members@));
                }
                ResolvedValue::StructExpression(name.clone(), out)
            },
            ResolvedValue::Function(f) => ResolvedValue::Function(f.clone()),
        }
    }
}

/// One external witness input: the concrete value to bind for an otherwise
/// unresolved variable of the matching kind.
#[derive(Clone, Copy, Debug, PartialEq, Eq, Structural)]
pub enum WitnessValue {
    Boolean(bool),
    FieldElement(u32),
}

impl DeepView for WitnessValue {
    type V = WitnessValue;

    open spec fn deep_view(&self) -> WitnessValue {
        *self
    }
}

/// The witness provider: an explicit, caller-supplied mapping from names to
/// external input values, threaded through generation as an ordinary
/// collaborator reference.  When several entries share a name, the latest
/// entry wins, as with bindings in the environment.
#[derive(Debug)]
pub struct Witness {
    pub entries: Vec<(String, WitnessValue)>,
}

/// Looks a name up among witness entries, latest entry first.
pub open spec fn wit_lookup(entries: Seq<(Seq<char>, WitnessValue)>, name: Seq<char>) -> Option<
    WitnessValue,
>
    decreases entries.len(),
{
    if entries.len() == 0 {
        Option::None
    } else if entries.last().0 == name {
        Option::Some(entries.last().1)
    } else {
        wit_lookup(entries.drop_last(), name)
    }
}

impl Witness {
    /// An empty witness mapping.
    pub fn new() -> (w: Witness)
        ensures
            w.entries@.len() == 0,
    {
        Witness { entries: Vec::new() }
    }

    /// Adds an entry; it shadows earlier entries with the same name.
    pub fn provide(&mut self, name: String, value: WitnessValue)
        ensures
            final(self).entries.deep_view() == old(self).entries.deep_view().push(
                (name@, value),
            ),
    {
        let ghost before = self.entries.deep_view();
        self.entries.push((name, value));
        proof {
            assert(self.entries.deep_view() =~= before.push((name@, value)));
        }
    }

    /// Looks `name` up among the entries.
    pub fn find(&self, name: &String) -> (r: Option<WitnessValue>)
        ensures
            r == wit_lookup(self.entries.deep_view(), name@),
    {
        proof {
            assert(self.entries.deep_view().take(self.entries@.len() as int)
                =~= self.entries.deep_view());
        }
        let mut idx: usize = self.entries.len();
        while idx > 0
            invariant
                idx <= self.entries@.len(),
                wit_lookup(self.entries.deep_view(), name@) == wit_lookup(
                    self.entries.deep_view().take(idx as int),
                    name@,
                ),
            decreases idx,
        {
            idx = idx - 1;
            let ghost pre = self.entries.deep_view().take(idx + 1);
            proof {
                assert(pre.drop_last() =~= self.entries.deep_view().take(idx as int));
                assert(pre.last() == (self.entries@[idx as int].0@, self.entries@[idx as int].1));
            }
            let entry = &self.entries[idx];
            if entry.0 == *name {
                return Some(entry.1);
            }
        }
        proof {
            assert(self.entries.deep_view().take(0) =~= Seq::<(Seq<char>, WitnessValue)>::empty());
        }
        None
    }
}

} // verus!
