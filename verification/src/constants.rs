use vstd::prelude::*;

verus! {

/// A value given to a function constant of a kernel when its pipeline is built.
/// `F32` holds the IEEE-754 bit pattern of a 32-bit float: two values are the same
/// constant exactly when their bits agree.
#[derive(Debug, Clone, Copy, PartialEq, Eq, Structural, Hash)]
pub enum Value {
    USize(usize),
    Bool(bool),
    F32(u32),
    U16(u16),
}

/// The Metal data type a function constant is declared with.
#[derive(Debug, Clone, Copy, PartialEq, Eq, Structural)]
pub enum ConstantType {
    UInt,
    Float,
    UShort,
    Bool,
}

pub open spec fn spec_data_type(v: Value) -> ConstantType {
    match v {
        Value::USize(_) => ConstantType::UInt,
        Value::F32(_) => ConstantType::Float,
        Value::U16(_) => ConstantType::UShort,
        Value::Bool(_) => ConstantType::Bool,
    }
}

impl Value {
    /// The data type the constant is passed to Metal as.
    pub fn data_type(&self) -> (t: ConstantType)
        ensures
            t == spec_data_type(*self),
    {
        match self {
            Value::USize(_) => ConstantType::UInt,
            Value::F32(_) => ConstantType::Float,
            Value::U16(_) => ConstantType::UShort,
            Value::Bool(_) => ConstantType::Bool,
        }
    }
}

/// One function constant as it is set on a Metal `FunctionConstantValues`:
/// the value, the type it is declared with and the index it is set at.
#[derive(Debug, Clone, Copy, PartialEq, Eq, Structural)]
pub struct ConstantBinding {
    pub index: u64,
    pub data_type: ConstantType,
    pub value: Value,
}

/// The function constants a pipeline is specialised with, as (index, value) pairs.
#[derive(Debug)]
pub struct ConstantValues(Vec<(usize, Value)>);

impl View for ConstantValues {
    type V = Seq<(usize, Value)>;

    closed spec fn view(&self) -> Seq<(usize, Value)> {
        self.0@
    }
}

impl ConstantValues {
    pub fn new(values: Vec<(usize, Value)>) -> (c: Self)
        ensures
            c@ == values@,
    {
        ConstantValues(values)
    }

    /// The settings to make on a `FunctionConstantValues`, one per pair and in order.
    pub fn bindings(&self) -> (b: Vec<ConstantBinding>)
        ensures
            b@.len() == self@.len(),
            forall|i: int|
                0 <= i < b@.len() ==> #[trigger] b@[i] == (ConstantBinding {
                    index: self@[i].0 as u64,
                    data_type: spec_data_type(self@[i].1),
                    value: self@[i].1,
                }),
    {
        let mut out: Vec<ConstantBinding> = Vec::new();
        let mut i: usize = 0;
        while i < self.0.len()
            invariant
                i <= self@.len(),
                out@.len() == i,
                forall|j: int|
                    0 <= j < i ==> #[trigger] out@[j] == (ConstantBinding {
                        index: self@[j].0 as u64,
                        data_type: spec_data_type(self@[j].1),
                        value: self@[j].1,
                    }),
            decreases self@.len() - i,
        {
            let (index, value) = self.0[i];
            out.push(ConstantBinding { index: index as u64, data_type: value.data_type(), value });
            i = i + 1;
        }
        out
    }

    /// Whether both hold the same pairs in the same order.
    pub fn same(&self, other: &ConstantValues) -> (b: bool)
        ensures
            b == (self@ == other@),
    {
        if self.0.len() != other.0.len() {
            return false;
        }
        let mut i: usize = 0;
        while i < self.0.len()
            invariant
                i <= self@.len(),
                self@.len() == other@.len(),
                forall|j: int| 0 <= j < i ==> self@[j] == other@[j],
            decreases self@.len() - i,
        {
            let (ia, va) = self.0[i];
            let (ib, vb) = other.0[i];
            if ia != ib || va != vb {
                assert(self@[i as int] != other@[i as int]);
                return false;
            }
            i = i + 1;
        }
        assert(self@ =~= other@);
        true
    }
}

} // verus!
