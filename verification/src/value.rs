//! Field values and their string forms.

use vstd::prelude::*;
use vstd::string::*;

verus! {

/// The type of value a field holds.
#[derive(Clone, Copy, Debug, PartialEq, Eq, Structural)]
pub enum ValueType {
    /// A string reference.
    Text,
    /// An unsigned 8-bit integer.
    U8,
    /// An unsigned 16-bit integer.
    U16,
    /// An unsigned 32-bit integer.
    U32,
    /// A boolean.
    Bool,
}

/// The decimal digit character for `d`.
pub open spec fn digit(d: nat) -> char {
    if d == 0 {
        '0'
    } else if d == 1 {
        '1'
    } else if d == 2 {
        '2'
    } else if d == 3 {
        '3'
    } else if d == 4 {
        '4'
    } else if d == 5 {
        '5'
    } else if d == 6 {
        '6'
    } else if d == 7 {
        '7'
    } else if d == 8 {
        '8'
    } else {
        '9'
    }
}

/// The decimal notation of `n`, without leading zeros.
pub open spec fn decimal(n: nat) -> Seq<char>
    decreases n,
{
    if n < 10 {
        seq![digit(n)]
    } else {
        decimal(n / 10).push(digit(n % 10))
    }
}

/// The string form of a boolean: `true` or `false`.
pub open spec fn bool_text(b: bool) -> Seq<char> {
    if b {
        seq!['t', 'r', 'u', 'e']
    } else {
        seq!['f', 'a', 'l', 's', 'e']
    }
}

fn digit_str(d: u32) -> (s: &'static str)
    requires
        d < 10,
    ensures
        s@ == seq![digit(d as nat)],
{
    proof {
        reveal_strlit("0");
        reveal_strlit("1");
        reveal_strlit("2");
        reveal_strlit("3");
        reveal_strlit("4");
        reveal_strlit("5");
        reveal_strlit("6");
        reveal_strlit("7");
        reveal_strlit("8");
        reveal_strlit("9");
    }
    let s = if d == 0 {
        "0"
    } else if d == 1 {
        "1"
    } else if d == 2 {
        "2"
    } else if d == 3 {
        "3"
    } else if d == 4 {
        "4"
    } else if d == 5 {
        "5"
    } else if d == 6 {
        "6"
    } else if d == 7 {
        "7"
    } else if d == 8 {
        "8"
    } else {
        "9"
    };
    assert(s@ =~= seq![digit(d as nat)]);
    s
}

/// The decimal notation of `n`.
pub fn decimal_text(n: u32) -> (s: String)
    ensures
        s@ == decimal(n as nat),
    decreases n,
{
    if n < 10 {
        String::from_str(digit_str(n))
    } else {
        let mut s = decimal_text(n / 10);
        s.append(digit_str(n % 10));
        assert(s@ =~= decimal((n / 10) as nat).push(digit((n % 10) as nat)));
        s
    }
}

/// The string form of `b`.
pub fn bool_to_text(b: bool) -> (s: String)
    ensures
        s@ == bool_text(b),
{
    proof {
        reveal_strlit("true");
        reveal_strlit("false");
    }
    let s = if b {
        String::from_str("true")
    } else {
        String::from_str("false")
    };
    assert(s@ =~= bool_text(b));
    s
}

/// A value held by a field of a request.
#[derive(Debug)]
pub enum Value {
    /// A string.
    Text(String),
    /// An unsigned 8-bit integer.
    U8(u8),
    /// An unsigned 16-bit integer.
    U16(u16),
    /// An unsigned 32-bit integer.
    U32(u32),
    /// A boolean.
    Bool(bool),
}

/// The mathematical content of a `Value`.
pub enum ValueView {
    Text(Seq<char>),
    U8(u8),
    U16(u16),
    U32(u32),
    Bool(bool),
}

impl ValueView {
    /// The type of this value.
    pub open spec fn type_of(self) -> ValueType {
        match self {
            ValueView::Text(_) => ValueType::Text,
            ValueView::U8(_) => ValueType::U8,
            ValueView::U16(_) => ValueType::U16,
            ValueView::U32(_) => ValueType::U32,
            ValueView::Bool(_) => ValueType::Bool,
        }
    }

    /// The string form of this value: a string as it is, an integer in
    /// decimal notation, a boolean as `true` or `false`.
    pub open spec fn text(self) -> Seq<char> {
        match self {
            ValueView::Text(s) => s,
            ValueView::U8(n) => decimal(n as nat),
            ValueView::U16(n) => decimal(n as nat),
            ValueView::U32(n) => decimal(n as nat),
            ValueView::Bool(b) => bool_text(b),
        }
    }
}

impl View for Value {
    type V = ValueView;

    open spec fn view(&self) -> ValueView {
        match self {
            Value::Text(s) => ValueView::Text(s@),
            Value::U8(n) => ValueView::U8(*n),
            Value::U16(n) => ValueView::U16(*n),
            Value::U32(n) => ValueView::U32(*n),
            Value::Bool(b) => ValueView::Bool(*b),
        }
    }
}

/// The views of a sequence of values.
pub open spec fn value_views(values: Seq<Value>) -> Seq<ValueView> {
    values.map_values(|v: Value| v@)
}

/// The view of a value that may be absent.
pub open spec fn slot_view(slot: Option<Value>) -> Option<ValueView> {
    match slot {
        Some(value) => Some(value@),
        None => None,
    }
}

/// The views of a sequence of values that may be absent.
pub open spec fn slot_views(slots: Seq<Option<Value>>) -> Seq<Option<ValueView>> {
    slots.map_values(|slot: Option<Value>| slot_view(slot))
}

impl Value {
    /// The type of this value.
    pub fn value_type(&self) -> (t: ValueType)
        ensures
            t == self@.type_of(),
    {
        match self {
            Value::Text(_) => ValueType::Text,
            Value::U8(_) => ValueType::U8,
            Value::U16(_) => ValueType::U16,
            Value::U32(_) => ValueType::U32,
            Value::Bool(_) => ValueType::Bool,
        }
    }

    /// The string form of this value.
    pub fn to_text(&self) -> (s: String)
        ensures
            s@ == self@.text(),
    {
        match self {
            Value::Text(s) => s.clone(),
            Value::U8(n) => decimal_text(*n as u32),
            Value::U16(n) => decimal_text(*n as u32),
            Value::U32(n) => decimal_text(*n),
            Value::Bool(b) => bool_to_text(*b),
        }
    }
}

impl Clone for Value {
    fn clone(&self) -> (copy: Self)
        ensures
            copy == *self,
    {
        match self {
            Value::Text(s) => Value::Text(s.clone()),
            Value::U8(n) => Value::U8(*n),
            Value::U16(n) => Value::U16(*n),
            Value::U32(n) => Value::U32(*n),
            Value::Bool(b) => Value::Bool(*b),
        }
    }
}

impl PartialEq for Value {
    fn eq(&self, other: &Value) -> (equal: bool) {
        match (self, other) {
            (Value::Text(a), Value::Text(b)) => *a == *b,
            (Value::U8(a), Value::U8(b)) => *a == *b,
            (Value::U16(a), Value::U16(b)) => *a == *b,
            (Value::U32(a), Value::U32(b)) => *a == *b,
            (Value::Bool(a), Value::Bool(b)) => *a == *b,
            _ => false,
        }
    }
}

impl vstd::std_specs::cmp::PartialEqSpecImpl for Value {
    open spec fn obeys_eq_spec() -> bool {
        true
    }

    open spec fn eq_spec(&self, other: &Value) -> bool {
        self@ == other@
    }
}

impl Eq for Value {

}

} // verus!
